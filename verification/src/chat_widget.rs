//! The chat transcript widget: a bounded list of displayed messages.

use vstd::prelude::*;
use crate::clock::local_time_hms;

verus! {

/// One displayed chat message.
#[derive(Debug)]
pub struct ChatMessage {
    pub sender: String,
    pub content: String,
    pub timestamp: String,
    pub is_user: bool,
}

/// The mathematical content of a `ChatMessage`.
pub ghost struct ChatMessageView {
    pub sender: Seq<char>,
    pub content: Seq<char>,
    pub timestamp: Seq<char>,
    pub is_user: bool,
}

impl View for ChatMessage {
    type V = ChatMessageView;

    open spec fn view(&self) -> ChatMessageView {
        ChatMessageView {
            sender: self.sender@,
            content: self.content@,
            timestamp: self.timestamp@,
            is_user: self.is_user,
        }
    }
}

impl DeepView for ChatMessage {
    type V = ChatMessageView;

    open spec fn deep_view(&self) -> ChatMessageView {
        self@
    }
}

impl Clone for ChatMessage {
    fn clone(&self) -> (r: ChatMessage)
        ensures
            r@ == self@,
    {
        ChatMessage {
            sender: self.sender.clone(),
            content: self.content.clone(),
            timestamp: self.timestamp.clone(),
            is_user: self.is_user,
        }
    }
}

/// What one displayed append leaves: the message at the back; when that
/// passes the bound, the oldest message leaves.
pub open spec fn spec_chat_add(msgs: Seq<ChatMessageView>, max: nat, m: ChatMessageView) -> Seq<
    ChatMessageView,
> {
    let pushed = msgs.push(m);
    if pushed.len() > max {
        pushed.drop_first()
    } else {
        pushed
    }
}

/// The transcript display: messages in arrival order, bounded.
#[derive(Debug)]
pub struct ChatWidget {
    messages: Vec<ChatMessage>,
    max_messages: usize,
    show_timestamps: bool,
    show_sender: bool,
}

impl ChatWidget {
    /// The mathematical transcript.
    pub closed spec fn msgs(&self) -> Seq<ChatMessageView> {
        self.messages.deep_view()
    }

    pub closed spec fn spec_max(&self) -> nat {
        self.max_messages as nat
    }

    pub closed spec fn spec_show_timestamps(&self) -> bool {
        self.show_timestamps
    }

    pub closed spec fn spec_show_sender(&self) -> bool {
        self.show_sender
    }

    pub fn new() -> (r: ChatWidget)
        ensures
            r.msgs() =~= Seq::<ChatMessageView>::empty(),
            r.spec_max() == 100,
            r.spec_show_timestamps(),
            r.spec_show_sender(),
    {
        let r = ChatWidget {
            messages: Vec::new(),
            max_messages: 100,
            show_timestamps: true,
            show_sender: true,
        };
        proof {
            assert(r.msgs() =~= Seq::<ChatMessageView>::empty());
        }
        r
    }

    pub fn with_max_messages(self, max: usize) -> (r: ChatWidget)
        ensures
            r.msgs() == self.msgs(),
            r.spec_max() == max,
            r.spec_show_timestamps() == self.spec_show_timestamps(),
            r.spec_show_sender() == self.spec_show_sender(),
    {
        ChatWidget { max_messages: max, ..self }
    }

    pub fn with_timestamps(self, show: bool) -> (r: ChatWidget)
        ensures
            r.msgs() == self.msgs(),
            r.spec_max() == self.spec_max(),
            r.spec_show_timestamps() == show,
            r.spec_show_sender() == self.spec_show_sender(),
    {
        ChatWidget { show_timestamps: show, ..self }
    }

    pub fn with_sender(self, show: bool) -> (r: ChatWidget)
        ensures
            r.msgs() == self.msgs(),
            r.spec_max() == self.spec_max(),
            r.spec_show_timestamps() == self.spec_show_timestamps(),
            r.spec_show_sender() == show,
    {
        ChatWidget { show_sender: show, ..self }
    }

    /// Appends one message; when the bound is passed the oldest leaves.
    pub fn add_message(&mut self, message: ChatMessage)
        ensures
            final(self).msgs() == spec_chat_add(old(self).msgs(), old(self).spec_max(), message@),
            final(self).spec_max() == old(self).spec_max(),
            final(self).spec_show_timestamps() == old(self).spec_show_timestamps(),
            final(self).spec_show_sender() == old(self).spec_show_sender(),
    {
        let ghost before = self.msgs();
        let ghost mv = message@;
        self.messages.push(message);
        proof {
            assert(self.msgs() =~= before.push(mv));
        }
        if self.messages.len() > self.max_messages {
            let ghost pushed = self.msgs();
            self.messages.remove(0);
            proof {
                assert(self.msgs() =~= pushed.drop_first());
            }
        }
    }

    /// Appends the user's message, stamped with the local time of day.
    pub fn add_user_message(&mut self, content: &str)
        ensures
            final(self).spec_max() == old(self).spec_max(),
            final(self).spec_show_timestamps() == old(self).spec_show_timestamps(),
            final(self).spec_show_sender() == old(self).spec_show_sender(),
            exists|m: ChatMessageView|
                m.sender == "You"@ && m.content == content@ && m.is_user && final(self).msgs()
                    == spec_chat_add(old(self).msgs(), old(self).spec_max(), m),
    {
        let message = ChatMessage {
            sender: String::from_str("You"),
            content: content.to_owned(),
            timestamp: local_time_hms(),
            is_user: true,
        };
        let ghost mv = message@;
        self.add_message(message);
        proof {
            assert(mv.sender == "You"@ && mv.content == content@ && mv.is_user && self.msgs()
                == spec_chat_add(old(self).msgs(), old(self).spec_max(), mv));
        }
    }

    /// Appends the model's message, stamped with the local time of day.
    pub fn add_ai_message(&mut self, content: &str)
        ensures
            final(self).spec_max() == old(self).spec_max(),
            final(self).spec_show_timestamps() == old(self).spec_show_timestamps(),
            final(self).spec_show_sender() == old(self).spec_show_sender(),
            exists|m: ChatMessageView|
                m.sender == "AI"@ && m.content == content@ && !m.is_user && final(self).msgs()
                    == spec_chat_add(old(self).msgs(), old(self).spec_max(), m),
    {
        let message = ChatMessage {
            sender: String::from_str("AI"),
            content: content.to_owned(),
            timestamp: local_time_hms(),
            is_user: false,
        };
        let ghost mv = message@;
        self.add_message(message);
        proof {
            assert(mv.sender == "AI"@ && mv.content == content@ && !mv.is_user && self.msgs()
                == spec_chat_add(old(self).msgs(), old(self).spec_max(), mv));
        }
    }

    /// Empties the transcript.
    pub fn clear(&mut self)
        ensures
            final(self).msgs() =~= Seq::<ChatMessageView>::empty(),
            final(self).spec_max() == old(self).spec_max(),
            final(self).spec_show_timestamps() == old(self).spec_show_timestamps(),
            final(self).spec_show_sender() == old(self).spec_show_sender(),
    {
        self.messages.clear();
        proof {
            assert(self.msgs() =~= Seq::<ChatMessageView>::empty());
        }
    }

    /// The displayed messages, in arrival order.
    pub fn messages(&self) -> (r: &Vec<ChatMessage>)
        ensures
            r.deep_view() == self.msgs(),
    {
        &self.messages
    }

    /// How many messages are displayed.
    pub fn message_count(&self) -> (r: usize)
        ensures
            r == self.msgs().len(),
    {
        self.messages.len()
    }
}

impl Default for ChatWidget {
    fn default() -> (r: ChatWidget)
        ensures
            r.msgs() =~= Seq::<ChatMessageView>::empty(),
            r.spec_max() == 100,
    {
        ChatWidget::new()
    }
}

} // verus!
