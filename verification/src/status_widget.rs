//! The status-line widget: a bounded list of levelled status items.

use vstd::prelude::*;
use crate::clock::local_time_hms;

verus! {

/// The severity of a status item.
#[derive(Debug, Clone, Copy, PartialEq, Eq, Structural)]
pub enum StatusLevel {
    Info,
    Success,
    Warning,
    Error,
}

impl Default for StatusLevel {
    fn default() -> (r: StatusLevel)
        ensures
            r == StatusLevel::Info,
    {
        StatusLevel::Info
    }
}

/// One status line.
#[derive(Debug)]
pub struct StatusItem {
    pub message: String,
    pub level: StatusLevel,
    pub timestamp: String,
}

/// The mathematical content of a `StatusItem`.
pub ghost struct StatusItemView {
    pub message: Seq<char>,
    pub level: StatusLevel,
    pub timestamp: Seq<char>,
}

impl View for StatusItem {
    type V = StatusItemView;

    open spec fn view(&self) -> StatusItemView {
        StatusItemView {
            message: self.message@,
            level: self.level,
            timestamp: self.timestamp@,
        }
    }
}

impl DeepView for StatusItem {
    type V = StatusItemView;

    open spec fn deep_view(&self) -> StatusItemView {
        self@
    }
}

/// What one report leaves: the item at the back; past the bound the oldest
/// leaves.
pub open spec fn spec_status_add(items: Seq<StatusItemView>, max: nat, m: StatusItemView) -> Seq<
    StatusItemView,
> {
    let pushed = items.push(m);
    if pushed.len() > max {
        pushed.drop_first()
    } else {
        pushed
    }
}

/// A bounded list of status reports.
#[derive(Debug)]
pub struct StatusWidget {
    items: Vec<StatusItem>,
    max_items: usize,
    auto_clear: bool,
    clear_after_millis: Option<i64>,
}

impl StatusWidget {
    /// The mathematical item list.
    pub closed spec fn spec_items(&self) -> Seq<StatusItemView> {
        self.items.deep_view()
    }

    pub closed spec fn spec_max(&self) -> nat {
        self.max_items as nat
    }

    pub fn new() -> (r: StatusWidget)
        ensures
            r.spec_items() =~= Seq::<StatusItemView>::empty(),
            r.spec_max() == 10,
    {
        let r = StatusWidget {
            items: Vec::new(),
            max_items: 10,
            auto_clear: false,
            clear_after_millis: None,
        };
        proof {
            assert(r.spec_items() =~= Seq::<StatusItemView>::empty());
        }
        r
    }

    pub fn with_max_items(self, max: usize) -> (r: StatusWidget)
        ensures
            r.spec_items() == self.spec_items(),
            r.spec_max() == max,
    {
        StatusWidget { max_items: max, ..self }
    }

    pub fn with_auto_clear(self, auto: bool) -> (r: StatusWidget)
        ensures
            r.spec_items() == self.spec_items(),
            r.spec_max() == self.spec_max(),
    {
        StatusWidget { auto_clear: auto, ..self }
    }

    /// The clearing delay, in milliseconds.
    pub fn with_clear_after(self, millis: i64) -> (r: StatusWidget)
        ensures
            r.spec_items() == self.spec_items(),
            r.spec_max() == self.spec_max(),
    {
        StatusWidget { clear_after_millis: Some(millis), ..self }
    }

    pub fn info(&mut self, message: &str)
        ensures
            final(self).spec_max() == old(self).spec_max(),
            exists|m: StatusItemView|
                m.message == message@ && m.level == StatusLevel::Info && final(self).spec_items()
                    == spec_status_add(old(self).spec_items(), old(self).spec_max(), m),
    {
        self.add_item(StatusLevel::Info, message);
    }

    pub fn success(&mut self, message: &str)
        ensures
            final(self).spec_max() == old(self).spec_max(),
            exists|m: StatusItemView|
                m.message == message@ && m.level == StatusLevel::Success && final(self).spec_items() == spec_status_add(old(self).spec_items(), old(self).spec_max(), m),
    {
        self.add_item(StatusLevel::Success, message);
    }

    pub fn warning(&mut self, message: &str)
        ensures
            final(self).spec_max() == old(self).spec_max(),
            exists|m: StatusItemView|
                m.message == message@ && m.level == StatusLevel::Warning && final(self).spec_items() == spec_status_add(old(self).spec_items(), old(self).spec_max(), m),
    {
        self.add_item(StatusLevel::Warning, message);
    }

    pub fn error(&mut self, message: &str)
        ensures
            final(self).spec_max() == old(self).spec_max(),
            exists|m: StatusItemView|
                m.message == message@ && m.level == StatusLevel::Error && final(self).spec_items()
                    == spec_status_add(old(self).spec_items(), old(self).spec_max(), m),
    {
        self.add_item(StatusLevel::Error, message);
    }

    pub fn clear(&mut self)
        ensures
            final(self).spec_items() =~= Seq::<StatusItemView>::empty(),
            final(self).spec_max() == old(self).spec_max(),
    {
        self.items.clear();
        proof {
            assert(self.spec_items() =~= Seq::<StatusItemView>::empty());
        }
    }

    pub fn items(&self) -> (r: &Vec<StatusItem>)
        ensures
            r.deep_view() == self.spec_items(),
    {
        &self.items
    }

    /// Appends one item, stamped with the local time of day; past the
    /// bound the oldest leaves.
    fn add_item(&mut self, level: StatusLevel, message: &str)
        ensures
            final(self).spec_max() == old(self).spec_max(),
            exists|m: StatusItemView|
                m.message == message@ && m.level == level && final(self).spec_items()
                    == spec_status_add(old(self).spec_items(), old(self).spec_max(), m),
    {
        let item = StatusItem {
            message: message.to_owned(),
            level,
            timestamp: local_time_hms(),
        };
        let ghost mv = item@;
        let ghost before = self.spec_items();
        self.items.push(item);
        proof {
            assert(self.spec_items() =~= before.push(mv));
        }
        if self.items.len() > self.max_items {
            let ghost pushed = self.spec_items();
            self.items.remove(0);
            proof {
                assert(self.spec_items() =~= pushed.drop_first());
            }
        }
        proof {
            assert(mv.message == message@ && mv.level == level && self.spec_items()
                == spec_status_add(before, old(self).spec_max(), mv));
        }
    }

    /// The level's name, as the status line writes it.
    pub fn level_to_string(&self, level: &StatusLevel) -> (r: &'static str)
        ensures
            *level == StatusLevel::Info ==> r@ == "INFO"@,
            *level == StatusLevel::Success ==> r@ == "SUCCESS"@,
            *level == StatusLevel::Warning ==> r@ == "WARNING"@,
            *level == StatusLevel::Error ==> r@ == "ERROR"@,
    {
        match level {
            StatusLevel::Info => "INFO",
            StatusLevel::Success => "SUCCESS",
            StatusLevel::Warning => "WARNING",
            StatusLevel::Error => "ERROR",
        }
    }
}

impl Default for StatusWidget {
    fn default() -> (r: StatusWidget)
        ensures
            r.spec_items() =~= Seq::<StatusItemView>::empty(),
            r.spec_max() == 10,
    {
        StatusWidget::new()
    }
}

} // verus!
