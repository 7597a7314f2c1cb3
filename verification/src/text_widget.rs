//! The scrollable text widget: a text body with a title and a scroll
//! offset counted in lines.

use vstd::prelude::*;
use crate::event::{Event, KeyCode};
use crate::text::{line_count, spec_line_count};

verus! {

/// How many lines fit in the widget's default viewport.
pub open spec fn spec_visible_lines() -> int {
    20
}

/// A scrollable block of text.
#[derive(Debug)]
pub struct TextWidget {
    pub content: String,
    pub title: String,
    pub wrap: bool,
    pub scrollable: bool,
    pub scroll_offset: usize,
    pub max_height: Option<u16>,
}

impl TextWidget {
    pub fn new() -> (r: TextWidget)
        ensures
            r.content@.len() == 0,
            r.title@ == "Text"@,
            r.wrap,
            r.scrollable,
            r.scroll_offset == 0,
            r.max_height is None,
    {
        TextWidget {
            content: String::new(),
            title: String::from_str("Text"),
            wrap: true,
            scrollable: true,
            scroll_offset: 0,
            max_height: None,
        }
    }

    pub fn with_content(self, content: &str) -> (r: TextWidget)
        ensures
            r.content@ == content@,
            r.title == self.title,
            r.wrap == self.wrap,
            r.scrollable == self.scrollable,
            r.scroll_offset == self.scroll_offset,
            r.max_height == self.max_height,
    {
        TextWidget { content: content.to_owned(), ..self }
    }

    pub fn with_title(self, title: &str) -> (r: TextWidget)
        ensures
            r.title@ == title@,
            r.content == self.content,
            r.wrap == self.wrap,
            r.scrollable == self.scrollable,
            r.scroll_offset == self.scroll_offset,
            r.max_height == self.max_height,
    {
        TextWidget { title: title.to_owned(), ..self }
    }

    pub fn with_wrap(self, wrap: bool) -> (r: TextWidget)
        ensures
            r == (TextWidget { wrap, ..self }),
    {
        TextWidget { wrap, ..self }
    }

    pub fn with_scrollable(self, scrollable: bool) -> (r: TextWidget)
        ensures
            r == (TextWidget { scrollable, ..self }),
    {
        TextWidget { scrollable, ..self }
    }

    pub fn with_max_height(self, height: u16) -> (r: TextWidget)
        ensures
            r == (TextWidget { max_height: Some(height), ..self }),
    {
        TextWidget { max_height: Some(height), ..self }
    }

    /// Replaces the text and rewinds the scroll.
    pub fn set_content(&mut self, content: &str)
        ensures
            final(self).content@ == content@,
            final(self).scroll_offset == 0,
            final(self).title == old(self).title,
            final(self).wrap == old(self).wrap,
            final(self).scrollable == old(self).scrollable,
            final(self).max_height == old(self).max_height,
    {
        self.content = content.to_owned();
        self.scroll_offset = 0;
    }

    pub fn set_title(&mut self, title: &str)
        ensures
            final(self).title@ == title@,
            final(self).content == old(self).content,
            final(self).wrap == old(self).wrap,
            final(self).scrollable == old(self).scrollable,
            final(self).scroll_offset == old(self).scroll_offset,
            final(self).max_height == old(self).max_height,
    {
        self.title = title.to_owned();
    }

    /// Scrolls up by that many lines, stopping at the top.
    pub fn scroll_up(&mut self, lines: usize)
        ensures
            *final(self) == (TextWidget {
                scroll_offset: if old(self).scroll_offset >= lines {
                    (old(self).scroll_offset - lines) as usize
                } else {
                    0
                },
                ..*old(self)
            }),
    {
        if self.scroll_offset >= lines {
            self.scroll_offset -= lines;
        } else {
            self.scroll_offset = 0;
        }
    }

    /// Scrolls down by that many lines; the offset saturates rather than
    /// wraps.
    pub fn scroll_down(&mut self, lines: usize)
        ensures
            *final(self) == (TextWidget {
                scroll_offset: if old(self).scroll_offset + lines <= usize::MAX {
                    (old(self).scroll_offset + lines) as usize
                } else {
                    usize::MAX
                },
                ..*old(self)
            }),
    {
        if self.scroll_offset <= usize::MAX - lines {
            self.scroll_offset += lines;
        } else {
            self.scroll_offset = usize::MAX;
        }
    }

    pub fn scroll_to_top(&mut self)
        ensures
            *final(self) == (TextWidget { scroll_offset: 0, ..*old(self) }),
    {
        self.scroll_offset = 0;
    }

    /// Scrolls so the last viewport of the text shows.
    pub fn scroll_to_bottom(&mut self, lc: usize)
        ensures
            *final(self) == (TextWidget {
                scroll_offset: if lc >= spec_visible_lines() {
                    (lc - spec_visible_lines()) as usize
                } else {
                    0
                },
                ..*old(self)
            }),
    {
        let visible = self.visible_lines() as usize;
        self.scroll_offset = if lc >= visible {
            lc - visible
        } else {
            0
        };
    }

    pub fn content(&self) -> (r: &String)
        ensures
            r == &self.content,
    {
        &self.content
    }

    pub fn is_empty(&self) -> (r: bool)
        ensures
            r == (self.content@.len() == 0),
    {
        self.content.as_str().is_empty()
    }

    fn visible_lines(&self) -> (r: u16)
        ensures
            r == spec_visible_lines(),
    {
        20
    }

    /// Reacts to one terminal event when scrollable; reports whether the
    /// event was taken.
    pub fn handle_event(&mut self, event: &Event) -> (r: bool)
        ensures
            !old(self).scrollable ==> *final(self) == *old(self) && !r,
            final(self).content == old(self).content,
            final(self).title == old(self).title,
            final(self).wrap == old(self).wrap,
            final(self).scrollable == old(self).scrollable,
            final(self).max_height == old(self).max_height,
    {
        if !self.scrollable {
            return false;
        }
        match event {
            Event::Key(key_event) => {
                match key_event.code {
                    KeyCode::Up => {
                        self.scroll_up(1);
                        true
                    },
                    KeyCode::Down => {
                        self.scroll_down(1);
                        true
                    },
                    KeyCode::PageUp => {
                        self.scroll_up(10);
                        true
                    },
                    KeyCode::PageDown => {
                        self.scroll_down(10);
                        true
                    },
                    KeyCode::Home => {
                        self.scroll_to_top();
                        true
                    },
                    KeyCode::End => {
                        let lc = line_count(self.content.as_str());
                        self.scroll_to_bottom(lc);
                        true
                    },
                    _ => false,
                }
            },
            _ => false,
        }
    }
}

impl Default for TextWidget {
    fn default() -> (r: TextWidget)
        ensures
            r.content@.len() == 0,
            r.title@ == "Text"@,
            r.wrap,
            r.scrollable,
            r.scroll_offset == 0,
            r.max_height is None,
    {
        TextWidget::new()
    }
}

} // verus!
