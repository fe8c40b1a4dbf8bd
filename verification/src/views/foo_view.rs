//! The one-line editor behind search and filter: it keeps the text typed so
//! far and says which callback a key press calls.
use vstd::prelude::*;
use crate::text::{pop_char, push_char};
use crate::views::event::{Event, Key};

verus! {

/// The callback that a key press in the editor calls.
#[derive(PartialEq, Eq, Structural, Clone, Copy, Debug)]
pub enum FooAction {
    /// The text changed: search with it.
    Search,
    /// Go to the next match of the text.
    SearchNext,
    /// Give up.
    Cancel,
    /// Done.
    Close,
}

/// The text after `e`.
pub open spec fn text_after(t: Seq<char>, e: Event) -> Seq<char> {
    match e {
        Event::Key(Key::Backspace) => if t.len() > 0 { t.drop_last() } else { t },
        Event::Char(c) => t.push(c),
        _ => t,
    }
}

/// The callback that `e` calls.
pub open spec fn action_for(e: Event) -> FooAction {
    match e {
        Event::Key(Key::Backspace) => FooAction::Search,
        Event::Key(Key::Enter) => FooAction::Close,
        Event::Key(Key::Esc) => FooAction::Cancel,
        Event::Key(Key::F3) => FooAction::SearchNext,
        Event::Char(_) => FooAction::Search,
        _ => FooAction::Close,
    }
}

/// A line of text being typed.
pub struct Foo {
    info: String,
}

impl Foo {
    /// The text typed so far.
    pub closed spec fn text(&self) -> Seq<char> {
        self.info@
    }

    /// An editor holding `s`.
    pub fn with_string(s: &str) -> (r: Self)
        ensures
            r.text() == s@,
    {
        Foo { info: s.to_owned() }
    }

    /// The text typed so far.
    pub fn content(&self) -> (r: &String)
        ensures
            r@ == self.text(),
    {
        &self.info
    }

    /// Removes the last character, if any; then the text is searched for.
    pub fn delete(&mut self) -> (r: FooAction)
        ensures
            final(self).text() == text_after(old(self).text(), Event::Key(Key::Backspace)),
            r == FooAction::Search,
    {
        pop_char(&mut self.info);
        FooAction::Search
    }

    /// Appends `ch`; then the text is searched for.
    pub fn insert(&mut self, ch: char) -> (r: FooAction)
        ensures
            final(self).text() == old(self).text().push(ch),
            r == FooAction::Search,
    {
        push_char(&mut self.info, ch);
        FooAction::Search
    }

    /// Edits the text as `event` asks and says which callback to call.
    pub fn on_event(&mut self, event: Event) -> (r: FooAction)
        ensures
            final(self).text() == text_after(old(self).text(), event),
            r == action_for(event),
    {
        match event {
            Event::Key(Key::Backspace) => self.delete(),
            Event::Key(Key::Enter) => FooAction::Close,
            Event::Key(Key::Esc) => FooAction::Cancel,
            Event::Key(Key::F3) => FooAction::SearchNext,
            Event::Char(ch) => self.insert(ch),
            _ => FooAction::Close,
        }
    }
}

impl Default for Foo {
    fn default() -> (r: Self)
        ensures
            r.text().len() == 0,
    {
        Foo { info: String::new() }
    }
}

} // verus!
