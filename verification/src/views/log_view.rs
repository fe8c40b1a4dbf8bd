//! The console output of an instance: the bytes are run through a terminal
//! parser, printed characters are gathered into lines, and the view scrolls
//! through them.
use vstd::prelude::*;
use base64::Engine;
use crate::text::push_char;
use crate::views::event::{Event, Key};

verus! {

/// What the terminal parser asks to be done with the input.
#[derive(PartialEq, Eq, Structural, Clone, Copy, Debug)]
pub enum TermAction {
    /// Draw a character.
    Print(char),
    /// Carry out a control function (a C0 or C1 control byte).
    Execute(u8),
}

/// Records the print and execute actions of the terminal parser, in order;
/// the other actions (escape sequences, device control strings, operating
/// system commands) are dropped.
pub struct ActionRecorder {
    pub actions: Vec<TermAction>,
}

impl vte::Perform for ActionRecorder {
    fn print(&mut self, c: char)
        ensures
            final(self).actions@ == old(self).actions@.push(TermAction::Print(c)),
    {
        self.actions.push(TermAction::Print(c));
    }

    fn execute(&mut self, byte: u8)
        ensures
            final(self).actions@ == old(self).actions@.push(TermAction::Execute(byte)),
    {
        self.actions.push(TermAction::Execute(byte));
    }
}

/// A name for the print and execute actions, in order, that a fresh
/// `vte::Parser` asks for when it is advanced over `bytes`.
pub uninterp spec fn vte_action_stream(bytes: Seq<u8>) -> Seq<TermAction>;

/// Runs a fresh `vte::Parser` over `buf` and returns the print and execute
/// actions it asks for. The parser's state machine is not stated here: the
/// actions are named `vte_action_stream(buf)`, a function of the bytes alone.
#[verifier::external_body]
fn vte_actions(buf: &[u8]) -> (acts: Vec<TermAction>)
    ensures
        acts@ == vte_action_stream(buf@),
{
    let mut parser = vte::Parser::new();
    let mut recorder = ActionRecorder { actions: Vec::new() };
    parser.advance(&mut recorder, buf);
    recorder.actions
}

/// The line being gathered, and the lines done.
pub struct LogState {
    pub current: Seq<char>,
    pub lines: Seq<Seq<char>>,
}

/// A printed character extends the current line; a control byte ends it,
/// unless it is empty.
pub open spec fn log_step(st: LogState, a: TermAction) -> LogState {
    match a {
        TermAction::Print(c) => LogState { current: st.current.push(c), lines: st.lines },
        TermAction::Execute(_) => if st.current.len() == 0 {
            st
        } else {
            LogState { current: Seq::<char>::empty(), lines: st.lines.push(st.current) }
        },
    }
}

/// The state after `acts`, from nothing.
pub open spec fn log_run(acts: Seq<TermAction>) -> LogState
    decreases acts.len(),
{
    if acts.len() == 0 {
        LogState { current: Seq::<char>::empty(), lines: Seq::<Seq<char>>::empty() }
    } else {
        log_step(log_run(acts.drop_last()), acts.last())
    }
}

/// The characters that `acts` print, in order.
pub open spec fn printed_chars(acts: Seq<TermAction>) -> Seq<char>
    decreases acts.len(),
{
    if acts.len() == 0 {
        Seq::<char>::empty()
    } else {
        match acts.last() {
            TermAction::Print(c) => printed_chars(acts.drop_last()).push(c),
            TermAction::Execute(_) => printed_chars(acts.drop_last()),
        }
    }
}

/// The lines gathered from the parser's actions.
pub struct Log {
    s: String,
    lines: Vec<String>,
}

impl View for Log {
    type V = LogState;

    closed spec fn view(&self) -> LogState {
        LogState { current: self.s@, lines: self.lines@.map_values(|l: String| l@) }
    }
}

impl Log {
    /// Nothing gathered yet.
    pub fn new() -> (r: Self)
        ensures
            r@ == log_run(Seq::<TermAction>::empty()),
    {
        let r = Log { s: String::new(), lines: Vec::new() };
        assert(r@.lines =~= Seq::<Seq<char>>::empty());
        r
    }

    /// A printed character.
    pub fn print(&mut self, c: char)
        ensures
            final(self)@ == log_step(old(self)@, TermAction::Print(c)),
    {
        push_char(&mut self.s, c);
    }

    /// A control byte.
    pub fn execute(&mut self, c: u8)
        ensures
            final(self)@ == log_step(old(self)@, TermAction::Execute(c)),
    {
        if self.s.as_str().is_empty() {
            return;
        }
        let done = self.s.clone();
        self.lines.push(done);
        self.s = String::new();
        assert(self@.lines =~= old(self)@.lines.push(old(self)@.current));
    }

    /// The lines done.
    pub fn into_lines(self) -> (r: Vec<String>)
        ensures
            r@.map_values(|l: String| l@) == self@.lines,
    {
        self.lines
    }
}

/// The lines gathered from `acts`.
pub fn lines_from_actions(acts: &Vec<TermAction>) -> (r: Vec<String>)
    ensures
        r@.map_values(|l: String| l@) == log_run(acts@).lines,
{
    let mut log = Log::new();
    let mut i: usize = 0;
    while i < acts.len()
        invariant
            i <= acts@.len(),
            log@ == log_run(acts@.take(i as int)),
        decreases acts@.len() - i,
    {
        assert(acts@.take(i + 1).drop_last() =~= acts@.take(i as int));
        match acts[i] {
            TermAction::Print(c) => log.print(c),
            TermAction::Execute(b) => log.execute(b),
        }
        i = i + 1;
    }
    assert(acts@.take(acts@.len() as int) =~= acts@);
    log.into_lines()
}

/// The lines of the console output `buf`.
pub fn parse_lines(buf: &[u8]) -> (r: Vec<String>)
    ensures
        r@.map_values(|l: String| l@) == log_run(vte_action_stream(buf@)).lines,
{
    let acts = vte_actions(buf);
    lines_from_actions(&acts)
}

/// A name for what `base64::engine::general_purpose::STANDARD.decode`
/// returns for `input`: the bytes, or `None` where it is refused.
pub uninterp spec fn base64_decoded(input: Seq<char>) -> Option<Seq<u8>>;

/// Decodes standard base64 (with padding) with the `base64` crate. The
/// decoding itself is not stated here; its outcome is named `base64_decoded`.
#[verifier::external_body]
fn decode_base64(input: &str) -> (r: Option<Vec<u8>>)
    ensures
        match base64_decoded(input@) {
            Some(b) => r matches Some(v) && v@ == b,
            None => r is None,
        },
{
    base64::engine::general_purpose::STANDARD.decode(input).ok()
}

/// The bytes of a console output as the EC2 API sends it (base64), or
/// `None` where it is not valid base64.
pub fn decode_console_output(output: &str) -> (r: Option<Vec<u8>>)
    ensures
        match base64_decoded(output@) {
            Some(b) => r matches Some(v) && v@ == b,
            None => r is None,
        },
{
    decode_base64(output)
}

/// What the log view does with a key press.
#[derive(PartialEq, Eq, Structural, Clone, Copy, Debug)]
pub enum LogScroll {
    /// Scroll up one line.
    LineUp,
    /// Scroll down one line.
    LineDown,
    /// Scroll up one screen.
    PageUp,
    /// Scroll down one screen.
    PageDown,
    /// Go to the first line.
    Top,
    /// Go to the last line.
    Bottom,
    /// The key is handled and nothing moves.
    Stay,
    /// The key is not the view's.
    Ignored,
}

/// What the log view does with `e`.
pub open spec fn log_scroll_for(e: Event) -> LogScroll {
    match e {
        Event::Key(Key::Up) => LogScroll::LineUp,
        Event::Key(Key::Down) => LogScroll::LineDown,
        Event::Key(Key::PageUp) => LogScroll::PageUp,
        Event::Key(Key::PageDown) => LogScroll::PageDown,
        Event::Key(Key::Home) => LogScroll::Top,
        Event::Shift(Key::Home) => LogScroll::Top,
        Event::Key(Key::End) => LogScroll::Bottom,
        Event::Shift(Key::End) => LogScroll::Bottom,
        Event::Char(c) => if c == 'g' {
            LogScroll::Top
        } else if c == 'H' {
            LogScroll::Bottom
        } else if c == '/' {
            LogScroll::Stay
        } else {
            LogScroll::Ignored
        },
        _ => LogScroll::Ignored,
    }
}

/// The console output of an instance, as lines.
pub struct LogView {
    lines: Vec<String>,
}

impl LogView {
    /// The lines of the view.
    pub closed spec fn shown_lines(&self) -> Seq<Seq<char>> {
        self.lines@.map_values(|l: String| l@)
    }

    /// A view of the lines of the console output `buf`.
    pub fn scrollable(buf: &[u8]) -> (r: Self)
        ensures
            r.shown_lines() == log_run(vte_action_stream(buf@)).lines,
    {
        LogView { lines: parse_lines(buf) }
    }

    /// The lines of the view.
    pub fn lines(&self) -> (r: &Vec<String>)
        ensures
            r@.map_values(|l: String| l@) == self.shown_lines(),
    {
        &self.lines
    }

    /// The size the content asks for: 80 columns, one row per line.
    pub fn inner_required_size(&self) -> (r: (usize, usize))
        ensures
            r == (80usize, self.shown_lines().len() as usize),
    {
        (80, self.lines.len())
    }

    /// The size of the area that matters in a view `width` columns wide:
    /// the whole width, one row per line.
    pub fn inner_important_area(&self, width: usize) -> (r: (usize, usize))
        ensures
            r == (width, self.shown_lines().len() as usize),
    {
        (width, self.lines.len())
    }

    /// What a key press does.
    pub fn inner_on_event(&self, event: Event) -> (r: LogScroll)
        ensures
            r == log_scroll_for(event),
    {
        match event {
            Event::Key(Key::Up) => LogScroll::LineUp,
            Event::Key(Key::Down) => LogScroll::LineDown,
            Event::Key(Key::PageUp) => LogScroll::PageUp,
            Event::Key(Key::PageDown) => LogScroll::PageDown,
            Event::Key(Key::Home) | Event::Shift(Key::Home) => LogScroll::Top,
            Event::Key(Key::End) | Event::Shift(Key::End) => LogScroll::Bottom,
            Event::Char(c) => {
                if c == 'g' {
                    LogScroll::Top
                } else if c == 'H' {
                    LogScroll::Bottom
                } else if c == '/' {
                    LogScroll::Stay
                } else {
                    LogScroll::Ignored
                }
            },
            _ => LogScroll::Ignored,
        }
    }

    /// The text of row `i` of the view: line `i + 1` (the first line is
    /// incomplete and not shown), or a mark past the last line.
    pub fn row_text(&self, i: usize) -> (r: String)
        ensures
            i + 1 < self.shown_lines().len() ==> r@ == self.shown_lines()[i + 1],
            i + 1 >= self.shown_lines().len() ==> r@ == "\u{2347}"@,
    {
        if i < self.lines.len() && self.lines.len() - i > 1 {
            self.lines[i + 1].clone()
        } else {
            "\u{2347}".to_owned()
        }
    }
}

} // verus!
