use cloudman_rs::views::bottombar_view::{BarStyle, BottomBarType, BottomBarView};
use cloudman_rs::views::event::{Event, Key};
use cloudman_rs::views::foo_view::{Foo, FooAction};
use cloudman_rs::views::key_codes::KeyCodeView;
use cloudman_rs::views::log_view::{
    decode_console_output, lines_from_actions, parse_lines, Log, LogScroll, LogView, TermAction,
};

#[test]
fn key_log_keeps_last_lines() {
    let mut k = KeyCodeView::new(2);
    k.record_event("a".to_string());
    k.record_event("b".to_string());
    k.record_event("c".to_string());
    assert_eq!(k.history(), &vec!["b".to_string(), "c".to_string()]);
    let mut z = KeyCodeView::new(0);
    z.record_event("a".to_string());
    assert!(z.history().is_empty());
}

#[test]
fn editor_edits_and_answers() {
    let mut f = Foo::with_string("we");
    assert_eq!(f.on_event(Event::Char('b')), FooAction::Search);
    assert_eq!(f.content(), "web");
    assert_eq!(f.on_event(Event::Key(Key::Backspace)), FooAction::Search);
    assert_eq!(f.content(), "we");
    assert_eq!(f.on_event(Event::Key(Key::Enter)), FooAction::Close);
    assert_eq!(f.on_event(Event::Key(Key::Esc)), FooAction::Cancel);
    assert_eq!(f.on_event(Event::Key(Key::F3)), FooAction::SearchNext);
    assert_eq!(f.on_event(Event::Key(Key::Up)), FooAction::Close);
    assert_eq!(f.content(), "we");
    let mut e = Foo::default();
    assert_eq!(e.delete(), FooAction::Search);
    assert_eq!(e.content(), "");
    assert_eq!(e.insert('x'), FooAction::Search);
    assert_eq!(e.content(), "x");
}

#[test]
fn log_gathers_lines() {
    let mut log = Log::new();
    log.execute(b'\n');
    log.print('a');
    log.print('b');
    log.execute(b'\r');
    log.execute(b'\n');
    log.print('c');
    assert_eq!(log.into_lines(), vec!["ab".to_string()]);
    let acts = vec![TermAction::Print('x'), TermAction::Execute(10), TermAction::Print('y'), TermAction::Execute(13)];
    assert_eq!(lines_from_actions(&acts), vec!["x".to_string(), "y".to_string()]);
}

#[test]
fn console_output_through_the_terminal_parser() {
    let lines = parse_lines(b"boot\r\n\x1b[31mred\x1b[0m text\r\nlast");
    assert_eq!(lines, vec!["boot".to_string(), "red text".to_string()]);
    let v = LogView::scrollable(b"first\nsecond\nthird\n");
    assert_eq!(v.lines().len(), 3);
    assert_eq!(v.row_text(0), "second");
    assert_eq!(v.row_text(1), "third");
    assert_eq!(v.row_text(2), "\u{2347}");
    assert_eq!(v.inner_required_size(), (80, 3));
    assert_eq!(v.inner_important_area(120), (120, 3));
}

#[test]
fn console_output_is_base64() {
    assert_eq!(decode_console_output("aGVsbG8="), Some(b"hello".to_vec()));
    assert_eq!(decode_console_output(""), Some(vec![]));
    assert_eq!(decode_console_output("not base64!"), None);
}

#[test]
fn log_keys() {
    let v = LogView::scrollable(b"");
    assert_eq!(v.inner_on_event(Event::Key(Key::Up)), LogScroll::LineUp);
    assert_eq!(v.inner_on_event(Event::Key(Key::PageDown)), LogScroll::PageDown);
    assert_eq!(v.inner_on_event(Event::Char('g')), LogScroll::Top);
    assert_eq!(v.inner_on_event(Event::Shift(Key::End)), LogScroll::Bottom);
    assert_eq!(v.inner_on_event(Event::Char('H')), LogScroll::Bottom);
    assert_eq!(v.inner_on_event(Event::Char('/')), LogScroll::Stay);
    assert_eq!(v.inner_on_event(Event::Char('q')), LogScroll::Ignored);
}

#[test]
fn bottom_bar_standard_layout() {
    let bar = BottomBarView::new("", vec!["eu-west-1".to_string()]);
    let segs = bar.layout();
    assert_eq!(segs.len(), 18);
    assert_eq!((segs[0].x, segs[0].text.as_str(), segs[0].style), (0, "F1", BarStyle::Key));
    assert_eq!((segs[1].x, segs[1].text.as_str()), (8, "F2"));
    assert_eq!((segs[9].x, segs[9].text.as_str(), segs[9].style), (2, "Help  ", BarStyle::Label));
    assert_eq!((segs[10].x, segs[10].text.as_str()), (10, "Connect"));
    assert_eq!((segs[16].x, segs[16].text.as_str()), (62, "Quit  "));
    assert_eq!(bar.status(), "eu-west-1 ()");
    assert_eq!(BottomBarView::status_position("eu-west-1 ()", 80), Some(67));
    assert_eq!(BottomBarView::status_position("eu-west-1 ()", 12), None);
}

#[test]
fn bottom_bar_search_and_filter() {
    let mut bar = BottomBarView::new("", vec!["a".to_string(), "b".to_string()]);
    bar.set_type(BottomBarType::Search);
    bar.set_content("web");
    bar.set_valid(false);
    bar.set_profile(vec!["default".to_string(), "prod".to_string()]);
    let segs = bar.layout();
    assert_eq!(segs.len(), 7);
    assert_eq!((segs[3].x, segs[3].text.as_str()), (2, "Next  "));
    assert_eq!((segs[6].x, segs[6].text.as_str(), segs[6].style), (28, "web", BarStyle::Invalid));
    assert_eq!(bar.status(), "a,b (default,prod)");
    bar.set_type(BottomBarType::Filter);
    bar.set_region(vec![]);
    let segs = bar.layout();
    assert_eq!((segs[6].x, segs[6].text.as_str(), segs[6].style), (30, "web", BarStyle::Label));
    assert_eq!(bar.status(), " (default,prod)");
}

#[test]
fn log_lines_keep_every_printed_char() {
    let acts = vec![
        TermAction::Print('a'),
        TermAction::Execute(13),
        TermAction::Execute(10),
        TermAction::Print('b'),
        TermAction::Print('c'),
        TermAction::Execute(10),
        TermAction::Print('d'),
        TermAction::Execute(10),
    ];
    let lines = lines_from_actions(&acts);
    assert_eq!(lines, vec!["a".to_string(), "bc".to_string(), "d".to_string()]);
    assert_eq!(lines.concat(), "abcd");
}
