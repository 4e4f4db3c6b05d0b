use hub_game::console::{count_lines, ConsoleBuffer, ConsoleEvent, CONSOLE_MAX_LINES};

#[test]
fn lines_are_counted_like_str_lines() {
    for s in ["", "a", "a\n", "\n", "\n\n", "a\nb", "a\nb\n", "a\r\nb", "ä\nö\nü"].iter() {
        assert_eq!(count_lines(s), s.lines().count(), "{:?}", s);
    }
    assert_eq!(count_lines("Console\n"), 1);
}

#[test]
fn new_buffer_holds_the_title() {
    assert_eq!(ConsoleBuffer::new().contents(), "Console\n");
}

#[test]
fn buffer_is_cleared_once_it_holds_ten_lines() {
    let mut b = ConsoleBuffer::new();
    for k in 1..CONSOLE_MAX_LINES {
        b.push(&format!("line {}\n", k));
    }
    assert_eq!(count_lines(b.contents()), CONSOLE_MAX_LINES);
    assert!(b.contents().starts_with("Console\nline 1\n"));
    b.push("next\n");
    assert_eq!(b.contents(), "next\n");
}

#[test]
fn console_events_are_appended_in_order() {
    let mut b = ConsoleBuffer::new();
    let events = vec![ConsoleEvent::from("fire\n"), ConsoleEvent::from(String::from("hit\n"))];
    b.process_console_events(&events);
    assert_eq!(b.contents(), "Console\nfire\nhit\n");
    assert_eq!(events[0].as_str(), "fire\n");
    assert!(matches!(events[1], ConsoleEvent::Log(_)));
    assert!(matches!(events[0], ConsoleEvent::StaticLog(_)));
}
