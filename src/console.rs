//! The debug console: log lines are appended to a text buffer, which is
//! wiped before it would grow past `CONSOLE_MAX_LINES` lines.

use vstd::prelude::*;

verus! {

/// A buffer holding this many lines is cleared before the next line.
pub const CONSOLE_MAX_LINES: usize = 10;

/// A line (or lines) of text for the console.
#[derive(Debug)]
pub enum ConsoleEvent {
    Log(String),
    StaticLog(&'static str),
}

impl ConsoleEvent {
    /// The text the event carries.
    pub open spec fn text(&self) -> Seq<char> {
        match self {
            ConsoleEvent::Log(s) => s@,
            ConsoleEvent::StaticLog(s) => s@,
        }
    }

    pub fn as_str(&self) -> (r: &str)
        ensures
            r@ == self.text(),
    {
        match self {
            ConsoleEvent::Log(s) => s.as_str(),
            ConsoleEvent::StaticLog(s) => s,
        }
    }
}

impl From<String> for ConsoleEvent {
    fn from(s: String) -> (r: ConsoleEvent)
        ensures
            r == ConsoleEvent::Log(s),
    {
        ConsoleEvent::Log(s)
    }
}

impl vstd::std_specs::convert::FromSpecImpl<String> for ConsoleEvent {
    open spec fn obeys_from_spec() -> bool {
        true
    }

    open spec fn from_spec(s: String) -> ConsoleEvent {
        ConsoleEvent::Log(s)
    }
}

impl From<&'static str> for ConsoleEvent {
    fn from(s: &'static str) -> (r: ConsoleEvent)
        ensures
            r == ConsoleEvent::StaticLog(s),
    {
        ConsoleEvent::StaticLog(s)
    }
}

impl vstd::std_specs::convert::FromSpecImpl<&'static str> for ConsoleEvent {
    open spec fn obeys_from_spec() -> bool {
        true
    }

    open spec fn from_spec(s: &'static str) -> ConsoleEvent {
        ConsoleEvent::StaticLog(s)
    }
}

/// How many newline characters `s` holds.
pub open spec fn newlines(s: Seq<char>) -> nat
    decreases s.len(),
{
    if s.len() == 0 {
        0
    } else {
        newlines(s.drop_last()) + if s.last() == '\n' {
            1nat
        } else {
            0nat
        }
    }
}

/// How many lines `s` is made of: one per newline, plus a last line that
/// does not end in one. A final newline opens no new line.
pub open spec fn line_count(s: Seq<char>) -> nat {
    newlines(s) + if s.len() > 0 && s.last() != '\n' {
        1nat
    } else {
        0nat
    }
}

/// The number of lines of `s`, as `line_count` has it.
pub fn count_lines(s: &str) -> (r: usize)
    ensures
        r == line_count(s@),
{
    let n = s.unicode_len();
    let mut count: usize = 0;
    let mut k: usize = 0;
    let mut last_newline = true;
    while k < n
        invariant
            n == s@.len(),
            k <= n,
            count == newlines(s@.subrange(0, k as int)),
            count <= k,
            !last_newline ==> count < k,
            last_newline == (k == 0 || s@[k - 1] == '\n'),
        decreases n - k,
    {
        let c = s.get_char(k);
        assert(s@.subrange(0, k + 1).drop_last() =~= s@.subrange(0, k as int));
        if c == '\n' {
            count = count + 1;
        }
        last_newline = c == '\n';
        k = k + 1;
    }
    assert(s@.subrange(0, k as int) =~= s@);
    if last_newline {
        count
    } else {
        count + 1
    }
}

/// The buffer's text after one more log text.
pub open spec fn logged(buffer: Seq<char>, text: Seq<char>) -> Seq<char> {
    if line_count(buffer) >= CONSOLE_MAX_LINES {
        text
    } else {
        buffer + text
    }
}

/// The buffer's text after a sequence of events, in order.
pub open spec fn logged_all(buffer: Seq<char>, events: Seq<ConsoleEvent>) -> Seq<char>
    decreases events.len(),
{
    if events.len() == 0 {
        buffer
    } else {
        logged(logged_all(buffer, events.drop_last()), events.last().text())
    }
}

/// The text shown by the console.
pub struct ConsoleBuffer(String);

impl View for ConsoleBuffer {
    type V = Seq<char>;

    closed spec fn view(&self) -> Seq<char> {
        self.0@
    }
}

impl ConsoleBuffer {
    /// A fresh buffer, holding the console's title line.
    pub fn new() -> (r: ConsoleBuffer)
        ensures
            r@ == "Console\n"@,
    {
        ConsoleBuffer(String::from_str("Console\n"))
    }

    pub fn contents(&self) -> (r: &str)
        ensures
            r@ == self@,
    {
        self.0.as_str()
    }

    /// Appends `text`, clearing the buffer first when it already holds
    /// `CONSOLE_MAX_LINES` lines or more.
    pub fn push(&mut self, text: &str)
        ensures
            final(self)@ == logged(old(self)@, text@),
    {
        if count_lines(self.0.as_str()) >= CONSOLE_MAX_LINES {
            self.0 = String::new();
        }
        self.0.append(text);
    }

    /// Appends the text of each event, in order.
    pub fn process_console_events(&mut self, events: &Vec<ConsoleEvent>)
        ensures
            final(self)@ == logged_all(old(self)@, events@),
    {
        let ghost start = self@;
        let mut k: usize = 0;
        while k < events.len()
            invariant
                k <= events@.len(),
                self@ == logged_all(start, events@.subrange(0, k as int)),
            decreases events@.len() - k,
        {
            self.push(events[k].as_str());
            assert(events@.subrange(0, k + 1).drop_last() =~= events@.subrange(0, k as int));
            k = k + 1;
        }
        assert(events@.subrange(0, k as int) =~= events@);
    }
}

} // verus!
