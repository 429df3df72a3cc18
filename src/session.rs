//! The session's own rules: the command lines it sends, the raw-mode flag, and
//! what it does with each line it reads.
use vstd::prelude::*;
use vstd::string::{StrSliceExecFns, StringExecFns};
use vstd::utf8::is_ascii_chars;
use crate::classify::{decode, decode_spec};
use crate::types::{ParseError, Response, ResponseView};

verus! {

/// A failure of a session.
#[derive(Debug, PartialEq)]
pub enum GpsdError {
    /// The socket could not be opened, or a write or a read failed.
    ConnectionError(String),
    /// A read returned no bytes: the daemon closed the connection.
    ConnectionClosed,
    /// The read timeout elapsed before a whole line came.
    ReadTimeout,
    /// A line that did not classify, with the reason, outside raw mode.
    DeserializationFailed(String, ParseError),
}

/// `true` or `false`, as JSON writes it.
pub open spec fn bool_text(b: bool) -> Seq<char> {
    if b {
        seq!['t', 'r', 'u', 'e']
    } else {
        seq!['f', 'a', 'l', 's', 'e']
    }
}

/// The decimal digit for `d`.
pub open spec fn digit(d: nat) -> char {
    (48 + d) as char
}

/// The decimal form of `n`, without leading zeros.
pub open spec fn decimal(n: nat) -> Seq<char>
    decreases n,
{
    if n < 10 {
        seq![digit(n)]
    } else {
        decimal(n / 10).push(digit(n % 10))
    }
}

/// The WATCH command line.
pub open spec fn watch_line(enable: bool, json: bool, raw: u8) -> Seq<char> {
    "?WATCH={\"class\":\"WATCH\",\"enable\":"@ + bool_text(enable) + ",\"json\":"@ + bool_text(json)
        + ",\"raw\":"@ + decimal(raw as nat) + "}\n"@
}

fn bool_str(b: bool) -> (r: &'static str)
    ensures
        r@ == bool_text(b),
{
    proof {
        reveal_strlit("true");
        reveal_strlit("false");
    }
    if b {
        "true"
    } else {
        "false"
    }
}

fn digit_str(d: u8) -> (r: &'static str)
    requires
        d < 10,
    ensures
        r@ == seq![digit(d as nat)],
{
    proof {
        reveal_strlit("0");
        reveal_strlit("1");
        reveal_strlit("2");
        reveal_strlit("3");
        reveal_strlit("4");
        reveal_strlit("5");
        reveal_strlit("6");
        reveal_strlit("7");
        reveal_strlit("8");
        reveal_strlit("9");
    }
    match d {
        0 => "0",
        1 => "1",
        2 => "2",
        3 => "3",
        4 => "4",
        5 => "5",
        6 => "6",
        7 => "7",
        8 => "8",
        _ => "9",
    }
}

fn append_decimal(s: &mut String, n: u8)
    ensures
        final(s)@ == old(s)@ + decimal(n as nat),
{
    proof {
        reveal_with_fuel(decimal, 3);
    }
    if n < 10 {
        s.append(digit_str(n));
    } else if n < 100 {
        s.append(digit_str(n / 10));
        s.append(digit_str(n % 10));
        assert(decimal(n as nat) == seq![digit((n / 10) as nat), digit((n % 10) as nat)]);
    } else {
        s.append(digit_str(n / 100));
        s.append(digit_str((n / 10) % 10));
        s.append(digit_str(n % 10));
        assert(decimal(n as nat / 10) == seq![digit((n / 100) as nat), digit(((n / 10) % 10) as nat)]);
    }
}

/// The WATCH command that turns watcher mode on or off, with the given JSON
/// and raw settings.
pub fn watch_command(enable: bool, json: bool, raw: u8) -> (r: String)
    ensures
        r@ == watch_line(enable, json, raw),
{
    let mut s = String::from_str("?WATCH={\"class\":\"WATCH\",\"enable\":");
    s.append(bool_str(enable));
    s.append(",\"json\":");
    s.append(bool_str(json));
    s.append(",\"raw\":");
    append_decimal(&mut s, raw);
    s.append("}\n");
    s
}

/// The POLL command.
pub fn poll_command() -> (r: String)
    ensures
        r@ == "?POLL;\n"@,
{
    String::from_str("?POLL;\n")
}

/// The VERSION command.
pub fn version_command() -> (r: String)
    ensures
        r@ == "?VERSION;\n"@,
{
    String::from_str("?VERSION;\n")
}

/// The DEVICES command.
pub fn devices_command() -> (r: String)
    ensures
        r@ == "?DEVICES;\n"@,
{
    String::from_str("?DEVICES;\n")
}

/// The decimal form of a number is ASCII.
pub proof fn decimal_is_ascii(n: nat)
    ensures
        is_ascii_chars(decimal(n)),
    decreases n,
{
    if n >= 10 {
        decimal_is_ascii(n / 10);
        assert(decimal(n) == decimal(n / 10).push(digit(n % 10)));
        assert forall|i: int| 0 <= i < decimal(n).len() implies '\0' <= #[trigger] decimal(n)[i]
            <= '\u{7f}' by {
            if i < decimal(n / 10).len() {
                assert(decimal(n)[i] == decimal(n / 10)[i]);
            }
        }
    }
}

/// Every command line is ASCII, so the bytes written are its characters,
/// one byte each.
pub proof fn command_lines_are_ascii(enable: bool, json: bool, raw: u8)
    ensures
        is_ascii_chars(watch_line(enable, json, raw)),
        is_ascii_chars("?POLL;\n"@),
        is_ascii_chars("?VERSION;\n"@),
        is_ascii_chars("?DEVICES;\n"@),
{
    reveal_strlit("?WATCH={\"class\":\"WATCH\",\"enable\":");
    reveal_strlit(",\"json\":");
    reveal_strlit(",\"raw\":");
    reveal_strlit("}\n");
    reveal_strlit("?POLL;\n");
    reveal_strlit("?VERSION;\n");
    reveal_strlit("?DEVICES;\n");
    decimal_is_ascii(raw as nat);
    let line = watch_line(enable, json, raw);
    assert forall|i: int| 0 <= i < line.len() implies '\0' <= #[trigger] line[i] <= '\u{7f}' by {
        let a = "?WATCH={\"class\":\"WATCH\",\"enable\":"@ + bool_text(enable);
        let b = a + ",\"json\":"@ + bool_text(json);
        let c = b + ",\"raw\":"@ + decimal(raw as nat);
        if i >= c.len() {
            assert(line[i] == "}\n"@[i - c.len()]);
        } else if i >= b.len() + 7 {
            assert(line[i] == decimal(raw as nat)[i - b.len() - 7]);
        }
    }
}

/// JSON's whitespace.
pub open spec fn is_space(c: char) -> bool {
    c == ' ' || c == '\t' || c == '\n' || c == '\r'
}

/// A line with nothing but whitespace in it.
pub open spec fn is_blank(line: Seq<char>) -> bool {
    forall|i: int| 0 <= i < line.len() ==> is_space(#[trigger] line[i])
}

/// Whether a line holds nothing but whitespace.
pub fn blank(line: &str) -> (r: bool)
    ensures
        r == is_blank(line@),
{
    let n = line.unicode_len();
    let mut i: usize = 0;
    while i < n
        invariant
            n == line@.len(),
            i <= n,
            forall|j: int| 0 <= j < i ==> is_space(#[trigger] line@[j]),
        decreases n - i,
    {
        let c = line.get_char(i);
        if !(c == ' ' || c == '\t' || c == '\n' || c == '\r') {
            return false;
        }
        i = i + 1;
    }
    true
}

/// What the read loop does with one read.
#[derive(Debug, PartialEq)]
pub enum LineStep {
    /// Discard the line and read the next.
    ReadAgain,
    /// Hand this outcome to the caller.
    Done(Result<Response, GpsdError>),
}

/// A read-loop step seen through the response's view.
pub enum LineStepView {
    ReadAgain,
    Done(Result<ResponseView, GpsdError>),
}

pub open spec fn step_view(s: LineStep) -> LineStepView {
    match s {
        LineStep::ReadAgain => LineStepView::ReadAgain,
        LineStep::Done(Ok(r)) => LineStepView::Done(Ok(r@)),
        LineStep::Done(Err(e)) => LineStepView::Done(Err(e)),
    }
}

/// What the read loop does with a read of `bytes_read` bytes that gave
/// `line`: a read of no bytes means the peer closed; a blank line is skipped;
/// a line that classifies is returned; one that does not is returned verbatim
/// in raw mode and is an error otherwise.
pub open spec fn line_step(raw_mode: bool, line: String, bytes_read: nat) -> LineStepView {
    if bytes_read == 0 {
        LineStepView::Done(Err(GpsdError::ConnectionClosed))
    } else if is_blank(line@) {
        LineStepView::ReadAgain
    } else {
        match decode_spec(line@) {
            Ok(r) => LineStepView::Done(Ok(r)),
            Err(e) => if raw_mode {
                LineStepView::Done(Ok(ResponseView::Raw(line)))
            } else {
                LineStepView::Done(Err(GpsdError::DeserializationFailed(line, e)))
            },
        }
    }
}

/// The state that a session keeps besides its connection.
#[derive(Debug, PartialEq)]
pub struct SessionState {
    /// Lines that do not classify are passed through as `Response::Raw`.
    pub raw_mode: bool,
}

impl SessionState {
    /// The state of a new connection: raw mode off.
    pub fn new() -> (r: SessionState)
        ensures
            !r.raw_mode,
    {
        SessionState { raw_mode: false }
    }

    /// Records that a WATCH command with this raw level has been written:
    /// raw mode is on exactly where the level is above zero.
    pub fn watch_sent(&mut self, raw: u8)
        ensures
            final(self).raw_mode == (raw > 0),
    {
        self.raw_mode = raw > 0;
    }

    /// Decides what the read loop does with one read.
    pub fn on_line(&self, line: String, bytes_read: usize) -> (r: LineStep)
        ensures
            step_view(r) == line_step(self.raw_mode, line, bytes_read as nat),
    {
        if bytes_read == 0 {
            return LineStep::Done(Err(GpsdError::ConnectionClosed));
        }
        if blank(line.as_str()) {
            return LineStep::ReadAgain;
        }
        match decode(line.as_str()) {
            Ok(r) => LineStep::Done(Ok(r)),
            Err(e) => if self.raw_mode {
                LineStep::Done(Ok(Response::Raw(line)))
            } else {
                LineStep::Done(Err(GpsdError::DeserializationFailed(line, e)))
            },
        }
    }
}

/// The read loop reads past blank lines without returning, and stops with
/// `ConnectionClosed` at a read of no bytes.
pub proof fn blank_lines_skipped_until_closed(raw_mode: bool, line: String, bytes_read: nat)
    ensures
        bytes_read > 0 && is_blank(line@) ==> line_step(raw_mode, line, bytes_read)
            == LineStepView::ReadAgain,
        line_step(raw_mode, line, 0) == LineStepView::Done(Err(GpsdError::ConnectionClosed)),
{
}

/// In raw mode a line that does not classify comes back verbatim as a raw
/// response.
pub proof fn raw_mode_passes_through(line: String, bytes_read: nat)
    requires
        bytes_read > 0,
        !is_blank(line@),
        decode_spec(line@) is Err,
    ensures
        line_step(true, line, bytes_read) == LineStepView::Done(Ok(ResponseView::Raw(line))),
{
}

} // verus!
