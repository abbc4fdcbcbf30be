//! The kinds of log lines the bot emits. Writing them to a file or a console
//! is the caller's business.

use vstd::prelude::*;
use vstd::string::StringExecFns;

verus! {

/// A kind of the log.
#[derive(Clone, Copy, PartialEq, Eq, Structural, Debug)]
pub enum LogKind {
    LOG,
    WARN,
    ERROR,
}

/// The display name of a log kind.
pub open spec fn spec_log_kind_name(kind: LogKind) -> Seq<char> {
    match kind {
        LogKind::LOG => "LOG"@,
        LogKind::WARN => "WARN"@,
        LogKind::ERROR => "ERROR"@,
    }
}

impl LogKind {
    /// The display name of the kind.
    pub fn to_string(&self) -> (r: String)
        ensures
            r@ == spec_log_kind_name(*self),
    {
        match self {
            LogKind::LOG => "LOG".to_owned(),
            LogKind::WARN => "WARN".to_owned(),
            LogKind::ERROR => "ERROR".to_owned(),
        }
    }
}

/// A sequence padded with spaces up to the width.
pub open spec fn spec_padded(s: Seq<char>, width: int) -> Seq<char>
    decreases width - s.len(),
{
    if s.len() >= width {
        s
    } else {
        spec_padded(s.push(' '), width)
    }
}

/// A handler for the log. Opening the sink and writing to it are the
/// caller's business; this type renders the lines.
pub struct Logger;

impl Logger {
    /// Pads a string with spaces up to the width, as the log's column
    /// formatting does.
    fn pad(text: String, width: usize) -> (r: String)
        ensures
            r@ == spec_padded(text@, width as int),
    {
        let mut out = text;
        let ghost start = out@;
        let mut n = out.unicode_len();
        proof {
            reveal_strlit(" ");
        }
        while n < width
            invariant
                n == out@.len(),
                " "@ == seq![' '],
                spec_padded(out@, width as int) == spec_padded(start, width as int),
            decreases width - n,
        {
            let ghost prev = out@;
            out.append(" ");
            proof {
                assert(out@ =~= prev.push(' '));
                assert(spec_padded(prev, width as int) == spec_padded(
                    prev.push(' '),
                    width as int,
                ));
            }
            n += 1;
        }
        out
    }

    /// Renders one log line: the timestamp column, the bracketed kind column
    /// and the message, as `{:35} {:7} {}` prints them.
    pub fn format_line(date: &str, kind: LogKind, line: &str) -> (r: String)
        ensures
            r@ == spec_padded(date@, 35) + " "@ + spec_padded(
                seq!['['] + spec_log_kind_name(kind) + seq![']'],
                7,
            ) + " "@ + line@ + "\n"@,
    {
        let mut kind_text = "[".to_owned();
        let kind_name = kind.to_string();
        kind_text.append(kind_name.as_str());
        kind_text.append("]");
        proof {
            reveal_strlit("[");
            reveal_strlit("]");
            assert(kind_text@ =~= seq!['['] + spec_log_kind_name(kind) + seq![']']);
        }
        let mut out = Self::pad(date.to_owned(), 35);
        out.append(" ");
        let padded_kind = Self::pad(kind_text, 7);
        out.append(padded_kind.as_str());
        out.append(" ");
        out.append(line);
        out.append("\n");
        out
    }
}

} // verus!
