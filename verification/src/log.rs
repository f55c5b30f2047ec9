use vstd::prelude::*;

verus! {

/// The two severities a log entry can carry.
#[derive(Clone, Copy, PartialEq, Eq, Structural)]
pub enum LogLevel {
    Info,
    Error,
}

/// The tag a severity writes between its brackets.
pub open spec fn level_tag(l: LogLevel) -> Seq<char> {
    match l {
        LogLevel::Info => "INFO"@,
        LogLevel::Error => "ERROR"@,
    }
}

/// One log line: the date and the severity in brackets, then the message,
/// closed by a newline.
pub open spec fn log_line_chars(date: Seq<char>, l: LogLevel, msg: Seq<char>) -> Seq<char> {
    "["@ + date + "]["@ + level_tag(l) + "] "@ + msg + "\n"@
}

/// Renders one log line from a formatted date, a severity and a message.
pub fn log_line(date: &str, level: LogLevel, msg: &str) -> (r: String)
    ensures
        r@ == log_line_chars(date@, level, msg@),
{
    let mut out = String::from_str("[");
    out.append(date);
    out.append("][");
    match level {
        LogLevel::Info => out.append("INFO"),
        LogLevel::Error => out.append("ERROR"),
    }
    out.append("] ");
    out.append(msg);
    out.append("\n");
    proof {
        assert(out@ =~= log_line_chars(date@, level, msg@));
    }
    out
}

/// A character the log path keeps: ASCII alphanumerics and `.`, `_`, `-`, `,`,
/// `/`.
pub open spec fn allowed_path_char(c: char) -> bool {
    ||| 'a' <= c && c <= 'z'
    ||| 'A' <= c && c <= 'Z'
    ||| '0' <= c && c <= '9'
    ||| c == '.'
    ||| c == '_'
    ||| c == '-'
    ||| c == ','
    ||| c == '/'
}

/// `s` with every character outside the allow-list removed.
pub open spec fn sanitized_path(s: Seq<char>) -> Seq<char>
    decreases s.len(),
{
    if s.len() == 0 {
        Seq::empty()
    } else {
        sanitized_path(s.drop_last()) + (if allowed_path_char(s.last()) {
            seq![s.last()]
        } else {
            Seq::empty()
        })
    }
}

/// Strips a configured log path down to its allow-list: ASCII alphanumerics
/// and `.`, `_`, `-`, `,`, `/`; everything else is dropped.
pub fn sanitize_log_path(content: &str) -> (r: String)
    ensures
        r@ == sanitized_path(content@),
{
    let n = content.unicode_len();
    let mut out = String::new();
    let mut i: usize = 0;
    while i < n
        invariant
            0 <= i <= n,
            n == content@.len(),
            out@ == sanitized_path(content@.subrange(0, i as int)),
        decreases n - i,
    {
        let c = content.get_char(i);
        let keep = ('a' <= c && c <= 'z') || ('A' <= c && c <= 'Z') || ('0' <= c && c <= '9') || c
            == '.' || c == '_' || c == '-' || c == ',' || c == '/';
        proof {
            let pre = content@.subrange(0, i as int);
            let ext = content@.subrange(0, i as int + 1);
            assert(ext.drop_last() =~= pre);
            assert(ext.last() == content@[i as int]);
        }
        if keep {
            crate::trusted::push_char(&mut out, c);
            proof {
                assert(out@ =~= sanitized_path(content@.subrange(0, i as int + 1)));
            }
        } else {
            proof {
                assert(out@ =~= sanitized_path(content@.subrange(0, i as int + 1)));
            }
        }
        i = i + 1;
    }
    proof {
        assert(content@.subrange(0, n as int) =~= content@);
    }
    out
}

/// The log path used when no configured one can be read.
pub fn default_log_path() -> (r: String)
    ensures
        r@ == "/var/log/dynhost.log"@,
{
    String::from_str("/var/log/dynhost.log")
}

} // verus!
