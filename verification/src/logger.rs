//! The kernel log: the text of one log line.

use vstd::prelude::*;

verus! {

/// Severity of a log record.
#[derive(Debug, Clone, Copy, PartialEq, Eq)]
pub enum LogLevel {
    Error,
    Warn,
    Info,
    Debug,
    Trace,
}

impl LogLevel {
    /// The tag that opens a log line of this level.
    pub open spec fn spec_prefix(self) -> Seq<char> {
        match self {
            LogLevel::Error => "ERROR"@,
            LogLevel::Warn => "Warn"@,
            LogLevel::Info => "Info"@,
            LogLevel::Debug => "Debug"@,
            LogLevel::Trace => "Trace"@,
        }
    }

    /// The tag that opens a log line of this level.
    pub fn prefix(self) -> (tag: &'static str)
        ensures
            tag@ == self.spec_prefix(),
    {
        match self {
            LogLevel::Error => "ERROR",
            LogLevel::Warn => "Warn",
            LogLevel::Info => "Info",
            LogLevel::Debug => "Debug",
            LogLevel::Trace => "Trace",
        }
    }
}

/// The character of the decimal digit `d`.
pub open spec fn digit_char(d: nat) -> char {
    (d + 48) as char
}

/// The decimal notation of `n`, without leading zeros.
pub open spec fn decimal(n: nat) -> Seq<char>
    decreases n,
{
    if n < 10 {
        seq![digit_char(n)]
    } else {
        decimal(n / 10).push(digit_char(n % 10))
    }
}

/// The text of a log line: `[<prefix>][<file>:<line>]: <msg>`.
pub open spec fn spec_log_line(prefix: Seq<char>, file: Seq<char>, line: nat, msg: Seq<char>) -> Seq<
    char,
> {
    seq!['['] + prefix + seq![']', '['] + file + seq![':'] + decimal(line) + seq![']', ':', ' ']
        + msg
}

/// `u32::to_string` from std: the decimal notation of `n` (its `Display`
/// form).
#[verifier::external_body]
fn u32_decimal(n: u32) -> (s: String)
    ensures
        s@ == decimal(n as nat),
{
    n.to_string()
}

/// The line that the kernel log shows for a record of level `level`, raised
/// at `file`:`line`, with message `msg`.
pub fn log_line(level: LogLevel, file: &str, line: u32, msg: &str) -> (s: String)
    ensures
        s@ == spec_log_line(level.spec_prefix(), file@, line as nat, msg@),
        s@ == seq!['['] + level.spec_prefix() + seq![']', '['] + file@ + seq![':'] + decimal(
            line as nat,
        ) + seq![']', ':', ' '] + msg@,
{
    let mut s = String::from_str("[");
    s.append(level.prefix());
    s.append("][");
    s.append(file);
    s.append(":");
    let digits = u32_decimal(line);
    s.append(digits.as_str());
    s.append("]: ");
    s.append(msg);
    proof {
        reveal_strlit("[");
        reveal_strlit("][");
        reveal_strlit(":");
        reveal_strlit("]: ");
        assert(s@ =~= spec_log_line(level.spec_prefix(), file@, line as nat, msg@));
    }
    s
}

/// The number that a string of decimal digits denotes.
pub open spec fn digits_value(s: Seq<char>) -> int
    decreases s.len(),
{
    if s.len() == 0 {
        0
    } else {
        digits_value(s.drop_last()) * 10 + (s.last() as int - 48)
    }
}

/// `decimal(n)` is the decimal notation of `n`: it is made of the digits
/// '0' to '9' only, it does not start with '0' unless it is "0", and it
/// denotes `n`.
pub proof fn lemma_decimal_denotes(n: nat)
    ensures
        decimal(n).len() >= 1,
        forall|i: int| 0 <= i < decimal(n).len() ==> '0' <= #[trigger] decimal(n)[i] <= '9',
        n >= 10 ==> decimal(n)[0] != '0',
        n < 10 ==> decimal(n) == seq![digit_char(n)],
        digits_value(decimal(n)) == n,
    decreases n,
{
    if n >= 10 {
        lemma_decimal_denotes(n / 10);
        let d = decimal(n);
        assert(d.drop_last() =~= decimal(n / 10));
        assert((n % 10 + 48) as char as int == n % 10 + 48);
        assert(d.last() as int == n % 10 + 48);
        assert(digits_value(d) == digits_value(decimal(n / 10)) * 10 + n % 10);
        assert(d[0] == decimal(n / 10)[0]);
        if n / 10 < 10 {
            assert((n / 10 + 48) as char as int == n / 10 + 48);
        }
    } else {
        assert((n + 48) as char as int == n + 48);
        assert(decimal(n).drop_last() =~= Seq::<char>::empty());
        assert(digits_value(Seq::<char>::empty()) == 0);
    }
}

/// In a log line, the text between the ':' that follows the file name and
/// the closing "]: " is the decimal notation of the whole line number.
pub proof fn lemma_log_line_number_field(prefix: Seq<char>, file: Seq<char>, line: nat, msg: Seq<
    char,
>)
    ensures
        ({
            let s = spec_log_line(prefix, file, line, msg);
            let start: int = (prefix.len() + file.len() + 4) as int;
            &&& s[start - 1] == ':'
            &&& s.subrange(start, start + decimal(line).len() as int) == decimal(line)
            &&& s.subrange(
                start + decimal(line).len() as int,
                start + decimal(line).len() as int + 3,
            ) == seq![']', ':', ' ']
            &&& digits_value(s.subrange(start, start + decimal(line).len() as int)) == line
        }),
{
    lemma_decimal_denotes(line);
    let s = spec_log_line(prefix, file, line, msg);
    let start: int = (prefix.len() + file.len() + 4) as int;
    assert(s.subrange(start, start + decimal(line).len() as int) =~= decimal(line));
    assert(s.subrange(start + decimal(line).len() as int, start + decimal(line).len() as int + 3) =~= seq![
        ']',
        ':',
        ' ',
    ]);
}

} // verus!
