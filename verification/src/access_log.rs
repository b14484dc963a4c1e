//! The access log: one line per request.
//!
//! A line reads `<time> | <status> |\t<elapsed>ms | <method>\t/<path>`. The
//! status is right-aligned in three columns, and 0 where the handler gave
//! none. The elapsed time is written in milliseconds as a decimal number: the
//! whole milliseconds, and behind a point the nanoseconds that remain, without
//! trailing zeros.

use vstd::prelude::*;

verus! {

/// The number of nanoseconds in a millisecond.
pub const NS_PER_MS: u64 = 1_000_000;

/// The character of the decimal digit `d`.
pub open spec fn digit(d: nat) -> char {
    "0123456789"@[d as int]
}

/// The decimal numeral of `n`, without leading zeros.
pub open spec fn decimal(n: nat) -> Seq<char>
    decreases n,
{
    if n < 10 {
        seq![digit(n)]
    } else {
        decimal(n / 10).push(digit(n % 10))
    }
}

/// The digits of `value` from the place worth `scale` downwards, up to the
/// last digit that is not zero. `scale` is a power of ten and `value` is less
/// than ten times `scale`.
pub open spec fn fraction(value: nat, scale: nat) -> Seq<char>
    decreases scale,
{
    if value == 0 || scale == 0 {
        Seq::empty()
    } else {
        seq![digit(value / scale)] + fraction(value % scale, scale / 10)
    }
}

/// A time span of `ns` nanoseconds, written in milliseconds.
pub open spec fn millis(ns: nat) -> Seq<char> {
    if ns % (NS_PER_MS as nat) == 0 {
        decimal(ns / (NS_PER_MS as nat))
    } else {
        decimal(ns / (NS_PER_MS as nat)) + seq!['.'] + fraction(
            ns % (NS_PER_MS as nat),
            (NS_PER_MS / 10) as nat,
        )
    }
}

/// The status column: the numeral of `status`, filled with spaces on the left
/// to three characters.
pub open spec fn status_field(status: nat) -> Seq<char> {
    if status < 10 {
        seq![' ', ' '] + decimal(status)
    } else if status < 100 {
        seq![' '] + decimal(status)
    } else {
        decimal(status)
    }
}

/// The status that the log shows for a handler's status: 0 where there is
/// none.
pub open spec fn logged_status(status: Option<u16>) -> nat {
    match status {
        Some(code) => code as nat,
        None => 0,
    }
}

/// The time that passed between two readings of the monotonic clock; 0 where
/// the second reading lies before the first.
pub open spec fn elapsed(started_ns: u64, finished_ns: u64) -> nat {
    if finished_ns >= started_ns {
        (finished_ns - started_ns) as nat
    } else {
        0
    }
}

/// The log line of one request.
pub open spec fn access_line(
    timestamp: Seq<char>,
    status: Option<u16>,
    elapsed_ns: nat,
    method: Seq<char>,
    path: Seq<char>,
) -> Seq<char> {
    timestamp + seq![' ', '|', ' '] + status_field(logged_status(status)) + seq![' ', '|', '\t']
        + millis(elapsed_ns) + seq!['m', 's', ' ', '|', ' '] + method + seq!['\t', '/'] + path
}

/// The text of one decimal digit.
fn digit_text(d: u64) -> (text: &'static str)
    requires
        d < 10,
    ensures
        text@ == seq![digit(d as nat)],
{
    let digits = "0123456789";
    proof {
        reveal_strlit("0123456789");
    }
    let text = digits.substring_ascii(d as usize, d as usize + 1);
    assert(text@ =~= seq![digit(d as nat)]);
    text
}

/// Writes `n` as a decimal numeral.
pub fn decimal_text(n: u64) -> (text: String)
    ensures
        text@ == decimal(n as nat),
    decreases n,
{
    if n < 10 {
        String::from_str(digit_text(n))
    } else {
        let mut text = decimal_text(n / 10);
        text.append(digit_text(n % 10));
        assert(text@ =~= decimal(n as nat));
        text
    }
}

/// Writes a time span of `ns` nanoseconds in milliseconds.
pub fn millis_text(ns: u64) -> (text: String)
    ensures
        text@ == millis(ns as nat),
{
    let mut text = decimal_text(ns / NS_PER_MS);
    let mut rest: u64 = ns % NS_PER_MS;
    if rest == 0 {
        return text;
    }
    text.append(".");
    proof {
        reveal_strlit(".");
        assert("."@ =~= seq!['.']);
    }
    let ghost whole = text@;
    let mut scale: u64 = NS_PER_MS / 10;
    while rest != 0
        invariant
            rest < 10 * scale || rest == 0,
            scale == 100_000 || scale == 10_000 || scale == 1_000 || scale == 100 || scale == 10
                || scale == 1 || (scale == 0 && rest == 0),
            text@ + fraction(rest as nat, scale as nat) == whole + fraction(
                (ns % NS_PER_MS) as nat,
                (NS_PER_MS / 10) as nat,
            ),
        decreases scale,
    {
        let ghost before = text@;
        text.append(digit_text(rest / scale));
        assert(text@ + fraction((rest % scale) as nat, (scale / 10) as nat) =~= before + fraction(
            rest as nat,
            scale as nat,
        ));
        rest = rest % scale;
        scale = scale / 10;
    }
    assert(text@ =~= text@ + fraction(rest as nat, scale as nat));
    text
}

/// Writes the status column of a log line.
pub fn status_text(status: Option<u16>) -> (text: String)
    ensures
        text@ == status_field(logged_status(status)),
{
    let code: u16 = match status {
        Some(code) => code,
        None => 0,
    };
    let mut text = String::new();
    if code < 10 {
        text.append("  ");
        proof {
            reveal_strlit("  ");
            assert("  "@ =~= seq![' ', ' ']);
        }
    } else if code < 100 {
        text.append(" ");
        proof {
            reveal_strlit(" ");
            assert(" "@ =~= seq![' ']);
        }
    }
    let numeral = decimal_text(code as u64);
    text.append(numeral.as_str());
    assert(text@ =~= status_field(logged_status(status)));
    text
}

/// Writes the log line of one request: the time at which it is written, the
/// status that the handler gave, the time that the request took, its method
/// and its normalized path.
pub fn access_log_line(
    timestamp: &str,
    status: Option<u16>,
    elapsed_ns: u64,
    method: &str,
    path: &str,
) -> (line: String)
    ensures
        line@ == access_line(timestamp@, status, elapsed_ns as nat, method@, path@),
{
    proof {
        reveal_strlit(" | ");
        reveal_strlit(" |\t");
        reveal_strlit("ms | ");
        reveal_strlit("\t/");
        assert(" | "@ =~= seq![' ', '|', ' ']);
        assert(" |\t"@ =~= seq![' ', '|', '\t']);
        assert("ms | "@ =~= seq!['m', 's', ' ', '|', ' ']);
        assert("\t/"@ =~= seq!['\t', '/']);
    }
    let mut line = String::from_str(timestamp);
    line.append(" | ");
    let status_column = status_text(status);
    line.append(status_column.as_str());
    line.append(" |\t");
    let span = millis_text(elapsed_ns);
    line.append(span.as_str());
    line.append("ms | ");
    line.append(method);
    line.append("\t/");
    line.append(path);
    line
}

} // verus!
