//! The text that each published memo carries.
use vstd::prelude::*;

verus! {

/// chrono's format pattern for the time stamp inside a memo.
pub const STAMP_FORMAT: &'static str = "%Y-%m-%d %H:%M:%S UTC";

/// The first second that chrono dates (the start of its earliest date, in the
/// year -262143), counted from the Unix epoch.
pub const FIRST_DATED_SECOND: i64 = -8_334_601_228_800;

/// The last second that chrono dates (31 December of the year 262142), counted
/// from the Unix epoch.
pub const LAST_DATED_SECOND: i64 = 8_210_266_876_799;

/// The decimal digit `d` as a character.
pub open spec fn digit_char(d: nat) -> char {
    ((48 + d) as u32) as char
}

/// The decimal numeral of `n`, without leading zeros.
pub open spec fn decimal(n: nat) -> Seq<char>
    decreases n,
{
    if n < 10 {
        seq![digit_char(n)]
    } else {
        decimal(n / 10).push(digit_char(n % 10))
    }
}

/// The memo that publishes `counter`, stamped with the time text `stamp`.
pub open spec fn memo_text_of(counter: nat, stamp: Seq<char>) -> Seq<char> {
    "Counter: "@ + decimal(counter) + " - Written to blockchain at "@ + stamp
}

/// What chrono writes for the Unix time `secs` (whole seconds, UTC) under the
/// format pattern `pattern`.
pub uninterp spec fn utc_formatted(secs: int, pattern: Seq<char>) -> Seq<char>;

fn digit_text(d: u32) -> (r: &'static str)
    requires
        d < 10,
    ensures
        r@ == seq![digit_char(d as nat)],
{
    proof {
        reveal_strlit("0");
        reveal_strlit("1");
        reveal_strlit("2");
        reveal_strlit("3");
        reveal_strlit("4");
        reveal_strlit("5");
        reveal_strlit("6");
        reveal_strlit("7");
        reveal_strlit("8");
        reveal_strlit("9");
    }
    let r = if d == 0 {
        "0"
    } else if d == 1 {
        "1"
    } else if d == 2 {
        "2"
    } else if d == 3 {
        "3"
    } else if d == 4 {
        "4"
    } else if d == 5 {
        "5"
    } else if d == 6 {
        "6"
    } else if d == 7 {
        "7"
    } else if d == 8 {
        "8"
    } else {
        "9"
    };
    assert(r@ =~= seq![digit_char(d as nat)]);
    r
}

/// Appends the decimal numeral of `n` to `out`.
pub fn push_decimal(out: &mut String, n: u32)
    ensures
        final(out)@ == old(out)@ + decimal(n as nat),
    decreases n,
{
    if n >= 10 {
        push_decimal(out, n / 10);
    }
    out.append(digit_text(n % 10));
    assert(decimal(n as nat) =~= if n < 10 {
        seq![digit_char(n as nat)]
    } else {
        decimal((n / 10) as nat).push(digit_char((n % 10) as nat))
    });
}

/// The memo that publishes `counter` at the time written as `stamp`.
pub fn memo_text(counter: u32, stamp: &str) -> (r: String)
    ensures
        r@ == memo_text_of(counter as nat, stamp@),
{
    let mut r = String::from_str("Counter: ");
    push_decimal(&mut r, counter);
    r.append(" - Written to blockchain at ");
    r.append(stamp);
    assert(r@ =~= memo_text_of(counter as nat, stamp@));
    r
}

/// Relies on chrono's `DateTime::from_timestamp`, which gives `None` exactly for
/// seconds outside its range of dates (years -262143 to 262142), and on
/// `DateTime::format`, whose text depends on the instant and the pattern alone.
#[verifier::external_body]
fn format_utc(secs: i64, pattern: &str) -> (r: Option<String>)
    requires
        pattern@ == STAMP_FORMAT@,
    ensures
        r matches Some(text) ==> text@ == utc_formatted(secs as int, pattern@),
        r is Some <==> FIRST_DATED_SECOND <= secs <= LAST_DATED_SECOND,
{
    match chrono::DateTime::from_timestamp(secs, 0) {
        Some(t) => Some(t.format(pattern).to_string()),
        None => None,
    }
}

/// The time stamp that a memo carries for the Unix time `secs`, or `None`
/// where chrono has no date for it.
pub fn stamp_at(secs: i64) -> (r: Option<String>)
    ensures
        r matches Some(text) ==> text@ == utc_formatted(secs as int, STAMP_FORMAT@),
        r is Some <==> FIRST_DATED_SECOND <= secs <= LAST_DATED_SECOND,
{
    format_utc(secs, STAMP_FORMAT)
}

/// The memo that publishes `counter` at the Unix time `secs`, or `None` where
/// chrono has no date for that time.
pub fn counter_memo_at(counter: u32, secs: i64) -> (r: Option<String>)
    ensures
        r matches Some(m) ==> m@ == memo_text_of(
            counter as nat,
            utc_formatted(secs as int, STAMP_FORMAT@),
        ),
        r is Some <==> FIRST_DATED_SECOND <= secs <= LAST_DATED_SECOND,
{
    match stamp_at(secs) {
        Some(stamp) => Some(memo_text(counter, stamp.as_str())),
        None => None,
    }
}

} // verus!
