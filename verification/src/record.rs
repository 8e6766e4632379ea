//! The textual record that stands for one state of the counter.
//!
//! A record is one line of text:
//!
//! ```text
//! { 'progress' : { 'current': 10, 'max': 100 } }
//! ```
//!
//! The framing uses single quotes, so a record is not strict JSON; the
//! framing is kept as it is because consumers of the stream match on it.

use vstd::prelude::*;
use vstd::string::*;
use crate::progress::Progress;

verus! {

/// The character that stands for the decimal digit `d`.
pub open spec fn digit_char(d: nat) -> char
    recommends
        d < 10,
{
    ((d + 48) as u8) as char
}

/// The decimal numeral of `n`, most significant digit first, without leading
/// zeros.
pub open spec fn decimal(n: nat) -> Seq<char>
    decreases n,
{
    if n < 10 {
        seq![digit_char(n)]
    } else {
        decimal(n / 10).push(digit_char(n % 10))
    }
}

/// What stands before the first number of a record.
pub open spec fn record_head() -> Seq<char> {
    "{ 'progress' : { 'current': "@
}

/// What stands between the two numbers of a record.
pub open spec fn record_middle() -> Seq<char> {
    ", 'max': "@
}

/// What stands after the second number of a record, newline included.
pub open spec fn record_tail() -> Seq<char> {
    " } }\n"@
}

/// The record for `p`, as characters.
pub open spec fn record(p: Progress) -> Seq<char> {
    record_head() + decimal(p.current as nat) + record_middle() + decimal(p.max as nat)
        + record_tail()
}

/// The record for `p`, as the bytes that a sink hands to its medium: every
/// character of a record is ASCII and takes one byte.
pub open spec fn record_bytes(p: Progress) -> Seq<u8> {
    Seq::new(record(p).len(), |i: int| record(p)[i] as u8)
}

/// A numeral is never empty and holds decimal digits only.
pub proof fn lemma_decimal_is_digits(n: nat)
    ensures
        decimal(n).len() >= 1,
        forall|i: int| 0 <= i < decimal(n).len() ==> '0' <= #[trigger] decimal(n)[i] <= '9',
    decreases n,
{
    if n >= 10 {
        lemma_decimal_is_digits(n / 10);
    }
}

/// A record is a single line: ASCII throughout, ended by a newline, with no
/// newline before its end. A stream of records therefore splits into its
/// records at the newlines, and in no other way.
pub proof fn lemma_record_is_one_line(p: Progress)
    ensures
        record(p).len() >= record_head().len() + record_middle().len() + record_tail().len() + 2,
        record(p).last() == '\n',
        forall|i: int| 0 <= i < record(p).len() - 1 ==> #[trigger] record(p)[i] != '\n',
        forall|i: int| 0 <= i < record(p).len() ==> '\0' <= #[trigger] record(p)[i] <= '\u{7f}',
{
    reveal_strlit("{ 'progress' : { 'current': ");
    reveal_strlit(", 'max': ");
    reveal_strlit(" } }\n");
    lemma_decimal_is_digits(p.current as nat);
    lemma_decimal_is_digits(p.max as nat);
}

/// The character of a digit tells the digit.
proof fn lemma_digit_char_tells_digit(d: nat)
    requires
        d < 10,
    ensures
        digit_char(d) as nat == d + 48,
{
}

/// Different numbers have different numerals.
pub proof fn lemma_decimal_is_injective(a: nat, b: nat)
    requires
        decimal(a) == decimal(b),
    ensures
        a == b,
    decreases a,
{
    if a < 10 {
        if b >= 10 {
            lemma_decimal_is_digits(b / 10);
            assert(decimal(b).len() >= 2);
        }
        assert(b < 10);
        assert(decimal(a)[0] == digit_char(a));
        assert(decimal(b)[0] == digit_char(b));
        lemma_digit_char_tells_digit(a);
        lemma_digit_char_tells_digit(b);
        assert(a == b);
    } else {
        lemma_decimal_is_digits(a / 10);
        assert(decimal(a).len() >= 2);
        assert(b >= 10);
        assert(decimal(a).drop_last() =~= decimal(a / 10));
        assert(decimal(b).drop_last() =~= decimal(b / 10));
        lemma_decimal_is_injective(a / 10, b / 10);
        assert(decimal(a).last() == digit_char(a % 10));
        assert(decimal(b).last() == digit_char(b % 10));
        lemma_digit_char_tells_digit(a % 10);
        lemma_digit_char_tells_digit(b % 10);
        assert(a % 10 == b % 10);
        assert(a / 10 == b / 10);
        assert(a == b);
    }
}

/// A record tells its counter: two counters with the same record are the
/// same. Together with `lemma_record_is_one_line` this makes a record
/// readable on its own, as one unit.
pub proof fn lemma_record_is_injective(p: Progress, q: Progress)
    requires
        record(p) == record(q),
    ensures
        p == q,
{
    reveal_strlit("{ 'progress' : { 'current': ");
    reveal_strlit(", 'max': ");
    reveal_strlit(" } }\n");
    let head = record_head();
    let middle = record_middle();
    let tail = record_tail();
    let pc = decimal(p.current as nat);
    let qc = decimal(q.current as nat);
    let pm = decimal(p.max as nat);
    let qm = decimal(q.max as nat);
    lemma_decimal_is_digits(p.current as nat);
    lemma_decimal_is_digits(q.current as nat);
    lemma_decimal_is_digits(p.max as nat);
    lemma_decimal_is_digits(q.max as nat);
    let rp = record(p);
    let rq = record(q);
    assert(rp.len() == head.len() + pc.len() + middle.len() + pm.len() + tail.len());
    assert(rq.len() == head.len() + qc.len() + middle.len() + qm.len() + tail.len());
    // The comma that follows the first numeral stands where the other
    // record would still hold a digit, unless both numerals end together.
    if pc.len() < qc.len() {
        let at = head.len() + pc.len();
        assert(rp[at as int] == middle[0]);
        assert(rq[at as int] == qc[pc.len() as int]);
        assert(false);
    }
    if qc.len() < pc.len() {
        let at = head.len() + qc.len();
        assert(rq[at as int] == middle[0]);
        assert(rp[at as int] == pc[qc.len() as int]);
        assert(false);
    }
    assert(pc =~= qc) by {
        assert forall|i: int| 0 <= i < pc.len() implies pc[i] == qc[i] by {
            assert(rp[head.len() + i] == pc[i]);
            assert(rq[head.len() + i] == qc[i]);
        }
    }
    assert(pm.len() == qm.len());
    assert(pm =~= qm) by {
        let skip = head.len() + pc.len() + middle.len();
        assert forall|i: int| 0 <= i < pm.len() implies pm[i] == qm[i] by {
            assert(rp[skip + i] == pm[i]);
            assert(rq[skip + i] == qm[i]);
        }
    }
    lemma_decimal_is_injective(p.current as nat, q.current as nat);
    lemma_decimal_is_injective(p.max as nat, q.max as nat);
}

/// The one-digit numeral of `d`.
fn digit_str(d: u8) -> (s: &'static str)
    requires
        d < 10,
    ensures
        s@ == seq![digit_char(d as nat)],
{
    proof {
        reveal_strlit("0");
        reveal_strlit("1");
        reveal_strlit("2");
        reveal_strlit("3");
        reveal_strlit("4");
        reveal_strlit("5");
        reveal_strlit("6");
        reveal_strlit("7");
        reveal_strlit("8");
        reveal_strlit("9");
    }
    let s = if d == 0 {
        "0"
    } else if d == 1 {
        "1"
    } else if d == 2 {
        "2"
    } else if d == 3 {
        "3"
    } else if d == 4 {
        "4"
    } else if d == 5 {
        "5"
    } else if d == 6 {
        "6"
    } else if d == 7 {
        "7"
    } else if d == 8 {
        "8"
    } else {
        "9"
    };
    assert(s@ =~= seq![digit_char(d as nat)]);
    s
}

/// Appends the decimal numeral of `n` to `out`.
fn push_decimal(out: &mut String, n: u64)
    ensures
        final(out)@ == old(out)@ + decimal(n as nat),
    decreases n,
{
    if n >= 10 {
        push_decimal(out, n / 10);
    }
    out.append(digit_str((n % 10) as u8));
    assert(out@ =~= old(out)@ + decimal(n as nat));
}

/// Renders the whole of `value` as one record.
pub fn message(value: &Progress) -> (s: String)
    ensures
        s@ == record(*value),
{
    let mut s = String::from_str("{ 'progress' : { 'current': ");
    push_decimal(&mut s, value.current);
    s.append(", 'max': ");
    push_decimal(&mut s, value.max);
    s.append(" } }\n");
    s
}

} // verus!
