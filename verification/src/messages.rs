//! The exact texts the batcher reports to submitters, built from verified
//! decimal formatting so that a contract can pin every character.

use vstd::prelude::*;

verus! {

/// The character for one decimal digit `d < 10`.
pub open spec fn dec_digit_char(d: nat) -> char {
    if d == 0 {
        '0'
    } else if d == 1 {
        '1'
    } else if d == 2 {
        '2'
    } else if d == 3 {
        '3'
    } else if d == 4 {
        '4'
    } else if d == 5 {
        '5'
    } else if d == 6 {
        '6'
    } else if d == 7 {
        '7'
    } else if d == 8 {
        '8'
    } else {
        '9'
    }
}

/// The decimal rendering of `n`, most significant digit first, with no
/// leading zeros (a single `'0'` for zero).
pub open spec fn dec_str(n: nat) -> Seq<char>
    decreases n,
{
    if n < 10 {
        seq![dec_digit_char(n)]
    } else {
        dec_str(n / 10).push(dec_digit_char(n % 10))
    }
}

/// A one-character string for the digit `d`.
fn digit_str(d: u64) -> (s: &'static str)
    requires
        d < 10,
    ensures
        s@ =~= seq![dec_digit_char(d as nat)],
{
    proof {
        reveal_strlit("0");
        reveal_strlit("1");
        reveal_strlit("2");
        reveal_strlit("3");
        reveal_strlit("4");
        reveal_strlit("5");
        reveal_strlit("6");
        reveal_strlit("7");
        reveal_strlit("8");
        reveal_strlit("9");
    }
    if d == 0 {
        "0"
    } else if d == 1 {
        "1"
    } else if d == 2 {
        "2"
    } else if d == 3 {
        "3"
    } else if d == 4 {
        "4"
    } else if d == 5 {
        "5"
    } else if d == 6 {
        "6"
    } else if d == 7 {
        "7"
    } else if d == 8 {
        "8"
    } else {
        "9"
    }
}

/// Render `n` in decimal.
pub fn u64_to_dec(n: u64) -> (s: String)
    ensures
        s@ == dec_str(n as nat),
    decreases n,
{
    if n < 10 {
        digit_str(n).to_owned()
    } else {
        proof {
            assert(n / 10 < n) by (nonlinear_arith)
                requires
                    n >= 10,
            ;
        }
        let mut s = u64_to_dec(n / 10);
        s.append(digit_str(n % 10));
        proof {
            assert(s@ =~= dec_str(n as nat));
        }
        s
    }
}

/// The report for an executor that returned `got` outputs for a batch of
/// `expected` inputs.
pub open spec fn mismatch_message_spec(got: nat, expected: nat) -> Seq<char> {
    "executor returned "@ + dec_str(got) + " items for "@ + dec_str(expected) + " inputs"@
}

/// Build the length-mismatch report.
pub fn mismatch_message(got: usize, expected: usize) -> (m: String)
    ensures
        m@ == mismatch_message_spec(got as nat, expected as nat),
{
    let mut m = "executor returned ".to_owned();
    let got_s = u64_to_dec(got as u64);
    m.append(got_s.as_str());
    m.append(" items for ");
    let expected_s = u64_to_dec(expected as u64);
    m.append(expected_s.as_str());
    m.append(" inputs");
    proof {
        assert(m@ =~= mismatch_message_spec(got as nat, expected as nat));
    }
    m
}

/// The report for an executor whose output was not a list.
pub fn not_list_message() -> (m: String)
    ensures
        m@ == "executor must return a list"@,
{
    "executor must return a list".to_owned()
}

/// The report for an executor that raised, wrapping the host's rendering of
/// the failure.
pub open spec fn raised_message_spec(detail: Seq<char>) -> Seq<char> {
    "executor error: "@ + detail
}

/// Build the executor-failure report around the host's `detail` text.
pub fn raised_message(detail: &str) -> (m: String)
    ensures
        m@ == raised_message_spec(detail@),
{
    let mut m = "executor error: ".to_owned();
    m.append(detail);
    m
}

/// The report for a passthrough call whose output was not a single item.
pub fn passthrough_arity_message() -> (m: String)
    ensures
        m@ == "executor must return one item in passthrough mode"@,
{
    "executor must return one item in passthrough mode".to_owned()
}

} // verus!
