//! The log lines the benchmark emits, built and proved character by
//! character: one line per iteration with its elapsed time, and one closing
//! line with the mean latency and the estimated frequency.

use vstd::prelude::*;

verus! {

/// The decimal digit character for `d`.
pub open spec fn digit_char(d: nat) -> char {
    if d == 0 {
        '0'
    } else if d == 1 {
        '1'
    } else if d == 2 {
        '2'
    } else if d == 3 {
        '3'
    } else if d == 4 {
        '4'
    } else if d == 5 {
        '5'
    } else if d == 6 {
        '6'
    } else if d == 7 {
        '7'
    } else if d == 8 {
        '8'
    } else {
        '9'
    }
}

/// The decimal notation of `n`: most significant digit first, no leading
/// zero except for zero itself.
pub open spec fn dec_digits(n: nat) -> Seq<char>
    decreases n,
{
    if n < 10 {
        seq![digit_char(n)]
    } else {
        dec_digits(n / 10).push(digit_char(n % 10))
    }
}

/// The digit character for `d`.
fn digit_char_exec(d: u64) -> (c: char)
    requires
        d < 10,
    ensures
        c == digit_char(d as nat),
{
    if d == 0 {
        '0'
    } else if d == 1 {
        '1'
    } else if d == 2 {
        '2'
    } else if d == 3 {
        '3'
    } else if d == 4 {
        '4'
    } else if d == 5 {
        '5'
    } else if d == 6 {
        '6'
    } else if d == 7 {
        '7'
    } else if d == 8 {
        '8'
    } else {
        '9'
    }
}

/// Relies on `String::push`: it appends exactly the one character.
#[verifier::external_body]
fn push_char(s: &mut String, c: char)
    ensures
        final(s)@ == old(s)@.push(c),
{
    s.push(c);
}

/// Relies on `String::push_str`: it appends exactly the given slice.
#[verifier::external_body]
fn append_str(s: &mut String, t: &str)
    ensures
        final(s)@ == old(s)@ + t@,
{
    s.push_str(t);
}

/// The decimal notation of `n`.
pub fn u64_to_decimal(n: u64) -> (s: String)
    ensures
        s@ == dec_digits(n as nat),
    decreases n,
{
    if n < 10 {
        let mut s = String::new();
        push_char(&mut s, digit_char_exec(n));
        proof {
            assert(s@ =~= seq![digit_char(n as nat)]);
        }
        s
    } else {
        let mut s = u64_to_decimal(n / 10);
        push_char(&mut s, digit_char_exec(n % 10));
        s
    }
}

/// The per-iteration log line: `Time: <elapsed> ms`.
pub fn iteration_line(elapsed_ms: u64) -> (s: String)
    ensures
        s@ == "Time: "@ + dec_digits(elapsed_ms as nat) + " ms"@,
{
    let mut s = String::new();
    append_str(&mut s, "Time: ");
    let digits = u64_to_decimal(elapsed_ms);
    append_str(&mut s, digits.as_str());
    append_str(&mut s, " ms");
    proof {
        assert(s@ =~= "Time: "@ + dec_digits(elapsed_ms as nat) + " ms"@);
    }
    s
}

/// The closing log line: `Average time: <mean> ms, estimated frequency:
/// <frequency> Hz`, with the word `undefined` in place of a frequency that a
/// zero mean leaves undefined.
pub fn summary_line(mean_ms: u64, frequency_hz: Option<u64>) -> (s: String)
    ensures
        match frequency_hz {
            Some(f) => s@ == "Average time: "@ + dec_digits(mean_ms as nat)
                + " ms, estimated frequency: "@ + dec_digits(f as nat) + " Hz"@,
            None => s@ == "Average time: "@ + dec_digits(mean_ms as nat)
                + " ms, estimated frequency: undefined"@,
        },
{
    let mut s = String::new();
    append_str(&mut s, "Average time: ");
    let mean_digits = u64_to_decimal(mean_ms);
    append_str(&mut s, mean_digits.as_str());
    match frequency_hz {
        Some(f) => {
            append_str(&mut s, " ms, estimated frequency: ");
            let freq_digits = u64_to_decimal(f);
            append_str(&mut s, freq_digits.as_str());
            append_str(&mut s, " Hz");
            proof {
                assert(s@ =~= "Average time: "@ + dec_digits(mean_ms as nat)
                    + " ms, estimated frequency: "@ + dec_digits(f as nat) + " Hz"@);
            }
        },
        None => {
            append_str(&mut s, " ms, estimated frequency: undefined");
            proof {
                assert(s@ =~= "Average time: "@ + dec_digits(mean_ms as nat)
                    + " ms, estimated frequency: undefined"@);
            }
        },
    }
    s
}

} // verus!
