//! The exit-code artifact: the child's numeric exit code rendered as
//! decimal text, and the code the supervisor itself propagates.
//!
//! A child terminated without a code (by a signal) counts as 0, both in
//! the artifact and in the propagated exit status.

use vstd::prelude::*;
use vstd::arithmetic::div_mod::lemma_fundamental_div_mod;
use vstd::string::StringExecFns;
use crate::commit::CommitQueue;

verus! {

/// The character of one decimal digit.
pub open spec fn digit_char(d: int) -> char {
    if d == 0 {
        '0'
    } else if d == 1 {
        '1'
    } else if d == 2 {
        '2'
    } else if d == 3 {
        '3'
    } else if d == 4 {
        '4'
    } else if d == 5 {
        '5'
    } else if d == 6 {
        '6'
    } else if d == 7 {
        '7'
    } else if d == 8 {
        '8'
    } else {
        '9'
    }
}

/// The numeric value of one decimal digit character; other characters
/// count as zero.
pub open spec fn char_digit(c: char) -> int {
    if c == '1' {
        1
    } else if c == '2' {
        2
    } else if c == '3' {
        3
    } else if c == '4' {
        4
    } else if c == '5' {
        5
    } else if c == '6' {
        6
    } else if c == '7' {
        7
    } else if c == '8' {
        8
    } else if c == '9' {
        9
    } else {
        0
    }
}

/// True of the ten decimal digit characters.
pub open spec fn is_digit_char(c: char) -> bool {
    c == '0' || c == '1' || c == '2' || c == '3' || c == '4' || c == '5' || c == '6' || c == '7'
        || c == '8' || c == '9'
}

/// The decimal digits of `n`, most significant first.
pub open spec fn dec_digits(n: int) -> Seq<char>
    recommends
        n >= 0,
    decreases n,
    via dec_digits_decreases
{
    if n <= 9 {
        seq![digit_char(n)]
    } else {
        dec_digits(n / 10).push(digit_char(n % 10))
    }
}

#[via_fn]
proof fn dec_digits_decreases(n: int) {
    if n > 9 {
        assert(0 <= n / 10 < n) by (nonlinear_arith)
            requires
                n > 9,
        ;
    }
}

/// The number denoted by a sequence of decimal digit characters.
pub open spec fn digits_val(s: Seq<char>) -> int
    decreases s.len(),
{
    if s.len() == 0 {
        0
    } else {
        digits_val(s.drop_last()) * 10 + char_digit(s.last())
    }
}

/// The decimal rendering of a number parses back to that number, consists
/// of digit characters only, and carries no leading zero unless it is the
/// single digit `0`.
pub proof fn lemma_decimal_round_trip(n: int)
    requires
        n >= 0,
    ensures
        digits_val(dec_digits(n)) == n,
        dec_digits(n).len() >= 1,
        forall|i: int| 0 <= i < dec_digits(n).len() ==> is_digit_char(#[trigger] dec_digits(n)[i]),
        n >= 1 ==> dec_digits(n)[0] != '0',
        n >= 10 ==> dec_digits(n).len() >= 2,
    decreases n,
{
    if n <= 9 {
        assert(seq![digit_char(n)].drop_last() =~= Seq::<char>::empty());
        assert(digits_val(Seq::<char>::empty()) == 0);
        assert(char_digit(digit_char(n)) == n);
    } else {
        assert(0 <= n / 10 < n) by (nonlinear_arith)
            requires
                n > 9,
        ;
        lemma_decimal_round_trip(n / 10);
        lemma_fundamental_div_mod(n, 10);
        assert(0 <= n % 10 < 10) by (nonlinear_arith)
            requires
                n > 9,
        ;
        let s = dec_digits(n);
        assert(s.drop_last() =~= dec_digits(n / 10));
        assert(s.last() == digit_char(n % 10));
        assert(char_digit(digit_char(n % 10)) == n % 10);
        assert(digits_val(s) == digits_val(dec_digits(n / 10)) * 10 + char_digit(
            digit_char(n % 10),
        ));
        assert(n / 10 >= 1) by (nonlinear_arith)
            requires
                n > 9,
        ;
        assert(s[0] == dec_digits(n / 10)[0]);
    }
}

/// The decimal text owed to the exit-code artifact for a child that ended
/// with the given code, or with none (0 then).
pub open spec fn exit_code_seq(code: Option<i32>) -> Seq<char> {
    let v = spec_propagated_code(code);
    if v < 0 {
        seq!['-'] + dec_digits(-v)
    } else {
        dec_digits(v)
    }
}

/// The exit code the supervisor itself reports: the child's own, or 0
/// when the child ended without one.
pub open spec fn spec_propagated_code(code: Option<i32>) -> int {
    match code {
        Option::Some(c) => c as int,
        Option::None => 0,
    }
}

/// The supervisor's own exit code mirrors the child's; a child without a
/// code counts as 0.
pub fn propagated_code(code: Option<i32>) -> (r: i32)
    ensures
        r as int == spec_propagated_code(code),
{
    match code {
        Option::Some(c) => c,
        Option::None => 0,
    }
}

fn append_digit(s: &mut String, d: u64)
    requires
        d <= 9,
    ensures
        final(s)@ == old(s)@ + seq![digit_char(d as int)],
{
    if d == 0 {
        proof {
            reveal_strlit("0");
            assert("0"@ =~= seq!['0']);
        }
        s.append("0");
    } else if d == 1 {
        proof {
            reveal_strlit("1");
            assert("1"@ =~= seq!['1']);
        }
        s.append("1");
    } else if d == 2 {
        proof {
            reveal_strlit("2");
            assert("2"@ =~= seq!['2']);
        }
        s.append("2");
    } else if d == 3 {
        proof {
            reveal_strlit("3");
            assert("3"@ =~= seq!['3']);
        }
        s.append("3");
    } else if d == 4 {
        proof {
            reveal_strlit("4");
            assert("4"@ =~= seq!['4']);
        }
        s.append("4");
    } else if d == 5 {
        proof {
            reveal_strlit("5");
            assert("5"@ =~= seq!['5']);
        }
        s.append("5");
    } else if d == 6 {
        proof {
            reveal_strlit("6");
            assert("6"@ =~= seq!['6']);
        }
        s.append("6");
    } else if d == 7 {
        proof {
            reveal_strlit("7");
            assert("7"@ =~= seq!['7']);
        }
        s.append("7");
    } else if d == 8 {
        proof {
            reveal_strlit("8");
            assert("8"@ =~= seq!['8']);
        }
        s.append("8");
    } else {
        proof {
            reveal_strlit("9");
            assert("9"@ =~= seq!['9']);
        }
        s.append("9");
    }
}

fn push_decimal(s: &mut String, n: u64)
    ensures
        final(s)@ == old(s)@ + dec_digits(n as int),
    decreases n,
{
    if n <= 9 {
        append_digit(s, n);
    } else {
        proof {
            assert(0 <= n / 10 < n) by (nonlinear_arith)
                requires
                    n > 9,
            ;
        }
        push_decimal(s, n / 10);
        append_digit(s, n % 10);
        proof {
            assert(dec_digits(n as int) == dec_digits(n as int / 10).push(
                digit_char(n as int % 10),
            ));
            assert(old(s)@ + dec_digits(n as int / 10) + seq![digit_char(n as int % 10)] =~= old(
                s,
            )@ + dec_digits(n as int));
        }
    }
}

/// Renders the exit-code artifact's content: the exact decimal text of
/// the child's exit code, 0 standing in when the child ended without one.
pub fn exit_code_text(code: Option<i32>) -> (r: String)
    ensures
        r@ == exit_code_seq(code),
{
    let v: i32 = propagated_code(code);
    let mut s = String::new();
    if v < 0 {
        proof {
            reveal_strlit("-");
            assert("-"@ =~= seq!['-']);
        }
        s.append("-");
        let m: u64 = (-(v as i64)) as u64;
        push_decimal(&mut s, m);
        proof {
            assert(s@ =~= seq!['-'] + dec_digits(m as int));
        }
    } else {
        push_decimal(&mut s, v as u64);
        proof {
            assert(s@ =~= dec_digits(v as int));
        }
    }
    s
}

/// Provisions the exit-code artifact after the child has been waited on,
/// under the same commit discipline as every other output file. In atomic
/// mode the decimal text is staged at once and its commit to `path` is
/// owed to the queue, so nothing more is handed back; in direct mode the
/// path and the text are handed back for immediate writing.
pub fn provision_exit_artifact(
    q: &mut CommitQueue,
    atomic: bool,
    tmpdir: &str,
    path: String,
    code: Option<i32>,
) -> (r: Result<Option<(String, String)>, String>)
    ensures
        !atomic ==> final(q).dests() == old(q).dests() && r is Ok && match r->Ok_0 {
            Option::Some(pt) => pt.0 == path && pt.1@ == exit_code_seq(code),
            Option::None => false,
        },
        atomic && r is Ok ==> r->Ok_0 is None && final(q).dests() == old(q).dests().push(path@),
        atomic && r is Err ==> final(q).dests() == old(q).dests(),
{
    let text = exit_code_text(code);
    if atomic {
        match q.stage(tmpdir, path, text.as_str()) {
            Result::Ok(_) => Result::Ok(Option::None),
            Result::Err(e) => Result::Err(e),
        }
    } else {
        Result::Ok(Option::Some((path, text)))
    }
}

} // verus!
