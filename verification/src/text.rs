//! Small verified text helpers: string equality on slices and decimal
//! rendering of unsigned integers, used when building remote commands and
//! flattened stack parameters.

use vstd::prelude::*;

verus! {

/// Compares two string slices by content.
pub fn str_eq(a: &str, b: &str) -> (r: bool)
    ensures
        r == (a@ == b@),
{
    let sa: String = a.to_owned();
    let sb: String = b.to_owned();
    sa == sb
}

/// The character for one decimal digit.
pub open spec fn digit_char(d: nat) -> char {
    if d == 0 {
        '0'
    } else if d == 1 {
        '1'
    } else if d == 2 {
        '2'
    } else if d == 3 {
        '3'
    } else if d == 4 {
        '4'
    } else if d == 5 {
        '5'
    } else if d == 6 {
        '6'
    } else if d == 7 {
        '7'
    } else if d == 8 {
        '8'
    } else {
        '9'
    }
}

/// The decimal representation of `n`, most significant digit first, with no
/// leading zeros (`0` itself is rendered as `"0"`).
pub open spec fn dec_rep(n: nat) -> Seq<char>
    decreases n,
{
    if n < 10 {
        seq![digit_char(n)]
    } else {
        dec_rep(n / 10).push(digit_char(n % 10))
    }
}

/// The one-character string for a decimal digit.
fn digit_str(d: u64) -> (r: &'static str)
    requires
        d < 10,
    ensures
        r@ == seq![digit_char(d as nat)],
{
    proof {
        reveal_strlit("0");
        reveal_strlit("1");
        reveal_strlit("2");
        reveal_strlit("3");
        reveal_strlit("4");
        reveal_strlit("5");
        reveal_strlit("6");
        reveal_strlit("7");
        reveal_strlit("8");
        reveal_strlit("9");
    }
    if d == 0 {
        let r = "0";
        proof { assert(r@ =~= seq![digit_char(d as nat)]); }
        r
    } else if d == 1 {
        let r = "1";
        proof { assert(r@ =~= seq![digit_char(d as nat)]); }
        r
    } else if d == 2 {
        let r = "2";
        proof { assert(r@ =~= seq![digit_char(d as nat)]); }
        r
    } else if d == 3 {
        let r = "3";
        proof { assert(r@ =~= seq![digit_char(d as nat)]); }
        r
    } else if d == 4 {
        let r = "4";
        proof { assert(r@ =~= seq![digit_char(d as nat)]); }
        r
    } else if d == 5 {
        let r = "5";
        proof { assert(r@ =~= seq![digit_char(d as nat)]); }
        r
    } else if d == 6 {
        let r = "6";
        proof { assert(r@ =~= seq![digit_char(d as nat)]); }
        r
    } else if d == 7 {
        let r = "7";
        proof { assert(r@ =~= seq![digit_char(d as nat)]); }
        r
    } else if d == 8 {
        let r = "8";
        proof { assert(r@ =~= seq![digit_char(d as nat)]); }
        r
    } else {
        let r = "9";
        proof { assert(r@ =~= seq![digit_char(d as nat)]); }
        r
    }
}

/// Appends the decimal representation of `n` to `out`.
fn push_dec(n: u64, out: &mut String)
    ensures
        final(out)@ == old(out)@ + dec_rep(n as nat),
    decreases n,
{
    if n >= 10 {
        push_dec(n / 10, out);
    }
    let d = digit_str(n % 10);
    out.append(d);
    proof {
        if n >= 10 {
            assert(dec_rep(n as nat) == dec_rep(n as nat / 10).push(digit_char(n as nat % 10)));
            assert(out@ =~= old(out)@ + dec_rep(n as nat));
        } else {
            assert(dec_rep(n as nat) == seq![digit_char(n as nat)]);
            assert(out@ =~= old(out)@ + dec_rep(n as nat));
        }
    }
}

/// Renders `n` in decimal.
pub fn u64_to_dec(n: u64) -> (r: String)
    ensures
        r@ == dec_rep(n as nat),
{
    let mut s = String::new();
    push_dec(n, &mut s);
    proof {
        assert(s@ =~= dec_rep(n as nat));
    }
    s
}

/// Renders `n` in decimal.
pub fn usize_to_dec(n: usize) -> (r: String)
    ensures
        r@ == dec_rep(n as nat),
{
    u64_to_dec(n as u64)
}

} // verus!
