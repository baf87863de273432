//! Rendering of numbers and strings into text.
use vstd::prelude::*;
use vstd::string::*;

verus! {

/// The character that stands for the digit `d` (`0 <= d < 16`), lower case.
pub open spec fn digit_char(d: nat) -> char {
    if d < 10 {
        ((d + 48) as u8) as char
    } else {
        ((d - 10 + 97) as u8) as char
    }
}

/// The digits of `n` written in base `radix`, most significant first, with no leading zeros;
/// zero is written as a single `0`.
pub open spec fn digits(n: nat, radix: nat) -> Seq<char>
    decreases n,
{
    if radix < 2 {
        seq![]
    } else if n < radix {
        seq![digit_char(n)]
    } else {
        proof {
            assert(n / radix < n) by (nonlinear_arith)
                requires
                    radix >= 2,
                    n >= radix,
            ;
        }
        digits(n / radix, radix).push(digit_char(n % radix))
    }
}

/// Lower case hexadecimal rendering of `n`, as `{:x}` formats it.
pub open spec fn hex_lower(n: nat) -> Seq<char> {
    digits(n, 16)
}

/// Decimal rendering of `n`, as `{}` formats it.
pub open spec fn decimal(n: nat) -> Seq<char> {
    digits(n, 10)
}

/// Appends a character to a string.
#[verifier::external_body]
pub(crate) fn push_char(s: &mut String, c: char)
    ensures
        final(s)@ == old(s)@.push(c),
{
    s.push(c);
}

/// Appends a string slice to a string.
#[verifier::external_body]
pub(crate) fn push_str(s: &mut String, t: &str)
    ensures
        final(s)@ == old(s)@ + t@,
{
    s.push_str(t);
}

fn exec_digit_char(d: u8) -> (c: char)
    requires
        d < 16,
    ensures
        c == digit_char(d as nat),
{
    if d < 10 {
        (d + 48) as char
    } else {
        (d - 10 + 97) as char
    }
}

proof fn lemma_digits_step(n: nat, radix: nat)
    requires
        radix >= 2,
        n >= radix,
    ensures
        digits(n, radix) == digits(n / radix, radix).push(digit_char(n % radix)),
{
}

/// Renders `n` in base `radix` (2 to 16), lower case, with no leading zeros.
pub fn render_digits(n: u128, radix: u8) -> (s: String)
    requires
        2 <= radix <= 16,
    ensures
        s@ == digits(n as nat, radix as nat),
{
    // collect the digits least significant first
    let mut rev: Vec<char> = Vec::new();
    let mut m: u128 = n;
    let r: u128 = radix as u128;
    while m >= r
        invariant
            2 <= r <= 16,
            r == radix,
            digits(n as nat, r as nat) == digits(m as nat, r as nat) + rev@.reverse(),
        decreases m,
    {
        let d: u8 = (m % r) as u8;
        let c = exec_digit_char(d);
        proof {
            lemma_digits_step(m as nat, r as nat);
            assert(rev@.push(c).reverse() =~= seq![c] + rev@.reverse());
            assert(digits(m as nat, r as nat) + rev@.reverse() =~= digits((m / r) as nat, r as nat)
                + (seq![c] + rev@.reverse()));
        }
        rev.push(c);
        m = m / r;
    }
    let c = exec_digit_char(m as u8);
    rev.push(c);
    proof {
        assert(digits(m as nat, r as nat) == seq![c]);
    }
    let mut s = String::new();
    let mut i: usize = rev.len();
    while i > 0
        invariant
            i <= rev.len(),
            s@ =~= rev@.reverse().subrange(0, (rev.len() - i) as int),
        decreases i,
    {
        i = i - 1;
        push_char(&mut s, rev[i]);
        proof {
            assert(rev@.reverse().subrange(0, (rev.len() - i) as int) =~= rev@.reverse().subrange(
                0,
                (rev.len() - i - 1) as int,
            ).push(rev@[i as int]));
        }
    }
    proof {
        assert(rev@.reverse().subrange(0, rev.len() as int) =~= rev@.reverse());
        assert(rev@ =~= (rev@.drop_last()).push(c));
        assert(rev@.reverse() =~= seq![c] + rev@.drop_last().reverse());
    }
    s
}

/// Appends the decimal rendering of `n` to a string.
pub fn push_decimal(s: &mut String, n: u128)
    ensures
        final(s)@ == old(s)@ + decimal(n as nat),
{
    let d = render_digits(n, 10);
    push_str(s, d.as_str());
}

/// Rust's debug rendering of a string (`{:?}`): the text in double quotes, escaped.
pub uninterp spec fn debug_quoted(s: Seq<char>) -> Seq<char>;

/// Renders a string as `format!("{:?}", s)` does. The result is named by `debug_quoted`.
#[verifier::external_body]
pub(crate) fn debug_text(s: &str) -> (r: String)
    ensures
        r@ == debug_quoted(s@),
{
    format!("{:?}", s)
}

} // verus!
