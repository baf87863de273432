//! Base58 text for keys and other binary data.
use crate::errors::{Error, Id, IsError, Level};
use crate::events::ModuleSource;
use vstd::prelude::*;

verus! {

/// The Bitcoin base58 alphabet: the character of each digit `0 <= d < 58`, in the order
/// `123456789ABCDEFGHJKLMNPQRSTUVWXYZabcdefghijkmnopqrstuvwxyz`.
pub open spec fn base58_char(d: int) -> char {
    if d < 9 {
        (49 + d) as char
    } else if d < 17 {
        (56 + d) as char
    } else if d < 22 {
        (57 + d) as char
    } else if d < 33 {
        (58 + d) as char
    } else if d < 44 {
        (64 + d) as char
    } else {
        (65 + d) as char
    }
}

/// Whether the character is a base58 digit.
pub open spec fn is_base58_char(c: char) -> bool {
    let x = c as int;
    ||| 49 <= x <= 57
    ||| 65 <= x <= 72
    ||| 74 <= x <= 78
    ||| 80 <= x <= 90
    ||| 97 <= x <= 107
    ||| 109 <= x <= 122
}

/// Whether every character of the text is a base58 digit.
pub open spec fn is_base58(t: Seq<char>) -> bool {
    forall|i: int| 0 <= i < t.len() ==> is_base58_char(#[trigger] t[i])
}

/// The number that the bytes stand for, most significant byte first.
pub open spec fn bytes_value(b: Seq<u8>) -> nat
    decreases b.len(),
{
    if b.len() == 0 {
        0
    } else {
        bytes_value(b.drop_last()) * 256 + b.last() as nat
    }
}

/// The number of zero bytes that the bytes start with.
pub open spec fn leading_zeros(b: Seq<u8>) -> nat
    decreases b.len(),
{
    if b.len() > 0 && b[0] == 0 {
        1 + leading_zeros(b.drop_first())
    } else {
        0
    }
}

/// The base58 digits of `n`, most significant first; none for zero.
pub open spec fn base58_digits(n: nat) -> Seq<char>
    decreases n,
{
    if n == 0 {
        seq![]
    } else {
        base58_digits(n / 58).push(base58_char((n % 58) as int))
    }
}

/// The base58 text of the given bytes: a `1` for each zero byte that they start with, then the
/// base58 digits of the number that they stand for.
pub open spec fn base58_text(bytes: Seq<u8>) -> Seq<char> {
    Seq::new(leading_zeros(bytes), |i: int| '1') + base58_digits(bytes_value(bytes))
}

/// The text of the error that the base58 decoder (bs58) gives for a text that is not base58.
pub uninterp spec fn base58_decode_error(text: Seq<char>) -> Seq<char>;

/// `bs58::encode(bytes).into_string()`: the Bitcoin alphabet's `1` for each leading zero byte,
/// then the base58 digits of the bytes' big-endian number.
#[verifier::external_body]
fn bs58_encode(bytes: &[u8]) -> (s: String)
    ensures
        s@ == base58_text(bytes@),
{
    bs58::encode(bytes).into_string()
}

/// `bs58::decode(text).into_vec()`, the error taken by its text: a text of base58 digits
/// decodes to the bytes whose base58 text it is (its leading `1`s become zero bytes, the rest
/// the big-endian bytes of its number, with no leading zero); any other character is an error,
/// whose text is named by `base58_decode_error`.
#[verifier::external_body]
fn bs58_decode(text: &str) -> (r: Result<Vec<u8>, String>)
    ensures
        r is Ok <==> is_base58(text@),
        r matches Ok(v) ==> base58_text(v@) == text@,
        r matches Err(m) ==> m@ == base58_decode_error(text@),
{
    match bs58::decode(text).into_vec() {
        Ok(v) => Ok(v),
        Err(err) => Err(err.to_string()),
    }
}

proof fn lemma_char(d: int)
    requires
        0 <= d < 58,
    ensures
        is_base58_char(base58_char(d)),
        base58_char(d) == '1' <==> d == 0,
{
}

proof fn lemma_char_injective(a: int, b: int)
    requires
        0 <= a < 58,
        0 <= b < 58,
        base58_char(a) == base58_char(b),
    ensures
        a == b,
{
}

/// The digits of a positive number are base58 digits, and the first is not `1`.
proof fn lemma_digits(n: nat)
    ensures
        is_base58(base58_digits(n)),
        n > 0 ==> base58_digits(n).len() > 0 && base58_digits(n)[0] != '1',
        n == 0 ==> base58_digits(n).len() == 0,
    decreases n,
{
    if n > 0 {
        lemma_digits(n / 58);
        lemma_char((n % 58) as int);
        let d = base58_digits(n);
        assert forall|i: int| 0 <= i < d.len() implies is_base58_char(#[trigger] d[i]) by {
            if i < d.len() - 1 {
                assert(d[i] == base58_digits(n / 58)[i]);
            }
        }
    }
}

proof fn lemma_digits_injective(n: nat, m: nat)
    requires
        base58_digits(n) == base58_digits(m),
    ensures
        n == m,
    decreases n,
{
    lemma_digits(n);
    lemma_digits(m);
    if n > 0 && m > 0 {
        let dn = base58_digits(n);
        let dm = base58_digits(m);
        assert(dn.last() == base58_char((n % 58) as int));
        assert(dm.last() == base58_char((m % 58) as int));
        lemma_char_injective((n % 58) as int, (m % 58) as int);
        assert(dn.drop_last() =~= base58_digits(n / 58));
        assert(dm.drop_last() =~= base58_digits(m / 58));
        lemma_digits_injective(n / 58, m / 58);
    }
}

/// The zero bytes that the bytes start with, and the byte after them.
proof fn lemma_leading_zeros(b: Seq<u8>)
    ensures
        leading_zeros(b) <= b.len(),
        forall|i: int| 0 <= i < leading_zeros(b) ==> b[i] == 0,
        leading_zeros(b) < b.len() ==> b[leading_zeros(b) as int] != 0,
    decreases b.len(),
{
    if b.len() > 0 && b[0] == 0 {
        lemma_leading_zeros(b.drop_first());
        assert forall|i: int| 0 <= i < leading_zeros(b) implies b[i] == 0 by {
            if i > 0 {
                assert(b[i] == b.drop_first()[i - 1]);
            }
        }
    }
}

/// A zero byte in front does not change the number.
proof fn lemma_value_zero_front(r: Seq<u8>)
    ensures
        bytes_value(seq![0u8] + r) == bytes_value(r),
    decreases r.len(),
{
    let s = seq![0u8] + r;
    if r.len() > 0 {
        assert(s.drop_last() =~= seq![0u8] + r.drop_last());
        assert(s.last() == r.last());
        lemma_value_zero_front(r.drop_last());
        assert(bytes_value(s) == bytes_value(s.drop_last()) * 256 + s.last() as nat);
    } else {
        assert(s.drop_last() =~= Seq::<u8>::empty());
        assert(bytes_value(s.drop_last()) == 0);
        assert(bytes_value(s) == bytes_value(s.drop_last()) * 256 + s.last() as nat);
    }
}

/// The number of the bytes is the number of the bytes after their leading zeros.
proof fn lemma_value_skip_zeros(b: Seq<u8>)
    ensures
        leading_zeros(b) <= b.len(),
        bytes_value(b) == bytes_value(b.subrange(leading_zeros(b) as int, b.len() as int)),
    decreases b.len(),
{
    if b.len() > 0 && b[0] == 0 {
        let t = b.drop_first();
        lemma_value_skip_zeros(t);
        assert(b =~= seq![0u8] + t);
        lemma_value_zero_front(t);
        assert(b.subrange(leading_zeros(b) as int, b.len() as int) =~= t.subrange(
            leading_zeros(t) as int,
            t.len() as int,
        ));
    } else {
        assert(b.subrange(0, b.len() as int) =~= b);
    }
}

/// Bytes that start with a non-zero byte stand for a positive number.
proof fn lemma_value_positive(s: Seq<u8>)
    requires
        s.len() > 0,
        s[0] != 0,
    ensures
        bytes_value(s) > 0,
    decreases s.len(),
{
    if s.len() > 1 {
        assert(s.drop_last()[0] == s[0]);
        lemma_value_positive(s.drop_last());
    }
}

/// Bytes with no leading zero are told apart by their number.
proof fn lemma_value_injective(s: Seq<u8>, t: Seq<u8>)
    requires
        s.len() == 0 || s[0] != 0,
        t.len() == 0 || t[0] != 0,
        bytes_value(s) == bytes_value(t),
    ensures
        s == t,
    decreases s.len() + t.len(),
{
    if s.len() == 0 && t.len() > 0 {
        lemma_value_positive(t);
    } else if s.len() > 0 && t.len() == 0 {
        lemma_value_positive(s);
    } else if s.len() > 0 && t.len() > 0 {
        let x = bytes_value(s.drop_last());
        let y = bytes_value(t.drop_last());
        assert(x * 256 + s.last() == y * 256 + t.last());
        assert(s.last() == t.last() && x == y) by (nonlinear_arith)
            requires
                x * 256 + s.last() == y * 256 + t.last(),
                s.last() < 256,
                t.last() < 256,
        ;
        if s.drop_last().len() > 0 {
            assert(s.drop_last()[0] == s[0]);
        }
        if t.drop_last().len() > 0 {
            assert(t.drop_last()[0] == t[0]);
        }
        lemma_value_injective(s.drop_last(), t.drop_last());
        assert(s =~= s.drop_last().push(s.last()));
        assert(t =~= t.drop_last().push(t.last()));
    } else {
        assert(s =~= t);
    }
}

/// The bytes are their leading zeros followed by the rest, which starts with a non-zero byte.
proof fn lemma_split(b: Seq<u8>)
    ensures
        leading_zeros(b) <= b.len(),
        b =~= Seq::new(leading_zeros(b), |i: int| 0u8) + b.subrange(leading_zeros(b) as int, b.len() as int),
        b.subrange(leading_zeros(b) as int, b.len() as int).len() == 0 || b.subrange(
            leading_zeros(b) as int,
            b.len() as int,
        )[0] != 0,
{
    lemma_leading_zeros(b);
}

/// Base58 text tells bytes apart, and is made of base58 digits: decoding gives back the
/// bytes that were encoded.
pub proof fn law_base58_roundtrip(bytes: Seq<u8>, decoded: Seq<u8>)
    ensures
        is_base58(base58_text(bytes)),
        base58_text(decoded) == base58_text(bytes) ==> decoded == bytes,
{
    let t = base58_text(bytes);
    lemma_digits(bytes_value(bytes));
    assert forall|i: int| 0 <= i < t.len() implies is_base58_char(#[trigger] t[i]) by {
        lemma_char(0);
        if i >= leading_zeros(bytes) {
            assert(t[i] == base58_digits(bytes_value(bytes))[i - leading_zeros(bytes)]);
        }
    }
    if base58_text(decoded) == t {
        let a = bytes;
        let b = decoded;
        let za = leading_zeros(a);
        let zb = leading_zeros(b);
        let va = bytes_value(a);
        let vb = bytes_value(b);
        lemma_digits(va);
        lemma_digits(vb);
        if za < zb {
            assert(base58_text(b)[za as int] == '1');
            assert(t.len() > za);
            assert(base58_digits(va).len() > 0);
            assert(t[za as int] == base58_digits(va)[0]);
        } else if zb < za {
            assert(t[zb as int] == '1');
            assert(base58_text(b).len() > zb);
            assert(base58_digits(vb).len() > 0);
            assert(base58_text(b)[zb as int] == base58_digits(vb)[0]);
        }
        assert(za == zb);
        assert(base58_digits(va) =~= t.subrange(za as int, t.len() as int));
        assert(base58_digits(vb) =~= base58_text(b).subrange(zb as int, t.len() as int));
        lemma_digits_injective(va, vb);
        lemma_value_skip_zeros(a);
        lemma_value_skip_zeros(b);
        lemma_split(a);
        lemma_split(b);
        let ra = a.subrange(za as int, a.len() as int);
        let rb = b.subrange(zb as int, b.len() as int);
        lemma_value_injective(ra, rb);
        assert(a =~= b);
    }
}

/// Encodes the bytes as base58 text.
pub fn encode(bytes: &[u8]) -> (s: String)
    ensures
        s@ == base58_text(bytes@),
{
    bs58_encode(bytes)
}

/// Base58 decoding failure: the decoder's error text.
pub struct DecodeError(pub String);

impl DecodeError {
    /// Error ID(01CY9KFG3YQKD3WT1Y16DSZ74S)
    pub const ERR_ID: u128 = 1867020503549016568488932545115692185;
}

impl IsError for DecodeError {
    open spec fn spec_error_id(&self) -> Id {
        Id(Self::ERR_ID)
    }

    open spec fn spec_error_level(&self) -> Level {
        Level::Error
    }

    open spec fn spec_error_message(&self) -> Seq<char> {
        self.0@
    }

    fn error_id(&self) -> (r: Id) {
        Id(Self::ERR_ID)
    }

    fn error_level(&self) -> (r: Level) {
        Level::Error
    }

    fn error_message(&self) -> (r: String) {
        self.0.clone()
    }
}

/// Decodes base58 text into the bytes whose base58 text it is (see [`law_base58_roundtrip`]:
/// there is one such byte string); a text that is not base58 gives an error with the
/// `DecodeError` id and the decoder's error text.
pub fn decode(key: &str) -> (r: Result<Vec<u8>, Error>)
    ensures
        r is Ok <==> is_base58(key@),
        r matches Ok(v) ==> base58_text(v@) == key@,
        r matches Err(e) ==> {
            &&& e.spec_id() == Id(DecodeError::ERR_ID)
            &&& e.spec_level() == Level::Error
            &&& e.spec_message() == base58_decode_error(key@)
        },
{
    match bs58_decode(key) {
        Ok(v) => Ok(v),
        Err(msg) => {
            let err = DecodeError(msg);
            Err(err.to_error(ModuleSource::new("oysterpack::message::base58", 404)))
        },
    }
}

} // verus!
