//! Elements of the prime field the virtual machine computes in, held as
//! their 32-byte big-endian form, and their decimal notation.

use cairo_vm::Felt252;
use vstd::prelude::*;
use vstd::slice::*;
use vstd::string::*;

use crate::decimal::{all_digits, decimal_text, digit_value, digits_value, is_digit, lemma_digits_value_push};

verus! {

/// The order of the field: `2^251 + 17 * 2^192 + 1`.
pub open spec fn field_prime() -> nat {
    0x800000000000011000000000000000000000000000000000000000000000001nat
}

/// The 64-bit word that the eight bytes from index `k` on write, the first
/// byte being the most significant.
pub open spec fn word_at(bytes: Seq<u8>, k: int) -> nat {
    (bytes[k] as nat) * 0x100000000000000 + (bytes[k + 1] as nat) * 0x1000000000000 + (bytes[k
        + 2] as nat) * 0x10000000000 + (bytes[k + 3] as nat) * 0x100000000 + (bytes[k + 4] as nat)
        * 0x1000000 + (bytes[k + 5] as nat) * 0x10000 + (bytes[k + 6] as nat) * 0x100 + (bytes[k
        + 7] as nat)
}

/// The number that 32 bytes write, the first byte being the most
/// significant.
pub open spec fn be_value(bytes: Seq<u8>) -> nat
    recommends
        bytes.len() == 32,
{
    word_at(bytes, 0) * 0x1000000000000000000000000000000000000000000000000nat + word_at(bytes, 8)
        * 0x100000000000000000000000000000000nat + word_at(bytes, 16) * 0x10000000000000000 + word_at(
        bytes,
        24,
    )
}

/// The numbers that the decimal reader accepts lie below this bound,
/// `2^256`: it collects the digits in 256 bits.
pub open spec fn reader_bound() -> nat {
    0x10000000000000000000000000000000000000000000000000000000000000000nat
}

/// Whether the text starts with a minus sign.
pub open spec fn has_minus(s: Seq<char>) -> bool {
    s.len() > 0 && s[0] == '-'
}

/// The text without its minus sign, if it has one.
pub open spec fn magnitude_text(s: Seq<char>) -> Seq<char> {
    if has_minus(s) {
        s.subrange(1, s.len() as int)
    } else {
        s
    }
}

/// Whether the text is a decimal integer that the reader accepts: an
/// optional minus sign, then one or more digits that write a number below
/// [`reader_bound`].
pub open spec fn is_readable(s: Seq<char>) -> bool {
    let m = magnitude_text(s);
    m.len() > 0 && all_digits(m) && digits_value(m) < reader_bound()
}

/// The integer that a readable text writes.
pub open spec fn written_integer(s: Seq<char>) -> int {
    if has_minus(s) {
        -(digits_value(magnitude_text(s)) as int)
    } else {
        digits_value(magnitude_text(s)) as int
    }
}

/// The field element that a readable text denotes: the integer it writes,
/// modulo the prime.
pub open spec fn residue_of(s: Seq<char>) -> nat {
    (written_integer(s) % (field_prime() as int)) as nat
}

/// An element of the field, in canonical form: a number below the prime.
#[derive(Clone, Copy, Debug, PartialEq, Eq)]
pub struct FieldElement {
    bytes: [u8; 32],
}

impl View for FieldElement {
    type V = nat;

    closed spec fn view(&self) -> nat {
        be_value(self.bytes@)
    }
}

/// Ten to the power 26: three such chunks hold 78 decimal digits.
const CHUNK: u128 = 100000000000000000000000000;

/// The decimal digits of `2^256`, in three chunks of 26 digits.
const BOUND_HIGH: u128 = 11579208923731619542357098;

const BOUND_MIDDLE: u128 = 50086879078532699846656405;

const BOUND_LOW: u128 = 64039457584007913129639936;

/// Whether the bytes from `start` on are decimal digits, at least one, that
/// write a number below [`reader_bound`]. `s` is the text that the bytes
/// encode, one byte for each character.
fn digits_below_bound(bytes: &[u8], start: usize, Ghost(s): Ghost<Seq<char>>) -> (ok: bool)
    requires
        start <= bytes@.len(),
        bytes@.len() == s.len(),
        forall|i: int| 0 <= i < s.len() ==> '\0' <= #[trigger] s[i] <= '\u{7f}',
        forall|i: int| 0 <= i < s.len() ==> bytes@[i] == #[trigger] s[i] as u8,
    ensures
        ok == {
            let m = s.subrange(start as int, s.len() as int);
            m.len() > 0 && all_digits(m) && digits_value(m) < reader_bound()
        },
{
    let n: usize = bytes.len();
    let ghost m = s.subrange(start as int, s.len() as int);
    let mut high: u128 = 0;
    let mut middle: u128 = 0;
    let mut low: u128 = 0;
    let mut over: bool = false;
    let mut i: usize = start;
    assert(s.subrange(start as int, start as int) =~= Seq::<char>::empty());
    while i < n
        invariant
            start <= i <= n,
            n == bytes@.len(),
            n == s.len(),
            m == s.subrange(start as int, s.len() as int),
            forall|k: int| 0 <= k < s.len() ==> '\0' <= #[trigger] s[k] <= '\u{7f}',
            forall|k: int| 0 <= k < s.len() ==> bytes@[k] == #[trigger] s[k] as u8,
            all_digits(s.subrange(start as int, i as int)),
            high < CHUNK,
            middle < CHUNK,
            low < CHUNK,
            !over ==> digits_value(s.subrange(start as int, i as int)) == high * CHUNK * CHUNK
                + middle * CHUNK + low,
            over ==> digits_value(s.subrange(start as int, i as int)) >= CHUNK * CHUNK * CHUNK,
        decreases n - i,
    {
        let byte: u8 = bytes[i];
        let ghost c = s[i as int];
        let ghost before = s.subrange(start as int, i as int);
        let ghost after = s.subrange(start as int, i + 1);
        assert(byte == c as u8);
        if byte < 48 || byte > 57 {
            assert(!is_digit(c));
            assert(m[i - start] == c);
            return false;
        }
        assert(is_digit(c));
        proof {
            assert(after =~= before.push(c));
            lemma_digits_value_push(before, c);
            assert forall|k: int| 0 <= k < after.len() implies is_digit(#[trigger] after[k]) by {
                if k < before.len() {
                    assert(after[k] == before[k]);
                }
            }
        }
        let d: u128 = (byte - 48) as u128;
        assert(d == digit_value(c));
        let low_sum: u128 = low * 10 + d;
        let middle_sum: u128 = middle * 10 + low_sum / CHUNK;
        let high_sum: u128 = high * 10 + middle_sum / CHUNK;
        low = low_sum % CHUNK;
        middle = middle_sum % CHUNK;
        if high_sum >= CHUNK {
            over = true;
        }
        high = high_sum % CHUNK;
        i = i + 1;
    }
    assert(s.subrange(start as int, i as int) =~= m);
    if i == start || over {
        return false;
    }
    high < BOUND_HIGH || (high == BOUND_HIGH && (middle < BOUND_MIDDLE || (middle == BOUND_MIDDLE
        && low < BOUND_LOW)))
}

/// A text that the reader accepts holds ASCII characters only.
proof fn lemma_readable_is_ascii(s: Seq<char>)
    requires
        is_readable(s),
    ensures
        forall|i: int| 0 <= i < s.len() ==> '\0' <= #[trigger] s[i] <= '\u{7f}',
{
    let m = magnitude_text(s);
    assert forall|i: int| 0 <= i < s.len() implies '\0' <= #[trigger] s[i] <= '\u{7f}' by {
        if has_minus(s) {
            if i > 0 {
                assert(is_digit(m[i - 1]));
            }
        } else {
            assert(is_digit(m[i]));
        }
    }
}

/// `Felt252::from_dec_str`, then `Felt252::to_bytes_be`. The first reads an
/// optional minus sign and then decimal digits into 256 bits, and reduces
/// the number (negated after a minus sign) modulo the prime; on a text that
/// [`is_readable`] it returns `Ok`. The second gives the canonical
/// representative, a number below the prime, as 32 big-endian bytes.
#[verifier::external_body]
fn felt_from_decimal(text: &str) -> (r: Option<FieldElement>)
    requires
        is_readable(text@),
    ensures
        r is Some,
        r->0@ == residue_of(text@),
{
    match Felt252::from_dec_str(text) {
        Ok(felt) => Some(FieldElement::from_canonical(felt.to_bytes_be())),
        Err(_) => None,
    }
}

/// `Felt252::from_bytes_be`, then its `Display`. The first takes the number
/// that the 32 bytes write modulo the prime; the second writes the canonical
/// representative in decimal, without sign or leading zeros.
#[verifier::external_body]
fn felt_to_decimal(bytes: &[u8; 32]) -> (r: String)
    ensures
        r@ == decimal_text(be_value(bytes@) % field_prime()),
{
    Felt252::from_bytes_be(bytes).to_string()
}

impl FieldElement {
    #[verifier::type_invariant]
    closed spec fn canonical(self) -> bool {
        be_value(self.bytes@) < field_prime()
    }

    /// The additive identity.
    pub fn zero() -> (r: FieldElement)
        ensures
            r@ == 0,
    {
        FieldElement { bytes: [0u8; 32] }
    }

    /// The element that `v` denotes.
    pub fn from_u64(v: u64) -> (r: FieldElement)
        ensures
            r@ == v,
    {
        let q1: u64 = v / 256;
        let q2: u64 = q1 / 256;
        let q3: u64 = q2 / 256;
        let q4: u64 = q3 / 256;
        let q5: u64 = q4 / 256;
        let q6: u64 = q5 / 256;
        let q7: u64 = q6 / 256;
        let b7: u8 = (v % 256) as u8;
        let b6: u8 = (q1 % 256) as u8;
        let b5: u8 = (q2 % 256) as u8;
        let b4: u8 = (q3 % 256) as u8;
        let b3: u8 = (q4 % 256) as u8;
        let b2: u8 = (q5 % 256) as u8;
        let b1: u8 = (q6 % 256) as u8;
        let b0: u8 = q7 as u8;
        let bytes: [u8; 32] = [
            0, 0, 0, 0, 0, 0, 0, 0,
            0, 0, 0, 0, 0, 0, 0, 0,
            0, 0, 0, 0, 0, 0, 0, 0,
            b0, b1, b2, b3, b4, b5, b6, b7,
        ];
        assert(q6 == q7 * 256 + b1);
        assert(q4 == q6 * 0x10000 + b2 * 0x100 + b3);
        assert(q2 == q4 * 0x10000 + b4 * 0x100 + b5);
        assert(v == q2 * 0x10000 + b6 * 0x100 + b7);
        assert(word_at(bytes@, 0) == 0);
        assert(word_at(bytes@, 8) == 0);
        assert(word_at(bytes@, 16) == 0);
        assert(word_at(bytes@, 24) == v);
        FieldElement { bytes }
    }

    /// The element whose canonical form is `bytes`, read as a big-endian
    /// number; `None` where that number is not below the prime.
    pub fn from_bytes_be(bytes: [u8; 32]) -> (r: Option<FieldElement>)
        ensures
            r is Some <==> be_value(bytes@) < field_prime(),
            r is Some ==> r->0@ == be_value(bytes@),
            r is Some ==> r->0.bytes_be() == bytes@,
    {
        let w0: u64 = word_from(&bytes, 0);
        let w1: u64 = word_from(&bytes, 8);
        let w2: u64 = word_from(&bytes, 16);
        let w3: u64 = word_from(&bytes, 24);
        if w0 < 0x800000000000011 || (w0 == 0x800000000000011 && w1 == 0 && w2 == 0 && w3 == 0) {
            Some(FieldElement { bytes })
        } else {
            None
        }
    }

    /// The element whose canonical form is `bytes`.
    pub(crate) fn from_canonical(bytes: [u8; 32]) -> (r: FieldElement)
        requires
            be_value(bytes@) < field_prime(),
        ensures
            r@ == be_value(bytes@),
            r.bytes_be() == bytes@,
    {
        FieldElement { bytes }
    }

    /// The canonical form as a sequence of 32 big-endian bytes.
    pub closed spec fn bytes_be(&self) -> Seq<u8> {
        self.bytes@
    }

    /// The canonical form: 32 bytes that write the element's number, the
    /// first byte being the most significant.
    pub fn to_bytes_be(&self) -> (r: [u8; 32])
        ensures
            r@ == self.bytes_be(),
            be_value(r@) == self@,
            self@ < field_prime(),
    {
        proof {
            use_type_invariant(self);
        }
        self.bytes
    }

    /// Reads a decimal integer: an optional minus sign, then digits. `None`
    /// where the text is anything else, or writes a number that the reader's
    /// 256 bits cannot hold.
    pub fn from_decimal(text: &str) -> (r: Option<FieldElement>)
        ensures
            r is Some <==> is_readable(text@),
            r is Some ==> r->0@ == residue_of(text@),
    {
        if !text.is_ascii() {
            proof {
                if is_readable(text@) {
                    lemma_readable_is_ascii(text@);
                }
            }
            return None;
        }
        let bytes = text.as_bytes();
        proof {
            is_ascii_spec_bytes(text);
        }
        let start: usize = if bytes.len() > 0 && bytes[0] == 45 {
            1
        } else {
            0
        };
        assert(has_minus(text@) <==> start == 1);
        assert(text@.subrange(0, text@.len() as int) =~= text@);
        if digits_below_bound(bytes, start, Ghost(text@)) {
            felt_from_decimal(text)
        } else {
            None
        }
    }

    /// The element's number in canonical decimal notation.
    pub fn to_decimal(&self) -> (r: String)
        ensures
            r@ == decimal_text(self@),
    {
        proof {
            use_type_invariant(self);
        }
        felt_to_decimal(&self.bytes)
    }
}

/// The 64-bit word that the eight bytes from index `k` on write.
fn word_from(bytes: &[u8; 32], k: usize) -> (w: u64)
    requires
        k + 8 <= 32,
    ensures
        w == word_at(bytes@, k as int),
{
    (bytes[k] as u64) * 0x100000000000000 + (bytes[k + 1] as u64) * 0x1000000000000 + (bytes[k
        + 2] as u64) * 0x10000000000 + (bytes[k + 3] as u64) * 0x100000000 + (bytes[k + 4] as u64)
        * 0x1000000 + (bytes[k + 5] as u64) * 0x10000 + (bytes[k + 6] as u64) * 0x100 + (bytes[k
        + 7] as u64)
}

} // verus!
