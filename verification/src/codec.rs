//! The 16-byte identifier type: decoding from a byte buffer, rendering as
//! the canonical hyphenated string, and the version / variant bit stamps.

use vstd::prelude::*;
use vstd::string::StringExecFns;

verus! {

/// The lowercase hex digit for a nibble.
pub open spec fn hex_char(n: u8) -> char {
    if n == 0 {
        '0'
    } else if n == 1 {
        '1'
    } else if n == 2 {
        '2'
    } else if n == 3 {
        '3'
    } else if n == 4 {
        '4'
    } else if n == 5 {
        '5'
    } else if n == 6 {
        '6'
    } else if n == 7 {
        '7'
    } else if n == 8 {
        '8'
    } else if n == 9 {
        '9'
    } else if n == 10 {
        'a'
    } else if n == 11 {
        'b'
    } else if n == 12 {
        'c'
    } else if n == 13 {
        'd'
    } else if n == 14 {
        'e'
    } else {
        'f'
    }
}

/// The two lowercase hex digits of a byte, high nibble first.
pub open spec fn hex_pair(b: u8) -> Seq<char> {
    seq![hex_char(b / 16), hex_char(b % 16)]
}

/// The hex rendering of the bytes `s[lo..hi]`, two digits each, no separator.
pub open spec fn hex_group(s: Seq<u8>, lo: int, hi: int) -> Seq<char>
    decreases hi - lo,
{
    if lo >= hi {
        Seq::empty()
    } else {
        hex_pair(s[lo]) + hex_group(s, lo + 1, hi)
    }
}

/// The canonical hyphenated lowercase form of 16 bytes: the byte ranges
/// `[0..4]`, `[4..6]`, `[6..8]`, `[8..10]` and `[10..16]` in hex, joined
/// by hyphens.
pub open spec fn canonical_of(s: Seq<u8>) -> Seq<char> {
    hex_group(s, 0, 4) + seq!['-'] + hex_group(s, 4, 6) + seq!['-'] + hex_group(s, 6, 8)
        + seq!['-'] + hex_group(s, 8, 10) + seq!['-'] + hex_group(s, 10, 16)
}

/// A character of the canonical form that is not a hyphen.
pub open spec fn is_hex_digit(c: char) -> bool {
    c == '0' || c == '1' || c == '2' || c == '3' || c == '4' || c == '5' || c == '6' || c == '7'
        || c == '8' || c == '9' || c == 'a' || c == 'b' || c == 'c' || c == 'd' || c == 'e'
        || c == 'f'
}

proof fn lemma_hex_group_len(s: Seq<u8>, lo: int, hi: int)
    requires
        lo <= hi,
    ensures
        hex_group(s, lo, hi).len() == 2 * (hi - lo),
    decreases hi - lo,
{
    if lo < hi {
        lemma_hex_group_len(s, lo + 1, hi);
    }
}

proof fn lemma_hex_group_digits(s: Seq<u8>, lo: int, hi: int)
    requires
        lo <= hi,
    ensures
        forall|i: int|
            0 <= i < hex_group(s, lo, hi).len() ==> is_hex_digit(#[trigger] hex_group(s, lo, hi)[i]),
    decreases hi - lo,
{
    if lo < hi {
        lemma_hex_group_digits(s, lo + 1, hi);
        lemma_hex_group_len(s, lo + 1, hi);
        assert forall|i: int| 0 <= i < hex_group(s, lo, hi).len() implies is_hex_digit(
            hex_group(s, lo, hi)[i],
        ) by {
            if i < 2 {
                assert(hex_group(s, lo, hi)[i] == hex_pair(s[lo])[i]);
            } else {
                assert(hex_group(s, lo, hi)[i] == hex_group(s, lo + 1, hi)[i - 2]);
            }
        }
    }
}

proof fn lemma_hex_group_snoc(s: Seq<u8>, lo: int, hi: int)
    requires
        lo <= hi,
    ensures
        hex_group(s, lo, hi + 1) == hex_group(s, lo, hi) + hex_pair(s[hi]),
    decreases hi - lo,
{
    if lo >= hi {
        assert(hex_group(s, lo + 1, hi + 1) =~= Seq::<char>::empty());
        assert(hex_group(s, lo, hi + 1) =~= hex_pair(s[lo]) + Seq::<char>::empty());
        assert(hex_group(s, lo, hi + 1) =~= hex_group(s, lo, hi) + hex_pair(s[hi]));
    } else {
        lemma_hex_group_snoc(s, lo + 1, hi);
        vstd::seq_lib::lemma_concat_associative(
            hex_pair(s[lo]),
            hex_group(s, lo + 1, hi),
            hex_pair(s[hi]),
        );
    }
}

/// The canonical form of any 16 bytes is 36 characters long, with hyphens
/// exactly at positions 8, 13, 18 and 23 and a lowercase hex digit at every
/// other position.
pub proof fn lemma_canonical_format(s: Seq<u8>)
    requires
        s.len() == 16,
    ensures
        canonical_of(s).len() == 36,
        forall|i: int|
            0 <= i < 36 ==> {
                if i == 8 || i == 13 || i == 18 || i == 23 {
                    #[trigger] canonical_of(s)[i] == '-'
                } else {
                    is_hex_digit(canonical_of(s)[i])
                }
            },
{
    lemma_hex_group_len(s, 0, 4);
    lemma_hex_group_len(s, 4, 6);
    lemma_hex_group_len(s, 6, 8);
    lemma_hex_group_len(s, 8, 10);
    lemma_hex_group_len(s, 10, 16);
    lemma_hex_group_digits(s, 0, 4);
    lemma_hex_group_digits(s, 4, 6);
    lemma_hex_group_digits(s, 6, 8);
    lemma_hex_group_digits(s, 8, 10);
    lemma_hex_group_digits(s, 10, 16);
}

/// Error raised by [`Uuid::from_bytes`]: the input was not exactly 16 bytes
/// long; carries the length that was seen.
#[derive(Debug, Clone)]
pub enum ParseError {
    InvalidLength(usize),
}

/// A version-1 UUID: exactly 16 bytes, copied freely, immutable once built.
#[derive(Debug, Clone)]
pub struct Uuid([u8; 16]);

impl View for Uuid {
    type V = Seq<u8>;

    closed spec fn view(&self) -> Seq<u8> {
        self.0@
    }
}

/// The bytes of `b` with the version nibble `v` written into the high
/// nibble of byte 6, the low nibble kept.
pub open spec fn with_version(b: Seq<u8>, v: u8) -> Seq<u8> {
    b.update(6, (b[6] & 0x0F) | (v << 4))
}

/// The bytes of `b` with the RFC 4122 variant pattern `10` written into the
/// top two bits of byte 8, the low six bits kept.
pub open spec fn with_variant(b: Seq<u8>) -> Seq<u8> {
    b.update(8, (b[8] & 0x3F) | 0x80)
}

impl Uuid {
    /// Builds an identifier from a byte buffer; succeeds exactly when the
    /// buffer holds 16 bytes, and otherwise reports the length it saw.
    pub fn from_bytes(bytes: &[u8]) -> (r: Result<Uuid, ParseError>)
        ensures
            bytes@.len() == 16 ==> (r matches Ok(u) && u@ == bytes@),
            bytes@.len() != 16 ==> (r matches Err(e) && e == ParseError::InvalidLength(
                bytes@.len() as usize,
            )),
    {
        let len = bytes.len();
        if len != 16 {
            return Err(ParseError::InvalidLength(len));
        }
        let mut uuid = Uuid([0u8; 16]);
        copy_memory(&mut uuid.0, bytes);
        Ok(uuid)
    }

    /// A read-only view of the 16 bytes, without copying.
    pub fn as_bytes(&self) -> (r: &[u8])
        ensures
            r@ == self@,
    {
        self.0.as_slice()
    }

    /// Renders the identifier in the canonical hyphenated lowercase hex
    /// form, `xxxxxxxx-xxxx-xxxx-xxxx-xxxxxxxxxxxx`.
    pub fn to_string(&self) -> (r: String)
        ensures
            r@ == canonical_of(self@),
    {
        let mut r = String::new();
        append_hex_group(&mut r, &self.0, 0, 4);
        r.append(dash());
        append_hex_group(&mut r, &self.0, 4, 6);
        r.append(dash());
        append_hex_group(&mut r, &self.0, 6, 8);
        r.append(dash());
        append_hex_group(&mut r, &self.0, 8, 10);
        r.append(dash());
        append_hex_group(&mut r, &self.0, 10, 16);
        assert(r@ =~= canonical_of(self@));
        r
    }

    /// Writes the version number into the high nibble of byte 6.
    pub(crate) fn set_version(&mut self, v: u8)
        requires
            v < 16,
        ensures
            final(self)@ == with_version(old(self)@, v),
    {
        self.0[6] = (self.0[6] & 0x0F) | (v << 4);
    }

    /// Writes the RFC 4122 variant bits into the top of byte 8.
    pub(crate) fn set_variant(&mut self)
        ensures
            final(self)@ == with_variant(old(self)@),
    {
        self.0[8] = (self.0[8] & 0x3F) | 0x80;
    }
}

/// The hyphen that separates the groups of the canonical form.
fn dash() -> (r: &'static str)
    ensures
        r@ == seq!['-'],
{
    proof {
        reveal_strlit("-");
    }
    "-"
}

/// The one-character string for a nibble's lowercase hex digit.
fn hex_str(n: u8) -> (r: &'static str)
    requires
        n < 16,
    ensures
        r@ == seq![hex_char(n)],
{
    match n {
        0 => {
            proof { reveal_strlit("0"); }
            "0"
        },
        1 => {
            proof { reveal_strlit("1"); }
            "1"
        },
        2 => {
            proof { reveal_strlit("2"); }
            "2"
        },
        3 => {
            proof { reveal_strlit("3"); }
            "3"
        },
        4 => {
            proof { reveal_strlit("4"); }
            "4"
        },
        5 => {
            proof { reveal_strlit("5"); }
            "5"
        },
        6 => {
            proof { reveal_strlit("6"); }
            "6"
        },
        7 => {
            proof { reveal_strlit("7"); }
            "7"
        },
        8 => {
            proof { reveal_strlit("8"); }
            "8"
        },
        9 => {
            proof { reveal_strlit("9"); }
            "9"
        },
        10 => {
            proof { reveal_strlit("a"); }
            "a"
        },
        11 => {
            proof { reveal_strlit("b"); }
            "b"
        },
        12 => {
            proof { reveal_strlit("c"); }
            "c"
        },
        13 => {
            proof { reveal_strlit("d"); }
            "d"
        },
        14 => {
            proof { reveal_strlit("e"); }
            "e"
        },
        _ => {
            proof { reveal_strlit("f"); }
            "f"
        },
    }
}

/// Appends the hex rendering of `bytes[lo..hi]` to `out`.
fn append_hex_group(out: &mut String, bytes: &[u8; 16], lo: usize, hi: usize)
    requires
        lo <= hi <= 16,
    ensures
        final(out)@ == old(out)@ + hex_group(bytes@, lo as int, hi as int),
{
    let mut i: usize = lo;
    proof {
        assert(out@ =~= old(out)@ + hex_group(bytes@, lo as int, lo as int));
    }
    while i < hi
        invariant
            lo <= i <= hi <= 16,
            out@ == old(out)@ + hex_group(bytes@, lo as int, i as int),
        decreases hi - i,
    {
        let b = bytes[i];
        append_hex_pair(out, b);
        proof {
            lemma_hex_group_snoc(bytes@, lo as int, i as int);
            assert(out@ =~= old(out)@ + hex_group(bytes@, lo as int, i as int + 1));
        }
        i += 1;
    }
}

/// Appends the two hex digits of one byte to `out`.
fn append_hex_pair(out: &mut String, b: u8)
    ensures
        final(out)@ == old(out)@ + hex_pair(b),
{
    out.append(hex_str(b / 16));
    out.append(hex_str(b % 16));
    assert(out@ =~= old(out)@ + hex_pair(b));
}

/// Copies a 16-byte slice into a 16-byte buffer.
fn copy_memory(dst: &mut [u8; 16], src: &[u8])
    requires
        src@.len() == 16,
    ensures
        final(dst)@ == src@,
{
    let mut i: usize = 0;
    while i < 16
        invariant
            0 <= i <= 16,
            src@.len() == 16,
            forall|j: int| 0 <= j < i ==> dst@[j] == src@[j],
        decreases 16 - i,
    {
        dst[i] = src[i];
        i += 1;
    }
    assert(dst@ =~= src@);
}

} // verus!
