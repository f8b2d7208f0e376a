//! Blob identifiers and the text they are written as.
//!
//! An identifier is 32 bytes. As text it is the URL-safe base64 form of
//! those bytes without padding: 43 characters.

use vstd::prelude::*;

verus! {

/// The content-derived identifier of a blob.
#[derive(Clone, Copy, Debug, PartialEq, Eq)]
pub struct BlobId {
    pub bytes: [u8; 32],
}

/// The character that stands for a six-bit value in the URL-safe alphabet.
pub open spec fn sextet_char(v: int) -> char
    recommends
        0 <= v < 64,
{
    if v < 26 {
        (0x41 + v) as char
    } else if v < 52 {
        (0x61 + (v - 26)) as char
    } else if v < 62 {
        (0x30 + (v - 52)) as char
    } else if v == 62 {
        '-'
    } else {
        '_'
    }
}

/// The byte at `i`, or zero past the end.
pub open spec fn byte_or_zero(bytes: Seq<u8>, i: int) -> int {
    if 0 <= i < bytes.len() {
        bytes[i] as int
    } else {
        0
    }
}

/// The six-bit value written at position `i` of the text of `bytes`: every
/// three bytes give four values, most significant bits first.
pub open spec fn sextet_at(bytes: Seq<u8>, i: int) -> int {
    let b0 = byte_or_zero(bytes, 3 * (i / 4));
    let b1 = byte_or_zero(bytes, 3 * (i / 4) + 1);
    let b2 = byte_or_zero(bytes, 3 * (i / 4) + 2);
    if i % 4 == 0 {
        b0 / 4
    } else if i % 4 == 1 {
        (b0 % 4) * 16 + b1 / 16
    } else if i % 4 == 2 {
        (b1 % 16) * 4 + b2 / 64
    } else {
        b2 % 64
    }
}

/// Number of characters that `n` bytes are written as.
pub open spec fn encoded_len(n: nat) -> nat {
    ((4 * n + 2) / 3) as nat
}

/// URL-safe base64 without padding.
pub open spec fn base64_url(bytes: Seq<u8>) -> Seq<char> {
    Seq::new(encoded_len(bytes.len()), |i: int| sextet_char(sextet_at(bytes, i)))
}

impl BlobId {
    /// The text of this identifier.
    pub open spec fn text(self) -> Seq<char> {
        base64_url(self.bytes@)
    }

    /// The identifier that a text is read as: the one that is written as
    /// that text, where there is one.
    pub open spec fn of_text(text: Seq<char>) -> Option<BlobId> {
        if exists|id: BlobId| id.text() == text {
            Some(choose|id: BlobId| id.text() == text)
        } else {
            None
        }
    }
}

/// Distinct six-bit values are written as distinct characters.
proof fn lemma_sextet_char_injective(a: int, b: int)
    requires
        0 <= a < 64,
        0 <= b < 64,
        sextet_char(a) == sextet_char(b),
    ensures
        a == b,
{
}

/// The six-bit values of a text determine the bytes behind it.
proof fn lemma_sextets_determine_bytes(a: Seq<u8>, b: Seq<u8>)
    requires
        a.len() == b.len(),
        forall|i: int| 0 <= i < encoded_len(a.len()) ==> sextet_at(a, i) == sextet_at(b, i),
    ensures
        a == b,
{
    assert forall|j: int| 0 <= j < a.len() implies a[j] == b[j] by {
        let g = j / 3;
        let i0 = 4 * g;
        assert(sextet_at(a, i0) == sextet_at(b, i0));
        assert(sextet_at(a, i0 + 1) == sextet_at(b, i0 + 1));
        if j % 3 >= 1 {
            assert(sextet_at(a, i0 + 2) == sextet_at(b, i0 + 2));
        }
        if j % 3 == 2 {
            assert(sextet_at(a, i0 + 3) == sextet_at(b, i0 + 3));
        }
    }
    assert(a =~= b);
}

/// Byte strings of one length with the same text are the same.
pub proof fn lemma_base64_url_injective(a: Seq<u8>, b: Seq<u8>)
    requires
        a.len() == b.len(),
        base64_url(a) == base64_url(b),
    ensures
        a == b,
{
    assert forall|i: int| 0 <= i < encoded_len(a.len()) implies sextet_at(a, i) == sextet_at(
        b,
        i,
    ) by {
        assert(base64_url(a)[i] == sextet_char(sextet_at(a, i)));
        assert(base64_url(b)[i] == sextet_char(sextet_at(b, i)));
        lemma_sextet_char_injective(sextet_at(a, i), sextet_at(b, i));
    }
    lemma_sextets_determine_bytes(a, b);
}

/// The six-bit value that a character of the URL-safe alphabet stands for.
spec fn char_sextet(c: char) -> Option<int> {
    if 'A' <= c <= 'Z' {
        Some(c as int - 0x41)
    } else if 'a' <= c <= 'z' {
        Some(c as int - 0x61 + 26)
    } else if '0' <= c <= '9' {
        Some(c as int - 0x30 + 52)
    } else if c == '-' {
        Some(62)
    } else if c == '_' {
        Some(63)
    } else {
        None
    }
}

/// Reading a character undoes writing a six-bit value, and only characters
/// of the alphabet can be read.
proof fn lemma_char_sextet_inverse(c: char)
    ensures
        forall|v: int| 0 <= v < 64 ==> (#[trigger] sextet_char(v) == c <==> char_sextet(c) == Some(v)),
        char_sextet(c) matches Some(v) ==> 0 <= v < 64,
{
}

fn write_sextet(v: u8) -> (c: char)
    requires
        v < 64,
    ensures
        c == sextet_char(v as int),
{
    if v < 26 {
        (0x41u8 + v) as char
    } else if v < 52 {
        (0x61u8 + (v - 26)) as char
    } else if v < 62 {
        (0x30u8 + (v - 52)) as char
    } else if v == 62 {
        '-'
    } else {
        '_'
    }
}

fn read_sextet(c: u8) -> (r: Option<u8>)
    requires
        c < 128,
    ensures
        r matches Some(v) ==> char_sextet(c as char) == Some(v as int),
        r is None ==> char_sextet(c as char) is None,
{
    if 0x41 <= c && c <= 0x5a {
        Some(c - 0x41)
    } else if 0x61 <= c && c <= 0x7a {
        Some(c - 0x61 + 26)
    } else if 0x30 <= c && c <= 0x39 {
        Some(c - 0x30 + 52)
    } else if c == 0x2d {
        Some(62)
    } else if c == 0x5f {
        Some(63)
    } else {
        None
    }
}

fn byte_at(bytes: &[u8; 32], i: usize) -> (b: u8)
    ensures
        b == byte_or_zero(bytes@, i as int),
{
    if i < 32 {
        bytes[i]
    } else {
        0
    }
}

fn sextet(bytes: &[u8; 32], i: usize) -> (v: u8)
    requires
        i < 43,
    ensures
        v == sextet_at(bytes@, i as int),
        v < 64,
{
    let g: usize = i / 4;
    let b0: u8 = byte_at(bytes, 3 * g);
    let b1: u8 = byte_at(bytes, 3 * g + 1);
    let b2: u8 = byte_at(bytes, 3 * g + 2);
    if i % 4 == 0 {
        b0 / 4
    } else if i % 4 == 1 {
        (b0 % 4) * 16 + b1 / 16
    } else if i % 4 == 2 {
        (b1 % 16) * 4 + b2 / 64
    } else {
        b2 % 64
    }
}

impl BlobId {
    /// Writes this identifier as text.
    pub fn to_text(&self) -> (r: String)
        ensures
            r@ == self.text(),
    {
        let mut out = String::new();
        let mut i: usize = 0;
        while i < 43
            invariant
                i <= 43,
                out@.len() == i,
                forall|k: int| 0 <= k < i ==> out@[k] == sextet_char(sextet_at(self.bytes@, k)),
            decreases 43 - i,
        {
            let v: u8 = sextet(&self.bytes, i);
            out.push(write_sextet(v));
            i += 1;
        }
        assert(out@ =~= self.text());
        out
    }

    /// Reads an identifier from its text. Only the text that [`BlobId::to_text`]
    /// writes for an identifier is read as that identifier; any other text is
    /// read as none.
    pub fn parse(text: &str) -> (r: Option<BlobId>)
        ensures
            r == BlobId::of_text(text@),
            r matches Some(id) ==> id.text() == text@,
            r is None ==> forall|id: BlobId| id.text() != text@,
    {
        let r = BlobId::read(text);
        proof {
            if let Some(id) = r {
                lemma_text_identifies(id, BlobId::of_text(text@)->0);
            }
        }
        r
    }

    fn read(text: &str) -> (r: Option<BlobId>)
        ensures
            r matches Some(id) ==> id.text() == text@,
            r is None ==> forall|id: BlobId| id.text() != text@,
    {
        if !has_text_shape(text) {
            proof {
                lemma_text_needs_shape(text@);
            }
            return None;
        }
        let sextets = match read_sextets(text) {
            Some(sextets) => sextets,
            None => {
                proof {
                    let k = choose|k: int| 0 <= k < 43 && char_sextet(#[trigger] text@[k]) is None;
                    lemma_text_needs_alphabet(text@, k);
                }
                return None;
            },
        };
        if sextets[42] % 4 != 0 {
            proof {
                lemma_text_needs_clear_bits(text@, sextets@[42] as int);
            }
            return None;
        }
        let id = BlobId { bytes: bytes_from_sextets(&sextets) };
        proof {
            lemma_text_from_sextets(id, text@, sextets@);
        }
        Some(id)
    }
}

fn has_text_shape(text: &str) -> (r: bool)
    ensures
        r == (text@.len() == 43 && vstd::utf8::is_ascii_chars(text@)),
{
    proof {
        vstd::string::is_ascii_spec_bytes(text);
    }
    text.is_ascii() && text.as_bytes().len() == 43
}

/// Text whose characters stand for the six-bit values of an identifier's
/// bytes is the text of that identifier.
proof fn lemma_text_from_sextets(id: BlobId, text: Seq<char>, sextets: Seq<u8>)
    requires
        text.len() == 43,
        sextets.len() == 43,
        forall|k: int|
            0 <= k < 43 ==> (#[trigger] sextets[k]) < 64 && sextet_char(sextets[k] as int)
                == text[k],
        forall|j: int|
            0 <= j < 32 ==> (#[trigger] id.bytes@[j]) as int == byte_from_sextets(sextets, j),
        sextets[42] % 4 == 0,
    ensures
        id.text() == text,
{
    lemma_sextets_of_bytes(id.bytes@, sextets);
    assert forall|k: int| 0 <= k < 43 implies id.text()[k] == text[k] by {
        assert(sextet_at(id.bytes@, k) == sextets[k]);
    }
    assert(id.text() =~= text);
}

/// No identifier is written as text that has not 43 characters or holds
/// one that is not ASCII.
proof fn lemma_text_needs_shape(text: Seq<char>)
    requires
        text.len() != 43 || !vstd::utf8::is_ascii_chars(text),
    ensures
        forall|id: BlobId| id.text() != text,
{
    assert forall|id: BlobId| id.text() != text by {
        lemma_text_shape(id);
    }
}

/// No identifier is written as text that holds a character outside the
/// alphabet.
proof fn lemma_text_needs_alphabet(text: Seq<char>, k: int)
    requires
        0 <= k < 43,
        char_sextet(text[k]) is None,
    ensures
        forall|id: BlobId| id.text() != text,
{
    assert forall|id: BlobId| id.text() != text by {
        lemma_text_shape(id);
        lemma_char_sextet_inverse(text[k]);
        assert(id.text()[k] == sextet_char(sextet_at(id.bytes@, k)));
    }
}

/// No identifier is written as text whose last character sets bits that no
/// byte takes up.
proof fn lemma_text_needs_clear_bits(text: Seq<char>, last: int)
    requires
        text.len() == 43,
        0 <= last < 64,
        sextet_char(last) == text[42],
        last % 4 != 0,
    ensures
        forall|id: BlobId| id.text() != text,
{
    assert forall|id: BlobId| id.text() != text by {
        lemma_text_shape(id);
        assert(id.text()[42] == sextet_char(sextet_at(id.bytes@, 42)));
        if id.text() == text {
            lemma_sextet_char_injective(last, sextet_at(id.bytes@, 42));
        }
    }
}

fn read_sextets(text: &str) -> (r: Option<Vec<u8>>)
    requires
        text.is_ascii(),
        text@.len() == 43,
    ensures
        r matches Some(s) ==> s@.len() == 43 && forall|k: int|
            0 <= k < 43 ==> (#[trigger] s@[k]) < 64 && sextet_char(s@[k] as int) == text@[k],
        r is None ==> exists|k: int| 0 <= k < 43 && char_sextet(#[trigger] text@[k]) is None,
{
    let mut sextets: Vec<u8> = Vec::new();
    let mut i: usize = 0;
    while i < 43
        invariant
            i <= 43,
            text.is_ascii(),
            text@.len() == 43,
            sextets@.len() == i,
            forall|k: int|
                0 <= k < i ==> (#[trigger] sextets@[k]) < 64 && sextet_char(sextets@[k] as int)
                    == text@[k],
        decreases 43 - i,
    {
        let c: u8 = text.get_ascii(i);
        proof {
            lemma_char_sextet_inverse(text@[i as int]);
            assert(c as char == text@[i as int]);
        }
        match read_sextet(c) {
            Some(v) => {
                sextets.push(v);
            },
            None => {
                return None;
            },
        }
        i += 1;
    }
    Some(sextets)
}

fn bytes_from_sextets(sextets: &Vec<u8>) -> (bytes: [u8; 32])
    requires
        sextets@.len() == 43,
        forall|k: int| 0 <= k < 43 ==> (#[trigger] sextets@[k]) < 64,
    ensures
        forall|j: int| 0 <= j < 32 ==> (#[trigger] bytes@[j]) as int == byte_from_sextets(sextets@, j),
{
    let mut bytes: [u8; 32] = [0u8; 32];
    let mut j: usize = 0;
    while j < 32
        invariant
            j <= 32,
            sextets@.len() == 43,
            forall|k: int| 0 <= k < 43 ==> (#[trigger] sextets@[k]) < 64,
            forall|k: int|
                0 <= k < j ==> (#[trigger] bytes@[k]) as int == byte_from_sextets(sextets@, k),
        decreases 32 - j,
    {
        let g: usize = j / 3;
        let s0: u8 = sextets[4 * g];
        let s1: u8 = sextets[4 * g + 1];
        let s2: u8 = sextets[4 * g + 2];
        let b: u8 = if j % 3 == 0 {
            s0 * 4 + s1 / 16
        } else if j % 3 == 1 {
            (s1 % 16) * 16 + s2 / 4
        } else {
            let s3: u8 = sextets[4 * g + 3];
            (s2 % 4) * 64 + s3
        };
        bytes[j] = b;
        j += 1;
    }
    bytes
}

/// Bytes put together from six-bit values are written as those values again,
/// provided the last value leaves the bits unset that no byte takes up.
proof fn lemma_sextets_of_bytes(bytes: Seq<u8>, sextets: Seq<u8>)
    requires
        bytes.len() == 32,
        sextets.len() == 43,
        forall|k: int| 0 <= k < 43 ==> (#[trigger] sextets[k]) < 64,
        forall|j: int| 0 <= j < 32 ==> (#[trigger] bytes[j]) as int == byte_from_sextets(sextets, j),
        sextets[42] % 4 == 0,
    ensures
        forall|k: int| 0 <= k < 43 ==> sextet_at(bytes, k) == #[trigger] sextets[k],
{
    assert forall|k: int| 0 <= k < 43 implies sextet_at(bytes, k) == #[trigger] sextets[k] by {
        let g = k / 4;
        assert(sextets[4 * g] < 64);
        assert(sextets[4 * g + 1] < 64);
        assert(sextets[4 * g + 2] < 64);
        assert(bytes[3 * g] as int == byte_from_sextets(sextets, 3 * g));
        if 3 * g + 1 < 32 {
            assert(bytes[3 * g + 1] as int == byte_from_sextets(sextets, 3 * g + 1));
        }
        if 3 * g + 2 < 32 {
            assert(sextets[4 * g + 3] < 64);
            assert(bytes[3 * g + 2] as int == byte_from_sextets(sextets, 3 * g + 2));
        }
    }
}

/// The byte at `j` that a run of six-bit values stands for.
spec fn byte_from_sextets(sextets: Seq<u8>, j: int) -> int {
    let g = j / 3;
    if j % 3 == 0 {
        sextets[4 * g] * 4 + sextets[4 * g + 1] / 16
    } else if j % 3 == 1 {
        (sextets[4 * g + 1] % 16) * 16 + sextets[4 * g + 2] / 4
    } else {
        (sextets[4 * g + 2] % 4) * 64 + sextets[4 * g + 3]
    }
}

/// The text of an identifier has 43 characters, all of them ASCII.
proof fn lemma_text_shape(id: BlobId)
    ensures
        id.text().len() == 43,
        vstd::utf8::is_ascii_chars(id.text()),
        forall|i: int| 0 <= i < 43 ==> 0 <= #[trigger] sextet_at(id.bytes@, i) < 64,
{
    assert forall|i: int| 0 <= i < 43 implies '\0' <= #[trigger] id.text()[i] <= '\u{7f}' by {
        assert(id.text()[i] == sextet_char(sextet_at(id.bytes@, i)));
    }
}

/// No two identifiers share a text.
pub proof fn lemma_text_identifies(a: BlobId, b: BlobId)
    requires
        a.text() == b.text(),
    ensures
        a == b,
{
    lemma_base64_url_injective(a.bytes@, b.bytes@);
    assert(a.bytes =~= b.bytes);
}

/// Reading the text of an identifier gives that identifier back.
pub proof fn lemma_text_round_trip(id: BlobId)
    ensures
        BlobId::of_text(id.text()) == Some(id),
{
    lemma_text_identifies(id, BlobId::of_text(id.text())->0);
}

} // verus!
