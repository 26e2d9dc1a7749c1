//! Text on its way to and from the native library.
//!
//! A text goes out as its UTF-8 bytes followed by one NUL byte. A buffer comes
//! back as whatever bytes stand before its first NUL, decoded as UTF-8 with
//! malformed parts replaced.

use vstd::prelude::*;
use vstd::slice::*;
use vstd::utf8::*;

verus! {

/// True when the text holds a NUL character, which no C string can carry.
pub open spec fn has_nul(text: Seq<char>) -> bool {
    text.contains('\0')
}

/// The buffer that stands for a text on the native side: its UTF-8 bytes and
/// one terminating NUL.
pub open spec fn c_text(text: Seq<char>) -> Seq<u8> {
    encode_utf8(text).push(0u8)
}

/// The number of bytes before the first NUL, or the whole length when the
/// buffer holds none.
pub open spec fn c_len(bytes: Seq<u8>) -> nat
    decreases bytes.len(),
{
    if bytes.len() == 0 || bytes[0] == 0u8 {
        0
    } else {
        1 + c_len(bytes.drop_first())
    }
}

/// What a reader of C strings takes from a buffer: the bytes before the first
/// NUL.
pub open spec fn until_nul(bytes: Seq<u8>) -> Seq<u8> {
    bytes.take(c_len(bytes) as int)
}

/// True when the buffer is one C string and nothing more: its only NUL is its
/// last byte.
pub open spec fn is_c_string(bytes: Seq<u8>) -> bool {
    &&& bytes.len() > 0
    &&& bytes.last() == 0u8
    &&& forall|i: int| 0 <= i < bytes.len() - 1 ==> bytes[i] != 0u8
}

/// What the standard library's lossy conversion makes of bytes that are not
/// valid UTF-8.
pub uninterp spec fn utf8_lossy(bytes: Seq<u8>) -> Seq<char>;

/// The text that a run of bytes decodes to: the encoded characters where the
/// bytes are valid UTF-8, the lossy conversion otherwise.
pub open spec fn text_of(bytes: Seq<u8>) -> Seq<char> {
    if valid_utf8(bytes) {
        decode_utf8(bytes)
    } else {
        utf8_lossy(bytes)
    }
}

/// `n` is the position of the first NUL of `bytes` (or its length), so it is
/// `c_len(bytes)`.
pub proof fn lemma_c_len_is(bytes: Seq<u8>, n: int)
    requires
        0 <= n <= bytes.len(),
        forall|i: int| 0 <= i < n ==> bytes[i] != 0u8,
        n < bytes.len() ==> bytes[n] == 0u8,
    ensures
        c_len(bytes) == n,
    decreases n,
{
    if n > 0 {
        let rest = bytes.drop_first();
        assert forall|i: int| 0 <= i < n - 1 implies rest[i] != 0u8 by {
            assert(rest[i] == bytes[i + 1]);
        }
        lemma_c_len_is(rest, n - 1);
    }
}

/// A reader of C strings takes all of a C string but its terminator.
pub proof fn lemma_c_string_read_whole(bytes: Seq<u8>)
    requires
        is_c_string(bytes),
    ensures
        until_nul(bytes) == bytes.drop_last(),
{
    lemma_c_len_is(bytes, bytes.len() - 1);
}

/// The UTF-8 encoding of one scalar holds a zero byte only for the scalar zero.
proof fn lemma_scalar_zero_byte(scalar: u32)
    requires
        is_scalar(scalar),
    ensures
        scalar == 0 ==> encode_scalar(scalar) == seq![0u8],
        scalar != 0 ==> !encode_scalar(scalar).contains(0u8),
{
    assert(forall|low: u8| (0x80u8 | low) != 0 && (0xC0u8 | low) != 0 && (0xE0u8 | low) != 0 && (
    0xF0u8 | low) != 0) by (bit_vector);
    assert(scalar <= 0x7F ==> (((scalar & 0x7F) as u8 == 0) <==> scalar == 0)) by (bit_vector);
    let bytes = encode_scalar(scalar);
    if scalar == 0 {
        assert(bytes =~= seq![0u8]);
    } else {
        assert forall|i: int| 0 <= i < bytes.len() implies bytes[i] != 0u8 by {}
    }
}

/// A text's UTF-8 encoding holds a zero byte exactly when the text holds a NUL
/// character.
pub proof fn lemma_encoding_has_nul(text: Seq<char>)
    ensures
        encode_utf8(text).contains(0u8) <==> has_nul(text),
    decreases text.len(),
{
    if text.len() > 0 {
        let head = encode_scalar(text[0] as u32);
        let rest = text.drop_first();
        let tail = encode_utf8(rest);
        char_is_scalar(text[0]);
        lemma_scalar_zero_byte(text[0] as u32);
        lemma_encoding_has_nul(rest);
        assert(encode_utf8(text) == head + tail);
        if has_nul(text) {
            let k = choose|k: int| 0 <= k < text.len() && text[k] == '\0';
            if k == 0 {
                assert((head + tail)[0] == head[0]);
            } else {
                assert(rest[k - 1] == '\0');
                let j = choose|j: int| 0 <= j < tail.len() && tail[j] == 0u8;
                assert((head + tail)[head.len() + j] == tail[j]);
            }
        }
        if (head + tail).contains(0u8) {
            let j = choose|j: int| 0 <= j < (head + tail).len() && (head + tail)[j] == 0u8;
            if j < head.len() {
                assert(head[j] == 0u8);
                char_u32_cast(text[0], 0u32);
                char_u32_cast('\0', 0u32);
            } else {
                assert(tail[j - head.len()] == 0u8);
                let k = choose|k: int| 0 <= k < rest.len() && rest[k] == '\0';
                assert(text[k + 1] == '\0');
            }
        }
    }
}

/// The buffer of a text is a C string exactly when the text holds no NUL
/// character: with one inside, a reader would stop before the end.
pub proof fn lemma_c_text_is_c_string(text: Seq<char>)
    ensures
        is_c_string(c_text(text)) <==> !has_nul(text),
{
    let bytes = encode_utf8(text);
    lemma_encoding_has_nul(text);
    if has_nul(text) {
        let i = choose|i: int| 0 <= i < bytes.len() && bytes[i] == 0u8;
        assert(c_text(text)[i] == 0u8);
    } else {
        assert forall|i: int| 0 <= i < bytes.len() implies c_text(text)[i] != 0u8 by {
            assert(bytes[i] != 0u8);
        }
    }
}

/// Decoding the buffer built for a text without NUL gives the text back.
pub proof fn lemma_text_round_trip(text: Seq<char>)
    requires
        !has_nul(text),
    ensures
        is_c_string(c_text(text)),
        until_nul(c_text(text)) == encode_utf8(text),
        text_of(until_nul(c_text(text))) == text,
{
    lemma_c_text_is_c_string(text);
    lemma_c_string_read_whole(c_text(text));
    assert(c_text(text).drop_last() =~= encode_utf8(text));
    encode_utf8_valid_utf8(text);
    encode_utf8_decode_utf8(text);
}

/// A text marshalled for the native library: a buffer that is exactly one C
/// string.
#[derive(Debug, PartialEq, Eq)]
pub struct CText {
    bytes: Vec<u8>,
}

impl Clone for CText {
    fn clone(&self) -> (copy: Self)
        ensures
            copy@ == self@,
    {
        proof {
            use_type_invariant(self);
        }
        CText { bytes: self.bytes.clone() }
    }
}

impl View for CText {
    type V = Seq<u8>;

    /// The whole buffer, terminator included.
    closed spec fn view(&self) -> Seq<u8> {
        self.bytes@
    }
}

impl DeepView for CText {
    type V = Seq<u8>;

    open spec fn deep_view(&self) -> Seq<u8> {
        self@
    }
}

impl CText {
    #[verifier::type_invariant]
    spec fn well_formed(self) -> bool {
        is_c_string(self.bytes@)
    }

    /// Marshals a text, or refuses it when it holds a NUL character.
    pub fn new(text: &str) -> (made: Option<CText>)
        ensures
            made is None <==> has_nul(text@),
            made matches Some(buffer) ==> buffer@ == c_text(text@),
    {
        if contains_nul(text) {
            None
        } else {
            let mut bytes = slice_to_vec(text.as_bytes());
            bytes.push(0u8);
            proof {
                lemma_text_round_trip(text@);
            }
            Some(CText { bytes })
        }
    }

    /// The buffer to hand to the native library, terminator included.
    pub fn as_bytes_with_nul(&self) -> (bytes: &[u8])
        ensures
            bytes@ == self@,
            is_c_string(bytes@),
    {
        proof {
            use_type_invariant(self);
        }
        self.bytes.as_slice()
    }
}

/// Tells whether a text holds a NUL character and so cannot be marshalled.
pub fn contains_nul(text: &str) -> (found: bool)
    ensures
        found == has_nul(text@),
{
    let bytes = text.as_bytes();
    let mut i: usize = 0;
    while i < bytes.len()
        invariant
            i <= bytes@.len(),
            forall|k: int| 0 <= k < i ==> bytes@[k] != 0u8,
            bytes@ == encode_utf8(text@),
        decreases bytes@.len() - i,
    {
        if bytes[i] == 0u8 {
            proof {
                lemma_encoding_has_nul(text@);
            }
            return true;
        }
        i += 1;
    }
    proof {
        lemma_encoding_has_nul(text@);
    }
    false
}

/// The part of a buffer before its first NUL.
pub fn strip_at_nul(bytes: &[u8]) -> (head: &[u8])
    ensures
        head@ == until_nul(bytes@),
{
    let mut n: usize = 0;
    while n < bytes.len() && bytes[n] != 0u8
        invariant
            n <= bytes@.len(),
            forall|k: int| 0 <= k < n ==> bytes@[k] != 0u8,
        decreases bytes@.len() - n,
    {
        n += 1;
    }
    proof {
        lemma_c_len_is(bytes@, n as int);
    }
    slice_subrange(bytes, 0, n)
}

/// Calls `String::from_utf8_lossy` and takes ownership of what it returns.
/// Trusted: on valid UTF-8 the result is the text that the bytes encode; on
/// anything else it is a function of the bytes alone, named [`utf8_lossy`].
#[verifier::external_body]
fn from_utf8_lossy(bytes: &[u8]) -> (text: String)
    ensures
        text@ == (if valid_utf8(bytes@) {
            decode_utf8(bytes@)
        } else {
            utf8_lossy(bytes@)
        }),
{
    String::from_utf8_lossy(bytes).into_owned()
}

/// Reads the C string at the start of a buffer as an owned text.
pub fn read_text(bytes: &[u8]) -> (text: String)
    ensures
        text@ == text_of(until_nul(bytes@)),
{
    from_utf8_lossy(strip_at_nul(bytes))
}

} // verus!
