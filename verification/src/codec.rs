//! Base64, in which audio travels inside JSON frames.
use base64::Engine;
use vstd::prelude::*;

verus! {

/// Why a text is not base64.
#[derive(Debug, Clone, Copy, PartialEq, Eq, Structural)]
pub enum Base64Fault {
    /// A symbol outside the alphabet, or padding before the end: its offset and the byte.
    InvalidByte(usize, u8),
    /// The last group has a single symbol: the number of symbols.
    InvalidLength(usize),
    /// The last symbol has bits set that no byte takes: its offset and the byte.
    InvalidLastSymbol(usize, u8),
    /// The padding is missing or incomplete.
    InvalidPadding,
}

/// The symbol of the standard alphabet for a value below 64.
pub open spec fn symbol(value: int) -> char {
    if value < 26 {
        (65 + value) as char
    } else if value < 52 {
        (97 + value - 26) as char
    } else if value < 62 {
        (48 + value - 52) as char
    } else if value == 62 {
        '+'
    } else {
        '/'
    }
}

/// The byte at `at`, or zero past the end.
pub open spec fn byte_at(bytes: Seq<u8>, at: int) -> int {
    if at < bytes.len() {
        bytes[at] as int
    } else {
        0
    }
}

/// The `i`-th character of the base64 text of `bytes`. Four characters stand for three bytes, six bits
/// each, the most significant first; where the last three are incomplete, padding takes the place of
/// the characters that no byte reaches.
pub open spec fn base64_char(bytes: Seq<u8>, i: int) -> char {
    let at = i / 4 * 3;
    let group = byte_at(bytes, at) * 65536 + byte_at(bytes, at + 1) * 256 + byte_at(bytes, at + 2);
    if at + i % 4 > bytes.len() {
        '='
    } else if i % 4 == 0 {
        symbol(group / 262144)
    } else if i % 4 == 1 {
        symbol(group / 4096 % 64)
    } else if i % 4 == 2 {
        symbol(group / 64 % 64)
    } else {
        symbol(group % 64)
    }
}

/// The standard base64 text of `bytes`, with padding.
pub open spec fn base64_text(bytes: Seq<u8>) -> Seq<char> {
    Seq::new(base64_len(bytes.len()), |i: int| base64_char(bytes, i))
}

/// The bytes that a standard base64 text stands for, or why it stands for none.
pub uninterp spec fn base64_bytes(text: Seq<char>) -> Result<Seq<u8>, Base64Fault>;

/// `text` decodes to `bytes`.
pub open spec fn stands_for(text: Seq<char>, bytes: Seq<u8>) -> bool {
    base64_bytes(text) == Ok::<Seq<u8>, Base64Fault>(bytes)
}

/// `bytes` is what decoding `text` gives: the bytes whose base64 text it is, or a fault where it is
/// that of no bytes.
pub open spec fn decodes_to(text: Seq<char>, bytes: Result<Seq<u8>, Base64Fault>) -> bool {
    match bytes {
        Ok(bytes) => text == base64_text(bytes),
        Err(_) => forall|other: Seq<u8>| text != #[trigger] base64_text(other),
    }
}

/// The number of characters in the base64 text of `len` bytes.
pub open spec fn base64_len(len: nat) -> nat {
    (len + 2) / 3 * 4
}

/// A decoded vector, by its view.
pub open spec fn decoded(bytes: Result<Vec<u8>, Base64Fault>) -> Result<Seq<u8>, Base64Fault> {
    match bytes {
        Ok(bytes) => Ok(bytes@),
        Err(fault) => Err(fault),
    }
}

/// `base64::Engine::encode` of the engine `STANDARD`, which is that of the standard alphabet with
/// padding. The text is [`base64_text`], and decoding it gives the bytes back. The engine allocates
/// the whole text at once, which bounds its length.
#[verifier::external_body]
pub(crate) fn encode_base64(bytes: &[u8]) -> (text: String)
    requires
        base64_len(bytes@.len()) <= isize::MAX,
    ensures
        text@ == base64_text(bytes@),
        stands_for(text@, bytes@),
{
    base64::engine::general_purpose::STANDARD.encode(bytes)
}

/// `base64::Engine::decode` of the engine `STANDARD`. It accepts a text exactly if the text is the
/// [`base64_text`] of some bytes, and gives those bytes: it asks for the padding, all of it, and
/// refuses a last symbol with bits that stand for nothing. The result is the one named
/// [`base64_bytes`]; an error keeps its kind and what it carries.
#[verifier::external_body]
pub(crate) fn decode_base64(text: &str) -> (bytes: Result<Vec<u8>, Base64Fault>)
    ensures
        decoded(bytes) == base64_bytes(text@),
        decodes_to(text@, decoded(bytes)),
{
    base64::engine::general_purpose::STANDARD.decode(text.as_bytes()).map_err(
        |fault| match fault {
            base64::DecodeError::InvalidByte(at, byte) => Base64Fault::InvalidByte(at, byte),
            base64::DecodeError::InvalidLength(len) => Base64Fault::InvalidLength(len),
            base64::DecodeError::InvalidLastSymbol(at, byte) => {
                Base64Fault::InvalidLastSymbol(at, byte)
            },
            base64::DecodeError::InvalidPadding => Base64Fault::InvalidPadding,
        },
    )
}

/// No two symbols of the alphabet are the same, and none is the padding.
proof fn lemma_symbols_differ(a: int, b: int)
    requires
        0 <= a < 64,
        0 <= b < 64,
    ensures
        symbol(a) == symbol(b) ==> a == b,
        symbol(a) != '=',
{
}

/// What the four parts of a group say of its bytes.
proof fn lemma_parts_of_group(p: int, q: int, r: int)
    requires
        0 <= p < 256,
        0 <= q < 256,
        0 <= r < 256,
    ensures
        ({
            let group = p * 65536 + q * 256 + r;
            &&& 0 <= group / 262144 < 64
            &&& group / 262144 == p / 4
            &&& group / 4096 % 64 == p % 4 * 16 + q / 16
            &&& group / 64 % 64 == q % 16 * 4 + r / 64
            &&& group % 64 == r % 64
        }),
{
    let group = p * 65536 + q * 256 + r;
    assert(group / 4096 == p * 16 + q / 16);
    assert(group / 64 == p * 1024 + q * 4 + r / 64);
}

/// The byte at `i` can be read off a base64 text.
proof fn lemma_byte_is_kept(a: Seq<u8>, b: Seq<u8>, i: int)
    requires
        base64_text(a) == base64_text(b),
        0 <= i < a.len(),
    ensures
        i < b.len(),
        a[i] == b[i],
{
    let at = i / 3 * 3;
    let c = i / 3 * 4;
    assert(base64_text(a).len() == base64_len(a.len()));
    assert(base64_text(b).len() == base64_len(b.len()));
    assert(at < b.len());
    let (p, q, r) = (byte_at(a, at), byte_at(a, at + 1), byte_at(a, at + 2));
    let (s, t, u) = (byte_at(b, at), byte_at(b, at + 1), byte_at(b, at + 2));
    let x = p * 65536 + q * 256 + r;
    let y = s * 65536 + t * 256 + u;
    lemma_parts_of_group(p, q, r);
    lemma_parts_of_group(s, t, u);
    lemma_symbols_differ(x / 262144, y / 262144);
    lemma_symbols_differ(x / 4096 % 64, y / 4096 % 64);
    lemma_symbols_differ(x / 64 % 64, y / 64 % 64);
    lemma_symbols_differ(x % 64, y % 64);
    assert(c / 4 * 3 == at && c % 4 == 0);
    assert((c + 1) / 4 * 3 == at && (c + 1) % 4 == 1);
    assert((c + 2) / 4 * 3 == at && (c + 2) % 4 == 2);
    assert((c + 3) / 4 * 3 == at && (c + 3) % 4 == 3);
    assert(base64_text(a)[c] == base64_char(a, c) && base64_text(b)[c] == base64_char(b, c));
    assert(base64_text(a)[c + 1] == base64_char(a, c + 1));
    assert(base64_text(b)[c + 1] == base64_char(b, c + 1));
    assert(x / 262144 == y / 262144);
    assert(x / 4096 % 64 == y / 4096 % 64);
    assert(p == s);
    if i > at {
        assert(base64_text(a)[c + 2] == base64_char(a, c + 2));
        assert(base64_text(b)[c + 2] == base64_char(b, c + 2));
        assert(at + 2 <= b.len());
        assert(x / 64 % 64 == y / 64 % 64);
        assert(q == t);
    }
    if i > at + 1 {
        assert(base64_text(a)[c + 3] == base64_char(a, c + 3));
        assert(base64_text(b)[c + 3] == base64_char(b, c + 3));
        assert(at + 3 <= b.len());
        assert(x % 64 == y % 64);
        assert(r == u);
    }
}

/// A base64 text is that of one sequence of bytes only.
pub proof fn law_base64_text_is_injective(a: Seq<u8>, b: Seq<u8>)
    requires
        base64_text(a) == base64_text(b),
    ensures
        a == b,
{
    assert forall|i: int| 0 <= i < a.len() implies i < b.len() && a[i] == b[i] by {
        lemma_byte_is_kept(a, b, i);
    }
    if a.len() < b.len() {
        lemma_byte_is_kept(b, a, a.len() as int);
    } else if b.len() < a.len() {
        lemma_byte_is_kept(a, b, b.len() as int);
    }
}

/// Decoding gives the bytes whose base64 text it is handed, whichever these are.
pub proof fn law_decoding_undoes_encoding(
    text: Seq<char>,
    result: Result<Seq<u8>, Base64Fault>,
    bytes: Seq<u8>,
)
    requires
        decodes_to(text, result),
    ensures
        text == base64_text(bytes) <==> result == Ok::<Seq<u8>, Base64Fault>(bytes),
{
    if text == base64_text(bytes) && result is Ok {
        law_base64_text_is_injective(result->Ok_0, bytes);
    }
}

} // verus!
