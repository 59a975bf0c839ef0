//! Bounded reading of the display strings that the driver writes into
//! fixed-capacity byte buffers. Such a string ends at the first zero byte, or
//! at the end of the buffer when the driver left no terminator.

use vstd::prelude::*;

verus! {

/// Capacity in bytes of every name and description buffer of the driver.
pub const NAME_CAPACITY: usize = 256;

/// `text` is what `buffer` holds: the bytes before the first zero byte, or the
/// whole buffer when it holds no zero byte.
pub open spec fn holds_text(buffer: Seq<u8>, text: Seq<u8>) -> bool {
    &&& text.len() <= buffer.len()
    &&& text == buffer.take(text.len() as int)
    &&& forall|i: int| 0 <= i < text.len() ==> text[i] != 0
    &&& text.len() == buffer.len() || buffer[text.len() as int] == 0
}

/// The text held in `buffer`.
pub open spec fn text_of(buffer: Seq<u8>) -> Seq<u8> {
    choose|text: Seq<u8>| holds_text(buffer, text)
}

/// `text` can be stored in a buffer and read back: it has no zero byte.
pub open spec fn storable(text: Seq<u8>) -> bool {
    forall|i: int| 0 <= i < text.len() ==> text[i] != 0
}

/// `text`, then zero bytes up to `capacity`.
pub open spec fn padded(text: Seq<u8>, capacity: nat) -> Seq<u8> {
    Seq::new(capacity, |i: int| if i < text.len() { text[i] } else { 0u8 })
}

/// A buffer holds exactly one text.
pub proof fn lemma_text_unique(buffer: Seq<u8>, first: Seq<u8>, second: Seq<u8>)
    requires
        holds_text(buffer, first),
        holds_text(buffer, second),
    ensures
        first == second,
{
    if first.len() < second.len() {
        assert(second[first.len() as int] == buffer[first.len() as int]);
    } else if second.len() < first.len() {
        assert(first[second.len() as int] == buffer[second.len() as int]);
    }
}

/// What a bounded read finds is the text of the buffer.
pub proof fn lemma_text_of(buffer: Seq<u8>, text: Seq<u8>)
    requires
        holds_text(buffer, text),
    ensures
        text_of(buffer) == text,
{
    lemma_text_unique(buffer, text_of(buffer), text);
}

/// A text without zero bytes that fits is read back from its padded buffer.
pub proof fn lemma_padded_round_trip(text: Seq<u8>, capacity: nat)
    requires
        storable(text),
        text.len() <= capacity,
    ensures
        text_of(padded(text, capacity)) == text,
{
    let buffer = padded(text, capacity);
    assert(text =~= buffer.take(text.len() as int));
    lemma_text_of(buffer, text);
}

/// The text of a buffer never runs past the buffer and holds no zero byte.
pub proof fn lemma_text_bounded(buffer: Seq<u8>)
    ensures
        holds_text(buffer, text_of(buffer)),
        text_of(buffer).len() <= buffer.len(),
        storable(text_of(buffer)),
{
    let end = first_zero(buffer, 0);
    lemma_first_zero(buffer, 0);
    assert(holds_text(buffer, buffer.take(end)));
}

/// Index of the first zero byte at or after `from`, or the length of the
/// buffer when there is none.
pub open spec fn first_zero(buffer: Seq<u8>, from: int) -> int
    decreases buffer.len() - from,
{
    if from < 0 || from >= buffer.len() {
        buffer.len() as int
    } else if buffer[from] == 0 {
        from
    } else {
        first_zero(buffer, from + 1)
    }
}

proof fn lemma_first_zero(buffer: Seq<u8>, from: int)
    requires
        0 <= from <= buffer.len(),
    ensures
        from <= first_zero(buffer, from) <= buffer.len(),
        forall|i: int| from <= i < first_zero(buffer, from) ==> buffer[i] != 0,
        first_zero(buffer, from) == buffer.len() || buffer[first_zero(buffer, from)] == 0,
    decreases buffer.len() - from,
{
    if from < buffer.len() && buffer[from] != 0 {
        lemma_first_zero(buffer, from + 1);
    }
}

/// Reads the text of a buffer without ever looking past its end.
pub fn read_text(buffer: &[u8]) -> (text: Vec<u8>)
    ensures
        text@ == text_of(buffer@),
        text@.len() <= buffer@.len(),
        storable(text@),
{
    let mut text: Vec<u8> = Vec::new();
    let mut at: usize = 0;
    while at < buffer.len() && buffer[at] != 0
        invariant
            at <= buffer@.len(),
            text@ == buffer@.take(at as int),
            forall|i: int| 0 <= i < at ==> buffer@[i] != 0,
        decreases buffer@.len() - at,
    {
        text.push(buffer[at]);
        at += 1;
        assert(text@ =~= buffer@.take(at as int));
    }
    proof {
        lemma_text_of(buffer@, text@);
    }
    text
}

/// The characters that std's lossy decoder makes of `bytes`: those that the
/// bytes spell in UTF-8, with the replacement character in place of each
/// sequence that spells none.
pub uninterp spec fn lossy_utf8(bytes: Seq<u8>) -> Seq<char>;

/// `String::from_utf8_lossy`: decodes `bytes` as UTF-8 and puts the
/// replacement character where they are not. Nothing is proved of it; the
/// claim is that the result is the one that the decoder gives for these
/// bytes, which depends on nothing else.
#[verifier::external_body]
fn decode_lossy(bytes: &[u8]) -> (text: String)
    ensures
        text@ == lossy_utf8(bytes@),
{
    String::from_utf8_lossy(bytes).into_owned()
}

/// Reads the text of a buffer as a string, without ever looking past its
/// end. Bytes that are no UTF-8 come out as the replacement character.
pub fn read_string(buffer: &[u8]) -> (text: String)
    ensures
        text@ == lossy_utf8(text_of(buffer@)),
{
    let bytes = read_text(buffer);
    decode_lossy(bytes.as_slice())
}

/// Whether `text` holds no zero byte.
pub fn is_storable(text: &[u8]) -> (ok: bool)
    ensures
        ok == storable(text@),
{
    let mut at: usize = 0;
    while at < text.len()
        invariant
            at <= text@.len(),
            forall|i: int| 0 <= i < at ==> text@[i] != 0,
        decreases text@.len() - at,
    {
        if text[at] == 0 {
            return false;
        }
        at += 1;
    }
    true
}

/// Stores `text` in a zero-filled buffer of the driver's capacity, or refuses
/// a text that is too long or holds a zero byte.
pub fn store_text(text: &[u8]) -> (stored: Option<[u8; 256]>)
    ensures
        stored.is_some() == (storable(text@) && text@.len() <= NAME_CAPACITY),
        stored matches Some(buffer) ==> buffer@ == padded(text@, NAME_CAPACITY as nat)
            && text_of(buffer@) == text@,
{
    if text.len() > NAME_CAPACITY || !is_storable(text) {
        return None;
    }
    let mut buffer: [u8; 256] = [0u8; 256];
    let mut at: usize = 0;
    while at < text.len()
        invariant
            at <= text@.len() <= NAME_CAPACITY,
            buffer@.len() == NAME_CAPACITY,
            forall|i: int| 0 <= i < at ==> buffer@[i] == text@[i],
            forall|i: int| at <= i < NAME_CAPACITY ==> buffer@[i] == 0,
        decreases text@.len() - at,
    {
        buffer[at] = text[at];
        at += 1;
    }
    proof {
        assert(buffer@ =~= padded(text@, NAME_CAPACITY as nat));
        lemma_padded_round_trip(text@, NAME_CAPACITY as nat);
    }
    Some(buffer)
}

} // verus!
