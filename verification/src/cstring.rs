//! NUL-terminated strings in buffers of a fixed size.

use vstd::prelude::*;

verus! {

/// The size of the buffer that holds one argument or environment entry. The
/// last byte is kept for the terminator, so a string of this length or more
/// does not fit.
pub const MAX_STRING_LEN: usize = 256;

/// `text` followed by zero bytes up to `width` bytes in all. Where `text` is
/// shorter than `width` this is `text` as a NUL-terminated string in a buffer
/// of that size.
pub open spec fn nul_padded(text: Seq<u8>, width: nat) -> Seq<u8> {
    Seq::new(width, |i: int| if i < text.len() { text[i] } else { 0u8 })
}

/// What a reader of NUL-terminated strings finds in `buffer`: the bytes
/// before the first zero byte.
pub open spec fn c_string(buffer: Seq<u8>) -> Seq<u8>
    decreases buffer.len(),
{
    if buffer.len() == 0 || buffer[0] == 0 {
        Seq::empty()
    } else {
        seq![buffer[0]] + c_string(buffer.drop_first())
    }
}

/// What is read from a buffer that holds a zero byte is shorter than the
/// buffer.
pub proof fn lemma_c_string_is_shorter(buffer: Seq<u8>)
    requires
        buffer.contains(0u8),
    ensures
        c_string(buffer).len() < buffer.len(),
    decreases buffer.len(),
{
    let at = choose|i: int| 0 <= i < buffer.len() && buffer[i] == 0u8;
    if buffer[0] != 0 {
        let rest = buffer.drop_first();
        assert(rest[at - 1] == 0u8);
        lemma_c_string_is_shorter(rest);
    }
}

/// A text without a zero byte that is shorter than its buffer is read back
/// from the buffer as it was stored: nothing of it is lost and nothing
/// follows it.
pub proof fn lemma_c_string_of_padded(text: Seq<u8>, width: nat)
    requires
        text.len() < width,
        !text.contains(0u8),
    ensures
        c_string(nul_padded(text, width)) == text,
    decreases text.len(),
{
    let buffer = nul_padded(text, width);
    if text.len() == 0 {
        assert(buffer[0] == 0u8);
        assert(c_string(buffer) =~= text);
    } else {
        assert(text.contains(text[0]));
        assert(buffer[0] == text[0]);
        let rest = text.drop_first();
        assert forall|i: int| 0 <= i < rest.len() implies rest[i] != 0u8 by {
            assert(text.contains(text[i + 1]));
        }
        assert(buffer.drop_first() =~= nul_padded(rest, (width - 1) as nat));
        lemma_c_string_of_padded(rest, (width - 1) as nat);
        assert(seq![text[0]] + rest =~= text);
    }
}

/// Copies `text` into a fresh buffer and terminates it.
pub(crate) fn store(text: &[u8]) -> (slot: [u8; MAX_STRING_LEN])
    requires
        text@.len() < MAX_STRING_LEN,
    ensures
        slot@ == nul_padded(text@, MAX_STRING_LEN as nat),
{
    let mut slot = [0u8; MAX_STRING_LEN];
    let mut i: usize = 0;
    while i < text.len()
        invariant
            i <= text@.len() < MAX_STRING_LEN,
            forall|j: int| 0 <= j < i ==> slot@[j] == text@[j],
            forall|j: int| i <= j < MAX_STRING_LEN ==> slot@[j] == 0,
        decreases text@.len() - i,
    {
        slot[i] = text[i];
        i += 1;
    }
    assert(slot@ =~= nul_padded(text@, MAX_STRING_LEN as nat));
    slot
}

} // verus!
