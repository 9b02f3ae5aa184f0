use vstd::prelude::*;

verus! {

/// The number of bytes of `text` that fit, with a terminator, in a buffer of
/// `capacity` bytes (`capacity >= 1`).
pub open spec fn fitted_len(text_len: int, capacity: int) -> int {
    if text_len < capacity - 1 {
        text_len
    } else {
        capacity - 1
    }
}

/// The contents of `buf` after `text` is written into it as a
/// null-terminated string, truncated to fit: the first bytes of `text`, one
/// zero byte, and the rest of `buf` untouched.
pub open spec fn c_str_written(buf: Seq<u8>, text: Seq<u8>) -> Seq<u8>
    recommends
        buf.len() >= 1,
{
    let n = fitted_len(text.len() as int, buf.len() as int);
    Seq::new(
        buf.len(),
        |i: int|
            if i < n {
                text[i]
            } else if i == n {
                0u8
            } else {
                buf[i]
            },
    )
}

/// Copies `text` into `buf` as a null-terminated string, truncating it so
/// that the terminator stays inside `buf`. Returns the number of text bytes
/// written (the terminator not counted).
pub fn write_c_str(text: &[u8], buf: &mut [u8]) -> (n: usize)
    requires
        old(buf)@.len() >= 1,
    ensures
        n == fitted_len(text@.len() as int, old(buf)@.len() as int),
        final(buf)@ == c_str_written(old(buf)@, text@),
{
    let cap = buf.len();
    let n: usize = if text.len() < cap - 1 {
        text.len()
    } else {
        cap - 1
    };
    let mut i: usize = 0;
    while i < n
        invariant
            n == fitted_len(text@.len() as int, cap as int),
            n < cap,
            n <= text@.len(),
            cap == old(buf)@.len(),
            buf@.len() == cap,
            i <= n,
            forall|j: int| 0 <= j < i ==> buf@[j] == text@[j],
            forall|j: int| i <= j < cap ==> buf@[j] == old(buf)@[j],
        decreases n - i,
    {
        buf[i] = text[i];
        i = i + 1;
    }
    buf[n] = 0;
    assert(buf@ =~= c_str_written(old(buf)@, text@));
    n
}

/// Appends the bytes of `src` to `out`.
pub fn append_bytes(out: &mut Vec<u8>, src: &[u8])
    ensures
        final(out)@ == old(out)@ + src@,
{
    let mut i: usize = 0;
    while i < src.len()
        invariant
            i <= src@.len(),
            out@ == old(out)@ + src@.subrange(0, i as int),
        decreases src@.len() - i,
    {
        out.push(src[i]);
        i = i + 1;
        assert(out@ =~= old(out)@ + src@.subrange(0, i as int));
    }
    assert(src@.subrange(0, i as int) =~= src@);
}

/// A terminated write leaves the buffer's size as it was, puts the
/// terminator at offset `min(text length, capacity - 1)`, and changes no byte
/// after it.
pub proof fn lemma_c_str_terminated(buf: Seq<u8>, text: Seq<u8>)
    requires
        buf.len() >= 1,
    ensures
        ({
            let out = c_str_written(buf, text);
            let n = fitted_len(text.len() as int, buf.len() as int);
            &&& out.len() == buf.len()
            &&& 0 <= n < buf.len()
            &&& out[n] == 0
            &&& forall|i: int| 0 <= i < n ==> out[i] == text[i]
            &&& forall|i: int| n < i < buf.len() ==> out[i] == buf[i]
        }),
{
}

} // verus!
