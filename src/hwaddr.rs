use vstd::prelude::*;

use crate::cstr::{c_str_written, fitted_len, write_c_str};
use crate::status::{Status, Step};

verus! {

/// The upper-case ASCII hexadecimal digit of a value below 16.
pub open spec fn hex_digit(d: u8) -> u8
    recommends
        d < 16,
{
    if d < 10 {
        (48 + d) as u8
    } else {
        (55 + d) as u8
    }
}

/// A byte as two upper-case hexadecimal digits.
pub open spec fn hex_pair(b: u8) -> Seq<u8> {
    seq![hex_digit(b / 16), hex_digit(b % 16)]
}

/// The canonical colon-separated form of a hardware address, as in
/// `0A:1B:2C:3D:4E:5F`.
pub open spec fn mac_text(bytes: Seq<u8>) -> Seq<u8>
    decreases bytes.len(),
{
    if bytes.len() == 0 {
        Seq::empty()
    } else if bytes.len() == 1 {
        hex_pair(bytes[0])
    } else {
        mac_text(bytes.drop_last()) + seq![58u8] + hex_pair(bytes.last())
    }
}

/// The canonical form of `n >= 1` bytes takes `3 * n - 1` bytes, none of
/// them zero, so a buffer of `3 * n` bytes holds it with its terminator.
pub proof fn lemma_mac_text_shape(bytes: Seq<u8>)
    requires
        bytes.len() >= 1,
    ensures
        mac_text(bytes).len() == 3 * bytes.len() - 1,
        forall|i: int| 0 <= i < mac_text(bytes).len() ==> #[trigger] mac_text(bytes)[i] != 0,
    decreases bytes.len(),
{
    if bytes.len() > 1 {
        lemma_mac_text_shape(bytes.drop_last());
        let prefix = mac_text(bytes.drop_last());
        let text = mac_text(bytes);
        assert forall|i: int| 0 <= i < text.len() implies #[trigger] text[i] != 0 by {
            if i < prefix.len() {
                assert(text[i] == prefix[i]);
            }
        }
    }
}

/// Two queries that find the same hardware address write the same text,
/// terminator included, whatever the buffers held before.
pub proof fn lemma_mac_text_repeatable(first: [u8; 6], second: [u8; 6], buf1: Seq<u8>, buf2: Seq<
    u8,
>)
    requires
        first == second,
        buf1.len() == buf2.len(),
        buf1.len() >= 1,
    ensures
        ({
            let n = fitted_len(mac_text(first@).len() as int, buf1.len() as int);
            c_str_written(buf1, mac_text(first@)).subrange(0, n + 1) == c_str_written(
                buf2,
                mac_text(second@),
            ).subrange(0, n + 1)
        }),
{
    let n = fitted_len(mac_text(first@).len() as int, buf1.len() as int);
    assert(c_str_written(buf1, mac_text(first@)).subrange(0, n + 1) =~= c_str_written(
        buf2,
        mac_text(second@),
    ).subrange(0, n + 1));
}

fn hex_digit_of(d: u8) -> (r: u8)
    requires
        d < 16,
    ensures
        r == hex_digit(d),
{
    if d < 10 {
        48 + d
    } else {
        55 + d
    }
}

/// Renders a hardware address in canonical form (17 bytes).
pub fn render_mac(bytes: [u8; 6]) -> (r: Vec<u8>)
    ensures
        r@ == mac_text(bytes@),
{
    let mut out: Vec<u8> = Vec::new();
    let mut i: usize = 0;
    while i < 6
        invariant
            i <= 6,
            bytes@.len() == 6,
            out@ == mac_text(bytes@.subrange(0, i as int)),
        decreases 6 - i,
    {
        let b = bytes[i];
        if i > 0 {
            out.push(58u8);
        }
        out.push(hex_digit_of(b / 16));
        out.push(hex_digit_of(b % 16));
        let ghost next = bytes@.subrange(0, i + 1);
        assert(next.drop_last() =~= bytes@.subrange(0, i as int));
        assert(next.last() == b);
        i = i + 1;
        assert(out@ =~= mac_text(next));
    }
    assert(bytes@.subrange(0, 6) =~= bytes@);
    out
}

/// What the interface-table query gave: the hardware address of the first
/// active interface, no such interface, or a failure.
#[derive(Clone, Copy, Debug)]
pub enum MacLookup {
    Found([u8; 6]),
    NoneFound,
    Failed,
}

/// Validates a hardware address request: an absent output buffer or a zero
/// capacity ends the call with `InvalidArgument`; otherwise the interface
/// table is to be queried.
pub fn mac_address_start(out_present: bool, out_capacity: usize) -> (r: Step<()>)
    ensures
        !out_present || out_capacity == 0 ==> (r matches Step::Done(s) && s
            == Status::InvalidArgument),
        match r {
            Step::Done(s) => s == Status::InvalidArgument && (!out_present || out_capacity == 0),
            Step::Query(_) => out_present && out_capacity > 0,
        },
{
    if !out_present || out_capacity == 0 {
        Step::Done(Status::InvalidArgument)
    } else {
        Step::Query(())
    }
}

/// Completes a hardware address request: writes the canonical form of the
/// address found into `out` as a truncated, null-terminated string.
/// `NoneFound` gives `NotFound` and a failed query `OperationFailed`, with
/// `out` left as it was.
pub fn mac_address_finish(lookup: MacLookup, out: &mut [u8]) -> (r: Status)
    ensures
        old(out)@.len() == 0 ==> r == Status::InvalidArgument && final(out)@ == old(out)@,
        old(out)@.len() > 0 ==> match lookup {
            MacLookup::Found(bytes) => r == Status::Success && final(out)@ == c_str_written(
                old(out)@,
                mac_text(bytes@),
            ),
            MacLookup::NoneFound => r == Status::NotFound && final(out)@ == old(out)@,
            MacLookup::Failed => r == Status::OperationFailed && final(out)@ == old(out)@,
        },
{
    if out.len() == 0 {
        return Status::InvalidArgument;
    }
    match lookup {
        MacLookup::Found(bytes) => {
            let text = render_mac(bytes);
            write_c_str(text.as_slice(), out);
            Status::Success
        },
        MacLookup::NoneFound => Status::NotFound,
        MacLookup::Failed => Status::OperationFailed,
    }
}

} // verus!
