use vstd::prelude::*;

use crate::cstr::{append_bytes, c_str_written, write_c_str};
use crate::status::{Status, Step};

verus! {

/// One address produced by name resolution, rendered in socket form
/// (`address:port`, IPv6 addresses in brackets).
pub struct ResolvedAddr {
    pub ipv4: bool,
    pub socket_text: Vec<u8>,
}

/// What the resolver gave for a query: an error, or the ordered candidates.
pub enum Resolution {
    Failed,
    Resolved(Vec<ResolvedAddr>),
}

/// The synthetic port suffix `:0` that makes a bare hostname resolvable as a
/// socket address.
pub open spec fn port_suffix() -> Seq<u8> {
    seq![58u8, 48u8]
}

/// The text handed to the resolver for `hostname`.
pub open spec fn resolver_query(hostname: Seq<u8>) -> Seq<u8> {
    hostname + port_suffix()
}

/// A rendered socket address with the synthetic port taken off again.
pub open spec fn strip_port(text: Seq<u8>) -> Seq<u8> {
    if text.len() >= 2 && text.subrange(text.len() - 2, text.len() as int) == port_suffix() {
        text.subrange(0, text.len() - 2)
    } else {
        text
    }
}

/// Whether a candidate satisfies the address-family preference.
pub open spec fn accepts(a: ResolvedAddr, prefer_ipv4: bool) -> bool {
    !prefer_ipv4 || a.ipv4
}

/// `i` is the first candidate that satisfies the preference.
pub open spec fn is_first_accepted(c: Seq<ResolvedAddr>, prefer_ipv4: bool, i: int) -> bool {
    &&& 0 <= i < c.len()
    &&& accepts(c[i], prefer_ipv4)
    &&& forall|j: int| 0 <= j < i ==> !accepts(#[trigger] c[j], prefer_ipv4)
}

/// No candidate satisfies the preference (also when there are none).
pub open spec fn none_accepted(c: Seq<ResolvedAddr>, prefer_ipv4: bool) -> bool {
    forall|j: int| 0 <= j < c.len() ==> !accepts(#[trigger] c[j], prefer_ipv4)
}

/// Validates a lookup request. An absent hostname, an absent output buffer
/// or a zero capacity ends the call with `InvalidArgument`; otherwise the
/// resolver is to be asked for `hostname:0`.
pub fn lookup_host_start(hostname: Option<&[u8]>, out_present: bool, out_capacity: usize) -> (r:
    Step<Vec<u8>>)
    ensures
        hostname.is_none() || !out_present || out_capacity == 0 ==> (r matches Step::Done(s)
            && s == Status::InvalidArgument),
        match r {
            Step::Done(s) => s == Status::InvalidArgument && (hostname.is_none() || !out_present
                || out_capacity == 0),
            Step::Query(q) => hostname.is_some() && out_present && out_capacity > 0 && q@
                == resolver_query(hostname.unwrap()@),
        },
{
    match hostname {
        Some(h) => {
            if !out_present || out_capacity == 0 {
                return Step::Done(Status::InvalidArgument);
            }
            let mut q: Vec<u8> = Vec::new();
            append_bytes(&mut q, h);
            q.push(58u8);
            q.push(48u8);
            assert(q@ =~= resolver_query(h@));
            Step::Query(q)
        },
        None => Step::Done(Status::InvalidArgument),
    }
}

/// The index of the first candidate that satisfies the address-family
/// preference, if any: with `prefer_ipv4` only IPv4 candidates count,
/// otherwise every candidate does.
pub fn select_candidate(cands: &[ResolvedAddr], prefer_ipv4: bool) -> (r: Option<usize>)
    ensures
        match r {
            Some(i) => is_first_accepted(cands@, prefer_ipv4, i as int),
            None => none_accepted(cands@, prefer_ipv4),
        },
{
    let mut i: usize = 0;
    while i < cands.len()
        invariant
            i <= cands@.len(),
            forall|j: int| 0 <= j < i ==> !accepts(#[trigger] cands@[j], prefer_ipv4),
        decreases cands@.len() - i,
    {
        if !prefer_ipv4 || cands[i].ipv4 {
            return Some(i);
        }
        i = i + 1;
    }
    None
}

/// The length of `text` once the synthetic port is stripped.
fn stripped_len(text: &[u8]) -> (n: usize)
    ensures
        n as int == strip_port(text@).len(),
        strip_port(text@) == text@.subrange(0, n as int),
{
    let len = text.len();
    if len >= 2 && text[len - 2] == 58u8 && text[len - 1] == 48u8 {
        assert(text@.subrange(len - 2, len as int) =~= port_suffix());
        len - 2
    } else {
        assert(text@.subrange(0, len as int) =~= text@);
        if len >= 2 {
            assert(text@.subrange(len - 2, len as int)[0] == text@[len - 2]);
            assert(text@.subrange(len - 2, len as int)[1] == text@[len - 1]);
        }
        len
    }
}

/// Completes a lookup from the resolver's answer: writes the first candidate
/// that satisfies the preference, without the synthetic port, into `out` as
/// a truncated, null-terminated string.
///
/// A failed resolution gives `OperationFailed`, and an answer with no
/// acceptable candidate gives `NotFound`; `out` is then left as it was.
pub fn lookup_host_finish(resolution: &Resolution, prefer_ipv4: bool, out: &mut [u8]) -> (r:
    Status)
    ensures
        old(out)@.len() == 0 ==> r == Status::InvalidArgument && final(out)@ == old(out)@,
        old(out)@.len() > 0 ==> match resolution {
            Resolution::Failed => r == Status::OperationFailed && final(out)@ == old(out)@,
            Resolution::Resolved(c) => {
                &&& none_accepted(c@, prefer_ipv4) ==> r == Status::NotFound && final(out)@
                    == old(out)@
                &&& forall|i: int| #[trigger]
                    is_first_accepted(c@, prefer_ipv4, i) ==> r == Status::Success && final(out)@
                        == c_str_written(old(out)@, strip_port(c@[i].socket_text@))
            },
        },
{
    if out.len() == 0 {
        return Status::InvalidArgument;
    }
    match resolution {
        Resolution::Failed => Status::OperationFailed,
        Resolution::Resolved(cands) => {
            match select_candidate(cands.as_slice(), prefer_ipv4) {
                None => Status::NotFound,
                Some(i) => {
                    let text = cands[i].socket_text.as_slice();
                    let n = stripped_len(text);
                    write_c_str(&text[0..n], out);
                    Status::Success
                },
            }
        },
    }
}

} // verus!
