//! Socket addresses as plain values.

use vstd::prelude::*;
use crate::error::{ErrorKind, NetworkError};
use crate::text::{decimal, hex, push_decimal, push_hex};

verus! {

/// An IP address: four octets, or eight 16-bit segments.
#[derive(Debug, Clone, Copy, PartialEq, Eq, Hash)]
pub enum IpAddress {
    V4([u8; 4]),
    V6([u16; 8]),
}

/// An IP address and a port.
#[derive(Debug, Clone, Copy, PartialEq, Eq, Hash)]
pub struct SocketAddress {
    pub ip: IpAddress,
    pub port: u16,
}

impl SocketAddress {
    /// The address made of the given IP address and port.
    pub fn new(ip: IpAddress, port: u16) -> (addr: SocketAddress)
        ensures
            addr == (SocketAddress { ip, port }),
    {
        SocketAddress { ip, port }
    }

    /// Whether the address is `0.0.0.0` with port 0.
    pub open spec fn is_unspecified(self) -> bool {
        &&& self.port == 0
        &&& self.ip matches IpAddress::V4(o) && o@ == seq![0u8, 0u8, 0u8, 0u8]
    }

    /// The IPv4 address `0.0.0.0` with port 0: the address of an endpoint
    /// that has none yet.
    pub fn unspecified() -> (addr: SocketAddress)
        ensures
            addr.is_unspecified(),
    {
        SocketAddress { ip: IpAddress::V4([0, 0, 0, 0]), port: 0 }
    }

    /// The IPv4 address `a.b.c.d` with the given port.
    pub fn v4(a: u8, b: u8, c: u8, d: u8, port: u16) -> (addr: SocketAddress)
        ensures
            addr.port == port,
            addr.ip matches IpAddress::V4(o) && o@ == seq![a, b, c, d],
    {
        SocketAddress { ip: IpAddress::V4([a, b, c, d]), port }
    }
}

/// What a name resolution came to. A resolution that failed, or that gave
/// no address, is `ResolveFailed`, with the message of the failure if there
/// is one; otherwise the addresses come back as they are.
pub fn resolved(outcome: Result<Vec<SocketAddress>, String>) -> (res: Result<
    Vec<SocketAddress>,
    NetworkError,
>)
    ensures
        match outcome {
            Ok(found) => if found@.len() > 0 {
                res == Ok::<Vec<SocketAddress>, NetworkError>(found)
            } else {
                res matches Err(e) && e@ == (ErrorKind::ResolveFailed, Seq::<char>::empty())
            },
            Err(message) => res matches Err(e) && e@ == (ErrorKind::ResolveFailed, message@),
        },
{
    match outcome {
        Ok(found) => {
            if found.len() > 0 {
                Ok(found)
            } else {
                Err(NetworkError::new(ErrorKind::ResolveFailed, String::new()))
            }
        },
        Err(message) => Err(NetworkError::new(ErrorKind::ResolveFailed, message)),
    }
}

/// An IPv4 address as text: its four octets in decimal, joined by dots.
pub open spec fn v4_text(octets: Seq<u8>) -> Seq<char>
    recommends
        octets.len() == 4,
{
    decimal(octets[0] as nat) + seq!['.'] + decimal(octets[1] as nat) + seq!['.'] + decimal(
        octets[2] as nat,
    ) + seq!['.'] + decimal(octets[3] as nat)
}

/// How many segments from `i` on are zero without a break.
pub open spec fn zero_run_at(segments: Seq<u16>, i: int) -> nat
    decreases segments.len() - i,
{
    if 0 <= i < segments.len() && segments[i] == 0 {
        1 + zero_run_at(segments, i + 1)
    } else {
        0
    }
}

/// The longest run of zero segments that starts before `n`, as its start
/// and its length; of several of that length the first. `(0, 0)` where no
/// segment before `n` is zero.
pub open spec fn longest_zero_run(segments: Seq<u16>, n: int) -> (int, nat)
    decreases n,
{
    if n <= 0 {
        (0, 0)
    } else {
        let before = longest_zero_run(segments, n - 1);
        let here = zero_run_at(segments, n - 1);
        if here > before.1 {
            (n - 1, here)
        } else {
            before
        }
    }
}

/// Segments in hexadecimal, joined by colons.
pub open spec fn hex_groups(segments: Seq<u16>) -> Seq<char>
    decreases segments.len(),
{
    if segments.len() == 0 {
        Seq::empty()
    } else if segments.len() == 1 {
        hex(segments[0] as nat)
    } else {
        hex_groups(segments.drop_last()) + seq![':'] + hex(segments.last() as nat)
    }
}

/// Whether the address is an IPv4 address mapped into IPv6:
/// `::ffff:a.b.c.d`.
pub open spec fn is_v4_mapped(segments: Seq<u16>) -> bool {
    &&& segments[0] == 0
    &&& segments[1] == 0
    &&& segments[2] == 0
    &&& segments[3] == 0
    &&& segments[4] == 0
    &&& segments[5] == 0xffff
}

/// The four octets that the last two segments hold.
pub open spec fn mapped_octets(segments: Seq<u16>) -> Seq<u8> {
    seq![
        (segments[6] / 256) as u8,
        (segments[6] % 256) as u8,
        (segments[7] / 256) as u8,
        (segments[7] % 256) as u8,
    ]
}

/// An IPv6 address as text, in the canonical form: a mapped IPv4 address
/// as `::ffff:` and the dotted address; otherwise the segments in
/// hexadecimal joined by colons, with the longest run of two or more zero
/// segments, the first of them where several are as long, written `::`.
pub open spec fn v6_text(segments: Seq<u16>) -> Seq<char>
    recommends
        segments.len() == 8,
{
    if is_v4_mapped(segments) {
        seq![':', ':', 'f', 'f', 'f', 'f', ':'] + v4_text(mapped_octets(segments))
    } else {
        let run = longest_zero_run(segments, 8);
        if run.1 > 1 {
            hex_groups(segments.subrange(0, run.0)) + seq![':', ':'] + hex_groups(
                segments.subrange(run.0 + run.1, 8),
            )
        } else {
            hex_groups(segments)
        }
    }
}

/// A run of zero segments ends where the segments end.
pub proof fn lemma_zero_run_bounded(segments: Seq<u16>, i: int)
    requires
        0 <= i <= segments.len(),
    ensures
        i + zero_run_at(segments, i) <= segments.len(),
        forall|j: int| i <= j < i + zero_run_at(segments, i) ==> segments[j] == 0,
    decreases segments.len() - i,
{
    if i < segments.len() && segments[i] == 0 {
        lemma_zero_run_bounded(segments, i + 1);
    }
}

/// The longest run is a run, no run is longer, and none that is as long
/// starts before it.
pub proof fn lemma_longest_zero_run(segments: Seq<u16>, n: int)
    requires
        0 <= n <= segments.len(),
    ensures
        ({
            let run = longest_zero_run(segments, n);
            &&& 0 <= run.0 <= n
            &&& run.0 + run.1 <= segments.len()
            &&& run.1 > 0 ==> run.0 < n && run.1 == zero_run_at(segments, run.0)
            &&& forall|j: int| run.0 <= j < run.0 + run.1 ==> segments[j] == 0
            &&& forall|i: int| 0 <= i < n ==> zero_run_at(segments, i) <= run.1
            &&& forall|i: int| 0 <= i < run.0 ==> zero_run_at(segments, i) < run.1
        }),
    decreases n,
{
    if n > 0 {
        lemma_longest_zero_run(segments, n - 1);
        lemma_zero_run_bounded(segments, n - 1);
    }
}

impl IpAddress {
    /// The address as text.
    pub open spec fn text(self) -> Seq<char> {
        match self {
            IpAddress::V4(octets) => v4_text(octets@),
            IpAddress::V6(segments) => v6_text(segments@),
        }
    }

    /// Appends the address as text to `out`.
    pub fn push_text(&self, out: &mut String)
        ensures
            final(out)@ == old(out)@ + self.text(),
    {
        match self {
            IpAddress::V4(octets) => {
                push_v4(out, octets[0], octets[1], octets[2], octets[3]);
                assert(seq![octets@[0], octets@[1], octets@[2], octets@[3]] =~= octets@);
            },
            IpAddress::V6(segments) => push_v6(out, segments),
        }
    }

    /// The address as text.
    pub fn to_text(&self) -> (text: String)
        ensures
            text@ == self.text(),
    {
        let mut text = String::new();
        self.push_text(&mut text);
        assert(text@ =~= self.text());
        text
    }
}

/// Appends the IPv4 address `a.b.c.d` to `out`.
fn push_v4(out: &mut String, a: u8, b: u8, c: u8, d: u8)
    ensures
        final(out)@ == old(out)@ + v4_text(seq![a, b, c, d]),
{
    push_decimal(out, a as u16);
    out.push('.');
    push_decimal(out, b as u16);
    out.push('.');
    push_decimal(out, c as u16);
    out.push('.');
    push_decimal(out, d as u16);
    assert(out@ =~= old(out)@ + v4_text(seq![a, b, c, d]));
}

/// The length of the run of zero segments that starts at `i`.
fn zero_run(segments: &[u16; 8], i: usize) -> (len: usize)
    requires
        i < 8,
    ensures
        len == zero_run_at(segments@, i as int),
        i + len <= 8,
{
    let mut j: usize = i;
    while j < 8 && segments[j] == 0
        invariant
            i <= j <= 8,
            zero_run_at(segments@, i as int) == (j - i) + zero_run_at(segments@, j as int),
        decreases 8 - j,
    {
        j = j + 1;
    }
    j - i
}

/// Appends the segments from `from` up to `to` to `out`, in hexadecimal
/// and joined by colons.
fn push_groups(out: &mut String, segments: &[u16; 8], from: usize, to: usize)
    requires
        from <= to <= 8,
    ensures
        final(out)@ == old(out)@ + hex_groups(segments@.subrange(from as int, to as int)),
{
    let mut k: usize = from;
    while k < to
        invariant
            from <= k <= to <= 8,
            out@ == old(out)@ + hex_groups(segments@.subrange(from as int, k as int)),
        decreases to - k,
    {
        if k > from {
            out.push(':');
        }
        push_hex(out, segments[k]);
        proof {
            let next = segments@.subrange(from as int, k + 1);
            assert(next.drop_last() =~= segments@.subrange(from as int, k as int));
            assert(next.last() == segments@[k as int]);
            assert(out@ =~= old(out)@ + hex_groups(next));
        }
        k = k + 1;
    }
}

/// Appends the IPv6 address to `out`.
fn push_v6(out: &mut String, segments: &[u16; 8])
    ensures
        final(out)@ == old(out)@ + v6_text(segments@),
{
    if segments[0] == 0 && segments[1] == 0 && segments[2] == 0 && segments[3] == 0
        && segments[4] == 0 && segments[5] == 0xffff {
        out.push(':');
        out.push(':');
        out.push('f');
        out.push('f');
        out.push('f');
        out.push('f');
        out.push(':');
        let hi = segments[6];
        let lo = segments[7];
        push_v4(out, (hi / 256) as u8, (hi % 256) as u8, (lo / 256) as u8, (lo % 256) as u8);
        assert(seq![(hi / 256) as u8, (hi % 256) as u8, (lo / 256) as u8, (lo % 256) as u8]
            =~= mapped_octets(segments@));
        assert(out@ =~= old(out)@ + v6_text(segments@));
    } else {
        let mut start: usize = 0;
        let mut len: usize = 0;
        let mut n: usize = 0;
        while n < 8
            invariant
                n <= 8,
                (start as int, len as nat) == longest_zero_run(segments@, n as int),
                start + len <= 8,
            decreases 8 - n,
        {
            let here = zero_run(segments, n);
            if here > len {
                start = n;
                len = here;
            }
            n = n + 1;
        }
        if len > 1 {
            push_groups(out, segments, 0, start);
            out.push(':');
            out.push(':');
            push_groups(out, segments, start + len, 8);
            assert(out@ =~= old(out)@ + v6_text(segments@));
        } else {
            push_groups(out, segments, 0, 8);
            assert(segments@.subrange(0, 8) =~= segments@);
        }
    }
}

} // verus!
