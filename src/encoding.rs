//! Outbound command frames.
use vstd::prelude::*;
use vstd::arithmetic::div_mod::{lemma_mod_mod, lemma_add_mod_noop};
use crate::protocol::{MAGIC1, MAGIC2, CMD_EVENT};

verus! {

/// Sum of the bytes of `p` whose index has the given parity (0 even, 1 odd).
pub open spec fn parity_sum(p: Seq<u8>, parity: int) -> nat
    decreases p.len(),
{
    if p.len() == 0 {
        0
    } else {
        let rest = parity_sum(p.drop_last(), parity);
        if (p.len() - 1) % 2 == parity {
            rest + p.last() as nat
        } else {
            rest
        }
    }
}

/// Checksum byte over the bytes of `p` at positions of the given parity.
pub open spec fn checksum(p: Seq<u8>, parity: int) -> u8 {
    (parity_sum(p, parity) % 256) as u8
}

/// The command frame for `msg_type` and `payload`:
/// two sentinels, the selector, the payload, then the even and odd checksums.
pub open spec fn frame(msg_type: u8, payload: Seq<u8>) -> Seq<u8> {
    seq![MAGIC1, MAGIC2, msg_type] + payload + seq![checksum(payload, 0), checksum(payload, 1)]
}

/// Inner payload of an event-subscription command: a self-inclusive length
/// byte, then the sub-payload.
pub open spec fn event_payload(sub: Seq<u8>) -> Seq<u8> {
    seq![((sub.len() + 1) % 256) as u8] + sub
}

proof fn lemma_parity_sum_push(p: Seq<u8>, v: u8, parity: int)
    ensures
        parity_sum(p.push(v), parity) == parity_sum(p, parity) + (if p.len() % 2 == parity {
            v as nat
        } else {
            0
        }),
{
    assert(p.push(v).drop_last() =~= p);
}

/// Builds the command frame for `msg_type` and `payload`.
pub fn encode(msg_type: u8, payload: &[u8]) -> (r: Vec<u8>)
    requires
        payload@.len() + 5 <= usize::MAX,
    ensures
        r@ == frame(msg_type, payload@),
{
    let n = payload.len();
    let mut bytes: Vec<u8> = Vec::with_capacity(5 + n);
    bytes.push(MAGIC1);
    bytes.push(MAGIC2);
    bytes.push(msg_type);
    let mut cksum1: u16 = 0;
    let mut cksum2: u16 = 0;
    let mut i: usize = 0;
    while i < n
        invariant
            n == payload@.len(),
            i <= n,
            bytes@ == seq![MAGIC1, MAGIC2, msg_type] + payload@.take(i as int),
            cksum1 as nat == parity_sum(payload@.take(i as int), 0) % 65536,
            cksum2 as nat == parity_sum(payload@.take(i as int), 1) % 65536,
        decreases n - i,
    {
        let val = payload[i];
        proof {
            assert(payload@.take(i as int + 1) =~= payload@.take(i as int).push(val));
            lemma_parity_sum_push(payload@.take(i as int), val, 0);
            lemma_parity_sum_push(payload@.take(i as int), val, 1);
            lemma_add_mod_noop(parity_sum(payload@.take(i as int), 0) as int, val as int, 65536);
            lemma_add_mod_noop(parity_sum(payload@.take(i as int), 1) as int, val as int, 65536);
        }
        bytes.push(val);
        if i % 2 == 0 {
            cksum1 = cksum1.wrapping_add(val as u16);
        } else {
            cksum2 = cksum2.wrapping_add(val as u16);
        }
        i += 1;
    }
    proof {
        assert(payload@.take(n as int) =~= payload@);
        lemma_mod_mod(parity_sum(payload@, 0) as int, 256, 256);
        lemma_mod_mod(parity_sum(payload@, 1) as int, 256, 256);
        assert((cksum1 & 0xff) == cksum1 % 256) by (bit_vector);
        assert((cksum2 & 0xff) == cksum2 % 256) by (bit_vector);
    }
    bytes.push((cksum1 & 0xff) as u8);
    bytes.push((cksum2 & 0xff) as u8);
    assert(bytes@ =~= frame(msg_type, payload@));
    bytes
}

/// Builds an event-subscription command: the sub-payload, prefixed with its
/// length plus one, wrapped in an event-configuration frame.
pub fn encode_event_data(payload: &[u8]) -> (r: Vec<u8>)
    requires
        payload@.len() + 6 <= usize::MAX,
    ensures
        r@ == frame(CMD_EVENT, event_payload(payload@)),
{
    let n = payload.len();
    let mut bytes: Vec<u8> = Vec::with_capacity(n + 1);
    bytes.push(((n + 1) % 256) as u8);
    let mut i: usize = 0;
    while i < n
        invariant
            n == payload@.len(),
            i <= n,
            bytes@ == seq![((n + 1) % 256) as u8] + payload@.take(i as int),
        decreases n - i,
    {
        let byte = payload[i];
        proof {
            assert(byte & 0xff == byte) by (bit_vector);
            assert(payload@.take(i as int + 1) =~= payload@.take(i as int).push(byte));
        }
        bytes.push(byte & 0xff);
        i += 1;
    }
    assert(payload@.take(n as int) =~= payload@);
    assert(bytes@ =~= event_payload(payload@));
    encode(CMD_EVENT, bytes.as_slice())
}

/// Sum of all bytes of `s`.
pub open spec fn total(s: Seq<u8>) -> nat
    decreases s.len(),
{
    if s.len() == 0 {
        0
    } else {
        total(s.drop_last()) + s.last() as nat
    }
}

/// The bytes of `p` at even positions, in order.
pub open spec fn at_even(p: Seq<u8>) -> Seq<u8> {
    Seq::new(((p.len() + 1) / 2) as nat, |k: int| p[2 * k])
}

/// The bytes of `p` at odd positions, in order.
pub open spec fn at_odd(p: Seq<u8>) -> Seq<u8> {
    Seq::new((p.len() / 2) as nat, |k: int| p[2 * k + 1])
}

proof fn lemma_parity_sums(p: Seq<u8>)
    ensures
        parity_sum(p, 0) == total(at_even(p)),
        parity_sum(p, 1) == total(at_odd(p)),
    decreases p.len(),
{
    if p.len() > 0 {
        let q = p.drop_last();
        lemma_parity_sums(q);
        if q.len() % 2 == 0 {
            assert(at_even(p).drop_last() =~= at_even(q));
            assert(at_odd(p) =~= at_odd(q));
        } else {
            assert(at_even(p) =~= at_even(q));
            assert(at_odd(p).drop_last() =~= at_odd(q));
        }
    }
}

/// A command frame is the payload between a three-byte header and two
/// checksum bytes, which are the sums of the payload's even-position and
/// odd-position bytes, each modulo 256.
pub proof fn lemma_frame_checksums(msg_type: u8, p: Seq<u8>)
    ensures
        frame(msg_type, p).len() == p.len() + 5,
        frame(msg_type, p).subrange(3, p.len() + 3int) == p,
        frame(msg_type, p)[p.len() + 3int] as nat == total(at_even(p)) % 256,
        frame(msg_type, p)[p.len() + 4int] as nat == total(at_odd(p)) % 256,
{
    lemma_parity_sums(p);
    assert(frame(msg_type, p).subrange(3, p.len() + 3int) =~= p);
}

/// The event-subscription payload of three bytes is those bytes behind the
/// length prefix four.
pub proof fn lemma_event_payload_three(a: u8, b: u8, c: u8)
    ensures
        event_payload(seq![a, b, c]) == seq![4u8, a, b, c],
{
    assert(event_payload(seq![a, b, c]) =~= seq![4u8, a, b, c]);
}

/// Frames built from the same selector and payload are the same bytes.
pub proof fn lemma_frame_deterministic(t1: u8, p1: Seq<u8>, t2: u8, p2: Seq<u8>)
    requires
        t1 == t2,
        p1 == p2,
    ensures
        frame(t1, p1) == frame(t2, p2),
{
}

} // verus!
