//! Wire codec for the greeting protocol the two peers exchange.
//!
//! Frames carry length-delimited binary records: each field is a one-byte
//! tag followed by a varint byte count and that many payload bytes.  The
//! varint form is the usual little-endian base-128 encoding with a
//! continuation bit, restricted to its canonical spelling (no trailing
//! zero groups), so every value has exactly one encoding and every
//! encoding is self-delimiting.

use vstd::prelude::*;

verus! {

/// Canonical little-endian base-128 encoding of `n`: seven value bits per
/// byte, high bit set on every byte but the last.
pub open spec fn spec_varint(n: nat) -> Seq<u8>
    decreases n,
{
    if n < 0x80 {
        seq![n as u8]
    } else {
        seq![(0x80 + (n % 0x80)) as u8] + spec_varint(n / 0x80)
    }
}

/// The unique canonical varint starting at index `i` of `s`, as the value
/// and the index one past its last byte; `None` when no canonical varint
/// starts there.
pub open spec fn varint_at(s: Seq<u8>, i: int) -> Option<(nat, int)>
    decreases s.len() - i,
{
    if 0 <= i < s.len() {
        let b = s[i];
        if b < 0x80 {
            Some((b as nat, i + 1))
        } else {
            match varint_at(s, i + 1) {
                Some((hi, end)) => if hi == 0 {
                    None
                } else {
                    Some(((b - 0x80) as nat + 0x80 * hi, end))
                },
                None => None,
            }
        }
    } else {
        None
    }
}

/// A canonical varint embedded in a longer sequence parses back to the
/// value it encodes.
pub proof fn lemma_varint_at_of_encoding(s: Seq<u8>, i: int, n: nat)
    requires
        0 <= i,
        i + spec_varint(n).len() <= s.len(),
        s.subrange(i, i + spec_varint(n).len() as int) == spec_varint(n),
    ensures
        varint_at(s, i) == Some((n, i + spec_varint(n).len() as int)),
    decreases n,
{
    if n < 0x80 {
        assert(s[i] == spec_varint(n)[0]);
    } else {
        let rest = spec_varint(n / 0x80);
        assert(s[i] == spec_varint(n)[0]);
        assert(s.subrange(i + 1, i + 1 + rest.len() as int) == rest) by {
            assert forall|k: int| 0 <= k < rest.len() implies s.subrange(
                i + 1,
                i + 1 + rest.len() as int,
            )[k] == rest[k] by {
                assert(s.subrange(i, i + spec_varint(n).len() as int)[k + 1] == spec_varint(n)[k
                    + 1]);
            }
            assert(s.subrange(i + 1, i + 1 + rest.len() as int) =~= rest);
        }
        lemma_varint_at_of_encoding(s, i + 1, n / 0x80);
        assert(n / 0x80 != 0);
        assert((s[i] - 0x80) as nat + 0x80 * (n / 0x80) == n) by {
            assert(s[i] == 0x80 + (n % 0x80));
            assert(n == 0x80 * (n / 0x80) + n % 0x80) by (nonlinear_arith);
        }
    }
}

/// A successful parse reads back exactly one canonical varint: the bytes
/// between `i` and the returned end are `spec_varint` of the value.
pub proof fn lemma_varint_at_sound(s: Seq<u8>, i: int)
    requires
        varint_at(s, i) is Some,
    ensures
        ({
            let (n, end) = varint_at(s, i)->Some_0;
            &&& i < end <= s.len()
            &&& s.subrange(i, end) == spec_varint(n)
        }),
    decreases s.len() - i,
{
    let (n, end) = varint_at(s, i)->Some_0;
    let b = s[i];
    if b < 0x80 {
        assert(s.subrange(i, end) =~= spec_varint(n));
    } else {
        let (hi, end2) = varint_at(s, i + 1)->Some_0;
        lemma_varint_at_sound(s, i + 1);
        assert(n == (b - 0x80) as nat + 0x80 * hi);
        assert(n >= 0x80) by {
            assert(hi >= 1);
            assert(0x80 * hi >= 0x80) by (nonlinear_arith)
                requires hi >= 1;
        }
        assert(n % 0x80 == (b - 0x80) as nat && n / 0x80 == hi) by {
            assert(n == 0x80 * hi + (b - 0x80) as nat);
            assert(((b - 0x80) as nat) < 0x80);
            assert(n % 0x80 == (b - 0x80) as nat && n / 0x80 == hi) by (nonlinear_arith)
                requires
                    n == 0x80 * hi + (b - 0x80) as nat,
                    ((b - 0x80) as nat) < 0x80;
        }
        assert(s.subrange(i, end) =~= spec_varint(n));
    }
}

/// Appends the canonical varint encoding of `n` to `out`.
pub fn encode_varint(out: &mut Vec<u8>, n: usize)
    ensures
        final(out)@ == old(out)@ + spec_varint(n as nat),
{
    let mut v: usize = n;
    while v >= 0x80
        invariant
            old(out)@ + spec_varint(n as nat) == out@ + spec_varint(v as nat),
        decreases v,
    {
        let b: u8 = (0x80 + (v % 0x80)) as u8;
        proof {
            assert(spec_varint(v as nat) == seq![b] + spec_varint((v / 0x80) as nat));
            assert(out@ + spec_varint(v as nat) == (out@ + seq![b]) + spec_varint(
                (v / 0x80) as nat,
            )) by {
                assert(out@ + (seq![b] + spec_varint((v / 0x80) as nat)) =~= (out@ + seq![b])
                    + spec_varint((v / 0x80) as nat));
            }
            assert(out@.push(b) =~= out@ + seq![b]);
        }
        out.push(b);
        v = v / 0x80;
    }
    proof {
        assert(spec_varint(v as nat) == seq![v as u8]);
        assert(out@.push(v as u8) =~= out@ + seq![v as u8]);
    }
    out.push(v as u8);
}

/// Reads the canonical varint starting at `pos`.  Returns the value and
/// the index one past its last byte, or `None` when no canonical varint
/// starts there or its value does not fit in `usize`.
pub fn decode_varint(bytes: &[u8], pos: usize) -> (r: Option<(usize, usize)>)
    ensures
        match varint_at(bytes@, pos as int) {
            Some((n, end)) => if n <= usize::MAX {
                r == Some((n as usize, end as usize))
            } else {
                r is None
            },
            None => r is None,
        },
{
    let ghost full = varint_at(bytes@, pos as int);
    let mut acc: usize = 0;
    let mut mult: usize = 1;
    let mut i: usize = pos;
    loop
        invariant
            full == varint_at(bytes@, pos as int),
            pos <= i <= bytes@.len() || i == pos,
            mult >= 1,
            // the overall parse is the local parse shifted into position
            ({
                let local = varint_at(bytes@, i as int);
                match full {
                    Some((n, end)) => {
                        &&& local is Some
                        &&& {
                            let (m, lend) = local->Some_0;
                            &&& end == lend
                            &&& n == acc + mult * m
                            &&& (i > pos ==> m != 0)
                        }
                    },
                    None => local is None || (i > pos && local->Some_0.0 == 0),
                }
            }),
        decreases bytes@.len() - i,
    {
        if i >= bytes.len() {
            proof {
                assert(varint_at(bytes@, i as int) is None);
            }
            return None;
        }
        let b = bytes[i];
        let low: usize = (b % 0x80) as usize;
        if b < 0x80 {
            proof {
                assert(varint_at(bytes@, i as int) == Some((b as nat, i + 1 as int)));
            }
            if i > pos && b == 0 {
                return None;
            }
            if low > 0 && mult > (usize::MAX - acc) / low {
                proof {
                    let (n, end) = full->Some_0;
                    assert(n == acc + mult * low);
                    assert(mult * low > usize::MAX - acc) by (nonlinear_arith)
                        requires
                            low > 0,
                            mult > (usize::MAX - acc) / (low as int),
                    ;
                }
                return None;
            }
            proof {
                if low > 0 {
                    assert(mult * low <= usize::MAX - acc) by (nonlinear_arith)
                        requires
                            low > 0,
                            mult <= (usize::MAX - acc) / (low as int),
                    ;
                } else {
                    assert(mult * low == 0) by (nonlinear_arith)
                        requires low == 0;
                }
            }
            return Some((acc + mult * low, i + 1));
        } else {
            // continuation byte: the tail must parse to a non-zero value,
            // so the final value is at least `mult * 0x80` past `acc`.
            if low > 0 {
                if mult > (usize::MAX - acc) / low {
                    proof {
                        if full is Some {
                            let (n, end) = full->Some_0;
                            let (m, lend) = varint_at(bytes@, i as int)->Some_0;
                            let (hi, hend) = varint_at(bytes@, i as int + 1)->Some_0;
                            assert(m == low + 0x80 * hi && hi >= 1);
                            assert(mult * low > usize::MAX - acc) by (nonlinear_arith)
                                requires
                                    low > 0,
                                    mult > (usize::MAX - acc) / (low as int),
                            ;
                            assert(mult * m >= mult * low) by (nonlinear_arith)
                                requires m >= low, mult >= 1;
                        }
                    }
                    return None;
                }
                proof {
                    assert(mult * low <= usize::MAX - acc) by (nonlinear_arith)
                        requires
                            low > 0,
                            mult <= (usize::MAX - acc) / (low as int),
                    ;
                }
            }
            if mult > usize::MAX / 0x80 {
                proof {
                    if full is Some {
                        let (n, end) = full->Some_0;
                        let (m, lend) = varint_at(bytes@, i as int)->Some_0;
                        let (hi, hend) = varint_at(bytes@, i as int + 1)->Some_0;
                        assert(m == low + 0x80 * hi && hi >= 1);
                        assert(mult * m > usize::MAX) by (nonlinear_arith)
                            requires
                                m >= 0x80,
                                mult > usize::MAX / 0x80,
                        ;
                        assert(n >= mult * m);
                    }
                }
                return None;
            }
            proof {
                let local = varint_at(bytes@, i as int);
                let next = varint_at(bytes@, i as int + 1);
                if full is Some {
                    let (n, end) = full->Some_0;
                    let (m, lend) = local->Some_0;
                    let (hi, hend) = next->Some_0;
                    assert(m == low + 0x80 * hi && hi >= 1);
                    assert(acc + mult * m == (acc + mult * low) + (mult * 0x80) * hi)
                        by (nonlinear_arith)
                        requires m == low + 0x80 * hi;
                } else {
                    if local is Some && i > pos && local->Some_0.0 == 0 {
                        // a zero parse cannot begin with a continuation byte
                        let (m, lend) = local->Some_0;
                        if next is Some && next->Some_0.0 != 0 {
                            assert(m == low + 0x80 * next->Some_0.0);
                            assert(m != 0) by (nonlinear_arith)
                                requires
                                    m == low + 0x80 * next->Some_0.0,
                                    next->Some_0.0 >= 1;
                        }
                    }
                }
                assert(mult * 0x80 <= usize::MAX) by (nonlinear_arith)
                    requires mult <= usize::MAX / 0x80;
            }
            if low > 0 {
                acc = acc + mult * low;
            }
            mult = mult * 0x80;
            i = i + 1;
        }
    }
}

/// Tag byte of the first length-delimited field of a record.
pub const TAG_ONE: u8 = 0x0a;

/// Tag byte of the second length-delimited field of a record.
pub const TAG_TWO: u8 = 0x12;

/// Greeting record a peer sends when a connection is accepted: who it is
/// and whom it is talking to, both as UTF-8 text held as raw bytes.
#[derive(Debug, PartialEq, Eq)]
pub struct Hello {
    pub from: Vec<u8>,
    pub to: Vec<u8>,
}

/// Reply record carrying one free-text message.
#[derive(Debug, PartialEq, Eq)]
pub struct HelloReply {
    pub message: Vec<u8>,
}

/// The two record families of the example message set: exactly one of
/// them is populated in any service record.
#[derive(Debug, PartialEq, Eq)]
pub enum Service {
    HelloMsg(Hello),
    HelloReplyMsg(HelloReply),
}

/// Envelope for the example message set; an empty payload carries no
/// record at all.
#[derive(Debug, PartialEq, Eq)]
pub struct HelloService {
    pub service: Option<Service>,
}

pub ghost struct HelloView {
    pub from: Seq<u8>,
    pub to: Seq<u8>,
}

pub ghost struct HelloReplyView {
    pub message: Seq<u8>,
}

pub ghost enum ServiceView {
    HelloMsg(HelloView),
    HelloReplyMsg(HelloReplyView),
}

pub ghost struct HelloServiceView {
    pub service: Option<ServiceView>,
}

impl View for Hello {
    type V = HelloView;

    open spec fn view(&self) -> HelloView {
        HelloView { from: self.from@, to: self.to@ }
    }
}

impl View for HelloReply {
    type V = HelloReplyView;

    open spec fn view(&self) -> HelloReplyView {
        HelloReplyView { message: self.message@ }
    }
}

impl View for Service {
    type V = ServiceView;

    open spec fn view(&self) -> ServiceView {
        match self {
            Service::HelloMsg(h) => ServiceView::HelloMsg(h@),
            Service::HelloReplyMsg(r) => ServiceView::HelloReplyMsg(r@),
        }
    }
}

impl View for HelloService {
    type V = HelloServiceView;

    open spec fn view(&self) -> HelloServiceView {
        match self.service {
            None => HelloServiceView { service: None },
            Some(ref s) => HelloServiceView { service: Some(s@) },
        }
    }
}

/// Wire form of a greeting: two length-delimited fields in tag order.
pub open spec fn spec_encode_hello(h: HelloView) -> Seq<u8> {
    seq![TAG_ONE] + spec_varint(h.from.len()) + h.from + seq![TAG_TWO] + spec_varint(h.to.len())
        + h.to
}

/// Wire form of a reply: one length-delimited field.
pub open spec fn spec_encode_reply(r: HelloReplyView) -> Seq<u8> {
    seq![TAG_ONE] + spec_varint(r.message.len()) + r.message
}

/// Wire form of a service envelope: nothing for an empty envelope, else
/// the populated record nested under its family's tag.
pub open spec fn spec_encode_service(m: HelloServiceView) -> Seq<u8> {
    match m.service {
        None => Seq::empty(),
        Some(ServiceView::HelloMsg(h)) => seq![TAG_ONE] + spec_varint(spec_encode_hello(h).len())
            + spec_encode_hello(h),
        Some(ServiceView::HelloReplyMsg(r)) => seq![TAG_TWO] + spec_varint(
            spec_encode_reply(r).len(),
        ) + spec_encode_reply(r),
    }
}

/// Appends every byte of `s` to `out` in order.
fn push_all(out: &mut Vec<u8>, s: &[u8])
    ensures
        final(out)@ == old(out)@ + s@,
{
    let mut k: usize = 0;
    while k < s.len()
        invariant
            k <= s@.len(),
            out@ == old(out)@ + s@.subrange(0, k as int),
        decreases s@.len() - k,
    {
        out.push(s[k]);
        proof {
            assert(old(out)@ + s@.subrange(0, k as int) + seq![s@[k as int]] =~= old(out)@
                + s@.subrange(0, k + 1));
        }
        k = k + 1;
    }
    proof {
        assert(s@.subrange(0, s@.len() as int) =~= s@);
    }
}

/// Encodes a greeting record.
pub fn encode_hello(h: &Hello) -> (out: Vec<u8>)
    ensures
        out@ == spec_encode_hello(h@),
{
    let mut out: Vec<u8> = Vec::new();
    out.push(TAG_ONE);
    encode_varint(&mut out, h.from.len());
    push_all(&mut out, h.from.as_slice());
    out.push(TAG_TWO);
    encode_varint(&mut out, h.to.len());
    push_all(&mut out, h.to.as_slice());
    proof {
        assert(out@ =~= spec_encode_hello(h@));
    }
    out
}

/// Encodes a reply record.
pub fn encode_reply(r: &HelloReply) -> (out: Vec<u8>)
    ensures
        out@ == spec_encode_reply(r@),
{
    let mut out: Vec<u8> = Vec::new();
    out.push(TAG_ONE);
    encode_varint(&mut out, r.message.len());
    push_all(&mut out, r.message.as_slice());
    proof {
        assert(out@ =~= spec_encode_reply(r@));
    }
    out
}

/// Encodes a service envelope.
pub fn encode_hello_service(m: &HelloService) -> (out: Vec<u8>)
    ensures
        out@ == spec_encode_service(m@),
{
    match &m.service {
        None => {
            let out: Vec<u8> = Vec::new();
            proof {
                assert(out@ =~= spec_encode_service(m@));
            }
            out
        },
        Some(Service::HelloMsg(h)) => {
            let inner = encode_hello(h);
            let mut out: Vec<u8> = Vec::new();
            out.push(TAG_ONE);
            encode_varint(&mut out, inner.len());
            push_all(&mut out, inner.as_slice());
            proof {
                assert(out@ =~= spec_encode_service(m@));
            }
            out
        },
        Some(Service::HelloReplyMsg(r)) => {
            let inner = encode_reply(r);
            let mut out: Vec<u8> = Vec::new();
            out.push(TAG_TWO);
            encode_varint(&mut out, inner.len());
            push_all(&mut out, inner.as_slice());
            proof {
                assert(out@ =~= spec_encode_service(m@));
            }
            out
        },
    }
}

/// Every varint is at least one byte long.
pub proof fn lemma_varint_len(n: nat)
    ensures
        spec_varint(n).len() >= 1,
{
}

/// Reads the structure of an encoded greeting back out of the byte
/// sequence it stands in: the tags sit where the encoder put them and
/// both varints parse to the field lengths.
pub proof fn lemma_hello_encoding_parse(s: Seq<u8>, h: HelloView)
    requires
        s == spec_encode_hello(h),
    ensures
        s.len() == 2 + spec_varint(h.from.len()).len() + h.from.len() + spec_varint(
            h.to.len(),
        ).len() + h.to.len(),
        s.len() >= 4,
        s[0] == TAG_ONE,
        varint_at(s, 1) == Some((h.from.len(), 1 + spec_varint(h.from.len()).len() as int)),
        ({
            let p = 1 + spec_varint(h.from.len()).len() as int;
            let fl = h.from.len() as int;
            let vt = spec_varint(h.to.len());
            &&& s.subrange(p, p + fl) == h.from
            &&& s[p + fl] == TAG_TWO
            &&& varint_at(s, p + fl + 1) == Some((h.to.len(), p + fl + 1 + vt.len() as int))
            &&& s.subrange(p + fl + 1 + vt.len() as int, s.len() as int) == h.to
        }),
{
    lemma_varint_len(h.from.len());
    lemma_varint_len(h.to.len());
    let vf = spec_varint(h.from.len());
    let vt = spec_varint(h.to.len());
    let p = 1 + vf.len() as int;
    let fl = h.from.len() as int;
    let q0 = p + fl;
    let q = q0 + 1 + vt.len() as int;
    assert(s.subrange(1, p) =~= vf);
    lemma_varint_at_of_encoding(s, 1, h.from.len());
    assert(s.subrange(p, q0) =~= h.from);
    assert(s.subrange(q0 + 1, q) =~= vt);
    lemma_varint_at_of_encoding(s, q0 + 1, h.to.len());
    assert(s.subrange(q, s.len() as int) =~= h.to);
}

/// The same reading for an encoded reply.
pub proof fn lemma_reply_encoding_parse(s: Seq<u8>, r: HelloReplyView)
    requires
        s == spec_encode_reply(r),
    ensures
        s.len() == 1 + spec_varint(r.message.len()).len() + r.message.len(),
        s.len() >= 2,
        s[0] == TAG_ONE,
        varint_at(s, 1) == Some((r.message.len(), 1 + spec_varint(r.message.len()).len() as int)),
        s.subrange(1 + spec_varint(r.message.len()).len() as int, s.len() as int) == r.message,
{
    lemma_varint_len(r.message.len());
    let vm = spec_varint(r.message.len());
    let p = 1 + vm.len() as int;
    assert(s.subrange(1, p) =~= vm);
    lemma_varint_at_of_encoding(s, 1, r.message.len());
    assert(s.subrange(p, s.len() as int) =~= r.message);
}

/// The same reading for a populated service envelope: its tag names the
/// family and its single varint carries the nested record's length.
pub proof fn lemma_service_encoding_parse(s: Seq<u8>, m: HelloServiceView)
    requires
        s == spec_encode_service(m),
        m.service is Some,
    ensures
        ({
            let inner = match m.service->Some_0 {
                ServiceView::HelloMsg(h) => spec_encode_hello(h),
                ServiceView::HelloReplyMsg(r) => spec_encode_reply(r),
            };
            let tag = match m.service->Some_0 {
                ServiceView::HelloMsg(h) => TAG_ONE,
                ServiceView::HelloReplyMsg(r) => TAG_TWO,
            };
            &&& s.len() == 1 + spec_varint(inner.len()).len() + inner.len()
            &&& s.len() >= 2
            &&& s[0] == tag
            &&& varint_at(s, 1) == Some((inner.len(), 1 + spec_varint(inner.len()).len() as int))
            &&& s.subrange(1 + spec_varint(inner.len()).len() as int, s.len() as int) == inner
        }),
{
    let inner = match m.service->Some_0 {
        ServiceView::HelloMsg(h) => spec_encode_hello(h),
        ServiceView::HelloReplyMsg(r) => spec_encode_reply(r),
    };
    lemma_varint_len(inner.len());
    let vi = spec_varint(inner.len());
    let p = 1 + vi.len() as int;
    assert(s.subrange(1, p) =~= vi);
    lemma_varint_at_of_encoding(s, 1, inner.len());
    assert(s.subrange(p, s.len() as int) =~= inner);
}

/// No two greetings share a wire form: together with the decoders'
/// contracts this makes decoding the exact inverse of encoding.
pub proof fn lemma_encode_hello_injective(a: HelloView, b: HelloView)
    requires
        spec_encode_hello(a) == spec_encode_hello(b),
    ensures
        a == b,
{
    let s = spec_encode_hello(a);
    lemma_hello_encoding_parse(s, a);
    lemma_hello_encoding_parse(s, b);
}

/// No two replies share a wire form.
pub proof fn lemma_encode_reply_injective(a: HelloReplyView, b: HelloReplyView)
    requires
        spec_encode_reply(a) == spec_encode_reply(b),
    ensures
        a == b,
{
    let s = spec_encode_reply(a);
    lemma_reply_encoding_parse(s, a);
    lemma_reply_encoding_parse(s, b);
}

/// No two service envelopes share a wire form.
pub proof fn lemma_encode_service_injective(a: HelloServiceView, b: HelloServiceView)
    requires
        spec_encode_service(a) == spec_encode_service(b),
    ensures
        a == b,
{
    let s = spec_encode_service(a);
    if a.service is Some && b.service is Some {
        lemma_service_encoding_parse(s, a);
        lemma_service_encoding_parse(s, b);
        match (a.service->Some_0, b.service->Some_0) {
            (ServiceView::HelloMsg(ha), ServiceView::HelloMsg(hb)) => {
                lemma_encode_hello_injective(ha, hb);
            },
            (ServiceView::HelloReplyMsg(ra), ServiceView::HelloReplyMsg(rb)) => {
                lemma_encode_reply_injective(ra, rb);
            },
            _ => {
            },
        }
    } else if a.service is Some {
        lemma_service_encoding_parse(s, a);
    } else if b.service is Some {
        lemma_service_encoding_parse(s, b);
    }
}

/// Decodes a greeting record.  Succeeds exactly on the byte sequences
/// `encode_hello` produces, and returns the record they encode.
pub fn decode_hello(bytes: &[u8]) -> (r: Option<Hello>)
    ensures
        r is Some ==> bytes@ == spec_encode_hello(r->Some_0@),
        r is None ==> forall|h: HelloView| spec_encode_hello(h) != bytes@,
{
    let n = bytes.len();
    if n < 1 || bytes[0] != TAG_ONE {
        proof {
            assert forall|h: HelloView| spec_encode_hello(h) != bytes@ by {
                if spec_encode_hello(h) == bytes@ {
                    lemma_hello_encoding_parse(bytes@, h);
                }
            }
        }
        return None;
    }
    let (flen, p) = match decode_varint(bytes, 1) {
        Some(x) => x,
        None => {
            proof {
                assert forall|h: HelloView| spec_encode_hello(h) != bytes@ by {
                    if spec_encode_hello(h) == bytes@ {
                        lemma_hello_encoding_parse(bytes@, h);
                    }
                }
            }
            return None;
        },
    };
    proof {
        lemma_varint_at_sound(bytes@, 1);
    }
    if flen > n - p {
        proof {
            assert forall|h: HelloView| spec_encode_hello(h) != bytes@ by {
                if spec_encode_hello(h) == bytes@ {
                    lemma_hello_encoding_parse(bytes@, h);
                }
            }
        }
        return None;
    }
    let q0 = p + flen;
    if q0 >= n || bytes[q0] != TAG_TWO {
        proof {
            assert forall|h: HelloView| spec_encode_hello(h) != bytes@ by {
                if spec_encode_hello(h) == bytes@ {
                    lemma_hello_encoding_parse(bytes@, h);
                }
            }
        }
        return None;
    }
    let (tlen, q) = match decode_varint(bytes, q0 + 1) {
        Some(x) => x,
        None => {
            proof {
                assert forall|h: HelloView| spec_encode_hello(h) != bytes@ by {
                    if spec_encode_hello(h) == bytes@ {
                        lemma_hello_encoding_parse(bytes@, h);
                    }
                }
            }
            return None;
        },
    };
    proof {
        lemma_varint_at_sound(bytes@, q0 + 1 as int);
    }
    if n - q != tlen {
        proof {
            assert forall|h: HelloView| spec_encode_hello(h) != bytes@ by {
                if spec_encode_hello(h) == bytes@ {
                    lemma_hello_encoding_parse(bytes@, h);
                }
            }
        }
        return None;
    }
    let from = vstd::slice::slice_to_vec(vstd::slice::slice_subrange(bytes, p, q0));
    let to = vstd::slice::slice_to_vec(vstd::slice::slice_subrange(bytes, q, n));
    let out = Hello { from, to };
    proof {
        assert(bytes@ =~= spec_encode_hello(out@));
    }
    Some(out)
}

/// Decodes a reply record: the exact inverse of `encode_reply`.
pub fn decode_reply(bytes: &[u8]) -> (r: Option<HelloReply>)
    ensures
        r is Some ==> bytes@ == spec_encode_reply(r->Some_0@),
        r is None ==> forall|v: HelloReplyView| spec_encode_reply(v) != bytes@,
{
    let n = bytes.len();
    if n < 1 || bytes[0] != TAG_ONE {
        proof {
            assert forall|v: HelloReplyView| spec_encode_reply(v) != bytes@ by {
                if spec_encode_reply(v) == bytes@ {
                    lemma_reply_encoding_parse(bytes@, v);
                }
            }
        }
        return None;
    }
    let (mlen, p) = match decode_varint(bytes, 1) {
        Some(x) => x,
        None => {
            proof {
                assert forall|v: HelloReplyView| spec_encode_reply(v) != bytes@ by {
                    if spec_encode_reply(v) == bytes@ {
                        lemma_reply_encoding_parse(bytes@, v);
                    }
                }
            }
            return None;
        },
    };
    proof {
        lemma_varint_at_sound(bytes@, 1);
    }
    if n - p != mlen {
        proof {
            assert forall|v: HelloReplyView| spec_encode_reply(v) != bytes@ by {
                if spec_encode_reply(v) == bytes@ {
                    lemma_reply_encoding_parse(bytes@, v);
                }
            }
        }
        return None;
    }
    let message = vstd::slice::slice_to_vec(vstd::slice::slice_subrange(bytes, p, n));
    let out = HelloReply { message };
    proof {
        assert(bytes@ =~= spec_encode_reply(out@));
    }
    Some(out)
}

/// Decodes a service envelope: the exact inverse of
/// `encode_hello_service`.  An empty payload is the empty envelope.
pub fn decode_hello_service(bytes: &[u8]) -> (r: Option<HelloService>)
    ensures
        r is Some ==> bytes@ == spec_encode_service(r->Some_0@),
        r is None ==> forall|m: HelloServiceView| spec_encode_service(m) != bytes@,
{
    let n = bytes.len();
    if n == 0 {
        let out = HelloService { service: None };
        proof {
            assert(bytes@ =~= spec_encode_service(out@));
        }
        return Some(out);
    }
    let tag = bytes[0];
    if tag != TAG_ONE && tag != TAG_TWO {
        proof {
            assert forall|m: HelloServiceView| spec_encode_service(m) != bytes@ by {
                if spec_encode_service(m) == bytes@ {
                    if m.service is Some {
                        lemma_service_encoding_parse(bytes@, m);
                    }
                }
            }
        }
        return None;
    }
    let (ilen, p) = match decode_varint(bytes, 1) {
        Some(x) => x,
        None => {
            proof {
                assert forall|m: HelloServiceView| spec_encode_service(m) != bytes@ by {
                    if spec_encode_service(m) == bytes@ {
                        if m.service is Some {
                            lemma_service_encoding_parse(bytes@, m);
                        }
                    }
                }
            }
            return None;
        },
    };
    proof {
        lemma_varint_at_sound(bytes@, 1);
    }
    if n - p != ilen {
        proof {
            assert forall|m: HelloServiceView| spec_encode_service(m) != bytes@ by {
                if spec_encode_service(m) == bytes@ {
                    if m.service is Some {
                        lemma_service_encoding_parse(bytes@, m);
                    }
                }
            }
        }
        return None;
    }
    let inner = vstd::slice::slice_subrange(bytes, p, n);
    if tag == TAG_ONE {
        match decode_hello(inner) {
            Some(h) => {
                let out = HelloService { service: Some(Service::HelloMsg(h)) };
                proof {
                    assert(bytes@ =~= spec_encode_service(out@));
                }
                Some(out)
            },
            None => {
                proof {
                    assert forall|m: HelloServiceView| spec_encode_service(m) != bytes@ by {
                        if spec_encode_service(m) == bytes@ {
                            if m.service is Some {
                                lemma_service_encoding_parse(bytes@, m);
                            }
                        }
                    }
                }
                None
            },
        }
    } else {
        match decode_reply(inner) {
            Some(v) => {
                let out = HelloService { service: Some(Service::HelloReplyMsg(v)) };
                proof {
                    assert(bytes@ =~= spec_encode_service(out@));
                }
                Some(out)
            },
            None => {
                proof {
                    assert forall|m: HelloServiceView| spec_encode_service(m) != bytes@ by {
                        if spec_encode_service(m) == bytes@ {
                            if m.service is Some {
                                lemma_service_encoding_parse(bytes@, m);
                            }
                        }
                    }
                }
                None
            },
        }
    }
}

} // verus!
