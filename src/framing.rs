//! Reply-header framing: routing metadata carried inside a payload ahead of
//! the payload itself.
//!
//! A header is `MAGIC ‖ be64(sub_msg_id) ‖ recipient_contract_hash`. The
//! magic marker cannot start a JSON document, so a receiver that finds it
//! knows that one more header precedes the payload.
use vstd::prelude::*;

verus! {

/// Length of a contract code hash as carried in a header (hex text).
pub const CODE_HASH_LEN: usize = 64;

/// Length of the magic marker.
pub const MAGIC_LEN: usize = 7;

/// Length of one header whose hash is a code hash.
pub const HEADER_LEN: usize = 79;

/// The marker that opens every reply header: the ASCII text `REPLY01`.
pub open spec fn magic() -> Seq<u8> {
    seq![0x52u8, 0x45u8, 0x50u8, 0x4cu8, 0x59u8, 0x30u8, 0x31u8]
}

/// Big-endian encoding of a 64-bit integer.
pub open spec fn be64(x: u64) -> Seq<u8> {
    seq![
        (x >> 56u64) as u8,
        (x >> 48u64) as u8,
        (x >> 40u64) as u8,
        (x >> 32u64) as u8,
        (x >> 24u64) as u8,
        (x >> 16u64) as u8,
        (x >> 8u64) as u8,
        x as u8,
    ]
}

/// The integer whose big-endian encoding is the first eight bytes of `b`.
pub open spec fn be64_value(b: Seq<u8>) -> u64 {
    ((b[0] as u64) << 56u64) | ((b[1] as u64) << 48u64) | ((b[2] as u64) << 40u64) | ((
    b[3] as u64) << 32u64) | ((b[4] as u64) << 24u64) | ((b[5] as u64) << 16u64) | ((
    b[6] as u64) << 8u64) | (b[7] as u64)
}

/// One entry of the chain of ancestor calls that expect a reply.
pub struct ReplyParams {
    pub recipient_contract_hash: Vec<u8>,
    pub sub_msg_id: u64,
}

/// A header as the spec functions see it: id and recipient hash.
pub struct ReplyHeader {
    pub sub_msg_id: u64,
    pub recipient_contract_hash: Seq<u8>,
}

impl ReplyParams {
    pub open spec fn header(&self) -> ReplyHeader {
        ReplyHeader { sub_msg_id: self.sub_msg_id, recipient_contract_hash: self.recipient_contract_hash@ }
    }
}

/// The bytes of one header.
pub open spec fn header_bytes(id: u64, hash: Seq<u8>) -> Seq<u8> {
    magic() + be64(id) + hash
}

/// The headers of a sequence of entries, in order.
pub open spec fn headers_bytes(ps: Seq<ReplyHeader>) -> Seq<u8>
    decreases ps.len(),
{
    if ps.len() == 0 {
        Seq::empty()
    } else {
        headers_bytes(ps.drop_last()) + header_bytes(
            ps.last().sub_msg_id,
            ps.last().recipient_contract_hash,
        )
    }
}

/// The headers of a list of reply parameters.
pub open spec fn params_headers(ps: Seq<ReplyParams>) -> Seq<ReplyHeader> {
    ps.map_values(|p: ReplyParams| p.header())
}

/// The prefix placed ahead of a result that answers an ancestor call: the
/// nearest ancestor's hash, then, when all are asked for, a header for each
/// further ancestor.
pub open spec fn reply_prefix_spec(reply_params: Option<Seq<ReplyParams>>, append_all: bool) -> Seq<u8> {
    match reply_params {
        Some(ps) => ps[0].recipient_contract_hash@ + if append_all {
            headers_bytes(params_headers(ps.subrange(1, ps.len() as int)))
        } else {
            Seq::empty()
        },
        None => Seq::empty(),
    }
}

/// Reply parameters are well formed when present: the nearest ancestor is
/// always there.
pub open spec fn reply_params_wf(reply_params: Option<Seq<ReplyParams>>) -> bool {
    match reply_params {
        Some(ps) => ps.len() > 0,
        None => true,
    }
}

/// The view of optional reply parameters.
pub open spec fn reply_params_view(reply_params: &Option<Vec<ReplyParams>>) -> Option<Seq<ReplyParams>> {
    match reply_params {
        Some(v) => Some(v@),
        None => None,
    }
}

/// The payload of a message to another contract, with its routing headers:
/// the target's code hash; when a reply is expected, a header naming this
/// contract; a header for each ancestor; then the message itself.
pub open spec fn framed_payload(
    code_hash: Seq<u8>,
    expects_reply: bool,
    msg_id: u64,
    reply_recipient_hash: Seq<u8>,
    reply_params: Option<Seq<ReplyParams>>,
    msg: Seq<u8>,
) -> Seq<u8> {
    code_hash + (if expects_reply {
        header_bytes(msg_id, reply_recipient_hash)
    } else {
        Seq::empty()
    }) + match reply_params {
        Some(ps) => headers_bytes(params_headers(ps)),
        None => Seq::empty(),
    } + msg
}

/// Whether `s` opens with the magic marker.
pub open spec fn starts_with_magic(s: Seq<u8>) -> bool {
    s.len() >= MAGIC_LEN && s.subrange(0, MAGIC_LEN as int) == magic()
}

/// Reads one header (with a code-hash sized hash) from the front of `s`.
pub open spec fn parse_header(s: Seq<u8>) -> Option<(ReplyHeader, Seq<u8>)> {
    if starts_with_magic(s) && s.len() >= HEADER_LEN {
        Some(
            (
                ReplyHeader {
                    sub_msg_id: be64_value(s.subrange(MAGIC_LEN as int, MAGIC_LEN + 8)),
                    recipient_contract_hash: s.subrange(MAGIC_LEN + 8, HEADER_LEN as int),
                },
                s.subrange(HEADER_LEN as int, s.len() as int),
            ),
        )
    } else {
        None
    }
}

/// Reads headers from the front of `s` until none is left: the headers in
/// order, and what follows them.
pub open spec fn parse_headers(s: Seq<u8>) -> (Seq<ReplyHeader>, Seq<u8>)
    decreases s.len(),
{
    match parse_header(s) {
        Some((h, rest)) => {
            let (hs, payload) = parse_headers(rest);
            (seq![h] + hs, payload)
        },
        None => (Seq::empty(), s),
    }
}

/// The magic marker.
pub fn magic_bytes() -> (r: Vec<u8>)
    ensures
        r@ == magic(),
{
    let r = vec![0x52u8, 0x45u8, 0x50u8, 0x4cu8, 0x59u8, 0x30u8, 0x31u8];
    assert(r@ =~= magic());
    r
}

/// Appends `s` to `buf`.
pub fn append_bytes(buf: &mut Vec<u8>, s: &[u8])
    ensures
        final(buf)@ == old(buf)@ + s@,
{
    let mut i: usize = 0;
    while i < s.len()
        invariant
            0 <= i <= s@.len(),
            buf@ == old(buf)@ + s@.subrange(0, i as int),
        decreases s@.len() - i,
    {
        buf.push(s[i]);
        i = i + 1;
        assert(buf@ =~= old(buf)@ + s@.subrange(0, i as int));
    }
    assert(s@.subrange(0, s@.len() as int) =~= s@);
}

/// Whether `p` stands in `s` at `at`.
pub fn bytes_match_at(s: &[u8], at: usize, p: &[u8]) -> (r: bool)
    requires
        at + p@.len() <= s@.len(),
    ensures
        r == (s@.subrange(at as int, at + p@.len()) == p@),
{
    let n = s.len();
    let mut i: usize = 0;
    while i < p.len()
        invariant
            i <= p@.len(),
            n == s@.len(),
            at + p@.len() <= s@.len(),
            forall|j: int| 0 <= j < i ==> s@[at + j] == p@[j],
        decreases p@.len() - i,
    {
        if s[at + i] != p[i] {
            assert(s@.subrange(at as int, at + p@.len())[i as int] != p@[i as int]);
            return false;
        }
        i = i + 1;
    }
    assert(s@.subrange(at as int, at + p@.len()) =~= p@);
    true
}

/// The bytes of `s` from `from` up to `to`.
pub fn copy_range(s: &[u8], from: usize, to: usize) -> (r: Vec<u8>)
    requires
        from <= to <= s@.len(),
    ensures
        r@ == s@.subrange(from as int, to as int),
{
    let mut out: Vec<u8> = Vec::new();
    let mut k: usize = from;
    while k < to
        invariant
            from <= k <= to <= s@.len(),
            out@ == s@.subrange(from as int, k as int),
        decreases to - k,
    {
        out.push(s[k]);
        k = k + 1;
        assert(out@ =~= s@.subrange(from as int, k as int));
    }
    out
}

/// Big-endian encoding of `x`.
pub fn be64_bytes(x: u64) -> (r: Vec<u8>)
    ensures
        r@ == be64(x),
{
    let r = vec![
        (x >> 56u64) as u8,
        (x >> 48u64) as u8,
        (x >> 40u64) as u8,
        (x >> 32u64) as u8,
        (x >> 24u64) as u8,
        (x >> 16u64) as u8,
        (x >> 8u64) as u8,
        x as u8,
    ];
    assert(r@ =~= be64(x));
    r
}

/// Appends one header to `buf`.
pub fn append_header(buf: &mut Vec<u8>, id: u64, hash: &[u8])
    ensures
        final(buf)@ == old(buf)@ + header_bytes(id, hash@),
{
    let m = magic_bytes();
    append_bytes(buf, m.as_slice());
    let b = be64_bytes(id);
    append_bytes(buf, b.as_slice());
    append_bytes(buf, hash);
    assert(buf@ =~= old(buf)@ + header_bytes(id, hash@));
}

/// Appends a header for each of `ps[from..]`, in order.
pub fn append_params_headers(buf: &mut Vec<u8>, ps: &Vec<ReplyParams>, from: usize)
    requires
        from <= ps@.len(),
    ensures
        final(buf)@ == old(buf)@ + headers_bytes(params_headers(ps@.subrange(from as int, ps@.len() as int))),
{
    let mut i: usize = from;
    while i < ps.len()
        invariant
            from <= i <= ps@.len(),
            buf@ == old(buf)@ + headers_bytes(params_headers(ps@.subrange(from as int, i as int))),
        decreases ps@.len() - i,
    {
        append_header(buf, ps[i].sub_msg_id, ps[i].recipient_contract_hash.as_slice());
        proof {
            let next = params_headers(ps@.subrange(from as int, i + 1));
            assert(next.drop_last() =~= params_headers(ps@.subrange(from as int, i as int)));
        }
        i = i + 1;
    }
}

/// The prefix placed ahead of a result that answers an ancestor call.
pub fn reply_prefix(reply_params: &Option<Vec<ReplyParams>>, append_all: bool) -> (r: Vec<u8>)
    requires
        reply_params_wf(reply_params_view(reply_params)),
    ensures
        r@ == reply_prefix_spec(reply_params_view(reply_params), append_all),
{
    let mut buf: Vec<u8> = Vec::new();
    match reply_params {
        Some(v) => {
            append_bytes(&mut buf, v[0].recipient_contract_hash.as_slice());
            if append_all {
                append_params_headers(&mut buf, v, 1);
            }
            assert(buf@ =~= reply_prefix_spec(reply_params_view(reply_params), append_all));
        },
        None => {
            assert(buf@ =~= Seq::<u8>::empty());
        },
    }
    buf
}

/// The payload of a message to another contract, with its routing headers.
pub fn frame_payload(
    code_hash: &[u8],
    expects_reply: bool,
    msg_id: u64,
    reply_recipient_hash: &[u8],
    reply_params: &Option<Vec<ReplyParams>>,
    msg: &[u8],
) -> (r: Vec<u8>)
    ensures
        r@ == framed_payload(
            code_hash@,
            expects_reply,
            msg_id,
            reply_recipient_hash@,
            reply_params_view(reply_params),
            msg@,
        ),
{
    let mut buf: Vec<u8> = Vec::new();
    append_bytes(&mut buf, code_hash);
    if expects_reply {
        append_header(&mut buf, msg_id, reply_recipient_hash);
    }
    if let Some(ps) = reply_params {
        append_params_headers(&mut buf, ps, 0);
        assert(ps@.subrange(0, ps@.len() as int) =~= ps@);
    }
    append_bytes(&mut buf, msg);
    assert(buf@ =~= framed_payload(
        code_hash@,
        expects_reply,
        msg_id,
        reply_recipient_hash@,
        reply_params_view(reply_params),
        msg@,
    ));
    buf
}

/// Reads one header from the front of `buf`, if one is there.
pub fn strip_reply_header(buf: &[u8]) -> (r: Option<(ReplyParams, Vec<u8>)>)
    ensures
        match parse_header(buf@) {
            Some((h, rest)) => r is Some && (r->0).0.header() == h && (r->0).1@ == rest,
            None => r is None,
        },
{
    if buf.len() < HEADER_LEN {
        return None;
    }
    let mut i: usize = 0;
    let m = magic_bytes();
    while i < MAGIC_LEN
        invariant
            i <= MAGIC_LEN,
            buf@.len() >= HEADER_LEN,
            m@ == magic(),
            forall|j: int| 0 <= j < i ==> buf@[j] == m@[j],
        decreases MAGIC_LEN - i,
    {
        if buf[i] != m[i] {
            assert(buf@.subrange(0, MAGIC_LEN as int)[i as int] != magic()[i as int]);
            return None;
        }
        i = i + 1;
    }
    assert(buf@.subrange(0, MAGIC_LEN as int) =~= magic());
    let id: u64 = ((buf[7] as u64) << 56u64) | ((buf[8] as u64) << 48u64) | ((buf[9] as u64)
        << 40u64) | ((buf[10] as u64) << 32u64) | ((buf[11] as u64) << 24u64) | ((
    buf[12] as u64) << 16u64) | ((buf[13] as u64) << 8u64) | (buf[14] as u64);
    let mut hash: Vec<u8> = Vec::new();
    let mut j: usize = MAGIC_LEN + 8;
    while j < HEADER_LEN
        invariant
            MAGIC_LEN + 8 <= j <= HEADER_LEN,
            buf@.len() >= HEADER_LEN,
            hash@ == buf@.subrange(MAGIC_LEN + 8, j as int),
        decreases HEADER_LEN - j,
    {
        hash.push(buf[j]);
        j = j + 1;
        assert(hash@ =~= buf@.subrange(MAGIC_LEN + 8, j as int));
    }
    let mut rest: Vec<u8> = Vec::new();
    let mut k: usize = HEADER_LEN;
    while k < buf.len()
        invariant
            HEADER_LEN <= k <= buf@.len(),
            rest@ == buf@.subrange(HEADER_LEN as int, k as int),
        decreases buf@.len() - k,
    {
        rest.push(buf[k]);
        k = k + 1;
        assert(rest@ =~= buf@.subrange(HEADER_LEN as int, k as int));
    }
    let ghost idb = buf@.subrange(MAGIC_LEN as int, MAGIC_LEN + 8);
    assert(be64_value(idb) == id);
    Some((ReplyParams { recipient_contract_hash: hash, sub_msg_id: id }, rest))
}

proof fn lemma_be64_round_trip(x: u64)
    ensures
        be64_value(be64(x)) == x,
{
    assert(((((x >> 56u64) as u8) as u64) << 56u64) | ((((x >> 48u64) as u8) as u64) << 48u64)
        | ((((x >> 40u64) as u8) as u64) << 40u64) | ((((x >> 32u64) as u8) as u64) << 32u64)
        | ((((x >> 24u64) as u8) as u64) << 24u64) | ((((x >> 16u64) as u8) as u64) << 16u64)
        | ((((x >> 8u64) as u8) as u64) << 8u64) | ((x as u8) as u64) == x) by (bit_vector);
}

proof fn lemma_headers_front(ps: Seq<ReplyHeader>)
    requires
        ps.len() > 0,
    ensures
        headers_bytes(ps) == header_bytes(ps[0].sub_msg_id, ps[0].recipient_contract_hash)
            + headers_bytes(ps.drop_first()),
    decreases ps.len(),
{
    if ps.len() == 1 {
        assert(ps.drop_last() =~= Seq::<ReplyHeader>::empty());
        assert(ps.drop_first() =~= Seq::<ReplyHeader>::empty());
        assert(headers_bytes(ps.drop_first()) =~= Seq::<u8>::empty());
        assert(headers_bytes(ps) =~= header_bytes(ps[0].sub_msg_id, ps[0].recipient_contract_hash));
    } else {
        lemma_headers_front(ps.drop_last());
        assert(ps.drop_last().drop_first() =~= ps.drop_first().drop_last());
        assert(ps.drop_first().last() == ps.last());
        assert(ps.drop_last()[0] == ps[0]);
    }
}

/// Framing is unambiguous: headers whose hashes are code-hash sized, placed
/// ahead of a payload that does not open with the magic marker, read back as
/// exactly those headers, in order, followed by the untouched payload.
pub proof fn lemma_framing_round_trip(ps: Seq<ReplyHeader>, payload: Seq<u8>)
    requires
        forall|i: int| 0 <= i < ps.len() ==> (#[trigger] ps[i]).recipient_contract_hash.len() == CODE_HASH_LEN,
        !starts_with_magic(payload),
    ensures
        parse_headers(headers_bytes(ps) + payload) == (ps, payload),
    decreases ps.len(),
{
    if ps.len() == 0 {
        assert(headers_bytes(ps) + payload =~= payload);
        assert(ps =~= Seq::<ReplyHeader>::empty());
    } else {
        let h = ps[0];
        let tail = ps.drop_first();
        lemma_headers_front(ps);
        let s = headers_bytes(ps) + payload;
        let rest = headers_bytes(tail) + payload;
        assert(s =~= magic() + be64(h.sub_msg_id) + h.recipient_contract_hash + rest);
        assert(s.subrange(0, MAGIC_LEN as int) =~= magic());
        assert(s.subrange(MAGIC_LEN as int, MAGIC_LEN + 8) =~= be64(h.sub_msg_id));
        lemma_be64_round_trip(h.sub_msg_id);
        assert(s.subrange(MAGIC_LEN + 8, HEADER_LEN as int) =~= h.recipient_contract_hash);
        assert(s.subrange(HEADER_LEN as int, s.len() as int) =~= rest);
        assert forall|i: int| 0 <= i < tail.len() implies (#[trigger] tail[i]).recipient_contract_hash.len() == CODE_HASH_LEN by {
            assert(tail[i] == ps[i + 1]);
        }
        lemma_framing_round_trip(tail, payload);
        assert(seq![h] + tail =~= ps);
    }
}

/// The headers of a chain split after any `k` of them: the first `k`
/// headers, then the rest followed by the payload. While a header is left,
/// the rest opens with the magic marker; after all of them it is the
/// payload itself. This holds for hashes of any length.
pub proof fn lemma_headers_split(ps: Seq<ReplyHeader>, k: int, payload: Seq<u8>)
    requires
        0 <= k <= ps.len(),
    ensures
        headers_bytes(ps) + payload == headers_bytes(ps.take(k)) + (headers_bytes(ps.skip(k)) + payload),
        k < ps.len() ==> starts_with_magic(headers_bytes(ps.skip(k)) + payload),
        k == ps.len() ==> headers_bytes(ps.skip(k)) + payload == payload,
    decreases ps.len(),
{
    if k == ps.len() {
        assert(ps.take(k) =~= ps);
        assert(ps.skip(k) =~= Seq::<ReplyHeader>::empty());
        assert(headers_bytes(ps.skip(k)) + payload =~= payload);
    } else {
        let init = ps.drop_last();
        lemma_headers_split(init, k, payload);
        lemma_headers_split(init, k, header_bytes(ps.last().sub_msg_id, ps.last().recipient_contract_hash) + payload);
        assert(init.take(k) =~= ps.take(k));
        assert(ps.skip(k).drop_last() =~= init.skip(k));
        assert(ps.skip(k).last() == ps.last());
        let rest = ps.skip(k);
        assert(headers_bytes(rest) == headers_bytes(init.skip(k)) + header_bytes(ps.last().sub_msg_id, ps.last().recipient_contract_hash));
        let h = header_bytes(ps.last().sub_msg_id, ps.last().recipient_contract_hash);
        assert(headers_bytes(ps) == headers_bytes(init) + h);
        assert(headers_bytes(ps) + payload =~= headers_bytes(init) + (h + payload));
        assert(headers_bytes(init.skip(k)) + (h + payload) =~= headers_bytes(rest) + payload);
        lemma_headers_front(rest);
        let s = headers_bytes(rest) + payload;
        assert(s.subrange(0, MAGIC_LEN as int) =~= magic());
    }
}

} // verus!
