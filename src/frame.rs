//! Message framing over datagrams: a message is its payload followed by an
//! eight-byte end marker, cut into datagrams of at most `PACKET_BUF_SIZE`
//! bytes. The receiver appends datagrams until the accumulated bytes end with
//! the marker.
use vstd::prelude::*;

verus! {

/// Largest datagram that a framed message is cut into.
pub const PACKET_BUF_SIZE: usize = 256;

/// Length of the end-of-message marker.
pub const MSG_END_TAG_LEN: usize = 8;

/// The end-of-message marker `end\0msg\0`.
pub open spec fn msg_end_tag() -> Seq<u8> {
    seq![0x65u8, 0x6e, 0x64, 0x00, 0x6d, 0x73, 0x67, 0x00]
}

/// The marker as bytes.
pub fn msg_end_tag_bytes() -> (r: Vec<u8>)
    ensures
        r@ == msg_end_tag(),
{
    let r: Vec<u8> = vec![0x65u8, 0x6e, 0x64, 0x00, 0x6d, 0x73, 0x67, 0x00];
    assert(r@ =~= msg_end_tag());
    r
}

/// The byte stream of one framed message.
pub open spec fn framed(p: Seq<u8>) -> Seq<u8> {
    p + msg_end_tag()
}

/// Whether `s` ends with the marker.
pub open spec fn ends_with_tag(s: Seq<u8>) -> bool {
    s.len() >= 8 && s.subrange(s.len() - 8, s.len() as int) == msg_end_tag()
}

/// Whether the marker occurs anywhere inside `s`.
pub open spec fn contains_tag(s: Seq<u8>) -> bool {
    exists|i: int| 0 <= i && i + 8 <= s.len() && #[trigger] s.subrange(i, i + 8) == msg_end_tag()
}

/// What a receiver returns after taking, in order, the datagrams `chunks`
/// on top of the bytes `acc` it already holds: the accumulated bytes
/// without the marker at the first datagram after which they end with it.
pub open spec fn reassemble(acc: Seq<u8>, chunks: Seq<Seq<u8>>) -> Option<Seq<u8>>
    decreases chunks.len(),
{
    if chunks.len() == 0 {
        None
    } else {
        let a = acc + chunks[0];
        if ends_with_tag(a) {
            Some(a.subrange(0, a.len() - 8))
        } else {
            reassemble(a, chunks.drop_first())
        }
    }
}

pub open spec fn views(v: Seq<Vec<u8>>) -> Seq<Seq<u8>> {
    v.map_values(|c: Vec<u8>| c@)
}

/// Cuts the framed form of `payload` into the datagrams that carry it, in
/// order: every one but the last holds `PACKET_BUF_SIZE` bytes, and the
/// last one ends with the marker.
pub fn frame_chunks(payload: &[u8]) -> (r: Vec<Vec<u8>>)
    requires
        payload@.len() + 8 <= usize::MAX,
    ensures
        views(r@).flatten() == framed(payload@),
        forall|i: int| 0 <= i < r@.len() ==> 0 < #[trigger] r@[i]@.len() <= 256,
        forall|i: int| 0 <= i < r@.len() - 1 ==> #[trigger] r@[i]@.len() == 256,
        r@.len() > 0,
{
    let mut whole: Vec<u8> = Vec::new();
    let mut k: usize = 0;
    while k < payload.len()
        invariant
            k <= payload@.len(),
            whole@ == payload@.subrange(0, k as int),
        decreases payload@.len() - k,
    {
        whole.push(payload[k]);
        k = k + 1;
        assert(whole@ =~= payload@.subrange(0, k as int));
    }
    let tag = msg_end_tag_bytes();
    let mut j: usize = 0;
    while j < MSG_END_TAG_LEN
        invariant
            j <= 8,
            tag@ == msg_end_tag(),
            whole@ == payload@ + msg_end_tag().subrange(0, j as int),
        decreases 8 - j,
    {
        whole.push(tag[j]);
        j = j + 1;
        assert(whole@ =~= payload@ + msg_end_tag().subrange(0, j as int));
    }
    assert(msg_end_tag().subrange(0, 8) =~= msg_end_tag());
    let n = whole.len();
    let mut r: Vec<Vec<u8>> = Vec::new();
    let mut start: usize = 0;
    while start < n
        invariant
            n == whole@.len(),
            n >= 8,
            start <= n,
            start < n ==> start % 256 == 0,
            whole@ == framed(payload@),
            views(r@).flatten() == whole@.subrange(0, start as int),
            forall|i: int| 0 <= i < r@.len() ==> #[trigger] r@[i]@.len() == 256 || (i == r@.len() - 1 && start == n && 0 < r@[i]@.len() <= 256),
            forall|i: int| 0 <= i < r@.len() ==> 0 < #[trigger] r@[i]@.len() <= 256,
            start == n ==> r@.len() > 0,
        decreases n - start,
    {
        let end: usize = if n - start > PACKET_BUF_SIZE { start + PACKET_BUF_SIZE } else { n };
        let mut c: Vec<u8> = Vec::new();
        let mut q: usize = start;
        while q < end
            invariant
                start <= q <= end,
                end <= n == whole@.len(),
                c@ == whole@.subrange(start as int, q as int),
            decreases end - q,
        {
            c.push(whole[q]);
            q = q + 1;
            assert(c@ =~= whole@.subrange(start as int, q as int));
        }
        let ghost old_r = r@;
        r.push(c);
        proof {
            assert(views(r@) =~= views(old_r).push(c@));
            views(old_r).lemma_flatten_push(c@);
            assert(whole@.subrange(0, end as int) =~= whole@.subrange(0, start as int) + whole@.subrange(start as int, end as int));
        }
        start = end;
    }
    assert(whole@.subrange(0, n as int) =~= whole@);
    r
}

/// Appends one received datagram to the accumulated bytes `acc`. When they
/// then end with the marker, the message is complete: it is returned
/// without the marker and `acc` is emptied for the next message.
pub fn frame_accept(acc: &mut Vec<u8>, datagram: &[u8]) -> (r: Option<Vec<u8>>)
    requires
        old(acc)@.len() + datagram@.len() <= usize::MAX,
    ensures
        ends_with_tag(old(acc)@ + datagram@) ==> r.is_some() && r.unwrap()@ == (old(acc)@ + datagram@).subrange(0, (old(acc)@ + datagram@).len() - 8) && final(acc)@.len() == 0,
        !ends_with_tag(old(acc)@ + datagram@) ==> r.is_none() && final(acc)@ == old(acc)@ + datagram@,
{
    let ghost a = old(acc)@ + datagram@;
    let mut k: usize = 0;
    while k < datagram.len()
        invariant
            k <= datagram@.len(),
            acc@ == old(acc)@ + datagram@.subrange(0, k as int),
        decreases datagram@.len() - k,
    {
        acc.push(datagram[k]);
        k = k + 1;
        assert(acc@ =~= old(acc)@ + datagram@.subrange(0, k as int));
    }
    assert(datagram@.subrange(0, datagram@.len() as int) =~= datagram@);
    let n = acc.len();
    assert(acc@ == a);
    if n < MSG_END_TAG_LEN {
        return None;
    }
    let tag = msg_end_tag_bytes();
    let mut j: usize = 0;
    while j < MSG_END_TAG_LEN
        invariant
            n == acc@.len() >= 8,
            a == old(acc)@ + datagram@,
            acc@ == a,
            tag@ == msg_end_tag(),
            j <= 8,
            forall|t: int| 0 <= t < j ==> acc@[n - 8 + t] == msg_end_tag()[t],
        decreases 8 - j,
    {
        if acc[n - MSG_END_TAG_LEN + j] != tag[j] {
            assert(a.subrange(n - 8, n as int)[j as int] != msg_end_tag()[j as int]);
            assert(!ends_with_tag(a));
            return None;
        }
        j = j + 1;
    }
    assert(a.subrange(n - 8, n as int) =~= msg_end_tag());
    let mut out: Vec<u8> = Vec::new();
    let mut q: usize = 0;
    while q < n - MSG_END_TAG_LEN
        invariant
            n == acc@.len() >= 8,
            a == old(acc)@ + datagram@,
            acc@ == a,
            q <= n - 8,
            out@ == a.subrange(0, q as int),
        decreases n - 8 - q,
    {
        out.push(acc[q]);
        q = q + 1;
        assert(out@ =~= a.subrange(0, q as int));
    }
    *acc = Vec::new();
    Some(out)
}

/// Runs a receiver over the datagrams `datagrams`, received in this order,
/// and returns the first complete message, if any.
pub fn frame_recv(datagrams: &Vec<Vec<u8>>) -> (r: Option<Vec<u8>>)
    requires
        views(datagrams@).flatten().len() <= usize::MAX,
    ensures
        match r {
            Some(m) => reassemble(seq![], views(datagrams@)) == Some(m@),
            None => reassemble(seq![], views(datagrams@)).is_none(),
        },
{
    let ghost all = views(datagrams@);
    let mut acc: Vec<u8> = Vec::new();
    let mut i: usize = 0;
    proof {
        assert(all.subrange(0, 0).flatten() =~= seq![]);
        assert(all.subrange(0, all.len() as int) =~= all);
    }
    while i < datagrams.len()
        invariant
            all == views(datagrams@),
            i <= datagrams@.len(),
            all.flatten().len() <= usize::MAX,
            acc@.len() <= all.subrange(0, i as int).flatten().len(),
            reassemble(seq![], all) == reassemble(acc@, all.subrange(i as int, all.len() as int)),
        decreases datagrams@.len() - i,
    {
        let ghost rest = all.subrange(i as int, all.len() as int);
        proof {
            assert(rest[0] == datagrams@[i as int]@);
            assert(rest.drop_first() =~= all.subrange(i + 1, all.len() as int));
            lemma_prefix_flatten_len(all, i as int);
        }
        let got = frame_accept(&mut acc, datagrams[i].as_slice());
        if got.is_some() {
            return got;
        }
        i = i + 1;
    }
    None
}

proof fn lemma_prefix_flatten_len(s: Seq<Seq<u8>>, i: int)
    requires
        0 <= i < s.len(),
    ensures
        s.subrange(0, i).flatten().len() + s[i].len() == s.subrange(0, i + 1).flatten().len(),
        s.subrange(0, i + 1).flatten().len() <= s.flatten().len(),
    decreases s.len() - i,
{
    assert(s.subrange(0, i + 1) =~= s.subrange(0, i).push(s[i]));
    s.subrange(0, i).lemma_flatten_push(s[i]);
    if i + 1 < s.len() {
        lemma_prefix_flatten_len(s, i + 1);
    } else {
        assert(s.subrange(0, i + 1) =~= s);
    }
}

/// Framing round trip: whatever datagrams the framed form of a payload is
/// cut into, a receiver that takes them in order returns the payload,
/// provided the payload itself holds no end marker.
pub proof fn lemma_frame_round_trip(p: Seq<u8>, chunks: Seq<Seq<u8>>)
    requires
        chunks.flatten() == framed(p),
        !contains_tag(p),
    ensures
        reassemble(seq![], chunks) == Some(p),
{
    assert(Seq::<u8>::empty() + chunks.flatten() =~= chunks.flatten());
    lemma_reassemble_rest(p, seq![], chunks);
}

/// A proper prefix of a framed message whose payload holds no marker does
/// not end with the marker.
proof fn lemma_prefix_not_complete(p: Seq<u8>, a: Seq<u8>)
    requires
        a.len() < framed(p).len(),
        a == framed(p).subrange(0, a.len() as int),
        !contains_tag(p),
    ensures
        !ends_with_tag(a),
{
    let f = framed(p);
    let l = a.len();
    if ends_with_tag(a) {
        if l <= p.len() {
            let i = l - 8;
            assert(p.subrange(i, i + 8) =~= a.subrange(l - 8, l as int));
            assert(contains_tag(p));
        } else {
            let t = a.subrange(l - 8, l as int);
            let m = (p.len() - (l - 8)) as int;
            assert(0 <= m < 8);
            assert(t[m] == f[p.len() as int]);
            assert(f[p.len() as int] == 0x65u8);
            assert(msg_end_tag()[m] == t[m]);
            assert(false);
        }
    }
}

proof fn lemma_reassemble_rest(p: Seq<u8>, acc: Seq<u8>, chunks: Seq<Seq<u8>>)
    requires
        acc + chunks.flatten() == framed(p),
        acc.len() < framed(p).len(),
        !contains_tag(p),
    ensures
        reassemble(acc, chunks) == Some(p),
    decreases chunks.len(),
{
    let f = framed(p);
    if chunks.len() == 0 {
        assert(chunks.flatten() =~= Seq::<u8>::empty());
        assert(acc + chunks.flatten() =~= acc);
        assert(false);
    } else {
        let a = acc + chunks[0];
        let rest = chunks.drop_first();
        assert(chunks.flatten() == chunks[0] + rest.flatten());
        assert(a + rest.flatten() =~= f);
        if rest.flatten().len() == 0 {
            assert(a =~= f);
            assert(a.subrange(a.len() - 8, a.len() as int) =~= msg_end_tag());
            assert(a.subrange(0, a.len() - 8) =~= p);
        } else {
            assert(a =~= f.subrange(0, a.len() as int));
            lemma_prefix_not_complete(p, a);
            lemma_reassemble_rest(p, a, rest);
        }
    }
}

} // verus!
