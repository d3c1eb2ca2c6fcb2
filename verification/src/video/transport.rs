//! Video packet transport: split an encoded frame into UDP-sized chunks and
//! reassemble them on the other side.
//!
//! Each chunk is serialized and then sealed by the realtime channel, so this
//! layer deals only in plaintext framing.

use vstd::prelude::*;
use crate::bytes::append_bytes;

verus! {

/// Target max payload per chunk: comfortably under a 1200-byte UDP MTU after the
/// AEAD tag, sequence number and serialization overhead.
pub const DEFAULT_MAX_CHUNK: usize = 1100;

/// One fragment of an encoded video frame.
#[derive(Clone, Debug, PartialEq, Eq)]
pub struct VideoChunk {
    pub frame_id: u32,
    pub index: u16,
    pub count: u16,
    pub keyframe: bool,
    pub data: Vec<u8>,
}

/// The chunk size actually used: at least one byte.
pub open spec fn effective_chunk(max_chunk: usize) -> int {
    if max_chunk < 1 { 1 } else { max_chunk as int }
}

/// How many chunks a payload of `len` bytes splits into: one for an empty
/// payload, else `ceil(len / m)`.
pub open spec fn chunk_count(len: int, m: int) -> int {
    if len == 0 { 1 } else { (len + m - 1) / m }
}

/// The bytes of chunk `i`.
pub open spec fn chunk_data(payload: Seq<u8>, m: int, i: int) -> Seq<u8> {
    let end = if (i + 1) * m < payload.len() { (i + 1) * m } else { payload.len() as int };
    if i * m >= payload.len() {
        seq![]
    } else {
        payload.subrange(i * m, end)
    }
}

/// `split_frame`'s chunk `i`: the frame's fields, its position (as `u16`, like
/// the count) and its slice of the payload.
pub open spec fn split_chunk_ok(
    c: VideoChunk,
    frame_id: u32,
    keyframe: bool,
    payload: Seq<u8>,
    m: int,
    i: int,
) -> bool {
    &&& c.frame_id == frame_id
    &&& c.keyframe == keyframe
    &&& c.index == i as u16
    &&& c.count == chunk_count(payload.len() as int, m) as u16
    &&& c.data@ == chunk_data(payload, m, i)
}

/// Split an encoded frame into chunks of at most `max_chunk` payload bytes
/// (an empty frame is one empty chunk).
pub fn split_frame(frame_id: u32, keyframe: bool, payload: &[u8], max_chunk: usize) -> (r: Vec<
    VideoChunk,
>)
    ensures
        r@.len() == chunk_count(payload@.len() as int, effective_chunk(max_chunk)),
        forall|i: int|
            0 <= i < r@.len() ==> split_chunk_ok(
                #[trigger] r@[i],
                frame_id,
                keyframe,
                payload@,
                effective_chunk(max_chunk),
                i,
            ),
{
    let m: usize = if max_chunk < 1 { 1 } else { max_chunk };
    let len = payload.len();
    let n: usize = if len == 0 { 1 } else { (len - 1) / m + 1 };
    proof {
        if len > 0 {
            assert(n as int == (len + m - 1) / m as int) by (nonlinear_arith)
                requires
                    m >= 1,
                    len >= 1,
                    n == (len - 1) / (m as int) + 1,
            ;
        }
    }
    let count = n as u16;
    let mut out: Vec<VideoChunk> = Vec::new();
    let mut i: usize = 0;
    while i < n
        invariant
            i <= n,
            m as int == effective_chunk(max_chunk),
            n as int == chunk_count(len as int, m as int),
            len == payload@.len(),
            count == n as u16,
            n <= len + 1,
            out@.len() == i,
            forall|k: int|
                0 <= k < i ==> split_chunk_ok(
                    #[trigger] out@[k],
                    frame_id,
                    keyframe,
                    payload@,
                    m as int,
                    k,
                ),
        decreases n - i,
    {
        proof {
            if len > 0 {
                assert(i * m < len) by (nonlinear_arith)
                    requires
                        i < n,
                        n as int == (len + m - 1) / (m as int),
                        m >= 1,
                ;
            }
        }
        let start: usize = if len == 0 { 0 } else { i * m };
        let end: usize = if len == 0 { 0 } else if len - start < m { len } else { start + m };
        let mut data: Vec<u8> = Vec::new();
        append_bytes(&mut data, &payload[start..end]);
        proof {
            if len > 0 {
                assert((i + 1) * m == i * m + m) by (nonlinear_arith);
            }
        }
        assert(data@ =~= chunk_data(payload@, m as int, i as int));
        out.push(VideoChunk { frame_id, index: i as u16, count, keyframe, data });
        i = i + 1;
    }
    out
}

/// The abstract state of a `Reassembler`: the frame being collected (if any),
/// its chunk count and keyframe flag, and the chunks received so far.
pub ghost struct Assembly {
    pub frame_id: Option<u32>,
    pub count: u16,
    pub keyframe: bool,
    pub parts: Seq<Option<Seq<u8>>>,
}

/// Start collecting frame `frame_id` of `count` chunks.
pub open spec fn fresh_assembly(frame_id: u32, count: u16, keyframe: bool) -> Assembly {
    Assembly {
        frame_id: Some(frame_id),
        count,
        keyframe,
        parts: Seq::new(count as nat, |i: int| None::<Seq<u8>>),
    }
}

/// `a` is newer than `b` accounting for `u32` wraparound: different, and less
/// than half the number space ahead.
pub open spec fn newer(a: u32, b: u32) -> bool {
    a != b && (if a >= b { a - b } else { a - b + 0x1_0000_0000 }) < u32::MAX / 2
}

/// How many chunks have arrived.
pub open spec fn filled(parts: Seq<Option<Seq<u8>>>) -> nat
    decreases parts.len(),
{
    if parts.len() == 0 {
        0
    } else {
        filled(parts.drop_last()) + if parts.last() is Some { 1nat } else { 0nat }
    }
}

/// The received chunks joined in index order.
pub open spec fn concat_parts(parts: Seq<Option<Seq<u8>>>) -> Seq<u8>
    decreases parts.len(),
{
    if parts.len() == 0 {
        seq![]
    } else {
        concat_parts(parts.drop_last()) + match parts.last() {
            Some(d) => d,
            None => seq![],
        }
    }
}

/// One `push`: switch to the chunk's frame if it is new or newer (a stale chunk
/// of an older frame is ignored), store the chunk unless its index is out of
/// range or already present, and hand out the joined frame once every chunk is
/// in.
pub open spec fn push_step(
    s: Assembly,
    frame_id: u32,
    index: u16,
    count: u16,
    keyframe: bool,
    data: Seq<u8>,
) -> (Assembly, Option<(bool, Seq<u8>)>) {
    let start = match s.frame_id {
        Some(cur) => if cur == frame_id {
            Some(s)
        } else if newer(frame_id, cur) {
            Some(fresh_assembly(frame_id, count, keyframe))
        } else {
            None
        },
        None => Some(fresh_assembly(frame_id, count, keyframe)),
    };
    match start {
        None => (s, None),
        Some(t) => if index as int >= t.parts.len() {
            (t, None)
        } else {
            let u = if t.parts[index as int] is None {
                Assembly { parts: t.parts.update(index as int, Some(data)), ..t }
            } else {
                t
            };
            if filled(u.parts) == u.count && u.count > 0 {
                (Assembly { frame_id: None, ..u }, Some((u.keyframe, concat_parts(u.parts))))
            } else {
                (u, None)
            }
        },
    }
}

proof fn lemma_filled_bound(parts: Seq<Option<Seq<u8>>>)
    ensures
        filled(parts) <= parts.len(),
        filled(parts) == parts.len() ==> forall|j: int|
            0 <= j < parts.len() ==> (#[trigger] parts[j]) is Some,
    decreases parts.len(),
{
    if parts.len() > 0 {
        lemma_filled_bound(parts.drop_last());
        if filled(parts) == parts.len() {
            assert forall|j: int| 0 <= j < parts.len() implies (#[trigger] parts[j]) is Some by {
                if j < parts.len() - 1 {
                    assert(parts.drop_last()[j] == parts[j]);
                }
            }
        }
    }
}

proof fn lemma_filled_update(parts: Seq<Option<Seq<u8>>>, i: int, d: Seq<u8>)
    requires
        0 <= i < parts.len(),
        parts[i] is None,
    ensures
        filled(parts.update(i, Some(d))) == filled(parts) + 1,
    decreases parts.len(),
{
    let u = parts.update(i, Some(d));
    if i == parts.len() - 1 {
        assert(u.drop_last() =~= parts.drop_last());
    } else {
        lemma_filled_update(parts.drop_last(), i, d);
        assert(u.drop_last() =~= parts.drop_last().update(i, Some(d)));
    }
}

proof fn lemma_filled_empty(n: nat)
    ensures
        filled(Seq::new(n, |i: int| None::<Seq<u8>>)) == 0,
    decreases n,
{
    if n > 0 {
        lemma_filled_empty((n - 1) as nat);
        assert(Seq::new(n, |i: int| None::<Seq<u8>>).drop_last() =~= Seq::new(
            (n - 1) as nat,
            |i: int| None::<Seq<u8>>,
        ));
    }
}

/// The chunks of the executable parts list, as byte sequences.
pub open spec fn parts_view(v: Seq<Option<Vec<u8>>>) -> Seq<Option<Seq<u8>>> {
    Seq::new(
        v.len(),
        |i: int|
            match v[i] {
                Some(d) => Some(d@),
                None => None,
            },
    )
}

/// Reassembles chunks into frames, tolerating reordering within a frame and
/// dropping an incomplete frame when a newer one starts.
pub struct Reassembler {
    frame_id: Option<u32>,
    count: u16,
    received: usize,
    keyframe: bool,
    parts: Vec<Option<Vec<u8>>>,
}

impl Reassembler {
    pub closed spec fn state(&self) -> Assembly {
        Assembly {
            frame_id: self.frame_id,
            count: self.count,
            keyframe: self.keyframe,
            parts: parts_view(self.parts@),
        }
    }

    pub closed spec fn wf(&self) -> bool {
        &&& self.received == filled(parts_view(self.parts@))
        &&& self.parts@.len() <= u16::MAX
        &&& self.frame_id is Some ==> self.parts@.len() == self.count
    }

    pub fn new() -> (r: Self)
        ensures
            r.wf(),
            r.state().frame_id is None,
            r.state().count == 0,
            !r.state().keyframe,
            r.state().parts.len() == 0,
    {
        let r = Reassembler { frame_id: None, count: 0, received: 0, keyframe: false, parts: Vec::new() };
        assert(parts_view(r.parts@) =~= Seq::<Option<Seq<u8>>>::empty());
        r
    }

    fn reset(&mut self, frame_id: u32, count: u16, keyframe: bool)
        ensures
            final(self).wf(),
            final(self).state() == fresh_assembly(frame_id, count, keyframe),
    {
        let mut parts: Vec<Option<Vec<u8>>> = Vec::new();
        let mut i: u16 = 0;
        while i < count
            invariant
                i <= count,
                parts@.len() == i,
                forall|j: int| 0 <= j < i ==> (#[trigger] parts@[j]) is None,
            decreases count - i,
        {
            parts.push(None);
            i = i + 1;
        }
        self.frame_id = Some(frame_id);
        self.count = count;
        self.received = 0;
        self.keyframe = keyframe;
        self.parts = parts;
        assert(parts_view(self.parts@) =~= Seq::new(count as nat, |i: int| None::<Seq<u8>>));
        proof {
            lemma_filled_empty(count as nat);
        }
    }

    /// Feed a chunk. Returns `Some((keyframe, payload))` when a frame completes.
    pub fn push(&mut self, chunk: VideoChunk) -> (r: Option<(bool, Vec<u8>)>)
        requires
            old(self).wf(),
        ensures
            final(self).wf(),
            ({
                let (s, out) = push_step(
                    old(self).state(),
                    chunk.frame_id,
                    chunk.index,
                    chunk.count,
                    chunk.keyframe,
                    chunk.data@,
                );
                &&& final(self).state() == s
                &&& match out {
                    Some((kf, p)) => (r matches Some((k, v)) && k == kf && v@ == p),
                    None => r is None,
                }
            }),
    {
        match self.frame_id {
            Some(id) => {
                if id == chunk.frame_id {
                } else if is_newer(chunk.frame_id, id) {
                    self.reset(chunk.frame_id, chunk.count, chunk.keyframe);
                } else {
                    return None;
                }
            },
            None => {
                self.reset(chunk.frame_id, chunk.count, chunk.keyframe);
            },
        }
        let idx = chunk.index as usize;
        if idx >= self.parts.len() {
            return None;
        }
        proof {
            lemma_filled_bound(parts_view(self.parts@));
        }
        if self.parts[idx].is_none() {
            let ghost before = parts_view(self.parts@);
            let ghost data = chunk.data@;
            self.parts.set(idx, Some(chunk.data));
            proof {
                lemma_filled_update(before, idx as int, data);
                assert(parts_view(self.parts@) =~= before.update(idx as int, Some(data)));
            }
            self.received = self.received + 1;
        }
        if self.received == self.count as usize && self.count > 0 {
            proof {
                lemma_filled_bound(parts_view(self.parts@));
            }
            let mut out: Vec<u8> = Vec::new();
            let mut k: usize = 0;
            while k < self.parts.len()
                invariant
                    k <= self.parts@.len(),
                    forall|j: int| 0 <= j < self.parts@.len() ==> (#[trigger] parts_view(self.parts@)[j]) is Some,
                    out@ == concat_parts(parts_view(self.parts@).take(k as int)),
                decreases self.parts@.len() - k,
            {
                let ghost pv = parts_view(self.parts@);
                assert(pv[k as int] is Some);
                match &self.parts[k] {
                    Some(d) => {
                        append_bytes(&mut out, d.as_slice());
                    },
                    None => {},
                }
                assert(pv.take(k + 1).drop_last() =~= pv.take(k as int));
                k = k + 1;
            }
            assert(parts_view(self.parts@).take(self.parts@.len() as int) =~= parts_view(self.parts@));
            let kf = self.keyframe;
            self.frame_id = None;
            return Some((kf, out));
        }
        None
    }
}

/// True if `a` is newer than `b` accounting for `u32` wraparound.
fn is_newer(a: u32, b: u32) -> (r: bool)
    ensures
        r == newer(a, b),
{
    a != b && a.wrapping_sub(b) < u32::MAX / 2
}

/// Push a series of chunks: the final state and what each push returned.
pub open spec fn feed(s: Assembly, cs: Seq<VideoChunk>) -> (Assembly, Seq<
    Option<(bool, Seq<u8>)>,
>)
    decreases cs.len(),
{
    if cs.len() == 0 {
        (s, seq![])
    } else {
        let (t, outs) = feed(s, cs.drop_last());
        let c = cs.last();
        let (u, o) = push_step(t, c.frame_id, c.index, c.count, c.keyframe, c.data@);
        (u, outs.push(o))
    }
}

/// The chunks in the order given by their positions in `order`.
pub open spec fn arrival(cs: Seq<VideoChunk>, order: Seq<int>) -> Seq<VideoChunk> {
    order.map_values(|j: int| cs[j])
}

/// `cs` are the chunks `split_frame` makes of `payload`.
pub open spec fn is_split_of(
    cs: Seq<VideoChunk>,
    frame_id: u32,
    keyframe: bool,
    payload: Seq<u8>,
    m: int,
) -> bool {
    &&& m >= 1
    &&& cs.len() == chunk_count(payload.len() as int, m)
    &&& forall|i: int| 0 <= i < cs.len() ==> split_chunk_ok(#[trigger] cs[i], frame_id, keyframe, payload, m, i)
}

/// `order` lists distinct positions below `n`.
pub open spec fn distinct_below(order: Seq<int>, n: int) -> bool {
    &&& forall|i: int| 0 <= i < order.len() ==> 0 <= #[trigger] order[i] < n
    &&& forall|i: int, j: int| 0 <= i < order.len() && 0 <= j < order.len() && i != j ==> #[trigger] order[i] != #[trigger] order[j]
}

/// The state a reassembler is in before the frame's first chunk arrives: idle,
/// or collecting an older frame.
pub open spec fn ready_for(s: Assembly, frame_id: u32) -> bool {
    match s.frame_id {
        None => true,
        Some(cur) => cur != frame_id && newer(frame_id, cur),
    }
}

proof fn lemma_concat_chunks(payload: Seq<u8>, m: int, t: nat)
    requires
        m >= 1,
        t <= chunk_count(payload.len() as int, m),
    ensures
        concat_parts(Seq::new(t, |j: int| Some(chunk_data(payload, m, j)))) == payload.subrange(
            0,
            if t * m < payload.len() { t * m } else { payload.len() as int },
        ),
    decreases t,
{
    let parts = Seq::new(t, |j: int| Some(chunk_data(payload, m, j)));
    if t == 0 {
        assert(payload.subrange(0, 0) =~= Seq::<u8>::empty());
    } else {
        let t1 = (t - 1) as nat;
        lemma_concat_chunks(payload, m, t1);
        assert(parts.drop_last() =~= Seq::new(t1, |j: int| Some(chunk_data(payload, m, j))));
        let len = payload.len() as int;
        assert(t * m == t1 * m + m) by (nonlinear_arith)
            requires t1 == t - 1;
        if len > 0 {
            assert(t1 * m < len) by (nonlinear_arith)
                requires
                    t1 < t,
                    t <= (len + m - 1) / m,
                    m >= 1,
                    len > 0,
            ;
        }
        let prev_end = if t1 * m < len { t1 * m } else { len };
        assert(t1 * m >= 0) by (nonlinear_arith) requires m >= 1;
        assert(payload.subrange(0, prev_end) + chunk_data(payload, m, t1 as int) =~= payload.subrange(
            0,
            if t * m < len { t * m } else { len },
        ));
    }
}

proof fn lemma_feed_prefix(
    s: Assembly,
    cs: Seq<VideoChunk>,
    frame_id: u32,
    keyframe: bool,
    payload: Seq<u8>,
    m: int,
    order: Seq<int>,
    k: nat,
)
    requires
        is_split_of(cs, frame_id, keyframe, payload, m),
        cs.len() <= u16::MAX,
        distinct_below(order, cs.len() as int),
        ready_for(s, frame_id),
        order.len() <= cs.len(),
        1 <= k <= order.len(),
    ensures
        ({
            let n = cs.len() as int;
            let (t, outs) = feed(s, arrival(cs, order.take(k as int)));
            &&& outs.len() == k
            &&& forall|i: int| 0 <= i < k - 1 ==> (#[trigger] outs[i]) is None
            &&& k < n ==> {
                &&& outs[k - 1] is None
                &&& t.frame_id == Some(frame_id)
                &&& t.count == n as u16
                &&& t.keyframe == keyframe
                &&& t.parts.len() == n
                &&& filled(t.parts) == k
                &&& forall|j: int| 0 <= j < n ==> ((#[trigger] t.parts[j]) is Some <==> order.take(k as int).contains(j))
                &&& forall|j: int| 0 <= j < n && t.parts[j] is Some ==> t.parts[j] == Some(chunk_data(payload, m, j))
            }
            &&& k == n ==> outs[k - 1] == Some((keyframe, payload))
        }),
    decreases k,
{
    let n = cs.len() as int;
    let fed = arrival(cs, order.take(k as int));
    let prev = arrival(cs, order.take(k - 1));
    assert(fed.drop_last() =~= prev);
    let c = cs[order[k - 1]];
    assert(fed.last() == c);
    assert(split_chunk_ok(c, frame_id, keyframe, payload, m, order[k - 1]));
    assert(c.index as int == order[k - 1]);
    assert(c.count as int == n);
    let t0 = if k == 1 { s } else { feed(s, prev).0 };
    if k == 1 {
        assert(prev =~= Seq::<VideoChunk>::empty());
        let f = fresh_assembly(frame_id, c.count, keyframe);
        lemma_filled_empty(c.count as nat);
        assert(f.parts[c.index as int] is None);
        lemma_filled_update(f.parts, c.index as int, c.data@);
        let u_parts = f.parts.update(c.index as int, Some(c.data@));
        assert forall|j: int| 0 <= j < n implies ((#[trigger] u_parts[j]) is Some <==> order.take(k as int).contains(j)) by {
            if j == order[0] {
                assert(order.take(1)[0] == j);
            }
            if order.take(1).contains(j) {
                assert(order.take(1)[0] == order[0]);
            }
        }
        if k as int == n {
            lemma_filled_bound(u_parts);
            assert(u_parts =~= Seq::new(n as nat, |j: int| Some(chunk_data(payload, m, j))));
            lemma_concat_chunks(payload, m, n as nat);
            if n * m < payload.len() {
                assert(false) by (nonlinear_arith)
                    requires
                        n * m < payload.len(),
                        n == chunk_count(payload.len() as int, m),
                        m >= 1,
                ;
            }
            assert(payload.subrange(0, payload.len() as int) =~= payload);
        }
    } else {
        lemma_feed_prefix(s, cs, frame_id, keyframe, payload, m, order, (k - 1) as nat);
        let t = feed(s, prev).0;
        let j0 = order[k - 1];
        assert(!order.take(k - 1).contains(j0)) by {
            if order.take(k - 1).contains(j0) {
                let q = choose|q: int| 0 <= q < k - 1 && #[trigger] order.take(k - 1)[q] == j0;
                assert(order[q] == j0);
            }
        }
        assert(t.parts[j0] is None);
        lemma_filled_update(t.parts, j0, c.data@);
        let u_parts = t.parts.update(j0, Some(c.data@));
        assert forall|j: int| 0 <= j < n implies ((#[trigger] u_parts[j]) is Some <==> order.take(k as int).contains(j)) by {
            if j == j0 {
                assert(order.take(k as int)[k - 1] == j);
            } else {
                if order.take(k - 1).contains(j) {
                    let q = choose|q: int| 0 <= q < k - 1 && #[trigger] order.take(k - 1)[q] == j;
                    assert(order.take(k as int)[q] == j);
                }
                if order.take(k as int).contains(j) {
                    let q = choose|q: int| 0 <= q < k && #[trigger] order.take(k as int)[q] == j;
                    assert(q != k - 1);
                    assert(order.take(k - 1)[q] == j);
                }
            }
        }
        if k as int == n {
            lemma_filled_bound(u_parts);
            assert(u_parts =~= Seq::new(n as nat, |j: int| Some(chunk_data(payload, m, j))));
            lemma_concat_chunks(payload, m, n as nat);
            if n * m < payload.len() {
                assert(false) by (nonlinear_arith)
                    requires
                        n * m < payload.len(),
                        n == chunk_count(payload.len() as int, m),
                        m >= 1,
                ;
            }
            assert(payload.subrange(0, payload.len() as int) =~= payload);
        }
    }
}

/// Frame-id recency is a strict order on nearby ids, whatever the wraparound:
/// no id is newer than itself, of two ids at most one is newer than the other,
/// and an id up to just under half the `u32` space ahead of `b` (counting
/// modulo 2^32) is newer than `b`, while `b` is not newer than it.
pub proof fn law_newer_is_antisymmetric(a: u32, b: u32, d: u32)
    ensures
        !newer(a, a),
        newer(a, b) ==> !newer(b, a),
        0 < d < 0x7fff_ffff ==> newer(((b as int + d as int) % 0x1_0000_0000) as u32, b) && !newer(
            b,
            ((b as int + d as int) % 0x1_0000_0000) as u32,
        ),
{
}

/// A chunk of a frame older than the one being collected is ignored: the
/// reassembler's state is unchanged and nothing is handed out.
pub proof fn law_stale_chunk_ignored(
    s: Assembly,
    frame_id: u32,
    index: u16,
    count: u16,
    keyframe: bool,
    data: Seq<u8>,
)
    requires
        s.frame_id matches Some(cur) && cur != frame_id && newer(cur, frame_id),
    ensures
        push_step(s, frame_id, index, count, keyframe, data) == (s, None::<(bool, Seq<u8>)>),
{
    law_newer_is_antisymmetric(s.frame_id.unwrap(), frame_id, 0);
}

/// Whatever order a frame's chunks arrive in, the reassembler hands out the
/// frame byte for byte when, and only when, the last of them arrives.
pub proof fn law_reassembles_in_any_order(
    s: Assembly,
    cs: Seq<VideoChunk>,
    frame_id: u32,
    keyframe: bool,
    payload: Seq<u8>,
    m: int,
    order: Seq<int>,
)
    requires
        is_split_of(cs, frame_id, keyframe, payload, m),
        cs.len() <= u16::MAX,
        distinct_below(order, cs.len() as int),
        order.len() == cs.len(),
        ready_for(s, frame_id),
    ensures
        ({
            let outs = feed(s, arrival(cs, order)).1;
            &&& outs.len() == cs.len()
            &&& forall|i: int| 0 <= i < outs.len() - 1 ==> (#[trigger] outs[i]) is None
            &&& outs[outs.len() - 1] == Some((keyframe, payload))
        }),
{
    let len = payload.len() as int;
    if len > 0 {
        assert((len + m - 1) / m >= 1) by (nonlinear_arith)
            requires
                len >= 1,
                m >= 1,
        ;
    }
    lemma_feed_prefix(s, cs, frame_id, keyframe, payload, m, order, order.len());
    assert(order.take(order.len() as int) =~= order);
}

/// A frame missing any chunk is never handed out.
pub proof fn law_incomplete_frame_never_completes(
    s: Assembly,
    cs: Seq<VideoChunk>,
    frame_id: u32,
    keyframe: bool,
    payload: Seq<u8>,
    m: int,
    order: Seq<int>,
)
    requires
        is_split_of(cs, frame_id, keyframe, payload, m),
        cs.len() <= u16::MAX,
        distinct_below(order, cs.len() as int),
        order.len() < cs.len(),
        ready_for(s, frame_id),
    ensures
        forall|i: int|
            0 <= i < order.len() ==> (#[trigger] feed(s, arrival(cs, order)).1[i]) is None,
{
    if order.len() > 0 {
        lemma_feed_prefix(s, cs, frame_id, keyframe, payload, m, order, order.len());
        assert(order.take(order.len() as int) =~= order);
    }
}

} // verus!
