//! Incremental framing of a server-sent-events byte stream.
//!
//! Events are delimited by a blank line (`"\n\n"`).  Only the part of the
//! buffer up to and including the last such delimiter is complete; its lines
//! that start with `data: ` (after trimming) carry one JSON payload each.
//! Everything after the last delimiter stays buffered for the next delivery.
use vstd::prelude::*;

verus! {

/// The byte `'\n'`.
pub const NEWLINE: u8 = 10;

/// ASCII whitespace as trimmed from a line: space, tab, LF, VT, FF, CR.
pub open spec fn is_ws(b: u8) -> bool {
    b == 32 || b == 9 || b == 10 || b == 11 || b == 12 || b == 13
}

pub open spec fn trim_start(s: Seq<u8>) -> Seq<u8>
    decreases s.len(),
{
    if s.len() > 0 && is_ws(s[0]) {
        trim_start(s.drop_first())
    } else {
        s
    }
}

pub open spec fn trim_end(s: Seq<u8>) -> Seq<u8>
    decreases s.len(),
{
    if s.len() > 0 && is_ws(s.last()) {
        trim_end(s.drop_last())
    } else {
        s
    }
}

/// The line without leading and trailing whitespace.
pub open spec fn trim(s: Seq<u8>) -> Seq<u8> {
    trim_end(trim_start(s))
}

/// The bytes of `data: `.
pub open spec fn data_prefix() -> Seq<u8> {
    seq![100u8, 97u8, 116u8, 97u8, 58u8, 32u8]
}

/// The payload that one line carries: what follows `data: ` in the trimmed
/// line, or nothing when the trimmed line does not start with `data: `.
pub open spec fn line_payload(line: Seq<u8>) -> Seq<Seq<u8>> {
    let t = trim(line);
    if t.len() >= 6 && t.subrange(0, 6) == data_prefix() {
        seq![t.subrange(6, t.len() as int)]
    } else {
        seq![]
    }
}

/// The payloads of the newline-terminated lines of `s`, where `cur` holds
/// the start of the line that `s` continues.  Bytes after the last newline
/// form no line.
pub open spec fn scan_lines(cur: Seq<u8>, s: Seq<u8>) -> Seq<Seq<u8>>
    decreases s.len(),
{
    if s.len() == 0 {
        seq![]
    } else if s[0] == NEWLINE {
        line_payload(cur) + scan_lines(Seq::empty(), s.drop_first())
    } else {
        scan_lines(cur.push(s[0]), s.drop_first())
    }
}

/// The payloads of the complete lines of `s`, in order.
pub open spec fn data_payloads(s: Seq<u8>) -> Seq<Seq<u8>> {
    scan_lines(Seq::empty(), s)
}

/// The end of the last `"\n\n"` in `s`, or 0 when there is none.
pub open spec fn boundary_end(s: Seq<u8>) -> nat
    decreases s.len(),
{
    if s.len() < 2 {
        0
    } else if s[s.len() - 2] == NEWLINE && s[s.len() - 1] == NEWLINE {
        s.len()
    } else {
        boundary_end(s.drop_last())
    }
}

/// The payloads of the complete part of a buffer.
pub open spec fn framed_events(buf: Seq<u8>) -> Seq<Seq<u8>> {
    data_payloads(buf.subrange(0, boundary_end(buf) as int))
}

/// What a buffer keeps after its complete part is taken.
pub open spec fn framed_rest(buf: Seq<u8>) -> Seq<u8> {
    buf.subrange(boundary_end(buf) as int, buf.len() as int)
}

/// Whether `s` holds `"\n\n"` anywhere.
pub open spec fn has_boundary(s: Seq<u8>) -> bool {
    exists|i: int| 0 <= i && i + 1 < s.len() && #[trigger] s[i] == NEWLINE && s[i + 1] == NEWLINE
}

pub open spec fn byte_views(v: Seq<Vec<u8>>) -> Seq<Seq<u8>> {
    v.map_values(|x: Vec<u8>| x@)
}

/// Delivering `chunks` one after another to a framer that holds `buffer`:
/// the payloads emitted along the way and the buffer left at the end.
pub open spec fn feed(buffer: Seq<u8>, chunks: Seq<Seq<u8>>) -> (Seq<Seq<u8>>, Seq<u8>)
    decreases chunks.len(),
{
    if chunks.len() == 0 {
        (seq![], buffer)
    } else {
        let b = buffer + chunks[0];
        let next = feed(framed_rest(b), chunks.drop_first());
        (framed_events(b) + next.0, next.1)
    }
}

/// All payloads of a stream delivered as `chunks`, the final pass at the
/// end of the stream included.
pub open spec fn stream_payloads(chunks: Seq<Seq<u8>>) -> Seq<Seq<u8>> {
    let r = feed(Seq::empty(), chunks);
    r.0 + framed_events(r.1)
}

proof fn lemma_boundary_end_bound(s: Seq<u8>)
    ensures
        boundary_end(s) <= s.len(),
        boundary_end(s) > 0 ==> boundary_end(s) >= 2 && s[boundary_end(s) - 2] == NEWLINE
            && s[boundary_end(s) - 1] == NEWLINE,
    decreases s.len(),
{
    if s.len() >= 2 && !(s[s.len() - 2] == NEWLINE && s[s.len() - 1] == NEWLINE) {
        lemma_boundary_end_bound(s.drop_last());
    }
}

proof fn lemma_no_boundary_zero(s: Seq<u8>)
    requires
        !has_boundary(s),
    ensures
        boundary_end(s) == 0,
    decreases s.len(),
{
    if s.len() >= 2 {
        if s[s.len() - 2] == NEWLINE && s[s.len() - 1] == NEWLINE {
            let i = s.len() - 2;
            assert(0 <= i && i + 1 < s.len() && s[i] == NEWLINE && s[i + 1] == NEWLINE);
        } else {
            let t = s.drop_last();
            assert(!has_boundary(t)) by {
                if has_boundary(t) {
                    let i = choose|i: int|
                        0 <= i && i + 1 < t.len() && #[trigger] t[i] == NEWLINE && t[i + 1] == NEWLINE;
                    assert(s[i] == NEWLINE && s[i + 1] == NEWLINE);
                }
            }
            lemma_no_boundary_zero(t);
        }
    }
}

/// Splitting at a line end splits the payloads.
proof fn lemma_scan_concat(cur: Seq<u8>, a: Seq<u8>, b: Seq<u8>)
    requires
        a.len() > 0,
        a.last() == NEWLINE,
    ensures
        scan_lines(cur, a + b) == scan_lines(cur, a) + scan_lines(Seq::empty(), b),
    decreases a.len(),
{
    let ab = a + b;
    assert(ab[0] == a[0]);
    assert(ab.drop_first() =~= a.drop_first() + b);
    if a[0] == NEWLINE {
        if a.len() == 1 {
            assert(a.drop_first() =~= Seq::<u8>::empty());
            assert(a.drop_first() + b =~= b);
            assert(scan_lines(Seq::empty(), a.drop_first()) =~= seq![]);
            assert(scan_lines(cur, a) =~= line_payload(cur));
        } else {
            lemma_scan_concat(Seq::empty(), a.drop_first(), b);
            assert(scan_lines(cur, ab) =~= scan_lines(cur, a) + scan_lines(Seq::empty(), b));
        }
    } else {
        assert(a.len() >= 2);
        lemma_scan_concat(cur.push(a[0]), a.drop_first(), b);
    }
}

proof fn lemma_payloads_concat(a: Seq<u8>, b: Seq<u8>)
    requires
        a.len() == 0 || a.last() == NEWLINE,
    ensures
        data_payloads(a + b) == data_payloads(a) + data_payloads(b),
{
    if a.len() == 0 {
        assert(a + b =~= b);
        assert(data_payloads(a) =~= seq![]);
        assert(data_payloads(a) + data_payloads(b) =~= data_payloads(b));
    } else {
        lemma_scan_concat(Seq::empty(), a, b);
    }
}

proof fn lemma_single_newline_no_payload()
    ensures
        data_payloads(seq![NEWLINE]) == Seq::<Seq<u8>>::empty(),
{
    let s = seq![NEWLINE];
    assert(s.drop_first() =~= Seq::<u8>::empty());
    assert(trim(Seq::<u8>::empty()) =~= Seq::<u8>::empty());
    assert(line_payload(Seq::empty()) =~= seq![]);
    assert(s[0] == NEWLINE);
    assert(scan_lines(Seq::empty(), s.drop_first()) =~= seq![]);
    assert(data_payloads(s) == line_payload(Seq::empty()) + scan_lines(
        Seq::empty(),
        s.drop_first(),
    ));
    assert(data_payloads(s) =~= seq![]);
}

/// Where the last boundary of `p + x` lies when `p` ends with `"\n\n"`.
proof fn lemma_boundary_after_prefix(p: Seq<u8>, x: Seq<u8>)
    requires
        p.len() >= 2,
        p[p.len() - 2] == NEWLINE,
        p[p.len() - 1] == NEWLINE,
    ensures
        boundary_end(p + x) == if boundary_end(x) > 0 {
            p.len() + boundary_end(x)
        } else if x.len() > 0 && x[0] == NEWLINE {
            p.len() + 1
        } else {
            p.len() as nat
        },
    decreases x.len(),
{
    let s = p + x;
    if x.len() == 0 {
        assert(s =~= p);
    } else {
        assert(s.drop_last() =~= p + x.drop_last());
        lemma_boundary_after_prefix(p, x.drop_last());
    }
}

/// Framing `y + z` in one go emits what framing `y` emits, followed by what
/// framing its rest with `z` emits.
proof fn lemma_frame_split(y: Seq<u8>, z: Seq<u8>)
    ensures
        framed_events(y + z) == framed_events(y) + framed_events(framed_rest(y) + z),
{
    let k = boundary_end(y);
    lemma_boundary_end_bound(y);
    if k == 0 {
        assert(y.subrange(0, 0) =~= Seq::<u8>::empty());
        assert(framed_events(y) =~= seq![]);
        assert(framed_rest(y) =~= y);
        assert(framed_events(y) + framed_events(y + z) =~= framed_events(y + z));
    } else {
        let p = y.subrange(0, k as int);
        let r = framed_rest(y);
        let x = r + z;
        assert(y + z =~= p + x);
        lemma_boundary_after_prefix(p, x);
        lemma_boundary_end_bound(x);
        let bx = boundary_end(x);
        if bx > 0 {
            assert((p + x).subrange(0, (k + bx) as int) =~= p + x.subrange(0, bx as int));
            lemma_payloads_concat(p, x.subrange(0, bx as int));
        } else if x.len() > 0 && x[0] == NEWLINE {
            assert((p + x).subrange(0, (k + 1) as int) =~= p + seq![NEWLINE]);
            lemma_payloads_concat(p, seq![NEWLINE]);
            lemma_single_newline_no_payload();
            assert(x.subrange(0, 0) =~= Seq::<u8>::empty());
            assert(framed_events(x) =~= seq![]);
        } else {
            assert((p + x).subrange(0, k as int) =~= p);
            assert(x.subrange(0, 0) =~= Seq::<u8>::empty());
            assert(framed_events(x) =~= seq![]);
        }
    }
}

proof fn lemma_feed_from(buffer: Seq<u8>, chunks: Seq<Seq<u8>>)
    ensures
        feed(buffer, chunks).0 + framed_events(feed(buffer, chunks).1) == framed_events(
            buffer + chunks.flatten(),
        ),
    decreases chunks.len(),
{
    if chunks.len() == 0 {
        assert(chunks.flatten() =~= Seq::<u8>::empty());
        assert(buffer + chunks.flatten() =~= buffer);
        assert(seq![] + framed_events(buffer) =~= framed_events(buffer));
    } else {
        let b = buffer + chunks[0];
        let rest = chunks.drop_first();
        lemma_feed_from(framed_rest(b), rest);
        lemma_frame_split(b, rest.flatten());
        assert(chunks =~= seq![chunks[0]] + rest);
        lemma_flatten_head(chunks);
        assert(buffer + chunks.flatten() =~= b + rest.flatten());
        let n = feed(framed_rest(b), rest);
        assert(feed(buffer, chunks).0 + framed_events(feed(buffer, chunks).1) =~= framed_events(b)
            + (n.0 + framed_events(n.1)));
    }
}

proof fn lemma_flatten_head(chunks: Seq<Seq<u8>>)
    requires
        chunks.len() > 0,
    ensures
        chunks.flatten() == chunks[0] + chunks.drop_first().flatten(),
{
    assert(chunks.flatten() == chunks.first() + chunks.drop_first().flatten());
}

/// Chunking invariance: the payloads of a stream depend on its bytes alone,
/// not on how the transport cut them into deliveries.
pub proof fn lemma_chunking_invariance(chunks: Seq<Seq<u8>>)
    ensures
        stream_payloads(chunks) == framed_events(chunks.flatten()),
{
    lemma_feed_from(Seq::empty(), chunks);
    assert(Seq::<u8>::empty() + chunks.flatten() =~= chunks.flatten());
}

/// Two deliveries of the same bytes yield the same payloads.
pub proof fn lemma_same_bytes_same_payloads(a: Seq<Seq<u8>>, b: Seq<Seq<u8>>)
    requires
        a.flatten() == b.flatten(),
    ensures
        stream_payloads(a) == stream_payloads(b),
{
    lemma_chunking_invariance(a);
    lemma_chunking_invariance(b);
}

/// A buffer without `"\n\n"` yields no payload and is kept whole.
pub proof fn lemma_no_boundary_keeps_buffer(buf: Seq<u8>)
    requires
        !has_boundary(buf),
    ensures
        framed_events(buf) == Seq::<Seq<u8>>::empty(),
        framed_rest(buf) == buf,
{
    lemma_no_boundary_zero(buf);
    assert(buf.subrange(0, 0) =~= Seq::<u8>::empty());
    assert(framed_events(buf) =~= seq![]);
    assert(framed_rest(buf) =~= buf);
}

fn is_ws_byte(b: u8) -> (r: bool)
    ensures
        r == is_ws(b),
{
    b == 32 || b == 9 || b == 10 || b == 11 || b == 12 || b == 13
}

/// The end of the last `"\n\n"` in the buffer, or 0.
fn find_boundary_end(buf: &[u8]) -> (r: usize)
    ensures
        r as nat == boundary_end(buf@),
{
    let mut i: usize = buf.len();
    proof {
        assert(buf@.subrange(0, i as int) =~= buf@);
    }
    while i >= 2 && !(buf[i - 2] == NEWLINE && buf[i - 1] == NEWLINE)
        invariant
            i <= buf.len(),
            boundary_end(buf@.subrange(0, i as int)) == boundary_end(buf@),
        decreases i,
    {
        proof {
            assert(buf@.subrange(0, i as int).drop_last() =~= buf@.subrange(0, i - 1));
        }
        i = i - 1;
    }
    if i < 2 {
        0
    } else {
        i
    }
}

fn copy_range(buf: &[u8], lo: usize, hi: usize) -> (r: Vec<u8>)
    requires
        lo <= hi <= buf.len(),
    ensures
        r@ == buf@.subrange(lo as int, hi as int),
{
    let mut out: Vec<u8> = Vec::new();
    let mut i: usize = lo;
    while i < hi
        invariant
            lo <= i <= hi <= buf.len(),
            out@ == buf@.subrange(lo as int, i as int),
        decreases hi - i,
    {
        out.push(buf[i]);
        proof {
            assert(out@ =~= buf@.subrange(lo as int, i + 1));
        }
        i = i + 1;
    }
    out
}

/// Appends the payload of the line `buf[lo..hi]`, if it carries one.
fn push_line_payload(buf: &[u8], lo: usize, hi: usize, out: &mut Vec<Vec<u8>>)
    requires
        lo <= hi <= buf.len(),
    ensures
        byte_views(final(out)@) == byte_views(old(out)@) + line_payload(
            buf@.subrange(lo as int, hi as int),
        ),
{
    let ghost line = buf@.subrange(lo as int, hi as int);
    let mut a: usize = lo;
    while a < hi && is_ws_byte(buf[a])
        invariant
            lo <= a <= hi <= buf.len(),
            trim_start(line) == trim_start(buf@.subrange(a as int, hi as int)),
        decreases hi - a,
    {
        proof {
            assert(buf@.subrange(a as int, hi as int).drop_first() =~= buf@.subrange(
                a + 1,
                hi as int,
            ));
        }
        a = a + 1;
    }
    assert(trim_start(line) == buf@.subrange(a as int, hi as int));
    let mut b: usize = hi;
    proof {
        assert(buf@.subrange(a as int, b as int) =~= buf@.subrange(a as int, hi as int));
    }
    while b > a && is_ws_byte(buf[b - 1])
        invariant
            lo <= a <= b <= hi <= buf.len(),
            trim(line) == trim_end(buf@.subrange(a as int, b as int)),
        decreases b - a,
    {
        proof {
            assert(buf@.subrange(a as int, b as int).drop_last() =~= buf@.subrange(
                a as int,
                b - 1,
            ));
        }
        b = b - 1;
    }
    let ghost t = buf@.subrange(a as int, b as int);
    assert(trim(line) == t);
    let is_data = b - a >= 6 && buf[a] == 100 && buf[a + 1] == 97 && buf[a + 2] == 116
        && buf[a + 3] == 97 && buf[a + 4] == 58 && buf[a + 5] == 32;
    proof {
        if is_data {
            assert(t.subrange(0, 6) =~= data_prefix());
        } else if t.len() >= 6 && t.subrange(0, 6) == data_prefix() {
            assert(t.subrange(0, 6)[0] == 100u8);
            assert(t.subrange(0, 6)[1] == 97u8);
            assert(t.subrange(0, 6)[2] == 116u8);
            assert(t.subrange(0, 6)[3] == 97u8);
            assert(t.subrange(0, 6)[4] == 58u8);
            assert(t.subrange(0, 6)[5] == 32u8);
        }
    }
    if is_data {
        let payload = copy_range(buf, a + 6, b);
        assert(payload@ =~= t.subrange(6, t.len() as int));
        out.push(payload);
        proof {
            assert(byte_views(out@) =~= byte_views(old(out)@) + line_payload(line));
        }
    } else {
        proof {
            assert(byte_views(old(out)@) + line_payload(line) =~= byte_views(old(out)@));
        }
    }
}

/// Frames a buffer: the JSON payloads of the `data: ` lines of its complete
/// part, and the bytes after its last `"\n\n"`, which wait for more input.
pub fn parse_sse_events(buffer: &[u8]) -> (r: (Vec<Vec<u8>>, Vec<u8>))
    ensures
        byte_views(r.0@) == framed_events(buffer@),
        r.1@ == framed_rest(buffer@),
{
    let cut = find_boundary_end(buffer);
    proof {
        lemma_boundary_end_bound(buffer@);
    }
    let ghost whole = buffer@.subrange(0, cut as int);
    let mut out: Vec<Vec<u8>> = Vec::new();
    let mut start: usize = 0;
    let mut i: usize = 0;
    proof {
        assert(buffer@.subrange(0, 0) =~= Seq::<u8>::empty());
        assert(byte_views(out@) =~= seq![]);
        assert(byte_views(out@) + data_payloads(whole) =~= data_payloads(whole));
    }
    while i < cut
        invariant
            start <= i <= cut <= buffer.len(),
            cut as nat == boundary_end(buffer@),
            whole == buffer@.subrange(0, cut as int),
            byte_views(out@) + scan_lines(
                buffer@.subrange(start as int, i as int),
                buffer@.subrange(i as int, cut as int),
            ) == data_payloads(whole),
        decreases cut - i,
    {
        let ghost before = byte_views(out@);
        let ghost cur = buffer@.subrange(start as int, i as int);
        let ghost s = buffer@.subrange(i as int, cut as int);
        proof {
            assert(s[0] == buffer@[i as int]);
            assert(s.drop_first() =~= buffer@.subrange(i + 1, cut as int));
        }
        if buffer[i] == NEWLINE {
            push_line_payload(buffer, start, i, &mut out);
            proof {
                assert(buffer@.subrange(i + 1, i + 1) =~= Seq::<u8>::empty());
                assert(byte_views(out@) + scan_lines(
                    buffer@.subrange(i + 1, i + 1),
                    buffer@.subrange(i + 1, cut as int),
                ) =~= before + scan_lines(cur, s));
            }
            start = i + 1;
        } else {
            proof {
                assert(cur.push(buffer@[i as int]) =~= buffer@.subrange(start as int, i + 1));
            }
        }
        i = i + 1;
    }
    proof {
        assert(byte_views(out@) + seq![] =~= byte_views(out@));
    }
    let rest = copy_range(buffer, cut, buffer.len());
    (out, rest)
}

/// The state that a byte-stream bridge keeps across polls: the bytes that
/// wait for a boundary, the payloads framed but not handed out yet, and
/// whether the transport has finished.
pub struct SseFramer {
    buffer: Vec<u8>,
    pending: Vec<Vec<u8>>,
    done: bool,
}

/// What the consumer of a framed stream does next.
pub enum SseAction {
    /// Decode and hand out this JSON payload.
    Emit(Vec<u8>),
    /// Pull the next byte range from the transport.
    Fetch,
    /// The stream is over.
    End,
}

impl SseFramer {
    pub closed spec fn buffered(&self) -> Seq<u8> {
        self.buffer@
    }

    pub closed spec fn queued(&self) -> Seq<Seq<u8>> {
        byte_views(self.pending@)
    }

    pub closed spec fn finished(&self) -> bool {
        self.done
    }

    pub fn new() -> (r: SseFramer)
        ensures
            r.buffered() == Seq::<u8>::empty(),
            r.queued() == Seq::<Seq<u8>>::empty(),
            !r.finished(),
    {
        let r = SseFramer { buffer: Vec::new(), pending: Vec::new(), done: false };
        assert(r.queued() =~= Seq::<Seq<u8>>::empty());
        r
    }

    pub fn is_done(&self) -> (r: bool)
        ensures
            r == self.finished(),
    {
        self.done
    }

    fn enqueue(&mut self, events: Vec<Vec<u8>>)
        ensures
            final(self).queued() == old(self).queued() + byte_views(events@),
            final(self).buffered() == old(self).buffered(),
            final(self).finished() == old(self).finished(),
    {
        let mut i: usize = 0;
        while i < events.len()
            invariant
                i <= events.len(),
                self.queued() == old(self).queued() + byte_views(events@.subrange(0, i as int)),
                self.buffered() == old(self).buffered(),
                self.finished() == old(self).finished(),
            decreases events.len() - i,
        {
            let e = copy_range(events[i].as_slice(), 0, events[i].len());
            let ghost prev = self.pending@;
            self.pending.push(e);
            proof {
                assert(byte_views(prev.push(e)) =~= byte_views(prev).push(e@));
                assert(byte_views(events@.subrange(0, i + 1)) =~= byte_views(
                    events@.subrange(0, i as int),
                ).push(events[i as int]@));
                assert(events[i as int]@.subrange(0, events[i as int]@.len() as int)
                    =~= events[i as int]@);
                assert(self.queued() =~= old(self).queued() + byte_views(
                    events@.subrange(0, i + 1),
                ));
            }
            i = i + 1;
        }
        assert(events@.subrange(0, events@.len() as int) =~= events@);
    }

    /// A new byte range arrived: frame what is now complete and queue it.
    pub fn on_bytes(&mut self, bytes: &[u8])
        ensures
            final(self).buffered() == framed_rest(old(self).buffered() + bytes@),
            final(self).queued() == old(self).queued() + framed_events(
                old(self).buffered() + bytes@,
            ),
            final(self).finished() == old(self).finished(),
    {
        let mut i: usize = 0;
        while i < bytes.len()
            invariant
                i <= bytes.len(),
                self.buffer@ == old(self).buffer@ + bytes@.subrange(0, i as int),
                self.pending == old(self).pending,
                self.done == old(self).done,
            decreases bytes.len() - i,
        {
            self.buffer.push(bytes[i]);
            proof {
                assert(self.buffer@ =~= old(self).buffer@ + bytes@.subrange(0, i + 1));
            }
            i = i + 1;
        }
        assert(bytes@.subrange(0, bytes@.len() as int) =~= bytes@);
        let (events, rest) = parse_sse_events(self.buffer.as_slice());
        self.buffer = rest;
        self.enqueue(events);
    }

    /// The transport finished: give the buffer one last framing pass.
    pub fn on_end(&mut self)
        ensures
            final(self).buffered() == Seq::<u8>::empty(),
            final(self).queued() == old(self).queued() + framed_events(old(self).buffered()),
            final(self).finished(),
    {
        let (events, _rest) = parse_sse_events(self.buffer.as_slice());
        self.buffer = Vec::new();
        self.done = true;
        self.enqueue(events);
    }

    /// The transport failed: no further bytes will be pulled.
    pub fn on_failure(&mut self)
        ensures
            final(self).buffered() == old(self).buffered(),
            final(self).queued() == old(self).queued(),
            final(self).finished(),
    {
        self.done = true;
    }

    /// Queued payloads go out first, in order; then the stream ends if the
    /// transport is finished, else more bytes are needed.
    pub fn next_action(&mut self) -> (r: SseAction)
        ensures
            final(self).buffered() == old(self).buffered(),
            final(self).finished() == old(self).finished(),
            old(self).queued().len() > 0 ==> r == SseAction::Emit(r->Emit_0) && r->Emit_0@
                == old(self).queued()[0] && final(self).queued() == old(self).queued().drop_first(),
            old(self).queued().len() == 0 ==> final(self).queued() == old(self).queued() && r == (
            if old(self).finished() {
                SseAction::End
            } else {
                SseAction::Fetch
            }),
    {
        if self.pending.len() > 0 {
            let first = self.pending.remove(0);
            proof {
                assert(self.queued() =~= old(self).queued().drop_first());
            }
            SseAction::Emit(first)
        } else if self.done {
            SseAction::End
        } else {
            SseAction::Fetch
        }
    }
}

} // verus!
