//! Framing of a byte stream into packets: each packet is preceded by its
//! length as eight big-endian bytes.

use vstd::prelude::*;

verus! {

/// Bytes received so far, and the length of the packet being received once
/// its eight length bytes are in.
pub struct Delimiter {
    size: Option<u64>,
    buffer: Vec<u8>,
}

pub struct DelimiterView {
    pub size: Option<u64>,
    pub buffer: Seq<u8>,
}

impl View for Delimiter {
    type V = DelimiterView;

    closed spec fn view(&self) -> DelimiterView {
        DelimiterView { size: self.size, buffer: self.buffer@ }
    }
}

/// The number whose big-endian bytes start `b`.
pub open spec fn be_u64(b: Seq<u8>) -> u64 {
    (b[0] as int * 0x100000000000000 + b[1] as int * 0x1000000000000 + b[2] as int * 0x10000000000 + b[3] as int
        * 0x100000000 + b[4] as int * 0x1000000 + b[5] as int * 0x10000 + b[6] as int * 0x100 + b[7] as int) as u64
}

/// The eight big-endian bytes of `n`.
pub open spec fn be_bytes(n: u64) -> Seq<u8> {
    seq![
        (n / 0x100000000000000) as u8,
        (n / 0x1000000000000 % 256) as u8,
        (n / 0x10000000000 % 256) as u8,
        (n / 0x100000000 % 256) as u8,
        (n / 0x1000000 % 256) as u8,
        (n / 0x10000 % 256) as u8,
        (n / 0x100 % 256) as u8,
        (n % 256) as u8,
    ]
}

/// `payload` framed: its length, then itself.
pub open spec fn frame(payload: Seq<u8>) -> Seq<u8> {
    be_bytes(payload.len() as u64) + payload
}

/// What a call of `pop` returns on `d`, and the state it leaves: the length
/// is taken from the first eight bytes when none is pending; the packet comes
/// out once that many bytes follow.
pub open spec fn spec_pop(d: DelimiterView) -> (Option<Seq<u8>>, DelimiterView) {
    let d = if d.size is None && d.buffer.len() >= 8 {
        DelimiterView { size: Some(be_u64(d.buffer)), buffer: d.buffer.subrange(8, d.buffer.len() as int) }
    } else {
        d
    };
    match d.size {
        None => (None, d),
        Some(size) => {
            let size = size as usize;
            if d.buffer.len() >= size {
                (
                    Some(d.buffer.subrange(0, size as int)),
                    DelimiterView { size: None, buffer: d.buffer.subrange(size as int, d.buffer.len() as int) },
                )
            } else {
                (None, d)
            }
        },
    }
}

impl Default for Delimiter {
    fn default() -> (r: Delimiter)
        ensures
            r@.size is None,
            r@.buffer == Seq::<u8>::empty(),
    {
        Delimiter { size: None, buffer: Vec::new() }
    }
}

fn read_be_u64(b: &Vec<u8>) -> (r: u64)
    requires
        b@.len() >= 8,
    ensures
        r == be_u64(b@),
{
    let b0 = b[0] as u64;
    let b1 = b[1] as u64;
    let b2 = b[2] as u64;
    let b3 = b[3] as u64;
    let b4 = b[4] as u64;
    let b5 = b[5] as u64;
    let b6 = b[6] as u64;
    let b7 = b[7] as u64;
    let r = (b0 << 56u64) | (b1 << 48u64) | (b2 << 40u64) | (b3 << 32u64) | (b4 << 24u64) | (b5 << 16u64) | (b6
        << 8u64) | b7;
    assert(r == b0 * 0x100000000000000 + b1 * 0x1000000000000 + b2 * 0x10000000000 + b3 * 0x100000000 + b4
        * 0x1000000 + b5 * 0x10000 + b6 * 0x100 + b7) by (bit_vector)
        requires
            b0 < 256,
            b1 < 256,
            b2 < 256,
            b3 < 256,
            b4 < 256,
            b5 < 256,
            b6 < 256,
            b7 < 256,
            r == (b0 << 56u64) | (b1 << 48u64) | (b2 << 40u64) | (b3 << 32u64) | (b4 << 24u64) | (b5 << 16u64) | (b6
                << 8u64) | b7,
    ;
    r
}

impl Delimiter {
    pub fn new() -> (r: Delimiter)
        ensures
            r@.size is None,
            r@.buffer == Seq::<u8>::empty(),
    {
        Delimiter { size: None, buffer: Vec::new() }
    }

    /// Appends received bytes.
    pub fn push(&mut self, data: &[u8])
        ensures
            final(self)@.size == old(self)@.size,
            final(self)@.buffer == old(self)@.buffer + data@,
    {
        self.buffer.extend_from_slice(data);
        assert(self.buffer@ =~= old(self)@.buffer + data@);
    }

    /// The next whole packet, if its bytes are all in.
    pub fn pop(&mut self) -> (r: Option<Vec<u8>>)
        ensures
            match r {
                Some(packet) => spec_pop(old(self)@).0 == Some(packet@),
                None => spec_pop(old(self)@).0 is None,
            },
            final(self)@ == spec_pop(old(self)@).1,
    {
        if self.size.is_none() && self.buffer.len() >= 8 {
            let size = read_be_u64(&self.buffer);
            let rest = self.buffer.split_off(8);
            self.buffer = rest;
            self.size = Some(size);
        }
        let size = match self.size {
            None => {
                return None;
            },
            Some(size) => size as usize,
        };
        if self.buffer.len() >= size {
            self.size = None;
            let mut packet = self.buffer.split_off(size);
            core::mem::swap(&mut packet, &mut self.buffer);
            Some(packet)
        } else {
            None
        }
    }
}

/// The bytes of `n` in big-endian order read back as `n`.
pub proof fn lemma_be_round_trip(n: u64)
    ensures
        be_u64(be_bytes(n)) == n,
{
    let c0 = n / 0x100000000000000;
    let c1 = n / 0x1000000000000 % 256;
    let c2 = n / 0x10000000000 % 256;
    let c3 = n / 0x100000000 % 256;
    let c4 = n / 0x1000000 % 256;
    let c5 = n / 0x10000 % 256;
    let c6 = n / 0x100 % 256;
    let c7 = n % 256;
    assert(c0 < 256 && c0 * 0x100000000000000 + c1 * 0x1000000000000 + c2 * 0x10000000000 + c3 * 0x100000000 + c4
        * 0x1000000 + c5 * 0x10000 + c6 * 0x100 + c7 == n) by (bit_vector)
        requires
            c0 == n / 0x100000000000000,
            c1 == n / 0x1000000000000 % 256,
            c2 == n / 0x10000000000 % 256,
            c3 == n / 0x100000000 % 256,
            c4 == n / 0x1000000 % 256,
            c5 == n / 0x10000 % 256,
            c6 == n / 0x100 % 256,
            c7 == n % 256,
    ;
}

/// A framed packet followed by any further bytes, pushed into a delimiter
/// with nothing pending, pops as that packet and leaves the further bytes.
pub proof fn lemma_frame_then_pop(payload: Seq<u8>, rest: Seq<u8>)
    requires
        payload.len() <= usize::MAX,
    ensures
        spec_pop(DelimiterView { size: None, buffer: frame(payload) + rest }) == (
            Some(payload),
            DelimiterView { size: None, buffer: rest },
        ),
{
    let buffer = frame(payload) + rest;
    lemma_be_round_trip(payload.len() as u64);
    assert(buffer.subrange(0, 8) =~= be_bytes(payload.len() as u64));
    assert(be_u64(buffer) == be_u64(buffer.subrange(0, 8)));
    let after = buffer.subrange(8, buffer.len() as int);
    assert(after =~= payload + rest);
    assert(after.subrange(0, payload.len() as int) =~= payload);
    assert(after.subrange(payload.len() as int, after.len() as int) =~= rest);
}

/// Popping before a packet is complete loses nothing: after more bytes
/// arrive, popping gives what it would have given had the early pop not
/// happened.
pub proof fn lemma_early_pop_keeps_bytes(d: DelimiterView, extra: Seq<u8>)
    requires
        spec_pop(d).0 is None,
    ensures
        ({
            let kept = spec_pop(d).1;
            spec_pop(DelimiterView { size: kept.size, buffer: kept.buffer + extra }) == spec_pop(
                DelimiterView { size: d.size, buffer: d.buffer + extra },
            )
        }),
{
    let joined = d.buffer + extra;
    if d.size is None && d.buffer.len() >= 8 {
        let kept = spec_pop(d).1;
        assert(be_u64(joined) == be_u64(d.buffer)) by {
            assert(joined[0] == d.buffer[0] && joined[1] == d.buffer[1] && joined[2] == d.buffer[2] && joined[3]
                == d.buffer[3]);
            assert(joined[4] == d.buffer[4] && joined[5] == d.buffer[5] && joined[6] == d.buffer[6] && joined[7]
                == d.buffer[7]);
        }
        assert(joined.subrange(8, joined.len() as int) =~= kept.buffer + extra);
    }
}

/// Bytes pushed in pieces are the bytes pushed at once.
pub proof fn lemma_push_in_pieces(d: DelimiterView, first: Seq<u8>, second: Seq<u8>)
    ensures
        spec_pop(DelimiterView { size: d.size, buffer: (d.buffer + first) + second }) == spec_pop(
            DelimiterView { size: d.size, buffer: d.buffer + (first + second) },
        ),
{
    assert((d.buffer + first) + second =~= d.buffer + (first + second));
}

/// `payloads` framed one after the other.
pub open spec fn frames(payloads: Seq<Seq<u8>>) -> Seq<u8>
    decreases payloads.len(),
{
    if payloads.len() == 0 {
        Seq::empty()
    } else {
        frame(payloads[0]) + frames(payloads.subrange(1, payloads.len() as int))
    }
}

/// What `n` calls of `pop` in turn return from `d`, and the state they leave.
pub open spec fn pop_times(d: DelimiterView, n: nat) -> (Seq<Option<Seq<u8>>>, DelimiterView)
    decreases n,
{
    if n == 0 {
        (Seq::empty(), d)
    } else {
        let (first, next) = spec_pop(d);
        let (others, last) = pop_times(next, (n - 1) as nat);
        (seq![first] + others, last)
    }
}

/// Framed packets pushed one after the other, followed by any further bytes,
/// pop in the order they were framed, each whole, and leave the further bytes.
pub proof fn lemma_frames_pop_in_order(payloads: Seq<Seq<u8>>, rest: Seq<u8>)
    requires
        forall|i: int| 0 <= i < payloads.len() ==> #[trigger] payloads[i].len() <= usize::MAX,
    ensures
        pop_times(DelimiterView { size: None, buffer: frames(payloads) + rest }, payloads.len()) == (
            Seq::new(payloads.len(), |i: int| Some(payloads[i])),
            DelimiterView { size: None, buffer: rest },
        ),
    decreases payloads.len(),
{
    if payloads.len() == 0 {
        assert(Seq::new(0, |i: int| Some(payloads[i])) =~= Seq::<Option<Seq<u8>>>::empty());
        assert(frames(payloads) + rest =~= rest);
    } else {
        let tail = payloads.subrange(1, payloads.len() as int);
        assert(payloads[0].len() <= usize::MAX);
        lemma_frame_then_pop(payloads[0], frames(tail) + rest);
        assert(frames(payloads) + rest =~= frame(payloads[0]) + (frames(tail) + rest));
        assert forall|i: int| 0 <= i < tail.len() implies #[trigger] tail[i].len() <= usize::MAX by {
            assert(tail[i] == payloads[i + 1]);
        }
        lemma_frames_pop_in_order(tail, rest);
        assert(seq![Some(payloads[0])] + Seq::new(tail.len(), |i: int| Some(tail[i])) =~= Seq::new(
            payloads.len(),
            |i: int| Some(payloads[i]),
        ));
    }
}

/// What is left of the stream in `d`: the length bytes of the packet being
/// received, if they have been taken, then the bytes not taken yet.
pub open spec fn pending(d: DelimiterView) -> Seq<u8> {
    match d.size {
        Some(size) => be_bytes(size) + d.buffer,
        None => d.buffer,
    }
}

/// A pending packet length fits in memory.
pub open spec fn size_fits(d: DelimiterView) -> bool {
    d.size matches Some(size) ==> size <= usize::MAX
}

/// Every payload's length fits in memory.
pub open spec fn lengths_fit(payloads: Seq<Seq<u8>>) -> bool {
    forall|i: int| 0 <= i < payloads.len() ==> #[trigger] payloads[i].len() <= usize::MAX
}

/// One call on a delimiter: a push of some bytes, or a pop.
pub enum StreamCall {
    Push(Seq<u8>),
    Pop,
}

/// The bytes that `calls` push, in order.
pub open spec fn pushed(calls: Seq<StreamCall>) -> Seq<u8>
    decreases calls.len(),
{
    if calls.len() == 0 {
        Seq::empty()
    } else {
        let rest = pushed(calls.subrange(1, calls.len() as int));
        match calls[0] {
            StreamCall::Push(bytes) => bytes + rest,
            StreamCall::Pop => rest,
        }
    }
}

/// The packets that `calls` pop from `d`, in order, and the state they leave.
pub open spec fn run_calls(d: DelimiterView, calls: Seq<StreamCall>) -> (Seq<Seq<u8>>, DelimiterView)
    decreases calls.len(),
{
    if calls.len() == 0 {
        (Seq::empty(), d)
    } else {
        let (out, next) = match calls[0] {
            StreamCall::Push(bytes) => (None, DelimiterView { size: d.size, buffer: d.buffer + bytes }),
            StreamCall::Pop => spec_pop(d),
        };
        let (others, last) = run_calls(next, calls.subrange(1, calls.len() as int));
        (
            match out {
                Some(packet) => seq![packet] + others,
                None => others,
            },
            last,
        )
    }
}

/// `n` pops.
pub open spec fn pops(n: nat) -> Seq<StreamCall> {
    Seq::new(n, |i: int| StreamCall::Pop)
}

/// Bytes that start with the big-endian bytes of `n` read as `n`.
proof fn lemma_header(x: Seq<u8>, n: u64)
    requires
        x.len() >= 8,
        x.subrange(0, 8) == be_bytes(n),
    ensures
        be_u64(x) == n,
{
    lemma_be_round_trip(n);
    let h = x.subrange(0, 8);
    assert(x[0] == h[0] && x[1] == h[1] && x[2] == h[2] && x[3] == h[3]);
    assert(x[4] == h[4] && x[5] == h[5] && x[6] == h[6] && x[7] == h[7]);
}

/// Where `a + f == b + c` and `a` is at least as long as `b`, `a` is `b`
/// followed by the part of `c` that `f` does not hold.
proof fn lemma_split_long(a: Seq<u8>, f: Seq<u8>, b: Seq<u8>, c: Seq<u8>)
    requires
        a + f == b + c,
        a.len() >= b.len(),
    ensures
        a.subrange(0, b.len() as int) == b,
        a.subrange(b.len() as int, a.len() as int) + f == c,
{
    assert((a + f).len() == (b + c).len());
    assert forall|i: int| 0 <= i < b.len() implies a.subrange(0, b.len() as int)[i] == b[i] by {
        assert((a + f)[i] == a[i]);
        assert((b + c)[i] == b[i]);
    }
    assert(a.subrange(0, b.len() as int) =~= b);
    let t = a.subrange(b.len() as int, a.len() as int) + f;
    assert(a.subrange(b.len() as int, a.len() as int).len() == a.len() - b.len());
    assert((a + f).len() == a.len() + f.len());
    assert((b + c).len() == b.len() + c.len());
    assert(t.len() == c.len());
    assert forall|i: int| 0 <= i < c.len() implies t[i] == c[i] by {
        let k = b.len() + i;
        assert((b + c)[k] == c[i]);
        if k < a.len() {
            assert((a + f)[k] == a[k]);
            assert(t[i] == a[k]);
        } else {
            assert((a + f)[k] == f[k - a.len()]);
            assert(t[i] == f[k - a.len()]);
        }
    }
    assert(t =~= c);
}

/// Where `a + f == b + c` and `a` is shorter than `b`, `a` starts `b`.
proof fn lemma_split_short(a: Seq<u8>, f: Seq<u8>, b: Seq<u8>, c: Seq<u8>)
    requires
        a + f == b + c,
        a.len() < b.len(),
    ensures
        b.subrange(0, a.len() as int) == a,
{
    assert forall|i: int| 0 <= i < a.len() implies b.subrange(0, a.len() as int)[i] == a[i] by {
        assert((a + f)[i] == a[i]);
        assert((b + c)[i] == b[i]);
    }
    assert(b.subrange(0, a.len() as int) =~= a);
}

/// A pop with no length pending, on bytes that start the frame of `m`.
proof fn lemma_pop_unsized(b: Seq<u8>, fut: Seq<u8>, m: Seq<u8>, rest: Seq<u8>)
    requires
        m.len() <= usize::MAX,
        b + fut == frame(m) + rest,
    ensures
        ({
            let (out, next) = spec_pop(DelimiterView { size: None, buffer: b });
            &&& size_fits(next)
            &&& if b.len() >= frame(m).len() {
                &&& out == Some(m)
                &&& pending(next) + fut == rest
            } else {
                &&& out is None
                &&& pending(next) == b
            }
        }),
{
    let header = be_bytes(m.len() as u64);
    if b.len() >= frame(m).len() {
        lemma_split_long(b, fut, frame(m), rest);
        let r = b.subrange(frame(m).len() as int, b.len() as int);
        assert(b =~= frame(m) + r);
        lemma_frame_then_pop(m, r);
    } else if b.len() >= 8 {
        assert(frame(m) + rest =~= header + (m + rest));
        lemma_split_long(b, fut, header, m + rest);
        lemma_header(b, m.len() as u64);
        let after = b.subrange(8, b.len() as int);
        assert(header + after =~= b);
    }
}

/// A pop with length `size` pending and bytes `b` after it, where the length
/// bytes and `b` start the frame of `m`.
proof fn lemma_pop_sized(size: u64, b: Seq<u8>, fut: Seq<u8>, m: Seq<u8>, rest: Seq<u8>)
    requires
        m.len() <= usize::MAX,
        (be_bytes(size) + b) + fut == frame(m) + rest,
    ensures
        ({
            let (out, next) = spec_pop(DelimiterView { size: Some(size), buffer: b });
            &&& size_fits(next) || next.size == Some(size)
            &&& if b.len() >= m.len() {
                &&& out == Some(m)
                &&& pending(next) + fut == rest
            } else {
                &&& out is None
                &&& next == DelimiterView { size: Some(size), buffer: b }
            }
        }),
{
    let header = be_bytes(m.len() as u64);
    let p = be_bytes(size) + b;
    assert(frame(m) + rest =~= header + (m + rest));
    lemma_split_long(p, fut, header, m + rest);
    assert(p.subrange(0, 8) =~= be_bytes(size));
    lemma_be_round_trip(size);
    lemma_be_round_trip(m.len() as u64);
    assert(size == m.len());
    assert(p.subrange(8, p.len() as int) =~= b);
    if b.len() >= m.len() {
        lemma_split_long(b, fut, m, rest);
    }
}

/// A pop on a delimiter holding the start of a stream of frames, `fut`
/// being the rest of the stream: where the first frame is whole, it comes
/// out and the rest of the stream stays; otherwise nothing comes out and the
/// stream stays as it was.
proof fn lemma_pop_stream(d: DelimiterView, fut: Seq<u8>, tail: Seq<Seq<u8>>)
    requires
        size_fits(d),
        lengths_fit(tail),
        pending(d) + fut == frames(tail),
    ensures
        ({
            let (out, next) = spec_pop(d);
            &&& size_fits(next)
            &&& if tail.len() > 0 && pending(d).len() >= frame(tail[0]).len() {
                &&& out == Some(tail[0])
                &&& pending(next) + fut == frames(tail.subrange(1, tail.len() as int))
            } else {
                &&& out is None
                &&& pending(next) == pending(d)
            }
        }),
{
    if tail.len() == 0 {
        lemma_pop_empty(d, fut);
        return;
    }
    let m = tail[0];
    let rest = frames(tail.subrange(1, tail.len() as int));
    assert(frames(tail) == frame(m) + rest);
    assert(m.len() <= usize::MAX);
    lemma_lengths(d, m);
    match d.size {
        None => {
            lemma_pop_unsized(d.buffer, fut, m, rest);
        },
        Some(size) => {
            lemma_pop_sized(size, d.buffer, fut, m, rest);
        },
    }
}

/// A pop on a delimiter with nothing pending gives nothing.
proof fn lemma_pop_empty(d: DelimiterView, fut: Seq<u8>)
    requires
        size_fits(d),
        pending(d) + fut == Seq::<u8>::empty(),
    ensures
        spec_pop(d) == (None::<Seq<u8>>, d),
{
    assert((pending(d) + fut).len() == 0);
    if d.size is Some {
        assert(pending(d).len() >= 8);
    }
}

proof fn lemma_lengths(d: DelimiterView, m: Seq<u8>)
    ensures
        frame(m).len() == 8 + m.len(),
        d.size matches Some(size) ==> pending(d).len() == 8 + d.buffer.len(),
        d.size is None ==> pending(d) == d.buffer,
{
}

/// The calls run from a delimiter holding the start of a stream of frames,
/// whose pushes carry on the stream, pop the first frames in order and
/// leave the rest of the stream pending.
proof fn lemma_run_stream(d: DelimiterView, calls: Seq<StreamCall>, tail: Seq<Seq<u8>>)
    requires
        size_fits(d),
        lengths_fit(tail),
        pending(d) + pushed(calls) == frames(tail),
    ensures
        ({
            let (out, last) = run_calls(d, calls);
            &&& size_fits(last)
            &&& out.len() <= tail.len()
            &&& out == tail.subrange(0, out.len() as int)
            &&& pending(last) == frames(tail.subrange(out.len() as int, tail.len() as int))
        }),
    decreases calls.len(),
{
    if calls.len() == 0 {
        assert(pending(d) + pushed(calls) =~= pending(d));
        assert(tail.subrange(0, tail.len() as int) =~= tail);
        assert(tail.subrange(0, 0) =~= Seq::<Seq<u8>>::empty());
        return;
    }
    let rest = calls.subrange(1, calls.len() as int);
    match calls[0] {
        StreamCall::Push(bytes) => {
            let next = DelimiterView { size: d.size, buffer: d.buffer + bytes };
            assert(pending(next) =~= pending(d) + bytes);
            assert(pending(next) + pushed(rest) =~= pending(d) + pushed(calls));
            lemma_run_stream(next, rest, tail);
        },
        StreamCall::Pop => {
            lemma_pop_stream(d, pushed(rest), tail);
            let (out, next) = spec_pop(d);
            if tail.len() > 0 && pending(d).len() >= frame(tail[0]).len() {
                let t = tail.subrange(1, tail.len() as int);
                assert forall|i: int| 0 <= i < t.len() implies #[trigger] t[i].len() <= usize::MAX by {
                    assert(t[i] == tail[i + 1]);
                }
                lemma_run_stream(next, rest, t);
                let (others, last) = run_calls(next, rest);
                assert(seq![tail[0]] + others =~= tail.subrange(0, others.len() + 1int));
                assert(t.subrange(others.len() as int, t.len() as int) =~= tail.subrange(
                    others.len() + 1int,
                    tail.len() as int,
                ));
            } else {
                lemma_run_stream(next, rest, tail);
            }
        },
    }
}

/// At least as many pops as there are frames left take them all out, in
/// order, and leave the delimiter empty.
proof fn lemma_drain(d: DelimiterView, tail: Seq<Seq<u8>>, n: nat)
    requires
        size_fits(d),
        lengths_fit(tail),
        pending(d) == frames(tail),
        n >= tail.len(),
    ensures
        run_calls(d, pops(n)) == (tail, DelimiterView { size: None, buffer: Seq::empty() }),
    decreases n,
{
    if n == 0 {
        assert(tail.len() == 0);
        if d.size is Some {
            assert(pending(d).len() >= 8);
        }
        assert(d.buffer =~= Seq::<u8>::empty());
        assert(tail =~= Seq::<Seq<u8>>::empty());
        return;
    }
    assert(pops(n).subrange(1, n as int) =~= pops((n - 1) as nat));
    assert(pending(d) + Seq::<u8>::empty() =~= frames(tail));
    lemma_pop_stream(d, Seq::empty(), tail);
    let (out, next) = spec_pop(d);
    if tail.len() > 0 {
        assert(frames(tail) == frame(tail[0]) + frames(tail.subrange(1, tail.len() as int)));
        let t = tail.subrange(1, tail.len() as int);
        assert forall|i: int| 0 <= i < t.len() implies #[trigger] t[i].len() <= usize::MAX by {
            assert(t[i] == tail[i + 1]);
        }
        assert(pending(next) + Seq::<u8>::empty() =~= pending(next));
        lemma_drain(next, t, (n - 1) as nat);
        assert(seq![tail[0]] + t =~= tail);
    } else {
        lemma_drain(next, tail, (n - 1) as nat);
    }
}

/// Packets framed one after the other and pushed into a fresh delimiter in
/// any pieces, with pops in between, come out whole and in the order they
/// were framed; the pops in between give a first part of them, and as many
/// further pops as there are packets give the rest and leave the delimiter
/// empty, so that one more pop gives nothing.
pub proof fn lemma_stream_round_trip(payloads: Seq<Seq<u8>>, calls: Seq<StreamCall>)
    requires
        lengths_fit(payloads),
        pushed(calls) == frames(payloads),
    ensures
        ({
            let (early, d) = run_calls(DelimiterView { size: None, buffer: Seq::empty() }, calls);
            let (late, last) = run_calls(d, pops(payloads.len()));
            &&& early + late == payloads
            &&& last == DelimiterView { size: None, buffer: Seq::<u8>::empty() }
            &&& spec_pop(last).0 is None
        }),
{
    let start = DelimiterView { size: None, buffer: Seq::<u8>::empty() };
    assert(pending(start) + pushed(calls) =~= frames(payloads));
    lemma_run_stream(start, calls, payloads);
    let (early, d) = run_calls(start, calls);
    let t = payloads.subrange(early.len() as int, payloads.len() as int);
    assert forall|i: int| 0 <= i < t.len() implies #[trigger] t[i].len() <= usize::MAX by {
        assert(t[i] == payloads[early.len() + i]);
    }
    lemma_drain(d, t, payloads.len());
    assert(early + t =~= payloads);
}

/// The bytes of a frame that has only partly arrived pop as nothing, and
/// once the rest of it is pushed the packet pops whole: the early pop loses
/// nothing, whether or not it took the length bytes.
pub proof fn lemma_partial_frame(payload: Seq<u8>, first: Seq<u8>, second: Seq<u8>)
    requires
        payload.len() <= usize::MAX,
        first + second == frame(payload),
        second.len() > 0,
    ensures
        ({
            let (out, d) = spec_pop(DelimiterView { size: None, buffer: first });
            &&& out is None
            &&& spec_pop(DelimiterView { size: d.size, buffer: d.buffer + second }) == (
                Some(payload),
                DelimiterView { size: None, buffer: Seq::<u8>::empty() },
            )
        }),
{
    let tail = seq![payload];
    assert(tail.subrange(1, 1) =~= Seq::<Seq<u8>>::empty());
    assert(frames(tail) =~= frame(payload) + frames(tail.subrange(1, 1)));
    assert(frames(tail) =~= frame(payload));
    let start = DelimiterView { size: None, buffer: first };
    lemma_pop_stream(start, second, tail);
    let (out, d) = spec_pop(start);
    let d2 = DelimiterView { size: d.size, buffer: d.buffer + second };
    assert(pending(d2) =~= pending(d) + second);
    assert(pending(d2) + Seq::<u8>::empty() =~= frames(tail));
    lemma_pop_stream(d2, Seq::empty(), tail);
    let (out2, d3) = spec_pop(d2);
    assert(pending(d3) =~= Seq::<u8>::empty());
    if d3.size is Some {
        assert(pending(d3).len() >= 8);
    }
}

} // verus!
