//! Line framing of the wire protocol.
//!
//! A frame is a run of bytes that holds no line terminator. On the wire it is
//! followed by the line terminator and by exactly one more byte, which the
//! receiver discards whatever it is.

use vstd::prelude::*;

verus! {

/// The byte that ends a frame.
pub const LINE_TERMINATOR: u8 = 10;

/// What a reader holds between two calls, as plain data.
pub struct FrameState {
    /// Bytes received and not yet handed out.
    pub pending: Seq<u8>,
    /// Whether the byte that follows the last frame is still to come.
    pub skip: bool,
}

/// The position of the first line terminator in `bytes`, or the length of
/// `bytes` if there is none.
pub open spec fn terminator_index(bytes: Seq<u8>) -> int
    decreases bytes.len(),
{
    if bytes.len() == 0 {
        0
    } else if bytes[0] == LINE_TERMINATOR {
        0
    } else {
        1 + terminator_index(bytes.drop_first())
    }
}

/// Whether `bytes` holds no line terminator.
pub open spec fn is_payload(bytes: Seq<u8>) -> bool {
    forall|i: int| 0 <= i < bytes.len() ==> #[trigger] bytes[i] != LINE_TERMINATOR
}

/// The state without received bytes.
pub open spec fn empty_state() -> FrameState {
    FrameState { pending: Seq::empty(), skip: false }
}

/// The state after `bytes` arrived.
pub open spec fn state_after_push(state: FrameState, bytes: Seq<u8>) -> FrameState {
    if state.skip && bytes.len() > 0 {
        FrameState { pending: state.pending + bytes.drop_first(), skip: false }
    } else {
        FrameState { pending: state.pending + bytes, skip: state.skip }
    }
}

/// Whether a whole frame, with its line terminator, is pending.
pub open spec fn has_frame(state: FrameState) -> bool {
    terminator_index(state.pending) < state.pending.len()
}

/// The first pending frame, without its line terminator.
pub open spec fn first_frame(state: FrameState) -> Seq<u8> {
    state.pending.take(terminator_index(state.pending))
}

/// The state after the first pending frame was taken out. The byte behind
/// the line terminator is dropped at once if it is there, and when it arrives
/// otherwise.
pub open spec fn state_after_frame(state: FrameState) -> FrameState {
    let rest = state.pending.skip(terminator_index(state.pending) + 1);
    if rest.len() > 0 {
        FrameState { pending: rest.drop_first(), skip: false }
    } else {
        FrameState { pending: rest, skip: true }
    }
}

/// The bytes that carry `payload` as one frame, ending in the delimiter byte
/// `extra`.
pub open spec fn framed(payload: Seq<u8>, extra: u8) -> Seq<u8> {
    payload.push(LINE_TERMINATOR).push(extra)
}

/// The first line terminator is within the sequence or at its end, and no
/// byte before it is a line terminator: a frame that is handed out holds
/// none.
pub proof fn lemma_terminator_index(bytes: Seq<u8>)
    ensures
        0 <= terminator_index(bytes) <= bytes.len(),
        is_payload(bytes.take(terminator_index(bytes))),
        terminator_index(bytes) < bytes.len() ==> bytes[terminator_index(bytes)]
            == LINE_TERMINATOR,
    decreases bytes.len(),
{
    if bytes.len() > 0 && bytes[0] != LINE_TERMINATOR {
        let tail = bytes.drop_first();
        lemma_terminator_index(tail);
        let k = terminator_index(tail);
        assert forall|i: int| 0 <= i < k + 1 implies #[trigger] bytes.take(k + 1)[i]
            != LINE_TERMINATOR by {
            if i > 0 {
                assert(tail.take(k)[i - 1] == bytes[i]);
            }
        }
    }
}

/// With a payload in front of a line terminator, the first line terminator
/// is the one behind the payload.
pub proof fn lemma_terminator_after_payload(payload: Seq<u8>, rest: Seq<u8>)
    requires
        is_payload(payload),
    ensures
        terminator_index(payload.push(LINE_TERMINATOR) + rest) == payload.len(),
    decreases payload.len(),
{
    let all = payload.push(LINE_TERMINATOR) + rest;
    if payload.len() == 0 {
        assert(all[0] == LINE_TERMINATOR);
    } else {
        assert(all[0] == payload[0]);
        let tail = payload.drop_first();
        assert(is_payload(tail)) by {
            assert forall|i: int| 0 <= i < tail.len() implies #[trigger] tail[i]
                != LINE_TERMINATOR by {
                assert(tail[i] == payload[i + 1]);
            }
        }
        lemma_terminator_after_payload(tail, rest);
        assert(all.drop_first() =~= tail.push(LINE_TERMINATOR) + rest);
    }
}

/// A reader that cuts a received byte stream into frames.
pub struct FrameBuffer {
    data: Vec<u8>,
    skip: bool,
}

impl View for FrameBuffer {
    type V = FrameState;

    closed spec fn view(&self) -> FrameState {
        FrameState { pending: self.data@, skip: self.skip }
    }
}

impl FrameBuffer {
    /// A reader that has received nothing.
    pub fn new() -> (buffer: FrameBuffer)
        ensures
            buffer@ == empty_state(),
    {
        FrameBuffer { data: Vec::new(), skip: false }
    }

    /// The number of bytes received and not yet handed out.
    pub fn pending_len(&self) -> (n: usize)
        ensures
            n == self@.pending.len(),
    {
        self.data.len()
    }

    /// Takes in bytes as they arrived from the connection.
    pub fn push_bytes(&mut self, bytes: &[u8])
        ensures
            final(self)@ == state_after_push(old(self)@, bytes@),
    {
        let mut i: usize = 0;
        if self.skip && bytes.len() > 0 {
            self.skip = false;
            i = 1;
        }
        let ghost start = i as int;
        let ghost before = self.data@;
        let ghost skip = self.skip;
        while i < bytes.len()
            invariant
                0 <= start <= i <= bytes.len(),
                self.skip == skip,
                self.data@ == before + bytes@.subrange(start, i as int),
            decreases bytes.len() - i,
        {
            self.data.push(bytes[i]);
            proof {
                assert(bytes@.subrange(start, i as int + 1) =~= bytes@.subrange(
                    start,
                    i as int,
                ).push(bytes@[i as int]));
            }
            i = i + 1;
        }
        proof {
            assert(bytes@.subrange(0, bytes@.len() as int) =~= bytes@);
            if start == 1 {
                assert(bytes@.subrange(1, bytes@.len() as int) =~= bytes@.drop_first());
            }
        }
    }

    /// Hands out the next frame if a whole one is pending.
    ///
    /// Returns `None`, and leaves the reader as it was, while the line
    /// terminator of the next frame has not arrived.
    pub fn next_frame(&mut self) -> (frame: Option<Vec<u8>>)
        ensures
            frame is Some <==> has_frame(old(self)@),
            frame matches Some(payload) ==> payload@ == first_frame(old(self)@),
            frame is Some ==> final(self)@ == state_after_frame(old(self)@),
            frame is None ==> final(self)@ == old(self)@,
    {
        let ghost all = self.data@;
        let n: usize = self.data.len();
        let mut at: usize = 0;
        while at < n && self.data[at] != LINE_TERMINATOR
            invariant
                at <= n,
                n == self.data@.len(),
                self.data@ == all,
                is_payload(all.take(at as int)),
            decreases n - at,
        {
            proof {
                assert forall|i: int| 0 <= i < at + 1 implies #[trigger] all.take(at as int + 1)[i]
                    != LINE_TERMINATOR by {
                    if i < at {
                        assert(all.take(at as int)[i] == all[i]);
                    }
                }
            }
            at = at + 1;
        }
        proof {
            lemma_first_terminator(all, at as int);
        }
        if at == n {
            return None;
        }
        let extra_is_there = at + 1 < n;
        let behind: usize = if extra_is_there {
            at + 2
        } else {
            at + 1
        };
        self.skip = !extra_is_there;
        let mut rest = self.data.split_off(behind);
        self.data.truncate(at);
        std::mem::swap(&mut self.data, &mut rest);
        let frame = rest;
        proof {
            let tail = all.skip(at as int + 1);
            assert(frame@ =~= all.take(at as int));
            if tail.len() > 0 {
                assert(all.subrange(behind as int, n as int) =~= tail.drop_first());
            } else {
                assert(all.subrange(behind as int, n as int) =~= tail);
            }
        }
        Some(frame)
    }
}

/// A position whose byte is the first line terminator, or the length of a
/// sequence without one, is what `terminator_index` gives.
pub proof fn lemma_first_terminator(bytes: Seq<u8>, at: int)
    requires
        0 <= at <= bytes.len(),
        is_payload(bytes.take(at)),
        at < bytes.len() ==> bytes[at] == LINE_TERMINATOR,
    ensures
        terminator_index(bytes) == at,
    decreases bytes.len(),
{
    if bytes.len() == 0 {
    } else if at == 0 {
    } else {
        assert(bytes.take(at)[0] == bytes[0]);
        let tail = bytes.drop_first();
        assert(is_payload(tail.take(at - 1))) by {
            assert forall|i: int| 0 <= i < at - 1 implies #[trigger] tail.take(at - 1)[i]
                != LINE_TERMINATOR by {
                assert(bytes.take(at)[i + 1] == tail[i]);
            }
        }
        lemma_first_terminator(tail, at - 1);
    }
}

/// Framing law. A stream that carries two frames, each followed by the line
/// terminator and one more byte, gives back the two payloads and nothing
/// else, whatever the two extra bytes are.
pub proof fn lemma_two_frames(first: Seq<u8>, second: Seq<u8>, extra1: u8, extra2: u8)
    requires
        is_payload(first),
        is_payload(second),
    ensures
        ({
            let s0 = state_after_push(
                empty_state(),
                framed(first, extra1) + framed(second, extra2),
            );
            let s1 = state_after_frame(s0);
            let s2 = state_after_frame(s1);
            &&& has_frame(s0)
            &&& first_frame(s0) == first
            &&& has_frame(s1)
            &&& first_frame(s1) == second
            &&& !has_frame(s2)
            &&& s2 == empty_state()
        }),
{
    let stream = framed(first, extra1) + framed(second, extra2);
    let s0 = state_after_push(empty_state(), stream);
    assert(s0.pending =~= stream);
    let rest1 = seq![extra1] + framed(second, extra2);
    assert(stream =~= first.push(LINE_TERMINATOR) + rest1);
    lemma_terminator_after_payload(first, rest1);
    assert(first_frame(s0) =~= first);
    let s1 = state_after_frame(s0);
    assert(stream.skip(first.len() as int + 1) =~= rest1);
    assert(rest1.drop_first() =~= framed(second, extra2));
    assert(s1.pending =~= framed(second, extra2));
    let rest2 = seq![extra2];
    assert(framed(second, extra2) =~= second.push(LINE_TERMINATOR) + rest2);
    lemma_terminator_after_payload(second, rest2);
    assert(first_frame(s1) =~= second);
    let s2 = state_after_frame(s1);
    assert(s1.pending.skip(second.len() as int + 1) =~= rest2);
    assert(rest2.drop_first() =~= Seq::<u8>::empty());
    assert(s2.pending =~= Seq::<u8>::empty());
}

/// The frame that is handed out holds no line terminator.
pub proof fn lemma_frame_is_payload(state: FrameState)
    ensures
        is_payload(first_frame(state)),
{
    lemma_terminator_index(state.pending);
}

/// It does not matter in how many pieces the bytes arrive: taking in two
/// pieces one after the other leaves the reader as taking in both at once.
pub proof fn lemma_push_in_pieces(state: FrameState, first: Seq<u8>, second: Seq<u8>)
    ensures
        state_after_push(state_after_push(state, first), second) == state_after_push(
            state,
            first + second,
        ),
{
    let once = state_after_push(state, first + second);
    let twice = state_after_push(state_after_push(state, first), second);
    if first.len() == 0 {
        assert(first + second =~= second);
        assert(state.pending + first =~= state.pending);
    } else if state.skip {
        assert((first + second).drop_first() =~= first.drop_first() + second);
        assert(twice.pending =~= once.pending);
    } else {
        assert(twice.pending =~= once.pending);
    }
}

/// The stream that carries the payloads as frames, one after the other, each
/// followed by the line terminator and its extra byte.
pub open spec fn framed_stream(payloads: Seq<Seq<u8>>, extras: Seq<u8>) -> Seq<u8>
    decreases payloads.len(),
{
    if payloads.len() == 0 {
        Seq::empty()
    } else {
        framed(payloads[0], extras[0]) + framed_stream(payloads.drop_first(), extras.drop_first())
    }
}

/// The frames that come out when `count` frames are taken one after the
/// other, as long as a whole frame is pending.
pub open spec fn frames_taken(state: FrameState, count: nat) -> Seq<Seq<u8>>
    decreases count,
{
    if count == 0 || !has_frame(state) {
        Seq::empty()
    } else {
        seq![first_frame(state)] + frames_taken(state_after_frame(state), (count - 1) as nat)
    }
}

/// The state after `count` frames were taken, as long as a whole frame was
/// pending.
pub open spec fn state_after_frames(state: FrameState, count: nat) -> FrameState
    decreases count,
{
    if count == 0 || !has_frame(state) {
        state
    } else {
        state_after_frames(state_after_frame(state), (count - 1) as nat)
    }
}

/// Framing law for any number of frames. From a stream that carries the
/// payloads as frames, whatever the extra bytes are, the payloads come out
/// unaltered and in their order, and nothing is left.
pub proof fn lemma_frames_come_out_in_order(payloads: Seq<Seq<u8>>, extras: Seq<u8>)
    requires
        extras.len() == payloads.len(),
        forall|i: int| 0 <= i < payloads.len() ==> is_payload(#[trigger] payloads[i]),
    ensures
        ({
            let received = FrameState { pending: framed_stream(payloads, extras), skip: false };
            &&& state_after_push(empty_state(), framed_stream(payloads, extras)) == received
            &&& frames_taken(received, payloads.len()) == payloads
            &&& state_after_frames(received, payloads.len()) == empty_state()
            &&& !has_frame(state_after_frames(received, payloads.len()))
        }),
    decreases payloads.len(),
{
    let stream = framed_stream(payloads, extras);
    let received = FrameState { pending: stream, skip: false };
    assert(Seq::<u8>::empty() + stream =~= stream);
    if payloads.len() == 0 {
        assert(frames_taken(received, 0) =~= payloads);
    } else {
        let rest_payloads = payloads.drop_first();
        let rest_extras = extras.drop_first();
        let rest = framed_stream(rest_payloads, rest_extras);
        assert forall|i: int| 0 <= i < rest_payloads.len() implies is_payload(
            #[trigger] rest_payloads[i],
        ) by {
            assert(rest_payloads[i] == payloads[i + 1]);
        }
        lemma_frames_come_out_in_order(rest_payloads, rest_extras);
        let behind = seq![extras[0]] + rest;
        assert(stream =~= payloads[0].push(LINE_TERMINATOR) + behind);
        lemma_terminator_after_payload(payloads[0], behind);
        assert(first_frame(received) =~= payloads[0]);
        assert(stream.skip(payloads[0].len() as int + 1) =~= behind);
        assert(behind.drop_first() =~= rest);
        let next = FrameState { pending: rest, skip: false };
        assert(state_after_frame(received) == next);
        assert(frames_taken(received, payloads.len()) == seq![payloads[0]] + frames_taken(
            next,
            rest_payloads.len(),
        ));
        assert(seq![payloads[0]] + rest_payloads =~= payloads);
        assert(state_after_frames(received, payloads.len()) == state_after_frames(
            next,
            rest_payloads.len(),
        ));
    }
}

} // verus!
