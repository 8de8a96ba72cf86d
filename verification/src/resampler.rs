//! The sample queue in front of the rate converter: packets of interleaved
//! stereo samples go in as they arrive, whole blocks of frames come out,
//! one channel each, and silence fills the gaps that the transport leaves.

use std::collections::VecDeque;
use vstd::prelude::*;

verus! {

/// The samples of silence that stand in for a packet that did not come
/// within [`WAIT_MS`]: 100 ms at 48 samples a millisecond.
pub const SILENCE_SAMPLES: usize = 4800;

/// How long the caller waits for a packet before it asks for silence, in
/// milliseconds.
pub const WAIT_MS: u64 = 100;

/// What the transport hands to one speaker's session.
#[derive(Debug)]
pub enum ListenerEvent {
    /// Interleaved stereo samples, left first.
    AudioPacket(Vec<i16>),
    /// The speaker has left.
    Disconnect,
}

/// What [`Resampler::read_frames`] found.
#[derive(Debug)]
pub enum FrameRead {
    /// A whole block, one vector for each channel.
    Frames(Vec<Vec<i16>>),
    /// Not enough samples yet: more input is needed.
    Blocked,
    /// The stream has ended.
    Closed,
}

/// What a [`Resampler`] is, as a mathematical value.
pub struct ResamplerView {
    /// The interleaved samples that wait to be read, oldest first.
    pub queue: Seq<i16>,
    /// The number of channel vectors in a block.
    pub channels: nat,
    /// Whether the stream has ended.
    pub closed: bool,
}

/// `count` samples of silence.
pub open spec fn silence(count: nat) -> Seq<i16> {
    Seq::new(count, |i: int| 0i16)
}

/// The samples of one channel (0 for left, 1 for right) in the first
/// `frames` frames of an interleaved queue.
pub open spec fn channel_of(queue: Seq<i16>, frames: nat, which: int) -> Seq<i16> {
    Seq::new(frames, |i: int| queue[2 * i + which])
}

/// Whether the queue holds `frames` whole frames.
pub open spec fn holds_frames(queue: Seq<i16>, frames: nat) -> bool {
    queue.len() >= 2 * frames
}

/// Whether `block` is the first `frames` frames of `queue`, split into
/// `channels` vectors of which the first two are left and right and the
/// others are empty.
pub open spec fn is_block(block: Seq<Seq<i16>>, queue: Seq<i16>, frames: nat, channels: nat) -> bool {
    &&& block.len() == channels
    &&& forall|c: int|
        0 <= c < block.len() ==> #[trigger] block[c] == if c < 2 {
            channel_of(queue, frames, c)
        } else {
            Seq::<i16>::empty()
        }
}

/// The channel vectors of a block, as sequences.
pub open spec fn block_view(block: Vec<Vec<i16>>) -> Seq<Seq<i16>> {
    Seq::new(block@.len(), |c: int| block@[c]@)
}

/// The queue of one speaker's samples.
pub struct Resampler {
    buf: VecDeque<i16>,
    /// The channel vectors of a block beyond the stereo pair.
    spare_channels: usize,
    closed: bool,
}

impl View for Resampler {
    type V = ResamplerView;

    closed spec fn view(&self) -> ResamplerView {
        ResamplerView {
            queue: self.buf@,
            channels: (self.spare_channels + 2) as nat,
            closed: self.closed,
        }
    }
}

impl Resampler {
    /// An empty, open queue whose blocks have `channels` vectors. The input
    /// is stereo, so there are at least two.
    pub fn new(channels: usize) -> (resampler: Resampler)
        requires
            channels >= 2,
        ensures
            resampler@ == (ResamplerView { queue: Seq::empty(), channels: channels as nat, closed: false }),
    {
        Resampler { buf: VecDeque::new(), spare_channels: channels - 2, closed: false }
    }

    /// The number of samples that wait to be read.
    pub fn buffered(&self) -> (count: usize)
        ensures
            count == self@.queue.len(),
    {
        self.buf.len()
    }

    /// Whether the stream has ended.
    pub fn is_closed(&self) -> (closed: bool)
        ensures
            closed == self@.closed,
    {
        self.closed
    }

    /// Takes one event from the transport. A packet's samples go to the end
    /// of the queue in their order; a disconnect ends the stream. Once the
    /// stream has ended nothing is queued any more. The answer is `true`
    /// while the stream is open.
    pub fn push(&mut self, event: ListenerEvent) -> (open: bool)
        ensures
            final(self)@ == match event {
                ListenerEvent::AudioPacket(data) => if old(self)@.closed {
                    old(self)@
                } else {
                    ResamplerView { queue: old(self)@.queue + data@, ..old(self)@ }
                },
                ListenerEvent::Disconnect => ResamplerView { closed: true, ..old(self)@ },
            },
            open == !final(self)@.closed,
    {
        match event {
            ListenerEvent::AudioPacket(data) => {
                if self.closed {
                    return false;
                }
                let mut i: usize = 0;
                while i < data.len()
                    invariant
                        i <= data.len(),
                        self.buf@ == old(self).buf@ + data@.subrange(0, i as int),
                        self.spare_channels == old(self).spare_channels,
                        self.closed == old(self).closed,
                    decreases data.len() - i,
                {
                    self.buf.push_back(data[i]);
                    i += 1;
                }
                assert(data@.subrange(0, data.len() as int) == data@);
                true
            },
            ListenerEvent::Disconnect => {
                self.closed = true;
                false
            },
        }
    }

    /// Stands in for a packet that did not come in time: exactly
    /// [`SILENCE_SAMPLES`] zero samples go to the end of the queue, unless
    /// the stream has ended.
    pub fn inject_silence(&mut self)
        ensures
            final(self)@ == if old(self)@.closed {
                old(self)@
            } else {
                ResamplerView { queue: old(self)@.queue + silence(SILENCE_SAMPLES as nat), ..old(self)@ }
            },
    {
        if self.closed {
            return ;
        }
        let mut i: usize = 0;
        while i < SILENCE_SAMPLES
            invariant
                i <= SILENCE_SAMPLES,
                self.buf@ == old(self).buf@ + silence(i as nat),
                self.spare_channels == old(self).spare_channels,
                self.closed == old(self).closed,
            decreases SILENCE_SAMPLES - i,
        {
            self.buf.push_back(0);
            i += 1;
        }
    }

    /// Whether `frame_count` whole frames can be read now.
    pub fn ready(&self, frame_count: usize) -> (ready: bool)
        ensures
            ready == (!self@.closed && holds_frames(self@.queue, frame_count as nat)),
    {
        if self.closed {
            return false;
        }
        let queued: usize = self.buf.len();
        frame_count <= queued / 2
    }

    /// Reads the next `frame_count` frames. A block comes out exactly when
    /// the stream is open and the queue holds that many whole frames: its
    /// samples leave the queue, left ones in the first vector and right
    /// ones in the second. With fewer samples the queue is left alone and
    /// the answer is `Blocked`; after a disconnect it is `Closed`.
    pub fn read_frames(&mut self, frame_count: usize) -> (read: FrameRead)
        ensures
            match read {
                FrameRead::Frames(block) => {
                    &&& !old(self)@.closed
                    &&& holds_frames(old(self)@.queue, frame_count as nat)
                    &&& is_block(block_view(block), old(self)@.queue, frame_count as nat, old(self)@.channels)
                    &&& final(self)@ == (ResamplerView {
                        queue: old(self)@.queue.skip(2 * frame_count),
                        ..old(self)@
                    })
                },
                FrameRead::Blocked => {
                    &&& !old(self)@.closed
                    &&& !holds_frames(old(self)@.queue, frame_count as nat)
                    &&& final(self)@ == old(self)@
                },
                FrameRead::Closed => {
                    &&& old(self)@.closed
                    &&& final(self)@ == old(self)@
                },
            },
    {
        if self.closed {
            return FrameRead::Closed;
        }
        if !self.ready(frame_count) {
            return FrameRead::Blocked;
        }
        let mut left: Vec<i16> = Vec::new();
        let mut right: Vec<i16> = Vec::new();
        let mut i: usize = 0;
        while i < frame_count
            invariant
                i <= frame_count,
                old(self).buf@.len() >= 2 * frame_count,
                self.buf@ == old(self).buf@.skip(2 * i),
                left@ == channel_of(old(self).buf@, i as nat, 0),
                right@ == channel_of(old(self).buf@, i as nat, 1),
                self.spare_channels == old(self).spare_channels,
                self.closed == old(self).closed,
            decreases frame_count - i,
        {
            let l = self.buf.pop_front();
            let r = self.buf.pop_front();
            match (l, r) {
                (Some(l), Some(r)) => {
                    left.push(l);
                    right.push(r);
                },
                _ => {
                    assert(false);
                },
            }
            i += 1;
        }
        let mut block: Vec<Vec<i16>> = Vec::new();
        block.push(left);
        block.push(right);
        let mut spare: usize = 0;
        while spare < self.spare_channels
            invariant
                spare <= self.spare_channels,
                block@.len() == spare + 2,
                block@[0]@ == channel_of(old(self).buf@, frame_count as nat, 0),
                block@[1]@ == channel_of(old(self).buf@, frame_count as nat, 1),
                forall|k: int| 2 <= k < spare + 2 ==> (#[trigger] block@[k])@ == Seq::<i16>::empty(),
            decreases self.spare_channels - spare,
        {
            block.push(Vec::new());
            spare += 1;
        }
        FrameRead::Frames(block)
    }
}

/// One wait without a packet is enough to go on: after the silence that
/// stands in for the packet, any block of no more frames than the silence
/// holds can be read, whatever was queued before.
pub proof fn lemma_silence_feeds_a_block(queue: Seq<i16>, frames: nat)
    requires
        2 * frames <= SILENCE_SAMPLES,
    ensures
        holds_frames(queue + silence(SILENCE_SAMPLES as nat), frames),
{
}

/// Reading a long block takes the same samples, in the same order, as
/// reading two shorter blocks one after the other: no sample is read twice
/// and none is passed over.
pub proof fn lemma_blocks_join(queue: Seq<i16>, first: nat, second: nat, which: int)
    requires
        holds_frames(queue, first + second),
        0 <= which < 2,
    ensures
        channel_of(queue, first + second, which) == channel_of(queue, first, which) + channel_of(
            queue.skip(2 * first as int),
            second,
            which,
        ),
{
}

/// Pairing up the two channels of a block gives back the queue's first
/// samples: a block loses nothing.
pub proof fn lemma_block_keeps_samples(queue: Seq<i16>, frames: nat, i: int)
    requires
        holds_frames(queue, frames),
        0 <= i < 2 * frames,
    ensures
        queue[i] == channel_of(queue, frames, i % 2)[i / 2],
{
}

} // verus!
