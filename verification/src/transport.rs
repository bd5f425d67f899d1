//! Model of the shared-memory transport segment.
//!
//! One producer writes frames into a ring of fixed byte capacity; any number
//! of consumer endpoints attach to the same address and pull frames at their
//! own pace. The documented contract is that the endpoints are independent:
//! attaching or detaching one neither blocks nor resets the producer or any
//! sibling. The segment model carries a [`DetachBehavior`] so that both the
//! documented contract and the reported defect — a detach that silently pins
//! the producer — can be stated and their observable consequences proved.

use vstd::prelude::*;
use vstd::arithmetic::div_mod::lemma_div_is_ordered;
use crate::errors::ConstructionError;

verus! {

/// Largest accepted frame dimension, in pixels.
pub const MAX_DIMENSION: u32 = 65536;

/// Format descriptor of the frames moving through a segment: a planar YUV
/// layout with a full-resolution luma plane and two chroma planes at a
/// quarter resolution each, so one frame occupies `width * height * 3 / 2`
/// bytes. A consumer must offer a descriptor matching the producer's bit for
/// bit, or its attachment fails.
#[derive(Clone, Copy, PartialEq, Eq, Structural, Debug)]
pub struct Format {
    /// Frame width in pixels; even, since the chroma planes halve it.
    pub width: u32,
    /// Frame height in pixels; even, since the chroma planes halve it.
    pub height: u32,
    /// Frame rate, in frames per second.
    pub rate: u32,
}

impl Format {
    /// A well-formed descriptor: nonzero even dimensions within bounds and a
    /// nonzero rate.
    pub open spec fn wf(self) -> bool {
        &&& 1 <= self.width <= MAX_DIMENSION
        &&& self.width % 2 == 0
        &&& 1 <= self.height <= MAX_DIMENSION
        &&& self.height % 2 == 0
        &&& 1 <= self.rate
    }

    /// Bytes of one frame: the luma plane plus the two quarter-resolution
    /// chroma planes. The frame rate plays no part in it.
    pub open spec fn spec_frame_bytes(self) -> int {
        self.width * self.height + (self.width * self.height) / 2
    }

    /// A well-formed descriptor's frame size is at least one byte and small
    /// enough for all byte arithmetic of the model to stay within `u64`.
    pub proof fn lemma_frame_bytes_bounds(self)
        requires
            self.wf(),
        ensures
            1 <= self.spec_frame_bytes() <= 0x1_8000_0000,
    {
        let w = self.width as int;
        let h = self.height as int;
        assert(1 <= w * h <= 65536 * 65536) by (nonlinear_arith)
            requires
                1 <= w <= 65536,
                1 <= h <= 65536,
        ;
    }

    /// Whether the descriptor is well formed.
    pub fn is_wf(&self) -> (b: bool)
        ensures
            b == self.wf(),
    {
        1 <= self.width && self.width <= MAX_DIMENSION && self.width % 2 == 0 && 1 <= self.height
            && self.height <= MAX_DIMENSION && self.height % 2 == 0 && 1 <= self.rate
    }

    /// Bytes of one frame of this format.
    pub fn frame_bytes(&self) -> (n: u64)
        requires
            self.wf(),
        ensures
            n == self.spec_frame_bytes(),
    {
        proof {
            self.lemma_frame_bytes_bounds();
        }
        let pixels: u64 = (self.width as u64) * (self.height as u64);
        pixels + pixels / 2
    }
}

/// One consumer endpoint of a segment: whether it is still attached, and the
/// index of the next frame it will pull. The frames it has consumed since it
/// attached are exactly those between its attachment position and
/// `next_frame`.
#[derive(Clone, Copy, PartialEq, Eq, Structural, Debug)]
pub struct ConsumerEndpoint {
    pub attached: bool,
    pub next_frame: u64,
}

/// How a segment behaves when a consumer detaches.
///
/// `Isolated` is the documented contract: consumer endpoints are independent,
/// and detaching one leaves the producer and every sibling untouched.
///
/// `StallsProducer` reproduces the reported defect: a detach silently pins
/// the producer, which writes only one segment's worth of further frames and
/// then stops, so a sibling's output halts once it has drained that bounded
/// tail — a delay proportional to the capacity, not to time or rate.
#[derive(Clone, Copy, PartialEq, Eq, Structural, Debug)]
pub enum DetachBehavior {
    Isolated,
    StallsProducer,
}

/// Outcome of polling one consumer's output for a bounded window.
#[derive(Clone, Copy, PartialEq, Eq, Structural, Debug)]
pub enum PollOutcome {
    /// The consumer obtained one frame per tick for the whole window.
    Continuous { frames: u64 },
    /// The consumer's output went silent after this many further frames.
    Halted { frames: u64 },
}

/// A shared-memory segment together with its single producer endpoint and
/// all consumer endpoints attached so far. Exactly one producer exists per
/// address: the value is created by [`Transport::attach_producer`] and is the
/// segment; it must not be duplicated for the same address.
#[derive(Debug)]
pub struct Transport {
    /// Rendezvous address of the segment; all endpoints of one run share it.
    pub address: u64,
    /// Size of the shared ring, in bytes.
    pub capacity: u64,
    /// Frame format of the segment, fixed at creation.
    pub format: Format,
    /// How the segment reacts to a consumer detaching.
    pub behavior: DetachBehavior,
    /// Index of the next frame the producer writes; the frames written so
    /// far are exactly those below it.
    pub written: u64,
    /// Once set, the producer writes no frame at or beyond this index.
    pub write_limit: Option<u64>,
    /// All consumer endpoints ever attached, by slot.
    pub consumers: Vec<ConsumerEndpoint>,
}

/// The fields fixed at a segment's creation are the same in `pre` and `post`.
pub open spec fn same_segment(pre: Transport, post: Transport) -> bool {
    &&& post.address == pre.address
    &&& post.capacity == pre.capacity
    &&& post.format == pre.format
    &&& post.behavior == pre.behavior
}

/// Relation between a segment before and after `detach_consumer(slot)`:
/// the detached endpoint is marked detached where it stood, every sibling
/// endpoint and the producer's position are untouched, and the write limit
/// is pinned exactly when the segment is defective and not pinned already.
pub open spec fn detached(pre: Transport, post: Transport, slot: int) -> bool {
    &&& same_segment(pre, post)
    &&& post.written == pre.written
    &&& post.consumers@.len() == pre.consumers@.len()
    &&& forall|j: int|
        0 <= j < pre.consumers@.len() && j != slot ==> #[trigger] post.consumers@[j]
            == pre.consumers@[j]
    &&& 0 <= slot < pre.consumers@.len() ==> post.consumers@[slot] == (ConsumerEndpoint {
        attached: false,
        next_frame: pre.consumers@[slot].next_frame,
    })
    &&& post.write_limit == (if pre.behavior is StallsProducer && pre.write_limit is None {
        Some((pre.written + pre.spec_frame_capacity()) as u64)
    } else {
        pre.write_limit
    })
}

impl Transport {
    /// How many whole frames the segment can hold.
    pub open spec fn spec_frame_capacity(self) -> int
        recommends
            self.format.wf(),
    {
        self.capacity as int / self.format.spec_frame_bytes()
    }

    /// A well-formed segment: a well-formed format, room for at least one
    /// frame, no consumer ahead of the producer, and a producer that never
    /// passed its write limit.
    pub open spec fn wf(self) -> bool {
        &&& self.format.wf()
        &&& self.format.spec_frame_bytes() <= self.capacity
        &&& forall|j: int|
            0 <= j < self.consumers@.len() ==> (#[trigger] self.consumers@[j]).next_frame
                <= self.written
        &&& match self.write_limit {
            Some(n) => self.written <= n,
            None => true,
        }
    }

    /// The producer can write no further frame.
    pub open spec fn producer_stalled(self) -> bool {
        match self.write_limit {
            Some(n) => self.written >= n,
            None => false,
        }
    }

    /// Consumer `j` can keep obtaining frames: it is attached, and either a
    /// frame is already buffered for it or the producer is still free to
    /// write more.
    pub open spec fn consumer_live(self, j: int) -> bool
        recommends
            0 <= j < self.consumers@.len(),
    {
        &&& self.consumers@[j].attached
        &&& (self.consumers@[j].next_frame < self.written || !self.producer_stalled())
    }

    /// How many further frames consumer `j` can ever pull: bounded exactly
    /// when the producer has been pinned, unbounded (`None`) otherwise.
    pub open spec fn frames_before_halt(self, j: int) -> Option<int>
        recommends
            0 <= j < self.consumers@.len(),
    {
        match self.write_limit {
            Some(n) => Some(n - self.consumers@[j].next_frame),
            None => None,
        }
    }

    /// Create the segment at `address` and attach its single producer
    /// endpoint. Fails exactly when the descriptor is malformed or the
    /// capacity cannot hold one frame.
    pub fn attach_producer(
        address: u64,
        capacity: u64,
        format: Format,
        behavior: DetachBehavior,
    ) -> (r: Result<Transport, ConstructionError>)
        ensures
            match r {
                Ok(t) => {
                    &&& format.wf()
                    &&& format.spec_frame_bytes() <= capacity
                    &&& t.wf()
                    &&& t.address == address
                    &&& t.capacity == capacity
                    &&& t.format == format
                    &&& t.behavior == behavior
                    &&& t.written == 0
                    &&& t.write_limit is None
                    &&& t.consumers@.len() == 0
                },
                Err(e) => {
                    &&& !(format.wf() && format.spec_frame_bytes() <= capacity)
                    &&& e == (if !format.wf() {
                        ConstructionError::MalformedFormat
                    } else {
                        ConstructionError::CapacityBelowOneFrame
                    })
                },
            },
    {
        if !format.is_wf() {
            return Err(ConstructionError::MalformedFormat);
        }
        if capacity < format.frame_bytes() {
            return Err(ConstructionError::CapacityBelowOneFrame);
        }
        Ok(
            Transport {
                address,
                capacity,
                format,
                behavior,
                written: 0,
                write_limit: None,
                consumers: Vec::new(),
            },
        )
    }

    /// Attach one more consumer endpoint, which starts at the producer's
    /// current write position. Attaching neither blocks nor resets the
    /// producer or any sibling endpoint. Fails exactly when the offered
    /// descriptor differs from the segment's.
    pub fn attach_consumer(&mut self, format: Format) -> (r: Result<usize, ConstructionError>)
        requires
            old(self).wf(),
        ensures
            final(self).wf(),
            same_segment(*old(self), *final(self)),
            final(self).written == old(self).written,
            final(self).write_limit == old(self).write_limit,
            match r {
                Ok(slot) => {
                    &&& format == old(self).format
                    &&& slot == old(self).consumers@.len()
                    &&& final(self).consumers@.len() == old(self).consumers@.len() + 1
                    &&& forall|j: int|
                        0 <= j < old(self).consumers@.len() ==> #[trigger] final(self).consumers@[j] == old(self).consumers@[j]
                    &&& final(self).consumers@[slot as int] == (ConsumerEndpoint {
                        attached: true,
                        next_frame: old(self).written,
                    })
                },
                Err(e) => {
                    &&& format != old(self).format
                    &&& e == ConstructionError::FormatMismatch
                    &&& *final(self) == *old(self)
                },
            },
    {
        if format != self.format {
            return Err(ConstructionError::FormatMismatch);
        }
        let slot = self.consumers.len();
        self.consumers.push(ConsumerEndpoint { attached: true, next_frame: self.written });
        Ok(slot)
    }

    /// Whether the producer can write no further frame.
    pub fn is_producer_stalled(&self) -> (b: bool)
        ensures
            b == self.producer_stalled(),
    {
        match self.write_limit {
            Some(n) => self.written >= n,
            None => false,
        }
    }

    /// The producer writes one frame — unless it is stalled, in which case
    /// the segment is left exactly as it was. Writing never touches any
    /// consumer endpoint.
    pub fn produce_frame(&mut self)
        requires
            old(self).wf(),
            !old(self).producer_stalled() ==> old(self).written < u64::MAX,
        ensures
            final(self).wf(),
            same_segment(*old(self), *final(self)),
            final(self).write_limit == old(self).write_limit,
            final(self).consumers@ == old(self).consumers@,
            final(self).written == (if old(self).producer_stalled() {
                old(self).written as int
            } else {
                old(self).written + 1
            }),
    {
        if !self.is_producer_stalled() {
            self.written = self.written + 1;
        }
    }

    /// One pull attempt by consumer `slot`: yields the index of the next
    /// frame if the producer has written past this consumer's position, and
    /// nothing otherwise. Pulling never affects the producer or any sibling
    /// endpoint.
    pub fn consumer_pull(&mut self, slot: usize) -> (r: Option<u64>)
        requires
            old(self).wf(),
            slot < old(self).consumers@.len(),
            old(self).consumers@[slot as int].attached,
        ensures
            final(self).wf(),
            same_segment(*old(self), *final(self)),
            final(self).written == old(self).written,
            final(self).write_limit == old(self).write_limit,
            final(self).consumers@.len() == old(self).consumers@.len(),
            forall|j: int|
                0 <= j < old(self).consumers@.len() && j != slot ==> #[trigger] final(self).consumers@[j] == old(self).consumers@[j],
            ({
                let c = old(self).consumers@[slot as int];
                if c.next_frame < old(self).written {
                    &&& r == Some(c.next_frame)
                    &&& final(self).consumers@[slot as int] == (ConsumerEndpoint {
                        attached: true,
                        next_frame: (c.next_frame + 1) as u64,
                    })
                } else {
                    &&& r is None
                    &&& final(self).consumers@[slot as int] == c
                }
            }),
    {
        let c = self.consumers[slot];
        if c.next_frame < self.written {
            self.consumers[slot] = ConsumerEndpoint { attached: true, next_frame: c.next_frame + 1 };
            Some(c.next_frame)
        } else {
            None
        }
    }

    /// Detach consumer `slot`.
    ///
    /// Under `Isolated` behavior nothing but the endpoint itself changes.
    /// Under `StallsProducer` the detach also pins the producer to one more
    /// segment's worth of frames — the reported defect.
    pub fn detach_consumer(&mut self, slot: usize)
        requires
            old(self).wf(),
            slot < old(self).consumers@.len(),
            old(self).consumers@[slot as int].attached,
            old(self).written + old(self).spec_frame_capacity() <= u64::MAX,
        ensures
            final(self).wf(),
            detached(*old(self), *final(self), slot as int),
    {
        proof {
            self.format.lemma_frame_bytes_bounds();
        }
        let c = self.consumers[slot];
        self.consumers[slot] = ConsumerEndpoint { attached: false, next_frame: c.next_frame };
        match self.behavior {
            DetachBehavior::Isolated => {},
            DetachBehavior::StallsProducer => {
                if self.write_limit.is_none() {
                    let cap_frames = self.capacity / self.format.frame_bytes();
                    self.write_limit = Some(self.written + cap_frames);
                }
            },
        }
    }

    /// Poll consumer `slot` for up to `budget` frames, letting the producer
    /// run freely between pulls: each tick the consumer drains a buffered
    /// frame if one is there, else the producer writes one which is pulled
    /// at once; the poll reports a halt the first time neither can happen.
    pub fn poll_consumer(&mut self, slot: usize, budget: u64) -> (r: PollOutcome)
        requires
            old(self).wf(),
            slot < old(self).consumers@.len(),
            old(self).consumers@[slot as int].attached,
            old(self).written + budget <= u64::MAX,
        ensures
            final(self).wf(),
            same_segment(*old(self), *final(self)),
            final(self).write_limit == old(self).write_limit,
            final(self).consumers@.len() == old(self).consumers@.len(),
            forall|j: int|
                0 <= j < old(self).consumers@.len() && j != slot ==> #[trigger] final(self).consumers@[j] == old(self).consumers@[j],
            final(self).consumers@[slot as int].attached,
            r == (match old(self).frames_before_halt(slot as int) {
                Some(left) => if left < budget {
                    PollOutcome::Halted { frames: left as u64 }
                } else {
                    PollOutcome::Continuous { frames: budget }
                },
                None => PollOutcome::Continuous { frames: budget },
            }),
            final(self).consumers@[slot as int].next_frame == old(self).consumers@[slot as int].next_frame
                + (match r {
                PollOutcome::Continuous { frames } => frames,
                PollOutcome::Halted { frames } => frames,
            }),
            final(self).written == (if final(self).consumers@[slot as int].next_frame
                <= old(self).written {
                old(self).written as int
            } else {
                final(self).consumers@[slot as int].next_frame as int
            }),
    {
        let start = self.consumers[slot].next_frame;
        let mut frames: u64 = 0;
        while frames < budget
            invariant
                old(self).wf(),
                self.wf(),
                same_segment(*old(self), *self),
                self.write_limit == old(self).write_limit,
                self.consumers@.len() == old(self).consumers@.len(),
                forall|j: int|
                    0 <= j < old(self).consumers@.len() && j != slot ==> #[trigger] self.consumers@[j]
                        == old(self).consumers@[j],
                slot < old(self).consumers@.len(),
                start == old(self).consumers@[slot as int].next_frame,
                self.consumers@[slot as int].attached,
                self.consumers@[slot as int].next_frame == start + frames,
                self.written == (if start + frames <= old(self).written {
                    old(self).written as int
                } else {
                    start + frames
                }),
                frames <= budget,
                old(self).written + budget <= u64::MAX,
            decreases budget - frames,
        {
            match self.consumer_pull(slot) {
                Some(_) => {
                    frames = frames + 1;
                },
                None => {
                    if self.is_producer_stalled() {
                        return PollOutcome::Halted { frames };
                    }
                    self.produce_frame();
                    let _ = self.consumer_pull(slot);
                    frames = frames + 1;
                },
            }
        }
        PollOutcome::Continuous { frames: budget }
    }
}

/// Isolation invariant: on a conforming segment, detaching one consumer
/// endpoint changes neither a sibling endpoint's state, nor the producer's
/// position or freedom to keep writing, nor the sibling's ability to keep
/// obtaining frames.
pub proof fn lemma_detach_isolation(pre: Transport, post: Transport, slot: int, sibling: int)
    requires
        pre.wf(),
        pre.behavior is Isolated,
        detached(pre, post, slot),
        0 <= slot < pre.consumers@.len(),
        0 <= sibling < pre.consumers@.len(),
        sibling != slot,
    ensures
        post.consumers@[sibling] == pre.consumers@[sibling],
        post.written == pre.written,
        post.producer_stalled() == pre.producer_stalled(),
        post.consumer_live(sibling) == pre.consumer_live(sibling),
{
}

/// Delay correlation of the defect: after a detach on a defective segment,
/// a sibling that was keeping pace with the producer obtains exactly
/// `capacity / frame_bytes` further frames before its output halts —
/// proportional to the segment capacity, and independent of the frame rate,
/// which plays no part in the frame size.
pub proof fn lemma_defective_halt_delay(pre: Transport, post: Transport, slot: int, sibling: int)
    requires
        pre.wf(),
        pre.behavior is StallsProducer,
        pre.write_limit is None,
        detached(pre, post, slot),
        0 <= slot < pre.consumers@.len(),
        0 <= sibling < pre.consumers@.len(),
        sibling != slot,
        pre.consumers@[sibling].next_frame == pre.written,
        pre.written + pre.spec_frame_capacity() <= u64::MAX,
    ensures
        post.frames_before_halt(sibling) == Some(
            pre.capacity as int / pre.format.spec_frame_bytes(),
        ),
{
    pre.format.lemma_frame_bytes_bounds();
}

/// The halt delay is a function of the capacity and the frame geometry
/// alone: two formats that differ only in their frame rate give the same
/// delay for every capacity.
pub proof fn lemma_halt_delay_rate_independent(capacity: int, f1: Format, f2: Format)
    requires
        f1.width == f2.width,
        f1.height == f2.height,
    ensures
        capacity / f1.spec_frame_bytes() == capacity / f2.spec_frame_bytes(),
{
}

/// The halt point scales monotonically with the segment capacity.
pub proof fn lemma_halt_delay_monotone(c1: int, c2: int, format: Format)
    requires
        format.wf(),
        0 <= c1 <= c2,
    ensures
        c1 / format.spec_frame_bytes() <= c2 / format.spec_frame_bytes(),
{
    format.lemma_frame_bytes_bounds();
    lemma_div_is_ordered(c1, c2, format.spec_frame_bytes());
}

} // verus!
