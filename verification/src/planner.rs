//! Motion queue (planner): a fixed-capacity circular buffer of blocks.
//!
//! The queue accepts new moves at `head`, hands finished planning work to
//! the step-timing consumer from `tail`, and recomputes the velocity
//! profiles of all pending blocks so that no block's planned entry speed
//! ever exceeds the previous block's planned exit speed.

use vstd::prelude::*;

verus! {

use crate::commandbuffer::Block;
use crate::commandbuffer::Target;
use vstd::math::min;

/// Steps per linear unit on the X axis (configuration).
pub const X_AXIS_STEPS_PER_UNIT: i32 = 10;
/// Steps per linear unit on the Y axis (configuration).
pub const Y_AXIS_STEPS_PER_UNIT: i32 = 10;
/// Steps per linear unit on the Z axis (configuration).
pub const Z_AXIS_STEPS_PER_UNIT: i32 = 10;
/// Steps per linear unit on the extruder axis (configuration).
pub const E_AXIS_STEPS_PER_UNIT: i32 = 10;

/// The motion queue. `head` is written only by the move-accepting context
/// and `tail` only advances when the step-timing consumer retires a block,
/// so one slot is always kept empty to tell a full queue from an empty one.
pub struct Planner {
    /// Motion instruction slots.
    pub block_buffer: Vec<Block>,
    /// Index of the next slot to fill.
    pub head: usize,
    /// Index of the oldest unconsumed slot.
    pub tail: usize,
}

impl Planner {
    /// Number of slots; the usable capacity is one less.
    pub open spec fn cap(self) -> int {
        self.block_buffer.len() as int
    }

    /// Indices stay inside the buffer and every slot holds consistent
    /// step counts.
    pub open spec fn wf(self) -> bool {
        &&& 1 <= self.cap()
        &&& (self.head as int) < self.cap()
        &&& (self.tail as int) < self.cap()
        &&& forall|i: int|
            0 <= i < self.cap() ==> (#[trigger] self.block_buffer[i]).steps.wf()
    }

    /// Number of pending (queued, unconsumed) blocks.
    pub open spec fn count(self) -> int {
        if self.head >= self.tail {
            self.head as int - self.tail as int
        } else {
            self.head as int + self.cap() - self.tail as int
        }
    }

    /// Buffer index of the `i`-th pending block, counted from the tail.
    pub open spec fn slot(self, i: int) -> int {
        if self.tail as int + i < self.cap() {
            self.tail as int + i
        } else {
            self.tail as int + i - self.cap()
        }
    }

    /// The pending blocks in queue order, oldest first.
    pub open spec fn pending(self) -> Seq<Block> {
        Seq::new(self.count() as nat, |i: int| self.block_buffer[self.slot(i)])
    }

    /// The queue is full when advancing `head` would land on `tail`.
    pub open spec fn is_full(self) -> bool {
        self.count() == self.cap() - 1
    }

    /// The step-space target a move request in unit space converts to.
    pub open spec fn target_spec(x: i32, y: i32, z: i32, e: i32) -> Target {
        Target {
            x: ((x as int) * (X_AXIS_STEPS_PER_UNIT as int)) as i32,
            y: ((y as int) * (Y_AXIS_STEPS_PER_UNIT as int)) as i32,
            z: ((z as int) * (Z_AXIS_STEPS_PER_UNIT as int)) as i32,
            e: ((e as int) * (E_AXIS_STEPS_PER_UNIT as int)) as i32,
        }
    }

    /// The buffer index that follows `i`, wrapping at `len`.
    fn next_index(i: usize, len: usize) -> (r: usize)
        requires
            i < len,
        ensures
            r as int == (if i as int + 1 < len as int {
                i as int + 1
            } else {
                0int
            }),
            r < len,
    {
        if i + 1 < len {
            i + 1
        } else {
            0
        }
    }

    /// Creates an empty queue with the given number of slots. One slot is
    /// always kept empty, so `buffer_size` slots accept `buffer_size - 1`
    /// pending moves.
    pub fn new(buffer_size: usize) -> (p: Planner)
        requires
            1 <= buffer_size,
        ensures
            p.wf(),
            p.cap() == buffer_size as int,
            p.head == 0,
            p.tail == 0,
            p.count() == 0,
            p.pending().len() == 0,
    {
        let mut block_buffer: Vec<Block> = Vec::new();
        while block_buffer.len() < buffer_size
            invariant
                block_buffer.len() <= buffer_size,
                forall|i: int|
                    0 <= i < block_buffer.len()
                        ==> (#[trigger] block_buffer[i]).steps.wf(),
            decreases buffer_size - block_buffer.len(),
        {
            block_buffer.push(Block::default());
        }
        Planner { block_buffer, head: 0, tail: 0 }
    }

    /// How many moves are queued and not yet consumed.
    pub fn pending_count(&self) -> (n: usize)
        requires
            self.wf(),
        ensures
            n as int == self.count(),
    {
        if self.head >= self.tail {
            self.head - self.tail
        } else {
            self.block_buffer.len() - (self.tail - self.head)
        }
    }

    /// Adds a new movement to the buffer: converts the unit-space
    /// coordinates into step space, builds a block with placeholder
    /// kinematics, and enqueues it at `head`. A full queue drops the move
    /// and returns normally; on success `head` advances by one slot.
    pub fn buffer_line(&mut self, x: i32, y: i32, z: i32, e: i32, feed_rate: u32, extruder: u8)
        requires
            old(self).wf(),
            (i32::MIN as int) < (x as int) * (X_AXIS_STEPS_PER_UNIT as int),
            (x as int) * (X_AXIS_STEPS_PER_UNIT as int) <= i32::MAX as int,
            (i32::MIN as int) < (y as int) * (Y_AXIS_STEPS_PER_UNIT as int),
            (y as int) * (Y_AXIS_STEPS_PER_UNIT as int) <= i32::MAX as int,
            (i32::MIN as int) < (z as int) * (Z_AXIS_STEPS_PER_UNIT as int),
            (z as int) * (Z_AXIS_STEPS_PER_UNIT as int) <= i32::MAX as int,
            (i32::MIN as int) < (e as int) * (E_AXIS_STEPS_PER_UNIT as int),
            (e as int) * (E_AXIS_STEPS_PER_UNIT as int) <= i32::MAX as int,
        ensures
            final(self).wf(),
            final(self).cap() == old(self).cap(),
            final(self).tail == old(self).tail,
            old(self).is_full() ==> *final(self) == *old(self),
            !old(self).is_full() ==> final(self).count() == old(self).count() + 1
                && final(self).pending() == old(self).pending().push(
                Block::new_spec(Planner::target_spec(x, y, z, e), feed_rate),
            ),
    {
        let len: usize = self.block_buffer.len();
        let next_head: usize = Self::next_index(self.head, len);
        if next_head == self.tail {
            // Buffer is full: the move is dropped.
            return;
        }
        let target = Target {
            x: x * X_AXIS_STEPS_PER_UNIT,
            y: y * Y_AXIS_STEPS_PER_UNIT,
            z: z * Z_AXIS_STEPS_PER_UNIT,
            e: e * E_AXIS_STEPS_PER_UNIT,
        };
        let block = Block::new(target, feed_rate, extruder);
        let ghost before: Planner = *self;
        self.block_buffer.set(self.head, block);
        self.head = next_head;
        proof {
            assert(!before.is_full());
            assert(self.count() == before.count() + 1);
            assert(self.slot(before.count()) == before.head as int);
            assert forall|i: int| 0 <= i < before.count() implies #[trigger] self.pending()[i]
                == before.pending()[i] by {
                assert(self.slot(i) == before.slot(i));
                assert(before.slot(i) != before.head as int);
            }
            assert(self.pending() =~= before.pending().push(
                Block::new_spec(Planner::target_spec(x, y, z, e), feed_rate),
            ));
        }
    }

    /// Walks every pending block once, in queue order from `tail` to
    /// `head`, recomputing each block's profile against the freshly
    /// computed exit rate of its predecessor; the first pending block
    /// starts from a standstill. After the pass, for every pending block
    /// the planned entry rate equals the minimum of the predecessor's exit
    /// rate and the block's own nominal rate, every planned exit rate is
    /// zero, and every profile satisfies the phase-boundary bounds.
    pub fn recalculate_trapezoids(&mut self)
        requires
            old(self).wf(),
        ensures
            final(self).wf(),
            final(self).cap() == old(self).cap(),
            final(self).head == old(self).head,
            final(self).tail == old(self).tail,
            final(self).count() == old(self).count(),
            forall|i: int|
                0 <= i < old(self).count() ==> #[trigger] final(self).pending()[i]
                    == old(self).pending()[i].with_trapezoid(
                    if i == 0 {
                        0int
                    } else {
                        final(self).pending()[i - 1].exit_rate as int
                    },
                ),
            forall|i: int|
                0 <= i < old(self).count()
                    ==> (#[trigger] final(self).pending()[i]).exit_rate == 0,
            forall|i: int|
                0 <= i < old(self).count() ==> (#[trigger] final(self).pending()[i]).wf(),
            forall|i: int|
                0 <= i < old(self).count()
                    ==> (#[trigger] final(self).pending()[i]).entry_rate as int == min(
                    if i == 0 {
                        0int
                    } else {
                        final(self).pending()[i - 1].exit_rate as int
                    },
                    final(self).pending()[i].nominal_rate as int,
                ),
    {
        let len: usize = self.block_buffer.len();
        let mut block_index: usize = self.tail;
        let mut prev_exit_rate: u64 = 0;
        let ghost orig: Planner = *self;
        let ghost mut j: int = 0;

        proof {
            lemma_slot_range(orig);
        }

        while block_index != self.head
            invariant
                orig.wf(),
                self.block_buffer.len() == orig.block_buffer.len(),
                self.head == orig.head,
                self.tail == orig.tail,
                len as int == orig.cap(),
                0 <= j <= orig.count(),
                block_index as int == orig.slot(j),
                forall|i: int|
                    0 <= i < orig.cap() ==> (#[trigger] self.block_buffer[i]).steps.wf(),
                forall|k: int|
                    j <= k < orig.count() ==> #[trigger] self.block_buffer[orig.slot(k)]
                        == orig.block_buffer[orig.slot(k)],
                forall|k: int|
                    0 <= k < j ==> #[trigger] self.block_buffer[orig.slot(k)]
                        == orig.block_buffer[orig.slot(k)].with_trapezoid(
                        if k == 0 {
                            0int
                        } else {
                            self.block_buffer[orig.slot(k - 1)].exit_rate as int
                        },
                    ),
                forall|k: int|
                    0 <= k < j ==> (#[trigger] self.block_buffer[orig.slot(k)]).wf()
                        && self.block_buffer[orig.slot(k)].exit_rate == 0
                        && self.block_buffer[orig.slot(k)].entry_rate as int == min(
                        if k == 0 {
                            0int
                        } else {
                            self.block_buffer[orig.slot(k - 1)].exit_rate as int
                        },
                        self.block_buffer[orig.slot(k)].nominal_rate as int,
                    ),
                prev_exit_rate as int == (if j == 0 {
                    0int
                } else {
                    self.block_buffer[orig.slot(j - 1)].exit_rate as int
                }),
            decreases orig.count() - j,
        {
            proof {
                lemma_slot_range(orig);
                // Not yet at the head, so j names a pending block.
                assert(j < orig.count());
            }
            let mut b: Block = self.block_buffer[block_index];
            b.calculate_trapezoid(prev_exit_rate);
            prev_exit_rate = b.exit_rate;
            self.block_buffer.set(block_index, b);
            block_index = Self::next_index(block_index, len);
            proof {
                let ghost j0: int = j;
                j = j + 1;
                assert(block_index as int == orig.slot(j));
                assert forall|k: int| 0 <= k < orig.count() && k != j0 implies orig.slot(k)
                    != orig.slot(j0) by {
                    lemma_slot_range(orig);
                }
            }
        }

        proof {
            lemma_slot_range(orig);
            // At the head: the whole pending range was processed.
            assert(j == orig.count());
            assert(self.count() == orig.count());
            assert forall|i: int| 0 <= i < orig.count() implies #[trigger] self.pending()[i]
                == self.block_buffer[orig.slot(i)] by {
                assert(self.slot(i) == orig.slot(i));
            }
            assert forall|i: int| 0 <= i < orig.count() implies #[trigger] orig.pending()[i]
                == orig.block_buffer[orig.slot(i)] by {
            }
        }
    }

    /// Removes and returns the oldest pending block, advancing `tail`; the
    /// step-timing owner calls this when handing a block to the stepper.
    /// An empty queue returns nothing and is left unchanged.
    pub fn next_block(&mut self) -> (r: Option<Block>)
        requires
            old(self).wf(),
        ensures
            final(self).wf(),
            final(self).cap() == old(self).cap(),
            final(self).head == old(self).head,
            old(self).count() == 0 ==> r is None && *final(self) == *old(self),
            old(self).count() > 0 ==> r == Some(old(self).pending()[0])
                && final(self).count() == old(self).count() - 1
                && final(self).pending() == old(self).pending().subrange(
                1,
                old(self).count(),
            ),
    {
        if self.tail == self.head {
            return None;
        }
        let b: Block = self.block_buffer[self.tail];
        let ghost before: Planner = *self;
        self.tail = Self::next_index(self.tail, self.block_buffer.len());
        proof {
            assert(self.count() == before.count() - 1);
            assert forall|i: int| 0 <= i < self.count() implies #[trigger] self.pending()[i]
                == before.pending()[i + 1] by {
                assert(self.slot(i) == before.slot(i + 1));
            }
            assert(self.pending() =~= before.pending().subrange(1, before.count()));
        }
        Some(b)
    }
}

/// Every pending index maps to a buffer slot other than the head, and the
/// index one past the pending range maps exactly to the head.
proof fn lemma_slot_range(p: Planner)
    requires
        p.wf(),
    ensures
        0 <= p.count() < p.cap(),
        forall|k: int|
            0 <= k < p.count() ==> 0 <= #[trigger] p.slot(k) < p.cap()
                && p.slot(k) != p.head as int,
        p.slot(p.count()) == p.head as int,
        forall|k1: int, k2: int|
            0 <= k1 < k2 <= p.count() ==> p.slot(k1) != p.slot(k2),
{
}

} // verus!