//! The channel allocator: which of the controller's channels are in use.

use vstd::prelude::*;
use vstd::set_lib::*;
use crate::dma::bits::{bit_is_set, lemma_clear_bit, lemma_no_bit_of_zero, lemma_set_bit};

verus! {

/// The channel id that stands for "no channel".
pub const DMA_INVALID_CHANNEL: u8 = 0xff;

/// The most channels one allocator can track: one bit of its mask each.
pub const DMA_MAX_CHANNELS: u8 = 32;

/// The least id in `from..capacity` that `allocated` lacks, or `capacity`
/// when it holds them all.
pub open spec fn first_free_from(allocated: Set<int>, from: int, capacity: int) -> int
    decreases capacity - from,
{
    if from >= capacity {
        capacity
    } else if !allocated.contains(from) {
        from
    } else {
        first_free_from(allocated, from + 1, capacity)
    }
}

/// The lowest free channel id below `capacity`, or `capacity` when every
/// channel is taken.
pub open spec fn first_free(allocated: Set<int>, capacity: int) -> int {
    first_free_from(allocated, 0, capacity)
}

/// `first_free_from` returns the least free id at or above `from`.
pub proof fn lemma_first_free_from(allocated: Set<int>, from: int, capacity: int)
    requires
        0 <= from <= capacity,
    ensures
        from <= first_free_from(allocated, from, capacity) <= capacity,
        first_free_from(allocated, from, capacity) < capacity ==> !allocated.contains(
            first_free_from(allocated, from, capacity),
        ),
        forall|j: int|
            from <= j < first_free_from(allocated, from, capacity) ==> allocated.contains(j),
    decreases capacity - from,
{
    if from < capacity && allocated.contains(from) {
        lemma_first_free_from(allocated, from + 1, capacity);
    }
}

/// A call of the allocator.
pub enum ChannelCall {
    /// Take the lowest free channel.
    Allocate,
    /// Give the channel of this id back.
    Release(u8),
}

/// The channels that are allocated after `call`, where `allocated` were
/// before it.  An allocation takes the lowest free channel, if there is one;
/// a release frees its channel.
pub open spec fn after_call(allocated: Set<int>, capacity: int, call: ChannelCall) -> Set<int> {
    match call {
        ChannelCall::Allocate => if first_free(allocated, capacity) < capacity {
            allocated.insert(first_free(allocated, capacity))
        } else {
            allocated
        },
        ChannelCall::Release(id) => allocated.remove(id as int),
    }
}

/// The channels that are allocated after the calls `calls`, made in this
/// order on an allocator that started with every channel free.
pub open spec fn allocated_after(capacity: int, calls: Seq<ChannelCall>) -> Set<int>
    decreases calls.len(),
{
    if calls.len() == 0 {
        Set::empty()
    } else {
        after_call(allocated_after(capacity, calls.drop_last()), capacity, calls.last())
    }
}

/// What call number `i` of `calls` returned, if it is an allocation: the id
/// of the channel it took, or `capacity` if it found none.
pub open spec fn returned_by(capacity: int, calls: Seq<ChannelCall>, i: int) -> int {
    first_free(allocated_after(capacity, calls.take(i)), capacity)
}

/// Whether the channel that call number `i` took is still held just before
/// call number `j`: no call in between released it.
pub open spec fn held_until(capacity: int, calls: Seq<ChannelCall>, i: int, j: int) -> bool {
    forall|m: int|
        i < m < j ==> #[trigger] calls[m] != ChannelCall::Release(
            returned_by(capacity, calls, i) as u8,
        )
}

/// A channel that an allocation took stays allocated for as long as no call
/// releases it.
pub proof fn lemma_held_channel_stays_allocated(
    capacity: int,
    calls: Seq<ChannelCall>,
    i: int,
    j: int,
)
    requires
        0 <= capacity <= DMA_MAX_CHANNELS,
        0 <= i < j <= calls.len(),
        calls[i] == ChannelCall::Allocate,
        returned_by(capacity, calls, i) < capacity,
        held_until(capacity, calls, i, j),
    ensures
        allocated_after(capacity, calls.take(j)).contains(returned_by(capacity, calls, i)),
    decreases j - i,
{
    let id = returned_by(capacity, calls, i);
    let before = allocated_after(capacity, calls.take(j - 1));
    assert(calls.take(j).drop_last() =~= calls.take(j - 1));
    assert(calls.take(j).last() == calls[j - 1]);
    lemma_first_free_from(allocated_after(capacity, calls.take(i)), 0, capacity);
    if j - 1 == i {
    } else {
        assert(held_until(capacity, calls, i, j - 1));
        lemma_held_channel_stays_allocated(capacity, calls, i, j - 1);
        lemma_first_free_from(before, 0, capacity);
        match calls[j - 1] {
            ChannelCall::Allocate => {},
            ChannelCall::Release(released) => {
                assert(calls[j - 1] != ChannelCall::Release(id as u8));
                assert(released != id as u8);
            },
        }
    }
}

/// No two live resources have the same channel.
///
/// Take any calls of an allocator, made in any order.  If two of them are
/// allocations that each took a channel, and the channel of the earlier one
/// was not released before the later one, then the two took different
/// channels.
pub proof fn lemma_live_channels_are_distinct(
    capacity: int,
    calls: Seq<ChannelCall>,
    i: int,
    j: int,
)
    requires
        0 <= capacity <= DMA_MAX_CHANNELS,
        0 <= i < j < calls.len(),
        calls[i] == ChannelCall::Allocate,
        calls[j] == ChannelCall::Allocate,
        returned_by(capacity, calls, i) < capacity,
        returned_by(capacity, calls, j) < capacity,
        held_until(capacity, calls, i, j),
    ensures
        returned_by(capacity, calls, i) != returned_by(capacity, calls, j),
{
    lemma_held_channel_stays_allocated(capacity, calls, i, j);
    lemma_first_free_from(allocated_after(capacity, calls.take(j)), 0, capacity);
}

/// A channel that was released is free for the next allocation.
///
/// After the release of an allocated channel the next allocation finds a
/// channel, and no channel above the released one.  If every channel was
/// taken before the release, it finds the released one.
pub proof fn lemma_released_channel_is_reusable(allocated: Set<int>, capacity: int, id: u8)
    requires
        0 <= capacity <= DMA_MAX_CHANNELS,
        allocated.contains(id as int),
        id < capacity,
    ensures
        first_free(after_call(allocated, capacity, ChannelCall::Release(id)), capacity) <= id,
        first_free(allocated, capacity) == capacity ==> first_free(
            after_call(allocated, capacity, ChannelCall::Release(id)),
            capacity,
        ) == id,
{
    let after = allocated.remove(id as int);
    lemma_first_free_from(after, 0, capacity);
    lemma_first_free_from(allocated, 0, capacity);
    let f = first_free(after, capacity);
    if f > id {
        assert(after.contains(id as int));
    }
    if first_free(allocated, capacity) == capacity && f < id {
        assert(allocated.contains(f));
    }
}

/// Bookkeeping for a bounded set of hardware channels.
///
/// Bit `i` of the mask is set exactly while channel `i` is owned by some
/// transfer resource; the counter holds the number of channels left.
pub struct ChannelAllocator {
    allocated_channels: u32,
    free_channels: u8,
    channels: u8,
}

impl View for ChannelAllocator {
    type V = Set<int>;

    /// The ids of the channels that are currently allocated.
    closed spec fn view(&self) -> Set<int> {
        Set::new(|id: int| bit_is_set(self.allocated_channels, id))
    }
}

impl ChannelAllocator {
    /// The number of channels that this allocator manages.
    pub closed spec fn capacity(&self) -> int {
        self.channels as int
    }

    /// The number of channels that are free.  In a well-formed allocator it
    /// is the value of the free-channel counter.
    pub open spec fn free(&self) -> int {
        self.capacity() - self@.len()
    }

    /// The allocator's invariant: only ids below the capacity are allocated,
    /// and the number of allocated channels plus the free counter is the
    /// capacity.
    pub closed spec fn wf(&self) -> bool {
        &&& 1 <= self.channels <= DMA_MAX_CHANNELS
        &&& self@.subset_of(set_int_range(0, self.channels as int))
        &&& self@.len() + self.free_channels == self.channels
    }

    /// What `wf` means for the view.
    pub proof fn lemma_wf(&self)
        requires
            self.wf(),
        ensures
            1 <= self.capacity() <= DMA_MAX_CHANNELS,
            self@.finite(),
            forall|id: int| self@.contains(id) ==> 0 <= id < self.capacity(),
            0 <= self.free() <= self.capacity(),
            self.free() == 0 <==> first_free(self@, self.capacity()) == self.capacity(),
    {
        let range = set_int_range(0, self.channels as int);
        lemma_int_range(0, self.channels as int);
        lemma_len_subset(self@, range);
        lemma_first_free_from(self@, 0, self.capacity());
        if self.free() == 0 {
            lemma_subset_equality(self@, range);
            if first_free(self@, self.capacity()) < self.capacity() {
                assert(range.contains(first_free(self@, self.capacity())));
            }
        } else if first_free(self@, self.capacity()) == self.capacity() {
            assert(range.subset_of(self@));
            lemma_len_subset(range, self@);
        }
    }

    /// An allocator for `channels` channels, all of them free.  There is
    /// none for zero channels or for more than the mask has bits.
    pub fn new(channels: u8) -> (alloc: Option<ChannelAllocator>)
        ensures
            alloc is Some <==> 1 <= channels <= DMA_MAX_CHANNELS,
            alloc matches Some(a) ==> {
                &&& a.wf()
                &&& a.capacity() == channels
                &&& a.free() == channels
                &&& a@ == Set::<int>::empty()
            },
    {
        if channels == 0 || channels > DMA_MAX_CHANNELS {
            return None;
        }
        let a = ChannelAllocator { allocated_channels: 0, free_channels: channels, channels };
        proof {
            lemma_no_bit_of_zero();
            assert(a@ =~= Set::<int>::empty());
        }
        Some(a)
    }

    /// The number of channels that this allocator manages.
    pub fn channel_count(&self) -> (n: u8)
        ensures
            n == self.capacity(),
    {
        self.channels
    }

    /// The number of channels that are free.
    pub fn free_channel_count(&self) -> (n: u8)
        requires
            self.wf(),
        ensures
            n == self.free(),
    {
        self.free_channels
    }

    /// Whether channel `channel` is allocated.
    pub fn is_allocated(&self, channel: u8) -> (allocated: bool)
        ensures
            allocated == self@.contains(channel as int),
    {
        channel < 32 && (self.allocated_channels >> (channel as u32)) & 1 == 1
    }

    /// Takes the lowest-numbered free channel and returns its id, or returns
    /// `DMA_INVALID_CHANNEL` and changes nothing when every channel is taken.
    pub fn _dma_find_first_free_channel_and_allocate(&mut self) -> (id: u8)
        requires
            old(self).wf(),
        ensures
            final(self).wf(),
            final(self).capacity() == old(self).capacity(),
            final(self)@ == after_call(old(self)@, old(self).capacity(), ChannelCall::Allocate),
            id == DMA_INVALID_CHANNEL <==> old(self).free() == 0,
            old(self).free() == 0 ==> *final(self) == *old(self),
            old(self).free() > 0 ==> {
                &&& id as int == first_free(old(self)@, old(self).capacity())
                &&& id < old(self).capacity()
                &&& !old(self)@.contains(id as int)
                &&& final(self)@ == old(self)@.insert(id as int)
                &&& final(self).free() == old(self).free() - 1
            },
    {
        let mut count: u8 = 0;
        while count < self.channels
            invariant
                *self == *old(self),
                self.wf(),
                count <= self.channels <= DMA_MAX_CHANNELS,
                first_free_from(self@, count as int, self.capacity()) == first_free(
                    self@,
                    self.capacity(),
                ),
            decreases self.channels - count,
        {
            proof {
                self.lemma_wf();
                lemma_first_free_from(self@, 0, self.capacity());
            }
            if !self.is_allocated(count) {
                let ghost before = *self;
                proof {
                    lemma_set_bit(self.allocated_channels, count as u32);
                }
                self.allocated_channels = self.allocated_channels | (1u32 << (count as u32));
                self.free_channels = self.free_channels - 1;
                proof {
                    assert(self@ =~= before@.insert(count as int));
                    assert(self@.subset_of(set_int_range(0, self.channels as int)));
                }
                return count;
            }
            count = count + 1;
        }
        proof {
            self.lemma_wf();
        }
        DMA_INVALID_CHANNEL
    }

    /// Gives channel `channel` back.  Returns whether it was allocated; a
    /// channel that was not is left alone.
    pub fn _dma_release_channel(&mut self, channel: u8) -> (released: bool)
        requires
            old(self).wf(),
        ensures
            final(self).wf(),
            final(self).capacity() == old(self).capacity(),
            final(self)@ == after_call(
                old(self)@,
                old(self).capacity(),
                ChannelCall::Release(channel),
            ),
            released == old(self)@.contains(channel as int),
            released ==> final(self)@ == old(self)@.remove(channel as int) && final(self).free()
                == old(self).free() + 1,
            !released ==> *final(self) == *old(self),
    {
        proof {
            self.lemma_wf();
        }
        if !self.is_allocated(channel) {
            return false;
        }
        let ghost before = *self;
        proof {
            lemma_clear_bit(self.allocated_channels, channel as u32);
        }
        self.allocated_channels = self.allocated_channels & !(1u32 << (channel as u32));
        self.free_channels = self.free_channels + 1;
        proof {
            assert(self@ =~= before@.remove(channel as int));
        }
        true
    }
}

} // verus!
