//! The descriptor store: the two tables that the controller reads and
//! writes, one entry per channel in each.

use vstd::prelude::*;
use crate::dma::descriptor::DmacDescriptor;

verus! {

/// What a descriptor store holds.
pub struct DescriptorTables {
    /// The primary table: entry `i` is the descriptor of channel `i`.
    pub descriptors: Seq<DmacDescriptor>,
    /// The write-back table: entry `i` is what the controller last wrote
    /// back for channel `i`.
    pub write_back: Seq<DmacDescriptor>,
    /// The address of the primary table.
    pub descriptor_base: u32,
    /// The address of the write-back table.
    pub write_back_base: u32,
}

impl DescriptorTables {
    /// The beats of `channel`'s block that have been transferred: the
    /// configured count less what the write-back entry says is left.
    pub open spec fn transferred(self, channel: int) -> int {
        self.descriptors[channel].btcnt - self.write_back[channel].btcnt
    }

    /// The tables have one entry per channel each, and no write-back entry
    /// counts more beats than the primary entry of its channel.
    pub open spec fn wf(self) -> bool {
        &&& self.descriptors.len() == self.write_back.len()
        &&& self.descriptors.len() <= u8::MAX
        &&& forall|i: int|
            0 <= i < self.descriptors.len() ==> (#[trigger] self.write_back[i]).btcnt
                <= self.descriptors[i].btcnt
    }
}

/// The primary descriptor table and its write-back shadow.
///
/// Entry `i` of either table belongs to channel `i`.  Software fills the
/// primary table; the controller reports progress in the write-back table,
/// where the block transfer count of an entry is what is left of the block.
pub struct DescriptorStore {
    descriptors: Vec<DmacDescriptor>,
    write_back: Vec<DmacDescriptor>,
    descriptor_base: u32,
    write_back_base: u32,
}

impl View for DescriptorStore {
    type V = DescriptorTables;

    closed spec fn view(&self) -> DescriptorTables {
        DescriptorTables {
            descriptors: self.descriptors@,
            write_back: self.write_back@,
            descriptor_base: self.descriptor_base,
            write_back_base: self.write_back_base,
        }
    }
}

impl DescriptorStore {
    /// The number of channels that the tables have an entry for.
    pub open spec fn channels(&self) -> int {
        self@.descriptors.len() as int
    }

    /// The store's invariant, which is that of its tables.
    pub open spec fn wf(&self) -> bool {
        self@.wf()
    }

    /// A store for `channels` channels whose tables lie at the two given
    /// addresses.  Every entry of both tables is empty.
    pub fn new(channels: u8, descriptor_base: u32, write_back_base: u32) -> (store:
        DescriptorStore)
        ensures
            store.wf(),
            store@ == (DescriptorTables {
                descriptors: Seq::new(channels as nat, |i: int| DmacDescriptor::empty()),
                write_back: Seq::new(channels as nat, |i: int| DmacDescriptor::empty()),
                descriptor_base,
                write_back_base,
            }),
    {
        let mut descriptors: Vec<DmacDescriptor> = Vec::new();
        let mut write_back: Vec<DmacDescriptor> = Vec::new();
        let mut i: u8 = 0;
        while i < channels
            invariant
                i <= channels,
                descriptors@ == Seq::new(i as nat, |j: int| DmacDescriptor::empty()),
                write_back@ == Seq::new(i as nat, |j: int| DmacDescriptor::empty()),
            decreases channels - i,
        {
            descriptors.push(DmacDescriptor::new());
            write_back.push(DmacDescriptor::new());
            i = i + 1;
        }
        DescriptorStore { descriptors, write_back, descriptor_base, write_back_base }
    }

    /// The number of channels that the tables have an entry for.
    pub fn channel_count(&self) -> (n: u8)
        requires
            self.wf(),
        ensures
            n == self.channels(),
    {
        self.descriptors.len() as u8
    }

    /// The address of the primary table.
    pub fn descriptor_base(&self) -> (address: u32)
        ensures
            address == self@.descriptor_base,
    {
        self.descriptor_base
    }

    /// The address of the write-back table.
    pub fn write_back_base(&self) -> (address: u32)
        ensures
            address == self@.write_back_base,
    {
        self.write_back_base
    }

    /// The primary descriptor of `channel`, if the tables have that channel.
    pub fn descriptor(&self, channel: u8) -> (descriptor: Option<DmacDescriptor>)
        requires
            self.wf(),
        ensures
            descriptor == if channel < self.channels() {
                Some(self@.descriptors[channel as int])
            } else {
                None
            },
    {
        if (channel as usize) < self.descriptors.len() {
            Some(self.descriptors[channel as usize])
        } else {
            None
        }
    }

    /// The write-back descriptor of `channel`, if the tables have that
    /// channel.
    pub fn write_back(&self, channel: u8) -> (descriptor: Option<DmacDescriptor>)
        requires
            self.wf(),
        ensures
            descriptor == if channel < self.channels() {
                Some(self@.write_back[channel as int])
            } else {
                None
            },
    {
        if (channel as usize) < self.write_back.len() {
            Some(self.write_back[channel as usize])
        } else {
            None
        }
    }

    /// The beats of `channel`'s block that have been transferred, if the
    /// tables have that channel.
    pub fn transferred(&self, channel: u8) -> (beats: Option<u32>)
        requires
            self.wf(),
        ensures
            beats is Some <==> channel < self.channels(),
            beats matches Some(n) ==> n == self@.transferred(channel as int),
    {
        if (channel as usize) < self.descriptors.len() {
            assert(self@.write_back[channel as int].btcnt <= self@.descriptors[channel as int].btcnt);
            let total_size: u32 = self.descriptors[channel as usize].btcnt as u32;
            let write_size: u32 = self.write_back[channel as usize].btcnt as u32;
            Some(total_size - write_size)
        } else {
            None
        }
    }

    /// Puts `descriptor` in `channel`'s entry of the primary table.  The
    /// write-back entry becomes a copy of it, as it is when the controller
    /// has fetched the descriptor and moved nothing yet.  Returns whether
    /// the tables have that channel; if not, nothing changes.
    pub fn install(&mut self, channel: u8, descriptor: DmacDescriptor) -> (installed: bool)
        requires
            old(self).wf(),
        ensures
            final(self).wf(),
            installed == (channel < old(self).channels()),
            !installed ==> final(self)@ == old(self)@,
            installed ==> final(self)@ == (DescriptorTables {
                descriptors: old(self)@.descriptors.update(channel as int, descriptor),
                write_back: old(self)@.write_back.update(channel as int, descriptor),
                ..old(self)@
            }),
    {
        if (channel as usize) >= self.descriptors.len() {
            return false;
        }
        self.descriptors.set(channel as usize, descriptor);
        self.write_back.set(channel as usize, descriptor);
        true
    }

    /// Takes over what the controller wrote back for `channel`.  An entry
    /// that counts more beats than the channel's primary descriptor cannot
    /// come from a transfer of that descriptor and is refused.  Returns
    /// whether the entry was taken over; if not, nothing changes.
    pub fn record_write_back(&mut self, channel: u8, written: DmacDescriptor) -> (recorded: bool)
        requires
            old(self).wf(),
        ensures
            final(self).wf(),
            recorded == (channel < old(self).channels() && written.btcnt <= old(
                self,
            )@.descriptors[channel as int].btcnt),
            !recorded ==> final(self)@ == old(self)@,
            recorded ==> final(self)@ == (DescriptorTables {
                write_back: old(self)@.write_back.update(channel as int, written),
                ..old(self)@
            }),
    {
        if (channel as usize) >= self.descriptors.len() {
            return false;
        }
        if written.btcnt > self.descriptors[channel as usize].btcnt {
            return false;
        }
        self.write_back.set(channel as usize, written);
        true
    }
}

} // verus!
