//! The controller: the one object that owns the allocator, the descriptor
//! store and the registry of active resources.

use vstd::prelude::*;
use crate::dma::channel::{first_free, ChannelAllocator, DMA_INVALID_CHANNEL, DMA_MAX_CHANNELS};
use crate::dma::config::{DmaCallbackType, DmaResourceConfig};
use crate::dma::descriptor::DmacDescriptor;
use crate::dma::engine::{
    _dma_set_config,
    bring_up_ops,
    channel_reset_ops,
    dma_bring_up,
    dma_reset_channel,
    set_config_ops,
};
use crate::dma::registers::{DmacRegister, HardwareOp, DMAC_CHCTRLA_ENABLE};
use crate::dma::resource::{
    dispatch_of,
    state_after_interrupt,
    DmaDispatch,
    DmaResource,
    ResourceState,
    StatusCode,
};
use crate::dma::store::{DescriptorStore, DescriptorTables};

verus! {

/// What a controller holds.
pub struct ControllerState {
    /// Whether the hardware has been brought up.
    pub initialized: bool,
    /// The number of channels.
    pub capacity: int,
    /// The ids of the allocated channels.
    pub allocated: Set<int>,
    /// The two descriptor tables.
    pub tables: DescriptorTables,
    /// The registry: entry `i` is the resource of channel `i`, if it has one.
    pub active: Seq<Option<ResourceState>>,
}

/// The state of a resource that has just been given channel `channel`.
pub open spec fn fresh_resource(channel: u8) -> ResourceState {
    ResourceState {
        channel_id: channel,
        enabled: Set::empty(),
        job_status: StatusCode::Uninitialized,
        transferred_size: 0,
        descriptor: DmacDescriptor::empty(),
    }
}

impl ControllerState {
    /// The resource that is registered for `channel`, if there is one.  A
    /// channel that the controller does not have has none.
    pub open spec fn resource_at(self, channel: int) -> Option<ResourceState> {
        if 0 <= channel < self.active.len() {
            self.active[channel]
        } else {
            None
        }
    }

    /// The invariant of a controller.
    ///
    /// The registry and the tables have one entry per channel.  A channel
    /// has a resource exactly while it is allocated, and the resource knows
    /// its channel.  For a resource whose transfer was never started the
    /// write-back entry counts what the primary entry counts.  Before the
    /// hardware is brought up no channel is allocated.
    pub open spec fn wf(self) -> bool {
        &&& 1 <= self.capacity <= DMA_MAX_CHANNELS
        &&& self.tables.wf()
        &&& self.tables.descriptors.len() == self.capacity
        &&& self.active.len() == self.capacity
        &&& self.allocated.finite()
        &&& forall|ch: int| self.allocated.contains(ch) ==> 0 <= ch < self.capacity
        &&& forall|ch: int|
            0 <= ch < self.capacity ==> ((#[trigger] self.active[ch]) is Some
                <==> self.allocated.contains(ch))
        &&& forall|ch: int|
            0 <= ch < self.capacity ==> ((#[trigger] self.active[ch]) matches Some(r) ==> {
                &&& r.channel_id == ch
                &&& r.job_status == StatusCode::Uninitialized ==> self.tables.transferred(ch) == 0
            })
        &&& !self.initialized ==> self.allocated =~= Set::empty()
    }

    /// The state after an allocation that found channel `channel` free.
    pub open spec fn allocate(self, channel: u8) -> ControllerState {
        ControllerState {
            initialized: true,
            allocated: self.allocated.insert(channel as int),
            tables: DescriptorTables {
                descriptors: self.tables.descriptors.update(channel as int, DmacDescriptor::empty()),
                write_back: self.tables.write_back.update(channel as int, DmacDescriptor::empty()),
                ..self.tables
            },
            active: self.active.update(channel as int, Some(fresh_resource(channel))),
            ..self
        }
    }

    /// The accesses that go with that allocation: the hardware is brought
    /// up if it has not been, then the channel is reset and programmed.
    pub open spec fn allocate_ops(self, channel: u8, config: DmaResourceConfig) -> Seq<
        HardwareOp,
    > {
        (if self.initialized {
            Seq::empty()
        } else {
            bring_up_ops(self.tables.descriptor_base, self.tables.write_back_base)
        }) + channel_reset_ops(channel) + set_config_ops(channel, config)
    }

    /// The state after the release of channel `channel`: its entry of the
    /// registry is cleared and the channel is free.
    pub open spec fn release(self, channel: u8) -> ControllerState {
        ControllerState {
            allocated: self.allocated.remove(channel as int),
            active: self.active.update(channel as int, None),
            ..self
        }
    }

    /// The state in which the resource of `channel` is `resource` and
    /// nothing else differs.
    pub open spec fn with_resource(self, channel: u8, resource: ResourceState) -> ControllerState {
        ControllerState { active: self.active.update(channel as int, Some(resource)), ..self }
    }

    /// The state after `descriptor` was added to the resource of `channel`:
    /// the resource holds it, and so do both of the channel's table entries.
    pub open spec fn add_descriptor(self, channel: u8, descriptor: DmacDescriptor)
        -> ControllerState {
        ControllerState {
            tables: DescriptorTables {
                descriptors: self.tables.descriptors.update(channel as int, descriptor),
                write_back: self.tables.write_back.update(channel as int, descriptor),
                ..self.tables
            },
            active: self.active.update(
                channel as int,
                Some(ResourceState { descriptor, ..self.active[channel as int]->0 }),
            ),
            ..self
        }
    }

    /// The state after the transfer of `channel` was started: its job is
    /// busy, and its write-back entry counts the whole block again.
    pub open spec fn start_transfer(self, channel: u8) -> ControllerState {
        ControllerState {
            tables: DescriptorTables {
                write_back: self.tables.write_back.update(
                    channel as int,
                    self.tables.descriptors[channel as int],
                ),
                ..self.tables
            },
            active: self.active.update(
                channel as int,
                Some(
                    ResourceState {
                        job_status: StatusCode::Busy,
                        ..self.active[channel as int]->0
                    },
                ),
            ),
            ..self
        }
    }

    /// The state after `written` was taken over as the write-back entry of
    /// `channel`.
    pub open spec fn record_write_back(self, channel: u8, written: DmacDescriptor)
        -> ControllerState {
        ControllerState {
            tables: DescriptorTables {
                write_back: self.tables.write_back.update(channel as int, written),
                ..self.tables
            },
            ..self
        }
    }

    /// Whether a transfer of `channel` can be started, and if not, why: the
    /// channel must have a resource, its job must not be busy, and its
    /// primary descriptor must be valid.
    pub open spec fn start_error(self, channel: u8) -> Option<StatusCode> {
        match self.resource_at(channel as int) {
            None => Some(StatusCode::ErrInvalidArg),
            Some(r) => if r.job_status == StatusCode::Busy {
                Some(StatusCode::Busy)
            } else if !self.tables.descriptors[channel as int].btctrl@.valid {
                Some(StatusCode::ErrInvalidArg)
            } else {
                None
            },
        }
    }

    /// Whether a descriptor can be added to the resource of `channel`, and
    /// if not, why: the channel must have a resource, and its job must not
    /// be busy.
    pub open spec fn add_error(self, channel: u8) -> Option<StatusCode> {
        match self.resource_at(channel as int) {
            None => Some(StatusCode::ErrInvalidArg),
            Some(r) => if r.job_status == StatusCode::Busy {
                Some(StatusCode::Busy)
            } else {
                None
            },
        }
    }

    /// The state after an interrupt of channel `channel` with flags `isr`,
    /// for a channel that has a resource: the resource takes over the beats
    /// that the tables show as transferred, and the status of the event.
    pub open spec fn interrupt(self, channel: u8, isr: u8) -> ControllerState {
        ControllerState {
            active: self.active.update(
                channel as int,
                Some(
                    state_after_interrupt(
                        self.active[channel as int]->0,
                        isr,
                        self.tables.transferred(channel as int) as u32,
                    ),
                ),
            ),
            ..self
        }
    }
}

/// The controller learns where the tables lie once, and while no channel is
/// in use.
///
/// The accesses of an allocation write the two base address registers
/// exactly if the hardware has not been brought up, and then no channel is
/// allocated.  After any allocation the hardware counts as brought up.
pub proof fn lemma_tables_are_announced_once(
    state: ControllerState,
    channel: u8,
    config: DmaResourceConfig,
)
    requires
        state.wf(),
    ensures
        state.allocate(channel).initialized,
        !state.initialized ==> state.allocated =~= Set::empty(),
        !state.initialized ==> state.allocate_ops(channel, config).contains(
            HardwareOp::Write { register: DmacRegister::BaseAddr, value: state.tables.descriptor_base },
        ) && state.allocate_ops(channel, config).contains(
            HardwareOp::Write { register: DmacRegister::WrbAddr, value: state.tables.write_back_base },
        ),
        state.initialized ==> forall|i: int|
            0 <= i < state.allocate_ops(channel, config).len() ==> !(#[trigger] state.allocate_ops(
                channel,
                config,
            )[i] matches HardwareOp::Write { register, .. } && (register == DmacRegister::BaseAddr
                || register == DmacRegister::WrbAddr)),
{
    let ops = state.allocate_ops(channel, config);
    if !state.initialized {
        assert(ops[3] == HardwareOp::Write {
            register: DmacRegister::BaseAddr,
            value: state.tables.descriptor_base,
        });
        assert(ops[4] == HardwareOp::Write {
            register: DmacRegister::WrbAddr,
            value: state.tables.write_back_base,
        });
    }
}

/// A transfer that was never started has moved nothing.
///
/// For a resource whose transfer was never started, the channel's
/// write-back entry counts what its primary entry counts, and an interrupt
/// of the channel, whatever its flags, finds no beat transferred.
pub proof fn lemma_unstarted_transfer_has_moved_nothing(
    state: ControllerState,
    channel: u8,
    isr: u8,
)
    requires
        state.wf(),
        state.resource_at(channel as int) matches Some(r) && r.job_status
            == StatusCode::Uninitialized,
    ensures
        state.tables.write_back[channel as int].btcnt == state.tables.descriptors[channel
            as int].btcnt,
        state.interrupt(channel, isr).active[channel as int]->0.transferred_size == 0,
{
    assert(state.active[channel as int] is Some);
}

/// A channel that was just allocated and programmed has moved nothing: an
/// interrupt of it finds no beat transferred.
pub proof fn lemma_allocated_channel_has_moved_nothing(
    state: ControllerState,
    channel: u8,
    isr: u8,
)
    requires
        state.wf(),
        channel < state.capacity,
        !state.allocated.contains(channel as int),
    ensures
        state.allocate(channel).wf(),
        state.allocate(channel).interrupt(channel, isr).active[channel as int]->0.transferred_size
            == 0,
{
    let after = state.allocate(channel);
    assert forall|ch: int| 0 <= ch < after.capacity implies ((#[trigger] after.active[ch]) is Some
        <==> after.allocated.contains(ch)) by {
        if ch != channel {
            assert(after.active[ch] == state.active[ch]);
        }
    }
    assert forall|ch: int| 0 <= ch < after.capacity implies ((#[trigger] after.active[ch]) matches Some(
        r,
    ) ==> {
        &&& r.channel_id == ch
        &&& r.job_status == StatusCode::Uninitialized ==> after.tables.transferred(ch) == 0
    }) by {
        if ch != channel {
            assert(after.active[ch] == state.active[ch]);
        }
    }
    assert forall|i: int| 0 <= i < after.tables.descriptors.len() implies (#[trigger] after
        .tables
        .write_back[i]).btcnt <= after.tables.descriptors[i].btcnt by {
        if i != channel {
            assert(after.tables.write_back[i] == state.tables.write_back[i]);
        }
    }
    lemma_unstarted_transfer_has_moved_nothing(after, channel, isr);
}

/// The beats transferred are the configured count less the remaining one.
///
/// Let the primary descriptor of a channel with a resource count `k` beats
/// and its write-back descriptor `r`.  Then `r` is at most `k`, and an
/// interrupt of the channel, whatever its flags, leaves the resource with
/// exactly `k - r` beats transferred.
pub proof fn lemma_transferred_is_count_less_remaining(
    state: ControllerState,
    channel: u8,
    isr: u8,
)
    requires
        state.wf(),
        state.resource_at(channel as int) is Some,
    ensures
        0 <= state.tables.write_back[channel as int].btcnt <= state.tables.descriptors[channel
            as int].btcnt,
        state.interrupt(channel, isr).active[channel as int]->0.transferred_size
            == state.tables.descriptors[channel as int].btcnt - state.tables.write_back[channel
            as int].btcnt,
{
    assert(state.tables.write_back[channel as int].btcnt <= state.tables.descriptors[channel
        as int].btcnt);
}

/// What the controller wrote back is what the next interrupt reports.
///
/// Let the primary descriptor of a channel count `k` beats, and let the
/// controller write back a descriptor that counts `r` beats, `r` at most
/// `k`, for a resource whose transfer was started.  Once that is taken over,
/// an interrupt of the channel leaves the resource with `k - r` beats
/// transferred.
pub proof fn lemma_recorded_progress_is_reported(
    state: ControllerState,
    channel: u8,
    written: DmacDescriptor,
    isr: u8,
)
    requires
        state.wf(),
        state.resource_at(channel as int) matches Some(r) && r.job_status
            != StatusCode::Uninitialized,
        written.btcnt <= state.tables.descriptors[channel as int].btcnt,
    ensures
        state.record_write_back(channel, written).wf(),
        state.record_write_back(channel, written).interrupt(channel, isr).active[channel
            as int]->0.transferred_size == state.tables.descriptors[channel as int].btcnt
            - written.btcnt,
{
    let after = state.record_write_back(channel, written);
    assert(state.active[channel as int] is Some);
    assert forall|i: int| 0 <= i < after.tables.descriptors.len() implies (#[trigger] after
        .tables
        .write_back[i]).btcnt <= after.tables.descriptors[i].btcnt by {
        if i != channel {
            assert(after.tables.write_back[i] == state.tables.write_back[i]);
        }
    }
    assert forall|ch: int| 0 <= ch < after.capacity implies ((#[trigger] after.active[ch]) matches Some(
        r,
    ) ==> {
        &&& r.channel_id == ch
        &&& r.job_status == StatusCode::Uninitialized ==> after.tables.transferred(ch) == 0
    }) by {
        if ch != channel {
            assert(after.tables.write_back[ch] == state.tables.write_back[ch]);
        }
    }
}

/// What an allocation hands to the caller.
pub struct DmaAllocation {
    /// The resource as it was registered.  Its channel id names it in every
    /// later call.
    pub resource: DmaResource,
    /// The accesses to perform, in this order.
    pub ops: Vec<HardwareOp>,
}

/// The view of an entry of the registry.
pub open spec fn entry_view(entry: Option<DmaResource>) -> Option<ResourceState> {
    match entry {
        Some(r) => Some(r@),
        None => None,
    }
}

/// The DMA controller driver.
pub struct DmaController {
    dma_init: bool,
    allocator: ChannelAllocator,
    store: DescriptorStore,
    active: Vec<Option<DmaResource>>,
}

impl View for DmaController {
    type V = ControllerState;

    closed spec fn view(&self) -> ControllerState {
        ControllerState {
            initialized: self.dma_init,
            capacity: self.allocator.capacity(),
            allocated: self.allocator@,
            tables: self.store@,
            active: Seq::new(self.active@.len(), |i: int| entry_view(self.active@[i])),
        }
    }
}

impl DmaController {
    /// The invariant of the controller: that of its parts, and that of its
    /// state.
    pub closed spec fn wf(&self) -> bool {
        &&& self.allocator.wf()
        &&& self.store.wf()
        &&& self@.wf()
    }

    /// A well-formed controller has a well-formed state.
    pub proof fn lemma_wf(&self)
        requires
            self.wf(),
        ensures
            self@.wf(),
    {
    }

    /// A controller for `channels` channels whose descriptor tables lie at
    /// the two given addresses.  Nothing is allocated and the hardware is
    /// not brought up yet.  There is no controller for zero channels or for
    /// more than `DMA_MAX_CHANNELS`.
    pub fn new(channels: u8, descriptor_base: u32, write_back_base: u32) -> (controller: Option<
        DmaController,
    >)
        ensures
            controller is Some <==> 1 <= channels <= DMA_MAX_CHANNELS,
            controller matches Some(c) ==> {
                &&& c.wf()
                &&& c@ == (ControllerState {
                    initialized: false,
                    capacity: channels as int,
                    allocated: Set::empty(),
                    tables: DescriptorTables {
                        descriptors: Seq::new(channels as nat, |i: int| DmacDescriptor::empty()),
                        write_back: Seq::new(channels as nat, |i: int| DmacDescriptor::empty()),
                        descriptor_base,
                        write_back_base,
                    },
                    active: Seq::new(channels as nat, |i: int| None),
                })
            },
    {
        let allocator = match ChannelAllocator::new(channels) {
            Some(a) => a,
            None => {
                return None;
            },
        };
        let store = DescriptorStore::new(channels, descriptor_base, write_back_base);
        let mut active: Vec<Option<DmaResource>> = Vec::new();
        let mut i: u8 = 0;
        while i < channels
            invariant
                i <= channels,
                active@.len() == i,
                forall|j: int| 0 <= j < i ==> (#[trigger] active@[j]) is None,
            decreases channels - i,
        {
            active.push(None);
            i = i + 1;
        }
        let controller = DmaController { dma_init: false, allocator, store, active };
        proof {
            assert(controller@.active =~= Seq::new(channels as nat, |i: int| None));
        }
        Some(controller)
    }

    /// The number of channels.
    pub fn channel_count(&self) -> (n: u8)
        requires
            self.wf(),
        ensures
            n == self@.capacity,
    {
        self.allocator.channel_count()
    }

    /// The number of channels that are free.
    pub fn free_channel_count(&self) -> (n: u8)
        requires
            self.wf(),
        ensures
            n == self@.capacity - self@.allocated.len(),
    {
        proof {
            self.allocator.lemma_wf();
        }
        self.allocator.free_channel_count()
    }

    /// Whether the hardware has been brought up.
    pub fn is_initialized(&self) -> (initialized: bool)
        ensures
            initialized == self@.initialized,
    {
        self.dma_init
    }

    /// The resource that is registered for `channel`, if there is one.
    pub fn resource(&self, channel: u8) -> (resource: Option<DmaResource>)
        requires
            self.wf(),
        ensures
            entry_view(resource) == self@.resource_at(channel as int),
    {
        if (channel as usize) < self.active.len() {
            self.active[channel as usize]
        } else {
            None
        }
    }

    /// The primary descriptor of `channel`, if the controller has that
    /// channel.
    pub fn descriptor(&self, channel: u8) -> (descriptor: Option<DmacDescriptor>)
        requires
            self.wf(),
        ensures
            descriptor == if channel < self@.capacity {
                Some(self@.tables.descriptors[channel as int])
            } else {
                None
            },
    {
        self.store.descriptor(channel)
    }

    /// The write-back descriptor of `channel`, if the controller has that
    /// channel.
    pub fn write_back(&self, channel: u8) -> (descriptor: Option<DmacDescriptor>)
        requires
            self.wf(),
        ensures
            descriptor == if channel < self@.capacity {
                Some(self@.tables.write_back[channel as int])
            } else {
                None
            },
    {
        self.store.write_back(channel)
    }

    /// Allocates a channel and registers a resource for it.
    ///
    /// The channel is the lowest-numbered free one.  Its resource is new,
    /// its entries of the descriptor tables are empty.  The accesses in the
    /// answer bring the hardware up, if this is the first allocation, then
    /// reset the channel and program it with `config`.
    ///
    /// With every channel taken the answer is `ErrNotFound`: nothing
    /// changes, and there is nothing to do to the hardware.
    pub fn dma_allocate(&mut self, config: &DmaResourceConfig) -> (result: Result<
        DmaAllocation,
        StatusCode,
    >)
        requires
            old(self).wf(),
        ensures
            final(self).wf(),
            result is Err <==> old(self)@.allocated.len() == old(self)@.capacity,
            result matches Err(e) ==> e == StatusCode::ErrNotFound && final(self)@ == old(self)@,
            result matches Ok(allocation) ==> {
                let channel = first_free(old(self)@.allocated, old(self)@.capacity) as u8;
                &&& channel < old(self)@.capacity
                &&& !old(self)@.allocated.contains(channel as int)
                &&& allocation.resource@ == fresh_resource(channel)
                &&& allocation.ops@ == old(self)@.allocate_ops(channel, *config)
                &&& final(self)@ == old(self)@.allocate(channel)
            },
    {
        proof {
            self.allocator.lemma_wf();
            assert(self@.active.len() == self.active@.len());
        }
        let ghost before = *self;
        let new_channel = self.allocator._dma_find_first_free_channel_and_allocate();
        if new_channel == DMA_INVALID_CHANNEL {
            assert(self@ =~= before@);
            return Err(StatusCode::ErrNotFound);
        }
        let mut ops: Vec<HardwareOp> = Vec::new();
        if !self.dma_init {
            let mut bring_up = dma_bring_up(
                self.store.descriptor_base(),
                self.store.write_back_base(),
            );
            ops.append(&mut bring_up);
            self.dma_init = true;
        }
        let mut resource = DmaResource::new();
        resource.assign_channel(new_channel);
        let mut reset = dma_reset_channel(new_channel);
        ops.append(&mut reset);
        let mut program = _dma_set_config(&resource, config);
        ops.append(&mut program);
        let installed = self.store.install(new_channel, DmacDescriptor::new());
        self.active.set(new_channel as usize, Some(resource));
        proof {
            assert(resource@ == fresh_resource(new_channel));
            assert(self@.active =~= before@.active.update(
                new_channel as int,
                Some(fresh_resource(new_channel)),
            ));
            assert(self@ == before@.allocate(new_channel));
            assert(ops@ =~= before@.allocate_ops(new_channel, *config));
            self.allocator.lemma_wf();
        }
        Ok(DmaAllocation { resource, ops })
    }

    /// Programs `channel` with `config` anew.  The answer is the accesses to
    /// perform; the state of the driver does not change.  A channel without
    /// a resource cannot be programmed: the answer is `ErrInvalidArg`.
    pub fn configure(&self, channel: u8, config: &DmaResourceConfig) -> (result: Result<
        Vec<HardwareOp>,
        StatusCode,
    >)
        requires
            self.wf(),
        ensures
            result is Ok <==> self@.resource_at(channel as int) is Some,
            result matches Err(e) ==> e == StatusCode::ErrInvalidArg,
            result matches Ok(ops) ==> ops@ == set_config_ops(channel, *config),
    {
        if (channel as usize) >= self.active.len() {
            return Err(StatusCode::ErrInvalidArg);
        }
        match self.active[channel as usize] {
            None => Err(StatusCode::ErrInvalidArg),
            Some(resource) => {
                assert(self@.active[channel as int] == Some(resource@));
                Ok(_dma_set_config(&resource, config))
            },
        }
    }

    /// Releases `channel`: clears its entry of the registry, then gives the
    /// channel back to the allocator.  Returns whether the channel had a
    /// resource; if not, nothing changes.
    pub fn dma_release(&mut self, channel: u8) -> (released: bool)
        requires
            old(self).wf(),
        ensures
            final(self).wf(),
            released == old(self)@.resource_at(channel as int) is Some,
            released ==> final(self)@ == old(self)@.release(channel),
            !released ==> final(self)@ == old(self)@,
    {
        proof {
            self.allocator.lemma_wf();
        }
        let ghost before = *self;
        if (channel as usize) >= self.active.len() {
            return false;
        }
        if self.active[channel as usize].is_none() {
            return false;
        }
        self.active.set(channel as usize, None);
        let freed = self.allocator._dma_release_channel(channel);
        proof {
            assert(before@.active[channel as int] is Some);
            assert(freed);
            assert(self@.active =~= before@.active.update(channel as int, None));
            self.allocator.lemma_wf();
        }
        true
    }

    /// Enables the callback of kind `kind` on the resource of `channel`.
    /// Returns whether it did: not for a channel without a resource, nor for
    /// `N`, which is no kind of event.  Then nothing changes.
    pub fn enable_callback(&mut self, channel: u8, kind: DmaCallbackType) -> (done: bool)
        requires
            old(self).wf(),
        ensures
            final(self).wf(),
            done == (old(self)@.resource_at(channel as int) is Some && kind != DmaCallbackType::N),
            !done ==> final(self)@ == old(self)@,
            done ==> final(self)@ == old(self)@.with_resource(
                channel,
                ResourceState {
                    enabled: old(self)@.active[channel as int]->0.enabled.insert(kind),
                    ..old(self)@.active[channel as int]->0
                },
            ),
    {
        let ghost before = *self;
        if (channel as usize) >= self.active.len() {
            return false;
        }
        match self.active[channel as usize] {
            None => false,
            Some(mut resource) => {
                if !resource.enable_callback(kind) {
                    return false;
                }
                self.active.set(channel as usize, Some(resource));
                proof {
                    assert(self@.active =~= before@.active.update(channel as int, Some(resource@)));
                }
                true
            },
        }
    }

    /// Disables the callback of kind `kind` on the resource of `channel`.
    /// Returns whether it did: not for a channel without a resource, nor for
    /// `N`, which is no kind of event.  Then nothing changes.
    pub fn disable_callback(&mut self, channel: u8, kind: DmaCallbackType) -> (done: bool)
        requires
            old(self).wf(),
        ensures
            final(self).wf(),
            done == (old(self)@.resource_at(channel as int) is Some && kind != DmaCallbackType::N),
            !done ==> final(self)@ == old(self)@,
            done ==> final(self)@ == old(self)@.with_resource(
                channel,
                ResourceState {
                    enabled: old(self)@.active[channel as int]->0.enabled.remove(kind),
                    ..old(self)@.active[channel as int]->0
                },
            ),
    {
        let ghost before = *self;
        if (channel as usize) >= self.active.len() {
            return false;
        }
        match self.active[channel as usize] {
            None => false,
            Some(mut resource) => {
                if !resource.disable_callback(kind) {
                    return false;
                }
                self.active.set(channel as usize, Some(resource));
                proof {
                    assert(self@.active =~= before@.active.update(channel as int, Some(resource@)));
                }
                true
            },
        }
    }

    /// Adds `descriptor` to the resource of `channel` and installs it in the
    /// channel's entry of the primary table.  The answer is the access that
    /// copies it into the table that the controller reads.
    ///
    /// The answer is `ErrInvalidArg` for a channel without a resource and
    /// `Busy` while the channel's transfer is under way: the tables of a
    /// running transfer are the controller's.  Then nothing changes.
    pub fn dma_add_descriptor(&mut self, channel: u8, descriptor: DmacDescriptor) -> (result:
        Result<HardwareOp, StatusCode>)
        requires
            old(self).wf(),
        ensures
            final(self).wf(),
            result matches Err(e) ==> old(self)@.add_error(channel) == Some(e) && final(self)@
                == old(self)@,
            result matches Ok(op) ==> {
                &&& old(self)@.add_error(channel) is None
                &&& op == (HardwareOp::StoreDescriptor { channel, descriptor })
                &&& final(self)@ == old(self)@.add_descriptor(channel, descriptor)
            },
    {
        let ghost before = *self;
        if (channel as usize) >= self.active.len() {
            return Err(StatusCode::ErrInvalidArg);
        }
        match self.active[channel as usize] {
            None => Err(StatusCode::ErrInvalidArg),
            Some(mut resource) => {
                if resource.job_status() == StatusCode::Busy {
                    return Err(StatusCode::Busy);
                }
                resource.set_descriptor(descriptor);
                let installed = self.store.install(channel, descriptor);
                self.active.set(channel as usize, Some(resource));
                proof {
                    assert(self@.active =~= before@.active.update(channel as int, Some(resource@)));
                    assert(self@ == before@.add_descriptor(channel, descriptor));
                }
                Ok(HardwareOp::StoreDescriptor { channel, descriptor })
            },
        }
    }

    /// Starts the transfer that the primary descriptor of `channel`
    /// describes.  The accesses in the answer select the channel and enable
    /// it.  The job of the resource is busy from now on.
    ///
    /// The answer is `ErrInvalidArg` for a channel without a resource or
    /// with a descriptor that is not valid, and `Busy` while the channel's
    /// transfer is under way.  Then nothing changes.
    pub fn dma_start_transfer_job(&mut self, channel: u8) -> (result: Result<
        Vec<HardwareOp>,
        StatusCode,
    >)
        requires
            old(self).wf(),
        ensures
            final(self).wf(),
            result matches Err(e) ==> old(self)@.start_error(channel) == Some(e) && final(self)@
                == old(self)@,
            result matches Ok(ops) ==> {
                &&& old(self)@.start_error(channel) is None
                &&& ops@ == seq![
                    HardwareOp::Write { register: DmacRegister::ChId, value: channel as u32 },
                    HardwareOp::SetBits { register: DmacRegister::ChCtrlA, mask: DMAC_CHCTRLA_ENABLE },
                ]
                &&& final(self)@ == old(self)@.start_transfer(channel)
            },
    {
        let ghost before = *self;
        if (channel as usize) >= self.active.len() {
            return Err(StatusCode::ErrInvalidArg);
        }
        match self.active[channel as usize] {
            None => Err(StatusCode::ErrInvalidArg),
            Some(mut resource) => {
                if resource.job_status() == StatusCode::Busy {
                    return Err(StatusCode::Busy);
                }
                let descriptor = match self.store.descriptor(channel) {
                    Some(d) => d,
                    None => {
                        return Err(StatusCode::ErrInvalidArg);
                    },
                };
                if !descriptor.btctrl.valid() {
                    return Err(StatusCode::ErrInvalidArg);
                }
                resource.set_job_status(StatusCode::Busy);
                let recorded = self.store.record_write_back(channel, descriptor);
                self.active.set(channel as usize, Some(resource));
                let mut ops: Vec<HardwareOp> = Vec::new();
                ops.push(HardwareOp::Write { register: DmacRegister::ChId, value: channel as u32 });
                ops.push(
                    HardwareOp::SetBits { register: DmacRegister::ChCtrlA, mask: DMAC_CHCTRLA_ENABLE },
                );
                proof {
                    assert(self@.active =~= before@.active.update(channel as int, Some(resource@)));
                    assert(self@ == before@.start_transfer(channel));
                }
                Ok(ops)
            },
        }
    }

    /// Takes over `written` as what the controller wrote back for `channel`.
    ///
    /// It is taken over where the channel has a resource whose transfer was
    /// started at some time, and `written` counts no more beats than the
    /// channel's primary descriptor.  Returns whether it was; if not,
    /// nothing changes.
    pub fn record_write_back(&mut self, channel: u8, written: DmacDescriptor) -> (recorded: bool)
        requires
            old(self).wf(),
        ensures
            final(self).wf(),
            recorded == (old(self)@.resource_at(channel as int) matches Some(r) && r.job_status
                != StatusCode::Uninitialized && written.btcnt <= old(
                self,
            )@.tables.descriptors[channel as int].btcnt),
            !recorded ==> final(self)@ == old(self)@,
            recorded ==> final(self)@ == old(self)@.record_write_back(channel, written),
    {
        if (channel as usize) >= self.active.len() {
            return false;
        }
        match self.active[channel as usize] {
            None => false,
            Some(resource) => {
                if resource.job_status() == StatusCode::Uninitialized {
                    return false;
                }
                self.store.record_write_back(channel, written)
            },
        }
    }

    /// The first step of the interrupt handler.  `pending_channel` is the
    /// channel that the controller names as the one with an interrupt
    /// pending.  If it has a resource, the answer is the access that selects
    /// the channel, after which its interrupt flags can be read.  If it has
    /// none, the interrupt is stale and there is nothing to do.
    pub fn dmac_handler_select(&self, pending_channel: u8) -> (select: Option<HardwareOp>)
        requires
            self.wf(),
        ensures
            select == if self@.resource_at(pending_channel as int) is Some {
                Some(HardwareOp::Write { register: DmacRegister::ChId, value: pending_channel as u32 })
            } else {
                None
            },
    {
        if (pending_channel as usize) < self.active.len() && self.active[pending_channel
            as usize].is_some() {
            Some(HardwareOp::Write { register: DmacRegister::ChId, value: pending_channel as u32 })
        } else {
            None
        }
    }

    /// The interrupt handler.  `pending_channel` is the channel with an
    /// interrupt pending, `isr` are its interrupt flags.
    ///
    /// For a channel without a resource nothing changes and the answer asks
    /// for nothing.  Otherwise the resource takes over the beats
    /// transferred, which are the count of the channel's primary descriptor
    /// less the count of its write-back descriptor, and the status of the
    /// event.  The answer says which flag to clear and which callback to
    /// invoke.
    pub fn dmac_handler(&mut self, pending_channel: u8, isr: u8) -> (dispatch: DmaDispatch)
        requires
            old(self).wf(),
        ensures
            final(self).wf(),
            old(self)@.resource_at(pending_channel as int) is None ==> {
                &&& dispatch == (DmaDispatch { event: None, clear: None, callback: None })
                &&& final(self)@ == old(self)@
            },
            old(self)@.resource_at(pending_channel as int) matches Some(r) ==> {
                &&& dispatch == dispatch_of(r, isr)
                &&& final(self)@ == old(self)@.interrupt(pending_channel, isr)
            },
    {
        let ghost before = *self;
        if (pending_channel as usize) >= self.active.len() {
            return DmaDispatch { event: None, clear: None, callback: None };
        }
        match self.active[pending_channel as usize] {
            None => DmaDispatch { event: None, clear: None, callback: None },
            Some(mut resource) => {
                let transferred = match self.store.transferred(pending_channel) {
                    Some(beats) => beats,
                    None => 0,
                };
                let dispatch = resource.handle_interrupt(isr, transferred);
                self.active.set(pending_channel as usize, Some(resource));
                proof {
                    assert(self@.active =~= before@.active.update(
                        pending_channel as int,
                        Some(resource@),
                    ));
                    assert(self@ == before@.interrupt(pending_channel, isr));
                }
                dispatch
            },
        }
    }
}

} // verus!
