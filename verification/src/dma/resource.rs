//! Transfer resources: what the driver knows of one allocated channel, and
//! what an interrupt of that channel does to it.

use vstd::prelude::*;
use crate::dma::channel::DMA_INVALID_CHANNEL;
use crate::dma::config::DmaCallbackType;
use crate::dma::descriptor::DmacDescriptor;
use crate::dma::registers::{
    DmacRegister,
    HardwareOp,
    DMAC_CHINTFLAG_SUSP,
    DMAC_CHINTFLAG_TCMPL,
    DMAC_CHINTFLAG_TERR,
};

verus! {

/// The state of a transfer job, and the errors of the driver's calls.
#[derive(Clone, Copy, Debug, PartialEq, Eq, Structural)]
pub enum StatusCode {
    /// The last transfer completed.
    OK,
    /// A transfer is under way.
    Busy,
    /// No transfer has been started yet.
    Uninitialized,
    /// The channel is suspended.
    Suspend,
    /// A bus error occurred, or the controller fetched an invalid descriptor.
    ErrIO,
    /// No channel is free.
    ErrNotFound,
    /// The call names a channel that holds no resource, or a descriptor that
    /// cannot be used.
    ErrInvalidArg,
}

/// What a transfer resource holds.
pub struct ResourceState {
    /// The channel of the resource, `DMA_INVALID_CHANNEL` while it has none.
    pub channel_id: u8,
    /// The kinds of event whose callback is enabled.
    pub enabled: Set<DmaCallbackType>,
    /// The state of the transfer job.
    pub job_status: StatusCode,
    /// The beats transferred, as of the last interrupt.
    pub transferred_size: u32,
    /// The descriptor of the transfer.
    pub descriptor: DmacDescriptor,
}

/// A transfer resource: a channel with its descriptor, the callbacks that
/// are enabled on it and the state of its transfer job.
///
/// The callbacks themselves are the caller's.  The resource only knows
/// which of the three slots are enabled, one bit of a mask each.
#[derive(Clone, Copy, Debug, PartialEq, Eq)]
pub struct DmaResource {
    channel_id: u8,
    callback_enable: u8,
    job_status: StatusCode,
    transferred_size: u32,
    descriptor: DmacDescriptor,
}

/// What the interrupt handler decided: what the caller has to do to the
/// hardware and for the owner of the resource.
#[derive(Clone, Copy, Debug, PartialEq, Eq)]
pub struct DmaDispatch {
    /// The event that the interrupt stands for, if any flag was set.
    pub event: Option<DmaCallbackType>,
    /// The write that clears the flag of that event.
    pub clear: Option<HardwareOp>,
    /// The callback to invoke, if the one for that event is enabled.
    pub callback: Option<DmaCallbackType>,
}

/// The interrupt flag that stands for an event of kind `kind`.
pub open spec fn spec_flag_of(kind: DmaCallbackType) -> u8 {
    match kind {
        DmaCallbackType::Error => DMAC_CHINTFLAG_TERR,
        DmaCallbackType::Done => DMAC_CHINTFLAG_TCMPL,
        DmaCallbackType::Suspend => DMAC_CHINTFLAG_SUSP,
        DmaCallbackType::N => 0,
    }
}

/// The job status that an event of kind `kind` leaves, given the one before.
pub open spec fn status_after(kind: DmaCallbackType, before: StatusCode) -> StatusCode {
    match kind {
        DmaCallbackType::Error => StatusCode::ErrIO,
        DmaCallbackType::Done => StatusCode::OK,
        DmaCallbackType::Suspend => StatusCode::Suspend,
        DmaCallbackType::N => before,
    }
}

/// The event that the interrupt flags `isr` stand for.  An error goes before
/// a completion, and a completion before a suspension; with none of the
/// three flags set there is no event.
pub open spec fn classify(isr: u8) -> Option<DmaCallbackType> {
    if isr & DMAC_CHINTFLAG_TERR != 0 {
        Some(DmaCallbackType::Error)
    } else if isr & DMAC_CHINTFLAG_TCMPL != 0 {
        Some(DmaCallbackType::Done)
    } else if isr & DMAC_CHINTFLAG_SUSP != 0 {
        Some(DmaCallbackType::Suspend)
    } else {
        None
    }
}

/// What the handler decides for a resource in state `state` on the
/// interrupt flags `isr`: it clears the flag of the event, and invokes the
/// callback of that kind exactly if it is enabled.
pub open spec fn dispatch_of(state: ResourceState, isr: u8) -> DmaDispatch {
    match classify(isr) {
        Some(kind) => DmaDispatch {
            event: Some(kind),
            clear: Some(
                HardwareOp::Write { register: DmacRegister::ChIntFlag, value: spec_flag_of(kind) as u32 },
            ),
            callback: if state.enabled.contains(kind) {
                Some(kind)
            } else {
                None
            },
        },
        None => DmaDispatch { event: None, clear: None, callback: None },
    }
}

/// The state that the handler leaves a resource in: the transferred size is
/// the one computed for this interrupt, and the job status is that of the
/// event, if there is one.
pub open spec fn state_after_interrupt(state: ResourceState, isr: u8, transferred: u32)
    -> ResourceState {
    ResourceState {
        transferred_size: transferred,
        job_status: match classify(isr) {
            Some(kind) => status_after(kind, state.job_status),
            None => state.job_status,
        },
        ..state
    }
}

/// Setting or clearing one bit of a callback mask changes that bit alone.
proof fn lemma_mask_bit(mask: u8, i: u8, j: u8)
    requires
        i < 8,
        j < 8,
    ensures
        (((mask | (1u8 << i)) >> j) & 1 == 1) <==> (j == i || (mask >> j) & 1 == 1),
        (((mask & !(1u8 << i)) >> j) & 1 == 1) <==> (j != i && (mask >> j) & 1 == 1),
        (0u8 >> j) & 1 == 0,
{
    assert({
        &&& (((mask | (1u8 << i)) >> j) & 1 == 1) <==> (j == i || (mask >> j) & 1 == 1)
        &&& (((mask & !(1u8 << i)) >> j) & 1 == 1) <==> (j != i && (mask >> j) & 1 == 1)
        &&& (0u8 >> j) & 1 == 0
    }) by (bit_vector)
        requires
            i < 8,
            j < 8,
    ;
}

impl View for DmaResource {
    type V = ResourceState;

    closed spec fn view(&self) -> ResourceState {
        ResourceState {
            channel_id: self.channel_id,
            enabled: Set::new(
                |kind: DmaCallbackType|
                    kind != DmaCallbackType::N && (self.callback_enable >> kind.spec_index()) & 1
                        == 1,
            ),
            job_status: self.job_status,
            transferred_size: self.transferred_size,
            descriptor: self.descriptor,
        }
    }
}

impl DmaResource {
    /// A resource that has no channel yet: no callback is enabled, no
    /// transfer was started, its descriptor is empty.
    pub fn new() -> (resource: DmaResource)
        ensures
            resource@ == (ResourceState {
                channel_id: DMA_INVALID_CHANNEL,
                enabled: Set::empty(),
                job_status: StatusCode::Uninitialized,
                transferred_size: 0,
                descriptor: DmacDescriptor::empty(),
            }),
    {
        let resource = DmaResource {
            channel_id: DMA_INVALID_CHANNEL,
            callback_enable: 0,
            job_status: StatusCode::Uninitialized,
            transferred_size: 0,
            descriptor: DmacDescriptor::new(),
        };
        proof {
            assert forall|kind: DmaCallbackType| !resource@.enabled.contains(kind) by {
                lemma_mask_bit(0, 0, kind.spec_index());
            }
            assert(resource@.enabled =~= Set::empty());
        }
        resource
    }

    /// Gives the resource the channel `channel`.
    pub(crate) fn assign_channel(&mut self, channel: u8)
        ensures
            final(self)@ == (ResourceState { channel_id: channel, ..old(self)@ }),
    {
        self.channel_id = channel;
    }

    /// Sets the state of the transfer job.
    pub(crate) fn set_job_status(&mut self, status: StatusCode)
        ensures
            final(self)@ == (ResourceState { job_status: status, ..old(self)@ }),
    {
        self.job_status = status;
    }

    /// Sets the descriptor of the transfer.
    pub(crate) fn set_descriptor(&mut self, descriptor: DmacDescriptor)
        ensures
            final(self)@ == (ResourceState { descriptor, ..old(self)@ }),
    {
        self.descriptor = descriptor;
    }

    /// The channel of the resource, `DMA_INVALID_CHANNEL` while it has none.
    pub fn channel_id(&self) -> (id: u8)
        ensures
            id == self@.channel_id,
    {
        self.channel_id
    }

    /// The state of the transfer job.
    pub fn job_status(&self) -> (status: StatusCode)
        ensures
            status == self@.job_status,
    {
        self.job_status
    }

    /// The beats transferred, as of the last interrupt.
    pub fn transferred_size(&self) -> (beats: u32)
        ensures
            beats == self@.transferred_size,
    {
        self.transferred_size
    }

    /// The descriptor of the transfer.
    pub fn descriptor(&self) -> (descriptor: DmacDescriptor)
        ensures
            descriptor == self@.descriptor,
    {
        self.descriptor
    }

    /// Whether the callback for events of kind `kind` is enabled.
    pub fn callback_enabled(&self, kind: DmaCallbackType) -> (enabled: bool)
        ensures
            enabled == self@.enabled.contains(kind),
    {
        match kind {
            DmaCallbackType::N => false,
            _ => (self.callback_enable >> kind.index()) & 1 == 1,
        }
    }

    /// Enables the callback for events of kind `kind`.  `N` is no kind of
    /// event: for it nothing changes and the answer is `false`.
    pub fn enable_callback(&mut self, kind: DmaCallbackType) -> (done: bool)
        ensures
            done == (kind != DmaCallbackType::N),
            done ==> final(self)@ == (ResourceState {
                enabled: old(self)@.enabled.insert(kind),
                ..old(self)@
            }),
            !done ==> *final(self) == *old(self),
    {
        match kind {
            DmaCallbackType::N => false,
            _ => {
                let ghost before = *self;
                self.callback_enable = self.callback_enable | (1u8 << kind.index());
                proof {
                    assert forall|k: DmaCallbackType|
                        self@.enabled.contains(k) <==> before@.enabled.insert(kind).contains(
                            k,
                        ) by {
                        lemma_mask_bit(before.callback_enable, kind.spec_index(), k.spec_index());
                    }
                    assert(self@.enabled =~= before@.enabled.insert(kind));
                }
                true
            },
        }
    }

    /// Disables the callback for events of kind `kind`.  `N` is no kind of
    /// event: for it nothing changes and the answer is `false`.
    pub fn disable_callback(&mut self, kind: DmaCallbackType) -> (done: bool)
        ensures
            done == (kind != DmaCallbackType::N),
            done ==> final(self)@ == (ResourceState {
                enabled: old(self)@.enabled.remove(kind),
                ..old(self)@
            }),
            !done ==> *final(self) == *old(self),
    {
        match kind {
            DmaCallbackType::N => false,
            _ => {
                let ghost before = *self;
                self.callback_enable = self.callback_enable & !(1u8 << kind.index());
                proof {
                    assert forall|k: DmaCallbackType|
                        self@.enabled.contains(k) <==> before@.enabled.remove(kind).contains(
                            k,
                        ) by {
                        lemma_mask_bit(before.callback_enable, kind.spec_index(), k.spec_index());
                    }
                    assert(self@.enabled =~= before@.enabled.remove(kind));
                }
                true
            },
        }
    }

    /// Handles an interrupt of this resource's channel.
    ///
    /// `isr` holds the interrupt flags of the channel, `transferred` the
    /// beats that were found transferred.  The resource takes over the
    /// transferred size and the job status of the event; the answer says
    /// which flag to clear and which callback to invoke.
    pub fn handle_interrupt(&mut self, isr: u8, transferred: u32) -> (dispatch: DmaDispatch)
        ensures
            final(self)@ == state_after_interrupt(old(self)@, isr, transferred),
            dispatch == dispatch_of(old(self)@, isr),
    {
        self.transferred_size = transferred;
        if isr & DMAC_CHINTFLAG_TERR != 0 {
            self.job_status = StatusCode::ErrIO;
            self.dispatch(DmaCallbackType::Error, DMAC_CHINTFLAG_TERR)
        } else if isr & DMAC_CHINTFLAG_TCMPL != 0 {
            self.job_status = StatusCode::OK;
            self.dispatch(DmaCallbackType::Done, DMAC_CHINTFLAG_TCMPL)
        } else if isr & DMAC_CHINTFLAG_SUSP != 0 {
            self.job_status = StatusCode::Suspend;
            self.dispatch(DmaCallbackType::Suspend, DMAC_CHINTFLAG_SUSP)
        } else {
            DmaDispatch { event: None, clear: None, callback: None }
        }
    }

    /// The answer to an event of kind `kind`, whose flag is `flag`.
    fn dispatch(&self, kind: DmaCallbackType, flag: u8) -> (dispatch: DmaDispatch)
        ensures
            dispatch == (DmaDispatch {
                event: Some(kind),
                clear: Some(HardwareOp::Write { register: DmacRegister::ChIntFlag, value: flag as u32 }),
                callback: if self@.enabled.contains(kind) {
                    Some(kind)
                } else {
                    None
                },
            }),
    {
        DmaDispatch {
            event: Some(kind),
            clear: Some(HardwareOp::Write { register: DmacRegister::ChIntFlag, value: flag as u32 }),
            callback: if self.callback_enabled(kind) {
                Some(kind)
            } else {
                None
            },
        }
    }
}

} // verus!
