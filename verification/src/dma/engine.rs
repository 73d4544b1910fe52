//! The configuration engine: the register accesses that bring the
//! controller up and that program a channel.

use vstd::prelude::*;
use crate::dma::channel::DMA_MAX_CHANNELS;
use crate::dma::config::DmaResourceConfig;
use crate::dma::registers::{
    chctrlb_value,
    spec_chctrlb,
    DmacRegister,
    HardwareOp,
    DMAC_CHCTRLA_SWRST,
    DMAC_CTRL_ENABLE_ALL_LEVELS,
    DMAC_CTRL_SWRST,
    PM_AHBMASK_DMAC,
    PM_APBBMASK_DMAC,
};
use crate::dma::resource::DmaResource;

verus! {

/// What brings the controller up, in this order: its two clocks are
/// enabled, it is reset, it is told where the two descriptor tables lie,
/// and it is enabled with all priority levels.
pub open spec fn bring_up_ops(descriptor_base: u32, write_back_base: u32) -> Seq<HardwareOp> {
    seq![
        HardwareOp::SetBits { register: DmacRegister::AhbMask, mask: PM_AHBMASK_DMAC },
        HardwareOp::SetBits { register: DmacRegister::ApbbMask, mask: PM_APBBMASK_DMAC },
        HardwareOp::Write { register: DmacRegister::Ctrl, value: DMAC_CTRL_SWRST },
        HardwareOp::Write { register: DmacRegister::BaseAddr, value: descriptor_base },
        HardwareOp::Write { register: DmacRegister::WrbAddr, value: write_back_base },
        HardwareOp::Write { register: DmacRegister::Ctrl, value: DMAC_CTRL_ENABLE_ALL_LEVELS },
    ]
}

/// What resets channel `channel`: the channel is selected, then disabled
/// and reset.
pub open spec fn channel_reset_ops(channel: u8) -> Seq<HardwareOp> {
    seq![
        HardwareOp::Write { register: DmacRegister::ChId, value: channel as u32 },
        HardwareOp::Write { register: DmacRegister::ChCtrlA, value: DMAC_CHCTRLA_SWRST },
    ]
}

/// What programs channel `channel` with `config`: the channel is selected,
/// its pending software trigger is cleared, and its control word is written.
pub open spec fn set_config_ops(channel: u8, config: DmaResourceConfig) -> Seq<HardwareOp> {
    seq![
        HardwareOp::Write { register: DmacRegister::ChId, value: channel as u32 },
        HardwareOp::ClearBits { register: DmacRegister::SwTrigCtrl, mask: 1u32 << channel },
        HardwareOp::Write { register: DmacRegister::ChCtrlB, value: spec_chctrlb(config) },
    ]
}

/// The accesses that bring the controller up, for tables at the two given
/// addresses.
pub fn dma_bring_up(descriptor_base: u32, write_back_base: u32) -> (ops: Vec<HardwareOp>)
    ensures
        ops@ == bring_up_ops(descriptor_base, write_back_base),
{
    let mut ops: Vec<HardwareOp> = Vec::new();
    ops.push(HardwareOp::SetBits { register: DmacRegister::AhbMask, mask: PM_AHBMASK_DMAC });
    ops.push(HardwareOp::SetBits { register: DmacRegister::ApbbMask, mask: PM_APBBMASK_DMAC });
    ops.push(HardwareOp::Write { register: DmacRegister::Ctrl, value: DMAC_CTRL_SWRST });
    ops.push(HardwareOp::Write { register: DmacRegister::BaseAddr, value: descriptor_base });
    ops.push(HardwareOp::Write { register: DmacRegister::WrbAddr, value: write_back_base });
    ops.push(
        HardwareOp::Write { register: DmacRegister::Ctrl, value: DMAC_CTRL_ENABLE_ALL_LEVELS },
    );
    ops
}

/// The accesses that reset channel `channel`.
pub fn dma_reset_channel(channel: u8) -> (ops: Vec<HardwareOp>)
    ensures
        ops@ == channel_reset_ops(channel),
{
    let mut ops: Vec<HardwareOp> = Vec::new();
    ops.push(HardwareOp::Write { register: DmacRegister::ChId, value: channel as u32 });
    ops.push(HardwareOp::Write { register: DmacRegister::ChCtrlA, value: DMAC_CHCTRLA_SWRST });
    ops
}

/// The accesses that program the channel of `resource` with
/// `resource_config`.  They depend on the channel and the configuration
/// alone, so programming a channel twice writes the same values twice.
///
/// The resource must have a channel.
pub fn _dma_set_config(resource: &DmaResource, resource_config: &DmaResourceConfig) -> (ops: Vec<
    HardwareOp,
>)
    requires
        resource@.channel_id < DMA_MAX_CHANNELS,
    ensures
        ops@ == set_config_ops(resource@.channel_id, *resource_config),
{
    let channel = resource.channel_id();
    let mut ops: Vec<HardwareOp> = Vec::new();
    ops.push(HardwareOp::Write { register: DmacRegister::ChId, value: channel as u32 });
    ops.push(HardwareOp::ClearBits { register: DmacRegister::SwTrigCtrl, mask: 1u32 << channel });
    ops.push(
        HardwareOp::Write { register: DmacRegister::ChCtrlB, value: chctrlb_value(resource_config) },
    );
    ops
}

} // verus!
