//! The register accesses that the driver asks its caller to perform, and
//! the values that go into the registers.

use vstd::prelude::*;
use crate::dma::config::DmaResourceConfig;
use crate::dma::descriptor::DmacDescriptor;

verus! {

/// `DMAC` bit of the power manager's AHB clock mask.
pub const PM_AHBMASK_DMAC: u32 = 0x0000_0020;

/// `DMAC` bit of the power manager's APBB clock mask.
pub const PM_APBBMASK_DMAC: u32 = 0x0000_0010;

/// Software reset bit of the control register.
pub const DMAC_CTRL_SWRST: u32 = 0x0001;

/// Value of the control register that enables the controller and all four
/// priority levels.
pub const DMAC_CTRL_ENABLE_ALL_LEVELS: u32 = 0x0f02;

/// Software reset bit of the channel control A register.
pub const DMAC_CHCTRLA_SWRST: u32 = 0x01;

/// Enable bit of the channel control A register.
pub const DMAC_CHCTRLA_ENABLE: u32 = 0x02;

/// Transfer error flag of a channel.
pub const DMAC_CHINTFLAG_TERR: u8 = 0x01;

/// Transfer complete flag of a channel.
pub const DMAC_CHINTFLAG_TCMPL: u8 = 0x02;

/// Channel suspend flag of a channel.
pub const DMAC_CHINTFLAG_SUSP: u8 = 0x04;

/// Event input enable bit of the channel control B register.
pub const DMAC_CHCTRLB_EVIE: u32 = 0x0000_0008;

/// Event output enable bit of the channel control B register.
pub const DMAC_CHCTRLB_EVOE: u32 = 0x0000_0010;

/// The registers that the driver has written.
#[derive(Clone, Copy, Debug, PartialEq, Eq, Structural)]
pub enum DmacRegister {
    /// AHB clock mask of the power manager.
    AhbMask,
    /// APBB clock mask of the power manager.
    ApbbMask,
    /// Control.
    Ctrl,
    /// Software trigger control: one bit per channel.
    SwTrigCtrl,
    /// Base address of the primary descriptor table.
    BaseAddr,
    /// Base address of the write-back table.
    WrbAddr,
    /// Channel id: selects the channel that the channel registers speak of.
    ChId,
    /// Channel control A, of the selected channel.
    ChCtrlA,
    /// Channel control B, of the selected channel.
    ChCtrlB,
    /// Interrupt flags of the selected channel; writing a one clears a flag.
    ChIntFlag,
}

/// One access to the hardware, for the caller to perform.
#[derive(Clone, Copy, Debug, PartialEq, Eq, Structural)]
pub enum HardwareOp {
    /// Write `value` to `register`.
    Write { register: DmacRegister, value: u32 },
    /// Set the bits of `mask` in `register` and leave its other bits.
    SetBits { register: DmacRegister, mask: u32 },
    /// Clear the bits of `mask` in `register` and leave its other bits.
    ClearBits { register: DmacRegister, mask: u32 },
    /// Copy `descriptor` into `channel`'s entry of the primary descriptor
    /// table.
    StoreDescriptor { channel: u8, descriptor: DmacDescriptor },
}

/// The fields of a channel control B word.  Together they cover all of its
/// bits.
pub struct ChCtrlBView {
    /// Bits 0 to 2: event input action.
    pub evact: u32,
    /// Bit 3: event input enable.
    pub evie: bool,
    /// Bit 4: event output enable.
    pub evoe: bool,
    /// Bits 5 and 6: arbitration level.
    pub lvl: u32,
    /// Bits 8 to 13: trigger source.
    pub trigsrc: u32,
    /// Bits 22 and 23: trigger action.
    pub trigact: u32,
    /// Bits 24 and 25: software command.
    pub cmd: u32,
    /// The bits that the controller gives no meaning, each in its place.
    pub reserved: u32,
}

/// The fields of the channel control B word `value`.
pub open spec fn chctrlb_fields(value: u32) -> ChCtrlBView {
    ChCtrlBView {
        evact: value & 7,
        evie: (value >> 3) & 1 == 1,
        evoe: (value >> 4) & 1 == 1,
        lvl: (value >> 5) & 3,
        trigsrc: (value >> 8) & 0x3f,
        trigact: (value >> 22) & 3,
        cmd: (value >> 24) & 3,
        reserved: value & 0xfc3f_c080,
    }
}

/// The fields that `config` asks for: priority, trigger source and trigger
/// action as given; the event input enabled, with its action, exactly where
/// the action is not "no action"; the event output enabled where asked; no
/// software command.  The trigger source has six bits.
pub open spec fn chctrlb_fields_of(config: DmaResourceConfig) -> ChCtrlBView {
    ChCtrlBView {
        evact: config.event_config.input_action.spec_bits() as u32,
        evie: config.event_config.input_action.spec_bits() != 0,
        evoe: config.event_config.event_output_enable,
        lvl: config.priority.spec_bits() as u32,
        trigsrc: (config.peripheral_trigger & 0x3f) as u32,
        trigact: config.trigger_action.spec_bits() as u32,
        cmd: 0,
        reserved: 0,
    }
}

/// The channel control B word for `config`.
pub open spec fn spec_chctrlb(config: DmaResourceConfig) -> u32 {
    let evact = config.event_config.input_action.spec_bits() as u32;
    let evie = if evact != 0 {
        DMAC_CHCTRLB_EVIE
    } else {
        0
    };
    let evoe = if config.event_config.event_output_enable {
        DMAC_CHCTRLB_EVOE
    } else {
        0
    };
    let lvl = config.priority.spec_bits() as u32;
    let trigsrc = (config.peripheral_trigger & 0x3f) as u32;
    let trigact = config.trigger_action.spec_bits() as u32;
    evact | evie | evoe | (lvl << 5) | (trigsrc << 8) | (trigact << 22)
}

/// The channel control B word for `config` has the fields that `config`
/// asks for, and it is the only word that has them.
pub proof fn lemma_chctrlb_fields(config: DmaResourceConfig)
    ensures
        chctrlb_fields(spec_chctrlb(config)) == chctrlb_fields_of(config),
        forall|value: u32|
            chctrlb_fields(value) == chctrlb_fields_of(config) ==> value == spec_chctrlb(config),
{
    let evact = config.event_config.input_action.spec_bits() as u32;
    let evie: u32 = if evact != 0 {
        DMAC_CHCTRLB_EVIE
    } else {
        0
    };
    let evoe_on = config.event_config.event_output_enable;
    let evoe: u32 = if evoe_on {
        DMAC_CHCTRLB_EVOE
    } else {
        0
    };
    let lvl = config.priority.spec_bits() as u32;
    let trigsrc = (config.peripheral_trigger & 0x3f) as u32;
    let trigact = config.trigger_action.spec_bits() as u32;
    let t = config.peripheral_trigger;
    assert((t & 0x3f) < 0x40) by (bit_vector);
    let word = evact | evie | evoe | (lvl << 5) | (trigsrc << 8) | (trigact << 22);
    assert({
        &&& word & 7 == evact
        &&& ((word >> 3) & 1 == 1) == (evact != 0)
        &&& ((word >> 4) & 1 == 1) == evoe_on
        &&& (word >> 5) & 3 == lvl
        &&& (word >> 8) & 0x3f == trigsrc
        &&& (word >> 22) & 3 == trigact
        &&& (word >> 24) & 3 == 0
        &&& word & 0xfc3f_c080 == 0
    }) by (bit_vector)
        requires
            word == evact | evie | evoe | (lvl << 5) | (trigsrc << 8) | (trigact << 22),
            evact < 8,
            lvl < 4,
            trigsrc < 0x40,
            trigact < 4,
            evie == (if evact != 0 {
                0x08u32
            } else {
                0u32
            }),
            evoe == (if evoe_on {
                0x10u32
            } else {
                0u32
            }),
    ;
    assert forall|value: u32| chctrlb_fields(value) == chctrlb_fields_of(config) implies value
        == spec_chctrlb(config) by {
        assert(value == word) by (bit_vector)
            requires
                value & 7 == word & 7,
                ((value >> 3) & 1 == 1) == ((word >> 3) & 1 == 1),
                ((value >> 4) & 1 == 1) == ((word >> 4) & 1 == 1),
                (value >> 5) & 3 == (word >> 5) & 3,
                (value >> 8) & 0x3f == (word >> 8) & 0x3f,
                (value >> 22) & 3 == (word >> 22) & 3,
                (value >> 24) & 3 == (word >> 24) & 3,
                value & 0xfc3f_c080 == word & 0xfc3f_c080,
        ;
    }
}

/// The channel control B word for `config`.
pub fn chctrlb_value(config: &DmaResourceConfig) -> (value: u32)
    ensures
        value == spec_chctrlb(*config),
        chctrlb_fields(value) == chctrlb_fields_of(*config),
{
    let evact = config.event_config.input_action.bits() as u32;
    let evie = if evact != 0 {
        DMAC_CHCTRLB_EVIE
    } else {
        0
    };
    let evoe = if config.event_config.event_output_enable {
        DMAC_CHCTRLB_EVOE
    } else {
        0
    };
    let lvl = config.priority.bits() as u32;
    let trigsrc = (config.peripheral_trigger & 0x3f) as u32;
    let trigact = config.trigger_action.bits() as u32;
    proof {
        lemma_chctrlb_fields(*config);
    }
    evact | evie | evoe | (lvl << 5) | (trigsrc << 8) | (trigact << 22)
}

} // verus!
