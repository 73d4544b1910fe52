//! The values a caller configures a channel and a transfer with, and the
//! bits by which the controller's registers know them.

use vstd::prelude::*;

verus! {

/// Arbitration priority of a channel.
#[derive(Clone, Copy, Debug, PartialEq, Eq, Structural)]
pub enum DmaPriorityLevel {
    Level0,
    Level1,
    Level2,
    Level3,
}

impl DmaPriorityLevel {
    /// The value of the channel's `LVL` field.
    pub open spec fn spec_bits(self) -> u8 {
        match self {
            DmaPriorityLevel::Level0 => 0,
            DmaPriorityLevel::Level1 => 1,
            DmaPriorityLevel::Level2 => 2,
            DmaPriorityLevel::Level3 => 3,
        }
    }

    /// The value of the channel's `LVL` field.
    #[verifier::when_used_as_spec(spec_bits)]
    pub fn bits(self) -> (b: u8)
        ensures
            b == self.spec_bits(),
    {
        match self {
            DmaPriorityLevel::Level0 => 0,
            DmaPriorityLevel::Level1 => 1,
            DmaPriorityLevel::Level2 => 2,
            DmaPriorityLevel::Level3 => 3,
        }
    }
}

/// What an incoming event makes a channel do.
#[derive(Clone, Copy, Debug, PartialEq, Eq, Structural)]
pub enum DmaEventInputAction {
    /// No action.
    NoAct,
    /// Normal transfer and periodic transfer trigger.
    Trig,
    /// Conditional transfer trigger.
    CTrig,
    /// Conditional block transfer.
    CBlock,
    /// Channel suspend operation.
    Suspend,
    /// Channel resume operation.
    Resume,
    /// Skip next block suspend action.
    SSkip,
}

impl DmaEventInputAction {
    /// The value of the channel's `EVACT` field.
    pub open spec fn spec_bits(self) -> u8 {
        match self {
            DmaEventInputAction::NoAct => 0,
            DmaEventInputAction::Trig => 1,
            DmaEventInputAction::CTrig => 2,
            DmaEventInputAction::CBlock => 3,
            DmaEventInputAction::Suspend => 4,
            DmaEventInputAction::Resume => 5,
            DmaEventInputAction::SSkip => 6,
        }
    }

    /// The value of the channel's `EVACT` field.
    #[verifier::when_used_as_spec(spec_bits)]
    pub fn bits(self) -> (b: u8)
        ensures
            b == self.spec_bits(),
    {
        match self {
            DmaEventInputAction::NoAct => 0,
            DmaEventInputAction::Trig => 1,
            DmaEventInputAction::CTrig => 2,
            DmaEventInputAction::CBlock => 3,
            DmaEventInputAction::Suspend => 4,
            DmaEventInputAction::Resume => 5,
            DmaEventInputAction::SSkip => 6,
        }
    }
}

/// By how many beats an address moves after each beat.  It applies to the
/// source or to the destination address, as `DmaStepSelection` says.
#[derive(Clone, Copy, Debug, PartialEq, Eq, Structural)]
pub enum DmaAddressIncrementStepSize {
    /// The address is incremented by (beat size * 1).
    StepSize1,
    /// The address is incremented by (beat size * 2).
    StepSize2,
    /// The address is incremented by (beat size * 4).
    StepSize4,
    /// The address is incremented by (beat size * 8).
    StepSize8,
    /// The address is incremented by (beat size * 16).
    StepSize16,
    /// The address is incremented by (beat size * 32).
    StepSize32,
    /// The address is incremented by (beat size * 64).
    StepSize64,
    /// The address is incremented by (beat size * 128).
    StepSize128,
}

impl DmaAddressIncrementStepSize {
    /// The value of the descriptor's `STEPSIZE` field.
    pub open spec fn spec_bits(self) -> u8 {
        match self {
            DmaAddressIncrementStepSize::StepSize1 => 0,
            DmaAddressIncrementStepSize::StepSize2 => 1,
            DmaAddressIncrementStepSize::StepSize4 => 2,
            DmaAddressIncrementStepSize::StepSize8 => 3,
            DmaAddressIncrementStepSize::StepSize16 => 4,
            DmaAddressIncrementStepSize::StepSize32 => 5,
            DmaAddressIncrementStepSize::StepSize64 => 6,
            DmaAddressIncrementStepSize::StepSize128 => 7,
        }
    }

    /// The value of the descriptor's `STEPSIZE` field.
    #[verifier::when_used_as_spec(spec_bits)]
    pub fn bits(self) -> (b: u8)
        ensures
            b == self.spec_bits(),
    {
        match self {
            DmaAddressIncrementStepSize::StepSize1 => 0,
            DmaAddressIncrementStepSize::StepSize2 => 1,
            DmaAddressIncrementStepSize::StepSize4 => 2,
            DmaAddressIncrementStepSize::StepSize8 => 3,
            DmaAddressIncrementStepSize::StepSize16 => 4,
            DmaAddressIncrementStepSize::StepSize32 => 5,
            DmaAddressIncrementStepSize::StepSize64 => 6,
            DmaAddressIncrementStepSize::StepSize128 => 7,
        }
    }
}

/// Which address the step size applies to.
#[derive(Clone, Copy, Debug, PartialEq, Eq, Structural)]
pub enum DmaStepSelection {
    /// Step size settings apply to the destination address.
    Dst,
    /// Step size settings apply to the source address.
    Src,
}

impl DmaStepSelection {
    /// The value of the descriptor's `STEPSEL` bit.
    pub open spec fn spec_bits(self) -> u8 {
        match self {
            DmaStepSelection::Dst => 0,
            DmaStepSelection::Src => 1,
        }
    }

    /// The value of the descriptor's `STEPSEL` bit.
    #[verifier::when_used_as_spec(spec_bits)]
    pub fn bits(self) -> (b: u8)
        ensures
            b == self.spec_bits(),
    {
        match self {
            DmaStepSelection::Dst => 0,
            DmaStepSelection::Src => 1,
        }
    }
}

/// The size of a beat, the single bus access that every transfer is made
/// of.  It applies to both the read and the write.
#[derive(Clone, Copy, Debug, PartialEq, Eq, Structural)]
pub enum DmaBeatSize {
    /// 8-bit access
    Byte,
    /// 16-bit access
    Hword,
    /// 32-bit access
    Word,
}

impl DmaBeatSize {
    /// The value of the descriptor's `BEATSIZE` field.
    pub open spec fn spec_bits(self) -> u8 {
        match self {
            DmaBeatSize::Byte => 0,
            DmaBeatSize::Hword => 1,
            DmaBeatSize::Word => 2,
        }
    }

    /// The value of the descriptor's `BEATSIZE` field.
    #[verifier::when_used_as_spec(spec_bits)]
    pub fn bits(self) -> (b: u8)
        ensures
            b == self.spec_bits(),
    {
        match self {
            DmaBeatSize::Byte => 0,
            DmaBeatSize::Hword => 1,
            DmaBeatSize::Word => 2,
        }
    }
}

/// What the controller does when a block transfer has completed.
#[derive(Clone, Copy, Debug, PartialEq, Eq, Structural)]
pub enum DmaBlockAction {
    /// No action
    NoAct,
    /// Channel in normal operation and sets transfer complete interrupt flag
    /// after block transfer.
    Int,
    /// Trigger channel suspend after block transfer and sets channel
    /// suspend interrupt flag once the channel is suspended
    Suspend,
    /// Sets transfer complete interrupt flag after a block transfer and
    /// trigger channel suspend. The channel suspend interrupt flag will be set
    /// once the channel is suspended.
    Both,
}

impl DmaBlockAction {
    /// The value of the descriptor's `BLOCKACT` field.
    pub open spec fn spec_bits(self) -> u8 {
        match self {
            DmaBlockAction::NoAct => 0,
            DmaBlockAction::Int => 1,
            DmaBlockAction::Suspend => 2,
            DmaBlockAction::Both => 3,
        }
    }

    /// The value of the descriptor's `BLOCKACT` field.
    #[verifier::when_used_as_spec(spec_bits)]
    pub fn bits(self) -> (b: u8)
        ensures
            b == self.spec_bits(),
    {
        match self {
            DmaBlockAction::NoAct => 0,
            DmaBlockAction::Int => 1,
            DmaBlockAction::Suspend => 2,
            DmaBlockAction::Both => 3,
        }
    }
}

/// Which event a descriptor generates.
#[derive(Clone, Copy, Debug, PartialEq, Eq, Structural)]
pub enum DmaEventOutputSelection {
    /// Event generation disable.
    Disable,
    /// Event strobe when block transfer complete.
    Block,
    /// Event output reserved.
    Reserved,
    /// Event strobe when beat transfer complete.
    Beat,
}

impl DmaEventOutputSelection {
    /// The value of the descriptor's `EVOSEL` field.
    pub open spec fn spec_bits(self) -> u8 {
        match self {
            DmaEventOutputSelection::Disable => 0,
            DmaEventOutputSelection::Block => 1,
            DmaEventOutputSelection::Reserved => 2,
            DmaEventOutputSelection::Beat => 3,
        }
    }

    /// The value of the descriptor's `EVOSEL` field.
    #[verifier::when_used_as_spec(spec_bits)]
    pub fn bits(self) -> (b: u8)
        ensures
            b == self.spec_bits(),
    {
        match self {
            DmaEventOutputSelection::Disable => 0,
            DmaEventOutputSelection::Block => 1,
            DmaEventOutputSelection::Reserved => 2,
            DmaEventOutputSelection::Beat => 3,
        }
    }
}

/// How much of a transfer one trigger sets off.
#[derive(Clone, Copy, Debug, PartialEq, Eq, Structural)]
pub enum DmaTransferTriggerAction {
    /// Perform a block transfer when triggered.
    Block,
    /// Perform a beat transfer when triggered.
    Beat,
    /// Perform a transaction when triggered.
    Transaction,
}

impl DmaTransferTriggerAction {
    /// The value of the channel's `TRIGACT` field.  The controller gives no
    /// meaning to the value 1.
    pub open spec fn spec_bits(self) -> u8 {
        match self {
            DmaTransferTriggerAction::Block => 0,
            DmaTransferTriggerAction::Beat => 2,
            DmaTransferTriggerAction::Transaction => 3,
        }
    }

    /// The value of the channel's `TRIGACT` field.
    #[verifier::when_used_as_spec(spec_bits)]
    pub fn bits(self) -> (b: u8)
        ensures
            b == self.spec_bits(),
    {
        match self {
            DmaTransferTriggerAction::Block => 0,
            DmaTransferTriggerAction::Beat => 2,
            DmaTransferTriggerAction::Transaction => 3,
        }
    }
}

/// The kinds of event that a resource can have a callback for.
#[derive(Clone, Copy, Debug, PartialEq, Eq, Structural)]
pub enum DmaCallbackType {
    /// Callback for any of transfer errors.
    /// A transfer error is flagged if a bus error is detected during an AHB access
    /// or when the DMAC fetches an invalid descriptor.
    Error,
    /// Callback for transfer complete.
    Done,
    /// Callback for channel suspend.
    Suspend,
    /// Number of available callbacks.
    N,
}

impl DmaCallbackType {
    /// The callback slot of this kind: its index in a resource's callbacks
    /// and the number of its bit in the callback-enable mask.  `N` is no
    /// slot but their count.
    pub open spec fn spec_index(self) -> u8 {
        match self {
            DmaCallbackType::Error => 0,
            DmaCallbackType::Done => 1,
            DmaCallbackType::Suspend => 2,
            DmaCallbackType::N => 3,
        }
    }

    /// The callback slot of this kind.
    #[verifier::when_used_as_spec(spec_index)]
    pub fn index(self) -> (i: u8)
        ensures
            i == self.spec_index(),
    {
        match self {
            DmaCallbackType::Error => 0,
            DmaCallbackType::Done => 1,
            DmaCallbackType::Suspend => 2,
            DmaCallbackType::N => 3,
        }
    }
}

/// What describes one transfer descriptor.  Where an address increments,
/// the address given here is the one at the end of the transfer.
#[derive(Clone, Copy, Debug, PartialEq, Eq, Structural)]
pub struct DmaDescriptorConfig {
    pub descriptor_valid: bool,
    pub event_output_selection: DmaEventOutputSelection,
    pub block_action: DmaBlockAction,
    pub beat_size: DmaBeatSize,
    pub src_increment_enable: bool,
    pub dst_increment_enable: bool,
    pub step_selection: DmaStepSelection,
    pub step_size: DmaAddressIncrementStepSize,
    pub block_transfer_count: u16,
    pub source_address: u32,
    pub destination_address: u32,
    pub next_descriptor_address: u32,
}

/// How a channel takes part in the event system.
#[derive(Clone, Copy, Debug, PartialEq, Eq, Structural)]
pub struct DmaEventsConfig {
    pub input_action: DmaEventInputAction,
    pub event_output_enable: bool,
}

/// What a channel is configured with when it is allocated.
#[derive(Clone, Copy, Debug, PartialEq, Eq, Structural)]
pub struct DmaResourceConfig {
    pub priority: DmaPriorityLevel,
    pub peripheral_trigger: u8,
    pub trigger_action: DmaTransferTriggerAction,
    pub event_config: DmaEventsConfig,
}

/// The configuration of a channel that nothing in hardware triggers: lowest
/// priority, software trigger, a whole transaction per trigger, no events.
pub fn dma_get_config_defaults() -> (config: DmaResourceConfig)
    ensures
        config == (DmaResourceConfig {
            priority: DmaPriorityLevel::Level0,
            peripheral_trigger: 0,
            trigger_action: DmaTransferTriggerAction::Transaction,
            event_config: DmaEventsConfig {
                input_action: DmaEventInputAction::NoAct,
                event_output_enable: false,
            },
        }),
{
    let event_config = DmaEventsConfig {
        input_action: DmaEventInputAction::NoAct,
        event_output_enable: false,
    };
    DmaResourceConfig {
        priority: DmaPriorityLevel::Level0,
        peripheral_trigger: 0,
        trigger_action: DmaTransferTriggerAction::Transaction,
        event_config,
    }
}

} // verus!
