//! Pins and their modes.
//!
//! A pin carries its mode in its type, so that a pin can only be used in the
//! ways its mode allows.  Changing the mode of a pin consumes it and gives
//! the pin in its new mode; the register accesses that make the change are
//! collected in the pin's `Group`, from which the caller takes and performs
//! them.

use vstd::prelude::*;
use core::marker::PhantomData;

verus! {

/// The number of pins of a group.
pub const PINS_PER_GROUP: u8 = 32;

/// Peripheral multiplexer enable bit of a pin's configuration.
pub const PINCFG_PMUXEN: u8 = 0x01;

/// Input enable bit of a pin's configuration.
pub const PINCFG_INEN: u8 = 0x02;

/// Pull enable bit of a pin's configuration.
pub const PINCFG_PULLEN: u8 = 0x04;

/// Allows splitting the port hardware into its constituent pin parts.
pub trait GpioExt {
    type Parts;
}

/// Represents a pin configured for input.
/// The MODE type is typically one of `Floating`, `PullDown` or
/// `PullUp`.
pub struct Input<MODE> {
    _mode: PhantomData<MODE>,
}

/// Represents a pin configured for output.
/// The MODE type is typically one of `PushPull`, or
/// `OpenDrain`.
pub struct Output<MODE> {
    _mode: PhantomData<MODE>,
}

/// Floating Input
pub struct Floating;

/// Pulled down Input
pub struct PullDown;

/// Pulled up Input
pub struct PullUp;

/// Totem Pole aka Push-Pull
pub struct PushPull;

/// Open drain output
pub struct OpenDrain;

/// Open drain output, which can be read when not driven
pub struct ReadableOpenDrain;

/// Peripheral Function A
pub struct PfA;

/// Peripheral Function B
pub struct PfB;

/// Peripheral Function C
pub struct PfC;

/// Peripheral Function D
pub struct PfD;

/// Peripheral Function E
pub struct PfE;

/// Peripheral Function F
pub struct PfF;

/// Peripheral Function G
pub struct PfG;

/// Peripheral Function H
pub struct PfH;

/// Peripheral Function I
pub struct PfI;

/// Peripheral Function J
pub struct PfJ;

/// Peripheral Function K
pub struct PfK;

/// Peripheral Function L
pub struct PfL;

/// Peripheral Function M
pub struct PfM;

/// Peripheral Function N
pub struct PfN;

/// The registers of a group that take a mask of pins.
#[derive(Clone, Copy, Debug, PartialEq, Eq, Structural)]
pub enum GroupRegister {
    /// Makes the pins of the mask inputs.
    DirClr,
    /// Makes the pins of the mask outputs.
    DirSet,
    /// Drives the pins of the mask low.
    OutClr,
    /// Drives the pins of the mask high.
    OutSet,
    /// Inverts the level of the pins of the mask.
    OutTgl,
}

/// One access to the registers of a group, for the caller to perform.
#[derive(Clone, Copy, Debug, PartialEq, Eq, Structural)]
pub enum GroupOp {
    /// Write `mask` to `register`.
    Write { register: GroupRegister, mask: u32 },
    /// Write `value` to the configuration of pin `pin`.
    WritePinCfg { pin: u8, value: u8 },
    /// Set the bits of `set` in the configuration of pin `pin` and leave its
    /// other bits.
    SetPinCfg { pin: u8, set: u8 },
    /// In multiplexer register `index`, which serves two pins, clear the
    /// bits of `clear`, then set those of `set`, and leave the other bits.
    ModifyPmux { index: u8, clear: u8, set: u8 },
}

/// A group of pins: the accesses to its registers that are yet to be
/// performed, oldest first.
pub struct Group {
    ops: Vec<GroupOp>,
}

impl View for Group {
    type V = Seq<GroupOp>;

    closed spec fn view(&self) -> Seq<GroupOp> {
        self.ops@
    }
}

impl Group {
    /// A group with nothing to perform.
    pub fn new() -> (group: Group)
        ensures
            group@ == Seq::<GroupOp>::empty(),
    {
        Group { ops: Vec::new() }
    }

    /// Hands out the accesses that are to be performed, oldest first, and
    /// leaves none.
    pub fn take_ops(&mut self) -> (ops: Vec<GroupOp>)
        ensures
            ops@ == old(self)@,
            final(self)@ == Seq::<GroupOp>::empty(),
    {
        let mut ops: Vec<GroupOp> = Vec::new();
        ops.append(&mut self.ops);
        ops
    }

    fn push(&mut self, op: GroupOp)
        ensures
            final(self)@ == old(self)@.push(op),
    {
        self.ops.push(op);
    }
}

/// The port: its groups of pins.
pub struct Port {
    group0: Group,
    group1: Group,
}

impl Port {
    /// What is to be performed on the first group.
    pub closed spec fn spec_group0(&self) -> Seq<GroupOp> {
        self.group0@
    }

    /// What is to be performed on the second group.
    pub closed spec fn spec_group1(&self) -> Seq<GroupOp> {
        self.group1@
    }

    /// A port with nothing to perform on either group.
    pub fn new() -> (port: Port)
        ensures
            port.spec_group0() == Seq::<GroupOp>::empty(),
            port.spec_group1() == Seq::<GroupOp>::empty(),
    {
        Port { group0: Group::new(), group1: Group::new() }
    }

    /// The first group, pins `PA00` to `PA31`.
    pub fn group0(&mut self) -> (group: &mut Group)
        ensures
            group@ == old(self).spec_group0(),
            final(self).spec_group0() == final(group)@,
            final(self).spec_group1() == old(self).spec_group1(),
    {
        &mut self.group0
    }

    /// The second group, pins `PB00` to `PB31`.
    pub fn group1(&mut self) -> (group: &mut Group)
        ensures
            group@ == old(self).spec_group1(),
            final(self).spec_group1() == final(group)@,
            final(self).spec_group0() == old(self).spec_group0(),
    {
        &mut self.group1
    }
}

/// The mask that stands for pin `pin_no` alone.
pub open spec fn pin_mask(pin_no: u8) -> u32 {
    1u32 << pin_no
}

/// The accesses that route pin `pin_no` to the peripheral function of
/// number `variant`.  A multiplexer register serves two pins: the even one
/// in its low four bits, the odd one in its high four.
pub open spec fn function_ops(pin_no: u8, variant: u8) -> Seq<GroupOp> {
    seq![
        if pin_no % 2 == 1 {
            GroupOp::ModifyPmux { index: pin_no / 2, clear: 0xf0, set: (variant * 16) as u8 }
        } else {
            GroupOp::ModifyPmux { index: pin_no / 2, clear: 0x0f, set: variant }
        },
        GroupOp::SetPinCfg { pin: pin_no, set: PINCFG_PMUXEN },
    ]
}

/// The accesses that make pin `pin_no` an input whose configuration is
/// `config`.
pub open spec fn input_ops(pin_no: u8, config: u8) -> Seq<GroupOp> {
    seq![
        GroupOp::Write { register: GroupRegister::DirClr, mask: pin_mask(pin_no) },
        GroupOp::WritePinCfg { pin: pin_no, value: config },
    ]
}

/// The accesses that make pin `pin_no` an output whose configuration is
/// `config`.
pub open spec fn output_ops(pin_no: u8, config: u8) -> Seq<GroupOp> {
    seq![
        GroupOp::Write { register: GroupRegister::DirSet, mask: pin_mask(pin_no) },
        GroupOp::WritePinCfg { pin: pin_no, value: config },
    ]
}

/// A peripheral function that a pin can be routed to.
pub trait PeripheralFunction: Sized {
    /// The number by which the multiplexer knows the function.
    spec fn spec_variant() -> u8;

    /// The number by which the multiplexer knows the function.
    fn variant() -> (variant: u8)
        ensures
            variant == Self::spec_variant(),
            variant < 16,
    ;
}

impl PeripheralFunction for PfA {
    open spec fn spec_variant() -> u8 {
        1
    }

    fn variant() -> (variant: u8) {
        1
    }
}

impl PeripheralFunction for PfB {
    open spec fn spec_variant() -> u8 {
        2
    }

    fn variant() -> (variant: u8) {
        2
    }
}

impl PeripheralFunction for PfC {
    open spec fn spec_variant() -> u8 {
        3
    }

    fn variant() -> (variant: u8) {
        3
    }
}

impl PeripheralFunction for PfD {
    open spec fn spec_variant() -> u8 {
        4
    }

    fn variant() -> (variant: u8) {
        4
    }
}

impl PeripheralFunction for PfE {
    open spec fn spec_variant() -> u8 {
        5
    }

    fn variant() -> (variant: u8) {
        5
    }
}

impl PeripheralFunction for PfF {
    open spec fn spec_variant() -> u8 {
        6
    }

    fn variant() -> (variant: u8) {
        6
    }
}

impl PeripheralFunction for PfG {
    open spec fn spec_variant() -> u8 {
        7
    }

    fn variant() -> (variant: u8) {
        7
    }
}

impl PeripheralFunction for PfH {
    open spec fn spec_variant() -> u8 {
        8
    }

    fn variant() -> (variant: u8) {
        8
    }
}

impl PeripheralFunction for PfI {
    open spec fn spec_variant() -> u8 {
        9
    }

    fn variant() -> (variant: u8) {
        9
    }
}

impl PeripheralFunction for PfJ {
    open spec fn spec_variant() -> u8 {
        10
    }

    fn variant() -> (variant: u8) {
        10
    }
}

impl PeripheralFunction for PfK {
    open spec fn spec_variant() -> u8 {
        11
    }

    fn variant() -> (variant: u8) {
        11
    }
}

impl PeripheralFunction for PfL {
    open spec fn spec_variant() -> u8 {
        12
    }

    fn variant() -> (variant: u8) {
        12
    }
}

impl PeripheralFunction for PfM {
    open spec fn spec_variant() -> u8 {
        13
    }

    fn variant() -> (variant: u8) {
        13
    }
}

impl PeripheralFunction for PfN {
    open spec fn spec_variant() -> u8 {
        14
    }

    fn variant() -> (variant: u8) {
        14
    }
}

/// A trait that makes it easier to generically manage
/// converting a pin from its current state into some
/// other functional mode.  The configuration change
/// requires exclusive access to the group,
/// which is why this isn't simply the standard `Into`
/// trait.
pub trait IntoFunction<T> {
    /// Consume the pin and configure it to operate in
    /// the mode T.
    fn into_function(self, portgroup: &mut Group) -> T;
}

/// Converts a pin into a pad of a serial communication interface.
pub trait PadPin<T> {
    fn into_pad(self, portgroup: &mut Group) -> T;
}

/// A pin of a group, in the mode `MODE`.
pub struct Pin<MODE> {
    pin_no: u8,
    _mode: PhantomData<MODE>,
}

impl<MODE> Pin<MODE> {
    #[verifier::type_invariant]
    spec fn in_group(self) -> bool {
        self.pin_no < PINS_PER_GROUP
    }

    /// The number of the pin in its group.
    pub closed spec fn spec_pin_no(self) -> u8 {
        self.pin_no
    }

    /// The number of the pin in its group.
    pub fn pin_no(&self) -> (pin_no: u8)
        ensures
            pin_no == self.spec_pin_no(),
            pin_no < PINS_PER_GROUP,
    {
        proof {
            use_type_invariant(self);
        }
        self.pin_no
    }

    fn retype<NEW>(self) -> (pin: Pin<NEW>)
        ensures
            pin.spec_pin_no() == self.spec_pin_no(),
    {
        proof {
            use_type_invariant(&self);
        }
        Pin { pin_no: self.pin_no, _mode: PhantomData }
    }

    /// Configures the pin to operate with the peripheral function `F`.
    pub fn into_peripheral<F: PeripheralFunction>(self, portgroup: &mut Group) -> (pin: Pin<F>)
        ensures
            pin.spec_pin_no() == self.spec_pin_no(),
            final(portgroup)@ == old(portgroup)@ + function_ops(
                self.spec_pin_no(),
                F::spec_variant(),
            ),
    {
        let pin_no = self.pin_no();
        let variant = F::variant();
        if pin_no % 2 == 1 {
            portgroup.push(GroupOp::ModifyPmux { index: pin_no / 2, clear: 0xf0, set: variant * 16 });
        } else {
            portgroup.push(GroupOp::ModifyPmux { index: pin_no / 2, clear: 0x0f, set: variant });
        }
        portgroup.push(GroupOp::SetPinCfg { pin: pin_no, set: PINCFG_PMUXEN });
        assert(portgroup@ =~= old(portgroup)@ + function_ops(pin_no, F::spec_variant()));
        self.retype()
    }

    /// Configures the pin to operate as a floating input
    pub fn into_floating_input(self, portgroup: &mut Group) -> (pin: Pin<Input<Floating>>)
        ensures
            pin.spec_pin_no() == self.spec_pin_no(),
            final(portgroup)@ == old(portgroup)@ + input_ops(self.spec_pin_no(), PINCFG_INEN),
    {
        let pin_no = self.pin_no();
        portgroup.push(GroupOp::Write { register: GroupRegister::DirClr, mask: 1u32 << pin_no });
        portgroup.push(GroupOp::WritePinCfg { pin: pin_no, value: PINCFG_INEN });
        assert(portgroup@ =~= old(portgroup)@ + input_ops(pin_no, PINCFG_INEN));
        self.retype()
    }

    /// Configures the pin to operate as a pulled down input pin
    pub fn into_pull_down_input(self, portgroup: &mut Group) -> (pin: Pin<Input<PullDown>>)
        ensures
            pin.spec_pin_no() == self.spec_pin_no(),
            final(portgroup)@ == old(portgroup)@ + input_ops(
                self.spec_pin_no(),
                PINCFG_INEN | PINCFG_PULLEN,
            ) + seq![
                GroupOp::Write {
                    register: GroupRegister::OutClr,
                    mask: pin_mask(self.spec_pin_no()),
                },
            ],
    {
        let pin_no = self.pin_no();
        portgroup.push(GroupOp::Write { register: GroupRegister::DirClr, mask: 1u32 << pin_no });
        portgroup.push(GroupOp::WritePinCfg { pin: pin_no, value: PINCFG_INEN | PINCFG_PULLEN });
        portgroup.push(GroupOp::Write { register: GroupRegister::OutClr, mask: 1u32 << pin_no });
        assert(portgroup@ =~= old(portgroup)@ + input_ops(pin_no, PINCFG_INEN | PINCFG_PULLEN)
            + seq![GroupOp::Write { register: GroupRegister::OutClr, mask: pin_mask(pin_no) }]);
        self.retype()
    }

    /// Configures the pin to operate as a pulled up input pin
    pub fn into_pull_up_input(self, portgroup: &mut Group) -> (pin: Pin<Input<PullUp>>)
        ensures
            pin.spec_pin_no() == self.spec_pin_no(),
            final(portgroup)@ == old(portgroup)@ + input_ops(
                self.spec_pin_no(),
                PINCFG_INEN | PINCFG_PULLEN,
            ) + seq![
                GroupOp::Write {
                    register: GroupRegister::OutSet,
                    mask: pin_mask(self.spec_pin_no()),
                },
            ],
    {
        let pin_no = self.pin_no();
        portgroup.push(GroupOp::Write { register: GroupRegister::DirClr, mask: 1u32 << pin_no });
        portgroup.push(GroupOp::WritePinCfg { pin: pin_no, value: PINCFG_INEN | PINCFG_PULLEN });
        portgroup.push(GroupOp::Write { register: GroupRegister::OutSet, mask: 1u32 << pin_no });
        assert(portgroup@ =~= old(portgroup)@ + input_ops(pin_no, PINCFG_INEN | PINCFG_PULLEN)
            + seq![GroupOp::Write { register: GroupRegister::OutSet, mask: pin_mask(pin_no) }]);
        self.retype()
    }

    /// Configures the pin to operate as an open drain output
    pub fn into_open_drain_output(self, portgroup: &mut Group) -> (pin: Pin<Output<OpenDrain>>)
        ensures
            pin.spec_pin_no() == self.spec_pin_no(),
            final(portgroup)@ == old(portgroup)@ + output_ops(self.spec_pin_no(), 0),
    {
        let pin_no = self.pin_no();
        portgroup.push(GroupOp::Write { register: GroupRegister::DirSet, mask: 1u32 << pin_no });
        portgroup.push(GroupOp::WritePinCfg { pin: pin_no, value: 0 });
        assert(portgroup@ =~= old(portgroup)@ + output_ops(pin_no, 0));
        self.retype()
    }

    /// Configures the pin to operate as an open drain output which can be read
    pub fn into_readable_open_drain_output(self, portgroup: &mut Group) -> (pin: Pin<
        Output<ReadableOpenDrain>,
    >)
        ensures
            pin.spec_pin_no() == self.spec_pin_no(),
            final(portgroup)@ == old(portgroup)@ + output_ops(self.spec_pin_no(), PINCFG_INEN),
    {
        let pin_no = self.pin_no();
        portgroup.push(GroupOp::Write { register: GroupRegister::DirSet, mask: 1u32 << pin_no });
        portgroup.push(GroupOp::WritePinCfg { pin: pin_no, value: PINCFG_INEN });
        assert(portgroup@ =~= old(portgroup)@ + output_ops(pin_no, PINCFG_INEN));
        self.retype()
    }

    /// Configures the pin to operate as a push-pull output
    pub fn into_push_pull_output(self, portgroup: &mut Group) -> (pin: Pin<Output<PushPull>>)
        ensures
            pin.spec_pin_no() == self.spec_pin_no(),
            final(portgroup)@ == old(portgroup)@ + output_ops(self.spec_pin_no(), PINCFG_INEN),
    {
        let pin_no = self.pin_no();
        portgroup.push(GroupOp::Write { register: GroupRegister::DirSet, mask: 1u32 << pin_no });
        portgroup.push(GroupOp::WritePinCfg { pin: pin_no, value: PINCFG_INEN });
        assert(portgroup@ =~= old(portgroup)@ + output_ops(pin_no, PINCFG_INEN));
        self.retype()
    }
}

impl Pin<Input<Floating>> {
    /// Pin number `pin_no` of a group, in the mode that pins have after
    /// reset.  A group has no pin of number 32 or above.
    pub fn new(pin_no: u8) -> (pin: Option<Pin<Input<Floating>>>)
        ensures
            pin is Some <==> pin_no < PINS_PER_GROUP,
            pin matches Some(p) ==> p.spec_pin_no() == pin_no,
    {
        if pin_no < PINS_PER_GROUP {
            Some(Pin { pin_no, _mode: PhantomData })
        } else {
            None
        }
    }
}

impl Pin<Output<OpenDrain>> {
    /// Control state of the internal pull up
    pub fn internal_pull_up(&mut self, portgroup: &mut Group, on: bool)
        ensures
            final(self).spec_pin_no() == old(self).spec_pin_no(),
            final(portgroup)@ == old(portgroup)@.push(
                GroupOp::WritePinCfg {
                    pin: old(self).spec_pin_no(),
                    value: if on {
                        PINCFG_PULLEN
                    } else {
                        0
                    },
                },
            ),
    {
        let pin_no = self.pin_no();
        portgroup.push(
            GroupOp::WritePinCfg {
                pin: pin_no,
                value: if on {
                    PINCFG_PULLEN
                } else {
                    0
                },
            },
        );
    }
}

impl<MODE> Pin<Output<MODE>> {
    /// Toggle the logic level of the pin; if it is currently
    /// high, set it low and vice versa.
    pub fn toggle(&mut self, portgroup: &mut Group)
        ensures
            final(self).spec_pin_no() == old(self).spec_pin_no(),
            final(portgroup)@ == old(portgroup)@.push(
                GroupOp::Write {
                    register: GroupRegister::OutTgl,
                    mask: pin_mask(old(self).spec_pin_no()),
                },
            ),
    {
        let pin_no = self.pin_no();
        portgroup.push(GroupOp::Write { register: GroupRegister::OutTgl, mask: 1u32 << pin_no });
    }

    /// Drives the pin high.
    pub fn set_high(&mut self, portgroup: &mut Group)
        ensures
            final(self).spec_pin_no() == old(self).spec_pin_no(),
            final(portgroup)@ == old(portgroup)@.push(
                GroupOp::Write {
                    register: GroupRegister::OutSet,
                    mask: pin_mask(old(self).spec_pin_no()),
                },
            ),
    {
        let pin_no = self.pin_no();
        portgroup.push(GroupOp::Write { register: GroupRegister::OutSet, mask: 1u32 << pin_no });
    }

    /// Drives the pin low.
    pub fn set_low(&mut self, portgroup: &mut Group)
        ensures
            final(self).spec_pin_no() == old(self).spec_pin_no(),
            final(portgroup)@ == old(portgroup)@.push(
                GroupOp::Write {
                    register: GroupRegister::OutClr,
                    mask: pin_mask(old(self).spec_pin_no()),
                },
            ),
    {
        let pin_no = self.pin_no();
        portgroup.push(GroupOp::Write { register: GroupRegister::OutClr, mask: 1u32 << pin_no });
    }
}

impl<MODE, F: PeripheralFunction> IntoFunction<Pin<F>> for Pin<MODE> {
    fn into_function(self, portgroup: &mut Group) -> (pin: Pin<F>)
        ensures
            Pin::<F>::spec_pin_no(pin) == Pin::<MODE>::spec_pin_no(self),
            final(portgroup)@ == old(portgroup)@ + function_ops(
                Pin::<MODE>::spec_pin_no(self),
                F::spec_variant(),
            ),
    {
        self.into_peripheral::<F>(portgroup)
    }
}

} // verus!
