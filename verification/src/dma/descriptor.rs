//! Transfer descriptors as the controller reads them from memory.

use vstd::prelude::*;
use crate::dma::config::DmaDescriptorConfig;

verus! {

/// The fields of a block transfer control word.  Together they cover all
/// sixteen bits of the word.
pub struct BtCtrlView {
    /// Bit 0: the descriptor is valid.
    pub valid: bool,
    /// Bits 1 and 2: event output selection.
    pub evosel: u16,
    /// Bits 3 and 4: block action.
    pub blockact: u16,
    /// Bits 5 to 7, which the controller gives no meaning.
    pub reserved: u16,
    /// Bits 8 and 9: beat size.
    pub beatsize: u16,
    /// Bit 10: the source address increments.
    pub srcinc: bool,
    /// Bit 11: the destination address increments.
    pub dstinc: bool,
    /// Bit 12: the step size applies to the source address.
    pub stepsel: bool,
    /// Bits 13 to 15: address increment step size.
    pub stepsize: u16,
}

/// The block transfer control word of a descriptor.
#[derive(Clone, Copy, Debug, PartialEq, Eq, Structural)]
pub struct BtCtrlType(u16);

impl View for BtCtrlType {
    type V = BtCtrlView;

    open spec fn view(&self) -> BtCtrlView {
        BtCtrlView {
            valid: self.spec_bits() & 1 == 1,
            evosel: (self.spec_bits() >> 1) & 3,
            blockact: (self.spec_bits() >> 3) & 3,
            reserved: (self.spec_bits() >> 5) & 7,
            beatsize: (self.spec_bits() >> 8) & 3,
            srcinc: (self.spec_bits() >> 10) & 1 == 1,
            dstinc: (self.spec_bits() >> 11) & 1 == 1,
            stepsel: (self.spec_bits() >> 12) & 1 == 1,
            stepsize: (self.spec_bits() >> 13) & 7,
        }
    }
}

impl BtCtrlType {
    /// The word itself.
    pub closed spec fn spec_bits(self) -> u16 {
        self.0
    }

    /// The word with every bit zero.
    pub closed spec fn zero() -> BtCtrlType {
        BtCtrlType(0)
    }

    /// The word with every field zero.
    pub fn new() -> (word: BtCtrlType)
        ensures
            word == BtCtrlType::zero(),
            word.spec_bits() == 0,
            word@ == (BtCtrlView {
                valid: false,
                evosel: 0,
                blockact: 0,
                reserved: 0,
                beatsize: 0,
                srcinc: false,
                dstinc: false,
                stepsel: false,
                stepsize: 0,
            }),
    {
        assert(0u16 & 1 == 0 && (0u16 >> 1) & 3 == 0 && (0u16 >> 3) & 3 == 0 && (0u16 >> 5) & 7 == 0
            && (0u16 >> 8) & 3 == 0 && (0u16 >> 10) & 1 == 0 && (0u16 >> 11) & 1 == 0 && (0u16
            >> 12) & 1 == 0 && (0u16 >> 13) & 7 == 0) by (bit_vector);
        BtCtrlType(0)
    }

    /// The word as the controller reads it.
    #[verifier::when_used_as_spec(spec_bits)]
    pub fn bits(self) -> (bits: u16)
        ensures
            bits == self.spec_bits(),
    {
        self.0
    }

    /// Whether the descriptor is valid.
    pub fn valid(&self) -> (v: bool)
        ensures
            v == self@.valid,
    {
        self.0 & 1 == 1
    }

    /// The event output selection.
    pub fn evosel(&self) -> (v: u16)
        ensures
            v == self@.evosel,
    {
        (self.0 >> 1) & 3
    }

    /// The block action.
    pub fn blockact(&self) -> (v: u16)
        ensures
            v == self@.blockact,
    {
        (self.0 >> 3) & 3
    }

    /// The beat size.
    pub fn beatsize(&self) -> (v: u16)
        ensures
            v == self@.beatsize,
    {
        (self.0 >> 8) & 3
    }

    /// Whether the source address increments.
    pub fn srcinc(&self) -> (v: bool)
        ensures
            v == self@.srcinc,
    {
        (self.0 >> 10) & 1 == 1
    }

    /// Whether the destination address increments.
    pub fn dstinc(&self) -> (v: bool)
        ensures
            v == self@.dstinc,
    {
        (self.0 >> 11) & 1 == 1
    }

    /// Whether the step size applies to the source address.
    pub fn stepsel(&self) -> (v: bool)
        ensures
            v == self@.stepsel,
    {
        (self.0 >> 12) & 1 == 1
    }

    /// The address increment step size.
    pub fn stepsize(&self) -> (v: u16)
        ensures
            v == self@.stepsize,
    {
        (self.0 >> 13) & 7
    }

    /// Marks the descriptor valid or not; no other field changes.
    pub fn set_valid(&mut self, value: bool)
        ensures
            final(self)@ == (BtCtrlView { valid: value, ..old(self)@ }),
    {
        let w = self.0;
        let n = if value {
            w | 0x0001
        } else {
            w & 0xfffe
        };
        assert({
            &&& (n & 1 == 1) == value
            &&& (n >> 1) & 3 == (w >> 1) & 3
            &&& (n >> 3) & 3 == (w >> 3) & 3
            &&& (n >> 5) & 7 == (w >> 5) & 7
            &&& (n >> 8) & 3 == (w >> 8) & 3
            &&& (n >> 10) & 1 == (w >> 10) & 1
            &&& (n >> 11) & 1 == (w >> 11) & 1
            &&& (n >> 12) & 1 == (w >> 12) & 1
            &&& (n >> 13) & 7 == (w >> 13) & 7
        }) by (bit_vector)
            requires
                n == (if value {
                    w | 0x0001
                } else {
                    w & 0xfffe
                }),
        ;
        self.0 = n;
    }

    /// Sets the event output selection to the low two bits of `value`; no
    /// other field changes.
    pub fn set_evosel(&mut self, value: u16)
        ensures
            final(self)@ == (BtCtrlView { evosel: value & 3, ..old(self)@ }),
    {
        let w = self.0;
        let n = (w & 0xfff9) | ((value & 3) << 1);
        assert({
            &&& n & 1 == w & 1
            &&& (n >> 1) & 3 == value & 3
            &&& (n >> 3) & 3 == (w >> 3) & 3
            &&& (n >> 5) & 7 == (w >> 5) & 7
            &&& (n >> 8) & 3 == (w >> 8) & 3
            &&& (n >> 10) & 1 == (w >> 10) & 1
            &&& (n >> 11) & 1 == (w >> 11) & 1
            &&& (n >> 12) & 1 == (w >> 12) & 1
            &&& (n >> 13) & 7 == (w >> 13) & 7
        }) by (bit_vector)
            requires
                n == (w & 0xfff9) | ((value & 3) << 1),
        ;
        self.0 = n;
    }

    /// Sets the block action to the low two bits of `value`; no other field
    /// changes.
    pub fn set_blockact(&mut self, value: u16)
        ensures
            final(self)@ == (BtCtrlView { blockact: value & 3, ..old(self)@ }),
    {
        let w = self.0;
        let n = (w & 0xffe7) | ((value & 3) << 3);
        assert({
            &&& n & 1 == w & 1
            &&& (n >> 1) & 3 == (w >> 1) & 3
            &&& (n >> 3) & 3 == value & 3
            &&& (n >> 5) & 7 == (w >> 5) & 7
            &&& (n >> 8) & 3 == (w >> 8) & 3
            &&& (n >> 10) & 1 == (w >> 10) & 1
            &&& (n >> 11) & 1 == (w >> 11) & 1
            &&& (n >> 12) & 1 == (w >> 12) & 1
            &&& (n >> 13) & 7 == (w >> 13) & 7
        }) by (bit_vector)
            requires
                n == (w & 0xffe7) | ((value & 3) << 3),
        ;
        self.0 = n;
    }

    /// Sets the beat size to the low two bits of `value`; no other field
    /// changes.
    pub fn set_beatsize(&mut self, value: u16)
        ensures
            final(self)@ == (BtCtrlView { beatsize: value & 3, ..old(self)@ }),
    {
        let w = self.0;
        let n = (w & 0xfcff) | ((value & 3) << 8);
        assert({
            &&& n & 1 == w & 1
            &&& (n >> 1) & 3 == (w >> 1) & 3
            &&& (n >> 3) & 3 == (w >> 3) & 3
            &&& (n >> 5) & 7 == (w >> 5) & 7
            &&& (n >> 8) & 3 == value & 3
            &&& (n >> 10) & 1 == (w >> 10) & 1
            &&& (n >> 11) & 1 == (w >> 11) & 1
            &&& (n >> 12) & 1 == (w >> 12) & 1
            &&& (n >> 13) & 7 == (w >> 13) & 7
        }) by (bit_vector)
            requires
                n == (w & 0xfcff) | ((value & 3) << 8),
        ;
        self.0 = n;
    }

    /// Makes the source address increment or not; no other field changes.
    pub fn set_srcinc(&mut self, value: bool)
        ensures
            final(self)@ == (BtCtrlView { srcinc: value, ..old(self)@ }),
    {
        let w = self.0;
        let n = if value {
            w | 0x0400
        } else {
            w & 0xfbff
        };
        assert({
            &&& n & 1 == w & 1
            &&& (n >> 1) & 3 == (w >> 1) & 3
            &&& (n >> 3) & 3 == (w >> 3) & 3
            &&& (n >> 5) & 7 == (w >> 5) & 7
            &&& (n >> 8) & 3 == (w >> 8) & 3
            &&& ((n >> 10) & 1 == 1) == value
            &&& (n >> 11) & 1 == (w >> 11) & 1
            &&& (n >> 12) & 1 == (w >> 12) & 1
            &&& (n >> 13) & 7 == (w >> 13) & 7
        }) by (bit_vector)
            requires
                n == (if value {
                    w | 0x0400
                } else {
                    w & 0xfbff
                }),
        ;
        self.0 = n;
    }

    /// Makes the destination address increment or not; no other field
    /// changes.
    pub fn set_dstinc(&mut self, value: bool)
        ensures
            final(self)@ == (BtCtrlView { dstinc: value, ..old(self)@ }),
    {
        let w = self.0;
        let n = if value {
            w | 0x0800
        } else {
            w & 0xf7ff
        };
        assert({
            &&& n & 1 == w & 1
            &&& (n >> 1) & 3 == (w >> 1) & 3
            &&& (n >> 3) & 3 == (w >> 3) & 3
            &&& (n >> 5) & 7 == (w >> 5) & 7
            &&& (n >> 8) & 3 == (w >> 8) & 3
            &&& (n >> 10) & 1 == (w >> 10) & 1
            &&& ((n >> 11) & 1 == 1) == value
            &&& (n >> 12) & 1 == (w >> 12) & 1
            &&& (n >> 13) & 7 == (w >> 13) & 7
        }) by (bit_vector)
            requires
                n == (if value {
                    w | 0x0800
                } else {
                    w & 0xf7ff
                }),
        ;
        self.0 = n;
    }

    /// Makes the step size apply to the source address, or to the
    /// destination address; no other field changes.
    pub fn set_stepsel(&mut self, value: bool)
        ensures
            final(self)@ == (BtCtrlView { stepsel: value, ..old(self)@ }),
    {
        let w = self.0;
        let n = if value {
            w | 0x1000
        } else {
            w & 0xefff
        };
        assert({
            &&& n & 1 == w & 1
            &&& (n >> 1) & 3 == (w >> 1) & 3
            &&& (n >> 3) & 3 == (w >> 3) & 3
            &&& (n >> 5) & 7 == (w >> 5) & 7
            &&& (n >> 8) & 3 == (w >> 8) & 3
            &&& (n >> 10) & 1 == (w >> 10) & 1
            &&& (n >> 11) & 1 == (w >> 11) & 1
            &&& ((n >> 12) & 1 == 1) == value
            &&& (n >> 13) & 7 == (w >> 13) & 7
        }) by (bit_vector)
            requires
                n == (if value {
                    w | 0x1000
                } else {
                    w & 0xefff
                }),
        ;
        self.0 = n;
    }

    /// Sets the step size to the low three bits of `value`; no other field
    /// changes.
    pub fn set_stepsize(&mut self, value: u16)
        ensures
            final(self)@ == (BtCtrlView { stepsize: value & 7, ..old(self)@ }),
    {
        let w = self.0;
        let n = (w & 0x1fff) | ((value & 7) << 13);
        assert({
            &&& n & 1 == w & 1
            &&& (n >> 1) & 3 == (w >> 1) & 3
            &&& (n >> 3) & 3 == (w >> 3) & 3
            &&& (n >> 5) & 7 == (w >> 5) & 7
            &&& (n >> 8) & 3 == (w >> 8) & 3
            &&& (n >> 10) & 1 == (w >> 10) & 1
            &&& (n >> 11) & 1 == (w >> 11) & 1
            &&& (n >> 12) & 1 == (w >> 12) & 1
            &&& (n >> 13) & 7 == value & 7
        }) by (bit_vector)
            requires
                n == (w & 0x1fff) | ((value & 7) << 13),
        ;
        self.0 = n;
    }
}

/// Two control words with the same fields are the same word.
pub proof fn lemma_btctrl_fields_fix_word(a: BtCtrlType, b: BtCtrlType)
    requires
        a@ == b@,
    ensures
        a == b,
{
    let x = a.spec_bits();
    let y = b.spec_bits();
    assert(x == y) by (bit_vector)
        requires
            (x & 1 == 1) == (y & 1 == 1),
            (x >> 1) & 3 == (y >> 1) & 3,
            (x >> 3) & 3 == (y >> 3) & 3,
            (x >> 5) & 7 == (y >> 5) & 7,
            (x >> 8) & 3 == (y >> 8) & 3,
            ((x >> 10) & 1 == 1) == ((y >> 10) & 1 == 1),
            ((x >> 11) & 1 == 1) == ((y >> 11) & 1 == 1),
            ((x >> 12) & 1 == 1) == ((y >> 12) & 1 == 1),
            (x >> 13) & 7 == (y >> 13) & 7,
    ;
}

/// One transfer descriptor, laid out as the controller reads it.
#[derive(Clone, Copy, Debug, PartialEq, Eq, Structural)]
pub struct DmacDescriptor {
    /// Block transfer control.
    pub btctrl: BtCtrlType,
    /// Block transfer count: the beats of the block, and in a write-back
    /// descriptor the beats that are left.
    pub btcnt: u16,
    /// Source address.
    pub src_addr: u32,
    /// Destination address.
    pub dst_addr: u32,
    /// Address of the next descriptor, 0 where the transfer ends here.
    pub desc_addr: u32,
}

impl DmacDescriptor {
    /// Whether this descriptor says what `config` describes: every field of
    /// the control word and every other word.
    pub open spec fn describes(self, config: DmaDescriptorConfig) -> bool {
        &&& self.btctrl@ == (BtCtrlView {
            valid: config.descriptor_valid,
            evosel: config.event_output_selection.spec_bits() as u16,
            blockact: config.block_action.spec_bits() as u16,
            reserved: 0,
            beatsize: config.beat_size.spec_bits() as u16,
            srcinc: config.src_increment_enable,
            dstinc: config.dst_increment_enable,
            stepsel: config.step_selection.spec_bits() == 1,
            stepsize: config.step_size.spec_bits() as u16,
        })
        &&& self.btcnt == config.block_transfer_count
        &&& self.src_addr == config.source_address
        &&& self.dst_addr == config.destination_address
        &&& self.desc_addr == config.next_descriptor_address
    }

    /// The descriptor of an empty slot: every word of it is zero, and so it
    /// is not valid.
    pub open spec fn empty() -> DmacDescriptor {
        DmacDescriptor {
            btctrl: BtCtrlType::zero(),
            btcnt: 0,
            src_addr: 0,
            dst_addr: 0,
            desc_addr: 0,
        }
    }

    /// The descriptor of an empty slot.
    pub fn new() -> (descriptor: DmacDescriptor)
        ensures
            descriptor == DmacDescriptor::empty(),
            !descriptor.btctrl@.valid,
    {
        DmacDescriptor { btctrl: BtCtrlType::new(), btcnt: 0, src_addr: 0, dst_addr: 0, desc_addr: 0 }
    }

    /// The descriptor that `config` describes.
    pub fn from_config(config: &DmaDescriptorConfig) -> (descriptor: DmacDescriptor)
        ensures
            descriptor.describes(*config),
    {
        let mut btctrl = BtCtrlType::new();
        btctrl.set_valid(config.descriptor_valid);
        btctrl.set_evosel(config.event_output_selection.bits() as u16);
        btctrl.set_blockact(config.block_action.bits() as u16);
        btctrl.set_beatsize(config.beat_size.bits() as u16);
        btctrl.set_srcinc(config.src_increment_enable);
        btctrl.set_dstinc(config.dst_increment_enable);
        btctrl.set_stepsel(config.step_selection.bits() == 1);
        btctrl.set_stepsize(config.step_size.bits() as u16);
        proof {
            let e = config.event_output_selection.spec_bits() as u16;
            let b = config.block_action.spec_bits() as u16;
            let s = config.beat_size.spec_bits() as u16;
            let z = config.step_size.spec_bits() as u16;
            assert(e & 3 == e && b & 3 == b && s & 3 == s && z & 7 == z) by (bit_vector)
                requires
                    e < 4,
                    b < 4,
                    s < 4,
                    z < 8,
            ;
        }
        DmacDescriptor {
            btctrl,
            btcnt: config.block_transfer_count,
            src_addr: config.source_address,
            dst_addr: config.destination_address,
            desc_addr: config.next_descriptor_address,
        }
    }
}

} // verus!
