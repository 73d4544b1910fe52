//! Reader of the `PARAM` register, which describes the flash.

use vstd::prelude::*;
use vstd::std_specs::convert::FromSpecImpl;

verus! {

/// What a field reader found: a value that has a name, or bits that have none.
#[derive(Clone, Copy, Debug, PartialEq, Eq)]
pub enum Variant<U, T> {
    /// One of the named values of the field.
    Val(T),
    /// Raw bits that no named value stands for.
    Res(U),
}

/// Page size.
#[allow(non_camel_case_types)]
#[derive(Clone, Copy, Debug, PartialEq, Eq, Structural)]
pub enum PSZ_A {
    /// 0: 8 bytes
    _8,
    /// 1: 16 bytes
    _16,
    /// 2: 32 bytes
    _32,
    /// 3: 64 bytes
    _64,
    /// 4: 128 bytes
    _128,
    /// 5: 256 bytes
    _256,
    /// 6: 512 bytes
    _512,
    /// 7: 1024 bytes
    _1024,
}

impl PSZ_A {
    /// The value of the `PSZ` field that stands for this page size.
    pub open spec fn spec_bits(self) -> u8 {
        match self {
            PSZ_A::_8 => 0,
            PSZ_A::_16 => 1,
            PSZ_A::_32 => 2,
            PSZ_A::_64 => 3,
            PSZ_A::_128 => 4,
            PSZ_A::_256 => 5,
            PSZ_A::_512 => 6,
            PSZ_A::_1024 => 7,
        }
    }

    /// The size of a page in bytes: 8 shifted left by the field's value.
    pub open spec fn spec_bytes(self) -> u16 {
        match self {
            PSZ_A::_8 => 8,
            PSZ_A::_16 => 16,
            PSZ_A::_32 => 32,
            PSZ_A::_64 => 64,
            PSZ_A::_128 => 128,
            PSZ_A::_256 => 256,
            PSZ_A::_512 => 512,
            PSZ_A::_1024 => 1024,
        }
    }
}

impl From<PSZ_A> for u8 {
    fn from(variant: PSZ_A) -> (bits: u8) {
        match variant {
            PSZ_A::_8 => 0,
            PSZ_A::_16 => 1,
            PSZ_A::_32 => 2,
            PSZ_A::_64 => 3,
            PSZ_A::_128 => 4,
            PSZ_A::_256 => 5,
            PSZ_A::_512 => 6,
            PSZ_A::_1024 => 7,
        }
    }
}

impl FromSpecImpl<PSZ_A> for u8 {
    open spec fn obeys_from_spec() -> bool {
        true
    }

    open spec fn from_spec(variant: PSZ_A) -> u8 {
        variant.spec_bits()
    }
}

/// Reader of field `PSZ`.  The field has three bits.
#[allow(non_camel_case_types)]
#[derive(Clone, Copy, Debug, PartialEq, Eq)]
pub struct PSZ_R {
    bits: u8,
}

impl PSZ_R {
    #[verifier::type_invariant]
    spec fn in_range(self) -> bool {
        self.bits < 8
    }

    /// The bits that were read.
    pub closed spec fn spec_bits(self) -> u8 {
        self.bits
    }

    /// A reader of the bits `bits`, which are those of a three-bit field.
    pub(crate) fn new(bits: u8) -> (reader: PSZ_R)
        requires
            bits < 8,
        ensures
            reader.spec_bits() == bits,
    {
        PSZ_R { bits }
    }

    /// The bits that were read.
    #[verifier::when_used_as_spec(spec_bits)]
    pub fn bits(self) -> (bits: u8)
        ensures
            bits == self.spec_bits(),
            bits < 8,
    {
        proof {
            use_type_invariant(&self);
        }
        self.bits
    }

    /// Get enumerated values variant
    pub fn variant(&self) -> (variant: PSZ_A)
        ensures
            variant.spec_bits() == self.spec_bits(),
    {
        proof {
            use_type_invariant(self);
        }
        match self.bits {
            0 => PSZ_A::_8,
            1 => PSZ_A::_16,
            2 => PSZ_A::_32,
            3 => PSZ_A::_64,
            4 => PSZ_A::_128,
            5 => PSZ_A::_256,
            6 => PSZ_A::_512,
            _ => PSZ_A::_1024,
        }
    }

    /// Checks if the value of the field is `_8`
    pub fn is_8(&self) -> (is: bool)
        ensures
            is == (self.spec_bits() == PSZ_A::_8.spec_bits()),
    {
        self.bits == u8::from(PSZ_A::_8)
    }

    /// Checks if the value of the field is `_16`
    pub fn is_16(&self) -> (is: bool)
        ensures
            is == (self.spec_bits() == PSZ_A::_16.spec_bits()),
    {
        self.bits == u8::from(PSZ_A::_16)
    }

    /// Checks if the value of the field is `_32`
    pub fn is_32(&self) -> (is: bool)
        ensures
            is == (self.spec_bits() == PSZ_A::_32.spec_bits()),
    {
        self.bits == u8::from(PSZ_A::_32)
    }

    /// Checks if the value of the field is `_64`
    pub fn is_64(&self) -> (is: bool)
        ensures
            is == (self.spec_bits() == PSZ_A::_64.spec_bits()),
    {
        self.bits == u8::from(PSZ_A::_64)
    }

    /// Checks if the value of the field is `_128`
    pub fn is_128(&self) -> (is: bool)
        ensures
            is == (self.spec_bits() == PSZ_A::_128.spec_bits()),
    {
        self.bits == u8::from(PSZ_A::_128)
    }

    /// Checks if the value of the field is `_256`
    pub fn is_256(&self) -> (is: bool)
        ensures
            is == (self.spec_bits() == PSZ_A::_256.spec_bits()),
    {
        self.bits == u8::from(PSZ_A::_256)
    }

    /// Checks if the value of the field is `_512`
    pub fn is_512(&self) -> (is: bool)
        ensures
            is == (self.spec_bits() == PSZ_A::_512.spec_bits()),
    {
        self.bits == u8::from(PSZ_A::_512)
    }

    /// Checks if the value of the field is `_1024`
    pub fn is_1024(&self) -> (is: bool)
        ensures
            is == (self.spec_bits() == PSZ_A::_1024.spec_bits()),
    {
        self.bits == u8::from(PSZ_A::_1024)
    }
}

/// SmartEEPROM Supported.
///
/// The field has one bit, and the names stand for the sizes that the
/// device's documentation lists against the values 0 to 10.  Read as a bit,
/// every name but `_0` stands for a set bit.
#[allow(non_camel_case_types)]
#[derive(Clone, Copy, Debug, PartialEq, Eq, Structural)]
pub enum SEE_A {
    /// 10: 163840 bytes
    A,
    /// 9: 147456 bytes
    _9,
    /// 8: 131072 bytes
    _8,
    /// 7: 114688 bytes
    _7,
    /// 6: 98304 bytes
    _6,
    /// 5: 81920 bytes
    _5,
    /// 4: 65536 bytes
    _4,
    /// 3: 49152 bytes
    _3,
    /// 2: 32768 bytes
    _2,
    /// 1: 16384 bytes
    _1,
    /// 0: 0 bytes
    _0,
}

impl SEE_A {
    /// The number that the name stands for.
    pub open spec fn spec_value(self) -> u8 {
        match self {
            SEE_A::A => 10,
            SEE_A::_9 => 9,
            SEE_A::_8 => 8,
            SEE_A::_7 => 7,
            SEE_A::_6 => 6,
            SEE_A::_5 => 5,
            SEE_A::_4 => 4,
            SEE_A::_3 => 3,
            SEE_A::_2 => 2,
            SEE_A::_1 => 1,
            SEE_A::_0 => 0,
        }
    }

    /// The bit that the name stands for: set unless the number is zero.
    pub open spec fn spec_bit(self) -> bool {
        self.spec_value() != 0
    }
}

impl From<SEE_A> for bool {
    fn from(variant: SEE_A) -> (bit: bool) {
        match variant {
            SEE_A::_0 => false,
            _ => true,
        }
    }
}

impl FromSpecImpl<SEE_A> for bool {
    open spec fn obeys_from_spec() -> bool {
        true
    }

    open spec fn from_spec(variant: SEE_A) -> bool {
        variant.spec_bit()
    }
}

/// Reader of field `SEE`.
#[allow(non_camel_case_types)]
#[derive(Clone, Copy, Debug, PartialEq, Eq)]
pub struct SEE_R {
    bits: bool,
}

impl SEE_R {
    /// The bit that was read.
    pub closed spec fn spec_bits(self) -> bool {
        self.bits
    }

    /// A reader of the bit `bits`.
    pub(crate) fn new(bits: bool) -> (reader: SEE_R)
        ensures
            reader.spec_bits() == bits,
    {
        SEE_R { bits }
    }

    /// The bit that was read.
    #[verifier::when_used_as_spec(spec_bits)]
    pub fn bits(self) -> (bits: bool)
        ensures
            bits == self.spec_bits(),
    {
        self.bits
    }

    /// Get enumerated values variant.  A set bit reads as the first name
    /// that stands for one, `A`; a clear bit reads as `_0`.  No bit is left
    /// without a name.
    pub fn variant(&self) -> (variant: Variant<bool, SEE_A>)
        ensures
            variant == if self.spec_bits() {
                Variant::<bool, SEE_A>::Val(SEE_A::A)
            } else {
                Variant::<bool, SEE_A>::Val(SEE_A::_0)
            },
    {
        match self.bits {
            true => Variant::Val(SEE_A::A),
            false => Variant::Val(SEE_A::_0),
        }
    }

    /// Checks if the value of the field is `A`
    pub fn is_a(&self) -> (is: bool)
        ensures
            is == (self.spec_bits() == SEE_A::A.spec_bit()),
    {
        self.bits == bool::from(SEE_A::A)
    }

    /// Checks if the value of the field is `_9`
    pub fn is_9(&self) -> (is: bool)
        ensures
            is == (self.spec_bits() == SEE_A::_9.spec_bit()),
    {
        self.bits == bool::from(SEE_A::_9)
    }

    /// Checks if the value of the field is `_8`
    pub fn is_8(&self) -> (is: bool)
        ensures
            is == (self.spec_bits() == SEE_A::_8.spec_bit()),
    {
        self.bits == bool::from(SEE_A::_8)
    }

    /// Checks if the value of the field is `_7`
    pub fn is_7(&self) -> (is: bool)
        ensures
            is == (self.spec_bits() == SEE_A::_7.spec_bit()),
    {
        self.bits == bool::from(SEE_A::_7)
    }

    /// Checks if the value of the field is `_6`
    pub fn is_6(&self) -> (is: bool)
        ensures
            is == (self.spec_bits() == SEE_A::_6.spec_bit()),
    {
        self.bits == bool::from(SEE_A::_6)
    }

    /// Checks if the value of the field is `_5`
    pub fn is_5(&self) -> (is: bool)
        ensures
            is == (self.spec_bits() == SEE_A::_5.spec_bit()),
    {
        self.bits == bool::from(SEE_A::_5)
    }

    /// Checks if the value of the field is `_4`
    pub fn is_4(&self) -> (is: bool)
        ensures
            is == (self.spec_bits() == SEE_A::_4.spec_bit()),
    {
        self.bits == bool::from(SEE_A::_4)
    }

    /// Checks if the value of the field is `_3`
    pub fn is_3(&self) -> (is: bool)
        ensures
            is == (self.spec_bits() == SEE_A::_3.spec_bit()),
    {
        self.bits == bool::from(SEE_A::_3)
    }

    /// Checks if the value of the field is `_2`
    pub fn is_2(&self) -> (is: bool)
        ensures
            is == (self.spec_bits() == SEE_A::_2.spec_bit()),
    {
        self.bits == bool::from(SEE_A::_2)
    }

    /// Checks if the value of the field is `_1`
    pub fn is_1(&self) -> (is: bool)
        ensures
            is == (self.spec_bits() == SEE_A::_1.spec_bit()),
    {
        self.bits == bool::from(SEE_A::_1)
    }

    /// Checks if the value of the field is `_0`
    pub fn is_0(&self) -> (is: bool)
        ensures
            is == (self.spec_bits() == SEE_A::_0.spec_bit()),
    {
        self.bits == bool::from(SEE_A::_0)
    }
}

/// Reader of field `NVMP`.
#[allow(non_camel_case_types)]
#[derive(Clone, Copy, Debug, PartialEq, Eq)]
pub struct NVMP_R {
    bits: u16,
}

impl NVMP_R {
    /// The bits that were read.
    pub closed spec fn spec_bits(self) -> u16 {
        self.bits
    }

    /// A reader of the bits `bits`.
    pub(crate) fn new(bits: u16) -> (reader: NVMP_R)
        ensures
            reader.spec_bits() == bits,
    {
        NVMP_R { bits }
    }

    /// The bits that were read: the number of pages of the flash.
    #[verifier::when_used_as_spec(spec_bits)]
    pub fn bits(self) -> (bits: u16)
        ensures
            bits == self.spec_bits(),
    {
        self.bits
    }
}

/// Reader of register PARAM
#[derive(Clone, Copy, Debug, PartialEq, Eq)]
pub struct R {
    bits: u32,
}

impl R {
    /// The word that was read.
    pub closed spec fn spec_bits(self) -> u32 {
        self.bits
    }

    /// A reader of the register word `bits`.
    pub fn new(bits: u32) -> (reader: R)
        ensures
            reader.spec_bits() == bits,
    {
        R { bits }
    }

    /// The word that was read.
    #[verifier::when_used_as_spec(spec_bits)]
    pub fn bits(self) -> (bits: u32)
        ensures
            bits == self.spec_bits(),
    {
        self.bits
    }

    /// Bits 0:15 - NVM Pages
    pub fn nvmp(&self) -> (field: NVMP_R)
        ensures
            field.spec_bits() == self.spec_bits() & 0xffff,
            field.spec_bits() == self.spec_bits() % 0x1_0000,
    {
        let bits = self.bits;
        assert(bits & 0xffff == bits % 0x1_0000 && (bits & 0xffff) < 0x1_0000) by (bit_vector);
        NVMP_R::new((self.bits & 0xffff) as u16)
    }

    /// Bits 16:18 - Page Size
    pub fn psz(&self) -> (field: PSZ_R)
        ensures
            field.spec_bits() == (self.spec_bits() >> 16) & 0x07,
            field.spec_bits() == (self.spec_bits() / 0x1_0000) % 8,
    {
        let bits = self.bits;
        assert((bits >> 16) & 0x07 == (bits / 0x1_0000) % 8 && ((bits >> 16) & 0x07) < 8)
            by (bit_vector);
        PSZ_R::new(((self.bits >> 16) & 0x07) as u8)
    }

    /// Bit 31 - SmartEEPROM Supported
    pub fn see(&self) -> (field: SEE_R)
        ensures
            field.spec_bits() == ((self.spec_bits() >> 31) & 0x01 != 0),
            field.spec_bits() == (self.spec_bits() >= 0x8000_0000),
    {
        let bits = self.bits;
        assert(((bits >> 31) & 0x01 != 0) == (bits >= 0x8000_0000)) by (bit_vector);
        SEE_R::new(((self.bits >> 31) & 0x01) != 0)
    }
}

} // verus!
