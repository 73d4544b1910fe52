use samd_dma::nvmctrl::param::{Variant, PSZ_A, R, SEE_A};

#[test]
fn fields_of_the_register() {
    let r = R::new(0x8006_0400);
    assert_eq!(r.bits(), 0x8006_0400);
    assert_eq!(r.nvmp().bits(), 0x0400);
    assert_eq!(r.psz().bits(), 6);
    assert!(r.see().bits());
    let r = R::new(0x7ff8_ffff);
    assert_eq!(r.nvmp().bits(), 0xffff);
    assert_eq!(r.psz().bits(), 0);
    assert!(!r.see().bits());
    let r = R::new(0x0007_0000);
    assert_eq!(r.nvmp().bits(), 0);
    assert_eq!(r.psz().bits(), 7);
}

#[test]
fn page_size_variants() {
    let expected = [
        PSZ_A::_8,
        PSZ_A::_16,
        PSZ_A::_32,
        PSZ_A::_64,
        PSZ_A::_128,
        PSZ_A::_256,
        PSZ_A::_512,
        PSZ_A::_1024,
    ];
    for (value, variant) in expected.iter().enumerate() {
        let psz = R::new((value as u32) << 16).psz();
        assert_eq!(psz.variant(), *variant);
        assert_eq!(u8::from(*variant), value as u8);
        assert_eq!(psz.is_8(), value == 0);
        assert_eq!(psz.is_16(), value == 1);
        assert_eq!(psz.is_32(), value == 2);
        assert_eq!(psz.is_64(), value == 3);
        assert_eq!(psz.is_128(), value == 4);
        assert_eq!(psz.is_256(), value == 5);
        assert_eq!(psz.is_512(), value == 6);
        assert_eq!(psz.is_1024(), value == 7);
    }
}

#[test]
fn page_size_ignores_the_bits_around_it() {
    let psz = R::new(0xfffd_ffff).psz();
    assert_eq!(psz.bits(), 5);
    assert_eq!(psz.variant(), PSZ_A::_256);
    assert!(psz.is_256());
}

#[test]
fn smart_eeprom_bit_set() {
    let see = R::new(0x8000_0000).see();
    assert_eq!(see.variant(), Variant::Val(SEE_A::A));
    assert!(see.is_a());
    assert!(see.is_9());
    assert!(see.is_8());
    assert!(see.is_7());
    assert!(see.is_6());
    assert!(see.is_5());
    assert!(see.is_4());
    assert!(see.is_3());
    assert!(see.is_2());
    assert!(see.is_1());
    assert!(!see.is_0());
}

#[test]
fn smart_eeprom_bit_clear() {
    let see = R::new(0x7fff_ffff).see();
    assert_eq!(see.variant(), Variant::Val(SEE_A::_0));
    assert!(!see.is_a());
    assert!(!see.is_9());
    assert!(!see.is_8());
    assert!(!see.is_7());
    assert!(!see.is_6());
    assert!(!see.is_5());
    assert!(!see.is_4());
    assert!(!see.is_3());
    assert!(!see.is_2());
    assert!(!see.is_1());
    assert!(see.is_0());
}

#[test]
fn smart_eeprom_names_as_bits() {
    assert!(bool::from(SEE_A::A));
    assert!(bool::from(SEE_A::_9));
    assert!(bool::from(SEE_A::_1));
    assert!(!bool::from(SEE_A::_0));
}
