use etherparse::decimal::decimal_string;
use etherparse::err::ValueTooBigError;
use etherparse::frag_offset::FRAG_OFFSET_MAX;
use etherparse::IpFragOffset;

#[test]
fn try_new_accepts_the_full_13_bit_range() {
    assert_eq!(0, IpFragOffset::try_new(0).unwrap().value());
    assert_eq!(1, IpFragOffset::try_new(1).unwrap().value());
    assert_eq!(0x1FFF, IpFragOffset::try_new(0x1FFF).unwrap().value());
}

#[test]
fn try_new_rejects_values_over_13_bits() {
    for value in [0x2000u16, 0x2001, 0x5000, u16::MAX] {
        assert_eq!(
            IpFragOffset::try_new(value).unwrap_err(),
            ValueTooBigError {
                actual: value,
                max_allowed: 0x1FFF,
            }
        );
    }
}

#[test]
fn new_keeps_the_value() {
    assert_eq!(5, IpFragOffset::new(5).value());
    assert_eq!(FRAG_OFFSET_MAX, IpFragOffset::new(FRAG_OFFSET_MAX).value());
}

#[test]
fn offset_max_is_13_bits() {
    assert_eq!(0x1FFF, FRAG_OFFSET_MAX);
}

#[test]
fn offsets_compare_by_value() {
    assert_eq!(IpFragOffset::new(7), IpFragOffset::try_new(7).unwrap());
    assert_ne!(IpFragOffset::new(7), IpFragOffset::new(8));
}

#[test]
fn decimal_rendering() {
    assert_eq!("0", decimal_string(0));
    assert_eq!("7", decimal_string(7));
    assert_eq!("10", decimal_string(10));
    assert_eq!("123", decimal_string(123));
    assert_eq!("8191", decimal_string(8191));
    assert_eq!("18446744073709551615", decimal_string(u64::MAX));
}
