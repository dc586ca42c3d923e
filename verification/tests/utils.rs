use dynamips::uart::ns16552::Ns16552;
use dynamips::utils::Fraction;
use std::time::Duration;

#[test]
fn test_crystal() {
    //  1200 divisor was 192
    //  9600 divisor was  24
    // 19200 divisor was  12
    // Suggests a crystal of 3686400 hz
    println!("crystal={:?}", Ns16552::CRYSTAL_HZ);
    let ticks_per_second = Fraction(Ns16552::CRYSTAL_HZ, 16);
    println!("ticks_per_second={:?}", ticks_per_second);
    assert_eq!(Fraction(1200, 1), ticks_per_second / 192);
    assert_eq!(Fraction(9600, 1), ticks_per_second / 24);
    assert_eq!(Fraction(19200, 1), ticks_per_second / 12);
    fn packets_per_second_to_duration(packets_per_second: Fraction) -> Duration {
        Duration::from_nanos(packets_per_second.invert().into_nanos())
    }
    let packet_bits = 10; // start + 8 + stop
    println!("packet_duration={:?}", packets_per_second_to_duration(Fraction(1200, packet_bits)));
    println!("packet_duration={:?}", packets_per_second_to_duration(Fraction(9600, packet_bits)));
    println!("packet_duration={:?}", packets_per_second_to_duration(Fraction(19200, packet_bits)));
}

#[test]
fn reduce_divides_by_the_greatest_common_divisor() {
    assert_eq!(Fraction(6, 4).reduce(), Fraction(3, 2));
    assert_eq!(Fraction(2024, 748).reduce(), Fraction(46, 17));
    assert_eq!(Fraction(3, 2).reduce(), Fraction(3, 2));
    assert_eq!(Fraction(7, 7).reduce(), Fraction(1, 1));
    assert_eq!(Fraction(0, 5).reduce(), Fraction(0, 1));
    assert_eq!(Fraction(5, 0).reduce(), Fraction(1, 0));
    assert_eq!(Fraction(0, 0).reduce(), Fraction(0, 0));
    assert_eq!(Fraction(0, 1).reduce(), Fraction(0, 1));
    assert_eq!(Fraction(u32::MAX, u32::MAX).reduce(), Fraction(1, 1));
}

#[test]
fn invert_swaps_the_parts() {
    assert_eq!(Fraction(3, 2).invert(), Fraction(2, 3));
    assert_eq!(Fraction(0, 9).invert(), Fraction(9, 0));
    assert_eq!(Fraction(4, 2).invert(), Fraction(2, 4));
}

#[test]
fn mul_div_scales_and_reduces() {
    assert_eq!(Fraction(230400, 1).mul_div(2, 21), Fraction(153600, 7));
    assert_eq!(Fraction(3, 4).mul_div(4, 3), Fraction(1, 1));
    assert_eq!(Fraction(1, 2).mul_div(0, 1), Fraction(0, 1));
}

#[test]
fn multiplication_and_division_reduce() {
    assert_eq!(Fraction(3, 4) * 2, Fraction(3, 2));
    assert_eq!(Fraction(3, 4) * 0, Fraction(0, 1));
    assert_eq!(Fraction(3, 4) / 3, Fraction(1, 4));
    assert_eq!(Fraction(230400, 1) / 0, Fraction(1, 0));
}

#[test]
fn into_u32_is_the_quotient() {
    assert_eq!(Fraction(12, 4).into_u32(), 3);
    assert_eq!(Fraction(0, 4).into_u32(), 0);
    assert_eq!(Fraction(9600, 1).into_u32(), 9600);
}

#[test]
fn nanoseconds_round_down() {
    assert_eq!(Fraction(10, 9600).into_nanos(), 1_041_666);
    assert_eq!(Fraction(11, 9600).into_nanos(), 1_145_833);
    assert_eq!(Fraction(0, 1).into_nanos(), 0);
    assert_eq!(Fraction(1, 1).into_nanos(), 1_000_000_000);
    assert_eq!(Fraction(u32::MAX, 1).into_nanos(), 4_294_967_295_000_000_000);
    assert_eq!(Fraction::from_nanos(500_000_000), Fraction(1, 2));
    assert_eq!(Fraction::from_nanos(0), Fraction(0, 1));
    assert_eq!(Fraction::from_nanos(1), Fraction(1, 1_000_000_000));
}

#[test]
fn default_fraction_is_zero_over_zero() {
    assert_eq!(Fraction::default(), Fraction(0, 0));
}
