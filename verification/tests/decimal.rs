use weather::decimal::i64_to_string;
use weather::decimal::usize_to_string;
use weather::decimal::Decimal;

fn dec(micros: i64) -> Decimal {
    Decimal { micros }
}

#[test]
fn fixed2_pads_and_rounds() {
    assert_eq!(dec(20_000_000).to_fixed2(), "20.00");
    assert_eq!(dec(0).to_fixed2(), "0.00");
    assert_eq!(dec(1_013_250_000).to_fixed2(), "1013.25");
    assert_eq!(dec(3_456_789).to_fixed2(), "3.46");
    assert_eq!(dec(3_454_999).to_fixed2(), "3.45");
    assert_eq!(dec(50_000).to_fixed2(), "0.05");
}

#[test]
fn fixed2_ties_go_to_even() {
    assert_eq!(dec(125_000).to_fixed2(), "0.12");
    assert_eq!(dec(135_000).to_fixed2(), "0.14");
    assert_eq!(dec(5_000).to_fixed2(), "0.00");
    assert_eq!(dec(15_000).to_fixed2(), "0.02");
    assert_eq!(dec(999_995_000).to_fixed2(), "1000.00");
}

#[test]
fn fixed2_keeps_the_sign() {
    assert_eq!(dec(-5_250_000).to_fixed2(), "-5.25");
    assert_eq!(dec(-1_000).to_fixed2(), "-0.00");
    assert_eq!(dec(-125_000).to_fixed2(), "-0.12");
}

#[test]
fn fixed2_of_the_extremes() {
    assert_eq!(dec(i64::MAX).to_fixed2(), "9223372036854.78");
    assert_eq!(dec(i64::MIN).to_fixed2(), "-9223372036854.78");
}

#[test]
fn plain_drops_trailing_zeros() {
    assert_eq!(dec(49_840_000).to_plain(), "49.84");
    assert_eq!(dec(24_030_000).to_plain(), "24.03");
    assert_eq!(dec(50_000_000).to_plain(), "50");
    assert_eq!(dec(0).to_plain(), "0");
    assert_eq!(dec(1).to_plain(), "0.000001");
    assert_eq!(dec(100).to_plain(), "0.0001");
    assert_eq!(dec(-500_000).to_plain(), "-0.5");
    assert_eq!(dec(-90_000_001).to_plain(), "-90.000001");
    assert_eq!(dec(10_100_000).to_plain(), "10.1");
}

#[test]
fn plain_of_the_extremes() {
    assert_eq!(dec(i64::MAX).to_plain(), "9223372036854.775807");
    assert_eq!(dec(i64::MIN).to_plain(), "-9223372036854.775808");
}

#[test]
fn appending_keeps_what_was_there() {
    let mut out = String::from("x=");
    dec(1_500_000).append_plain(&mut out);
    out.push(';');
    dec(1_500_000).append_fixed2(&mut out);
    assert_eq!(out, "x=1.5;1.50");
}

#[test]
fn whole_numbers_in_decimal() {
    assert_eq!(i64_to_string(0), "0");
    assert_eq!(i64_to_string(7), "7");
    assert_eq!(i64_to_string(-42), "-42");
    assert_eq!(i64_to_string(1_431_648_000), "1431648000");
    assert_eq!(i64_to_string(i64::MAX), "9223372036854775807");
    assert_eq!(i64_to_string(i64::MIN), "-9223372036854775808");
    assert_eq!(usize_to_string(0), "0");
    assert_eq!(usize_to_string(5), "5");
    assert_eq!(usize_to_string(1_230), "1230");
}

#[test]
fn whole_units_make_millionths() {
    assert_eq!(Decimal::from_units(0).micros, 0);
    assert_eq!(Decimal::from_units(270).micros, 270_000_000);
    assert_eq!(Decimal::from_units(u32::MAX).micros, 4_294_967_295_000_000);
}

#[test]
fn thousandth_rounds_to_the_nearest() {
    assert_eq!(dec(10_000_000_000).thousandth().micros, 10_000_000);
    assert_eq!(dec(9_999_000_000).thousandth().micros, 9_999_000);
    assert_eq!(dec(1_499).thousandth().micros, 1);
    assert_eq!(dec(1_500).thousandth().micros, 2);
    assert_eq!(dec(499).thousandth().micros, 0);
    assert_eq!(dec(-1_500).thousandth().micros, -2);
    assert_eq!(dec(-1_499).thousandth().micros, -1);
    assert_eq!(dec(i64::MIN).thousandth().micros, -9_223_372_036_854_776);
}

#[test]
fn kilometres_an_hour_become_metres_a_second() {
    assert_eq!(dec(36_000_000).kph_to_mps().micros, 10_000_000);
    assert_eq!(dec(7_200_000).kph_to_mps().micros, 2_000_000);
    assert_eq!(dec(1_000_000).kph_to_mps().micros, 277_778);
    assert_eq!(dec(0).kph_to_mps().micros, 0);
    assert_eq!(dec(-3_600_000).kph_to_mps().micros, -1_000_000);
    assert_eq!(dec(9).kph_to_mps().micros, 3);
    assert_eq!(dec(i64::MAX).kph_to_mps().micros, 2_562_047_788_015_215_502);
}

#[test]
fn whole_units_drop_the_fraction_and_saturate() {
    assert_eq!(dec(359_999_999).whole_units(), 359);
    assert_eq!(dec(360_000_000).whole_units(), 360);
    assert_eq!(dec(999_999).whole_units(), 0);
    assert_eq!(dec(-1).whole_units(), 0);
    assert_eq!(dec(-400_000_000).whole_units(), 0);
    assert_eq!(dec(i64::MAX).whole_units(), u32::MAX);
    assert_eq!(dec(4_294_967_295_999_999).whole_units(), u32::MAX);
}
