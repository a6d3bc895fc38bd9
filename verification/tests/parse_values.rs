use tada::parse::boolean::bool;
use tada::parse::integer::{bin, dec, hex, integer, signed};
use tada::parse::table::{table, value, Value};

#[test]
fn parse_dec() {
    // Normal numbers
    assert_eq!(dec("012345").unwrap().1, 12345);
    assert_eq!(dec("13_37").unwrap().1, 1337);
    assert_eq!(dec("1_____33__7").unwrap().1, 1337);
    assert_eq!(dec("2021_09_29").unwrap().1, 20210929);

    // At least one digit required
    assert!(dec("").is_err());
    assert_eq!(dec("0").unwrap().1, 0);

    // Trailing garbage
    assert_eq!(dec("123abc").unwrap(), ("abc", 123));
    assert_eq!(dec("123_abc").unwrap(), ("_abc", 123));
    assert_eq!(dec("123.456").unwrap(), (".456", 123));

    // Underscores
    assert!(dec("_123").is_err());
    assert_eq!(dec("1___2__________________________3").unwrap().1, 123);
    assert_eq!(dec("123_").unwrap(), ("_", 123));

    // No signs allowed
    assert_eq!(dec("4").unwrap(), ("", 4));
    assert!(dec("-4").is_err());
    assert!(dec("+4").is_err());
}

#[test]
fn parse_hex() {
    // Normal numbers
    assert_eq!(hex("0xA83B40").unwrap().1, 0xA83B40);
    assert_eq!(hex("0X_CAFE_BABE").unwrap().1, 0x_CAFE_BABE);
    assert_eq!(hex("0x__1f__2e_c").unwrap().1, 0x1f2ec);
    assert_eq!(hex("0XaAaA_aaAAA").unwrap().1, 0xAAAAAAAAA);

    // Prefix required
    assert!(hex("1234").is_err());
    assert!(hex("fade").is_err());

    // At least one digit required
    assert!(hex("0x").is_err());
    assert_eq!(hex("0x0").unwrap().1, 0);

    // Trailing garbage
    assert_eq!(hex("0x123abcdefghi").unwrap(), ("ghi", 0x123abcdef));
    assert_eq!(hex("0x123_abc_def_ghi").unwrap(), ("_ghi", 0x123abcdef));
    assert_eq!(hex("0x12b.54c").unwrap(), (".54c", 0x12b));

    // Underscores
    assert!(hex("_0x123").is_err());
    assert_eq!(hex("0x_123").unwrap().1, 0x123);
    assert_eq!(hex("0x_1_____2__________3").unwrap().1, 0x123);
    assert_eq!(hex("0x123_").unwrap(), ("_", 0x123));

    // No signs allowed
    assert_eq!(hex("0x4").unwrap(), ("", 0x4));
    assert!(hex("-0x4").is_err());
    assert!(hex("+0x4").is_err());
    assert!(hex("0x-4").is_err());
    assert!(hex("0x+4").is_err());
}

#[test]
fn parse_bin() {
    // Normal numbers
    assert_eq!(bin("0b101001").unwrap().1, 0b101001);
    assert_eq!(bin("0B_1100_1001").unwrap().1, 0b11001001);
    assert_eq!(bin("0b__10__11_0").unwrap().1, 0b10110);
    assert_eq!(bin("0B11_11_00_00").unwrap().1, 0b11110000);

    // Prefix required
    assert!(bin("1234").is_err());
    assert!(bin("fade").is_err());

    // At least one digit required
    assert!(bin("0b").is_err());
    assert_eq!(bin("0b0").unwrap().1, 0);

    // Trailing garbage
    assert_eq!(bin("0b0123").unwrap(), ("23", 0b01));
    assert_eq!(bin("0b0_1_2_3").unwrap(), ("_2_3", 0b01));
    assert_eq!(bin("0b101.1101").unwrap(), (".1101", 0b101));

    // Underscores
    assert!(bin("_0b110").is_err());
    assert_eq!(bin("0b_100").unwrap().1, 0b100);
    assert_eq!(bin("0b_1_____1__________1").unwrap().1, 0b111);
    assert_eq!(bin("0b010_").unwrap(), ("_", 0b010));

    // No signs allowed
    assert_eq!(bin("0b1").unwrap(), ("", 0x1));
    assert!(bin("-0b1").is_err());
    assert!(bin("+0b1").is_err());
    assert!(bin("0b-1").is_err());
    assert!(bin("0b+1").is_err());
}

#[test]
fn parse_signed() {
    assert_eq!(signed(dec, "7_248_392").unwrap().1, 7248392);
    assert_eq!(signed(dec, "+7_248_392").unwrap().1, 7248392);
    assert_eq!(signed(dec, "-7_248_392").unwrap().1, -7248392);

    assert_eq!(signed(hex, "0xFEED_DAD").unwrap().1, 0xFEEDDAD);
    assert_eq!(signed(hex, "+0xFEED_DAD").unwrap().1, 0xFEEDDAD);
    assert_eq!(signed(hex, "-0xFEED_DAD").unwrap().1, -0xFEEDDAD);

    assert_eq!(signed(bin, "0b1110_110").unwrap().1, 0b1110110);
    assert_eq!(signed(bin, "+0b1110_110").unwrap().1, 0b1110110);
    assert_eq!(signed(bin, "-0b1110_110").unwrap().1, -0b1110110);
}

#[test]
fn parse_integer() {
    assert_eq!(integer("1423805").unwrap().1, 1423805);
    assert_eq!(integer("-1_423_805").unwrap().1, -1423805);

    assert_eq!(integer("0xDAD_15_DEAD").unwrap().1, 0xdad15dead);
    assert_eq!(integer("-0x92d29f").unwrap().1, -0x92d29f);

    assert_eq!(integer("0b1001_1110").unwrap().1, 0b10011110);
    assert_eq!(integer("-0b0011001").unwrap().1, -0b0011001);
}

#[test]
fn integer_keeps_the_rest_of_the_text() {
    assert_eq!(integer("-12 rest").unwrap(), (" rest", -12));
    assert_eq!(integer("+0x1fz").unwrap(), ("z", 0x1f));
    assert_eq!(integer("0xg").unwrap(), ("xg", 0));
    assert_eq!(integer("0b2").unwrap(), ("b2", 0));
    assert!(integer("").is_err());
    assert!(integer("-").is_err());
    assert!(integer("--1").is_err());
    assert!(integer("é1").is_err());
    assert_eq!(integer("1é").unwrap(), ("é", 1));
}

#[test]
fn number_that_does_not_fit_is_no_number() {
    assert_eq!(dec("9223372036854775807").unwrap().1, i64::MAX);
    assert!(dec("9223372036854775808").is_err());
    assert_eq!(integer("-9223372036854775807").unwrap().1, -i64::MAX);
    assert!(integer("-9223372036854775808").is_err());
    assert_eq!(hex("0x7fff_ffff_ffff_ffff").unwrap().1, i64::MAX);
    assert!(hex("0x8000_0000_0000_0000").is_err());
    assert_eq!(dec("000000000000000000000000000007").unwrap().1, 7);
}

#[test]
fn parse_bool() {
    assert_eq!(bool("true").unwrap(), ("", true));
    assert_eq!(bool("false").unwrap(), ("", false));
    assert_eq!(bool("truest").unwrap(), ("st", true));
    assert_eq!(bool("false, true").unwrap(), (", true", false));
    assert!(bool("").is_err());
    assert!(bool("tru").is_err());
    assert!(bool(" true").is_err());
    assert!(bool("True").is_err());
}

#[test]
fn parse_table() {
    assert_eq!(table("(*)").unwrap().0, "");
    assert!(table("(*)").unwrap().1.is_empty());
    assert_eq!(table(" \t\r\n(* \n) rest").unwrap().0, " rest");
    assert!(table("( *)").is_err());
    assert!(table("(*").is_err());
    assert!(table("").is_err());
    assert!(table("()").is_err());
}

#[test]
fn parse_value() {
    assert!(matches!(value("true!").unwrap(), ("!", Value::Bool(true))));
    assert!(matches!(value("false").unwrap(), ("", Value::Bool(false))));
    assert!(matches!(value("-0x1f,").unwrap(), (",", Value::Int(-31))));
    assert!(matches!(value("12").unwrap(), ("", Value::Int(12))));
    assert!(matches!(value(" (*)x").unwrap(), ("x", Value::Table(entries)) if entries.is_empty()));
    assert!(value("x").is_err());
    assert!(value("").is_err());
}
