use gi_status::battery::{
    get_main_battery_name, main_can_be_told, number_of_battery, read_number, Batteries, Battery, BatteryFiles,
    BatteryStatus,
};
use gi_status::output::{Field, FieldValue, FormatOutputType, Output, Reading};
use gi_status::text::{has_prefix, keep_with_prefix};
use gi_status::error::Error;
use gi_status::timestamp::Timestamp;

fn names(list: &[&str]) -> Vec<String> {
    list.iter().map(|s| s.to_string()).collect()
}

fn files(name: &str, charge_full: &str) -> BatteryFiles {
    BatteryFiles {
        path: format!("/sys/class/power_supply/{}", name),
        name: name.to_string(),
        charge_full: charge_full.to_string(),
    }
}

#[test]
fn prefixes_are_told() {
    assert!(has_prefix("BAT0", "BAT"));
    assert!(has_prefix("BAT", "BAT"));
    assert!(has_prefix("BAT", ""));
    assert!(!has_prefix("BA", "BAT"));
    assert!(!has_prefix("aBAT0", "BAT"));
    assert_eq!(keep_with_prefix(&names(&["AC", "BAT1", "hid", "BAT0"]), "BAT"), names(&["BAT1", "BAT0"]));
}

#[test]
fn battery_numbers_are_read() {
    assert_eq!(number_of_battery("BAT0"), Some(0));
    assert_eq!(number_of_battery("BAT255"), Some(255));
    assert_eq!(number_of_battery("BAT256"), None);
    assert_eq!(number_of_battery("BAT+7"), Some(7));
    assert_eq!(number_of_battery("BAT-0"), None);
    assert_eq!(number_of_battery("BAT007"), Some(7));
    assert_eq!(number_of_battery("BAT"), None);
    assert_eq!(number_of_battery("BATx"), None);
    assert_eq!(number_of_battery("AC0"), None);
}

#[test]
fn numbers_are_read_from_the_files() {
    assert_eq!(read_number("4567000"), Ok(4_567_000));
    assert_eq!(read_number("-12"), Ok(-12));
    assert_eq!(read_number("+12"), Ok(12));
    assert_eq!(read_number("-0"), Ok(0));
    assert_eq!(read_number("2147483647"), Ok(i32::MAX));
    assert_eq!(read_number("-2147483648"), Ok(i32::MIN));
    assert_eq!(read_number("2147483648"), Err(Error::ParseInt { text: "2147483648".to_string() }));
    assert_eq!(read_number(""), Err(Error::ParseInt { text: "".to_string() }));
    assert_eq!(read_number("-"), Err(Error::ParseInt { text: "-".to_string() }));
    assert_eq!(read_number("12 "), Ok(12));
    assert_eq!(read_number("4321000\n"), Ok(4_321_000));
    assert_eq!(read_number("5 \t\r\n"), Ok(5));
    assert_eq!(read_number("5\u{a0}\u{2003}\u{3000}"), Ok(5));
    assert_eq!(read_number(" 12"), Err(Error::ParseInt { text: " 12".to_string() }));
    assert_eq!(read_number("1 2\n"), Err(Error::ParseInt { text: "1 2".to_string() }));
    assert_eq!(read_number("12x\n"), Err(Error::ParseInt { text: "12x".to_string() }));
    assert_eq!(read_number("3000000000\n"), Err(Error::ParseInt { text: "3000000000".to_string() }));
    assert_eq!(read_number("\n"), Err(Error::ParseInt { text: "".to_string() }));
    assert_eq!(read_number("5\u{200b}"), Err(Error::ParseInt { text: "5\u{200b}".to_string() }));
    assert_eq!(read_number("1.5"), Err(Error::ParseInt { text: "1.5".to_string() }));
    let b = Battery { path: "/p".to_string(), name: "BAT0".to_string(), charge_full: 5 };
    assert_eq!(b.get_charge_now("3000"), Ok(3000));
    assert_eq!(b.get_charge_now("4321000\n"), Ok(4_321_000));
    assert_eq!(b.get_charge_now("5\n"), Ok(5));
    assert_eq!(b.get_charge_now(" 5"), Err(Error::ParseInt { text: " 5".to_string() }));
    assert_eq!(b.get_current_now("-250"), Ok(-250));
    assert_eq!(b.get_current_now("-250\n"), Ok(-250));
    assert_eq!(b.get_current_now("fast\n"), Err(Error::ParseInt { text: "fast".to_string() }));
}

#[test]
fn status_is_read_from_the_file() {
    let b = Battery { path: "/p".to_string(), name: "BAT0".to_string(), charge_full: 5 };
    assert_eq!(b.get_status("Not charging\n"), Ok(BatteryStatus::NotCharging));
    assert_eq!(b.get_status("Full"), Ok(BatteryStatus::Full));
    assert_eq!(b.get_status("Charging  \n\n"), Ok(BatteryStatus::Charging));
    assert_eq!(b.get_status(" Charging\n"), Err(Error::InvalidBatteryStatus { status: " Charging".to_string() }));
    assert_eq!(b.get_status("Idle\n"), Err(Error::InvalidBatteryStatus { status: "Idle".to_string() }));
    assert_eq!(b.get_status("\n"), Err(Error::InvalidBatteryStatus { status: "".to_string() }));
}

#[test]
fn main_battery_is_the_lowest_numbered() {
    assert_eq!(get_main_battery_name(&names(&["AC", "BAT1"])), Ok("BAT1".to_string()));
    assert_eq!(get_main_battery_name(&names(&["BAT2", "AC", "BAT0", "BAT1"])), Ok("BAT0".to_string()));
    assert_eq!(get_main_battery_name(&names(&["BAT10", "BAT9"])), Ok("BAT9".to_string()));
    assert_eq!(get_main_battery_name(&names(&["BATx"])), Ok("BATx".to_string()));
    assert_eq!(
        get_main_battery_name(&names(&["AC"])),
        Err(Error::NoBatteriesFound { path: "/sys/class/power_supply".to_string() })
    );
    assert_eq!(
        get_main_battery_name(&Vec::new()),
        Err(Error::NoBatteriesFound { path: "/sys/class/power_supply".to_string() })
    );
}

#[test]
fn main_battery_can_be_told_where_names_are_numbered() {
    assert!(main_can_be_told(&Vec::new()));
    assert!(main_can_be_told(&names(&["AC", "BATx"])));
    assert!(main_can_be_told(&names(&["BAT0", "BAT1", "ACx"])));
    assert!(!main_can_be_told(&names(&["BAT0", "BATx"])));
    assert!(!main_can_be_told(&names(&["BAT", "BAT1"])));
}

#[test]
fn batteries_are_made_of_what_was_found() {
    let found = vec![files("AC", ""), files("BAT1", "5000000\n"), files("BAT0", "4000000")];
    assert!(Batteries::can_init(&found));
    let b = Batteries::init(&found).ok().unwrap();
    assert_eq!(b.main_battery_name, "BAT0");
    assert_eq!(b.items.len(), 2);
    assert_eq!(b.items[0].name, "BAT1");
    assert_eq!(b.items[0].path, "/sys/class/power_supply/BAT1");
    assert_eq!(b.items[0].charge_full, 5_000_000);
    assert_eq!(b.items[1].name, "BAT0");
    assert_eq!(b.items[1].charge_full, 4_000_000);
    assert_eq!(b.get_main_battery().unwrap().charge_full, 4_000_000);
}

#[test]
fn the_main_battery_has_the_lowest_number() {
    let found = vec![files("BAT2", "1\n"), files("BAT0", "2\n"), files("BAT1", "3\n")];
    let b = Batteries::init(&found).ok().unwrap();
    assert_eq!(b.main_battery_name, "BAT0");
    assert_eq!(b.get_main_battery().unwrap().charge_full, 2);
    let found = vec![files("BAT7", "1\n"), files("BAT9", "2\n"), files("BAT8", "3\n")];
    assert_eq!(Batteries::init(&found).ok().unwrap().main_battery_name, "BAT7");
    let found = vec![files("BATx", "1\n")];
    assert_eq!(Batteries::init(&found).ok().unwrap().main_battery_name, "BATx");
}

#[test]
fn batteries_fail_on_the_first_unreadable_charge_or_without_battery() {
    let found = vec![files("BAT0", "full\n"), files("BAT1", "empty")];
    assert_eq!(Batteries::init(&found).err(), Some(Error::ParseInt { text: "full".to_string() }));
    let found = vec![files("BATa", "5\n"), files("BATb", "none\n")];
    assert!(Batteries::can_init(&found));
    assert_eq!(Batteries::init(&found).err(), Some(Error::ParseInt { text: "none".to_string() }));
    assert!(!Batteries::can_init(&vec![files("BATa", "5\n"), files("BATb", "6\n")]));
    assert!(Batteries::can_init(&vec![files("BATa", "5\n")]));
    assert!(Batteries::can_init(&Vec::new()));
    let found = vec![files("AC", "nothing")];
    assert_eq!(
        Batteries::init(&found).err(),
        Some(Error::NoBatteriesFound { path: "/sys/class/power_supply".to_string() })
    );
    assert_eq!(
        Batteries::init(&Vec::new()).err(),
        Some(Error::NoBatteriesFound { path: "/sys/class/power_supply".to_string() })
    );
}

#[test]
fn readings_are_shown_in_each_way_of_writing() {
    let raw = FormatOutputType::Raw;
    let plain = FormatOutputType::NoSymbols;
    let full = FormatOutputType::Formatted;
    assert_eq!(Reading::ChargeNow(4_567_890).field_value(raw), FieldValue::I32(4_567_890));
    assert_eq!(Reading::ChargeNow(4_567_890).field_value(plain), FieldValue::I32(4_567_890));
    assert_eq!(Reading::ChargeNow(4_567_890).field_value(full), FieldValue::String("4567mAh".to_string()));
    assert_eq!(Reading::ChargeFull(5_000_999).field_value(raw), FieldValue::I32(5_000_999));
    assert_eq!(Reading::ChargeFull(5_000_999).field_value(plain), FieldValue::I32(5_000));
    assert_eq!(Reading::ChargeFull(5_000_999).field_value(full), FieldValue::String("5000mAh".to_string()));
    assert_eq!(Reading::CurrentNow(-1_234_567).field_value(raw), FieldValue::I32(-1_234_567));
    assert_eq!(Reading::CurrentNow(-1_234_567).field_value(plain), FieldValue::I32(-1_234));
    assert_eq!(Reading::CurrentNow(-1_234_567).field_value(full), FieldValue::String("-1234mA".to_string()));
    let charging = Reading::TimeRemaining { status: BatteryStatus::Charging, seconds: 3_723 };
    assert_eq!(charging.field_value(raw), FieldValue::U64(3_723));
    assert_eq!(charging.field_value(plain), FieldValue::Timestamp(Timestamp { hours: 1, minutes: 2, seconds: 3 }));
    assert_eq!(charging.field_value(full), FieldValue::String("01:02:03".to_string()));
    let idle = Reading::TimeRemaining { status: BatteryStatus::Full, seconds: 3_723 };
    assert_eq!(idle.field_value(raw), FieldValue::U64(0));
    assert_eq!(idle.field_value(full), FieldValue::String("00:00:00".to_string()));
    let unknown = Reading::TimeRemaining { status: BatteryStatus::Unknown, seconds: 9 };
    assert_eq!(unknown.field_value(raw), FieldValue::U64(0));
    let resting = Reading::TimeRemaining { status: BatteryStatus::NotCharging, seconds: 9 };
    assert_eq!(resting.field_value(raw), FieldValue::U64(0));
    let draining = Reading::TimeRemaining { status: BatteryStatus::Discharging, seconds: 9 };
    assert_eq!(draining.field_value(raw), FieldValue::U64(9));
    assert_eq!(Reading::Status(BatteryStatus::NotCharging).field_value(raw), FieldValue::String("Not charging".to_string()));
    assert_eq!(Reading::Status(BatteryStatus::Full).info_name().as_str(), "status");
    assert_eq!(charging.info_name().as_str(), "time_remaining");
}

#[test]
fn output_is_joined_by_the_separator() {
    let fields = vec![
        Field::new("charge_now", FieldValue::I32(-5)),
        Field::new("time_remaining", FieldValue::Timestamp(Timestamp { hours: 0, minutes: 7, seconds: 30 })),
        Field::new("status", FieldValue::String("Full".to_string())),
        Field::new("n", FieldValue::U64(u64::MAX)),
    ];
    assert_eq!(Output::new(fields, Some(", ")).to_string(), "-5, 00:07:30, Full, 18446744073709551615");
    assert_eq!(Output::new(vec![Field::new("n", FieldValue::I32(i32::MIN))], Some(" ")).to_string(), "-2147483648");
    assert_eq!(Output::new(Vec::new(), Some(" ")).to_string(), "");
    assert_eq!(
        Output::new(vec![Field::new("a", FieldValue::U64(0)), Field::new("b", FieldValue::U64(10))], Some("")).to_string(),
        "010"
    );
}
