//! Tests for the record handlers. Fractional payloads land in the record
//! as fixed-point integers in millionths of a unit, so 123.45 volts is
//! 123_450_000.

use dsmr_decoder::keys::ChildSlot;
use dsmr_decoder::record::EnergyKind;
use dsmr_decoder::record::NestingContext;
use dsmr_decoder::record::Phase;
use dsmr_decoder::record::Telegram;

#[test]
fn test_handle_voltage_p1_pass() {
    let mut telegram = Telegram::default();
    let payload = "123.45*V";

    let r = telegram.handle_voltage(payload, Phase::P1);

    assert!(r.is_ok());
    assert_eq!(telegram.voltage_p1, vec![123_450_000i64]);
    assert!(telegram.voltage_p2.is_empty());
    assert!(telegram.voltage_p3.is_empty());
}

#[test]
fn test_handle_voltage_p2_pass() {
    let mut telegram = Telegram::default();
    let payload = "123.45*V";

    let r = telegram.handle_voltage(payload, Phase::P2);

    assert!(r.is_ok());
    assert_eq!(telegram.voltage_p2, vec![123_450_000i64]);
    assert!(telegram.voltage_p1.is_empty());
    assert!(telegram.voltage_p3.is_empty());
}

#[test]
fn test_handle_voltage_p3_pass() {
    let mut telegram = Telegram::default();
    let payload = "123.45*V";

    let r = telegram.handle_voltage(payload, Phase::P3);

    assert!(r.is_ok());
    assert_eq!(telegram.voltage_p3, vec![123_450_000i64]);
    assert!(telegram.voltage_p1.is_empty());
    assert!(telegram.voltage_p2.is_empty());
}

#[test]
fn test_handle_current_p1_pass() {
    let mut telegram = Telegram::default();
    let payload = "123.45*A";

    let r = telegram.handle_current(payload, Phase::P1);

    assert!(r.is_ok());
    assert_eq!(telegram.current_p1, vec![123_450_000i64]);
    assert!(telegram.current_p2.is_empty());
    assert!(telegram.current_p3.is_empty());
}

#[test]
fn test_handle_current_p2_pass() {
    let mut telegram = Telegram::default();
    let payload = "123.45*A";

    let r = telegram.handle_current(payload, Phase::P2);

    assert!(r.is_ok());
    assert_eq!(telegram.current_p2, vec![123_450_000i64]);
    assert!(telegram.current_p1.is_empty());
    assert!(telegram.current_p3.is_empty());
}

#[test]
fn test_handle_current_p3_pass() {
    let mut telegram = Telegram::default();
    let payload = "123.45*A";

    let r = telegram.handle_current(payload, Phase::P3);

    assert!(r.is_ok());
    assert_eq!(telegram.current_p3, vec![123_450_000i64]);
    assert!(telegram.current_p1.is_empty());
    assert!(telegram.current_p2.is_empty());
}

#[test]
fn test_handle_power_p1_pass() {
    let mut telegram = Telegram::default();
    let payload = "123.45*kW";

    let r = telegram.handle_power(payload, Phase::P1);

    assert!(r.is_ok());
    assert_eq!(telegram.power_p1, vec![123_450_000i64]);
    assert!(telegram.power_p2.is_empty());
    assert!(telegram.power_p3.is_empty());
}

#[test]
fn test_handle_power_p2_pass() {
    let mut telegram = Telegram::default();
    let payload = "123.45*kW";

    let r = telegram.handle_power(payload, Phase::P2);

    assert!(r.is_ok());
    assert_eq!(telegram.power_p2, vec![123_450_000i64]);
    assert!(telegram.power_p1.is_empty());
    assert!(telegram.power_p3.is_empty());
}

#[test]
fn test_handle_power_p3_pass() {
    let mut telegram = Telegram::default();
    let payload = "123.45*kW";

    let r = telegram.handle_power(payload, Phase::P3);

    assert!(r.is_ok());
    assert_eq!(telegram.power_p3, vec![123_450_000i64]);
    assert!(telegram.power_p1.is_empty());
    assert!(telegram.power_p2.is_empty());
}

#[test]
fn test_handle_energy_consumption() {
    let mut telegram = Telegram::default();

    let payload = "123.45*kWh";
    let r = telegram.handle_energy(payload, EnergyKind::Consumption);

    assert!(r.is_ok());
    assert_eq!(telegram.energy_consumption, vec![123_450_000i64]);
}

#[test]
fn test_handle_energy_production() {
    let mut telegram = Telegram::default();

    let payload = "67.89*kWh";
    let r = telegram.handle_energy(payload, EnergyKind::Production);

    assert!(r.is_ok());
    assert_eq!(telegram.energy_production, vec![67_890_000i64]);
}

#[test]
fn test_handle_gas_consumption_g4() {
    // 5.0 cubic metres under model G4: scale factor one.
    let mut telegram = Telegram::default();
    let r = telegram.handle_gas_consumption(
        5_000_000,
        "G4",
        NestingContext::InChild(ChildSlot::Slot1),
    );
    assert!(r.is_ok());
    assert_eq!(telegram.child_telegram1.gas_consumption, vec![5_000_000i64]);
}

#[test]
fn test_handle_gas_consumption_g5() {
    // 5.0 cubic metres under model G5: scale factor ten.
    let mut telegram = Telegram::default();
    let r = telegram.handle_gas_consumption(
        5_000_000,
        "G5",
        NestingContext::InChild(ChildSlot::Slot1),
    );
    assert!(r.is_ok());
    assert_eq!(telegram.child_telegram1.gas_consumption, vec![50_000_000i64]);
}

#[test]
fn test_handle_gas_consumption_g6() {
    // 5.0 cubic metres under model G6: scale factor one hundred.
    let mut telegram = Telegram::default();
    let r = telegram.handle_gas_consumption(
        5_000_000,
        "G6",
        NestingContext::InChild(ChildSlot::Slot1),
    );
    assert!(r.is_ok());
    assert_eq!(telegram.child_telegram1.gas_consumption, vec![500_000_000i64]);
}

#[test]
fn test_handle_gas_consumption_unknown_model() {
    // Any model code other than G4, G5, G6 aborts the decode.
    let mut telegram = Telegram::default();
    let r = telegram.handle_gas_consumption(5_000_000, "G7", NestingContext::Root);
    assert!(r.is_err());
    assert!(telegram.gas_consumption.is_empty());
    assert!(telegram.child_telegram1.gas_consumption.is_empty());
}

#[test]
fn test_handle_gas_consumption_root_context() {
    let mut telegram = Telegram::default();
    let r = telegram.handle_gas_consumption(1_500_000, "G5", NestingContext::Root);
    assert!(r.is_ok());
    assert_eq!(telegram.gas_consumption, vec![15_000_000i64]);
    assert!(telegram.child_telegram1.gas_consumption.is_empty());
}

#[test]
fn test_handle_water_pass() {
    let payload = "1234*L";
    let mut telegram = Telegram::default();
    let r = telegram.handle_water(payload);
    assert!(r.is_ok());
    assert_eq!(telegram.water_consumption, vec![1234u64]);
}

#[test]
fn test_handle_water_bad_payload() {
    let mut telegram = Telegram::default();
    let r = telegram.handle_water("12.5*L");
    assert!(r.is_err());
    assert!(telegram.water_consumption.is_empty());
}

#[test]
fn test_handle_voltage_bad_payload() {
    let mut telegram = Telegram::default();
    let r = telegram.handle_voltage("volts*V", Phase::P1);
    assert!(r.is_err());
    assert!(telegram.voltage_p1.is_empty());
}
