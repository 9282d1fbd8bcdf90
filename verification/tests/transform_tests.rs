//! Tests for the delta and windowing transforms.

use dsmr_decoder::transforms::vector_current;
use dsmr_decoder::transforms::vector_energy;
use dsmr_decoder::transforms::vector_gas;
use dsmr_decoder::transforms::vector_voltage;
use dsmr_decoder::transforms::vector_water;
use dsmr_decoder::transforms::CurrentData;
use dsmr_decoder::transforms::EnergyData;
use dsmr_decoder::transforms::GasData;
use dsmr_decoder::transforms::VoltageData;
use dsmr_decoder::transforms::WaterData;

#[test]
fn test_vector_water_pass() {
    let consumed: Vec<u64> = vec![0];
    let time: Vec<i64> = vec![1072914282];
    let result = vector_water(consumed, time);

    let expected = vec![WaterData { water_delta: 0, timestamp: 1072914282 }];
    assert_eq!(result, expected);
}

#[test]
fn test_vector_water_fail() {
    let consumed: Vec<u64> = vec![0, 1, 2, 3, 4, 5, 6, 7, 8, 9, 10, 11, 12, 13, 14];
    let time: Vec<i64> = vec![
        1072914282, 1072914283, 1072914284, 1072914285, 1072914286, 1072914287, 1072914288,
        1072914289, 1072914290, 1072914291, 1072914292, 1072914293, 1072914294, 1072914295,
    ];
    let result = vector_water(consumed, time);

    let expected = vec![WaterData { water_delta: 0, timestamp: 1072914282 }];
    assert_ne!(result, expected);
}

#[test]
fn test_vector_water_deltas() {
    let consumed: Vec<u64> = vec![100, 110, 125];
    let time: Vec<i64> = vec![10, 20, 30];
    let result = vector_water(consumed, time);
    assert_eq!(
        result,
        vec![
            WaterData { water_delta: 0, timestamp: 10 },
            WaterData { water_delta: 10, timestamp: 20 },
            WaterData { water_delta: 15, timestamp: 30 },
        ]
    );
}

#[test]
fn test_vector_energy_pass() {
    let produced: Vec<i64> = vec![0];
    let consumed: Vec<i64> = vec![0];
    let time: Vec<i64> = vec![1072914282];
    let result = vector_energy(produced, consumed, time);

    let expected = vec![EnergyData { produced: 0, consumed: 0, timestamp: 1072914282 }];
    assert_eq!(result, expected);
}

#[test]
fn test_vector_energy_fail() {
    // 0.0 .. 14.0 kilowatt-hours, in millionths.
    let produced: Vec<i64> = (0..15).map(|x: i64| x * 1_000_000).collect();
    let consumed: Vec<i64> = (0..15).map(|x: i64| x * 1_000_000).collect();
    let time: Vec<i64> = vec![
        1072914282, 1072914283, 1072914284, 1072914285, 1072914286, 1072914287, 1072914288,
        1072914289, 1072914290, 1072914291, 1072914292, 1072914293, 1072914294, 1072914295,
    ];
    let result = vector_energy(produced, consumed, time);

    let expected = vec![EnergyData { produced: 0, consumed: 0, timestamp: 1072914282 }];
    assert_ne!(result, expected);
}

#[test]
fn test_vector_energy_long_input_keeps_every_sample() {
    // More samples than the twelve-slot window: the windowing buffers
    // intermediates only, the output still has one delta per input.
    let produced: Vec<i64> = (0..20).map(|x: i64| x * 2_000_000).collect();
    let consumed: Vec<i64> = (0..20).map(|x: i64| x * 3_000_000).collect();
    let time: Vec<i64> = (0..20).map(|x: i64| 1000 + x).collect();
    let result = vector_energy(produced, consumed, time);
    assert_eq!(result.len(), 20);
    assert_eq!(result[0], EnergyData { produced: 0, consumed: 0, timestamp: 1000 });
    for i in 1..20 {
        assert_eq!(
            result[i],
            EnergyData { produced: 2_000_000, consumed: 3_000_000, timestamp: 1000 + i as i64 }
        );
    }
}

#[test]
fn test_vector_gas_pass() {
    let consumed: Vec<i64> = vec![0];
    let time: Vec<i64> = vec![1072914282];
    let result = vector_gas(consumed, time);

    let expected = vec![GasData { gas_delta: 0, timestamp: 1072914282 }];
    assert_eq!(result, expected);
}

#[test]
fn test_vector_gas_fail() {
    let consumed: Vec<i64> = (0..15).map(|x: i64| x * 1_000_000).collect();
    let time: Vec<i64> = vec![
        1072914282, 1072914283, 1072914284, 1072914285, 1072914286, 1072914287, 1072914288,
        1072914289, 1072914290, 1072914291, 1072914292, 1072914293, 1072914294, 1072914295,
    ];
    let result = vector_gas(consumed, time);

    let expected = vec![GasData { gas_delta: 0, timestamp: 1072914282 }];
    assert_ne!(result, expected);
}

#[test]
fn test_vector_voltage() {
    let voltage_p1: Vec<i64> = vec![0];
    let voltage_p2: Vec<i64> = vec![0];
    let voltage_p3: Vec<i64> = vec![0];
    let time_stamp: Vec<i64> = vec![1234567890];

    let result = vector_voltage(voltage_p1, voltage_p2, voltage_p3, time_stamp);
    let expected =
        vec![VoltageData { phase_1: 0, phase_2: 0, phase_3: 0, timestamp: 1234567890 }];

    assert_eq!(result, expected);
}

#[test]
fn test_vector_current() {
    let current_p1: Vec<i64> = vec![0];
    let current_p2: Vec<i64> = vec![0];
    let current_p3: Vec<i64> = vec![0];
    let time_stamp: Vec<i64> = vec![1234567890];

    let result = vector_current(current_p1, current_p2, current_p3, time_stamp);
    let expected =
        vec![CurrentData { phase_1: 0, phase_2: 0, phase_3: 0, timestamp: 1234567890 }];

    assert_eq!(result, expected);
}

#[test]
fn test_vector_voltage_truncates_to_shortest() {
    let result = vector_voltage(
        vec![1, 2, 3],
        vec![4, 5],
        vec![6, 7, 8],
        vec![100, 200, 300],
    );
    assert_eq!(
        result,
        vec![
            VoltageData { phase_1: 1, phase_2: 4, phase_3: 6, timestamp: 100 },
            VoltageData { phase_1: 2, phase_2: 5, phase_3: 7, timestamp: 200 },
        ]
    );
}
