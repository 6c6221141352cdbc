use amqpiothub::sensor::{AppBootLoaderActions, MeasureRegister, MeasurementModes, Registers, CS811};

#[test]
fn it_works() {
    let test = MeasureRegister { threshold: 0, dataready: 0, drivemode: MeasurementModes::Minute.value() };
    let bytes_array: Vec<u8> = test.into_bytes();
    println!("{:?}", bytes_array);
    assert_eq!(bytes_array, vec![0, 0, 0, 0, 1, 1, 0, 0]);

    let test = MeasureRegister { threshold: 0, dataready: 0, drivemode: MeasurementModes::Minute.value() };
    let byte: u8 = test.into_byte();
    println!("{}", byte);
    assert_eq!(byte, 48);
}

#[test]
fn register_bits_for_each_mode() {
    let bits = |m: u8| MeasureRegister { threshold: 1, dataready: 1, drivemode: m }.into_bytes();
    assert_eq!(bits(0), vec![0, 0, 1, 1, 0, 0, 0, 0]);
    assert_eq!(bits(1), vec![0, 0, 1, 1, 1, 0, 0, 0]);
    assert_eq!(bits(2), vec![0, 0, 1, 1, 0, 1, 0, 0]);
    assert_eq!(bits(4), vec![0, 0, 1, 1, 0, 0, 1, 0]);
    assert_eq!(MeasureRegister { threshold: 1, dataready: 1, drivemode: 4 }.into_byte(), 76);
}

#[test]
fn codes() {
    assert_eq!(MeasurementModes::Idle.value(), 0);
    assert_eq!(MeasurementModes::Fast.value(), 4);
    assert_eq!(MeasurementModes::TenSeconds.to_string(), "Ten seconds");
    assert_eq!(AppBootLoaderActions::Start.value(), 0xF4);
    assert_eq!(AppBootLoaderActions::Erase.to_string(), "Erase");
    assert_eq!(Registers::HardwareID.value(), 0x20);
    assert_eq!(Registers::ErrorID.value(), 0xE0);
    assert_eq!(Registers::SoftReset.value(), 0xFF);
    assert_eq!(Registers::NtcResistor.value(), 0x06);
}

#[test]
fn sensor_state_and_reads() {
    let mut sensor = CS811::new(String::from("CO Quality"), 0x5a);
    assert_eq!(sensor.measurement_mode(), MeasurementModes::Idle);
    assert_eq!(sensor.address(), 0x5a);
    assert_eq!(sensor.set_measurement_mode(MeasurementModes::Second), (0x01, 0x10));
    assert_eq!(sensor.measurement_mode(), MeasurementModes::Second);
    assert_eq!(CS811::two_byte_to_one([0x01, 0x90]), 400);
    assert_eq!(CS811::two_byte_to_one([0xff, 0xff]), 65535);
    assert_eq!(CS811::get_ntc_values([0x12, 0x34, 0x00, 0x07]), [0x1234, 7]);
    assert_eq!(sensor.to_string(), "Sensor CS811 with name CO Quality and address 90");
}
