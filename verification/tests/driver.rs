use sgp40::{
    check_word, command_frame, command_frame_with_args, u16_from_be_bytes, u16_to_be_bytes, Action,
    Command, Error, Event, I2cHelperError, Sgp40Async, Stage, Transaction, MEASURE_TEST_OK,
};

fn crc(hi: u8, lo: u8) -> u8 {
    let mut c: u8 = 0xff;
    for b in [hi, lo] {
        c ^= b;
        for _ in 0..8 {
            c = if c & 0x80 != 0 { (c << 1) ^ 0x31 } else { c << 1 };
        }
    }
    c
}

fn sensor() -> Sgp40Async<(), ()> {
    Sgp40Async::new((), 0x59, ())
}

#[test]
fn command_codes_and_delays() {
    assert_eq!(Command::MeasurementRaw.as_tuple(), (0x260f, 30));
    assert_eq!(Command::Serial.as_tuple(), (0x3682, 1));
    assert_eq!(Command::HeaterOff.as_tuple(), (0x3615, 1));
    assert_eq!(Command::MeasureTest.as_tuple(), (0x280e, 250));
    assert_eq!(Command::SoftReset.as_tuple(), (0x0006, 1));
}

#[test]
fn new_driver_has_address_and_no_offset() {
    let s = sensor();
    assert_eq!(s.address(), 0x59);
    assert_eq!(s.get_temperature_offset(), 0);
}

#[test]
fn big_endian_conversions() {
    assert_eq!(u16_to_be_bytes(0x260f), [0x26, 0x0f]);
    assert_eq!(u16_from_be_bytes(0xd4, 0x00), 0xd400);
    assert_eq!(u16_from_be_bytes(0x12, 0x34), 0x1234);
}

#[test]
fn crc_of_datasheet_example() {
    assert!(check_word(&[0xbe, 0xef, 0x92]));
    assert!(!check_word(&[0xbe, 0xef, 0x91]));
    assert!(check_word(&[0x00, 0x00, 0x81]));
}

#[test]
fn frame_without_arguments_is_the_code() {
    assert_eq!(command_frame(Command::Serial), vec![0x36, 0x82]);
    assert_eq!(command_frame(Command::SoftReset), vec![0x00, 0x06]);
    assert_eq!(command_frame_with_args(Command::HeaterOff, &[]), vec![0x36, 0x15]);
}

#[test]
fn frame_with_arguments_carries_checksums() {
    assert_eq!(
        command_frame_with_args(Command::MeasurementRaw, &[0xbe, 0xef]),
        vec![0x26, 0x0f, 0xbe, 0xef, 0x92]
    );
    let f = command_frame_with_args(Command::MeasurementRaw, &[0x12, 0x34, 0x56, 0x78, 0x9a, 0xbc, 0xde, 0xf0]);
    assert_eq!(
        f,
        vec![0x26, 0x0f, 0x12, 0x34, 0x37, 0x56, 0x78, 0x7d, 0x9a, 0xbc, 0xe0, 0xde, 0xf0, 0xaa]
    );
    for k in 0..4 {
        let w = [f[2 + 3 * k], f[3 + 3 * k], f[4 + 3 * k]];
        assert!(check_word(&w));
    }
}

#[test]
fn convert_rht_defaults() {
    assert_eq!(sensor().convert_rht(50000, 25000), (32763, 26250));
}

#[test]
fn convert_rht_caps_humidity_and_clamps_temperature() {
    let s = sensor();
    assert_eq!(s.convert_rht(200000, 0).0, 65527);
    assert_eq!(s.convert_rht(100000, 0).0, 65527);
    assert_eq!(s.convert_rht(0, -50000).1, 0);
    assert_eq!(s.convert_rht(0, -45000).1, 0);
    assert_eq!(s.convert_rht(0, 200000).1, 65535);
    assert_eq!(s.convert_rht(0, 129760).1, 65535);
}

#[test]
fn temperature_offset_is_set_not_added() {
    let mut s = sensor();
    s.set_temperature_offset(400);
    assert_eq!(s.get_temperature_offset(), 400);
    s.set_temperature_offset(-200);
    assert_eq!(s.get_temperature_offset(), -200);
}

#[test]
fn temperature_offset_has_scale_200_per_degree() {
    let mut s = sensor();
    // +400 is +2.00 degrees: 23000 is compensated to 25000
    s.set_temperature_offset(400);
    assert_eq!(s.convert_rht(50000, 23000), (32763, 26250));
    assert_eq!(s.convert_rht(0, 0), sensor().convert_rht(0, 2000));
    let t = s.measure_raw_with_rht_transaction(50000, 23000);
    assert_eq!(&t.frame()[5..7], &[0x66, 0x8a]);
    s.set_temperature_offset(-200);
    assert_eq!(s.convert_rht(0, 1000), sensor().convert_rht(0, 0));
}

#[test]
fn measure_raw_frame() {
    let s = sensor();
    let t = s.measure_raw_transaction();
    assert_eq!(t.frame(), &[0x26, 0x0f, 0x7f, 0xfb, 0x4b, 0x66, 0x8a, 0x2f]);
    assert_eq!(t.data(), &[0, 0, 0]);
    assert_eq!(t.stage(), Stage::Idle);
    let u = s.measure_raw_with_rht_transaction(50000, 25000);
    assert_eq!(u.frame(), t.frame());
}

fn run_ok(mut t: Transaction, delay: u32, replies: &[[u8; 3]]) -> Transaction {
    assert_eq!(t.step::<()>(Event::Start).unwrap(), Action::Write(0x59));
    assert_eq!(t.step::<()>(Event::Written(Ok(()))).unwrap(), Action::Delay(delay));
    let mut next = t.step::<()>(Event::Waited).unwrap();
    for (i, r) in replies.iter().enumerate() {
        assert_eq!(next, Action::Read(0x59));
        next = t.step::<()>(Event::Received(Ok(*r))).unwrap();
        if i + 1 < replies.len() {
            assert_eq!(t.stage(), Stage::Reading);
        }
    }
    assert_eq!(next, Action::Done);
    assert_eq!(t.stage(), Stage::Finished);
    t
}

#[test]
fn self_test_passes_on_d400() {
    let s = sensor();
    let t = run_ok(s.self_test_transaction(), 250, &[[0xd4, 0x00, 0xc6]]);
    assert_eq!(t.frame(), &[0x28, 0x0e]);
    assert_eq!(t.data(), &[0xd4, 0x00, 0x00]);
    assert!(s.self_test_outcome::<()>(t.data()).is_ok());
    assert_eq!(MEASURE_TEST_OK, 0xd400);
}

#[test]
fn self_test_fails_on_other_word() {
    let s = sensor();
    let t = run_ok(s.self_test_transaction(), 250, &[[0x4b, 0x00, 0x12]]);
    assert!(matches!(s.self_test_outcome::<()>(t.data()), Err(Error::SelfTest)));
}

#[test]
fn measure_raw_reads_one_word() {
    let s = sensor();
    let t = run_ok(s.measure_raw_transaction(), 30, &[[0x80, 0x00, 0xa2]]);
    assert_eq!(s.measure_raw_outcome(t.data()), 0x8000);
}

#[test]
fn heater_off_and_reset_read_nothing() {
    let s = sensor();
    let t = run_ok(s.turn_heater_off_transaction(), 1, &[]);
    assert_eq!(t.frame(), &[0x36, 0x15]);
    let t = run_ok(s.reset_transaction(), 1, &[]);
    assert_eq!(t.frame(), &[0x00, 0x06]);
    assert!(t.data().is_empty());
}

#[test]
fn serial_reads_three_words() {
    let s = sensor();
    let t = run_ok(
        s.serial_transaction(),
        1,
        &[[0x01, 0x23, crc(0x01, 0x23)], [0x45, 0x67, crc(0x45, 0x67)], [0x89, 0xab, crc(0x89, 0xab)]],
    );
    assert_eq!(t.frame(), &[0x36, 0x82]);
    assert_eq!(t.data(), &[0x01, 0x23, 0x45, 0x67, 0x89, 0xab]);
    assert_eq!(s.serial_outcome(t.data()), 0x0123_4567_89ab);
    assert_eq!(s.serial_outcome(&[0xff; 6]), (1 << 48) - 1);
}

#[test]
fn write_error_ends_exchange() {
    let mut t = sensor().serial_transaction();
    assert_eq!(t.step::<u8>(Event::Start).unwrap(), Action::Write(0x59));
    assert!(matches!(t.step::<u8>(Event::Written(Err(7))), Err(Error::I2c(7))));
    assert_eq!(t.stage(), Stage::Failed);
    assert!(!t.accepts::<u8>(&Event::Waited));
}

#[test]
fn read_error_ends_exchange() {
    let mut t = sensor().self_test_transaction();
    t.step::<u8>(Event::Start).unwrap();
    t.step::<u8>(Event::Written(Ok(()))).unwrap();
    assert_eq!(t.step::<u8>(Event::Waited).unwrap(), Action::Read(0x59));
    assert!(matches!(t.step::<u8>(Event::Received(Err(3))), Err(Error::I2c(3))));
    assert_eq!(t.stage(), Stage::Failed);
}

#[test]
fn corrupt_word_fails_with_crc() {
    let mut t = sensor().serial_transaction();
    t.step::<u8>(Event::Start).unwrap();
    t.step::<u8>(Event::Written(Ok(()))).unwrap();
    t.step::<u8>(Event::Waited).unwrap();
    assert_eq!(t.step::<u8>(Event::Received(Ok([0x12, 0x34, 0x37]))).unwrap(), Action::Read(0x59));
    assert!(matches!(t.step::<u8>(Event::Received(Ok([0x56, 0x78, 0x00]))), Err(Error::Crc)));
    assert_eq!(t.stage(), Stage::Failed);
    assert_eq!(t.data(), &[0x12, 0x34, 0, 0, 0, 0]);
}

#[test]
fn accepts_follows_the_stage() {
    let mut t = Transaction::delayed_read_cmd(0x59, Command::MeasureTest, 3);
    assert!(t.accepts::<()>(&Event::Start));
    assert!(!t.accepts::<()>(&Event::Waited));
    t.step::<()>(Event::Start).unwrap();
    assert!(t.accepts::<()>(&Event::Written(Ok(()))));
    assert!(!t.accepts::<()>(&Event::Received(Ok([0, 0, 0x81]))));
}

#[test]
fn transaction_builders() {
    let t = Transaction::write_command_with_args(0x59, Command::MeasurementRaw, &[0xbe, 0xef]);
    assert_eq!(t.frame(), &[0x26, 0x0f, 0xbe, 0xef, 0x92]);
    assert!(t.data().is_empty());
    let t = t.then_read_words_with_crc(5);
    assert_eq!(t.data(), &[0, 0, 0, 0, 0]);
    let mut t = Transaction::write_command(0x44, Command::Serial);
    assert_eq!(t.frame(), &[0x36, 0x82]);
    assert_eq!(t.step::<()>(Event::Start).unwrap(), Action::Write(0x44));
}

#[test]
fn helper_errors_map_to_driver_errors() {
    assert!(matches!(Error::from_i2c_error(I2cHelperError::I2cWrite(1u8)), Error::I2c(1)));
    assert!(matches!(Error::from_i2c_error(I2cHelperError::I2cRead(2u8)), Error::I2c(2)));
    assert!(matches!(Error::<u8>::from_i2c_error(I2cHelperError::Crc), Error::Crc));
}
