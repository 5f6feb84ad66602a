//! The driver instance: the bus and delay handles it owns, the sensor's
//! address and the temperature compensation offset, and for each operation
//! the exchange it runs and the decoding of its reply.
use vstd::prelude::*;
use crate::{Command, Error};
use crate::frame::{be_bytes, be_value, frame_of, u16_from_be_bytes, u16_to_be_bytes};
use crate::transaction::{Stage, Transaction};

verus! {

/// The reply word of a passed self test.
pub const MEASURE_TEST_OK: u16 = 0xd400;

/// The humidity (in thousandths of a percent) that `measure_raw` assumes.
pub const DEFAULT_HUMIDITY: u16 = 50000;

/// The temperature (in thousandths of a degree Celsius) that `measure_raw`
/// assumes.
pub const DEFAULT_TEMPERATURE: i16 = 25000;

/// Humidity in thousandths of a percent, capped at 100 %.
pub open spec fn capped_humidity(humidity: int) -> int {
    if humidity > 100000 {
        100000
    } else {
        humidity
    }
}

/// Temperature in thousandths of a degree Celsius, clamped to the range the
/// sensor accepts, -45 °C to 129.76 °C.
pub open spec fn clamped_temperature(temperature: int) -> int {
    if temperature < -45000 {
        -45000
    } else if temperature > 129760 {
        129760
    } else {
        temperature
    }
}

/// The sensor's humidity ticks: humidity * 671 / 1024, about
/// humidity / 100000 * 65535.
pub open spec fn humidity_ticks(humidity: int) -> u16 {
    ((capped_humidity(humidity) * 671) / 1024) as u16
}

/// The sensor's temperature ticks: (temperature + 45000) * 3 / 8, about
/// (temperature + 45000) / 175000 * 65535.
pub open spec fn temperature_ticks(temperature: int) -> u16 {
    (((clamped_temperature(temperature) + 45000) * 3) / 8) as u16
}

/// The argument bytes of a raw measurement: humidity ticks, then temperature
/// ticks, both big-endian.
pub open spec fn rht_args(humidity_ticks: u16, temperature_ticks: u16) -> Seq<u8> {
    be_bytes(humidity_ticks) + be_bytes(temperature_ticks)
}

/// The 48-bit serial number from the data buffer of the serial reply: its
/// three words, the first the most significant.
pub open spec fn serial_of(d: Seq<u8>) -> int {
    be_value(d[0], d[1]) * 0x1_0000_0000 + be_value(d[2], d[3]) * 0x1_0000 + be_value(d[4], d[5])
}

/// The temperature compensation offset in thousandths of a degree Celsius:
/// the offset is kept with a scaling factor of 200 per degree, so one unit
/// is five thousandths of a degree.
pub open spec fn offset_milli_celsius(offset: int) -> int {
    5 * offset
}

/// The argument bytes of a raw measurement at `humidity` and `temperature`
/// by a driver whose offset is `offset`.
pub open spec fn measurement_args(offset: int, humidity: int, temperature: int) -> Seq<u8> {
    rht_args(
        humidity_ticks(humidity),
        temperature_ticks(temperature + offset_milli_celsius(offset)),
    )
}

/// Sgp40Async driver instance
///
/// Create the driver instance with valid I²C address (0x59) and then it is just
/// rock'n'roll. This driver doesn't require special starting but once can start to
/// make measurements right away. However, the initial values after start-up will
/// unstable so you will want to throw away some of them.
pub struct Sgp40Async<I2C, D> {
    i2c: I2C,
    address: u8,
    delay: D,
    temperature_offset: i16,
}

impl<I2C, D> Sgp40Async<I2C, D> {
    /// The bus handle.
    pub closed spec fn bus(&self) -> I2C {
        self.i2c
    }

    /// The delay handle.
    pub closed spec fn delay_source(&self) -> D {
        self.delay
    }

    /// The sensor's I²C address.
    pub closed spec fn addr(&self) -> u8 {
        self.address
    }

    /// The temperature compensation offset.
    pub closed spec fn offset(&self) -> i16 {
        self.temperature_offset
    }

    /// Creates Sgp40Async driver
    pub fn new(i2c: I2C, address: u8, delay: D) -> (s: Self)
        ensures
            s.bus() == i2c,
            s.delay_source() == delay,
            s.addr() == address,
            s.offset() == 0,
    {
        Sgp40Async { i2c, address, delay, temperature_offset: 0 }
    }

    /// The sensor's I²C address.
    pub fn address(&self) -> (a: u8)
        ensures
            a == self.addr(),
    {
        self.address
    }

    /// The bus handle, for the caller to perform the bus operations on.
    pub fn i2c_mut(&mut self) -> (b: &mut I2C)
        ensures
            *b == old(self).bus(),
            final(self).bus() == *final(b),
            final(self).delay_source() == old(self).delay_source(),
            final(self).addr() == old(self).addr(),
            final(self).offset() == old(self).offset(),
    {
        &mut self.i2c
    }

    /// The delay handle, for the caller to wait with.
    pub fn delay_mut(&mut self) -> (d: &mut D)
        ensures
            *d == old(self).delay_source(),
            final(self).delay_source() == *final(d),
            final(self).bus() == old(self).bus(),
            final(self).addr() == old(self).addr(),
            final(self).offset() == old(self).offset(),
    {
        &mut self.delay
    }

    /// Returns tick converted values of humidity (thousandths of a percent)
    /// and temperature (thousandths of a degree Celsius), the temperature
    /// first corrected by the offset (five thousandths of a degree per unit).
    pub fn convert_rht(&self, humidity: u32, temperature: i32) -> (ticks: (u16, u16))
        requires
            i32::MIN <= temperature + offset_milli_celsius(self.offset() as int) <= i32::MAX,
        ensures
            ticks == (
                humidity_ticks(humidity as int),
                temperature_ticks(temperature + offset_milli_celsius(self.offset() as int)),
            ),
    {
        let mut temperature = temperature;
        let mut humidity = humidity;
        if humidity > 100000 {
            humidity = 100000;
        }
        temperature = temperature + 5 * (self.temperature_offset as i32);
        if temperature < -45000 {
            temperature = -45000;
        } else if temperature > 129760 {
            temperature = 129760;
        }
        // humidity / 100000 * 65535 ~= humidity * 0.65535 ~= humidity * 671 / 2^10
        let h: u32 = humidity * 671;
        let hs: u32 = h >> 10u32;
        assert(hs == h / 1024) by (bit_vector)
            requires
                hs == h >> 10u32,
        ;
        // (temperature + 45000) / 175000 * 65535 ~= (temperature + 45000) * 3 / 2^3
        let t: i32 = (temperature + 45000) * 3;
        let ts: i32 = t >> 3u32;
        assert(ts == t / 8) by (bit_vector)
            requires
                ts == t >> 3u32,
                0 <= t <= 524280,
        ;
        let humidity_sensor_format = hs as u16;
        let temperature_sensor_format = ts as u16;
        (humidity_sensor_format, temperature_sensor_format)
    }

    /// Sets the temperature offset.
    ///
    /// This command sets the temperature offset used for the compensation of subsequent RHT measurements.
    /// The parameter provides the temperature offset (in °C) with a scaling factor of 200, e.g., an output of +400 corresponds to +2.00 °C.
    pub fn set_temperature_offset(&mut self, offset: i16)
        ensures
            final(self).offset() == offset,
            final(self).bus() == old(self).bus(),
            final(self).delay_source() == old(self).delay_source(),
            final(self).addr() == old(self).addr(),
    {
        self.temperature_offset = offset;
    }

    /// Gets the temperature offset
    ///
    /// Gets the temperature compensation offset issues to the device.
    pub fn get_temperature_offset(&self) -> (offset: i16)
        ensures
            offset == self.offset(),
    {
        self.temperature_offset
    }

    /// The exchange of the sensor self-test: the test command, its 250 ms
    /// wait, and one reply word read into a three-byte buffer.
    pub fn self_test_transaction(&self) -> (t: Transaction)
        ensures
            t@.address == self.addr(),
            t@.frame == frame_of(Command::MeasureTest, seq![]),
            t@.delay_ms == 250,
            t@.data == Seq::new(3, |i: int| 0u8),
            t@.received == 0,
            t@.stage == Stage::Idle,
            t@.wf(),
    {
        Transaction::delayed_read_cmd(self.address, Command::MeasureTest, 3)
    }

    /// The outcome of the self test from the data buffer of its exchange: it
    /// passed when the reply word is 0xd400.
    pub fn self_test_outcome<E>(&self, data: &[u8]) -> (r: Result<(), Error<E>>)
        requires
            data@.len() >= 2,
        ensures
            r is Ok <==> be_value(data@[0], data@[1]) == MEASURE_TEST_OK,
            r is Err ==> r == Err::<(), Error<E>>(Error::SelfTest),
    {
        let result = u16_from_be_bytes(data[0], data[1]);
        if result != MEASURE_TEST_OK {
            Err(Error::SelfTest)
        } else {
            Ok(())
        }
    }

    /// The exchange that turns the sensor heater off: the command and its
    /// 1 ms wait.
    pub fn turn_heater_off_transaction(&self) -> (t: Transaction)
        ensures
            t@.address == self.addr(),
            t@.frame == frame_of(Command::HeaterOff, seq![]),
            t@.delay_ms == 1,
            t@.data == Seq::<u8>::empty(),
            t@.received == 0,
            t@.stage == Stage::Idle,
            t@.wf(),
    {
        Transaction::write_command(self.address, Command::HeaterOff)
    }

    /// The exchange that resets the sensor: the soft reset command and its
    /// 1 ms wait.
    pub fn reset_transaction(&self) -> (t: Transaction)
        ensures
            t@.address == self.addr(),
            t@.frame == frame_of(Command::SoftReset, seq![]),
            t@.delay_ms == 1,
            t@.data == Seq::<u8>::empty(),
            t@.received == 0,
            t@.stage == Stage::Idle,
            t@.wf(),
    {
        Transaction::write_command(self.address, Command::SoftReset)
    }

    /// The exchange of a raw measurement with humidity and temperature
    /// compensation: the measurement command with the humidity and the
    /// offset-corrected temperature as ticks, its 30 ms wait, and one reply
    /// word read into a three-byte buffer. Both values use milli-notation:
    /// 25 °C is 25000 and 50 % humidity is 50000.
    pub fn measure_raw_with_rht_transaction(&self, humidity: u16, temperature: i16) -> (t:
        Transaction)
        ensures
            t@.address == self.addr(),
            t@.frame == frame_of(
                Command::MeasurementRaw,
                measurement_args(self.offset() as int, humidity as int, temperature as int),
            ),
            t@.delay_ms == 30,
            t@.data == Seq::new(3, |i: int| 0u8),
            t@.received == 0,
            t@.stage == Stage::Idle,
            t@.wf(),
    {
        let (hum_ticks, temp_ticks) = self.convert_rht(humidity as u32, temperature as i32);
        let h = u16_to_be_bytes(hum_ticks);
        let t = u16_to_be_bytes(temp_ticks);
        let params: [u8; 4] = [h[0], h[1], t[0], t[1]];
        assert(params@ =~= rht_args(hum_ticks, temp_ticks));
        Transaction::write_command_with_args(self.address, Command::MeasurementRaw, &params).then_read_words_with_crc(
            3,
        )
    }

    /// The exchange of a raw measurement without compensation: that of
    /// `measure_raw_with_rht_transaction` at 50 % humidity and 25 °C.
    pub fn measure_raw_transaction(&self) -> (t: Transaction)
        ensures
            t@.address == self.addr(),
            t@.frame == frame_of(
                Command::MeasurementRaw,
                measurement_args(
                    self.offset() as int,
                    DEFAULT_HUMIDITY as int,
                    DEFAULT_TEMPERATURE as int,
                ),
            ),
            t@.delay_ms == 30,
            t@.data == Seq::new(3, |i: int| 0u8),
            t@.received == 0,
            t@.stage == Stage::Idle,
            t@.wf(),
    {
        self.measure_raw_with_rht_transaction(DEFAULT_HUMIDITY, DEFAULT_TEMPERATURE)
    }

    /// The raw signal from the data buffer of a measurement exchange: the
    /// reply word.
    pub fn measure_raw_outcome(&self, data: &[u8]) -> (raw: u16)
        requires
            data@.len() >= 2,
        ensures
            raw == be_value(data@[0], data@[1]),
    {
        u16_from_be_bytes(data[0], data[1])
    }

    /// The exchange that acquires the serial number: the serial command, its
    /// 1 ms wait, and three reply words read into a six-byte buffer.
    pub fn serial_transaction(&self) -> (t: Transaction)
        ensures
            t@.address == self.addr(),
            t@.frame == frame_of(Command::Serial, seq![]),
            t@.delay_ms == 1,
            t@.data == Seq::new(6, |i: int| 0u8),
            t@.received == 0,
            t@.stage == Stage::Idle,
            t@.wf(),
    {
        Transaction::delayed_read_cmd(self.address, Command::Serial, 6)
    }

    /// The serial number from the data buffer of the serial exchange.
    ///
    /// Sensor serial number is only 48-bits long so the remaining 16-bits are zeros.
    pub fn serial_outcome(&self, data: &[u8]) -> (serial: u64)
        requires
            data@.len() >= 6,
        ensures
            serial == serial_of(data@),
            serial < 0x1_0000_0000_0000,
    {
        let w0 = u16_from_be_bytes(data[0], data[1]) as u64;
        let w1 = u16_from_be_bytes(data[2], data[3]) as u64;
        let w2 = u16_from_be_bytes(data[4], data[5]) as u64;
        let serial = (w0 << 32u64) | (w1 << 16u64) | w2;
        assert(serial == w0 * 0x1_0000_0000 + w1 * 0x1_0000 + w2 && serial < 0x1_0000_0000_0000)
            by (bit_vector)
            requires
                w0 < 0x1_0000,
                w1 < 0x1_0000,
                w2 < 0x1_0000,
                serial == (w0 << 32u64) | (w1 << 16u64) | w2,
        ;
        serial
    }
}

/// The tick formulas never leave the range of `u16`: no truncation happens.
/// Humidity ticks reach 65527 at 100 % and temperature ticks 65535 at
/// 129.76 °C.
pub proof fn law_ticks_fit(humidity: int, temperature: int)
    requires
        humidity >= 0,
    ensures
        humidity_ticks(humidity) as int == (capped_humidity(humidity) * 671) / 1024,
        humidity_ticks(humidity) <= 65527,
        temperature_ticks(temperature) as int == ((clamped_temperature(temperature) + 45000) * 3)
            / 8,
{
    let h = capped_humidity(humidity);
    assert(0 <= (h * 671) / 1024 <= 65527) by (nonlinear_arith)
        requires
            0 <= h <= 100000,
    ;
    let t = clamped_temperature(temperature) + 45000;
    assert(0 <= (t * 3) / 8 <= 65535) by (nonlinear_arith)
        requires
            0 <= t <= 174760,
    ;
}

/// Humidity above 100 % is taken as 100 %; temperatures outside -45 °C to
/// 129.76 °C are taken as the nearer bound.
pub proof fn law_compensation_saturates(humidity: int, temperature: int)
    ensures
        humidity >= 100000 ==> humidity_ticks(humidity) == 65527,
        temperature <= -45000 ==> temperature_ticks(temperature) == 0,
        temperature >= 129760 ==> temperature_ticks(temperature) == 65535,
{
}

/// More humidity never gives fewer ticks, and a higher temperature never
/// gives fewer ticks.
pub proof fn law_ticks_monotone(h1: int, h2: int, t1: int, t2: int)
    requires
        0 <= h1 <= h2,
        t1 <= t2,
    ensures
        humidity_ticks(h1) <= humidity_ticks(h2),
        temperature_ticks(t1) <= temperature_ticks(t2),
{
    law_ticks_fit(h1, t1);
    law_ticks_fit(h2, t2);
    let a = capped_humidity(h1);
    let b = capped_humidity(h2);
    assert((a * 671) / 1024 <= (b * 671) / 1024) by (nonlinear_arith)
        requires
            0 <= a <= b,
    ;
    let c = clamped_temperature(t1) + 45000;
    let d = clamped_temperature(t2) + 45000;
    assert((c * 3) / 8 <= (d * 3) / 8) by (nonlinear_arith)
        requires
            0 <= c <= d,
    ;
}

/// The temperature offset compensates a measurement by shifting its
/// temperature: a driver whose offset is `offset` sends, at `temperature`,
/// what a driver without offset sends at `temperature` plus the offset in
/// thousandths of a degree.
pub proof fn law_offset_shifts_measurement(offset: i16, humidity: u16, temperature: i16)
    ensures
        measurement_args(offset as int, humidity as int, temperature as int) == measurement_args(
            0,
            humidity as int,
            temperature + offset_milli_celsius(offset as int),
        ),
{
}

/// The offset has a scaling factor of 200 per degree Celsius: raising it by
/// 200 compensates like a reading one degree (1000 thousandths) warmer.
pub proof fn law_offset_scale(offset: int, humidity: int, temperature: int)
    ensures
        measurement_args(offset + 200, humidity, temperature) == measurement_args(
            offset,
            humidity,
            temperature + 1000,
        ),
{
    assert(temperature + offset_milli_celsius(offset + 200) == (temperature + 1000)
        + offset_milli_celsius(offset));
}

/// Inside the sensor's range the compensation values are converted without
/// any clamping: a humidity `h` from 0 to 100 % gives `h * 671 / 1024` ticks
/// and a temperature `t` from -45 °C to 129.76 °C gives
/// `(t + 45000) * 3 / 8` ticks; so the ticks for distinct temperatures in
/// range differ by the scaled distance between them.
pub proof fn law_conversion_in_range(humidity: int, temperature: int)
    ensures
        0 <= humidity <= 100000 ==> humidity_ticks(humidity) as int == humidity * 671 / 1024,
        -45000 <= temperature <= 129760 ==> temperature_ticks(temperature) as int == (temperature
            + 45000) * 3 / 8,
{
    if 0 <= humidity <= 100000 {
        assert(0 <= humidity * 671 / 1024 <= 65527) by (nonlinear_arith)
            requires
                0 <= humidity <= 100000,
        ;
    }
    if -45000 <= temperature <= 129760 {
        let t = temperature + 45000;
        assert(0 <= t * 3 / 8 <= 65535) by (nonlinear_arith)
            requires
                0 <= t <= 174760,
        ;
    }
}

/// The serial number is the six data bytes of the reply read as one
/// big-endian 48-bit number, whatever their values: byte 0 is the most
/// significant and byte 5 the least.
pub proof fn law_serial_is_big_endian(d: Seq<u8>)
    requires
        d.len() >= 6,
    ensures
        serial_of(d) == d[0] * 0x100_0000_0000 + d[1] * 0x1_0000_0000 + d[2] * 0x100_0000 + d[3]
            * 0x1_0000 + d[4] * 0x100 + d[5],
{
}

} // verus!
