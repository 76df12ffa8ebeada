//! Register protocol of the HRS3300 optical pulse sensor.
//!
//! The module models everything about the device that can be stated without
//! touching a bus: the register map, the enumerated configuration options
//! with the register bit-field each one targets, the software-shadowed
//! derived state (conversion wait time and resolution mask), and the
//! assembly of one sample from the seven bytes of a burst read.
//!
//! Every setter follows the device's read/modify/write discipline: the
//! caller reads the current register byte from the bus, hands it in, and
//! writes the returned [`RegWrite`] back. The device does not support
//! partial-byte writes, so the contracts pin down every bit of the byte that
//! goes out: the targeted field holds the option's value and all other bits
//! are carried over unchanged.

use vstd::prelude::*;

use crate::bitfield::{bit8, extract_channel_bits, spec_extract_bits, spec_write_bits, write_bits};

verus! {

/// Fixed bus address of the sensor.
pub const SENSOR_ADDR: u8 = 0x44;

/// Value of the device identification register.
pub const DEVICE_ID: u8 = 0x21;

/// Number of bytes returned by one sample burst read.
pub const SAMPLE_BLOCK_LEN: usize = 7;

/// The device's register offsets. Not every register is writable: the
/// `C?DATA?` registers are read-only sample data.
#[derive(Clone, Copy, Debug, PartialEq, Eq, Structural)]
pub enum RegAddrs {
    /// Device ID, reads as [`DEVICE_ID`].
    ID,
    /// Enable HRS: conversion wait time, LED current high bit, HRS on/off.
    ENABLE,
    /// CH1 data bits 10..=3.
    C1DATAM,
    /// CH0 data bits 15..=8.
    C0DATAM,
    /// CH0 data bits 7..=4.
    C0DATAH,
    /// LED driver configuration: oscillator on/off, LED current low bit.
    PDRIVER,
    /// CH1 data bits 17..=11.
    C1DATAH,
    /// CH1 data bits 2..=0.
    C1DATAL,
    /// CH0 data bits 17..=16 and 3..=0.
    C0DATAL,
    /// ALS and HRS resolution.
    RES,
    /// HRS gain.
    HGAIN,
}

impl RegAddrs {
    /// The register's one-byte bus offset.
    pub open spec fn spec_addr(self) -> u8 {
        match self {
            RegAddrs::ID => 0x00,
            RegAddrs::ENABLE => 0x01,
            RegAddrs::C1DATAM => 0x08,
            RegAddrs::C0DATAM => 0x09,
            RegAddrs::C0DATAH => 0x0A,
            RegAddrs::PDRIVER => 0x0C,
            RegAddrs::C1DATAH => 0x0D,
            RegAddrs::C1DATAL => 0x0E,
            RegAddrs::C0DATAL => 0x0F,
            RegAddrs::RES => 0x16,
            RegAddrs::HGAIN => 0x17,
        }
    }

    /// The register's one-byte bus offset.
    pub fn addr(self) -> (r: u8)
        ensures
            r == self.spec_addr(),
    {
        match self {
            RegAddrs::ID => 0x00,
            RegAddrs::ENABLE => 0x01,
            RegAddrs::C1DATAM => 0x08,
            RegAddrs::C0DATAM => 0x09,
            RegAddrs::C0DATAH => 0x0A,
            RegAddrs::PDRIVER => 0x0C,
            RegAddrs::C1DATAH => 0x0D,
            RegAddrs::C1DATAL => 0x0E,
            RegAddrs::C0DATAL => 0x0F,
            RegAddrs::RES => 0x16,
            RegAddrs::HGAIN => 0x17,
        }
    }
}

/// One full-byte register write that the caller still has to put on the
/// bus: the byte `value` goes to register `reg`.
#[derive(Clone, Copy, Debug, PartialEq, Eq, Structural)]
pub struct RegWrite {
    pub reg: RegAddrs,
    pub value: u8,
}

/// Wait time between two ADC conversions; ENABLE bits 4..=6.
pub enum ADCWaitTime {
    Ms800,
    Ms400,
    Ms200,
    Ms100,
    Ms75,
    Ms50,
    Ms12_5,
    Ms0,
}

impl ADCWaitTime {
    /// The three-bit value of the ENABLE wait-time field.
    pub open spec fn spec_field(self) -> u8 {
        match self {
            ADCWaitTime::Ms800 => 0,
            ADCWaitTime::Ms400 => 1,
            ADCWaitTime::Ms200 => 2,
            ADCWaitTime::Ms100 => 3,
            ADCWaitTime::Ms75 => 4,
            ADCWaitTime::Ms50 => 5,
            ADCWaitTime::Ms12_5 => 6,
            ADCWaitTime::Ms0 => 7,
        }
    }

    /// The three-bit value of the ENABLE wait-time field.
    pub fn field_value(&self) -> (r: u8)
        ensures
            r == self.spec_field(),
    {
        match *self {
            ADCWaitTime::Ms800 => 0,
            ADCWaitTime::Ms400 => 1,
            ADCWaitTime::Ms200 => 2,
            ADCWaitTime::Ms100 => 3,
            ADCWaitTime::Ms75 => 4,
            ADCWaitTime::Ms50 => 5,
            ADCWaitTime::Ms12_5 => 6,
            ADCWaitTime::Ms0 => 7,
        }
    }

    /// The wait time in microseconds.
    pub open spec fn spec_us(self) -> u32 {
        match self {
            ADCWaitTime::Ms800 => 800_000,
            ADCWaitTime::Ms400 => 400_000,
            ADCWaitTime::Ms200 => 200_000,
            ADCWaitTime::Ms100 => 100_000,
            ADCWaitTime::Ms75 => 75_000,
            ADCWaitTime::Ms50 => 50_000,
            ADCWaitTime::Ms12_5 => 1_250,
            ADCWaitTime::Ms0 => 0,
        }
    }

    /// The wait time in microseconds.
    pub fn get_us(&self) -> (r: u32)
        ensures
            r == self.spec_us(),
    {
        match *self {
            ADCWaitTime::Ms800 => 800_000,
            ADCWaitTime::Ms400 => 400_000,
            ADCWaitTime::Ms200 => 200_000,
            ADCWaitTime::Ms100 => 100_000,
            ADCWaitTime::Ms75 => 75_000,
            ADCWaitTime::Ms50 => 50_000,
            ADCWaitTime::Ms12_5 => 1_250,
            ADCWaitTime::Ms0 => 0,
        }
    }
}

/// LED drive current. A single logical two-bit field that is physically
/// split across two registers: bit 1 lives in ENABLE bit 3, bit 0 in
/// PDRIVER bit 6.
pub enum LedCurrent {
    Ma12_5,
    Ma20,
    Ma30,
    Ma40,
}

impl LedCurrent {
    /// The logical two-bit value of the LED current field.
    pub open spec fn spec_field(self) -> u8 {
        match self {
            LedCurrent::Ma12_5 => 0,
            LedCurrent::Ma20 => 1,
            LedCurrent::Ma30 => 2,
            LedCurrent::Ma40 => 3,
        }
    }

    /// The logical two-bit value of the LED current field.
    pub fn field_value(&self) -> (r: u8)
        ensures
            r == self.spec_field(),
    {
        match *self {
            LedCurrent::Ma12_5 => 0,
            LedCurrent::Ma20 => 1,
            LedCurrent::Ma30 => 2,
            LedCurrent::Ma40 => 3,
        }
    }
}

/// ADC resolution in bits, 8 through 18; RES bits 0..=3. The variant's
/// ordinal position doubles as the register field value.
#[derive(Clone, Copy, Debug)]
pub enum BitsResolution {
    _8,
    _9,
    _10,
    _11,
    _12,
    _13,
    _14,
    _15,
    _16,
    _17,
    _18,
}

impl BitsResolution {
    /// The four-bit value of the RES resolution field: the ordinal of the
    /// variant, 0 for 8 bits through 10 for 18 bits.
    pub open spec fn spec_field(self) -> u8 {
        match self {
            BitsResolution::_8 => 0,
            BitsResolution::_9 => 1,
            BitsResolution::_10 => 2,
            BitsResolution::_11 => 3,
            BitsResolution::_12 => 4,
            BitsResolution::_13 => 5,
            BitsResolution::_14 => 6,
            BitsResolution::_15 => 7,
            BitsResolution::_16 => 8,
            BitsResolution::_17 => 9,
            BitsResolution::_18 => 10,
        }
    }

    /// The four-bit value of the RES resolution field.
    pub fn field_value(&self) -> (r: u8)
        ensures
            r == self.spec_field(),
    {
        match *self {
            BitsResolution::_8 => 0,
            BitsResolution::_9 => 1,
            BitsResolution::_10 => 2,
            BitsResolution::_11 => 3,
            BitsResolution::_12 => 4,
            BitsResolution::_13 => 5,
            BitsResolution::_14 => 6,
            BitsResolution::_15 => 7,
            BitsResolution::_16 => 8,
            BitsResolution::_17 => 9,
            BitsResolution::_18 => 10,
        }
    }

    /// The mask that keeps exactly the configured number of sample bits:
    /// for ordinal `k` (0 through 10) the low `k + 8` bits are set.
    pub open spec fn spec_mask(self) -> u32 {
        ((1u32 << ((self.spec_field() + 8) as u32)) - 1) as u32
    }

    /// The mask that keeps exactly the configured number of sample bits.
    pub fn get_mask(&self) -> (r: u32)
        ensures
            r == self.spec_mask(),
    {
        let k: u32 = self.field_value() as u32;
        proof {
            assert(k <= 10 ==> 1u32 << (k + 8) as u32 >= 1) by (bit_vector);
        }
        (1u32 << (k + 8)) - 1
    }
}

/// Analog gain of the HRS channel; HGAIN bits 2..=4.
pub enum Gain {
    X1,
    X2,
    X4,
    X8,
    X64,
}

impl Gain {
    /// The three-bit value of the HGAIN gain field.
    pub open spec fn spec_field(self) -> u8 {
        match self {
            Gain::X1 => 0,
            Gain::X2 => 1,
            Gain::X4 => 2,
            Gain::X8 => 3,
            Gain::X64 => 4,
        }
    }

    /// The three-bit value of the HGAIN gain field.
    pub fn field_value(&self) -> (r: u8)
        ensures
            r == self.spec_field(),
    {
        match *self {
            Gain::X1 => 0,
            Gain::X2 => 1,
            Gain::X4 => 2,
            Gain::X8 => 3,
            Gain::X64 => 4,
        }
    }
}

/// The optical channel value of one sample.
pub type HrsValue = u32;

/// The ambient-light channel value of one sample.
pub type AlsValue = u32;

/// One assembled sample: the optical ("heart") channel and the
/// ambient-light channel, each already masked to the configured resolution.
#[derive(Clone, Copy)]
pub struct RawSample {
    pub hrs: HrsValue,
    pub als: AlsValue,
}

impl RawSample {
    /// The ambient-corrected pulsatile value: `hrs - als`, saturating at
    /// zero. Ambient light can legitimately exceed the optical reading; the
    /// saturated zero carries no trustworthy negative magnitude.
    pub open spec fn spec_sum(self) -> u32 {
        if self.hrs >= self.als {
            (self.hrs - self.als) as u32
        } else {
            0u32
        }
    }

    pub fn new(hrs: HrsValue, als: AlsValue) -> (r: Self)
        ensures
            r.hrs == hrs,
            r.als == als,
    {
        RawSample { hrs, als }
    }

    /// `hrs` minus `als`, saturating at zero.
    pub fn get_sum(&self) -> (r: u32)
        ensures
            r == self.spec_sum(),
    {
        if self.hrs >= self.als {
            self.hrs - self.als
        } else {
            0
        }
    }
}

/// The ambient-light channel before masking: CH1 bits 2..=0 come from
/// C1DATAL, bits 10..=3 from C1DATAM, bits 17..=11 from C1DATAH.
pub open spec fn spec_als_raw(c1m: u8, c1h: u8, c1l: u8) -> u32 {
    ((c1l as u32) & 0x07) | ((c1m as u32) << 3) | (((c1h as u32) & 0x7F) << 11)
}

/// The optical channel before masking: CH0 bits 3..=0 come from C0DATAL's
/// low nibble, bits 7..=4 from C0DATAH's low nibble, bits 15..=8 from
/// C0DATAM, bits 17..=16 from C0DATAL bits 5..=4.
pub open spec fn spec_hrs_raw(c0m: u8, c0h: u8, c0l: u8) -> u32 {
    ((c0l as u32) & 0x0F) | (((c0h as u32) & 0x0F) << 4) | ((c0m as u32) << 8)
        | ((((c0l as u32) >> 4) & 0x03) << 16)
}

/// Configuration state of one sensor: the software shadow of derived
/// hardware configuration that the device does not expose for read-back.
///
/// `adc_wait_time_us` mirrors the selected conversion wait time, for caller
/// pacing only. `resolution_mask` keeps the low `resolution bits` bits of
/// an assembled sample, because bits above the configured resolution are
/// not guaranteed to be zero in hardware.
pub struct Sensor {
    pub adc_wait_time_us: u32,
    pub resolution_mask: u32,
}

impl Sensor {
    /// The shadow state stays consistent: the wait time is one of the
    /// device's eight conversion wait times, and the mask keeps between 8
    /// and 18 low bits, as the resolution options do.
    pub open spec fn wf(self) -> bool {
        &&& exists|wt: ADCWaitTime| self.adc_wait_time_us == #[trigger] wt.spec_us()
        &&& exists|res: BitsResolution| self.resolution_mask == #[trigger] res.spec_mask()
    }

    /// A sensor with the device's reset configuration: 12.5 ms wait time
    /// and 15-bit resolution.
    pub fn new() -> (r: Self)
        ensures
            r.adc_wait_time_us == 1250,
            r.resolution_mask == 0x7FFF,
            r.wf(),
    {
        let r = Sensor { adc_wait_time_us: 1250, resolution_mask: 0x7FFF };
        proof {
            assert(ADCWaitTime::Ms12_5.spec_us() == 1250u32);
            assert((1u32 << 15u32) - 1 == 0x7FFF) by (bit_vector);
            assert(BitsResolution::_15.spec_mask() == 0x7FFF);
        }
        r
    }

    /// The shadowed conversion wait time in microseconds.
    pub fn get_adc_wait_time_us(&self) -> (r: u32)
        ensures
            r == self.adc_wait_time_us,
    {
        self.adc_wait_time_us
    }

    /// Turns the HRS converter on or off: ENABLE bit 7, every other bit of
    /// the given ENABLE byte carried over.
    pub fn set_hrs_active(&mut self, active: bool, reg_data: u8) -> (w: RegWrite)
        ensures
            *final(self) == *old(self),
            w.reg == RegAddrs::ENABLE,
            w.value == spec_write_bits(if active { 1u8 } else { 0u8 }, reg_data, 7, 1),
            bit8(w.value, 7) == active,
            forall|i: u8| i < 7 ==> #[trigger] bit8(w.value, i) == bit8(reg_data, i),
    {
        let value: u8 = if active {
            1
        } else {
            0
        };
        let mut reg = reg_data;
        write_bits(value, &mut reg, 7, 1);
        proof {
            assert(bit8(1u8, 0) && !bit8(0u8, 0)) by (bit_vector);
        }
        RegWrite { reg: RegAddrs::ENABLE, value: reg }
    }

    /// Selects the wait time between conversions: ENABLE bits 4..=6 take
    /// the option's field value, every other bit of the given ENABLE byte
    /// is carried over, and the shadowed microsecond count follows.
    pub fn set_adc_wait_time(&mut self, wt: ADCWaitTime, reg_data: u8) -> (w: RegWrite)
        ensures
            final(self).adc_wait_time_us == wt.spec_us(),
            final(self).resolution_mask == old(self).resolution_mask,
            old(self).wf() ==> final(self).wf(),
            w.reg == RegAddrs::ENABLE,
            w.value == spec_write_bits(wt.spec_field(), reg_data, 4, 3),
            forall|i: u8|
                4 <= i < 7 ==> #[trigger] bit8(w.value, i) == bit8(
                    wt.spec_field(),
                    (i - 4) as u8,
                ),
            forall|i: u8|
                i < 8 && !(4 <= i < 7) ==> #[trigger] bit8(w.value, i) == bit8(reg_data, i),
    {
        self.adc_wait_time_us = wt.get_us();
        let value = wt.field_value();
        let mut reg = reg_data;
        write_bits(value, &mut reg, 4, 3);
        RegWrite { reg: RegAddrs::ENABLE, value: reg }
    }

    /// Selects the LED drive current. The two-bit value is split over two
    /// registers: bit 1 goes to ENABLE bit 3, bit 0 to PDRIVER bit 6, and
    /// every other bit of the two given bytes is carried over. Both writes
    /// must be issued, `w.0` (ENABLE) before `w.1` (PDRIVER), for the
    /// setting to take effect.
    pub fn set_led_current(&mut self, lc: LedCurrent, enable_data: u8, pdriver_data: u8) -> (w: (
        RegWrite,
        RegWrite,
    ))
        ensures
            *final(self) == *old(self),
            w.0.reg == RegAddrs::ENABLE,
            w.1.reg == RegAddrs::PDRIVER,
            w.0.value == spec_write_bits((lc.spec_field() & 2) >> 1u8, enable_data, 3, 1),
            w.1.value == spec_write_bits(lc.spec_field() & 1, pdriver_data, 6, 1),
            bit8(w.0.value, 3) == bit8(lc.spec_field(), 1),
            forall|i: u8| i < 8 && i != 3 ==> #[trigger] bit8(w.0.value, i) == bit8(enable_data, i),
            bit8(w.1.value, 6) == bit8(lc.spec_field(), 0),
            forall|i: u8|
                i < 8 && i != 6 ==> #[trigger] bit8(w.1.value, i) == bit8(pdriver_data, i),
    {
        let value = lc.field_value();

        // Bit 1 of the logical value, right-aligned for ENABLE bit 3.
        let to_enable: u8 = (value & 0b10) >> 1;
        let mut enable = enable_data;
        write_bits(to_enable, &mut enable, 3, 1);

        // Bit 0 of the logical value, for PDRIVER bit 6.
        let to_pdriver: u8 = value & 0b01;
        let mut pdriver = pdriver_data;
        write_bits(to_pdriver, &mut pdriver, 6, 1);

        proof {
            assert(bit8((value & 2) >> 1u8, 0) == bit8(value, 1)) by (bit_vector);
            assert(bit8(value & 1, 0) == bit8(value, 0)) by (bit_vector);
        }

        (
            RegWrite { reg: RegAddrs::ENABLE, value: enable },
            RegWrite { reg: RegAddrs::PDRIVER, value: pdriver },
        )
    }

    /// Turns the oscillator on or off: PDRIVER bit 5, every other bit of
    /// the given PDRIVER byte carried over.
    pub fn set_osc_active(&mut self, active: bool, reg_data: u8) -> (w: RegWrite)
        ensures
            *final(self) == *old(self),
            w.reg == RegAddrs::PDRIVER,
            w.value == spec_write_bits(if active { 1u8 } else { 0u8 }, reg_data, 5, 1),
            bit8(w.value, 5) == active,
            forall|i: u8| i < 8 && i != 5 ==> #[trigger] bit8(w.value, i) == bit8(reg_data, i),
    {
        let value: u8 = if active {
            1
        } else {
            0
        };
        let mut reg = reg_data;
        write_bits(value, &mut reg, 5, 1);
        proof {
            assert(bit8(1u8, 0) && !bit8(0u8, 0)) by (bit_vector);
        }
        RegWrite { reg: RegAddrs::PDRIVER, value: reg }
    }

    /// Selects the analog gain: HGAIN bits 2..=4 take the option's field
    /// value, every other bit of the given HGAIN byte is carried over.
    pub fn set_gain(&mut self, gain: Gain, reg_data: u8) -> (w: RegWrite)
        ensures
            *final(self) == *old(self),
            w.reg == RegAddrs::HGAIN,
            w.value == spec_write_bits(gain.spec_field(), reg_data, 2, 3),
            forall|i: u8|
                2 <= i < 5 ==> #[trigger] bit8(w.value, i) == bit8(
                    gain.spec_field(),
                    (i - 2) as u8,
                ),
            forall|i: u8|
                i < 8 && !(2 <= i < 5) ==> #[trigger] bit8(w.value, i) == bit8(reg_data, i),
    {
        let value = gain.field_value();
        let mut reg = reg_data;
        write_bits(value, &mut reg, 2, 3);
        RegWrite { reg: RegAddrs::HGAIN, value: reg }
    }

    /// Selects the ADC resolution: RES bits 0..=3 take the option's field
    /// value, every other bit of the given RES byte is carried over, and
    /// the shadowed decode mask follows.
    pub fn set_resolution(&mut self, res: BitsResolution, reg_data: u8) -> (w: RegWrite)
        ensures
            final(self).resolution_mask == res.spec_mask(),
            final(self).adc_wait_time_us == old(self).adc_wait_time_us,
            old(self).wf() ==> final(self).wf(),
            w.reg == RegAddrs::RES,
            w.value == spec_write_bits(res.spec_field(), reg_data, 0, 4),
            forall|i: u8| i < 4 ==> #[trigger] bit8(w.value, i) == bit8(res.spec_field(), i),
            forall|i: u8| 4 <= i < 8 ==> #[trigger] bit8(w.value, i) == bit8(reg_data, i),
    {
        let value = res.field_value();
        let mut reg = reg_data;
        write_bits(value, &mut reg, 0, 4);
        self.resolution_mask = res.get_mask();
        RegWrite { reg: RegAddrs::RES, value: reg }
    }

    /// Assembles one sample from the seven bytes of a burst read that
    /// started at C1DATAM. The datasheet-defined return order does not
    /// match ascending register addresses:
    ///
    /// | position | register | holds |
    /// |---|---|---|
    /// | 0 | C1DATAM | CH1 bits 10..=3 |
    /// | 1 | C0DATAM | CH0 bits 15..=8 |
    /// | 2 | C0DATAH | CH0 bits 7..=4 |
    /// | 3 | PDRIVER | (unused for decoding) |
    /// | 4 | C1DATAH | CH1 bits 17..=11 |
    /// | 5 | C1DATAL | CH1 bits 2..=0 |
    /// | 6 | C0DATAL | CH0 bits 17..=16 and 3..=0 |
    ///
    /// Both assembled channels are masked with the configured resolution
    /// mask, because bits above the configured resolution are not
    /// guaranteed to be zero in hardware.
    pub fn read_raw_sample(&self, sample_buff: &[u8; SAMPLE_BLOCK_LEN]) -> (r: RawSample)
        ensures
            r.als == spec_als_raw(sample_buff[0], sample_buff[4], sample_buff[5])
                & self.resolution_mask,
            r.hrs == spec_hrs_raw(sample_buff[1], sample_buff[2], sample_buff[6])
                & self.resolution_mask,
    {
        let ch1_0x08 = sample_buff[0];
        let ch0_0x09 = sample_buff[1];
        let ch0_0x0a = sample_buff[2];
        let ch1_0x0d = sample_buff[4];
        let ch1_0x0e = sample_buff[5];
        let ch0_0x0f = sample_buff[6];

        let mut als: AlsValue = 0;
        // CH1 bits 2..=0 from C1DATAL bits 2..=0.
        extract_channel_bits(ch1_0x0e, 0, &mut als, 0, 3);
        let ghost als1 = als;
        // CH1 bits 10..=3 from C1DATAM bits 7..=0.
        extract_channel_bits(ch1_0x08, 0, &mut als, 3, 8);
        let ghost als2 = als;
        // CH1 bits 17..=11 from C1DATAH bits 6..=0.
        extract_channel_bits(ch1_0x0d, 0, &mut als, 11, 7);
        proof {
            assert(als == spec_als_raw(ch1_0x08, ch1_0x0d, ch1_0x0e)) by (bit_vector)
                requires
                    als1 == spec_extract_bits(ch1_0x0e, 0, 0, 0, 3),
                    als2 == spec_extract_bits(ch1_0x08, 0, als1, 3, 8),
                    als == spec_extract_bits(ch1_0x0d, 0, als2, 11, 7),
            ;
        }
        let als = als & self.resolution_mask;

        let mut hrs: HrsValue = 0;
        // CH0 bits 3..=0 from C0DATAL bits 3..=0.
        extract_channel_bits(ch0_0x0f, 0, &mut hrs, 0, 4);
        let ghost hrs1 = hrs;
        // CH0 bits 7..=4 from C0DATAH bits 3..=0.
        extract_channel_bits(ch0_0x0a, 0, &mut hrs, 4, 4);
        let ghost hrs2 = hrs;
        // CH0 bits 15..=8 from C0DATAM bits 7..=0.
        extract_channel_bits(ch0_0x09, 0, &mut hrs, 8, 8);
        let ghost hrs3 = hrs;
        // CH0 bits 17..=16 from C0DATAL bits 5..=4.
        extract_channel_bits(ch0_0x0f, 4, &mut hrs, 16, 2);
        proof {
            assert(hrs == spec_hrs_raw(ch0_0x09, ch0_0x0a, ch0_0x0f)) by (bit_vector)
                requires
                    hrs1 == spec_extract_bits(ch0_0x0f, 0, 0, 0, 4),
                    hrs2 == spec_extract_bits(ch0_0x0a, 0, hrs1, 4, 4),
                    hrs3 == spec_extract_bits(ch0_0x09, 0, hrs2, 8, 8),
                    hrs == spec_extract_bits(ch0_0x0f, 4, hrs3, 16, 2),
            ;
        }
        let hrs = hrs & self.resolution_mask;

        RawSample::new(hrs, als)
    }
}

} // verus!
