use ppg_sensor::hrs3300::{
    ADCWaitTime, BitsResolution, Gain, LedCurrent, RawSample, RegAddrs, Sensor, DEVICE_ID,
    SAMPLE_BLOCK_LEN, SENSOR_ADDR,
};

#[test]
fn register_addresses_match_the_datasheet() {
    assert_eq!(RegAddrs::ID.addr(), 0x00);
    assert_eq!(RegAddrs::ENABLE.addr(), 0x01);
    assert_eq!(RegAddrs::C1DATAM.addr(), 0x08);
    assert_eq!(RegAddrs::C0DATAM.addr(), 0x09);
    assert_eq!(RegAddrs::C0DATAH.addr(), 0x0A);
    assert_eq!(RegAddrs::PDRIVER.addr(), 0x0C);
    assert_eq!(RegAddrs::C1DATAH.addr(), 0x0D);
    assert_eq!(RegAddrs::C1DATAL.addr(), 0x0E);
    assert_eq!(RegAddrs::C0DATAL.addr(), 0x0F);
    assert_eq!(RegAddrs::RES.addr(), 0x16);
    assert_eq!(RegAddrs::HGAIN.addr(), 0x17);
    assert_eq!(SENSOR_ADDR, 0x44);
    assert_eq!(DEVICE_ID, 0x21);
    assert_eq!(SAMPLE_BLOCK_LEN, 7);
}

#[test]
fn wait_times_in_microseconds() {
    assert_eq!(ADCWaitTime::Ms800.get_us(), 800_000);
    assert_eq!(ADCWaitTime::Ms400.get_us(), 400_000);
    assert_eq!(ADCWaitTime::Ms200.get_us(), 200_000);
    assert_eq!(ADCWaitTime::Ms100.get_us(), 100_000);
    assert_eq!(ADCWaitTime::Ms75.get_us(), 75_000);
    assert_eq!(ADCWaitTime::Ms50.get_us(), 50_000);
    assert_eq!(ADCWaitTime::Ms12_5.get_us(), 1_250);
    assert_eq!(ADCWaitTime::Ms0.get_us(), 0);
}

#[test]
fn resolution_masks_follow_the_ordinal() {
    // ordinal k maps to (1 << (k + 8)) - 1
    assert_eq!(BitsResolution::_8.get_mask(), 0xFF);
    assert_eq!(BitsResolution::_9.get_mask(), 0x1FF);
    assert_eq!(BitsResolution::_14.get_mask(), 0x3FFF);
    assert_eq!(BitsResolution::_15.get_mask(), 0x7FFF);
    assert_eq!(BitsResolution::_18.get_mask(), 0x3FFFF);
}

#[test]
fn raw_sample_sum_saturates_at_zero() {
    assert_eq!(RawSample::new(5, 10).get_sum(), 0);
    assert_eq!(RawSample::new(10, 5).get_sum(), 5);
    assert_eq!(RawSample::new(0, u32::MAX).get_sum(), 0);
    assert_eq!(RawSample::new(u32::MAX, 0).get_sum(), u32::MAX);
}

#[test]
fn new_sensor_has_reset_shadow_state() {
    let sensor = Sensor::new();
    assert_eq!(sensor.get_adc_wait_time_us(), 1250);
    assert_eq!(sensor.resolution_mask, 0x7FFF);
}

#[test]
fn set_adc_wait_time_targets_enable_bits_4_to_6() {
    let mut sensor = Sensor::new();
    let w = sensor.set_adc_wait_time(ADCWaitTime::Ms12_5, 0x08);
    assert_eq!(w.reg, RegAddrs::ENABLE);
    // field value 6 lands in bits 4..7 of the ENABLE byte
    assert_eq!(w.value, 0x68);
    assert_eq!(sensor.get_adc_wait_time_us(), 1250);

    let w = sensor.set_adc_wait_time(ADCWaitTime::Ms800, 0xFF);
    assert_eq!(w.value, 0b1000_1111);
    assert_eq!(sensor.get_adc_wait_time_us(), 800_000);
}

#[test]
fn set_led_current_touches_exactly_two_bits() {
    let mut sensor = Sensor::new();

    // highest current: both field bits set
    let (enable, pdriver) = sensor.set_led_current(LedCurrent::Ma40, 0x00, 0x00);
    assert_eq!(enable.reg, RegAddrs::ENABLE);
    assert_eq!(pdriver.reg, RegAddrs::PDRIVER);
    assert_eq!(enable.value, 0x08);
    assert_eq!(pdriver.value, 0x40);

    // every other bit of both bytes is carried over
    let (enable, pdriver) = sensor.set_led_current(LedCurrent::Ma40, 0xF7, 0xBF);
    assert_eq!(enable.value, 0xFF);
    assert_eq!(pdriver.value, 0xFF);

    // lowest current: both field bits cleared, nothing else changes
    let (enable, pdriver) = sensor.set_led_current(LedCurrent::Ma12_5, 0xFF, 0xFF);
    assert_eq!(enable.value, 0xF7);
    assert_eq!(pdriver.value, 0xBF);

    // 20 mA is field value 01: ENABLE bit 3 clear, PDRIVER bit 6 set
    let (enable, pdriver) = sensor.set_led_current(LedCurrent::Ma20, 0x08, 0x00);
    assert_eq!(enable.value, 0x00);
    assert_eq!(pdriver.value, 0x40);

    // 30 mA is field value 10: ENABLE bit 3 set, PDRIVER bit 6 clear
    let (enable, pdriver) = sensor.set_led_current(LedCurrent::Ma30, 0x00, 0x40);
    assert_eq!(enable.value, 0x08);
    assert_eq!(pdriver.value, 0x00);
}

#[test]
fn set_hrs_active_targets_enable_bit_7() {
    let mut sensor = Sensor::new();
    let w = sensor.set_hrs_active(true, 0x68);
    assert_eq!(w.reg, RegAddrs::ENABLE);
    assert_eq!(w.value, 0xE8);
    let w = sensor.set_hrs_active(false, 0xE8);
    assert_eq!(w.value, 0x68);
}

#[test]
fn set_osc_active_targets_pdriver_bit_5() {
    let mut sensor = Sensor::new();
    let w = sensor.set_osc_active(true, 0x48);
    assert_eq!(w.reg, RegAddrs::PDRIVER);
    assert_eq!(w.value, 0x68);
    let w = sensor.set_osc_active(false, 0x68);
    assert_eq!(w.value, 0x48);
}

#[test]
fn set_gain_targets_hgain_bits_2_to_4() {
    let mut sensor = Sensor::new();
    let w = sensor.set_gain(Gain::X64, 0x00);
    assert_eq!(w.reg, RegAddrs::HGAIN);
    assert_eq!(w.value, 0x10);
    let w = sensor.set_gain(Gain::X1, 0xFF);
    assert_eq!(w.value, 0b1110_0011);
}

#[test]
fn set_resolution_targets_res_bits_0_to_3_and_updates_mask() {
    let mut sensor = Sensor::new();
    let w = sensor.set_resolution(BitsResolution::_14, 0x60);
    assert_eq!(w.reg, RegAddrs::RES);
    assert_eq!(w.value, 0x66);
    assert_eq!(sensor.resolution_mask, 0x3FFF);

    let w = sensor.set_resolution(BitsResolution::_8, 0xFF);
    assert_eq!(w.value, 0xF0);
    assert_eq!(sensor.resolution_mask, 0xFF);
}

#[test]
fn repeated_configuration_writes_are_idempotent() {
    let mut sensor = Sensor::new();

    let w1 = sensor.set_gain(Gain::X8, 0xA5);
    let w2 = sensor.set_gain(Gain::X8, w1.value);
    assert_eq!(w2.value, w1.value);

    let w1 = sensor.set_adc_wait_time(ADCWaitTime::Ms75, 0x3C);
    let w2 = sensor.set_adc_wait_time(ADCWaitTime::Ms75, w1.value);
    assert_eq!(w2.value, w1.value);

    let w1 = sensor.set_resolution(BitsResolution::_17, 0x99);
    let w2 = sensor.set_resolution(BitsResolution::_17, w1.value);
    assert_eq!(w2.value, w1.value);

    let (e1, p1) = sensor.set_led_current(LedCurrent::Ma30, 0x55, 0xAA);
    let (e2, p2) = sensor.set_led_current(LedCurrent::Ma30, e1.value, p1.value);
    assert_eq!(e2.value, e1.value);
    assert_eq!(p2.value, p1.value);

    let w1 = sensor.set_hrs_active(true, 0x12);
    let w2 = sensor.set_hrs_active(true, w1.value);
    assert_eq!(w2.value, w1.value);

    let w1 = sensor.set_osc_active(false, 0xFF);
    let w2 = sensor.set_osc_active(false, w1.value);
    assert_eq!(w2.value, w1.value);
}

#[test]
fn sample_assembly_follows_the_burst_table() {
    let sensor = Sensor::new();
    // positions: 0 C1DATAM, 1 C0DATAM, 2 C0DATAH, 3 PDRIVER (unused),
    //            4 C1DATAH, 5 C1DATAL, 6 C0DATAL
    let buf: [u8; 7] = [0x12, 0x34, 0x56, 0x00, 0x78, 0x9A, 0xBC];
    let s = sensor.read_raw_sample(&buf);
    // als raw = (0x9A & 7) | 0x12 << 3 | (0x78 & 0x7F) << 11 = 0x3C092,
    // masked to 15 bits
    assert_eq!(s.als, 0x4092);
    // hrs raw = (0xBC & 0xF) | (0x56 & 0xF) << 4 | 0x34 << 8
    //         | ((0xBC >> 4) & 3) << 16 = 0x3346C, masked to 15 bits
    assert_eq!(s.hrs, 0x346C);
}

#[test]
fn sample_assembly_at_full_resolution() {
    let mut sensor = Sensor::new();
    sensor.set_resolution(BitsResolution::_18, 0x66);
    let buf: [u8; 7] = [0x12, 0x34, 0x56, 0x00, 0x78, 0x9A, 0xBC];
    let s = sensor.read_raw_sample(&buf);
    assert_eq!(s.als, 0x3C092);
    assert_eq!(s.hrs, 0x3346C);

    let all_ones: [u8; 7] = [0xFF; 7];
    let s = sensor.read_raw_sample(&all_ones);
    assert_eq!(s.als, 0x3FFFF);
    assert_eq!(s.hrs, 0x3FFFF);
}

#[test]
fn sample_assembly_masks_high_bits_at_low_resolution() {
    let mut sensor = Sensor::new();
    sensor.set_resolution(BitsResolution::_8, 0x66);
    let buf: [u8; 7] = [0x12, 0x34, 0x56, 0x00, 0x78, 0x9A, 0xBC];
    let s = sensor.read_raw_sample(&buf);
    assert_eq!(s.als, 0x92);
    assert_eq!(s.hrs, 0x6C);
}

#[test]
fn sample_assembly_ignores_the_interleaved_driver_byte() {
    let sensor = Sensor::new();
    let a = sensor.read_raw_sample(&[0x12, 0x34, 0x56, 0x00, 0x78, 0x9A, 0xBC]);
    let b = sensor.read_raw_sample(&[0x12, 0x34, 0x56, 0xFF, 0x78, 0x9A, 0xBC]);
    assert_eq!(a.hrs, b.hrs);
    assert_eq!(a.als, b.als);
}
