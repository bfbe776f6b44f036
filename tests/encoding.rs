use hall_led::color::{raw_to_millivolts, voltage_to_color, Color};
use hall_led::frame::{process_sample, ws2812_encode, BUFFER_SIZE};
use hall_led::timing::{led_pulses_for_clock, PulseCode};

fn delimiter() -> PulseCode {
    PulseCode { level1: false, length1: 0, level2: false, length2: 0 }
}

fn empty_buffer() -> [PulseCode; BUFFER_SIZE] {
    [PulseCode { level1: true, length1: 7, level2: true, length2: 7 }; BUFFER_SIZE]
}

#[test]
fn pulses_at_80_mhz() {
    let (zero, one) = led_pulses_for_clock(80);
    assert_eq!(zero, PulseCode { level1: true, length1: 32, level2: false, length2: 68 });
    assert_eq!(one, PulseCode { level1: true, length1: 68, level2: false, length2: 32 });
}

#[test]
fn pulses_truncate_ticks() {
    let (zero, one) = led_pulses_for_clock(3);
    assert_eq!((zero.length1, zero.length2), (1, 2));
    assert_eq!((one.length1, one.length2), (2, 1));
}

#[test]
fn pulse_period_is_1250_ns() {
    for f in [1u32, 4, 10, 26, 40, 80, 160, 240] {
        let (zero, one) = led_pulses_for_clock(f);
        for p in [zero, one] {
            let ticks = p.length1 as u64 + p.length2 as u64;
            let ns_times_f = ticks * 1000;
            let exact = 1250 * f as u64;
            assert!(ns_times_f <= exact);
            if f % 4 == 0 {
                assert!(ns_times_f + 1000 >= exact);
            }
        }
    }
}

#[test]
fn pulses_at_largest_clock() {
    let (zero, one) = led_pulses_for_clock(38550);
    assert_eq!(zero.length1, 15420);
    assert_eq!(zero.length2, 32767);
    assert_eq!(one.length1, 32767);
    assert_eq!(one.length2, 15420);
}

#[test]
fn frame_has_data_then_delimiter() {
    let pulses = led_pulses_for_clock(80);
    for color in [Color::new(0, 0, 0), Color::new(255, 255, 255), Color::new(18, 200, 7)] {
        let mut buf = empty_buffer();
        ws2812_encode(color, pulses, &mut buf);
        for slot in &buf[..24] {
            assert!(*slot == pulses.0 || *slot == pulses.1);
        }
        assert_eq!(buf[24], delimiter());
    }
}

#[test]
fn bit_order_msb_first_green_first() {
    let pulses = led_pulses_for_clock(80);
    let mut buf = empty_buffer();
    ws2812_encode(Color::new(0, 0b1011_0000, 0), pulses, &mut buf);
    for (i, slot) in buf[..8].iter().enumerate() {
        if i == 0 || i == 2 || i == 3 {
            assert_eq!(*slot, pulses.1, "slot {}", i);
        } else {
            assert_eq!(*slot, pulses.0, "slot {}", i);
        }
    }
    for slot in &buf[8..24] {
        assert_eq!(*slot, pulses.0);
    }
    assert_eq!(buf[24], delimiter());
}

#[test]
fn channel_order_green_red_blue() {
    let pulses = led_pulses_for_clock(80);
    let mut buf = empty_buffer();
    ws2812_encode(Color::new(0x01, 0x80, 0xFF), pulses, &mut buf);
    let bits: Vec<bool> = buf[..24].iter().map(|p| *p == pulses.1).collect();
    let expected: Vec<bool> = [0x80u8, 0x01, 0xFF]
        .iter()
        .flat_map(|b| (0..8).rev().map(move |i| (b >> i) & 1 == 1))
        .collect();
    assert_eq!(bits, expected);
}

#[test]
fn red_at_80_mhz_end_to_end() {
    let pulses = led_pulses_for_clock(80);
    let mut buf = empty_buffer();
    ws2812_encode(Color::new(255, 0, 0), pulses, &mut buf);
    for slot in &buf[0..8] {
        assert_eq!(*slot, pulses.0);
    }
    for slot in &buf[8..16] {
        assert_eq!(*slot, pulses.1);
    }
    for slot in &buf[16..24] {
        assert_eq!(*slot, pulses.0);
    }
    assert_eq!(buf[24], delimiter());
}

#[test]
fn color_boundaries() {
    for v in [0u32, 100, 499, 500] {
        assert_eq!(voltage_to_color(v), Color::new(255, 0, 0));
    }
    for v in [2800u32, 2801, 3300, u32::MAX] {
        assert_eq!(voltage_to_color(v), Color::new(0, 0, 255));
    }
}

#[test]
fn color_at_midpoint() {
    assert_eq!(voltage_to_color(1650), Color::new(128, 0, 128));
    assert_eq!(voltage_to_color(730), Color::new(230, 0, 26));
}

#[test]
fn color_is_monotone_across_range() {
    let mut prev = voltage_to_color(500);
    for v in 501u32..=2800 {
        let c = voltage_to_color(v);
        assert!(c.r <= prev.r && c.b >= prev.b, "at {} mV", v);
        assert_eq!(c.g, 0);
        prev = c;
    }
}

#[test]
fn color_mapping_is_repeatable() {
    for v in [0u32, 777, 1650, 2222, 4000] {
        assert_eq!(voltage_to_color(v), voltage_to_color(v));
    }
}

#[test]
fn raw_reading_scenarios() {
    assert_eq!(raw_to_millivolts(0), 0);
    assert_eq!(voltage_to_color(0), Color::new(255, 0, 0));
    assert_eq!(raw_to_millivolts(4095), 3300);
    assert_eq!(voltage_to_color(3300), Color::new(0, 0, 255));
    assert_eq!(raw_to_millivolts(2069), 1667);
    assert_eq!(voltage_to_color(1667), Color::new(126, 0, 129));
}

#[test]
fn sample_cycle_fills_frame() {
    let pulses = led_pulses_for_clock(80);
    let mut buf = empty_buffer();
    let (mv, color) = process_sample(0, pulses, &mut buf);
    assert_eq!(mv, 0);
    assert_eq!(color, Color::new(255, 0, 0));
    let mut expected = empty_buffer();
    ws2812_encode(color, pulses, &mut expected);
    assert_eq!(buf, expected);

    let (mv, color) = process_sample(2069, pulses, &mut buf);
    assert_eq!((mv, color), (1667, Color::new(126, 0, 129)));
    ws2812_encode(color, pulses, &mut expected);
    assert_eq!(buf, expected);
}
