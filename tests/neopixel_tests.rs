use neopixel::{encode, encode_word, pulse_ticks, BitTiming, EncodeError, InvalidRange, Level, Pulse, Rgb};

const RMT_80_MHZ: u32 = 80_000_000;

fn zero_pair(t: &BitTiming) -> (Pulse, Pulse) {
    (t.zero_high, t.zero_low)
}

fn one_pair(t: &BitTiming) -> (Pulse, Pulse) {
    (t.one_high, t.one_low)
}

#[test]
fn hsv_domain_never_fails_and_stays_in_byte_range() {
    for h in 0..=360u32 {
        for s in (0..=100u32).step_by(5) {
            for v in (0..=100u32).step_by(5) {
                let c = Rgb::from_hsv(h, s, v);
                assert!(c.is_ok(), "({}, {}, {})", h, s, v);
            }
        }
    }
}

#[test]
fn hsv_out_of_domain_is_invalid_range() {
    assert_eq!(Rgb::from_hsv(361, 100, 100), Err(InvalidRange));
    assert_eq!(Rgb::from_hsv(0, 150, 100), Err(InvalidRange));
    assert_eq!(Rgb::from_hsv(0, 100, 101), Err(InvalidRange));
    assert_eq!(Rgb::from_hsv(361, 150, 0), Err(InvalidRange));
    assert_eq!(Rgb::from_hsv(u32::MAX, 0, 0), Err(InvalidRange));
}

#[test]
fn hsv_primaries() {
    assert_eq!(Rgb::from_hsv(0, 100, 100), Ok(Rgb::new(255, 0, 0)));
    assert_eq!(Rgb::from_hsv(240, 100, 100), Ok(Rgb::new(0, 0, 255)));
    assert_eq!(Rgb::from_hsv(120, 100, 100), Ok(Rgb::new(0, 255, 0)));
    assert_eq!(Rgb::from_hsv(60, 100, 100), Ok(Rgb::new(255, 255, 0)));
    assert_eq!(Rgb::from_hsv(360, 100, 100), Ok(Rgb::new(255, 0, 0)));
}

#[test]
fn hsv_zero_value_is_black_for_any_hue() {
    assert_eq!(Rgb::from_hsv(0, 0, 0), Ok(Rgb::new(0, 0, 0)));
    for h in 0..=360u32 {
        for s in 0..=100u32 {
            assert_eq!(Rgb::from_hsv(h, s, 0), Ok(Rgb::new(0, 0, 0)));
        }
    }
}

#[test]
fn hsv_truncates_instead_of_rounding() {
    assert_eq!(Rgb::from_hsv(0, 100, 20), Ok(Rgb::new(51, 0, 0)));
    // 0.5 * 255 = 127.5 truncates to 127
    assert_eq!(Rgb::from_hsv(0, 100, 50), Ok(Rgb::new(127, 0, 0)));
}

#[test]
fn hsv_grey_and_mixed_sectors() {
    assert_eq!(Rgb::from_hsv(200, 0, 100), Ok(Rgb::new(255, 255, 255)));
    assert_eq!(Rgb::from_hsv(0, 0, 10), Ok(Rgb::new(25, 25, 25)));
    // 175 degrees lies in the green-to-cyan sector
    assert_eq!(Rgb::from_hsv(175, 100, 100), Ok(Rgb::new(0, 255, 233)));
    assert_eq!(Rgb::from_hsv(30, 100, 100), Ok(Rgb::new(255, 127, 0)));
    assert_eq!(Rgb::from_hsv(300, 50, 100), Ok(Rgb::new(255, 127, 255)));
}

#[test]
fn rgb_packs_into_a_24_bit_word() {
    assert_eq!(u32::from(Rgb::new(0x12, 0x34, 0x56)), 0x12_34_56);
    assert_eq!(u32::from(Rgb::new(255, 0, 0)), 0xFF_00_00);
    assert_eq!(u32::from(Rgb::new(0, 0, 0)), 0);
}

#[test]
fn pulse_ticks_truncate_at_the_tick_rate() {
    assert_eq!(pulse_ticks(RMT_80_MHZ, 350), Ok(28));
    assert_eq!(pulse_ticks(RMT_80_MHZ, 800), Ok(64));
    assert_eq!(pulse_ticks(RMT_80_MHZ, 700), Ok(56));
    assert_eq!(pulse_ticks(RMT_80_MHZ, 600), Ok(48));
    assert_eq!(pulse_ticks(10_000_000, 350), Ok(3));
    assert_eq!(pulse_ticks(0, 350), Ok(0));
}

#[test]
fn pulse_ticks_rejects_a_pulse_that_does_not_fit() {
    assert_eq!(pulse_ticks(RMT_80_MHZ, 409_587), Ok(32766));
    assert_eq!(pulse_ticks(RMT_80_MHZ, 409_600), Err(EncodeError::DurationUnrepresentable));
    assert_eq!(pulse_ticks(u32::MAX, u64::MAX), Err(EncodeError::DurationUnrepresentable));
    assert_eq!(
        Pulse::with_duration(RMT_80_MHZ, Level::High, 1_000_000),
        Err(EncodeError::DurationUnrepresentable)
    );
}

#[test]
fn bit_timing_at_80_mhz() {
    let t = BitTiming::for_tick_rate(RMT_80_MHZ).unwrap();
    assert_eq!(t.zero_high, Pulse { level: Level::High, ticks: 28 });
    assert_eq!(t.zero_low, Pulse { level: Level::Low, ticks: 64 });
    assert_eq!(t.one_high, Pulse { level: Level::High, ticks: 56 });
    assert_eq!(t.one_low, Pulse { level: Level::Low, ticks: 48 });
    assert_eq!(t.pair_for(true), one_pair(&t));
    assert_eq!(t.pair_for(false), zero_pair(&t));
}

#[test]
fn encode_red_sends_eight_ones_then_sixteen_zeros() {
    let train = encode(Rgb::new(255, 0, 0), RMT_80_MHZ).unwrap();
    let t = BitTiming::for_tick_rate(RMT_80_MHZ).unwrap();
    assert_eq!(train.len(), 24);
    for (i, pair) in train.iter().enumerate() {
        if i < 8 {
            assert_eq!(*pair, one_pair(&t));
        } else {
            assert_eq!(*pair, zero_pair(&t));
        }
    }
}

#[test]
fn encode_black_sends_only_zeros() {
    let train = encode(Rgb::new(0, 0, 0), RMT_80_MHZ).unwrap();
    let t = BitTiming::for_tick_rate(RMT_80_MHZ).unwrap();
    assert_eq!(train.len(), 24);
    assert!(train.iter().all(|p| *p == zero_pair(&t)));
}

#[test]
fn encode_word_is_most_significant_bit_first() {
    let t = BitTiming::for_tick_rate(RMT_80_MHZ).unwrap();
    let train = encode_word(0x80_00_01, &t);
    assert_eq!(train.len(), 24);
    assert_eq!(train[0], one_pair(&t));
    assert_eq!(train[23], one_pair(&t));
    assert!(train[1..23].iter().all(|p| *p == zero_pair(&t)));
}

#[test]
fn zero_high_ticks_are_uniform_for_any_tick_rate() {
    for hz in [1u32, 1_000_000, 10_000_000, 40_000_000, RMT_80_MHZ, u32::MAX] {
        let train = encode(Rgb::new(0x5A, 0x0F, 0xC3), hz).unwrap();
        let t = BitTiming::for_tick_rate(hz).unwrap();
        let word = u32::from(Rgb::new(0x5A, 0x0F, 0xC3));
        for (i, pair) in train.iter().enumerate() {
            let bit = (word >> (23 - i)) & 1 == 1;
            if bit {
                assert_eq!(*pair, one_pair(&t));
            } else {
                assert_eq!(pair.0.ticks, t.zero_high.ticks);
                assert_eq!(pair.0.level, Level::High);
            }
        }
    }
}

#[test]
fn green_at_half_value_encodes_a_full_frame() {
    let rgb = Rgb::from_hsv(120, 100, 50).unwrap();
    assert_eq!(rgb, Rgb::new(0, 127, 0));
    let train = encode(rgb, RMT_80_MHZ).unwrap();
    let t = BitTiming::for_tick_rate(RMT_80_MHZ).unwrap();
    assert_eq!(train.len(), 24);
    let bits: Vec<bool> = train.iter().map(|p| *p == one_pair(&t)).collect();
    let expected: Vec<bool> = (0..24).map(|i| (0x00_7F_00u32 >> (23 - i)) & 1 == 1).collect();
    assert_eq!(bits, expected);
}
