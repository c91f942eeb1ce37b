use stm32f103xx_hal::time::{
    Bps, ExactInto, Hertz, Hours, KiloHertz, MegaHertz, Microseconds, Milliseconds, Minutes,
    MonoTimer, Seconds, U32Ext,
};

#[test]
fn u32_ext_tags_the_integer() {
    assert_eq!(115_200u32.bps(), Bps(115_200));
    assert_eq!(50u32.hz(), Hertz(50));
    assert_eq!(8u32.khz(), KiloHertz(8));
    assert_eq!(72u32.mhz(), MegaHertz(72));
    assert_eq!(3u32.s(), Seconds(3));
    assert_eq!(250u32.ms(), Milliseconds(250));
    assert_eq!(2_000_000u32.us(), Microseconds(2_000_000));
}

#[test]
fn u32_ext_keeps_the_extremes() {
    assert_eq!(0u32.us().0, 0);
    assert_eq!(u32::MAX.us().0, u32::MAX);
    assert_eq!(u32::MAX.hz().0, u32::MAX);
}

#[test]
fn kilohertz_to_hertz() {
    let hz: Hertz = KiloHertz(8).exact_into();
    assert_eq!(hz, Hertz(8_000));
    let hz: Hertz = KiloHertz(0).exact_into();
    assert_eq!(hz, Hertz(0));
    let hz: Hertz = KiloHertz(4_294_967).exact_into();
    assert_eq!(hz, Hertz(4_294_967_000));
}

#[test]
fn megahertz_to_hertz() {
    let hz: Hertz = MegaHertz(72).exact_into();
    assert_eq!(hz, Hertz(72_000_000));
    let hz: Hertz = MegaHertz(4_294).exact_into();
    assert_eq!(hz, Hertz(4_294_000_000));
}

#[test]
fn megahertz_to_kilohertz() {
    let khz: KiloHertz = MegaHertz(72).exact_into();
    assert_eq!(khz, KiloHertz(72_000));
    let khz: KiloHertz = MegaHertz(4_294_967).exact_into();
    assert_eq!(khz, KiloHertz(4_294_967_000));
}

#[test]
fn seconds_to_milliseconds() {
    let ms: Milliseconds = Seconds(2).exact_into();
    assert_eq!(ms, Milliseconds(2_000));
}

#[test]
fn seconds_to_microseconds() {
    let us: Microseconds = Seconds(2).exact_into();
    assert_eq!(us, Microseconds(2_000_000));
    let us: Microseconds = Seconds(4_294).exact_into();
    assert_eq!(us, Microseconds(4_294_000_000));
}

#[test]
fn milliseconds_to_microseconds() {
    let us: Microseconds = Milliseconds(1_600).exact_into();
    assert_eq!(us, Microseconds(1_600_000));
}

#[test]
fn minutes_to_seconds() {
    let s: Seconds = Minutes(3).exact_into();
    assert_eq!(s, Seconds(180));
    let s: Seconds = Minutes(71_582_788).exact_into();
    assert_eq!(s, Seconds(4_294_967_280));
}

#[test]
fn hours_to_minutes() {
    let min: Minutes = Hours(2).exact_into();
    assert_eq!(min, Minutes(120));
}

#[test]
fn hours_to_seconds() {
    let s: Seconds = Hours(2).exact_into();
    assert_eq!(s, Seconds(7_200));
    let s: Seconds = Hours(1_193_046).exact_into();
    assert_eq!(s, Seconds(4_294_965_600));
}

#[test]
fn a_unit_converts_into_itself_unchanged() {
    let us: Microseconds = Microseconds(u32::MAX).exact_into();
    assert_eq!(us, Microseconds(u32::MAX));
    let hz: Hertz = Hertz(1).exact_into();
    assert_eq!(hz, Hertz(1));
}

#[test]
fn scaling_in_two_steps_is_scaling_in_one() {
    for h in [0u32, 1, 24, 1_000, 1_193_046] {
        let direct: Seconds = Hours(h).exact_into();
        let minutes: Minutes = Hours(h).exact_into();
        let by_minutes: Seconds = minutes.exact_into();
        assert_eq!(direct, by_minutes);
    }
    for s in [0u32, 1, 59, 4_294] {
        let direct: Microseconds = Seconds(s).exact_into();
        let millis: Milliseconds = Seconds(s).exact_into();
        let by_millis: Microseconds = millis.exact_into();
        assert_eq!(direct, by_millis);
    }
    for m in [0u32, 8, 72, 4_294] {
        let direct: Hertz = MegaHertz(m).exact_into();
        let kilo: KiloHertz = MegaHertz(m).exact_into();
        let by_kilo: Hertz = kilo.exact_into();
        assert_eq!(direct, by_kilo);
    }
}

#[test]
fn mono_timer_reports_its_frequency() {
    let timer = MonoTimer::new(8_000_000u32.hz());
    assert_eq!(timer.frequency(), Hertz(8_000_000));
    let fast = MonoTimer::new(Hertz(72_000_000));
    assert_eq!(fast.frequency().0, 72_000_000);
}

#[test]
fn elapsed_between_two_instants() {
    let timer = MonoTimer::new(Hertz(8_000_000));
    let a = timer.now(1_000);
    let b = timer.now(1_250);
    assert_eq!(a.elapsed_till(&b), 250);
    assert_eq!(b.elapsed_since(&a), 250);
}

#[test]
fn elapsed_across_a_wrap_of_the_counter() {
    let timer = MonoTimer::new(Hertz(8_000_000));
    let a = timer.now(0xFFFF_FFF0);
    let b = timer.now(0x0000_0010);
    assert_eq!(a.elapsed_till(&b), 0x20);
    assert_eq!(b.elapsed_since(&a), 0x20);
    assert_eq!(a.elapsed(0x0000_0011), 0x21);
}

#[test]
fn elapsed_in_the_wrong_order_is_the_rest_of_the_turn() {
    let timer = MonoTimer::new(Hertz(8_000_000));
    let a = timer.now(1_000);
    let b = timer.now(1_250);
    assert_eq!(b.elapsed_till(&a), 0xFFFF_FF06);
    assert_eq!(a.elapsed_since(&b), 0xFFFF_FF06);
    assert_eq!(a.elapsed_till(&a), 0);
    assert_eq!(a.elapsed(1_000), 0);
}

#[test]
fn elapsed_is_the_true_cycle_difference() {
    let timer = MonoTimer::new(Hertz(72_000_000));
    let turn: u64 = 1 << 32;
    let starts: [u64; 6] = [0, 1, turn - 1, turn, 3 * turn + 17, 5 * turn - 1];
    let gaps: [u64; 6] = [0, 1, 1_000, turn / 2, turn - 2, turn - 1];
    for start in starts {
        for gap in gaps {
            let a = timer.now((start % turn) as u32);
            let b = timer.now(((start + gap) % turn) as u32);
            assert_eq!(u64::from(a.elapsed_till(&b)), gap);
            assert_eq!(u64::from(b.elapsed_since(&a)), gap);
            assert_eq!(u64::from(a.elapsed(((start + gap) % turn) as u32)), gap);
            assert_eq!(a.elapsed_till(&b), b.elapsed_since(&a));
        }
    }
}
