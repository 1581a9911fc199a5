use gbemu::timer::{InterruptFlags, Timer, TimerRateHz};

#[test]
fn multiple_overflows_in_one_timer_cycle() {
    let mut timer = Timer::new_enabled(TimerRateHz::F262144);
    timer.step(36);

    assert_eq!(timer.val, 2);
    assert_eq!(timer.cycles, 4);
}

#[test]
fn timer_overflow() {
    let freq = TimerRateHz::F262144;

    let mut timer = Timer::new_enabled(freq);
    assert!(timer.step(freq.per_cpu_cycle() * (u8::MAX as u32 + 1)));
    assert_eq!((timer.val, timer.cycles), (0, 0));

    let mut timer = Timer::new_enabled(freq);
    assert!(!timer.step(freq.per_cpu_cycle() * (u8::MAX as u32) + freq.per_cpu_cycle() - 1));
    assert_eq!(
        (timer.val, timer.cycles),
        (u8::MAX, freq.per_cpu_cycle() - 1)
    );
}

#[test]
fn timer_rates() {
    assert_eq!(TimerRateHz::F4096.per_cpu_cycle(), 1024);
    assert_eq!(TimerRateHz::F262144.per_cpu_cycle(), 16);
    assert_eq!(TimerRateHz::F65536.per_cpu_cycle(), 64);
    assert_eq!(TimerRateHz::F16384.per_cpu_cycle(), 256);
}

#[test]
fn overflow_reloads_from_modulo() {
    let mut timer = Timer::new_enabled(TimerRateHz::F262144);
    timer.modulo = 0xF0;
    timer.val = 0xFF;
    assert!(timer.step(32));
    assert_eq!(timer.val, 0xF1);
}

#[test]
fn disabled_timer_stands_still() {
    let mut timer = Timer::new_disabled(TimerRateHz::F262144);
    assert!(!timer.step(1000));
    assert_eq!((timer.val, timer.cycles), (0, 0));
}

#[test]
fn interrupt_flags_round_trip() {
    let f = InterruptFlags::from(0b10101);
    assert!(f.vblank && !f.lcd && f.timer && !f.serial && f.joypad);
    assert_eq!(u8::from(f), 0b10101);
    assert_eq!(u8::from(InterruptFlags::from(0xFF)), 0x1F);
}
