use gbemu::sound::{frame_seq_actions, NoiseChannel, Sound};

#[test]
fn frame_sequencer_schedule() {
    let expect = [
        (true, false, false),
        (false, false, false),
        (true, true, false),
        (false, false, false),
        (true, false, false),
        (false, false, false),
        (true, true, false),
        (false, false, true),
    ];
    for (step, e) in expect.iter().enumerate() {
        assert_eq!(frame_seq_actions(step as u8), *e);
    }
}

#[test]
fn frame_sequencer_steps_every_8192_cycles() {
    let mut s = Sound::new();
    s.write_byte(0xFF26, 0x80);
    assert_eq!(s.frame_seq, 0);
    s.cycle(8191);
    assert_eq!(s.frame_seq, 0);
    s.cycle(1);
    assert_eq!(s.frame_seq, 1);
    s.cycle(8192 * 7);
    assert_eq!(s.frame_seq, 0);
}

#[test]
fn length_counter_stops_the_channel() {
    let mut s = Sound::new();
    s.write_byte(0xFF26, 0x80);
    s.write_byte(0xFF12, 0xF0); // DAC on
    s.write_byte(0xFF11, 62); // length 64 - 62 = 2
    s.write_byte(0xFF14, 0xC0); // trigger with length enabled
    assert_eq!(s.read_byte(0xFF26) & 1, 1);
    s.cycle(8192 * 4);
    assert_eq!(s.read_byte(0xFF26) & 1, 0);
}

#[test]
fn dac_off_stops_the_channel() {
    let mut s = Sound::new();
    s.write_byte(0xFF26, 0x80);
    s.write_byte(0xFF17, 0xF0);
    s.write_byte(0xFF19, 0x80);
    assert_eq!(s.read_byte(0xFF26) & 2, 2);
    s.write_byte(0xFF17, 0x00);
    assert_eq!(s.read_byte(0xFF26) & 2, 0);
}

#[test]
fn power_off_zeroes_registers_and_ignores_writes() {
    let mut s = Sound::new();
    s.write_byte(0xFF26, 0x80);
    s.write_byte(0xFF25, 0xF3);
    s.write_byte(0xFF30, 0xAB);
    s.write_byte(0xFF26, 0x00);
    assert_eq!(s.read_byte(0xFF25), 0);
    s.write_byte(0xFF25, 0xFF);
    assert_eq!(s.read_byte(0xFF25), 0);
    assert_eq!(s.read_byte(0xFF30), 0xAB);
    assert_eq!(s.read_byte(0xFF26) & 0x80, 0);
}

#[test]
fn mixer_fills_buffers() {
    let mut s = Sound::new();
    s.write_byte(0xFF26, 0x80);
    s.write_byte(0xFF24, 0x77);
    s.write_byte(0xFF25, 0x11);
    s.write_byte(0xFF12, 0xF0);
    s.write_byte(0xFF11, 0x80);
    s.write_byte(0xFF14, 0x87);
    for _ in 0..2000 {
        s.cycle(95);
    }
    let (l, r) = s.take_audio().expect("a full buffer");
    assert_eq!(l.len(), gbemu::sound::AUDIO_BUF_LEN);
    assert_eq!(r.len(), l.len());
    assert!(l.iter().any(|&x| x == 15 * 8));
    assert!(l.iter().all(|&x| x == 0 || x == 15 * 8));
    assert!(s.take_audio().is_none());
}

#[test]
fn noise_lfsr_shifts_once_per_period() {
    let mut ch = NoiseChannel::new();
    ch.ff22 = 0x00; // divider 8, shift 0, 15-bit mode
    ch.cycle(7);
    assert_eq!(ch.lfsr, 0);
    ch.cycle(1);
    assert_eq!(ch.lfsr, 0x4000);
    ch.cycle(8);
    assert_eq!(ch.lfsr, 0x6000);

    let mut short = NoiseChannel::new();
    short.ff22 = 0x08; // 7-bit mode
    short.cycle(8);
    assert_eq!(short.lfsr, 0x4040);
}

#[test]
fn noise_period_formula() {
    let mut ch = NoiseChannel::new();
    ch.ff22 = 0x23; // shift 2, divider code 3: 48 << 2 = 192
    ch.cycle(191);
    assert_eq!(ch.lfsr, 0);
    ch.cycle(1);
    assert_eq!(ch.lfsr, 0x4000);
    assert_eq!(ch.period, 192);
}
