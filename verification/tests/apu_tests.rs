use nes_core::apu::{Apu, Noise, Pulse, Triangle, LENGTH_TABLE, STEP1, STEP2, STEP4, STEP5, TRIANGLE_SEQUENCE};

/// Pulse 1 enabled, 50% duty, constant volume 15, period 16, length 10.
fn sounding_apu() -> Apu {
    let mut a = Apu::new();
    a.write(0x4015, 0x01);
    a.write(0x4000, 0xBF);
    a.write(0x4002, 0x10);
    a.write(0x4003, 0x00);
    a
}

#[test]
fn power_on_is_silent() {
    let mut a = Apu::new();
    assert_eq!(a.levels(), (0, 0, 0, 0));
    for _ in 0..1000 {
        a.tick();
    }
    assert_eq!(a.levels(), (0, 0, 0, 0));
    assert!(!a.frame_mode);
}

#[test]
fn pulse_follows_duty_cycle() {
    let mut a = sounding_apu();
    assert_eq!(a.pulse1.length, LENGTH_TABLE[0]);
    assert_eq!(a.pulse1.timer_period, 16);
    // Step 0 of the 50% waveform is low.
    assert_eq!(a.levels().0, 0);
    // The pulse timer runs every other cycle; at 0 it reloads and steps the sequencer.
    a.tick();
    assert_eq!(a.pulse1.seq_step, 0);
    a.tick();
    assert_eq!(a.pulse1.seq_step, 1);
    assert_eq!(a.levels().0, 15);
    assert_eq!(a.pulse1.timer, 16);
}

#[test]
fn status_write_disables_and_clears_length() {
    let mut a = sounding_apu();
    a.tick();
    a.tick();
    assert_eq!(a.levels().0, 15);
    a.write(0x4015, 0x00);
    assert_eq!(a.pulse1.length, 0);
    assert!(!a.pulse1.enabled);
    assert_eq!(a.levels().0, 0);
    // A disabled channel ignores length loads and stays silent.
    a.write(0x4003, 0x08);
    assert_eq!(a.pulse1.length, 0);
    for _ in 0..100 {
        a.tick();
        assert_eq!(a.levels().0, 0);
    }
}

#[test]
fn length_counter_runs_on_half_frames() {
    let mut a = Apu::new();
    a.write(0x4015, 0x01);
    a.write(0x4000, 0x9F);
    a.write(0x4003, 0x08);
    assert_eq!(a.pulse1.length, 254);
    for _ in 0..STEP2 - 1 {
        a.tick();
    }
    assert_eq!(a.pulse1.length, 254);
    a.tick();
    assert_eq!(a.pulse1.length, 253);
    for _ in STEP2..STEP4 {
        a.tick();
    }
    assert_eq!(a.pulse1.length, 252);
    assert_eq!(a.frame_counter, 0);
}

#[test]
fn halt_flag_freezes_length() {
    let mut a = sounding_apu();
    for _ in 0..STEP4 {
        a.tick();
    }
    assert_eq!(a.pulse1.length, 10);
}

#[test]
fn frame_sequence_lengths() {
    let mut a = Apu::new();
    for _ in 0..STEP4 - 1 {
        a.tick();
    }
    assert_eq!(a.frame_counter, STEP4 - 1);
    a.tick();
    assert_eq!(a.frame_counter, 0);
    a.write(0x4017, 0x80);
    assert!(a.frame_mode);
    for _ in 0..STEP4 {
        a.tick();
    }
    assert_eq!(a.frame_counter, STEP4);
    for _ in STEP4..STEP5 {
        a.tick();
    }
    assert_eq!(a.frame_counter, 0);
}

#[test]
fn five_step_write_clocks_envelope_at_once() {
    let mut a = Apu::new();
    a.write(0x4015, 0x01);
    a.write(0x4000, 0x83);
    a.write(0x4003, 0x00);
    assert!(a.pulse1.env_start);
    a.write(0x4017, 0xC0);
    assert!(a.frame_irq_inhibit);
    assert!(!a.pulse1.env_start);
    assert_eq!(a.pulse1.env_vol, 15);
    assert_eq!(a.pulse1.env_div, 3);
}

#[test]
fn quarter_frame_clocks_envelope() {
    let mut a = Apu::new();
    a.write(0x4015, 0x01);
    a.write(0x4000, 0x80);
    a.write(0x4003, 0x00);
    for _ in 0..STEP1 {
        a.tick();
    }
    assert_eq!(a.pulse1.env_vol, 15);
    for _ in STEP1..STEP2 {
        a.tick();
    }
    assert_eq!(a.pulse1.env_vol, 14);
}

#[test]
fn envelope_decays_and_loops() {
    let mut p = Pulse::new(false);
    p.write0(0x21);
    p.write3(0x00);
    p.clock_envelope();
    assert_eq!(p.env_vol, 15);
    assert_eq!(p.env_div, 1);
    p.clock_envelope();
    assert_eq!(p.env_vol, 15);
    p.clock_envelope();
    assert_eq!(p.env_vol, 14);
    for _ in 0..28 {
        p.clock_envelope();
    }
    assert_eq!(p.env_vol, 0);
    p.clock_envelope();
    p.clock_envelope();
    assert_eq!(p.env_vol, 15);
}

#[test]
fn sweep_moves_period() {
    let mut p = Pulse::new(false);
    p.write2(0x00);
    p.write3(0x01);
    assert_eq!(p.timer_period, 0x100);
    p.write1(0x81);
    p.clock_sweep();
    assert_eq!(p.timer_period, 0x100);
    p.clock_sweep();
    assert_eq!(p.timer_period, 0x180);
    // Pulse 1 negates in one's complement, pulse 2 in two's complement.
    let mut p1 = Pulse::new(true);
    p1.write3(0x01);
    p1.write1(0x89);
    p1.clock_sweep();
    p1.clock_sweep();
    assert_eq!(p1.timer_period, 0x7F);
    let mut p2 = Pulse::new(false);
    p2.write3(0x01);
    p2.write1(0x89);
    p2.clock_sweep();
    p2.clock_sweep();
    assert_eq!(p2.timer_period, 0x80);
}

#[test]
fn sweep_mutes_low_and_overflowing_periods() {
    let mut p = Pulse::new(false);
    p.write2(0x07);
    assert!(p.sweep_muted());
    p.write2(0x08);
    assert!(!p.sweep_muted());
    p.write2(0xFF);
    p.write3(0x07);
    assert_eq!(p.timer_period, 0x7FF);
    p.write1(0x01);
    assert!(p.sweep_muted());
    p.write1(0x09);
    assert!(!p.sweep_muted());
}

#[test]
fn triangle_steps_through_waveform() {
    let mut t = Triangle::new();
    t.set_enabled(true);
    t.write0(0x81);
    t.write2(0x10);
    t.write3(0x00);
    assert_eq!(t.output(), 0);
    t.clock_linear();
    assert_eq!(t.linear_counter, 1);
    assert_eq!(t.output(), TRIANGLE_SEQUENCE[0]);
    t.clock_timer();
    assert_eq!(t.output(), TRIANGLE_SEQUENCE[1]);
    assert_eq!(t.output(), 14);
    // Ultrasonic periods are silenced.
    t.write2(0x01);
    assert_eq!(t.output(), 0);
}

#[test]
fn noise_lfsr_and_output() {
    let mut n = Noise::new();
    assert_eq!(n.shift, 1);
    n.write0(0x1A);
    n.write2(0x00);
    n.set_enabled(true);
    n.write3(0x08);
    assert_eq!(n.length, 254);
    assert_eq!(n.output(), 0);
    n.clock_timer();
    assert_eq!(n.shift, 0x4000);
    assert_eq!(n.output(), 10);
    for _ in 0..100000 {
        n.clock_timer();
        assert!(n.shift != 0 && n.shift < 0x8000);
    }
    let mut s = Noise::new();
    s.write2(0x80);
    assert!(s.mode);
    s.clock_timer();
    assert_eq!(s.shift, 0x4000);
}

#[test]
fn frame_counter_wraps_with_sequence_length() {
    let mut a = Apu::new();
    for _ in 0..(3 * STEP4 + 100) {
        a.tick();
    }
    assert_eq!(a.frame_counter, 100);
    let mut b = Apu::new();
    b.write(0x4017, 0x80);
    for _ in 0..(2 * STEP5 + 7) {
        b.tick();
    }
    assert_eq!(b.frame_counter, 7);
    assert!(b.frame_mode);
}
