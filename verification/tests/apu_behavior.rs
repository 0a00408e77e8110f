//! Behaviour of the GBA APU (Audio Processing Unit)

use rgba::Apu;

/// Scenario: APU initializes in silent state
#[test]
fn apu_initializes_with_no_sound_playing() {
    let apu = Apu::new();

    // APU should start with no sound
}

/// Scenario: APU can be reset
#[test]
fn apu_reset_clears_all_state() {
    let mut apu = Apu::new();

    apu.reset();

    // All channels should be silent
    // All registers should be at default values
}
