use picorom::sfx::{Effect, Instrument, Note, Pitch, Section, Sfx, Switches};

/// A note packed from its fields, as the 16-bit layout places them:
/// bits 0-5 pitch, 6-8 waveform, 9-11 volume, 12-14 effect, 15 custom flag.
fn packed(pitch: u16, waveform: u16, volume: u16, effect: u16, custom: bool) -> (u8, u8) {
    let p = pitch | (waveform << 6) | (volume << 9) | (effect << 12) | ((custom as u16) << 15);
    ((p & 0xff) as u8, (p >> 8) as u8)
}

#[test]
fn note_fields_decode_from_two_bytes() {
    let (lo, hi) = packed(33, 3, 5, 2, false);
    let note = Note::from_bytes(lo, hi);
    assert_eq!(u8::from(note.pitch()), 33);
    assert_eq!(note.volume(), 5);
    assert_eq!(note.effect(), Effect::Vibrato);
    assert_eq!(note.instrument(), Instrument::Square);
}

#[test]
fn note_custom_flag_selects_the_instrument_table() {
    let (lo, hi) = packed(0, 3, 0, 0, true);
    let note = Note::from_bytes(lo, hi);
    assert_eq!(note.instrument(), Instrument::Sfx(3));
    let (lo, hi) = packed(0, 3, 0, 0, false);
    assert_eq!(Note::from_bytes(lo, hi).instrument(), Instrument::Square);
}

#[test]
fn note_effect_codes_cover_the_space() {
    let effects = [
        Effect::NoEffect,
        Effect::Slide,
        Effect::Vibrato,
        Effect::Drop,
        Effect::FadeIn,
        Effect::FadeOut,
        Effect::ArpeggioFast,
        Effect::ArpeggioSlow,
    ];
    for code in 0u16..8 {
        let (lo, hi) = packed(0, 0, 0, code, false);
        assert_eq!(Note::from_bytes(lo, hi).effect(), effects[code as usize]);
    }
}

#[test]
fn note_waveform_codes_cover_the_fixed_instruments() {
    let instruments = [
        Instrument::Triangle,
        Instrument::TiltedSaw,
        Instrument::Saw,
        Instrument::Square,
        Instrument::Pulse,
        Instrument::Organ,
        Instrument::Noise,
        Instrument::Phaser,
    ];
    for code in 0u16..8 {
        let (lo, hi) = packed(0, code, 0, 0, false);
        assert_eq!(Note::from_bytes(lo, hi).instrument(), instruments[code as usize]);
    }
}

#[test]
fn note_setters_fill_an_empty_note() {
    let mut note = Note::default();
    note.set_pitch(Pitch::new(33).unwrap());
    note.set_volume(5);
    note.set_effect(Effect::Slide);
    note.set_instrument(Instrument::Noise);
    assert_eq!(u8::from(note.pitch()), 33);
    assert_eq!(note.volume(), 5);
    assert_eq!(note.effect(), Effect::Slide);
    assert_eq!(note.instrument(), Instrument::Noise);
}

#[test]
fn note_setter_for_custom_instrument() {
    let mut note = Note::default();
    note.set_instrument(Instrument::Sfx(5));
    assert_eq!(note.instrument(), Instrument::Sfx(5));
}

#[test]
fn sfx_record_decodes_scalars_and_notes() {
    let mut bytes = vec![0u8; 68];
    let (lo, hi) = packed(21, 0, 7, 0, false);
    // Note 2 occupies bytes 4 and 5.
    bytes[4] = lo;
    bytes[5] = hi;
    bytes[64] = (13 << 3) | 0b010; // noiz on; detune 1, reverb 1, dampen 1
    bytes[65] = 8; // speed
    bytes[66] = 3; // loop start
    bytes[67] = 10; // loop end
    let sfx = Sfx::decode(&bytes, 0);
    assert_eq!(u8::from(sfx.notes[2].pitch()), 21);
    assert_eq!(sfx.notes[2].volume(), 7);
    assert_eq!(u8::from(sfx.notes[0].pitch()), 0);
    assert!(!sfx.switches.tracker_mode);
    assert!(sfx.switches.noiz);
    assert!(!sfx.switches.buzz);
    assert_eq!(sfx.switches.detune(), 1);
    assert_eq!(sfx.switches.reverb(), 1);
    assert_eq!(sfx.switches.dampen(), 1);
    assert_eq!(sfx.speed, 8);
    assert_eq!(sfx.loop_start, 3);
    assert_eq!(sfx.loop_end, 10);
}

#[test]
fn sfx_enabled_needs_one_audible_note() {
    let silent = Sfx::decode(&vec![0u8; 68], 0);
    assert!(!silent.enabled());

    let mut bytes = vec![0u8; 68];
    let (lo, hi) = packed(0, 0, 1, 0, false);
    bytes[62] = lo; // note 31, the last slot
    bytes[63] = hi;
    let audible = Sfx::decode(&bytes, 0);
    assert!(audible.enabled());
}

#[test]
fn sfx_default_is_empty_and_silent() {
    let sfx = Sfx::default();
    assert_eq!(sfx.notes.len(), 32);
    assert!(!sfx.enabled());
    assert_eq!(sfx.speed, 0);
    assert_eq!(sfx.loop_start, 0);
    assert_eq!(sfx.loop_end, 0);
    assert_eq!(sfx.switches, Switches::default());
}

#[test]
fn sfx_section_decodes_64_records_in_order() {
    let mut bytes = vec![0u8; 4352];
    // Record 63's speed byte sits at 63*68 + 65.
    bytes[63 * 68 + 65] = 12;
    // Record 1's note 0.
    let (lo, hi) = packed(9, 0, 2, 0, false);
    bytes[68] = lo;
    bytes[68 + 1] = hi;
    let section = Section::decode(&bytes, 0);
    assert_eq!(section.sfxes.len(), 64);
    assert_eq!(section.sfxes[63].speed, 12);
    assert_eq!(u8::from(section.sfxes[1].notes[0].pitch()), 9);
    assert_eq!(section.sfxes[1].notes[0].volume(), 2);
    assert_eq!(section.sfxes[0].speed, 0);
}

#[test]
fn sfx_section_default_holds_64_silent_records() {
    let section = Section::default();
    assert_eq!(section.sfxes.len(), 64);
    for sfx in &section.sfxes {
        assert!(!sfx.enabled());
    }
}
