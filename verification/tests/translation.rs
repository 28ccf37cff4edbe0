use picorom::music::Pattern;
use picorom::sfx::{Effect, Instrument, Note, Sfx, Switches};
use picorom::translate::{map_music, map_sfx, translate, MusicSfx, UnsupportedFeatureError};

/// An sfx whose first `audible` notes carry volume 5, pitch 33 and the given
/// instrument, with all filters off.
fn simple_sfx(audible: usize, instrument: Instrument, speed: u8) -> Sfx {
    let mut sfx = Sfx::default();
    sfx.speed = speed;
    for i in 0..audible {
        let mut note = Note::default();
        note.set_pitch(picorom::sfx::Pitch::new(33).unwrap());
        note.set_volume(5);
        note.set_instrument(instrument);
        sfx.notes[i] = note;
    }
    sfx
}

#[test]
fn silent_sfx_is_skipped() {
    let sfx = Sfx::default();
    assert_eq!(map_sfx(&sfx), Err(UnsupportedFeatureError::NoActiveNotes));
}

#[test]
fn speed_0_is_rejected_with_a_speed_reason() {
    let sfx = simple_sfx(2, Instrument::Triangle, 0);
    assert_eq!(map_sfx(&sfx), Err(UnsupportedFeatureError::SpeedZero));
}

#[test]
fn odd_speed_is_rejected() {
    let sfx = simple_sfx(2, Instrument::Triangle, 7);
    assert_eq!(map_sfx(&sfx), Err(UnsupportedFeatureError::SpeedOdd));
}

#[test]
fn speed_8_yields_4_frames_per_tone() {
    let sfx = simple_sfx(2, Instrument::Triangle, 8);
    let t = map_sfx(&sfx).unwrap();
    assert_eq!(t.frames_per_tone, 4);
    assert_eq!(t.tones[0].duration, 4);
}

#[test]
fn each_unsupported_filter_is_reported() {
    let mut sfx = simple_sfx(2, Instrument::Triangle, 8);
    sfx.switches.buzz = true;
    assert_eq!(map_sfx(&sfx), Err(UnsupportedFeatureError::FilterBuzz));

    let mut sfx = simple_sfx(2, Instrument::Triangle, 8);
    sfx.switches.noiz = true;
    assert_eq!(map_sfx(&sfx), Err(UnsupportedFeatureError::FilterNoiz));

    let mut sfx = simple_sfx(2, Instrument::Triangle, 8);
    sfx.switches.set_detune(1).unwrap();
    assert_eq!(map_sfx(&sfx), Err(UnsupportedFeatureError::FilterDetune));

    let mut sfx = simple_sfx(2, Instrument::Triangle, 8);
    sfx.switches.set_reverb(2).unwrap();
    assert_eq!(map_sfx(&sfx), Err(UnsupportedFeatureError::FilterReverb));

    let mut sfx = simple_sfx(2, Instrument::Triangle, 8);
    sfx.switches.set_dampen(1).unwrap();
    assert_eq!(map_sfx(&sfx), Err(UnsupportedFeatureError::FilterDampen));
}

#[test]
fn one_bad_effect_rejects_the_whole_sfx() {
    let mut sfx = simple_sfx(8, Instrument::Triangle, 8);
    let mut note = sfx.notes[5];
    note.set_effect(Effect::Slide);
    sfx.notes[5] = note;
    assert_eq!(
        map_sfx(&sfx),
        Err(UnsupportedFeatureError::UnsupportedEffect(Effect::Slide))
    );
}

#[test]
fn an_effect_outside_the_playable_range_is_ignored() {
    // Only 4 notes are playable; the bad effect sits on note 10.
    let mut sfx = simple_sfx(4, Instrument::Triangle, 8);
    sfx.loop_start = 4;
    let mut note = sfx.notes[10];
    note.set_effect(Effect::Vibrato);
    sfx.notes[10] = note;
    let t = map_sfx(&sfx).unwrap();
    assert_eq!(t.tones.len(), 4);
}

#[test]
fn unsupported_instruments_reject_the_whole_sfx() {
    let sfx = simple_sfx(2, Instrument::Organ, 8);
    assert_eq!(
        map_sfx(&sfx),
        Err(UnsupportedFeatureError::UnsupportedInstrument(Instrument::Organ))
    );
    let sfx = simple_sfx(2, Instrument::Sfx(2), 8);
    assert_eq!(
        map_sfx(&sfx),
        Err(UnsupportedFeatureError::UnsupportedInstrument(Instrument::Sfx(2)))
    );
}

#[test]
fn loop_bytes_0_0_play_the_full_buffer() {
    let sfx = simple_sfx(1, Instrument::Triangle, 8);
    let t = map_sfx(&sfx).unwrap();
    assert_eq!(t.loop_restart, None);
    assert_eq!(t.tones.len(), 32);
}

#[test]
fn loop_bytes_5_0_play_five_notes_without_a_loop() {
    let mut sfx = simple_sfx(1, Instrument::Triangle, 8);
    sfx.loop_start = 5;
    let t = map_sfx(&sfx).unwrap();
    assert_eq!(t.loop_restart, None);
    assert_eq!(t.tones.len(), 5);
}

#[test]
fn loop_bytes_3_10_play_ten_notes_restarting_at_3() {
    let mut sfx = simple_sfx(1, Instrument::Triangle, 8);
    sfx.loop_start = 3;
    sfx.loop_end = 10;
    let t = map_sfx(&sfx).unwrap();
    assert_eq!(t.loop_restart, Some(3));
    assert_eq!(t.tones.len(), 10);
}

#[test]
fn loop_sizes_beyond_the_buffer_are_clamped() {
    let mut sfx = simple_sfx(1, Instrument::Triangle, 8);
    sfx.loop_start = 3;
    sfx.loop_end = 200;
    let t = map_sfx(&sfx).unwrap();
    assert_eq!(t.tones.len(), 32);
    assert_eq!(t.loop_restart, Some(3));
}

#[test]
fn volume_rescales_from_0_7_to_0_100() {
    let mut sfx = Sfx::default();
    sfx.speed = 8;
    sfx.loop_start = 3;
    for (i, volume) in [7u8, 0, 3].iter().enumerate() {
        let mut note = Note::default();
        note.set_volume(*volume);
        sfx.notes[i] = note;
    }
    let t = map_sfx(&sfx).unwrap();
    assert_eq!(t.tones[0].volume, 100);
    assert_eq!(t.tones[1].volume, 0);
    assert_eq!(t.tones[2].volume, 42);
}

#[test]
fn tone_flags_select_the_target_channel() {
    for (instrument, flags) in [
        (Instrument::Triangle, 0b10u32),
        (Instrument::Pulse, 0b00),
        (Instrument::Square, 0b1001),
        (Instrument::Noise, 0b11),
    ] {
        let sfx = simple_sfx(1, instrument, 8);
        let t = map_sfx(&sfx).unwrap();
        assert_eq!(t.tones[0].flags, flags);
    }
}

#[test]
fn tone_frequency_comes_from_the_pitch() {
    let sfx = simple_sfx(1, Instrument::Triangle, 8);
    let t = map_sfx(&sfx).unwrap();
    assert_eq!(t.tones[0].frequency, 440);
}

#[test]
fn pattern_with_no_active_channels_is_rejected() {
    let p = Pattern::decode(&[0x40u8, 0x40, 0x40, 0x40], 0);
    assert_eq!(map_music(&p), Err(UnsupportedFeatureError::NoActiveChannels));
}

#[test]
fn pattern_with_one_enabled_channel_is_accepted() {
    let p = Pattern::decode(&[0x40u8, 0x03, 0x40, 0x40], 0);
    let t = map_music(&p).unwrap();
    assert_eq!(t.sfx_ids, vec![0, 3, 0, 0]);
}

#[test]
fn pattern_translation_copies_the_role_flags() {
    let p = Pattern::decode(&[0x80u8 | 1, 0x02, 0x80 | 0x40 | 3, 0x40], 0);
    let t = map_music(&p).unwrap();
    assert!(t.loop_start);
    assert!(!t.loop_back);
    assert!(t.stop_at_end);
    assert_eq!(t.sfx_ids, vec![1, 2, 3, 0]);
}

#[test]
fn end_to_end_translation_of_a_minimal_blob() {
    let mut bytes = vec![0u8; 4608];
    // Disable every channel of every pattern, then enable pattern 0's first
    // channel, referencing sfx 0.
    for b in bytes[0..256].iter_mut() {
        *b = 0x40;
    }
    bytes[0] = 0x00;
    // Sfx 0: two Triangle notes (pitch 33, volume 5), speed 8, no loop,
    // all filters off. The sfx section starts at byte 256.
    let note: u16 = 33 | (5 << 9);
    for i in 0..2 {
        bytes[256 + 2 * i] = (note & 0xff) as u8;
        bytes[256 + 2 * i + 1] = (note >> 8) as u8;
    }
    bytes[256 + 66] = 2; // loop start byte carries the size
    bytes[256 + 65] = 8; // speed

    let section = MusicSfx::decode(&bytes);
    let outcome = translate(&section);

    assert_eq!(outcome.sfxes.len(), 64);
    assert_eq!(outcome.patterns.len(), 64);

    let ok_sfxes: Vec<_> = outcome.sfxes.iter().filter_map(|r| r.as_ref().ok()).collect();
    assert_eq!(ok_sfxes.len(), 1);
    assert_eq!(ok_sfxes[0].frames_per_tone, 4);
    assert_eq!(ok_sfxes[0].tones.len(), 2);
    assert_eq!(ok_sfxes[0].loop_restart, None);
    assert_eq!(ok_sfxes[0].tones[0].frequency, 440);

    let ok_patterns: Vec<_> = outcome.patterns.iter().filter_map(|r| r.as_ref().ok()).collect();
    assert_eq!(ok_patterns.len(), 1);
    assert_eq!(ok_patterns[0].sfx_ids[0], 0);

    // Every other item reports its reason and the batch still completed.
    assert_eq!(
        outcome.sfxes[1],
        Err(UnsupportedFeatureError::NoActiveNotes)
    );
    assert_eq!(
        outcome.patterns[1],
        Err(UnsupportedFeatureError::NoActiveChannels)
    );
}
