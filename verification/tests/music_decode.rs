use picorom::music::{Channel, Pattern, Section};

#[test]
fn channel_decodes_its_three_fields() {
    let c = Channel::from_byte(0xff);
    assert_eq!(c.sfx_id, 63);
    assert!(c.disabled);
    assert!(c.pattern_flag);
    assert!(!c.enabled());

    let c = Channel::from_byte(0x07);
    assert_eq!(c.sfx_id, 7);
    assert!(!c.disabled);
    assert!(!c.pattern_flag);
    assert!(c.enabled());

    let c = Channel::from_byte(0x80);
    assert!(!c.disabled);
    assert!(c.pattern_flag);
}

#[test]
fn channel_set_enabled_flips_only_the_disabled_bit() {
    let mut c = Channel::from_byte(0xff);
    c.set_enabled(true);
    assert!(c.enabled());
    assert_eq!(c.sfx_id, 63);
    assert!(c.pattern_flag);
    c.set_enabled(false);
    assert!(!c.enabled());
}

#[test]
fn pattern_decodes_its_four_slots_and_role_flags() {
    // Slot 0 carries loop-start, slot 1 loop-back, slot 2 stop-at-end.
    let bytes = [0x80u8, 0x05, 0x80 | 0x40, 0x40];
    let p = Pattern::decode(&bytes, 0);
    assert!(p.loop_start());
    assert!(!p.loop_back());
    assert!(p.stop_at_end());
    assert_eq!(p.channels[1].sfx_id, 5);
    assert!(p.channels[3].disabled);
    assert!(p.enabled());
}

#[test]
fn pattern_flag_setters_touch_only_their_slot() {
    let mut p = Pattern::default();
    p.set_begin_loop(true);
    assert!(p.loop_start());
    assert!(!p.loop_back());
    assert!(!p.stop_at_end());
    p.set_end_loop(true);
    p.set_stop_at_end(true);
    assert!(p.loop_start());
    assert!(p.loop_back());
    assert!(p.stop_at_end());
    p.set_begin_loop(false);
    assert!(!p.loop_start());
    assert!(p.loop_back());
}

#[test]
fn pattern_enabled_is_an_or_across_channels() {
    let all_off = Pattern::decode(&[0x40u8, 0x40, 0x40, 0x40], 0);
    assert!(!all_off.enabled());
    let one_on = Pattern::decode(&[0x40u8, 0x40, 0x00, 0x40], 0);
    assert!(one_on.enabled());
    let default = Pattern::default();
    assert!(default.enabled());
}

#[test]
fn music_section_decodes_64_patterns_in_order() {
    let mut bytes = vec![0x40u8; 256];
    // Pattern 5, slot 2: enabled, sfx 11, stop-at-end flag.
    bytes[5 * 4 + 2] = 0x80 | 11;
    let section = Section::decode(&bytes, 0);
    assert_eq!(section.patterns.len(), 64);
    assert!(section.patterns[5].enabled());
    assert!(section.patterns[5].stop_at_end());
    assert_eq!(section.patterns[5].channels[2].sfx_id, 11);
    assert!(!section.patterns[0].enabled());
}
