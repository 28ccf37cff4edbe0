use picorom::rom;

#[test]
fn rom_file_names_need_the_container_suffix() {
    assert!(rom::is_rom_file_name(b"game.p8.rom"));
    assert!(rom::is_rom_file_name(b".p8.rom"));
    assert!(!rom::is_rom_file_name(b"game.p8.png"));
    assert!(!rom::is_rom_file_name(b"game.rom"));
    assert!(!rom::is_rom_file_name(b"p8.rom"));
    assert!(!rom::is_rom_file_name(b""));
    assert!(!rom::is_rom_file_name(b"game.p8.romx"));
}

#[test]
fn section_offsets_and_lengths_are_fixed() {
    assert_eq!(rom::MUSIC_SECTION_OFFSET, 0x3100);
    assert_eq!(rom::MUSIC_SECTION_LEN, 256);
    assert_eq!(rom::SFX_SECTION_OFFSET, 0x3200);
    assert_eq!(rom::SFX_SECTION_LEN, 4352);
    assert_eq!(rom::MUSIC_SFX_OFFSET, 0x3100);
    assert_eq!(rom::MUSIC_SFX_LEN, 4608);
    // The sfx section immediately follows the music section, and the two are
    // addressable as one contiguous span.
    assert_eq!(
        rom::MUSIC_SECTION_OFFSET + rom::MUSIC_SECTION_LEN as u64,
        rom::SFX_SECTION_OFFSET
    );
    assert_eq!(rom::MUSIC_SECTION_LEN + rom::SFX_SECTION_LEN, rom::MUSIC_SFX_LEN);
}
