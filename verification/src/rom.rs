//! Layout of a cartridge ROM: the fixed offsets and lengths of the two sound
//! sections, and the check on the container's canonical file suffix.

use vstd::prelude::*;

verus! {

/// Absolute byte offset of the music-pattern section in a cartridge ROM.
pub const MUSIC_SECTION_OFFSET: u64 = 0x3100;

/// Byte length of the music-pattern section: 64 patterns of 4 bytes each.
pub const MUSIC_SECTION_LEN: usize = 256;

/// Absolute byte offset of the sound-effect section in a cartridge ROM.
pub const SFX_SECTION_OFFSET: u64 = 0x3200;

/// Byte length of the sound-effect section: 64 records of 68 bytes each.
pub const SFX_SECTION_LEN: usize = 4352;

/// Absolute byte offset of the two sound sections taken as one contiguous span.
pub const MUSIC_SFX_OFFSET: u64 = 0x3100;

/// Byte length of the two sound sections taken as one contiguous span.
pub const MUSIC_SFX_LEN: usize = 4608;

/// The canonical container suffix, ".p8.rom", as a byte sequence.
pub open spec fn spec_rom_suffix() -> Seq<u8> {
    seq![46u8, 112u8, 56u8, 46u8, 114u8, 111u8, 109u8]
}

/// Whether a file name (as bytes) ends with the canonical container suffix.
pub open spec fn spec_is_rom_file_name(name: Seq<u8>) -> bool {
    name.len() >= 7 && name.subrange(name.len() - 7, name.len() as int) == spec_rom_suffix()
}

/// Checks whether a file name carries the canonical container suffix; a
/// mismatch must be reported as a fatal format error before any byte is read.
pub fn is_rom_file_name(name: &[u8]) -> (r: bool)
    ensures
        r == spec_is_rom_file_name(name@),
{
    let n = name.len();
    if n < 7 {
        return false;
    }
    let r = name[n - 7] == 46 && name[n - 6] == 112 && name[n - 5] == 56 && name[n - 4] == 46
        && name[n - 3] == 114 && name[n - 2] == 111 && name[n - 1] == 109;
    proof {
        let tail = name@.subrange(n - 7, n as int);
        if r {
            assert(tail =~= spec_rom_suffix());
        } else {
            if spec_is_rom_file_name(name@) {
                assert(name@[n - 7] == tail[0]);
                assert(name@[n - 6] == tail[1]);
                assert(name@[n - 5] == tail[2]);
                assert(name@[n - 4] == tail[3]);
                assert(name@[n - 3] == tail[4]);
                assert(name@[n - 2] == tail[5]);
                assert(name@[n - 1] == tail[6]);
            }
        }
    }
    r
}

} // verus!
