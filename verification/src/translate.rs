//! The translation engine: maps each decoded sound effect and pattern into a
//! record feasible on the target platform, or a discrete skip reason. Item
//! rejection is non-fatal: the batch always completes the full input length,
//! in ascending index order.

use crate::music;
use crate::sfx;
use crate::sfx::{Effect, Instrument, Sfx};
use crate::sfx::{
    lemma_note_field_bounds, spec_effect, spec_instrument, spec_pitch_bits, spec_pitch_frequency,
    spec_volume_bits,
};
use vstd::prelude::*;

verus! {

/// Why one record cannot be represented on the target platform; non-fatal,
/// only the offending item is skipped.
#[derive(Clone, Copy, Debug, PartialEq, Eq, Structural)]
pub enum UnsupportedFeatureError {
    /// No note of the sfx has nonzero volume.
    NoActiveNotes,
    /// Speed 0 is not representable.
    SpeedZero,
    /// An odd speed has no integer frame mapping.
    SpeedOdd,
    /// The buzz filter has no target equivalent.
    FilterBuzz,
    /// The noiz filter has no target equivalent.
    FilterNoiz,
    /// A nonzero detune has no target equivalent.
    FilterDetune,
    /// A nonzero reverb has no target equivalent.
    FilterReverb,
    /// A nonzero dampen has no target equivalent.
    FilterDampen,
    /// A note in the playable range uses an instrument the target lacks.
    UnsupportedInstrument(Instrument),
    /// A note in the playable range uses an effect the target lacks.
    UnsupportedEffect(Effect),
    /// Every channel of the pattern is disabled.
    NoActiveChannels,
}

/// The literal parameter tuple consumed by the target platform's
/// tone-generation call; field order and the flag bit constants are a
/// compatibility contract, not an implementation detail.
#[derive(Clone, Copy, Debug, PartialEq, Eq, Structural)]
pub struct TranslatedTone {
    /// Frequency in Hz.
    pub frequency: u32,
    /// Duration as a frame count.
    pub duration: u32,
    /// Volume on the target's 0–100 scale.
    pub volume: u32,
    /// The target channel/duty-cycle selector.
    pub flags: u32,
}

/// One translated sound effect: the frame count per tone, an optional loop
/// restart index, and one tone per playable note, in order.
#[derive(Debug, PartialEq, Eq)]
pub struct TranslatedSfx {
    pub frames_per_tone: u8,
    pub loop_restart: Option<usize>,
    pub tones: Vec<TranslatedTone>,
}

/// One translated pattern: the three role flags of channel slots 0–2 and the
/// ordered list of the 4 channels' sfx reference ids.
#[derive(Debug, PartialEq, Eq)]
pub struct TranslatedPattern {
    pub loop_start: bool,
    pub loop_back: bool,
    pub stop_at_end: bool,
    pub sfx_ids: Vec<usize>,
}

/// Whether the target platform has the instrument: only Triangle, Pulse,
/// Square and Noise map onto its channels.
pub open spec fn spec_instrument_ok(i: Instrument) -> bool {
    ||| i == Instrument::Triangle
    ||| i == Instrument::Pulse
    ||| i == Instrument::Square
    ||| i == Instrument::Noise
}

/// The target channel/duty-cycle selector of each supported instrument:
/// Triangle 0b0010, Pulse 0b0000, Square 0b1001, Noise 0b0011.
pub open spec fn spec_tone_flags(i: Instrument) -> u32 {
    match i {
        Instrument::Triangle => 0b10,
        Instrument::Pulse => 0b00,
        Instrument::Square => 0b1001,
        Instrument::Noise => 0b11,
        _ => 0,
    }
}

/// How many leading notes of the buffer are playable, from the two loop
/// bytes: (0, 0) plays the full 32-note buffer; (size, 0) plays `size` notes
/// without a loop; (restart, size) with nonzero size plays `size` notes.
/// Never more than the 32-note buffer.
pub open spec fn spec_note_count(s: Sfx) -> int {
    let raw: int = if s.loop_end != 0 {
        s.loop_end as int
    } else if s.loop_start != 0 {
        s.loop_start as int
    } else {
        32
    };
    if raw <= 32 {
        raw
    } else {
        32
    }
}

/// The loop restart index: present exactly when the loop-end byte is
/// nonzero, and then taken from the loop-start byte.
pub open spec fn spec_loop_restart(s: Sfx) -> Option<usize> {
    if s.loop_end != 0 {
        Some(s.loop_start as usize)
    } else {
        None
    }
}

/// Law: the two loop bytes choose the playable shape. (0, 0) plays the full
/// 32-note buffer with no restart; (size, 0) plays `size` notes with no
/// restart; (restart, size) with nonzero size plays `size` notes restarting
/// at `restart` — for loop bytes within the 32-note buffer.
pub proof fn lemma_loop_shapes(s: Sfx)
    requires
        s.loop_start <= 32,
        s.loop_end <= 32,
    ensures
        s.loop_start == 0 && s.loop_end == 0 ==> spec_note_count(s) == 32 && (spec_loop_restart(
            s,
        ) is None),
        s.loop_start != 0 && s.loop_end == 0 ==> spec_note_count(s) == s.loop_start && (
        spec_loop_restart(s) is None),
        s.loop_end != 0 ==> spec_note_count(s) == s.loop_end && spec_loop_restart(s) == Some(
            s.loop_start as usize,
        ),
{
}

/// The first reason at or after note `i` of the playable range that prevents
/// translation: an instrument outside the target's four, else an effect
/// other than none — checked note by note in ascending order.
pub open spec fn spec_note_reason(s: Sfx, i: int) -> Option<UnsupportedFeatureError>
    decreases spec_note_count(s) - i,
{
    if i < 0 || i >= spec_note_count(s) {
        None
    } else if !spec_instrument_ok(spec_instrument(s.notes@[i].spec_packed())) {
        Some(
            UnsupportedFeatureError::UnsupportedInstrument(
                spec_instrument(s.notes@[i].spec_packed()),
            ),
        )
    } else if spec_effect(s.notes@[i].spec_packed()) != Effect::NoEffect {
        Some(UnsupportedFeatureError::UnsupportedEffect(spec_effect(s.notes@[i].spec_packed())))
    } else {
        spec_note_reason(s, i + 1)
    }
}

/// The first reason an sfx cannot be represented, in the engine's check
/// order; `None` exactly when the sfx translates.
pub open spec fn spec_sfx_reason(s: Sfx) -> Option<UnsupportedFeatureError> {
    if !s.spec_enabled() {
        Some(UnsupportedFeatureError::NoActiveNotes)
    } else if s.speed == 0 {
        Some(UnsupportedFeatureError::SpeedZero)
    } else if s.speed % 2 != 0 {
        Some(UnsupportedFeatureError::SpeedOdd)
    } else if s.switches.buzz {
        Some(UnsupportedFeatureError::FilterBuzz)
    } else if s.switches.noiz {
        Some(UnsupportedFeatureError::FilterNoiz)
    } else if s.switches.spec_detune() != 0 {
        Some(UnsupportedFeatureError::FilterDetune)
    } else if s.switches.spec_reverb() != 0 {
        Some(UnsupportedFeatureError::FilterReverb)
    } else if s.switches.spec_dampen() != 0 {
        Some(UnsupportedFeatureError::FilterDampen)
    } else {
        spec_note_reason(s, 0)
    }
}

/// The tone built from note `i` of an accepted sfx: frequency from the
/// pitch's frequency table, duration one tone's frame count, volume rescaled
/// from 0–7 to 0–100 by `volume * 100 / 7` with integer truncation, flags
/// from the instrument.
pub open spec fn spec_tone(s: Sfx, i: int) -> TranslatedTone {
    TranslatedTone {
        frequency: spec_pitch_frequency(spec_pitch_bits(s.notes@[i].spec_packed())),
        duration: (s.speed / 2) as u32,
        volume: (spec_volume_bits(s.notes@[i].spec_packed()) * 100 / 7) as u32,
        flags: spec_tone_flags(spec_instrument(s.notes@[i].spec_packed())),
    }
}

/// What a translation outcome for one sfx must be: the first applicable skip
/// reason, or the translated record with one tone per playable note.
pub open spec fn spec_sfx_outcome(s: Sfx, r: Result<TranslatedSfx, UnsupportedFeatureError>) -> bool {
    match r {
        Result::Ok(t) => {
            &&& spec_sfx_reason(s) is None
            &&& t.frames_per_tone == s.speed / 2
            &&& t.loop_restart == spec_loop_restart(s)
            &&& t.tones@.len() == spec_note_count(s)
            &&& forall|i: int|
                0 <= i < spec_note_count(s) ==> (#[trigger] t.tones@[i]) == spec_tone(s, i)
        },
        Result::Err(e) => spec_sfx_reason(s) == Some(e),
    }
}

/// What a translation outcome for one pattern must be: rejected exactly when
/// every channel is disabled, else the three role flags and the 4 reference
/// ids, in slot order.
pub open spec fn spec_pattern_outcome(
    p: music::Pattern,
    r: Result<TranslatedPattern, UnsupportedFeatureError>,
) -> bool {
    match r {
        Result::Ok(t) => {
            &&& p.spec_enabled()
            &&& t.loop_start == p.spec_loop_start()
            &&& t.loop_back == p.spec_loop_back()
            &&& t.stop_at_end == p.spec_stop_at_end()
            &&& t.sfx_ids@.len() == 4
            &&& forall|k: int|
                0 <= k < 4 ==> (#[trigger] t.sfx_ids@[k]) == p.channels@[k].sfx_id as usize
        },
        Result::Err(e) => !p.spec_enabled() && e == UnsupportedFeatureError::NoActiveChannels,
    }
}

/// The channel/duty selector handed to the target call for each instrument
/// the engine accepts.
fn tone_flags(i: Instrument) -> (r: u32)
    ensures
        r == spec_tone_flags(i),
{
    match i {
        Instrument::Triangle => 0b10,
        Instrument::Pulse => 0b00,
        Instrument::Square => 0b1001,
        Instrument::Noise => 0b11,
        _ => 0,
    }
}

/// Maps one sound effect onto the target platform, or reports the first
/// reason it cannot be represented; the check order is part of the contract.
pub fn map_sfx(sfx: &Sfx) -> (r: Result<TranslatedSfx, UnsupportedFeatureError>)
    requires
        sfx.wf(),
    ensures
        spec_sfx_outcome(*sfx, r),
{
    if !sfx.enabled() {
        return Err(UnsupportedFeatureError::NoActiveNotes);
    }
    if sfx.speed == 0 {
        return Err(UnsupportedFeatureError::SpeedZero);
    }
    if sfx.speed % 2 != 0 {
        return Err(UnsupportedFeatureError::SpeedOdd);
    }
    let frames_per_tone = sfx.speed / 2;
    if sfx.switches.buzz {
        return Err(UnsupportedFeatureError::FilterBuzz);
    }
    if sfx.switches.noiz {
        return Err(UnsupportedFeatureError::FilterNoiz);
    }
    if sfx.switches.detune() != 0 {
        return Err(UnsupportedFeatureError::FilterDetune);
    }
    if sfx.switches.reverb() != 0 {
        return Err(UnsupportedFeatureError::FilterReverb);
    }
    if sfx.switches.dampen() != 0 {
        return Err(UnsupportedFeatureError::FilterDampen);
    }

    let count: usize = if sfx.loop_end != 0 {
        if sfx.loop_end <= 32 {
            sfx.loop_end as usize
        } else {
            32
        }
    } else if sfx.loop_start != 0 {
        if sfx.loop_start <= 32 {
            sfx.loop_start as usize
        } else {
            32
        }
    } else {
        32
    };
    let loop_restart: Option<usize> = if sfx.loop_end != 0 {
        Some(sfx.loop_start as usize)
    } else {
        None
    };

    let mut i: usize = 0;
    while i < count
        invariant
            sfx.wf(),
            count == spec_note_count(*sfx),
            i <= count,
            spec_sfx_reason(*sfx) == spec_note_reason(*sfx, 0),
            spec_note_reason(*sfx, 0) == spec_note_reason(*sfx, i as int),
        decreases count - i,
    {
        let inst = sfx.notes[i].instrument();
        let ok = match inst {
            Instrument::Triangle => true,
            Instrument::Pulse => true,
            Instrument::Square => true,
            Instrument::Noise => true,
            _ => false,
        };
        if !ok {
            proof {
                assert(!spec_instrument_ok(spec_instrument(sfx.notes@[i as int].spec_packed())));
                assert(spec_note_reason(*sfx, i as int) == Some(
                    UnsupportedFeatureError::UnsupportedInstrument(
                        spec_instrument(sfx.notes@[i as int].spec_packed()),
                    ),
                ));
            }
            return Err(UnsupportedFeatureError::UnsupportedInstrument(inst));
        }
        let eff = sfx.notes[i].effect();
        if eff != Effect::NoEffect {
            proof {
                assert(spec_note_reason(*sfx, i as int) == Some(
                    UnsupportedFeatureError::UnsupportedEffect(
                        spec_effect(sfx.notes@[i as int].spec_packed()),
                    ),
                ));
            }
            return Err(UnsupportedFeatureError::UnsupportedEffect(eff));
        }
        proof {
            assert(spec_note_reason(*sfx, i as int) == spec_note_reason(*sfx, i + 1));
        }
        i += 1;
    }

    let mut tones: Vec<TranslatedTone> = Vec::new();
    let mut j: usize = 0;
    while j < count
        invariant
            sfx.wf(),
            count == spec_note_count(*sfx),
            frames_per_tone == sfx.speed / 2,
            (spec_sfx_reason(*sfx) is None),
            loop_restart == spec_loop_restart(*sfx),
            j <= count,
            tones@.len() == j,
            forall|k: int| 0 <= k < j ==> (#[trigger] tones@[k]) == spec_tone(*sfx, k),
        decreases count - j,
    {
        let volume = sfx.notes[j].volume();
        proof {
            lemma_note_field_bounds(sfx.notes@[j as int].spec_packed());
        }
        tones.push(
            TranslatedTone {
                frequency: sfx.notes[j].pitch().frequency(),
                duration: frames_per_tone as u32,
                volume: (volume as u32) * 100 / 7,
                flags: tone_flags(sfx.notes[j].instrument()),
            },
        );
        j += 1;
    }
    Ok(TranslatedSfx { frames_per_tone, loop_restart, tones })
}

/// Maps one pattern onto the target platform: rejected when no channel is
/// active, else the role flags and the 4 sfx reference ids are carried over.
/// Reference ids are not checked against the sfx table; cross-reference
/// validation is deliberately deferred.
pub fn map_music(pattern: &music::Pattern) -> (r: Result<
    TranslatedPattern,
    UnsupportedFeatureError,
>)
    requires
        pattern.wf(),
    ensures
        spec_pattern_outcome(*pattern, r),
{
    if !pattern.enabled() {
        return Err(UnsupportedFeatureError::NoActiveChannels);
    }
    let mut sfx_ids: Vec<usize> = Vec::new();
    let mut k: usize = 0;
    while k < 4
        invariant
            pattern.wf(),
            k <= 4,
            sfx_ids@.len() == k,
            forall|m: int|
                0 <= m < k ==> (#[trigger] sfx_ids@[m]) == pattern.channels@[m].sfx_id as usize,
        decreases 4 - k,
    {
        sfx_ids.push(pattern.channels[k].sfx_id as usize);
        k += 1;
    }
    Ok(
        TranslatedPattern {
            loop_start: pattern.loop_start(),
            loop_back: pattern.loop_back(),
            stop_at_end: pattern.stop_at_end(),
            sfx_ids,
        },
    )
}

/// The music and sfx sections, contiguous in a cartridge ROM, decoded from
/// one 4608-byte span.
#[derive(Debug)]
pub struct MusicSfx {
    pub music: music::Section,
    pub sfx: sfx::Section,
}

impl MusicSfx {
    /// Structural validity of both sections.
    pub open spec fn wf(self) -> bool {
        self.music.wf() && self.sfx.wf()
    }

    /// Decodes both sections from their contiguous 4608-byte span: the music
    /// patterns fill the first 256 bytes, the sfx records the rest.
    pub fn decode(bytes: &[u8]) -> (r: MusicSfx)
        requires
            bytes@.len() == 4608,
        ensures
            r.wf(),
            music::Section::spec_decodes(bytes@, 0, r.music),
            sfx::Section::spec_decodes(bytes@, 256, r.sfx),
    {
        MusicSfx {
            music: music::Section::decode(bytes, 0),
            sfx: sfx::Section::decode(bytes, 256),
        }
    }
}

/// The outcome of translating both sections: one outcome per record, in
/// input order — a translated record or the reason the item was skipped.
#[derive(Debug)]
pub struct Translation {
    pub sfxes: Vec<Result<TranslatedSfx, UnsupportedFeatureError>>,
    pub patterns: Vec<Result<TranslatedPattern, UnsupportedFeatureError>>,
}

/// Translates all 64 sfx records and all 64 patterns in ascending index
/// order. Each item yields a translated record or its skip reason; a skipped
/// item never aborts the batch, which always completes the full input
/// length.
pub fn translate(section: &MusicSfx) -> (r: Translation)
    requires
        section.wf(),
    ensures
        r.sfxes@.len() == 64,
        forall|j: int|
            0 <= j < 64 ==> spec_sfx_outcome(section.sfx.sfxes@[j], #[trigger] r.sfxes@[j]),
        r.patterns@.len() == 64,
        forall|j: int|
            0 <= j < 64 ==> spec_pattern_outcome(
                section.music.patterns@[j],
                #[trigger] r.patterns@[j],
            ),
{
    let mut sfxes: Vec<Result<TranslatedSfx, UnsupportedFeatureError>> = Vec::new();
    let mut j: usize = 0;
    while j < 64
        invariant
            section.wf(),
            j <= 64,
            sfxes@.len() == j,
            forall|k: int|
                0 <= k < j ==> spec_sfx_outcome(section.sfx.sfxes@[k], #[trigger] sfxes@[k]),
        decreases 64 - j,
    {
        sfxes.push(map_sfx(&section.sfx.sfxes[j]));
        j += 1;
    }
    let mut patterns: Vec<Result<TranslatedPattern, UnsupportedFeatureError>> = Vec::new();
    let mut k: usize = 0;
    while k < 64
        invariant
            section.wf(),
            k <= 64,
            patterns@.len() == k,
            forall|m: int|
                0 <= m < k ==> spec_pattern_outcome(
                    section.music.patterns@[m],
                    #[trigger] patterns@[m],
                ),
        decreases 64 - k,
    {
        patterns.push(map_music(&section.music.patterns[k]));
        k += 1;
    }
    Translation { sfxes, patterns }
}

proof fn lemma_note_reason_finds(s: Sfx, lo: int, i: int)
    requires
        0 <= lo <= i < spec_note_count(s),
        spec_effect(s.notes@[i].spec_packed()) != Effect::NoEffect,
    ensures
        spec_note_reason(s, lo) is Some,
    decreases i - lo,
{
    if lo < i && spec_instrument_ok(spec_instrument(s.notes@[lo].spec_packed())) && spec_effect(
        s.notes@[lo].spec_packed(),
    ) == Effect::NoEffect {
        lemma_note_reason_finds(s, lo + 1, i);
    }
}

/// Law: an sfx with any note whose effect is not none anywhere in its
/// playable range is rejected in full, even when only one of its notes is
/// affected — every outcome the engine's contract allows for it is a skip.
pub proof fn lemma_effect_rejects_sfx(s: Sfx, i: int)
    requires
        s.wf(),
        0 <= i < spec_note_count(s),
        spec_effect(s.notes@[i].spec_packed()) != Effect::NoEffect,
    ensures
        (spec_sfx_reason(s) is Some),
        forall|r: Result<TranslatedSfx, UnsupportedFeatureError>|
            #[trigger] spec_sfx_outcome(s, r) ==> (r is Err),
{
    lemma_note_reason_finds(s, 0, i);
}

} // verus!
