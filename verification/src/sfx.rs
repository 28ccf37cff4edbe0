//! The sound-effect section: 64 records of 32 bit-packed notes plus a filter
//! switch byte and three scalar bytes, decoded at fixed offsets with explicit
//! mask/shift accessors — the bit layout is the external contract.

use vstd::prelude::*;

verus! {

/// A caller supplied an out-of-range component to a constructor or setter;
/// fatal at the call site, never a translation-time skip.
#[derive(Clone, Copy, Debug, PartialEq, Eq, Structural)]
pub enum PreconditionError {
    /// A note number above 63 cannot be represented.
    PitchOutOfRange,
    /// The detune component must be 0, 1 or 2.
    DetuneOutOfRange,
    /// The reverb component must be 0, 1 or 2.
    ReverbOutOfRange,
    /// The dampen component must be 0, 1 or 2.
    DampenOutOfRange,
}

// ---------------------------------------------------------------------------
// Pitch
// ---------------------------------------------------------------------------

/// A 6-bit note number (0–63).
///
/// MIDI note number and frequency assume the MIDI Tuning Standard
/// (12-tone equal temperament, middle C is C4).
#[derive(Debug)]
pub struct Pitch(u8);

/// The note name for each position within an octave, starting at C.
pub open spec fn spec_pitch_name(n: u8) -> Seq<char> {
    let m = n % 12;
    if m == 0 {
        "C"@
    } else if m == 1 {
        "C♯"@
    } else if m == 2 {
        "D"@
    } else if m == 3 {
        "D♯"@
    } else if m == 4 {
        "E"@
    } else if m == 5 {
        "F"@
    } else if m == 6 {
        "F♯"@
    } else if m == 7 {
        "G"@
    } else if m == 8 {
        "G♯"@
    } else if m == 9 {
        "A"@
    } else if m == 10 {
        "A♯"@
    } else {
        "B"@
    }
}

/// The frequency in Hz of note number `n`, truncated to an integer:
/// `440 * 2^((n + 36 - 69) / 12)` in 12-tone equal temperament, where
/// `n + 36` is the MIDI note number. Note number 33 is A4 at exactly 440 Hz.
pub open spec fn spec_pitch_frequency(n: u8) -> u32 {
    if n == 0 {
        65
    } else if n == 1 {
        69
    } else if n == 2 {
        73
    } else if n == 3 {
        77
    } else if n == 4 {
        82
    } else if n == 5 {
        87
    } else if n == 6 {
        92
    } else if n == 7 {
        97
    } else if n == 8 {
        103
    } else if n == 9 {
        110
    } else if n == 10 {
        116
    } else if n == 11 {
        123
    } else if n == 12 {
        130
    } else if n == 13 {
        138
    } else if n == 14 {
        146
    } else if n == 15 {
        155
    } else if n == 16 {
        164
    } else if n == 17 {
        174
    } else if n == 18 {
        184
    } else if n == 19 {
        195
    } else if n == 20 {
        207
    } else if n == 21 {
        220
    } else if n == 22 {
        233
    } else if n == 23 {
        246
    } else if n == 24 {
        261
    } else if n == 25 {
        277
    } else if n == 26 {
        293
    } else if n == 27 {
        311
    } else if n == 28 {
        329
    } else if n == 29 {
        349
    } else if n == 30 {
        369
    } else if n == 31 {
        391
    } else if n == 32 {
        415
    } else if n == 33 {
        440
    } else if n == 34 {
        466
    } else if n == 35 {
        493
    } else if n == 36 {
        523
    } else if n == 37 {
        554
    } else if n == 38 {
        587
    } else if n == 39 {
        622
    } else if n == 40 {
        659
    } else if n == 41 {
        698
    } else if n == 42 {
        739
    } else if n == 43 {
        783
    } else if n == 44 {
        830
    } else if n == 45 {
        880
    } else if n == 46 {
        932
    } else if n == 47 {
        987
    } else if n == 48 {
        1046
    } else if n == 49 {
        1108
    } else if n == 50 {
        1174
    } else if n == 51 {
        1244
    } else if n == 52 {
        1318
    } else if n == 53 {
        1396
    } else if n == 54 {
        1479
    } else if n == 55 {
        1567
    } else if n == 56 {
        1661
    } else if n == 57 {
        1760
    } else if n == 58 {
        1864
    } else if n == 59 {
        1975
    } else if n == 60 {
        2093
    } else if n == 61 {
        2217
    } else if n == 62 {
        2349
    } else {
        2489
    }
}

impl Pitch {
    #[verifier::type_invariant]
    spec fn inv(self) -> bool {
        self.0 <= 63
    }

    /// The note number this pitch carries (0–63).
    pub closed spec fn spec_value(self) -> u8 {
        self.0
    }

    /// Builds a pitch from a note number, rejecting numbers above 63: the
    /// source tracker cannot represent notes above D♯5.
    pub fn new(value: u8) -> (r: Result<Pitch, PreconditionError>)
        ensures
            value <= 63 ==> (r matches Ok(p) && p.spec_value() == value),
            value > 63 ==> (r matches Err(e) && e == PreconditionError::PitchOutOfRange),
    {
        if value > 63 {
            Err(PreconditionError::PitchOutOfRange)
        } else {
            Ok(Pitch(value))
        }
    }

    /// The octave in the source tracker's numbering (its octave 2 is MTS
    /// octave 4).
    pub fn octave(&self) -> (r: u8)
        ensures
            r == self.spec_value() / 12,
    {
        self.0 / 12
    }

    /// The note's name within its octave, starting at C.
    pub fn name(&self) -> (r: &'static str)
        ensures
            r@ == spec_pitch_name(self.spec_value()),
    {
        match self.0 % 12 {
            0 => "C",
            1 => "C♯",
            2 => "D",
            3 => "D♯",
            4 => "E",
            5 => "F",
            6 => "F♯",
            7 => "G",
            8 => "G♯",
            9 => "A",
            10 => "A♯",
            _ => "B",
        }
    }

    /// The MIDI note number: the 6-bit note number shifted up by 36.
    pub fn midi_note_number(&self) -> (r: u8)
        ensures
            r == self.spec_value() + 36,
    {
        proof {
            use_type_invariant(&*self);
        }
        self.0 + 36
    }

    /// The frequency in Hz, truncated to an integer.
    pub fn frequency(&self) -> (r: u32)
        ensures
            r == spec_pitch_frequency(self.spec_value()),
    {
        match self.0 {
            0 => 65,
            1 => 69,
            2 => 73,
            3 => 77,
            4 => 82,
            5 => 87,
            6 => 92,
            7 => 97,
            8 => 103,
            9 => 110,
            10 => 116,
            11 => 123,
            12 => 130,
            13 => 138,
            14 => 146,
            15 => 155,
            16 => 164,
            17 => 174,
            18 => 184,
            19 => 195,
            20 => 207,
            21 => 220,
            22 => 233,
            23 => 246,
            24 => 261,
            25 => 277,
            26 => 293,
            27 => 311,
            28 => 329,
            29 => 349,
            30 => 369,
            31 => 391,
            32 => 415,
            33 => 440,
            34 => 466,
            35 => 493,
            36 => 523,
            37 => 554,
            38 => 587,
            39 => 622,
            40 => 659,
            41 => 698,
            42 => 739,
            43 => 783,
            44 => 830,
            45 => 880,
            46 => 932,
            47 => 987,
            48 => 1046,
            49 => 1108,
            50 => 1174,
            51 => 1244,
            52 => 1318,
            53 => 1396,
            54 => 1479,
            55 => 1567,
            56 => 1661,
            57 => 1760,
            58 => 1864,
            59 => 1975,
            60 => 2093,
            61 => 2217,
            62 => 2349,
            _ => 2489,
        }
    }
}

impl core::convert::From<Pitch> for u8 {
    fn from(val: Pitch) -> (r: u8) {
        val.0
    }
}

impl vstd::std_specs::convert::FromSpecImpl<Pitch> for u8 {
    open spec fn obeys_from_spec() -> bool {
        true
    }

    open spec fn from_spec(v: Pitch) -> u8 {
        v.spec_value()
    }
}

// ---------------------------------------------------------------------------
// Effect and Instrument
// ---------------------------------------------------------------------------

/// The eight per-note effects; the 3-bit effect code covers the value space
/// exactly, so no illegal code exists.
#[derive(Clone, Copy, Debug, PartialEq, Eq, Structural)]
pub enum Effect {
    NoEffect,
    Slide,
    Vibrato,
    Drop,
    FadeIn,
    FadeOut,
    ArpeggioFast,
    ArpeggioSlow,
}

/// The effect selected by a 3-bit code.
pub open spec fn spec_effect_of(code: u8) -> Effect {
    if code == 0 {
        Effect::NoEffect
    } else if code == 1 {
        Effect::Slide
    } else if code == 2 {
        Effect::Vibrato
    } else if code == 3 {
        Effect::Drop
    } else if code == 4 {
        Effect::FadeIn
    } else if code == 5 {
        Effect::FadeOut
    } else if code == 6 {
        Effect::ArpeggioFast
    } else {
        Effect::ArpeggioSlow
    }
}

/// The 3-bit code of an effect.
pub open spec fn spec_effect_code(e: Effect) -> u8 {
    match e {
        Effect::NoEffect => 0,
        Effect::Slide => 1,
        Effect::Vibrato => 2,
        Effect::Drop => 3,
        Effect::FadeIn => 4,
        Effect::FadeOut => 5,
        Effect::ArpeggioFast => 6,
        Effect::ArpeggioSlow => 7,
    }
}

/// The waveform selected by a note: one of 8 fixed kinds when the note's
/// sfx-as-instrument flag is clear, or an index into the custom instrument
/// table when it is set. Exactly one variant is active per note.
#[derive(Clone, Copy, Debug, PartialEq, Eq, Structural)]
pub enum Instrument {
    Triangle,
    TiltedSaw,
    Saw,
    Square,
    Pulse,
    Organ,
    Noise,
    Phaser,
    /// A custom instrument: the 3-bit waveform field indexes the sfx table.
    Sfx(u8),
}

/// The instrument denoted by a waveform code with the custom flag clear.
pub open spec fn spec_fixed_instrument_of(code: u8) -> Instrument {
    if code == 0 {
        Instrument::Triangle
    } else if code == 1 {
        Instrument::TiltedSaw
    } else if code == 2 {
        Instrument::Saw
    } else if code == 3 {
        Instrument::Square
    } else if code == 4 {
        Instrument::Pulse
    } else if code == 5 {
        Instrument::Organ
    } else if code == 6 {
        Instrument::Noise
    } else {
        Instrument::Phaser
    }
}

/// The 3-bit waveform code of an instrument.
pub open spec fn spec_waveform_code(i: Instrument) -> u8 {
    match i {
        Instrument::Triangle => 0,
        Instrument::TiltedSaw => 1,
        Instrument::Saw => 2,
        Instrument::Square => 3,
        Instrument::Pulse => 4,
        Instrument::Organ => 5,
        Instrument::Noise => 6,
        Instrument::Phaser => 7,
        Instrument::Sfx(w) => w,
    }
}

// ---------------------------------------------------------------------------
// Note
// ---------------------------------------------------------------------------

/// One step of a sound effect, packed little-endian into 16 bits:
/// bits 0–5 pitch, bits 6–8 waveform, bits 9–11 volume, bits 12–14 effect,
/// bit 15 the sfx-as-instrument flag.
#[derive(Clone, Copy, Debug, PartialEq, Eq, Structural)]
pub struct Note {
    packed: u16,
}

/// The 6-bit pitch field of a packed note.
pub open spec fn spec_pitch_bits(p: u16) -> u8 {
    (p & 0x3f) as u8
}

/// The 3-bit waveform field of a packed note.
pub open spec fn spec_waveform_bits(p: u16) -> u8 {
    ((p >> 6) & 0x7) as u8
}

/// The 3-bit volume field of a packed note.
pub open spec fn spec_volume_bits(p: u16) -> u8 {
    ((p >> 9) & 0x7) as u8
}

/// The 3-bit effect field of a packed note.
pub open spec fn spec_effect_bits(p: u16) -> u8 {
    ((p >> 12) & 0x7) as u8
}

/// The sfx-as-instrument flag of a packed note.
pub open spec fn spec_custom_flag(p: u16) -> bool {
    (p >> 15) & 1 == 1
}

/// The effect of a packed note.
pub open spec fn spec_effect(p: u16) -> Effect {
    spec_effect_of(spec_effect_bits(p))
}

/// The instrument of a packed note: the waveform field is polymorphic over
/// the sfx-as-instrument flag.
pub open spec fn spec_instrument(p: u16) -> Instrument {
    if spec_custom_flag(p) {
        Instrument::Sfx(spec_waveform_bits(p))
    } else {
        spec_fixed_instrument_of(spec_waveform_bits(p))
    }
}

/// Every bit field of a packed note lies within its declared value range.
pub proof fn lemma_note_field_bounds(p: u16)
    by (bit_vector)
    ensures
        spec_pitch_bits(p) < 64,
        spec_waveform_bits(p) < 8,
        spec_volume_bits(p) < 8,
        spec_effect_bits(p) < 8,
{
}

proof fn lemma_write_pitch(p: u16, v: u8)
    by (bit_vector)
    requires
        v < 64,
    ensures
        spec_pitch_bits(p | (0x3f & (v as u16))) == spec_pitch_bits(p) | v,
        spec_waveform_bits(p | (0x3f & (v as u16))) == spec_waveform_bits(p),
        spec_volume_bits(p | (0x3f & (v as u16))) == spec_volume_bits(p),
        spec_effect_bits(p | (0x3f & (v as u16))) == spec_effect_bits(p),
        spec_custom_flag(p | (0x3f & (v as u16))) == spec_custom_flag(p),
{
}

proof fn lemma_write_volume(p: u16, v: u8)
    by (bit_vector)
    ensures
        spec_pitch_bits(p | (0xe00 & ((v as u16) << 9))) == spec_pitch_bits(p),
        spec_waveform_bits(p | (0xe00 & ((v as u16) << 9))) == spec_waveform_bits(p),
        spec_volume_bits(p | (0xe00 & ((v as u16) << 9))) == spec_volume_bits(p) | (v & 0x7),
        spec_effect_bits(p | (0xe00 & ((v as u16) << 9))) == spec_effect_bits(p),
        spec_custom_flag(p | (0xe00 & ((v as u16) << 9))) == spec_custom_flag(p),
{
}

proof fn lemma_write_effect(p: u16, v: u8)
    by (bit_vector)
    requires
        v < 8,
    ensures
        spec_pitch_bits(p | (0x7000 & ((v as u16) << 12))) == spec_pitch_bits(p),
        spec_waveform_bits(p | (0x7000 & ((v as u16) << 12))) == spec_waveform_bits(p),
        spec_volume_bits(p | (0x7000 & ((v as u16) << 12))) == spec_volume_bits(p),
        spec_effect_bits(p | (0x7000 & ((v as u16) << 12))) == spec_effect_bits(p) | v,
        spec_custom_flag(p | (0x7000 & ((v as u16) << 12))) == spec_custom_flag(p),
{
}

proof fn lemma_write_instrument(p: u16, f: u16, w: u8)
    by (bit_vector)
    requires
        f == 0 || f == 1,
    ensures
        spec_pitch_bits((p | (0x8000 & (f << 15))) | (0x1c0 & ((w as u16) << 6)))
            == spec_pitch_bits(p),
        spec_waveform_bits((p | (0x8000 & (f << 15))) | (0x1c0 & ((w as u16) << 6)))
            == spec_waveform_bits(p) | (w & 0x7),
        spec_volume_bits((p | (0x8000 & (f << 15))) | (0x1c0 & ((w as u16) << 6)))
            == spec_volume_bits(p),
        spec_effect_bits((p | (0x8000 & (f << 15))) | (0x1c0 & ((w as u16) << 6)))
            == spec_effect_bits(p),
        spec_custom_flag((p | (0x8000 & (f << 15))) | (0x1c0 & ((w as u16) << 6)))
            == (spec_custom_flag(p) || f == 1),
{
}

impl Note {
    /// The raw 16-bit value this note packs.
    pub closed spec fn spec_packed(self) -> u16 {
        self.packed
    }

    /// Builds a note from its two bytes, low byte first.
    pub fn from_bytes(lo: u8, hi: u8) -> (r: Note)
        ensures
            r.spec_packed() == (lo as u16) | ((hi as u16) << 8),
    {
        Note { packed: (lo as u16) | ((hi as u16) << 8) }
    }

    /// The note's pitch: a pure projection of the 6-bit pitch field.
    pub fn pitch(&self) -> (r: Pitch)
        ensures
            r.spec_value() == spec_pitch_bits(self.spec_packed()),
    {
        proof {
            lemma_note_field_bounds(self.packed);
        }
        Pitch((self.packed & 0x3f) as u8)
    }

    /// Ors the pitch into the 6-bit pitch field; every other field keeps its
    /// value.
    pub fn set_pitch(&mut self, val: Pitch)
        ensures
            spec_pitch_bits(final(self).spec_packed())
                == spec_pitch_bits(old(self).spec_packed()) | val.spec_value(),
            spec_waveform_bits(final(self).spec_packed())
                == spec_waveform_bits(old(self).spec_packed()),
            spec_volume_bits(final(self).spec_packed())
                == spec_volume_bits(old(self).spec_packed()),
            spec_effect_bits(final(self).spec_packed())
                == spec_effect_bits(old(self).spec_packed()),
            spec_custom_flag(final(self).spec_packed())
                == spec_custom_flag(old(self).spec_packed()),
    {
        proof {
            use_type_invariant(&val);
            lemma_write_pitch(self.packed, val.0);
        }
        self.packed = self.packed | (0x3f & (val.0 as u16));
    }

    /// The note's volume: a pure projection of the 3-bit volume field.
    pub fn volume(&self) -> (r: u8)
        ensures
            r == spec_volume_bits(self.spec_packed()),
    {
        ((self.packed >> 9) & 0x7) as u8
    }

    /// Ors the volume's low 3 bits into the volume field; every other field
    /// keeps its value.
    pub fn set_volume(&mut self, val: u8)
        ensures
            spec_volume_bits(final(self).spec_packed())
                == spec_volume_bits(old(self).spec_packed()) | (val & 0x7),
            spec_pitch_bits(final(self).spec_packed())
                == spec_pitch_bits(old(self).spec_packed()),
            spec_waveform_bits(final(self).spec_packed())
                == spec_waveform_bits(old(self).spec_packed()),
            spec_effect_bits(final(self).spec_packed())
                == spec_effect_bits(old(self).spec_packed()),
            spec_custom_flag(final(self).spec_packed())
                == spec_custom_flag(old(self).spec_packed()),
    {
        proof {
            lemma_write_volume(self.packed, val);
        }
        self.packed = self.packed | (0xe00 & ((val as u16) << 9));
    }

    /// The note's effect: a pure projection of the 3-bit effect field, whose
    /// code space the eight effects cover exactly.
    pub fn effect(&self) -> (r: Effect)
        ensures
            r == spec_effect(self.spec_packed()),
    {
        match ((self.packed >> 12) & 0x7) as u8 {
            0 => Effect::NoEffect,
            1 => Effect::Slide,
            2 => Effect::Vibrato,
            3 => Effect::Drop,
            4 => Effect::FadeIn,
            5 => Effect::FadeOut,
            6 => Effect::ArpeggioFast,
            _ => Effect::ArpeggioSlow,
        }
    }

    /// Ors the effect's code into the effect field; every other field keeps
    /// its value.
    pub fn set_effect(&mut self, val: Effect)
        ensures
            spec_effect_bits(final(self).spec_packed())
                == spec_effect_bits(old(self).spec_packed()) | spec_effect_code(val),
            spec_pitch_bits(final(self).spec_packed())
                == spec_pitch_bits(old(self).spec_packed()),
            spec_waveform_bits(final(self).spec_packed())
                == spec_waveform_bits(old(self).spec_packed()),
            spec_volume_bits(final(self).spec_packed())
                == spec_volume_bits(old(self).spec_packed()),
            spec_custom_flag(final(self).spec_packed())
                == spec_custom_flag(old(self).spec_packed()),
    {
        let code: u8 = match val {
            Effect::NoEffect => 0,
            Effect::Slide => 1,
            Effect::Vibrato => 2,
            Effect::Drop => 3,
            Effect::FadeIn => 4,
            Effect::FadeOut => 5,
            Effect::ArpeggioFast => 6,
            Effect::ArpeggioSlow => 7,
        };
        proof {
            lemma_write_effect(self.packed, code);
        }
        self.packed = self.packed | (0x7000 & ((code as u16) << 12));
    }

    /// The note's instrument: the sfx-as-instrument flag decides whether the
    /// waveform field names a fixed kind or indexes the custom table.
    pub fn instrument(&self) -> (r: Instrument)
        ensures
            r == spec_instrument(self.spec_packed()),
    {
        let waveform = ((self.packed >> 6) & 0x7) as u8;
        if (self.packed >> 15) & 1 == 1 {
            Instrument::Sfx(waveform)
        } else {
            match waveform {
                0 => Instrument::Triangle,
                1 => Instrument::TiltedSaw,
                2 => Instrument::Saw,
                3 => Instrument::Square,
                4 => Instrument::Pulse,
                5 => Instrument::Organ,
                6 => Instrument::Noise,
                _ => Instrument::Phaser,
            }
        }
    }

    /// Ors the instrument's flag bit and the low 3 bits of its waveform code
    /// into their fields; every other field keeps its value.
    pub fn set_instrument(&mut self, val: Instrument)
        ensures
            spec_custom_flag(final(self).spec_packed())
                == (spec_custom_flag(old(self).spec_packed()) || val matches Instrument::Sfx(_)),
            spec_waveform_bits(final(self).spec_packed())
                == spec_waveform_bits(old(self).spec_packed()) | (spec_waveform_code(val) & 0x7),
            spec_pitch_bits(final(self).spec_packed())
                == spec_pitch_bits(old(self).spec_packed()),
            spec_volume_bits(final(self).spec_packed())
                == spec_volume_bits(old(self).spec_packed()),
            spec_effect_bits(final(self).spec_packed())
                == spec_effect_bits(old(self).spec_packed()),
    {
        let flag: u16 = match val {
            Instrument::Sfx(_) => 1,
            _ => 0,
        };
        let waveform: u8 = match val {
            Instrument::Triangle => 0,
            Instrument::TiltedSaw => 1,
            Instrument::Saw => 2,
            Instrument::Square => 3,
            Instrument::Pulse => 4,
            Instrument::Organ => 5,
            Instrument::Noise => 6,
            Instrument::Phaser => 7,
            Instrument::Sfx(w) => w,
        };
        proof {
            lemma_write_instrument(self.packed, flag, waveform);
        }
        self.packed = self.packed | (0x8000 & (flag << 15));
        self.packed = self.packed | (0x1c0 & ((waveform as u16) << 6));
    }
}

impl Default for Note {
    /// The musically empty note: every field zero.
    fn default() -> (r: Note)
        ensures
            r.spec_packed() == 0,
    {
        Note { packed: 0 }
    }
}

// ---------------------------------------------------------------------------
// Switches
// ---------------------------------------------------------------------------

/// The per-record filter/flag byte: three independent booleans in bits 0–2
/// and a 5-bit field in bits 3–7 packing the ternary triple
/// `detune + reverb*3 + dampen*9`, each component in {0, 1, 2}.
#[derive(Clone, Copy, Debug, PartialEq, Eq, Structural)]
pub struct Switches {
    pub tracker_mode: bool,
    pub noiz: bool,
    pub buzz: bool,
    pub other_filters: u8,
}

/// Law: the packed ternary triple round-trips. For every combination of
/// `(detune, reverb, dampen)` with each component in {0, 1, 2}, decoding the
/// base-3 encoding `detune + reverb*3 + dampen*9` returns the original
/// components.
pub proof fn lemma_ternary_round_trip(detune: u8, reverb: u8, dampen: u8)
    by (bit_vector)
    requires
        detune <= 2,
        reverb <= 2,
        dampen <= 2,
    ensures
        (detune + reverb * 3 + dampen * 9) % 3 == detune,
        ((detune + reverb * 3 + dampen * 9) / 3) % 3 == reverb,
        ((detune + reverb * 3 + dampen * 9) / 9) % 3 == dampen,
{
}

/// How a switches value decodes from its byte: bits 0–2 are the three
/// booleans, bits 3–7 the packed ternary field.
pub open spec fn spec_switches_decode(b: u8, s: Switches) -> bool {
    &&& s.tracker_mode == ((b & 0x1) == 0x1)
    &&& s.noiz == ((b & 0x2) == 0x2)
    &&& s.buzz == ((b & 0x4) == 0x4)
    &&& s.spec_filters() == b >> 3
}

impl Switches {
    /// The raw 5-bit packed ternary field.
    pub open spec fn spec_filters(self) -> u8 {
        self.other_filters
    }

    /// The detune component of the packed ternary field.
    pub open spec fn spec_detune(self) -> u8 {
        self.spec_filters() % 3
    }

    /// The reverb component of the packed ternary field.
    pub open spec fn spec_reverb(self) -> u8 {
        (self.spec_filters() / 3) % 3
    }

    /// The dampen component of the packed ternary field.
    pub open spec fn spec_dampen(self) -> u8 {
        (self.spec_filters() / 9) % 3
    }

    /// The representation invariant of the packed ternary field: the stored
    /// value is the canonical base-3 encoding of its three components,
    /// `detune + reverb*3 + dampen*9` — at most 26, fitting the 5-bit field
    /// with headroom to 31. Established by the default value and preserved
    /// by every accepted setter call.
    pub open spec fn spec_canonical(self) -> bool {
        self.spec_filters() == self.spec_detune() + self.spec_reverb() * 3 + self.spec_dampen()
            * 9
    }

    /// Decodes a switches value from its byte.
    pub fn from_byte(b: u8) -> (r: Switches)
        ensures
            spec_switches_decode(b, r),
    {
        Switches {
            tracker_mode: (b & 0x1) == 0x1,
            noiz: (b & 0x2) == 0x2,
            buzz: (b & 0x4) == 0x4,
            other_filters: b >> 3,
        }
    }

    /// The detune component (0–2).
    pub fn detune(&self) -> (r: u8)
        ensures
            r == self.spec_detune(),
    {
        self.other_filters % 3
    }

    /// Replaces the detune component, rejecting values above 2; the other
    /// components and the booleans keep their values.
    pub fn set_detune(&mut self, val: u8) -> (r: Result<(), PreconditionError>)
        ensures
            val <= 2 ==> {
                &&& r matches Ok(())
                &&& final(self).spec_detune() == val
                &&& final(self).spec_reverb() == old(self).spec_reverb()
                &&& final(self).spec_dampen() == old(self).spec_dampen()
                &&& final(self).spec_canonical()
                &&& final(self).tracker_mode == old(self).tracker_mode
                &&& final(self).noiz == old(self).noiz
                &&& final(self).buzz == old(self).buzz
            },
            val > 2 ==> (r matches Err(e) && e == PreconditionError::DetuneOutOfRange
                && *final(self) == *old(self)),
    {
        if val > 2 {
            return Err(PreconditionError::DetuneOutOfRange);
        }
        let reverb = self.reverb();
        let dampen = self.dampen();
        proof {
            lemma_ternary_round_trip(val, reverb, dampen);
        }
        self.other_filters = val + reverb * 3 + dampen * 9;
        Ok(())
    }

    /// The reverb component (0–2).
    pub fn reverb(&self) -> (r: u8)
        ensures
            r == self.spec_reverb(),
    {
        (self.other_filters / 3) % 3
    }

    /// Replaces the reverb component, rejecting values above 2; the other
    /// components and the booleans keep their values.
    pub fn set_reverb(&mut self, val: u8) -> (r: Result<(), PreconditionError>)
        ensures
            val <= 2 ==> {
                &&& r matches Ok(())
                &&& final(self).spec_detune() == old(self).spec_detune()
                &&& final(self).spec_reverb() == val
                &&& final(self).spec_dampen() == old(self).spec_dampen()
                &&& final(self).spec_canonical()
                &&& final(self).tracker_mode == old(self).tracker_mode
                &&& final(self).noiz == old(self).noiz
                &&& final(self).buzz == old(self).buzz
            },
            val > 2 ==> (r matches Err(e) && e == PreconditionError::ReverbOutOfRange
                && *final(self) == *old(self)),
    {
        if val > 2 {
            return Err(PreconditionError::ReverbOutOfRange);
        }
        let detune = self.detune();
        let dampen = self.dampen();
        proof {
            lemma_ternary_round_trip(detune, val, dampen);
        }
        self.other_filters = detune + val * 3 + dampen * 9;
        Ok(())
    }

    /// The dampen component (0–2).
    pub fn dampen(&self) -> (r: u8)
        ensures
            r == self.spec_dampen(),
    {
        (self.other_filters / 9) % 3
    }

    /// Replaces the dampen component, rejecting values above 2; the other
    /// components and the booleans keep their values.
    pub fn set_dampen(&mut self, val: u8) -> (r: Result<(), PreconditionError>)
        ensures
            val <= 2 ==> {
                &&& r matches Ok(())
                &&& final(self).spec_detune() == old(self).spec_detune()
                &&& final(self).spec_reverb() == old(self).spec_reverb()
                &&& final(self).spec_dampen() == val
                &&& final(self).spec_canonical()
                &&& final(self).tracker_mode == old(self).tracker_mode
                &&& final(self).noiz == old(self).noiz
                &&& final(self).buzz == old(self).buzz
            },
            val > 2 ==> (r matches Err(e) && e == PreconditionError::DampenOutOfRange
                && *final(self) == *old(self)),
    {
        if val > 2 {
            return Err(PreconditionError::DampenOutOfRange);
        }
        let detune = self.detune();
        let reverb = self.reverb();
        proof {
            lemma_ternary_round_trip(detune, reverb, val);
        }
        self.other_filters = detune + reverb * 3 + val * 9;
        Ok(())
    }
}

impl Default for Switches {
    /// The musically empty switches value: every flag off, every component 0.
    fn default() -> (r: Switches)
        ensures
            !r.tracker_mode,
            !r.noiz,
            !r.buzz,
            r.spec_filters() == 0,
            r.spec_canonical(),
    {
        Switches { tracker_mode: false, noiz: false, buzz: false, other_filters: 0 }
    }
}

// ---------------------------------------------------------------------------
// Sfx
// ---------------------------------------------------------------------------

/// One sound-effect definition: 32 note entries, a switches byte, and three
/// scalar bytes — 68 bytes in all.
#[derive(Debug)]
pub struct Sfx {
    pub notes: Vec<Note>,
    pub switches: Switches,
    pub speed: u8,
    pub loop_start: u8,
    pub loop_end: u8,
}

/// The musically empty record: every note zero, every switch off, and zeroed
/// scalars.
pub open spec fn spec_sfx_empty(s: Sfx) -> bool {
    &&& s.notes@.len() == 32
    &&& forall|i: int| 0 <= i < 32 ==> (#[trigger] s.notes@[i]).spec_packed() == 0
    &&& !s.switches.tracker_mode
    &&& !s.switches.noiz
    &&& !s.switches.buzz
    &&& s.switches.spec_filters() == 0
    &&& s.speed == 0
    &&& s.loop_start == 0
    &&& s.loop_end == 0
}

/// How a sound-effect record decodes from the 68 bytes at `off`: 32 two-byte
/// little-endian notes, the switches byte, then speed, loop start and loop
/// end.
pub open spec fn spec_sfx_decodes(bytes: Seq<u8>, off: int, s: Sfx) -> bool {
    &&& s.notes@.len() == 32
    &&& forall|i: int|
        0 <= i < 32 ==> (#[trigger] s.notes@[i]).spec_packed() == (bytes[off + 2 * i] as u16) | (
        (bytes[off + 2 * i + 1] as u16) << 8)
    &&& spec_switches_decode(bytes[off + 64], s.switches)
    &&& s.speed == bytes[off + 65]
    &&& s.loop_start == bytes[off + 66]
    &&& s.loop_end == bytes[off + 67]
}

impl Sfx {
    /// Structural validity: exactly 32 note slots.
    pub open spec fn wf(self) -> bool {
        self.notes@.len() == 32
    }

    /// An sfx is enabled when at least one of its notes has nonzero volume.
    pub open spec fn spec_enabled(self) -> bool {
        exists|i: int|
            0 <= i < self.notes@.len() && spec_volume_bits(
                (#[trigger] self.notes@[i]).spec_packed(),
            ) > 0
    }

    /// Whether at least one note has nonzero volume.
    pub fn enabled(&self) -> (r: bool)
        ensures
            r == self.spec_enabled(),
    {
        let mut i: usize = 0;
        while i < self.notes.len()
            invariant
                i <= self.notes@.len(),
                forall|k: int|
                    0 <= k < i ==> spec_volume_bits((#[trigger] self.notes@[k]).spec_packed())
                        == 0,
            decreases self.notes@.len() - i,
        {
            if self.notes[i].volume() > 0 {
                return true;
            }
            i += 1;
        }
        false
    }

    /// Decodes the 68-byte record at `off`; decoding is total once the byte
    /// count matches, because every sub-field's bit width exactly covers its
    /// declared value range.
    pub fn decode(bytes: &[u8], off: usize) -> (r: Sfx)
        requires
            off + 68 <= bytes@.len(),
        ensures
            r.wf(),
            spec_sfx_decodes(bytes@, off as int, r),
    {
        let n = bytes.len();
        let mut notes: Vec<Note> = Vec::new();
        let mut i: usize = 0;
        while i < 32
            invariant
                off + 68 <= n,
                n == bytes@.len(),
                i <= 32,
                notes@.len() == i,
                forall|k: int|
                    0 <= k < i ==> (#[trigger] notes@[k]).spec_packed() == (bytes@[off + 2 * k]
                        as u16) | ((bytes@[off + 2 * k + 1] as u16) << 8),
            decreases 32 - i,
        {
            let lo = bytes[off + 2 * i];
            let hi = bytes[off + 2 * i + 1];
            notes.push(Note::from_bytes(lo, hi));
            i += 1;
        }
        let switches = Switches::from_byte(bytes[off + 64]);
        Sfx {
            notes,
            switches,
            speed: bytes[off + 65],
            loop_start: bytes[off + 66],
            loop_end: bytes[off + 67],
        }
    }
}

impl Default for Sfx {
    /// The musically empty record, built by filling all 32 note slots with
    /// the default note.
    fn default() -> (r: Sfx)
        ensures
            r.wf(),
            spec_sfx_empty(r),
    {
        let mut notes: Vec<Note> = Vec::new();
        let mut i: usize = 0;
        while i < 32
            invariant
                i <= 32,
                notes@.len() == i,
                forall|k: int| 0 <= k < i ==> (#[trigger] notes@[k]).spec_packed() == 0,
            decreases 32 - i,
        {
            notes.push(Note::default());
            i += 1;
        }
        Sfx { notes, switches: Switches::default(), speed: 0, loop_start: 0, loop_end: 0 }
    }
}

// ---------------------------------------------------------------------------
// Section
// ---------------------------------------------------------------------------

/// The sound-effect section: an immutable array of 64 records decoded from
/// one contiguous 4352-byte span.
#[derive(Debug)]
pub struct Section {
    pub sfxes: Vec<Sfx>,
}

impl Section {
    /// Structural validity: exactly 64 records, each with its 32 note slots.
    pub open spec fn wf(self) -> bool {
        &&& self.sfxes@.len() == 64
    &&& forall|j: int| 0 <= j < 64 ==> (#[trigger] self.sfxes@[j]).wf()
    }

    /// How the section decodes from the 4352 bytes at `off`: record `j`
    /// occupies the 68 bytes at `off + 68*j`.
    pub open spec fn spec_decodes(bytes: Seq<u8>, off: int, s: Section) -> bool {
        &&& s.sfxes@.len() == 64
    &&& forall|j: int|
            0 <= j < 64 ==> spec_sfx_decodes(bytes, off + 68 * j, #[trigger] s.sfxes@[j])
    }

    /// Decodes the 64 records of the section from the 4352 bytes at `off`.
    pub fn decode(bytes: &[u8], off: usize) -> (r: Section)
        requires
            off + 4352 <= bytes@.len(),
        ensures
            r.wf(),
            Section::spec_decodes(bytes@, off as int, r),
    {
        let n = bytes.len();
        let mut sfxes: Vec<Sfx> = Vec::new();
        let mut j: usize = 0;
        while j < 64
            invariant
                off + 4352 <= n,
                n == bytes@.len(),
                j <= 64,
                sfxes@.len() == j,
                forall|k: int| 0 <= k < j ==> (#[trigger] sfxes@[k]).wf(),
                forall|k: int|
                    0 <= k < j ==> spec_sfx_decodes(bytes@, off + 68 * k, #[trigger] sfxes@[k]),
            decreases 64 - j,
        {
            sfxes.push(Sfx::decode(bytes, off + 68 * j));
            j += 1;
        }
        Section { sfxes }
    }
}

impl Default for Section {
    /// A section of 64 musically empty records, built by a loop producing the
    /// default record.
    fn default() -> (r: Section)
        ensures
            r.wf(),
            forall|j: int| 0 <= j < 64 ==> spec_sfx_empty(#[trigger] r.sfxes@[j]),
    {
        let mut sfxes: Vec<Sfx> = Vec::new();
        let mut j: usize = 0;
        while j < 64
            invariant
                j <= 64,
                sfxes@.len() == j,
                forall|k: int| 0 <= k < j ==> spec_sfx_empty(#[trigger] sfxes@[k]),
            decreases 64 - j,
        {
            sfxes.push(Sfx::default());
            j += 1;
        }
        Section { sfxes }
    }
}

} // verus!
