//! The music-pattern section: 64 patterns, each composed of 4 one-byte
//! channel slots with bit-packed sub-fields.

use vstd::prelude::*;

verus! {

/// One channel slot of a pattern: bits 0–5 reference an entry of the sfx
/// table, bit 6 is the disabled bit, bit 7 a role-specific flag whose meaning
/// is fixed by the slot index within the pattern.
#[derive(Clone, Copy, Debug, PartialEq, Eq, Structural)]
pub struct Channel {
    pub sfx_id: u8,
    pub disabled: bool,
    pub pattern_flag: bool,
}

/// How a channel decodes from its byte.
pub open spec fn spec_channel_decodes(b: u8, c: Channel) -> bool {
    &&& c.sfx_id == b & 0x3f
    &&& c.disabled == ((b & 0x40) == 0x40)
    &&& c.pattern_flag == ((b & 0x80) == 0x80)
}

impl Channel {
    /// Decodes a channel from its byte. Any 6-bit sfx reference is
    /// structurally legal; cross-reference validity is the translation
    /// engine's concern.
    pub fn from_byte(b: u8) -> (r: Channel)
        ensures
            spec_channel_decodes(b, r),
    {
        Channel { sfx_id: b & 0x3f, disabled: (b & 0x40) == 0x40, pattern_flag: (b & 0x80) == 0x80 }
    }

    /// A channel is enabled when its disabled bit is clear.
    pub fn enabled(&self) -> (r: bool)
        ensures
            r == !self.disabled,
    {
        !self.disabled
    }

    /// Sets the disabled bit from the given enabled state; the reference id
    /// and the flag keep their values.
    pub fn set_enabled(&mut self, val: bool)
        ensures
            final(self).disabled == !val,
            final(self).sfx_id == old(self).sfx_id,
            final(self).pattern_flag == old(self).pattern_flag,
    {
        self.disabled = !val;
    }
}

impl Default for Channel {
    /// The empty channel slot: reference 0, enabled, flag clear.
    fn default() -> (r: Channel)
        ensures
            r.sfx_id == 0,
            !r.disabled,
            !r.pattern_flag,
    {
        Channel { sfx_id: 0, disabled: false, pattern_flag: false }
    }
}

/// One row of the music sequencer: 4 channel slots. Slot 0 carries the
/// loop-start flag, slot 1 the loop-back flag, slot 2 the stop-at-end flag;
/// slot 3's flag bit is reserved.
#[derive(Debug)]
pub struct Pattern {
    pub channels: Vec<Channel>,
}

/// How a pattern decodes from the 4 bytes at `off`: one channel per byte.
pub open spec fn spec_pattern_decodes(bytes: Seq<u8>, off: int, p: Pattern) -> bool {
    &&& p.channels@.len() == 4
    &&& forall|k: int|
        0 <= k < 4 ==> spec_channel_decodes(bytes[off + k], #[trigger] p.channels@[k])
}

impl Pattern {
    /// Structural validity: exactly 4 channel slots.
    pub open spec fn wf(self) -> bool {
        self.channels@.len() == 4
    }

    /// The loop-start flag, carried by slot 0.
    pub open spec fn spec_loop_start(self) -> bool {
        self.channels@[0].pattern_flag
    }

    /// The loop-back flag, carried by slot 1.
    pub open spec fn spec_loop_back(self) -> bool {
        self.channels@[1].pattern_flag
    }

    /// The stop-at-end flag, carried by slot 2.
    pub open spec fn spec_stop_at_end(self) -> bool {
        self.channels@[2].pattern_flag
    }

    /// A pattern is enabled when at least one of its channels is not
    /// disabled.
    pub open spec fn spec_enabled(self) -> bool {
        exists|k: int| 0 <= k < self.channels@.len() && !(#[trigger] self.channels@[k]).disabled
    }

    /// Decodes the 4-byte pattern at `off`; total once the bytes are there.
    pub fn decode(bytes: &[u8], off: usize) -> (r: Pattern)
        requires
            off + 4 <= bytes@.len(),
        ensures
            r.wf(),
            spec_pattern_decodes(bytes@, off as int, r),
    {
        let n = bytes.len();
        let mut channels: Vec<Channel> = Vec::new();
        let mut k: usize = 0;
        while k < 4
            invariant
                off + 4 <= n,
                n == bytes@.len(),
                k <= 4,
                channels@.len() == k,
                forall|m: int|
                    0 <= m < k ==> spec_channel_decodes(bytes@[off + m], #[trigger] channels@[m]),
            decreases 4 - k,
        {
            channels.push(Channel::from_byte(bytes[off + k]));
            k += 1;
        }
        Pattern { channels }
    }

    /// The loop-start flag.
    pub fn loop_start(&self) -> (r: bool)
        requires
            self.wf(),
        ensures
            r == self.spec_loop_start(),
    {
        self.channels[0].pattern_flag
    }

    /// Replaces the loop-start flag; everything else keeps its value.
    pub fn set_begin_loop(&mut self, val: bool)
        requires
            old(self).wf(),
        ensures
            final(self).wf(),
            final(self).spec_loop_start() == val,
            final(self).channels@[0].sfx_id == old(self).channels@[0].sfx_id,
            final(self).channels@[0].disabled == old(self).channels@[0].disabled,
            forall|k: int| 1 <= k < 4 ==> final(self).channels@[k] == old(self).channels@[k],
    {
        let mut c = self.channels[0];
        c.pattern_flag = val;
        self.channels[0] = c;
    }

    /// The loop-back flag.
    pub fn loop_back(&self) -> (r: bool)
        requires
            self.wf(),
        ensures
            r == self.spec_loop_back(),
    {
        self.channels[1].pattern_flag
    }

    /// Replaces the loop-back flag; everything else keeps its value.
    pub fn set_end_loop(&mut self, val: bool)
        requires
            old(self).wf(),
        ensures
            final(self).wf(),
            final(self).spec_loop_back() == val,
            final(self).channels@[1].sfx_id == old(self).channels@[1].sfx_id,
            final(self).channels@[1].disabled == old(self).channels@[1].disabled,
            forall|k: int|
                0 <= k < 4 && k != 1 ==> final(self).channels@[k] == old(self).channels@[k],
    {
        let mut c = self.channels[1];
        c.pattern_flag = val;
        self.channels[1] = c;
    }

    /// The stop-at-end flag.
    pub fn stop_at_end(&self) -> (r: bool)
        requires
            self.wf(),
        ensures
            r == self.spec_stop_at_end(),
    {
        self.channels[2].pattern_flag
    }

    /// Replaces the stop-at-end flag; everything else keeps its value.
    pub fn set_stop_at_end(&mut self, val: bool)
        requires
            old(self).wf(),
        ensures
            final(self).wf(),
            final(self).spec_stop_at_end() == val,
            final(self).channels@[2].sfx_id == old(self).channels@[2].sfx_id,
            final(self).channels@[2].disabled == old(self).channels@[2].disabled,
            forall|k: int|
                0 <= k < 4 && k != 2 ==> final(self).channels@[k] == old(self).channels@[k],
    {
        let mut c = self.channels[2];
        c.pattern_flag = val;
        self.channels[2] = c;
    }

    /// Whether at least one channel is not disabled.
    pub fn enabled(&self) -> (r: bool)
        requires
            self.wf(),
        ensures
            r == self.spec_enabled(),
    {
        !self.channels[0].disabled || !self.channels[1].disabled || !self.channels[2].disabled
            || !self.channels[3].disabled
    }
}

impl Default for Pattern {
    /// The empty pattern: 4 empty channel slots.
    fn default() -> (r: Pattern)
        ensures
            r.wf(),
            forall|k: int|
                0 <= k < 4 ==> (#[trigger] r.channels@[k]) == (Channel {
                    sfx_id: 0,
                    disabled: false,
                    pattern_flag: false,
                }),
    {
        let mut channels: Vec<Channel> = Vec::new();
        let mut k: usize = 0;
        while k < 4
            invariant
                k <= 4,
                channels@.len() == k,
                forall|m: int|
                    0 <= m < k ==> (#[trigger] channels@[m]) == (Channel {
                        sfx_id: 0,
                        disabled: false,
                        pattern_flag: false,
                    }),
            decreases 4 - k,
        {
            channels.push(Channel::default());
            k += 1;
        }
        Pattern { channels }
    }
}

/// The music-pattern section: an immutable array of 64 patterns decoded from
/// one contiguous 256-byte span.
#[derive(Debug)]
pub struct Section {
    pub patterns: Vec<Pattern>,
}

impl Section {
    /// Structural validity: exactly 64 patterns, each with its 4 slots.
    pub open spec fn wf(self) -> bool {
        &&& self.patterns@.len() == 64
        &&& forall|j: int| 0 <= j < 64 ==> (#[trigger] self.patterns@[j]).wf()
    }

    /// How the section decodes from the 256 bytes at `off`: pattern `j`
    /// occupies the 4 bytes at `off + 4*j`.
    pub open spec fn spec_decodes(bytes: Seq<u8>, off: int, s: Section) -> bool {
        &&& s.patterns@.len() == 64
        &&& forall|j: int|
            0 <= j < 64 ==> spec_pattern_decodes(bytes, off + 4 * j, #[trigger] s.patterns@[j])
    }

    /// Decodes the 64 patterns of the section from the 256 bytes at `off`.
    pub fn decode(bytes: &[u8], off: usize) -> (r: Section)
        requires
            off + 256 <= bytes@.len(),
        ensures
            r.wf(),
            Section::spec_decodes(bytes@, off as int, r),
    {
        let n = bytes.len();
        let mut patterns: Vec<Pattern> = Vec::new();
        let mut j: usize = 0;
        while j < 64
            invariant
                off + 256 <= n,
                n == bytes@.len(),
                j <= 64,
                patterns@.len() == j,
                forall|k: int| 0 <= k < j ==> (#[trigger] patterns@[k]).wf(),
                forall|k: int|
                    0 <= k < j ==> spec_pattern_decodes(bytes@, off + 4 * k, #[trigger] patterns@[k]),
            decreases 64 - j,
        {
            patterns.push(Pattern::decode(bytes, off + 4 * j));
            j += 1;
        }
        Section { patterns }
    }
}

impl Default for Section {
    /// A section of 64 empty patterns, built by a loop producing the default
    /// pattern.
    fn default() -> (r: Section)
        ensures
            r.wf(),
            forall|j: int, k: int|
                0 <= j < 64 && 0 <= k < 4 ==> (#[trigger] r.patterns@[j].channels@[k]) == (Channel {
                    sfx_id: 0,
                    disabled: false,
                    pattern_flag: false,
                }),
    {
        let mut patterns: Vec<Pattern> = Vec::new();
        let mut j: usize = 0;
        while j < 64
            invariant
                j <= 64,
                patterns@.len() == j,
                forall|k: int| 0 <= k < j ==> (#[trigger] patterns@[k]).wf(),
                forall|m: int, k: int|
                    0 <= m < j && 0 <= k < 4 ==> (#[trigger] patterns@[m].channels@[k]) == (Channel {
                        sfx_id: 0,
                        disabled: false,
                        pattern_flag: false,
                    }),
            decreases 64 - j,
        {
            patterns.push(Pattern::default());
            j += 1;
        }
        Section { patterns }
    }
}

} // verus!
