//! Note codec: raw MIDI note numbers and their pitch class and octave.

use vstd::prelude::*;
use crate::text::{decimal, decimal_string};

verus! {

/// Lamp addressed by the first pitch class (C).
pub const LAMP_ID_JEAN: u64 = 81346311;

/// Lamp strip addressed by the third pitch class (D).
pub const LAMP_ID_STRIP_JEAN: u64 = 81346315;

/// A note: its pitch class, carrying its octave.
#[derive(Clone, Copy, Debug, PartialEq, Eq, Structural)]
pub enum NoteName {
    C(u8),
    CS(u8),
    D(u8),
    DS(u8),
    E(u8),
    F(u8),
    FS(u8),
    G(u8),
    GS(u8),
    A(u8),
    AS(u8),
    B(u8),
}

/// The note with pitch class `pitch` (below twelve) in octave `octave`.
pub open spec fn note_of(pitch: nat, octave: u8) -> NoteName {
    if pitch == 0 { NoteName::C(octave) }
    else if pitch == 1 { NoteName::CS(octave) }
    else if pitch == 2 { NoteName::D(octave) }
    else if pitch == 3 { NoteName::DS(octave) }
    else if pitch == 4 { NoteName::E(octave) }
    else if pitch == 5 { NoteName::F(octave) }
    else if pitch == 6 { NoteName::FS(octave) }
    else if pitch == 7 { NoteName::G(octave) }
    else if pitch == 8 { NoteName::GS(octave) }
    else if pitch == 9 { NoteName::A(octave) }
    else if pitch == 10 { NoteName::AS(octave) }
    else { NoteName::B(octave) }
}

/// The note that raw note number `code` stands for.
pub open spec fn parse_spec(code: u8) -> NoteName {
    note_of(code as nat % 12, code / 12)
}

/// The lamp that pitch class `pitch` addresses, if any.
pub open spec fn lamp_of_pitch(pitch: nat) -> Option<u64> {
    if pitch == 0 {
        Some(LAMP_ID_JEAN)
    } else if pitch == 2 {
        Some(LAMP_ID_STRIP_JEAN)
    } else {
        None
    }
}

/// Hue in degrees of pitch class `pitch`: thirty degrees a step from C, B at 359.
pub open spec fn hue_of_pitch(pitch: nat) -> nat {
    if pitch == 11 { 359 } else { 30 * (pitch + 1) }
}

/// Name of pitch class `pitch`, with `#` for a sharp.
pub open spec fn pitch_label(pitch: nat) -> Seq<char> {
    if pitch == 0 { seq!['C'] }
    else if pitch == 1 { seq!['C', '#'] }
    else if pitch == 2 { seq!['D'] }
    else if pitch == 3 { seq!['D', '#'] }
    else if pitch == 4 { seq!['E'] }
    else if pitch == 5 { seq!['F'] }
    else if pitch == 6 { seq!['F', '#'] }
    else if pitch == 7 { seq!['G'] }
    else if pitch == 8 { seq!['G', '#'] }
    else if pitch == 9 { seq!['A'] }
    else if pitch == 10 { seq!['A', '#'] }
    else { seq!['B'] }
}

impl NoteName {
    /// Pitch class, from 0 (C) to 11 (B).
    pub open spec fn pitch(self) -> nat {
        match self {
            NoteName::C(_) => 0,
            NoteName::CS(_) => 1,
            NoteName::D(_) => 2,
            NoteName::DS(_) => 3,
            NoteName::E(_) => 4,
            NoteName::F(_) => 5,
            NoteName::FS(_) => 6,
            NoteName::G(_) => 7,
            NoteName::GS(_) => 8,
            NoteName::A(_) => 9,
            NoteName::AS(_) => 10,
            NoteName::B(_) => 11,
        }
    }

    pub open spec fn octave(self) -> u8 {
        match self {
            NoteName::C(o) => o,
            NoteName::CS(o) => o,
            NoteName::D(o) => o,
            NoteName::DS(o) => o,
            NoteName::E(o) => o,
            NoteName::F(o) => o,
            NoteName::FS(o) => o,
            NoteName::G(o) => o,
            NoteName::GS(o) => o,
            NoteName::A(o) => o,
            NoteName::AS(o) => o,
            NoteName::B(o) => o,
        }
    }

    /// The raw note number of this note: twelve per octave plus the pitch class.
    pub open spec fn flat_index(self) -> nat {
        self.octave() as nat * 12 + self.pitch()
    }

    /// The note that raw note number `num` stands for: pitch class `num % 12`,
    /// octave `num / 12`.
    pub fn parse(num: u8) -> (r: NoteName)
        ensures
            r == parse_spec(num),
            r.pitch() == num as nat % 12,
            r.octave() == num / 12,
    {
        let octave = num / 12;
        let pitch = num % 12;
        if pitch == 0 { NoteName::C(octave) }
        else if pitch == 1 { NoteName::CS(octave) }
        else if pitch == 2 { NoteName::D(octave) }
        else if pitch == 3 { NoteName::DS(octave) }
        else if pitch == 4 { NoteName::E(octave) }
        else if pitch == 5 { NoteName::F(octave) }
        else if pitch == 6 { NoteName::FS(octave) }
        else if pitch == 7 { NoteName::G(octave) }
        else if pitch == 8 { NoteName::GS(octave) }
        else if pitch == 9 { NoteName::A(octave) }
        else if pitch == 10 { NoteName::AS(octave) }
        else { NoteName::B(octave) }
    }

    /// The raw note number: `octave * 12 + pitch class`.
    pub fn into_index(&self) -> (r: u8)
        requires
            self.flat_index() < 256,
        ensures
            r as nat == self.flat_index(),
    {
        let oct = self.octave_of();
        oct * 12 + self.into_scale_index()
    }

    /// The octave this note lies in.
    pub fn octave_of(&self) -> (r: u8)
        ensures
            r == self.octave(),
    {
        match self {
            NoteName::C(o) => *o,
            NoteName::CS(o) => *o,
            NoteName::D(o) => *o,
            NoteName::DS(o) => *o,
            NoteName::E(o) => *o,
            NoteName::F(o) => *o,
            NoteName::FS(o) => *o,
            NoteName::G(o) => *o,
            NoteName::GS(o) => *o,
            NoteName::A(o) => *o,
            NoteName::AS(o) => *o,
            NoteName::B(o) => *o,
        }
    }

    /// The pitch class, from 0 (C) to 11 (B); the octave plays no part.
    pub fn into_scale_index(&self) -> (r: u8)
        ensures
            r as nat == self.pitch(),
            r < 12,
    {
        match self {
            NoteName::C(_) => 0,
            NoteName::CS(_) => 1,
            NoteName::D(_) => 2,
            NoteName::DS(_) => 3,
            NoteName::E(_) => 4,
            NoteName::F(_) => 5,
            NoteName::FS(_) => 6,
            NoteName::G(_) => 7,
            NoteName::GS(_) => 8,
            NoteName::A(_) => 9,
            NoteName::AS(_) => 10,
            NoteName::B(_) => 11,
        }
    }

    /// Hue in whole degrees: 30 for C, rising by 30 a pitch class, 359 for B.
    pub fn hue_degrees(&self) -> (r: u16)
        ensures
            r as nat == hue_of_pitch(self.pitch()),
            r < 360,
    {
        let pitch = self.into_scale_index();
        if pitch == 11 { 359 } else { 30 * (pitch as u16 + 1) }
    }

    /// The lamp this note's pitch class addresses: C and D have one, the
    /// others none.
    pub fn into_lamp_id(&self) -> (r: Option<u64>)
        ensures
            r == lamp_of_pitch(self.pitch()),
    {
        let pitch = self.into_scale_index();
        if pitch == 0 {
            Some(LAMP_ID_JEAN)
        } else if pitch == 2 {
            Some(LAMP_ID_STRIP_JEAN)
        } else {
            None
        }
    }

    /// Display label: the pitch class name followed by the octave, as `C#4`.
    pub fn label(&self) -> (r: String)
        ensures
            r@ == pitch_label(self.pitch()) + decimal(self.octave() as nat),
    {
        let pitch = self.into_scale_index();
        let name = if pitch == 0 { "C" }
            else if pitch == 1 { "C#" }
            else if pitch == 2 { "D" }
            else if pitch == 3 { "D#" }
            else if pitch == 4 { "E" }
            else if pitch == 5 { "F" }
            else if pitch == 6 { "F#" }
            else if pitch == 7 { "G" }
            else if pitch == 8 { "G#" }
            else if pitch == 9 { "A" }
            else if pitch == 10 { "A#" }
            else { "B" };
        proof {
            reveal_strlit("C");
            reveal_strlit("C#");
            reveal_strlit("D");
            reveal_strlit("D#");
            reveal_strlit("E");
            reveal_strlit("F");
            reveal_strlit("F#");
            reveal_strlit("G");
            reveal_strlit("G#");
            reveal_strlit("A");
            reveal_strlit("A#");
            reveal_strlit("B");
        }
        assert(name@ =~= pitch_label(self.pitch()));
        let mut s = String::from_str(name);
        let oct = decimal_string(self.octave_of() as u64);
        s.append(oct.as_str());
        s
    }
}

/// Parsing a raw note number and flattening the note again gives the number back.
pub proof fn lemma_flat_index_of_parse(code: u8)
    requires
        code < 128,
    ensures
        parse_spec(code).flat_index() == code as nat,
{
    let n = parse_spec(code);
    assert(n.pitch() == code as nat % 12 && n.octave() == code / 12);
}

/// The pitch class of a parsed note number is that number modulo twelve.
pub proof fn lemma_scale_index_of_parse(code: u8)
    ensures
        parse_spec(code).pitch() == code as nat % 12,
{
}

} // verus!
