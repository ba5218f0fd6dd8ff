//! Session state of the attached device and the translation of MIDI messages
//! into lamp commands.

use vstd::prelude::*;
use midly::{live::{LiveEvent, SystemRealtime}, MidiMessage};
use crate::text::{decimal, decimal_string};
use crate::note_name::{NoteName, parse_spec, lamp_of_pitch, hue_of_pitch};
use crate::lamps::{command_json, color_args, temperature_args, flash_args, set_scene_color, set_scene_color_temperature, toggle_lamp, blink_lamp_green, blink_lamp_red};

verus! {

/// The messages the translation tells apart; data bytes are as received.
#[derive(Clone, Copy, Debug, PartialEq, Eq, Structural)]
pub enum MidiEvent {
    NoteOn { key: u8, vel: u8 },
    NoteOff { key: u8, vel: u8 },
    Controller { controller: u8, value: u8 },
    ProgramChange { program: u8 },
    /// The realtime keep-alive byte, ignored without notice.
    ActiveSensing,
    /// Any other well-formed message: reported and otherwise ignored.
    Other,
}

impl MidiEvent {
    /// Every data byte is seven bits wide.
    pub open spec fn wf(self) -> bool {
        match self {
            MidiEvent::NoteOn { key, vel } => key < 128 && vel < 128,
            MidiEvent::NoteOff { key, vel } => key < 128 && vel < 128,
            MidiEvent::Controller { controller, value } => controller < 128 && value < 128,
            MidiEvent::ProgramChange { program } => program < 128,
            _ => true,
        }
    }
}

/// What midly's live-event parser makes of the raw bytes `data`; `None` where
/// it rejects them.
pub uninterp spec fn live_event_of(data: Seq<u8>) -> Option<MidiEvent>;

/// Relies on `midly::live::LiveEvent::parse`, which reads one status byte and
/// its data bytes into a message whose data fields are seven-bit integers
/// (`u7`), and fails on malformed input.
#[verifier::external_body]
fn parse_live_event(data: &[u8]) -> (r: Option<MidiEvent>)
    ensures
        r == live_event_of(data@),
        r matches Some(ev) ==> ev.wf(),
{
    match LiveEvent::parse(data).ok()? {
        LiveEvent::Midi { message: MidiMessage::NoteOn { key, vel }, .. } => Some(MidiEvent::NoteOn { key: key.as_int(), vel: vel.as_int() }),
        LiveEvent::Midi { message: MidiMessage::NoteOff { key, vel }, .. } => Some(MidiEvent::NoteOff { key: key.as_int(), vel: vel.as_int() }),
        LiveEvent::Midi { message: MidiMessage::Controller { controller, value }, .. } => Some(MidiEvent::Controller { controller: controller.as_int(), value: value.as_int() }),
        LiveEvent::Midi { message: MidiMessage::ProgramChange { program }, .. } => Some(MidiEvent::ProgramChange { program: program.as_int() }),
        LiveEvent::Realtime(SystemRealtime::ActiveSensing) => Some(MidiEvent::ActiveSensing),
        _ => Some(MidiEvent::Other),
    }
}

/// Reads raw bytes `data` as one live MIDI message; `None` where they are
/// malformed.
pub fn parse_event(data: &[u8]) -> (r: Option<MidiEvent>)
    ensures
        r == live_event_of(data@),
        r matches Some(ev) ==> ev.wf(),
{
    parse_live_event(data)
}

/// The kind of a lamp command.
#[derive(Clone, Copy, Debug, PartialEq, Eq, Structural)]
pub enum CommandKind {
    /// Scene colour; the value is a hue in degrees.
    SetSceneColor,
    /// Scene colour temperature; the value is in kelvin.
    SetSceneColorTemperature,
    /// Switch on or off; no value.
    Toggle,
    /// Flash green; no value.
    BlinkGreen,
    /// Flash red; no value.
    BlinkRed,
}

/// A lamp command before rendering: its kind, its comma-separated target
/// list, and its value (see `CommandKind`).
#[derive(Clone, Debug)]
pub struct Command {
    pub kind: CommandKind,
    pub targets: String,
    pub value: u32,
}

impl View for Command {
    type V = (CommandKind, Seq<char>, u32);

    open spec fn view(&self) -> Self::V {
        (self.kind, self.targets@, self.value)
    }
}

/// The view of an optional command.
pub open spec fn command_view(c: Option<Command>) -> Option<(CommandKind, Seq<char>, u32)> {
    match c {
        Some(c) => Some(c@),
        None => None,
    }
}

/// The JSON body of command `c`, where `rgb` is the colour (0xRRGGBB) that a
/// colour or flash command carries; the other kinds leave it unused.
pub open spec fn rendered(c: (CommandKind, Seq<char>, u32), rgb: u32) -> Seq<char> {
    match c.0 {
        CommandKind::SetSceneColor => command_json(color_args(rgb, BRIGHTNESS), c.1, "set_scene"@),
        CommandKind::SetSceneColorTemperature => command_json(temperature_args(c.2, BRIGHTNESS), c.1, "set_scene"@),
        CommandKind::Toggle => command_json(Seq::empty(), c.1, "toggle"@),
        CommandKind::BlinkGreen => command_json(flash_args(rgb), c.1, "start_cf"@),
        CommandKind::BlinkRed => command_json(flash_args(rgb), c.1, "start_cf"@),
    }
}

impl Command {
    /// Renders the command as the lamp service's JSON body, at full
    /// brightness; `rgb` is the colour of a colour or flash command.
    pub fn to_json(&self, rgb: u32) -> (r: String)
        ensures
            r@ == rendered(self@, rgb),
    {
        let targets = self.targets.clone();
        match self.kind {
            CommandKind::SetSceneColor => set_scene_color(targets, rgb, BRIGHTNESS),
            CommandKind::SetSceneColorTemperature => set_scene_color_temperature(targets, self.value, BRIGHTNESS),
            CommandKind::Toggle => toggle_lamp(targets),
            CommandKind::BlinkGreen => blink_lamp_green(targets, rgb),
            CommandKind::BlinkRed => blink_lamp_red(targets, rgb),
        }
    }
}

/// Brightness, in percent, of every scene command.
pub const BRIGHTNESS: u8 = 100;

/// Program of colour mode (under bank 0).
pub const PROGRAM_COLOR: u8 = 63;
/// Program of colour-temperature mode (under bank 0).
pub const PROGRAM_TEMPERATURE: u8 = 64;
/// Program of toggle mode (under bank 0).
pub const PROGRAM_TOGGLE: u8 = 65;
/// Program of select mode (under bank 0).
pub const PROGRAM_SELECT: u8 = 66;

/// Controller that sets the high seven bits of the bank.
pub const CONTROLLER_BANK_MSB: u8 = 0;
/// Controller that sets the low seven bits of the bank.
pub const CONTROLLER_BANK_LSB: u8 = 32;

/// Colour temperature for raw note number `index`: the note range 0..=127
/// mapped linearly onto 1700..=6500 kelvin, rounded down.
pub open spec fn temperature_of(index: nat) -> nat {
    index * 4800 / 127 + 1700
}

/// Lamps of the pitch classes below `n` that are selected in `sel` and have a
/// lamp, in pitch order.
pub open spec fn selected_lamps(sel: Seq<bool>, n: nat) -> Seq<u64>
    decreases n,
{
    if n == 0 {
        Seq::empty()
    } else {
        let rest = selected_lamps(sel, (n - 1) as nat);
        if sel[n - 1] && lamp_of_pitch((n - 1) as nat) is Some {
            rest.push(lamp_of_pitch((n - 1) as nat)->0)
        } else {
            rest
        }
    }
}

/// The lamp identifiers of `ids` in decimal, separated by `", "`.
pub open spec fn join_ids(ids: Seq<u64>) -> Seq<char>
    decreases ids.len(),
{
    if ids.len() == 0 {
        Seq::empty()
    } else if ids.len() == 1 {
        decimal(ids[0] as nat)
    } else {
        join_ids(ids.drop_last()) + ", "@ + decimal(ids.last() as nat)
    }
}

/// The target list of selection mask `sel`.
pub open spec fn targets_of(sel: Seq<bool>) -> Seq<char> {
    join_ids(selected_lamps(sel, 12))
}

/// The mode that a bank and program select.
#[derive(Clone, Copy, Debug, PartialEq, Eq, Structural)]
pub enum Mode {
    Idle,
    ColorMode,
    TemperatureMode,
    ToggleMode,
    SelectMode,
}

/// The mode that `bank` and `program` select.
pub open spec fn mode_spec(bank: u16, program: u8) -> Mode {
    if bank != 0 {
        Mode::Idle
    } else if program == PROGRAM_COLOR {
        Mode::ColorMode
    } else if program == PROGRAM_TEMPERATURE {
        Mode::TemperatureMode
    } else if program == PROGRAM_TOGGLE {
        Mode::ToggleMode
    } else if program == PROGRAM_SELECT {
        Mode::SelectMode
    } else {
        Mode::Idle
    }
}

/// The mode that `bank` and `program` select: under bank 0, programs 63 to
/// 66 pick colour, temperature, toggle and select; all else is idle.
pub fn mode(bank: u16, program: u8) -> (r: Mode)
    ensures
        r == mode_spec(bank, program),
{
    if bank != 0 {
        Mode::Idle
    } else if program == PROGRAM_COLOR {
        Mode::ColorMode
    } else if program == PROGRAM_TEMPERATURE {
        Mode::TemperatureMode
    } else if program == PROGRAM_TOGGLE {
        Mode::ToggleMode
    } else if program == PROGRAM_SELECT {
        Mode::SelectMode
    } else {
        Mode::Idle
    }
}

/// Session state of one attached device.
#[derive(Clone, Debug)]
pub struct MidiState {
    /// Fourteen-bit bank: high seven bits from controller 0, low seven from
    /// controller 32.
    pub bank: u16,
    pub program: u8,
    /// Which pitch classes are selected as lamp targets.
    pub selected_notes: [bool; 12],
}

/// Bank after controller `controller` sent `value` while the bank was `bank`.
pub open spec fn bank_after(bank: u16, controller: u8, value: u8) -> u16 {
    if controller == CONTROLLER_BANK_MSB {
        (value as nat * 128 + bank as nat % 128) as u16
    } else if controller == CONTROLLER_BANK_LSB {
        (bank as nat / 128 * 128 + value as nat) as u16
    } else {
        bank
    }
}

/// Selection mask `sel` with the bit of pitch class `i` flipped.
pub open spec fn flip(sel: Seq<bool>, i: int) -> Seq<bool> {
    sel.update(i, !sel[i])
}

/// Bank after event `ev`.
pub open spec fn next_bank(bank: u16, ev: MidiEvent) -> u16 {
    match ev {
        MidiEvent::Controller { controller, value } => bank_after(bank, controller, value),
        _ => bank,
    }
}

/// Program after event `ev`.
pub open spec fn next_program(program: u8, ev: MidiEvent) -> u8 {
    match ev {
        MidiEvent::ProgramChange { program: p } => p,
        _ => program,
    }
}

/// Selection after event `ev` under bank `bank` and program `program`.
pub open spec fn next_selection(sel: Seq<bool>, bank: u16, program: u8, ev: MidiEvent) -> Seq<bool> {
    match ev {
        MidiEvent::NoteOn { key, vel } => if mode_spec(bank, program) == Mode::SelectMode {
            flip(sel, parse_spec(key).pitch() as int)
        } else {
            sel
        },
        _ => sel,
    }
}

/// The command, if any, that event `ev` gives in state (`bank`, `program`, `sel`).
pub open spec fn command_for(sel: Seq<bool>, bank: u16, program: u8, ev: MidiEvent) -> Option<(CommandKind, Seq<char>, u32)> {
    match ev {
        MidiEvent::NoteOn { key, vel } => {
            let note = parse_spec(key);
            let m = mode_spec(bank, program);
            if m == Mode::ColorMode {
                Some((CommandKind::SetSceneColor, targets_of(sel), hue_of_pitch(note.pitch()) as u32))
            } else if m == Mode::TemperatureMode {
                Some((CommandKind::SetSceneColorTemperature, targets_of(sel), temperature_of(note.flat_index()) as u32))
            } else if m == Mode::ToggleMode {
                Some((CommandKind::Toggle, targets_of(sel), 0u32))
            } else if m == Mode::SelectMode && lamp_of_pitch(note.pitch()) is Some {
                let id = decimal(lamp_of_pitch(note.pitch())->0 as nat);
                if flip(sel, note.pitch() as int)[note.pitch() as int] {
                    Some((CommandKind::BlinkGreen, id, 0u32))
                } else {
                    Some((CommandKind::BlinkRed, id, 0u32))
                }
            } else {
                None
            }
        },
        MidiEvent::ProgramChange { program: p } => if p == PROGRAM_SELECT && bank == 0 {
            Some((CommandKind::BlinkGreen, targets_of(sel), 0u32))
        } else {
            None
        },
        _ => None,
    }
}

impl MidiState {
    /// A fresh session: bank 0, program 0, nothing selected.
    pub fn new() -> (r: MidiState)
        ensures
            r.bank == 0,
            r.program == 0,
            r.selected_notes@ == Seq::new(12, |i: int| false),
    {
        let r = MidiState { bank: 0, program: 0, selected_notes: [false; 12] };
        assert(r.selected_notes@ =~= Seq::new(12, |i: int| false));
        r
    }

    /// The target list of the current selection: the identifiers of the
    /// selected lamps in pitch order, separated by `", "`; empty where none.
    pub fn get_targets(&self) -> (r: String)
        ensures
            r@ == targets_of(self.selected_notes@),
    {
        let mut s = String::new();
        let mut any = false;
        let mut i: usize = 0;
        while i < 12
            invariant
                i <= 12,
                any == (selected_lamps(self.selected_notes@, i as nat).len() > 0),
                s@ == join_ids(selected_lamps(self.selected_notes@, i as nat)),
            decreases 12 - i,
        {
            let ghost prev = selected_lamps(self.selected_notes@, i as nat);
            if self.selected_notes[i] {
                let id = NoteName::parse(i as u8).into_lamp_id();
                if let Some(id) = id {
                    if any {
                        s.append(", ");
                    }
                    s.append(decimal_string(id).as_str());
                    any = true;
                    proof {
                        let next = selected_lamps(self.selected_notes@, (i + 1) as nat);
                        assert(next == prev.push(id));
                        assert(next.drop_last() =~= prev);
                    }
                }
            }
            i = i + 1;
        }
        s
    }

    /// Applies one message: controllers 0 and 32 set the high and low seven
    /// bits of the bank, a program change sets the program, a note-on in
    /// select mode flips the bit of its pitch class. Returns the command the
    /// message gives, if any (see `command_for`).
    pub fn translate(&mut self, ev: MidiEvent) -> (r: Option<Command>)
        requires
            ev.wf(),
        ensures
            final(self).bank == next_bank(old(self).bank, ev),
            final(self).program == next_program(old(self).program, ev),
            final(self).selected_notes@ == next_selection(
                old(self).selected_notes@, old(self).bank, old(self).program, ev),
            command_view(r) == command_for(
                old(self).selected_notes@, old(self).bank, old(self).program, ev),
    {
        match ev {
            MidiEvent::NoteOn { key, vel: _ } => {
                let note = NoteName::parse(key);
                match mode(self.bank, self.program) {
                    Mode::ColorMode => Some(Command {
                        kind: CommandKind::SetSceneColor,
                        targets: self.get_targets(),
                        value: note.hue_degrees() as u32,
                    }),
                    Mode::TemperatureMode => {
                        let index = note.into_index() as u32;
                        Some(Command {
                            kind: CommandKind::SetSceneColorTemperature,
                            targets: self.get_targets(),
                            value: index * 4800 / 127 + 1700,
                        })
                    },
                    Mode::ToggleMode => Some(Command {
                        kind: CommandKind::Toggle,
                        targets: self.get_targets(),
                        value: 0,
                    }),
                    Mode::SelectMode => {
                        let index = note.into_scale_index() as usize;
                        let now = !self.selected_notes[index];
                        self.selected_notes[index] = now;
                        match note.into_lamp_id() {
                            Some(id) => Some(Command {
                                kind: if now { CommandKind::BlinkGreen } else { CommandKind::BlinkRed },
                                targets: decimal_string(id),
                                value: 0,
                            }),
                            None => None,
                        }
                    },
                    Mode::Idle => None,
                }
            },
            MidiEvent::Controller { controller, value } => {
                if controller == CONTROLLER_BANK_MSB {
                    self.bank = value as u16 * 128 + self.bank % 128;
                } else if controller == CONTROLLER_BANK_LSB {
                    self.bank = self.bank / 128 * 128 + value as u16;
                }
                None
            },
            MidiEvent::ProgramChange { program } => {
                self.program = program;
                if program == PROGRAM_SELECT && self.bank == 0 {
                    Some(Command { kind: CommandKind::BlinkGreen, targets: self.get_targets(), value: 0 })
                } else {
                    None
                }
            },
            _ => None,
        }
    }

    /// Parses raw bytes `data` and applies the message; `Err(())` where the
    /// bytes are not a well-formed message, and the state is then unchanged.
    pub fn read_midi_message(&mut self, data: &[u8]) -> (r: Result<Option<Command>, ()>)
        ensures
            match live_event_of(data@) {
                None => r is Err && *final(self) == *old(self),
                Some(ev) => r matches Ok(c) && command_view(c) == command_for(
                    old(self).selected_notes@, old(self).bank, old(self).program, ev)
                    && final(self).bank == next_bank(old(self).bank, ev)
                    && final(self).program == next_program(old(self).program, ev)
                    && final(self).selected_notes@ == next_selection(
                        old(self).selected_notes@, old(self).bank, old(self).program, ev),
            },
    {
        match parse_event(data) {
            None => Err(()),
            Some(ev) => Ok(self.translate(ev)),
        }
    }
}

/// Flipping the same pitch class twice in select mode restores the selection.
pub proof fn lemma_select_twice_restores(sel: Seq<bool>, key: u8, vel1: u8, vel2: u8)
    requires
        sel.len() == 12,
    ensures
        next_selection(
            next_selection(sel, 0, PROGRAM_SELECT, MidiEvent::NoteOn { key, vel: vel1 }),
            next_bank(0, MidiEvent::NoteOn { key, vel: vel1 }),
            next_program(PROGRAM_SELECT, MidiEvent::NoteOn { key, vel: vel1 }),
            MidiEvent::NoteOn { key, vel: vel2 },
        ) == sel,
{
    let i = parse_spec(key).pitch() as int;
    assert(flip(flip(sel, i), i) =~= sel);
}

/// Setting the bank's high half to `v0` and its low half to `v32`, in either
/// order, gives the bank `(v0 << 7) | v32`.
pub proof fn lemma_bank_from_halves(bank: u16, v0: u8, v32: u8)
    requires
        v0 < 128,
        v32 < 128,
    ensures
        bank_after(bank_after(bank, CONTROLLER_BANK_MSB, v0), CONTROLLER_BANK_LSB, v32)
            == ((v0 as u16) << 7u16) | (v32 as u16),
        bank_after(bank_after(bank, CONTROLLER_BANK_LSB, v32), CONTROLLER_BANK_MSB, v0)
            == ((v0 as u16) << 7u16) | (v32 as u16),
{
    let a = v0 as u16;
    let b = v32 as u16;
    assert(((a << 7u16) | b) == a * 128 + b) by (bit_vector)
        requires a < 128u16, b < 128u16;
    let hi = (v0 as nat * 128 + bank as nat % 128) as u16;
    assert(hi as nat / 128 == v0 as nat) by (nonlinear_arith)
        requires hi as nat == v0 as nat * 128 + bank as nat % 128, v0 < 128;
    let lo = (bank as nat / 128 * 128 + v32 as nat) as u16;
    assert(bank as nat / 128 * 128 + v32 as nat <= 65535) by (nonlinear_arith)
        requires bank <= 65535, v32 < 128;
    assert(lo as nat % 128 == v32 as nat) by (nonlinear_arith)
        requires lo as nat == bank as nat / 128 * 128 + v32 as nat, v32 < 128;
}

/// A note-off changes nothing and gives no command, whatever the state.
pub proof fn lemma_note_off_inert(sel: Seq<bool>, bank: u16, program: u8, key: u8, vel: u8)
    ensures
        next_bank(bank, MidiEvent::NoteOff { key, vel }) == bank,
        next_program(program, MidiEvent::NoteOff { key, vel }) == program,
        next_selection(sel, bank, program, MidiEvent::NoteOff { key, vel }) == sel,
        command_for(sel, bank, program, MidiEvent::NoteOff { key, vel }) is None,
{
}

} // verus!
