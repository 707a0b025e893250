//! The instrument's note and voice state, driven by the events the host sends,
//! and its answers to the host's questions.
//!
//! The voice itself (the resampled source signal) lives with the host glue;
//! each state change here comes with a `VoiceCommand` that says what must
//! happen to that voice, so that the voice exists exactly when `voice` is set.
use vstd::prelude::*;
use crate::midi::{MidiMessage, decode_midi, decode_spec};
use crate::parameter::PARAMETER_COUNT;

verus! {

/// An event delivered by the host in a processing block.
#[derive(Clone, Copy, Debug)]
pub enum HostEvent {
    /// A short MIDI message: status, key and velocity bytes.
    Midi([u8; 3]),
    /// Any other kind of event (system exclusive and the like).
    Other,
}

/// What must happen to the sounding voice after an event.
#[derive(PartialEq, Eq, Structural, Clone, Copy, Debug)]
pub enum VoiceCommand {
    /// Build a fresh voice from the source signal (for the given key).
    Start(u8),
    /// Drop the voice, if there is one.
    Stop,
    /// Leave the voice as it is.
    Keep,
}

/// The abstract state: the key being held, if any, and whether a voice sounds.
#[derive(PartialEq, Eq, Structural, Clone, Copy, Debug)]
pub struct PlayState {
    pub note: Option<u8>,
    pub voice: bool,
}

/// A state in which the voice never sounds without a held key.
pub open spec fn coherent(s: PlayState) -> bool {
    s.voice ==> s.note is Some
}

/// Pressing `key`: it becomes the held key and a fresh voice starts.
pub open spec fn note_on_spec(s: PlayState, key: u8) -> (PlayState, VoiceCommand) {
    (PlayState { note: Some(key), voice: true }, VoiceCommand::Start(key))
}

/// Releasing `key`: the held key is forgotten only if it is `key`, but the
/// voice stops whichever key was released.
pub open spec fn note_off_spec(s: PlayState, key: u8) -> (PlayState, VoiceCommand) {
    (
        PlayState { note: if s.note == Some(key) { None } else { s.note }, voice: false },
        VoiceCommand::Stop,
    )
}

/// The effect of a decoded MIDI message.
pub open spec fn message_step(s: PlayState, msg: MidiMessage) -> (PlayState, VoiceCommand) {
    match msg {
        MidiMessage::NoteOn(key) => note_on_spec(s, key),
        MidiMessage::NoteOff(key) => note_off_spec(s, key),
        MidiMessage::Ignored => (s, VoiceCommand::Keep),
    }
}

/// The effect of the raw MIDI bytes `data`.
pub open spec fn midi_step(s: PlayState, data: Seq<u8>) -> (PlayState, VoiceCommand) {
    message_step(s, decode_spec(data[0], data[1], data[2]))
}

/// The effect of one host event.
pub open spec fn event_step(s: PlayState, e: HostEvent) -> (PlayState, VoiceCommand) {
    match e {
        HostEvent::Midi(data) => midi_step(s, data@),
        HostEvent::Other => (s, VoiceCommand::Keep),
    }
}

/// The state after the events `events`, taken in order.
pub open spec fn run_events(s: PlayState, events: Seq<HostEvent>) -> PlayState
    decreases events.len(),
{
    if events.len() == 0 {
        s
    } else {
        event_step(run_events(s, events.drop_last()), events.last()).0
    }
}

/// The command issued for the `i`-th of `events`.
pub open spec fn command_at(s: PlayState, events: Seq<HostEvent>, i: int) -> VoiceCommand {
    event_step(run_events(s, events.take(i)), events[i]).1
}

/// The category the instrument reports to the host.
#[derive(PartialEq, Eq, Structural, Clone, Copy, Debug)]
pub enum Category {
    Unknown,
    Effect,
    Synth,
    Analysis,
    Mastering,
    Spacializer,
    RoomFx,
    SurroundFx,
    Restoration,
    OfflineProcess,
    Shell,
    Generator,
}

/// What the instrument reports about itself to the host.
pub struct PluginInfo {
    pub name: String,
    pub vendor: String,
    pub unique_id: i32,
    pub inputs: i32,
    pub outputs: i32,
    pub parameters: i32,
    pub category: Category,
}

/// A capability that the host asks about.
pub enum Capability {
    SendEvents,
    SendMidiEvent,
    ReceiveEvents,
    ReceiveMidiEvent,
    ReceiveTimeInfo,
    Offline,
    MidiProgramNames,
    Bypass,
    ReceiveSysExEvent,
    MidiSingleNoteTuningChange,
    MidiKeyBasedInstrumentControl,
    Other(String),
}

/// The answer to a capability question.
#[derive(PartialEq, Eq, Structural, Clone, Copy, Debug)]
pub enum Supported {
    Yes,
    Maybe,
    No,
    Custom(isize),
}

/// The instrument's own state.
pub struct MyPlugin {
    note: Option<u8>,
    voice: bool,
    editor_exists: bool,
}

impl View for MyPlugin {
    type V = PlayState;

    open spec fn view(&self) -> PlayState {
        PlayState { note: self.spec_note(), voice: self.spec_voice() }
    }
}

impl MyPlugin {
    /// The held key.
    pub closed spec fn spec_note(&self) -> Option<u8> {
        self.note
    }

    /// Whether a voice sounds.
    pub closed spec fn spec_voice(&self) -> bool {
        self.voice
    }

    /// Whether an editor has been handed out already.
    pub closed spec fn spec_editor_exists(&self) -> bool {
        self.editor_exists
    }

    /// The voice never sounds without a held key.
    #[verifier::type_invariant]
    closed spec fn voice_needs_note(&self) -> bool {
        self.voice ==> self.note is Some
    }

    /// A fresh instrument: no key held, silent, no editor handed out.
    pub fn new() -> (p: MyPlugin)
        ensures
            p@ == (PlayState { note: None, voice: false }),
            !p.spec_editor_exists(),
    {
        MyPlugin { note: None, voice: false, editor_exists: false }
    }

    /// The held key, if any.
    pub fn note(&self) -> (n: Option<u8>)
        ensures
            n == self@.note,
    {
        self.note
    }

    /// Whether a voice sounds.
    /// Every state the instrument can be in is coherent: a voice only sounds
    /// while a key is held.
    pub fn voice_active(&self) -> (v: bool)
        ensures
            v == self@.voice,
            coherent(self@),
    {
        proof {
            use_type_invariant(self);
        }
        self.voice
    }

    /// Presses `key`: it becomes the held key and a fresh voice must start.
    pub fn note_on(&mut self, key: u8) -> (cmd: VoiceCommand)
        ensures
            (final(self)@, cmd) == note_on_spec(old(self)@, key),
            final(self)@ == (PlayState { note: Some(key), voice: true }),
            cmd == VoiceCommand::Start(key),
            final(self).spec_editor_exists() == old(self).spec_editor_exists(),
    {
        *self = MyPlugin { note: Some(key), voice: true, editor_exists: self.editor_exists };
        VoiceCommand::Start(key)
    }

    /// Releases `key`: the held key is forgotten if it is `key`; the voice
    /// stops in any case.
    pub fn note_off(&mut self, key: u8) -> (cmd: VoiceCommand)
        ensures
            (final(self)@, cmd) == note_off_spec(old(self)@, key),
            old(self)@.note == Some(key) ==> final(self)@.note is None,
            old(self)@.note != Some(key) ==> final(self)@.note == old(self)@.note,
            !final(self)@.voice,
            cmd == VoiceCommand::Stop,
            final(self).spec_editor_exists() == old(self).spec_editor_exists(),
    {
        let note = if self.note == Some(key) {
            None
        } else {
            self.note
        };
        *self = MyPlugin { note, voice: false, editor_exists: self.editor_exists };
        VoiceCommand::Stop
    }

    /// Reacts to the three bytes of a MIDI event.
    pub fn process_midi_event(&mut self, data: [u8; 3]) -> (cmd: VoiceCommand)
        ensures
            (final(self)@, cmd) == midi_step(old(self)@, data@),
            data@[0] & 0xf0u8 == 0x90u8 && data@[2] != 0 ==> final(self)@ == (PlayState {
                note: Some(data@[1]),
                voice: true,
            }) && cmd == VoiceCommand::Start(data@[1]),
            (data@[0] & 0xf0u8 == 0x80u8 || (data@[0] & 0xf0u8 == 0x90u8 && data@[2] == 0))
                ==> final(self)@ == (PlayState {
                note: if old(self)@.note == Some(data@[1]) { None } else { old(self)@.note },
                voice: false,
            }) && cmd == VoiceCommand::Stop,
            data@[0] & 0xf0u8 != 0x80u8 && data@[0] & 0xf0u8 != 0x90u8 ==> final(self)@ == old(self)@
                && cmd == VoiceCommand::Keep,
            final(self).spec_editor_exists() == old(self).spec_editor_exists(),
    {
        match decode_midi(data) {
            MidiMessage::NoteOn(key) => self.note_on(key),
            MidiMessage::NoteOff(key) => self.note_off(key),
            MidiMessage::Ignored => VoiceCommand::Keep,
        }
    }

    /// Reacts to one host event.
    pub fn process_event(&mut self, event: &HostEvent) -> (cmd: VoiceCommand)
        ensures
            (final(self)@, cmd) == event_step(old(self)@, *event),
            final(self).spec_editor_exists() == old(self).spec_editor_exists(),
    {
        match event {
            HostEvent::Midi(data) => self.process_midi_event(*data),
            HostEvent::Other => VoiceCommand::Keep,
        }
    }

    /// Reacts to the events of a block in order; the `i`-th command says what
    /// the `i`-th event asks of the voice.
    pub fn process_events(&mut self, events: &Vec<HostEvent>) -> (cmds: Vec<VoiceCommand>)
        ensures
            final(self)@ == run_events(old(self)@, events@),
            cmds@ == block_commands(old(self)@, events@),
            cmds@.len() == events@.len(),
            forall|i: int|
                0 <= i < events@.len() ==> #[trigger] cmds@[i] == event_step(
                    run_events(old(self)@, events@.take(i)),
                    events@[i],
                ).1,
            final(self).spec_editor_exists() == old(self).spec_editor_exists(),
    {
        let ghost start = self@;
        let mut cmds: Vec<VoiceCommand> = Vec::new();
        let mut i: usize = 0;
        while i < events.len()
            invariant
                i <= events@.len(),
                self@ == run_events(start, events@.take(i as int)),
                cmds@.len() == i,
                forall|j: int| 0 <= j < i ==> #[trigger] cmds@[j] == command_at(start, events@, j),
                forall|j: int|
                    0 <= j < i ==> #[trigger] cmds@[j] == event_step(run_events(start, events@.take(j)), events@[j]).1,
                self.spec_editor_exists() == old(self).spec_editor_exists(),
            decreases events@.len() - i,
        {
            proof {
                assert(events@.take(i + 1).drop_last() =~= events@.take(i as int));
                assert(events@.take(i + 1).last() == events@[i as int]);
            }
            let cmd = self.process_event(&events[i]);
            cmds.push(cmd);
            i = i + 1;
        }
        proof {
            assert(events@.take(events@.len() as int) =~= events@);
            assert(cmds@ =~= block_commands(start, events@));
        }
        cmds
    }

    /// Whether the host may be handed a new editor: only while none has been
    /// handed out.
    pub fn get_editor(&self) -> (grant: bool)
        ensures
            grant == !self.spec_editor_exists(),
    {
        !self.editor_exists
    }

    /// The instrument's description for the host.
    pub fn get_info(&self) -> (info: PluginInfo)
        ensures
            info.name@ == "Vass 0"@,
            info.vendor@ == "Kazzix"@,
            info.unique_id == 1470,
            info.inputs == 2,
            info.outputs == 2,
            info.parameters == PARAMETER_COUNT,
            info.category == Category::Synth,
    {
        PluginInfo {
            name: "Vass 0".to_string(),
            vendor: "Kazzix".to_string(),
            unique_id: 1470,
            inputs: 2,
            outputs: 2,
            parameters: 1,
            category: Category::Synth,
        }
    }

    /// The answer to a capability question: receiving MIDI events is
    /// supported; about everything else the instrument says "maybe".
    pub fn can_do(&self, can_do: Capability) -> (s: Supported)
        ensures
            s == (if can_do is ReceiveMidiEvent { Supported::Yes } else { Supported::Maybe }),
    {
        match can_do {
            Capability::ReceiveMidiEvent => Supported::Yes,
            _ => Supported::Maybe,
        }
    }
}

/// Every event keeps the state coherent: a voice only ever sounds while a key
/// is held.
pub proof fn lemma_event_keeps_coherence(s: PlayState, e: HostEvent)
    requires
        coherent(s),
    ensures
        coherent(event_step(s, e).0),
{
}

/// Releasing the key that was just pressed silences the instrument and leaves
/// no key held, whatever came before.
pub proof fn lemma_note_off_undoes_note_on(s: PlayState, key: u8)
    ensures
        note_off_spec(note_on_spec(s, key).0, key).0 == (PlayState { note: None, voice: false }),
{
}

/// Releasing any key silences the voice; releasing a key other than the held
/// one keeps the held key.
pub proof fn lemma_note_off_silences(s: PlayState, key: u8)
    ensures
        !note_off_spec(s, key).0.voice,
        s.note != Some(key) ==> note_off_spec(s, key).0.note == s.note,
{
}

/// Handing the events of two blocks to the instrument one block after the
/// other has the same effect as handing them all at once.
pub proof fn lemma_blocks_compose(s: PlayState, first: Seq<HostEvent>, second: Seq<HostEvent>)
    ensures
        run_events(run_events(s, first), second) == run_events(s, first + second),
    decreases second.len(),
{
    if second.len() == 0 {
        assert(first + second =~= first);
    } else {
        lemma_blocks_compose(s, first, second.drop_last());
        assert((first + second).drop_last() =~= first + second.drop_last());
        assert((first + second).last() == second.last());
    }
}

/// Each command agrees with the state it comes with: after `Start` a voice
/// sounds, after `Stop` none does, and `Keep` comes only with an unchanged
/// state.
pub proof fn lemma_command_matches_voice(s: PlayState, e: HostEvent)
    ensures
        event_step(s, e).1 is Start ==> event_step(s, e).0.voice,
        event_step(s, e).1 is Stop ==> !event_step(s, e).0.voice,
        event_step(s, e).1 is Keep ==> event_step(s, e).0 == s,
{
}

/// Whether a voice sounds after carrying out `cmds` in order, starting from
/// `voice`.
pub open spec fn voice_after(voice: bool, cmds: Seq<VoiceCommand>) -> bool
    decreases cmds.len(),
{
    if cmds.len() == 0 {
        voice
    } else {
        match cmds.last() {
            VoiceCommand::Start(_) => true,
            VoiceCommand::Stop => false,
            VoiceCommand::Keep => voice_after(voice, cmds.drop_last()),
        }
    }
}

/// The commands issued for the block `events`, as `process_events` returns them.
pub open spec fn block_commands(s: PlayState, events: Seq<HostEvent>) -> Seq<VoiceCommand> {
    Seq::new(events.len(), |i: int| command_at(s, events, i))
}

/// Carrying out the commands of a block keeps the voice in step with the
/// state: starting from a voice that sounds exactly when the state says so,
/// a voice sounds after the block exactly when the new state says so.
pub proof fn lemma_commands_track_voice(s: PlayState, events: Seq<HostEvent>)
    ensures
        voice_after(s.voice, block_commands(s, events)) == run_events(s, events).voice,
    decreases events.len(),
{
    if events.len() > 0 {
        let n = events.len() - 1;
        let d = events.drop_last();
        lemma_commands_track_voice(s, d);
        assert forall|i: int| 0 <= i < n implies #[trigger] block_commands(s, events)[i] == block_commands(s, d)[i] by {
            assert(events.take(i) =~= d.take(i));
        }
        assert(block_commands(s, events).drop_last() =~= block_commands(s, d));
        assert(events.take(n) =~= d);
        lemma_command_matches_voice(run_events(s, d), events.last());
    }
}

/// Pressing a key always makes it the held key and starts a fresh voice,
/// whatever was held or sounding before.
pub proof fn lemma_note_on_always_sounds(s: PlayState, key: u8)
    ensures
        note_on_spec(s, key).0.note == Some(key),
        note_on_spec(s, key).0.voice,
        note_on_spec(s, key).1 == VoiceCommand::Start(key),
{
}

/// Releasing the held key leaves no key held, whether or not its voice still
/// sounds; releasing another key keeps the held one; the voice stops either way.
pub proof fn lemma_note_off_releases_held_key(s: PlayState, key: u8)
    ensures
        s.note == Some(key) ==> note_off_spec(s, key).0.note is None,
        s.note != Some(key) ==> note_off_spec(s, key).0.note == s.note,
        !note_off_spec(s, key).0.voice,
        note_off_spec(s, key).1 == VoiceCommand::Stop,
{
}

/// What one MIDI event does, in terms of its bytes: a note-on with non-zero
/// velocity makes its key the held key and starts the voice; a note-off, or a
/// note-on with velocity 0, stops the voice and forgets its key if held; any
/// other message changes nothing and keeps the voice as it is.
pub proof fn lemma_midi_event_effect(s: PlayState, data: [u8; 3])
    ensures
        data@[0] & 0xf0u8 == 0x90u8 && data@[2] != 0 ==> event_step(s, HostEvent::Midi(data)) == (
        PlayState { note: Some(data@[1]), voice: true }, VoiceCommand::Start(data@[1])),
        (data@[0] & 0xf0u8 == 0x80u8 || (data@[0] & 0xf0u8 == 0x90u8 && data@[2] == 0)) ==> event_step(
            s,
            HostEvent::Midi(data),
        ) == (PlayState {
            note: if s.note == Some(data@[1]) { None } else { s.note },
            voice: false,
        }, VoiceCommand::Stop),
        data@[0] & 0xf0u8 != 0x80u8 && data@[0] & 0xf0u8 != 0x90u8 ==> event_step(s, HostEvent::Midi(data))
            == (s, VoiceCommand::Keep),
        event_step(s, HostEvent::Other) == (s, VoiceCommand::Keep),
{
    crate::midi::lemma_decode_cases(data@[0], data@[1], data@[2]);
}

/// In a block, the command reported for each event is the command that event
/// gives on its own from the state the earlier events left; in particular a
/// MIDI message that is neither a note-on nor a note-off, and any non-MIDI
/// event, yields `Keep` and leaves the state as it was.
pub proof fn lemma_block_command_is_event_command(s: PlayState, events: Seq<HostEvent>, i: int)
    requires
        0 <= i < events.len(),
    ensures
        block_commands(s, events)[i] == event_step(run_events(s, events.take(i)), events[i]).1,
        run_events(s, events.take(i + 1)) == event_step(run_events(s, events.take(i)), events[i]).0,
        events[i] is Other ==> block_commands(s, events)[i] == VoiceCommand::Keep,
        (events[i] matches HostEvent::Midi(d) && d@[0] & 0xf0u8 != 0x80u8 && d@[0] & 0xf0u8 != 0x90u8)
            ==> block_commands(s, events)[i] == VoiceCommand::Keep && run_events(s, events.take(i + 1))
            == run_events(s, events.take(i)),
{
    assert(events.take(i + 1).drop_last() =~= events.take(i));
    assert(events.take(i + 1).last() == events[i]);
    if let HostEvent::Midi(d) = events[i] {
        lemma_midi_event_effect(run_events(s, events.take(i)), d);
    }
}

} // verus!
