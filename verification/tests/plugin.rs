use vass::parameter::{Index, PARAMETER_COUNT};
use vass::plugin::{Capability, Category, HostEvent, MyPlugin, Supported, VoiceCommand};

#[test]
fn fresh_plugin_is_silent() {
    let p = MyPlugin::new();
    assert_eq!(p.note(), None);
    assert!(!p.voice_active());
    assert!(p.get_editor());
}

#[test]
fn note_on_then_off_same_key() {
    let mut p = MyPlugin::new();
    assert_eq!(p.note_on(60), VoiceCommand::Start(60));
    assert_eq!(p.note(), Some(60));
    assert!(p.voice_active());
    assert_eq!(p.note_off(60), VoiceCommand::Stop);
    assert_eq!(p.note(), None);
    assert!(!p.voice_active());
}

#[test]
fn note_off_other_key_keeps_note_but_stops_voice() {
    let mut p = MyPlugin::new();
    p.note_on(60);
    assert_eq!(p.note_off(62), VoiceCommand::Stop);
    assert_eq!(p.note(), Some(60));
    assert!(!p.voice_active());
}

#[test]
fn new_note_replaces_held_note() {
    let mut p = MyPlugin::new();
    p.note_on(60);
    assert_eq!(p.note_on(67), VoiceCommand::Start(67));
    assert_eq!(p.note(), Some(67));
    assert!(p.voice_active());
}

#[test]
fn midi_events_drive_the_state() {
    let mut p = MyPlugin::new();
    assert_eq!(p.process_midi_event([0x91, 48, 90]), VoiceCommand::Start(48));
    assert_eq!(p.note(), Some(48));
    assert_eq!(p.process_midi_event([0xb1, 1, 90]), VoiceCommand::Keep);
    assert_eq!(p.note(), Some(48));
    assert!(p.voice_active());
    assert_eq!(p.process_midi_event([0x91, 48, 0]), VoiceCommand::Stop);
    assert_eq!(p.note(), None);
    assert!(!p.voice_active());
}

#[test]
fn process_events_in_order() {
    let mut p = MyPlugin::new();
    let events = vec![
        HostEvent::Midi([0x90, 60, 100]),
        HostEvent::Other,
        HostEvent::Midi([0x90, 64, 100]),
        HostEvent::Midi([0x80, 60, 0]),
        HostEvent::Midi([0xc0, 3, 0]),
    ];
    let cmds = p.process_events(&events);
    assert_eq!(
        cmds,
        vec![
            VoiceCommand::Start(60),
            VoiceCommand::Keep,
            VoiceCommand::Start(64),
            VoiceCommand::Stop,
            VoiceCommand::Keep,
        ]
    );
    assert_eq!(p.note(), Some(64));
    assert!(!p.voice_active());
}

#[test]
fn blocks_compose() {
    let all = vec![
        HostEvent::Midi([0x90, 60, 100]),
        HostEvent::Midi([0x80, 60, 0]),
        HostEvent::Midi([0x90, 62, 1]),
    ];
    let mut once = MyPlugin::new();
    once.process_events(&all);
    let mut twice = MyPlugin::new();
    twice.process_events(&vec![all[0], all[1]]);
    twice.process_events(&vec![all[2]]);
    assert_eq!(once.note(), twice.note());
    assert_eq!(once.voice_active(), twice.voice_active());
    assert_eq!(twice.note(), Some(62));
}

#[test]
fn empty_block_changes_nothing() {
    let mut p = MyPlugin::new();
    p.note_on(70);
    let cmds = p.process_events(&Vec::new());
    assert!(cmds.is_empty());
    assert_eq!(p.note(), Some(70));
    assert!(p.voice_active());
}

#[test]
fn can_do_midi_only() {
    let p = MyPlugin::new();
    assert_eq!(p.can_do(Capability::ReceiveMidiEvent), Supported::Yes);
    assert_eq!(p.can_do(Capability::ReceiveEvents), Supported::Maybe);
    assert_eq!(p.can_do(Capability::SendMidiEvent), Supported::Maybe);
    assert_eq!(p.can_do(Capability::Bypass), Supported::Maybe);
    assert_eq!(p.can_do(Capability::Other("sizeWindow".to_string())), Supported::Maybe);
}

#[test]
fn info_describes_the_instrument() {
    let p = MyPlugin::new();
    let info = p.get_info();
    assert_eq!(info.name, "Vass 0");
    assert_eq!(info.vendor, "Kazzix");
    assert_eq!(info.unique_id, 1470);
    assert_eq!(info.inputs, 2);
    assert_eq!(info.outputs, 2);
    assert_eq!(info.parameters, 1);
    assert_eq!(info.parameters as usize, PARAMETER_COUNT);
    assert_eq!(info.category, Category::Synth);
}

#[test]
fn attack_is_parameter_zero() {
    assert_eq!(Index::Attack.as_i32(), 0);
    assert!((Index::Attack.as_i32() as usize) < PARAMETER_COUNT);
}

#[test]
fn commands_keep_voice_in_step() {
    let mut p = MyPlugin::new();
    let mut voice = false;
    let blocks = vec![
        vec![HostEvent::Midi([0x90, 60, 100]), HostEvent::Other],
        vec![HostEvent::Midi([0x80, 61, 0])],
        vec![HostEvent::Midi([0x90, 62, 5]), HostEvent::Midi([0xb0, 64, 127])],
        vec![],
        vec![HostEvent::Midi([0x92, 62, 0]), HostEvent::Midi([0x90, 63, 9])],
    ];
    for block in &blocks {
        for cmd in p.process_events(block) {
            match cmd {
                VoiceCommand::Start(_) => voice = true,
                VoiceCommand::Stop => voice = false,
                VoiceCommand::Keep => (),
            }
        }
        assert_eq!(voice, p.voice_active());
        assert!(!p.voice_active() || p.note().is_some());
    }
}
