use penflow::mailbox::{simulate, CommandMailbox, SimulateCommand};
use penflow::replay::{chord_for_char, plan_for_command, replay_on_wake, Chord, Key, ReplayAction};

#[test]
fn latest_post_wins() {
    let mut mailbox = CommandMailbox::new();
    mailbox.post(SimulateCommand::TypeString(String::from("first")));
    mailbox.post(SimulateCommand::PressEnter);
    // Exactly the second command is observed; the first is destroyed.
    assert_eq!(mailbox.take(), Some(SimulateCommand::PressEnter));
    assert_eq!(mailbox.take(), None);
}

#[test]
fn delete_word_drain_scenario() {
    let mut mailbox = CommandMailbox::new();
    mailbox.post(SimulateCommand::DeleteWord);

    // The worker wakes and drains: the mailbox is observed empty right
    // after the drain, before any chord has executed.
    let cmd = mailbox.take();
    assert!(mailbox.slot.is_none());
    assert_eq!(cmd, Some(SimulateCommand::DeleteWord));

    match replay_on_wake(false, cmd) {
        ReplayAction::Execute(plan) => {
            assert_eq!(plan.len(), 1);
            assert_eq!(plan[0], Chord { shift: false, control: true, key: Key::Backspace });
        },
        _ => panic!("a drained command must be executed"),
    }
}

#[test]
fn simulate_posts_the_text() {
    let mut mailbox = CommandMailbox::new();
    simulate(&mut mailbox, String::from("ok"));
    assert_eq!(mailbox.take(), Some(SimulateCommand::TypeString(String::from("ok"))));
}

#[test]
fn replay_worker_idles_and_exits() {
    assert!(matches!(replay_on_wake(false, None), ReplayAction::Idle));
    assert!(matches!(replay_on_wake(true, None), ReplayAction::Exit));
    assert!(matches!(replay_on_wake(true, Some(SimulateCommand::PressEnter)), ReplayAction::Exit));
}

#[test]
fn letters_map_to_chords_with_shift_for_uppercase() {
    assert_eq!(
        chord_for_char('a'),
        Some(Chord { shift: false, control: false, key: Key::Letter(b'A') })
    );
    assert_eq!(
        chord_for_char('A'),
        Some(Chord { shift: true, control: false, key: Key::Letter(b'A') })
    );
    assert_eq!(
        chord_for_char('z'),
        Some(Chord { shift: false, control: false, key: Key::Letter(b'Z') })
    );
    assert_eq!(chord_for_char('1'), None);
    assert_eq!(chord_for_char(' '), None);
    assert_eq!(chord_for_char('!'), None);
    assert_eq!(chord_for_char('é'), None);
}

#[test]
fn plans_for_fixed_commands() {
    let enter = plan_for_command(&SimulateCommand::PressEnter);
    assert_eq!(enter, vec![Chord { shift: false, control: false, key: Key::Return }]);
    let space = plan_for_command(&SimulateCommand::PressSpace);
    assert_eq!(space, vec![Chord { shift: false, control: false, key: Key::Space }]);
    let delete = plan_for_command(&SimulateCommand::DeleteWord);
    assert_eq!(delete, vec![Chord { shift: false, control: true, key: Key::Backspace }]);
}

#[test]
fn typing_plan_skips_unmapped_characters() {
    let plan = plan_for_command(&SimulateCommand::TypeString(String::from("Hi 5!")));
    assert_eq!(
        plan,
        vec![
            Chord { shift: true, control: false, key: Key::Letter(b'H') },
            Chord { shift: false, control: false, key: Key::Letter(b'I') },
        ]
    );
    let empty = plan_for_command(&SimulateCommand::TypeString(String::new()));
    assert!(empty.is_empty());
}

#[test]
fn release_order_reverses_press_order() {
    let chord = Chord { shift: true, control: false, key: Key::Letter(b'Q') };
    assert_eq!(chord.press_sequence(), vec![Key::ShiftLeft, Key::Letter(b'Q')]);
    assert_eq!(chord.release_sequence(), vec![Key::Letter(b'Q'), Key::ShiftLeft]);

    let delete = Chord { shift: false, control: true, key: Key::Backspace };
    assert_eq!(delete.press_sequence(), vec![Key::ControlLeft, Key::Backspace]);
    assert_eq!(delete.release_sequence(), vec![Key::Backspace, Key::ControlLeft]);

    let plain = Chord { shift: false, control: false, key: Key::Space };
    assert_eq!(plain.press_sequence(), vec![Key::Space]);
    assert_eq!(plain.release_sequence(), vec![Key::Space]);
}

#[test]
fn command_in_flight_is_not_disturbed_by_a_later_post() {
    let mut mailbox = CommandMailbox::new();
    mailbox.post(SimulateCommand::TypeString(String::from("ab")));
    let cmd = mailbox.take().unwrap();
    // A post that arrives while the worker executes waits in the mailbox;
    // the plan of the command in flight is unchanged.
    mailbox.post(SimulateCommand::PressSpace);
    let plan = plan_for_command(&cmd);
    assert_eq!(
        plan,
        vec![
            Chord { shift: false, control: false, key: Key::Letter(b'A') },
            Chord { shift: false, control: false, key: Key::Letter(b'B') },
        ]
    );
    assert_eq!(mailbox.take(), Some(SimulateCommand::PressSpace));
}
