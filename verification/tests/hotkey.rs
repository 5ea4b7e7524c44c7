use whispy::hotkey::{
    action_from_events, hotkey_update_plan, parse_hotkey, pause_hotkey_label, record_hotkey_label,
    HotkeyAction, HotkeyEvent, PairCall, PairRegistration, RecordShortcut, ShortcutSwap, SwapCall,
    SwapStage,
};

#[test]
fn paired_shortcut_labels_follow_record_shortcut() {
    assert_eq!(
        record_hotkey_label("ctrl+shift+cmd+space"),
        "Ctrl + Shift + Cmd + Space"
    );
    assert_eq!(pause_hotkey_label(), "Ctrl + Shift + P");
    assert_eq!(
        record_hotkey_label("cmd+shift+space"),
        "Cmd + Shift + Space"
    );
}

#[test]
fn unknown_setting_falls_back_to_default_shortcut() {
    assert_eq!(record_hotkey_label("alt+x"), "Ctrl + Shift + Cmd + Space");
    assert_eq!(parse_hotkey("alt+x"), RecordShortcut::CtrlShiftCmdSpace);
    assert_eq!(parse_hotkey(""), RecordShortcut::CtrlShiftCmdSpace);
    assert_eq!(parse_hotkey("cmd+shift+space"), RecordShortcut::CmdShiftSpace);
    assert_eq!(parse_hotkey("CMD+SHIFT+SPACE"), RecordShortcut::CtrlShiftCmdSpace);
}

#[test]
fn update_plan_skips_unchanged_shortcut() {
    assert_eq!(
        hotkey_update_plan(RecordShortcut::CtrlShiftCmdSpace, "ctrl+shift+cmd+space"),
        None
    );
    assert_eq!(hotkey_update_plan(RecordShortcut::CtrlShiftCmdSpace, "anything"), None);
    assert_eq!(
        hotkey_update_plan(RecordShortcut::CtrlShiftCmdSpace, "cmd+shift+space"),
        Some(RecordShortcut::CmdShiftSpace)
    );
    assert_eq!(
        hotkey_update_plan(RecordShortcut::CmdShiftSpace, "ctrl+shift+cmd+space"),
        Some(RecordShortcut::CtrlShiftCmdSpace)
    );
}

fn ev(id: u32, pressed: bool) -> HotkeyEvent {
    HotkeyEvent { id, pressed }
}

#[test]
fn first_relevant_press_decides() {
    let events = vec![ev(1, true), ev(2, true)];
    assert_eq!(action_from_events(&events, 1, 2), Some(HotkeyAction::ToggleRecording));
    let events = vec![ev(2, true), ev(1, true)];
    assert_eq!(action_from_events(&events, 1, 2), Some(HotkeyAction::TogglePause));
    let events = vec![ev(1, false), ev(9, true), ev(2, true), ev(1, true)];
    assert_eq!(action_from_events(&events, 1, 2), Some(HotkeyAction::TogglePause));
}

#[test]
fn releases_and_other_shortcuts_ask_for_nothing() {
    assert_eq!(action_from_events(&vec![], 1, 2), None);
    let events = vec![ev(1, false), ev(2, false), ev(7, true)];
    assert_eq!(action_from_events(&events, 1, 2), None);
    let events = vec![ev(1, true), ev(1, true), ev(2, false)];
    assert_eq!(action_from_events(&events, 1, 2), Some(HotkeyAction::ToggleRecording));
}

#[test]
fn changing_the_recording_shortcut_registers_before_releasing() {
    use_swap(&[true, true], &[SwapCall::RegisterNewRecord, SwapCall::UnregisterOldRecord], true);
    // Failing to unregister the old shortcut still completes the change.
    use_swap(&[true, false], &[SwapCall::RegisterNewRecord, SwapCall::UnregisterOldRecord], true);
    use_swap(&[false], &[SwapCall::RegisterNewRecord], false);
}

fn use_swap(outcomes: &[bool], expected: &[SwapCall], finished: bool) {
    let mut swap = ShortcutSwap::begin();
    assert_eq!(swap.stage(), SwapStage::RegisterRecord);
    let mut calls = Vec::new();
    let mut i = 0;
    while let Some(call) = swap.next_call() {
        calls.push(call);
        let ok = if i < outcomes.len() { outcomes[i] } else { true };
        swap.report(ok);
        i += 1;
    }
    assert_eq!(calls, expected);
    assert_eq!(swap.succeeded(), finished);
    assert_eq!(swap.stage(), if finished { SwapStage::Finished } else { SwapStage::Failed });
}

#[test]
fn start_up_registration_rolls_back_a_half_pair() {
    use_pair(&[true, true], &[PairCall::RegisterRecord, PairCall::RegisterPause], true);
    use_pair(&[false], &[PairCall::RegisterRecord], false);
    use_pair(
        &[true, false, true],
        &[PairCall::RegisterRecord, PairCall::RegisterPause, PairCall::UnregisterRecord],
        false,
    );
}

fn use_pair(outcomes: &[bool], expected: &[PairCall], done: bool) {
    let mut registration = PairRegistration::begin();
    let mut calls = Vec::new();
    let mut i = 0;
    while let Some(call) = registration.next_call() {
        calls.push(call);
        let ok = if i < outcomes.len() { outcomes[i] } else { true };
        registration.report(ok);
        i += 1;
    }
    assert_eq!(calls, expected);
    assert_eq!(registration.succeeded(), done);
}
