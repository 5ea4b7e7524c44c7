//! The global shortcuts: which recording shortcut a setting names, how each
//! shortcut is labelled, when the registered shortcuts must change, and which
//! action a batch of shortcut events asks for, and in which order shortcuts
//! are registered and released at start-up and when the recording shortcut
//! changes. The registration calls themselves are made outside the library,
//! which reports each outcome back.
use vstd::prelude::*;
use crate::text::same_text;

verus! {

/// What a shortcut press asks for.
#[derive(Debug, Clone, Copy, PartialEq, Eq, Structural)]
pub enum HotkeyAction {
    ToggleRecording,
    TogglePause,
}

/// The shortcuts offered for starting and finishing a recording.
#[derive(Debug, Clone, Copy, PartialEq, Eq, Structural)]
pub enum RecordShortcut {
    /// Ctrl + Shift + Cmd + Space (the default).
    CtrlShiftCmdSpace,
    /// Cmd + Shift + Space.
    CmdShiftSpace,
}

/// The recording shortcut a setting names: `cmd+shift+space`, or otherwise the
/// default.
pub open spec fn named_shortcut(setting: Seq<char>) -> RecordShortcut {
    if setting == "cmd+shift+space"@ {
        RecordShortcut::CmdShiftSpace
    } else {
        RecordShortcut::CtrlShiftCmdSpace
    }
}

/// How a recording shortcut is shown to the user.
pub open spec fn shortcut_label(shortcut: RecordShortcut) -> Seq<char> {
    match shortcut {
        RecordShortcut::CmdShiftSpace => "Cmd + Shift + Space"@,
        RecordShortcut::CtrlShiftCmdSpace => "Ctrl + Shift + Cmd + Space"@,
    }
}

/// The recording shortcut named by the setting `s`.
pub fn parse_hotkey(s: &str) -> (shortcut: RecordShortcut)
    ensures
        shortcut == named_shortcut(s@),
{
    if same_text(s, "cmd+shift+space") {
        RecordShortcut::CmdShiftSpace
    } else {
        RecordShortcut::CtrlShiftCmdSpace
    }
}

/// The label of the pause shortcut, which is always Ctrl + Shift + P.
pub fn pause_hotkey_label() -> (label: &'static str)
    ensures
        label@ == "Ctrl + Shift + P"@,
{
    "Ctrl + Shift + P"
}

/// The label of the recording shortcut named by the setting `s`.
pub fn record_hotkey_label(s: &str) -> (label: &'static str)
    ensures
        label@ == shortcut_label(named_shortcut(s@)),
{
    if same_text(s, "cmd+shift+space") {
        "Cmd + Shift + Space"
    } else {
        "Ctrl + Shift + Cmd + Space"
    }
}

/// The recording shortcut to register when the setting becomes `requested`
/// while `current` is registered: `None` when it names the shortcut already
/// registered (the pause shortcut never changes, so nothing is re-registered).
pub fn hotkey_update_plan(current: RecordShortcut, requested: &str) -> (plan: Option<
    RecordShortcut,
>)
    ensures
        named_shortcut(requested@) == current ==> plan is None,
        named_shortcut(requested@) != current ==> plan == Some(named_shortcut(requested@)),
{
    let wanted = parse_hotkey(requested);
    if wanted == current {
        None
    } else {
        Some(wanted)
    }
}

/// A shortcut event as the system reports it: the id of the shortcut and
/// whether it was a press (rather than a release).
pub struct HotkeyEvent {
    pub id: u32,
    pub pressed: bool,
}

/// The action a single event asks for, given the ids of the recording and
/// pause shortcuts: releases and other shortcuts ask for nothing.
pub open spec fn event_action(ev: HotkeyEvent, record_id: u32, pause_id: u32) -> Option<
    HotkeyAction,
> {
    if !ev.pressed {
        None
    } else if ev.id == record_id {
        Some(HotkeyAction::ToggleRecording)
    } else if ev.id == pause_id {
        Some(HotkeyAction::TogglePause)
    } else {
        None
    }
}

/// Event `i` is the first one in `events` that asks for an action: every
/// event before it is a release or belongs to another shortcut.
pub open spec fn is_first_request(
    events: Seq<HotkeyEvent>,
    record_id: u32,
    pause_id: u32,
    i: int,
) -> bool {
    &&& 0 <= i < events.len()
    &&& event_action(events[i], record_id, pause_id) is Some
    &&& forall|j: int|
        0 <= j < i ==> #[trigger] event_action(events[j], record_id, pause_id) is None
}

/// The action a batch of pending events asks for: that of the first press of
/// the recording or the pause shortcut, in the order the events came;
/// releases and other shortcuts are skipped, and `None` comes back when no
/// event asks for anything.
pub fn action_from_events(events: &Vec<HotkeyEvent>, record_id: u32, pause_id: u32) -> (action:
    Option<HotkeyAction>)
    ensures
        action is None <==> forall|i: int|
            0 <= i < events@.len() ==> #[trigger] event_action(events@[i], record_id, pause_id) is None,
        action is Some ==> exists|i: int|
            is_first_request(events@, record_id, pause_id, i) && action == event_action(
                #[trigger] events@[i],
                record_id,
                pause_id,
            ),
{
    let n = events.len();
    let mut i: usize = 0;
    while i < n
        invariant
            i <= n,
            n == events@.len(),
            forall|j: int| 0 <= j < i ==> #[trigger] event_action(events@[j], record_id, pause_id) is None,
        decreases n - i,
    {
        let ev = &events[i];
        if ev.pressed && ev.id == record_id {
            assert(is_first_request(events@, record_id, pause_id, i as int));
            return Some(HotkeyAction::ToggleRecording);
        }
        if ev.pressed && ev.id == pause_id {
            assert(is_first_request(events@, record_id, pause_id, i as int));
            return Some(HotkeyAction::TogglePause);
        }
        i = i + 1;
    }
    None
}

// ---------------------------------------------------------------------------
// Registering the pair at start-up
// ---------------------------------------------------------------------------

/// The system calls made while registering the shortcut pair at start-up.
#[derive(Debug, Clone, Copy, PartialEq, Eq, Structural)]
pub enum PairCall {
    /// Register the recording shortcut.
    RegisterRecord,
    /// Register the pause shortcut.
    RegisterPause,
    /// Unregister the recording shortcut again (the pause shortcut could not
    /// be registered).
    UnregisterRecord,
}

/// How far the start-up registration has come.
#[derive(Debug, Clone, Copy, PartialEq, Eq, Structural)]
pub enum PairStage {
    RegisterRecord,
    RegisterPause,
    RollBack,
    Done,
    Failed,
}

/// Registering the recording and then the pause shortcut, one call at a time:
/// if the pause shortcut cannot be registered, the recording shortcut is
/// unregistered again, so the application ends with both shortcuts or with
/// neither.
pub struct PairRegistration {
    stage: PairStage,
    record: Ghost<bool>,
    pause: Ghost<bool>,
}

impl PairRegistration {
    /// How far the registration has come.
    pub closed spec fn stage_of(self) -> PairStage {
        self.stage
    }

    /// Whether the calls made so far leave the recording shortcut registered.
    pub closed spec fn record_registered(self) -> bool {
        self.record@
    }

    /// Whether the calls made so far leave the pause shortcut registered.
    pub closed spec fn pause_registered(self) -> bool {
        self.pause@
    }

    /// What the stage and the registrations always satisfy.
    #[verifier::type_invariant]
    closed spec fn wf(self) -> bool {
        match self.stage {
            PairStage::RegisterRecord => !self.record@ && !self.pause@,
            PairStage::RegisterPause => self.record@ && !self.pause@,
            PairStage::RollBack => self.record@ && !self.pause@,
            PairStage::Done => self.record@ && self.pause@,
            PairStage::Failed => !self.record@ && !self.pause@,
        }
    }

    /// The start: nothing is registered yet.
    pub fn begin() -> (reg: Self)
        ensures
            reg.stage_of() == PairStage::RegisterRecord,
            !reg.record_registered(),
            !reg.pause_registered(),
    {
        PairRegistration { stage: PairStage::RegisterRecord, record: Ghost(false), pause: Ghost(false) }
    }

    /// The next call to make, or `None` when the registration is over.
    pub fn next_call(&self) -> (call: Option<PairCall>)
        ensures
            call == match self.stage_of() {
                PairStage::RegisterRecord => Some(PairCall::RegisterRecord),
                PairStage::RegisterPause => Some(PairCall::RegisterPause),
                PairStage::RollBack => Some(PairCall::UnregisterRecord),
                PairStage::Done => None,
                PairStage::Failed => None,
            },
    {
        match self.stage {
            PairStage::RegisterRecord => Some(PairCall::RegisterRecord),
            PairStage::RegisterPause => Some(PairCall::RegisterPause),
            PairStage::RollBack => Some(PairCall::UnregisterRecord),
            PairStage::Done => None,
            PairStage::Failed => None,
        }
    }

    /// The call from `next_call` was made and succeeded or failed (a failure
    /// to unregister is ignored).
    pub fn report(&mut self, succeeded: bool)
        ensures
            final(self).stage_of() == match old(self).stage_of() {
                PairStage::RegisterRecord => if succeeded {
                    PairStage::RegisterPause
                } else {
                    PairStage::Failed
                },
                PairStage::RegisterPause => if succeeded {
                    PairStage::Done
                } else {
                    PairStage::RollBack
                },
                PairStage::RollBack => PairStage::Failed,
                PairStage::Done => PairStage::Done,
                PairStage::Failed => PairStage::Failed,
            },
            final(self).stage_of() == PairStage::Done ==> final(self).record_registered()
                && final(self).pause_registered(),
            final(self).stage_of() == PairStage::Failed ==> !final(self).record_registered()
                && !final(self).pause_registered(),
    {
        proof {
            use_type_invariant(&*self);
        }
        match self.stage {
            PairStage::RegisterRecord => {
                if succeeded {
                    *self = PairRegistration {
                        stage: PairStage::RegisterPause,
                        record: Ghost(true),
                        pause: Ghost(false),
                    };
                } else {
                    *self = PairRegistration {
                        stage: PairStage::Failed,
                        record: Ghost(false),
                        pause: Ghost(false),
                    };
                }
            },
            PairStage::RegisterPause => {
                if succeeded {
                    *self = PairRegistration {
                        stage: PairStage::Done,
                        record: Ghost(true),
                        pause: Ghost(true),
                    };
                } else {
                    *self = PairRegistration {
                        stage: PairStage::RollBack,
                        record: Ghost(true),
                        pause: Ghost(false),
                    };
                }
            },
            PairStage::RollBack => {
                *self = PairRegistration {
                    stage: PairStage::Failed,
                    record: Ghost(false),
                    pause: Ghost(false),
                };
            },
            PairStage::Done => {},
            PairStage::Failed => {},
        }
    }

    /// Both shortcuts were registered.
    pub fn succeeded(&self) -> (done: bool)
        ensures
            done == (self.stage_of() == PairStage::Done),
    {
        self.stage == PairStage::Done
    }
}

// ---------------------------------------------------------------------------
// Changing the recording shortcut
// ---------------------------------------------------------------------------

/// The system calls made while changing the recording shortcut. The pause
/// shortcut never changes, so it stays registered throughout and no call
/// touches it.
#[derive(Debug, Clone, Copy, PartialEq, Eq, Structural)]
pub enum SwapCall {
    /// Register the new recording shortcut.
    RegisterNewRecord,
    /// Unregister the old recording shortcut.
    UnregisterOldRecord,
}

/// How far the change has come.
#[derive(Debug, Clone, Copy, PartialEq, Eq, Structural)]
pub enum SwapStage {
    RegisterRecord,
    ReleaseOld,
    Finished,
    Failed,
}

/// Which shortcuts are registered with the system, as far as the calls made
/// so far show. Unregistering is counted as done whether or not the system
/// reported success.
pub struct Registered {
    pub old_record: bool,
    pub new_record: bool,
    pub pause: bool,
}

/// A working pair is registered: the pause shortcut and some recording
/// shortcut, old or new.
pub open spec fn has_working_pair(r: Registered) -> bool {
    r.pause && (r.old_record || r.new_record)
}

/// Changing the recording shortcut one call at a time: the new shortcut is
/// registered before the old one is released, so a conflict never leaves the
/// application without a working shortcut, and the pause shortcut is left
/// alone. After every step a working pair is registered; a finished change
/// leaves the new recording shortcut alone registered beside the pause
/// shortcut, a failed one the old recording shortcut.
pub struct ShortcutSwap {
    stage: SwapStage,
    registered: Ghost<Registered>,
}

impl ShortcutSwap {
    /// How far the change has come.
    pub closed spec fn stage_of(self) -> SwapStage {
        self.stage
    }

    /// The registrations the calls made so far leave.
    pub closed spec fn registrations(self) -> Registered {
        self.registered@
    }

    /// What the stage and the registrations always satisfy.
    #[verifier::type_invariant]
    closed spec fn wf(self) -> bool {
        let r = self.registered@;
        &&& has_working_pair(r)
        &&& match self.stage {
            SwapStage::RegisterRecord => r.old_record && !r.new_record,
            SwapStage::ReleaseOld => r.old_record && r.new_record,
            SwapStage::Finished => !r.old_record && r.new_record,
            SwapStage::Failed => r.old_record && !r.new_record,
        }
    }

    /// The start of a change: the old recording shortcut and the pause
    /// shortcut are registered, the new recording shortcut not.
    pub fn begin() -> (swap: Self)
        ensures
            swap.stage_of() == SwapStage::RegisterRecord,
            swap.registrations() == (Registered { old_record: true, new_record: false, pause: true }),
    {
        ShortcutSwap {
            stage: SwapStage::RegisterRecord,
            registered: Ghost(Registered { old_record: true, new_record: false, pause: true }),
        }
    }

    /// How far the change has come.
    pub fn stage(&self) -> (stage: SwapStage)
        ensures
            stage == self.stage_of(),
    {
        self.stage
    }

    /// The next call to make, or `None` when the change is over.
    pub fn next_call(&self) -> (call: Option<SwapCall>)
        ensures
            call == match self.stage_of() {
                SwapStage::RegisterRecord => Some(SwapCall::RegisterNewRecord),
                SwapStage::ReleaseOld => Some(SwapCall::UnregisterOldRecord),
                SwapStage::Finished => None,
                SwapStage::Failed => None,
            },
    {
        match self.stage {
            SwapStage::RegisterRecord => Some(SwapCall::RegisterNewRecord),
            SwapStage::ReleaseOld => Some(SwapCall::UnregisterOldRecord),
            SwapStage::Finished => None,
            SwapStage::Failed => None,
        }
    }

    /// The call from `next_call` was made and succeeded or failed (a failure
    /// to unregister is ignored).
    pub fn report(&mut self, succeeded: bool)
        ensures
            has_working_pair(final(self).registrations()),
            final(self).registrations().pause,
            final(self).stage_of() == SwapStage::Finished ==> final(self).registrations() == (
            Registered { old_record: false, new_record: true, pause: true }),
            final(self).stage_of() == SwapStage::Failed ==> final(self).registrations() == (
            Registered { old_record: true, new_record: false, pause: true }),
            final(self).stage_of() == match old(self).stage_of() {
                SwapStage::RegisterRecord => if succeeded {
                    SwapStage::ReleaseOld
                } else {
                    SwapStage::Failed
                },
                SwapStage::ReleaseOld => SwapStage::Finished,
                SwapStage::Finished => SwapStage::Finished,
                SwapStage::Failed => SwapStage::Failed,
            },
    {
        proof {
            use_type_invariant(&*self);
        }
        let ghost r = self.registered@;
        match self.stage {
            SwapStage::RegisterRecord => {
                if succeeded {
                    *self = ShortcutSwap {
                        stage: SwapStage::ReleaseOld,
                        registered: Ghost(Registered { new_record: true, ..r }),
                    };
                } else {
                    *self = ShortcutSwap { stage: SwapStage::Failed, registered: Ghost(r) };
                }
            },
            SwapStage::ReleaseOld => {
                *self = ShortcutSwap {
                    stage: SwapStage::Finished,
                    registered: Ghost(Registered { old_record: false, ..r }),
                };
            },
            SwapStage::Finished => {},
            SwapStage::Failed => {},
        }
    }

    /// The new recording shortcut replaced the old one.
    pub fn succeeded(&self) -> (done: bool)
        ensures
            done == (self.stage_of() == SwapStage::Finished),
    {
        self.stage == SwapStage::Finished
    }
}

} // verus!
