//! The permissions check: what the user is told about microphone and
//! accessibility access, and which system settings panes are opened. The
//! probes themselves happen outside the library.
use vstd::prelude::*;
use crate::text::prefixed;

verus! {

/// The file whose presence records that the first-launch prompts were shown.
pub const FIRST_LAUNCH_MARKER: &'static str = ".permissions_intro_shown";

/// What the permissions check reports.
pub struct PermissionReport {
    /// The notification's title.
    pub title: String,
    /// The notification's text: the microphone line, a line break, the
    /// accessibility line.
    pub message: String,
    /// Open the microphone privacy settings.
    pub open_microphone_settings: bool,
    /// Open the accessibility privacy settings.
    pub open_accessibility_settings: bool,
}

/// The microphone line of the report.
pub open spec fn microphone_line(probe: Result<(), String>) -> Seq<char> {
    match probe {
        Ok(()) => "Microphone: OK (or system prompt was shown)."@,
        Err(e) => "Microphone: "@ + e@
            + " — enable Whispy under Privacy & Security → Microphone."@,
    }
}

/// The accessibility line of the report.
pub open spec fn accessibility_line(granted: bool) -> Seq<char> {
    if granted {
        "Accessibility: granted."@
    } else {
        "Accessibility: not granted — enable Whispy under Privacy & Security → Accessibility."@
    }
}

/// The report after probing the microphone (`Ok`, or the probe's error) and
/// checking whether accessibility access is granted (after prompting for it
/// when it was not): each failed permission gets its settings pane opened.
pub fn check_permissions_interactive(microphone: Result<(), String>, accessibility_granted: bool) -> (report:
    PermissionReport)
    ensures
        report.title@ == "Whispy — permissions"@,
        report.message@ == microphone_line(microphone) + "\n"@ + accessibility_line(
            accessibility_granted,
        ),
        report.open_microphone_settings == microphone is Err,
        report.open_accessibility_settings == !accessibility_granted,
{
    let mic_ok = microphone.is_ok();
    let mut message = match &microphone {
        Ok(()) => String::from_str("Microphone: OK (or system prompt was shown)."),
        Err(e) => {
            let mut line = prefixed("Microphone: ", e.as_str());
            line.append(" — enable Whispy under Privacy & Security → Microphone.");
            line
        },
    };
    message.append("\n");
    if accessibility_granted {
        message.append("Accessibility: granted.");
    } else {
        message.append(
            "Accessibility: not granted — enable Whispy under Privacy & Security → Accessibility.",
        );
    }
    PermissionReport {
        title: String::from_str("Whispy — permissions"),
        message,
        open_microphone_settings: !mic_ok,
        open_accessibility_settings: !accessibility_granted,
    }
}

} // verus!
