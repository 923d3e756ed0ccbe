//! The permission and notification facade: each operation is a single
//! decision from plain inputs (and, where the host runtime is involved, from
//! the host call's outcome) to the value handed back to the front end.

use vstd::prelude::*;

verus! {

/// The answer to a permission check: three flags, of which exactly one is set.
#[derive(Clone, Copy)]
pub struct NotificationPermission {
    pub granted: bool,
    pub denied: bool,
    pub default: bool,
}

/// A permission status is coherent when exactly one of its three flags holds.
pub open spec fn exactly_one_status(p: NotificationPermission) -> bool {
    ||| (p.granted && !p.denied && !p.default)
    ||| (!p.granted && p.denied && !p.default)
    ||| (!p.granted && !p.denied && p.default)
}

/// Check notification permission status.
///
/// The host platforms in use grant notification display by default, so the
/// facade reports the granted status unconditionally; no platform is asked.
/// The result is always coherent: exactly one flag is set.
pub fn check_notification_permission() -> (r: NotificationPermission)
    ensures
        r.granted,
        !r.denied,
        !r.default,
        exactly_one_status(r),
{
    NotificationPermission { granted: true, denied: false, default: false }
}

/// Request notification permission.
///
/// No platform in use needs an explicit request, so the request always
/// resolves successfully with `true`; it cannot fail.
pub fn request_notification_permission() -> (r: Result<bool, String>)
    ensures
        r == Result::<bool, String>::Ok(true),
{
    Ok(true)
}

/// What the shell hands to the host notification plugin: the title and body
/// exactly as the front end supplied them.
pub struct NotificationRequest {
    pub title: String,
    pub body: String,
}

/// Show a native notification: build the request that the shell passes to the
/// host notification plugin.
///
/// Both strings pass through unchanged. Nothing is validated: an empty title
/// or an empty body is allowed, and only the plugin itself can reject the
/// request (see `dispatch_outcome`).
pub fn show_notification(title: String, body: String) -> (r: NotificationRequest)
    ensures
        r.title@ == title@,
        r.body@ == body@,
{
    NotificationRequest { title, body }
}

/// Map the host notification plugin's verdict to the caller's result.
///
/// Success passes through, and a rejection surfaces with the plugin's own
/// message kept word for word; the call is never retried.
pub fn dispatch_outcome(outcome: Result<(), String>) -> (r: Result<(), String>)
    ensures
        r is Ok <==> outcome is Ok,
        outcome is Err ==> r is Err && r->Err_0@ == outcome->Err_0@,
{
    outcome
}

/// The platform the shell runs on, chosen once at startup.
#[derive(Clone, Copy)]
pub enum Platform {
    Windows,
    MacOs,
    Linux,
}

/// The process the shell spawns to play the system notification sound.
pub struct SoundCommand {
    pub program: String,
    pub args: Vec<String>,
}

/// Pick the sound-playing process for a platform: a fixed program with fixed
/// arguments, never configurable.
pub fn sound_command(platform: Platform) -> (c: SoundCommand)
    ensures
        platform is Windows ==> c.program@ == "powershell"@ && c.args@.len() == 2
            && c.args@[0]@ == "-c"@
            && c.args@[1]@
            == "(New-Object Media.SoundPlayer 'C:\\Windows\\Media\\Windows Notify System Generic.wav').PlaySync()"@,
        platform is MacOs ==> c.program@ == "afplay"@ && c.args@.len() == 1
            && c.args@[0]@ == "/System/Library/Sounds/Glass.aiff"@,
        platform is Linux ==> c.program@ == "paplay"@ && c.args@.len() == 1
            && c.args@[0]@ == "/usr/share/sounds/freedesktop/stereo/message.oga"@,
{
    match platform {
        Platform::Windows => {
            let mut args: Vec<String> = Vec::new();
            args.push(String::from_str("-c"));
            args.push(String::from_str(
                "(New-Object Media.SoundPlayer 'C:\\Windows\\Media\\Windows Notify System Generic.wav').PlaySync()",
            ));
            SoundCommand { program: String::from_str("powershell"), args }
        },
        Platform::MacOs => {
            let mut args: Vec<String> = Vec::new();
            args.push(String::from_str("/System/Library/Sounds/Glass.aiff"));
            SoundCommand { program: String::from_str("afplay"), args }
        },
        Platform::Linux => {
            let mut args: Vec<String> = Vec::new();
            args.push(String::from_str("/usr/share/sounds/freedesktop/stereo/message.oga"));
            SoundCommand { program: String::from_str("paplay"), args }
        },
    }
}

/// Play the notification sound: decide the caller's result from the platform
/// and from the shell's attempt to spawn the sound-playing process.
///
/// A failed spawn surfaces only on Windows, where the spawn error follows a
/// fixed message; on macOS and Linux the attempt is fire-and-forget and its
/// outcome is discarded, so those platforms never report a failure.
pub fn play_notification_sound(platform: Platform, spawn_outcome: Result<(), String>) -> (r:
    Result<(), String>)
    ensures
        !(platform is Windows) ==> r is Ok,
        platform is Windows && spawn_outcome is Ok ==> r is Ok,
        platform is Windows && spawn_outcome is Err ==> r is Err && r->Err_0@
            == "Failed to play sound: "@ + spawn_outcome->Err_0@,
{
    match platform {
        Platform::Windows => match spawn_outcome {
            Ok(u) => Ok(u),
            Err(e) => {
                let mut msg = String::from_str("Failed to play sound: ");
                msg.append(e.as_str());
                Err(msg)
            },
        },
        Platform::MacOs => Ok(()),
        Platform::Linux => Ok(()),
    }
}

/// Check if the app is currently focused: pass the host window's answer
/// through unchanged.
///
/// An unfocused window yields `Ok(false)`, never an error; an error comes
/// exactly when the host's focus query itself failed, with the host's message
/// kept word for word.
pub fn is_app_focused(query_outcome: Result<bool, String>) -> (r: Result<bool, String>)
    ensures
        query_outcome is Ok ==> r == Result::<bool, String>::Ok(query_outcome->Ok_0),
        query_outcome is Err ==> r is Err && r->Err_0@ == query_outcome->Err_0@,
{
    query_outcome
}

} // verus!
