//! Delivering transcribed text: typed at the cursor or copied to the
//! clipboard, with a notification of what was done.

use crate::helpers::Notification;
use crate::text::{is_blank, is_blank_text, trim, trim_text, views};
use vstd::prelude::*;
use vstd::string::StringExecFns;

verus! {

/// Milliseconds to wait before typing, so that the key that stopped the
/// recording is up again.
pub const TYPING_DELAY_MS: u64 = 30;

/// What to do with a transcribed text.
#[derive(Clone, Debug, PartialEq, Eq)]
pub enum OutputPlan {
    /// The text is blank: only tell the user that no speech was detected.
    NoSpeech { notice: Notification },
    /// Copy the text to the clipboard, then show the notice.
    Clipboard { text: String, notice: Notification },
    /// Wait, type the text at the cursor, then show the notice.
    Type { delay_ms: u64, text: String, notice: Notification },
}

/// A command to run: the program, its arguments, and what to feed it on its
/// standard input.
#[derive(Clone, Debug, PartialEq, Eq)]
pub struct Command {
    pub program: String,
    pub args: Vec<String>,
    pub input: Option<String>,
}

/// Two ways to do one thing: the command for Wayland, and the command for
/// X11 to fall back on.
#[derive(Clone, Debug, PartialEq, Eq)]
pub struct Fallback {
    pub primary: Command,
    pub secondary: Command,
}

/// How a command went.
#[derive(Clone, Copy, Debug, PartialEq, Eq, Structural)]
pub enum Attempt {
    /// It ran and reported success.
    Succeeded,
    /// It ran and reported failure.
    Failed,
    /// It could not be run at all.
    NotRun,
}

/// What follows an attempt at one of the two commands.
#[derive(Clone, Copy, Debug, PartialEq, Eq, Structural)]
pub enum Sequel {
    /// The text was delivered.
    Delivered,
    /// Run the secondary command.
    TrySecondary,
    /// Neither command could deliver the text.
    Undelivered,
}

/// The message of a notification about the backend `backend_name`.
pub open spec fn backend_message(lead: Seq<char>, backend_name: Seq<char>) -> Seq<char> {
    lead + "\nBackend: "@ + backend_name
}

/// Whether `notice` is the notification with this title, message and
/// timeout.
pub open spec fn notice_is(notice: Notification, message: Seq<char>, timeout_ms: u32) -> bool {
    notice.title@ == "Voice Input"@ && notice.message@ == message && notice.timeout_ms
        == timeout_ms
}

/// Whether `plan` is what is done with `text`: nothing but a notice for a
/// blank text, else the trimmed text to the clipboard or to the cursor.
pub open spec fn plan_for(
    plan: OutputPlan,
    text: Seq<char>,
    use_clipboard: bool,
    backend_name: Seq<char>,
) -> bool {
    if is_blank(text) {
        plan matches OutputPlan::NoSpeech { notice } && notice_is(
            notice,
            backend_message("⚠️ No speech detected"@, backend_name),
            2000,
        )
    } else if use_clipboard {
        plan matches OutputPlan::Clipboard { text: copied, notice } && copied@ == trim(text)
            && notice_is(notice, backend_message("✅ Copied to clipboard"@, backend_name), 1000)
    } else {
        plan matches OutputPlan::Type { delay_ms, text: typed, notice } && delay_ms
            == TYPING_DELAY_MS && typed@ == trim(text) && notice_is(
            notice,
            backend_message("✅ Transcribed"@, backend_name),
            1000,
        )
    }
}

/// What follows the primary command.
pub open spec fn after_primary_spec(attempt: Attempt) -> Sequel {
    if attempt is Succeeded {
        Sequel::Delivered
    } else {
        Sequel::TrySecondary
    }
}

/// What follows the secondary command: it delivered the text if it ran at
/// all.
pub open spec fn after_secondary_spec(attempt: Attempt) -> Sequel {
    if attempt is NotRun {
        Sequel::Undelivered
    } else {
        Sequel::Delivered
    }
}

/// A notification about the backend `backend_name`.
pub fn backend_notice(lead: &str, backend_name: &str, timeout_ms: u32) -> (notice: Notification)
    ensures
        notice_is(notice, backend_message(lead@, backend_name@), timeout_ms),
{
    let mut message = String::from_str(lead);
    message.append("\nBackend: ");
    message.append(backend_name);
    Notification { title: String::from_str("Voice Input"), message, timeout_ms }
}

/// Decides what to do with a transcribed text: to the clipboard or to the
/// cursor, without the white space around it; a blank text is not delivered
/// at all.
pub fn output_text(text: &str, use_clipboard: bool, backend_name: &str) -> (plan: OutputPlan)
    ensures
        plan_for(plan, text@, use_clipboard, backend_name@),
{
    if is_blank_text(text) {
        OutputPlan::NoSpeech { notice: backend_notice("⚠️ No speech detected", backend_name, 2000) }
    } else if use_clipboard {
        OutputPlan::Clipboard {
            text: trim_text(text),
            notice: backend_notice("✅ Copied to clipboard", backend_name, 1000),
        }
    } else {
        OutputPlan::Type {
            delay_ms: TYPING_DELAY_MS,
            text: trim_text(text),
            notice: backend_notice("✅ Transcribed", backend_name, 1000),
        }
    }
}

/// Decides what to do with a transcribed text that is to be typed at the
/// cursor.
pub fn type_text(text: &str, backend_name: &str) -> (plan: OutputPlan)
    ensures
        plan_for(plan, text@, false, backend_name@),
{
    output_text(text, false, backend_name)
}

/// The commands that type `text` at the cursor: `wtype`, and `xdotool` to
/// fall back on.
pub fn type_at_cursor(text: &str) -> (commands: Fallback)
    ensures
        commands.primary.program@ == "wtype"@,
        views(commands.primary.args@) == seq![text@],
        commands.primary.input is None,
        commands.secondary.program@ == "xdotool"@,
        views(commands.secondary.args@) == seq!["type"@, "--clearmodifiers"@, "--"@, text@],
        commands.secondary.input is None,
{
    let mut first: Vec<String> = Vec::new();
    first.push(String::from_str(text));
    let mut second: Vec<String> = Vec::new();
    second.push(String::from_str("type"));
    second.push(String::from_str("--clearmodifiers"));
    second.push(String::from_str("--"));
    second.push(String::from_str(text));
    assert(views(first@) =~= seq![text@]);
    assert(views(second@) =~= seq!["type"@, "--clearmodifiers"@, "--"@, text@]);
    Fallback {
        primary: Command { program: String::from_str("wtype"), args: first, input: None },
        secondary: Command { program: String::from_str("xdotool"), args: second, input: None },
    }
}

/// The commands that copy `text` to the clipboard: `wl-copy`, and `xclip` to
/// fall back on. Both read the text from their standard input.
pub fn copy_to_clipboard(text: &str) -> (commands: Fallback)
    ensures
        commands.primary.program@ == "wl-copy"@,
        commands.primary.args@.len() == 0,
        commands.primary.input matches Some(fed) && fed@ == text@,
        commands.secondary.program@ == "xclip"@,
        views(commands.secondary.args@) == seq!["-selection"@, "clipboard"@],
        commands.secondary.input matches Some(fed) && fed@ == text@,
{
    let mut second: Vec<String> = Vec::new();
    second.push(String::from_str("-selection"));
    second.push(String::from_str("clipboard"));
    assert(views(second@) =~= seq!["-selection"@, "clipboard"@]);
    Fallback {
        primary: Command {
            program: String::from_str("wl-copy"),
            args: Vec::new(),
            input: Some(String::from_str(text)),
        },
        secondary: Command {
            program: String::from_str("xclip"),
            args: second,
            input: Some(String::from_str(text)),
        },
    }
}

/// What follows the primary command: done if it succeeded, else the
/// secondary command.
pub fn after_primary(attempt: Attempt) -> (sequel: Sequel)
    ensures
        sequel == after_primary_spec(attempt),
{
    match attempt {
        Attempt::Succeeded => Sequel::Delivered,
        _ => Sequel::TrySecondary,
    }
}

/// What follows the secondary command: done if it ran at all, else the text
/// could not be delivered.
pub fn after_secondary(attempt: Attempt) -> (sequel: Sequel)
    ensures
        sequel == after_secondary_spec(attempt),
{
    match attempt {
        Attempt::NotRun => Sequel::Undelivered,
        _ => Sequel::Delivered,
    }
}

} // verus!
