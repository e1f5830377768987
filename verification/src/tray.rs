//! The status indicator: what the tray icon shows for the state of the
//! recording and the settings in use.

use crate::helpers::{to_uppercase, uppercase};
use vstd::prelude::*;
use vstd::string::StringExecFns;

verus! {

/// Milliseconds between two looks at the state of the recording.
pub const POLL_INTERVAL_MS: u64 = 200;

/// What the tray shows.
#[derive(Clone, Debug, PartialEq, Eq)]
pub struct TrayStatus {
    pub recording: bool,
    pub backend: String,
    pub model: String,
    pub acceleration: String,
}

/// The tray icon.
#[derive(Clone, Debug, PartialEq, Eq)]
pub struct VoiceInputTray {
    pub status: TrayStatus,
}

/// An entry of the tray's menu.
#[derive(Clone, Debug, PartialEq, Eq)]
pub enum MenuEntry {
    /// A line of information that cannot be chosen.
    Info(String),
    /// A line that parts two groups of entries.
    Separator,
    /// The entry that ends the indicator.
    Quit(String),
}

/// A menu entry, with its label as a sequence of characters.
pub enum MenuEntryView {
    Info(Seq<char>),
    Separator,
    Quit(Seq<char>),
}

impl View for MenuEntry {
    type V = MenuEntryView;

    open spec fn view(&self) -> MenuEntryView {
        match *self {
            MenuEntry::Info(label) => MenuEntryView::Info(label@),
            MenuEntry::Separator => MenuEntryView::Separator,
            MenuEntry::Quit(label) => MenuEntryView::Quit(label@),
        }
    }
}

/// The name under which a backend is shown.
pub open spec fn backend_display(backend: Seq<char>) -> Seq<char> {
    if backend == "faster-whisper"@ {
        "Faster Whisper"@
    } else if backend == "whisper-cpp"@ {
        "Whisper.cpp"@
    } else {
        backend
    }
}

/// The name of the icon: a live microphone while recording, a muted one
/// otherwise.
pub open spec fn icon_for(recording: bool) -> Seq<char> {
    if recording {
        "microphone-sensitivity-high-symbolic"@
    } else {
        "microphone-sensitivity-muted-symbolic"@
    }
}

/// The three lines that tell of the settings in use, given the name under
/// which the backend is shown and the acceleration in upper case.
pub open spec fn settings_text(display: Seq<char>, model: Seq<char>, raised: Seq<char>) -> Seq<
    char,
> {
    "Backend: "@ + display + "\nModel: "@ + model + "\nAcceleration: "@ + raised
}

/// The text that is shown when the pointer rests on the icon, above the
/// lines of settings.
pub open spec fn tooltip_text(recording: bool, settings: Seq<char>) -> Seq<char> {
    if recording {
        "Voice Input - 🎙️ Recording...\n\n"@ + settings
    } else {
        "Voice Input - Ready\n\n"@ + settings
    }
}

/// The entries of the menu, from top to bottom, given the name under which
/// the backend is shown and the acceleration in upper case.
pub open spec fn menu_entries(
    recording: bool,
    display: Seq<char>,
    model: Seq<char>,
    raised: Seq<char>,
) -> Seq<MenuEntryView> {
    seq![
        MenuEntryView::Info(
            if recording {
                "🎙️ Recording in progress"@
            } else {
                "⏸️ Not recording"@
            },
        ),
        MenuEntryView::Separator,
        MenuEntryView::Info("Backend: "@ + display),
        MenuEntryView::Info("Model: "@ + model),
        MenuEntryView::Info("Acceleration: "@ + raised),
        MenuEntryView::Separator,
        MenuEntryView::Quit("Quit Indicator"@),
    ]
}

/// The text that is shown for `status` when the pointer rests on the icon.
pub open spec fn tooltip_for(status: TrayStatus) -> Seq<char> {
    tooltip_text(
        status.recording,
        settings_text(
            backend_display(status.backend@),
            status.model@,
            uppercase(status.acceleration@),
        ),
    )
}

/// The entries of the menu for `status`, from top to bottom.
pub open spec fn menu_for(status: TrayStatus) -> Seq<MenuEntryView> {
    menu_entries(
        status.recording,
        backend_display(status.backend@),
        status.model@,
        uppercase(status.acceleration@),
    )
}

/// The views of the entries of a menu.
pub open spec fn entry_views(entries: Seq<MenuEntry>) -> Seq<MenuEntryView> {
    Seq::new(entries.len(), |i: int| entries[i]@)
}

/// Writes the three lines that tell of the settings in use, given the name
/// under which the backend is shown and the acceleration in upper case.
pub fn compose_settings(display: &str, model: &str, raised: &str) -> (lines: String)
    ensures
        lines@ == settings_text(display@, model@, raised@),
{
    let mut lines = String::from_str("Backend: ");
    lines.append(display);
    lines.append("\nModel: ");
    lines.append(model);
    lines.append("\nAcceleration: ");
    lines.append(raised);
    lines
}

/// Writes the text to show when the pointer rests on the icon, above the
/// lines of settings.
pub fn compose_tooltip(recording: bool, settings: &str) -> (tip: String)
    ensures
        tip@ == tooltip_text(recording, settings@),
{
    let mut tip = if recording {
        String::from_str("Voice Input - 🎙️ Recording...\n\n")
    } else {
        String::from_str("Voice Input - Ready\n\n")
    };
    tip.append(settings);
    tip
}

/// Lists the entries of the menu, from top to bottom, given the name under
/// which the backend is shown and the acceleration in upper case.
pub fn compose_menu(recording: bool, display: &str, model: &str, raised: &str) -> (entries: Vec<
    MenuEntry,
>)
    ensures
        entry_views(entries@) == menu_entries(recording, display@, model@, raised@),
{
    let mut entries: Vec<MenuEntry> = Vec::new();
    entries.push(
        MenuEntry::Info(
            if recording {
                String::from_str("🎙️ Recording in progress")
            } else {
                String::from_str("⏸️ Not recording")
            },
        ),
    );
    entries.push(MenuEntry::Separator);
    let mut backend = String::from_str("Backend: ");
    backend.append(display);
    entries.push(MenuEntry::Info(backend));
    let mut named = String::from_str("Model: ");
    named.append(model);
    entries.push(MenuEntry::Info(named));
    let mut acceleration = String::from_str("Acceleration: ");
    acceleration.append(raised);
    entries.push(MenuEntry::Info(acceleration));
    entries.push(MenuEntry::Separator);
    entries.push(MenuEntry::Quit(String::from_str("Quit Indicator")));
    assert(entry_views(entries@) =~= menu_entries(recording, display@, model@, raised@));
    entries
}

impl TrayStatus {
    /// The status of an indicator that has not yet seen a recording.
    pub fn new(backend: String, model: String, acceleration: String) -> (status: TrayStatus)
        ensures
            !status.recording,
            status.backend == backend,
            status.model == model,
            status.acceleration == acceleration,
    {
        TrayStatus { recording: false, backend, model, acceleration }
    }
}

impl VoiceInputTray {
    /// A tray icon that shows `status`.
    pub fn new(status: TrayStatus) -> (tray: VoiceInputTray)
        ensures
            tray.status == status,
    {
        VoiceInputTray { status }
    }

    /// The name of the icon to show.
    pub fn get_icon_name(&self) -> (name: String)
        ensures
            name@ == icon_for(self.status.recording),
    {
        if self.status.recording {
            String::from_str("microphone-sensitivity-high-symbolic")
        } else {
            String::from_str("microphone-sensitivity-muted-symbolic")
        }
    }

    /// The name under which the backend is shown.
    pub fn get_backend_display(&self) -> (name: String)
        ensures
            name@ == backend_display(self.status.backend@),
    {
        if self.status.backend == String::from_str("faster-whisper") {
            String::from_str("Faster Whisper")
        } else if self.status.backend == String::from_str("whisper-cpp") {
            String::from_str("Whisper.cpp")
        } else {
            self.status.backend.clone()
        }
    }

    /// The text to show when the pointer rests on the icon.
    pub fn get_tooltip(&self) -> (tip: String)
        ensures
            tip@ == tooltip_for(self.status),
    {
        let display = self.get_backend_display();
        let raised = to_uppercase(self.status.acceleration.as_str());
        let settings = compose_settings(
            display.as_str(),
            self.status.model.as_str(),
            raised.as_str(),
        );
        compose_tooltip(self.status.recording, settings.as_str())
    }

    /// The name by which the desktop knows the indicator.
    pub fn id(&self) -> (id: String)
        ensures
            id@ == "whisp-away-indicator"@,
    {
        String::from_str("whisp-away-indicator")
    }

    /// The indicator's title.
    pub fn title(&self) -> (title: String)
        ensures
            title@ == "Voice Input"@,
    {
        String::from_str("Voice Input")
    }

    /// The name of the icon to show.
    pub fn icon_name(&self) -> (name: String)
        ensures
            name@ == icon_for(self.status.recording),
    {
        self.get_icon_name()
    }

    /// The title of the tooltip.
    pub fn tool_tip(&self) -> (tip: String)
        ensures
            tip@ == tooltip_for(self.status),
    {
        self.get_tooltip()
    }

    /// The entries of the menu, from top to bottom: the state of the
    /// recording, the settings in use, and the way out.
    pub fn menu(&self) -> (entries: Vec<MenuEntry>)
        ensures
            entry_views(entries@) == menu_for(self.status),
    {
        let display = self.get_backend_display();
        let raised = to_uppercase(self.status.acceleration.as_str());
        compose_menu(
            self.status.recording,
            display.as_str(),
            self.status.model.as_str(),
            raised.as_str(),
        )
    }

    /// Takes in what a look at the recording showed. The indicator changes
    /// only when the state of the recording has changed; it then takes the
    /// settings in use as well. Tells whether it changed.
    pub fn observe(
        &mut self,
        recording: bool,
        backend: String,
        model: String,
        acceleration: String,
    ) -> (changed: bool)
        ensures
            changed == (recording != old(self).status.recording),
            changed ==> final(self).status == (TrayStatus { recording, backend, model, acceleration }),
            !changed ==> *final(self) == *old(self),
    {
        if recording != self.status.recording {
            self.status = TrayStatus { recording, backend, model, acceleration };
            true
        } else {
            false
        }
    }
}

} // verus!
