//! The settings record, its first-run defaults, and what loading and saving
//! return for each thing that can happen to the stored file.

use crate::shortcut_map::ShortcutMap;
use vstd::prelude::*;
use vstd::string::*;

verus! {

/// The persisted configuration of one user profile.
#[derive(Clone, Debug)]
pub struct Settings {
    pub api_key: String,
    pub selected_model: String,
    pub dark_mode: bool,
    pub auto_start: bool,
    pub system_prompt: String,
    pub model_shortcuts: ShortcutMap,
    pub send_on_enter: bool,
}

/// A settings record as plain values.
pub struct SettingsView {
    pub api_key: Seq<char>,
    pub selected_model: Seq<char>,
    pub dark_mode: bool,
    pub auto_start: bool,
    pub system_prompt: Seq<char>,
    pub model_shortcuts: Map<Seq<char>, Seq<char>>,
    pub send_on_enter: bool,
}

impl View for Settings {
    type V = SettingsView;

    open spec fn view(&self) -> SettingsView {
        SettingsView {
            api_key: self.api_key@,
            selected_model: self.selected_model@,
            dark_mode: self.dark_mode,
            auto_start: self.auto_start,
            system_prompt: self.system_prompt@,
            model_shortcuts: self.model_shortcuts@,
            send_on_enter: self.send_on_enter,
        }
    }
}

/// The record of a first run, when nothing has been stored yet.
pub open spec fn first_run_settings() -> SettingsView {
    SettingsView {
        api_key: Seq::<char>::empty(),
        selected_model: "openai/gpt-oss-120b"@,
        dark_mode: true,
        auto_start: false,
        system_prompt: "Keep your responses as concise, precise, to the point.\nAnswer the question in as few words as possible.\nNo Yapping."@,
        model_shortcuts: Map::<Seq<char>, Seq<char>>::empty().insert(
            "h"@,
            "google/gemini-3-pro-preview"@,
        ).insert("f"@, "google/gemini-3-flash-preview"@).insert("o"@, "openai/gpt-oss-120b"@),
        send_on_enter: false,
    }
}

impl Settings {
    /// The invariant of the record: its shortcut map binds no key twice.
    pub open spec fn well_formed(&self) -> bool {
        self.model_shortcuts.well_formed()
    }

    /// The record of a first run.
    pub fn first_run() -> (r: Settings)
        ensures
            r.well_formed(),
            r@ == first_run_settings(),
    {
        let mut shortcuts = ShortcutMap::new();
        shortcuts.insert(String::from_str("h"), String::from_str("google/gemini-3-pro-preview"));
        shortcuts.insert(String::from_str("f"), String::from_str("google/gemini-3-flash-preview"));
        shortcuts.insert(String::from_str("o"), String::from_str("openai/gpt-oss-120b"));
        Settings {
            api_key: String::new(),
            selected_model: String::from_str("openai/gpt-oss-120b"),
            dark_mode: true,
            auto_start: false,
            system_prompt: String::from_str(
                "Keep your responses as concise, precise, to the point.\nAnswer the question in as few words as possible.\nNo Yapping.",
            ),
            model_shortcuts: shortcuts,
            send_on_enter: false,
        }
    }
}

impl Default for Settings {
    /// The empty record: no text, every switch off, no shortcut.
    fn default() -> (r: Settings)
        ensures
            r.well_formed(),
            r@ == (SettingsView {
                api_key: Seq::<char>::empty(),
                selected_model: Seq::<char>::empty(),
                dark_mode: false,
                auto_start: false,
                system_prompt: Seq::<char>::empty(),
                model_shortcuts: Map::<Seq<char>, Seq<char>>::empty(),
                send_on_enter: false,
            }),
    {
        Settings {
            api_key: String::new(),
            selected_model: String::new(),
            dark_mode: false,
            auto_start: false,
            system_prompt: String::new(),
            model_shortcuts: ShortcutMap::new(),
            send_on_enter: false,
        }
    }
}

/// Why a settings command failed. Each variant but the first carries the
/// text that the failing operation gave.
#[derive(Clone, Debug)]
pub enum SettingsError {
    /// The platform names no per-user configuration directory.
    NoConfigDirectory,
    CreateDirectory(String),
    ReadFile(String),
    Parse(String),
    Serialize(String),
    WriteFile(String),
    AutostartQuery(String),
    AutostartEnable(String),
    AutostartDisable(String),
}

impl SettingsError {
    /// The text that the caller of a failed command is shown.
    pub open spec fn text(&self) -> Seq<char> {
        match self {
            SettingsError::NoConfigDirectory => "Could not find config directory"@,
            SettingsError::CreateDirectory(e) => "Failed to create config directory: "@ + e@,
            SettingsError::ReadFile(e) => "Failed to read config file: "@ + e@,
            SettingsError::Parse(e) => "Failed to parse config file: "@ + e@,
            SettingsError::Serialize(e) => "Failed to serialize settings: "@ + e@,
            SettingsError::WriteFile(e) => "Failed to write config file: "@ + e@,
            SettingsError::AutostartQuery(e) => "Failed to read launch at startup state: "@ + e@,
            SettingsError::AutostartEnable(e) => "Failed to enable launch at startup: "@ + e@,
            SettingsError::AutostartDisable(e) => "Failed to disable launch at startup: "@ + e@,
        }
    }

    /// The text that the caller of a failed command is shown.
    pub fn message(&self) -> (r: String)
        ensures
            r@ == self.text(),
    {
        match self {
            SettingsError::NoConfigDirectory => String::from_str("Could not find config directory"),
            SettingsError::CreateDirectory(e) => described("Failed to create config directory: ", e),
            SettingsError::ReadFile(e) => described("Failed to read config file: ", e),
            SettingsError::Parse(e) => described("Failed to parse config file: ", e),
            SettingsError::Serialize(e) => described("Failed to serialize settings: ", e),
            SettingsError::WriteFile(e) => described("Failed to write config file: ", e),
            SettingsError::AutostartQuery(e) => described(
                "Failed to read launch at startup state: ",
                e,
            ),
            SettingsError::AutostartEnable(e) => described("Failed to enable launch at startup: ", e),
            SettingsError::AutostartDisable(e) => described(
                "Failed to disable launch at startup: ",
                e,
            ),
        }
    }
}

fn described(what: &str, detail: &String) -> (r: String)
    ensures
        r@ == what@ + detail@,
{
    let mut text = String::from_str(what);
    text.append(detail.as_str());
    text
}

/// What was found where the settings are stored.
#[derive(Debug)]
pub enum StoredSettings {
    /// The platform names no per-user configuration directory.
    NoConfigDirectory,
    /// There is no file: nothing has been saved yet.
    Absent,
    /// The file is there and could not be read, for the reason given.
    Unreadable(String),
    /// The file was read and does not hold a settings record, for the
    /// reason given.
    Malformed(String),
    /// The file holds this record.
    Parsed(Settings),
}

/// What loading returns for each thing that can be found.
pub open spec fn load_result(stored: StoredSettings) -> Result<SettingsView, SettingsError> {
    match stored {
        StoredSettings::NoConfigDirectory => Err(SettingsError::NoConfigDirectory),
        StoredSettings::Absent => Ok(first_run_settings()),
        StoredSettings::Unreadable(e) => Err(SettingsError::ReadFile(e)),
        StoredSettings::Malformed(e) => Err(SettingsError::Parse(e)),
        StoredSettings::Parsed(s) => Ok(s@),
    }
}

/// Loads the settings from what was found in storage. A missing file is no
/// error: it gives the record of a first run. A stored record is returned
/// as it is, field for field.
pub fn load_settings(stored: StoredSettings) -> (r: Result<Settings, SettingsError>)
    ensures
        match r {
            Ok(s) => load_result(stored) == Ok::<SettingsView, SettingsError>(s@),
            Err(e) => load_result(stored) == Err::<SettingsView, SettingsError>(e),
        },
        stored matches StoredSettings::Parsed(s) ==> r == Ok::<Settings, SettingsError>(s),
        stored is Absent ==> r is Ok && r->Ok_0.well_formed(),
{
    match stored {
        StoredSettings::NoConfigDirectory => Err(SettingsError::NoConfigDirectory),
        StoredSettings::Absent => Ok(Settings::first_run()),
        StoredSettings::Unreadable(e) => Err(SettingsError::ReadFile(e)),
        StoredSettings::Malformed(e) => Err(SettingsError::Parse(e)),
        StoredSettings::Parsed(s) => Ok(s),
    }
}

/// A record that storage holds is loaded as it is, field for field; and
/// where storage holds none, the record of a first run is loaded.
pub proof fn lemma_load_returns_what_is_stored(s: Settings)
    ensures
        load_result(StoredSettings::Parsed(s)) == Ok::<SettingsView, SettingsError>(s@),
        load_result(StoredSettings::Absent) == Ok::<SettingsView, SettingsError>(
            first_run_settings(),
        ),
{
}

/// A step of saving that works on the stored file.
#[derive(Clone, Copy, Debug, PartialEq, Eq, Structural)]
pub enum FileStep {
    /// Create the configuration directory, if it is not there yet.
    EnsureDirectory,
    /// Turn the record into its stored text.
    Serialize,
    /// Write the text to the file.
    WriteFile,
}

/// One step of saving the settings.
#[derive(Clone, Copy, Debug, PartialEq, Eq, Structural)]
pub enum SaveStep {
    File(FileStep),
    /// Bring the login-launch registration to the state given, which is
    /// the one that the record asks for.
    SyncAutostart(bool),
}

/// The steps of saving, in order. The registration is synchronised last,
/// with the record's own wish.
pub open spec fn save_order(auto_start: bool) -> Seq<SaveStep> {
    seq![
        SaveStep::File(FileStep::EnsureDirectory),
        SaveStep::File(FileStep::Serialize),
        SaveStep::File(FileStep::WriteFile),
        SaveStep::SyncAutostart(auto_start),
    ]
}

/// The steps to take to save `settings`, in order. The first step that
/// fails ends the save with its error.
pub fn save_settings(settings: &Settings) -> (r: Vec<SaveStep>)
    ensures
        r@ == save_order(settings.auto_start),
{
    let mut r: Vec<SaveStep> = Vec::new();
    r.push(SaveStep::File(FileStep::EnsureDirectory));
    r.push(SaveStep::File(FileStep::Serialize));
    r.push(SaveStep::File(FileStep::WriteFile));
    r.push(SaveStep::SyncAutostart(settings.auto_start));
    proof {
        assert(r@ =~= save_order(settings.auto_start));
    }
    r
}

impl FileStep {
    /// The error of a save that failed at this step, for the reason given.
    pub fn failure(self, detail: String) -> (r: SettingsError)
        ensures
            r == match self {
                FileStep::EnsureDirectory => SettingsError::CreateDirectory(detail),
                FileStep::Serialize => SettingsError::Serialize(detail),
                FileStep::WriteFile => SettingsError::WriteFile(detail),
            },
    {
        match self {
            FileStep::EnsureDirectory => SettingsError::CreateDirectory(detail),
            FileStep::Serialize => SettingsError::Serialize(detail),
            FileStep::WriteFile => SettingsError::WriteFile(detail),
        }
    }
}

/// The directory of this application below the per-user configuration
/// directory.
pub fn config_dir_name() -> (r: &'static str)
    ensures
        r@ == "ai-quick-access"@,
{
    "ai-quick-access"
}

/// The name of the settings file in that directory.
pub fn config_file_name() -> (r: &'static str)
    ensures
        r@ == "configs.json"@,
{
    "configs.json"
}

} // verus!
