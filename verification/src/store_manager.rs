//! The persisted settings: their shape, their defaults, and the rules by
//! which the application shell initialises and interprets them.

use vstd::prelude::*;
use vstd::string::StringExecFns;

verus! {

/// One project entry.
#[derive(Clone, Debug, PartialEq, Eq)]
pub struct ProjectConfig {
    /// Name of the project.
    pub name: String,
    /// Where the project is saved.
    pub filepath: String,
    /// Free remarks.
    pub remarks: String,
}

/// Settings of the main window that are applied once at start.
#[derive(Clone, Debug, PartialEq, Eq)]
pub struct WindowConfig {
    pub title: String,
    pub min_width: u32,
    pub min_height: u32,
    pub max_width: u32,
    pub max_height: u32,
}

/// How the main panel is divided, in percent.
#[derive(Clone, Debug, PartialEq, Eq)]
pub struct MainPanelLayout {
    pub horizontal: [u32; 3],
    pub vertical: [u32; 2],
}

/// The window as it was when it was last closed.
#[derive(Clone, Debug, PartialEq, Eq)]
pub struct WindowState {
    pub width: u32,
    pub height: u32,
    pub x: i32,
    pub y: i32,
    pub fullscreen: bool,
    /// `"Light"`, `"Dark"` or `"auto"`; any other text leaves the choice to
    /// the system.
    pub theme: String,
    pub main_panel_layout: MainPanelLayout,
}

/// All persisted settings.
#[derive(Clone, Debug, PartialEq, Eq)]
pub struct Config {
    pub projects: ProjectConfig,
    pub window_state: WindowState,
    pub window_config: WindowConfig,
}

/// Whether `p` is the project entry of a fresh installation: all empty.
pub open spec fn is_default_project(p: ProjectConfig) -> bool {
    &&& p.name@ == Seq::<char>::empty()
    &&& p.filepath@ == Seq::<char>::empty()
    &&& p.remarks@ == Seq::<char>::empty()
}

/// Whether `s` is the window state of a fresh installation.
pub open spec fn is_default_window_state(s: WindowState) -> bool {
    &&& s.width == 1200
    &&& s.height == 800
    &&& s.x == 100
    &&& s.y == 100
    &&& !s.fullscreen
    &&& s.theme@ == "auto"@
    &&& s.main_panel_layout.horizontal@ == seq![15u32, 70u32, 15u32]
    &&& s.main_panel_layout.vertical@ == seq![85u32, 15u32]
}

/// Whether `w` is the window configuration of a fresh installation.
pub open spec fn is_default_window_config(w: WindowConfig) -> bool {
    &&& w.title@ == "D4CleaningStudio 2025"@
    &&& w.min_width == 1024
    &&& w.min_height == 768
    &&& w.max_width == 7680
    &&& w.max_height == 4320
}

/// Whether `c` holds the settings of a fresh installation.
pub open spec fn is_default_config(c: Config) -> bool {
    &&& is_default_project(c.projects)
    &&& is_default_window_state(c.window_state)
    &&& is_default_window_config(c.window_config)
}

impl Default for ProjectConfig {
    fn default() -> (p: ProjectConfig)
        ensures
            is_default_project(p),
    {
        ProjectConfig { name: String::new(), filepath: String::new(), remarks: String::new() }
    }
}

impl Default for Config {
    fn default() -> (c: Config)
        ensures
            is_default_config(c),
    {
        let horizontal: [u32; 3] = [15, 70, 15];
        let vertical: [u32; 2] = [85, 15];
        assert(horizontal@ =~= seq![15u32, 70u32, 15u32]);
        assert(vertical@ =~= seq![85u32, 15u32]);
        Config {
            projects: ProjectConfig::default(),
            window_state: WindowState {
                width: 1200,
                height: 800,
                x: 100,
                y: 100,
                fullscreen: false,
                theme: "auto".to_owned(),
                main_panel_layout: MainPanelLayout { horizontal, vertical },
            },
            window_config: WindowConfig {
                title: "D4CleaningStudio 2025".to_owned(),
                min_width: 1024,
                min_height: 768,
                max_width: 7680,
                max_height: 4320,
            },
        }
    }
}

/// The keys under which the settings are kept.
#[derive(Clone, Copy, Debug, PartialEq, Eq, Structural)]
pub enum StoreKey {
    ProjectConfig,
    WindowConfig,
    WindowState,
}

/// The name of `key` in the store.
pub open spec fn key_name(key: StoreKey) -> Seq<char> {
    match key {
        StoreKey::ProjectConfig => "project_config"@,
        StoreKey::WindowConfig => "window_config"@,
        StoreKey::WindowState => "window_state"@,
    }
}

/// The keys that initialising writes, given which keys the store has: each
/// absent key, in the order project entry, window configuration, window
/// state.
pub open spec fn keys_to_write(
    has_project_config: bool,
    has_window_config: bool,
    has_window_state: bool,
) -> Seq<StoreKey> {
    (if has_project_config {
        Seq::<StoreKey>::empty()
    } else {
        seq![StoreKey::ProjectConfig]
    }) + (if has_window_config {
        Seq::<StoreKey>::empty()
    } else {
        seq![StoreKey::WindowConfig]
    }) + (if has_window_state {
        Seq::<StoreKey>::empty()
    } else {
        seq![StoreKey::WindowState]
    })
}

impl StoreKey {
    /// The name of the key in the store.
    pub fn name(&self) -> (name: &'static str)
        ensures
            name@ == key_name(*self),
    {
        match self {
            StoreKey::ProjectConfig => "project_config",
            StoreKey::WindowConfig => "window_config",
            StoreKey::WindowState => "window_state",
        }
    }

    /// The text of the error that loading reports when the store lacks this
    /// key.
    pub fn missing_message(&self) -> (text: String)
        ensures
            text@ == key_name(*self) + " が存在しません"@,
    {
        let mut text = self.name().to_owned();
        text.append(" が存在しません");
        text
    }
}

/// The name of the settings file inside the configuration directory.
pub fn config_file_name() -> (name: &'static str)
    ensures
        name@ == "D4CleaningStudio.config"@,
{
    "D4CleaningStudio.config"
}

/// Decides what initialising the store writes: the default of every key
/// that the store lacks, and nothing for a key that it has. The caller
/// writes the defaults of the returned keys in order, then saves.
pub fn initialize_store(
    has_project_config: bool,
    has_window_config: bool,
    has_window_state: bool,
) -> (writes: Vec<StoreKey>)
    ensures
        writes@ == keys_to_write(has_project_config, has_window_config, has_window_state),
        writes@.contains(StoreKey::ProjectConfig) <==> !has_project_config,
        writes@.contains(StoreKey::WindowConfig) <==> !has_window_config,
        writes@.contains(StoreKey::WindowState) <==> !has_window_state,
{
    let mut writes: Vec<StoreKey> = Vec::new();
    if !has_project_config {
        writes.push(StoreKey::ProjectConfig);
    }
    if !has_window_config {
        writes.push(StoreKey::WindowConfig);
    }
    if !has_window_state {
        writes.push(StoreKey::WindowState);
    }
    proof {
        let expected = keys_to_write(has_project_config, has_window_config, has_window_state);
        assert(writes@ =~= expected);
        lemma_keys_to_write(has_project_config, has_window_config, has_window_state);
    }
    writes
}

/// Initialising writes a key if and only if the store lacks it.
pub proof fn lemma_keys_to_write(
    has_project_config: bool,
    has_window_config: bool,
    has_window_state: bool,
)
    ensures
        keys_to_write(has_project_config, has_window_config, has_window_state).contains(
            StoreKey::ProjectConfig,
        ) <==> !has_project_config,
        keys_to_write(has_project_config, has_window_config, has_window_state).contains(
            StoreKey::WindowConfig,
        ) <==> !has_window_config,
        keys_to_write(has_project_config, has_window_config, has_window_state).contains(
            StoreKey::WindowState,
        ) <==> !has_window_state,
{
    let writes = keys_to_write(has_project_config, has_window_config, has_window_state);
    let first: Seq<StoreKey> = if has_project_config {
        Seq::empty()
    } else {
        seq![StoreKey::ProjectConfig]
    };
    let second: Seq<StoreKey> = if has_window_config {
        Seq::empty()
    } else {
        seq![StoreKey::WindowConfig]
    };
    let third: Seq<StoreKey> = if has_window_state {
        Seq::empty()
    } else {
        seq![StoreKey::WindowState]
    };
    assert(writes == first + second + third);
    if !has_project_config {
        assert(writes[0] == StoreKey::ProjectConfig);
    }
    if !has_window_config {
        assert(writes[first.len() as int] == StoreKey::WindowConfig);
    }
    if !has_window_state {
        assert(writes[(first.len() + second.len()) as int] == StoreKey::WindowState);
    }
}

/// A colour theme of the window.
#[derive(Clone, Copy, Debug, PartialEq, Eq, Structural)]
pub enum Theme {
    Light,
    Dark,
}

/// What the stored theme text asks for.
#[derive(Clone, Copy, Debug, PartialEq, Eq, Structural)]
pub enum ThemeChoice {
    /// Always the light theme.
    Light,
    /// Always the dark theme.
    Dark,
    /// The theme that the system is found to use.
    Detect,
    /// No theme of the application's own.
    SystemDefault,
}

/// What a look at the system's theme found.
#[derive(Clone, Copy, Debug, PartialEq, Eq, Structural)]
pub enum DetectedMode {
    Dark,
    Light,
    Unspecified,
}

/// What the theme text `text` asks for. The match is exact, letter case
/// included.
pub open spec fn theme_choice_of(text: Seq<char>) -> ThemeChoice {
    if text == "Light"@ {
        ThemeChoice::Light
    } else if text == "Dark"@ {
        ThemeChoice::Dark
    } else if text == "auto"@ {
        ThemeChoice::Detect
    } else {
        ThemeChoice::SystemDefault
    }
}

/// The theme to apply, `None` for the system's default. `detected` is the
/// result of looking at the system's theme, `None` when the look failed or
/// was not taken; it counts only where `choice` is `Detect`.
pub open spec fn resolved_theme(choice: ThemeChoice, detected: Option<DetectedMode>) -> Option<
    Theme,
> {
    match choice {
        ThemeChoice::Light => Some(Theme::Light),
        ThemeChoice::Dark => Some(Theme::Dark),
        ThemeChoice::Detect => match detected {
            Some(DetectedMode::Dark) => Some(Theme::Dark),
            Some(DetectedMode::Light) => Some(Theme::Light),
            _ => None,
        },
        ThemeChoice::SystemDefault => None,
    }
}

impl ThemeChoice {
    /// What the theme text `text` asks for.
    pub fn from_text(text: &str) -> (choice: ThemeChoice)
        ensures
            choice == theme_choice_of(text@),
    {
        let text = text.to_owned();
        if text == "Light".to_owned() {
            ThemeChoice::Light
        } else if text == "Dark".to_owned() {
            ThemeChoice::Dark
        } else if text == "auto".to_owned() {
            ThemeChoice::Detect
        } else {
            ThemeChoice::SystemDefault
        }
    }
}

impl WindowState {
    /// What the stored theme text asks for.
    pub fn theme_choice(&self) -> (choice: ThemeChoice)
        ensures
            choice == theme_choice_of(self.theme@),
    {
        ThemeChoice::from_text(self.theme.as_str())
    }
}

/// The theme to apply for `choice`, given what detection found.
pub fn resolve_theme(choice: ThemeChoice, detected: Option<DetectedMode>) -> (theme: Option<Theme>)
    ensures
        theme == resolved_theme(choice, detected),
{
    match choice {
        ThemeChoice::Light => Some(Theme::Light),
        ThemeChoice::Dark => Some(Theme::Dark),
        ThemeChoice::Detect => match detected {
            Some(DetectedMode::Dark) => Some(Theme::Dark),
            Some(DetectedMode::Light) => Some(Theme::Light),
            _ => None,
        },
        ThemeChoice::SystemDefault => None,
    }
}

} // verus!
