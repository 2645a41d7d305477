//! The configuration file: what it may set, and what loading it yields when
//! the file is missing, unreadable or malformed.

use crate::placement;
use crate::window;
use vstd::prelude::*;
use vstd::utf8::{decode_utf8, valid_utf8};

verus! {

/// Directory of the configuration file, below the user's configuration
/// directory.
pub const CONFIG_DIR_NAME: &'static str = "layer-console";

/// Name of the configuration file in that directory.
pub const CONFIG_FILE_NAME: &'static str = "config.toml";

/// The `position` key of the configuration file.
#[derive(Clone, Copy, Debug, PartialEq, Eq, Structural, Hash)]
pub enum Position {
    Top,
    Bottom,
    Left,
    Right,
}

/// The `keyboard_mode` key of the configuration file.
#[derive(Clone, Copy, Debug, PartialEq, Eq, Structural, Hash)]
pub enum KeyboardMode {
    Exclusive,
    OnDemand,
}

/// The settings of a configuration file. A key that the file does not set is
/// `None`.
#[derive(Clone, Debug, PartialEq, Eq)]
pub struct Config {
    pub shell: Option<String>,
    pub working_directory: Option<String>,
    pub rows: Option<i64>,
    pub columns: Option<i64>,
    pub font: Option<String>,
    pub position: Option<Position>,
    pub keyboard_mode: Option<KeyboardMode>,
}

impl Position {
    /// The window position of the same name.
    pub open spec fn placement(self) -> placement::Position {
        match self {
            Position::Top => placement::Position::Top,
            Position::Bottom => placement::Position::Bottom,
            Position::Left => placement::Position::Left,
            Position::Right => placement::Position::Right,
        }
    }

    /// The window position that this setting asks for.
    pub fn as_position(&self) -> (position: placement::Position)
        ensures
            position == self.placement(),
    {
        match self {
            Position::Top => placement::Position::Top,
            Position::Bottom => placement::Position::Bottom,
            Position::Left => placement::Position::Left,
            Position::Right => placement::Position::Right,
        }
    }
}

impl KeyboardMode {
    /// The keyboard mode of the surface of the same name.
    pub open spec fn mode(self) -> window::KeyboardMode {
        match self {
            KeyboardMode::Exclusive => window::KeyboardMode::Exclusive,
            KeyboardMode::OnDemand => window::KeyboardMode::OnDemand,
        }
    }

    /// The keyboard mode of the surface that this setting asks for.
    pub fn as_keyboard_mode(&self) -> (mode: window::KeyboardMode)
        ensures
            mode == self.mode(),
    {
        match self {
            KeyboardMode::Exclusive => window::KeyboardMode::Exclusive,
            KeyboardMode::OnDemand => window::KeyboardMode::OnDemand,
        }
    }
}

impl Config {
    /// The configuration that sets nothing.
    pub open spec fn empty() -> Config {
        Config {
            shell: None,
            working_directory: None,
            rows: None,
            columns: None,
            font: None,
            position: None,
            keyboard_mode: None,
        }
    }
}

impl Default for Config {
    fn default() -> (config: Config)
        ensures
            config == Config::empty(),
    {
        Config {
            shell: None,
            working_directory: None,
            rows: None,
            columns: None,
            font: None,
            position: None,
            keyboard_mode: None,
        }
    }
}

/// Why a configuration file was not used.
#[derive(Clone, Debug, PartialEq, Eq)]
pub enum Warning {
    /// The file could not be read; the text is the reason given.
    Unreadable(String),
    /// The file is not UTF-8 text; the text is the reason given.
    NotUtf8(String),
    /// The file is not a valid configuration; the text is the reason given.
    Malformed(String),
}

/// A configuration, and the warning to log if loading fell back on the
/// defaults.
#[derive(Clone, Debug, PartialEq, Eq)]
pub struct Loaded {
    pub config: Config,
    pub warning: Option<Warning>,
}

/// Where loading stands once the file was read.
#[derive(Clone, Debug, PartialEq, Eq)]
pub enum LoadStep {
    /// The file holds this text, which is to be parsed next.
    Parse(String),
    /// Loading is over.
    Finished(Loaded),
}

/// The defaults, with `warning` to log.
pub open spec fn fallback(warning: Option<Warning>) -> Loaded {
    Loaded { config: Config::empty(), warning }
}

/// Decides what becomes of the attempt to read the configuration file.
///
/// `explicit_path` says whether the user named the file; `read` is the file's
/// content, or the reason why it could not be read. A file that cannot be read
/// gives the defaults and a warning, whether the user named it or it is the
/// default file. A file that is not UTF-8 gives the defaults and a warning.
/// Otherwise the decoded text is handed back for parsing.
#[allow(unused_variables)]
pub fn load_config(explicit_path: bool, read: Result<Vec<u8>, String>) -> (step: LoadStep)
    ensures
        match read {
            Err(reason) => step == LoadStep::Finished(
                fallback(Some(Warning::Unreadable(reason))),
            ),
            Ok(bytes) => if valid_utf8(bytes@) {
                step matches LoadStep::Parse(text) && text@ == decode_utf8(bytes@)
            } else {
                step matches LoadStep::Finished(loaded) && loaded.config == Config::empty()
                    && loaded.warning matches Some(Warning::NotUtf8(_))
            },
        },
{
    match read {
        Err(reason) => LoadStep::Finished(
            Loaded { config: Config::default(), warning: Some(Warning::Unreadable(reason)) },
        ),
        Ok(bytes) => match std::str::from_utf8(bytes.as_slice()) {
            Ok(text) => LoadStep::Parse(text.to_owned()),
            Err(e) => LoadStep::Finished(
                Loaded { config: Config::default(), warning: Some(Warning::NotUtf8(e.to_string())) },
            ),
        },
    }
}

/// Ends loading with what the parser made of the text: the configuration it
/// read, or the defaults and a warning with the parser's reason.
pub fn parsed_config(parsed: Result<Config, String>) -> (loaded: Loaded)
    ensures
        loaded == match parsed {
            Ok(config) => Loaded { config, warning: None },
            Err(reason) => fallback(Some(Warning::Malformed(reason))),
        },
{
    match parsed {
        Ok(config) => Loaded { config, warning: None },
        Err(reason) => Loaded {
            config: Config::default(),
            warning: Some(Warning::Malformed(reason)),
        },
    }
}

/// The error of `std::str::from_utf8`. Nothing is known of what it holds.
#[verifier::external_type_specification]
#[verifier::external_body]
pub struct ExUtf8Error(std::str::Utf8Error);

/// Trusted: `std::str::from_utf8` gives the decoded text exactly when the
/// bytes are well-formed UTF-8, and an error otherwise.
pub assume_specification[ std::str::from_utf8 ](v: &[u8]) -> (text: Result<
    &str,
    std::str::Utf8Error,
>)
    ensures
        match text {
            Ok(s) => valid_utf8(v@) && s@ == decode_utf8(v@),
            Err(_) => !valid_utf8(v@),
        },
;

} // verus!
