//! The configuration and the decision taken at startup.
//!
//! The settings are a TOML document with one required key, `token`. The
//! program around this library reads the settings file and acts on the
//! decision; what is decided from the file's contents is decided here.
//!
//! A token that is missing is no failure: the process ends with success and
//! the operator fills the token in. Where there is no settings file, or the
//! file holds no key `token`, the template is written first; where the key
//! is there with an empty value, the file is left as it is. Only settings
//! that cannot be read as such, a text that is no TOML or a token that is
//! no text, are refused.

use vstd::prelude::*;
use vstd::string::*;
use crate::document::{entry, read_toml, toml_parse, toml_view, TomlView};
use crate::text::optional_text;

verus! {

/// Reads `exitcode::OK`, the code of a successful exit, which is 0. This is
/// stated, not proved.
#[verifier::external_body]
fn success_code() -> (code: i32)
    ensures
        code == 0,
{
    exitcode::OK
}

/// The configuration of the bot. It is read once, at startup.
#[derive(Debug, Clone, PartialEq, Eq)]
pub struct Config {
    /// The access credential of the chat platform.
    pub token: String,
}

/// Why settings that are there cannot be used.
#[derive(Debug, Clone, Copy, PartialEq, Eq)]
pub enum ConfigError {
    /// The settings are no TOML document.
    Syntax,
    /// The value under `token` is no text.
    TokenNotText,
}

/// What the program is to do at startup.
#[derive(Debug, Clone, PartialEq, Eq)]
pub enum Startup {
    /// There are no settings, or they hold no key `token`: write the
    /// template for the operator to fill in, and exit with success.
    WriteTemplate,
    /// The key `token` is there and its value is empty: exit with success,
    /// for the operator to fill it in.
    Incomplete,
    /// The settings cannot be read as such.
    Invalid(ConfigError),
    /// Start the chat loop with this configuration.
    Run(Config),
}

/// What a [`Startup`] holds.
pub ghost enum StartupView {
    WriteTemplate,
    Incomplete,
    Invalid(ConfigError),
    Run(Seq<char>),
}

impl View for Startup {
    type V = StartupView;

    open spec fn view(&self) -> StartupView {
        match self {
            Startup::WriteTemplate => StartupView::WriteTemplate,
            Startup::Incomplete => StartupView::Incomplete,
            Startup::Invalid(error) => StartupView::Invalid(*error),
            Startup::Run(config) => StartupView::Run(config.token@),
        }
    }
}

/// The template that is written where there are no settings: the key
/// `token` with an empty value.
pub const TEMPLATE: &'static str = "\"token\" = \"\"\n";

/// The key of the access credential.
pub const TOKEN_KEY: &'static str = "token";

/// The template that is written where there are no settings.
pub fn config_template() -> (template: &'static str)
    ensures
        template@ == TEMPLATE@,
{
    TEMPLATE
}

/// The decision for a TOML document that was read. Without the key `token`
/// the template is written; with an empty token the startup stops as well;
/// with a token that is not empty the chat loop starts.
pub open spec fn startup_for_document(document: TomlView) -> StartupView {
    match document.entry(TOKEN_KEY@) {
        None => StartupView::WriteTemplate,
        Some(value) => match value.text() {
            None => StartupView::Invalid(ConfigError::TokenNotText),
            Some(token) => if token.len() == 0 {
                StartupView::Incomplete
            } else {
                StartupView::Run(token)
            },
        },
    }
}

/// The decision for settings that are there.
pub open spec fn startup_for_settings(settings: Seq<char>) -> StartupView {
    match toml_parse(settings) {
        None => StartupView::Invalid(ConfigError::Syntax),
        Some(document) => startup_for_document(document),
    }
}

/// The decision at startup, from the contents of the settings file, or
/// `None` where there is no such file.
pub open spec fn startup_for(settings: Option<Seq<char>>) -> StartupView {
    match settings {
        None => StartupView::WriteTemplate,
        Some(text) => startup_for_settings(text),
    }
}

/// Decides from a TOML document that was read: the token is looked up, and
/// a missing or an empty one ends the startup with success.
pub fn startup_from_document(document: &toml::Value) -> (startup: Startup)
    ensures
        startup@ == startup_for_document(toml_view(*document)),
{
    match entry(document, TOKEN_KEY) {
        None => Startup::WriteTemplate,
        Some(value) => match value.as_str() {
            None => Startup::Invalid(ConfigError::TokenNotText),
            Some(token) => {
                if token.is_empty() {
                    Startup::Incomplete
                } else {
                    Startup::Run(Config { token: token.to_owned() })
                }
            },
        },
    }
}

/// Decides what to do at startup, from the contents of the settings file,
/// or `None` where there is no such file.
pub fn check_config(settings: Option<&str>) -> (startup: Startup)
    ensures
        startup@ == startup_for(optional_text(settings)),
{
    match settings {
        None => Startup::WriteTemplate,
        Some(text) => match read_toml(text) {
            Err(_) => Startup::Invalid(ConfigError::Syntax),
            Ok(document) => startup_from_document(&document),
        },
    }
}

/// The exit code of a startup that ends the process in good order: success
/// for the two decisions that wait for the operator, none for the others.
pub open spec fn exit_code_for(startup: StartupView) -> Option<i32> {
    match startup {
        StartupView::WriteTemplate => Some(0i32),
        StartupView::Incomplete => Some(0i32),
        StartupView::Invalid(_) => None,
        StartupView::Run(_) => None,
    }
}

impl Startup {
    /// The code with which the process is to exit, where the startup ends it
    /// in good order.
    pub fn exit_code(&self) -> (code: Option<i32>)
        ensures
            code == exit_code_for(self@),
    {
        match self {
            Startup::WriteTemplate => Some(success_code()),
            Startup::Incomplete => Some(success_code()),
            Startup::Invalid(_) => None,
            Startup::Run(_) => None,
        }
    }
}

} // verus!
