//! The bot's configuration values and the error type used before the
//! logging system is up. Reading the configuration file is the caller's
//! business; this crate only holds the values.

use vstd::prelude::*;
use vstd::string::StringExecFns;

verus! {

/// Holds error information related to the process of loading the
/// configurations. This should be used to handle errors triggered before the
/// logging system is up.
#[derive(Debug)]
pub struct BotConfigError {
    pub message: String,
}

impl BotConfigError {
    pub fn new(message: &str) -> (r: Self)
        ensures
            r.message@ == message@,
    {
        BotConfigError { message: message.to_owned() }
    }

    /// The display text of the error.
    pub fn to_string(&self) -> (r: String)
        ensures
            r@ == self.message@,
    {
        self.message.clone()
    }
}

/// A set of configurations of this bot.
pub struct BotConfig {
    pub discord_token: String,
    pub log_path: String,
    pub status_message: String,
    pub database_url: Option<String>,
}

} // verus!
