//! Startup configuration errors, shared by the two components' validated
//! configuration builders.

use vstd::prelude::*;

verus! {

/// A required configuration option was not set.
#[derive(Clone, Copy, Debug, PartialEq, Eq, Structural)]
pub enum ConfigError {
    MissingApiUrl,
    MissingApiKey,
    MissingNodeName,
    MissingWebhookUrl,
}

/// The description of each configuration error, naming the missing option.
pub open spec fn spec_describe(e: ConfigError) -> Seq<char> {
    match e {
        ConfigError::MissingApiUrl => "API_URL is not set"@,
        ConfigError::MissingApiKey => "API_KEY is not set"@,
        ConfigError::MissingNodeName => "NODE_NAME is not set"@,
        ConfigError::MissingWebhookUrl => "DISCORD_WEBHOOK_URL is not set"@,
    }
}

impl ConfigError {
    /// A descriptive message naming the missing option.
    pub fn describe(&self) -> (r: &'static str)
        ensures
            r@ == spec_describe(*self),
    {
        match self {
            ConfigError::MissingApiUrl => "API_URL is not set",
            ConfigError::MissingApiKey => "API_KEY is not set",
            ConfigError::MissingNodeName => "NODE_NAME is not set",
            ConfigError::MissingWebhookUrl => "DISCORD_WEBHOOK_URL is not set",
        }
    }
}

} // verus!
