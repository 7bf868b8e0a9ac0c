//! The application configuration. Reading and writing the configuration
//! file, and the environment lookup for a default API key, are the
//! embedding application's work; the data and its defaults live here.

use vstd::prelude::*;

verus! {

/// The whole configuration: the AI settings.
#[derive(Debug, Clone)]
pub struct Config {
    pub ai: AiConfig,
}

/// The AI provider settings.
#[derive(Debug, Clone)]
pub struct AiConfig {
    pub provider: String,
    pub model: String,
    pub api_url: String,
    pub api_key: String,
}

impl Default for Config {
    /// The default configuration: the OpenAI provider and its standard
    /// endpoint, with no API key; the application may fill the key from
    /// its environment.
    fn default() -> (r: Config)
        ensures
            r.ai.provider@ == "openai"@,
            r.ai.model@ == "gpt-3.5-turbo"@,
            r.ai.api_url@ == "https://api.openai.com"@,
            r.ai.api_key@.len() == 0,
    {
        Config {
            ai: AiConfig {
                provider: String::from_str("openai"),
                model: String::from_str("gpt-3.5-turbo"),
                api_url: String::from_str("https://api.openai.com"),
                api_key: String::new(),
            },
        }
    }
}

} // verus!
