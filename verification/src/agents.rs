//! The specialist agents' identities and their command-line settings.
//!
//! Invoking the external reasoning process, and scoring replies, live
//! with the runtime around the library; here are the configurations and
//! constructors their callers share.

use vstd::prelude::*;

verus! {

/// Relies on core::time::Duration::from_secs: a span of that many whole
/// seconds, carried opaquely to the timeout plumbing.
pub assume_specification[ core::time::Duration::from_secs ](secs: u64) -> core::time::Duration;

/// Relies on core::time::Duration's Clone, a plain copy of the value.
pub assume_specification[ <core::time::Duration as Clone>::clone ](d: &core::time::Duration) -> (r:
    core::time::Duration)
    ensures
        r == d,
;

/// Settings for one invocation of the external reasoning process.
#[derive(Debug, Clone)]
pub struct ClaudeCliConfig {
    pub model: String,
    pub timeout: core::time::Duration,
}

impl Default for ClaudeCliConfig {
    /// The fast default model and a forty-five second timeout.
    fn default() -> (r: Self)
        ensures
            r.model@ == "reasoner-small-latest"@,
    {
        ClaudeCliConfig {
            model: String::from_str("reasoner-small-latest"),
            timeout: core::time::Duration::from_secs(45),
        }
    }
}

/// A specialist that evaluates requests through the external reasoning
/// process.
pub struct ClaudeSpecialist {
    pub name: String,
    pub domain: String,
    pub cli_config: ClaudeCliConfig,
}

impl ClaudeSpecialist {
    /// A specialist under the given name and domain, invoking the given
    /// model with the given timeout.
    pub fn new(name: String, domain: String, model: String, timeout: core::time::Duration) -> (r:
        Self)
        ensures
            r.name@ == name@,
            r.domain@ == domain@,
            r.cli_config.model@ == model@,
    {
        ClaudeSpecialist { name, domain, cli_config: ClaudeCliConfig { model, timeout } }
    }
}

/// A specialist stand-in that scores requests from the cached domain
/// data alone, applying the same rules the prompts document.
pub struct ScenarioMockSpecialist {
    pub name: String,
    pub domain: String,
}

impl ScenarioMockSpecialist {
    /// A stand-in under the given name and domain.
    pub fn new(name: &str, domain: &str) -> (r: Self)
        ensures
            r.name@ == name@,
            r.domain@ == domain@,
    {
        ScenarioMockSpecialist {
            name: String::from_str(name),
            domain: String::from_str(domain),
        }
    }

    /// The stand-in for the technical analysis domain.
    pub fn technical() -> (r: Self)
        ensures
            r.name@ == "technical_analyst"@,
            r.domain@ == "technical"@,
    {
        Self::new("technical_analyst", "technical")
    }

    /// The stand-in for the macroeconomic domain.
    pub fn macro_analyst() -> (r: Self)
        ensures
            r.name@ == "macro_analyst"@,
            r.domain@ == "macro"@,
    {
        Self::new("macro_analyst", "macro")
    }

    /// The stand-in for the sentiment domain.
    pub fn sentiment() -> (r: Self)
        ensures
            r.name@ == "sentiment_analyst"@,
            r.domain@ == "sentiment"@,
    {
        Self::new("sentiment_analyst", "sentiment")
    }

    /// The stand-in for the sector domain.
    pub fn sector() -> (r: Self)
        ensures
            r.name@ == "sector_analyst"@,
            r.domain@ == "sector"@,
    {
        Self::new("sector_analyst", "sector")
    }
}

} // verus!
