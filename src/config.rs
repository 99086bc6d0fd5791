//! Settings that one run of the workflow reads and never changes.
use vstd::prelude::*;

verus! {

/// How much detail the generated commit message is asked for.
#[derive(Clone, Copy, Debug, PartialEq, Eq, Structural)]
pub enum MessageLevel {
    Quiet,
    Normal,
    Verbose,
}

/// Configuration of a run: the model to ask, the credential to ask it with,
/// the branch to publish to when the current one cannot be found, and the
/// level of detail of the message.
#[derive(Clone, Debug)]
pub struct Config {
    pub model: String,
    pub api_key: String,
    pub default_branch: String,
    pub message_level: MessageLevel,
}

pub struct ConfigView {
    pub model: Seq<char>,
    pub api_key: Seq<char>,
    pub default_branch: Seq<char>,
    pub message_level: MessageLevel,
}

impl View for Config {
    type V = ConfigView;

    open spec fn view(&self) -> ConfigView {
        ConfigView {
            model: self.model@,
            api_key: self.api_key@,
            default_branch: self.default_branch@,
            message_level: self.message_level,
        }
    }
}

impl Config {
    pub fn new(model: String, api_key: String, default_branch: String, message_level: MessageLevel) -> (r: Config)
        ensures
            r.model == model,
            r.api_key == api_key,
            r.default_branch == default_branch,
            r.message_level == message_level,
    {
        Config { model, api_key, default_branch, message_level }
    }

    /// A field-by-field copy with the same view.
    pub fn duplicate(&self) -> (r: Config)
        ensures
            r@ == self@,
    {
        Config {
            model: self.model.clone(),
            api_key: self.api_key.clone(),
            default_branch: self.default_branch.clone(),
            message_level: self.message_level,
        }
    }
}

} // verus!
