//! Creating the configuration from answers given at the console.
//!
//! The questions are asked one at a time: repository path, branch, AI key,
//! and, where a key was given, whether the endpoint is to be changed and to
//! what. Each function here takes where the dialogue stands and the line that
//! was entered, and says what comes next; asking and reading is the caller's
//! part. Every answer is taken without the white space around it.

use crate::config::{AiConfig, ConfigError, DefaultConfig, GitConfig, DEFAULT_OPENAI_API_URL};
use crate::text::{same_text, trim, trimmed};
use vstd::prelude::*;
use vstd::string::StringExecFns;

verus! {

/// The answer that changes the endpoint; any other keeps the default.
pub const YES: &'static str = "y";

/// Where the questions about the repository stand: what is asked next.
#[derive(Debug, Clone, PartialEq, Eq)]
pub enum GitSetup {
    Path,
    Branch { path: String },
}

/// What follows an answer about the repository.
#[derive(Debug, Clone, PartialEq, Eq)]
pub enum GitSetupStep {
    Ask(GitSetup),
    Done(GitConfig),
    Abort(ConfigError),
}

/// Where the questions about the AI service stand: what is asked next.
#[derive(Debug, Clone, PartialEq, Eq)]
pub enum AiSetup {
    Key,
    UrlChoice { key: String },
    Url { key: String },
}

/// What follows an answer about the AI service.
#[derive(Debug, Clone, PartialEq, Eq)]
pub enum AiSetupStep {
    Ask(AiSetup),
    Done(AiConfig),
}

/// Where the whole dialogue stands.
#[derive(Debug, Clone, PartialEq, Eq)]
pub enum Setup {
    Git(GitSetup),
    Ai { git: GitConfig, at: AiSetup },
}

/// What follows an answer: another question, the document to store, or the
/// reason to give up.
#[derive(Debug, Clone, PartialEq, Eq)]
pub enum SetupStep {
    Ask(Setup),
    Save(DefaultConfig),
    Abort(ConfigError),
}

/// `step` is what follows the answer `line` to the repository question `at`.
pub open spec fn git_setup_step(at: GitSetup, line: Seq<char>, step: GitSetupStep) -> bool {
    match at {
        GitSetup::Path => if trimmed(line).len() == 0 {
            step == GitSetupStep::Abort(ConfigError::NoGitPath)
        } else {
            step matches GitSetupStep::Ask(GitSetup::Branch { path }) && path@ == trimmed(line)
        },
        GitSetup::Branch { path } => if trimmed(line).len() == 0 {
            step == GitSetupStep::Abort(ConfigError::NoGitBranch)
        } else {
            &&& step matches GitSetupStep::Done(git)
            &&& git.path == Some(path)
            &&& git.branch.deep_view() == Some(trimmed(line))
        },
    }
}

/// `step` is what follows the answer `line` to the AI question `at`.
pub open spec fn ai_setup_step(at: AiSetup, line: Seq<char>, step: AiSetupStep) -> bool {
    match at {
        AiSetup::Key => if trimmed(line).len() == 0 {
            &&& step matches AiSetupStep::Done(ai)
            &&& ai.key.deep_view() == Some(trimmed(line))
            &&& ai.url.deep_view() == Some(DEFAULT_OPENAI_API_URL@)
        } else {
            step matches AiSetupStep::Ask(AiSetup::UrlChoice { key }) && key@ == trimmed(line)
        },
        AiSetup::UrlChoice { key } => if trimmed(line) == YES@ {
            step == AiSetupStep::Ask(AiSetup::Url { key })
        } else {
            &&& step matches AiSetupStep::Done(ai)
            &&& ai.key == Some(key)
            &&& ai.url.deep_view() == Some(DEFAULT_OPENAI_API_URL@)
        },
        AiSetup::Url { key } => {
            &&& step matches AiSetupStep::Done(ai)
            &&& ai.key == Some(key)
            &&& ai.url.deep_view() == Some(trimmed(line))
        },
    }
}

/// `step` is what follows the answer `line` where the dialogue stands at `at`.
pub open spec fn setup_step(at: Setup, line: Seq<char>, step: SetupStep) -> bool {
    match at {
        Setup::Git(question) => match step {
            SetupStep::Ask(Setup::Git(next)) => git_setup_step(
                question,
                line,
                GitSetupStep::Ask(next),
            ),
            SetupStep::Ask(Setup::Ai { git, at: AiSetup::Key }) => git_setup_step(
                question,
                line,
                GitSetupStep::Done(git),
            ),
            SetupStep::Abort(error) => git_setup_step(question, line, GitSetupStep::Abort(error)),
            _ => false,
        },
        Setup::Ai { git, at: question } => match step {
            SetupStep::Ask(Setup::Ai { git: kept, at: next }) => kept == git && ai_setup_step(
                question,
                line,
                AiSetupStep::Ask(next),
            ),
            SetupStep::Save(config) => {
                &&& config.git == Some(git)
                &&& config.ai matches Some(ai)
                &&& ai_setup_step(question, line, AiSetupStep::Done(ai))
            },
            _ => false,
        },
    }
}

impl Setup {
    /// What has been answered so far is fit to be stored: the repository
    /// path is not empty, and neither is the branch.
    pub open spec fn valid(self) -> bool {
        match self {
            Setup::Git(GitSetup::Path) => true,
            Setup::Git(GitSetup::Branch { path }) => path@.len() > 0,
            Setup::Ai { git, at } => {
                &&& git.path matches Some(path)
                &&& path@.len() > 0
                &&& git.branch matches Some(branch)
                &&& branch@.len() > 0
            },
        }
    }

    /// The beginning of the dialogue: the repository path is asked first.
    pub fn start() -> (setup: Setup)
        ensures
            setup == Setup::Git(GitSetup::Path),
            setup.valid(),
    {
        Setup::Git(GitSetup::Path)
    }
}

/// Takes the answer to a question about the repository. An empty path or
/// branch ends the dialogue with an error; the branch completes the section.
pub fn get_git_config(at: GitSetup, line: &str) -> (step: GitSetupStep)
    ensures
        git_setup_step(at, line@, step),
{
    let answer = trim(line);
    match at {
        GitSetup::Path => {
            if answer.as_str().is_empty() {
                GitSetupStep::Abort(ConfigError::NoGitPath)
            } else {
                GitSetupStep::Ask(GitSetup::Branch { path: answer })
            }
        },
        GitSetup::Branch { path } => {
            if answer.as_str().is_empty() {
                GitSetupStep::Abort(ConfigError::NoGitBranch)
            } else {
                GitSetupStep::Done(GitConfig { path: Some(path), branch: Some(answer) })
            }
        },
    }
}

/// Takes the answer to a question about the AI service. Without a key the
/// section is complete at once, with the default endpoint; with one, the
/// endpoint is asked for only after the answer `y`.
pub fn get_ai_config(at: AiSetup, line: &str) -> (step: AiSetupStep)
    ensures
        ai_setup_step(at, line@, step),
{
    let answer = trim(line);
    match at {
        AiSetup::Key => {
            if answer.as_str().is_empty() {
                AiSetupStep::Done(
                    AiConfig {
                        key: Some(answer),
                        url: Some(String::from_str(DEFAULT_OPENAI_API_URL)),
                    },
                )
            } else {
                AiSetupStep::Ask(AiSetup::UrlChoice { key: answer })
            }
        },
        AiSetup::UrlChoice { key } => {
            if same_text(answer.as_str(), YES) {
                AiSetupStep::Ask(AiSetup::Url { key })
            } else {
                AiSetupStep::Done(
                    AiConfig {
                        key: Some(key),
                        url: Some(String::from_str(DEFAULT_OPENAI_API_URL)),
                    },
                )
            }
        },
        AiSetup::Url { key } => AiSetupStep::Done(AiConfig { key: Some(key), url: Some(answer) }),
    }
}

/// Takes one answer of the dialogue and says what follows: the next
/// question, the finished document, or the error that ends it. A document
/// that comes out of a dialogue begun at `Setup::start` names both the
/// repository path and the branch.
pub fn create_default_toml(at: Setup, line: &str) -> (step: SetupStep)
    ensures
        setup_step(at, line@, step),
        at.valid() ==> match step {
            SetupStep::Ask(next) => next.valid(),
            SetupStep::Save(config) => config.git_path() is Some && config.git_branch() is Some,
            SetupStep::Abort(_) => true,
        },
{
    match at {
        Setup::Git(question) => match get_git_config(question, line) {
            GitSetupStep::Ask(next) => SetupStep::Ask(Setup::Git(next)),
            GitSetupStep::Done(git) => SetupStep::Ask(Setup::Ai { git, at: AiSetup::Key }),
            GitSetupStep::Abort(error) => SetupStep::Abort(error),
        },
        Setup::Ai { git, at: question } => match get_ai_config(question, line) {
            AiSetupStep::Ask(next) => SetupStep::Ask(Setup::Ai { git, at: next }),
            AiSetupStep::Done(ai) => SetupStep::Save(DefaultConfig { git: Some(git), ai: Some(ai) }),
        },
    }
}

} // verus!
