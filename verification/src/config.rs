//! The configuration: the document as it is stored, and the settings of a run.
//!
//! A stored document may leave out any section or key. A `Configuration` is
//! what a run works with: the repository is named, the AI settings may be
//! missing.

use vstd::prelude::*;
use vstd::string::StringExecFns;

verus! {

/// Where the configuration document is kept, relative to the working directory.
pub const CONFIG_FILE: &'static str = "./default.toml";

/// The chat-completion endpoint that is used where the document names none.
pub const DEFAULT_OPENAI_API_URL: &'static str = "https://api.openai.com/v1/chat/completions";

/// The `git` section of the stored document.
#[derive(Debug, Clone, PartialEq, Eq)]
pub struct GitConfig {
    pub path: Option<String>,
    pub branch: Option<String>,
}

/// The `ai` section: the key of the chat-completion service and its endpoint.
#[derive(Debug, Clone, PartialEq, Eq)]
pub struct AiConfig {
    pub key: Option<String>,
    pub url: Option<String>,
}

/// The stored document.
#[derive(Debug, Clone, PartialEq, Eq)]
pub struct DefaultConfig {
    pub git: Option<GitConfig>,
    pub ai: Option<AiConfig>,
}

/// The repository that a run works on.
#[derive(Debug, Clone, PartialEq, Eq)]
pub struct Repository {
    pub path: String,
    pub branch: String,
}

/// The settings of a run.
#[derive(Debug, Clone, PartialEq, Eq)]
pub struct Configuration {
    pub git: Repository,
    pub ai: AiConfig,
}

/// Why a document cannot serve as the configuration of a run.
#[derive(Debug, Clone, Copy, PartialEq, Eq, Structural)]
pub enum ConfigError {
    /// No repository path, or an empty one.
    NoGitPath,
    /// No branch, or an empty one.
    NoGitBranch,
}

/// The text of `value`, where there is one and it is not empty.
pub open spec fn filled(value: Option<String>) -> Option<Seq<char>> {
    match value {
        Some(text) => if text@.len() > 0 {
            Some(text@)
        } else {
            None
        },
        None => None,
    }
}

impl DefaultConfig {
    /// The repository path that the document names.
    pub open spec fn git_path(self) -> Option<Seq<char>> {
        match self.git {
            Some(git) => filled(git.path),
            None => None,
        }
    }

    /// The branch that the document names.
    pub open spec fn git_branch(self) -> Option<Seq<char>> {
        match self.git {
            Some(git) => filled(git.branch),
            None => None,
        }
    }

    /// The AI key of the document, as it stands there.
    pub open spec fn ai_key(self) -> Option<Seq<char>> {
        match self.ai {
            Some(ai) => ai.key.deep_view(),
            None => None,
        }
    }

    /// The AI endpoint of the document, as it stands there.
    pub open spec fn ai_url(self) -> Option<Seq<char>> {
        match self.ai {
            Some(ai) => ai.url.deep_view(),
            None => None,
        }
    }

    /// Checks the document and turns it into the settings of a run.
    ///
    /// The repository path is looked at first, then the branch: each must be
    /// there and not empty. The AI settings are taken over as they stand; a
    /// document without an `ai` section has neither key nor endpoint.
    pub fn finalize(self) -> (r: Result<Configuration, ConfigError>)
        ensures
            self.git_path() is None ==> r == Err::<Configuration, ConfigError>(
                ConfigError::NoGitPath,
            ),
            self.git_path() is Some && self.git_branch() is None ==> r == Err::<
                Configuration,
                ConfigError,
            >(ConfigError::NoGitBranch),
            self.git_path() is Some && self.git_branch() is Some ==> {
                &&& r matches Ok(config)
                &&& config.valid()
                &&& Some(config.git.path@) == self.git_path()
                &&& Some(config.git.branch@) == self.git_branch()
                &&& config.ai.key.deep_view() == self.ai_key()
                &&& config.ai.url.deep_view() == self.ai_url()
            },
    {
        let DefaultConfig { git, ai } = self;
        let (path, branch) = match git {
            Some(section) => (section.path, section.branch),
            None => (None, None),
        };
        let path = match path {
            Some(text) => text,
            None => {
                return Err(ConfigError::NoGitPath);
            },
        };
        if path.as_str().is_empty() {
            return Err(ConfigError::NoGitPath);
        }
        let branch = match branch {
            Some(text) => text,
            None => {
                return Err(ConfigError::NoGitBranch);
            },
        };
        if branch.as_str().is_empty() {
            return Err(ConfigError::NoGitBranch);
        }
        let ai = match ai {
            Some(section) => section,
            None => AiConfig { key: None, url: None },
        };
        Ok(Configuration { git: Repository { path, branch }, ai })
    }
}

impl Configuration {
    /// Both the repository path and the branch are named.
    pub open spec fn valid(self) -> bool {
        self.git.path@.len() > 0 && self.git.branch@.len() > 0
    }

    /// There is an AI key and it is not empty.
    pub open spec fn has_ai_key(self) -> bool {
        filled(self.ai.key) is Some
    }

    /// The endpoint of the chat-completion service: the configured one, or
    /// the default where none is configured.
    pub open spec fn endpoint(self) -> Seq<char> {
        match self.ai.url {
            Some(url) => url@,
            None => DEFAULT_OPENAI_API_URL@,
        }
    }

    /// Whether the summary is to be written by the chat-completion service.
    pub fn uses_ai(&self) -> (r: bool)
        ensures
            r == self.has_ai_key(),
    {
        match &self.ai.key {
            Some(key) => !key.as_str().is_empty(),
            None => false,
        }
    }

    /// The endpoint to send the request to.
    pub fn api_url(&self) -> (r: String)
        ensures
            r@ == self.endpoint(),
    {
        match &self.ai.url {
            Some(url) => url.clone(),
            None => String::from_str(DEFAULT_OPENAI_API_URL),
        }
    }
}

/// `std::path::Path::exists` on the path that `path` names. Whether anything
/// is there is known only to the file system, so nothing is claimed of the
/// answer.
#[verifier::external_body]
fn path_exists(path: &str) -> bool {
    std::path::Path::new(path).exists()
}

/// Whether a configuration document is present in the working directory.
pub fn has_default_toml() -> bool {
    path_exists(CONFIG_FILE)
}

} // verus!
