//! Reading the commits since the latest tag, one `git` command at a time.
//!
//! Four commands are run against the repository, in this order: `checkout`
//! of the configured branch, `pull`, `tag --sort=-creatordate`, and `log`
//! from the latest tag to `HEAD`. Running them is the caller's part: the
//! step function here says which command comes next, as the sequence of its
//! arguments, and reads what the last one printed.

use crate::config::Configuration;
use crate::log::{log_commits, log_split, LogError};
use crate::text::{first_token, first_word};
use vstd::prelude::*;
use vstd::string::StringExecFns;

verus! {

/// The program that is run.
pub const GIT: &'static str = "git";

/// Says that the directory to work in follows.
pub const IN_DIRECTORY: &'static str = "-C";

/// Switches to the branch that follows.
pub const CHECKOUT: &'static str = "checkout";

/// Brings the branch up to date.
pub const PULL: &'static str = "pull";

/// Lists the tags.
pub const TAG: &'static str = "tag";

/// Puts the tag that was created last first.
pub const NEWEST_FIRST: &'static str = "--sort=-creatordate";

/// Prints the commits of the range that follows.
pub const LOG: &'static str = "log";

/// Closes the range of the log: from the tag to the latest commit.
pub const TO_HEAD: &'static str = "..HEAD";

/// The command that was run last, and whose output is read next.
#[derive(Debug, Clone, PartialEq, Eq)]
pub enum GitState {
    Start,
    Checkout,
    Pull,
    Tags,
    Log { tag: String },
}

/// Why the commits could not be read.
#[derive(Debug, Clone, Copy, PartialEq, Eq, Structural)]
pub enum GitError {
    /// The repository has no tag.
    NoTag,
    /// The log could not be split.
    Log(LogError),
}

/// What to do next: run `git` with the arguments `args`, each handed over
/// as it stands, and come back in `state` with what it printed; or stop,
/// with the commits and the tag or with an error.
#[derive(Debug, Clone, PartialEq, Eq)]
pub enum GitStep {
    Run { state: GitState, args: Vec<String> },
    Done { commits: Vec<String>, tag: String },
    Abort(GitError),
}

/// The arguments of `checkout`: the directory and the branch are one
/// argument each, whatever they hold.
pub open spec fn checkout_args(path: Seq<char>, branch: Seq<char>) -> Seq<Seq<char>> {
    seq![IN_DIRECTORY@, path, CHECKOUT@, branch]
}

/// The arguments of `pull`.
pub open spec fn pull_args(path: Seq<char>) -> Seq<Seq<char>> {
    seq![IN_DIRECTORY@, path, PULL@]
}

/// The arguments that list the tags.
pub open spec fn tag_args(path: Seq<char>) -> Seq<Seq<char>> {
    seq![IN_DIRECTORY@, path, TAG@, NEWEST_FIRST@]
}

/// The arguments of `log`, for the commits after `tag`.
pub open spec fn log_args(path: Seq<char>, tag: Seq<char>) -> Seq<Seq<char>> {
    seq![IN_DIRECTORY@, path, LOG@, tag + TO_HEAD@]
}

/// `step` is what follows in `state`, where the last command printed `output`.
///
/// What `checkout` and `pull` print is not looked at. The latest tag is the
/// first token of the tag list; without one the work ends with `NoTag`.
pub open spec fn git_log_step(
    config: Configuration,
    state: GitState,
    output: Seq<char>,
    step: GitStep,
) -> bool {
    let path = config.git.path@;
    match state {
        GitState::Start => {
            &&& step matches GitStep::Run { state: GitState::Checkout, args }
            &&& args.deep_view() == checkout_args(path, config.git.branch@)
        },
        GitState::Checkout => {
            &&& step matches GitStep::Run { state: GitState::Pull, args }
            &&& args.deep_view() == pull_args(path)
        },
        GitState::Pull => {
            &&& step matches GitStep::Run { state: GitState::Tags, args }
            &&& args.deep_view() == tag_args(path)
        },
        GitState::Tags => match first_token(output) {
            Some(latest) => {
                &&& step matches GitStep::Run { state: GitState::Log { tag }, args }
                &&& tag@ == latest
                &&& args.deep_view() == log_args(path, latest)
            },
            None => step == GitStep::Abort(GitError::NoTag),
        },
        GitState::Log { tag } => match log_commits(output) {
            Some(messages) => {
                &&& step matches GitStep::Done { commits, tag: latest }
                &&& commits.deep_view() == messages
                &&& latest == tag
            },
            None => step == GitStep::Abort(GitError::Log(LogError::Pattern)),
        },
    }
}

/// The arguments that name the directory of the repository and the
/// command to run there.
fn in_directory(path: &str, command: &str) -> (args: Vec<String>)
    ensures
        args.deep_view() == seq![IN_DIRECTORY@, path@, command@],
{
    let mut args: Vec<String> = Vec::new();
    args.push(String::from_str(IN_DIRECTORY));
    args.push(path.to_owned());
    args.push(command.to_owned());
    proof {
        assert(args.deep_view() =~= seq![IN_DIRECTORY@, path@, command@]);
    }
    args
}

/// `args` with one more argument at its end.
fn with_argument(args: Vec<String>, last: String) -> (all: Vec<String>)
    ensures
        all.deep_view() == args.deep_view().push(last@),
{
    let mut all = args;
    all.push(last);
    proof {
        assert(all.deep_view() =~= args.deep_view().push(last@));
    }
    all
}

/// Takes one step towards the commits since the latest tag: from `state`
/// and the output of the command that was run last to the next command, or
/// to the result.
pub fn get_git_log(config: &Configuration, state: GitState, output: &str) -> (step: GitStep)
    ensures
        git_log_step(*config, state, output@, step),
{
    let path = config.git.path.as_str();
    match state {
        GitState::Start => {
            let args = with_argument(in_directory(path, CHECKOUT), config.git.branch.clone());
            proof {
                assert(args.deep_view() =~= checkout_args(path@, config.git.branch@));
            }
            GitStep::Run { state: GitState::Checkout, args }
        },
        GitState::Checkout => GitStep::Run { state: GitState::Pull, args: in_directory(path, PULL) },
        GitState::Pull => {
            let args = with_argument(in_directory(path, TAG), String::from_str(NEWEST_FIRST));
            proof {
                assert(args.deep_view() =~= tag_args(path@));
            }
            GitStep::Run { state: GitState::Tags, args }
        },
        GitState::Tags => match first_word(output) {
            Some(tag) => {
                let mut range = tag.clone();
                range.append(TO_HEAD);
                let args = with_argument(in_directory(path, LOG), range);
                proof {
                    assert(args.deep_view() =~= log_args(path@, tag@));
                }
                GitStep::Run { state: GitState::Log { tag }, args }
            },
            None => GitStep::Abort(GitError::NoTag),
        },
        GitState::Log { tag } => match log_split(output) {
            Ok(commits) => GitStep::Done { commits, tag },
            Err(error) => GitStep::Abort(GitError::Log(error)),
        },
    }
}

} // verus!
