//! Deciding what a run reports, once the commits are known.

use crate::config::{filled, Configuration};
use crate::git::{git_log_step, GitState, GitStep};
use crate::log::log_commits;
use crate::summary::{
    ai_prompt, listing, parsed_url, plain_summary, report, report_text, summarize_plain,
    summarize_with_ai, url_parses, AiRequest, SummaryError, REPORT_SUMMARY, REPORT_TAG,
    SUMMARY_HEADER,
};
use crate::text::first_token;
use vstd::prelude::*;

verus! {

/// Where the configuration of a run comes from.
#[derive(Debug, Clone, Copy, PartialEq, Eq, Structural)]
pub enum ConfigSource {
    /// The stored document is read.
    Load,
    /// The configuration is asked for at the console, and stored.
    Create,
}

/// Decides where the configuration comes from, given whether a stored
/// document was found: a document that is there is read; without one the
/// configuration is asked for.
pub fn config_source(found: bool) -> (source: ConfigSource)
    ensures
        source == if found {
            ConfigSource::Load
        } else {
            ConfigSource::Create
        },
{
    if found {
        ConfigSource::Load
    } else {
        ConfigSource::Create
    }
}

/// What is left to do with the commits since the latest tag.
#[derive(Debug, PartialEq, Eq)]
pub enum Plan {
    /// There are none: nothing is summarized.
    NoCommits,
    /// Print this report, which holds the plain summary.
    Plain { report: String },
    /// Send this request, and report what the service answers.
    Ai { request: AiRequest },
}

/// `plan` is what to do with `commits`, found since `tag`.
///
/// Without commits no summary is written, whatever the configuration says.
/// Without an AI key the summary is the plain one. With a key, one request
/// goes to the configured endpoint, which must be an absolute URL.
pub open spec fn plan_for(
    config: Configuration,
    commits: Seq<Seq<char>>,
    tag: Seq<char>,
    plan: Result<Plan, SummaryError>,
) -> bool {
    if commits.len() == 0 {
        plan == Ok::<Plan, SummaryError>(Plan::NoCommits)
    } else {
        match filled(config.ai.key) {
            None => {
                &&& plan matches Ok(Plan::Plain { report })
                &&& report@ == report_text(tag, plain_summary(commits))
            },
            Some(key) => if url_parses(config.endpoint()) {
                &&& plan matches Ok(Plan::Ai { request })
                &&& Some(request.endpoint) == parsed_url(config.endpoint())
                &&& request.api_key@ == key
                &&& request.prompt@ == ai_prompt(commits)
            } else {
                plan == Err::<Plan, SummaryError>(SummaryError::InvalidUrl)
            },
        }
    }
}

/// Decides what to do with the commits found since `tag`.
pub fn plan_release_notes(config: &Configuration, commits: &Vec<String>, tag: &str) -> (plan:
    Result<Plan, SummaryError>)
    ensures
        plan_for(*config, commits.deep_view(), tag@, plan),
        commits.len() == 0 <==> plan == Ok::<Plan, SummaryError>(Plan::NoCommits),
{
    if commits.len() == 0 {
        return Ok(Plan::NoCommits);
    }
    if !config.uses_ai() {
        let summary = summarize_plain(commits);
        return Ok(Plan::Plain { report: report(tag, summary.as_str()) });
    }
    let key = match &config.ai.key {
        Some(key) => key.as_str(),
        None => "",
    };
    let endpoint = config.api_url();
    match summarize_with_ai(commits, endpoint.as_str(), key) {
        Ok(request) => Ok(Plan::Ai { request }),
        Err(error) => Err(error),
    }
}

/// A run without an AI key, from the list of tags to the report. Where the
/// step that reads the tag list asks for the log after `tag`, the step that
/// reads the log ends with `commits`, and there is at least one of them, the
/// tag is the first token of the tag list, the commits are those of the log,
/// and the plan is to print the report that names the tag and then holds the
/// header and every commit message, in the order of the log. The plan holds
/// no request.
pub proof fn plain_run_reports_tag_and_commits(
    config: Configuration,
    tags: Seq<char>,
    log: Seq<char>,
    tag: String,
    args: Vec<String>,
    commits: Vec<String>,
    plan: Result<Plan, SummaryError>,
)
    ensures
        ({
            &&& filled(config.ai.key) is None
            &&& git_log_step(
                config,
                GitState::Tags,
                tags,
                GitStep::Run { state: GitState::Log { tag }, args },
            )
            &&& git_log_step(config, GitState::Log { tag }, log, GitStep::Done { commits, tag })
            &&& commits.len() > 0
            &&& plan_for(config, commits.deep_view(), tag@, plan)
        }) ==> {
            &&& first_token(tags) == Some(tag@)
            &&& log_commits(log) == Some(commits.deep_view())
            &&& plan matches Ok(Plan::Plain { report })
            &&& report@ == REPORT_TAG@ + tag@ + REPORT_SUMMARY@ + SUMMARY_HEADER@ + listing(
                commits.deep_view(),
            )
        },
{
}

/// A run with an AI key and an endpoint that is an absolute URL. Under the
/// same steps as above, the plan is one request: to the configured endpoint,
/// with the configured key and the prompt that embeds every commit message.
/// The report on whatever the service answers names the tag and then holds
/// the answer, unchanged.
pub proof fn ai_run_sends_one_request_and_reports_the_reply(
    config: Configuration,
    tags: Seq<char>,
    log: Seq<char>,
    tag: String,
    args: Vec<String>,
    commits: Vec<String>,
    plan: Result<Plan, SummaryError>,
    reply: Seq<char>,
)
    ensures
        ({
            &&& filled(config.ai.key) is Some
            &&& url_parses(config.endpoint())
            &&& git_log_step(
                config,
                GitState::Tags,
                tags,
                GitStep::Run { state: GitState::Log { tag }, args },
            )
            &&& git_log_step(config, GitState::Log { tag }, log, GitStep::Done { commits, tag })
            &&& commits.len() > 0
            &&& plan_for(config, commits.deep_view(), tag@, plan)
        }) ==> {
            &&& first_token(tags) == Some(tag@)
            &&& plan matches Ok(Plan::Ai { request })
            &&& Some(request.endpoint) == parsed_url(config.endpoint())
            &&& Some(request.api_key@) == filled(config.ai.key)
            &&& request.prompt@ == ai_prompt(commits.deep_view())
            &&& report_text(tag@, reply) == REPORT_TAG@ + tag@ + REPORT_SUMMARY@ + reply
        },
{
}

} // verus!
