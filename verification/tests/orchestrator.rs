use release_notes::config::{AiConfig, Configuration, Repository};
use release_notes::git::{get_git_log, GitState, GitStep};
use release_notes::orchestrator::{config_source, plan_release_notes, ConfigSource, Plan};
use release_notes::summary::{report, write_prompt, SummaryError};

fn settings(key: Option<&str>, url: Option<&str>) -> Configuration {
    Configuration {
        git: Repository { path: "/repo".to_string(), branch: "main".to_string() },
        ai: AiConfig { key: key.map(|k| k.to_string()), url: url.map(|u| u.to_string()) },
    }
}

fn commits(messages: &[&str]) -> Vec<String> {
    messages.iter().map(|m| m.to_string()).collect()
}

fn commits_since_tag(config: &Configuration, tag_list: &str, log: &str) -> (Vec<String>, String) {
    let mut state = GitState::Start;
    let mut output = String::new();
    loop {
        match get_git_log(config, state, &output) {
            GitStep::Run { state: next, .. } => {
                output = match next {
                    GitState::Tags => tag_list.to_string(),
                    GitState::Log { .. } => log.to_string(),
                    _ => String::new(),
                };
                state = next;
            }
            GitStep::Done { commits, tag } => return (commits, tag),
            GitStep::Abort(error) => panic!("{:?}", error),
        }
    }
}

const TWO_COMMITS: &str = "commit 1a2b3c\nAuthor: Dev <dev@example.com>\nDate:   Mon Jan 1 10:00:00 2024 +0800\n\n    fix: first\n\ncommit 4d5e6f\nAuthor: Dev <dev@example.com>\nDate:   Sun Dec 31 09:00:00 2023 +0800\n\n    feat: second\n";

#[test]
fn no_commits_means_no_summary() {
    for config in [
        settings(None, None),
        settings(Some(""), None),
        settings(Some("sk-test"), None),
        settings(Some("sk-test"), Some("not a url")),
    ] {
        assert_eq!(plan_release_notes(&config, &Vec::new(), "v1.2"), Ok(Plan::NoCommits));
    }
}

#[test]
fn commits_always_get_a_summary_or_an_error() {
    for config in [settings(None, None), settings(Some(""), None), settings(Some("sk-test"), None)] {
        assert_ne!(plan_release_notes(&config, &commits(&["a"]), "v1.2"), Ok(Plan::NoCommits));
    }
}

#[test]
fn without_key_the_summary_is_plain() {
    for config in [settings(None, None), settings(Some(""), None), settings(Some(""), Some("not a url"))] {
        assert_eq!(
            plan_release_notes(&config, &commits(&["a", "b"]), "v1.2"),
            Ok(Plan::Plain {
                report: "previous tag = v1.2; summary = 本次git提交记录如下：\na\nb\n".to_string(),
            })
        );
    }
}

#[test]
fn with_key_one_request_goes_to_the_default_endpoint() {
    let plan = plan_release_notes(&settings(Some("sk-test"), None), &commits(&["a", "b"]), "v1.2");
    match plan {
        Ok(Plan::Ai { request }) => {
            assert_eq!(request.endpoint.as_str(), "https://api.openai.com/v1/chat/completions");
            assert_eq!(request.api_key, "sk-test");
            assert_eq!(request.prompt, write_prompt(&commits(&["a", "b"])));
        }
        other => panic!("no request: {:?}", other),
    }
}

#[test]
fn with_key_the_configured_endpoint_is_used() {
    let config = settings(Some("sk-test"), Some("http://localhost:8080/v1/chat/completions"));
    match plan_release_notes(&config, &commits(&["a"]), "v1.2") {
        Ok(Plan::Ai { request }) => {
            assert_eq!(request.endpoint.as_str(), "http://localhost:8080/v1/chat/completions");
        }
        other => panic!("no request: {:?}", other),
    }
}

#[test]
fn with_key_a_bad_endpoint_is_an_error() {
    let config = settings(Some("sk-test"), Some("not a url"));
    assert_eq!(plan_release_notes(&config, &commits(&["a"]), "v1.2"), Err(SummaryError::InvalidUrl));
}

#[test]
fn run_without_key_reports_both_commits_and_the_tag() {
    let config = settings(Some(""), None);
    let (found, tag) = commits_since_tag(&config, "v1.2\n", TWO_COMMITS);
    assert_eq!(tag, "v1.2");
    match plan_release_notes(&config, &found, &tag) {
        Ok(Plan::Plain { report }) => {
            assert!(report.contains("fix: first"));
            assert!(report.contains("feat: second"));
            assert!(report.contains("v1.2"));
            assert_eq!(
                report,
                "previous tag = v1.2; summary = 本次git提交记录如下：\nfix: first\nfeat: second\n"
            );
        }
        other => panic!("no plain summary: {:?}", other),
    }
}

#[test]
fn run_with_key_reports_the_answer_of_the_service() {
    let config = settings(Some("sk-test"), None);
    let (found, tag) = commits_since_tag(&config, "v1.2\n", TWO_COMMITS);
    match plan_release_notes(&config, &found, &tag) {
        Ok(Plan::Ai { request }) => {
            assert_eq!(request.api_key, "sk-test");
            assert!(request.prompt.contains("fix: first\nfeat: second\n"));
        }
        other => panic!("no request: {:?}", other),
    }
    assert_eq!(report(&tag, "release notes text"), "previous tag = v1.2; summary = release notes text");
}

#[test]
fn run_selects_the_latest_tag() {
    let config = settings(None, None);
    let (_, tag) = commits_since_tag(&config, "v2.0\nv1.0\n", "");
    assert_eq!(tag, "v2.0");
}

#[test]
fn run_with_empty_log_reports_nothing() {
    let config = settings(Some("sk-test"), None);
    let (found, tag) = commits_since_tag(&config, "v1.2\n", "");
    assert_eq!(plan_release_notes(&config, &found, &tag), Ok(Plan::NoCommits));
}

#[test]
fn stored_document_is_read_and_a_missing_one_asked_for() {
    assert_eq!(config_source(true), ConfigSource::Load);
    assert_eq!(config_source(false), ConfigSource::Create);
}

#[test]
fn run_asks_for_the_configuration_exactly_where_no_document_is_found() {
    let found = release_notes::config::has_default_toml();
    assert_eq!(config_source(found) == ConfigSource::Load, found);
    assert_eq!(config_source(found) == ConfigSource::Create, !found);
}

#[test]
fn run_with_key_sends_the_request_to_the_configured_endpoint_not_the_default() {
    let config = settings(Some("sk-test"), Some("https://proxy.example/v1/chat/completions"));
    match plan_release_notes(&config, &commits(&["a"]), "v1.2") {
        Ok(Plan::Ai { request }) => {
            assert_eq!(request.endpoint.as_str(), "https://proxy.example/v1/chat/completions");
            assert_ne!(request.endpoint.as_str(), release_notes::config::DEFAULT_OPENAI_API_URL);
        }
        other => panic!("no request: {:?}", other),
    }
}

#[test]
fn run_reports_messages_in_the_order_of_the_log() {
    let config = settings(Some(""), None);
    let log = "commit a1\nAuthor: A\nDate:   d1\n\n    first message\n\ncommit b2\nAuthor: B\nDate:   d2\n\n    second message\n";
    let (found, tag) = commits_since_tag(&config, "v1.2\n", log);
    match plan_release_notes(&config, &found, &tag) {
        Ok(Plan::Plain { report }) => {
            let first = report.find("first message").unwrap();
            let second = report.find("second message").unwrap();
            assert!(first < second);
            assert!(report.contains("v1.2"));
        }
        other => panic!("no plain summary: {:?}", other),
    }
}
