use release_notes::config::{AiConfig, ConfigError, DefaultConfig, GitConfig, DEFAULT_OPENAI_API_URL};
use release_notes::setup::{
    create_default_toml, get_ai_config, get_git_config, AiSetup, AiSetupStep, GitSetup, GitSetupStep,
    Setup, SetupStep,
};

fn answer_all(lines: &[&str]) -> SetupStep {
    let mut at = Setup::start();
    let mut asked = 0;
    loop {
        assert!(asked < lines.len(), "the dialogue asks for more than {} answers", lines.len());
        let step = create_default_toml(at, lines[asked]);
        asked += 1;
        match step {
            SetupStep::Ask(next) => at = next,
            done => {
                assert_eq!(asked, lines.len());
                return done;
            }
        }
    }
}

fn git(path: &str, branch: &str) -> GitConfig {
    GitConfig { path: Some(path.to_string()), branch: Some(branch.to_string()) }
}

#[test]
fn setup_starts_with_the_repository_path() {
    assert_eq!(Setup::start(), Setup::Git(GitSetup::Path));
}

#[test]
fn git_path_is_trimmed_and_the_branch_asked_next() {
    assert_eq!(
        get_git_config(GitSetup::Path, "  /repo\n"),
        GitSetupStep::Ask(GitSetup::Branch { path: "/repo".to_string() })
    );
}

#[test]
fn empty_git_path_ends_the_dialogue() {
    assert_eq!(get_git_config(GitSetup::Path, "\n"), GitSetupStep::Abort(ConfigError::NoGitPath));
    assert_eq!(get_git_config(GitSetup::Path, "   "), GitSetupStep::Abort(ConfigError::NoGitPath));
}

#[test]
fn git_branch_completes_the_section() {
    let at = GitSetup::Branch { path: "/repo".to_string() };
    assert_eq!(get_git_config(at, "main\r\n"), GitSetupStep::Done(git("/repo", "main")));
}

#[test]
fn empty_git_branch_ends_the_dialogue() {
    let at = GitSetup::Branch { path: "/repo".to_string() };
    assert_eq!(get_git_config(at, "\n"), GitSetupStep::Abort(ConfigError::NoGitBranch));
}

#[test]
fn empty_ai_key_keeps_the_default_endpoint_without_asking() {
    assert_eq!(
        get_ai_config(AiSetup::Key, "\n"),
        AiSetupStep::Done(AiConfig { key: Some(String::new()), url: Some(DEFAULT_OPENAI_API_URL.to_string()) })
    );
}

#[test]
fn ai_key_is_followed_by_the_endpoint_choice() {
    assert_eq!(
        get_ai_config(AiSetup::Key, " sk-test \n"),
        AiSetupStep::Ask(AiSetup::UrlChoice { key: "sk-test".to_string() })
    );
}

#[test]
fn only_y_changes_the_endpoint() {
    let choice = || AiSetup::UrlChoice { key: "sk-test".to_string() };
    assert_eq!(get_ai_config(choice(), " y\n"), AiSetupStep::Ask(AiSetup::Url { key: "sk-test".to_string() }));
    for line in ["n\n", "\n", "Y\n", "yes\n", "y y\n"] {
        assert_eq!(
            get_ai_config(choice(), line),
            AiSetupStep::Done(AiConfig {
                key: Some("sk-test".to_string()),
                url: Some(DEFAULT_OPENAI_API_URL.to_string()),
            })
        );
    }
}

#[test]
fn entered_endpoint_is_trimmed_and_kept_even_if_empty() {
    let at = || AiSetup::Url { key: "sk-test".to_string() };
    assert_eq!(
        get_ai_config(at(), " https://proxy.example/v1\n"),
        AiSetupStep::Done(AiConfig {
            key: Some("sk-test".to_string()),
            url: Some("https://proxy.example/v1".to_string()),
        })
    );
    assert_eq!(
        get_ai_config(at(), "\n"),
        AiSetupStep::Done(AiConfig { key: Some("sk-test".to_string()), url: Some(String::new()) })
    );
}

#[test]
fn dialogue_without_key_takes_three_answers() {
    assert_eq!(
        answer_all(&["/repo\n", "main\n", "\n"]),
        SetupStep::Save(DefaultConfig {
            git: Some(git("/repo", "main")),
            ai: Some(AiConfig { key: Some(String::new()), url: Some(DEFAULT_OPENAI_API_URL.to_string()) }),
        })
    );
}

#[test]
fn dialogue_with_key_and_default_endpoint_takes_four_answers() {
    assert_eq!(
        answer_all(&["/repo\n", "release\n", "sk-test\n", "n\n"]),
        SetupStep::Save(DefaultConfig {
            git: Some(git("/repo", "release")),
            ai: Some(AiConfig {
                key: Some("sk-test".to_string()),
                url: Some(DEFAULT_OPENAI_API_URL.to_string()),
            }),
        })
    );
}

#[test]
fn dialogue_with_own_endpoint_takes_five_answers() {
    assert_eq!(
        answer_all(&["/repo\n", "main\n", "sk-test\n", "y\n", "https://proxy.example/v1\n"]),
        SetupStep::Save(DefaultConfig {
            git: Some(git("/repo", "main")),
            ai: Some(AiConfig {
                key: Some("sk-test".to_string()),
                url: Some("https://proxy.example/v1".to_string()),
            }),
        })
    );
}

#[test]
fn dialogue_ends_at_the_first_empty_answer_about_the_repository() {
    assert_eq!(answer_all(&["\n"]), SetupStep::Abort(ConfigError::NoGitPath));
    assert_eq!(answer_all(&["/repo\n", " \n"]), SetupStep::Abort(ConfigError::NoGitBranch));
}

#[test]
fn saved_document_finalizes_to_what_was_answered() {
    let saved = match answer_all(&[" /repo \n", "main\n", "sk-test\n", "n\n"]) {
        SetupStep::Save(document) => document,
        other => panic!("no document: {:?}", other),
    };
    let config = saved.clone().finalize().unwrap();
    assert_eq!(config.git.path, "/repo");
    assert_eq!(config.git.branch, "main");
    assert_eq!(Some(config.ai), saved.ai);
}
