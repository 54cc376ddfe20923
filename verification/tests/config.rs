use release_notes::config::{
    has_default_toml, AiConfig, ConfigError, Configuration, DefaultConfig, GitConfig, Repository,
    CONFIG_FILE, DEFAULT_OPENAI_API_URL,
};

fn text(s: &str) -> Option<String> {
    Some(s.to_string())
}

fn document(path: Option<&str>, branch: Option<&str>, ai: Option<AiConfig>) -> DefaultConfig {
    DefaultConfig {
        git: Some(GitConfig { path: path.map(|p| p.to_string()), branch: branch.map(|b| b.to_string()) }),
        ai,
    }
}

fn settings(key: Option<&str>, url: Option<&str>) -> Configuration {
    Configuration {
        git: Repository { path: "/repo".to_string(), branch: "main".to_string() },
        ai: AiConfig { key: key.map(|k| k.to_string()), url: url.map(|u| u.to_string()) },
    }
}

#[test]
fn finalize_takes_a_complete_document_over() {
    let ai = AiConfig { key: text("sk-test"), url: text("https://example.com/v1") };
    let config = document(Some("/repo"), Some("main"), Some(ai.clone())).finalize();
    assert_eq!(
        config,
        Ok(Configuration {
            git: Repository { path: "/repo".to_string(), branch: "main".to_string() },
            ai,
        })
    );
}

#[test]
fn finalize_without_ai_section_has_neither_key_nor_endpoint() {
    let config = document(Some("/repo"), Some("main"), None).finalize().unwrap();
    assert_eq!(config.ai, AiConfig { key: None, url: None });
    assert!(!config.uses_ai());
    assert_eq!(config.api_url(), DEFAULT_OPENAI_API_URL);
}

#[test]
fn finalize_keeps_an_empty_key_and_a_missing_url() {
    let ai = AiConfig { key: text(""), url: None };
    let config = document(Some("/repo"), Some("main"), Some(ai.clone())).finalize().unwrap();
    assert_eq!(config.ai, ai);
}

#[test]
fn finalize_refuses_a_document_without_git_section() {
    let document = DefaultConfig { git: None, ai: None };
    assert_eq!(document.finalize(), Err(ConfigError::NoGitPath));
}

#[test]
fn finalize_refuses_a_missing_or_empty_path() {
    assert_eq!(document(None, Some("main"), None).finalize(), Err(ConfigError::NoGitPath));
    assert_eq!(document(Some(""), Some("main"), None).finalize(), Err(ConfigError::NoGitPath));
    assert_eq!(document(None, None, None).finalize(), Err(ConfigError::NoGitPath));
}

#[test]
fn finalize_refuses_a_missing_or_empty_branch() {
    assert_eq!(document(Some("/repo"), None, None).finalize(), Err(ConfigError::NoGitBranch));
    assert_eq!(document(Some("/repo"), Some(""), None).finalize(), Err(ConfigError::NoGitBranch));
}

#[test]
fn uses_ai_needs_a_key_that_is_not_empty() {
    assert!(settings(Some("sk-test"), None).uses_ai());
    assert!(!settings(Some(""), None).uses_ai());
    assert!(!settings(None, Some("https://example.com")).uses_ai());
}

#[test]
fn api_url_defaults_to_the_public_endpoint() {
    assert_eq!(settings(Some("k"), None).api_url(), "https://api.openai.com/v1/chat/completions");
    assert_eq!(settings(Some("k"), Some("https://proxy.example/v1")).api_url(), "https://proxy.example/v1");
    assert_eq!(settings(Some("k"), Some("")).api_url(), "");
}

#[test]
fn config_file_is_in_the_working_directory() {
    assert_eq!(CONFIG_FILE, "./default.toml");
}

#[test]
fn has_default_toml_says_what_the_file_system_says() {
    assert_eq!(has_default_toml(), std::path::Path::new(CONFIG_FILE).exists());
}
