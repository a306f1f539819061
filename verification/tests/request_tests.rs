use mnemnk_obsidian_notes::config::{AgentConfig, Args};
use mnemnk_obsidian_notes::request::{bearer_header, build_note_url, default_base_url, status_is_success};

fn chars(s: &str) -> Vec<char> {
    s.chars().collect()
}

#[test]
fn note_url_percent_encodes_the_path() {
    let url = build_note_url(&chars("http://localhost:27123"), &chars("notes/a b.md"));
    assert_eq!(url, chars("http://localhost:27123/vault/notes%2Fa%20b.md"));
}

#[test]
fn note_url_keeps_plain_characters() {
    let url = build_note_url(&chars("http://h:1"), &chars("a-b_c.d~e"));
    assert_eq!(url, chars("http://h:1/vault/a-b_c.d~e"));
}

#[test]
fn note_url_for_empty_path_is_the_vault_root() {
    let url = build_note_url(&chars("http://h:1"), &chars(""));
    assert_eq!(url, chars("http://h:1/vault/"));
}

#[test]
fn bearer_header_wraps_the_key() {
    assert_eq!(bearer_header(&chars("k123")), Some(chars("Bearer k123")));
}

#[test]
fn no_key_means_no_header() {
    assert_eq!(bearer_header(&chars("")), None);
}

#[test]
fn default_base_url_names_the_local_store() {
    assert_eq!(default_base_url(), chars("http://localhost:27123"));
}

#[test]
fn only_the_success_range_counts() {
    assert!(status_is_success(200));
    assert!(status_is_success(204));
    assert!(status_is_success(299));
    assert!(!status_is_success(199));
    assert!(!status_is_success(300));
    assert!(!status_is_success(404));
    assert!(!status_is_success(500));
}

#[test]
fn every_configuration_text_parses_to_the_empty_configuration() {
    let with_text = Args { config: Some(String::from("{\"x\":1}")) };
    let without = Args { config: None };
    assert_eq!(with_text.agent_config(), AgentConfig::default());
    assert_eq!(without.agent_config(), AgentConfig::default());
}
