use git_req::credentials::{get_api_key, KeyEvent, KeyStep};

fn prompt(host: &str) -> KeyStep {
    KeyStep::Prompt {
        notice: format!(
            "No API token for {} found. See https://github.com/arusahni/git-req/wiki/API-Keys for instructions.",
            host
        ),
        label: format!("{} API token: ", host),
    }
}

#[test]
fn a_stored_token_is_used_as_it_is() {
    let step = get_api_key("gitlab.com", KeyEvent::Stored(Some(String::from("glpat-1"))));
    assert_eq!(step, KeyStep::Use(String::from("glpat-1")));
    let step = get_api_key("gitlab.com", KeyEvent::Stored(Some(String::from(" spaced "))));
    assert_eq!(step, KeyStep::Use(String::from(" spaced ")));
}

#[test]
fn a_missing_token_is_asked_for() {
    assert_eq!(get_api_key("github.com", KeyEvent::Stored(None)), prompt("github.com"));
}

#[test]
fn an_empty_stored_token_counts_as_missing() {
    let step = get_api_key("gitlab.example.com", KeyEvent::Stored(Some(String::new())));
    assert_eq!(step, prompt("gitlab.example.com"));
}

#[test]
fn an_entered_token_is_stored_without_the_space_around_it() {
    let step = get_api_key("github.com", KeyEvent::Entered(String::from("  abc123\n")));
    assert_eq!(step, KeyStep::Store(String::from("abc123")));
    let step = get_api_key("github.com", KeyEvent::Entered(String::from("a b\t")));
    assert_eq!(step, KeyStep::Store(String::from("a b")));
}

#[test]
fn an_empty_entry_is_stored_and_not_asked_for_again() {
    let step = get_api_key("github.com", KeyEvent::Entered(String::from(" \n")));
    assert_eq!(step, KeyStep::Store(String::new()));
}
