use loadbench::settings::{operation_from_words, url_from_words};
use loadbench::{Args, Operation, Settings};

fn settings_for(target: &str) -> Settings {
    let args = Args {
        target: target.to_string(),
        request_body: None,
        clients: 0,
        iterations: 0,
    };
    Settings::from_args(args, None)
}

#[test]
fn should_set_get_as_default_operation() {
    let args = Args {
        target: "https://localhost:3000".to_string(),
        request_body: None,
        clients: 0,
        iterations: 0,
    };

    let settings = Settings::from_args(args, None);
    assert_eq!(Operation::Get, settings.operation());
}

#[test]
fn should_get_operation_from_target() {
    let args = Args {
        target: "POST https://localhost:3000".to_string(),
        request_body: None,
        clients: 0,
        iterations: 0,
    };

    let settings = Settings::from_args(args, None);
    assert_eq!(Operation::Post, settings.operation());
}

#[test]
fn should_get_target_from_target_without_operation() {
    let args = Args {
        target: "https://localhost:3000".to_string(),
        request_body: None,
        clients: 0,
        iterations: 0,
    };

    let settings = Settings::from_args(args, None);
    assert_eq!("https://localhost:3000", settings.target());
}

#[test]
fn should_get_target_from_target_with_operation() {
    let args = Args {
        target: "POST https://localhost:3000".to_string(),
        request_body: None,
        clients: 0,
        iterations: 0,
    };

    let settings = Settings::from_args(args, None);
    assert_eq!("https://localhost:3000", settings.target());
}

#[test]
fn should_set_get_operation_if_operation_is_not_allowed() {
    let args = Args {
        target: "FOO https://localhost:3000".to_string(),
        request_body: None,
        clients: 0,
        iterations: 0,
    };

    let settings = Settings::from_args(args, None);
    assert_eq!(Operation::Get, settings.operation());
}

#[test]
fn bare_url_is_get_and_kept_whole() {
    let s = settings_for("https://x/y");
    assert_eq!(Operation::Get, s.operation());
    assert_eq!("https://x/y", s.target());
}

#[test]
fn method_prefix_is_stripped_from_url() {
    let s = settings_for("POST https://x/y");
    assert_eq!(Operation::Post, s.operation());
    assert_eq!("https://x/y", s.target());
}

#[test]
fn unknown_method_falls_back_to_get() {
    let s = settings_for("FOO https://x/y");
    assert_eq!(Operation::Get, s.operation());
    assert_eq!("https://x/y", s.target());
}

#[test]
fn lower_case_methods_are_recognised() {
    assert_eq!(Operation::Get, settings_for("get https://x/y").operation());
    assert_eq!(Operation::Post, settings_for("post https://x/y").operation());
    assert_eq!(Operation::Head, settings_for("head https://x/y").operation());
    assert_eq!(Operation::Patch, settings_for("Patch https://x/y").operation());
    assert_eq!(Operation::Put, settings_for("pUt https://x/y").operation());
    assert_eq!(Operation::Delete, settings_for("delete https://x/y").operation());
}

#[test]
fn surrounding_whitespace_is_ignored() {
    let s = settings_for("  \tPUT   https://x/y \n");
    assert_eq!(Operation::Put, s.operation());
    assert_eq!("https://x/y", s.target());
}

#[test]
fn empty_target_has_empty_url() {
    let s = settings_for("   ");
    assert_eq!(Operation::Get, s.operation());
    assert_eq!("", s.target());
}

#[test]
fn tokens_map_to_methods() {
    assert_eq!(Operation::Get, Operation::from_token("GET"));
    assert_eq!(Operation::Post, Operation::from_token("POST"));
    assert_eq!(Operation::Head, Operation::from_token("HEAD"));
    assert_eq!(Operation::Patch, Operation::from_token("PATCH"));
    assert_eq!(Operation::Put, Operation::from_token("PUT"));
    assert_eq!(Operation::Delete, Operation::from_token("DELETE"));
    assert_eq!(Operation::Get, Operation::from_token("post"));
    assert_eq!(Operation::Get, Operation::from_token("CONNECT"));
    assert_eq!(Operation::Get, Operation::from_token(""));
}

#[test]
fn words_select_method_and_url() {
    let one = vec!["https://x/y".to_string()];
    assert_eq!(Operation::Get, operation_from_words(&one));
    assert_eq!("https://x/y", url_from_words(&one));
    let two = vec!["delete".to_string(), "https://x/y".to_string()];
    assert_eq!(Operation::Delete, operation_from_words(&two));
    assert_eq!("https://x/y", url_from_words(&two));
    let none: Vec<String> = vec![];
    assert_eq!(Operation::Get, operation_from_words(&none));
    assert_eq!("", url_from_words(&none));
}

#[test]
fn requests_by_client_drops_remainder() {
    let args = Args {
        target: "https://x/y".to_string(),
        request_body: None,
        clients: 3,
        iterations: 10,
    };
    let s = Settings::from_args(args, Some("{}".to_string()));
    assert_eq!(3, s.requests_by_client());
    assert_eq!(Some("{}".to_string()), s.body);
    assert_eq!(None, s.keep_alive);
}
