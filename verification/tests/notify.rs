use deploy_notify::json::to_json;
use deploy_notify::message::{build_notification, get_build_info, get_git_info, get_header, Block};
use deploy_notify::report::{DeploymentReport, Status};
use deploy_notify::transport::delivery_diagnostic;

fn report(
    status: Status,
    git_commit: Option<&str>,
    git_message: Option<&str>,
) -> DeploymentReport {
    DeploymentReport::new(
        "http://hook.example/x".to_string(),
        "#deploys".to_string(),
        status,
        "api".to_string(),
        "prod".to_string(),
        "alice".to_string(),
        "1.2.3".to_string(),
        42,
        "http://ci/42".to_string(),
        git_commit.map(|s| s.to_string()),
        git_message.map(|s| s.to_string()),
    )
}

fn block_text(b: &Block) -> &str {
    match b {
        Block::Text(t) => t,
        Block::Fields(_) => panic!("expected a text block"),
    }
}

fn block_fields(b: &Block) -> &[String] {
    match b {
        Block::Text(_) => panic!("expected a fields block"),
        Block::Fields(fs) => fs,
    }
}

#[test]
fn success_without_commit_has_two_blocks() {
    let n = build_notification(&report(Status::Success, None, None));
    assert_eq!(n.blocks.len(), 2);
    assert_eq!(
        block_text(&n.blocks[0]),
        ":white_check_mark: Deployment of *api* to *prod* successful."
    );
}

#[test]
fn failure_with_commit_has_three_blocks() {
    let n = build_notification(&report(Status::Failure, Some("abc123"), Some("fix bug")));
    assert_eq!(n.blocks.len(), 3);
    assert_eq!(
        block_text(&n.blocks[0]),
        ":no_entry: Deployment of *api* to *prod* failed."
    );
    assert_eq!(block_text(&n.blocks[2]), "```Commit: abc123\nfix bug```");
}

#[test]
fn notification_names_and_channel() {
    let n = build_notification(&report(Status::Success, None, None));
    assert_eq!(n.username, "Bitbucket Pipelines");
    assert_eq!(n.channel, "#deploys");
}

#[test]
fn header_tokens_by_status() {
    let ok = build_notification(&report(Status::Success, None, None));
    assert!(block_text(&ok.blocks[0]).starts_with(":white_check_mark:"));
    let bad = build_notification(&report(Status::Failure, None, None));
    assert!(block_text(&bad.blocks[0]).starts_with(":no_entry:"));
}

#[test]
fn block_order_is_header_then_fields() {
    let n = build_notification(&report(Status::Failure, Some("c"), Some("m")));
    assert!(matches!(n.blocks[0], Block::Text(_)));
    assert!(matches!(n.blocks[1], Block::Fields(_)));
    assert!(matches!(n.blocks[2], Block::Text(_)));
}

#[test]
fn info_block_has_three_fields_in_order() {
    let b = get_build_info(&report(Status::Success, None, None));
    let fields = block_fields(&b);
    assert_eq!(
        fields,
        &[
            "*Version:*\n1.2.3".to_string(),
            "*Build:*\n<http://ci/42|42>".to_string(),
            "*Triggered by:*\nalice".to_string(),
        ]
    );
}

#[test]
fn build_field_renders_large_numbers() {
    let r = DeploymentReport::new(
        "h".to_string(),
        "c".to_string(),
        Status::Success,
        "s".to_string(),
        "e".to_string(),
        "u".to_string(),
        "v".to_string(),
        usize::MAX,
        "url".to_string(),
        None,
        None,
    );
    let b = get_build_info(&r);
    assert_eq!(block_fields(&b)[1], format!("*Build:*\n<url|{}>", usize::MAX));
}

#[test]
fn build_field_renders_zero() {
    let r = DeploymentReport::new(
        "h".to_string(),
        "c".to_string(),
        Status::Success,
        "s".to_string(),
        "e".to_string(),
        "u".to_string(),
        "v".to_string(),
        0,
        "url".to_string(),
        None,
        None,
    );
    let b = get_build_info(&r);
    assert_eq!(block_fields(&b)[1], "*Build:*\n<url|0>");
}

#[test]
fn header_block_alone() {
    let b = get_header(&report(Status::Success, None, None));
    assert_eq!(
        block_text(&b),
        ":white_check_mark: Deployment of *api* to *prod* successful."
    );
}

#[test]
fn commit_block_needs_both_parts() {
    assert!(get_git_info(&report(Status::Success, None, None)).is_none());
    assert!(get_git_info(&report(Status::Success, Some("c"), None)).is_none());
    assert!(get_git_info(&report(Status::Success, None, Some("m"))).is_none());
    let b = get_git_info(&report(Status::Success, Some("c"), Some("m"))).unwrap();
    assert_eq!(block_text(&b), "```Commit: c\nm```");
}

#[test]
fn commit_pair_drops_half_supplied_input() {
    let r = report(Status::Success, Some("c"), None);
    assert!(r.commit.is_none());
    let r = report(Status::Success, Some("c"), Some("m"));
    let ci = r.commit.unwrap();
    assert_eq!(ci.commit, "c");
    assert_eq!(ci.message, "m");
}

#[test]
fn block_constructors() {
    let t = Block::text("hello".to_string());
    assert_eq!(block_text(&t), "hello");
    let f = Block::fields(&["a".to_string(), "b".to_string()]);
    assert_eq!(block_fields(&f), &["a".to_string(), "b".to_string()]);
}

#[test]
fn json_exact_wire_form() {
    let n = build_notification(&report(Status::Success, None, None));
    let s = to_json(&n);
    let expected = "{\"username\":\"Bitbucket Pipelines\",\"channel\":\"#deploys\",\"blocks\":[{\"type\":\"section\",\"text\":{\"type\":\"mrkdwn\",\"text\":\":white_check_mark: Deployment of *api* to *prod* successful.\"}},{\"type\":\"section\",\"fields\":[{\"type\":\"mrkdwn\",\"text\":\"*Version:*\\n1.2.3\"},{\"type\":\"mrkdwn\",\"text\":\"*Build:*\\n<http://ci/42|42>\"},{\"type\":\"mrkdwn\",\"text\":\"*Triggered by:*\\nalice\"}]}]}";
    assert_eq!(s, expected);
}

#[test]
fn round_trip_keys_without_commit() {
    let n = build_notification(&report(Status::Success, None, None));
    let v: serde_json::Value = serde_json::from_str(&to_json(&n)).unwrap();
    let obj = v.as_object().unwrap();
    let mut keys: Vec<&str> = obj.keys().map(|k| k.as_str()).collect();
    keys.sort();
    assert_eq!(keys, vec!["blocks", "channel", "username"]);
    assert_eq!(obj["username"], "Bitbucket Pipelines");
    assert_eq!(obj["channel"], "#deploys");
    let blocks = obj["blocks"].as_array().unwrap();
    assert_eq!(blocks.len(), 2);
    for b in blocks {
        let bo = b.as_object().unwrap();
        assert_eq!(bo["type"], "section");
        assert!(bo.contains_key("text") != bo.contains_key("fields"));
    }
    assert_eq!(
        blocks[0]["text"]["text"],
        ":white_check_mark: Deployment of *api* to *prod* successful."
    );
    assert_eq!(blocks[0]["text"]["type"], "mrkdwn");
}

#[test]
fn round_trip_keys_with_commit() {
    let n = build_notification(&report(Status::Failure, Some("abc123"), Some("fix bug")));
    let v: serde_json::Value = serde_json::from_str(&to_json(&n)).unwrap();
    let obj = v.as_object().unwrap();
    assert_eq!(obj.len(), 3);
    let blocks = obj["blocks"].as_array().unwrap();
    assert_eq!(blocks.len(), 3);
    for b in blocks {
        let bo = b.as_object().unwrap();
        assert_eq!(bo.len(), 2);
        assert_eq!(bo["type"], "section");
        assert!(bo.contains_key("text") != bo.contains_key("fields"));
    }
    let fields = blocks[1]["fields"].as_array().unwrap();
    assert_eq!(fields.len(), 3);
    assert_eq!(fields[0]["text"], "*Version:*\n1.2.3");
    assert_eq!(fields[1]["text"], "*Build:*\n<http://ci/42|42>");
    assert_eq!(fields[2]["text"], "*Triggered by:*\nalice");
    assert_eq!(blocks[2]["text"]["text"], "```Commit: abc123\nfix bug```");
}

#[test]
fn round_trip_escapes_special_characters() {
    let r = DeploymentReport::new(
        "h".to_string(),
        "quote \" backslash \\ newline \n tab \t cr \r bell \u{7} accent é".to_string(),
        Status::Success,
        "svc \"x\"".to_string(),
        "env\\path".to_string(),
        "a\nb".to_string(),
        "v".to_string(),
        7,
        "u".to_string(),
        Some("c\u{1}d".to_string()),
        Some("line1\nline2".to_string()),
    );
    let n = build_notification(&r);
    let v: serde_json::Value = serde_json::from_str(&to_json(&n)).unwrap();
    assert_eq!(
        v["channel"],
        "quote \" backslash \\ newline \n tab \t cr \r bell \u{7} accent é"
    );
    let blocks = v["blocks"].as_array().unwrap();
    assert_eq!(
        blocks[0]["text"]["text"],
        ":white_check_mark: Deployment of *svc \"x\"* to *env\\path* successful."
    );
    assert_eq!(blocks[2]["text"]["text"], "```Commit: c\u{1}d\nline1\nline2```");
}

#[test]
fn diagnostic_on_server_rejection() {
    let d = delivery_diagnostic(500, "{\"error\":\"bad channel\"}").unwrap();
    assert!(d.contains("{\"error\":\"bad channel\"}"));
    assert_eq!(d, "Error posting to slack: HTTP 500: {\"error\":\"bad channel\"}");
}

#[test]
fn diagnostic_only_outside_success_range() {
    assert!(delivery_diagnostic(200, "ok").is_none());
    assert!(delivery_diagnostic(204, "").is_none());
    assert!(delivery_diagnostic(299, "x").is_none());
    assert!(delivery_diagnostic(300, "x").is_some());
    assert!(delivery_diagnostic(199, "x").is_some());
    assert!(delivery_diagnostic(404, "not found").is_some());
}
