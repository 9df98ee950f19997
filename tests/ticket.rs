use ginsp::config::{ProjectManagement, ProjectManagementProvider};
use ginsp::error::GinspError;
use ginsp::reconcile::CommitInfo;
use ginsp::ticket::{
    extract_ticket_number, get_ticket_status, map_ticket_status, ticket_requests,
    try_extract_ticket_number, Jira, TicketPattern,
};

fn commit(hash: &str, message: &str) -> CommitInfo {
    CommitInfo { hash: hash.to_string(), message: message.to_string(), status: None, is_picked: false }
}

fn settings(key: &str) -> ProjectManagement {
    ProjectManagement {
        provider: ProjectManagementProvider::Jira,
        url: "https://tracker.example/rest/api/2/issue/:ticket_id".to_string(),
        credential_key: key.to_string(),
        ticket_id_regex: r"^\[(\w+-\d+)]".to_string(),
    }
}

#[test]
fn test_extract_ticket_number() {
    let cases = vec![
        vec!["[JIRA-123] This is a test message", r"^\[(\w+-\d+)]", "JIRA-123"],
        vec!["(JIRA-123) This is a test message", r"^\((\w+-\d+)\)", "JIRA-123"],
        vec!["JIRA-123 This is a test message", r"^(\w+-\d+)", "JIRA-123"],
    ];

    for case in cases {
        let message = case[0];
        let pattern = case[1];
        let expected = case[2];
        let ticket_number = extract_ticket_number(message, pattern);
        assert_eq!(ticket_number, Some(expected.to_string()));
    }
}

#[test]
fn extract_without_match_gives_none() {
    assert_eq!(extract_ticket_number("plain message", r"^\[(\w+-\d+)]"), None);
}

#[test]
fn invalid_pattern_is_an_error() {
    let r = try_extract_ticket_number("[T-1] fix", r"^\[(\w+");
    assert!(matches!(r, Err(GinspError::InvalidTicketPattern(_))));
    assert!(TicketPattern::new("(").is_err());
    let ok = try_extract_ticket_number("[T-1] fix", r"^\[(\w+-\d+)]");
    assert_eq!(ok.unwrap(), Some("T-1".to_string()));
}

#[test]
fn enrichment_degrades_to_no_status() {
    let commits = vec![
        commit("aaaaaaa", "[T-1] fix"),
        commit("bbbbbbb", "no ticket here"),
        commit("ccccccc", "[T-2] feat"),
    ];
    let pattern = TicketPattern::new(r"^\[(\w+-\d+)]").unwrap();
    let requested = ticket_requests(&commits, &pattern);
    assert_eq!(requested, vec![Some("T-1".to_string()), None, Some("T-2".to_string())]);

    let fetched = vec![
        Some(Ok("Done".to_string())),
        None,
        Some(Err(GinspError::ProviderUnavailable { status: 500, detail: "down".to_string() })),
    ];
    let out = map_ticket_status(commits, &requested, fetched);
    assert_eq!(out.len(), 3);
    assert_eq!(out[0].status, Some("Done".to_string()));
    assert_eq!(out[1].status, None);
    assert_eq!(out[2].status, None);
    assert_eq!(out[1].hash, "bbbbbbb");
    assert_eq!(out[2].message, "[T-2] feat");
}

#[test]
fn no_identifier_means_no_status_even_if_fetched() {
    let commits = vec![commit("aaaaaaa", "chore")];
    let requested = vec![None];
    let out = map_ticket_status(commits, &requested, vec![Some(Ok("Done".to_string()))]);
    assert_eq!(out[0].status, None);
}

#[test]
fn request_fills_url_and_splits_credential() {
    let q = get_ticket_status("T-7", &settings("alice:s3:cret")).unwrap();
    assert_eq!(q.url, "https://tracker.example/rest/api/2/issue/T-7");
    assert_eq!(q.username, "alice");
    assert_eq!(q.password, "s3:cret");
}

#[test]
fn credential_without_colon_is_an_error() {
    let r = get_ticket_status("T-7", &settings("alice"));
    assert!(matches!(r, Err(GinspError::InvalidCredentialKey)));
}

#[test]
fn status_read_from_reply() {
    let body = r#"{"key":"T-1","fields":{"status":{"name":"In Progress"}}}"#;
    assert_eq!(Jira::status_from_response(200, body).unwrap(), "In Progress");
}

#[test]
fn reply_errors_are_provider_errors() {
    let body = r#"{"fields":{"status":{"name":"Done"}}}"#;
    assert!(matches!(
        Jira::status_from_response(404, body),
        Err(GinspError::ProviderUnavailable { status: 404, .. })
    ));
    assert!(matches!(
        Jira::status_from_response(200, "not json"),
        Err(GinspError::ProviderUnavailable { status: 200, .. })
    ));
    assert!(Jira::status_from_response(200, r#"{"fields":3}"#).is_err());
    assert!(Jira::status_from_response(200, r#"{"fields":{"status":{}}}"#).is_err());
    assert!(Jira::status_from_response(200, r#"{"fields":{"status":{"name":7}}}"#).is_err());
}

#[test]
fn missing_fetch_outcomes_mean_no_status() {
    let commits = vec![commit("aaaaaaa", "[T-1] fix"), commit("bbbbbbb", "[T-2] feat")];
    let requested = vec![Some("T-1".to_string()), Some("T-2".to_string())];
    let out = map_ticket_status(commits, &requested, vec![Some(Ok("Done".to_string()))]);
    assert_eq!(out.len(), 2);
    assert_eq!(out[0].status, Some("Done".to_string()));
    assert_eq!(out[1].status, None);
    assert_eq!(out[1].hash, "bbbbbbb");
}

#[test]
fn reply_without_fields_object_is_an_error() {
    assert!(matches!(
        Jira::status_from_response(200, r#"{"key":"T-1"}"#),
        Err(GinspError::ProviderUnavailable { status: 200, .. })
    ));
    assert!(Jira::status_from_response(200, r#"[1,2]"#).is_err());
    assert!(Jira::status_from_response(200, r#"{"fields":{"status":"Done"}}"#).is_err());
}
