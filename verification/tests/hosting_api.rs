use syncgit::error::GitError;
use syncgit::hosting::{
    answer_or_default, bearer, created_urls, creation_request_body, describe_api_failure,
    frame_creation, identity_login, is_name_conflict, is_valid_name, json_literal,
    login_or_unknown,
    repository_page_url, urls_from_members, RepoUrls,
};

fn parsed(body: &str) -> serde_json::Value {
    serde_json::from_str(body).unwrap()
}

#[test]
fn valid_names_use_a_restricted_set() {
    for name in ["proj", "my-proj_2.0", "a", "Ünïcode", "123", ".", "-"] {
        assert!(is_valid_name(name), "{:?}", name);
    }
    for name in ["", "my proj", "a/b", "semi;colon", "tab\t", "q?", "new\nline", "a b"] {
        assert!(!is_valid_name(name), "{:?}", name);
    }
}

#[test]
fn blank_answer_takes_the_default() {
    assert_eq!(answer_or_default("", "proj"), "proj");
    assert_eq!(answer_or_default("  \n", "proj"), "proj");
    assert_eq!(answer_or_default("  other \n", "proj"), "other");
    assert_eq!(answer_or_default("", ""), "");
}

#[test]
fn conflict_is_a_422_that_says_so() {
    assert!(is_name_conflict(422, "{\"message\":\"name already exists on this account\"}"));
    assert!(!is_name_conflict(422, "{\"message\":\"name is invalid\"}"));
    assert!(!is_name_conflict(409, "already exists"));
    assert!(!is_name_conflict(200, "already exists"));
}

#[test]
fn failures_are_explained_by_status() {
    assert_eq!(
        describe_api_failure(401, "Bad credentials"),
        "Authentication failed. Please check your GitHub token. Error: Bad credentials"
    );
    assert_eq!(
        describe_api_failure(422, "name is invalid"),
        "Invalid repository name or repository already exists. Error: name is invalid"
    );
    assert_eq!(
        describe_api_failure(403, "scope"),
        "Permission denied. Your token may not have 'repo' scope. Error: scope"
    );
    assert_eq!(describe_api_failure(500, "oops"), "GitHub API error (status 500): oops");
    assert_eq!(describe_api_failure(0, ""), "GitHub API error (status 0): ");
}

#[test]
fn credential_is_a_bearer() {
    assert_eq!(bearer("SECRET-REDACTED"), "Bearer SECRET-REDACTED");
}

#[test]
fn frame_puts_the_literals_in_an_object() {
    assert_eq!(frame_creation("\"p\"", true, None), "{\"name\":\"p\",\"private\":true}");
    assert_eq!(
        frame_creation("\"p\"", false, Some("\"d\"".to_string())),
        "{\"name\":\"p\",\"private\":false,\"description\":\"d\"}"
    );
}

#[test]
fn request_body_is_json_with_the_fields() {
    let body = creation_request_body("proj", true, "  ");
    let value = parsed(&body);
    assert_eq!(value.get("name").and_then(|v| v.as_str()), Some("proj"));
    assert_eq!(value.get("private").and_then(|v| v.as_bool()), Some(true));
    assert!(value.get("description").is_none());
    assert_eq!(body, "{\"name\":\"proj\",\"private\":true}");
}

#[test]
fn request_body_escapes_its_texts() {
    let body = creation_request_body("pro\"j", false, " say \"hi\"\\ \n");
    let value = parsed(&body);
    assert_eq!(value.get("name").and_then(|v| v.as_str()), Some("pro\"j"));
    assert_eq!(value.get("private").and_then(|v| v.as_bool()), Some(false));
    assert_eq!(value.get("description").and_then(|v| v.as_str()), Some("say \"hi\"\\"));
    assert_eq!(value.as_object().map(|o| o.len()), Some(3));
}

#[test]
fn urls_come_from_the_reply() {
    let body = "{\"id\":1,\"html_url\":\"https://h/o/p\",\"clone_url\":\"https://h/o/p.git\"}";
    assert_eq!(
        created_urls(body),
        Ok(RepoUrls {
            html_url: "https://h/o/p".to_string(),
            clone_url: "https://h/o/p.git".to_string(),
        })
    );
}

#[test]
fn reply_without_urls_is_an_error() {
    assert_eq!(
        created_urls("not json"),
        Err(GitError::Other("Failed to parse GitHub response".to_string()))
    );
    assert_eq!(
        created_urls("{\"clone_url\":\"c\"}"),
        Err(GitError::Other("Failed to get repository URL from GitHub response".to_string()))
    );
    assert_eq!(
        created_urls("{\"html_url\":\"h\"}"),
        Err(GitError::Other("Failed to get clone URL from GitHub response".to_string()))
    );
    assert_eq!(
        created_urls("{\"html_url\":7,\"clone_url\":\"c\"}"),
        Err(GitError::Other("Failed to get repository URL from GitHub response".to_string()))
    );
    assert_eq!(
        created_urls("[\"html_url\",\"clone_url\"]"),
        Err(GitError::Other("Failed to get repository URL from GitHub response".to_string()))
    );
}

#[test]
fn urls_from_members_checks_in_order() {
    assert_eq!(
        urls_from_members(false, Some("h".to_string()), Some("c".to_string())),
        Err(GitError::Other("Failed to parse GitHub response".to_string()))
    );
    assert_eq!(
        urls_from_members(true, None, None),
        Err(GitError::Other("Failed to get repository URL from GitHub response".to_string()))
    );
    assert_eq!(
        urls_from_members(true, Some("h".to_string()), Some("c".to_string())),
        Ok(RepoUrls { html_url: "h".to_string(), clone_url: "c".to_string() })
    );
}

#[test]
fn login_is_read_or_unknown() {
    assert_eq!(identity_login("{\"login\":\"octo\",\"id\":3}"), "octo");
    assert_eq!(identity_login("{\"id\":3}"), "unknown");
    assert_eq!(identity_login("{\"login\":null}"), "unknown");
    assert_eq!(identity_login("<html>"), "unknown");
    assert_eq!(login_or_unknown(None), "unknown");
    assert_eq!(login_or_unknown(Some("me".to_string())), "me");
}

#[test]
fn page_is_under_the_account() {
    assert_eq!(repository_page_url("octo", "proj"), "https://github.com/octo/proj");
}

#[test]
fn calls_carry_the_credential_and_say_what_they_are() {
    let get = syncgit::exchange::ApiCall {
        url: "https://api.github.com/user".to_string(),
        authorization: bearer("SECRET-REDACTED"),
        body: None,
    };
    let pair = |a: &str, b: &str| (a.to_string(), b.to_string());
    assert_eq!(
        syncgit::hosting::call_headers(&get),
        vec![
            pair("User-Agent", "syncgit"),
            pair("Authorization", "Bearer SECRET-REDACTED"),
            pair("Accept", "application/vnd.github.v3+json"),
        ]
    );
    let post = syncgit::exchange::ApiCall {
        url: "https://api.github.com/user/repos".to_string(),
        authorization: bearer("SECRET-REDACTED"),
        body: Some("{}".to_string()),
    };
    let headers = syncgit::hosting::call_headers(&post);
    assert_eq!(headers.len(), 4);
    assert_eq!(headers[3], pair("Content-Type", "application/json"));
}

#[test]
fn literal_is_quoted_and_escaped() {
    assert_eq!(json_literal("proj"), "\"proj\"");
    assert_eq!(json_literal(""), "\"\"");
    assert_eq!(json_literal("a\"b\\c\nd\te"), "\"a\\\"b\\\\c\\nd\\te\"");
    assert_eq!(json_literal("\u{1}é"), "\"\\u0001é\"");
    for s in ["", "plain", "q\"uote", "back\\slash", "line\nfeed", "\u{7f}", "ünï", "\u{0}"] {
        let parsed: String = serde_json::from_str(&json_literal(s)).unwrap();
        assert_eq!(parsed, s);
    }
}
