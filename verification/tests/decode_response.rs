use cargo_code_search::model::{ApiError, Repo};

const FIXTURE: &str = r#"{
  "total_count": 2,
  "incomplete_results": false,
  "items": [
    {
      "name": "Cargo.toml",
      "repository": {
        "id": 1,
        "html_url": "https://github.com/a/b",
        "description": "x",
        "fork": false
      },
      "score": 1.0
    },
    {
      "repository": {
        "html_url": "https://github.com/c/d",
        "description": ""
      }
    }
  ]
}"#;

#[test]
fn round_trip_fixture_decodes_and_renders_in_order() {
    let repo = Repo::from_response(200, FIXTURE).unwrap();
    assert_eq!(repo.items.len(), 2);
    assert_eq!(repo.items[0].repository.html_url, "https://github.com/a/b");
    assert_eq!(repo.items[0].repository.description, "x");
    assert_eq!(repo.items[1].repository.html_url, "https://github.com/c/d");
    assert_eq!(repo.items[1].repository.description, "");

    let table = repo.get_table();
    let first = table.find("https://github.com/a/b").unwrap();
    let second = table.find("https://github.com/c/d").unwrap();
    assert!(first < second);
    let lines: Vec<&str> = table.lines().collect();
    assert_eq!(lines.len(), 4);
    let second_row = format!(
        "{0: <1} │ {1: <50} │ {2: <100}",
        1, "https://github.com/c/d", ""
    );
    assert_eq!(lines[3], second_row);
}

#[test]
fn status_403_is_fatal_with_that_code() {
    let r = Repo::from_response(403, FIXTURE);
    assert!(matches!(r, Err(ApiError::Status(403))));
}

#[test]
fn any_non_200_status_reports_its_code() {
    assert!(matches!(Repo::from_response(401, "{}"), Err(ApiError::Status(401))));
    assert!(matches!(Repo::from_response(404, "{}"), Err(ApiError::Status(404))));
    assert!(matches!(Repo::from_response(429, "{}"), Err(ApiError::Status(429))));
    assert!(matches!(Repo::from_response(500, "{}"), Err(ApiError::Status(500))));
}

#[test]
fn missing_items_list_is_a_decode_error() {
    let r = Repo::from_response(200, r#"{"total_count": 0}"#);
    assert!(matches!(r, Err(ApiError::Decode)));
}

#[test]
fn non_json_body_is_a_decode_error() {
    assert!(matches!(Repo::from_response(200, "not json"), Err(ApiError::Decode)));
    assert!(matches!(Repo::from_response(200, ""), Err(ApiError::Decode)));
}

#[test]
fn trailing_text_is_a_decode_error() {
    let r = Repo::from_response(200, r#"{"items": []} extra"#);
    assert!(matches!(r, Err(ApiError::Decode)));
}

#[test]
fn empty_items_list_decodes_to_empty_result_set() {
    let repo = Repo::from_response(200, r#"{"items": []}"#).unwrap();
    assert_eq!(repo.items.len(), 0);
}

#[test]
fn null_description_decodes_to_empty_text() {
    let body = r#"{"items":[{"repository":{"html_url":"https://github.com/a/b","description":null}}]}"#;
    let repo = Repo::from_response(200, body).unwrap();
    assert_eq!(repo.items[0].repository.description, "");
}

#[test]
fn absent_description_decodes_to_empty_text() {
    let body = r#"{"items":[{"repository":{"html_url":"https://github.com/a/b"}}]}"#;
    let repo = Repo::from_response(200, body).unwrap();
    assert_eq!(repo.items[0].repository.description, "");
}

#[test]
fn missing_html_url_is_a_decode_error() {
    let body = r#"{"items":[{"repository":{"description":"x"}}]}"#;
    assert!(matches!(Repo::from_response(200, body), Err(ApiError::Decode)));
}

#[test]
fn missing_repository_is_a_decode_error() {
    let body = r#"{"items":[{"name":"Cargo.toml"}]}"#;
    assert!(matches!(Repo::from_response(200, body), Err(ApiError::Decode)));
}

#[test]
fn repeated_member_is_a_decode_error() {
    let body = r#"{"items":[{"repository":{"html_url":"a","html_url":"b"}}]}"#;
    assert!(matches!(Repo::from_response(200, body), Err(ApiError::Decode)));
}

#[test]
fn string_escapes_are_decoded() {
    let body = r#"{"items":[{"repository":{"html_url":"https:\/\/github.com\/a\/b","description":"a \"quoted\" word\nand a tab\t."}}]}"#;
    let repo = Repo::from_response(200, body).unwrap();
    assert_eq!(repo.items[0].repository.html_url, "https://github.com/a/b");
    assert_eq!(
        repo.items[0].repository.description,
        "a \"quoted\" word\nand a tab\t."
    );
}

#[test]
fn unicode_escape_is_not_accepted() {
    let body = r#"{"items":[{"repository":{"html_url":"a","description":"\u0041"}}]}"#;
    assert!(matches!(Repo::from_response(200, body), Err(ApiError::Decode)));
}

#[test]
fn unknown_members_of_any_shape_are_skipped() {
    let body = r#"{
      "a": [1, 2.5, -3e8, true, false, null, "s", [], {}],
      "b": {"nested": {"deep": [{"k": "v"}]}},
      "items": [{"extra": [1, {"x": []}], "repository": {"html_url": "u", "stars": 7}}],
      "c": "after"
    }"#;
    let repo = Repo::from_response(200, body).unwrap();
    assert_eq!(repo.items.len(), 1);
    assert_eq!(repo.items[0].repository.html_url, "u");
}

#[test]
fn non_ascii_text_survives_decoding() {
    let body = "{\"items\":[{\"repository\":{\"html_url\":\"https://github.com/a/b\",\"description\":\"caf\u{e9} — na\u{ef}ve\"}}]}";
    let repo = Repo::from_response(200, body).unwrap();
    assert_eq!(repo.items[0].repository.description, "caf\u{e9} — na\u{ef}ve");
}
