use tcui::decode::str_equal;
use tcui::fetch::{build_request, read_response, status_error, BUILD_FIELDS};
use tcui::json::{Json, Member};
use tcui::teamcity::Build;
use tcui::teamcity::FetchError;

#[test]
fn request_targets_latest_build_on_branch() {
    let r = build_request("SECRET-REDACTED", "https://ci.example", "Proj_Build", "feature/x");
    assert_eq!(
        r.url,
        "https://ci.example/app/rest/builds/buildType:Proj_Build,defaultFilter:false,branch:name:feature/x"
    );
    assert_eq!(r.authorization, "Bearer SECRET-REDACTED");
}

#[test]
fn request_fields_cover_dependencies() {
    let r = build_request("t", "r", "b", "m");
    let expected = "number,status,state,statusText,webUrl,buildType(name),running-info(percentageComplete,elapsedSeconds,estimatedTotalSeconds,outdated,probablyHanging)";
    assert_eq!(BUILD_FIELDS, expected);
    assert_eq!(
        r.fields,
        format!("{},snapshot-dependencies(build({}))", expected, expected)
    );
}

#[test]
fn status_codes_map_to_errors() {
    assert_eq!(status_error(200), None);
    assert_eq!(status_error(204), None);
    assert_eq!(status_error(299), None);
    assert_eq!(status_error(401), Some(FetchError::AuthError));
    assert_eq!(status_error(403), Some(FetchError::AuthError));
    assert_eq!(status_error(404), Some(FetchError::TransportError));
    assert_eq!(status_error(500), Some(FetchError::TransportError));
    assert_eq!(status_error(199), Some(FetchError::TransportError));
}

#[test]
fn str_equal_compares_characters() {
    assert!(str_equal("queued", "queued"));
    assert!(!str_equal("queued", "Queued"));
    assert!(!str_equal("run", "running"));
}

fn queued_doc() -> Json {
    let member = |key: &str, value: Json| Member {
        key: key.to_string(),
        value,
    };
    Json::Object(vec![
        member("state", Json::Str("queued".to_string())),
        member(
            "buildType",
            Json::Object(vec![member("name", Json::Str("Nightly".to_string()))]),
        ),
        member("webUrl", Json::Str("https://ci/n".to_string())),
    ])
}

#[test]
fn error_status_wins_over_body() {
    let doc = queued_doc();
    assert!(matches!(read_response(401, Some(&doc)), Err(FetchError::AuthError)));
    assert!(matches!(read_response(403, None), Err(FetchError::AuthError)));
    assert!(matches!(read_response(502, Some(&doc)), Err(FetchError::TransportError)));
}

#[test]
fn success_without_json_body_is_decode_error() {
    assert!(matches!(read_response(200, None), Err(FetchError::DecodeError)));
}

#[test]
fn success_with_build_body_reads_build() {
    let doc = queued_doc();
    match read_response(200, Some(&doc)) {
        Ok(Build::Queued { build_type, .. }) => assert_eq!(build_type.name, "Nightly"),
        other => panic!("unexpected {:?}", other),
    }
    let empty = Json::Object(Vec::new());
    assert!(matches!(read_response(200, Some(&empty)), Err(FetchError::EmptyResult)));
}
