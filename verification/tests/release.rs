//! The release-tag resolver, driven through its plan / finish interface:
//! `plan_release_lookup` decides whether a network call is made at all, and
//! `finish_release_lookup` turns the call's reply into the optional result.

use rwrs_server::release::{
    finish_release_lookup, plan_release_lookup, release_for_tag, repo_version_from_lookup,
    status_is_success,
};
use rwrs_server::text::{split_char, trim_end_char};

#[test]
fn resolver_plans_github_lookup() {
    let req = plan_release_lookup("https://github.com/owner/repo").unwrap();
    assert_eq!(req.owner, "owner");
    assert_eq!(req.repo, "repo");
    assert_eq!(
        req.api_url,
        "https://api.github.com/repos/owner/repo/releases/latest"
    );
}

#[test]
fn resolver_ignores_trailing_slash_and_extra_segments() {
    let req = plan_release_lookup("https://github.com/owner/repo/").unwrap();
    assert_eq!(req.owner, "owner");
    assert_eq!(req.repo, "repo");

    let req2 = plan_release_lookup("https://github.com/owner/repo/releases").unwrap();
    assert_eq!(req2.owner, "owner");
    assert_eq!(req2.repo, "repo");
}

#[test]
fn resolver_rejects_foreign_host() {
    // a URL not matching the expected host pattern plans no network call
    assert!(plan_release_lookup("https://example.com/a/b").is_none());
}

#[test]
fn resolver_rejects_short_url() {
    assert!(plan_release_lookup("https://github.com").is_none());
    assert!(plan_release_lookup("https://github.com/owner").is_none());
    assert!(plan_release_lookup("").is_none());
}

#[test]
fn resolver_404_yields_no_result() {
    let req = plan_release_lookup("https://github.com/owner/repo").unwrap();
    let r = finish_release_lookup(&req, 404, Some("{\"tag_name\":\"v1.0\"}".to_string()));
    assert!(r.is_none());
}

#[test]
fn resolver_extracts_tag_name() {
    let req = plan_release_lookup("https://github.com/owner/repo").unwrap();
    let body = "{\"tag_name\":\"v1.2.3\",\"zipball_url\":\"https://api.github.com/x\"}";
    let (tag, url) = finish_release_lookup(&req, 200, Some(body.to_string())).unwrap();
    assert_eq!(tag, "v1.2.3");
    // the release-page URL is synthesized, not the provider-supplied one
    assert_eq!(url, "https://github.com/owner/repo/releases/tag/v1.2.3");
}

#[test]
fn resolver_tolerates_bad_replies() {
    let req = plan_release_lookup("https://github.com/owner/repo").unwrap();
    // no body at all
    assert!(finish_release_lookup(&req, 200, None).is_none());
    // not JSON
    assert!(finish_release_lookup(&req, 200, Some("not json".to_string())).is_none());
    // JSON without the field
    assert!(finish_release_lookup(&req, 200, Some("{\"name\":\"x\"}".to_string())).is_none());
    // the field is not a string
    assert!(finish_release_lookup(&req, 200, Some("{\"tag_name\":5}".to_string())).is_none());
    // the document is not an object
    assert!(finish_release_lookup(&req, 200, Some("[1,2]".to_string())).is_none());
}

#[test]
fn release_for_tag_synthesizes_url() {
    let req = plan_release_lookup("https://github.com/owner/repo").unwrap();

    let (tag, url) = release_for_tag(&req, Some("v0.9".to_string())).unwrap();
    assert_eq!(tag, "v0.9");
    assert_eq!(url, "https://github.com/owner/repo/releases/tag/v0.9");

    assert!(release_for_tag(&req, None).is_none());
}

#[test]
fn status_success_range() {
    assert!(status_is_success(200));
    assert!(status_is_success(299));
    assert!(!status_is_success(199));
    assert!(!status_is_success(300));
    assert!(!status_is_success(404));
    assert!(!status_is_success(500));
}

#[test]
fn version_entry_from_resolved_release() {
    let v = repo_version_from_lookup(Some((
        "v2.0.0".to_string(),
        "https://github.com/example/android/releases/tag/v2.0.0".to_string(),
    )));
    assert_eq!(v.version, Some("v2.0.0".to_string()));
    assert_eq!(
        v.url,
        Some("https://github.com/example/android/releases/tag/v2.0.0".to_string())
    );

    let none = repo_version_from_lookup(None);
    assert!(none.version.is_none());
    assert!(none.url.is_none());
}

#[test]
fn split_keeps_empty_fields() {
    let parts = split_char("https://github.com/owner/repo", '/');
    assert_eq!(
        parts,
        vec!["https:", "", "github.com", "owner", "repo"]
    );

    assert_eq!(split_char("", '/'), vec![""]);
    assert_eq!(split_char("a//b", '/'), vec!["a", "", "b"]);
    assert_eq!(split_char("/", '/'), vec!["", ""]);
}

#[test]
fn trim_removes_only_trailing() {
    assert_eq!(trim_end_char("abc///", '/'), "abc");
    assert_eq!(trim_end_char("a/b", '/'), "a/b");
    assert_eq!(trim_end_char("///", '/'), "");
    assert_eq!(trim_end_char("", '/'), "");
}
