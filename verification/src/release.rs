//! Release-tag resolver: given a repository URL, plan the provider's
//! "latest release" API call, and turn its reply into a release tag and a
//! canonical release-page URL.
//!
//! The resolver is best-effort decoration of a version report: every failure
//! mode — a URL that does not match the expected host pattern, a non-success
//! HTTP status, an unreadable or unexpected reply — collapses to "no result",
//! never to an error.  The HTTP call itself is performed by the caller
//! between `plan_release_lookup` and `finish_release_lookup`.

use vstd::prelude::*;
use vstd::string::*;

use crate::text::{spec_split, spec_trim_end, split_char, str_eq, trim_end_char};

verus! {

/// The slash-delimited segments of a repository URL, trailing slashes
/// dropped first: `scheme://host/owner/repo[/...]` yields
/// `[scheme:, "", host, owner, repo, ...]`.
pub open spec fn repo_url_segments(s: Seq<char>) -> Seq<Seq<char>> {
    spec_split(spec_trim_end(s, '/'), '/')
}

/// A repository URL the resolver accepts: at least five slash-delimited
/// segments, and the host segment is the known hosting domain.
pub open spec fn repo_url_ok(s: Seq<char>) -> bool {
    &&& repo_url_segments(s).len() >= 5
    &&& repo_url_segments(s)[2] == "github.com"@
}

/// The provider's "latest release" API URL for a repository.
pub open spec fn api_url_spec(owner: Seq<char>, repo: Seq<char>) -> Seq<char> {
    "https://api.github.com/repos/"@ + owner + "/"@ + repo + "/releases/latest"@
}

/// The canonical release-page URL, synthesized from the owner, the
/// repository and the tag — not taken from the provider's reply.
pub open spec fn release_url_spec(owner: Seq<char>, repo: Seq<char>, tag: Seq<char>) -> Seq<char> {
    "https://github.com/"@ + owner + "/"@ + repo + "/releases/tag/"@ + tag
}

/// An upstream HTTP status in the success range.
pub open spec fn spec_status_is_success(code: u16) -> bool {
    200 <= code < 300
}

pub fn status_is_success(code: u16) -> (r: bool)
    ensures
        r == spec_status_is_success(code),
{
    200 <= code && code < 300
}

/// A planned "latest release" API call: the owner and repository taken from
/// the configured URL, and the API URL to fetch.
pub struct ReleaseRequest {
    pub owner: String,
    pub repo: String,
    pub api_url: String,
}

impl ReleaseRequest {
    /// The API URL is the one the owner and repository determine.
    pub open spec fn wf(self) -> bool {
        self.api_url@ == api_url_spec(self.owner@, self.repo@)
    }
}

/// Parse a configured repository URL and plan the API call for it.
/// Returns `None` — and the caller then makes no network call at all —
/// exactly when the URL does not match the expected host pattern.
pub fn plan_release_lookup(repo_url: &str) -> (r: Option<ReleaseRequest>)
    ensures
        r is Some <==> repo_url_ok(repo_url@),
        r matches Some(req) ==> {
            &&& req.owner@ == repo_url_segments(repo_url@)[3]
            &&& req.repo@ == repo_url_segments(repo_url@)[4]
            &&& req.wf()
        },
{
    let trimmed: &str = trim_end_char(repo_url, '/');
    let parts: Vec<String> = split_char(trimmed, '/');
    if parts.len() < 5 {
        return None;
    }
    if !str_eq(parts[2].as_str(), "github.com") {
        return None;
    }
    let owner: String = parts[3].clone();
    let repo: String = parts[4].clone();
    let api_url: String = build_api_url(owner.as_str(), repo.as_str());
    Some(ReleaseRequest { owner, repo, api_url })
}

/// The provider's "latest release" API URL for the given repository.
pub fn build_api_url(owner: &str, repo: &str) -> (r: String)
    ensures
        r@ == api_url_spec(owner@, repo@),
{
    let mut url: String = String::from_str("https://api.github.com/repos/");
    url.append(owner);
    url.append("/");
    url.append(repo);
    url.append("/releases/latest");
    url
}

/// The canonical release-page URL for a tag of the given repository.
pub fn build_release_url(owner: &str, repo: &str, tag: &str) -> (r: String)
    ensures
        r@ == release_url_spec(owner@, repo@, tag@),
{
    let mut url: String = String::from_str("https://github.com/");
    url.append(owner);
    url.append("/");
    url.append(repo);
    url.append("/releases/tag/");
    url.append(tag);
    url
}

/// The `tag_name` string field of a JSON document: `Some` exactly when the
/// text parses to JSON whose `tag_name` member is a string, holding that
/// string.  The result depends on the text alone.
pub uninterp spec fn spec_tag_name(body: Seq<char>) -> Option<Seq<char>>;

/// Relies on `serde_json::from_str`, `serde_json::Value::get` and
/// `serde_json::Value::as_str`: parses the text, looks the `tag_name` member
/// up, and reads it as a string; each step yields `None` when its input does
/// not fit (malformed JSON, not an object, member absent or not a string).
/// The composite is deterministic in the text, named `spec_tag_name`.
#[verifier::external_body]
fn extract_tag_name(body: &str) -> (r: Option<String>)
    ensures
        r is Some <==> spec_tag_name(body@) is Some,
        r matches Some(t) ==> t@ == spec_tag_name(body@)->Some_0,
{
    match serde_json::from_str::<serde_json::Value>(body).ok() {
        None => None,
        Some(v) => match v.get("tag_name") {
            None => None,
            Some(t) => t.as_str().map(|s| s.to_owned()),
        },
    }
}

/// The resolver's result for an extracted tag: no tag, no result; a tag is
/// returned together with the release-page URL synthesized for it.
pub fn release_for_tag(req: &ReleaseRequest, tag: Option<String>) -> (r: Option<(String, String)>)
    ensures
        r is Some <==> tag is Some,
        r matches Some(p) ==> {
            &&& tag matches Some(t) && p.0 == t
            &&& p.1@ == release_url_spec(req.owner@, req.repo@, p.0@)
        },
{
    match tag {
        None => None,
        Some(t) => {
            let url: String = build_release_url(req.owner.as_str(), req.repo.as_str(), t.as_str());
            Some((t, url))
        },
    }
}

/// Turn the reply of a planned API call into the resolver's result: a
/// result exactly when the status is a success and the body carries a
/// `tag_name` string, and it is that tag together with the release-page URL
/// synthesized for it.  A non-success status, a missing body, or a body
/// without the field all yield "no result".
pub fn finish_release_lookup(req: &ReleaseRequest, status_code: u16, body: Option<String>) -> (r:
    Option<(String, String)>)
    ensures
        r is Some <==> (spec_status_is_success(status_code) && body is Some && spec_tag_name(
            (body->Some_0)@,
        ) is Some),
        r matches Some(p) ==> {
            &&& p.0@ == spec_tag_name((body->Some_0)@)->Some_0
            &&& p.1@ == release_url_spec(req.owner@, req.repo@, p.0@)
        },
{
    if !status_is_success(status_code) {
        return None;
    }
    let text: String = match body {
        Some(t) => t,
        None => {
            return None;
        },
    };
    release_for_tag(req, extract_tag_name(text.as_str()))
}

/// The optional release tag and URL of one configured repository, as the
/// version report carries them: both present on a resolved release, both
/// absent when the repository is not configured or resolution failed.
pub struct RepoVersion {
    pub version: Option<String>,
    pub url: Option<String>,
}

/// The version report: one entry per distributed component.
pub struct VersionInfo {
    pub android: RepoVersion,
    pub web: RepoVersion,
}

/// The report entry for one repository's resolution outcome.
pub fn repo_version_from_lookup(r: Option<(String, String)>) -> (v: RepoVersion)
    ensures
        match r {
            Some(p) => v.version == Some(p.0) && v.url == Some(p.1),
            None => v.version is None && v.url is None,
        },
{
    match r {
        Some((version, url)) => RepoVersion { version: Some(version), url: Some(url) },
        None => RepoVersion { version: None, url: None },
    }
}

} // verus!
