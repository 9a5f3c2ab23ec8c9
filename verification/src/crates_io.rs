//! Crate metadata from the crates.io API and optional GitHub repository metrics.
//!
//! The HTTP exchange itself happens outside the library; this module decides which
//! URLs are requested, which responses are accepted, and how the decoded JSON
//! fields become a [`CrateDocInfo`].

use vstd::prelude::*;

use crate::text::{
    before_first, chars_of, lemma_split_absent, lemma_split_found, lemma_trim_end_char_take, chars_range, find_char, split_at_first, string_of, strip_prefix,
    strip_prefix_chars, trim_chars, trim_end_char, trim_end_char_chars, trim_ws,
};

verus! {

/// Largest crates.io response body (1 MiB) that is read.
pub const MAX_RESPONSE_BYTES: u64 = 1024 * 1024;

/// Largest GitHub API response body (64 KiB) that is read.
pub const MAX_GITHUB_RESPONSE_BYTES: u64 = 64 * 1024;

/// Optional GitHub repository metrics (from the GitHub REST API).
#[derive(Clone, Debug)]
pub struct GitHubRepoInfo {
    pub stars: Option<u32>,
    pub forks: Option<u32>,
    pub language: Option<String>,
    pub updated_at: Option<String>,
    pub open_issues_count: Option<u32>,
    pub default_branch: Option<String>,
}

impl Default for GitHubRepoInfo {
    fn default() -> (r: Self)
        ensures
            r.stars is None,
            r.forks is None,
            r.language is None,
            r.updated_at is None,
            r.open_issues_count is None,
            r.default_branch is None,
    {
        GitHubRepoInfo {
            stars: None,
            forks: None,
            language: None,
            updated_at: None,
            open_issues_count: None,
            default_branch: None,
        }
    }
}

/// Crate metadata from crates.io, with GitHub metrics when the repository is on GitHub.
#[derive(Clone, Debug)]
pub struct CrateDocInfo {
    pub name: String,
    pub version: String,
    pub description: Option<String>,
    pub documentation: Option<String>,
    pub homepage: Option<String>,
    pub repository: Option<String>,
    pub github: Option<GitHubRepoInfo>,
}

/// One member of a decoded JSON object: missing, a string, a number that fits
/// `u64`, or some other JSON value.
#[derive(Clone, Debug)]
pub enum JsonField {
    Absent,
    Text(String),
    Unsigned(u64),
    Other,
}

/// The members of the `"crate"` object of a crates.io response that are read.
#[derive(Clone, Debug)]
pub struct CrateObjectFields {
    pub name: JsonField,
    pub description: JsonField,
    pub documentation: JsonField,
    pub homepage: JsonField,
    pub repository: JsonField,
    pub newest_version: JsonField,
    pub max_version: JsonField,
}

/// The members of a GitHub repository object that are read.
#[derive(Clone, Debug)]
pub struct RepoObjectFields {
    pub stargazers_count: JsonField,
    pub forks_count: JsonField,
    pub language: JsonField,
    pub updated_at: JsonField,
    pub open_issues_count: JsonField,
    pub default_branch: JsonField,
}

/// What a JSON document holds at a member, as plain values: nothing, a string, a
/// number that fits `u64`, or another value.
pub enum JsonMember {
    Absent,
    Text(Seq<char>),
    Unsigned(u64),
    Other,
}

/// A decoded member as plain values.
pub open spec fn member_of(f: JsonField) -> JsonMember {
    match f {
        JsonField::Absent => JsonMember::Absent,
        JsonField::Text(s) => JsonMember::Text(s@),
        JsonField::Unsigned(n) => JsonMember::Unsigned(n),
        JsonField::Other => JsonMember::Other,
    }
}

/// What `serde_json` finds in the document `body` at member `key` (of the object at
/// member `outer`, when given); `None` when `body` is not JSON.
pub uninterp spec fn json_member_at(body: Seq<u8>, outer: Option<Seq<char>>, key: Seq<char>) -> Option<
    JsonMember,
>;

/// `serde_json::from_slice` into a `serde_json::Value`, then `Value::get` of `outer`
/// (when given) and of `key`, the member read as a string, as `Value::as_u64`, or as
/// another value. The result is named [`json_member_at`]; nothing more is claimed.
#[verifier::external_body]
fn json_member(body: &[u8], outer: Option<&str>, key: &str) -> (r: Option<JsonField>)
    ensures
        json_member_at(
            body@,
            match outer {
                Some(o) => Some(o@),
                None => None,
            },
            key@,
        ) == match r {
            Some(f) => Some(member_of(f)),
            None => None,
        },
{
    let doc: serde_json::Value = serde_json::from_slice(body).ok()?;
    let obj = match outer {
        Some(o) => match doc.get(o) {
            Some(v) => v,
            None => return Some(JsonField::Absent),
        },
        None => &doc,
    };
    Some(match obj.get(key) {
        None => JsonField::Absent,
        Some(serde_json::Value::String(t)) => JsonField::Text(t.clone()),
        Some(v) => v.as_u64().map_or(JsonField::Other, JsonField::Unsigned),
    })
}

/// The members read from the `"crate"` object of a crates.io response body.
pub open spec fn crate_members(body: Seq<u8>) -> Seq<Option<JsonMember>> {
    let c = Some("crate"@);
    seq![
        json_member_at(body, c, "name"@),
        json_member_at(body, c, "description"@),
        json_member_at(body, c, "documentation"@),
        json_member_at(body, c, "homepage"@),
        json_member_at(body, c, "repository"@),
        json_member_at(body, c, "newest_version"@),
        json_member_at(body, c, "max_version"@),
    ]
}

/// Whether a crates.io response body holds a `"crate"` member whose members can be
/// read (the body is JSON).
pub open spec fn crate_readable(body: Seq<u8>) -> bool {
    &&& json_member_at(body, None, "crate"@) matches Some(m) && !(m is Absent)
    &&& forall|k: int| 0 <= k < 7 ==> #[trigger] crate_members(body)[k] is Some
}

/// The decoded members of a `"crate"` object, in the order of [`crate_members`].
pub open spec fn crate_fields_members(f: CrateObjectFields) -> Seq<Option<JsonMember>> {
    seq![
        Some(member_of(f.name)),
        Some(member_of(f.description)),
        Some(member_of(f.documentation)),
        Some(member_of(f.homepage)),
        Some(member_of(f.repository)),
        Some(member_of(f.newest_version)),
        Some(member_of(f.max_version)),
    ]
}

/// The members read from a GitHub repository response body.
pub open spec fn repo_members(body: Seq<u8>) -> Seq<Option<JsonMember>> {
    seq![
        json_member_at(body, None, "stargazers_count"@),
        json_member_at(body, None, "forks_count"@),
        json_member_at(body, None, "language"@),
        json_member_at(body, None, "updated_at"@),
        json_member_at(body, None, "open_issues_count"@),
        json_member_at(body, None, "default_branch"@),
    ]
}

/// The decoded members of a repository object, in the order of [`repo_members`].
pub open spec fn repo_fields_members(f: RepoObjectFields) -> Seq<Option<JsonMember>> {
    seq![
        Some(member_of(f.stargazers_count)),
        Some(member_of(f.forks_count)),
        Some(member_of(f.language)),
        Some(member_of(f.updated_at)),
        Some(member_of(f.open_issues_count)),
        Some(member_of(f.default_branch)),
    ]
}

/// Reads the `"crate"` object of a crates.io response body: none when the body is not
/// JSON or has no `"crate"` member.
pub fn crate_fields_from_body(body: &[u8]) -> (r: Option<CrateObjectFields>)
    ensures
        r is Some <==> crate_readable(body@),
        r matches Some(f) ==> crate_fields_members(f) == crate_members(body@),
{
    let present = match json_member(body, None, "crate") {
        None => {
            return None;
        },
        Some(JsonField::Absent) => {
            return None;
        },
        Some(_) => true,
    };
    let c = Some("crate");
    let ghost members = crate_members(body@);
    let name = match json_member(body, c, "name") {
        Some(f) => f,
        None => {
            assert(members[0] is None);
            return None;
        },
    };
    let description = match json_member(body, c, "description") {
        Some(f) => f,
        None => {
            assert(members[1] is None);
            return None;
        },
    };
    let documentation = match json_member(body, c, "documentation") {
        Some(f) => f,
        None => {
            assert(members[2] is None);
            return None;
        },
    };
    let homepage = match json_member(body, c, "homepage") {
        Some(f) => f,
        None => {
            assert(members[3] is None);
            return None;
        },
    };
    let repository = match json_member(body, c, "repository") {
        Some(f) => f,
        None => {
            assert(members[4] is None);
            return None;
        },
    };
    let newest_version = match json_member(body, c, "newest_version") {
        Some(f) => f,
        None => {
            assert(members[5] is None);
            return None;
        },
    };
    let max_version = match json_member(body, c, "max_version") {
        Some(f) => f,
        None => {
            assert(members[6] is None);
            return None;
        },
    };
    let f = CrateObjectFields {
        name,
        description,
        documentation,
        homepage,
        repository,
        newest_version,
        max_version,
    };
    assert(crate_fields_members(f) =~= crate_members(body@));
    Some(f)
}

/// Reads a GitHub repository response body: none when it is not JSON.
pub fn repo_fields_from_body(body: &[u8]) -> (r: Option<RepoObjectFields>)
    ensures
        r is Some <==> forall|k: int| 0 <= k < 6 ==> #[trigger] repo_members(body@)[k] is Some,
        r matches Some(f) ==> repo_fields_members(f) == repo_members(body@),
{
    let ghost members = repo_members(body@);
    let stargazers_count = match json_member(body, None, "stargazers_count") {
        Some(f) => f,
        None => {
            assert(members[0] is None);
            return None;
        },
    };
    let forks_count = match json_member(body, None, "forks_count") {
        Some(f) => f,
        None => {
            assert(members[1] is None);
            return None;
        },
    };
    let language = match json_member(body, None, "language") {
        Some(f) => f,
        None => {
            assert(members[2] is None);
            return None;
        },
    };
    let updated_at = match json_member(body, None, "updated_at") {
        Some(f) => f,
        None => {
            assert(members[3] is None);
            return None;
        },
    };
    let open_issues_count = match json_member(body, None, "open_issues_count") {
        Some(f) => f,
        None => {
            assert(members[4] is None);
            return None;
        },
    };
    let default_branch = match json_member(body, None, "default_branch") {
        Some(f) => f,
        None => {
            assert(members[5] is None);
            return None;
        },
    };
    let f = RepoObjectFields {
        stargazers_count,
        forks_count,
        language,
        updated_at,
        open_issues_count,
        default_branch,
    };
    assert(repo_fields_members(f) =~= repo_members(body@));
    Some(f)
}

/// The string a JSON member holds, if it is a string.
pub open spec fn field_text(f: JsonField) -> Option<Seq<char>> {
    match f {
        JsonField::Text(s) => Some(s@),
        _ => None,
    }
}

/// A JSON count read as `u32` (values above `u32::MAX` wrap, as an `as` cast does).
pub open spec fn field_u32(f: JsonField) -> Option<u32> {
    match f {
        JsonField::Unsigned(n) => Some(n as u32),
        _ => None,
    }
}

/// The view of an optional string.
pub open spec fn opt_view(o: Option<String>) -> Option<Seq<char>> {
    match o {
        Some(s) => Some(s@),
        None => None,
    }
}

/// The version shown for a crate: `newest_version` when present (falling back to
/// `max_version` only when `newest_version` is missing), or `"?"` when that member is
/// not a string.
pub open spec fn crate_version(newest: JsonField, max: JsonField) -> Seq<char> {
    let chosen = match newest {
        JsonField::Absent => max,
        _ => newest,
    };
    match chosen {
        JsonField::Text(s) => s@,
        _ => "?"@,
    }
}

/// The GitHub `(owner, repository)` named by a repository URL of the form
/// `http(s)://github.com/owner/repo[/...]`, after trimming white space and trailing `/`.
pub open spec fn github_owner_repo(url: Seq<char>) -> Option<(Seq<char>, Seq<char>)> {
    let s = trim_end_char(trim_ws(url), '/');
    let rest = match strip_prefix(s, "https://github.com/"@) {
        Some(r) => Some(r),
        None => strip_prefix(s, "http://github.com/"@),
    };
    match rest {
        None => None,
        Some(r) => match split_at_first(r, '/') {
            None => None,
            Some((owner, tail)) => {
                let name = before_first(tail, '/');
                if owner.len() == 0 || name.len() == 0 {
                    None
                } else {
                    Some((owner, name))
                }
            },
        },
    }
}

/// Parses `https://github.com/owner/repo` (or `http://`, with or without a trailing
/// `/`) into `(owner, repo)`.
pub fn parse_github_url(repo: &str) -> (r: Option<(String, String)>)
    ensures
        match github_owner_repo(repo@) {
            Some((o, n)) => r matches Some((ro, rn)) && ro@ == o && rn@ == n,
            None => r is None,
        },
{
    let cs = chars_of(repo);
    let t = trim_chars(cs.as_slice());
    let s = trim_end_char_chars(t.as_slice(), '/');
    let https = chars_of("https://github.com/");
    let http = chars_of("http://github.com/");
    let rest = match strip_prefix_chars(s.as_slice(), https.as_slice()) {
        Some(r) => r,
        None => match strip_prefix_chars(s.as_slice(), http.as_slice()) {
            Some(r) => r,
            None => {
                return None;
            },
        },
    };
    let rest_len = rest.len();
    let k = match find_char(rest.as_slice(), '/') {
        Some(k) => k,
        None => {
            return None;
        },
    };
    let owner = chars_range(rest.as_slice(), 0, k);
    let tail = chars_range(rest.as_slice(), k + 1, rest_len);
    let name = match find_char(tail.as_slice(), '/') {
        Some(j) => chars_range(tail.as_slice(), 0, j),
        None => chars_range(tail.as_slice(), 0, tail.len()),
    };
    proof {
        assert(tail@ =~= rest@.skip(k + 1));
        assert(owner@ =~= rest@.take(k as int));
        if split_at_first(tail@, '/') is None {
            assert(name@ =~= tail@);
        }
    }
    if owner.len() == 0 || name.len() == 0 {
        return None;
    }
    Some((string_of(owner.as_slice()), string_of(name.as_slice())))
}

/// The crates.io API URL for a crate.
pub fn crates_io_api_url(crate_name: &str) -> (url: String)
    ensures
        url@ == "https://crates.io/api/v1/crates/"@ + crate_name@,
{
    let mut url = String::from_str("https://crates.io/api/v1/crates/");
    url.append(crate_name);
    url
}

/// The GitHub REST API URL for a repository.
pub fn github_api_url(owner: &str, repo: &str) -> (url: String)
    ensures
        url@ == "https://api.github.com/repos/"@ + owner@ + "/"@ + repo@,
{
    let mut url = String::from_str("https://api.github.com/repos/");
    url.append(owner);
    url.append("/");
    url.append(repo);
    url
}

/// The `Authorization` header value for a GitHub token; none for an empty token.
pub fn github_authorization(token: &str) -> (h: Option<String>)
    ensures
        token@.len() == 0 ==> h is None,
        token@.len() > 0 ==> (h matches Some(v) && v@ == "Bearer "@ + token@),
{
    if token.is_empty() {
        None
    } else {
        let mut v = String::from_str("Bearer ");
        v.append(token);
        Some(v)
    }
}

/// Whether a crates.io response is read: it must be a success, must not announce a
/// body larger than [`MAX_RESPONSE_BYTES`] (an unknown length counts as zero), and
/// its body of `body_len` bytes must not be larger either.
pub fn crates_io_response_accepted(
    status_success: bool,
    content_length: Option<u64>,
    body_len: usize,
) -> (b: bool)
    ensures
        b == (status_success && match content_length {
            Some(n) => n <= MAX_RESPONSE_BYTES,
            None => true,
        } && body_len <= MAX_RESPONSE_BYTES),
{
    if !status_success {
        return false;
    }
    let len = match content_length {
        Some(n) => n,
        None => 0,
    };
    len <= MAX_RESPONSE_BYTES && (body_len as u64) <= MAX_RESPONSE_BYTES
}

/// Whether a GitHub response is read: it must be a success and its body must not
/// exceed [`MAX_GITHUB_RESPONSE_BYTES`].
pub fn github_response_accepted(status_success: bool, body_len: usize) -> (b: bool)
    ensures
        b == (status_success && body_len <= MAX_GITHUB_RESPONSE_BYTES),
{
    status_success && (body_len as u64) <= MAX_GITHUB_RESPONSE_BYTES
}

/// The string a JSON member holds, if it is a string.
pub fn json_text(f: &JsonField) -> (r: Option<String>)
    ensures
        opt_view(r) == field_text(*f),
{
    match f {
        JsonField::Text(s) => Some(s.clone()),
        _ => None,
    }
}

/// A JSON count read as `u32` (wrapping like an `as` cast), if it is an unsigned integer.
pub fn json_u32(f: &JsonField) -> (r: Option<u32>)
    ensures
        r == field_u32(*f),
{
    match f {
        JsonField::Unsigned(n) => Some(*n as u32),
        _ => None,
    }
}

/// Builds the crate metadata from the decoded `"crate"` object: there is none when
/// the object or its string `name` is missing. GitHub metrics are not filled in here.
pub fn crate_doc_from_fields(fields: Option<CrateObjectFields>) -> (r: Option<CrateDocInfo>)
    ensures
        match fields {
            None => r is None,
            Some(f) => match f.name {
                JsonField::Text(n) => r matches Some(d) && d.name@ == n@ && d.version@
                    == crate_version(f.newest_version, f.max_version) && opt_view(d.description)
                    == field_text(f.description) && opt_view(d.documentation) == field_text(
                    f.documentation,
                ) && opt_view(d.homepage) == field_text(f.homepage) && opt_view(d.repository)
                    == field_text(f.repository) && d.github is None,
                _ => r is None,
            },
        },
{
    let f = match fields {
        Some(f) => f,
        None => {
            return None;
        },
    };
    let name = match &f.name {
        JsonField::Text(n) => n.clone(),
        _ => {
            return None;
        },
    };
    let chosen = match &f.newest_version {
        JsonField::Absent => &f.max_version,
        other => other,
    };
    let version = match chosen {
        JsonField::Text(s) => s.clone(),
        _ => String::from_str("?"),
    };
    Some(
        CrateDocInfo {
            name,
            version,
            description: json_text(&f.description),
            documentation: json_text(&f.documentation),
            homepage: json_text(&f.homepage),
            repository: json_text(&f.repository),
            github: None,
        },
    )
}

/// The GitHub repository whose metrics are fetched for a crate, if its repository
/// URL is a GitHub one.
pub fn github_target(doc: &CrateDocInfo) -> (r: Option<(String, String)>)
    ensures
        match doc.repository {
            None => r is None,
            Some(url) => match github_owner_repo(url@) {
                Some((o, n)) => r matches Some((ro, rn)) && ro@ == o && rn@ == n,
                None => r is None,
            },
        },
{
    match &doc.repository {
        Some(url) => parse_github_url(url.as_str()),
        None => None,
    }
}

/// Builds the repository metrics from the decoded GitHub repository object.
pub fn github_repo_info_from_fields(f: &RepoObjectFields) -> (r: GitHubRepoInfo)
    ensures
        r.stars == field_u32(f.stargazers_count),
        r.forks == field_u32(f.forks_count),
        opt_view(r.language) == field_text(f.language),
        opt_view(r.updated_at) == field_text(f.updated_at),
        r.open_issues_count == field_u32(f.open_issues_count),
        opt_view(r.default_branch) == field_text(f.default_branch),
{
    GitHubRepoInfo {
        stars: json_u32(&f.stargazers_count),
        forks: json_u32(&f.forks_count),
        language: json_text(&f.language),
        updated_at: json_text(&f.updated_at),
        open_issues_count: json_u32(&f.open_issues_count),
        default_branch: json_text(&f.default_branch),
    }
}


/// A GitHub project's URL names it: when a URL, once trimmed of white space, is
/// `https://github.com/` or `http://github.com/`, then an owner, `/` and a repository
/// name, then any number of `/`, and neither name is empty or holds a `/`, it parses
/// into that owner and repository.
pub proof fn lemma_github_url_names_project(
    url: Seq<char>,
    secure: bool,
    owner: Seq<char>,
    name: Seq<char>,
    trailing: nat,
)
    requires
        owner.len() > 0,
        name.len() > 0,
        forall|i: int| 0 <= i < owner.len() ==> #[trigger] owner[i] != '/',
        forall|i: int| 0 <= i < name.len() ==> #[trigger] name[i] != '/',
        trim_ws(url) == (if secure {
            "https://github.com/"@
        } else {
            "http://github.com/"@
        }) + owner + "/"@ + name + Seq::new(trailing, |i: int| '/'),
    ensures
        github_owner_repo(url) == Some((owner, name)),
{
    reveal_strlit("https://github.com/");
    reveal_strlit("http://github.com/");
    reveal_strlit("/");
    let https = "https://github.com/"@;
    let http = "http://github.com/"@;
    let prefix = if secure { https } else { http };
    let rest = owner + "/"@ + name;
    let base = prefix + rest;
    let t = trim_ws(url);
    assert(t.take(base.len() as int) =~= base);
    assert forall|k: int| base.len() <= k < t.len() implies #[trigger] t[k] == '/' by {
        assert(t[k] == Seq::new(trailing, |i: int| '/')[k - base.len()]);
    }
    lemma_trim_end_char_take(t, '/', base.len() as int);
    assert(base.last() == name.last());
    assert(trim_end_char(base, '/') == base);
    assert(prefix.is_prefix_of(base));
    assert(base.skip(prefix.len() as int) =~= rest);
    if !secure {
        assert(!https.is_prefix_of(base)) by {
            assert(base[4] != https[4]);
        }
    }
    assert(strip_prefix(base, prefix) == Some(rest));
    assert forall|j: int| 0 <= j < owner.len() implies #[trigger] rest[j] != '/' by {
        assert(rest[j] == owner[j]);
    }
    lemma_split_found(rest, '/', owner.len() as int);
    assert(rest.take(owner.len() as int) =~= owner);
    assert(rest.skip(owner.len() as int + 1) =~= name);
    lemma_split_absent(name, '/');
}

} // verus!
