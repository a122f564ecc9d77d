//! The hosting service: what is sent to create a repository, and how its
//! replies are read.

use vstd::prelude::*;
use vstd::string::*;
use crate::error::{GitError, GitErrorView};
use crate::exchange::ApiCall;
use crate::json;
use crate::number::{decimal, to_decimal};
use crate::search::{contains, has_part};
use crate::std_text::alphanumeric;
use crate::text::{opt_text, to_chars, to_text};
use crate::trim::{is_blank, trim, trimmed};

verus! {

/// The two addresses of a repository that the hosting service reports.
#[derive(Debug, PartialEq, Eq)]
pub struct RepoUrls {
    /// Where the repository is shown.
    pub html_url: String,
    /// Where it is cloned from and pushed to.
    pub clone_url: String,
}

/// `RepoUrls` with its texts as character sequences.
pub struct RepoUrlsView {
    pub html_url: Seq<char>,
    pub clone_url: Seq<char>,
}

impl View for RepoUrls {
    type V = RepoUrlsView;

    open spec fn view(&self) -> RepoUrlsView {
        RepoUrlsView { html_url: self.html_url@, clone_url: self.clone_url@ }
    }
}

/// The addresses in a reply whose string members are `members`, or why
/// there are none: the reply must name `html_url` and `clone_url`.
pub open spec fn urls_of(members: Option<Map<Seq<char>, Seq<char>>>) -> Result<
    RepoUrlsView,
    GitErrorView,
> {
    match members {
        None => Err(GitErrorView::Other("Failed to parse GitHub response"@)),
        Some(m) => if !m.contains_key("html_url"@) {
            Err(GitErrorView::Other("Failed to get repository URL from GitHub response"@))
        } else if !m.contains_key("clone_url"@) {
            Err(GitErrorView::Other("Failed to get clone URL from GitHub response"@))
        } else {
            Ok(RepoUrlsView { html_url: m["html_url"@], clone_url: m["clone_url"@] })
        },
    }
}

/// The view of a `Result` that holds `RepoUrls`.
pub open spec fn urls_view(r: Result<RepoUrls, GitError>) -> Result<RepoUrlsView, GitErrorView> {
    match r {
        Ok(urls) => Ok(urls@),
        Err(e) => Err(e@),
    }
}

/// The addresses of a created repository, from the two members of the
/// reply: `parsed` tells whether the reply was JSON at all.
pub fn urls_from_members(parsed: bool, html_url: Option<String>, clone_url: Option<String>) -> (r:
    Result<RepoUrls, GitError>)
    ensures
        urls_view(r) == (if !parsed {
            Err(GitErrorView::Other("Failed to parse GitHub response"@))
        } else if html_url is None {
            Err(GitErrorView::Other("Failed to get repository URL from GitHub response"@))
        } else if clone_url is None {
            Err(GitErrorView::Other("Failed to get clone URL from GitHub response"@))
        } else {
            Ok(RepoUrlsView { html_url: html_url->0@, clone_url: clone_url->0@ })
        }),
{
    if !parsed {
        return Err(GitError::other("Failed to parse GitHub response"));
    }
    match html_url {
        None => Err(GitError::other("Failed to get repository URL from GitHub response")),
        Some(html) => match clone_url {
            None => Err(GitError::other("Failed to get clone URL from GitHub response")),
            Some(clone) => Ok(RepoUrls { html_url: html, clone_url: clone }),
        },
    }
}

/// The addresses of the repository that the reply `body` reports.
pub fn created_urls(body: &str) -> (r: Result<RepoUrls, GitError>)
    ensures
        urls_view(r) == urls_of(json::parsed_members(body@)),
{
    match json::parse(body) {
        Err(_) => urls_from_members(false, None, None),
        Ok(value) => {
            let html = json::string_member(&value, "html_url");
            let clone = json::string_member(&value, "clone_url");
            urls_from_members(true, html, clone)
        },
    }
}

/// Whether `c` may stand in the name of a repository.
pub open spec fn name_char(c: char) -> bool {
    alphanumeric(c) || c == '-' || c == '_' || c == '.'
}

/// Whether `name` can name a repository: it is not empty and holds only
/// letters, digits, hyphens, underscores and dots.
pub open spec fn valid_name(name: Seq<char>) -> bool {
    name.len() > 0 && forall|i: int| 0 <= i < name.len() ==> name_char(#[trigger] name[i])
}

/// Whether `name` can name a repository.
pub fn is_valid_name(name: &str) -> (b: bool)
    ensures
        b == valid_name(name@),
{
    let chars = to_chars(name);
    if chars.len() == 0 {
        return false;
    }
    let mut i: usize = 0;
    while i < chars.len()
        invariant
            i <= chars.len(),
            chars@ == name@,
            chars@.len() > 0,
            forall|j: int| 0 <= j < i ==> name_char(#[trigger] chars@[j]),
        decreases chars.len() - i,
    {
        let c = chars[i];
        if !(c.is_alphanumeric() || c == '-' || c == '_' || c == '.') {
            return false;
        }
        i += 1;
    }
    true
}

/// What an answer to a prompt stands for: `fallback` where the answer is
/// blank, else the answer without the white space around it.
pub open spec fn answer_or(answer: Seq<char>, fallback: Seq<char>) -> Seq<char> {
    if is_blank(answer) {
        fallback
    } else {
        trim(answer)
    }
}

/// What an answer to a prompt stands for.
pub fn answer_or_default(answer: &str, fallback: &str) -> (r: String)
    ensures
        r@ == answer_or(answer@, fallback@),
{
    let t = trimmed(&to_chars(answer));
    if t.len() == 0 {
        String::from_str(fallback)
    } else {
        to_text(&t)
    }
}

/// Whether a reply of the creation call says that a repository of that
/// name exists already.
pub open spec fn name_conflict(status: u16, body: Seq<char>) -> bool {
    status == 422 && contains(body, "already exists"@)
}

/// Whether a reply of the creation call says that a repository of that
/// name exists already.
pub fn is_name_conflict(status: u16, body: &str) -> (b: bool)
    ensures
        b == name_conflict(status, body@),
{
    status == 422 && has_part(&to_chars(body), &to_chars("already exists"))
}

/// Whether the status of a reply is a success.
pub open spec fn success_status(status: u16) -> bool {
    200 <= status < 300
}

/// What to tell the operator about a failed creation call.
pub open spec fn api_failure(status: u16, body: Seq<char>) -> Seq<char> {
    if status == 401 {
        "Authentication failed. Please check your GitHub token. Error: "@ + body
    } else if status == 422 {
        "Invalid repository name or repository already exists. Error: "@ + body
    } else if status == 403 {
        "Permission denied. Your token may not have 'repo' scope. Error: "@ + body
    } else {
        "GitHub API error (status "@ + decimal(status as nat) + "): "@ + body
    }
}

/// What to tell the operator about a failed creation call.
pub fn describe_api_failure(status: u16, body: &str) -> (r: String)
    ensures
        r@ == api_failure(status, body@),
{
    if status == 401 {
        String::from_str("Authentication failed. Please check your GitHub token. Error: ").concat(
            body,
        )
    } else if status == 422 {
        String::from_str("Invalid repository name or repository already exists. Error: ").concat(
            body,
        )
    } else if status == 403 {
        String::from_str(
            "Permission denied. Your token may not have 'repo' scope. Error: ",
        ).concat(body)
    } else {
        let number = to_text(&to_decimal(status as u64));
        String::from_str("GitHub API error (status ").concat(number.as_str()).concat(
            "): ",
        ).concat(body)
    }
}

/// The name under which the tool makes its calls.
pub open spec fn user_agent() -> Seq<char> {
    "syncgit"@
}

/// The kind of reply that the tool asks for.
pub open spec fn accepted() -> Seq<char> {
    "application/vnd.github.v3+json"@
}

/// The headers of a call that carries `authorization`, each a name and a
/// value; a call with a body says that the body is JSON.
pub open spec fn headers_of(authorization: Seq<char>, with_body: bool) -> Seq<
    (Seq<char>, Seq<char>),
> {
    let common = seq![
        ("User-Agent"@, user_agent()),
        ("Authorization"@, authorization),
        ("Accept"@, accepted()),
    ];
    if with_body {
        common.push(("Content-Type"@, "application/json"@))
    } else {
        common
    }
}

/// The names and values of a list of headers, in order.
pub open spec fn header_texts(headers: Seq<(String, String)>) -> Seq<(Seq<char>, Seq<char>)> {
    Seq::new(headers.len(), |i: int| (headers[i].0@, headers[i].1@))
}

/// The headers of `call`.
pub fn call_headers(call: &ApiCall) -> (r: Vec<(String, String)>)
    ensures
        header_texts(r@) == headers_of(call.authorization@, call.body is Some),
{
    let mut r: Vec<(String, String)> = Vec::new();
    r.push((String::from_str("User-Agent"), String::from_str("syncgit")));
    r.push((String::from_str("Authorization"), call.authorization.clone()));
    r.push((String::from_str("Accept"), String::from_str("application/vnd.github.v3+json")));
    if call.body.is_some() {
        r.push((String::from_str("Content-Type"), String::from_str("application/json")));
    }
    r
}

/// The credential sent with a call: the token as a bearer.
pub fn bearer(token: &str) -> (r: String)
    ensures
        r@ == "Bearer "@ + token@,
{
    String::from_str("Bearer ").concat(token)
}

/// The body of the creation call, from JSON literals: the name, the
/// visibility, and the description where there is one.
pub open spec fn creation_body(
    name: Seq<char>,
    private: bool,
    description: Option<Seq<char>>,
) -> Seq<char> {
    "{\"name\":"@ + name + ",\"private\":"@ + (if private {
        "true"@
    } else {
        "false"@
    }) + (match description {
        Some(d) => ",\"description\":"@ + d,
        None => Seq::empty(),
    }) + "}"@
}

/// The body of the creation call, from the JSON literals of its texts.
pub fn frame_creation(quoted_name: &str, private: bool, quoted_description: Option<String>) -> (r:
    String)
    ensures
        r@ == creation_body(quoted_name@, private, opt_text(quoted_description)),
{
    let mut r = String::from_str("{\"name\":").concat(quoted_name).concat(",\"private\":");
    if private {
        r = r.concat("true");
    } else {
        r = r.concat("false");
    }
    match quoted_description {
        Some(d) => {
            r = r.concat(",\"description\":").concat(d.as_str());
        },
        None => {
        },
    }
    r.concat("}")
}

/// The description to send: none where the operator gave a blank one.
pub open spec fn description_of(answer: Seq<char>) -> Option<Seq<char>> {
    if is_blank(answer) {
        None
    } else {
        Some(trim(answer))
    }
}

/// The body of the creation call for a repository `name` with the
/// description that the operator gave.
pub open spec fn creation_request(name: Seq<char>, private: bool, description: Seq<char>) -> Seq<
    char,
> {
    creation_body(
        json::quoted(name),
        private,
        match description_of(description) {
            Some(d) => Some(json::quoted(d)),
            None => None,
        },
    )
}

/// The JSON string literal for `s`.
pub fn json_literal(s: &str) -> (r: String)
    ensures
        r@ == json::quoted(s@),
{
    match json::quote(s) {
        Ok(q) => q,
        Err(_) => unreached(),
    }
}

/// The body of the creation call for a repository `name` with the
/// description that the operator gave.
pub fn creation_request_body(name: &str, private: bool, description: &str) -> (r: String)
    ensures
        r@ == creation_request(name@, private, description@),
{
    let quoted_name = json_literal(name);
    let d = trimmed(&to_chars(description));
    if d.len() == 0 {
        return frame_creation(quoted_name.as_str(), private, None);
    }
    let quoted_description = json_literal(to_text(&d).as_str());
    frame_creation(quoted_name.as_str(), private, Some(quoted_description))
}

/// The account that the reply `members` of the identity call names, or
/// `unknown`.
pub open spec fn login_of(members: Option<Map<Seq<char>, Seq<char>>>) -> Seq<char> {
    match members {
        Some(m) => if m.contains_key("login"@) {
            m["login"@]
        } else {
            "unknown"@
        },
        None => "unknown"@,
    }
}

/// The account to use, from the `login` member of the reply if it had one.
pub fn login_or_unknown(login: Option<String>) -> (r: String)
    ensures
        r@ == (match login {
            Some(l) => l@,
            None => "unknown"@,
        }),
{
    match login {
        Some(l) => l,
        None => String::from_str("unknown"),
    }
}

/// The account that the reply `body` of the identity call names, or
/// `unknown`.
pub fn identity_login(body: &str) -> (r: String)
    ensures
        r@ == login_of(json::parsed_members(body@)),
{
    match json::parse(body) {
        Err(_) => login_or_unknown(None),
        Ok(value) => login_or_unknown(json::string_member(&value, "login")),
    }
}

/// Where the repository `name` of the account `login` is shown.
pub open spec fn repository_page(login: Seq<char>, name: Seq<char>) -> Seq<char> {
    "https://github.com/"@ + login + "/"@ + name
}

/// Where the repository `name` of the account `login` is shown.
pub fn repository_page_url(login: &str, name: &str) -> (r: String)
    ensures
        r@ == repository_page(login@, name@),
{
    String::from_str("https://github.com/").concat(login).concat("/").concat(name)
}

} // verus!
