//! Synchronisation with a remote server: the endpoints that are called, how
//! a repository URL is put into a query, what a server's reply is reduced
//! to, and the errors that a sync reports. Sending the requests is left to
//! the caller.
use crate::requirement::RequirementItem;
use crate::task::Task;
use crate::commands::push_str;
use crate::numbers::{decimal_digits, decimal_text};
use crate::text::{chars_of, concat2, owned, string_of};
use vstd::prelude::*;

verus! {

/// A record that the server could not merge.
#[derive(Debug)]
pub struct SyncConflict {
    /// What kind of record it is (`type` on the wire).
    pub kind: String,
    pub id: String,
    pub reason: String,
}

/// What a server answers to a sync request.
#[derive(Debug)]
pub struct SyncResponse {
    pub tasks: Vec<Task>,
    pub requirements: Vec<RequirementItem>,
    pub conflicts: Vec<SyncConflict>,
    pub server_time: String,
}

/// The outcome of pushing local records.
#[derive(Debug)]
pub struct PushResult {
    pub tasks_sent: usize,
    pub requirements_sent: usize,
    pub conflicts: usize,
    pub server_time: String,
}

impl PushResult {
    /// The outcome of a push that sent `tasks_sent` tasks and
    /// `requirements_sent` requirements and got `response` back.
    pub fn from_response(tasks_sent: usize, requirements_sent: usize, response: SyncResponse) -> (r:
        PushResult)
        ensures
            r.tasks_sent == tasks_sent,
            r.requirements_sent == requirements_sent,
            r.conflicts == response.conflicts@.len(),
            r.server_time@ == response.server_time@,
    {
        PushResult {
            tasks_sent,
            requirements_sent,
            conflicts: response.conflicts.len(),
            server_time: response.server_time,
        }
    }
}

/// The outcome of pulling remote records.
#[derive(Debug)]
pub struct PullResult {
    pub tasks_received: usize,
    pub requirements_received: usize,
    pub server_time: String,
}

impl PullResult {
    /// The outcome of a pull that got `response` back.
    pub fn from_response(response: SyncResponse) -> (r: PullResult)
        ensures
            r.tasks_received == response.tasks@.len(),
            r.requirements_received == response.requirements@.len(),
            r.server_time@ == response.server_time@,
    {
        PullResult {
            tasks_received: response.tasks.len(),
            requirements_received: response.requirements.len(),
            server_time: response.server_time,
        }
    }
}

/// The outcome of looking a project up by its repository.
#[derive(Debug)]
pub struct LinkResult {
    pub project_id: Option<String>,
    pub project_name: Option<String>,
    pub auto_linked: bool,
}

impl LinkResult {
    /// The server knows the repository as project `id`, named `name`.
    pub fn linked(id: String, name: String) -> (r: LinkResult)
        ensures
            r.project_id matches Some(x) && x@ == id@,
            r.project_name matches Some(x) && x@ == name@,
            r.auto_linked,
    {
        LinkResult { project_id: Some(id), project_name: Some(name), auto_linked: true }
    }

    /// The lookup failed or found nothing.
    pub fn not_linked() -> (r: LinkResult)
        ensures
            r.project_id is None,
            r.project_name is None,
            !r.auto_linked,
    {
        LinkResult { project_id: None, project_name: None, auto_linked: false }
    }

    /// The outcome of a lookup that found `found` (the project's id and
    /// name), or nothing.
    pub fn from_lookup(found: Option<(String, String)>) -> (r: LinkResult)
        ensures
            r.auto_linked == found.is_some(),
            found matches Some(p) ==> (r.project_id matches Some(x) && x@ == p.0@)
                && (r.project_name matches Some(x) && x@ == p.1@),
            found is None ==> r.project_id is None && r.project_name is None,
    {
        match found {
            Some(p) => LinkResult::linked(p.0, p.1),
            None => LinkResult::not_linked(),
        }
    }
}

/// Why a sync did not happen.
#[derive(Debug)]
pub enum SyncError {
    /// No project is linked to this repository.
    NotLinked,
    /// The server answered with a status other than success.
    Rejected { operation: String, status: String, body: String },
}

impl SyncError {
    /// The text that the error is reported with.
    pub open spec fn spec_message(self) -> Seq<char> {
        match self {
            SyncError::NotLinked => "No project linked. Run: ao-projects sync link --project-id <id>"@,
            SyncError::Rejected { operation, status, body } => "Sync "@ + operation@ + " failed ("@
                + status@ + "): "@ + body@,
        }
    }

    /// The text that the error is reported with, e.g.
    /// `Sync push failed (500 Internal Server Error): oops`.
    pub fn message(&self) -> (r: String)
        ensures
            r@ == self.spec_message(),
    {
        match self {
            SyncError::NotLinked => crate::text::owned(
                "No project linked. Run: ao-projects sync link --project-id <id>",
            ),
            SyncError::Rejected { operation, status, body } => {
                let a = concat2("Sync ", operation.as_str());
                let b = concat2(a.as_str(), " failed (");
                let c = concat2(b.as_str(), status.as_str());
                let d = concat2(c.as_str(), "): ");
                concat2(d.as_str(), body.as_str())
            },
        }
    }
}

/// The project that a push or pull goes to: the linked one, or `NotLinked`.
pub fn linked_project(project_id: &Option<String>) -> (r: Result<String, SyncError>)
    ensures
        project_id is None <==> r is Err,
        r matches Err(e) ==> e is NotLinked,
        project_id matches Some(p) ==> (r matches Ok(x) && x@ == p@),
{
    match project_id {
        Some(p) => Ok(crate::text::owned(p.as_str())),
        None => Err(SyncError::NotLinked),
    }
}

/// `s` without the `/` characters at its end.
pub open spec fn trim_trailing_slashes(s: Seq<char>) -> Seq<char>
    decreases s.len(),
{
    if s.len() > 0 && s.last() == '/' {
        trim_trailing_slashes(s.drop_last())
    } else {
        s
    }
}

fn trim_trailing_slash_chars(v: &Vec<char>) -> (r: Vec<char>)
    ensures
        r@ == trim_trailing_slashes(v@),
{
    let mut n: usize = v.len();
    assert(v@.take(n as int) =~= v@);
    while n > 0 && v[n - 1] == '/'
        invariant
            n <= v.len(),
            trim_trailing_slashes(v@.take(n as int)) == trim_trailing_slashes(v@),
        decreases n,
    {
        assert(v@.take(n as int).drop_last() =~= v@.take(n - 1));
        n = n - 1;
    }
    let mut r: Vec<char> = Vec::new();
    let mut k: usize = 0;
    while k < n
        invariant
            k <= n,
            n <= v.len(),
            r@ == v@.take(k as int),
        decreases n - k,
    {
        r.push(v[k]);
        assert(r@ =~= v@.take(k + 1));
        k = k + 1;
    }
    assert(trim_trailing_slashes(v@.take(n as int)) == v@.take(n as int));
    r
}

/// The sync endpoint of project `project_id` on `server`.
pub open spec fn sync_endpoint_of(server: Seq<char>, project_id: Seq<char>) -> Seq<char> {
    trim_trailing_slashes(server) + "/api/projects/"@ + project_id + "/sync"@
}

/// `{server}/api/projects/{project_id}/sync`, with the server's trailing
/// slashes left out.
pub fn sync_endpoint(server: &str, project_id: &str) -> (r: String)
    ensures
        r@ == sync_endpoint_of(server@, project_id@),
{
    let base = string_of(&trim_trailing_slash_chars(&chars_of(server)));
    let a = concat2(base.as_str(), "/api/projects/");
    let b = concat2(a.as_str(), project_id);
    concat2(b.as_str(), "/sync")
}

/// Characters that go into a URL as they are.
pub open spec fn is_unreserved(c: char) -> bool {
    ||| ('A' <= c && c <= 'Z')
    ||| ('a' <= c && c <= 'z')
    ||| ('0' <= c && c <= '9')
    ||| c == '-'
    ||| c == '_'
    ||| c == '.'
    ||| c == '~'
}

/// The uppercase hex digit for `d < 16`.
pub open spec fn hex_upper_char(d: int) -> char {
    if d < 10 {
        (d + ('0' as int)) as char
    } else {
        (d - 10 + ('A' as int)) as char
    }
}

/// The low byte of a character's code point (what `c as u8` keeps).
pub open spec fn low_byte(c: char) -> int {
    ((c as u32) % 256) as int
}

/// How one character is written in a query: as itself when unreserved,
/// otherwise `%` and two uppercase hex digits of its low byte.
pub open spec fn url_piece(c: char) -> Seq<char> {
    if is_unreserved(c) {
        seq![c]
    } else {
        seq!['%', hex_upper_char(low_byte(c) / 16), hex_upper_char(low_byte(c) % 16)]
    }
}

/// The query form of `s`, character by character.
pub open spec fn url_encoded(s: Seq<char>) -> Seq<char>
    decreases s.len(),
{
    if s.len() == 0 {
        Seq::empty()
    } else {
        url_encoded(s.drop_last()) + url_piece(s.last())
    }
}

fn hex_upper_digit(d: u32) -> (c: char)
    requires
        d < 16,
    ensures
        c == hex_upper_char(d as int),
{
    if d < 10 {
        let b: u8 = (d + 48) as u8;
        b as char
    } else {
        let b: u8 = (d - 10 + 65) as u8;
        b as char
    }
}

/// Writes `s` for a URL query: unreserved ASCII characters stay, every other
/// character becomes `%XX` with the low byte of its code point.
pub fn url_encode(s: &str) -> (r: String)
    ensures
        r@ == url_encoded(s@),
{
    let v = chars_of(s);
    let mut out: Vec<char> = Vec::new();
    let mut i: usize = 0;
    while i < v.len()
        invariant
            i <= v.len(),
            v@ == s@,
            out@ == url_encoded(s@.take(i as int)),
        decreases v.len() - i,
    {
        let c = v[i];
        let keep = ('A' <= c && c <= 'Z') || ('a' <= c && c <= 'z') || ('0' <= c && c <= '9') || c
            == '-' || c == '_' || c == '.' || c == '~';
        if keep {
            out.push(c);
        } else {
            let code: u32 = c as u32;
            let b: u32 = code % 256;
            assert(b == low_byte(c));
            out.push('%');
            out.push(hex_upper_digit(b / 16));
            out.push(hex_upper_digit(b % 16));
        }
        assert(s@.take(i + 1).drop_last() =~= s@.take(i as int));
        assert(out@ =~= url_encoded(s@.take(i + 1)));
        i = i + 1;
    }
    assert(s@.take(v.len() as int) =~= s@);
    string_of(&out)
}

/// The lookup endpoint for the repository `origin_url` on `server`.
pub open spec fn by_repo_endpoint_of(server: Seq<char>, origin_url: Seq<char>) -> Seq<char> {
    trim_trailing_slashes(server) + "/api/projects/by-repo?url="@ + url_encoded(origin_url)
}

/// `{server}/api/projects/by-repo?url={origin_url}`, with the server's
/// trailing slashes left out and the URL encoded for a query.
pub fn by_repo_endpoint(server: &str, origin_url: &str) -> (r: String)
    ensures
        r@ == by_repo_endpoint_of(server@, origin_url@),
{
    let base = string_of(&trim_trailing_slash_chars(&chars_of(server)));
    let a = concat2(base.as_str(), "/api/projects/by-repo?url=");
    let enc = url_encode(origin_url);
    concat2(a.as_str(), enc.as_str())
}

/// Where and how a project syncs: the server, the token that authorises
/// requests, the linked project, and when the last sync happened.
#[derive(Debug)]
pub struct SyncConfig {
    pub server: Option<String>,
    pub token: Option<String>,
    pub project_id: Option<String>,
    pub last_synced_at: Option<String>,
}

impl SyncConfig {
    /// Nothing set.
    pub fn empty() -> (r: SyncConfig)
        ensures
            r.server is None,
            r.token is None,
            r.project_id is None,
            r.last_synced_at is None,
    {
        SyncConfig { server: None, token: None, project_id: None, last_synced_at: None }
    }

    /// A server and a token are set.
    pub fn is_configured(&self) -> (r: bool)
        ensures
            r == (self.server is Some && self.token is Some),
    {
        self.server.is_some() && self.token.is_some()
    }
}

/// `n` as decimal text.
fn number_text(n: usize) -> (r: String)
    ensures
        r@ == decimal_digits(n as nat),
{
    let v = decimal_text(n);
    string_of(&v)
}

/// `"{verb} {tasks} tasks, {requirements} requirements"`.
pub open spec fn transfer_line(verb: Seq<char>, tasks: nat, requirements: nat) -> Seq<char> {
    verb + " "@ + decimal_digits(tasks) + " tasks, "@ + decimal_digits(requirements)
        + " requirements"@
}

fn transfer_line_of(verb: &str, tasks: usize, requirements: usize) -> (r: String)
    ensures
        r@ == transfer_line(verb@, tasks as nat, requirements as nat),
{
    let mut v: Vec<char> = Vec::new();
    push_str(&mut v, verb);
    push_str(&mut v, " ");
    push_str(&mut v, number_text(tasks).as_str());
    push_str(&mut v, " tasks, ");
    push_str(&mut v, number_text(requirements).as_str());
    push_str(&mut v, " requirements");
    assert(v@ =~= transfer_line(verb@, tasks as nat, requirements as nat));
    string_of(&v)
}

/// What a push reports: the counts sent, then the number of conflicts when
/// there were any.
pub fn push_lines(result: &PushResult) -> (r: Vec<String>)
    ensures
        r@.len() == if result.conflicts > 0 {
            2int
        } else {
            1int
        },
        r@[0]@ == transfer_line(
            "Pushed"@,
            result.tasks_sent as nat,
            result.requirements_sent as nat,
        ),
        result.conflicts > 0 ==> r@[1]@ == "Conflicts: "@ + decimal_digits(
            result.conflicts as nat,
        ),
{
    let mut out: Vec<String> = Vec::new();
    out.push(transfer_line_of("Pushed", result.tasks_sent, result.requirements_sent));
    if result.conflicts > 0 {
        out.push(concat2("Conflicts: ", number_text(result.conflicts).as_str()));
    }
    out
}

/// What a pull reports: the counts received.
pub fn pull_lines(result: &PullResult) -> (r: Vec<String>)
    ensures
        r@.len() == 1,
        r@[0]@ == transfer_line(
            "Pulled"@,
            result.tasks_received as nat,
            result.requirements_received as nat,
        ),
{
    let mut out: Vec<String> = Vec::new();
    out.push(transfer_line_of("Pulled", result.tasks_received, result.requirements_received));
    out
}

/// What setting up a server reports.
pub fn setup_lines(server: &str) -> (r: Vec<String>)
    ensures
        r@.len() == 2,
        r@[0]@ == "Sync server configured: "@ + server@,
        r@[1]@ == "Link project with: ao-projects sync link --project-id <id>"@,
{
    let mut out: Vec<String> = Vec::new();
    out.push(concat2("Sync server configured: ", server));
    out.push(owned("Link project with: ao-projects sync link --project-id <id>"));
    out
}

/// What linking a project reports.
pub fn link_line(project_id: &str) -> (r: String)
    ensures
        r@ == "Linked to project: "@ + project_id@,
{
    concat2("Linked to project: ", project_id)
}

/// The text of an optional setting, or `fallback` when it is not set.
pub open spec fn or_else_text(o: Option<String>, fallback: Seq<char>) -> Seq<char> {
    match o {
        Some(s) => s@,
        None => fallback,
    }
}

fn or_else_of(o: &Option<String>, fallback: &str) -> (r: String)
    ensures
        r@ == or_else_text(*o, fallback@),
{
    match o {
        Some(s) => owned(s.as_str()),
        None => owned(fallback),
    }
}

/// What the sync status reports: whether sync is configured, the server,
/// the linked project and the time of the last sync.
pub fn status_lines(config: &SyncConfig) -> (r: Vec<String>)
    ensures
        r@.len() == 4,
        r@[0]@ == "Configured: "@ + (if config.server is Some && config.token is Some {
            "true"@
        } else {
            "false"@
        }),
        r@[1]@ == "Server: "@ + or_else_text(config.server, "(not set)"@),
        r@[2]@ == "Project: "@ + or_else_text(config.project_id, "(not linked)"@),
        r@[3]@ == "Last sync: "@ + or_else_text(config.last_synced_at, "never"@),
{
    let mut out: Vec<String> = Vec::new();
    let flag = if config.is_configured() {
        "true"
    } else {
        "false"
    };
    out.push(concat2("Configured: ", flag));
    out.push(concat2("Server: ", or_else_of(&config.server, "(not set)").as_str()));
    out.push(concat2("Project: ", or_else_of(&config.project_id, "(not linked)").as_str()));
    out.push(concat2("Last sync: ", or_else_of(&config.last_synced_at, "never").as_str()));
    out
}

} // verus!
