//! Request and response models of the Box API, the box lifecycle states, and the query
//! parameters that list and file-read requests carry.
use std::collections::HashMap;

use vstd::prelude::*;
use vstd::string::*;

use crate::config::{redact_secret, redacted};
use crate::render::{
    bool_string, bool_text, opt_bool_string, opt_bool_text, opt_num_string, opt_num_text,
    opt_str_string, opt_str_text, opt_ttl_string, opt_ttl_text, quoted_string, struct_string,
    struct_text,
};
use crate::text::{decimal, decimal_string, owned, push_decimal, str_debug_text, str_eq};
use vstd::std_specs::hash::spec_hash_map_len;

verus! {

/// `ttlSeconds`: `Some(secs)` or `None` (JSON null: no auto-stop).
pub type TtlSeconds = Option<u32>;

/// Whether a `ttlSeconds` field is left out of the request body.
pub fn is_none_ttl(v: &Option<TtlSeconds>) -> (r: bool)
    ensures
        r == (*v is None),
{
    v.is_none()
}

/// The text of an optional string.
pub open spec fn opt_view(o: Option<String>) -> Option<Seq<char>> {
    match o {
        Some(s) => Some(s@),
        None => None,
    }
}

/// The texts of a list of name/value pairs.
pub open spec fn pairs_view(v: Seq<(String, String)>) -> Seq<(Seq<char>, Seq<char>)> {
    v.map_values(|p: (String, String)| (p.0@, p.1@))
}

/// One pair when the value is present, none otherwise.
pub open spec fn opt_pair(name: Seq<char>, v: Option<Seq<char>>) -> Seq<(Seq<char>, Seq<char>)> {
    match v {
        Some(x) => seq![(name, x)],
        None => seq![],
    }
}

/// The decimal text of an optional number.
pub open spec fn opt_decimal(v: Option<u32>) -> Option<Seq<char>> {
    match v {
        Some(n) => Some(decimal(n as nat)),
        None => None,
    }
}

// --- Account ---
#[derive(Clone, Debug)]
pub struct MeResponse {
    pub ok: bool,
    pub type_: String,
    pub user: BoxUser,
}

#[derive(Clone, Debug)]
pub struct BoxUser {
    pub id: Option<String>,
    pub login: Option<String>,
    pub email: Option<String>,
    pub name: Option<String>,
}

// --- Box model ---
#[derive(Clone, Debug, PartialEq, Eq, Structural)]
pub enum BoxState {
    Init,
    Provisioning,
    Provisioned,
    Cloning,
    Ready,
    Idle,
    Running,
    Archiving,
    Archived,
    Error,
    Unknown,
}

/// The wire name of each state.
pub open spec fn state_name(s: BoxState) -> Seq<char> {
    match s {
        BoxState::Init => "init"@,
        BoxState::Provisioning => "provisioning"@,
        BoxState::Provisioned => "provisioned"@,
        BoxState::Cloning => "cloning"@,
        BoxState::Ready => "ready"@,
        BoxState::Idle => "idle"@,
        BoxState::Running => "running"@,
        BoxState::Archiving => "archiving"@,
        BoxState::Archived => "archived"@,
        BoxState::Error => "error"@,
        BoxState::Unknown => "unknown"@,
    }
}

/// The state a wire name stands for: each state's own name gives that state, and any
/// other name gives `Unknown`.
pub open spec fn state_of_name(n: Seq<char>) -> BoxState {
    if n == "init"@ {
        BoxState::Init
    } else if n == "provisioning"@ {
        BoxState::Provisioning
    } else if n == "provisioned"@ {
        BoxState::Provisioned
    } else if n == "cloning"@ {
        BoxState::Cloning
    } else if n == "ready"@ {
        BoxState::Ready
    } else if n == "idle"@ {
        BoxState::Idle
    } else if n == "running"@ {
        BoxState::Running
    } else if n == "archiving"@ {
        BoxState::Archiving
    } else if n == "archived"@ {
        BoxState::Archived
    } else if n == "error"@ {
        BoxState::Error
    } else {
        BoxState::Unknown
    }
}

/// States where command, SSH and agent work can proceed: `ready`, `idle`, `running`.
pub open spec fn operable(s: BoxState) -> bool {
    s is Ready || s is Idle || s is Running
}

/// Terminal failure states: `archived`, `archiving`, `error`.
pub open spec fn terminal_failure(s: BoxState) -> bool {
    s is Archived || s is Archiving || s is Error
}

impl BoxState {
    /// The wire name of the state.
    pub fn as_str(&self) -> (r: &'static str)
        ensures
            r@ == state_name(*self),
    {
        match self {
            BoxState::Init => "init",
            BoxState::Provisioning => "provisioning",
            BoxState::Provisioned => "provisioned",
            BoxState::Cloning => "cloning",
            BoxState::Ready => "ready",
            BoxState::Idle => "idle",
            BoxState::Running => "running",
            BoxState::Archiving => "archiving",
            BoxState::Archived => "archived",
            BoxState::Error => "error",
            BoxState::Unknown => "unknown",
        }
    }

    /// The state a wire name stands for; a name the API may add later reads as `Unknown`.
    pub fn from_name(name: &str) -> (r: BoxState)
        ensures
            r == state_of_name(name@),
    {
        if str_eq(name, "init") {
            BoxState::Init
        } else if str_eq(name, "provisioning") {
            BoxState::Provisioning
        } else if str_eq(name, "provisioned") {
            BoxState::Provisioned
        } else if str_eq(name, "cloning") {
            BoxState::Cloning
        } else if str_eq(name, "ready") {
            BoxState::Ready
        } else if str_eq(name, "idle") {
            BoxState::Idle
        } else if str_eq(name, "running") {
            BoxState::Running
        } else if str_eq(name, "archiving") {
            BoxState::Archiving
        } else if str_eq(name, "archived") {
            BoxState::Archived
        } else if str_eq(name, "error") {
            BoxState::Error
        } else {
            BoxState::Unknown
        }
    }

    /// States where command / SSH / agent work can proceed.
    pub fn is_operable(&self) -> (r: bool)
        ensures
            r == operable(*self),
    {
        match self {
            BoxState::Ready | BoxState::Idle | BoxState::Running => true,
            _ => false,
        }
    }

    /// Terminal failure states.
    pub fn is_terminal_failure(&self) -> (r: bool)
        ensures
            r == terminal_failure(*self),
    {
        match self {
            BoxState::Archived | BoxState::Archiving | BoxState::Error => true,
            _ => false,
        }
    }
}

#[derive(Clone, Debug)]
pub struct PageInfo {
    pub next_cursor: Option<String>,
    pub has_more: bool,
    pub limit: u32,
}

// --- Requests ---
#[derive(Clone)]
pub struct CreateBoxRequest {
    pub type_: Option<String>,
    /// `None` = omit (server default). `Some(None)` = JSON null (no auto-stop).
    /// `Some(Some(n))` = n seconds.
    pub ttl_seconds: Option<TtlSeconds>,
    pub env: Option<HashMap<String, String>>,
    pub environment: Option<String>,
    pub no_env: Option<bool>,
    pub setup_script: Option<String>,
    pub org: Option<String>,
    pub from: Option<String>,
}

/// A create request that sets nothing.
pub open spec fn empty_create(r: CreateBoxRequest) -> bool {
    &&& r.type_ is None
    &&& r.env is None
    &&& r.environment is None
    &&& r.no_env is None
    &&& r.setup_script is None
    &&& r.org is None
    &&& r.from is None
}

impl Default for CreateBoxRequest {
    fn default() -> (r: CreateBoxRequest)
        ensures
            empty_create(r),
            r.ttl_seconds is None,
    {
        CreateBoxRequest {
            type_: None,
            ttl_seconds: None,
            env: None,
            environment: None,
            no_env: None,
            setup_script: None,
            org: None,
            from: None,
        }
    }
}

impl CreateBoxRequest {
    /// A box that stops itself after `seconds`.
    pub fn ttl(seconds: u32) -> (r: CreateBoxRequest)
        ensures
            empty_create(r),
            r.ttl_seconds == Some(Some(seconds)),
    {
        CreateBoxRequest { ttl_seconds: Some(Some(seconds)), ..CreateBoxRequest::default() }
    }

    /// A box without automatic stop (`ttlSeconds: null`).
    pub fn no_auto_stop() -> (r: CreateBoxRequest)
        ensures
            empty_create(r),
            r.ttl_seconds == Some(None::<u32>),
    {
        CreateBoxRequest { ttl_seconds: Some(None), ..CreateBoxRequest::default() }
    }
}

#[derive(Clone, Debug)]
pub struct UpdateBoxRequest {
    pub name: Option<String>,
    pub ttl_seconds: Option<TtlSeconds>,
    pub subdomain: Option<String>,
}

impl Default for UpdateBoxRequest {
    fn default() -> (r: UpdateBoxRequest)
        ensures
            r.name is None,
            r.ttl_seconds is None,
            r.subdomain is None,
    {
        UpdateBoxRequest { name: None, ttl_seconds: None, subdomain: None }
    }
}

#[derive(Clone, Debug)]
pub struct StopRequest {
    pub force: Option<bool>,
}

impl Default for StopRequest {
    fn default() -> (r: StopRequest)
        ensures
            r.force is None,
    {
        StopRequest { force: None }
    }
}

#[derive(Clone)]
pub struct ResumeRequest {
    pub type_: Option<String>,
    pub env: Option<HashMap<String, String>>,
    pub environment: Option<String>,
    pub no_env: Option<bool>,
    pub ttl_seconds: Option<TtlSeconds>,
}

impl Default for ResumeRequest {
    fn default() -> (r: ResumeRequest)
        ensures
            r.type_ is None,
            r.env is None,
            r.environment is None,
            r.no_env is None,
            r.ttl_seconds is None,
    {
        ResumeRequest { type_: None, env: None, environment: None, no_env: None, ttl_seconds: None }
    }
}

#[derive(Clone, Debug)]
pub struct BoxesQuery {
    pub limit: Option<u32>,
    pub cursor: Option<String>,
    pub sort: Option<String>,
    pub state: Option<String>,
}

impl Default for BoxesQuery {
    fn default() -> (r: BoxesQuery)
        ensures
            r.limit is None,
            r.cursor is None,
            r.sort is None,
            r.state is None,
    {
        BoxesQuery { limit: None, cursor: None, sort: None, state: None }
    }
}

/// The query parameters of a list request, in field order, present fields only.
pub open spec fn boxes_query_params(q: BoxesQuery) -> Seq<(Seq<char>, Seq<char>)> {
    opt_pair("limit"@, opt_decimal(q.limit)) + opt_pair("cursor"@, opt_view(q.cursor)) + opt_pair(
        "sort"@,
        opt_view(q.sort),
    ) + opt_pair("state"@, opt_view(q.state))
}

fn push_opt_pair(v: &mut Vec<(String, String)>, name: &str, value: &Option<String>)
    ensures
        pairs_view(final(v)@) == pairs_view(old(v)@) + opt_pair(name@, opt_view(*value)),
{
    let ghost before = pairs_view(v@);
    match value {
        Some(x) => {
            v.push((owned(name), x.clone()));
            assert(pairs_view(v@) =~= before + opt_pair(name@, opt_view(*value)));
        },
        None => {
            assert(pairs_view(v@) =~= before + opt_pair(name@, opt_view(*value)));
        },
    }
}

impl BoxesQuery {
    /// The query parameters this query sends.
    pub fn query_params(&self) -> (r: Vec<(String, String)>)
        ensures
            pairs_view(r@) == boxes_query_params(*self),
    {
        let mut v: Vec<(String, String)> = Vec::new();
        let limit = match self.limit {
            Some(n) => Some(decimal_string(n as u64)),
            None => None,
        };
        assert(opt_view(limit) == opt_decimal(self.limit));
        assert(pairs_view(v@) =~= Seq::empty());
        push_opt_pair(&mut v, "limit", &limit);
        push_opt_pair(&mut v, "cursor", &self.cursor);
        push_opt_pair(&mut v, "sort", &self.sort);
        push_opt_pair(&mut v, "state", &self.state);
        assert(pairs_view(v@) =~= boxes_query_params(*self));
        v
    }
}

/// The place of a list parameter in the query: `limit`, `cursor`, `sort`, `state`.
pub open spec fn list_param_rank(name: Seq<char>) -> int {
    if name == "limit"@ {
        0
    } else if name == "cursor"@ {
        1
    } else if name == "sort"@ {
        2
    } else {
        3
    }
}

/// The parameters of a list request are exactly its present fields, each once with its
/// value: `limit` as decimal text, `cursor`, `sort` and `state` as given. An absent field
/// sends no parameter.
pub proof fn lemma_boxes_query_params_are_present_fields(q: BoxesQuery)
    ensures
        forall|v: Seq<char>|
            #![trigger boxes_query_params(q).contains(("cursor"@, v))]
            boxes_query_params(q).contains(("cursor"@, v)) <==> opt_view(q.cursor) == Some(v),
        forall|v: Seq<char>|
            #![trigger boxes_query_params(q).contains(("sort"@, v))]
            boxes_query_params(q).contains(("sort"@, v)) <==> opt_view(q.sort) == Some(v),
        forall|v: Seq<char>|
            #![trigger boxes_query_params(q).contains(("state"@, v))]
            boxes_query_params(q).contains(("state"@, v)) <==> opt_view(q.state) == Some(v),
        forall|v: Seq<char>|
            #![trigger boxes_query_params(q).contains(("limit"@, v))]
            boxes_query_params(q).contains(("limit"@, v)) <==> (q.limit matches Some(n) && v
                == decimal(n as nat)),
        boxes_query_params(q).len() == (if q.limit is Some { 1int } else { 0 }) + (if q.cursor is Some {
            1int
        } else {
            0
        }) + (if q.sort is Some { 1int } else { 0 }) + (if q.state is Some { 1int } else { 0 }),
        forall|i: int, j: int|
            0 <= i < j < boxes_query_params(q).len() ==> #[trigger] boxes_query_params(q)[i].0
                != #[trigger] boxes_query_params(q)[j].0,
        forall|i: int, j: int|
            0 <= i < j < boxes_query_params(q).len() ==> list_param_rank(
                #[trigger] boxes_query_params(q)[i].0,
            ) < list_param_rank(#[trigger] boxes_query_params(q)[j].0),
{
    reveal_strlit("limit");
    reveal_strlit("cursor");
    reveal_strlit("sort");
    reveal_strlit("state");
    let l = opt_pair("limit"@, opt_decimal(q.limit));
    let c = opt_pair("cursor"@, opt_view(q.cursor));
    let so = opt_pair("sort"@, opt_view(q.sort));
    let st = opt_pair("state"@, opt_view(q.state));
    let p = boxes_query_params(q);
    assert(p =~= l + c + so + st);
    assert("limit"@ != "cursor"@ && "limit"@ != "sort"@ && "limit"@ != "state"@) by {
        assert("limit"@[0] != "cursor"@[0]);
        assert("limit"@[0] != "sort"@[0]);
        assert("limit"@[0] != "state"@[0]);
    }
    assert("cursor"@ != "sort"@ && "cursor"@ != "state"@) by {
        assert("cursor"@[0] != "sort"@[0]);
        assert("cursor"@[0] != "state"@[0]);
    }
    assert("sort"@ != "state"@) by {
        assert("sort"@[1] != "state"@[1]);
    }
    // Every pair of p comes from one of the four fields, under that field's name.
    assert forall|k: int| 0 <= k < p.len() implies {
        ||| (p[k].0 == "limit"@ && opt_decimal(q.limit) == Some(p[k].1) && k == 0)
        ||| (p[k].0 == "cursor"@ && opt_view(q.cursor) == Some(p[k].1) && k == l.len())
        ||| (p[k].0 == "sort"@ && opt_view(q.sort) == Some(p[k].1) && k == l.len() + c.len())
        ||| (p[k].0 == "state"@ && opt_view(q.state) == Some(p[k].1) && k == l.len() + c.len()
            + so.len())
    } by {
        if k < l.len() {
            assert(p[k] == l[k]);
        } else if k < l.len() + c.len() {
            assert(p[k] == c[k - l.len()]);
        } else if k < l.len() + c.len() + so.len() {
            assert(p[k] == so[k - l.len() - c.len()]);
        } else {
            assert(p[k] == st[k - l.len() - c.len() - so.len()]);
        }
    }
    assert forall|v: Seq<char>| opt_view(q.cursor) == Some(v) implies #[trigger] p.contains(
        ("cursor"@, v),
    ) by {
        assert(p[l.len() as int] == ("cursor"@, v));
    }
    assert forall|v: Seq<char>| opt_view(q.sort) == Some(v) implies #[trigger] p.contains(
        ("sort"@, v),
    ) by {
        assert(p[(l.len() + c.len()) as int] == ("sort"@, v));
    }
    assert forall|v: Seq<char>| opt_view(q.state) == Some(v) implies #[trigger] p.contains(
        ("state"@, v),
    ) by {
        assert(p[(l.len() + c.len() + so.len()) as int] == ("state"@, v));
    }
    assert forall|v: Seq<char>| opt_decimal(q.limit) == Some(v) implies #[trigger] p.contains(
        ("limit"@, v),
    ) by {
        assert(p[0] == ("limit"@, v));
    }
}

#[derive(Clone)]
pub struct CommandRequest {
    pub command: String,
    pub cwd: Option<String>,
    pub timeout_seconds: Option<u32>,
    pub detached: Option<bool>,
}

impl CommandRequest {
    /// A synchronous shell command with server defaults for everything else.
    pub fn new(command: &str) -> (r: CommandRequest)
        ensures
            r.command@ == command@,
            r.cwd is None,
            r.timeout_seconds is None,
            r.detached is None,
    {
        CommandRequest { command: owned(command), cwd: None, timeout_seconds: None, detached: None }
    }

    /// The same request with the in-box timeout set.
    pub fn with_timeout_seconds(self, seconds: u32) -> (r: CommandRequest)
        ensures
            r.timeout_seconds == Some(seconds),
            r.command == self.command,
            r.cwd == self.cwd,
            r.detached == self.detached,
    {
        CommandRequest { timeout_seconds: Some(seconds), ..self }
    }

    /// The same request with the working directory set.
    pub fn with_cwd(self, cwd: &str) -> (r: CommandRequest)
        ensures
            opt_view(r.cwd) == Some(cwd@),
            r.command == self.command,
            r.timeout_seconds == self.timeout_seconds,
            r.detached == self.detached,
    {
        CommandRequest { cwd: Some(owned(cwd)), ..self }
    }
}

#[derive(Clone)]
pub struct CommandResponse {
    pub ok: bool,
    pub type_: Option<String>,
    pub success: bool,
    pub exit_code: Option<i32>,
    pub signal: Option<String>,
    pub stdout: String,
    pub stderr: String,
    pub stdout_truncated: Option<bool>,
    pub stderr_truncated: Option<bool>,
    pub timed_out: bool,
    pub cwd: Option<String>,
    pub started_at: Option<String>,
    pub finished_at: Option<String>,
}

#[derive(Clone, Debug)]
pub struct FileReadQuery {
    pub path: String,
    pub encoding: Option<String>,
}

/// The query parameters of a file read: the path, then the encoding when given.
pub open spec fn file_read_params(q: FileReadQuery) -> Seq<(Seq<char>, Seq<char>)> {
    seq![("path"@, q.path@)] + opt_pair("encoding"@, opt_view(q.encoding))
}

/// A file read sends its path first, then its encoding when one is given, and nothing else.
pub proof fn lemma_file_read_params(q: FileReadQuery)
    ensures
        file_read_params(q).len() == if q.encoding is Some { 2int } else { 1int },
        file_read_params(q)[0] == ("path"@, q.path@),
        q.encoding is Some ==> file_read_params(q)[1] == ("encoding"@, q.encoding->0@),
{
}

impl FileReadQuery {
    /// The query parameters this query sends.
    pub fn query_params(&self) -> (r: Vec<(String, String)>)
        ensures
            pairs_view(r@) == file_read_params(*self),
    {
        let mut v: Vec<(String, String)> = Vec::new();
        v.push((owned("path"), self.path.clone()));
        assert(pairs_view(v@) =~= seq![("path"@, self.path@)]);
        push_opt_pair(&mut v, "encoding", &self.encoding);
        v
    }
}

#[derive(Clone)]
pub struct FileWriteRequest {
    pub path: String,
    pub content: String,
    pub encoding: Option<String>,
}

#[derive(Clone, Debug)]
pub struct HostPortRequest {
    pub port: u16,
}

#[derive(Clone)]
pub struct HostPortResponse {
    pub ok: bool,
    pub type_: Option<String>,
    pub success: Option<bool>,
    pub port: Option<u16>,
    /// May include a short-lived `_token` query param: treat as secret.
    pub url: Option<String>,
    pub is_protected: Option<bool>,
    pub access: Option<String>,
}

#[derive(Clone, Debug)]
pub struct SshKeyRequest {
    pub public_key: String,
}

#[derive(Clone, Debug)]
pub struct SshKeyResponse {
    pub ok: bool,
    pub type_: Option<String>,
    pub success: Option<bool>,
    pub machine_ip: Option<String>,
    pub ssh_user: Option<String>,
}

/// The error envelope the API sends with a failure status.
#[derive(Clone, Debug)]
pub struct ApiErrorBody {
    pub ok: bool,
    pub type_: Option<String>,
    pub status: Option<u16>,
    pub code: Option<String>,
    pub message: Option<String>,
    pub request_id: Option<String>,
    pub error: Option<ApiErrorDetail>,
}

#[derive(Clone, Debug)]
pub struct ApiErrorDetail {
    pub code: Option<String>,
    pub message: Option<String>,
    pub status: Option<u16>,
    pub details: Option<serde_json::Value>,
}

// --- More responses ---
#[derive(Clone, Debug)]
pub struct LimitsResponse {
    pub ok: bool,
    pub type_: Option<String>,
    pub extra: HashMap<String, serde_json::Value>,
}

#[derive(Clone)]
pub struct FileReadResponse {
    pub ok: bool,
    pub type_: Option<String>,
    pub path: Option<String>,
    pub content: Option<String>,
    pub encoding: Option<String>,
    pub extra: HashMap<String, serde_json::Value>,
}

#[derive(Clone, Debug)]
pub struct FileWriteResponse {
    pub ok: bool,
    pub type_: Option<String>,
    pub success: Option<bool>,
    pub extra: HashMap<String, serde_json::Value>,
}

// --- Log-safe renderings ---
/// A secret text in a rendering: its length only.
pub open spec fn opt_redacted(o: Option<String>) -> Option<Seq<char>> {
    match o {
        Some(s) => Some(redacted(s@)),
        None => None,
    }
}

/// A count of hidden entries: `<redacted NAME=N>`.
pub open spec fn redacted_count(name: Seq<char>, n: nat) -> Seq<char> {
    "<redacted "@ + name + "="@ + decimal(n) + ">"@
}

/// Environment variables in a rendering: how many there are, nothing else.
pub open spec fn opt_env_redacted(o: Option<HashMap<String, String>>) -> Option<Seq<char>> {
    match o {
        Some(m) => Some(redacted_count("vars"@, spec_hash_map_len(&m) as nat)),
        None => None,
    }
}

/// Extra response fields in a rendering: how many there are, nothing else.
pub open spec fn extra_redacted(m: HashMap<String, serde_json::Value>) -> Seq<char> {
    str_debug_text(redacted_count("fields"@, spec_hash_map_len(&m) as nat))
}

/// The optional number `Debug` text of an optional `u32`.
pub open spec fn opt_u32_text(o: Option<u32>) -> Seq<char> {
    opt_num_text(
        match o {
            Some(n) => Some(n as int),
            None => None,
        },
    )
}

/// The optional number `Debug` text of an optional `u16`.
pub open spec fn opt_u16_text(o: Option<u16>) -> Seq<char> {
    opt_num_text(
        match o {
            Some(n) => Some(n as int),
            None => None,
        },
    )
}

/// The optional number `Debug` text of an optional `i32`.
pub open spec fn opt_i32_text(o: Option<i32>) -> Seq<char> {
    opt_num_text(
        match o {
            Some(n) => Some(n as int),
            None => None,
        },
    )
}

fn redacted_count_string(name: &str, n: usize) -> (r: String)
    ensures
        r@ == redacted_count(name@, n as nat),
{
    let mut r = "<redacted ".to_owned();
    r.append(name);
    r.append("=");
    push_decimal(&mut r, n as u64);
    r.append(">");
    r
}

fn opt_redacted_string(o: &Option<String>) -> (r: String)
    ensures
        r@ == opt_str_text(opt_redacted(*o)),
{
    let hidden = match o {
        Some(s) => Some(redact_secret(s.as_str())),
        None => None,
    };
    assert(opt_view(hidden) == opt_redacted(*o));
    opt_str_string(&hidden)
}

fn opt_env_string(o: &Option<HashMap<String, String>>) -> (r: String)
    ensures
        r@ == opt_str_text(opt_env_redacted(*o)),
{
    let hidden = match o {
        Some(m) => Some(redacted_count_string("vars", m.len())),
        None => None,
    };
    assert(opt_view(hidden) == opt_env_redacted(*o));
    opt_str_string(&hidden)
}

fn extra_string(m: &HashMap<String, serde_json::Value>) -> (r: String)
    ensures
        r@ == extra_redacted(*m),
{
    quoted_string(redacted_count_string("fields", m.len()).as_str())
}

fn opt_u32_string(o: Option<u32>) -> (r: String)
    ensures
        r@ == opt_u32_text(o),
{
    opt_num_string(
        match o {
            Some(n) => Some(n as i64),
            None => None,
        },
    )
}

fn opt_u16_string(o: Option<u16>) -> (r: String)
    ensures
        r@ == opt_u16_text(o),
{
    opt_num_string(
        match o {
            Some(n) => Some(n as i64),
            None => None,
        },
    )
}

fn opt_i32_string(o: Option<i32>) -> (r: String)
    ensures
        r@ == opt_i32_text(o),
{
    opt_num_string(
        match o {
            Some(n) => Some(n as i64),
            None => None,
        },
    )
}

fn field(fields: &mut Vec<(String, String)>, name: &str, value: String)
    ensures
        pairs_view(final(fields)@) == pairs_view(old(fields)@).push((name@, value@)),
{
    fields.push((name.to_owned(), value));
    assert(pairs_view(fields@) =~= pairs_view(old(fields)@).push((name@, value@)));
}

/// The rendered fields of a `CreateBoxRequest`, in declaration order.
pub open spec fn create_request_fields(r: CreateBoxRequest) -> Seq<(Seq<char>, Seq<char>)> {
    seq![
        ("type_"@, opt_str_text(opt_view(r.type_))),
        ("ttl_seconds"@, opt_ttl_text(r.ttl_seconds)),
        ("env"@, opt_str_text(opt_env_redacted(r.env))),
        ("environment"@, opt_str_text(opt_view(r.environment))),
        ("no_env"@, opt_bool_text(r.no_env)),
        ("setup_script"@, opt_str_text(opt_redacted(r.setup_script))),
        ("org"@, opt_str_text(opt_view(r.org))),
        ("from"@, opt_str_text(opt_view(r.from))),
    ]
}

/// The `Debug` text of a create request: the environment shows only how many variables it
/// sets, the setup script only its length.
pub open spec fn create_request_text(r: CreateBoxRequest) -> Seq<char> {
    struct_text("CreateBoxRequest"@, create_request_fields(r))
}

impl CreateBoxRequest {
    /// The log-safe `Debug` text.
    pub fn debug_string(&self) -> (r: String)
        ensures
            r@ == create_request_text(*self),
    {
        let mut f: Vec<(String, String)> = Vec::new();
        assert(pairs_view(f@) =~= Seq::empty());
        field(&mut f, "type_", opt_str_string(&self.type_));
        field(&mut f, "ttl_seconds", opt_ttl_string(self.ttl_seconds));
        field(&mut f, "env", opt_env_string(&self.env));
        field(&mut f, "environment", opt_str_string(&self.environment));
        field(&mut f, "no_env", opt_bool_string(self.no_env));
        field(&mut f, "setup_script", opt_redacted_string(&self.setup_script));
        field(&mut f, "org", opt_str_string(&self.org));
        field(&mut f, "from", opt_str_string(&self.from));
        assert(pairs_view(f@) =~= create_request_fields(*self));
        let r = struct_string("CreateBoxRequest", &f);
        r
    }
}

/// The rendered fields of a `ResumeRequest`, in declaration order.
pub open spec fn resume_request_fields(r: ResumeRequest) -> Seq<(Seq<char>, Seq<char>)> {
    seq![
        ("type_"@, opt_str_text(opt_view(r.type_))),
        ("env"@, opt_str_text(opt_env_redacted(r.env))),
        ("environment"@, opt_str_text(opt_view(r.environment))),
        ("no_env"@, opt_bool_text(r.no_env)),
        ("ttl_seconds"@, opt_ttl_text(r.ttl_seconds)),
    ]
}

/// The `Debug` text of a resume request: the environment shows only how many variables it
/// sets.
pub open spec fn resume_request_text(r: ResumeRequest) -> Seq<char> {
    struct_text("ResumeRequest"@, resume_request_fields(r))
}

impl ResumeRequest {
    /// The log-safe `Debug` text.
    pub fn debug_string(&self) -> (r: String)
        ensures
            r@ == resume_request_text(*self),
    {
        let mut f: Vec<(String, String)> = Vec::new();
        assert(pairs_view(f@) =~= Seq::empty());
        field(&mut f, "type_", opt_str_string(&self.type_));
        field(&mut f, "env", opt_env_string(&self.env));
        field(&mut f, "environment", opt_str_string(&self.environment));
        field(&mut f, "no_env", opt_bool_string(self.no_env));
        field(&mut f, "ttl_seconds", opt_ttl_string(self.ttl_seconds));
        assert(pairs_view(f@) =~= resume_request_fields(*self));
        let r = struct_string("ResumeRequest", &f);
        r
    }
}

/// The rendered fields of a `CommandRequest`, in declaration order.
pub open spec fn command_request_fields(r: CommandRequest) -> Seq<(Seq<char>, Seq<char>)> {
    seq![
        ("command"@, str_debug_text(redacted(r.command@))),
        ("cwd"@, opt_str_text(opt_view(r.cwd))),
        ("timeout_seconds"@, opt_u32_text(r.timeout_seconds)),
        ("detached"@, opt_bool_text(r.detached)),
    ]
}

/// The `Debug` text of a command request: the command shows only its length.
pub open spec fn command_request_text(r: CommandRequest) -> Seq<char> {
    struct_text("CommandRequest"@, command_request_fields(r))
}

impl CommandRequest {
    /// The log-safe `Debug` text.
    pub fn debug_string(&self) -> (r: String)
        ensures
            r@ == command_request_text(*self),
    {
        let mut f: Vec<(String, String)> = Vec::new();
        assert(pairs_view(f@) =~= Seq::empty());
        field(&mut f, "command", quoted_string(redact_secret(self.command.as_str()).as_str()));
        field(&mut f, "cwd", opt_str_string(&self.cwd));
        field(&mut f, "timeout_seconds", opt_u32_string(self.timeout_seconds));
        field(&mut f, "detached", opt_bool_string(self.detached));
        assert(pairs_view(f@) =~= command_request_fields(*self));
        let r = struct_string("CommandRequest", &f);
        r
    }
}

/// The rendered fields of a `CommandResponse`, in declaration order.
pub open spec fn command_response_fields(r: CommandResponse) -> Seq<(Seq<char>, Seq<char>)> {
    seq![
        ("ok"@, bool_text(r.ok)),
        ("type_"@, opt_str_text(opt_view(r.type_))),
        ("success"@, bool_text(r.success)),
        ("exit_code"@, opt_i32_text(r.exit_code)),
        ("signal"@, opt_str_text(opt_view(r.signal))),
        ("stdout"@, str_debug_text(redacted(r.stdout@))),
        ("stderr"@, str_debug_text(redacted(r.stderr@))),
        ("stdout_truncated"@, opt_bool_text(r.stdout_truncated)),
        ("stderr_truncated"@, opt_bool_text(r.stderr_truncated)),
        ("timed_out"@, bool_text(r.timed_out)),
        ("cwd"@, opt_str_text(opt_view(r.cwd))),
        ("started_at"@, opt_str_text(opt_view(r.started_at))),
        ("finished_at"@, opt_str_text(opt_view(r.finished_at))),
    ]
}

/// The `Debug` text of a command response: the output streams show only their lengths.
pub open spec fn command_response_text(r: CommandResponse) -> Seq<char> {
    struct_text("CommandResponse"@, command_response_fields(r))
}

impl CommandResponse {
    /// The log-safe `Debug` text.
    pub fn debug_string(&self) -> (r: String)
        ensures
            r@ == command_response_text(*self),
    {
        let mut f: Vec<(String, String)> = Vec::new();
        assert(pairs_view(f@) =~= Seq::empty());
        field(&mut f, "ok", bool_string(self.ok));
        field(&mut f, "type_", opt_str_string(&self.type_));
        field(&mut f, "success", bool_string(self.success));
        field(&mut f, "exit_code", opt_i32_string(self.exit_code));
        field(&mut f, "signal", opt_str_string(&self.signal));
        field(&mut f, "stdout", quoted_string(redact_secret(self.stdout.as_str()).as_str()));
        field(&mut f, "stderr", quoted_string(redact_secret(self.stderr.as_str()).as_str()));
        field(&mut f, "stdout_truncated", opt_bool_string(self.stdout_truncated));
        field(&mut f, "stderr_truncated", opt_bool_string(self.stderr_truncated));
        field(&mut f, "timed_out", bool_string(self.timed_out));
        field(&mut f, "cwd", opt_str_string(&self.cwd));
        field(&mut f, "started_at", opt_str_string(&self.started_at));
        field(&mut f, "finished_at", opt_str_string(&self.finished_at));
        assert(pairs_view(f@) =~= command_response_fields(*self));
        let r = struct_string("CommandResponse", &f);
        r
    }
}

/// The rendered fields of a `FileWriteRequest`, in declaration order.
pub open spec fn file_write_fields(r: FileWriteRequest) -> Seq<(Seq<char>, Seq<char>)> {
    seq![
        ("path"@, str_debug_text(r.path@)),
        ("content"@, str_debug_text(redacted(r.content@))),
        ("encoding"@, opt_str_text(opt_view(r.encoding))),
    ]
}

/// The `Debug` text of a file write: the content shows only its length.
pub open spec fn file_write_text(r: FileWriteRequest) -> Seq<char> {
    struct_text("FileWriteRequest"@, file_write_fields(r))
}

impl FileWriteRequest {
    /// The log-safe `Debug` text.
    pub fn debug_string(&self) -> (r: String)
        ensures
            r@ == file_write_text(*self),
    {
        let mut f: Vec<(String, String)> = Vec::new();
        assert(pairs_view(f@) =~= Seq::empty());
        field(&mut f, "path", quoted_string(self.path.as_str()));
        field(&mut f, "content", quoted_string(redact_secret(self.content.as_str()).as_str()));
        field(&mut f, "encoding", opt_str_string(&self.encoding));
        assert(pairs_view(f@) =~= file_write_fields(*self));
        let r = struct_string("FileWriteRequest", &f);
        r
    }
}

/// The rendered fields of a `FileReadResponse`, in declaration order.
pub open spec fn file_read_fields(r: FileReadResponse) -> Seq<(Seq<char>, Seq<char>)> {
    seq![
        ("ok"@, bool_text(r.ok)),
        ("type_"@, opt_str_text(opt_view(r.type_))),
        ("path"@, opt_str_text(opt_view(r.path))),
        ("content"@, opt_str_text(opt_redacted(r.content))),
        ("encoding"@, opt_str_text(opt_view(r.encoding))),
        ("extra"@, extra_redacted(r.extra)),
    ]
}

/// The `Debug` text of a file read: the content shows only its length, the extra fields
/// only how many there are.
pub open spec fn file_read_text(r: FileReadResponse) -> Seq<char> {
    struct_text("FileReadResponse"@, file_read_fields(r))
}

impl FileReadResponse {
    /// The log-safe `Debug` text.
    pub fn debug_string(&self) -> (r: String)
        ensures
            r@ == file_read_text(*self),
    {
        let mut f: Vec<(String, String)> = Vec::new();
        assert(pairs_view(f@) =~= Seq::empty());
        field(&mut f, "ok", bool_string(self.ok));
        field(&mut f, "type_", opt_str_string(&self.type_));
        field(&mut f, "path", opt_str_string(&self.path));
        field(&mut f, "content", opt_redacted_string(&self.content));
        field(&mut f, "encoding", opt_str_string(&self.encoding));
        field(&mut f, "extra", extra_string(&self.extra));
        assert(pairs_view(f@) =~= file_read_fields(*self));
        let r = struct_string("FileReadResponse", &f);
        r
    }
}

/// The rendered fields of a `HostPortResponse`, in declaration order.
pub open spec fn host_port_fields(r: HostPortResponse) -> Seq<(Seq<char>, Seq<char>)> {
    seq![
        ("ok"@, bool_text(r.ok)),
        ("type_"@, opt_str_text(opt_view(r.type_))),
        ("success"@, opt_bool_text(r.success)),
        ("port"@, opt_u16_text(r.port)),
        ("url"@, option_text_of_url(r.url)),
        ("is_protected"@, opt_bool_text(r.is_protected)),
        ("access"@, opt_str_text(opt_view(r.access))),
    ]
}

/// The `Debug` text of a hosted port: the URL (which may carry a token) shows as
/// `<redacted>`.
pub open spec fn host_port_text(r: HostPortResponse) -> Seq<char> {
    struct_text("HostPortResponse"@, host_port_fields(r))
}

/// A URL in a rendering: `Some("<redacted>")` when present.
pub open spec fn option_text_of_url(o: Option<String>) -> Seq<char> {
    match o {
        Some(_) => "Some(\"<redacted>\")"@,
        None => "None"@,
    }
}

impl HostPortResponse {
    /// The log-safe `Debug` text.
    pub fn debug_string(&self) -> (r: String)
        ensures
            r@ == host_port_text(*self),
    {
        let mut f: Vec<(String, String)> = Vec::new();
        assert(pairs_view(f@) =~= Seq::empty());
        field(&mut f, "ok", bool_string(self.ok));
        field(&mut f, "type_", opt_str_string(&self.type_));
        field(&mut f, "success", opt_bool_string(self.success));
        field(&mut f, "port", opt_u16_string(self.port));
        let url = match &self.url {
            Some(_) => "Some(\"<redacted>\")".to_owned(),
            None => "None".to_owned(),
        };
        field(&mut f, "url", url);
        field(&mut f, "is_protected", opt_bool_string(self.is_protected));
        field(&mut f, "access", opt_str_string(&self.access));
        assert(pairs_view(f@) =~= host_port_fields(*self));
        let r = struct_string("HostPortResponse", &f);
        r
    }
}

/// Distinct states have distinct wire names, so a name identifies its state.
pub proof fn lemma_state_names_distinct(a: BoxState, b: BoxState)
    requires
        a != b,
    ensures
        state_name(a) != state_name(b),
{
    reveal_strlit("init");
    reveal_strlit("provisioning");
    reveal_strlit("provisioned");
    reveal_strlit("cloning");
    reveal_strlit("ready");
    reveal_strlit("idle");
    reveal_strlit("running");
    reveal_strlit("archiving");
    reveal_strlit("archived");
    reveal_strlit("error");
    reveal_strlit("unknown");
    if state_name(a) == state_name(b) {
        assert(state_name(a).len() == state_name(b).len());
        assert(state_name(a)[state_name(a).len() - 1] == state_name(b)[state_name(b).len() - 1]);
        assert(state_name(a)[0] == state_name(b)[0]);
        assert(state_name(a)[1] == state_name(b)[1]);
    }
}

/// Reading a state's wire name back gives the same state, `Unknown` included.
pub proof fn lemma_state_name_round_trip(s: BoxState)
    ensures
        state_of_name(state_name(s)) == s,
{
    if s != BoxState::Init {
        lemma_state_names_distinct(s, BoxState::Init);
    }
    if s != BoxState::Provisioning {
        lemma_state_names_distinct(s, BoxState::Provisioning);
    }
    if s != BoxState::Provisioned {
        lemma_state_names_distinct(s, BoxState::Provisioned);
    }
    if s != BoxState::Cloning {
        lemma_state_names_distinct(s, BoxState::Cloning);
    }
    if s != BoxState::Ready {
        lemma_state_names_distinct(s, BoxState::Ready);
    }
    if s != BoxState::Idle {
        lemma_state_names_distinct(s, BoxState::Idle);
    }
    if s != BoxState::Running {
        lemma_state_names_distinct(s, BoxState::Running);
    }
    if s != BoxState::Archiving {
        lemma_state_names_distinct(s, BoxState::Archiving);
    }
    if s != BoxState::Archived {
        lemma_state_names_distinct(s, BoxState::Archived);
    }
    if s != BoxState::Error {
        lemma_state_names_distinct(s, BoxState::Error);
    }
    if s != BoxState::Unknown {
        lemma_state_names_distinct(s, BoxState::Unknown);
    }
}

/// A create request renders without its environment values or setup script: two requests
/// that agree elsewhere, set as many variables and have scripts of the same length render
/// alike.
pub proof fn lemma_create_request_text_hides_secrets(a: CreateBoxRequest, b: CreateBoxRequest)
    requires
        opt_view(a.type_) == opt_view(b.type_),
        a.ttl_seconds == b.ttl_seconds,
        opt_env_redacted(a.env) == opt_env_redacted(b.env),
        opt_view(a.environment) == opt_view(b.environment),
        a.no_env == b.no_env,
        opt_redacted(a.setup_script) == opt_redacted(b.setup_script),
        opt_view(a.org) == opt_view(b.org),
        opt_view(a.from) == opt_view(b.from),
    ensures
        create_request_text(a) == create_request_text(b),
{
    assert(create_request_fields(a) =~= create_request_fields(b));
}

/// A command request renders without its command text, a command response without its
/// output: only their lengths show.
pub proof fn lemma_command_texts_hide_secrets(
    a: CommandRequest,
    b: CommandRequest,
    x: CommandResponse,
    y: CommandResponse,
)
    requires
        redacted(a.command@) == redacted(b.command@),
        opt_view(a.cwd) == opt_view(b.cwd),
        a.timeout_seconds == b.timeout_seconds,
        a.detached == b.detached,
        x.ok == y.ok,
        opt_view(x.type_) == opt_view(y.type_),
        x.success == y.success,
        x.exit_code == y.exit_code,
        opt_view(x.signal) == opt_view(y.signal),
        redacted(x.stdout@) == redacted(y.stdout@),
        redacted(x.stderr@) == redacted(y.stderr@),
        x.stdout_truncated == y.stdout_truncated,
        x.stderr_truncated == y.stderr_truncated,
        x.timed_out == y.timed_out,
        opt_view(x.cwd) == opt_view(y.cwd),
        opt_view(x.started_at) == opt_view(y.started_at),
        opt_view(x.finished_at) == opt_view(y.finished_at),
    ensures
        command_request_text(a) == command_request_text(b),
        command_response_text(x) == command_response_text(y),
{
    assert(command_request_fields(a) =~= command_request_fields(b));
    assert(command_response_fields(x) =~= command_response_fields(y));
}

/// File contents never show in renderings: only their lengths.
pub proof fn lemma_file_texts_hide_content(
    a: FileWriteRequest,
    b: FileWriteRequest,
    x: FileReadResponse,
    y: FileReadResponse,
)
    requires
        a.path@ == b.path@,
        redacted(a.content@) == redacted(b.content@),
        opt_view(a.encoding) == opt_view(b.encoding),
        x.ok == y.ok,
        opt_view(x.type_) == opt_view(y.type_),
        opt_view(x.path) == opt_view(y.path),
        opt_redacted(x.content) == opt_redacted(y.content),
        opt_view(x.encoding) == opt_view(y.encoding),
        extra_redacted(x.extra) == extra_redacted(y.extra),
    ensures
        file_write_text(a) == file_write_text(b),
        file_read_text(x) == file_read_text(y),
{
    assert(file_write_fields(a) =~= file_write_fields(b));
    assert(file_read_fields(x) =~= file_read_fields(y));
}

/// A hosted port's URL never shows in its rendering.
pub proof fn lemma_host_port_text_hides_url(a: HostPortResponse, b: HostPortResponse)
    requires
        a.ok == b.ok,
        opt_view(a.type_) == opt_view(b.type_),
        a.success == b.success,
        a.port == b.port,
        a.url is Some == b.url is Some,
        a.is_protected == b.is_protected,
        opt_view(a.access) == opt_view(b.access),
    ensures
        host_port_text(a) == host_port_text(b),
{
    assert(host_port_fields(a) =~= host_port_fields(b));
}

} // verus!
