//! The API client: what request each operation sends, and how an answer is read.
//! Sending is left to the caller; a request here is a complete description of
//! one HTTP exchange.
use vstd::prelude::*;
use vstd::string::*;
use crate::error::{CliError, ErrorView, HttpFailure, map_reqwest_error, spec_transport_error};
use crate::text::{
    concat2, concat3, trim_trailing_slashes, i32_decimal, bool_text, trim_end_slashes,
    int_decimal, bool_chars,
};

verus! {

/// HTTP methods the API uses.
#[derive(Debug, Clone, Copy, PartialEq, Eq, Structural)]
pub enum HttpMethod {
    Get,
    Post,
    Put,
    Delete,
}

/// A text block to insert, sent as `{"type": "text", "markdown": ...}`.
#[derive(Debug, Clone)]
pub struct NewBlock {
    pub markdown: String,
}

/// New markdown for a block, sent as `{"id": ..., "markdown": ...}`.
#[derive(Debug, Clone)]
pub struct BlockUpdate {
    pub id: String,
    pub markdown: String,
}

/// Where blocks go, sent as `{"position": ..., "pageId": ...}`.
#[derive(Debug, Clone)]
pub struct BlockPosition {
    pub position: String,
    pub page_id: String,
}

/// Task dates and state, sent as an object with `scheduleDate`, `deadlineDate`
/// and `state`, each only when present.
#[derive(Debug, Clone)]
pub struct TaskInfo {
    pub schedule_date: Option<String>,
    pub deadline_date: Option<String>,
    pub state: Option<String>,
}

/// Where a new task goes: `{"type": "inbox"}` or `{"type": "dailyNote", "date": ...}`.
#[derive(Debug, Clone)]
pub enum TaskLocation {
    Inbox,
    DailyNote { date: String },
}

/// A new task, sent as `{"markdown": ..., "taskInfo": ..., "location": ...}`.
#[derive(Debug, Clone)]
pub struct NewTask {
    pub markdown: String,
    pub task_info: TaskInfo,
    pub location: TaskLocation,
}

/// Changes to a task, sent as `{"id": ...}` with `markdown` and `taskInfo` when present.
#[derive(Debug, Clone)]
pub struct TaskUpdate {
    pub id: String,
    pub markdown: Option<String>,
    pub task_info: Option<TaskInfo>,
}

/// A new collection item, sent as `{"title": ..., "properties": {...}}`.
#[derive(Debug, Clone)]
pub struct NewItem {
    pub title: String,
    pub properties: Vec<(String, String)>,
}

/// Changes to a collection item, sent as `{"id": ...}` with `title` and
/// `properties` when present.
#[derive(Debug, Clone)]
pub struct ItemUpdate {
    pub id: String,
    pub title: Option<String>,
    pub properties: Option<Vec<(String, String)>>,
}

/// The body of a request.
#[derive(Debug, Clone)]
pub enum RequestBody {
    /// No body.
    Empty,
    /// `{"blocks": [...], "position": {...}}`
    InsertBlocks { blocks: Vec<NewBlock>, position: BlockPosition },
    /// `{"blocks": [...]}`
    UpdateBlocks { blocks: Vec<BlockUpdate> },
    /// `{"blockIds": [...]}`
    DeleteBlocks { block_ids: Vec<String> },
    /// `{"blockIds": [...], "position": {...}}`
    MoveBlocks { block_ids: Vec<String>, position: BlockPosition },
    /// `{"tasks": [...]}`
    AddTasks { tasks: Vec<NewTask> },
    /// `{"tasksToUpdate": [...]}`
    UpdateTasks { tasks: Vec<TaskUpdate> },
    /// `{"idsToDelete": [...]}`
    DeleteTasks { ids: Vec<String> },
    /// `{"items": [...]}`
    AddItems { items: Vec<NewItem> },
    /// `{"itemsToUpdate": [...]}`
    UpdateItems { items: Vec<ItemUpdate> },
    /// `{"idsToDelete": [...]}`
    DeleteItems { ids: Vec<String> },
    /// A multipart form with one part `file`, holding the file's bytes under this name.
    Upload { file_name: String },
}

/// One HTTP exchange: method, full URL, query parameters in order, body, and
/// the `Authorization` header value when there is one.
#[derive(Debug, Clone)]
pub struct ApiRequest {
    pub method: HttpMethod,
    pub url: String,
    pub query: Vec<(String, String)>,
    pub body: RequestBody,
    pub authorization: Option<String>,
}

/// A client for one API connection.
#[derive(Debug, Clone)]
pub struct CraftClient {
    base_url: String,
    secret_key: Option<String>,
}

/// The URL of `path` under `base`, with the trailing slashes of `base` dropped.
pub open spec fn endpoint_url(base: Seq<char>, path: Seq<char>) -> Seq<char> {
    trim_end_slashes(base) + path
}

/// Query parameters as pairs of character sequences.
pub open spec fn query_view(q: Seq<(String, String)>) -> Seq<(Seq<char>, Seq<char>)> {
    q.map_values(|p: (String, String)| (p.0@, p.1@))
}

/// The parameter `name=value` when a value is given, else nothing.
pub open spec fn opt_param(name: Seq<char>, value: Option<Seq<char>>) -> Seq<(Seq<char>, Seq<char>)> {
    match value {
        Some(v) => seq![(name, v)],
        None => seq![],
    }
}

pub open spec fn opt_str(o: Option<&str>) -> Option<Seq<char>> {
    match o {
        Some(s) => Some(s@),
        None => None,
    }
}

pub open spec fn opt_string(o: Option<String>) -> Option<Seq<char>> {
    match o {
        Some(s) => Some(s@),
        None => None,
    }
}

pub open spec fn opt_i32(o: Option<i32>) -> Option<Seq<char>> {
    match o {
        Some(n) => Some(int_decimal(n as int)),
        None => None,
    }
}

/// The name of an uploaded file, when the body is an upload.
pub open spec fn upload_name(b: RequestBody) -> Option<Seq<char>> {
    match b {
        RequestBody::Upload { file_name } => Some(file_name@),
        _ => None,
    }
}

/// A file's name, or `file` when it has none.
pub open spec fn name_or_default(o: Option<Seq<char>>) -> Seq<char> {
    match o {
        Some(n) => n,
        None => "file"@,
    }
}

/// The text of a body that was read, or nothing.
pub open spec fn body_text(body: Result<String, HttpFailure>) -> Seq<char> {
    match body {
        Ok(t) => t@,
        Err(_) => Seq::empty(),
    }
}

fn push_param(q: &mut Vec<(String, String)>, name: &str, value: String)
    ensures
        query_view(final(q)@) == query_view(old(q)@).push((name@, value@)),
{
    q.push((String::from_str(name), value));
    assert(query_view(q@) =~= query_view(old(q)@).push((name@, value@)));
}

fn push_opt(q: &mut Vec<(String, String)>, name: &str, value: Option<&str>)
    ensures
        query_view(final(q)@) == query_view(old(q)@) + opt_param(name@, opt_str(value)),
{
    match value {
        Some(v) => push_param(q, name, String::from_str(v)),
        None => {
            assert(query_view(q@) =~= query_view(old(q)@) + opt_param(name@, opt_str(value)));
        },
    }
}

fn push_opt_i32(q: &mut Vec<(String, String)>, name: &str, value: Option<i32>)
    ensures
        query_view(final(q)@) == query_view(old(q)@) + opt_param(name@, opt_i32(value)),
{
    match value {
        Some(v) => push_param(q, name, i32_decimal(v)),
        None => {
            assert(query_view(q@) =~= query_view(old(q)@) + opt_param(name@, opt_i32(value)));
        },
    }
}

impl CraftClient {
    pub closed spec fn spec_base_url(self) -> Seq<char> {
        self.base_url@
    }

    pub closed spec fn spec_secret_key(self) -> Option<Seq<char>> {
        opt_string(self.secret_key)
    }

    /// The `Authorization` header: `Bearer <key>` when the client has a key.
    pub open spec fn spec_auth(self) -> Option<Seq<char>> {
        match self.spec_secret_key() {
            Some(k) => Some("Bearer "@ + k),
            None => None,
        }
    }

    /// The URL of `path` for this client.
    pub open spec fn spec_url(self, path: Seq<char>) -> Seq<char> {
        endpoint_url(self.spec_base_url(), path)
    }

    /// What every request of this client to `path` has in common.
    pub open spec fn spec_request(self, r: ApiRequest, method: HttpMethod, path: Seq<char>) -> bool {
        &&& r.method == method
        &&& r.url@ == self.spec_url(path)
        &&& opt_string(r.authorization) == self.spec_auth()
    }

    /// A client for the API at `base_url`, authenticating with `secret_key` when given.
    pub fn new(base_url: String, secret_key: Option<String>) -> (c: Self)
        ensures
            c.spec_base_url() == base_url@,
            c.spec_secret_key() == opt_string(secret_key),
    {
        CraftClient { base_url, secret_key }
    }

    fn build_request(&self, method: HttpMethod, path: &str) -> (r: ApiRequest)
        ensures
            self.spec_request(r, method, path@),
            r.query@.len() == 0,
            r.body == RequestBody::Empty,
    {
        let base = trim_trailing_slashes(self.base_url.as_str());
        let url = concat2(base.as_str(), path);
        let authorization = match &self.secret_key {
            Some(key) => Some(concat2("Bearer ", key.as_str())),
            None => None,
        };
        ApiRequest { method, url, query: Vec::new(), body: RequestBody::Empty, authorization }
    }

    // ==================== Blocks ====================

    /// `GET /blocks` with `maxDepth`, `fetchMetadata`, then `id` and `date` when given.
    pub fn get_block(&self, id: Option<&str>, date: Option<&str>, depth: i32, metadata: bool) -> (r: ApiRequest)
        ensures
            self.spec_request(r, HttpMethod::Get, "/blocks"@),
            r.body == RequestBody::Empty,
            query_view(r.query@) == seq![
                ("maxDepth"@, int_decimal(depth as int)),
                ("fetchMetadata"@, bool_chars(metadata)),
            ] + opt_param("id"@, opt_str(id)) + opt_param("date"@, opt_str(date)),
    {
        let mut r = self.build_request(HttpMethod::Get, "/blocks");
        let mut q: Vec<(String, String)> = Vec::new();
        push_param(&mut q, "maxDepth", i32_decimal(depth));
        push_param(&mut q, "fetchMetadata", bool_text(metadata));
        push_opt(&mut q, "id", id);
        push_opt(&mut q, "date", date);
        assert(query_view(q@) =~= seq![
            ("maxDepth"@, int_decimal(depth as int)),
            ("fetchMetadata"@, bool_chars(metadata)),
        ] + opt_param("id"@, opt_str(id)) + opt_param("date"@, opt_str(date)));
        r.query = q;
        r
    }

    /// `POST /blocks` inserting `blocks` at `position`.
    pub fn insert_blocks(&self, blocks: Vec<NewBlock>, position: BlockPosition) -> (r: ApiRequest)
        ensures
            self.spec_request(r, HttpMethod::Post, "/blocks"@),
            r.query@.len() == 0,
            r.body == (RequestBody::InsertBlocks { blocks, position }),
    {
        let mut r = self.build_request(HttpMethod::Post, "/blocks");
        r.body = RequestBody::InsertBlocks { blocks, position };
        r
    }

    /// `PUT /blocks` replacing the markdown of `blocks`.
    pub fn update_blocks(&self, blocks: Vec<BlockUpdate>) -> (r: ApiRequest)
        ensures
            self.spec_request(r, HttpMethod::Put, "/blocks"@),
            r.query@.len() == 0,
            r.body == (RequestBody::UpdateBlocks { blocks }),
    {
        let mut r = self.build_request(HttpMethod::Put, "/blocks");
        r.body = RequestBody::UpdateBlocks { blocks };
        r
    }

    /// `DELETE /blocks` for `block_ids`.
    pub fn delete_blocks(&self, block_ids: Vec<String>) -> (r: ApiRequest)
        ensures
            self.spec_request(r, HttpMethod::Delete, "/blocks"@),
            r.query@.len() == 0,
            r.body == (RequestBody::DeleteBlocks { block_ids }),
    {
        let mut r = self.build_request(HttpMethod::Delete, "/blocks");
        r.body = RequestBody::DeleteBlocks { block_ids };
        r
    }

    /// `PUT /blocks/move` moving `block_ids` to `position`.
    pub fn move_blocks(&self, block_ids: Vec<String>, position: BlockPosition) -> (r: ApiRequest)
        ensures
            self.spec_request(r, HttpMethod::Put, "/blocks/move"@),
            r.query@.len() == 0,
            r.body == (RequestBody::MoveBlocks { block_ids, position }),
    {
        let mut r = self.build_request(HttpMethod::Put, "/blocks/move");
        r.body = RequestBody::MoveBlocks { block_ids, position };
        r
    }

    /// `GET /blocks/search` with `pattern`, `caseSensitive`, then `date`,
    /// `beforeBlockCount` and `afterBlockCount` when given.
    pub fn search_blocks(
        &self,
        date: Option<&str>,
        pattern: &str,
        case_sensitive: bool,
        before: Option<i32>,
        after: Option<i32>,
    ) -> (r: ApiRequest)
        ensures
            self.spec_request(r, HttpMethod::Get, "/blocks/search"@),
            r.body == RequestBody::Empty,
            query_view(r.query@) == seq![
                ("pattern"@, pattern@),
                ("caseSensitive"@, bool_chars(case_sensitive)),
            ] + opt_param("date"@, opt_str(date)) + opt_param("beforeBlockCount"@, opt_i32(before))
                + opt_param("afterBlockCount"@, opt_i32(after)),
    {
        let mut r = self.build_request(HttpMethod::Get, "/blocks/search");
        let mut q: Vec<(String, String)> = Vec::new();
        push_param(&mut q, "pattern", String::from_str(pattern));
        push_param(&mut q, "caseSensitive", bool_text(case_sensitive));
        push_opt(&mut q, "date", date);
        push_opt_i32(&mut q, "beforeBlockCount", before);
        push_opt_i32(&mut q, "afterBlockCount", after);
        assert(query_view(q@) =~= seq![
            ("pattern"@, pattern@),
            ("caseSensitive"@, bool_chars(case_sensitive)),
        ] + opt_param("date"@, opt_str(date)) + opt_param("beforeBlockCount"@, opt_i32(before))
            + opt_param("afterBlockCount"@, opt_i32(after)));
        r.query = q;
        r
    }

    // ==================== Tasks ====================

    /// `GET /tasks` with `scope`.
    pub fn list_tasks(&self, scope: &str) -> (r: ApiRequest)
        ensures
            self.spec_request(r, HttpMethod::Get, "/tasks"@),
            r.body == RequestBody::Empty,
            query_view(r.query@) == seq![("scope"@, scope@)],
    {
        let mut r = self.build_request(HttpMethod::Get, "/tasks");
        let mut q: Vec<(String, String)> = Vec::new();
        push_param(&mut q, "scope", String::from_str(scope));
        assert(query_view(q@) =~= seq![("scope"@, scope@)]);
        r.query = q;
        r
    }

    /// `POST /tasks` adding `tasks`.
    pub fn add_tasks(&self, tasks: Vec<NewTask>) -> (r: ApiRequest)
        ensures
            self.spec_request(r, HttpMethod::Post, "/tasks"@),
            r.query@.len() == 0,
            r.body == (RequestBody::AddTasks { tasks }),
    {
        let mut r = self.build_request(HttpMethod::Post, "/tasks");
        r.body = RequestBody::AddTasks { tasks };
        r
    }

    /// `PUT /tasks` applying `tasks`.
    pub fn update_tasks(&self, tasks: Vec<TaskUpdate>) -> (r: ApiRequest)
        ensures
            self.spec_request(r, HttpMethod::Put, "/tasks"@),
            r.query@.len() == 0,
            r.body == (RequestBody::UpdateTasks { tasks }),
    {
        let mut r = self.build_request(HttpMethod::Put, "/tasks");
        r.body = RequestBody::UpdateTasks { tasks };
        r
    }

    /// `DELETE /tasks` for `ids`.
    pub fn delete_tasks(&self, ids: Vec<String>) -> (r: ApiRequest)
        ensures
            self.spec_request(r, HttpMethod::Delete, "/tasks"@),
            r.query@.len() == 0,
            r.body == (RequestBody::DeleteTasks { ids }),
    {
        let mut r = self.build_request(HttpMethod::Delete, "/tasks");
        r.body = RequestBody::DeleteTasks { ids };
        r
    }

    // ==================== Search ====================

    /// `GET /daily-notes/search` with `include`, then `startDate` and `endDate`
    /// when given, then `regexps` (the query again) when `use_regex`.
    pub fn search(&self, query: &str, from: Option<&str>, to: Option<&str>, use_regex: bool) -> (r: ApiRequest)
        ensures
            self.spec_request(r, HttpMethod::Get, "/daily-notes/search"@),
            r.body == RequestBody::Empty,
            query_view(r.query@) == seq![("include"@, query@)] + opt_param("startDate"@, opt_str(from))
                + opt_param("endDate"@, opt_str(to)) + opt_param(
                "regexps"@,
                if use_regex {
                    Some(query@)
                } else {
                    None
                },
            ),
    {
        let mut r = self.build_request(HttpMethod::Get, "/daily-notes/search");
        let mut q: Vec<(String, String)> = Vec::new();
        push_param(&mut q, "include", String::from_str(query));
        push_opt(&mut q, "startDate", from);
        push_opt(&mut q, "endDate", to);
        let regexps = if use_regex {
            Some(query)
        } else {
            None
        };
        push_opt(&mut q, "regexps", regexps);
        assert(query_view(q@) =~= seq![("include"@, query@)] + opt_param("startDate"@, opt_str(from))
            + opt_param("endDate"@, opt_str(to)) + opt_param("regexps"@, opt_str(regexps)));
        r.query = q;
        r
    }

    // ==================== Collections ====================

    /// `GET /collections` with `startDate` and `endDate` when given.
    pub fn list_collections(&self, from: Option<&str>, to: Option<&str>) -> (r: ApiRequest)
        ensures
            self.spec_request(r, HttpMethod::Get, "/collections"@),
            r.body == RequestBody::Empty,
            query_view(r.query@) == opt_param("startDate"@, opt_str(from)) + opt_param(
                "endDate"@,
                opt_str(to),
            ),
    {
        let mut r = self.build_request(HttpMethod::Get, "/collections");
        let mut q: Vec<(String, String)> = Vec::new();
        assert(query_view(q@) =~= Seq::<(Seq<char>, Seq<char>)>::empty());
        push_opt(&mut q, "startDate", from);
        push_opt(&mut q, "endDate", to);
        assert(query_view(q@) =~= opt_param("startDate"@, opt_str(from)) + opt_param("endDate"@, opt_str(to)));
        r.query = q;
        r
    }

    /// `GET /collections/<id>/schema` with `format`.
    pub fn get_collection_schema(&self, id: &str, format: &str) -> (r: ApiRequest)
        ensures
            self.spec_request(r, HttpMethod::Get, "/collections/"@ + id@ + "/schema"@),
            r.body == RequestBody::Empty,
            query_view(r.query@) == seq![("format"@, format@)],
    {
        let path = concat3("/collections/", id, "/schema");
        let mut r = self.build_request(HttpMethod::Get, path.as_str());
        let mut q: Vec<(String, String)> = Vec::new();
        push_param(&mut q, "format", String::from_str(format));
        assert(query_view(q@) =~= seq![("format"@, format@)]);
        r.query = q;
        r
    }

    /// `GET /collections/<id>/items` with `maxDepth`.
    pub fn get_collection_items(&self, id: &str, depth: i32) -> (r: ApiRequest)
        ensures
            self.spec_request(r, HttpMethod::Get, "/collections/"@ + id@ + "/items"@),
            r.body == RequestBody::Empty,
            query_view(r.query@) == seq![("maxDepth"@, int_decimal(depth as int))],
    {
        let path = concat3("/collections/", id, "/items");
        let mut r = self.build_request(HttpMethod::Get, path.as_str());
        let mut q: Vec<(String, String)> = Vec::new();
        push_param(&mut q, "maxDepth", i32_decimal(depth));
        assert(query_view(q@) =~= seq![("maxDepth"@, int_decimal(depth as int))]);
        r.query = q;
        r
    }

    /// `POST /collections/<id>/items` adding `items`.
    pub fn add_collection_items(&self, id: &str, items: Vec<NewItem>) -> (r: ApiRequest)
        ensures
            self.spec_request(r, HttpMethod::Post, "/collections/"@ + id@ + "/items"@),
            r.query@.len() == 0,
            r.body == (RequestBody::AddItems { items }),
    {
        let path = concat3("/collections/", id, "/items");
        let mut r = self.build_request(HttpMethod::Post, path.as_str());
        r.body = RequestBody::AddItems { items };
        r
    }

    /// `PUT /collections/<id>/items` applying `items`.
    pub fn update_collection_items(&self, id: &str, items: Vec<ItemUpdate>) -> (r: ApiRequest)
        ensures
            self.spec_request(r, HttpMethod::Put, "/collections/"@ + id@ + "/items"@),
            r.query@.len() == 0,
            r.body == (RequestBody::UpdateItems { items }),
    {
        let path = concat3("/collections/", id, "/items");
        let mut r = self.build_request(HttpMethod::Put, path.as_str());
        r.body = RequestBody::UpdateItems { items };
        r
    }

    /// `DELETE /collections/<id>/items` for `item_ids`.
    pub fn delete_collection_items(&self, id: &str, item_ids: Vec<String>) -> (r: ApiRequest)
        ensures
            self.spec_request(r, HttpMethod::Delete, "/collections/"@ + id@ + "/items"@),
            r.query@.len() == 0,
            r.body == (RequestBody::DeleteItems { ids: item_ids }),
    {
        let path = concat3("/collections/", id, "/items");
        let mut r = self.build_request(HttpMethod::Delete, path.as_str());
        r.body = RequestBody::DeleteItems { ids: item_ids };
        r
    }

    // ==================== Connection ====================

    /// `GET /connection`.
    pub fn get_connection_info(&self) -> (r: ApiRequest)
        ensures
            self.spec_request(r, HttpMethod::Get, "/connection"@),
            r.query@.len() == 0,
            r.body == RequestBody::Empty,
    {
        self.build_request(HttpMethod::Get, "/connection")
    }

    // ==================== Upload ====================

    /// `POST /upload?position=<position>&pageId=<page_id>` with the file as the
    /// multipart part `file`, named `file_name`, or `file` when it has no name.
    pub fn upload_file(&self, file_name: Option<&str>, page_id: &str, position: &str) -> (r: ApiRequest)
        ensures
            self.spec_request(
                r,
                HttpMethod::Post,
                "/upload?position="@ + position@ + "&pageId="@ + page_id@,
            ),
            r.query@.len() == 0,
            upload_name(r.body) == Some(name_or_default(opt_str(file_name))),
    {
        let mut path = concat3("/upload?position=", position, "&pageId=");
        path.append(page_id);
        let mut r = self.build_request(HttpMethod::Post, path.as_str());
        let name = match file_name {
            Some(f) => String::from_str(f),
            None => String::from_str("file"),
        };
        r.body = RequestBody::Upload { file_name: name };
        r
    }
}

/// How an answer is read: with a status in the success range, its body (or the
/// failure to read it); with any other status, an API error with the status and
/// the body, empty when the body could not be read.
pub fn response_outcome(status: u16, body: Result<String, HttpFailure>) -> (r: Result<String, CliError>)
    ensures
        200 <= status <= 299 && body is Ok ==> r is Ok && r->Ok_0 == body->Ok_0,
        200 <= status <= 299 && body is Err ==> r is Err && r->Err_0@ == spec_transport_error(body->Err_0),
        !(200 <= status <= 299) ==> r is Err && r->Err_0@ == (ErrorView::Api {
            code: status,
            message: body_text(body),
        }),
{
    if 200 <= status && status <= 299 {
        match body {
            Ok(text) => Ok(text),
            Err(e) => Err(map_reqwest_error(e)),
        }
    } else {
        let message = match body {
            Ok(text) => text,
            Err(_) => String::new(),
        };
        Err(CliError::Api { code: status, message })
    }
}

/// The URL of an endpoint does not depend on trailing slashes of the base:
/// a base without one is joined to the path directly, and adding slashes to
/// the base changes nothing.
pub proof fn law_endpoint_url(base: Seq<char>, path: Seq<char>)
    ensures
        base.len() == 0 || base.last() != '/' ==> endpoint_url(base, path) == base + path,
        endpoint_url(base.push('/'), path) == endpoint_url(base, path),
{
    assert(base.push('/').drop_last() =~= base);
}

/// An optional parameter is sent exactly when its value is given, once, with
/// that value; query parameters keep their names and values, in order.
pub proof fn law_query_params(name: Seq<char>, value: Option<Seq<char>>, q: Seq<(String, String)>)
    ensures
        value is Some ==> opt_param(name, value) == seq![(name, value->0)],
        value is None ==> opt_param(name, value).len() == 0,
        query_view(q).len() == q.len(),
        forall|i: int| 0 <= i < q.len() ==> #[trigger] query_view(q)[i] == (q[i].0@, q[i].1@),
{
}

/// The `Authorization` header is `Bearer ` followed by the client's key, and
/// absent when the client has no key.
pub proof fn law_authorization(c: CraftClient)
    ensures
        c.spec_secret_key() is None ==> c.spec_auth() is None,
        c.spec_secret_key() is Some ==> c.spec_auth() == Some("Bearer "@ + c.spec_secret_key()->0),
{
}

} // verus!
