//! What each subcommand decides before and between its requests: where
//! content comes from, which page blocks and files go to (and the steps to get
//! there), and the bodies of tasks, collection items and configuration reports.
use vstd::prelude::*;
use vstd::string::*;
use crate::cli::Commands;
use crate::client::{
    opt_string, upload_name, name_or_default, query_view, ApiRequest, BlockPosition, BlockUpdate, CraftClient, HttpMethod, NewBlock, NewItem, ItemUpdate,
    NewTask, RequestBody, TaskInfo, TaskLocation, TaskUpdate,
};
use crate::config::ApiEntry;
use crate::error::{CliError, ErrorView};
use crate::text::{concat2, concat3};

verus! {

/// Where the markdown of a block comes from.
#[derive(Debug, Clone)]
pub enum ContentSource {
    /// All of standard input.
    Stdin,
    /// The text given on the command line.
    Inline(String),
}

/// The page that blocks go to.
#[derive(Debug, Clone)]
pub enum PageTarget {
    /// The daily note of a date; its page id must be looked up first.
    DailyNote { date: String },
    /// A page given by id.
    Page { id: String },
}

/// One row of the connection list: name, URL, and whether it is the current one.
#[derive(Debug, Clone)]
pub struct ListedApi {
    pub name: String,
    pub api: String,
    pub current: bool,
}

/// Whether a subcommand talks to the API (all but `config`).
pub fn uses_client(command: &Commands) -> (b: bool)
    ensures
        b <==> !(command is Config),
{
    match command {
        Commands::Config(_) => false,
        _ => true,
    }
}

/// Where the markdown comes from: standard input when asked for, else the
/// text given; fails when neither is given.
pub fn content_source(markdown: Option<String>, stdin: bool) -> (r: Result<ContentSource, CliError>)
    ensures
        stdin ==> r matches Ok(ContentSource::Stdin),
        !stdin && markdown is Some ==> r == Ok::<ContentSource, CliError>(
            ContentSource::Inline(markdown->0),
        ),
        !stdin && markdown is None ==> r is Err && r->Err_0@ == ErrorView::Argument(
            "Either markdown content or --stdin must be provided"@,
        ),
{
    if stdin {
        Ok(ContentSource::Stdin)
    } else {
        match markdown {
            Some(md) => Ok(ContentSource::Inline(md)),
            None => Err(
                CliError::Argument(
                    String::from_str("Either markdown content or --stdin must be provided"),
                ),
            ),
        }
    }
}

/// The text of the error when neither a date nor a page is given.
pub open spec fn no_target_text() -> Seq<char> {
    "Either --date or --page-id must be provided"@
}

/// The page to insert into or upload to: the daily note of `date` when a date
/// is given (it wins over a page id), else the page `page_id`.
pub fn page_target(date: Option<String>, page_id: Option<String>) -> (r: Result<PageTarget, CliError>)
    ensures
        date is Some ==> r == Ok::<PageTarget, CliError>(PageTarget::DailyNote { date: date->0 }),
        date is None && page_id is Some ==> r == Ok::<PageTarget, CliError>(
            PageTarget::Page { id: page_id->0 },
        ),
        date is None && page_id is None ==> r is Err && r->Err_0@ == ErrorView::Argument(
            no_target_text(),
        ),
{
    match (date, page_id) {
        (Some(d), _) => Ok(PageTarget::DailyNote { date: d }),
        (None, Some(p)) => Ok(PageTarget::Page { id: p }),
        _ => Err(CliError::Argument(String::from_str("Either --date or --page-id must be provided"))),
    }
}

/// The request that looks up the daily note of `date` (depth 0, no metadata).
pub fn daily_note_request(client: &CraftClient, date: &str) -> (r: ApiRequest)
    ensures
        client.spec_request(r, HttpMethod::Get, "/blocks"@),
        r.body == RequestBody::Empty,
        crate::client::query_view(r.query@) == seq![
            ("maxDepth"@, "0"@),
            ("fetchMetadata"@, "false"@),
            ("date"@, date@),
        ],
{
    let r = client.get_block(None, Some(date), 0, false);
    proof {
        reveal_strlit("0");
        reveal_strlit("false");
        assert(crate::text::int_decimal(0) =~= "0"@);
        assert(crate::text::bool_chars(false) =~= "false"@);
        assert(crate::client::query_view(r.query@) =~= seq![
            ("maxDepth"@, "0"@),
            ("fetchMetadata"@, "false"@),
            ("date"@, date@),
        ]);
    }
    r
}

/// The page id of a daily note, read from the `id` of its lookup answer; an
/// answer without one is reported as a missing daily note (API error 404).
pub fn daily_note_id(id: Option<String>) -> (r: Result<String, CliError>)
    ensures
        id is Some ==> r == Ok::<String, CliError>(id->0),
        id is None ==> r is Err && r->Err_0@ == (ErrorView::Api {
            code: 404,
            message: "Daily note not found"@,
        }),
{
    match id {
        Some(i) => Ok(i),
        None => Err(CliError::Api { code: 404, message: String::from_str("Daily note not found") }),
    }
}

/// The body inserting one text block with `content` at `pos` of page `page_id`.
pub open spec fn is_insert_body(b: RequestBody, content: Seq<char>, pos: Seq<char>, page_id: Seq<char>) -> bool {
    match b {
        RequestBody::InsertBlocks { blocks, position } => {
            &&& blocks@.len() == 1
            &&& blocks@[0].markdown@ == content
            &&& position.position@ == pos
            &&& position.page_id@ == page_id
        },
        _ => false,
    }
}

/// The request inserting `content` as one text block at `pos` of page `page_id`.
pub fn insert_request(client: &CraftClient, content: String, pos: String, page_id: String) -> (r: ApiRequest)
    ensures
        client.spec_request(r, HttpMethod::Post, "/blocks"@),
        r.query@.len() == 0,
        is_insert_body(r.body, content@, pos@, page_id@),
{
    let mut blocks: Vec<NewBlock> = Vec::new();
    blocks.push(NewBlock { markdown: content });
    client.insert_blocks(blocks, BlockPosition { position: pos, page_id })
}

/// The request replacing the markdown of block `id` with `content`.
pub fn update_request(client: &CraftClient, id: String, content: String) -> (r: ApiRequest)
    ensures
        client.spec_request(r, HttpMethod::Put, "/blocks"@),
        r.query@.len() == 0,
        r.body matches RequestBody::UpdateBlocks { blocks } && blocks@.len() == 1
            && blocks@[0].id == id && blocks@[0].markdown == content,
{
    let mut blocks: Vec<BlockUpdate> = Vec::new();
    blocks.push(BlockUpdate { id, markdown: content });
    client.update_blocks(blocks)
}

/// Whether `to` names the daily-note target.
pub open spec fn is_daily(to: Seq<char>) -> bool {
    to == "daily"@
}

/// A new task with `text`, its schedule and deadline dates when given, put in
/// the daily note of `date` when `to` is `daily` (which needs a date), else in
/// the inbox.
pub fn new_task(
    text: String,
    schedule: Option<String>,
    deadline: Option<String>,
    to: &str,
    date: Option<String>,
) -> (r: Result<NewTask, CliError>)
    ensures
        is_daily(to@) && date is None <==> r is Err,
        r is Err ==> r->Err_0@ == ErrorView::Argument("--date required when --to is daily"@),
        r is Ok ==> r->Ok_0.markdown == text && r->Ok_0.task_info == (TaskInfo {
            schedule_date: schedule,
            deadline_date: deadline,
            state: None,
        }),
        r is Ok && is_daily(to@) ==> r->Ok_0.location == (TaskLocation::DailyNote { date: date->0 }),
        r is Ok && !is_daily(to@) ==> r->Ok_0.location == TaskLocation::Inbox,
{
    let task_info = TaskInfo { schedule_date: schedule, deadline_date: deadline, state: None };
    let daily = String::from_str("daily");
    let to_s = String::from_str(to);
    proof {
        reveal_strlit("daily");
    }
    let location = if to_s == daily {
        match date {
            Some(d) => TaskLocation::DailyNote { date: d },
            None => {
                return Err(
                    CliError::Argument(String::from_str("--date required when --to is daily")),
                );
            },
        }
    } else {
        TaskLocation::Inbox
    };
    Ok(NewTask { markdown: text, task_info, location })
}

/// Changes to task `id`: its markdown when `text` is given; its dates and state
/// when any of them is given, and no task info at all otherwise.
pub fn task_update(
    id: String,
    text: Option<String>,
    schedule: Option<String>,
    deadline: Option<String>,
    state: Option<String>,
) -> (u: TaskUpdate)
    ensures
        u.id == id,
        u.markdown == text,
        schedule is None && deadline is None && state is None ==> u.task_info is None,
        !(schedule is None && deadline is None && state is None) ==> u.task_info == Some(
            TaskInfo { schedule_date: schedule, deadline_date: deadline, state },
        ),
{
    let any = schedule.is_some() || deadline.is_some() || state.is_some();
    let task_info = if any {
        Some(TaskInfo { schedule_date: schedule, deadline_date: deadline, state })
    } else {
        None
    };
    TaskUpdate { id, markdown: text, task_info }
}

/// The update that marks a task done: state `done` and nothing else.
pub open spec fn is_done_update(u: TaskUpdate, id: Seq<char>) -> bool {
    &&& u.id@ == id
    &&& u.markdown is None
    &&& u.task_info matches Some(info)
    &&& info.schedule_date is None
    &&& info.deadline_date is None
    &&& info.state matches Some(s)
    &&& s@ == "done"@
}

/// One update per id, in order, each marking that task done.
pub fn done_updates(ids: Vec<String>) -> (r: Vec<TaskUpdate>)
    ensures
        r@.len() == ids@.len(),
        forall|i: int| 0 <= i < ids@.len() ==> is_done_update(#[trigger] r@[i], ids@[i]@),
        forall|i: int|
            0 <= i < ids@.len() ==> (#[trigger] r@[i]).id@ == ids@[i]@ && r@[i].task_info is Some
                && r@[i].task_info->0.state is Some && r@[i].task_info->0.state->0@ == "done"@,
{
    let mut r: Vec<TaskUpdate> = Vec::new();
    let n = ids.len();
    for i in 0..n
        invariant
            n == ids@.len(),
            r@.len() == i,
            forall|j: int| 0 <= j < i ==> is_done_update(#[trigger] r@[j], ids@[j]@),
    {
        let info = TaskInfo { schedule_date: None, deadline_date: None, state: Some(String::from_str("done")) };
        r.push(TaskUpdate { id: ids[i].clone(), markdown: None, task_info: Some(info) });
    }
    r
}

/// No two pairs carry the same key.
pub open spec fn keys_distinct(ps: Seq<(String, String)>) -> bool {
    forall|i: int, j: int|
        #![trigger ps[i], ps[j]]
        0 <= i < ps.len() && 0 <= j < ps.len() && i != j ==> ps[i].0@ != ps[j].0@
}

/// The object built by setting each pair in order, a later value for a key
/// replacing an earlier one.
pub open spec fn pairs_map(ps: Seq<(String, String)>) -> Map<Seq<char>, Seq<char>>
    decreases ps.len(),
{
    if ps.len() == 0 {
        Map::empty()
    } else {
        pairs_map(ps.drop_last()).insert(ps.last().0@, ps.last().1@)
    }
}

/// Setting a key that is already present (at row `j`) changes its value in place.
proof fn lemma_pairs_update(ps: Seq<(String, String)>, j: int, p: (String, String))
    requires
        keys_distinct(ps),
        0 <= j < ps.len(),
        ps[j].0@ == p.0@,
    ensures
        pairs_map(ps.update(j, p)) == pairs_map(ps).insert(p.0@, p.1@),
    decreases ps.len(),
{
    let qs = ps.update(j, p);
    assert(qs.drop_last() =~= if j == ps.len() - 1 {
        ps.drop_last()
    } else {
        ps.drop_last().update(j, p)
    });
    if j == ps.len() - 1 {
        assert(pairs_map(qs) =~= pairs_map(ps).insert(p.0@, p.1@));
    } else {
        assert(keys_distinct(ps.drop_last()));
        lemma_pairs_update(ps.drop_last(), j, p);
        assert(ps[j].0@ != ps.last().0@);
        assert(pairs_map(qs) =~= pairs_map(ps).insert(p.0@, p.1@));
    }
}

/// The properties object of `key=value` pairs: each key once, holding the value
/// of its last pair, in the order keys first appear.
pub fn properties_object(props: Vec<(String, String)>) -> (r: Vec<(String, String)>)
    ensures
        keys_distinct(r@),
        pairs_map(r@) == pairs_map(props@),
{
    let ghost all = props@;
    let mut rest = props;
    let mut out: Vec<(String, String)> = Vec::new();
    assert(all.take(0) =~= Seq::<(String, String)>::empty());
    while rest.len() > 0
        invariant
            rest@.len() <= all.len(),
            rest@ == all.skip(all.len() - rest@.len()),
            keys_distinct(out@),
            pairs_map(out@) == pairs_map(all.take(all.len() - rest@.len())),
        decreases rest@.len(),
    {
        let ghost done = (all.len() - rest@.len()) as int;
        let pair = rest.remove(0);
        proof {
            assert(all[done] == pair);
            assert(rest@ =~= all.skip(done + 1));
            assert(all.take(done + 1).drop_last() =~= all.take(done));
        }
        let n = out.len();
        let mut found: Option<usize> = None;
        for i in 0..n
            invariant
                n == out@.len(),
                found is None ==> forall|j: int| 0 <= j < i ==> #[trigger] out@[j].0@ != pair.0@,
                found is Some ==> found->0 < n && out@[found->0 as int].0@ == pair.0@,
        {
            if found.is_none() && out[i].0 == pair.0 {
                found = Some(i);
            }
        }
        let ghost before = out@;
        match found {
            Some(j) => {
                out.set(j, pair);
                proof {
                    lemma_pairs_update(before, j as int, pair);
                    assert forall|a: int, b: int|
                        #![trigger out@[a], out@[b]]
                        0 <= a < out@.len() && 0 <= b < out@.len() && a != b implies out@[a].0@
                        != out@[b].0@ by {
                        assert(before[a].0@ == out@[a].0@);
                        assert(before[b].0@ == out@[b].0@);
                    }
                }
            },
            None => {
                out.push(pair);
                proof {
                    assert(out@.drop_last() =~= before);
                    assert forall|a: int, b: int|
                        #![trigger out@[a], out@[b]]
                        0 <= a < out@.len() && 0 <= b < out@.len() && a != b implies out@[a].0@
                        != out@[b].0@ by {
                        if a < n && b < n {
                            assert(before[a] == out@[a]);
                            assert(before[b] == out@[b]);
                        } else if a < n {
                            assert(before[a] == out@[a]);
                        } else {
                            assert(before[b] == out@[b]);
                        }
                    }
                }
            },
        }
    }
    assert(all.take(all.len() as int) =~= all);
    out
}

/// A new collection item with `title` and the properties object of `props`.
pub fn new_item(title: String, props: Vec<(String, String)>) -> (item: NewItem)
    ensures
        item.title == title,
        keys_distinct(item.properties@),
        pairs_map(item.properties@) == pairs_map(props@),
{
    NewItem { title, properties: properties_object(props) }
}

/// Changes to collection item `item_id`: its title when given; its properties
/// object when any `key=value` pair is given, and no properties otherwise.
pub fn item_update(item_id: String, title: Option<String>, props: Vec<(String, String)>) -> (u: ItemUpdate)
    ensures
        u.id == item_id,
        u.title == title,
        props@.len() == 0 <==> u.properties is None,
        u.properties matches Some(p) ==> keys_distinct(p@) && pairs_map(p@) == pairs_map(props@),
{
    let properties = if props.len() == 0 {
        None
    } else {
        Some(properties_object(props))
    };
    ItemUpdate { id: item_id, title, properties }
}

/// The check before an upload: the file must exist.
pub fn upload_check(exists: bool, path: &str) -> (r: Result<(), CliError>)
    ensures
        exists <==> r is Ok,
        r is Err ==> r->Err_0@ == ErrorView::Argument("File not found: "@ + path@),
{
    if exists {
        Ok(())
    } else {
        Err(CliError::Argument(concat2("File not found: ", path)))
    }
}

/// The report after adding a connection.
pub fn added_message(name: &str) -> (m: String)
    ensures
        m@ == "API '"@ + name@ + "' added"@,
{
    concat3("API '", name, "' added")
}

/// The report after removing a connection.
pub fn removed_message(name: &str) -> (m: String)
    ensures
        m@ == "API '"@ + name@ + "' removed"@,
{
    concat3("API '", name, "' removed")
}

/// The report after making a connection current.
pub fn current_set_message(name: &str) -> (m: String)
    ensures
        m@ == "'"@ + name@ + "' set as current API"@,
{
    concat3("'", name, "' set as current API")
}

/// The connection list: each configured API in the given order, marked current
/// when its name is `current`.
pub fn list_entries(apis: Vec<(String, ApiEntry)>, current: &String) -> (r: Vec<ListedApi>)
    ensures
        r@.len() == apis@.len(),
        forall|i: int|
            0 <= i < apis@.len() ==> (#[trigger] r@[i]).name == apis@[i].0 && r@[i].api
                == apis@[i].1.api && (r@[i].current <==> apis@[i].0@ == current@),
{
    let mut r: Vec<ListedApi> = Vec::new();
    let n = apis.len();
    for i in 0..n
        invariant
            n == apis@.len(),
            r@.len() == i,
            forall|j: int|
                0 <= j < i ==> (#[trigger] r@[j]).name == apis@[j].0 && r@[j].api == apis@[j].1.api
                    && (r@[j].current <==> apis@[j].0@ == current@),
    {
        let name = apis[i].0.clone();
        let api = apis[i].1.api.clone();
        let current_flag = name == *current;
        r.push(ListedApi { name, api, current: current_flag });
    }
    r
}

/// What goes onto a page once the page's id is known.
#[derive(Debug, Clone)]
pub enum Placement {
    /// A text block with `content`, at `pos`.
    Insert { content: String, pos: String },
    /// The blocks `ids`, moved to `pos`.
    Move { ids: Vec<String>, pos: String },
    /// A file (named `file_name`, when it has a name), at `pos`.
    Upload { file_name: Option<String>, pos: String },
}

/// A command that waits for the markdown it needs.
#[derive(Debug, Clone)]
pub enum Pending {
    /// Insert the markdown into the daily note of `date` or the page `page_id`, at `pos`.
    Insert { date: Option<String>, page_id: Option<String>, pos: String },
    /// Replace the markdown of block `id`.
    Update { id: String },
}

/// The next thing a block or upload command does.
#[derive(Debug, Clone)]
pub enum Flow {
    /// Read all of standard input, then go on with [`with_content`].
    ReadStdin(Pending),
    /// Send `request`, which looks up a daily note, then go on with
    /// [`resume_placement`] and the `id` of its answer.
    LookUp { request: ApiRequest, then: Placement },
    /// Send this request; its answer is the command's result.
    Send(ApiRequest),
}

/// `r` is the request that looks up the daily note of `date`.
pub open spec fn is_daily_lookup(client: CraftClient, r: ApiRequest, date: Seq<char>) -> bool {
    &&& client.spec_request(r, HttpMethod::Get, "/blocks"@)
    &&& r.body == RequestBody::Empty
    &&& query_view(r.query@) == seq![("maxDepth"@, "0"@), ("fetchMetadata"@, "false"@), ("date"@, date)]
}

/// `r` is the request that puts `p` onto the page `page_id`.
pub open spec fn places(client: CraftClient, p: Placement, page_id: Seq<char>, r: ApiRequest) -> bool {
    &&& r.query@.len() == 0
    &&& match p {
        Placement::Insert { content, pos } => {
            &&& client.spec_request(r, HttpMethod::Post, "/blocks"@)
            &&& is_insert_body(r.body, content@, pos@, page_id)
        },
        Placement::Move { ids, pos } => {
            &&& client.spec_request(r, HttpMethod::Put, "/blocks/move"@)
            &&& r.body matches RequestBody::MoveBlocks { block_ids, position }
            &&& block_ids == ids
            &&& position.position == pos
            &&& position.page_id@ == page_id
        },
        Placement::Upload { file_name, pos } => {
            &&& client.spec_request(r, HttpMethod::Post, "/upload?position="@ + pos@ + "&pageId="@ + page_id)
            &&& upload_name(r.body) == Some(name_or_default(opt_string(file_name)))
        },
    }
}

/// `f` is how `p` goes onto `target`: straight onto a page given by id, or
/// after looking up the daily note of a date.
pub open spec fn places_on(client: CraftClient, p: Placement, target: PageTarget, f: Flow) -> bool {
    match target {
        PageTarget::Page { id } => f matches Flow::Send(r) && places(client, p, id@, r),
        PageTarget::DailyNote { date } => f matches Flow::LookUp { request, then } && then == p
            && is_daily_lookup(client, request, date@),
    }
}

/// `r` is what a pending command does once its markdown is `content`: the
/// update request, or the insert placed on its target (or the error for a
/// missing target).
pub open spec fn continues(client: CraftClient, pending: Pending, content: String, r: Result<Flow, CliError>) -> bool {
    match pending {
        Pending::Update { id } => {
            &&& r matches Ok(Flow::Send(req))
            &&& client.spec_request(req, HttpMethod::Put, "/blocks"@)
            &&& req.query@.len() == 0
            &&& req.body matches RequestBody::UpdateBlocks { blocks }
            &&& blocks@.len() == 1
            &&& blocks@[0].id == id
            &&& blocks@[0].markdown == content
        },
        Pending::Insert { date, page_id, pos } => {
            &&& (date is None && page_id is None <==> r is Err)
            &&& r is Err ==> r->Err_0@ == ErrorView::Argument(no_target_text())
            &&& date is Some ==> r is Ok && places_on(
                client,
                Placement::Insert { content, pos },
                PageTarget::DailyNote { date: date->0 },
                r->Ok_0,
            )
            &&& date is None && page_id is Some ==> r is Ok && places_on(
                client,
                Placement::Insert { content, pos },
                PageTarget::Page { id: page_id->0 },
                r->Ok_0,
            )
        },
    }
}

/// How `p` goes onto `target`: straight onto a page given by id, or after
/// looking up the daily note of a date.
pub fn start_placement(client: &CraftClient, p: Placement, target: PageTarget) -> (f: Flow)
    ensures
        places_on(*client, p, target, f),
{
    match target {
        PageTarget::Page { id } => Flow::Send(place(client, p, id)),
        PageTarget::DailyNote { date } => Flow::LookUp { request: daily_note_request(client, date.as_str()), then: p },
    }
}

fn place(client: &CraftClient, p: Placement, page_id: String) -> (r: ApiRequest)
    ensures
        places(*client, p, page_id@, r),
{
    match p {
        Placement::Insert { content, pos } => insert_request(client, content, pos, page_id),
        Placement::Move { ids, pos } => client.move_blocks(ids, BlockPosition { position: pos, page_id }),
        Placement::Upload { file_name, pos } => {
            let name: Option<&str> = match &file_name {
                Some(n) => Some(n.as_str()),
                None => None,
            };
            client.upload_file(name, page_id.as_str(), pos.as_str())
        },
    }
}

/// After the daily-note lookup: the request that puts `p` onto the note whose
/// page id the answer gave, or the missing-daily-note error (API error 404)
/// when the answer has no id.
pub fn resume_placement(client: &CraftClient, p: Placement, note_id: Option<String>) -> (r: Result<ApiRequest, CliError>)
    ensures
        note_id is None <==> r is Err,
        r is Err ==> r->Err_0@ == (ErrorView::Api { code: 404, message: "Daily note not found"@ }),
        r is Ok ==> places(*client, p, note_id->0@, r->Ok_0),
{
    let id = daily_note_id(note_id)?;
    Ok(place(client, p, id))
}

/// What a pending command does once its markdown is `content`.
pub fn with_content(client: &CraftClient, pending: Pending, content: String) -> (r: Result<Flow, CliError>)
    ensures
        continues(*client, pending, content, r),
{
    match pending {
        Pending::Update { id } => Ok(Flow::Send(update_request(client, id, content))),
        Pending::Insert { date, page_id, pos } => {
            let target = page_target(date, page_id)?;
            Ok(start_placement(client, Placement::Insert { content, pos }, target))
        },
    }
}

/// How a command that needs markdown starts: reading standard input when
/// asked for, else going on with the markdown given; fails when neither is given.
pub fn begin_with_content(
    client: &CraftClient,
    pending: Pending,
    markdown: Option<String>,
    stdin: bool,
) -> (r: Result<Flow, CliError>)
    ensures
        stdin ==> r == Ok::<Flow, CliError>(Flow::ReadStdin(pending)),
        !stdin && markdown is None ==> r is Err && r->Err_0@ == ErrorView::Argument(
            "Either markdown content or --stdin must be provided"@,
        ),
        !stdin && markdown is Some ==> continues(*client, pending, markdown->0, r),
{
    match content_source(markdown, stdin)? {
        ContentSource::Stdin => Ok(Flow::ReadStdin(pending)),
        ContentSource::Inline(md) => with_content(client, pending, md),
    }
}

/// How a move starts: the blocks go to the page named by `date` when a date is
/// given (the date itself is sent as the page id), else to the page `page_id`;
/// fails when neither is given.
pub fn begin_move(
    client: &CraftClient,
    ids: Vec<String>,
    date: Option<String>,
    page_id: Option<String>,
    pos: String,
) -> (r: Result<Flow, CliError>)
    ensures
        date is None && page_id is None <==> r is Err,
        r is Err ==> r->Err_0@ == ErrorView::Argument(no_target_text()),
        date is Some ==> r is Ok && places_on(
            *client,
            Placement::Move { ids, pos },
            PageTarget::Page { id: date->0 },
            r->Ok_0,
        ),
        date is None && page_id is Some ==> r is Ok && places_on(
            *client,
            Placement::Move { ids, pos },
            PageTarget::Page { id: page_id->0 },
            r->Ok_0,
        ),
{
    let target = match (date, page_id) {
        (Some(d), _) => d,
        (None, Some(p)) => p,
        _ => {
            return Err(
                CliError::Argument(String::from_str("Either --date or --page-id must be provided")),
            );
        },
    };
    Ok(start_placement(client, Placement::Move { ids, pos }, PageTarget::Page { id: target }))
}

/// How an upload starts: the file must exist; then onto the daily note of
/// `date` (looked up first) or the page `page_id`.
pub fn begin_upload(
    client: &CraftClient,
    exists: bool,
    path: &str,
    file_name: Option<String>,
    date: Option<String>,
    page_id: Option<String>,
    pos: String,
) -> (r: Result<Flow, CliError>)
    ensures
        !exists ==> r is Err && r->Err_0@ == ErrorView::Argument("File not found: "@ + path@),
        exists && date is None && page_id is None ==> r is Err && r->Err_0@ == ErrorView::Argument(
            no_target_text(),
        ),
        exists && date is Some ==> r is Ok && places_on(
            *client,
            Placement::Upload { file_name, pos },
            PageTarget::DailyNote { date: date->0 },
            r->Ok_0,
        ),
        exists && date is None && page_id is Some ==> r is Ok && places_on(
            *client,
            Placement::Upload { file_name, pos },
            PageTarget::Page { id: page_id->0 },
            r->Ok_0,
        ),
{
    upload_check(exists, path)?;
    let target = page_target(date, page_id)?;
    Ok(start_placement(client, Placement::Upload { file_name, pos }, target))
}

/// Setting pairs in order: a later value for a key replaces an earlier one,
/// and the other keys keep what they had.
pub proof fn law_later_pair_wins(ps: Seq<(String, String)>, pair: (String, String), other: Seq<char>)
    requires
        other != pair.0@,
    ensures
        pairs_map(ps.push(pair)).dom().contains(pair.0@),
        pairs_map(ps.push(pair))[pair.0@] == pair.1@,
        pairs_map(ps.push(pair)).dom().contains(other) <==> pairs_map(ps).dom().contains(other),
        pairs_map(ps).dom().contains(other) ==> pairs_map(ps.push(pair))[other] == pairs_map(ps)[other],
{
    assert(ps.push(pair).drop_last() =~= ps);
}

/// A key is in the object built from pairs exactly when some pair carries it.
pub proof fn law_pair_keys(ps: Seq<(String, String)>, key: Seq<char>)
    ensures
        pairs_map(ps).dom().contains(key) <==> exists|i: int| 0 <= i < ps.len() && #[trigger] ps[i].0@ == key,
    decreases ps.len(),
{
    if ps.len() > 0 {
        law_pair_keys(ps.drop_last(), key);
        if pairs_map(ps).dom().contains(key) && ps.last().0@ != key {
            let i = choose|i: int| 0 <= i < ps.drop_last().len() && #[trigger] ps.drop_last()[i].0@ == key;
            assert(ps[i].0@ == key);
        }
        if exists|i: int| 0 <= i < ps.len() && #[trigger] ps[i].0@ == key {
            let i = choose|i: int| 0 <= i < ps.len() && #[trigger] ps[i].0@ == key;
            if i < ps.len() - 1 {
                assert(ps.drop_last()[i].0@ == key);
            }
        }
    }
}

/// A request that places an insert onto a page is `POST /blocks` with one
/// text block holding the content, at the position, on that page.
pub proof fn law_insert_placement(client: CraftClient, content: String, pos: String, page_id: Seq<char>, r: ApiRequest)
    requires
        places(client, Placement::Insert { content, pos }, page_id, r),
    ensures
        r.method == HttpMethod::Post,
        r.url@ == client.spec_url("/blocks"@),
        r.body matches RequestBody::InsertBlocks { blocks, position } && blocks@.len() == 1
            && blocks@[0].markdown@ == content@ && position.position@ == pos@ && position.page_id@ == page_id,
{
}

/// A request that places a move onto a page is `PUT /blocks/move` with the
/// same blocks, at the position, on that page.
pub proof fn law_move_placement(client: CraftClient, ids: Vec<String>, pos: String, page_id: Seq<char>, r: ApiRequest)
    requires
        places(client, Placement::Move { ids, pos }, page_id, r),
    ensures
        r.method == HttpMethod::Put,
        r.url@ == client.spec_url("/blocks/move"@),
        r.body matches RequestBody::MoveBlocks { block_ids, position } && block_ids == ids
            && position.position == pos && position.page_id@ == page_id,
{
}

/// A request that places an upload onto a page is a `POST` to `/upload` with
/// the position and page in its query string, carrying the file's name.
pub proof fn law_upload_placement(
    client: CraftClient,
    file_name: Option<String>,
    pos: String,
    page_id: Seq<char>,
    r: ApiRequest,
)
    requires
        places(client, Placement::Upload { file_name, pos }, page_id, r),
    ensures
        r.method == HttpMethod::Post,
        r.url@ == client.spec_url("/upload?position="@ + pos@ + "&pageId="@ + page_id),
        r.body matches RequestBody::Upload { file_name: n } && n@ == (match file_name {
            Some(f) => f@,
            None => "file"@,
        }),
{
}

/// A daily-note lookup asks for the note of the date, without children or metadata.
pub proof fn law_daily_lookup(client: CraftClient, r: ApiRequest, date: Seq<char>)
    requires
        is_daily_lookup(client, r, date),
    ensures
        r.method == HttpMethod::Get,
        r.url@ == client.spec_url("/blocks"@),
        query_view(r.query@).contains(("date"@, date)),
        query_view(r.query@).contains(("maxDepth"@, "0"@)),
        query_view(r.query@).contains(("fetchMetadata"@, "false"@)),
{
    let q = query_view(r.query@);
    assert(q[0] == ("maxDepth"@, "0"@));
    assert(q[1] == ("fetchMetadata"@, "false"@));
    assert(q[2] == ("date"@, date));
}

} // verus!
