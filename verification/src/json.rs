//! JSON documents, and the JSON encoding of request bodies: which fields each
//! body has, under which names, in which order.
use vstd::prelude::*;
use vstd::string::*;
use crate::client::{
    BlockPosition, BlockUpdate, ItemUpdate, NewBlock, NewItem, NewTask, RequestBody, TaskInfo,
    TaskLocation, TaskUpdate,
};

verus! {

/// A JSON document of strings, arrays and objects. An object keeps its
/// members in order.
#[derive(Debug)]
pub enum Json {
    Str(String),
    Arr(Vec<Json>),
    Obj(Vec<(String, Json)>),
}

/// The abstract value of a JSON document.
pub enum JsonView {
    Str(Seq<char>),
    Arr(Seq<JsonView>),
    Obj(Seq<(Seq<char>, JsonView)>),
}

/// The abstract value of a document.
pub open spec fn json_view(j: Json) -> JsonView
    decreases j,
{
    match j {
        Json::Str(s) => JsonView::Str(s@),
        Json::Arr(v) => JsonView::Arr(items_view(v@)),
        Json::Obj(v) => JsonView::Obj(members_view(v@)),
    }
}

/// The abstract values of array items.
pub open spec fn items_view(s: Seq<Json>) -> Seq<JsonView>
    decreases s,
{
    if s.len() == 0 {
        Seq::empty()
    } else {
        items_view(s.subrange(0, s.len() - 1)).push(json_view(s[s.len() - 1]))
    }
}

/// The abstract values of object members.
pub open spec fn members_view(s: Seq<(String, Json)>) -> Seq<(Seq<char>, JsonView)>
    decreases s,
{
    if s.len() == 0 {
        Seq::empty()
    } else {
        members_view(s.subrange(0, s.len() - 1)).push((s[s.len() - 1].0@, json_view(s[s.len() - 1].1)))
    }
}

pub open spec fn opt_json_view(j: Option<Json>) -> Option<JsonView> {
    match j {
        Some(d) => Some(json_view(d)),
        None => None,
    }
}

// ---------------------------------------------------------------------------
// The encoding of request bodies

/// A string value.
pub open spec fn jstr(s: Seq<char>) -> JsonView {
    JsonView::Str(s)
}

/// The member `key: value` when a value is given, else nothing.
pub open spec fn opt_member(key: Seq<char>, value: Option<String>) -> Seq<(Seq<char>, JsonView)> {
    match value {
        Some(v) => seq![(key, jstr(v@))],
        None => seq![],
    }
}

/// An array of strings.
pub open spec fn strings_json(ids: Seq<String>) -> JsonView {
    JsonView::Arr(ids.map_values(|s: String| jstr(s@)))
}

/// `{"position": ..., "pageId": ...}`
pub open spec fn position_json(p: BlockPosition) -> JsonView {
    JsonView::Obj(seq![("position"@, jstr(p.position@)), ("pageId"@, jstr(p.page_id@))])
}

/// `{"type": "text", "markdown": ...}`
pub open spec fn new_block_json(b: NewBlock) -> JsonView {
    JsonView::Obj(seq![("type"@, jstr("text"@)), ("markdown"@, jstr(b.markdown@))])
}

/// `{"id": ..., "markdown": ...}`
pub open spec fn block_update_json(b: BlockUpdate) -> JsonView {
    JsonView::Obj(seq![("id"@, jstr(b.id@)), ("markdown"@, jstr(b.markdown@))])
}

/// `{"scheduleDate": ..., "deadlineDate": ..., "state": ...}`, each member only when present.
pub open spec fn task_info_json(t: TaskInfo) -> JsonView {
    JsonView::Obj(
        opt_member("scheduleDate"@, t.schedule_date) + opt_member("deadlineDate"@, t.deadline_date)
            + opt_member("state"@, t.state),
    )
}

/// `{"type": "inbox"}` or `{"type": "dailyNote", "date": ...}`
pub open spec fn location_json(l: TaskLocation) -> JsonView {
    match l {
        TaskLocation::Inbox => JsonView::Obj(seq![("type"@, jstr("inbox"@))]),
        TaskLocation::DailyNote { date } => JsonView::Obj(
            seq![("type"@, jstr("dailyNote"@)), ("date"@, jstr(date@))],
        ),
    }
}

/// `{"markdown": ..., "taskInfo": ..., "location": ...}`
pub open spec fn new_task_json(t: NewTask) -> JsonView {
    JsonView::Obj(
        seq![
            ("markdown"@, jstr(t.markdown@)),
            ("taskInfo"@, task_info_json(t.task_info)),
            ("location"@, location_json(t.location)),
        ],
    )
}

/// `{"id": ...}` with `markdown` and `taskInfo` when present.
pub open spec fn task_update_json(u: TaskUpdate) -> JsonView {
    JsonView::Obj(
        seq![("id"@, jstr(u.id@))] + opt_member("markdown"@, u.markdown) + match u.task_info {
            Some(i) => seq![("taskInfo"@, task_info_json(i))],
            None => seq![],
        },
    )
}

/// An object of string members, one per pair, in order.
pub open spec fn pairs_json(ps: Seq<(String, String)>) -> JsonView {
    JsonView::Obj(ps.map_values(|p: (String, String)| (p.0@, jstr(p.1@))))
}

/// `{"title": ..., "properties": {...}}`
pub open spec fn new_item_json(i: NewItem) -> JsonView {
    JsonView::Obj(seq![("title"@, jstr(i.title@)), ("properties"@, pairs_json(i.properties@))])
}

/// `{"id": ...}` with `title` and `properties` when present.
pub open spec fn item_update_json(u: ItemUpdate) -> JsonView {
    JsonView::Obj(
        seq![("id"@, jstr(u.id@))] + opt_member("title"@, u.title) + match u.properties {
            Some(p) => seq![("properties"@, pairs_json(p@))],
            None => seq![],
        },
    )
}

/// The JSON document sent as a body; none for an empty body or an upload
/// (which is a multipart form).
pub open spec fn spec_body_json(b: RequestBody) -> Option<JsonView> {
    match b {
        RequestBody::Empty => None,
        RequestBody::Upload { .. } => None,
        RequestBody::InsertBlocks { blocks, position } => Some(
            JsonView::Obj(
                seq![
                    ("blocks"@, JsonView::Arr(blocks@.map_values(|x: NewBlock| new_block_json(x)))),
                    ("position"@, position_json(position)),
                ],
            ),
        ),
        RequestBody::UpdateBlocks { blocks } => Some(
            JsonView::Obj(
                seq![("blocks"@, JsonView::Arr(blocks@.map_values(|x: BlockUpdate| block_update_json(x))))],
            ),
        ),
        RequestBody::DeleteBlocks { block_ids } => Some(
            JsonView::Obj(seq![("blockIds"@, strings_json(block_ids@))]),
        ),
        RequestBody::MoveBlocks { block_ids, position } => Some(
            JsonView::Obj(
                seq![("blockIds"@, strings_json(block_ids@)), ("position"@, position_json(position))],
            ),
        ),
        RequestBody::AddTasks { tasks } => Some(
            JsonView::Obj(seq![("tasks"@, JsonView::Arr(tasks@.map_values(|x: NewTask| new_task_json(x))))]),
        ),
        RequestBody::UpdateTasks { tasks } => Some(
            JsonView::Obj(
                seq![("tasksToUpdate"@, JsonView::Arr(tasks@.map_values(|x: TaskUpdate| task_update_json(x))))],
            ),
        ),
        RequestBody::DeleteTasks { ids } => Some(JsonView::Obj(seq![("idsToDelete"@, strings_json(ids@))])),
        RequestBody::AddItems { items } => Some(
            JsonView::Obj(seq![("items"@, JsonView::Arr(items@.map_values(|x: NewItem| new_item_json(x))))]),
        ),
        RequestBody::UpdateItems { items } => Some(
            JsonView::Obj(
                seq![("itemsToUpdate"@, JsonView::Arr(items@.map_values(|x: ItemUpdate| item_update_json(x))))],
            ),
        ),
        RequestBody::DeleteItems { ids } => Some(JsonView::Obj(seq![("idsToDelete"@, strings_json(ids@))])),
    }
}

// ---------------------------------------------------------------------------
// Reading documents, and what every encoded body holds

/// The value of the first member named `key`.
pub open spec fn lookup(members: Seq<(Seq<char>, JsonView)>, key: Seq<char>) -> Option<JsonView>
    decreases members.len(),
{
    if members.len() == 0 {
        None
    } else if members[0].0 == key {
        Some(members[0].1)
    } else {
        lookup(members.drop_first(), key)
    }
}

/// The member `key` of an object.
pub open spec fn field(j: JsonView, key: Seq<char>) -> Option<JsonView> {
    match j {
        JsonView::Obj(ms) => lookup(ms, key),
        _ => None,
    }
}

/// How many members an object has.
pub open spec fn field_count(j: JsonView) -> int {
    match j {
        JsonView::Obj(ms) => ms.len() as int,
        _ => -1,
    }
}

/// The `i`-th member (name and value) of an object.
pub open spec fn member_at(j: JsonView, i: int) -> Option<(Seq<char>, JsonView)> {
    match j {
        JsonView::Obj(ms) => if 0 <= i < ms.len() {
            Some(ms[i])
        } else {
            None
        },
        _ => None,
    }
}

/// The `i`-th item of an array.
pub open spec fn entry(j: JsonView, i: int) -> Option<JsonView> {
    match j {
        JsonView::Arr(xs) => if 0 <= i < xs.len() {
            Some(xs[i])
        } else {
            None
        },
        _ => None,
    }
}

/// How many items an array has.
pub open spec fn entry_count(j: JsonView) -> int {
    match j {
        JsonView::Arr(xs) => xs.len() as int,
        _ => -1,
    }
}

/// A string value, present.
pub open spec fn text_of(s: Seq<char>) -> Option<JsonView> {
    Some(JsonView::Str(s))
}

/// A string value when one is given.
pub open spec fn opt_text(o: Option<String>) -> Option<JsonView> {
    match o {
        Some(s) => Some(JsonView::Str(s@)),
        None => None,
    }
}

pub open spec fn count_some(o: Option<String>) -> int {
    if o is Some {
        1
    } else {
        0
    }
}

/// `j` is an array holding the strings `ids`, in order.
pub open spec fn holds_strings(j: JsonView, ids: Seq<String>) -> bool {
    &&& entry_count(j) == ids.len()
    &&& forall|i: int| 0 <= i < ids.len() ==> #[trigger] entry(j, i) == text_of(ids[i]@)
}

/// `j` names the position `p.position` on the page `p.page_id`, and nothing else.
pub open spec fn holds_position(j: JsonView, p: BlockPosition) -> bool {
    &&& field(j, "position"@) == text_of(p.position@)
    &&& field(j, "pageId"@) == text_of(p.page_id@)
    &&& field_count(j) == 2
}

/// `j` carries the schedule date, deadline date and state that are given,
/// each under its name, and no other member.
pub open spec fn holds_task_info(j: JsonView, t: TaskInfo) -> bool {
    &&& field(j, "scheduleDate"@) == opt_text(t.schedule_date)
    &&& field(j, "deadlineDate"@) == opt_text(t.deadline_date)
    &&& field(j, "state"@) == opt_text(t.state)
    &&& field_count(j) == count_some(t.schedule_date) + count_some(t.deadline_date) + count_some(t.state)
}

/// `j` holds one string member per pair, in order.
pub open spec fn holds_pairs(j: JsonView, ps: Seq<(String, String)>) -> bool {
    &&& field_count(j) == ps.len()
    &&& forall|i: int| 0 <= i < ps.len() ==> #[trigger] member_at(j, i) == Some((ps[i].0@, JsonView::Str(ps[i].1@)))
}

pub open spec fn holds_new_block(j: JsonView, b: NewBlock) -> bool {
    &&& field(j, "type"@) == text_of("text"@)
    &&& field(j, "markdown"@) == text_of(b.markdown@)
    &&& field_count(j) == 2
}

pub open spec fn holds_block_update(j: JsonView, b: BlockUpdate) -> bool {
    &&& field(j, "id"@) == text_of(b.id@)
    &&& field(j, "markdown"@) == text_of(b.markdown@)
    &&& field_count(j) == 2
}

pub open spec fn holds_location(j: JsonView, l: TaskLocation) -> bool {
    match l {
        TaskLocation::Inbox => field(j, "type"@) == text_of("inbox"@) && field_count(j) == 1,
        TaskLocation::DailyNote { date } => {
            &&& field(j, "type"@) == text_of("dailyNote"@)
            &&& field(j, "date"@) == text_of(date@)
            &&& field_count(j) == 2
        },
    }
}

pub open spec fn holds_new_task(j: JsonView, t: NewTask) -> bool {
    &&& field(j, "markdown"@) == text_of(t.markdown@)
    &&& field(j, "taskInfo"@) is Some
    &&& holds_task_info(field(j, "taskInfo"@)->0, t.task_info)
    &&& field(j, "location"@) is Some
    &&& holds_location(field(j, "location"@)->0, t.location)
    &&& field_count(j) == 3
}

pub open spec fn holds_task_update(j: JsonView, u: TaskUpdate) -> bool {
    &&& field(j, "id"@) == text_of(u.id@)
    &&& field(j, "markdown"@) == opt_text(u.markdown)
    &&& (field(j, "taskInfo"@) is Some <==> u.task_info is Some)
    &&& u.task_info is Some ==> holds_task_info(field(j, "taskInfo"@)->0, u.task_info->0)
    &&& field_count(j) == 1 + count_some(u.markdown) + if u.task_info is Some {
        1int
    } else {
        0
    }
}

pub open spec fn holds_new_item(j: JsonView, it: NewItem) -> bool {
    &&& field(j, "title"@) == text_of(it.title@)
    &&& field(j, "properties"@) is Some
    &&& holds_pairs(field(j, "properties"@)->0, it.properties@)
    &&& field_count(j) == 2
}

pub open spec fn holds_item_update(j: JsonView, u: ItemUpdate) -> bool {
    &&& field(j, "id"@) == text_of(u.id@)
    &&& field(j, "title"@) == opt_text(u.title)
    &&& (field(j, "properties"@) is Some <==> u.properties is Some)
    &&& u.properties is Some ==> holds_pairs(field(j, "properties"@)->0, u.properties->0@)
    &&& field_count(j) == 1 + count_some(u.title) + if u.properties is Some {
        1int
    } else {
        0
    }
}

proof fn lemma_lookup_concat(a: Seq<(Seq<char>, JsonView)>, b: Seq<(Seq<char>, JsonView)>, key: Seq<char>)
    ensures
        lookup(a + b, key) == if lookup(a, key) is Some {
            lookup(a, key)
        } else {
            lookup(b, key)
        },
    decreases a.len(),
{
    if a.len() > 0 {
        assert((a + b).drop_first() =~= a.drop_first() + b);
        lemma_lookup_concat(a.drop_first(), b, key);
    } else {
        assert(a + b =~= b);
    }
}

proof fn lemma_lookup_one(k: Seq<char>, v: JsonView, key: Seq<char>)
    ensures
        lookup(seq![(k, v)], key) == if key == k {
            Some(v)
        } else {
            None
        },
{
    let s = seq![(k, v)];
    assert(s.drop_first() =~= Seq::<(Seq<char>, JsonView)>::empty());
    assert(s[0] == (k, v));
    assert(lookup(s.drop_first(), key) is None);
}

proof fn lemma_lookup_opt(k: Seq<char>, v: Option<String>, key: Seq<char>)
    ensures
        lookup(opt_member(k, v), key) == if key == k {
            opt_text(v)
        } else {
            None
        },
{
    if v is Some {
        lemma_lookup_one(k, jstr(v->0@), key);
    }
}

proof fn lemma_lookup_two(k1: Seq<char>, v1: JsonView, k2: Seq<char>, v2: JsonView, key: Seq<char>)
    ensures
        lookup(seq![(k1, v1), (k2, v2)], key) == if key == k1 {
            Some(v1)
        } else if key == k2 {
            Some(v2)
        } else {
            None
        },
{
    assert(seq![(k1, v1), (k2, v2)] =~= seq![(k1, v1)] + seq![(k2, v2)]);
    lemma_lookup_concat(seq![(k1, v1)], seq![(k2, v2)], key);
    lemma_lookup_one(k1, v1, key);
    lemma_lookup_one(k2, v2, key);
}

proof fn lemma_lookup_three(
    k1: Seq<char>,
    v1: JsonView,
    k2: Seq<char>,
    v2: JsonView,
    k3: Seq<char>,
    v3: JsonView,
    key: Seq<char>,
)
    ensures
        lookup(seq![(k1, v1), (k2, v2), (k3, v3)], key) == if key == k1 {
            Some(v1)
        } else if key == k2 {
            Some(v2)
        } else if key == k3 {
            Some(v3)
        } else {
            None
        },
{
    assert(seq![(k1, v1), (k2, v2), (k3, v3)] =~= seq![(k1, v1)] + seq![(k2, v2), (k3, v3)]);
    lemma_lookup_concat(seq![(k1, v1)], seq![(k2, v2), (k3, v3)], key);
    lemma_lookup_one(k1, v1, key);
    lemma_lookup_two(k2, v2, k3, v3, key);
}

/// The member names of the encoding are distinct from one another.
proof fn lemma_names_distinct()
    ensures
        "type"@ != "markdown"@,
        "id"@ != "markdown"@,
        "position"@ != "pageId"@,
        "blockIds"@ != "position"@,
        "markdown"@ != "taskInfo"@,
        "markdown"@ != "location"@,
        "taskInfo"@ != "location"@,
        "scheduleDate"@ != "deadlineDate"@,
        "scheduleDate"@ != "state"@,
        "deadlineDate"@ != "state"@,
        "type"@ != "date"@,
        "title"@ != "properties"@,
        "id"@ != "title"@,
        "id"@ != "properties"@,
        "title"@ != "id"@,
        "id"@ != "taskInfo"@,
{
    reveal_strlit("type");
    reveal_strlit("markdown");
    reveal_strlit("id");
    reveal_strlit("position");
    reveal_strlit("pageId");
    reveal_strlit("blockIds");
    reveal_strlit("taskInfo");
    reveal_strlit("location");
    reveal_strlit("scheduleDate");
    reveal_strlit("deadlineDate");
    reveal_strlit("state");
    reveal_strlit("date");
    reveal_strlit("title");
    reveal_strlit("properties");
    assert("type"@.len() != "markdown"@.len());
    assert("id"@.len() != "markdown"@.len());
    assert("position"@.len() != "pageId"@.len());
    assert("blockIds"@[0] != "position"@[0]);
    assert("markdown"@[0] != "taskInfo"@[0]);
    assert("markdown"@[0] != "location"@[0]);
    assert("taskInfo"@[0] != "location"@[0]);
    assert("scheduleDate"@[0] != "deadlineDate"@[0]);
    assert("scheduleDate"@.len() != "state"@.len());
    assert("deadlineDate"@.len() != "state"@.len());
    assert("type"@[0] != "date"@[0]);
    assert("title"@.len() != "properties"@.len());
    assert("id"@.len() != "title"@.len());
    assert("id"@.len() != "properties"@.len());
    assert("id"@.len() != "taskInfo"@.len());
}

/// An encoded position names its position and page.
pub proof fn law_position_json(p: BlockPosition)
    ensures
        holds_position(position_json(p), p),
{
    lemma_names_distinct();
    lemma_lookup_two("position"@, jstr(p.position@), "pageId"@, jstr(p.page_id@), "position"@);
    lemma_lookup_two("position"@, jstr(p.position@), "pageId"@, jstr(p.page_id@), "pageId"@);
}

/// Encoded task info carries exactly the dates and state that are given.
pub proof fn law_task_info_json(t: TaskInfo)
    ensures
        holds_task_info(task_info_json(t), t),
{
    lemma_names_distinct();
    let a = opt_member("scheduleDate"@, t.schedule_date);
    let b = opt_member("deadlineDate"@, t.deadline_date);
    let c = opt_member("state"@, t.state);
    assert forall|key: Seq<char>| lookup(a + b + c, key) == (if key == "scheduleDate"@ {
        opt_text(t.schedule_date)
    } else if key == "deadlineDate"@ {
        opt_text(t.deadline_date)
    } else if key == "state"@ {
        opt_text(t.state)
    } else {
        None
    }) by {
        lemma_lookup_concat(a + b, c, key);
        lemma_lookup_concat(a, b, key);
        lemma_lookup_opt("scheduleDate"@, t.schedule_date, key);
        lemma_lookup_opt("deadlineDate"@, t.deadline_date, key);
        lemma_lookup_opt("state"@, t.state, key);
    }
    assert(lookup(a + b + c, "scheduleDate"@) == opt_text(t.schedule_date));
    assert(lookup(a + b + c, "deadlineDate"@) == opt_text(t.deadline_date));
    assert(lookup(a + b + c, "state"@) == opt_text(t.state));
}

/// An encoded new block is a text block with its markdown.
pub proof fn law_new_block_json(b: NewBlock)
    ensures
        holds_new_block(new_block_json(b), b),
{
    lemma_names_distinct();
    lemma_lookup_two("type"@, jstr("text"@), "markdown"@, jstr(b.markdown@), "type"@);
    lemma_lookup_two("type"@, jstr("text"@), "markdown"@, jstr(b.markdown@), "markdown"@);
}

/// An encoded block update names the block and its new markdown.
pub proof fn law_block_update_json(b: BlockUpdate)
    ensures
        holds_block_update(block_update_json(b), b),
{
    lemma_names_distinct();
    lemma_lookup_two("id"@, jstr(b.id@), "markdown"@, jstr(b.markdown@), "id"@);
    lemma_lookup_two("id"@, jstr(b.id@), "markdown"@, jstr(b.markdown@), "markdown"@);
}

/// An encoded location names the inbox, or the daily note and its date.
pub proof fn law_location_json(l: TaskLocation)
    ensures
        holds_location(location_json(l), l),
{
    lemma_names_distinct();
    match l {
        TaskLocation::Inbox => {
            lemma_lookup_one("type"@, jstr("inbox"@), "type"@);
        },
        TaskLocation::DailyNote { date } => {
            lemma_lookup_two("type"@, jstr("dailyNote"@), "date"@, jstr(date@), "type"@);
            lemma_lookup_two("type"@, jstr("dailyNote"@), "date"@, jstr(date@), "date"@);
        },
    }
}

/// An encoded new task carries its markdown, its task info and its location.
pub proof fn law_new_task_json(t: NewTask)
    ensures
        holds_new_task(new_task_json(t), t),
{
    lemma_names_distinct();
    let ti = task_info_json(t.task_info);
    let lo = location_json(t.location);
    lemma_lookup_three("markdown"@, jstr(t.markdown@), "taskInfo"@, ti, "location"@, lo, "markdown"@);
    lemma_lookup_three("markdown"@, jstr(t.markdown@), "taskInfo"@, ti, "location"@, lo, "taskInfo"@);
    lemma_lookup_three("markdown"@, jstr(t.markdown@), "taskInfo"@, ti, "location"@, lo, "location"@);
    law_task_info_json(t.task_info);
    law_location_json(t.location);
}

/// An encoded task update names the task, and carries its new markdown and
/// task info exactly when they are given.
pub proof fn law_task_update_json(u: TaskUpdate)
    ensures
        holds_task_update(task_update_json(u), u),
{
    lemma_names_distinct();
    let a = seq![("id"@, jstr(u.id@))];
    let b = opt_member("markdown"@, u.markdown);
    let c: Seq<(Seq<char>, JsonView)> = match u.task_info {
        Some(i) => seq![("taskInfo"@, task_info_json(i))],
        None => seq![],
    };
    assert forall|key: Seq<char>|
        key == "id"@ || key == "markdown"@ || key == "taskInfo"@ implies lookup(a + b + c, key) == (if key
        == "id"@ {
        text_of(u.id@)
    } else if key == "markdown"@ {
        opt_text(u.markdown)
    } else {
        match u.task_info {
            Some(i) => Some(task_info_json(i)),
            None => None,
        }
    }) by {
        lemma_lookup_concat(a + b, c, key);
        lemma_lookup_concat(a, b, key);
        lemma_lookup_one("id"@, jstr(u.id@), key);
        lemma_lookup_opt("markdown"@, u.markdown, key);
        if u.task_info is Some {
            lemma_lookup_one("taskInfo"@, task_info_json(u.task_info->0), key);
        }
    }
    assert(lookup(a + b + c, "id"@) == text_of(u.id@));
    assert(lookup(a + b + c, "markdown"@) == opt_text(u.markdown));
    assert(lookup(a + b + c, "taskInfo"@) == match u.task_info {
        Some(i) => Some(task_info_json(i)),
        None => None,
    });
    if u.task_info is Some {
        law_task_info_json(u.task_info->0);
    }
}

/// The pairs object holds each pair as a string member, in order.
pub proof fn law_pairs_json(ps: Seq<(String, String)>)
    ensures
        holds_pairs(pairs_json(ps), ps),
{
}

/// An encoded new item carries its title and its properties.
pub proof fn law_new_item_json(it: NewItem)
    ensures
        holds_new_item(new_item_json(it), it),
{
    lemma_names_distinct();
    let pj = pairs_json(it.properties@);
    lemma_lookup_two("title"@, jstr(it.title@), "properties"@, pj, "title"@);
    lemma_lookup_two("title"@, jstr(it.title@), "properties"@, pj, "properties"@);
    law_pairs_json(it.properties@);
}

/// An encoded item update names the item, and carries its new title and its
/// properties exactly when they are given.
pub proof fn law_item_update_json(u: ItemUpdate)
    ensures
        holds_item_update(item_update_json(u), u),
{
    lemma_names_distinct();
    let a = seq![("id"@, jstr(u.id@))];
    let b = opt_member("title"@, u.title);
    let c: Seq<(Seq<char>, JsonView)> = match u.properties {
        Some(p) => seq![("properties"@, pairs_json(p@))],
        None => seq![],
    };
    assert forall|key: Seq<char>|
        key == "id"@ || key == "title"@ || key == "properties"@ implies lookup(a + b + c, key) == (if key
        == "id"@ {
        text_of(u.id@)
    } else if key == "title"@ {
        opt_text(u.title)
    } else {
        match u.properties {
            Some(p) => Some(pairs_json(p@)),
            None => None,
        }
    }) by {
        lemma_lookup_concat(a + b, c, key);
        lemma_lookup_concat(a, b, key);
        lemma_lookup_one("id"@, jstr(u.id@), key);
        lemma_lookup_opt("title"@, u.title, key);
        if u.properties is Some {
            lemma_lookup_one("properties"@, pairs_json(u.properties->0@), key);
        }
    }
    assert(lookup(a + b + c, "id"@) == text_of(u.id@));
    assert(lookup(a + b + c, "title"@) == opt_text(u.title));
    assert(lookup(a + b + c, "properties"@) == match u.properties {
        Some(p) => Some(pairs_json(p@)),
        None => None,
    });
    if u.properties is Some {
        law_pairs_json(u.properties->0@);
    }
}

/// `a` is an array holding one encoded element per `NewBlock`, in order.
pub open spec fn holds_new_blocks(a: JsonView, xs: Seq<NewBlock>) -> bool {
    &&& entry_count(a) == xs.len()
    &&& forall|i: int| 0 <= i < xs.len() ==> #[trigger] entry(a, i) is Some && holds_new_block(entry(a, i)->0, xs[i])
}

/// `a` is an array holding one encoded element per `BlockUpdate`, in order.
pub open spec fn holds_block_updates(a: JsonView, xs: Seq<BlockUpdate>) -> bool {
    &&& entry_count(a) == xs.len()
    &&& forall|i: int| 0 <= i < xs.len() ==> #[trigger] entry(a, i) is Some && holds_block_update(entry(a, i)->0, xs[i])
}

/// `a` is an array holding one encoded element per `NewTask`, in order.
pub open spec fn holds_new_tasks(a: JsonView, xs: Seq<NewTask>) -> bool {
    &&& entry_count(a) == xs.len()
    &&& forall|i: int| 0 <= i < xs.len() ==> #[trigger] entry(a, i) is Some && holds_new_task(entry(a, i)->0, xs[i])
}

/// `a` is an array holding one encoded element per `TaskUpdate`, in order.
pub open spec fn holds_task_updates(a: JsonView, xs: Seq<TaskUpdate>) -> bool {
    &&& entry_count(a) == xs.len()
    &&& forall|i: int| 0 <= i < xs.len() ==> #[trigger] entry(a, i) is Some && holds_task_update(entry(a, i)->0, xs[i])
}

/// `a` is an array holding one encoded element per `NewItem`, in order.
pub open spec fn holds_new_items(a: JsonView, xs: Seq<NewItem>) -> bool {
    &&& entry_count(a) == xs.len()
    &&& forall|i: int| 0 <= i < xs.len() ==> #[trigger] entry(a, i) is Some && holds_new_item(entry(a, i)->0, xs[i])
}

/// `a` is an array holding one encoded element per `ItemUpdate`, in order.
pub open spec fn holds_item_updates(a: JsonView, xs: Seq<ItemUpdate>) -> bool {
    &&& entry_count(a) == xs.len()
    &&& forall|i: int| 0 <= i < xs.len() ==> #[trigger] entry(a, i) is Some && holds_item_update(entry(a, i)->0, xs[i])
}

/// `j` is an object with exactly one member, named `k`.
pub open spec fn one_field(j: Option<JsonView>, k: Seq<char>) -> bool {
    j is Some && field_count(j->0) == 1 && field(j->0, k) is Some
}

/// `j` is an object with exactly two members, named `k1` and `k2`.
pub open spec fn two_fields(j: Option<JsonView>, k1: Seq<char>, k2: Seq<char>) -> bool {
    j is Some && field_count(j->0) == 2 && field(j->0, k1) is Some && field(j->0, k2) is Some
}

/// What the server receives for each body: the named members, each holding
/// what the body carries, and nothing else; no document for an empty body or
/// an upload.
pub open spec fn body_holds(b: RequestBody, j: Option<JsonView>) -> bool {
    match b {
        RequestBody::Empty => j is None,
        RequestBody::Upload { .. } => j is None,
        RequestBody::InsertBlocks { blocks, position } => {
            &&& two_fields(j, "blocks"@, "position"@)
            &&& holds_new_blocks(field(j->0, "blocks"@)->0, blocks@)
            &&& holds_position(field(j->0, "position"@)->0, position)
        },
        RequestBody::UpdateBlocks { blocks } => {
            &&& one_field(j, "blocks"@)
            &&& holds_block_updates(field(j->0, "blocks"@)->0, blocks@)
        },
        RequestBody::DeleteBlocks { block_ids } => {
            &&& one_field(j, "blockIds"@)
            &&& holds_strings(field(j->0, "blockIds"@)->0, block_ids@)
        },
        RequestBody::MoveBlocks { block_ids, position } => {
            &&& two_fields(j, "blockIds"@, "position"@)
            &&& holds_strings(field(j->0, "blockIds"@)->0, block_ids@)
            &&& holds_position(field(j->0, "position"@)->0, position)
        },
        RequestBody::AddTasks { tasks } => {
            &&& one_field(j, "tasks"@)
            &&& holds_new_tasks(field(j->0, "tasks"@)->0, tasks@)
        },
        RequestBody::UpdateTasks { tasks } => {
            &&& one_field(j, "tasksToUpdate"@)
            &&& holds_task_updates(field(j->0, "tasksToUpdate"@)->0, tasks@)
        },
        RequestBody::DeleteTasks { ids } => {
            &&& one_field(j, "idsToDelete"@)
            &&& holds_strings(field(j->0, "idsToDelete"@)->0, ids@)
        },
        RequestBody::AddItems { items } => {
            &&& one_field(j, "items"@)
            &&& holds_new_items(field(j->0, "items"@)->0, items@)
        },
        RequestBody::UpdateItems { items } => {
            &&& one_field(j, "itemsToUpdate"@)
            &&& holds_item_updates(field(j->0, "itemsToUpdate"@)->0, items@)
        },
        RequestBody::DeleteItems { ids } => {
            &&& one_field(j, "idsToDelete"@)
            &&& holds_strings(field(j->0, "idsToDelete"@)->0, ids@)
        },
    }
}

/// Every request body is encoded with the member names the API expects, each
/// member holding exactly what the body carries: the ids to delete or move,
/// the target position and page, each block's markdown, each task's markdown,
/// dates, state and location, each item's title and properties.
pub proof fn law_body_json(b: RequestBody)
    ensures
        body_holds(b, spec_body_json(b)),
{
    reveal_strlit("blocks");
    reveal_strlit("position");
    reveal_strlit("blockIds");
    assert("blocks"@.len() != "position"@.len());
    assert("blockIds"@[0] != "position"@[0]);
    match b {
        RequestBody::Empty => {},
        RequestBody::Upload { .. } => {},
        RequestBody::InsertBlocks { blocks, position } => {
            let arr = JsonView::Arr(blocks@.map_values(|x: NewBlock| new_block_json(x)));
            lemma_lookup_two("blocks"@, arr, "position"@, position_json(position), "blocks"@);
            lemma_lookup_two("blocks"@, arr, "position"@, position_json(position), "position"@);
            law_position_json(position);
            assert forall|i: int| 0 <= i < blocks@.len() implies #[trigger] entry(arr, i) is Some
                && holds_new_block(entry(arr, i)->0, blocks@[i]) by {
                law_new_block_json(blocks@[i]);
            }
        },
        RequestBody::UpdateBlocks { blocks } => {
            let arr = JsonView::Arr(blocks@.map_values(|x: BlockUpdate| block_update_json(x)));
            lemma_lookup_one("blocks"@, arr, "blocks"@);
            assert forall|i: int| 0 <= i < blocks@.len() implies #[trigger] entry(arr, i) is Some
                && holds_block_update(entry(arr, i)->0, blocks@[i]) by {
                law_block_update_json(blocks@[i]);
            }
        },
        RequestBody::DeleteBlocks { block_ids } => {
            lemma_lookup_one("blockIds"@, strings_json(block_ids@), "blockIds"@);
        },
        RequestBody::MoveBlocks { block_ids, position } => {
            let ids = strings_json(block_ids@);
            lemma_lookup_two("blockIds"@, ids, "position"@, position_json(position), "blockIds"@);
            lemma_lookup_two("blockIds"@, ids, "position"@, position_json(position), "position"@);
            law_position_json(position);
        },
        RequestBody::AddTasks { tasks } => {
            let arr = JsonView::Arr(tasks@.map_values(|x: NewTask| new_task_json(x)));
            lemma_lookup_one("tasks"@, arr, "tasks"@);
            assert forall|i: int| 0 <= i < tasks@.len() implies #[trigger] entry(arr, i) is Some
                && holds_new_task(entry(arr, i)->0, tasks@[i]) by {
                law_new_task_json(tasks@[i]);
            }
        },
        RequestBody::UpdateTasks { tasks } => {
            let arr = JsonView::Arr(tasks@.map_values(|x: TaskUpdate| task_update_json(x)));
            lemma_lookup_one("tasksToUpdate"@, arr, "tasksToUpdate"@);
            assert forall|i: int| 0 <= i < tasks@.len() implies #[trigger] entry(arr, i) is Some
                && holds_task_update(entry(arr, i)->0, tasks@[i]) by {
                law_task_update_json(tasks@[i]);
            }
        },
        RequestBody::DeleteTasks { ids } => {
            lemma_lookup_one("idsToDelete"@, strings_json(ids@), "idsToDelete"@);
        },
        RequestBody::AddItems { items } => {
            let arr = JsonView::Arr(items@.map_values(|x: NewItem| new_item_json(x)));
            lemma_lookup_one("items"@, arr, "items"@);
            assert forall|i: int| 0 <= i < items@.len() implies #[trigger] entry(arr, i) is Some
                && holds_new_item(entry(arr, i)->0, items@[i]) by {
                law_new_item_json(items@[i]);
            }
        },
        RequestBody::UpdateItems { items } => {
            let arr = JsonView::Arr(items@.map_values(|x: ItemUpdate| item_update_json(x)));
            lemma_lookup_one("itemsToUpdate"@, arr, "itemsToUpdate"@);
            assert forall|i: int| 0 <= i < items@.len() implies #[trigger] entry(arr, i) is Some
                && holds_item_update(entry(arr, i)->0, items@[i]) by {
                law_item_update_json(items@[i]);
            }
        },
        RequestBody::DeleteItems { ids } => {
            lemma_lookup_one("idsToDelete"@, strings_json(ids@), "idsToDelete"@);
        },
    }
}

// ---------------------------------------------------------------------------
// Building documents

proof fn lemma_items_push(s: Seq<Json>, x: Json)
    ensures
        items_view(s.push(x)) == items_view(s).push(json_view(x)),
{
    assert(s.push(x).subrange(0, s.len() as int) =~= s);
}

proof fn lemma_members_push(s: Seq<(String, Json)>, x: (String, Json))
    ensures
        members_view(s.push(x)) == members_view(s).push((x.0@, json_view(x.1))),
{
    assert(s.push(x).subrange(0, s.len() as int) =~= s);
}

fn new_members() -> (m: Vec<(String, Json)>)
    ensures
        members_view(m@) == Seq::<(Seq<char>, JsonView)>::empty(),
{
    Vec::new()
}

fn push_member(m: &mut Vec<(String, Json)>, key: &str, value: Json)
    ensures
        members_view(final(m)@) == members_view(old(m)@).push((key@, json_view(value))),
{
    let k = String::from_str(key);
    let ghost pair = (k, value);
    proof {
        lemma_members_push(old(m)@, pair);
    }
    m.push((k, value));
}

fn push_item(a: &mut Vec<Json>, value: Json)
    ensures
        items_view(final(a)@) == items_view(old(a)@).push(json_view(value)),
{
    proof {
        lemma_items_push(old(a)@, value);
    }
    a.push(value);
}

fn text(s: &String) -> (j: Json)
    ensures
        json_view(j) == jstr(s@),
{
    Json::Str(s.clone())
}

fn lit(s: &str) -> (j: Json)
    ensures
        json_view(j) == jstr(s@),
{
    Json::Str(String::from_str(s))
}

fn push_opt_member(m: &mut Vec<(String, Json)>, key: &str, value: &Option<String>)
    ensures
        members_view(final(m)@) == members_view(old(m)@) + opt_member(key@, *value),
{
    match value {
        Some(v) => {
            push_member(m, key, text(v));
            assert(members_view(m@) =~= members_view(old(m)@) + opt_member(key@, *value));
        },
        None => {
            assert(members_view(m@) =~= members_view(old(m)@) + opt_member(key@, *value));
        },
    }
}

fn strings(ids: &Vec<String>) -> (j: Json)
    ensures
        json_view(j) == strings_json(ids@),
{
    let mut a: Vec<Json> = Vec::new();
    let n = ids.len();
    for i in 0..n
        invariant
            n == ids@.len(),
            items_view(a@) == ids@.take(i as int).map_values(|s: String| jstr(s@)),
    {
        push_item(&mut a, text(&ids[i]));
        assert(ids@.take(i + 1).map_values(|s: String| jstr(s@)) =~= ids@.take(i as int).map_values(
            |s: String| jstr(s@),
        ).push(jstr(ids@[i as int]@)));
    }
    assert(ids@.take(n as int) =~= ids@);
    Json::Arr(a)
}

fn position(p: &BlockPosition) -> (j: Json)
    ensures
        json_view(j) == position_json(*p),
{
    let mut m = new_members();
    push_member(&mut m, "position", text(&p.position));
    push_member(&mut m, "pageId", text(&p.page_id));
    assert(members_view(m@) =~= seq![("position"@, jstr(p.position@)), ("pageId"@, jstr(p.page_id@))]);
    Json::Obj(m)
}

fn new_block(b: &NewBlock) -> (j: Json)
    ensures
        json_view(j) == new_block_json(*b),
{
    let mut m = new_members();
    push_member(&mut m, "type", lit("text"));
    push_member(&mut m, "markdown", text(&b.markdown));
    assert(members_view(m@) =~= seq![("type"@, jstr("text"@)), ("markdown"@, jstr(b.markdown@))]);
    Json::Obj(m)
}

fn block_update(b: &BlockUpdate) -> (j: Json)
    ensures
        json_view(j) == block_update_json(*b),
{
    let mut m = new_members();
    push_member(&mut m, "id", text(&b.id));
    push_member(&mut m, "markdown", text(&b.markdown));
    assert(members_view(m@) =~= seq![("id"@, jstr(b.id@)), ("markdown"@, jstr(b.markdown@))]);
    Json::Obj(m)
}

fn task_info(t: &TaskInfo) -> (j: Json)
    ensures
        json_view(j) == task_info_json(*t),
{
    let mut m = new_members();
    push_opt_member(&mut m, "scheduleDate", &t.schedule_date);
    push_opt_member(&mut m, "deadlineDate", &t.deadline_date);
    push_opt_member(&mut m, "state", &t.state);
    assert(members_view(m@) =~= opt_member("scheduleDate"@, t.schedule_date) + opt_member(
        "deadlineDate"@,
        t.deadline_date,
    ) + opt_member("state"@, t.state));
    Json::Obj(m)
}

fn location(l: &TaskLocation) -> (j: Json)
    ensures
        json_view(j) == location_json(*l),
{
    let mut m = new_members();
    match l {
        TaskLocation::Inbox => {
            push_member(&mut m, "type", lit("inbox"));
            assert(members_view(m@) =~= seq![("type"@, jstr("inbox"@))]);
        },
        TaskLocation::DailyNote { date } => {
            push_member(&mut m, "type", lit("dailyNote"));
            push_member(&mut m, "date", text(date));
            assert(members_view(m@) =~= seq![("type"@, jstr("dailyNote"@)), ("date"@, jstr(date@))]);
        },
    }
    Json::Obj(m)
}

fn new_task(t: &NewTask) -> (j: Json)
    ensures
        json_view(j) == new_task_json(*t),
{
    let mut m = new_members();
    push_member(&mut m, "markdown", text(&t.markdown));
    push_member(&mut m, "taskInfo", task_info(&t.task_info));
    push_member(&mut m, "location", location(&t.location));
    assert(members_view(m@) =~= seq![
        ("markdown"@, jstr(t.markdown@)),
        ("taskInfo"@, task_info_json(t.task_info)),
        ("location"@, location_json(t.location)),
    ]);
    Json::Obj(m)
}

fn task_update(u: &TaskUpdate) -> (j: Json)
    ensures
        json_view(j) == task_update_json(*u),
{
    let mut m = new_members();
    push_member(&mut m, "id", text(&u.id));
    push_opt_member(&mut m, "markdown", &u.markdown);
    let ghost before = members_view(m@);
    match &u.task_info {
        Some(i) => {
            push_member(&mut m, "taskInfo", task_info(i));
        },
        None => {},
    }
    assert(members_view(m@) =~= seq![("id"@, jstr(u.id@))] + opt_member("markdown"@, u.markdown)
        + match u.task_info {
        Some(i) => seq![("taskInfo"@, task_info_json(i))],
        None => seq![],
    });
    Json::Obj(m)
}

fn pairs(ps: &Vec<(String, String)>) -> (j: Json)
    ensures
        json_view(j) == pairs_json(ps@),
{
    let mut m = new_members();
    let n = ps.len();
    for i in 0..n
        invariant
            n == ps@.len(),
            members_view(m@) == ps@.take(i as int).map_values(|p: (String, String)| (p.0@, jstr(p.1@))),
    {
        push_member(&mut m, ps[i].0.as_str(), text(&ps[i].1));
        assert(ps@.take(i + 1).map_values(|p: (String, String)| (p.0@, jstr(p.1@))) =~= ps@.take(
            i as int,
        ).map_values(|p: (String, String)| (p.0@, jstr(p.1@))).push((ps@[i as int].0@, jstr(ps@[i as int].1@))));
    }
    assert(ps@.take(n as int) =~= ps@);
    Json::Obj(m)
}

fn new_item(it: &NewItem) -> (j: Json)
    ensures
        json_view(j) == new_item_json(*it),
{
    let mut m = new_members();
    push_member(&mut m, "title", text(&it.title));
    push_member(&mut m, "properties", pairs(&it.properties));
    assert(members_view(m@) =~= seq![("title"@, jstr(it.title@)), ("properties"@, pairs_json(it.properties@))]);
    Json::Obj(m)
}

fn item_update(u: &ItemUpdate) -> (j: Json)
    ensures
        json_view(j) == item_update_json(*u),
{
    let mut m = new_members();
    push_member(&mut m, "id", text(&u.id));
    push_opt_member(&mut m, "title", &u.title);
    match &u.properties {
        Some(p) => {
            push_member(&mut m, "properties", pairs(p));
        },
        None => {},
    }
    assert(members_view(m@) =~= seq![("id"@, jstr(u.id@))] + opt_member("title"@, u.title)
        + match u.properties {
        Some(p) => seq![("properties"@, pairs_json(p@))],
        None => seq![],
    });
    Json::Obj(m)
}

fn one_member(key: &str, value: Json) -> (j: Json)
    ensures
        json_view(j) == JsonView::Obj(seq![(key@, json_view(value))]),
{
    let mut m = new_members();
    push_member(&mut m, key, value);
    assert(members_view(m@) =~= seq![(key@, json_view(value))]);
    Json::Obj(m)
}

fn two_members(k1: &str, v1: Json, k2: &str, v2: Json) -> (j: Json)
    ensures
        json_view(j) == JsonView::Obj(seq![(k1@, json_view(v1)), (k2@, json_view(v2))]),
{
    let mut m = new_members();
    push_member(&mut m, k1, v1);
    push_member(&mut m, k2, v2);
    assert(members_view(m@) =~= seq![(k1@, json_view(v1)), (k2@, json_view(v2))]);
    Json::Obj(m)
}

fn new_blocks(v: &Vec<NewBlock>) -> (j: Json)
    ensures
        json_view(j) == JsonView::Arr(v@.map_values(|x: NewBlock| new_block_json(x))),
{
    let mut a: Vec<Json> = Vec::new();
    let n = v.len();
    for i in 0..n
        invariant
            n == v@.len(),
            items_view(a@) == v@.take(i as int).map_values(|x: NewBlock| new_block_json(x)),
    {
        push_item(&mut a, new_block(&v[i]));
        assert(v@.take(i + 1).map_values(|x: NewBlock| new_block_json(x)) =~= v@.take(i as int).map_values(
            |x: NewBlock| new_block_json(x),
        ).push(new_block_json(v@[i as int])));
    }
    assert(v@.take(n as int) =~= v@);
    Json::Arr(a)
}

fn block_updates(v: &Vec<BlockUpdate>) -> (j: Json)
    ensures
        json_view(j) == JsonView::Arr(v@.map_values(|x: BlockUpdate| block_update_json(x))),
{
    let mut a: Vec<Json> = Vec::new();
    let n = v.len();
    for i in 0..n
        invariant
            n == v@.len(),
            items_view(a@) == v@.take(i as int).map_values(|x: BlockUpdate| block_update_json(x)),
    {
        push_item(&mut a, block_update(&v[i]));
        assert(v@.take(i + 1).map_values(|x: BlockUpdate| block_update_json(x)) =~= v@.take(i as int).map_values(
            |x: BlockUpdate| block_update_json(x),
        ).push(block_update_json(v@[i as int])));
    }
    assert(v@.take(n as int) =~= v@);
    Json::Arr(a)
}

fn new_tasks(v: &Vec<NewTask>) -> (j: Json)
    ensures
        json_view(j) == JsonView::Arr(v@.map_values(|x: NewTask| new_task_json(x))),
{
    let mut a: Vec<Json> = Vec::new();
    let n = v.len();
    for i in 0..n
        invariant
            n == v@.len(),
            items_view(a@) == v@.take(i as int).map_values(|x: NewTask| new_task_json(x)),
    {
        push_item(&mut a, new_task(&v[i]));
        assert(v@.take(i + 1).map_values(|x: NewTask| new_task_json(x)) =~= v@.take(i as int).map_values(
            |x: NewTask| new_task_json(x),
        ).push(new_task_json(v@[i as int])));
    }
    assert(v@.take(n as int) =~= v@);
    Json::Arr(a)
}

fn task_updates(v: &Vec<TaskUpdate>) -> (j: Json)
    ensures
        json_view(j) == JsonView::Arr(v@.map_values(|x: TaskUpdate| task_update_json(x))),
{
    let mut a: Vec<Json> = Vec::new();
    let n = v.len();
    for i in 0..n
        invariant
            n == v@.len(),
            items_view(a@) == v@.take(i as int).map_values(|x: TaskUpdate| task_update_json(x)),
    {
        push_item(&mut a, task_update(&v[i]));
        assert(v@.take(i + 1).map_values(|x: TaskUpdate| task_update_json(x)) =~= v@.take(i as int).map_values(
            |x: TaskUpdate| task_update_json(x),
        ).push(task_update_json(v@[i as int])));
    }
    assert(v@.take(n as int) =~= v@);
    Json::Arr(a)
}

fn new_items(v: &Vec<NewItem>) -> (j: Json)
    ensures
        json_view(j) == JsonView::Arr(v@.map_values(|x: NewItem| new_item_json(x))),
{
    let mut a: Vec<Json> = Vec::new();
    let n = v.len();
    for i in 0..n
        invariant
            n == v@.len(),
            items_view(a@) == v@.take(i as int).map_values(|x: NewItem| new_item_json(x)),
    {
        push_item(&mut a, new_item(&v[i]));
        assert(v@.take(i + 1).map_values(|x: NewItem| new_item_json(x)) =~= v@.take(i as int).map_values(
            |x: NewItem| new_item_json(x),
        ).push(new_item_json(v@[i as int])));
    }
    assert(v@.take(n as int) =~= v@);
    Json::Arr(a)
}

fn item_updates(v: &Vec<ItemUpdate>) -> (j: Json)
    ensures
        json_view(j) == JsonView::Arr(v@.map_values(|x: ItemUpdate| item_update_json(x))),
{
    let mut a: Vec<Json> = Vec::new();
    let n = v.len();
    for i in 0..n
        invariant
            n == v@.len(),
            items_view(a@) == v@.take(i as int).map_values(|x: ItemUpdate| item_update_json(x)),
    {
        push_item(&mut a, item_update(&v[i]));
        assert(v@.take(i + 1).map_values(|x: ItemUpdate| item_update_json(x)) =~= v@.take(i as int).map_values(
            |x: ItemUpdate| item_update_json(x),
        ).push(item_update_json(v@[i as int])));
    }
    assert(v@.take(n as int) =~= v@);
    Json::Arr(a)
}

/// The JSON document sent as the body of a request; none for an empty body or
/// an upload, which is sent as a multipart form.
pub fn encode_body(body: &RequestBody) -> (j: Option<Json>)
    ensures
        opt_json_view(j) == spec_body_json(*body),
        body_holds(*body, opt_json_view(j)),
{
    proof {
        law_body_json(*body);
    }
    match body {
        RequestBody::Empty => None,
        RequestBody::Upload { .. } => None,
        RequestBody::InsertBlocks { blocks, position: p } => Some(
            two_members("blocks", new_blocks(blocks), "position", position(p)),
        ),
        RequestBody::UpdateBlocks { blocks } => Some(one_member("blocks", block_updates(blocks))),
        RequestBody::DeleteBlocks { block_ids } => Some(one_member("blockIds", strings(block_ids))),
        RequestBody::MoveBlocks { block_ids, position: p } => Some(
            two_members("blockIds", strings(block_ids), "position", position(p)),
        ),
        RequestBody::AddTasks { tasks } => Some(one_member("tasks", new_tasks(tasks))),
        RequestBody::UpdateTasks { tasks } => Some(one_member("tasksToUpdate", task_updates(tasks))),
        RequestBody::DeleteTasks { ids } => Some(one_member("idsToDelete", strings(ids))),
        RequestBody::AddItems { items } => Some(one_member("items", new_items(items))),
        RequestBody::UpdateItems { items } => Some(one_member("itemsToUpdate", item_updates(items))),
        RequestBody::DeleteItems { ids } => Some(one_member("idsToDelete", strings(ids))),
    }
}

} // verus!
