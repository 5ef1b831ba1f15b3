use craft_cli::client::{
    BlockPosition, BlockUpdate, CraftClient, HttpMethod, ItemUpdate, NewBlock, NewItem, NewTask,
    RequestBody, TaskInfo, TaskLocation, TaskUpdate,
};
use craft_cli::commands::{
    begin_move, begin_upload, begin_with_content, resume_placement, start_placement, with_content,
    Flow, PageTarget, Pending, Placement,
};
use craft_cli::error::CliError;
use craft_cli::json::{encode_body, Json};

fn client() -> CraftClient {
    CraftClient::new("https://c.test/api/".to_string(), None)
}

fn s(x: &str) -> Json {
    Json::Str(x.to_string())
}

fn obj(members: Vec<(&str, Json)>) -> Json {
    Json::Obj(members.into_iter().map(|(k, v)| (k.to_string(), v)).collect())
}

fn text(j: &Json) -> String {
    format!("{:?}", j)
}

fn same(a: Option<Json>, b: Json) {
    assert_eq!(text(&a.expect("a document")), text(&b));
}

#[test]
fn insert_with_inline_markdown_onto_a_page_is_sent_at_once() {
    let f = begin_with_content(
        &client(),
        Pending::Insert { date: None, page_id: Some("pg".into()), pos: "end".into() },
        Some("hello".into()),
        false,
    )
    .unwrap();
    match f {
        Flow::Send(r) => {
            assert_eq!(r.url, "https://c.test/api/blocks");
            match r.body {
                RequestBody::InsertBlocks { blocks, position } => {
                    assert_eq!(blocks[0].markdown, "hello");
                    assert_eq!(position.page_id, "pg");
                    assert_eq!(position.position, "end");
                }
                b => panic!("{:?}", b),
            }
        }
        f => panic!("{:?}", f),
    }
}

#[test]
fn stdin_is_read_before_the_target_is_checked() {
    let pending = Pending::Insert { date: None, page_id: None, pos: "end".into() };
    match begin_with_content(&client(), pending, None, true).unwrap() {
        Flow::ReadStdin(p) => match with_content(&client(), p, "from stdin".into()) {
            Err(CliError::Argument(m)) => assert_eq!(m, "Either --date or --page-id must be provided"),
            other => panic!("{:?}", other),
        },
        f => panic!("{:?}", f),
    }
}

#[test]
fn missing_markdown_is_refused_first() {
    match begin_with_content(&client(), Pending::Insert { date: None, page_id: None, pos: "end".into() }, None, false) {
        Err(CliError::Argument(m)) => assert_eq!(m, "Either markdown content or --stdin must be provided"),
        other => panic!("{:?}", other),
    }
}

#[test]
fn insert_onto_a_date_looks_up_the_daily_note_first() {
    let f = begin_with_content(
        &client(),
        Pending::Insert { date: Some("today".into()), page_id: Some("ignored".into()), pos: "start".into() },
        Some("x".into()),
        false,
    )
    .unwrap();
    let (request, then) = match f {
        Flow::LookUp { request, then } => (request, then),
        f => panic!("{:?}", f),
    };
    assert_eq!(request.method, HttpMethod::Get);
    assert_eq!(
        request.query,
        vec![
            ("maxDepth".to_string(), "0".to_string()),
            ("fetchMetadata".to_string(), "false".to_string()),
            ("date".to_string(), "today".to_string()),
        ]
    );
    let r = resume_placement(&client(), then.clone(), Some("note-7".into())).unwrap();
    match r.body {
        RequestBody::InsertBlocks { position, .. } => assert_eq!(position.page_id, "note-7"),
        b => panic!("{:?}", b),
    }
    match resume_placement(&client(), then, None) {
        Err(CliError::Api { code, message }) => {
            assert_eq!(code, 404);
            assert_eq!(message, "Daily note not found");
        }
        other => panic!("{:?}", other),
    }
}

#[test]
fn update_with_markdown_is_sent_at_once() {
    match begin_with_content(&client(), Pending::Update { id: "b1".into() }, Some("new".into()), false).unwrap() {
        Flow::Send(r) => {
            assert_eq!(r.method, HttpMethod::Put);
            match r.body {
                RequestBody::UpdateBlocks { blocks } => assert_eq!(blocks[0].id, "b1"),
                b => panic!("{:?}", b),
            }
        }
        f => panic!("{:?}", f),
    }
}

#[test]
fn move_sends_the_date_as_the_page_id() {
    match begin_move(&client(), vec!["a".into()], Some("2024-05-01".into()), Some("p".into()), "end".into()).unwrap() {
        Flow::Send(r) => {
            assert_eq!(r.url, "https://c.test/api/blocks/move");
            assert_eq!(r.method, HttpMethod::Put);
            match r.body {
                RequestBody::MoveBlocks { block_ids, position } => {
                    assert_eq!(block_ids, vec!["a".to_string()]);
                    assert_eq!(position.page_id, "2024-05-01");
                    assert_eq!(position.position, "end");
                }
                b => panic!("{:?}", b),
            }
        }
        f => panic!("{:?}", f),
    }
    match begin_move(&client(), vec![], None, Some("p".into()), "start".into()).unwrap() {
        Flow::Send(r) => match r.body {
            RequestBody::MoveBlocks { position, .. } => assert_eq!(position.page_id, "p"),
            b => panic!("{:?}", b),
        },
        f => panic!("{:?}", f),
    }
    assert!(matches!(begin_move(&client(), vec![], None, None, "end".into()), Err(CliError::Argument(_))));
}

#[test]
fn placement_after_lookup_moves_onto_the_note() {
    let r = resume_placement(&client(), Placement::Move { ids: vec!["a".into()], pos: "end".into() }, Some("pid".into())).unwrap();
    match r.body {
        RequestBody::MoveBlocks { position, .. } => assert_eq!(position.page_id, "pid"),
        b => panic!("{:?}", b),
    }
}

#[test]
fn upload_checks_the_file_then_the_target() {
    match begin_upload(&client(), false, "x.png", None, None, None, "end".into()) {
        Err(CliError::Argument(m)) => assert_eq!(m, "File not found: x.png"),
        other => panic!("{:?}", other),
    }
    match begin_upload(&client(), true, "x.png", None, None, None, "end".into()) {
        Err(CliError::Argument(m)) => assert_eq!(m, "Either --date or --page-id must be provided"),
        other => panic!("{:?}", other),
    }
    match begin_upload(&client(), true, "x.png", Some("x.png".into()), None, Some("p".into()), "start".into()).unwrap() {
        Flow::Send(r) => assert_eq!(r.url, "https://c.test/api/upload?position=start&pageId=p"),
        f => panic!("{:?}", f),
    }
}

#[test]
fn placement_on_a_page_needs_no_lookup() {
    let f = start_placement(&client(), Placement::Upload { file_name: None, pos: "end".into() }, PageTarget::Page { id: "p".into() });
    match f {
        Flow::Send(r) => match r.body {
            RequestBody::Upload { file_name } => assert_eq!(file_name, "file"),
            b => panic!("{:?}", b),
        },
        f => panic!("{:?}", f),
    }
}

#[test]
fn insert_body_json() {
    let body = RequestBody::InsertBlocks {
        blocks: vec![NewBlock { markdown: "## a".into() }],
        position: BlockPosition { position: "end".into(), page_id: "p".into() },
    };
    same(
        encode_body(&body),
        obj(vec![
            ("blocks", Json::Arr(vec![obj(vec![("type", s("text")), ("markdown", s("## a"))])])),
            ("position", obj(vec![("position", s("end")), ("pageId", s("p"))])),
        ]),
    );
}

#[test]
fn block_id_bodies_json() {
    same(
        encode_body(&RequestBody::DeleteBlocks { block_ids: vec!["a".into(), "b".into()] }),
        obj(vec![("blockIds", Json::Arr(vec![s("a"), s("b")]))]),
    );
    same(
        encode_body(&RequestBody::UpdateBlocks { blocks: vec![BlockUpdate { id: "i".into(), markdown: "m".into() }] }),
        obj(vec![("blocks", Json::Arr(vec![obj(vec![("id", s("i")), ("markdown", s("m"))])]))]),
    );
    same(
        encode_body(&RequestBody::DeleteTasks { ids: vec!["t".into()] }),
        obj(vec![("idsToDelete", Json::Arr(vec![s("t")]))]),
    );
}

#[test]
fn task_bodies_json() {
    let t = NewTask {
        markdown: "buy".into(),
        task_info: TaskInfo { schedule_date: None, deadline_date: Some("fri".into()), state: None },
        location: TaskLocation::DailyNote { date: "2024-01-02".into() },
    };
    same(
        encode_body(&RequestBody::AddTasks { tasks: vec![t] }),
        obj(vec![(
            "tasks",
            Json::Arr(vec![obj(vec![
                ("markdown", s("buy")),
                ("taskInfo", obj(vec![("deadlineDate", s("fri"))])),
                ("location", obj(vec![("type", s("dailyNote")), ("date", s("2024-01-02"))])),
            ])]),
        )]),
    );
    let u = TaskUpdate {
        id: "t1".into(),
        markdown: None,
        task_info: Some(TaskInfo { schedule_date: None, deadline_date: None, state: Some("done".into()) }),
    };
    same(
        encode_body(&RequestBody::UpdateTasks { tasks: vec![u] }),
        obj(vec![(
            "tasksToUpdate",
            Json::Arr(vec![obj(vec![("id", s("t1")), ("taskInfo", obj(vec![("state", s("done"))]))])]),
        )]),
    );
}

#[test]
fn item_bodies_json() {
    let item = NewItem { title: "T".into(), properties: vec![("k".into(), "v".into())] };
    same(
        encode_body(&RequestBody::AddItems { items: vec![item] }),
        obj(vec![("items", Json::Arr(vec![obj(vec![("title", s("T")), ("properties", obj(vec![("k", s("v"))]))])]))]),
    );
    let u = ItemUpdate { id: "i".into(), title: Some("n".into()), properties: None };
    same(
        encode_body(&RequestBody::UpdateItems { items: vec![u] }),
        obj(vec![("itemsToUpdate", Json::Arr(vec![obj(vec![("id", s("i")), ("title", s("n"))])]))]),
    );
}

#[test]
fn empty_and_upload_bodies_have_no_json() {
    assert!(encode_body(&RequestBody::Empty).is_none());
    assert!(encode_body(&RequestBody::Upload { file_name: "f".into() }).is_none());
}
