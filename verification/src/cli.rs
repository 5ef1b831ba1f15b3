//! The command line: global options, subcommands and their arguments.
use vstd::prelude::*;
use vstd::string::*;
use crate::text::concat3;

verus! {

/// Global options and the subcommand to run.
#[derive(Debug, Clone)]
pub struct Cli {
    /// API endpoint URL.
    pub url: Option<String>,
    /// API secret key.
    pub key: Option<String>,
    /// Config file path.
    pub config: Option<String>,
    /// Connection name from the config file.
    pub conn: Option<String>,
    /// Verbose output for debugging.
    pub verbose: bool,
    pub command: Commands,
}

/// The subcommands.
#[derive(Debug, Clone)]
pub enum Commands {
    /// Configuration management.
    Config(ConfigArgs),
    /// Block operations.
    Blocks(BlocksArgs),
    /// Task management.
    Tasks(TasksArgs),
    /// Search across daily notes.
    Search(SearchArgs),
    /// Collection operations.
    Collections(CollectionsArgs),
    /// Connection information.
    Connection(ConnectionArgs),
    /// Upload a file (image, video, document).
    Upload(UploadArgs),
}

#[derive(Debug, Clone)]
pub struct ConfigArgs {
    pub action: ConfigAction,
}

/// Configuration management actions.
#[derive(Debug, Clone)]
pub enum ConfigAction {
    /// Initialize the config file.
    Init,
    /// Add a connection.
    Add { name: String, url: String, key: Option<String> },
    /// Remove a connection.
    Remove { name: String },
    /// List all connections.
    List,
    /// Set the default connection.
    Default { name: String },
}

#[derive(Debug, Clone)]
pub struct BlocksArgs {
    pub action: BlocksAction,
}

/// Block actions.
#[derive(Debug, Clone)]
pub enum BlocksAction {
    /// Get block content by date (today, yesterday, tomorrow, YYYY-MM-DD) or id.
    Get { date: Option<String>, id: Option<String>, depth: i32, metadata: bool },
    /// Insert markdown into a daily note or page, at `start` or `end`.
    Insert {
        date: Option<String>,
        page_id: Option<String>,
        pos: String,
        markdown: Option<String>,
        stdin: bool,
    },
    /// Replace the markdown of a block.
    Update { id: String, markdown: Option<String>, stdin: bool },
    /// Delete blocks.
    Delete { ids: Vec<String> },
    /// Move blocks to a date or page.
    Move { ids: Vec<String>, date: Option<String>, page_id: Option<String>, pos: String },
    /// Search within a date.
    Search {
        pattern: String,
        date: Option<String>,
        case_sensitive: bool,
        before: Option<i32>,
        after: Option<i32>,
    },
}

#[derive(Debug, Clone)]
pub struct TasksArgs {
    pub action: TasksAction,
}

/// Task actions.
#[derive(Debug, Clone)]
pub enum TasksAction {
    /// List tasks of a scope: active, inbox, upcoming, logbook.
    List { scope: String },
    /// Add a task to the inbox or to a daily note.
    Add {
        text: String,
        schedule: Option<String>,
        deadline: Option<String>,
        to: String,
        date: Option<String>,
    },
    /// Update a task.
    Update {
        id: String,
        text: Option<String>,
        schedule: Option<String>,
        deadline: Option<String>,
        state: Option<String>,
    },
    /// Mark tasks as done.
    Done { ids: Vec<String> },
    /// Delete tasks.
    Delete { ids: Vec<String> },
}

/// Search across daily notes.
#[derive(Debug, Clone)]
pub struct SearchArgs {
    pub query: String,
    pub from: Option<String>,
    pub to: Option<String>,
    pub regex: bool,
    pub metadata: bool,
}

#[derive(Debug, Clone)]
pub struct CollectionsArgs {
    pub action: CollectionsAction,
}

/// Collection actions.
#[derive(Debug, Clone)]
pub enum CollectionsAction {
    /// List collections.
    List { from: Option<String>, to: Option<String> },
    /// Get a collection's schema, as `schema` or `json-schema-items`.
    Schema { id: String, format: String },
    /// Get a collection's items.
    Items { id: String, depth: i32 },
    /// Add an item with a title and `key=value` properties.
    AddItem { id: String, title: String, props: Vec<(String, String)> },
    /// Update an item's title and properties.
    UpdateItem { id: String, item_id: String, title: Option<String>, props: Vec<(String, String)> },
    /// Delete items.
    DeleteItem { id: String, item_ids: Vec<String> },
}

#[derive(Debug, Clone)]
pub struct ConnectionArgs {
    pub action: Option<ConnectionAction>,
}

/// Connection actions.
#[derive(Debug, Clone)]
pub enum ConnectionAction {
    /// Show connection info.
    Info,
}

/// Upload a file to a daily note or page.
#[derive(Debug, Clone)]
pub struct UploadArgs {
    pub file: String,
    pub date: Option<String>,
    pub page_id: Option<String>,
    pub pos: String,
}

/// `s` holds no `=`.
pub open spec fn no_equals(s: Seq<char>) -> bool {
    forall|q: int| 0 <= q < s.len() ==> s[q] != '='
}

/// Parses a `KEY=value` pair, splitting at the first `=`.
pub fn parse_key_val(s: &str) -> (r: Result<(String, String), String>)
    ensures
        no_equals(s@) <==> r is Err,
        r is Err ==> r->Err_0@ == "invalid KEY=value: no `=` found in `"@ + s@ + "`"@,
        r is Ok ==> no_equals(r->Ok_0.0@) && r->Ok_0.0@ + seq!['='] + r->Ok_0.1@ == s@,
{
    let n = s.unicode_len();
    for i in 0..n
        invariant
            n == s@.len(),
            no_equals(s@.take(i as int)),
    {
        if s.get_char(i) == '=' {
            let key = String::from_str(s.substring_char(0, i));
            let val = String::from_str(s.substring_char(i + 1, n));
            assert(key@ + seq!['='] + val@ =~= s@);
            assert(key@ =~= s@.take(i as int));
            return Ok((key, val));
        }
        assert(s@.take(i + 1) =~= s@.take(i as int).push(s@[i as int]));
    }
    assert(s@.take(n as int) =~= s@);
    Err(concat3("invalid KEY=value: no `=` found in `", s, "`"))
}

} // verus!
