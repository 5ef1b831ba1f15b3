//! The configuration file: a table of named API connections and the name of
//! the current one, its operations, and how a connection is resolved.
use vstd::prelude::*;
use vstd::string::*;
use crate::cli::Cli;
use crate::error::{CliError, ErrorView};
use crate::text::{concat2, concat3, lex_less, str_less, lemma_lex_total, lemma_lex_transitive};

verus! {

/// One configured API: its endpoint URL and its secret key, when it needs one
/// (a public link carries its token in the URL).
#[derive(Debug, Clone)]
pub struct ApiEntry {
    pub api: String,
    pub key: Option<String>,
}

/// The abstract value of an [`ApiEntry`].
pub struct ApiEntryView {
    pub api: Seq<char>,
    pub key: Option<Seq<char>>,
}

impl View for ApiEntry {
    type V = ApiEntryView;

    open spec fn view(&self) -> ApiEntryView {
        ApiEntryView { api: self.api@, key: opt_chars(self.key) }
    }
}

/// The configuration file: the name of the current API and the named APIs.
/// The table holds each name at most once (see [`ConfigFile::wf`]).
#[derive(Debug, Clone)]
pub struct ConfigFile {
    pub current: String,
    pub apis: Vec<(String, ApiEntry)>,
}

/// The abstract value of a [`ConfigFile`]: the current name and a map from
/// names to entries.
pub struct ConfigView {
    pub current: Seq<char>,
    pub apis: Map<Seq<char>, ApiEntryView>,
}

/// The connection a request goes to.
#[derive(Debug, Clone)]
pub struct ResolvedConnection {
    pub url: String,
    pub secret_key: Option<String>,
}

/// A place where a config file may stand, and whether a file is there.
#[derive(Debug, Clone)]
pub struct ConfigCandidate {
    pub path: String,
    pub exists: bool,
}

/// No two rows of the table carry the same name.
pub open spec fn names_distinct(apis: Seq<(String, ApiEntry)>) -> bool {
    forall|i: int, j: int|
        #![trigger apis[i], apis[j]]
        0 <= i < apis.len() && 0 <= j < apis.len() && i != j ==> apis[i].0@ != apis[j].0@
}

/// Some row of the table carries `name`.
pub open spec fn has_name(apis: Seq<(String, ApiEntry)>, name: Seq<char>) -> bool {
    exists|i: int| 0 <= i < apis.len() && #[trigger] apis[i].0@ == name
}

/// The table as a map from names to entries.
pub open spec fn table_view(apis: Seq<(String, ApiEntry)>) -> Map<Seq<char>, ApiEntryView> {
    Map::new(
        |name: Seq<char>| has_name(apis, name),
        |name: Seq<char>| apis[choose|i: int| 0 <= i < apis.len() && #[trigger] apis[i].0@ == name].1@,
    )
}

/// The table built by inserting the rows in order, a later row replacing an
/// earlier one of the same name.
pub open spec fn rows_map(rows: Seq<(String, ApiEntry)>) -> Map<Seq<char>, ApiEntryView>
    decreases rows.len(),
{
    if rows.len() == 0 {
        Map::empty()
    } else {
        rows_map(rows.drop_last()).insert(rows.last().0@, rows.last().1@)
    }
}

/// A configuration with no APIs.
pub open spec fn empty_config(current: Seq<char>) -> ConfigView {
    ConfigView { current, apis: Map::empty() }
}

/// The configuration after adding (or replacing) `name`; without a config file,
/// a new one whose current API is `name`.
pub open spec fn spec_add_api(
    existing: Option<ConfigView>,
    name: Seq<char>,
    api: Seq<char>,
    key: Option<Seq<char>>,
) -> ConfigView {
    let base = match existing {
        Some(c) => c,
        None => empty_config(name),
    };
    ConfigView { current: base.current, apis: base.apis.insert(name, ApiEntryView { api, key }) }
}

/// The text of the error for an API name that is not configured.
pub open spec fn not_found_text(name: Seq<char>) -> Seq<char> {
    "API '"@ + name + "' not found"@
}

/// The result of looking up the current API: `Some(name)` when a config file exists.
pub open spec fn spec_get_current_api(existing: Option<ConfigView>) -> Option<Seq<char>> {
    match existing {
        Some(c) => Some(c.current),
        None => None,
    }
}

/// The configuration after making `name` current, when `name` is configured.
pub open spec fn spec_set_current_api(c: ConfigView, name: Seq<char>) -> Option<ConfigView> {
    if c.apis.dom().contains(name) {
        Some(ConfigView { current: name, apis: c.apis })
    } else {
        None
    }
}

/// Rows ordered strictly by name.
pub open spec fn sorted_by_name(rows: Seq<(String, ApiEntry)>) -> bool {
    forall|i: int, j: int|
        #![trigger rows[i], rows[j]]
        0 <= i < j < rows.len() ==> lex_less(rows[i].0@, rows[j].0@)
}

pub open spec fn opt_config_view(c: Option<ConfigFile>) -> Option<ConfigView> {
    match c {
        Some(f) => Some(f@),
        None => None,
    }
}

pub open spec fn opt_config_wf(c: Option<ConfigFile>) -> bool {
    match c {
        Some(f) => f.wf(),
        None => true,
    }
}

impl View for ConfigFile {
    type V = ConfigView;

    open spec fn view(&self) -> ConfigView {
        ConfigView { current: self.current@, apis: table_view(self.apis@) }
    }
}

/// A row of a table with distinct names is what the map gives for its name.
pub proof fn lemma_table_at(apis: Seq<(String, ApiEntry)>, i: int)
    requires
        names_distinct(apis),
        0 <= i < apis.len(),
    ensures
        table_view(apis).dom().contains(apis[i].0@),
        table_view(apis)[apis[i].0@] == apis[i].1@,
{
    let name = apis[i].0@;
    assert(has_name(apis, name));
    let j = choose|j: int| 0 <= j < apis.len() && #[trigger] apis[j].0@ == name;
    assert(apis[j].0@ == name);
    assert(j == i);
}

/// The map of an empty table is empty.
pub proof fn lemma_table_empty(apis: Seq<(String, ApiEntry)>)
    requires
        apis.len() == 0,
    ensures
        table_view(apis) == Map::<Seq<char>, ApiEntryView>::empty(),
{
    assert(table_view(apis) =~= Map::<Seq<char>, ApiEntryView>::empty());
}

/// Two tables with distinct names whose rows agree, row for row, through a
/// given pairing of names have the same map.
proof fn lemma_table_ext(
    a: Seq<(String, ApiEntry)>,
    b: Seq<(String, ApiEntry)>,
    m: Map<Seq<char>, ApiEntryView>,
)
    requires
        names_distinct(a),
        forall|i: int|
            0 <= i < a.len() ==> #[trigger] m.dom().contains(a[i].0@) && m[a[i].0@] == a[i].1@,
        forall|k: Seq<char>| #[trigger] m.dom().contains(k) ==> has_name(a, k),
        a == b,
    ensures
        table_view(b) == m,
{
    assert forall|k: Seq<char>| table_view(b).dom().contains(k) <==> #[trigger] m.dom().contains(k) by {
        if table_view(b).dom().contains(k) {
            let i = choose|i: int| 0 <= i < b.len() && #[trigger] b[i].0@ == k;
            assert(m.dom().contains(a[i].0@));
        }
    }
    assert forall|k: Seq<char>| #[trigger] table_view(b).dom().contains(k) implies table_view(b)[k]
        == m[k] by {
        let i = choose|i: int| 0 <= i < b.len() && #[trigger] b[i].0@ == k;
        lemma_table_at(a, i);
        assert(m.dom().contains(a[i].0@));
    }
    assert(table_view(b) =~= m);
}

impl ConfigFile {
    /// The table holds each name at most once.
    pub open spec fn wf(self) -> bool {
        names_distinct(self.apis@)
    }

    /// The row index of `name`, if it is configured.
    fn find(&self, name: &String) -> (r: Option<usize>)
        requires
            self.wf(),
        ensures
            r is None <==> !self@.apis.dom().contains(name@),
            r is Some ==> r->0 < self.apis@.len() && self.apis@[r->0 as int].0@ == name@,
    {
        let n = self.apis.len();
        for i in 0..n
            invariant
                n == self.apis@.len(),
                forall|j: int| 0 <= j < i ==> #[trigger] self.apis@[j].0@ != name@,
        {
            if self.apis[i].0 == *name {
                return Some(i);
            }
        }
        assert(!has_name(self.apis@, name@));
        None
    }

    /// The entry configured for `name`.
    pub fn get_api(&self, name: &String) -> (r: Option<&ApiEntry>)
        requires
            self.wf(),
        ensures
            r is Some <==> self@.apis.dom().contains(name@),
            r is Some ==> r->0@ == self@.apis[name@],
    {
        match self.find(name) {
            Some(i) => {
                proof {
                    lemma_table_at(self.apis@, i as int);
                }
                Some(&self.apis[i].1)
            },
            None => None,
        }
    }

    /// Adds `name` with `entry`, replacing the entry it had.
    pub fn insert_api(&mut self, name: String, entry: ApiEntry)
        requires
            old(self).wf(),
        ensures
            final(self).wf(),
            final(self)@.current == old(self)@.current,
            final(self)@.apis == old(self)@.apis.insert(name@, entry@),
    {
        let ghost old_apis = self.apis@;
        let ghost target = old(self)@.apis.insert(name@, entry@);
        let ghost key = name@;
        let ghost val = entry@;
        match self.find(&name) {
            Some(i) => {
                self.apis.set(i, (name, entry));
                proof {
                    let new_apis = self.apis@;
                    assert(names_distinct(new_apis));
                    assert forall|j: int| 0 <= j < new_apis.len() implies #[trigger] target.dom().contains(
                        new_apis[j].0@,
                    ) && target[new_apis[j].0@] == new_apis[j].1@ by {
                        if j != i {
                            lemma_table_at(old_apis, j);
                        }
                    }
                    assert forall|k: Seq<char>| #[trigger] target.dom().contains(k) implies has_name(
                        new_apis,
                        k,
                    ) by {
                        if k == key {
                            assert(new_apis[i as int].0@ == k);
                        } else {
                            let j = choose|j: int| 0 <= j < old_apis.len() && #[trigger] old_apis[j].0@ == k;
                            assert(new_apis[j].0@ == k);
                        }
                    }
                    lemma_table_ext(new_apis, new_apis, target);
                }
            },
            None => {
                self.apis.push((name, entry));
                proof {
                    let new_apis = self.apis@;
                    let last = old_apis.len() as int;
                    assert(!has_name(old_apis, key));
                    assert forall|a: int, b: int|
                        #![trigger new_apis[a], new_apis[b]]
                        0 <= a < new_apis.len() && 0 <= b < new_apis.len() && a != b implies new_apis[a].0@
                        != new_apis[b].0@ by {
                        if a == last {
                            assert(old_apis[b].0@ == new_apis[b].0@);
                        } else if b == last {
                            assert(old_apis[a].0@ == new_apis[a].0@);
                        } else {
                            assert(old_apis[a] == new_apis[a]);
                            assert(old_apis[b] == new_apis[b]);
                        }
                    }
                    assert forall|j: int| 0 <= j < new_apis.len() implies #[trigger] target.dom().contains(
                        new_apis[j].0@,
                    ) && target[new_apis[j].0@] == new_apis[j].1@ by {
                        if j != last {
                            assert(new_apis[j] == old_apis[j]);
                            lemma_table_at(old_apis, j);
                        }
                    }
                    assert forall|k: Seq<char>| #[trigger] target.dom().contains(k) implies has_name(
                        new_apis,
                        k,
                    ) by {
                        if k == key {
                            assert(new_apis[last].0@ == k);
                        } else {
                            let j = choose|j: int| 0 <= j < old_apis.len() && #[trigger] old_apis[j].0@ == k;
                            assert(new_apis[j] == old_apis[j]);
                        }
                    }
                    lemma_table_ext(new_apis, new_apis, target);
                }
            },
        }
    }

    /// Removes `name`, which must be configured.
    fn remove_row(&mut self, i: usize)
        requires
            old(self).wf(),
            i < old(self).apis@.len(),
        ensures
            final(self).wf(),
            final(self).current == old(self).current,
            final(self).apis@ == old(self).apis@.remove(i as int),
            final(self)@.apis == old(self)@.apis.remove(old(self).apis@[i as int].0@),
    {
        let ghost old_apis = self.apis@;
        let ghost key = old_apis[i as int].0@;
        let ghost target = old(self)@.apis.remove(key);
        self.apis.remove(i);
        proof {
            let new_apis = self.apis@;
            assert forall|a: int, b: int|
                #![trigger new_apis[a], new_apis[b]]
                0 <= a < new_apis.len() && 0 <= b < new_apis.len() && a != b implies new_apis[a].0@
                != new_apis[b].0@ by {
                let oa = if a < i { a } else { a + 1 };
                let ob = if b < i { b } else { b + 1 };
                assert(new_apis[a] == old_apis[oa]);
                assert(new_apis[b] == old_apis[ob]);
            }
            assert forall|j: int| 0 <= j < new_apis.len() implies #[trigger] target.dom().contains(
                new_apis[j].0@,
            ) && target[new_apis[j].0@] == new_apis[j].1@ by {
                let oj = if j < i { j } else { j + 1 };
                assert(new_apis[j] == old_apis[oj]);
                lemma_table_at(old_apis, oj);
                assert(old_apis[oj].0@ != old_apis[i as int].0@);
            }
            assert forall|k: Seq<char>| #[trigger] target.dom().contains(k) implies has_name(new_apis, k) by {
                let j = choose|j: int| 0 <= j < old_apis.len() && #[trigger] old_apis[j].0@ == k;
                assert(j != i);
                let nj = if j < i { j } else { j - 1 };
                assert(new_apis[nj] == old_apis[j]);
            }
            lemma_table_ext(new_apis, new_apis, target);
        }
    }

    /// A configuration from a current name and rows inserted in order, a later
    /// row replacing an earlier one of the same name.
    pub fn from_entries(current: String, entries: Vec<(String, ApiEntry)>) -> (c: ConfigFile)
        ensures
            c.wf(),
            c@.current == current@,
            c@.apis == rows_map(entries@),
    {
        let ghost rows = entries@;
        let mut rest = entries;
        let mut c = ConfigFile { current, apis: Vec::new() };
        proof {
            lemma_table_empty(c.apis@);
            assert(rows.take(0) =~= Seq::<(String, ApiEntry)>::empty());
        }
        while rest.len() > 0
            invariant
                c.wf(),
                c@.current == current@,
                rest@.len() <= rows.len(),
                rest@ == rows.skip(rows.len() - rest@.len()),
                c@.apis == rows_map(rows.take(rows.len() - rest@.len())),
            decreases rest@.len(),
        {
            let ghost done = (rows.len() - rest@.len()) as int;
            let (name, entry) = rest.remove(0);
            proof {
                assert(rows[done] == (name, entry));
                assert(rows.take(done + 1).drop_last() =~= rows.take(done));
                assert(rest@ =~= rows.skip(done + 1));
            }
            c.insert_api(name, entry);
        }
        assert(rows.take(rows.len() as int) =~= rows);
        c
    }
}

/// The config file to use: the one given on the command line if it exists; else,
/// when the working directory is known, `craft-cli.json` there if it exists,
/// else the user's `config.json` if it exists; else none.
pub fn find_config_file(
    specified: Option<ConfigCandidate>,
    local: Option<ConfigCandidate>,
    user: Option<ConfigCandidate>,
) -> (r: Option<String>)
    ensures
        r == (if specified is Some && specified->0.exists {
            Some(specified->0.path)
        } else if local is None {
            None
        } else if local->0.exists {
            Some(local->0.path)
        } else if user is Some && user->0.exists {
            Some(user->0.path)
        } else {
            None
        }),
{
    if let Some(s) = specified {
        if s.exists {
            return Some(s.path);
        }
    }
    match local {
        None => None,
        Some(l) => {
            if l.exists {
                Some(l.path)
            } else {
                match user {
                    Some(u) => if u.exists {
                        Some(u.path)
                    } else {
                        None
                    },
                    None => None,
                }
            }
        },
    }
}

/// The default config file path, from the user's config file path when the
/// platform gives one.
pub fn default_config_path(user_config: Option<String>) -> (r: Result<String, CliError>)
    ensures
        user_config is Some ==> r is Ok && r->Ok_0 == user_config->0,
        user_config is None ==> r is Err && r->Err_0@ == ErrorView::Config(
            "Cannot determine config directory"@,
        ),
{
    match user_config {
        Some(p) => Ok(p),
        None => Err(CliError::Config(String::from_str("Cannot determine config directory"))),
    }
}

/// The configuration to write when initializing: a fresh one whose current API is
/// `default`, unless the file exists already, in which case nothing is written.
pub fn init_config(exists: bool) -> (r: Option<ConfigFile>)
    ensures
        exists <==> r is None,
        r is Some ==> r->0.wf() && r->0@ == empty_config("default"@),
{
    if exists {
        None
    } else {
        let c = ConfigFile { current: String::from_str("default"), apis: Vec::new() };
        proof {
            lemma_table_empty(c.apis@);
        }
        Some(c)
    }
}

/// Adds (or replaces) the API `name` in the configuration; when no config file
/// exists yet, starts one whose current API is `name`.
pub fn add_api(existing: Option<ConfigFile>, name: &str, api: &str, key: Option<&str>) -> (c: ConfigFile)
    requires
        opt_config_wf(existing),
    ensures
        c.wf(),
        c@ == spec_add_api(opt_config_view(existing), name@, api@, opt_str_chars(key)),
        existing is Some ==> c@.current == existing->0@.current,
        existing is None ==> c@.current == name@,
        existing is Some ==> c@.apis == existing->0@.apis.insert(
            name@,
            ApiEntryView { api: api@, key: opt_str_chars(key) },
        ),
        existing is None ==> c@.apis == Map::<Seq<char>, ApiEntryView>::empty().insert(
            name@,
            ApiEntryView { api: api@, key: opt_str_chars(key) },
        ),
{
    let mut config = match existing {
        Some(c) => c,
        None => {
            let c = ConfigFile { current: String::from_str(name), apis: Vec::new() };
            proof {
                lemma_table_empty(c.apis@);
            }
            c
        },
    };
    config.insert_api(
        String::from_str(name),
        ApiEntry {
            api: String::from_str(api),
            key: match key {
                Some(k) => Some(String::from_str(k)),
                None => None,
            },
        },
    );
    config
}

/// Removes the API `name`. When it was the current one, the current API becomes
/// one that remains, or `default` when none remains. Fails when `name` is not
/// configured.
pub fn remove_api(config: ConfigFile, name: &str) -> (r: Result<ConfigFile, CliError>)
    requires
        config.wf(),
    ensures
        config@.apis.dom().contains(name@) <==> r is Ok,
        r is Err ==> r->Err_0@ == ErrorView::Config(not_found_text(name@)),
        r is Ok ==> r->Ok_0.wf() && r->Ok_0@.apis == config@.apis.remove(name@),
        r is Ok && config@.current != name@ ==> r->Ok_0@.current == config@.current,
        r is Ok && config@.current == name@ && r->Ok_0@.apis.dom() == Set::<Seq<char>>::empty()
            ==> r->Ok_0@.current == "default"@,
        r is Ok && config@.current == name@ && r->Ok_0@.apis.dom() != Set::<Seq<char>>::empty()
            ==> r->Ok_0@.apis.dom().contains(r->Ok_0@.current),
        r is Ok && config@.current == name@ && r->Ok_0.apis@.len() > 0 ==> r->Ok_0.current
            == r->Ok_0.apis@[0].0,
{
    let mut config = config;
    let name_s = String::from_str(name);
    match config.find(&name_s) {
        None => Err(CliError::Config(concat3("API '", name, "' not found"))),
        Some(i) => {
            config.remove_row(i);
            if config.current == name_s {
                if config.apis.len() > 0 {
                    config.current = config.apis[0].0.clone();
                    proof {
                        lemma_table_at(config.apis@, 0);
                    }
                } else {
                    config.current = String::from_str("default");
                    proof {
                        lemma_table_empty(config.apis@);
                    }
                }
            }
            Ok(config)
        },
    }
}

/// Inserts `row` into rows sorted strictly by name, where no row has its name.
fn insert_sorted(rows: &mut Vec<(String, ApiEntry)>, row: (String, ApiEntry))
    requires
        sorted_by_name(old(rows)@),
        forall|i: int| 0 <= i < old(rows)@.len() ==> #[trigger] old(rows)@[i].0@ != row.0@,
    ensures
        sorted_by_name(final(rows)@),
        exists|p: int| 0 <= p <= old(rows)@.len() && final(rows)@ == old(rows)@.insert(p, row),
{
    let n = rows.len();
    let mut p: usize = 0;
    while p < n && str_less(rows[p].0.as_str(), row.0.as_str())
        invariant
            p <= n,
            n == rows@.len(),
            forall|i: int| 0 <= i < p ==> lex_less(#[trigger] rows@[i].0@, row.0@),
        decreases n - p,
    {
        p = p + 1;
    }
    let ghost before = rows@;
    proof {
        if p < n {
            lemma_lex_total(before[p as int].0@, row.0@);
        }
    }
    rows.insert(p, row);
    proof {
        let after = rows@;
        assert forall|i: int, j: int|
            #![trigger after[i], after[j]]
            0 <= i < j < after.len() implies lex_less(after[i].0@, after[j].0@) by {
            if j < p {
                assert(after[i] == before[i]);
                assert(after[j] == before[j]);
            } else if j == p {
                assert(after[i] == before[i]);
            } else if i == p {
                assert(after[j] == before[j - 1]);
                if j - 1 > p {
                    assert(lex_less(before[p as int].0@, before[j - 1].0@));
                    lemma_lex_transitive(row.0@, before[p as int].0@, before[j - 1].0@);
                }
            } else if i < p {
                assert(after[i] == before[i]);
                assert(after[j] == before[j - 1]);
                if i < j - 1 {
                } else {
                    assert(false);
                }
            } else {
                assert(after[i] == before[i - 1]);
                assert(after[j] == before[j - 1]);
            }
        }
    }
}

/// All configured APIs with their entries, ordered by name; none without a
/// config file.
pub fn list_apis(existing: Option<ConfigFile>) -> (r: Vec<(String, ApiEntry)>)
    requires
        opt_config_wf(existing),
    ensures
        existing is None ==> r@.len() == 0,
        sorted_by_name(r@),
        existing is Some ==> forall|i: int|
            0 <= i < r@.len() ==> existing->0@.apis.dom().contains(#[trigger] r@[i].0@)
                && existing->0@.apis[r@[i].0@] == r@[i].1@,
        existing is Some ==> forall|k: Seq<char>|
            #[trigger] existing->0@.apis.dom().contains(k) ==> exists|i: int|
                0 <= i < r@.len() && #[trigger] r@[i].0@ == k,
{
    match existing {
        None => Vec::new(),
        Some(config) => {
            let ghost orig = config.apis@;
            let ghost cv = config@;
            let mut rest = config.apis;
            let mut sorted: Vec<(String, ApiEntry)> = Vec::new();
            while rest.len() > 0
                invariant
                    names_distinct(orig),
                    cv.apis == table_view(orig),
                    rest@.len() <= orig.len(),
                    rest@ == orig.skip(orig.len() - rest@.len()),
                    sorted_by_name(sorted@),
                    sorted@.len() == orig.len() - rest@.len(),
                    forall|i: int|
                        0 <= i < orig.len() - rest@.len() ==> sorted@.contains(#[trigger] orig[i]),
                    forall|j: int|
                        0 <= j < sorted@.len() ==> exists|i: int|
                            0 <= i < orig.len() - rest@.len() && orig[i] == #[trigger] sorted@[j],
                decreases rest@.len(),
            {
                let ghost done = (orig.len() - rest@.len()) as int;
                let ghost prev = sorted@;
                let row = rest.remove(0);
                proof {
                    assert(orig[done] == row);
                    assert(rest@ =~= orig.skip(done + 1));
                    assert forall|i: int| 0 <= i < prev.len() implies #[trigger] prev[i].0@ != row.0@ by {
                        let o = choose|o: int| 0 <= o < done && orig[o] == #[trigger] prev[i];
                        assert(orig[o] == prev[i]);
                    }
                }
                insert_sorted(&mut sorted, row);
                proof {
                    let p = choose|p: int| 0 <= p <= prev.len() && sorted@ == prev.insert(p, row);
                    assert forall|i: int| 0 <= i < done + 1 implies sorted@.contains(#[trigger] orig[i]) by {
                        if i == done {
                            assert(sorted@[p] == row);
                        } else {
                            let q = choose|q: int| 0 <= q < prev.len() && prev[q] == orig[i];
                            if q < p {
                                assert(sorted@[q] == orig[i]);
                            } else {
                                assert(sorted@[q + 1] == orig[i]);
                            }
                        }
                    }
                    assert forall|j: int| 0 <= j < sorted@.len() implies exists|i: int|
                        0 <= i < done + 1 && orig[i] == #[trigger] sorted@[j] by {
                        if j == p {
                            assert(orig[done] == sorted@[j]);
                        } else if j < p {
                            assert(sorted@[j] == prev[j]);
                            let o = choose|o: int| 0 <= o < done && orig[o] == #[trigger] prev[j];
                            assert(orig[o] == sorted@[j]);
                        } else {
                            assert(sorted@[j] == prev[j - 1]);
                            let o = choose|o: int| 0 <= o < done && orig[o] == #[trigger] prev[j - 1];
                            assert(orig[o] == sorted@[j]);
                        }
                    }
                }
            }
            proof {
                assert forall|i: int| 0 <= i < sorted@.len() implies cv.apis.dom().contains(
                    #[trigger] sorted@[i].0@,
                ) && cv.apis[sorted@[i].0@] == sorted@[i].1@ by {
                    let o = choose|o: int| 0 <= o < orig.len() && orig[o] == #[trigger] sorted@[i];
                    lemma_table_at(orig, o);
                }
                assert forall|k: Seq<char>| #[trigger] cv.apis.dom().contains(k) implies exists|i: int|
                    0 <= i < sorted@.len() && #[trigger] sorted@[i].0@ == k by {
                    let o = choose|o: int| 0 <= o < orig.len() && #[trigger] orig[o].0@ == k;
                    assert(sorted@.contains(orig[o]));
                    let i = choose|i: int| 0 <= i < sorted@.len() && sorted@[i] == orig[o];
                    assert(sorted@[i].0@ == k);
                }
            }
            sorted
        },
    }
}

/// The name of the current API; fails when there is no config file.
pub fn get_current_api(existing: Option<ConfigFile>) -> (r: Result<String, CliError>)
    ensures
        existing is None <==> r is Err,
        r is Err ==> r->Err_0@ == ErrorView::Config("Config file not found"@),
        r is Ok ==> spec_get_current_api(opt_config_view(existing)) == Some(r->Ok_0@),
{
    match existing {
        None => Err(CliError::Config(String::from_str("Config file not found"))),
        Some(c) => Ok(c.current),
    }
}

/// Makes `name` the current API; fails when it is not configured.
pub fn set_current_api(config: ConfigFile, name: &str) -> (r: Result<ConfigFile, CliError>)
    requires
        config.wf(),
    ensures
        config@.apis.dom().contains(name@) <==> r is Ok,
        r is Err ==> r->Err_0@ == ErrorView::Config(not_found_text(name@)),
        r is Ok ==> r->Ok_0.wf() && spec_set_current_api(config@, name@) == Some(r->Ok_0@),
        r is Ok ==> r->Ok_0@.apis == config@.apis && r->Ok_0@.current == name@,
{
    let mut config = config;
    let name_s = String::from_str(name);
    match config.find(&name_s) {
        None => Err(CliError::Config(concat3("API '", name, "' not found"))),
        Some(_) => {
            config.current = name_s;
            Ok(config)
        },
    }
}

/// The abstract value of a [`ResolvedConnection`].
pub struct ConnectionView {
    pub url: Seq<char>,
    pub secret_key: Option<Seq<char>>,
}

impl View for ResolvedConnection {
    type V = ConnectionView;

    open spec fn view(&self) -> ConnectionView {
        ConnectionView {
            url: self.url@,
            secret_key: match self.secret_key {
                Some(k) => Some(k@),
                None => None,
            },
        }
    }
}

pub open spec fn opt_str_chars(o: Option<&str>) -> Option<Seq<char>> {
    match o {
        Some(s) => Some(s@),
        None => None,
    }
}

pub open spec fn opt_chars(o: Option<String>) -> Option<Seq<char>> {
    match o {
        Some(s) => Some(s@),
        None => None,
    }
}

/// The text of the error when no connection is configured anywhere.
pub open spec fn no_api_text() -> Seq<char> {
    "No API configured. Use --api/--key, CRAFT_API/CRAFT_KEY env, or create a config file"@
}

/// Where a request goes: the URL given on the command line, with the key given
/// there if any (a public link carries its token in the URL); else the URL and
/// key of the environment when both are set; else the API
/// of the config file named by `conn`, or its current API when no name is given.
pub open spec fn spec_resolve(
    cli_url: Option<Seq<char>>,
    cli_key: Option<Seq<char>>,
    conn: Option<Seq<char>>,
    env_api: Option<Seq<char>>,
    env_key: Option<Seq<char>>,
    config: Option<ConfigView>,
) -> Result<ConnectionView, ErrorView> {
    if cli_url is Some {
        Ok(ConnectionView { url: cli_url->0, secret_key: cli_key })
    } else if env_api is Some && env_key is Some {
        Ok(ConnectionView { url: env_api->0, secret_key: env_key })
    } else {
        match config {
            Some(c) => {
                let name = match conn {
                    Some(n) => n,
                    None => c.current,
                };
                if c.apis.dom().contains(name) {
                    Ok(
                        ConnectionView {
                            url: c.apis[name].api,
                            secret_key: c.apis[name].key,
                        },
                    )
                } else {
                    Err(ErrorView::Config("Current API '"@ + name + "' not found in config file"@))
                }
            },
            None => Err(ErrorView::Config(no_api_text())),
        }
    }
}

pub open spec fn resolved_view(r: Result<ResolvedConnection, CliError>) -> Result<
    ConnectionView,
    ErrorView,
> {
    match r {
        Ok(c) => Ok(c@),
        Err(e) => Err(e@),
    }
}

/// Whether the config file is consulted: the command line gives no URL and the
/// environment does not give both a URL and a key.
pub fn needs_config_file(cli: &Cli, env_api: &Option<String>, env_key: &Option<String>) -> (b: bool)
    ensures
        b == !(cli.url is Some || (env_api is Some && env_key is Some)),
{
    !(cli.url.is_some() || (env_api.is_some() && env_key.is_some()))
}

fn clone_opt(o: &Option<String>) -> (r: Option<String>)
    ensures
        opt_chars(r) == opt_chars(*o),
{
    match o {
        Some(s) => Some(s.clone()),
        None => None,
    }
}

/// Resolves the connection from the command line (a URL, with or without a
/// key), the environment variables
/// `CRAFT_API` and `CRAFT_KEY`, and the config file found (if any), in that
/// order; in the config file, the connection named by `--conn` or else the
/// current one.
pub fn resolve_connection(
    cli: &Cli,
    env_api: Option<String>,
    env_key: Option<String>,
    config: Option<ConfigFile>,
) -> (r: Result<ResolvedConnection, CliError>)
    requires
        opt_config_wf(config),
    ensures
        resolved_view(r) == spec_resolve(
            opt_chars(cli.url),
            opt_chars(cli.key),
            opt_chars(cli.conn),
            opt_chars(env_api),
            opt_chars(env_key),
            opt_config_view(config),
        ),
{
    if cli.url.is_some() {
        return Ok(ResolvedConnection { url: clone_opt(&cli.url).unwrap(), secret_key: clone_opt(&cli.key) });
    }
    if env_api.is_some() && env_key.is_some() {
        return Ok(ResolvedConnection { url: env_api.unwrap(), secret_key: env_key });
    }
    match config {
        Some(c) => {
            let name = match &cli.conn {
                Some(n) => n.clone(),
                None => c.current.clone(),
            };
            match c.get_api(&name) {
                Some(entry) => Ok(
                    ResolvedConnection { url: entry.api.clone(), secret_key: clone_opt(&entry.key) },
                ),
                None => Err(
                    CliError::Config(
                        concat3("Current API '", name.as_str(), "' not found in config file"),
                    ),
                ),
            }
        },
        None => Err(
            CliError::Config(
                String::from_str(
                    "No API configured. Use --api/--key, CRAFT_API/CRAFT_KEY env, or create a config file",
                ),
            ),
        ),
    }
}

/// Read after write: after adding `name`, the configuration holds exactly the
/// given URL and key under `name` and every other API unchanged.
pub proof fn law_add_then_lookup(
    existing: Option<ConfigView>,
    name: Seq<char>,
    api: Seq<char>,
    key: Option<Seq<char>>,
    other: Seq<char>,
)
    requires
        other != name,
    ensures
        spec_add_api(existing, name, api, key).apis.dom().contains(name),
        spec_add_api(existing, name, api, key).apis[name] == (ApiEntryView { api, key }),
        existing is Some ==> (spec_add_api(existing, name, api, key).apis.dom().contains(other)
            <==> existing->0.apis.dom().contains(other)),
        existing is Some && existing->0.apis.dom().contains(other) ==> spec_add_api(
            existing,
            name,
            api,
            key,
        ).apis[other] == existing->0.apis[other],
        existing is None ==> spec_add_api(existing, name, api, key).current == name,
        existing is Some ==> spec_add_api(existing, name, api, key).current == existing->0.current,
{
}

/// Adding a connection to an existing configuration leaves its current
/// connection as it was, whatever is added: requests without `--conn` still
/// go where they went before.
pub proof fn law_add_keeps_current(
    c: ConfigView,
    name: Seq<char>,
    api: Seq<char>,
    key: Option<Seq<char>>,
)
    ensures
        spec_add_api(Some(c), name, api, key).current == c.current,
        forall|other: Seq<char>|
            other != name ==> (#[trigger] spec_add_api(Some(c), name, api, key).apis.dom().contains(other)
                <==> c.apis.dom().contains(other)),
{
}

/// Making a configured connection current changes only the current name:
/// every connection stays, with its URL and key.
pub proof fn law_set_current_keeps_table(c: ConfigView, name: Seq<char>)
    requires
        c.apis.dom().contains(name),
    ensures
        spec_set_current_api(c, name) is Some,
        spec_set_current_api(c, name)->0.apis == c.apis,
        spec_set_current_api(c, name)->0.current == name,
        forall|k: Seq<char>|
            #[trigger] c.apis.dom().contains(k) ==> spec_set_current_api(c, name)->0.apis.dom().contains(k)
                && spec_set_current_api(c, name)->0.apis[k] == c.apis[k],
{
}

/// Adding a name that was not configured and then removing it gives back the
/// table that was there before.
pub proof fn law_add_then_remove(
    c: ConfigView,
    name: Seq<char>,
    api: Seq<char>,
    key: Option<Seq<char>>,
)
    requires
        !c.apis.dom().contains(name),
    ensures
        spec_add_api(Some(c), name, api, key).apis.remove(name) == c.apis,
{
    assert(spec_add_api(Some(c), name, api, key).apis.remove(name) =~= c.apis);
}

/// After making a configured API current, the current API is that one.
pub proof fn law_set_then_get(c: ConfigView, name: Seq<char>)
    requires
        c.apis.dom().contains(name),
    ensures
        spec_set_current_api(c, name) is Some,
        spec_get_current_api(spec_set_current_api(c, name)) == Some(name),
{
}

/// A URL given on the command line wins over everything else; the request
/// carries the key given with it, or none.
pub proof fn law_command_line_first(
    url: Seq<char>,
    key: Option<Seq<char>>,
    conn: Option<Seq<char>>,
    env_api: Option<Seq<char>>,
    env_key: Option<Seq<char>>,
    config: Option<ConfigView>,
)
    ensures
        spec_resolve(Some(url), key, conn, env_api, env_key, config) == Ok::<ConnectionView, ErrorView>(
            ConnectionView { url, secret_key: key },
        ),
{
}

/// Without a URL on the command line, the environment's URL and key win over
/// the config file.
pub proof fn law_environment_before_file(
    cli_key: Option<Seq<char>>,
    conn: Option<Seq<char>>,
    api: Seq<char>,
    key: Seq<char>,
    config: Option<ConfigView>,
)
    ensures
        spec_resolve(None, cli_key, conn, Some(api), Some(key), config) == Ok::<ConnectionView, ErrorView>(
            ConnectionView { url: api, secret_key: Some(key) },
        ),
{
}

/// The first API added to a new configuration is the one requests go to when
/// neither the command line nor the environment names one.
pub proof fn law_first_added_is_used(name: Seq<char>, api: Seq<char>, key: Option<Seq<char>>)
    ensures
        spec_resolve(None, None, None, None, None, Some(spec_add_api(None, name, api, key))) == Ok::<
            ConnectionView,
            ErrorView,
        >(ConnectionView { url: api, secret_key: key }),
{
}

/// After making a configured API current, requests go to it when neither the
/// command line nor the environment names one.
pub proof fn law_current_is_used(c: ConfigView, name: Seq<char>)
    requires
        c.apis.dom().contains(name),
    ensures
        spec_resolve(None, None, None, None, None, spec_set_current_api(c, name)) == Ok::<
            ConnectionView,
            ErrorView,
        >(ConnectionView { url: c.apis[name].api, secret_key: c.apis[name].key }),
{
}

/// A connection named with `--conn` is used in place of the current one.
pub proof fn law_named_connection_is_used(c: ConfigView, name: Seq<char>)
    requires
        c.apis.dom().contains(name),
    ensures
        spec_resolve(None, None, Some(name), None, None, Some(c)) == Ok::<ConnectionView, ErrorView>(
            ConnectionView { url: c.apis[name].api, secret_key: c.apis[name].key },
        ),
{
}

/// `file` inside the directory `dir`: `file` alone for an empty directory,
/// else joined to `dir` by one `/` unless `dir` already ends with one.
pub open spec fn spec_join(dir: Seq<char>, file: Seq<char>) -> Seq<char> {
    if dir.len() == 0 {
        file
    } else if dir.last() == '/' {
        dir + file
    } else {
        dir + seq!['/'] + file
    }
}

fn join_path(dir: &str, file: &str) -> (r: String)
    ensures
        r@ == spec_join(dir@, file@),
{
    let n = dir.unicode_len();
    if n == 0 {
        String::from_str(file)
    } else if dir.get_char(n - 1) == '/' {
        concat2(dir, file)
    } else {
        proof {
            reveal_strlit("/");
        }
        concat3(dir, "/", file)
    }
}

/// The config file looked for in the working directory: `craft-cli.json` there.
pub fn local_config_path(working_dir: &str) -> (r: String)
    ensures
        r@ == spec_join(working_dir@, "craft-cli.json"@),
{
    join_path(working_dir, "craft-cli.json")
}

/// The user's config file: `config.json` in the user's config directory.
pub fn user_config_path(config_dir: &str) -> (r: String)
    ensures
        r@ == spec_join(config_dir@, "config.json"@),
{
    join_path(config_dir, "config.json")
}

/// Without a command-line URL or an environment pair, a config file whose
/// selected connection (`--conn`, else the current one) is not configured is
/// refused, naming that connection.
pub proof fn law_unknown_connection_refused(
    cli_key: Option<Seq<char>>,
    conn: Option<Seq<char>>,
    env_api: Option<Seq<char>>,
    env_key: Option<Seq<char>>,
    c: ConfigView,
)
    requires
        !(env_api is Some && env_key is Some),
        !c.apis.dom().contains(
            match conn {
                Some(n) => n,
                None => c.current,
            },
        ),
    ensures
        spec_resolve(None, cli_key, conn, env_api, env_key, Some(c)) == Err::<ConnectionView, ErrorView>(
            ErrorView::Config(
                "Current API '"@ + (match conn {
                    Some(n) => n,
                    None => c.current,
                }) + "' not found in config file"@,
            ),
        ),
{
}

/// With no URL on the command line, no environment pair and no config file,
/// there is nothing to connect to.
pub proof fn law_nothing_configured(
    cli_key: Option<Seq<char>>,
    conn: Option<Seq<char>>,
    env_api: Option<Seq<char>>,
    env_key: Option<Seq<char>>,
)
    requires
        !(env_api is Some && env_key is Some),
    ensures
        spec_resolve(None, cli_key, conn, env_api, env_key, None) == Err::<ConnectionView, ErrorView>(
            ErrorView::Config(no_api_text()),
        ),
        no_api_text() == "No API configured. Use --api/--key, CRAFT_API/CRAFT_KEY env, or create a config file"@,
{
}

/// Rows inserted in order: a later row for a name replaces an earlier one,
/// and the other names keep what they had.
pub proof fn law_later_row_wins(rows: Seq<(String, ApiEntry)>, row: (String, ApiEntry), other: Seq<char>)
    requires
        other != row.0@,
    ensures
        rows_map(rows.push(row)).dom().contains(row.0@),
        rows_map(rows.push(row))[row.0@] == row.1@,
        rows_map(rows.push(row)).dom().contains(other) <==> rows_map(rows).dom().contains(other),
        rows_map(rows).dom().contains(other) ==> rows_map(rows.push(row))[other] == rows_map(rows)[other],
{
    assert(rows.push(row).drop_last() =~= rows);
}

/// A name is in the table built from rows exactly when some row carries it.
pub proof fn law_rows_names(rows: Seq<(String, ApiEntry)>, name: Seq<char>)
    ensures
        rows_map(rows).dom().contains(name) <==> exists|i: int| 0 <= i < rows.len() && #[trigger] rows[i].0@ == name,
    decreases rows.len(),
{
    if rows.len() > 0 {
        law_rows_names(rows.drop_last(), name);
        if rows_map(rows).dom().contains(name) && rows.last().0@ != name {
            let i = choose|i: int| 0 <= i < rows.drop_last().len() && #[trigger] rows.drop_last()[i].0@ == name;
            assert(rows[i].0@ == name);
        }
        if exists|i: int| 0 <= i < rows.len() && #[trigger] rows[i].0@ == name {
            let i = choose|i: int| 0 <= i < rows.len() && #[trigger] rows[i].0@ == name;
            if i < rows.len() - 1 {
                assert(rows.drop_last()[i].0@ == name);
            }
        }
    }
}

} // verus!
