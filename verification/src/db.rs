//! Project storage: a thin verified layer over an embedded SQLite database.
//!
//! What the database engine does is taken on trust through small wrappers —
//! their results depend on the database file, so their contracts promise
//! nothing about the rows that come back. The logic around them is
//! verified: building the database path, and recovering the newly inserted
//! record from a fresh listing by its generated id.

use vstd::prelude::*;

use crate::resolve::join_path;

verus! {

#[verifier::external_type_specification]
#[verifier::external_body]
pub struct ExConnection(rusqlite::Connection);

/// A stored project record. The sampling temperature travels through the
/// library as decimal text, exactly as the database engine prints it; the
/// unverified shell converts it to a number where one is needed.
#[derive(Clone, Debug)]
pub struct Project {
    pub id: String,
    pub name: String,
    pub genre: String,
    pub description: Option<String>,
    pub status: String,
    pub model_main: String,
    pub model_secondary: String,
    pub temperature: String,
    pub embedding_dim: i32,
    pub word_target: i32,
}

/// An error reported by the storage layer, as a human-readable message.
#[derive(Clone, Debug)]
pub struct DbError {
    pub message: String,
}

/// Storage for project records, backed by one SQLite database file under
/// the data directory.
pub struct Database {
    conn: rusqlite::Connection,
}

/// Relies on rusqlite::Connection::open: opens (creating if absent) the
/// database file at `path`. Whether it succeeds depends on the file system,
/// so nothing is promised of the outcome.
#[verifier::external_body]
fn open_connection(path: &String) -> (r: Result<rusqlite::Connection, DbError>)
{
    rusqlite::Connection::open(path.as_str()).map_err(|e| DbError { message: e.to_string() })
}

/// Relies on rusqlite::Connection::open_in_memory: opens a fresh private
/// in-memory database.
#[verifier::external_body]
fn open_memory_connection() -> (r: Result<rusqlite::Connection, DbError>)
{
    rusqlite::Connection::open_in_memory().map_err(|e| DbError { message: e.to_string() })
}

/// Relies on rusqlite::Connection::execute_batch: runs the statements in
/// `sql` against the database.
#[verifier::external_body]
fn run_batch(conn: &rusqlite::Connection, sql: &str) -> (r: Result<(), DbError>)
{
    conn.execute_batch(sql).map_err(|e| DbError { message: e.to_string() })
}

/// Relies on rusqlite::Connection::query_row: runs `sql` with the two text
/// parameters bound and hands back the first result row's first column as
/// text; fails when no row results (further rows are ignored).
#[verifier::external_body]
fn run_returning_text(conn: &rusqlite::Connection, sql: &str, p1: &str, p2: &str) -> (r: Result<
    String,
    DbError,
>)
{
    conn.query_row(sql, [p1, p2], |row| row.get(0)).map_err(
        |e| DbError { message: e.to_string() },
    )
}

/// Relies on rusqlite prepare/query_map: runs `sql`, which must select the
/// ten project columns in declaration order, and hands back one `Project`
/// per result row, in result order.
#[verifier::external_body]
fn run_project_query(conn: &rusqlite::Connection, sql: &str) -> (r: Result<Vec<Project>, DbError>)
{
    let go = || -> Result<Vec<Project>, rusqlite::Error> {
        let mut stmt = conn.prepare(sql)?;
        let rows = stmt.query_map([], |row| {
            Ok(Project {
                id: row.get(0)?, name: row.get(1)?, genre: row.get(2)?,
                description: row.get(3)?, status: row.get(4)?, model_main: row.get(5)?,
                model_secondary: row.get(6)?, temperature: row.get(7)?,
                embedding_dim: row.get(8)?, word_target: row.get(9)?,
            })
        })?;
        rows.collect()
    };
    go().map_err(|e| DbError { message: e.to_string() })
}

/// The schema the database is brought to before first use: the text handed
/// to the engine is pinned by the contract.
pub fn schema_sql() -> (s: &'static str)
    ensures
        s@ == "CREATE TABLE IF NOT EXISTS projects (\
         id TEXT PRIMARY KEY DEFAULT (lower(hex(randomblob(16)))),\
         name TEXT NOT NULL,\
         genre TEXT NOT NULL,\
         description TEXT,\
         status TEXT NOT NULL DEFAULT 'draft',\
         model_main TEXT NOT NULL DEFAULT '',\
         model_secondary TEXT NOT NULL DEFAULT '',\
         temperature REAL NOT NULL DEFAULT 1,\
         embedding_dim INTEGER NOT NULL DEFAULT 1024,\
         word_target INTEGER NOT NULL DEFAULT 0,\
         updated_at TEXT NOT NULL DEFAULT (strftime('%Y-%m-%dT%H:%M:%fZ','now'))\
     );"@,
{
    "CREATE TABLE IF NOT EXISTS projects (\
         id TEXT PRIMARY KEY DEFAULT (lower(hex(randomblob(16)))),\
         name TEXT NOT NULL,\
         genre TEXT NOT NULL,\
         description TEXT,\
         status TEXT NOT NULL DEFAULT 'draft',\
         model_main TEXT NOT NULL DEFAULT '',\
         model_secondary TEXT NOT NULL DEFAULT '',\
         temperature REAL NOT NULL DEFAULT 1,\
         embedding_dim INTEGER NOT NULL DEFAULT 1024,\
         word_target INTEGER NOT NULL DEFAULT 0,\
         updated_at TEXT NOT NULL DEFAULT (strftime('%Y-%m-%dT%H:%M:%fZ','now'))\
     );"
}

/// The listing query: all ten project columns, most recently updated
/// first, ties broken towards the most recently inserted row. The text
/// handed to the engine is pinned by the contract.
pub fn list_projects_sql() -> (s: &'static str)
    ensures
        s@ == "SELECT id, name, genre, description, status, model_main, model_secondary, \
             CAST(temperature AS TEXT), embedding_dim, word_target \
             FROM projects ORDER BY updated_at DESC, rowid DESC"@,
{
    "SELECT id, name, genre, description, status, model_main, model_secondary, \
             CAST(temperature AS TEXT), embedding_dim, word_target \
             FROM projects ORDER BY updated_at DESC, rowid DESC"
}

/// The creating statement: name and genre bound, every other column
/// defaulted, the generated id returned. The text handed to the engine is
/// pinned by the contract.
pub fn create_project_sql() -> (s: &'static str)
    ensures
        s@ == "INSERT INTO projects (name, genre) VALUES (?1, ?2) RETURNING id"@,
{
    "INSERT INTO projects (name, genre) VALUES (?1, ?2) RETURNING id"
}

/// Finds the first project whose id equals `id`, scanning in listing order.
pub fn index_of_id(projects: &Vec<Project>, id: &String) -> (r: Option<usize>)
    ensures
        match r {
            Some(i) => i < projects@.len() && projects@[i as int].id@ == id@ && (forall|j: int|
                0 <= j < i ==> projects@[j].id@ != id@),
            None => forall|i: int| 0 <= i < projects@.len() ==> projects@[i].id@ != id@,
        },
{
    let mut i: usize = 0;
    while i < projects.len()
        invariant
            i <= projects@.len(),
            forall|j: int| 0 <= j < i ==> projects@[j].id@ != id@,
        decreases projects@.len() - i,
    {
        if projects[i].id == *id {
            return Some(i);
        }
        i = i + 1;
    }
    None
}

/// What adopting a freshly created record from a listing yields, for every
/// possible listing: the first entry carrying the generated id, when it
/// matches the request (non-empty id, the requested name and genre, the
/// defaulted status); otherwise the exact error message owed to that
/// defect.
pub open spec fn spec_adopt_created(
    projects: Seq<Project>,
    id: Seq<char>,
    name: Seq<char>,
    genre: Seq<char>,
) -> Result<Project, Seq<char>>
    decreases projects.len(),
{
    if projects.len() == 0 {
        Err("created project missing from listing"@)
    } else if projects[0].id@ == id {
        let p = projects[0];
        if p.id@.len() == 0 {
            Err("created project has an empty id"@)
        } else if p.name@ == name && p.genre@ == genre && p.status@ == "draft"@ {
            Ok(p)
        } else {
            Err("created project disagrees with the request"@)
        }
    } else {
        spec_adopt_created(projects.drop_first(), id, name, genre)
    }
}

proof fn lemma_adopt_skips_nonmatching(
    projects: Seq<Project>,
    id: Seq<char>,
    name: Seq<char>,
    genre: Seq<char>,
    k: int,
)
    requires
        0 <= k <= projects.len(),
        forall|j: int| 0 <= j < k ==> projects[j].id@ != id,
    ensures
        spec_adopt_created(projects, id, name, genre) == spec_adopt_created(
            projects.subrange(k, projects.len() as int),
            id,
            name,
            genre,
        ),
    decreases k,
{
    if k == 0 {
        assert(projects.subrange(0, projects.len() as int) =~= projects);
    } else {
        assert(projects[0].id@ != id);
        lemma_adopt_skips_nonmatching(projects.drop_first(), id, name, genre, k - 1);
        assert(projects.drop_first().subrange(k - 1, projects.drop_first().len() as int)
            =~= projects.subrange(k, projects.len() as int));
    }
}

proof fn lemma_adopt_ok_fields(projects: Seq<Project>, id: Seq<char>, name: Seq<char>, genre: Seq<
    char,
>)
    ensures
        spec_adopt_created(projects, id, name, genre) matches Ok(p) ==> p.name@ == name && p.genre@
            == genre && p.status@ == "draft"@ && p.id@.len() > 0,
    decreases projects.len(),
{
    if projects.len() > 0 && projects[0].id@ != id {
        lemma_adopt_ok_fields(projects.drop_first(), id, name, genre);
    }
}

/// Adopts the record an insert created out of a fresh listing: finds the
/// first entry carrying the generated id and holds it against the request.
/// The result is fixed for every listing value — exactly
/// `spec_adopt_created`, down to each error's message.
pub fn adopt_created_project(projects: Vec<Project>, id: &String, name: &str, genre: &str) -> (r:
    Result<Project, DbError>)
    ensures
        (match (r, spec_adopt_created(projects@, id@, name@, genre@)) {
            (Ok(p), Ok(q)) => p == q,
            (Err(e), Err(m)) => e.message@ == m,
            _ => false,
        }),
{
    let ghost ps = projects@;
    let mut projects = projects;
    match index_of_id(&projects, id) {
        Some(i) => {
            let p = projects.remove(i);
            proof {
                lemma_adopt_skips_nonmatching(ps, id@, name@, genre@, i as int);
                assert(ps.subrange(i as int, ps.len() as int)[0] == ps[i as int]);
            }
            if p.id.as_str().is_empty() {
                return Err(
                    DbError { message: String::from_str("created project has an empty id") },
                );
            }
            if p.name == String::from_str(name) && p.genre == String::from_str(genre) && p.status
                == String::from_str("draft") {
                Ok(p)
            } else {
                Err(
                    DbError {
                        message: String::from_str("created project disagrees with the request"),
                    },
                )
            }
        }
        None => {
            proof {
                lemma_adopt_skips_nonmatching(ps, id@, name@, genre@, ps.len() as int);
            }
            Err(DbError { message: String::from_str("created project missing from listing") })
        }
    }
}

impl Database {
    /// Opens (creating if needed) the database file `sanhuoai.db` under
    /// `data_dir` and brings it to the current schema. The caller is
    /// responsible for `data_dir` itself existing.
    pub fn new(data_dir: &str) -> (r: Result<Database, DbError>)
    {
        let db_path = join_path(data_dir, "sanhuoai.db");
        let conn = match open_connection(&db_path) {
            Ok(c) => c,
            Err(e) => {
                return Err(e);
            }
        };
        let db = Database { conn };
        match db.init_schema() {
            Ok(()) => Ok(db),
            Err(e) => Err(e),
        }
    }

    /// Opens a fresh private in-memory database with the current schema;
    /// every call yields independent storage.
    pub fn in_memory() -> (r: Result<Database, DbError>)
    {
        let conn = match open_memory_connection() {
            Ok(c) => c,
            Err(e) => {
                return Err(e);
            }
        };
        let db = Database { conn };
        match db.init_schema() {
            Ok(()) => Ok(db),
            Err(e) => Err(e),
        }
    }

    fn init_schema(&self) -> (r: Result<(), DbError>)
    {
        run_batch(&self.conn, schema_sql())
    }

    /// All stored projects, most recently updated first (ties broken
    /// towards the most recently inserted). The query handed to the engine
    /// is pinned by `list_projects_sql`'s contract; the rows are the
    /// engine's answer, so nothing is promised of them.
    pub fn list_projects(&self) -> (r: Result<Vec<Project>, DbError>)
    {
        run_project_query(&self.conn, list_projects_sql())
    }

    /// Inserts a project with the given name and genre, every other column
    /// defaulted, and returns the stored record: the listing entry whose id
    /// the insert generated. Whether the engine succeeds only it decides,
    /// but any record returned is checked to carry the requested name and
    /// genre, a non-empty generated id, and the defaulted status; if,
    /// against the schema's word, the fresh listing lacks the id or the
    /// record disagrees with the request, an error is returned instead.
    pub fn create_project(&self, name: &str, genre: &str) -> (r: Result<Project, DbError>)
        ensures
            r matches Ok(p) ==> p.name@ == name@ && p.genre@ == genre@ && p.status@ == "draft"@
                && p.id@.len() > 0,
    {
        let id = match run_returning_text(&self.conn, create_project_sql(), name, genre) {
            Ok(id) => id,
            Err(e) => {
                return Err(e);
            }
        };
        let projects = match self.list_projects() {
            Ok(ps) => ps,
            Err(e) => {
                return Err(e);
            }
        };
        proof {
            lemma_adopt_ok_fields(projects@, id@, name@, genre@);
        }
        adopt_created_project(projects, &id, name, genre)
    }
}

} // verus!
