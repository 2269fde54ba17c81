//! Database paths, creation options, and the decisions made when connecting to Spanner.

use vstd::prelude::*;
use vstd::std_specs::convert::FromSpecImpl;
use crate::error::DbError;
use crate::text::{
    contains, join, lemma_join_split, lemma_join_step, lemma_split_concat, lemma_split_no_sep, owned,
    push_str, split_char, split_str, str_contains, str_eq,
};

verus! {

/// Database dialect for Spanner.
#[derive(Debug, Clone, Copy, PartialEq, Eq, Structural)]
pub enum DatabaseDialect {
    GoogleStandardSql,
    PostgreSql,
}

impl Default for DatabaseDialect {
    fn default() -> (d: Self)
        ensures
            d == DatabaseDialect::GoogleStandardSql,
    {
        DatabaseDialect::GoogleStandardSql
    }
}

/// The code of a dialect in Spanner's admin API (`DatabaseDialect` of
/// `google.spanner.admin.database.v1`).
pub open spec fn dialect_code(d: DatabaseDialect) -> i32 {
    match d {
        DatabaseDialect::GoogleStandardSql => 1,
        DatabaseDialect::PostgreSql => 2,
    }
}

impl From<DatabaseDialect> for i32 {
    fn from(dialect: DatabaseDialect) -> (code: i32) {
        match dialect {
            DatabaseDialect::GoogleStandardSql => 1,
            DatabaseDialect::PostgreSql => 2,
        }
    }
}

impl FromSpecImpl<DatabaseDialect> for i32 {
    open spec fn obeys_from_spec() -> bool {
        true
    }

    open spec fn from_spec(dialect: DatabaseDialect) -> i32 {
        dialect_code(dialect)
    }
}

/// Configuration for Spanner instance creation.
#[derive(Debug, Clone)]
pub struct InstanceConfig {
    /// Display name for the instance.
    pub display_name: Option<String>,
    /// Instance configuration (e.g., "regional-us-central1"); may be empty for the emulator.
    pub config: Option<String>,
    /// Number of nodes (for production instances).
    pub node_count: Option<i32>,
    /// Processing units (alternative to node_count).
    pub processing_units: Option<i32>,
}

impl Default for InstanceConfig {
    fn default() -> (c: Self)
        ensures
            c.display_name is None,
            c.config is None,
            c.node_count is None,
            c.processing_units is None,
    {
        InstanceConfig { display_name: None, config: None, node_count: None, processing_units: None }
    }
}

/// Options for creating a Spanner instance and database.
#[derive(Debug, Clone)]
pub struct CreateOptions {
    /// Create the instance if it doesn't exist (default: false).
    pub create_instance_if_not_exists: bool,
    /// Create the database if it doesn't exist (default: true).
    pub create_database_if_not_exists: bool,
    /// Configuration for instance creation.
    pub instance_config: InstanceConfig,
    /// Database dialect (default: GoogleStandardSql).
    pub database_dialect: DatabaseDialect,
}

/// The options hold the defaults: no instance creation, database creation, the default
/// instance configuration and the GoogleSQL dialect.
pub open spec fn is_default_options(o: CreateOptions) -> bool {
    &&& !o.create_instance_if_not_exists
    &&& o.create_database_if_not_exists
    &&& o.instance_config.display_name is None
    &&& o.instance_config.config is None
    &&& o.instance_config.node_count is None
    &&& o.instance_config.processing_units is None
    &&& o.database_dialect == DatabaseDialect::GoogleStandardSql
}

impl Default for CreateOptions {
    fn default() -> (o: Self)
        ensures
            is_default_options(o),
    {
        CreateOptions {
            create_instance_if_not_exists: false,
            create_database_if_not_exists: true,
            instance_config: InstanceConfig::default(),
            database_dialect: DatabaseDialect::default(),
        }
    }
}

impl CreateOptions {
    /// The default options.
    pub fn new() -> (o: Self)
        ensures
            is_default_options(o),
    {
        Self::default()
    }

    /// Also create the instance if it doesn't exist.
    pub fn with_instance_creation(self) -> (o: Self)
        ensures
            o == (CreateOptions { create_instance_if_not_exists: true, ..self }),
    {
        let mut o = self;
        o.create_instance_if_not_exists = true;
        o
    }

    /// Use the given dialect for a created database.
    pub fn with_dialect(self, dialect: DatabaseDialect) -> (o: Self)
        ensures
            o == (CreateOptions { database_dialect: dialect, ..self }),
    {
        let mut o = self;
        o.database_dialect = dialect;
        o
    }

    /// Use the given configuration for a created instance.
    pub fn with_instance_config(self, config: InstanceConfig) -> (o: Self)
        ensures
            o == (CreateOptions { instance_config: config, ..self }),
    {
        let mut o = self;
        o.instance_config = config;
        o
    }
}

/// Parsed components of a Spanner database path.
#[derive(Debug, Clone)]
pub struct DatabasePath {
    pub project: String,
    pub instance: String,
    pub database: String,
}

/// The path has the form `projects/{project}/instances/{instance}/databases/{database}`,
/// with exactly six `/`-separated parts.
pub open spec fn is_database_path(p: Seq<char>) -> bool {
    let parts = split_char(p, '/');
    &&& parts.len() == 6
    &&& parts[0] == "projects"@
    &&& parts[2] == "instances"@
    &&& parts[4] == "databases"@
}

/// The message of the error for a path of another form.
pub open spec fn invalid_path_message(p: Seq<char>) -> Seq<char> {
    "Invalid database path format. Expected: projects/{project}/instances/{instance}/databases/{database}, got: "@
        + p
}

/// `projects/{project}/instances/{instance}/databases/{database}`.
pub open spec fn full_path_text(project: Seq<char>, instance: Seq<char>, database: Seq<char>) -> Seq<
    char,
> {
    "projects/"@ + project + "/instances/"@ + instance + "/databases/"@ + database
}

impl DatabasePath {
    /// Parse a database path `projects/{project}/instances/{instance}/databases/{database}`.
    pub fn parse(path: &str) -> (r: Result<Self, DbError>)
        ensures
            is_database_path(path@) <==> r is Ok,
            r matches Ok(d) ==> d.project@ == split_char(path@, '/')[1] && d.instance@
                == split_char(path@, '/')[3] && d.database@ == split_char(path@, '/')[5],
            r matches Err(e) ==> e matches DbError::Custom(m) && m@ == invalid_path_message(
                path@,
            ),
    {
        let parts = split_str(path, '/');
        let ghost ps = parts@.map_values(|p: String| p@);
        assert(ps.len() == parts@.len());
        if parts.len() != 6 || !str_eq(parts[0].as_str(), "projects") || !str_eq(
            parts[2].as_str(),
            "instances",
        ) || !str_eq(parts[4].as_str(), "databases") {
            let mut m = owned(
                "Invalid database path format. Expected: projects/{project}/instances/{instance}/databases/{database}, got: ",
            );
            push_str(&mut m, path);
            return Err(DbError::Custom(m));
        }
        assert(ps[0] == parts@[0]@ && ps[2] == parts@[2]@ && ps[4] == parts@[4]@);
        Ok(DatabasePath {
            project: parts[1].clone(),
            instance: parts[3].clone(),
            database: parts[5].clone(),
        })
    }

    /// The full database path.
    pub fn full_path(&self) -> (r: String)
        ensures
            r@ == full_path_text(self.project@, self.instance@, self.database@),
    {
        let mut r = owned("projects/");
        push_str(&mut r, self.project.as_str());
        push_str(&mut r, "/instances/");
        push_str(&mut r, self.instance.as_str());
        push_str(&mut r, "/databases/");
        push_str(&mut r, self.database.as_str());
        assert(r@ =~= full_path_text(self.project@, self.instance@, self.database@));
        r
    }

    /// The project path, `projects/{project}`.
    pub fn project_path(&self) -> (r: String)
        ensures
            r@ == "projects/"@ + self.project@,
    {
        let mut r = owned("projects/");
        push_str(&mut r, self.project.as_str());
        r
    }

    /// The instance path, `projects/{project}/instances/{instance}`.
    pub fn instance_path(&self) -> (r: String)
        ensures
            r@ == "projects/"@ + self.project@ + "/instances/"@ + self.instance@,
    {
        let mut r = owned("projects/");
        push_str(&mut r, self.project.as_str());
        push_str(&mut r, "/instances/");
        push_str(&mut r, self.instance.as_str());
        assert(r@ =~= "projects/"@ + self.project@ + "/instances/"@ + self.instance@);
        r
    }
}

/// A database path printed from its parts parses back into the same parts, for parts
/// without `/`.
pub proof fn lemma_parse_full_path(project: Seq<char>, instance: Seq<char>, database: Seq<char>)
    requires
        !project.contains('/'),
        !instance.contains('/'),
        !database.contains('/'),
    ensures
        is_database_path(full_path_text(project, instance, database)),
        split_char(full_path_text(project, instance, database), '/')[1] == project,
        split_char(full_path_text(project, instance, database), '/')[3] == instance,
        split_char(full_path_text(project, instance, database), '/')[5] == database,
{
    reveal_strlit("projects/");
    reveal_strlit("/instances/");
    reveal_strlit("/databases/");
    reveal_strlit("projects");
    reveal_strlit("instances");
    reveal_strlit("databases");
    let s = seq!['/'];
    let t5 = "databases"@ + s + database;
    let t4 = instance + s + t5;
    let t3 = "instances"@ + s + t4;
    let t2 = project + s + t3;
    let t1 = "projects"@ + s + t2;
    assert(full_path_text(project, instance, database) =~= t1);
    lemma_split_concat("projects"@, t2, '/');
    lemma_split_concat(project, t3, '/');
    lemma_split_concat("instances"@, t4, '/');
    lemma_split_concat(instance, t5, '/');
    lemma_split_concat("databases"@, database, '/');
    assert(!"projects"@.contains('/')) by {
        assert(forall|k: int| 0 <= k < "projects"@.len() ==> "projects"@[k] != '/');
    }
    assert(!"instances"@.contains('/')) by {
        assert(forall|k: int| 0 <= k < "instances"@.len() ==> "instances"@[k] != '/');
    }
    assert(!"databases"@.contains('/')) by {
        assert(forall|k: int| 0 <= k < "databases"@.len() ==> "databases"@[k] != '/');
    }
    lemma_split_no_sep("projects"@, '/');
    lemma_split_no_sep(project, '/');
    lemma_split_no_sep("instances"@, '/');
    lemma_split_no_sep(instance, '/');
    lemma_split_no_sep("databases"@, '/');
    lemma_split_no_sep(database, '/');
    let parts = split_char(t1, '/');
    assert(parts =~= seq!["projects"@, project, "instances"@, instance, "databases"@, database]);
}

/// A path that parses prints back as the same path.
pub proof fn lemma_full_path_of_parsed(path: Seq<char>)
    requires
        is_database_path(path),
    ensures
        full_path_text(
            split_char(path, '/')[1],
            split_char(path, '/')[3],
            split_char(path, '/')[5],
        ) == path,
{
    reveal_strlit("projects/");
    reveal_strlit("/instances/");
    reveal_strlit("/databases/");
    reveal_strlit("projects");
    reveal_strlit("instances");
    reveal_strlit("databases");
    let parts = split_char(path, '/');
    let s = seq!['/'];
    lemma_join_split(path, '/');
    assert(join(parts.take(1), s) == parts[0]) by {
        assert(parts.take(1).len() == 1);
    }
    lemma_join_step(parts, s, 1);
    lemma_join_step(parts, s, 2);
    lemma_join_step(parts, s, 3);
    lemma_join_step(parts, s, 4);
    lemma_join_step(parts, s, 5);
    assert(parts.take(6) =~= parts);
    assert(full_path_text(parts[1], parts[3], parts[5]) =~= parts[0] + s + parts[1] + s + parts[2]
        + s + parts[3] + s + parts[4] + s + parts[5]);
}

/// What a request to create a Spanner instance holds.
#[derive(Debug, Clone)]
pub struct InstanceRequest {
    /// The project path, the parent of the instance.
    pub parent: String,
    pub instance_id: String,
    /// The instance path, the instance's name.
    pub name: String,
    pub config: String,
    pub display_name: String,
    /// The node count to set, if any.
    pub node_count: Option<i32>,
    /// The processing units to set, if any.
    pub processing_units: Option<i32>,
}

/// What a request to create a Spanner database holds.
#[derive(Debug, Clone)]
pub struct DatabaseRequest {
    /// The instance path, the parent of the database.
    pub parent: String,
    pub create_statement: String,
    /// The dialect's code in the admin API.
    pub database_dialect: i32,
}

/// The display name of a created instance: the configured one, else `{instance} Instance`.
pub open spec fn display_name_of(path: DatabasePath, config: InstanceConfig) -> Seq<char> {
    match config.display_name {
        Some(n) => n@,
        None => path.instance@ + " Instance"@,
    }
}

/// The request that creates the instance of `path` with `config`.
pub fn instance_request(path: &DatabasePath, config: &InstanceConfig) -> (r: InstanceRequest)
    ensures
        r.parent@ == "projects/"@ + path.project@,
        r.instance_id@ == path.instance@,
        r.name@ == "projects/"@ + path.project@ + "/instances/"@ + path.instance@,
        r.config@ == (match config.config {
            Some(c) => c@,
            None => Seq::empty(),
        }),
        r.display_name@ == display_name_of(*path, *config),
        r.node_count == config.node_count,
        r.processing_units == config.processing_units,
{
    let display_name = match &config.display_name {
        Some(n) => n.clone(),
        None => {
            let mut n = path.instance.clone();
            push_str(&mut n, " Instance");
            n
        },
    };
    let cfg = match &config.config {
        Some(c) => c.clone(),
        None => String::new(),
    };
    InstanceRequest {
        parent: path.project_path(),
        instance_id: path.instance.clone(),
        name: path.instance_path(),
        config: cfg,
        display_name,
        node_count: config.node_count,
        processing_units: config.processing_units,
    }
}

/// The request that creates the database of `path` in `dialect`.
pub fn database_request(path: &DatabasePath, dialect: DatabaseDialect) -> (r: DatabaseRequest)
    ensures
        r.parent@ == "projects/"@ + path.project@ + "/instances/"@ + path.instance@,
        r.create_statement@ == "CREATE DATABASE `"@ + path.database@ + "`"@,
        r.database_dialect == dialect_code(dialect),
{
    let mut stmt = owned("CREATE DATABASE `");
    push_str(&mut stmt, path.database.as_str());
    push_str(&mut stmt, "`");
    DatabaseRequest {
        parent: path.instance_path(),
        create_statement: stmt,
        database_dialect: dialect.into(),
    }
}

/// The error text says that the resource exists already.
pub open spec fn says_already_exists(t: Seq<char>) -> bool {
    contains(t, "AlreadyExists"@) || contains(t, "already exists"@)
}

/// Whether an error text says that the resource exists already.
pub fn is_already_exists(text: &str) -> (r: bool)
    ensures
        r == says_already_exists(text@),
{
    str_contains(text, "AlreadyExists") || str_contains(text, "already exists")
}

/// The result of creating a resource (`what` is `Instance` or `Database`): `Ok(true)`
/// when it was created, `Ok(false)` when the request failed because it exists already,
/// else a connection error with the failure's text.
pub open spec fn creation_outcome(
    what: Seq<char>,
    request_error: Option<Seq<char>>,
    wait_error: Option<Seq<char>>,
) -> Result<bool, Seq<char>> {
    match request_error {
        None => match wait_error {
            None => Ok(true),
            Some(e) => Err(what + " creation failed: "@ + e),
        },
        Some(e) => if says_already_exists(e) {
            Ok(false)
        } else {
            Err("Failed to create "@ + lower_first(what) + ": "@ + e)
        },
    }
}

/// `what` with its first letter in lower case (for `Instance` and `Database`).
pub open spec fn lower_first(what: Seq<char>) -> Seq<char> {
    if what == "Instance"@ {
        "instance"@
    } else {
        "database"@
    }
}

fn outcome(
    what: &str,
    lower: &str,
    request_error: Option<&str>,
    wait_error: Option<&str>,
) -> (r: Result<bool, crate::error::SpannerDbErr>)
    requires
        lower@ == lower_first(what@),
    ensures
        match creation_outcome(what@, opt_str(request_error), opt_str(wait_error)) {
            Ok(b) => r == Ok::<bool, crate::error::SpannerDbErr>(b),
            Err(m) => r matches Err(crate::error::SpannerDbErr::Connection(x)) && x@ == m,
        },
{
    match request_error {
        None => match wait_error {
            None => Ok(true),
            Some(e) => {
                let mut m = owned(what);
                push_str(&mut m, " creation failed: ");
                push_str(&mut m, e);
                Err(crate::error::SpannerDbErr::Connection(m))
            },
        },
        Some(e) => {
            if is_already_exists(e) {
                Ok(false)
            } else {
                let mut m = owned("Failed to create ");
                push_str(&mut m, lower);
                push_str(&mut m, ": ");
                push_str(&mut m, e);
                Err(crate::error::SpannerDbErr::Connection(m))
            }
        },
    }
}

/// The text of an optional string slice.
pub open spec fn opt_str(o: Option<&str>) -> Option<Seq<char>> {
    match o {
        Some(s) => Some(s@),
        None => None,
    }
}

/// The result of creating the instance, from the texts of the errors of the creation
/// request and of waiting for the operation, if any.
pub fn instance_creation_outcome(request_error: Option<&str>, wait_error: Option<&str>) -> (r:
    Result<bool, crate::error::SpannerDbErr>)
    ensures
        match creation_outcome("Instance"@, opt_str(request_error), opt_str(wait_error)) {
            Ok(b) => r == Ok::<bool, crate::error::SpannerDbErr>(b),
            Err(m) => r matches Err(crate::error::SpannerDbErr::Connection(x)) && x@ == m,
        },
{
    outcome("Instance", "instance", request_error, wait_error)
}

/// The result of creating the database, from the texts of the errors of the creation
/// request and of waiting for the operation, if any.
pub fn database_creation_outcome(request_error: Option<&str>, wait_error: Option<&str>) -> (r:
    Result<bool, crate::error::SpannerDbErr>)
    ensures
        match creation_outcome("Database"@, opt_str(request_error), opt_str(wait_error)) {
            Ok(b) => r == Ok::<bool, crate::error::SpannerDbErr>(b),
            Err(m) => r matches Err(crate::error::SpannerDbErr::Connection(x)) && x@ == m,
        },
{
    proof {
        reveal_strlit("Database");
        reveal_strlit("Instance");
    }
    assert("Database"@[0] != "Instance"@[0]);
    outcome("Database", "database", request_error, wait_error)
}

/// The emulator host that the emulator connections use unless told otherwise.
pub fn default_emulator_host() -> (r: &'static str)
    ensures
        r@ == "localhost:9010"@,
{
    "localhost:9010"
}

/// Spanner backend entry points; connecting is done by the application layer.
pub struct SpannerDatabase;

} // verus!
