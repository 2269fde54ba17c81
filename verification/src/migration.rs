//! The decisions of the migration runner: DDL outcomes, which migrations run, and the
//! names of generated migration files.

use vstd::prelude::*;
use crate::error::{db_error_display, DbError};
use crate::text::{contains, owned, push_str, str_contains, to_chars, trim_str, trim_ws};
use crate::literal::{replace_char, replace_char_str};

verus! {

/// Runs DDL statements against one Spanner database.
pub struct SpannerSchemaManager {
    database_path: String,
}

impl SpannerSchemaManager {
    /// The database the manager changes.
    pub closed spec fn path(&self) -> Seq<char> {
        self.database_path@
    }

    /// A manager for the database at `database_path`.
    pub fn new(database_path: &str) -> (r: Self)
        ensures
            r.path() == database_path@,
    {
        SpannerSchemaManager { database_path: owned(database_path) }
    }

    /// The path of the managed database.
    pub fn database_path(&self) -> (r: &str)
        ensures
            r@ == self.path(),
    {
        self.database_path.as_str()
    }
}

/// The error text says that what the DDL creates exists already.
pub open spec fn says_exists(t: Seq<char>) -> bool {
    ||| contains(t, "AlreadyExists"@)
    ||| contains(t, "already exists"@)
    ||| contains(t, "Duplicate name"@)
}

/// The message of a failed DDL request.
pub open spec fn ddl_failed_text(t: Seq<char>) -> Seq<char> {
    "DDL execution failed: "@ + t
}

/// The outcome of DDL whose request failed with `error`: success when the error says that
/// the object exists already, else a custom error that quotes it.
pub fn ddl_failure(error: &str) -> (r: Result<(), DbError>)
    ensures
        says_exists(error@) ==> r is Ok,
        !says_exists(error@) ==> (r matches Err(DbError::Custom(m)) && m@ == ddl_failed_text(error@)),
{
    if str_contains(error, "AlreadyExists") || str_contains(error, "already exists") || str_contains(
        error,
        "Duplicate name",
    ) {
        Ok(())
    } else {
        let mut m = owned("DDL execution failed: ");
        push_str(&mut m, error);
        Err(DbError::Custom(m))
    }
}

/// The error of a DDL operation that was accepted and then failed with `error`.
pub fn ddl_operation_failure(error: &str) -> (r: DbError)
    ensures
        r matches DbError::Custom(m) && m@ == "DDL operation failed: "@ + error@,
{
    let mut m = owned("DDL operation failed: ");
    push_str(&mut m, error);
    DbError::Custom(m)
}

/// The statement that drops table `name`.
pub fn drop_table_ddl(name: &str) -> (r: String)
    ensures
        r@ == "DROP TABLE "@ + name@,
{
    let mut r = owned("DROP TABLE ");
    push_str(&mut r, name);
    r
}

/// The statement that drops index `name`.
pub fn drop_index_ddl(name: &str) -> (r: String)
    ensures
        r@ == "DROP INDEX "@ + name@,
{
    let mut r = owned("DROP INDEX ");
    push_str(&mut r, name);
    r
}

/// The error text says that what was to be dropped does not exist.
pub open spec fn says_missing(t: Seq<char>) -> bool {
    ||| contains(t, "not found"@)
    ||| contains(t, "does not exist"@)
    ||| contains(t, "NOT_FOUND"@)
}

/// The outcome of a drop "if exists": the drop's own outcome, except that an error whose
/// text says that the object does not exist counts as success.
pub fn drop_if_exists_outcome(result: Result<(), DbError>) -> (r: Result<(), DbError>)
    ensures
        match result {
            Ok(()) => r is Ok,
            Err(e) => if says_missing(db_error_display(e)) {
                r is Ok
            } else {
                r == Err::<(), DbError>(e)
            },
        },
{
    match result {
        Ok(()) => Ok(()),
        Err(e) => {
            let t = e.display();
            if str_contains(t.as_str(), "not found") || str_contains(t.as_str(), "does not exist")
                || str_contains(t.as_str(), "NOT_FOUND") {
                Ok(())
            } else {
                Err(e)
            }
        },
    }
}

/// The database URL the command line was given; a run without one stops with the message
/// "DATABASE_URL is required. Use -u/--database-url or set DATABASE_URL env var.".
pub fn require_database_url(database_url: Option<String>) -> (r: String)
    requires
        database_url is Some,
    ensures
        r@ == database_url->0@,
{
    match database_url {
        Some(u) => u,
        None => owned(""),
    }
}

/// The migration directory with a trailing `/`.
pub open spec fn dir_with_slash(dir: Seq<char>) -> Seq<char> {
    if dir.len() > 0 && dir.last() == '/' {
        dir
    } else {
        dir.push('/')
    }
}

/// The migration directory, ending in `/`.
pub fn migration_dir(dir: &str) -> (r: String)
    ensures
        r@ == dir_with_slash(dir@),
{
    let cs = to_chars(dir);
    let mut r = owned(dir);
    if cs.len() > 0 && cs[cs.len() - 1] == '/' {
        r
    } else {
        crate::text::push_char(&mut r, '/');
        r
    }
}

/// The message for a migration name with a hyphen.
pub open spec fn hyphen_message() -> Seq<char> {
    "Migration name cannot contain hyphens. Use underscores instead."@
}

/// The name of a generated migration: `m`, the timestamp, `_`, and the requested name
/// trimmed and with its spaces turned into underscores. A name with a hyphen is refused.
pub open spec fn migration_file_stem(timestamp: Seq<char>, name: Seq<char>) -> Result<
    Seq<char>,
    Seq<char>,
> {
    if name.contains('-') {
        Err(hyphen_message())
    } else {
        Ok("m"@ + timestamp + "_"@ + replace_char(trim_ws(name), ' ', "_"@))
    }
}

/// The file stem of a new migration named `name`, generated at `timestamp`
/// (`%Y%m%d_%H%M%S`).
pub fn migration_name(timestamp: &str, name: &str) -> (r: Result<String, String>)
    ensures
        match migration_file_stem(timestamp@, name@) {
            Ok(s) => r matches Ok(x) && x@ == s,
            Err(m) => r matches Err(x) && x@ == m,
        },
{
    let cs = to_chars(name);
    let mut i: usize = 0;
    while i < cs.len()
        invariant
            i <= cs@.len(),
            cs@ == name@,
            forall|k: int| 0 <= k < i ==> cs@[k] != '-',
        decreases cs.len() - i,
    {
        if cs[i] == '-' {
            assert(name@[i as int] == '-');
            return Err(owned("Migration name cannot contain hyphens. Use underscores instead."));
        }
        i = i + 1;
    }
    assert(!name@.contains('-'));
    let trimmed = trim_str(name);
    let body = replace_char_str(trimmed.as_str(), ' ', "_");
    let mut r = owned("m");
    push_str(&mut r, timestamp);
    push_str(&mut r, "_");
    push_str(&mut r, body.as_str());
    Ok(r)
}

/// Whether a migration has been applied.
#[derive(Debug, Clone, Copy, PartialEq, Eq, Structural)]
pub enum MigrationStatus {
    Pending,
    Applied,
}

/// The status of migration `name` when the versions in `applied` have been applied.
pub open spec fn status_of(name: Seq<char>, applied: Seq<Seq<char>>) -> MigrationStatus {
    if applied.contains(name) {
        MigrationStatus::Applied
    } else {
        MigrationStatus::Pending
    }
}

fn is_applied(name: &str, applied: &Vec<String>) -> (r: bool)
    ensures
        r == applied@.map_values(|v: String| v@).contains(name@),
{
    let ghost vs = applied@.map_values(|v: String| v@);
    let mut i: usize = 0;
    while i < applied.len()
        invariant
            i <= applied.len(),
            vs == applied@.map_values(|v: String| v@),
            forall|k: int| 0 <= k < i ==> vs[k] != name@,
        decreases applied.len() - i,
    {
        if crate::text::str_eq(applied[i].as_str(), name) {
            assert(vs[i as int] == name@);
            return true;
        }
        i = i + 1;
    }
    false
}

/// The status of each migration, in order, given the applied versions.
pub fn migration_statuses(names: &Vec<String>, applied: &Vec<String>) -> (r: Vec<MigrationStatus>)
    ensures
        r@.len() == names@.len(),
        forall|i: int|
            0 <= i < names@.len() ==> r@[i] == status_of(
                #[trigger] names@[i]@,
                applied@.map_values(|v: String| v@),
            ),
{
    let mut r: Vec<MigrationStatus> = Vec::new();
    let mut i: usize = 0;
    while i < names.len()
        invariant
            i <= names.len(),
            r@.len() == i,
            forall|k: int|
                0 <= k < i ==> r@[k] == status_of(
                    #[trigger] names@[k]@,
                    applied@.map_values(|v: String| v@),
                ),
        decreases names.len() - i,
    {
        if is_applied(names[i].as_str(), applied) {
            r.push(MigrationStatus::Applied);
        } else {
            r.push(MigrationStatus::Pending);
        }
        i = i + 1;
    }
    r
}

/// Positions as integers.
pub open spec fn ints(v: Seq<usize>) -> Seq<int> {
    v.map_values(|p: usize| p as int)
}

/// Appending a position appends its integer.
proof fn lemma_ints_push(v: Seq<usize>, x: usize)
    ensures
        ints(v.push(x)) == ints(v).push(x as int),
{
    assert(ints(v.push(x)) =~= ints(v).push(x as int));
}

/// The positions of the migrations with status `s`, in order.
pub open spec fn positions_with(statuses: Seq<MigrationStatus>, s: MigrationStatus) -> Seq<int>
    decreases statuses.len(),
{
    if statuses.len() == 0 {
        Seq::empty()
    } else {
        let rest = positions_with(statuses.drop_last(), s);
        if statuses.last() == s {
            rest.push(statuses.len() - 1)
        } else {
            rest
        }
    }
}

/// At most `steps` of `xs` from its start; all of them when there is no limit.
pub open spec fn first_steps(xs: Seq<int>, steps: Option<u32>) -> Seq<int> {
    match steps {
        Some(n) => if n < xs.len() {
            xs.take(n as int)
        } else {
            xs
        },
        None => xs,
    }
}

/// The migrations that `up` applies: the pending ones in order, at most `steps` of them.
pub open spec fn up_plan(statuses: Seq<MigrationStatus>, steps: Option<u32>) -> Seq<int> {
    first_steps(positions_with(statuses, MigrationStatus::Pending), steps)
}

/// The migrations that `down` rolls back: the applied ones, latest first, at most `steps`.
pub open spec fn down_plan(statuses: Seq<MigrationStatus>, steps: Option<u32>) -> Seq<int> {
    first_steps(positions_with(statuses, MigrationStatus::Applied).reverse(), steps)
}

fn positions(statuses: &Vec<MigrationStatus>, s: MigrationStatus) -> (r: Vec<usize>)
    ensures
        ints(r@) == positions_with(statuses@, s),
{
    let mut r: Vec<usize> = Vec::new();
    let mut i: usize = 0;
    while i < statuses.len()
        invariant
            i <= statuses.len(),
            ints(r@) == positions_with(statuses@.take(i as int), s),
        decreases statuses.len() - i,
    {
        assert(statuses@.take(i + 1).drop_last() =~= statuses@.take(i as int));
        let ghost before = r@;
        if statuses[i] == s {
            r.push(i);
            proof {
                lemma_ints_push(before, i);
            }
        }
        i = i + 1;
    }
    assert(statuses@.take(statuses.len() as int) =~= statuses@);
    r
}

fn take_steps(xs: Vec<usize>, steps: Option<u32>) -> (r: Vec<usize>)
    ensures
        ints(r@) == first_steps(ints(xs@), steps),
{
    let ghost all = ints(xs@);
    match steps {
        Some(n) => {
            let mut r: Vec<usize> = Vec::new();
            let mut i: usize = 0;
            while i < xs.len() && (i as u64) < (n as u64)
                invariant
                    i <= xs.len(),
                    i <= n,
                    all == ints(xs@),
                    ints(r@) == all.take(i as int),
                decreases xs.len() - i,
            {
                let ghost prev = r@;
                r.push(xs[i]);
                proof {
                    lemma_ints_push(prev, xs@[i as int]);
                    assert(all.take(i + 1) =~= all.take(i as int).push(all[i as int]));
                }
                i = i + 1;
            }
            if (n as u64) >= (xs.len() as u64) {
                assert(all.take(i as int) =~= all);
            }
            r
        },
        None => xs,
    }
}

/// The positions of the migrations `up` applies, in the order it applies them.
pub fn plan_up(statuses: &Vec<MigrationStatus>, steps: Option<u32>) -> (r: Vec<usize>)
    ensures
        ints(r@) == up_plan(statuses@, steps),
{
    take_steps(positions(statuses, MigrationStatus::Pending), steps)
}

/// The positions of the migrations `down` rolls back, in the order it rolls them back.
pub fn plan_down(statuses: &Vec<MigrationStatus>, steps: Option<u32>) -> (r: Vec<usize>)
    ensures
        ints(r@) == down_plan(statuses@, steps),
{
    let applied = positions(statuses, MigrationStatus::Applied);
    let ghost fwd = ints(applied@);
    let mut rev: Vec<usize> = Vec::new();
    let mut i: usize = applied.len();
    while i > 0
        invariant
            i <= applied.len(),
            fwd == ints(applied@),
            ints(rev@) == fwd.reverse().take(applied.len() - i),
        decreases i,
    {
        let ghost prev = rev@;
        rev.push(applied[i - 1]);
        proof {
            lemma_ints_push(prev, applied@[i - 1]);
            assert(fwd.reverse().take(applied.len() - i + 1) =~= fwd.reverse().take(
                applied.len() - i,
            ).push(fwd[i - 1]));
        }
        i = i - 1;
    }
    assert(fwd.reverse().take(applied.len() as int) =~= fwd.reverse());
    take_steps(rev, steps)
}

/// The statuses of migrations `names` when the versions in `applied` have been applied.
pub open spec fn statuses_of(names: Seq<Seq<char>>, applied: Seq<Seq<char>>) -> Seq<MigrationStatus> {
    Seq::new(names.len(), |i: int| status_of(names[i], applied))
}

/// The names of the migrations at positions `ks`.
pub open spec fn names_at(names: Seq<Seq<char>>, ks: Seq<int>) -> Seq<Seq<char>> {
    ks.map_values(|k: int| names[k])
}

/// A position is listed exactly when the migration there has the status.
proof fn lemma_positions_with(st: Seq<MigrationStatus>, s: MigrationStatus, k: int)
    ensures
        positions_with(st, s).contains(k) <==> (0 <= k < st.len() && st[k] == s),
    decreases st.len(),
{
    if st.len() > 0 {
        lemma_positions_with(st.drop_last(), s, k);
        let rest = positions_with(st.drop_last(), s);
        if st.last() == s {
            if k == st.len() - 1 {
                assert(rest.push(k)[rest.len() as int] == k);
            }
            assert(rest.push(st.len() - 1).contains(k) <==> (rest.contains(k) || k == st.len() - 1))
                by {
                if rest.push(st.len() - 1).contains(k) && k != st.len() - 1 {
                    let l = rest.push(st.len() - 1);
                    let j = choose|j: int| 0 <= j < l.len() && #[trigger] l[j] == k;
                    assert(rest[j] == k);
                }
                if rest.contains(k) {
                    let j = choose|j: int| 0 <= j < rest.len() && rest[j] == k;
                    assert(rest.push(st.len() - 1)[j] == k);
                }
            }
        }
    }
}

/// After `up` without a limit, no migration is pending: every migration is applied once the
/// versions of the migrations it ran are added to the applied ones.
pub proof fn lemma_up_leaves_nothing_pending(
    names: Seq<Seq<char>>,
    applied: Seq<Seq<char>>,
    after: Seq<Seq<char>>,
)
    requires
        forall|v: Seq<char>| applied.contains(v) ==> after.contains(v),
        forall|v: Seq<char>|
            names_at(names, up_plan(statuses_of(names, applied), None)).contains(v) ==> after.contains(
                v,
            ),
    ensures
        forall|i: int|
            0 <= i < names.len() ==> status_of(names[i], after) == MigrationStatus::Applied,
{
    let st = statuses_of(names, applied);
    let ran = up_plan(st, None);
    assert forall|i: int| 0 <= i < names.len() implies status_of(names[i], after)
        == MigrationStatus::Applied by {
        if !applied.contains(names[i]) {
            assert(st[i] == MigrationStatus::Pending);
            lemma_positions_with(st, MigrationStatus::Pending, i);
            let j = choose|j: int| 0 <= j < ran.len() && ran[j] == i;
            assert(names_at(names, ran)[j] == names[i]);
            assert(names_at(names, ran).contains(names[i]));
        }
    }
}

/// After `down` without a limit, no migration is applied: every migration is pending once
/// the versions of the migrations it rolled back are removed from the applied ones.
pub proof fn lemma_down_leaves_nothing_applied(
    names: Seq<Seq<char>>,
    applied: Seq<Seq<char>>,
    after: Seq<Seq<char>>,
)
    requires
        forall|v: Seq<char>|
            after.contains(v) ==> applied.contains(v) && !names_at(
                names,
                down_plan(statuses_of(names, applied), None),
            ).contains(v),
    ensures
        forall|i: int|
            0 <= i < names.len() ==> status_of(names[i], after) == MigrationStatus::Pending,
{
    let st = statuses_of(names, applied);
    let fwd = positions_with(st, MigrationStatus::Applied);
    let ran = down_plan(st, None);
    assert(ran == fwd.reverse());
    assert forall|i: int| 0 <= i < names.len() implies status_of(names[i], after)
        == MigrationStatus::Pending by {
        if applied.contains(names[i]) {
            assert(st[i] == MigrationStatus::Applied);
            lemma_positions_with(st, MigrationStatus::Applied, i);
            let j = choose|j: int| 0 <= j < fwd.len() && fwd[j] == i;
            assert(ran[fwd.len() - 1 - j] == i);
            assert(names_at(names, ran)[fwd.len() - 1 - j] == names[i]);
            assert(names_at(names, ran).contains(names[i]));
        }
    }
}

} // verus!
