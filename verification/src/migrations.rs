//! The schema of the database: its migrations, the versions they lead to,
//! and which migration a request to go up or down asks for.

use vstd::prelude::*;
use rusqlite_migration::{Migrations, M};
use crate::error::Error;
use crate::text::join;

verus! {

/// The number of migrations, and so the highest schema version.
pub const MAX_VERSION: usize = 2;

/// The schema version as the migration library reads it from a database:
/// none, a version that one of the migrations leads to, or a version beyond
/// them all.
#[derive(Clone, Copy, Debug, PartialEq, Eq, Structural)]
pub enum DbSchemaVersion {
    NoneSet,
    Inside(usize),
    Outside(usize),
}

/// The schema version as the rest of the program sees it.
#[derive(Clone, Copy, Debug, PartialEq, Eq, Structural)]
pub enum SchemaVersion {
    NoneSet,
    Expected(usize),
    Unexpected(usize),
}

/// The current schema version and the highest that the migrations reach.
/// Every value that the library makes comes from
/// `from_sqlite_schema_version`, which sets `max_version` to `MAX_VERSION`,
/// which is not 0.
#[derive(Debug)]
pub struct SchemaVersionInfo {
    pub current_version: SchemaVersion,
    pub max_version: usize,
}

/// The number that a database stores for a version; no version counts as 0.
pub open spec fn db_version_number(v: DbSchemaVersion) -> nat {
    match v {
        DbSchemaVersion::NoneSet => 0,
        DbSchemaVersion::Inside(n) => n as nat,
        DbSchemaVersion::Outside(n) => n as nat,
    }
}

/// The version that a database holds after a migration to version `n`
/// (0 stands for no version).
pub open spec fn db_version_at(n: usize) -> DbSchemaVersion {
    if n == 0 { DbSchemaVersion::NoneSet } else { DbSchemaVersion::Inside(n) }
}

/// A version read from the database, as the program sees it.
pub open spec fn schema_version_of(v: DbSchemaVersion) -> SchemaVersion {
    match v {
        DbSchemaVersion::NoneSet => SchemaVersion::NoneSet,
        DbSchemaVersion::Inside(n) => SchemaVersion::Expected(n),
        DbSchemaVersion::Outside(n) => SchemaVersion::Unexpected(n),
    }
}

/// The version that a request to migrate down asks for: one below the
/// current one, where the current one is a known version of at least 1.
pub open spec fn down_target(current: DbSchemaVersion) -> Result<usize, Error> {
    match current {
        DbSchemaVersion::Inside(v) => if v >= 1 {
            Ok((v - 1) as usize)
        } else {
            Err(Error::ModelSchemaMigrateDownNotAvailable)
        },
        _ => Err(Error::ModelSchemaMigrateDownNotAvailable),
    }
}

/// The version that a request to migrate up asks for: 1 where no version is
/// set, one above a known version below the highest, and none otherwise.
pub open spec fn up_target(current: DbSchemaVersion) -> Result<usize, Error> {
    match current {
        DbSchemaVersion::NoneSet => if MAX_VERSION >= 1 {
            Ok(1)
        } else {
            Err(Error::ModelSchemaMigrateUpNotAvailable)
        },
        DbSchemaVersion::Inside(v) => if v >= MAX_VERSION {
            Err(Error::ModelSchemaMigrateUpNotAvailable)
        } else {
            Ok((v + 1) as usize)
        },
        DbSchemaVersion::Outside(_) => Err(Error::ModelSchemaMigrateUpNotAvailable),
    }
}

impl SchemaVersionInfo {
    /// The version information for a version read from the database.
    pub fn from_sqlite_schema_version(current_version: DbSchemaVersion) -> (info: Self)
        ensures
            info.current_version == schema_version_of(current_version),
            info.max_version == MAX_VERSION,
    {
        let version = match current_version {
            DbSchemaVersion::NoneSet => SchemaVersion::NoneSet,
            DbSchemaVersion::Inside(v) => SchemaVersion::Expected(v),
            DbSchemaVersion::Outside(v) => SchemaVersion::Unexpected(v),
        };
        SchemaVersionInfo { current_version: version, max_version: MAX_VERSION }
    }
}

/// The version to migrate to on a request to migrate down (see `down_target`).
pub fn migrate_down_target(current: DbSchemaVersion) -> (r: Result<usize, Error>)
    ensures
        r == down_target(current),
{
    match current {
        DbSchemaVersion::Inside(v) => {
            if v >= 1 {
                Ok(v - 1)
            } else {
                Err(Error::ModelSchemaMigrateDownNotAvailable)
            }
        },
        _ => Err(Error::ModelSchemaMigrateDownNotAvailable),
    }
}

/// The version to migrate to on a request to migrate up (see `up_target`).
pub fn migrate_up_target(current: DbSchemaVersion) -> (r: Result<usize, Error>)
    ensures
        r == up_target(current),
{
    match current {
        DbSchemaVersion::NoneSet => {
            if MAX_VERSION >= 1 {
                Ok(1)
            } else {
                Err(Error::ModelSchemaMigrateUpNotAvailable)
            }
        },
        DbSchemaVersion::Inside(v) => {
            if v >= MAX_VERSION {
                Err(Error::ModelSchemaMigrateUpNotAvailable)
            } else {
                Ok(v + 1)
            }
        },
        DbSchemaVersion::Outside(_) => Err(Error::ModelSchemaMigrateUpNotAvailable),
    }
}

/// A request to migrate up never asks for a version beyond the highest, and
/// always for one above the current one.
pub proof fn lemma_up_target_in_range(current: DbSchemaVersion)
    ensures
        up_target(current) matches Ok(t) ==> db_version_number(current) < t <= MAX_VERSION,
{
}

/// A request to migrate down always asks for a version below the current one.
pub proof fn lemma_down_target_in_range(current: DbSchemaVersion)
    ensures
        down_target(current) matches Ok(t) ==> t < db_version_number(current),
{
}

/// Migrating up and then down again comes back to the version one started
/// from.
pub proof fn lemma_up_then_down(current: DbSchemaVersion)
    ensures
        up_target(current) matches Ok(t) ==> down_target(db_version_at(t)) == Ok::<usize, Error>(
            db_version_number(current) as usize,
        ),
{
}

/// Migrating down from a version that a migration leads to, and then up
/// again, comes back to the version one started from.
pub proof fn lemma_down_then_up(current: DbSchemaVersion)
    requires
        db_version_number(current) <= MAX_VERSION,
    ensures
        down_target(current) matches Ok(t) ==> up_target(db_version_at(t)) == Ok::<usize, Error>(
            db_version_number(current) as usize,
        ),
{
}

/// A change to the database schema, as one SQL statement makes it. A
/// column of a new table is given by its name and its definition (type and
/// constraints).
pub enum SchemaChange {
    CreateTable { table: Seq<char>, columns: Seq<(Seq<char>, Seq<char>)> },
    DropTable { table: Seq<char> },
    AddColumn { table: Seq<char>, column: Seq<char>, definition: Seq<char> },
    DropColumn { table: Seq<char>, column: Seq<char> },
}

/// The tables of a database schema, each with the names of its columns.
pub type Schema = Map<Seq<char>, Set<Seq<char>>>;

/// The names of the columns of a new table.
pub open spec fn column_names(columns: Seq<(Seq<char>, Seq<char>)>) -> Set<Seq<char>> {
    columns.map_values(|c: (Seq<char>, Seq<char>)| c.0).to_set()
}

/// Every table of the schema has a column.
pub open spec fn schema_well_formed(s: Schema) -> bool {
    forall|t: Seq<char>| #[trigger] s.dom().contains(t) ==> exists|c: Seq<char>| s[t].contains(c)
}

/// Whether the database accepts the change on schema `s`: a new table must
/// not exist yet and must have a column; a table to drop must exist; a new
/// column must not exist yet in its table; a column to drop must exist and
/// must not be the table's last.
pub open spec fn change_applies(s: Schema, change: SchemaChange) -> bool {
    match change {
        SchemaChange::CreateTable { table, columns } => !s.dom().contains(table) && columns.len() > 0,
        SchemaChange::DropTable { table } => s.dom().contains(table),
        SchemaChange::AddColumn { table, column, definition } =>
            s.dom().contains(table) && !s[table].contains(column),
        SchemaChange::DropColumn { table, column } => {
            &&& s.dom().contains(table)
            &&& s[table].contains(column)
            &&& exists|other: Seq<char>| s[table].contains(other) && other != column
        },
    }
}

/// The schema after the change.
pub open spec fn apply_change(s: Schema, change: SchemaChange) -> Schema {
    match change {
        SchemaChange::CreateTable { table, columns } => s.insert(table, column_names(columns)),
        SchemaChange::DropTable { table } => s.remove(table),
        SchemaChange::AddColumn { table, column, definition } => s.insert(table, s[table].insert(column)),
        SchemaChange::DropColumn { table, column } => s.insert(table, s[table].remove(column)),
    }
}

/// A column of a new table as SQL writes it: its name, then its definition.
pub open spec fn column_sql(c: (Seq<char>, Seq<char>)) -> Seq<char> {
    c.0 + " "@ + c.1
}

/// The SQL statement that makes the change.
pub open spec fn change_sql(change: SchemaChange) -> Seq<char> {
    match change {
        SchemaChange::CreateTable { table, columns } =>
            "CREATE TABLE "@ + table + " ("@ + join(columns.map_values(|c: (Seq<char>, Seq<char>)| column_sql(c)), ", "@)
                + ");"@,
        SchemaChange::DropTable { table } => "DROP TABLE "@ + table + ";"@,
        SchemaChange::AddColumn { table, column, definition } =>
            "ALTER TABLE "@ + table + " ADD COLUMN "@ + column + " "@ + definition + ";"@,
        SchemaChange::DropColumn { table, column } =>
            "ALTER TABLE "@ + table + " DROP COLUMN "@ + column + ";"@,
    }
}

/// The changes of each migration, in order: the change that goes up to its
/// version and the one that comes back down from it. Version 1 makes the
/// `persons` table; version 2 gives it a `state` column.
pub open spec fn schema_changes() -> Seq<(SchemaChange, SchemaChange)> {
    seq![
        (
            SchemaChange::CreateTable {
                table: "persons"@,
                columns: seq![
                    ("id"@, "INTEGER PRIMARY KEY NOT NULL"@),
                    ("name"@, "TEXT NOT NULL"@),
                    ("age"@, "INTEGER NOT NULL"@),
                ],
            },
            SchemaChange::DropTable { table: "persons"@ },
        ),
        (
            SchemaChange::AddColumn { table: "persons"@, column: "state"@, definition: "TEXT NOT NULL DEFAULT ''"@ },
            SchemaChange::DropColumn { table: "persons"@, column: "state"@ },
        ),
    ]
}

/// The SQL of each migration, in order: the statement that goes up to its
/// version and the one that comes back down from it.
pub open spec fn schema_scripts() -> Seq<(Seq<char>, Seq<char>)> {
    schema_changes().map_values(|p: (SchemaChange, SchemaChange)| (change_sql(p.0), change_sql(p.1)))
}

/// The schema of a database at version `k`: the upward changes of the first
/// `k` migrations, made in order on an empty database.
pub open spec fn schema_at(k: nat) -> Schema
    decreases k,
{
    if k == 0 {
        Map::empty()
    } else {
        apply_change(schema_at((k - 1) as nat), schema_changes()[k - 1].0)
    }
}

/// Each migration's downward change undoes its upward one: on any schema
/// that accepts the upward change and whose tables all have a column, the
/// downward change is then accepted and gives the schema back as it was.
pub proof fn lemma_down_undoes_up(i: int, s: Schema)
    requires
        0 <= i < schema_changes().len(),
        schema_well_formed(s),
        change_applies(s, schema_changes()[i].0),
    ensures
        change_applies(apply_change(s, schema_changes()[i].0), schema_changes()[i].1),
        apply_change(apply_change(s, schema_changes()[i].0), schema_changes()[i].1) == s,
{
    let up = schema_changes()[i].0;
    let after = apply_change(s, up);
    if i == 0 {
        assert(after.remove("persons"@) =~= s);
    } else {
        let t = "persons"@;
        assert(s.dom().contains(t));
        let c = choose|c: Seq<char>| s[t].contains(c);
        assert(after[t].contains(c) && c != "state"@);
        assert(after[t].remove("state"@) =~= s[t]);
        assert(after.insert(t, after[t].remove("state"@)) =~= s);
    }
}

/// The migrations can be followed in both directions from any version: at
/// each version below the highest the next upward change is accepted, and
/// at each version above 0 the downward change of its migration is accepted
/// and leads back to the schema of the version below.
pub proof fn lemma_versions_connected(k: nat)
    requires
        k < MAX_VERSION,
    ensures
        schema_changes().len() == MAX_VERSION,
        schema_well_formed(schema_at(k)),
        change_applies(schema_at(k), schema_changes()[k as int].0),
        change_applies(schema_at(k + 1), schema_changes()[k as int].1),
        apply_change(schema_at(k + 1), schema_changes()[k as int].1) == schema_at(k),
{
    reveal_with_fuel(schema_at, 3);
    lemma_persons_columns(1);
    let s0 = schema_at(0);
    let s1 = schema_at(1);
    assert forall|t: Seq<char>| #[trigger] s1.dom().contains(t) implies exists|c: Seq<char>| s1[t].contains(c) by {
        assert(s1[t].contains("id"@));
    }
    if k == 0 {
        lemma_down_undoes_up(0, s0);
    } else {
        lemma_down_undoes_up(1, s1);
    }
}

/// From version 1 on the database has the `persons` table, with an `id`
/// column; it has a `state` column exactly from version 2 on.
pub proof fn lemma_persons_columns(k: nat)
    requires
        1 <= k <= MAX_VERSION,
    ensures
        schema_at(k).dom().contains("persons"@),
        schema_at(k)["persons"@].contains("id"@),
        schema_at(k)["persons"@].contains("state"@) <==> k >= 2,
{
    reveal_with_fuel(schema_at, 3);
    reveal_strlit("id");
    reveal_strlit("name");
    reveal_strlit("age");
    reveal_strlit("state");
    let cols = seq![
        ("id"@, "INTEGER PRIMARY KEY NOT NULL"@),
        ("name"@, "TEXT NOT NULL"@),
        ("age"@, "INTEGER NOT NULL"@),
    ];
    let names = cols.map_values(|c: (Seq<char>, Seq<char>)| c.0);
    assert(names =~= seq!["id"@, "name"@, "age"@]);
    assert(names[0] == "id"@);
    assert(column_names(cols).contains("id"@));
    assert(!column_names(cols).contains("state"@)) by {
        if names.to_set().contains("state"@) {
            let j = choose|j: int| 0 <= j < names.len() && names[j] == "state"@;
            assert(names[j] =~= "state"@);
        }
    }
    assert(schema_at(1) == Map::<Seq<char>, Set<Seq<char>>>::empty().insert("persons"@, column_names(cols)));
}

/// The SQL of each migration: the statement that goes up to the version and
/// the one that comes back down from it, in order (see `schema_scripts`).
pub fn migration_scripts() -> (scripts: Vec<(&'static str, &'static str)>)
    ensures
        scripts.len() == MAX_VERSION,
        scripts@.map_values(|p: (&'static str, &'static str)| (p.0@, p.1@)) == schema_scripts(),
{
    let mut scripts = Vec::new();
    scripts.push((
        "CREATE TABLE persons (id INTEGER PRIMARY KEY NOT NULL, name TEXT NOT NULL, age INTEGER NOT NULL);",
        "DROP TABLE persons;",
    ));
    scripts.push((
        "ALTER TABLE persons ADD COLUMN state TEXT NOT NULL DEFAULT '';",
        "ALTER TABLE persons DROP COLUMN state;",
    ));
    proof {
        reveal_strlit("CREATE TABLE persons (id INTEGER PRIMARY KEY NOT NULL, name TEXT NOT NULL, age INTEGER NOT NULL);");
        reveal_strlit("DROP TABLE persons;");
        reveal_strlit("ALTER TABLE persons ADD COLUMN state TEXT NOT NULL DEFAULT '';");
        reveal_strlit("ALTER TABLE persons DROP COLUMN state;");
        reveal_strlit("CREATE TABLE ");
        reveal_strlit(" (");
        reveal_strlit(", ");
        reveal_strlit(");");
        reveal_strlit(" ");
        reveal_strlit("DROP TABLE ");
        reveal_strlit(";");
        reveal_strlit("ALTER TABLE ");
        reveal_strlit(" ADD COLUMN ");
        reveal_strlit(" DROP COLUMN ");
        reveal_strlit("persons");
        reveal_strlit("id");
        reveal_strlit("INTEGER PRIMARY KEY NOT NULL");
        reveal_strlit("name");
        reveal_strlit("TEXT NOT NULL");
        reveal_strlit("age");
        reveal_strlit("INTEGER NOT NULL");
        reveal_strlit("state");
        reveal_strlit("TEXT NOT NULL DEFAULT ''");
        reveal_with_fuel(join, 3);
        let cols = seq![
            ("id"@, "INTEGER PRIMARY KEY NOT NULL"@),
            ("name"@, "TEXT NOT NULL"@),
            ("age"@, "INTEGER NOT NULL"@),
        ];
        let sqls = cols.map_values(|c: (Seq<char>, Seq<char>)| column_sql(c));
        assert(sqls =~= seq![column_sql(cols[0]), column_sql(cols[1]), column_sql(cols[2])]);
        assert(sqls.drop_last() =~= seq![column_sql(cols[0]), column_sql(cols[1])]);
        assert(sqls.drop_last().drop_last() =~= seq![column_sql(cols[0])]);
        assert(change_sql(schema_changes()[0].0) =~= scripts@[0].0@);
        assert(change_sql(schema_changes()[0].1) =~= scripts@[0].1@);
        assert(change_sql(schema_changes()[1].0) =~= scripts@[1].0@);
        assert(change_sql(schema_changes()[1].1) =~= scripts@[1].1@);
    }
    assert(scripts@.map_values(|p: (&'static str, &'static str)| (p.0@, p.1@)) =~= schema_scripts());
    scripts
}

#[verifier::external_type_specification]
#[verifier::external_body]
pub struct ExMigrationStep<'u>(M<'u>);

#[verifier::external_type_specification]
#[verifier::external_body]
pub struct ExMigrationSet<'m>(Migrations<'m>);

/// The SQL that a migration step holds: its upward statement, and its
/// downward statement where it has one.
pub uninterp spec fn step_sql(step: M<'static>) -> (Seq<char>, Option<Seq<char>>);

/// The SQL of the steps that a set of migrations holds, in order.
pub uninterp spec fn set_steps(set: Migrations<'static>) -> Seq<(Seq<char>, Option<Seq<char>>)>;

/// `rusqlite_migration::M::up`: a step whose upward statement is `sql` and
/// which has no downward statement (the source sets `up` to `sql` and `down`
/// to `None`). Its hooks, comment and foreign-key flag are not stated.
#[verifier::external_body]
fn migration_up(sql: &'static str) -> (step: M<'static>)
    ensures
        step_sql(step) == (sql@, None::<Seq<char>>),
{
    M::up(sql)
}

/// `rusqlite_migration::M::down`: `step` with `sql` as its downward
/// statement (the source sets `down` to `Some(sql)` and keeps the rest).
#[verifier::external_body]
fn migration_down(step: M<'static>, sql: &'static str) -> (with_down: M<'static>)
    ensures
        step_sql(with_down) == (step_sql(step).0, Some(sql@)),
{
    step.down(sql)
}

/// `rusqlite_migration::Migrations::new`: the set that holds `steps`, in
/// their order (the source stores the vector as it is).
#[verifier::external_body]
fn migration_set(steps: Vec<M<'static>>) -> (set: Migrations<'static>)
    ensures
        set_steps(set) == steps@.map_values(|step: M<'static>| step_sql(step)),
{
    Migrations::new(steps)
}

/// The steps that the schema's migrations hold: each script of
/// `schema_scripts`, with both its statements.
pub open spec fn schema_steps() -> Seq<(Seq<char>, Option<Seq<char>>)> {
    schema_scripts().map_values(|p: (Seq<char>, Seq<char>)| (p.0, Some(p.1)))
}

/// The migrations of the database schema: one step for each script of
/// `migration_scripts`, in order, going up and down by its two statements.
pub fn migrations() -> (set: Migrations<'static>)
    ensures
        set_steps(set) == schema_steps(),
{
    let scripts = migration_scripts();
    let ghost views = scripts@.map_values(|p: (&'static str, &'static str)| (p.0@, p.1@));
    let mut steps: Vec<M<'static>> = Vec::new();
    let mut i: usize = 0;
    while i < scripts.len()
        invariant
            i <= scripts.len(),
            views == scripts@.map_values(|p: (&'static str, &'static str)| (p.0@, p.1@)),
            views == schema_scripts(),
            steps.len() == i,
            forall|j: int| 0 <= j < i ==> #[trigger] step_sql(steps@[j]) == (views[j].0, Some(views[j].1)),
        decreases scripts.len() - i,
    {
        let (up, down) = scripts[i];
        steps.push(migration_down(migration_up(up), down));
        i = i + 1;
    }
    let set = migration_set(steps);
    assert(steps@.map_values(|step: M<'static>| step_sql(step)) =~= schema_steps());
    set
}

} // verus!
