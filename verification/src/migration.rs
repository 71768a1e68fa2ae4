use vstd::prelude::*;

verus! {

/// Direction of a schema migration: `Up` evolves the schema forward,
/// `Down` rolls it back. Only forward migrations are declared here.
#[derive(Clone, Copy, Debug, PartialEq, Eq, Structural)]
pub enum MigrationKind {
    Up,
    Down,
}

/// A versioned, named unit of SQL applied once to evolve a database schema.
///
/// A record is built once at startup and handed by value to the persistence
/// plugin's migration runner, which tracks which versions have already been
/// applied; this crate never mutates or inspects it afterwards.
#[derive(Clone, Copy, Debug)]
pub struct Migration {
    /// Monotonically increasing schema version identifier.
    pub version: i64,
    /// Human-readable label for the migration.
    pub description: &'static str,
    /// Raw SQL statements to execute.
    pub sql: &'static str,
    /// Direction of the migration.
    pub kind: MigrationKind,
}

impl Migration {
    /// A record is well formed when its version is positive and it
    /// carries some SQL text.
    pub open spec fn wf(self) -> bool {
        &&& self.version >= 1
        &&& self.sql@.len() > 0
    }
}

/// The versions of a migration list are strictly increasing: the runner
/// applies them in order, each exactly once.
pub open spec fn versions_increasing(ms: Seq<Migration>) -> bool {
    forall|i: int, j: int| 0 <= i < j < ms.len() ==> ms[i].version < ms[j].version
}

/// The one migration this shell declares: version 2, forward only,
/// creating the initial tables from the given SQL text.
pub fn initial_migration(sql: &'static str) -> (m: Migration)
    requires
        sql@.len() > 0,
    ensures
        m.version == 2,
        m.kind == MigrationKind::Up,
        m.description@ == "create_initial_tables"@,
        m.sql@ == sql@,
        m.wf(),
{
    Migration {
        version: 2,
        description: "create_initial_tables",
        sql,
        kind: MigrationKind::Up,
    }
}

/// The full migration list handed to the persistence plugin at startup:
/// exactly the one initial migration, so the list is trivially well formed
/// and its versions strictly increasing.
pub fn initial_migrations(sql: &'static str) -> (ms: Vec<Migration>)
    requires
        sql@.len() > 0,
    ensures
        ms@.len() == 1,
        ms@[0].version == 2,
        ms@[0].kind == MigrationKind::Up,
        ms@[0].description@ == "create_initial_tables"@,
        ms@[0].sql@ == sql@,
        forall|i: int| 0 <= i < ms@.len() ==> ms@[i].wf(),
        versions_increasing(ms@),
{
    let m = initial_migration(sql);
    let mut ms: Vec<Migration> = Vec::new();
    ms.push(m);
    ms
}

} // verus!
