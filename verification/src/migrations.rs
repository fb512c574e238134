//! The migration declarer: the ordered list of schema migrations that the
//! storage layer applies at startup.
//!
//! A migration descriptor carries a positive version number, a human-readable
//! description, the raw SQL text of the change, and a direction. The declared
//! sequence must have strictly increasing versions: the storage layer applies
//! unapplied migrations in order and tracks the highest applied version.
//!
//! The SQL text of the initial migration is embedded in the application at
//! build time; the declarer receives it verbatim as an argument and performs
//! no validation on it, so an empty resource yields an empty SQL field.

use vstd::prelude::*;

verus! {

/// The direction of a schema migration. Only forward migrations are declared
/// in the current scope.
#[derive(Clone, Copy, Debug, PartialEq, Eq, Structural)]
pub enum MigrationKind {
    Up,
    Down,
}

/// A single schema-migration descriptor, built once at startup and handed to
/// the storage layer unchanged.
#[derive(Clone, Debug, PartialEq, Eq)]
pub struct Migration {
    pub version: i64,
    pub description: String,
    pub sql: String,
    pub kind: MigrationKind,
}

/// Two descriptors are structurally equal: same version, same description
/// text, same SQL text, same direction.
pub open spec fn migration_eq(a: Migration, b: Migration) -> bool {
    &&& a.version == b.version
    &&& a.description@ == b.description@
    &&& a.sql@ == b.sql@
    &&& a.kind == b.kind
}

/// The descriptor of the initial migration for the given embedded SQL text:
/// version 1, fixed description, the SQL verbatim, forward direction.
pub open spec fn is_initial_migration(m: Migration, sql: Seq<char>) -> bool {
    &&& m.version == 1
    &&& m.description@ == "create tables"@
    &&& m.sql@ == sql
    &&& m.kind == MigrationKind::Up
}

/// The declared migration list for the current schema: exactly one element,
/// the initial migration carrying the given SQL text.
pub open spec fn is_declared_list(ms: Seq<Migration>, sql: Seq<char>) -> bool {
    &&& ms.len() == 1
    &&& is_initial_migration(ms[0], sql)
}

/// Versions in a migration sequence are strictly increasing (hence unique):
/// the storage layer relies on this to apply them in order.
pub open spec fn versions_strictly_increasing(ms: Seq<Migration>) -> bool {
    forall|i: int, j: int|
        0 <= i < j < ms.len() ==> #[trigger] ms[i].version < #[trigger] ms[j].version
}

/// Produces the ordered migration list for the current schema.
///
/// `sql` is the verbatim content of the embedded SQL resource for the initial
/// migration. The result is the fixed single-element list: version 1, the
/// description `create tables`, the SQL unchanged, forward direction. No
/// validation is performed on the SQL text: an empty resource yields an
/// empty SQL field.
pub fn get_migrations(sql: String) -> (r: Vec<Migration>)
    ensures
        is_declared_list(r@, sql@),
        versions_strictly_increasing(r@),
        sql@.len() == 0 ==> r@[0].sql@.len() == 0,
{
    let m = Migration {
        version: 1,
        description: "create tables".to_owned(),
        sql,
        kind: MigrationKind::Up,
    };
    let mut r: Vec<Migration> = Vec::new();
    r.push(m);
    r
}

/// The declarer is pure: any two lists that satisfy the declarer's contract
/// for the same embedded SQL text are structurally equal, element by element.
pub proof fn lemma_declarer_pure(a: Seq<Migration>, b: Seq<Migration>, sql: Seq<char>)
    requires
        is_declared_list(a, sql),
        is_declared_list(b, sql),
    ensures
        a.len() == b.len(),
        forall|i: int| 0 <= i < a.len() ==> migration_eq(#[trigger] a[i], b[i]),
{
}

} // verus!
