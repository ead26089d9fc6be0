//! Schema migration decisions of the store: which migration steps run for
//! the version found in `schema_meta`, and whether schema v2 still has to
//! add the account columns.

use vstd::prelude::*;

verus! {

/// The schema version that the store is brought to.
pub const CURRENT_SCHEMA_VERSION: i64 = 2;

/// The steps that opening the store runs.
#[derive(Debug, Clone, Copy, PartialEq, Eq, Structural)]
pub struct MigrationPlan {
    /// Create the v1 schema (tables, `schema_meta`).
    pub apply_v1: bool,
    /// Run the v2 migration (account columns, then version 2).
    pub apply_v2: bool,
}

/// The version that the store holds: the one read from `schema_meta`, or 0
/// where that table holds no row.
pub open spec fn stored_version(read: Option<i64>) -> int {
    match read {
        Some(v) => v as int,
        None => 0,
    }
}

/// The plan for a store whose `schema_meta` gave `read`.
pub open spec fn plan_spec(read: Option<i64>) -> MigrationPlan {
    MigrationPlan {
        apply_v1: stored_version(read) < 1,
        apply_v2: stored_version(read) < 2,
    }
}

/// The version that `schema_meta` holds once the plan for `read` has run.
pub open spec fn version_after(read: Option<i64>) -> int {
    if plan_spec(read).apply_v2 {
        CURRENT_SCHEMA_VERSION as int
    } else {
        stored_version(read)
    }
}

/// Which steps opening the store runs, given the version read from
/// `schema_meta` (`None` where it holds no row).
pub fn migration_plan(read: Option<i64>) -> (plan: MigrationPlan)
    ensures
        plan == plan_spec(read),
{
    let version: i64 = match read {
        Some(v) => v,
        None => 0,
    };
    MigrationPlan { apply_v1: version < 1, apply_v2: version < 2 }
}

/// Whether the v2 migration must add the account columns (`password_hash`,
/// `email`, `must_change_password`, `kill_switch_hash`), given how many
/// columns named `password_hash` the `user` table has.
pub fn password_columns_needed(password_hash_columns: i64) -> (needed: bool)
    ensures
        needed == (password_hash_columns == 0),
{
    password_hash_columns == 0
}

/// Migrating brings every store to version 2 at least, and a store that was
/// migrated needs no further step: opening it again runs nothing.
pub proof fn lemma_migration_idempotent(read: Option<i64>)
    ensures
        version_after(read) >= CURRENT_SCHEMA_VERSION,
        version_after(read) == stored_version(read) || version_after(read) == CURRENT_SCHEMA_VERSION,
        ({
            let again = plan_spec(Some(version_after(read) as i64));
            !again.apply_v1 && !again.apply_v2
        }),
{
}

} // verus!
