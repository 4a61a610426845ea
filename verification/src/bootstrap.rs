//! The decision core of the database bootstrap.
//!
//! Bootstrap runs once at startup as a strict sequence: probe the target
//! URI; when the probe fails, create the database server-side; open the
//! shared pool; when — and only when — the operator set the clean-start
//! flag, reset the schema destructively; when a migration directory is
//! configured, run the migrations; then hand the connection over. The
//! network work lives with the caller; this module decides, step by step,
//! which action comes next, and builds the statement texts each action
//! needs. Any reported fault aborts the whole sequence: there is no
//! partial-success state.

use vstd::prelude::*;

use crate::dialect::DatabaseScheme;
use crate::schema::SchemaManager;
use crate::sql::spec_rewrite;
use crate::text::{push_char, to_chars};

verus! {

/// The stations of the bootstrap sequence, in the order travelled.
/// `Creating` is skipped when the probe succeeds; `Resetting` and
/// `Migrating` are optional; `Failed` absorbs any reported fault.
#[derive(Clone, Copy, Debug, PartialEq, Eq, Structural)]
pub enum BootstrapState {
    Probing,
    Creating,
    Connected,
    Resetting,
    Migrating,
    Ready,
    Failed,
}

/// What the environment reports after carrying out the last action.
#[derive(Clone, Copy, Debug, PartialEq, Eq, Structural)]
pub enum BootstrapEvent {
    ProbeSucceeded,
    ProbeFailed,
    DatabaseCreated,
    PoolOpened,
    ResetApplied,
    MigrationsApplied,
    Failed,
}

/// What the caller must do next. `Abort` means startup has failed and the
/// process must not serve traffic.
#[derive(Clone, Copy, Debug, PartialEq, Eq, Structural)]
pub enum BootstrapAction {
    Probe,
    CreateDatabase,
    OpenPool,
    RunReset,
    RunMigrations,
    Done,
    Abort,
}

/// The transition table: from a state and the event answering its action,
/// the next state and the next action. A probe failure is read as "the
/// database does not exist yet" and routes to creation; a mismatched or
/// failing event aborts. No transition leads back to `Probing`, so
/// database creation can only ever be asked for by the very first step.
pub open spec fn spec_bootstrap_step(
    state: BootstrapState,
    event: BootstrapEvent,
    clean_start: bool,
    migrate: bool,
) -> (BootstrapState, BootstrapAction) {
    match (state, event) {
        (BootstrapState::Probing, BootstrapEvent::ProbeSucceeded) => (
            BootstrapState::Connected,
            BootstrapAction::OpenPool,
        ),
        (BootstrapState::Probing, BootstrapEvent::ProbeFailed) => (
            BootstrapState::Creating,
            BootstrapAction::CreateDatabase,
        ),
        (BootstrapState::Creating, BootstrapEvent::DatabaseCreated) => (
            BootstrapState::Connected,
            BootstrapAction::OpenPool,
        ),
        (BootstrapState::Connected, BootstrapEvent::PoolOpened) => if clean_start {
            (BootstrapState::Resetting, BootstrapAction::RunReset)
        } else if migrate {
            (BootstrapState::Migrating, BootstrapAction::RunMigrations)
        } else {
            (BootstrapState::Ready, BootstrapAction::Done)
        },
        (BootstrapState::Resetting, BootstrapEvent::ResetApplied) => if migrate {
            (BootstrapState::Migrating, BootstrapAction::RunMigrations)
        } else {
            (BootstrapState::Ready, BootstrapAction::Done)
        },
        (BootstrapState::Migrating, BootstrapEvent::MigrationsApplied) => (
            BootstrapState::Ready,
            BootstrapAction::Done,
        ),
        _ => (BootstrapState::Failed, BootstrapAction::Abort),
    }
}

/// Where a bootstrap run starts: probing the full target URI.
pub fn bootstrap_start() -> (r: (BootstrapState, BootstrapAction))
    ensures
        r.0 == BootstrapState::Probing,
        r.1 == BootstrapAction::Probe,
{
    (BootstrapState::Probing, BootstrapAction::Probe)
}

/// Advance the bootstrap by one step. Beyond following the transition
/// table exactly, two guarantees gate the delicate paths: creation is only
/// ever asked for when the first probe failed, and the destructive reset
/// is never asked for unless the operator set `clean_start`.
pub fn bootstrap_step(
    state: &BootstrapState,
    event: &BootstrapEvent,
    clean_start: bool,
    migrate: bool,
) -> (r: (BootstrapState, BootstrapAction))
    ensures
        r == spec_bootstrap_step(*state, *event, clean_start, migrate),
        r.1 == BootstrapAction::CreateDatabase ==> *state == BootstrapState::Probing && *event
            == BootstrapEvent::ProbeFailed,
        !clean_start ==> r.1 != BootstrapAction::RunReset,
        r.0 != BootstrapState::Probing,
{
    match (state, event) {
        (BootstrapState::Probing, BootstrapEvent::ProbeSucceeded) => (
            BootstrapState::Connected,
            BootstrapAction::OpenPool,
        ),
        (BootstrapState::Probing, BootstrapEvent::ProbeFailed) => (
            BootstrapState::Creating,
            BootstrapAction::CreateDatabase,
        ),
        (BootstrapState::Creating, BootstrapEvent::DatabaseCreated) => (
            BootstrapState::Connected,
            BootstrapAction::OpenPool,
        ),
        (BootstrapState::Connected, BootstrapEvent::PoolOpened) => if clean_start {
            (BootstrapState::Resetting, BootstrapAction::RunReset)
        } else if migrate {
            (BootstrapState::Migrating, BootstrapAction::RunMigrations)
        } else {
            (BootstrapState::Ready, BootstrapAction::Done)
        },
        (BootstrapState::Resetting, BootstrapEvent::ResetApplied) => if migrate {
            (BootstrapState::Migrating, BootstrapAction::RunMigrations)
        } else {
            (BootstrapState::Ready, BootstrapAction::Done)
        },
        (BootstrapState::Migrating, BootstrapEvent::MigrationsApplied) => (
            BootstrapState::Ready,
            BootstrapAction::Done,
        ),
        _ => (BootstrapState::Failed, BootstrapAction::Abort),
    }
}

/// The actions a run asks for from `state` on, one per event consumed.
pub open spec fn actions_from(
    state: BootstrapState,
    events: Seq<BootstrapEvent>,
    clean_start: bool,
    migrate: bool,
) -> Seq<BootstrapAction>
    decreases events.len(),
{
    if events.len() == 0 {
        Seq::empty()
    } else {
        let step = spec_bootstrap_step(state, events[0], clean_start, migrate);
        seq![step.1] + actions_from(step.0, events.drop_first(), clean_start, migrate)
    }
}

/// A run consumes its events one for one: one action per event.
proof fn lemma_actions_from_len(
    state: BootstrapState,
    events: Seq<BootstrapEvent>,
    clean_start: bool,
    migrate: bool,
)
    ensures
        actions_from(state, events, clean_start, migrate).len() == events.len(),
    decreases events.len(),
{
    if events.len() > 0 {
        let step = spec_bootstrap_step(state, events[0], clean_start, migrate);
        lemma_actions_from_len(step.0, events.drop_first(), clean_start, migrate);
    }
}

/// From any state other than `Probing`, no run — whatever its events —
/// ever asks for database creation: the table never leads back to
/// `Probing`, the only state that can demand it.
proof fn lemma_no_create_from(
    state: BootstrapState,
    events: Seq<BootstrapEvent>,
    clean_start: bool,
    migrate: bool,
)
    requires
        state != BootstrapState::Probing,
    ensures
        forall|i: int|
            0 <= i < events.len() ==> actions_from(state, events, clean_start, migrate)[i]
                != BootstrapAction::CreateDatabase,
    decreases events.len(),
{
    lemma_actions_from_len(state, events, clean_start, migrate);
    if events.len() > 0 {
        let step = spec_bootstrap_step(state, events[0], clean_start, migrate);
        let rest = events.drop_first();
        lemma_no_create_from(step.0, rest, clean_start, migrate);
        lemma_actions_from_len(step.0, rest, clean_start, migrate);
        assert forall|i: int|
            0 <= i < events.len() implies actions_from(state, events, clean_start, migrate)[i]
            != BootstrapAction::CreateDatabase by {
            if i > 0 {
                assert(actions_from(state, events, clean_start, migrate)[i] == actions_from(
                    step.0,
                    rest,
                    clean_start,
                    migrate,
                )[i - 1]);
            }
        }
    }
}

/// Bootstrap idempotence: when the first probe succeeds — the target is
/// already provisioned — no later step of the run asks for CREATE
/// DATABASE, whatever the remaining events are.
pub proof fn lemma_probe_success_never_creates(
    events: Seq<BootstrapEvent>,
    clean_start: bool,
    migrate: bool,
)
    requires
        events.len() > 0,
        events[0] == BootstrapEvent::ProbeSucceeded,
    ensures
        forall|i: int|
            0 <= i < events.len() ==> actions_from(
                BootstrapState::Probing,
                events,
                clean_start,
                migrate,
            )[i] != BootstrapAction::CreateDatabase,
{
    let step = spec_bootstrap_step(BootstrapState::Probing, events[0], clean_start, migrate);
    let rest = events.drop_first();
    lemma_no_create_from(step.0, rest, clean_start, migrate);
    lemma_actions_from_len(step.0, rest, clean_start, migrate);
    assert forall|i: int|
        0 <= i < events.len() implies actions_from(
        BootstrapState::Probing,
        events,
        clean_start,
        migrate,
    )[i] != BootstrapAction::CreateDatabase by {
        if i > 0 {
            assert(actions_from(BootstrapState::Probing, events, clean_start, migrate)[i]
                == actions_from(step.0, rest, clean_start, migrate)[i - 1]);
        }
    }
}

/// Destructive-path gating: with `clean_start` off, no run of the
/// bootstrap — from any state, whatever its events — ever asks for the
/// schema reset, so no DROP or CREATE TABLE statement is ever issued.
pub proof fn lemma_no_reset_without_clean_start(
    state: BootstrapState,
    events: Seq<BootstrapEvent>,
    migrate: bool,
)
    ensures
        forall|i: int|
            0 <= i < events.len() ==> actions_from(state, events, false, migrate)[i]
                != BootstrapAction::RunReset,
    decreases events.len(),
{
    lemma_actions_from_len(state, events, false, migrate);
    if events.len() > 0 {
        let step = spec_bootstrap_step(state, events[0], false, migrate);
        let rest = events.drop_first();
        lemma_no_reset_without_clean_start(step.0, rest, migrate);
        lemma_actions_from_len(step.0, rest, false, migrate);
        assert forall|i: int|
            0 <= i < events.len() implies actions_from(state, events, false, migrate)[i]
            != BootstrapAction::RunReset by {
            if i > 0 {
                assert(actions_from(state, events, false, migrate)[i] == actions_from(
                    step.0,
                    rest,
                    false,
                    migrate,
                )[i - 1]);
            }
        }
    }
}

/// Greatest index below `i` holding `/`, or `-1` when there is none.
pub open spec fn last_slash_before(s: Seq<char>, i: int) -> int
    decreases i,
{
    if i <= 0 {
        -1
    } else if s[i - 1] == '/' {
        i - 1
    } else {
        last_slash_before(s, i - 1)
    }
}

/// The two pieces of the CREATE DATABASE path for a target URI: the URI up
/// to its last `/`, which addresses the server without a database, and the
/// statement `CREATE DATABASE <name>` built from what follows. `None` when
/// the URI holds no `/` at all, so no database name can be cut off.
pub fn create_database_parts(db_uri: &str) -> (r: Option<(String, String)>)
    ensures
        match r {
            Some(parts) => {
                let cut = last_slash_before(db_uri@, db_uri@.len() as int);
                &&& 0 <= cut < db_uri@.len()
                &&& parts.0@ == db_uri@.take(cut)
                &&& parts.1@ == "CREATE DATABASE "@ + db_uri@.skip(cut + 1)
            },
            None => last_slash_before(db_uri@, db_uri@.len() as int) == -1,
        },
{
    let cs = to_chars(db_uri);
    let mut i: usize = cs.len();
    while i > 0
        invariant
            i <= cs@.len(),
            cs@ == db_uri@,
            last_slash_before(cs@, cs@.len() as int) == last_slash_before(cs@, i as int),
        decreases i,
    {
        if cs[i - 1] == '/' {
            let cut = i - 1;
            let mut base = String::new();
            let mut j: usize = 0;
            while j < cut
                invariant
                    j <= cut,
                    cut < cs@.len(),
                    base@ == cs@.take(j as int),
                decreases cut - j,
            {
                push_char(&mut base, cs[j]);
                proof {
                    assert(cs@.take(j + 1 as int) =~= cs@.take(j as int).push(cs@[j as int]));
                }
                j = j + 1;
            }
            let mut stmt = "CREATE DATABASE ".to_owned();
            let mut k: usize = cut + 1;
            while k < cs.len()
                invariant
                    cut + 1 <= k <= cs@.len(),
                    stmt@ == "CREATE DATABASE "@ + cs@.subrange(cut + 1 as int, k as int),
                decreases cs@.len() - k,
            {
                push_char(&mut stmt, cs[k]);
                proof {
                    assert(cs@.subrange(cut + 1 as int, k + 1 as int) =~= cs@.subrange(
                        cut + 1 as int,
                        k as int,
                    ).push(cs@[k as int]));
                    assert(("CREATE DATABASE "@ + cs@.subrange(cut + 1 as int, k as int)).push(
                        cs@[k as int],
                    ) =~= "CREATE DATABASE "@ + cs@.subrange(cut + 1 as int, k + 1 as int));
                }
                k = k + 1;
            }
            proof {
                assert(cs@.subrange(cut + 1 as int, cs@.len() as int) =~= cs@.skip(cut + 1));
            }
            return Some((base, stmt));
        }
        i = i - 1;
    }
    None
}

/// The clean-boot statement sequence. Without the operator's clean-start
/// flag it is empty: no DROP or CREATE TABLE text exists at all. With the
/// flag: first drop the migration bookkeeping table, then the manager's
/// disposal statements — dependents before what they depend on — then its
/// creation statements in dependency order, translated for `scheme`.
pub fn reset_statements(
    manager: &SchemaManager,
    scheme: &DatabaseScheme,
    clean_start: bool,
) -> (r: Vec<String>)
    ensures
        !clean_start ==> r@.len() == 0,
        clean_start ==> {
            let n = manager@.len();
            &&& r@.len() == 1 + 2 * n
            &&& r@[0]@ == "DROP TABLE IF EXISTS _sqlx_migrations"@
            &&& forall|i: int| 0 <= i < n ==> r@[1 + i]@ == #[trigger] manager@[n - 1 - i].dispose_sql@
            &&& forall|i: int|
                0 <= i < n ==> r@[1 + n + i]@ == spec_rewrite(
                    *scheme,
                    #[trigger] manager@[i].create_sql@,
                )
        },
{
    let mut r: Vec<String> = Vec::new();
    if clean_start {
        r.push("DROP TABLE IF EXISTS _sqlx_migrations".to_owned());
        let mut dispose = manager.dispose_schema();
        let mut create = manager.create_schema(scheme);
        r.append(&mut dispose);
        r.append(&mut create);
    }
    r
}

} // verus!
