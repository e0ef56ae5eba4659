use vstd::prelude::*;
use vstd::string::*;

verus! {

/// Why startup stopped. Each is fatal: the process exits before serving.
#[derive(PartialEq, Eq, Structural, Clone, Copy, Debug)]
pub enum StartupError {
    /// A required setting is absent.
    Configuration,
    /// The pool could not reach the store.
    Connection,
    /// The schema migration failed.
    Migration,
    /// The listener could not bind its address.
    Bind,
}

/// The diagnostic printed when startup stops with `e`.
pub open spec fn message_of(e: StartupError) -> Seq<char> {
    match e {
        StartupError::Configuration => "DB_PASSWORD must be set"@,
        StartupError::Connection => "Failed to connect to database"@,
        StartupError::Migration => "Failed to run migrations"@,
        StartupError::Bind => "Failed to bind address"@,
    }
}

impl StartupError {
    /// The diagnostic for this error.
    pub fn message(&self) -> (r: String)
        ensures
            r@ == message_of(*self),
    {
        match self {
            StartupError::Configuration => String::from_str("DB_PASSWORD must be set"),
            StartupError::Connection => String::from_str("Failed to connect to database"),
            StartupError::Migration => String::from_str("Failed to run migrations"),
            StartupError::Bind => String::from_str("Failed to bind address"),
        }
    }
}

/// Where the process stands in its startup sequence.
#[derive(PartialEq, Eq, Structural, Clone, Copy, Debug)]
pub enum Phase {
    Unconfigured,
    PoolInitializing,
    Migrating,
    Binding,
    Serving,
    Terminated(StartupError),
}

/// What the process does next.
#[derive(PartialEq, Eq, Structural, Clone, Copy, Debug)]
pub enum Action {
    ConnectPool,
    RunMigrations,
    BindListener,
    Serve,
    Exit(StartupError),
}

/// One step of the sequence: `ok` says whether the work of `phase`
/// succeeded (resolving the configuration, opening the pool, migrating,
/// binding). Success moves one phase forward; failure terminates for good.
pub open spec fn transition(phase: Phase, ok: bool) -> (Phase, Action) {
    match phase {
        Phase::Unconfigured => if ok {
            (Phase::PoolInitializing, Action::ConnectPool)
        } else {
            (Phase::Terminated(StartupError::Configuration), Action::Exit(StartupError::Configuration))
        },
        Phase::PoolInitializing => if ok {
            (Phase::Migrating, Action::RunMigrations)
        } else {
            (Phase::Terminated(StartupError::Connection), Action::Exit(StartupError::Connection))
        },
        Phase::Migrating => if ok {
            (Phase::Binding, Action::BindListener)
        } else {
            (Phase::Terminated(StartupError::Migration), Action::Exit(StartupError::Migration))
        },
        Phase::Binding => if ok {
            (Phase::Serving, Action::Serve)
        } else {
            (Phase::Terminated(StartupError::Bind), Action::Exit(StartupError::Bind))
        },
        Phase::Serving => (Phase::Serving, Action::Serve),
        Phase::Terminated(e) => (Phase::Terminated(e), Action::Exit(e)),
    }
}

/// The phase reached from the start after the given step outcomes.
pub open spec fn run(outcomes: Seq<bool>) -> Phase
    decreases outcomes.len(),
{
    if outcomes.len() == 0 {
        Phase::Unconfigured
    } else {
        transition(run(outcomes.drop_last()), outcomes.last()).0
    }
}

/// The first `n` outcomes are all successes.
pub open spec fn first_succeed(outcomes: Seq<bool>, n: int) -> bool {
    outcomes.len() >= n && forall|i: int| 0 <= i < n ==> outcomes[i]
}

/// Takes one step of the startup sequence.
pub fn advance(phase: Phase, ok: bool) -> (r: (Phase, Action))
    ensures
        r == transition(phase, ok),
{
    match phase {
        Phase::Unconfigured => if ok {
            (Phase::PoolInitializing, Action::ConnectPool)
        } else {
            (Phase::Terminated(StartupError::Configuration), Action::Exit(StartupError::Configuration))
        },
        Phase::PoolInitializing => if ok {
            (Phase::Migrating, Action::RunMigrations)
        } else {
            (Phase::Terminated(StartupError::Connection), Action::Exit(StartupError::Connection))
        },
        Phase::Migrating => if ok {
            (Phase::Binding, Action::BindListener)
        } else {
            (Phase::Terminated(StartupError::Migration), Action::Exit(StartupError::Migration))
        },
        Phase::Binding => if ok {
            (Phase::Serving, Action::Serve)
        } else {
            (Phase::Terminated(StartupError::Bind), Action::Exit(StartupError::Bind))
        },
        Phase::Serving => (Phase::Serving, Action::Serve),
        Phase::Terminated(e) => (Phase::Terminated(e), Action::Exit(e)),
    }
}

/// Each phase is reached by exactly one history.
proof fn lemma_run_shape(outcomes: Seq<bool>)
    ensures
        run(outcomes) is Unconfigured <==> outcomes.len() == 0,
        run(outcomes) is PoolInitializing <==> outcomes.len() == 1 && first_succeed(outcomes, 1),
        run(outcomes) is Migrating <==> outcomes.len() == 2 && first_succeed(outcomes, 2),
        run(outcomes) is Binding <==> outcomes.len() == 3 && first_succeed(outcomes, 3),
        run(outcomes) is Serving <==> first_succeed(outcomes, 4),
    decreases outcomes.len(),
{
    if outcomes.len() > 0 {
        let prev = outcomes.drop_last();
        lemma_run_shape(prev);
        assert forall|i: int| 0 <= i < prev.len() implies prev[i] == outcomes[i] by {}
        if first_succeed(outcomes, 4) {
            assert(first_succeed(prev, 3));
        }
    }
}

/// Startup is all or nothing: the listener is asked to bind only after the
/// configuration, the pool and the migration all succeeded, and requests are
/// served only after the bind succeeded too.
pub proof fn startup_all_or_nothing(outcomes: Seq<bool>, ok: bool)
    ensures
        transition(run(outcomes), ok).1 is BindListener <==> (first_succeed(outcomes, 2) && outcomes.len() == 2 && ok),
        run(outcomes) is Serving <==> first_succeed(outcomes, 4),
{
    lemma_run_shape(outcomes);
}

/// A failed startup stays failed, whatever is reported afterwards: no
/// history leads from a termination back to an earlier phase or to serving.
pub proof fn termination_is_final(outcomes: Seq<bool>, later: Seq<bool>)
    requires
        run(outcomes) is Terminated,
    ensures
        run(outcomes + later) == run(outcomes),
    decreases later.len(),
{
    if later.len() > 0 {
        let shorter = later.drop_last();
        termination_is_final(outcomes, shorter);
        assert((outcomes + later).drop_last() =~= outcomes + shorter);
    }
}

} // verus!
