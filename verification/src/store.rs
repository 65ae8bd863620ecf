//! Publish-once configuration store: the reconciled options are computed and
//! published on the first initialization call; every later call is a no-op.
//! The blocking of concurrent callers while the first call is in flight is
//! the host-side lock's concern; this module carries the state machine and
//! its at-most-one-publish guarantee.

use vstd::prelude::*;
use crate::envvar::EnvValue;
use crate::options::Opts;

verus! {

/// Where the one-time initialization stands. `Running` exists only inside
/// the first initialization call, while the host-side lock is held; a
/// caller that somehow observes it must not recompute or republish.
#[derive(Clone, Copy, Debug, PartialEq, Eq, Structural)]
pub enum OnceState {
    NotRun,
    Running,
    Done,
}

/// The process-wide configuration store: the published reconciled options
/// and the run-state marker.
#[derive(Debug)]
pub struct ConfigStore {
    pub state: OnceState,
    pub published: Option<Opts>,
}

/// What one initialization call does to the store: a single publish of the
/// reconciled options when nothing has run yet, and nothing at all once the
/// guard is already running or done.
pub open spec fn spec_apply_init(
    store: ConfigStore,
    baseline: Opts,
    multiprocess_var: EnvValue,
    sandbox_var: EnvValue,
) -> ConfigStore {
    if store.state is NotRun {
        ConfigStore {
            state: OnceState::Done,
            published: Some(Opts::spec_reconcile(baseline, multiprocess_var, sandbox_var)),
        }
    } else {
        store
    }
}

impl ConfigStore {
    /// Options are published exactly when the store is marked done.
    pub open spec fn wf(&self) -> bool {
        (self.state is Done) <==> (self.published is Some)
    }

    /// A fresh store: nothing published, not yet run.
    pub fn new() -> (r: ConfigStore)
        ensures
            r.state is NotRun,
            r.published is None,
            r.wf(),
    {
        ConfigStore { state: OnceState::NotRun, published: None }
    }

    /// Read access to the published options; `None` before the first
    /// initialization call, the one published value after it.
    pub fn published(&self) -> (r: Option<&Opts>)
        ensures
            match r {
                Some(o) => self.published == Some(*o),
                None => self.published is None,
            },
    {
        self.published.as_ref()
    }
}

/// One-time runtime configuration: on the first call, reconciles the
/// baseline with the environment overrides and publishes the result; once
/// the store is done, leaves it untouched. The host serializes concurrent
/// callers around this call, so the first publish is visible to every
/// caller that returns.
pub fn init(
    store: &mut ConfigStore,
    baseline: &Opts,
    multiprocess_var: &EnvValue,
    sandbox_var: &EnvValue,
)
    ensures
        *final(store) == spec_apply_init(*old(store), *baseline, *multiprocess_var, *sandbox_var),
        !(old(store).state is NotRun) ==> *final(store) == *old(store),
        old(store).state is NotRun ==> final(store).state is Done && final(store).published
            == Some(Opts::spec_reconcile(*baseline, *multiprocess_var, *sandbox_var)),
        old(store).wf() ==> final(store).wf(),
{
    match store.state {
        OnceState::NotRun => {
            store.state = OnceState::Running;
            let cfg = Opts::from_env(baseline, multiprocess_var, sandbox_var);
            store.published = Some(cfg);
            store.state = OnceState::Done;
        },
        OnceState::Running => {
        },
        OnceState::Done => {
        },
    }
}

/// However many initialization calls run and whatever baseline or
/// environment each later call observes, only the first call publishes:
/// every call after the first leaves the store exactly as the first call
/// left it.
pub proof fn lemma_init_publishes_once(
    store: ConfigStore,
    baseline1: Opts,
    multiprocess1: EnvValue,
    sandbox1: EnvValue,
    baseline2: Opts,
    multiprocess2: EnvValue,
    sandbox2: EnvValue,
)
    ensures
        spec_apply_init(
            spec_apply_init(store, baseline1, multiprocess1, sandbox1),
            baseline2,
            multiprocess2,
            sandbox2,
        ) == spec_apply_init(store, baseline1, multiprocess1, sandbox1),
{
}

/// Running and done are terminal for publication: an initialization call
/// that observes either recomputes nothing, republishes nothing, and moves
/// no store back to not-run.
pub proof fn lemma_no_republish_after_start(
    store: ConfigStore,
    baseline: Opts,
    multiprocess_var: EnvValue,
    sandbox_var: EnvValue,
)
    requires
        !(store.state is NotRun),
    ensures
        spec_apply_init(store, baseline, multiprocess_var, sandbox_var) == store,
{
}

} // verus!
