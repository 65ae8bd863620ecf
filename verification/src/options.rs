//! Option reconciler: merges the host-supplied baseline options with the two
//! resolved environment overrides under a fixed override policy, forcing
//! `exit_after_load` off and passing every other host field through
//! untouched.

use vstd::prelude::*;
use crate::envvar::{env_boolean_ensure, spec_resolved_or, EnvValue};

verus! {

/// Engine options as this element cares about them: the three fields the
/// override policy touches, and the host fields it must pass through.
#[derive(Clone, Debug)]
pub struct Opts {
    /// Run engine subsystems in separate processes.
    pub multiprocess: bool,
    /// Sandbox the engine's content processes.
    pub sandbox: bool,
    /// Tear the session down as soon as the initial load finishes.
    pub exit_after_load: bool,
    /// Host field passed through untouched.
    pub headless: bool,
    /// Host field passed through untouched.
    pub user_agent: String,
}

impl Opts {
    /// The fixed override policy: `multiprocess` is resolved against a
    /// default of `false`, `sandbox` against the baseline's own value, and
    /// `exit_after_load` is forced off; all other fields come from the
    /// baseline unchanged.
    pub open spec fn spec_reconcile(
        baseline: Opts,
        multiprocess_var: EnvValue,
        sandbox_var: EnvValue,
    ) -> Opts {
        Opts {
            multiprocess: spec_resolved_or(multiprocess_var, false),
            sandbox: spec_resolved_or(sandbox_var, baseline.sandbox),
            exit_after_load: false,
            ..baseline
        }
    }

    /// Reconciles the baseline with the two environment overrides, each
    /// resolved best-effort. Pure in its inputs: the same baseline and the
    /// same snapshot of the two variables give the same result.
    pub fn from_env(
        baseline: &Opts,
        multiprocess_var: &EnvValue,
        sandbox_var: &EnvValue,
    ) -> (r: Opts)
        ensures
            r == Opts::spec_reconcile(*baseline, *multiprocess_var, *sandbox_var),
            r.exit_after_load == false,
    {
        Opts {
            multiprocess: env_boolean_ensure(multiprocess_var, false),
            sandbox: env_boolean_ensure(sandbox_var, baseline.sandbox),
            exit_after_load: false,
            headless: baseline.headless,
            user_agent: baseline.user_agent.clone(),
        }
    }
}

/// The fixed name of the variable overriding `multiprocess`.
pub fn multiprocess_var_name() -> (r: &'static str)
    ensures
        r@ == "SERVO_GST_MULTIPROCESS"@,
{
    "SERVO_GST_MULTIPROCESS"
}

/// The fixed name of the variable overriding `sandbox`.
pub fn sandbox_var_name() -> (r: &'static str)
    ensures
        r@ == "SERVO_GST_SANDBOX"@,
{
    "SERVO_GST_SANDBOX"
}

} // verus!
