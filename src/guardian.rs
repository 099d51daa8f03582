//! The token guardian's decisions. The guardian owns the one live token: on
//! every tick it snapshots the token, refreshes it when too little validity
//! is left, validates it, and only then publishes it to the shared handle and
//! persists the credential. The driver performs each action and feeds the
//! outcome back as the next event.

use vstd::prelude::*;
use crate::auth::TokenFailure;

verus! {

/// Seconds between two checks of the token.
pub const DEFAULT_TICK_SECS: u64 = 60;

/// A token with less validity left than this, in seconds, is refreshed
/// before it is validated. One hour: far more than a tick, so a token is
/// renewed long before a send could meet it expired.
pub const DEFAULT_REFRESH_THRESHOLD_SECS: u64 = 3600;

/// The guardian's cadence and refresh threshold.
#[derive(Clone, Copy, Debug, PartialEq, Eq, Structural)]
pub struct GuardianConfig {
    pub tick_secs: u64,
    pub refresh_threshold_secs: u64,
}

impl GuardianConfig {
    /// A configuration; the tick must be at least one second.
    pub fn new(tick_secs: u64, refresh_threshold_secs: u64) -> (r: Option<GuardianConfig>)
        ensures
            tick_secs == 0 ==> r is None,
            tick_secs > 0 ==> r == Some(GuardianConfig { tick_secs, refresh_threshold_secs }),
    {
        if tick_secs == 0 {
            None
        } else {
            Some(GuardianConfig { tick_secs, refresh_threshold_secs })
        }
    }

    /// A one-minute tick and a one-hour refresh threshold.
    pub fn standard() -> (r: GuardianConfig)
        ensures
            r == (GuardianConfig {
                tick_secs: DEFAULT_TICK_SECS,
                refresh_threshold_secs: DEFAULT_REFRESH_THRESHOLD_SECS,
            }),
    {
        GuardianConfig { tick_secs: DEFAULT_TICK_SECS, refresh_threshold_secs: DEFAULT_REFRESH_THRESHOLD_SECS }
    }
}

/// Where the guardian is within a tick.
#[derive(Clone, Copy, Debug, PartialEq, Eq, Structural)]
pub enum GuardianPhase {
    /// Waiting for the next tick.
    Idle,
    /// A refresh call is out.
    Refreshing,
    /// A validation call is out.
    Validating,
    /// Shut down, or stopped by a failed refresh.
    Stopped,
}

/// What happened since the last action.
#[derive(Clone, Debug, PartialEq, Eq)]
pub enum GuardianEvent<T> {
    /// The tick came; `token` is the copy taken under the lock and
    /// `remaining_secs` its validity left.
    Tick { token: T, remaining_secs: u64 },
    /// The refresh call returned this token.
    Refreshed(T),
    /// The refresh call failed.
    RefreshFailed(TokenFailure),
    /// The validation call accepted this token.
    Validated(T),
    /// The validation call rejected the token.
    ValidationFailed(TokenFailure),
    /// A shutdown command arrived.
    Shutdown,
}

/// What the driver does next.
#[derive(Clone, Debug, PartialEq, Eq)]
pub enum GuardianAction<T> {
    /// Call the auth service to refresh this token.
    Refresh(T),
    /// Call the auth service to validate this token.
    Validate(T),
    /// Replace the shared token with this one, persist the credential it
    /// describes, and wait for the next tick.
    Publish(T),
    /// Log the failure, keep the shared token, and wait for the next tick.
    KeepPrevious(TokenFailure),
    /// End the loop with this error: the token could not be renewed.
    Abort(TokenFailure),
    /// End the loop: shutdown.
    Stop,
    /// The event does not belong to this phase: nothing to do.
    Ignore,
}

/// The next phase and action of a guardian in `phase` on `e`.
pub open spec fn guardian_step_spec<T>(
    cfg: GuardianConfig,
    phase: GuardianPhase,
    e: GuardianEvent<T>,
) -> (GuardianPhase, GuardianAction<T>) {
    if phase is Stopped {
        (GuardianPhase::Stopped, GuardianAction::Stop)
    } else {
        match e {
            GuardianEvent::Shutdown => (GuardianPhase::Stopped, GuardianAction::Stop),
            GuardianEvent::Tick { token, remaining_secs } => if phase is Idle {
                if remaining_secs < cfg.refresh_threshold_secs {
                    (GuardianPhase::Refreshing, GuardianAction::Refresh(token))
                } else {
                    (GuardianPhase::Validating, GuardianAction::Validate(token))
                }
            } else {
                (phase, GuardianAction::Ignore)
            },
            GuardianEvent::Refreshed(t) => if phase is Refreshing {
                (GuardianPhase::Validating, GuardianAction::Validate(t))
            } else {
                (phase, GuardianAction::Ignore)
            },
            GuardianEvent::RefreshFailed(f) => if phase is Refreshing {
                (GuardianPhase::Stopped, GuardianAction::Abort(f))
            } else {
                (phase, GuardianAction::Ignore)
            },
            GuardianEvent::Validated(t) => if phase is Validating {
                (GuardianPhase::Idle, GuardianAction::Publish(t))
            } else {
                (phase, GuardianAction::Ignore)
            },
            GuardianEvent::ValidationFailed(f) => if phase is Validating {
                (GuardianPhase::Idle, GuardianAction::KeepPrevious(f))
            } else {
                (phase, GuardianAction::Ignore)
            },
        }
    }
}

/// The shared token after the driver carried out `a`.
pub open spec fn handle_after<T>(handle: T, a: GuardianAction<T>) -> T {
    match a {
        GuardianAction::Publish(t) => t,
        _ => handle,
    }
}

/// The token guardian's state.
#[derive(Clone, Copy, Debug, PartialEq, Eq, Structural)]
pub struct TokenGuardian {
    pub config: GuardianConfig,
    pub phase: GuardianPhase,
}

impl TokenGuardian {
    /// A guardian waiting for its first tick.
    pub fn new(config: GuardianConfig) -> (r: TokenGuardian)
        ensures
            r == (TokenGuardian { config, phase: GuardianPhase::Idle }),
    {
        TokenGuardian { config, phase: GuardianPhase::Idle }
    }

    /// Whether the loop has ended.
    pub fn is_stopped(&self) -> (r: bool)
        ensures
            r == (self.phase is Stopped),
    {
        matches!(self.phase, GuardianPhase::Stopped)
    }

    /// Takes one event and says what to do next.
    pub fn step<T>(&mut self, e: GuardianEvent<T>) -> (r: GuardianAction<T>)
        ensures
            final(self).config == old(self).config,
            (final(self).phase, r) == guardian_step_spec(old(self).config, old(self).phase, e),
    {
        if matches!(self.phase, GuardianPhase::Stopped) {
            return GuardianAction::Stop;
        }
        match e {
            GuardianEvent::Shutdown => {
                self.phase = GuardianPhase::Stopped;
                GuardianAction::Stop
            },
            GuardianEvent::Tick { token, remaining_secs } => {
                if matches!(self.phase, GuardianPhase::Idle) {
                    if remaining_secs < self.config.refresh_threshold_secs {
                        self.phase = GuardianPhase::Refreshing;
                        GuardianAction::Refresh(token)
                    } else {
                        self.phase = GuardianPhase::Validating;
                        GuardianAction::Validate(token)
                    }
                } else {
                    GuardianAction::Ignore
                }
            },
            GuardianEvent::Refreshed(t) => {
                if matches!(self.phase, GuardianPhase::Refreshing) {
                    self.phase = GuardianPhase::Validating;
                    GuardianAction::Validate(t)
                } else {
                    GuardianAction::Ignore
                }
            },
            GuardianEvent::RefreshFailed(f) => {
                if matches!(self.phase, GuardianPhase::Refreshing) {
                    self.phase = GuardianPhase::Stopped;
                    GuardianAction::Abort(f)
                } else {
                    GuardianAction::Ignore
                }
            },
            GuardianEvent::Validated(t) => {
                if matches!(self.phase, GuardianPhase::Validating) {
                    self.phase = GuardianPhase::Idle;
                    GuardianAction::Publish(t)
                } else {
                    GuardianAction::Ignore
                }
            },
            GuardianEvent::ValidationFailed(f) => {
                if matches!(self.phase, GuardianPhase::Validating) {
                    self.phase = GuardianPhase::Idle;
                    GuardianAction::KeepPrevious(f)
                } else {
                    GuardianAction::Ignore
                }
            },
        }
    }
}

/// A tick on a token with less validity left than the threshold asks for
/// one refresh of that token; while that refresh is out no event asks for
/// another, and the only way on to validation is to validate the refreshed
/// token.
pub proof fn lemma_refresh_once_before_validate<T>(
    cfg: GuardianConfig,
    token: T,
    remaining_secs: u64,
    e: GuardianEvent<T>,
)
    requires
        remaining_secs < cfg.refresh_threshold_secs,
    ensures
        guardian_step_spec(cfg, GuardianPhase::Idle, GuardianEvent::Tick { token, remaining_secs })
            == (GuardianPhase::Refreshing, GuardianAction::Refresh(token)),
        !(guardian_step_spec(cfg, GuardianPhase::Refreshing, e).1 is Refresh),
        guardian_step_spec(cfg, GuardianPhase::Refreshing, e).1 is Validate <==> e is Refreshed,
        e matches GuardianEvent::Refreshed(t) ==> guardian_step_spec(cfg, GuardianPhase::Refreshing, e)
            == (GuardianPhase::Validating, GuardianAction::Validate(t)),
{
}

/// The actions a guardian in `phase` takes on `events`, in order.
pub open spec fn run_actions<T>(
    cfg: GuardianConfig,
    phase: GuardianPhase,
    events: Seq<GuardianEvent<T>>,
) -> Seq<GuardianAction<T>>
    decreases events.len(),
{
    if events.len() == 0 {
        Seq::empty()
    } else {
        let (next, a) = guardian_step_spec(cfg, phase, events[0]);
        seq![a] + run_actions(cfg, next, events.drop_first())
    }
}

proof fn lemma_run_len<T>(cfg: GuardianConfig, phase: GuardianPhase, events: Seq<GuardianEvent<T>>)
    ensures
        run_actions(cfg, phase, events).len() == events.len(),
    decreases events.len(),
{
    if events.len() > 0 {
        lemma_run_len(cfg, guardian_step_spec(cfg, phase, events[0]).0, events.drop_first());
    }
}

proof fn lemma_stopped_run_only_stops<T>(cfg: GuardianConfig, events: Seq<GuardianEvent<T>>, j: int)
    requires
        0 <= j < events.len(),
    ensures
        run_actions(cfg, GuardianPhase::Stopped, events)[j] == GuardianAction::<T>::Stop,
    decreases events.len(),
{
    let rest = run_actions(cfg, GuardianPhase::Stopped, events.drop_first());
    lemma_run_len(cfg, GuardianPhase::Stopped, events.drop_first());
    assert(run_actions(cfg, GuardianPhase::Stopped, events) == seq![GuardianAction::<T>::Stop] + rest);
    if j > 0 {
        lemma_stopped_run_only_stops(cfg, events.drop_first(), j - 1);
        assert(run_actions(cfg, GuardianPhase::Stopped, events)[j] == rest[j - 1]);
    }
}

proof fn lemma_refreshing_run_no_refresh<T>(cfg: GuardianConfig, events: Seq<GuardianEvent<T>>, k: int)
    requires
        0 <= k < events.len(),
        run_actions(cfg, GuardianPhase::Refreshing, events)[k] is Validate,
        forall|j: int| 0 <= j < k ==> !(run_actions(cfg, GuardianPhase::Refreshing, events)[j] is Validate),
    ensures
        forall|j: int| 0 <= j <= k ==> !(run_actions(cfg, GuardianPhase::Refreshing, events)[j] is Refresh),
    decreases events.len(),
{
    let acts = run_actions(cfg, GuardianPhase::Refreshing, events);
    let (next, a) = guardian_step_spec(cfg, GuardianPhase::Refreshing, events[0]);
    let rest = run_actions(cfg, next, events.drop_first());
    assert(acts == seq![a] + rest);
    lemma_run_len(cfg, next, events.drop_first());
    if k > 0 {
        assert(acts[0] == a);
        assert(!(a is Validate));
        assert(acts[k] == rest[k - 1]);
        if next is Stopped {
            lemma_stopped_run_only_stops(cfg, events.drop_first(), k - 1);
        } else {
            assert(next is Refreshing);
            assert forall|j: int| 0 <= j < k - 1 implies !(rest[j] is Validate) by {
                assert(acts[j + 1] == rest[j]);
            }
            lemma_refreshing_run_no_refresh(cfg, events.drop_first(), k - 1);
            assert forall|j: int| 0 <= j <= k implies !(acts[j] is Refresh) by {
                if j > 0 {
                    assert(acts[j] == rest[j - 1]);
                }
            }
        }
    }
}

/// Over any run of events that starts with a tick on a token whose validity
/// left is below the threshold, the actions up to the first validation hold
/// exactly one refresh, of that token, and it comes first.
pub proof fn lemma_one_refresh_before_first_validate<T>(
    cfg: GuardianConfig,
    events: Seq<GuardianEvent<T>>,
    k: int,
)
    requires
        events.len() > 0,
        events[0] matches GuardianEvent::Tick { remaining_secs, .. }
            && remaining_secs < cfg.refresh_threshold_secs,
        0 <= k < events.len(),
        run_actions(cfg, GuardianPhase::Idle, events)[k] is Validate,
        forall|j: int| 0 <= j < k ==> !(run_actions(cfg, GuardianPhase::Idle, events)[j] is Validate),
    ensures
        run_actions(cfg, GuardianPhase::Idle, events)[0] == GuardianAction::Refresh(
            events[0]->token,
        ),
        k > 0,
        forall|j: int| 1 <= j <= k ==> !(run_actions(cfg, GuardianPhase::Idle, events)[j] is Refresh),
{
    let acts = run_actions(cfg, GuardianPhase::Idle, events);
    let rest = run_actions(cfg, GuardianPhase::Refreshing, events.drop_first());
    assert(acts == seq![GuardianAction::Refresh(events[0]->token)] + rest);
    lemma_run_len(cfg, GuardianPhase::Refreshing, events.drop_first());
    assert(acts[0] == GuardianAction::Refresh(events[0]->token));
    assert(k > 0);
    assert(acts[k] == rest[k - 1]);
    assert forall|j: int| 0 <= j < k - 1 implies !(rest[j] is Validate) by {
        assert(acts[j + 1] == rest[j]);
    }
    lemma_refreshing_run_no_refresh(cfg, events.drop_first(), k - 1);
    assert forall|j: int| 1 <= j <= k implies !(acts[j] is Refresh) by {
        assert(acts[j] == rest[j - 1]);
    }
}

/// A tick on a token with at least the threshold of validity left goes
/// straight to validating that token, and nothing refreshes it before the
/// validation is answered.
pub proof fn lemma_no_refresh_at_or_above_threshold<T>(
    cfg: GuardianConfig,
    token: T,
    remaining_secs: u64,
    e: GuardianEvent<T>,
)
    requires
        remaining_secs >= cfg.refresh_threshold_secs,
    ensures
        guardian_step_spec(cfg, GuardianPhase::Idle, GuardianEvent::Tick { token, remaining_secs })
            == (GuardianPhase::Validating, GuardianAction::Validate(token)),
        !(guardian_step_spec(cfg, GuardianPhase::Validating, e).1 is Refresh),
        !(guardian_step_spec(cfg, GuardianPhase::Validating, e).0 is Refreshing),
{
}

/// The shared token only ever changes to a token that the validation call
/// has just accepted; a rejected validation leaves it as it was.
pub proof fn lemma_handle_holds_only_validated<T>(
    cfg: GuardianConfig,
    phase: GuardianPhase,
    e: GuardianEvent<T>,
    handle: T,
)
    ensures
        ({
            let a = guardian_step_spec(cfg, phase, e).1;
            handle_after(handle, a) != handle ==> phase is Validating && e == GuardianEvent::Validated(
                handle_after(handle, a),
            )
        }),
        e is ValidationFailed ==> handle_after(handle, guardian_step_spec(cfg, phase, e).1) == handle,
{
}

/// Shutdown stops the guardian from every phase, at once.
pub proof fn lemma_shutdown_stops_guardian<T>(cfg: GuardianConfig, phase: GuardianPhase)
    ensures
        guardian_step_spec(cfg, phase, GuardianEvent::<T>::Shutdown) == (
            GuardianPhase::Stopped,
            GuardianAction::<T>::Stop,
        ),
{
}

} // verus!
