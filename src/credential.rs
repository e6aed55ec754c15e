use vstd::prelude::*;
use crate::session::{next, FatalReason, SessionAction, SessionEvent, SessionState, SessionView};

verus! {

/// A bearer credential; `expires_at` is in seconds on the caller's clock.
pub struct Credential {
    pub access_token: String,
    pub refresh_token: String,
    pub expires_at: u64,
}

pub struct CredentialView {
    pub access_token: Seq<char>,
    pub refresh_token: Seq<char>,
    pub expires_at: u64,
}

impl View for Credential {
    type V = CredentialView;

    open spec fn view(&self) -> CredentialView {
        CredentialView {
            access_token: self.access_token@,
            refresh_token: self.refresh_token@,
            expires_at: self.expires_at,
        }
    }
}

/// Where the guard stands in its refresh-and-validate cycle.
#[derive(Clone, Copy, Debug, PartialEq, Eq, Structural)]
pub enum GuardPhase {
    Idle,
    Refreshing,
    Validating,
    Halted,
}

/// The outside call the guard's driver must make next, if any.
#[derive(Clone, Copy, Debug, PartialEq, Eq, Structural)]
pub enum GuardAction {
    Refresh,
    Validate,
    Wait,
    Halt,
}

/// How a refresh exchange ended.
pub enum RefreshOutcome {
    Refreshed { credential: Credential },
    Transient,
    InvalidRefreshToken,
}

/// How a validation call ended.
#[derive(Clone, Copy, Debug, PartialEq, Eq, Structural)]
pub enum ValidateOutcome {
    Valid,
    Transient,
    Revoked,
}

pub struct GuardView {
    pub credential: CredentialView,
    pub phase: GuardPhase,
    pub refresh_margin_secs: u64,
}

/// The credential is due for a refresh: it expires in less than `margin`
/// seconds after `now` (or has expired).
pub open spec fn due(expires_at: u64, now: u64, margin: u64) -> bool {
    (expires_at as int - now as int) < (margin as int)
}

/// A scheduled tick. Only an idle guard starts a cycle: a refresh when the
/// credential is due, else straight to validation.
pub open spec fn guard_tick(g: GuardView, now: u64) -> (GuardView, GuardAction) {
    match g.phase {
        GuardPhase::Idle => {
            if due(g.credential.expires_at, now, g.refresh_margin_secs) {
                (GuardView { phase: GuardPhase::Refreshing, ..g }, GuardAction::Refresh)
            } else {
                (GuardView { phase: GuardPhase::Validating, ..g }, GuardAction::Validate)
            }
        },
        GuardPhase::Halted => (g, GuardAction::Halt),
        _ => (g, GuardAction::Wait),
    }
}

/// The end of a refresh exchange. A new credential replaces the old one whole;
/// a transient failure keeps the old one for the next tick; an invalid refresh
/// token halts the guard. Validation follows in the first two cases.
pub open spec fn guard_refreshed(g: GuardView, outcome: RefreshOutcome) -> (GuardView, GuardAction) {
    if g.phase != GuardPhase::Refreshing {
        if g.phase == GuardPhase::Halted { (g, GuardAction::Halt) } else { (g, GuardAction::Wait) }
    } else {
        match outcome {
            RefreshOutcome::Refreshed { credential } => (
                GuardView { credential: credential@, phase: GuardPhase::Validating, ..g },
                GuardAction::Validate,
            ),
            RefreshOutcome::Transient => (GuardView { phase: GuardPhase::Validating, ..g }, GuardAction::Validate),
            RefreshOutcome::InvalidRefreshToken => (GuardView { phase: GuardPhase::Halted, ..g }, GuardAction::Halt),
        }
    }
}

/// The end of a validation call: revocation halts the guard, anything else
/// returns it to idle until the next tick.
pub open spec fn guard_validated(g: GuardView, outcome: ValidateOutcome) -> (GuardView, GuardAction) {
    if g.phase != GuardPhase::Validating {
        if g.phase == GuardPhase::Halted { (g, GuardAction::Halt) } else { (g, GuardAction::Wait) }
    } else {
        match outcome {
            ValidateOutcome::Revoked => (GuardView { phase: GuardPhase::Halted, ..g }, GuardAction::Halt),
            _ => (GuardView { phase: GuardPhase::Idle, ..g }, GuardAction::Wait),
        }
    }
}

/// Owner of the current credential, and the only one that changes it.
pub struct CredentialGuard {
    credential: Credential,
    phase: GuardPhase,
    refresh_margin_secs: u64,
}

impl View for CredentialGuard {
    type V = GuardView;

    closed spec fn view(&self) -> GuardView {
        GuardView { credential: self.credential@, phase: self.phase, refresh_margin_secs: self.refresh_margin_secs }
    }
}

/// Whether a credential that expires at `expires_at` must be refreshed at `now`.
pub fn needs_refresh(expires_at: u64, now: u64, margin: u64) -> (r: bool)
    ensures
        r == due(expires_at, now, margin),
{
    if expires_at < now {
        true
    } else {
        expires_at - now < margin
    }
}

impl CredentialGuard {
    /// An idle guard over `credential` that refreshes it once it expires
    /// within `refresh_margin_secs`.
    pub fn new(credential: Credential, refresh_margin_secs: u64) -> (r: CredentialGuard)
        ensures
            r@ == (GuardView { credential: credential@, phase: GuardPhase::Idle, refresh_margin_secs }),
    {
        CredentialGuard { credential, phase: GuardPhase::Idle, refresh_margin_secs }
    }

    pub fn phase(&self) -> (r: GuardPhase)
        ensures
            r == self@.phase,
    {
        self.phase
    }

    /// A copy of the access token and its expiry, taken together.
    pub fn snapshot(&self) -> (r: (String, u64))
        ensures
            r.0@ == self@.credential.access_token,
            r.1 == self@.credential.expires_at,
    {
        (self.credential.access_token.clone(), self.credential.expires_at)
    }

    pub fn credential(&self) -> (r: &Credential)
        ensures
            r@ == self@.credential,
    {
        &self.credential
    }

    pub fn tick(&mut self, now: u64) -> (r: GuardAction)
        ensures
            (final(self)@, r) == guard_tick(old(self)@, now),
    {
        match self.phase {
            GuardPhase::Idle => {
                if needs_refresh(self.credential.expires_at, now, self.refresh_margin_secs) {
                    self.phase = GuardPhase::Refreshing;
                    GuardAction::Refresh
                } else {
                    self.phase = GuardPhase::Validating;
                    GuardAction::Validate
                }
            },
            GuardPhase::Halted => GuardAction::Halt,
            _ => GuardAction::Wait,
        }
    }

    pub fn on_refresh(&mut self, outcome: RefreshOutcome) -> (r: GuardAction)
        ensures
            (final(self)@, r) == guard_refreshed(old(self)@, outcome),
    {
        if self.phase != GuardPhase::Refreshing {
            return if self.phase == GuardPhase::Halted { GuardAction::Halt } else { GuardAction::Wait };
        }
        match outcome {
            RefreshOutcome::Refreshed { credential } => {
                self.credential = credential;
                self.phase = GuardPhase::Validating;
                GuardAction::Validate
            },
            RefreshOutcome::Transient => {
                self.phase = GuardPhase::Validating;
                GuardAction::Validate
            },
            RefreshOutcome::InvalidRefreshToken => {
                self.phase = GuardPhase::Halted;
                GuardAction::Halt
            },
        }
    }

    pub fn on_validate(&mut self, outcome: ValidateOutcome) -> (r: GuardAction)
        ensures
            (final(self)@, r) == guard_validated(old(self)@, outcome),
    {
        if self.phase != GuardPhase::Validating {
            return if self.phase == GuardPhase::Halted { GuardAction::Halt } else { GuardAction::Wait };
        }
        match outcome {
            ValidateOutcome::Revoked => {
                self.phase = GuardPhase::Halted;
                GuardAction::Halt
            },
            _ => {
                self.phase = GuardPhase::Idle;
                GuardAction::Wait
            },
        }
    }
}

/// An idle guard refreshes on a tick exactly when the credential expires
/// within the margin: one refresh call then, none otherwise.
pub proof fn credential_freshness(g: GuardView, now: u64)
    requires
        g.phase == GuardPhase::Idle,
    ensures
        due(g.credential.expires_at, now, g.refresh_margin_secs) ==> guard_tick(g, now) == (
            GuardView { phase: GuardPhase::Refreshing, ..g },
            GuardAction::Refresh,
        ),
        !due(g.credential.expires_at, now, g.refresh_margin_secs) ==> guard_tick(g, now).1 == GuardAction::Validate,
{
}

/// A refresh rejected for an invalid refresh token halts the guard for good,
/// and the event it hands the session closes it in that same step; a closed
/// session then does nothing whatever happens.
pub proof fn fatal_credential_halts_all(g: GuardView, s: SessionView, later: SessionEvent, t: u64)
    requires
        g.phase == GuardPhase::Refreshing,
        s.state != SessionState::Closed,
    ensures
        ({
            let (g1, act) = guard_refreshed(g, RefreshOutcome::InvalidRefreshToken);
            let (s1, acts) = next(s, SessionEvent::CredentialFailed);
            &&& act == GuardAction::Halt
            &&& g1.phase == GuardPhase::Halted
            &&& guard_tick(g1, t) == (g1, GuardAction::Halt)
            &&& s1.state == SessionState::Closed
            &&& s1.session_id is None
            &&& acts == seq![SessionAction::Halt { reason: FatalReason::CredentialFailure }]
            &&& next(s1, later) == (s1, Seq::<SessionAction>::empty())
        }),
{
}

} // verus!
