use vstd::prelude::*;

verus! {

/// Lifecycle of the push-channel session.
#[derive(Clone, Copy, Debug, PartialEq, Eq, Structural)]
pub enum SessionState {
    Connecting,
    AwaitingWelcome,
    Active,
    Reconnecting,
    Closed,
}

/// Registration status of one desired subscription.
#[derive(Clone, Copy, Debug, PartialEq, Eq, Structural)]
pub enum SubStatus {
    Pending,
    Active,
    Failed,
}

/// Why the manager closed for good.
#[derive(Clone, Copy, Debug, PartialEq, Eq, Structural)]
pub enum FatalReason {
    RetriesExhausted,
    CredentialFailure,
    Cancelled,
}

/// What the driver of the manager must do next.
#[derive(Clone, Copy, Debug, PartialEq, Eq, Structural)]
pub enum SessionAction {
    /// Open a connection to `target_url()` after waiting `delay_secs`.
    Connect { delay_secs: u64 },
    /// Register desired subscription `index` against the current session id.
    Register { index: usize },
    /// Hand the payload of the frame just given to the event handler.
    Deliver { index: usize },
    /// Subscription `index` was revoked by the server.
    ReportRevoked { index: usize },
    /// The registration call for subscription `index` failed.
    ReportRegistrationFailed { index: usize },
    /// Stop: the session is closed.
    Halt { reason: FatalReason },
}

/// Tunable policy of the manager.
#[derive(Clone, Copy, Debug, PartialEq, Eq, Structural)]
pub struct SessionConfig {
    /// A session is dead after `keepalive_multiplier * keepalive` seconds of silence.
    pub keepalive_multiplier: u64,
    /// Seconds allowed between connecting and the welcome frame.
    pub handshake_timeout_secs: u64,
    /// Upper bound of the reconnect backoff.
    pub backoff_cap_secs: u64,
    /// Failed connections and protocol violations tolerated in a row.
    pub max_retries: u64,
}

/// One desired subscription: an event type, its version and its condition.
pub struct Desired {
    pub event_type: String,
    pub version: String,
    pub condition: Vec<(String, String)>,
}

/// Bookkeeping of one desired subscription.
pub struct SubState {
    pub status: SubStatus,
    /// The id the server assigned on registration.
    pub id: Option<String>,
}

pub struct SubView {
    pub status: SubStatus,
    pub id: Option<Seq<char>>,
}

/// A decoded push-channel frame, as far as the session needs it.
pub enum Frame {
    Welcome { session_id: String, keepalive_timeout_secs: u64 },
    Keepalive,
    Notification { subscription_id: String },
    Reconnect { reconnect_url: String },
    Revocation { subscription_id: String },
}

/// What happened to the manager since the last step. Times are in seconds.
pub enum SessionEvent {
    Connected { now: u64 },
    ConnectFailed,
    Received { frame: Frame, now: u64 },
    Malformed,
    Tick { now: u64 },
    Registered { index: usize, id: Option<String> },
    CredentialFailed,
    Cancelled,
}

pub struct SessionView {
    pub state: SessionState,
    pub session_id: Option<Seq<char>>,
    pub keepalive_secs: u64,
    pub connect_url: Seq<char>,
    pub migration_url: Option<Seq<char>>,
    pub migrating: bool,
    pub subs: Seq<SubView>,
    pub last_frame_at: u64,
    pub connected_at: u64,
    pub retries: u64,
    pub config: SessionConfig,
}

pub open spec fn opt_view(o: Option<String>) -> Option<Seq<char>> {
    match o {
        Some(s) => Some(s@),
        None => None,
    }
}

impl SubState {
    pub open spec fn view(&self) -> SubView {
        SubView { status: self.status, id: opt_view(self.id) }
    }
}

impl SessionView {
    pub open spec fn wf(self) -> bool {
        &&& self.retries <= self.config.max_retries
        &&& self.subs.len() <= usize::MAX
    }
}

/// Where the next connection goes: the migration endpoint if the server gave one.
pub open spec fn target_url(s: SessionView) -> Seq<char> {
    match s.migration_url {
        Some(u) => u,
        None => s.connect_url,
    }
}

/// Delay before reconnect attempt `attempt`: doubling from one second, capped.
pub open spec fn backoff_secs(attempt: nat, cap: nat) -> nat
    decreases attempt,
{
    if attempt == 0 {
        if 1 <= cap { 1 } else { cap }
    } else {
        let d = 2 * backoff_secs((attempt - 1) as nat, cap);
        if d <= cap { d } else { cap }
    }
}

/// First subscription at or after `from` that carries `id` (and is `Active`, if asked).
pub open spec fn find_sub(subs: Seq<SubView>, id: Seq<char>, active_only: bool, from: int) -> Option<int>
    decreases subs.len() - from,
{
    if from < 0 || from >= subs.len() {
        None
    } else if subs[from].id == Some(id) && (!active_only || subs[from].status == SubStatus::Active) {
        Some(from)
    } else {
        find_sub(subs, id, active_only, from + 1)
    }
}

/// A registration for each pending subscription among the first `n`, in order.
pub open spec fn registrations(subs: Seq<SubView>, n: nat) -> Seq<SessionAction>
    decreases n,
{
    if n == 0 {
        seq![]
    } else {
        let prev = registrations(subs, (n - 1) as nat);
        if subs[n - 1].status == SubStatus::Pending {
            prev.push(SessionAction::Register { index: (n - 1) as usize })
        } else {
            prev
        }
    }
}

pub open spec fn all_pending(n: nat) -> Seq<SubView> {
    Seq::new(n, |i: int| SubView { status: SubStatus::Pending, id: None })
}

pub open spec fn close(s: SessionView, reason: FatalReason) -> (SessionView, Seq<SessionAction>) {
    (SessionView { state: SessionState::Closed, session_id: None, ..s }, seq![SessionAction::Halt { reason }])
}

/// A failed connection or a protocol violation: retry with backoff while the
/// budget lasts. A `full` reconnect forgets any migration target.
pub open spec fn escalate(s: SessionView, full: bool) -> (SessionView, Seq<SessionAction>) {
    if s.retries >= s.config.max_retries {
        close(s, FatalReason::RetriesExhausted)
    } else {
        let n = s.retries + 1;
        (
            SessionView {
                state: SessionState::Reconnecting,
                retries: n as u64,
                migrating: if full { false } else { s.migrating },
                migration_url: if full { None } else { s.migration_url },
                ..s
            },
            seq![SessionAction::Connect { delay_secs: backoff_secs(n as nat, s.config.backoff_cap_secs as nat) as u64 }],
        )
    }
}

/// A welcome frame on a new connection. The session is fresh when there was
/// none before, or when the id changed without a migration having been signalled;
/// a fresh session registers every subscription anew.
pub open spec fn on_welcome(s: SessionView, id: Seq<char>, keepalive: u64, now: u64) -> (SessionView, Seq<SessionAction>) {
    let fresh = match s.session_id {
        Some(prev) => prev != id && !s.migrating,
        None => true,
    };
    let subs = if fresh { all_pending(s.subs.len()) } else { s.subs };
    (
        SessionView {
            state: SessionState::Active,
            session_id: Some(id),
            keepalive_secs: keepalive,
            migration_url: None,
            migrating: false,
            subs,
            last_frame_at: now,
            retries: 0,
            ..s
        },
        registrations(subs, subs.len()),
    )
}

pub open spec fn on_frame(s: SessionView, frame: Frame, now: u64) -> (SessionView, Seq<SessionAction>) {
    if s.state == SessionState::AwaitingWelcome {
        match frame {
            Frame::Welcome { session_id, keepalive_timeout_secs } => on_welcome(s, session_id@, keepalive_timeout_secs, now),
            _ => escalate(s, true),
        }
    } else if s.state == SessionState::Active || s.state == SessionState::Reconnecting {
        let s1 = SessionView { last_frame_at: now, ..s };
        match frame {
            Frame::Notification { subscription_id } => match find_sub(s.subs, subscription_id@, true, 0) {
                Some(i) => (s1, seq![SessionAction::Deliver { index: i as usize }]),
                None => (s1, seq![]),
            },
            Frame::Revocation { subscription_id } => match find_sub(s.subs, subscription_id@, false, 0) {
                Some(i) => (
                    SessionView { subs: s.subs.update(i, SubView { status: SubStatus::Failed, id: s.subs[i].id }), ..s1 },
                    seq![SessionAction::ReportRevoked { index: i as usize }],
                ),
                None => (s1, seq![]),
            },
            Frame::Reconnect { reconnect_url } => (
                SessionView {
                    state: SessionState::Reconnecting,
                    migrating: true,
                    migration_url: Some(reconnect_url@),
                    ..s1
                },
                seq![SessionAction::Connect { delay_secs: 0 }],
            ),
            _ => (s1, seq![]),
        }
    } else {
        (s, seq![])
    }
}

/// The keepalive deadline has passed: `now` is more than the multiplier times
/// the keepalive timeout after the last frame.
pub open spec fn silent_too_long(s: SessionView, now: u64) -> bool {
    now as int - s.last_frame_at as int > s.config.keepalive_multiplier as int * s.keepalive_secs as int
}

pub open spec fn on_tick(s: SessionView, now: u64) -> (SessionView, Seq<SessionAction>) {
    if s.state == SessionState::AwaitingWelcome && now as int - s.connected_at as int > s.config.handshake_timeout_secs as int {
        escalate(s, true)
    } else if s.state == SessionState::Active && silent_too_long(s, now) {
        (
            SessionView { state: SessionState::Reconnecting, migrating: false, migration_url: None, ..s },
            seq![SessionAction::Connect { delay_secs: 0 }],
        )
    } else {
        (s, seq![])
    }
}

pub open spec fn on_registered(s: SessionView, index: usize, id: Option<String>) -> (SessionView, Seq<SessionAction>) {
    if (s.state == SessionState::Active || s.state == SessionState::Reconnecting) && index < s.subs.len()
        && s.subs[index as int].status == SubStatus::Pending {
        match id {
            Some(x) => (
                SessionView { subs: s.subs.update(index as int, SubView { status: SubStatus::Active, id: Some(x@) }), ..s },
                seq![],
            ),
            None => (
                SessionView { subs: s.subs.update(index as int, SubView { status: SubStatus::Failed, id: None }), ..s },
                seq![SessionAction::ReportRegistrationFailed { index }],
            ),
        }
    } else {
        (s, seq![])
    }
}

/// One step of the session protocol: the next state and the actions owed.
pub open spec fn next(s: SessionView, e: SessionEvent) -> (SessionView, Seq<SessionAction>) {
    if s.state == SessionState::Closed {
        (s, seq![])
    } else {
        match e {
            SessionEvent::Cancelled => close(s, FatalReason::Cancelled),
            SessionEvent::CredentialFailed => close(s, FatalReason::CredentialFailure),
            SessionEvent::Connected { now } => {
                if s.state == SessionState::Connecting || s.state == SessionState::Reconnecting {
                    (SessionView { state: SessionState::AwaitingWelcome, connected_at: now, ..s }, seq![])
                } else {
                    (s, seq![])
                }
            },
            SessionEvent::ConnectFailed => {
                if s.state == SessionState::Connecting || s.state == SessionState::Reconnecting {
                    escalate(s, false)
                } else {
                    (s, seq![])
                }
            },
            SessionEvent::Malformed => {
                if s.state == SessionState::Connecting {
                    (s, seq![])
                } else {
                    escalate(s, true)
                }
            },
            SessionEvent::Tick { now } => on_tick(s, now),
            SessionEvent::Registered { index, id } => on_registered(s, index, id),
            SessionEvent::Received { frame, now } => on_frame(s, frame, now),
        }
    }
}

/// The push-channel session manager: a state machine driven by the events its
/// driver reports, answering each with the actions owed.
pub struct SessionManager {
    state: SessionState,
    session_id: Option<String>,
    keepalive_secs: u64,
    connect_url: String,
    migration_url: Option<String>,
    migrating: bool,
    desired: Vec<Desired>,
    subs: Vec<SubState>,
    last_frame_at: u64,
    connected_at: u64,
    retries: u64,
    config: SessionConfig,
}

impl View for SessionManager {
    type V = SessionView;

    closed spec fn view(&self) -> SessionView {
        SessionView {
            state: self.state,
            session_id: opt_view(self.session_id),
            keepalive_secs: self.keepalive_secs,
            connect_url: self.connect_url@,
            migration_url: opt_view(self.migration_url),
            migrating: self.migrating,
            subs: self.subs@.map_values(|x: SubState| x.view()),
            last_frame_at: self.last_frame_at,
            connected_at: self.connected_at,
            retries: self.retries,
            config: self.config,
        }
    }
}

fn clone_opt(o: &Option<String>) -> (r: Option<String>)
    ensures
        opt_view(r) == opt_view(*o),
{
    match o {
        Some(s) => Some(s.clone()),
        None => None,
    }
}

impl SessionManager {
    pub closed spec fn wf(&self) -> bool {
        &&& self@.wf()
        &&& self.subs.len() == self.desired.len()
    }

    /// The desired subscriptions, in the order of their indices.
    pub closed spec fn desired_spec(&self) -> Seq<Desired> {
        self.desired@
    }

    /// A manager that has yet to connect to `connect_url`, with every desired
    /// subscription pending.
    pub fn new(connect_url: String, desired: Vec<Desired>, config: SessionConfig) -> (r: SessionManager)
        ensures
            r.wf(),
            r.desired_spec() == desired@,
            r@ == (SessionView {
                state: SessionState::Connecting,
                session_id: None,
                keepalive_secs: 0,
                connect_url: connect_url@,
                migration_url: None,
                migrating: false,
                subs: all_pending(desired@.len()),
                last_frame_at: 0,
                connected_at: 0,
                retries: 0,
                config,
            }),
    {
        let subs = pending_subs(desired.len());
        let r = SessionManager {
            state: SessionState::Connecting,
            session_id: None,
            keepalive_secs: 0,
            connect_url,
            migration_url: None,
            migrating: false,
            desired,
            subs,
            last_frame_at: 0,
            connected_at: 0,
            retries: 0,
            config,
        };
        assert(r@.subs =~= all_pending(r.desired@.len()));
        r
    }

    pub fn state(&self) -> (r: SessionState)
        ensures
            r == self@.state,
    {
        self.state
    }

    pub fn session_id(&self) -> (r: &Option<String>)
        ensures
            opt_view(*r) == self@.session_id,
    {
        &self.session_id
    }

    pub fn target_url(&self) -> (r: &String)
        ensures
            r@ == target_url(self@),
    {
        match &self.migration_url {
            Some(u) => u,
            None => &self.connect_url,
        }
    }

    pub fn desired(&self, index: usize) -> (r: &Desired)
        requires
            index < self.desired_spec().len(),
        ensures
            *r == self.desired_spec()[index as int],
    {
        &self.desired[index]
    }

    pub fn subscription_count(&self) -> (r: usize)
        requires
            self.wf(),
        ensures
            r == self@.subs.len(),
    {
        self.subs.len()
    }

    pub fn status(&self, index: usize) -> (r: SubStatus)
        requires
            index < self@.subs.len(),
        ensures
            r == self@.subs[index as int].status,
    {
        self.subs[index].status
    }

    /// Advance the protocol by one event; the result is the actions owed, in order.
    pub fn step(&mut self, e: SessionEvent) -> (r: Vec<SessionAction>)
        requires
            old(self).wf(),
        ensures
            final(self).wf(),
            final(self).desired_spec() == old(self).desired_spec(),
            (final(self)@, r@) == next(old(self)@, e),
    {
        if self.state == SessionState::Closed {
            return Vec::new();
        }
        match e {
            SessionEvent::Cancelled => self.close(FatalReason::Cancelled),
            SessionEvent::CredentialFailed => self.close(FatalReason::CredentialFailure),
            SessionEvent::Connected { now } => {
                if self.state == SessionState::Connecting || self.state == SessionState::Reconnecting {
                    self.state = SessionState::AwaitingWelcome;
                    self.connected_at = now;
                }
                Vec::new()
            },
            SessionEvent::ConnectFailed => {
                if self.state == SessionState::Connecting || self.state == SessionState::Reconnecting {
                    self.escalate(false)
                } else {
                    Vec::new()
                }
            },
            SessionEvent::Malformed => {
                if self.state == SessionState::Connecting {
                    Vec::new()
                } else {
                    self.escalate(true)
                }
            },
            SessionEvent::Tick { now } => self.tick(now),
            SessionEvent::Registered { index, id } => self.registered(index, id),
            SessionEvent::Received { frame, now } => self.received(frame, now),
        }
    }

    fn close(&mut self, reason: FatalReason) -> (r: Vec<SessionAction>)
        requires
            old(self).wf(),
        ensures
            final(self).wf(),
            final(self).desired == old(self).desired,
            (final(self)@, r@) == close(old(self)@, reason),
    {
        self.state = SessionState::Closed;
        self.session_id = None;
        let mut r = Vec::new();
        r.push(SessionAction::Halt { reason });
        assert(r@ =~= seq![SessionAction::Halt { reason }]);
        r
    }

    fn escalate(&mut self, full: bool) -> (r: Vec<SessionAction>)
        requires
            old(self).wf(),
        ensures
            final(self).wf(),
            final(self).desired == old(self).desired,
            (final(self)@, r@) == escalate(old(self)@, full),
    {
        if self.retries >= self.config.max_retries {
            return self.close(FatalReason::RetriesExhausted);
        }
        self.retries = self.retries + 1;
        self.state = SessionState::Reconnecting;
        if full {
            self.migrating = false;
            self.migration_url = None;
        }
        let delay = backoff(self.retries, self.config.backoff_cap_secs);
        let mut r = Vec::new();
        r.push(SessionAction::Connect { delay_secs: delay });
        assert(r@ =~= seq![SessionAction::Connect { delay_secs: delay }]);
        r
    }

    fn tick(&mut self, now: u64) -> (r: Vec<SessionAction>)
        requires
            old(self).wf(),
            old(self)@.state != SessionState::Closed,
        ensures
            final(self).wf(),
            final(self).desired == old(self).desired,
            (final(self)@, r@) == on_tick(old(self)@, now),
    {
        if self.state == SessionState::AwaitingWelcome && now > self.connected_at
            && now - self.connected_at > self.config.handshake_timeout_secs {
            return self.escalate(true);
        }
        if self.state == SessionState::Active && now > self.last_frame_at {
            let silent = now - self.last_frame_at;
            let too_long = match self.config.keepalive_multiplier.checked_mul(self.keepalive_secs) {
                Some(allowed) => silent > allowed,
                None => false,
            };
            if too_long {
                self.state = SessionState::Reconnecting;
                self.migrating = false;
                self.migration_url = None;
                let mut r = Vec::new();
                r.push(SessionAction::Connect { delay_secs: 0 });
                assert(r@ =~= seq![SessionAction::Connect { delay_secs: 0 }]);
                return r;
            }
        }
        Vec::new()
    }

    fn registered(&mut self, index: usize, id: Option<String>) -> (r: Vec<SessionAction>)
        requires
            old(self).wf(),
            old(self)@.state != SessionState::Closed,
        ensures
            final(self).wf(),
            final(self).desired == old(self).desired,
            (final(self)@, r@) == on_registered(old(self)@, index, id),
    {
        let ghost s0 = self@;
        if (self.state == SessionState::Active || self.state == SessionState::Reconnecting)
            && index < self.subs.len() && self.subs[index].status == SubStatus::Pending {
            match id {
                Some(x) => {
                    self.subs.set(index, SubState { status: SubStatus::Active, id: Some(x) });
                    assert(self@.subs =~= s0.subs.update(index as int, SubView { status: SubStatus::Active, id: Some(x@) }));
                    Vec::new()
                },
                None => {
                    self.subs.set(index, SubState { status: SubStatus::Failed, id: None });
                    assert(self@.subs =~= s0.subs.update(index as int, SubView { status: SubStatus::Failed, id: None }));
                    let mut r = Vec::new();
                    r.push(SessionAction::ReportRegistrationFailed { index });
                    assert(r@ =~= seq![SessionAction::ReportRegistrationFailed { index }]);
                    r
                },
            }
        } else {
            Vec::new()
        }
    }

    fn welcome(&mut self, id: String, keepalive: u64, now: u64) -> (r: Vec<SessionAction>)
        requires
            old(self).wf(),
        ensures
            final(self).wf(),
            final(self).desired == old(self).desired,
            (final(self)@, r@) == on_welcome(old(self)@, id@, keepalive, now),
    {
        let fresh = match &self.session_id {
            Some(prev) => !same_text(prev, &id) && !self.migrating,
            None => true,
        };
        if fresh {
            self.subs = pending_subs(self.subs.len());
        }
        self.state = SessionState::Active;
        self.session_id = Some(id);
        self.keepalive_secs = keepalive;
        self.migration_url = None;
        self.migrating = false;
        self.last_frame_at = now;
        self.retries = 0;
        pending_registrations(&self.subs)
    }

    fn received(&mut self, frame: Frame, now: u64) -> (r: Vec<SessionAction>)
        requires
            old(self).wf(),
            old(self)@.state != SessionState::Closed,
        ensures
            final(self).wf(),
            final(self).desired == old(self).desired,
            (final(self)@, r@) == on_frame(old(self)@, frame, now),
    {
        let ghost s0 = self@;
        if self.state == SessionState::AwaitingWelcome {
            return match frame {
                Frame::Welcome { session_id, keepalive_timeout_secs } => self.welcome(session_id, keepalive_timeout_secs, now),
                _ => self.escalate(true),
            };
        }
        if self.state != SessionState::Active && self.state != SessionState::Reconnecting {
            return Vec::new();
        }
        self.last_frame_at = now;
        assert(self@.subs == s0.subs);
        let mut r = Vec::new();
        match frame {
            Frame::Notification { subscription_id } => {
                if let Some(i) = find_subscription(&self.subs, &subscription_id, true) {
                    r.push(SessionAction::Deliver { index: i });
                    assert(r@ =~= seq![SessionAction::Deliver { index: i }]);
                }
            },
            Frame::Revocation { subscription_id } => {
                if let Some(i) = find_subscription(&self.subs, &subscription_id, false) {
                    let kept = clone_opt(&self.subs[i].id);
                    self.subs.set(i, SubState { status: SubStatus::Failed, id: kept });
                    assert(self@.subs =~= s0.subs.update(i as int, SubView { status: SubStatus::Failed, id: s0.subs[i as int].id }));
                    r.push(SessionAction::ReportRevoked { index: i });
                    assert(r@ =~= seq![SessionAction::ReportRevoked { index: i }]);
                }
            },
            Frame::Reconnect { reconnect_url } => {
                self.state = SessionState::Reconnecting;
                self.migrating = true;
                self.migration_url = Some(reconnect_url);
                r.push(SessionAction::Connect { delay_secs: 0 });
                assert(r@ =~= seq![SessionAction::Connect { delay_secs: 0 }]);
            },
            _ => {},
        }
        assert(r@ =~= on_frame(s0, frame, now).1);
        assert(self@ == on_frame(s0, frame, now).0);
        r
    }
}

/// Text equality, character by character.
pub fn same_text(a: &String, b: &String) -> (r: bool)
    ensures
        r == (a@ == b@),
{
    *a == *b
}

fn pending_subs(n: usize) -> (r: Vec<SubState>)
    ensures
        r@.map_values(|x: SubState| x.view()) =~= all_pending(n as nat),
{
    let mut r: Vec<SubState> = Vec::new();
    let mut i: usize = 0;
    while i < n
        invariant
            i <= n,
            r@.map_values(|x: SubState| x.view()) =~= all_pending(i as nat),
        decreases n - i,
    {
        let ghost before = r@;
        r.push(SubState { status: SubStatus::Pending, id: None });
        assert(r@ =~= before.push(SubState { status: SubStatus::Pending, id: None }));
        assert(r@.map_values(|x: SubState| x.view()) =~= before.map_values(|x: SubState| x.view()).push(
            SubView { status: SubStatus::Pending, id: None },
        ));
        i = i + 1;
    }
    r
}

fn pending_registrations(subs: &Vec<SubState>) -> (r: Vec<SessionAction>)
    ensures
        r@ == registrations(subs@.map_values(|x: SubState| x.view()), subs@.len()),
{
    let ghost v = subs@.map_values(|x: SubState| x.view());
    let mut r: Vec<SessionAction> = Vec::new();
    let mut i: usize = 0;
    while i < subs.len()
        invariant
            i <= subs.len(),
            v == subs@.map_values(|x: SubState| x.view()),
            r@ == registrations(v, i as nat),
        decreases subs.len() - i,
    {
        if subs[i].status == SubStatus::Pending {
            r.push(SessionAction::Register { index: i });
        }
        i = i + 1;
    }
    r
}

fn find_subscription(subs: &Vec<SubState>, id: &String, active_only: bool) -> (r: Option<usize>)
    ensures
        match find_sub(subs@.map_values(|x: SubState| x.view()), id@, active_only, 0) {
            Some(i) => 0 <= i < subs@.len() && r == Some(i as usize),
            None => r is None,
        },
        r matches Some(i) ==> i < subs@.len(),
{
    let ghost v = subs@.map_values(|x: SubState| x.view());
    let mut i: usize = 0;
    while i < subs.len()
        invariant
            i <= subs.len(),
            v == subs@.map_values(|x: SubState| x.view()),
            find_sub(v, id@, active_only, 0) == find_sub(v, id@, active_only, i as int),
        decreases subs.len() - i,
    {
        let hit = match &subs[i].id {
            Some(x) => same_text(x, id),
            None => false,
        };
        if hit && (!active_only || subs[i].status == SubStatus::Active) {
            return Some(i);
        }
        i = i + 1;
    }
    None
}

/// `backoff_secs(attempt, cap)`, computed by doubling.
pub fn backoff(attempt: u64, cap: u64) -> (r: u64)
    ensures
        r as nat == backoff_secs(attempt as nat, cap as nat),
{
    let mut d: u64 = if 1 <= cap { 1 } else { cap };
    let mut i: u64 = 0;
    while i < attempt
        invariant
            i <= attempt,
            d <= cap,
            d as nat == backoff_secs(i as nat, cap as nat),
        decreases attempt - i,
    {
        d = if d <= cap / 2 { 2 * d } else { cap };
        i = i + 1;
    }
    d
}

/// The events `evs` applied one after another from `s`: the final state and
/// every action owed, in order.
pub open spec fn run(s: SessionView, evs: Seq<SessionEvent>) -> (SessionView, Seq<SessionAction>)
    decreases evs.len(),
{
    if evs.len() == 0 {
        (s, seq![])
    } else {
        let (t, acts) = run(s, evs.drop_last());
        let (u, more) = next(t, evs.last());
        (u, acts + more)
    }
}

/// The delivery owed for one notification frame: the first active subscription
/// with the frame's subscription id, if any.
pub open spec fn delivery(subs: Seq<SubView>, e: SessionEvent) -> Seq<SessionAction> {
    match e {
        SessionEvent::Received { frame: Frame::Notification { subscription_id }, now } => {
            match find_sub(subs, subscription_id@, true, 0) {
                Some(i) => seq![SessionAction::Deliver { index: i as usize }],
                None => seq![],
            }
        },
        _ => seq![],
    }
}

/// The deliveries owed for a run of notification frames, in arrival order.
pub open spec fn deliveries(subs: Seq<SubView>, evs: Seq<SessionEvent>) -> Seq<SessionAction>
    decreases evs.len(),
{
    if evs.len() == 0 {
        seq![]
    } else {
        deliveries(subs, evs.drop_last()) + delivery(subs, evs.last())
    }
}

pub open spec fn is_notification(e: SessionEvent) -> bool {
    e matches SessionEvent::Received { frame: Frame::Notification { .. }, .. }
}

proof fn lemma_registrations_all_pending(n: nat, m: nat)
    requires
        m <= n,
        n <= usize::MAX,
    ensures
        registrations(all_pending(n), m) =~= Seq::new(m, |i: int| SessionAction::Register { index: i as usize }),
    decreases m,
{
    if m > 0 {
        lemma_registrations_all_pending(n, (m - 1) as nat);
    }
}

proof fn lemma_registrations_none_pending(subs: Seq<SubView>, m: nat)
    requires
        m <= subs.len(),
        forall|i: int| 0 <= i < subs.len() ==> subs[i].status != SubStatus::Pending,
    ensures
        registrations(subs, m) =~= Seq::<SessionAction>::empty(),
    decreases m,
{
    if m > 0 {
        lemma_registrations_none_pending(subs, (m - 1) as nat);
    }
}

proof fn lemma_find_unique(subs: Seq<SubView>, id: Seq<char>, active_only: bool, from: int, k: int)
    requires
        0 <= from <= k < subs.len(),
        subs[k].id == Some(id),
        !active_only || subs[k].status == SubStatus::Active,
        forall|m: int| 0 <= m < subs.len() && subs[m].id == Some(id) ==> m == k,
    ensures
        find_sub(subs, id, active_only, from) == Some(k),
    decreases k - from,
{
    if from < k {
        lemma_find_unique(subs, id, active_only, from + 1, k);
    }
}

/// The first welcome of a session registers every desired subscription exactly
/// once, in index order, against the session id that the welcome carries.
pub proof fn welcome_then_subscribe(s: SessionView, id: String, keepalive: u64, now: u64)
    requires
        s.wf(),
        s.state == SessionState::AwaitingWelcome,
        s.session_id is None,
    ensures
        ({
            let (t, acts) = next(s, SessionEvent::Received { frame: Frame::Welcome { session_id: id, keepalive_timeout_secs: keepalive }, now });
            &&& t.state == SessionState::Active
            &&& t.session_id == Some(id@)
            &&& acts == Seq::new(s.subs.len(), |i: int| SessionAction::Register { index: i as usize })
        }),
{
    lemma_registrations_all_pending(s.subs.len(), s.subs.len());
}

/// A server-requested migration whose new welcome keeps the session id issues
/// no registration: subscriptions carry over untouched.
pub proof fn no_resubscribe_on_migration(s: SessionView, url: String, id: String, keepalive: u64, t1: u64, t2: u64, t3: u64)
    requires
        s.wf(),
        s.state == SessionState::Active,
        s.session_id == Some(id@),
        forall|i: int| 0 <= i < s.subs.len() ==> s.subs[i].status != SubStatus::Pending,
    ensures
        ({
            let (s1, a1) = next(s, SessionEvent::Received { frame: Frame::Reconnect { reconnect_url: url }, now: t1 });
            let (s2, a2) = next(s1, SessionEvent::Connected { now: t2 });
            let (s3, a3) = next(s2, SessionEvent::Received { frame: Frame::Welcome { session_id: id, keepalive_timeout_secs: keepalive }, now: t3 });
            &&& s1.state == SessionState::Reconnecting
            &&& target_url(s1) == url@
            &&& a1 == seq![SessionAction::Connect { delay_secs: 0 }]
            &&& a2.len() == 0
            &&& a3.len() == 0
            &&& s3.state == SessionState::Active
            &&& s3.session_id == Some(id@)
            &&& s3.subs == s.subs
        }),
{
    lemma_registrations_none_pending(s.subs, s.subs.len());
}

/// After a liveness reconnect, a welcome with a different session id makes
/// the manager register every desired subscription again.
pub proof fn resubscribe_on_session_change(s: SessionView, id: String, keepalive: u64, t1: u64, t2: u64, t3: u64)
    requires
        s.wf(),
        s.state == SessionState::Active,
        s.session_id is Some,
        s.session_id != Some(id@),
        silent_too_long(s, t1),
    ensures
        ({
            let (s1, a1) = next(s, SessionEvent::Tick { now: t1 });
            let (s2, a2) = next(s1, SessionEvent::Connected { now: t2 });
            let (s3, a3) = next(s2, SessionEvent::Received { frame: Frame::Welcome { session_id: id, keepalive_timeout_secs: keepalive }, now: t3 });
            &&& s1.state == SessionState::Reconnecting
            &&& target_url(s1) == s.connect_url
            &&& a1 == seq![SessionAction::Connect { delay_secs: 0 }]
            &&& a2.len() == 0
            &&& s3.state == SessionState::Active
            &&& s3.session_id == Some(id@)
            &&& a3 == Seq::new(s.subs.len(), |i: int| SessionAction::Register { index: i as usize })
        }),
{
    lemma_registrations_all_pending(s.subs.len(), s.subs.len());
}

/// An active session that has heard nothing for longer than the multiplier
/// times the keepalive timeout leaves `Active` for a reconnect to the configured
/// endpoint; before that, a tick changes nothing.
pub proof fn keepalive_liveness(s: SessionView, now: u64)
    requires
        s.wf(),
        s.state == SessionState::Active,
    ensures
        ({
            let (t, acts) = next(s, SessionEvent::Tick { now });
            &&& silent_too_long(s, now) ==> t.state == SessionState::Reconnecting && target_url(t) == s.connect_url
                && acts == seq![SessionAction::Connect { delay_secs: 0 }]
            &&& !silent_too_long(s, now) ==> t == s && acts.len() == 0
        }),
{
}

/// A burst of notification frames is answered with one delivery per frame that
/// matches an active subscription, in arrival order, and nothing else; the
/// subscriptions stay as they were.
pub proof fn notifications_keep_order(s: SessionView, evs: Seq<SessionEvent>)
    requires
        s.wf(),
        s.state == SessionState::Active,
        forall|k: int| 0 <= k < evs.len() ==> is_notification(#[trigger] evs[k]),
    ensures
        run(s, evs).0.state == SessionState::Active,
        run(s, evs).0.subs == s.subs,
        run(s, evs).1 == deliveries(s.subs, evs),
    decreases evs.len(),
{
    if evs.len() > 0 {
        let init = evs.drop_last();
        assert forall|k: int| 0 <= k < init.len() implies is_notification(#[trigger] init[k]) by {
            assert(init[k] == evs[k]);
        }
        notifications_keep_order(s, init);
        assert(is_notification(evs[evs.len() - 1]));
    }
}

/// Revoking one of two active subscriptions marks only that one `Failed`; the
/// other stays `Active` and its notifications are still delivered.
pub proof fn revocation_isolation(s: SessionView, i: int, j: int, revoked: String, kept: String, now: u64, later: u64)
    requires
        s.wf(),
        s.state == SessionState::Active,
        0 <= i < s.subs.len(),
        0 <= j < s.subs.len(),
        i != j,
        s.subs[i].id == Some(revoked@),
        s.subs[j] == (SubView { status: SubStatus::Active, id: Some(kept@) }),
        forall|m: int| 0 <= m < s.subs.len() && s.subs[m].id == Some(revoked@) ==> m == i,
        forall|m: int| 0 <= m < s.subs.len() && s.subs[m].id == Some(kept@) ==> m == j,
    ensures
        ({
            let (s1, a1) = next(s, SessionEvent::Received { frame: Frame::Revocation { subscription_id: revoked }, now });
            let (s2, a2) = next(s1, SessionEvent::Received { frame: Frame::Notification { subscription_id: kept }, now: later });
            &&& s1.state == SessionState::Active
            &&& s1.subs[i].status == SubStatus::Failed
            &&& s1.subs[j] == s.subs[j]
            &&& a1 == seq![SessionAction::ReportRevoked { index: i as usize }]
            &&& a2 == seq![SessionAction::Deliver { index: j as usize }]
        }),
{
    lemma_find_unique(s.subs, revoked@, false, 0, i);
    let s1 = next(s, SessionEvent::Received { frame: Frame::Revocation { subscription_id: revoked }, now }).0;
    assert(s1.subs[j] == s.subs[j]);
    assert forall|m: int| 0 <= m < s1.subs.len() && s1.subs[m].id == Some(kept@) implies m == j by {
        if m != i {
            assert(s1.subs[m] == s.subs[m]);
        }
    }
    lemma_find_unique(s1.subs, kept@, true, 0, j);
}

} // verus!
