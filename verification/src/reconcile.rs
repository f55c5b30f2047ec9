use vstd::prelude::*;

use crate::funbox::ApiError;
use crate::util::is_ipv4_chars;
use crate::util::is_ipv4;

verus! {

/// Where the reconciliation loop stands: polling the router, waiting for a
/// fresh login, or ended for good.
#[derive(Clone, Copy, PartialEq, Eq, Structural)]
pub enum LoopState {
    Polling,
    AwaitingReauthentication,
    Terminated,
}

/// The reconciliation loop's state: where it stands, and the last public
/// address it pushed to the providers (empty while unknown).
pub struct Reconciler {
    pub state: LoopState,
    pub last_ip: String,
}

/// Mathematical image of a `Reconciler`.
pub struct ReconcilerView {
    pub state: LoopState,
    pub last_ip: Seq<char>,
}

impl View for Reconciler {
    type V = ReconcilerView;

    open spec fn view(&self) -> ReconcilerView {
        ReconcilerView { state: self.state, last_ip: self.last_ip@ }
    }
}

/// Mathematical image of one poll of the router's public address.
pub enum PollResultView {
    Ip(Seq<char>),
    Failed(Seq<char>),
    Unauthorized,
}

/// The image of one poll result as the router session reports it.
pub open spec fn poll_result_view(r: Result<String, ApiError>) -> PollResultView {
    match r {
        Ok(ip) => PollResultView::Ip(ip@),
        Err(ApiError::Message(m)) => PollResultView::Failed(m@),
        Err(ApiError::Unauthorized) => PollResultView::Unauthorized,
    }
}

/// What one poll asks of the surrounding loop.
pub enum PollStep {
    /// The reported address is not a valid dotted quad: log it, wait 15 s.
    InvalidIp(String),
    /// The address is the one already pushed: wait 1 s.
    Unchanged,
    /// A new valid address: push it to every provider, wait 1 s.
    Changed(String),
    /// A transient failure: log it, wait 30 s.
    Transient(String),
    /// The session expired: log in again before polling on.
    Reauthenticate,
}

/// Mathematical image of a `PollStep`.
pub enum PollStepView {
    InvalidIp(Seq<char>),
    Unchanged,
    Changed(Seq<char>),
    Transient(Seq<char>),
    Reauthenticate,
}

impl View for PollStep {
    type V = PollStepView;

    open spec fn view(&self) -> PollStepView {
        match self {
            PollStep::InvalidIp(ip) => PollStepView::InvalidIp(ip@),
            PollStep::Unchanged => PollStepView::Unchanged,
            PollStep::Changed(ip) => PollStepView::Changed(ip@),
            PollStep::Transient(m) => PollStepView::Transient(m@),
            PollStep::Reauthenticate => PollStepView::Reauthenticate,
        }
    }
}

/// How one poll result moves the loop on: an invalid address and a repeated
/// address change nothing; a new valid address is installed as last known and
/// pushed out; a message failure keeps polling; only the unauthorized signal
/// leaves `Polling`, towards re-authentication.
pub open spec fn poll_transition(rec: ReconcilerView, r: PollResultView) -> (
    ReconcilerView,
    PollStepView,
) {
    match r {
        PollResultView::Ip(ip) => if !is_ipv4_chars(ip) {
            (rec, PollStepView::InvalidIp(ip))
        } else if ip == rec.last_ip {
            (rec, PollStepView::Unchanged)
        } else {
            (ReconcilerView { last_ip: ip, ..rec }, PollStepView::Changed(ip))
        },
        PollResultView::Failed(m) => (rec, PollStepView::Transient(m)),
        PollResultView::Unauthorized => (
            ReconcilerView { state: LoopState::AwaitingReauthentication, ..rec },
            PollStepView::Reauthenticate,
        ),
    }
}

/// What the outcome of a fresh login asks of the surrounding loop.
pub enum LoginStep {
    /// Logged in again: resume polling at once.
    Resume,
    /// The login failed with a message: log it and end the process.
    FatalError(String),
    /// The login itself came back unauthorized: log that distinctly and end.
    FatalUnauthorized,
}

/// Mathematical image of a `LoginStep`.
pub enum LoginStepView {
    Resume,
    FatalError(Seq<char>),
    FatalUnauthorized,
}

impl View for LoginStep {
    type V = LoginStepView;

    open spec fn view(&self) -> LoginStepView {
        match self {
            LoginStep::Resume => LoginStepView::Resume,
            LoginStep::FatalError(m) => LoginStepView::FatalError(m@),
            LoginStep::FatalUnauthorized => LoginStepView::FatalUnauthorized,
        }
    }
}

/// Mathematical image of one re-login attempt.
pub enum LoginResultView {
    LoggedIn,
    Failed(Seq<char>),
    Unauthorized,
}

/// The image of one login result as the router session reports it.
pub open spec fn login_result_view(r: Result<(), ApiError>) -> LoginResultView {
    match r {
        Ok(()) => LoginResultView::LoggedIn,
        Err(ApiError::Message(m)) => LoginResultView::Failed(m@),
        Err(ApiError::Unauthorized) => LoginResultView::Unauthorized,
    }
}

/// How a re-login moves the loop on: success resumes polling with the
/// last-known address kept; any failure is fatal and terminates the loop.
pub open spec fn login_transition(rec: ReconcilerView, r: LoginResultView) -> (
    ReconcilerView,
    LoginStepView,
) {
    match r {
        LoginResultView::LoggedIn => (
            ReconcilerView { state: LoopState::Polling, ..rec },
            LoginStepView::Resume,
        ),
        LoginResultView::Failed(m) => (
            ReconcilerView { state: LoopState::Terminated, ..rec },
            LoginStepView::FatalError(m),
        ),
        LoginResultView::Unauthorized => (
            ReconcilerView { state: LoopState::Terminated, ..rec },
            LoginStepView::FatalUnauthorized,
        ),
    }
}

impl Reconciler {
    /// Starts the loop polling, with no address known yet.
    pub fn new() -> (r: Reconciler)
        ensures
            r@.state == LoopState::Polling,
            r@.last_ip.len() == 0,
    {
        Reconciler { state: LoopState::Polling, last_ip: String::new() }
    }

    /// Feeds one poll result to the loop and returns what to do next.
    pub fn on_poll(&mut self, r: Result<String, ApiError>) -> (d: PollStep)
        requires
            old(self)@.state == LoopState::Polling,
        ensures
            final(self)@ == poll_transition(old(self)@, poll_result_view(r)).0,
            d@ == poll_transition(old(self)@, poll_result_view(r)).1,
    {
        match r {
            Ok(ip) => {
                if !is_ipv4(&ip) {
                    PollStep::InvalidIp(ip)
                } else if ip == self.last_ip {
                    PollStep::Unchanged
                } else {
                    self.last_ip = ip.clone();
                    PollStep::Changed(ip)
                }
            },
            Err(ApiError::Message(m)) => PollStep::Transient(m),
            Err(ApiError::Unauthorized) => {
                self.state = LoopState::AwaitingReauthentication;
                PollStep::Reauthenticate
            },
        }
    }

    /// Feeds the outcome of a re-login to the loop and returns what to do next.
    pub fn on_login(&mut self, r: Result<(), ApiError>) -> (d: LoginStep)
        requires
            old(self)@.state == LoopState::AwaitingReauthentication,
        ensures
            final(self)@ == login_transition(old(self)@, login_result_view(r)).0,
            d@ == login_transition(old(self)@, login_result_view(r)).1,
    {
        match r {
            Ok(()) => {
                self.state = LoopState::Polling;
                LoginStep::Resume
            },
            Err(ApiError::Message(m)) => {
                self.state = LoopState::Terminated;
                LoginStep::FatalError(m)
            },
            Err(ApiError::Unauthorized) => {
                self.state = LoopState::Terminated;
                LoginStep::FatalUnauthorized
            },
        }
    }
}

/// How long the loop sleeps after a poll, in seconds.
pub open spec fn poll_delay(d: PollStepView) -> int {
    match d {
        PollStepView::InvalidIp(_) => 15,
        PollStepView::Unchanged => 1,
        PollStepView::Changed(_) => 1,
        PollStepView::Transient(_) => 30,
        PollStepView::Reauthenticate => 0,
    }
}

/// The sleep that follows one poll: 15 s after an invalid address, 30 s after
/// a transient failure, 1 s otherwise, and none before a re-login.
pub fn poll_delay_seconds(d: &PollStep) -> (secs: u64)
    ensures
        secs == poll_delay(d@),
{
    match d {
        PollStep::InvalidIp(_) => 15,
        PollStep::Unchanged => 1,
        PollStep::Changed(_) => 1,
        PollStep::Transient(_) => 30,
        PollStep::Reauthenticate => 0,
    }
}

/// Whether one poll result triggers a provider update pass when the loop sees
/// it in state `rec`: only a syntactically valid address that differs from the
/// last-known one does.
pub open spec fn triggers_update(rec: ReconcilerView, r: PollResultView) -> bool {
    match r {
        PollResultView::Ip(ip) => is_ipv4_chars(ip) && ip != rec.last_ip,
        PollResultView::Failed(_) => false,
        PollResultView::Unauthorized => false,
    }
}

/// A poll triggers a provider update exactly when its step is `Changed`, and
/// then the new address is the one installed as last known.
pub proof fn lemma_changed_iff_triggers(rec: ReconcilerView, r: PollResultView)
    ensures
        poll_transition(rec, r).1 is Changed <==> triggers_update(rec, r),
        triggers_update(rec, r) ==> (r matches PollResultView::Ip(ip) && poll_transition(rec, r).1
            == PollStepView::Changed(ip) && poll_transition(rec, r).0.last_ip == ip),
        !triggers_update(rec, r) ==> poll_transition(rec, r).0.last_ip == rec.last_ip,
{
}

/// Law: while polling, the unauthorized signal and only the unauthorized
/// signal moves the loop to re-authentication; a message failure keeps it
/// polling and never triggers a provider update.
pub proof fn lemma_unauthorized_drives_reauthentication(rec: ReconcilerView, r: PollResultView)
    requires
        rec.state == LoopState::Polling,
    ensures
        poll_transition(rec, r).0.state == LoopState::AwaitingReauthentication <==> r
            == PollResultView::Unauthorized,
        r == PollResultView::Unauthorized ==> poll_transition(rec, r).1
            == PollStepView::Reauthenticate,
        r matches PollResultView::Failed(m) ==> poll_transition(rec, r).0.state
            == LoopState::Polling && poll_transition(rec, r).1 == PollStepView::Transient(m)
            && !triggers_update(rec, r),
{
}

/// Law: a re-login outcome decides the loop's fate: success and only success
/// resumes polling, with the last-known address kept; a failure of either kind
/// terminates the loop.
pub proof fn lemma_relogin_decides_fate(rec: ReconcilerView, r: LoginResultView)
    requires
        rec.state == LoopState::AwaitingReauthentication,
    ensures
        login_transition(rec, r).0.state == LoopState::Polling <==> r
            == LoginResultView::LoggedIn,
        login_transition(rec, r).0.state == LoopState::Terminated <==> r
            != LoginResultView::LoggedIn,
        login_transition(rec, r).0.last_ip == rec.last_ip,
{
}

/// The loop's state after a run of polls, each fed in turn.
pub open spec fn run_polls(rec: ReconcilerView, rs: Seq<PollResultView>) -> ReconcilerView
    decreases rs.len(),
{
    if rs.len() == 0 {
        rec
    } else {
        poll_transition(run_polls(rec, rs.drop_last()), rs.last()).0
    }
}

/// The loop's state just before the `i`-th poll of a run.
pub open spec fn rec_before(rec0: ReconcilerView, rs: Seq<PollResultView>, i: int) -> ReconcilerView {
    run_polls(rec0, rs.take(i))
}

/// Whether the `i`-th poll of a run triggers a provider update pass.
pub open spec fn triggers_at(rec0: ReconcilerView, rs: Seq<PollResultView>, i: int) -> bool {
    triggers_update(rec_before(rec0, rs, i), rs[i])
}

/// Law: over any run of polls, a provider update pass is triggered at a poll
/// exactly when that poll reports a valid address different from the one last
/// installed; a triggering poll installs its address as the last-known one,
/// and every other poll leaves the last-known address alone. So each distinct
/// new valid address is pushed exactly once, and invalid or repeated
/// addresses are never pushed.
pub proof fn lemma_update_discipline(rec0: ReconcilerView, rs: Seq<PollResultView>, i: int)
    requires
        0 <= i < rs.len(),
    ensures
        triggers_at(rec0, rs, i) <==> (rs[i] matches PollResultView::Ip(ip) && is_ipv4_chars(ip)
            && ip != rec_before(rec0, rs, i).last_ip),
        triggers_at(rec0, rs, i) ==> (rs[i] matches PollResultView::Ip(ip) && rec_before(
            rec0,
            rs,
            i + 1,
        ).last_ip == ip),
        !triggers_at(rec0, rs, i) ==> rec_before(rec0, rs, i + 1).last_ip == rec_before(
            rec0,
            rs,
            i,
        ).last_ip,
{
    assert(rs.take(i + 1).drop_last() =~= rs.take(i));
    assert(rs.take(i + 1).last() == rs[i]);
}

/// Law: a poll result fed twice in a row never triggers a second provider
/// update: after the first, its address (when valid) is the last-known one.
pub proof fn lemma_repeat_never_updates(rec: ReconcilerView, r: PollResultView)
    ensures
        !triggers_update(poll_transition(rec, r).0, r),
{
}

/// Law: in a run whose polls from `i` through `t` all report the same result,
/// no poll after `i` triggers an update: the poll at `i` leaves the address
/// installed (when it is valid), and every later repeat finds it unchanged.
pub proof fn lemma_repeats_update_at_most_once(
    rec0: ReconcilerView,
    rs: Seq<PollResultView>,
    i: int,
    t: int,
)
    requires
        0 <= i < t < rs.len(),
        forall|u: int| i <= u <= t ==> rs[u] == rs[i],
    ensures
        !triggers_at(rec0, rs, t),
        rs[i] matches PollResultView::Ip(v) ==> (is_ipv4_chars(v) ==> rec_before(
            rec0,
            rs,
            t,
        ).last_ip == v),
    decreases t - i,
{
    assert(rs.take(t).drop_last() =~= rs.take(t - 1));
    assert(rs.take(t).last() == rs[t - 1]);
    if t == i + 1 {
    } else {
        lemma_repeats_update_at_most_once(rec0, rs, i, t - 1);
    }
}

} // verus!
