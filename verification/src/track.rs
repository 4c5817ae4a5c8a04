use crate::compare::Changes;
use crate::compare::compare_data;
use crate::compare::delta_spec;
use crate::compare::deltas_fit;
use crate::compare::zero_delta;
use crate::player::PlayerData;
use std::collections::HashMap;
use vstd::prelude::*;

verus! {

broadcast use vstd::std_specs::hash::group_hash_axioms;

/// The smallest poll interval a session may be started with.
pub const MIN_INTERVAL: u64 = 5;

/// Why a request was rejected before any work happened.
#[derive(Debug, Clone, Copy, PartialEq, Eq, Structural)]
pub enum TrackError {
    InvalidArgument,
}

/// What `status` reports of a tracking context.
#[derive(Debug, Clone, Copy, PartialEq, Eq, Structural)]
pub enum Status {
    Running,
    Idle,
}

/// Why a poll tick could not obtain a snapshot from the provider.
#[derive(Debug, Clone, Copy, PartialEq, Eq, Structural)]
pub enum FetchError {
    NotFound,
    Transport,
}

/// One tracking session: whether its loop is live, how many ticks have
/// succeeded, and which player it polls at which interval.
#[derive(Debug, Clone)]
pub struct Session {
    pub running: bool,
    pub count: u64,
    pub target: String,
    pub interval: u64,
}

/// What the session loop must do after a tick's snapshot fetch: give
/// up after a fetch failure, or persist the fresh snapshot and send the
/// rendered notification.
#[derive(Debug)]
pub enum TickOutcome {
    Failed,
    Notify { data: PlayerData, changes: Changes, is_new: bool },
}

/// The session registry: one session per tracking context, keyed by the
/// context's identity.
pub struct Tracker {
    sessions: HashMap<u64, Session>,
}

impl View for Tracker {
    type V = Map<u64, Session>;

    closed spec fn view(&self) -> Map<u64, Session> {
        self.sessions@
    }
}

/// What `status` reports over a registry: `Running` exactly when the
/// context holds a live session.
pub open spec fn status_spec(m: Map<u64, Session>, ctx: u64) -> Status {
    if m.contains_key(ctx) && m[ctx].running {
        Status::Running
    } else {
        Status::Idle
    }
}

/// The `start` transition: an interval below the minimum or an empty
/// target is rejected and creates no session; otherwise the context
/// gets a fresh live session with a zeroed counter.
pub open spec fn start_spec(m: Map<u64, Session>, ctx: u64, target: String, interval: u64) -> (
    Map<u64, Session>,
    Result<(), TrackError>,
) {
    if interval < MIN_INTERVAL || target@.len() == 0 {
        (m, Err(TrackError::InvalidArgument))
    } else {
        (m.insert(ctx, Session { running: true, count: 0, target, interval }), Ok(()))
    }
}

/// The `stop` transition: a live session is cleared and acknowledged;
/// stopping an idle context changes nothing and reports the no-op.
pub open spec fn stop_spec(m: Map<u64, Session>, ctx: u64) -> (Map<u64, Session>, bool) {
    if status_spec(m, ctx) == Status::Running {
        (m.insert(ctx, Session { running: false, ..m[ctx] }), true)
    } else {
        (m, false)
    }
}

/// The successor of the success counter, saturating at the top.
pub open spec fn next_count(c: u64) -> u64 {
    if c < u64::MAX {
        (c + 1) as u64
    } else {
        c
    }
}

/// The tick transition. A fetch failure terminates the session and
/// asks the loop to give up. A fetched snapshot bumps the counter and
/// asks the loop to persist and notify: with the delta against the
/// previous snapshot when one existed, else as a new player with the
/// zero delta.
pub open spec fn tick_spec(
    m: Map<u64, Session>,
    ctx: u64,
    previous: Option<PlayerData>,
    fetched: Result<PlayerData, FetchError>,
) -> (Map<u64, Session>, TickOutcome) {
    let s = m[ctx];
    match fetched {
        Result::Err(_) => (m.insert(ctx, Session { running: false, ..s }), TickOutcome::Failed),
        Result::Ok(d) => (
            m.insert(ctx, Session { count: next_count(s.count), ..s }),
            TickOutcome::Notify {
                data: d,
                changes: match previous {
                    Option::Some(p) => delta_spec(p, d),
                    Option::None => zero_delta(),
                },
                is_new: previous is None,
            },
        ),
    }
}

impl Tracker {
    /// A registry with no sessions.
    pub fn new() -> (t: Tracker)
        ensures
            t@ == Map::<u64, Session>::empty(),
    {
        Tracker { sessions: HashMap::new() }
    }

    /// Reports whether the context currently holds a live session.
    pub fn status(&self, ctx: u64) -> (s: Status)
        ensures
            s == status_spec(self@, ctx),
    {
        match self.sessions.get(&ctx) {
            Some(sess) => if sess.running {
                Status::Running
            } else {
                Status::Idle
            },
            None => Status::Idle,
        }
    }

    /// The cumulative success counter of the context's session; zero
    /// when it has none.
    pub fn success_count(&self, ctx: u64) -> (n: u64)
        ensures
            n == if self@.contains_key(ctx) {
                self@[ctx].count
            } else {
                0u64
            },
    {
        match self.sessions.get(&ctx) {
            Some(sess) => sess.count,
            None => 0,
        }
    }

    /// Starts tracking `target` for this context at the given interval.
    /// Rejected with `InvalidArgument`, before any session is created,
    /// when the interval is below the minimum or the target is empty.
    pub fn start(&mut self, ctx: u64, target: String, interval: u64) -> (r: Result<
        (),
        TrackError,
    >)
        ensures
            final(self)@ == start_spec(old(self)@, ctx, target, interval).0,
            r == start_spec(old(self)@, ctx, target, interval).1,
    {
        if interval < MIN_INTERVAL || target.as_str().is_empty() {
            return Err(TrackError::InvalidArgument);
        }
        self.sessions.insert(ctx, Session { running: true, count: 0, target, interval });
        Ok(())
    }

    /// Stops the context's session. Reports `true` when a live session
    /// was cleared, and `false`, with nothing changed, when the context
    /// was idle.
    pub fn stop(&mut self, ctx: u64) -> (r: bool)
        ensures
            final(self)@ == stop_spec(old(self)@, ctx).0,
            r == stop_spec(old(self)@, ctx).1,
    {
        let live = match self.sessions.get(&ctx) {
            Some(sess) => sess.running,
            None => false,
        };
        if live {
            let sess = self.sessions.remove(&ctx).unwrap();
            self.sessions.insert(
                ctx,
                Session {
                    running: false,
                    count: sess.count,
                    target: sess.target,
                    interval: sess.interval,
                },
            );
            proof {
                assert(self.sessions@ =~= stop_spec(old(self)@, ctx).0);
            }
            true
        } else {
            false
        }
    }

    /// Runs the decision part of one tick for a live session, after the
    /// loop has read the previously stored snapshot and asked the
    /// provider for a fresh one.
    pub fn process_tick(
        &mut self,
        ctx: u64,
        previous: Option<PlayerData>,
        fetched: Result<PlayerData, FetchError>,
    ) -> (out: TickOutcome)
        requires
            status_spec(old(self)@, ctx) == Status::Running,
            previous matches Some(p) ==> (fetched matches Ok(d) ==> deltas_fit(p, d)),
        ensures
            final(self)@ == tick_spec(old(self)@, ctx, previous, fetched).0,
            out == tick_spec(old(self)@, ctx, previous, fetched).1,
    {
        let sess = self.sessions.remove(&ctx).unwrap();
        match fetched {
            Err(_) => {
                self.sessions.insert(
                    ctx,
                    Session {
                        running: false,
                        count: sess.count,
                        target: sess.target,
                        interval: sess.interval,
                    },
                );
                proof {
                    assert(self.sessions@ =~= tick_spec(old(self)@, ctx, previous, fetched).0);
                }
                TickOutcome::Failed
            },
            Ok(d) => {
                let new_count = if sess.count < u64::MAX {
                    sess.count + 1
                } else {
                    sess.count
                };
                self.sessions.insert(
                    ctx,
                    Session {
                        running: sess.running,
                        count: new_count,
                        target: sess.target,
                        interval: sess.interval,
                    },
                );
                proof {
                    assert(self.sessions@ =~= tick_spec(old(self)@, ctx, previous, fetched).0);
                }
                let is_new = previous.is_none();
                let changes = match &previous {
                    Some(p) => compare_data(&d, p),
                    None => Changes::default(),
                };
                TickOutcome::Notify { data: d, changes, is_new }
            },
        }
    }
}

/// Law: a rejected `start` (an interval below the minimum) reports
/// `InvalidArgument` and leaves the registry exactly as it was.
pub proof fn lemma_rejected_start_creates_no_session(
    m: Map<u64, Session>,
    ctx: u64,
    target: String,
    interval: u64,
)
    requires
        interval < MIN_INTERVAL,
    ensures
        start_spec(m, ctx, target, interval) == (m, Err::<(), TrackError>(
            TrackError::InvalidArgument,
        )),
{
}

/// Law: after a successful `start`, the context's status is `Running`.
pub proof fn lemma_status_after_start(m: Map<u64, Session>, ctx: u64, target: String, interval: u64)
    requires
        interval >= MIN_INTERVAL,
        target@.len() > 0,
    ensures
        start_spec(m, ctx, target, interval).1 == Ok::<(), TrackError>(()),
        status_spec(start_spec(m, ctx, target, interval).0, ctx) == Status::Running,
{
}

/// Law: after `stop`, the context's status is `Idle`.
pub proof fn lemma_status_after_stop(m: Map<u64, Session>, ctx: u64)
    ensures
        status_spec(stop_spec(m, ctx).0, ctx) == Status::Idle,
{
}

/// Law: `stop` on an idle context is the acknowledged no-op, not an
/// error: it reports `false` and changes nothing.
pub proof fn lemma_stop_when_idle_is_noop(m: Map<u64, Session>, ctx: u64)
    requires
        status_spec(m, ctx) == Status::Idle,
    ensures
        stop_spec(m, ctx) == (m, false),
{
}

} // verus!
