//! The decisions of the Imperva clearance loop.

use crate::imperva::detection::{CaptchaKind, CookieSnapshot, DetectionSnapshot, ImpervaSurface};
use crate::search::is_first;
use vstd::prelude::*;

verus! {

/// Outcome of a clearance attempt.
#[derive(Debug, Clone, PartialEq, Eq)]
pub enum ClearanceOutcome {
    /// The reese84 cookie was acquired and the body markers are gone.
    TokenAcquired { reese84: String, sessions: Vec<CookieSnapshot> },
    /// The body markers are gone but there is no reese84 token.
    ChallengeGone,
    /// No Imperva surface at call time.
    AlreadyClear,
    /// The deadline elapsed; the last surface observed, if any.
    TimedOut { last_surface: Option<ImpervaSurface> },
}

/// What the first probe, before the loop, calls for.
#[derive(Debug, Clone, Copy, PartialEq, Eq, Structural)]
pub enum FirstProbe {
    /// Nothing to clear.
    AlreadyClear,
    /// A CAPTCHA of this kind: escalate to the solver, then probe afresh.
    Solve(CaptchaKind),
    /// Poll, starting from this probe.
    Poll,
}

/// What the first probe calls for: no surface and a clean body is nothing to
/// clear; a CAPTCHA is escalated before polling.
pub fn first_probe(snap: &DetectionSnapshot) -> (r: FirstProbe)
    ensures
        r == (if snap.surface == ImpervaSurface::Absent && snap.body_clean {
            FirstProbe::AlreadyClear
        } else {
            match snap.surface {
                ImpervaSurface::Captcha(k) => FirstProbe::Solve(k),
                _ => FirstProbe::Poll,
            }
        }),
{
    if snap.surface == ImpervaSurface::Absent && snap.body_clean {
        return FirstProbe::AlreadyClear;
    }
    match snap.surface {
        ImpervaSurface::Captcha(k) => FirstProbe::Solve(k),
        _ => FirstProbe::Poll,
    }
}

/// Ticks on one unchanged surface after which the stall hint is logged.
pub const STALL_HINT_TICKS: u32 = 10;

/// What the loop remembers between probes.
#[derive(Debug, Clone, Copy, PartialEq, Eq, Structural)]
pub struct PollState {
    /// The last surface a non-terminal probe showed.
    pub last_surface: Option<ImpervaSurface>,
    /// The surface of the previous non-terminal probe.
    pub prev_surface: Option<ImpervaSurface>,
    /// Consecutive probes on an unchanged surface.
    pub stall_ticks: u32,
    /// Whether the stall hint has been logged.
    pub warned_stall: bool,
}

impl PollState {
    /// The state before the first probe.
    pub fn new() -> (r: Self)
        ensures
            r == (PollState {
                last_surface: None,
                prev_surface: None,
                stall_ticks: 0,
                warned_stall: false,
            }),
    {
        PollState { last_surface: None, prev_surface: None, stall_ticks: 0, warned_stall: false }
    }
}

/// What a probe inside the loop calls for.
#[derive(Debug, Clone, PartialEq, Eq)]
pub enum PollStep {
    /// The run ends with this outcome.
    Finish(ClearanceOutcome),
    /// A CAPTCHA of this kind appeared (its surface is recorded): escalate
    /// to the solver (without one the run fails with `CaptchaRequired`),
    /// then probe afresh.
    Solve(CaptchaKind),
    /// Keep polling; `warn_stall` when the stall hint is due now.
    Continue { warn_stall: bool },
}

/// The reese84 cookie, when set and non-empty.
pub open spec fn live_token(snap: DetectionSnapshot) -> Option<Seq<char>> {
    match snap.reese84 {
        Some(t) => if t@.len() > 0 {
            Some(t@)
        } else {
            None
        },
        None => None,
    }
}

/// What a probe inside the loop decides, taken by value.
pub enum Decision {
    Token(Seq<char>, Seq<CookieSnapshot>),
    Gone,
    Solve(CaptchaKind),
    Continue,
}

/// What a probe inside the loop decides.
pub open spec fn decide(snap: DetectionSnapshot) -> Decision {
    match live_token(snap) {
        Some(t) if snap.body_clean => Decision::Token(t, snap.sessions@),
        None if snap.body_clean && snap.surface == ImpervaSurface::Absent => Decision::Gone,
        _ => match snap.surface {
            ImpervaSurface::Captcha(k) => Decision::Solve(k),
            _ => Decision::Continue,
        },
    }
}

/// A [`PollStep`] taken by value (the stall hint aside).
pub open spec fn step_view(r: PollStep) -> Decision {
    match r {
        PollStep::Finish(ClearanceOutcome::TokenAcquired { reese84, sessions }) => Decision::Token(
            reese84@,
            sessions@,
        ),
        PollStep::Finish(_) => Decision::Gone,
        PollStep::Solve(k) => Decision::Solve(k),
        PollStep::Continue { .. } => Decision::Continue,
    }
}

/// The last surface once a probe is taken in: a probe that does not end the
/// run records its surface.
pub open spec fn recorded(snap: DetectionSnapshot, last: Option<ImpervaSurface>) -> Option<
    ImpervaSurface,
> {
    match decide(snap) {
        Decision::Solve(_) | Decision::Continue => Some(snap.surface),
        _ => last,
    }
}

/// How a run over probes ends; the probes running out is the deadline.
pub enum RunEnd {
    TokenAcquired(Seq<char>, Seq<CookieSnapshot>),
    ChallengeGone,
    CaptchaRequired(CaptchaKind),
    TimedOut(Option<ImpervaSurface>),
}

/// The end of a run over the probes `snaps`, taking each in with
/// [`poll_step`], `last` being the last surface recorded so far and `solver`
/// whether a CAPTCHA solver is registered: a token on a clean body, the
/// challenge gone and a CAPTCHA with no solver end it.
pub open spec fn run(snaps: Seq<DetectionSnapshot>, last: Option<ImpervaSurface>, solver: bool) -> RunEnd
    decreases snaps.len(),
{
    if snaps.len() == 0 {
        RunEnd::TimedOut(last)
    } else {
        let s = snaps[0];
        match decide(s) {
            Decision::Token(t, c) => RunEnd::TokenAcquired(t, c),
            Decision::Gone => RunEnd::ChallengeGone,
            Decision::Solve(k) => if solver {
                run(snaps.drop_first(), recorded(s, last), solver)
            } else {
                RunEnd::CaptchaRequired(k)
            },
            Decision::Continue => run(snaps.drop_first(), recorded(s, last), solver),
        }
    }
}

/// Does the probe `s` end a run?
pub open spec fn ends_run(solver: bool) -> spec_fn(DetectionSnapshot) -> bool {
    |s: DetectionSnapshot| !(decide(s) is Continue) && !(decide(s) is Solve && solver)
}

/// How the probe `s`, which ends a run, ends it.
pub open spec fn end_of(s: DetectionSnapshot) -> RunEnd {
    match decide(s) {
        Decision::Token(t, c) => RunEnd::TokenAcquired(t, c),
        Decision::Gone => RunEnd::ChallengeGone,
        Decision::Solve(k) => RunEnd::CaptchaRequired(k),
        Decision::Continue => RunEnd::TimedOut(None),
    }
}

/// A run over a sequence of probes ends at the first probe with a non-empty
/// reese84 cookie on a clean body (with that token and the probe's
/// sessions), or with no token on a clean body and no surface, or with a
/// CAPTCHA while no solver is registered; when no probe before the deadline
/// does, it times out with the surface of the last probe. An empty reese84
/// never counts as a token.
pub proof fn imperva_run_law(snaps: Seq<DetectionSnapshot>, solver: bool)
    ensures
        forall|i: int| is_first(snaps, ends_run(solver), i) ==> run(snaps, None, solver) == end_of(
            snaps[i],
        ),
        (forall|i: int| 0 <= i < snaps.len() ==> !(ends_run(solver))(#[trigger] snaps[i])) ==> run(
            snaps,
            None,
            solver,
        ) == RunEnd::TimedOut(
            if snaps.len() == 0 {
                None
            } else {
                Some(snaps.last().surface)
            },
        ),
        run(snaps, None, solver) matches RunEnd::TokenAcquired(t, _) ==> t.len() > 0,
{
    lemma_run(snaps, None, solver);
}

proof fn lemma_run(snaps: Seq<DetectionSnapshot>, last: Option<ImpervaSurface>, solver: bool)
    ensures
        forall|i: int| is_first(snaps, ends_run(solver), i) ==> run(snaps, last, solver) == end_of(
            snaps[i],
        ),
        (forall|i: int| 0 <= i < snaps.len() ==> !(ends_run(solver))(#[trigger] snaps[i])) ==> run(
            snaps,
            last,
            solver,
        ) == RunEnd::TimedOut(
            if snaps.len() == 0 {
                last
            } else {
                Some(snaps.last().surface)
            },
        ),
        run(snaps, last, solver) matches RunEnd::TokenAcquired(t, _) ==> t.len() > 0,
    decreases snaps.len(),
{
    if snaps.len() > 0 {
        let s = snaps[0];
        let rest = snaps.drop_first();
        lemma_run(rest, recorded(s, last), solver);
        assert forall|i: int| is_first(snaps, ends_run(solver), i) implies run(snaps, last, solver)
            == end_of(snaps[i]) by {
            if i > 0 {
                assert(is_first(rest, ends_run(solver), i - 1)) by {
                    assert forall|j: int| 0 <= j < i - 1 implies !(ends_run(solver))(
                        #[trigger] rest[j],
                    ) by {
                        assert(rest[j] == snaps[j + 1]);
                    }
                    assert(rest[i - 1] == snaps[i]);
                }
                assert(!(ends_run(solver))(snaps[0]));
            }
        }
        if forall|i: int| 0 <= i < snaps.len() ==> !(ends_run(solver))(#[trigger] snaps[i]) {
            assert(!(ends_run(solver))(snaps[0]));
            assert forall|j: int| 0 <= j < rest.len() implies !(ends_run(solver))(
                #[trigger] rest[j],
            ) by {
                assert(rest[j] == snaps[j + 1]);
            }
            if rest.len() > 0 {
                assert(rest.last() == snaps.last());
            }
        }
    }
}

/// Decide what a probe calls for. A live token on a clean body is clearance
/// (with the session cookies); a clean body with no token and no surface is
/// the challenge gone (lingering legacy cookies keep the run going); a
/// CAPTCHA surface is escalated, as on the first probe; otherwise the surface is recorded and a stall on one surface is counted,
/// the hint being due once per run, on the tenth unchanged probe.
pub fn poll_step(state: &mut PollState, snap: DetectionSnapshot) -> (r: PollStep)
    requires
        old(state).stall_ticks < u32::MAX,
    ensures
        match live_token(snap) {
            Some(t) if snap.body_clean => r matches PollStep::Finish(
                ClearanceOutcome::TokenAcquired { reese84, sessions },
            ) && reese84@ == t && sessions == snap.sessions && *final(state) == *old(state),
            None if snap.body_clean && snap.surface == ImpervaSurface::Absent => r
                == PollStep::Finish(ClearanceOutcome::ChallengeGone) && *final(state)
                == *old(state),
            _ if snap.surface is Captcha => r == PollStep::Solve(snap.surface->Captcha_0)
                && *final(state) == (PollState { last_surface: Some(snap.surface), ..*old(state) }),
            _ => {
                let stall: int = if Some(snap.surface) == old(state).prev_surface {
                    old(state).stall_ticks + 1
                } else {
                    0
                };
                let warn = stall == STALL_HINT_TICKS && !old(state).warned_stall;
                &&& r == (PollStep::Continue { warn_stall: warn })
                &&& final(state).last_surface == Some(snap.surface)
                &&& final(state).prev_surface == Some(snap.surface)
                &&& final(state).stall_ticks == stall
                &&& final(state).warned_stall == (old(state).warned_stall || warn)
            },
        },
        step_view(r) == decide(snap),
        final(state).last_surface == recorded(snap, old(state).last_surface),
{
    let token = match &snap.reese84 {
        Some(t) => if !t.as_str().is_empty() {
            Some(t.clone())
        } else {
            None
        },
        None => None,
    };
    let surface_clear = snap.surface == ImpervaSurface::Absent;
    match token {
        Some(t) => {
            if snap.body_clean {
                return PollStep::Finish(
                    ClearanceOutcome::TokenAcquired { reese84: t, sessions: snap.sessions },
                );
            }
        },
        None => {
            if snap.body_clean && surface_clear {
                return PollStep::Finish(ClearanceOutcome::ChallengeGone);
            }
        },
    }
    if let ImpervaSurface::Captcha(k) = snap.surface {
        state.last_surface = Some(snap.surface);
        return PollStep::Solve(k);
    }
    state.last_surface = Some(snap.surface);
    state.stall_ticks = if Some(snap.surface) == state.prev_surface {
        state.stall_ticks + 1
    } else {
        0
    };
    state.prev_surface = Some(snap.surface);
    let mut warn = false;
    if state.stall_ticks == STALL_HINT_TICKS && !state.warned_stall {
        warn = true;
        state.warned_stall = true;
    }
    PollStep::Continue { warn_stall: warn }
}

} // verus!
