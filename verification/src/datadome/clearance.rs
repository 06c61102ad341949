//! The decisions of the DataDome clearance loop.

use crate::datadome::detection::{DataDomeSurface, DetectionSnapshot};
use crate::search::is_first;
use crate::text::opt_chars;
use vstd::prelude::*;

verus! {

/// Terminal outcome of a clearance attempt.
#[derive(Debug, Clone, PartialEq, Eq)]
pub enum ClearanceOutcome {
    /// The datadome cookie was acquired and the challenge markers are gone.
    Cleared { datadome: String },
    /// The markers cleared but no datadome cookie was observed.
    ChallengeGone,
    /// No DataDome surface at call time.
    AlreadyClear,
    /// The IP is banned; nothing in-browser clears this.
    Blocked,
    /// The deadline elapsed; the last surface observed, if any.
    TimedOut { last_surface: Option<DataDomeSurface> },
}

/// Is there nothing to clear: no surface and a clean body? Decided once,
/// before the loop; inside the loop a clean page means the challenge
/// resolved.
pub fn is_already_clear(snap: &DetectionSnapshot) -> (r: bool)
    ensures
        r == (snap.surface == DataDomeSurface::Absent && snap.body_clean),
{
    snap.surface == DataDomeSurface::Absent && snap.body_clean
}

/// What one probe inside the loop calls for.
#[derive(Debug, Clone, PartialEq, Eq)]
pub enum PollStep {
    /// The run ends with this outcome.
    Finish(ClearanceOutcome),
    /// Escalate the CAPTCHA to the solver, apply its cookie, then probe again.
    SolveCaptcha,
    /// Keep polling.
    Continue,
}

/// The datadome cookie, when set and non-empty.
pub open spec fn live_cookie(snap: DetectionSnapshot) -> Option<Seq<char>> {
    match snap.datadome {
        Some(c) => if c@.len() > 0 {
            Some(c@)
        } else {
            None
        },
        None => None,
    }
}

/// What a probe inside the loop decides, taken by value.
pub enum Decision {
    Blocked,
    Solve,
    Cleared(Seq<char>),
    Gone,
    Continue,
}

/// What a probe inside the loop decides.
pub open spec fn decide(snap: DetectionSnapshot) -> Decision {
    match snap.surface {
        DataDomeSurface::Block => Decision::Blocked,
        DataDomeSurface::Captcha => Decision::Solve,
        _ => match live_cookie(snap) {
            Some(c) if snap.body_clean => Decision::Cleared(c),
            None if snap.body_clean && snap.surface == DataDomeSurface::Absent => Decision::Gone,
            _ => Decision::Continue,
        },
    }
}

/// A [`PollStep`] taken by value.
pub open spec fn step_view(r: PollStep) -> Decision {
    match r {
        PollStep::Finish(ClearanceOutcome::Blocked) => Decision::Blocked,
        PollStep::Finish(ClearanceOutcome::Cleared { datadome }) => Decision::Cleared(datadome@),
        PollStep::Finish(_) => Decision::Gone,
        PollStep::SolveCaptcha => Decision::Solve,
        PollStep::Continue => Decision::Continue,
    }
}

/// The last surface once a probe is taken in: a probe that does not end the
/// run records its surface.
pub open spec fn recorded(snap: DetectionSnapshot, last: Option<DataDomeSurface>) -> Option<
    DataDomeSurface,
> {
    match decide(snap) {
        Decision::Solve | Decision::Continue => Some(snap.surface),
        _ => last,
    }
}

/// How a run over the probes `snaps` ends, `last` being the last surface
/// recorded so far and `solver` whether a CAPTCHA solver is registered; the
/// probes running out is the deadline.
pub enum RunEnd {
    Blocked,
    CaptchaRequired,
    Cleared(Seq<char>),
    Gone,
    TimedOut(Option<DataDomeSurface>),
}

/// The end of a run over the probes `snaps`, taking each in with
/// [`poll_step`]: a ban, a CAPTCHA with no solver, clearance and the
/// challenge gone end it; a solved CAPTCHA and every other probe go on.
pub open spec fn run(snaps: Seq<DetectionSnapshot>, last: Option<DataDomeSurface>, solver: bool) -> RunEnd
    decreases snaps.len(),
{
    if snaps.len() == 0 {
        RunEnd::TimedOut(last)
    } else {
        let s = snaps[0];
        match decide(s) {
            Decision::Blocked => RunEnd::Blocked,
            Decision::Solve => if solver {
                run(snaps.drop_first(), recorded(s, last), solver)
            } else {
                RunEnd::CaptchaRequired
            },
            Decision::Cleared(c) => RunEnd::Cleared(c),
            Decision::Gone => RunEnd::Gone,
            Decision::Continue => run(snaps.drop_first(), recorded(s, last), solver),
        }
    }
}

/// Does the probe `s` end a run (with `solver` telling whether a CAPTCHA
/// solver is registered)?
pub open spec fn ends_run(solver: bool) -> spec_fn(DetectionSnapshot) -> bool {
    |s: DetectionSnapshot| !(decide(s) is Continue) && !(decide(s) is Solve && solver)
}

/// How the probe `s`, which ends a run, ends it.
pub open spec fn end_of(s: DetectionSnapshot) -> RunEnd {
    match decide(s) {
        Decision::Blocked => RunEnd::Blocked,
        Decision::Cleared(c) => RunEnd::Cleared(c),
        Decision::Gone => RunEnd::Gone,
        _ => RunEnd::CaptchaRequired,
    }
}

/// A run over a sequence of probes ends at the first probe that is banned,
/// shows a CAPTCHA with no solver registered, carries a non-empty datadome
/// cookie on a clean body, or is clean with neither cookie nor surface; when
/// no probe before the deadline does, it times out with the surface of the
/// last probe. An empty cookie never counts as clearance.
pub proof fn datadome_run_law(snaps: Seq<DetectionSnapshot>, solver: bool)
    ensures
        forall|i: int| is_first(snaps, ends_run(solver), i) ==> run(snaps, None, solver) == end_of(
            snaps[i],
        ),
        (forall|i: int| 0 <= i < snaps.len() ==> !(ends_run(solver))(#[trigger] snaps[i])) ==> run(
            snaps,
            None,
            solver,
        ) == RunEnd::TimedOut(
            if snaps.len() == 0 {
                None
            } else {
                Some(snaps.last().surface)
            },
        ),
        run(snaps, None, solver) matches RunEnd::Cleared(c) ==> c.len() > 0,
{
    lemma_run(snaps, None, solver);
}

proof fn lemma_run(snaps: Seq<DetectionSnapshot>, last: Option<DataDomeSurface>, solver: bool)
    ensures
        forall|i: int| is_first(snaps, ends_run(solver), i) ==> run(snaps, last, solver) == end_of(
            snaps[i],
        ),
        (forall|i: int| 0 <= i < snaps.len() ==> !(ends_run(solver))(#[trigger] snaps[i])) ==> run(
            snaps,
            last,
            solver,
        ) == RunEnd::TimedOut(
            if snaps.len() == 0 {
                last
            } else {
                Some(snaps.last().surface)
            },
        ),
        run(snaps, last, solver) matches RunEnd::Cleared(c) ==> c.len() > 0,
    decreases snaps.len(),
{
    if snaps.len() > 0 {
        let s = snaps[0];
        let rest = snaps.drop_first();
        lemma_run(rest, recorded(s, last), solver);
        assert forall|i: int| is_first(snaps, ends_run(solver), i) implies run(snaps, last, solver)
            == end_of(snaps[i]) by {
            if i > 0 {
                assert(is_first(rest, ends_run(solver), i - 1)) by {
                    assert forall|j: int| 0 <= j < i - 1 implies !(ends_run(solver))(
                        #[trigger] rest[j],
                    ) by {
                        assert(rest[j] == snaps[j + 1]);
                    }
                    assert(rest[i - 1] == snaps[i]);
                }
                assert(!(ends_run(solver))(snaps[0]));
            }
        }
        if forall|i: int| 0 <= i < snaps.len() ==> !(ends_run(solver))(#[trigger] snaps[i]) {
            assert(!(ends_run(solver))(snaps[0]));
            assert forall|j: int| 0 <= j < rest.len() implies !(ends_run(solver))(
                #[trigger] rest[j],
            ) by {
                assert(rest[j] == snaps[j + 1]);
            }
            if rest.len() > 0 {
                assert(rest.last() == snaps.last());
            } else {
                assert(decide(s) is Continue || decide(s) is Solve);
            }
        }
    }
}

/// Decide what a probe inside the loop calls for, and record the surface it
/// saw. A ban ends the run; a CAPTCHA is escalated; otherwise a live cookie
/// on a clean body is clearance, and a clean body with no cookie and no
/// surface is the challenge gone.
pub fn poll_step(snap: &DetectionSnapshot, last_surface: &mut Option<DataDomeSurface>) -> (r:
    PollStep)
    ensures
        match snap.surface {
            DataDomeSurface::Block => r == PollStep::Finish(ClearanceOutcome::Blocked)
                && *final(last_surface) == *old(last_surface),
            DataDomeSurface::Captcha => r == PollStep::SolveCaptcha && *final(last_surface)
                == Some(DataDomeSurface::Captcha),
            _ => match live_cookie(*snap) {
                Some(c) if snap.body_clean => r matches PollStep::Finish(
                    ClearanceOutcome::Cleared { datadome },
                ) && datadome@ == c && *final(last_surface) == *old(last_surface),
                None if snap.body_clean && snap.surface == DataDomeSurface::Absent => r
                    == PollStep::Finish(ClearanceOutcome::ChallengeGone) && *final(last_surface)
                    == *old(last_surface),
                _ => r == PollStep::Continue && *final(last_surface) == Some(snap.surface),
            },
        },
        step_view(r) == decide(*snap),
        *final(last_surface) == recorded(*snap, *old(last_surface)),
{
    match snap.surface {
        DataDomeSurface::Block => PollStep::Finish(ClearanceOutcome::Blocked),
        DataDomeSurface::Captcha => {
            *last_surface = Some(DataDomeSurface::Captcha);
            PollStep::SolveCaptcha
        },
        _ => {
            let cookie = match &snap.datadome {
                Some(c) => if !c.as_str().is_empty() {
                    Some(c.clone())
                } else {
                    None
                },
                None => None,
            };
            match cookie {
                Some(c) => {
                    if snap.body_clean {
                        return PollStep::Finish(ClearanceOutcome::Cleared { datadome: c });
                    }
                },
                None => {
                    if snap.body_clean && snap.surface == DataDomeSurface::Absent {
                        return PollStep::Finish(ClearanceOutcome::ChallengeGone);
                    }
                },
            }
            *last_surface = Some(snap.surface);
            PollStep::Continue
        },
    }
}

} // verus!
