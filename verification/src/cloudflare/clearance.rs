//! The decisions of the Turnstile clearance loop.
//!
//! Each tick the page is polled for a token, the challenge iframe's clickable
//! box and whether any marker is present. [`ClearanceState::on_poll`] decides
//! what the observation means; after any click, [`ClearanceState::end_tick`]
//! does the bookkeeping and says whether the deadline ended the run. The
//! waiting, the evaluation and the click itself are done around the library.

use vstd::prelude::*;

verus! {

/// Result of a clearance attempt.
#[derive(Debug, Clone, PartialEq, Eq)]
pub enum ClearanceOutcome {
    /// A configured token input picked up a non-empty value.
    TokenAcquired(String),
    /// The challenge stopped being actionable without yielding a token. This
    /// does not prove the challenge was cleared: a widget merely hidden after
    /// a click also ends here.
    ChallengeGone,
    /// The deadline elapsed; `saw_challenge` tells whether any marker was
    /// ever observed.
    TimedOut { saw_challenge: bool },
}

/// What one poll observation calls for.
#[derive(Debug, PartialEq, Eq)]
pub enum PollDecision {
    /// A token appeared: the run ends with it.
    Acquired(String),
    /// Scroll the widget into view, measure it again and click it.
    Click,
    /// The challenge stopped being actionable: the run ends.
    Gone,
    /// Nothing to do this tick.
    Wait,
}

/// Ticks without a landed click after which the stall hint is logged.
pub const STALL_HINT_TICKS: u32 = 10;

/// What a clearance run remembers between ticks.
#[derive(Debug, Clone, Copy, PartialEq, Eq, Structural)]
pub struct ClearanceState {
    /// Clicks landed so far.
    pub clicks: u32,
    /// Ticks since the last landed click (counted once a click has landed).
    pub ticks_since_click: u32,
    /// Whether any challenge marker has been observed.
    pub ever_seen_markers: bool,
    /// Consecutive ticks without a landed click (clicking runs only).
    pub stall_ticks: u32,
    /// Whether the stall hint has been logged.
    pub warned_stall: bool,
}

/// May a click be spent now? At most `max_attempts` per run; the first
/// clickable tick clicks at once, later attempts wait `retry_ticks` ticks
/// after the last landed click.
pub open spec fn may_click(s: ClearanceState, max_attempts: u32, retry_ticks: u32) -> bool {
    s.clicks < max_attempts && (s.clicks == 0 || s.ticks_since_click >= retry_ticks)
}

impl ClearanceState {
    /// The state of a run that has not polled yet.
    pub fn new() -> (r: Self)
        ensures
            r == (ClearanceState {
                clicks: 0,
                ticks_since_click: 0,
                ever_seen_markers: false,
                stall_ticks: 0,
                warned_stall: false,
            }),
    {
        ClearanceState {
            clicks: 0,
            ticks_since_click: 0,
            ever_seen_markers: false,
            stall_ticks: 0,
            warned_stall: false,
        }
    }

    /// Take in one poll: `token` is the value of the first configured token
    /// input holding one, `clickable` whether the challenge iframe is a valid
    /// click target, `has_markers` whether any marker is on the page.
    ///
    /// A token ends the run. Otherwise a clickable widget is clicked when the
    /// click budget and cadence allow; a widget that is not clickable ends the
    /// run once a click has landed, or when markers seen on an earlier tick
    /// have all vanished.
    pub fn on_poll(
        &mut self,
        max_attempts: u32,
        retry_ticks: u32,
        token: Option<String>,
        clickable: bool,
        has_markers: bool,
    ) -> (d: PollDecision)
        ensures
            final(self).ever_seen_markers == (old(self).ever_seen_markers || has_markers),
            final(self).clicks == old(self).clicks,
            final(self).ticks_since_click == old(self).ticks_since_click,
            final(self).stall_ticks == old(self).stall_ticks,
            final(self).warned_stall == old(self).warned_stall,
            decision_view(d) == decide(
                *old(self),
                max_attempts,
                retry_ticks,
                match token {
                    Some(t) => Some(t@),
                    None => None,
                },
                clickable,
                has_markers,
            ),
            *final(self) == polled(*old(self), has_markers),
            match token {
                Some(t) => d == PollDecision::Acquired(t),
                None => if clickable && may_click(*old(self), max_attempts, retry_ticks) {
                    d == PollDecision::Click
                } else if !clickable && (old(self).clicks > 0 || (old(self).ever_seen_markers
                    && !has_markers)) {
                    d == PollDecision::Gone
                } else {
                    d == PollDecision::Wait
                },
            },
    {
        let seen_before = self.ever_seen_markers;
        if has_markers {
            self.ever_seen_markers = true;
        }
        if let Some(t) = token {
            return PollDecision::Acquired(t);
        }
        let may = self.clicks < max_attempts && (self.clicks == 0 || self.ticks_since_click
            >= retry_ticks);
        if clickable && may {
            PollDecision::Click
        } else if !clickable && (self.clicks > 0 || (seen_before && !has_markers)) {
            PollDecision::Gone
        } else {
            PollDecision::Wait
        }
    }

    /// Close a tick that did not end the run: count the click if one landed,
    /// count a stalled tick otherwise (only in runs that may click), advance
    /// the cadence counter once a click has landed, and report whether the
    /// stall hint is due (at most once per run) and whether the deadline
    /// ended the run.
    pub fn end_tick(&mut self, max_attempts: u32, clicked: bool, deadline_passed: bool) -> (r: (
        bool,
        Option<ClearanceOutcome>,
    ))
        requires
            clicked ==> old(self).clicks < max_attempts,
            !clicked && max_attempts > 0 ==> old(self).stall_ticks < u32::MAX,
        ensures
            final(self).ever_seen_markers == old(self).ever_seen_markers,
            final(self).clicks == (if clicked {
                old(self).clicks + 1
            } else {
                old(self).clicks as int
            }),
            final(self).stall_ticks == (if clicked {
                0
            } else if max_attempts > 0 {
                old(self).stall_ticks + 1
            } else {
                old(self).stall_ticks as int
            }),
            final(self).ticks_since_click == (if clicked {
                1
            } else if old(self).clicks > 0 {
                if old(self).ticks_since_click == u32::MAX {
                    u32::MAX as int
                } else {
                    old(self).ticks_since_click + 1
                }
            } else {
                old(self).ticks_since_click as int
            }),
            r.0 == (!clicked && max_attempts > 0 && old(self).stall_ticks + 1 == STALL_HINT_TICKS
                && !old(self).warned_stall),
            final(self).warned_stall == (old(self).warned_stall || r.0),
            *final(self) == closed(*old(self), max_attempts, clicked),
            r.1 == (if deadline_passed {
                Some(ClearanceOutcome::TimedOut { saw_challenge: old(self).ever_seen_markers })
            } else {
                None
            }),
    {
        let mut warn = false;
        if clicked {
            self.clicks = self.clicks + 1;
            self.ticks_since_click = 0;
            self.stall_ticks = 0;
        } else if max_attempts > 0 {
            self.stall_ticks = self.stall_ticks + 1;
            if self.stall_ticks == STALL_HINT_TICKS && !self.warned_stall {
                warn = true;
                self.warned_stall = true;
            }
        }
        if self.clicks > 0 {
            self.ticks_since_click = self.ticks_since_click.saturating_add(1);
        }
        let outcome = if deadline_passed {
            Some(ClearanceOutcome::TimedOut { saw_challenge: self.ever_seen_markers })
        } else {
            None
        };
        (warn, outcome)
    }
}

/// One tick of a run, taken by value: the token, if any, whether the widget
/// is a valid click target, whether any marker is present, and whether a
/// click, if one was asked for, landed (the widget could be measured after
/// scrolling).
pub struct Tick {
    pub token: Option<Seq<char>>,
    pub clickable: bool,
    pub has_markers: bool,
    pub landed: bool,
}

/// What a poll calls for, taken by value.
pub enum Decision {
    Acquired(Seq<char>),
    Click,
    Gone,
    Wait,
}

/// A [`PollDecision`] taken by value.
pub open spec fn decision_view(d: PollDecision) -> Decision {
    match d {
        PollDecision::Acquired(t) => Decision::Acquired(t@),
        PollDecision::Click => Decision::Click,
        PollDecision::Gone => Decision::Gone,
        PollDecision::Wait => Decision::Wait,
    }
}

/// What a poll observing `token`, `clickable` and `has_markers` calls for
/// in state `s`.
pub open spec fn decide(
    s: ClearanceState,
    max_attempts: u32,
    retry_ticks: u32,
    token: Option<Seq<char>>,
    clickable: bool,
    has_markers: bool,
) -> Decision {
    match token {
        Some(t) => Decision::Acquired(t),
        None => if clickable && may_click(s, max_attempts, retry_ticks) {
            Decision::Click
        } else if !clickable && (s.clicks > 0 || (s.ever_seen_markers && !has_markers)) {
            Decision::Gone
        } else {
            Decision::Wait
        },
    }
}

/// The state once a poll is taken in: the markers latch.
pub open spec fn polled(s: ClearanceState, has_markers: bool) -> ClearanceState {
    ClearanceState { ever_seen_markers: s.ever_seen_markers || has_markers, ..s }
}

/// The state once a tick that did not end the run is closed.
pub open spec fn closed(s: ClearanceState, max_attempts: u32, clicked: bool) -> ClearanceState {
    let clicks: u32 = if clicked {
        (s.clicks + 1) as u32
    } else {
        s.clicks
    };
    let stall: u32 = if clicked {
        0
    } else if max_attempts > 0 {
        (s.stall_ticks + 1) as u32
    } else {
        s.stall_ticks
    };
    let since: u32 = if clicked {
        1
    } else if s.clicks > 0 {
        if s.ticks_since_click == u32::MAX {
            u32::MAX
        } else {
            (s.ticks_since_click + 1) as u32
        }
    } else {
        s.ticks_since_click
    };
    let warn = !clicked && max_attempts > 0 && s.stall_ticks + 1 == STALL_HINT_TICKS
        && !s.warned_stall;
    ClearanceState {
        clicks,
        ticks_since_click: since,
        ever_seen_markers: s.ever_seen_markers,
        stall_ticks: stall,
        warned_stall: s.warned_stall || warn,
    }
}

/// How a run ends, taken by value.
pub enum RunEnd {
    TokenAcquired(Seq<char>),
    ChallengeGone,
    TimedOut(bool),
}

/// The end of a run from state `s` over the ticks before the deadline,
/// taking each in with [`ClearanceState::on_poll`] and closing it with
/// [`ClearanceState::end_tick`].
pub open spec fn run(s: ClearanceState, max_attempts: u32, retry_ticks: u32, ticks: Seq<Tick>) -> RunEnd
    decreases ticks.len(),
{
    if ticks.len() == 0 {
        RunEnd::TimedOut(s.ever_seen_markers)
    } else {
        let t = ticks[0];
        let p = polled(s, t.has_markers);
        match decide(s, max_attempts, retry_ticks, t.token, t.clickable, t.has_markers) {
            Decision::Acquired(x) => RunEnd::TokenAcquired(x),
            Decision::Gone => RunEnd::ChallengeGone,
            Decision::Click => run(
                closed(p, max_attempts, t.landed),
                max_attempts,
                retry_ticks,
                ticks.drop_first(),
            ),
            Decision::Wait => run(closed(p, max_attempts, false), max_attempts, retry_ticks, ticks.drop_first()),
        }
    }
}

/// A run ends with a token only if some tick carried it; it ends
/// with the challenge gone only at a tick with no token and no clickable
/// widget, when clicks were spent before the run, an earlier tick could land
/// a click, or markers seen before have vanished;
/// and it times out only if no tick carried a token, reporting whether any
/// marker was ever seen.
pub proof fn cloudflare_run_law(s: ClearanceState, max_attempts: u32, retry_ticks: u32, ticks: Seq<Tick>)
    ensures
        run(s, max_attempts, retry_ticks, ticks) matches RunEnd::TokenAcquired(x) ==> exists|i: int|
            0 <= i < ticks.len() && (#[trigger] ticks[i]).token == Some(x),
        run(s, max_attempts, retry_ticks, ticks) is ChallengeGone ==> exists|i: int|
            0 <= i < ticks.len() && (#[trigger] ticks[i]).token is None && !ticks[i].clickable && (
            s.clicks > 0 || (exists|j: int| 0 <= j < i && (#[trigger] ticks[j]).landed) || ((
            s.ever_seen_markers || (exists|j: int| 0 <= j < i && (#[trigger] ticks[j]).has_markers))
                && !ticks[i].has_markers)),
        run(s, max_attempts, retry_ticks, ticks) matches RunEnd::TimedOut(saw) ==> (forall|i: int|
            0 <= i < ticks.len() ==> (#[trigger] ticks[i]).token is None) && saw == (
        s.ever_seen_markers || exists|i: int| 0 <= i < ticks.len() && (#[trigger] ticks[i]).has_markers),
    decreases ticks.len(),
{
    if ticks.len() > 0 {
        let t = ticks[0];
        let rest = ticks.drop_first();
        let p = polled(s, t.has_markers);
        let d = decide(s, max_attempts, retry_ticks, t.token, t.clickable, t.has_markers);
        let landed = d is Click && t.landed;
        let n = closed(p, max_attempts, landed);
        if d is Click || d is Wait {
            assert(run(s, max_attempts, retry_ticks, ticks) == run(n, max_attempts, retry_ticks, rest));
            cloudflare_run_law(n, max_attempts, retry_ticks, rest);
            match run(n, max_attempts, retry_ticks, rest) {
                RunEnd::TokenAcquired(x) => {
                    let i = choose|i: int| 0 <= i < rest.len() && (#[trigger] rest[i]).token == Some(x);
                    assert(ticks[i + 1] == rest[i]);
                },
                RunEnd::ChallengeGone => {
                    let i = choose|i: int|
                        0 <= i < rest.len() && (#[trigger] rest[i]).token is None && !rest[i].clickable
                            && (n.clicks > 0 || exists|j: int| 0 <= j < i && (#[trigger] rest[j]).landed
                            || (n.ever_seen_markers || exists|j: int|
                            0 <= j < i && (#[trigger] rest[j]).has_markers) && !rest[i].has_markers);
                    assert(ticks[i + 1] == rest[i]);
                    if n.clicks > 0 && !(s.clicks > 0) {
                        assert(ticks[0].landed);
                    }
                    if exists|j: int| 0 <= j < i && (#[trigger] rest[j]).landed {
                        let j = choose|j: int| 0 <= j < i && (#[trigger] rest[j]).landed;
                        assert(ticks[j + 1] == rest[j]);
                    }
                    if exists|j: int| 0 <= j < i && (#[trigger] rest[j]).has_markers {
                        let j = choose|j: int| 0 <= j < i && (#[trigger] rest[j]).has_markers;
                        assert(ticks[j + 1] == rest[j]);
                    }
                    if n.ever_seen_markers && !s.ever_seen_markers {
                        assert(ticks[0].has_markers);
                    }
                },
                RunEnd::TimedOut(saw) => {
                    assert forall|i: int| 0 <= i < ticks.len() implies (#[trigger] ticks[i]).token is None by {
                        if i > 0 {
                            assert(ticks[i] == rest[i - 1]);
                        }
                    }
                    if exists|i: int| 0 <= i < rest.len() && (#[trigger] rest[i]).has_markers {
                        let i = choose|i: int| 0 <= i < rest.len() && (#[trigger] rest[i]).has_markers;
                        assert(ticks[i + 1] == rest[i]);
                    }
                    if exists|i: int| 0 <= i < ticks.len() && (#[trigger] ticks[i]).has_markers {
                        let i = choose|i: int| 0 <= i < ticks.len() && (#[trigger] ticks[i]).has_markers;
                        if i > 0 {
                            assert(rest[i - 1] == ticks[i]);
                        }
                    }
                },
            }
        } else if d is Gone {
            assert(ticks[0].token is None);
        }
    }
}

/// A run never spends more clicks than its budget: from a state within the
/// budget, a poll asks for a click only while budget remains, and closing
/// the tick keeps the count within the budget.
pub proof fn clicks_stay_within_budget(
    s: ClearanceState,
    max_attempts: u32,
    retry_ticks: u32,
    clicked: bool,
)
    requires
        s.clicks <= max_attempts,
        clicked ==> may_click(s, max_attempts, retry_ticks),
    ensures
        clicked ==> s.clicks < max_attempts,
        (if clicked {
            s.clicks + 1
        } else {
            s.clicks as int
        }) <= max_attempts,
        max_attempts == 0 ==> !may_click(s, max_attempts, retry_ticks),
{
}

} // verus!
