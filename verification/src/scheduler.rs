use crate::constants::TRANSITION_MICROS;
use vstd::arithmetic::div_mod::{lemma_fundamental_div_mod, lemma_fundamental_div_mod_converse_mod};
use vstd::prelude::*;

verus! {

/// Which effect is shown, and whether the handoff to it is still running.
#[derive(Clone, Copy, Debug, PartialEq, Eq, Structural)]
pub enum ModeState {
    /// The effect at `index` is shown alone.
    Steady { index: usize },
    /// The effect at `to` takes over from the one at `from`; `elapsed`
    /// microseconds of the handoff have passed.
    Transitioning { from: usize, to: usize, elapsed: u64 },
}

impl ModeState {
    /// The index of the effect that analysis and rendering follow: the
    /// target of a handoff as soon as it starts.
    pub open spec fn spec_active(self) -> usize {
        match self {
            ModeState::Steady { index } => index,
            ModeState::Transitioning { to, .. } => to,
        }
    }

    #[verifier::when_used_as_spec(spec_active)]
    pub fn active(self) -> (index: usize)
        ensures
            index == self.spec_active(),
    {
        match self {
            ModeState::Steady { index } => index,
            ModeState::Transitioning { to, .. } => to,
        }
    }

    /// A handoff in progress has not yet run its full length.
    pub open spec fn wf(self) -> bool {
        self matches ModeState::Transitioning { elapsed, .. } ==> elapsed < TRANSITION_MICROS
    }

    /// Every index that the state names is an index of a gallery of `count`
    /// effects.
    pub open spec fn in_bounds(self, count: nat) -> bool {
        match self {
            ModeState::Steady { index } => index < count,
            ModeState::Transitioning { from, to, .. } => from < count && to < count,
        }
    }

    /// The state after `dt` more microseconds: a handoff accumulates them and
    /// ends in its target once the full length is reached; a steady state
    /// stays as it is.
    pub open spec fn spec_advance(self, dt: u64) -> ModeState {
        match self {
            ModeState::Steady { index } => self,
            ModeState::Transitioning { from, to, elapsed } => if elapsed + dt >= TRANSITION_MICROS {
                ModeState::Steady { index: to }
            } else {
                ModeState::Transitioning { from, to, elapsed: (elapsed + dt) as u64 }
            },
        }
    }

    #[verifier::when_used_as_spec(spec_advance)]
    pub fn advance(self, dt: u64) -> (next: ModeState)
        ensures
            next == self.spec_advance(dt),
            next.wf(),
    {
        match self {
            ModeState::Steady { index } => self,
            ModeState::Transitioning { from, to, elapsed } => {
                if elapsed >= TRANSITION_MICROS || dt >= TRANSITION_MICROS - elapsed {
                    ModeState::Steady { index: to }
                } else {
                    ModeState::Transitioning { from, to, elapsed: elapsed + dt }
                }
            },
        }
    }

    /// How far the handoff has come, in thousandths: all the way in a
    /// steady state.
    pub open spec fn spec_progress_milli(self) -> int {
        match self {
            ModeState::Steady { .. } => 1000,
            ModeState::Transitioning { elapsed, .. } => if elapsed >= TRANSITION_MICROS {
                1000
            } else {
                elapsed * 1000 / (TRANSITION_MICROS as int)
            },
        }
    }

    pub fn progress_milli(self) -> (progress: u32)
        ensures
            progress == self.spec_progress_milli(),
            progress <= 1000,
    {
        match self {
            ModeState::Steady { .. } => 1000,
            ModeState::Transitioning { elapsed, .. } => {
                if elapsed >= TRANSITION_MICROS {
                    1000
                } else {
                    let scaled: u64 = elapsed * 1000 / TRANSITION_MICROS;
                    assert(scaled < 1000);
                    scaled as u32
                }
            },
        }
    }
}

/// The index reached from `current` after `step` steps around a cycle of
/// `count` indices.
pub open spec fn cyclic_index(current: int, count: int, step: int) -> int {
    (current + step) % count
}

/// The first enabled index met when stepping around the cycle from
/// `current`, starting with step number `step` and stopping after one full
/// cycle.
pub open spec fn next_enabled_from(enabled: Seq<bool>, current: int, step: int) -> Option<int>
    decreases enabled.len() + 1 - step,
{
    if step < 1 || step > enabled.len() {
        None
    } else if enabled[cyclic_index(current, enabled.len() as int, step)] {
        Some(cyclic_index(current, enabled.len() as int, step))
    } else {
        next_enabled_from(enabled, current, step + 1)
    }
}

/// The effect that follows `current` in cyclic order, skipping disabled
/// ones: the search goes once around, so it ends on `current` itself where
/// that is the only enabled effect, and finds nothing where none is.
pub open spec fn spec_next_enabled(enabled: Seq<bool>, current: int) -> Option<int> {
    next_enabled_from(enabled, current, 1)
}

/// What the search returns is enabled and is the first such index on its
/// way; where it returns nothing, every index on its way is disabled.
pub proof fn lemma_next_enabled_from(enabled: Seq<bool>, current: int, step: int)
    requires
        current >= 0,
        step >= 1,
    ensures
        match next_enabled_from(enabled, current, step) {
            Some(i) => {
                &&& 0 <= i < enabled.len()
                &&& enabled[i]
                &&& exists|t: int|
                    {
                        &&& step <= t <= enabled.len()
                        &&& i == #[trigger] cyclic_index(current, enabled.len() as int, t)
                        &&& forall|u: int|
                            step <= u < t ==> !enabled[#[trigger] cyclic_index(
                                current,
                                enabled.len() as int,
                                u,
                            )]
                    }
            },
            None => forall|t: int|
                step <= t <= enabled.len() ==> !enabled[#[trigger] cyclic_index(
                    current,
                    enabled.len() as int,
                    t,
                )],
        },
    decreases enabled.len() + 1 - step,
{
    let n = enabled.len() as int;
    if step > n {
    } else {
        let here = cyclic_index(current, n, step);
        assert(0 <= here < n) by (nonlinear_arith)
            requires
                here == (current + step) % n,
                n > 0,
        ;
        if enabled[here] {
            assert(here == cyclic_index(current, n, step));
        } else {
            lemma_next_enabled_from(enabled, current, step + 1);
            match next_enabled_from(enabled, current, step + 1) {
                Some(i) => {
                    let t = choose|t: int|
                        {
                            &&& step + 1 <= t <= n
                            &&& i == #[trigger] cyclic_index(current, n, t)
                            &&& forall|u: int|
                                step + 1 <= u < t ==> !enabled[#[trigger] cyclic_index(
                                    current,
                                    n,
                                    u,
                                )]
                        };
                    assert forall|u: int| step <= u < t implies !enabled[#[trigger] cyclic_index(
                        current,
                        n,
                        u,
                    )] by {
                        if u == step {
                        }
                    }
                    assert(i == cyclic_index(current, n, t));
                },
                None => {
                    assert forall|t: int| step <= t <= n implies !enabled[#[trigger] cyclic_index(
                        current,
                        n,
                        t,
                    )] by {
                        if t == step {
                        }
                    }
                },
            }
        }
    }
}

/// One full cycle from any starting point passes over every index.
pub proof fn lemma_cycle_reaches(current: int, count: int, target: int)
    requires
        current >= 0,
        0 <= target < count,
    ensures
        exists|t: int| 1 <= t <= count && #[trigger] cyclic_index(current, count, t) == target,
{
    let c = current % count;
    let q = current / count;
    lemma_fundamental_div_mod(current, count);
    assert(0 <= c < count) by (nonlinear_arith)
        requires
            c == current % count,
            count > 0,
    ;
    assert(count * q == q * count) by (nonlinear_arith);
    if target > c {
        let t = target - c;
        lemma_fundamental_div_mod_converse_mod(current + t, count, q, target);
        assert(cyclic_index(current, count, t) == target);
    } else {
        let t = target - c + count;
        assert((q + 1) * count == q * count + count) by (nonlinear_arith);
        lemma_fundamental_div_mod_converse_mod(current + t, count, q + 1, target);
        assert(cyclic_index(current, count, t) == target);
    }
}

/// The search finds nothing exactly where every effect is disabled.
pub proof fn lemma_next_enabled_none(enabled: Seq<bool>, current: int)
    requires
        current >= 0,
    ensures
        spec_next_enabled(enabled, current) is None <==> forall|i: int|
            0 <= i < enabled.len() ==> !enabled[i],
{
    let n = enabled.len() as int;
    lemma_next_enabled_from(enabled, current, 1);
    if spec_next_enabled(enabled, current) is None {
        assert forall|i: int| 0 <= i < n implies !enabled[i] by {
            lemma_cycle_reaches(current, n, i);
            let t = choose|t: int| 1 <= t <= n && #[trigger] cyclic_index(current, n, t) == i;
            assert(!enabled[cyclic_index(current, n, t)]);
        }
    }
}

/// With all effects but one disabled, switching lands on that one effect,
/// whatever the starting index.
pub proof fn lemma_only_enabled_is_next(enabled: Seq<bool>, current: int, only: int)
    requires
        current >= 0,
        0 <= only < enabled.len(),
        enabled[only],
        forall|i: int| 0 <= i < enabled.len() && i != only ==> !enabled[i],
    ensures
        spec_next_enabled(enabled, current) == Some(only),
{
    lemma_next_enabled_from(enabled, current, 1);
    lemma_next_enabled_none(enabled, current);
}

/// With every effect disabled, switching finds no effect to go to.
pub proof fn lemma_all_disabled_no_next(enabled: Seq<bool>, current: int)
    requires
        current >= 0,
        forall|i: int| 0 <= i < enabled.len() ==> !enabled[i],
    ensures
        spec_next_enabled(enabled, current) is None,
{
    lemma_next_enabled_none(enabled, current);
}

/// The effect to switch to from `current`: the next enabled one in cyclic
/// order, found within one full cycle, or none where every effect is
/// disabled or there are no effects.
pub fn next_enabled(enabled: &Vec<bool>, current: usize) -> (next: Option<usize>)
    ensures
        match next {
            Some(i) => spec_next_enabled(enabled@, current as int) == Some(i as int) && i
                < enabled@.len() && enabled@[i as int],
            None => spec_next_enabled(enabled@, current as int) is None,
        },
        next is None <==> forall|i: int| 0 <= i < enabled@.len() ==> !enabled@[i],
{
    let n: usize = enabled.len();
    proof {
        lemma_next_enabled_none(enabled@, current as int);
        lemma_next_enabled_from(enabled@, current as int, 1);
    }
    if n == 0 {
        return None;
    }
    let start: usize = current % n;
    let ghost q: int = current as int / n as int;
    proof {
        lemma_fundamental_div_mod(current as int, n as int);
        assert(n * q == q * n) by (nonlinear_arith);
    }
    let mut tried: usize = 0;
    while tried < n
        invariant
            tried <= n,
            n == enabled@.len(),
            n > 0,
            start < n,
            current == q * n + start,
            spec_next_enabled(enabled@, current as int) == next_enabled_from(
                enabled@,
                current as int,
                tried + 1,
            ),
        decreases n - tried,
    {
        let index: usize = if tried >= n - start - 1 {
            tried - (n - start - 1)
        } else {
            start + tried + 1
        };
        proof {
            if tried >= n - start - 1 {
                assert((q + 1) * n == q * n + n) by (nonlinear_arith);
                lemma_fundamental_div_mod_converse_mod(
                    current as int + tried as int + 1,
                    n as int,
                    q + 1,
                    index as int,
                );
            } else {
                lemma_fundamental_div_mod_converse_mod(
                    current as int + tried as int + 1,
                    n as int,
                    q,
                    index as int,
                );
            }
            assert(index == cyclic_index(current as int, n as int, tried + 1));
        }
        if enabled[index] {
            return Some(index);
        }
        tried += 1;
    }
    None
}

/// When the engine moves on to the next effect by itself.
#[derive(Clone, Copy, Debug, PartialEq, Eq, Structural)]
pub struct AutoSwitch {
    pub enabled: bool,
    /// Time between two switches, in microseconds.
    pub interval_micros: u64,
}

/// Selects the active effect: switches on request or when the auto-switch
/// timer runs out, skipping disabled effects, and runs the fixed-length
/// handoff between two effects.
#[derive(Clone, Copy, Debug, PartialEq, Eq, Structural)]
pub struct ModeScheduler {
    pub state: ModeState,
    /// Microseconds counted towards the next automatic switch.
    pub auto_timer: u64,
}

/// The sum of two times, held at the largest representable time.
pub open spec fn saturating_sum(a: u64, b: u64) -> u64 {
    if a + b > u64::MAX {
        u64::MAX
    } else {
        (a + b) as u64
    }
}

impl ModeScheduler {
    /// The state after a request for the next effect: a handoff from the
    /// active effect to the next enabled one, starting at zero; no change
    /// where every effect is disabled.
    pub open spec fn spec_request_next(self, enabled: Seq<bool>) -> ModeScheduler {
        match spec_next_enabled(enabled, self.state.active() as int) {
            Some(to) => ModeScheduler {
                state: ModeState::Transitioning {
                    from: self.state.active(),
                    to: to as usize,
                    elapsed: 0,
                },
                auto_timer: self.auto_timer,
            },
            None => self,
        }
    }

    /// The state after a frame that took `dt` microseconds. The timer counts
    /// while auto-switching is on and rests at zero while it is off. In a
    /// steady state a timer that has reached the interval starts a handoff
    /// to the next enabled effect and is reset; a handoff in progress
    /// advances by `dt`.
    pub open spec fn spec_tick(self, dt: u64, auto: AutoSwitch, enabled: Seq<bool>) -> ModeScheduler {
        let timer = if auto.enabled {
            saturating_sum(self.auto_timer, dt)
        } else {
            0
        };
        if self.state is Steady && auto.enabled && timer >= auto.interval_micros {
            ModeScheduler { state: self.state, auto_timer: 0 }.spec_request_next(enabled)
        } else {
            ModeScheduler { state: self.state.advance(dt), auto_timer: timer }
        }
    }

    /// The scheduler at startup: the first effect, steady, timer at zero.
    pub fn new() -> (scheduler: ModeScheduler)
        ensures
            scheduler.state == (ModeState::Steady { index: 0 }),
            scheduler.auto_timer == 0,
    {
        ModeScheduler { state: ModeState::Steady { index: 0 }, auto_timer: 0 }
    }

    pub fn active_index(&self) -> (index: usize)
        ensures
            index == self.state.active(),
    {
        self.state.active()
    }

    pub fn is_transitioning(&self) -> (transitioning: bool)
        ensures
            transitioning == self.state is Transitioning,
    {
        match self.state {
            ModeState::Steady { .. } => false,
            ModeState::Transitioning { .. } => true,
        }
    }

    /// Handles a request for the next effect; `enabled` says for each effect
    /// of the gallery whether the user has left it enabled. Returns whether
    /// a handoff was started.
    pub fn request_next(&mut self, enabled: &Vec<bool>) -> (switched: bool)
        ensures
            *final(self) == old(self).spec_request_next(enabled@),
            switched == exists|i: int| 0 <= i < enabled@.len() && enabled@[i],
            !switched ==> *final(self) == *old(self),
            switched ==> final(self).state == (ModeState::Transitioning {
                from: old(self).state.active(),
                to: final(self).state.active(),
                elapsed: 0,
            }),
            switched ==> final(self).state.active() < enabled@.len(),
            switched ==> enabled@[final(self).state.active() as int],
            old(self).state.wf() ==> final(self).state.wf(),
            old(self).state.in_bounds(enabled@.len()) ==> final(self).state.in_bounds(
                enabled@.len(),
            ),
    {
        let current: usize = self.state.active();
        match next_enabled(enabled, current) {
            Some(to) => {
                self.state = ModeState::Transitioning { from: current, to, elapsed: 0 };
                true
            },
            None => false,
        }
    }

    /// Advances the scheduler by one frame of `dt` microseconds.
    pub fn tick(&mut self, dt: u64, auto: AutoSwitch, enabled: &Vec<bool>)
        ensures
            *final(self) == old(self).spec_tick(dt, auto, enabled@),
            old(self).state.wf() ==> final(self).state.wf(),
            old(self).state.in_bounds(enabled@.len()) ==> final(self).state.in_bounds(
                enabled@.len(),
            ),
    {
        let timer: u64 = if auto.enabled {
            if dt > u64::MAX - self.auto_timer {
                u64::MAX
            } else {
                self.auto_timer + dt
            }
        } else {
            0
        };
        let steady: bool = !self.is_transitioning();
        if steady && auto.enabled && timer >= auto.interval_micros {
            self.auto_timer = 0;
            let _ = self.request_next(enabled);
        } else {
            self.state = self.state.advance(dt);
            self.auto_timer = timer;
        }
    }
}

/// The state after a run of frames without auto-switching, each frame
/// lasting as `steps` says.
pub open spec fn run_frames(state: ModeState, steps: Seq<u64>) -> ModeState
    decreases steps.len(),
{
    if steps.len() == 0 {
        state
    } else {
        run_frames(state.advance(steps[0]), steps.drop_first())
    }
}

/// How many frames of the run ended a handoff.
pub open spec fn completions(state: ModeState, steps: Seq<u64>) -> nat
    decreases steps.len(),
{
    if steps.len() == 0 {
        0
    } else {
        let ended: nat = if state is Transitioning && state.advance(steps[0]) is Steady {
            1
        } else {
            0
        };
        ended + completions(state.advance(steps[0]), steps.drop_first())
    }
}

/// The time that a run of frames takes.
pub open spec fn total_time(steps: Seq<u64>) -> nat
    decreases steps.len(),
{
    if steps.len() == 0 {
        0
    } else {
        steps[0] as nat + total_time(steps.drop_first())
    }
}

/// Without auto-switching a frame does to the state what
/// [`ModeState::advance`] says, and leaves the timer at zero.
pub proof fn lemma_tick_without_auto(
    scheduler: ModeScheduler,
    dt: u64,
    interval_micros: u64,
    enabled: Seq<bool>,
)
    ensures
        scheduler.spec_tick(dt, AutoSwitch { enabled: false, interval_micros }, enabled).state
            == scheduler.state.advance(dt),
        scheduler.spec_tick(
            dt,
            AutoSwitch { enabled: false, interval_micros },
            enabled,
        ).auto_timer == 0,
{
}

/// A steady state stays as it is however many frames pass, and no handoff
/// ends in it.
pub proof fn lemma_steady_stays(index: usize, steps: Seq<u64>)
    ensures
        run_frames(ModeState::Steady { index }, steps) == (ModeState::Steady { index }),
        completions(ModeState::Steady { index }, steps) == 0,
    decreases steps.len(),
{
    if steps.len() > 0 {
        lemma_steady_stays(index, steps.drop_first());
    }
}

/// The law of the handoff: once the frames that follow its start add up to
/// its full length, in however many steps of whatever size, the state is
/// steady on the target, and the handoff ended exactly once on the way.
/// While they add up to less, the handoff is still running and has
/// accumulated exactly their sum.
pub proof fn lemma_handoff_ends_once(from: usize, to: usize, elapsed: u64, steps: Seq<u64>)
    requires
        elapsed < TRANSITION_MICROS,
    ensures
        elapsed + total_time(steps) >= TRANSITION_MICROS ==> {
            &&& run_frames(ModeState::Transitioning { from, to, elapsed }, steps) == (
            ModeState::Steady { index: to })
            &&& completions(ModeState::Transitioning { from, to, elapsed }, steps) == 1
        },
        elapsed + total_time(steps) < TRANSITION_MICROS ==> {
            &&& run_frames(ModeState::Transitioning { from, to, elapsed }, steps) == (
            ModeState::Transitioning { from, to, elapsed: (elapsed + total_time(steps)) as u64 })
            &&& completions(ModeState::Transitioning { from, to, elapsed }, steps) == 0
        },
    decreases steps.len(),
{
    let start = ModeState::Transitioning { from, to, elapsed };
    if steps.len() > 0 {
        let rest = steps.drop_first();
        if elapsed + steps[0] >= TRANSITION_MICROS {
            lemma_steady_stays(to, rest);
        } else {
            lemma_handoff_ends_once(from, to, (elapsed + steps[0]) as u64, rest);
        }
    }
}

/// Running past the end of a handoff changes nothing more: frames added
/// after the state has become steady leave it steady on the same effect and
/// end no further handoff.
pub proof fn lemma_no_second_handoff(state: ModeState, steps: Seq<u64>, more: Seq<u64>)
    requires
        run_frames(state, steps) is Steady,
    ensures
        run_frames(state, steps + more) == run_frames(state, steps),
        completions(state, steps + more) == completions(state, steps),
    decreases steps.len(),
{
    if steps.len() == 0 {
        assert(steps + more =~= more);
        lemma_steady_stays(state->index, more);
    } else {
        assert((steps + more).drop_first() =~= steps.drop_first() + more);
        lemma_no_second_handoff(state.advance(steps[0]), steps.drop_first(), more);
    }
}

/// A request for the next effect keeps the state inside the gallery and a
/// handoff short of its full length.
pub proof fn lemma_request_keeps_bounds(scheduler: ModeScheduler, enabled: Seq<bool>)
    requires
        scheduler.state.in_bounds(enabled.len()),
        scheduler.state.wf(),
    ensures
        scheduler.spec_request_next(enabled).state.in_bounds(enabled.len()),
        scheduler.spec_request_next(enabled).state.wf(),
{
    lemma_next_enabled_from(enabled, scheduler.state.active() as int, 1);
}

/// A frame keeps the state inside the gallery and a handoff short of its
/// full length.
pub proof fn lemma_tick_keeps_bounds(
    scheduler: ModeScheduler,
    dt: u64,
    auto: AutoSwitch,
    enabled: Seq<bool>,
)
    requires
        scheduler.state.in_bounds(enabled.len()),
        scheduler.state.wf(),
    ensures
        scheduler.spec_tick(dt, auto, enabled).state.in_bounds(enabled.len()),
        scheduler.spec_tick(dt, auto, enabled).state.wf(),
{
    lemma_request_keeps_bounds(ModeScheduler { state: scheduler.state, auto_timer: 0 }, enabled);
}

} // verus!
