//! The per-frame state machine of the render loop.
//!
//! Every display-refresh tick the host calls the loop once. The tick
//! splits into three decisions, each a pure function here: what to do
//! about device loss and reload requests (`begin_frame`), how to adopt
//! the outcome of a compile-and-link attempt (`finish_reload`), and
//! what to draw this frame (`frame_tick`). The host performs the GPU
//! work the returned actions ask for and feeds the results back in.
//! Every decision leaves the loop willing to be invoked again: no
//! reachable state stops the loop.
//!
//! Timestamps are integer microseconds as delivered by the scheduling
//! primitive; the host converts them to seconds when it writes the
//! time uniforms. `last_time_us == 0` is the sentinel for "no previous
//! frame", used to suppress a spurious delta on the first frame after
//! start or after a successful rebuild.

use crate::player::MouseUniform;
use crate::player::PlayerState;
use vstd::prelude::*;

verus! {

/// The device phase of the loop. The two flags of the host collapse to
/// three reachable states: rendering normally, suspended on a lost
/// device, and rebuilding the program right after a restore.
#[derive(Clone, Copy, Debug, PartialEq, Eq)]
pub enum Phase {
    Running,
    DeviceLost,
    AwaitingRestoreReload,
}

/// The loop's clock: the timestamp of the previous drawn frame (zero
/// meaning "none") and the index the next drawn frame will carry.
#[derive(Clone, Copy, Debug, PartialEq, Eq)]
pub struct LoopClock {
    pub last_time_us: u64,
    pub frame_index: u64,
}

/// Everything the loop carries from one tick to the next: the device
/// phase, the clock, the last player-state snapshot it managed to
/// read, and the identity of the live GPU program. `program_generation`
/// counts successful builds; `program_live` is false exactly while the
/// program has been torn down after device loss and not yet rebuilt.
#[derive(Clone, Copy, Debug, PartialEq, Eq)]
pub struct LoopState {
    pub phase: Phase,
    pub clock: LoopClock,
    pub player: PlayerState,
    pub program_generation: u64,
    pub program_live: bool,
}

/// What the host must do at the top of a tick, decided before any
/// per-frame work.
#[derive(Clone, Copy, Debug, PartialEq, Eq)]
pub enum BeginAction {
    /// Device just lost: destroy the live program now, skip all
    /// per-frame work this tick, keep being invoked.
    TearDown,
    /// Device still lost: do nothing this tick, keep being invoked.
    Idle,
    /// Attempt a compile-and-link with the current shader source, then
    /// report the outcome through `finish_reload`. `forced` is true on
    /// the rebuild right after a device restore.
    Reload { forced: bool },
    /// No reload pending: go straight to the per-frame work.
    RunFrame,
}

/// The uniform values of one drawn frame, in the integer form the
/// loop computes them; the host converts timestamps to seconds and
/// reinterprets the mouse bit patterns when writing the uniforms.
#[derive(Clone, Copy, Debug, PartialEq, Eq)]
pub struct FrameUniforms {
    /// The tick's timestamp.
    pub time_us: u64,
    /// Time since the previous drawn frame; zero on a sentinel frame.
    /// The frame-rate uniform is this delta's reciprocal, taken by the
    /// host as it writes the uniforms; on a sentinel frame that
    /// reciprocal is of zero, an accepted edge of the display
    /// contract, and whatever the host's division yields is written.
    pub time_delta_us: u64,
    /// Index of this frame, counted from zero over drawn frames.
    pub frame_index: u64,
    /// The cached pointer snapshot, if any update ever carried one.
    pub mouse: Option<MouseUniform>,
}

/// What the per-frame work decided: freeze this tick, or draw with the
/// given uniform values. Either way the loop keeps being invoked.
#[derive(Clone, Copy, Debug, PartialEq, Eq)]
pub enum TickOutcome {
    /// The cached pause flag is set: write no uniforms, issue no draw
    /// call, advance neither the clock nor the frame index.
    Paused,
    /// Write these uniforms and draw the full-screen quad.
    Draw(FrameUniforms),
}

/// The top-of-tick transition, in priority order: a fresh device loss
/// tears the program down, a persisting loss idles, a restore forces a
/// rebuild this same tick, and otherwise a pending reload request (and
/// only that) triggers a reload attempt.
pub open spec fn spec_begin_frame(s: LoopState, device_lost: bool, reload_requested: bool) -> (
    LoopState,
    BeginAction,
) {
    if device_lost && !(s.phase is DeviceLost) {
        (
            LoopState { phase: Phase::DeviceLost, program_live: false, ..s },
            BeginAction::TearDown,
        )
    } else if device_lost {
        (s, BeginAction::Idle)
    } else if s.phase is DeviceLost {
        (
            LoopState { phase: Phase::AwaitingRestoreReload, ..s },
            BeginAction::Reload { forced: true },
        )
    } else if reload_requested {
        (s, BeginAction::Reload { forced: false })
    } else {
        (s, BeginAction::RunFrame)
    }
}

/// Evaluates the top-of-tick transition on the device-lost flag and
/// the slot's reload request.
pub fn begin_frame(s: LoopState, device_lost: bool, reload_requested: bool) -> (r: (
    LoopState,
    BeginAction,
))
    ensures
        r == spec_begin_frame(s, device_lost, reload_requested),
{
    if device_lost && !matches!(s.phase, Phase::DeviceLost) {
        (
            LoopState { phase: Phase::DeviceLost, program_live: false, ..s },
            BeginAction::TearDown,
        )
    } else if device_lost {
        (s, BeginAction::Idle)
    } else if matches!(s.phase, Phase::DeviceLost) {
        (
            LoopState { phase: Phase::AwaitingRestoreReload, ..s },
            BeginAction::Reload { forced: true },
        )
    } else if reload_requested {
        (s, BeginAction::Reload { forced: false })
    } else {
        (s, BeginAction::RunFrame)
    }
}

/// How a reload attempt's outcome changes the loop state. Success
/// adopts the fresh program (a new generation) and resets the delta
/// sentinel, so the next drawn frame reports a zero time delta.
/// Failure keeps the previous program untouched and asks the host for
/// exactly one error report; the second component is that request.
pub open spec fn spec_finish_reload(s: LoopState, success: bool) -> (LoopState, bool) {
    if success {
        (
            LoopState {
                phase: Phase::Running,
                clock: LoopClock { last_time_us: 0, frame_index: s.clock.frame_index },
                program_generation: (s.program_generation + 1) as u64,
                program_live: true,
                ..s
            },
            false,
        )
    } else {
        (LoopState { phase: Phase::Running, ..s }, true)
    }
}

/// Adopts the outcome of a compile-and-link attempt the host just
/// made. Called only after a `Reload` action, so never while the
/// device is lost.
pub fn finish_reload(s: LoopState, success: bool) -> (r: (LoopState, bool))
    requires
        !(s.phase is DeviceLost),
        s.program_generation < u64::MAX,
    ensures
        r == spec_finish_reload(s, success),
{
    if success {
        (
            LoopState {
                phase: Phase::Running,
                clock: LoopClock { last_time_us: 0, frame_index: s.clock.frame_index },
                program_generation: s.program_generation + 1,
                program_live: true,
                ..s
            },
            false,
        )
    } else {
        (LoopState { phase: Phase::Running, ..s }, true)
    }
}

/// The player state this tick works with: the fresh snapshot when the
/// non-blocking read got one, else the last snapshot the loop cached.
pub open spec fn spec_cached_player(s: LoopState, snapshot: Option<PlayerState>) -> PlayerState {
    match snapshot {
        Some(p) => p,
        None => s.player,
    }
}

/// The time delta of a drawn frame: zero on a sentinel frame, else the
/// time since the previous drawn frame.
pub open spec fn spec_frame_delta(clock: LoopClock, t_us: u64) -> u64 {
    if clock.last_time_us == 0 {
        0
    } else {
        (t_us - clock.last_time_us) as u64
    }
}

/// The per-frame work: refresh the cached player state, then either
/// freeze (pause flag set: nothing advances, nothing is drawn) or
/// advance the clock and produce the uniform values for one draw.
pub open spec fn spec_frame_tick(s: LoopState, t_us: u64, snapshot: Option<PlayerState>) -> (
    LoopState,
    TickOutcome,
) {
    let p = spec_cached_player(s, snapshot);
    if p.paused == Some(true) {
        (LoopState { player: p, ..s }, TickOutcome::Paused)
    } else {
        (
            LoopState {
                player: p,
                clock: LoopClock {
                    last_time_us: t_us,
                    frame_index: (s.clock.frame_index + 1) as u64,
                },
                ..s
            },
            TickOutcome::Draw(
                FrameUniforms {
                    time_us: t_us,
                    time_delta_us: spec_frame_delta(s.clock, t_us),
                    frame_index: s.clock.frame_index,
                    mouse: p.mouse,
                },
            ),
        )
    }
}

/// Runs the per-frame work of one tick. `snapshot` is what the
/// non-blocking read of the shared player cell produced: `None` when
/// the lock could not be taken, in which case the cached value is used
/// and the tick completes all the same. Timestamps come from a
/// monotone clock, so the tick's timestamp is never behind the
/// previous drawn frame's.
pub fn frame_tick(s: LoopState, t_us: u64, snapshot: Option<PlayerState>) -> (r: (
    LoopState,
    TickOutcome,
))
    requires
        s.phase is Running,
        t_us >= s.clock.last_time_us,
        s.clock.frame_index < u64::MAX,
    ensures
        r == spec_frame_tick(s, t_us, snapshot),
{
    let p = match snapshot {
        Some(p) => p,
        None => s.player,
    };
    let paused = match p.paused {
        Some(b) => b,
        None => false,
    };
    if paused {
        (LoopState { player: p, ..s }, TickOutcome::Paused)
    } else {
        let delta: u64 = if s.clock.last_time_us == 0 {
            0
        } else {
            t_us - s.clock.last_time_us
        };
        (
            LoopState {
                player: p,
                clock: LoopClock {
                    last_time_us: t_us,
                    frame_index: s.clock.frame_index + 1,
                },
                ..s
            },
            TickOutcome::Draw(
                FrameUniforms {
                    time_us: t_us,
                    time_delta_us: delta,
                    frame_index: s.clock.frame_index,
                    mouse: p.mouse,
                },
            ),
        )
    }
}

/// The loop state right after start-up: the initial program has just
/// been built (generation zero is live), no frame has been drawn, and
/// no external write has been seen.
pub fn initial_state() -> (r: LoopState)
    ensures
        r.phase is Running,
        r.clock.last_time_us == 0,
        r.clock.frame_index == 0,
        r.player.mouse is None,
        r.player.paused is None,
        r.program_generation == 0,
        r.program_live,
{
    LoopState {
        phase: Phase::Running,
        clock: LoopClock { last_time_us: 0, frame_index: 0 },
        player: PlayerState { mouse: None, paused: None },
        program_generation: 0,
        program_live: true,
    }
}

/// Seconds since midnight of a wall-clock time of day, for the date
/// uniform's fourth component.
pub fn seconds_of_day(hours: u32, minutes: u32, seconds: u32) -> (r: u32)
    requires
        hours < 24,
        minutes < 60,
        seconds < 60,
    ensures
        r == hours * 3600 + minutes * 60 + seconds,
        r < 86400,
{
    hours * 3600 + minutes * 60 + seconds
}

/// The loop state after a run of consecutive ticks, each given by a
/// timestamp and the snapshot its non-blocking read produced.
pub open spec fn spec_run_ticks(s: LoopState, ticks: Seq<(u64, Option<PlayerState>)>) -> LoopState
    decreases ticks.len(),
{
    if ticks.len() == 0 {
        s
    } else {
        spec_frame_tick(spec_run_ticks(s, ticks.drop_last()), ticks.last().0, ticks.last().1).0
    }
}

/// Whether a tick's snapshot leaves the cached pause flag set: either
/// the read failed (the cached value stays) or the fresh snapshot
/// itself says paused.
pub open spec fn snapshot_keeps_paused(snapshot: Option<PlayerState>) -> bool {
    match snapshot {
        Some(p) => p.paused == Some(true),
        None => true,
    }
}

/// Pause freezes time: while the cached pause flag is set and every
/// snapshot keeps it set, any number of ticks leaves `last_time_us`
/// and `frame_index` exactly as they were at the moment of pausing.
/// Consequently the first tick after a resume computes its delta from
/// the pre-pause `last_time_us`; no sentinel reset happens on resume.
pub proof fn lemma_pause_freezes_clock(s: LoopState, ticks: Seq<(u64, Option<PlayerState>)>)
    requires
        s.player.paused == Some(true),
        forall|i: int| 0 <= i < ticks.len() ==> snapshot_keeps_paused(#[trigger] ticks[i].1),
    ensures
        spec_run_ticks(s, ticks).clock == s.clock,
        spec_run_ticks(s, ticks).player.paused == Some(true),
    decreases ticks.len(),
{
    if ticks.len() > 0 {
        assert(forall|i: int|
            0 <= i < ticks.len() - 1 ==> snapshot_keeps_paused(
                #[trigger] ticks.drop_last()[i].1,
            ));
        lemma_pause_freezes_clock(s, ticks.drop_last());
    }
}

/// Resuming does not re-sentinel the clock: a tick whose snapshot
/// clears the pause flag draws, and its delta is measured from the
/// `last_time_us` recorded before the pause.
pub proof fn lemma_resume_delta(s: LoopState, t_us: u64, p: PlayerState)
    requires
        p.paused != Some(true),
        s.clock.last_time_us != 0,
        t_us >= s.clock.last_time_us,
    ensures
        spec_frame_tick(s, t_us, Some(p)).1 matches TickOutcome::Draw(u) && u.time_delta_us
            == t_us - s.clock.last_time_us,
{
}

/// Reload sentinel reset: right after any successful rebuild the clock
/// holds the sentinel, so the next drawn frame reports a zero time
/// delta regardless of how much wall-clock time has elapsed.
pub proof fn lemma_reload_resets_delta(s: LoopState, t_us: u64, snapshot: Option<PlayerState>)
    requires
        spec_cached_player(spec_finish_reload(s, true).0, snapshot).paused != Some(true),
    ensures
        spec_finish_reload(s, true).0.clock.last_time_us == 0,
        spec_frame_tick(spec_finish_reload(s, true).0, t_us, snapshot).1
            matches TickOutcome::Draw(u) && u.time_delta_us == 0,
{
}

/// A failed compile keeps the old program: the loop state after a
/// failed reload attempt carries the same program generation, the same
/// liveness and an untouched clock, and the attempt asks for exactly
/// one error report. Once the reload request is lowered, the next tick
/// goes straight to the per-frame work, so no further report follows
/// from the same failed submission.
pub proof fn lemma_failed_reload_keeps_program(s: LoopState)
    ensures
        spec_finish_reload(s, false).0.program_generation == s.program_generation,
        spec_finish_reload(s, false).0.program_live == s.program_live,
        spec_finish_reload(s, false).0.clock == s.clock,
        spec_finish_reload(s, false).0.player == s.player,
        spec_finish_reload(s, false).1 == true,
        spec_begin_frame(spec_finish_reload(s, false).0, false, false) == (
            spec_finish_reload(s, false).0,
            BeginAction::RunFrame,
        ),
{
}

/// The loop state after a run of top-of-tick transitions made while
/// the device-lost flag stays raised, one per tick, whatever reload
/// requests arrive meanwhile.
pub open spec fn spec_lost_frames(s: LoopState, reloads: Seq<bool>) -> LoopState
    decreases reloads.len(),
{
    if reloads.len() == 0 {
        s
    } else {
        spec_begin_frame(spec_lost_frames(s, reloads.drop_last()), true, reloads.last()).0
    }
}

/// While the device stays lost, every tick is a no-op: the state does
/// not change however many ticks pass, and each of those ticks decides
/// `Idle` — no per-frame work, no draw call, and the loop keeps being
/// invoked.
pub proof fn lemma_device_lost_idles(s: LoopState, reloads: Seq<bool>)
    requires
        s.phase is DeviceLost,
    ensures
        spec_lost_frames(s, reloads) == s,
        forall|rr: bool| #[trigger]
            spec_begin_frame(s, true, rr) == (s, BeginAction::Idle),
    decreases reloads.len(),
{
    if reloads.len() > 0 {
        lemma_device_lost_idles(s, reloads.drop_last());
    }
}

/// Device-loss round trip: a running loop that sees the lost flag
/// tears the program down once and goes dormant; any number of ticks
/// under the raised flag change nothing and draw nothing; the first
/// tick after the flag clears forces exactly one rebuild; and once
/// that rebuild succeeds the loop is running again with a fresh, live
/// program and resumes drawing on its next unpaused tick.
pub proof fn lemma_device_loss_round_trip(
    s: LoopState,
    rr0: bool,
    reloads: Seq<bool>,
    rr1: bool,
    t_us: u64,
    snapshot: Option<PlayerState>,
)
    requires
        s.phase is Running,
        s.program_generation < u64::MAX,
        !(spec_cached_player(s, snapshot).paused == Some(true)),
    ensures
        ({
            let (s1, a1) = spec_begin_frame(s, true, rr0);
            let s2 = spec_lost_frames(s1, reloads);
            let (s3, a3) = spec_begin_frame(s2, false, rr1);
            let (s4, report) = spec_finish_reload(s3, true);
            a1 == BeginAction::TearDown && !s1.program_live && s2 == s1 && a3
                == (BeginAction::Reload { forced: true }) && !report && s4.phase is Running
                && s4.program_live && s4.program_generation == s.program_generation + 1
                && spec_frame_tick(s4, t_us, snapshot).1 is Draw
        }),
{
    let (s1, a1) = spec_begin_frame(s, true, rr0);
    lemma_device_lost_idles(s1, reloads);
}

/// A non-blocking read that fails to take the lock stalls nothing: a
/// tick whose snapshot is absent is exactly the tick that would have
/// read back the loop's own cached player state.
pub proof fn lemma_stale_snapshot_matches_cached(s: LoopState, t_us: u64)
    ensures
        spec_frame_tick(s, t_us, None) == spec_frame_tick(s, t_us, Some(s.player)),
{
}

} // verus!
