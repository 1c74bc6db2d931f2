use shadertoy_loop::frame::BeginAction;
use shadertoy_loop::frame::FrameUniforms;
use shadertoy_loop::frame::Phase;
use shadertoy_loop::frame::TickOutcome;
use shadertoy_loop::frame::begin_frame;
use shadertoy_loop::frame::finish_reload;
use shadertoy_loop::frame::frame_tick;
use shadertoy_loop::frame::initial_state;
use shadertoy_loop::frame::seconds_of_day;
use shadertoy_loop::player::MouseUniform;
use shadertoy_loop::player::PlayerState;

fn uniforms(outcome: TickOutcome) -> FrameUniforms {
    match outcome {
        TickOutcome::Draw(u) => u,
        TickOutcome::Paused => panic!("expected a draw, got a paused tick"),
    }
}

#[test]
fn first_frame_has_zero_delta() {
    let s = initial_state();
    let (s, outcome) = frame_tick(s, 16_000, None);
    let u = uniforms(outcome);
    assert_eq!(u.time_us, 16_000);
    assert_eq!(u.time_delta_us, 0);
    assert_eq!(u.frame_index, 0);
    assert_eq!(s.clock.last_time_us, 16_000);
    assert_eq!(s.clock.frame_index, 1);
}

#[test]
fn delta_and_frame_index_advance_between_draws() {
    let s = initial_state();
    let (s, _) = frame_tick(s, 16_000, None);
    let (s, outcome) = frame_tick(s, 48_000, None);
    let u = uniforms(outcome);
    assert_eq!(u.time_delta_us, 32_000);
    assert_eq!(u.frame_index, 1);
    assert_eq!(s.clock.frame_index, 2);
}

#[test]
fn pause_freezes_clock_across_frames() {
    let s = initial_state();
    let (s, _) = frame_tick(s, 10_000, None);
    let paused = PlayerState { mouse: None, paused: Some(true) };
    let (s, outcome) = frame_tick(s, 20_000, Some(paused));
    assert_eq!(outcome, TickOutcome::Paused);
    // Several more ticks while paused: the snapshot read may succeed or
    // fail, the clock stays frozen either way.
    let (s, o1) = frame_tick(s, 30_000, None);
    let (s, o2) = frame_tick(s, 40_000, Some(paused));
    let (s, o3) = frame_tick(s, 50_000, None);
    assert_eq!(o1, TickOutcome::Paused);
    assert_eq!(o2, TickOutcome::Paused);
    assert_eq!(o3, TickOutcome::Paused);
    assert_eq!(s.clock.last_time_us, 10_000);
    assert_eq!(s.clock.frame_index, 1);
    // Resume: the next draw measures its delta from the pre-pause
    // timestamp; the clock is not re-sentineled by a pause.
    let playing = PlayerState { mouse: None, paused: Some(false) };
    let (_, outcome) = frame_tick(s, 60_000, Some(playing));
    let u = uniforms(outcome);
    assert_eq!(u.time_delta_us, 50_000);
    assert_eq!(u.frame_index, 1);
}

#[test]
fn successful_reload_resets_delta_sentinel() {
    let s = initial_state();
    let (s, _) = frame_tick(s, 16_000, None);
    let (s, _) = frame_tick(s, 32_000, None);
    // An external shader write raises the reload request; the next tick
    // attempts the rebuild and it succeeds.
    let (s, action) = begin_frame(s, false, true);
    assert_eq!(action, BeginAction::Reload { forced: false });
    let (s, report) = finish_reload(s, true);
    assert!(!report);
    assert_eq!(s.clock.last_time_us, 0);
    // However much wall-clock time passed, the next draw reports a zero
    // delta.
    let (_, outcome) = frame_tick(s, 9_000_000, None);
    assert_eq!(uniforms(outcome).time_delta_us, 0);
}

#[test]
fn failed_compile_keeps_old_program_and_reports_once() {
    let s = initial_state();
    let (s, _) = frame_tick(s, 16_000, None);
    let generation_before = s.program_generation;
    let clock_before = s.clock;
    let (s, action) = begin_frame(s, false, true);
    assert_eq!(action, BeginAction::Reload { forced: false });
    let (s, report) = finish_reload(s, false);
    // Exactly one report for the failed attempt; the live program and
    // the clock are untouched.
    assert!(report);
    assert_eq!(s.program_generation, generation_before);
    assert!(s.program_live);
    assert_eq!(s.clock, clock_before);
    // The reload request was lowered with the attempt, so the next tick
    // goes straight to the per-frame work: no retry, no second report.
    let (s, action) = begin_frame(s, false, false);
    assert_eq!(action, BeginAction::RunFrame);
    let (_, outcome) = frame_tick(s, 32_000, None);
    assert!(matches!(outcome, TickOutcome::Draw(_)));
}

#[test]
fn device_loss_round_trip() {
    let s = initial_state();
    let (s, _) = frame_tick(s, 16_000, None);
    // The lost flag goes up: the program is torn down once and the
    // frame is skipped, but the loop keeps being invoked.
    let (s, action) = begin_frame(s, true, false);
    assert_eq!(action, BeginAction::TearDown);
    assert_eq!(s.phase, Phase::DeviceLost);
    assert!(!s.program_live);
    // Any number of ticks under the raised flag are no-ops.
    let mut s = s;
    for _ in 0..5 {
        let (next, action) = begin_frame(s, true, false);
        assert_eq!(action, BeginAction::Idle);
        assert_eq!(next, s);
        s = next;
    }
    // The flag clears: the very next tick forces exactly one rebuild.
    let (s, action) = begin_frame(s, false, false);
    assert_eq!(action, BeginAction::Reload { forced: true });
    let (s, report) = finish_reload(s, true);
    assert!(!report);
    assert_eq!(s.phase, Phase::Running);
    assert!(s.program_live);
    assert_eq!(s.program_generation, 1);
    // Drawing resumes, with the delta sentinel freshly set.
    let (_, outcome) = frame_tick(s, 90_000, None);
    assert_eq!(uniforms(outcome).time_delta_us, 0);
}

#[test]
fn failed_snapshot_read_uses_cached_state() {
    let mut s = initial_state();
    let m = MouseUniform { x: 81, y: 82, down_x: 83, down_y: 84 };
    s.player = PlayerState { mouse: Some(m), paused: Some(false) };
    // A tick that could not take the lock completes exactly like one
    // that read back the cached value.
    let (s_stale, o_stale) = frame_tick(s, 16_000, None);
    let (s_fresh, o_fresh) = frame_tick(s, 16_000, Some(s.player));
    assert_eq!(s_stale, s_fresh);
    assert_eq!(o_stale, o_fresh);
    assert_eq!(uniforms(o_stale).mouse, Some(m));
}

#[test]
fn draw_carries_the_cached_mouse_snapshot() {
    let s = initial_state();
    let (_, outcome) = frame_tick(s, 16_000, None);
    assert_eq!(uniforms(outcome).mouse, None);
    let m = MouseUniform { x: 5, y: 6, down_x: 7, down_y: 8 };
    let snapshot = PlayerState { mouse: Some(m), paused: None };
    let (_, outcome) = frame_tick(s, 16_000, Some(snapshot));
    assert_eq!(uniforms(outcome).mouse, Some(m));
}

#[test]
fn running_loop_without_requests_just_runs() {
    let s = initial_state();
    let (next, action) = begin_frame(s, false, false);
    assert_eq!(action, BeginAction::RunFrame);
    assert_eq!(next, s);
}

#[test]
fn seconds_of_day_exact_values() {
    assert_eq!(seconds_of_day(0, 0, 0), 0);
    assert_eq!(seconds_of_day(12, 34, 56), 45_296);
    assert_eq!(seconds_of_day(23, 59, 59), 86_399);
}
