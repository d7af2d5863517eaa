use vstd::prelude::*;
use vstd::arithmetic::div_mod::{lemma_fundamental_div_mod, lemma_fundamental_div_mod_converse};

verus! {

pub const CPU_HZ: u64 = 268_000_000;

pub const AUDIO_HZ: u64 = 48_000;

pub const VIDEO_HZ: u64 = 60;

pub const SCANLINES_TOTAL: u16 = 262;

pub const SCANLINES_ACTIVE: u16 = 240;

pub const BOTTOM_SCANLINE_OFFSET: u16 = 2;

/// CPU cycles of one video frame.
pub const FRAME_CYCLES: u64 = 4_466_666;

/// CPU cycles of one scanline.
pub const LINE_CYCLES: u64 = 17_048;

/// The two screens.
#[derive(Debug, Clone, Copy, PartialEq, Eq, Structural)]
pub enum Screen {
    Top,
    Bottom,
}

/// What a screen shows: its scanline, whether it is in V-blank, and its counters.
#[derive(Debug, Clone, Copy, PartialEq, Eq, Structural)]
pub struct ScreenTimingSnapshot {
    pub scanline: u16,
    pub in_vblank: bool,
    pub frame_count: u64,
    pub vblank_count: u64,
}

/// What one tick produced.
#[derive(Debug, Clone, Copy, PartialEq, Eq, Structural)]
pub struct TimingTick {
    pub audio_samples: u64,
    pub video_frames: u64,
    pub top_vblank_edges: u64,
    pub bottom_vblank_edges: u64,
}

/// Thresholds, in microseconds, beyond which the run budget is scaled.
#[derive(Debug, Clone, Copy, PartialEq, Eq, Structural)]
pub struct DriftCorrectionPolicy {
    pub max_frame_lead_us: i64,
    pub max_frame_lag_us: i64,
}

impl Default for DriftCorrectionPolicy {
    fn default() -> (policy: Self)
        ensures
            policy == (DriftCorrectionPolicy { max_frame_lead_us: 2_000, max_frame_lag_us: 8_000 }),
    {
        DriftCorrectionPolicy { max_frame_lead_us: 2_000, max_frame_lag_us: 8_000 }
    }
}

/// What the timing model shows: counters, both screens and emulated time.
#[derive(Debug, Clone, Copy, PartialEq, Eq, Structural)]
pub struct TimingSnapshot {
    pub cpu_cycles: u64,
    pub audio_samples_due: u64,
    pub video_frames_due: u64,
    pub av_desync_samples: i64,
    pub top: ScreenTimingSnapshot,
    pub bottom: ScreenTimingSnapshot,
    pub emu_time_us: u64,
}

/// Model of the timing state.
pub struct TimingState {
    pub cpu_cycles: u64,
    pub audio_samples_due: u64,
    pub video_frames_due: u64,
    pub audio_phase: u64,
    pub video_phase: u64,
    pub top_vblank_count: u64,
    pub bottom_vblank_count: u64,
    pub wall_time_anchor_us: u64,
    pub drift_policy: DriftCorrectionPolicy,
}

/// A count cut to the largest 64-bit value.
pub open spec fn saturate(value: int) -> u64 {
    if value > u64::MAX {
        u64::MAX
    } else {
        value as u64
    }
}

/// The cycle inside its frame at which a screen is scanned out: the bottom screen
/// runs two scanlines ahead of the top one.
pub open spec fn cycle_in_frame(cpu_cycles: u64, screen: Screen) -> int {
    match screen {
        Screen::Top => cpu_cycles as int % FRAME_CYCLES as int,
        Screen::Bottom => (cpu_cycles as int % FRAME_CYCLES as int + BOTTOM_SCANLINE_OFFSET
            * LINE_CYCLES) % FRAME_CYCLES as int,
    }
}

/// The scanline a screen is at.
pub open spec fn scanline_at(cpu_cycles: u64, screen: Screen) -> int {
    cycle_in_frame(cpu_cycles, screen) / LINE_CYCLES as int
}

/// Whether a screen is past its last active scanline.
pub open spec fn in_vblank_at(cpu_cycles: u64, screen: Screen) -> bool {
    scanline_at(cpu_cycles, screen) >= SCANLINES_ACTIVE
}

/// One when the screen entered V-blank between the two cycle counts, else zero.
pub open spec fn vblank_edges(before: u64, after: u64, screen: Screen) -> u64 {
    if !in_vblank_at(before, screen) && in_vblank_at(after, screen) {
        1
    } else {
        0
    }
}

/// Emulated time in microseconds.
pub open spec fn emulated_us(cpu_cycles: u64) -> u64 {
    (saturate(cpu_cycles * 1_000_000) / CPU_HZ) as u64
}

/// A difference cut to the range of a signed 64-bit value.
pub open spec fn clamp_i64(value: int) -> i64 {
    if value > i64::MAX {
        i64::MAX
    } else if value < i64::MIN {
        i64::MIN
    } else {
        value as i64
    }
}

impl TimingState {
    /// Both phase accumulators are below one second of CPU cycles.
    pub open spec fn well_formed(self) -> bool {
        self.audio_phase < CPU_HZ && self.video_phase < CPU_HZ
    }

    /// The state of a new timing model: all counters zero and the default drift
    /// policy.
    pub open spec fn initial() -> TimingState {
        TimingState {
            cpu_cycles: 0,
            audio_samples_due: 0,
            video_frames_due: 0,
            audio_phase: 0,
            video_phase: 0,
            top_vblank_count: 0,
            bottom_vblank_count: 0,
            wall_time_anchor_us: 0,
            drift_policy: DriftCorrectionPolicy { max_frame_lead_us: 2_000, max_frame_lag_us: 8_000 },
        }
    }

    /// What a tick of `cycles` produces: whole samples and frames from the phase
    /// accumulators, and the V-blank edges seen on each screen.
    pub open spec fn tick_result(self, cycles: u32) -> TimingTick {
        let after = saturate(self.cpu_cycles + cycles);
        TimingTick {
            audio_samples: ((self.audio_phase + cycles * AUDIO_HZ) / CPU_HZ as int) as u64,
            video_frames: ((self.video_phase + cycles * VIDEO_HZ) / CPU_HZ as int) as u64,
            top_vblank_edges: vblank_edges(self.cpu_cycles, after, Screen::Top),
            bottom_vblank_edges: vblank_edges(self.cpu_cycles, after, Screen::Bottom),
        }
    }

    /// The state after a tick of `cycles`.
    pub open spec fn ticked(self, cycles: u32) -> TimingState {
        let tick = self.tick_result(cycles);
        TimingState {
            cpu_cycles: saturate(self.cpu_cycles + cycles),
            audio_samples_due: saturate(self.audio_samples_due + tick.audio_samples),
            video_frames_due: saturate(self.video_frames_due + tick.video_frames),
            audio_phase: ((self.audio_phase + cycles * AUDIO_HZ) % CPU_HZ as int) as u64,
            video_phase: ((self.video_phase + cycles * VIDEO_HZ) % CPU_HZ as int) as u64,
            top_vblank_count: saturate(self.top_vblank_count + tick.top_vblank_edges),
            bottom_vblank_count: saturate(self.bottom_vblank_count + tick.bottom_vblank_edges),
            ..self
        }
    }

    /// What a screen shows in this state.
    pub open spec fn screen(self, screen: Screen) -> ScreenTimingSnapshot {
        ScreenTimingSnapshot {
            scanline: scanline_at(self.cpu_cycles, screen) as u16,
            in_vblank: in_vblank_at(self.cpu_cycles, screen),
            frame_count: self.video_frames_due,
            vblank_count: match screen {
                Screen::Top => self.top_vblank_count,
                Screen::Bottom => self.bottom_vblank_count,
            },
        }
    }

    /// What the model shows in this state.
    pub open spec fn snapshot(self) -> TimingSnapshot {
        TimingSnapshot {
            cpu_cycles: self.cpu_cycles,
            audio_samples_due: self.audio_samples_due,
            video_frames_due: self.video_frames_due,
            av_desync_samples: clamp_i64(
                self.audio_samples_due - self.video_frames_due * (AUDIO_HZ / VIDEO_HZ),
            ),
            top: self.screen(Screen::Top),
            bottom: self.screen(Screen::Bottom),
            emu_time_us: emulated_us(self.cpu_cycles),
        }
    }

    /// How far emulated time is ahead of host time since the anchor, in
    /// microseconds; host time before the anchor counts as the anchor.
    pub open spec fn drift(self, host_wall_time_us: u64) -> int {
        emulated_us(self.cpu_cycles) - if host_wall_time_us >= self.wall_time_anchor_us {
            host_wall_time_us - self.wall_time_anchor_us
        } else {
            0
        }
    }

    /// The budget to run next: halved, but at least one, when emulation leads by
    /// more than the lead threshold; half as much again when it lags by more than
    /// the lag threshold; else as requested.
    pub open spec fn budget(self, host_wall_time_us: u64, requested: u32) -> u32 {
        let drift = self.drift(host_wall_time_us);
        if drift > self.drift_policy.max_frame_lead_us {
            if requested / 2 >= 1 {
                requested / 2
            } else {
                1
            }
        } else if drift < -self.drift_policy.max_frame_lag_us {
            if requested + requested / 2 > u32::MAX {
                u32::MAX
            } else {
                (requested + requested / 2) as u32
            }
        } else {
            requested
        }
    }
}

/// Deterministic timing model: a CPU-cycle counter, phase accumulators for audio
/// samples and video frames, V-blank counters, and the drift policy.
pub struct TimingModel {
    cpu_cycles: u64,
    audio_samples_due: u64,
    video_frames_due: u64,
    audio_phase: u64,
    video_phase: u64,
    top_vblank_count: u64,
    bottom_vblank_count: u64,
    wall_time_anchor_us: u64,
    drift_policy: DriftCorrectionPolicy,
}

impl View for TimingModel {
    type V = TimingState;

    closed spec fn view(&self) -> TimingState {
        TimingState {
            cpu_cycles: self.cpu_cycles,
            audio_samples_due: self.audio_samples_due,
            video_frames_due: self.video_frames_due,
            audio_phase: self.audio_phase,
            video_phase: self.video_phase,
            top_vblank_count: self.top_vblank_count,
            bottom_vblank_count: self.bottom_vblank_count,
            wall_time_anchor_us: self.wall_time_anchor_us,
            drift_policy: self.drift_policy,
        }
    }
}

impl TimingModel {
    /// The phase accumulators of every timing model are below the CPU clock.
    #[verifier::type_invariant]
    pub open spec fn inv(&self) -> bool {
        self@.well_formed()
    }

    /// A timing model with all counters zero and the default drift policy.
    pub fn new() -> (timing: Self)
        ensures
            timing@ == TimingState::initial(),
    {
        TimingModel {
            cpu_cycles: 0,
            audio_samples_due: 0,
            video_frames_due: 0,
            audio_phase: 0,
            video_phase: 0,
            top_vblank_count: 0,
            bottom_vblank_count: 0,
            wall_time_anchor_us: 0,
            drift_policy: DriftCorrectionPolicy { max_frame_lead_us: 2_000, max_frame_lag_us: 8_000 },
        }
    }

    /// Zeroes the counters and the phases; the anchor and the policy go back to
    /// their defaults.
    pub fn reset(&mut self)
        ensures
            final(self)@ == TimingState::initial(),
    {
        *self = TimingModel::new();
    }

    /// Sets the lead and lag thresholds of the drift policy.
    pub fn set_drift_policy(&mut self, policy: DriftCorrectionPolicy)
        ensures
            final(self)@ == (TimingState { drift_policy: policy, ..old(self)@ }),
    {
        proof {
            use_type_invariant(&*self);
        }
        self.drift_policy = policy;
    }

    /// Sets the host time from which drift is measured, in microseconds.
    pub fn set_wall_time_anchor_us(&mut self, host_wall_time_us: u64)
        ensures
            final(self)@ == (TimingState { wall_time_anchor_us: host_wall_time_us, ..old(self)@ }),
    {
        proof {
            use_type_invariant(&*self);
        }
        self.wall_time_anchor_us = host_wall_time_us;
    }

    /// The cycle budget recommended for the next run, given the host's clock.
    pub fn recommended_cycle_budget(&self, host_wall_time_us: u64, requested_cycles: u32) -> (budget:
        u32)
        ensures
            budget == self@.budget(host_wall_time_us, requested_cycles),
    {
        let host_us = host_wall_time_us.saturating_sub(self.wall_time_anchor_us);
        let drift: i128 = self.emulated_time_us() as i128 - host_us as i128;
        if drift > self.drift_policy.max_frame_lead_us as i128 {
            if requested_cycles / 2 >= 1 {
                requested_cycles / 2
            } else {
                1
            }
        } else if drift < -(self.drift_policy.max_frame_lag_us as i128) {
            requested_cycles.saturating_add(requested_cycles / 2)
        } else {
            requested_cycles
        }
    }

    /// Advances the model by `cycles` CPU cycles and reports what became due.
    pub fn tick(&mut self, cycles: u32) -> (tick: TimingTick)
        ensures
            tick == old(self)@.tick_result(cycles),
            final(self)@ == old(self)@.ticked(cycles),
            final(self)@.audio_phase < CPU_HZ,
            final(self)@.video_phase < CPU_HZ,
    {
        proof {
            use_type_invariant(&*self);
        }
        let prev_cycles = self.cpu_cycles;
        let prev_top = self.screen_snapshot_at(prev_cycles, Screen::Top, self.top_vblank_count);
        let prev_bottom = self.screen_snapshot_at(
            prev_cycles,
            Screen::Bottom,
            self.bottom_vblank_count,
        );
        let next_cycles = prev_cycles.saturating_add(cycles as u64);
        let audio = self.audio_phase + cycles as u64 * AUDIO_HZ;
        let produced_samples = audio / CPU_HZ;
        let video = self.video_phase + cycles as u64 * VIDEO_HZ;
        let produced_frames = video / CPU_HZ;
        let next_top = self.screen_snapshot_at(next_cycles, Screen::Top, self.top_vblank_count);
        let next_bottom = self.screen_snapshot_at(
            next_cycles,
            Screen::Bottom,
            self.bottom_vblank_count,
        );
        let top_edges: u64 = if !prev_top.in_vblank && next_top.in_vblank {
            1
        } else {
            0
        };
        let bottom_edges: u64 = if !prev_bottom.in_vblank && next_bottom.in_vblank {
            1
        } else {
            0
        };
        *self = TimingModel {
            cpu_cycles: next_cycles,
            audio_samples_due: self.audio_samples_due.saturating_add(produced_samples),
            video_frames_due: self.video_frames_due.saturating_add(produced_frames),
            audio_phase: audio % CPU_HZ,
            video_phase: video % CPU_HZ,
            top_vblank_count: self.top_vblank_count.saturating_add(top_edges),
            bottom_vblank_count: self.bottom_vblank_count.saturating_add(bottom_edges),
            wall_time_anchor_us: self.wall_time_anchor_us,
            drift_policy: self.drift_policy,
        };
        TimingTick {
            audio_samples: produced_samples,
            video_frames: produced_frames,
            top_vblank_edges: top_edges,
            bottom_vblank_edges: bottom_edges,
        }
    }

    /// What a screen shows at a cycle count: its scanline and whether it is in
    /// V-blank, with the frame count of the model and the given V-blank count.
    fn screen_snapshot_at(&self, cpu_cycles: u64, screen: Screen, vblank_count: u64) -> (snapshot:
        ScreenTimingSnapshot)
        ensures
            snapshot == (ScreenTimingSnapshot {
                scanline: scanline_at(cpu_cycles, screen) as u16,
                in_vblank: in_vblank_at(cpu_cycles, screen),
                frame_count: self@.video_frames_due,
                vblank_count,
            }),
    {
        let mut cycle = cpu_cycles % FRAME_CYCLES;
        match screen {
            Screen::Top => {},
            Screen::Bottom => {
                cycle = (cycle + BOTTOM_SCANLINE_OFFSET as u64 * LINE_CYCLES) % FRAME_CYCLES;
            },
        }
        let scanline = (cycle / LINE_CYCLES) as u16;
        ScreenTimingSnapshot {
            scanline,
            in_vblank: scanline >= SCANLINES_ACTIVE,
            frame_count: self.video_frames_due,
            vblank_count,
        }
    }

    /// What the model shows: counters, both screens and emulated time.
    pub fn snapshot(&self) -> (snapshot: TimingSnapshot)
        ensures
            snapshot == self@.snapshot(),
    {
        let desync: i128 = self.audio_samples_due as i128 - self.video_frames_due as i128 * 800;
        let clamped: i64 = if desync > i64::MAX as i128 {
            i64::MAX
        } else if desync < i64::MIN as i128 {
            i64::MIN
        } else {
            desync as i64
        };
        TimingSnapshot {
            cpu_cycles: self.cpu_cycles,
            audio_samples_due: self.audio_samples_due,
            video_frames_due: self.video_frames_due,
            av_desync_samples: clamped,
            top: self.screen_snapshot_at(self.cpu_cycles, Screen::Top, self.top_vblank_count),
            bottom: self.screen_snapshot_at(
                self.cpu_cycles,
                Screen::Bottom,
                self.bottom_vblank_count,
            ),
            emu_time_us: self.emulated_time_us(),
        }
    }

    /// Emulated time in microseconds.
    pub fn emulated_time_us(&self) -> (us: u64)
        ensures
            us == emulated_us(self@.cpu_cycles),
    {
        let scaled: u128 = self.cpu_cycles as u128 * 1_000_000;
        let capped: u64 = if scaled > u64::MAX as u128 {
            u64::MAX
        } else {
            scaled as u64
        };
        capped / CPU_HZ
    }
}

impl Default for TimingModel {
    fn default() -> (timing: Self)
        ensures
            timing@ == TimingState::initial(),
    {
        TimingModel::new()
    }
}

/// The state after a sequence of ticks, applied first to last.
pub open spec fn after_ticks(start: TimingState, deltas: Seq<u32>) -> TimingState
    decreases deltas.len(),
{
    if deltas.len() == 0 {
        start
    } else {
        after_ticks(start, deltas.drop_last()).ticked(deltas.last())
    }
}

/// Sum of the cycles of a sequence of ticks.
pub open spec fn total_cycles(deltas: Seq<u32>) -> int
    decreases deltas.len(),
{
    if deltas.len() == 0 {
        0
    } else {
        total_cycles(deltas.drop_last()) + deltas.last()
    }
}

/// A tick keeps both phase accumulators below `CPU_HZ`, and hands out exactly the
/// whole samples and frames that the accumulated phase holds.
pub proof fn law_tick_keeps_phase_bounded(s: TimingState, cycles: u32)
    requires
        s.well_formed(),
    ensures
        s.ticked(cycles).well_formed(),
        s.tick_result(cycles).audio_samples * CPU_HZ + s.ticked(cycles).audio_phase == s.audio_phase
            + cycles * AUDIO_HZ,
        s.tick_result(cycles).video_frames * CPU_HZ + s.ticked(cycles).video_phase == s.video_phase
            + cycles * VIDEO_HZ,
{
    let a = s.audio_phase + cycles * AUDIO_HZ;
    let v = s.video_phase + cycles * VIDEO_HZ;
    lemma_fundamental_div_mod(a, CPU_HZ as int);
    lemma_fundamental_div_mod(v, CPU_HZ as int);
    assert(a / CPU_HZ as int * CPU_HZ == CPU_HZ * (a / CPU_HZ as int)) by (nonlinear_arith);
    assert(v / CPU_HZ as int * CPU_HZ == CPU_HZ * (v / CPU_HZ as int)) by (nonlinear_arith);
    assert(0 <= a / CPU_HZ as int <= a) by (nonlinear_arith)
        requires
            0 <= a,
    ;
    assert(0 <= v / CPU_HZ as int <= v) by (nonlinear_arith)
        requires
            0 <= v,
    ;
}

/// After any sequence of ticks from the initial state, the phase accumulators are
/// below `CPU_HZ` and the samples produced are the whole part of the total cycles
/// times `AUDIO_HZ` over `CPU_HZ`, and the frames that of the total cycles times
/// `VIDEO_HZ` over `CPU_HZ`, as long as the counters have not saturated.
pub proof fn law_samples_after_ticks(deltas: Seq<u32>)
    requires
        total_cycles(deltas) * AUDIO_HZ / CPU_HZ as int <= u64::MAX,
    ensures
        after_ticks(TimingState::initial(), deltas).well_formed(),
        after_ticks(TimingState::initial(), deltas).audio_samples_due == total_cycles(deltas)
            * AUDIO_HZ / CPU_HZ as int,
        after_ticks(TimingState::initial(), deltas).audio_phase == total_cycles(deltas) * AUDIO_HZ
            % CPU_HZ as int,
        after_ticks(TimingState::initial(), deltas).video_frames_due == total_cycles(deltas)
            * VIDEO_HZ / CPU_HZ as int,
        after_ticks(TimingState::initial(), deltas).video_phase == total_cycles(deltas) * VIDEO_HZ
            % CPU_HZ as int,
    decreases deltas.len(),
{
    lemma_total_cycles_nonnegative(deltas);
    if deltas.len() > 0 {
        let front = deltas.drop_last();
        let last = deltas.last();
        let t = total_cycles(front);
        lemma_total_cycles_nonnegative(front);
        let n = total_cycles(deltas);
        assert(t * AUDIO_HZ / CPU_HZ as int <= n * AUDIO_HZ / CPU_HZ as int) by (nonlinear_arith)
            requires
                0 <= t <= n,
        ;
        assert(0 <= n * VIDEO_HZ / CPU_HZ as int <= n * AUDIO_HZ / CPU_HZ as int) by (nonlinear_arith)
            requires
                0 <= n,
        ;
        law_samples_after_ticks(front);
        let s = after_ticks(TimingState::initial(), front);
        law_tick_keeps_phase_bounded(s, last);
        let r = s.tick_result(last);
        let s2 = s.ticked(last);
        lemma_fundamental_div_mod(t * AUDIO_HZ, CPU_HZ as int);
        lemma_fundamental_div_mod(t * VIDEO_HZ, CPU_HZ as int);
        let qa = s.audio_samples_due + r.audio_samples;
        let qv = s.video_frames_due + r.video_frames;
        assert(n * AUDIO_HZ == qa * CPU_HZ + s2.audio_phase) by (nonlinear_arith)
            requires
                n == t + last,
                t * AUDIO_HZ == CPU_HZ * (s.audio_samples_due as int) + s.audio_phase,
                r.audio_samples * CPU_HZ + s2.audio_phase == s.audio_phase + last * AUDIO_HZ,
                qa == s.audio_samples_due + r.audio_samples,
        ;
        assert(n * VIDEO_HZ == qv * CPU_HZ + s2.video_phase) by (nonlinear_arith)
            requires
                n == t + last,
                t * VIDEO_HZ == CPU_HZ * (s.video_frames_due as int) + s.video_phase,
                r.video_frames * CPU_HZ + s2.video_phase == s.video_phase + last * VIDEO_HZ,
                qv == s.video_frames_due + r.video_frames,
        ;
        lemma_fundamental_div_mod_converse(
            n * AUDIO_HZ,
            CPU_HZ as int,
            qa,
            s2.audio_phase as int,
        );
        lemma_fundamental_div_mod_converse(
            n * VIDEO_HZ,
            CPU_HZ as int,
            qv,
            s2.video_phase as int,
        );
    }
}

/// A sum of cycle counts is not negative.
pub proof fn lemma_total_cycles_nonnegative(deltas: Seq<u32>)
    ensures
        total_cycles(deltas) >= 0,
    decreases deltas.len(),
{
    if deltas.len() > 0 {
        lemma_total_cycles_nonnegative(deltas.drop_last());
    }
}

} // verus!
