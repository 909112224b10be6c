//! The QoS controller: per-user delay history with a smoothed minimum RTT,
//! and the two feedback loops that adapt FPS and bitrate ratio to observed
//! network delay.
//!
//! Bitrate ratios are carried in milli-units (one thousandth of the
//! dimensionless ratio), so `670` stands for the balanced ratio 0.67 and
//! the controller band of 0.1 to 4.0 is `100` to `4000`.

use vstd::prelude::*;

use crate::seqtools::{lemma_seq_min_u32_push, lemma_seq_sum_u32_push, seq_min_u32, seq_sum_u32};
use std::collections::VecDeque;

verus! {

/// Default frames per second.
pub const FPS: u32 = 30;

/// Lowest frames per second the controller ever selects.
pub const MIN_FPS: u32 = 1;

/// Highest frames per second the controller ever selects.
pub const MAX_FPS: u32 = 120;

/// Cap applied within one second of a new connection.
pub const INIT_FPS: u32 = 15;

/// Best-quality bitrate ratio, in milli-units.
pub const BR_BEST_MILLI: u32 = 1500;

/// Balanced bitrate ratio, in milli-units.
pub const BR_BALANCED_MILLI: u32 = 670;

/// Speed-priority bitrate ratio, in milli-units.
pub const BR_SPEED_MILLI: u32 = 500;

/// Lower ratio floor used for high resolutions, in milli-units.
pub const BR_MIN_HIGH_RESOLUTION_MILLI: u32 = 100;

/// Ratio floor of the best-quality band, in milli-units.
pub const BR_MIN_MILLI: u32 = 200;

/// Upper bound of every controller ratio, in milli-units.
pub const BR_TOP_MILLI: u32 = 4000;

/// Length kept in each user's short delay history.
pub const HISTORY_DELAY_LEN: usize = 2;

/// Seconds between bitrate-ratio adjustments.
pub const ADJUST_RATIO_INTERVAL: u64 = 3;

/// Per-interval send count above which a screen counts as dynamic.
pub const DYNAMIC_SCREEN_THRESHOLD: u64 = 2;

/// The 150 ms delay threshold that separates holding from reducing FPS.
pub const DELAY_THRESHOLD_150MS: u32 = 150;

/// Number of samples in the RTT sliding window.
pub const RTT_WINDOW_SAMPLES: usize = 60;

/// Samples needed before the global minimum is reported as the RTT.
pub const RTT_MIN_SAMPLES: usize = 10;

/// A target quality selected by a user. A custom quality carries its ratio
/// in milli-units.
#[derive(Debug, Clone, Copy, PartialEq, Eq, Structural)]
pub enum Quality {
    Best,
    Balanced,
    Low,
    Custom(u32),
}

impl Quality {
    /// The bitrate ratio of this quality, in milli-units.
    pub open spec fn spec_ratio_milli(self) -> u32 {
        match self {
            Quality::Best => BR_BEST_MILLI,
            Quality::Balanced => BR_BALANCED_MILLI,
            Quality::Low => BR_SPEED_MILLI,
            Quality::Custom(v) => v,
        }
    }

    /// The bitrate ratio of this quality, in milli-units.
    pub fn ratio_milli(&self) -> (r: u32)
        ensures
            r == self.spec_ratio_milli(),
    {
        match self {
            Quality::Best => BR_BEST_MILLI,
            Quality::Balanced => BR_BALANCED_MILLI,
            Quality::Low => BR_SPEED_MILLI,
            Quality::Custom(v) => *v,
        }
    }

    /// Whether this is a custom quality.
    pub fn is_custom(&self) -> (r: bool)
        ensures
            r == (self is Custom),
    {
        match self {
            Quality::Custom(_) => true,
            _ => false,
        }
    }
}

impl Default for Quality {
    fn default() -> (r: Self)
        ensures
            r == Quality::Balanced,
    {
        Quality::Balanced
    }
}

// ---------------------------------------------------------------------------
// RTT calculator
// ---------------------------------------------------------------------------
/// A per-user ring buffer of up to 60 delay samples. It reports the
/// smoothed value `(global_min + window_min) / 2` once the window is full,
/// the global minimum once at least 10 samples are present, and nothing
/// before that.
pub struct RttCalculator {
    /// Smallest delay ever observed.
    pub min_rtt: Option<u32>,
    /// Smallest delay within the current window.
    pub window_min_rtt: Option<u32>,
    /// The smoothed estimate reported once the window is full.
    pub smoothed_rtt: Option<u32>,
    /// The sliding window of recent samples.
    pub samples: VecDeque<u32>,
}

/// The new global minimum after one more sample.
pub open spec fn spec_new_min(m: Option<u32>, delay: u32) -> u32 {
    match m {
        Some(m) => if delay < m {
            delay
        } else {
            m
        },
        None => delay,
    }
}

/// The new sample window after one more sample: the oldest sample leaves
/// once the window is full.
pub open spec fn spec_new_samples(s: Seq<u32>, delay: u32) -> Seq<u32> {
    if s.len() >= RTT_WINDOW_SAMPLES {
        s.drop_first().push(delay)
    } else {
        s.push(delay)
    }
}

impl RttCalculator {
    /// The RTT this calculator currently reports, if any.
    pub open spec fn spec_rtt(self) -> Option<u32> {
        if self.smoothed_rtt is Some {
            self.smoothed_rtt
        } else if self.samples@.len() >= RTT_MIN_SAMPLES && self.min_rtt is Some {
            self.min_rtt
        } else {
            None
        }
    }

    /// An empty calculator.
    pub fn new() -> (r: Self)
        ensures
            r.min_rtt is None,
            r.window_min_rtt is None,
            r.smoothed_rtt is None,
            r.samples@ == Seq::<u32>::empty(),
    {
        RttCalculator {
            min_rtt: None,
            window_min_rtt: None,
            smoothed_rtt: None,
            samples: VecDeque::new(),
        }
    }

    /// Feed one delay sample: the global minimum and the sliding window
    /// are updated, and once the window is full the smoothed RTT becomes
    /// the average of the global and window minima.
    pub fn update(&mut self, delay: u32)
        ensures
            final(self).min_rtt == Some(spec_new_min(old(self).min_rtt, delay)),
            final(self).samples@ == spec_new_samples(old(self).samples@, delay),
            final(self).window_min_rtt == Some(seq_min_u32(final(self).samples@)),
            final(self).smoothed_rtt == if final(self).samples@.len() >= RTT_WINDOW_SAMPLES {
                Some(
                    (((spec_new_min(old(self).min_rtt, delay) as int) + (seq_min_u32(
                        final(self).samples@,
                    ) as int)) / 2) as u32,
                )
            } else {
                old(self).smoothed_rtt
            },
    {
        match self.min_rtt {
            Some(min_rtt) => {
                if delay < min_rtt {
                    self.min_rtt = Some(delay);
                }
            },
            None => {
                self.min_rtt = Some(delay);
            },
        }
        if self.samples.len() >= RTT_WINDOW_SAMPLES {
            self.samples.pop_front();
        }
        self.samples.push_back(delay);

        let n = self.samples.len();
        let mut window_min: u32 = self.samples[0];
        let mut i: usize = 1;
        proof {
            let t = self.samples@.take(1);
            assert(t.len() == 1 && t[0] == self.samples@[0]);
            assert(t.drop_first() =~= Seq::<u32>::empty());
            assert(seq_min_u32(t.drop_first()) == u32::MAX);
            assert(seq_min_u32(t) == t[0]);
        }
        while i < n
            invariant
                1 <= i <= n == self.samples@.len(),
                window_min == seq_min_u32(self.samples@.take(i as int)),
            decreases n - i,
        {
            let s = self.samples[i];
            proof {
                assert(self.samples@.take(i + 1) =~= self.samples@.take(i as int).push(
                    self.samples@[i as int],
                ));
                lemma_seq_min_u32_push(self.samples@.take(i as int), self.samples@[i as int]);
            }
            if s < window_min {
                window_min = s;
            }
            i = i + 1;
        }
        proof {
            assert(self.samples@.take(n as int) =~= self.samples@);
        }
        self.window_min_rtt = Some(window_min);

        if self.samples.len() >= RTT_WINDOW_SAMPLES {
            if let (Some(min), Some(wmin)) = (self.min_rtt, self.window_min_rtt) {
                let sum: u64 = (min as u64) + (wmin as u64);
                self.smoothed_rtt = Some((sum / 2) as u32);
            }
        }
    }

    /// The smoothed RTT once the window is full; the global minimum once
    /// ten samples are present; nothing before that.
    pub fn get_rtt(&self) -> (r: Option<u32>)
        ensures
            r == self.spec_rtt(),
    {
        if let Some(rtt) = self.smoothed_rtt {
            return Some(rtt);
        }
        if self.samples.len() >= RTT_MIN_SAMPLES {
            if let Some(rtt) = self.min_rtt {
                return Some(rtt);
            }
        }
        None
    }
}

// ---------------------------------------------------------------------------
// Per-user delay state
// ---------------------------------------------------------------------------
/// A user's recent delay samples and the FPS bookkeeping derived from them.
pub struct UserDelay {
    /// Whether this user has reported a response delay.
    pub response_delayed: bool,
    /// The last few delay samples.
    pub delay_history: VecDeque<u32>,
    /// The candidate FPS computed from this user's delay.
    pub fps: Option<u32>,
    /// The sliding-window RTT estimate.
    pub rtt_calculator: RttCalculator,
    /// Consecutive low-delay samples toward a quick FPS bump.
    pub quick_increase_fps_count: u32,
    /// Consecutive below-threshold samples toward a slow FPS bump.
    pub increase_fps_count: u32,
}

impl UserDelay {
    /// The history never holds more than one sample beyond its nominal
    /// length, and the bump counters reset before they pass two.
    pub open spec fn wf(self) -> bool {
        &&& self.delay_history@.len() <= HISTORY_DELAY_LEN + 1
        &&& self.quick_increase_fps_count <= 2
        &&& self.increase_fps_count <= 2
    }
}

/// The user's average delay with the RTT baseline subtracted: the mean of
/// the history minus the reported RTT when the mean exceeds it, or the
/// 150 ms threshold while the history is empty.
pub open spec fn spec_avg_delay(d: UserDelay) -> u32 {
    if d.delay_history@.len() > 0 {
        let avg = seq_sum_u32(d.delay_history@) / (d.delay_history@.len() as int);
        match d.rtt_calculator.spec_rtt() {
            Some(rtt) => if avg > rtt {
                (avg - rtt) as u32
            } else {
                avg as u32
            },
            None => avg as u32,
        }
    } else {
        DELAY_THRESHOLD_150MS
    }
}

impl UserDelay {
    /// A fresh user with no history.
    pub fn new() -> (r: Self)
        ensures
            !r.response_delayed,
            r.delay_history@ == Seq::<u32>::empty(),
            r.fps is None,
            r.quick_increase_fps_count == 0,
            r.increase_fps_count == 0,
            r.rtt_calculator.spec_rtt() is None,
    {
        UserDelay {
            response_delayed: false,
            delay_history: VecDeque::new(),
            fps: None,
            rtt_calculator: RttCalculator::new(),
            quick_increase_fps_count: 0,
            increase_fps_count: 0,
        }
    }

    /// Record one delay sample in the history and the RTT window. The
    /// history keeps at most one sample beyond its nominal length, as the
    /// oldest is dropped only once the length exceeds it.
    pub fn add_delay(&mut self, delay: u32)
        requires
            old(self).wf(),
        ensures
            final(self).wf(),
            final(self).delay_history@ == if old(self).delay_history@.len() > HISTORY_DELAY_LEN {
                old(self).delay_history@.drop_first().push(delay)
            } else {
                old(self).delay_history@.push(delay)
            },
            final(self).rtt_calculator.samples@ == spec_new_samples(
                old(self).rtt_calculator.samples@,
                delay,
            ),
            final(self).rtt_calculator.min_rtt == Some(spec_new_min(
                old(self).rtt_calculator.min_rtt,
                delay,
            )),
            final(self).rtt_calculator.window_min_rtt == Some(seq_min_u32(
                final(self).rtt_calculator.samples@,
            )),
            final(self).rtt_calculator.smoothed_rtt == (if final(self).rtt_calculator.samples@.len()
                >= RTT_WINDOW_SAMPLES {
                Some((((spec_new_min(old(self).rtt_calculator.min_rtt, delay) as int) + (
                seq_min_u32(final(self).rtt_calculator.samples@) as int)) / 2) as u32)
            } else {
                old(self).rtt_calculator.smoothed_rtt
            }),
            final(self).response_delayed == old(self).response_delayed,
            final(self).fps == old(self).fps,
            final(self).quick_increase_fps_count == old(self).quick_increase_fps_count,
            final(self).increase_fps_count == old(self).increase_fps_count,
    {
        self.rtt_calculator.update(delay);
        if self.delay_history.len() > HISTORY_DELAY_LEN {
            self.delay_history.pop_front();
        }
        self.delay_history.push_back(delay);
    }

    /// The average delay with the RTT baseline subtracted.
    pub fn avg_delay(&self) -> (r: u32)
        requires
            self.wf(),
        ensures
            r == spec_avg_delay(*self),
    {
        let len = self.delay_history.len();
        if len > 0 {
            let mut sum: u64 = 0;
            let mut i: usize = 0;
            proof {
                assert(self.delay_history@.take(0) =~= Seq::<u32>::empty());
            }
            while i < len
                invariant
                    i <= len == self.delay_history@.len(),
                    len <= HISTORY_DELAY_LEN + 1,
                    sum == seq_sum_u32(self.delay_history@.take(i as int)),
                    sum <= i * (u32::MAX as int),
                decreases len - i,
            {
                let s = self.delay_history[i];
                proof {
                    assert(self.delay_history@.take(i + 1) =~= self.delay_history@.take(
                        i as int,
                    ).push(self.delay_history@[i as int]));
                    lemma_seq_sum_u32_push(
                        self.delay_history@.take(i as int),
                        self.delay_history@[i as int],
                    );
                    assert((i + 1) * (u32::MAX as int) == i * (u32::MAX as int) + u32::MAX)
                        by (nonlinear_arith);
                }
                sum = sum + (s as u64);
                i = i + 1;
            }
            proof {
                assert(self.delay_history@.take(len as int) =~= self.delay_history@);
                assert(sum / (len as u64) <= u32::MAX) by (nonlinear_arith)
                    requires
                        sum <= len * (u32::MAX as int),
                        len > 0,
                ;
            }
            let avg_delay = (sum / (len as u64)) as u32;
            if let Some(rtt) = self.rtt_calculator.get_rtt() {
                if avg_delay > rtt {
                    avg_delay - rtt
                } else {
                    avg_delay
                }
            } else {
                avg_delay
            }
        } else {
            DELAY_THRESHOLD_150MS
        }
    }
}

// ---------------------------------------------------------------------------
// Per-user and per-display records
// ---------------------------------------------------------------------------
/// Whether a quality's ratio lies inside the controller band.
pub open spec fn spec_quality_ok(q: Quality) -> bool {
    match q {
        Quality::Custom(v) => BR_MIN_HIGH_RESOLUTION_MILLI <= v <= BR_TOP_MILLI,
        _ => true,
    }
}

/// Every named quality's ratio lies inside the controller band.
pub proof fn lemma_quality_ok_ratio(q: Quality)
    requires
        spec_quality_ok(q),
    ensures
        BR_MIN_HIGH_RESOLUTION_MILLI <= q.spec_ratio_milli() <= BR_TOP_MILLI,
{
}

/// What the controller tracks for one connected user.
pub struct UserData {
    /// FPS chosen automatically for this user, if any.
    pub auto_adjust_fps: Option<u32>,
    /// FPS the user asked for, if any.
    pub custom_fps: Option<u32>,
    /// The user's chosen quality, stamped with the time it was chosen.
    pub quality: Option<(i64, Quality)>,
    /// The user's delay state.
    pub delay: UserDelay,
    /// Whether this user records the session.
    pub record: bool,
}

impl UserData {
    /// The delay state is well formed and any chosen quality lies in the
    /// controller band.
    pub open spec fn wf(self) -> bool {
        &&& self.delay.wf()
        &&& match self.quality {
            Some(q) => spec_quality_ok(q.1),
            None => true,
        }
    }

    /// A fresh user record.
    pub fn new() -> (r: Self)
        ensures
            r.wf(),
            spec_fresh_user(r),
    {
        UserData {
            auto_adjust_fps: None,
            custom_fps: None,
            quality: None,
            delay: UserDelay::new(),
            record: false,
        }
    }
}

/// What the controller tracks for one capture display.
pub struct DisplayData {
    /// Frames sent in the current ratio-adjustment interval.
    pub send_counter: u64,
    /// Whether the display's encoder can change quality while running.
    pub support_changing_quality: bool,
}

impl DisplayData {
    /// A fresh display record.
    pub fn new() -> (r: Self)
        ensures
            r.send_counter == 0,
            !r.support_changing_quality,
    {
        DisplayData { send_counter: 0, support_changing_quality: false }
    }
}

/// Whether a user record is freshly initialized: nothing chosen, no
/// history, no candidate FPS.
pub open spec fn spec_fresh_user(u: UserData) -> bool {
    &&& u.auto_adjust_fps is None
    &&& u.custom_fps is None
    &&& u.quality is None
    &&& !u.record
    &&& !u.delay.response_delayed
    &&& u.delay.delay_history@.len() == 0
    &&& u.delay.fps is None
    &&& u.delay.rtt_calculator.spec_rtt() is None
    &&& u.delay.quick_increase_fps_count == 0
    &&& u.delay.increase_fps_count == 0
}

// ---------------------------------------------------------------------------
// Aggregations over the connected users
// ---------------------------------------------------------------------------
/// The FPS a user allows: the custom FPS (default 30), overridden by the
/// auto-adjust FPS when that is smaller or the custom FPS is zero.
pub open spec fn spec_user_fps(u: UserData) -> u32 {
    let base = match u.custom_fps {
        Some(v) => v,
        None => FPS,
    };
    match u.auto_adjust_fps {
        Some(auto) => if base == 0 || auto < base {
            auto
        } else {
            base
        },
        None => base,
    }
}

/// The smallest allowed FPS at or after index `i`, ignoring values below
/// the minimum.
pub open spec fn spec_min_allowed_fps_from(users: Seq<(i32, UserData)>, i: int) -> Option<u32>
    decreases users.len() - i,
{
    if i < 0 || i >= users.len() {
        None
    } else {
        let rest = spec_min_allowed_fps_from(users, i + 1);
        let f = spec_user_fps(users[i].1);
        if f < MIN_FPS {
            rest
        } else {
            match rest {
                None => Some(f),
                Some(m) => Some(
                    if f < m {
                        f
                    } else {
                        m
                    },
                ),
            }
        }
    }
}

/// The highest FPS the connected users allow, clamped into `[1, 120]`;
/// the default FPS with no users.
pub open spec fn spec_highest_fps(users: Seq<(i32, UserData)>) -> u32 {
    let f = match spec_min_allowed_fps_from(users, 0) {
        Some(v) => v,
        None => FPS,
    };
    if f < MIN_FPS {
        MIN_FPS
    } else if f > MAX_FPS {
        MAX_FPS
    } else {
        f
    }
}

/// A user's candidate FPS, defaulting to the initial cap.
pub open spec fn spec_candidate_fps(u: UserData) -> u32 {
    match u.delay.fps {
        Some(v) => v,
        None => INIT_FPS,
    }
}

/// The smallest candidate FPS at or after index `i`.
pub open spec fn spec_min_candidate_fps_from(users: Seq<(i32, UserData)>, i: int) -> Option<u32>
    decreases users.len() - i,
{
    if i < 0 || i >= users.len() {
        None
    } else {
        let rest = spec_min_candidate_fps_from(users, i + 1);
        let f = spec_candidate_fps(users[i].1);
        match rest {
            None => Some(f),
            Some(m) => Some(
                if f < m {
                    f
                } else {
                    m
                },
            ),
        }
    }
}

/// The largest per-user average delay at or after index `i`.
pub open spec fn spec_max_avg_delay_from(users: Seq<(i32, UserData)>, i: int) -> Option<u32>
    decreases users.len() - i,
{
    if i < 0 || i >= users.len() {
        None
    } else {
        let rest = spec_max_avg_delay_from(users, i + 1);
        let d = spec_avg_delay(users[i].1.delay);
        match rest {
            None => Some(d),
            Some(m) => Some(
                if d > m {
                    d
                } else {
                    m
                },
            ),
        }
    }
}

/// The most recently chosen user quality at or after index `i`, preferring
/// the later entry on equal timestamps.
pub open spec fn spec_latest_quality_from(users: Seq<(i32, UserData)>, i: int) -> Option<
    (i64, Quality),
>
    decreases users.len() - i,
{
    if i < 0 || i >= users.len() {
        None
    } else {
        let rest = spec_latest_quality_from(users, i + 1);
        match users[i].1.quality {
            None => rest,
            Some(q) => match rest {
                None => Some(q),
                Some(r) => Some(
                    if q.0 > r.0 {
                        q
                    } else {
                        r
                    },
                ),
            },
        }
    }
}

/// The quality the controller currently targets: the most recently chosen
/// user quality, or balanced when none was chosen.
pub open spec fn spec_latest_quality(users: Seq<(i32, UserData)>) -> Quality {
    match spec_latest_quality_from(users, 0) {
        Some(q) => q.1,
        None => Quality::Balanced,
    }
}

/// The FPS the aggregation step selects: the minimum of the users'
/// candidate FPS values (the initial cap when unset), lowered to one
/// above the minimum while any user reports response delays, capped at
/// the initial FPS within one second of a new connection, and clamped
/// into the band the users allow.
pub open spec fn spec_aggregate_fps(users: Seq<(i32, UserData)>, new_user_recent: bool) -> u32 {
    let base = match spec_min_candidate_fps_from(users, 0) {
        Some(v) => v,
        None => INIT_FPS,
    };
    let delayed = exists|k: int|
        0 <= k < users.len() && (#[trigger] users[k]).1.delay.response_delayed;
    let f1 = if delayed && base > MIN_FPS + 1 {
        (MIN_FPS + 1) as u32
    } else {
        base
    };
    let f2 = if new_user_recent && f1 > INIT_FPS {
        INIT_FPS
    } else {
        f1
    };
    let h = spec_highest_fps(users);
    if f2 < MIN_FPS {
        MIN_FPS
    } else if f2 > h {
        h
    } else {
        f2
    }
}

/// With well-formed users the targeted quality lies in the controller
/// band.
pub proof fn lemma_latest_quality_ok(users: Seq<(i32, UserData)>, i: int)
    requires
        forall|k: int| 0 <= k < users.len() ==> #[trigger] users[k].1.wf(),
    ensures
        match spec_latest_quality_from(users, i) {
            Some(q) => spec_quality_ok(q.1),
            None => true,
        },
    decreases users.len() - i,
{
    if 0 <= i < users.len() {
        lemma_latest_quality_ok(users, i + 1);
        assert(users[i].1.wf());
    }
}

// ---------------------------------------------------------------------------
// The controller state
// ---------------------------------------------------------------------------
/// The QoS controller: per-user delay data, per-display send counters, and
/// the FPS and bitrate ratio they currently prescribe.
pub struct VideoQoS {
    /// Current frames per second.
    pub fps: u32,
    /// Current bitrate ratio, in milli-units.
    pub ratio: u32,
    /// One record per connected user, keyed by user id.
    pub users: Vec<(i32, UserData)>,
    /// One record per capture display, keyed by display id.
    pub displays: Vec<(u32, DisplayData)>,
    /// The bitrate the encoder last reported.
    pub bitrate_store: u32,
    /// When the ratio was last adjusted, in milliseconds.
    pub adjust_ratio_ms: u64,
    /// Whether adaptive bitrate is configured on.
    pub abr_config: bool,
    /// When the newest user connected, in milliseconds.
    pub new_user_ms: u64,
}

impl VideoQoS {
    /// The controller invariant: FPS in `[1, 120]`, ratio in the band
    /// `[0.1, 4.0]` (milli-units `[100, 4000]`), unique user and display
    /// keys, and well-formed user records.
    pub open spec fn wf(self) -> bool {
        &&& MIN_FPS <= self.fps <= MAX_FPS
        &&& BR_MIN_HIGH_RESOLUTION_MILLI <= self.ratio <= BR_TOP_MILLI
        &&& forall|i: int, j: int|
            0 <= i < j < self.users@.len() ==> #[trigger] self.users@[i].0 != #[trigger] self.users@[j].0
        &&& forall|i: int, j: int|
            0 <= i < j < self.displays@.len() ==> #[trigger] self.displays@[i].0
                != #[trigger] self.displays@[j].0
        &&& forall|i: int| 0 <= i < self.users@.len() ==> (#[trigger] self.users@[i].1).wf()
    }

    /// Whether the controller may adjust the ratio: adaptive bitrate is on
    /// and every display's encoder supports changing quality.
    pub open spec fn spec_in_vbr_state(self) -> bool {
        self.abr_config && forall|i: int|
            0 <= i < self.displays@.len() ==> (#[trigger] self.displays@[i].1).support_changing_quality
    }

    /// A fresh controller at the default FPS and balanced ratio.
    pub fn new(now_ms: u64) -> (r: Self)
        ensures
            r.wf(),
            r.fps == FPS,
            r.ratio == BR_BALANCED_MILLI,
            r.users@.len() == 0,
            r.displays@.len() == 0,
            r.bitrate_store == 0,
            r.abr_config,
            r.adjust_ratio_ms == now_ms,
            r.new_user_ms == now_ms,
    {
        VideoQoS {
            fps: FPS,
            ratio: BR_BALANCED_MILLI,
            users: Vec::new(),
            displays: Vec::new(),
            bitrate_store: 0,
            adjust_ratio_ms: now_ms,
            abr_config: true,
            new_user_ms: now_ms,
        }
    }

    /// The current FPS, or the default if the stored value left its band.
    pub fn fps(&self) -> (r: u32)
        ensures
            r == if MIN_FPS <= self.fps <= MAX_FPS {
                self.fps
            } else {
                FPS
            },
    {
        let fps = self.fps;
        if fps >= MIN_FPS && fps <= MAX_FPS {
            fps
        } else {
            FPS
        }
    }

    /// Set the FPS, clamped into `[1, 120]`.
    pub fn set_fps(&mut self, fps: u32)
        ensures
            *final(self) == (VideoQoS {
                fps: if fps < MIN_FPS {
                    MIN_FPS
                } else if fps > MAX_FPS {
                    MAX_FPS
                } else {
                    fps
                },
                ..*old(self)
            }),
    {
        self.fps = if fps < MIN_FPS {
            MIN_FPS
        } else if fps > MAX_FPS {
            MAX_FPS
        } else {
            fps
        };
    }

    /// The bitrate the encoder last reported.
    pub fn bitrate(&self) -> (r: u32)
        ensures
            r == self.bitrate_store,
    {
        self.bitrate_store
    }

    /// Record the bitrate the encoder reports.
    pub fn store_bitrate(&mut self, bitrate: u32)
        ensures
            *final(self) == (VideoQoS { bitrate_store: bitrate, ..*old(self) }),
    {
        self.bitrate_store = bitrate;
    }

    /// The current ratio; a value outside the representable band is first
    /// reset to balanced.
    pub fn ratio(&mut self) -> (r: u32)
        ensures
            *final(self) == (VideoQoS {
                ratio: if BR_MIN_HIGH_RESOLUTION_MILLI <= old(self).ratio <= 40000 {
                    old(self).ratio
                } else {
                    BR_BALANCED_MILLI
                },
                ..*old(self)
            }),
            r == final(self).ratio,
            old(self).wf() ==> r == old(self).ratio,
    {
        if self.ratio < BR_MIN_HIGH_RESOLUTION_MILLI || self.ratio > 40000 {
            self.ratio = BR_BALANCED_MILLI;
        }
        self.ratio
    }

    /// Whether adaptive bitrate currently applies.
    pub fn in_vbr_state(&self) -> (r: bool)
        ensures
            r == self.spec_in_vbr_state(),
    {
        if !self.abr_config {
            return false;
        }
        let n = self.displays.len();
        let mut i: usize = 0;
        while i < n
            invariant
                i <= n == self.displays@.len(),
                forall|k: int|
                    0 <= k < i ==> (#[trigger] self.displays@[k].1).support_changing_quality,
            decreases n - i,
        {
            if !self.displays[i].1.support_changing_quality {
                return false;
            }
            i = i + 1;
        }
        true
    }

    /// The seconds-per-frame interval in milliseconds, `1000 / fps`.
    pub fn spf_ms(&self) -> (r: u64)
        ensures
            r == 1000 as int / (if MIN_FPS <= self.fps <= MAX_FPS {
                self.fps
            } else {
                FPS
            } as int),
    {
        let f = self.fps();
        1000 / (f as u64)
    }

    /// The highest FPS the connected users allow.
    pub fn highest_fps(&self) -> (r: u32)
        ensures
            r == spec_highest_fps(self.users@),
            MIN_FPS <= r <= MAX_FPS,
    {
        let n = self.users.len();
        let mut i = n;
        let mut acc: Option<u32> = None;
        while i > 0
            invariant
                i <= n == self.users@.len(),
                acc == spec_min_allowed_fps_from(self.users@, i as int),
            decreases i,
        {
            i = i - 1;
            let u = &self.users[i].1;
            let base = match u.custom_fps {
                Some(v) => v,
                None => FPS,
            };
            let f = match u.auto_adjust_fps {
                Some(auto) => if base == 0 || auto < base {
                    auto
                } else {
                    base
                },
                None => base,
            };
            if f >= MIN_FPS {
                acc = match acc {
                    Some(m) => Some(
                        if f < m {
                            f
                        } else {
                            m
                        },
                    ),
                    None => Some(f),
                };
            }
        }
        let f = match acc {
            Some(v) => v,
            None => FPS,
        };
        if f < MIN_FPS {
            MIN_FPS
        } else if f > MAX_FPS {
            MAX_FPS
        } else {
            f
        }
    }

    /// The quality the controller currently targets.
    pub fn latest_quality(&self) -> (r: Quality)
        ensures
            r == spec_latest_quality(self.users@),
    {
        let n = self.users.len();
        let mut i = n;
        let mut acc: Option<(i64, Quality)> = None;
        while i > 0
            invariant
                i <= n == self.users@.len(),
                acc == spec_latest_quality_from(self.users@, i as int),
            decreases i,
        {
            i = i - 1;
            match self.users[i].1.quality {
                None => {},
                Some(q) => {
                    acc = match acc {
                        None => Some(q),
                        Some(r) => Some(
                            if q.0 > r.0 {
                                q
                            } else {
                                r
                            },
                        ),
                    };
                },
            }
        }
        match acc {
            Some(q) => q.1,
            None => Quality::Balanced,
        }
    }

    /// Register a capture display, resetting its record if it exists:
    /// afterwards the display has a zeroed record, and every other
    /// display's record is untouched.
    pub fn new_display(&mut self, display_id: u32)
        requires
            old(self).wf(),
        ensures
            final(self).wf(),
            *final(self) == (VideoQoS { displays: final(self).displays, ..*old(self) }),
            final(self).displays@.len() == (if exists|k: int|
                0 <= k < old(self).displays@.len() && (#[trigger] old(self).displays@[k]).0
                    == display_id {
                old(self).displays@.len() as int
            } else {
                old(self).displays@.len() as int + 1
            }),
            forall|k: int|
                0 <= k < old(self).displays@.len() && (#[trigger] old(self).displays@[k]).0
                    != display_id ==> final(self).displays@[k] == old(self).displays@[k],
            forall|k: int|
                0 <= k < final(self).displays@.len() && (#[trigger] final(self).displays@[k]).0
                    == display_id ==> final(self).displays@[k].1.send_counter == 0
                    && !final(self).displays@[k].1.support_changing_quality,
            exists|k: int|
                0 <= k < final(self).displays@.len() && (#[trigger] final(self).displays@[k]).0
                    == display_id,
    {
        let n = self.displays.len();
        let mut i: usize = 0;
        while i < n
            invariant
                i <= n == self.displays@.len(),
                old(self).wf(),
                *self == *old(self),
                forall|k: int| 0 <= k < i ==> (#[trigger] self.displays@[k]).0 != display_id,
            decreases n - i,
        {
            if self.displays[i].0 == display_id {
                self.displays[i] = (display_id, DisplayData::new());
                proof {
                    assert forall|k: int|
                        0 <= k < self.displays@.len() && (#[trigger] self.displays@[k]).0
                            == display_id implies self.displays@[k].1.send_counter == 0
                        && !self.displays@[k].1.support_changing_quality by {
                        if k != i {
                            assert(old(self).displays@[k].0 != old(self).displays@[i as int].0);
                        }
                    }
                    assert(self.displays@[i as int].0 == display_id);
                }
                return ;
            }
            i = i + 1;
        }
        self.displays.push((display_id, DisplayData::new()));
        proof {
            let n0 = old(self).displays@.len() as int;
            assert(self.displays@[n0].0 == display_id);
            assert forall|k: int|
                0 <= k < self.displays@.len() && (#[trigger] self.displays@[k]).0 == display_id
                    implies self.displays@[k].1.send_counter == 0
                && !self.displays@[k].1.support_changing_quality by {
                if k < n0 {
                    assert(old(self).displays@[k].0 != display_id);
                }
            }
        }
    }

    /// Remove a capture display's record; a display that was never
    /// registered leaves the state untouched.
    pub fn remove_display(&mut self, display_id: u32)
        requires
            old(self).wf(),
        ensures
            final(self).wf(),
            *final(self) == (VideoQoS { displays: final(self).displays, ..*old(self) }),
            (exists|i: int|
                0 <= i < old(self).displays@.len() && (#[trigger] old(self).displays@[i]).0
                    == display_id) ==> exists|i: int|
                0 <= i < old(self).displays@.len() && (#[trigger] old(self).displays@[i]).0
                    == display_id && final(self).displays@ == old(self).displays@.remove(i),
            (forall|i: int|
                0 <= i < old(self).displays@.len() ==> (#[trigger] old(self).displays@[i]).0
                    != display_id) ==> *final(self) == *old(self),
    {
        let n = self.displays.len();
        let mut i: usize = 0;
        while i < n
            invariant
                i <= n == self.displays@.len(),
                old(self).wf(),
                *self == *old(self),
                forall|k: int| 0 <= k < i ==> (#[trigger] self.displays@[k]).0 != display_id,
            decreases n - i,
        {
            if self.displays[i].0 == display_id {
                self.displays.remove(i);
                proof {
                    assert(0 <= i < old(self).displays@.len() && old(self).displays@[i as int].0
                        == display_id && self.displays@ == old(self).displays@.remove(i as int));
                    assert forall|a: int, b: int|
                        0 <= a < b < self.displays@.len() implies #[trigger] self.displays@[a].0
                        != #[trigger] self.displays@[b].0 by {
                        let olds = old(self).displays@;
                        if b < i {
                            assert(self.displays@[a] == olds[a] && self.displays@[b] == olds[b]);
                        } else if a < i <= b {
                            assert(self.displays@[a] == olds[a] && self.displays@[b] == olds[b
                                + 1]);
                        } else {
                            assert(self.displays@[a] == olds[a + 1] && self.displays@[b] == olds[b
                                + 1]);
                        }
                    }
                }
                return ;
            }
            i = i + 1;
        }
    }

    /// Record whether a display's encoder supports changing quality.
    pub fn set_support_changing_quality(&mut self, display_id: u32, support: bool)
        requires
            old(self).wf(),
        ensures
            final(self).wf(),
            final(self).users == old(self).users,
            final(self).fps == old(self).fps,
            final(self).ratio == old(self).ratio,
            final(self).displays@.len() == old(self).displays@.len(),
            forall|k: int|
                0 <= k < old(self).displays@.len() ==> {
                    let before = old(self).displays@[k];
                    let after = #[trigger] final(self).displays@[k];
                    &&& after.0 == before.0
                    &&& (before.0 != display_id ==> after == before)
                    &&& (before.0 == display_id ==> after.1.support_changing_quality == support
                        && after.1.send_counter == before.1.send_counter)
                },
    {
        let n = self.displays.len();
        let mut i: usize = 0;
        while i < n
            invariant
                i <= n == self.displays@.len(),
                old(self).wf(),
                *self == *old(self),
                forall|k: int| 0 <= k < i ==> (#[trigger] self.displays@[k]).0 != display_id,
            decreases n - i,
        {
            if self.displays[i].0 == display_id {
                let counter = self.displays[i].1.send_counter;
                self.displays[i] = (
                    display_id,
                    DisplayData { send_counter: counter, support_changing_quality: support },
                );
                return ;
            }
            i = i + 1;
        }
    }

    /// Register a connecting user and restart the new-user cap:
    /// afterwards the user has a fresh record, every other user's record
    /// is untouched, and adaptive bitrate is re-enabled.
    pub fn on_connection_open(&mut self, id: i32, now_ms: u64)
        requires
            old(self).wf(),
        ensures
            final(self).wf(),
            *final(self) == (VideoQoS {
                users: final(self).users,
                abr_config: true,
                new_user_ms: now_ms,
                ..*old(self)
            }),
            final(self).users@.len() == (if exists|k: int|
                0 <= k < old(self).users@.len() && (#[trigger] old(self).users@[k]).0 == id {
                old(self).users@.len() as int
            } else {
                old(self).users@.len() as int + 1
            }),
            forall|k: int|
                0 <= k < old(self).users@.len() && (#[trigger] old(self).users@[k]).0 != id
                    ==> final(self).users@[k] == old(self).users@[k],
            forall|k: int|
                0 <= k < final(self).users@.len() && (#[trigger] final(self).users@[k]).0 == id
                    ==> spec_fresh_user(final(self).users@[k].1),
            exists|k: int|
                0 <= k < final(self).users@.len() && (#[trigger] final(self).users@[k]).0 == id,
    {
        let n = self.users.len();
        let mut i: usize = 0;
        while i < n
            invariant
                i <= n == self.users@.len(),
                old(self).wf(),
                *self == *old(self),
                forall|k: int| 0 <= k < i ==> (#[trigger] self.users@[k]).0 != id,
            decreases n - i,
        {
            if self.users[i].0 == id {
                self.users[i] = (id, UserData::new());
                self.abr_config = true;
                self.new_user_ms = now_ms;
                proof {
                    assert forall|k: int|
                        0 <= k < self.users@.len() && (#[trigger] self.users@[k]).0 == id
                            implies spec_fresh_user(self.users@[k].1) by {
                        if k != i {
                            assert(old(self).users@[k].0 != old(self).users@[i as int].0);
                        }
                    }
                    assert(self.users@[i as int].0 == id);
                }
                return ;
            }
            i = i + 1;
        }
        self.users.push((id, UserData::new()));
        self.abr_config = true;
        self.new_user_ms = now_ms;
        proof {
            let n0 = old(self).users@.len() as int;
            assert(self.users@[n0].0 == id);
            assert forall|k: int|
                0 <= k < self.users@.len() && (#[trigger] self.users@[k]).0 == id
                    implies spec_fresh_user(self.users@[k].1) by {
                if k < n0 {
                    assert(old(self).users@[k].0 != id);
                }
            }
        }
    }

    /// Remove a disconnecting user; an unknown user changes nothing, and
    /// with no user left the controller resets to its initial state.
    pub fn on_connection_close(&mut self, id: i32)
        requires
            old(self).wf(),
        ensures
            final(self).wf(),
            (forall|i: int|
                0 <= i < old(self).users@.len() ==> (#[trigger] old(self).users@[i]).0 != id)
                ==> *final(self) == *old(self),
            (exists|i: int|
                0 <= i < old(self).users@.len() && (#[trigger] old(self).users@[i]).0 == id)
                && old(self).users@.len() > 1 ==> (*final(self) == (VideoQoS {
                users: final(self).users,
                ..*old(self)
            }) && exists|i: int|
                0 <= i < old(self).users@.len() && (#[trigger] old(self).users@[i]).0 == id
                    && final(self).users@ == old(self).users@.remove(i)),
            (exists|i: int|
                0 <= i < old(self).users@.len() && (#[trigger] old(self).users@[i]).0 == id)
                && old(self).users@.len() == 1 ==> final(self).fps == FPS && final(self).ratio
                == BR_BALANCED_MILLI && final(self).users@.len() == 0
                && final(self).displays@.len() == 0 && final(self).bitrate_store == 0
                && final(self).abr_config,
    {
        let n = self.users.len();
        let mut i: usize = 0;
        while i < n
            invariant
                i <= n == self.users@.len(),
                old(self).wf(),
                *self == *old(self),
                forall|k: int| 0 <= k < i ==> (#[trigger] self.users@[k]).0 != id,
            decreases n - i,
        {
            if self.users[i].0 == id {
                self.users.remove(i);
                proof {
                    assert(0 <= i < old(self).users@.len() && old(self).users@[i as int].0 == id
                        && self.users@ == old(self).users@.remove(i as int));
                    assert forall|a: int, b: int|
                        0 <= a < b < self.users@.len() implies #[trigger] self.users@[a].0
                        != #[trigger] self.users@[b].0 by {
                        let olds = old(self).users@;
                        if b < i {
                            assert(self.users@[a] == olds[a] && self.users@[b] == olds[b]);
                        } else if a < i <= b {
                            assert(self.users@[a] == olds[a] && self.users@[b] == olds[b + 1]);
                        } else {
                            assert(self.users@[a] == olds[a + 1] && self.users@[b] == olds[b + 1]);
                        }
                    }
                    assert forall|k: int| 0 <= k < self.users@.len() implies (#[trigger] self.users@[k].1).wf() by {
                        let olds = old(self).users@;
                        if k < i {
                            assert(self.users@[k] == olds[k]);
                        } else {
                            assert(self.users@[k] == olds[k + 1]);
                        }
                    }
                }
                if self.users.len() == 0 {
                    *self = VideoQoS::new(0);
                }
                return ;
            }
            i = i + 1;
        }
    }
}

// ---------------------------------------------------------------------------
// The FPS feedback loop
// ---------------------------------------------------------------------------
/// The FPS the delay table prescribes for one sample. Below 50 ms the FPS
/// steps up (by five on a quick bump); below 100 ms it steps up only while
/// the delay is falling; below 150 ms it holds; above that it is divided
/// down by the delay's excess over 150 ms, with the minimum FPS as a bound.
pub open spec fn spec_fps_for_delay(
    fps0: u32,
    min_fps: u32,
    normal_fps: u32,
    dividend_ms: u32,
    avg: u32,
    old_avg: u32,
    quick_bump: bool,
) -> int {
    if avg < 50 {
        let step: int = if quick_bump {
            5
        } else if fps0 < normal_fps {
            1
        } else {
            0
        };
        if min_fps >= fps0 + step {
            min_fps as int
        } else {
            fps0 + step
        }
    } else if avg < 100 {
        let step: int = if avg < old_avg && fps0 < normal_fps {
            1
        } else {
            0
        };
        if min_fps >= fps0 + step {
            min_fps as int
        } else {
            fps0 + step
        }
    } else if avg < DELAY_THRESHOLD_150MS {
        if min_fps >= fps0 {
            min_fps as int
        } else {
            fps0 as int
        }
    } else {
        let divided = (fps0 * DELAY_THRESHOLD_150MS + avg - 1) as int / avg as int;
        if avg < 200 {
            if min_fps >= divided {
                min_fps as int
            } else {
                divided
            }
        } else if avg < 300 {
            if min_fps <= divided {
                min_fps as int
            } else {
                divided
            }
        } else if avg < 600 {
            dividend_ms as int / avg as int
        } else {
            let by_dividend = dividend_ms as int / avg as int;
            if by_dividend <= divided {
                by_dividend
            } else {
                divided
            }
        }
    }
}

/// The FPS the delay table prescribes for one sample.
pub fn fps_for_delay(
    fps0: u32,
    min_fps: u32,
    normal_fps: u32,
    dividend_ms: u32,
    avg: u32,
    old_avg: u32,
    quick_bump: bool,
) -> (r: u32)
    requires
        fps0 <= MAX_FPS,
        min_fps <= 12,
        dividend_ms <= 1800,
        avg >= 10,
    ensures
        r == spec_fps_for_delay(fps0, min_fps, normal_fps, dividend_ms, avg, old_avg, quick_bump),
        r <= 2000,
{
    if avg < 50 {
        let step: u32 = if quick_bump {
            5
        } else if fps0 < normal_fps {
            1
        } else {
            0
        };
        let bumped = fps0 + step;
        if min_fps >= bumped {
            min_fps
        } else {
            bumped
        }
    } else if avg < 100 {
        let step: u32 = if avg < old_avg && fps0 < normal_fps {
            1
        } else {
            0
        };
        let bumped = fps0 + step;
        if min_fps >= bumped {
            min_fps
        } else {
            bumped
        }
    } else if avg < DELAY_THRESHOLD_150MS {
        if min_fps >= fps0 {
            min_fps
        } else {
            fps0
        }
    } else {
        proof {
            assert((fps0 as int) * (DELAY_THRESHOLD_150MS as int) <= 18000) by (nonlinear_arith)
                requires
                    fps0 <= 120,
                    DELAY_THRESHOLD_150MS == 150,
            ;
        }
        let divided64: u64 = ((fps0 as u64) * (DELAY_THRESHOLD_150MS as u64) + (avg as u64) - 1)
            / (avg as u64);
        proof {
            assert((fps0 * DELAY_THRESHOLD_150MS + avg - 1) as int / avg as int <= 2000)
                by (nonlinear_arith)
                requires
                    fps0 * DELAY_THRESHOLD_150MS <= 18000,
                    10 <= avg <= u32::MAX,
            ;
        }
        let divided: u32 = divided64 as u32;
        if avg < 200 {
            if min_fps >= divided {
                min_fps
            } else {
                divided
            }
        } else if avg < 300 {
            if min_fps <= divided {
                min_fps
            } else {
                divided
            }
        } else if avg < 600 {
            dividend_ms / avg
        } else {
            let by_dividend = dividend_ms / avg;
            if by_dividend <= divided {
                by_dividend
            } else {
                divided
            }
        }
    }
}

impl VideoQoS {
    /// Recompute the FPS from every user's candidate: the minimum of the
    /// candidates, lowered to one above the minimum while a user reports
    /// response delays, capped at the initial FPS within one second of a
    /// new connection, and clamped into the band the users allow.
    fn adjust_fps(&mut self, now_ms: u64)
        requires
            old(self).wf(),
        ensures
            final(self).wf(),
            *final(self) == (VideoQoS { fps: final(self).fps, ..*old(self) }),
            final(self).fps == spec_aggregate_fps(
                old(self).users@,
                (now_ms as int) < old(self).new_user_ms + 1000,
            ),
            MIN_FPS <= final(self).fps <= spec_highest_fps(final(self).users@),
    {
        let highest_fps = self.highest_fps();

        let n = self.users.len();
        let mut i = n;
        let mut acc: Option<u32> = None;
        while i > 0
            invariant
                i <= n == self.users@.len(),
                acc == spec_min_candidate_fps_from(self.users@, i as int),
            decreases i,
        {
            i = i - 1;
            let f = match self.users[i].1.delay.fps {
                Some(v) => v,
                None => INIT_FPS,
            };
            acc = match acc {
                Some(m) => Some(
                    if f < m {
                        f
                    } else {
                        m
                    },
                ),
                None => Some(f),
            };
        }
        let mut fps = match acc {
            Some(v) => v,
            None => INIT_FPS,
        };

        let mut delayed = false;
        let mut j: usize = 0;
        while j < n
            invariant
                j <= n == self.users@.len(),
                delayed == exists|k: int|
                    0 <= k < j && (#[trigger] self.users@[k]).1.delay.response_delayed,
            decreases n - j,
        {
            if self.users[j].1.delay.response_delayed {
                delayed = true;
            }
            j = j + 1;
        }
        if delayed {
            if fps > MIN_FPS + 1 {
                fps = MIN_FPS + 1;
            }
        }

        if now_ms < self.new_user_ms || now_ms - self.new_user_ms < 1000 {
            if fps > INIT_FPS {
                fps = INIT_FPS;
            }
        }

        let highest = highest_fps;
        self.fps = if fps < MIN_FPS {
            MIN_FPS
        } else if fps > highest {
            highest
        } else {
            fps
        };
    }
}

// ---------------------------------------------------------------------------
// The bitrate-ratio feedback loop
// ---------------------------------------------------------------------------
/// A display's send counter after one report: the count is added,
/// saturating, to the reporting display and left alone elsewhere.
pub open spec fn spec_counter_after(
    pre: Seq<(u32, DisplayData)>,
    display_id: u32,
    send_counter: u64,
    k: int,
) -> u64 {
    let c = pre[k].1.send_counter;
    if pre[k].0 == display_id {
        if c > u64::MAX - send_counter {
            u64::MAX
        } else {
            (c + send_counter) as u64
        }
    } else {
        c
    }
}

/// Whether any display's accumulated counter marks the screen dynamic.
pub open spec fn spec_dynamic_screen(
    pre: Seq<(u32, DisplayData)>,
    display_id: u32,
    send_counter: u64,
) -> bool {
    exists|k: int|
        0 <= k < pre.len() && #[trigger] spec_counter_after(pre, display_id, send_counter, k)
            >= ADJUST_RATIO_INTERVAL * DYNAMIC_SCREEN_THRESHOLD
}

/// Whether the ratio-adjustment interval has elapsed at `now_ms`.
pub open spec fn spec_ratio_interval_elapsed(pre: VideoQoS, now_ms: u64) -> bool {
    now_ms >= pre.adjust_ratio_ms && now_ms - pre.adjust_ratio_ms >= ADJUST_RATIO_INTERVAL * 1000
}

/// Two controller states with the same adaptive-bitrate switch and the
/// same per-display support flags are in VBR state together.
proof fn lemma_vbr_same(a: VideoQoS, b: VideoQoS)
    requires
        a.abr_config == b.abr_config,
        a.displays@.len() == b.displays@.len(),
        forall|k: int|
            0 <= k < a.displays@.len() ==> (#[trigger] a.displays@[k]).1.support_changing_quality
                == b.displays@[k].1.support_changing_quality,
    ensures
        a.spec_in_vbr_state() == b.spec_in_vbr_state(),
{
    if a.spec_in_vbr_state() {
        assert forall|k: int|
            0 <= k < b.displays@.len() implies (#[trigger] b.displays@[k].1).support_changing_quality by {
            assert((a.displays@[k].1).support_changing_quality);
            assert((a.displays@[k]).1.support_changing_quality
                == (b.displays@[k]).1.support_changing_quality);
        }
    }
    if b.spec_in_vbr_state() {
        assert forall|k: int|
            0 <= k < a.displays@.len() implies (#[trigger] a.displays@[k].1).support_changing_quality by {
            assert((b.displays@[k].1).support_changing_quality);
            assert((a.displays@[k]).1.support_changing_quality
                == (b.displays@[k]).1.support_changing_quality);
        }
    }
}

/// The ratio equivalent to one megabit per second at the current bitrate,
/// floored at the high-resolution minimum; defined while the bitrate is
/// known.
pub open spec fn spec_ratio_1mbps(current: u32, bitrate: u32) -> Option<int> {
    if bitrate > 0 {
        let r = current * 1000 / bitrate as int;
        Some(
            if r < BR_MIN_HIGH_RESOLUTION_MILLI {
                BR_MIN_HIGH_RESOLUTION_MILLI as int
            } else {
                r
            },
        )
    } else {
        None
    }
}

/// The ratio that would raise the current bitrate by 150 kbps; defined
/// while the bitrate is known.
pub open spec fn spec_ratio_add_150kbps(current: u32, bitrate: u32) -> Option<int> {
    if bitrate > 0 {
        Some((bitrate + 150) * current / bitrate as int)
    } else {
        None
    }
}

/// The lower clamp of the ratio band for a target quality.
pub open spec fn spec_band_min(target: Quality, current: u32, bitrate: u32) -> int {
    match target {
        Quality::Best => {
            let base = (BR_BEST_MILLI * 2 / 5) as int;
            let m = match spec_ratio_1mbps(current, bitrate) {
                Some(r) => if base > r {
                    r
                } else {
                    base
                },
                None => base,
            };
            if m < BR_MIN_MILLI {
                BR_MIN_MILLI as int
            } else {
                m
            }
        },
        Quality::Balanced => {
            let base = (BR_BALANCED_MILLI / 2) as int;
            let capped = if base > 400 {
                400
            } else {
                base
            };
            let m = match spec_ratio_1mbps(current, bitrate) {
                Some(r) => if capped > r {
                    r
                } else {
                    capped
                },
                None => capped,
            };
            if m < BR_MIN_HIGH_RESOLUTION_MILLI {
                BR_MIN_HIGH_RESOLUTION_MILLI as int
            } else {
                m
            }
        },
        _ => BR_MIN_HIGH_RESOLUTION_MILLI as int,
    }
}

/// The multiplicative delta of the ratio table: growth on low delay only
/// while the screen is dynamic, shrink on high delay always.
pub open spec fn spec_ratio_proposal(current: u32, max_delay: u32, dynamic: bool) -> int {
    if max_delay < 50 {
        if dynamic {
            current * 1150 / 1000
        } else {
            current as int
        }
    } else if max_delay < 100 {
        if dynamic {
            current * 1100 / 1000
        } else {
            current as int
        }
    } else if max_delay < DELAY_THRESHOLD_150MS {
        if dynamic {
            current * 1050 / 1000
        } else {
            current as int
        }
    } else if max_delay < 200 {
        current * 950 / 1000
    } else if max_delay < 300 {
        current * 900 / 1000
    } else if max_delay < 500 {
        current * 850 / 1000
    } else {
        current * 800 / 1000
    }
}

/// The adjusted ratio: the proposal of the delta table, held back to the
/// 150 kbps growth ceiling when it would outrun it, then clamped into the
/// band of the target quality.
pub open spec fn spec_adjusted_ratio(
    target: Quality,
    current: u32,
    bitrate: u32,
    max_delay: u32,
    dynamic: bool,
) -> int {
    let v0 = spec_ratio_proposal(current, max_delay, dynamic);
    let v = match spec_ratio_add_150kbps(current, bitrate) {
        Some(ceiling) => if v0 > ceiling && ceiling > current && current >= BR_SPEED_MILLI {
            ceiling
        } else {
            v0
        },
        None => v0,
    };
    let lo = spec_band_min(target, current, bitrate);
    let hi = target.spec_ratio_milli() as int;
    if v < lo {
        lo
    } else if v > hi {
        hi
    } else {
        v
    }
}

impl VideoQoS {
    /// The index of a user's record, if the user is known.
    fn find_user(&self, id: i32) -> (r: Option<usize>)
        ensures
            match r {
                Some(i) => i < self.users@.len() && self.users@[i as int].0 == id,
                None => forall|k: int| 0 <= k < self.users@.len() ==> (#[trigger] self.users@[k]).0 != id,
            },
    {
        let n = self.users.len();
        let mut i: usize = 0;
        while i < n
            invariant
                i <= n == self.users@.len(),
                forall|k: int| 0 <= k < i ==> (#[trigger] self.users@[k]).0 != id,
            decreases n - i,
        {
            if self.users[i].0 == id {
                return Some(i);
            }
            i = i + 1;
        }
        None
    }

    /// The index of a display's record, if the display is known.
    fn find_display(&self, display_id: u32) -> (r: Option<usize>)
        ensures
            match r {
                Some(i) => i < self.displays@.len() && self.displays@[i as int].0 == display_id,
                None => forall|k: int|
                    0 <= k < self.displays@.len() ==> (#[trigger] self.displays@[k]).0 != display_id,
            },
    {
        let n = self.displays.len();
        let mut i: usize = 0;
        while i < n
            invariant
                i <= n == self.displays@.len(),
                forall|k: int| 0 <= k < i ==> (#[trigger] self.displays@[k]).0 != display_id,
            decreases n - i,
        {
            if self.displays[i].0 == display_id {
                return Some(i);
            }
            i = i + 1;
        }
        None
    }

    /// One run of the bitrate-ratio loop: while in VBR state and at least
    /// one user is connected, move the ratio by the delta table over the
    /// largest user delay and clamp it into the target quality's band.
    fn adjust_ratio(&mut self, dynamic_screen: bool, now_ms: u64)
        requires
            old(self).wf(),
        ensures
            final(self).wf(),
            *final(self) == (VideoQoS {
                ratio: final(self).ratio,
                adjust_ratio_ms: final(self).adjust_ratio_ms,
                ..*old(self)
            }),
            !(old(self).spec_in_vbr_state() && old(self).users@.len() > 0) ==> *final(self) == *old(
                self,
            ),
            old(self).spec_in_vbr_state() && old(self).users@.len() > 0 ==> {
                &&& final(self).ratio == spec_adjusted_ratio(
                    spec_latest_quality(old(self).users@),
                    old(self).ratio,
                    old(self).bitrate_store,
                    match spec_max_avg_delay_from(old(self).users@, 0) {
                        Some(d) => d,
                        None => 0,
                    },
                    dynamic_screen,
                )
                &&& final(self).adjust_ratio_ms == now_ms
            },
    {
        if !self.in_vbr_state() {
            return ;
        }
        let n = self.users.len();
        if n == 0 {
            return ;
        }

        let mut i = n;
        let mut max_acc: Option<u32> = None;
        while i > 0
            invariant
                i <= n == self.users@.len(),
                self.wf(),
                max_acc == spec_max_avg_delay_from(self.users@, i as int),
            decreases i,
        {
            i = i - 1;
            proof {
                assert(self.users@[i as int].1.wf());
            }
            let d = self.users[i].1.delay.avg_delay();
            max_acc = match max_acc {
                Some(m) => Some(
                    if d > m {
                        d
                    } else {
                        m
                    },
                ),
                None => Some(d),
            };
        }
        let max_delay = match max_acc {
            Some(d) => d,
            None => 0,
        };

        let target_quality = self.latest_quality();
        let target_ratio = target_quality.ratio_milli();
        let current_ratio = self.ratio;
        let current_bitrate = self.bitrate();

        proof {
            lemma_latest_quality_ok(self.users@, 0);
            lemma_quality_ok_ratio(target_quality);
        }

        let ratio_1mbps: Option<u32> = if current_bitrate > 0 {
            proof {
                assert((current_ratio as int) * 1000 / (current_bitrate as int) <= 4000000)
                    by (nonlinear_arith)
                    requires
                        current_ratio <= 4000,
                        current_bitrate >= 1,
                ;
            }
            let r64: u64 = (current_ratio as u64) * 1000 / (current_bitrate as u64);
            let r = r64 as u32;
            Some(
                if r < BR_MIN_HIGH_RESOLUTION_MILLI {
                    BR_MIN_HIGH_RESOLUTION_MILLI
                } else {
                    r
                },
            )
        } else {
            None
        };

        let ratio_add_150kbps: Option<u32> = if current_bitrate > 0 {
            proof {
                assert(((current_bitrate as int) + 150) * (current_ratio as int) / (
                current_bitrate as int) <= 604000 && ((current_bitrate as int) + 150) * (
                current_ratio as int) <= 0x4000_0000_0000_0000) by (nonlinear_arith)
                    requires
                        current_ratio <= 4000,
                        1 <= current_bitrate <= u32::MAX,
                ;
            }
            let r64: u64 = ((current_bitrate as u64) + 150) * (current_ratio as u64) / (
            current_bitrate as u64);
            Some(r64 as u32)
        } else {
            None
        };

        let min: u32 = match target_quality {
            Quality::Best => {
                let mut m = BR_BEST_MILLI * 2 / 5;
                if let Some(r) = ratio_1mbps {
                    if m > r {
                        m = r;
                    }
                }
                if m < BR_MIN_MILLI {
                    BR_MIN_MILLI
                } else {
                    m
                }
            },
            Quality::Balanced => {
                let base = BR_BALANCED_MILLI / 2;
                let mut m = if base > 400 {
                    400
                } else {
                    base
                };
                if let Some(r) = ratio_1mbps {
                    if m > r {
                        m = r;
                    }
                }
                if m < BR_MIN_HIGH_RESOLUTION_MILLI {
                    BR_MIN_HIGH_RESOLUTION_MILLI
                } else {
                    m
                }
            },
            _ => BR_MIN_HIGH_RESOLUTION_MILLI,
        };
        let max: u32 = target_ratio;

        let factor: u32 = if max_delay < 50 {
            if dynamic_screen {
                1150
            } else {
                1000
            }
        } else if max_delay < 100 {
            if dynamic_screen {
                1100
            } else {
                1000
            }
        } else if max_delay < DELAY_THRESHOLD_150MS {
            if dynamic_screen {
                1050
            } else {
                1000
            }
        } else if max_delay < 200 {
            950
        } else if max_delay < 300 {
            900
        } else if max_delay < 500 {
            850
        } else {
            800
        };
        proof {
            assert((current_ratio as int) * (factor as int) / 1000 <= 4600 && (
            current_ratio as int) * (factor as int) <= 4600000) by (nonlinear_arith)
                requires
                    current_ratio <= 4000,
                    factor <= 1150,
            ;
        }
        let v64: u64 = (current_ratio as u64) * (factor as u64) / 1000;
        let mut v: u32 = v64 as u32;

        if let Some(ceiling) = ratio_add_150kbps {
            if v > ceiling && ceiling > current_ratio && current_ratio >= BR_SPEED_MILLI {
                v = ceiling;
            }
        }

        self.ratio = if v < min {
            min
        } else if v > max {
            max
        } else {
            v
        };
        self.adjust_ratio_ms = now_ms;
    }

    /// Record the frames a display sent in the last second and run the
    /// feedback loops. The report is added to the display's counter; the
    /// FPS loop runs on every call; while in VBR state and once the
    /// three-second interval has elapsed, the counters are cleared and
    /// the ratio moves by the delta table; outside VBR state the ratio
    /// tracks the target quality exactly.
    pub fn update_display_data(&mut self, display_id: u32, send_counter: u64, now_ms: u64)
        requires
            old(self).wf(),
        ensures
            final(self).wf(),
            *final(self) == (VideoQoS {
                fps: final(self).fps,
                ratio: final(self).ratio,
                displays: final(self).displays,
                adjust_ratio_ms: final(self).adjust_ratio_ms,
                ..*old(self)
            }),
            final(self).fps == spec_aggregate_fps(
                old(self).users@,
                (now_ms as int) < old(self).new_user_ms + 1000,
            ),
            final(self).displays@.len() == old(self).displays@.len(),
            forall|k: int|
                0 <= k < old(self).displays@.len() ==> (#[trigger] final(self).displays@[k]).0
                    == old(self).displays@[k].0 && final(self).displays@[k].1.support_changing_quality
                    == old(self).displays@[k].1.support_changing_quality,
            ({
                let ran = old(self).spec_in_vbr_state() && spec_ratio_interval_elapsed(
                    *old(self),
                    now_ms,
                );
                &&& (ran ==> forall|k: int|
                    0 <= k < final(self).displays@.len()
                        ==> (#[trigger] final(self).displays@[k]).1.send_counter == 0)
                &&& (!ran ==> forall|k: int|
                    0 <= k < final(self).displays@.len()
                        ==> (#[trigger] final(self).displays@[k]).1.send_counter
                        == spec_counter_after(
                        old(self).displays@,
                        display_id,
                        send_counter,
                        k,
                    ))
                &&& (ran && old(self).users@.len() > 0 ==> final(self).ratio
                    == spec_adjusted_ratio(
                    spec_latest_quality(old(self).users@),
                    old(self).ratio,
                    old(self).bitrate_store,
                    match spec_max_avg_delay_from(old(self).users@, 0) {
                        Some(d) => d,
                        None => 0u32,
                    },
                    spec_dynamic_screen(old(self).displays@, display_id, send_counter),
                ) && final(self).adjust_ratio_ms == now_ms)
                &&& (ran && old(self).users@.len() == 0 ==> final(self).ratio == old(self).ratio
                    && final(self).adjust_ratio_ms == old(self).adjust_ratio_ms)
                &&& (!ran && old(self).spec_in_vbr_state() ==> final(self).ratio
                    == old(self).ratio && final(self).adjust_ratio_ms == old(
                    self,
                ).adjust_ratio_ms)
                &&& (!old(self).spec_in_vbr_state() ==> final(self).ratio == spec_latest_quality(
                    old(self).users@,
                ).spec_ratio_milli() && final(self).adjust_ratio_ms == old(self).adjust_ratio_ms)
            }),
    {
        if let Some(i) = self.find_display(display_id) {
            let d = &self.displays[i].1;
            let support = d.support_changing_quality;
            let counter = d.send_counter;
            let added = if counter > u64::MAX - send_counter {
                u64::MAX
            } else {
                counter + send_counter
            };
            self.displays[i] = (
                display_id,
                DisplayData { send_counter: added, support_changing_quality: support },
            );
            proof {
                assert forall|a: int, b: int|
                    0 <= a < b < self.displays@.len() implies #[trigger] self.displays@[a].0
                    != #[trigger] self.displays@[b].0 by {
                    assert(old(self).displays@[a].0 != old(self).displays@[b].0);
                }
                assert forall|k: int|
                    0 <= k < self.displays@.len() implies (#[trigger] self.displays@[k]).1.send_counter
                    == spec_counter_after(old(self).displays@, display_id, send_counter, k) by {
                    if k != i {
                        assert(old(self).displays@[k].0 != old(self).displays@[i as int].0);
                    }
                }
            }
        } else {
            proof {
                assert forall|k: int|
                    0 <= k < self.displays@.len() implies (#[trigger] self.displays@[k]).1.send_counter
                    == spec_counter_after(old(self).displays@, display_id, send_counter, k) by {
                    assert(old(self).displays@[k].0 != display_id);
                }
            }
        }

        proof {
            lemma_vbr_same(*self, *old(self));
            assert(self.users@ == old(self).users@);
        }
        self.adjust_fps(now_ms);

        let abr_enabled = self.in_vbr_state();
        proof {
            lemma_vbr_same(*self, *old(self));
        }
        if abr_enabled {
            if now_ms >= self.adjust_ratio_ms && now_ms - self.adjust_ratio_ms
                >= ADJUST_RATIO_INTERVAL * 1000 {
                let m = self.displays.len();
                let mut dynamic_screen = false;
                let mut j: usize = 0;
                while j < m
                    invariant
                        j <= m == self.displays@.len(),
                        self.wf(),
                        forall|k: int|
                            0 <= k < self.displays@.len() ==> (#[trigger] self.displays@[k]).1.send_counter
                                == spec_counter_after(
                                old(self).displays@,
                                display_id,
                                send_counter,
                                k,
                            ),
                        dynamic_screen == exists|k: int|
                            0 <= k < j && #[trigger] spec_counter_after(
                                old(self).displays@,
                                display_id,
                                send_counter,
                                k,
                            ) >= ADJUST_RATIO_INTERVAL * DYNAMIC_SCREEN_THRESHOLD,
                    decreases m - j,
                {
                    if self.displays[j].1.send_counter >= ADJUST_RATIO_INTERVAL
                        * DYNAMIC_SCREEN_THRESHOLD {
                        dynamic_screen = true;
                        proof {
                            assert(spec_counter_after(
                                old(self).displays@,
                                display_id,
                                send_counter,
                                j as int,
                            ) >= ADJUST_RATIO_INTERVAL * DYNAMIC_SCREEN_THRESHOLD);
                        }
                    }
                    j = j + 1;
                }
                let ghost mid = *self;
                let mut k: usize = 0;
                while k < m
                    invariant
                        k <= m == self.displays@.len(),
                        self.wf(),
                        self.displays@.len() == mid.displays@.len(),
                        *self == (VideoQoS { displays: self.displays, ..mid }),
                        forall|t: int|
                            0 <= t < k ==> (#[trigger] self.displays@[t]).1.send_counter == 0,
                        forall|t: int|
                            k <= t < m ==> #[trigger] self.displays@[t] == mid.displays@[t],
                        forall|t: int|
                            0 <= t < m ==> (#[trigger] self.displays@[t]).0 == mid.displays@[t].0
                                && self.displays@[t].1.support_changing_quality
                                == mid.displays@[t].1.support_changing_quality,
                    decreases m - k,
                {
                    let key = self.displays[k].0;
                    let support = self.displays[k].1.support_changing_quality;
                    self.displays[k] = (
                        key,
                        DisplayData { send_counter: 0, support_changing_quality: support },
                    );
                    k = k + 1;
                }
                proof {
                    lemma_vbr_same(*self, *old(self));
                }
                self.adjust_ratio(dynamic_screen, now_ms);
            }
        } else {
            let q = self.latest_quality();
            proof {
                lemma_latest_quality_ok(self.users@, 0);
                lemma_quality_ok_ratio(q);
            }
            self.ratio = q.ratio_milli();
        }
    }

}

/// The per-user record after one delay sample: the clamped sample enters
/// the short history and the RTT window, the candidate FPS becomes the
/// delay table's output (with the slow-bump step) clamped into the band
/// the users allow, and the bump counters advance; everything else about
/// the user is untouched. `pre` is the controller state the sample
/// arrived in.
pub open spec fn spec_user_after_sample(
    pre: VideoQoS,
    u_old: UserData,
    u_new: UserData,
    delay: u32,
) -> bool {
    let cd: u32 = if delay < 10 {
        10u32
    } else {
        delay
    };
    let d_old = u_old.delay;
    let d_new = u_new.delay;
    let old_avg = spec_avg_delay(d_old);
    let samples_new = spec_new_samples(d_old.rtt_calculator.samples@, cd);
    let min_new = spec_new_min(d_old.rtt_calculator.min_rtt, cd);
    let avg0 = spec_avg_delay(d_new);
    let avg: u32 = if avg0 < 10 {
        10u32
    } else {
        avg0
    };
    let target = spec_latest_quality(pre.users@).spec_ratio_milli();
    let min_fps: u32 = if target >= BR_BEST_MILLI {
        8u32
    } else if target >= BR_BALANCED_MILLI {
        10u32
    } else {
        12u32
    };
    let normal_fps: u32 = if target >= BR_BEST_MILLI {
        16u32
    } else if target >= BR_BALANCED_MILLI {
        20u32
    } else {
        24u32
    };
    let dividend: u32 = (DELAY_THRESHOLD_150MS * min_fps) as u32;
    let bump = avg < 50 && d_old.quick_increase_fps_count >= 2;
    let table = spec_fps_for_delay(pre.fps, min_fps, normal_fps, dividend, avg, old_avg, bump);
    let stepped: int = if avg < DELAY_THRESHOLD_150MS && d_old.increase_fps_count >= 2 {
        table + 1
    } else {
        table
    };
    let highest = spec_highest_fps(pre.users@);
    let stored: int = if stepped < MIN_FPS {
        MIN_FPS as int
    } else if stepped > highest {
        highest as int
    } else {
        stepped
    };
    &&& d_new.delay_history@ == (if d_old.delay_history@.len() > HISTORY_DELAY_LEN {
        d_old.delay_history@.drop_first().push(cd)
    } else {
        d_old.delay_history@.push(cd)
    })
    &&& d_new.rtt_calculator.samples@ == samples_new
    &&& d_new.rtt_calculator.min_rtt == Some(min_new)
    &&& d_new.rtt_calculator.window_min_rtt == Some(seq_min_u32(samples_new))
    &&& d_new.rtt_calculator.smoothed_rtt == (if samples_new.len() >= RTT_WINDOW_SAMPLES {
        Some((((min_new as int) + (seq_min_u32(samples_new) as int)) / 2) as u32)
    } else {
        d_old.rtt_calculator.smoothed_rtt
    })
    &&& d_new.fps == Some(stored as u32)
    &&& d_new.quick_increase_fps_count == (if avg < 50 {
        if d_old.quick_increase_fps_count >= 2 {
            0int
        } else {
            d_old.quick_increase_fps_count + 1
        }
    } else if avg > 50 {
        0int
    } else {
        d_old.quick_increase_fps_count as int
    })
    &&& d_new.increase_fps_count == (if avg < DELAY_THRESHOLD_150MS {
        if d_old.increase_fps_count >= 2 {
            0int
        } else {
            d_old.increase_fps_count + 1
        }
    } else {
        0int
    })
    &&& d_new.response_delayed == d_old.response_delayed
    &&& u_new.auto_adjust_fps == u_old.auto_adjust_fps
    &&& u_new.custom_fps == u_old.custom_fps
    &&& u_new.quality == u_old.quality
    &&& u_new.record == u_old.record
}

/// How the controller reacts to one delay sample: the named user's
/// record advances per the delay table, other users are untouched, the
/// controller FPS becomes the aggregate over the updated users, and on
/// the user's first sample the ratio loop runs at once (with the screen
/// treated as static).
pub open spec fn spec_user_sample_reaction(
    pre: VideoQoS,
    post: VideoQoS,
    id: i32,
    delay: u32,
    now_ms: u64,
) -> bool {
    let first_sample = exists|i: int|
        0 <= i < pre.users@.len() && (#[trigger] pre.users@[i]).0 == id
            && pre.users@[i].1.delay.fps is None;
    let recent = (now_ms as int) < pre.new_user_ms + 1000;
    &&& post.users@.len() == pre.users@.len()
    &&& forall|k: int|
        0 <= k < pre.users@.len() && (#[trigger] pre.users@[k]).0 != id ==> post.users@[k]
            == pre.users@[k]
    &&& forall|k: int|
        0 <= k < pre.users@.len() && (#[trigger] pre.users@[k]).0 == id ==> post.users@[k].0
            == id && spec_user_after_sample(pre, pre.users@[k].1, post.users@[k].1, delay)
    &&& post.fps == spec_aggregate_fps(post.users@, recent)
    &&& post.displays@ == pre.displays@
    &&& post.bitrate_store == pre.bitrate_store
    &&& post.abr_config == pre.abr_config
    &&& post.new_user_ms == pre.new_user_ms
    &&& (!first_sample ==> post.ratio == pre.ratio && post.adjust_ratio_ms
        == pre.adjust_ratio_ms)
    &&& (first_sample && pre.spec_in_vbr_state() && pre.users@.len() > 0 ==> post.ratio
        == spec_adjusted_ratio(
        spec_latest_quality(post.users@),
        pre.ratio,
        pre.bitrate_store,
        match spec_max_avg_delay_from(post.users@, 0) {
            Some(d) => d,
            None => 0u32,
        },
        false,
    ) && post.adjust_ratio_ms == now_ms)
    &&& (first_sample && !(pre.spec_in_vbr_state() && pre.users@.len() > 0) ==> post.ratio
        == pre.ratio && post.adjust_ratio_ms == pre.adjust_ratio_ms)
}

impl VideoQoS {
    /// Feed one delay sample from a user: the user's history and candidate
    /// FPS are updated by the delay table, and the controller FPS is
    /// recomputed; the ratio loop runs at once for the user's first
    /// sample. The FPS stays within the band the users allow.
    pub fn user_network_delay(&mut self, id: i32, delay: u32, now_ms: u64)
        requires
            old(self).wf(),
        ensures
            final(self).wf(),
            MIN_FPS <= final(self).fps <= spec_highest_fps(final(self).users@),
            spec_user_sample_reaction(*old(self), *final(self), id, delay, now_ms),
    {
        let highest_fps = self.highest_fps();
        let target_ratio = self.latest_quality().ratio_milli();

        let (min_fps, normal_fps): (u32, u32) = if target_ratio >= BR_BEST_MILLI {
            (8, 16)
        } else if target_ratio >= BR_BALANCED_MILLI {
            (10, 20)
        } else {
            (12, 24)
        };
        let dividend_ms = DELAY_THRESHOLD_150MS * min_fps;
        let fps0 = self.fps;

        let found = self.find_user(id);

        let mut adjust_ratio_flag = false;
        if let Some(idx) = found {
            proof {
                assert(self.users@[idx as int].1.wf());
            }
            let delay_clamped = if delay < 10 {
                10
            } else {
                delay
            };
            let user = &mut self.users[idx];
            let old_avg_delay = user.1.delay.avg_delay();
            user.1.delay.add_delay(delay_clamped);
            let avg0 = user.1.delay.avg_delay();
            let avg = if avg0 < 10 {
                10
            } else {
                avg0
            };

            let mut quick_bump = false;
            if avg < 50 {
                if user.1.delay.quick_increase_fps_count >= 2 {
                    user.1.delay.quick_increase_fps_count = 0;
                    quick_bump = true;
                } else {
                    user.1.delay.quick_increase_fps_count = user.1.delay.quick_increase_fps_count
                        + 1;
                }
            }

            let mut fps = fps_for_delay(
                fps0,
                min_fps,
                normal_fps,
                dividend_ms,
                avg,
                old_avg_delay,
                quick_bump,
            );

            if avg < DELAY_THRESHOLD_150MS {
                if user.1.delay.increase_fps_count >= 2 {
                    user.1.delay.increase_fps_count = 0;
                    fps = fps + 1;
                } else {
                    user.1.delay.increase_fps_count = user.1.delay.increase_fps_count + 1;
                }
            } else {
                user.1.delay.increase_fps_count = 0;
            }

            if avg > 50 {
                user.1.delay.quick_increase_fps_count = 0;
            }

            let clamped = if fps < MIN_FPS {
                MIN_FPS
            } else if fps > highest_fps {
                highest_fps
            } else {
                fps
            };

            adjust_ratio_flag = match user.1.delay.fps {
                None => true,
                Some(_) => false,
            };
            user.1.delay.fps = Some(clamped);

            proof {
                assert forall|a: int, b: int|
                    0 <= a < b < self.users@.len() implies #[trigger] self.users@[a].0
                    != #[trigger] self.users@[b].0 by {
                    assert(old(self).users@[a].0 != old(self).users@[b].0);
                }
                assert forall|k: int| 0 <= k < self.users@.len() implies (#[trigger] self.users@[k].1).wf() by {
                    if k != idx {
                        assert(self.users@[k] == old(self).users@[k]);
                        assert(old(self).users@[k].1.wf());
                    }
                }
                let u_old = old(self).users@[idx as int].1;
                let u_new = self.users@[idx as int].1;
                assert(spec_avg_delay(u_new.delay) == avg0);
                assert(spec_avg_delay(u_old.delay) == old_avg_delay);
                assert(u_new.delay.delay_history@ == (if u_old.delay.delay_history@.len()
                    > HISTORY_DELAY_LEN {
                    u_old.delay.delay_history@.drop_first().push(delay_clamped)
                } else {
                    u_old.delay.delay_history@.push(delay_clamped)
                }));
                assert(u_new.delay.rtt_calculator.samples@ == spec_new_samples(
                    u_old.delay.rtt_calculator.samples@,
                    delay_clamped,
                ));
                assert(u_new.delay.rtt_calculator.min_rtt == Some(spec_new_min(
                    u_old.delay.rtt_calculator.min_rtt,
                    delay_clamped,
                )));
                assert(u_new.quality == u_old.quality && u_new.record == u_old.record);
                assert(u_new.delay.fps == Some(clamped));
                assert(spec_user_after_sample(*old(self), u_old, u_new, delay));
            }
        }

        self.adjust_fps(now_ms);
        proof {
            lemma_vbr_same(*self, *old(self));
        }
        if adjust_ratio_flag {
            self.adjust_ratio(false, now_ms);
        }
        proof {
            let pre = *old(self);
            match found {
                Some(idx) => {
                    assert forall|k: int|
                        0 <= k < pre.users@.len() && (#[trigger] pre.users@[k]).0 == id
                            implies self.users@[k].0 == id && spec_user_after_sample(
                        pre,
                        pre.users@[k].1,
                        self.users@[k].1,
                        delay,
                    ) by {
                        if k != idx {
                            assert(pre.users@[k].0 != pre.users@[idx as int].0);
                        }
                    }
                    if adjust_ratio_flag {
                        assert(pre.users@[idx as int].0 == id
                            && pre.users@[idx as int].1.delay.fps is None);
                    } else {
                        assert forall|i: int|
                            0 <= i < pre.users@.len() && (#[trigger] pre.users@[i]).0 == id
                                implies !(pre.users@[i].1.delay.fps is None) by {
                            if i != idx {
                                assert(pre.users@[i].0 != pre.users@[idx as int].0);
                            }
                        }
                    }
                },
                None => {
                    assert(!adjust_ratio_flag);
                },
            }
        }
    }
}

/// Every well-formed controller state keeps its FPS between one and the
/// highest allowed value (at most 120) and its bitrate ratio between the
/// 0.1 floor and the 4.0 cap, in milli-units.
pub proof fn lemma_qos_state_bounds(q: VideoQoS)
    requires
        q.wf(),
    ensures
        MIN_FPS <= q.fps <= MAX_FPS,
        BR_MIN_HIGH_RESOLUTION_MILLI <= q.ratio <= BR_TOP_MILLI,
{
}

} // verus!
