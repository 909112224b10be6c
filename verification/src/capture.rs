//! The capture-loop state: the fallback machine between desktop
//! duplication and GDI capture, the producer's frame emission with
//! strictly increasing timestamps, and the loop's small scheduling
//! decisions.

use vstd::prelude::*;

verus! {

/// Consecutive capture errors tolerated before the backend is rebuilt in
/// GDI mode.
pub const MAX_DXGI_FAIL_TIME: u32 = 5;

/// Capacity of the bounded frame channel between the capture thread and
/// the bridger.
pub const FRAME_CHANNEL_SIZE: usize = 30;

/// Consecutive would-block results after which short sleeps are
/// inserted.
pub const WOULD_BLOCK_SLEEP_THRESHOLD: u32 = 50;

/// Consecutive socket-send failures after which the sender task stops.
pub const MAX_SEND_ERRORS: u32 = 50;

/// One encoded frame on its way from the capture thread to the bridger.
pub struct FrameData {
    /// The encoded payload.
    pub data: Vec<u8>,
    /// Monotonic capture timestamp in milliseconds from thread start.
    pub timestamp: i64,
    /// Whether the payload is a keyframe.
    pub is_keyframe: bool,
}

/// What one call of the capture backend produced.
#[derive(Debug, Clone, Copy, PartialEq, Eq, Structural)]
pub enum CaptureResult {
    /// A valid pixel buffer.
    Frame,
    /// A buffer that is empty or otherwise invalid; treated as no frame.
    InvalidFrame,
    /// No frame is available yet.
    WouldBlock,
    /// A driver error.
    Error,
}

/// The fallback machine between the desktop-duplication backend and GDI.
#[derive(Debug, Clone, Copy, PartialEq, Eq, Structural)]
pub struct FallbackState {
    /// Consecutive non-would-block errors while not in GDI mode.
    pub dxgi_failed_times: u32,
    /// Whether the capturer runs in GDI mode.
    pub is_gdi: bool,
}

/// What the capture loop must do to its backend after a capture result.
#[derive(Debug, Clone, Copy, PartialEq, Eq, Structural)]
pub enum FallbackAction {
    /// Keep the current capturer.
    KeepCapturer,
    /// Destroy the capturer, re-acquire the primary display, build a new
    /// capturer and put it in GDI mode.
    RebuildWithGdi,
}

impl FallbackState {
    /// The initial state: no failures, duplication mode.
    pub fn new() -> (r: Self)
        ensures
            r.dxgi_failed_times == 0,
            !r.is_gdi,
    {
        FallbackState { dxgi_failed_times: 0, is_gdi: false }
    }

    /// Drive the machine with one capture result. Any successful frame
    /// resets the counter; a non-would-block error outside GDI mode
    /// raises it, and past the tolerance the backend must be rebuilt in
    /// GDI mode. Would-block results and GDI-mode errors change nothing.
    pub fn on_capture_result(&mut self, result: CaptureResult) -> (r: FallbackAction)
        requires
            old(self).dxgi_failed_times <= MAX_DXGI_FAIL_TIME + 1,
        ensures
            final(self).dxgi_failed_times <= MAX_DXGI_FAIL_TIME + 1,
            final(self).is_gdi == old(self).is_gdi,
            result is Frame ==> final(self).dxgi_failed_times == 0 && r
                == FallbackAction::KeepCapturer,
            result is WouldBlock || result is InvalidFrame ==> *final(self) == *old(self) && r
                == FallbackAction::KeepCapturer,
            result is Error && old(self).is_gdi ==> *final(self) == *old(self) && r
                == FallbackAction::KeepCapturer,
            result is Error && !old(self).is_gdi ==> {
                let bumped = if old(self).dxgi_failed_times <= MAX_DXGI_FAIL_TIME {
                    old(self).dxgi_failed_times + 1
                } else {
                    old(self).dxgi_failed_times as int
                };
                &&& final(self).dxgi_failed_times == bumped
                &&& r == (if bumped > MAX_DXGI_FAIL_TIME {
                    FallbackAction::RebuildWithGdi
                } else {
                    FallbackAction::KeepCapturer
                })
            },
    {
        match result {
            CaptureResult::Frame => {
                self.dxgi_failed_times = 0;
                FallbackAction::KeepCapturer
            },
            CaptureResult::InvalidFrame | CaptureResult::WouldBlock => {
                FallbackAction::KeepCapturer
            },
            CaptureResult::Error => {
                if !self.is_gdi {
                    if self.dxgi_failed_times <= MAX_DXGI_FAIL_TIME {
                        self.dxgi_failed_times = self.dxgi_failed_times + 1;
                    }
                    if self.dxgi_failed_times > MAX_DXGI_FAIL_TIME {
                        return FallbackAction::RebuildWithGdi;
                    }
                }
                FallbackAction::KeepCapturer
            },
        }
    }

    /// The backend was rebuilt in GDI mode: reset the counter and record
    /// the mode.
    pub fn on_rebuilt_gdi(&mut self)
        ensures
            final(self).dxgi_failed_times == 0,
            final(self).is_gdi,
    {
        self.dxgi_failed_times = 0;
        self.is_gdi = true;
    }

    /// Whether the capturer runs in GDI mode.
    pub fn is_gdi(&self) -> (r: bool)
        ensures
            r == self.is_gdi,
    {
        self.is_gdi
    }
}

// ---------------------------------------------------------------------------
// Frame emission
// ---------------------------------------------------------------------------
/// Whether the producer may emit a frame stamped `now_ms`: the clock must
/// have moved past the previous emission.
pub open spec fn spec_emit_ok(last_emit_ms: Option<i64>, now_ms: i64) -> bool {
    match last_emit_ms {
        Some(t) => now_ms > t,
        None => now_ms >= 0,
    }
}

/// The producer's per-session emission state.
pub struct CaptureSession {
    /// The timestamp of the last emitted frame, if any.
    pub last_emit_ms: Option<i64>,
    /// Frames handed to the channel.
    pub frames_sent: u64,
    /// Frames dropped on channel backpressure.
    pub frames_dropped: u64,
}

impl CaptureSession {
    /// A fresh session with nothing emitted.
    pub fn new() -> (r: Self)
        ensures
            r.last_emit_ms is None,
            r.frames_sent == 0,
            r.frames_dropped == 0,
    {
        CaptureSession { last_emit_ms: None, frames_sent: 0, frames_dropped: 0 }
    }

    /// Stamp one encoded payload for the channel. The clock must have
    /// moved since the previous emission, so every emitted frame carries
    /// a strictly larger timestamp than the one before it.
    pub fn emit_frame(&mut self, data: Vec<u8>, is_keyframe: bool, now_ms: i64) -> (r: FrameData)
        requires
            spec_emit_ok(old(self).last_emit_ms, now_ms),
        ensures
            r.timestamp == now_ms,
            r.is_keyframe == is_keyframe,
            r.data@ == data@,
            final(self).last_emit_ms == Some(now_ms),
            old(self).last_emit_ms is Some ==> r.timestamp > old(self).last_emit_ms->0,
            final(self).frames_sent == old(self).frames_sent,
            final(self).frames_dropped == old(self).frames_dropped,
    {
        self.last_emit_ms = Some(now_ms);
        FrameData { data, timestamp: now_ms, is_keyframe }
    }

    /// Count one frame accepted by the channel.
    pub fn count_sent(&mut self)
        ensures
            final(self).frames_sent == (if old(self).frames_sent == u64::MAX {
                u64::MAX
            } else {
                (old(self).frames_sent + 1) as u64
            }),
            final(self).frames_dropped == old(self).frames_dropped,
            final(self).last_emit_ms == old(self).last_emit_ms,
    {
        if self.frames_sent < u64::MAX {
            self.frames_sent = self.frames_sent + 1;
        }
    }

    /// Count one frame dropped on backpressure.
    pub fn count_dropped(&mut self)
        ensures
            final(self).frames_dropped == (if old(self).frames_dropped == u64::MAX {
                u64::MAX
            } else {
                (old(self).frames_dropped + 1) as u64
            }),
            final(self).frames_sent == old(self).frames_sent,
            final(self).last_emit_ms == old(self).last_emit_ms,
    {
        if self.frames_dropped < u64::MAX {
            self.frames_dropped = self.frames_dropped + 1;
        }
    }
}

/// Timestamps of consecutive emissions from one capture session rise
/// strictly: a frame stamped after one at `t1` carries a later time
/// `t2 > t1`, since emission at `t2` requires the clock to have moved
/// past the recorded `t1`.
pub proof fn lemma_emission_timestamps_increase(t1: i64, t2: i64)
    requires
        spec_emit_ok(Some(t1), t2),
    ensures
        t2 > t1,
{
}

// ---------------------------------------------------------------------------
// Loop scheduling decisions
// ---------------------------------------------------------------------------
/// What the capture loop does at the top of an iteration.
#[derive(Debug, Clone, Copy, PartialEq, Eq, Structural)]
pub enum TickAction {
    /// No client and no debug frames: sleep briefly and retry.
    SleepIdle,
    /// Capture and encode one frame.
    Capture,
}

/// The capture loop captures only while clients are connected, or while
/// debug frames remain to be forced.
pub fn tick_action(active_clients: u32, debug_frames_remaining: u64) -> (r: TickAction)
    ensures
        r == (if active_clients == 0 && debug_frames_remaining == 0 {
            TickAction::SleepIdle
        } else {
            TickAction::Capture
        }),
{
    if active_clients == 0 && debug_frames_remaining == 0 {
        TickAction::SleepIdle
    } else {
        TickAction::Capture
    }
}

/// Whether a short recovery sleep is due after consecutive would-block
/// results: past the threshold, every tenth iteration.
pub fn would_block_backoff(consecutive_would_block: u32) -> (r: bool)
    ensures
        r == (consecutive_would_block > WOULD_BLOCK_SLEEP_THRESHOLD && consecutive_would_block
            % 10 == 0),
{
    consecutive_would_block > WOULD_BLOCK_SLEEP_THRESHOLD && consecutive_would_block % 10 == 0
}

/// Whether the socket sender task must stop: fifty or more consecutive
/// send failures terminate it and force a reconnect.
pub fn sender_should_terminate(consecutive_send_errors: u32) -> (r: bool)
    ensures
        r == (consecutive_send_errors >= MAX_SEND_ERRORS),
{
    consecutive_send_errors >= MAX_SEND_ERRORS
}

/// The reconnect backoff in seconds: twice the attempt count, at most
/// thirty.
pub fn backoff_secs(retry_count: u64) -> (r: u64)
    ensures
        r == {
            let base = if retry_count >= 1 {
                retry_count as int
            } else {
                1
            };
            if 2 * base < 30 {
                2 * base
            } else {
                30int
            }
        },
{
    let base = if retry_count >= 1 {
        retry_count
    } else {
        1
    };
    if base < 15 {
        2 * base
    } else {
        30
    }
}

} // verus!
