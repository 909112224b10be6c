//! The multi-client session state and its message handling: client
//! connect and disconnect, the client-init packet sequence, refresh
//! debouncing, initial-frame keyframe gating in the bridger, and the
//! write accounting of the shared socket writer.

use vstd::prelude::*;

use crate::protocol::{
    create_display_info_packet, create_display_list_packet_with_scaling,
    create_init_touch_packet, create_keystate_packet, create_mouse_cursor_packet,
    create_refresh_packet, create_resolution_packet_with_scaling, create_video_frame_packet,
    spec_display_info_bytes, spec_displays_bytes,
    spec_header_only_bytes, spec_init_touch_bytes, spec_keystate_bytes, spec_mouse_cursor_bytes,
    spec_picture_bytes, spec_scaled_dimension, spec_screen_bytes, DisplayInfo, MNG_KVM_REFRESH,
};
use std::collections::VecDeque;

verus! {

/// Most pending input events kept before the oldest is dropped.
pub const MAX_PENDING_INPUTS: usize = 100;

/// Milliseconds a refresh request is debounced after the previous one.
pub const REFRESH_DEBOUNCE_MS: u64 = 1000;

/// Milliseconds after a refresh clear during which new full-refresh
/// requests are suppressed while clients are connected.
pub const REFRESH_CLEAR_SUPPRESS_MS: u64 = 3000;

/// The cursor as the session tracks it.
#[derive(Debug, Clone, Copy)]
pub struct CursorState {
    /// Whether cursor capture is on.
    pub visible: bool,
    /// Cursor x position.
    pub x: i32,
    /// Cursor y position.
    pub y: i32,
    /// The platform cursor shape id.
    pub cursor_type: u8,
    /// Whether a hide-cursor message went out.
    pub sent_hide_cursor: bool,
    /// Whether the remote side moved the mouse.
    pub remote_mouse_moved: bool,
}

impl Default for CursorState {
    fn default() -> (r: Self)
        ensures
            !r.visible,
            r.x == 0,
            r.y == 0,
            r.cursor_type == 0,
            !r.sent_hide_cursor,
            !r.remote_mouse_moved,
    {
        CursorState {
            visible: false,
            x: 0,
            y: 0,
            cursor_type: 0,
            sent_hide_cursor: false,
            remote_mouse_moved: false,
        }
    }
}

/// The desktop the capture is bound to.
#[derive(Debug, Clone, Copy)]
pub struct DesktopContext {
    /// A hash of the desktop's name.
    pub desktop_name_hash: u32,
    /// Number of monitors.
    pub monitor_count: i32,
    /// The virtual screen rectangle: x, y, width, height.
    pub virtual_screen: (i32, i32, i32, i32),
}

/// An input event queued for the platform injector.
#[derive(Debug, Clone)]
pub enum InputEvent {
    Unicode { data: Vec<u8> },
    Mouse { data: Vec<u8>, x: i32, y: i32 },
    MouseMove { x: i32, y: i32 },
    CursorUpdate { cursor_type: u8 },
    Keyboard { data: Vec<u8> },
    CtrlAltDel,
}

/// The shared session state: client counts, keyframe and refresh flags,
/// cursor, pending inputs, and per-client display settings.
pub struct ClientState {
    /// Whether a remote client acknowledged readiness.
    pub remote_connected: bool,
    /// Whether shutdown was requested.
    pub shutdown_requested: bool,
    /// Whether streaming is paused.
    pub paused: bool,
    /// The FPS the client asked for, clamped to `[10, 60]`.
    pub target_fps: u32,
    /// Clients currently connected.
    pub active_client_count: u32,
    /// Clients that still await their first keyframe.
    pub clients_needing_initial_frame: u32,
    /// Clients that still await any keyframe.
    pub clients_needing_keyframe: u32,
    /// Whether the session is in its initial connection phase.
    pub initial_connection_phase: bool,
    /// Whether a full refresh is pending.
    pub full_refresh_requested: bool,
    /// Whether the tile state must be rebuilt.
    pub tile_reset_requested: bool,
    /// Whether a resolution change is in progress.
    pub resolution_changing: bool,
    /// Whether the connection is active.
    pub connection_active: bool,
    /// Whether a disconnect was requested.
    pub disconnect_requested: bool,
    /// Whether the capture thread must force a keyframe.
    pub force_keyframe: bool,
    /// The cursor state.
    pub cursor_state: CursorState,
    /// The desktop the capture is bound to, if known.
    pub desktop_context: Option<DesktopContext>,
    /// Queued input events.
    pub pending_inputs: VecDeque<InputEvent>,
    /// Compression quality, 1 to 100.
    pub compression_quality: u32,
    /// The frame-rate timer in milliseconds.
    pub frame_rate_timer: u32,
    /// The client zoom numerator over 1024.
    pub scaling_factor: u32,
    /// The selected display id, 0 for the default.
    pub selected_display: u32,
    /// When the last client connected, in milliseconds.
    pub last_client_connection_ms: u64,
    /// When the current connection started, in milliseconds.
    pub connection_start_ms: u64,
    /// When the refresh flag was last cleared, in milliseconds.
    pub last_full_refresh_clear_ms: u64,
    /// When the last keyframe was delivered, in milliseconds.
    pub last_keyframe_ms: u64,
    /// When the last client refresh request was honored, in milliseconds.
    pub last_refresh_request_ms: u64,
    /// Whether any refresh request was honored yet.
    pub refresh_requested_once: bool,
}

impl ClientState {
    /// The session invariant: clients awaiting a keyframe never exceed
    /// the connected clients, and the input queue stays bounded.
    pub open spec fn wf(self) -> bool {
        &&& self.clients_needing_initial_frame <= self.active_client_count
        &&& self.clients_needing_keyframe <= self.active_client_count
        &&& self.pending_inputs@.len() <= MAX_PENDING_INPUTS
    }

    /// A fresh session with no clients.
    pub fn new() -> (r: Self)
        ensures
            r.wf(),
            r.active_client_count == 0,
            r.clients_needing_initial_frame == 0,
            r.clients_needing_keyframe == 0,
            r.initial_connection_phase,
            !r.full_refresh_requested,
            !r.force_keyframe,
            !r.paused,
            r.target_fps == 30,
            r.compression_quality == 70,
            r.frame_rate_timer == 33,
            r.scaling_factor == 1024,
            r.selected_display == 0,
            r.pending_inputs@.len() == 0,
            !r.cursor_state.visible,
            !r.refresh_requested_once,
    {
        ClientState {
            remote_connected: false,
            shutdown_requested: false,
            paused: false,
            target_fps: 30,
            active_client_count: 0,
            clients_needing_initial_frame: 0,
            clients_needing_keyframe: 0,
            initial_connection_phase: true,
            full_refresh_requested: false,
            tile_reset_requested: false,
            resolution_changing: false,
            connection_active: false,
            disconnect_requested: false,
            force_keyframe: false,
            cursor_state: CursorState::default(),
            desktop_context: None,
            pending_inputs: VecDeque::new(),
            compression_quality: 70,
            frame_rate_timer: 33,
            scaling_factor: 1024,
            selected_display: 0,
            last_client_connection_ms: 0,
            connection_start_ms: 0,
            last_full_refresh_clear_ms: 0,
            last_keyframe_ms: 0,
            last_refresh_request_ms: 0,
            refresh_requested_once: false,
        }
    }

    /// Whether a resolution change is in progress.
    pub fn is_resolution_changing(&self) -> (r: bool)
        ensures
            r == self.resolution_changing,
    {
        self.resolution_changing
    }

    /// Mark a resolution change.
    pub fn set_resolution_changing(&mut self, val: bool)
        ensures
            *final(self) == (ClientState { resolution_changing: val, ..*old(self) }),
    {
        self.resolution_changing = val;
    }

    /// Record whether a remote client acknowledged readiness.
    pub fn set_remote_connected(&mut self, connected: bool)
        ensures
            *final(self) == (ClientState { remote_connected: connected, ..*old(self) }),
    {
        self.remote_connected = connected;
    }

    /// Whether shutdown was requested.
    pub fn should_shutdown(&self) -> (r: bool)
        ensures
            r == self.shutdown_requested,
    {
        self.shutdown_requested
    }

    /// Pause or resume streaming.
    pub fn set_pause(&mut self, paused: bool)
        ensures
            *final(self) == (ClientState { paused, ..*old(self) }),
    {
        self.paused = paused;
    }

    /// Ask the capture thread for a keyframe, or clear the request.
    pub fn set_force_keyframe(&mut self, val: bool)
        ensures
            *final(self) == (ClientState { force_keyframe: val, ..*old(self) }),
    {
        self.force_keyframe = val;
    }

    /// Whether the capture thread must force a keyframe.
    pub fn is_force_keyframe(&self) -> (r: bool)
        ensures
            r == self.force_keyframe,
    {
        self.force_keyframe
    }

    /// Set the client's FPS wish, clamped to `[10, 60]`.
    pub fn set_target_fps(&mut self, fps: u32)
        ensures
            *final(self) == (ClientState {
                target_fps: if fps < 10 {
                    10u32
                } else if fps > 60 {
                    60u32
                } else {
                    fps
                },
                ..*old(self)
            }),
    {
        self.target_fps = if fps < 10 {
            10
        } else if fps > 60 {
            60
        } else {
            fps
        };
    }

    /// Request a full refresh; within three seconds of the last clear the
    /// request is suppressed while clients are connected.
    pub fn request_full_refresh(&mut self, now_ms: u64)
        ensures
            (now_ms >= old(self).last_full_refresh_clear_ms + REFRESH_CLEAR_SUPPRESS_MS || old(
                self,
            ).active_client_count == 0) ==> *final(self) == (ClientState {
                full_refresh_requested: true,
                tile_reset_requested: true,
                ..*old(self)
            }),
            !(now_ms >= old(self).last_full_refresh_clear_ms + REFRESH_CLEAR_SUPPRESS_MS || old(
                self,
            ).active_client_count == 0) ==> *final(self) == *old(self),
    {
        let elapsed_enough = now_ms >= self.last_full_refresh_clear_ms && now_ms
            - self.last_full_refresh_clear_ms >= REFRESH_CLEAR_SUPPRESS_MS;
        if elapsed_enough || self.active_client_count == 0 {
            self.full_refresh_requested = true;
            self.tile_reset_requested = true;
        }
    }

    /// Clear the refresh flag and remember the time of the clear.
    pub fn clear_full_refresh_request(&mut self, now_ms: u64)
        ensures
            *final(self) == (ClientState {
                full_refresh_requested: false,
                last_full_refresh_clear_ms: now_ms,
                ..*old(self)
            }),
    {
        self.full_refresh_requested = false;
        self.last_full_refresh_clear_ms = now_ms;
    }

    /// A client connected: raise the client and awaiting-keyframe counts,
    /// enter the initial phase, request refresh and keyframe, and enable
    /// cursor capture exactly when this is the sole client. Returns the
    /// new client count.
    pub fn increment_client_count(&mut self, now_ms: u64) -> (r: u32)
        requires
            old(self).wf(),
            old(self).active_client_count < u32::MAX,
        ensures
            final(self).wf(),
            r == old(self).active_client_count + 1,
            final(self).active_client_count == old(self).active_client_count + 1,
            final(self).clients_needing_initial_frame == old(self).clients_needing_initial_frame
                + 1,
            final(self).clients_needing_keyframe == old(self).clients_needing_keyframe + 1,
            final(self).initial_connection_phase,
            final(self).full_refresh_requested,
            final(self).tile_reset_requested,
            final(self).force_keyframe,
            final(self).cursor_state.visible == (old(self).active_client_count == 0),
            final(self).last_client_connection_ms == now_ms,
            final(self).connection_start_ms == now_ms,
            final(self).pending_inputs@ == old(self).pending_inputs@,
            *final(self) == (ClientState {
                active_client_count: final(self).active_client_count,
                clients_needing_initial_frame: final(self).clients_needing_initial_frame,
                clients_needing_keyframe: final(self).clients_needing_keyframe,
                initial_connection_phase: true,
                full_refresh_requested: true,
                tile_reset_requested: true,
                force_keyframe: true,
                cursor_state: final(self).cursor_state,
                last_client_connection_ms: now_ms,
                connection_start_ms: now_ms,
                ..*old(self)
            }),
    {
        let new_count = self.active_client_count + 1;
        self.active_client_count = new_count;
        self.last_client_connection_ms = now_ms;
        self.clients_needing_initial_frame = self.clients_needing_initial_frame + 1;
        self.clients_needing_keyframe = self.clients_needing_keyframe + 1;
        self.initial_connection_phase = true;
        self.connection_start_ms = now_ms;
        self.full_refresh_requested = true;
        self.tile_reset_requested = true;
        self.force_keyframe = true;
        self.cursor_state.visible = new_count == 1;
        new_count
    }

    /// A client disconnected: lower the client count; with none left,
    /// clear the initial phase, the refresh flags and the cursor; with
    /// one left, re-enable the cursor. Clients awaiting keyframes never
    /// outnumber the remaining clients. Returns the remaining count.
    #[verifier::rlimit(60)]
    pub fn decrement_client_count(&mut self) -> (r: u32)
        requires
            old(self).wf(),
        ensures
            final(self).wf(),
            old(self).active_client_count == 0 ==> r == 0 && *final(self) == *old(self),
            old(self).active_client_count > 0 ==> {
                &&& r == old(self).active_client_count - 1
                &&& final(self).active_client_count == r
                &&& (r == 0 ==> !final(self).initial_connection_phase
                    && !final(self).full_refresh_requested
                    && !final(self).tile_reset_requested && !final(self).cursor_state.visible)
                &&& (r == 1 ==> final(self).cursor_state.visible)
            },
            *final(self) == (ClientState {
                active_client_count: final(self).active_client_count,
                clients_needing_initial_frame: final(self).clients_needing_initial_frame,
                clients_needing_keyframe: final(self).clients_needing_keyframe,
                initial_connection_phase: final(self).initial_connection_phase,
                full_refresh_requested: final(self).full_refresh_requested,
                tile_reset_requested: final(self).tile_reset_requested,
                cursor_state: final(self).cursor_state,
                ..*old(self)
            }),
    {
        if self.active_client_count == 0 {
            return 0;
        }
        let remaining = self.active_client_count - 1;
        self.active_client_count = remaining;
        if self.clients_needing_initial_frame > remaining {
            self.clients_needing_initial_frame = remaining;
        }
        if self.clients_needing_keyframe > remaining {
            self.clients_needing_keyframe = remaining;
        }
        if remaining == 0 {
            self.initial_connection_phase = false;
            self.full_refresh_requested = false;
            self.tile_reset_requested = false;
            self.cursor_state.visible = false;
        } else if remaining == 1 {
            self.cursor_state.visible = true;
        }
        remaining
    }

    /// Whether any client still awaits its first keyframe.
    pub fn has_clients_needing_initial_frame(&self) -> (r: bool)
        ensures
            r == (self.clients_needing_initial_frame > 0),
    {
        self.clients_needing_initial_frame > 0
    }

    /// A client received its first keyframe: lower the awaiting counts,
    /// and leave the initial phase when no client waits any more.
    pub fn mark_client_initial_frame_sent(&mut self, now_ms: u64)
        requires
            old(self).wf(),
        ensures
            final(self).wf(),
            final(self).clients_needing_initial_frame == (if old(
                self,
            ).clients_needing_initial_frame > 0 {
                old(self).clients_needing_initial_frame - 1
            } else {
                0int
            }),
            final(self).clients_needing_keyframe == (if old(self).clients_needing_keyframe
                > 0 {
                old(self).clients_needing_keyframe - 1
            } else {
                0int
            }),
            final(self).last_keyframe_ms == now_ms,
            final(self).initial_connection_phase == (old(self).clients_needing_initial_frame > 1
                && old(self).initial_connection_phase),
            *final(self) == (ClientState {
                clients_needing_initial_frame: final(self).clients_needing_initial_frame,
                clients_needing_keyframe: final(self).clients_needing_keyframe,
                initial_connection_phase: final(self).initial_connection_phase,
                last_keyframe_ms: now_ms,
                ..*old(self)
            }),
    {
        let remaining = self.clients_needing_initial_frame;
        if remaining > 0 {
            self.clients_needing_initial_frame = remaining - 1;
        }
        if self.clients_needing_keyframe > 0 {
            self.clients_needing_keyframe = self.clients_needing_keyframe - 1;
        }
        self.last_keyframe_ms = now_ms;
        if remaining <= 1 {
            self.initial_connection_phase = false;
        }
    }

    /// The number of connected clients.
    pub fn get_active_client_count(&self) -> (r: u32)
        ensures
            r == self.active_client_count,
    {
        self.active_client_count
    }

    /// Queue an input event; the oldest is dropped at the bound.
    pub fn add_pending_input(&mut self, input: InputEvent)
        requires
            old(self).wf(),
        ensures
            final(self).wf(),
            final(self).pending_inputs@ == if old(self).pending_inputs@.len()
                >= MAX_PENDING_INPUTS {
                old(self).pending_inputs@.drop_first().push(input)
            } else {
                old(self).pending_inputs@.push(input)
            },
            *final(self) == (ClientState {
                pending_inputs: final(self).pending_inputs,
                ..*old(self)
            }),
    {
        if self.pending_inputs.len() >= MAX_PENDING_INPUTS {
            self.pending_inputs.pop_front();
        }
        self.pending_inputs.push_back(input);
    }

    /// Drain all queued input events, oldest first.
    pub fn get_pending_inputs(&mut self) -> (r: Vec<InputEvent>)
        requires
            old(self).wf(),
        ensures
            final(self).wf(),
            r@ == old(self).pending_inputs@,
            final(self).pending_inputs@.len() == 0,
            *final(self) == (ClientState {
                pending_inputs: final(self).pending_inputs,
                ..*old(self)
            }),
    {
        let mut result: Vec<InputEvent> = Vec::new();
        loop
            invariant
                self.wf(),
                old(self).pending_inputs@ == result@ + self.pending_inputs@,
                *self == (ClientState { pending_inputs: self.pending_inputs, ..*old(self) }),
            ensures
                self.wf(),
                old(self).pending_inputs@ == result@ + self.pending_inputs@,
                self.pending_inputs@.len() == 0,
                *self == (ClientState { pending_inputs: self.pending_inputs, ..*old(self) }),
            decreases self.pending_inputs@.len(),
        {
            match self.pending_inputs.pop_front() {
                Some(ev) => {
                    result.push(ev);
                    proof {
                        assert(old(self).pending_inputs@ =~= result@ + self.pending_inputs@);
                    }
                },
                None => {
                    break ;
                },
            }
        }
        proof {
            assert(result@ + self.pending_inputs@ =~= result@);
        }
        result
    }

    /// Show or hide the cursor.
    pub fn set_cursor_visible(&mut self, visible: bool)
        ensures
            *final(self) == (ClientState {
                cursor_state: CursorState { visible, ..old(self).cursor_state },
                ..*old(self)
            }),
    {
        self.cursor_state.visible = visible;
    }

    /// Whether the cursor is captured.
    pub fn is_cursor_visible(&self) -> (r: bool)
        ensures
            r == self.cursor_state.visible,
    {
        self.cursor_state.visible
    }

    /// Set the compression quality.
    pub fn set_compression_quality(&mut self, quality: u32)
        ensures
            *final(self) == (ClientState { compression_quality: quality, ..*old(self) }),
    {
        self.compression_quality = quality;
    }

    /// Set the frame-rate timer.
    pub fn set_frame_rate_timer(&mut self, timer: u32)
        ensures
            *final(self) == (ClientState { frame_rate_timer: timer, ..*old(self) }),
    {
        self.frame_rate_timer = timer;
    }

    /// Set the scaling factor.
    pub fn set_scaling_factor(&mut self, factor: u32)
        ensures
            *final(self) == (ClientState { scaling_factor: factor, ..*old(self) }),
    {
        self.scaling_factor = factor;
    }

    /// The scaling factor.
    pub fn get_scaling_factor(&self) -> (r: u32)
        ensures
            r == self.scaling_factor,
    {
        self.scaling_factor
    }

    /// Derive the compression quality from the wire's type and level
    /// bytes: type 0 is lossless-leaning 100; type 1 maps the level to
    /// 60 through 90; anything else falls to 50.
    pub fn set_compression_settings(&mut self, compression_type: u8, compression_level: u8)
        ensures
            *final(self) == (ClientState {
                compression_quality: spec_compression_quality(
                    compression_type,
                    compression_level,
                ),
                ..*old(self)
            }),
    {
        let quality: u32 = match compression_type {
            0 => 100,
            1 => match compression_level {
                0 => 60,
                1 => 70,
                2 => 80,
                3 => 90,
                _ => 50,
            },
            _ => 50,
        };
        self.set_compression_quality(quality);
    }

    /// Select a display.
    pub fn set_selected_display(&mut self, display_id: u32)
        ensures
            *final(self) == (ClientState { selected_display: display_id, ..*old(self) }),
    {
        self.selected_display = display_id;
    }

    /// The selected display.
    pub fn get_selected_display(&self) -> (r: u32)
        ensures
            r == self.selected_display,
    {
        self.selected_display
    }

    /// Mark the connection active or inactive.
    pub fn set_connection_active(&mut self, active: bool)
        ensures
            *final(self) == (ClientState { connection_active: active, ..*old(self) }),
    {
        self.connection_active = active;
    }

    /// Ask for a disconnect.
    pub fn request_disconnect(&mut self)
        ensures
            *final(self) == (ClientState { disconnect_requested: true, ..*old(self) }),
    {
        self.disconnect_requested = true;
    }
}

/// The compression quality derived from the wire's type and level bytes.
pub open spec fn spec_compression_quality(compression_type: u8, compression_level: u8) -> u32 {
    match compression_type {
        0u8 => 100u32,
        1u8 => match compression_level {
            0u8 => 60u32,
            1u8 => 70u32,
            2u8 => 80u32,
            3u8 => 90u32,
            _ => 50u32,
        },
        _ => 50u32,
    }
}

// ---------------------------------------------------------------------------
// Writer accounting
// ---------------------------------------------------------------------------
/// The ledger of the shared socket writer. Exactly one task writes to the
/// socket, and every write is recorded here under exactly one of three
/// kinds, so the number of serialized messages always equals
/// `sent + ping_replies + control_replies`.
pub struct WriterAccounting {
    /// Messages written to the socket in all.
    pub total_writes: u64,
    /// Video frames sent.
    pub sent: u64,
    /// Pong answers to pings.
    pub ping_replies: u64,
    /// Control replies of the handlers.
    pub control_replies: u64,
}

impl WriterAccounting {
    /// The ledger invariant: the writes equal the sum of the three kinds.
    pub open spec fn wf(self) -> bool {
        self.total_writes == self.sent + self.ping_replies + self.control_replies
    }

    /// An empty ledger.
    pub fn new() -> (r: Self)
        ensures
            r.wf(),
            r.total_writes == 0,
            r.sent == 0,
            r.ping_replies == 0,
            r.control_replies == 0,
    {
        WriterAccounting { total_writes: 0, sent: 0, ping_replies: 0, control_replies: 0 }
    }

    /// Record one video frame written: exactly one new write.
    pub fn record_frame_sent(&mut self)
        requires
            old(self).wf(),
            old(self).total_writes < u64::MAX,
        ensures
            final(self).wf(),
            final(self).total_writes == old(self).total_writes + 1,
            final(self).sent == old(self).sent + 1,
            final(self).ping_replies == old(self).ping_replies,
            final(self).control_replies == old(self).control_replies,
    {
        self.total_writes = self.total_writes + 1;
        self.sent = self.sent + 1;
    }

    /// Record one pong written: exactly one new write.
    pub fn record_ping_reply(&mut self)
        requires
            old(self).wf(),
            old(self).total_writes < u64::MAX,
        ensures
            final(self).wf(),
            final(self).total_writes == old(self).total_writes + 1,
            final(self).ping_replies == old(self).ping_replies + 1,
            final(self).sent == old(self).sent,
            final(self).control_replies == old(self).control_replies,
    {
        self.total_writes = self.total_writes + 1;
        self.ping_replies = self.ping_replies + 1;
    }

    /// Record one control reply written: exactly one new write.
    pub fn record_control_reply(&mut self)
        requires
            old(self).wf(),
            old(self).total_writes < u64::MAX,
        ensures
            final(self).wf(),
            final(self).total_writes == old(self).total_writes + 1,
            final(self).control_replies == old(self).control_replies + 1,
            final(self).sent == old(self).sent,
            final(self).ping_replies == old(self).ping_replies,
    {
        self.total_writes = self.total_writes + 1;
        self.control_replies = self.control_replies + 1;
    }
}

/// In every reachable ledger state the messages serialized on the socket
/// equal the sent frames plus the ping replies plus the control replies;
/// as each recording adds exactly one write, no frame is written twice.
pub proof fn lemma_writer_accounting(w: WriterAccounting)
    requires
        w.wf(),
    ensures
        w.total_writes == w.sent + w.ping_replies + w.control_replies,
{
}

// ---------------------------------------------------------------------------
// The bridger: keyframe gating
// ---------------------------------------------------------------------------
/// What the bridger decided for one frame from the capture channel.
pub struct BridgeOutcome {
    /// The PICTURE packet to forward, if the frame may go out.
    pub packet: Option<Vec<u8>>,
    /// Whether the capture thread must be asked for a keyframe.
    pub request_keyframe: bool,
}

/// How the bridger reacts to one frame: while clients await their first
/// keyframe, a delta frame is dropped, a keyframe is requested and the
/// state is untouched; a keyframe is forwarded and lowers both awaiting
/// counters; with nobody waiting every frame is forwarded. A forwarded
/// frame goes out as a PICTURE packet, and any pending force-keyframe
/// wish is passed on and cleared.
pub open spec fn spec_bridge_reaction(
    pre: ClientState,
    post: ClientState,
    frame: Seq<u8>,
    is_keyframe: bool,
    codec_id: u8,
    now_ms: u64,
    packet: Option<Vec<u8>>,
    request_keyframe: bool,
) -> bool {
    &&& (packet is Some ==> spec_bridge_forwards(pre.clients_needing_initial_frame, is_keyframe))
    &&& (packet is Some ==> packet->0@ == spec_picture_bytes(codec_id, is_keyframe, frame))
    &&& (pre.clients_needing_initial_frame > 0 && !is_keyframe ==> packet is None
        && request_keyframe && post == pre)
    &&& (pre.clients_needing_initial_frame > 0 && is_keyframe ==> packet is Some
        && post.clients_needing_initial_frame == pre.clients_needing_initial_frame - 1
        && post.clients_needing_keyframe == (if pre.clients_needing_keyframe > 0 {
        pre.clients_needing_keyframe - 1
    } else {
        0int
    }) && post.last_keyframe_ms == now_ms)
    &&& (pre.clients_needing_initial_frame == 0 ==> packet is Some
        && post.clients_needing_initial_frame == 0 && post.clients_needing_keyframe
        == pre.clients_needing_keyframe && post.initial_connection_phase
        == pre.initial_connection_phase && post.last_keyframe_ms == pre.last_keyframe_ms)
    &&& (packet is Some ==> !post.force_keyframe && post == (ClientState {
        clients_needing_initial_frame: post.clients_needing_initial_frame,
        clients_needing_keyframe: post.clients_needing_keyframe,
        initial_connection_phase: post.initial_connection_phase,
        last_keyframe_ms: post.last_keyframe_ms,
        force_keyframe: false,
        ..pre
    }))
    &&& (packet is Some && pre.force_keyframe ==> request_keyframe)
}

/// Decide one encoded frame's fate on its way to the socket. While
/// clients await their initial keyframe, delta frames are dropped and a
/// keyframe is requested from the capture thread; the first keyframe
/// seen is forwarded and lowers the awaiting count. A pending
/// force-keyframe wish of the session is also passed on to the capture
/// thread.
pub fn bridge_frame(
    state: &mut ClientState,
    frame_data: &Vec<u8>,
    is_keyframe: bool,
    codec_id: u8,
    now_ms: u64,
) -> (r: BridgeOutcome)
    requires
        old(state).wf(),
        frame_data@.len() <= 0xffffffff,
    ensures
        final(state).wf(),
        spec_bridge_reaction(
            *old(state),
            *final(state),
            frame_data@,
            is_keyframe,
            codec_id,
            now_ms,
            r.packet,
            r.request_keyframe,
        ),
{
    let mut request_keyframe = false;

    if state.has_clients_needing_initial_frame() {
        if !is_keyframe {
            return BridgeOutcome { packet: None, request_keyframe: true };
        } else {
            state.mark_client_initial_frame_sent(now_ms);
        }
    }

    if state.is_force_keyframe() {
        request_keyframe = true;
        state.set_force_keyframe(false);
    }

    let packet = create_video_frame_packet(frame_data, codec_id, is_keyframe);
    BridgeOutcome { packet: Some(packet), request_keyframe }
}

/// The bridger's gate: a frame passes only while no client awaits its
/// initial keyframe, or when the frame is a keyframe.
pub open spec fn spec_bridge_forwards(
    clients_needing_initial_frame: u32,
    is_keyframe: bool,
) -> bool {
    clients_needing_initial_frame == 0 || is_keyframe
}

/// The first PICTURE the bridger forwards while any newly connected
/// client awaits its initial frame is a keyframe: gating never lets a
/// delta frame through in that state.
pub proof fn lemma_initial_frame_is_keyframe(
    clients_needing_initial_frame: u32,
    is_keyframe: bool,
)
    requires
        clients_needing_initial_frame > 0,
        spec_bridge_forwards(clients_needing_initial_frame, is_keyframe),
    ensures
        is_keyframe,
{
}

// ---------------------------------------------------------------------------
// Message handling
// ---------------------------------------------------------------------------
/// The client-connect control message.
pub open spec fn spec_connect_msg() -> Seq<u8> {
    seq![0u8, 73u8, 0u8, 6u8, 0u8, 1u8]
}

/// The client-disconnect control message.
pub open spec fn spec_disconnect_msg() -> Seq<u8> {
    seq![0u8, 74u8, 0u8, 6u8, 0u8, 1u8]
}

/// The client-ready acknowledgement.
pub open spec fn spec_ack_msg() -> Seq<u8> {
    seq![0u8, 14u8, 0u8, 4u8]
}

/// A queue after one more event: the oldest leaves a full queue.
pub open spec fn spec_push_input(q: Seq<InputEvent>, ev: InputEvent) -> Seq<InputEvent> {
    if q.len() >= MAX_PENDING_INPUTS {
        q.drop_first().push(ev)
    } else {
        q.push(ev)
    }
}


/// What handling a connect message yields: the seven init frames and the
/// raised client counts.
pub open spec fn spec_connect_reaction(
    pre: ClientState,
    post: ClientState,
    raw_width: u16,
    raw_height: u16,
    displays: Seq<DisplayInfo>,
    r: Seq<Vec<u8>>,
) -> bool {
    &&& r.len() == 7
    &&& r[0]@ == spec_screen_bytes(
        spec_scaled_dimension((raw_width - (raw_width % 2)) as int, pre.scaling_factor as int),
        spec_scaled_dimension((raw_height - (raw_height % 2)) as int, pre.scaling_factor as int),
    )
    &&& r[1]@ == spec_display_info_bytes(displays)
    &&& r[2]@ == spec_displays_bytes(displays.len() as u16, (pre.selected_display % 0x10000) as u16)
    &&& r[3]@ == spec_keystate_bytes()
    &&& r[4]@ == spec_mouse_cursor_bytes()
    &&& r[5]@ == spec_header_only_bytes(MNG_KVM_REFRESH as u16)
    &&& r[6]@ == spec_init_touch_bytes(2)
    &&& post.active_client_count == pre.active_client_count + 1
    &&& post.clients_needing_initial_frame == pre.clients_needing_initial_frame + 1
    &&& post.force_keyframe
    &&& post.full_refresh_requested
}

/// What handling an input message yields, by its type byte: the refresh
/// debounce, the resize and touch-init replies, and the queued events.
/// Whether a full-refresh request is granted: at least three seconds
/// have passed since the last refresh clear, or no client is connected.
pub open spec fn spec_refresh_grant(pre: ClientState, now_ms: u64) -> bool {
    now_ms >= pre.last_full_refresh_clear_ms + REFRESH_CLEAR_SUPPRESS_MS
        || pre.active_client_count == 0
}

/// The SCREEN frame advertised for a raw resolution under a scaling
/// factor.
pub open spec fn spec_scaled_screen_bytes(
    raw_width: u16,
    raw_height: u16,
    scaling_factor: u32,
) -> Seq<u8> {
    spec_screen_bytes(
        spec_scaled_dimension((raw_width - (raw_width % 2)) as int, scaling_factor as int),
        spec_scaled_dimension((raw_height - (raw_height % 2)) as int, scaling_factor as int),
    )
}

pub open spec fn spec_input_reaction(
    pre: ClientState,
    post: ClientState,
    d: Seq<u8>,
    raw_width: u16,
    raw_height: u16,
    displays: Seq<DisplayInfo>,
    now_ms: u64,
    r: Seq<Vec<u8>>,
) -> bool {
    let t = d[1];
    let displays_bytes = spec_displays_bytes(
        displays.len() as u16,
        (pre.selected_display % 0x10000) as u16,
    );
    &&& (t == 6 && spec_refresh_debounced(pre, now_ms) ==> r.len() == 0 && post == pre)
    &&& (t == 6 && !spec_refresh_debounced(pre, now_ms) ==> {
        &&& r.len() == 2
        &&& r[0]@ == spec_scaled_screen_bytes(raw_width, raw_height, pre.scaling_factor)
        &&& r[1]@ == displays_bytes
        &&& (pre.resolution_changing ==> post == (ClientState {
            resolution_changing: false,
            full_refresh_requested: false,
            last_full_refresh_clear_ms: now_ms,
            last_refresh_request_ms: now_ms,
            refresh_requested_once: true,
            ..pre
        }))
        &&& (!pre.resolution_changing && spec_refresh_grant(pre, now_ms) ==> post
            == (ClientState {
            full_refresh_requested: true,
            tile_reset_requested: true,
            last_refresh_request_ms: now_ms,
            refresh_requested_once: true,
            ..pre
        }))
        &&& (!pre.resolution_changing && !spec_refresh_grant(pre, now_ms) ==> post
            == (ClientState {
            last_refresh_request_ms: now_ms,
            refresh_requested_once: true,
            ..pre
        }))
    })
    &&& (t == 14 ==> r.len() == 1 && r[0]@ == spec_init_touch_bytes(2) && post == pre)
    &&& (t == 10 ==> r.len() == 0 && post == (ClientState {
        pending_inputs: post.pending_inputs,
        ..pre
    }) && post.pending_inputs@ == spec_push_input(pre.pending_inputs@, InputEvent::CtrlAltDel))
    &&& (t == 1 ==> r.len() == 0 && (if d.len() >= 6 {
        &&& post == (ClientState { pending_inputs: post.pending_inputs, ..pre })
        &&& post.pending_inputs@ == spec_push_input(
            pre.pending_inputs@,
            post.pending_inputs@.last(),
        )
        &&& (post.pending_inputs@.last() matches InputEvent::Keyboard { data } && data@
            == d.subrange(4, d.len() as int))
    } else {
        post == pre
    }))
    &&& (t == 2 ==> r.len() == 0 && (if d.len() >= 10 {
        &&& post == (ClientState { pending_inputs: post.pending_inputs, ..pre })
        &&& post.pending_inputs@ == spec_push_input(
            pre.pending_inputs@,
            post.pending_inputs@.last(),
        )
        &&& (post.pending_inputs@.last() matches InputEvent::Mouse { data, x, y } && data@
            == d.subrange(5, d.len() as int) && x == ((d[6] as u16) * 256 + (d[7] as u16)) as u16
            as i32 && y == ((d[8] as u16) * 256 + (d[9] as u16)) as u16 as i32)
    } else {
        post == pre
    }))
    &&& (t == 85 ==> r.len() == 0 && (if d.len() >= 7 {
        &&& post == (ClientState { pending_inputs: post.pending_inputs, ..pre })
        &&& post.pending_inputs@ == spec_push_input(
            pre.pending_inputs@,
            post.pending_inputs@.last(),
        )
        &&& (post.pending_inputs@.last() matches InputEvent::Unicode { data } && data@ == d)
    } else {
        post == pre
    }))
    &&& (t == 8 ==> r.len() == 0 && post == (ClientState {
        paused: d.len() > 5 && d[5] == 1,
        ..pre
    }))
    &&& (t == 5 ==> (if d.len() >= 10 {
        let sf = ((d[6] as u16) * 256 + (d[7] as u16)) as u32;
        let scaling = if 64 <= sf <= 4096 {
            sf
        } else {
            pre.scaling_factor
        };
        &&& r.len() == 2
        &&& r[0]@ == spec_scaled_screen_bytes(raw_width, raw_height, scaling)
        &&& r[1]@ == displays_bytes
        &&& post == (ClientState {
            scaling_factor: scaling,
            compression_quality: d[4] as u32,
            target_fps: if d[5] < 10 {
                10u32
            } else if d[5] > 60 {
                60u32
            } else {
                d[5] as u32
            },
            force_keyframe: true,
            full_refresh_requested: spec_refresh_grant(pre, now_ms) || pre.full_refresh_requested,
            tile_reset_requested: spec_refresh_grant(pre, now_ms) || pre.tile_reset_requested,
            ..pre
        })
    } else {
        r.len() == 0 && post == pre
    }))
    &&& (t == 9 ==> r.len() == 0 && (if d.len() >= 6 {
        post == (ClientState {
            compression_quality: spec_compression_quality(d[4], d[5]),
            frame_rate_timer: ({
                let ft = ((d[6] as u16) * 256 + (d[7] as u16)) as u32;
                if d.len() >= 8 && 20 <= ft <= 5000 {
                    ft
                } else {
                    pre.frame_rate_timer
                }
            }),
            scaling_factor: ({
                let sc = ((d[8] as u16) * 256 + (d[9] as u16)) as u32;
                if d.len() >= 10 && sc > 0 {
                    sc
                } else {
                    pre.scaling_factor
                }
            }),
            ..pre
        })
    } else {
        post == pre
    }))
    &&& (t == 12 ==> r.len() == 0 && (if d.len() >= 6 {
        post == (ClientState {
            selected_display: ((d[4] as u16) * 256 + (d[5] as u16)) as u32,
            ..pre
        })
    } else {
        post == pre
    }))
    &&& (t == 13 ==> r.len() == 0 && (if d.len() >= 6 {
        let tv = ((d[4] as u16) * 256 + (d[5] as u16)) as u32;
        post == (ClientState {
            frame_rate_timer: if 20 <= tv <= 5000 {
                tv
            } else {
                pre.frame_rate_timer
            },
            ..pre
        })
    } else {
        post == pre
    }))
    &&& (t == 144 ==> r.len() == 0 && (if d.len() >= 5 {
        post == (ClientState {
            cursor_state: CursorState { visible: d[4] != 0, ..pre.cursor_state },
            ..pre
        })
    } else {
        post == pre
    }))
    &&& (t != 1 && t != 2 && t != 5 && t != 6 && t != 8 && t != 9 && t != 10 && t != 12 && t
        != 13 && t != 14 && t != 85 && t != 144 ==> r.len() == 0 && post == pre)
}

/// The seven-frame packet sequence sent to a newly connected client:
/// resolution, display info, display list, keystate, mouse cursor,
/// refresh, and the touch-init failure (status 2).
pub fn client_init_packets(
    state: &ClientState,
    raw_width: u16,
    raw_height: u16,
    displays: &Vec<DisplayInfo>,
) -> (r: Vec<Vec<u8>>)
    requires
        displays@.len() <= 5000,
    ensures
        r@.len() == 7,
        r@[0]@ == spec_screen_bytes(
            spec_scaled_dimension(
                (raw_width - (raw_width % 2)) as int,
                state.scaling_factor as int,
            ),
            spec_scaled_dimension(
                (raw_height - (raw_height % 2)) as int,
                state.scaling_factor as int,
            ),
        ),
        r@[1]@ == spec_display_info_bytes(displays@),
        r@[2]@ == spec_displays_bytes(
            displays@.len() as u16,
            (state.selected_display % 0x10000) as u16,
        ),
        r@[3]@ == spec_keystate_bytes(),
        r@[4]@ == spec_mouse_cursor_bytes(),
        r@[5]@ == spec_header_only_bytes(MNG_KVM_REFRESH as u16),
        r@[6]@ == spec_init_touch_bytes(2),
{
    let mut packets: Vec<Vec<u8>> = Vec::new();
    packets.push(
        create_resolution_packet_with_scaling(raw_width, raw_height, state.get_scaling_factor()),
    );
    packets.push(create_display_info_packet(displays));
    packets.push(
        create_display_list_packet_with_scaling(
            displays.len() as u16,
            (state.get_selected_display() % 0x10000) as u16,
        ),
    );
    packets.push(create_keystate_packet());
    packets.push(create_mouse_cursor_packet());
    packets.push(create_refresh_packet());
    packets.push(create_init_touch_packet(2));
    packets
}

/// Whether a refresh request arrives inside the debounce window after
/// the previously honored one.
pub open spec fn spec_refresh_debounced(state: ClientState, now_ms: u64) -> bool {
    state.refresh_requested_once && now_ms >= state.last_refresh_request_ms && now_ms
        - state.last_refresh_request_ms < REFRESH_DEBOUNCE_MS
}

/// Handle one binary message from the server: the connect, disconnect
/// and ready controls drive the client counts; anything else is an input
/// message dispatched on its second byte. Returns the packets to write
/// back, in order.
///
/// - A connect raises the client count and yields the seven-frame init
///   sequence.
/// - A refresh (type 6) yields resolution and display-list packets only
///   when at least the debounce interval passed since the last honored
///   request; a resolution change in progress suppresses the refresh
///   flag entirely.
/// - A resize (type 5) updates scaling, quality and FPS and yields the
///   same two packets.
/// - A touch-init (type 14) is answered with the unsupported status.
/// - Input events (keyboard, mouse, unicode, Ctrl-Alt-Del) are queued
///   for the injector.
pub fn handle_message(
    state: &mut ClientState,
    data: &Vec<u8>,
    raw_width: u16,
    raw_height: u16,
    displays: &Vec<DisplayInfo>,
    now_ms: u64,
) -> (r: Vec<Vec<u8>>)
    requires
        old(state).wf(),
        old(state).active_client_count < u32::MAX,
        displays@.len() <= 5000,
    ensures
        final(state).wf(),
        data@ == spec_connect_msg() ==> spec_connect_reaction(
            *old(state),
            *final(state),
            raw_width,
            raw_height,
            displays@,
            r@,
        ),
        data@ == spec_disconnect_msg() ==> r@.len() == 0 && !final(state).connection_active
            && final(state).paused && final(state).active_client_count == (if old(
            state,
        ).active_client_count == 0 {
            0int
        } else {
            old(state).active_client_count - 1
        }),
        data@ == spec_ack_msg() ==> r@.len() == 0 && final(state).remote_connected,
        data@.len() < 4 ==> r@.len() == 0 && *final(state) == *old(state),
        spec_is_input_msg(data@) ==> spec_input_reaction(
            *old(state),
            *final(state),
            data@,
            raw_width,
            raw_height,
            displays@,
            now_ms,
            r@,
        ),
{
    let n = data.len();
    if n < 4 {
        return Vec::new();
    }

    if n == 6 && data[0] == 0 && data[1] == 73 && data[2] == 0 && data[3] == 6 && data[4] == 0
        && data[5] == 1 {
        proof {
            assert(data@ =~= spec_connect_msg());
        }
        state.increment_client_count(now_ms);
        return client_init_packets(state, raw_width, raw_height, displays);
    }

    if n == 6 && data[0] == 0 && data[1] == 74 && data[2] == 0 && data[3] == 6 && data[4] == 0
        && data[5] == 1 {
        proof {
            assert(data@ =~= spec_disconnect_msg());
        }
        state.set_connection_active(false);
        state.set_remote_connected(false);
        state.request_disconnect();
        state.set_pause(true);
        state.decrement_client_count();
        return Vec::new();
    }

    if n == 4 && data[0] == 0 && data[1] == 14 && data[2] == 0 && data[3] == 4 {
        proof {
            assert(data@ =~= spec_ack_msg());
        }
        state.set_remote_connected(true);
        return Vec::new();
    }

    proof {
        assert(data@ != spec_connect_msg() && data@ != spec_disconnect_msg() && data@
            != spec_ack_msg()) by {
            if data@ == spec_connect_msg() {
                assert(data@[1] == 73);
            }
            if data@ == spec_disconnect_msg() {
                assert(data@[1] == 74);
            }
            if data@ == spec_ack_msg() {
                assert(data@.len() == 4 && data@[1] == 14);
            }
        }
    }
    handle_input_message(state, data, raw_width, raw_height, displays, now_ms)
}

/// Whether a message reaches the input dispatcher: long enough and not
/// one of the three control messages.
pub open spec fn spec_is_input_msg(d: Seq<u8>) -> bool {
    d.len() >= 4 && d != spec_connect_msg() && d != spec_disconnect_msg() && d != spec_ack_msg()
}

/// Dispatch one input message on its second byte.
/// Honor or debounce one refresh request (type 6).
fn react_refresh(
    state: &mut ClientState,
    raw_width: u16,
    raw_height: u16,
    displays: &Vec<DisplayInfo>,
    now_ms: u64,
) -> (r: Vec<Vec<u8>>)
    requires
        old(state).wf(),
        displays@.len() <= 5000,
    ensures
        final(state).wf(),
        spec_refresh_debounced(*old(state), now_ms) ==> r@.len() == 0 && *final(state) == *old(
            state,
        ),
        !spec_refresh_debounced(*old(state), now_ms) ==> {
            &&& r@.len() == 2
            &&& r@[0]@ == spec_scaled_screen_bytes(
                raw_width,
                raw_height,
                old(state).scaling_factor,
            )
            &&& r@[1]@ == spec_displays_bytes(
                displays@.len() as u16,
                (old(state).selected_display % 0x10000) as u16,
            )
            &&& (old(state).resolution_changing ==> *final(state) == (ClientState {
                resolution_changing: false,
                full_refresh_requested: false,
                last_full_refresh_clear_ms: now_ms,
                last_refresh_request_ms: now_ms,
                refresh_requested_once: true,
                ..*old(state)
            }))
            &&& (!old(state).resolution_changing && spec_refresh_grant(*old(state), now_ms)
                ==> *final(state) == (ClientState {
                full_refresh_requested: true,
                tile_reset_requested: true,
                last_refresh_request_ms: now_ms,
                refresh_requested_once: true,
                ..*old(state)
            }))
            &&& (!old(state).resolution_changing && !spec_refresh_grant(*old(state), now_ms)
                ==> *final(state) == (ClientState {
                last_refresh_request_ms: now_ms,
                refresh_requested_once: true,
                ..*old(state)
            }))
        },
{
    let mut packets: Vec<Vec<u8>> = Vec::new();
    let debounced = state.refresh_requested_once && now_ms >= state.last_refresh_request_ms
        && now_ms - state.last_refresh_request_ms < REFRESH_DEBOUNCE_MS;
    if debounced {
        return packets;
    }
    state.last_refresh_request_ms = now_ms;
    state.refresh_requested_once = true;
    packets.push(
        create_resolution_packet_with_scaling(raw_width, raw_height, state.get_scaling_factor()),
    );
    packets.push(
        create_display_list_packet_with_scaling(
            displays.len() as u16,
            (state.get_selected_display() % 0x10000) as u16,
        ),
    );
    if !state.is_resolution_changing() {
        state.request_full_refresh(now_ms);
    } else {
        state.set_resolution_changing(false);
        state.clear_full_refresh_request(now_ms);
    }
    packets
}

/// Apply one resize command (type 5): scaling, quality and FPS wishes,
/// fresh resolution and display-list packets, and a keyframe plus full
/// refresh.
fn react_resize(
    state: &mut ClientState,
    data: &Vec<u8>,
    raw_width: u16,
    raw_height: u16,
    displays: &Vec<DisplayInfo>,
    now_ms: u64,
) -> (r: Vec<Vec<u8>>)
    requires
        old(state).wf(),
        data@.len() >= 10,
        displays@.len() <= 5000,
    ensures
        final(state).wf(),
        ({
            let d = data@;
            let sf = ((d[6] as u16) * 256 + (d[7] as u16)) as u32;
            let scaling = if 64 <= sf <= 4096 {
                sf
            } else {
                old(state).scaling_factor
            };
            &&& r@.len() == 2
            &&& r@[0]@ == spec_scaled_screen_bytes(raw_width, raw_height, scaling)
            &&& r@[1]@ == spec_displays_bytes(
                displays@.len() as u16,
                (old(state).selected_display % 0x10000) as u16,
            )
            &&& *final(state) == (ClientState {
                scaling_factor: scaling,
                compression_quality: d[4] as u32,
                target_fps: if d[5] < 10 {
                    10u32
                } else if d[5] > 60 {
                    60u32
                } else {
                    d[5] as u32
                },
                force_keyframe: true,
                full_refresh_requested: spec_refresh_grant(*old(state), now_ms) || old(
                    state,
                ).full_refresh_requested,
                tile_reset_requested: spec_refresh_grant(*old(state), now_ms) || old(
                    state,
                ).tile_reset_requested,
                ..*old(state)
            })
        }),
{
    let mut packets: Vec<Vec<u8>> = Vec::new();
    let quality = data[4];
    let fps = data[5];
    let scaling_factor_new = ((data[6] as u16) * 256 + (data[7] as u16)) as u32;
    if scaling_factor_new >= 64 && scaling_factor_new <= 4096 {
        state.set_scaling_factor(scaling_factor_new);
    }
    state.set_compression_quality(quality as u32);
    state.set_target_fps(fps as u32);
    packets.push(
        create_resolution_packet_with_scaling(raw_width, raw_height, state.get_scaling_factor()),
    );
    packets.push(
        create_display_list_packet_with_scaling(
            displays.len() as u16,
            (state.get_selected_display() % 0x10000) as u16,
        ),
    );
    state.set_force_keyframe(true);
    state.request_full_refresh(now_ms);
    packets
}

/// Queue one parsed input blob (types 1, 2 and 85) for the injector.
fn react_queue_input(state: &mut ClientState, data: &Vec<u8>)
    requires
        old(state).wf(),
        data@.len() >= 2,
        data@[1] == 1 || data@[1] == 2 || data@[1] == 85,
    ensures
        final(state).wf(),
        ({
            let d = data@;
            let t = d[1];
            &&& (t == 1 ==> (if d.len() >= 6 {
                &&& *final(state) == (ClientState {
                    pending_inputs: final(state).pending_inputs,
                    ..*old(state)
                })
                &&& final(state).pending_inputs@ == spec_push_input(
                    old(state).pending_inputs@,
                    final(state).pending_inputs@.last(),
                )
                &&& (final(state).pending_inputs@.last() matches InputEvent::Keyboard { data }
                    && data@ == d.subrange(4, d.len() as int))
            } else {
                *final(state) == *old(state)
            }))
            &&& (t == 2 ==> (if d.len() >= 10 {
                &&& *final(state) == (ClientState {
                    pending_inputs: final(state).pending_inputs,
                    ..*old(state)
                })
                &&& final(state).pending_inputs@ == spec_push_input(
                    old(state).pending_inputs@,
                    final(state).pending_inputs@.last(),
                )
                &&& (final(state).pending_inputs@.last() matches InputEvent::Mouse {
                    data,
                    x,
                    y,
                } && data@ == d.subrange(5, d.len() as int) && x == ((d[6] as u16) * 256 + (d[7]
                    as u16)) as u16 as i32 && y == ((d[8] as u16) * 256 + (d[9] as u16)) as u16
                    as i32)
            } else {
                *final(state) == *old(state)
            }))
            &&& (t == 85 ==> (if d.len() >= 7 {
                &&& *final(state) == (ClientState {
                    pending_inputs: final(state).pending_inputs,
                    ..*old(state)
                })
                &&& final(state).pending_inputs@ == spec_push_input(
                    old(state).pending_inputs@,
                    final(state).pending_inputs@.last(),
                )
                &&& (final(state).pending_inputs@.last() matches InputEvent::Unicode { data }
                    && data@ == d)
            } else {
                *final(state) == *old(state)
            }))
        }),
{
    let input_type = data[1];
    if input_type == 2 {
        if data.len() >= 10 {
            let mut mouse_data: Vec<u8> = Vec::new();
            mouse_data.extend_from_slice(&data.as_slice()[5..data.len()]);
            proof {
                assert(mouse_data@ =~= data@.subrange(5, data@.len() as int));
            }
            let x = ((data[6] as u16) * 256 + (data[7] as u16)) as i32;
            let y = ((data[8] as u16) * 256 + (data[9] as u16)) as i32;
            state.add_pending_input(InputEvent::Mouse { data: mouse_data, x, y });
        }
    } else if input_type == 1 {
        if data.len() >= 6 {
            let mut key_data: Vec<u8> = Vec::new();
            key_data.extend_from_slice(&data.as_slice()[4..data.len()]);
            proof {
                assert(key_data@ =~= data@.subrange(4, data@.len() as int));
            }
            state.add_pending_input(InputEvent::Keyboard { data: key_data });
        }
    } else {
        if data.len() >= 7 {
            let unicode_data = crate::frame_prep::clone_bytes(data);
            state.add_pending_input(InputEvent::Unicode { data: unicode_data });
        }
    }
}

/// Dispatch one input message on its second byte.
#[verifier::rlimit(100)]
fn handle_input_message(
    state: &mut ClientState,
    data: &Vec<u8>,
    raw_width: u16,
    raw_height: u16,
    displays: &Vec<DisplayInfo>,
    now_ms: u64,
) -> (r: Vec<Vec<u8>>)
    requires
        old(state).wf(),
        data@.len() >= 4,
        displays@.len() <= 5000,
    ensures
        final(state).wf(),
        spec_input_reaction(
            *old(state),
            *final(state),
            data@,
            raw_width,
            raw_height,
            displays@,
            now_ms,
            r@,
        ),
{
    let input_type = data[1];
    let mut packets: Vec<Vec<u8>> = Vec::new();
    if input_type == 1 || input_type == 2 || input_type == 85 {
        react_queue_input(state, data);
    } else if input_type == 10 {
        state.add_pending_input(InputEvent::CtrlAltDel);
    } else if input_type == 5 {
        if data.len() >= 10 {
            return react_resize(state, data, raw_width, raw_height, displays, now_ms);
        }
    } else if input_type == 6 {
        return react_refresh(state, raw_width, raw_height, displays, now_ms);
    } else if input_type == 8 {
        let pause_state = data.len() > 5 && data[5] == 1;
        state.set_pause(pause_state);
    } else if input_type == 9 {
        if data.len() >= 6 {
            state.set_compression_settings(data[4], data[5]);
            if data.len() >= 8 {
                let frame_timer = ((data[6] as u16) * 256 + (data[7] as u16)) as u32;
                if frame_timer >= 20 && frame_timer <= 5000 {
                    state.set_frame_rate_timer(frame_timer);
                }
            }
            if data.len() >= 10 {
                let scaling = ((data[8] as u16) * 256 + (data[9] as u16)) as u32;
                if scaling > 0 {
                    state.set_scaling_factor(scaling);
                }
            }
        }
    } else if input_type == 12 {
        if data.len() >= 6 {
            let display_id = ((data[4] as u16) * 256 + (data[5] as u16)) as u32;
            state.set_selected_display(display_id);
        }
    } else if input_type == 13 {
        if data.len() >= 6 {
            let timer_value = ((data[4] as u16) * 256 + (data[5] as u16)) as u32;
            if timer_value >= 20 && timer_value <= 5000 {
                state.set_frame_rate_timer(timer_value);
            }
        }
    } else if input_type == 14 {
        packets.push(create_init_touch_packet(2));
    } else if input_type == 144 {
        if data.len() >= 5 {
            state.set_cursor_visible(data[4] != 0);
        }
    }
    packets
}

} // verus!
