//! Sessions run inside the application: the table of sessions, the encoding
//! of user input into RDP fast-path input events, and the decisions of the
//! loop that drives one connection.

use crate::framebuffer::{blank_framebuffer, BLANK_PIXEL};
use crate::registry::{ids_below, SessionRegistry};
use ironrdp_pdu::input::fast_path::KeyboardFlags;
use ironrdp_pdu::input::mouse::PointerFlags;
use vstd::prelude::*;

verus! {

/// What is needed to open an embedded session for one saved connection.
#[derive(Debug)]
pub struct RdpConfig {
    pub connection_id: i64,
    pub hostname: String,
    pub port: u16,
    pub username: String,
    pub password: String,
    pub width: u16,
    pub height: u16,
}

impl Clone for RdpConfig {
    fn clone(&self) -> (r: Self)
        ensures
            r == *self,
    {
        RdpConfig {
            connection_id: self.connection_id,
            hostname: self.hostname.clone(),
            port: self.port,
            username: self.username.clone(),
            password: self.password.clone(),
            width: self.width,
            height: self.height,
        }
    }
}

/// What the user is shown of one embedded session.
#[derive(Debug)]
pub struct SessionInfo {
    pub session_id: u32,
    pub connection_id: i64,
    pub hostname: String,
    pub status: String,
    pub width: u16,
    pub height: u16,
}

impl Clone for SessionInfo {
    fn clone(&self) -> (r: Self)
        ensures
            r == *self,
    {
        SessionInfo {
            session_id: self.session_id,
            connection_id: self.connection_id,
            hostname: self.hostname.clone(),
            status: self.status.clone(),
            width: self.width,
            height: self.height,
        }
    }
}

/// `info` shows the session `id` opened with `config`.
pub open spec fn describes(info: SessionInfo, id: u32, config: RdpConfig) -> bool {
    &&& info.session_id == id
    &&& info.connection_id == config.connection_id
    &&& info.hostname@ == config.hostname@
    &&& info.status@ == "connected"@
    &&& info.width == config.width
    &&& info.height == config.height
}

/// The embedded sessions that are open.
pub struct SessionManager {
    table: SessionRegistry<SessionInfo>,
}

impl SessionManager {
    /// The open sessions, by id.
    pub closed spec fn sessions(&self) -> Map<u32, SessionInfo> {
        self.table.sessions()
    }

    /// The id that the next opened session receives.
    pub closed spec fn next_id(&self) -> nat {
        self.table.next_id()
    }

    /// Every session id lies in `1..next_id`, the counter fits a `u32`, and
    /// each session is filed under its own id.
    pub open spec fn wf(&self) -> bool {
        &&& 1 <= self.next_id() <= u32::MAX
        &&& ids_below(self.sessions(), self.next_id())
        &&& forall|k: u32| #[trigger]
            self.sessions().contains_key(k) ==> self.sessions()[k].session_id == k
    }

    /// A manager with no sessions, whose first session id is 1.
    pub fn new() -> (r: Self)
        ensures
            r.wf(),
            r.sessions() == Map::<u32, SessionInfo>::empty(),
            r.next_id() == 1,
    {
        SessionManager { table: SessionRegistry::new() }
    }

    /// The id that the next opened session receives.
    pub fn next_session_id(&self) -> (r: u32)
        requires
            self.wf(),
        ensures
            r as nat == self.next_id(),
    {
        self.table.next_session_id()
    }

    /// Files a new session for `config`, and returns what it shows and the
    /// screen it starts with: `width * height` blank pixels.
    pub fn open(&mut self, config: RdpConfig) -> (r: Result<(SessionInfo, Vec<u32>), String>)
        requires
            old(self).wf(),
            old(self).next_id() < u32::MAX,
        ensures
            final(self).wf(),
            r matches Ok((info, screen)) && {
                &&& screen@.len() == config.width * config.height
                &&& forall|i: int| 0 <= i < screen@.len() ==> screen@[i] == BLANK_PIXEL
                &&& info.session_id as nat == old(self).next_id()
                &&& describes(info, info.session_id, config)
                &&& !old(self).sessions().contains_key(info.session_id)
                &&& final(self).sessions() == old(self).sessions().insert(info.session_id, info)
            },
            final(self).next_id() == old(self).next_id() + 1,
    {
        let session_id = self.table.next_session_id();
        let screen = blank_framebuffer(config.width, config.height);
        let info = SessionInfo {
            session_id,
            connection_id: config.connection_id,
            hostname: config.hostname,
            status: String::from_str("connected"),
            width: config.width,
            height: config.height,
        };
        let filed = self.table.open(info.clone());
        assert(filed == session_id);
        Ok((info, screen))
    }

    /// Forgets the session `session_id`; fails when there is none.
    pub fn close(&mut self, session_id: u32) -> (r: Result<(), String>)
        requires
            old(self).wf(),
        ensures
            final(self).wf(),
            final(self).sessions() == old(self).sessions().remove(session_id),
            final(self).next_id() == old(self).next_id(),
            r is Ok <==> old(self).sessions().contains_key(session_id),
            r matches Err(msg) ==> msg@ == "Session not found"@,
    {
        match self.table.remove(session_id) {
            Some(_) => Ok(()),
            None => Err(String::from_str("Session not found")),
        }
    }

    /// What the session `session_id` shows; fails when there is none.
    pub fn session(&self, session_id: u32) -> (r: Result<SessionInfo, String>)
        requires
            self.wf(),
        ensures
            match r {
                Ok(info) => self.sessions().contains_key(session_id) && info == self.sessions()[session_id],
                Err(msg) => !self.sessions().contains_key(session_id) && msg@ == "Session not found"@,
            },
    {
        match self.table.get(session_id) {
            Some(info) => Ok(info.clone()),
            None => Err(String::from_str("Session not found")),
        }
    }

    /// The open sessions, each once, in no particular order.
    pub fn list_active(&self) -> (r: Vec<SessionInfo>)
        requires
            self.wf(),
        ensures
            r@.len() == self.sessions().dom().len(),
            forall|i: int|
                0 <= i < r@.len() ==> self.sessions().contains_key(#[trigger] r@[i].session_id)
                    && r@[i] == self.sessions()[r@[i].session_id],
            forall|i: int, j: int|
                0 <= i < r@.len() && 0 <= j < r@.len() && i != j ==> r@[i].session_id
                    != r@[j].session_id,
            forall|id: u32|
                #[trigger] self.sessions().contains_key(id) ==> exists|i: int|
                    0 <= i < r@.len() && r@[i].session_id == id,
    {
        let ids = self.table.ids();
        let mut out: Vec<SessionInfo> = Vec::new();
        let mut i: usize = 0;
        while i < ids.len()
            invariant
                self.wf(),
                i <= ids@.len(),
                ids@.no_duplicates(),
                forall|id: u32| self.sessions().contains_key(id) <==> ids@.contains(id),
                out@.len() == i,
                forall|j: int| 0 <= j < i ==> self.sessions().contains_key(#[trigger] ids@[j]),
                forall|j: int| 0 <= j < i ==> #[trigger] out@[j] == self.sessions()[ids@[j]],
            decreases ids@.len() - i,
        {
            let id = ids[i];
            let ghost old_out = out@;
            proof {
                assert(ids@.contains(id));
            }
            match self.table.get(id) {
                Some(info) => {
                    out.push(info.clone());
                },
                None => {
                    assert(false);
                },
            }
            proof {
                assert forall|j: int| 0 <= j < i + 1 implies #[trigger] out@[j]
                    == self.sessions()[ids@[j]] by {
                    if j < i {
                        assert(out@[j] == old_out[j]);
                    }
                }
            }
            i = i + 1;
        }
        proof {
            assert forall|j: int| 0 <= j < out@.len() implies #[trigger] out@[j].session_id
                == ids@[j] by {
                assert(self.sessions().contains_key(ids@[j]));
            }
            assert forall|id: u32| #[trigger] self.sessions().contains_key(id) implies exists|
                i: int,
            | 0 <= i < out@.len() && out@[i].session_id == id by {
                assert(ids@.contains(id));
                let i = ids@.index_of(id);
                assert(out@[i].session_id == id);
            }
            assert forall|i: int| 0 <= i < out@.len() implies self.sessions().contains_key(
                #[trigger] out@[i].session_id,
            ) by {
                assert(out@[i].session_id == ids@[i]);
            }
        }
        out
    }
}

/// Closing the session that `open` has just filed gives back the sessions as
/// they were before, and a second close of it finds nothing.
pub proof fn lemma_open_then_close(
    before: SessionManager,
    opened: SessionManager,
    closed: SessionManager,
    info: SessionInfo,
)
    requires
        before.wf(),
        before.next_id() < u32::MAX,
        opened.sessions() == before.sessions().insert(before.next_id() as u32, info),
        closed.sessions() == opened.sessions().remove(before.next_id() as u32),
    ensures
        closed.sessions() == before.sessions(),
        !closed.sessions().contains_key(before.next_id() as u32),
{
    crate::registry::lemma_close_undoes_open(before.sessions(), before.next_id(), info);
}

/// A user input event from the viewer.
#[derive(Debug)]
pub struct InputEvent {
    /// One of `mouse_move`, `mouse_down`, `mouse_up`, `key_down`, `key_up`.
    pub event_type: String,
    pub x: u16,
    pub y: u16,
    /// 1 is the left button, 2 the right one, 3 the middle one.
    pub button: u8,
    pub key_code: u16,
    pub is_down: bool,
}

/// Pointer flag: the pointer moved.
pub const POINTER_MOVE: u16 = 0x0800;

/// Pointer flag: the left button.
pub const POINTER_LEFT_BUTTON: u16 = 0x1000;

/// Pointer flag: the right button.
pub const POINTER_RIGHT_BUTTON: u16 = 0x2000;

/// Pointer flag: the middle button.
pub const POINTER_MIDDLE_BUTTON: u16 = 0x4000;

/// Pointer flag: the button went down.
pub const POINTER_DOWN: u16 = 0x8000;

/// Keyboard flag: the key was released.
pub const KEYBOARD_RELEASE: u8 = 0x01;

/// One RDP fast-path input event, with its flags as the protocol encodes them.
#[derive(Clone, Copy, Debug, PartialEq, Eq, Structural)]
pub enum FastPathInput {
    Mouse { pointer_flags: u16, wheel_rotation_units: i16, x: u16, y: u16 },
    Keyboard { key_flags: u8, key_code: u8 },
}

/// The pointer flag of a button number.
pub open spec fn button_flag(button: u8) -> Option<u16> {
    if button == 1 {
        Some(POINTER_LEFT_BUTTON)
    } else if button == 2 {
        Some(POINTER_RIGHT_BUTTON)
    } else if button == 3 {
        Some(POINTER_MIDDLE_BUTTON)
    } else {
        None
    }
}

/// A mouse event at the event's position.
pub open spec fn mouse_at(flags: u16, event: InputEvent) -> FastPathInput {
    FastPathInput::Mouse { pointer_flags: flags, wheel_rotation_units: 0, x: event.x, y: event.y }
}

/// The fast-path events that `event` stands for, or `None` for an event
/// type or button that has none.
pub open spec fn encoded_input(event: InputEvent) -> Option<Seq<FastPathInput>> {
    let kind = event.event_type@;
    if kind == "mouse_move"@ {
        Some(seq![mouse_at(POINTER_MOVE, event)])
    } else if kind == "mouse_down"@ {
        match button_flag(event.button) {
            Some(b) => Some(seq![mouse_at(POINTER_DOWN | b, event)]),
            None => None,
        }
    } else if kind == "mouse_up"@ {
        match button_flag(event.button) {
            Some(b) => Some(seq![mouse_at(b, event)]),
            None => None,
        }
    } else if kind == "key_down"@ || kind == "key_up"@ {
        Some(
            seq![
                FastPathInput::Keyboard {
                    key_flags: if event.is_down {
                        0
                    } else {
                        KEYBOARD_RELEASE
                    },
                    key_code: (event.key_code % 256) as u8,
                },
            ],
        )
    } else {
        None
    }
}

fn is_text(s: &String, text: &str) -> (b: bool)
    ensures
        b == (s@ == text@),
{
    let other = String::from_str(text);
    *s == other
}

/// The bits of ironrdp-pdu's `PointerFlags::MOVE`, which its source defines
/// as 0x0800.
#[verifier::external_body]
fn pointer_move_bits() -> (r: u16)
    ensures
        r == POINTER_MOVE,
{
    PointerFlags::MOVE.bits()
}

/// The bits of ironrdp-pdu's `PointerFlags::LEFT_BUTTON`, which its source
/// defines as 0x1000.
#[verifier::external_body]
fn pointer_left_button_bits() -> (r: u16)
    ensures
        r == POINTER_LEFT_BUTTON,
{
    PointerFlags::LEFT_BUTTON.bits()
}

/// The bits of ironrdp-pdu's `PointerFlags::RIGHT_BUTTON`, which its source
/// defines as 0x2000.
#[verifier::external_body]
fn pointer_right_button_bits() -> (r: u16)
    ensures
        r == POINTER_RIGHT_BUTTON,
{
    PointerFlags::RIGHT_BUTTON.bits()
}

/// The bits of ironrdp-pdu's `PointerFlags::MIDDLE_BUTTON_OR_WHEEL`, which its
/// source defines as 0x4000.
#[verifier::external_body]
fn pointer_middle_button_bits() -> (r: u16)
    ensures
        r == POINTER_MIDDLE_BUTTON,
{
    PointerFlags::MIDDLE_BUTTON_OR_WHEEL.bits()
}

/// The bits of ironrdp-pdu's `PointerFlags::DOWN`, which its source defines
/// as 0x8000.
#[verifier::external_body]
fn pointer_down_bits() -> (r: u16)
    ensures
        r == POINTER_DOWN,
{
    PointerFlags::DOWN.bits()
}

/// The bits of ironrdp-pdu's fast-path `KeyboardFlags::RELEASE`, which its
/// source defines as 0x01.
#[verifier::external_body]
fn keyboard_release_bits() -> (r: u8)
    ensures
        r == KEYBOARD_RELEASE,
{
    KeyboardFlags::RELEASE.bits()
}

fn button_flag_of(button: u8) -> (r: Option<u16>)
    ensures
        r == button_flag(button),
{
    if button == 1 {
        Some(pointer_left_button_bits())
    } else if button == 2 {
        Some(pointer_right_button_bits())
    } else if button == 3 {
        Some(pointer_middle_button_bits())
    } else {
        None
    }
}

/// Encodes a viewer input event as RDP fast-path input events.
pub fn encode_input_event(event: &InputEvent) -> (r: Option<Vec<FastPathInput>>)
    ensures
        match r {
            Some(v) => encoded_input(*event) == Some(v@),
            None => encoded_input(*event) is None,
        },
{
    let mut events: Vec<FastPathInput> = Vec::new();
    if is_text(&event.event_type, "mouse_move") {
        events.push(
            FastPathInput::Mouse {
                pointer_flags: pointer_move_bits(),
                wheel_rotation_units: 0,
                x: event.x,
                y: event.y,
            },
        );
    } else if is_text(&event.event_type, "mouse_down") {
        let flags = match button_flag_of(event.button) {
            Some(b) => pointer_down_bits() | b,
            None => {
                return None;
            },
        };
        events.push(FastPathInput::Mouse { pointer_flags: flags, wheel_rotation_units: 0, x: event.x, y: event.y });
    } else if is_text(&event.event_type, "mouse_up") {
        let flags = match button_flag_of(event.button) {
            Some(b) => b,
            None => {
                return None;
            },
        };
        events.push(FastPathInput::Mouse { pointer_flags: flags, wheel_rotation_units: 0, x: event.x, y: event.y });
    } else if is_text(&event.event_type, "key_down") || is_text(&event.event_type, "key_up") {
        let flags: u8 = if event.is_down {
            0
        } else {
            keyboard_release_bits()
        };
        let code: u16 = event.key_code;
        let key_code: u8 = #[verifier::truncate] (code as u8);
        assert(key_code == (code % 256) as u8) by (bit_vector)
            requires
                key_code == #[verifier::truncate] (code as u8),
        ;
        events.push(FastPathInput::Keyboard { key_flags: flags, key_code });
    } else {
        return None;
    }
    proof {
        assert(encoded_input(*event) == Some(events@));
    }
    Some(events)
}

/// How long one read waits for the server, in milliseconds.
pub const READ_TIMEOUT_MILLIS: u64 = 50;

/// How long the loop pauses after a read that found nothing, in milliseconds.
pub const IDLE_DELAY_MILLIS: u64 = 16;

/// How many times a dropped connection is retried before the session gives up.
pub const MAX_RECONNECT_ATTEMPTS: u32 = 10;

/// The longest wait before a reconnection attempt, in seconds.
pub const MAX_RECONNECT_DELAY_SECS: u64 = 30;

/// The state of the link to the server.
#[derive(Clone, Copy, Debug, PartialEq, Eq, Structural)]
pub enum LinkState {
    /// The first connection is being made.
    Connecting,
    /// The session is up.
    Connected,
    /// The connection dropped; `retries` attempts to restore it were scheduled
    /// so far, the last of them being under way.
    Reconnecting { retries: u32 },
}

/// What happened in one turn of the loop that drives a connection.
#[derive(Clone, Copy, Debug, PartialEq, Eq, Structural)]
pub enum LoopEvent {
    /// The session was asked to stop.
    StopRequested,
    /// A connection to the server was established.
    Connected,
    /// An attempt to connect to the server failed.
    ConnectFailed,
    /// The read timed out with nothing received.
    ReadTimedOut,
    /// The read would have blocked with nothing received.
    ReadWouldBlock,
    /// The read failed otherwise: the connection dropped.
    ReadFailed,
    /// A received frame could not be processed.
    ProcessFailed,
    /// Processing produced a frame to send back.
    ResponseFrame,
    /// Processing redrew a region of the screen.
    GraphicsUpdate,
    /// The server ended the session.
    Terminated,
    /// Processing produced anything else.
    OtherOutput,
}

/// What the loop does next.
#[derive(Clone, Copy, Debug, PartialEq, Eq, Structural)]
pub enum LoopAction {
    /// Send the frame to the server.
    SendFrame,
    /// Copy the redrawn region onto the screen.
    DrawUpdate,
    /// Pause, then go on.
    Idle { millis: u64 },
    /// Go on.
    Continue,
    /// Wait, then try to connect again.
    Reconnect { delay_secs: u64 },
    /// End the session.
    Stop,
}

/// Two to the power `k`.
pub open spec fn doubling(k: nat) -> nat
    decreases k,
{
    if k == 0 {
        1
    } else {
        2 * doubling((k - 1) as nat)
    }
}

/// The wait before reconnection attempt number `retry` (counted from 1):
/// one second, doubled for each earlier attempt, at most thirty seconds.
pub open spec fn reconnect_delay(retry: nat) -> nat {
    let d = doubling((retry - 1) as nat);
    if d < MAX_RECONNECT_DELAY_SECS {
        d
    } else {
        MAX_RECONNECT_DELAY_SECS as nat
    }
}

/// The decision of the loop: the next link state and what to do.
pub open spec fn loop_step(state: LinkState, event: LoopEvent) -> (LinkState, LoopAction) {
    match event {
        LoopEvent::StopRequested => (state, LoopAction::Stop),
        LoopEvent::Connected => (LinkState::Connected, LoopAction::Continue),
        LoopEvent::ConnectFailed => match state {
            LinkState::Reconnecting { retries } => if retries < MAX_RECONNECT_ATTEMPTS {
                (
                    LinkState::Reconnecting { retries: (retries + 1) as u32 },
                    LoopAction::Reconnect {
                        delay_secs: reconnect_delay((retries + 1) as nat) as u64,
                    },
                )
            } else {
                (state, LoopAction::Stop)
            },
            _ => (state, LoopAction::Stop),
        },
        LoopEvent::ReadFailed => match state {
            LinkState::Connected => (
                LinkState::Reconnecting { retries: 1 },
                LoopAction::Reconnect { delay_secs: reconnect_delay(1) as u64 },
            ),
            _ => (state, LoopAction::Stop),
        },
        LoopEvent::ReadTimedOut | LoopEvent::ReadWouldBlock => (
            state,
            LoopAction::Idle { millis: IDLE_DELAY_MILLIS },
        ),
        LoopEvent::ResponseFrame => (state, LoopAction::SendFrame),
        LoopEvent::GraphicsUpdate => (state, LoopAction::DrawUpdate),
        LoopEvent::OtherOutput => (state, LoopAction::Continue),
        LoopEvent::ProcessFailed | LoopEvent::Terminated => (state, LoopAction::Stop),
    }
}

proof fn lemma_doubling_grows(k: nat)
    requires
        k >= 5,
    ensures
        doubling(k) >= 32,
    decreases k,
{
    reveal_with_fuel(doubling, 6);
    if k > 5 {
        lemma_doubling_grows((k - 1) as nat);
    }
}

/// The wait before reconnection attempt number `retry`, in seconds.
pub fn reconnect_delay_secs(retry: u32) -> (r: u64)
    requires
        retry >= 1,
    ensures
        r == reconnect_delay(retry as nat),
{
    proof {
        reveal_with_fuel(doubling, 6);
        if retry >= 6 {
            lemma_doubling_grows((retry - 1) as nat);
        }
    }
    if retry == 1 {
        1
    } else if retry == 2 {
        2
    } else if retry == 3 {
        4
    } else if retry == 4 {
        8
    } else if retry == 5 {
        16
    } else {
        MAX_RECONNECT_DELAY_SECS
    }
}

/// Decides the next link state and what the loop that drives a connection
/// does after `event`.
pub fn next_step(state: LinkState, event: LoopEvent) -> (r: (LinkState, LoopAction))
    ensures
        r == loop_step(state, event),
{
    match event {
        LoopEvent::StopRequested => (state, LoopAction::Stop),
        LoopEvent::Connected => (LinkState::Connected, LoopAction::Continue),
        LoopEvent::ConnectFailed => match state {
            LinkState::Reconnecting { retries } => {
                if retries < MAX_RECONNECT_ATTEMPTS {
                    let next = retries + 1;
                    (
                        LinkState::Reconnecting { retries: next },
                        LoopAction::Reconnect { delay_secs: reconnect_delay_secs(next) },
                    )
                } else {
                    (state, LoopAction::Stop)
                }
            },
            _ => (state, LoopAction::Stop),
        },
        LoopEvent::ReadFailed => match state {
            LinkState::Connected => (
                LinkState::Reconnecting { retries: 1 },
                LoopAction::Reconnect { delay_secs: reconnect_delay_secs(1) },
            ),
            _ => (state, LoopAction::Stop),
        },
        LoopEvent::ReadTimedOut => (state, LoopAction::Idle { millis: IDLE_DELAY_MILLIS }),
        LoopEvent::ReadWouldBlock => (state, LoopAction::Idle { millis: IDLE_DELAY_MILLIS }),
        LoopEvent::ResponseFrame => (state, LoopAction::SendFrame),
        LoopEvent::GraphicsUpdate => (state, LoopAction::DrawUpdate),
        LoopEvent::OtherOutput => (state, LoopAction::Continue),
        LoopEvent::ProcessFailed => (state, LoopAction::Stop),
        LoopEvent::Terminated => (state, LoopAction::Stop),
    }
}

/// A dropped connection is retried after waits of 1, 2, 4, 8 and 16 seconds
/// and then of 30 seconds; ten attempts in all are made, and when the tenth
/// fails the session ends.
pub proof fn lemma_reconnect_schedule()
    ensures
        loop_step(LinkState::Connected, LoopEvent::ReadFailed) == (
            LinkState::Reconnecting { retries: 1 },
            LoopAction::Reconnect { delay_secs: 1 },
        ),
        reconnect_delay(1) == 1,
        reconnect_delay(2) == 2,
        reconnect_delay(3) == 4,
        reconnect_delay(4) == 8,
        reconnect_delay(5) == 16,
        forall|retry: nat| retry >= 6 ==> #[trigger] reconnect_delay(retry) == 30,
        forall|retries: u32|
            1 <= retries < MAX_RECONNECT_ATTEMPTS ==> #[trigger] loop_step(
                LinkState::Reconnecting { retries },
                LoopEvent::ConnectFailed,
            ) == (
                LinkState::Reconnecting { retries: (retries + 1) as u32 },
                LoopAction::Reconnect { delay_secs: reconnect_delay((retries + 1) as nat) as u64 },
            ),
        loop_step(
            LinkState::Reconnecting { retries: MAX_RECONNECT_ATTEMPTS },
            LoopEvent::ConnectFailed,
        ).1 == LoopAction::Stop,
        forall|state: LinkState, event: LoopEvent|
            #[trigger] loop_step(state, event).1 is Reconnect ==> 1 <= loop_step(state, event).1->delay_secs
                <= MAX_RECONNECT_DELAY_SECS,
{
    reveal_with_fuel(doubling, 6);
    assert forall|retry: nat| retry >= 6 implies #[trigger] reconnect_delay(retry) == 30 by {
        lemma_doubling_grows((retry - 1) as nat);
    }
    assert forall|state: LinkState, event: LoopEvent|
        #[trigger] loop_step(state, event).1 is Reconnect implies 1 <= loop_step(state, event).1->delay_secs
            <= MAX_RECONNECT_DELAY_SECS by {
        if let LinkState::Reconnecting { retries } = state {
            let r = (retries + 1) as nat;
            if r >= 6 {
                lemma_doubling_grows((r - 1) as nat);
            }
        }
    }
}

/// The pointer flags of the encoding of a mouse event of kind `kind` with
/// button `button`: 0x0800 for a move; for a press, 0x8000 together with
/// 0x1000, 0x2000 or 0x4000 for the left, right or middle button; for a
/// release, the button's flag alone.
pub open spec fn expected_pointer_flags(kind: Seq<char>, button: u8) -> u16 {
    if kind == "mouse_move"@ {
        0x0800
    } else if kind == "mouse_down"@ {
        if button == 1 {
            0x9000
        } else if button == 2 {
            0xA000
        } else {
            0xC000
        }
    } else if button == 1 {
        0x1000
    } else if button == 2 {
        0x2000
    } else {
        0x4000
    }
}

/// What an input event encodes to. Each encoded event is a single fast-path
/// event. Mouse events keep the pointer position unchanged and carry no wheel
/// rotation; a move always encodes, while a press or a release encodes
/// exactly when the button is 1, 2 or 3, with the flags above. Key events of
/// either kind carry the low eight bits of the key code, with the release flag
/// 0x01 set exactly when the key is not down. Any other event type has no
/// encoding.
pub proof fn lemma_input_encoding(event: InputEvent)
    ensures
        encoded_input(event) matches Some(v) ==> v.len() == 1,
        encoded_input(event) matches Some(v) ==> (v[0] is Mouse ==> {
            &&& v[0]->x == event.x
            &&& v[0]->y == event.y
            &&& v[0]->wheel_rotation_units == 0
            &&& v[0]->pointer_flags == expected_pointer_flags(event.event_type@, event.button)
        }),
        encoded_input(event) matches Some(v) ==> (v[0] is Keyboard ==> {
            &&& v[0]->key_code as int == event.key_code % 256
            &&& v[0]->key_flags == (if event.is_down {
                0u8
            } else {
                0x01u8
            })
        }),
        event.event_type@ == "mouse_move"@ ==> (encoded_input(event) matches Some(v) && v[0] is Mouse),
        event.event_type@ == "mouse_down"@ || event.event_type@ == "mouse_up"@ ==> {
            &&& (encoded_input(event) is Some <==> 1 <= event.button <= 3)
            &&& encoded_input(event) matches Some(v) ==> v[0] is Mouse
        },
        event.event_type@ == "key_down"@ || event.event_type@ == "key_up"@ ==> (encoded_input(
            event,
        ) matches Some(v) && v[0] is Keyboard),
        event.event_type@ != "mouse_move"@ && event.event_type@ != "mouse_down"@
            && event.event_type@ != "mouse_up"@ && event.event_type@ != "key_down"@
            && event.event_type@ != "key_up"@ ==> encoded_input(event) is None,
{
    reveal_strlit("mouse_move");
    reveal_strlit("mouse_down");
    reveal_strlit("mouse_up");
    reveal_strlit("key_down");
    reveal_strlit("key_up");
    assert("mouse_down"@[6] != "mouse_move"@[6]);
    assert("mouse_up"@[6] != "mouse_move"@[6]);
    assert("mouse_up"@[6] != "mouse_down"@[6]);
    assert("key_down"@[0] != "mouse_move"@[0]);
    assert("key_down"@[0] != "mouse_down"@[0]);
    assert("key_down"@[0] != "mouse_up"@[0]);
    assert("key_up"@[0] != "mouse_move"@[0]);
    assert("key_up"@[0] != "mouse_down"@[0]);
    assert("key_up"@[0] != "mouse_up"@[0]);
    assert(0x8000u16 | 0x1000u16 == 0x9000u16) by (bit_vector);
    assert(0x8000u16 | 0x2000u16 == 0xA000u16) by (bit_vector);
    assert(0x8000u16 | 0x4000u16 == 0xC000u16) by (bit_vector);
}

/// Whatever state the link is in, a successful connection brings it up and
/// the loop goes on; a stop request ends the session and changes nothing;
/// reads that found nothing pause the loop for the idle delay; processing
/// results are sent, drawn or passed over; a failed frame or a server that
/// ends the session stops it; a connection that drops while up starts a new
/// round of reconnection, whose first wait is one second, however many
/// attempts an earlier round made; a failed first connection ends the session.
pub proof fn lemma_loop_decisions()
    ensures
        forall|s: LinkState| #[trigger]
            loop_step(s, LoopEvent::Connected) == (LinkState::Connected, LoopAction::Continue),
        forall|s: LinkState| #[trigger]
            loop_step(s, LoopEvent::StopRequested) == (s, LoopAction::Stop),
        forall|s: LinkState| #[trigger]
            loop_step(s, LoopEvent::ReadTimedOut) == (s, LoopAction::Idle { millis: 16 }),
        forall|s: LinkState| #[trigger]
            loop_step(s, LoopEvent::ReadWouldBlock) == (s, LoopAction::Idle { millis: 16 }),
        forall|s: LinkState| #[trigger]
            loop_step(s, LoopEvent::ResponseFrame) == (s, LoopAction::SendFrame),
        forall|s: LinkState| #[trigger]
            loop_step(s, LoopEvent::GraphicsUpdate) == (s, LoopAction::DrawUpdate),
        forall|s: LinkState| #[trigger]
            loop_step(s, LoopEvent::OtherOutput) == (s, LoopAction::Continue),
        forall|s: LinkState| #[trigger] loop_step(s, LoopEvent::ProcessFailed).1 == LoopAction::Stop,
        forall|s: LinkState| #[trigger] loop_step(s, LoopEvent::Terminated).1 == LoopAction::Stop,
        forall|s: LinkState|
            #[trigger] loop_step(loop_step(s, LoopEvent::Connected).0, LoopEvent::ReadFailed) == (
                LinkState::Reconnecting { retries: 1 },
                LoopAction::Reconnect { delay_secs: 1 },
            ),
        loop_step(LinkState::Connecting, LoopEvent::ConnectFailed).1 == LoopAction::Stop,
{
    reveal_with_fuel(doubling, 2);
}

} // verus!
