//! Records of the connection store: saved connection profiles and the
//! session history, and lookups over listed profiles.

use vstd::prelude::*;

verus! {

/// A saved RDP connection.
#[derive(Debug)]
pub struct ConnectionProfile {
    pub id: i64,
    pub display_name: String,
    pub hostname: String,
    pub port: i32,
    pub username: String,
    pub password: String,
}

impl Clone for ConnectionProfile {
    fn clone(&self) -> (r: Self)
        ensures
            r == *self,
    {
        ConnectionProfile {
            id: self.id,
            display_name: self.display_name.clone(),
            hostname: self.hostname.clone(),
            port: self.port,
            username: self.username.clone(),
            password: self.password.clone(),
        }
    }
}

/// One entry of the session history.
#[derive(Debug)]
pub struct SessionLog {
    pub id: i64,
    pub connection_id: i64,
    pub hostname: String,
    pub username: String,
    pub connected_at: String,
    pub disconnected_at: Option<String>,
    pub duration_sec: Option<i64>,
    pub status: String,
}

impl Clone for SessionLog {
    fn clone(&self) -> (r: Self)
        ensures
            r == *self,
    {
        SessionLog {
            id: self.id,
            connection_id: self.connection_id,
            hostname: self.hostname.clone(),
            username: self.username.clone(),
            connected_at: self.connected_at.clone(),
            disconnected_at: match &self.disconnected_at {
                Some(s) => Some(s.clone()),
                None => None,
            },
            duration_sec: self.duration_sec,
            status: self.status.clone(),
        }
    }
}

/// Finds the first profile with the given id.
pub fn find_connection(profiles: &Vec<ConnectionProfile>, id: i64) -> (r: Option<&ConnectionProfile>)
    ensures
        match r {
            Some(p) => exists|i: int|
                0 <= i < profiles@.len() && profiles@[i] == *p && p.id == id && forall|j: int|
                    0 <= j < i ==> profiles@[j].id != id,
            None => forall|i: int| 0 <= i < profiles@.len() ==> profiles@[i].id != id,
        },
{
    let mut i: usize = 0;
    while i < profiles.len()
        invariant
            i <= profiles@.len(),
            forall|j: int| 0 <= j < i ==> profiles@[j].id != id,
        decreases profiles@.len() - i,
    {
        if profiles[i].id == id {
            return Some(&profiles[i]);
        }
        i = i + 1;
    }
    None
}

/// The outcome recorded for a session in its history entry.
#[derive(Clone, Copy, Debug, PartialEq, Eq, Structural)]
pub enum SessionStatus {
    Connected,
    Disconnected,
    Error,
    Reconnecting,
}

/// The text stored for a status; the store accepts these four texts only.
pub open spec fn status_text(status: SessionStatus) -> Seq<char> {
    match status {
        SessionStatus::Connected => "connected"@,
        SessionStatus::Disconnected => "disconnected"@,
        SessionStatus::Error => "error"@,
        SessionStatus::Reconnecting => "reconnecting"@,
    }
}

impl SessionStatus {
    /// The text stored for this status.
    pub fn as_text(&self) -> (r: String)
        ensures
            r@ == status_text(*self),
    {
        match self {
            SessionStatus::Connected => String::from_str("connected"),
            SessionStatus::Disconnected => String::from_str("disconnected"),
            SessionStatus::Error => String::from_str("error"),
            SessionStatus::Reconnecting => String::from_str("reconnecting"),
        }
    }
}

/// The status stored as `text`, or `None` for a text the store refuses.
pub fn parse_status(text: &str) -> (r: Option<SessionStatus>)
    ensures
        match r {
            Some(status) => status_text(status) == text@,
            None => forall|status: SessionStatus| status_text(status) != text@,
        },
{
    let t = String::from_str(text);
    if t == String::from_str("connected") {
        Some(SessionStatus::Connected)
    } else if t == String::from_str("disconnected") {
        Some(SessionStatus::Disconnected)
    } else if t == String::from_str("error") {
        Some(SessionStatus::Error)
    } else if t == String::from_str("reconnecting") {
        Some(SessionStatus::Reconnecting)
    } else {
        None
    }
}

/// The status that finishes the history entry of a session: an attempt
/// that did not open a session is an error, a session that ended is
/// disconnected.
pub fn closing_status(opened: bool) -> (r: SessionStatus)
    ensures
        r == (if opened {
            SessionStatus::Disconnected
        } else {
            SessionStatus::Error
        }),
{
    if opened {
        SessionStatus::Disconnected
    } else {
        SessionStatus::Error
    }
}

} // verus!
