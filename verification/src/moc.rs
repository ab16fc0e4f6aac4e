//! Ground-side state: the per-handler panels of the operations console,
//! the messages its network thread reports to the user interface, and
//! the client builder. Rendering and sockets live at the process edge;
//! this module owns every state change they trigger.

use vstd::prelude::*;
use crate::types::{DHType, Statistics};

verus! {

/// Default timeout for command responses, in milliseconds.
pub const DEFAULT_TIMEOUT_MS: u64 = 5000;

/// Message from the network thread to the user interface.
#[derive(Debug)]
pub enum UiMessage {
    Connected,
    Disconnected(String),
    PingResponse(String),
    DHStarted(u32, bool, String),
    DHStopped(u32, bool, String),
    DHStats(u32, Statistics),
    ConfigResponse(bool, String),
    Error(String),
}

/// State of a handler panel.
#[derive(Debug, Clone, Copy, PartialEq, Eq, Structural)]
pub enum DHPanelState {
    /// Not started
    Idle,
    /// Started and active
    Active,
    /// Stopped
    Stopped,
}

/// One data handler panel: what the console shows for a handler.
#[derive(Debug)]
pub struct DHPanel {
    /// Data handler id
    pub id: u32,
    /// Current state
    pub state: DHPanelState,
    /// Handler type selection
    pub dh_type: DHType,
    /// Configuration name
    pub config_name: String,
    /// Status message
    pub status: String,
    /// Last statistics received
    pub stats: Option<Statistics>,
}

impl DHPanel {
    /// A fresh panel: idle, with a stock configuration per panel id.
    /// The console creates eight panels; the third is a device panel,
    /// the rest are network panels.
    pub fn new(id: u32) -> (r: Self)
        ensures
            r.id == id,
            r.state == DHPanelState::Idle,
            r.dh_type == (if id == 2 {
                DHType::Device
            } else {
                DHType::Network
            }),
            r.stats is None,
    {
        let default_config = match id {
            0 => String::from_str("localhost:5000:tcp"),
            1 => String::from_str("localhost:5001:udp"),
            2 => String::from_str("/dev/urandom"),
            3 => String::from_str("localhost:5003:udp"),
            4 => String::from_str("localhost:5004"),
            5 => String::from_str("localhost:5005"),
            6 => String::from_str("localhost:5006"),
            7 => String::from_str("localhost:5007"),
            _ => String::from_str("localhost:5000"),
        };
        let default_type = if id == 2 {
            DHType::Device
        } else {
            DHType::Network
        };
        Self {
            id,
            state: DHPanelState::Idle,
            dh_type: default_type,
            config_name: default_config,
            status: String::from_str("Idle"),
            stats: None,
        }
    }

    pub fn set_started(&mut self)
        ensures
            *final(self) == (DHPanel { state: DHPanelState::Active, ..*old(self) }),
    {
        self.state = DHPanelState::Active;
    }

    pub fn set_stopped(&mut self)
        ensures
            *final(self) == (DHPanel { state: DHPanelState::Stopped, ..*old(self) }),
    {
        self.state = DHPanelState::Stopped;
    }

    pub fn set_status(&mut self, status: String)
        ensures
            *final(self) == (DHPanel { status, ..*old(self) }),
    {
        self.status = status;
    }

    pub fn update_stats(&mut self, stats: Statistics)
        ensures
            *final(self) == (DHPanel { stats: Some(stats), ..*old(self) }),
    {
        self.stats = Some(stats);
    }
}

/// Console state the messages act on: the connection flag, the status
/// line, and one panel per handler.
pub struct MocState {
    /// Whether the client connection is up
    pub connected: bool,
    /// The status line
    pub status_message: String,
    /// One panel per data handler
    pub dh_panels: Vec<DHPanel>,
}

impl MocState {
    /// Apply one message from the network thread: connection changes
    /// flip the flag and the status line, handler replies update the
    /// matching panel, and a message for an unknown panel id changes
    /// nothing there.
    pub fn apply_ui_message(&mut self, msg: UiMessage)
        ensures
            final(self).dh_panels@.len() == old(self).dh_panels@.len(),
            msg is Connected ==> final(self).connected && final(self).dh_panels@ == old(
                self,
            ).dh_panels@,
            msg is Disconnected ==> !final(self).connected && final(self).dh_panels@ == old(
                self,
            ).dh_panels@,
            msg matches UiMessage::PingResponse(m) ==> final(self).connected == old(self).connected
                && final(self).status_message == m && final(self).dh_panels@ == old(
                self,
            ).dh_panels@,
            msg matches UiMessage::DHStarted(id, success, m) ==> final(self).connected == old(
                self,
            ).connected && (id < old(self).dh_panels@.len() ==> final(self).dh_panels@ == old(
                self,
            ).dh_panels@.update(
                id as int,
                DHPanel {
                    state: if success {
                        DHPanelState::Active
                    } else {
                        old(self).dh_panels@[id as int].state
                    },
                    status: m,
                    ..old(self).dh_panels@[id as int]
                },
            )),
            msg matches UiMessage::DHStopped(id, success, m) ==> final(self).connected == old(
                self,
            ).connected && (id < old(self).dh_panels@.len() ==> final(self).dh_panels@ == old(
                self,
            ).dh_panels@.update(
                id as int,
                DHPanel {
                    state: if success {
                        DHPanelState::Stopped
                    } else {
                        old(self).dh_panels@[id as int].state
                    },
                    status: m,
                    ..old(self).dh_panels@[id as int]
                },
            )),
            msg matches UiMessage::DHStats(id, stats) ==> final(self).connected == old(
                self,
            ).connected && (id < old(self).dh_panels@.len() ==> final(self).dh_panels@ == old(
                self,
            ).dh_panels@.update(
                id as int,
                DHPanel { stats: Some(stats), ..old(self).dh_panels@[id as int] },
            )),
    {
        match msg {
            UiMessage::Connected => {
                self.connected = true;
                self.status_message = String::from_str("Connected");
            },
            UiMessage::Disconnected(reason) => {
                self.connected = false;
                self.status_message = reason;
            },
            UiMessage::PingResponse(m) => {
                self.status_message = m;
            },
            UiMessage::DHStarted(id, success, m) => {
                if (id as usize) < self.dh_panels.len() {
                    let panel = vstd::std_specs::vec::vec_index_mut(
                        &mut self.dh_panels,
                        id as usize,
                    );
                    if success {
                        panel.set_started();
                    }
                    panel.set_status(m);
                    proof {
                        assert(final(self).dh_panels@ =~= old(self).dh_panels@.update(
                            id as int,
                            final(self).dh_panels@[id as int],
                        ));
                    }
                }
            },
            UiMessage::DHStopped(id, success, m) => {
                if (id as usize) < self.dh_panels.len() {
                    let panel = vstd::std_specs::vec::vec_index_mut(
                        &mut self.dh_panels,
                        id as usize,
                    );
                    if success {
                        panel.set_stopped();
                    }
                    panel.set_status(m);
                    proof {
                        assert(final(self).dh_panels@ =~= old(self).dh_panels@.update(
                            id as int,
                            final(self).dh_panels@[id as int],
                        ));
                    }
                }
            },
            UiMessage::DHStats(id, stats) => {
                if (id as usize) < self.dh_panels.len() {
                    let panel = vstd::std_specs::vec::vec_index_mut(
                        &mut self.dh_panels,
                        id as usize,
                    );
                    panel.update_stats(stats);
                    proof {
                        assert(final(self).dh_panels@ =~= old(self).dh_panels@.update(
                            id as int,
                            final(self).dh_panels@[id as int],
                        ));
                    }
                }
            },
            UiMessage::ConfigResponse(_, m) => {
                self.status_message = m;
            },
            UiMessage::Error(m) => {
                self.status_message = m;
            },
        }
    }
}

/// Builder for the ground client: collects settings before the
/// connection is opened at the process edge.
#[derive(Debug, Clone, Copy, PartialEq, Eq, Structural)]
pub struct TcsClientBuilder {
    /// Command response timeout in milliseconds
    pub timeout_ms: u64,
}

impl TcsClientBuilder {
    pub fn new() -> (r: Self)
        ensures
            r.timeout_ms == DEFAULT_TIMEOUT_MS,
    {
        Self { timeout_ms: DEFAULT_TIMEOUT_MS }
    }

    /// Replace the timeout.
    pub fn timeout(self, timeout_ms: u64) -> (r: Self)
        ensures
            r.timeout_ms == timeout_ms,
    {
        Self { timeout_ms }
    }
}

impl Default for TcsClientBuilder {
    fn default() -> (r: Self)
        ensures
            r.timeout_ms == DEFAULT_TIMEOUT_MS,
    {
        Self::new()
    }
}

/// The sequence counter of a client: each command takes the current
/// value and the counter steps, wrapping at the top.
pub fn next_sequence(counter: &mut u32) -> (r: u32)
    ensures
        r == *old(counter),
        *final(counter) == (if *old(counter) == u32::MAX {
            0u32
        } else {
            (*old(counter) + 1) as u32
        }),
{
    let r = *counter;
    *counter = counter.wrapping_add(1);
    r
}

} // verus!
