//! Data handlers and their registry.
//!
//! A data handler bridges one payload endpoint with the operations
//! center. This module owns its lifecycle — created, active, stopped —
//! and its statistics; the sockets, pipes and relay threads that carry
//! the bytes live at the process edge and report back through
//! `absorb_relay_stats`.

use vstd::prelude::*;
use crate::config::DHConfig;
use crate::endpoint::{parse_network_name, spec_parse_network, EndpointSpec};
use crate::error::{TcsError, TcsResult};
use crate::types::{sat_add, DHId, DHName, DHType, ErrorCode, Statistics};

verus! {

/// State of a data handler. The only transitions are `Created` to
/// `Active` (activate), `Active` to `Stopped` (stop) and `Created` to
/// `Stopped` (stop before activate).
#[derive(Debug, Clone, Copy, PartialEq, Eq, Structural)]
pub enum DHState {
    /// Created but not yet activated
    Created,
    /// Active and relaying data
    Active,
    /// Stopped
    Stopped,
}

/// Parsing a network name fails when the grammar rejects it, or when
/// the host part is not self-contained UTF-8.
pub open spec fn spec_network_parse_fails(name: DHName, is_stream: bool) -> bool {
    let s = vstd::utf8::encode_utf8(name.0@);
    spec_parse_network(s, is_stream) is None || !vstd::utf8::valid_utf8(
        s.subrange(0, spec_parse_network(s, is_stream)->Some_0.0),
    )
}

/// One data handler: identity, configuration, lifecycle state and the
/// statistics gathered from its two relays.
pub struct DataHandler {
    /// Data handler id, unique in the registry
    pub id: DHId,
    /// Network or device payload
    pub dh_type: DHType,
    /// Payload name: `host:port[:proto]` or a device path
    pub name: DHName,
    /// Lifecycle state
    pub state: DHState,
    /// Buffer sizes and stream semantics
    pub config: DHConfig,
    /// Accumulated relay statistics
    pub stats: Statistics,
}

impl DataHandler {
    /// A freshly created handler for this id.
    pub open spec fn spec_new(id: DHId, dh_type: DHType, name: DHName, config: DHConfig) -> DataHandler {
        DataHandler {
            id,
            dh_type,
            name,
            state: DHState::Created,
            config,
            stats: Statistics {
                timestamp: None,
                bytes_received: 0,
                reads_completed: 0,
                reads_failed: 0,
                bytes_sent: 0,
                writes_completed: 0,
                writes_failed: 0,
            },
        }
    }

    /// Create a new data handler in the `Created` state.
    pub fn new(id: DHId, dh_type: DHType, name: DHName, config: DHConfig) -> (r: Self)
        ensures
            r == Self::spec_new(id, dh_type, name, config),
    {
        Self {
            id,
            dh_type,
            name,
            state: DHState::Created,
            config,
            stats: Statistics::new(),
        }
    }

    /// Get the data handler id.
    pub fn get_id(&self) -> (r: DHId)
        ensures
            r == self.id,
    {
        self.id
    }

    /// Get the current state.
    pub fn get_state(&self) -> (r: DHState)
        ensures
            r == self.state,
    {
        self.state
    }

    /// Where this handler's payload lives: the parsed network peer for a
    /// network handler, or the device path. Fails with a configuration
    /// error exactly when a network name does not parse.
    pub fn payload_endpoint(&self) -> (r: TcsResult<EndpointSpec>)
        ensures
            self.dh_type is Device ==> (r matches Ok(sp) && (sp matches EndpointSpec::Device {
                path,
            } && path@ == self.name.0@)),
            self.dh_type is Network ==> ((r matches Err(e) && e matches TcsError::Configuration(_))
                <==> spec_network_parse_fails(self.name, self.config.is_stream)),
            self.dh_type is Network ==> (r matches Ok(sp) ==> sp is Network),
            r is Err ==> (r matches Err(e) && e matches TcsError::Configuration(_)),
    {
        match self.dh_type {
            DHType::Device => Ok(EndpointSpec::Device { path: self.name.0.clone() }),
            DHType::Network => {
                match parse_network_name(&self.name, self.config.is_stream) {
                    Some(sp) => {
                        proof {
                            if let EndpointSpec::Network { host, .. } = &sp {
                                vstd::utf8::encode_utf8_valid_utf8(host@);
                            }
                        }
                        Ok(sp)
                    },
                    None => Err(
                        TcsError::configuration(
                            String::from_str("invalid network address format"),
                        ),
                    ),
                }
            },
        }
    }

    /// Activate the handler: check that it is freshly created and that
    /// its payload endpoint parses, then move to `Active`. The sockets
    /// themselves are opened by the process edge against
    /// `payload_endpoint()`. On failure nothing changes.
    pub fn activate(&mut self) -> (r: TcsResult<()>)
        ensures
            r is Ok ==> old(self).state is Created && *final(self) == (DataHandler {
                state: DHState::Active,
                ..*old(self)
            }),
            r is Err ==> *final(self) == *old(self),
            old(self).state !is Created ==> (r matches Err(e) && e
                matches TcsError::InvalidState(_)),
            old(self).state is Created && old(self).dh_type is Device ==> r is Ok,
            old(self).state is Created && old(self).dh_type is Network ==> (r is Ok
                <==> !spec_network_parse_fails(old(self).name, old(self).config.is_stream)),
            r is Err ==> (r matches Err(e) && (e matches TcsError::InvalidState(_) || e
                matches TcsError::Configuration(_))),
    {
        if !matches!(self.state, DHState::Created) {
            return Err(
                TcsError::invalid_state(String::from_str("handler must be created to activate")),
            );
        }
        match self.payload_endpoint() {
            Ok(_) => {
                self.state = DHState::Active;
                Ok(())
            },
            Err(e) => Err(e),
        }
    }

    /// Stop the handler. Idempotent: any state moves to `Stopped` and
    /// nothing else changes.
    pub fn stop(&mut self) -> (r: TcsResult<()>)
        ensures
            r is Ok,
            *final(self) == (DataHandler { state: DHState::Stopped, ..*old(self) }),
    {
        self.state = DHState::Stopped;
        Ok(())
    }

    /// Fold the final counters of the two relays into this handler:
    /// reads and received bytes come from the payload-to-ground relay,
    /// writes and sent bytes from the ground-to-payload relay.
    pub fn absorb_relay_stats(&mut self, g2p: &Statistics, p2g: &Statistics)
        ensures
            final(self).id == old(self).id,
            final(self).dh_type == old(self).dh_type,
            final(self).name == old(self).name,
            final(self).state == old(self).state,
            final(self).config == old(self).config,
            final(self).stats.timestamp == old(self).stats.timestamp,
            final(self).stats.bytes_received == sat_add(
                old(self).stats.bytes_received,
                p2g.bytes_received,
            ),
            final(self).stats.reads_completed == sat_add(
                old(self).stats.reads_completed,
                p2g.reads_completed,
            ),
            final(self).stats.reads_failed == sat_add(
                old(self).stats.reads_failed,
                p2g.reads_failed,
            ),
            final(self).stats.bytes_sent == sat_add(old(self).stats.bytes_sent, g2p.bytes_sent),
            final(self).stats.writes_completed == sat_add(
                old(self).stats.writes_completed,
                g2p.writes_completed,
            ),
            final(self).stats.writes_failed == sat_add(
                old(self).stats.writes_failed,
                g2p.writes_failed,
            ),
            final(self).stats.dominates(old(self).stats),
    {
        self.stats.bytes_received = self.stats.bytes_received.saturating_add(p2g.bytes_received);
        self.stats.reads_completed = self.stats.reads_completed.saturating_add(p2g.reads_completed);
        self.stats.reads_failed = self.stats.reads_failed.saturating_add(p2g.reads_failed);
        self.stats.bytes_sent = self.stats.bytes_sent.saturating_add(g2p.bytes_sent);
        self.stats.writes_completed = self.stats.writes_completed.saturating_add(
            g2p.writes_completed,
        );
        self.stats.writes_failed = self.stats.writes_failed.saturating_add(g2p.writes_failed);
    }

    /// Replace this handler's counters with the two relays' current
    /// totals: reads and received bytes from the payload-to-ground
    /// relay, writes and sent bytes from the ground-to-payload relay.
    /// Safe to repeat with fresh snapshots while the handler runs — the
    /// totals are running sums, so replacing never double-counts.
    pub fn set_relay_stats(&mut self, g2p: &Statistics, p2g: &Statistics)
        ensures
            final(self).id == old(self).id,
            final(self).dh_type == old(self).dh_type,
            final(self).name == old(self).name,
            final(self).state == old(self).state,
            final(self).config == old(self).config,
            final(self).stats.timestamp == old(self).stats.timestamp,
            final(self).stats.bytes_received == p2g.bytes_received,
            final(self).stats.reads_completed == p2g.reads_completed,
            final(self).stats.reads_failed == p2g.reads_failed,
            final(self).stats.bytes_sent == g2p.bytes_sent,
            final(self).stats.writes_completed == g2p.writes_completed,
            final(self).stats.writes_failed == g2p.writes_failed,
    {
        self.stats.bytes_received = p2g.bytes_received;
        self.stats.reads_completed = p2g.reads_completed;
        self.stats.reads_failed = p2g.reads_failed;
        self.stats.bytes_sent = g2p.bytes_sent;
        self.stats.writes_completed = g2p.writes_completed;
        self.stats.writes_failed = g2p.writes_failed;
    }

    /// A fresh statistics snapshot, stamped with the current time. Never
    /// blocks on the relays: the counters are the ones last absorbed.
    pub fn get_stats(&self) -> (r: Statistics)
        ensures
            r.counters() == self.stats.counters(),
            r.timestamp matches Some(t) && t.wf(),
    {
        self.stats.clone_counters().with_timestamp()
    }
}

impl Statistics {
    /// An explicit copy of the counters, without the timestamp.
    pub fn clone_counters(&self) -> (r: Statistics)
        ensures
            r.counters() == self.counters(),
            r.timestamp is None,
    {
        Statistics {
            timestamp: None,
            bytes_received: self.bytes_received,
            reads_completed: self.reads_completed,
            reads_failed: self.reads_failed,
            bytes_sent: self.bytes_sent,
            writes_completed: self.writes_completed,
            writes_failed: self.writes_failed,
        }
    }
}

/// True when some handler in the sequence carries this id.
pub open spec fn contains_id(s: Seq<DataHandler>, id: DHId) -> bool {
    exists|i: int| 0 <= i < s.len() && s[i].id == id
}

/// The index of the handler with this id.
pub open spec fn idx_of(s: Seq<DataHandler>, id: DHId) -> int {
    choose|i: int| 0 <= i < s.len() && s[i].id == id
}

/// No two handlers share an id.
pub open spec fn unique_ids(s: Seq<DataHandler>) -> bool {
    forall|i: int, j: int| 0 <= i < j < s.len() ==> s[i].id != s[j].id
}

/// Registry of data handlers, ordered by insertion and bounded by
/// `max_handlers`.
pub struct DHManager {
    handlers: Vec<DataHandler>,
    max_handlers: usize,
}

impl DHManager {
    /// The handlers, in insertion order.
    pub closed spec fn spec_handlers(self) -> Seq<DataHandler> {
        self.handlers@
    }

    /// The registry's capacity.
    pub closed spec fn spec_max(self) -> int {
        self.max_handlers as int
    }

    /// Ids are unique; the registry never exceeds its capacity.
    pub open spec fn wf(self) -> bool {
        unique_ids(self.spec_handlers()) && self.spec_handlers().len() <= self.spec_max()
    }

    /// Create a new registry with the given capacity.
    pub fn new(max_handlers: usize) -> (r: Self)
        ensures
            r.wf(),
            r.spec_handlers().len() == 0,
            r.spec_max() == max_handlers,
    {
        Self { handlers: Vec::new(), max_handlers }
    }

    /// How many handlers are registered.
    pub fn len(&self) -> (r: usize)
        ensures
            r == self.spec_handlers().len(),
    {
        self.handlers.len()
    }

    /// Find the position of a handler by id.
    fn find_index(&self, id: DHId) -> (r: Option<usize>)
        ensures
            r matches Some(i) ==> i < self.spec_handlers().len() && self.spec_handlers()[i as int].id
                == id,
            r is None ==> !contains_id(self.spec_handlers(), id),
    {
        let n = self.handlers.len();
        let mut i: usize = 0;
        while i < n
            invariant
                n == self.spec_handlers().len(),
                i <= n,
                forall|j: int| 0 <= j < i ==> self.spec_handlers()[j].id != id,
            decreases n - i,
        {
            if self.handlers[i].id.0 == id.0 {
                return Some(i);
            }
            i = i + 1;
        }
        None
    }

    /// Whether a handler with this id is registered.
    pub fn contains(&self, id: DHId) -> (r: bool)
        requires
            self.wf(),
        ensures
            r == contains_id(self.spec_handlers(), id),
    {
        match self.find_index(id) {
            Some(i) => {
                proof {
                    assert(contains_id(self.spec_handlers(), id));
                }
                true
            },
            None => false,
        }
    }

    /// The registry's capacity.
    pub fn capacity(&self) -> (r: usize)
        ensures
            r == self.spec_max(),
    {
        self.max_handlers
    }

    /// Create and register a new data handler. Fails with
    /// `DHAlreadyExists` when the id is present, and with
    /// `ResourceAllocationFailed` when the registry is full or when the
    /// process edge reports that the handler's cancellation pipe could
    /// not be allocated (`pipe_ok` false); in every failure nothing is
    /// registered, so a later retry starts clean.
    pub fn create_dh(
        &mut self,
        id: DHId,
        dh_type: DHType,
        name: DHName,
        config: DHConfig,
        pipe_ok: bool,
    ) -> (r: TcsResult<()>)
        requires
            old(self).wf(),
        ensures
            final(self).wf(),
            final(self).spec_max() == old(self).spec_max(),
            contains_id(old(self).spec_handlers(), id) ==> (r matches Err(e) && e
                matches TcsError::Command { code: ErrorCode::DHAlreadyExists, .. } && *final(self)
                == *old(self)),
            !contains_id(old(self).spec_handlers(), id) && old(self).spec_handlers().len() >= old(self).spec_max() ==> (r matches Err(e) && e matches TcsError::ResourceAllocation(_)
                && *final(self) == *old(self)),
            !contains_id(old(self).spec_handlers(), id) && old(self).spec_handlers().len() < old(self).spec_max() && !pipe_ok ==> (r matches Err(e) && e
                matches TcsError::ResourceAllocation(_) && *final(self) == *old(self)),
            !contains_id(old(self).spec_handlers(), id) && old(self).spec_handlers().len() < old(self).spec_max() && pipe_ok ==> (r is Ok && final(self).spec_handlers() == old(self).spec_handlers().push(DataHandler::spec_new(id, dh_type, name, config))),
            r is Ok ==> contains_id(final(self).spec_handlers(), id),
    {
        if let Some(_) = self.find_index(id) {
            return Err(
                TcsError::command(
                    ErrorCode::DHAlreadyExists,
                    String::from_str("handler id already exists"),
                ),
            );
        }
        if self.handlers.len() >= self.max_handlers {
            return Err(
                TcsError::resource_allocation(
                    String::from_str("maximum number of handlers reached"),
                ),
            );
        }
        if !pipe_ok {
            return Err(
                TcsError::resource_allocation(
                    String::from_str("cannot allocate the command pipe"),
                ),
            );
        }
        let dh = DataHandler::new(id, dh_type, name, config);
        self.handlers.push(dh);
        proof {
            let s = final(self).spec_handlers();
            assert forall|i: int, j: int| 0 <= i < j < s.len() implies s[i].id != s[j].id by {
                if j == s.len() - 1 {
                    assert(s[i] == old(self).spec_handlers()[i]);
                }
            }
            assert(s[s.len() - 1].id == id);
        }
        Ok(())
    }

    /// Activate a data handler: fails with `DHNotFound` when the id is
    /// absent, otherwise behaves as `DataHandler::activate` on it.
    pub fn activate_dh(&mut self, id: DHId) -> (r: TcsResult<()>)
        requires
            old(self).wf(),
        ensures
            final(self).wf(),
            final(self).spec_max() == old(self).spec_max(),
            !contains_id(old(self).spec_handlers(), id) ==> (r matches Err(e) && e
                matches TcsError::Command { code: ErrorCode::DHNotFound, .. } && *final(self)
                == *old(self)),
            contains_id(old(self).spec_handlers(), id) ==> ({
                let i = idx_of(old(self).spec_handlers(), id);
                let dh = old(self).spec_handlers()[i];
                &&& final(self).spec_handlers().len() == old(self).spec_handlers().len()
                &&& (forall|j: int|
                    0 <= j < old(self).spec_handlers().len() && j != i ==> final(self).spec_handlers()[j] == old(self).spec_handlers()[j])
                &&& (r is Ok ==> dh.state is Created && final(self).spec_handlers()[i]
                    == (DataHandler { state: DHState::Active, ..dh }))
                &&& (r is Err ==> final(self).spec_handlers()[i] == dh)
                &&& (dh.state !is Created ==> (r matches Err(e) && e
                    matches TcsError::InvalidState(_)))
                &&& (dh.state is Created && dh.dh_type is Device ==> r is Ok)
                &&& (dh.state is Created && dh.dh_type is Network ==> (r is Ok
                    <==> !spec_network_parse_fails(dh.name, dh.config.is_stream)))
            }),
    {
        let i = match self.find_index(id) {
            Some(i) => i,
            None => {
                return Err(
                    TcsError::command(
                        ErrorCode::DHNotFound,
                        String::from_str("handler not found"),
                    ),
                );
            },
        };
        proof {
            lemma_idx_of(self.spec_handlers(), id, i as int);
        }
        let dh = vstd::std_specs::vec::vec_index_mut(&mut self.handlers, i);
        let r = dh.activate();
        proof {
            assert(final(self).spec_handlers() =~= old(self).spec_handlers().update(
                i as int,
                final(self).spec_handlers()[i as int],
            ));
        }
        r
    }

    /// Stop a data handler. Fails with `DHNotFound` when the id is
    /// absent; otherwise the handler moves to `Stopped`, idempotently.
    pub fn stop_dh(&mut self, id: DHId) -> (r: TcsResult<()>)
        requires
            old(self).wf(),
        ensures
            final(self).wf(),
            final(self).spec_max() == old(self).spec_max(),
            !contains_id(old(self).spec_handlers(), id) ==> (r matches Err(e) && e
                matches TcsError::Command { code: ErrorCode::DHNotFound, .. } && *final(self)
                == *old(self)),
            contains_id(old(self).spec_handlers(), id) ==> ({
                let i = idx_of(old(self).spec_handlers(), id);
                let dh = old(self).spec_handlers()[i];
                &&& r is Ok
                &&& final(self).spec_handlers().len() == old(self).spec_handlers().len()
                &&& (forall|j: int|
                    0 <= j < old(self).spec_handlers().len() && j != i ==> final(self).spec_handlers()[j] == old(self).spec_handlers()[j])
                &&& final(self).spec_handlers()[i] == (DataHandler {
                    state: DHState::Stopped,
                    ..dh
                })
            }),
            contains_id(old(self).spec_handlers(), id) ==> contains_id(
                final(self).spec_handlers(),
                id,
            ),
    {
        let i = match self.find_index(id) {
            Some(i) => i,
            None => {
                return Err(
                    TcsError::command(
                        ErrorCode::DHNotFound,
                        String::from_str("handler not found"),
                    ),
                );
            },
        };
        proof {
            lemma_idx_of(self.spec_handlers(), id, i as int);
        }
        let dh = vstd::std_specs::vec::vec_index_mut(&mut self.handlers, i);
        let r = dh.stop();
        proof {
            assert(final(self).spec_handlers() =~= old(self).spec_handlers().update(
                i as int,
                final(self).spec_handlers()[i as int],
            ));
        }
        r
    }

    /// Fold relay counters into a handler's statistics. Fails with
    /// `DHNotFound` when the id is absent.
    pub fn record_relay_stats(&mut self, id: DHId, g2p: &Statistics, p2g: &Statistics) -> (r:
        TcsResult<()>)
        requires
            old(self).wf(),
        ensures
            final(self).wf(),
            final(self).spec_max() == old(self).spec_max(),
            !contains_id(old(self).spec_handlers(), id) ==> (r is Err && *final(self) == *old(self)),
            contains_id(old(self).spec_handlers(), id) ==> ({
                let i = idx_of(old(self).spec_handlers(), id);
                let dh = old(self).spec_handlers()[i];
                &&& r is Ok
                &&& final(self).spec_handlers().len() == old(self).spec_handlers().len()
                &&& (forall|j: int|
                    0 <= j < old(self).spec_handlers().len() && j != i ==> final(self).spec_handlers()[j] == old(self).spec_handlers()[j])
                &&& final(self).spec_handlers()[i].id == dh.id
                &&& final(self).spec_handlers()[i].state == dh.state
                &&& final(self).spec_handlers()[i].stats.dominates(dh.stats)
                &&& final(self).spec_handlers()[i].stats.bytes_received == sat_add(
                    dh.stats.bytes_received,
                    p2g.bytes_received,
                )
                &&& final(self).spec_handlers()[i].stats.bytes_sent == sat_add(
                    dh.stats.bytes_sent,
                    g2p.bytes_sent,
                )
            }),
    {
        let i = match self.find_index(id) {
            Some(i) => i,
            None => {
                return Err(
                    TcsError::command(
                        ErrorCode::DHNotFound,
                        String::from_str("handler not found"),
                    ),
                );
            },
        };
        proof {
            lemma_idx_of(self.spec_handlers(), id, i as int);
        }
        let dh = vstd::std_specs::vec::vec_index_mut(&mut self.handlers, i);
        dh.absorb_relay_stats(g2p, p2g);
        proof {
            assert(final(self).spec_handlers() =~= old(self).spec_handlers().update(
                i as int,
                final(self).spec_handlers()[i as int],
            ));
        }
        Ok(())
    }

    /// Replace a handler's counters with the two relays' current
    /// totals, so a query while the handler runs reports live numbers.
    /// Fails with `DHNotFound` when the id is absent. Unlike
    /// `record_relay_stats`, repeating this with newer snapshots never
    /// double-counts.
    pub fn set_relay_stats(&mut self, id: DHId, g2p: &Statistics, p2g: &Statistics) -> (r:
        TcsResult<()>)
        requires
            old(self).wf(),
        ensures
            final(self).wf(),
            final(self).spec_max() == old(self).spec_max(),
            !contains_id(old(self).spec_handlers(), id) ==> (r is Err && *final(self) == *old(self)),
            contains_id(old(self).spec_handlers(), id) ==> ({
                let i = idx_of(old(self).spec_handlers(), id);
                let dh = old(self).spec_handlers()[i];
                &&& r is Ok
                &&& final(self).spec_handlers().len() == old(self).spec_handlers().len()
                &&& (forall|j: int|
                    0 <= j < old(self).spec_handlers().len() && j != i ==> final(self).spec_handlers()[j] == old(self).spec_handlers()[j])
                &&& final(self).spec_handlers()[i].id == dh.id
                &&& final(self).spec_handlers()[i].state == dh.state
                &&& final(self).spec_handlers()[i].stats.counters() == (
                    p2g.bytes_received,
                    p2g.reads_completed,
                    p2g.reads_failed,
                    g2p.bytes_sent,
                    g2p.writes_completed,
                    g2p.writes_failed,
                )
            }),
    {
        let i = match self.find_index(id) {
            Some(i) => i,
            None => {
                return Err(
                    TcsError::command(
                        ErrorCode::DHNotFound,
                        String::from_str("handler not found"),
                    ),
                );
            },
        };
        proof {
            lemma_idx_of(self.spec_handlers(), id, i as int);
        }
        let dh = vstd::std_specs::vec::vec_index_mut(&mut self.handlers, i);
        dh.set_relay_stats(g2p, p2g);
        proof {
            assert(final(self).spec_handlers() =~= old(self).spec_handlers().update(
                i as int,
                final(self).spec_handlers()[i as int],
            ));
        }
        Ok(())
    }

    /// Where a handler's payload lives; what the process edge opens
    /// before the handler is activated. Fails with `DHNotFound` for an
    /// unknown id and with a configuration error exactly when a network
    /// name does not parse.
    pub fn payload_endpoint_of(&self, id: DHId) -> (r: TcsResult<EndpointSpec>)
        requires
            self.wf(),
        ensures
            !contains_id(self.spec_handlers(), id) ==> (r matches Err(e) && e
                matches TcsError::Command { code: ErrorCode::DHNotFound, .. }),
            contains_id(self.spec_handlers(), id) ==> ({
                let dh = self.spec_handlers()[idx_of(self.spec_handlers(), id)];
                &&& (dh.dh_type is Device ==> (r matches Ok(sp) && (sp
                    matches EndpointSpec::Device { path } && path@ == dh.name.0@)))
                &&& (dh.dh_type is Network ==> ((r matches Err(e) && e
                    matches TcsError::Configuration(_)) <==> spec_network_parse_fails(
                    dh.name,
                    dh.config.is_stream,
                )))
                &&& (r is Err ==> (r matches Err(e) && e matches TcsError::Configuration(_)))
            }),
    {
        let i = match self.find_index(id) {
            Some(i) => i,
            None => {
                return Err(
                    TcsError::command(
                        ErrorCode::DHNotFound,
                        String::from_str("handler not found"),
                    ),
                );
            },
        };
        proof {
            lemma_idx_of(self.spec_handlers(), id, i as int);
        }
        self.handlers[i].payload_endpoint()
    }

    /// Query a handler's statistics. Succeeds exactly when the id is
    /// registered; the snapshot carries the handler's counters and a
    /// fresh timestamp.
    pub fn get_dh_stats(&self, id: DHId) -> (r: TcsResult<Statistics>)
        requires
            self.wf(),
        ensures
            r is Ok <==> contains_id(self.spec_handlers(), id),
            r matches Ok(s) ==> ({
                let i = idx_of(self.spec_handlers(), id);
                &&& s.counters() == self.spec_handlers()[i].stats.counters()
                &&& (s.timestamp matches Some(t) && t.wf())
            }),
            r is Err ==> (r matches Err(e) && e matches TcsError::Command {
                code: ErrorCode::DHNotFound,
                ..
            }),
    {
        let i = match self.find_index(id) {
            Some(i) => i,
            None => {
                return Err(
                    TcsError::command(
                        ErrorCode::DHNotFound,
                        String::from_str("handler not found"),
                    ),
                );
            },
        };
        proof {
            lemma_idx_of(self.spec_handlers(), id, i as int);
        }
        Ok(self.handlers[i].get_stats())
    }

    /// Stop every handler; each one moves to `Stopped` and nothing else
    /// changes.
    pub fn stop_all(&mut self) -> (r: TcsResult<()>)
        requires
            old(self).wf(),
        ensures
            final(self).wf(),
            final(self).spec_max() == old(self).spec_max(),
            r is Ok,
            final(self).spec_handlers().len() == old(self).spec_handlers().len(),
            forall|j: int|
                0 <= j < old(self).spec_handlers().len() ==> final(self).spec_handlers()[j]
                    == (DataHandler { state: DHState::Stopped, ..old(self).spec_handlers()[j] }),
    {
        let n = self.handlers.len();
        let mut i: usize = 0;
        while i < n
            invariant
                old(self).wf(),
                n == old(self).spec_handlers().len(),
                self.spec_handlers().len() == n,
                self.spec_max() == old(self).spec_max(),
                i <= n,
                forall|j: int|
                    0 <= j < i ==> self.spec_handlers()[j] == (DataHandler {
                        state: DHState::Stopped,
                        ..old(self).spec_handlers()[j]
                    }),
                forall|j: int|
                    i <= j < n ==> self.spec_handlers()[j] == old(self).spec_handlers()[j],
            decreases n - i,
        {
            let dh = vstd::std_specs::vec::vec_index_mut(&mut self.handlers, i);
            let _ = dh.stop();
            i = i + 1;
        }
        proof {
            assert forall|i2: int, j2: int|
                0 <= i2 < j2 < final(self).spec_handlers().len() implies final(self).spec_handlers()[i2].id != final(self).spec_handlers()[j2].id by {
                assert(old(self).spec_handlers()[i2].id != old(self).spec_handlers()[j2].id);
            }
        }
        Ok(())
    }
}

/// Stopping an already stopped handler is a no-op: a handler created by
/// `create_dh` stays in the registry and keeps answering `get_dh_stats`
/// through any number of stops, and once stopped, another `stop_dh`
/// leaves it exactly as it was.
pub proof fn lemma_stop_idempotent(dh: DataHandler)
    requires
        dh.state is Stopped,
    ensures
        (DataHandler { state: DHState::Stopped, ..dh }) == dh,
{
}

/// With unique ids, the chosen index of a present id is the index where
/// it was found.
pub proof fn lemma_idx_of(s: Seq<DataHandler>, id: DHId, i: int)
    requires
        unique_ids(s),
        0 <= i < s.len(),
        s[i].id == id,
    ensures
        contains_id(s, id),
        idx_of(s, id) == i,
{
    assert(contains_id(s, id));
    let k = idx_of(s, id);
    assert(0 <= k < s.len() && s[k].id == id);
    if k != i {
        if k < i {
            assert(s[k].id != s[i].id);
        } else {
            assert(s[i].id != s[k].id);
        }
    }
}

} // verus!
