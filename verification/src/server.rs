//! The ingestion pipeline and the dispatcher's queue.
//!
//! One POST body runs `parse → strict decode → enqueue`; the bounded FIFO
//! queue is the only state shared with the dispatcher, which drains it in
//! arrival order.  The HTTP transport and the dispatch thread themselves are
//! unverified glue around these functions.

use vstd::prelude::*;
use crate::config::GSIConfig;
use crate::json::{json_parse, parse_json_bytes};
use crate::update::{Update, UpdateV, decode_update, spec_decode_update};

verus! {

/// Why one request was refused.  Both failure classes answer with a
/// 500-equivalent status; the request is dropped and nothing reaches the
/// dispatcher.
#[derive(Clone, Copy, Debug, PartialEq, Eq, Structural)]
pub enum IngestError {
    /// the body is not one well-formed JSON document
    ParseFailure,
    /// the document does not conform to the update schema
    SchemaFailure,
}

impl IngestError {
    /// The HTTP status code this failure answers with.
    pub fn status(&self) -> (r: u16)
        ensures
            r == 500,
    {
        500
    }
}

/// Runs the decode pipeline on one request body: parses it as JSON and
/// decodes it strictly against the update schema.  Exactly the malformed
/// bodies yield `ParseFailure`, exactly the well-formed bodies outside the
/// schema yield `SchemaFailure`, and every conforming body yields its
/// decoded update.
pub fn process_update_body(body: &[u8]) -> (r: Result<Update, IngestError>)
    ensures
        match json_parse(body@) {
            None => r == Err::<Update, IngestError>(IngestError::ParseFailure),
            Some(j) => match spec_decode_update(j) {
                None => r == Err::<Update, IngestError>(IngestError::SchemaFailure),
                Some(uv) => r matches Ok(u) && u@ == uv,
            },
        },
{
    let parsed = match parse_json_bytes(body) {
        Some(v) => v,
        None => {
            return Err(IngestError::ParseFailure);
        },
    };
    match decode_update(&parsed) {
        Some(u) => Ok(u),
        None => Err(IngestError::SchemaFailure),
    }
}

/// How many decoded updates may wait for the dispatcher at once.
pub const QUEUE_CAPACITY: usize = 128;

/// The bounded FIFO queue between the ingestion endpoint and the
/// dispatcher.  Enqueue refuses when full — the producer blocks and retries
/// rather than dropping — and dequeue hands out updates in arrival order.
pub struct UpdateQueue {
    items: Vec<Update>,
}

impl View for UpdateQueue {
    type V = Seq<UpdateV>;

    closed spec fn view(&self) -> Seq<UpdateV> {
        Seq::new(self.items@.len(), |i: int| self.items@[i]@)
    }
}

impl UpdateQueue {
    /// An empty queue.
    pub fn new() -> (q: UpdateQueue)
        ensures
            q@ == Seq::<UpdateV>::empty(),
    {
        let q = UpdateQueue { items: Vec::new() };
        proof {
            assert(q@ =~= Seq::<UpdateV>::empty());
        }
        q
    }

    /// How many updates wait.
    pub fn len(&self) -> (n: usize)
        ensures
            n == self@.len(),
    {
        self.items.len()
    }

    /// The fixed capacity.
    pub fn capacity(&self) -> (n: usize)
        ensures
            n == QUEUE_CAPACITY,
    {
        QUEUE_CAPACITY
    }

    /// Appends an update at the back, unless the queue is at capacity: a
    /// full queue refuses and keeps its contents, so that the producer
    /// blocks and retries instead of losing the update.
    pub fn try_enqueue(&mut self, u: Update) -> (ok: bool)
        ensures
            old(self)@.len() < QUEUE_CAPACITY ==> ok && final(self)@ == old(self)@.push(u@),
            old(self)@.len() >= QUEUE_CAPACITY ==> !ok && final(self)@ == old(self)@,
    {
        if self.items.len() < QUEUE_CAPACITY {
            let ghost uv = u@;
            self.items.push(u);
            proof {
                assert(self@ =~= old(self)@.push(uv));
            }
            true
        } else {
            false
        }
    }

    /// Removes and returns the oldest update, if any: arrival order is
    /// dispatch order.
    pub fn dequeue(&mut self) -> (r: Option<Update>)
        ensures
            old(self)@.len() == 0 ==> r is None && final(self)@ == old(self)@,
            old(self)@.len() > 0 ==> (r matches Some(u) && u@ == old(self)@[0] && final(self)@
                == old(self)@.drop_first()),
    {
        if self.items.len() == 0 {
            proof {
                assert(self@ =~= old(self)@);
            }
            None
        } else {
            let u = self.items.remove(0);
            proof {
                assert(self@ =~= old(self)@.drop_first());
            }
            Some(u)
        }
    }
}

/// What a run of enqueues leaves in a queue.
pub open spec fn spec_enqueue_all(q: Seq<UpdateV>, us: Seq<UpdateV>) -> Seq<UpdateV>
    decreases us.len(),
{
    if us.len() == 0 {
        q
    } else {
        spec_enqueue_all(q.push(us[0]), us.drop_first())
    }
}

/// Pipeline ordering: updates enqueued one after another, with room for all
/// of them, stand in the queue in exactly their arrival order behind what
/// was already there — so the dispatcher, which always takes the front,
/// hands every earlier update to the listeners before any later one.
pub proof fn lemma_pipeline_order(q: Seq<UpdateV>, us: Seq<UpdateV>)
    ensures
        spec_enqueue_all(q, us) == q + us,
    decreases us.len(),
{
    if us.len() == 0 {
        assert(q + us =~= q);
    } else {
        lemma_pipeline_order(q.push(us[0]), us.drop_first());
        assert(q.push(us[0]) + us.drop_first() =~= q + us);
    }
}

/// Backpressure: a full queue refuses the next update without losing
/// anything, and one dispatch step frees exactly one slot; the retried
/// enqueue then lands at the back, behind every update that arrived before
/// it, and nothing is dropped.
pub proof fn lemma_backpressure(q: Seq<UpdateV>, u: UpdateV)
    requires
        q.len() == QUEUE_CAPACITY,
    ensures
        q.drop_first().push(u).len() == QUEUE_CAPACITY,
        q.drop_first().push(u).last() == u,
        forall|k: int| 0 <= k < q.len() - 1 ==> q.drop_first().push(u)[k] == q[k + 1],
{
}

/// A server bound to a port: the configuration to install, the port the
/// game client pushes to, and whether the artifact has been installed.
pub struct GSIServer {
    /// the configuration the artifact is rendered from
    pub config: GSIConfig,
    /// the local port the endpoint listens on
    pub port: u16,
    /// whether the configuration artifact has been installed
    pub installed: bool,
}

impl GSIServer {
    /// A server for this configuration and port; nothing installed yet.
    pub fn new(config: GSIConfig, port: u16) -> (s: GSIServer)
        ensures
            s.config == config,
            s.port == port,
            !s.installed,
    {
        GSIServer { config, port, installed: false }
    }

    /// The artifact file name the installation writes.
    pub fn install_file_name(&self) -> (r: String)
        ensures
            r@ == "gamestate_integration_"@ + self.config.service_name@ + ".cfg"@,
    {
        self.config.cfg_file_name()
    }

    /// The artifact text the installation writes: the configuration
    /// rendered for this server's port.
    pub fn install_file_contents(&self) -> (r: String)
        ensures
            r@ == crate::config::spec_render(crate::config::spec_config_file(
                self.config@,
                self.port,
            )),
    {
        self.config.render(self.port)
    }

    /// Records that the artifact has been written.
    pub fn mark_installed(&mut self)
        ensures
            final(self).config == old(self).config,
            final(self).port == old(self).port,
            final(self).installed,
    {
        self.installed = true;
    }
}

} // verus!
