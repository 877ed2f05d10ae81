//! Connection bookkeeping of the TCP poller: which token names which
//! connection, which token the next accepted connection gets, and what a
//! readable connection yields.

use std::collections::HashMap;
use vstd::prelude::*;
use vstd::std_specs::iter::IteratorSpec;

verus! {

broadcast use vstd::std_specs::hash::group_hash_axioms;

/// The token under which the listening socket is registered; connections
/// get the tokens after it.
pub const LISTEN_TOKEN: usize = 0;

/// An accepted connection: its stream and its buffers.
pub struct Connection<S> {
    pub stream: S,
    pub read_buffer: Vec<u8>,
    pub write_buffer: Vec<u8>,
}

impl<S> Connection<S> {
    /// A connection on `stream` with empty buffers.
    pub fn new(stream: S) -> (connection: Self)
        ensures
            connection.stream == stream,
            connection.read_buffer@ == Seq::<u8>::empty(),
            connection.write_buffer@ == Seq::<u8>::empty(),
    {
        Connection { stream, read_buffer: Vec::new(), write_buffer: Vec::new() }
    }
}

/// Data read from a peer.
pub struct IoEvent<A> {
    pub socket_address: A,
    pub data: Vec<u8>,
}

/// What reading a readable connection gave.
pub enum ReadOutcome {
    /// These bytes arrived; none at all means that the peer closed the
    /// connection.
    Bytes(Vec<u8>),
    /// Nothing to read yet.
    WouldBlock,
    /// The connection was aborted.
    ConnectionAborted,
    /// The connection was reset by the peer.
    ConnectionReset,
    /// Any other read error.
    Failed,
}

/// What a poll event is about.
pub enum PollTarget {
    /// The listening socket has a connection to accept.
    Listener,
    /// The connection under this token has something to say.
    Stream(usize),
}

/// What a poll event on a connection calls for.
pub struct ReadStep<A> {
    /// Data to hand to the handler.
    pub event: Option<IoEvent<A>>,
    /// Whether the connection is to be closed and forgotten.
    pub remove: bool,
    /// Whether the read failed in a way that should be reported.
    pub unexpected_error: bool,
}

/// The target of a poll event with token `token`.
pub fn poll_target(token: usize) -> (target: PollTarget)
    ensures
        token == LISTEN_TOKEN <==> target is Listener,
        target matches PollTarget::Stream(t) ==> t == token,
{
    if token == LISTEN_TOKEN {
        PollTarget::Listener
    } else {
        PollTarget::Stream(token)
    }
}

/// Whether `outcome` means that the connection is over.
pub open spec fn closes_connection(outcome: ReadOutcome) -> bool {
    match outcome {
        ReadOutcome::Bytes(bytes) => bytes@.len() == 0,
        ReadOutcome::ConnectionAborted => true,
        ReadOutcome::ConnectionReset => true,
        _ => false,
    }
}

/// Of the reads that return bytes, only an empty one closes the connection:
/// any byte that arrives is data for the handler.
pub proof fn lemma_only_empty_read_closes(outcome: ReadOutcome)
    requires
        outcome is Bytes,
    ensures
        closes_connection(outcome) <==> outcome->Bytes_0@.len() == 0,
        !closes_connection(outcome) ==> bytes_read(outcome).len() > 0,
{
}

/// The bytes that `outcome` adds to a connection's read buffer.
pub open spec fn bytes_read(outcome: ReadOutcome) -> Seq<u8> {
    match outcome {
        ReadOutcome::Bytes(bytes) => bytes@,
        _ => Seq::empty(),
    }
}

/// Taking a connection out of the table and settling it puts the same
/// tokens back: a poll changes which tokens are in use only by accepting and
/// removing connections.
pub proof fn lemma_take_settle_keeps_tokens<S>(
    before: Map<usize, Connection<S>>,
    after: Map<usize, Connection<S>>,
    token: usize,
)
    requires
        before.contains_key(token),
        after.dom() == before.remove(token).dom().insert(token),
    ensures
        after.dom() == before.dom(),
{
    assert(after.dom() =~= before.dom());
}

/// Over a run of accepted connections, the tokens they get are consecutive,
/// starting at the table's next token: `next_tokens[i]` is the table's next
/// token when the `i`-th connection is accepted (it gets that token, and the
/// next one is one more; nothing else changes the next token). So the tokens
/// are `n, n + 1, ..., n + c - 1`, pairwise distinct and never the
/// listener's, and the next token afterwards is `n + c`.
pub proof fn lemma_accepted_tokens_consecutive(next_tokens: Seq<usize>, tokens: Seq<usize>)
    requires
        next_tokens.len() == tokens.len() + 1,
        next_tokens[0] > LISTEN_TOKEN,
        forall|i: int|
            0 <= i < tokens.len() ==> #[trigger] tokens[i] == next_tokens[i] && next_tokens[i
                + 1] == tokens[i] + 1,
    ensures
        forall|i: int| 0 <= i < tokens.len() ==> #[trigger] tokens[i] == next_tokens[0] + i,
        next_tokens.last() == next_tokens[0] + tokens.len(),
        forall|i: int, j: int| 0 <= i < j < tokens.len() ==> tokens[i] != tokens[j],
        forall|i: int| 0 <= i < tokens.len() ==> #[trigger] tokens[i] != LISTEN_TOKEN,
    decreases tokens.len(),
{
    if tokens.len() > 0 {
        let n = tokens.len() - 1;
        lemma_accepted_tokens_consecutive(next_tokens.take(n + 1), tokens.take(n));
        assert forall|i: int| 0 <= i < tokens.len() implies #[trigger] tokens[i] == next_tokens[0]
            + i by {
            if i < n {
                assert(tokens.take(n)[i] == tokens[i]);
            } else {
                assert(next_tokens.take(n + 1).last() == next_tokens[n]);
            }
        }
        assert(tokens[n] == next_tokens[0] + n);
        assert(next_tokens.last() == next_tokens[n + 1]);
    }
}

/// The accepted connections of a poller, by token, and the token that the
/// next accepted connection gets.
pub struct ConnectionTable<S> {
    active_streams: HashMap<usize, Connection<S>>,
    next_connection_token: usize,
}

impl<S> ConnectionTable<S> {
    #[verifier::type_invariant]
    spec fn wf(self) -> bool {
        &&& self.next_connection_token > LISTEN_TOKEN
        &&& forall|t: usize| #[trigger]
            self.active_streams@.contains_key(t) ==> LISTEN_TOKEN < t
                < self.next_connection_token && self.active_streams@[t].read_buffer@.len() == 0
    }

    /// The connections by token.
    pub closed spec fn connections(self) -> Map<usize, Connection<S>> {
        self.active_streams@
    }

    /// The token that the next accepted connection gets.
    pub closed spec fn next_token(self) -> usize {
        self.next_connection_token
    }

    /// A table with no connections, whose first token follows the
    /// listener's.
    pub fn new() -> (table: Self)
        ensures
            table.connections() == Map::<usize, Connection<S>>::empty(),
            table.next_token() == LISTEN_TOKEN + 1,
    {
        ConnectionTable { active_streams: HashMap::new(), next_connection_token: LISTEN_TOKEN + 1 }
    }

    /// Whether another token can be handed out.
    pub fn has_free_token(&self) -> (free: bool)
        ensures
            free == (self.next_token() < usize::MAX),
    {
        self.next_connection_token < usize::MAX
    }

    /// Hands out the next token; no token is handed out twice.
    pub fn allocate_token(&mut self) -> (token: usize)
        requires
            old(self).next_token() < usize::MAX,
        ensures
            token == old(self).next_token(),
            final(self).next_token() == token + 1,
            final(self).connections() == old(self).connections(),
            token > LISTEN_TOKEN,
            !old(self).connections().contains_key(token),
    {
        proof {
            use_type_invariant(&*self);
        }
        let token = self.next_connection_token;
        self.next_connection_token = token + 1;
        token
    }

    /// Records `connection` under `token`, a token handed out before and not
    /// in use.
    pub fn insert_connection(&mut self, token: usize, connection: Connection<S>)
        requires
            LISTEN_TOKEN < token < old(self).next_token(),
            connection.read_buffer@.len() == 0,
        ensures
            final(self).connections() == old(self).connections().insert(token, connection),
            final(self).next_token() == old(self).next_token(),
    {
        proof {
            use_type_invariant(&*self);
        }
        let mut streams = HashMap::new();
        std::mem::swap(&mut streams, &mut self.active_streams);
        streams.insert(token, connection);
        self.active_streams = streams;
    }

    /// Whether a connection is recorded under `token`.
    pub fn contains(&self, token: usize) -> (found: bool)
        ensures
            found == self.connections().contains_key(token),
    {
        self.active_streams.contains_key(&token)
    }

    /// The number of connections.
    pub fn len(&self) -> (n: usize)
        ensures
            n == self.connections().len(),
    {
        self.active_streams.len()
    }

    /// Takes the connection under `token` out of the table, if there is one.
    pub fn remove_connection(&mut self, token: usize) -> (removed: Option<Connection<S>>)
        ensures
            final(self).connections() == old(self).connections().remove(token),
            final(self).next_token() == old(self).next_token(),
            old(self).connections().contains_key(token) <==> removed is Some,
            removed matches Some(c) ==> c == old(self).connections()[token]
                && c.read_buffer@.len() == 0,
    {
        proof {
            use_type_invariant(&*self);
        }
        let mut streams = HashMap::new();
        std::mem::swap(&mut streams, &mut self.active_streams);
        let removed = streams.remove(&token);
        self.active_streams = streams;
        removed
    }

    /// Puts back a connection taken out under `token` after it was found
    /// readable (`read` holds what reading it gave) or not (`read` is
    /// `None`), and says what follows: data for the handler unless the
    /// connection is over, and whether to close it. The read buffer is
    /// emptied after every read.
    pub fn settle<A>(
        &mut self,
        token: usize,
        connection: Connection<S>,
        peer: A,
        read: Option<ReadOutcome>,
    ) -> (step: ReadStep<A>)
        requires
            LISTEN_TOKEN < token < old(self).next_token(),
            !old(self).connections().contains_key(token),
            connection.read_buffer@.len() == 0,
        ensures
            final(self).next_token() == old(self).next_token(),
            final(self).connections().dom() == old(self).connections().dom().insert(token),
            final(self).connections().remove(token) == old(self).connections(),
            final(self).connections()[token].stream == connection.stream,
            final(self).connections()[token].write_buffer == connection.write_buffer,
            read is None ==> {
                &&& step.event is None
                &&& !step.remove
                &&& !step.unexpected_error
                &&& final(self).connections()[token].read_buffer@.len() == 0
            },
            read matches Some(outcome) ==> match outcome {
                ReadOutcome::Bytes(bytes) => {
                    &&& step.remove == (bytes@.len() == 0)
                    &&& !step.unexpected_error
                    &&& bytes@.len() == 0 ==> step.event is None
                    &&& bytes@.len() > 0 ==> (step.event matches Some(event) && event.data@
                        == bytes@ && event.socket_address == peer)
                },
                ReadOutcome::WouldBlock => {
                    &&& !step.remove
                    &&& !step.unexpected_error
                    &&& step.event matches Some(event) && event.data@.len() == 0
                        && event.socket_address == peer
                },
                ReadOutcome::ConnectionAborted => step.remove && !step.unexpected_error
                    && step.event is None,
                ReadOutcome::ConnectionReset => step.remove && !step.unexpected_error
                    && step.event is None,
                ReadOutcome::Failed => {
                    &&& !step.remove
                    &&& step.unexpected_error
                    &&& step.event matches Some(event) && event.data@.len() == 0
                        && event.socket_address == peer
                },
            },
            read matches Some(outcome) ==> {
                &&& step.remove == closes_connection(outcome)
                &&& step.unexpected_error == (outcome is Failed)
                &&& final(self).connections()[token].read_buffer@.len() == 0
                &&& match step.event {
                    Some(event) => !closes_connection(outcome) && event.socket_address == peer
                        && event.data@ == bytes_read(outcome),
                    None => closes_connection(outcome),
                }
            },
    {
        proof {
            use_type_invariant(&*self);
        }
        let mut connection = connection;
        let step = match read {
            None => ReadStep { event: None, remove: false, unexpected_error: false },
            Some(outcome) => {
                let mut remove_stream = false;
                let mut unexpected_error = false;
                let ghost before = connection.read_buffer@;
                match outcome {
                    ReadOutcome::Bytes(bytes) => {
                        if bytes.len() == 0 {
                            remove_stream = true;
                        } else {
                            let mut bytes = bytes;
                            connection.read_buffer.append(&mut bytes);
                        }
                    },
                    ReadOutcome::WouldBlock => {},
                    ReadOutcome::ConnectionAborted => {
                        remove_stream = true;
                    },
                    ReadOutcome::ConnectionReset => {
                        remove_stream = true;
                    },
                    ReadOutcome::Failed => {
                        unexpected_error = true;
                    },
                }
                let event = if !remove_stream {
                    Some(IoEvent { socket_address: peer, data: connection.read_buffer.clone() })
                } else {
                    None
                };
                connection.read_buffer = Vec::new();
                ReadStep { event, remove: remove_stream, unexpected_error }
            },
        };
        let mut streams = HashMap::new();
        std::mem::swap(&mut streams, &mut self.active_streams);
        streams.insert(token, connection);
        self.active_streams = streams;
        step
    }

    /// The tokens of all connections, each once.
    pub fn tokens(&self) -> (tokens: Vec<usize>)
        ensures
            tokens@.to_set() == self.connections().dom(),
            tokens@.no_duplicates(),
            forall|i: int|
                0 <= i < tokens@.len() ==> LISTEN_TOKEN < #[trigger] tokens@[i] < self.next_token(),
    {
        proof {
            use_type_invariant(self);
        }
        let mut tokens: Vec<usize> = Vec::new();
        let ghost keys = self.active_streams.keys().remaining();
        for k in it: self.active_streams.keys()
            invariant
                it.seq() == keys,
                tokens@.len() == it.index(),
                forall|i: int| 0 <= i < tokens@.len() ==> tokens@[i] == *it.seq()[i],
        {
            tokens.push(*k);
        }
        assert(tokens@ =~= keys.unref());
        assert forall|i: int| 0 <= i < tokens@.len() implies LISTEN_TOKEN < #[trigger] tokens@[i]
            < self.next_token() by {
            assert(tokens@.to_set().contains(tokens@[i]));
            assert(self.active_streams@.contains_key(tokens@[i]));
        }
        tokens
    }
}

} // verus!
