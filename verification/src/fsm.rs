//! The connection lifecycle state machine and the request/response state
//! machine.
//!
//! The connection machine owns the lifecycle of one persistent
//! connection: on every scheduling opportunity (idle poll, wakeup,
//! timeout) it decides whether to pop work from the shared queue and
//! start an exchange, or to stay put. The request machine drives exactly
//! one in-flight exchange: preparing the outgoing request, consuming
//! response headers, consuming the body, and reporting completion or
//! failure. The surrounding event loop performs the transport work and
//! feeds each outcome back in as the next event.

use core::marker::PhantomData;
use vstd::prelude::*;
use vstd::string::StringExecFns;
use crate::msg::Message;
use crate::msg::Method;
use crate::queue::Queue;

verus! {

/// The lifecycle state of one persistent connection.
#[derive(Clone, Copy, Debug, PartialEq, Eq, Structural)]
pub enum ConnState {
    /// No exchange in flight; the queue is polled from here.
    Idle,
    /// Exactly one exchange is in flight; no second one may start.
    AwaitingResponse,
    /// Terminal: the connection failed and performs no further work.
    ErrorClosed,
    /// Terminal: the connection was shed after idling too long.
    Closed,
}

/// The state of one request/response exchange.
#[derive(Clone, Copy, Debug, PartialEq, Eq, Structural)]
pub enum ReqState {
    /// Building the outgoing request from the message.
    Preparing,
    /// The outgoing request has been written to the transport.
    HeadersSent,
    /// The outgoing request is fully flushed; waiting for response headers.
    AwaitingHeaders,
    /// Response headers arrived; consuming the body.
    StreamingBody,
    /// Terminal: the exchange succeeded.
    Complete,
    /// Terminal: the exchange failed.
    Failed,
}

/// Why an exchange failed.
#[derive(Clone, Copy, Debug, PartialEq, Eq, Structural)]
pub enum FailureKind {
    /// The request descriptor was rejected before touching the network.
    Local,
    /// The response was malformed or protocol-violating.
    Protocol,
    /// The transport failed underneath the exchange.
    Transport,
    /// The response did not arrive within its deadline.
    Timeout,
}

/// How the body of a response is to be received.
#[derive(Clone, Copy, Debug, PartialEq, Eq, Structural)]
pub enum RecvMode {
    /// Collect the whole body into one buffer of at most this many bytes.
    Buffered(usize),
    /// Deliver the body incrementally in chunks of at least this many
    /// bytes where possible.
    Progressive(usize),
}

/// Configuration supplied once at connection setup.
#[derive(Clone, Copy, Debug, PartialEq, Eq, Structural)]
pub struct Config {
    /// How long the connection may sit idle before it is shed.
    pub idle_timeout: u64,
    /// How long one exchange may wait on the response.
    pub response_timeout: u64,
    /// Whether response bodies are streamed in chunks rather than
    /// buffered whole.
    pub stream_chunks: bool,
    /// The buffer bound (buffered mode) or chunk hint (streaming mode).
    pub recv_limit: usize,
}

impl Config {
    /// The receive mode this configuration asks for.
    pub open spec fn spec_recv_mode(self) -> RecvMode {
        if self.stream_chunks {
            RecvMode::Progressive(self.recv_limit)
        } else {
            RecvMode::Buffered(self.recv_limit)
        }
    }

    /// Pick the receive mode this configuration asks for.
    pub fn recv_mode(&self) -> (m: RecvMode)
        ensures
            m == self.spec_recv_mode(),
    {
        if self.stream_chunks {
            RecvMode::Progressive(self.recv_limit)
        } else {
            RecvMode::Buffered(self.recv_limit)
        }
    }
}

/// Response status line and headers, as far as this machine reads them.
#[derive(Clone, Copy, Debug, PartialEq, Eq, Structural)]
pub struct Head {
    /// The response status code.
    pub status: u16,
}

/// A status code this machine accepts as a well-formed response.
pub open spec fn spec_valid_status(status: u16) -> bool {
    100 <= status <= 599
}

/// The outgoing request an exchange hands to the transport.
pub struct OutRequest {
    pub method: Method,
    pub url: String,
    pub content_type: String,
    pub body: String,
}

/// An empty application context for machines that carry none.
pub struct Context;

/// The decision a connection machine returns from a scheduling callback:
/// what the event loop should do next with this connection.
pub enum Task<C> {
    /// Nothing to do: suspend until a wakeup, or until the deadline.
    Sleep(Fsm<C>, u64),
    /// Start the exchange held by the request machine.
    Request(Fsm<C>, RequestFsm<C>),
    /// Tear the connection down; it performs no further work.
    Close(Fsm<C>),
}

/// The connection lifecycle state machine of one persistent connection.
/// The type parameter carries application context through to the
/// exchanges and is not otherwise touched.
pub struct Fsm<C> {
    pub state: ConnState,
    pub config: Config,
    pub marker: PhantomData<C>,
}

impl<C> Fsm<C> {
    /// A fresh connection machine, idle, with the given configuration.
    pub fn create(config: Config) -> (f: Fsm<C>)
        ensures
            f.state == ConnState::Idle,
            f.config == config,
    {
        Fsm { state: ConnState::Idle, config, marker: PhantomData }
    }

    /// The connection has a scheduling opportunity. While `Idle`, poll
    /// the queue: pop the oldest message and start an exchange seeded
    /// with it, or, with nothing queued, sleep until the idle deadline.
    /// While `AwaitingResponse`, leave the queue alone — exactly one
    /// exchange runs at a time — and keep waiting. In a terminal state,
    /// do nothing further.
    pub fn connection_idle(self, now: u64, queue: &mut Queue) -> (t: Task<C>)
        requires
            now + self.config.idle_timeout <= u64::MAX,
            now + self.config.response_timeout <= u64::MAX,
        ensures
            self.state == ConnState::Idle && old(queue)@.len() > 0 ==> ({
                &&& t matches Task::Request(f, rq)
                &&& f.state == ConnState::AwaitingResponse
                &&& f.config == self.config
                &&& rq.state == ReqState::Preparing
                &&& rq.msg == old(queue)@[0]
                &&& rq.mode is None
                &&& rq.received@ == Seq::<u8>::empty()
                &&& rq.failure is None
                &&& final(queue)@ == old(queue)@.drop_first()
            }),
            self.state == ConnState::Idle && old(queue)@.len() == 0 ==> ({
                &&& t matches Task::Sleep(f, deadline)
                &&& f == self
                &&& deadline == now + self.config.idle_timeout
                &&& final(queue)@ == old(queue)@
            }),
            self.state == ConnState::AwaitingResponse ==> ({
                &&& t matches Task::Sleep(f, deadline)
                &&& f == self
                &&& deadline == now + self.config.response_timeout
                &&& final(queue)@ == old(queue)@
            }),
            self.state == ConnState::ErrorClosed || self.state == ConnState::Closed ==> ({
                &&& t matches Task::Close(f)
                &&& f == self
                &&& final(queue)@ == old(queue)@
            }),
    {
        match self.state {
            ConnState::Idle => {
                match queue.try_pop() {
                    Some(msg) => {
                        let started = Fsm {
                            state: ConnState::AwaitingResponse,
                            config: self.config,
                            marker: PhantomData,
                        };
                        Task::Request(started, RequestFsm::new(msg))
                    },
                    None => {
                        let deadline = now + self.config.idle_timeout;
                        Task::Sleep(self, deadline)
                    },
                }
            },
            ConnState::AwaitingResponse => {
                let deadline = now + self.config.response_timeout;
                Task::Sleep(self, deadline)
            },
            ConnState::ErrorClosed => Task::Close(self),
            ConnState::Closed => Task::Close(self),
        }
    }

    /// A wakeup arrived: purely a hint to re-poll. It carries no payload
    /// and need not correspond one-to-one with a pushed message, so the
    /// decision is exactly the one taken on an idle poll.
    pub fn wakeup(self, now: u64, queue: &mut Queue) -> (t: Task<C>)
        requires
            now + self.config.idle_timeout <= u64::MAX,
            now + self.config.response_timeout <= u64::MAX,
        ensures
            self.state == ConnState::Idle && old(queue)@.len() > 0 ==> ({
                &&& t matches Task::Request(f, rq)
                &&& f.state == ConnState::AwaitingResponse
                &&& f.config == self.config
                &&& rq.state == ReqState::Preparing
                &&& rq.msg == old(queue)@[0]
                &&& rq.mode is None
                &&& rq.received@ == Seq::<u8>::empty()
                &&& rq.failure is None
                &&& final(queue)@ == old(queue)@.drop_first()
            }),
            self.state == ConnState::Idle && old(queue)@.len() == 0 ==> ({
                &&& t matches Task::Sleep(f, deadline)
                &&& f == self
                &&& deadline == now + self.config.idle_timeout
                &&& final(queue)@ == old(queue)@
            }),
            self.state == ConnState::AwaitingResponse ==> ({
                &&& t matches Task::Sleep(f, deadline)
                &&& f == self
                &&& deadline == now + self.config.response_timeout
                &&& final(queue)@ == old(queue)@
            }),
            self.state == ConnState::ErrorClosed || self.state == ConnState::Closed ==> ({
                &&& t matches Task::Close(f)
                &&& f == self
                &&& final(queue)@ == old(queue)@
            }),
    {
        self.connection_idle(now, queue)
    }

    /// A timer fired. Idling past the idle deadline sheds the
    /// connection: it closes and polls the queue no further. A timeout
    /// while awaiting a response is a response timeout: the in-flight
    /// exchange is failed by its own machine and the connection closes
    /// in error. Terminal states stay terminal.
    pub fn timeout(self) -> (t: Task<C>)
        ensures
            t matches Task::Close(f) && f.config == self.config,
            self.state == ConnState::Idle ==> ({
                &&& t matches Task::Close(f)
                &&& f.state == ConnState::Closed
            }),
            self.state == ConnState::AwaitingResponse ==> ({
                &&& t matches Task::Close(f)
                &&& f.state == ConnState::ErrorClosed
            }),
            self.state == ConnState::ErrorClosed ==> (t matches Task::Close(f)
                && f.state == ConnState::ErrorClosed),
            self.state == ConnState::Closed ==> (t matches Task::Close(f)
                && f.state == ConnState::Closed),
    {
        match self.state {
            ConnState::Idle => Task::Close(
                Fsm { state: ConnState::Closed, config: self.config, marker: PhantomData },
            ),
            ConnState::AwaitingResponse => Task::Close(
                Fsm { state: ConnState::ErrorClosed, config: self.config, marker: PhantomData },
            ),
            ConnState::ErrorClosed => Task::Close(self),
            ConnState::Closed => Task::Close(self),
        }
    }

    /// A transport-level failure: always terminal for this connection
    /// instance. Any in-flight exchange is failed by its own machine
    /// with a transport outcome; nothing is retried here.
    pub fn connection_error(self) -> (f: Fsm<C>)
        ensures
            f.state == ConnState::ErrorClosed,
            f.config == self.config,
    {
        Fsm { state: ConnState::ErrorClosed, config: self.config, marker: PhantomData }
    }

    /// The in-flight exchange reached `Complete` or `Failed` without
    /// taking the connection down: return to `Idle` so the queue is
    /// polled again.
    pub fn exchange_done(self) -> (f: Fsm<C>)
        requires
            self.state == ConnState::AwaitingResponse,
        ensures
            f.state == ConnState::Idle,
            f.config == self.config,
    {
        Fsm { state: ConnState::Idle, config: self.config, marker: PhantomData }
    }
}

/// The request/response state machine of one in-flight exchange, seeded
/// with the message it serves.
pub struct RequestFsm<C> {
    pub state: ReqState,
    pub msg: Message,
    /// The receive mode chosen on headers, once chosen.
    pub mode: Option<RecvMode>,
    /// The response body bytes delivered so far.
    pub received: Vec<u8>,
    /// Why the exchange failed, once it has.
    pub failure: Option<FailureKind>,
    pub marker: PhantomData<C>,
}

impl<C> RequestFsm<C> {
    /// A fresh exchange for the given message.
    pub fn new(msg: Message) -> (rq: RequestFsm<C>)
        ensures
            rq.state == ReqState::Preparing,
            rq.msg == msg,
            rq.mode is None,
            rq.received@ == Seq::<u8>::empty(),
            rq.failure is None,
    {
        RequestFsm {
            state: ReqState::Preparing,
            msg,
            mode: None,
            received: Vec::new(),
            failure: None,
            marker: PhantomData,
        }
    }

    /// Produce the outgoing request from the message: its verb, its
    /// target resource, a JSON content type, and its body. A malformed
    /// descriptor aborts the exchange as a local failure without ever
    /// touching the network.
    pub fn prepare_request(self) -> (r: Result<(RequestFsm<C>, OutRequest), RequestFsm<C>>)
        requires
            self.state == ReqState::Preparing,
        ensures
            self.msg.wf() <==> r is Ok,
            r matches Ok((f, req)) ==> ({
                &&& f.state == ReqState::HeadersSent
                &&& f.msg == self.msg
                &&& f.failure is None
                &&& req.method == self.msg.method
                &&& req.url@ == self.msg.url@
                &&& req.content_type@ == "application/json"@
                &&& req.body@ == self.msg.body@
            }),
            r matches Err(f) ==> ({
                &&& f.state == ReqState::Failed
                &&& f.msg == self.msg
                &&& f.failure == Some(FailureKind::Local)
            }),
    {
        if self.msg.is_wf() {
            let req = OutRequest {
                method: self.msg.method,
                url: self.msg.url.clone(),
                content_type: String::from_str("application/json"),
                body: self.msg.body.clone(),
            };
            let f = RequestFsm { state: ReqState::HeadersSent, failure: None, ..self };
            Ok((f, req))
        } else {
            Err(RequestFsm { state: ReqState::Failed, failure: Some(FailureKind::Local), ..self })
        }
    }

    /// The transport reports the outgoing request fully flushed: the
    /// exchange now awaits the response headers.
    pub fn request_sent(self) -> (f: RequestFsm<C>)
        requires
            self.state == ReqState::HeadersSent,
        ensures
            f.state == ReqState::AwaitingHeaders,
            f.msg == self.msg,
            f.received@ == self.received@,
            f.failure == self.failure,
    {
        RequestFsm { state: ReqState::AwaitingHeaders, ..self }
    }

    /// Response status and headers arrived: decide the receive mode from
    /// the configured policy and set the deadline for the remainder. A
    /// status code outside the well-formed range rejects the response
    /// and fails the exchange as a protocol error. Headers may arrive
    /// while the request is still flushing, so both sent states are
    /// accepted.
    pub fn headers_received(self, head: &Head, now: u64, config: &Config) -> (r: Result<
        (RequestFsm<C>, RecvMode, u64),
        RequestFsm<C>,
    >)
        requires
            self.state == ReqState::HeadersSent || self.state == ReqState::AwaitingHeaders,
            now + config.response_timeout <= u64::MAX,
        ensures
            spec_valid_status(head.status) <==> r is Ok,
            r matches Ok((f, mode, deadline)) ==> ({
                &&& f.state == ReqState::StreamingBody
                &&& f.msg == self.msg
                &&& f.mode == Some(mode)
                &&& f.received@ == self.received@
                &&& f.failure is None
                &&& mode == config.spec_recv_mode()
                &&& deadline == now + config.response_timeout
            }),
            r matches Err(f) ==> ({
                &&& f.state == ReqState::Failed
                &&& f.msg == self.msg
                &&& f.failure == Some(FailureKind::Protocol)
            }),
    {
        if 100 <= head.status && head.status <= 599 {
            let mode = config.recv_mode();
            let deadline = now + config.response_timeout;
            let f = RequestFsm { state: ReqState::StreamingBody, mode: Some(mode), failure: None, ..self };
            Ok((f, mode, deadline))
        } else {
            Err(RequestFsm { state: ReqState::Failed, failure: Some(FailureKind::Protocol), ..self })
        }
    }

    /// One increment of body data arrived in streaming mode: append it
    /// to what has been delivered and keep consuming.
    pub fn response_chunk(self, chunk: &[u8]) -> (f: RequestFsm<C>)
        requires
            self.state == ReqState::StreamingBody,
            self.mode matches Some(RecvMode::Progressive(_)),
        ensures
            f.state == ReqState::StreamingBody,
            f.msg == self.msg,
            f.mode == self.mode,
            f.received@ == self.received@ + chunk@,
            f.failure == self.failure,
    {
        let mut received = self.received;
        let n = chunk.len();
        let mut i: usize = 0;
        while i < n
            invariant
                n == chunk@.len(),
                i <= n,
                received@ == self.received@ + chunk@.subrange(0, i as int),
            decreases n - i,
        {
            received.push(chunk[i]);
            proof {
                assert(received@ =~= self.received@ + chunk@.subrange(0, i + 1 as int));
            }
            i += 1;
        }
        proof {
            assert(received@ =~= self.received@ + chunk@);
        }
        RequestFsm { received, ..self }
    }

    /// The whole body arrived at once in buffered mode: the exchange is
    /// complete and the delivered bytes are exactly the body.
    pub fn response_received(self, data: &[u8]) -> (f: RequestFsm<C>)
        requires
            self.state == ReqState::StreamingBody,
            self.mode matches Some(RecvMode::Buffered(_)),
        ensures
            f.state == ReqState::Complete,
            f.msg == self.msg,
            f.mode == self.mode,
            f.received@ == data@,
            f.failure is None,
    {
        let mut received: Vec<u8> = Vec::new();
        let n = data.len();
        let mut i: usize = 0;
        while i < n
            invariant
                n == data@.len(),
                i <= n,
                received@ == data@.subrange(0, i as int),
            decreases n - i,
        {
            received.push(data[i]);
            proof {
                assert(received@ =~= data@.subrange(0, i + 1 as int));
            }
            i += 1;
        }
        proof {
            assert(received@ =~= data@);
        }
        RequestFsm { state: ReqState::Complete, received, failure: None, ..self }
    }

    /// The body ended in streaming mode: the exchange is complete; the
    /// delivered bytes were handed out chunk by chunk.
    pub fn response_end(self) -> (f: RequestFsm<C>)
        requires
            self.state == ReqState::StreamingBody,
            self.mode matches Some(RecvMode::Progressive(_)),
        ensures
            f.state == ReqState::Complete,
            f.msg == self.msg,
            f.mode == self.mode,
            f.received@ == self.received@,
            f.failure is None,
    {
        RequestFsm { state: ReqState::Complete, failure: None, ..self }
    }

    /// Fail the exchange with the given kind. An exchange fails at most
    /// once and never after completing.
    pub fn fail(self, kind: FailureKind) -> (f: RequestFsm<C>)
        requires
            self.state != ReqState::Complete,
            self.state != ReqState::Failed,
        ensures
            f.state == ReqState::Failed,
            f.msg == self.msg,
            f.received@ == self.received@,
            f.failure == Some(kind),
    {
        RequestFsm { state: ReqState::Failed, failure: Some(kind), ..self }
    }

    /// A malformed or protocol-violating response: fatal to this
    /// exchange alone; whether the connection itself survives is the
    /// connection machine's decision.
    pub fn bad_response(self) -> (f: RequestFsm<C>)
        requires
            self.state != ReqState::Complete,
            self.state != ReqState::Failed,
        ensures
            f.state == ReqState::Failed,
            f.msg == self.msg,
            f.received@ == self.received@,
            f.failure == Some(FailureKind::Protocol),
    {
        self.fail(FailureKind::Protocol)
    }

    /// The per-request deadline passed without the response completing:
    /// the exchange fails with a timeout outcome.
    pub fn timeout(self) -> (f: RequestFsm<C>)
        requires
            self.state != ReqState::Complete,
            self.state != ReqState::Failed,
        ensures
            f.state == ReqState::Failed,
            f.msg == self.msg,
            f.received@ == self.received@,
            f.failure == Some(FailureKind::Timeout),
    {
        self.fail(FailureKind::Timeout)
    }

    /// An out-of-band wakeup while the exchange is in flight: purely a
    /// hint; with no cancellation path exposed, the exchange continues
    /// unchanged.
    pub fn wakeup(self) -> (r: Option<RequestFsm<C>>)
        ensures
            r == Some(self),
    {
        Some(self)
    }
}

} // verus!
