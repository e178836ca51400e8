//! The Python binding's multi-transport server builder: it records, in
//! order, the transports, acceptor, fragmentation and start hook that
//! Python configures, and hands the whole plan over once, when the server
//! is served. The caller applies the plan to the RSocket server it starts.

use vstd::prelude::*;
use vstd::string::*;

verus! {

/// A server transport configured from Python.
pub enum PyServerTransport {
    /// TCP on this socket address.
    Tcp(String),
    /// WebSocket on this socket address.
    WebSocket(String),
    /// QUIC on this socket address.
    Quic(String),
    /// Iroh peer-to-peer, with this private key if one was given.
    Iroh(Option<String>),
}

/// One configuration step of the server, in the order Python made it.
pub enum ServerStep {
    /// Serve on `transport` under `name`.
    Transport { name: String, transport: PyServerTransport },
    /// Answer requests with the Python handler when there is one, else
    /// echo them.
    Acceptor { python_handler: bool },
    /// Fragment frames larger than `mtu`.
    Fragment { mtu: usize },
    /// Call the Python hook (when there is one) once the server runs.
    OnStart { python_handler: bool },
}

/// The message of every call on a builder that was already served.
pub open spec fn consumed_message() -> Seq<char> {
    "Builder already consumed"@
}

/// Collects the configuration of a server until it is served.
pub struct PyMultiTransportServerBuilder {
    steps: Vec<ServerStep>,
    consumed: bool,
}

impl PyMultiTransportServerBuilder {
    /// The steps recorded so far.
    pub closed spec fn steps(&self) -> Seq<ServerStep> {
        self.steps@
    }

    /// Whether the builder was served.
    pub closed spec fn consumed(&self) -> bool {
        self.consumed
    }

    /// A builder with nothing configured.
    pub fn new() -> (b: PyMultiTransportServerBuilder)
        ensures
            b.steps() == Seq::<ServerStep>::empty(),
            !b.consumed(),
    {
        PyMultiTransportServerBuilder { steps: Vec::new(), consumed: false }
    }

    /// Records `step` unless the builder was served, which is an error.
    fn record(&mut self, step: ServerStep) -> (res: Result<(), String>)
        ensures
            final(self).consumed() == old(self).consumed(),
            old(self).consumed() ==> (res matches Err(e) && e@ == consumed_message())
                && final(self).steps() == old(self).steps(),
            !old(self).consumed() ==> res is Ok && final(self).steps() == old(self).steps().push(
                step,
            ),
    {
        if self.consumed {
            Err(String::from_str("Builder already consumed"))
        } else {
            self.steps.push(step);
            Ok(())
        }
    }

    /// Adds a TCP transport on `address` under `name`.
    pub fn add_tcp_transport(&mut self, name: String, address: String) -> (res: Result<(), String>)
        ensures
            final(self).consumed() == old(self).consumed(),
            old(self).consumed() ==> (res matches Err(e) && e@ == consumed_message())
                && final(self).steps() == old(self).steps(),
            !old(self).consumed() ==> res is Ok && final(self).steps() == old(self).steps().push(
                ServerStep::Transport { name, transport: PyServerTransport::Tcp(address) },
            ),
    {
        self.record(ServerStep::Transport { name, transport: PyServerTransport::Tcp(address) })
    }

    /// Adds a WebSocket transport on `address` under `name`.
    pub fn add_websocket_transport(&mut self, name: String, address: String) -> (res: Result<
        (),
        String,
    >)
        ensures
            final(self).consumed() == old(self).consumed(),
            old(self).consumed() ==> (res matches Err(e) && e@ == consumed_message())
                && final(self).steps() == old(self).steps(),
            !old(self).consumed() ==> res is Ok && final(self).steps() == old(self).steps().push(
                ServerStep::Transport { name, transport: PyServerTransport::WebSocket(address) },
            ),
    {
        self.record(ServerStep::Transport { name, transport: PyServerTransport::WebSocket(address) })
    }

    /// Adds a QUIC transport on `address` under `name`.
    pub fn add_quic_transport(&mut self, name: String, address: String) -> (res: Result<(), String>)
        ensures
            final(self).consumed() == old(self).consumed(),
            old(self).consumed() ==> (res matches Err(e) && e@ == consumed_message())
                && final(self).steps() == old(self).steps(),
            !old(self).consumed() ==> res is Ok && final(self).steps() == old(self).steps().push(
                ServerStep::Transport { name, transport: PyServerTransport::Quic(address) },
            ),
    {
        self.record(ServerStep::Transport { name, transport: PyServerTransport::Quic(address) })
    }

    /// Adds an Iroh transport under `name`, with the private key if given.
    pub fn add_iroh_transport(&mut self, name: String, private_key: Option<String>) -> (res: Result<
        (),
        String,
    >)
        ensures
            final(self).consumed() == old(self).consumed(),
            old(self).consumed() ==> (res matches Err(e) && e@ == consumed_message())
                && final(self).steps() == old(self).steps(),
            !old(self).consumed() ==> res is Ok && final(self).steps() == old(self).steps().push(
                ServerStep::Transport { name, transport: PyServerTransport::Iroh(private_key) },
            ),
    {
        self.record(ServerStep::Transport { name, transport: PyServerTransport::Iroh(private_key) })
    }

    /// Sets how requests are answered: by the Python handler when one is
    /// given, else by echoing them.
    pub fn acceptor(&mut self, python_handler: bool) -> (res: Result<(), String>)
        ensures
            final(self).consumed() == old(self).consumed(),
            old(self).consumed() ==> (res matches Err(e) && e@ == consumed_message())
                && final(self).steps() == old(self).steps(),
            !old(self).consumed() ==> res is Ok && final(self).steps() == old(self).steps().push(
                ServerStep::Acceptor { python_handler },
            ),
    {
        self.record(ServerStep::Acceptor { python_handler })
    }

    /// Sets the fragmentation size.
    pub fn fragment(&mut self, mtu: usize) -> (res: Result<(), String>)
        ensures
            final(self).consumed() == old(self).consumed(),
            old(self).consumed() ==> (res matches Err(e) && e@ == consumed_message())
                && final(self).steps() == old(self).steps(),
            !old(self).consumed() ==> res is Ok && final(self).steps() == old(self).steps().push(
                ServerStep::Fragment { mtu },
            ),
    {
        self.record(ServerStep::Fragment { mtu })
    }

    /// Sets the start hook: the Python function when one is given, else
    /// nothing.
    pub fn on_start(&mut self, python_handler: bool) -> (res: Result<(), String>)
        ensures
            final(self).consumed() == old(self).consumed(),
            old(self).consumed() ==> (res matches Err(e) && e@ == consumed_message())
                && final(self).steps() == old(self).steps(),
            !old(self).consumed() ==> res is Ok && final(self).steps() == old(self).steps().push(
                ServerStep::OnStart { python_handler },
            ),
    {
        self.record(ServerStep::OnStart { python_handler })
    }

    /// Hands over the recorded steps, in order, to start the server; the
    /// builder is then used up. A builder that was already served refuses.
    pub fn serve(&mut self) -> (res: Result<Vec<ServerStep>, String>)
        ensures
            final(self).consumed(),
            old(self).consumed() ==> (res matches Err(e) && e@ == consumed_message())
                && final(self).steps() == old(self).steps(),
            !old(self).consumed() ==> (res matches Ok(steps) && steps@ == old(self).steps())
                && final(self).steps() == Seq::<ServerStep>::empty(),
    {
        if self.consumed {
            Err(String::from_str("Builder already consumed"))
        } else {
            let mut steps: Vec<ServerStep> = Vec::new();
            std::mem::swap(&mut steps, &mut self.steps);
            self.consumed = true;
            Ok(steps)
        }
    }
}

} // verus!
