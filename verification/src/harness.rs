//! The dual mock-server harness, as a state machine: each mock server owns
//! its listener exclusively and moves Listening -> Draining -> Stopped; the
//! orchestrator starts both servers before the scenario runs, sends both
//! shutdown signals after the scenario finishes -- whatever its outcome --
//! and reports completion only once both servers have fully drained. The
//! listening, connection I/O and signalling themselves happen outside the
//! library; these transitions are the order they must happen in.

use vstd::prelude::*;

verus! {

/// Lifecycle phase of one mock server.
#[derive(Debug, Clone, Copy, PartialEq, Eq, Structural)]
pub enum ServerPhase {
    /// Bound and accepting connections.
    Listening,
    /// Shutdown signalled: no new connections, in-flight ones finish.
    Draining,
    /// Fully drained.
    Stopped,
}

/// One mock server: its bound address, its phase, and the connections still
/// in flight. The address is fixed when the listener binds and never
/// changes.
#[derive(Debug, Clone)]
pub struct ServerState {
    pub addr: String,
    pub phase: ServerPhase,
    pub in_flight: u64,
}

impl ServerState {
    /// A server is stopped only when drained, and stops accepting work the
    /// moment it leaves `Listening`.
    pub open spec fn wf(&self) -> bool {
        self.phase is Stopped ==> self.in_flight == 0
    }

    /// Bind: the server starts listening at its address with no connection
    /// in flight.
    pub fn bind(addr: String) -> (s: Self)
        ensures
            s.wf(),
            s.phase is Listening,
            s.in_flight == 0,
            s.addr@ == addr@,
    {
        ServerState { addr, phase: ServerPhase::Listening, in_flight: 0 }
    }

    /// Accept one connection: only a listening server accepts.
    pub fn accept(&mut self)
        requires
            old(self).wf(),
            old(self).phase is Listening,
            old(self).in_flight < u64::MAX,
        ensures
            final(self).wf(),
            final(self).phase is Listening,
            final(self).in_flight == old(self).in_flight + 1,
            final(self).addr@ == old(self).addr@,
    {
        self.in_flight = self.in_flight + 1;
    }

    /// Finish one in-flight connection; allowed while listening or
    /// draining.
    pub fn finish(&mut self)
        requires
            old(self).wf(),
            old(self).in_flight > 0,
        ensures
            final(self).wf(),
            final(self).phase == old(self).phase,
            final(self).in_flight == old(self).in_flight - 1,
            final(self).addr@ == old(self).addr@,
    {
        self.in_flight = self.in_flight - 1;
    }

    /// Observe the one-shot shutdown signal: stop accepting, keep draining.
    pub fn signal_shutdown(&mut self)
        requires
            old(self).wf(),
            old(self).phase is Listening,
        ensures
            final(self).wf(),
            final(self).phase is Draining,
            final(self).in_flight == old(self).in_flight,
            final(self).addr@ == old(self).addr@,
    {
        self.phase = ServerPhase::Draining;
    }

    /// A draining server with nothing in flight has stopped.
    pub fn drained(&mut self)
        requires
            old(self).wf(),
            old(self).phase is Draining,
            old(self).in_flight == 0,
        ensures
            final(self).wf(),
            final(self).phase is Stopped,
            final(self).in_flight == 0,
            final(self).addr@ == old(self).addr@,
    {
        self.phase = ServerPhase::Stopped;
    }
}

/// The issuer URL the registry server is configured to trust: derived from
/// the identity provider's bound address, passed once at construction and
/// never shared otherwise.
pub fn registry_issuer(identity_addr: &str) -> (r: String)
    ensures
        r@ == "http://"@ + identity_addr@,
{
    let mut out = plain_scheme().to_owned();
    out.append(identity_addr);
    out
}

/// The scheme of the identity provider's issuer URL.
fn plain_scheme() -> (r: &'static str)
    ensures
        r@ == "http://"@,
{
    "http://"
}

/// Phase of one orchestrated test run.
#[derive(Debug, Clone, Copy, PartialEq, Eq, Structural)]
pub enum RunPhase {
    /// Both servers are up; the scenario has not started.
    Starting,
    /// The scenario closure is running.
    ScenarioRunning,
    /// The scenario finished (passed or failed).
    ScenarioDone,
    /// Both shutdown signals are sent; completions are awaited.
    ShutdownSignaled,
    /// Both servers stopped.
    Complete,
}

/// The orchestrator of one test run: the identity provider, the registry
/// server, and where the run stands. The registry server is constructed
/// with the identity provider's address; beyond that the two share nothing.
#[derive(Debug, Clone)]
pub struct Orchestrator {
    pub identity: ServerState,
    pub registry: ServerState,
    pub phase: RunPhase,
    pub scenario_passed: Option<bool>,
}

impl Orchestrator {
    /// The run's ordering guarantees: the scenario sees two listening
    /// servers; shutdown signals go to both servers before either
    /// completion is awaited; completion means both servers stopped; and a
    /// scenario outcome is on record from the moment the scenario ends,
    /// whether or not it passed.
    pub open spec fn wf(&self) -> bool {
        &&& self.identity.wf()
        &&& self.registry.wf()
        &&& (self.phase is Starting || self.phase is ScenarioRunning || self.phase
            is ScenarioDone) ==> (self.identity.phase is Listening && self.registry.phase
            is Listening)
        &&& self.phase is ShutdownSignaled ==> (!(self.identity.phase is Listening) && !(
        self.registry.phase is Listening))
        &&& self.phase is Complete ==> (self.identity.phase is Stopped && self.registry.phase
            is Stopped)
        &&& (self.phase is Starting || self.phase is ScenarioRunning) ==> self.scenario_passed
            is None
        &&& (self.phase is ScenarioDone || self.phase is ShutdownSignaled || self.phase
            is Complete) ==> self.scenario_passed is Some
    }

    /// Start both servers concurrently. Startup completes -- both listeners
    /// bound, both addresses known -- before anything else happens.
    pub fn start(identity_addr: String, registry_addr: String) -> (o: Self)
        ensures
            o.wf(),
            o.phase is Starting,
            o.identity.addr@ == identity_addr@,
            o.registry.addr@ == registry_addr@,
            o.identity.in_flight == 0,
            o.registry.in_flight == 0,
    {
        Orchestrator {
            identity: ServerState::bind(identity_addr),
            registry: ServerState::bind(registry_addr),
            phase: RunPhase::Starting,
            scenario_passed: None,
        }
    }

    /// Hand the scenario both addresses and let it run: only once both
    /// servers listen.
    pub fn begin_scenario(&mut self)
        requires
            old(self).wf(),
            old(self).phase is Starting,
        ensures
            final(self).wf(),
            final(self).phase is ScenarioRunning,
            final(self).identity == old(self).identity,
            final(self).registry == old(self).registry,
    {
        self.phase = RunPhase::ScenarioRunning;
    }

    /// The scenario finished, passing or failing. Either way the run moves
    /// on to shutting the servers down: a failed assertion must not leak
    /// the listeners.
    pub fn scenario_finished(&mut self, passed: bool)
        requires
            old(self).wf(),
            old(self).phase is ScenarioRunning,
        ensures
            final(self).wf(),
            final(self).phase is ScenarioDone,
            final(self).scenario_passed == Some(passed),
            final(self).identity == old(self).identity,
            final(self).registry == old(self).registry,
    {
        self.phase = RunPhase::ScenarioDone;
        self.scenario_passed = Some(passed);
    }

    /// Send both shutdown signals, to both servers, before awaiting either
    /// completion: shutdown is concurrent, and strictly after the scenario.
    pub fn begin_shutdown(&mut self)
        requires
            old(self).wf(),
            old(self).phase is ScenarioDone,
        ensures
            final(self).wf(),
            final(self).phase is ShutdownSignaled,
            final(self).identity.phase is Draining,
            final(self).registry.phase is Draining,
            final(self).identity.in_flight == old(self).identity.in_flight,
            final(self).registry.in_flight == old(self).registry.in_flight,
            final(self).scenario_passed == old(self).scenario_passed,
    {
        self.identity.signal_shutdown();
        self.registry.signal_shutdown();
        self.phase = RunPhase::ShutdownSignaled;
    }

    /// One in-flight identity-provider connection finished while draining.
    pub fn identity_connection_finished(&mut self)
        requires
            old(self).wf(),
            old(self).phase is ShutdownSignaled,
            old(self).identity.phase is Draining,
            old(self).identity.in_flight > 0,
        ensures
            final(self).wf(),
            final(self).phase is ShutdownSignaled,
            final(self).identity.phase is Draining,
            final(self).identity.in_flight == old(self).identity.in_flight - 1,
            final(self).registry == old(self).registry,
            final(self).scenario_passed == old(self).scenario_passed,
    {
        self.identity.finish();
    }

    /// One in-flight registry connection finished while draining.
    pub fn registry_connection_finished(&mut self)
        requires
            old(self).wf(),
            old(self).phase is ShutdownSignaled,
            old(self).registry.phase is Draining,
            old(self).registry.in_flight > 0,
        ensures
            final(self).wf(),
            final(self).phase is ShutdownSignaled,
            final(self).registry.phase is Draining,
            final(self).registry.in_flight == old(self).registry.in_flight - 1,
            final(self).identity == old(self).identity,
            final(self).scenario_passed == old(self).scenario_passed,
    {
        self.registry.finish();
    }

    /// Both servers have drained: the run is complete. No deadline is
    /// enforced on a hung connection; completion simply waits.
    pub fn confirm_stopped(&mut self)
        requires
            old(self).wf(),
            old(self).phase is ShutdownSignaled,
            old(self).identity.phase is Draining,
            old(self).registry.phase is Draining,
            old(self).identity.in_flight == 0,
            old(self).registry.in_flight == 0,
        ensures
            final(self).wf(),
            final(self).phase is Complete,
            final(self).identity.phase is Stopped,
            final(self).registry.phase is Stopped,
            final(self).scenario_passed == old(self).scenario_passed,
    {
        self.identity.drained();
        self.registry.drained();
        self.phase = RunPhase::Complete;
    }
}

} // verus!
