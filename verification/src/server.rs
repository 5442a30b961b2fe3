//! The server before it is started: its port and configuration, whether
//! the sender's configuration artifact is in place, and the listeners in
//! their order of registration.
//!
//! The server reads and writes no file and opens no socket. Where the
//! artifact has to be written, or tasks have to be started, it says so in
//! the value it returns, and its owner does the work and reports back.

use crate::dispatch::{Dispatcher, DispatcherView, Phase};
use axum_server::Handle;
use tokio::sync::mpsc::{unbounded_channel, UnboundedReceiver, UnboundedSender};
use vstd::prelude::*;

verus! {

/// Stands for the configuration folder of the sending process itself,
/// wherever that is on this machine.
#[derive(Clone, Copy, Debug, PartialEq, Eq)]
pub struct DefaultFolder;

/// What the owner of a server has to do for the sender's configuration
/// artifact to be in place.
#[derive(Debug, PartialEq, Eq)]
pub enum InstallStep<P> {
    /// The artifact is in place. Nothing is to be written.
    Nothing,
    /// Write the artifact that points the sender at `port` into
    /// `cfg_folder`, then report with `complete_install`.
    Write { cfg_folder: P, port: u16 },
}

/// Why the configuration artifact could not be put in place.
#[derive(Clone, Copy, Debug, PartialEq, Eq, Structural)]
pub enum InstallError {
    /// The configuration folder could not be located.
    FolderNotFound,
    /// The artifact could not be written.
    WriteFailed,
}

/// The address on which the ingest endpoint listens.
#[derive(Clone, Copy, Debug, PartialEq, Eq)]
pub struct ListenAddr {
    pub ip: [u8; 4],
    pub port: u16,
}

/// The loopback address `127.0.0.1`.
pub open spec fn loopback() -> Seq<u8> {
    seq![127u8, 0u8, 0u8, 1u8]
}

/// Everything that the owner needs to start a server: where the ingest
/// endpoint listens, the two ends of a new event channel, the handle of
/// the network listener, and, for the dispatch task, the dispatcher and
/// the listeners in their order of registration.
#[verifier::reject_recursive_types(E)]
pub struct Launch<S, A, E> {
    pub addr: ListenAddr,
    pub sender: UnboundedSender<E>,
    pub receiver: UnboundedReceiver<E>,
    pub http_handle: Handle,
    pub dispatcher: Dispatcher,
    pub listeners: Vec<S>,
    pub async_listeners: Vec<A>,
}

/// What running a server comes to.
#[verifier::reject_recursive_types(E)]
pub enum RunStep<C, S, A, E> {
    /// The configuration artifact is not in place. The server is handed
    /// back as it was: install, then run it again.
    Install(GSIServer<C, S, A>),
    /// The server is used up; start what the launch holds.
    Launch(Launch<S, A, E>),
}

/// What a [`GSIServer`] is, as a mathematical value.
pub ghost struct ServerView<C, S, A> {
    pub port: u16,
    pub config: C,
    pub installed: bool,
    pub listeners: Seq<S>,
    pub async_listeners: Seq<A>,
}

impl<C, S, A> ServerView<C, S, A> {
    /// What is to be done for the artifact to be in `cfg_folder`: nothing
    /// once the server is installed, one write before.
    pub open spec fn install_step<P>(self, cfg_folder: P) -> InstallStep<P> {
        if self.installed {
            InstallStep::Nothing
        } else {
            InstallStep::Write { cfg_folder, port: self.port }
        }
    }

    /// The server after its owner has said how an installation went: a
    /// success is remembered, a failure changes nothing.
    pub open spec fn after_install(self, succeeded: bool) -> Self {
        ServerView { installed: self.installed || succeeded, ..self }
    }
}

/// A server that listens for state snapshots on a local port and hands
/// each one to its listeners. `C` is the configuration from which the
/// sender's configuration artifact is written, `S` and `A` are the
/// synchronous and the asynchronous listeners.
pub struct GSIServer<C, S, A> {
    port: u16,
    config: C,
    installed: bool,
    listeners: Vec<S>,
    async_listeners: Vec<A>,
}

impl<C, S, A> View for GSIServer<C, S, A> {
    type V = ServerView<C, S, A>;

    closed spec fn view(&self) -> ServerView<C, S, A> {
        ServerView {
            port: self.port,
            config: self.config,
            installed: self.installed,
            listeners: self.listeners@,
            async_listeners: self.async_listeners@,
        }
    }
}

impl<C, S, A> GSIServer<C, S, A> {
    /// A server for the given port: not installed, without listeners.
    pub fn new(config: C, port: u16) -> (server: Self)
        ensures
            server@ == (ServerView {
                port,
                config,
                installed: false,
                listeners: Seq::<S>::empty(),
                async_listeners: Seq::<A>::empty(),
            }),
    {
        GSIServer {
            port,
            config,
            installed: false,
            listeners: Vec::new(),
            async_listeners: Vec::new(),
        }
    }

    /// The port on which the server listens.
    pub fn port(&self) -> (port: u16)
        ensures
            port == self@.port,
    {
        self.port
    }

    /// The configuration that the server was made with.
    pub fn config(&self) -> (config: &C)
        ensures
            *config == self@.config,
    {
        &self.config
    }

    /// Whether the sender's configuration artifact is in place.
    pub fn is_installed(&self) -> (installed: bool)
        ensures
            installed == self@.installed,
    {
        self.installed
    }

    /// Asks for the artifact to be in the sender's own configuration
    /// folder: nothing is to be done once the server is installed, one
    /// write before.
    pub fn install(&self) -> (step: InstallStep<DefaultFolder>)
        ensures
            step == self@.install_step(DefaultFolder),
    {
        self.install_into(DefaultFolder)
    }

    /// Asks for the artifact to be in `cfg_folder`: nothing is to be done
    /// once the server is installed, one write into that folder before.
    pub fn install_into<P>(&self, cfg_folder: P) -> (step: InstallStep<P>)
        ensures
            step == self@.install_step(cfg_folder),
    {
        if self.installed {
            InstallStep::Nothing
        } else {
            InstallStep::Write { cfg_folder, port: self.port }
        }
    }

    /// Takes the owner's report of how the installation went, and hands it
    /// on. After a success the server is installed; a failure leaves it as
    /// it was.
    pub fn complete_install(&mut self, outcome: Result<(), InstallError>) -> (result: Result<
        (),
        InstallError,
    >)
        ensures
            result == outcome,
            final(self)@ == old(self)@.after_install(outcome is Ok),
    {
        if outcome.is_ok() {
            self.installed = true;
        }
        outcome
    }

    /// Registers a synchronous listener behind those already registered.
    pub fn add_event_listener(&mut self, cb: S)
        ensures
            final(self)@ == (ServerView {
                listeners: old(self)@.listeners.push(cb),
                ..old(self)@
            }),
    {
        self.listeners.push(cb);
    }

    /// Registers an asynchronous listener behind those already registered.
    pub fn add_async_event_listener(&mut self, cb: A)
        ensures
            final(self)@ == (ServerView {
                async_listeners: old(self)@.async_listeners.push(cb),
                ..old(self)@
            }),
    {
        self.async_listeners.push(cb);
    }

    /// Runs the server. A server that is not installed is handed back as
    /// it was, to be installed first. An installed server is used up and
    /// becomes a launch: the ingest endpoint listens on `127.0.0.1` at the
    /// server's port, the event channel is new, and the dispatcher is
    /// running, for the listeners in their order of registration.
    pub fn run<E>(self) -> (step: RunStep<C, S, A, E>)
        ensures
            !self@.installed ==> {
                &&& step matches RunStep::Install(server)
                &&& server@ == self@
            },
            self@.installed ==> {
                &&& step matches RunStep::Launch(launch)
                &&& launch.addr.ip@ == loopback()
                &&& launch.addr.port == self@.port
                &&& launch.listeners@ == self@.listeners
                &&& launch.async_listeners@ == self@.async_listeners
                &&& launch.dispatcher@ == (DispatcherView {
                    n_sync: self@.listeners.len() as usize,
                    n_async: self@.async_listeners.len() as usize,
                    phase: Phase::Running,
                })
            },
    {
        if !self.installed {
            return RunStep::Install(self);
        }
        let (sender, receiver) = unbounded_channel::<E>();
        let addr = ListenAddr { ip: [127, 0, 0, 1], port: self.port };
        let http_handle = Handle::new();
        let dispatcher = Dispatcher::new(self.listeners.len(), self.async_listeners.len());
        RunStep::Launch(
            Launch {
                addr,
                sender,
                receiver,
                http_handle,
                dispatcher,
                listeners: self.listeners,
                async_listeners: self.async_listeners,
            },
        )
    }
}

/// The configuration artifact is written at most once: after an
/// installation that succeeded, every later request to install, into
/// whichever folder, is answered with nothing to do, and a further report
/// changes nothing. An installation that failed leaves the server as it
/// was, so that it is asked for again.
pub proof fn lemma_installed_at_most_once<C, S, A, P>(server: ServerView<C, S, A>, cfg_folder: P)
    ensures
        server.after_install(true).install_step(cfg_folder) == InstallStep::<P>::Nothing,
        server.after_install(true).after_install(true) == server.after_install(true),
        server.after_install(true).after_install(false) == server.after_install(true),
        server.after_install(false) == server,
{
}

} // verus!
