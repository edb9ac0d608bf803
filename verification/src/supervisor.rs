//! The life of the one backend child process.
//!
//! A [`Supervisor`] either holds the handle of a running child or holds
//! none. It is changed in two ways only, by a start and by a stop, and each
//! of them is a short exchange with the caller: the supervisor says what is
//! to be done (spawn this command, terminate this child), the caller does it
//! and reports how it went. While such an exchange is open the supervisor
//! itself is not at hand, so a second start or stop cannot cut in between
//! the look at the current handle and the installation of the next one. A
//! caller that shares a supervisor among threads keeps it behind one lock
//! and holds that lock for the length of the exchange.

use vstd::prelude::*;
use crate::clock::{rfc3339_at, rfc3339_text};
use crate::error::{Failure, SupervisorError};
use crate::locator::{
    entry_script,
    entry_script_of,
    located_runtime,
    system_runtime_of,
    DeploymentMode,
    Locator,
    Roots,
};
use crate::path::Platform;
use crate::probe::{base_url, base_url_of, HealthStatus, STANDARD_PORT};
use crate::text::{decimal, texts, to_decimal};

verus! {

/// Where the supervisor stands in the life of its child.
#[derive(Clone, Copy, Debug, PartialEq, Eq, Structural)]
pub enum ProcessState {
    /// No child is held.
    Idle,
    /// A child is being spawned.
    Starting,
    /// A child is held.
    Running,
    /// The child is being terminated.
    Stopping,
}

/// One variable of a child's environment.
#[derive(Clone, Debug, PartialEq, Eq)]
pub struct EnvVar {
    pub name: String,
    pub value: String,
}

/// All that the operating system is told when the child is created.
#[derive(Clone, Debug, PartialEq, Eq)]
pub struct SpawnCommand {
    /// The executable to run.
    pub program: String,
    /// Its arguments.
    pub args: Vec<String>,
    /// The directory in which it runs.
    pub working_dir: String,
    /// What is added to the environment it inherits.
    pub env: Vec<EnvVar>,
    /// Whether the child must be created without a console window of its
    /// own.
    pub hide_console: bool,
}

/// A spawn command as plain text values.
pub struct Launch {
    pub program: Seq<char>,
    pub args: Seq<Seq<char>>,
    pub working_dir: Seq<char>,
    pub env: Seq<(Seq<char>, Seq<char>)>,
    pub hide_console: bool,
}

/// Name and value of each variable of `env`, in order.
pub open spec fn env_texts(env: Seq<EnvVar>) -> Seq<(Seq<char>, Seq<char>)> {
    Seq::new(env.len(), |i: int| (env[i].name@, env[i].value@))
}

impl View for SpawnCommand {
    type V = Launch;

    open spec fn view(&self) -> Launch {
        Launch {
            program: self.program@,
            args: texts(self.args@),
            working_dir: self.working_dir@,
            env: env_texts(self.env@),
            hide_console: self.hide_console,
        }
    }
}

/// What the child finds in its environment: the port to listen on and the
/// application's data directory, and in a packaged application also the
/// production flag and the switch for verbose logging.
pub open spec fn environment_of(roots: Roots, port: u16) -> Seq<(Seq<char>, Seq<char>)> {
    match roots.mode {
        DeploymentMode::Development => seq![
            ("PORT"@, decimal(port as nat)),
            ("TAURI_APP_DATA"@, roots.data_dir),
        ],
        DeploymentMode::Packaged => seq![
            ("PORT"@, decimal(port as nat)),
            ("NODE_ENV"@, "production"@),
            ("TAURI_APP_DATA"@, roots.data_dir),
            ("DEBUG"@, "biome:*"@),
        ],
    }
}

/// The command that starts the backend rooted at `backend_root` on `port`
/// with the executable `runtime`: the runtime is given the entry script as
/// its one argument and runs in the backend's root; on Windows it gets no
/// console window.
pub open spec fn launch_of(roots: Roots, port: u16, backend_root: Seq<char>, runtime: Seq<char>)
    -> Launch {
    Launch {
        program: runtime,
        args: seq![entry_script_of(roots.platform, backend_root)],
        working_dir: backend_root,
        env: environment_of(roots, port),
        hide_console: roots.platform == Platform::Windows,
    }
}

/// A request to start the backend.
#[derive(Clone, Debug, PartialEq, Eq)]
pub struct StartRequest {
    /// The port on which the backend is to listen.
    pub port: u16,
    /// The directory that holds the backend.
    pub backend_root: String,
}

/// What the caller saw of the machine before a start.
#[derive(Clone, Debug, PartialEq, Eq)]
pub struct Observations {
    /// Whether the entry script below the backend root exists.
    pub entry_script_present: bool,
    /// What a health probe of the target endpoint said.
    pub probe: HealthStatus,
    /// For each runtime candidate, in order, whether it exists.
    pub runtime_present: Vec<bool>,
}

/// What a start comes to.
pub enum StartDecision {
    /// The entry script is missing: the start fails.
    Refuse,
    /// A backend already answers: it is used, and nothing is spawned.
    Reuse,
    /// A child is held that does not answer: it is stopped first.
    Replace,
    /// No child is held: one is spawned.
    Launch,
}

/// What a start comes to for a supervisor that holds a child or not
/// (`holding`), given what was seen.
pub open spec fn start_decision(holding: bool, entry_script_present: bool, probe: HealthStatus)
    -> StartDecision {
    if !entry_script_present {
        StartDecision::Refuse
    } else if probe == HealthStatus::Responding {
        StartDecision::Reuse
    } else if holding {
        StartDecision::Replace
    } else {
        StartDecision::Launch
    }
}

/// The state of a supervisor that holds `held`.
pub open spec fn state_of<H>(held: Option<H>) -> ProcessState {
    match held {
        Some(_) => ProcessState::Running,
        None => ProcessState::Idle,
    }
}

/// What a supervisor holds after a spawn that went as `spawned`.
pub open spec fn held_after_spawn<H>(spawned: Result<H, String>) -> Option<H> {
    match spawned {
        Ok(child) => Some(child),
        Err(_) => None,
    }
}

/// What a start that went as far as the spawn answers.
pub open spec fn answer_after_spawn<H>(port: u16, spawned: Result<H, String>) -> Result<
    u16,
    Failure,
> {
    match spawned {
        Ok(_) => Ok(port),
        Err(reason) => Err(Failure::SpawnFailed { reason: reason@ }),
    }
}

/// What a stop answers whose termination went as `killed`.
pub open spec fn answer_after_kill(killed: Result<(), String>) -> Result<(), Failure> {
    match killed {
        Ok(_) => Ok(()),
        Err(reason) => Err(Failure::TerminationFailed { reason: reason@ }),
    }
}

/// An answer as plain text values.
pub open spec fn answer_view<T>(answer: Result<T, SupervisorError>) -> Result<T, Failure> {
    match answer {
        Ok(value) => Ok(value),
        Err(e) => Err(e@),
    }
}

/// The supervisor's account of its children: whether it holds one, how
/// many were created, and how many were handed out to be terminated.
pub struct Ledger {
    pub holding: bool,
    pub spawned: nat,
    pub released: nat,
}

impl Ledger {
    /// The ledger of a supervisor that was just made.
    pub open spec fn fresh() -> Ledger {
        Ledger { holding: false, spawned: 0, released: 0 }
    }

    /// The number of children created and not handed out since: those that
    /// the supervisor answers for.
    pub open spec fn in_charge(self) -> int {
        self.spawned - self.released
    }

    /// The children answered for are exactly those held: one or none.
    pub open spec fn balanced(self) -> bool {
        self.in_charge() == if self.holding {
            1int
        } else {
            0int
        }
    }

    /// Nothing is held and nothing is answered for.
    pub open spec fn settled_empty(self) -> bool {
        !self.holding && self.spawned == self.released
    }

    /// The ledger after the child held, if any, was handed out.
    pub open spec fn after_release(self) -> Ledger {
        if self.holding {
            Ledger { holding: false, spawned: self.spawned, released: self.released + 1 }
        } else {
            self
        }
    }

    /// The ledger after a spawn that succeeded (`created`) or failed.
    pub open spec fn after_spawn(self, created: bool) -> Ledger {
        if created {
            Ledger { holding: true, spawned: self.spawned + 1, released: self.released }
        } else {
            Ledger { holding: false, spawned: self.spawned, released: self.released }
        }
    }
}

/// The owner of the child's handle. `H` is the handle's type.
///
/// A supervisor answers for the child it holds and for no other: every
/// value of this type has a balanced ledger.
pub struct Supervisor<H> {
    handle: Option<H>,
    spawned: Ghost<nat>,
    released: Ghost<nat>,
}

/// A start or stop that has come to its end: the supervisor as it now
/// stands, and the answer for whoever asked.
pub struct Settled<H, T> {
    pub supervisor: Supervisor<H>,
    pub answer: Result<T, SupervisorError>,
}

/// A start that has come as far as the spawn. The supervisor is in state
/// `Starting`; it holds nothing and answers for no child.
pub struct PendingStart {
    port: u16,
    command: SpawnCommand,
    spawned: Ghost<nat>,
    released: Ghost<nat>,
}

/// A start that waits for the child held so far to be terminated. The
/// supervisor is in state `Stopping`.
pub struct PendingReplace {
    next: PendingStart,
}

/// A stop that waits for the child to be terminated. The supervisor is in
/// state `Stopping`; it holds nothing and answers for no child.
pub struct PendingStop {
    spawned: Ghost<nat>,
    released: Ghost<nat>,
}

/// The next move of a start.
pub enum StartStep<H> {
    /// The start is over.
    Settled(Settled<H, u16>),
    /// Terminate `stale`, then report to `next`.
    Replace { stale: H, next: PendingReplace },
    /// Spawn the command of this start, then report to it.
    Launch(PendingStart),
}

/// The next move of a start once the child held before is gone.
pub enum ReplaceStep<H> {
    /// The start is over.
    Settled(Settled<H, u16>),
    /// Spawn the command of this start, then report to it.
    Launch(PendingStart),
}

/// The next move of a stop.
pub enum StopStep<H> {
    /// The stop is over.
    Settled(Settled<H, ()>),
    /// Terminate `child`, then report to `next`.
    Kill { child: H, next: PendingStop },
}

/// A snapshot of the backend for whoever asks.
#[derive(Clone, Debug, PartialEq, Eq)]
pub struct StatusReport {
    pub process_state: ProcessState,
    pub http_status: HealthStatus,
    pub port: u16,
    pub endpoint_url: String,
    pub timestamp: String,
}

fn environment(locator: &Locator, port: u16) -> (res: Vec<EnvVar>)
    ensures
        env_texts(res@) == environment_of(locator@, port),
{
    let mut env: Vec<EnvVar> = Vec::new();
    env.push(EnvVar { name: String::from_str("PORT"), value: to_decimal(port as u64) });
    match locator.mode {
        DeploymentMode::Development => {},
        DeploymentMode::Packaged => {
            env.push(
                EnvVar {
                    name: String::from_str("NODE_ENV"),
                    value: String::from_str("production"),
                },
            );
        },
    }
    env.push(EnvVar { name: String::from_str("TAURI_APP_DATA"), value: locator.data_dir.clone() });
    match locator.mode {
        DeploymentMode::Development => {},
        DeploymentMode::Packaged => {
            env.push(
                EnvVar { name: String::from_str("DEBUG"), value: String::from_str("biome:*") },
            );
        },
    }
    env
}

/// The command that starts the backend rooted at `backend_root` on `port`
/// with the executable `runtime`.
pub fn spawn_command(locator: &Locator, port: u16, backend_root: &str, runtime: String) -> (res:
    SpawnCommand)
    ensures
        res@ == launch_of(locator@, port, backend_root@, runtime@),
{
    let mut args: Vec<String> = Vec::new();
    args.push(entry_script(locator.platform, backend_root));
    assert(texts(args@) =~= seq![entry_script_of(locator.platform, backend_root@)]);
    let hide_console = match locator.platform {
        Platform::Windows => true,
        Platform::Unix => false,
    };
    SpawnCommand {
        program: runtime,
        args,
        working_dir: String::from_str(backend_root),
        env: environment(locator, port),
        hide_console,
    }
}

/// The start that the application makes on its own when it comes up.
///
/// In development there is none: the backend is started by whoever runs
/// the source tree. A packaged application starts the backend that the
/// locator settles on, on the standard port; where the locator finds none,
/// the failure lists what was searched, and the application goes on
/// without a backend.
pub fn autostart(locator: &Locator, present: &Vec<bool>) -> (res: Result<
    Option<StartRequest>,
    SupervisorError,
>)
    ensures
        match locator.mode {
            DeploymentMode::Development => res == Ok::<Option<StartRequest>, SupervisorError>(
                None,
            ),
            DeploymentMode::Packaged => match locator@.located_backend(present@) {
                Ok(dir) => {
                    &&& res matches Ok(Some(request))
                    &&& request.port == STANDARD_PORT
                    &&& request.backend_root@ == dir
                },
                Err(failure) => res matches Err(e) && e@ == failure,
            },
        },
{
    match locator.mode {
        DeploymentMode::Development => Ok(None),
        DeploymentMode::Packaged => match locator.locate_backend(present) {
            Ok(backend_root) => Ok(Some(StartRequest { port: STANDARD_PORT, backend_root })),
            Err(e) => Err(e),
        },
    }
}

impl<H> Supervisor<H> {
    #[verifier::type_invariant]
    spec fn answers_for_what_it_holds(self) -> bool {
        self.spawned@ - self.released@ == if self.handle is Some {
            1int
        } else {
            0int
        }
    }

    /// The handle held, if any.
    pub closed spec fn held(&self) -> Option<H> {
        self.handle
    }

    /// The account of the children created and handed out so far.
    pub closed spec fn ledger(&self) -> Ledger {
        Ledger {
            holding: self.handle is Some,
            spawned: self.spawned@,
            released: self.released@,
        }
    }

    /// The ledger says that a child is held exactly when one is.
    pub proof fn lemma_ledger_holding(self)
        ensures
            self.ledger().holding == (self.held() is Some),
    {
    }

    /// A supervisor that holds no child.
    pub fn new() -> (res: Self)
        ensures
            res.held() is None,
            res.ledger() == Ledger::fresh(),
    {
        Supervisor { handle: None, spawned: Ghost(0), released: Ghost(0) }
    }

    /// `Running` while a child is held, `Idle` otherwise. Either way the
    /// supervisor answers for the child it holds and for no other.
    pub fn state(&self) -> (res: ProcessState)
        ensures
            res == state_of(self.held()),
            self.ledger().balanced(),
    {
        proof {
            use_type_invariant(self);
        }
        match self.handle {
            Some(_) => ProcessState::Running,
            None => ProcessState::Idle,
        }
    }

    /// The handle held, if any.
    pub fn handle(&self) -> (res: Option<&H>)
        ensures
            match res {
                Some(child) => self.held() == Some(*child),
                None => self.held() is None,
            },
    {
        self.handle.as_ref()
    }

    /// Opens a start.
    ///
    /// Without the entry script the start fails, and the failure names the
    /// script's path. Where a backend already answers the probe it is used:
    /// the start succeeds with the requested port and nothing is spawned. In
    /// both cases the supervisor is handed back as it was. Otherwise a child
    /// is to be spawned, with the runtime that the locator settles on; a
    /// child that is held but does not answer is handed out first, to be
    /// terminated.
    pub fn begin_start(self, locator: &Locator, request: &StartRequest, seen: &Observations) -> (step:
        StartStep<H>)
        ensures
            match start_decision(self.held() is Some, seen.entry_script_present, seen.probe) {
                StartDecision::Refuse => {
                    &&& step matches StartStep::Settled(end)
                    &&& end.supervisor == self
                    &&& answer_view(end.answer) == Err::<u16, Failure>(
                        Failure::DiscoveryFailed {
                            searched: seq![
                                entry_script_of(locator.platform, request.backend_root@),
                            ],
                        },
                    )
                },
                StartDecision::Reuse => {
                    &&& step matches StartStep::Settled(end)
                    &&& end.supervisor == self
                    &&& answer_view(end.answer) == Ok::<u16, Failure>(request.port)
                },
                StartDecision::Replace => {
                    &&& step matches StartStep::Replace { stale, next }
                    &&& self.held() == Some(stale)
                    &&& next.start().ledger() == self.ledger().after_release()
                    &&& next.start().port() == request.port
                    &&& next.start().launch() == launch_of(
                        locator@,
                        request.port,
                        request.backend_root@,
                        located_runtime(
                            locator@.runtime_candidates(),
                            seen.runtime_present@,
                            system_runtime_of(locator.platform),
                        ),
                    )
                },
                StartDecision::Launch => {
                    &&& step matches StartStep::Launch(next)
                    &&& next.ledger() == self.ledger()
                    &&& next.port() == request.port
                    &&& next.launch() == launch_of(
                        locator@,
                        request.port,
                        request.backend_root@,
                        located_runtime(
                            locator@.runtime_candidates(),
                            seen.runtime_present@,
                            system_runtime_of(locator.platform),
                        ),
                    )
                },
            },
    {
        proof {
            use_type_invariant(&self);
        }
        if !seen.entry_script_present {
            let mut searched: Vec<String> = Vec::new();
            searched.push(entry_script(locator.platform, request.backend_root.as_str()));
            assert(texts(searched@) =~= seq![
                entry_script_of(locator.platform, request.backend_root@),
            ]);
            return StartStep::Settled(
                Settled {
                    supervisor: self,
                    answer: Err(SupervisorError::DiscoveryFailed { searched }),
                },
            );
        }
        match seen.probe {
            HealthStatus::Responding => {
                return StartStep::Settled(Settled { supervisor: self, answer: Ok(request.port) });
            },
            _ => {},
        }
        let runtime = locator.locate_runtime(&seen.runtime_present);
        let command = spawn_command(locator, request.port, request.backend_root.as_str(), runtime);
        match self.handle {
            Some(stale) => StartStep::Replace {
                stale,
                next: PendingReplace {
                    next: PendingStart {
                        port: request.port,
                        command,
                        spawned: self.spawned,
                        released: Ghost((self.released@ + 1) as nat),
                    },
                },
            },
            None => StartStep::Launch(
                PendingStart {
                    port: request.port,
                    command,
                    spawned: self.spawned,
                    released: self.released,
                },
            ),
        }
    }

    /// Opens a stop.
    ///
    /// A supervisor that holds no child is handed back as it is, with
    /// success. Otherwise the child is handed out, to be terminated.
    pub fn begin_stop(self) -> (step: StopStep<H>)
        ensures
            match self.held() {
                None => {
                    &&& step matches StopStep::Settled(end)
                    &&& end.supervisor == self
                    &&& end.answer is Ok
                },
                Some(held) => {
                    &&& step matches StopStep::Kill { child, next }
                    &&& child == held
                    &&& next.ledger() == self.ledger().after_release()
                },
            },
    {
        proof {
            use_type_invariant(&self);
        }
        match self.handle {
            Some(child) => StopStep::Kill {
                child,
                next: PendingStop {
                    spawned: self.spawned,
                    released: Ghost((self.released@ + 1) as nat),
                },
            },
            None => StopStep::Settled(
                Settled {
                    supervisor: Supervisor {
                        handle: None,
                        spawned: self.spawned,
                        released: self.released,
                    },
                    answer: Ok(()),
                },
            ),
        }
    }

    /// The report on the backend at `port`, given what a probe just said
    /// and the time at which it was taken.
    pub fn status_at(&self, port: u16, probe: HealthStatus, timestamp: String) -> (res:
        StatusReport)
        ensures
            res.process_state == state_of(self.held()),
            res.http_status == probe,
            res.port == port,
            res.endpoint_url@ == base_url_of(port),
            res.timestamp == timestamp,
    {
        StatusReport {
            process_state: self.state(),
            http_status: probe,
            port,
            endpoint_url: base_url(port),
            timestamp,
        }
    }

    /// The report on the backend at `port`, given what a probe just said
    /// and the moment at which it was taken: `nanos` nanoseconds behind the
    /// `secs`-th second since the beginning of 1970. There is no report for
    /// a moment that cannot be written as a date.
    pub fn status(&self, port: u16, probe: HealthStatus, secs: i64, nanos: u32) -> (res: Option<
        StatusReport,
    >)
        ensures
            match rfc3339_text(secs, nanos) {
                Some(stamp) => {
                    &&& res matches Some(report)
                    &&& report.process_state == state_of(self.held())
                    &&& report.http_status == probe
                    &&& report.port == port
                    &&& report.endpoint_url@ == base_url_of(port)
                    &&& report.timestamp@ == stamp
                },
                None => res is None,
            },
    {
        match rfc3339_at(secs, nanos) {
            Some(timestamp) => Some(self.status_at(port, probe, timestamp)),
            None => None,
        }
    }
}

impl PendingStart {
    #[verifier::type_invariant]
    spec fn answers_for_none(self) -> bool {
        self.spawned@ == self.released@
    }

    /// The port that the start was asked for.
    pub closed spec fn port(&self) -> u16 {
        self.port
    }

    /// The command to spawn.
    pub closed spec fn launch(&self) -> Launch {
        self.command@
    }

    /// The account of the children created and handed out so far.
    pub closed spec fn ledger(&self) -> Ledger {
        Ledger { holding: false, spawned: self.spawned@, released: self.released@ }
    }

    /// `Starting`. Nothing is held and no child is answered for.
    pub fn state(&self) -> (res: ProcessState)
        ensures
            res == ProcessState::Starting,
            self.ledger().settled_empty(),
    {
        proof {
            use_type_invariant(self);
        }
        ProcessState::Starting
    }

    /// The port that the start was asked for.
    pub fn requested_port(&self) -> (res: u16)
        ensures
            res == self.port(),
    {
        self.port
    }

    /// The command to spawn.
    pub fn command(&self) -> (res: &SpawnCommand)
        ensures
            res@ == self.launch(),
    {
        &self.command
    }

    /// Closes the start with the outcome of the spawn.
    ///
    /// A child that was created is held from now on, and the start answers
    /// with the port. Where the spawn failed nothing is held, and the start
    /// fails with the operating system's reason.
    pub fn complete<H>(self, spawned: Result<H, String>) -> (end: Settled<H, u16>)
        ensures
            end.supervisor.held() == held_after_spawn(spawned),
            end.supervisor.ledger() == self.ledger().after_spawn(spawned is Ok),
            answer_view(end.answer) == answer_after_spawn(self.port(), spawned),
    {
        proof {
            use_type_invariant(&self);
        }
        match spawned {
            Ok(child) => Settled {
                supervisor: Supervisor {
                    handle: Some(child),
                    spawned: Ghost(self.spawned@ + 1),
                    released: self.released,
                },
                answer: Ok(self.port),
            },
            Err(reason) => Settled {
                supervisor: Supervisor {
                    handle: None,
                    spawned: self.spawned,
                    released: self.released,
                },
                answer: Err(SupervisorError::SpawnFailed { reason }),
            },
        }
    }
}

impl PendingReplace {
    /// The start that goes on when the child held before is gone.
    pub closed spec fn start(&self) -> PendingStart {
        self.next
    }

    /// `Stopping`. Nothing is held and no child is answered for.
    pub fn state(&self) -> (res: ProcessState)
        ensures
            res == ProcessState::Stopping,
            self.start().ledger().settled_empty(),
    {
        let _ = self.next.state();
        ProcessState::Stopping
    }

    /// Goes on with the start once the termination of the child held
    /// before was tried.
    ///
    /// Where it was terminated the spawn is next. Where it could not be,
    /// the start fails with the reason and nothing is spawned. The
    /// supervisor holds nothing either way.
    pub fn stale_stopped<H>(self, killed: Result<(), String>) -> (step: ReplaceStep<H>)
        ensures
            match killed {
                Ok(_) => step matches ReplaceStep::Launch(next) && next == self.start(),
                Err(reason) => {
                    &&& step matches ReplaceStep::Settled(end)
                    &&& end.supervisor.held() is None
                    &&& end.supervisor.ledger() == self.start().ledger()
                    &&& answer_view(end.answer) == Err::<u16, Failure>(
                        Failure::TerminationFailed { reason: reason@ },
                    )
                },
            },
    {
        match killed {
            Ok(_) => ReplaceStep::Launch(self.next),
            Err(reason) => {
                proof {
                    use_type_invariant(&self.next);
                }
                ReplaceStep::Settled(
                    Settled {
                        supervisor: Supervisor {
                            handle: None,
                            spawned: self.next.spawned,
                            released: self.next.released,
                        },
                        answer: Err(SupervisorError::TerminationFailed { reason }),
                    },
                )
            },
        }
    }
}

impl PendingStop {
    #[verifier::type_invariant]
    spec fn answers_for_none(self) -> bool {
        self.spawned@ == self.released@
    }

    /// The account of the children created and handed out so far.
    pub closed spec fn ledger(&self) -> Ledger {
        Ledger { holding: false, spawned: self.spawned@, released: self.released@ }
    }

    /// `Stopping`. Nothing is held and no child is answered for.
    pub fn state(&self) -> (res: ProcessState)
        ensures
            res == ProcessState::Stopping,
            self.ledger().settled_empty(),
    {
        proof {
            use_type_invariant(self);
        }
        ProcessState::Stopping
    }

    /// Closes the stop with the outcome of the termination.
    ///
    /// The supervisor holds nothing from now on, whether the child was
    /// terminated or not. A termination that failed is reported with its
    /// reason.
    pub fn complete<H>(self, killed: Result<(), String>) -> (end: Settled<H, ()>)
        ensures
            end.supervisor.held() is None,
            end.supervisor.ledger() == self.ledger(),
            answer_view(end.answer) == answer_after_kill(killed),
    {
        proof {
            use_type_invariant(&self);
        }
        let answer = match killed {
            Ok(_) => Ok(()),
            Err(reason) => Err(SupervisorError::TerminationFailed { reason }),
        };
        Settled {
            supervisor: Supervisor {
                handle: None,
                spawned: self.spawned,
                released: self.released,
            },
            answer,
        }
    }
}

} // verus!
