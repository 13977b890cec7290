//! From the command line to the started application.
//!
//! Starting up is a chain of steps, each of which can end the process with
//! an exit code: the options are parsed, the scheduler is planned, a sub
//! command may run in place of the pipeline, the configuration is loaded and
//! perhaps watched, the topology is started, and the introspection server is
//! set up. The steps that reach outside are the caller's; their results
//! come in as plain values, and the functions here decide what follows.

use crate::application::{Application, ApplicationConfig, StartedApplication};
use crate::config::{
    config_result_view, copy_paths, copy_strings, ComponentKind, ComponentSpecView, Config,
    ConfigPath, ConfigPathView, ConfigView,
};
use crate::controller::{ControllerView, TopologyController};
use crate::exit::{
    config_code, exit_code_of, exitcode_config, exitcode_usage, usage_code, ExitCode,
};
use crate::opts::{Opts, RootOpts, WatcherConfig};
use crate::runtime::{build_runtime, threads_of, RuntimePlan, WorkerThreads, MAX_BLOCKING_THREADS};
use crate::run_loop::{signal_of_rounds, Round};
use crate::shutdown::{shutdown_kind, StopRace};
use crate::signal::{ShutdownError, ShutdownErrorView};
use crate::topology::{RunningTopology, TopologyView};
use vstd::prelude::*;

verus! {

/// The name that the worker threads of the scheduler go by.
pub const WORKER_THREAD_NAME: &'static str = "vector-worker";

/// The files that one component wants watched.
#[derive(Clone, Debug, PartialEq, Eq)]
pub struct ComponentConfig {
    pub config_paths: Vec<String>,
    pub component_key: String,
}

/// The mathematical value of a [`ComponentConfig`].
pub struct ComponentConfigView {
    pub config_paths: Seq<Seq<char>>,
    pub component_key: Seq<char>,
}

impl View for ComponentConfig {
    type V = ComponentConfigView;

    open spec fn view(&self) -> ComponentConfigView {
        ComponentConfigView {
            config_paths: self.config_paths.deep_view(),
            component_key: self.component_key@,
        }
    }
}

impl DeepView for ComponentConfig {
    type V = ComponentConfigView;

    open spec fn deep_view(&self) -> ComponentConfigView {
        self@
    }
}

/// What the outside world answers while the configuration is loaded.
#[derive(Debug, PartialEq, Eq)]
pub struct LoadAnswers {
    /// The configuration paths as they resolve; `None` where they cannot be
    /// resolved.
    pub resolved_paths: Option<Vec<ConfigPath>>,
    /// The configuration that loading from those paths gives, or the errors
    /// of the attempt.
    pub loaded: Result<Config, Vec<String>>,
    /// How starting the watcher went, with the reason where it failed.
    pub watcher: Result<(), String>,
}

/// What the outside world answers while the application is prepared.
#[derive(Debug, PartialEq, Eq)]
pub struct StartupAnswers {
    /// The number of threads that the machine offers.
    pub available_threads: usize,
    /// The exit code that the sub command ends with, where one runs.
    pub sub_command_status: ExitCode,
    pub load: LoadAnswers,
    /// Whether the engine could start the topology.
    pub engine_started: bool,
}

/// The mathematical value of a [`LoadAnswers`].
pub struct LoadAnswersView {
    pub resolved_paths: Option<Seq<ConfigPathView>>,
    pub loaded: Result<ConfigView, Seq<Seq<char>>>,
    pub watcher: Result<(), Seq<char>>,
}

impl View for LoadAnswers {
    type V = LoadAnswersView;

    open spec fn view(&self) -> LoadAnswersView {
        LoadAnswersView {
            resolved_paths: self.resolved_paths.deep_view(),
            loaded: config_result_view(self.loaded),
            watcher: attempt_view(self.watcher),
        }
    }
}

/// The mathematical value of a [`StartupAnswers`].
pub struct StartupAnswersView {
    pub available_threads: usize,
    pub sub_command_status: ExitCode,
    pub load: LoadAnswersView,
    pub engine_started: bool,
}

impl View for StartupAnswers {
    type V = StartupAnswersView;

    open spec fn view(&self) -> StartupAnswersView {
        StartupAnswersView {
            available_threads: self.available_threads,
            sub_command_status: self.sub_command_status,
            load: self.load@,
            engine_started: self.engine_started,
        }
    }
}

/// How setting up the introspection server went.
#[derive(Clone, Debug, PartialEq, Eq)]
pub enum ApiSetup {
    /// The configuration does not ask for the server.
    Disabled,
    /// The server runs.
    Started,
    /// The server could not be started. The error goes to the crash channel.
    Failed(ShutdownError),
}

/// The mathematical value of an [`ApiSetup`].
pub enum ApiSetupView {
    Disabled,
    Started,
    Failed(ShutdownErrorView),
}

impl View for ApiSetup {
    type V = ApiSetupView;

    open spec fn view(&self) -> ApiSetupView {
        match self {
            ApiSetup::Disabled => ApiSetupView::Disabled,
            ApiSetup::Started => ApiSetupView::Started,
            ApiSetup::Failed(error) => ApiSetupView::Failed(error@),
        }
    }
}

/// The view of an attempt to start something, with the reason where it
/// failed.
pub open spec fn attempt_view(attempt: Result<(), String>) -> Result<(), Seq<char>> {
    match attempt {
        Ok(_) => Ok(()),
        Err(reason) => Err(reason@),
    }
}

/// How setting up the introspection server goes: not at all where it is
/// not asked for, and else as the attempt to start it went.
pub open spec fn api_setup_of(enabled: bool, attempt: Result<(), Seq<char>>) -> ApiSetupView {
    if !enabled {
        ApiSetupView::Disabled
    } else {
        match attempt {
            Ok(_) => ApiSetupView::Started,
            Err(reason) => ApiSetupView::Failed(ShutdownErrorView::ApiFailed { error: reason }),
        }
    }
}

/// The files that `c` wants watched, under its key.
pub open spec fn watched_of(c: ComponentSpecView) -> ComponentConfigView {
    ComponentConfigView { config_paths: c.files_to_watch, component_key: c.key }
}

/// The components among the first `n` of `cs` that are of `kind`, each with
/// the files it wants watched, in order.
pub open spec fn watched_of_kind(cs: Seq<ComponentSpecView>, kind: ComponentKind, n: int) -> Seq<
    ComponentConfigView,
>
    decreases n,
{
    if n <= 0 {
        Seq::empty()
    } else if cs[n - 1].kind == kind {
        watched_of_kind(cs, kind, n - 1).push(watched_of(cs[n - 1]))
    } else {
        watched_of_kind(cs, kind, n - 1)
    }
}

/// What the watcher is told to watch for the components `cs`: the
/// transforms first, then the sinks, each group in the order of the
/// configuration. Sources are not watched.
pub open spec fn watched_components(cs: Seq<ComponentSpecView>) -> Seq<ComponentConfigView> {
    watched_of_kind(cs, ComponentKind::Transform, cs.len() as int) + watched_of_kind(
        cs,
        ComponentKind::Sink,
        cs.len() as int,
    )
}

/// Whether loading the configuration succeeds: the paths resolve, the
/// configuration loads, and the watcher starts where one is asked for.
pub open spec fn load_succeeds(watcher_conf: Option<WatcherConfig>, answers: LoadAnswersView) -> bool {
    &&& answers.resolved_paths is Some
    &&& answers.loaded is Ok
    &&& watcher_conf is Some ==> answers.watcher is Ok
}

/// The configuration that a successful load hands on: what was loaded,
/// under the health policy and with the limit on a graceful shutdown that
/// the command line gave.
pub open spec fn loaded_config(
    loaded: ConfigView,
    require_healthy: Option<bool>,
    graceful_shutdown_duration: Option<u64>,
) -> ConfigView {
    ConfigView {
        graceful_shutdown_secs: graceful_shutdown_duration,
        ..loaded.with_health_policy(require_healthy)
    }
}

/// The exit code that preparing the application fails with, if it fails:
/// the code of a configuration error where no worker thread is left, where
/// the configuration does not load, or where the engine cannot start the
/// topology, and the exit code of the sub command where one runs.
pub open spec fn prepare_failure(opts: Opts, answers: StartupAnswersView) -> Option<int> {
    if threads_of(opts.root.threads, answers.available_threads) == 0 {
        Some(config_code())
    } else if opts.sub_command is Some {
        Some(answers.sub_command_status as int)
    } else if !load_succeeds(opts.root.watcher_of(), answers.load) {
        Some(config_code())
    } else if !answers.engine_started {
        Some(config_code())
    } else {
        None
    }
}

/// The exit code that stands for a configuration that did not load. The
/// errors themselves are the caller's to report.
pub fn handle_config_errors(errors: &Vec<String>) -> (code: ExitCode)
    ensures
        code == config_code(),
{
    exitcode_config()
}

/// The components of `config` that are of `kind`, each with the files it
/// wants watched, appended to `out`.
fn collect_watched(config: &Config, kind: ComponentKind, out: &mut Vec<ComponentConfig>)
    ensures
        final(out).deep_view() == old(out).deep_view() + watched_of_kind(
            config@.components,
            kind,
            config@.components.len() as int,
        ),
{
    let components = config.components();
    let ghost cs = config@.components;
    let ghost before = out.deep_view();
    let mut i: usize = 0;
    assert(out.deep_view() =~= before + watched_of_kind(cs, kind, 0));
    while i < components.len()
        invariant
            i <= components.len(),
            cs == components.deep_view(),
            out.deep_view() == before + watched_of_kind(cs, kind, i as int),
        decreases components.len() - i,
    {
        let ghost so_far = out.deep_view();
        assert(cs[i as int] == components@[i as int]@);
        if components[i].kind == kind {
            let watched = ComponentConfig {
                config_paths: copy_strings(&components[i].files_to_watch),
                component_key: components[i].key.clone(),
            };
            assert(watched@ == watched_of(cs[i as int]));
            out.push(watched);
            assert(out.deep_view() =~= so_far.push(watched_of(cs[i as int])));
        }
        assert(out.deep_view() =~= before + watched_of_kind(cs, kind, i + 1));
        i += 1;
    }
}

/// What the watcher is told to watch for the components of `config`: the
/// transforms first, then the sinks.
pub fn watched_component_paths(config: &Config) -> (watched: Vec<ComponentConfig>)
    ensures
        watched.deep_view() == watched_components(config@.components),
{
    let mut watched: Vec<ComponentConfig> = Vec::new();
    assert(watched.deep_view() =~= Seq::empty());
    collect_watched(config, ComponentKind::Transform, &mut watched);
    collect_watched(config, ComponentKind::Sink, &mut watched);
    assert(watched.deep_view() =~= watched_components(config@.components));
    watched
}

/// Puts a loaded configuration under the health policy and the limit on a
/// graceful shutdown that the command line gave.
pub fn finish_load(
    config: Config,
    require_healthy: Option<bool>,
    graceful_shutdown_duration: Option<u64>,
) -> (finished: Config)
    ensures
        finished@ == loaded_config(config@, require_healthy, graceful_shutdown_duration),
{
    let mut config = config;
    config.set_require_healthy(require_healthy);
    config.set_graceful_shutdown_secs(graceful_shutdown_duration);
    config
}

/// Loads the configuration, for answers that are known beforehand.
///
/// Fails with the code of a configuration error where the paths do not
/// resolve, where the configuration does not load, or where a watcher is
/// asked for and cannot be started. Otherwise returns the loaded
/// configuration, under the given health policy and limit on a graceful
/// shutdown.
pub fn load_configs(
    watcher_conf: Option<WatcherConfig>,
    require_healthy: Option<bool>,
    graceful_shutdown_duration: Option<u64>,
    answers: LoadAnswers,
) -> (loaded: Result<Config, ExitCode>)
    ensures
        match loaded {
            Ok(config) => {
                &&& load_succeeds(watcher_conf, answers@)
                &&& config@ == loaded_config(
                    answers@.loaded->Ok_0,
                    require_healthy,
                    graceful_shutdown_duration,
                )
            },
            Err(code) => !load_succeeds(watcher_conf, answers@) && code == config_code(),
        },
{
    if answers.resolved_paths.is_none() {
        return Err(exitcode_config());
    }
    let config = match answers.loaded {
        Ok(config) => config,
        Err(errors) => {
            return Err(handle_config_errors(&errors));
        },
    };
    if watcher_conf.is_some() {
        if answers.watcher.is_err() {
            return Err(exitcode_config());
        }
    }
    Ok(finish_load(config, require_healthy, graceful_shutdown_duration))
}

impl<X> ApplicationConfig<X> {
    /// The configuration of the application, from a loaded configuration.
    /// `engine_started` says whether the engine could start the topology;
    /// where it could not, the result is the code of a configuration error.
    pub fn from_config(
        config_paths: Vec<ConfigPath>,
        config: Config,
        engine_started: bool,
        extra_context: X,
    ) -> (made: Result<ApplicationConfig<X>, ExitCode>)
        ensures
            match made {
                Ok(made) => {
                    &&& engine_started
                    &&& made.config_paths == config_paths
                    &&& made.topology@ == TopologyView::started(config@)
                    &&& made.internal_topologies@.len() == 0
                    &&& made.api_enabled == config@.api_enabled
                    &&& made.extra_context == extra_context
                },
                Err(code) => !engine_started && code == config_code(),
            },
    {
        if !engine_started {
            return Err(exitcode_config());
        }
        let api_enabled = config.api_enabled();
        Ok(
            ApplicationConfig {
                config_paths,
                topology: RunningTopology::start(config),
                internal_topologies: Vec::new(),
                api_enabled,
                extra_context,
            },
        )
    }

    /// The configuration of the application, from the options of the
    /// command line, for answers that are known beforehand: loads the
    /// configuration as the options ask, and builds on it as `from_config`
    /// does.
    pub fn from_opts(
        opts: &RootOpts,
        answers: LoadAnswers,
        engine_started: bool,
        extra_context: X,
    ) -> (made: Result<ApplicationConfig<X>, ExitCode>)
        ensures
            match made {
                Ok(made) => {
                    &&& load_succeeds(opts.watcher_of(), answers@)
                    &&& engine_started
                    &&& made.config_paths.deep_view() == opts.config_paths.deep_view()
                    &&& made.topology@ == TopologyView::started(
                        loaded_config(
                            answers@.loaded->Ok_0,
                            opts.require_healthy,
                            opts.graceful_shutdown_of(),
                        ),
                    )
                    &&& made.internal_topologies@.len() == 0
                    &&& made.api_enabled == answers@.loaded->Ok_0.api_enabled
                    &&& made.extra_context == extra_context
                },
                Err(code) => {
                    &&& !(load_succeeds(opts.watcher_of(), answers@) && engine_started)
                    &&& code == config_code()
                },
            },
    {
        let config_paths = copy_paths(&opts.config_paths);
        let graceful_shutdown_duration = opts.graceful_shutdown_duration();
        let watcher_conf = opts.watcher_conf();
        let config = match load_configs(
            watcher_conf,
            opts.require_healthy,
            graceful_shutdown_duration,
            answers,
        ) {
            Ok(config) => config,
            Err(code) => {
                return Err(code);
            },
        };
        Self::from_config(config_paths, config, engine_started, extra_context)
    }

    /// Adds an internal topology started from `config`. `engine_started`
    /// says whether the engine could start it; where it could not, nothing
    /// is added and the result is the code of a configuration error.
    pub fn add_internal_config(&mut self, config: Config, engine_started: bool) -> (added: Result<
        (),
        ExitCode,
    >)
        ensures
            match added {
                Ok(_) => {
                    &&& engine_started
                    &&& final(self).internal_topologies.deep_view() == old(
                        self,
                    ).internal_topologies.deep_view().push(TopologyView::started(config@))
                },
                Err(code) => {
                    &&& !engine_started
                    &&& code == config_code()
                    &&& final(self).internal_topologies == old(self).internal_topologies
                },
            },
            final(self).config_paths == old(self).config_paths,
            final(self).topology == old(self).topology,
            final(self).api_enabled == old(self).api_enabled,
            final(self).extra_context == old(self).extra_context,
    {
        if !engine_started {
            return Err(exitcode_config());
        }
        let ghost before = self.internal_topologies.deep_view();
        self.internal_topologies.push(RunningTopology::start(config));
        assert(self.internal_topologies.deep_view() =~= before.push(
            TopologyView::started(config@),
        ));
        Ok(())
    }

    /// Says how setting up the introspection server went. `attempt` is the
    /// result of trying to start it, and matters only where the
    /// configuration asks for it. A failure becomes the error that goes to
    /// the crash channel.
    pub fn setup_api(&self, attempt: Result<(), String>) -> (setup: ApiSetup)
        ensures
            setup@ == api_setup_of(self.api_enabled, attempt_view(attempt)),
    {
        if self.api_enabled {
            match attempt {
                Ok(_) => ApiSetup::Started,
                Err(error) => ApiSetup::Failed(ShutdownError::ApiFailed { error }),
            }
        } else {
            ApiSetup::Disabled
        }
    }
}

/// The started application, and the error for the crash channel where the
/// introspection server could not be started.
#[derive(Debug, PartialEq, Eq)]
pub struct Started<X> {
    pub application: StartedApplication<X>,
    pub abort: Option<ShutdownError>,
}

impl<X> Application<X> {
    /// Parses nothing itself: `parsed` is what parsing the command line
    /// gave, `None` where it failed. A failure is a usage error. Otherwise
    /// goes on as `prepare_from_opts` does.
    pub fn prepare(
        parsed: Option<Opts>,
        extra_context: X,
        answers: StartupAnswers,
        cell: &mut WorkerThreads,
    ) -> (prepared: Result<(RuntimePlan, Application<X>), ExitCode>)
        requires
            parsed matches Some(opts) ==> (threads_of(opts.root.threads, answers.available_threads)
                != 0 ==> old(cell)@ is None),
        ensures
            parsed is None ==> prepared is Err && prepared->Err_0 == usage_code() && final(cell)@
                == old(cell)@,
            parsed matches Some(opts) ==> prepared_as(
                opts,
                extra_context,
                answers@,
                old(cell)@,
                prepared,
                final(cell)@,
            ),
    {
        match parsed {
            None => Err(exitcode_usage()),
            Some(opts) => Self::prepare_from_opts(opts, extra_context, answers, cell),
        }
    }

    /// Prepares the application from the options of the command line, for
    /// answers that are known beforehand.
    ///
    /// Plans the scheduler first. Then, where a sub command was named, ends
    /// with the exit code of that sub command. Otherwise loads the
    /// configuration and lets the engine start the topology.
    pub fn prepare_from_opts(
        opts: Opts,
        extra_context: X,
        answers: StartupAnswers,
        cell: &mut WorkerThreads,
    ) -> (prepared: Result<(RuntimePlan, Application<X>), ExitCode>)
        requires
            threads_of(opts.root.threads, answers.available_threads) != 0 ==> old(cell)@ is None,
        ensures
            prepared_as(opts, extra_context, answers@, old(cell)@, prepared, final(cell)@),
    {
        let plan = match build_runtime(
            opts.root.threads,
            WORKER_THREAD_NAME,
            answers.available_threads,
            cell,
        ) {
            Ok(plan) => plan,
            Err(code) => {
                return Err(code);
            },
        };
        if opts.sub_command.is_some() {
            return Err(answers.sub_command_status);
        }
        let config = match ApplicationConfig::from_opts(
            &opts.root,
            answers.load,
            answers.engine_started,
            extra_context,
        ) {
            Ok(config) => config,
            Err(code) => {
                return Err(code);
            },
        };
        Ok((plan, Application { root_opts: opts.root, config }))
    }

    /// Starts the prepared application: the topology comes under a
    /// controller, with the paths and the health policy of the command line.
    /// `api_attempt` is the result of trying to start the introspection
    /// server, and matters only where the configuration asks for it.
    pub fn start(self, api_attempt: Result<(), String>) -> (started: Started<X>)
        ensures
            started.application.topology_controller@ == (ControllerView {
                topology: self.config.topology@,
                config_paths: self.config.config_paths.deep_view(),
                require_healthy: self.root_opts.require_healthy,
                api_running: self.config.api_enabled && api_attempt is Ok,
                extra_context: self.config.extra_context,
            }),
            started.application.config_paths == self.config.config_paths,
            started.application.internal_topologies == self.config.internal_topologies,
            started.application.allow_empty_config == self.root_opts.allow_empty_config,
            started.abort.deep_view() == (match api_setup_of(
                self.config.api_enabled,
                attempt_view(api_attempt),
            ) {
                ApiSetupView::Failed(error) => Some(error),
                _ => None,
            }),
    {
        let Application { root_opts, config } = self;
        let setup = config.setup_api(api_attempt);
        let (api_running, abort) = match setup {
            ApiSetup::Started => (true, None),
            ApiSetup::Disabled => (false, None),
            ApiSetup::Failed(error) => (false, Some(error)),
        };
        let controller_paths = copy_paths(&config.config_paths);
        let topology_controller = TopologyController {
            topology: config.topology,
            config_paths: controller_paths,
            require_healthy: root_opts.require_healthy,
            api_running,
            extra_context: config.extra_context,
        };
        Started {
            application: StartedApplication {
                config_paths: config.config_paths,
                internal_topologies: config.internal_topologies,
                topology_controller,
                allow_empty_config: root_opts.allow_empty_config,
            },
            abort,
        }
    }

    /// Prepares the application and starts it, for answers that are known
    /// beforehand.
    pub fn prepare_start(
        parsed: Option<Opts>,
        extra_context: X,
        answers: StartupAnswers,
        api_attempt: Result<(), String>,
        cell: &mut WorkerThreads,
    ) -> (started: Result<(RuntimePlan, Started<X>), ExitCode>)
        requires
            parsed matches Some(opts) ==> (threads_of(opts.root.threads, answers.available_threads)
                != 0 ==> old(cell)@ is None),
        ensures
            match started {
                Ok((plan, started)) => {
                    &&& parsed matches Some(opts)
                    &&& prepare_failure(opts, answers@) is None
                    &&& plan.worker_threads == threads_of(
                        opts.root.threads,
                        answers.available_threads,
                    )
                    &&& plan.max_blocking_threads == MAX_BLOCKING_THREADS
                    &&& plan.thread_name@ == WORKER_THREAD_NAME@
                    &&& final(cell)@ == Some(plan.worker_threads)
                    &&& started.application.topology_controller@ == started_controller(
                        opts,
                        extra_context,
                        answers@,
                        attempt_view(api_attempt),
                    )
                    &&& started.application.config_paths.deep_view()
                        == opts.root.config_paths.deep_view()
                    &&& started.application.internal_topologies@.len() == 0
                    &&& started.application.allow_empty_config == opts.root.allow_empty_config
                    &&& started.abort.deep_view() == (match api_setup_of(
                        answers@.load.loaded->Ok_0.api_enabled,
                        attempt_view(api_attempt),
                    ) {
                        ApiSetupView::Failed(error) => Some(error),
                        _ => None,
                    })
                },
                Err(code) => match parsed {
                    Some(opts) => prepare_failure(opts, answers@) == Some(code as int),
                    None => code == usage_code(),
                },
            },
    {
        match Self::prepare(parsed, extra_context, answers, cell) {
            Ok((plan, application)) => Ok((plan, application.start(api_attempt))),
            Err(code) => Err(code),
        }
    }
}

impl<X> Application<X> {
    /// The whole life of the application, for answers and rounds that are
    /// known beforehand: prepares and starts it, runs the loop through
    /// `rounds`, and shuts down.
    ///
    /// Returns the exit code of the process: the code that preparing fails
    /// with, or the code that the shutdown ends with. Returns `None` where
    /// no round ends the run loop.
    pub fn run(
        parsed: Option<Opts>,
        extra_context: X,
        answers: StartupAnswers,
        api_attempt: Result<(), String>,
        cell: &mut WorkerThreads,
        rounds: Vec<Round>,
        holders: usize,
        race: StopRace,
    ) -> (code: Option<ExitCode>)
        requires
            parsed matches Some(opts) ==> (threads_of(opts.root.threads, answers.available_threads)
                != 0 ==> old(cell)@ is None),
            holders == 1,
        ensures
            parsed is None ==> code is Some && code->Some_0 == usage_code(),
            parsed matches Some(opts) ==> match prepare_failure(opts, answers@) {
                Some(failure) => code is Some && code->Some_0 == failure,
                None => match signal_of_rounds(
                    started_controller(opts, extra_context, answers@, attempt_view(api_attempt)),
                    rounds.deep_view(),
                ) {
                    Some(signal) => code is Some && code->Some_0 == exit_code_of(
                        shutdown_kind(signal, race),
                    ),
                    None => code is None,
                },
            },
    {
        match Self::prepare_start(parsed, extra_context, answers, api_attempt, cell) {
            Err(code) => Some(code),
            Ok((_, started)) => match started.application.run(rounds, holders, race) {
                Some(order) => Some(order.exit_code),
                None => None,
            },
        }
    }
}

/// The controller that a successful start puts the topology under: the
/// topology as the loaded configuration starts it, with the paths and the
/// health policy of the command line.
pub open spec fn started_controller<X>(
    opts: Opts,
    extra_context: X,
    answers: StartupAnswersView,
    api_attempt: Result<(), Seq<char>>,
) -> ControllerView<X> {
    let config = loaded_config(
        answers.load.loaded->Ok_0,
        opts.root.require_healthy,
        opts.root.graceful_shutdown_of(),
    );
    ControllerView {
        topology: TopologyView::started(config),
        config_paths: opts.root.config_paths.deep_view(),
        require_healthy: opts.root.require_healthy,
        api_running: config.api_enabled && api_attempt is Ok,
        extra_context,
    }
}

/// What preparing the application from `opts` comes to: the exit code that
/// `prepare_failure` names where there is one, and else the plan of the
/// scheduler and the prepared application. The cell of the worker threads
/// is filled exactly where the scheduler was planned.
pub open spec fn prepared_as<X>(
    opts: Opts,
    extra_context: X,
    answers: StartupAnswersView,
    cell_before: Option<usize>,
    prepared: Result<(RuntimePlan, Application<X>), ExitCode>,
    cell_after: Option<usize>,
) -> bool {
    let threads = threads_of(opts.root.threads, answers.available_threads);
    &&& cell_after == (if threads == 0 {
        cell_before
    } else {
        Some(threads)
    })
    &&& match prepared {
        Ok((plan, application)) => {
            &&& prepare_failure(opts, answers) is None
            &&& plan.worker_threads == threads
            &&& plan.max_blocking_threads == MAX_BLOCKING_THREADS
            &&& plan.thread_name@ == WORKER_THREAD_NAME@
            &&& application.root_opts == opts.root
            &&& application.config.config_paths.deep_view() == opts.root.config_paths.deep_view()
            &&& application.config.topology@ == TopologyView::started(
                loaded_config(
                    answers.load.loaded->Ok_0,
                    opts.root.require_healthy,
                    opts.root.graceful_shutdown_of(),
                ),
            )
            &&& application.config.internal_topologies@.len() == 0
            &&& application.config.api_enabled == answers.load.loaded->Ok_0.api_enabled
            &&& application.config.extra_context == extra_context
        },
        Err(code) => prepare_failure(opts, answers) == Some(code as int),
    }
}

} // verus!
