//! The installation orchestrator: a linear state machine. Each call to
//! [`Pipeline::step`] consumes the result of the previous external
//! operation and returns the next [`Action`] the driver must perform.
//! Every fatal failure moves to the terminal `Failed` stage at once;
//! the health probe is the single non-fatal step.

use vstd::prelude::*;
use vstd::string::StringExecFns;

verus! {

use crate::Mode;
use crate::commands::build_compose_up_args;
use crate::commands::build_git_init_args;
use crate::commands::build_git_pull_args;
use crate::commands::build_git_remote_add_args;
use crate::commands::build_git_sparse_config_args;
use crate::commands::build_runtime_daemon_args;
use crate::commands::build_runtime_version_args;
use crate::commands::compose_up_args;
use crate::commands::git_init_args;
use crate::commands::git_pull_args;
use crate::commands::git_remote_add_args;
use crate::commands::git_sparse_config_args;
use crate::commands::runtime_daemon_args;
use crate::commands::runtime_version_args;
use crate::config::compose_file_name;
use crate::config::env_file_content;
use crate::config::sparse_checkout_content;
use crate::config::spec_compose_file;
use crate::fetch::flatten_plan;
use crate::probe::ProbeOutcome;

/// The fixed URL of the source repository.
pub open spec fn repo_url() -> Seq<char> {
    "https://github.com/devnatan/kuken.git"@
}

/// The repository subdirectory that is materialized and flattened.
pub open spec fn subdirectory_name() -> Seq<char> {
    "web"@
}

/// The branch fetched from the remote.
pub open spec fn branch_name() -> Seq<char> {
    "main"@
}

/// The placeholder offered by the interactive API URL prompt.
pub open spec fn prompt_default_url() -> Seq<char> {
    "https://example.com"@
}

/// The program answering the runtime precondition queries and the
/// service startup.
pub open spec fn runtime_program() -> Seq<char> {
    "docker"@
}

/// The version-control client performing the sparse fetch.
pub open spec fn vcs_program() -> Seq<char> {
    "git"@
}

/// The sparse-checkout control file, relative to the repository root.
pub open spec fn sparse_spec_relative_path() -> Seq<char> {
    ".git/info/sparse-checkout"@
}

/// The generated environment file, relative to the installation root.
pub open spec fn env_file_relative_path() -> Seq<char> {
    ".env"@
}

/// The timeout applied to the health probe, in seconds.
pub open spec fn probe_timeout_secs() -> u64 {
    5
}

/// Where the pipeline stands: which external result it awaits next.
#[derive(Clone, Copy, PartialEq, Eq, Structural, Debug)]
pub enum Stage {
    ResolvingInstallDir,
    CheckingRuntimeVersion,
    CheckingRuntimeDaemon,
    AwaitingApiUrl,
    Probing,
    PreparingDirectory,
    InitializingRepository,
    AddingRemote,
    EnablingSparseCheckout,
    WritingSparseSpec,
    Pulling,
    ListingSubdirectory,
    Relocating,
    WritingConfig,
    LaunchingService,
    Done,
    Failed,
}

/// Why an installation failed.
#[derive(Debug)]
pub enum InstallError {
    /// The runtime version query could not run or did not succeed.
    RuntimeNotInstalled,
    /// The runtime daemon-status query did not succeed.
    RuntimeNotRunning,
    /// The user's home directory could not be determined.
    HomeDirectoryUnavailable,
    /// The API URL was supplied or entered empty.
    EmptyApiUrl,
    /// The installation directory could not be removed or created.
    DirectoryError,
    /// A sparse-fetch sub-step failed; carries the tool's diagnostic.
    FetchError(String),
    /// The environment file could not be written.
    ConfigWriteError,
    /// The service startup failed; carries the tool's diagnostic.
    LaunchError(String),
    /// The driver delivered an event the current stage does not await.
    /// Not part of the installation failure taxonomy: it signals a
    /// driver bug, never a property of the inputs.
    ProtocolViolation,
}

/// The result of the external operation the pipeline was waiting for.
#[derive(Debug)]
pub enum Event {
    /// The installation directory, or `None` when no home directory
    /// could be determined.
    InstallDirResolved(Option<String>),
    /// Whether the runtime version query ran and exited successfully.
    RuntimeVersionChecked(bool),
    /// Whether the runtime daemon-status query ran and exited
    /// successfully.
    RuntimeDaemonChecked(bool),
    /// The URL the user entered at the interactive prompt.
    ApiUrlEntered(String),
    /// The health probe finished with this outcome.
    ProbeCompleted(ProbeOutcome),
    /// Whether the installation directory was removed and recreated.
    DirectoryPrepared(bool),
    /// An external command finished; carries its captured diagnostic
    /// text (standard error) for failure reporting.
    CommandFinished { success: bool, diagnostic: String },
    /// Whether the sparse-checkout specification file was written.
    SparseSpecWritten { success: bool, diagnostic: String },
    /// The listing of the fetched subdirectory and of the installation
    /// root. `present` is false when the subdirectory does not exist.
    SubdirectoryListed {
        present: bool,
        subdir_entries: Vec<String>,
        root_entries: Vec<String>,
    },
    /// Whether the subdirectory entries were moved up and the emptied
    /// subdirectory removed.
    EntriesRelocated { success: bool, diagnostic: String },
    /// Whether the environment file was written.
    EnvFileWritten(bool),
}

/// The next external operation the driver must perform.
#[derive(Debug)]
pub enum Action {
    /// Run `program` with `args` (no working directory requirement)
    /// and report whether it ran and exited successfully.
    RunCheck { program: String, args: Vec<String> },
    /// Run `program` with `args` with the working directory set to
    /// `dir`; report success and captured standard error.
    RunInDir { program: String, args: Vec<String>, dir: String },
    /// Ask the user for the API URL, offering `default_value`.
    PromptForApiUrl { default_value: String },
    /// Probe `url` with the given timeout, accepting invalid TLS
    /// certificates, and classify the observation.
    RunProbe { url: String, timeout_secs: u64 },
    /// Recursively delete `path` if it exists, then create it empty.
    PrepareDirectory { path: String },
    /// Write `contents` to `relative_path` under `dir`, creating
    /// parent directories, overwriting unconditionally.
    WriteFileInDir { dir: String, relative_path: String, contents: String },
    /// List the entries of `dir/subdirectory` and of `dir`.
    ListSubdirectory { dir: String, subdirectory: String },
    /// Move `dir/subdirectory/e` to `dir/e` for each `e` in `entries`,
    /// then remove the emptied `dir/subdirectory`.
    RelocateEntries { dir: String, subdirectory: String, entries: Vec<String> },
    /// The installation completed successfully.
    Finish,
    /// The installation failed; no further step runs.
    Fail(InstallError),
}

/// The mathematical shape of an [`Action`]: strings as character
/// sequences, argument vectors as sequences of sequences.
pub enum ActionView {
    RunCheck { program: Seq<char>, args: Seq<Seq<char>> },
    RunInDir { program: Seq<char>, args: Seq<Seq<char>>, dir: Seq<char> },
    PromptForApiUrl { default_value: Seq<char> },
    RunProbe { url: Seq<char>, timeout_secs: u64 },
    PrepareDirectory { path: Seq<char> },
    WriteFileInDir { dir: Seq<char>, relative_path: Seq<char>, contents: Seq<char> },
    ListSubdirectory { dir: Seq<char>, subdirectory: Seq<char> },
    RelocateEntries { dir: Seq<char>, subdirectory: Seq<char>, entries: Seq<Seq<char>> },
    Finish,
    Fail(InstallError),
}

impl View for Action {
    type V = ActionView;

    open spec fn view(&self) -> ActionView {
        match self {
            Action::RunCheck { program, args } => ActionView::RunCheck {
                program: program@,
                args: args.deep_view(),
            },
            Action::RunInDir { program, args, dir } => ActionView::RunInDir {
                program: program@,
                args: args.deep_view(),
                dir: dir@,
            },
            Action::PromptForApiUrl { default_value } => ActionView::PromptForApiUrl {
                default_value: default_value@,
            },
            Action::RunProbe { url, timeout_secs } => ActionView::RunProbe {
                url: url@,
                timeout_secs: *timeout_secs,
            },
            Action::PrepareDirectory { path } => ActionView::PrepareDirectory { path: path@ },
            Action::WriteFileInDir { dir, relative_path, contents } => ActionView::WriteFileInDir {
                dir: dir@,
                relative_path: relative_path@,
                contents: contents@,
            },
            Action::ListSubdirectory { dir, subdirectory } => ActionView::ListSubdirectory {
                dir: dir@,
                subdirectory: subdirectory@,
            },
            Action::RelocateEntries { dir, subdirectory, entries } => ActionView::RelocateEntries {
                dir: dir@,
                subdirectory: subdirectory@,
                entries: entries.deep_view(),
            },
            Action::Finish => ActionView::Finish,
            Action::Fail(e) => ActionView::Fail(*e),
        }
    }
}

/// The orchestrator state. The driver constructs it with
/// [`Pipeline::new`], performs the home-directory resolution, and from
/// then on feeds every external result to [`Pipeline::step`] and
/// performs the returned action, until `Finish` or `Fail`.
pub struct Pipeline {
    pub stage: Stage,
    pub mode: Mode,
    pub api_url: Option<String>,
    pub install_dir: Option<String>,
}

/// The initial state for a request: `api_url` as supplied on the
/// command line, or `None` when it must be acquired interactively.
pub open spec fn spec_init(mode: Mode, api_url: Option<String>) -> Pipeline {
    Pipeline { stage: Stage::ResolvingInstallDir, mode, api_url, install_dir: None }
}

impl Pipeline {
    /// Starts a pipeline. The first event owed is
    /// [`Event::InstallDirResolved`].
    pub fn new(mode: Mode, api_url: Option<String>) -> (p: Pipeline)
        ensures
            p == spec_init(mode, api_url),
    {
        Pipeline { stage: Stage::ResolvingInstallDir, mode, api_url, install_dir: None }
    }

    /// Consumes the result of the awaited external operation and
    /// returns the next action. The transition is exactly
    /// [`spec_step`].
    pub fn step(&mut self, event: Event) -> (action: Action)
        ensures
            *final(self) == spec_step(*old(self), event).0,
            action@ == spec_step(*old(self), event).1,
    {
        match (self.stage, event) {
            (Stage::ResolvingInstallDir, Event::InstallDirResolved(resolved)) => {
                match resolved {
                    Some(dir) => {
                        self.install_dir = Some(dir);
                        self.stage = Stage::CheckingRuntimeVersion;
                        Action::RunCheck {
                            program: String::from_str("docker"),
                            args: build_runtime_version_args(),
                        }
                    },
                    None => {
                        self.stage = Stage::Failed;
                        Action::Fail(InstallError::HomeDirectoryUnavailable)
                    },
                }
            },
            (Stage::CheckingRuntimeVersion, Event::RuntimeVersionChecked(ok)) => {
                if ok {
                    self.stage = Stage::CheckingRuntimeDaemon;
                    Action::RunCheck {
                        program: String::from_str("docker"),
                        args: build_runtime_daemon_args(),
                    }
                } else {
                    self.stage = Stage::Failed;
                    Action::Fail(InstallError::RuntimeNotInstalled)
                }
            },
            (Stage::CheckingRuntimeDaemon, Event::RuntimeDaemonChecked(ok)) => {
                if ok {
                    match &self.api_url {
                        Some(url) => {
                            if url.as_str().is_empty() {
                                self.stage = Stage::Failed;
                                Action::Fail(InstallError::EmptyApiUrl)
                            } else {
                                let probe_url = url.clone();
                                self.stage = Stage::Probing;
                                Action::RunProbe { url: probe_url, timeout_secs: 5 }
                            }
                        },
                        None => {
                            self.stage = Stage::AwaitingApiUrl;
                            Action::PromptForApiUrl {
                                default_value: String::from_str("https://example.com"),
                            }
                        },
                    }
                } else {
                    self.stage = Stage::Failed;
                    Action::Fail(InstallError::RuntimeNotRunning)
                }
            },
            (Stage::AwaitingApiUrl, Event::ApiUrlEntered(url)) => {
                if url.as_str().is_empty() {
                    self.stage = Stage::Failed;
                    Action::Fail(InstallError::EmptyApiUrl)
                } else {
                    let probe_url = url.clone();
                    self.api_url = Some(url);
                    self.stage = Stage::Probing;
                    Action::RunProbe { url: probe_url, timeout_secs: 5 }
                }
            },
            (Stage::Probing, Event::ProbeCompleted(_outcome)) => {
                let path = self.install_dir_or_empty();
                self.stage = Stage::PreparingDirectory;
                Action::PrepareDirectory { path }
            },
            (Stage::PreparingDirectory, Event::DirectoryPrepared(ok)) => {
                if ok {
                    let dir = self.install_dir_or_empty();
                    self.stage = Stage::InitializingRepository;
                    Action::RunInDir {
                        program: String::from_str("git"),
                        args: build_git_init_args(),
                        dir,
                    }
                } else {
                    self.stage = Stage::Failed;
                    Action::Fail(InstallError::DirectoryError)
                }
            },
            (Stage::InitializingRepository, Event::CommandFinished { success, diagnostic }) => {
                if success {
                    let dir = self.install_dir_or_empty();
                    self.stage = Stage::AddingRemote;
                    Action::RunInDir {
                        program: String::from_str("git"),
                        args: build_git_remote_add_args("https://github.com/devnatan/kuken.git"),
                        dir,
                    }
                } else {
                    self.stage = Stage::Failed;
                    Action::Fail(InstallError::FetchError(diagnostic))
                }
            },
            (Stage::AddingRemote, Event::CommandFinished { success, diagnostic }) => {
                if success {
                    let dir = self.install_dir_or_empty();
                    self.stage = Stage::EnablingSparseCheckout;
                    Action::RunInDir {
                        program: String::from_str("git"),
                        args: build_git_sparse_config_args(),
                        dir,
                    }
                } else {
                    self.stage = Stage::Failed;
                    Action::Fail(InstallError::FetchError(diagnostic))
                }
            },
            (Stage::EnablingSparseCheckout, Event::CommandFinished { success, diagnostic }) => {
                if success {
                    let dir = self.install_dir_or_empty();
                    self.stage = Stage::WritingSparseSpec;
                    Action::WriteFileInDir {
                        dir,
                        relative_path: String::from_str(".git/info/sparse-checkout"),
                        contents: sparse_checkout_content("web"),
                    }
                } else {
                    self.stage = Stage::Failed;
                    Action::Fail(InstallError::FetchError(diagnostic))
                }
            },
            (Stage::WritingSparseSpec, Event::SparseSpecWritten { success, diagnostic }) => {
                if success {
                    let dir = self.install_dir_or_empty();
                    self.stage = Stage::Pulling;
                    Action::RunInDir {
                        program: String::from_str("git"),
                        args: build_git_pull_args("main"),
                        dir,
                    }
                } else {
                    self.stage = Stage::Failed;
                    Action::Fail(InstallError::FetchError(diagnostic))
                }
            },
            (Stage::Pulling, Event::CommandFinished { success, diagnostic }) => {
                if success {
                    let dir = self.install_dir_or_empty();
                    self.stage = Stage::ListingSubdirectory;
                    Action::ListSubdirectory { dir, subdirectory: String::from_str("web") }
                } else {
                    self.stage = Stage::Failed;
                    Action::Fail(InstallError::FetchError(diagnostic))
                }
            },
            (
                Stage::ListingSubdirectory,
                Event::SubdirectoryListed { present, subdir_entries, root_entries },
            ) => {
                if present {
                    let entries = flatten_plan(&subdir_entries, &root_entries);
                    let dir = self.install_dir_or_empty();
                    self.stage = Stage::Relocating;
                    Action::RelocateEntries {
                        dir,
                        subdirectory: String::from_str("web"),
                        entries,
                    }
                } else {
                    let action = self.env_write_action();
                    self.stage = Stage::WritingConfig;
                    action
                }
            },
            (Stage::Relocating, Event::EntriesRelocated { success, diagnostic }) => {
                if success {
                    let action = self.env_write_action();
                    self.stage = Stage::WritingConfig;
                    action
                } else {
                    self.stage = Stage::Failed;
                    Action::Fail(InstallError::FetchError(diagnostic))
                }
            },
            (Stage::WritingConfig, Event::EnvFileWritten(ok)) => {
                if ok {
                    let dir = self.install_dir_or_empty();
                    let file = compose_file_name(self.mode);
                    self.stage = Stage::LaunchingService;
                    Action::RunInDir {
                        program: String::from_str("docker"),
                        args: build_compose_up_args(file),
                        dir,
                    }
                } else {
                    self.stage = Stage::Failed;
                    Action::Fail(InstallError::ConfigWriteError)
                }
            },
            (Stage::LaunchingService, Event::CommandFinished { success, diagnostic }) => {
                if success {
                    self.stage = Stage::Done;
                    Action::Finish
                } else {
                    self.stage = Stage::Failed;
                    Action::Fail(InstallError::LaunchError(diagnostic))
                }
            },
            (Stage::Done, _) => Action::Finish,
            (_, _) => {
                self.stage = Stage::Failed;
                Action::Fail(InstallError::ProtocolViolation)
            },
        }
    }

    /// The stored installation directory; the empty string before it
    /// is resolved (the stages that use it all come after resolution).
    fn install_dir_or_empty(&self) -> (r: String)
        ensures
            r@ == spec_install_dir_or_empty(*self),
    {
        match &self.install_dir {
            Some(d) => d.clone(),
            None => String::new(),
        }
    }

    /// The action that writes the environment file.
    fn env_write_action(&self) -> (a: Action)
        ensures
            a@ == spec_env_write_action(*self),
    {
        let dir = self.install_dir_or_empty();
        let url = match &self.api_url {
            Some(u) => u.as_str(),
            None => "",
        };
        proof {
            reveal_strlit("");
            assert(""@ =~= Seq::<char>::empty());
        }
        Action::WriteFileInDir {
            dir,
            relative_path: String::from_str(".env"),
            contents: env_file_content(url),
        }
    }
}

/// The stored installation directory, or empty before resolution.
pub open spec fn spec_install_dir_or_empty(s: Pipeline) -> Seq<char> {
    match s.install_dir {
        Some(d) => d@,
        None => Seq::empty(),
    }
}

/// The stored API URL, or empty before acquisition.
pub open spec fn spec_api_url_or_empty(s: Pipeline) -> Seq<char> {
    match s.api_url {
        Some(u) => u@,
        None => Seq::empty(),
    }
}

/// The environment-file write action for state `s`.
pub open spec fn spec_env_write_action(s: Pipeline) -> ActionView {
    ActionView::WriteFileInDir {
        dir: spec_install_dir_or_empty(s),
        relative_path: env_file_relative_path(),
        contents: "VITE_KUKEN_API="@ + spec_api_url_or_empty(s) + "\n"@,
    }
}

/// `s` with its stage replaced.
pub open spec fn at_stage(s: Pipeline, stage: Stage) -> Pipeline {
    Pipeline { stage, mode: s.mode, api_url: s.api_url, install_dir: s.install_dir }
}

/// `s` moved to the terminal failure stage, paired with the failure
/// action.
pub open spec fn fail_with(s: Pipeline, e: InstallError) -> (Pipeline, ActionView) {
    (at_stage(s, Stage::Failed), ActionView::Fail(e))
}

/// The transition relation of the orchestrator: from a state and the
/// awaited event to the successor state and the emitted action.
pub open spec fn spec_step(s: Pipeline, event: Event) -> (Pipeline, ActionView) {
    match (s.stage, event) {
        (Stage::ResolvingInstallDir, Event::InstallDirResolved(resolved)) => match resolved {
            Some(dir) => (
                Pipeline {
                    stage: Stage::CheckingRuntimeVersion,
                    mode: s.mode,
                    api_url: s.api_url,
                    install_dir: Some(dir),
                },
                ActionView::RunCheck { program: runtime_program(), args: runtime_version_args() },
            ),
            None => fail_with(s, InstallError::HomeDirectoryUnavailable),
        },
        (Stage::CheckingRuntimeVersion, Event::RuntimeVersionChecked(ok)) => if ok {
            (
                at_stage(s, Stage::CheckingRuntimeDaemon),
                ActionView::RunCheck { program: runtime_program(), args: runtime_daemon_args() },
            )
        } else {
            fail_with(s, InstallError::RuntimeNotInstalled)
        },
        (Stage::CheckingRuntimeDaemon, Event::RuntimeDaemonChecked(ok)) => if !ok {
            fail_with(s, InstallError::RuntimeNotRunning)
        } else {
            match s.api_url {
                Some(url) => if url@.len() == 0 {
                    fail_with(s, InstallError::EmptyApiUrl)
                } else {
                    (
                        at_stage(s, Stage::Probing),
                        ActionView::RunProbe { url: url@, timeout_secs: probe_timeout_secs() },
                    )
                },
                None => (
                    at_stage(s, Stage::AwaitingApiUrl),
                    ActionView::PromptForApiUrl { default_value: prompt_default_url() },
                ),
            }
        },
        (Stage::AwaitingApiUrl, Event::ApiUrlEntered(url)) => if url@.len() == 0 {
            fail_with(s, InstallError::EmptyApiUrl)
        } else {
            (
                Pipeline {
                    stage: Stage::Probing,
                    mode: s.mode,
                    api_url: Some(url),
                    install_dir: s.install_dir,
                },
                ActionView::RunProbe { url: url@, timeout_secs: probe_timeout_secs() },
            )
        },
        (Stage::Probing, Event::ProbeCompleted(_outcome)) => (
            at_stage(s, Stage::PreparingDirectory),
            ActionView::PrepareDirectory { path: spec_install_dir_or_empty(s) },
        ),
        (Stage::PreparingDirectory, Event::DirectoryPrepared(ok)) => if ok {
            (
                at_stage(s, Stage::InitializingRepository),
                ActionView::RunInDir {
                    program: vcs_program(),
                    args: git_init_args(),
                    dir: spec_install_dir_or_empty(s),
                },
            )
        } else {
            fail_with(s, InstallError::DirectoryError)
        },
        (Stage::InitializingRepository, Event::CommandFinished { success, diagnostic }) => if success {
            (
                at_stage(s, Stage::AddingRemote),
                ActionView::RunInDir {
                    program: vcs_program(),
                    args: git_remote_add_args(repo_url()),
                    dir: spec_install_dir_or_empty(s),
                },
            )
        } else {
            fail_with(s, InstallError::FetchError(diagnostic))
        },
        (Stage::AddingRemote, Event::CommandFinished { success, diagnostic }) => if success {
            (
                at_stage(s, Stage::EnablingSparseCheckout),
                ActionView::RunInDir {
                    program: vcs_program(),
                    args: git_sparse_config_args(),
                    dir: spec_install_dir_or_empty(s),
                },
            )
        } else {
            fail_with(s, InstallError::FetchError(diagnostic))
        },
        (Stage::EnablingSparseCheckout, Event::CommandFinished { success, diagnostic }) => if success {
            (
                at_stage(s, Stage::WritingSparseSpec),
                ActionView::WriteFileInDir {
                    dir: spec_install_dir_or_empty(s),
                    relative_path: sparse_spec_relative_path(),
                    contents: subdirectory_name() + "/*\n"@,
                },
            )
        } else {
            fail_with(s, InstallError::FetchError(diagnostic))
        },
        (Stage::WritingSparseSpec, Event::SparseSpecWritten { success, diagnostic }) => if success {
            (
                at_stage(s, Stage::Pulling),
                ActionView::RunInDir {
                    program: vcs_program(),
                    args: git_pull_args(branch_name()),
                    dir: spec_install_dir_or_empty(s),
                },
            )
        } else {
            fail_with(s, InstallError::FetchError(diagnostic))
        },
        (Stage::Pulling, Event::CommandFinished { success, diagnostic }) => if success {
            (
                at_stage(s, Stage::ListingSubdirectory),
                ActionView::ListSubdirectory {
                    dir: spec_install_dir_or_empty(s),
                    subdirectory: subdirectory_name(),
                },
            )
        } else {
            fail_with(s, InstallError::FetchError(diagnostic))
        },
        (
            Stage::ListingSubdirectory,
            Event::SubdirectoryListed { present, subdir_entries, root_entries },
        ) => if present {
            (
                at_stage(s, Stage::Relocating),
                ActionView::RelocateEntries {
                    dir: spec_install_dir_or_empty(s),
                    subdirectory: subdirectory_name(),
                    entries: crate::fetch::relocation_plan(
                        subdir_entries.deep_view(),
                        root_entries.deep_view(),
                    ),
                },
            )
        } else {
            (at_stage(s, Stage::WritingConfig), spec_env_write_action(s))
        },
        (Stage::Relocating, Event::EntriesRelocated { success, diagnostic }) => if success {
            (at_stage(s, Stage::WritingConfig), spec_env_write_action(s))
        } else {
            fail_with(s, InstallError::FetchError(diagnostic))
        },
        (Stage::WritingConfig, Event::EnvFileWritten(ok)) => if ok {
            (
                at_stage(s, Stage::LaunchingService),
                ActionView::RunInDir {
                    program: runtime_program(),
                    args: compose_up_args(spec_compose_file(s.mode)),
                    dir: spec_install_dir_or_empty(s),
                },
            )
        } else {
            fail_with(s, InstallError::ConfigWriteError)
        },
        (Stage::LaunchingService, Event::CommandFinished { success, diagnostic }) => if success {
            (at_stage(s, Stage::Done), ActionView::Finish)
        } else {
            fail_with(s, InstallError::LaunchError(diagnostic))
        },
        (Stage::Done, _) => (s, ActionView::Finish),
        (_, _) => fail_with(s, InstallError::ProtocolViolation),
    }
}

} // verus!
