//! The client's core as a service of the operating system.

use crate::error::{GuiError, ServiceDirectory};
use crate::platform::Platform;
use vstd::prelude::*;

verus! {

/// What the service is started with.
#[derive(Debug)]
pub struct ServiceOptions {
    pub config_dir: String,
    pub rpc_portal: String,
    pub file_log_level: String,
    pub file_log_dir: String,
    pub config_server: Option<String>,
}

impl ServiceOptions {
    /// The arguments that the service is started with.
    pub open spec fn args(self) -> Seq<Seq<char>> {
        let always = seq![
            "--config-dir"@,
            self.config_dir@,
            "--rpc-portal"@,
            self.rpc_portal@,
            "--file-log-level"@,
            self.file_log_level@,
            "--file-log-dir"@,
            self.file_log_dir@,
            "--daemon"@,
        ];
        match self.config_server {
            Some(server) => always + seq!["--config-server"@, server@],
            None => always,
        }
    }

    /// The arguments that the service is started with.
    pub fn to_args_vec(&self) -> (r: Vec<String>)
        ensures
            r@.map_values(|arg: String| arg@) == self.args(),
    {
        let mut args: Vec<String> = vec![
            "--config-dir".to_string(),
            self.config_dir.clone(),
            "--rpc-portal".to_string(),
            self.rpc_portal.clone(),
            "--file-log-level".to_string(),
            self.file_log_level.clone(),
            "--file-log-dir".to_string(),
            self.file_log_dir.clone(),
            "--daemon".to_string(),
        ];
        if let Some(config_server) = &self.config_server {
            args.push("--config-server".to_string());
            args.push(config_server.clone());
        }
        assert(args@.map_values(|arg: String| arg@) =~= self.args());
        args
    }
}

/// The environment that the service is started with, where it gets one of its
/// own. On macOS it runs as root, and is not given a home directory otherwise.
pub fn service_environment(platform: Platform) -> (r: Option<Vec<(String, String)>>)
    ensures
        r is Some <==> platform is MacOs,
        r matches Some(variables) ==> {
            &&& variables@.len() == 1
            &&& variables@[0].0@ == "HOME"@
            &&& variables@[0].1@ == "/var/root"@
        },
{
    match platform {
        Platform::MacOs => {
            let variables: Vec<(String, String)> = vec![
                ("HOME".to_string(), "/var/root".to_string()),
            ];
            Some(variables)
        },
        Platform::Android | Platform::Other => None,
    }
}

/// How the service is installed, in the directory in which the client runs.
#[derive(Debug)]
pub struct ServiceInstallOptions {
    pub program: String,
    pub args: Vec<String>,
    pub environment: Option<Vec<(String, String)>>,
    pub disable_autostart: bool,
    pub description: Option<String>,
    pub display_name: Option<String>,
    pub disable_restart_on_failure: bool,
}

/// How the service `program` is installed: it starts with the system, and again
/// when it fails.
pub fn install(platform: Platform, program: String, opts: &ServiceOptions) -> (r:
    ServiceInstallOptions)
    ensures
        r.program == program,
        r.args@.map_values(|arg: String| arg@) == opts.args(),
        r.environment is Some <==> platform is MacOs,
        r.environment matches Some(variables) ==> {
            &&& variables@.len() == 1
            &&& variables@[0].0@ == "HOME"@
            &&& variables@[0].1@ == "/var/root"@
        },
        !r.disable_autostart,
        r.description is Some && r.description->0@ == "EasyTier Gui Service"@,
        r.display_name is Some && r.display_name->0@ == "EasyTier Gui Service"@,
        !r.disable_restart_on_failure,
{
    ServiceInstallOptions {
        program,
        args: opts.to_args_vec(),
        environment: service_environment(platform),
        disable_autostart: false,
        description: Some("EasyTier Gui Service".to_string()),
        display_name: Some("EasyTier Gui Service".to_string()),
        disable_restart_on_failure: false,
    }
}

/// Whether the service is there and runs.
#[derive(Debug, Clone, Copy, PartialEq, Eq, Structural)]
pub enum ServiceStatus {
    NotInstalled,
    Stopped,
    Running,
}

impl ServiceStatus {
    /// The name under which the status is reported.
    pub fn name(&self) -> (r: &'static str)
        ensures
            r@ == match *self {
                ServiceStatus::NotInstalled => "NotInstalled"@,
                ServiceStatus::Stopped => "Stopped"@,
                ServiceStatus::Running => "Running"@,
            },
    {
        match self {
            ServiceStatus::NotInstalled => "NotInstalled",
            ServiceStatus::Stopped => "Stopped",
            ServiceStatus::Running => "Running",
        }
    }
}

/// What is found under the path of a directory.
#[derive(Debug, Clone, Copy, PartialEq, Eq, Structural)]
pub enum PathState {
    Missing,
    Directory,
    /// Something that is no directory.
    Other,
}

/// What a request about the service asks for.
#[derive(Debug)]
pub enum ServiceEffect {
    /// The request is over.
    Finish(Result<(), GuiError>),
    /// The request is over, and this is the answer.
    Report(ServiceStatus),
    /// Find out what is under a path.
    Inspect(String),
    /// Create a directory.
    Create(String),
    /// Get at the service manager of the system and at the directory in which the
    /// client runs.
    Prepare,
    Install(ServiceOptions),
    Uninstall,
    AskStatus,
    StartService,
    StopService,
}

/// What a request about the service is told. A failure is told in words.
#[derive(Debug)]
pub enum ServiceReply {
    Done,
    Path(PathState),
    Outcome(Result<(), String>),
    Status(Result<ServiceStatus, String>),
}

/// The request to install the service with `opts`, or to uninstall it.
#[derive(Debug)]
pub enum InitService {
    Start { platform: Platform, opts: Option<ServiceOptions> },
    /// It is being found out whether a directory is there.
    Inspecting { directory: ServiceDirectory, options: ServiceOptions },
    /// A directory is being created.
    Creating { directory: ServiceDirectory, options: ServiceOptions },
    Preparing { options: ServiceOptions },
    Installing,
    Uninstalling,
    Over,
}

impl InitService {
    /// Goes on once `directory` is there.
    pub open spec fn have(directory: ServiceDirectory, options: ServiceOptions) -> (
        InitService,
        ServiceEffect,
    ) {
        match directory {
            ServiceDirectory::ConfigDir => (
                InitService::Inspecting { directory: ServiceDirectory::FileLogDir, options },
                ServiceEffect::Inspect(options.file_log_dir),
            ),
            ServiceDirectory::FileLogDir => (
                InitService::Preparing { options },
                ServiceEffect::Prepare,
            ),
        }
    }

    /// The path of one of the directories.
    pub open spec fn path(directory: ServiceDirectory, options: ServiceOptions) -> String {
        match directory {
            ServiceDirectory::ConfigDir => options.config_dir,
            ServiceDirectory::FileLogDir => options.file_log_dir,
        }
    }

    /// The next step. Both directories have to be there before the service is
    /// installed; one that is missing is created. Android has no services.
    pub open spec fn next(self, reply: ServiceReply) -> (InitService, ServiceEffect) {
        match (self, reply) {
            (InitService::Start { platform, opts }, ServiceReply::Done) => if platform is Android {
                (InitService::Over, ServiceEffect::Finish(Ok(())))
            } else {
                match opts {
                    Some(options) => (
                        InitService::Inspecting {
                            directory: ServiceDirectory::ConfigDir,
                            options,
                        },
                        ServiceEffect::Inspect(options.config_dir),
                    ),
                    None => (InitService::Uninstalling, ServiceEffect::Uninstall),
                }
            },
            (
                InitService::Inspecting { directory, options },
                ServiceReply::Path(state),
            ) => match state {
                PathState::Directory => InitService::have(directory, options),
                PathState::Missing => (
                    InitService::Creating { directory, options },
                    ServiceEffect::Create(InitService::path(directory, options)),
                ),
                PathState::Other => (
                    InitService::Over,
                    ServiceEffect::Finish(Err(GuiError::NotADirectory(directory))),
                ),
            },
            (
                InitService::Creating { directory, options },
                ServiceReply::Outcome(Ok(())),
            ) => InitService::have(directory, options),
            (InitService::Preparing { options }, ServiceReply::Outcome(Ok(()))) => (
                InitService::Installing,
                ServiceEffect::Install(options),
            ),
            (InitService::Installing, ServiceReply::Outcome(Err(words))) => (
                InitService::Over,
                ServiceEffect::Finish(Err(GuiError::ServiceInstall(words))),
            ),
            (
                InitService::Installing | InitService::Uninstalling,
                ServiceReply::Outcome(Ok(())),
            ) => (InitService::Over, ServiceEffect::Finish(Ok(()))),
            (
                InitService::Creating { .. }
                | InitService::Preparing { .. }
                | InitService::Uninstalling,
                ServiceReply::Outcome(Err(words)),
            ) => (InitService::Over, ServiceEffect::Finish(Err(GuiError::Outside(words)))),
            _ => (InitService::Over, ServiceEffect::Finish(Err(GuiError::UnexpectedReply))),
        }
    }

    pub fn new(platform: Platform, opts: Option<ServiceOptions>) -> (r: InitService)
        ensures
            r == (InitService::Start { platform, opts }),
    {
        InitService::Start { platform, opts }
    }

    /// Takes the next step.
    pub fn step(self, reply: ServiceReply) -> (r: (InitService, ServiceEffect))
        ensures
            r == self.next(reply),
    {
        match (self, reply) {
            (InitService::Start { platform, opts }, ServiceReply::Done) => {
                if platform.is_android() {
                    return (InitService::Over, ServiceEffect::Finish(Ok(())));
                }
                match opts {
                    Some(options) => {
                        let path = options.config_dir.clone();
                        let directory = ServiceDirectory::ConfigDir;
                        (
                            InitService::Inspecting { directory, options },
                            ServiceEffect::Inspect(path),
                        )
                    },
                    None => (InitService::Uninstalling, ServiceEffect::Uninstall),
                }
            },
            (InitService::Inspecting { directory, options }, ServiceReply::Path(state)) => {
                match state {
                    PathState::Directory => go_on_with(directory, options),
                    PathState::Missing => {
                        let path = match directory {
                            ServiceDirectory::ConfigDir => options.config_dir.clone(),
                            ServiceDirectory::FileLogDir => options.file_log_dir.clone(),
                        };
                        (
                            InitService::Creating { directory, options },
                            ServiceEffect::Create(path),
                        )
                    },
                    PathState::Other => (
                        InitService::Over,
                        ServiceEffect::Finish(Err(GuiError::NotADirectory(directory))),
                    ),
                }
            },
            (
                InitService::Creating { directory, options },
                ServiceReply::Outcome(Ok(())),
            ) => go_on_with(directory, options),
            (InitService::Preparing { options }, ServiceReply::Outcome(Ok(()))) => (
                InitService::Installing,
                ServiceEffect::Install(options),
            ),
            (InitService::Installing, ServiceReply::Outcome(Err(words))) => (
                InitService::Over,
                ServiceEffect::Finish(Err(GuiError::ServiceInstall(words))),
            ),
            (
                InitService::Installing | InitService::Uninstalling,
                ServiceReply::Outcome(Ok(())),
            ) => (InitService::Over, ServiceEffect::Finish(Ok(()))),
            (
                InitService::Creating { .. }
                | InitService::Preparing { .. }
                | InitService::Uninstalling,
                ServiceReply::Outcome(Err(words)),
            ) => (InitService::Over, ServiceEffect::Finish(Err(GuiError::Outside(words)))),
            _ => (InitService::Over, ServiceEffect::Finish(Err(GuiError::UnexpectedReply))),
        }
    }
}

/// Goes on once `directory` is there.
fn go_on_with(directory: ServiceDirectory, options: ServiceOptions) -> (r: (
    InitService,
    ServiceEffect,
))
    ensures
        r == InitService::have(directory, options),
{
    match directory {
        ServiceDirectory::ConfigDir => {
            let path = options.file_log_dir.clone();
            let directory = ServiceDirectory::FileLogDir;
            (InitService::Inspecting { directory, options }, ServiceEffect::Inspect(path))
        },
        ServiceDirectory::FileLogDir => (
            InitService::Preparing { options },
            ServiceEffect::Prepare,
        ),
    }
}

/// What is to be done to a service for it to run, or not to run.
#[derive(Debug, Clone, Copy, PartialEq, Eq, Structural)]
pub enum ServiceCommand {
    Start,
    Stop,
    /// It is as it should be.
    Leave,
}

/// What is to be done to a service in the given state for it to run, or not to
/// run. A service that is not installed cannot be stopped; that it can be started
/// is for the service manager to refuse.
pub fn set_status(enable: bool, status: ServiceStatus) -> (r: Result<ServiceCommand, GuiError>)
    ensures
        enable && !(status is Running) ==> r == Ok::<ServiceCommand, GuiError>(
            ServiceCommand::Start,
        ),
        enable && status is Running ==> r == Ok::<ServiceCommand, GuiError>(ServiceCommand::Leave),
        !enable && status is Running ==> r == Ok::<ServiceCommand, GuiError>(ServiceCommand::Stop),
        !enable && status is Stopped ==> r == Ok::<ServiceCommand, GuiError>(
            ServiceCommand::Leave,
        ),
        !enable && status is NotInstalled ==> r == Err::<ServiceCommand, GuiError>(
            GuiError::ServiceNotInstalled,
        ),
{
    if enable && status != ServiceStatus::Running {
        Ok(ServiceCommand::Start)
    } else if !enable && status == ServiceStatus::Running {
        Ok(ServiceCommand::Stop)
    } else if status == ServiceStatus::NotInstalled {
        Err(GuiError::ServiceNotInstalled)
    } else {
        Ok(ServiceCommand::Leave)
    }
}

/// The request to have the service run, or not run.
#[derive(Debug)]
pub enum SetServiceStatus {
    Start { platform: Platform, enable: bool },
    Asking { enable: bool },
    Starting,
    Stopping,
    Over,
}

impl SetServiceStatus {
    /// The next step. Android has no services.
    pub open spec fn next(self, reply: ServiceReply) -> (SetServiceStatus, ServiceEffect) {
        match (self, reply) {
            (
                SetServiceStatus::Start { platform, enable },
                ServiceReply::Done,
            ) => if platform is Android {
                (SetServiceStatus::Over, ServiceEffect::Finish(Ok(())))
            } else {
                (SetServiceStatus::Asking { enable }, ServiceEffect::AskStatus)
            },
            (SetServiceStatus::Asking { enable }, ServiceReply::Status(Ok(status))) => if enable {
                if status is Running {
                    (SetServiceStatus::Over, ServiceEffect::Finish(Ok(())))
                } else {
                    (SetServiceStatus::Starting, ServiceEffect::StartService)
                }
            } else {
                match status {
                    ServiceStatus::Running => (
                        SetServiceStatus::Stopping,
                        ServiceEffect::StopService,
                    ),
                    ServiceStatus::Stopped => (
                        SetServiceStatus::Over,
                        ServiceEffect::Finish(Ok(())),
                    ),
                    ServiceStatus::NotInstalled => (
                        SetServiceStatus::Over,
                        ServiceEffect::Finish(Err(GuiError::ServiceNotInstalled)),
                    ),
                }
            },
            (SetServiceStatus::Asking { .. }, ServiceReply::Status(Err(words))) => (
                SetServiceStatus::Over,
                ServiceEffect::Finish(Err(GuiError::Outside(words))),
            ),
            (
                SetServiceStatus::Starting | SetServiceStatus::Stopping,
                ServiceReply::Outcome(Ok(())),
            ) => (SetServiceStatus::Over, ServiceEffect::Finish(Ok(()))),
            (SetServiceStatus::Starting, ServiceReply::Outcome(Err(words))) => (
                SetServiceStatus::Over,
                ServiceEffect::Finish(Err(GuiError::ServiceStart(words))),
            ),
            (SetServiceStatus::Stopping, ServiceReply::Outcome(Err(words))) => (
                SetServiceStatus::Over,
                ServiceEffect::Finish(Err(GuiError::ServiceStop(words))),
            ),
            _ => (SetServiceStatus::Over, ServiceEffect::Finish(Err(GuiError::UnexpectedReply))),
        }
    }

    pub fn new(platform: Platform, enable: bool) -> (r: SetServiceStatus)
        ensures
            r == (SetServiceStatus::Start { platform, enable }),
    {
        SetServiceStatus::Start { platform, enable }
    }

    /// Takes the next step.
    pub fn step(self, reply: ServiceReply) -> (r: (SetServiceStatus, ServiceEffect))
        ensures
            r == self.next(reply),
    {
        match (self, reply) {
            (SetServiceStatus::Start { platform, enable }, ServiceReply::Done) => {
                if platform.is_android() {
                    (SetServiceStatus::Over, ServiceEffect::Finish(Ok(())))
                } else {
                    (SetServiceStatus::Asking { enable }, ServiceEffect::AskStatus)
                }
            },
            (SetServiceStatus::Asking { enable }, ServiceReply::Status(Ok(status))) => {
                match set_status(enable, status) {
                    Ok(ServiceCommand::Start) => (
                        SetServiceStatus::Starting,
                        ServiceEffect::StartService,
                    ),
                    Ok(ServiceCommand::Stop) => (
                        SetServiceStatus::Stopping,
                        ServiceEffect::StopService,
                    ),
                    Ok(ServiceCommand::Leave) => (
                        SetServiceStatus::Over,
                        ServiceEffect::Finish(Ok(())),
                    ),
                    Err(error) => (SetServiceStatus::Over, ServiceEffect::Finish(Err(error))),
                }
            },
            (SetServiceStatus::Asking { .. }, ServiceReply::Status(Err(words))) => (
                SetServiceStatus::Over,
                ServiceEffect::Finish(Err(GuiError::Outside(words))),
            ),
            (
                SetServiceStatus::Starting | SetServiceStatus::Stopping,
                ServiceReply::Outcome(Ok(())),
            ) => (SetServiceStatus::Over, ServiceEffect::Finish(Ok(()))),
            (SetServiceStatus::Starting, ServiceReply::Outcome(Err(words))) => (
                SetServiceStatus::Over,
                ServiceEffect::Finish(Err(GuiError::ServiceStart(words))),
            ),
            (SetServiceStatus::Stopping, ServiceReply::Outcome(Err(words))) => (
                SetServiceStatus::Over,
                ServiceEffect::Finish(Err(GuiError::ServiceStop(words))),
            ),
            _ => (SetServiceStatus::Over, ServiceEffect::Finish(Err(GuiError::UnexpectedReply))),
        }
    }
}

/// The question how the service is.
#[derive(Debug)]
pub enum GetServiceStatus {
    Start { platform: Platform },
    Asking,
    Over,
}

impl GetServiceStatus {
    /// The next step. On Android no service is ever installed.
    pub open spec fn next(self, reply: ServiceReply) -> (GetServiceStatus, ServiceEffect) {
        match (self, reply) {
            (GetServiceStatus::Start { platform }, ServiceReply::Done) => if platform is Android {
                (GetServiceStatus::Over, ServiceEffect::Report(ServiceStatus::NotInstalled))
            } else {
                (GetServiceStatus::Asking, ServiceEffect::AskStatus)
            },
            (GetServiceStatus::Asking, ServiceReply::Status(Ok(status))) => (
                GetServiceStatus::Over,
                ServiceEffect::Report(status),
            ),
            (GetServiceStatus::Asking, ServiceReply::Status(Err(words))) => (
                GetServiceStatus::Over,
                ServiceEffect::Finish(Err(GuiError::Outside(words))),
            ),
            _ => (GetServiceStatus::Over, ServiceEffect::Finish(Err(GuiError::UnexpectedReply))),
        }
    }

    pub fn new(platform: Platform) -> (r: GetServiceStatus)
        ensures
            r == (GetServiceStatus::Start { platform }),
    {
        GetServiceStatus::Start { platform }
    }

    /// Takes the next step.
    pub fn step(self, reply: ServiceReply) -> (r: (GetServiceStatus, ServiceEffect))
        ensures
            r == self.next(reply),
    {
        match (self, reply) {
            (GetServiceStatus::Start { platform }, ServiceReply::Done) => {
                if platform.is_android() {
                    (GetServiceStatus::Over, ServiceEffect::Report(ServiceStatus::NotInstalled))
                } else {
                    (GetServiceStatus::Asking, ServiceEffect::AskStatus)
                }
            },
            (GetServiceStatus::Asking, ServiceReply::Status(Ok(status))) => (
                GetServiceStatus::Over,
                ServiceEffect::Report(status),
            ),
            (GetServiceStatus::Asking, ServiceReply::Status(Err(words))) => (
                GetServiceStatus::Over,
                ServiceEffect::Finish(Err(GuiError::Outside(words))),
            ),
            _ => (GetServiceStatus::Over, ServiceEffect::Finish(Err(GuiError::UnexpectedReply))),
        }
    }
}

/// The service is told each of its options, in a word of its own right after the name
/// of the option; it is always told to run in the background; and the name of the
/// configuration server is there exactly where a server is, be it an empty text.
pub proof fn the_service_is_told_its_options(options: ServiceOptions)
    ensures
        ({
            let args = options.args();
            &&& args.len() == if options.config_server is Some {
                11nat
            } else {
                9nat
            }
            &&& args[0] == "--config-dir"@ && args[1] == options.config_dir@
            &&& args[2] == "--rpc-portal"@ && args[3] == options.rpc_portal@
            &&& args[4] == "--file-log-level"@ && args[5] == options.file_log_level@
            &&& args[6] == "--file-log-dir"@ && args[7] == options.file_log_dir@
            &&& args[8] == "--daemon"@
            &&& options.config_server matches Some(server) ==> args[9] == "--config-server"@
                && args[10] == server@
        }),
{
}

/// On Android no request about the service asks anything of the system: installing,
/// uninstalling, starting and stopping succeed at once, and no service is reported.
pub proof fn android_has_no_services(options: Option<ServiceOptions>, enable: bool)
    ensures
        (InitService::Start { platform: Platform::Android, opts: options }).next(
            ServiceReply::Done,
        ).1 == ServiceEffect::Finish(Ok(())),
        (SetServiceStatus::Start { platform: Platform::Android, enable }).next(
            ServiceReply::Done,
        ).1 == ServiceEffect::Finish(Ok(())),
        (GetServiceStatus::Start { platform: Platform::Android }).next(ServiceReply::Done).1
            == ServiceEffect::Report(ServiceStatus::NotInstalled),
{
}

/// A service is installed elsewhere than on Android like this. The directory of the
/// configurations, then that of the log files, is looked for; one that is missing is
/// created, under its own path, and something else in its place ends the request.
/// Then the system is made ready and the service installed, with just the options of
/// the request. What fails ends it, an installation with words of its own.
pub proof fn a_service_is_installed_like_this(
    platform: Platform,
    options: ServiceOptions,
    config_dir_missing: bool,
    log_dir_missing: bool,
    words: String,
)
    requires
        !(platform is Android),
    ensures
        ({
            let done = ServiceReply::Outcome(Ok(()));
            let failed = ServiceReply::Outcome(Err(words));
            let over = ServiceEffect::Finish(Err(GuiError::Outside(words)));
            let there = ServiceReply::Path(PathState::Directory);
            let missing = ServiceReply::Path(PathState::Missing);
            let other = ServiceReply::Path(PathState::Other);
            let s0 = (InitService::Start { platform, opts: Some(options) }).next(
                ServiceReply::Done,
            );
            let c = s0.0.next(missing);
            let s1 = if config_dir_missing {
                c.0.next(done)
            } else {
                s0.0.next(there)
            };
            let l = s1.0.next(missing);
            let s2 = if log_dir_missing {
                l.0.next(done)
            } else {
                s1.0.next(there)
            };
            let s3 = s2.0.next(done);
            &&& s0.1 == ServiceEffect::Inspect(options.config_dir)
            &&& s0.0.next(other).1 == ServiceEffect::Finish(
                Err(GuiError::NotADirectory(ServiceDirectory::ConfigDir)),
            )
            &&& c.1 == ServiceEffect::Create(options.config_dir)
            &&& c.0.next(failed).1 == over
            &&& s1.1 == ServiceEffect::Inspect(options.file_log_dir)
            &&& s1.0.next(other).1 == ServiceEffect::Finish(
                Err(GuiError::NotADirectory(ServiceDirectory::FileLogDir)),
            )
            &&& l.1 == ServiceEffect::Create(options.file_log_dir)
            &&& l.0.next(failed).1 == over
            &&& s2.1 == ServiceEffect::Prepare
            &&& s2.0.next(failed).1 == over
            &&& s3.1 == ServiceEffect::Install(options)
            &&& s3.0.next(done).1 == ServiceEffect::Finish(Ok(()))
            &&& s3.0.next(failed).1 == ServiceEffect::Finish(Err(GuiError::ServiceInstall(words)))
        }),
{
}

/// Without options the service is uninstalled, and nothing else is asked for.
pub proof fn a_service_is_uninstalled_like_this(platform: Platform, words: String)
    requires
        !(platform is Android),
    ensures
        ({
            let s = (InitService::Start { platform, opts: None }).next(ServiceReply::Done);
            &&& s.1 == ServiceEffect::Uninstall
            &&& s.0.next(ServiceReply::Outcome(Ok(()))).1 == ServiceEffect::Finish(Ok(()))
            &&& s.0.next(ServiceReply::Outcome(Err(words))).1 == ServiceEffect::Finish(
                Err(GuiError::Outside(words)),
            )
        }),
{
}

/// A service is started exactly where it is to run and does not, and stopped exactly
/// where it runs and is not to. One that is as it should be is left alone, and one
/// that is not installed cannot be stopped. What fails is told with what was tried.
pub proof fn a_service_is_started_or_stopped_like_this(
    platform: Platform,
    enable: bool,
    status: ServiceStatus,
    words: String,
)
    requires
        !(platform is Android),
    ensures
        ({
            let done = ServiceReply::Outcome(Ok(()));
            let failed = ServiceReply::Outcome(Err(words));
            let s0 = (SetServiceStatus::Start { platform, enable }).next(ServiceReply::Done);
            let s1 = s0.0.next(ServiceReply::Status(Ok(status)));
            &&& s0.1 is AskStatus
            &&& s0.0.next(ServiceReply::Status(Err(words))).1 == ServiceEffect::Finish(
                Err(GuiError::Outside(words)),
            )
            &&& s1.1 is StartService <==> enable && !(status is Running)
            &&& s1.1 is StopService <==> !enable && status is Running
            &&& s1.1 == ServiceEffect::Finish(Err(GuiError::ServiceNotInstalled)) <==> !enable
                && status is NotInstalled
            &&& s1.1 == ServiceEffect::Finish(Ok(())) <==> (enable && status is Running) || (
            !enable && status is Stopped)
            &&& s1.1 is StartService || s1.1 is StopService ==> s1.0.next(done).1
                == ServiceEffect::Finish(Ok(()))
            &&& s1.1 is StartService ==> s1.0.next(failed).1 == ServiceEffect::Finish(
                Err(GuiError::ServiceStart(words)),
            )
            &&& s1.1 is StopService ==> s1.0.next(failed).1 == ServiceEffect::Finish(
                Err(GuiError::ServiceStop(words)),
            )
        }),
{
}

/// Where there are services, what the system says of this one is what is reported.
pub proof fn the_status_is_reported_as_it_is(
    platform: Platform,
    status: ServiceStatus,
    words: String,
)
    requires
        !(platform is Android),
    ensures
        ({
            let s = (GetServiceStatus::Start { platform }).next(ServiceReply::Done);
            &&& s.1 is AskStatus
            &&& s.0.next(ServiceReply::Status(Ok(status))).1 == ServiceEffect::Report(status)
            &&& s.0.next(ServiceReply::Status(Err(words))).1 == ServiceEffect::Finish(
                Err(GuiError::Outside(words)),
            )
        }),
{
}

} // verus!
