use easytier_gui::error::{GuiError, ServiceDirectory};
use easytier_gui::platform::Platform;
use easytier_gui::service::{
    install, service_environment, set_status, GetServiceStatus, InitService, PathState,
    ServiceCommand, ServiceEffect, ServiceOptions, ServiceReply, ServiceStatus, SetServiceStatus,
};

fn options(config_server: Option<&str>) -> ServiceOptions {
    ServiceOptions {
        config_dir: "/etc/easytier".to_string(),
        rpc_portal: "tcp://127.0.0.1:15888".to_string(),
        file_log_level: "info".to_string(),
        file_log_dir: "/var/log/easytier".to_string(),
        config_server: config_server.map(|server| server.to_string()),
    }
}

#[test]
fn service_environment_matches_platform() {
    assert_eq!(
        service_environment(Platform::MacOs),
        Some(vec![("HOME".to_string(), "/var/root".to_string())])
    );
    assert_eq!(service_environment(Platform::Other), None);
    assert_eq!(service_environment(Platform::Android), None);
}

#[test]
fn arguments_come_in_pairs() {
    let args = options(None).to_args_vec();
    assert_eq!(
        args,
        vec![
            "--config-dir",
            "/etc/easytier",
            "--rpc-portal",
            "tcp://127.0.0.1:15888",
            "--file-log-level",
            "info",
            "--file-log-dir",
            "/var/log/easytier",
            "--daemon"
        ]
    );
    let args = options(Some("udp://server:22020/me")).to_args_vec();
    assert_eq!(args.len(), 11);
    assert_eq!(args[9], "--config-server");
    assert_eq!(args[10], "udp://server:22020/me");
}

#[test]
fn the_service_starts_with_the_system() {
    let installed = install(Platform::MacOs, "/bin/client".to_string(), &options(None));
    assert_eq!(installed.program, "/bin/client");
    assert_eq!(installed.args, options(None).to_args_vec());
    assert_eq!(
        installed.environment,
        Some(vec![("HOME".to_string(), "/var/root".to_string())])
    );
    assert!(!installed.disable_autostart);
    assert!(!installed.disable_restart_on_failure);
    assert_eq!(installed.description, Some("EasyTier Gui Service".to_string()));
    assert_eq!(installed.display_name, Some("EasyTier Gui Service".to_string()));
    let installed = install(Platform::Other, "p".to_string(), &options(None));
    assert_eq!(installed.environment, None);
}

#[test]
fn status_changes_follow_the_wish() {
    let running = ServiceStatus::Running;
    let stopped = ServiceStatus::Stopped;
    let absent = ServiceStatus::NotInstalled;
    assert_eq!(set_status(true, running).unwrap(), ServiceCommand::Leave);
    assert_eq!(set_status(true, stopped).unwrap(), ServiceCommand::Start);
    assert_eq!(set_status(true, absent).unwrap(), ServiceCommand::Start);
    assert_eq!(set_status(false, running).unwrap(), ServiceCommand::Stop);
    assert_eq!(set_status(false, stopped).unwrap(), ServiceCommand::Leave);
    let error = set_status(false, absent).unwrap_err();
    assert_eq!(error.text(), "Service not installed");
}

#[test]
fn both_directories_are_there_before_the_service_is_installed() {
    let flow = InitService::new(Platform::Other, Some(options(None)));
    let (flow, effect) = flow.step(ServiceReply::Done);
    assert!(matches!(effect, ServiceEffect::Inspect(path) if path == "/etc/easytier"));
    let (flow, effect) = flow.step(ServiceReply::Path(PathState::Missing));
    assert!(matches!(effect, ServiceEffect::Create(path) if path == "/etc/easytier"));
    let (flow, effect) = flow.step(ServiceReply::Outcome(Ok(())));
    assert!(matches!(effect, ServiceEffect::Inspect(path) if path == "/var/log/easytier"));
    let (flow, effect) = flow.step(ServiceReply::Path(PathState::Directory));
    assert!(matches!(effect, ServiceEffect::Prepare));
    let (flow, effect) = flow.step(ServiceReply::Outcome(Ok(())));
    assert!(matches!(effect, ServiceEffect::Install(_)));
    let (_, effect) = flow.step(ServiceReply::Outcome(Ok(())));
    assert!(matches!(effect, ServiceEffect::Finish(Ok(()))));
}

#[test]
fn a_file_in_place_of_a_directory_is_refused() {
    let (flow, _) = InitService::new(Platform::Other, Some(options(None))).step(ServiceReply::Done);
    let (_, effect) = flow.step(ServiceReply::Path(PathState::Other));
    match effect {
        ServiceEffect::Finish(Err(error)) => {
            assert!(matches!(error, GuiError::NotADirectory(ServiceDirectory::ConfigDir)));
            assert_eq!(error.text(), "config_dir exists but is not a directory");
        }
        _ => panic!("not refused"),
    }
    let (flow, _) = InitService::new(Platform::Other, Some(options(None))).step(ServiceReply::Done);
    let (flow, _) = flow.step(ServiceReply::Path(PathState::Directory));
    let (_, effect) = flow.step(ServiceReply::Path(PathState::Other));
    match effect {
        ServiceEffect::Finish(Err(error)) => {
            assert_eq!(error.text(), "file_log_dir exists but is not a directory");
        }
        _ => panic!("not refused"),
    }
}

#[test]
fn failures_to_install_are_told_apart() {
    let (flow, _) = InitService::new(Platform::Other, Some(options(None))).step(ServiceReply::Done);
    let (flow, _) = flow.step(ServiceReply::Path(PathState::Directory));
    let (flow, _) = flow.step(ServiceReply::Path(PathState::Directory));
    let (flow, _) = flow.step(ServiceReply::Outcome(Ok(())));
    let (_, effect) = flow.step(ServiceReply::Outcome(Err("no rights".to_string())));
    match effect {
        ServiceEffect::Finish(Err(error)) => {
            assert_eq!(error.text(), "Failed to install service: no rights");
        }
        _ => panic!("not refused"),
    }
    let (flow, effect) = InitService::new(Platform::Other, None).step(ServiceReply::Done);
    assert!(matches!(effect, ServiceEffect::Uninstall));
    let (_, effect) = flow.step(ServiceReply::Outcome(Err("no rights".to_string())));
    match effect {
        ServiceEffect::Finish(Err(error)) => assert_eq!(error.text(), "no rights"),
        _ => panic!("not refused"),
    }
}

#[test]
fn android_has_no_services() {
    let (_, effect) = InitService::new(Platform::Android, Some(options(None))).step(ServiceReply::Done);
    assert!(matches!(effect, ServiceEffect::Finish(Ok(()))));
    let (_, effect) = SetServiceStatus::new(Platform::Android, true).step(ServiceReply::Done);
    assert!(matches!(effect, ServiceEffect::Finish(Ok(()))));
    let (_, effect) = GetServiceStatus::new(Platform::Android).step(ServiceReply::Done);
    assert!(matches!(effect, ServiceEffect::Report(ServiceStatus::NotInstalled)));
}

#[test]
fn starting_and_stopping_report_their_failures() {
    let cases = vec![
        (true, ServiceStatus::Stopped, "Failed to start service: broken"),
        (false, ServiceStatus::Running, "Failed to stop service: broken"),
    ];
    for (enable, status, words) in cases {
        let (flow, effect) = SetServiceStatus::new(Platform::Other, enable).step(ServiceReply::Done);
        assert!(matches!(effect, ServiceEffect::AskStatus));
        let (flow, effect) = flow.step(ServiceReply::Status(Ok(status)));
        assert_eq!(enable, matches!(effect, ServiceEffect::StartService));
        assert_eq!(!enable, matches!(effect, ServiceEffect::StopService));
        let (_, effect) = flow.step(ServiceReply::Outcome(Err("broken".to_string())));
        match effect {
            ServiceEffect::Finish(Err(error)) => assert_eq!(error.text(), words),
            _ => panic!("not refused"),
        }
    }
    let (flow, _) = SetServiceStatus::new(Platform::Other, true).step(ServiceReply::Done);
    let (_, effect) = flow.step(ServiceReply::Status(Err("no manager".to_string())));
    match effect {
        ServiceEffect::Finish(Err(error)) => assert_eq!(error.text(), "no manager"),
        _ => panic!("not refused"),
    }
    let (flow, _) = SetServiceStatus::new(Platform::Other, false).step(ServiceReply::Done);
    let (_, effect) = flow.step(ServiceReply::Status(Ok(ServiceStatus::Stopped)));
    assert!(matches!(effect, ServiceEffect::Finish(Ok(()))));
}

#[test]
fn the_status_is_reported_by_name() {
    for (status, name) in vec![
        (ServiceStatus::NotInstalled, "NotInstalled"),
        (ServiceStatus::Stopped, "Stopped"),
        (ServiceStatus::Running, "Running"),
    ] {
        assert_eq!(status.name(), name);
        let (flow, effect) = GetServiceStatus::new(Platform::MacOs).step(ServiceReply::Done);
        assert!(matches!(effect, ServiceEffect::AskStatus));
        let (_, effect) = flow.step(ServiceReply::Status(Ok(status)));
        assert!(matches!(effect, ServiceEffect::Report(told) if told == status));
    }
    let (flow, _) = GetServiceStatus::new(Platform::Other).step(ServiceReply::Done);
    let (_, effect) = flow.step(ServiceReply::Path(PathState::Missing));
    match effect {
        ServiceEffect::Finish(Err(error)) => assert_eq!(error.text(), "unexpected reply"),
        _ => panic!("not refused"),
    }
}
