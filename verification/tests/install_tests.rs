use skyline_update::install::{
    DataDirective, DefaultInstaller, FetchDirective, FetchOutcome, InstallSession, Installer,
    Phase, StepDirective, update_offered,
};
use skyline_update::protocol::{ArtifactEntry, InstallLocation, ResponseCode, UpdateResponse};
use skyline_update::query::answer_query;
use skyline_update::registry::{Artifact, Metadata, Plugin};
use skyline_update::protocol::Request;

fn update_response(paths: &[&str]) -> UpdateResponse {
    UpdateResponse {
        code: ResponseCode::Update,
        plugin_name: "demo".to_string(),
        new_plugin_version: "1.0.0".to_string(),
        required_files: paths
            .iter()
            .enumerate()
            .map(|(i, p)| ArtifactEntry {
                install_location: InstallLocation::AbsolutePath(p.to_string()),
                download_index: i as u64,
            })
            .collect(),
    }
}

#[test]
fn predelete_candidates_follow_response_order() {
    let response = update_response(&["sd:/assets", "sd:/plugin.nro"]);
    let (_, to_delete) = InstallSession::start(&response, false, "nro");
    assert_eq!(to_delete, vec!["sd:/assets".to_string(), "sd:/plugin.nro".to_string()]);
}

#[test]
fn marker_present_suppresses_predeletion() {
    // A recovering install must not re-delete directories it may already
    // have repopulated: with the marker present nothing is a candidate,
    // so a directory destined for deletion keeps its contents.
    let response = update_response(&["sd:/assets", "sd:/plugin.nro"]);
    let (_, to_delete) = InstallSession::start(&response, true, "nro");
    assert!(to_delete.is_empty());
}

#[test]
fn full_install_fetches_in_order_and_finishes() {
    let response = update_response(&["sd:/assets/a.bin", "sd:/plugin.nro"]);
    let (mut s, to_delete) = InstallSession::start(&response, false, "nro");
    assert_eq!(to_delete.len(), 2);
    let mut fetched: Vec<u64> = Vec::new();
    loop {
        match s.begin_artifact() {
            StepDirective::ClearMarkerAndFinish => break,
            StepDirective::Abort => panic!("install aborted"),
            StepDirective::CheckDestination { path } => {
                // A fresh install: nothing exists yet.
                assert!(!path.is_empty());
                match s.destination_checked(false) {
                    FetchDirective::Skip => panic!("a normal install never skips"),
                    FetchDirective::Fetch { path, download_index } => {
                        fetched.push(download_index);
                        match s.data_received(FetchOutcome::Data(vec![1, 2])) {
                            DataDirective::Install { path: dest, data } => {
                                assert_eq!(dest, path);
                                assert_eq!(data, vec![1, 2]);
                                assert!(s.artifact_installed(true));
                            },
                            _ => panic!("bytes must be installed"),
                        }
                    },
                }
            },
        }
    }
    assert_eq!(fetched, vec![0, 1]);
    assert_eq!(s.phase, Phase::Finished);
}

#[test]
fn recovery_skips_existing_non_primary_files_only() {
    let response = update_response(&["sd:/assets/a.bin", "sd:/plugin.nro"]);
    let (mut s, _) = InstallSession::start(&response, true, "nro");

    // First artifact: exists on disk, not the primary extension: skipped.
    match s.begin_artifact() {
        StepDirective::CheckDestination { .. } => {},
        _ => panic!("expected a destination check"),
    }
    assert!(matches!(s.destination_checked(true), FetchDirective::Skip));

    // Second artifact: exists, but carries the primary extension: re-fetched.
    match s.begin_artifact() {
        StepDirective::CheckDestination { .. } => {},
        _ => panic!("expected a destination check"),
    }
    match s.destination_checked(true) {
        FetchDirective::Fetch { path, download_index } => {
            assert_eq!(path, "sd:/plugin.nro");
            assert_eq!(download_index, 1);
        },
        FetchDirective::Skip => panic!("the primary executable is always re-fetched"),
    }
}

#[test]
fn exhaustion_writes_marker_and_restarts_once() {
    let response = update_response(&["sd:/assets/a.bin", "sd:/plugin.nro"]);
    let (mut s, _) = InstallSession::start(&response, false, "nro");
    match s.begin_artifact() {
        StepDirective::CheckDestination { .. } => {},
        _ => panic!("expected a destination check"),
    }
    assert!(matches!(
        s.destination_checked(false),
        FetchDirective::Fetch { .. }
    ));
    // The data-channel connect fails with descriptor exhaustion.
    let d = s.data_received(FetchOutcome::ExhaustedDescriptors);
    assert!(matches!(d, DataDirective::WriteMarkerAndRestart));
    // The session is terminal: nothing more is fetched in this run.
    assert_eq!(s.phase, Phase::RestartRequired);
}

#[test]
fn other_transfer_failures_abort_without_rollback() {
    let response = update_response(&["sd:/assets/a.bin"]);
    let (mut s, _) = InstallSession::start(&response, false, "nro");
    match s.begin_artifact() {
        StepDirective::CheckDestination { .. } => {},
        _ => panic!("expected a destination check"),
    }
    match s.destination_checked(false) {
        FetchDirective::Fetch { .. } => {},
        FetchDirective::Skip => panic!("a normal install never skips"),
    }
    assert!(matches!(s.data_received(FetchOutcome::ConnectFailed), DataDirective::Abort));
    assert_eq!(s.phase, Phase::Failed);
}

#[test]
fn reserved_locations_abort_the_install() {
    let mut response = update_response(&[]);
    response.required_files.push(ArtifactEntry {
        install_location: InstallLocation::Reserved,
        download_index: 0,
    });
    let (mut s, _) = InstallSession::start(&response, false, "nro");
    assert!(matches!(s.begin_artifact(), StepDirective::Abort));
    assert_eq!(s.phase, Phase::Failed);
}

#[test]
fn installer_failure_aborts() {
    let response = update_response(&["sd:/assets/a.bin"]);
    let (mut s, _) = InstallSession::start(&response, false, "nro");
    s.begin_artifact();
    match s.destination_checked(false) {
        FetchDirective::Fetch { .. } => {},
        FetchDirective::Skip => panic!("a normal install never skips"),
    }
    match s.data_received(FetchOutcome::Data(vec![7])) {
        DataDirective::Install { .. } => {},
        _ => panic!("bytes must be installed"),
    }
    assert!(!s.artifact_installed(false));
    assert_eq!(s.phase, Phase::Failed);
}

#[test]
fn end_to_end_demo_update_installs_in_order() {
    // Package "demo" v1.0.0 on the server; the client reports v0.9.0 with
    // beta disallowed.
    let plugins = vec![Plugin {
        name: "demo".to_string(),
        plugin_version: "1.0.0".to_string(),
        files: vec![
            Artifact {
                install_location: InstallLocation::AbsolutePath("sd:/assets/logo.png".to_string()),
                data: vec![1],
            },
            Artifact {
                install_location: InstallLocation::AbsolutePath("sd:/plugin.nro".to_string()),
                data: vec![2],
            },
        ],
        skyline_version: "0.0.0".to_string(),
        beta: false,
        metadata: Metadata::default(),
    }];
    let request = Request {
        plugin_name: "demo".to_string(),
        plugin_version: "0.9.0".to_string(),
        beta: Some(false),
    };
    let response = answer_query(&plugins, &request);
    assert!(update_offered(&response));

    let installer = DefaultInstaller;
    assert!(installer.should_update(&response));

    let mut marker_present = false;
    let (mut s, _) = InstallSession::start(&response, marker_present, "nro");
    let mut installed: Vec<(String, Vec<u8>)> = Vec::new();
    loop {
        match s.begin_artifact() {
            StepDirective::ClearMarkerAndFinish => {
                marker_present = false;
                break;
            },
            StepDirective::Abort => panic!("install aborted"),
            StepDirective::CheckDestination { .. } => {
                match s.destination_checked(false) {
                    FetchDirective::Skip => panic!("a normal install never skips"),
                    FetchDirective::Fetch { download_index, .. } => {
                        let bytes = plugins[0].files[download_index as usize].data.clone();
                        match s.data_received(FetchOutcome::Data(bytes)) {
                            DataDirective::Install { path, data } => {
                                assert!(installer.install_file(path.clone(), data.clone()).is_ok());
                                installed.push((path, data));
                                assert!(s.artifact_installed(true));
                            },
                            _ => panic!("bytes must be installed"),
                        }
                    },
                }
            },
        }
    }
    assert_eq!(s.phase, Phase::Finished);
    assert!(!marker_present);
    assert_eq!(
        installed,
        vec![
            ("sd:/assets/logo.png".to_string(), vec![1]),
            ("sd:/plugin.nro".to_string(), vec![2]),
        ]
    );
}

#[test]
fn non_update_responses_do_not_install() {
    let response = UpdateResponse {
        code: ResponseCode::NoUpdate,
        plugin_name: "demo".to_string(),
        new_plugin_version: String::new(),
        required_files: vec![],
    };
    assert!(!update_offered(&response));
}
