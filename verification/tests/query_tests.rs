use skyline_update::protocol::{InstallLocation, Request, ResponseCode};
use skyline_update::query::{answer_query, invalid_request_response};
use skyline_update::registry::{Artifact, Metadata, Plugin};

fn demo_plugin(name: &str, version: &str, beta: bool) -> Plugin {
    Plugin {
        name: name.to_string(),
        plugin_version: version.to_string(),
        files: vec![
            Artifact {
                install_location: InstallLocation::AbsolutePath("sd:/plugin.nro".to_string()),
                data: vec![1, 2, 3],
            },
            Artifact {
                install_location: InstallLocation::AbsolutePath("sd:/data/a.bin".to_string()),
                data: vec![4, 5],
            },
        ],
        skyline_version: "0.0.0".to_string(),
        beta,
        metadata: Metadata::default(),
    }
}

fn request(name: &str, version: &str, beta: Option<bool>) -> Request {
    Request {
        plugin_name: name.to_string(),
        plugin_version: version.to_string(),
        beta,
    }
}

#[test]
fn absent_name_yields_plugin_not_found() {
    let plugins = vec![demo_plugin("demo", "1.0.0", false)];
    let r = answer_query(&plugins, &request("other", "0.9.0", Some(false)));
    assert!(matches!(r.code, ResponseCode::PluginNotFound));
    assert_eq!(r.plugin_name, "other");
    assert!(r.required_files.is_empty());
}

#[test]
fn equal_version_yields_no_update() {
    let plugins = vec![demo_plugin("demo", "1.0.0", false)];
    let r = answer_query(&plugins, &request("demo", "1.0.0", Some(false)));
    assert!(matches!(r.code, ResponseCode::NoUpdate));
    assert!(r.required_files.is_empty());
}

#[test]
fn older_server_version_yields_no_update() {
    let plugins = vec![demo_plugin("demo", "1.0.0", false)];
    let r = answer_query(&plugins, &request("demo", "2.0.0", Some(false)));
    assert!(matches!(r.code, ResponseCode::NoUpdate));
}

#[test]
fn newer_version_yields_update_with_ordered_files() {
    let plugins = vec![demo_plugin("demo", "1.0.0", false)];
    let r = answer_query(&plugins, &request("demo", "0.9.0", Some(false)));
    assert!(matches!(r.code, ResponseCode::Update));
    assert_eq!(r.new_plugin_version, "1.0.0");
    assert_eq!(r.required_files.len(), 2);
    assert_eq!(r.required_files[0].download_index, 0);
    assert_eq!(r.required_files[1].download_index, 1);
    match &r.required_files[0].install_location {
        InstallLocation::AbsolutePath(p) => assert_eq!(p, "sd:/plugin.nro"),
        _ => panic!("expected an absolute path"),
    }
    match &r.required_files[1].install_location {
        InstallLocation::AbsolutePath(p) => assert_eq!(p, "sd:/data/a.bin"),
        _ => panic!("expected an absolute path"),
    }
}

#[test]
fn beta_release_is_withheld_without_opt_in() {
    let plugins = vec![demo_plugin("demo", "1.0.0", true)];
    let withheld = answer_query(&plugins, &request("demo", "0.9.0", Some(false)));
    assert!(matches!(withheld.code, ResponseCode::NoUpdate));
    let absent = answer_query(&plugins, &request("demo", "0.9.0", None));
    assert!(matches!(absent.code, ResponseCode::NoUpdate));
    let offered = answer_query(&plugins, &request("demo", "0.9.0", Some(true)));
    assert!(matches!(offered.code, ResponseCode::Update));
}

#[test]
fn first_package_with_the_name_answers() {
    let plugins = vec![
        demo_plugin("demo", "1.0.0", false),
        demo_plugin("demo", "3.0.0", false),
    ];
    let r = answer_query(&plugins, &request("demo", "2.0.0", Some(false)));
    // The first "demo" is at 1.0.0, which is not newer than 2.0.0.
    assert!(matches!(r.code, ResponseCode::NoUpdate));
}

#[test]
fn undecodable_requests_get_invalid_request() {
    let r = invalid_request_response();
    assert!(matches!(r.code, ResponseCode::InvalidRequest));
    assert!(r.required_files.is_empty());
}
