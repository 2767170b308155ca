use skyline_update::manifest::{
    build_package, build_registry, DefinitionSource, ErrorKind, PluginFile, PluginFolder,
    PluginToml, TomlMetadata, WalkedFile,
};
use skyline_update::protocol::InstallLocation;

fn manifest_with(
    files: Vec<PluginFile>,
    folders: Option<Vec<PluginFolder>>,
    version: &str,
) -> PluginToml {
    PluginToml {
        version: version.to_string(),
        name: "demo".to_string(),
        beta: None,
        files,
        folders,
        skyline_version: None,
        metadata: None,
    }
}

fn nro_file() -> PluginFile {
    PluginFile {
        install_location: InstallLocation::AbsolutePath("sd:/plugin.nro".to_string()),
        filename: "plugin.nro".to_string(),
    }
}

fn assets_folder() -> PluginFolder {
    PluginFolder {
        install_root_location: InstallLocation::AbsolutePath("sd:/assets".to_string()),
        root_name: "assets".to_string(),
    }
}

fn abs_path(loc: &InstallLocation) -> String {
    match loc {
        InstallLocation::AbsolutePath(p) => p.clone(),
        InstallLocation::Reserved => panic!("expected an absolute path"),
    }
}

#[test]
fn flattens_folders_ahead_with_sentinels_behind() {
    let manifest = manifest_with(vec![nro_file()], Some(vec![assets_folder()]), "1.0.0");
    let walked = vec![vec![
        WalkedFile {
            path: "/srv/plugins/demo/assets/img/a.png".to_string(),
            data: Some(vec![10]),
        },
        WalkedFile {
            path: "/srv/plugins/demo/assets/b.txt".to_string(),
            data: Some(vec![20]),
        },
    ]];
    let p = build_package(
        "plugins/demo",
        &manifest,
        vec![Some(vec![1, 2, 3])],
        walked,
        vec![],
        None,
    )
    .expect("definition resolves");

    assert_eq!(p.name, "demo");
    assert_eq!(p.plugin_version, "1.0.0");
    assert!(!p.beta);
    assert_eq!(p.skyline_version, "0.0.0");
    // Walked files sit ahead, newest walked first; the declared file
    // follows; the folder's sentinel closes the list.
    assert_eq!(p.files.len(), 4);
    assert_eq!(abs_path(&p.files[0].install_location), "sd:/assets/b.txt");
    assert_eq!(p.files[0].data, vec![20]);
    assert_eq!(abs_path(&p.files[1].install_location), "sd:/assets/img/a.png");
    assert_eq!(p.files[1].data, vec![10]);
    assert_eq!(abs_path(&p.files[2].install_location), "sd:/plugin.nro");
    assert_eq!(p.files[2].data, vec![1, 2, 3]);
    assert_eq!(abs_path(&p.files[3].install_location), "sd:/assets");
    assert!(p.files[3].data.is_empty());
}

#[test]
fn invalid_version_fails_the_definition() {
    let manifest = manifest_with(vec![], None, "one.two");
    let e = build_package("plugins/demo", &manifest, vec![], vec![], vec![], None).unwrap_err();
    assert_eq!(e.dir, "plugins/demo");
    assert!(matches!(e.kind, ErrorKind::ManifestParse));
}

#[test]
fn unreadable_declared_file_fails_the_definition() {
    let manifest = manifest_with(vec![nro_file()], None, "1.0.0");
    let e = build_package("plugins/demo", &manifest, vec![None], vec![], vec![], None)
        .unwrap_err();
    assert!(matches!(e.kind, ErrorKind::FileRead));
}

#[test]
fn reserved_folder_root_fails_the_definition() {
    let folder = PluginFolder {
        install_root_location: InstallLocation::Reserved,
        root_name: "assets".to_string(),
    };
    let manifest = manifest_with(vec![], Some(vec![folder]), "1.0.0");
    let e = build_package("plugins/demo", &manifest, vec![], vec![vec![]], vec![], None)
        .unwrap_err();
    assert!(matches!(e.kind, ErrorKind::FolderLayout));
}

#[test]
fn unanchored_walked_path_fails_the_definition() {
    let manifest = manifest_with(vec![], Some(vec![assets_folder()]), "1.0.0");
    let walked = vec![vec![WalkedFile {
        path: "/srv/elsewhere/demo/assets/a.png".to_string(),
        data: Some(vec![1]),
    }]];
    let e = build_package("plugins/demo", &manifest, vec![], walked, vec![], None).unwrap_err();
    assert!(matches!(e.kind, ErrorKind::FolderLayout));
}

#[test]
fn unreadable_walked_file_fails_the_definition() {
    let manifest = manifest_with(vec![], Some(vec![assets_folder()]), "1.0.0");
    let walked = vec![vec![WalkedFile {
        path: "/srv/plugins/demo/assets/a.png".to_string(),
        data: None,
    }]];
    let e = build_package("plugins/demo", &manifest, vec![], walked, vec![], None).unwrap_err();
    assert!(matches!(e.kind, ErrorKind::FileRead));
}

#[test]
fn metadata_is_best_effort() {
    let mut manifest = manifest_with(vec![], None, "2.1.0-rc.1");
    manifest.beta = Some(true);
    manifest.skyline_version = Some("not a version".to_string());
    manifest.metadata = Some(TomlMetadata {
        name: Some("Demo".to_string()),
        images: Some(vec!["img/one.png".to_string(), "img/two.png".to_string()]),
        description: Some("a demo".to_string()),
        changelog: Some("changelog.md".to_string()),
    });
    let p = build_package(
        "plugins/demo",
        &manifest,
        vec![],
        vec![],
        vec![Some(vec![9, 9]), None],
        Some("changes".to_string()),
    )
    .expect("definition resolves");
    assert_eq!(p.plugin_version, "2.1.0-rc.1");
    assert!(p.beta);
    // An unparseable least-host-version falls back to the lowest version.
    assert_eq!(p.skyline_version, "0.0.0");
    assert_eq!(p.metadata.name.as_deref(), Some("Demo"));
    // An unreadable image yields empty bytes, never a failure.
    assert_eq!(p.metadata.images, Some(vec![vec![9, 9], vec![]]));
    assert_eq!(p.metadata.description.as_deref(), Some("a demo"));
    assert_eq!(p.metadata.changelog.as_deref(), Some("changes"));
}

#[test]
fn registry_build_isolates_bad_definitions() {
    let good = DefinitionSource::Manifest {
        dir: "plugins/demo".to_string(),
        manifest: manifest_with(vec![nro_file()], None, "1.0.0"),
        file_data: vec![Some(vec![7])],
        folder_files: vec![],
        image_data: vec![],
        changelog_text: None,
    };
    let bad = DefinitionSource::Manifest {
        dir: "plugins/broken".to_string(),
        manifest: manifest_with(vec![nro_file()], None, "1.0.0"),
        file_data: vec![None],
        folder_files: vec![],
        image_data: vec![],
        changelog_text: None,
    };
    let defs = vec![
        DefinitionSource::NotADirectory,
        DefinitionSource::MissingManifest { dir: "plugins/empty".to_string() },
        bad,
        DefinitionSource::UnparsableManifest { dir: "plugins/garbled".to_string() },
        good,
    ];
    let (plugins, errors) = build_registry(defs);
    assert_eq!(plugins.len(), 1);
    assert_eq!(plugins[0].name, "demo");
    assert_eq!(plugins[0].files.len(), 1);
    assert_eq!(errors.len(), 3);
    assert_eq!(errors[0].dir, "plugins/empty");
    assert!(matches!(errors[0].kind, ErrorKind::MissingManifest));
    assert_eq!(errors[1].dir, "plugins/broken");
    assert!(matches!(errors[1].kind, ErrorKind::FileRead));
    assert_eq!(errors[2].dir, "plugins/garbled");
    assert!(matches!(errors[2].kind, ErrorKind::ManifestParse));
}
