use para_cli::category::Para;
use para_cli::commands::{
    archive, copy, destination, init, init_created, init_probed, move_, new, path, InitAction,
    InitReport, NewAction,
};
use para_cli::error::ParaError;
use para_cli::paths::{layout_text, ParaPaths};
use std::path::PathBuf;
use para_cli::transfer::{TransferKind, TransferOptions};

fn layout() -> ParaPaths {
    ParaPaths::from_root("/tmp/x", false)
}

fn defaults() -> TransferOptions {
    TransferOptions {
        overwrite: false,
        skip_exist: false,
        buffer_size: 64000,
        copy_inside: false,
        content_only: false,
        depth: 0,
    }
}

fn blank() -> InitReport {
    InitReport { skipped: Vec::new(), created: Vec::new() }
}

fn probe_of(action: InitAction) -> (Para, String) {
    match action {
        InitAction::Probe { kind, path } => (kind, path),
        other => panic!("unexpected: {:?}", other),
    }
}

#[test]
fn init_starts_with_projects() {
    let (action, report) = init(&layout());
    let (kind, path) = probe_of(action);
    assert_eq!(kind, Para::Projects);
    assert_eq!(path, "/tmp/x/Projects");
    assert!(report.skipped.is_empty());
    assert!(report.created.is_empty());
}

#[test]
fn init_skips_existing_directories() {
    let paths = layout();
    let mut report = blank();
    let (kind, path) = probe_of(init_probed(&paths, Para::Projects, true, &mut report));
    assert_eq!((kind, path.as_str()), (Para::Areas, "/tmp/x/Areas"));
    let (kind, path) = probe_of(init_probed(&paths, Para::Areas, true, &mut report));
    assert_eq!((kind, path.as_str()), (Para::Resources, "/tmp/x/Resources"));
    let (kind, path) = probe_of(init_probed(&paths, Para::Resources, true, &mut report));
    assert_eq!((kind, path.as_str()), (Para::Archives, "/tmp/x/Archives"));
    assert!(matches!(
        init_probed(&paths, Para::Archives, true, &mut report),
        InitAction::Finish(Ok(()))
    ));
    assert_eq!(
        report.skipped,
        vec![Para::Projects, Para::Areas, Para::Resources, Para::Archives]
    );
    assert!(report.created.is_empty());
}

#[test]
fn init_creates_what_is_missing() {
    let paths = layout();
    let mut report = blank();
    match init_probed(&paths, Para::Resources, false, &mut report) {
        InitAction::CreateDir { kind, path } => {
            assert_eq!(kind, Para::Resources);
            assert_eq!(path, "/tmp/x/Resources");
        }
        other => panic!("unexpected: {:?}", other),
    }
    assert!(report.skipped.is_empty());
    let (kind, path) = probe_of(init_created(&paths, Para::Resources, Ok(()), &mut report));
    assert_eq!((kind, path.as_str()), (Para::Archives, "/tmp/x/Archives"));
    assert!(matches!(
        init_created(&paths, Para::Archives, Ok(()), &mut report),
        InitAction::Finish(Ok(()))
    ));
    assert_eq!(report.created, vec![Para::Resources, Para::Archives]);
    assert!(report.skipped.is_empty());
}

#[test]
fn init_stops_at_the_first_failure() {
    let paths = layout();
    let mut report = blank();
    match init_created(&paths, Para::Areas, Err("permission denied".to_string()), &mut report) {
        InitAction::Finish(Err(ParaError::Io { path, cause })) => {
            assert_eq!(path, "/tmp/x/Areas");
            assert_eq!(cause, "permission denied");
        }
        other => panic!("unexpected: {:?}", other),
    }
    assert!(report.created.is_empty());
}

#[test]
fn init_twice_creates_nothing_the_second_time() {
    let paths = layout();
    let (mut action, mut report) = init(&paths);
    let mut steps = 0;
    loop {
        steps += 1;
        assert!(steps < 20);
        action = match action {
            InitAction::Probe { kind, .. } => init_probed(&paths, kind, true, &mut report),
            InitAction::CreateDir { kind, .. } => init_created(&paths, kind, Ok(()), &mut report),
            InitAction::Finish(result) => {
                assert!(result.is_ok());
                break;
            }
        };
    }
    assert!(report.created.is_empty());
    assert_eq!(report.skipped.len(), 4);
    assert_eq!(steps, 5);
}

#[test]
fn new_file_needs_the_category_directory() {
    match new(&layout(), Para::Resources, "new_file", true, false) {
        Err(ParaError::NotInitialized { path }) => assert_eq!(path, "/tmp/x/Resources"),
        other => panic!("unexpected: {:?}", other),
    }
    match new(&layout(), Para::Resources, "dir", false, false) {
        Err(ParaError::NotInitialized { path }) => assert_eq!(path, "/tmp/x/Resources"),
        other => panic!("unexpected: {:?}", other),
    }
}

#[test]
fn new_file_is_created_at_the_joined_path() {
    match new(&layout(), Para::Resources, "new_file", true, true) {
        Ok(NewAction::CreateFile(path)) => assert_eq!(path, "/tmp/x/Resources/new_file"),
        other => panic!("unexpected: {:?}", other),
    }
}

#[test]
fn new_directory_is_created_with_its_ancestors() {
    match new(&layout(), Para::Areas, "a/b/c", false, true) {
        Ok(NewAction::CreateDirAll(path)) => assert_eq!(path, "/tmp/x/Areas/a/b/c"),
        other => panic!("unexpected: {:?}", other),
    }
}

#[test]
fn destination_with_and_without_subfolder() {
    let paths = ParaPaths::from_root("/tmp/x", true);
    assert_eq!(destination(&paths, Para::Projects, None), "/tmp/x/0_Projects");
    assert_eq!(destination(&paths, Para::Areas, Some("a/b")), "/tmp/x/1_Areas/a/b");
}

#[test]
fn archive_needs_the_archive_directory() {
    let sources = vec!["/does/not/exist".to_string()];
    match archive("/tmp/x/Archives", sources, false) {
        Err(ParaError::NotInitialized { path }) => assert_eq!(path, "/tmp/x/Archives"),
        other => panic!("unexpected: {:?}", other),
    }
    match archive("/tmp/x/Archives", vec![], false) {
        Err(ParaError::NotInitialized { path }) => assert_eq!(path, "/tmp/x/Archives"),
        other => panic!("unexpected: {:?}", other),
    }
}

#[test]
fn archive_plan_keeps_the_sources_in_order() {
    let sources = vec!["/b".to_string(), "/a".to_string(), "/c".to_string()];
    let plan = archive("/tmp/x/Archives", sources.clone(), true).unwrap();
    assert_eq!(plan.kind, TransferKind::Archive);
    assert_eq!(plan.options, defaults());
    assert_eq!(plan.destination, "/tmp/x/Archives");
    assert!(!plan.create_destination);
    assert_eq!(plan.sources, sources);
}

#[test]
fn move_creates_a_missing_destination() {
    let sources = vec!["/elsewhere/file1.txt".to_string(), "/elsewhere/dir1".to_string()];
    let plan = move_(&layout(), Para::Projects, Some("test_move"), sources.clone(), false);
    assert_eq!(plan.kind, TransferKind::Move);
    assert_eq!(plan.options, defaults());
    assert_eq!(plan.destination, "/tmp/x/Projects/test_move");
    assert!(plan.create_destination);
    assert_eq!(plan.sources, sources);
    let plan = move_(&layout(), Para::Projects, None, sources.clone(), true);
    assert_eq!(plan.destination, "/tmp/x/Projects");
    assert!(!plan.create_destination);
}

#[test]
fn copy_never_creates_its_destination() {
    let sources = vec!["/elsewhere/file1.txt".to_string()];
    let plan = copy(&layout(), Para::Resources, Some("sub"), sources.clone());
    assert_eq!(plan.kind, TransferKind::Copy);
    assert_eq!(plan.options, defaults());
    assert_eq!(plan.destination, "/tmp/x/Resources/sub");
    assert!(!plan.create_destination);
    assert_eq!(plan.sources, sources);
}

#[test]
fn path_shows_one_quoted_directory() {
    let paths = layout();
    assert_eq!(path(Some(Para::Areas), &paths), "\"/tmp/x/Areas\"");
    assert_eq!(path(Some(Para::Archives), &paths), "\"/tmp/x/Archives\"");
    let odd = ParaPaths::from_root("/tmp/a\"b", false);
    assert_eq!(path(Some(Para::Projects), &odd), "\"/tmp/a\\\"b/Projects\"");
}

#[test]
fn path_shows_the_whole_layout() {
    let paths = layout();
    let expected = "Root:\t\t\"/tmp/x\"\nProjects:\t\"/tmp/x/Projects\"\nAreas:\t\t\"/tmp/x/Areas\"\nResources:\t\"/tmp/x/Resources\"\nArchives:\t\"/tmp/x/Archives\"";
    assert_eq!(path(None, &paths), expected);
    assert_eq!(paths.describe(), expected);
    let as_paths = format!(
        "Root:\t\t{:?}\nProjects:\t{:?}\nAreas:\t\t{:?}\nResources:\t{:?}\nArchives:\t{:?}",
        PathBuf::from(&paths.root),
        PathBuf::from(&paths.projects),
        PathBuf::from(&paths.areas),
        PathBuf::from(&paths.resources),
        PathBuf::from(&paths.archives)
    );
    assert_eq!(paths.describe(), as_paths);
}

#[test]
fn layout_text_puts_each_path_behind_its_label() {
    assert_eq!(
        layout_text("r", "p", "a", "s", "v"),
        "Root:\t\tr\nProjects:\tp\nAreas:\t\ta\nResources:\ts\nArchives:\tv"
    );
    assert_eq!(
        layout_text("", "", "", "", ""),
        "Root:\t\t\nProjects:\t\nAreas:\t\t\nResources:\t\nArchives:\t"
    );
}
