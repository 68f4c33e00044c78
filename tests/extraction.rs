use std::collections::{BTreeMap, BTreeSet};

use binary_builder::assets::AssetSet;
use binary_builder::extract::{extraction_plan, FsAction};
use binary_builder::launch::{
    classify_exit, executable_mode, launch_args, needs_permission_step, target_binary_path,
    ChildExit,
};
use binary_builder::paths::parent_dir;
use binary_builder::run::{step, Action, Event, Stage};

fn sample_set() -> AssetSet {
    let mut set = AssetSet::new();
    set.insert("package.json".to_string(), b"{}\n".to_vec());
    set.insert("binary/agentsFunEliza.node".to_string(), vec![0x7f, b'E', b'L', b'F']);
    set.insert("characters/eliza.character.json".to_string(), b"{\"name\":\"eliza\"}\r\n".to_vec());
    set.insert("data/a/b/c.bin".to_string(), vec![0, 1, 2, 255]);
    set
}

/// Runs the plan on an in-memory workspace: directories created and files written.
fn replay(set: &AssetSet) -> (BTreeSet<String>, BTreeMap<String, Vec<u8>>) {
    let mut dirs = BTreeSet::new();
    let mut files = BTreeMap::new();
    for action in extraction_plan(set) {
        match action {
            FsAction::CreateDirAll(d) => {
                dirs.insert(d);
            }
            FsAction::WriteFile(i) => {
                let path = set.path_at(i).clone();
                if let Some(d) = parent_dir(&path) {
                    assert!(dirs.contains(&d), "directory {d} not created before {path}");
                }
                files.insert(path, set.data_at(i).clone());
            }
        }
    }
    (dirs, files)
}

#[test]
fn extraction_reproduces_every_file_byte_for_byte() {
    let set = sample_set();
    let (dirs, files) = replay(&set);
    assert_eq!(files.len(), set.len());
    for i in 0..set.len() {
        let path = set.path_at(i);
        assert_eq!(files.get(path), Some(set.data_at(i)));
        assert_eq!(set.get(path), Some(set.data_at(i)));
    }
    let expected: BTreeSet<String> =
        ["binary", "characters", "data/a/b"].iter().map(|s| s.to_string()).collect();
    assert_eq!(dirs, expected);
}

#[test]
fn extraction_plan_orders_directory_before_file() {
    let set = sample_set();
    let plan = extraction_plan(&set);
    assert_eq!(plan.len(), 7);
    assert!(matches!(&plan[0], FsAction::WriteFile(0)));
    assert!(matches!(&plan[1], FsAction::CreateDirAll(d) if d == "binary"));
    assert!(matches!(&plan[2], FsAction::WriteFile(1)));
    assert!(matches!(&plan[5], FsAction::CreateDirAll(d) if d == "data/a/b"));
    assert!(matches!(&plan[6], FsAction::WriteFile(3)));
}

#[test]
fn empty_bundle_has_empty_plan() {
    let set = AssetSet::new();
    assert_eq!(set.len(), 0);
    assert!(extraction_plan(&set).is_empty());
    assert!(!set.contains("binary/agentsFunEliza.node"));
}

#[test]
fn insert_replaces_bytes_at_an_existing_path() {
    let mut set = sample_set();
    set.insert("package.json".to_string(), b"{\"v\":2}".to_vec());
    assert_eq!(set.len(), 4);
    assert_eq!(set.get("package.json"), Some(&b"{\"v\":2}".to_vec()));
    assert_eq!(set.find("package.json"), Some(0));
    assert_eq!(set.find("missing.txt"), None);
    assert_eq!(set.get("missing.txt"), None);
}

#[test]
fn missing_binary_is_absent_after_extraction_and_fails_the_run() {
    let mut set = AssetSet::new();
    set.insert("characters/eliza.character.json".to_string(), b"{}".to_vec());
    let target = target_binary_path();
    assert!(!set.contains(&target));
    let (_, files) = replay(&set);
    assert!(!files.contains_key(&target));
    assert_eq!(step(Stage::SetPermissions, true, Event::Failed), (Stage::Failed, Action::Exit(1)));
    assert_eq!(step(Stage::Launch, false, Event::Failed), (Stage::Failed, Action::Exit(1)));
}

#[test]
fn parent_directory_of_relative_paths() {
    assert_eq!(parent_dir("a/b/c.txt"), Some("a/b".to_string()));
    assert_eq!(parent_dir("binary/agentsFunEliza.node"), Some("binary".to_string()));
    assert_eq!(parent_dir("package.json"), None);
    assert_eq!(parent_dir(""), None);
    assert_eq!(parent_dir("/root.txt"), Some(String::new()));
    assert_eq!(parent_dir("dir/"), Some("dir".to_string()));
    assert_eq!(parent_dir("é/ü.txt"), Some("é".to_string()));
}

#[test]
fn binary_path_and_single_argument() {
    assert_eq!(target_binary_path(), "binary/agentsFunEliza.node");
    assert_eq!(launch_args(), vec!["--character=characters/eliza.character.json".to_string()]);
}

#[test]
fn binary_mode_is_executable_by_everyone() {
    let mode = executable_mode();
    assert_eq!(mode, 0o755);
    assert_eq!(mode & 0o111, 0o111);
}

#[test]
fn permission_step_only_on_unix() {
    assert!(needs_permission_step("unix"));
    assert!(!needs_permission_step("windows"));
    assert!(!needs_permission_step(""));
}

#[test]
fn exit_status_classification() {
    assert_eq!(classify_exit(Some(0), None), ChildExit::Success);
    assert_eq!(classify_exit(Some(2), None), ChildExit::Code(2));
    assert_eq!(classify_exit(Some(-1), Some(9)), ChildExit::Code(-1));
    assert_eq!(classify_exit(None, Some(9)), ChildExit::Signal(9));
    assert_eq!(classify_exit(None, None), ChildExit::Unknown);
}
