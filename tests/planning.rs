use bootstrap_sync::plan::{plan_update, DiffPlan};
use bootstrap_sync::scan::{dir_removable, path_ignored, scan_dir};
use bootstrap_sync::{FileInfo, Info};

fn entry(path: &str, hash: &str) -> FileInfo {
    FileInfo { path: path.to_string(), hash: hash.to_string() }
}

fn manifest(files: Vec<FileInfo>, ignored: Vec<&str>) -> Info {
    Info {
        base_url: "http://localhost:8000/files/".to_string(),
        algorithm: "sha256".to_string(),
        files,
        ignored_files: ignored.into_iter().map(|s| s.to_string()).collect(),
    }
}

fn paths(v: &[FileInfo]) -> Vec<String> {
    v.iter().map(|f| f.path.clone()).collect()
}

#[test]
fn stray_and_missing_files_plan() {
    let info = manifest(vec![entry("a.txt", "H1"), entry("b.txt", "H2")], vec![]);
    let local = vec![entry("a.txt", "H1"), entry("c.txt", "H3")];
    let plan = plan_update(&info, &local);
    assert_eq!(paths(&plan.to_download), vec!["b.txt".to_string()]);
    assert_eq!(plan.to_download[0].hash, "H2");
    assert_eq!(plan.to_delete, vec!["c.txt".to_string()]);
    assert!(!plan.is_empty());
}

#[test]
fn changed_hash_is_downloaded() {
    let info = manifest(vec![entry("a.txt", "H1")], vec![]);
    let local = vec![entry("a.txt", "OLD")];
    let plan = plan_update(&info, &local);
    assert_eq!(paths(&plan.to_download), vec!["a.txt".to_string()]);
    assert!(plan.to_delete.is_empty());
}

#[test]
fn download_order_follows_manifest() {
    let info = manifest(
        vec![entry("z.bin", "1"), entry("dir/m.txt", "2"), entry("a.txt", "3")],
        vec![],
    );
    let plan = plan_update(&info, &vec![]);
    assert_eq!(
        paths(&plan.to_download),
        vec!["z.bin".to_string(), "dir/m.txt".to_string(), "a.txt".to_string()]
    );
}

#[test]
fn plan_is_deterministic() {
    let info = manifest(vec![entry("a.txt", "H1"), entry("b.txt", "H2")], vec!["logs"]);
    let local = vec![entry("c.txt", "x"), entry("a.txt", "H0"), entry("logs/1.log", "y")];
    let p1: DiffPlan = plan_update(&info, &local);
    let p2: DiffPlan = plan_update(&info, &local);
    assert_eq!(paths(&p1.to_download), paths(&p2.to_download));
    assert_eq!(p1.to_delete, p2.to_delete);
}

#[test]
fn ignored_paths_are_never_planned() {
    let info = manifest(
        vec![entry("ignored/conf.toml", "H1"), entry("app", "H2")],
        vec!["ignored/", "empty"],
    );
    let local = vec![
        entry("ignored/user.dat", "x"),
        entry("empty", "y"),
        entry("emptyish", "z"),
        entry("app", "H2"),
    ];
    let plan = plan_update(&info, &local);
    assert!(plan.to_download.is_empty());
    assert_eq!(plan.to_delete, vec!["emptyish".to_string()]);
}

#[test]
fn synchronized_directory_gives_empty_plan() {
    let info = manifest(vec![entry("a.txt", "H1"), entry("d/b.txt", "H2")], vec!["cache"]);
    let local = vec![entry("d/b.txt", "H2"), entry("a.txt", "H1"), entry("cache/x", "q")];
    let plan = plan_update(&info, &local);
    assert!(plan.is_empty());
    let again = plan_update(&info, &local);
    assert!(again.is_empty());
}

#[test]
fn empty_manifest_deletes_everything_not_ignored() {
    let info = manifest(vec![], vec!["keep"]);
    let local = vec![entry("x", "1"), entry("keep/y", "2")];
    let plan = plan_update(&info, &local);
    assert_eq!(plan.to_delete, vec!["x".to_string()]);
}

#[test]
fn ignore_matching_is_by_component() {
    let ignored = vec!["ignored/".to_string(), "empty".to_string()];
    assert!(path_ignored("ignored", &ignored));
    assert!(path_ignored("ignored/a/b.txt", &ignored));
    assert!(path_ignored("empty", &ignored));
    assert!(path_ignored("empty/x", &ignored));
    assert!(!path_ignored("emptyx", &ignored));
    assert!(!path_ignored("ignoredfile", &ignored));
    assert!(!path_ignored("a/ignored", &ignored));
    assert!(!path_ignored("x", &vec![]));
}

#[test]
fn scan_dir_drops_ignored_files() {
    let listing = vec![
        "a.txt".to_string(),
        "ignored/b.txt".to_string(),
        "sub/c.txt".to_string(),
        "empty".to_string(),
    ];
    let ignored = vec!["ignored/".to_string(), "empty".to_string()];
    let kept = scan_dir(listing, &ignored);
    assert_eq!(kept, vec!["a.txt".to_string(), "sub/c.txt".to_string()]);
}

#[test]
fn root_and_ignored_dirs_are_not_removed() {
    let ignored = vec!["ignored/".to_string()];
    assert!(!dir_removable("", &ignored));
    assert!(!dir_removable("ignored", &ignored));
    assert!(!dir_removable("ignored/sub", &ignored));
    assert!(dir_removable("old", &ignored));
}
