use sync_folder::sync::{calculate_sync_tasks, LocalFile, LocalFiles};
use sync_folder::yandex::CloudItem;

fn item(name: &str) -> CloudItem {
    CloudItem {
        name: name.to_string(),
        is_dir: false,
        size: 1,
        path: format!("disk:/Applications/app/audio/{}", name),
        media_type: "audio".to_string(),
    }
}

fn local(names: &[&str]) -> LocalFiles {
    let mut files = LocalFiles::new();
    for n in names {
        files.insert(n.to_string(), format!("/music/{}", n));
    }
    files
}

fn sorted_names(files: LocalFiles) -> Vec<String> {
    let mut v: Vec<String> = files.into_entries().into_iter().map(|e| e.name).collect();
    v.sort();
    v
}

#[test]
fn local_files_insert_replaces() {
    let mut files = LocalFiles::new();
    files.insert("a.mp3".to_string(), "/x/a.mp3".to_string());
    files.insert("b.mp3".to_string(), "/x/b.mp3".to_string());
    files.insert("a.mp3".to_string(), "/y/a.mp3".to_string());
    assert!(files.contains_key(&"a.mp3".to_string()));
    assert!(!files.contains_key(&"c.mp3".to_string()));
    let entries = files.into_entries();
    assert_eq!(
        entries,
        vec![
            LocalFile { name: "a.mp3".to_string(), path: "/y/a.mp3".to_string() },
            LocalFile { name: "b.mp3".to_string(), path: "/x/b.mp3".to_string() },
        ]
    );
}

#[test]
fn local_files_remove() {
    let mut files = local(&["a", "b"]);
    assert_eq!(files.remove(&"a".to_string()), Some("/music/a".to_string()));
    assert_eq!(files.remove(&"a".to_string()), None);
    assert_eq!(files.remove(&"zzz".to_string()), None);
    assert_eq!(sorted_names(files), vec!["b".to_string()]);
}

#[test]
fn delta_between_cloud_and_folder() {
    let cloud = vec![item("a"), item("b"), item("c")];
    let tasks = calculate_sync_tasks(cloud, local(&["b", "d", "e"]));
    assert_eq!(tasks.to_download, vec![item("a"), item("c")]);
    assert_eq!(sorted_names(tasks.to_upload), vec!["d".to_string(), "e".to_string()]);
}

#[test]
fn upload_keeps_local_paths() {
    let tasks = calculate_sync_tasks(vec![item("a")], local(&["b"]));
    let entries = tasks.to_upload.into_entries();
    assert_eq!(entries, vec![LocalFile { name: "b".to_string(), path: "/music/b".to_string() }]);
}

#[test]
fn folder_in_sync_needs_nothing() {
    let tasks = calculate_sync_tasks(vec![item("x"), item("y")], local(&["y", "x"]));
    assert!(tasks.to_download.is_empty());
    assert!(sorted_names(tasks.to_upload).is_empty());
}

#[test]
fn empty_sides() {
    let tasks = calculate_sync_tasks(vec![], local(&[]));
    assert!(tasks.to_download.is_empty());
    assert!(sorted_names(tasks.to_upload).is_empty());
    let tasks = calculate_sync_tasks(vec![item("a")], local(&[]));
    assert_eq!(tasks.to_download, vec![item("a")]);
    let tasks = calculate_sync_tasks(vec![], local(&["a"]));
    assert!(tasks.to_download.is_empty());
    assert_eq!(sorted_names(tasks.to_upload), vec!["a".to_string()]);
}

#[test]
fn repeated_cloud_name_present_locally_is_not_downloaded() {
    let tasks = calculate_sync_tasks(vec![item("a"), item("a"), item("b")], local(&["a"]));
    assert_eq!(tasks.to_download, vec![item("b")]);
    assert!(sorted_names(tasks.to_upload).is_empty());
}

#[test]
fn repeated_cloud_name_missing_locally_is_downloaded_each_time() {
    let tasks = calculate_sync_tasks(vec![item("a"), item("a")], local(&["c"]));
    assert_eq!(tasks.to_download, vec![item("a"), item("a")]);
    assert_eq!(sorted_names(tasks.to_upload), vec!["c".to_string()]);
}

#[test]
fn local_files_len_and_counts() {
    let files = local(&["a", "b", "a", "c"]);
    assert_eq!(files.len(), 3);
    let tasks = calculate_sync_tasks(vec![item("a"), item("x")], files);
    // 3 local files, 1 of them also listed: 2 to upload.
    assert_eq!(tasks.to_upload.len(), 2);
    assert_eq!(tasks.to_download.len(), 1);
    assert_eq!(LocalFiles::new().len(), 0);
}

#[test]
fn after_sync_both_sides_hold_the_union() {
    let cloud = vec![item("a"), item("b")];
    let tasks = calculate_sync_tasks(cloud, local(&["b", "c"]));
    let mut local_after: Vec<String> = vec!["b".to_string(), "c".to_string()];
    local_after.extend(tasks.to_download.iter().map(|i| i.name.clone()));
    local_after.sort();
    let mut cloud_after: Vec<String> = vec!["a".to_string(), "b".to_string()];
    cloud_after.extend(sorted_names(tasks.to_upload));
    cloud_after.sort();
    assert_eq!(local_after, cloud_after);
    assert_eq!(local_after, vec!["a".to_string(), "b".to_string(), "c".to_string()]);
}
