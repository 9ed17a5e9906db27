use scorpiofs::manager::WorkDir;
use scorpiofs::mount_tasks::{mount_infos, MountInfo, MountRequest, MountTasks};

fn request(path: &str) -> MountRequest {
    MountRequest { path: path.to_string(), cl: None }
}

fn info() -> MountInfo {
    MountInfo { hash: "abc".to_string(), path: "repo".to_string(), inode: 7 }
}

#[test]
fn fetching_task_is_reported_and_kept() {
    let mut tasks = MountTasks::new();
    tasks.begin("r1".to_string(), request("/repo"));
    let first = tasks.select("r1");
    assert_eq!(first.status, "Success");
    assert_eq!(first.task_status, "fetching");
    assert!(first.mount.is_none());
    assert_eq!(first.message, "Task found");
    let second = tasks.select("r1");
    assert_eq!(second.task_status, "fetching");
}

#[test]
fn finished_task_is_reported_once() {
    let mut tasks = MountTasks::new();
    tasks.begin("r1".to_string(), request("/repo"));
    let reply = tasks.complete("r1", Ok(info()));
    assert_eq!(reply.status, "Success");
    assert_eq!(reply.request_id, "r1");
    assert_eq!(reply.message, "Mount task completed");
    let first = tasks.select("r1");
    assert_eq!(first.task_status, "finished");
    let mount = first.mount.unwrap();
    assert_eq!(mount.hash, "abc");
    assert_eq!(mount.path, "repo");
    assert_eq!(mount.inode, 7);
    let second = tasks.select("r1");
    assert_eq!(second.status, "Fail");
    assert_eq!(second.task_status, "not_found");
    assert_eq!(second.message, "Task not found");
}

#[test]
fn conflicting_mount_asks_to_unmount() {
    let mut tasks = MountTasks::new();
    tasks.begin("r1".to_string(), request("/repo"));
    let reply = tasks.complete("r1", Err("The target is already mounted".to_string()));
    assert_eq!(reply.status, "Fail");
    assert_eq!(reply.message, "please unmount");
    let first = tasks.select("r1");
    assert_eq!(first.task_status, "error");
    assert!(first.mount.is_none());
    assert_eq!(tasks.select("r1").task_status, "not_found");
}

#[test]
fn other_failure_is_passed_on() {
    let mut tasks = MountTasks::new();
    tasks.begin("r1".to_string(), request("/repo"));
    let reply = tasks.complete("r1", Err("Failed to fetch: timeout".to_string()));
    assert_eq!(reply.message, "Mount failed: Failed to fetch: timeout");
}

#[test]
fn completing_unknown_task_is_refused() {
    let mut tasks = MountTasks::new();
    tasks.begin("r1".to_string(), request("/repo"));
    let reply = tasks.complete("r2", Ok(info()));
    assert_eq!(reply.status, "Fail");
    assert_eq!(reply.request_id, "r2");
    assert_eq!(reply.message, "task not found");
    assert_eq!(tasks.select("r1").task_status, "fetching");
}

#[test]
fn tasks_are_independent() {
    let mut tasks = MountTasks::new();
    tasks.begin("a".to_string(), request("/a"));
    tasks.begin("b".to_string(), request("/b"));
    tasks.complete("a", Ok(info()));
    assert_eq!(tasks.select("a").task_status, "finished");
    assert_eq!(tasks.select("b").task_status, "fetching");
    assert_eq!(tasks.select("a").task_status, "not_found");
}

#[test]
fn started_task_gets_a_fresh_id() {
    let mut tasks = MountTasks::new();
    let first = tasks.start(request("/repo"));
    let second = tasks.start(request("/other"));
    assert_eq!(first.len(), 36);
    assert_ne!(first, second);
    assert_eq!(tasks.select(&first).task_status, "fetching");
    assert_eq!(tasks.select(&second).task_status, "fetching");
}

#[test]
fn mounts_are_listed_in_order() {
    let works = vec![
        WorkDir { path: "a".to_string(), node: 1, hash: "h1".to_string() },
        WorkDir { path: "b/c".to_string(), node: 2, hash: "h2".to_string() },
    ];
    let infos = mount_infos(&works);
    assert_eq!(infos.len(), 2);
    assert_eq!(infos[0].path, "a");
    assert_eq!(infos[0].inode, 1);
    assert_eq!(infos[0].hash, "h1");
    assert_eq!(infos[1].path, "b/c");
    assert_eq!(infos[1].inode, 2);
    assert_eq!(infos[1].hash, "h2");
}
