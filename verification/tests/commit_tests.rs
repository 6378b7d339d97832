use std::path::Path;
use subenv::commit::{CommitQueue, ProvisionedSink};
use subenv::exitcode::provision_exit_artifact;

fn dir_string(d: &tempfile::TempDir) -> String {
    d.path().to_str().unwrap().to_string()
}

#[test]
fn staged_artifact_reaches_its_destination_only_on_commit() {
    let dir = tempfile::tempdir().unwrap();
    let tmp = dir_string(&dir);
    let dest = format!("{}/out.log", tmp);
    let mut q = CommitQueue::new();
    let staged = q.stage(&tmp, dest.clone(), "hello").unwrap();
    assert_eq!(q.pending_count(), 1);
    assert!(Path::new(&staged).exists());
    assert!(!Path::new(&dest).exists());
    let results = q.commit_all();
    assert_eq!(q.pending_count(), 0);
    assert_eq!(results.len(), 1);
    assert_eq!(results[0].0, dest);
    assert!(results[0].1);
    assert!(Path::new(&dest).exists());
    assert!(!Path::new(&staged).exists());
}

#[test]
fn discard_leaves_the_destination_untouched() {
    let dir = tempfile::tempdir().unwrap();
    let tmp = dir_string(&dir);
    let dest = format!("{}/out.log", tmp);
    let mut q = CommitQueue::new();
    let staged = q.stage(&tmp, dest.clone(), "half-done").unwrap();
    let n = q.discard_all();
    assert_eq!(n, 1);
    assert_eq!(q.pending_count(), 0);
    assert!(!Path::new(&dest).exists());
    assert!(!Path::new(&staged).exists());
}

#[test]
fn each_artifact_is_committed_independently() {
    let dir = tempfile::tempdir().unwrap();
    let tmp = dir_string(&dir);
    let good = format!("{}/good.log", tmp);
    let bad = format!("{}/no-such-dir/bad.log", tmp);
    let mut q = CommitQueue::new();
    q.stage(&tmp, bad.clone(), "first").unwrap();
    q.stage(&tmp, good.clone(), "second").unwrap();
    let results = q.commit_all();
    assert_eq!(results.len(), 2);
    assert_eq!(results[0].0, bad);
    assert!(!results[0].1);
    assert_eq!(results[1].0, good);
    assert!(results[1].1);
    assert!(Path::new(&good).exists());
    assert!(!Path::new(&bad).exists());
}

#[test]
fn a_second_run_overwrites_the_committed_file() {
    let dir = tempfile::tempdir().unwrap();
    let tmp = dir_string(&dir);
    let dest = format!("{}/out.log", tmp);
    let mut q = CommitQueue::new();
    q.stage(&tmp, dest.clone(), "a much longer first run").unwrap();
    q.commit_all();
    assert!(Path::new(&dest).exists());
    let mut q2 = CommitQueue::new();
    q2.stage(&tmp, dest.clone(), "short").unwrap();
    let results = q2.commit_all();
    assert!(results[0].1);
    assert!(Path::new(&dest).exists());
}

#[test]
fn staging_into_a_missing_directory_fails_cleanly() {
    let dir = tempfile::tempdir().unwrap();
    let tmp = dir_string(&dir);
    let missing = format!("{}/nowhere", tmp);
    let mut q = CommitQueue::new();
    let r = q.stage(&missing, format!("{}/out.log", tmp), "");
    assert!(r.is_err());
    assert_eq!(q.pending_count(), 0);
}

#[test]
fn direct_provisioning_hands_back_the_destination() {
    let dir = tempfile::tempdir().unwrap();
    let tmp = dir_string(&dir);
    let dest = format!("{}/out.log", tmp);
    let mut q = CommitQueue::new();
    match q.provision_output(false, &tmp, dest.clone()).unwrap() {
        ProvisionedSink::Direct(p) => assert_eq!(p, dest),
        ProvisionedSink::Staged(_) => panic!("direct mode must not stage"),
    }
    assert_eq!(q.pending_count(), 0);
}

#[test]
fn atomic_provisioning_stages_a_temporary_sink() {
    let dir = tempfile::tempdir().unwrap();
    let tmp = dir_string(&dir);
    let dest = format!("{}/out.log", tmp);
    let mut q = CommitQueue::new();
    match q.provision_output(true, &tmp, dest.clone()).unwrap() {
        ProvisionedSink::Staged(p) => {
            assert_ne!(p, dest);
            assert!(Path::new(&p).exists());
        }
        ProvisionedSink::Direct(_) => panic!("atomic mode must stage"),
    }
    assert_eq!(q.pending_count(), 1);
    assert!(!Path::new(&dest).exists());
}

#[test]
fn direct_exit_artifact_hands_back_path_and_text() {
    let dir = tempfile::tempdir().unwrap();
    let tmp = dir_string(&dir);
    let path = format!("{}/exit.txt", tmp);
    let mut q = CommitQueue::new();
    let r = provision_exit_artifact(&mut q, false, &tmp, path.clone(), Some(7)).unwrap();
    let (p, text) = r.unwrap();
    assert_eq!(p, path);
    assert_eq!(text, "7");
    assert_eq!(q.pending_count(), 0);
}

#[test]
fn atomic_exit_artifact_is_staged_and_committed() {
    let dir = tempfile::tempdir().unwrap();
    let tmp = dir_string(&dir);
    let path = format!("{}/exit.txt", tmp);
    let mut q = CommitQueue::new();
    let r = provision_exit_artifact(&mut q, true, &tmp, path.clone(), Some(7)).unwrap();
    assert!(r.is_none());
    assert_eq!(q.pending_count(), 1);
    assert!(!Path::new(&path).exists());
    let results = q.commit_all();
    assert!(results[0].1);
    assert!(Path::new(&path).exists());
}
