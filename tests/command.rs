use unshare::{is_absolute_path, is_path_prefix, path_components, Command, Namespace, RootError};

const SIGKILL: i32 = 9;
const SIGTERM: i32 = 15;

const NEWNS: i32 = 0x20000;
const NEWUTS: i32 = 0x4000000;
const NEWIPC: i32 = 0x8000000;
const NEWUSER: i32 = 0x10000000;
const NEWPID: i32 = 0x20000000;
const NEWNET: i32 = 0x40000000;

#[test]
fn defaults() {
    let c = Command::new();
    assert_eq!(c.clone_flags(), 0);
    assert!(c.pivot_plan().is_none());
    assert!(c.chroot_path().is_none());
    assert_eq!(c.parent_death_signal(), Some(SIGKILL));
    assert!(!c.child_signal_enabled());
}

#[test]
fn default_matches_new() {
    let c = Command::default();
    assert_eq!(c.clone_flags(), 0);
    assert_eq!(c.parent_death_signal(), Some(SIGKILL));
    assert!(!c.child_signal_enabled());
    assert!(c.pivot_plan().is_none());
    assert!(c.chroot_path().is_none());
}

#[test]
fn pivot_then_chroot_scenario() {
    let mut c = Command::new();
    assert_eq!(c.pivot_root("/mnt/root", "/mnt/root/old", true), Ok(()));
    assert_eq!(c.chroot_dir("/var/app"), Ok(()));
    let p = c.pivot_plan().unwrap();
    assert_eq!(p.new_root, "/mnt/root");
    assert_eq!(p.put_old, "/mnt/root/old");
    assert!(p.unmount);
    assert_eq!(c.chroot_path().unwrap(), "/var/app");
}

#[test]
fn pivot_unrelated_trees_fails() {
    let mut c = Command::new();
    assert_eq!(c.pivot_root("/a", "/b/old", false), Err(RootError::NotPrefix));
    assert!(c.pivot_plan().is_none());
}

#[test]
fn pivot_put_old_shorter_fails() {
    let mut c = Command::new();
    assert_eq!(c.pivot_root("/a/b", "/a", false), Err(RootError::NotPrefix));
    assert!(c.pivot_plan().is_none());
}

#[test]
fn pivot_component_not_byte_prefix() {
    let mut c = Command::new();
    assert_eq!(c.pivot_root("/mnt/ro", "/mnt/root/old", false), Err(RootError::NotPrefix));
    assert!(c.pivot_plan().is_none());
}

#[test]
fn pivot_failure_keeps_earlier_pivot() {
    let mut c = Command::new();
    assert_eq!(c.pivot_root("/mnt", "/mnt/old", false), Ok(()));
    assert_eq!(c.pivot_root("/a", "/b/old", true), Err(RootError::NotPrefix));
    let p = c.pivot_plan().unwrap();
    assert_eq!(p.new_root, "/mnt");
    assert_eq!(p.put_old, "/mnt/old");
    assert!(!p.unmount);
}

#[test]
fn pivot_equal_paths_succeeds() {
    let mut c = Command::new();
    assert_eq!(c.pivot_root("/mnt/root", "/mnt/root", false), Ok(()));
    let p = c.pivot_plan().unwrap();
    assert_eq!(p.new_root, "/mnt/root");
    assert_eq!(p.put_old, "/mnt/root");
    assert!(!p.unmount);
}

#[test]
fn pivot_normalizes_separators_and_dots() {
    let mut c = Command::new();
    assert_eq!(c.pivot_root("/mnt//root/", "/mnt/./root/old", true), Ok(()));
    let p = c.pivot_plan().unwrap();
    assert_eq!(p.new_root, "/mnt//root/");
    assert_eq!(p.put_old, "/mnt/./root/old");
}

#[test]
fn pivot_relative_new_root_fails() {
    let mut c = Command::new();
    assert_eq!(c.pivot_root("mnt/root", "/mnt/root/old", false), Err(RootError::RelativeNewRoot));
    assert_eq!(c.pivot_root("", "/old", false), Err(RootError::RelativeNewRoot));
    assert!(c.pivot_plan().is_none());
}

#[test]
fn pivot_relative_put_old_fails() {
    let mut c = Command::new();
    assert_eq!(c.pivot_root("/mnt/root", "old", false), Err(RootError::RelativePutOld));
    assert!(c.pivot_plan().is_none());
}

#[test]
fn pivot_overwrites() {
    let mut c = Command::new();
    assert_eq!(c.pivot_root("/a", "/a/old", false), Ok(()));
    assert_eq!(c.pivot_root("/b", "/b/c/old", true), Ok(()));
    let p = c.pivot_plan().unwrap();
    assert_eq!(p.new_root, "/b");
    assert_eq!(p.put_old, "/b/c/old");
    assert!(p.unmount);
}

#[test]
fn chroot_relative_fails() {
    let mut c = Command::new();
    assert_eq!(c.chroot_dir("var/app"), Err(RootError::RelativeChrootDir));
    assert_eq!(c.chroot_dir("./app"), Err(RootError::RelativeChrootDir));
    assert_eq!(c.chroot_dir(""), Err(RootError::RelativeChrootDir));
    assert!(c.chroot_path().is_none());
}

#[test]
fn chroot_failure_keeps_earlier_dir() {
    let mut c = Command::new();
    assert_eq!(c.chroot_dir("/srv"), Ok(()));
    assert_eq!(c.chroot_dir("srv2"), Err(RootError::RelativeChrootDir));
    assert_eq!(c.chroot_path().unwrap(), "/srv");
}

#[test]
fn chroot_overwrites_and_repeats() {
    let mut c = Command::new();
    assert_eq!(c.chroot_dir("/srv"), Ok(()));
    assert_eq!(c.chroot_dir("/var/app"), Ok(()));
    assert_eq!(c.chroot_path().unwrap(), "/var/app");
    assert_eq!(c.chroot_dir("/var/app"), Ok(()));
    assert_eq!(c.chroot_path().unwrap(), "/var/app");
}

#[test]
fn unshare_in_two_calls_equals_one() {
    let mut a = Command::new();
    a.unshare(&[Namespace::Pid, Namespace::Net]);
    a.unshare(&[Namespace::Net, Namespace::Uts]);
    let mut b = Command::new();
    b.unshare(&[Namespace::Uts, Namespace::Pid, Namespace::Net]);
    assert_eq!(a.clone_flags(), b.clone_flags());
    assert_eq!(a.clone_flags(), NEWPID | NEWNET | NEWUTS);
}

#[test]
fn unshare_repeat_has_no_effect() {
    let mut a = Command::new();
    a.unshare(&[Namespace::Ipc, Namespace::Ipc]);
    assert_eq!(a.clone_flags(), NEWIPC);
    a.unshare(&[Namespace::Ipc]);
    assert_eq!(a.clone_flags(), NEWIPC);
}

#[test]
fn unshare_empty_is_noop() {
    let mut a = Command::new();
    a.unshare(&[]);
    assert_eq!(a.clone_flags(), 0);
    a.unshare(&[Namespace::Mount]);
    a.unshare(&[]);
    assert_eq!(a.clone_flags(), NEWNS);
}

#[test]
fn unshare_all_namespaces() {
    let mut a = Command::new();
    a.unshare(&[
        Namespace::Mount,
        Namespace::Uts,
        Namespace::Ipc,
        Namespace::User,
        Namespace::Pid,
        Namespace::Net,
    ]);
    assert_eq!(a.clone_flags(), NEWNS | NEWUTS | NEWIPC | NEWUSER | NEWPID | NEWNET);
}

#[test]
fn namespace_clone_flags() {
    assert_eq!(Namespace::Mount.clone_flag(), NEWNS);
    assert_eq!(Namespace::Uts.clone_flag(), NEWUTS);
    assert_eq!(Namespace::Ipc.clone_flag(), NEWIPC);
    assert_eq!(Namespace::User.clone_flag(), NEWUSER);
    assert_eq!(Namespace::Pid.clone_flag(), NEWPID);
    assert_eq!(Namespace::Net.clone_flag(), NEWNET);
}

#[test]
fn death_signal_last_write_wins() {
    let mut c = Command::new();
    c.set_parent_death_signal(SIGTERM);
    assert_eq!(c.parent_death_signal(), Some(SIGTERM));
    c.allow_daemonize();
    assert_eq!(c.parent_death_signal(), None);
    c.set_parent_death_signal(SIGKILL);
    assert_eq!(c.parent_death_signal(), Some(SIGKILL));
}

#[test]
fn child_signal_enable_only() {
    let mut c = Command::new();
    c.enable_child_signal();
    assert!(c.child_signal_enabled());
    c.enable_child_signal();
    assert!(c.child_signal_enabled());
    assert_eq!(c.parent_death_signal(), Some(SIGKILL));
    assert_eq!(c.clone_flags(), 0);
}

#[test]
fn policies_do_not_touch_each_other() {
    let mut c = Command::new();
    c.unshare(&[Namespace::User]);
    c.allow_daemonize();
    assert_eq!(c.chroot_dir("/srv"), Ok(()));
    assert_eq!(c.clone_flags(), NEWUSER);
    assert_eq!(c.parent_death_signal(), None);
    assert!(!c.child_signal_enabled());
    assert!(c.pivot_plan().is_none());
}

#[test]
fn absolute_paths() {
    assert!(is_absolute_path("/"));
    assert!(is_absolute_path("/a/b"));
    assert!(!is_absolute_path(""));
    assert!(!is_absolute_path("a/b"));
    assert!(!is_absolute_path("./a"));
}

#[test]
fn components_skip_empty_and_dot() {
    let c = path_components("/a//b/./c/");
    assert_eq!(c, vec![b"a".to_vec(), b"b".to_vec(), b"c".to_vec()]);
    let r = path_components("/");
    assert!(r.is_empty());
    let p = path_components("/a/../b");
    assert_eq!(p, vec![b"a".to_vec(), b"..".to_vec(), b"b".to_vec()]);
}

#[test]
fn prefix_relation() {
    assert!(is_path_prefix("/", "/anything"));
    assert!(is_path_prefix("/a", "/a/b"));
    assert!(is_path_prefix("/a/b", "/a/b"));
    assert!(!is_path_prefix("/a/b", "/a"));
    assert!(!is_path_prefix("/a", "/b/old"));
    assert!(!is_path_prefix("/ab", "/a/b"));
}
