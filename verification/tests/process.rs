use xcelerate::stealth::process::cleanup_all;
use xcelerate::{ProcessGuard, ProcessRegistry};

#[test]
fn register_keeps_order() {
    let mut r = ProcessRegistry::new();
    r.register(10);
    r.register(20);
    r.register(10);
    assert_eq!(r.pids(), vec![10, 20, 10]);
}

#[test]
fn unregister_removes_every_occurrence() {
    let mut r = ProcessRegistry::new();
    r.register(10);
    r.register(20);
    r.register(10);
    r.register(30);
    r.unregister(10);
    assert_eq!(r.pids(), vec![20, 30]);
    r.unregister(10);
    assert_eq!(r.pids(), vec![20, 30]);
    r.unregister(99);
    assert_eq!(r.pids(), vec![20, 30]);
}

#[test]
fn register_then_unregister_restores() {
    let mut r = ProcessRegistry::new();
    r.register(1);
    r.register(2);
    r.register(3);
    r.unregister(3);
    assert_eq!(r.pids(), vec![1, 2]);
}

#[test]
fn cleanup_hands_back_everything_and_empties() {
    let mut r = ProcessRegistry::new();
    r.register(5);
    r.register(6);
    let killed = r.cleanup();
    assert_eq!(killed, vec![5, 6]);
    assert!(r.pids().is_empty());
    assert!(r.cleanup().is_empty());
}

#[test]
fn cleanup_all_on_registry() {
    let mut r = ProcessRegistry::new();
    r.register(42);
    assert_eq!(cleanup_all(&mut r), vec![42]);
    assert!(r.pids().is_empty());
}

#[test]
fn guard_with_auto_kill_kills_and_unregisters() {
    let mut r = ProcessRegistry::new();
    r.register(7);
    r.register(8);
    let g = ProcessGuard { pid: 7, auto_kill: true };
    assert_eq!(g.release(&mut r), Some(7));
    assert_eq!(r.pids(), vec![8]);
}

#[test]
fn detached_guard_only_unregisters() {
    let mut r = ProcessRegistry::new();
    r.register(7);
    let g = ProcessGuard { pid: 7, auto_kill: false };
    assert_eq!(g.release(&mut r), None);
    assert!(r.pids().is_empty());
}
