use rclone_transfer::registry::{
    cancel_transfer, register_process, unregister_process, ProcessRegistry,
};
use std::sync::{Arc, Mutex};

#[test]
fn new_registry_is_empty() {
    let registry = ProcessRegistry::new();
    assert!(registry.is_empty());
    assert_eq!(registry.process_of("a"), None);
}

#[test]
fn register_inserts_the_entry() {
    let mut registry = ProcessRegistry::new();
    register_process(&mut registry, "a", 41);
    assert!(!registry.is_empty());
    assert_eq!(registry.process_of("a"), Some(41));
    assert_eq!(registry.process_of("b"), None);
}

#[test]
fn register_overwrites_the_entry() {
    let mut registry = ProcessRegistry::new();
    register_process(&mut registry, "a", 41);
    register_process(&mut registry, "a", 42);
    assert_eq!(registry.process_of("a"), Some(42));
    assert_eq!(cancel_transfer(&mut registry, "a"), Some(42));
    assert!(registry.is_empty());
}

#[test]
fn unregister_removes_the_entry() {
    let mut registry = ProcessRegistry::new();
    register_process(&mut registry, "a", 41);
    register_process(&mut registry, "b", 43);
    unregister_process(&mut registry, "a");
    assert_eq!(registry.process_of("a"), None);
    assert_eq!(registry.process_of("b"), Some(43));
}

#[test]
fn unregister_of_an_unknown_identifier_changes_nothing() {
    let mut registry = ProcessRegistry::new();
    unregister_process(&mut registry, "a");
    assert!(registry.is_empty());
    register_process(&mut registry, "b", 43);
    unregister_process(&mut registry, "a");
    assert_eq!(registry.process_of("b"), Some(43));
}

#[test]
fn cancel_finds_the_process_once() {
    let mut registry = ProcessRegistry::new();
    register_process(&mut registry, "a", 41);
    assert_eq!(cancel_transfer(&mut registry, "a"), Some(41));
    assert_eq!(registry.process_of("a"), None);
    assert_eq!(cancel_transfer(&mut registry, "a"), None);
}

#[test]
fn cancel_of_an_unknown_identifier_finds_nothing_and_changes_nothing() {
    let mut registry = ProcessRegistry::new();
    assert_eq!(cancel_transfer(&mut registry, "a"), None);
    register_process(&mut registry, "b", 43);
    assert_eq!(cancel_transfer(&mut registry, "a"), None);
    assert_eq!(cancel_transfer(&mut registry, ""), None);
    assert_eq!(registry.process_of("b"), Some(43));
}

#[test]
fn cancel_after_unregister_finds_nothing() {
    let mut registry = ProcessRegistry::new();
    register_process(&mut registry, "a", 41);
    unregister_process(&mut registry, "a");
    assert_eq!(cancel_transfer(&mut registry, "a"), None);
}

#[test]
fn every_registered_transfer_is_found_once_and_none_is_left() {
    let count: u32 = 200;
    let mut registry = ProcessRegistry::new();
    for n in 0..count {
        register_process(&mut registry, &format!("transfer-{}", n), 1000 + n);
    }
    let mut found = 0;
    for n in (0..count).rev() {
        let pid = cancel_transfer(&mut registry, &format!("transfer-{}", n));
        assert_eq!(pid, Some(1000 + n));
        found += 1;
    }
    assert_eq!(found, count);
    assert!(registry.is_empty());
    assert_eq!(cancel_transfer(&mut registry, "transfer-0"), None);
    assert_eq!(cancel_transfer(&mut registry, "transfer-200"), None);
}

#[test]
fn transfers_are_cancelled_in_any_order() {
    let mut registry = ProcessRegistry::new();
    let ids = ["c", "a", "d", "b"];
    for (n, id) in ids.iter().enumerate() {
        register_process(&mut registry, id, n as u32);
    }
    assert_eq!(cancel_transfer(&mut registry, "a"), Some(1));
    assert_eq!(cancel_transfer(&mut registry, "b"), Some(3));
    assert_eq!(registry.process_of("c"), Some(0));
    assert_eq!(cancel_transfer(&mut registry, "c"), Some(0));
    assert_eq!(cancel_transfer(&mut registry, "d"), Some(2));
    assert!(registry.is_empty());
}

#[test]
fn registry_behind_a_lock_takes_interleaved_steps() {
    let count: u32 = 64;
    let shared = Arc::new(Mutex::new(ProcessRegistry::new()));
    let writer = Arc::clone(&shared);
    let canceller = Arc::clone(&shared);
    let mut found = 0;
    for n in 0..count {
        register_process(&mut writer.lock().unwrap(), &format!("transfer-{}", n), 5000 + n);
        if n % 2 == 1 {
            let earlier = format!("transfer-{}", n - 1);
            assert_eq!(cancel_transfer(&mut canceller.lock().unwrap(), &earlier), Some(4999 + n));
            found += 1;
        }
    }
    for n in 0..count {
        let pid = cancel_transfer(&mut canceller.lock().unwrap(), &format!("transfer-{}", n));
        if n % 2 == 1 {
            assert_eq!(pid, Some(5000 + n));
            found += 1;
        } else {
            assert_eq!(pid, None);
        }
    }
    assert_eq!(found, count);
    let mut registry = shared.lock().unwrap();
    assert!(registry.is_empty());
    assert_eq!(cancel_transfer(&mut registry, "transfer-0"), None);
    assert_eq!(cancel_transfer(&mut registry, "never-registered"), None);
}
