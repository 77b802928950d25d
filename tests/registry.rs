use rex::registry::ProcessRegistry;

#[test]
fn two_appends_keep_both_entries() {
    let mut one: ProcessRegistry<u32> = ProcessRegistry::new();
    one.append(7);
    one.append(11);
    let mut other: ProcessRegistry<u32> = ProcessRegistry::new();
    other.append(11);
    other.append(7);
    let mut a = one.take_all();
    let mut b = other.take_all();
    a.sort();
    b.sort();
    assert_eq!(a, vec![7, 11]);
    assert_eq!(a, b);
    assert!(one.is_empty());
}

#[test]
fn remove_keeps_order_of_others() {
    let mut r: ProcessRegistry<&str> = ProcessRegistry::new();
    r.append("a");
    r.append("b");
    r.append("c");
    assert_eq!(r.len(), 3);
    assert_eq!(r.remove(1), "b");
    assert_eq!(*r.get(0), "a");
    assert_eq!(*r.get(1), "c");
    assert_eq!(r.len(), 2);
}

#[test]
fn shared_registry_under_lock_loses_no_update() {
    let reg = std::sync::Arc::new(std::sync::Mutex::new(ProcessRegistry::<u32>::new()));
    let first = reg.clone();
    let second = reg.clone();
    second.lock().unwrap().append(2);
    first.lock().unwrap().append(1);
    let mut all = reg.lock().unwrap().take_all();
    all.sort();
    assert_eq!(all, vec![1, 2]);
}
