use fj_kernel::objects::{GlobalVertex, Insert, Objects, Point3};
use fj_kernel::storage::{Handle, Store, StoreError};

#[test]
fn reserve_then_insert_succeeds() {
    let mut store: Store<u32> = Store::new();
    let h = store.reserve();
    assert_eq!(store.insert(h, 7), Ok(()));
    assert_eq!(*store.get(h), 7);
}

#[test]
fn second_insert_is_rejected() {
    let mut store: Store<u32> = Store::new();
    let h = store.reserve();
    assert_eq!(store.insert(h, 7), Ok(()));
    assert_eq!(store.insert(h, 8), Err(StoreError::AlreadyInserted));
    assert_eq!(*store.get(h), 7);
}

#[test]
fn insert_under_foreign_handle_is_rejected() {
    let mut store: Store<u32> = Store::new();
    assert_eq!(store.insert(Handle { id: 3 }, 1), Err(StoreError::NotFound));
    assert_eq!(store.len(), 0);
}

#[test]
fn equal_values_get_distinct_identities() {
    let mut objects = Objects::new();
    let p = Point3 { x: 1, y: 2, z: 3 };
    let a = GlobalVertex::new(p).insert(&mut objects);
    let b = GlobalVertex::new(p).insert(&mut objects);
    assert_ne!(a, b);
    assert_eq!(objects.global_vertices.get(a), objects.global_vertices.get(b));
    let same = a;
    assert_eq!(same, a);
}

#[test]
fn stored_content_never_changes() {
    let mut store: Store<u32> = Store::new();
    let a = store.push(1);
    let b = store.reserve();
    let _ = store.insert(a, 5);
    let _ = store.insert(b, 2);
    let c = store.push(3);
    assert_eq!(*store.get(a), 1);
    assert_eq!(*store.get(b), 2);
    assert_eq!(*store.get(c), 3);
}
