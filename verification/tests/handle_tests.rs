use imperium::handles::{Handle, HandledData};
use imperium::types::Rect2u;

#[test]
fn handles_access_their_objects() {
    let mut data: HandledData<u32> = HandledData::new();
    let a = data.push(10);
    let b = data.push(20);
    assert_eq!(data.len(), 2);
    assert_eq!(data.get(a), Some(&10));
    assert_eq!(data.get(b), Some(&20));
    assert_eq!(a.get_index(), 0);
}

#[test]
fn removal_goes_through_the_handle_once() {
    let mut data: HandledData<u32> = HandledData::new();
    let a = data.push(10);
    let b = data.push(20);
    assert_eq!(data.remove(a), Some(10));
    // The handle is stale: lookups miss, a second removal removes
    // nothing, the other object is untouched.
    assert_eq!(data.get(a), None);
    assert_eq!(data.remove(a), None);
    assert_eq!(data.get(b), Some(&20));
}

#[test]
fn stale_handles_never_alias_newer_objects() {
    let mut data: HandledData<u32> = HandledData::new();
    let a = data.push(10);
    data.remove(a);
    // A fresh object lands in a fresh slot; the stale handle still
    // misses even if an index were reused.
    let c = data.push(30);
    assert_eq!(data.get(a), None);
    assert_eq!(data.get(c), Some(&30));
    // A forged handle with the wrong generation misses too.
    assert_eq!(data.get(Handle::create(c.get_index(), 77)), None);
}

#[test]
fn set_replaces_through_current_handles_only() {
    let mut data: HandledData<u32> = HandledData::new();
    let a = data.push(10);
    assert!(data.set(a, 11));
    assert_eq!(data.get(a), Some(&11));
    data.remove(a);
    assert!(!data.set(a, 12));
}

#[test]
fn from_vec_wraps_in_order_and_hands_out_live_handles() {
    let data = HandledData::from_vec(vec![5u32, 6, 7]);
    assert_eq!(data.len(), 3);
    let handles = data.get_handles();
    assert_eq!(handles.len(), 3);
    assert_eq!(data.get(handles[1]), Some(&6));
}

#[test]
fn rectangles_intersect_when_both_axes_overlap() {
    let a = Rect2u::new(0, 0, 10, 10);
    assert!(a.intersects(Rect2u::new(5, 5, 10, 10)));
    assert!(!a.intersects(Rect2u::new(10, 0, 5, 5)));
    assert!(!a.intersects(Rect2u::new(0, 10, 5, 5)));
    assert!(a.intersects(Rect2u::new(9, 9, 1, 1)));
    assert_eq!(a.get_size(), (10, 10));
    assert_eq!(a.get_pos(), (0, 0));
}
