use drm::atomic::AtomicModeReq;
use drm::handle::{CrtcHandle, RawResourceHandle, ResourceHandle};
use drm::property::{Handle, Value};

fn raw(id: u32) -> RawResourceHandle {
    RawResourceHandle::new(id).unwrap()
}

fn prop(id: u32) -> Handle {
    Handle::from_raw(raw(id))
}

#[test]
fn end_to_end_flat_arrays() {
    let mut req = AtomicModeReq::new();
    req.add_raw_property(raw(10), prop(5), 1);
    req.add_raw_property(raw(3), prop(2), 9);
    req.add_raw_property(raw(10), prop(1), 7);
    assert_eq!(req.objects(), vec![3, 10]);
    assert_eq!(req.count_props_per_object(), vec![1, 2]);
    assert_eq!(req.props(), vec![2, 1, 5]);
    assert_eq!(req.values(), vec![9, 7, 1]);
    assert_eq!(req.len(), 3);
}

#[test]
fn adding_twice_is_adding_once() {
    let mut once = AtomicModeReq::new();
    once.add_raw_property(raw(4), prop(8), 42);
    let mut twice = AtomicModeReq::new();
    twice.add_raw_property(raw(4), prop(8), 42);
    twice.add_raw_property(raw(4), prop(8), 42);
    assert_eq!(once.objects(), twice.objects());
    assert_eq!(once.count_props_per_object(), twice.count_props_per_object());
    assert_eq!(once.props(), twice.props());
    assert_eq!(once.values(), twice.values());
    assert_eq!(twice.len(), 1);
}

#[test]
fn last_write_wins() {
    let mut req = AtomicModeReq::new();
    req.add_raw_property(raw(4), prop(8), 1);
    req.add_raw_property(raw(4), prop(9), 5);
    req.add_raw_property(raw(4), prop(8), 2);
    assert_eq!(req.objects(), vec![4]);
    assert_eq!(req.count_props_per_object(), vec![2]);
    assert_eq!(req.props(), vec![8, 9]);
    assert_eq!(req.values(), vec![2, 5]);
}

#[test]
fn layout_after_many_additions() {
    let mut req = AtomicModeReq::new();
    let adds: [(u32, u32, u64); 9] = [
        (7, 3, 1),
        (2, 9, 2),
        (7, 1, 3),
        (5, 5, 4),
        (2, 4, 5),
        (7, 3, 6),
        (9, 2, 7),
        (2, 9, 8),
        (5, 1, 9),
    ];
    for (o, p, v) in adds {
        req.add_raw_property(raw(o), prop(p), v);
    }
    let objects = req.objects();
    let counts = req.count_props_per_object();
    let props = req.props();
    let values = req.values();
    assert_eq!(objects, vec![2, 5, 7, 9]);
    assert_eq!(counts, vec![2, 2, 2, 1]);
    assert_eq!(props, vec![4, 9, 1, 5, 1, 3, 2]);
    assert_eq!(values, vec![5, 8, 9, 4, 3, 6, 7]);
    assert!(objects.windows(2).all(|w| w[0] < w[1]));
    let total: u32 = counts.iter().sum();
    assert_eq!(total as usize, props.len());
    assert_eq!(props.len(), values.len());
    let mut start = 0usize;
    for c in counts {
        let slice = &props[start..start + c as usize];
        assert!(slice.windows(2).all(|w| w[0] < w[1]));
        start += c as usize;
    }
}

#[test]
fn typed_property_is_added_raw() {
    let mut req = AtomicModeReq::new();
    let crtc = CrtcHandle::from_raw(raw(31));
    req.add_property(crtc, prop(6), Value::Boolean(true));
    req.add_property(crtc, prop(2), Value::CRTC(Some(crtc)));
    req.add_property(raw(12), prop(2), Value::SignedRange(-1));
    assert_eq!(req.objects(), vec![12, 31]);
    assert_eq!(req.props(), vec![2, 2, 6]);
    assert_eq!(req.values(), vec![u64::MAX, 31, 1]);
}

#[test]
fn empty_request_has_empty_arrays() {
    let req = AtomicModeReq::new();
    assert!(req.objects().is_empty());
    assert!(req.count_props_per_object().is_empty());
    assert!(req.props().is_empty());
    assert!(req.values().is_empty());
    assert_eq!(req.len(), 0);
}
