use drm::error::SystemError;
use drm::fetch::{after_fetch, after_probe, FetchStep, PROBE_CAPACITY};

/// A simulated device: each query reports the array's length at that moment
/// and writes as many of its entries as the buffer has room for.
struct Device {
    lengths: Vec<Result<u32, SystemError>>,
    entries: Vec<u32>,
    capacities: Vec<u32>,
}

impl Device {
    fn query(&mut self, buffer: &mut Vec<u32>, capacity: u32) -> Result<u32, SystemError> {
        self.capacities.push(capacity);
        let reply = self.lengths.remove(0);
        if let Ok(n) = reply {
            let written = n.min(capacity) as usize;
            buffer.extend_from_slice(&self.entries[..written]);
        }
        reply
    }
}

/// Runs the two-phase fetch against the simulated device.
fn run(dev: &mut Device) -> Result<Vec<u32>, SystemError> {
    let mut probe: Vec<u32> = Vec::new();
    match after_probe(dev.query(&mut probe, PROBE_CAPACITY)) {
        FetchStep::Finished(r) => r,
        FetchStep::Fetch(capacity) => {
            let mut buffer: Vec<u32> = Vec::new();
            let reply = dev.query(&mut buffer, capacity);
            after_fetch(reply, buffer)
        }
    }
}

#[test]
fn count_at_fetch_time_wins() {
    let mut dev = Device {
        lengths: vec![Ok(3), Ok(5)],
        entries: vec![11, 12, 13, 14, 15],
        capacities: Vec::new(),
    };
    let got = run(&mut dev).unwrap();
    assert_eq!(got.len(), 5);
    assert_eq!(got, vec![11, 12, 13, 0, 0]);
    assert_eq!(dev.capacities, vec![0, 3]);
}

#[test]
fn shrunk_array_keeps_fetch_count() {
    let mut dev = Device {
        lengths: vec![Ok(4), Ok(2)],
        entries: vec![21, 22, 23, 24],
        capacities: Vec::new(),
    };
    assert_eq!(run(&mut dev), Ok(vec![21, 22]));
    assert_eq!(dev.capacities, vec![0, 4]);
}

#[test]
fn unchanged_array_is_fetched_whole() {
    let mut dev = Device {
        lengths: vec![Ok(3), Ok(3)],
        entries: vec![7, 8, 9],
        capacities: Vec::new(),
    };
    assert_eq!(run(&mut dev), Ok(vec![7, 8, 9]));
}

#[test]
fn empty_array_is_not_fetched() {
    let mut dev = Device { lengths: vec![Ok(0)], entries: Vec::new(), capacities: Vec::new() };
    assert_eq!(run(&mut dev), Ok(Vec::new()));
    assert_eq!(dev.capacities, vec![0]);
}

#[test]
fn probe_error_is_passed_on() {
    let mut dev = Device {
        lengths: vec![Err(SystemError::PermissionDenied)],
        entries: Vec::new(),
        capacities: Vec::new(),
    };
    assert_eq!(run(&mut dev), Err(SystemError::PermissionDenied));
    assert_eq!(dev.capacities, vec![0]);
}

#[test]
fn fetch_error_is_passed_on() {
    let mut dev = Device {
        lengths: vec![Ok(2), Err(SystemError::Unknown { errno: 5 })],
        entries: vec![1, 2],
        capacities: Vec::new(),
    };
    assert_eq!(run(&mut dev), Err(SystemError::Unknown { errno: 5 }));
    assert_eq!(dev.capacities, vec![0, 2]);
}

#[test]
fn decisions() {
    assert_eq!(PROBE_CAPACITY, 0);
    assert_eq!(after_probe(Ok(0)), FetchStep::Finished(Ok(Vec::new())));
    assert_eq!(after_probe(Ok(3)), FetchStep::Fetch(3));
    assert_eq!(after_probe(Err(SystemError::MemoryFault)), FetchStep::Finished(Err(SystemError::MemoryFault)));
    assert_eq!(after_fetch(Ok(2), vec![1, 2, 3, 4]), Ok(vec![1, 2]));
    assert_eq!(after_fetch(Ok(5), vec![1, 2, 3, 4, 5]).unwrap().len(), 5);
    assert_eq!(after_fetch(Ok(4), vec![1, 2]), Ok(vec![1, 2, 0, 0]));
    assert_eq!(after_fetch(Ok(5), vec![1, 2, 3]), Ok(vec![1, 2, 3, 0, 0]));
    assert_eq!(after_fetch(Ok(0), vec![1, 2, 3]), Ok(Vec::new()));
    assert_eq!(after_fetch(Err(SystemError::InvalidArgument), vec![1]), Err(SystemError::InvalidArgument));
}
