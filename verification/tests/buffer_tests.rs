use train_dashboard::api::Info;
use train_dashboard::buffer::SnapshotBuffer;

fn snapshot(server_time: u64) -> Info {
    let mut info = Info::default();
    info.status.server_time = server_time;
    info
}

fn times(buffer: &SnapshotBuffer) -> Vec<u64> {
    buffer.iterate().iter().map(|info| info.status.server_time).collect()
}

#[test]
fn new_buffer_is_empty() {
    let buffer = SnapshotBuffer::new(4);
    assert_eq!(buffer.len(), 0);
    assert!(buffer.is_empty());
    assert_eq!(buffer.capacity(), 4);
    assert!(buffer.latest().is_none());
    assert!(buffer.get(0).is_none());
    assert!(buffer.iterate().is_empty());
}

#[test]
fn push_appends_while_there_is_room() {
    let mut buffer = SnapshotBuffer::new(3);
    buffer.push(snapshot(1));
    buffer.push(snapshot(2));
    assert_eq!(buffer.len(), 2);
    assert_eq!(times(&buffer), vec![1, 2]);
    assert_eq!(buffer.latest().unwrap().status.server_time, 2);
}

#[test]
fn push_onto_full_buffer_drops_the_oldest() {
    let mut buffer = SnapshotBuffer::new(3);
    for t in 1..=3 {
        buffer.push(snapshot(t));
    }
    assert_eq!(times(&buffer), vec![1, 2, 3]);
    buffer.push(snapshot(4));
    assert_eq!(buffer.len(), 3);
    assert_eq!(times(&buffer), vec![2, 3, 4]);
    assert_eq!(buffer.capacity(), 3);
}

#[test]
fn many_pushes_leave_the_newest_in_push_order() {
    let mut buffer = SnapshotBuffer::new(5);
    for t in 0..23 {
        buffer.push(snapshot(t));
        assert!(buffer.len() <= buffer.capacity());
    }
    assert_eq!(times(&buffer), vec![18, 19, 20, 21, 22]);
    assert_eq!(buffer.latest().unwrap().status.server_time, 22);
}

#[test]
fn buffer_of_capacity_one_holds_the_newest_only() {
    let mut buffer = SnapshotBuffer::new(1);
    buffer.push(snapshot(7));
    buffer.push(snapshot(8));
    assert_eq!(times(&buffer), vec![8]);
}

#[test]
fn buffer_of_capacity_zero_retains_nothing() {
    let mut buffer = SnapshotBuffer::new(0);
    buffer.push(snapshot(1));
    buffer.push(snapshot(2));
    assert_eq!(buffer.len(), 0);
    assert!(buffer.latest().is_none());
}

#[test]
fn get_counts_from_the_oldest() {
    let mut buffer = SnapshotBuffer::new(2);
    buffer.push(snapshot(10));
    buffer.push(snapshot(20));
    buffer.push(snapshot(30));
    assert_eq!(buffer.get(0).unwrap().status.server_time, 20);
    assert_eq!(buffer.get(1).unwrap().status.server_time, 30);
    assert!(buffer.get(2).is_none());
}

#[test]
fn iterate_can_be_repeated() {
    let mut buffer = SnapshotBuffer::new(3);
    buffer.push(snapshot(1));
    buffer.push(snapshot(2));
    let first = times(&buffer);
    let second = times(&buffer);
    assert_eq!(first, second);
    assert_eq!(buffer.len(), 2);
}

#[test]
fn stored_snapshot_is_the_one_pushed() {
    let mut info = snapshot(5);
    info.status.speed = 120_000;
    info.trip.trip.total_distance = 746_000;
    let mut buffer = SnapshotBuffer::new(2);
    buffer.push(info.clone());
    assert_eq!(buffer.latest(), Some(&info));
}
