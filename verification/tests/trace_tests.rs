use animkit::trace::TraceBuffer;
use animkit::vec3::Vec3Fx;

fn p(i: i64) -> Vec3Fx {
    Vec3Fx { x: i, y: 2 * i, z: -i }
}

/// Filling a buffer past its capacity keeps exactly the most recent
/// `max_points` positions, oldest first.
#[test]
fn trace_keeps_most_recent_in_order() {
    let mut b = TraceBuffer::new(5);
    for i in 0..8 {
        b.push(p(i));
    }
    assert_eq!(b.len(), 5);
    assert_eq!(b.capacity(), 5);
    for i in 0..5 {
        assert_eq!(b.point(i), p((i + 3) as i64));
    }
}

/// Below capacity the buffer just grows.
#[test]
fn trace_grows_until_full() {
    let mut b = TraceBuffer::new(4);
    for i in 0..3 {
        b.push(p(i));
        assert_eq!(b.len(), (i + 1) as usize);
    }
    for i in 0..3 {
        assert_eq!(b.point(i), p(i as i64));
    }
}

/// A zero-capacity buffer stays empty through any insertion.
#[test]
fn trace_zero_capacity_stays_empty() {
    let mut b = TraceBuffer::new(0);
    b.push(p(1));
    b.push(p(2));
    assert_eq!(b.len(), 0);
}

/// Clearing empties the buffer but keeps its capacity.
#[test]
fn trace_clear_empties() {
    let mut b = TraceBuffer::new(3);
    for i in 0..7 {
        b.push(p(i));
    }
    b.clear();
    assert_eq!(b.len(), 0);
    assert_eq!(b.capacity(), 3);
    b.push(p(9));
    assert_eq!(b.len(), 1);
    assert_eq!(b.point(0), p(9));
}
