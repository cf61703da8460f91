use mcrebuild::boundary::{check_ring, edges_are_compared, RingError, VertexKey};

fn key(longitude: f64, latitude: f64) -> VertexKey {
    VertexKey {
        longitude_bits: longitude.to_bits(),
        latitude_bits: latitude.to_bits(),
    }
}

#[test]
fn explicitly_closed_boundary_is_normalized() {
    let first = key(121.3980, 31.2220);
    let keys = vec![
        first,
        key(121.4140, 31.2220),
        key(121.4140, 31.2340),
        key(121.3980, 31.2340),
        first,
    ];
    let kept = check_ring(&keys).unwrap();
    assert_eq!(kept, 4);
    assert_ne!(keys.first(), keys[..kept].last());
}

#[test]
fn too_few_vertices_are_rejected() {
    assert_eq!(
        check_ring(&vec![key(121.4, 31.2), key(121.41, 31.21)]),
        Err(RingError::InsufficientVertices(2))
    );
    let a = key(1.0, 1.0);
    assert_eq!(
        check_ring(&vec![a, key(2.0, 2.0), a]),
        Err(RingError::InsufficientVertices(2))
    );
}

#[test]
fn consecutive_duplicates_are_rejected_around_the_ring() {
    let a = key(1.0, 1.0);
    let b = key(2.0, 2.0);
    let c = key(3.0, 1.0);
    assert_eq!(
        check_ring(&vec![a, b, b, c]),
        Err(RingError::ConsecutiveDuplicateVertex(1))
    );
    // after dropping the closing vertex the last vertex equals the first
    assert_eq!(
        check_ring(&vec![a, b, a, a]),
        Err(RingError::ConsecutiveDuplicateVertex(2))
    );
    assert_eq!(check_ring(&vec![a, b, c]), Ok(3));
}

#[test]
fn closing_a_ring_explicitly_changes_no_result() {
    let a = key(1.0, 1.0);
    let b = key(2.0, 2.0);
    let c = key(3.0, 1.0);
    for open in [vec![a, b, c], vec![a, b, b, c], vec![a, b], vec![a]] {
        let mut closed = open.clone();
        closed.push(open[0]);
        assert_eq!(check_ring(&closed), check_ring(&open));
    }
}

#[test]
fn neighbouring_edges_are_not_compared() {
    assert!(!edges_are_compared(0, 1, 4));
    assert!(!edges_are_compared(0, 3, 4));
    assert!(edges_are_compared(0, 2, 4));
    assert!(edges_are_compared(1, 3, 4));
    assert!(!edges_are_compared(2, 1, 4));
    assert!(!edges_are_compared(1, 4, 4));
    assert!(edges_are_compared(0, 3, 5));
}
