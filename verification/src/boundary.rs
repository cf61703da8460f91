//! The ring structure of a campus boundary polygon.
//!
//! A boundary is a ring of WGS-84 vertices. Its geometric checks (self
//! intersection, area) work on floating-point coordinates and stay outside the
//! library; the ring checks only compare vertices for equality, and work here on
//! a [`VertexKey`] per vertex: the bit patterns of its two coordinates, with
//! negative zero written as zero. For the finite coordinates of a WGS-84 vertex,
//! two keys are equal exactly when the vertices are equal.
use vstd::prelude::*;

verus! {

#[derive(Debug, Clone, Copy, PartialEq, Eq, Hash)]
pub struct VertexKey {
    pub longitude_bits: u64,
    pub latitude_bits: u64,
}

#[derive(Debug, Clone, Copy, PartialEq, Eq)]
pub enum RingError {
    /// Fewer than three vertices remain once an explicit closing vertex is dropped.
    InsufficientVertices(usize),
    /// The vertex at this position equals the next one around the ring.
    ConsecutiveDuplicateVertex(usize),
}

/// The number of vertices of the ring: a last vertex that repeats the first one
/// only closes the ring explicitly and does not count.
pub open spec fn ring_len(keys: Seq<VertexKey>) -> int {
    if keys.len() >= 2 && keys[0] == keys.last() {
        keys.len() - 1
    } else {
        keys.len() as int
    }
}

/// The first position, from `i` on, whose vertex equals the next one around a
/// ring of `m` vertices.
pub open spec fn first_repeat_from(keys: Seq<VertexKey>, m: int, i: int) -> Option<int>
    decreases m - i,
{
    if i < 0 || i >= m {
        None
    } else if keys[i] == keys[(i + 1) % m] {
        Some(i)
    } else {
        first_repeat_from(keys, m, i + 1)
    }
}

proof fn lemma_first_repeat_none(keys: Seq<VertexKey>, m: int, i: int)
    requires
        0 <= i <= m,
        first_repeat_from(keys, m, i) is None,
    ensures
        forall|j: int| i <= j < m ==> #[trigger] keys[j] != keys[(j + 1) % m],
    decreases m - i,
{
    if i < m {
        lemma_first_repeat_none(keys, m, i + 1);
    }
}

/// Checks the ring of a boundary and gives its number of vertices.
///
/// Fails with `InsufficientVertices` when fewer than three vertices remain, and
/// otherwise with `ConsecutiveDuplicateVertex` at the first vertex that equals
/// the next one around the ring.
pub fn check_ring(keys: &Vec<VertexKey>) -> (r: Result<usize, RingError>)
    ensures
        ring_len(keys@) < 3 ==> r == Err::<usize, RingError>(
            RingError::InsufficientVertices(ring_len(keys@) as usize),
        ),
        ring_len(keys@) >= 3 ==> match first_repeat_from(keys@, ring_len(keys@), 0) {
            Some(i) => r == Err::<usize, RingError>(RingError::ConsecutiveDuplicateVertex(i as usize)),
            None => r == Ok::<usize, RingError>(ring_len(keys@) as usize),
        },
{
    let n = keys.len();
    let m = if n >= 2 && keys[0].longitude_bits == keys[n - 1].longitude_bits
        && keys[0].latitude_bits == keys[n - 1].latitude_bits {
        n - 1
    } else {
        n
    };
    assert(m == ring_len(keys@));
    if m < 3 {
        return Err(RingError::InsufficientVertices(m));
    }
    let mut i: usize = 0;
    while i < m
        invariant
            m == ring_len(keys@),
            3 <= m <= keys@.len(),
            0 <= i <= m,
            first_repeat_from(keys@, m as int, 0) == first_repeat_from(keys@, m as int, i as int),
        decreases m - i,
    {
        let next = (i + 1) % m;
        if keys[i].longitude_bits == keys[next].longitude_bits && keys[i].latitude_bits
            == keys[next].latitude_bits {
            assert(keys@[i as int] == keys@[next as int]);
            return Err(RingError::ConsecutiveDuplicateVertex(i));
        }
        i = i + 1;
    }
    Ok(m)
}

/// An accepted ring has at least three vertices, is not closed explicitly, and
/// no vertex repeats its successor, the first vertex counting as the successor of
/// the last.
pub proof fn accepted_ring_is_simple(keys: Seq<VertexKey>)
    requires
        ring_len(keys) >= 3,
        first_repeat_from(keys, ring_len(keys), 0) is None,
    ensures
        ring_len(keys) >= 3,
        keys[0] != keys[ring_len(keys) - 1],
        forall|j: int|
            0 <= j < ring_len(keys) ==> #[trigger] keys[j] != keys[(j + 1) % ring_len(keys)],
{
    let m = ring_len(keys);
    lemma_first_repeat_none(keys, m, 0);
    assert(keys[m - 1] != keys[(m - 1 + 1) % m]);
    assert((m - 1 + 1) % m == 0) by {
        assert(m % m == 0) by (nonlinear_arith)
            requires
                m > 0,
        ;
    }
}

/// Two edges of a ring of `n` edges that the self-intersection test compares:
/// `a` comes before `b`, and they are not neighbours around the ring (the last
/// edge neighbours the first), since neighbours always share a vertex.
pub open spec fn compared_edges(a: int, b: int, n: int) -> bool {
    0 <= a < b < n && b != a + 1 && !(a == 0 && b == n - 1)
}

/// Whether the self-intersection test compares edges `a` and `b` of a ring of
/// `n` edges.
pub fn edges_are_compared(a: usize, b: usize, n: usize) -> (r: bool)
    ensures
        r == compared_edges(a as int, b as int, n as int),
{
    a < b && b < n && b != a + 1 && !(a == 0 && b == n - 1)
}

proof fn lemma_first_repeat_same(a: Seq<VertexKey>, b: Seq<VertexKey>, m: int, i: int)
    requires
        0 <= i,
        0 < m <= a.len(),
        m <= b.len(),
        forall|j: int| 0 <= j < m ==> a[j] == b[j],
    ensures
        first_repeat_from(a, m, i) == first_repeat_from(b, m, i),
    decreases m - i,
{
    if i < m {
        let next = (i + 1) % m;
        assert(0 <= next < m) by {
            if i + 1 < m {
                assert((i + 1) % m == i + 1) by (nonlinear_arith)
                    requires
                        0 <= i + 1 < m,
                ;
            } else {
                assert((i + 1) % m == 0) by (nonlinear_arith)
                    requires
                        i + 1 == m,
                        m > 0,
                ;
            }
        }
        assert(a[next] == b[next]);
        lemma_first_repeat_same(a, b, m, i + 1);
    }
}

/// Closing a ring explicitly, by repeating its first vertex at the end, changes
/// nothing that the ring check looks at: the ring has the same vertices, and the
/// same first vertex that repeats its successor, if any.
pub proof fn explicit_closing_vertex_is_ignored(keys: Seq<VertexKey>)
    requires
        keys.len() >= 1,
        ring_len(keys) == keys.len(),
    ensures
        ring_len(keys.push(keys[0])) == ring_len(keys),
        first_repeat_from(keys.push(keys[0]), ring_len(keys), 0) == first_repeat_from(
            keys,
            ring_len(keys),
            0,
        ),
{
    let closed = keys.push(keys[0]);
    assert(closed[0] == closed.last());
    lemma_first_repeat_same(closed, keys, ring_len(keys), 0);
}

} // verus!
