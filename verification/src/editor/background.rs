use vstd::prelude::*;

verus! {

/// Animated backdrop painted behind the amp's controls: a dark base with
/// glowing orbs, each drawn as a triangle fan from a coloured centre to a
/// transparent rim.
pub struct Background {}

impl Background {
    pub fn new() -> (bg: Self)
        ensures
            bg == (Background {}),
    {
        Background {}
    }

    /// Triangle indices of a fan whose centre vertex has index `center_idx`
    /// and whose `n_points` rim vertices follow it in order: triangle `k`
    /// joins the centre with rim vertices `k` and `k + 1`, the last one
    /// closing the ring back onto the first.
    pub fn glow_fan_indices(center_idx: u32, n_points: u32) -> (indices: Vec<u32>)
        requires
            center_idx + n_points <= u32::MAX,
        ensures
            indices@.len() == 3 * n_points,
            forall|j: int|
                0 <= j < indices@.len() ==> #[trigger] indices@[j] == fan_index(
                    center_idx as int,
                    n_points as int,
                    j,
                ),
            forall|j: int|
                0 <= j < indices@.len() ==> center_idx <= #[trigger] indices@[j] <= center_idx
                    + n_points,
            forall|k: int|
                #![trigger indices@[3 * k]]
                0 <= k < n_points ==> {
                    &&& indices@[3 * k] == center_idx
                    &&& indices@[3 * k + 1] == center_idx + 1 + k
                    &&& indices@[3 * k + 2] == center_idx + 1 + (if k + 1 == n_points {
                        0
                    } else {
                        k + 1
                    })
                },
    {
        let mut indices: Vec<u32> = Vec::new();
        let mut k: u32 = 0;
        while k < n_points
            invariant
                k <= n_points,
                center_idx + n_points <= u32::MAX,
                indices@.len() == 3 * k,
                forall|j: int|
                    0 <= j < indices@.len() ==> #[trigger] indices@[j] == fan_index(
                        center_idx as int,
                        n_points as int,
                        j,
                    ),
                forall|j: int|
                    0 <= j < indices@.len() ==> center_idx <= #[trigger] indices@[j]
                        <= center_idx + n_points,
            decreases n_points - k,
        {
            let next = (k + 1) % n_points;
            indices.push(center_idx);
            indices.push(center_idx + 1 + k);
            indices.push(center_idx + 1 + next);
            proof {
                let base = 3 * k as int;
                assert(base / 3 == k as int && base % 3 == 0);
                assert((base + 1) / 3 == k as int && (base + 1) % 3 == 1);
                assert((base + 2) / 3 == k as int && (base + 2) % 3 == 2);
            }
            k = k + 1;
        }
        proof {
            assert forall|t: int| #![trigger indices@[3 * t]] 0 <= t < n_points implies {
                &&& indices@[3 * t] == center_idx
                &&& indices@[3 * t + 1] == center_idx + 1 + t
                &&& indices@[3 * t + 2] == center_idx + 1 + (if t + 1 == n_points {
                    0
                } else {
                    t + 1
                })
            } by {
                lemma_fan_triangle(center_idx as int, n_points as int, t);
                assert(indices@[3 * t + 1] == fan_index(center_idx as int, n_points as int, 3 * t + 1));
                assert(indices@[3 * t + 2] == fan_index(center_idx as int, n_points as int, 3 * t + 2));
            }
        }
        indices
    }
}

/// Entry `j` of the index list of a triangle fan with centre vertex `center`
/// and `n_points` rim vertices after it: every triangle lists the centre,
/// then rim vertex `k`, then rim vertex `k + 1` (wrapping to the first).
pub open spec fn fan_index(center: int, n_points: int, j: int) -> int {
    let k = j / 3;
    if j % 3 == 0 {
        center
    } else if j % 3 == 1 {
        center + 1 + k
    } else {
        center + 1 + (k + 1) % n_points
    }
}

/// Triangle `k` of a fan joins the centre, rim vertex `k` and the rim vertex
/// after it, the last triangle closing the ring onto rim vertex 0; so
/// neighbouring triangles share a rim edge and the triangles cover each
/// wedge between adjacent rim vertices once.
pub proof fn lemma_fan_triangle(center: int, n_points: int, k: int)
    requires
        0 <= k < n_points,
    ensures
        fan_index(center, n_points, 3 * k) == center,
        fan_index(center, n_points, 3 * k + 1) == center + 1 + k,
        fan_index(center, n_points, 3 * k + 2) == center + 1 + (if k + 1 == n_points {
            0
        } else {
            k + 1
        }),
        k + 1 < n_points ==> fan_index(center, n_points, 3 * k + 2) == fan_index(
            center,
            n_points,
            3 * (k + 1) + 1,
        ),
        k + 1 == n_points ==> fan_index(center, n_points, 3 * k + 2) == fan_index(
            center,
            n_points,
            1,
        ),
{
    assert((3 * k) / 3 == k && (3 * k) % 3 == 0);
    assert((3 * k + 1) / 3 == k && (3 * k + 1) % 3 == 1);
    assert((3 * k + 2) / 3 == k && (3 * k + 2) % 3 == 2);
    assert((3 * (k + 1) + 1) / 3 == k + 1 && (3 * (k + 1) + 1) % 3 == 1);
    assert(1int / 3 == 0 && 1int % 3 == 1);
    if k + 1 < n_points {
        vstd::arithmetic::div_mod::lemma_small_mod((k + 1) as nat, n_points as nat);
    } else {
        vstd::arithmetic::div_mod::lemma_mod_self_0(n_points);
    }
}

} // verus!
