//! Which gear axis is simulated for which reading angle.
//!
//! Axes are configured by id (1 azimuth, 2 elevation, 3 equatorial); the
//! simulator looks each one up in the configured list and feeds it the angle
//! that its id selects.

use vstd::prelude::*;

verus! {

/// The input angle that drives an axis in a simulation.
#[derive(Debug, Clone, Copy, PartialEq, Eq, Structural)]
pub enum AxisAngle {
    /// The reading's (or request's) azimuth angle.
    Azimuth,
    /// The elevation angle.
    Elevation,
    /// The equatorial angle.
    Equatorial,
    /// No rotation: 0°.
    Zero,
    /// A fixed 30°.
    ThirtyDegrees,
}

/// `i` is the first position of `id` in `ids`.
pub open spec fn is_first_axis(ids: Seq<u8>, id: u8, i: int) -> bool {
    0 <= i < ids.len() && ids[i] == id && forall|j: int| 0 <= j < i ==> ids[j] != id
}

/// The position of the first configured axis with id `id`.
pub open spec fn axis_position(ids: Seq<u8>, id: u8) -> Option<int> {
    if exists|i: int| is_first_axis(ids, id, i) {
        Some(choose|i: int| is_first_axis(ids, id, i))
    } else {
        None
    }
}

/// Finds the first configured axis whose id is `id`; `axis_ids` lists the
/// configured axes' ids in configuration order.
pub fn find_axis(axis_ids: &Vec<u8>, id: u8) -> (r: Option<usize>)
    ensures
        match axis_position(axis_ids@, id) {
            Some(i) => r == Some(i as usize),
            None => r is None,
        },
{
    let mut i: usize = 0;
    while i < axis_ids.len()
        invariant
            i <= axis_ids@.len(),
            forall|j: int| 0 <= j < i ==> axis_ids@[j] != id,
        decreases axis_ids@.len() - i,
    {
        if axis_ids[i] == id {
            assert(is_first_axis(axis_ids@, id, i as int));
            let ghost w = choose|k: int| is_first_axis(axis_ids@, id, k);
            proof {
                if w < i {
                } else if w > i {
                    assert(axis_ids@[i as int] != id);
                }
            }
            return Some(i);
        }
        i = i + 1;
    }
    assert forall|k: int| !is_first_axis(axis_ids@, id, k) by {
        if 0 <= k < axis_ids@.len() {
            assert(axis_ids@[k] != id);
        }
    }
    None
}

/// One axis simulation of the pipeline: the axis id and the position of its
/// configuration.
#[derive(Debug, Clone, Copy, PartialEq, Eq, Structural)]
pub struct AxisJob {
    pub axis_id: u8,
    pub position: usize,
}

/// The simulations run for each validated reading: axes 1, 2 and 3 in that
/// order, each that is configured, with the first configuration of its id.
pub open spec fn axis_jobs(ids: Seq<u8>) -> Seq<AxisJob> {
    let job = |id: u8|
        match axis_position(ids, id) {
            Some(i) => seq![AxisJob { axis_id: id, position: i as usize }],
            None => Seq::<AxisJob>::empty(),
        };
    job(1) + job(2) + job(3)
}

/// The axis simulations the transmission stage runs for a reading, given
/// the configured axes' ids in configuration order.
pub fn transmission_jobs(axis_ids: &Vec<u8>) -> (r: Vec<AxisJob>)
    ensures
        r@ == axis_jobs(axis_ids@),
{
    let mut out: Vec<AxisJob> = Vec::new();
    let mut id: u8 = 1;
    while id <= 3
        invariant
            1 <= id <= 4,
            out@ == ({
                let job = |k: u8|
                    match axis_position(axis_ids@, k) {
                        Some(i) => seq![AxisJob { axis_id: k, position: i as usize }],
                        None => Seq::<AxisJob>::empty(),
                    };
                if id == 1 {
                    Seq::<AxisJob>::empty()
                } else if id == 2 {
                    job(1)
                } else if id == 3 {
                    job(1) + job(2)
                } else {
                    job(1) + job(2) + job(3)
                }
            }),
        decreases 4 - id,
    {
        match find_axis(axis_ids, id) {
            Some(i) => {
                out.push(AxisJob { axis_id: id, position: i });
            },
            None => {},
        }
        proof {
            if id == 1 {
                assert(out@ =~= Seq::<AxisJob>::empty() + match axis_position(axis_ids@, 1) {
                    Some(i) => seq![AxisJob { axis_id: 1, position: i as usize }],
                    None => Seq::<AxisJob>::empty(),
                });
            }
        }
        id = id + 1;
    }
    out
}

/// The angle that drives axis `axis_id` in the pipeline and in the
/// instrument comparison: azimuth, elevation, equatorial for axes 1, 2, 3;
/// no rotation for any other id.
pub fn reading_axis_angle(axis_id: u8) -> (r: AxisAngle)
    ensures
        r == match axis_id {
            1 => AxisAngle::Azimuth,
            2 => AxisAngle::Elevation,
            3 => AxisAngle::Equatorial,
            _ => AxisAngle::Zero,
        },
{
    match axis_id {
        1 => AxisAngle::Azimuth,
        2 => AxisAngle::Elevation,
        3 => AxisAngle::Equatorial,
        _ => AxisAngle::Zero,
    }
}

/// The angle that drives axis `axis_id` in the wear-degradation simulation:
/// azimuth and elevation for axes 1 and 2, a fixed 30° for every other axis.
pub fn degradation_axis_angle(axis_id: u8) -> (r: AxisAngle)
    ensures
        r == match axis_id {
            1 => AxisAngle::Azimuth,
            2 => AxisAngle::Elevation,
            _ => AxisAngle::ThirtyDegrees,
        },
{
    match axis_id {
        1 => AxisAngle::Azimuth,
        2 => AxisAngle::Elevation,
        _ => AxisAngle::ThirtyDegrees,
    }
}

/// The angle that drives axis `axis_id` in the virtual rotation: azimuth and
/// elevation for axes 1 and 2, the equatorial angle for every other axis.
pub fn rotation_axis_angle(axis_id: u8) -> (r: AxisAngle)
    ensures
        r == match axis_id {
            1 => AxisAngle::Azimuth,
            2 => AxisAngle::Elevation,
            _ => AxisAngle::Equatorial,
        },
{
    match axis_id {
        1 => AxisAngle::Azimuth,
        2 => AxisAngle::Elevation,
        _ => AxisAngle::Equatorial,
    }
}

/// An id that occurs in `ids` has a first occurrence.
proof fn lemma_first_axis_exists(ids: Seq<u8>, id: u8)
    requires
        ids.contains(id),
    ensures
        exists|i: int| is_first_axis(ids, id, i),
    decreases ids.len(),
{
    if ids[0] == id {
        assert(is_first_axis(ids, id, 0));
    } else {
        let t = ids.drop_first();
        let j = choose|j: int| 0 <= j < ids.len() && ids[j] == id;
        assert(t[j - 1] == id);
        lemma_first_axis_exists(t, id);
        let i = choose|i: int| is_first_axis(t, id, i);
        assert forall|m: int| 0 <= m < i + 1 implies ids[m] != id by {
            if m > 0 {
                assert(ids[m] == t[m - 1]);
            }
        }
        assert(is_first_axis(ids, id, i + 1));
    }
}

/// Where the first configured axis with id `id` stands: it exists exactly
/// when `id` is configured, and it is the first position holding `id`.
proof fn lemma_axis_position(ids: Seq<u8>, id: u8)
    ensures
        axis_position(ids, id) is Some <==> ids.contains(id),
        axis_position(ids, id) matches Some(i) ==> is_first_axis(ids, id, i),
{
    if ids.contains(id) {
        lemma_first_axis_exists(ids, id);
    } else {
        if exists|i: int| is_first_axis(ids, id, i) {
            let i = choose|i: int| is_first_axis(ids, id, i);
            assert(ids.contains(id)) by {
                assert(ids[i] == id);
            }
        }
    }
}

/// The pipeline simulates every configured axis among 1 (azimuth),
/// 2 (elevation) and 3 (equatorial) exactly once, in id order, each with the
/// first configuration that has its id, and nothing else: for each of these
/// ids there is a job exactly when the id is configured, every job names a
/// configured id among them at the first position holding it, and ids
/// strictly increase along the list.
pub proof fn law_every_configured_axis_is_simulated_once(ids: Seq<u8>)
    requires
        ids.len() <= usize::MAX,
    ensures
        forall|k: u8|
            1 <= k <= 3 ==> (ids.contains(k) <==> exists|j: int|
                0 <= j < axis_jobs(ids).len() && #[trigger] axis_jobs(ids)[j].axis_id == k),
        forall|j: int|
            0 <= j < axis_jobs(ids).len() ==> {
                let job = #[trigger] axis_jobs(ids)[j];
                &&& 1 <= job.axis_id <= 3
                &&& is_first_axis(ids, job.axis_id, job.position as int)
            },
        forall|j1: int, j2: int|
            0 <= j1 < j2 < axis_jobs(ids).len() ==> #[trigger] axis_jobs(ids)[j1].axis_id
                < #[trigger] axis_jobs(ids)[j2].axis_id,
        axis_jobs(ids).len() <= 3,
{
    lemma_axis_position(ids, 1);
    lemma_axis_position(ids, 2);
    lemma_axis_position(ids, 3);
    let jobs = axis_jobs(ids);
    let job = |id: u8|
        match axis_position(ids, id) {
            Some(i) => seq![AxisJob { axis_id: id, position: i as usize }],
            None => Seq::<AxisJob>::empty(),
        };
    assert(jobs == job(1) + job(2) + job(3));
    assert forall|j: int| 0 <= j < jobs.len() implies {
        let jb = #[trigger] jobs[j];
        &&& 1 <= jb.axis_id <= 3
        &&& is_first_axis(ids, jb.axis_id, jb.position as int)
    } by {
        if j < job(1).len() {
            assert(jobs[j] == job(1)[j]);
        } else if j < job(1).len() + job(2).len() {
            assert(jobs[j] == job(2)[j - job(1).len()]);
        } else {
            assert(jobs[j] == job(3)[j - job(1).len() - job(2).len()]);
        }
    }
    assert forall|k: u8| 1 <= k <= 3 implies (ids.contains(k) <==> exists|j: int|
        0 <= j < jobs.len() && #[trigger] jobs[j].axis_id == k) by {
        if ids.contains(k) {
            let w: int = if k == 1 {
                0
            } else if k == 2 {
                job(1).len() as int
            } else {
                (job(1).len() + job(2).len()) as int
            };
            assert(jobs[w].axis_id == k);
        }
    }
}

} // verus!
