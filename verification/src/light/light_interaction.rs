//! Shadow meshes: how a solid box is turned into the mesh that blocks a
//! light behind it, and how the meshes of one frame serve the next.
//!
//! Only the shape of a mesh is decided here: which corners its points stand
//! on, which of them are pushed away from the light, and which points make
//! up its triangles. Where a corner lies is for the caller to work out.

use vstd::prelude::*;

verus! {

/// How far a blocked point is pushed away from the light. It is far larger
/// than the radius of any light.
pub const MAX_LIGHT_EXTENT: u32 = 500;

/// A box no further from a light than this many tenths of a pixel counts
/// as holding the light.
pub const INSIDE_REACH_TENTHS: u32 = 1;

/// How far forward every shadow mesh stands, so that it covers the light
/// it blocks.
pub const SHADOW_MESH_ZIX: u32 = 100;

/// A corner of a box, told by the side it is on along each axis: `-1` or
/// `1` times half the box's size, from the box's centre.
#[derive(Clone, Copy, Debug, PartialEq, Eq, Structural)]
pub struct Corner {
    pub left: i8,
    pub up: i8,
}

/// An edge of a solid box, from one corner to the next.
#[derive(Clone, Copy, Debug, PartialEq, Eq, Structural)]
pub struct SolidLine {
    pub a: Corner,
    pub b: Corner,
}

/// A point of a shadow mesh: a corner of the box, either where it is or
/// pushed straight away from the light.
#[derive(Clone, Copy, Debug, PartialEq, Eq, Structural)]
pub struct ShadowPoint {
    pub corner: Corner,
    pub blocked: bool,
}

/// The shape of a shadow mesh: its points, and the triangles over them,
/// three indices into the points for each.
#[derive(Debug, PartialEq, Eq)]
pub struct BlockedMesh {
    pub points: Vec<ShadowPoint>,
    pub tris: Vec<u32>,
}

/// The four edges of a box, once around it.
pub open spec fn solid_lines_spec() -> Seq<SolidLine> {
    seq![
        SolidLine { a: Corner { left: -1i8, up: -1i8 }, b: Corner { left: -1i8, up: 1 } },
        SolidLine { a: Corner { left: -1i8, up: 1 }, b: Corner { left: 1, up: 1 } },
        SolidLine { a: Corner { left: 1, up: 1 }, b: Corner { left: 1, up: -1i8 } },
        SolidLine { a: Corner { left: 1, up: -1i8 }, b: Corner { left: -1i8, up: -1i8 } },
    ]
}

/// The point at place `ix` of the mesh over `lines`. Each line gives four
/// points in a row: its start, its start pushed away, its end pushed away,
/// its end.
pub open spec fn blocked_point(lines: Seq<SolidLine>, ix: int) -> ShadowPoint {
    let line = lines[ix / 4];
    if ix % 4 == 0 {
        ShadowPoint { corner: line.a, blocked: false }
    } else if ix % 4 == 1 {
        ShadowPoint { corner: line.a, blocked: true }
    } else if ix % 4 == 2 {
        ShadowPoint { corner: line.b, blocked: true }
    } else {
        ShadowPoint { corner: line.b, blocked: false }
    }
}

/// The index at place `ix` of the triangle list. Each line gives two
/// triangles that share the diagonal of its quad: the first three of its
/// points, then the third, the fourth and the first again.
pub open spec fn blocked_tri(ix: int) -> int {
    let first_ix = 4 * (ix / 6);
    if ix % 6 == 0 || ix % 6 == 5 {
        first_ix
    } else if ix % 6 == 1 {
        first_ix + 1
    } else if ix % 6 == 2 || ix % 6 == 3 {
        first_ix + 2
    } else {
        first_ix + 3
    }
}

/// The points of the mesh over the first `count` of `lines`.
pub open spec fn blocked_points(lines: Seq<SolidLine>, count: nat) -> Seq<ShadowPoint> {
    Seq::new(4 * count, |ix: int| blocked_point(lines, ix))
}

/// The triangle list of a mesh over `count` lines.
pub open spec fn blocked_tris(count: nat) -> Seq<u32> {
    Seq::new(6 * count, |ix: int| blocked_tri(ix) as u32)
}

/// Lists the edges of a solid box: starting at the corner low on both axes,
/// up the low side, along the top, down the high side and back along the
/// bottom.
pub fn hbox_to_solid_lines() -> (lines: [SolidLine; 4])
    ensures
        lines@ == solid_lines_spec(),
{
    let lines = [
        SolidLine { a: Corner { left: -1i8, up: -1i8 }, b: Corner { left: -1i8, up: 1 } },
        SolidLine { a: Corner { left: -1i8, up: 1 }, b: Corner { left: 1, up: 1 } },
        SolidLine { a: Corner { left: 1, up: 1 }, b: Corner { left: 1, up: -1i8 } },
        SolidLine { a: Corner { left: 1, up: -1i8 }, b: Corner { left: -1i8, up: -1i8 } },
    ];
    lines
}

/// Lays out the mesh that blocks light behind the given edges: one quad
/// for each edge, between the edge itself and the edge pushed away from the
/// light, cut into two triangles.
pub fn lines_to_blocked_mesh(lines: &[SolidLine]) -> (mesh: BlockedMesh)
    requires
        4 * lines@.len() <= u32::MAX,
    ensures
        mesh.points@ == blocked_points(lines@, lines@.len()),
        mesh.tris@ == blocked_tris(lines@.len()),
{
    let mut points: Vec<ShadowPoint> = Vec::new();
    let mut tris: Vec<u32> = Vec::new();
    let mut done: usize = 0;
    while done < lines.len()
        invariant
            4 * lines@.len() <= u32::MAX,
            done <= lines@.len(),
            points@ =~= blocked_points(lines@, done as nat),
            tris@ =~= blocked_tris(done as nat),
        decreases lines@.len() - done,
    {
        let line = lines[done];
        let first_ix: u32 = points.len() as u32;
        tris.push(first_ix);
        tris.push(first_ix + 1);
        tris.push(first_ix + 2);
        tris.push(first_ix + 2);
        tris.push(first_ix + 3);
        tris.push(first_ix);
        points.push(ShadowPoint { corner: line.a, blocked: false });
        points.push(ShadowPoint { corner: line.a, blocked: true });
        points.push(ShadowPoint { corner: line.b, blocked: true });
        points.push(ShadowPoint { corner: line.b, blocked: false });
        done += 1;
    }
    BlockedMesh { points, tris }
}

/// Lays out the mesh that blocks light behind a solid box: sixteen points
/// and eight triangles, a quad for each of the box's edges.
pub fn hbox_to_blocked_mesh() -> (mesh: BlockedMesh)
    ensures
        mesh.points@ == blocked_points(solid_lines_spec(), 4),
        mesh.tris@ == blocked_tris(4),
{
    let lines = hbox_to_solid_lines();
    lines_to_blocked_mesh(lines.as_slice())
}

/// The edges of a box are a closed walk around it: each edge runs along one
/// axis, each starts where the one before it ends, and every corner is the
/// start of exactly one edge.
pub proof fn lemma_solid_lines_closed()
    ensures
        solid_lines_spec().len() == 4,
        forall|ix: int|
            0 <= ix < 4 ==> {
                let line = #[trigger] solid_lines_spec()[ix];
                let next = solid_lines_spec()[(ix + 1) % 4];
                &&& line.b == next.a
                &&& (line.a.left == line.b.left) != (line.a.up == line.b.up)
                &&& (line.a.left == 1 || line.a.left == -1)
                &&& (line.a.up == 1 || line.a.up == -1)
            },
        forall|ix: int, jx: int|
            0 <= ix < jx < 4 ==> (#[trigger] solid_lines_spec()[ix]).a != (
            #[trigger] solid_lines_spec()[jx]).a,
{
}

/// Every triangle of a shadow mesh stands on points of that mesh, and the
/// two triangles of a quad meet along its diagonal.
pub proof fn lemma_blocked_tris_in_bounds(lines: Seq<SolidLine>, ix: int)
    requires
        0 <= ix < 6 * lines.len(),
    ensures
        0 <= blocked_tri(ix) < blocked_points(lines, lines.len()).len(),
        4 * (ix / 6) <= blocked_tri(ix) < 4 * (ix / 6) + 4,
        ix % 6 == 0 ==> blocked_tri(ix) == blocked_tri(ix + 5) && blocked_tri(ix + 2)
            == blocked_tri(ix + 3),
{
}

/// Keeps count of the shadow meshes left over from the frame before, so
/// that this frame can use them again before it makes new ones.
#[derive(Clone, Copy, Debug, PartialEq, Eq)]
pub struct MeshRecycler {
    old_count: usize,
    reused: usize,
}

/// Where the next shadow mesh goes.
#[derive(Clone, Copy, Debug, PartialEq, Eq)]
pub enum MeshSlot {
    /// Into the old mesh at this place, whose geometry is overwritten.
    Reuse { old_ix: usize },
    /// Into a mesh spawned for it.
    Spawn,
}

impl MeshRecycler {
    /// How many meshes the frame before left.
    pub closed spec fn old_count(&self) -> nat {
        self.old_count as nat
    }

    /// How many of them are in use again.
    pub closed spec fn reused(&self) -> nat {
        self.reused as nat
    }

    /// No more meshes are in use again than there were.
    pub closed spec fn wf(&self) -> bool {
        self.reused <= self.old_count
    }

    /// Starts a frame with `old_count` meshes left from the one before,
    /// none of them in use yet.
    pub fn new(old_count: usize) -> (recycler: Self)
        ensures
            recycler.wf(),
            recycler.old_count() == old_count,
            recycler.reused() == 0,
    {
        Self { old_count, reused: 0 }
    }

    /// Finds a place for one more shadow mesh: the first old mesh not yet in
    /// use again, or a new mesh once the old ones are used up.
    pub fn make_or_reuse_mesh(&mut self) -> (slot: MeshSlot)
        requires
            old(self).wf(),
        ensures
            final(self).wf(),
            final(self).old_count() == old(self).old_count(),
            old(self).reused() < old(self).old_count() ==> {
                &&& slot == (MeshSlot::Reuse { old_ix: old(self).reused() as usize })
                &&& final(self).reused() == old(self).reused() + 1
            },
            old(self).reused() >= old(self).old_count() ==> {
                &&& slot == MeshSlot::Spawn
                &&& final(self).reused() == old(self).reused()
            },
    {
        if self.reused < self.old_count {
            let old_ix = self.reused;
            self.reused = self.reused + 1;
            MeshSlot::Reuse { old_ix }
        } else {
            MeshSlot::Spawn
        }
    }

    /// Names the old meshes that this frame had no use for, which are to be
    /// despawned: those from place `unused.0` up to, but not including,
    /// place `unused.1`.
    pub fn unused(&self) -> (unused: (usize, usize))
        requires
            self.wf(),
        ensures
            unused.0 == self.reused(),
            unused.1 == self.old_count(),
            unused.0 <= unused.1,
    {
        (self.reused, self.old_count)
    }
}

/// How far a solid box is from a light, as far as shadows care.
#[derive(Clone, Copy, Debug, PartialEq, Eq, Structural)]
pub enum Reach {
    /// The light is inside the box, or all but touches it: the box is
    /// ignored, which lets a light pass up through a platform.
    Inside,
    /// The box is within the light's radius, and not `Inside`.
    Within,
    /// The box is further from the light than the light's radius.
    Beyond,
}

/// One light source, as the shadow builder sees it in one frame.
#[derive(Debug, PartialEq, Eq)]
pub struct LightProbe {
    /// The render layer that the light has sole control over
    pub rl_usize: usize,
    /// How far each solid box is from the light, in the order of the
    /// boxes; `None` while the light is off.
    pub reaches: Option<Vec<Reach>>,
}

/// One shadow mesh to put in place this frame.
#[derive(Clone, Copy, Debug, PartialEq, Eq)]
pub struct ShadowJob {
    /// Which light the shadow belongs to.
    pub light_ix: usize,
    /// Which solid box casts it.
    pub box_ix: usize,
    /// The render layer of the mesh: the light's own, so that no other
    /// light's camera sees the shadow.
    pub render_layer: usize,
    /// Where the mesh goes.
    pub slot: MeshSlot,
}

/// The shadow meshes of one frame.
#[derive(Debug, PartialEq, Eq)]
pub struct ShadowPlan {
    /// The meshes to put in place, in order.
    pub jobs: Vec<ShadowJob>,
    /// The old meshes to despawn: those from place `unused.0` up to, but
    /// not including, place `unused.1`.
    pub unused: (usize, usize),
}

/// Whether box `box_ix` casts a shadow for light `light_ix`: the light is
/// on, and the box is within its radius without holding the light.
pub open spec fn casts_shadow(lights: Seq<LightProbe>, light_ix: int, box_ix: int) -> bool {
    &&& 0 <= light_ix < lights.len()
    &&& match lights[light_ix].reaches {
        Some(reaches) => 0 <= box_ix < reaches@.len() && reaches@[box_ix] == Reach::Within,
        None => false,
    }
}

/// Whether the pair of light `l1` and box `b1` is visited before the pair
/// of `l2` and `b2`: lights in order, and for each light the boxes in
/// order.
pub open spec fn visited_before(l1: int, b1: int, l2: int, b2: int) -> bool {
    l1 < l2 || (l1 == l2 && b1 < b2)
}

/// Whether the job at place `at` is the one for the given light and box.
pub open spec fn is_job_for(jobs: Seq<ShadowJob>, at: int, light_ix: int, box_ix: int) -> bool {
    &&& 0 <= at < jobs.len()
    &&& jobs[at].light_ix == light_ix
    &&& jobs[at].box_ix == box_ix
}

/// Where the mesh goes that is asked for after `at` others, with
/// `old_count` meshes left from the frame before.
pub open spec fn slot_at(at: int, old_count: int) -> MeshSlot {
    if at < old_count {
        MeshSlot::Reuse { old_ix: at as usize }
    } else {
        MeshSlot::Spawn
    }
}

/// Plans the shadow meshes of one frame. Every light that is on gets one
/// mesh for each box within its radius, tagged with the light's own render
/// layer, and gets no other; a light that is off gets none. The meshes are
/// planned light by light and box by box. They go into the old meshes as
/// far as those last and into new ones after that, and the old meshes that
/// are still unused at the end are to be despawned.
pub fn block_lights(old_count: usize, lights: &Vec<LightProbe>) -> (plan: ShadowPlan)
    ensures
        forall|at: int|
            0 <= at < plan.jobs@.len() ==> {
                let job = #[trigger] plan.jobs@[at];
                &&& casts_shadow(lights@, job.light_ix as int, job.box_ix as int)
                &&& job.render_layer == lights@[job.light_ix as int].rl_usize
                &&& job.slot == slot_at(at, old_count as int)
            },
        forall|at: int, later: int|
            0 <= at < later < plan.jobs@.len() ==> visited_before(
                (#[trigger] plan.jobs@[at]).light_ix as int,
                plan.jobs@[at].box_ix as int,
                (#[trigger] plan.jobs@[later]).light_ix as int,
                plan.jobs@[later].box_ix as int,
            ),
        forall|light_ix: int, box_ix: int| #[trigger]
            casts_shadow(lights@, light_ix, box_ix) ==> exists|at: int|
                is_job_for(plan.jobs@, at, light_ix, box_ix),
        plan.unused.1 == old_count,
        plan.unused.0 == if plan.jobs@.len() < old_count {
            plan.jobs@.len()
        } else {
            old_count as nat
        },
{
    let mut recycler = MeshRecycler::new(old_count);
    let mut jobs: Vec<ShadowJob> = Vec::new();
    let mut light_ix: usize = 0;
    while light_ix < lights.len()
        invariant
            light_ix <= lights@.len(),
            recycler.wf(),
            recycler.old_count() == old_count,
            recycler.reused() == if jobs@.len() < old_count {
                jobs@.len()
            } else {
                old_count as nat
            },
            forall|at: int|
                0 <= at < jobs@.len() ==> {
                    let job = #[trigger] jobs@[at];
                    &&& casts_shadow(lights@, job.light_ix as int, job.box_ix as int)
                    &&& job.render_layer == lights@[job.light_ix as int].rl_usize
                    &&& job.slot == slot_at(at, old_count as int)
                    &&& job.light_ix < light_ix
                },
            forall|at: int, later: int|
                0 <= at < later < jobs@.len() ==> visited_before(
                    (#[trigger] jobs@[at]).light_ix as int,
                    jobs@[at].box_ix as int,
                    (#[trigger] jobs@[later]).light_ix as int,
                    jobs@[later].box_ix as int,
                ),
            forall|l: int, b: int| #[trigger]
                casts_shadow(lights@, l, b) && l < light_ix ==> exists|at: int|
                    is_job_for(jobs@, at, l, b),
        decreases lights@.len() - light_ix,
    {
        let light = &lights[light_ix];
        match &light.reaches {
            // Returning none here means the light is intentionally off/not active for this variant
            None => {},
            Some(reaches) => {
                let mut box_ix: usize = 0;
                while box_ix < reaches.len()
                    invariant
                        light_ix < lights@.len(),
                        lights@[light_ix as int].reaches == Some(*reaches),
                        lights@[light_ix as int].rl_usize == light.rl_usize,
                        box_ix <= reaches@.len(),
                        recycler.wf(),
                        recycler.old_count() == old_count,
                        recycler.reused() == if jobs@.len() < old_count {
                            jobs@.len()
                        } else {
                            old_count as nat
                        },
                        forall|at: int|
                            0 <= at < jobs@.len() ==> {
                                let job = #[trigger] jobs@[at];
                                &&& casts_shadow(lights@, job.light_ix as int, job.box_ix as int)
                                &&& job.render_layer == lights@[job.light_ix as int].rl_usize
                                &&& job.slot == slot_at(at, old_count as int)
                                &&& visited_before(
                                    job.light_ix as int,
                                    job.box_ix as int,
                                    light_ix as int,
                                    box_ix as int,
                                )
                            },
                        forall|at: int, later: int|
                            0 <= at < later < jobs@.len() ==> visited_before(
                                (#[trigger] jobs@[at]).light_ix as int,
                                jobs@[at].box_ix as int,
                                (#[trigger] jobs@[later]).light_ix as int,
                                jobs@[later].box_ix as int,
                            ),
                        forall|l: int, b: int| #[trigger]
                            casts_shadow(lights@, l, b) && visited_before(
                                l,
                                b,
                                light_ix as int,
                                box_ix as int,
                            ) ==> exists|at: int| is_job_for(jobs@, at, l, b),
                    decreases reaches@.len() - box_ix,
                {
                    if matches!(reaches[box_ix], Reach::Within) {
                        let ghost before = jobs@;
                        let slot = recycler.make_or_reuse_mesh();
                        jobs.push(
                            ShadowJob { light_ix, box_ix, render_layer: light.rl_usize, slot },
                        );
                        proof {
                            assert(is_job_for(
                                jobs@,
                                before.len() as int,
                                light_ix as int,
                                box_ix as int,
                            ));
                            assert forall|l: int, b: int| #[trigger]
                                casts_shadow(lights@, l, b) && visited_before(
                                    l,
                                    b,
                                    light_ix as int,
                                    box_ix as int,
                                ) implies exists|at: int| is_job_for(jobs@, at, l, b) by {
                                let at = choose|at: int| is_job_for(before, at, l, b);
                                assert(is_job_for(jobs@, at, l, b));
                            }
                        }
                    }
                    box_ix += 1;
                }
            },
        }
        light_ix += 1;
    }
    let unused = recycler.unused();
    ShadowPlan { jobs, unused }
}

} // verus!
