//! The pool of private drawing channels, and the claim a light holds on one.

use bevy::ecs::entity::Entity;
use std::collections::VecDeque;
use vstd::multiset::Multiset;
use vstd::prelude::*;
use vstd::seq_lib::{group_to_multiset_ensures, seq_to_set_is_finite};
use vstd::set_lib::lemma_len_subset;

use crate::camera::{CameraPlan, CameraTarget};
use crate::color::LinearColor;
use crate::consts::{color_none, ZIX_MAX, ZIX_MIN};
use crate::layer::layer_defns::{LIGHT_KEY, PRE_LIGHT_RENDER_ORDER};
use crate::layer::{layer_at, NUM_LAYERS};
use crate::screen::LayersRes;
use crate::DUMMY_LAYER_USIZE;

verus! {

/// The first channel that lights may claim.
pub const BASE_LIGHT_RENDER_LAYER: usize = 10000;

/// How many lights can have a channel of their own at once.
pub const MAX_NUM_LIGHTS: usize = 256;

/// Whether `rl` is one of the channels that the pool hands out.
pub open spec fn is_light_channel(rl: usize) -> bool {
    BASE_LIGHT_RENDER_LAYER <= rl < BASE_LIGHT_RENDER_LAYER + MAX_NUM_LIGHTS
}

/// The pool as it is first made: every channel once, in rising order.
pub open spec fn initial_pool() -> Seq<usize> {
    Seq::new(MAX_NUM_LIGHTS as nat, |i: int| (BASE_LIGHT_RENDER_LAYER + i) as usize)
}

/// A pool in good order holds only light channels, and none of them twice.
pub open spec fn pool_wf(pool: Seq<usize>) -> bool {
    &&& forall|i: int| 0 <= i < pool.len() ==> is_light_channel(#[trigger] pool[i])
    &&& pool.no_duplicates()
}

/// What claiming does to a pool: the channel handed out, and the pool left.
/// The front of the queue leaves; an empty pool gives the dummy channel.
pub open spec fn alloc_step(pool: Seq<usize>) -> (usize, Seq<usize>) {
    if pool.len() > 0 {
        (pool[0], pool.subrange(1, pool.len() as int))
    } else {
        (DUMMY_LAYER_USIZE, pool)
    }
}

/// What returning `rl` does to a pool: it joins the back of the queue,
/// unless it is the dummy channel, which is never kept.
pub open spec fn free_step(pool: Seq<usize>, rl: usize) -> Seq<usize> {
    if rl != DUMMY_LAYER_USIZE {
        pool.push(rl)
    } else {
        pool
    }
}

/// Every light channel is in exactly one place, the pool or the hands of a
/// live claim, and nothing else is in either, except that any number of
/// claims may hold the dummy channel.
pub open spec fn channels_accounted(pool: Seq<usize>, held: Multiset<usize>) -> bool {
    forall|rl: usize|
        if is_light_channel(rl) {
            #[trigger] pool.to_multiset().count(rl) + held.count(rl) == 1
        } else {
            &&& pool.to_multiset().count(rl) == 0
            &&& rl != DUMMY_LAYER_USIZE ==> held.count(rl) == 0
        }
}

/// Facilitates assigning lights to different render layers so that they don't
/// interfere with each other
#[derive(Debug)]
pub struct LightAllocer {
    unused_render_layers: VecDeque<usize>,
}

impl View for LightAllocer {
    type V = Seq<usize>;

    /// The channels waiting to be claimed, next one first.
    closed spec fn view(&self) -> Seq<usize> {
        self.unused_render_layers@
    }
}

impl Default for LightAllocer {
    /// A full pool: every light channel, lowest first.
    fn default() -> (allocer: Self)
        ensures
            allocer@ == initial_pool(),
            pool_wf(allocer@),
    {
        let mut unused_render_layers: VecDeque<usize> = VecDeque::new();
        let mut rl: usize = BASE_LIGHT_RENDER_LAYER;
        while rl < BASE_LIGHT_RENDER_LAYER + MAX_NUM_LIGHTS
            invariant
                BASE_LIGHT_RENDER_LAYER <= rl <= BASE_LIGHT_RENDER_LAYER + MAX_NUM_LIGHTS,
                unused_render_layers@.len() == rl - BASE_LIGHT_RENDER_LAYER,
                forall|i: int|
                    0 <= i < unused_render_layers@.len() ==> unused_render_layers@[i]
                        == BASE_LIGHT_RENDER_LAYER + i,
            decreases BASE_LIGHT_RENDER_LAYER + MAX_NUM_LIGHTS - rl,
        {
            unused_render_layers.push_back(rl);
            rl += 1;
        }
        Self { unused_render_layers }
    }
}

impl LightAllocer {
    /// Claims a render layer: the one that has waited longest. If we're
    /// out, we'll get the dummy render layer, which won't show up. A pool in
    /// good order stays so, and the channel it hands out is no longer in
    /// it.
    pub fn allocate(&mut self) -> (rl: usize)
        ensures
            (rl, final(self)@) == alloc_step(old(self)@),
            pool_wf(old(self)@) ==> pool_wf(final(self)@),
            pool_wf(old(self)@) ==> {
                ||| rl == DUMMY_LAYER_USIZE
                ||| is_light_channel(rl) && !final(self)@.contains(rl)
            },
    {
        match self.unused_render_layers.pop_front() {
            Some(rl) => rl,
            None => DUMMY_LAYER_USIZE,
        }
    }

    /// Returns a render layer back to the usable queue, behind all that
    /// wait there; the dummy render layer is dropped instead. A pool in good
    /// order stays so when it is given a light channel that it does not
    /// hold.
    pub fn free(&mut self, rl: usize)
        ensures
            final(self)@ == free_step(old(self)@, rl),
            pool_wf(old(self)@) && (rl == DUMMY_LAYER_USIZE || (is_light_channel(rl)
                && !old(self)@.contains(rl))) ==> pool_wf(final(self)@),
    {
        if rl != DUMMY_LAYER_USIZE {
            self.unused_render_layers.push_back(rl);
        }
    }

    /// How many channels are waiting to be claimed.
    pub fn available(&self) -> (n: usize)
        ensures
            n == self@.len(),
    {
        self.unused_render_layers.len()
    }
}

/// The engine's handle on an entity. It is carried as it is: nothing is
/// known of its inside.
#[verifier::external_type_specification]
#[verifier::external_body]
pub struct ExEntity(Entity);

/// Represents a claim to the resources needed for a light source
#[derive(Clone, Copy, Debug, PartialEq, Eq)]
pub struct LightClaim {
    /// The render layer that this light has sole control over
    pub rl_usize: usize,
    /// The entity with the camera serving this light source, once it is spawned
    pub camera_eid: Option<Entity>,
    /// The final light mesh produced by this source, to be aggregated with
    /// all other lights in the light layer
    pub agg_mesh_eid: Option<Entity>,
}

/// The mesh that brings one light's cutout into the light layer.
#[derive(Clone, Copy, Debug, PartialEq, Eq)]
pub struct AggMeshPlan {
    /// Width and height of the rectangle.
    pub size: (u32, u32),
    /// The render layer that the mesh is drawn on.
    pub render_layer: usize,
}

/// What a new light needs spawned before its claim is complete.
#[derive(Clone, Copy, Debug, PartialEq, Eq)]
pub struct LightClaimPlan {
    /// The render layer that the light has sole control over
    pub rl_usize: usize,
    /// The camera that draws the light and its shadows to a scratch image.
    pub camera: CameraPlan,
    /// The mesh that shows that scratch image, cut out, in the light layer.
    pub agg_mesh: AggMeshPlan,
}

/// The camera that serves a light on the channel `rl`. It draws before the
/// light layer does, to a scratch image as large as the screen that starts
/// each frame fully transparent, sees nothing but the light's own channel,
/// and follows the dynamic camera as the world cameras do.
pub open spec fn light_camera_spec(rl: usize, res: &LayersRes) -> CameraPlan {
    CameraPlan {
        order: PRE_LIGHT_RENDER_ORDER as i64,
        target: CameraTarget::Scratch { width: res.screen_size.0, height: res.screen_size.1 },
        clear_color: LinearColor { red: 0, green: 0, blue: 0, alpha: 0 },
        near: ZIX_MIN,
        far: ZIX_MAX,
        scale_divisor: 1,
        render_layer: rl,
        follow: true,
    }
}

impl Default for LightClaim {
    /// A claim on nothing: the dummy channel, and no entities.
    fn default() -> (claim: Self)
        ensures
            claim == (LightClaim {
                rl_usize: DUMMY_LAYER_USIZE,
                camera_eid: None,
                agg_mesh_eid: None,
            }),
    {
        Self { rl_usize: DUMMY_LAYER_USIZE, camera_eid: None, agg_mesh_eid: None }
    }
}

impl LightClaim {
    /// Claims a channel from the pool and plans the camera and the mesh
    /// that go with it. With the pool empty the plan is for the dummy
    /// channel, which no layer reads: the light then stays unseen.
    pub fn allocate(allocer: &mut LightAllocer, res: &LayersRes) -> (plan: LightClaimPlan)
        ensures
            (plan.rl_usize, final(allocer)@) == alloc_step(old(allocer)@),
            pool_wf(old(allocer)@) ==> pool_wf(final(allocer)@),
            pool_wf(old(allocer)@) ==> {
                ||| plan.rl_usize == DUMMY_LAYER_USIZE
                ||| is_light_channel(plan.rl_usize) && !final(allocer)@.contains(plan.rl_usize)
            },
            plan.camera == light_camera_spec(plan.rl_usize, res),
            plan.agg_mesh == (AggMeshPlan {
                size: res.screen_size,
                render_layer: LIGHT_KEY as usize,
            }),
    {
        // Claim a render layer
        let rl_usize = allocer.allocate();

        // A camera that is essentially scratch drawing space for light + cutouts
        let camera = CameraPlan {
            order: PRE_LIGHT_RENDER_ORDER as i64,
            target: CameraTarget::Scratch { width: res.screen_size.0, height: res.screen_size.1 },
            clear_color: color_none(),
            near: ZIX_MIN,
            far: ZIX_MAX,
            scale_divisor: 1,
            render_layer: rl_usize,
            follow: true,
        };

        // The mesh which will apply the cutout shader and put its output into the light layer
        let agg_mesh = AggMeshPlan { size: res.screen_size, render_layer: LIGHT_KEY as usize };

        LightClaimPlan { rl_usize, camera, agg_mesh }
    }

    /// Completes a claim once the planned camera and mesh are spawned.
    pub fn claimed(plan: &LightClaimPlan, camera_eid: Entity, agg_mesh_eid: Entity) -> (claim: Self)
        ensures
            claim == (LightClaim {
                rl_usize: plan.rl_usize,
                camera_eid: Some(camera_eid),
                agg_mesh_eid: Some(agg_mesh_eid),
            }),
    {
        LightClaim {
            rl_usize: plan.rl_usize,
            camera_eid: Some(camera_eid),
            agg_mesh_eid: Some(agg_mesh_eid),
        }
    }

    /// Gives the channel back to the pool and names the entities to
    /// despawn: the camera first, then the mesh, as far as they exist.
    pub fn free(&self, allocer: &mut LightAllocer) -> (despawn: (Option<Entity>, Option<Entity>))
        ensures
            final(allocer)@ == free_step(old(allocer)@, self.rl_usize),
            despawn == (self.camera_eid, self.agg_mesh_eid),
    {
        allocer.free(self.rl_usize);
        (self.camera_eid, self.agg_mesh_eid)
    }
}

/// A fresh pool is in good order and accounts for every channel with no
/// claim alive.
pub proof fn lemma_initial_pool_accounted()
    ensures
        pool_wf(initial_pool()),
        initial_pool().len() == MAX_NUM_LIGHTS,
        channels_accounted(initial_pool(), Multiset::empty()),
{
    broadcast use group_to_multiset_ensures;

    let pool = initial_pool();
    pool.lemma_multiset_has_no_duplicates();
    assert forall|rl: usize| is_light_channel(rl) implies pool.to_multiset().count(rl) == 1 by {
        assert(pool[rl - BASE_LIGHT_RENDER_LAYER] == rl);
    }
}

/// Accounting for every channel implies that the pool itself is in good
/// order.
pub proof fn lemma_accounted_pool_wf(pool: Seq<usize>, held: Multiset<usize>)
    requires
        channels_accounted(pool, held),
    ensures
        pool_wf(pool),
{
    broadcast use group_to_multiset_ensures;

    assert forall|i: int| 0 <= i < pool.len() implies is_light_channel(#[trigger] pool[i]) by {
        assert(pool.to_multiset().count(pool[i]) > 0);
    }
    assert forall|rl: usize| pool.to_multiset().count(rl) <= 1 by {}
    pool.lemma_multiset_has_no_duplicates_conv();
}

/// While every channel is accounted for, whatever a live claim holds is the
/// dummy channel or a light channel that no other claim holds and that is
/// not in the pool.
pub proof fn lemma_held_channels_unique(pool: Seq<usize>, held: Multiset<usize>, rl: usize)
    requires
        channels_accounted(pool, held),
        held.count(rl) > 0,
    ensures
        rl == DUMMY_LAYER_USIZE || (is_light_channel(rl) && held.count(rl) == 1 && !pool.contains(
            rl,
        )),
{
    broadcast use group_to_multiset_ensures;

    if is_light_channel(rl) {
        assert(pool.to_multiset().count(rl) + held.count(rl) == 1);
    } else {
        assert(pool.to_multiset().count(rl) == 0);
    }
}

/// Lights and layers keep apart: no layer's key is a light channel, and
/// none is the dummy channel, so no layer's camera sees what a light draws
/// for itself, or what is put on the dummy channel.
pub proof fn lemma_layers_apart_from_lights()
    ensures
        forall|ix: int|
            0 <= ix < NUM_LAYERS ==> {
                let key = (#[trigger] layer_at(ix)).key as usize;
                &&& !is_light_channel(key)
                &&& key != DUMMY_LAYER_USIZE
            },
{
}

/// Channel uniqueness survives a claim: the channel that leaves the pool
/// is then held by the new claim, and by nobody else.
pub proof fn lemma_alloc_keeps_accounted(pool: Seq<usize>, held: Multiset<usize>)
    requires
        channels_accounted(pool, held),
    ensures
        channels_accounted(alloc_step(pool).1, held.insert(alloc_step(pool).0)),
{
    broadcast use group_to_multiset_ensures;

    if pool.len() > 0 {
        assert(alloc_step(pool).1 =~= pool.remove(0));
    }
}

/// Channel uniqueness survives a release: a channel that a live claim
/// gives back is in the pool afterwards, once, and no longer held.
pub proof fn lemma_free_keeps_accounted(pool: Seq<usize>, held: Multiset<usize>, rl: usize)
    requires
        channels_accounted(pool, held),
        held.count(rl) > 0,
    ensures
        channels_accounted(free_step(pool, rl), held.remove(rl)),
{
    broadcast use group_to_multiset_ensures;

}

/// A pool in good order never holds more channels than there are.
pub proof fn lemma_pool_never_overfull(pool: Seq<usize>)
    requires
        pool_wf(pool),
    ensures
        pool.len() <= MAX_NUM_LIGHTS,
{
    broadcast use seq_to_set_is_finite;

    let all = initial_pool();
    all.unique_seq_to_set();
    pool.unique_seq_to_set();
    assert forall|rl: usize| pool.to_set().contains(rl) implies all.to_set().contains(rl) by {
        let i = choose|i: int| 0 <= i < pool.len() && pool[i] == rl;
        assert(all[rl - BASE_LIGHT_RENDER_LAYER] == rl);
    }
    lemma_len_subset(pool.to_set(), all.to_set());
}

/// Once no light channel is in the hands of a claim, the pool is full
/// again: it holds every light channel, once, and nothing else.
pub proof fn lemma_pool_full_when_nothing_held(pool: Seq<usize>, held: Multiset<usize>)
    requires
        channels_accounted(pool, held),
        forall|rl: usize| is_light_channel(rl) ==> held.count(rl) == 0,
    ensures
        pool_wf(pool),
        pool.len() == MAX_NUM_LIGHTS,
        forall|rl: usize| is_light_channel(rl) <==> pool.contains(rl),
{
    broadcast use {group_to_multiset_ensures, seq_to_set_is_finite};

    lemma_accounted_pool_wf(pool, held);
    let all = initial_pool();
    all.unique_seq_to_set();
    pool.unique_seq_to_set();
    assert forall|rl: usize| is_light_channel(rl) <==> pool.contains(rl) by {
        if is_light_channel(rl) {
            assert(pool.to_multiset().count(rl) + held.count(rl) == 1);
        }
    }
    assert forall|rl: usize| all.to_set().contains(rl) implies pool.to_set().contains(rl) by {
        let i = choose|i: int| 0 <= i < all.len() && all[i] == rl;
        assert(is_light_channel(all[i]));
    }
    lemma_len_subset(all.to_set(), pool.to_set());
    lemma_pool_never_overfull(pool);
}

/// What happens to the pool over time: a light is made and claims a
/// channel, or a live light goes and gives back the channel it held.
pub enum PoolEvent {
    Claim,
    Release(usize),
}

/// The pool, and the channels in the hands of live claims, once the events
/// have happened in order to the pool and the claims given.
pub open spec fn after_events(pool: Seq<usize>, held: Multiset<usize>, events: Seq<PoolEvent>) -> (
    Seq<usize>,
    Multiset<usize>,
)
    decreases events.len(),
{
    if events.len() == 0 {
        (pool, held)
    } else {
        let (pool_then, held_then) = after_events(pool, held, events.drop_last());
        match events.last() {
            PoolEvent::Claim => (
                alloc_step(pool_then).1,
                held_then.insert(alloc_step(pool_then).0),
            ),
            PoolEvent::Release(rl) => (free_step(pool_then, rl), held_then.remove(rl)),
        }
    }
}

/// Whether every release among the events gives back a channel that a live
/// claim holds at that time.
pub open spec fn releases_are_held(
    pool: Seq<usize>,
    held: Multiset<usize>,
    events: Seq<PoolEvent>,
) -> bool
    decreases events.len(),
{
    events.len() == 0 || {
        &&& releases_are_held(pool, held, events.drop_last())
        &&& match events.last() {
            PoolEvent::Claim => true,
            PoolEvent::Release(rl) => after_events(pool, held, events.drop_last()).1.count(rl) > 0,
        }
    }
}

/// Channel uniqueness at every instant: starting from a fresh pool and no
/// claims, after any run of claims and of releases by live claims, every
/// light channel is in the pool or held by exactly one claim, never both.
pub proof fn lemma_channels_always_accounted(events: Seq<PoolEvent>)
    requires
        releases_are_held(initial_pool(), Multiset::empty(), events),
    ensures
        channels_accounted(
            after_events(initial_pool(), Multiset::empty(), events).0,
            after_events(initial_pool(), Multiset::empty(), events).1,
        ),
    decreases events.len(),
{
    if events.len() == 0 {
        lemma_initial_pool_accounted();
    } else {
        lemma_channels_always_accounted(events.drop_last());
        let (pool_then, held_then) = after_events(
            initial_pool(),
            Multiset::empty(),
            events.drop_last(),
        );
        match events.last() {
            PoolEvent::Claim => lemma_alloc_keeps_accounted(pool_then, held_then),
            PoolEvent::Release(rl) => lemma_free_keeps_accounted(pool_then, held_then, rl),
        }
    }
}

/// Claiming a channel and then giving it back leaves the pool as long as it
/// was before the claim, whether or not the pool had a channel to give.
pub proof fn lemma_alloc_then_free_keeps_len(pool: Seq<usize>)
    requires
        pool_wf(pool),
    ensures
        free_step(alloc_step(pool).1, alloc_step(pool).0).len() == pool.len(),
{
}

/// A channel that was just given back is not the next one handed out, as
/// long as the pool held two or more channels to begin with.
pub proof fn lemma_freed_channel_waits(pool: Seq<usize>)
    requires
        pool_wf(pool),
        pool.len() >= 2,
    ensures
        alloc_step(free_step(alloc_step(pool).1, alloc_step(pool).0)).0 != alloc_step(pool).0,
        alloc_step(free_step(alloc_step(pool).1, alloc_step(pool).0)).0 == pool[1],
{
}

} // verus!
