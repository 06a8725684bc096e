use bevy::ecs::entity::Entity;
use delight_layers::camera::{CameraPlan, CameraTarget};
use delight_layers::color::LinearColor;
use delight_layers::light::light_alloc::{
    AggMeshPlan, LightAllocer, LightClaim, BASE_LIGHT_RENDER_LAYER, MAX_NUM_LIGHTS,
};
use delight_layers::screen::LayersRes;
use delight_layers::DUMMY_LAYER_USIZE;

fn small_screen() -> LayersRes {
    LayersRes::new((240, 240), 3).unwrap()
}

/// Takes every channel out of the pool, in the order in which it gives them.
fn drain(allocer: &mut LightAllocer) -> Vec<usize> {
    let mut got = vec![];
    while allocer.available() > 0 {
        got.push(allocer.allocate());
    }
    got
}

#[test]
fn pool_constants() {
    assert_eq!(BASE_LIGHT_RENDER_LAYER, 10000);
    assert_eq!(MAX_NUM_LIGHTS, 256);
    assert_eq!(DUMMY_LAYER_USIZE, 0);
}

#[test]
fn fresh_pool_gives_channels_in_rising_order() {
    let mut allocer = LightAllocer::default();
    assert_eq!(allocer.available(), 256);
    let got = drain(&mut allocer);
    let expected: Vec<usize> = (10000..10256).collect();
    assert_eq!(got, expected);
    assert_eq!(allocer.available(), 0);
}

#[test]
fn empty_pool_gives_the_dummy_channel() {
    let mut allocer = LightAllocer::default();
    drain(&mut allocer);
    assert_eq!(allocer.allocate(), 0);
    assert_eq!(allocer.allocate(), 0);
    assert_eq!(allocer.available(), 0);
}

#[test]
fn freeing_the_dummy_channel_changes_nothing() {
    let mut allocer = LightAllocer::default();
    allocer.free(DUMMY_LAYER_USIZE);
    assert_eq!(allocer.available(), 256);
    assert_eq!(allocer.allocate(), 10000);
    drain(&mut allocer);
    allocer.free(0);
    assert_eq!(allocer.available(), 0);
}

#[test]
fn freed_channel_joins_the_back_of_the_queue() {
    let mut allocer = LightAllocer::default();
    let first = allocer.allocate();
    let second = allocer.allocate();
    assert_eq!((first, second), (10000, 10001));
    allocer.free(first);
    assert_eq!(allocer.available(), 255);
    let got = drain(&mut allocer);
    assert_eq!(got.len(), 255);
    assert_eq!(got[0], 10002);
    assert_eq!(got[253], 10255);
    assert_eq!(got[254], 10000);
}

#[test]
fn channel_exhaustion() {
    let mut allocer = LightAllocer::default();
    let mut claims = vec![];
    for _ in 0..MAX_NUM_LIGHTS + 5 {
        claims.push(allocer.allocate());
    }
    for (ix, rl) in claims.iter().enumerate() {
        if ix < MAX_NUM_LIGHTS {
            assert_eq!(*rl, BASE_LIGHT_RENDER_LAYER + ix);
        } else {
            assert_eq!(*rl, DUMMY_LAYER_USIZE);
        }
    }
    assert_eq!(allocer.available(), 0);
    for rl in claims {
        allocer.free(rl);
    }
    assert_eq!(allocer.available(), MAX_NUM_LIGHTS);
    let mut back = drain(&mut allocer);
    assert!(back.iter().all(|rl| *rl != DUMMY_LAYER_USIZE));
    back.sort();
    back.dedup();
    assert_eq!(back.len(), MAX_NUM_LIGHTS);
    assert_eq!(back[0], 10000);
    assert_eq!(back[255], 10255);
}

#[test]
fn round_trip_claim() {
    let mut allocer = LightAllocer::default();
    let first = allocer.allocate();
    allocer.free(first);
    let second = allocer.allocate();
    assert_ne!(second, first);
    assert_eq!(second, 10001);
}

#[test]
fn round_trip_claim_on_a_pool_of_two() {
    let mut allocer = LightAllocer::default();
    for _ in 0..254 {
        allocer.allocate();
    }
    assert_eq!(allocer.available(), 2);
    let first = allocer.allocate();
    allocer.free(first);
    let second = allocer.allocate();
    assert_eq!(first, 10254);
    assert_eq!(second, 10255);
}

#[test]
fn round_trip_claim_on_a_pool_of_one_reuses_the_channel() {
    let mut allocer = LightAllocer::default();
    for _ in 0..255 {
        allocer.allocate();
    }
    let first = allocer.allocate();
    allocer.free(first);
    assert_eq!(allocer.allocate(), first);
}

#[test]
fn claim_then_free_keeps_the_pool_length() {
    let mut allocer = LightAllocer::default();
    for taken in 0..MAX_NUM_LIGHTS + 3 {
        let before = allocer.available();
        let rl = allocer.allocate();
        allocer.free(rl);
        assert_eq!(allocer.available(), before);
        allocer.allocate();
        assert_eq!(allocer.available(), 255usize.saturating_sub(taken));
    }
}

#[test]
fn every_channel_is_held_or_pooled_exactly_once() {
    let mut allocer = LightAllocer::default();
    let mut held = vec![];
    for step in 0..1000usize {
        if step % 3 == 2 && !held.is_empty() {
            let rl = held.remove((step * 7) % held.len());
            allocer.free(rl);
        } else {
            held.push(allocer.allocate());
        }
        let live = held.iter().filter(|rl| **rl != DUMMY_LAYER_USIZE).count();
        assert_eq!(live + allocer.available(), MAX_NUM_LIGHTS);
    }
    let mut all: Vec<usize> = held.into_iter().filter(|rl| *rl != DUMMY_LAYER_USIZE).collect();
    all.extend(drain(&mut allocer));
    all.sort();
    let expected: Vec<usize> = (10000..10256).collect();
    assert_eq!(all, expected);
}

#[test]
fn default_claim_holds_nothing() {
    let claim = LightClaim::default();
    assert_eq!(claim.rl_usize, DUMMY_LAYER_USIZE);
    assert_eq!(claim.camera_eid, None);
    assert_eq!(claim.agg_mesh_eid, None);
}

#[test]
fn claim_plans_a_camera_and_a_mesh() {
    let mut allocer = LightAllocer::default();
    let plan = LightClaim::allocate(&mut allocer, &small_screen());
    assert_eq!(plan.rl_usize, 10000);
    assert_eq!(allocer.available(), 255);
    assert_eq!(
        plan.camera,
        CameraPlan {
            order: 1,
            target: CameraTarget::Scratch { width: 240, height: 240 },
            clear_color: LinearColor { red: 0, green: 0, blue: 0, alpha: 0 },
            near: -600,
            far: 600,
            scale_divisor: 1,
            render_layer: 10000,
            follow: true,
        }
    );
    assert_eq!(plan.agg_mesh, AggMeshPlan { size: (240, 240), render_layer: 1 });

    let next = LightClaim::allocate(&mut allocer, &small_screen());
    assert_eq!(next.rl_usize, 10001);
    assert_eq!(next.camera.render_layer, 10001);
}

#[test]
fn claim_on_an_empty_pool_is_for_the_dummy_channel() {
    let mut allocer = LightAllocer::default();
    drain(&mut allocer);
    let plan = LightClaim::allocate(&mut allocer, &small_screen());
    assert_eq!(plan.rl_usize, DUMMY_LAYER_USIZE);
    assert_eq!(plan.camera.render_layer, 0);
    assert_eq!(plan.camera.target, CameraTarget::Scratch { width: 240, height: 240 });
    assert_eq!(allocer.available(), 0);
}

#[test]
fn freeing_a_claim_returns_its_channel_and_names_its_entities() {
    let mut allocer = LightAllocer::default();
    let plan = LightClaim::allocate(&mut allocer, &small_screen());
    let claim = LightClaim::claimed(&plan, Entity::from_raw(17), Entity::from_raw(42));
    assert_eq!(
        claim,
        LightClaim {
            rl_usize: 10000,
            camera_eid: Some(Entity::from_raw(17)),
            agg_mesh_eid: Some(Entity::from_raw(42)),
        }
    );
    let despawn = claim.free(&mut allocer);
    assert_eq!(despawn, (Some(Entity::from_raw(17)), Some(Entity::from_raw(42))));
    assert_eq!(allocer.available(), 256);
    let got = drain(&mut allocer);
    assert_eq!(got[255], 10000);
}

#[test]
fn freeing_a_dummy_claim_leaves_the_pool_alone() {
    let mut allocer = LightAllocer::default();
    let despawn = LightClaim::default().free(&mut allocer);
    assert_eq!(despawn, (None, None));
    assert_eq!(allocer.available(), 256);
}
