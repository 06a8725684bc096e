use bevy::ecs::entity::Entity;
use delight_layers::light::light_alloc::{LightAllocer, LightClaim};
use delight_layers::light::light_interaction::{
    block_lights, hbox_to_blocked_mesh, hbox_to_solid_lines, lines_to_blocked_mesh, Corner,
    LightProbe, MeshRecycler, MeshSlot, Reach, ShadowJob, ShadowPoint, SolidLine,
    INSIDE_REACH_TENTHS, MAX_LIGHT_EXTENT, SHADOW_MESH_ZIX,
};
use delight_layers::screen::LayersRes;

const LOW_LOW: Corner = Corner { left: -1, up: -1 };
const LOW_HIGH: Corner = Corner { left: -1, up: 1 };
const HIGH_HIGH: Corner = Corner { left: 1, up: 1 };
const HIGH_LOW: Corner = Corner { left: 1, up: -1 };

fn point(corner: Corner, blocked: bool) -> ShadowPoint {
    ShadowPoint { corner, blocked }
}

#[test]
fn shadow_constants() {
    assert_eq!(MAX_LIGHT_EXTENT, 500);
    assert_eq!(INSIDE_REACH_TENTHS as f32 / 10.0, 0.1);
    assert_eq!(SHADOW_MESH_ZIX, 100);
}

#[test]
fn solid_lines_walk_around_the_box() {
    let lines = hbox_to_solid_lines();
    assert_eq!(
        lines,
        [
            SolidLine { a: LOW_LOW, b: LOW_HIGH },
            SolidLine { a: LOW_HIGH, b: HIGH_HIGH },
            SolidLine { a: HIGH_HIGH, b: HIGH_LOW },
            SolidLine { a: HIGH_LOW, b: LOW_LOW },
        ]
    );
    for ix in 0..4 {
        assert_eq!(lines[ix].b, lines[(ix + 1) % 4].a);
    }
}

#[test]
fn blocked_mesh_of_a_box() {
    let mesh = hbox_to_blocked_mesh();
    assert_eq!(
        mesh.points,
        vec![
            point(LOW_LOW, false),
            point(LOW_LOW, true),
            point(LOW_HIGH, true),
            point(LOW_HIGH, false),
            point(LOW_HIGH, false),
            point(LOW_HIGH, true),
            point(HIGH_HIGH, true),
            point(HIGH_HIGH, false),
            point(HIGH_HIGH, false),
            point(HIGH_HIGH, true),
            point(HIGH_LOW, true),
            point(HIGH_LOW, false),
            point(HIGH_LOW, false),
            point(HIGH_LOW, true),
            point(LOW_LOW, true),
            point(LOW_LOW, false),
        ]
    );
    assert_eq!(
        mesh.tris,
        vec![
            0, 1, 2, 2, 3, 0, 4, 5, 6, 6, 7, 4, 8, 9, 10, 10, 11, 8, 12, 13, 14, 14, 15, 12
        ]
    );
}

#[test]
fn blocked_mesh_of_no_lines_is_empty() {
    let mesh = lines_to_blocked_mesh(&[]);
    assert!(mesh.points.is_empty());
    assert!(mesh.tris.is_empty());
}

#[test]
fn blocked_mesh_of_one_line() {
    let mesh = lines_to_blocked_mesh(&[SolidLine { a: HIGH_LOW, b: LOW_HIGH }]);
    assert_eq!(
        mesh.points,
        vec![
            point(HIGH_LOW, false),
            point(HIGH_LOW, true),
            point(LOW_HIGH, true),
            point(LOW_HIGH, false)
        ]
    );
    assert_eq!(mesh.tris, vec![0, 1, 2, 2, 3, 0]);
}

#[test]
fn triangles_stay_within_the_points() {
    let lines = vec![SolidLine { a: LOW_LOW, b: HIGH_HIGH }; 7];
    let mesh = lines_to_blocked_mesh(&lines);
    assert_eq!(mesh.points.len(), 28);
    assert_eq!(mesh.tris.len(), 42);
    assert!(mesh.tris.iter().all(|ix| (*ix as usize) < mesh.points.len()));
    assert_eq!(&mesh.tris[36..], &[24, 25, 26, 26, 27, 24]);
}

#[test]
fn recycler_reuses_old_meshes_first() {
    let mut recycler = MeshRecycler::new(2);
    assert_eq!(recycler.unused(), (0, 2));
    assert_eq!(recycler.make_or_reuse_mesh(), MeshSlot::Reuse { old_ix: 0 });
    assert_eq!(recycler.unused(), (1, 2));
    assert_eq!(recycler.make_or_reuse_mesh(), MeshSlot::Reuse { old_ix: 1 });
    assert_eq!(recycler.unused(), (2, 2));
    assert_eq!(recycler.make_or_reuse_mesh(), MeshSlot::Spawn);
    assert_eq!(recycler.make_or_reuse_mesh(), MeshSlot::Spawn);
    assert_eq!(recycler.unused(), (2, 2));
}

#[test]
fn recycler_with_nothing_old_spawns() {
    let mut recycler = MeshRecycler::new(0);
    assert_eq!(recycler.make_or_reuse_mesh(), MeshSlot::Spawn);
    assert_eq!(recycler.unused(), (0, 0));
}

#[test]
fn light_on_and_off() {
    let mut allocer = LightAllocer::default();
    let res = LayersRes::new((240, 240), 3).unwrap();
    let plan = LightClaim::allocate(&mut allocer, &res);
    let claim = LightClaim::claimed(&plan, Entity::from_raw(1), Entity::from_raw(2));
    let pooled = allocer.available();

    let on = vec![LightProbe { rl_usize: claim.rl_usize, reaches: Some(vec![Reach::Within]) }];
    let shadows = block_lights(0, &on);
    assert_eq!(
        shadows.jobs,
        vec![ShadowJob { light_ix: 0, box_ix: 0, render_layer: 10000, slot: MeshSlot::Spawn }]
    );
    assert_eq!(shadows.unused, (0, 0));

    let off = vec![LightProbe { rl_usize: claim.rl_usize, reaches: None }];
    let shadows = block_lights(1, &off);
    assert!(shadows.jobs.is_empty());
    assert_eq!(shadows.unused, (0, 1));
    assert_eq!(allocer.available(), pooled);
    assert_eq!(pooled, 255);
}

#[test]
fn only_boxes_within_reach_cast_shadows() {
    let lights = vec![
        LightProbe {
            rl_usize: 10000,
            reaches: Some(vec![Reach::Beyond, Reach::Within, Reach::Inside, Reach::Within]),
        },
        LightProbe { rl_usize: 10001, reaches: None },
        LightProbe { rl_usize: 10002, reaches: Some(vec![]) },
        LightProbe {
            rl_usize: 0,
            reaches: Some(vec![Reach::Within, Reach::Inside, Reach::Beyond, Reach::Beyond]),
        },
        LightProbe {
            rl_usize: 10004,
            reaches: Some(vec![Reach::Inside, Reach::Beyond, Reach::Within, Reach::Within]),
        },
    ];
    let shadows = block_lights(3, &lights);
    assert_eq!(
        shadows.jobs,
        vec![
            ShadowJob {
                light_ix: 0,
                box_ix: 1,
                render_layer: 10000,
                slot: MeshSlot::Reuse { old_ix: 0 }
            },
            ShadowJob {
                light_ix: 0,
                box_ix: 3,
                render_layer: 10000,
                slot: MeshSlot::Reuse { old_ix: 1 }
            },
            ShadowJob {
                light_ix: 3,
                box_ix: 0,
                render_layer: 0,
                slot: MeshSlot::Reuse { old_ix: 2 }
            },
            ShadowJob { light_ix: 4, box_ix: 2, render_layer: 10004, slot: MeshSlot::Spawn },
            ShadowJob { light_ix: 4, box_ix: 3, render_layer: 10004, slot: MeshSlot::Spawn },
        ]
    );
    assert_eq!(shadows.unused, (3, 3));
}

#[test]
fn old_meshes_without_use_are_despawned() {
    let lights = vec![LightProbe { rl_usize: 10007, reaches: Some(vec![Reach::Within]) }];
    let shadows = block_lights(5, &lights);
    assert_eq!(shadows.jobs.len(), 1);
    assert_eq!(shadows.jobs[0].slot, MeshSlot::Reuse { old_ix: 0 });
    assert_eq!(shadows.unused, (1, 5));

    let shadows = block_lights(4, &vec![]);
    assert!(shadows.jobs.is_empty());
    assert_eq!(shadows.unused, (0, 4));
}
