use bevy::ecs::entity::Entity;
use delight_layers::light::light_alloc::{LightAllocer, LightClaim};
use delight_layers::light::light_man::{LightDrive, LightMan, LightStateUpdate};

#[derive(Clone, Copy, Debug, PartialEq, Eq)]
enum Lamp {
    On,
    Off,
}

#[test]
fn new_light_resets_to_its_state() {
    let light = LightMan::new(Lamp::On);
    assert_eq!(light.state_update, Some(LightStateUpdate::ResetTo(Lamp::On)));
    assert_eq!(light.claim, LightClaim::default());
}

#[test]
fn with_state_asks_for_a_set() {
    let light = LightMan::new(Lamp::On).with_state(Lamp::Off);
    assert_eq!(light.state_update, Some(LightStateUpdate::SetTo(Lamp::Off)));
    assert_eq!(light.claim, LightClaim::default());
}

#[test]
fn set_and_reset_replace_the_pending_update() {
    let mut light = LightMan::new(Lamp::On);
    light.set_state(Lamp::Off);
    assert_eq!(light.state_update, Some(LightStateUpdate::SetTo(Lamp::Off)));
    light.reset_state(Lamp::On);
    assert_eq!(light.state_update, Some(LightStateUpdate::ResetTo(Lamp::On)));
    light.set_state(Lamp::On);
    assert_eq!(light.state_update, Some(LightStateUpdate::SetTo(Lamp::On)));
}

#[test]
fn update_knows_its_state() {
    assert_eq!(*LightStateUpdate::SetTo(Lamp::Off).get_state(), Lamp::Off);
    assert_eq!(*LightStateUpdate::ResetTo(Lamp::On).get_state(), Lamp::On);
}

#[test]
fn adding_a_light_takes_the_claim_and_tells_the_start_state() {
    let claim = LightClaim {
        rl_usize: 10003,
        camera_eid: Some(Entity::from_raw(5)),
        agg_mesh_eid: Some(Entity::from_raw(6)),
    };
    let mut light = LightMan::new(Lamp::Off);
    assert_eq!(light.on_add_light_man(claim), Some(Lamp::Off));
    assert_eq!(light.claim, claim);
    assert_eq!(light.state_update, Some(LightStateUpdate::ResetTo(Lamp::Off)));

    let mut bare: LightMan<Lamp> = LightMan { state_update: None, claim: LightClaim::default() };
    assert_eq!(bare.on_add_light_man(claim), None);
    assert_eq!(bare.claim, claim);
    assert_eq!(bare.state_update, None);
}

#[test]
fn removing_a_light_frees_its_claim() {
    let mut allocer = LightAllocer::default();
    let rl = allocer.allocate();
    let mut light = LightMan::new(Lamp::On);
    light.on_add_light_man(LightClaim {
        rl_usize: rl,
        camera_eid: Some(Entity::from_raw(1)),
        agg_mesh_eid: Some(Entity::from_raw(2)),
    });
    assert_eq!(allocer.available(), 255);
    assert_eq!(
        light.on_remove_light_man(&mut allocer),
        (Some(Entity::from_raw(1)), Some(Entity::from_raw(2)))
    );
    assert_eq!(allocer.available(), 256);
}

#[test]
fn driving_hands_a_pending_update_on_once() {
    let mut light = LightMan::new(Lamp::On);
    assert_eq!(light.drive_light_anims(true), LightDrive::ResetState(Lamp::On));
    assert_eq!(light.state_update, None);
    assert_eq!(light.drive_light_anims(true), LightDrive::Idle);
    assert_eq!(light.state_update, None);

    light.set_state(Lamp::Off);
    assert_eq!(light.drive_light_anims(true), LightDrive::SetState(Lamp::Off));
    assert_eq!(light.state_update, None);
}

#[test]
fn driving_without_an_animation_removes_the_light() {
    let mut light = LightMan::new(Lamp::On);
    assert_eq!(light.drive_light_anims(false), LightDrive::RemoveLight);
    assert_eq!(light.state_update, Some(LightStateUpdate::ResetTo(Lamp::On)));

    let mut idle: LightMan<Lamp> = LightMan { state_update: None, claim: LightClaim::default() };
    assert_eq!(idle.drive_light_anims(false), LightDrive::RemoveLight);
    assert_eq!(idle.state_update, None);
}
