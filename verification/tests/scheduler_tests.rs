use mountain_terrain::scheduler::{
    DispatchScheduler, MountainErosionStatus, MountainErosionTrigger, MountainGenerateFBMStatus,
    MountainGenerateShadowStatus, MountainPrepareWriteStatus, PrepareWriteCompute,
    RegenerateMountain, RegenerateShadows, TickDecision, update_erosion_status,
    update_generate_fbm_status, update_generate_shadow_status, update_prepare_write_status,
};

fn no_events() -> (Vec<RegenerateMountain>, Vec<RegenerateShadows>, Vec<MountainErosionTrigger>) {
    (Vec::new(), Vec::new(), Vec::new())
}

fn quiet_tick(s: &mut DispatchScheduler) -> TickDecision {
    let (hm, sh, er) = no_events();
    s.tick(&hm, &sh, &er)
}

/// Drains the startup state: both one-shot phases arm on tick 0 and fire on
/// tick 1, then everything is quiescent.
fn settled_scheduler() -> DispatchScheduler {
    let mut s = DispatchScheduler::new();
    let d0 = quiet_tick(&mut s);
    assert!(!d0.run_fbm && !d0.run_shadow && !d0.run_erosion);
    let d1 = quiet_tick(&mut s);
    assert!(d1.run_fbm && d1.run_shadow && !d1.run_erosion);
    let d2 = quiet_tick(&mut s);
    assert!(!d2.run_fbm && !d2.run_shadow && !d2.run_erosion);
    s
}

#[test]
fn startup_fires_heightmap_and_shadow_once() {
    settled_scheduler();
}

#[test]
fn heightmap_trigger_fires_exactly_once_one_tick_later() {
    let mut s = settled_scheduler();
    let hm = vec![RegenerateMountain];
    let (_, sh, er) = no_events();
    // tick T observes the trigger: no fire yet
    let d_observe = s.tick(&hm, &sh, &er);
    assert!(!d_observe.run_fbm);
    assert!(!d_observe.run_shadow);
    // tick T+1 fires the heightmap, and with it the shadow pass
    let d_fire = quiet_tick(&mut s);
    assert!(d_fire.run_fbm);
    assert!(d_fire.run_shadow);
    // and never again without a new trigger
    for _ in 0..10 {
        let d = quiet_tick(&mut s);
        assert!(!d.run_fbm);
        assert!(!d.run_shadow);
    }
}

#[test]
fn shadow_trigger_fires_exactly_once_one_tick_later() {
    let mut s = settled_scheduler();
    let sh = vec![RegenerateShadows];
    let (hm, _, er) = no_events();
    let d_observe = s.tick(&hm, &sh, &er);
    assert!(!d_observe.run_shadow);
    let d_fire = quiet_tick(&mut s);
    assert!(d_fire.run_shadow);
    // the shadow pass alone does not fire the heightmap
    assert!(!d_fire.run_fbm);
    for _ in 0..10 {
        let d = quiet_tick(&mut s);
        assert!(!d.run_shadow);
    }
}

#[test]
fn repeated_triggers_in_one_tick_collapse() {
    let mut s = settled_scheduler();
    let hm = vec![RegenerateMountain, RegenerateMountain, RegenerateMountain];
    let (_, sh, er) = no_events();
    let d0 = s.tick(&hm, &sh, &er);
    assert!(!d0.run_fbm);
    let d1 = quiet_tick(&mut s);
    assert!(d1.run_fbm);
    for _ in 0..10 {
        let d = quiet_tick(&mut s);
        assert!(!d.run_fbm);
    }
}

#[test]
fn erosion_start_fires_every_tick_until_stop() {
    let mut s = settled_scheduler();
    let (hm, sh, _) = no_events();
    let start = vec![MountainErosionTrigger::Start];
    // the start tick already fires: erosion is continuous, not latched
    let d = s.tick(&hm, &sh, &start);
    assert!(d.run_erosion);
    for _ in 0..10 {
        let d = quiet_tick(&mut s);
        assert!(d.run_erosion);
    }
    // erosion stops firing the very tick its status flips to Wait
    let stop = vec![MountainErosionTrigger::Stop];
    let d = s.tick(&hm, &sh, &stop);
    assert!(!d.run_erosion);
    for _ in 0..10 {
        let d = quiet_tick(&mut s);
        assert!(!d.run_erosion);
    }
}

#[test]
fn erosion_toggle_flips_against_current_status() {
    let mut s = settled_scheduler();
    let (hm, sh, _) = no_events();
    let toggle = vec![MountainErosionTrigger::Toggle];
    let d = s.tick(&hm, &sh, &toggle);
    assert!(d.run_erosion);
    let d = quiet_tick(&mut s);
    assert!(d.run_erosion);
    let d = s.tick(&hm, &sh, &toggle);
    assert!(!d.run_erosion);
    let d = quiet_tick(&mut s);
    assert!(!d.run_erosion);
}

#[test]
fn erosion_queue_is_drained_in_arrival_order() {
    let mut status = MountainErosionStatus::Wait;
    update_erosion_status(
        &vec![MountainErosionTrigger::Start, MountainErosionTrigger::Stop],
        &mut status,
    );
    assert_eq!(status, MountainErosionStatus::Wait);
    update_erosion_status(
        &vec![MountainErosionTrigger::Stop, MountainErosionTrigger::Start],
        &mut status,
    );
    assert_eq!(status, MountainErosionStatus::Update);
    // two toggles cancel out
    update_erosion_status(
        &vec![MountainErosionTrigger::Toggle, MountainErosionTrigger::Toggle],
        &mut status,
    );
    assert_eq!(status, MountainErosionStatus::Update);
}

#[test]
fn one_shot_queues_set_status_on_any_event() {
    let mut fbm = MountainGenerateFBMStatus::Wait;
    update_generate_fbm_status(&Vec::new(), &mut fbm);
    assert_eq!(fbm, MountainGenerateFBMStatus::Wait);
    update_generate_fbm_status(&vec![RegenerateMountain], &mut fbm);
    assert_eq!(fbm, MountainGenerateFBMStatus::Update);

    let mut shadow = MountainGenerateShadowStatus::Wait;
    update_generate_shadow_status(&Vec::new(), &mut shadow);
    assert_eq!(shadow, MountainGenerateShadowStatus::Wait);
    update_generate_shadow_status(&vec![RegenerateShadows], &mut shadow);
    assert_eq!(shadow, MountainGenerateShadowStatus::Update);
}

#[test]
fn prepare_write_queue_sets_status_on_any_event() {
    let mut status = MountainPrepareWriteStatus::default();
    assert_eq!(status, MountainPrepareWriteStatus::Wait);
    update_prepare_write_status(&Vec::new(), &mut status);
    assert_eq!(status, MountainPrepareWriteStatus::Wait);
    update_prepare_write_status(&vec![PrepareWriteCompute], &mut status);
    assert_eq!(status, MountainPrepareWriteStatus::Update);
}

#[test]
fn trigger_while_armed_is_swallowed_by_the_fire() {
    // a trigger observed on the same tick an earlier one fires is collapsed
    // into that fire, matching the sticky-status latch
    let mut s = settled_scheduler();
    let hm = vec![RegenerateMountain];
    let (_, sh, er) = no_events();
    let d0 = s.tick(&hm, &sh, &er);
    assert!(!d0.run_fbm);
    let d1 = s.tick(&hm, &sh, &er);
    assert!(d1.run_fbm);
    // the second trigger was consumed by the fire above: quiescent again
    // after one more armed-but-unfired... in fact the status was flipped to
    // Wait by the fire, so nothing remains pending
    for _ in 0..10 {
        let d = quiet_tick(&mut s);
        assert!(!d.run_fbm);
    }
}
