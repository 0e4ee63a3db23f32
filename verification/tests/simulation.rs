use simloop::event::{Event, Key, Point, Rect};
use simloop::handoff::{Snapshot, StateHandoff};
use simloop::input::{Effect, InputState};
use simloop::simulation::{axis_drive, Drive, Phase, SimulationLoop, TickPlan};
use simloop::timing::{Wait, TICK_NANOS};

fn window() -> Rect {
    Rect { left: 0, top: 0, right: 2560, bottom: 1440 }
}

#[test]
fn one_held_key_drives_its_axis() {
    assert_eq!(axis_drive(true, false), Drive::Positive);
    assert_eq!(axis_drive(false, true), Drive::Negative);
}

#[test]
fn forward_and_backward_both_held_take_the_damping_branch() {
    assert_eq!(axis_drive(true, true), Drive::Damp);
    let mut sim = SimulationLoop::new(0, window());
    sim.absorb(&vec![Event::key_down(Key::Forward, false), Event::key_down(Key::Backward, false)]);
    let plan = sim.next_tick(TICK_NANOS).unwrap();
    assert_eq!(plan.forward, Drive::Damp);
    assert_ne!(plan.forward, Drive::Positive);
    assert_ne!(plan.forward, Drive::Negative);
}

#[test]
fn no_key_held_damps() {
    assert_eq!(axis_drive(false, false), Drive::Damp);
    let mut sim = SimulationLoop::new(0, window());
    let plan = sim.next_tick(TICK_NANOS).unwrap();
    assert_eq!(plan.lateral, Drive::Damp);
    assert_eq!(plan.forward, Drive::Damp);
}

#[test]
fn a_new_loop_stands_before_its_first_tick() {
    let sim = SimulationLoop::new(5_000, window());
    assert_eq!(sim.phase(), Phase::Draining);
    assert_eq!(sim.tick(), 0);
    assert_eq!(sim.last_tick(), 5_000);
    assert_eq!(sim.input(), InputState::new());
    assert_eq!(sim.window(), window());
}

#[test]
fn no_tick_before_a_timestep_has_passed() {
    let mut sim = SimulationLoop::new(1_000, window());
    assert!(!sim.tick_due(1_000));
    assert!(!sim.tick_due(1_000 + TICK_NANOS - 1));
    assert_eq!(sim.ticks_due(1_000 + TICK_NANOS - 1), 0);
    assert_eq!(sim.next_tick(1_000 + TICK_NANOS - 1), None);
    assert_eq!(sim.tick(), 0);
    assert_eq!(sim.last_tick(), 1_000);
    assert_eq!(sim.phase(), Phase::Publishing);
}

#[test]
fn a_tick_runs_once_its_time_has_come() {
    let mut sim = SimulationLoop::new(1_000, window());
    assert!(sim.tick_due(1_000 + TICK_NANOS));
    assert_eq!(sim.ticks_due(1_000 + TICK_NANOS), 1);
    let plan = sim.next_tick(1_000 + TICK_NANOS).unwrap();
    assert_eq!(
        plan,
        TickPlan {
            tick: 1,
            time: 1_000 + TICK_NANOS,
            lateral: Drive::Damp,
            forward: Drive::Damp,
            jump: false,
            mouse_x: 0,
            mouse_y: 0,
        }
    );
    assert_eq!(sim.tick(), 1);
    assert_eq!(sim.last_tick(), 1_000 + TICK_NANOS);
    assert_eq!(sim.phase(), Phase::Ticking);
    assert_eq!(sim.next_tick(1_000 + TICK_NANOS), None);
    assert_eq!(sim.phase(), Phase::Publishing);
}

#[test]
fn every_tick_takes_the_next_number() {
    let mut sim = SimulationLoop::new(0, window());
    let mut now = 0u64;
    let mut expected = 0u64;
    for step in 0..500u64 {
        now += 3_700_000 + (step % 7) * 2_900_000;
        while let Some(plan) = sim.next_tick(now) {
            expected += 1;
            assert_eq!(plan.tick, expected);
            assert_eq!(sim.tick(), expected);
            assert_eq!(plan.time, expected * TICK_NANOS);
        }
        assert!(now - sim.last_tick() < TICK_NANOS);
    }
    assert_eq!(expected, now / TICK_NANOS);
}

#[test]
fn catching_up_runs_every_due_tick() {
    let mut sim = SimulationLoop::new(0, window());
    let now = 3 * TICK_NANOS + 4_000_000;
    assert_eq!(sim.ticks_due(now), 3);
    let mut ticks = Vec::new();
    while let Some(plan) = sim.next_tick(now) {
        ticks.push((plan.tick, plan.time));
    }
    assert_eq!(ticks, vec![(1, TICK_NANOS), (2, 2 * TICK_NANOS), (3, 3 * TICK_NANOS)]);
    assert_eq!(sim.ticks_due(now), 0);
    assert_eq!(sim.last_tick(), 3 * TICK_NANOS);
}

#[test]
fn clock_behind_the_loop_runs_nothing() {
    let mut sim = SimulationLoop::new(50 * TICK_NANOS, window());
    assert!(!sim.tick_due(0));
    assert_eq!(sim.ticks_due(0), 0);
    assert_eq!(sim.next_tick(0), None);
    assert_eq!(sim.tick(), 0);
}

#[test]
fn the_plan_carries_the_input() {
    let mut sim = SimulationLoop::new(0, window());
    let effects = sim.absorb(&vec![
        Event::key_down(Key::Right, false),
        Event::key_down(Key::Backward, false),
        Event::key_down(Key::Jump, false),
        Event::mouse_move(Point { x: 1300, y: 700 }),
        Event::mouse_move(Point { x: 1290, y: 730 }),
    ]);
    assert_eq!(effects, vec![Effect::Nothing; 5]);
    assert_eq!(sim.phase(), Phase::Ticking);
    let plan = sim.next_tick(TICK_NANOS).unwrap();
    assert_eq!(
        plan,
        TickPlan {
            tick: 1,
            time: TICK_NANOS,
            lateral: Drive::Positive,
            forward: Drive::Negative,
            jump: true,
            mouse_x: 30,
            mouse_y: -10,
        }
    );
}

#[test]
fn left_drives_against_the_lateral_axis() {
    let mut sim = SimulationLoop::new(0, window());
    sim.absorb(&vec![Event::key_down(Key::Left, false), Event::key_down(Key::Forward, false)]);
    let plan = sim.next_tick(TICK_NANOS).unwrap();
    assert_eq!(plan.lateral, Drive::Negative);
    assert_eq!(plan.forward, Drive::Positive);
}

#[test]
fn one_shot_input_reaches_the_first_tick_only() {
    let mut sim = SimulationLoop::new(0, window());
    sim.absorb(&vec![
        Event::key_down(Key::Left, false),
        Event::key_down(Key::Jump, false),
        Event::mouse_move(Point { x: 1281, y: 722 }),
    ]);
    let now = 2 * TICK_NANOS;
    let first = sim.next_tick(now).unwrap();
    assert!(first.jump);
    assert_eq!((first.mouse_x, first.mouse_y), (1, 2));
    assert_eq!(first.lateral, Drive::Negative);
    let second = sim.next_tick(now).unwrap();
    assert!(!second.jump);
    assert_eq!((second.mouse_x, second.mouse_y), (0, 0));
    assert_eq!(second.lateral, Drive::Negative);
    assert_eq!(sim.next_tick(now), None);
    assert!(sim.input().left);
    assert!(!sim.input().jump);
}

#[test]
fn input_waits_for_its_tick() {
    let mut sim = SimulationLoop::new(0, window());
    sim.absorb(&vec![Event::mouse_move(Point { x: 1285, y: 720 })]);
    assert_eq!(sim.next_tick(TICK_NANOS - 1), None);
    sim.absorb(&vec![Event::mouse_move(Point { x: 1285, y: 720 })]);
    let plan = sim.next_tick(TICK_NANOS).unwrap();
    assert_eq!(plan.mouse_x, 10);
    assert_eq!(sim.input().mouse_x, 0);
}

#[test]
fn absorb_reports_the_aspect_and_keeps_the_window() {
    let mut sim = SimulationLoop::new(0, window());
    let rect = Rect { left: 0, top: 0, right: 1920, bottom: 1080 };
    let effects = sim.absorb(&vec![Event::resize(rect), Event::mouse_move(Point { x: 960, y: 545 })]);
    assert_eq!(effects, vec![Effect::Aspect { width: 1920, height: 1080 }, Effect::Nothing]);
    assert_eq!(sim.window(), rect);
    assert_eq!(sim.input().mouse_y, 5);
}

#[test]
fn publish_sends_behind_what_is_pending() {
    let mut sim = SimulationLoop::new(0, window());
    let mut handoff = StateHandoff::new();
    sim.publish(&mut handoff, "start", vec![1u8, 2]);
    assert_eq!(sim.phase(), Phase::Idle);
    assert!(sim.next_tick(TICK_NANOS).is_some());
    sim.publish(&mut handoff, "moved", vec![3u8]);
    assert_eq!(handoff.pending(), 2);
    assert_eq!(handoff.try_recv(), Some(Snapshot { tick: 0, camera: "start", instances: vec![1, 2] }));
    assert_eq!(handoff.take_latest(), Some(Snapshot { tick: 1, camera: "moved", instances: vec![3] }));
}

#[test]
fn the_latest_snapshot_is_the_freshest() {
    let mut sim = SimulationLoop::new(0, window());
    let mut handoff = StateHandoff::new();
    let mut now = 0u64;
    let mut greatest = 0u64;
    for _ in 0..40 {
        now += 6_100_000;
        while sim.next_tick(now).is_some() {}
        sim.publish(&mut handoff, (), Vec::<u8>::new());
        greatest = sim.tick();
    }
    let mut earlier = Vec::new();
    for _ in 0..39 {
        earlier.push(handoff.try_recv().unwrap().tick);
    }
    let last = handoff.take_latest().unwrap();
    assert_eq!(last.tick, greatest);
    assert_eq!(last.tick, 24);
    for pair in earlier.windows(2) {
        assert!(pair[0] <= pair[1]);
    }
    assert!(earlier.iter().all(|t| *t <= last.tick));
}

#[test]
fn idle_wait_sleeps_short_of_the_next_tick() {
    let mut sim = SimulationLoop::new(0, window());
    assert_eq!(sim.idle_wait(700_000), Wait::Sleep { millis: 8 });
    assert_eq!(sim.phase(), Phase::Draining);
    assert_eq!(sim.idle_wait(TICK_NANOS - 1_500_000), Wait::Spin);
    assert_eq!(sim.idle_wait(TICK_NANOS - 1_500_001), Wait::Sleep { millis: 0 });
    assert_eq!(sim.idle_wait(TICK_NANOS + 1), Wait::Spin);
}

#[test]
fn idle_wait_counts_from_the_last_tick() {
    let mut sim = SimulationLoop::new(0, window());
    let now = 2 * TICK_NANOS + 3_000_000;
    while sim.next_tick(now).is_some() {}
    // 7 ms remain until the third tick
    assert_eq!(sim.idle_wait(now), Wait::Sleep { millis: 6 });
}

#[test]
fn a_cycle_goes_through_the_four_phases() {
    let mut sim = SimulationLoop::new(0, window());
    let mut handoff = StateHandoff::new();
    let mut published = 0u64;
    let mut now = 0u64;
    for _ in 0..20 {
        assert_eq!(sim.phase(), Phase::Draining);
        sim.absorb(&Vec::new());
        assert_eq!(sim.phase(), Phase::Ticking);
        now += 4_000_000;
        while sim.next_tick(now).is_some() {
            assert_eq!(sim.phase(), Phase::Ticking);
        }
        assert_eq!(sim.phase(), Phase::Publishing);
        sim.publish(&mut handoff, (), vec![published]);
        published += 1;
        assert_eq!(sim.phase(), Phase::Idle);
        sim.idle_wait(now);
    }
    assert_eq!(handoff.pending() as u64, published);
    assert_eq!(handoff.take_latest(), Some(Snapshot { tick: 8, camera: (), instances: vec![19] }));
    assert_eq!(sim.tick(), 8);
}

#[test]
fn all_due_ticks_at_once() {
    let mut sim = SimulationLoop::new(0, window());
    sim.absorb(&vec![
        Event::key_down(Key::Forward, false),
        Event::key_down(Key::Jump, false),
        Event::mouse_move(Point { x: 1270, y: 725 }),
    ]);
    let plans = sim.run_due_ticks(3 * TICK_NANOS + 9_999_999);
    assert_eq!(
        plans,
        vec![
            TickPlan {
                tick: 1,
                time: TICK_NANOS,
                lateral: Drive::Damp,
                forward: Drive::Positive,
                jump: true,
                mouse_x: -10,
                mouse_y: 5,
            },
            TickPlan {
                tick: 2,
                time: 2 * TICK_NANOS,
                lateral: Drive::Damp,
                forward: Drive::Positive,
                jump: false,
                mouse_x: 0,
                mouse_y: 0,
            },
            TickPlan {
                tick: 3,
                time: 3 * TICK_NANOS,
                lateral: Drive::Damp,
                forward: Drive::Positive,
                jump: false,
                mouse_x: 0,
                mouse_y: 0,
            },
        ]
    );
    assert_eq!(sim.phase(), Phase::Publishing);
    assert_eq!(sim.tick(), 3);
    assert_eq!(sim.last_tick(), 3 * TICK_NANOS);
    assert!(!sim.tick_due(3 * TICK_NANOS + 9_999_999));
}

#[test]
fn no_due_tick_gives_no_plan() {
    let mut sim = SimulationLoop::new(7, window());
    assert_eq!(sim.run_due_ticks(7 + TICK_NANOS - 1), Vec::<TickPlan>::new());
    assert_eq!(sim.run_due_ticks(0), Vec::<TickPlan>::new());
    assert_eq!(sim.phase(), Phase::Publishing);
    assert_eq!(sim.tick(), 0);
    assert_eq!(sim.last_tick(), 7);
}

#[test]
fn stepping_and_running_at_once_agree() {
    let events = vec![Event::key_down(Key::Left, false), Event::mouse_move(Point { x: 1281, y: 719 })];
    let mut stepped = SimulationLoop::new(0, window());
    let mut batched = SimulationLoop::new(0, window());
    let mut now = 0u64;
    for round in 0..50u64 {
        now += 1_000_000 + round * 700_000;
        stepped.absorb(&events);
        batched.absorb(&events);
        let mut one_by_one = Vec::new();
        while let Some(plan) = stepped.next_tick(now) {
            one_by_one.push(plan);
        }
        assert_eq!(batched.ticks_due(now) as usize, one_by_one.len());
        assert_eq!(batched.run_due_ticks(now), one_by_one);
        assert_eq!(batched.tick(), stepped.tick());
        assert_eq!(batched.last_tick(), stepped.last_tick());
        assert_eq!(batched.input(), stepped.input());
        assert_eq!(batched.phase(), stepped.phase());
    }
}
