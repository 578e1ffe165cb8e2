//! End-to-end checks of the motion core: step derivation, trapezoid
//! profiles, the ring buffer, and the stepper.

use alumina::commandbuffer::Block;
use alumina::commandbuffer::Steps;
use alumina::commandbuffer::Target;
use alumina::interrupts::StepResult;
use alumina::interrupts::Stepper;
use alumina::planner::Planner;

#[test]
fn step_event_count_is_dominant_xyz_magnitude() {
    let s = Steps::new(Target { x: 3, y: -7, z: 5, e: 100 });
    assert_eq!(s.step_event_count, 7);
    assert_eq!(s.x, 3);
    assert_eq!(s.y, -7);
    assert_eq!(s.z, 5);
    assert_eq!(s.e, 100);

    let s = Steps::new(Target { x: 0, y: 0, z: 0, e: 0 });
    assert_eq!(s.step_event_count, 0);

    let s = Steps::new(Target { x: -200, y: 10, z: 0, e: -900 });
    assert_eq!(s.step_event_count, 200);
}

#[test]
fn block_new_uses_default_kinematics_and_placeholders() {
    let b = Block::new(Target { x: 100, y: 0, z: 0, e: 0 }, 1500, 0);
    assert_eq!(b.feed_rate, 1500);
    assert_eq!(b.acceleration, 1200);
    assert_eq!(b.deceleration, 1200);
    assert_eq!(b.nominal_rate, 300);
    assert_eq!(b.entry_rate, 300);
    assert_eq!(b.exit_rate, 300);
    assert_eq!(b.accel_until, 128);
    assert_eq!(b.decel_after, 128);
    assert_eq!(b.steps.step_event_count, 100);
}

#[test]
fn worked_scenario_trapezoid() {
    // steps-per-unit 10, default acceleration 1200, one move of 10 units
    // on X at feed rate 1500 units/min.
    let mut planner = Planner::new(8);
    planner.buffer_line(10, 0, 0, 0, 1500, 0);
    planner.recalculate_trapezoids();
    let b = planner.next_block().expect("one block pending");
    assert_eq!(b.steps.x, 100);
    assert_eq!(b.steps.y, 0);
    assert_eq!(b.steps.z, 0);
    assert_eq!(b.steps.e, 0);
    assert_eq!(b.steps.step_event_count, 100);
    assert_eq!(b.nominal_rate, 25); // 1500 / 60
    assert_eq!(b.entry_rate, 0);
    assert_eq!(b.exit_rate, 0);
    assert_eq!(b.accel_until, 1); // ceil(625 / 2400)
    assert_eq!(b.decel_after, 99); // 100 - ceil(625 / 2400)
}

#[test]
fn worked_scenario_direct_block() {
    let mut b = Block::new(Target { x: 100, y: 0, z: 0, e: 0 }, 1500, 0);
    b.calculate_trapezoid(0);
    assert_eq!(b.nominal_rate, 25);
    assert_eq!(b.entry_rate, 0);
    assert_eq!(b.exit_rate, 0);
    assert_eq!(b.accel_until, 1);
    assert_eq!(b.decel_after, 99);
}

#[test]
fn triangle_move_rescales_legs_proportionally() {
    // nominal = 60000/60 = 1000 steps/s; each leg wants
    // ceil(1000^2 / 2400) = 417 steps, 834 > 100, so both legs are
    // rescaled to meet in the middle: floor(100 * 417 / 834) = 50.
    let mut b = Block::new(Target { x: 100, y: 0, z: 0, e: 0 }, 60000, 0);
    b.calculate_trapezoid(0);
    assert_eq!(b.nominal_rate, 1000);
    assert_eq!(b.accel_until, 50);
    assert_eq!(b.decel_after, 50);
    // The rescaled legs sum exactly to the step event count.
    let accel_leg = b.accel_until;
    let decel_leg = b.steps.step_event_count - b.decel_after;
    assert_eq!(accel_leg + decel_leg, b.steps.step_event_count);
}

#[test]
fn triangle_rescale_at_extreme_magnitudes() {
    // The widest representable move at the highest feed rate: the legs
    // overflow any 64-bit count, and the rescale still lands exactly on
    // half the (even) step event count because the legs are equal.
    let mut b = Block::new(
        Target { x: 2_147_483_640, y: 0, z: 0, e: 0 },
        4_294_967_295,
        0,
    );
    b.calculate_trapezoid(0);
    assert_eq!(b.steps.step_event_count, 2_147_483_640);
    assert_eq!(b.nominal_rate, 71_582_788); // floor(u32::MAX / 60)
    assert_eq!(b.entry_rate, 0);
    assert_eq!(b.accel_until, 1_073_741_820);
    assert_eq!(b.decel_after, 1_073_741_820);
}

#[test]
fn degenerate_zero_length_move() {
    let mut b = Block::new(Target { x: 0, y: 0, z: 0, e: 0 }, 1500, 0);
    b.calculate_trapezoid(0);
    assert_eq!(b.nominal_rate, 0);
    assert_eq!(b.entry_rate, 0);
    assert_eq!(b.exit_rate, 0);
    assert_eq!(b.accel_until, 0);
    assert_eq!(b.decel_after, 0);
}

#[test]
fn extruder_only_move_has_no_step_events() {
    // The extruder magnitude drives the rate conversion but not the step
    // event count, so both boundaries collapse to zero.
    let mut b = Block::new(Target { x: 0, y: 0, z: 0, e: 200 }, 1500, 0);
    b.calculate_trapezoid(0);
    assert_eq!(b.steps.step_event_count, 0);
    assert_eq!(b.nominal_rate, 5000); // (1500 / 60) * 200 / 1
    assert_eq!(b.accel_until, 0);
    assert_eq!(b.decel_after, 0);
}

#[test]
fn ring_buffer_accepts_capacity_minus_one_moves() {
    // Starting empty with 5 slots, exactly 4 enqueues succeed; the 5th is
    // dropped without error and leaves the queue unchanged.
    let mut planner = Planner::new(5);
    assert_eq!(planner.pending_count(), 0);
    for i in 1..=4i32 {
        planner.buffer_line(i, 0, 0, 0, 1500, 0);
        assert_eq!(planner.pending_count(), i as usize);
    }
    planner.buffer_line(99, 0, 0, 0, 1500, 0);
    assert_eq!(planner.pending_count(), 4);

    // The queue still holds the first four moves, in order; the dropped
    // move is nowhere.
    for i in 1..=4i32 {
        let b = planner.next_block().expect("block pending");
        assert_eq!(b.steps.x, 10 * i);
    }
    assert!(planner.next_block().is_none());

    // After draining, the freed slots accept new moves again.
    planner.buffer_line(7, 0, 0, 0, 1500, 0);
    assert_eq!(planner.pending_count(), 1);
}

#[test]
fn junction_continuity_across_pending_blocks() {
    let mut planner = Planner::new(8);
    planner.buffer_line(10, 0, 0, 0, 1500, 0);
    planner.recalculate_trapezoids();
    planner.buffer_line(0, 20, 0, 0, 3000, 0);
    planner.recalculate_trapezoids();

    let first = planner.next_block().expect("first block");
    let second = planner.next_block().expect("second block");
    // The first pending block starts from a standstill; every block plans
    // a full stop; each entry rate is the minimum of the predecessor's
    // exit rate and the block's own nominal rate.
    assert_eq!(first.entry_rate, 0);
    assert_eq!(first.exit_rate, 0);
    assert_eq!(second.exit_rate, 0);
    assert_eq!(second.entry_rate, first.exit_rate.min(second.nominal_rate));
    assert_eq!(second.entry_rate, 0);
}

#[test]
fn stepper_idle_tick_reports_idle() {
    let mut stepper = Stepper::new();
    assert_eq!(stepper.step_interrupt_handler(), StepResult::Idle);
}

#[test]
fn stepper_consumes_block_step_by_step() {
    let mut b = Block::new(Target { x: 100, y: 0, z: 0, e: 0 }, 1500, 0);
    b.calculate_trapezoid(0);
    let mut stepper = Stepper::new();
    stepper.execute_block(b);

    // Step 0 accelerates from the entry rate of 0.
    match stepper.step_interrupt_handler() {
        StepResult::Stepped { rate, delay_us, done } => {
            assert_eq!(rate, 0);
            assert_eq!(delay_us, 1_000_000);
            assert!(!done);
        }
        other => panic!("unexpected result: {:?}", other),
    }
    // Steps 1..=98 run the plateau at the nominal rate of 25 steps/s.
    for _ in 1..=98 {
        match stepper.step_interrupt_handler() {
            StepResult::Stepped { rate, delay_us, done } => {
                assert_eq!(rate, 25);
                assert_eq!(delay_us, 40_000);
                assert!(!done);
            }
            other => panic!("unexpected result: {:?}", other),
        }
    }
    // Step 99 decelerates to the exit rate of 0 and completes the block.
    match stepper.step_interrupt_handler() {
        StepResult::Stepped { rate, done, .. } => {
            assert_eq!(rate, 0);
            assert!(done);
        }
        other => panic!("unexpected result: {:?}", other),
    }
    assert_eq!(stepper.step_interrupt_handler(), StepResult::Idle);
}

#[test]
fn stepper_interpolates_triangle_rates() {
    // nominal = 6000/60 = 100 steps/s over 10 steps; each leg wants
    // ceil(100^2 / 2400) = 5 steps, which exactly fills the move: the
    // rate climbs 0, 20, 40, 60, 80 and falls 80, 60, 40, 20, 0.
    let mut b = Block::new(Target { x: 10, y: 0, z: 0, e: 0 }, 6000, 0);
    b.calculate_trapezoid(0);
    assert_eq!(b.nominal_rate, 100);
    assert_eq!(b.accel_until, 5);
    assert_eq!(b.decel_after, 5);

    let expected: [u64; 10] = [0, 20, 40, 60, 80, 80, 60, 40, 20, 0];
    let mut stepper = Stepper::new();
    stepper.execute_block(b);
    for (i, want) in expected.iter().enumerate() {
        match stepper.step_interrupt_handler() {
            StepResult::Stepped { rate, done, .. } => {
                assert_eq!(rate, *want, "step {}", i);
                assert_eq!(done, i == 9);
            }
            other => panic!("unexpected result: {:?}", other),
        }
    }
}

#[test]
fn stepper_completes_zero_length_block_on_first_tick() {
    let mut b = Block::new(Target { x: 0, y: 0, z: 0, e: 0 }, 1500, 0);
    b.calculate_trapezoid(0);
    let mut stepper = Stepper::new();
    stepper.execute_block(b);
    match stepper.step_interrupt_handler() {
        StepResult::Stepped { rate, done, .. } => {
            assert_eq!(rate, 0);
            assert!(done);
        }
        other => panic!("unexpected result: {:?}", other),
    }
    assert_eq!(stepper.step_interrupt_handler(), StepResult::Idle);
}
