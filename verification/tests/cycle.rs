use flexcore::cycle_outcome;
use flexcore::Input;
use flexcore::Node;
use flexcore::Output;
use flexcore::Region;
use std::time::Duration;

struct Emitter {
    name: String,
    value: u32,
    out: Output<u32>,
}

impl Node for Emitter {
    fn name(&self) -> &String {
        &self.name
    }
    fn tick(&mut self) {
        self.out.fire(self.value);
        self.value += 1;
    }
    fn process_input(&mut self) {}
}

struct Relay {
    name: String,
    input: Input<u32>,
    out: Output<u32>,
}

impl Node for Relay {
    fn name(&self) -> &String {
        &self.name
    }
    fn process_input(&mut self) {
        for value in self.input.fetch() {
            self.out.fire(value);
        }
    }
}

fn wired_region(emitter_first: bool) -> (Region, Input<u32>) {
    let mut emitter_out: Output<u32> = Output::default();
    let mut relay_in: Input<u32> = Input::default();
    let mut relay_out: Output<u32> = Output::default();
    let mut tap: Input<u32> = Input::default();
    emitter_out.connect(&mut relay_in);
    relay_out.connect(&mut tap);
    let emitter = Emitter { name: "emitter".to_string(), value: 7, out: emitter_out };
    let relay = Relay { name: "relay".to_string(), input: relay_in, out: relay_out };
    let mut region = Region::new("loop".to_string(), Duration::from_millis(10));
    if emitter_first {
        region.add_node(emitter);
        region.add_node(relay);
    } else {
        region.add_node(relay);
        region.add_node(emitter);
    }
    (region, tap)
}

#[test]
fn tick_runs_before_process_input_within_one_cycle() {
    // The emitter is registered first: its tick fires 7, and the relay's
    // process_input, later in the same cycle, already sees it.
    let (mut region, mut tap) = wired_region(true);
    region.run_cycle();
    assert_eq!(tap.fetch(), vec![7]);
    region.run_cycle();
    assert_eq!(tap.fetch(), vec![8]);
}

#[test]
fn a_value_fired_downstream_of_a_node_waits_one_cycle() {
    // The relay is registered first: when it drains its input, the emitter
    // later in the same cycle has not fired yet, so the value only passes
    // through on the following cycle.
    let (mut region, mut tap) = wired_region(false);
    region.run_cycle();
    assert!(tap.fetch().is_empty());
    region.run_cycle();
    assert_eq!(tap.fetch(), vec![7]);
}

#[test]
fn run_cycle_keeps_the_node_roster() {
    let (mut region, _tap) = wired_region(true);
    assert_eq!(region.num_nodes(), 2);
    region.run_cycle();
    assert_eq!(region.num_nodes(), 2);
    assert_eq!(region.name().as_str(), "loop");
}

#[test]
fn overrunning_work_is_a_missed_deadline_with_no_sleep() {
    let outcome = cycle_outcome(100, 150);
    assert!(outcome.missed_deadline);
    assert_eq!(outcome.sleep_nanos, 0);
}

#[test]
fn on_time_work_sleeps_exactly_the_remainder() {
    let outcome = cycle_outcome(100, 40);
    assert!(!outcome.missed_deadline);
    assert_eq!(outcome.sleep_nanos, 60);

    let boundary = cycle_outcome(100, 100);
    assert!(!boundary.missed_deadline);
    assert_eq!(boundary.sleep_nanos, 0);

    let idle = cycle_outcome(250, 0);
    assert!(!idle.missed_deadline);
    assert_eq!(idle.sleep_nanos, 250);
}
