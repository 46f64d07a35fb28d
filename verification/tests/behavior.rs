use geometria::behavior::{update_scripts, BehaviorRegistry, Counter as Ticks, ScriptBehaviorCore};
use std::cell::RefCell;
use std::rc::Rc;

/// A behavior that counts its updates.
struct Counter {
    counter: u32,
}

impl ScriptBehaviorCore for Counter {
    fn on_start(&mut self) {}

    fn on_update(&mut self) {
        self.counter += 1;
    }
}

/// A behavior that writes every call of a hook into a journal that it shares
/// with the test.
struct Recorder {
    name: &'static str,
    journal: Rc<RefCell<Vec<String>>>,
}

impl Recorder {
    fn new(name: &'static str, journal: &Rc<RefCell<Vec<String>>>) -> Self {
        Recorder { name, journal: Rc::clone(journal) }
    }
}

impl ScriptBehaviorCore for Recorder {
    fn on_start(&mut self) {
        self.journal.borrow_mut().push(format!("{}:start", self.name));
    }

    fn on_update(&mut self) {
        self.journal.borrow_mut().push(format!("{}:update", self.name));
    }
}

/// A behavior whose start hook leaves a mark.
struct Marked {
    started: bool,
    updates: u8,
}

impl ScriptBehaviorCore for Marked {
    fn on_start(&mut self) {
        self.started = true;
    }

    fn on_update(&mut self) {
        self.updates += 1;
    }
}

#[test]
fn new_registry_is_empty() {
    let registry: BehaviorRegistry<Counter> = BehaviorRegistry::new();
    assert_eq!(registry.len(), 0);
    assert!(registry.is_empty());
    assert!(registry.last().is_none());
    assert!(registry.get(0).is_none());
}

#[test]
fn update_of_empty_registry_does_nothing() {
    let mut registry: BehaviorRegistry<Counter> = BehaviorRegistry::new();
    registry.update_all();
    update_scripts(&mut registry);
    assert_eq!(registry.len(), 0);
}

#[test]
fn register_starts_before_the_behavior_is_visible() {
    let mut registry: BehaviorRegistry<Marked> = BehaviorRegistry::new();
    let handle = registry.register(Marked { started: false, updates: 0 });
    assert!(handle.started);
    assert_eq!(handle.updates, 0);
    assert_eq!(registry.len(), 1);
    assert!(!registry.is_empty());
    assert!(registry.get(0).unwrap().started);
}

#[test]
fn register_hands_back_the_last_behavior() {
    let mut registry: BehaviorRegistry<Counter> = BehaviorRegistry::new();
    registry.register(Counter { counter: 10 });
    let handle = registry.register(Counter { counter: 20 });
    assert_eq!(handle.counter, 20);
    assert_eq!(registry.len(), 2);
    assert_eq!(registry.last().unwrap().counter, 20);
    assert_eq!(registry.get(0).unwrap().counter, 10);
    assert_eq!(registry.get(1).unwrap().counter, 20);
    assert!(registry.get(2).is_none());
}

#[test]
fn start_runs_once_and_before_every_update() {
    let journal = Rc::new(RefCell::new(Vec::new()));
    let mut registry: BehaviorRegistry<Recorder> = BehaviorRegistry::new();
    registry.register(Recorder::new("a", &journal));
    assert_eq!(*journal.borrow(), vec!["a:start".to_string()]);
    registry.update_all();
    registry.update_all();
    let written = journal.borrow().clone();
    assert_eq!(written, vec!["a:start", "a:update", "a:update"]);
    assert_eq!(written.iter().filter(|line| line.as_str() == "a:start").count(), 1);
}

#[test]
fn a_late_behavior_is_started_between_passes() {
    let journal = Rc::new(RefCell::new(Vec::new()));
    let mut registry: BehaviorRegistry<Recorder> = BehaviorRegistry::new();
    registry.register(Recorder::new("a", &journal));
    registry.update_all();
    registry.register(Recorder::new("b", &journal));
    registry.update_all();
    assert_eq!(
        *journal.borrow(),
        vec!["a:start", "a:update", "b:start", "a:update", "b:update"]
    );
}

#[test]
fn updates_follow_the_order_of_registration() {
    let journal = Rc::new(RefCell::new(Vec::new()));
    let mut registry: BehaviorRegistry<Recorder> = BehaviorRegistry::new();
    registry.register(Recorder::new("b1", &journal));
    registry.register(Recorder::new("b2", &journal));
    journal.borrow_mut().clear();
    registry.update_all();
    assert_eq!(*journal.borrow(), vec!["b1:update", "b2:update"]);
    update_scripts(&mut registry);
    assert_eq!(
        *journal.borrow(),
        vec!["b1:update", "b2:update", "b1:update", "b2:update"]
    );
}

#[test]
fn n_passes_count_n() {
    for passes in 0u32..=17 {
        let mut registry: BehaviorRegistry<Counter> = BehaviorRegistry::new();
        registry.register(Counter { counter: 0 });
        for _ in 0..passes {
            registry.update_all();
        }
        assert_eq!(registry.get(0).unwrap().counter, passes);
        assert_eq!(registry.len(), 1);
    }
}

#[test]
fn three_passes_count_three() {
    let mut registry: BehaviorRegistry<Counter> = BehaviorRegistry::new();
    let handle = registry.register(Counter { counter: 0 });
    assert_eq!(handle.counter, 0);
    registry.update_all();
    registry.update_all();
    registry.update_all();
    assert_eq!(registry.last().unwrap().counter, 3);
}

#[test]
fn every_behavior_is_updated_once_in_a_pass() {
    let mut registry: BehaviorRegistry<Counter> = BehaviorRegistry::new();
    registry.register(Counter { counter: 0 });
    registry.register(Counter { counter: 100 });
    registry.register(Counter { counter: 7 });
    update_scripts(&mut registry);
    assert_eq!(registry.get(0).unwrap().counter, 1);
    assert_eq!(registry.get(1).unwrap().counter, 101);
    assert_eq!(registry.get(2).unwrap().counter, 8);
    assert_eq!(registry.len(), 3);
}

#[test]
fn the_counter_counts_its_updates() {
    let mut registry: BehaviorRegistry<Ticks> = BehaviorRegistry::new();
    let handle = registry.register(Ticks::new(0));
    assert_eq!(handle.counter, 0);
    registry.update_all();
    registry.update_all();
    update_scripts(&mut registry);
    assert_eq!(registry.last().unwrap().counter, 3);
}

#[test]
fn the_counter_stops_at_the_largest_value() {
    let mut registry: BehaviorRegistry<Ticks> = BehaviorRegistry::new();
    registry.register(Ticks::new(u64::MAX - 1));
    registry.update_all();
    assert_eq!(registry.last().unwrap().counter, u64::MAX);
    registry.update_all();
    assert_eq!(registry.last().unwrap().counter, u64::MAX);
}

#[test]
fn the_counter_is_not_touched_by_its_start() {
    let mut counter = Ticks::new(17);
    counter.on_start();
    assert_eq!(counter.counter, 17);
    counter.on_update();
    assert_eq!(counter.counter, 18);
}
