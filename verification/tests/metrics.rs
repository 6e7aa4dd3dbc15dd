use hamerkop::metrics::{claim_action, force_action, settled_state, wait_action, LazyAction, LAZY_INIT, LAZY_INIT_IN_PROGRESS, LAZY_POISONED, LAZY_UNINIT};
use hamerkop::metrics::{Counter, Gauge, LazyCell};

#[test]
fn counter_counts_and_wraps() {
    let mut c = Counter::new();
    c.increment();
    c.add(3);
    assert_eq!(c.value(), 4);
    assert_eq!(c.set(10), 4);
    assert_eq!(c.reset(), 10);
    assert_eq!(c.value(), 0);
    let mut w = Counter::with_value(u64::MAX);
    w.increment();
    assert_eq!(w.value(), 0);
}

#[test]
fn gauge_goes_up_and_down() {
    let mut g = Gauge::new();
    g.add(4);
    g.decrement();
    g.sub(5);
    g.increment();
    assert_eq!(g.value(), -1);
    assert_eq!(g.set(7), -1);
    assert_eq!(g.reset(), 7);
    let mut m = Gauge::new();
    m.set(i64::MIN);
    m.decrement();
    assert_eq!(m.value(), i64::MAX);
}

#[test]
fn lazy_cell_initialises_once() {
    let mut cell = LazyCell::new(|| 41 + 1);
    assert!(!cell.is_enabled());
    assert!(cell.get().is_none());
    assert!(cell.get_mut().is_none());
    assert_eq!(*cell.force_mut(), 42);
    assert!(cell.is_enabled());
    *cell.force_mut() += 1;
    assert_eq!(cell.get(), Some(&43));
    assert_eq!(cell.into_inner(), Some(43));
}

#[test]
fn lazy_cell_uninit_into_inner() {
    let cell = LazyCell::new(|| 1u8);
    assert_eq!(cell.into_inner(), None::<u8>);
}

#[test]
fn shared_lazy_decisions() {
    assert!(force_action(LAZY_INIT) == LazyAction::Ready);
    assert!(force_action(LAZY_UNINIT) == LazyAction::Claim);
    assert!(force_action(LAZY_INIT_IN_PROGRESS) == LazyAction::Claim);
    assert!(force_action(LAZY_POISONED) == LazyAction::Poisoned);
    assert!(claim_action(Ok(LAZY_UNINIT)) == LazyAction::Initialise);
    assert!(claim_action(Err(LAZY_INIT)) == LazyAction::Ready);
    assert!(claim_action(Err(LAZY_INIT_IN_PROGRESS)) == LazyAction::Wait);
    assert!(claim_action(Err(LAZY_POISONED)) == LazyAction::Poisoned);
    assert!(wait_action(LAZY_INIT_IN_PROGRESS) == LazyAction::Wait);
    assert!(wait_action(LAZY_INIT) == LazyAction::Ready);
    assert_eq!(settled_state(true), LAZY_INIT);
    assert_eq!(settled_state(false), LAZY_POISONED);
}

#[test]
fn gauge_up_and_down_wraps_back() {
    let mut g = Gauge::new();
    g.set(i64::MAX);
    g.increment();
    assert_eq!(g.value(), i64::MIN);
    g.decrement();
    assert_eq!(g.value(), i64::MAX);
}

#[test]
fn counter_add_wraps() {
    let mut c = Counter::with_value(u64::MAX - 1);
    c.add(3);
    assert_eq!(c.value(), 1);
    assert_eq!(c.reset(), 1);
    assert_eq!(c.value(), 0);
}
