use air::arbiter::BusArbiter;

#[test]
fn a_free_bus_grants_a_guard() {
    let mut a = BusArbiter::new();
    assert!(a.try_acquire().is_some());
}

#[test]
fn no_second_guard_while_one_is_live() {
    let mut a = BusArbiter::new();
    let guard = a.try_acquire().expect("free bus grants");
    // The other session attempts a transaction mid-way: refused.
    assert!(a.try_acquire().is_none());
    assert!(a.try_acquire().is_none());
    a.release(guard);
    // Released: the next attempt is granted again.
    assert!(a.try_acquire().is_some());
}

#[test]
fn alternating_sessions_interleave_without_overlap() {
    // Two sessions, each running acquire-transact-release cycles in every
    // interleaving a cooperative scheduler can produce at this granularity:
    // whenever one session holds the bus, the other's attempt must fail.
    let mut a = BusArbiter::new();
    for _ in 0..10 {
        let first = a.try_acquire().expect("bus is free");
        assert!(a.try_acquire().is_none());
        a.release(first);

        let second = a.try_acquire().expect("bus is free again");
        assert!(a.try_acquire().is_none());
        a.release(second);
    }
    assert!(a.try_acquire().is_some());
}
