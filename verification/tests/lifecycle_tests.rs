use guest_bridge::lifecycle::step;
use guest_bridge::lifecycle::update_permitted;
use guest_bridge::lifecycle::Event;
use guest_bridge::lifecycle::Phase;

#[test]
fn a_successful_load_reaches_ready() {
    let mut phase = Phase::Pending;
    phase = step(phase, Event::Resolved);
    assert_eq!(phase, Phase::Compiled);
    phase = step(phase, Event::BuildStarted);
    assert_eq!(phase, Phase::Building);
    phase = step(phase, Event::BuildReturned);
    assert_eq!(phase, Phase::Ready);
    assert!(update_permitted(phase));
}

#[test]
fn a_trapping_build_fails_the_load() {
    let phase = step(Phase::Building, Event::BuildTrapped);
    assert_eq!(phase, Phase::Failed);
    assert!(!update_permitted(phase));
    // Failed absorbs later ticks.
    assert_eq!(step(phase, Event::TickStarted), Phase::Failed);
}

#[test]
fn a_trapping_tick_is_recoverable() {
    let ticking = step(Phase::Ready, Event::TickStarted);
    assert_eq!(ticking, Phase::Ticking);
    let after_trap = step(ticking, Event::TickTrapped);
    assert_eq!(after_trap, Phase::Ready);
    assert!(update_permitted(after_trap));
}

#[test]
fn ticks_before_resolution_are_noops() {
    let mut phase = Phase::Pending;
    for _ in 0..5 {
        assert!(!update_permitted(phase));
        phase = step(phase, Event::TickStarted);
        assert_eq!(phase, Phase::Pending);
    }
    // Resolution still works after any number of early ticks.
    assert_eq!(step(phase, Event::Resolved), Phase::Compiled);
}

#[test]
fn disposal_is_terminal() {
    let disposed = step(Phase::Ready, Event::Disposed);
    assert_eq!(disposed, Phase::Disposed);
    assert_eq!(step(disposed, Event::Resolved), Phase::Disposed);
    assert_eq!(step(disposed, Event::TickStarted), Phase::Disposed);
    assert!(!update_permitted(disposed));
}
