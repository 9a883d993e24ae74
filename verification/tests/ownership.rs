use dual_context::error::Error;
use dual_context::ownership::{ContextId, ContextOwnership, ContextState};

#[test]
fn new_manager_is_idle() {
    let m = ContextOwnership::new();
    assert_eq!(m.state(ContextId::Presentation), ContextState::NotCurrent);
    assert_eq!(m.state(ContextId::Compute), ContextState::NotCurrent);
    assert_eq!(m.current(), None);
}

#[test]
fn acquire_makes_current() {
    let mut m = ContextOwnership::new();
    let h = m.acquire(ContextId::Compute).unwrap();
    assert_eq!(h.context(), ContextId::Compute);
    assert_eq!(m.state(ContextId::Compute), ContextState::Current);
    assert_eq!(m.state(ContextId::Presentation), ContextState::NotCurrent);
    assert_eq!(m.current(), Some(ContextId::Compute));
}

#[test]
fn double_acquire_is_refused() {
    let mut m = ContextOwnership::new();
    let _h = m.acquire(ContextId::Presentation).unwrap();
    assert_eq!(m.acquire(ContextId::Presentation).unwrap_err(), Error::DoubleAcquire);
    assert_eq!(m.state(ContextId::Presentation), ContextState::Current);
    assert_eq!(m.state(ContextId::Compute), ContextState::NotCurrent);
}

#[test]
fn acquire_while_other_is_held_is_refused() {
    let mut m = ContextOwnership::new();
    let _h = m.acquire(ContextId::Presentation).unwrap();
    assert_eq!(m.acquire(ContextId::Compute).unwrap_err(), Error::StuckContext);
    assert_eq!(m.state(ContextId::Compute), ContextState::NotCurrent);
    assert_eq!(m.current(), Some(ContextId::Presentation));
}

#[test]
fn round_trip_restores_state() {
    let mut m = ContextOwnership::new();
    for which in [ContextId::Presentation, ContextId::Compute] {
        let before = (m.state(ContextId::Presentation), m.state(ContextId::Compute));
        let h = m.acquire(which).unwrap();
        assert_eq!(m.release(which, h), Ok(()));
        let after = (m.state(ContextId::Presentation), m.state(ContextId::Compute));
        assert_eq!(before, after);
        assert_eq!(m.current(), None);
    }
}

#[test]
fn release_with_wrong_handle_is_refused() {
    let mut m = ContextOwnership::new();
    let h = m.acquire(ContextId::Compute).unwrap();
    assert_eq!(m.release(ContextId::Presentation, h), Err(Error::StuckContext));
    assert_eq!(m.state(ContextId::Compute), ContextState::Current);
    assert_eq!(m.state(ContextId::Presentation), ContextState::NotCurrent);
}

#[test]
fn release_of_idle_context_is_refused() {
    let mut a = ContextOwnership::new();
    let mut b = ContextOwnership::new();
    let h = a.acquire(ContextId::Compute).unwrap();
    assert_eq!(b.release(ContextId::Compute, h), Err(Error::StuckContext));
    assert_eq!(b.current(), None);
    assert_eq!(a.current(), Some(ContextId::Compute));
}

#[test]
fn never_two_current() {
    let order = [
        ContextId::Presentation,
        ContextId::Compute,
        ContextId::Compute,
        ContextId::Presentation,
    ];
    let mut m = ContextOwnership::new();
    let mut held = Vec::new();
    for (i, which) in order.iter().enumerate() {
        if let Ok(h) = m.acquire(*which) {
            held.push(h);
        }
        let both = m.state(ContextId::Presentation) == ContextState::Current
            && m.state(ContextId::Compute) == ContextState::Current;
        assert!(!both);
        if i % 2 == 1 {
            if let Some(h) = held.pop() {
                let c = h.context();
                assert_eq!(m.release(c, h), Ok(()));
            }
        }
        let both = m.state(ContextId::Presentation) == ContextState::Current
            && m.state(ContextId::Compute) == ContextState::Current;
        assert!(!both);
    }
}

#[test]
fn other_context() {
    assert_eq!(ContextId::Presentation.other(), ContextId::Compute);
    assert_eq!(ContextId::Compute.other(), ContextId::Presentation);
}

#[test]
fn error_classes() {
    assert!(Error::NoDisplayBackend.at_startup());
    assert!(Error::NoCompatibleConfig.at_startup());
    assert!(Error::ContextCreationFailed.at_startup());
    assert!(!Error::SwapFailed.at_startup());
    assert!(Error::DoubleAcquire.is_protocol_violation());
    assert!(Error::StuckContext.is_protocol_violation());
    assert!(!Error::FramebufferIncomplete.is_protocol_violation());
    assert!(!Error::SwapFailed.is_protocol_violation());
}
