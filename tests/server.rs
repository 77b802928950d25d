use rex::server::{LoopAction, LoopEvent, ServerLoop};
use rex::Scheme;

#[test]
fn accepted_connection_sees_latest_publish() {
    let mut l = ServerLoop::new(1u32, false);
    assert!(matches!(l.step(LoopEvent::<u32, &str>::Updated(2)), LoopAction::KeepWaiting));
    assert!(matches!(l.step(LoopEvent::<u32, &str>::Updated(3)), LoopAction::KeepWaiting));
    match l.step(LoopEvent::Accepted("c1")) {
        LoopAction::Serve(c) => assert_eq!(c, "c1"),
        LoopAction::KeepWaiting => panic!("expected a hand-off"),
    }
    assert_eq!(*l.current(), 3);
}

#[test]
fn open_connection_keeps_its_handle_after_publish() {
    let mut l = ServerLoop::new(1u32, false);
    let first = match l.step(LoopEvent::Accepted("c1")) {
        LoopAction::Serve(_) => *l.current(),
        LoopAction::KeepWaiting => panic!("expected a hand-off"),
    };
    l.step(LoopEvent::<u32, &str>::Updated(2));
    let second = match l.step(LoopEvent::Accepted("c2")) {
        LoopAction::Serve(_) => *l.current(),
        LoopAction::KeepWaiting => panic!("expected a hand-off"),
    };
    assert_eq!(first, 1);
    assert_eq!(second, 2);
}

#[test]
fn scheme_follows_tls() {
    assert_eq!(ServerLoop::new(0u8, true).scheme(), Scheme::Https);
    assert_eq!(ServerLoop::new(0u8, false).scheme(), Scheme::Http);
    assert_eq!(rex::scheme_for(true), Scheme::Https);
    assert_eq!(rex::scheme_for(false), Scheme::Http);
}
