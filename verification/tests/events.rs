use safex::protocol::{Reply, Request};
use safex::xlib::{ControlFlow, EventLoop, Expose, WindowEvent};

/// Runs a loop over a script of event tags with a handler, as a driver
/// would, and hands back how many events were waited for.
fn run(tags: &[i32], mut handler: impl FnMut(WindowEvent, &mut ControlFlow)) -> usize {
    let mut event_loop = EventLoop::new();
    let mut waited = 0;
    while let Some(request) = event_loop.request() {
        assert_eq!(request, Request::NextEvent);
        if waited == tags.len() {
            break;
        }
        let reply = Reply::Event(tags[waited]);
        waited += 1;
        if let Some(event) = event_loop.dispatch(reply) {
            let mut flow = ControlFlow::Continue;
            handler(event, &mut flow);
            event_loop.resume(flow);
        }
    }
    waited
}

#[test]
fn exit_in_the_handler_ends_the_loop_after_that_dispatch() {
    let mut calls = 0;
    let waited = run(&[Expose, Expose, Expose], |_, flow| {
        calls += 1;
        *flow = ControlFlow::Exit;
    });
    assert_eq!(waited, 1);
    assert_eq!(calls, 1);
}

#[test]
fn exit_on_the_second_exposure() {
    let mut calls = 0;
    let waited = run(&[2, Expose, 4, Expose, Expose], |event, flow| {
        assert_eq!(event, WindowEvent::Expose);
        calls += 1;
        if calls == 2 {
            *flow = ControlFlow::Exit;
        }
    });
    assert_eq!(waited, 4);
    assert_eq!(calls, 2);
}

#[test]
fn other_events_never_reach_the_handler() {
    let mut calls = 0;
    let waited = run(&[2, 3, 4, 22, 0, -1], |_, _| calls += 1);
    assert_eq!(waited, 6);
    assert_eq!(calls, 0);
}

#[test]
fn token_starts_as_continue_for_every_event() {
    let mut seen = Vec::new();
    run(&[Expose, Expose], |_, flow| seen.push(*flow));
    assert_eq!(seen, vec![ControlFlow::Continue, ControlFlow::Continue]);
}

#[test]
fn loop_that_was_left_asks_nothing_and_dispatches_nothing() {
    let mut event_loop = EventLoop::new();
    assert!(!event_loop.has_exited());
    assert_eq!(event_loop.dispatch(Reply::Event(Expose)), Some(WindowEvent::Expose));
    event_loop.resume(ControlFlow::Exit);
    assert!(event_loop.has_exited());
    assert_eq!(event_loop.request(), None);
    assert_eq!(event_loop.dispatch(Reply::Event(Expose)), None);
    event_loop.resume(ControlFlow::Continue);
    assert!(event_loop.has_exited());
    assert_eq!(event_loop.request(), None);
}

#[test]
fn continue_keeps_the_loop_waiting() {
    let mut event_loop = EventLoop::new();
    event_loop.resume(ControlFlow::Continue);
    assert_eq!(event_loop.request(), Some(Request::NextEvent));
}

#[test]
fn a_reply_that_is_no_event_is_dropped() {
    let event_loop = EventLoop::new();
    assert_eq!(event_loop.dispatch(Reply::Done), None);
    assert_eq!(event_loop.dispatch(Reply::Id(12)), None);
}

#[test]
fn decode_knows_exposure_only() {
    assert_eq!(WindowEvent::decode(12), Some(WindowEvent::Expose));
    assert_eq!(WindowEvent::decode(11), None);
    assert_eq!(WindowEvent::decode(13), None);
    assert_eq!(WindowEvent::decode(0), None);
}
