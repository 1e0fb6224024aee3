use rspc::middleware_poll::{poll_step, LayerOutput, MwStage, PollAction, PollEvent};

type Event = PollEvent<(u8, &'static str), char, i32, Vec<i32>, String>;
type Action = PollAction<(u8, &'static str), char, i32, Vec<i32>, String>;

#[test]
fn layer_without_response_handler() {
    let (s, a): (MwStage<char>, Action) = poll_step(MwStage::Middleware, Event::Pending);
    assert!(matches!(s, MwStage::Middleware));
    assert!(matches!(a, PollAction::Wait));
    let (s, a) = poll_step(s, Event::MiddlewareReady { call: (7, "ctx"), resp: None });
    assert!(matches!(s, MwStage::Next { resp: None }));
    assert!(matches!(a, PollAction::CallNext((7, "ctx"))));
    let (s, a) = poll_step(s, Event::NextReady(Ok(LayerOutput::Stream(vec![1, 2]))));
    assert!(matches!(s, MwStage::Done));
    match a {
        PollAction::Return(Ok(LayerOutput::Stream(v))) => assert_eq!(v, vec![1, 2]),
        other => panic!("unexpected {:?}", other),
    }
}

#[test]
fn failed_next_layer_is_returned_as_it_is() {
    let (s, a) = poll_step(MwStage::<char>::Next { resp: None }, Event::NextReady(Err("boom".to_string())));
    assert!(matches!(s, MwStage::Done));
    match a {
        PollAction::Return(Err(e)) => assert_eq!(e, "boom"),
        other => panic!("unexpected {:?}", other),
    }
}

#[test]
fn layer_with_response_handler() {
    let (s, _) = poll_step(MwStage::Middleware, Event::MiddlewareReady { call: (1, "c"), resp: Some('h') });
    let (s, a) = poll_step(s, Event::Pending);
    assert!(matches!(s, MwStage::Next { resp: Some('h') }));
    assert!(matches!(a, PollAction::Wait));
    let (s, a) = poll_step(s, Event::NextReady(Ok(LayerOutput::Value(41))));
    assert!(matches!(s, MwStage::Resp));
    assert!(matches!(a, PollAction::CallResp { handler: 'h', value: 41 }));
    let (s, a) = poll_step(s, Event::RespReady(42));
    assert!(matches!(s, MwStage::Done));
    assert!(matches!(a, PollAction::Return(Ok(LayerOutput::Value(42)))));
}

#[test]
fn test_context_switching() {
    // Each middleware hands the next layer a new context built from the old one.
    type Switch = PollEvent<((), i32), char, i32, Vec<i32>, String>;
    let (s, a) = poll_step(MwStage::Middleware, Switch::MiddlewareReady { call: ((), 42), resp: None });
    assert!(matches!(s, MwStage::Next { resp: None }));
    match a {
        PollAction::CallNext(ctx) => {
            let ((), n) = ctx;
            assert_eq!(n, 42);
        }
        other => panic!("unexpected {:?}", other),
    }
}
