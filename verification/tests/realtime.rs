use stt_runtime::realtime::{ClientEvent, ServerMessage, Session, Step};

#[test]
fn a_session_starts_streams_and_completes() {
    let mut s = Session::new();
    assert!(matches!(s.on_event(ClientEvent::Audio), Step::Reply(ServerMessage::Error { code: "NO_SESSION", .. })));
    let step = s.on_event(ClientEvent::Start { s16le: true, sample_rate: 16000, language: None });
    assert!(matches!(step, Step::QuerySelectedModel { sample_rate: 16000, language: None }));
    assert!(matches!(s.on_selected_model(Some(7), 16000, None), Step::CreateContext { model: 7, .. }));
    assert!(matches!(s.on_context(Ok((3, "sess".to_string()))), ServerMessage::Started { .. }));
    assert!(matches!(s.on_event(ClientEvent::Audio), Step::Feed { context: 3 }));
    let partials = s.on_fed(Ok(vec!["hel".to_string(), "hello".to_string()]));
    assert_eq!(partials.len(), 2);
    match s.on_event(ClientEvent::Complete) {
        Step::Finalize { context, session_id } => {
            assert_eq!(context, 3);
            let out = s.on_finalized(Ok("hello world".to_string()), session_id);
            assert!(matches!(&out[1], ServerMessage::Completed { session_id } if session_id == "sess"));
        }
        other => panic!("{other:?}"),
    }
    assert!(matches!(s.on_event(ClientEvent::Complete), Step::Continue));
    assert_eq!(s.on_end(), None);
}

#[test]
fn bad_input_is_answered_not_fatal() {
    let mut s = Session::new();
    match s.on_event(ClientEvent::Unparseable("expected value".to_string())) {
        Step::Reply(ServerMessage::Error { code, message }) => {
            assert_eq!(code, "INVALID_MESSAGE");
            assert_eq!(message, "invalid message format: expected value");
        }
        other => panic!("{other:?}"),
    }
    assert!(matches!(
        s.on_event(ClientEvent::Start { s16le: false, sample_rate: 44100, language: None }),
        Step::Reply(ServerMessage::Error { code: "UNSUPPORTED_FORMAT", .. })
    ));
    assert!(matches!(s.on_selected_model(None, 16000, None), Step::Reply(ServerMessage::Error { code: "NO_MODEL_SELECTED", .. })));
    assert!(matches!(s.on_context(Err("x".to_string())), ServerMessage::Error { code: "CONTEXT_ERROR", .. }));
    assert!(matches!(s.on_event(ClientEvent::Close), Step::End));
}

#[test]
fn cancel_and_disconnect_release_the_context() {
    let mut s = Session::new();
    s.on_context(Ok((9, "a".to_string())));
    assert!(matches!(s.on_event(ClientEvent::Cancel), Step::Cancel { context: 9 }));
    s.on_context(Ok((10, "b".to_string())));
    assert!(matches!(s.on_event(ClientEvent::Failed), Step::End));
    assert_eq!(s.on_end(), Some(10));
}
