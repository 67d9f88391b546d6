use qrcode_detector::ingress::{image_from_base64, is_image_field, IngressError};
use qrcode_detector::pipeline::{ImageSize, Pipeline};
use qrcode_detector::session::{
    DetectFailure, Fault, Notice, ReplyKind, WsAction, WsEvent, WsRequest, WsSession,
};

fn request(kind: &str, image: Option<&str>) -> WsEvent {
    WsEvent::Text(WsRequest { msg_type: kind.to_string(), image: image.map(|s| s.to_string()) })
}

#[test]
fn base64_image_is_decoded() {
    assert_eq!(image_from_base64(Some("aGVsbG8=")), Ok(b"hello".to_vec()));
    assert_eq!(image_from_base64(None), Err(IngressError::MissingImage));
    assert!(matches!(image_from_base64(Some("not base64!")), Err(IngressError::InvalidBase64(_))));
}

#[test]
fn upload_field_names() {
    assert!(is_image_field("image"));
    assert!(is_image_field("file"));
    assert!(!is_image_field("images"));
    assert!(!is_image_field(""));
}

#[test]
fn detect_then_close() {
    let (mut s, hello) = WsSession::connect();
    assert_eq!(hello.kind, ReplyKind::Connected);
    assert!(hello.success);
    let bytes = match s.on_event(request("detect", Some("aGVsbG8="))) {
        WsAction::Detect(b) => b,
        other => panic!("expected a detection, got {:?}", other),
    };
    assert_eq!(bytes, b"hello".to_vec());
    assert!(s.awaiting_detection());
    let mut p = Pipeline::start();
    assert!(p.decoded(5, Some(ImageSize { width: 2, height: 2 })).is_none());
    p.acquired(5, 6);
    let result = p.detected(6, 7, 8, &vec![], &vec![]);
    match s.on_detection(Ok(result)) {
        WsAction::Send(r) => {
            assert_eq!(r.kind, ReplyKind::DetectionResult);
            assert!(r.success);
            assert_eq!(r.result.unwrap().count(), 0);
        }
        other => panic!("expected a reply, got {:?}", other),
    }
    match s.on_event(request("close", None)) {
        WsAction::SendAndClose(r) => {
            assert_eq!(r.kind, ReplyKind::Close);
            assert_eq!(r.notice, Notice::Closing);
        }
        other => panic!("expected the closing reply, got {:?}", other),
    }
    assert!(!s.open());
    assert!(matches!(s.on_event(request("detect", Some("aGVsbG8="))), WsAction::End));
}

#[test]
fn unknown_type_keeps_connection() {
    let (mut s, _) = WsSession::connect();
    match s.on_event(request("hello", None)) {
        WsAction::Send(r) => {
            assert_eq!(r.kind, ReplyKind::Error);
            assert_eq!(r.notice, Notice::UnknownType("hello".to_string()));
            assert!(matches!(r.error, Some(Fault::UnsupportedType)));
        }
        other => panic!("expected an error reply, got {:?}", other),
    }
    assert!(s.open());
}

#[test]
fn detect_without_image() {
    let (mut s, _) = WsSession::connect();
    match s.on_event(request("detect", None)) {
        WsAction::Send(r) => {
            assert_eq!(r.notice, Notice::MissingImage);
            assert!(matches!(r.error, Some(Fault::NoImageField)));
        }
        other => panic!("expected an error reply, got {:?}", other),
    }
    assert!(s.open());
}

#[test]
fn detect_with_bad_base64() {
    let (mut s, _) = WsSession::connect();
    match s.on_event(request("detect", Some("%%%"))) {
        WsAction::Send(r) => {
            assert_eq!(r.notice, Notice::DetectionFailed);
            assert!(matches!(r.error, Some(Fault::Detection(DetectFailure::InvalidBase64(_)))));
        }
        other => panic!("expected an error reply, got {:?}", other),
    }
    assert!(!s.awaiting_detection());
}

#[test]
fn binary_failure_and_transport_events() {
    let (mut s, _) = WsSession::connect();
    assert!(matches!(s.on_event(WsEvent::Binary(vec![1, 2, 3])), WsAction::Detect(b) if b == vec![1, 2, 3]));
    match s.on_detection(Err(DetectFailure::DetectorFailed("boom".to_string()))) {
        WsAction::Send(r) => {
            assert_eq!(r.kind, ReplyKind::Error);
            assert_eq!(r.notice, Notice::BinaryDetectionFailed);
        }
        other => panic!("expected an error reply, got {:?}", other),
    }
    assert!(matches!(s.on_event(WsEvent::Ping(vec![9])), WsAction::Pong(b) if b == vec![9]));
    assert!(matches!(s.on_event(WsEvent::Pong), WsAction::Wait));
    match s.on_event(WsEvent::Unparsable("bad json".to_string())) {
        WsAction::Send(r) => assert_eq!(r.notice, Notice::InvalidRequest),
        other => panic!("expected an error reply, got {:?}", other),
    }
    assert!(matches!(s.on_event(WsEvent::Closed), WsAction::End));
    assert!(!s.open());
}

#[test]
fn send_failure_ends_session() {
    let (mut s, _) = WsSession::connect();
    s.on_send_failed();
    assert!(!s.open());
    assert!(matches!(s.on_event(WsEvent::Pong), WsAction::End));
}
