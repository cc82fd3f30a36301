use chat_relay::handler::{conclude, prepare, response_status, RelayError, UpstreamEvent};
use chat_relay::message::{liveness_text, InboundMessage};
use chat_relay::upstream::{
    build_upstream_request, extract_reply, fallback_text, persona_text, upstream_url, Candidate,
    Part, Turn, UpstreamResponse, UPSTREAM_TIMEOUT_SECS,
};

fn one_candidate_response(text: &str) -> UpstreamResponse {
    UpstreamResponse {
        candidates: vec![Candidate {
            content: Turn { parts: vec![Part { text: text.to_string() }] },
        }],
    }
}

#[test]
fn successful_reply_is_relayed_verbatim() {
    let inbound = InboundMessage { message: "hello".to_string() };
    let key = Some("test-key".to_string());
    let req = prepare(&key, &inbound).expect("a configured credential must yield a request");
    assert_eq!(req.contents.len(), 2);

    let outcome = conclude(UpstreamEvent::Reply(one_candidate_response("hi there")));
    assert_eq!(response_status(&outcome), 200);
    assert_eq!(outcome.unwrap().response, "hi there");
}

#[test]
fn empty_candidate_list_degrades_to_fallback() {
    let outcome = conclude(UpstreamEvent::Reply(UpstreamResponse { candidates: vec![] }));
    assert_eq!(response_status(&outcome), 200);
    assert_eq!(outcome.unwrap().response, "extraction failed");
}

#[test]
fn missing_credential_refuses_without_upstream_call() {
    let inbound = InboundMessage { message: "hello".to_string() };
    let refused = prepare(&None, &inbound);
    match refused {
        Ok(_) => panic!("no request may exist without a credential"),
        Err(e) => {
            assert!(matches!(e, RelayError::ConfigMissing));
            assert_eq!(e.status(), 500);
        }
    }
}

#[test]
fn timed_out_call_maps_to_408() {
    let outcome = conclude(UpstreamEvent::TimedOut);
    assert_eq!(response_status(&outcome), 408);
    match outcome {
        Err(e) => {
            assert!(matches!(e, RelayError::UpstreamTimeout));
            assert_eq!(
                e.body(),
                "AI 코치 응답 시간이 초과되었습니다. 잠시 후 다시 시도해 주세요."
            );
        }
        Ok(_) => panic!("a timeout never succeeds"),
    }
}

#[test]
fn transport_failure_maps_to_500_with_diagnostic() {
    let outcome = conclude(UpstreamEvent::TransportFailed("connection refused".to_string()));
    assert_eq!(response_status(&outcome), 500);
    match outcome {
        Err(e) => assert_eq!(e.body(), "AI 통신 실패: connection refused"),
        Ok(_) => panic!("a transport failure never succeeds"),
    }
}

#[test]
fn unparseable_body_maps_to_502() {
    let outcome = conclude(UpstreamEvent::Unparseable);
    assert_eq!(response_status(&outcome), 502);
    match outcome {
        Err(e) => {
            assert!(matches!(e, RelayError::UpstreamUnparseable));
            assert_eq!(e.body(), "AI 응답을 처리하는 데 실패했습니다.");
        }
        Ok(_) => panic!("an unparseable body never succeeds"),
    }
}

#[test]
fn request_holds_persona_then_message_verbatim() {
    let message = "héllo \"quoted\" \\ 줄바꿈\n\tend".to_string();
    let req = build_upstream_request(&message);
    assert_eq!(req.contents.len(), 2);
    assert_eq!(req.contents[0].parts.len(), 1);
    assert_eq!(req.contents[0].parts[0].text, persona_text());
    assert_eq!(req.contents[1].parts.len(), 1);
    assert_eq!(req.contents[1].parts[0].text, message);
}

#[test]
fn identical_messages_build_identical_requests() {
    let message = "twice the same".to_string();
    let first = build_upstream_request(&message);
    let second = build_upstream_request(&message);
    assert_eq!(first.contents.len(), second.contents.len());
    for (a, b) in first.contents.iter().zip(second.contents.iter()) {
        assert_eq!(a.parts.len(), b.parts.len());
        for (pa, pb) in a.parts.iter().zip(b.parts.iter()) {
            assert_eq!(pa.text, pb.text);
        }
    }
}

#[test]
fn candidate_without_parts_degrades_to_fallback() {
    let resp = UpstreamResponse {
        candidates: vec![Candidate { content: Turn { parts: vec![] } }],
    };
    assert_eq!(extract_reply(&resp), fallback_text());
}

#[test]
fn extraction_takes_first_part_of_first_candidate() {
    let resp = UpstreamResponse {
        candidates: vec![
            Candidate {
                content: Turn {
                    parts: vec![
                        Part { text: "first".to_string() },
                        Part { text: "second".to_string() },
                    ],
                },
            },
            Candidate { content: Turn { parts: vec![Part { text: "third".to_string() }] } },
        ],
    };
    assert_eq!(extract_reply(&resp), "first");
}

#[test]
fn url_embeds_credential_after_fixed_endpoint() {
    assert_eq!(
        upstream_url("test-key"),
        "https://generativelanguage.googleapis.com/v1beta/models/gemini-2.5-flash-preview-05-20:generateContent?key=test-key"
    );
}

#[test]
fn outbound_call_bound_is_45_seconds() {
    assert_eq!(UPSTREAM_TIMEOUT_SECS, 45);
}

#[test]
fn liveness_text_is_fixed() {
    assert_eq!(liveness_text(), "Pink Code Rust Server is running and ready for chat!");
}

#[test]
fn missing_credential_body_is_fixed() {
    assert_eq!(
        RelayError::ConfigMissing.body(),
        "API 키가 설정되지 않았습니다."
    );
}
