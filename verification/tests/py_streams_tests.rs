use rsocket_ffi::payload::Payload;
use rsocket_ffi::py_streams::{
    collect_until_error, list_reply, one_way_reply, request_response_reply, stream_plan,
    GeneratorEvent, GeneratorPump, HandlerReply, ListReply, StreamConsumer, StreamHandlerResult,
    StreamKind, StreamPlan, STREAM_ITERATION_LIMIT,
};

fn text_payload(s: &str) -> Payload {
    Payload::builder().set_data_utf8(s).build()
}

#[test]
fn consumer_counts_items_and_succeeds() {
    let mut c = StreamConsumer::new(StreamKind::Stream);
    assert_eq!(c.on_item(), 1);
    assert_eq!(c.on_item(), 2);
    c.on_end();
    let report = c.completion();
    assert_eq!(report.count, 2);
    assert!(report.error.is_none());
    assert_eq!(c.finish(None), Ok(2));
}

#[test]
fn consumer_reports_callback_failure() {
    let mut c = StreamConsumer::new(StreamKind::Stream);
    c.on_item();
    c.on_callback_error("bad");
    let report = c.completion();
    assert_eq!(report.count, 1);
    assert_eq!(report.error.as_deref(), Some("Callback error: bad"));
    assert_eq!(c.finish(None), Err("Callback error: bad".to_string()));

    let mut c = StreamConsumer::new(StreamKind::Channel);
    c.on_callback_error("bad");
    assert_eq!(c.finish(None), Err("Response callback error: bad".to_string()));
}

#[test]
fn consumer_reports_stream_failure() {
    let mut c = StreamConsumer::new(StreamKind::Stream);
    c.on_stream_error("reset");
    assert_eq!(c.finish(None), Err("Stream error: reset".to_string()));
    let mut c = StreamConsumer::new(StreamKind::Channel);
    c.on_stream_error("reset");
    assert_eq!(c.finish(None), Err("Channel error: reset".to_string()));
}

#[test]
fn failing_completion_callback_wins() {
    let mut c = StreamConsumer::new(StreamKind::Stream);
    c.on_stream_error("reset");
    assert_eq!(c.finish(Some("oops")), Err("Completion callback error: oops".to_string()));
}

#[test]
fn pump_passes_items_and_ends() {
    let mut p = GeneratorPump::new(false);
    let out = p.step(GeneratorEvent::Item(text_payload("a")));
    assert_eq!(out.item.unwrap().data_utf8(), Some("a"));
    assert!(out.error.is_none());
    assert!(!out.done);
    let out = p.step(GeneratorEvent::Exhausted);
    assert!(out.item.is_none() && out.error.is_none() && out.done);
}

#[test]
fn pump_errors_end_the_stream() {
    let mut p = GeneratorPump::new(false);
    let out = p.step(GeneratorEvent::NotAPayload);
    assert_eq!(out.error.as_deref(), Some("Generator item must be Payload"));
    assert!(out.done);
    let mut p = GeneratorPump::new(true);
    let out = p.step(GeneratorEvent::Failed("ValueError".to_string()));
    assert_eq!(out.error.as_deref(), Some("Generator error: ValueError"));
    let mut p = GeneratorPump::new(true);
    let out = p.step(GeneratorEvent::JoinFailed("cancelled".to_string()));
    assert_eq!(out.error.as_deref(), Some("Task join error: cancelled"));
}

#[test]
fn limited_pump_cuts_off_after_the_limit() {
    let mut p = GeneratorPump::new(true);
    let mut yielded = 0;
    loop {
        let out = p.step(GeneratorEvent::Item(text_payload("x")));
        assert!(out.item.is_some());
        yielded += 1;
        if out.done {
            assert_eq!(out.error.as_deref(), Some("Stream iteration limit exceeded"));
            break;
        }
        assert!(out.error.is_none());
    }
    assert_eq!(yielded, STREAM_ITERATION_LIMIT + 1);
}

#[test]
fn collect_stops_at_first_error() {
    let items = vec![Ok(text_payload("a")), Err("e1".to_string()), Err("e2".to_string())];
    assert_eq!(collect_until_error(items, "Stream error: ").err(), Some("Stream error: e1".to_string()));
    let items = vec![Ok(text_payload("a")), Ok(text_payload("b"))];
    let got = collect_until_error(items, "Channel error: ").ok().unwrap();
    assert_eq!(got.len(), 2);
    assert_eq!(got[1].data_utf8(), Some("b"));
    assert!(collect_until_error(Vec::new(), "").ok().unwrap().is_empty());
}

#[test]
fn request_response_replies() {
    let echo = request_response_reply(None, text_payload("req")).ok().unwrap().unwrap();
    assert_eq!(echo.data_utf8(), Some("req"));
    assert!(request_response_reply(Some(HandlerReply::NoPayload), text_payload("r")).ok().unwrap().is_none());
    let got = request_response_reply(Some(HandlerReply::Payload(text_payload("ans"))), text_payload("r"));
    assert_eq!(got.ok().unwrap().unwrap().data_utf8(), Some("ans"));
    assert_eq!(
        request_response_reply(Some(HandlerReply::NotAPayload("int".to_string())), text_payload("r")).err(),
        Some("Failed to extract payload: int".to_string())
    );
    assert_eq!(
        request_response_reply(Some(HandlerReply::Raised("boom".to_string())), text_payload("r")).err(),
        Some("Python handler error: boom".to_string())
    );
    assert_eq!(
        request_response_reply(Some(HandlerReply::JoinFailed("j".to_string())), text_payload("r")).err(),
        Some("Task join error: j".to_string())
    );
}

#[test]
fn one_way_replies() {
    assert_eq!(one_way_reply(None), Ok(()));
    assert_eq!(one_way_reply(Some(HandlerReply::NoPayload)), Ok(()));
    assert_eq!(one_way_reply(Some(HandlerReply::NotAPayload("x".to_string()))), Ok(()));
    assert_eq!(one_way_reply(Some(HandlerReply::Raised("boom".to_string()))), Err("Python handler error: boom".to_string()));
    assert_eq!(one_way_reply(Some(HandlerReply::JoinFailed("j".to_string()))), Err("Task join error: j".to_string()));
}

#[test]
fn stream_plans() {
    assert!(matches!(stream_plan(StreamHandlerResult::Generator), StreamPlan::Pump));
    assert!(matches!(stream_plan(StreamHandlerResult::PayloadList), StreamPlan::CallAgainForList));
    match stream_plan(StreamHandlerResult::Other) {
        StreamPlan::Fail(e) => assert_eq!(e, "Handler must return generator or list of payloads"),
        _ => panic!("expected a failure"),
    }
    match stream_plan(StreamHandlerResult::Raised("r".to_string())) {
        StreamPlan::Fail(e) => assert_eq!(e, "Python handler error: r"),
        _ => panic!("expected a failure"),
    }
}

#[test]
fn list_replies() {
    let got = list_reply(ListReply::Payloads(vec![text_payload("a")])).ok().unwrap();
    assert_eq!(got[0].data_utf8(), Some("a"));
    assert_eq!(list_reply(ListReply::NotPayloads("str".to_string())).err(), Some("Failed to extract payloads: str".to_string()));
    assert_eq!(list_reply(ListReply::Raised("x".to_string())).err(), Some("Python handler error: x".to_string()));
    assert_eq!(list_reply(ListReply::JoinFailed("y".to_string())).err(), Some("Task join error: y".to_string()));
}
