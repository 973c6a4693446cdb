use chat_relay::hub::Delivery;
use chat_relay::hub::Hub;
use chat_relay::hub::HubClosed;
use chat_relay::message::ChatReply;
use chat_relay::message::Message;
use chat_relay::session::after_publish;
use chat_relay::session::fan_out;
use chat_relay::session::identity_of;
use chat_relay::session::ingest;
use chat_relay::session::resolve_identity;
use chat_relay::session::to_publish;
use chat_relay::session::EndReason;
use chat_relay::session::FanOutAction;
use chat_relay::session::Inbound;
use chat_relay::session::Session;
use chat_relay::session::NAME_KEY;
use tonic::metadata::AsciiMetadataValue;
use tonic::metadata::MetadataMap;

fn msg(sender: &str, text: &str) -> Message {
    Message::new(sender.to_string(), text.to_string())
}

fn reply(text: &str) -> ChatReply {
    ChatReply::to(&msg("", text))
}

fn metadata_named(name: &str) -> MetadataMap {
    let mut md = MetadataMap::new();
    md.insert("name", AsciiMetadataValue::try_from(name).unwrap());
    md
}

#[test]
fn name_key_is_name() {
    assert_eq!(NAME_KEY, "name");
}

#[test]
fn identity_is_the_name_in_the_metadata() {
    assert_eq!(identity_of(&metadata_named("alice")), "alice");
}

#[test]
fn identity_without_a_name_is_unknown() {
    assert_eq!(identity_of(&MetadataMap::new()), "unknown");
}

#[test]
fn identity_ignores_other_keys() {
    let mut md = MetadataMap::new();
    md.insert("nickname", AsciiMetadataValue::try_from("al").unwrap());
    assert_eq!(identity_of(&md), "unknown");
    md.insert("name", AsciiMetadataValue::try_from("alice").unwrap());
    assert_eq!(identity_of(&md), "alice");
}

#[test]
fn identity_is_the_first_of_several_names() {
    let mut md = MetadataMap::new();
    md.append("name", AsciiMetadataValue::try_from("first").unwrap());
    md.append("name", AsciiMetadataValue::try_from("second").unwrap());
    assert_eq!(identity_of(&md), "first");
}

#[test]
fn identity_of_a_name_that_is_not_text_is_unknown() {
    let mut md = MetadataMap::new();
    md.insert("name", AsciiMetadataValue::try_from(&b"caf\xe9"[..]).unwrap());
    assert_eq!(identity_of(&md), "unknown");
}

#[test]
fn identity_may_be_empty_text() {
    assert_eq!(identity_of(&metadata_named("")), "");
}

#[test]
fn identity_is_resolved_from_what_the_lookup_found() {
    assert_eq!(resolve_identity(None), "unknown");
    assert_eq!(resolve_identity(Some(None)), "unknown");
    assert_eq!(resolve_identity(Some(Some("bob".to_string()))), "bob");
}

#[test]
fn item_is_published_under_its_own_sender() {
    let action = to_publish("bob", Inbound::Item(msg("alice", "hi")));
    assert_eq!(action, Ok(msg("alice", "hi")));
}

#[test]
fn unsigned_item_is_published_under_the_identity() {
    let action = to_publish("bob", Inbound::Item(msg("", "hi")));
    assert_eq!(action, Ok(msg("bob", "hi")));
}

#[test]
fn stream_error_ends_ingestion() {
    assert_eq!(to_publish("bob", Inbound::Failed), Err(EndReason::StreamRead));
}

#[test]
fn stream_end_ends_ingestion() {
    assert_eq!(to_publish("bob", Inbound::Finished), Err(EndReason::StreamClosed));
}

#[test]
fn closed_hub_ends_ingestion() {
    assert_eq!(after_publish(Err(HubClosed)), Err(EndReason::HubClosed));
    assert_eq!(after_publish(Ok(3)), Ok(3));
}

#[test]
fn ingest_publishes_the_item() {
    let hub = Hub::new(8);
    let mut sub = hub.subscribe();
    assert_eq!(ingest(&hub, "bob", Inbound::Item(msg("", "hi"))), Ok(2));
    assert_eq!(sub.try_recv(), Some(Delivery::Message(msg("bob", "hi"))));
    assert_eq!(sub.try_recv(), None);
}

#[test]
fn ingest_publishes_nothing_when_the_stream_is_over() {
    let hub = Hub::new(8);
    let mut sub = hub.subscribe();
    assert_eq!(ingest(&hub, "bob", Inbound::Failed), Err(EndReason::StreamRead));
    assert_eq!(ingest(&hub, "bob", Inbound::Finished), Err(EndReason::StreamClosed));
    assert_eq!(sub.try_recv(), None);
}

#[test]
fn message_is_fanned_out_as_its_reply() {
    let action = fan_out(Delivery::Message(msg("alice", "hi")));
    assert_eq!(action, FanOutAction::Emit(reply("hi")));
    match action {
        FanOutAction::Emit(r) => assert_eq!(r.message(), "Reply: hi"),
        other => panic!("unexpected action: {:?}", other),
    }
}

#[test]
fn lag_is_skipped() {
    assert_eq!(fan_out(Delivery::Lagged(1)), FanOutAction::Skip(1));
    assert_eq!(fan_out(Delivery::Lagged(u64::MAX)), FanOutAction::Skip(u64::MAX));
}

#[test]
fn closed_hub_ends_fan_out() {
    assert_eq!(fan_out(Delivery::Closed), FanOutAction::End);
}

#[test]
fn session_takes_its_identity_from_the_metadata() {
    let hub = Hub::new(8);
    assert_eq!(Session::open(&hub, &metadata_named("alice")).identity(), "alice");
    assert_eq!(Session::open(&hub, &MetadataMap::new()).identity(), "unknown");
    assert_eq!(Session::named(&hub, "carol".to_string()).identity(), "carol");
}

#[test]
fn session_is_subscribed_from_the_moment_it_opens() {
    let hub = Hub::new(8);
    hub.publish(msg("a", "before")).unwrap();
    let mut session = Session::named(&hub, "bob".to_string());
    assert_eq!(session.poll(), None);
    hub.publish(msg("a", "after")).unwrap();
    assert_eq!(session.poll(), Some(FanOutAction::Emit(reply("after"))));
    assert_eq!(session.poll(), None);
}

#[test]
fn session_parts_are_its_identity_and_its_subscription() {
    let hub = Hub::new(8);
    let session = Session::named(&hub, "bob".to_string());
    hub.publish(msg("a", "hi")).unwrap();
    let (identity, mut subscription) = session.into_parts();
    assert_eq!(identity, "bob");
    assert_eq!(subscription.try_recv(), Some(Delivery::Message(msg("a", "hi"))));
}

#[test]
fn fan_out_reaches_every_session_in_the_order_of_publishing() {
    let hub = Hub::new(100);
    let a = Session::named(&hub, "a".to_string());
    let mut b = Session::named(&hub, "b".to_string());
    let mut c = Session::named(&hub, "c".to_string());
    for i in 0..100 {
        let item = Inbound::Item(msg("", &format!("line {}", i)));
        assert_eq!(ingest(&hub, a.identity(), item), Ok(4));
    }
    for i in 0..100 {
        let want = Some(FanOutAction::Emit(reply(&format!("line {}", i))));
        assert_eq!(b.poll(), want);
        assert_eq!(c.poll(), want);
    }
    assert_eq!(b.poll(), None);
    assert_eq!(c.poll(), None);
}

#[test]
fn session_receives_its_own_messages() {
    let hub = Hub::new(8);
    let mut a = Session::named(&hub, "a".to_string());
    let (identity, mut subscription) = Session::named(&hub, "me".to_string()).into_parts();
    ingest(&hub, &identity, Inbound::Item(msg("", "echo"))).unwrap();
    assert_eq!(subscription.try_recv(), Some(Delivery::Message(msg("me", "echo"))));
    assert_eq!(a.poll(), Some(FanOutAction::Emit(reply("echo"))));
}

#[test]
fn end_of_one_inbound_stream_leaves_the_other_sessions_alone() {
    let hub = Hub::new(8);
    let (a, a_subscription) = Session::named(&hub, "a".to_string()).into_parts();
    let mut b = Session::named(&hub, "b".to_string());
    let mut c = Session::named(&hub, "c".to_string());
    assert_eq!(ingest(&hub, &a, Inbound::Item(msg("", "from a"))), Ok(4));
    assert_eq!(ingest(&hub, &a, Inbound::Finished), Err(EndReason::StreamClosed));
    drop(a_subscription);
    assert_eq!(ingest(&hub, b.identity(), Inbound::Item(msg("", "from b"))), Ok(3));
    assert_eq!(ingest(&hub, c.identity(), Inbound::Item(msg("", "from c"))), Ok(3));
    for text in ["from a", "from b", "from c"] {
        assert_eq!(b.poll(), Some(FanOutAction::Emit(reply(text))));
        assert_eq!(c.poll(), Some(FanOutAction::Emit(reply(text))));
    }
    assert_eq!(b.poll(), None);
    assert_eq!(c.poll(), None);
}

#[test]
fn failure_of_one_inbound_stream_leaves_the_other_sessions_alone() {
    let hub = Hub::new(8);
    let a = Session::named(&hub, "a".to_string());
    let mut b = Session::named(&hub, "b".to_string());
    assert_eq!(ingest(&hub, a.identity(), Inbound::Failed), Err(EndReason::StreamRead));
    drop(a);
    assert_eq!(ingest(&hub, b.identity(), Inbound::Item(msg("", "still here"))), Ok(2));
    assert_eq!(b.poll(), Some(FanOutAction::Emit(reply("still here"))));
}

#[test]
fn lagging_session_skips_and_goes_on() {
    let hub = Hub::new(2);
    let mut slow = Session::named(&hub, "slow".to_string());
    for i in 0..5 {
        assert_eq!(hub.publish(msg("a", &format!("line {}", i))), Ok(2));
    }
    assert_eq!(slow.poll(), Some(FanOutAction::Skip(3)));
    assert_eq!(slow.poll(), Some(FanOutAction::Emit(reply("line 3"))));
    assert_eq!(slow.poll(), Some(FanOutAction::Emit(reply("line 4"))));
    assert_eq!(slow.poll(), None);
}

#[test]
fn session_ends_its_stream_when_the_hub_is_gone() {
    let hub = Hub::new(2);
    let mut session = Session::named(&hub, "b".to_string());
    drop(hub);
    assert_eq!(session.poll(), Some(FanOutAction::End));
}
