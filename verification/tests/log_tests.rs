use boinc_client::common::MessagePriority;
use boinc_client::element::Content;
use boinc_client::messages::StandardLogger;

#[test]
fn get_from_one_returns_all_in_order() {
    let mut log = StandardLogger::new();
    log.insert(None, MessagePriority::Info, 10, "first");
    log.insert(Some(String::from("proj")), MessagePriority::Debug, 11, "second");
    log.insert(None, MessagePriority::UserAlert, 12, "third");
    assert_eq!(log.len(), 3);
    let all = log.get(1);
    assert_eq!(all.len(), 3);
    assert_eq!(all[0].body, "first");
    assert_eq!(all[1].body, "second");
    assert_eq!(all[2].body, "third");
    assert_eq!(all[1].project_name, Some(String::from("proj")));
    assert_eq!(all[2].timestamp, 12);
}

#[test]
fn to_xml_tags_messages_with_their_sequence_numbers() {
    let mut log = StandardLogger::new();
    log.insert(None, MessagePriority::Info, 10, "a");
    log.insert(None, MessagePriority::Info, 11, "b");
    log.insert(None, MessagePriority::Info, 12, "c");
    let el = log.to_xml(None);
    assert_eq!(el.name, "msgs");
    assert_eq!(el.children.len(), 3);
    for (i, msg) in el.children.iter().enumerate() {
        assert_eq!(msg.name, "msg");
        assert_eq!(msg.children.len(), 5);
        assert_eq!(msg.children[4].name, "seqno");
        assert_eq!(msg.children[4].content, Content::Uint(i as u64 + 1));
    }
    // A later start keeps the true sequence numbers.
    let el = log.to_xml(Some(2));
    assert_eq!(el.children.len(), 2);
    assert_eq!(el.children[0].children[4].content, Content::Uint(2));
    assert_eq!(el.children[1].children[4].content, Content::Uint(3));
}

#[test]
fn numbering_restarts_after_cleanup() {
    let mut log = StandardLogger::new();
    log.insert(None, MessagePriority::Info, 1, "old message");
    log.insert(None, MessagePriority::Info, 2, "older message");
    log.cleanup();
    assert_eq!(log.len(), 0);
    log.insert(None, MessagePriority::SchedulerAlert, 3, "fresh start");
    assert_eq!(log.len(), 1);
    let all = log.get(1);
    assert_eq!(all.len(), 1);
    assert_eq!(all[0].body, "fresh start");
    let el = log.to_xml(None);
    assert_eq!(el.children.len(), 1);
    assert_eq!(el.children[0].children[4].content, Content::Uint(1));
}

#[test]
fn get_past_end_is_empty() {
    let mut log = StandardLogger::new();
    assert_eq!(log.get(1).len(), 0);
    log.insert(None, MessagePriority::Info, 1, "only");
    assert_eq!(log.get(2).len(), 0);
    assert_eq!(log.get(100).len(), 0);
}

#[test]
fn start_below_one_is_treated_as_one() {
    let mut log = StandardLogger::new();
    log.insert(None, MessagePriority::Info, 1, "a");
    log.insert(None, MessagePriority::Info, 2, "b");
    let all = log.get(0);
    assert_eq!(all.len(), 2);
    assert_eq!(all[0].body, "a");
}

#[test]
fn get_from_middle_returns_suffix() {
    let mut log = StandardLogger::new();
    log.insert(None, MessagePriority::Info, 1, "a");
    log.insert(None, MessagePriority::Info, 2, "b");
    log.insert(None, MessagePriority::Info, 3, "c");
    let tail = log.get(2);
    assert_eq!(tail.len(), 2);
    assert_eq!(tail[0].body, "b");
    assert_eq!(tail[1].body, "c");
}

#[test]
fn message_element_shape() {
    let mut log = StandardLogger::new();
    log.insert(Some(String::from("p")), MessagePriority::InternalError, 77, "body text");
    let el = log.to_xml(None);
    let msg = &el.children[0];
    assert_eq!(msg.children[0].name, "project");
    assert_eq!(msg.children[0].content, Content::Text(String::from("p")));
    assert_eq!(msg.children[1].name, "pri");
    assert_eq!(msg.children[1].content, Content::Uint(3));
    assert_eq!(msg.children[2].name, "body");
    assert_eq!(msg.children[2].content, Content::Cdata(String::from("body text")));
    assert_eq!(msg.children[3].name, "time");
    assert_eq!(msg.children[3].content, Content::Int(77));
}
