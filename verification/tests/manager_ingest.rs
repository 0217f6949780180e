//! The ingest hook: messages are grouped by sender, each group in arrival
//! order, and other senders' histories stay untouched.

use willowblossom::manager::MiraiMessageManager;
use willowblossom::message::{
    MiraiMessage, MiraiMessageChain, MiraiMessageChainType, MiraiMessageData, MiraiMessageType,
    MiraiSender, Plain,
};

fn message_from(sender_id: u64, text: &str) -> MiraiMessage {
    MiraiMessage {
        sync_id: "1".to_string(),
        data: MiraiMessageData {
            kind: MiraiMessageType::FriendMessage,
            message_chain: vec![MiraiMessageChain {
                variant: MiraiMessageChainType::Plain(Plain { text: text.to_string() }),
            }],
            sender: MiraiSender {
                id: sender_id,
                nickname: "nick".to_string(),
                remark: "".to_string(),
            },
        },
    }
}

#[test]
fn first_message_opens_a_group() {
    let mut m = MiraiMessageManager::new();
    m.ingest(message_from(7, "hi"));
    assert_eq!(m.messages.len(), 1);
    assert_eq!(m.messages[0].sender_id, 7);
    assert_eq!(m.messages[0].messages, vec![message_from(7, "hi")]);
}

#[test]
fn same_sender_appends_in_order() {
    let mut m = MiraiMessageManager::new();
    m.ingest(message_from(7, "one"));
    m.ingest(message_from(7, "two"));
    m.ingest(message_from(7, "three"));
    assert_eq!(m.messages.len(), 1);
    assert_eq!(
        m.messages[0].messages,
        vec![
            message_from(7, "one"),
            message_from(7, "two"),
            message_from(7, "three")
        ]
    );
}

#[test]
fn other_senders_are_untouched() {
    let mut m = MiraiMessageManager::new();
    m.ingest(message_from(7, "a"));
    m.ingest(message_from(9, "b"));
    m.ingest(message_from(7, "c"));
    assert_eq!(m.messages.len(), 2);
    assert_eq!(m.messages[0].sender_id, 7);
    assert_eq!(
        m.messages[0].messages,
        vec![message_from(7, "a"), message_from(7, "c")]
    );
    assert_eq!(m.messages[1].sender_id, 9);
    assert_eq!(m.messages[1].messages, vec![message_from(9, "b")]);
}

#[test]
fn groups_keep_first_arrival_order() {
    let mut m = MiraiMessageManager::new();
    m.ingest(message_from(3, "x"));
    m.ingest(message_from(1, "y"));
    m.ingest(message_from(2, "z"));
    let ids: Vec<u64> = m.messages.iter().map(|h| h.sender_id).collect();
    assert_eq!(ids, vec![3, 1, 2]);
}
