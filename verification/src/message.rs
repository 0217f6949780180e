//! The delivered message unit: an inbound chat message once its payload has
//! been decoded.  The wire schema itself is a collaborator's concern; these
//! types only hold the decoded values that the bridge's ingest logic reads.

use vstd::prelude::*;

verus! {

/// Origin metadata of a message chain: the message id and its timestamp.
#[derive(Clone, Debug, PartialEq, Eq)]
pub struct Source {
    pub id: u64,
    pub time: u64,
}

/// A plain-text segment of a message chain.
#[derive(Clone, Debug, PartialEq, Eq)]
pub struct Plain {
    pub text: String,
}

/// An image segment of a message chain, by its image id.
#[derive(Clone, Debug, PartialEq, Eq)]
pub struct Image {
    pub image: String,
}

/// One segment of a message chain.
#[derive(Clone, Debug, PartialEq, Eq)]
pub enum MiraiMessageChainType {
    Source(Source),
    Plain(Plain),
    Image(Image),
}

/// The kind of a delivered message.
#[derive(Clone, Debug, PartialEq, Eq)]
pub enum MiraiMessageType {
    FriendMessage,
}

/// One element of a message's chain of segments.
#[derive(Clone, Debug, PartialEq, Eq)]
pub struct MiraiMessageChain {
    pub variant: MiraiMessageChainType,
}

/// Who sent a message.
#[derive(Clone, Debug, PartialEq, Eq)]
pub struct MiraiSender {
    pub id: u64,
    pub nickname: String,
    pub remark: String,
}

/// The payload of a delivered message: its kind, its chain of segments, and
/// its sender.
#[derive(Clone, Debug, PartialEq, Eq)]
pub struct MiraiMessageData {
    pub kind: MiraiMessageType,
    pub message_chain: Vec<MiraiMessageChain>,
    pub sender: MiraiSender,
}

/// A delivered message: a sync id and its payload.
#[derive(Clone, Debug, PartialEq, Eq)]
pub struct MiraiMessage {
    pub sync_id: String,
    pub data: MiraiMessageData,
}

} // verus!
