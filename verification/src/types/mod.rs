//! The data model: reply descriptors, wire records, chats and snapshots.

pub mod chat;
pub mod chat_map;
pub mod message;
pub mod packed;
pub mod peer;
pub mod topic;
pub mod update;
pub mod wire;

pub use chat::{Channel, Chat, Group, User};
pub use chat_map::ChatMap;
pub use message::{Message, ReadHistory};
pub use packed::{InputChannel, InputPeer, PackedChat, PackedType};
pub use peer::Peer;
pub use topic::ReplyDescriptor;
pub use update::{Update, WireUpdate};
