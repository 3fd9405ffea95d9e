use grammers_client::types::{
    Channel, Chat, ChatMap, Group, InputChannel, InputPeer, PackedChat, PackedType, Peer, User,
};

fn user(id: i64, name: &str) -> Chat {
    Chat::User(User { id, access_hash: Some(11), bot: false, name: Some(name.to_string()) })
}

fn forum(id: i64) -> Chat {
    Chat::Channel(Channel {
        id,
        access_hash: Some(12),
        gigagroup: false,
        forum: true,
        title: Some("forum".to_string()),
    })
}

#[test]
fn to_peer_by_kind() {
    let peer = |ty| PackedChat { ty, id: 77, access_hash: Some(5) }.to_peer();
    assert_eq!(peer(PackedType::User), Peer::User(77));
    assert_eq!(peer(PackedType::Bot), Peer::User(77));
    assert_eq!(peer(PackedType::Chat), Peer::Chat(77));
    assert_eq!(peer(PackedType::Megagroup), Peer::Channel(77));
    assert_eq!(peer(PackedType::Broadcast), Peer::Channel(77));
    assert_eq!(peer(PackedType::Gigagroup), Peer::Channel(77));
}

#[test]
fn to_peer_keeps_the_identifier() {
    for id in [0, 1, -1, i64::MAX, i64::MIN] {
        let packed = PackedChat { ty: PackedType::Chat, id, access_hash: None };
        assert_eq!(packed.to_peer(), Peer::Chat(id));
        assert_eq!(packed.to_peer().id(), id);
    }
}

#[test]
fn from_peer_is_the_plainest_packed_chat() {
    assert_eq!(
        PackedChat::from_peer(Peer::User(3)),
        PackedChat { ty: PackedType::User, id: 3, access_hash: None }
    );
    assert_eq!(
        PackedChat::from_peer(Peer::Chat(4)),
        PackedChat { ty: PackedType::Chat, id: 4, access_hash: None }
    );
    assert_eq!(
        PackedChat::from_peer(Peer::Channel(5)),
        PackedChat { ty: PackedType::Broadcast, id: 5, access_hash: None }
    );
}

#[test]
fn from_peer_then_to_peer_is_the_peer() {
    for peer in [Peer::User(1), Peer::Chat(2), Peer::Channel(3)] {
        assert_eq!(PackedChat::from_peer(peer).to_peer(), peer);
    }
}

#[test]
fn unpack_then_pack_is_the_packed_chat() {
    for ty in [
        PackedType::User,
        PackedType::Bot,
        PackedType::Chat,
        PackedType::Megagroup,
        PackedType::Broadcast,
        PackedType::Gigagroup,
    ] {
        for access_hash in [None, Some(9)] {
            let packed = PackedChat { ty, id: 123, access_hash };
            let chat = Chat::unpack(packed);
            assert_eq!(chat.pack(), packed);
            assert_eq!(chat.id(), 123);
            assert_eq!(chat.name(), None);
            assert!(!chat.is_forum());
        }
    }
}

#[test]
fn unpack_picks_the_variant() {
    let unpack = |ty| Chat::unpack(PackedChat { ty, id: 1, access_hash: None });
    assert_eq!(unpack(PackedType::User), Chat::User(User { id: 1, access_hash: None, bot: false, name: None }));
    assert_eq!(unpack(PackedType::Bot), Chat::User(User { id: 1, access_hash: None, bot: true, name: None }));
    assert_eq!(
        unpack(PackedType::Megagroup),
        Chat::Group(Group { id: 1, access_hash: None, megagroup: true, title: None })
    );
    assert_eq!(
        unpack(PackedType::Gigagroup),
        Chat::Channel(Channel { id: 1, access_hash: None, gigagroup: true, forum: false, title: None })
    );
}

#[test]
fn chat_queries() {
    let chat = forum(9);
    assert_eq!(chat.id(), 9);
    assert_eq!(chat.name(), Some("forum"));
    assert!(chat.is_forum());
    assert!(chat.as_channel().is_some());
    assert!(chat.as_channel().map_or(false, |c| c.is_forum()));
    let chat = user(5, "ann");
    assert_eq!(chat.name(), Some("ann"));
    assert!(!chat.is_forum());
    assert!(chat.as_channel().is_none());
    assert_eq!(chat.pack(), PackedChat { ty: PackedType::User, id: 5, access_hash: Some(11) });
    assert_eq!(chat.clone(), chat);
}

#[test]
fn registry_holds_each_chat_under_its_id() {
    let chats = ChatMap::new(vec![user(1, "ann"), forum(2), user(3, "bob")]);
    assert_eq!(chats.len(), 3);
    assert_eq!(chats.get(&Peer::User(1)), Some(&user(1, "ann")));
    assert_eq!(chats.get(&Peer::Channel(2)), Some(&forum(2)));
    assert_eq!(chats.get(&Peer::User(3)), Some(&user(3, "bob")));
    assert_eq!(chats.get(&Peer::User(4)), None);
}

#[test]
fn registry_keeps_the_later_of_two_chats_with_one_id() {
    let chats = ChatMap::new(vec![user(1, "ann"), user(1, "bob")]);
    assert_eq!(chats.len(), 1);
    assert_eq!(chats.lookup(&Peer::User(1)), user(1, "bob"));
}

#[test]
fn empty_registry_answers_with_stand_ins() {
    let chats = ChatMap::new(Vec::new());
    assert_eq!(chats.len(), 0);
    assert_eq!(
        chats.lookup(&Peer::Channel(8)),
        Chat::Channel(Channel { id: 8, access_hash: None, gigagroup: false, forum: false, title: None })
    );
    assert_eq!(
        chats.lookup(&Peer::Chat(8)),
        Chat::Group(Group { id: 8, access_hash: None, megagroup: false, title: None })
    );
    assert_eq!(
        chats.lookup(&Peer::User(8)),
        Chat::User(User { id: 8, access_hash: None, bot: false, name: None })
    );
}

#[test]
fn lookup_finds_what_is_there_and_never_fails() {
    let chats = ChatMap::single(forum(2));
    assert_eq!(chats.len(), 1);
    assert_eq!(chats.lookup(&Peer::Channel(2)), forum(2));
    let missing = chats.lookup(&Peer::Channel(3));
    assert_eq!(missing.id(), 3);
    assert_eq!(missing.name(), None);
}

#[test]
fn try_to_input_channel_by_kind() {
    let channel = |ty, access_hash| PackedChat { ty, id: 77, access_hash }.try_to_input_channel();
    assert_eq!(channel(PackedType::User, Some(5)), None);
    assert_eq!(channel(PackedType::Bot, Some(5)), None);
    assert_eq!(channel(PackedType::Chat, Some(5)), None);
    for ty in [PackedType::Megagroup, PackedType::Broadcast, PackedType::Gigagroup] {
        assert_eq!(channel(ty, Some(5)), Some(InputChannel { channel_id: 77, access_hash: 5 }));
        assert_eq!(channel(ty, None), Some(InputChannel { channel_id: 77, access_hash: 0 }));
    }
}

#[test]
fn to_input_peer_by_kind() {
    let peer = |ty, access_hash| PackedChat { ty, id: 77, access_hash }.to_input_peer();
    assert_eq!(peer(PackedType::User, Some(5)), InputPeer::User { user_id: 77, access_hash: 5 });
    assert_eq!(peer(PackedType::Bot, None), InputPeer::User { user_id: 77, access_hash: 0 });
    assert_eq!(peer(PackedType::Chat, Some(5)), InputPeer::Chat { chat_id: 77 });
    assert_eq!(peer(PackedType::Chat, None), InputPeer::Chat { chat_id: 77 });
    for ty in [PackedType::Megagroup, PackedType::Broadcast, PackedType::Gigagroup] {
        assert_eq!(peer(ty, Some(5)), InputPeer::Channel { channel_id: 77, access_hash: 5 });
        assert_eq!(peer(ty, None), InputPeer::Channel { channel_id: 77, access_hash: 0 });
    }
}
