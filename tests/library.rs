use nft_gossip::command::{parse_command, parse_create, parse_u32, split_fields, Command, CreateError};
use nft_gossip::model::{ListMode, ListRequest, ListResponse, Message, NftInfo};
use nft_gossip::node::{classify, handle_command, Action, Inbound, Node};
use nft_gossip::peers::{dedup_peers, PeerSet};
use nft_gossip::responder::{respond_all, respond_collection, select_collection};
use nft_gossip::store::NftStore;
use nft_gossip::text::{eq_ignore_ascii_case, str_equal, strip_prefix};

fn item(c: &str, id: u32, d: &str, o: &str) -> NftInfo {
    NftInfo::new(c.to_string(), id, d.to_string(), o.to_string())
}

fn store_of(items: Vec<NftInfo>) -> NftStore {
    let mut s = NftStore::new();
    for i in items {
        s.append(i);
    }
    s
}

fn same(a: &NftInfo, b: &NftInfo) -> bool {
    a.collection_name == b.collection_name
        && a.item_id == b.item_id
        && a.description == b.description
        && a.owner == b.owner
}

#[test]
fn create_command_appends_one_item() {
    let mut store = NftStore::new();
    let action = handle_command("CREATE NFT acme|7|rare sword|alice", &mut store);
    assert_eq!(store.len(), 1);
    let items = store.snapshot();
    assert!(same(&items[0], &item("acme", 7, "rare sword", "alice")));
    match action {
        Action::Created(i) => assert!(same(&i, &item("acme", 7, "rare sword", "alice"))),
        other => panic!("unexpected action {:?}", other),
    }
}

#[test]
fn create_command_with_bad_id_appends_nothing() {
    let mut store = NftStore::new();
    let action = handle_command("CREATE NFT acme|notanumber|x|y", &mut store);
    assert_eq!(store.len(), 0);
    assert!(matches!(action, Action::CreateFailed(CreateError::BadItemId)));
}

#[test]
fn create_command_with_three_fields_is_refused() {
    let mut store = NftStore::new();
    let action = handle_command("CREATE NFT acme|7|rare sword", &mut store);
    assert_eq!(store.len(), 0);
    assert!(matches!(action, Action::CreateFailed(CreateError::TooFewFields)));
}

#[test]
fn create_command_without_fields_is_refused() {
    let mut store = NftStore::new();
    let action = handle_command("CREATE NFT", &mut store);
    assert_eq!(store.len(), 0);
    assert!(matches!(action, Action::CreateFailed(CreateError::TooFewFields)));
}

#[test]
fn create_ignores_fields_after_the_fourth() {
    let r = parse_create("a|1|b|c|d").unwrap();
    assert!(same(&r, &item("a", 1, "b", "c")));
}

#[test]
fn item_id_accepts_plus_sign_and_rejects_overflow() {
    let r = parse_create("a|+42|b|c").unwrap();
    assert_eq!(r.item_id, 42);
    let r = parse_create("a|4294967295|b|c").unwrap();
    assert_eq!(r.item_id, u32::MAX);
    assert!(matches!(parse_create("a|4294967296|b|c"), Err(CreateError::BadItemId)));
    assert!(matches!(parse_create("a|-1|b|c"), Err(CreateError::BadItemId)));
    assert!(matches!(parse_create("a| 1|b|c"), Err(CreateError::BadItemId)));
    assert!(matches!(parse_create("a||b|c"), Err(CreateError::BadItemId)));
}

#[test]
fn get_nft_reports_local_items_without_publishing() {
    let mut store = store_of(vec![item("a", 1, "x", "o"), item("b", 2, "y", "p"), item("a", 3, "z", "q")]);
    let action = handle_command("GET NFT", &mut store);
    match action {
        Action::ShowLocal(v) => assert_eq!(v.len(), 3),
        other => panic!("unexpected action {:?}", other),
    }
    assert_eq!(store.len(), 3);
}

#[test]
fn get_nft_all_publishes_request_for_all() {
    let mut store = store_of(vec![item("a", 1, "x", "o")]);
    let action = handle_command("GET NFT ALL", &mut store);
    assert!(matches!(
        action,
        Action::Publish(Message::Request(ListRequest { mode: ListMode::All }))
    ));
    assert_eq!(store.len(), 1);
}

#[test]
fn get_nft_collection_publishes_request_for_collection() {
    let mut store = NftStore::new();
    match handle_command("GET NFT acme", &mut store) {
        Action::Publish(Message::Request(ListRequest { mode: ListMode::Collection(n) })) => {
            assert_eq!(n, "acme")
        }
        other => panic!("unexpected action {:?}", other),
    }
}

#[test]
fn list_peers_and_unknown_commands() {
    let mut store = NftStore::new();
    assert!(matches!(handle_command("LIST PEERS", &mut store), Action::ShowPeers));
    assert!(matches!(handle_command("LIST PEERS ", &mut store), Action::UnknownCommand));
    assert!(matches!(handle_command("hello", &mut store), Action::UnknownCommand));
    assert!(matches!(handle_command("", &mut store), Action::UnknownCommand));
    assert_eq!(store.len(), 0);
}

#[test]
fn parse_command_shapes() {
    assert!(matches!(parse_command("GET NFT"), Command::GetLocal));
    assert!(matches!(parse_command("GET NFT ALL"), Command::GetAll));
    match parse_command("GET NFT ") {
        Command::GetCollection(n) => assert_eq!(n, ""),
        other => panic!("unexpected command {:?}", other),
    }
    match parse_command("GET NFT all") {
        Command::GetCollection(n) => assert_eq!(n, "all"),
        other => panic!("unexpected command {:?}", other),
    }
}

#[test]
fn split_fields_keeps_empty_pieces() {
    assert_eq!(split_fields("a||b|"), vec!["a".to_string(), "".to_string(), "b".to_string(), "".to_string()]);
    assert_eq!(split_fields(""), vec!["".to_string()]);
    assert_eq!(split_fields("é|x"), vec!["é".to_string(), "x".to_string()]);
}

#[test]
fn text_helpers() {
    assert_eq!(strip_prefix("GET NFT x", "GET NFT "), Some("x"));
    assert_eq!(strip_prefix("GET", "GET NFT "), None);
    assert!(str_equal("abc", "abc"));
    assert!(!str_equal("abc", "abd"));
    assert!(eq_ignore_ascii_case("AcMe", "acme"));
    assert!(!eq_ignore_ascii_case("acme", "acm"));
    assert!(!eq_ignore_ascii_case("É", "é"));
}

#[test]
fn respond_collection_matches_case_insensitively() {
    let store = store_of(vec![item("Acme", 1, "x", "o"), item("other", 2, "y", "p"), item("ACME", 3, "z", "q")]);
    let r = respond_collection(&store, "peer1".to_string(), "acme".to_string()).unwrap();
    assert_eq!(r.receiver, "peer1");
    assert!(matches!(&r.mode, ListMode::Collection(n) if n == "acme"));
    assert_eq!(r.data.len(), 2);
    assert_eq!(r.data[0].item_id, 1);
    assert_eq!(r.data[1].item_id, 3);
}

#[test]
fn respond_collection_with_no_match_is_silent() {
    let store = store_of(vec![item("acme", 1, "x", "o")]);
    assert!(respond_collection(&store, "peer1".to_string(), "zeta".to_string()).is_none());
    let empty = NftStore::new();
    assert!(respond_collection(&empty, "peer1".to_string(), "acme".to_string()).is_none());
}

#[test]
fn respond_all_sends_whole_store() {
    let store = store_of(vec![item("a", 1, "x", "o"), item("b", 2, "y", "p")]);
    let r = respond_all(&store, "peer9".to_string());
    assert!(matches!(r.mode, ListMode::All));
    assert_eq!(r.receiver, "peer9");
    assert_eq!(r.data.len(), 2);
    assert!(same(&r.data[1], &item("b", 2, "y", "p")));
    let empty = respond_all(&NftStore::new(), "peer9".to_string());
    assert_eq!(empty.data.len(), 0);
}

#[test]
fn select_collection_keeps_order() {
    let items = vec![item("x", 1, "", ""), item("y", 2, "", ""), item("X", 3, "", "")];
    let r = select_collection(&items, "x");
    assert_eq!(r.iter().map(|i| i.item_id).collect::<Vec<_>>(), vec![1, 3]);
}

fn response_to(receiver: &str) -> ListResponse {
    ListResponse { mode: ListMode::All, data: vec![item("a", 1, "x", "o")], receiver: receiver.to_string() }
}

#[test]
fn response_for_another_peer_is_ignored() {
    let node = Node::new("me".to_string());
    let a = node.on_inbound("src".to_string(), Inbound::Response(response_to("someone")));
    assert!(matches!(a, Action::Ignore));
}

#[test]
fn response_for_self_is_shown() {
    let node = Node::new("me".to_string());
    match node.on_inbound("src".to_string(), Inbound::Response(response_to("me"))) {
        Action::ShowResponse { source, response } => {
            assert_eq!(source, "src");
            assert_eq!(response.data.len(), 1);
        }
        other => panic!("unexpected action {:?}", other),
    }
}

#[test]
fn requests_are_answered_to_their_sender() {
    let node = Node::new("me".to_string());
    let a = node.on_inbound("src".to_string(), Inbound::Request(ListRequest { mode: ListMode::All }));
    assert!(matches!(a, Action::RespondAll { receiver } if receiver == "src"));
    let a = node.on_inbound(
        "src".to_string(),
        Inbound::Request(ListRequest { mode: ListMode::Collection("acme".to_string()) }),
    );
    assert!(matches!(a, Action::RespondCollection { receiver, collection_name }
        if receiver == "src" && collection_name == "acme"));
    assert!(matches!(node.on_inbound("src".to_string(), Inbound::Malformed), Action::Ignore));
}

#[test]
fn classify_prefers_response() {
    let r = classify(Some(response_to("me")), Some(ListRequest { mode: ListMode::All }));
    assert!(matches!(r, Inbound::Response(_)));
    let r = classify(None, Some(ListRequest { mode: ListMode::All }));
    assert!(matches!(r, Inbound::Request(_)));
    assert!(matches!(classify(None, None), Inbound::Malformed));
}

#[test]
fn outgoing_response_needs_a_receiver() {
    let node = Node::new("me".to_string());
    assert!(matches!(node.on_outgoing(response_to("peer")), Action::Publish(Message::Response(_))));
    assert!(matches!(node.on_outgoing(response_to("")), Action::Ignore));
}

#[test]
fn disappeared_peer_leaves_partial_view() {
    let mut node = Node::new("me".to_string());
    assert!(matches!(node.on_appeared("p".to_string()), Action::AddToView(p) if p == "p"));
    assert!(node.in_partial_view("p"));
    assert!(matches!(node.on_disappeared("p".to_string(), false), Action::RemoveFromView(p) if p == "p"));
    assert!(!node.in_partial_view("p"));
}

#[test]
fn still_visible_peer_stays_in_partial_view() {
    let mut node = Node::new("me".to_string());
    node.on_appeared("p".to_string());
    node.on_appeared("p".to_string());
    node.on_appeared("q".to_string());
    assert!(matches!(node.on_disappeared("p".to_string(), true), Action::Ignore));
    assert!(node.in_partial_view("p"));
    node.on_disappeared("p".to_string(), false);
    assert!(!node.in_partial_view("p"));
    assert!(node.in_partial_view("q"));
}

#[test]
fn peer_set_and_dedup() {
    let mut s = PeerSet::new();
    s.insert("a".to_string());
    s.insert("a".to_string());
    s.insert("b".to_string());
    assert_eq!(s.to_vec(), vec!["a".to_string(), "b".to_string()]);
    s.remove_unless_visible("a", false);
    assert!(!s.contains("a"));
    let d = dedup_peers(&vec!["x".to_string(), "y".to_string(), "x".to_string()]);
    assert_eq!(d, vec!["x".to_string(), "y".to_string()]);
}

#[test]
fn parse_u32_reads_decimal() {
    assert_eq!(parse_u32("7"), Some(7));
    assert_eq!(parse_u32("007"), Some(7));
    assert_eq!(parse_u32("+0"), Some(0));
    assert_eq!(parse_u32("4294967295"), Some(4294967295));
    assert_eq!(parse_u32("4294967296"), None);
    assert_eq!(parse_u32("99999999999999999999"), None);
    assert_eq!(parse_u32(""), None);
    assert_eq!(parse_u32("+"), None);
    assert_eq!(parse_u32("++1"), None);
    assert_eq!(parse_u32("12a"), None);
    assert_eq!(parse_u32("notanumber"), None);
    assert_eq!(parse_u32("-1"), None);
    assert_eq!(parse_u32("１"), None);
}
