use bramble_auction::auction::{Command, Timing};
use bramble_auction::bid::Rejection;
use bramble_auction::broadcast::Subscriptions;
use bramble_auction::registry::{Registry, RemoveError};
use bramble_auction::router::{heartbeat_client_id, Inbound, Route};
use bramble_auction::{ClientId, Lot, ServerState};

#[test]
fn registry_ids_are_fresh_and_ordered() {
    let mut r: Registry<&str> = Registry::new();
    let a = r.create("first").unwrap();
    let b = r.create("second").unwrap();
    assert!(a < b);
    assert_eq!(r.lookup(a), Some(&"first"));
    assert_eq!(r.lookup(b), Some(&"second"));
    assert_eq!(r.lookup(b + 1), None);
    assert_eq!(r.remove(a, false, 0), Err(RemoveError::StillActive));
    assert_eq!(r.remove(a, true, 2), Err(RemoveError::StillActive));
    assert_eq!(r.remove(a, true, 0), Ok("first"));
    assert_eq!(r.remove(a, true, 0), Err(RemoveError::NotFound));
    assert!(!r.contains(a));
    assert!(r.contains(b));
    let c = r.create("third").unwrap();
    assert!(c > b);
}

#[test]
fn subscriptions_one_auction_per_client() {
    let mut s = Subscriptions::new();
    s.subscribe(ClientId(1), 4);
    s.subscribe(ClientId(2), 4);
    s.subscribe(ClientId(3), 5);
    let mut r = s.recipients(4);
    r.sort_by_key(|c| c.0);
    assert_eq!(r, vec![ClientId(1), ClientId(2)]);
    s.subscribe(ClientId(1), 5);
    assert_eq!(s.recipients(4), vec![ClientId(2)]);
    assert_eq!(s.subscription(ClientId(1)), Some(5));
    assert!(s.unsubscribe(ClientId(2)));
    assert!(!s.unsubscribe(ClientId(2)));
    assert_eq!(s.recipients(4), Vec::<ClientId>::new());
    assert_eq!(s.subscription(ClientId(2)), None);
}

#[test]
fn heartbeat_default_id() {
    assert_eq!(heartbeat_client_id(String::new()), "client 0");
    assert_eq!(heartbeat_client_id("abc".to_string()), "abc");
}

#[test]
fn route_messages() {
    let mut st: ServerState<u8> = ServerState::new();
    let host = ClientId(9);
    let me = ClientId(10);
    let id = st.host_auction(host, 7).unwrap();
    assert_eq!(st.subscriptions.subscription(host), Some(id));

    match st.route(me, Inbound::Echo { message: "hi".to_string() }, 0) {
        Route::ReplyEcho { message } => assert_eq!(message, "hi"),
        _ => panic!("expected an echo"),
    }
    match st.route(me, Inbound::Heartbeat { client_id: String::new() }, 0) {
        Route::ReplyHeartbeat { client_id } => assert_eq!(client_id, "client 0"),
        _ => panic!("expected a heartbeat"),
    }
    let timing = Timing { lot_duration: 5000, snipe_window: 2000, max_lot_span: 9000 };
    match st.route(me, Inbound::HostAuction { lots: vec![Lot::new(vec![4], 10)], timing }, 0) {
        Route::CreateAuction { lots, timing: t } => {
            assert_eq!(lots.len(), 1);
            assert_eq!(lots[0].floor(), 10);
            assert_eq!(t, timing);
        }
        _ => panic!("expected a new auction"),
    }
    assert!(matches!(st.route(me, Inbound::Unknown, 0), Route::Ignore));
    assert!(matches!(st.route(me, Inbound::Join { auction: id + 1 }, 0), Route::Reject { reason: Rejection::NotFound, .. }));
    assert!(matches!(st.route(me, Inbound::Join { auction: id }, 0), Route::Joined { auction } if auction == id));
    assert_eq!(st.subscriptions.subscription(me), Some(id));
    match st.route(me, Inbound::PlaceBid { auction: id, lot: 0, amount: 15 }, 1000) {
        Route::Forward { auction, command } => {
            assert_eq!(auction, id);
            assert_eq!(command, Command::PlaceBid { bidder: me, lot: 0, amount: 15, now: 1000 });
        }
        _ => panic!("expected a forward"),
    }
    match st.route(host, Inbound::Start { auction: id }, 5) {
        Route::Forward { command, .. } => assert_eq!(command, Command::Start { sender: host, now: 5 }),
        _ => panic!("expected a forward"),
    }
    match st.route(me, Inbound::Cancel { auction: id }, 5) {
        Route::Forward { command, .. } => assert_eq!(command, Command::Cancel { sender: me }),
        _ => panic!("expected a forward"),
    }
    assert!(matches!(st.route(me, Inbound::Cancel { auction: 999 }, 0), Route::Reject { reason: Rejection::NotFound, .. }));
}

#[test]
fn retire_waits_for_followers() {
    let mut st: ServerState<u8> = ServerState::new();
    let host = ClientId(1);
    let id = st.host_auction(host, 3).unwrap();
    assert_eq!(st.retire(id, false), Err(RemoveError::StillActive));
    assert_eq!(st.retire(id, true), Err(RemoveError::StillActive));
    st.disconnect(host);
    assert_eq!(st.retire(id, true), Ok(3));
    assert_eq!(st.retire(id, true), Err(RemoveError::NotFound));
}

#[test]
fn hosting_gives_fresh_increasing_ids() {
    let mut st: ServerState<u8> = ServerState::new();
    let first = st.host_auction(ClientId(1), 1).unwrap();
    let second = st.host_auction(ClientId(2), 2).unwrap();
    assert!(second > first);
    assert_eq!(st.auctions.lookup(first), Some(&1));
    assert_eq!(st.auctions.lookup(second), Some(&2));
    assert_eq!(st.subscriptions.subscription(ClientId(2)), Some(second));
}

#[test]
fn unreachable_clients_are_unsubscribed() {
    let mut st: ServerState<u8> = ServerState::new();
    let id = st.host_auction(ClientId(1), 1).unwrap();
    assert!(matches!(st.route(ClientId(2), Inbound::Join { auction: id }, 0), Route::Joined { .. }));
    assert!(matches!(st.route(ClientId(3), Inbound::Join { auction: id }, 0), Route::Joined { .. }));
    st.drop_unreachable(&vec![ClientId(2), ClientId(9)]);
    let mut left = st.subscriptions.recipients(id);
    left.sort_by_key(|c| c.0);
    assert_eq!(left, vec![ClientId(1), ClientId(3)]);
}
