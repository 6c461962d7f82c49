use stateroom_server::ids::{ClientId, MessageRecipient};
use stateroom_server::messages::{MessageFromClient, MessagePayload, ServiceEvent};
use stateroom_server::room::RoomActor;

fn room(idle_ms: u32) -> RoomActor<&'static str, u32> {
    RoomActor::new("service", 0, idle_ms)
}

#[test]
fn tokens_keep_their_client_ids() {
    let mut r = room(0);
    assert_eq!(r.assign_client_id(Some("tok".to_string())), Some(ClientId(1)));
    assert_eq!(r.assign_client_id(None), Some(ClientId(2)));
    assert_eq!(r.assign_client_id(Some("tok".to_string())), Some(ClientId(1)));
    assert_eq!(r.assign_client_id(Some("tok2".to_string())), Some(ClientId(3)));
    assert_eq!(r.assign_client_id(None), Some(ClientId(4)));
}

#[test]
fn empty_token_is_a_token() {
    let mut r = room(0);
    assert_eq!(r.assign_client_id(Some(String::new())), Some(ClientId(1)));
    assert_eq!(r.assign_client_id(Some(String::new())), Some(ClientId(1)));
}

#[test]
fn connect_is_forwarded_and_installed() {
    let mut r = room(50);
    let a = r.handle_client(MessageFromClient::Connect(ClientId(1), 10), 5);
    assert_eq!(a.forward, Some(ServiceEvent::Connect(ClientId(1))));
    assert!(!a.cancel_shutdown);
    assert_eq!(a.arm_shutdown_ms, None);
    assert_eq!(r.connection_count(), 1);
    assert_eq!(r.sender(ClientId(1)), Some(&10));
    assert_eq!(r.sender(ClientId(2)), None);
}

#[test]
fn reconnect_replaces_the_session() {
    let mut r = room(0);
    r.handle_client(MessageFromClient::Connect(ClientId(1), 10), 0);
    r.handle_client(MessageFromClient::Connect(ClientId(1), 11), 0);
    assert_eq!(r.connection_count(), 1);
    assert_eq!(r.sender(ClientId(1)), Some(&11));
}

#[test]
fn messages_are_forwarded_verbatim() {
    let mut r = room(0);
    let a = r.handle_client(
        MessageFromClient::Message { from_client: ClientId(3), data: MessagePayload::Text("hi".to_string()) },
        0,
    );
    assert_eq!(a.forward, Some(ServiceEvent::Message(ClientId(3), "hi".to_string())));
    let b = r.handle_client(
        MessageFromClient::Message { from_client: ClientId(3), data: MessagePayload::Binary(vec![7]) },
        0,
    );
    assert_eq!(b.forward, Some(ServiceEvent::Binary(ClientId(3), vec![7])));
}

#[test]
fn idle_shutdown_is_armed_and_cancelled() {
    let mut r = room(50);
    r.handle_client(MessageFromClient::Connect(ClientId(1), 10), 0);
    let a = r.handle_client(MessageFromClient::Disconnect(ClientId(1)), 1000);
    assert_eq!(a.forward, Some(ServiceEvent::Disconnect(ClientId(1))));
    assert_eq!(a.arm_shutdown_ms, Some(50));
    let info = r.connection_info(1020);
    assert_eq!(info.active_connections, 0);
    assert_eq!(info.seconds_inactive, 0);
    assert!(info.listening);
    let b = r.handle_client(MessageFromClient::Connect(ClientId(2), 20), 1030);
    assert!(b.cancel_shutdown);
    assert!(!r.shutdown_fired());
}

#[test]
fn idle_shutdown_stops_an_empty_room() {
    let mut r = room(50);
    r.handle_client(MessageFromClient::Connect(ClientId(1), 10), 0);
    r.handle_client(MessageFromClient::Disconnect(ClientId(1)), 0);
    assert!(r.shutdown_fired());
}

#[test]
fn zero_idle_shutdown_never_arms() {
    let mut r = room(0);
    r.handle_client(MessageFromClient::Connect(ClientId(1), 10), 0);
    let a = r.handle_client(MessageFromClient::Disconnect(ClientId(1)), 0);
    assert_eq!(a.arm_shutdown_ms, None);
}

#[test]
fn seconds_inactive_grows_with_time() {
    let mut r = room(0);
    r.handle_client(MessageFromClient::Connect(ClientId(1), 10), 0);
    assert_eq!(r.connection_info(5000).seconds_inactive, 0);
    r.handle_client(MessageFromClient::Disconnect(ClientId(1)), 2000);
    assert_eq!(r.connection_info(2999).seconds_inactive, 0);
    assert_eq!(r.connection_info(3000).seconds_inactive, 1);
    assert_eq!(r.connection_info(9500).seconds_inactive, 7);
    assert_eq!(r.connection_info(1000).seconds_inactive, 0);
}

#[test]
fn stray_disconnect_keeps_inactivity_start() {
    let mut r = room(0);
    r.handle_client(MessageFromClient::Disconnect(ClientId(9)), 4000);
    assert_eq!(r.connection_info(4000).seconds_inactive, 4);
}

#[test]
fn fan_out_follows_the_recipient() {
    let mut r = room(0);
    r.handle_client(MessageFromClient::Connect(ClientId(1), 10), 0);
    r.handle_client(MessageFromClient::Connect(ClientId(2), 20), 0);
    r.handle_client(MessageFromClient::Connect(ClientId(3), 30), 0);
    let mut all = r.recipients(MessageRecipient::Broadcast);
    all.sort();
    assert_eq!(all, vec![ClientId(1), ClientId(2), ClientId(3)]);
    let mut except = r.recipients(MessageRecipient::EveryoneExcept(ClientId(2)));
    except.sort();
    assert_eq!(except, vec![ClientId(1), ClientId(3)]);
    assert_eq!(r.recipients(MessageRecipient::Client(ClientId(3))), vec![ClientId(3)]);
}

#[test]
fn targeted_send_to_absent_client_reaches_nobody() {
    let mut r = room(0);
    r.handle_client(MessageFromClient::Connect(ClientId(1), 10), 0);
    r.handle_client(MessageFromClient::Connect(ClientId(2), 20), 0);
    assert!(r.recipients(MessageRecipient::Client(ClientId(3))).is_empty());
    assert_eq!(r.recipients(MessageRecipient::Client(ClientId(1))), vec![ClientId(1)]);
}

#[test]
fn everyone_except_skips_the_sender() {
    let mut r = room(0);
    r.handle_client(MessageFromClient::Connect(ClientId(1), 10), 0);
    assert!(r.recipients(MessageRecipient::EveryoneExcept(ClientId(1))).is_empty());
}

#[test]
fn connected_clients_never_share_an_id() {
    let mut r = room(0);
    for _ in 0..3 {
        r.handle_client(MessageFromClient::Connect(ClientId(1), 10), 0);
    }
    r.handle_client(MessageFromClient::Connect(ClientId(2), 20), 0);
    assert_eq!(r.recipients(MessageRecipient::Broadcast).len(), 2);
}
