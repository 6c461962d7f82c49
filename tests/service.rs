use stateroom_server::ids::{ClientId, MessageRecipient};
use stateroom_server::messages::{MessageFromServer, MessagePayload, ServiceEvent};
use stateroom_server::room::RoomActor;
use stateroom_server::messages::MessageFromClient;
use stateroom_server::service::{
    CallLog, ContextRequest, ServiceActor, ServiceActorContext, StateroomService, TimerAction,
};

#[derive(Default)]
struct Echo {
    log: Vec<String>,
}

impl StateroomService for Echo {
    fn received(&self) -> CallLog {
        panic!("the record of calls is kept for proofs only")
    }

    fn connect(&mut self, client_id: ClientId, _ctx: &mut ServiceActorContext) {
        self.log.push(format!("connect {}", client_id.0));
    }

    fn disconnect(&mut self, client_id: ClientId, _ctx: &mut ServiceActorContext) {
        self.log.push(format!("disconnect {}", client_id.0));
    }

    fn message(&mut self, client_id: ClientId, message: &str, ctx: &mut ServiceActorContext) {
        self.log.push(format!("message {} {}", client_id.0, message));
        ctx.send_message(
            MessageRecipient::Broadcast,
            &format!("User {} sent '{}'", client_id.0, message),
        );
    }

    fn binary(&mut self, client_id: ClientId, message: &[u8], ctx: &mut ServiceActorContext) {
        self.log.push(format!("binary {} {}", client_id.0, message.len()));
        ctx.send_binary(MessageRecipient::Client(client_id), message);
    }

    fn timer(&mut self, ctx: &mut ServiceActorContext) {
        self.log.push("timer".to_string());
        ctx.set_timer(0);
    }
}

#[test]
fn echo_broadcast_reaches_each_client_once() {
    let mut room: RoomActor<(), u32> = RoomActor::new((), 0, 0);
    let mut actor = ServiceActor::new(Echo::default());
    let inbound = vec![
        MessageFromClient::Connect(ClientId(1), 1),
        MessageFromClient::Connect(ClientId(2), 2),
        MessageFromClient::Message { from_client: ClientId(1), data: MessagePayload::Text("hi".to_string()) },
    ];
    for m in inbound {
        if let Some(ev) = room.handle_client(m, 0).forward {
            actor.handle_event(ev);
        }
    }
    let requests = actor.take_requests();
    assert_eq!(requests.len(), 1);
    let out = match &requests[0] {
        ContextRequest::Send(m) => m.clone(),
        ContextRequest::SetTimer(_) => panic!("unexpected timer request"),
    };
    assert_eq!(
        out,
        MessageFromServer {
            to_client: MessageRecipient::Broadcast,
            data: MessagePayload::Text("User 1 sent 'hi'".to_string()),
        }
    );
    let mut to = room.recipients(out.to_client);
    to.sort();
    assert_eq!(to, vec![ClientId(1), ClientId(2)]);
    assert!(actor.take_requests().is_empty());
    assert_eq!(actor.service().log, vec!["connect 1", "connect 2", "message 1 hi"]);
}

#[test]
fn events_reach_the_service_in_order() {
    let mut actor = ServiceActor::new(Echo::default());
    actor.handle_all(vec![
        ServiceEvent::Connect(ClientId(1)),
        ServiceEvent::Message(ClientId(1), "a".to_string()),
        ServiceEvent::Binary(ClientId(1), vec![1, 2]),
        ServiceEvent::Disconnect(ClientId(1)),
    ]);
    assert_eq!(
        actor.service().log,
        vec!["connect 1", "message 1 a", "binary 1 2", "disconnect 1"]
    );
    let requests = actor.take_requests();
    assert_eq!(requests.len(), 2);
    assert_eq!(
        requests[1],
        ContextRequest::Send(MessageFromServer {
            to_client: MessageRecipient::Client(ClientId(1)),
            data: MessagePayload::Binary(vec![1, 2]),
        })
    );
}

#[test]
fn replaced_timer_fires_once() {
    let mut actor = ServiceActor::new(Echo::default());
    assert_eq!(actor.set_timer(100), TimerAction { cancel_previous: false, schedule_ms: Some(100) });
    assert_eq!(actor.set_timer(50), TimerAction { cancel_previous: true, schedule_ms: Some(50) });
    assert!(actor.timer_finished());
    assert!(!actor.timer_finished());
    assert_eq!(actor.service().log, vec!["timer"]);
    assert_eq!(actor.take_requests(), vec![ContextRequest::SetTimer(0)]);
}

#[test]
fn zero_timer_cancels() {
    let mut actor = ServiceActor::new(Echo::default());
    actor.set_timer(20);
    assert_eq!(actor.set_timer(0), TimerAction { cancel_previous: true, schedule_ms: None });
    assert!(!actor.timer_finished());
    assert_eq!(actor.set_timer(0), TimerAction { cancel_previous: false, schedule_ms: None });
}

#[test]
fn context_queues_requests_in_order() {
    let mut ctx = ServiceActorContext::new();
    ctx.send_message(MessageRecipient::Client(ClientId(2)), "x");
    ctx.set_timer(5);
    ctx.send_binary(MessageRecipient::Broadcast, &[4]);
    assert_eq!(
        ctx.take_requests(),
        vec![
            ContextRequest::Send(MessageFromServer::new(MessageRecipient::Client(ClientId(2)), "x".to_string())),
            ContextRequest::SetTimer(5),
            ContextRequest::Send(MessageFromServer::new_binary(MessageRecipient::Broadcast, vec![4])),
        ]
    );
    assert!(ctx.take_requests().is_empty());
}
