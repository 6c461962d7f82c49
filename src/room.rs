use vstd::prelude::*;

use crate::assoc::{has_key, lemma_lookup, lemma_push, lemma_remove, lemma_update, pairs_map, unique_keys};
use crate::ids::{addressed_to, ClientId, MessageRecipient};
use crate::messages::{event_of, ConnectionInfo, MessageFromClient, ServiceEvent};

verus! {

/// The per-room state: the connected clients and the handle of each one's
/// session (`S`), the next client id, the ids given out under tokens, and the
/// idle-shutdown bookkeeping. `A` is the handle of the room's service actor.
///
/// Both tables are lists of pairs with distinct keys: the token table is
/// keyed by strings and the connections by `ClientId`, keys on which a hash
/// map's contracts give nothing to prove with, and fan-out walks the
/// connections in a loop whose invariant speaks of positions.
pub struct RoomActor<A, S> {
    service_actor: Option<A>,
    connections: Vec<(ClientId, S)>,
    next_id: u32,
    token_to_client: Vec<(String, ClientId)>,
    shutdown_pending: bool,
    inactive_since: Option<u64>,
    idle_shutdown_ms: u32,
}

/// What the room's driver must do after the room handled a client message.
#[derive(Clone, Debug, PartialEq, Eq)]
pub struct RoomAction {
    /// The call to hand to the service actor, if any.
    pub forward: Option<ServiceEvent>,
    /// Cancel the pending idle-shutdown timer.
    pub cancel_shutdown: bool,
    /// Arm the idle-shutdown timer to fire after this many milliseconds.
    pub arm_shutdown_ms: Option<u32>,
}

/// The token table with tokens seen as character sequences.
pub open spec fn token_pairs(v: Seq<(String, ClientId)>) -> Seq<(Seq<char>, ClientId)> {
    v.map_values(|p: (String, ClientId)| (p.0@, p.1))
}

/// A token seen as characters.
pub open spec fn token_view(token: Option<String>) -> Option<Seq<char>> {
    match token {
        Some(t) => Some(t@),
        None => None,
    }
}

/// Whole seconds from `since` to `now` (both in milliseconds); zero when the
/// clock reads earlier than `since`.
pub open spec fn seconds_between(since: u64, now: u64) -> u64 {
    if now >= since {
        ((now - since) / 1000) as u64
    } else {
        0
    }
}

impl<A, S> RoomActor<A, S> {
    /// The connected clients, each with its session handle.
    pub closed spec fn connections(&self) -> Map<ClientId, S> {
        pairs_map(self.connections@)
    }

    /// The ids given out under tokens.
    pub closed spec fn tokens(&self) -> Map<Seq<char>, ClientId> {
        pairs_map(token_pairs(self.token_to_client@))
    }

    pub closed spec fn next_id_spec(&self) -> u32 {
        self.next_id
    }

    pub closed spec fn inactive_since_spec(&self) -> Option<u64> {
        self.inactive_since
    }

    pub closed spec fn shutdown_pending_spec(&self) -> bool {
        self.shutdown_pending
    }

    pub closed spec fn idle_shutdown_ms_spec(&self) -> u32 {
        self.idle_shutdown_ms
    }

    pub open spec fn has_service(&self) -> bool {
        self.service_spec().is_some()
    }

    pub closed spec fn service_spec(&self) -> Option<A> {
        self.service_actor
    }

    /// The clients a message addressed to `to` goes to.
    pub open spec fn audience(&self, to: MessageRecipient) -> Set<ClientId> {
        self.connections().dom().filter(|c: ClientId| addressed_to(to, c))
    }

    /// The room's invariant: no client twice, ids below `next_id` (never
    /// zero), one id per token, inactive exactly when empty, and a shutdown
    /// pending only while empty.
    pub closed spec fn wf(&self) -> bool {
        &&& unique_keys(self.connections@)
        &&& unique_keys(token_pairs(self.token_to_client@))
        &&& self.next_id >= 1
        &&& forall|i: int|
            0 <= i < self.token_to_client@.len() ==> 1 <= (#[trigger] self.token_to_client@[i]).1.0
                < self.next_id
        &&& (self.inactive_since.is_some() <==> self.connections@.len() == 0)
        &&& (self.shutdown_pending ==> self.connections@.len() == 0)
    }

    /// A room with no clients, inactive since `now_ms`, whose idle shutdown
    /// fires `idle_shutdown_ms` after the last client leaves (never for zero).
    pub fn new(service_actor: A, now_ms: u64, idle_shutdown_ms: u32) -> (r: Self)
        ensures
            r.wf(),
            r.connections() == Map::<ClientId, S>::empty(),
            r.tokens() == Map::<Seq<char>, ClientId>::empty(),
            r.next_id_spec() == 1,
            r.inactive_since_spec() == Some(now_ms),
            !r.shutdown_pending_spec(),
            r.idle_shutdown_ms_spec() == idle_shutdown_ms,
            r.service_spec() == Some(service_actor),
            r.has_service(),
    {
        let r = RoomActor {
            service_actor: Some(service_actor),
            connections: Vec::new(),
            next_id: 1,
            token_to_client: Vec::new(),
            shutdown_pending: false,
            inactive_since: Some(now_ms),
            idle_shutdown_ms,
        };
        assert(r.connections() =~= Map::<ClientId, S>::empty());
        assert(token_pairs(r.token_to_client@) =~= Seq::empty());
        assert(r.tokens() =~= Map::<Seq<char>, ClientId>::empty());
        r
    }

    /// The handle of the service actor, if one is attached.
    pub fn service_actor(&self) -> (r: Option<&A>)
        ensures
            r == match self.service_spec() {
                Some(a) => Some(&a),
                None => None,
            },
    {
        match &self.service_actor {
            Some(a) => Some(a),
            None => None,
        }
    }

    /// Number of clients connected.
    pub fn connection_count(&self) -> (r: usize)
        requires
            self.wf(),
        ensures
            r == self.connections().len(),
    {
        proof {
            self.lemma_len();
        }
        self.connections.len()
    }

    proof fn lemma_len(&self)
        requires
            self.wf(),
        ensures
            self.connections().dom().finite(),
            self.connections().len() == self.connections@.len(),
            self.connections@.len() == 0 <==> self.connections() == Map::<ClientId, S>::empty(),
    {
        let v = self.connections@;
        lemma_lookup(v);
        let keys = v.map_values(|p: (ClientId, S)| p.0);
        assert(keys.no_duplicates());
        assert forall|c: ClientId| #[trigger] self.connections().dom().contains(c) <==> keys.contains(c) by {
            if has_key(v, c) {
                let i = choose|i: int| 0 <= i < v.len() && v[i].0 == c;
                assert(keys[i] == c);
            }
            if keys.contains(c) {
                let i = choose|i: int| 0 <= i < keys.len() && keys[i] == c;
                assert(v[i].0 == c);
            }
        }
        assert(self.connections().dom() =~= keys.to_set());
        keys.unique_seq_to_set();
        if v.len() == 0 {
            assert(self.connections() =~= Map::<ClientId, S>::empty());
        } else {
            assert(self.connections().contains_key(v[0].0));
        }
    }

    /// Position of client `c` among the connections.
    fn find_connection(&self, c: ClientId) -> (r: Option<usize>)
        ensures
            match r {
                Some(i) => i < self.connections@.len() && self.connections@[i as int].0 == c,
                None => !has_key(self.connections@, c),
            },
    {
        let mut i: usize = 0;
        while i < self.connections.len()
            invariant
                i <= self.connections@.len(),
                forall|j: int| 0 <= j < i ==> self.connections@[j].0 != c,
            decreases self.connections@.len() - i,
        {
            if self.connections[i].0 == c {
                return Some(i);
            }
            i = i + 1;
        }
        None
    }

    /// The session handle of client `c`, if it is connected.
    pub fn sender(&self, c: ClientId) -> (r: Option<&S>)
        requires
            self.wf(),
        ensures
            match r {
                Some(s) => self.connections().contains_key(c) && *s == self.connections()[c],
                None => !self.connections().contains_key(c),
            },
    {
        proof {
            lemma_lookup(self.connections@);
        }
        match self.find_connection(c) {
            Some(i) => Some(&self.connections[i].1),
            None => None,
        }
    }

    /// Applies a message from a client session. Without an attached service
    /// actor the message is dropped and nothing changes. Otherwise a connect
    /// installs the client's session handle, ends inactivity and cancels a
    /// pending shutdown; a disconnect removes the client and, when that
    /// empties the room, marks it inactive from `now_ms` and arms the idle
    /// shutdown; every message is forwarded to the service.
    pub fn handle_client(&mut self, msg: MessageFromClient<S>, now_ms: u64) -> (r: RoomAction)
        requires
            old(self).wf(),
        ensures
            final(self).wf(),
            final(self).tokens() == old(self).tokens(),
            final(self).next_id_spec() == old(self).next_id_spec(),
            final(self).idle_shutdown_ms_spec() == old(self).idle_shutdown_ms_spec(),
            final(self).service_spec() == old(self).service_spec(),
            !old(self).has_service() ==> *final(self) == *old(self) && r == (RoomAction {
                forward: None,
                cancel_shutdown: false,
                arm_shutdown_ms: None,
            }),
            old(self).has_service() ==> r.forward == Some(event_of(msg)),
            old(self).has_service() ==> match msg {
                MessageFromClient::Connect(c, s) => {
                    &&& final(self).connections() == old(self).connections().insert(c, s)
                    &&& final(self).inactive_since_spec().is_none()
                    &&& !final(self).shutdown_pending_spec()
                    &&& r.cancel_shutdown == old(self).shutdown_pending_spec()
                    &&& r.arm_shutdown_ms.is_none()
                },
                MessageFromClient::Disconnect(c) => {
                    let emptied = old(self).connections().contains_key(c) && old(
                        self,
                    ).connections().len() == 1;
                    let arm = emptied && old(self).idle_shutdown_ms_spec() > 0;
                    &&& final(self).connections() == old(self).connections().remove(c)
                    &&& final(self).inactive_since_spec() == if emptied {
                        Some(now_ms)
                    } else {
                        old(self).inactive_since_spec()
                    }
                    &&& final(self).shutdown_pending_spec() == (old(self).shutdown_pending_spec()
                        || arm)
                    &&& !r.cancel_shutdown
                    &&& r.arm_shutdown_ms == if arm {
                        Some(old(self).idle_shutdown_ms_spec())
                    } else {
                        None
                    }
                },
                MessageFromClient::Message { .. } => {
                    &&& *final(self) == *old(self)
                    &&& !r.cancel_shutdown
                    &&& r.arm_shutdown_ms.is_none()
                },
            },
    {
        proof {
            self.lemma_len();
            lemma_lookup(self.connections@);
        }
        if self.service_actor.is_none() {
            return RoomAction { forward: None, cancel_shutdown: false, arm_shutdown_ms: None };
        }
        match msg {
            MessageFromClient::Connect(c, s) => {
                let ghost before = self.connections@;
                match self.find_connection(c) {
                    Some(i) => {
                        proof {
                            lemma_update(before, i as int, s);
                        }
                        self.connections.set(i, (c, s));
                    },
                    None => {
                        proof {
                            lemma_push(before, c, s);
                        }
                        self.connections.push((c, s));
                    },
                }
                self.inactive_since = None;
                let cancel = self.shutdown_pending;
                self.shutdown_pending = false;
                RoomAction {
                    forward: Some(ServiceEvent::Connect(c)),
                    cancel_shutdown: cancel,
                    arm_shutdown_ms: None,
                }
            },
            MessageFromClient::Disconnect(c) => {
                let ghost before = self.connections@;
                let mut arm: Option<u32> = None;
                match self.find_connection(c) {
                    Some(i) => {
                        proof {
                            lemma_remove(before, i as int);
                        }
                        self.connections.remove(i);
                        if self.connections.len() == 0 {
                            self.inactive_since = Some(now_ms);
                            if self.idle_shutdown_ms > 0 {
                                self.shutdown_pending = true;
                                arm = Some(self.idle_shutdown_ms);
                            }
                        }
                    },
                    None => {
                        assert(old(self).connections().remove(c) =~= old(self).connections());
                    },
                }
                proof {
                    self.lemma_len();
                }
                RoomAction {
                    forward: Some(ServiceEvent::Disconnect(c)),
                    cancel_shutdown: false,
                    arm_shutdown_ms: arm,
                }
            },
            MessageFromClient::Message { from_client, data } => {
                let ev = MessageFromClient::<S>::Message { from_client, data }.into_event();
                RoomAction { forward: Some(ev), cancel_shutdown: false, arm_shutdown_ms: None }
            },
        }
    }

    /// What the room's invariant gives its callers: finitely many clients,
    /// inactivity exactly while empty, a shutdown pending only while empty,
    /// and token ids between 1 and below the next id.
    pub proof fn lemma_wf_facts(&self)
        requires
            self.wf(),
        ensures
            self.connections().dom().finite(),
            self.inactive_since_spec().is_some() <==> self.connections().len() == 0,
            self.shutdown_pending_spec() ==> self.connections().len() == 0,
            self.next_id_spec() >= 1,
            forall|t: Seq<char>|
                #[trigger] self.tokens().contains_key(t) ==> 1 <= self.tokens()[t].0
                    < self.next_id_spec(),
    {
        self.lemma_len();
        let tv = token_pairs(self.token_to_client@);
        lemma_lookup(tv);
        assert forall|t: Seq<char>| #[trigger] self.tokens().contains_key(t) implies 1
            <= self.tokens()[t].0 < self.next_id_spec() by {
            let i = choose|i: int| 0 <= i < tv.len() && tv[i].0 == t;
            assert(tv[i].1 == self.token_to_client@[i].1);
        }
    }

    /// Forgets every token, so that the table stops growing; ids already
    /// given out stay taken. The room never calls this by itself: tokens are
    /// kept for the life of the room unless its owner decides otherwise.
    pub fn clear_tokens(&mut self)
        requires
            old(self).wf(),
        ensures
            final(self).wf(),
            final(self).tokens() == Map::<Seq<char>, ClientId>::empty(),
            final(self).connections() == old(self).connections(),
            final(self).next_id_spec() == old(self).next_id_spec(),
            final(self).inactive_since_spec() == old(self).inactive_since_spec(),
            final(self).shutdown_pending_spec() == old(self).shutdown_pending_spec(),
            final(self).idle_shutdown_ms_spec() == old(self).idle_shutdown_ms_spec(),
            final(self).service_spec() == old(self).service_spec(),
    {
        self.token_to_client = Vec::new();
        assert(token_pairs(self.token_to_client@) =~= Seq::empty());
        assert(self.tokens() =~= Map::<Seq<char>, ClientId>::empty());
    }

    /// Number of tokens remembered.
    pub fn token_count(&self) -> (r: usize)
        requires
            self.wf(),
        ensures
            r == self.tokens().len(),
    {
        let tv = Ghost(token_pairs(self.token_to_client@));
        proof {
            lemma_lookup(tv@);
            let keys = tv@.map_values(|p: (Seq<char>, ClientId)| p.0);
            assert(keys.no_duplicates());
            assert forall|t: Seq<char>| #[trigger] self.tokens().dom().contains(t) <==> keys.contains(t) by {
                if has_key(tv@, t) {
                    let i = choose|i: int| 0 <= i < tv@.len() && tv@[i].0 == t;
                    assert(keys[i] == t);
                }
                if keys.contains(t) {
                    let i = choose|i: int| 0 <= i < keys.len() && keys[i] == t;
                    assert(tv@[i].0 == t);
                }
            }
            assert(self.tokens().dom() =~= keys.to_set());
            keys.unique_seq_to_set();
        }
        self.token_to_client.len()
    }

    /// The connected client ids, in the room's own order.
    pub closed spec fn client_list(&self) -> Seq<ClientId> {
        self.connections@.map_values(|p: (ClientId, S)| p.0)
    }

    /// The clients that a message addressed to `to` must reach, each once.
    /// A targeted client that is not connected gives an empty list.
    pub fn recipients(&self, to: MessageRecipient) -> (r: Vec<ClientId>)
        requires
            self.wf(),
        ensures
            r@.no_duplicates(),
            r@.to_set() == self.audience(to),
    {
        let mut r: Vec<ClientId> = Vec::new();
        let mut i: usize = 0;
        let ghost v = self.connections@;
        while i < self.connections.len()
            invariant
                v == self.connections@,
                self.wf(),
                i <= v.len(),
                r@.no_duplicates(),
                forall|j: int|
                    0 <= j < r@.len() ==> has_key(v, #[trigger] r@[j]) && addressed_to(to, r@[j]),
                forall|j: int, k: int|
                    #![trigger r@[j], v[k]]
                    0 <= j < r@.len() && i <= k < v.len() ==> r@[j] != v[k].0,
                forall|k: int|
                    0 <= k < i ==> addressed_to(to, #[trigger] v[k].0) ==> r@.contains(v[k].0),
            decreases v.len() - i,
        {
            let c = self.connections[i].0;
            let wanted = match to {
                MessageRecipient::Broadcast => true,
                MessageRecipient::EveryoneExcept(skip) => c != skip,
                MessageRecipient::Client(only) => c == only,
            };
            if wanted {
                proof {
                    assert(has_key(v, c));
                }
                let ghost before = r@;
                r.push(c);
                proof {
                    assert(r@.last() == c);
                    assert forall|x: ClientId| before.contains(x) implies r@.contains(x) by {
                        let j = choose|j: int| 0 <= j < before.len() && before[j] == x;
                        assert(r@[j] == x);
                    }
                }
            }
            i = i + 1;
        }
        assert forall|c: ClientId| r@.contains(c) <==> #[trigger] self.audience(to).contains(c) by {
            if r@.contains(c) {
                let j = choose|j: int| 0 <= j < r@.len() && r@[j] == c;
                assert(has_key(v, r@[j]));
            }
            if self.audience(to).contains(c) {
                let k = choose|k: int| 0 <= k < v.len() && v[k].0 == c;
                assert(addressed_to(to, v[k].0));
            }
        }
        assert(r@.to_set() =~= self.audience(to));
        r
    }

    /// Position of token `t` in the token table.
    fn find_token(&self, t: &String) -> (r: Option<usize>)
        ensures
            match r {
                Some(i) => i < self.token_to_client@.len() && token_pairs(
                    self.token_to_client@,
                )[i as int].0 == t@,
                None => !has_key(token_pairs(self.token_to_client@), t@),
            },
    {
        let ghost tv = token_pairs(self.token_to_client@);
        let mut i: usize = 0;
        while i < self.token_to_client.len()
            invariant
                tv == token_pairs(self.token_to_client@),
                i <= self.token_to_client@.len(),
                forall|j: int| 0 <= j < i ==> tv[j].0 != t@,
            decreases self.token_to_client@.len() - i,
        {
            if self.token_to_client[i].0 == *t {
                return Some(i);
            }
            i = i + 1;
        }
        None
    }

    /// Gives out a client id. Without a token the next id is taken. With a
    /// token, the id given under it before is returned; a new token takes the
    /// next id and keeps it for the life of the room. `None` when the ids are
    /// used up.
    pub fn assign_client_id(&mut self, token: Option<String>) -> (r: Option<ClientId>)
        requires
            old(self).wf(),
        ensures
            final(self).wf(),
            assign_spec(*old(self), token_view(token), *final(self), r),
    {
        match token {
            Some(t) => {
                let ghost tv = token_pairs(self.token_to_client@);
                if let Some(i) = self.find_token(&t) {
                    let id = self.token_to_client[i].1;
                    proof {
                        lemma_lookup(tv);
                        assert(tv[i as int] == (t@, id));
                        assert(pairs_map(tv).contains_key(tv[i as int].0));
                    }
                    return Some(id);
                }
                assert(!has_key(tv, t@));
                if self.next_id == u32::MAX {
                    return None;
                }
                let id = ClientId(self.next_id);
                self.next_id = self.next_id + 1;
                proof {
                    lemma_push(tv, t@, id);
                }
                self.token_to_client.push((t, id));
                proof {
                    assert(token_pairs(self.token_to_client@) =~= tv.push((t@, id)));
                }
                Some(id)
            },
            None => {
                if self.next_id == u32::MAX {
                    return None;
                }
                let id = ClientId(self.next_id);
                self.next_id = self.next_id + 1;
                Some(id)
            },
        }
    }

    /// The room's statistics at time `now_ms`.
    pub fn connection_info(&self, now_ms: u64) -> (r: ConnectionInfo)
        requires
            self.wf(),
        ensures
            r == info_spec(self.connections().len(), self.inactive_since_spec(), now_ms),
    {
        let n = self.connection_count();
        let active: u32 = if n > u32::MAX as usize {
            u32::MAX
        } else {
            n as u32
        };
        let seconds: u64 = match self.inactive_since {
            Some(since) => if now_ms >= since {
                (now_ms - since) / 1000
            } else {
                0
            },
            None => 0,
        };
        ConnectionInfo { active_connections: active, listening: true, seconds_inactive: seconds }
    }

    /// Handles the firing of the idle-shutdown timer: the room stops exactly
    /// when no client is connected. Either way no shutdown is pending after.
    pub fn shutdown_fired(&mut self) -> (stop: bool)
        requires
            old(self).wf(),
        ensures
            final(self).wf(),
            stop == (old(self).connections().len() == 0),
            !final(self).shutdown_pending_spec(),
            final(self).connections() == old(self).connections(),
            final(self).tokens() == old(self).tokens(),
            final(self).next_id_spec() == old(self).next_id_spec(),
            final(self).inactive_since_spec() == old(self).inactive_since_spec(),
            final(self).idle_shutdown_ms_spec() == old(self).idle_shutdown_ms_spec(),
            final(self).service_spec() == old(self).service_spec(),
    {
        proof {
            self.lemma_len();
        }
        self.shutdown_pending = false;
        self.connections.len() == 0
    }
}

/// The effect of one `assign_client_id` call that took `before` to `after`
/// and returned `r`, for the given token.
pub open spec fn assign_spec<A, S>(
    before: RoomActor<A, S>,
    token: Option<Seq<char>>,
    after: RoomActor<A, S>,
    r: Option<ClientId>,
) -> bool {
    &&& after.connections() == before.connections()
    &&& after.inactive_since_spec() == before.inactive_since_spec()
    &&& after.shutdown_pending_spec() == before.shutdown_pending_spec()
    &&& after.idle_shutdown_ms_spec() == before.idle_shutdown_ms_spec()
    &&& after.service_spec() == before.service_spec()
    &&& if token.is_some() && before.tokens().contains_key(token.unwrap()) {
        &&& r == Some(before.tokens()[token.unwrap()])
        &&& after.tokens() == before.tokens()
        &&& after.next_id_spec() == before.next_id_spec()
    } else if before.next_id_spec() == u32::MAX {
        &&& r.is_none()
        &&& after.tokens() == before.tokens()
        &&& after.next_id_spec() == before.next_id_spec()
    } else {
        &&& r == Some(ClientId(before.next_id_spec()))
        &&& after.next_id_spec() == before.next_id_spec() + 1
        &&& after.tokens() == if token.is_some() {
            before.tokens().insert(token.unwrap(), ClientId(before.next_id_spec()))
        } else {
            before.tokens()
        }
    }
}

/// The statistics of a room with `n` clients, inactive since `since`, at `now`.
pub open spec fn info_spec(n: nat, since: Option<u64>, now: u64) -> ConnectionInfo {
    ConnectionInfo {
        active_connections: if n > u32::MAX {
            u32::MAX
        } else {
            n as u32
        },
        listening: true,
        seconds_inactive: match since {
            Some(s) => seconds_between(s, now),
            None => 0,
        },
    }
}

/// Each connected client id occurs once among the room's connections, so no
/// two connected clients share an id.
pub proof fn lemma_connected_ids_distinct<A, S>(room: RoomActor<A, S>)
    requires
        room.wf(),
    ensures
        room.client_list().no_duplicates(),
        room.client_list().to_set() == room.connections().dom(),
{
    room.lemma_len();
    let v = room.connections@;
    let keys = room.client_list();
    lemma_lookup(v);
    assert forall|c: ClientId| #[trigger] keys.contains(c) <==> room.connections().dom().contains(c) by {
        if has_key(v, c) {
            let i = choose|i: int| 0 <= i < v.len() && v[i].0 == c;
            assert(keys[i] == c);
        }
        if keys.contains(c) {
            let i = choose|i: int| 0 <= i < keys.len() && keys[i] == c;
            assert(v[i].0 == c);
        }
    }
    assert(keys.to_set() =~= room.connections().dom());
}

/// A message addressed to everyone except `c` never reaches `c`.
pub proof fn lemma_everyone_except_skips_sender<A, S>(room: RoomActor<A, S>, c: ClientId)
    ensures
        !room.audience(MessageRecipient::EveryoneExcept(c)).contains(c),
{
}

/// Asking twice under the same token gives the same id, whatever the room
/// did in between, as long as the ids given under tokens were kept.
pub proof fn lemma_token_gives_same_id<A, S>(
    r0: RoomActor<A, S>,
    r1: RoomActor<A, S>,
    r2: RoomActor<A, S>,
    r3: RoomActor<A, S>,
    t: Seq<char>,
    first: Option<ClientId>,
    second: Option<ClientId>,
)
    requires
        assign_spec(r0, Some(t), r1, first),
        first.is_some(),
        r1.tokens().submap_of(r2.tokens()),
        assign_spec(r2, Some(t), r3, second),
    ensures
        second == first,
{
    assert(r1.tokens().contains_key(t));
}

/// The seconds of inactivity that an empty room reports never go down as the
/// clock moves forward, and count from the moment the room became empty.
pub proof fn lemma_room_inactivity_grows<A, S>(room: RoomActor<A, S>, t1: u64, t2: u64)
    requires
        room.wf(),
        room.connections().len() == 0,
        t1 <= t2,
    ensures
        room.inactive_since_spec().is_some(),
        info_spec(room.connections().len(), room.inactive_since_spec(), t1).active_connections
            == 0,
        info_spec(room.connections().len(), room.inactive_since_spec(), t1).seconds_inactive
            == seconds_between(room.inactive_since_spec().unwrap(), t1),
        info_spec(room.connections().len(), room.inactive_since_spec(), t1).seconds_inactive
            <= info_spec(room.connections().len(), room.inactive_since_spec(), t2).seconds_inactive,
{
    room.lemma_wf_facts();
    lemma_seconds_inactive_monotone(room.connections().len(), room.inactive_since_spec(), t1, t2);
}

/// While the room stays empty, the seconds of inactivity it reports never
/// go down as the clock moves forward.
pub proof fn lemma_seconds_inactive_monotone(n: nat, since: Option<u64>, t1: u64, t2: u64)
    requires
        t1 <= t2,
    ensures
        info_spec(n, since, t1).seconds_inactive <= info_spec(n, since, t2).seconds_inactive,
{
    match since {
        Some(s) => if t1 >= s {
            assert((t1 - s) / 1000 <= (t2 - s) / 1000) by (nonlinear_arith)
                requires
                    t1 - s <= t2 - s,
                    t1 >= s,
            ;
        },
        None => {},
    }
}

} // verus!
