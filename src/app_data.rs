use vstd::prelude::*;
use crate::messages::{PublishMessage, RegisterConnection, Shutdown};
use crate::redis::{parses_as_url, BrokerError, RedisActor};
use crate::websocket::{WebsockeMessageEvent, WebsocketState};

verus! {

/// The registry table, keyed by connection id: each registered id with the
/// endpoint it is bound to and the handle that reaches it. An id stands under
/// one endpoint at most, and an endpoint is present exactly while some id
/// stands under it.
pub type Table<H> = Map<u128, (Seq<char>, H)>;

/// The ids registered under `endpoint`.
pub open spec fn subscribers<H>(t: Table<H>, endpoint: Seq<char>) -> Set<u128> {
    t.dom().filter(|id: u128| t[id].0 == endpoint)
}

/// The endpoints that have at least one connection.
pub open spec fn endpoints<H>(t: Table<H>) -> Set<Seq<char>> {
    Set::new(|e: Seq<char>| exists|id: u128| t.contains_key(id) && t[id].0 == e)
}

/// The table after `id` has been registered under `endpoint`.
pub open spec fn registered<H>(t: Table<H>, endpoint: Seq<char>, id: u128, handle: H) -> Table<H> {
    t.insert(id, (endpoint, handle))
}

/// The table after `id` has been removed from `endpoint`: unchanged where it
/// does not stand there.
pub open spec fn removed<H>(t: Table<H>, endpoint: Seq<char>, id: u128) -> Table<H> {
    if t.contains_key(id) && t[id].0 == endpoint {
        t.remove(id)
    } else {
        t
    }
}

/// The ids that a list of deliveries reaches.
pub open spec fn recipients(d: Seq<Delivery>) -> Set<u128> {
    Set::new(|id: u128| exists|k: int| 0 <= k < d.len() && d[k].to == id)
}

/// One payload to be handed to the connection with id `to`.
pub struct Delivery {
    pub to: u128,
    pub event: WebsockeMessageEvent,
}

struct Socket<H> {
    id: u128,
    endpoint: String,
    connection: H,
}

/// The registry: the single owner of the endpoint-to-connections table.
pub struct AppData<H> {
    clients: Vec<Socket<H>>,
    table: Ghost<Table<H>>,
    redis: Option<RedisActor>,
    stopped: bool,
}

impl<H> View for AppData<H> {
    type V = Table<H>;

    closed spec fn view(&self) -> Table<H> {
        self.table@
    }
}

impl<H> AppData<H> {
    pub closed spec fn wf(&self) -> bool {
        &&& forall|i: int, j: int|
            0 <= i < j < self.clients@.len() ==> self.clients@[i].id != self.clients@[j].id
        &&& forall|i: int|
            0 <= i < self.clients@.len() ==> self.table@.contains_key(#[trigger] self.clients@[i].id)
                && self.table@[self.clients@[i].id] == (
                self.clients@[i].endpoint@,
                self.clients@[i].connection,
            )
        &&& forall|id: u128| #[trigger]
            self.table@.contains_key(id) ==> exists|i: int|
                0 <= i < self.clients@.len() && #[trigger] self.clients@[i].id == id
    }

    spec fn listed_before(&self, id: u128, n: int) -> bool {
        exists|j: int| 0 <= j < n && #[trigger] self.clients@[j].id == id
    }

    /// Whether the registry has been shut down.
    pub closed spec fn is_stopped(&self) -> bool {
        self.stopped
    }

    /// Whether a coordination port is attached.
    pub closed spec fn is_coordinated(&self) -> bool {
        self.redis is Some
    }

    /// An empty registry that serves this process alone.
    pub fn new() -> (r: Self)
        ensures
            r.wf(),
            r@ == Map::<u128, (Seq<char>, H)>::empty(),
            !r.is_stopped(),
            !r.is_coordinated(),
    {
        AppData { clients: Vec::new(), table: Ghost(Map::empty()), redis: None, stopped: false }
    }

    /// An empty registry with a coordination port for the broker at `redis_url`.
    pub fn new_with_redis(redis_url: String) -> (r: Result<Self, BrokerError>)
        ensures
            r is Ok <==> parses_as_url(redis_url@),
            r matches Err(e) ==> e == BrokerError::InvalidUrl,
            r matches Ok(a) ==> a.wf() && a@ == Map::<u128, (Seq<char>, H)>::empty()
                && !a.is_stopped() && a.is_coordinated(),
    {
        let mut app_data = AppData::new();
        match RedisActor::new(redis_url) {
            Ok(redis) => {
                app_data.redis = Some(redis);
                Ok(app_data)
            },
            Err(e) => Err(e),
        }
    }

    /// Whether the registry has been shut down.
    pub fn stopped(&self) -> (r: bool)
        ensures
            r == self.is_stopped(),
    {
        self.stopped
    }

    fn find(&self, id: u128) -> (r: Option<usize>)
        requires
            self.wf(),
        ensures
            match r {
                Some(i) => i < self.clients@.len() && self.clients@[i as int].id == id,
                None => !self@.contains_key(id),
            },
    {
        let mut i: usize = 0;
        while i < self.clients.len()
            invariant
                0 <= i <= self.clients.len(),
                forall|j: int| 0 <= j < i ==> self.clients@[j].id != id,
            decreases self.clients.len() - i,
        {
            if self.clients[i].id == id {
                return Some(i);
            }
            i += 1;
        }
        None
    }

    /// Whether `id` is registered under any endpoint.
    pub fn contains(&self, id: u128) -> (r: bool)
        requires
            self.wf(),
        ensures
            r == self@.contains_key(id),
    {
        self.find(id).is_some()
    }

    /// Whether any connection is registered under `endpoint`.
    pub fn has_endpoint(&self, endpoint: &String) -> (r: bool)
        requires
            self.wf(),
        ensures
            r == endpoints(self@).contains(endpoint@),
    {
        let mut i: usize = 0;
        while i < self.clients.len()
            invariant
                self.wf(),
                0 <= i <= self.clients.len(),
                forall|j: int| 0 <= j < i ==> self.clients@[j].endpoint@ != endpoint@,
            decreases self.clients.len() - i,
        {
            if self.clients[i].endpoint == *endpoint {
                assert(self@.contains_key(self.clients@[i as int].id));
                return true;
            }
            i += 1;
        }
        proof {
            if endpoints(self@).contains(endpoint@) {
                let id = choose|id: u128| self@.contains_key(id) && self@[id].0 == endpoint@;
                let j = choose|j: int| 0 <= j < self.clients@.len() && #[trigger] self.clients@[j].id == id;
            }
        }
        false
    }

    /// The handle registered under `id`, if any.
    pub fn connection(&self, id: u128) -> (r: Option<&H>)
        requires
            self.wf(),
        ensures
            match r {
                Some(h) => self@.contains_key(id) && *h == self@[id].1,
                None => !self@.contains_key(id),
            },
    {
        match self.find(id) {
            Some(i) => Some(&self.clients[i].connection),
            None => None,
        }
    }

    /// Registers `addr` under `endpoint` with key `id`, which must be new.
    pub fn insert(&mut self, endpoint: &String, id: u128, addr: H)
        requires
            old(self).wf(),
            !old(self)@.contains_key(id),
        ensures
            final(self).wf(),
            final(self)@ == registered(old(self)@, endpoint@, id, addr),
            final(self).is_stopped() == old(self).is_stopped(),
            final(self).is_coordinated() == old(self).is_coordinated(),
    {
        let ghost before = self.clients@;
        self.table = Ghost(self.table@.insert(id, (endpoint@, addr)));
        self.clients.push(Socket { id, endpoint: endpoint.clone(), connection: addr });
        proof {
            let n = before.len() as int;
            assert(self.clients@[n].id == id);
            assert forall|k: u128| #[trigger] self.table@.contains_key(k) implies exists|i: int|
                0 <= i < self.clients@.len() && #[trigger] self.clients@[i].id == k by {
                if k == id {
                    assert(self.clients@[n].id == k);
                } else {
                    let i = choose|i: int| 0 <= i < before.len() && #[trigger] before[i].id == k;
                    assert(self.clients@[i] == before[i]);
                }
            }
        }
    }

    /// Removes `id` from `endpoint`; nothing changes where it does not stand
    /// there.
    pub fn remove(&mut self, endpoint: &String, id: u128)
        requires
            old(self).wf(),
        ensures
            final(self).wf(),
            final(self)@ == removed(old(self)@, endpoint@, id),
            final(self).is_stopped() == old(self).is_stopped(),
            final(self).is_coordinated() == old(self).is_coordinated(),
    {
        match self.find(id) {
            Some(i) => {
                if self.clients[i].endpoint == *endpoint {
                    let ghost before = self.clients@;
                    self.clients.remove(i);
                    self.table = Ghost(self.table@.remove(id));
                    proof {
                        assert forall|j: int| 0 <= j < self.clients@.len() implies
                            self.table@.contains_key(#[trigger] self.clients@[j].id)
                                && self.table@[self.clients@[j].id] == (
                                self.clients@[j].endpoint@,
                                self.clients@[j].connection,
                            ) by {
                            if j < i {
                                assert(self.clients@[j] == before[j]);
                            } else {
                                assert(self.clients@[j] == before[j + 1]);
                            }
                        }
                        assert forall|k: u128| #[trigger] self.table@.contains_key(k) implies exists|
                            j: int,
                        | 0 <= j < self.clients@.len() && #[trigger] self.clients@[j].id == k by {
                            let m = choose|m: int| 0 <= m < before.len() && #[trigger] before[m].id == k;
                            if m < i {
                                assert(self.clients@[m].id == k);
                            } else {
                                assert(self.clients@[m - 1].id == k);
                            }
                        }
                    }
                }
            },
            None => {},
        }
    }

    /// Handles a registration; nothing changes once the registry is stopped.
    pub fn register(&mut self, msg: RegisterConnection<H>)
        requires
            old(self).wf(),
            !old(self)@.contains_key(msg.id),
        ensures
            final(self).wf(),
            final(self)@ == if old(self).is_stopped() {
                old(self)@
            } else {
                registered(old(self)@, msg.endpoint@, msg.id, msg.connection)
            },
            final(self).is_stopped() == old(self).is_stopped(),
            final(self).is_coordinated() == old(self).is_coordinated(),
    {
        if !self.stopped {
            self.insert(&msg.endpoint, msg.id, msg.connection);
        }
    }

    /// Handles a connection's closing notice; nothing changes once the
    /// registry is stopped.
    pub fn closed(&mut self, msg: WebsocketState)
        requires
            old(self).wf(),
        ensures
            final(self).wf(),
            final(self)@ == match msg {
                WebsocketState::Closed { endpoint, id } => if old(self).is_stopped() {
                    old(self)@
                } else {
                    removed(old(self)@, endpoint@, id)
                },
            },
            final(self).is_stopped() == old(self).is_stopped(),
            final(self).is_coordinated() == old(self).is_coordinated(),
    {
        match msg {
            WebsocketState::Closed { endpoint, id } => {
                if !self.stopped {
                    self.remove(&endpoint, id);
                }
            },
        }
    }

    /// The fan-out of one published event: one delivery of the payload to
    /// each connection under the event's endpoint, none once stopped.
    pub fn publish(&self, msg: &PublishMessage) -> (r: Vec<Delivery>)
        requires
            self.wf(),
        ensures
            recipients(r@) == if self.is_stopped() {
                Set::<u128>::empty()
            } else {
                subscribers(self@, msg.endpoint@)
            },
            forall|k1: int, k2: int| 0 <= k1 < k2 < r@.len() ==> r@[k1].to != r@[k2].to,
            forall|k: int| 0 <= k < r@.len() ==> (#[trigger] r@[k]).event.message@ == msg.message@,
    {
        let mut r: Vec<Delivery> = Vec::new();
        if self.stopped {
            assert(recipients(r@) =~= Set::<u128>::empty());
            return r;
        }
        let mut i: usize = 0;
        while i < self.clients.len()
            invariant
                self.wf(),
                0 <= i <= self.clients.len(),
                forall|k1: int, k2: int| 0 <= k1 < k2 < r@.len() ==> r@[k1].to != r@[k2].to,
                forall|k: int| 0 <= k < r@.len() ==> (#[trigger] r@[k]).event.message@ == msg.message@,
                forall|k: int| 0 <= k < r@.len() ==> self.listed_before((#[trigger] r@[k]).to, i as int),
                forall|id: u128| recipients(r@).contains(id) <==> exists|j: int|
                    0 <= j < i && #[trigger] self.clients@[j].id == id && self.clients@[j].endpoint@ == msg.endpoint@,
            decreases self.clients.len() - i,
        {
            if self.clients[i].endpoint == msg.endpoint {
                let ghost before = r@;
                let d = Delivery {
                    to: self.clients[i].id,
                    event: WebsockeMessageEvent { message: msg.message.clone() },
                };
                r.push(d);
                proof {
                    let n = before.len() as int;
                    assert forall|k: int| 0 <= k < n implies r@[k].to != r@[n].to by {
                        assert(r@[k] == before[k]);
                        let j = choose|j: int| 0 <= j < i && #[trigger] self.clients@[j].id == before[k].to;
                    }
                    assert forall|k: int| 0 <= k < r@.len() implies self.listed_before((#[trigger] r@[k]).to, i + 1) by {
                        if k < n {
                            assert(r@[k] == before[k]);
                            let j = choose|j: int| 0 <= j < i && #[trigger] self.clients@[j].id == before[k].to;
                            assert(self.clients@[j].id == r@[k].to);
                        } else {
                            assert(self.clients@[i as int].id == r@[k].to);
                        }
                    }
                    assert forall|id: u128| recipients(r@).contains(id) <==> exists|j: int|
                        0 <= j < i + 1 && #[trigger] self.clients@[j].id == id && self.clients@[j].endpoint@ == msg.endpoint@ by {
                        if recipients(r@).contains(id) {
                            let k = choose|k: int| 0 <= k < r@.len() && r@[k].to == id;
                            if k < n {
                                assert(r@[k] == before[k]);
                                assert(recipients(before).contains(id));
                            } else {
                                assert(self.clients@[i as int].id == id);
                            }
                        }
                        if exists|j: int| 0 <= j < i + 1 && #[trigger] self.clients@[j].id == id && self.clients@[j].endpoint@ == msg.endpoint@ {
                            let j = choose|j: int| 0 <= j < i + 1 && #[trigger] self.clients@[j].id == id && self.clients@[j].endpoint@ == msg.endpoint@;
                            if j < i {
                                assert(recipients(before).contains(id));
                                let k = choose|k: int| 0 <= k < before.len() && before[k].to == id;
                                assert(r@[k] == before[k]);
                            } else {
                                assert(r@[n].to == id);
                            }
                        }
                    }
                }
            } else {
                proof {
                    assert forall|k: int| 0 <= k < r@.len() implies self.listed_before((#[trigger] r@[k]).to, i + 1) by {
                        let j = choose|j: int| 0 <= j < i && #[trigger] self.clients@[j].id == r@[k].to;
                        assert(0 <= j < i + 1 && self.clients@[j].id == r@[k].to);
                    }
                }
            }
            i += 1;
        }
        proof {
            assert forall|id: u128| recipients(r@).contains(id) <==> subscribers(self@, msg.endpoint@).contains(id) by {
                if subscribers(self@, msg.endpoint@).contains(id) {
                    let j = choose|j: int| 0 <= j < self.clients@.len() && #[trigger] self.clients@[j].id == id;
                }
            }
            assert(recipients(r@) =~= subscribers(self@, msg.endpoint@));
        }
        r
    }

    /// Handles the shutdown request: no later operation is serviced.
    pub fn shutdown(&mut self, _msg: Shutdown)
        requires
            old(self).wf(),
        ensures
            final(self).wf(),
            final(self)@ == old(self)@,
            final(self).is_stopped(),
            final(self).is_coordinated() == old(self).is_coordinated(),
    {
        let ghost before = *self;
        self.stopped = true;
        proof {
            assert forall|id: u128| #[trigger] self.table@.contains_key(id) implies exists|i: int|
                0 <= i < self.clients@.len() && #[trigger] self.clients@[i].id == id by {
                assert(before.table@.contains_key(id));
                let i = choose|i: int| 0 <= i < before.clients@.len() && #[trigger] before.clients@[i].id == id;
                assert(self.clients@[i].id == id);
            }
        }
    }
}

} // verus!
