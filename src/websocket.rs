use vstd::prelude::*;

verus! {

/// How often a heartbeat tick comes, in milliseconds.
pub const HEARTBEAT_INTERVAL_MS: u64 = 5000;

/// How long a connection may stay silent before it is dropped, in milliseconds.
pub const CLIENT_TIMEOUT_MS: u64 = 10000;

/// A payload that the registry hands to one connection, to be written to its
/// stream as a single text frame.
pub struct WebsockeMessageEvent {
    pub message: String,
}

/// The notice a connection sends to the registry when it goes away.
pub enum WebsocketState {
    Closed { endpoint: String, id: u128 },
}

/// Where a connection stands in its life.
#[derive(PartialEq, Eq, Structural, Clone, Copy, Debug)]
pub enum Lifecycle {
    /// Frames flow both ways and the heartbeat runs.
    Active,
    /// The registry has been told and the stream is being released.
    Closing,
    /// The stream is released; nothing more is done.
    Terminated,
}

/// A frame received from the peer.
pub enum Frame {
    Ping(Vec<u8>),
    Pong(Vec<u8>),
    Text(String),
    Binary(Vec<u8>),
    Close,
    Nop,
}

/// What the task that owns the stream is to do next.
pub enum Action {
    Nothing,
    /// Send a ping to the peer.
    Ping,
    /// Answer the peer's ping.
    Pong(Vec<u8>),
    /// Write a text frame.
    Text(String),
    /// Write a binary frame.
    Binary(Vec<u8>),
    /// Send the notice to the registry and release the stream.
    Stop(WebsocketState),
}

/// Whether `now` lies more than the timeout after `last`.
pub open spec fn timed_out(last: u64, now: u64) -> bool {
    now as int - last as int > CLIENT_TIMEOUT_MS as int
}

/// Whether a heartbeat tick at `now` closes a connection in `state` last seen at `last`.
pub open spec fn tick_closes(state: Lifecycle, last: u64, now: u64) -> bool {
    state == Lifecycle::Active && timed_out(last, now)
}

/// The state after a heartbeat tick at `now`.
pub open spec fn after_tick(state: Lifecycle, last: u64, now: u64) -> Lifecycle {
    if tick_closes(state, last, now) {
        Lifecycle::Closing
    } else {
        state
    }
}

/// Whether `a` is the closing notice of connection `id` on `endpoint`.
pub open spec fn is_notice(a: Action, endpoint: Seq<char>, id: u128) -> bool {
    match a {
        Action::Stop(WebsocketState::Closed { endpoint: e, id: i }) => e@ == endpoint && i == id,
        _ => false,
    }
}

/// Relies on `uuid::Uuid::new_v4`: a random version-4 identifier, taken as its
/// 128-bit value. Nothing is known of which value comes.
#[verifier::external_body]
fn random_id() -> (r: u128) {
    uuid::Uuid::new_v4().as_u128()
}

/// One live streaming client bound to one endpoint, with its liveness clock.
pub struct WebsocketConnection {
    pub id: u128,
    pub endpoint: String,
    heartbeat: u64,
    state: Lifecycle,
}

impl WebsocketConnection {
    /// The connection's id.
    pub closed spec fn ident(&self) -> u128 {
        self.id
    }

    /// The endpoint the connection is bound to.
    pub closed spec fn bound_to(&self) -> Seq<char> {
        self.endpoint@
    }

    /// When the peer last showed a sign of life, in milliseconds.
    pub closed spec fn last_seen(&self) -> u64 {
        self.heartbeat
    }

    pub closed spec fn lifecycle(&self) -> Lifecycle {
        self.state
    }

    /// A new active connection on `endpoint`, with a fresh random id, seen
    /// alive at `now_ms`.
    pub fn new(endpoint: String, now_ms: u64) -> (r: Self)
        ensures
            r.bound_to() == endpoint@,
            r.last_seen() == now_ms,
            r.lifecycle() == Lifecycle::Active,
    {
        WebsocketConnection { id: random_id(), endpoint, heartbeat: now_ms, state: Lifecycle::Active }
    }

    pub fn last_heartbeat(&self) -> (r: u64)
        ensures
            r == self.last_seen(),
    {
        self.heartbeat
    }

    pub fn state(&self) -> (r: Lifecycle)
        ensures
            r == self.lifecycle(),
    {
        self.state
    }

    fn close(&mut self) -> (r: Action)
        ensures
            final(self).ident() == old(self).ident(),
            final(self).bound_to() == old(self).bound_to(),
            final(self).last_seen() == old(self).last_seen(),
            final(self).lifecycle() == Lifecycle::Closing,
            is_notice(r, old(self).bound_to(), old(self).ident()),
    {
        self.state = Lifecycle::Closing;
        Action::Stop(WebsocketState::Closed { endpoint: self.endpoint.clone(), id: self.id })
    }

    /// A heartbeat tick at `now_ms`: an active connection silent for longer
    /// than the timeout closes and reports itself; another active one pings
    /// its peer; one that is no longer active does nothing.
    pub fn heartbeat(&mut self, now_ms: u64) -> (r: Action)
        ensures
            final(self).ident() == old(self).ident(),
            final(self).bound_to() == old(self).bound_to(),
            final(self).last_seen() == old(self).last_seen(),
            final(self).lifecycle() == after_tick(old(self).lifecycle(), old(self).last_seen(), now_ms),
            tick_closes(old(self).lifecycle(), old(self).last_seen(), now_ms) ==> is_notice(
                r,
                old(self).bound_to(),
                old(self).ident(),
            ),
            old(self).lifecycle() == Lifecycle::Active && !timed_out(old(self).last_seen(), now_ms)
                ==> r is Ping,
            old(self).lifecycle() != Lifecycle::Active ==> r is Nothing,
    {
        if self.state != Lifecycle::Active {
            return Action::Nothing;
        }
        if now_ms > self.heartbeat && now_ms - self.heartbeat > CLIENT_TIMEOUT_MS {
            return self.close();
        }
        Action::Ping
    }

    /// A frame from the peer, received at `now_ms`. Any frame but `Nop`
    /// refreshes the liveness clock; a ping is answered with a pong; text and
    /// binary frames pass through unchanged; a close frame closes the
    /// connection and reports it. A connection no longer active ignores frames.
    pub fn handle(&mut self, frame: Frame, now_ms: u64) -> (r: Action)
        ensures
            final(self).ident() == old(self).ident(),
            final(self).bound_to() == old(self).bound_to(),
            old(self).lifecycle() != Lifecycle::Active ==> r is Nothing && final(self).lifecycle()
                == old(self).lifecycle() && final(self).last_seen() == old(self).last_seen(),
            old(self).lifecycle() == Lifecycle::Active ==> match frame {
                Frame::Ping(p) => r == Action::Pong(p) && final(self).last_seen() == now_ms
                    && final(self).lifecycle() == Lifecycle::Active,
                Frame::Pong(_) => r is Nothing && final(self).last_seen() == now_ms
                    && final(self).lifecycle() == Lifecycle::Active,
                Frame::Text(t) => (r matches Action::Text(u) && u@ == t@) && final(self).last_seen()
                    == now_ms && final(self).lifecycle() == Lifecycle::Active,
                Frame::Binary(b) => r == Action::Binary(b) && final(self).last_seen() == now_ms
                    && final(self).lifecycle() == Lifecycle::Active,
                Frame::Close => is_notice(r, old(self).bound_to(), old(self).ident())
                    && final(self).last_seen() == now_ms && final(self).lifecycle()
                    == Lifecycle::Closing,
                Frame::Nop => r is Nothing && final(self).last_seen() == old(self).last_seen()
                    && final(self).lifecycle() == Lifecycle::Active,
            },
    {
        if self.state != Lifecycle::Active {
            return Action::Nothing;
        }
        match frame {
            Frame::Nop => Action::Nothing,
            Frame::Ping(p) => {
                self.heartbeat = now_ms;
                Action::Pong(p)
            },
            Frame::Pong(_) => {
                self.heartbeat = now_ms;
                Action::Nothing
            },
            Frame::Text(t) => {
                self.heartbeat = now_ms;
                Action::Text(t)
            },
            Frame::Binary(b) => {
                self.heartbeat = now_ms;
                Action::Binary(b)
            },
            Frame::Close => {
                self.heartbeat = now_ms;
                self.close()
            },
        }
    }

    /// A payload fanned out to this connection: an active one writes it as
    /// one text frame; one already closing has nothing left to write to.
    pub fn deliver(&mut self, event: WebsockeMessageEvent) -> (r: Action)
        ensures
            *final(self) == *old(self),
            old(self).lifecycle() == Lifecycle::Active ==> (r matches Action::Text(t) && t@
                == event.message@),
            old(self).lifecycle() != Lifecycle::Active ==> r is Nothing,
    {
        if self.state != Lifecycle::Active {
            return Action::Nothing;
        }
        Action::Text(event.message)
    }

    /// A write to the stream failed: the peer is gone, which an active
    /// connection treats as a close.
    pub fn write_failed(&mut self) -> (r: Action)
        ensures
            final(self).ident() == old(self).ident(),
            final(self).bound_to() == old(self).bound_to(),
            final(self).last_seen() == old(self).last_seen(),
            old(self).lifecycle() == Lifecycle::Active ==> final(self).lifecycle()
                == Lifecycle::Closing && is_notice(r, old(self).bound_to(), old(self).ident()),
            old(self).lifecycle() != Lifecycle::Active ==> r is Nothing && final(self).lifecycle()
                == old(self).lifecycle(),
    {
        if self.state != Lifecycle::Active {
            return Action::Nothing;
        }
        self.close()
    }

    /// The stream has been released: the connection is terminated.
    pub fn released(&mut self)
        ensures
            final(self).ident() == old(self).ident(),
            final(self).bound_to() == old(self).bound_to(),
            final(self).last_seen() == old(self).last_seen(),
            final(self).lifecycle() == Lifecycle::Terminated,
    {
        self.state = Lifecycle::Terminated;
    }
}

} // verus!
