use vstd::prelude::*;

verus! {

/// Whether `url::Url::parse` accepts the text as an absolute URL.
pub uninterp spec fn parses_as_url(s: Seq<char>) -> bool;

/// Relies on `url::Url::parse`: whether it succeeds depends on the text alone.
#[verifier::external_body]
fn url_parses(s: &str) -> (r: bool)
    ensures
        r == parses_as_url(s@),
{
    url::Url::parse(s).is_ok()
}

/// Why a coordination port could not be set up.
#[derive(PartialEq, Eq, Structural, Clone, Copy, Debug)]
pub enum BrokerError {
    /// The broker's connection string is not a URL.
    InvalidUrl,
}

/// The seam through which the registry may mirror publishes to other
/// instances and hear of theirs. It keeps the broker's address and the
/// channels it listens on; it performs no network I/O of its own.
pub struct RedisActor {
    url: String,
    channels: Vec<String>,
}

impl RedisActor {
    pub closed spec fn broker_url(&self) -> Seq<char> {
        self.url@
    }

    /// The channels subscribed to, in the order of their first subscription.
    pub closed spec fn subscriptions(&self) -> Seq<Seq<char>> {
        self.channels@.map_values(|c: String| c@)
    }

    /// A port for the broker at `redis_url`, which must be a URL.
    pub fn new(redis_url: String) -> (r: Result<RedisActor, BrokerError>)
        ensures
            r is Ok <==> parses_as_url(redis_url@),
            r matches Err(e) ==> e == BrokerError::InvalidUrl,
            r matches Ok(a) ==> a.broker_url() == redis_url@ && a.subscriptions() == Seq::<
                Seq<char>,
            >::empty(),
    {
        if url_parses(redis_url.as_str()) {
            let r = RedisActor { url: redis_url, channels: Vec::new() };
            assert(r.subscriptions() =~= Seq::<Seq<char>>::empty());
            Ok(r)
        } else {
            Err(BrokerError::InvalidUrl)
        }
    }

    pub fn url(&self) -> (r: &String)
        ensures
            r@ == self.broker_url(),
    {
        &self.url
    }

    /// Listens on `channel` too; a channel already listened on is kept once.
    pub fn subscribe(&mut self, channel: String)
        ensures
            final(self).broker_url() == old(self).broker_url(),
            final(self).subscriptions() == if old(self).subscriptions().contains(channel@) {
                old(self).subscriptions()
            } else {
                old(self).subscriptions().push(channel@)
            },
    {
        let mut i: usize = 0;
        while i < self.channels.len()
            invariant
                0 <= i <= self.channels.len(),
                forall|j: int| 0 <= j < i ==> self.channels@[j]@ != channel@,
            decreases self.channels.len() - i,
        {
            if self.channels[i] == channel {
                assert(self.subscriptions()[i as int] == channel@);
                return;
            }
            i += 1;
        }
        proof {
            if self.subscriptions().contains(channel@) {
                let k = choose|k: int|
                    0 <= k < self.subscriptions().len() && self.subscriptions()[k] == channel@;
                assert(self.channels@[k]@ == channel@);
            }
        }
        let ghost before = self.subscriptions();
        self.channels.push(channel);
        assert(self.subscriptions() =~= before.push(channel@));
    }

    /// Whether the port listens on `channel`.
    pub fn is_subscribed(&self, channel: &String) -> (r: bool)
        ensures
            r == self.subscriptions().contains(channel@),
    {
        let mut i: usize = 0;
        while i < self.channels.len()
            invariant
                0 <= i <= self.channels.len(),
                forall|j: int| 0 <= j < i ==> self.channels@[j]@ != channel@,
            decreases self.channels.len() - i,
        {
            if self.channels[i] == *channel {
                assert(self.subscriptions()[i as int] == channel@);
                return true;
            }
            i += 1;
        }
        proof {
            if self.subscriptions().contains(channel@) {
                let k = choose|k: int|
                    0 <= k < self.subscriptions().len() && self.subscriptions()[k] == channel@;
                assert(self.channels@[k]@ == channel@);
            }
        }
        false
    }
}

} // verus!
