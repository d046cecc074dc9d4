//! Bookkeeping of the open websocket connections: which senders listen on
//! which channel, and which Redis channel listeners were started.
//!
//! A sender is known here by the number the hub gave it when it connected; the
//! caller keeps the actual channel half under that number.
use vstd::prelude::*;
use vstd::hash_map::StringHashMap;
use crate::store::texts;

verus! {

/// The open connections per channel and the started listeners.
pub struct Hub {
    connections: StringHashMap<Vec<u64>>,
    channels: Vec<String>,
    listeners: StringHashMap<bool>,
    next_sender: u64,
}

/// A `Hub` as plain values.
pub struct HubView {
    /// The senders registered on each channel, in the order they connected.
    pub connections: Map<Seq<char>, Seq<u64>>,
    /// The keys under which a listener was started.
    pub listeners: Set<Seq<char>>,
    /// The number the next sender will get.
    pub next_sender: u64,
    /// The channels with connections, in the order they first got one.
    pub channels: Seq<Seq<char>>,
}

/// What `connect` reports.
#[derive(Debug, Clone, Copy, PartialEq, Eq)]
pub struct Connected {
    /// The number given to the new sender.
    pub sender: u64,
    /// Whether a Redis listener must be started for the channel.
    pub spawn_listener: bool,
}

/// What `disconnect` reports.
#[derive(Debug, Clone, Copy, PartialEq, Eq)]
pub struct Disconnected {
    /// The number of senders left on the channel, `None` if it had none.
    pub remaining: Option<usize>,
    /// Whether a listener was registered under the connection's key and must be stopped.
    pub abort_listener: bool,
}

/// The senders of a channel after one more connects to it.
pub open spec fn connect_view(
    connections: Map<Seq<char>, Seq<u64>>,
    channel: Seq<char>,
    sender: u64,
) -> Map<Seq<char>, Seq<u64>> {
    let before = if connections.contains_key(channel) {
        connections[channel]
    } else {
        Seq::empty()
    };
    connections.insert(channel, before.push(sender))
}

/// The senders registered on a channel (none if it is unknown).
pub open spec fn senders_of(connections: Map<Seq<char>, Seq<u64>>, channel: Seq<char>) -> Seq<u64> {
    if connections.contains_key(channel) {
        connections[channel]
    } else {
        Seq::empty()
    }
}

/// What `connect` does: the next sender number joins the channel's list,
/// and a listener is recorded under the connection's key unless one is
/// recorded under the channel's name; nothing, once every number was used.
pub open spec fn connect_rel(
    before: HubView,
    channel: Seq<char>,
    conn_id: Seq<char>,
    outcome: Option<Connected>,
    after: HubView,
) -> bool {
    if before.next_sender == u64::MAX {
        outcome is None && after == before
    } else {
        &&& outcome matches Some(c)
        &&& c.sender == before.next_sender
        &&& c.spawn_listener == !before.listeners.contains(channel)
        &&& after.connections == connect_view(before.connections, channel, c.sender)
        &&& after.listeners == if c.spawn_listener {
            before.listeners.insert(conn_id)
        } else {
            before.listeners
        }
        &&& after.next_sender == before.next_sender + 1
        &&& after.channels == if before.connections.contains_key(channel) {
            before.channels
        } else {
            before.channels.push(channel)
        }
    }
}

/// What `disconnect` does: the senders stay as they are; for a known channel
/// the listener recorded under the connection's key is dropped and the
/// channel's sender count reported.
pub open spec fn disconnect_rel(
    before: HubView,
    channel: Seq<char>,
    conn_id: Seq<char>,
    outcome: Disconnected,
    after: HubView,
) -> bool {
    &&& after.next_sender == before.next_sender
    &&& after.connections == before.connections
    &&& after.channels == before.channels
    &&& if before.connections.contains_key(channel) {
        &&& outcome.remaining == Some(before.connections[channel].len() as usize)
        &&& outcome.abort_listener == before.listeners.contains(conn_id)
        &&& after.listeners == before.listeners.remove(conn_id)
    } else {
        &&& outcome == Disconnected { remaining: None, abort_listener: false }
        &&& after.listeners == before.listeners
    }
}

/// No sender number is registered twice, on one channel or on two.
pub open spec fn senders_distinct(connections: Map<Seq<char>, Seq<u64>>) -> bool {
    forall|c1: Seq<char>, c2: Seq<char>, i: int, j: int|
        #![trigger connections[c1][i], connections[c2][j]]
        connections.contains_key(c1) && connections.contains_key(c2) && 0 <= i < connections[c1].len() && 0
            <= j < connections[c2].len() && connections[c1][i] == connections[c2][j] ==> c1 == c2 && i == j
}

/// The senders of each channel in `order`, channel after channel.
pub open spec fn gathered(connections: Map<Seq<char>, Seq<u64>>, order: Seq<Seq<char>>) -> Seq<u64>
    decreases order.len(),
{
    if order.len() == 0 {
        Seq::empty()
    } else {
        gathered(connections, order.drop_last()) + senders_of(connections, order.last())
    }
}

impl View for Hub {
    type V = HubView;

    closed spec fn view(&self) -> HubView {
        HubView {
            connections: self.connections@.map_values(|v: Vec<u64>| v@),
            listeners: self.listeners@.dom(),
            next_sender: self.next_sender,
            channels: texts(self.channels@),
        }
    }
}

impl Hub {
    /// The hub's internal consistency: every channel has at least one sender,
    /// every sender number was handed out already, and the channel list names
    /// each channel with connections exactly once.
    pub closed spec fn wf(&self) -> bool {
        &&& forall|c: Seq<char>|
            #![trigger self.connections@[c]]
            self.connections@.contains_key(c) ==> {
                &&& self.connections@[c]@.len() > 0
                &&& forall|i: int|
                    0 <= i < self.connections@[c]@.len() ==> #[trigger] self.connections@[c]@[i]
                        < self.next_sender
            }
        &&& texts(self.channels@).no_duplicates()
        &&& forall|c: Seq<char>|
            #![trigger self.connections@.contains_key(c)]
            self.connections@.contains_key(c) <==> texts(self.channels@).contains(c)
        &&& senders_distinct(self@.connections)
    }

    /// The properties of `wf` that callers can read off the view.
    pub proof fn lemma_wf_view(&self)
        requires
            self.wf(),
        ensures
            forall|c: Seq<char>|
                #![trigger self@.connections[c]]
                self@.connections.contains_key(c) ==> {
                    &&& self@.connections[c].len() > 0
                    &&& forall|i: int|
                        0 <= i < self@.connections[c].len() ==> #[trigger] self@.connections[c][i]
                            < self@.next_sender
                },
            senders_distinct(self@.connections),
    {
    }

    /// An empty hub.
    pub fn new() -> (hub: Hub)
        ensures
            hub.wf(),
            hub@.connections == Map::<Seq<char>, Seq<u64>>::empty(),
            hub@.listeners == Set::<Seq<char>>::empty(),
            hub@.next_sender == 0,
            hub@.channels == Seq::<Seq<char>>::empty(),
    {
        let hub = Hub {
            connections: StringHashMap::new(),
            channels: Vec::new(),
            listeners: StringHashMap::new(),
            next_sender: 0,
        };
        assert(hub@.connections =~= Map::<Seq<char>, Seq<u64>>::empty());
        assert(hub@.listeners =~= Set::<Seq<char>>::empty());
        assert(texts(hub.channels@) =~= Seq::<Seq<char>>::empty());
        hub
    }

    /// Registers a new connection on `channel`: the sender gets the next
    /// number and joins the channel's list; a listener is started, under the
    /// connection's key `conn_id`, unless one is registered under the
    /// channel's own name. `None`, and no change, once every number was used.
    pub fn connect(&mut self, channel: &String, conn_id: &String) -> (outcome: Option<Connected>)
        requires
            old(self).wf(),
        ensures
            final(self).wf(),
            connect_rel(old(self)@, channel@, conn_id@, outcome, final(self)@),
    {
        if self.next_sender == u64::MAX {
            return None;
        }
        let sender = self.next_sender;
        let ghost old_conns = self.connections@;
        let ghost old_channels = self.channels@;
        let mut list: Vec<u64> = match self.connections.get(channel.as_str()) {
            Some(v) => copy_ids(v),
            None => Vec::new(),
        };
        list.push(sender);
        let is_new = !self.connections.contains_key(channel.as_str());
        self.connections.insert(channel.clone(), list);
        if is_new {
            self.channels.push(channel.clone());
        }
        self.next_sender = sender + 1;
        let spawn_listener = !self.listeners.contains_key(channel.as_str());
        if spawn_listener {
            self.listeners.insert(conn_id.clone(), true);
        }
        proof {
            assert(self@.connections =~= connect_view(old(self)@.connections, channel@, sender));
            if is_new {
                assert(texts(self.channels@) =~= texts(old_channels).push(channel@));
                assert forall|c: Seq<char>| self.connections@.contains_key(c) <==> texts(
                    self.channels@,
                ).contains(c) by {
                    if c == channel@ {
                        assert(texts(self.channels@)[texts(old_channels).len() as int] == c);
                    } else if texts(old_channels).contains(c) {
                        let j = choose|j: int| 0 <= j < texts(old_channels).len() && texts(old_channels)[j] == c;
                        assert(texts(self.channels@)[j] == c);
                    } else if texts(self.channels@).contains(c) {
                        let j = choose|j: int| 0 <= j < texts(self.channels@).len() && texts(self.channels@)[j] == c;
                        if j < texts(old_channels).len() {
                            assert(texts(old_channels)[j] == c);
                        }
                    }
                }
            } else {
                assert(self.channels@ == old_channels);
            }
            if spawn_listener {
                assert(self@.listeners =~= old(self)@.listeners.insert(conn_id@));
            } else {
                assert(self@.listeners =~= old(self)@.listeners);
            }
            assert forall|c: Seq<char>| #![trigger self.connections@[c]] self.connections@.contains_key(c) implies {
                &&& self.connections@[c]@.len() > 0
                &&& forall|i: int|
                    0 <= i < self.connections@[c]@.len() ==> #[trigger] self.connections@[c]@[i]
                        < self.next_sender
            } by {
                if c != channel@ {
                    assert(self.connections@[c] == old_conns[c]);
                    assert(old_conns.contains_key(c));
                    assert forall|i: int| 0 <= i < self.connections@[c]@.len() implies #[trigger] self.connections@[c]@[i]
                        < self.next_sender by {
                        assert(old_conns[c]@[i] < sender);
                    }
                } else {
                    assert forall|i: int| 0 <= i < self.connections@[c]@.len() implies #[trigger] self.connections@[c]@[i]
                        < self.next_sender by {
                        if i < self.connections@[c]@.len() - 1 {
                            assert(old_conns.contains_key(c));
                            assert(old_conns[c]@[i] < sender);
                        }
                    }
                }
            }
        }
        Some(Connected { sender, spawn_listener })
    }

    /// Unregisters a connection from `channel` when the socket closes. The
    /// connection's own sender handle is a separate copy from the one kept in
    /// the channel's list, and the list is filtered by identity against that
    /// copy, so every registered sender stays. The listener registered under
    /// the connection's key `conn_id` is dropped (and reported, to be
    /// stopped); a channel whose list is empty would be removed. Nothing
    /// changes for an unknown channel.
    pub fn disconnect(&mut self, channel: &String, conn_id: &String) -> (outcome: Disconnected)
        requires
            old(self).wf(),
        ensures
            final(self).wf(),
            disconnect_rel(old(self)@, channel@, conn_id@, outcome, final(self)@),
    {
        if !self.connections.contains_key(channel.as_str()) {
            return Disconnected { remaining: None, abort_listener: false };
        }
        let remaining = match self.connections.get(channel.as_str()) {
            Some(v) => v.len(),
            None => 0,
        };
        let abort_listener = self.listeners.contains_key(conn_id.as_str());
        self.listeners.remove(conn_id.as_str());
        // A registered channel always has a sender, and none is removed here,
        // so the channel is never left empty and stays registered.
        assert(remaining > 0);
        proof {
            assert(self@.listeners =~= old(self)@.listeners.remove(conn_id@));
        }
        Disconnected { remaining: Some(remaining), abort_listener }
    }

    /// The senders registered on `channel`, to which a message published on
    /// it is forwarded.
    pub fn recipients(&self, channel: &String) -> (senders: Vec<u64>)
        ensures
            senders@ == senders_of(self@.connections, channel@),
    {
        match self.connections.get(channel.as_str()) {
            Some(v) => copy_ids(v),
            None => Vec::new(),
        }
    }

    /// Every registered sender, channel by channel.
    pub fn all_recipients(&self) -> (senders: Vec<u64>)
        requires
            self.wf(),
        ensures
            senders@ == gathered(self@.connections, self@.channels),
            senders@.no_duplicates(),
            forall|s: u64|
                senders@.contains(s) <==> exists|c: Seq<char>|
                    #![trigger self@.connections[c]]
                    self@.connections.contains_key(c) && self@.connections[c].contains(s),
    {
        let mut senders: Vec<u64> = Vec::new();
        let n = self.channels.len();
        let mut i: usize = 0;
        while i < n
            invariant
                self.wf(),
                n == self.channels@.len(),
                i <= n,
                forall|s: u64|
                    senders@.contains(s) <==> exists|j: int|
                        0 <= j < i && #[trigger] self@.connections[texts(self.channels@)[j]].contains(s),
                senders@ == gathered(self@.connections, texts(self.channels@).take(i as int)),
                senders@.no_duplicates(),
            decreases n - i,
        {
            let channel = &self.channels[i];
            assert(texts(self.channels@)[i as int] == channel@);
            assert(texts(self.channels@).contains(channel@));
            let ids = match self.connections.get(channel.as_str()) {
                Some(v) => copy_ids(v),
                None => Vec::new(),
            };
            assert(ids@ == self@.connections[channel@]);
            let ghost before = senders@;
            let ghost ci = i as int;
            let mut k: usize = 0;
            while k < ids.len()
                invariant
                    self.wf(),
                    0 <= ci < texts(self.channels@).len(),
                    texts(self.channels@)[ci] == channel@,
                    self@.connections.contains_key(channel@),
                    ids@ == self@.connections[channel@],
                    k <= ids@.len(),
                    senders@ =~= before + ids@.take(k as int),
                    senders@.no_duplicates(),
                    forall|s: u64|
                        before.contains(s) ==> exists|j: int|
                            0 <= j < ci && #[trigger] self@.connections[texts(self.channels@)[j]].contains(s),
                decreases ids@.len() - k,
            {
                proof {
                    let x = ids@[k as int];
                    assert forall|p: int| 0 <= p < senders@.len() implies senders@[p] != x by {
                        if p < before.len() {
                            if senders@[p] == x {
                                assert(before.contains(x));
                                let j = choose|j: int|
                                    0 <= j < ci && #[trigger] self@.connections[texts(self.channels@)[j]].contains(x);
                                let cj = texts(self.channels@)[j];
                                assert(texts(self.channels@).contains(cj));
                                assert(self@.connections.contains_key(cj));
                                let q = choose|q: int| 0 <= q < self@.connections[cj].len() && self@.connections[cj][q] == x;
                                assert(self@.connections[cj][q] == self@.connections[channel@][k as int]);
                                assert(cj == channel@);
                                assert(texts(self.channels@)[j] == texts(self.channels@)[ci]);
                            }
                        } else {
                            let p2 = p - before.len();
                            assert(senders@[p] == ids@[p2]);
                            assert(self@.connections[channel@][p2] != self@.connections[channel@][k as int]);
                        }
                    }
                }
                senders.push(ids[k]);
                assert(ids@.take(k as int + 1) =~= ids@.take(k as int).push(ids@[k as int]));
                k = k + 1;
            }
            assert(ids@.take(ids@.len() as int) =~= ids@);
            assert(ids@ == self@.connections[channel@]);
            assert forall|s: u64| senders@.contains(s) <==> exists|j: int|
                0 <= j < i + 1 && #[trigger] self@.connections[texts(self.channels@)[j]].contains(s) by {
                if senders@.contains(s) {
                    let p = choose|p: int| 0 <= p < senders@.len() && senders@[p] == s;
                    if p < before.len() {
                        assert(before.contains(s));
                    } else {
                        assert(ids@[p - before.len()] == s);
                        assert(self@.connections[texts(self.channels@)[i as int]].contains(s));
                    }
                }
                if exists|j: int| 0 <= j < i + 1 && #[trigger] self@.connections[texts(self.channels@)[j]].contains(s) {
                    let j = choose|j: int| 0 <= j < i + 1 && #[trigger] self@.connections[texts(self.channels@)[j]].contains(s);
                    if j < i {
                        assert(before.contains(s));
                        let p = choose|p: int| 0 <= p < before.len() && before[p] == s;
                        assert(senders@[p] == s);
                    } else {
                        let p = choose|p: int| 0 <= p < ids@.len() && ids@[p] == s;
                        assert(senders@[before.len() + p] == s);
                    }
                }
            }
            assert(texts(self.channels@).take(i + 1).drop_last() =~= texts(self.channels@).take(i as int));
            assert(senders_of(self@.connections, channel@) == ids@);
            i = i + 1;
        }
        assert(texts(self.channels@).take(n as int) =~= texts(self.channels@));
        assert forall|s: u64| senders@.contains(s) <==> exists|c: Seq<char>|
            #![trigger self@.connections[c]]
            self@.connections.contains_key(c) && self@.connections[c].contains(s) by {
            if senders@.contains(s) {
                let j = choose|j: int| 0 <= j < n && #[trigger] self@.connections[texts(self.channels@)[j]].contains(s);
                let c = texts(self.channels@)[j];
                assert(texts(self.channels@).contains(c));
                assert(self@.connections.contains_key(c) && self@.connections[c].contains(s));
            }
            if exists|c: Seq<char>|
                #![trigger self@.connections[c]]
                self@.connections.contains_key(c) && self@.connections[c].contains(s) {
                let c = choose|c: Seq<char>|
                    #![trigger self@.connections[c]]
                    self@.connections.contains_key(c) && self@.connections[c].contains(s);
                assert(self.connections@.contains_key(c));
                let j = choose|j: int| 0 <= j < texts(self.channels@).len() && texts(self.channels@)[j] == c;
                assert(self@.connections[texts(self.channels@)[j]].contains(s));
            }
        }
        senders
    }
}

/// A connection that opens and then closes leaves the recorded listeners as
/// they were (its key was not recorded before), and its sender stays on the
/// channel: the close reports one more sender than the channel had.
pub proof fn lemma_connect_then_disconnect(
    h0: HubView,
    channel: Seq<char>,
    conn_id: Seq<char>,
    c: Connected,
    h1: HubView,
    d: Disconnected,
    h2: HubView,
)
    requires
        !h0.listeners.contains(conn_id),
        connect_rel(h0, channel, conn_id, Some(c), h1),
        disconnect_rel(h1, channel, conn_id, d, h2),
    ensures
        h2.listeners == h0.listeners,
        h2.connections == connect_view(h0.connections, channel, c.sender),
        d.remaining == Some((senders_of(h0.connections, channel).len() + 1) as usize),
        d.abort_listener == c.spawn_listener,
{
    assert(h1.connections.contains_key(channel));
    assert(h2.listeners =~= h0.listeners);
}

/// A message published on a channel reaches every sender that connected to
/// it, the newest last.
pub proof fn lemma_connected_sender_receives(
    h0: HubView,
    channel: Seq<char>,
    conn_id: Seq<char>,
    c: Connected,
    h1: HubView,
)
    requires
        connect_rel(h0, channel, conn_id, Some(c), h1),
    ensures
        senders_of(h1.connections, channel) == senders_of(h0.connections, channel).push(c.sender),
{
}

fn copy_ids(v: &Vec<u64>) -> (copy: Vec<u64>)
    ensures
        copy@ == v@,
{
    let mut copy: Vec<u64> = Vec::new();
    let mut i: usize = 0;
    while i < v.len()
        invariant
            i <= v@.len(),
            copy@ =~= v@.take(i as int),
        decreases v@.len() - i,
    {
        copy.push(v[i]);
        assert(v@.take(i as int + 1) =~= v@.take(i as int).push(v@[i as int]));
        i = i + 1;
    }
    assert(v@.take(v@.len() as int) =~= v@);
    copy
}

} // verus!
