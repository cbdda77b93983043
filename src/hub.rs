use vstd::prelude::*;

verus! {

/// What producers put on the hub's queue.
#[derive(Debug)]
pub enum Outbound {
    /// A serialized state to send to every client.
    Payload(String),
    /// Stop the hub.
    Shutdown,
}

/// What the hub's loop hands to it: an item of its queue or a network event.
#[derive(Debug)]
pub enum HubEvent {
    Queue(Outbound),
    /// A client connected under this id.
    Connect(u64),
    /// A client went away.
    Disconnect(u64),
    /// A client sent a frame.
    Message(u64),
    /// Sending to a client failed: it counts as gone.
    SendFailed(u64),
}

/// What the loop is to do after an event.
#[derive(Debug)]
pub enum Reaction {
    Nothing,
    /// Send the frame to each of these clients, each on its own.
    Broadcast(Vec<u64>, String),
    /// Send the frame just received back to the client that sent it.
    Echo(u64),
    /// Leave the loop.
    Stop,
}

/// The hub's state: whether it runs, and the clients it sends to.
pub type HubView = (bool, Set<u64>);

/// The state after an event.
pub open spec fn after(s: HubView, ev: HubEvent) -> HubView {
    match ev {
        HubEvent::Connect(id) => if s.0 {
            (s.0, s.1.insert(id))
        } else {
            s
        },
        HubEvent::Disconnect(id) => (s.0, s.1.remove(id)),
        HubEvent::SendFailed(id) => (s.0, s.1.remove(id)),
        HubEvent::Message(_) => s,
        HubEvent::Queue(Outbound::Payload(_)) => s,
        HubEvent::Queue(Outbound::Shutdown) => (false, s.1),
    }
}

/// The clients that an event sends a payload to.
pub open spec fn delivers(s: HubView, ev: HubEvent) -> Set<u64> {
    match ev {
        HubEvent::Queue(Outbound::Payload(_)) => if s.0 {
            s.1
        } else {
            Set::empty()
        },
        _ => Set::empty(),
    }
}

/// Whether `r` is what the hub does on `ev` in state `s`.
pub open spec fn reacts(r: Reaction, s: HubView, ev: HubEvent) -> bool {
    match ev {
        HubEvent::Queue(Outbound::Payload(f)) => if s.0 {
            r matches Reaction::Broadcast(to, g) && g@ == f@ && to@.no_duplicates()
                && to@.to_set() == delivers(s, ev)
        } else {
            r is Nothing
        },
        HubEvent::Queue(Outbound::Shutdown) => if s.0 {
            r is Stop
        } else {
            r is Nothing
        },
        HubEvent::Message(id) => if s.0 && s.1.contains(id) {
            r == Reaction::Echo(id)
        } else {
            r is Nothing
        },
        _ => r is Nothing,
    }
}

/// The decisions of the broadcast hub: which clients are connected, and
/// what each event makes the loop do.
pub struct Hub {
    running: bool,
    subscribers: Vec<u64>,
}

impl View for Hub {
    type V = HubView;

    closed spec fn view(&self) -> HubView {
        (self.running, self.subscribers@.to_set())
    }
}

impl Hub {
    #[verifier::type_invariant]
    spec fn wf(&self) -> bool {
        self.subscribers@.no_duplicates()
    }

    /// A running hub with no client.
    pub fn new() -> (r: Hub)
        ensures
            r@ == (true, Set::<u64>::empty()),
    {
        let r = Hub { running: true, subscribers: Vec::new() };
        assert(r.subscribers@.to_set() =~= Set::<u64>::empty());
        r
    }

    pub fn is_running(&self) -> (r: bool)
        ensures
            r == self@.0,
    {
        self.running
    }

    /// How many clients are connected.
    pub fn subscriber_count(&self) -> (r: usize)
        ensures
            r == self@.1.len(),
    {
        proof {
            use_type_invariant(self);
            self.subscribers@.unique_seq_to_set();
        }
        self.subscribers.len()
    }

    fn position(&self, id: u64) -> (r: Option<usize>)
        ensures
            match r {
                Some(i) => i < self.subscribers@.len() && self.subscribers@[i as int] == id,
                None => !self.subscribers@.contains(id),
            },
    {
        let mut i: usize = 0;
        while i < self.subscribers.len()
            invariant
                i <= self.subscribers@.len(),
                forall|j: int| 0 <= j < i ==> self.subscribers@[j] != id,
            decreases self.subscribers@.len() - i,
        {
            if self.subscribers[i] == id {
                return Some(i);
            }
            i = i + 1;
        }
        None
    }

    fn forget(&mut self, id: u64)
        ensures
            final(self).running == old(self).running,
            final(self)@.1 == old(self)@.1.remove(id),
    {
        proof {
            use_type_invariant(&*self);
        }
        match self.position(id) {
            Some(i) => {
                // The list is rebuilt and assigned whole, so that its invariant
                // is checked at the assignment.
                let ghost s = self.subscribers@;
                let mut rest = self.subscribers.clone();
                assert(rest@ =~= s);
                rest.remove(i);
                assert(rest@.no_duplicates());
                self.subscribers = rest;
                assert(self.subscribers@.to_set() =~= s.to_set().remove(id)) by {
                    assert forall|x: u64| #[trigger] self.subscribers@.contains(x) <==> (
                    s.contains(x) && x != id) by {
                        if self.subscribers@.contains(x) {
                            let j = choose|j: int|
                                0 <= j < self.subscribers@.len() && self.subscribers@[j] == x;
                            if j < i {
                                assert(s[j] == x);
                            } else {
                                assert(s[j + 1] == x);
                            }
                        }
                        if s.contains(x) && x != id {
                            let j = choose|j: int| 0 <= j < s.len() && s[j] == x;
                            if j < i {
                                assert(self.subscribers@[j] == x);
                            } else {
                                assert(self.subscribers@[j - 1] == x);
                            }
                        }
                    }
                }
            },
            None => {
                assert(self.subscribers@.to_set() =~= self.subscribers@.to_set().remove(id));
            },
        }
    }

    /// Applies one event and says what the loop is to do.
    pub fn step(&mut self, ev: HubEvent) -> (r: Reaction)
        ensures
            final(self)@ == after(old(self)@, ev),
            reacts(r, old(self)@, ev),
    {
        proof {
            use_type_invariant(&*self);
        }
        match ev {
            HubEvent::Connect(id) => {
                if self.running {
                    let ghost s = self.subscribers@;
                    if self.position(id).is_none() {
                        let mut more = self.subscribers.clone();
                        assert(more@ =~= s);
                        more.push(id);
                        self.subscribers = more;
                        assert(self.subscribers@.to_set() =~= s.to_set().insert(id)) by {
                            assert(self.subscribers@.last() == id);
                            assert forall|x: u64| #[trigger] s.contains(x) implies self.subscribers@.contains(x) by {
                                let j = choose|j: int| 0 <= j < s.len() && s[j] == x;
                                assert(self.subscribers@[j] == x);
                            }
                        }
                    } else {
                        assert(s.to_set() =~= s.to_set().insert(id));
                    }
                }
                Reaction::Nothing
            },
            HubEvent::Disconnect(id) => {
                self.forget(id);
                Reaction::Nothing
            },
            HubEvent::SendFailed(id) => {
                self.forget(id);
                Reaction::Nothing
            },
            HubEvent::Message(id) => {
                if self.running && self.position(id).is_some() {
                    Reaction::Echo(id)
                } else {
                    Reaction::Nothing
                }
            },
            HubEvent::Queue(Outbound::Payload(frame)) => {
                if self.running {
                    Reaction::Broadcast(self.subscribers.clone(), frame)
                } else {
                    Reaction::Nothing
                }
            },
            HubEvent::Queue(Outbound::Shutdown) => {
                if self.running {
                    self.running = false;
                    Reaction::Stop
                } else {
                    Reaction::Nothing
                }
            },
        }
    }
}

/// The producers' side of the hub's queue: open until closed.
pub struct Outlet {
    open: bool,
}

impl Outlet {
    pub closed spec fn is_open(&self) -> bool {
        self.open
    }

    pub fn new() -> (r: Outlet)
        ensures
            r.is_open(),
    {
        Outlet { open: true }
    }

    /// The item to queue for a payload: none once the outlet is closed.
    pub fn send(&mut self, frame: String) -> (r: Option<Outbound>)
        ensures
            final(self).is_open() == old(self).is_open(),
            old(self).is_open() ==> (r matches Some(Outbound::Payload(f)) && f@ == frame@),
            !old(self).is_open() ==> r is None,
    {
        if self.open {
            Some(Outbound::Payload(frame))
        } else {
            None
        }
    }

    /// Closes the outlet: the item to queue is a shutdown, the first time.
    pub fn close(&mut self) -> (r: Option<Outbound>)
        ensures
            !final(self).is_open(),
            old(self).is_open() ==> (r matches Some(Outbound::Shutdown)),
            !old(self).is_open() ==> r is None,
    {
        if self.open {
            self.open = false;
            Some(Outbound::Shutdown)
        } else {
            None
        }
    }
}

/// Once the hub has taken a shutdown, no later event delivers a payload and
/// the hub stays stopped.
pub proof fn lemma_nothing_after_shutdown(s: HubView, ev: HubEvent)
    ensures
        delivers(after(s, HubEvent::Queue(Outbound::Shutdown)), ev) == Set::<u64>::empty(),
        !after(after(s, HubEvent::Queue(Outbound::Shutdown)), ev).0,
{
}

/// A payload goes to every connected client; when sending to one of them
/// fails, that client alone is dropped and the next payload goes to all the
/// others.
pub proof fn lemma_broken_client(s: HubView, id: u64, f1: String, f2: String)
    requires
        s.0,
        s.1.contains(id),
        s.1.finite(),
    ensures
        delivers(s, HubEvent::Queue(Outbound::Payload(f1))) == s.1,
        delivers(after(s, HubEvent::SendFailed(id)), HubEvent::Queue(Outbound::Payload(f2)))
            == s.1.remove(id),
        s.1.remove(id).len() == s.1.len() - 1,
{
}

} // verus!
