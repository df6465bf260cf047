//! The reload hub: the live-reload clients that are connected right now,
//! each under the address of its peer, and what a reload is sent to.
//!
//! The hub keeps the handle on which a client is written to, and never
//! writes itself. `W` is the type of that handle.

use vstd::prelude::*;

verus! {

/// The one message that is ever sent to a client.
pub const RELOAD_SIGNAL: &'static str = "reload";

/// The addresses of the clients, in their order.
pub open spec fn addresses_of<W>(clients: Seq<(Seq<char>, W)>) -> Seq<Seq<char>> {
    Seq::new(clients.len(), |i: int| clients[i].0)
}

/// Some client is registered under the address.
pub open spec fn has_client<W>(clients: Seq<(Seq<char>, W)>, address: Seq<char>) -> bool {
    exists|i: int| 0 <= i < clients.len() && (#[trigger] clients[i]).0 == address
}

/// No two clients share an address.
pub open spec fn distinct<W>(clients: Seq<(Seq<char>, W)>) -> bool {
    forall|i: int, j: int|
        0 <= i < j < clients.len() ==> (#[trigger] clients[i]).0 != (#[trigger] clients[j]).0
}

/// The test that a client is registered under the address.
pub open spec fn is_under<W>(address: Seq<char>) -> spec_fn((Seq<char>, W)) -> bool {
    |c: (Seq<char>, W)| c.0 == address
}

/// The test that a client is registered under another address.
pub open spec fn is_not_under<W>(address: Seq<char>) -> spec_fn((Seq<char>, W)) -> bool {
    |c: (Seq<char>, W)| c.0 != address
}

/// The number of clients that are registered under the address.
pub open spec fn entries<W>(clients: Seq<(Seq<char>, W)>, address: Seq<char>) -> nat {
    clients.filter(is_under(address)).len()
}

/// The clients without the one under the address, if there is one.
pub open spec fn unregistered<W>(clients: Seq<(Seq<char>, W)>, address: Seq<char>) -> Seq<
    (Seq<char>, W),
> {
    clients.filter(is_not_under(address))
}

/// The clients with a new one under the address. It takes the place of a
/// client that was registered under the same address before.
pub open spec fn registered<W>(clients: Seq<(Seq<char>, W)>, address: Seq<char>, writer: W) -> Seq<
    (Seq<char>, W),
> {
    unregistered(clients, address).push((address, writer))
}

struct Client<W> {
    address: String,
    writer: W,
}

/// The registry of the connected clients.
pub struct WebSocketServer<W> {
    clients: Vec<Client<W>>,
}

impl<W> View for WebSocketServer<W> {
    type V = Seq<(Seq<char>, W)>;

    closed spec fn view(&self) -> Seq<(Seq<char>, W)> {
        Seq::new(self.clients@.len(), |i: int| (self.clients@[i].address@, self.clients@[i].writer))
    }
}

proof fn lemma_filter_keeps_all<A>(s: Seq<A>, pred: spec_fn(A) -> bool)
    requires
        forall|i: int| 0 <= i < s.len() ==> pred(#[trigger] s[i]),
    ensures
        s.filter(pred) == s,
    decreases s.len(),
{
    reveal(Seq::filter);
    if s.len() > 0 {
        lemma_filter_keeps_all(s.drop_last(), pred);
        assert(s.drop_last().push(s.last()) =~= s);
    }
}

proof fn lemma_filter_drops_one<A>(s: Seq<A>, pred: spec_fn(A) -> bool, i: int)
    requires
        0 <= i < s.len(),
        !pred(s[i]),
        forall|j: int| 0 <= j < s.len() && j != i ==> pred(#[trigger] s[j]),
    ensures
        s.filter(pred) == s.remove(i),
    decreases s.len(),
{
    reveal(Seq::filter);
    if i == s.len() - 1 {
        lemma_filter_keeps_all(s.drop_last(), pred);
        assert(s.drop_last() =~= s.remove(i));
    } else {
        lemma_filter_drops_one(s.drop_last(), pred, i);
        assert(s.drop_last().remove(i).push(s.last()) =~= s.remove(i));
    }
}

proof fn lemma_unregistered_has_none<W>(clients: Seq<(Seq<char>, W)>, address: Seq<char>)
    ensures
        !has_client(unregistered(clients, address), address),
        entries(unregistered(clients, address), address) == 0,
{
    let keep = is_not_under::<W>(address);
    let hit = is_under::<W>(address);
    let rest = clients.filter(keep);
    assert forall|i: int| 0 <= i < rest.len() implies !hit(#[trigger] rest[i]) by {
        clients.lemma_filter_pred(keep, i);
    }
    rest.lemma_all_neg_filter_empty(hit);
}

impl<W> WebSocketServer<W> {
    /// No two clients are registered under one address.
    pub open spec fn wf(&self) -> bool {
        distinct(self@)
    }

    /// A hub without clients.
    pub fn new() -> (server: Self)
        ensures
            server@ == Seq::<(Seq<char>, W)>::empty(),
            server.wf(),
    {
        let server = WebSocketServer { clients: Vec::new() };
        assert(server@ =~= Seq::empty());
        server
    }

    fn position(&self, address: &String) -> (found: Option<usize>)
        ensures
            match found {
                Some(i) => i < self@.len() && self@[i as int].0 == address@,
                None => !has_client(self@, address@),
            },
    {
        let mut i: usize = 0;
        while i < self.clients.len()
            invariant
                i <= self.clients@.len(),
                forall|k: int| 0 <= k < i ==> (#[trigger] self@[k]).0 != address@,
            decreases self.clients@.len() - i,
        {
            if self.clients[i].address == *address {
                return Some(i);
            }
            i += 1;
        }
        None
    }

    /// Registers a client under its address. A client that was registered
    /// under the same address before is dropped: the last connection wins.
    pub fn add_client(&mut self, address: String, stream: W)
        requires
            old(self).wf(),
        ensures
            final(self)@ == registered(old(self)@, address@, stream),
            final(self).wf(),
    {
        self.remove_client(&address);
        let ghost rest = self@;
        proof {
            lemma_unregistered_has_none(old(self)@, address@);
        }
        self.clients.push(Client { address, writer: stream });
        assert(self@ =~= rest.push((address@, stream)));
        assert forall|i: int, j: int| 0 <= i < j < self@.len() implies (#[trigger] self@[i]).0 != (
        #[trigger] self@[j]).0 by {
            assert(self@[i] == rest[i]);
            if j < rest.len() {
                assert(self@[j] == rest[j]);
            }
        }
    }

    /// Forgets the client under the address. Nothing happens if there is
    /// none.
    pub fn remove_client(&mut self, address: &String)
        requires
            old(self).wf(),
        ensures
            final(self)@ == unregistered(old(self)@, address@),
            final(self).wf(),
    {
        let ghost keep = is_not_under::<W>(address@);
        match self.position(address) {
            Some(i) => {
                self.clients.remove(i);
                assert(self@ =~= old(self)@.remove(i as int));
                proof {
                    lemma_filter_drops_one(old(self)@, keep, i as int);
                }
                assert forall|a: int, b: int| 0 <= a < b < self@.len() implies (
                #[trigger] self@[a]).0 != (#[trigger] self@[b]).0 by {
                    let before_a = if a < i { a } else { a + 1 };
                    let before_b = if b < i { b } else { b + 1 };
                    assert(self@[a] == old(self)@[before_a]);
                    assert(self@[b] == old(self)@[before_b]);
                }
            },
            None => {
                proof {
                    lemma_filter_keeps_all(self@, keep);
                }
            },
        }
    }

    /// The handle of the client under the address.
    pub fn client(&self, address: &String) -> (found: Option<&W>)
        ensures
            match found {
                Some(writer) => exists|i: int|
                    0 <= i < self@.len() && #[trigger] self@[i] == (address@, *writer),
                None => !has_client(self@, address@),
            },
    {
        match self.position(address) {
            Some(i) => {
                assert(self@[i as int] == (address@, self.clients@[i as int].writer));
                Some(&self.clients[i].writer)
            },
            None => None,
        }
    }

    /// The number of registered clients.
    pub fn len(&self) -> (n: usize)
        ensures
            n == self@.len(),
    {
        self.clients.len()
    }

    /// The addresses of the registered clients, in the order in which they
    /// were registered.
    pub fn addresses(&self) -> (addresses: Vec<String>)
        ensures
            addresses.deep_view() == addresses_of(self@),
    {
        let mut addresses: Vec<String> = Vec::new();
        let mut i: usize = 0;
        while i < self.clients.len()
            invariant
                i <= self.clients@.len(),
                addresses@.len() == i,
                forall|k: int| 0 <= k < i ==> (#[trigger] addresses@[k])@ == self@[k].0,
            decreases self.clients@.len() - i,
        {
            addresses.push(self.clients[i].address.clone());
            i += 1;
        }
        assert(addresses.deep_view() =~= addresses_of(self@));
        addresses
    }
}

/// The clients that a reload goes to: every registered client, once. A
/// client whose send fails is reported back with `remove_client`; the
/// others are not touched by that.
pub fn reload_all<W>(server: &WebSocketServer<W>) -> (targets: Vec<String>)
    ensures
        targets.deep_view() == addresses_of(server@),
{
    server.addresses()
}

/// The registry stays a registry when a client leaves: if no two clients
/// share an address, none do after one has been unregistered.
pub proof fn law_unregistering_keeps_addresses_distinct<W>(
    clients: Seq<(Seq<char>, W)>,
    address: Seq<char>,
)
    requires
        distinct(clients),
    ensures
        distinct(unregistered(clients, address)),
{
    let keep = is_not_under::<W>(address);
    let rest = unregistered(clients, address);
    if has_client(clients, address) {
        let i = choose|i: int| 0 <= i < clients.len() && (#[trigger] clients[i]).0 == address;
        assert forall|j: int| 0 <= j < clients.len() && j != i implies keep(
            #[trigger] clients[j],
        ) by {
            if j < i {
                assert(clients[j].0 != clients[i].0);
            } else {
                assert(clients[i].0 != clients[j].0);
            }
        }
        lemma_filter_drops_one(clients, keep, i);
        assert forall|a: int, b: int| 0 <= a < b < rest.len() implies (#[trigger] rest[a]).0 != (
        #[trigger] rest[b]).0 by {
            let before_a = if a < i { a } else { a + 1 };
            let before_b = if b < i { b } else { b + 1 };
            assert(rest[a] == clients[before_a]);
            assert(rest[b] == clients[before_b]);
        }
    } else {
        lemma_filter_keeps_all(clients, keep);
    }
}

/// The registry stays a registry when a client joins: if no two clients
/// share an address, none do after one has been registered, whether or not
/// its address was taken.
pub proof fn law_registering_keeps_addresses_distinct<W>(
    clients: Seq<(Seq<char>, W)>,
    address: Seq<char>,
    writer: W,
)
    requires
        distinct(clients),
    ensures
        distinct(registered(clients, address, writer)),
{
    let rest = unregistered(clients, address);
    law_unregistering_keeps_addresses_distinct(clients, address);
    lemma_unregistered_has_none(clients, address);
    let more = registered(clients, address, writer);
    assert forall|a: int, b: int| 0 <= a < b < more.len() implies (#[trigger] more[a]).0 != (
    #[trigger] more[b]).0 by {
        assert(more[a] == rest[a]);
        if b < rest.len() {
            assert(more[b] == rest[b]);
        }
    }
}

/// Whatever the registry held, nothing is left under an address once it is
/// unregistered.
pub proof fn law_unregister_is_final<W>(clients: Seq<(Seq<char>, W)>, address: Seq<char>)
    ensures
        !has_client(unregistered(clients, address), address),
        entries(unregistered(clients, address), address) == 0,
{
    lemma_unregistered_has_none(clients, address);
}

/// A client that was registered and then unregistered is gone: no entry is
/// left under its address, so a later reload does not go to it.
pub proof fn law_unregister_after_register<W>(
    clients: Seq<(Seq<char>, W)>,
    address: Seq<char>,
    writer: W,
)
    ensures
        !has_client(unregistered(registered(clients, address, writer), address), address),
        !addresses_of(unregistered(registered(clients, address, writer), address)).contains(
            address,
        ),
{
    let after = unregistered(registered(clients, address, writer), address);
    lemma_unregistered_has_none(registered(clients, address, writer), address);
    if addresses_of(after).contains(address) {
        let i = choose|i: int| 0 <= i < addresses_of(after).len() && addresses_of(after)[i] == address;
        assert(after[i].0 == address);
    }
}

/// Registering twice under one address leaves one entry for it: that of the
/// later registration, as if the earlier had never been made.
pub proof fn law_register_twice<W>(
    clients: Seq<(Seq<char>, W)>,
    address: Seq<char>,
    first: W,
    second: W,
)
    ensures
        entries(registered(registered(clients, address, first), address, second), address) == 1,
        registered(registered(clients, address, first), address, second) == registered(
            clients,
            address,
            second,
        ),
{
    let keep = is_not_under::<W>(address);
    let hit = is_under::<W>(address);
    let rest = unregistered(clients, address);
    let once = registered(clients, address, first);
    lemma_unregistered_has_none(clients, address);
    // the second registration first removes what the first one added
    rest.lemma_filter_push((address, first), keep);
    assert(rest.filter(keep) == rest) by {
        assert forall|i: int| 0 <= i < rest.len() implies keep(#[trigger] rest[i]) by {
            clients.lemma_filter_pred(keep, i);
        }
        lemma_filter_keeps_all(rest, keep);
    }
    assert(unregistered(once, address) == rest);
    // and what it adds is the only entry under the address
    rest.lemma_filter_push((address, second), hit);
    assert(rest.filter(hit).len() == 0);
}

/// Removing one client leaves every other client as it was, with its
/// handle: a send that fails for one of them costs the others nothing.
pub proof fn law_unregister_keeps_others<W>(
    clients: Seq<(Seq<char>, W)>,
    gone: Seq<char>,
    other: Seq<char>,
    writer: W,
)
    requires
        gone != other,
        clients.contains((other, writer)),
    ensures
        unregistered(clients, gone).contains((other, writer)),
{
    let keep = is_not_under::<W>(gone);
    let i = choose|i: int| 0 <= i < clients.len() && clients[i] == (other, writer);
    assert(keep(clients[i]));
    clients.lemma_filter_contains(keep, i);
}

} // verus!
