//! The RPC peer registry: the connections currently open on the workspace
//! listener, each under a locally generated peer id.

use vstd::prelude::*;

verus! {

/// The sequence with every entry under the id removed, all others kept in
/// order.
pub open spec fn without_id(peers: Seq<u128>, id: u128) -> Seq<u128>
    decreases peers.len(),
{
    if peers.len() == 0 {
        Seq::empty()
    } else if peers.last() == id {
        without_id(peers.drop_last(), id)
    } else {
        without_id(peers.drop_last(), id).push(peers.last())
    }
}

/// The peer ids of the open workspace connections, in connection order.
/// Each id is the 128-bit value of the unique id generated on accept; the
/// reverse client channel that goes with it lives with the connection
/// itself.
#[derive(Debug)]
pub struct PeerRegistry {
    pub peers: Vec<u128>,
}

impl PeerRegistry {
    /// The registered ids, oldest first.
    pub open spec fn ids(self) -> Seq<u128> {
        self.peers@
    }

    /// A registry with no connection yet.
    pub fn new() -> (r: PeerRegistry)
        ensures
            r.ids() == Seq::<u128>::empty(),
    {
        PeerRegistry { peers: Vec::new() }
    }

    /// How many connections are open.
    pub fn peer_count(&self) -> (r: usize)
        ensures
            r == self.ids().len(),
    {
        self.peers.len()
    }

    /// The oldest registered peer, which the activity probe reports through.
    pub fn first_peer(&self) -> (r: Option<u128>)
        ensures
            match r {
                Some(id) => self.ids().len() > 0 && id == self.ids()[0],
                None => self.ids().len() == 0,
            },
    {
        if self.peers.len() > 0 {
            Some(self.peers[0])
        } else {
            None
        }
    }

    /// Registers a connection: its id goes to the end of the registry.
    pub fn register_peer(&mut self, id: u128)
        ensures
            final(self).ids() == old(self).ids().push(id),
    {
        self.peers.push(id);
    }

    /// Removes a closed connection: every entry under the id leaves, all
    /// others stay in order.
    pub fn remove_peer(&mut self, id: u128)
        ensures
            final(self).ids() == without_id(old(self).ids(), id),
    {
        let mut kept: Vec<u128> = Vec::new();
        let mut i: usize = 0;
        while i < self.peers.len()
            invariant
                i <= self.peers.len(),
                self.peers@ == old(self).peers@,
                kept@ == without_id(self.peers@.take(i as int), id),
            decreases self.peers.len() - i,
        {
            proof {
                let s = self.peers@;
                assert(s.take(i + 1 as int).drop_last() =~= s.take(i as int));
                assert(s.take(i + 1 as int).last() == s[i as int]);
            }
            if self.peers[i] != id {
                kept.push(self.peers[i]);
            }
            i = i + 1;
        }
        proof {
            assert(self.peers@.take(self.peers@.len() as int) =~= self.peers@);
        }
        self.peers = kept;
    }
}

proof fn lemma_without_absent(peers: Seq<u128>, id: u128)
    requires
        !peers.contains(id),
    ensures
        without_id(peers, id) == peers,
    decreases peers.len(),
{
    if peers.len() > 0 {
        assert(!peers.drop_last().contains(id)) by {
            if peers.drop_last().contains(id) {
                let i = choose|i: int|
                    0 <= i < peers.drop_last().len() && peers.drop_last()[i] == id;
                assert(peers[i] == id);
            }
        }
        lemma_without_absent(peers.drop_last(), id);
        assert(peers[peers.len() - 1] == peers.last());
        assert(peers.last() != id);
        assert(without_id(peers, id) =~= peers);
    }
}

proof fn lemma_without_removes_one(peers: Seq<u128>, id: u128)
    requires
        peers.no_duplicates(),
        peers.contains(id),
    ensures
        without_id(peers, id).len() == peers.len() - 1,
    decreases peers.len(),
{
    assert(peers.drop_last().no_duplicates()) by {
        assert(forall|i: int, j: int|
            0 <= i < j < peers.drop_last().len() ==> peers.drop_last()[i] == peers[i]
                && peers.drop_last()[j] == peers[j]);
    }
    if peers.last() == id {
        assert(!peers.drop_last().contains(id)) by {
            if peers.drop_last().contains(id) {
                let i = choose|i: int|
                    0 <= i < peers.drop_last().len() && peers.drop_last()[i] == id;
                assert(peers[i] == id && peers[peers.len() - 1] == id);
            }
        }
        lemma_without_absent(peers.drop_last(), id);
    } else {
        assert(peers.drop_last().contains(id)) by {
            let i = choose|i: int| 0 <= i < peers.len() && peers[i] == id;
            assert(peers[peers.len() - 1] == peers.last());
            assert(i < peers.len() - 1);
            assert(peers.drop_last()[i] == id);
        }
        lemma_without_removes_one(peers.drop_last(), id);
    }
}

proof fn lemma_push_keeps_no_duplicates(peers: Seq<u128>, id: u128)
    requires
        peers.no_duplicates(),
        !peers.contains(id),
    ensures
        peers.push(id).no_duplicates(),
{
    let pushed = peers.push(id);
    assert forall|i: int, j: int| 0 <= i < j < pushed.len() implies pushed[i] != pushed[j] by {
        if j < peers.len() {
        } else {
            assert(pushed[j] == id);
            assert(peers.contains(peers[i]));
        }
    }
}

/// The registry's size tracks the open connections.  A connect (registering
/// a fresh id) grows it by exactly one and keeps the ids distinct; a
/// disconnect of a registered peer, the ids being distinct, shrinks it by
/// exactly one; a disconnect of an unknown peer changes nothing.
pub proof fn lemma_registry_size_tracks_connections(peers: Seq<u128>, id: u128)
    ensures
        peers.push(id).len() == peers.len() + 1,
        peers.no_duplicates() && !peers.contains(id) ==> peers.push(id).no_duplicates(),
        peers.no_duplicates() && peers.contains(id) ==> without_id(peers, id).len() == peers.len()
            - 1,
        !peers.contains(id) ==> without_id(peers, id) == peers,
{
    if peers.no_duplicates() && !peers.contains(id) {
        lemma_push_keeps_no_duplicates(peers, id);
    }
    if peers.no_duplicates() && peers.contains(id) {
        lemma_without_removes_one(peers, id);
    }
    if !peers.contains(id) {
        lemma_without_absent(peers, id);
    }
}

} // verus!
