use vstd::prelude::*;
use std::collections::VecDeque;
use crate::addr::NodeAddr;

verus! {

/// The peer address cache that supplies bootstrap candidates.
///
/// Two collections: an order-significant list of previously-seen peers
/// (most recently recorded last, so candidates iterate it in reverse),
/// and a list of hard-coded contacts that is never removed from or
/// reordered after construction. Loading and storing the on-disk
/// mirror of `peers` is a collaborator's job; it feeds peers in
/// through the mutation methods.
#[derive(Clone, Debug)]
pub struct BootstrapCache {
    pub peers: VecDeque<NodeAddr>,
    pub hard_coded_contacts: Vec<NodeAddr>,
}

/// The candidate order bootstrap uses: cached peers most-recent first,
/// then the hard-coded contacts in their listed order.
pub open spec fn candidate_seq(peers: Seq<NodeAddr>, hard_coded: Seq<NodeAddr>) -> Seq<NodeAddr> {
    peers.reverse() + hard_coded
}

impl BootstrapCache {
    /// An empty cache over the given hard-coded contacts.
    pub fn new(hard_coded_contacts: Vec<NodeAddr>) -> (r: Self)
        ensures
            r.peers@ == Seq::<NodeAddr>::empty(),
            r.hard_coded_contacts@ == hard_coded_contacts@,
    {
        BootstrapCache { peers: VecDeque::new(), hard_coded_contacts }
    }

    /// The previously-seen peers, oldest first.
    pub fn peers(&self) -> (r: &VecDeque<NodeAddr>)
        ensures
            r@ == self.peers@,
    {
        &self.peers
    }

    /// The contacts that are always candidates, tried last.
    pub fn hard_coded_contacts(&self) -> (r: &Vec<NodeAddr>)
        ensures
            r@ == self.hard_coded_contacts@,
    {
        &self.hard_coded_contacts
    }

    /// Record one peer as the most recently seen; the hard-coded
    /// contacts are untouched.
    pub fn add_peer(&mut self, peer: NodeAddr)
        ensures
            final(self).peers@ == old(self).peers@.push(peer),
            final(self).hard_coded_contacts@ == old(self).hard_coded_contacts@,
    {
        self.peers.push_back(peer);
    }

    /// Append peers in order, each becoming the most recently seen in
    /// turn; the hard-coded contacts are untouched.
    pub fn extend_peers(&mut self, mut more: VecDeque<NodeAddr>)
        ensures
            final(self).peers@ == old(self).peers@ + more@,
            final(self).hard_coded_contacts@ == old(self).hard_coded_contacts@,
    {
        let total: usize = more.len();
        let ghost all = more@;
        let ghost start = self.peers@;
        let mut taken: usize = 0;
        loop
            invariant
                all.len() == total,
                taken <= all.len(),
                more@ == all.subrange(taken as int, all.len() as int),
                self.peers@ == start + all.subrange(0, taken as int),
                self.hard_coded_contacts@ == old(self).hard_coded_contacts@,
            ensures
                taken == all.len(),
                self.peers@ == start + all.subrange(0, taken as int),
                self.hard_coded_contacts@ == old(self).hard_coded_contacts@,
            decreases all.len() - taken,
        {
            match more.pop_front() {
                Some(p) => {
                    proof {
                        assert(taken < all.len());
                    }
                    self.peers.push_back(p);
                    proof {
                        assert(all.subrange(0, taken as int).push(p)
                            =~= all.subrange(0, taken as int + 1));
                        assert(all.subrange(taken as int, all.len() as int)
                            .subrange(1, all.len() - taken)
                            =~= all.subrange(taken as int + 1, all.len() as int));
                    }
                    taken = taken + 1;
                }
                None => {
                    proof {
                        assert(taken == all.len());
                    }
                    break;
                }
            }
        }
        proof {
            assert(all.subrange(0, all.len() as int) =~= all);
            assert(self.peers@ =~= start + all);
        }
    }

    /// Replace the peer list wholesale; the hard-coded contacts are
    /// untouched.
    pub fn replace_peers(&mut self, new_peers: VecDeque<NodeAddr>)
        ensures
            final(self).peers@ == new_peers@,
            final(self).hard_coded_contacts@ == old(self).hard_coded_contacts@,
    {
        self.peers = new_peers;
    }

    /// The ordered bootstrap candidate list: cached peers in reverse
    /// (most recently seen first), then the hard-coded contacts in
    /// their listed order.
    pub fn candidates(&self) -> (r: Vec<NodeAddr>)
        ensures
            r@ == candidate_seq(self.peers@, self.hard_coded_contacts@),
    {
        let n = self.peers.len();
        let mut out: Vec<NodeAddr> = Vec::new();
        let mut i: usize = 0;
        while i < n
            invariant
                n == self.peers@.len(),
                i <= n,
                out@.len() == i as int,
                forall|k: int| 0 <= k < i ==> out@[k] == self.peers@[n - 1 - k],
            decreases n - i,
        {
            out.push(self.peers[n - 1 - i]);
            i = i + 1;
        }
        let m = self.hard_coded_contacts.len();
        let mut j: usize = 0;
        while j < m
            invariant
                n == self.peers@.len(),
                m == self.hard_coded_contacts@.len(),
                j <= m,
                out@.len() == n + j,
                forall|k: int| 0 <= k < n ==> out@[k] == self.peers@[n - 1 - k],
                forall|k: int| 0 <= k < j ==> out@[n + k] == self.hard_coded_contacts@[k],
            decreases m - j,
        {
            out.push(self.hard_coded_contacts[j]);
            j = j + 1;
        }
        proof {
            assert(out@ =~= candidate_seq(self.peers@, self.hard_coded_contacts@));
        }
        out
    }
}

} // verus!
