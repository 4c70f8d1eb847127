use vstd::prelude::*;
use crate::text::str_equal;

verus! {

/// A set of peer identities without repetition, kept in the order of arrival.
pub struct PeerSet {
    peers: Vec<String>,
}

/// The set after a peer has appeared.
pub open spec fn after_appeared(s: Set<Seq<char>>, p: Seq<char>) -> Set<Seq<char>> {
    s.insert(p)
}

/// The set after a peer has disappeared, where it is still visible or not.
pub open spec fn after_disappeared(s: Set<Seq<char>>, p: Seq<char>, still_visible: bool) -> Set<
    Seq<char>,
> {
    if still_visible {
        s
    } else {
        s.remove(p)
    }
}

/// The identities that `v` holds.
pub open spec fn ids_of(v: Seq<String>) -> Set<Seq<char>> {
    Set::new(|q: Seq<char>| exists|i: int| 0 <= i < v.len() && v[i]@ == q)
}

/// No identity stands twice in `v`.
pub open spec fn distinct_ids(v: Seq<String>) -> bool {
    forall|i: int, j: int| 0 <= i < j < v.len() ==> (#[trigger] v[i])@ != (#[trigger] v[j])@
}

impl View for PeerSet {
    type V = Set<Seq<char>>;

    closed spec fn view(&self) -> Set<Seq<char>> {
        ids_of(self.peers@)
    }
}

impl PeerSet {
    /// No identity is held twice.
    pub closed spec fn wf(&self) -> bool {
        distinct_ids(self.peers@)
    }

    pub fn new() -> (r: PeerSet)
        ensures
            r.wf(),
            r@ == Set::<Seq<char>>::empty(),
    {
        let r = PeerSet { peers: Vec::new() };
        assert(r@ =~= Set::<Seq<char>>::empty());
        r
    }

    fn index_of(&self, p: &str) -> (r: Option<usize>)
        ensures
            r matches Some(i) ==> i < self.peers@.len() && self.peers@[i as int]@ == p@,
            r is None ==> !self@.contains(p@),
    {
        let mut i: usize = 0;
        while i < self.peers.len()
            invariant
                i <= self.peers@.len(),
                forall|j: int| 0 <= j < i ==> (#[trigger] self.peers@[j])@ != p@,
            decreases self.peers@.len() - i,
        {
            if str_equal(self.peers[i].as_str(), p) {
                return Some(i);
            }
            i = i + 1;
        }
        None
    }

    pub fn contains(&self, p: &str) -> (r: bool)
        ensures
            r == self@.contains(p@),
    {
        self.index_of(p).is_some()
    }

    /// Adds `p` unless it is already held.
    pub fn insert(&mut self, p: String)
        requires
            old(self).wf(),
        ensures
            final(self).wf(),
            final(self)@ == after_appeared(old(self)@, p@),
    {
        if self.index_of(p.as_str()).is_none() {
            let ghost old_peers = self.peers@;
            self.peers.push(p);
            assert forall|q: Seq<char>| #[trigger] self@.contains(q) <==> old(self)@.insert(p@).contains(q) by {
                if old(self)@.contains(q) {
                    let i = choose|i: int| 0 <= i < old_peers.len() && old_peers[i]@ == q;
                    assert(self.peers@[i] == old_peers[i]);
                }
                if self@.contains(q) && q != p@ {
                    let i = choose|i: int| 0 <= i < self.peers@.len() && self.peers@[i]@ == q;
                    assert(old_peers[i] == self.peers@[i]);
                }
                if q == p@ {
                    assert(self.peers@[old_peers.len() as int]@ == q);
                }
            }
            assert(self@ =~= old(self)@.insert(p@));
        } else {
            assert(old(self)@.insert(p@) =~= old(self)@);
        }
    }

    /// Removes `p` unless it is still visible.
    pub fn remove_unless_visible(&mut self, p: &str, still_visible: bool)
        requires
            old(self).wf(),
        ensures
            final(self).wf(),
            final(self)@ == after_disappeared(old(self)@, p@, still_visible),
    {
        if still_visible {
            return;
        }
        match self.index_of(p) {
            None => {
                assert(old(self)@.remove(p@) =~= old(self)@);
            },
            Some(k) => {
                let ghost old_peers = self.peers@;
                self.peers.remove(k);
                assert forall|q: Seq<char>| #[trigger] self@.contains(q) <==> old(self)@.remove(p@).contains(q) by {
                    if self@.contains(q) {
                        let i = choose|i: int| 0 <= i < self.peers@.len() && self.peers@[i]@ == q;
                        if i < k {
                            assert(self.peers@[i] == old_peers[i]);
                        } else {
                            assert(self.peers@[i] == old_peers[i + 1]);
                        }
                    }
                    if old(self)@.remove(p@).contains(q) {
                        let i = choose|i: int| 0 <= i < old_peers.len() && old_peers[i]@ == q;
                        if i < k {
                            assert(self.peers@[i] == old_peers[i]);
                        } else {
                            assert(self.peers@[i - 1] == old_peers[i]);
                        }
                    }
                }
                assert(self@ =~= old(self)@.remove(p@));
            },
        }
    }

    /// The identities held, each once.
    pub fn to_vec(&self) -> (r: Vec<String>)
        requires
            self.wf(),
        ensures
            ids_of(r@) == self@,
            distinct_ids(r@),
    {
        self.peers.clone()
    }
}

/// The identities of `nodes`, each once, in the order of first appearance.
pub fn dedup_peers(nodes: &Vec<String>) -> (r: Vec<String>)
    ensures
        ids_of(r@) == ids_of(nodes@),
        distinct_ids(r@),
{
    let mut set = PeerSet::new();
    let mut k: usize = 0;
    assert(ids_of(nodes@.subrange(0, 0)) =~= Set::<Seq<char>>::empty());
    while k < nodes.len()
        invariant
            k <= nodes@.len(),
            set.wf(),
            set@ == ids_of(nodes@.subrange(0, k as int)),
        decreases nodes@.len() - k,
    {
        let ghost before = set@;
        let ghost prev = nodes@.subrange(0, k as int);
        set.insert(nodes[k].clone());
        k = k + 1;
        let ghost next = nodes@.subrange(0, k as int);
        assert forall|q: Seq<char>| #[trigger] ids_of(next).contains(q) <==> ids_of(prev).insert(nodes@[k - 1]@).contains(q) by {
            if ids_of(next).contains(q) {
                let i = choose|i: int| 0 <= i < next.len() && next[i]@ == q;
                if i < k - 1 {
                    assert(prev[i] == next[i]);
                }
            }
            if ids_of(prev).contains(q) {
                let i = choose|i: int| 0 <= i < prev.len() && prev[i]@ == q;
                assert(prev[i] == next[i]);
            }
            if q == nodes@[k - 1]@ {
                assert(next[k - 1]@ == q);
            }
        }
        assert(ids_of(next) =~= ids_of(prev).insert(nodes@[k - 1]@));
    }
    assert(nodes@.subrange(0, k as int) =~= nodes@);
    set.to_vec()
}

} // verus!
