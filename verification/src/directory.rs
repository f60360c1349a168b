//! An in-memory content-routing directory: the key-to-provider-set map that
//! the distributed hash table maintains across the overlay, held locally so
//! the actor and the flows can be exercised against a substituted
//! content-routing double. Advertising registers a node as a holder of a
//! name; a lookup returns the current holders and never fails.

use vstd::prelude::*;

use vstd::hash_map::StringHashMap;

verus! {

/// Registers a peer under a name: the directory maps the name to the set of
/// advertising peers, each listed once.
pub open spec fn advertise_model(m: Map<Seq<char>, Seq<u64>>, name: Seq<char>, peer: u64) -> Map<
    Seq<char>,
    Seq<u64>,
> {
    let prior = if m.contains_key(name) {
        m[name]
    } else {
        Seq::empty()
    };
    if prior.contains(peer) {
        m.insert(name, prior)
    } else {
        m.insert(name, prior.push(peer))
    }
}

/// The peers currently advertising a name: an unadvertised name has none.
pub open spec fn providers_in(m: Map<Seq<char>, Seq<u64>>, name: Seq<char>) -> Seq<u64> {
    if m.contains_key(name) {
        m[name]
    } else {
        Seq::empty()
    }
}

/// A key-to-provider-set directory, keyed by file name.
pub struct ProviderDirectory {
    providers: StringHashMap<Vec<u64>>,
}

impl View for ProviderDirectory {
    type V = Map<Seq<char>, Seq<u64>>;

    closed spec fn view(&self) -> Map<Seq<char>, Seq<u64>> {
        Map::new(|name: Seq<char>| self.providers@.contains_key(name), |name: Seq<char>| self.providers@[name]@)
    }
}

fn copy_peers(v: &Vec<u64>) -> (r: Vec<u64>)
    ensures
        r@ == v@,
{
    let mut r: Vec<u64> = Vec::new();
    let mut i: usize = 0;
    while i < v.len()
        invariant
            0 <= i <= v@.len(),
            r@ == v@.take(i as int),
        decreases v@.len() - i,
    {
        r.push(v[i]);
        proof {
            assert(r@ =~= v@.take(i as int + 1));
        }
        i = i + 1;
    }
    proof {
        assert(v@.take(v@.len() as int) =~= v@);
    }
    r
}

fn contains_peer(v: &Vec<u64>, peer: u64) -> (r: bool)
    ensures
        r == v@.contains(peer),
{
    let mut i: usize = 0;
    while i < v.len()
        invariant
            0 <= i <= v@.len(),
            forall|j: int| 0 <= j < i ==> v@[j] != peer,
        decreases v@.len() - i,
    {
        if v[i] == peer {
            return true;
        }
        i = i + 1;
    }
    false
}

impl ProviderDirectory {
    /// The empty directory: no name has a provider.
    pub fn new() -> (r: ProviderDirectory)
        ensures
            r@ == Map::<Seq<char>, Seq<u64>>::empty(),
    {
        let r = ProviderDirectory { providers: StringHashMap::new() };
        proof {
            assert(r@ =~= Map::<Seq<char>, Seq<u64>>::empty());
        }
        r
    }

    /// Registers the peer as a provider of the name. A peer that advertises
    /// the same name again stays listed once; providers of other names are
    /// untouched.
    pub fn advertise(&mut self, name: &String, peer: u64)
        ensures
            final(self)@ == advertise_model(old(self)@, name@, peer),
    {
        let prior: Vec<u64> = match self.providers.get(name.as_str()) {
            Some(v) => copy_peers(v),
            None => Vec::new(),
        };
        if contains_peer(&prior, peer) {
            self.providers.insert(name.clone(), prior);
        } else {
            let mut next = prior;
            next.push(peer);
            self.providers.insert(name.clone(), next);
        }
        proof {
            assert(final(self)@ =~= advertise_model(old(self)@, name@, peer));
        }
    }

    /// The peers currently advertising the name. An unadvertised name yields
    /// the empty list: absence is a valid result, never an error.
    pub fn lookup(&self, name: &String) -> (r: Vec<u64>)
        ensures
            r@ == providers_in(self@, name@),
    {
        match self.providers.get(name.as_str()) {
            Some(v) => copy_peers(v),
            None => Vec::new(),
        }
    }
}

/// A node that advertises a name is among the name's providers that any
/// subsequent lookup returns.
pub proof fn lemma_advertise_then_lookup(m: Map<Seq<char>, Seq<u64>>, name: Seq<char>, peer: u64)
    ensures
        providers_in(advertise_model(m, name, peer), name).contains(peer),
{
    let prior = providers_in(m, name);
    if !prior.contains(peer) {
        assert(prior.push(peer)[prior.len() as int] == peer);
    }
}

/// Advertising never unregisters anyone: a peer found under a name is still
/// found under it after any further advertisement, of any name by any peer.
pub proof fn lemma_advertise_preserves_providers(
    m: Map<Seq<char>, Seq<u64>>,
    name: Seq<char>,
    peer: u64,
    other_name: Seq<char>,
    other_peer: u64,
)
    requires
        providers_in(m, name).contains(peer),
    ensures
        providers_in(advertise_model(m, other_name, other_peer), name).contains(peer),
{
    if name == other_name {
        let prior = providers_in(m, name);
        if !prior.contains(other_peer) {
            let i = choose|i: int| 0 <= i < prior.len() && prior[i] == peer;
            assert(prior.push(other_peer)[i] == peer);
        }
    }
}

/// A name nobody has advertised has no providers: its lookup yields the empty
/// set, and advertisements of other names never change that.
pub proof fn lemma_unadvertised_name_has_no_providers(
    m: Map<Seq<char>, Seq<u64>>,
    name: Seq<char>,
    other_name: Seq<char>,
    other_peer: u64,
)
    requires
        name != other_name,
        providers_in(m, name) == Seq::<u64>::empty(),
    ensures
        providers_in(advertise_model(m, other_name, other_peer), name) == Seq::<u64>::empty(),
        providers_in(Map::<Seq<char>, Seq<u64>>::empty(), name) == Seq::<u64>::empty(),
{
}

/// The directory after a whole sequence of advertisements, each a name and
/// the advertising peer, applied in order.
pub open spec fn apply_advertisements(
    m: Map<Seq<char>, Seq<u64>>,
    ads: Seq<(Seq<char>, u64)>,
) -> Map<Seq<char>, Seq<u64>>
    decreases ads.len(),
{
    if ads.len() == 0 {
        m
    } else {
        apply_advertisements(advertise_model(m, ads[0].0, ads[0].1), ads.drop_first())
    }
}

/// For every sequence of advertisements that begins by registering a peer
/// under a name, a lookup of that name afterwards still finds the peer: no
/// later advertisement, of any name by any peer, unregisters it.
pub proof fn lemma_advertised_node_survives_any_sequence(
    m: Map<Seq<char>, Seq<u64>>,
    name: Seq<char>,
    peer: u64,
    ads: Seq<(Seq<char>, u64)>,
)
    requires
        providers_in(m, name).contains(peer),
    ensures
        providers_in(apply_advertisements(m, ads), name).contains(peer),
    decreases ads.len(),
{
    if ads.len() > 0 {
        lemma_advertise_preserves_providers(m, name, peer, ads[0].0, ads[0].1);
        lemma_advertised_node_survives_any_sequence(
            advertise_model(m, ads[0].0, ads[0].1),
            name,
            peer,
            ads.drop_first(),
        );
    }
}

/// A lookup of a name that no advertisement in the directory's whole history
/// registered yields the empty set.
pub proof fn lemma_never_advertised_name_stays_empty(
    m: Map<Seq<char>, Seq<u64>>,
    name: Seq<char>,
    ads: Seq<(Seq<char>, u64)>,
)
    requires
        providers_in(m, name) == Seq::<u64>::empty(),
        forall|i: int| 0 <= i < ads.len() ==> (#[trigger] ads[i]).0 != name,
    ensures
        providers_in(apply_advertisements(m, ads), name) == Seq::<u64>::empty(),
    decreases ads.len(),
{
    if ads.len() > 0 {
        lemma_unadvertised_name_has_no_providers(m, name, ads[0].0, ads[0].1);
        lemma_never_advertised_name_stays_empty(
            advertise_model(m, ads[0].0, ads[0].1),
            name,
            ads.drop_first(),
        );
    }
}

} // verus!
