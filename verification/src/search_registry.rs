//! The search-provider registry: named providers in priority order; the
//! first registered is the default.

use vstd::prelude::*;
use vstd::string::StringExecFns;

use crate::caps::SearchProvider;
use crate::strutil::clone_strings;
use crate::strutil::str_eq;

verus! {

/// Named search providers in registration order, which is their fallback
/// priority order.
pub struct ProviderRegistry<P> {
    entries: Vec<(String, P)>,
    order: Vec<String>,
}

impl<P: SearchProvider> ProviderRegistry<P> {
    /// The registered provider identifiers.
    pub closed spec fn providers(&self) -> Seq<Seq<char>> {
        self.entries@.map_values(|e: (String, P)| e.0@)
    }

    /// The provider identifiers in priority order.
    pub closed spec fn priority(&self) -> Seq<Seq<char>> {
        self.order@.map_values(|s: String| s@)
    }

    /// Whether a provider identifier is registered.
    pub open spec fn contains_provider(&self, id: Seq<char>) -> bool {
        exists|k: int| 0 <= k < self.providers().len() && self.providers()[k] == id
    }

    /// The provider registered at position `k`.
    pub closed spec fn provider_at(&self, k: int) -> P {
        self.entries@[k].1
    }

    /// `k` is the position of the first entry carrying `id`.
    pub open spec fn first_entry_for(&self, id: Seq<char>, k: int) -> bool {
        0 <= k < self.providers().len() && self.providers()[k] == id && forall|l: int|
            0 <= l < k ==> self.providers()[l] != id
    }

    /// Creates an empty registry.
    pub fn new() -> (r: ProviderRegistry<P>)
        ensures
            r.providers().len() == 0,
            r.priority().len() == 0,
    {
        ProviderRegistry { entries: Vec::new(), order: Vec::new() }
    }

    /// The position of a provider identifier, or `None`.
    fn index_of(&self, id: &str) -> (r: Option<usize>)
        ensures
            match r {
                Some(i) => self.first_entry_for(id@, i as int),
                None => !self.contains_provider(id@),
            },
    {
        let mut i: usize = 0;
        while i < self.entries.len()
            invariant
                0 <= i <= self.entries@.len(),
                forall|j: int| 0 <= j < i ==> self.providers()[j] != id@,
            decreases self.entries@.len() - i,
        {
            if str_eq(self.entries[i].0.as_str(), id) {
                assert(self.providers()[i as int] == id@);
                return Some(i);
            }
            i += 1;
        }
        None
    }

    /// Registers a provider. A new identifier joins the priority order at
    /// the end; re-registering replaces the provider and keeps the order.
    pub fn register(&mut self, id: &str, provider: P)
        ensures
            final(self).contains_provider(id@),
            old(self).contains_provider(id@) ==> final(self).priority() == old(self).priority()
                && final(self).providers() == old(self).providers(),
            !old(self).contains_provider(id@) ==> final(self).priority() == old(
                self,
            ).priority().push(id@) && final(self).providers() == old(self).providers().push(id@),
            exists|k: int|
                #[trigger] final(self).first_entry_for(id@, k) && final(self).provider_at(k)
                    == provider,
    {
        let ghost pre = self.entries@;
        match self.index_of(id) {
            Some(i) => {
                let _old = self.entries.remove(i);
                self.entries.insert(i, (id.to_owned(), provider));
                proof {
                    let old_providers = old(self).providers();
                    assert(old_providers[i as int] == id@);
                    assert(self.entries@ =~= pre.update(i as int, self.entries@[i as int]));
                    assert(self.providers() =~= old_providers.update(i as int, id@));
                    assert(self.providers() =~= old_providers);
                    assert(self.providers()[i as int] == id@);
                    assert(self.first_entry_for(id@, i as int));
                    assert(self.provider_at(i as int) == provider);
                }
            },
            None => {
                self.order.push(id.to_owned());
                self.entries.push((id.to_owned(), provider));
                proof {
                    let old_providers = old(self).providers();
                    assert(self.providers() =~= old_providers.push(id@));
                    assert(self.providers()[pre.len() as int] == id@);
                    assert forall|l: int| 0 <= l < pre.len() implies self.providers()[l]
                        != id@ by {
                        assert(self.providers()[l] == old_providers[l]);
                        assert(!(0 <= l < old_providers.len() && old_providers[l] == id@));
                    }
                    assert(self.first_entry_for(id@, pre.len() as int));
                    assert(self.provider_at(pre.len() as int) == provider);
                    assert(self.priority() =~= old(self).priority().push(id@));
                }
            },
        }
    }

    /// The provider registered under an identifier.
    pub fn get(&self, id: &str) -> (r: Option<&P>)
        ensures
            r is Some <==> self.contains_provider(id@),
            r matches Some(p) ==> exists|k: int|
                #[trigger] self.first_entry_for(id@, k) && *p == self.provider_at(k),
    {
        match self.index_of(id) {
            Some(i) => Some(&self.entries[i].1),
            None => None,
        }
    }

    /// The default provider: the first registered.
    pub fn default_provider(&self) -> (r: Option<&P>)
        ensures
            self.priority().len() == 0 ==> r is None,
            self.priority().len() > 0 ==> (r is Some <==> self.contains_provider(
                self.priority()[0],
            )),
            r matches Some(p) ==> self.priority().len() > 0 && exists|k: int|
                #[trigger] self.first_entry_for(self.priority()[0], k) && *p == self.provider_at(
                    k,
                ),
    {
        if self.order.len() == 0 {
            return None;
        }
        let first = self.order[0].clone();
        self.get(first.as_str())
    }

    /// The provider identifiers in priority order.
    pub fn list(&self) -> (r: Vec<String>)
        ensures
            r@.len() == self.priority().len(),
            forall|i: int| 0 <= i < r@.len() ==> (#[trigger] r@[i])@ == self.priority()[i],
    {
        let r = clone_strings(&self.order);
        proof {
            assert forall|i: int| 0 <= i < r@.len() implies (#[trigger] r@[i])@
                == self.priority()[i] by {
                assert(r@[i] == self.order@[i]);
            }
        }
        r
    }

    /// Whether no provider is registered.
    pub fn is_empty(&self) -> (r: bool)
        ensures
            r == (self.providers().len() == 0),
    {
        self.entries.len() == 0
    }

    /// How many providers are registered.
    pub fn len(&self) -> (r: usize)
        ensures
            r == self.providers().len(),
    {
        self.entries.len()
    }
}

} // verus!
