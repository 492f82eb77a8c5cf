//! The synthesis-provider registry: named providers, a default, a fallback,
//! and one-shot fallback execution on retryable errors.

use vstd::prelude::*;
use vstd::string::StringExecFns;

use crate::answer::ResearchAnswer;
use crate::caps::LlmError;
use crate::caps::LlmProvider;
use crate::source::Source;
use crate::strutil::str_eq;

verus! {

/// Named synthesis providers with an optional default and fallback model.
/// Registration order matters: the first registration becomes the default
/// unless overridden.
pub struct LlmRegistry<P> {
    entries: Vec<(String, P)>,
    default_model: Option<String>,
    fallback_model: Option<String>,
}

impl<P: LlmProvider> LlmRegistry<P> {
    /// The registered model identifiers, in registration order.
    pub closed spec fn models(&self) -> Seq<Seq<char>> {
        self.entries@.map_values(|e: (String, P)| e.0@)
    }

    /// Whether a model identifier is registered.
    pub open spec fn contains_model(&self, id: Seq<char>) -> bool {
        exists|k: int| 0 <= k < self.models().len() && self.models()[k] == id
    }

    /// The provider registered at position `k`.
    pub closed spec fn provider_at(&self, k: int) -> P {
        self.entries@[k].1
    }

    /// `k` is the position of the first entry carrying `id`.
    pub open spec fn first_entry_for(&self, id: Seq<char>, k: int) -> bool {
        0 <= k < self.models().len() && self.models()[k] == id && forall|l: int|
            0 <= l < k ==> self.models()[l] != id
    }

    /// The configured default model identifier.
    pub closed spec fn default_id(&self) -> Option<Seq<char>> {
        match self.default_model {
            Some(d) => Some(d@),
            None => None,
        }
    }

    /// The configured fallback model identifier.
    pub closed spec fn fallback_id(&self) -> Option<Seq<char>> {
        match self.fallback_model {
            Some(f) => Some(f@),
            None => None,
        }
    }

    /// Creates an empty registry with no default and no fallback.
    pub fn new() -> (r: LlmRegistry<P>)
        ensures
            r.models().len() == 0,
            r.default_id() is None,
            r.fallback_id() is None,
    {
        LlmRegistry { entries: Vec::new(), default_model: None, fallback_model: None }
    }

    /// Creates a builder.
    pub fn builder() -> (r: LlmRegistryBuilder<P>)
        ensures
            r.spec_registry().models().len() == 0,
            r.spec_registry().default_id() is None,
            r.spec_registry().fallback_id() is None,
    {
        LlmRegistryBuilder { registry: LlmRegistry::new() }
    }

    /// The position of a model identifier, or `None`.
    fn index_of(&self, id: &str) -> (r: Option<usize>)
        ensures
            match r {
                Some(i) => self.first_entry_for(id@, i as int),
                None => !self.contains_model(id@),
            },
    {
        let mut i: usize = 0;
        while i < self.entries.len()
            invariant
                0 <= i <= self.entries@.len(),
                forall|j: int| 0 <= j < i ==> self.models()[j] != id@,
            decreases self.entries@.len() - i,
        {
            if str_eq(self.entries[i].0.as_str(), id) {
                assert(self.models()[i as int] == id@);
                return Some(i);
            }
            i += 1;
        }
        None
    }

    /// Registers a provider under a model identifier, replacing any earlier
    /// provider under the same identifier. The first registration becomes
    /// the default implicitly; later ones leave the default alone.
    pub fn register(&mut self, model_id: &str, provider: P)
        ensures
            final(self).contains_model(model_id@),
            old(self).default_id() is None ==> final(self).default_id() == Some(model_id@),
            old(self).default_id() is Some ==> final(self).default_id() == old(self).default_id(),
            final(self).fallback_id() == old(self).fallback_id(),
            forall|id: Seq<char>|
                #[trigger] final(self).contains_model(id) <==> (old(self).contains_model(id) || id
                    == model_id@),
            old(self).contains_model(model_id@) ==> final(self).models() == old(self).models(),
            !old(self).contains_model(model_id@) ==> final(self).models() == old(
                self,
            ).models().push(model_id@),
            exists|k: int|
                #[trigger] final(self).first_entry_for(model_id@, k) && final(self).provider_at(k)
                    == provider,
    {
        let ghost pre = self.entries@;
        let found = self.index_of(model_id);
        if self.default_model.is_none() {
            self.default_model = Some(model_id.to_owned());
        }
        match found {
            Some(i) => {
                let _old = self.entries.remove(i);
                self.entries.insert(i, (model_id.to_owned(), provider));
                proof {
                    let old_models = old(self).models();
                    assert(old_models[i as int] == model_id@);
                    assert(self.entries@ =~= pre.update(i as int, self.entries@[i as int]));
                    assert(self.models() =~= old_models.update(i as int, model_id@));
                    assert(self.models() =~= old_models);
                    assert(self.models()[i as int] == model_id@);
                    assert(self.first_entry_for(model_id@, i as int));
                    assert(self.provider_at(i as int) == provider);
                    assert forall|id: Seq<char>| #[trigger]
                        self.contains_model(id) <==> (old(self).contains_model(id) || id
                        == model_id@) by {
                        if self.contains_model(id) {
                            let k = choose|k: int|
                                0 <= k < self.models().len() && self.models()[k] == id;
                            if k != i {
                                assert(old_models[k] == id);
                            }
                        }
                        if id == model_id@ {
                            assert(self.models()[i as int] == id);
                        }
                        if old(self).contains_model(id) {
                            let k = choose|k: int|
                                0 <= k < old_models.len() && old_models[k] == id;
                            if k != i {
                                assert(self.models()[k] == id);
                            } else {
                                assert(self.models()[i as int] == model_id@);
                            }
                        }
                    }
                }
            },
            None => {
                self.entries.push((model_id.to_owned(), provider));
                proof {
                    let old_models = old(self).models();
                    assert(self.models() =~= old_models.push(model_id@));
                    assert(self.models()[pre.len() as int] == model_id@);
                    assert forall|l: int| 0 <= l < pre.len() implies self.models()[l]
                        != model_id@ by {
                        assert(self.models()[l] == old_models[l]);
                        assert(!(0 <= l < old_models.len() && old_models[l] == model_id@));
                    }
                    assert(self.first_entry_for(model_id@, pre.len() as int));
                    assert(self.provider_at(pre.len() as int) == provider);
                    assert forall|id: Seq<char>| #[trigger]
                        self.contains_model(id) <==> (old(self).contains_model(id) || id
                        == model_id@) by {
                        if self.contains_model(id) {
                            let k = choose|k: int|
                                0 <= k < self.models().len() && self.models()[k] == id;
                            if k < pre.len() {
                                assert(old_models[k] == id);
                            }
                        }
                        if old(self).contains_model(id) {
                            let k = choose|k: int|
                                0 <= k < old_models.len() && old_models[k] == id;
                            assert(self.models()[k] == id);
                        }
                    }
                }
            },
        }
    }

    /// Overrides the default model.
    pub fn set_default(&mut self, model_id: &str)
        ensures
            final(self).default_id() == Some(model_id@),
            final(self).fallback_id() == old(self).fallback_id(),
            final(self).models() == old(self).models(),
    {
        self.default_model = Some(model_id.to_owned());
    }

    /// Sets the fallback model.
    pub fn set_fallback(&mut self, model_id: &str)
        ensures
            final(self).fallback_id() == Some(model_id@),
            final(self).default_id() == old(self).default_id(),
            final(self).models() == old(self).models(),
    {
        self.fallback_model = Some(model_id.to_owned());
    }

    /// The provider registered under a model identifier.
    pub fn get(&self, model_id: &str) -> (r: Option<&P>)
        ensures
            r is Some <==> self.contains_model(model_id@),
            r matches Some(p) ==> exists|k: int|
                #[trigger] self.first_entry_for(model_id@, k) && *p == self.provider_at(k),
    {
        match self.index_of(model_id) {
            Some(i) => Some(&self.entries[i].1),
            None => None,
        }
    }

    /// The default provider, when a default is configured and registered.
    pub fn default(&self) -> (r: Option<&P>)
        ensures
            r is Some <==> (self.default_id() matches Some(d) && self.contains_model(d)),
            r matches Some(p) ==> (self.default_id() matches Some(d) && exists|k: int|
                #[trigger] self.first_entry_for(d, k) && *p == self.provider_at(k)),
    {
        match &self.default_model {
            Some(d) => {
                let id = d.clone();
                self.get(id.as_str())
            },
            None => None,
        }
    }

    /// The fallback provider, when a fallback is configured and registered.
    pub fn fallback(&self) -> (r: Option<&P>)
        ensures
            r is Some <==> (self.fallback_id() matches Some(f) && self.contains_model(f)),
            r matches Some(p) ==> (self.fallback_id() matches Some(f) && exists|k: int|
                #[trigger] self.first_entry_for(f, k) && *p == self.provider_at(k)),
    {
        match &self.fallback_model {
            Some(f) => {
                let id = f.clone();
                self.get(id.as_str())
            },
            None => None,
        }
    }

    /// The default model identifier.
    pub fn default_model_id(&self) -> (r: Option<&String>)
        ensures
            match r {
                Some(d) => self.default_id() == Some(d@),
                None => self.default_id() is None,
            },
    {
        match &self.default_model {
            Some(d) => Some(d),
            None => None,
        }
    }

    /// The fallback model identifier.
    pub fn fallback_model_id(&self) -> (r: Option<&String>)
        ensures
            match r {
                Some(f) => self.fallback_id() == Some(f@),
                None => self.fallback_id() is None,
            },
    {
        match &self.fallback_model {
            Some(f) => Some(f),
            None => None,
        }
    }

    /// The registered model identifiers, in registration order.
    pub fn available_models(&self) -> (r: Vec<String>)
        ensures
            r@.len() == self.models().len(),
            forall|i: int| 0 <= i < r@.len() ==> (#[trigger] r@[i])@ == self.models()[i],
    {
        let mut r: Vec<String> = Vec::new();
        let mut i: usize = 0;
        while i < self.entries.len()
            invariant
                0 <= i <= self.entries@.len(),
                r@.len() == i,
                forall|j: int| 0 <= j < i ==> (#[trigger] r@[j])@ == self.models()[j],
            decreases self.entries@.len() - i,
        {
            r.push(self.entries[i].0.clone());
            i += 1;
        }
        r
    }

    /// Whether no provider is registered.
    pub fn is_empty(&self) -> (r: bool)
        ensures
            r == (self.models().len() == 0),
    {
        self.entries.len() == 0
    }

    /// How many providers are registered.
    pub fn len(&self) -> (r: usize)
        ensures
            r == self.models().len(),
    {
        self.entries.len()
    }

    /// Synthesizes with the named model, or the default when none is named.
    /// On a retryable failure, when a distinct fallback is registered, the
    /// fallback is tried exactly once and its outcome returned; on a
    /// non-retryable failure, or without a usable fallback, the original
    /// error is returned. An unknown model fails as unavailable.
    pub fn synthesize_with_fallback(
        &mut self,
        query: &str,
        sources: &Vec<Source>,
        model_id: Option<&str>,
    ) -> (r: Result<ResearchAnswer, LlmError>)
        ensures
            final(self).models() == old(self).models(),
            final(self).default_id() == old(self).default_id(),
            final(self).fallback_id() == old(self).fallback_id(),
            model_id matches Some(id) ==> (!old(self).contains_model(id@) ==> (r matches Err(e)
                && e matches LlmError::ModelUnavailable { model } && model@ == id@)),
            model_id is None && old(self).default_id() is None ==> (r matches Err(e) && e matches
                LlmError::ModelUnavailable { model } && model@
                == "no default model configured"@),
            model_id is None ==> (match old(self).default_id() {
                Some(d) => !old(self).contains_model(d) ==> (r matches Err(e) && e matches
                    LlmError::ModelUnavailable { model } && model@
                    == "no default model configured"@),
                None => true,
            }),
    {
        let primary_index: usize = match model_id {
            Some(id) => {
                match self.index_of(id) {
                    Some(i) => i,
                    None => {
                        return Err(LlmError::ModelUnavailable { model: id.to_owned() });
                    },
                }
            },
            None => {
                let default_id = match &self.default_model {
                    Some(d) => d.clone(),
                    None => {
                        return Err(
                            LlmError::ModelUnavailable {
                                model: "no default model configured".to_owned(),
                            },
                        );
                    },
                };
                match self.index_of(default_id.as_str()) {
                    Some(i) => i,
                    None => {
                        return Err(
                            LlmError::ModelUnavailable {
                                model: "no default model configured".to_owned(),
                            },
                        );
                    },
                }
            },
        };
        let ghost pre_models = self.models();
        let primary_model_id = self.entries[primary_index].1.model_id().to_owned();
        let first = self.entries[primary_index].1.synthesize(query, sources);
        proof {
            assert(self.models() =~= pre_models);
        }
        let err = match first {
            Ok(answer) => {
                return Ok(answer);
            },
            Err(err) => err,
        };
        if !err.is_retryable() {
            return Err(err);
        }
        let fallback_id = match &self.fallback_model {
            Some(f) => f.clone(),
            None => {
                return Err(err);
            },
        };
        let fallback_index = match self.index_of(fallback_id.as_str()) {
            Some(i) => i,
            None => {
                return Err(err);
            },
        };
        if str_eq(self.entries[fallback_index].1.model_id(), primary_model_id.as_str()) {
            return Err(err);
        }
        let second = self.entries[fallback_index].1.synthesize(query, sources);
        proof {
            assert(self.models() =~= pre_models);
        }
        second
    }
}

/// Builds a registry in one expression chain.
pub struct LlmRegistryBuilder<P> {
    registry: LlmRegistry<P>,
}

impl<P: LlmProvider> LlmRegistryBuilder<P> {
    /// The registry as built so far.
    pub closed spec fn spec_registry(&self) -> LlmRegistry<P> {
        self.registry
    }

    /// Creates an empty builder.
    pub fn new() -> (r: LlmRegistryBuilder<P>)
        ensures
            r.spec_registry().models().len() == 0,
            r.spec_registry().default_id() is None,
            r.spec_registry().fallback_id() is None,
    {
        LlmRegistryBuilder { registry: LlmRegistry::new() }
    }

    /// Registers a provider; the first registration becomes the default.
    pub fn register(self, model_id: &str, provider: P) -> (r: LlmRegistryBuilder<P>)
        ensures
            r.spec_registry().contains_model(model_id@),
            self.spec_registry().default_id() is None ==> r.spec_registry().default_id() == Some(model_id@),
            self.spec_registry().default_id() is Some ==> r.spec_registry().default_id()
                == self.spec_registry().default_id(),
            r.spec_registry().fallback_id() == self.spec_registry().fallback_id(),
    {
        let mut this = self;
        this.registry.register(model_id, provider);
        this
    }

    /// Overrides the default model.
    pub fn default_model(self, model_id: &str) -> (r: LlmRegistryBuilder<P>)
        ensures
            r.spec_registry().default_id() == Some(model_id@),
            r.spec_registry().fallback_id() == self.spec_registry().fallback_id(),
            r.spec_registry().models() == self.spec_registry().models(),
    {
        let mut this = self;
        this.registry.set_default(model_id);
        this
    }

    /// Sets the fallback model.
    pub fn fallback_model(self, model_id: &str) -> (r: LlmRegistryBuilder<P>)
        ensures
            r.spec_registry().fallback_id() == Some(model_id@),
            r.spec_registry().default_id() == self.spec_registry().default_id(),
            r.spec_registry().models() == self.spec_registry().models(),
    {
        let mut this = self;
        this.registry.set_fallback(model_id);
        this
    }

    /// Finishes the registry.
    pub fn build(self) -> (r: LlmRegistry<P>)
        ensures
            r == self.spec_registry(),
    {
        self.registry
    }
}

} // verus!
