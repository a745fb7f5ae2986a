//! Registry of injected model providers, keyed by model identity and listed in model-id order.

use vstd::prelude::*;

use crate::core_types::ModelId;
use crate::llm::LlmError;
use crate::text::chars_of;

verus! {

/// Whether `a` sorts before `b`, character by character, a proper prefix first.
pub open spec fn text_less(a: Seq<char>, b: Seq<char>) -> bool
    decreases a.len(),
{
    if a.len() == 0 {
        b.len() > 0
    } else if b.len() == 0 {
        false
    } else if a[0] != b[0] {
        a[0] < b[0]
    } else {
        text_less(a.drop_first(), b.drop_first())
    }
}

/// The order is strict: nothing sorts before itself.
pub proof fn lemma_text_less_irreflexive(a: Seq<char>)
    ensures
        !text_less(a, a),
    decreases a.len(),
{
    if a.len() > 0 {
        lemma_text_less_irreflexive(a.drop_first());
    }
}

/// The order is transitive.
pub proof fn lemma_text_less_transitive(a: Seq<char>, b: Seq<char>, c: Seq<char>)
    requires
        text_less(a, b),
        text_less(b, c),
    ensures
        text_less(a, c),
    decreases a.len(),
{
    if a.len() > 0 && b.len() > 0 && c.len() > 0 && a[0] == b[0] && b[0] == c[0] {
        lemma_text_less_transitive(a.drop_first(), b.drop_first(), c.drop_first());
    }
}

/// The order is total on distinct texts.
pub proof fn lemma_text_less_total(a: Seq<char>, b: Seq<char>)
    ensures
        a == b || text_less(a, b) || text_less(b, a),
    decreases a.len(),
{
    if a.len() > 0 && b.len() > 0 && a[0] == b[0] {
        lemma_text_less_total(a.drop_first(), b.drop_first());
        if a.drop_first() == b.drop_first() {
            assert(a =~= seq![a[0]] + a.drop_first());
            assert(b =~= seq![b[0]] + b.drop_first());
        }
    } else if a.len() == 0 && b.len() == 0 {
        assert(a =~= b);
    }
}

/// Texts that agree before position `p` and differ there sort by their characters at `p`;
/// a text that ends at `p` sorts before a longer one.
pub proof fn lemma_text_less_at(a: Seq<char>, b: Seq<char>, p: int)
    requires
        0 <= p <= a.len(),
        p < b.len(),
        forall|i: int| 0 <= i < p ==> a[i] == b[i],
        p == a.len() || a[p] < b[p],
    ensures
        text_less(a, b),
    decreases p,
{
    if p > 0 {
        assert forall|i: int| 0 <= i < p - 1 implies a.drop_first()[i] == b.drop_first()[i] by {
            assert(a[i + 1] == b[i + 1]);
        }
        lemma_text_less_at(a.drop_first(), b.drop_first(), p - 1);
        assert(a[0] == b[0]);
    }
}

/// Whether `a` sorts before `b` in the order of [`text_less`].
pub fn less_str(a: &str, b: &str) -> (r: bool)
    ensures
        r == text_less(a@, b@),
{
    let ac = chars_of(a);
    let bc = chars_of(b);
    let mut i: usize = 0;
    assert(a@.skip(0) =~= a@);
    assert(b@.skip(0) =~= b@);
    while i < ac.len() && i < bc.len() && ac[i] == bc[i]
        invariant
            ac@ == a@,
            bc@ == b@,
            i <= ac@.len(),
            i <= bc@.len(),
            text_less(a@, b@) == text_less(a@.skip(i as int), b@.skip(i as int)),
        decreases ac.len() - i,
    {
        assert(a@.skip(i as int).drop_first() =~= a@.skip(i + 1));
        assert(b@.skip(i as int).drop_first() =~= b@.skip(i + 1));
        i = i + 1;
    }
    if i == ac.len() {
        i < bc.len()
    } else if i == bc.len() {
        false
    } else {
        ac[i] < bc[i]
    }
}

/// Configuration of one model: its identity and its parameters as a JSON object text.
#[derive(Debug)]
pub struct ModelConfig {
    /// Model identity.
    pub model: ModelId,
    /// Provider parameters as compact JSON object text.
    pub parameters: String,
}

/// A registered model and the JSON schema of its parameters.
#[derive(Debug)]
pub struct ModelDescriptor {
    /// Model identity.
    pub model: ModelId,
    /// JSON schema of the model's parameters.
    pub parameters_schema: String,
}

/// A model provider that can be configured with model parameters; implemented by the
/// providers an application injects.
pub trait ConfigurableLlmProvider {
    /// The configured provider a successful configuration yields.
    type Configured;

    /// Identity of the model this provider is bound to.
    fn model_id(&self) -> ModelId;

    /// JSON schema of the accepted parameters.
    fn parameter_schema(&self) -> String;

    /// Default configuration of the bound model.
    fn default_model_config(&self) -> ModelConfig;

    /// Configures the provider with `parameters`, a JSON object text.
    fn configure(&self, parameters: &String) -> Result<Self::Configured, LlmError>;
}

/// Registry of model providers injected by the application.
pub struct LlmProviderManager<P> {
    entries: Vec<(ModelId, P)>,
}

impl<P> LlmProviderManager<P> {
    /// The registered model identities, in model-id order.
    pub closed spec fn spec_models(&self) -> Seq<Seq<char>> {
        self.entries@.map_values(|e: (ModelId, P)| e.0@)
    }

    /// The registered providers, by model identity.
    pub closed spec fn spec_providers(&self) -> Map<Seq<char>, P> {
        Map::new(
            |k: Seq<char>| exists|i: int| 0 <= i < self.entries@.len() && self.entries@[i].0@ == k,
            |k: Seq<char>| self.entries@[self.index_of(k)].1,
        )
    }

    /// A position of the entry registered for `k`.
    closed spec fn index_of(&self, k: Seq<char>) -> int {
        choose|i: int| 0 <= i < self.entries@.len() && self.entries@[i].0@ == k
    }

    /// The models are listed in strictly increasing model-id order.
    pub closed spec fn wf(&self) -> bool {
        forall|i: int, j: int|
            0 <= i < j < self.entries@.len() ==> text_less(
                (#[trigger] self.entries@[i]).0@,
                (#[trigger] self.entries@[j]).0@,
            )
    }

    /// Creates an empty provider registry.
    pub fn new() -> (r: Self)
        ensures
            r.wf(),
            r.spec_models().len() == 0,
            r.spec_providers() == Map::<Seq<char>, P>::empty(),
    {
        let r = LlmProviderManager { entries: Vec::new() };
        assert(r.spec_providers().dom() =~= Set::empty());
        assert(r.spec_providers() =~= Map::<Seq<char>, P>::empty());
        r
    }

    proof fn lemma_sorted_unique(&self, i: int, j: int)
        requires
            self.wf(),
            0 <= i < self.entries@.len(),
            0 <= j < self.entries@.len(),
            self.entries@[i].0@ == self.entries@[j].0@,
        ensures
            i == j,
    {
        if i < j || j < i {
            lemma_text_less_irreflexive(self.entries@[i].0@);
        }
    }

    proof fn lemma_provider_at(&self, k: int)
        requires
            self.wf(),
            0 <= k < self.entries@.len(),
        ensures
            self.spec_providers().dom().contains(self.entries@[k].0@),
            self.spec_providers()[self.entries@[k].0@] == self.entries@[k].1,
    {
        let x = self.entries@[k].0@;
        assert(self.spec_providers().dom().contains(x));
        let i = self.index_of(x);
        self.lemma_sorted_unique(i, k);
    }

    fn position(&self, model: &ModelId) -> (r: (usize, bool))
        requires
            self.wf(),
        ensures
            r.0 <= self.entries@.len(),
            forall|i: int| 0 <= i < r.0 ==> text_less(#[trigger] self.entries@[i].0@, model@),
            r.1 == (r.0 < self.entries@.len() && self.entries@[r.0 as int].0@ == model@),
            !r.1 ==> forall|i: int| r.0 <= i < self.entries@.len() ==> text_less(model@, #[trigger] self.entries@[i].0@),
    {
        let mut k: usize = 0;
        while k < self.entries.len() && less_str(self.entries[k].0.as_str(), model.as_str())
            invariant
                self.wf(),
                k <= self.entries@.len(),
                forall|i: int| 0 <= i < k ==> text_less(#[trigger] self.entries@[i].0@, model@),
            decreases self.entries.len() - k,
        {
            k = k + 1;
        }
        let found = k < self.entries.len() && self.entries[k].0.same_as(model);
        proof {
            if !found && k < self.entries@.len() {
                lemma_text_less_total(self.entries@[k as int].0@, model@);
                assert forall|i: int| k <= i < self.entries@.len() implies text_less(model@, #[trigger] self.entries@[i].0@) by {
                    if i > k {
                        lemma_text_less_transitive(model@, self.entries@[k as int].0@, self.entries@[i].0@);
                    }
                }
            }
        }
        (k, found)
    }

    /// Returns the provider registered for a model.
    pub fn get(&self, model: &ModelId) -> (r: Result<&P, LlmError>)
        requires
            self.wf(),
        ensures
            self.spec_providers().dom().contains(model@) ==> r == Ok::<&P, LlmError>(&self.spec_providers()[model@]),
            !self.spec_providers().dom().contains(model@) ==> r == Err::<&P, LlmError>(
                LlmError::ProviderNotFound { model: *model },
            ),
    {
        let (k, found) = self.position(model);
        if found {
            proof {
                let i = choose|i: int| 0 <= i < self.entries@.len() && self.entries@[i].0@ == model@;
                self.lemma_sorted_unique(i, k as int);
            }
            Ok(&self.entries[k].1)
        } else {
            proof {
                if self.spec_providers().dom().contains(model@) {
                    let i = choose|i: int| 0 <= i < self.entries@.len() && self.entries@[i].0@ == model@;
                    if i < k {
                        lemma_text_less_irreflexive(model@);
                    } else {
                        lemma_text_less_irreflexive(model@);
                    }
                }
            }
            Err(LlmError::ProviderNotFound { model: model.clone() })
        }
    }

    /// Registers `provider` under `model`, the identity it reports; a model may have one
    /// provider only.
    pub fn insert(&mut self, model: ModelId, provider: P) -> (r: Result<(), LlmError>)
        requires
            old(self).wf(),
        ensures
            final(self).wf(),
            old(self).spec_providers().dom().contains(model@) ==> r == Err::<(), LlmError>(
                LlmError::DuplicateProvider { model },
            ) && final(self).spec_providers() == old(self).spec_providers() && final(self).spec_models() == old(
                self,
            ).spec_models(),
            !old(self).spec_providers().dom().contains(model@) ==> r is Ok && final(self).spec_providers()
                == old(self).spec_providers().insert(model@, provider),
    {
        let (k, found) = self.position(&model);
        if found {
            return Err(LlmError::DuplicateProvider { model });
        }
        let ghost old_entries = self.entries@;
        let ghost key = model@;
        proof {
            assert(!old(self).spec_providers().dom().contains(model@)) by {
                if old(self).spec_providers().dom().contains(model@) {
                    let i = choose|i: int| 0 <= i < old_entries.len() && old_entries[i].0@ == model@;
                    lemma_text_less_irreflexive(model@);
                }
            }
        }
        self.entries.insert(k, (model, provider));
        proof {
            let e = self.entries@;
            assert forall|i: int, j: int| 0 <= i < j < e.len() implies text_less(
                (#[trigger] e[i]).0@,
                (#[trigger] e[j]).0@,
            ) by {
                if j < k {
                    assert(e[i] == old_entries[i] && e[j] == old_entries[j]);
                } else if j == k {
                    assert(e[i] == old_entries[i]);
                } else if i < k {
                    assert(e[i] == old_entries[i] && e[j] == old_entries[j - 1]);
                    lemma_text_less_transitive(e[i].0@, key, e[j].0@);
                } else if i == k {
                    assert(e[j] == old_entries[j - 1]);
                } else {
                    assert(e[i] == old_entries[i - 1] && e[j] == old_entries[j - 1]);
                }
            }
            let m_old = old(self).spec_providers();
            let m_new = self.spec_providers();
            assert forall|x: Seq<char>| m_new.dom().contains(x) <==> m_old.insert(key, provider).dom().contains(x) by {
                if m_new.dom().contains(x) {
                    let i = choose|i: int| 0 <= i < e.len() && e[i].0@ == x;
                    if i < k {
                        assert(e[i] == old_entries[i]);
                    } else if i > k {
                        assert(e[i] == old_entries[i - 1]);
                    }
                }
                if m_old.dom().contains(x) {
                    let i = choose|i: int| 0 <= i < old_entries.len() && old_entries[i].0@ == x;
                    if i < k {
                        assert(e[i] == old_entries[i]);
                    } else {
                        assert(e[i + 1] == old_entries[i]);
                    }
                }
                if x == key {
                    assert(e[k as int].0@ == key);
                }
            }
            assert forall|x: Seq<char>| #[trigger] m_new.dom().contains(x) implies m_new[x] == m_old.insert(key, provider)[x] by {
                let i = choose|i: int| 0 <= i < e.len() && e[i].0@ == x;
                self.lemma_sorted_unique(i, i);
                if x == key {
                    self.lemma_sorted_unique(i, k as int);
                } else {
                    let oi = choose|oi: int| 0 <= oi < old_entries.len() && old_entries[oi].0@ == x;
                    old(self).lemma_sorted_unique(oi, oi);
                    if oi < k {
                        assert(e[oi] == old_entries[oi]);
                        self.lemma_sorted_unique(i, oi);
                        let oj = choose|oj: int| 0 <= oj < old_entries.len() && old_entries[oj].0@ == x;
                        old(self).lemma_sorted_unique(oi, oj);
                    } else {
                        assert(e[oi + 1] == old_entries[oi]);
                        self.lemma_sorted_unique(i, oi + 1);
                        let oj = choose|oj: int| 0 <= oj < old_entries.len() && old_entries[oj].0@ == x;
                        old(self).lemma_sorted_unique(oi, oj);
                    }
                }
            }
            assert(m_new =~= m_old.insert(key, provider));
        }
        Ok(())
    }

    /// The registered model identities in model-id order.
    pub fn model_ids(&self) -> (r: Vec<ModelId>)
        ensures
            r@.map_values(|m: ModelId| m@) == self.spec_models(),
    {
        let mut r: Vec<ModelId> = Vec::new();
        let mut i: usize = 0;
        while i < self.entries.len()
            invariant
                i <= self.entries@.len(),
                r@.len() == i,
                forall|k: int| 0 <= k < i ==> (#[trigger] r@[k])@ == self.entries@[k].0@,
            decreases self.entries.len() - i,
        {
            r.push(self.entries[i].0.clone());
            i = i + 1;
        }
        assert(r@.map_values(|m: ModelId| m@) =~= self.spec_models());
        r
    }
}

impl<P: ConfigurableLlmProvider> LlmProviderManager<P> {
    /// Registers an injected provider under the model id it reports.
    pub fn register(&mut self, provider: P) -> (r: Result<(), LlmError>)
        requires
            old(self).wf(),
        ensures
            final(self).wf(),
            exists|id: ModelId|
                #![trigger call_ensures(P::model_id, (&provider,), id)]
                call_ensures(P::model_id, (&provider,), id) && if old(self).spec_providers().dom().contains(id@) {
                    &&& r == Err::<(), LlmError>(LlmError::DuplicateProvider { model: id })
                    &&& final(self).spec_providers() == old(self).spec_providers()
                    &&& final(self).spec_models() == old(self).spec_models()
                } else {
                    &&& r is Ok
                    &&& final(self).spec_providers() == old(self).spec_providers().insert(id@, provider)
                },
    {
        let model = provider.model_id();
        self.insert(model, provider)
    }

    /// Configures the provider registered for a model configuration.
    pub fn configure(&self, config: &ModelConfig) -> (r: Result<P::Configured, LlmError>)
        requires
            self.wf(),
        ensures
            !self.spec_providers().dom().contains(config.model@) ==> r == Err::<P::Configured, LlmError>(
                LlmError::ProviderNotFound { model: config.model },
            ),
            self.spec_providers().dom().contains(config.model@) ==> call_ensures(
                P::configure,
                (&self.spec_providers()[config.model@], &config.parameters),
                r,
            ),
    {
        match self.get(&config.model) {
            Ok(p) => p.configure(&config.parameters),
            Err(e) => Err(e),
        }
    }

    /// Returns the default configuration for a registered model.
    pub fn default_model_config(&self, model: &ModelId) -> (r: Result<ModelConfig, LlmError>)
        requires
            self.wf(),
        ensures
            self.spec_providers().dom().contains(model@) <==> r is Ok,
            !self.spec_providers().dom().contains(model@) ==> r == Err::<ModelConfig, LlmError>(
                LlmError::ProviderNotFound { model: *model },
            ),
            r matches Ok(c) ==> call_ensures(P::default_model_config, (&self.spec_providers()[model@],), c),
    {
        match self.get(model) {
            Ok(p) => Ok(p.default_model_config()),
            Err(e) => Err(e),
        }
    }

    /// Lists registered models, with their parameter schemas, in model-id order.
    pub fn models(&self) -> (r: Vec<ModelDescriptor>)
        requires
            self.wf(),
        ensures
            r@.map_values(|d: ModelDescriptor| d.model@) == self.spec_models(),
            forall|i: int, j: int|
                0 <= i < j < r@.len() ==> text_less(#[trigger] r@[i].model@, #[trigger] r@[j].model@),
            self.spec_providers().dom() == self.spec_models().to_set(),
            forall|i: int|
                0 <= i < r@.len() ==> call_ensures(
                    P::parameter_schema,
                    (&self.spec_providers()[r@[i].model@],),
                    #[trigger] r@[i].parameters_schema,
                ),
    {
        let mut r: Vec<ModelDescriptor> = Vec::new();
        let mut i: usize = 0;
        while i < self.entries.len()
            invariant
                self.wf(),
                i <= self.entries@.len(),
                r@.len() == i,
                forall|k: int| 0 <= k < i ==> (#[trigger] r@[k]).model@ == self.entries@[k].0@,
                forall|k: int| 0 <= k < i ==> call_ensures(P::parameter_schema, (&self.entries@[k].1,), #[trigger] r@[k].parameters_schema),
            decreases self.entries.len() - i,
        {
            let parameters_schema = self.entries[i].1.parameter_schema();
            r.push(ModelDescriptor { model: self.entries[i].0.clone(), parameters_schema });
            i = i + 1;
        }
        assert(r@.map_values(|d: ModelDescriptor| d.model@) =~= self.spec_models());
        proof {
            assert forall|k: int| 0 <= k < r@.len() implies call_ensures(
                P::parameter_schema,
                (&self.spec_providers()[r@[k].model@],),
                #[trigger] r@[k].parameters_schema,
            ) by {
                self.lemma_provider_at(k);
            }
            assert forall|x: Seq<char>| self.spec_providers().dom().contains(x) <==> self.spec_models().to_set().contains(x) by {
                if self.spec_models().to_set().contains(x) {
                    let k = choose|k: int| 0 <= k < self.spec_models().len() && self.spec_models()[k] == x;
                    assert(self.entries@[k].0@ == x);
                }
                if self.spec_providers().dom().contains(x) {
                    let j = choose|j: int| 0 <= j < self.entries@.len() && self.entries@[j].0@ == x;
                    assert(self.spec_models()[j] == x);
                }
            }
            assert(self.spec_providers().dom() =~= self.spec_models().to_set());
        }
        r
    }
}

} // verus!
