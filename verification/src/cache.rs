//! The registry of resident voice models.
//!
//! The registry keeps its models from the least to the most recently used, so a
//! model's place is its last-access marker. Under a capacity it never holds
//! more models than that; a load that would exceed it evicts from the front.

use vstd::prelude::*;
use crate::catalog::ModelFormat;
use crate::error::TtsError;
use crate::style::StyleMatrix;
use crate::utils::same_text;

verus! {

/// A resident voice model: its identifier, the container it came in, its style
/// matrix and the handle of its network weights.
#[derive(Debug, Clone, PartialEq)]
pub struct LoadedModel<T, W> {
    pub ident: String,
    pub format: ModelFormat,
    pub style_vectors: StyleMatrix<T>,
    pub weights: W,
}

/// Which use of a model counts for eviction.
#[derive(Debug, Clone, Copy, PartialEq, Eq, Structural)]
pub enum EvictionPolicy {
    /// The model evicted is the one whose last synthesis lies furthest back; a
    /// model never used counts from its load.
    LeastRecentlyUsed,
    /// The model evicted is the one loaded first, however often it was used.
    InsertionOrder,
}

/// The identifiers of the models, in their order.
pub open spec fn idents_of<T, W>(models: Seq<LoadedModel<T, W>>) -> Seq<Seq<char>> {
    models.map_values(|model: LoadedModel<T, W>| model.ident@)
}

/// Whether a model with the identifier is among the models.
pub open spec fn holds<T, W>(models: Seq<LoadedModel<T, W>>, ident: Seq<char>) -> bool {
    idents_of(models).contains(ident)
}

/// The place of the model with the identifier among the models.
pub open spec fn place<T, W>(models: Seq<LoadedModel<T, W>>, ident: Seq<char>) -> int
    recommends
        holds(models, ident),
{
    idents_of(models).index_of(ident)
}

/// Whether loading the model pushes the registry over its capacity.
pub open spec fn overflows<T, W>(
    models: Seq<LoadedModel<T, W>>,
    capacity: Option<usize>,
    model: LoadedModel<T, W>,
) -> bool {
    &&& !holds(models, model.ident@)
    &&& capacity matches Some(most)
    &&& models.len() + 1 > most
}

/// The registry after a load: unchanged if the identifier is resident already;
/// else with the model as the most recent one, and without its least recent one
/// if that is what it takes to stay within the capacity.
pub open spec fn after_load<T, W>(
    models: Seq<LoadedModel<T, W>>,
    capacity: Option<usize>,
    model: LoadedModel<T, W>,
) -> Seq<LoadedModel<T, W>> {
    if holds(models, model.ident@) {
        models
    } else if overflows(models, capacity, model) {
        models.push(model).drop_first()
    } else {
        models.push(model)
    }
}

/// The model that a load evicts, if it evicts one.
pub open spec fn evicted_by_load<T, W>(
    models: Seq<LoadedModel<T, W>>,
    capacity: Option<usize>,
    model: LoadedModel<T, W>,
) -> Option<LoadedModel<T, W>> {
    if overflows(models, capacity, model) {
        Some(models.push(model).first())
    } else {
        None
    }
}

/// The registry after the model at place `i` was used.
pub open spec fn after_use<T, W>(
    models: Seq<LoadedModel<T, W>>,
    policy: EvictionPolicy,
    i: int,
) -> Seq<LoadedModel<T, W>> {
    match policy {
        EvictionPolicy::LeastRecentlyUsed => models.remove(i).push(models[i]),
        EvictionPolicy::InsertionOrder => models,
    }
}

/// The registry after every model of `incoming` was loaded, one after the other.
pub open spec fn after_loads<T, W>(
    models: Seq<LoadedModel<T, W>>,
    capacity: Option<usize>,
    incoming: Seq<LoadedModel<T, W>>,
) -> Seq<LoadedModel<T, W>>
    decreases incoming.len(),
{
    if incoming.len() == 0 {
        models
    } else {
        after_load(after_loads(models, capacity, incoming.drop_last()), capacity, incoming.last())
    }
}

/// Whether a registry state is sound: no identifier twice, every style matrix a
/// rectangle, and no more models than the capacity allows.
pub open spec fn sound<T, W>(models: Seq<LoadedModel<T, W>>, capacity: Option<usize>) -> bool {
    &&& idents_of(models).no_duplicates()
    &&& forall|i: int| 0 <= i < models.len() ==> (#[trigger] models[i]).style_vectors.wf()
    &&& capacity matches Some(most) ==> models.len() <= most
}

/// Among models with distinct identifiers, the place of an identifier is the one
/// index that carries it.
pub proof fn lemma_place<T, W>(models: Seq<LoadedModel<T, W>>, ident: Seq<char>, i: int)
    requires
        idents_of(models).no_duplicates(),
        0 <= i < models.len(),
        models[i].ident@ == ident,
    ensures
        holds(models, ident),
        place(models, ident) == i,
{
    assert(idents_of(models)[i] == ident);
}

/// The registry of resident models.
pub struct ModelCache<T, W> {
    models: Vec<LoadedModel<T, W>>,
    capacity: Option<usize>,
    policy: EvictionPolicy,
}

impl<T, W> View for ModelCache<T, W> {
    type V = Seq<LoadedModel<T, W>>;

    /// The resident models, from the least to the most recently used.
    closed spec fn view(&self) -> Seq<LoadedModel<T, W>> {
        self.models@
    }
}

impl<T, W> ModelCache<T, W> {
    /// The most models the registry holds; `None` for no bound.
    pub closed spec fn capacity(&self) -> Option<usize> {
        self.capacity
    }

    /// The eviction policy the registry was made with.
    pub closed spec fn policy(&self) -> EvictionPolicy {
        self.policy
    }

    /// Whether the registry is in a sound state. Every registry is, at all times.
    pub open spec fn wf(&self) -> bool {
        sound(self@, self.capacity())
    }

    #[verifier::type_invariant]
    spec fn inv(&self) -> bool {
        sound(self.models@, self.capacity)
    }

    /// An empty registry.
    pub fn new(capacity: Option<usize>, policy: EvictionPolicy) -> (cache: Self)
        ensures
            cache.wf(),
            cache@ == Seq::<LoadedModel<T, W>>::empty(),
            cache.capacity() == capacity,
            cache.policy() == policy,
    {
        ModelCache { models: Vec::new(), capacity, policy }
    }

    /// The number of resident models.
    pub fn len(&self) -> (n: usize)
        ensures
            n == self@.len(),
            self.wf(),
    {
        proof {
            use_type_invariant(self);
        }
        self.models.len()
    }

    /// Takes the models out to work on them; the registry is empty until they are
    /// put back.
    fn take_models(&mut self) -> (models: Vec<LoadedModel<T, W>>)
        ensures
            models@ == old(self)@,
            sound(models@, old(self).capacity()),
            final(self)@ == Seq::<LoadedModel<T, W>>::empty(),
            final(self).capacity() == old(self).capacity(),
            final(self).policy() == old(self).policy(),
    {
        proof {
            use_type_invariant(&*self);
        }
        let mut models: Vec<LoadedModel<T, W>> = Vec::new();
        std::mem::swap(&mut models, &mut self.models);
        models
    }

    /// Where the model with the identifier stands, if it is resident.
    fn find(&self, ident: &str) -> (found: Option<usize>)
        ensures
            self.wf(),
            match found {
                Some(i) => i < self@.len() && holds(self@, ident@) && place(self@, ident@) == i,
                None => !holds(self@, ident@),
            },
    {
        proof {
            use_type_invariant(self);
        }
        let mut i: usize = 0;
        while i < self.models.len()
            invariant
                i <= self.models.len(),
                self.wf(),
                forall|k: int| 0 <= k < i ==> idents_of(self@)[k] != ident@,
            decreases self.models.len() - i,
        {
            if same_text(self.models[i].ident.as_str(), ident) {
                proof {
                    lemma_place(self@, ident@, i as int);
                }
                return Some(i);
            }
            i += 1;
        }
        None
    }

    /// Whether a model with the identifier is resident.
    pub fn contains(&self, ident: &str) -> (found: bool)
        ensures
            found == holds(self@, ident@),
    {
        self.find(ident).is_some()
    }

    /// The identifiers of the resident models, from the least to the most
    /// recently used.
    pub fn models(&self) -> (idents: Vec<String>)
        ensures
            idents@.map_values(|ident: String| ident@) == idents_of(self@),
    {
        let mut idents: Vec<String> = Vec::new();
        let mut i: usize = 0;
        while i < self.models.len()
            invariant
                i <= self.models.len(),
                idents@.map_values(|ident: String| ident@) == idents_of(self@).take(i as int),
            decreases self.models.len() - i,
        {
            let ghost before = idents@.map_values(|ident: String| ident@);
            let ident: String = self.models[i].ident.clone();
            idents.push(ident);
            assert(before.push(ident@) =~= idents_of(self@).take(i + 1));
            i += 1;
        }
        idents
    }

    /// The resident model with the identifier.
    pub fn get(&self, ident: &str) -> (result: Result<&LoadedModel<T, W>, TtsError>)
        ensures
            match result {
                Ok(model) => holds(self@, ident@) && *model == self@[place(self@, ident@)],
                Err(e) => {
                    &&& !holds(self@, ident@)
                    &&& e matches TtsError::UnknownModel(name)
                    &&& name@ == ident@
                },
            },
    {
        match self.find(ident) {
            Some(i) => Ok(&self.models[i]),
            None => Err(TtsError::UnknownModel(ident.to_owned())),
        }
    }

    /// Makes a model resident.
    ///
    /// A model whose style matrix is no rectangle is refused. A model whose
    /// identifier is resident already changes nothing: the resident one stays.
    /// Any other model becomes the most recently used one; if that exceeds the
    /// capacity, the least recently used model leaves and is handed back.
    pub fn load(&mut self, model: LoadedModel<T, W>) -> (result: Result<
        Option<LoadedModel<T, W>>,
        TtsError,
    >)
        ensures
            final(self).wf(),
            final(self).capacity() == old(self).capacity(),
            final(self).policy() == old(self).policy(),
            match result {
                Ok(evicted) => {
                    &&& model.style_vectors.wf()
                    &&& final(self)@ == after_load(old(self)@, old(self).capacity(), model)
                    &&& evicted == evicted_by_load(old(self)@, old(self).capacity(), model)
                },
                Err(e) => {
                    &&& !model.style_vectors.wf()
                    &&& e == TtsError::BadContainer
                    &&& final(self)@ == old(self)@
                },
            },
    {
        proof {
            use_type_invariant(&*self);
        }
        if !model.style_vectors.is_well_formed() {
            return Err(TtsError::BadContainer);
        }
        if self.find(model.ident.as_str()).is_some() {
            return Ok(None);
        }
        let ghost before = self@;
        let mut models = self.take_models();
        models.push(model);
        proof {
            lemma_push_sound(before, model);
        }
        let over: bool = match self.capacity {
            Some(most) => models.len() > most,
            None => false,
        };
        let evicted = if over {
            let evicted = models.remove(0);
            proof {
                lemma_drop_first_sound(before.push(model));
            }
            Some(evicted)
        } else {
            None
        };
        self.models = models;
        Ok(evicted)
    }

    /// Removes the model with the identifier and hands it back.
    pub fn evict(&mut self, ident: &str) -> (result: Result<LoadedModel<T, W>, TtsError>)
        ensures
            final(self).wf(),
            final(self).capacity() == old(self).capacity(),
            final(self).policy() == old(self).policy(),
            !holds(final(self)@, ident@),
            match result {
                Ok(model) => {
                    &&& holds(old(self)@, ident@)
                    &&& model == old(self)@[place(old(self)@, ident@)]
                    &&& final(self)@ == old(self)@.remove(place(old(self)@, ident@))
                },
                Err(e) => {
                    &&& !holds(old(self)@, ident@)
                    &&& e matches TtsError::UnknownModel(name)
                    &&& name@ == ident@
                    &&& final(self)@ == old(self)@
                },
            },
    {
        match self.find(ident) {
            Some(i) => {
                let ghost before = self@;
                let mut models = self.take_models();
                let model = models.remove(i);
                proof {
                    lemma_remove_sound(before, i as int);
                }
                self.models = models;
                Ok(model)
            },
            None => Err(TtsError::UnknownModel(ident.to_owned())),
        }
    }

    /// Runs one synthesis against the model with the identifier.
    ///
    /// `run` is handed the model and does the work: it builds the inputs, calls
    /// the network and encodes the audio. What it returns is handed on as it is.
    /// Only a synthesis that succeeded counts as a use of the model; one that
    /// failed, or that named no resident model, leaves the registry as it was.
    pub fn synthesize<R, E, F: FnOnce(&LoadedModel<T, W>) -> Result<R, E>>(
        &mut self,
        ident: &str,
        run: F,
    ) -> (result: Result<Result<R, E>, TtsError>)
        requires
            forall|model: &LoadedModel<T, W>| run.requires((model,)),
        ensures
            final(self).wf(),
            final(self).capacity() == old(self).capacity(),
            final(self).policy() == old(self).policy(),
            match result {
                Ok(outcome) => {
                    &&& holds(old(self)@, ident@)
                    &&& run.ensures((&old(self)@[place(old(self)@, ident@)],), outcome)
                    &&& final(self)@ == if outcome is Ok {
                        after_use(old(self)@, old(self).policy(), place(old(self)@, ident@))
                    } else {
                        old(self)@
                    }
                },
                Err(e) => {
                    &&& !holds(old(self)@, ident@)
                    &&& e matches TtsError::UnknownModel(name)
                    &&& name@ == ident@
                    &&& final(self)@ == old(self)@
                },
            },
    {
        let i: usize = match self.find(ident) {
            Some(i) => i,
            None => {
                return Err(TtsError::UnknownModel(ident.to_owned()));
            },
        };
        let outcome = run(&self.models[i]);
        if outcome.is_ok() && self.policy == EvictionPolicy::LeastRecentlyUsed {
            let ghost before = self@;
            let mut models = self.take_models();
            let model = models.remove(i);
            models.push(model);
            proof {
                lemma_remove_sound(before, i as int);
                lemma_push_sound(before.remove(i as int), model);
            }
            self.models = models;
        }
        Ok(outcome)
    }
}

/// Removing a model keeps the rest sound, and the removed identifier is gone.
proof fn lemma_remove_sound<T, W>(models: Seq<LoadedModel<T, W>>, i: int)
    requires
        idents_of(models).no_duplicates(),
        forall|k: int| 0 <= k < models.len() ==> (#[trigger] models[k]).style_vectors.wf(),
        0 <= i < models.len(),
    ensures
        idents_of(models.remove(i)).no_duplicates(),
        forall|k: int|
            0 <= k < models.remove(i).len() ==> (#[trigger] models.remove(i)[k]).style_vectors.wf(),
        models.remove(i).len() == models.len() - 1,
        !holds(models.remove(i), models[i].ident@),
{
    let rest = models.remove(i);
    assert forall|k: int| 0 <= k < rest.len() implies #[trigger] rest[k] == models[if k < i {
        k
    } else {
        k + 1
    }] by {}
    assert forall|a: int, b: int| 0 <= a < rest.len() && 0 <= b < rest.len() && a != b implies idents_of(
        rest,
    )[a] != idents_of(rest)[b] by {
        let a0 = if a < i {
            a
        } else {
            a + 1
        };
        let b0 = if b < i {
            b
        } else {
            b + 1
        };
        assert(idents_of(models)[a0] != idents_of(models)[b0]);
    }
    assert forall|k: int| 0 <= k < rest.len() implies idents_of(rest)[k] != models[i].ident@ by {
        let k0 = if k < i {
            k
        } else {
            k + 1
        };
        assert(idents_of(models)[k0] != idents_of(models)[i]);
    }
}

/// Adding a model with a fresh identifier and a rectangular style matrix keeps
/// the models sound.
proof fn lemma_push_sound<T, W>(models: Seq<LoadedModel<T, W>>, model: LoadedModel<T, W>)
    requires
        idents_of(models).no_duplicates(),
        forall|k: int| 0 <= k < models.len() ==> (#[trigger] models[k]).style_vectors.wf(),
        !holds(models, model.ident@),
        model.style_vectors.wf(),
    ensures
        idents_of(models.push(model)).no_duplicates(),
        forall|k: int|
            0 <= k < models.push(model).len() ==> (#[trigger] models.push(
                model,
            )[k]).style_vectors.wf(),
{
    let grown = models.push(model);
    assert forall|a: int, b: int| 0 <= a < grown.len() && 0 <= b < grown.len() && a != b implies idents_of(
        grown,
    )[a] != idents_of(grown)[b] by {
        if a < models.len() {
            assert(idents_of(models)[a] == idents_of(grown)[a]);
        }
        if b < models.len() {
            assert(idents_of(models)[b] == idents_of(grown)[b]);
        }
    }
}

/// Dropping the first model keeps the rest sound, and its identifier is gone.
proof fn lemma_drop_first_sound<T, W>(models: Seq<LoadedModel<T, W>>)
    requires
        idents_of(models).no_duplicates(),
        forall|k: int| 0 <= k < models.len() ==> (#[trigger] models[k]).style_vectors.wf(),
        models.len() >= 1,
    ensures
        idents_of(models.drop_first()).no_duplicates(),
        forall|k: int|
            0 <= k < models.drop_first().len() ==> (#[trigger] models.drop_first()[k]).style_vectors.wf(),
        !holds(models.drop_first(), models[0].ident@),
{
    lemma_remove_sound(models, 0);
}

/// A load keeps a sound registry sound: within its capacity, and without a
/// second model of any identifier.
pub proof fn lemma_load_keeps_sound<T, W>(
    models: Seq<LoadedModel<T, W>>,
    capacity: Option<usize>,
    model: LoadedModel<T, W>,
)
    requires
        sound(models, capacity),
        model.style_vectors.wf(),
    ensures
        sound(after_load(models, capacity, model), capacity),
{
    if !holds(models, model.ident@) {
        lemma_push_sound(models, model);
        if overflows(models, capacity, model) {
            lemma_drop_first_sound(models.push(model));
        }
    }
}

/// A new model loaded into a full registry takes the place of one: as many
/// models are resident as before, and the model that left can no longer be
/// found.
pub proof fn lemma_load_into_full<T, W>(
    models: Seq<LoadedModel<T, W>>,
    capacity: usize,
    model: LoadedModel<T, W>,
)
    requires
        sound(models, Some(capacity)),
        models.len() == capacity,
        model.style_vectors.wf(),
        !holds(models, model.ident@),
    ensures
        after_load(models, Some(capacity), model).len() == capacity,
        evicted_by_load(models, Some(capacity), model) matches Some(gone) && !holds(
            after_load(models, Some(capacity), model),
            gone.ident@,
        ),
        capacity >= 1 ==> holds(after_load(models, Some(capacity), model), model.ident@),
{
    lemma_push_sound(models, model);
    lemma_drop_first_sound(models.push(model));
    if capacity >= 1 {
        let after = after_load(models, Some(capacity), model);
        assert(idents_of(after)[capacity - 1] == model.ident@);
    }
}

/// Loading distinct models into an empty registry that has room for all of them
/// keeps them all, in the order of loading.
proof fn lemma_loads_within_capacity<T, W>(capacity: usize, incoming: Seq<LoadedModel<T, W>>)
    requires
        incoming.len() <= capacity,
        idents_of(incoming).no_duplicates(),
    ensures
        after_loads(Seq::empty(), Some(capacity), incoming) == incoming,
    decreases incoming.len(),
{
    if incoming.len() > 0 {
        let earlier = incoming.drop_last();
        assert forall|a: int, b: int| 0 <= a < earlier.len() && 0 <= b < earlier.len() && a != b implies idents_of(
            earlier,
        )[a] != idents_of(earlier)[b] by {
            assert(idents_of(incoming)[a] != idents_of(incoming)[b]);
        }
        lemma_loads_within_capacity(capacity, earlier);
        assert forall|k: int| 0 <= k < earlier.len() implies idents_of(earlier)[k]
            != incoming.last().ident@ by {
            assert(idents_of(incoming)[k] != idents_of(incoming)[incoming.len() - 1]);
        }
    }
}

/// Loading one model more than the capacity into an empty registry leaves as
/// many models resident as the capacity says: the model loaded first is gone and
/// can no longer be found, and every model loaded after it is resident.
pub proof fn lemma_one_more_than_capacity<T, W>(
    capacity: usize,
    incoming: Seq<LoadedModel<T, W>>,
)
    requires
        incoming.len() == capacity + 1,
        idents_of(incoming).no_duplicates(),
    ensures
        after_loads(Seq::empty(), Some(capacity), incoming).len() == capacity,
        !holds(after_loads(Seq::empty(), Some(capacity), incoming), incoming[0].ident@),
        forall|i: int|
            1 <= i <= capacity ==> holds(
                after_loads(Seq::empty(), Some(capacity), incoming),
                #[trigger] incoming[i].ident@,
            ),
{
    let earlier = incoming.drop_last();
    let last = incoming.last();
    assert forall|a: int, b: int| 0 <= a < earlier.len() && 0 <= b < earlier.len() && a != b implies idents_of(
        earlier,
    )[a] != idents_of(earlier)[b] by {
        assert(idents_of(incoming)[a] != idents_of(incoming)[b]);
    }
    lemma_loads_within_capacity(capacity, earlier);
    assert forall|k: int| 0 <= k < earlier.len() implies idents_of(earlier)[k] != last.ident@ by {
        assert(idents_of(incoming)[k] != idents_of(incoming)[incoming.len() - 1]);
    }
    let after = after_loads(Seq::empty(), Some(capacity), incoming);
    assert forall|k: int| 0 <= k < after.len() implies idents_of(after)[k]
        != incoming[0].ident@ by {
        assert(idents_of(incoming)[k + 1] != idents_of(incoming)[0]);
    }
    assert forall|i: int| 1 <= i <= capacity implies holds(after, #[trigger] incoming[i].ident@) by {
        assert(idents_of(after)[i - 1] == incoming[i].ident@);
    }
}

} // verus!
