//! The registry: validators kept under the selector of the field that they inspect.

use vstd::prelude::*;
use crate::field::{FieldKey, HttpField};

verus! {

/// A selector with the validators registered for it, in registration order.
pub struct Chain<V> {
    pub field: FieldKey,
    pub validators: Seq<V>,
}

/// The position of the chain registered for `key`, if there is one.
pub open spec fn chain_of<V>(chains: Seq<Chain<V>>, key: FieldKey) -> Option<int> {
    if exists|i: int| 0 <= i < chains.len() && chains[i].field == key {
        Some(choose|i: int| 0 <= i < chains.len() && chains[i].field == key)
    } else {
        None
    }
}

/// The chains after `validator` has been registered for `key`: appended to the chain of
/// `key` where there is one, else alone in a new chain behind the others.
pub open spec fn registered<V>(chains: Seq<Chain<V>>, key: FieldKey, validator: V) -> Seq<Chain<V>> {
    match chain_of(chains, key) {
        Some(i) => chains.update(
            i,
            Chain { field: key, validators: chains[i].validators.push(validator) },
        ),
        None => chains.push(Chain { field: key, validators: seq![validator] }),
    }
}

/// The selectors and the validators of a list of registrations.
pub open spec fn additions_view<V>(additions: Seq<(HttpField<'static>, V)>) -> Seq<(FieldKey, V)> {
    additions.map_values(|addition: (HttpField<'static>, V)| (addition.0@, addition.1))
}

/// The chains after each validator of `additions` has been registered for its selector,
/// one after the other in the order of the list.
pub open spec fn registered_all<V>(chains: Seq<Chain<V>>, additions: Seq<(FieldKey, V)>) -> Seq<
    Chain<V>,
>
    decreases additions.len(),
{
    if additions.len() == 0 {
        chains
    } else {
        registered(
            registered_all(chains, additions.drop_last()),
            additions.last().0,
            additions.last().1,
        )
    }
}

/// Whether a validator can be called on every name and every value.
pub open spec fn accepts_all<T, V: Fn(&str, Option<&str>) -> Result<(), T>>(validator: V) -> bool {
    forall|name: &str, value: Option<&str>| call_requires(validator, (name, value))
}

/// No selector has two chains, no chain is empty, and every validator accepts every input.
pub open spec fn well_formed<T, V: Fn(&str, Option<&str>) -> Result<(), T>>(
    chains: Seq<Chain<V>>,
) -> bool {
    &&& forall|i: int, j: int|
        0 <= i < j < chains.len() ==> chains[i].field != chains[j].field
    &&& forall|i: int| 0 <= i < chains.len() ==> (#[trigger] chains[i]).validators.len() > 0
    &&& forall|i: int, j: int|
        0 <= i < chains.len() && 0 <= j < chains[i].validators.len() ==> accepts_all::<T, V>(
            #[trigger] chains[i].validators[j],
        )
}

/// Registering a validator that accepts every input keeps the chains well formed.
pub proof fn lemma_registered_well_formed<T, V: Fn(&str, Option<&str>) -> Result<(), T>>(
    chains: Seq<Chain<V>>,
    key: FieldKey,
    validator: V,
)
    requires
        well_formed::<T, V>(chains),
        accepts_all::<T, V>(validator),
    ensures
        well_formed::<T, V>(registered(chains, key, validator)),
{
}

struct Entry<V> {
    field: HttpField<'static>,
    validators: Vec<V>,
}

/// Holds the validators of a route, each under the selector of the field that it inspects.
#[verifier::reject_recursive_types(T)]
pub struct ValidatorMiddleware<T, V> where V: Fn(&str, Option<&str>) -> Result<(), T> {
    entries: Vec<Entry<V>>,
    error: core::marker::PhantomData<T>,
}

spec fn chains_of<V>(entries: Seq<Entry<V>>) -> Seq<Chain<V>> {
    Seq::new(
        entries.len(),
        |i: int| Chain { field: entries[i].field@, validators: entries[i].validators@ },
    )
}

impl<T, V: Fn(&str, Option<&str>) -> Result<(), T>> View for ValidatorMiddleware<T, V> {
    type V = Seq<Chain<V>>;

    closed spec fn view(&self) -> Seq<Chain<V>> {
        chains_of(self.entries@)
    }
}

/// Where a chain of `key` stands at `i` and no selector has two chains, `chain_of` finds `i`.
pub proof fn lemma_chain_of_found<V>(chains: Seq<Chain<V>>, key: FieldKey, i: int)
    requires
        0 <= i < chains.len(),
        chains[i].field == key,
        forall|a: int, b: int| 0 <= a < b < chains.len() ==> chains[a].field != chains[b].field,
    ensures
        chain_of(chains, key) == Some(i),
{
}

impl<T, V: Fn(&str, Option<&str>) -> Result<(), T>> ValidatorMiddleware<T, V> {
    #[verifier::type_invariant]
    pub open spec fn valid(&self) -> bool {
        well_formed::<T, V>(self@)
    }

    /// An empty registry.
    pub fn new() -> (registry: Self)
        ensures
            registry@ == Seq::<Chain<V>>::empty(),
    {
        let registry = ValidatorMiddleware { entries: Vec::new(), error: core::marker::PhantomData };
        assert(registry@ =~= Seq::<Chain<V>>::empty());
        registry
    }

    /// The number of selectors that have validators.
    pub fn len(&self) -> (count: usize)
        ensures
            count == self@.len(),
    {
        self.entries.len()
    }

    /// Whether no validator is registered.
    pub fn is_empty(&self) -> (empty: bool)
        ensures
            empty == (self@.len() == 0),
    {
        self.entries.len() == 0
    }

    /// The selectors that have validators, in the order in which they were first
    /// registered.
    pub fn fields(&self) -> (fields: Vec<HttpField<'static>>)
        ensures
            fields@.len() == self@.len(),
            forall|i: int| 0 <= i < fields@.len() ==> (#[trigger] fields@[i])@ == self@[i].field,
    {
        let mut fields: Vec<HttpField<'static>> = Vec::new();
        let mut i: usize = 0;
        while i < self.entries.len()
            invariant
                i <= self.entries@.len(),
                fields@.len() == i,
                forall|k: int| 0 <= k < i ==> (#[trigger] fields@[k])@ == self@[k].field,
            decreases self.entries@.len() - i,
        {
            fields.push(self.entries[i].field);
            i += 1;
        }
        fields
    }

    /// The validators registered for `field`, in registration order, or `None` where it
    /// has none.
    pub fn validators(&self, field: &HttpField<'_>) -> (found: Option<&Vec<V>>)
        ensures
            match chain_of(self@, field@) {
                Some(i) => found is Some && found->0@ == self@[i].validators,
                None => found is None,
            },
    {
        proof {
            use_type_invariant(self);
        }
        let mut i: usize = 0;
        while i < self.entries.len()
            invariant
                i <= self.entries@.len(),
                well_formed::<T, V>(self@),
                forall|k: int| 0 <= k < i ==> self@[k].field != field@,
            decreases self.entries@.len() - i,
        {
            if self.entries[i].field.same_as(field) {
                proof {
                    lemma_chain_of_found(self@, field@, i as int);
                }
                return Some(&self.entries[i].validators);
            }
            i += 1;
        }
        None
    }

    /// The selector of the chain at position `i`.
    pub(crate) fn field_at(&self, i: usize) -> (field: HttpField<'static>)
        requires
            i < self@.len(),
        ensures
            field@ == self@[i as int].field,
    {
        self.entries[i].field
    }

    /// The validators of the chain at position `i`, in registration order.
    pub(crate) fn validators_at(&self, i: usize) -> (validators: &Vec<V>)
        requires
            i < self@.len(),
        ensures
            validators@ == self@[i as int].validators,
    {
        &self.entries[i].validators
    }

    /// Registers every validator of `validators` for the selector that stands with it, in
    /// the order of the list, and returns the registry, so that calls can be chained.
    pub fn with_validators(self, validators: Vec<(HttpField<'static>, V)>) -> (registry: Self)
        requires
            forall|k: int| 0 <= k < validators@.len() ==> accepts_all::<T, V>(validators@[k].1),
        ensures
            registry@ == registered_all(self@, additions_view(validators@)),
    {
        let mut registry = self;
        let ghost additions = additions_view(validators@);
        for addition in it: validators
            invariant
                additions == additions_view(it.seq()),
                forall|k: int| 0 <= k < it.seq().len() ==> accepts_all::<T, V>(it.seq()[k].1),
                registry@ == registered_all(self@, additions.take(it.index() as int)),
        {
            assert(additions.take(it.index() + 1).drop_last() =~= additions.take(it.index() as int));
            let (field, validator) = addition;
            registry.add_validator(field, validator);
        }
        assert(additions.take(additions.len() as int) =~= additions);
        registry
    }

    /// Registers `validator` for the field `param_name`, behind the validators that the
    /// field already has.
    pub fn add_validator(&mut self, param_name: HttpField<'static>, validator: V)
        requires
            accepts_all::<T, V>(validator),
        ensures
            final(self)@ == registered(old(self)@, param_name@, validator),
    {
        proof {
            use_type_invariant(&*self);
        }
        let mut entries: Vec<Entry<V>> = Vec::new();
        core::mem::swap(&mut self.entries, &mut entries);
        let ghost before = chains_of(entries@);
        let mut i: usize = 0;
        while i < entries.len()
            invariant
                i <= entries.len(),
                chains_of(entries@) == before,
                before == old(self)@,
                well_formed::<T, V>(before),
                accepts_all::<T, V>(validator),
                forall|k: int| 0 <= k < i ==> before[k].field != param_name@,
            decreases entries.len() - i,
        {
            if entries[i].field.same_as(&param_name) {
                proof {
                    lemma_chain_of_found(before, param_name@, i as int);
                }
                entries[i].validators.push(validator);
                assert(chains_of(entries@) =~= registered(before, param_name@, validator));
                core::mem::swap(&mut self.entries, &mut entries);
                return;
            }
            i += 1;
        }
        let mut validators = Vec::new();
        validators.push(validator);
        entries.push(Entry { field: param_name, validators });
        assert(chains_of(entries@) =~= registered(before, param_name@, validator));
        core::mem::swap(&mut self.entries, &mut entries);
    }
}

} // verus!
