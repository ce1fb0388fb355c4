//! Steps, and the registry that finds a step by its name.

use crate::context::{Context, ContextView};
use crate::errors::{StepError, StepErrorView};
use crate::request::{Request, RequestView};
use std::sync::Arc;
use vstd::prelude::*;
use vstd::string::*;

verus! {

/// One action of a workflow: the request it makes, and what it does with the
/// context once the request succeeded, failed or timed out.
///
/// The spec functions say what an implementation promises of its methods. They
/// promise nothing unless an implementation says more, so an implementation
/// may leave them out; a caller that is verified then learns of a method only
/// that it ran.
pub trait Stepable {
    /// Whether `name` is one that this step may give as its own.
    open spec fn names(&self, name: Seq<char>) -> bool {
        true
    }

    /// Whether `request` is a descriptor that this step may produce.
    open spec fn requests(&self, request: RequestView) -> bool {
        true
    }

    /// Whether `after` is a context that the step may leave when it is told of
    /// a success in `before`.
    open spec fn succeeds(&self, before: ContextView, after: ContextView) -> bool {
        true
    }

    /// Whether `after` is a context that the step may leave when it is told of
    /// the failure `error` in `before`.
    open spec fn fails(
        &self,
        before: ContextView,
        error: StepErrorView,
        after: ContextView,
    ) -> bool {
        true
    }

    /// Whether `after` is a context that the step may leave when it is told of
    /// a timeout in `before`.
    open spec fn times_out(&self, before: ContextView, after: ContextView) -> bool {
        true
    }

    /// The name under which the step is registered.
    fn name(&self) -> (name: String)
        ensures
            self.names(name@),
    ;

    /// The request of this step, or the directive to go to another step.
    fn on_request(&self) -> (request: Request)
        ensures
            self.requests(request@),
    ;

    /// Called once the response was accepted and its body stored.
    fn on_success(&self, ctx: &mut Context)
        ensures
            self.succeeds(old(ctx)@, final(ctx)@),
    ;

    /// Called once the attempt failed for another reason than a timeout.
    fn on_error(&self, ctx: &mut Context, err: StepError)
        ensures
            self.fails(old(ctx)@, err@, final(ctx)@),
    ;

    /// Called once the transport gave up waiting.
    fn on_timeout(&self, ctx: &mut Context)
        ensures
            self.times_out(old(ctx)@, final(ctx)@),
    ;
}

/// The registry with `step` under `name`, in place of what was there.
pub open spec fn with_step<S: ?Sized>(
    registry: Map<Seq<char>, Arc<S>>,
    name: Seq<char>,
    step: Arc<S>,
) -> Map<Seq<char>, Arc<S>> {
    registry.insert(name, step)
}

/// The registry with each of `steps` under the name at its place in `names`,
/// one after the other: of two steps under one name the later stays.
pub open spec fn with_steps<S: ?Sized>(
    registry: Map<Seq<char>, Arc<S>>,
    names: Seq<Seq<char>>,
    steps: Seq<Arc<S>>,
) -> Map<Seq<char>, Arc<S>>
    decreases steps.len(),
{
    if steps.len() == 0 || names.len() != steps.len() {
        registry
    } else {
        with_step(
            with_steps(registry, names.drop_last(), steps.drop_last()),
            names.last(),
            steps.last(),
        )
    }
}

/// Whether each of `steps` may give the name at its place in `names`.
pub open spec fn named_by<S: Stepable + ?Sized>(steps: Seq<Arc<S>>, names: Seq<Seq<char>>) -> bool {
    names.len() == steps.len() && forall|i: int|
        0 <= i < steps.len() ==> (#[trigger] steps[i]).names(names[i])
}

/// A step is found under the name it was registered under, and registering it
/// changes what is found under no other name.
pub proof fn law_lookup_registered<S: ?Sized>(
    registry: Map<Seq<char>, Arc<S>>,
    name: Seq<char>,
    step: Arc<S>,
    other: Seq<char>,
)
    ensures
        with_step(registry, name, step).contains_key(name),
        with_step(registry, name, step)[name] == step,
        other != name ==> with_step(registry, name, step).contains_key(other)
            == registry.contains_key(other),
        other != name && registry.contains_key(other) ==> with_step(registry, name, step)[other]
            == registry[other],
{
}

/// Registering a step a second time under its name leaves the registry as the
/// first time left it.
pub proof fn law_register_twice<S: ?Sized>(
    registry: Map<Seq<char>, Arc<S>>,
    name: Seq<char>,
    step: Arc<S>,
)
    ensures
        with_step(with_step(registry, name, step), name, step) == with_step(registry, name, step),
{
    assert(with_step(with_step(registry, name, step), name, step) =~= with_step(
        registry,
        name,
        step,
    ));
}

/// The names by their views.
pub open spec fn name_views(names: Seq<String>) -> Seq<Seq<char>> {
    names.map_values(|n: String| n@)
}

/// Steps by name. A name stands for one step: a step that is registered under
/// a name that is taken replaces the step that was there.
///
/// The registry holds shared steps of the kind `S`. Left unnamed, `S` is any
/// step, and steps of different types stand side by side.
pub struct StepManager<S: Stepable + ?Sized = dyn Stepable> {
    names: Vec<String>,
    steps: Vec<Arc<S>>,
}

impl<S: Stepable + ?Sized> View for StepManager<S> {
    type V = Map<Seq<char>, Arc<S>>;

    closed spec fn view(&self) -> Map<Seq<char>, Arc<S>> {
        Map::new(
            |name: Seq<char>| name_views(self.names@).contains(name),
            |name: Seq<char>| self.steps@[name_views(self.names@).index_of(name)],
        )
    }
}

impl<S: Stepable + ?Sized> StepManager<S> {
    #[verifier::type_invariant]
    spec fn well_formed(&self) -> bool {
        &&& self.names.len() == self.steps.len()
        &&& name_views(self.names@).no_duplicates()
    }

    /// A registry without steps.
    pub fn new() -> (m: Self)
        ensures
            m@ == Map::<Seq<char>, Arc<S>>::empty(),
    {
        let m = StepManager { names: Vec::new(), steps: Vec::new() };
        assert(m@ =~= Map::<Seq<char>, Arc<S>>::empty());
        m
    }

    fn position(&self, name: &String) -> (at: Option<usize>)
        ensures
            match at {
                Some(i) => i < self.names.len() && name_views(self.names@)[i as int] == name@
                    && name_views(self.names@).contains(name@),
                None => !name_views(self.names@).contains(name@),
            },
    {
        let mut i: usize = 0;
        while i < self.names.len()
            invariant
                i <= self.names.len(),
                forall|k: int| 0 <= k < i ==> self.names[k]@ != name@,
            decreases self.names.len() - i,
        {
            if self.names[i] == *name {
                assert(name_views(self.names@)[i as int] == name@);
                return Some(i);
            }
            i = i + 1;
        }
        None
    }

    /// Registers `step` under the name it gives, in place of a step that was
    /// registered under that name.
    pub fn insert(&mut self, step: S) where S: Sized
        ensures
            exists|name: Seq<char>|
                step.names(name) && final(self)@ == with_step(old(self)@, name, Arc::new(step)),
    {
        self.insert_arc(Arc::new(step))
    }

    /// Registers the shared `step` under the name it gives, in place of a step
    /// that was registered under that name.
    pub fn insert_arc(&mut self, step: Arc<S>)
        ensures
            exists|name: Seq<char>|
                step.names(name) && final(self)@ == with_step(old(self)@, name, step),
    {
        proof {
            use_type_invariant(&*self);
        }
        let name = step.name();
        let at = self.position(&name);
        let ghost key = name@;
        let ghost before = *self;
        let mut taken = StepManager::new();
        core::mem::swap(self, &mut taken);
        let StepManager { names, steps } = taken;
        let mut names = names;
        let mut steps = steps;
        match at {
            Some(at) => {
                steps.set(at, step);
            },
            None => {
                names.push(name);
                steps.push(step);
            },
        }
        proof {
            let old_views = name_views(before.names@);
            let views = name_views(names@);
            if at is Some {
                assert(views =~= old_views);
            } else {
                assert(views =~= old_views.push(key));
                assert forall|i: int, j: int|
                    0 <= i < views.len() && 0 <= j < views.len() && i != j implies views[i]
                    != views[j] by {
                    if i < old_views.len() {
                        assert(old_views[i] == views[i]);
                    }
                    if j < old_views.len() {
                        assert(old_views[j] == views[j]);
                    }
                }
            }
        }
        *self = StepManager { names, steps };
        proof {
            let old_views = name_views(before.names@);
            let views = name_views(self.names@);
            match at {
                Some(at) => {
                    assert(views[at as int] == key);
                    assert forall|k: Seq<char>| views.contains(k) implies #[trigger] self@[k]
                        == with_step(before@, key, step)[k] by {
                        let i = views.index_of(k);
                        if k == key {
                            assert(i == at);
                        } else {
                            assert(i != at);
                        }
                    }
                },
                None => {
                    assert forall|k: Seq<char>| views.contains(k) <==> (old_views.contains(k) || k
                        == key) by {
                        if old_views.contains(k) {
                            let i = old_views.index_of(k);
                            assert(views[i] == k);
                        }
                        if k == key {
                            assert(views[views.len() - 1] == k);
                        }
                    }
                    assert forall|k: Seq<char>| views.contains(k) implies #[trigger] self@[k]
                        == with_step(before@, key, step)[k] by {
                        let i = views.index_of(k);
                        if k == key {
                            assert(views[views.len() - 1] == key);
                            assert(i == views.len() - 1);
                        } else {
                            let j = old_views.index_of(k);
                            assert(views[j] == k);
                            assert(i == j);
                        }
                    }
                },
            }
            assert(self@ =~= with_step(before@, key, step));
        }
    }

    /// Registers each of `steps` in turn, as [`StepManager::insert_arc`] does.
    pub fn insert_many(&mut self, steps: Vec<Arc<S>>)
        ensures
            exists|names: Seq<Seq<char>>|
                named_by(steps@, names) && final(self)@ == with_steps(old(self)@, names, steps@),
    {
        let ghost mut names: Seq<Seq<char>> = Seq::empty();
        let mut i: usize = 0;
        while i < steps.len()
            invariant
                i <= steps.len(),
                names.len() == i,
                forall|k: int| 0 <= k < i ==> (#[trigger] steps[k]).names(names[k]),
                self@ == with_steps(old(self)@, names, steps@.take(i as int)),
            decreases steps.len() - i,
        {
            let ghost before = self@;
            let step = steps[i].clone();
            self.insert_arc(step);
            proof {
                let name = choose|name: Seq<char>|
                    step.names(name) && self@ == with_step(before, name, step);
                let longer = names.push(name);
                let taken = steps@.take(i + 1);
                assert(taken.drop_last() =~= steps@.take(i as int));
                assert(longer.drop_last() =~= names);
                assert(taken.last() == step);
                names = longer;
            }
            i = i + 1;
        }
        assert(steps@.take(i as int) =~= steps@);
        assert(named_by(steps@, names));
    }

    /// The step that is registered under `step`, if there is one.
    pub fn get(&self, step: &str) -> (found: Option<&Arc<S>>)
        ensures
            match found {
                Some(s) => self@.contains_key(step@) && *s == self@[step@],
                None => !self@.contains_key(step@),
            },
    {
        proof {
            use_type_invariant(self);
        }
        let name = step.to_owned();
        match self.position(&name) {
            Some(at) => {
                Some(&self.steps[at])
            },
            None => None,
        }
    }

    /// How many steps are registered.
    pub fn len(&mut self) -> (n: usize)
        ensures
            *final(self) == *old(self),
            old(self)@.dom().finite(),
            n == old(self)@.dom().len(),
    {
        proof {
            use_type_invariant(&*self);
            let views = name_views(self.names@);
            views.unique_seq_to_set();
            assert(self@.dom() =~= views.to_set());
        }
        self.names.len()
    }

    /// Whether a step is registered under this name.
    pub fn contains_name(&mut self, step: &String) -> (found: bool)
        ensures
            *final(self) == *old(self),
            found == old(self)@.contains_key(step@),
    {
        self.position(step).is_some()
    }

    /// Whether a step is registered under the name that `step` gives.
    pub fn contains_step<T: Stepable>(&mut self, step: T) -> (found: bool)
        ensures
            *final(self) == *old(self),
            exists|name: Seq<char>| step.names(name) && found == old(self)@.contains_key(name),
    {
        let name = step.name();
        self.position(&name).is_some()
    }
}

impl<S: Stepable + ?Sized> Default for StepManager<S> {
    fn default() -> (m: Self)
        ensures
            m@ == Map::<Seq<char>, Arc<S>>::empty(),
    {
        StepManager::new()
    }
}

impl<S: Stepable + ?Sized> Clone for StepManager<S> {
    fn clone(&self) -> (copy: Self)
        ensures
            copy@ == self@,
    {
        proof {
            use_type_invariant(self);
        }
        let mut names: Vec<String> = Vec::new();
        let mut steps: Vec<Arc<S>> = Vec::new();
        let mut i: usize = 0;
        while i < self.names.len()
            invariant
                i <= self.names.len(),
                self.names.len() == self.steps.len(),
                names.len() == i,
                steps.len() == i,
                forall|k: int| 0 <= k < i ==> names[k]@ == self.names[k]@,
                forall|k: int| 0 <= k < i ==> steps[k] == self.steps[k],
            decreases self.names.len() - i,
        {
            names.push(self.names[i].clone());
            steps.push(self.steps[i].clone());
            i = i + 1;
        }
        assert(name_views(names@) =~= name_views(self.names@));
        assert(steps@ =~= self.steps@);
        let copy = StepManager { names, steps };
        assert(copy@ =~= self@);
        copy
    }
}

} // verus!
