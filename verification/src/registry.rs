//! The registry of task handlers: which handler answers to which activity.
//!
//! Handlers are registered one after the other before the worker starts. A
//! name may be registered more than once; the handler that came first
//! answers.

use vstd::prelude::*;

verus! {

/// A handler under the name of the activity that it answers to.
pub struct Handler<F> {
    pub name: String,
    pub func: F,
}

/// The handlers in the order in which they were registered.
pub struct Registry<F> {
    handlers: Vec<Handler<F>>,
}

/// The first place from `from` on at which a handler has the given name.
pub open spec fn first_named<F>(handlers: Seq<Handler<F>>, name: Seq<char>, from: int) -> Option<
    int,
>
    decreases handlers.len() - from,
{
    if from < 0 || from >= handlers.len() {
        None
    } else if handlers[from].name@ == name {
        Some(from)
    } else {
        first_named(handlers, name, from + 1)
    }
}

/// The place of the handler that answers to a name: the first one that was
/// registered under it.
pub open spec fn answering<F>(handlers: Seq<Handler<F>>, name: Seq<char>) -> Option<int> {
    first_named(handlers, name, 0)
}

/// The names of the handlers, in their order.
pub open spec fn handler_names<F>(handlers: Seq<Handler<F>>) -> Seq<Seq<char>> {
    Seq::new(handlers.len(), |i: int| handlers[i].name@)
}

/// The place that answers to a name is in the registry, has that name, and
/// no place before it has it. Where no place answers, no handler has the
/// name.
pub proof fn law_first_match<F>(handlers: Seq<Handler<F>>, name: Seq<char>, from: int)
    requires
        0 <= from <= handlers.len(),
    ensures
        match first_named(handlers, name, from) {
            Some(i) => from <= i < handlers.len() && handlers[i].name@ == name && forall|k: int|
                from <= k < i ==> (#[trigger] handlers[k]).name@ != name,
            None => forall|k: int|
                from <= k < handlers.len() ==> (#[trigger] handlers[k]).name@ != name,
        },
    decreases handlers.len() - from,
{
    if from < handlers.len() && handlers[from].name@ != name {
        law_first_match(handlers, name, from + 1);
    }
}

/// Registering never changes who answers to a name that had a handler, and
/// gives a name that had none the new handler, if the handler is registered
/// under it.
pub proof fn law_first_registration_answers<F>(
    handlers: Seq<Handler<F>>,
    added: Handler<F>,
    name: Seq<char>,
)
    ensures
        answering(handlers.push(added), name) == (match answering(handlers, name) {
            Some(i) => Some(i),
            None => if added.name@ == name {
                Some(handlers.len() as int)
            } else {
                None
            },
        }),
{
    lemma_push_first_named(handlers, added, name, 0);
}

proof fn lemma_push_first_named<F>(
    handlers: Seq<Handler<F>>,
    added: Handler<F>,
    name: Seq<char>,
    from: int,
)
    requires
        0 <= from <= handlers.len(),
    ensures
        first_named(handlers.push(added), name, from) == (match first_named(handlers, name, from) {
            Some(i) => Some(i),
            None => if added.name@ == name {
                Some(handlers.len() as int)
            } else {
                None
            },
        }),
    decreases handlers.len() - from,
{
    let all = handlers.push(added);
    if from < handlers.len() {
        assert(all[from] == handlers[from]);
        if handlers[from].name@ != name {
            lemma_push_first_named(handlers, added, name, from + 1);
        }
    } else {
        assert(all[from] == added);
        assert(first_named(all, name, from + 1).is_none());
    }
}

impl<F> Registry<F> {
    /// The handlers in the order in which they were registered.
    pub closed spec fn handlers(&self) -> Seq<Handler<F>> {
        self.handlers@
    }

    /// A registry without handlers.
    pub fn new() -> (registry: Self)
        ensures
            registry.handlers() == Seq::<Handler<F>>::empty(),
    {
        Registry { handlers: Vec::new() }
    }

    /// The number of registrations.
    pub fn len(&self) -> (count: usize)
        ensures
            count == self.handlers().len(),
    {
        self.handlers.len()
    }

    /// Registers a handler under a name, after those that are there. Says
    /// whether the name is new: under a name that was there, the handler is
    /// kept but never answers.
    pub fn register(&mut self, name: String, func: F) -> (fresh: bool)
        ensures
            final(self).handlers() == old(self).handlers().push(Handler { name, func }),
            fresh == answering(old(self).handlers(), name@).is_none(),
    {
        let fresh = self.position(name.as_str()).is_none();
        self.handlers.push(Handler { name, func });
        fresh
    }

    /// The place of the handler that answers to a name.
    pub fn position(&self, name: &str) -> (place: Option<usize>)
        ensures
            match place {
                Some(i) => answering(self.handlers(), name@) == Some(i as int),
                None => answering(self.handlers(), name@).is_none(),
            },
            place matches Some(i) ==> i < self.handlers().len(),
    {
        let wanted = name.to_owned();
        let mut i: usize = 0;
        while i < self.handlers.len()
            invariant
                i <= self.handlers@.len(),
                wanted@ == name@,
                first_named(self.handlers@, name@, 0) == first_named(self.handlers@, name@, i as int),
            decreases self.handlers@.len() - i,
        {
            if self.handlers[i].name == wanted {
                return Some(i);
            }
            i = i + 1;
        }
        None
    }

    /// The handler at a place, if the registry has as many.
    pub fn handler_at(&self, index: usize) -> (handler: Option<&Handler<F>>)
        ensures
            match handler {
                Some(h) => index < self.handlers().len() && *h == self.handlers()[index as int],
                None => index >= self.handlers().len(),
            },
    {
        if index < self.handlers.len() {
            Some(&self.handlers[index])
        } else {
            None
        }
    }
}

/// The handler that answers to a name: the first that was registered under
/// exactly this name.
pub fn find<'a, F>(registry: &'a Registry<F>, name: &str) -> (found: Option<&'a F>)
    ensures
        match answering(registry.handlers(), name@) {
            Some(i) => found == Some(&registry.handlers()[i].func),
            None => found.is_none(),
        },
{
    match registry.position(name) {
        Some(i) => match registry.handler_at(i) {
            Some(handler) => Some(&handler.func),
            None => None,
        },
        None => None,
    }
}

/// The names of all registrations, in their order.
pub fn all_names<F>(registry: &Registry<F>) -> (names: Vec<String>)
    ensures
        names@.len() == registry.handlers().len(),
        forall|i: int|
            0 <= i < names@.len() ==> (#[trigger] names@[i])@ == registry.handlers()[i].name@,
{
    let mut names: Vec<String> = Vec::new();
    let count = registry.len();
    let mut i: usize = 0;
    while i < count
        invariant
            i <= count,
            count == registry.handlers().len(),
            names@.len() == i,
            forall|k: int| 0 <= k < i ==> (#[trigger] names@[k])@ == registry.handlers()[k].name@,
        decreases count - i,
    {
        match registry.handler_at(i) {
            Some(handler) => {
                names.push(handler.name.clone());
            },
            None => {},
        }
        i = i + 1;
    }
    names
}

} // verus!
