use vstd::prelude::*;

verus! {

/// A behavior: a user-defined object with a start hook and an update hook.
///
/// The two relations say what the hooks may do to the behavior. A type that
/// states nothing keeps the defaults, under which a hook may leave the
/// behavior in any state; a type that is verified states its own and proves
/// its hooks against them.
///
/// A hook that panics is not caught: the panic leaves the registry's call,
/// and the behaviors that come later in that pass are not reached.
pub trait ScriptBehaviorCore: Sized {
    /// Whether `on_start` may turn `before` into `after`.
    open spec fn started(before: Self, after: Self) -> bool {
        true
    }

    /// Whether `on_update` may turn `before` into `after`.
    open spec fn updated(before: Self, after: Self) -> bool {
        true
    }

    /// Runs once, when the behavior is registered.
    fn on_start(&mut self)
        ensures
            Self::started(*old(self), *final(self)),
    ;

    /// Runs once in every update pass.
    fn on_update(&mut self)
        ensures
            Self::updated(*old(self), *final(self)),
    ;
}

/// One call of a hook, in the registry's history: which hook, and on the
/// behavior at which position.
pub enum Dispatch {
    Start(int),
    Update(int),
}

impl Dispatch {
    /// The position of the behavior that was called.
    pub open spec fn index(self) -> int {
        match self {
            Dispatch::Start(index) => index,
            Dispatch::Update(index) => index,
        }
    }
}

/// The calls of one update pass over `count` behaviors: one update for each,
/// in the order of registration.
pub open spec fn update_pass(count: nat) -> Seq<Dispatch> {
    Seq::new(count, |index: int| Dispatch::Update(index))
}

/// The calls of `turns` update passes over `count` behaviors, one pass after
/// the other.
pub open spec fn update_passes(count: nat, turns: nat) -> Seq<Dispatch>
    decreases turns,
{
    if turns == 0 {
        Seq::<Dispatch>::empty()
    } else {
        update_passes(count, (turns - 1) as nat) + update_pass(count)
    }
}

/// Whether the call at place `at` of `history` started the behavior at
/// `index`.
pub open spec fn starts(history: Seq<Dispatch>, index: int, at: int) -> bool {
    0 <= at < history.len() && history[at] == Dispatch::Start(index)
}

/// Whether the call at place `at` of `history` updated the behavior at
/// `index`.
pub open spec fn updates(history: Seq<Dispatch>, index: int, at: int) -> bool {
    0 <= at < history.len() && history[at] == Dispatch::Update(index)
}

/// Whether some call of `history` started the behavior at `index`.
pub open spec fn started(history: Seq<Dispatch>, index: int) -> bool {
    exists|at: int| #[trigger] starts(history, index, at)
}

/// Whether `history` can be the calls that a registry of `count` behaviors
/// has made: it has called registered behaviors only, it has started each of
/// them exactly once, and it has updated none before its start.
pub open spec fn valid_history(history: Seq<Dispatch>, count: nat) -> bool {
    &&& forall|at: int| 0 <= at < history.len() ==> 0 <= (#[trigger] history[at]).index() < count
    &&& forall|index: int| 0 <= index < count ==> #[trigger] started(history, index)
    &&& forall|index: int, at: int, other: int| #[trigger]
        starts(history, index, at) && #[trigger] starts(history, index, other) ==> at == other
    &&& forall|index: int, at: int, later: int| #[trigger]
        starts(history, index, at) && #[trigger] updates(history, index, later) ==> at < later
}

/// Whether one update pass may turn the behaviors `before` into `after`:
/// none is added or removed, and each is updated once.
pub open spec fn pass<B: ScriptBehaviorCore>(before: Seq<B>, after: Seq<B>) -> bool {
    &&& after.len() == before.len()
    &&& forall|index: int|
        0 <= index < before.len() ==> B::updated(before[index], #[trigger] after[index])
}

/// Whether `count` update passes, one after the other, may turn the behaviors
/// `before` into `after`.
pub open spec fn passes<B: ScriptBehaviorCore>(before: Seq<B>, after: Seq<B>, count: nat) -> bool
    decreases count,
{
    if count == 0 {
        after == before
    } else {
        exists|middle: Seq<B>|
            passes(before, middle, (count - 1) as nat) && #[trigger] pass(middle, after)
    }
}

/// A history stays valid when a registered behavior is updated.
proof fn lemma_history_update(history: Seq<Dispatch>, count: nat, index: int)
    requires
        valid_history(history, count),
        0 <= index < count,
    ensures
        valid_history(history.push(Dispatch::Update(index)), count),
{
    let next = history.push(Dispatch::Update(index));
    assert forall|behavior: int| 0 <= behavior < count implies #[trigger] started(
        next,
        behavior,
    ) by {
        assert(started(history, behavior));
        let at = choose|at: int| #[trigger] starts(history, behavior, at);
        assert(starts(next, behavior, at));
    }
    assert forall|behavior: int, at: int, other: int| #[trigger]
        starts(next, behavior, at) && #[trigger] starts(next, behavior, other) implies at
        == other by {
        assert(starts(history, behavior, at));
        assert(starts(history, behavior, other));
    }
    assert forall|behavior: int, at: int, later: int| #[trigger]
        starts(next, behavior, at) && #[trigger] updates(next, behavior, later) implies at
        < later by {
        assert(starts(history, behavior, at));
        if later < history.len() {
            assert(updates(history, behavior, later));
        }
    }
}

/// A history stays valid when one more behavior is started and takes the
/// next position.
proof fn lemma_history_start(history: Seq<Dispatch>, count: nat)
    requires
        valid_history(history, count),
    ensures
        valid_history(history.push(Dispatch::Start(count as int)), count + 1),
{
    let next = history.push(Dispatch::Start(count as int));
    assert forall|behavior: int| 0 <= behavior < count + 1 implies #[trigger] started(
        next,
        behavior,
    ) by {
        if behavior < count {
            assert(started(history, behavior));
            let at = choose|at: int| #[trigger] starts(history, behavior, at);
            assert(starts(next, behavior, at));
        } else {
            assert(starts(next, behavior, history.len() as int));
        }
    }
    assert forall|behavior: int, at: int, other: int| #[trigger]
        starts(next, behavior, at) && #[trigger] starts(next, behavior, other) implies at
        == other by {
        if at < history.len() {
            assert(starts(history, behavior, at));
        }
        if other < history.len() {
            assert(starts(history, behavior, other));
        }
    }
    assert forall|behavior: int, at: int, later: int| #[trigger]
        starts(next, behavior, at) && #[trigger] updates(next, behavior, later) implies at
        < later by {
        assert(updates(history, behavior, later));
        if at < history.len() {
            assert(starts(history, behavior, at));
        }
    }
}

/// The behaviors of the process, in the order in which they were registered.
///
/// The registry owns its behaviors for as long as it lives; none is ever
/// removed. Its view is the sequence of the behaviors. Beside them it keeps,
/// for proofs only, the history of the hooks that it has called.
pub struct BehaviorRegistry<B: ScriptBehaviorCore> {
    scripts: Vec<B>,
    calls: Ghost<Seq<Dispatch>>,
}

impl<B: ScriptBehaviorCore> BehaviorRegistry<B> {
    pub closed spec fn view(&self) -> Seq<B> {
        self.scripts@
    }

    /// The hooks that the registry has called, oldest first.
    pub closed spec fn history(&self) -> Seq<Dispatch> {
        self.calls@
    }

    /// The invariant of the type: see [`valid_history`].
    pub open spec fn wf(&self) -> bool {
        valid_history(self.history(), self@.len())
    }

    /// A registry without behaviors.
    pub fn new() -> (registry: Self)
        ensures
            registry.wf(),
            registry@ == Seq::<B>::empty(),
            registry.history() == Seq::<Dispatch>::empty(),
    {
        BehaviorRegistry { scripts: Vec::new(), calls: Ghost(Seq::empty()) }
    }

    /// The number of registered behaviors.
    pub fn len(&self) -> (count: usize)
        ensures
            count == self@.len(),
    {
        self.scripts.len()
    }

    /// Whether no behavior is registered.
    pub fn is_empty(&self) -> (empty: bool)
        ensures
            empty == (self@.len() == 0),
    {
        self.scripts.len() == 0
    }

    /// The behavior at `index`, counted in the order of registration.
    pub fn get(&self, index: usize) -> (found: Option<&B>)
        ensures
            match found {
                Some(behavior) => index < self@.len() && *behavior == self@[index as int],
                None => index >= self@.len(),
            },
    {
        if index < self.scripts.len() {
            Some(&self.scripts[index])
        } else {
            None
        }
    }

    /// The behavior that was registered last.
    pub fn last(&self) -> (found: Option<&B>)
        ensures
            match found {
                Some(behavior) => self@.len() > 0 && *behavior == self@.last(),
                None => self@.len() == 0,
            },
    {
        let count: usize = self.scripts.len();
        if count > 0 {
            Some(&self.scripts[count - 1])
        } else {
            None
        }
    }

    /// Starts `instance` and takes it into the registry, behind the behaviors
    /// that are there; hands back a read-only reference to it.
    ///
    /// `on_start` runs once, before the behavior can be seen in the registry.
    pub fn register(&mut self, instance: B) -> (handle: &B)
        requires
            old(self).wf(),
        ensures
            final(self).wf(),
            final(self)@.len() == old(self)@.len() + 1,
            final(self)@.drop_last() == old(self)@,
            B::started(instance, final(self)@.last()),
            *handle == final(self)@.last(),
            final(self).history() == old(self).history().push(
                Dispatch::Start(old(self)@.len() as int),
            ),
    {
        let mut instance = instance;
        instance.on_start();
        proof {
            lemma_history_start(self.calls@, self.scripts@.len());
            self.calls@ = self.calls@.push(Dispatch::Start(self.scripts@.len() as int));
        }
        self.scripts.push(instance);
        let count: usize = self.scripts.len();
        &self.scripts[count - 1]
    }

    /// Runs one update pass: `on_update` is called on every behavior, once,
    /// in the order of registration.
    pub fn update_all(&mut self)
        requires
            old(self).wf(),
        ensures
            final(self).wf(),
            pass(old(self)@, final(self)@),
            final(self).history() == old(self).history() + update_pass(old(self)@.len()),
    {
        let count: usize = self.scripts.len();
        let mut index: usize = 0;
        while index < count
            invariant
                index <= count,
                count == self.scripts@.len(),
                count == old(self).scripts@.len(),
                valid_history(self.calls@, count as nat),
                self.calls@ == old(self).calls@ + update_pass(index as nat),
                forall|done: int|
                    0 <= done < index ==> B::updated(
                        old(self).scripts@[done],
                        #[trigger] self.scripts@[done],
                    ),
                forall|ahead: int|
                    index <= ahead < count ==> old(self).scripts@[ahead]
                        == #[trigger] self.scripts@[ahead],
            decreases count - index,
        {
            self.scripts[index].on_update();
            proof {
                lemma_history_update(self.calls@, count as nat, index as int);
                assert(update_pass(index as nat).push(Dispatch::Update(index as int))
                    == update_pass((index + 1) as nat));
                self.calls@ = self.calls@.push(Dispatch::Update(index as int));
            }
            index = index + 1;
        }
    }
}

/// Runs one update pass over `registry`: every behavior is updated once, in
/// the order of registration.
pub fn update_scripts<B: ScriptBehaviorCore>(registry: &mut BehaviorRegistry<B>)
    requires
        old(registry).wf(),
    ensures
        final(registry).wf(),
        pass(old(registry)@, final(registry)@),
        final(registry).history() == old(registry).history() + update_pass(
            old(registry)@.len(),
        ),
{
    registry.update_all();
}

/// Every registered behavior was started exactly once, and before any of its
/// updates: in the history of a valid registry there is one place where the
/// behavior at `index` was started, nowhere else was it started again, and
/// each of its updates comes after that place.
pub proof fn lemma_started_once_before_updates<B: ScriptBehaviorCore>(
    registry: BehaviorRegistry<B>,
    index: int,
)
    requires
        registry.wf(),
        0 <= index < registry@.len(),
    ensures
        exists|start: int|
            {
                &&& #[trigger] starts(registry.history(), index, start)
                &&& forall|at: int|
                    at != start ==> !#[trigger] starts(registry.history(), index, at)
                &&& forall|at: int| #[trigger] updates(registry.history(), index, at) ==> start < at
            },
{
    let history = registry.history();
    assert(started(history, index));
    let start = choose|at: int| #[trigger] starts(history, index, at);
    assert(starts(history, index, start));
}

/// An update pass reaches the behaviors in the order of registration: of two
/// behaviors, the one that was registered first is updated first, and each
/// is updated in one place of the pass only. `before` is the history as it
/// was when the pass began.
pub proof fn lemma_pass_keeps_order(before: Seq<Dispatch>, count: nat, first: int, second: int)
    requires
        0 <= first < second < count,
    ensures
        updates(before + update_pass(count), first, before.len() + first),
        updates(before + update_pass(count), second, before.len() + second),
        forall|at: int, later: int|
            before.len() <= at && before.len() <= later && #[trigger] updates(
                before + update_pass(count),
                first,
                at,
            ) && #[trigger] updates(before + update_pass(count), second, later) ==> at < later,
{
}

/// Update passes add up. Where every update raises a measure of the behavior
/// by one for as long as the measure is below `bound`, `count` passes raise
/// the measure of each behavior by `count` if that does not lead beyond
/// `bound`: no update is skipped, and none is made twice.
pub proof fn lemma_passes_count<B: ScriptBehaviorCore>(
    before: Seq<B>,
    after: Seq<B>,
    count: nat,
    measure: spec_fn(B) -> int,
    bound: int,
)
    requires
        passes(before, after, count),
        forall|from: B, to: B| #[trigger]
            B::updated(from, to) && measure(from) < bound ==> measure(to) == measure(from) + 1,
    ensures
        after.len() == before.len(),
        forall|index: int|
            0 <= index < before.len() && measure(before[index]) + count <= bound ==> measure(
                #[trigger] after[index],
            ) == measure(before[index]) + count,
    decreases count,
{
    if count > 0 {
        let middle = choose|middle: Seq<B>|
            passes(before, middle, (count - 1) as nat) && #[trigger] pass(middle, after);
        lemma_passes_count(before, middle, (count - 1) as nat, measure, bound);
        assert forall|index: int|
            0 <= index < before.len() && measure(before[index]) + count <= bound implies measure(
            #[trigger] after[index],
        ) == measure(before[index]) + count by {
        }
    }
}

/// A behavior that counts the update passes it has seen. The count stops at
/// the largest value that it can hold.
#[derive(Debug)]
pub struct Counter {
    pub counter: u64,
}

impl Counter {
    /// A counter that stands at `counter`.
    pub fn new(counter: u64) -> (made: Self)
        ensures
            made.counter == counter,
    {
        Counter { counter }
    }
}

impl ScriptBehaviorCore for Counter {
    /// The start leaves the count as it is.
    open spec fn started(before: Self, after: Self) -> bool {
        after.counter == before.counter
    }

    /// An update raises the count by one, up to the largest value.
    open spec fn updated(before: Self, after: Self) -> bool {
        after.counter == if before.counter < u64::MAX {
            before.counter + 1
        } else {
            u64::MAX as int
        }
    }

    fn on_start(&mut self) {
    }

    fn on_update(&mut self) {
        if self.counter < u64::MAX {
            self.counter = self.counter + 1;
        }
    }
}

/// After `count` update passes a counter has counted `count` updates: each
/// counter of the registry stands `count` above where it stood, as long as
/// that can be held. A single counter that starts at zero stands at `count`.
pub proof fn lemma_counter_counts(before: Seq<Counter>, after: Seq<Counter>, count: nat)
    requires
        passes(before, after, count),
    ensures
        after.len() == before.len(),
        forall|index: int|
            0 <= index < before.len() && before[index].counter + count <= u64::MAX
                ==> (#[trigger] after[index]).counter == before[index].counter + count,
{
    lemma_passes_count(
        before,
        after,
        count,
        |counter: Counter| counter.counter as int,
        u64::MAX as int,
    );
}

} // verus!
