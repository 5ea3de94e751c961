//! Task-local storage: typed per-task variables multiplexed onto the
//! kernel's small fixed array of per-task storage slots.
//!
//! A [`LocalKey`] stands for one per-task variable. The key keeps a map
//! from task identity to the storage slot the task's value lives in; the
//! kernel keeps the values themselves. The first time a task touches a
//! key, the key claims the task's next free slot, fills it from the key's
//! initializer, and records the binding; every later touch by that task
//! resolves through the recorded binding. A binding, once made, is never
//! reassigned, and one task's slots are invisible to every other task.

use vstd::prelude::*;

verus! {

use core::marker::PhantomData;
use crate::task::{Kernel, KernelModel, TaskModel, TLS_SLOT_COUNT};

/// The task-to-slot binding map of one storage key, kept in a hash map.
#[verifier::external_body]
pub struct BindingMap {
    map: hashbrown::HashMap<usize, usize>,
}

/// What a binding map holds: the storage slot bound to each task that has
/// touched the key.
pub uninterp spec fn bindings_of(m: BindingMap) -> Map<usize, usize>;

/// The binding map of a key no task has touched.
pub open spec fn no_tasks_bound() -> Map<usize, usize> {
    Map::empty()
}

/// Relies on hashbrown::HashMap::new: the fresh map is empty.
#[verifier::external_body]
fn binding_map_new() -> (r: BindingMap)
    ensures
        bindings_of(r) == no_tasks_bound(),
{
    BindingMap { map: hashbrown::HashMap::new() }
}

/// Relies on hashbrown::HashMap::get: the value the key maps to, if any.
#[verifier::external_body]
fn binding_map_get(m: &BindingMap, task: usize) -> (r: Option<usize>)
    ensures
        bindings_of(*m).contains_key(task) ==> r == Some(bindings_of(*m)[task]),
        !bindings_of(*m).contains_key(task) ==> r is None,
{
    m.map.get(&task).copied()
}

/// Relies on hashbrown::HashMap::insert: the map afterwards maps the key
/// to the new value and is otherwise unchanged.
#[verifier::external_body]
fn binding_map_insert(m: &mut BindingMap, task: usize, slot: usize)
    ensures
        bindings_of(*final(m)) == bindings_of(*old(m)).insert(task, slot),
{
    m.map.insert(task, slot);
}

/// One statically-declared per-task variable of type `V`, initialized per
/// task by an initializer of type `F`.
pub struct LocalKey<V, F> {
    bindings: BindingMap,
    init: F,
    _value: PhantomData<V>,
}

impl<V, F: Fn() -> V + Copy> LocalKey<V, F> {
    /// The slot bound to each task that has touched this key.
    pub closed spec fn bindings(self) -> Map<usize, usize> {
        bindings_of(self.bindings)
    }

    /// The per-task initializer this key was declared with.
    pub closed spec fn initializer(self) -> F {
        self.init
    }

    /// Every binding of this key points at an occupied slot of a task of
    /// `k`, strictly between the reserved slot and the task's next free
    /// slot. Touches of any key only ever grow `next_free`, so a key stays
    /// valid for the kernel however many keys are in use.
    pub open spec fn valid_for(self, k: KernelModel<V>) -> bool {
        forall|t: usize|
            #[trigger] self.bindings().contains_key(t) ==> {
                &&& k.valid_task(t as int)
                &&& 1 <= self.bindings()[t] < k.tasks[t as int].next_free
            }
    }

    /// Declare a per-task variable. No task holds a value for it yet; each
    /// task's value is made by `init` when that task first touches the key.
    pub fn new(init: F) -> (r: Self)
        ensures
            r.bindings() == Map::<usize, usize>::empty(),
            r.initializer() == init,
    {
        LocalKey { bindings: binding_map_new(), init, _value: PhantomData }
    }

    /// The storage slot this key is bound to for `handle`'s task, if that
    /// task has touched the key.
    pub fn binding(&self, handle: &crate::task::TaskHandle) -> (r: Option<usize>)
        ensures
            self.bindings().contains_key(handle.task) ==> r == Some(self.bindings()[handle.task]),
            !self.bindings().contains_key(handle.task) ==> r is None,
    {
        binding_map_get(&self.bindings, handle.task)
    }

    /// Run `f` over the current task's value for this key, creating the
    /// value from the initializer if this is the task's first touch.
    ///
    /// A first touch claims the task's next free storage slot; the caller
    /// keeps slot exhaustion away (more distinct keys touched by one task
    /// than the kernel has slots is an unrecoverable programming fault).
    pub fn with<R, G: FnOnce(&V) -> R>(&mut self, kernel: &mut Kernel<V>, f: G) -> (r: R)
        requires
            old(kernel)@.wf(),
            old(self).valid_for(old(kernel)@),
            !old(self).bindings().contains_key(old(kernel).running) ==> {
                &&& old(kernel)@.running_task().next_free < TLS_SLOT_COUNT
                &&& call_requires(old(self).initializer(), ())
                &&& forall|v: V|
                    call_ensures(old(self).initializer(), (), v) ==> call_requires(f, (&v,))
            },
            old(self).bindings().contains_key(old(kernel).running) ==> call_requires(
                f,
                (
                    &old(kernel)@.stored(
                        old(kernel)@.running,
                        old(self).bindings()[old(kernel).running] as int,
                    ),
                ),
            ),
        ensures
            final(kernel)@.wf(),
            final(self).valid_for(final(kernel)@),
            final(self).initializer() == old(self).initializer(),
            final(self).bindings() == bound_step(
                old(self).bindings(),
                old(kernel).running,
                old(kernel)@.running_task().next_free as usize,
            ),
            old(self).bindings().contains_key(old(kernel).running) ==> {
                &&& final(kernel)@ == old(kernel)@
                &&& call_ensures(
                    f,
                    (
                        &old(kernel)@.stored(
                            old(kernel)@.running,
                            old(self).bindings()[old(kernel).running] as int,
                        ),
                    ),
                    r,
                )
            },
            !old(self).bindings().contains_key(old(kernel).running) ==> {
                let t = old(kernel)@.running;
                let s = old(kernel)@.running_task().next_free;
                let v = final(kernel)@.stored(t, s);
                &&& call_ensures(old(self).initializer(), (), v)
                &&& final(kernel)@ == old(kernel)@.first_touched(t, v)
                &&& call_ensures(f, (&v,), r)
            },
    {
        let t = kernel.running;
        match binding_map_get(&self.bindings, t) {
            Some(slot) => {
                match &kernel.tasks[t].slots[slot] {
                    Some(value) => f(value),
                    None => vstd::pervasive::unreached(),
                }
            },
            None => {
                let slot = kernel.tasks[t].next_free;
                let init = self.init;
                let value = init();
                kernel.tasks[t].slots[slot] = Some(value);
                kernel.tasks[t].next_free = slot + 1;
                binding_map_insert(&mut self.bindings, t, slot);
                proof {
                    assert(final(kernel)@.tasks =~= old(kernel)@.first_touched(
                        t as int,
                        final(kernel)@.stored(t as int, slot as int),
                    ).tasks);
                    assert(final(kernel)@ =~= old(kernel)@.first_touched(
                        t as int,
                        final(kernel)@.stored(t as int, slot as int),
                    ));
                }
                match &kernel.tasks[t].slots[slot] {
                    Some(value) => f(value),
                    None => vstd::pervasive::unreached(),
                }
            },
        }
    }

    /// Run `g` over the current task's value and replace the value with
    /// what `g` returns, creating the value from the initializer first if
    /// this is the task's first touch.
    ///
    /// This is how a task mutates its value; the slot bookkeeping is the
    /// same as [`LocalKey::with`]'s.
    pub fn with_mut<G: FnOnce(&V) -> V>(&mut self, kernel: &mut Kernel<V>, g: G)
        requires
            old(kernel)@.wf(),
            old(self).valid_for(old(kernel)@),
            !old(self).bindings().contains_key(old(kernel).running) ==> {
                &&& old(kernel)@.running_task().next_free < TLS_SLOT_COUNT
                &&& call_requires(old(self).initializer(), ())
                &&& forall|v: V|
                    call_ensures(old(self).initializer(), (), v) ==> call_requires(g, (&v,))
            },
            old(self).bindings().contains_key(old(kernel).running) ==> call_requires(
                g,
                (
                    &old(kernel)@.stored(
                        old(kernel)@.running,
                        old(self).bindings()[old(kernel).running] as int,
                    ),
                ),
            ),
        ensures
            final(kernel)@.wf(),
            final(self).valid_for(final(kernel)@),
            final(self).initializer() == old(self).initializer(),
            final(self).bindings() == bound_step(
                old(self).bindings(),
                old(kernel).running,
                old(kernel)@.running_task().next_free as usize,
            ),
            old(self).bindings().contains_key(old(kernel).running) ==> {
                let t = old(kernel)@.running;
                let s = old(self).bindings()[old(kernel).running] as int;
                let w = final(kernel)@.stored(t, s);
                &&& call_ensures(g, (&old(kernel)@.stored(t, s),), w)
                &&& final(kernel)@ == old(kernel)@.with_stored(t, s, w)
            },
            !old(self).bindings().contains_key(old(kernel).running) ==> {
                let t = old(kernel)@.running;
                let s = old(kernel)@.running_task().next_free;
                let w = final(kernel)@.stored(t, s);
                &&& exists|v0: V|
                    #[trigger] call_ensures(old(self).initializer(), (), v0) && call_ensures(
                        g,
                        (&v0,),
                        w,
                    )
                &&& final(kernel)@ == old(kernel)@.first_touched(t, w)
            },
    {
        let t = kernel.running;
        match binding_map_get(&self.bindings, t) {
            Some(slot) => {
                let w = match &kernel.tasks[t].slots[slot] {
                    Some(value) => g(value),
                    None => vstd::pervasive::unreached(),
                };
                kernel.tasks[t].slots[slot] = Some(w);
                proof {
                    let post = old(kernel)@.with_stored(
                        t as int,
                        old(self).bindings()[t] as int,
                        final(kernel)@.stored(t as int, old(self).bindings()[t] as int),
                    );
                    assert(final(kernel)@.tasks =~= post.tasks);
                    assert(final(kernel)@ =~= post);
                }
            },
            None => {
                let slot = kernel.tasks[t].next_free;
                let init = self.init;
                let v0 = init();
                let ghost gv0 = v0;
                let w = g(&v0);
                kernel.tasks[t].slots[slot] = Some(w);
                kernel.tasks[t].next_free = slot + 1;
                binding_map_insert(&mut self.bindings, t, slot);
                proof {
                    let stored = final(kernel)@.stored(t as int, slot as int);
                    let post = old(kernel)@.first_touched(t as int, stored);
                    assert(final(kernel)@.tasks =~= post.tasks);
                    assert(final(kernel)@ =~= post);
                    assert(call_ensures(old(self).initializer(), (), gv0) && call_ensures(
                        g,
                        (&gv0,),
                        stored,
                    ));
                }
            },
        }
    }
}

/// How one resolution step leaves a key's binding map: a task already
/// bound keeps its binding untouched; an unbound task is bound to the
/// slot it was given.
pub open spec fn bound_step(m: Map<usize, usize>, t: usize, s: usize) -> Map<usize, usize> {
    if m.contains_key(t) {
        m
    } else {
        m.insert(t, s)
    }
}

/// The kernel after `vs.len()` successive first touches by task `t`, the
/// i-th storing `vs[i]`.
pub open spec fn touched_n<V>(k: KernelModel<V>, t: int, vs: Seq<V>) -> KernelModel<V>
    decreases vs.len(),
{
    if vs.len() == 0 {
        k
    } else {
        touched_n(k, t, vs.drop_last()).first_touched(t, vs.last())
    }
}

/// The slot bound by the i-th of a run of first touches by task `t`.
pub open spec fn touch_slot<V>(k: KernelModel<V>, t: int, vs: Seq<V>, i: int) -> int {
    touched_n(k, t, vs.take(i)).tasks[t].next_free
}

/// What one first touch does to the kernel: the touched task's record
/// gains the value in its next free slot and its counter moves up by one;
/// nothing else moves.
pub proof fn lemma_first_touched_shape<V>(k: KernelModel<V>, t: int, v: V)
    requires
        k.wf(),
        k.valid_task(t),
        k.tasks[t].next_free < TLS_SLOT_COUNT,
    ensures
        k.first_touched(t, v).wf(),
        k.first_touched(t, v).tasks.len() == k.tasks.len(),
        k.first_touched(t, v).running == k.running,
        k.first_touched(t, v).capacity == k.capacity,
        k.first_touched(t, v).tasks[t].next_free == k.tasks[t].next_free + 1,
        k.first_touched(t, v).stored(t, k.tasks[t].next_free) == v,
        forall|u: int|
            0 <= u < k.tasks.len() && u != t ==> k.first_touched(t, v).tasks[u] == k.tasks[u],
        forall|s: int|
            0 <= s < TLS_SLOT_COUNT && s != k.tasks[t].next_free ==> k.first_touched(
                t,
                v,
            ).tasks[t].slots[s] == k.tasks[t].slots[s],
{
}

/// The shape of a whole run of first touches by one task: the counter
/// advances once per touch and every other task's record stays put.
pub proof fn lemma_touched_n_shape<V>(k: KernelModel<V>, t: int, vs: Seq<V>)
    requires
        k.wf(),
        k.valid_task(t),
        k.tasks[t].next_free + vs.len() <= TLS_SLOT_COUNT,
    ensures
        touched_n(k, t, vs).wf(),
        touched_n(k, t, vs).tasks.len() == k.tasks.len(),
        touched_n(k, t, vs).tasks[t].next_free == k.tasks[t].next_free + vs.len(),
        forall|u: int|
            0 <= u < k.tasks.len() && u != t ==> touched_n(k, t, vs).tasks[u] == k.tasks[u],
    decreases vs.len(),
{
    if vs.len() > 0 {
        lemma_touched_n_shape(k, t, vs.drop_last());
        lemma_first_touched_shape(touched_n(k, t, vs.drop_last()), t, vs.last());
    }
}

/// Law (per-task slot monotonicity): over any run of first touches by one
/// task, the i-th touch binds slot `next_free + i`, so the bound slots
/// are strictly increasing, all above the reserved counter slot, and none
/// repeats.
pub proof fn lemma_slot_monotonicity<V>(k: KernelModel<V>, t: int, vs: Seq<V>, i: int, j: int)
    requires
        k.wf(),
        k.valid_task(t),
        k.tasks[t].next_free + vs.len() <= TLS_SLOT_COUNT,
        0 <= i < j < vs.len(),
    ensures
        touch_slot(k, t, vs, i) == k.tasks[t].next_free + i,
        touch_slot(k, t, vs, j) == k.tasks[t].next_free + j,
        0 < touch_slot(k, t, vs, i) < touch_slot(k, t, vs, j),
{
    lemma_touched_n_shape(k, t, vs.take(i));
    lemma_touched_n_shape(k, t, vs.take(j));
}

/// Law (binding stability): once a resolution step has bound a task, the
/// pair's binding never moves — the step is idempotent, later steps
/// resolve to the same slot, and steps for other tasks leave it alone.
pub proof fn lemma_binding_stability(m: Map<usize, usize>, t: usize, s1: usize, s2: usize)
    ensures
        bound_step(m, t, s1).contains_key(t),
        bound_step(m, t, s1)[t] == if m.contains_key(t) {
            m[t]
        } else {
            s1
        },
        bound_step(bound_step(m, t, s1), t, s2) == bound_step(m, t, s1),
        forall|u: usize, su: usize|
            u != t ==> #[trigger] bound_step(bound_step(m, t, s1), u, su)[t] == bound_step(
                m,
                t,
                s1,
            )[t],
{
}

/// Law (task isolation): storage traffic by one task — a first touch or a
/// value replacement — leaves every other task's record, and so each of
/// its separately initialized values, exactly as it was.
pub proof fn lemma_task_isolation<V>(k: KernelModel<V>, a: int, b: int, s: int, v: V)
    requires
        k.valid_task(a),
        k.valid_task(b),
        a != b,
    ensures
        k.first_touched(a, v).tasks[b] == k.tasks[b],
        k.with_stored(a, s, v).tasks[b] == k.tasks[b],
{
}

/// Law (race safety on first touch, kernel half): two first touches
/// racing on one key from distinct tasks serialize to the same kernel in
/// either order, each task's value in its own slot.
pub proof fn lemma_first_touch_race<V>(k: KernelModel<V>, a: int, b: int, va: V, vb: V)
    requires
        k.wf(),
        k.valid_task(a),
        k.valid_task(b),
        a != b,
        k.tasks[a].next_free < TLS_SLOT_COUNT,
        k.tasks[b].next_free < TLS_SLOT_COUNT,
    ensures
        k.first_touched(a, va).first_touched(b, vb) == k.first_touched(b, vb).first_touched(
            a,
            va,
        ),
{
    let ab = k.first_touched(a, va).first_touched(b, vb);
    let ba = k.first_touched(b, vb).first_touched(a, va);
    assert(ab.tasks =~~= ba.tasks);
    assert(ab =~~= ba);
}

/// Law (race safety on first touch, binding half): whichever of two
/// distinct unbound tasks gets the key's mutex first, the map afterwards
/// binds exactly the slot each task was given — neither observes the
/// other's slot.
pub proof fn lemma_binding_race(m: Map<usize, usize>, a: usize, b: usize, sa: usize, sb: usize)
    requires
        a != b,
        !m.contains_key(a),
        !m.contains_key(b),
    ensures
        bound_step(bound_step(m, a, sa), b, sb) == bound_step(bound_step(m, b, sb), a, sa),
        bound_step(bound_step(m, a, sa), b, sb)[a] == sa,
        bound_step(bound_step(m, a, sa), b, sb)[b] == sb,
{
    assert(bound_step(bound_step(m, a, sa), b, sb) =~= bound_step(bound_step(m, b, sb), a, sa));
}

} // verus!
