//! Task-local storage behavior: slot bookkeeping, binding stability,
//! task isolation, and the end-to-end counter scenario.

use pros::task::{current, spawn, Kernel, TLS_SLOT_COUNT};
use pros::task_local::LocalKey;

#[test]
fn slot_monotonicity_across_keys() {
    let mut kernel: Kernel<u64> = Kernel::new(4);
    let main = current(&kernel);

    let mut k1 = LocalKey::new(|| 0u64);
    let mut k2 = LocalKey::new(|| 0u64);
    let mut k3 = LocalKey::new(|| 0u64);

    k1.with(&mut kernel, |v| *v);
    k2.with(&mut kernel, |v| *v);
    k3.with(&mut kernel, |v| *v);

    let s1 = k1.binding(&main).unwrap();
    let s2 = k2.binding(&main).unwrap();
    let s3 = k3.binding(&main).unwrap();

    // Strictly increasing, starting just above the reserved counter slot.
    assert_eq!(s1, 1);
    assert_eq!(s2, 2);
    assert_eq!(s3, 3);
    assert!(0 < s1 && s1 < s2 && s2 < s3);
    assert_eq!(kernel.tasks[0].next_free, 4);
}

#[test]
fn slots_fill_up_to_the_kernel_cap() {
    let mut kernel: Kernel<u64> = Kernel::new(1);
    let main = current(&kernel);

    let mut keys: Vec<LocalKey<u64, fn() -> u64>> = Vec::new();
    for _ in 0..(TLS_SLOT_COUNT - 1) {
        keys.push(LocalKey::<u64, fn() -> u64>::new(zero));
    }
    for key in keys.iter_mut() {
        key.with(&mut kernel, |v| *v);
    }
    for (i, key) in keys.iter().enumerate() {
        assert_eq!(key.binding(&main).unwrap(), i + 1);
    }
    assert_eq!(kernel.tasks[0].next_free, TLS_SLOT_COUNT);
}

fn zero() -> u64 {
    0
}

#[test]
fn binding_stability_for_one_pair() {
    let mut kernel: Kernel<u64> = Kernel::new(2);
    let main = current(&kernel);
    let mut key = LocalKey::new(|| 0u64);

    key.with(&mut kernel, |v| *v);
    let first = key.binding(&main).unwrap();

    // A counter stored in the value, incremented each access, reads back
    // consistent with the call count — so every access resolves to the
    // same underlying storage.
    key.with_mut(&mut kernel, |v| *v + 1);
    key.with_mut(&mut kernel, |v| *v + 1);
    let seen = key.with(&mut kernel, |v| *v);
    assert_eq!(seen, 2);

    assert_eq!(key.binding(&main).unwrap(), first);
    assert_eq!(kernel.tasks[0].next_free, 2);
}

#[test]
fn task_isolation_between_two_tasks() {
    let mut kernel: Kernel<u64> = Kernel::new(2);
    let main = current(&kernel);
    let worker = spawn(&mut kernel);
    let mut key = LocalKey::new(|| 0u64);

    key.with_mut(&mut kernel, |v| *v + 5);
    assert_eq!(key.with(&mut kernel, |v| *v), 5);

    kernel.switch_to(&worker);
    // The worker's instance is separately initialized: the main task's
    // mutation is invisible here.
    assert_eq!(key.with(&mut kernel, |v| *v), 0);

    kernel.switch_to(&main);
    assert_eq!(key.with(&mut kernel, |v| *v), 5);
}

#[test]
fn first_touch_race_leaves_one_binding_per_task() {
    // The mutex serializes a racing first touch into one of two orders;
    // both orders must end with exactly one slot bound per task and
    // neither task observing the other task's slot.
    for order in [[0usize, 1usize], [1usize, 0usize]] {
        let mut kernel: Kernel<u64> = Kernel::new(2);
        let main = current(&kernel);
        let worker = spawn(&mut kernel);
        let handles = [main, worker];
        let mut key = LocalKey::new(|| 7u64);

        for who in order {
            kernel.switch_to(&handles[who]);
            key.with(&mut kernel, |v| *v);
        }

        assert_eq!(key.binding(&main).unwrap(), 1);
        assert_eq!(key.binding(&worker).unwrap(), 1);
        assert_eq!(kernel.tasks[0].next_free, 2);
        assert_eq!(kernel.tasks[1].next_free, 2);
        kernel.switch_to(&main);
        assert_eq!(key.with(&mut kernel, |v| *v), 7);
        kernel.switch_to(&worker);
        assert_eq!(key.with(&mut kernel, |v| *v), 7);
    }
}

#[test]
fn end_to_end_counter_scenario() {
    let mut kernel: Kernel<u64> = Kernel::new(2);
    let main = current(&kernel);
    let mut key = LocalKey::new(|| 0u64);

    // Task T increments three times; the third call observes 2 before
    // incrementing to 3.
    key.with_mut(&mut kernel, |v| *v + 1);
    key.with_mut(&mut kernel, |v| *v + 1);
    assert_eq!(key.with(&mut kernel, |v| *v), 2);
    key.with_mut(&mut kernel, |v| *v + 1);
    assert_eq!(key.with(&mut kernel, |v| *v), 3);

    // A second task running the same pattern independently observes
    // 0 -> 1, unaffected by T's state.
    let second = spawn(&mut kernel);
    kernel.switch_to(&second);
    assert_eq!(key.with(&mut kernel, |v| *v), 0);
    key.with_mut(&mut kernel, |v| *v + 1);
    assert_eq!(key.with(&mut kernel, |v| *v), 1);

    kernel.switch_to(&main);
    assert_eq!(key.with(&mut kernel, |v| *v), 3);
}

#[test]
fn per_task_numbering_is_independent() {
    let mut kernel: Kernel<u64> = Kernel::new(2);
    let main = current(&kernel);
    let worker = spawn(&mut kernel);
    let mut k1 = LocalKey::new(|| 0u64);
    let mut k2 = LocalKey::new(|| 0u64);

    // Interleave first touches of two keys across two tasks: each task
    // numbers its own slots, starting at 1, regardless of the other.
    k1.with(&mut kernel, |v| *v);
    kernel.switch_to(&worker);
    k1.with(&mut kernel, |v| *v);
    k2.with(&mut kernel, |v| *v);
    kernel.switch_to(&main);
    k2.with(&mut kernel, |v| *v);

    assert_eq!(k1.binding(&main).unwrap(), 1);
    assert_eq!(k1.binding(&worker).unwrap(), 1);
    assert_eq!(k2.binding(&main).unwrap(), 2);
    assert_eq!(k2.binding(&worker).unwrap(), 2);
}

#[test]
fn initializer_runs_once_per_task() {
    let mut kernel: Kernel<u64> = Kernel::new(1);
    let mut key = LocalKey::new(|| 42u64);

    assert_eq!(key.with(&mut kernel, |v| *v), 42);
    key.with_mut(&mut kernel, |v| *v - 40);
    // A later access finds the stored value, not a fresh 42.
    assert_eq!(key.with(&mut kernel, |v| *v), 2);
}
