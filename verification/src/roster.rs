//! A row of workers, looked up by a key.

use vstd::prelude::*;

use crate::worker::CameraWorker;
use crate::worker::WorkerModel;

verus! {

/// The values of a row of workers.
pub open spec fn models(workers: Seq<CameraWorker>) -> Seq<WorkerModel> {
    workers.map_values(|worker: CameraWorker| worker@)
}

/// Every worker of a row is well formed.
pub open spec fn all_wf(workers: Seq<CameraWorker>) -> bool {
    forall|i: int| 0 <= i < workers.len() ==> (#[trigger] workers[i]).wf()
}

/// The worker at position `i` has the key `k`.
pub open spec fn has_key<K>(
    workers: Seq<WorkerModel>,
    key: spec_fn(WorkerModel) -> K,
    i: int,
    k: K,
) -> bool {
    0 <= i < workers.len() && key(workers[i]) == k
}

/// The workers by their keys.
pub open spec fn keyed<K>(workers: Seq<WorkerModel>, key: spec_fn(WorkerModel) -> K) -> Map<
    K,
    WorkerModel,
> {
    Map::new(
        |k: K| exists|i: int| has_key(workers, key, i, k),
        |k: K| workers[choose|i: int| has_key(workers, key, i, k)],
    )
}

/// No two workers have the same key.
pub open spec fn distinct<K>(workers: Seq<WorkerModel>, key: spec_fn(WorkerModel) -> K) -> bool {
    forall|i: int, j: int|
        0 <= i < workers.len() && 0 <= j < workers.len() && key(#[trigger] workers[i]) == key(
            #[trigger] workers[j],
        ) ==> i == j
}

/// Looking up the key of the worker at position `i` finds that worker.
pub proof fn lemma_lookup<K>(workers: Seq<WorkerModel>, key: spec_fn(WorkerModel) -> K, i: int)
    requires
        distinct(workers, key),
        0 <= i < workers.len(),
    ensures
        keyed(workers, key).contains_key(key(workers[i])),
        keyed(workers, key)[key(workers[i])] == workers[i],
{
    assert(has_key(workers, key, i, key(workers[i])));
}

/// A key that is found is that of the worker that is found.
pub proof fn lemma_found<K>(workers: Seq<WorkerModel>, key: spec_fn(WorkerModel) -> K, k: K)
    requires
        distinct(workers, key),
        keyed(workers, key).contains_key(k),
    ensures
        key(keyed(workers, key)[k]) == k,
{
    let i = choose|i: int| has_key(workers, key, i, k);
    lemma_lookup(workers, key, i);
}

/// Replacing the worker at position `i` by one with the same key.
pub proof fn lemma_replace<K>(
    workers: Seq<WorkerModel>,
    key: spec_fn(WorkerModel) -> K,
    i: int,
    worker: WorkerModel,
)
    requires
        distinct(workers, key),
        0 <= i < workers.len(),
        key(worker) == key(workers[i]),
    ensures
        distinct(workers.update(i, worker), key),
        keyed(workers.update(i, worker), key) == keyed(workers, key).insert(key(worker), worker),
{
    let after = workers.update(i, worker);
    let expected = keyed(workers, key).insert(key(worker), worker);
    assert(distinct(after, key));
    assert forall|k: K| #[trigger]
        keyed(after, key).contains_key(k) == expected.contains_key(k) by {
        if keyed(after, key).contains_key(k) {
            let j = choose|j: int| has_key(after, key, j, k);
            assert(has_key(workers, key, j, k));
        }
        if keyed(workers, key).contains_key(k) {
            let j = choose|j: int| has_key(workers, key, j, k);
            assert(has_key(after, key, j, k));
        }
        if k == key(worker) {
            assert(has_key(after, key, i, k));
        }
    }
    assert forall|k: K| #[trigger] keyed(after, key).contains_key(k) implies keyed(after, key)[k]
        == expected[k] by {
        let j = choose|j: int| has_key(after, key, j, k);
        lemma_lookup(after, key, j);
        lemma_lookup(workers, key, j);
    }
    assert(keyed(after, key) =~= expected);
}

/// Adding a worker with a key that no other has.
pub proof fn lemma_append<K>(
    workers: Seq<WorkerModel>,
    key: spec_fn(WorkerModel) -> K,
    worker: WorkerModel,
)
    requires
        distinct(workers, key),
        !keyed(workers, key).contains_key(key(worker)),
    ensures
        distinct(workers.push(worker), key),
        keyed(workers.push(worker), key) == keyed(workers, key).insert(key(worker), worker),
{
    let after = workers.push(worker);
    let expected = keyed(workers, key).insert(key(worker), worker);
    let n = workers.len() as int;
    assert forall|i: int, j: int|
        0 <= i < after.len() && 0 <= j < after.len() && key(#[trigger] after[i]) == key(
            #[trigger] after[j],
        ) implies i == j by {
        if i < n && j == n {
            lemma_lookup(workers, key, i);
        }
        if j < n && i == n {
            lemma_lookup(workers, key, j);
        }
    }
    assert forall|k: K| #[trigger]
        keyed(after, key).contains_key(k) == expected.contains_key(k) by {
        if keyed(after, key).contains_key(k) {
            let j = choose|j: int| has_key(after, key, j, k);
            if j < n {
                assert(has_key(workers, key, j, k));
            }
        }
        if keyed(workers, key).contains_key(k) {
            let j = choose|j: int| has_key(workers, key, j, k);
            assert(has_key(after, key, j, k));
        }
        if k == key(worker) {
            assert(has_key(after, key, n, k));
        }
    }
    assert forall|k: K| #[trigger] keyed(after, key).contains_key(k) implies keyed(after, key)[k]
        == expected[k] by {
        let j = choose|j: int| has_key(after, key, j, k);
        lemma_lookup(after, key, j);
        if j < n {
            lemma_lookup(workers, key, j);
        }
    }
    assert(keyed(after, key) =~= expected);
}

/// Removing the worker at position `i`.
pub proof fn lemma_remove<K>(workers: Seq<WorkerModel>, key: spec_fn(WorkerModel) -> K, i: int)
    requires
        distinct(workers, key),
        0 <= i < workers.len(),
    ensures
        distinct(workers.remove(i), key),
        keyed(workers.remove(i), key) == keyed(workers, key).remove(key(workers[i])),
{
    let after = workers.remove(i);
    let expected = keyed(workers, key).remove(key(workers[i]));
    assert(distinct(after, key));
    assert forall|k: K| #[trigger]
        keyed(after, key).contains_key(k) == expected.contains_key(k) by {
        if keyed(after, key).contains_key(k) {
            let j = choose|j: int| has_key(after, key, j, k);
            assert(has_key(workers, key, if j < i { j } else { j + 1 }, k));
        }
        if expected.contains_key(k) {
            let j = choose|j: int| has_key(workers, key, j, k);
            assert(has_key(after, key, if j < i { j } else { j - 1 }, k));
        }
    }
    assert forall|k: K| #[trigger] keyed(after, key).contains_key(k) implies keyed(after, key)[k]
        == expected[k] by {
        let j = choose|j: int| has_key(after, key, j, k);
        lemma_lookup(after, key, j);
        lemma_lookup(workers, key, if j < i { j } else { j + 1 });
    }
    assert(keyed(after, key) =~= expected);
}

} // verus!
