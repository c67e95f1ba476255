# atomic_locks

Synchronization protocols on std atomics, verified with Verus.

`src/` holds, for each primitive, the atomic state word and the steps that
read-modify-write it (a spin lock's flag, a one-shot channel's ready flag,
the two reference counts behind strong and weak handles, a futex mutex's
three-state word, a futex reader-writer lock's reader count).

Every atomic operation, every fence and every futex call goes through a
wrapper that returns a record of it: the word, the operation with its
arguments and memory ordering, and what it returned; every word is made by
a wrapper that records the value it was made with. Records are made only
by those wrappers. Each constructor and step returns the records of what it
did, and its contract fixes them: the value each word starts with, which
value a step swaps in, exchanges, adds or stores and with which ordering,
which fences it makes, which value it waits on, whether it wakes one or
all, and what it returns for whatever the operations found. The values the
words hold later cannot be stated: other threads decide them.

Each protocol also has an interleaving model whose invariant is proved for
every run of the model: mutual exclusion, no stranded sleeper, the value
dropped once and only when no strong handle is left, a lazily set key
installed once. The models share the steps' decision functions, but no
executable function is proved to refine them.

Waiting for other threads has no termination measure, so the retry loops
are the caller's: `app/` runs them, and holds the cells that carry the
protected values, the guards and the handles' `Drop` impls.

The `atomic_wait` crate supplies the futex wait and wake calls.
