use vstd::prelude::*;

use crate::handle::ObjectKind;
use crate::protocol::Request;
use crate::resource::{release_call, retain_call};

verus! {

/// One step in the life of the owners of a native object: duplicate the
/// owner at an index (`retain_request`, then `try_clone`), or give up the
/// owner at an index (`release`).
#[derive(Clone, Copy, Debug, PartialEq, Eq, Structural, Hash)]
pub enum OwnerOp {
    Duplicate(usize),
    Destroy(usize),
}

/// The owner that a step acts on.
pub open spec fn op_index(op: OwnerOp) -> int {
    match op {
        OwnerOp::Duplicate(i) => i as int,
        OwnerOp::Destroy(i) => i as int,
    }
}

/// The handles held by the owners after `op`, and the one native call that
/// it issues.
pub open spec fn owner_step(kind: ObjectKind, owners: Seq<usize>, op: OwnerOp) -> (Seq<usize>, Request) {
    match op {
        OwnerOp::Duplicate(i) => (owners.push(owners[i as int]), retain_call(kind, owners[i as int])),
        OwnerOp::Destroy(i) => (owners.remove(i as int), release_call(kind, owners[i as int])),
    }
}

/// Every step of `ops` acts on an owner that exists at that point.
pub open spec fn owners_valid(kind: ObjectKind, owners: Seq<usize>, ops: Seq<OwnerOp>) -> bool
    decreases ops.len(),
{
    ops.len() > 0 ==> {
        &&& 0 <= op_index(ops[0]) < owners.len()
        &&& owners_valid(kind, owner_step(kind, owners, ops[0]).0, ops.drop_first())
    }
}

/// The owners left after `ops`, and the native calls issued on the way, in
/// order.
pub open spec fn run_owners(kind: ObjectKind, owners: Seq<usize>, ops: Seq<OwnerOp>) -> (Seq<usize>, Seq<Request>)
    decreases ops.len(),
{
    if ops.len() == 0 {
        (owners, Seq::empty())
    } else {
        let (next, call) = owner_step(kind, owners, ops[0]);
        let (fin, rest) = run_owners(kind, next, ops.drop_first());
        (fin, seq![call] + rest)
    }
}

/// How often `x` occurs in `s`.
pub open spec fn count_of<A>(s: Seq<A>, x: A) -> nat
    decreases s.len(),
{
    if s.len() == 0 {
        0
    } else {
        (if s[0] == x { 1nat } else { 0nat }) + count_of(s.drop_first(), x)
    }
}

/// How many steps of `ops` duplicate an owner.
pub open spec fn duplicates(ops: Seq<OwnerOp>) -> nat
    decreases ops.len(),
{
    if ops.len() == 0 {
        0
    } else {
        (if ops[0] is Duplicate { 1nat } else { 0nat }) + duplicates(ops.drop_first())
    }
}

/// How many steps of `ops` give an owner up.
pub open spec fn destroys(ops: Seq<OwnerOp>) -> nat
    decreases ops.len(),
{
    if ops.len() == 0 {
        0
    } else {
        (if ops[0] is Destroy { 1nat } else { 0nat }) + destroys(ops.drop_first())
    }
}

/// The runtime's count of references to object `handle` after its creation
/// and the calls in `calls`.
pub open spec fn native_refs(kind: ObjectKind, handle: usize, calls: Seq<Request>) -> int {
    1 + count_of(calls, retain_call(kind, handle)) - count_of(calls, release_call(kind, handle))
}

proof fn lemma_run_owners(kind: ObjectKind, handle: usize, owners: Seq<usize>, ops: Seq<OwnerOp>)
    requires
        forall|j: int| 0 <= j < owners.len() ==> owners[j] == handle,
        owners_valid(kind, owners, ops),
    ensures
        ({
            let (fin, calls) = run_owners(kind, owners, ops);
            &&& forall|j: int| 0 <= j < fin.len() ==> fin[j] == handle
            &&& fin.len() == owners.len() + duplicates(ops) - destroys(ops)
            &&& calls.len() == ops.len()
            &&& count_of(calls, retain_call(kind, handle)) == duplicates(ops)
            &&& count_of(calls, release_call(kind, handle)) == destroys(ops)
        }),
    decreases ops.len(),
{
    if ops.len() > 0 {
        let (next, call) = owner_step(kind, owners, ops[0]);
        assert forall|j: int| 0 <= j < next.len() implies next[j] == handle by {
            match ops[0] {
                OwnerOp::Duplicate(i) => {},
                OwnerOp::Destroy(i) => {
                    if j < i {
                        assert(next[j] == owners[j]);
                    } else {
                        assert(next[j] == owners[j + 1]);
                    }
                },
            }
        }
        lemma_run_owners(kind, handle, next, ops.drop_first());
        let (fin, rest) = run_owners(kind, next, ops.drop_first());
        assert((seq![call] + rest).drop_first() =~= rest);
    }
}

/// Over any run of duplicates and releases among the owners of one native
/// object, starting from the single owner that created it: each duplicate
/// issues exactly one retain, each owner given up issues exactly one
/// release, nothing else is issued, and once no owner is left the runtime's
/// count of references is back to zero.
pub proof fn lemma_owner_calls_balance(kind: ObjectKind, handle: usize, ops: Seq<OwnerOp>)
    requires
        owners_valid(kind, seq![handle], ops),
    ensures
        ({
            let (fin, calls) = run_owners(kind, seq![handle], ops);
            &&& calls.len() == ops.len()
            &&& count_of(calls, retain_call(kind, handle)) == duplicates(ops)
            &&& count_of(calls, release_call(kind, handle)) == destroys(ops)
            &&& fin.len() == native_refs(kind, handle, calls)
            &&& fin.len() == 0 ==> native_refs(kind, handle, calls) == 0
        }),
{
    lemma_run_owners(kind, handle, seq![handle], ops);
}

/// Duplicating an owner and then giving up the first owner leaves the
/// duplicate holding the same object, which the runtime still counts once.
pub proof fn lemma_duplicate_outlives_first_owner(kind: ObjectKind, handle: usize)
    ensures
        ({
            let ops = seq![OwnerOp::Duplicate(0), OwnerOp::Destroy(0)];
            let (fin, calls) = run_owners(kind, seq![handle], ops);
            &&& owners_valid(kind, seq![handle], ops)
            &&& fin == seq![handle]
            &&& native_refs(kind, handle, calls) == 1
        }),
{
    let ops = seq![OwnerOp::Duplicate(0), OwnerOp::Destroy(0)];
    let one = seq![handle];
    let two = one.push(handle);
    assert(ops.drop_first() =~= seq![OwnerOp::Destroy(0)]);
    assert(ops.drop_first().drop_first() =~= Seq::<OwnerOp>::empty());
    assert(owner_step(kind, one, ops[0]).0 == two);
    assert(two.remove(0) =~= one);
    assert(owner_step(kind, two, ops.drop_first()[0]).0 == one);
    assert(owners_valid(kind, seq![handle], ops)) by {
        reveal_with_fuel(owners_valid, 3);
    }
    lemma_owner_calls_balance(kind, handle, ops);
    assert(run_owners(kind, one, ops).0 == one) by {
        reveal_with_fuel(run_owners, 3);
    }
    assert(duplicates(ops) == 1) by {
        reveal_with_fuel(duplicates, 3);
    }
    assert(destroys(ops) == 1) by {
        reveal_with_fuel(destroys, 3);
    }
}

} // verus!
