use vstd::prelude::*;

verus! {

use crate::convert::AsyncArgTypeInfo;
use crate::convert::PersistentStorage;
use crate::convert::ResultTypeInfo;
use crate::error::Module;
use crate::error::SignalNodeError;
use crate::host::HostContext;
use crate::host::HostException;
use crate::host::HostValue;

/// The asynchronous conversion protocol's life cycle: persist every
/// argument on the host context (all of them, or none — a failed persist
/// rolls the already-persisted ones back through finalization); transfer to
/// the worker; run; then, back on the host context, finalize every
/// persisted argument — on the error path too — and only then settle the
/// deferred result. Cancellation does not exist: success and failure are
/// the only terminal paths, and both pass through full finalization.

/// A settled deferred result.
pub enum Settlement {
    /// The deferred result resolved with a host value.
    Fulfilled(HostValue),
    /// The deferred result was rejected with a host exception.
    Rejected(HostException),
}

/// The GC roots held by a sequence of persisted argument storages.
pub open spec fn total_roots<S: PersistentStorage>(storages: Seq<S>) -> nat
    decreases storages.len(),
{
    if storages.len() == 0 {
        0
    } else {
        total_roots(storages.drop_last()) + storages.last().roots()
    }
}

/// How many of the storages owe an integrity warning when finalized under
/// `cx`.
pub open spec fn warn_count<S: PersistentStorage>(storages: Seq<S>, cx: HostContext) -> nat
    decreases storages.len(),
{
    if storages.len() == 0 {
        0
    } else {
        warn_count(storages.drop_last(), cx) + (if storages.last().finalize_warns(cx) {
            1nat
        } else {
            0nat
        })
    }
}

/// Finalizes every persisted argument storage, exactly once each — the
/// vector is consumed, and each storage's `finalize` consumes it. Releases
/// every root the storages held and reports how many integrity warnings are
/// owed. Runs on the host's execution context.
pub fn finalize_all<S: PersistentStorage>(storages: Vec<S>, cx: &mut HostContext) -> (warnings:
    u64)
    requires
        forall|i: int|
            0 <= i < storages@.len() ==> (#[trigger] storages@[i]).valid(*old(cx)),
        old(cx).live_roots >= total_roots(storages@),
    ensures
        final(cx).live_roots == old(cx).live_roots - total_roots(storages@),
        final(cx).buffers == old(cx).buffers,
        final(cx).verbose == old(cx).verbose,
        warnings == warn_count(storages@, *old(cx)),
{
    let ghost orig = storages@;
    let ghost cx0 = *old(cx);
    let mut remaining = storages;
    let mut warnings: u64 = 0;
    let total_count = remaining.len();
    proof {
        assert(orig.take(orig.len() as int) =~= orig);
        lemma_warn_count_bounded(orig, cx0);
        assert(orig.len() == total_count);
        assert(orig.len() <= u64::MAX);
    }
    while remaining.len() > 0
        invariant
            remaining@ =~= orig.take(remaining@.len() as int),
            remaining@.len() <= orig.len(),
            cx.live_roots == cx0.live_roots - total_roots(orig) + total_roots(remaining@),
            cx.buffers == cx0.buffers,
            cx.verbose == cx0.verbose,
            cx0.live_roots >= total_roots(orig),
            total_roots(remaining@) <= total_roots(orig),
            warnings == warn_count(orig, cx0) - warn_count(remaining@, cx0),
            warn_count(remaining@, cx0) <= warn_count(orig, cx0),
            warn_count(orig, cx0) <= orig.len(),
            orig.len() <= u64::MAX,
            forall|i: int| 0 <= i < orig.len() ==> (#[trigger] orig[i]).valid(cx0),
        decreases remaining@.len(),
    {
        let ghost k = remaining@.len() as int;
        proof {
            assert(remaining@.drop_last() =~= orig.take(k - 1));
            assert(remaining@.last() == orig[k - 1]);
        }
        let storage = remaining.pop().unwrap();
        proof {
            storage.context_independent(*cx, cx0);
            assert(warn_count(orig.take(k), cx0) == warn_count(orig.take(k - 1), cx0) + (
            if orig[k - 1].finalize_warns(cx0) {
                1nat
            } else {
                0nat
            }));
            assert(total_roots(orig.take(k)) == total_roots(orig.take(k - 1)) + orig[
                k - 1
            ].roots());
        }
        let warned = storage.finalize(cx);
        if warned {
            proof {
                assert(warnings + 1 <= warn_count(orig, cx0));
            }
            warnings = warnings + 1;
        }
    }
    proof {
        assert(remaining@ =~= Seq::<S>::empty());
    }
    warnings
}

/// How many warnings a sequence of storages can owe: at most one each.
pub proof fn lemma_warn_count_bounded<S: PersistentStorage>(storages: Seq<S>, cx: HostContext)
    ensures
        warn_count(storages, cx) <= storages.len(),
    decreases storages.len(),
{
    if storages.len() > 0 {
        lemma_warn_count_bounded(storages.drop_last(), cx);
    }
}

/// Persists every argument of a deferred call, in order, on the host's
/// execution context. Conversion errors never partially apply: if any
/// argument fails its type-tag check or its save, every storage persisted
/// so far is finalized — releasing its roots — before the error is
/// returned, so a failed conversion leaves the context exactly as it found
/// it. On success the call holds exactly the storages' roots.
pub fn save_all<T: AsyncArgTypeInfo>(cx: &mut HostContext, args: &Vec<HostValue>) -> (r: Result<
    Vec<T::StoredType>,
    (HostException, u64),
>)
    requires
        old(cx).live_roots + args@.len() < u64::MAX,
    ensures
        final(cx).buffers == old(cx).buffers,
        final(cx).verbose == old(cx).verbose,
        r matches Ok(storages) ==> {
            &&& storages@.len() == args@.len()
            &&& forall|i: int| 0 <= i < args@.len() ==> T::accepts(#[trigger] args@[i])
            &&& forall|i: int|
                0 <= i < args@.len() ==> T::save_ensures(args@[i], Ok(#[trigger] storages@[i]))
            &&& forall|i: int|
                0 <= i < storages@.len() ==> T::can_load(#[trigger] storages@[i])
                    && storages@[i].roots() <= 1 && storages@[i].valid(*final(cx))
            &&& final(cx).live_roots == old(cx).live_roots + total_roots(storages@)
        },
        r matches Err(failure) ==> {
            &&& final(cx).live_roots == old(cx).live_roots
            &&& exists|k: int|
                0 <= k < args@.len() && ((failure.0 matches HostException::Type { expected }
                    && !T::accepts(#[trigger] args@[k]) && expected@ == T::expected_type()) || (
                T::accepts(args@[k]) && T::save_ensures(args@[k], Err(failure.0))))
        },
{
    let ghost cx0 = *old(cx);
    let mut storages: Vec<T::StoredType> = Vec::new();
    let mut i: usize = 0;
    while i < args.len()
        invariant
            cx0 == *old(cx),
            i <= args@.len(),
            storages@.len() == i,
            cx.buffers == cx0.buffers,
            cx.verbose == cx0.verbose,
            cx0.live_roots + args@.len() < u64::MAX,
            forall|j: int| 0 <= j < i ==> T::accepts(#[trigger] args@[j]),
            forall|j: int|
                0 <= j < i ==> T::save_ensures(args@[j], Ok(#[trigger] storages@[j])),
            forall|j: int|
                0 <= j < i ==> T::can_load(#[trigger] storages@[j]) && storages@[j].roots() <= 1
                    && storages@[j].valid(*cx),
            total_roots(storages@) <= storages@.len(),
            cx.live_roots == cx0.live_roots + total_roots(storages@),
        decreases args@.len() - i,
    {
        let arg = &args[i];
        if !T::downcast(arg) {
            let ghost failed_at = i as int;
            let warnings = finalize_all(storages, cx);
            proof {
                assert(!T::accepts(args@[failed_at]));
            }
            return Err((HostException::Type { expected: T::expected_name() }, warnings));
        }
        let ghost cx_before = *cx;
        let ghost stored_before = storages@;
        match T::save_async_arg(cx, arg) {
            Ok(stored) => {
                proof {
                    assert forall|j: int|
                        0 <= j < stored_before.len() implies (#[trigger] stored_before[j]).valid(
                        *cx,
                    ) by {
                        stored_before[j].context_independent(cx_before, *cx);
                    };
                }
                storages.push(stored);
                proof {
                    assert(storages@.drop_last() =~= stored_before);
                    assert(storages@.last() == stored);
                    assert(total_roots(storages@) == total_roots(stored_before) + stored.roots());
                }
            },
            Err(e) => {
                let ghost failed_at = i as int;
                let warnings = finalize_all(storages, cx);
                proof {
                    assert(T::accepts(args@[failed_at]) && T::save_ensures(args@[failed_at], Err(e)));
                }
                return Err((e, warnings));
            },
        }
        i = i + 1;
    }
    Ok(storages)
}

/// The host context as it stands after `released` roots have been
/// released: finalization touches nothing else.
pub open spec fn after_finalize(cx: HostContext, released: nat) -> HostContext {
    HostContext { live_roots: (cx.live_roots - released) as u64, buffers: cx.buffers, verbose: cx.verbose }
}

/// What settling a deferred call produced.
pub struct SettleOutcome {
    /// How the deferred result settled.
    pub settlement: Settlement,
    /// How many persisted storages owed an integrity warning when they were
    /// finalized.
    pub integrity_warnings: u64,
    /// Whether the error mapping degraded to its generic fallback and owes
    /// a warning.
    pub mapping_warned: bool,
}

/// Settles a deferred native call on the host's execution context. First
/// every persisted argument storage is finalized, exactly once each,
/// whether the native work succeeded or failed — partial failure still gets
/// full cleanup. Only then is the result settled: a native error is mapped
/// to its host exception and rejects the deferred result; a native value is
/// converted to its host form and fulfills it, unless the result conversion
/// itself fails, which rejects the deferred result with the conversion's
/// exception.
pub fn settle_deferred<S: PersistentStorage, R: ResultTypeInfo, E: SignalNodeError>(
    outcome: Result<R, E>,
    storages: Vec<S>,
    cx: &mut HostContext,
    module: &Module,
) -> (s: SettleOutcome)
    requires
        forall|i: int|
            0 <= i < storages@.len() ==> (#[trigger] storages@[i]).valid(*old(cx)),
        old(cx).live_roots >= total_roots(storages@),
    ensures
        final(cx).live_roots == old(cx).live_roots - total_roots(storages@),
        final(cx).verbose == old(cx).verbose,
        old(cx).buffers@.is_prefix_of(final(cx).buffers@),
        s.integrity_warnings == warn_count(storages@, *old(cx)),
        outcome matches Err(e) ==> (s.settlement matches Settlement::Rejected(ex)
            && E::throw_ensures(e, *module, ex, s.mapping_warned) && final(cx).buffers == old(
            cx,
        ).buffers),
        outcome matches Ok(r) ==> !s.mapping_warned && ((s.settlement matches
        Settlement::Fulfilled(v) && R::convert_into_ensures(
            r,
            after_finalize(*old(cx), total_roots(storages@)),
            *final(cx),
            Ok(v),
        )) || (s.settlement matches Settlement::Rejected(ex) && R::convert_into_ensures(
            r,
            after_finalize(*old(cx), total_roots(storages@)),
            *final(cx),
            Err(ex),
        ))),
{
    let ghost cx0 = *old(cx);
    let integrity_warnings = finalize_all(storages, cx);
    proof {
        assert(*cx == after_finalize(cx0, total_roots(storages@)));
    }
    match outcome {
        Err(e) => {
            let (exception, warned) = e.throw(module);
            SettleOutcome {
                settlement: Settlement::Rejected(exception),
                integrity_warnings,
                mapping_warned: warned,
            }
        },
        Ok(result) => {
            match result.convert_into(cx) {
                Ok(value) => SettleOutcome {
                    settlement: Settlement::Fulfilled(value),
                    integrity_warnings,
                    mapping_warned: false,
                },
                Err(exception) => SettleOutcome {
                    settlement: Settlement::Rejected(exception),
                    integrity_warnings,
                    mapping_warned: false,
                },
            }
        },
    }
}

} // verus!
