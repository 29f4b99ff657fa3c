use vstd::prelude::*;

verus! {

use vstd::string::StringExecFns;

use crate::host::HostContext;
use crate::host::HostException;

/// The opaque handle bridge: a native-owned value travels to the host inside
/// a wrapper object, behind a well-known property, and is recovered from the
/// wrapper when it comes back. Shared access is read-only; exclusive access
/// goes through a run-time borrow check, because the host can hold many
/// aliases of one wrapper and can re-enter native code while a borrow is
/// still outstanding. Persistent handles root the wrapper and must be
/// finalized explicitly.

/// The name of the property on host wrapper objects that carries the native
/// value.
pub open spec fn native_handle_property() -> Seq<char> {
    "_nativeHandle"@
}

/// The run-time borrow state of a wrapped native value.
#[derive(Clone, Copy, PartialEq, Eq, Structural, Debug)]
pub enum BorrowState {
    /// No borrow outstanding.
    Free,
    /// `count` shared, read-only borrows outstanding.
    Shared { count: u64 },
    /// One exclusive borrow outstanding.
    Exclusive,
}

/// A host wrapper object: carries a native value of type `T` behind the
/// well-known property, or nothing at all when the host passed an object
/// that is not a wrapper for `T`. The embedded borrow state is the run-time
/// check that detects overlapping access.
pub struct WrapperObject<T> {
    payload: Option<T>,
    state: BorrowState,
}

impl<T> WrapperObject<T> {
    /// The native value behind the well-known property, if any.
    pub closed spec fn spec_payload(self) -> Option<T> {
        self.payload
    }

    /// The current run-time borrow state.
    pub closed spec fn spec_state(self) -> BorrowState {
        self.state
    }

    /// Whether property lookup and downcast would succeed on this object.
    pub open spec fn has_payload(self) -> bool {
        self.spec_payload() is Some
    }

    /// Wraps a native value for the host: the result-conversion direction
    /// for bridged object types.
    pub fn wrap(value: T) -> (wrapper: Self)
        ensures
            wrapper.spec_payload() == Some(value),
            wrapper.spec_state() == BorrowState::Free,
    {
        WrapperObject { payload: Some(value), state: BorrowState::Free }
    }

    /// A host object that does not carry a native value: lookup on it fails
    /// with a type error.
    pub fn without_handle() -> (wrapper: Self)
        ensures
            wrapper.spec_payload() is None,
            wrapper.spec_state() == BorrowState::Free,
    {
        WrapperObject { payload: None, state: BorrowState::Free }
    }

    /// Looks up the well-known property: whether this object really wraps a
    /// native value of the expected type.
    pub fn lookup(&self) -> (found: bool)
        ensures
            found == self.has_payload(),
    {
        self.payload.is_some()
    }

    /// Takes a shared, read-only borrow. Fails exactly when an exclusive
    /// borrow is outstanding; shared borrows may overlap freely.
    pub fn try_borrow(&mut self) -> (ok: bool)
        requires
            old(self).spec_state() matches BorrowState::Shared { count } ==> count < u64::MAX,
        ensures
            ok == !(old(self).spec_state() is Exclusive),
            final(self).spec_payload() == old(self).spec_payload(),
            old(self).spec_state() is Free && ok ==> final(self).spec_state() == (
            BorrowState::Shared { count: 1 }),
            old(self).spec_state() matches BorrowState::Shared { count } ==> final(self).spec_state()
                == (BorrowState::Shared { count: (count + 1) as u64 }),
            !ok ==> final(self).spec_state() == old(self).spec_state(),
    {
        match self.state {
            BorrowState::Free => {
                self.state = BorrowState::Shared { count: 1 };
                true
            },
            BorrowState::Shared { count } => {
                self.state = BorrowState::Shared { count: count + 1 };
                true
            },
            BorrowState::Exclusive => false,
        }
    }

    /// Takes the exclusive borrow. Fails exactly when any borrow, shared or
    /// exclusive, is outstanding: overlapping exclusive access signals a
    /// reentrancy or aliasing bug and is never allowed to pass silently.
    pub fn try_borrow_mut(&mut self) -> (ok: bool)
        ensures
            ok == (old(self).spec_state() is Free),
            final(self).spec_payload() == old(self).spec_payload(),
            ok ==> final(self).spec_state() == BorrowState::Exclusive,
            !ok ==> final(self).spec_state() == old(self).spec_state(),
    {
        match self.state {
            BorrowState::Free => {
                self.state = BorrowState::Exclusive;
                true
            },
            _ => false,
        }
    }

    /// Reads the wrapped value through an outstanding shared borrow.
    pub fn read(&self) -> (value: &T)
        requires
            self.has_payload(),
            self.spec_state() matches BorrowState::Shared { count } && count >= 1,
        ensures
            self.spec_payload() == Some(*value),
    {
        self.payload.as_ref().unwrap()
    }

    /// Replaces the wrapped value through the outstanding exclusive borrow,
    /// returning the previous value.
    pub fn replace(&mut self, value: T) -> (prev: T)
        requires
            old(self).has_payload(),
            old(self).spec_state() is Exclusive,
        ensures
            old(self).spec_payload() == Some(prev),
            final(self).spec_payload() == Some(value),
            final(self).spec_state() == BorrowState::Exclusive,
    {
        let prev = self.payload.take().unwrap();
        self.payload = Some(value);
        prev
    }

    /// Releases one shared borrow.
    pub fn release_shared(&mut self)
        requires
            old(self).spec_state() matches BorrowState::Shared { count } && count >= 1,
        ensures
            final(self).spec_payload() == old(self).spec_payload(),
            old(self).spec_state() matches BorrowState::Shared { count } && final(self).spec_state()
                == (if count == 1 {
                BorrowState::Free
            } else {
                BorrowState::Shared { count: (count - 1) as u64 }
            }),
    {
        match self.state {
            BorrowState::Shared { count } => {
                if count == 1 {
                    self.state = BorrowState::Free;
                } else {
                    self.state = BorrowState::Shared { count: count - 1 };
                }
            },
            _ => {},
        }
    }

    /// Releases the exclusive borrow.
    pub fn release_mut(&mut self)
        requires
            old(self).spec_state() is Exclusive,
        ensures
            final(self).spec_payload() == old(self).spec_payload(),
            final(self).spec_state() == BorrowState::Free,
    {
        self.state = BorrowState::Free;
    }
}

/// A persistent handle to a native value embedded in a host wrapper: a GC
/// root over the wrapper plus the payload validated at persist time. The
/// root keeps the wrapper — and with it the embedded value — alive until
/// explicit finalization; the handle must never be silently discarded.
pub struct PersistentBoxedValue<T> {
    /// The embedded value as validated when the handle was created. Reading
    /// through the handle is sound only while the rooted wrapper still
    /// carries this value, which the root guarantees.
    pub expected: Ghost<T>,
}

impl<T> PersistentBoxedValue<T> {
    /// Persists `wrapper`: looks up and validates the embedded native value
    /// first, and only then creates the root — a failed conversion must
    /// never leave a root behind needing cleanup. On an object that is not a
    /// wrapper, fails with a type error naming the well-known property, and
    /// leaves the context untouched.
    pub fn new(cx: &mut HostContext, wrapper: &WrapperObject<T>) -> (r: Result<
        PersistentBoxedValue<T>,
        HostException,
    >)
        requires
            old(cx).live_roots < u64::MAX,
        ensures
            wrapper.has_payload() ==> (r matches Ok(handle) && wrapper.spec_payload() == Some(
                handle.expected@,
            )),
            wrapper.has_payload() ==> final(cx).live_roots == old(cx).live_roots + 1,
            !wrapper.has_payload() ==> (r matches Err(e) && e matches HostException::Type { expected }
                && expected@ == native_handle_property()),
            !wrapper.has_payload() ==> final(cx).live_roots == old(cx).live_roots,
            final(cx).buffers == old(cx).buffers,
            final(cx).verbose == old(cx).verbose,
    {
        if wrapper.lookup() {
            let ghost validated = wrapper.spec_payload().unwrap();
            let handle = PersistentBoxedValue { expected: Ghost(validated) };
            cx.root();
            Ok(handle)
        } else {
            Err(HostException::Type { expected: String::from_str("_nativeHandle") })
        }
    }

    /// Reads the persisted value. The caller asserts, and the contract
    /// records, that the rooted wrapper still carries the validated value:
    /// the "asserted external liveness" this bridge rests on.
    pub fn value<'a>(&self, wrapper: &'a WrapperObject<T>) -> (value: &'a T)
        requires
            wrapper.spec_payload() == Some(self.expected@),
        ensures
            *value == self.expected@,
    {
        wrapper.read_unchecked()
    }

    /// Finalizes the handle on the host's execution context, releasing its
    /// root. Consumes the handle, so finalization happens exactly once.
    pub fn finalize(self, cx: &mut HostContext)
        requires
            old(cx).live_roots > 0,
        ensures
            final(cx).live_roots == old(cx).live_roots - 1,
            final(cx).buffers == old(cx).buffers,
            final(cx).verbose == old(cx).verbose,
    {
        cx.unroot();
    }
}

impl<T> WrapperObject<T> {
    /// Reads the embedded value without touching the borrow state: the
    /// persistent bridge's access path, which relies on its root rather than
    /// the transient borrow check.
    fn read_unchecked(&self) -> (value: &T)
        requires
            self.has_payload(),
        ensures
            self.spec_payload() == Some(*value),
    {
        self.payload.as_ref().unwrap()
    }
}

} // verus!
