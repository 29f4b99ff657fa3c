use vstd::prelude::*;

verus! {

use crate::checksum::calculate_checksum_for_immutable_buffer;
use crate::checksum::checksum_spec;
use crate::host::HostContext;

/// The buffer aliasing guard: native code reads a host-owned byte buffer in
/// place, without copying, while the host remains free to mutate it. The
/// guard records a checksum when the borrow begins and compares it when the
/// borrow ends; a mismatch is surfaced as a warning to log, never a panic —
/// mutation during use is a caller bug to report, not a safety violation to
/// halt on. The checksum is a best-effort detector: a reported mismatch
/// always means the covered bytes changed, while unchanged bytes are never
/// reported.

/// A transient borrow of a host buffer, scoped to one host call. Records the
/// buffer's checksum (and, in ghost state, its full contents) at borrow
/// time; [`AssumedImmutableBuffer::release`] re-verifies on scope exit.
pub struct AssumedImmutableBuffer {
    /// The borrowed buffer's handle in its [`HostContext`].
    pub handle: usize,
    /// The buffer's length at borrow time.
    pub len: usize,
    /// The checksum recorded at borrow time.
    pub hash: u64,
    /// The diagnostic policy the checksum was computed under, fixed at
    /// borrow time so that release verifies against the same coverage.
    pub verbose: bool,
    /// The buffer's contents at borrow time.
    pub snapshot: Ghost<Seq<u8>>,
}

impl AssumedImmutableBuffer {
    /// The guard's invariant: the recorded checksum and length are those of
    /// the borrow-time snapshot.
    pub open spec fn wf(self) -> bool {
        &&& self.hash == checksum_spec(self.snapshot@, self.verbose)
        &&& self.len == self.snapshot@.len()
    }

    /// Begins the borrow: checksums the buffer behind `handle` under the
    /// context's current diagnostic policy.
    pub fn new(cx: &HostContext, handle: usize) -> (guard: Self)
        requires
            cx.buffer_valid(handle),
        ensures
            guard.wf(),
            guard.handle == handle,
            guard.verbose == cx.verbose,
            guard.snapshot@ == cx.buffer_bytes(handle),
    {
        let bytes = cx.read_buffer(handle);
        let hash = calculate_checksum_for_immutable_buffer(bytes, cx.verbose);
        AssumedImmutableBuffer {
            handle,
            len: bytes.len(),
            hash,
            verbose: cx.verbose,
            snapshot: Ghost(bytes@),
        }
    }

    /// The borrowed slice. While the host has not mutated the buffer, this
    /// is exactly the borrow-time contents.
    pub fn load<'a>(&self, cx: &'a HostContext) -> (bytes: &'a Vec<u8>)
        requires
            cx.buffer_valid(self.handle),
        ensures
            bytes@ == cx.buffer_bytes(self.handle),
    {
        cx.read_buffer(self.handle)
    }

    /// Ends the borrow: recomputes the checksum over the buffer as it now
    /// stands and compares it with the borrow-time record. Returns whether
    /// an integrity warning is owed: never for an unmutated buffer, and
    /// whenever it is returned the buffer's bytes really did change.
    pub fn release(self, cx: &HostContext) -> (warned: bool)
        requires
            cx.buffer_valid(self.handle),
        ensures
            warned == (self.hash != checksum_spec(cx.buffer_bytes(self.handle), self.verbose)),
            self.wf() && cx.buffer_bytes(self.handle) =~= self.snapshot@ ==> !warned,
            self.wf() && warned ==> !(cx.buffer_bytes(self.handle) =~= self.snapshot@),
    {
        let bytes = cx.read_buffer(self.handle);
        let now = calculate_checksum_for_immutable_buffer(bytes, self.verbose);
        self.hash != now
    }
}

/// A persistent borrow of a host buffer, for native work deferred past the
/// originating call. Takes a GC root over the buffer so the host cannot
/// reclaim it, records length and checksum once, and defers verification to
/// explicit finalization. The value must not be silently discarded: only
/// [`PersistentAssumedImmutableBuffer::finalize`] releases the root.
pub struct PersistentAssumedImmutableBuffer {
    /// The rooted buffer's handle in its [`HostContext`].
    pub handle: usize,
    /// The buffer's length, captured once at persist time.
    pub len: usize,
    /// The checksum recorded at persist time.
    pub hash: u64,
    /// The diagnostic policy fixed at persist time.
    pub verbose: bool,
    /// The buffer's contents at persist time.
    pub snapshot: Ghost<Seq<u8>>,
}

impl PersistentAssumedImmutableBuffer {
    /// The guard's invariant, as for the transient guard.
    pub open spec fn wf(self) -> bool {
        &&& self.hash == checksum_spec(self.snapshot@, self.verbose)
        &&& self.len == self.snapshot@.len()
    }

    /// Roots the buffer, then records its length and checksum. The root is
    /// what keeps reading the buffer safe after the originating call has
    /// returned.
    pub fn new(cx: &mut HostContext, handle: usize) -> (guard: Self)
        requires
            old(cx).buffer_valid(handle),
            old(cx).live_roots < u64::MAX,
        ensures
            final(cx).live_roots == old(cx).live_roots + 1,
            final(cx).buffers == old(cx).buffers,
            final(cx).verbose == old(cx).verbose,
            guard.wf(),
            guard.handle == handle,
            guard.verbose == old(cx).verbose,
            guard.snapshot@ == old(cx).buffer_bytes(handle),
    {
        cx.root();
        let bytes = cx.read_buffer(handle);
        let hash = calculate_checksum_for_immutable_buffer(bytes, cx.verbose);
        PersistentAssumedImmutableBuffer {
            handle,
            len: bytes.len(),
            hash,
            verbose: cx.verbose,
            snapshot: Ghost(bytes@),
        }
    }

    /// The persisted slice, read through the root that keeps the buffer
    /// alive.
    pub fn load<'a>(&self, cx: &'a HostContext) -> (bytes: &'a Vec<u8>)
        requires
            cx.buffer_valid(self.handle),
        ensures
            bytes@ == cx.buffer_bytes(self.handle),
    {
        cx.read_buffer(self.handle)
    }

    /// Finalizes the persistent borrow on the host's execution context:
    /// verifies the checksum over the buffer as it now stands, then releases
    /// the root. Consumes the guard, so finalization happens exactly once.
    /// Returns whether an integrity warning is owed, as for
    /// [`AssumedImmutableBuffer::release`].
    pub fn finalize(self, cx: &mut HostContext) -> (warned: bool)
        requires
            old(cx).buffer_valid(self.handle),
            old(cx).live_roots > 0,
        ensures
            final(cx).live_roots == old(cx).live_roots - 1,
            final(cx).buffers == old(cx).buffers,
            final(cx).verbose == old(cx).verbose,
            warned == (self.hash != checksum_spec(old(cx).buffer_bytes(self.handle), self.verbose)),
            self.wf() && old(cx).buffer_bytes(self.handle) =~= self.snapshot@ ==> !warned,
            self.wf() && warned ==> !(old(cx).buffer_bytes(self.handle) =~= self.snapshot@),
    {
        let warned = {
            let bytes = cx.read_buffer(self.handle);
            let now = calculate_checksum_for_immutable_buffer(bytes, self.verbose);
            self.hash != now
        };
        cx.unroot();
        warned
    }
}

} // verus!
