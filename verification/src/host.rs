use vstd::prelude::*;

verus! {

/// The largest integer the host's numeric representation stores exactly.
pub const MAX_SAFE_INTEGER: u64 = 9007199254740991;

/// What the marshalling layer reads from a host numeric value: whether it is
/// finite, whether it is integral, and the value itself when it is an integer
/// of moderate magnitude. Host numbers whose integral magnitude does not fit
/// in 64 bits are classified `Huge`; every conversion rejects them, so no
/// more than that needs to be known about them.
#[derive(Clone, Copy, PartialEq, Eq, Structural, Debug)]
pub enum NumberClass {
    /// Not a number, or an infinity.
    NotFinite,
    /// Finite with a nonzero fractional part.
    NonIntegral,
    /// Integral and negative; `magnitude` is the absolute value.
    Negative { magnitude: u64 },
    /// Integral, in `[0, 2^64)`.
    Integral { value: u64 },
    /// Integral with a magnitude of at least `2^64`, of either sign.
    Huge,
}

/// A host numeric value, as the boundary sees it: its classification and the
/// host's own printable rendering, carried so that range errors can name the
/// offending value.
#[derive(Debug)]
pub struct HostNumber {
    pub class: NumberClass,
    pub text: String,
}

/// A host-surface value crossing the boundary. Buffers are addressed by
/// their handle in the owning [`HostContext`].
#[derive(Debug)]
pub enum HostValue {
    Null,
    Undefined,
    Boolean(bool),
    Number(HostNumber),
    Text(String),
    Buffer(usize),
}

/// A host exception, by category. `Constructed` is an instance of an
/// exception class the module registered; the other variants correspond to
/// the host's built-in range, type and generic errors.
#[derive(Debug)]
pub enum HostException {
    /// An out-of-range or non-integral numeric input; names the offending
    /// value and the conversion's target type.
    Range { value_text: String, target_type: String },
    /// A value of the wrong host type; names the expected type.
    Type { expected: String },
    /// Any other failure, carrying its message.
    Generic { message: String },
    /// An instance of a registered exception class, constructed with a single
    /// argument.
    Constructed { class_name: String, argument: String },
}

/// The host runtime's state, as far as the marshalling layer observes it:
/// the byte buffers the host owns, the number of GC roots the native side
/// currently holds over host objects, and whether verbose diagnostics are
/// enabled (which widens the checksum policy).
pub struct HostContext {
    pub buffers: Vec<Vec<u8>>,
    pub live_roots: u64,
    pub verbose: bool,
}

impl HostContext {
    /// A fresh context with no buffers and no outstanding roots.
    pub fn new(verbose: bool) -> (cx: Self)
        ensures
            cx.buffers@ =~= Seq::<Vec<u8>>::empty(),
            cx.live_roots == 0,
            cx.verbose == verbose,
    {
        HostContext { buffers: Vec::new(), live_roots: 0, verbose }
    }

    /// True when `handle` addresses one of this context's buffers.
    pub open spec fn buffer_valid(self, handle: usize) -> bool {
        handle < self.buffers@.len()
    }

    /// The bytes of the buffer behind `handle`.
    pub open spec fn buffer_bytes(self, handle: usize) -> Seq<u8> {
        self.buffers@[handle as int]@
    }

    /// Allocates a host buffer holding a copy of `bytes` and returns its
    /// handle. Models the host's buffer constructor.
    pub fn alloc_buffer(&mut self, bytes: Vec<u8>) -> (handle: usize)
        ensures
            handle == old(self).buffers@.len(),
            final(self).buffers@ =~= old(self).buffers@.push(bytes),
            final(self).live_roots == old(self).live_roots,
            final(self).verbose == old(self).verbose,
            final(self).buffer_valid(handle),
            final(self).buffer_bytes(handle) == bytes@,
    {
        let handle = self.buffers.len();
        self.buffers.push(bytes);
        handle
    }

    /// Overwrites the buffer behind `handle`: the host mutating a buffer
    /// while the native side holds a borrow of it.
    pub fn mutate_buffer(&mut self, handle: usize, bytes: Vec<u8>)
        requires
            old(self).buffer_valid(handle),
        ensures
            final(self).buffers@ =~= old(self).buffers@.update(handle as int, bytes),
            final(self).live_roots == old(self).live_roots,
            final(self).verbose == old(self).verbose,
            final(self).buffer_bytes(handle) == bytes@,
    {
        self.buffers.set(handle, bytes);
    }

    /// Reads the buffer behind `handle`.
    pub fn read_buffer(&self, handle: usize) -> (bytes: &Vec<u8>)
        requires
            self.buffer_valid(handle),
        ensures
            bytes@ == self.buffer_bytes(handle),
    {
        &self.buffers[handle]
    }

    /// Takes a GC root over a host object, preventing its collection until
    /// the root is released.
    pub fn root(&mut self)
        requires
            old(self).live_roots < u64::MAX,
        ensures
            final(self).live_roots == old(self).live_roots + 1,
            final(self).buffers == old(self).buffers,
            final(self).verbose == old(self).verbose,
    {
        self.live_roots = self.live_roots + 1;
    }

    /// Releases one GC root.
    pub fn unroot(&mut self)
        requires
            old(self).live_roots > 0,
        ensures
            final(self).live_roots == old(self).live_roots - 1,
            final(self).buffers == old(self).buffers,
            final(self).verbose == old(self).verbose,
    {
        self.live_roots = self.live_roots - 1;
    }
}

} // verus!
