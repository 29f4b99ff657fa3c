use vstd::prelude::*;

verus! {

use vstd::string::StringExecFns;

use crate::codec::can_convert_js_number_to_int;
use crate::codec::dec_rep;
use crate::codec::int_in_range;
use crate::codec::number_from_i32;
use crate::codec::number_from_u64;
use crate::codec::u64_of_number;
use crate::host::HostContext;
use crate::host::HostException;
use crate::host::HostNumber;
use crate::host::HostValue;
use crate::host::MAX_SAFE_INTEGER;

/// The conversion contracts. Arguments travel host → native; results travel
/// native → host, on the host's execution context only. The synchronous
/// contract ([`ArgTypeInfo`]) borrows storage scoped to one host call; the
/// asynchronous contract ([`AsyncArgTypeInfo`]) persists storage that
/// outlives the call and must be finalized exactly once. Each trait carries
/// its functional specification as associated spec functions, so every
/// implementation pins its behavior exactly.

/// A conversion that needs no local storage: the native value is produced
/// directly from the host value.
pub trait SimpleArgTypeInfo: Sized {
    /// Which host values carry this type: the boundary's type-tag check.
    spec fn accepts(v: HostValue) -> bool;

    /// The name of the expected host form, for type errors.
    spec fn expected_type() -> Seq<char>;

    /// Exactly what `convert_from` returns for an accepted host value.
    spec fn convert_ensures(v: HostValue, r: Result<Self, HostException>) -> bool;

    /// The run-time type-tag check: whether `foreign` downcasts to this
    /// conversion's expected host form.
    fn downcast(foreign: &HostValue) -> (ok: bool)
        ensures
            ok == Self::accepts(*foreign),
    ;

    /// The name of the expected host form.
    fn expected_name() -> (s: String)
        ensures
            s@ == Self::expected_type(),
    ;

    /// Converts an already-downcast host value to its native form.
    fn convert_from(foreign: &HostValue) -> (r: Result<Self, HostException>)
        requires
            Self::accepts(*foreign),
        ensures
            Self::convert_ensures(*foreign, r),
    ;
}

/// Exactly what converting a host number to an unsigned integer of range
/// `[0, max]` returns: the value when the number is an integer in range, and
/// otherwise a range error naming the offending value and the target type.
pub open spec fn int_convert_ensures(
    n: HostNumber,
    max: u64,
    target_name: Seq<char>,
    r: Result<u64, HostException>,
) -> bool {
    if int_in_range(n.class, max) {
        r == Ok::<u64, HostException>(u64_of_number(n.class))
    } else {
        r matches Err(e) && e matches HostException::Range { value_text, target_type }
            && value_text@ == n.text@ && target_type@ == target_name
    }
}

/// Converts a host number to an integer in `[0, max]`, or reports a range
/// error naming the value and the target type.
fn convert_int_arg(n: &HostNumber, max: u64, target_name: String) -> (r: Result<u64, HostException>)
    ensures
        int_convert_ensures(*n, max, target_name@, r),
{
    if can_convert_js_number_to_int(n, max) {
        match n.class {
            crate::host::NumberClass::Integral { value } => Ok(value),
            _ => {
                proof {
                    assert(false);
                }
                Err(HostException::Generic { message: String::new() })
            },
        }
    } else {
        Err(
            HostException::Range {
                value_text: n.text.clone(),
                target_type: target_name,
            },
        )
    }
}

/// Converts non-negative host numbers up to [`MAX_SAFE_INTEGER`]: beyond it
/// the host's numeric type could not have represented the value exactly.
impl SimpleArgTypeInfo for u64 {
    open spec fn accepts(v: HostValue) -> bool {
        v is Number
    }

    open spec fn expected_type() -> Seq<char> {
        "number"@
    }

    open spec fn convert_ensures(v: HostValue, r: Result<u64, HostException>) -> bool {
        v matches HostValue::Number(n) ==> int_convert_ensures(n, MAX_SAFE_INTEGER, "u64"@, r)
    }

    fn downcast(foreign: &HostValue) -> (ok: bool) {
        match foreign {
            HostValue::Number(_) => true,
            _ => false,
        }
    }

    fn expected_name() -> (s: String) {
        String::from_str("number")
    }

    fn convert_from(foreign: &HostValue) -> (r: Result<u64, HostException>) {
        match foreign {
            HostValue::Number(n) => convert_int_arg(n, MAX_SAFE_INTEGER, String::from_str("u64")),
            _ => {
                proof {
                    assert(false);
                }
                Err(HostException::Generic { message: String::new() })
            },
        }
    }
}

/// Converts all valid `u8` values.
impl SimpleArgTypeInfo for u8 {
    open spec fn accepts(v: HostValue) -> bool {
        v is Number
    }

    open spec fn expected_type() -> Seq<char> {
        "number"@
    }

    open spec fn convert_ensures(v: HostValue, r: Result<u8, HostException>) -> bool {
        v matches HostValue::Number(n) ==> {
            if int_in_range(n.class, u8::MAX as u64) {
                r == Ok::<u8, HostException>(u64_of_number(n.class) as u8)
            } else {
                r matches Err(e) && e matches HostException::Range { value_text, target_type }
                    && value_text@ == n.text@ && target_type@ == "u8"@
            }
        }
    }

    fn downcast(foreign: &HostValue) -> (ok: bool) {
        match foreign {
            HostValue::Number(_) => true,
            _ => false,
        }
    }

    fn expected_name() -> (s: String) {
        String::from_str("number")
    }

    fn convert_from(foreign: &HostValue) -> (r: Result<u8, HostException>) {
        match foreign {
            HostValue::Number(n) => {
                match convert_int_arg(n, u8::MAX as u64, String::from_str("u8")) {
                    Ok(value) => Ok(value as u8),
                    Err(e) => Err(e),
                }
            },
            _ => {
                proof {
                    assert(false);
                }
                Err(HostException::Generic { message: String::new() })
            },
        }
    }
}

/// Converts all valid `u32` values.
impl SimpleArgTypeInfo for u32 {
    open spec fn accepts(v: HostValue) -> bool {
        v is Number
    }

    open spec fn expected_type() -> Seq<char> {
        "number"@
    }

    open spec fn convert_ensures(v: HostValue, r: Result<u32, HostException>) -> bool {
        v matches HostValue::Number(n) ==> {
            if int_in_range(n.class, u32::MAX as u64) {
                r == Ok::<u32, HostException>(u64_of_number(n.class) as u32)
            } else {
                r matches Err(e) && e matches HostException::Range { value_text, target_type }
                    && value_text@ == n.text@ && target_type@ == "u32"@
            }
        }
    }

    fn downcast(foreign: &HostValue) -> (ok: bool) {
        match foreign {
            HostValue::Number(_) => true,
            _ => false,
        }
    }

    fn expected_name() -> (s: String) {
        String::from_str("number")
    }

    fn convert_from(foreign: &HostValue) -> (r: Result<u32, HostException>) {
        match foreign {
            HostValue::Number(n) => {
                match convert_int_arg(n, u32::MAX as u64, String::from_str("u32")) {
                    Ok(value) => Ok(value as u32),
                    Err(e) => Err(e),
                }
            },
            _ => {
                proof {
                    assert(false);
                }
                Err(HostException::Generic { message: String::new() })
            },
        }
    }
}

/// Converts all valid non-negative `i32` values, as the boundary declares
/// for signed arguments.
impl SimpleArgTypeInfo for i32 {
    open spec fn accepts(v: HostValue) -> bool {
        v is Number
    }

    open spec fn expected_type() -> Seq<char> {
        "number"@
    }

    open spec fn convert_ensures(v: HostValue, r: Result<i32, HostException>) -> bool {
        v matches HostValue::Number(n) ==> {
            if int_in_range(n.class, i32::MAX as u64) {
                r == Ok::<i32, HostException>(u64_of_number(n.class) as i32)
            } else {
                r matches Err(e) && e matches HostException::Range { value_text, target_type }
                    && value_text@ == n.text@ && target_type@ == "i32"@
            }
        }
    }

    fn downcast(foreign: &HostValue) -> (ok: bool) {
        match foreign {
            HostValue::Number(_) => true,
            _ => false,
        }
    }

    fn expected_name() -> (s: String) {
        String::from_str("number")
    }

    fn convert_from(foreign: &HostValue) -> (r: Result<i32, HostException>) {
        match foreign {
            HostValue::Number(n) => {
                match convert_int_arg(n, i32::MAX as u64, String::from_str("i32")) {
                    Ok(value) => Ok(value as i32),
                    Err(e) => Err(e),
                }
            },
            _ => {
                proof {
                    assert(false);
                }
                Err(HostException::Generic { message: String::new() })
            },
        }
    }
}

/// Strings convert losslessly; only the type-tag check can fail.
impl SimpleArgTypeInfo for String {
    open spec fn accepts(v: HostValue) -> bool {
        v is Text
    }

    open spec fn expected_type() -> Seq<char> {
        "string"@
    }

    open spec fn convert_ensures(v: HostValue, r: Result<String, HostException>) -> bool {
        v matches HostValue::Text(s) ==> r == Ok::<String, HostException>(s)
    }

    fn downcast(foreign: &HostValue) -> (ok: bool) {
        match foreign {
            HostValue::Text(_) => true,
            _ => false,
        }
    }

    fn expected_name() -> (s: String) {
        String::from_str("string")
    }

    fn convert_from(foreign: &HostValue) -> (r: Result<String, HostException>) {
        match foreign {
            HostValue::Text(s) => Ok(s.clone()),
            _ => {
                proof {
                    assert(false);
                }
                Err(HostException::Generic { message: String::new() })
            },
        }
    }
}

/// Booleans convert losslessly; only the type-tag check can fail.
impl SimpleArgTypeInfo for bool {
    open spec fn accepts(v: HostValue) -> bool {
        v is Boolean
    }

    open spec fn expected_type() -> Seq<char> {
        "boolean"@
    }

    open spec fn convert_ensures(v: HostValue, r: Result<bool, HostException>) -> bool {
        v matches HostValue::Boolean(b) ==> r == Ok::<bool, HostException>(b)
    }

    fn downcast(foreign: &HostValue) -> (ok: bool) {
        match foreign {
            HostValue::Boolean(_) => true,
            _ => false,
        }
    }

    fn expected_name() -> (s: String) {
        String::from_str("boolean")
    }

    fn convert_from(foreign: &HostValue) -> (r: Result<bool, HostException>) {
        match foreign {
            HostValue::Boolean(b) => Ok(*b),
            _ => {
                proof {
                    assert(false);
                }
                Err(HostException::Generic { message: String::new() })
            },
        }
    }
}

/// The synchronous conversion contract: each argument passes through two
/// states, borrowed storage (`borrow`) and consumed (`load_from`, exactly
/// once for move-once storage). Storage is scoped to the originating host
/// call.
pub trait ArgTypeInfo: Sized {
    /// Local storage for the argument, scoped to the call.
    type StoredType;

    /// Which host values carry this type: the boundary's type-tag check.
    spec fn accepts(v: HostValue) -> bool;

    /// The name of the expected host form, for type errors.
    spec fn expected_type() -> Seq<char>;

    /// Exactly what `borrow` returns for an accepted host value.
    spec fn borrow_ensures(v: HostValue, r: Result<Self::StoredType, HostException>) -> bool;

    /// Whether the storage may still be loaded: false once a move-once
    /// value has been consumed.
    spec fn can_load(s: Self::StoredType) -> bool;

    /// Exactly how `load_from` relates the storage before and after the
    /// load to the loaded native value.
    spec fn load_ensures(pre: Self::StoredType, post: Self::StoredType, r: Self) -> bool;

    /// The run-time type-tag check.
    fn downcast(foreign: &HostValue) -> (ok: bool)
        ensures
            ok == Self::accepts(*foreign),
    ;

    /// The name of the expected host form.
    fn expected_name() -> (s: String)
        ensures
            s@ == Self::expected_type(),
    ;

    /// Converts the host value into call-local storage. On success the
    /// storage is ready to be loaded.
    fn borrow(foreign: &HostValue) -> (r: Result<Self::StoredType, HostException>)
        requires
            Self::accepts(*foreign),
        ensures
            Self::borrow_ensures(*foreign, r),
            r matches Ok(s) ==> Self::can_load(s),
    ;

    /// Loads the native value out of the storage. The precondition rules
    /// out a second load of a move-once value: loading twice is a
    /// programming error the contract makes unrepresentable.
    fn load_from(stored: &mut Self::StoredType) -> (r: Self)
        requires
            Self::can_load(*old(stored)),
        ensures
            Self::load_ensures(*old(stored), *final(stored), r),
    ;
}

/// Every storage-free conversion is a synchronous conversion whose storage
/// is the converted value itself, consumed by the one permitted load.
impl<T: SimpleArgTypeInfo> ArgTypeInfo for T {
    type StoredType = Option<T>;

    open spec fn accepts(v: HostValue) -> bool {
        T::accepts(v)
    }

    open spec fn expected_type() -> Seq<char> {
        T::expected_type()
    }

    open spec fn borrow_ensures(v: HostValue, r: Result<Option<T>, HostException>) -> bool {
        match r {
            Ok(s) => s matches Some(x) && T::convert_ensures(v, Ok(x)),
            Err(e) => T::convert_ensures(v, Err(e)),
        }
    }

    open spec fn can_load(s: Option<T>) -> bool {
        s is Some
    }

    open spec fn load_ensures(pre: Option<T>, post: Option<T>, r: T) -> bool {
        pre == Some(r) && post is None
    }

    fn downcast(foreign: &HostValue) -> (ok: bool) {
        T::downcast(foreign)
    }

    fn expected_name() -> (s: String) {
        T::expected_name()
    }

    fn borrow(foreign: &HostValue) -> (r: Result<Option<T>, HostException>) {
        match T::convert_from(foreign) {
            Ok(value) => Ok(Some(value)),
            Err(e) => Err(e),
        }
    }

    fn load_from(stored: &mut Option<T>) -> (r: T) {
        stored.take().unwrap()
    }
}

/// The optional adapter, synchronous side: host `null` becomes absence for
/// any element type; any other value must downcast to the element's host
/// form or the conversion fails with a type error; a downcast value is
/// delegated to the element conversion unchanged. Absence needs no storage
/// and loads as `None` any number of times.
impl<U: ArgTypeInfo> ArgTypeInfo for Option<U> {
    type StoredType = Option<U::StoredType>;

    open spec fn accepts(v: HostValue) -> bool {
        true
    }

    open spec fn expected_type() -> Seq<char> {
        U::expected_type()
    }

    open spec fn borrow_ensures(v: HostValue, r: Result<Option<U::StoredType>, HostException>) -> bool {
        &&& v is Null ==> (r matches Ok(s) && s is None)
        &&& !(v is Null) && !U::accepts(v) ==> (r matches Err(e) && e matches HostException::Type {
            expected,
        } && expected@ == U::expected_type())
        &&& !(v is Null) && U::accepts(v) ==> (match r {
            Ok(s) => s matches Some(inner) && U::borrow_ensures(v, Ok(inner)),
            Err(e) => U::borrow_ensures(v, Err(e)),
        })
    }

    open spec fn can_load(s: Option<U::StoredType>) -> bool {
        s matches Some(inner) ==> U::can_load(inner)
    }

    open spec fn load_ensures(
        pre: Option<U::StoredType>,
        post: Option<U::StoredType>,
        r: Option<U>,
    ) -> bool {
        &&& pre is None ==> r is None && post is None
        &&& pre matches Some(pi) ==> (r matches Some(x) && post matches Some(po)
            && U::load_ensures(pi, po, x))
    }

    fn downcast(foreign: &HostValue) -> (ok: bool) {
        true
    }

    fn expected_name() -> (s: String) {
        U::expected_name()
    }

    fn borrow(foreign: &HostValue) -> (r: Result<Option<U::StoredType>, HostException>) {
        match foreign {
            HostValue::Null => Ok(None),
            _ => {
                if U::downcast(foreign) {
                    match U::borrow(foreign) {
                        Ok(inner) => Ok(Some(inner)),
                        Err(e) => Err(e),
                    }
                } else {
                    Err(HostException::Type { expected: U::expected_name() })
                }
            },
        }
    }

    fn load_from(stored: &mut Option<U::StoredType>) -> (r: Option<U>) {
        match stored.take() {
            None => None,
            Some(mut inner) => {
                let value = U::load_from(&mut inner);
                *stored = Some(inner);
                Some(value)
            },
        }
    }
}

/// Borrows every argument of a synchronous call, in order. Conversion
/// errors never partially apply: on the first argument that fails its
/// type-tag check or its conversion, the error surfaces and no storage is
/// handed out, so no argument is ever consumed. Transient storage borrows
/// nothing that needs cleanup, so the ones already borrowed are simply
/// discarded.
pub fn borrow_all<T: ArgTypeInfo>(args: &Vec<HostValue>) -> (r: Result<
    Vec<T::StoredType>,
    HostException,
>)
    ensures
        r matches Ok(storages) ==> {
            &&& storages@.len() == args@.len()
            &&& forall|i: int| 0 <= i < args@.len() ==> T::accepts(#[trigger] args@[i])
            &&& forall|i: int|
                0 <= i < args@.len() ==> T::borrow_ensures(args@[i], Ok(#[trigger] storages@[i]))
            &&& forall|i: int| 0 <= i < storages@.len() ==> T::can_load(#[trigger] storages@[i])
        },
        r matches Err(e) ==> exists|k: int|
            0 <= k < args@.len() && ((e matches HostException::Type { expected } && !T::accepts(
                #[trigger] args@[k],
            ) && expected@ == T::expected_type()) || (T::accepts(args@[k]) && T::borrow_ensures(
                args@[k],
                Err(e),
            ))),
{
    let mut storages: Vec<T::StoredType> = Vec::new();
    let mut i: usize = 0;
    while i < args.len()
        invariant
            i <= args@.len(),
            storages@.len() == i,
            forall|j: int| 0 <= j < i ==> T::accepts(#[trigger] args@[j]),
            forall|j: int|
                0 <= j < i ==> T::borrow_ensures(args@[j], Ok(#[trigger] storages@[j])),
            forall|j: int| 0 <= j < i ==> T::can_load(#[trigger] storages@[j]),
        decreases args@.len() - i,
    {
        let arg = &args[i];
        if !T::downcast(arg) {
            let ghost failed_at = i as int;
            proof {
                assert(!T::accepts(args@[failed_at]));
            }
            return Err(HostException::Type { expected: T::expected_name() });
        }
        match T::borrow(arg) {
            Ok(stored) => {
                storages.push(stored);
            },
            Err(e) => {
                let ghost failed_at = i as int;
                proof {
                    assert(T::accepts(args@[failed_at]) && T::borrow_ensures(
                        args@[failed_at],
                        Err(e),
                    ));
                }
                return Err(e);
            },
        }
        i = i + 1;
    }
    Ok(storages)
}

/// Storage that outlives its originating host call. It owns a known number
/// of GC roots and must be finalized on the host's execution context,
/// exactly once, before it is discarded — `finalize` consumes the value, so
/// a finalized storage cannot be finalized again, and the contract accounts
/// for every root it releases.
pub trait PersistentStorage: Sized {
    /// How many GC roots this storage holds.
    spec fn roots(self) -> nat;

    /// What this storage needs of the context to be finalized (for a rooted
    /// buffer, that its handle is still valid).
    spec fn valid(self, cx: HostContext) -> bool;

    /// Whether finalizing under `cx` owes an integrity warning.
    spec fn finalize_warns(self, cx: HostContext) -> bool;

    /// What finalization needs and reports depends only on the host's
    /// buffers and diagnostic policy, never on the root count: finalizing
    /// one storage cannot change what finalizing the next will find.
    proof fn context_independent(self, cx1: HostContext, cx2: HostContext)
        requires
            cx1.buffers == cx2.buffers,
            cx1.verbose == cx2.verbose,
        ensures
            self.valid(cx1) == self.valid(cx2),
            self.finalize_warns(cx1) == self.finalize_warns(cx2),
    ;

    /// Finalizes the storage: verifies its safety invariants and releases
    /// every root it holds. Returns whether an integrity warning is owed.
    fn finalize(self, cx: &mut HostContext) -> (warned: bool)
        requires
            self.valid(*old(cx)),
            old(cx).live_roots >= self.roots(),
        ensures
            final(cx).live_roots == old(cx).live_roots - self.roots(),
            final(cx).buffers == old(cx).buffers,
            final(cx).verbose == old(cx).verbose,
            warned == self.finalize_warns(*old(cx)),
    ;
}

/// Storage that holds no roots and needs no cleanup: finalization is a
/// no-op. Wraps the plain values produced by storage-free conversions.
pub struct DefaultFinalize<T>(pub T);

impl<T> PersistentStorage for DefaultFinalize<T> {
    open spec fn roots(self) -> nat {
        0
    }

    open spec fn valid(self, cx: HostContext) -> bool {
        true
    }

    open spec fn finalize_warns(self, cx: HostContext) -> bool {
        false
    }

    proof fn context_independent(self, cx1: HostContext, cx2: HostContext) {
    }

    fn finalize(self, cx: &mut HostContext) -> (warned: bool) {
        false
    }
}

/// Optional persistent storage: if a value is present its storage is
/// finalized; absence is not a resource and needs no finalization action.
pub struct FinalizableOption<S: PersistentStorage> {
    pub inner: Option<S>,
}

impl<S: PersistentStorage> PersistentStorage for FinalizableOption<S> {
    open spec fn roots(self) -> nat {
        match self.inner {
            Some(s) => s.roots(),
            None => 0,
        }
    }

    open spec fn valid(self, cx: HostContext) -> bool {
        self.inner matches Some(s) ==> s.valid(cx)
    }

    open spec fn finalize_warns(self, cx: HostContext) -> bool {
        match self.inner {
            Some(s) => s.finalize_warns(cx),
            None => false,
        }
    }

    proof fn context_independent(self, cx1: HostContext, cx2: HostContext) {
        match self.inner {
            Some(s) => s.context_independent(cx1, cx2),
            None => {},
        }
    }

    fn finalize(self, cx: &mut HostContext) -> (warned: bool) {
        match self.inner {
            Some(s) => s.finalize(cx),
            None => false,
        }
    }
}

/// A rooted buffer is persistent storage holding one root; finalizing it
/// re-verifies the checksum recorded when the buffer was persisted.
impl PersistentStorage for crate::buffer::PersistentAssumedImmutableBuffer {
    open spec fn roots(self) -> nat {
        1
    }

    open spec fn valid(self, cx: HostContext) -> bool {
        cx.buffer_valid(self.handle)
    }

    open spec fn finalize_warns(self, cx: HostContext) -> bool {
        self.hash != crate::checksum::checksum_spec(cx.buffer_bytes(self.handle), self.verbose)
    }

    proof fn context_independent(self, cx1: HostContext, cx2: HostContext) {
    }

    fn finalize(self, cx: &mut HostContext) -> (warned: bool) {
        crate::buffer::PersistentAssumedImmutableBuffer::finalize(self, cx)
    }
}

/// A persistent object handle is persistent storage holding one root; it
/// has no checksum to verify, so finalizing it only releases the root.
impl<T> PersistentStorage for crate::object::PersistentBoxedValue<T> {
    open spec fn roots(self) -> nat {
        1
    }

    open spec fn valid(self, cx: HostContext) -> bool {
        true
    }

    open spec fn finalize_warns(self, cx: HostContext) -> bool {
        false
    }

    proof fn context_independent(self, cx1: HostContext, cx2: HostContext) {
    }

    fn finalize(self, cx: &mut HostContext) -> (warned: bool) {
        crate::object::PersistentBoxedValue::finalize(self, cx);
        false
    }
}

/// The asynchronous conversion contract: like [`ArgTypeInfo`], but the
/// storage must not borrow from the originating call — it is self-contained,
/// may hold GC roots, and carries explicit finalization. The contract
/// accounts for roots at creation: a successful save holds exactly the
/// storage's roots, and a failed save holds none, so a failed conversion
/// never leaves a root behind needing cleanup.
pub trait AsyncArgTypeInfo: Sized {
    /// Persistent storage for the argument.
    type StoredType: PersistentStorage;

    /// Which host values carry this type: the boundary's type-tag check.
    spec fn accepts(v: HostValue) -> bool;

    /// The name of the expected host form, for type errors.
    spec fn expected_type() -> Seq<char>;

    /// Exactly what `save_async_arg` returns for an accepted host value.
    spec fn save_ensures(v: HostValue, r: Result<Self::StoredType, HostException>) -> bool;

    /// Whether the storage may still be loaded: false once a move-once
    /// value has been consumed.
    spec fn can_load(s: Self::StoredType) -> bool;

    /// Exactly how `load_async_arg` relates the storage before and after
    /// the load to the loaded native value.
    spec fn load_ensures(pre: Self::StoredType, post: Self::StoredType, r: Self) -> bool;

    /// The run-time type-tag check.
    fn downcast(foreign: &HostValue) -> (ok: bool)
        ensures
            ok == Self::accepts(*foreign),
    ;

    /// The name of the expected host form.
    fn expected_name() -> (s: String)
        ensures
            s@ == Self::expected_type(),
    ;

    /// Converts the host value into persistent storage, on the host's
    /// execution context, taking whatever roots the storage needs.
    fn save_async_arg(cx: &mut HostContext, foreign: &HostValue) -> (r: Result<
        Self::StoredType,
        HostException,
    >)
        requires
            Self::accepts(*foreign),
            old(cx).live_roots < u64::MAX,
        ensures
            Self::save_ensures(*foreign, r),
            final(cx).buffers == old(cx).buffers,
            final(cx).verbose == old(cx).verbose,
            r matches Ok(s) ==> final(cx).live_roots == old(cx).live_roots + s.roots()
                && s.roots() <= 1 && s.valid(*final(cx)) && Self::can_load(s),
            r matches Err(_) ==> final(cx).live_roots == old(cx).live_roots,
    ;

    /// Loads the native value out of the persisted storage, possibly on a
    /// worker. Loading never disturbs what finalization will do: the
    /// storage keeps its roots, validity and verdict.
    fn load_async_arg(stored: &mut Self::StoredType) -> (r: Self)
        requires
            Self::can_load(*old(stored)),
        ensures
            Self::load_ensures(*old(stored), *final(stored), r),
            final(stored).roots() == old(stored).roots(),
            forall|cx: HostContext| #![auto]
                final(stored).valid(cx) == old(stored).valid(cx),
            forall|cx: HostContext| #![auto]
                final(stored).finalize_warns(cx) == old(stored).finalize_warns(cx),
    ;
}

/// Every storage-free conversion persists as its converted value behind a
/// no-op finalizer.
impl<T: SimpleArgTypeInfo> AsyncArgTypeInfo for T {
    type StoredType = DefaultFinalize<Option<T>>;

    open spec fn accepts(v: HostValue) -> bool {
        T::accepts(v)
    }

    open spec fn expected_type() -> Seq<char> {
        T::expected_type()
    }

    open spec fn save_ensures(v: HostValue, r: Result<DefaultFinalize<Option<T>>, HostException>) -> bool {
        match r {
            Ok(s) => s.0 matches Some(x) && T::convert_ensures(v, Ok(x)),
            Err(e) => T::convert_ensures(v, Err(e)),
        }
    }

    open spec fn can_load(s: DefaultFinalize<Option<T>>) -> bool {
        s.0 is Some
    }

    open spec fn load_ensures(
        pre: DefaultFinalize<Option<T>>,
        post: DefaultFinalize<Option<T>>,
        r: T,
    ) -> bool {
        pre.0 == Some(r) && post.0 is None
    }

    fn downcast(foreign: &HostValue) -> (ok: bool) {
        T::downcast(foreign)
    }

    fn expected_name() -> (s: String) {
        T::expected_name()
    }

    fn save_async_arg(cx: &mut HostContext, foreign: &HostValue) -> (r: Result<
        DefaultFinalize<Option<T>>,
        HostException,
    >) {
        match T::convert_from(foreign) {
            Ok(value) => Ok(DefaultFinalize(Some(value))),
            Err(e) => Err(e),
        }
    }

    fn load_async_arg(stored: &mut DefaultFinalize<Option<T>>) -> (r: T) {
        stored.0.take().unwrap()
    }
}

/// The optional adapter, asynchronous side: host `null` persists as absent
/// storage holding no roots; any other value must downcast to the element's
/// host form or the save fails with a type error before anything is rooted;
/// a downcast value delegates to the element contract, and its storage's
/// finalization carries over.
impl<T: AsyncArgTypeInfo> AsyncArgTypeInfo for Option<T> {
    type StoredType = FinalizableOption<T::StoredType>;

    open spec fn accepts(v: HostValue) -> bool {
        true
    }

    open spec fn expected_type() -> Seq<char> {
        T::expected_type()
    }

    open spec fn save_ensures(
        v: HostValue,
        r: Result<FinalizableOption<T::StoredType>, HostException>,
    ) -> bool {
        &&& v is Null ==> (r matches Ok(s) && s.inner is None)
        &&& !(v is Null) && !T::accepts(v) ==> (r matches Err(e) && e matches HostException::Type {
            expected,
        } && expected@ == T::expected_type())
        &&& !(v is Null) && T::accepts(v) ==> (match r {
            Ok(s) => s.inner matches Some(inner) && T::save_ensures(v, Ok(inner)),
            Err(e) => T::save_ensures(v, Err(e)),
        })
    }

    open spec fn can_load(s: FinalizableOption<T::StoredType>) -> bool {
        s.inner matches Some(inner) ==> T::can_load(inner)
    }

    open spec fn load_ensures(
        pre: FinalizableOption<T::StoredType>,
        post: FinalizableOption<T::StoredType>,
        r: Option<T>,
    ) -> bool {
        &&& pre.inner is None ==> r is None && post.inner is None
        &&& pre.inner matches Some(pi) ==> (r matches Some(x) && post.inner matches Some(po)
            && T::load_ensures(pi, po, x))
    }

    fn downcast(foreign: &HostValue) -> (ok: bool) {
        true
    }

    fn expected_name() -> (s: String) {
        T::expected_name()
    }

    fn save_async_arg(cx: &mut HostContext, foreign: &HostValue) -> (r: Result<
        FinalizableOption<T::StoredType>,
        HostException,
    >) {
        match foreign {
            HostValue::Null => Ok(FinalizableOption { inner: None }),
            _ => {
                if T::downcast(foreign) {
                    match T::save_async_arg(cx, foreign) {
                        Ok(inner) => Ok(FinalizableOption { inner: Some(inner) }),
                        Err(e) => Err(e),
                    }
                } else {
                    Err(HostException::Type { expected: T::expected_name() })
                }
            },
        }
    }

    fn load_async_arg(stored: &mut FinalizableOption<T::StoredType>) -> (r: Option<T>) {
        match stored.inner.take() {
            None => None,
            Some(mut inner) => {
                let value = T::load_async_arg(&mut inner);
                stored.inner = Some(inner);
                Some(value)
            },
        }
    }
}

/// The result contract: a native value becomes a host value on the host's
/// execution context, immediately before the call returns (or the deferred
/// result settles); it is never deferred further. Converting may allocate
/// host buffers but never takes roots, and existing buffers are untouched,
/// so every handle taken earlier stays valid.
pub trait ResultTypeInfo: Sized {
    /// Exactly what `convert_into` returns and how it extends the context.
    spec fn convert_into_ensures(
        self,
        cx_pre: HostContext,
        cx_post: HostContext,
        r: Result<HostValue, HostException>,
    ) -> bool;

    /// Converts the native value to its host form.
    fn convert_into(self, cx: &mut HostContext) -> (r: Result<HostValue, HostException>)
        ensures
            Self::convert_into_ensures(self, *old(cx), *final(cx), r),
            final(cx).live_roots == old(cx).live_roots,
            final(cx).verbose == old(cx).verbose,
            old(cx).buffers@.is_prefix_of(final(cx).buffers@),
    ;
}

impl ResultTypeInfo for bool {
    open spec fn convert_into_ensures(
        self,
        cx_pre: HostContext,
        cx_post: HostContext,
        r: Result<HostValue, HostException>,
    ) -> bool {
        r == Ok::<HostValue, HostException>(HostValue::Boolean(self)) && cx_post == cx_pre
    }

    fn convert_into(self, cx: &mut HostContext) -> (r: Result<HostValue, HostException>) {
        Ok(HostValue::Boolean(self))
    }
}

/// Converts non-negative values up to [`MAX_SAFE_INTEGER`]; above it the
/// host could only approximate the value, so the conversion fails rather
/// than silently losing precision.
impl ResultTypeInfo for u64 {
    open spec fn convert_into_ensures(
        self,
        cx_pre: HostContext,
        cx_post: HostContext,
        r: Result<HostValue, HostException>,
    ) -> bool {
        &&& cx_post == cx_pre
        &&& self <= MAX_SAFE_INTEGER ==> (r matches Ok(v) && v matches HostValue::Number(n)
            && n.class == (crate::host::NumberClass::Integral { value: self }) && n.text@ == dec_rep(
            self,
        ))
        &&& self > MAX_SAFE_INTEGER ==> (r matches Err(e) && e matches HostException::Range {
            value_text,
            target_type,
        } && value_text@ == dec_rep(self) && target_type@ == "f64"@)
    }

    fn convert_into(self, cx: &mut HostContext) -> (r: Result<HostValue, HostException>) {
        if self > MAX_SAFE_INTEGER {
            Err(
                HostException::Range {
                    value_text: crate::codec::u64_to_decimal(self),
                    target_type: String::from_str("f64"),
                },
            )
        } else {
            Ok(HostValue::Number(number_from_u64(self)))
        }
    }
}

/// Converts all valid `u8` values.
impl ResultTypeInfo for u8 {
    open spec fn convert_into_ensures(
        self,
        cx_pre: HostContext,
        cx_post: HostContext,
        r: Result<HostValue, HostException>,
    ) -> bool {
        &&& cx_post == cx_pre
        &&& r matches Ok(v) && v matches HostValue::Number(n) && n.class == (
        crate::host::NumberClass::Integral { value: self as u64 }) && n.text@ == dec_rep(
            self as u64,
        )
    }

    fn convert_into(self, cx: &mut HostContext) -> (r: Result<HostValue, HostException>) {
        Ok(HostValue::Number(number_from_u64(self as u64)))
    }
}

/// Converts all valid `u32` values.
impl ResultTypeInfo for u32 {
    open spec fn convert_into_ensures(
        self,
        cx_pre: HostContext,
        cx_post: HostContext,
        r: Result<HostValue, HostException>,
    ) -> bool {
        &&& cx_post == cx_pre
        &&& r matches Ok(v) && v matches HostValue::Number(n) && n.class == (
        crate::host::NumberClass::Integral { value: self as u64 }) && n.text@ == dec_rep(
            self as u64,
        )
    }

    fn convert_into(self, cx: &mut HostContext) -> (r: Result<HostValue, HostException>) {
        Ok(HostValue::Number(number_from_u64(self as u64)))
    }
}

/// Converts all valid `i32` values, negative ones included.
impl ResultTypeInfo for i32 {
    open spec fn convert_into_ensures(
        self,
        cx_pre: HostContext,
        cx_post: HostContext,
        r: Result<HostValue, HostException>,
    ) -> bool {
        &&& cx_post == cx_pre
        &&& self >= 0 ==> (r matches Ok(v) && v matches HostValue::Number(n) && n.class == (
        crate::host::NumberClass::Integral { value: self as u64 }))
        &&& self < 0 ==> (r matches Ok(v) && v matches HostValue::Number(n) && n.class == (
        crate::host::NumberClass::Negative { magnitude: (-(self as i64)) as u64 }))
    }

    fn convert_into(self, cx: &mut HostContext) -> (r: Result<HostValue, HostException>) {
        Ok(HostValue::Number(number_from_i32(self)))
    }
}

impl ResultTypeInfo for String {
    open spec fn convert_into_ensures(
        self,
        cx_pre: HostContext,
        cx_post: HostContext,
        r: Result<HostValue, HostException>,
    ) -> bool {
        r == Ok::<HostValue, HostException>(HostValue::Text(self)) && cx_post == cx_pre
    }

    fn convert_into(self, cx: &mut HostContext) -> (r: Result<HostValue, HostException>) {
        Ok(HostValue::Text(self))
    }
}

/// The unit result converts to the host's `undefined`.
impl ResultTypeInfo for () {
    open spec fn convert_into_ensures(
        self,
        cx_pre: HostContext,
        cx_post: HostContext,
        r: Result<HostValue, HostException>,
    ) -> bool {
        r == Ok::<HostValue, HostException>(HostValue::Undefined) && cx_post == cx_pre
    }

    fn convert_into(self, cx: &mut HostContext) -> (r: Result<HostValue, HostException>) {
        Ok(HostValue::Undefined)
    }
}

/// Converts `None` to the host's `null`, delegating all other values.
impl<T: ResultTypeInfo> ResultTypeInfo for Option<T> {
    open spec fn convert_into_ensures(
        self,
        cx_pre: HostContext,
        cx_post: HostContext,
        r: Result<HostValue, HostException>,
    ) -> bool {
        match self {
            None => r == Ok::<HostValue, HostException>(HostValue::Null) && cx_post == cx_pre,
            Some(value) => T::convert_into_ensures(value, cx_pre, cx_post, r),
        }
    }

    fn convert_into(self, cx: &mut HostContext) -> (r: Result<HostValue, HostException>) {
        match self {
            None => Ok(HostValue::Null),
            Some(value) => value.convert_into(cx),
        }
    }
}

/// Byte vectors convert by allocating a fresh host buffer with the same
/// contents; a vector too large for the host's buffer length fails.
impl ResultTypeInfo for Vec<u8> {
    open spec fn convert_into_ensures(
        self,
        cx_pre: HostContext,
        cx_post: HostContext,
        r: Result<HostValue, HostException>,
    ) -> bool {
        &&& self@.len() <= u32::MAX ==> (r matches Ok(v) && v matches HostValue::Buffer(handle)
            && handle == cx_pre.buffers@.len() && cx_post.buffers@ == cx_pre.buffers@.push(self)
            && cx_post.buffer_bytes(handle) == self@)
        &&& self@.len() > u32::MAX ==> (r matches Err(e) && e matches HostException::Generic {
            message,
        } && message@ == "Cannot return very large object to JS environment"@ && cx_post == cx_pre)
    }

    fn convert_into(self, cx: &mut HostContext) -> (r: Result<HostValue, HostException>) {
        if self.len() > u32::MAX as usize {
            Err(
                HostException::Generic {
                    message: String::from_str("Cannot return very large object to JS environment"),
                },
            )
        } else {
            let ghost pre = cx.buffers@;
            let handle = cx.alloc_buffer(self);
            proof {
                assert(pre.is_prefix_of(cx.buffers@));
            }
            Ok(HostValue::Buffer(handle))
        }
    }
}

/// A fallible native result converts by converting its success value and
/// passing its failure through: errors always surface to the caller.
impl<T: ResultTypeInfo> ResultTypeInfo for Result<T, HostException> {
    open spec fn convert_into_ensures(
        self,
        cx_pre: HostContext,
        cx_post: HostContext,
        r: Result<HostValue, HostException>,
    ) -> bool {
        match self {
            Ok(value) => T::convert_into_ensures(value, cx_pre, cx_post, r),
            Err(e) => r == Err::<HostValue, HostException>(e) && cx_post == cx_pre,
        }
    }

    fn convert_into(self, cx: &mut HostContext) -> (r: Result<HostValue, HostException>) {
        match self {
            Ok(value) => value.convert_into(cx),
            Err(e) => Err(e),
        }
    }
}

/// Borrowed strings convert by copying into a host string.
impl ResultTypeInfo for &str {
    open spec fn convert_into_ensures(
        self,
        cx_pre: HostContext,
        cx_post: HostContext,
        r: Result<HostValue, HostException>,
    ) -> bool {
        (r matches Ok(v) && v matches HostValue::Text(t) && t@ == self@) && cx_post == cx_pre
    }

    fn convert_into(self, cx: &mut HostContext) -> (r: Result<HostValue, HostException>) {
        Ok(HostValue::Text(self.to_owned()))
    }
}

/// A value already in host form converts to itself.
impl ResultTypeInfo for HostValue {
    open spec fn convert_into_ensures(
        self,
        cx_pre: HostContext,
        cx_post: HostContext,
        r: Result<HostValue, HostException>,
    ) -> bool {
        r == Ok::<HostValue, HostException>(self) && cx_post == cx_pre
    }

    fn convert_into(self, cx: &mut HostContext) -> (r: Result<HostValue, HostException>) {
        Ok(self)
    }
}

/// Round trip of the scalar codec: a native `u64` within the host's safe
/// range that travels to the host and back comes back unchanged, and one
/// beyond the safe range never reaches the host at all — the outbound
/// conversion already fails with a range error.
pub proof fn lemma_u64_round_trip(
    v: u64,
    cx_pre: HostContext,
    cx_post: HostContext,
    to_host: Result<HostValue, HostException>,
    back: Result<u64, HostException>,
)
    requires
        <u64 as ResultTypeInfo>::convert_into_ensures(v, cx_pre, cx_post, to_host),
        v <= MAX_SAFE_INTEGER ==> (to_host matches Ok(h)
            && <u64 as SimpleArgTypeInfo>::convert_ensures(h, back)),
    ensures
        v <= MAX_SAFE_INTEGER ==> back == Ok::<u64, HostException>(v),
        v > MAX_SAFE_INTEGER ==> (to_host matches Err(e) && e is Range),
{
}

} // verus!
