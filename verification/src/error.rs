use vstd::prelude::*;

verus! {

use vstd::string::StringExecFns;

use crate::host::HostException;

/// The error-to-exception mapping: a native error value becomes a host
/// exception, on the host's execution context only. A few well-known error
/// categories get a dedicated exception class looked up in the module's
/// registry; if lookup fails the mapping degrades to a generic exception
/// carrying the error's string form, and the degradation is surfaced as a
/// warning to log — never as the primary failure.

/// The host-side table of exception class names the module registered at
/// load time. All error mapping depends on this table being installed
/// before any fallible native call executes.
pub struct ErrorRegistry {
    names: Vec<String>,
}

impl ErrorRegistry {
    /// The registered class names.
    pub closed spec fn spec_names(self) -> Seq<String> {
        self.names@
    }

    /// Whether a class of this name was registered.
    pub open spec fn registered(self, name: Seq<char>) -> bool {
        exists|i: int| 0 <= i < self.spec_names().len() && #[trigger] self.spec_names()[i]@ == name
    }

    /// An empty registry.
    pub fn new() -> (r: Self)
        ensures
            r.spec_names() =~= Seq::<String>::empty(),
    {
        ErrorRegistry { names: Vec::new() }
    }

    /// Registers one exception class name.
    pub fn register(&mut self, name: String)
        ensures
            final(self).spec_names() =~= old(self).spec_names().push(name),
    {
        self.names.push(name);
    }

    /// Looks a class name up.
    pub fn lookup(&self, name: &String) -> (found: bool)
        ensures
            found == self.registered(name@),
    {
        let mut i: usize = 0;
        while i < self.names.len()
            invariant
                i <= self.names@.len(),
                forall|j: int| 0 <= j < i ==> #[trigger] self.names@[j]@ != name@,
            decreases self.names@.len() - i,
        {
            if self.names[i] == *name {
                proof {
                    assert(self.spec_names()[i as int]@ == name@);
                }
                return true;
            }
            i = i + 1;
        }
        false
    }
}

/// The host-side module object, as far as error mapping reads it: the
/// registry of exception classes installed under its errors property, if
/// registration has happened.
pub struct Module {
    pub errors: Option<ErrorRegistry>,
}

impl Module {
    /// A module on which no registry has been installed yet.
    pub fn new() -> (m: Self)
        ensures
            m.errors is None,
    {
        Module { errors: None }
    }
}

/// Installs the exception-class registry on the module: the registration
/// point called once at module load.
#[allow(non_snake_case)]
pub fn node_registerErrorClasses(module: &mut Module, errors: ErrorRegistry)
    ensures
        final(module).errors == Some(errors),
{
    module.errors = Some(errors);
}

/// Whether constructing the exception class `name` on `module` succeeds:
/// the registry must be installed and the class registered.
pub open spec fn construction_succeeds(m: Module, name: Seq<char>) -> bool {
    m.errors matches Some(reg) && reg.registered(name)
}

/// Constructs an instance of the registered exception class `name` with one
/// argument. Returns `None` — never a secondary failure — when the registry
/// is missing or the class is not registered; the caller logs a warning and
/// falls back to a generic exception.
pub fn new_js_error(module: &Module, name: &String, argument: String) -> (r: Option<HostException>)
    ensures
        construction_succeeds(*module, name@) ==> (r matches Some(e)
            && e matches HostException::Constructed { class_name, argument: a } && class_name@
            == name@ && a == argument),
        !construction_succeeds(*module, name@) ==> r is None,
{
    match &module.errors {
        Some(registry) => {
            if registry.lookup(name) {
                Some(HostException::Constructed { class_name: name.clone(), argument })
            } else {
                None
            }
        },
        None => None,
    }
}

/// Models the protocol library's error value, as far as the boundary reads
/// it: the two categories with dedicated host exception classes, the
/// callback-failure category this layer itself produces, and everything
/// else by its description alone.
pub enum ProtocolError {
    /// An identity-mismatch error carrying the conflicting identity's name.
    UntrustedIdentity { address_name: String },
    /// A self-addressed sealed-sender message.
    SealedSenderSelfSend,
    /// A failure reported by an application callback.
    ApplicationCallback { func: String, message: String },
    /// Any other protocol error, by its string form.
    Other { description: String },
}

impl ProtocolError {
    /// The error's string form.
    pub open spec fn description_spec(self) -> Seq<char> {
        match self {
            ProtocolError::UntrustedIdentity { address_name } => "untrusted identity for address "@
                + address_name@,
            ProtocolError::SealedSenderSelfSend => "self send of a sealed sender message"@,
            ProtocolError::ApplicationCallback { func, message } => "application callback "@
                + func@ + " failed: "@ + message@,
            ProtocolError::Other { description } => description@,
        }
    }

    /// Renders the error's string form.
    pub fn description(&self) -> (s: String)
        ensures
            s@ == self.description_spec(),
    {
        match self {
            ProtocolError::UntrustedIdentity { address_name } => String::from_str(
                "untrusted identity for address ",
            ).concat(address_name.as_str()),
            ProtocolError::SealedSenderSelfSend => String::from_str(
                "self send of a sealed sender message",
            ),
            ProtocolError::ApplicationCallback { func, message } => String::from_str(
                "application callback ",
            ).concat(func.as_str()).concat(" failed: ").concat(message.as_str()),
            ProtocolError::Other { description } => description.clone(),
        }
    }
}

/// A native error's way of becoming a host exception. `throw` runs on the
/// host's execution context; it returns the exception to raise and whether
/// a degradation warning is owed (a dedicated exception class was called
/// for but could not be constructed).
pub trait SignalNodeError: Sized {
    /// Exactly which exception `throw` produces on a given module, and when
    /// it warns.
    spec fn throw_ensures(self, module: Module, thrown: HostException, warned: bool) -> bool;

    /// Maps the error to the exception the host should see.
    fn throw(self, module: &Module) -> (r: (HostException, bool))
        ensures
            Self::throw_ensures(self, *module, r.0, r.1),
    ;
}

/// The name of the dedicated exception class for identity-mismatch errors.
pub open spec fn untrusted_identity_class() -> Seq<char> {
    "UntrustedIdentityError"@
}

/// The name of the dedicated exception class for self-addressed
/// sealed-sender errors.
pub open spec fn sealed_sender_self_send_class() -> Seq<char> {
    "SealedSenderSelfSend"@
}

/// Protocol errors: an identity mismatch constructs the registered
/// `UntrustedIdentityError` class with the conflicting identity's name; a
/// self-addressed sealed-sender message constructs its dedicated class with
/// the error's message; when the class is missing the mapping falls back to
/// a generic exception carrying the error's string form and owes a warning.
/// Every other category goes straight to the generic exception, warning
/// nothing.
impl SignalNodeError for ProtocolError {
    open spec fn throw_ensures(self, module: Module, thrown: HostException, warned: bool) -> bool {
        match self {
            ProtocolError::UntrustedIdentity { address_name } => {
                if construction_succeeds(module, untrusted_identity_class()) {
                    &&& thrown matches HostException::Constructed { class_name, argument }
                    &&& class_name@ == untrusted_identity_class()
                    &&& argument == address_name
                    &&& !warned
                } else {
                    &&& thrown matches HostException::Generic { message }
                    &&& message@ == self.description_spec()
                    &&& warned
                }
            },
            ProtocolError::SealedSenderSelfSend => {
                if construction_succeeds(module, sealed_sender_self_send_class()) {
                    &&& thrown matches HostException::Constructed { class_name, argument }
                    &&& class_name@ == sealed_sender_self_send_class()
                    &&& argument@ == self.description_spec()
                    &&& !warned
                } else {
                    &&& thrown matches HostException::Generic { message }
                    &&& message@ == self.description_spec()
                    &&& warned
                }
            },
            _ => {
                &&& thrown matches HostException::Generic { message }
                &&& message@ == self.description_spec()
                &&& !warned
            },
        }
    }

    fn throw(self, module: &Module) -> (r: (HostException, bool)) {
        let description = self.description();
        match self {
            ProtocolError::UntrustedIdentity { address_name } => {
                match new_js_error(module, &String::from_str("UntrustedIdentityError"), address_name) {
                    Some(e) => (e, false),
                    None => (HostException::Generic { message: description }, true),
                }
            },
            ProtocolError::SealedSenderSelfSend => {
                match new_js_error(
                    module,
                    &String::from_str("SealedSenderSelfSend"),
                    description.clone(),
                ) {
                    Some(e) => (e, false),
                    None => (HostException::Generic { message: description }, true),
                }
            },
            _ => (HostException::Generic { message: description }, false),
        }
    }
}

/// A device-transfer error, read by its string form alone.
pub struct DeviceTransferError {
    pub description: String,
}

/// Device-transfer errors map straight to the generic exception.
impl SignalNodeError for DeviceTransferError {
    open spec fn throw_ensures(self, module: Module, thrown: HostException, warned: bool) -> bool {
        &&& thrown matches HostException::Generic { message }
        &&& message == self.description
        &&& !warned
    }

    fn throw(self, module: &Module) -> (r: (HostException, bool)) {
        (HostException::Generic { message: self.description }, false)
    }
}

/// A cryptographic-operation error, read by its string form alone.
pub struct CryptoError {
    pub description: String,
}

/// Cryptographic errors map straight to the generic exception.
impl SignalNodeError for CryptoError {
    open spec fn throw_ensures(self, module: Module, thrown: HostException, warned: bool) -> bool {
        &&& thrown matches HostException::Generic { message }
        &&& message == self.description
        &&& !warned
    }

    fn throw(self, module: &Module) -> (r: (HostException, bool)) {
        (HostException::Generic { message: self.description }, false)
    }
}

/// An exception the host already raised passes through the mapping
/// unchanged.
impl SignalNodeError for HostException {
    open spec fn throw_ensures(self, module: Module, thrown: HostException, warned: bool) -> bool {
        thrown == self && !warned
    }

    fn throw(self, module: &Module) -> (r: (HostException, bool)) {
        (self, false)
    }
}

/// An error reported by a host-side callback, carried by its message.
pub struct CallbackError {
    message: String,
}

impl CallbackError {
    /// The message the callback reported.
    pub closed spec fn spec_message(self) -> Seq<char> {
        self.message@
    }

    /// The error's string form.
    pub open spec fn display_spec(self) -> Seq<char> {
        "callback error "@ + self.spec_message()
    }

    /// Wraps a callback's error message.
    pub fn new(message: String) -> (e: CallbackError)
        ensures
            e.spec_message() == message@,
    {
        CallbackError { message }
    }

    /// Renders the error's string form.
    pub fn to_display_string(&self) -> (s: String)
        ensures
            s@ == self.display_spec(),
    {
        String::from_str("callback error ").concat(self.message.as_str())
    }
}

/// Converts a host-side callback failure into the protocol library's
/// application-callback error, naming the function that failed and carrying
/// the callback error's string form.
pub fn js_error_to_rust(func: &str, err: String) -> (e: ProtocolError)
    ensures
        e matches ProtocolError::ApplicationCallback { func: f, message } && f@ == func@
            && message@ == "callback error "@ + err@,
{
    let callback_error = CallbackError::new(err);
    let message = callback_error.to_display_string();
    ProtocolError::ApplicationCallback { func: func.to_owned(), message }
}

} // verus!
