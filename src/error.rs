use vstd::prelude::*;
use vstd::std_specs::convert::FromSpec;

verus! {

/// The different kinds of errors that can be returned.
///
/// More kinds may be added later: a `match` on a kind needs a catch-all arm.
#[derive(Copy, Clone, Debug, PartialEq, Eq, Structural)]
#[non_exhaustive]
pub enum RustbreakErrorKind {
    /// A serialization failed.
    Serialization,
    /// A deserialization failed.
    Deserialization,
    /// The database was found in an inconsistent state after a write that
    /// did not finish.
    Poison,
    /// The backend has reported an error.
    Backend,
    /// The closure of a write panicked, and the panic was caught.
    WritePanic,
}

/// The fixed human-readable message of each kind.
pub open spec fn kind_message(k: RustbreakErrorKind) -> Seq<char> {
    match k {
        RustbreakErrorKind::Serialization => "Could not serialize the value"@,
        RustbreakErrorKind::Deserialization => "Could not deserialize the value"@,
        RustbreakErrorKind::Poison => "The database has been poisoned"@,
        RustbreakErrorKind::Backend => "The backend has encountered an error"@,
        RustbreakErrorKind::WritePanic => "The write operation panicked but got caught"@,
    }
}

impl RustbreakErrorKind {
    /// The short message that describes this kind.
    pub fn message(&self) -> (r: &'static str)
        ensures
            r@ == kind_message(*self),
    {
        match self {
            RustbreakErrorKind::Serialization => "Could not serialize the value",
            RustbreakErrorKind::Deserialization => "Could not deserialize the value",
            RustbreakErrorKind::Poison => "The database has been poisoned",
            RustbreakErrorKind::Backend => "The backend has encountered an error",
            RustbreakErrorKind::WritePanic => "The write operation panicked but got caught",
        }
    }
}

/// Kinds are plain values: two kinds are equal exactly when they report the
/// same message, so a copy of a kind, which is the same value, is equal to its
/// source and reports the same message.
pub proof fn lemma_kind_equal_iff_same_message(a: RustbreakErrorKind, b: RustbreakErrorKind)
    ensures
        (a == b) <==> (kind_message(a) == kind_message(b)),
{
    reveal_strlit("Could not serialize the value");
    reveal_strlit("Could not deserialize the value");
    reveal_strlit("The database has been poisoned");
    reveal_strlit("The backend has encountered an error");
    reveal_strlit("The write operation panicked but got caught");
    if kind_message(a) == kind_message(b) {
        assert(kind_message(a).len() == kind_message(b).len());
    }
}

/// `failure::Error`, the boxed failure that a codec or a backend reports,
/// carried through unopened.
#[verifier::external_type_specification]
#[verifier::external_body]
pub struct ExFailureError(failure::Error);

/// `failure::Backtrace`, a diagnostic trace, carried through unopened.
#[verifier::external_type_specification]
#[verifier::external_body]
pub struct ExBacktrace(failure::Backtrace);

/// Relies on `failure::Backtrace::new`: it captures a trace only where the
/// environment asks for one, so nothing is promised of the result.
pub assume_specification[ failure::Backtrace::new ]() -> failure::Backtrace;

/// Relies on `failure::Error::backtrace`: the trace that the error carries.
pub assume_specification[ failure::Error::backtrace ](e: &failure::Error) -> &failure::Backtrace;

/// Where the trace of a context comes from: captured when the context was
/// made, or carried by the underlying cause.
#[derive(Debug)]
enum Origin {
    Captured(failure::Backtrace),
    Cause(failure::Error),
}

/// A kind, together with the failure that caused it, if any, and a
/// diagnostic trace. Once made, a context does not change.
#[derive(Debug)]
pub struct Context {
    kind: RustbreakErrorKind,
    origin: Origin,
}

impl Context {
    /// The kind this context was made with.
    pub closed spec fn kind_spec(&self) -> RustbreakErrorKind {
        self.kind
    }

    /// Whether this context wraps an underlying failure.
    pub closed spec fn has_cause(&self) -> bool {
        self.origin is Cause
    }

    /// A context for a failure of the given kind with no underlying cause.
    /// A trace is captured here, where the environment enables it.
    pub fn new(kind: RustbreakErrorKind) -> (r: Context)
        ensures
            r.kind_spec() == kind,
            !r.has_cause(),
    {
        Context { kind, origin: Origin::Captured(failure::Backtrace::new()) }
    }

    /// A context that classifies the lower-level failure `cause` under
    /// `kind`. Its trace is the one that `cause` carries.
    pub fn with_cause(kind: RustbreakErrorKind, cause: failure::Error) -> (r: Context)
        ensures
            r.kind_spec() == kind,
            r.has_cause(),
    {
        Context { kind, origin: Origin::Cause(cause) }
    }

    /// The kind of this context.
    pub fn kind(&self) -> (r: RustbreakErrorKind)
        ensures
            r == self.kind_spec(),
    {
        self.kind
    }

    /// The immediate underlying failure, if any. Its own causes are reached
    /// through it.
    pub fn cause(&self) -> (r: Option<&failure::Error>)
        ensures
            r.is_some() == self.has_cause(),
    {
        match &self.origin {
            Origin::Captured(_) => None,
            Origin::Cause(e) => Some(e),
        }
    }

    /// The diagnostic trace: the one captured at construction, or the one of
    /// the cause. It is empty where the environment did not enable capture.
    pub fn trace(&self) -> (r: Option<&failure::Backtrace>)
        ensures
            r.is_some(),
    {
        match &self.origin {
            Origin::Captured(t) => Some(t),
            Origin::Cause(e) => Some(e.backtrace()),
        }
    }

    /// The short message of this context: the message of its kind.
    pub fn to_string(&self) -> (r: String)
        ensures
            r@ == kind_message(self.kind_spec()),
    {
        self.kind.message().to_owned()
    }
}

/// The error returned by every fallible operation of the store.
#[derive(Debug)]
pub struct RustbreakError {
    inner: Context,
}

impl RustbreakError {
    /// The kind this error was made with.
    pub closed spec fn kind_spec(&self) -> RustbreakErrorKind {
        self.inner.kind_spec()
    }

    /// Whether this error wraps an underlying failure.
    pub closed spec fn has_cause(&self) -> bool {
        self.inner.has_cause()
    }

    /// Get the kind of this error.
    pub fn kind(&self) -> (r: RustbreakErrorKind)
        ensures
            r == self.kind_spec(),
    {
        self.inner.kind()
    }

    /// The immediate underlying failure, if any. The chain is not walked.
    pub fn cause(&self) -> (r: Option<&failure::Error>)
        ensures
            r.is_some() == self.has_cause(),
    {
        self.inner.cause()
    }

    /// The diagnostic trace of this error. Reading it never fails.
    pub fn trace(&self) -> (r: Option<&failure::Backtrace>)
        ensures
            r.is_some(),
    {
        self.inner.trace()
    }

    /// The short message of this error: the message of its kind, without the
    /// chain of causes.
    pub fn to_string(&self) -> (r: String)
        ensures
            r@ == kind_message(self.kind_spec()),
    {
        self.inner.to_string()
    }
}

impl From<RustbreakErrorKind> for RustbreakError {
    /// An error of the given kind with no underlying cause.
    fn from(kind: RustbreakErrorKind) -> (r: RustbreakError)
        ensures
            r.kind_spec() == kind,
            !r.has_cause(),
    {
        RustbreakError { inner: Context::new(kind) }
    }
}

impl vstd::std_specs::convert::FromSpecImpl<RustbreakErrorKind> for RustbreakError {
    // The trace captured on the way is not a function of the kind.
    open spec fn obeys_from_spec() -> bool {
        false
    }

    open spec fn from_spec(v: RustbreakErrorKind) -> RustbreakError {
        arbitrary()
    }
}

impl From<Context> for RustbreakError {
    /// An error that keeps the kind, the cause and the trace of `inner`.
    fn from(inner: Context) -> (r: RustbreakError)
        ensures
            r.kind_spec() == inner.kind_spec(),
            r.has_cause() == inner.has_cause(),
    {
        RustbreakError { inner }
    }
}

impl vstd::std_specs::convert::FromSpecImpl<Context> for RustbreakError {
    open spec fn obeys_from_spec() -> bool {
        true
    }

    closed spec fn from_spec(v: Context) -> RustbreakError {
        RustbreakError { inner: v }
    }
}

/// Wrapping a lower-level failure under any kind, then turning the context
/// into an error, gives an error of that kind that still has its cause.
pub proof fn lemma_wrapped_error_keeps_kind_and_cause(k: RustbreakErrorKind, ctx: Context)
    requires
        ctx.kind_spec() == k,
        ctx.has_cause(),
    ensures
        <RustbreakError as FromSpec<Context>>::obeys_from_spec(),
        <RustbreakError as FromSpec<Context>>::from_spec(ctx).kind_spec() == k,
        <RustbreakError as FromSpec<Context>>::from_spec(ctx).has_cause(),
{
}

/// The result of an operation on the store.
pub type Result<T> = core::result::Result<T, RustbreakError>;

} // verus!
