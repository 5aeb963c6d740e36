//! The engine's error value: what went wrong underneath, and a human readable
//! description of the step that failed.

use vstd::prelude::*;

verus! {

#[verifier::external_type_specification]
#[verifier::external_body]
pub struct ExOsError(winit::error::OsError);

#[verifier::external_type_specification]
#[verifier::external_body]
pub struct ExJsValue(wasm_bindgen::JsValue);

#[verifier::external_type_specification]
#[verifier::external_body]
#[verifier::reject_recursive_types(T)]
pub struct ExSendError<T>(flume::SendError<T>);

/// What went wrong underneath an engine error.
pub enum InnerError {
    /// Nothing underneath: a value that should have been there was missing.
    Missing,
    /// The windowing system failed.
    OsError(winit::error::OsError),
    /// The browser raised an exception.
    JsValue(wasm_bindgen::JsValue),
    /// The task runtime is gone, so a task could not be handed to it.
    NoRuntime,
}

/// Abstract value of an engine error.
pub ghost struct EngineErrorView {
    pub inner: InnerError,
    pub cause: Seq<char>,
}

/// An engine error: the underlying failure and a description of its cause.
pub struct EngineError {
    inner: InnerError,
    cause: String,
}

impl View for EngineError {
    type V = EngineErrorView;

    closed spec fn view(&self) -> EngineErrorView {
        EngineErrorView { inner: self.inner, cause: self.cause@ }
    }
}

/// The description an error carries when nobody gave one.
pub open spec fn no_cause() -> Seq<char> {
    seq!['N', 'o', ' ', 'C', 'a', 'u', 's', 'e']
}

impl EngineError {
    /// An error with the given underlying failure and description.
    pub fn new(err: InnerError, cause: String) -> (e: Self)
        ensures
            e@.inner == err,
            e@.cause == cause@,
    {
        let inner = err;
        Self { inner, cause }
    }

    /// The same error with its description replaced by `cause`.
    pub fn describe(self, cause: String) -> (e: Self)
        ensures
            e@.inner == self@.inner,
            e@.cause == cause@,
    {
        let mut this = self;
        this.cause = cause;
        this
    }

    /// The underlying failure.
    pub fn inner(&self) -> (r: &InnerError)
        ensures
            *r == self@.inner,
    {
        &self.inner
    }

    /// The description of the cause.
    pub fn cause(&self) -> (r: &String)
        ensures
            r@ == self@.cause,
    {
        &self.cause
    }
}

/// The default description, as a `String`.
fn no_cause_string() -> (s: String)
    ensures
        s@ == no_cause(),
{
    let s = String::from_str("No Cause");
    proof {
        reveal_strlit("No Cause");
    }
    s
}

impl From<()> for EngineError {
    /// A missing value, with the default description.
    fn from(_v: ()) -> (e: Self)
        ensures
            e@.inner == InnerError::Missing,
            e@.cause == no_cause(),
    {
        EngineError::new(InnerError::Missing, no_cause_string())
    }
}

impl vstd::std_specs::convert::FromSpecImpl<()> for EngineError {
    /// The value is given by the `ensures` of `from` above: it holds a `String`,
    /// which no spec expression builds.
    open spec fn obeys_from_spec() -> bool {
        false
    }

    open spec fn from_spec(v: ()) -> EngineError {
        choose|e: EngineError| e@.inner == InnerError::Missing && e@.cause == no_cause()
    }
}

impl From<winit::error::OsError> for EngineError {
    /// A windowing failure, with the default description.
    fn from(err: winit::error::OsError) -> (e: Self)
        ensures
            e@.inner == InnerError::OsError(err),
            e@.cause == no_cause(),
    {
        EngineError::new(InnerError::OsError(err), no_cause_string())
    }
}

impl vstd::std_specs::convert::FromSpecImpl<winit::error::OsError> for EngineError {
    /// The value is given by the `ensures` of `from` above.
    open spec fn obeys_from_spec() -> bool {
        false
    }

    open spec fn from_spec(v: winit::error::OsError) -> EngineError {
        choose|e: EngineError| e@.inner == InnerError::OsError(v) && e@.cause == no_cause()
    }
}

impl From<wasm_bindgen::JsValue> for EngineError {
    /// A browser exception, with the default description.
    fn from(err: wasm_bindgen::JsValue) -> (e: Self)
        ensures
            e@.inner == InnerError::JsValue(err),
            e@.cause == no_cause(),
    {
        EngineError::new(InnerError::JsValue(err), no_cause_string())
    }
}

impl vstd::std_specs::convert::FromSpecImpl<wasm_bindgen::JsValue> for EngineError {
    /// The value is given by the `ensures` of `from` above.
    open spec fn obeys_from_spec() -> bool {
        false
    }

    open spec fn from_spec(v: wasm_bindgen::JsValue) -> EngineError {
        choose|e: EngineError| e@.inner == InnerError::JsValue(v) && e@.cause == no_cause()
    }
}

impl<T> From<flume::SendError<T>> for EngineError {
    /// A task that could not be handed to the runtime: the runtime is gone. The
    /// description is empty.
    fn from(_err: flume::SendError<T>) -> (e: Self)
        ensures
            e@.inner == InnerError::NoRuntime,
            e@.cause == Seq::<char>::empty(),
    {
        EngineError::new(InnerError::NoRuntime, String::new())
    }
}

impl<T> vstd::std_specs::convert::FromSpecImpl<flume::SendError<T>> for EngineError {
    /// The value is given by the `ensures` of `from` above.
    open spec fn obeys_from_spec() -> bool {
        false
    }

    open spec fn from_spec(v: flume::SendError<T>) -> EngineError {
        choose|e: EngineError| e@.inner == InnerError::NoRuntime && e@.cause == Seq::<char>::empty()
    }
}

/// Turning a failed `Result`, or a missing `Option` value, into an engine error.
pub trait ErrorConverter<T, E>: Sized {
    /// The value, or the failure as an engine error with the default
    /// description.
    fn convert(self) -> Result<T, EngineError>;

    /// The value, or the failure as an engine error described by `cause`.
    fn describe(self, cause: String) -> Result<T, EngineError>;
}

impl<T, E> ErrorConverter<T, E> for Result<T, E> where EngineError: From<E> {
    fn convert(self) -> (r: Result<T, EngineError>)
        ensures
            self is Ok ==> r is Ok && r->Ok_0 == self->Ok_0,
            self is Err ==> r is Err && call_ensures(
                <EngineError as From<E>>::from,
                (self->Err_0,),
                r->Err_0,
            ),
    {
        match self {
            Ok(v) => Ok(v),
            Err(err) => Err(EngineError::from(err)),
        }
    }

    fn describe(self, cause: String) -> (r: Result<T, EngineError>)
        ensures
            self is Ok ==> r is Ok && r->Ok_0 == self->Ok_0,
            self is Err ==> r is Err && r->Err_0@.cause == cause@ && exists|e: EngineError|
                call_ensures(<EngineError as From<E>>::from, (self->Err_0,), e) && e@.inner
                    == r->Err_0@.inner,
    {
        match self {
            Ok(v) => Ok(v),
            Err(err) => Err(EngineError::from(err).describe(cause)),
        }
    }
}

impl<T> ErrorConverter<T, ()> for Option<T> {
    fn convert(self) -> (r: Result<T, EngineError>)
        ensures
            self is Some ==> r is Ok && r->Ok_0 == self->Some_0,
            self is None ==> r is Err && r->Err_0@.inner == InnerError::Missing && r->Err_0@.cause
                == no_cause(),
    {
        match self {
            Some(v) => Ok(v),
            None => Err(EngineError::new(InnerError::Missing, no_cause_string())),
        }
    }

    fn describe(self, cause: String) -> (r: Result<T, EngineError>)
        ensures
            self is Some ==> r is Ok && r->Ok_0 == self->Some_0,
            self is None ==> r is Err && r->Err_0@.inner == InnerError::Missing && r->Err_0@.cause
                == cause@,
    {
        match self {
            Some(v) => Ok(v),
            None => Err(EngineError::new(InnerError::Missing, cause)),
        }
    }
}

} // verus!
