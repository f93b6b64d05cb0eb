//! The hook pairing combinator: attaching a not-yet-run callback to a failed
//! outcome, and the single conversion step that runs it.
//!
//! Attaching is cheap and has no side effect; the callback runs exactly once,
//! inside the conversion that collapses the pairing into the unified
//! [`Error`], with a reference to the still-unmodified original error. The
//! success path never touches the callback at all.

use crate::errors::AggregateError;
use crate::errors::Error;
use crate::errors::OpaqueError;
use vstd::prelude::*;

verus! {

/// The transient pairing of an escaping error with its not-yet-run hook.
/// It exists only between the attach step and the one conversion that
/// consumes it; user code never stores, clones or inspects one.
pub struct SecretStructDoNotUseOrYouWillBeFired<E, F>(E, F);

impl<E, F> SecretStructDoNotUseOrYouWillBeFired<E, F> {
    /// The original error held by the pairing.
    pub closed spec fn error(&self) -> E {
        self.0
    }

    /// The still-unexecuted hook held by the pairing.
    pub closed spec fn hook(&self) -> F {
        self.1
    }
}

/// Compile-time evidence that two types are the same; it restricts the
/// attach step to outcomes whose error slot is a supported shape.
pub trait SameAs<T> {

}

impl<T> SameAs<T> for T {

}

/// A supported error shape: one that the unified container can absorb. The
/// two impls below are the closed set; an outcome with any other error type
/// is rejected when the code is compiled, not at run time.
pub trait Shape: Sized {
    /// The container variant this shape collapses into.
    spec fn wrap_spec(self) -> Error;

    /// The displayed text of the error value.
    spec fn text_spec(&self) -> Seq<char>;

    /// Shape-specific validity carried through the pairing.
    spec fn shape_wf(&self) -> bool;

    /// Law bound to the shape: wrapping is transparent — the container
    /// displays the held error's own text and is well formed.
    proof fn lemma_wrap_transparent(self)
        ensures
            self.wrap_spec().text() == self.text_spec(),
            self.shape_wf() ==> self.wrap_spec().well_formed(),
    ;

    /// Collapses a pairing of this shape: runs the hook exactly once, with a
    /// reference to the original error, then moves the untouched error into
    /// its container variant.
    fn wrap_pairing<F: FnOnce(&Self)>(p: SecretStructDoNotUseOrYouWillBeFired<Self, F>) -> (r:
        Error)
        requires
            call_requires(p.hook(), (&p.error(),)),
        ensures
            r == p.error().wrap_spec(),
            call_ensures(p.hook(), (&p.error(),), ()),
    ;
}

impl Shape for OpaqueError {
    open spec fn wrap_spec(self) -> Error {
        Error::Boxed(self)
    }

    open spec fn text_spec(&self) -> Seq<char> {
        self.text()
    }

    open spec fn shape_wf(&self) -> bool {
        true
    }

    proof fn lemma_wrap_transparent(self) {
    }

    fn wrap_pairing<F: FnOnce(&Self)>(p: SecretStructDoNotUseOrYouWillBeFired<Self, F>) -> (r:
        Error) {
        let SecretStructDoNotUseOrYouWillBeFired(src, hook) = p;
        hook(&src);
        Error::Boxed(src)
    }
}

/// The attach step: pairs a failed outcome's error with a hook, without
/// running it. The `SameAs` bound restricts it to outcomes whose error slot
/// is the shape the impl was written for.
pub trait SecretTraitDoNotUseOrYouWillBeFired<T, E>: Sized {
    /// The outcome this value is; every impl is for an outcome type itself.
    spec fn outcome(self) -> core::result::Result<T, E>;

    /// Pairs the error slot, if occupied, with the hook; the hook is not run.
    /// A success value passes through untouched.
    fn into_ghost<F: FnOnce(&E)>(self, hook: F) -> (r: core::result::Result<
        T,
        SecretStructDoNotUseOrYouWillBeFired<E, F>,
    >) where Self: SameAs<core::result::Result<T, E>>
        ensures
            self.outcome() matches Ok(t) ==> r matches Ok(v) && v == t,
            self.outcome() matches Err(e) ==> r matches Err(p) && p.error() == e && p.hook()
                == hook,
    ;
}

impl<T> SecretTraitDoNotUseOrYouWillBeFired<T, OpaqueError> for core::result::Result<
    T,
    OpaqueError,
> {
    open spec fn outcome(self) -> core::result::Result<T, OpaqueError> {
        self
    }

    fn into_ghost<F: FnOnce(&OpaqueError)>(self, hook: F) -> (r: core::result::Result<
        T,
        SecretStructDoNotUseOrYouWillBeFired<OpaqueError, F>,
    >) {
        match self {
            Ok(t) => Ok(t),
            Err(e) => Err(SecretStructDoNotUseOrYouWillBeFired(e, hook)),
        }
    }
}

impl<T> SecretTraitDoNotUseOrYouWillBeFired<T, AggregateError> for core::result::Result<
    T,
    AggregateError,
> {
    open spec fn outcome(self) -> core::result::Result<T, AggregateError> {
        self
    }

    fn into_ghost<F: FnOnce(&AggregateError)>(self, hook: F) -> (r: core::result::Result<
        T,
        SecretStructDoNotUseOrYouWillBeFired<AggregateError, F>,
    >) {
        match self {
            Ok(t) => Ok(t),
            Err(e) => Err(SecretStructDoNotUseOrYouWillBeFired(e, hook)),
        }
    }
}

impl Shape for AggregateError {
    open spec fn wrap_spec(self) -> Error {
        Error::Anyhow(self)
    }

    open spec fn text_spec(&self) -> Seq<char> {
        self.text()
    }

    open spec fn shape_wf(&self) -> bool {
        self.well_formed()
    }

    proof fn lemma_wrap_transparent(self) {
    }

    fn wrap_pairing<F: FnOnce(&Self)>(p: SecretStructDoNotUseOrYouWillBeFired<Self, F>) -> (r:
        Error) {
        let SecretStructDoNotUseOrYouWillBeFired(src, hook) = p;
        hook(&src);
        Error::Anyhow(src)
    }
}

/// Routes a finished outcome through the hook machinery: attaches `hook`,
/// then collapses the pairing into the unified container. This is the whole
/// body a hooked function needs around its original logic; an asynchronous
/// function awaits its inner body first and then calls this, so both kinds
/// share the guarantees below.
///
/// On success the value is returned unchanged and the hook is not consumed
/// here at all; on failure the hook runs exactly once, with a reference to
/// the original error, strictly before this function returns, and the
/// container wraps that error untouched.
pub fn hook_outcome<T, E: Shape, O, F: FnOnce(&E)>(outcome: O, hook: F) -> (r: crate::HookResult<
    T,
>) where O: SecretTraitDoNotUseOrYouWillBeFired<T, E> + SameAs<core::result::Result<T, E>>
    requires
        outcome.outcome() matches Err(e) ==> call_requires(hook, (&e,)),
    ensures
        outcome.outcome() matches Ok(t) ==> r matches Ok(v) && v == t,
        outcome.outcome() matches Err(e) ==> r matches Err(err) && err == e.wrap_spec()
            && call_ensures(hook, (&e,), ()),
        outcome.outcome() matches Err(e) ==> r matches Err(err) && err.text() == e.text_spec() && (
        e.shape_wf() ==> err.well_formed()),
{
    match outcome.into_ghost(hook) {
        Ok(t) => Ok(t),
        Err(p) => {
            proof {
                p.error().lemma_wrap_transparent();
            }
            Err(E::wrap_pairing(p))
        },
    }
}

} // verus!
