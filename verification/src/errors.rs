//! The two supported error shapes and the unified container that absorbs
//! either of them.
//!
//! An error value here is modelled by what a hook (and a caller) can observe
//! of it: its displayed text, and for the aggregate shape the chain of
//! context messages around it. The container never rewrites the value it
//! holds; its displayed text is byte-for-byte the held error's own.

use vstd::prelude::*;

verus! {

/// An error whose concrete type has been erased: all that remains observable
/// is its displayed text.
#[derive(Debug)]
pub struct OpaqueError {
    msg: String,
}

impl OpaqueError {
    /// The displayed text of the erased error.
    pub closed spec fn text(&self) -> Seq<char> {
        self.msg@
    }

    /// Erases a concrete error, keeping its displayed text.
    pub fn new(msg: String) -> (r: OpaqueError)
        ensures
            r.text() == msg@,
    {
        OpaqueError { msg }
    }

    /// The displayed text, exactly as the erased error would show itself.
    pub fn message(&self) -> (r: &String)
        ensures
            r@ == self.text(),
    {
        &self.msg
    }
}

/// An error that retains chained causal context: a non-empty chain of
/// messages, outermost context first. It displays as its outermost message.
#[derive(Debug)]
pub struct AggregateError {
    chain: Vec<String>,
}

impl AggregateError {
    /// The chain of messages, outermost first.
    pub closed spec fn chain(&self) -> Seq<Seq<char>> {
        self.chain@.map_values(|m: String| m@)
    }

    /// An aggregate error always holds at least its root message.
    pub open spec fn well_formed(&self) -> bool {
        self.chain().len() >= 1
    }

    /// The displayed text: the outermost message of the chain.
    pub open spec fn text(&self) -> Seq<char>
        recommends
            self.well_formed(),
    {
        self.chain()[0]
    }

    /// A fresh aggregate error whose chain is the root message alone.
    pub fn new(msg: String) -> (r: AggregateError)
        ensures
            r.well_formed(),
            r.chain() =~= seq![msg@],
            r.text() == msg@,
    {
        AggregateError { chain: vec![msg] }
    }

    /// Wraps the error in one more layer of context; the new message becomes
    /// the displayed one, the old chain stays intact behind it.
    pub fn context(self, msg: String) -> (r: AggregateError)
        ensures
            r.well_formed(),
            r.chain() =~= seq![msg@] + self.chain(),
            r.text() == msg@,
    {
        let mut chain = self.chain;
        chain.insert(0, msg);
        proof {
            assert(chain@.map_values(|m: String| m@) =~= seq![msg@] + self.chain());
        }
        AggregateError { chain }
    }

    /// The displayed text, exactly the outermost message.
    pub fn message(&self) -> (r: &String)
        requires
            self.well_formed(),
        ensures
            r@ == self.text(),
    {
        &self.chain[0]
    }
}

/// The unified error container: a closed sum of the two supported shapes.
/// It is constructed exactly once, wraps the original error untouched, and
/// is otherwise read-only.
#[derive(Debug)]
pub enum Error {
    /// Holds an opaque dynamic error.
    Boxed(OpaqueError),
    /// Holds a contextual aggregate error.
    Anyhow(AggregateError),
}

impl Error {
    /// A container is well formed when the shape it holds is.
    pub open spec fn well_formed(&self) -> bool {
        match self {
            Error::Boxed(_) => true,
            Error::Anyhow(a) => a.well_formed(),
        }
    }

    /// The displayed text: a transparent passthrough of the held value's own.
    pub open spec fn text(&self) -> Seq<char> {
        match self {
            Error::Boxed(e) => e.text(),
            Error::Anyhow(a) => a.text(),
        }
    }

    /// The displayed text, with no added wrapping text.
    pub fn message(&self) -> (r: &String)
        requires
            self.well_formed(),
        ensures
            r@ == self.text(),
    {
        match self {
            Error::Boxed(e) => e.message(),
            Error::Anyhow(a) => a.message(),
        }
    }
}

/// Converts the error slot of an outcome into the opaque dynamic shape, for
/// inner bodies whose native error type is neither supported shape: erasure
/// keeps nothing of the error but its displayed text.
pub trait IntoBoxed<T>: Sized {
    /// What the outcome shows: its success value, or its error's displayed
    /// text.
    spec fn shown(self) -> core::result::Result<T, Seq<char>>;

    /// Erases the error, if one is present, keeping its displayed text; a
    /// success value passes through untouched.
    fn into_boxed(self) -> (r: core::result::Result<T, OpaqueError>)
        ensures
            self.shown() matches Ok(t) ==> r matches Ok(v) && v == t,
            self.shown() matches Err(m) ==> r matches Err(e) && e.text() == m,
    ;
}

impl<T> IntoBoxed<T> for core::result::Result<T, String> {
    open spec fn shown(self) -> core::result::Result<T, Seq<char>> {
        match self {
            Ok(t) => Ok(t),
            Err(m) => Err(m@),
        }
    }

    fn into_boxed(self) -> (r: core::result::Result<T, OpaqueError>) {
        match self {
            Ok(t) => Ok(t),
            Err(m) => Err(OpaqueError::new(m)),
        }
    }
}

/// Law: the container displays a held opaque error transparently.
pub proof fn lemma_display_transparent_boxed(e: OpaqueError)
    ensures
        Error::Boxed(e).text() == e.text(),
{
}

/// Law: the container displays a held aggregate error transparently.
pub proof fn lemma_display_transparent_anyhow(e: AggregateError)
    ensures
        Error::Anyhow(e).text() == e.text(),
{
}

} // verus!
