//! The registry: the parsed definitions together with the directory they
//! were read from.
use vstd::prelude::*;
use syntect::parsing::SyntaxSet;

verus! {

/// `syntect::parsing::SyntaxSet`, the parsed definitions. Nothing is known
/// of what such a value holds: it is only carried from the loader to the
/// request handlers.
#[verifier::external_type_specification]
#[verifier::external_body]
pub struct ExSyntaxSet(syntect::parsing::SyntaxSet);

/// The syntax definitions of one directory, as they were when the
/// application started. A value is made once, by a successful startup, and
/// offers no way to change it.
pub struct Syntaxes {
    inner: SyntaxSet,
    path: String,
}

/// What a [`Syntaxes`] holds.
pub struct SyntaxesView {
    /// The parsed definitions.
    pub definitions: SyntaxSet,
    /// The absolute directory that they were read from.
    pub path: Seq<char>,
}

impl View for Syntaxes {
    type V = SyntaxesView;

    closed spec fn view(&self) -> SyntaxesView {
        SyntaxesView { definitions: self.inner, path: self.path@ }
    }
}

/// What a request handler gets when it asks for the registry.
pub enum Access<'r> {
    /// The registry of this application.
    Granted(&'r Syntaxes),
    /// No registry was installed: the handler steps aside, and the request
    /// goes on to whoever can serve it without one.
    Forward,
}

impl Syntaxes {
    pub(crate) fn new(definitions: SyntaxSet, path: String) -> (s: Syntaxes)
        ensures
            s@ == (SyntaxesView { definitions, path: path@ }),
    {
        Syntaxes { inner: definitions, path }
    }

    /// The parsed definitions.
    pub fn syntax_set(&self) -> (set: &SyntaxSet)
        ensures
            *set == self@.definitions,
    {
        &self.inner
    }

    /// The absolute directory that the definitions were read from.
    pub fn path(&self) -> (p: &str)
        ensures
            p@ == self@.path,
    {
        self.path.as_str()
    }

    /// Answers a request handler that asks for the registry, given what the
    /// application's shared state holds. A missing registry is no failure
    /// of the request: the answer is [`Access::Forward`].
    pub fn from_request<'r>(managed: Option<&'r Syntaxes>) -> (access: Access<'r>)
        ensures
            match managed {
                Some(registry) => access == Access::Granted(registry),
                None => access == Access::<'r>::Forward,
            },
    {
        match managed {
            Some(registry) => Access::Granted(registry),
            None => Access::Forward,
        }
    }
}

impl core::ops::Deref for Syntaxes {
    type Target = SyntaxSet;

    /// A registry can be used wherever its definitions are asked for.
    fn deref(&self) -> (set: &SyntaxSet)
        ensures
            *set == self@.definitions,
    {
        &self.inner
    }
}

} // verus!
