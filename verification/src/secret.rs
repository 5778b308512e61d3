//! Values that must not be printed.
use vstd::prelude::*;

verus! {

/// A value that is kept out of logs: it has no `Debug`, and is read through
/// [`Secret::peek`] or [`Secret::expose`].
#[derive(PartialEq, Eq)]
pub struct Secret<S> {
    pub inner_secret: S,
}

impl<S> Secret<S> {
    /// Wraps a value.
    pub fn new(value: S) -> (res: Self)
        ensures
            res == (Secret { inner_secret: value }),
    {
        Secret { inner_secret: value }
    }

    /// Gives the value up.
    pub fn expose(self) -> (res: S)
        ensures
            res == self.inner_secret,
    {
        self.inner_secret
    }

    /// Looks at the value.
    pub fn peek(&self) -> (res: &S)
        ensures
            *res == self.inner_secret,
    {
        &self.inner_secret
    }
}

impl Clone for Secret<String> {
    fn clone(&self) -> (res: Self)
        ensures
            res == *self,
    {
        Secret { inner_secret: self.inner_secret.clone() }
    }
}

/// Copies an optional secret text.
pub fn clone_optional_secret(value: &Option<Secret<String>>) -> (res: Option<Secret<String>>)
    ensures
        res == *value,
{
    match value {
        Some(secret) => Some(secret.clone()),
        None => None,
    }
}

/// A header value that may have to be kept out of logs.
pub enum Maskable<T> {
    Masked(Secret<T>),
    Normal(T),
}

impl<T> Maskable<T> {
    /// The value itself.
    pub open spec fn value(&self) -> T {
        match self {
            Maskable::Masked(secret) => secret.inner_secret,
            Maskable::Normal(value) => *value,
        }
    }

    /// Whether the value must be kept out of logs.
    pub fn is_masked(&self) -> (res: bool)
        ensures
            res == (self is Masked),
    {
        match self {
            Maskable::Masked(_) => true,
            Maskable::Normal(_) => false,
        }
    }

    /// Gives the value up.
    pub fn into_inner(self) -> (res: T)
        ensures
            res == self.value(),
    {
        match self {
            Maskable::Masked(secret) => secret.inner_secret,
            Maskable::Normal(value) => value,
        }
    }

    /// Looks at the value.
    pub fn inner(&self) -> (res: &T)
        ensures
            *res == self.value(),
    {
        match self {
            Maskable::Masked(secret) => &secret.inner_secret,
            Maskable::Normal(value) => value,
        }
    }
}

} // verus!
