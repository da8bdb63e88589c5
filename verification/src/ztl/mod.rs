//! Plain-value views of the reference-counted containers that the observed
//! process keeps in its own memory.

pub mod tsec;
pub mod zmap;
pub mod zxarr;
pub mod zxstr;

use vstd::prelude::*;

verus! {

/// The one instance of a type that the observed process creates on demand.
#[derive(Debug)]
pub struct TSingleton<T>(pub Option<T>);

impl<T> TSingleton<T> {
    /// Whether the instance has been created.
    pub fn is_instantiated(&self) -> (b: bool)
        ensures
            b == (self.0 is Some),
    {
        self.0.is_some()
    }

    /// The instance, once it has been created.
    pub fn get_instance(&self) -> (instance: Option<&T>)
        ensures
            instance == match self.0 {
                Some(t) => Some(&t),
                None => None,
            },
    {
        self.0.as_ref()
    }

    /// The instance for changing it, once it has been created.
    pub fn get_instance_mut(&mut self) -> (instance: Option<&mut T>)
        ensures
            old(self).0 is None ==> instance is None && final(self).0 is None,
            old(self).0 matches Some(before) ==> (instance matches Some(t) && *t == before
                && final(self).0 == Some(*final(t))),
    {
        self.0.as_mut()
    }
}

} // verus!
