use vstd::prelude::*;

verus! {

/// A wrap URI, held as its full text together with its authority and path.
pub struct Uri {
    /// The full URI text, e.g. `wrap://ens/wrapper.eth`.
    pub uri: String,
    /// The authority part, e.g. `ens`.
    pub authority: String,
    /// The path part, e.g. `wrapper.eth`.
    pub path: String,
}

impl Uri {
    /// The text a URI displays as: its full URI text.
    pub fn to_string(&self) -> (r: String)
        ensures
            r@ == self.uri@,
    {
        self.uri.clone()
    }
}

impl Clone for Uri {
    fn clone(&self) -> (r: Self)
        ensures
            r == *self,
    {
        Uri { uri: self.uri.clone(), authority: self.authority.clone(), path: self.path.clone() }
    }
}

} // verus!
