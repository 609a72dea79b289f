use vstd::prelude::*;

use crate::error::Error;
use crate::uri::Uri;

verus! {

/// Invokes wrappers by URI on behalf of other wrappers: what a wrapper is
/// handed so that it can make subinvocations.
pub trait Invoker {
    /// Invokes `method` of the wrapper at `uri`, with msgpack-encoded `args`
    /// and `env`.
    fn invoke_raw(
        &self,
        uri: &Uri,
        method: &str,
        args: Option<&[u8]>,
        env: Option<&[u8]>,
    ) -> Result<Vec<u8>, Error>;

    /// The URIs of the implementations registered for the interface at `uri`.
    fn get_implementations(&self, uri: &Uri) -> Result<Vec<Uri>, Error>;

    /// The msgpack environment registered for `uri`, if any.
    fn get_env_by_uri(&self, uri: &Uri) -> Option<Vec<u8>>;
}

} // verus!
