use vstd::prelude::*;

use std::sync::Arc;

use crate::error::Error;
use crate::invoker::Invoker;
use crate::uri::Uri;

verus! {

/// How the bytes of a file are to be encoded.
pub enum Encoding {
    Base64,
    UTF8,
}

/// Which file a wrapper is asked for, and in what encoding.
pub struct GetFileOptions {
    pub path: String,
    pub encoding: Option<Encoding>,
}

/// A loaded wrapper: something that can be invoked and can hand out its files.
pub trait Wrapper {
    /// Invokes `method` of the wrapper at `uri`, with msgpack-encoded `args`
    /// and `env`; `invoker` serves the subinvocations the wrapper makes.
    fn invoke<I: Invoker + ?Sized>(
        &mut self,
        invoker: Arc<I>,
        uri: &Uri,
        method: &str,
        args: Option<&[u8]>,
        env: Option<Vec<u8>>,
    ) -> Result<Vec<u8>, Error>;

    /// Reads a file of the wrapper.
    fn get_file(&self, options: &GetFileOptions) -> Result<Vec<u8>, Error>;
}

} // verus!
