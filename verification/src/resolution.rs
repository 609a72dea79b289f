use std::sync::Arc;
use vstd::prelude::*;

use crate::error::Error;
use crate::uri::Uri;
use crate::wrapper::Wrapper;

verus! {

/// Where the resolution of a URI ended: at another URI, at a package, or at a
/// loaded wrapper. `P` is the package type and `W` the wrapper type.
pub enum UriPackageOrWrapper<P: ?Sized, W: ?Sized> {
    Uri(Uri),
    Package(Uri, Arc<P>),
    Wrapper(Uri, Arc<W>),
}

/// A resolver that knows one URI and the wrapper loaded for it.
pub struct WrapperResolver<W: Wrapper + ?Sized> {
    pub uri: Uri,
    pub wrapper: Arc<W>,
}

/// `"Wrapper (" + uri + ")"`.
pub open spec fn wrapper_step_description(uri: Seq<char>) -> Seq<char> {
    "Wrapper ("@ + uri + ")"@
}

/// `"WrapperResolver: " + uri`.
pub open spec fn wrapper_resolver_debug_text(uri: Seq<char>) -> Seq<char> {
    "WrapperResolver: "@ + uri
}

impl<W: Wrapper + ?Sized> WrapperResolver<W> {
    /// What the resolver at `uri` resolves `asked` to: the wrapper when the two
    /// URIs have the same text, else the asked URI itself.
    pub open spec fn spec_resolution<P: ?Sized>(&self, asked: Uri) -> UriPackageOrWrapper<P, W> {
        if asked.uri@ == self.uri.uri@ {
            UriPackageOrWrapper::Wrapper(asked, self.wrapper)
        } else {
            UriPackageOrWrapper::Uri(asked)
        }
    }

    /// Describes this resolution step; the asked URI plays no part.
    pub fn get_step_description(&self, _uri: &Uri) -> (r: String)
        ensures
            r@ == wrapper_step_description(self.uri.uri@),
    {
        let s = String::from_str("Wrapper (");
        let s = s.concat(self.uri.uri.as_str());
        s.concat(")")
    }

    /// Resolves `uri`: to this resolver's wrapper when `uri` has the text of
    /// this resolver's URI, else to `uri` itself. It never fails.
    pub fn _try_resolve_uri<P: ?Sized>(&self, uri: &Uri) -> (r: Result<UriPackageOrWrapper<P, W>, Error>)
        ensures
            r == Ok::<UriPackageOrWrapper<P, W>, Error>(self.spec_resolution(*uri)),
    {
        if uri.uri != self.uri.uri {
            Ok(UriPackageOrWrapper::Uri(uri.clone()))
        } else {
            Ok(UriPackageOrWrapper::Wrapper(uri.clone(), self.wrapper.clone()))
        }
    }

    /// The text the resolver shows in debug output.
    pub fn debug_string(&self) -> (r: String)
        ensures
            r@ == wrapper_resolver_debug_text(self.uri.uri@),
    {
        let s = String::from_str("WrapperResolver: ");
        s.concat(self.uri.uri.as_str())
    }
}

/// Resolving a URI through a wrapper resolver succeeds, ends at the wrapper
/// exactly when the URI has the resolver's text, and otherwise hands the URI
/// back unchanged; either way the resolution names the asked URI.
pub proof fn lemma_wrapper_resolution<P: ?Sized, W: Wrapper + ?Sized>(
    resolver: WrapperResolver<W>,
    asked: Uri,
)
    ensures
        resolver.spec_resolution::<P>(asked) is Wrapper <==> asked.uri@ == resolver.uri.uri@,
        resolver.spec_resolution::<P>(asked) is Uri <==> asked.uri@ != resolver.uri.uri@,
        resolver.spec_resolution::<P>(asked) matches UriPackageOrWrapper::Uri(u) ==> u == asked,
        resolver.spec_resolution::<P>(asked) matches UriPackageOrWrapper::Wrapper(u, w) ==> u == asked
            && w == resolver.wrapper,
        resolver.spec_resolution::<P>(asked) !is Package,
{
}

} // verus!
