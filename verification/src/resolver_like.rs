use vstd::prelude::*;

verus! {

/// The kinds of URI resolver that a foreign caller can hand over.
pub enum SafeUriResolverLikeType {
    Resolver,
    Redirect,
    WasmPackage,
    PluginPackage,
    WasmWrapper,
    PluginWrapper,
}

/// What a foreign caller's resolver becomes in the client: a resolver, a
/// redirect, a package at a URI, or a wrapper at a URI.
pub enum UriResolverLikeKind {
    Resolver,
    Redirect,
    Package,
    Wrapper,
}

impl SafeUriResolverLikeType {
    /// What a resolver of this kind becomes: wasm and plugin packages become
    /// packages, wasm and plugin wrappers become wrappers, and resolvers and
    /// redirects stay what they are.
    pub fn resolver_like_kind(&self) -> (r: UriResolverLikeKind)
        ensures
            r == match *self {
                SafeUriResolverLikeType::Resolver => UriResolverLikeKind::Resolver,
                SafeUriResolverLikeType::Redirect => UriResolverLikeKind::Redirect,
                SafeUriResolverLikeType::WasmPackage => UriResolverLikeKind::Package,
                SafeUriResolverLikeType::PluginPackage => UriResolverLikeKind::Package,
                SafeUriResolverLikeType::WasmWrapper => UriResolverLikeKind::Wrapper,
                SafeUriResolverLikeType::PluginWrapper => UriResolverLikeKind::Wrapper,
            },
    {
        match self {
            SafeUriResolverLikeType::Resolver => UriResolverLikeKind::Resolver,
            SafeUriResolverLikeType::Redirect => UriResolverLikeKind::Redirect,
            SafeUriResolverLikeType::WasmPackage => UriResolverLikeKind::Package,
            SafeUriResolverLikeType::PluginPackage => UriResolverLikeKind::Package,
            SafeUriResolverLikeType::WasmWrapper => UriResolverLikeKind::Wrapper,
            SafeUriResolverLikeType::PluginWrapper => UriResolverLikeKind::Wrapper,
        }
    }
}

} // verus!
