//! Verified core of a polywrap client: URIs, wrapper resolution, manifest
//! formats, and the decision logic of plugin invocation and of URI
//! resolution through a resolver extension.

pub mod error;
pub mod invoker;
pub mod manifest;
pub mod plugin;
pub mod resolution;
pub mod resolver_extension;
pub mod resolver_like;
pub mod uri;
pub mod wrapper;

pub use error::{Error, PluginError};
pub use invoker::Invoker;
pub use manifest::{AnyManifest, PolywrapManifest, PolywrapManifest010, PolywrapManifest020};
pub use resolution::{UriPackageOrWrapper, WrapperResolver};
pub use resolver_extension::{MaybeUriOrManifest, UriResolverWrapper};
pub use resolver_like::SafeUriResolverLikeType;
pub use uri::Uri;
pub use wrapper::{Encoding, GetFileOptions, Wrapper};
