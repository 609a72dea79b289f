use std::sync::Arc;

use polywrap::error::Error;
use polywrap::invoker::Invoker;
use polywrap::resolution::{UriPackageOrWrapper, WrapperResolver};
use polywrap::uri::Uri;
use polywrap::wrapper::{Encoding, GetFileOptions, Wrapper};

fn uri(authority: &str, path: &str) -> Uri {
    Uri {
        uri: format!("wrap://{}/{}", authority, path),
        authority: authority.to_string(),
        path: path.to_string(),
    }
}

struct EchoWrapper {
    file: Vec<u8>,
}

struct NoInvoker;

impl Invoker for NoInvoker {
    fn invoke_raw(&self, uri: &Uri, _: &str, _: Option<&[u8]>, _: Option<&[u8]>) -> Result<Vec<u8>, Error> {
        Err(Error::InvokeError(uri.uri.clone()))
    }

    fn get_implementations(&self, _: &Uri) -> Result<Vec<Uri>, Error> {
        Ok(vec![])
    }

    fn get_env_by_uri(&self, _: &Uri) -> Option<Vec<u8>> {
        None
    }
}

impl Wrapper for EchoWrapper {
    fn invoke<I: Invoker + ?Sized>(
        &mut self,
        invoker: Arc<I>,
        uri: &Uri,
        method: &str,
        args: Option<&[u8]>,
        _env: Option<Vec<u8>>,
    ) -> Result<Vec<u8>, Error> {
        if method == "sub" {
            return invoker.invoke_raw(uri, method, args, None);
        }
        Ok(args.unwrap_or(&[]).to_vec())
    }

    fn get_file(&self, options: &GetFileOptions) -> Result<Vec<u8>, Error> {
        match options.encoding {
            Some(Encoding::Base64) => Err(Error::InvokeError("no base64".to_string())),
            _ => Ok(self.file.clone()),
        }
    }
}

fn resolver() -> WrapperResolver<EchoWrapper> {
    WrapperResolver { uri: uri("ens", "wrapper.eth"), wrapper: Arc::new(EchoWrapper { file: vec![7] }) }
}

#[test]
fn wrapper_resolver_resolves_its_own_uri_to_the_wrapper() {
    let r = resolver();
    let asked = uri("ens", "wrapper.eth");
    match r._try_resolve_uri::<()>(&asked) {
        Ok(UriPackageOrWrapper::Wrapper(u, w)) => {
            assert_eq!(u.uri, "wrap://ens/wrapper.eth");
            assert!(Arc::ptr_eq(&w, &r.wrapper));
            assert_eq!(w.get_file(&GetFileOptions { path: "x".to_string(), encoding: None }).unwrap(), vec![7]);
        }
        _ => panic!("expected the wrapper"),
    }
}

#[test]
fn wrapper_resolver_hands_other_uris_back() {
    let r = resolver();
    let asked = uri("ens", "other.eth");
    match r._try_resolve_uri::<()>(&asked) {
        Ok(UriPackageOrWrapper::Uri(u)) => {
            assert_eq!(u.uri, "wrap://ens/other.eth");
            assert_eq!(u.authority, "ens");
            assert_eq!(u.path, "other.eth");
        }
        _ => panic!("expected the uri"),
    }
}

#[test]
fn wrapper_resolver_compares_uri_text_only() {
    let r = resolver();
    let asked = Uri { uri: "wrap://ens/wrapper.eth".to_string(), authority: "x".to_string(), path: "y".to_string() };
    assert!(matches!(r._try_resolve_uri::<()>(&asked), Ok(UriPackageOrWrapper::Wrapper(_, _))));
}

#[test]
fn wrapper_resolver_step_description() {
    let r = resolver();
    assert_eq!(r.get_step_description(&uri("a", "b")), "Wrapper (wrap://ens/wrapper.eth)");
}

#[test]
fn wrapper_resolver_debug_text() {
    assert_eq!(resolver().debug_string(), "WrapperResolver: wrap://ens/wrapper.eth");
}

#[test]
fn uri_displays_as_its_text() {
    let u = uri("ipfs", "Qm123");
    assert_eq!(u.to_string(), "wrap://ipfs/Qm123");
    let c = u.clone();
    assert_eq!(c.uri, u.uri);
    assert_eq!(c.authority, u.authority);
    assert_eq!(c.path, u.path);
}

#[test]
fn wrapper_trait_invoke_echoes_args() {
    let mut w = EchoWrapper { file: vec![] };
    assert_eq!(w.invoke(Arc::new(NoInvoker), &uri("a", "b"), "m", Some(&[1, 2]), None).unwrap(), vec![1, 2]);
    assert_eq!(
        w.invoke(Arc::new(NoInvoker), &uri("a", "b"), "sub", None, None),
        Err(Error::InvokeError("wrap://a/b".to_string()))
    );
    assert!(w.get_file(&GetFileOptions { path: "p".to_string(), encoding: Some(Encoding::Base64) }).is_err());
    assert!(w.get_file(&GetFileOptions { path: "p".to_string(), encoding: Some(Encoding::UTF8) }).is_ok());
}
