use polywrap::error::Error;
use polywrap::resolver_extension::{
    ContextUse, ExtensionAction, ExtensionEvent, ExtensionPhase, LoadedResolution, MaybeUriOrManifest, UriResolverWrapper,
};
use polywrap::uri::Uri;

fn uri(authority: &str, path: &str) -> Uri {
    Uri {
        uri: format!("wrap://{}/{}", authority, path),
        authority: authority.to_string(),
        path: path.to_string(),
    }
}

fn resolver() -> UriResolverWrapper {
    UriResolverWrapper::new(uri("ens", "resolver.eth"))
}

#[test]
fn step_description() {
    assert_eq!(
        resolver().get_step_description(&uri("ens", "a.eth")),
        "UriResolverWrapper - Implementation called: wrap://ens/a.eth"
    );
}

#[test]
fn full_run_through_a_wrapper_ends_at_the_asked_uri() {
    let asked = uri("ens", "a.eth");
    let (mut run, action) = resolver()._try_resolve_uri(&asked);
    assert!(matches!(
        action,
        ExtensionAction::ResolveUri { ref uri, context: ContextUse::SubContext } if uri.uri == "wrap://ens/a.eth"
    ));
    match run.step(ExtensionEvent::ExtensionResolved(LoadedResolution::Wrapper)) {
        ExtensionAction::LoadInvoker(u) => assert_eq!(u.uri, "wrap://ens/a.eth"),
        _ => panic!("expected invoker loading"),
    }
    match run.step(ExtensionEvent::InvokerLoaded(Ok(()))) {
        ExtensionAction::Invoke { uri, method, authority, path, context } => {
            assert!(matches!(context, ContextUse::CallerContext));
            assert_eq!(uri.uri, "wrap://ens/a.eth");
            assert_eq!(method, "tryResolverUri");
            assert_eq!(authority, "ens");
            assert_eq!(path, "a.eth");
        }
        _ => panic!("expected the invocation"),
    }
    match run.step(ExtensionEvent::Invoked(Ok(vec![0x82]))) {
        ExtensionAction::Decode(b) => assert_eq!(b, vec![0x82]),
        _ => panic!("expected decoding"),
    }
    let answer = MaybeUriOrManifest { uri: Some("wrap://ens/b.eth".to_string()), manifest: None };
    match run.step(ExtensionEvent::Decoded(Ok(answer))) {
        ExtensionAction::Finish(Ok(u)) => assert_eq!(u.uri, "wrap://ens/a.eth"),
        _ => panic!("expected success"),
    }
    assert!(matches!(run.phase, ExtensionPhase::Done));
}

#[test]
fn package_creates_wrapper_first() {
    let (mut run, _) = resolver()._try_resolve_uri(&uri("ens", "a.eth"));
    assert!(matches!(run.step(ExtensionEvent::ExtensionResolved(LoadedResolution::Package)), ExtensionAction::CreateWrapper));
    assert!(matches!(run.step(ExtensionEvent::WrapperCreated(Ok(()))), ExtensionAction::LoadInvoker(_)));
}

#[test]
fn wrapper_creation_failure() {
    let (mut run, _) = resolver()._try_resolve_uri(&uri("ens", "a.eth"));
    run.step(ExtensionEvent::ExtensionResolved(LoadedResolution::Package));
    match run.step(ExtensionEvent::WrapperCreated(Err("bad wasm".to_string()))) {
        ExtensionAction::Finish(Err(e)) => assert_eq!(e, Error::WrapperCreateError("bad wasm".to_string())),
        _ => panic!("expected an error"),
    }
}

#[test]
fn loader_failure_is_a_resolution_error() {
    let (mut run, _) = resolver()._try_resolve_uri(&uri("ens", "a.eth"));
    match run.step(ExtensionEvent::ExtensionResolved(LoadedResolution::Failed)) {
        ExtensionAction::Finish(Err(e)) => {
            assert_eq!(e, Error::ResolutionError("Failed to resolver wrapper: wrap://ens/a.eth".to_string()))
        }
        _ => panic!("expected an error"),
    }
}

#[test]
fn loader_stopping_at_a_uri_is_a_load_error() {
    let (mut run, _) = resolver()._try_resolve_uri(&uri("ens", "a.eth"));
    match run.step(ExtensionEvent::ExtensionResolved(LoadedResolution::Uri(uri("ipfs", "Qm")))) {
        ExtensionAction::Finish(Err(e)) => assert_eq!(
            e,
            Error::LoadWrapperError(
                "While resolving wrap://ens/a.eth with URI resolver extension wrap://ens/resolver.eth, \
                 the extension could not be fully resolved. Last tried URI is wrap://ipfs/Qm"
                    .to_string()
            )
        ),
        _ => panic!("expected an error"),
    }
}

#[test]
fn invoker_and_invocation_errors_pass_through() {
    let (mut run, _) = resolver()._try_resolve_uri(&uri("ens", "a.eth"));
    run.step(ExtensionEvent::ExtensionResolved(LoadedResolution::Wrapper));
    match run.step(ExtensionEvent::InvokerLoaded(Err(Error::InvokeError("no invoker".to_string())))) {
        ExtensionAction::Finish(Err(e)) => assert_eq!(e, Error::InvokeError("no invoker".to_string())),
        _ => panic!("expected an error"),
    }
    let (mut run, _) = resolver()._try_resolve_uri(&uri("ens", "a.eth"));
    run.step(ExtensionEvent::ExtensionResolved(LoadedResolution::Wrapper));
    run.step(ExtensionEvent::InvokerLoaded(Ok(())));
    match run.step(ExtensionEvent::Invoked(Err(Error::InvokeError("x".to_string())))) {
        ExtensionAction::Finish(Err(e)) => assert_eq!(e, Error::InvokeError("x".to_string())),
        _ => panic!("expected an error"),
    }
}

#[test]
fn decode_failure_is_a_msgpack_error() {
    let (mut run, _) = resolver()._try_resolve_uri(&uri("ens", "a.eth"));
    run.step(ExtensionEvent::ExtensionResolved(LoadedResolution::Wrapper));
    run.step(ExtensionEvent::InvokerLoaded(Ok(())));
    run.step(ExtensionEvent::Invoked(Ok(vec![0xc1])));
    match run.step(ExtensionEvent::Decoded(Err("invalid marker".to_string()))) {
        ExtensionAction::Finish(Err(e)) => {
            assert_eq!(e, Error::MsgpackError("Failed to decode result: invalid marker".to_string()))
        }
        _ => panic!("expected an error"),
    }
}
