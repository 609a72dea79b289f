use vstd::prelude::*;

use crate::error::Error;
use crate::uri::Uri;

verus! {

/// A resolver that asks a URI resolver extension, a wrapper at
/// `implementation_uri`, to resolve URIs.
pub struct UriResolverWrapper {
    pub implementation_uri: Uri,
}

/// The answer of a resolver extension: a URI to go on with, a manifest, both
/// or neither.
#[derive(Clone, Debug)]
pub struct MaybeUriOrManifest {
    pub uri: Option<String>,
    pub manifest: Option<Vec<u8>>,
}

/// How the loader resolved the URI whose extension is being loaded.
pub enum LoadedResolution {
    /// The loader failed.
    Failed,
    /// The loader stopped at this URI, with no package or wrapper.
    Uri(Uri),
    /// The loader found a package, from which the wrapper is still to be created.
    Package,
    /// The loader found a loaded wrapper.
    Wrapper,
}

/// Where a resolution through an extension stands.
pub enum ExtensionPhase {
    /// The loader is resolving the URI, to load the extension's wrapper.
    LoadingExtension,
    /// The wrapper is being created from the package the loader found.
    CreatingWrapper,
    /// The environment for the URI and the invoker are being fetched.
    LoadingInvoker,
    /// The extension's wrapper is being invoked.
    Invoking,
    /// The extension's msgpack answer is being decoded.
    Decoding,
    /// The resolution has ended.
    Done,
}

/// What the caller reports back after performing an action.
pub enum ExtensionEvent {
    /// The loader resolved the URI.
    ExtensionResolved(LoadedResolution),
    /// The package created the wrapper, or failed with this text.
    WrapperCreated(Result<(), String>),
    /// The invoker was fetched, or fetching it failed.
    InvokerLoaded(Result<(), Error>),
    /// The extension answered with these msgpack bytes, or the invocation failed.
    Invoked(Result<Vec<u8>, Error>),
    /// The answer was decoded, or decoding failed with this text.
    Decoded(Result<MaybeUriOrManifest, String>),
}

/// Which resolution context an action runs under.
pub enum ContextUse {
    /// A sub-context of the caller's context, created for loading the
    /// extension.
    SubContext,
    /// The caller's own resolution context.
    CallerContext,
}

/// What the caller is to do next.
pub enum ExtensionAction {
    /// Resolve `uri` with the loader, under `context`.
    ResolveUri { uri: Uri, context: ContextUse },
    /// Create the wrapper from the package the loader found.
    CreateWrapper,
    /// Fetch the environment registered for this URI, and the invoker.
    LoadInvoker(Uri),
    /// Invoke `method` of the extension's wrapper for `uri`, with the msgpack
    /// arguments `{ "authority": authority, "path": path }` and the fetched
    /// environment, under `context`.
    Invoke { uri: Uri, method: String, authority: String, path: String, context: ContextUse },
    /// Decode these msgpack bytes as a `MaybeUriOrManifest`.
    Decode(Vec<u8>),
    /// The resolution's result: the URI it ends at, or an error.
    Finish(Result<Uri, Error>),
}

/// The state of one resolution of `uri` through the extension at
/// `implementation_uri`.
pub struct ExtensionResolution {
    pub uri: Uri,
    pub implementation_uri: Uri,
    pub phase: ExtensionPhase,
}

/// The method a resolver extension is invoked with.
pub open spec fn resolver_method() -> Seq<char> {
    "tryResolverUri"@
}

/// `"UriResolverWrapper - Implementation called: " + uri`.
pub open spec fn extension_step_description(uri: Seq<char>) -> Seq<char> {
    "UriResolverWrapper - Implementation called: "@ + uri
}

/// The message when the loader fails on `uri`.
pub open spec fn resolution_failed_message(uri: Seq<char>) -> Seq<char> {
    "Failed to resolver wrapper: "@ + uri
}

/// The message when the loader stops at `last` while loading the extension
/// `extension` to resolve `uri`.
pub open spec fn not_fully_resolved_message(
    uri: Seq<char>,
    extension: Seq<char>,
    last: Seq<char>,
) -> Seq<char> {
    "While resolving "@ + uri + " with URI resolver extension "@ + extension
        + ", the extension could not be fully resolved. Last tried URI is "@ + last
}

/// The message when the extension's answer cannot be decoded.
pub open spec fn decode_failed_message(reason: Seq<char>) -> Seq<char> {
    "Failed to decode result: "@ + reason
}

/// How far a resolution has come; every step raises it.
pub open spec fn extension_phase_rank(phase: ExtensionPhase) -> nat {
    match phase {
        ExtensionPhase::LoadingExtension => 0,
        ExtensionPhase::CreatingWrapper => 1,
        ExtensionPhase::LoadingInvoker => 2,
        ExtensionPhase::Invoking => 3,
        ExtensionPhase::Decoding => 4,
        ExtensionPhase::Done => 5,
    }
}

/// Whether `action` ends the resolution with an error that `pred` accepts.
pub open spec fn finishes_err(action: ExtensionAction, pred: spec_fn(Error) -> bool) -> bool {
    action matches ExtensionAction::Finish(Err(e)) && pred(e)
}

/// Whether `action` invokes the resolver method of the extension for `uri`,
/// under the caller's resolution context.
pub open spec fn invokes_extension(action: ExtensionAction, uri: Uri) -> bool {
    action matches ExtensionAction::Invoke { uri: u, method: m, authority: a, path: p, context: c }
        && u == uri && m@ == resolver_method() && a@ == uri.authority@ && p@ == uri.path@
        && c is CallerContext
}

/// Whether `action` decodes `bytes`.
pub open spec fn decodes(action: ExtensionAction, bytes: Seq<u8>) -> bool {
    action matches ExtensionAction::Decode(b) && b@ == bytes
}

/// One step of a resolution through an extension: from `pre`, on `event`, to
/// `post`, asking for `action`. The URI and the extension stay as they were.
pub open spec fn extension_step(
    pre: ExtensionResolution,
    event: ExtensionEvent,
    post: ExtensionResolution,
    action: ExtensionAction,
) -> bool {
    &&& post.uri == pre.uri
    &&& post.implementation_uri == pre.implementation_uri
    &&& match event {
        ExtensionEvent::ExtensionResolved(LoadedResolution::Failed) => post.phase is Done
            && finishes_err(
            action,
            |e: Error|
                e matches Error::ResolutionError(m) && m@ == resolution_failed_message(
                    pre.uri.uri@,
                ),
        ),
        ExtensionEvent::ExtensionResolved(LoadedResolution::Uri(last)) => post.phase is Done
            && finishes_err(
            action,
            |e: Error|
                e matches Error::LoadWrapperError(m) && m@ == not_fully_resolved_message(
                    pre.uri.uri@,
                    pre.implementation_uri.uri@,
                    last.uri@,
                ),
        ),
        ExtensionEvent::ExtensionResolved(LoadedResolution::Package) => post.phase is CreatingWrapper
            && action is CreateWrapper,
        ExtensionEvent::ExtensionResolved(LoadedResolution::Wrapper) => post.phase is LoadingInvoker
            && action == ExtensionAction::LoadInvoker(pre.uri),
        ExtensionEvent::WrapperCreated(Ok(())) => post.phase is LoadingInvoker && action
            == ExtensionAction::LoadInvoker(pre.uri),
        ExtensionEvent::WrapperCreated(Err(reason)) => post.phase is Done && finishes_err(
            action,
            |e: Error| e matches Error::WrapperCreateError(m) && m@ == reason@,
        ),
        ExtensionEvent::InvokerLoaded(Ok(())) => post.phase is Invoking && invokes_extension(
            action,
            pre.uri,
        ),
        ExtensionEvent::InvokerLoaded(Err(err)) => post.phase is Done && action
            == ExtensionAction::Finish(Err(err)),
        ExtensionEvent::Invoked(Ok(bytes)) => post.phase is Decoding && decodes(action, bytes@),
        ExtensionEvent::Invoked(Err(err)) => post.phase is Done && action == ExtensionAction::Finish(
            Err(err),
        ),
        ExtensionEvent::Decoded(Ok(_)) => post.phase is Done && action == ExtensionAction::Finish(
            Ok(pre.uri),
        ),
        ExtensionEvent::Decoded(Err(reason)) => post.phase is Done && finishes_err(
            action,
            |e: Error|
                e matches Error::MsgpackError(m) && m@ == decode_failed_message(reason@),
        ),
    }
}

/// Whether `action` ends the resolution successfully at `uri`.
pub open spec fn finishes_at(action: ExtensionAction, uri: Uri) -> bool {
    action == ExtensionAction::Finish(Ok::<Uri, Error>(uri))
}

/// A run of a resolution through an extension: `states[0]` is where it
/// started, and each `events[i]` answers `states[i]`, leading to
/// `states[i + 1]` and the action `actions[i]`.
pub open spec fn extension_run(
    states: Seq<ExtensionResolution>,
    events: Seq<ExtensionEvent>,
    actions: Seq<ExtensionAction>,
) -> bool {
    &&& states.len() == events.len() + 1
    &&& actions.len() == events.len()
    &&& forall|i: int|
        0 <= i < events.len() ==> #[trigger] states[i].accepts(events[i]) && extension_step(
            states[i],
            events[i],
            states[i + 1],
            actions[i],
        )
}

/// A step that answers the last action takes the resolution further.
pub proof fn lemma_extension_step_progress(
    pre: ExtensionResolution,
    event: ExtensionEvent,
    post: ExtensionResolution,
    action: ExtensionAction,
)
    requires
        pre.accepts(event),
        extension_step(pre, event, post, action),
    ensures
        extension_phase_rank(post.phase) > extension_phase_rank(pre.phase),
        action is Finish <==> post.phase is Done,
{
}

/// Over any run of a resolution through an extension: the URI being resolved
/// never changes; the run takes at most five steps; the result is reported
/// once, by the last action; and a successful result is the URI that was
/// asked for, whatever the extension answered.
pub proof fn lemma_extension_run(
    states: Seq<ExtensionResolution>,
    events: Seq<ExtensionEvent>,
    actions: Seq<ExtensionAction>,
)
    requires
        extension_run(states, events, actions),
    ensures
        forall|i: int| 0 <= i < states.len() ==> #[trigger] states[i].uri == states[0].uri,
        forall|i: int|
            0 <= i < states.len() ==> extension_phase_rank(#[trigger] states[i].phase) >= i,
        events.len() <= 5,
        forall|i: int| 0 <= i < actions.len() - 1 ==> !(#[trigger] actions[i] is Finish),
        forall|i: int, u: Uri|
            0 <= i < actions.len() && #[trigger] finishes_at(actions[i], u) ==> u == states[0].uri,
    decreases events.len(),
{
    if events.len() > 0 {
        let n = events.len() - 1;
        let s = states.take(n + 1);
        let e = events.take(n);
        let a = actions.take(n);
        assert(extension_run(s, e, a)) by {
            assert forall|i: int| 0 <= i < e.len() implies #[trigger] s[i].accepts(e[i])
                && extension_step(s[i], e[i], s[i + 1], a[i]) by {
                assert(states[i].accepts(events[i]));
            }
        }
        lemma_extension_run(s, e, a);
        assert(states[n].accepts(events[n]));
        lemma_extension_step_progress(states[n], events[n], states[n + 1], actions[n]);
        assert forall|i: int| 0 <= i < states.len() implies #[trigger] states[i].uri
            == states[0].uri by {
            assert(s[0] == states[0]);
            if i <= n {
                assert(s[i] == states[i]);
            } else {
                assert(s[n] == states[n]);
            }
        }
        assert forall|i: int| 0 <= i < states.len() implies extension_phase_rank(
            #[trigger] states[i].phase,
        ) >= i by {
            if i <= n {
                assert(s[i] == states[i]);
            } else {
                assert(s[n] == states[n]);
            }
        }
        assert(extension_phase_rank(states[n + 1].phase) <= 5);
        assert forall|i: int| 0 <= i < actions.len() - 1 implies !(#[trigger] actions[i] is Finish) by {
            assert(a[i] == actions[i]);
            if i < n - 1 {
            } else {
                assert(states[i].accepts(events[i]));
                lemma_extension_step_progress(states[i], events[i], states[i + 1], actions[i]);
                assert(states[i + 1].accepts(events[i + 1]));
            }
        }
        assert forall|i: int, u: Uri|
            0 <= i < actions.len() && #[trigger] finishes_at(actions[i], u) implies u
            == states[0].uri by {
            if i < n {
                assert(a[i] == actions[i]);
            } else {
                assert(states[n].accepts(events[n]));
            }
        }
    }
}

impl ExtensionResolution {
    /// Whether `event` answers the action this resolution asked for last.
    pub open spec fn accepts(self, event: ExtensionEvent) -> bool {
        match self.phase {
            ExtensionPhase::LoadingExtension => event is ExtensionResolved,
            ExtensionPhase::CreatingWrapper => event is WrapperCreated,
            ExtensionPhase::LoadingInvoker => event is InvokerLoaded,
            ExtensionPhase::Invoking => event is Invoked,
            ExtensionPhase::Decoding => event is Decoded,
            ExtensionPhase::Done => false,
        }
    }

    /// Takes the resolution one step further on `event`, the answer to the
    /// last action.
    pub fn step(&mut self, event: ExtensionEvent) -> (action: ExtensionAction)
        requires
            old(self).accepts(event),
        ensures
            extension_step(*old(self), event, *final(self), action),
            extension_phase_rank(final(self).phase) > extension_phase_rank(old(self).phase),
            action is Finish <==> final(self).phase is Done,
    {
        match event {
            ExtensionEvent::ExtensionResolved(LoadedResolution::Failed) => {
                self.phase = ExtensionPhase::Done;
                let msg = String::from_str("Failed to resolver wrapper: ");
                let msg = msg.concat(self.uri.uri.as_str());
                ExtensionAction::Finish(Err(Error::ResolutionError(msg)))
            },
            ExtensionEvent::ExtensionResolved(LoadedResolution::Uri(last)) => {
                self.phase = ExtensionPhase::Done;
                let msg = String::from_str("While resolving ");
                let msg = msg.concat(self.uri.uri.as_str());
                let msg = msg.concat(" with URI resolver extension ");
                let msg = msg.concat(self.implementation_uri.uri.as_str());
                let msg = msg.concat(
                    ", the extension could not be fully resolved. Last tried URI is ",
                );
                let msg = msg.concat(last.uri.as_str());
                ExtensionAction::Finish(Err(Error::LoadWrapperError(msg)))
            },
            ExtensionEvent::ExtensionResolved(LoadedResolution::Package) => {
                self.phase = ExtensionPhase::CreatingWrapper;
                ExtensionAction::CreateWrapper
            },
            ExtensionEvent::ExtensionResolved(LoadedResolution::Wrapper) => {
                self.phase = ExtensionPhase::LoadingInvoker;
                ExtensionAction::LoadInvoker(self.uri.clone())
            },
            ExtensionEvent::WrapperCreated(Ok(())) => {
                self.phase = ExtensionPhase::LoadingInvoker;
                ExtensionAction::LoadInvoker(self.uri.clone())
            },
            ExtensionEvent::WrapperCreated(Err(reason)) => {
                self.phase = ExtensionPhase::Done;
                ExtensionAction::Finish(Err(Error::WrapperCreateError(reason)))
            },
            ExtensionEvent::InvokerLoaded(Ok(())) => {
                self.phase = ExtensionPhase::Invoking;
                ExtensionAction::Invoke {
                    uri: self.uri.clone(),
                    method: String::from_str("tryResolverUri"),
                    authority: self.uri.authority.clone(),
                    path: self.uri.path.clone(),
                    context: ContextUse::CallerContext,
                }
            },
            ExtensionEvent::InvokerLoaded(Err(err)) => {
                self.phase = ExtensionPhase::Done;
                ExtensionAction::Finish(Err(err))
            },
            ExtensionEvent::Invoked(Ok(bytes)) => {
                self.phase = ExtensionPhase::Decoding;
                ExtensionAction::Decode(bytes)
            },
            ExtensionEvent::Invoked(Err(err)) => {
                self.phase = ExtensionPhase::Done;
                ExtensionAction::Finish(Err(err))
            },
            ExtensionEvent::Decoded(Ok(_)) => {
                self.phase = ExtensionPhase::Done;
                ExtensionAction::Finish(Ok(self.uri.clone()))
            },
            ExtensionEvent::Decoded(Err(reason)) => {
                self.phase = ExtensionPhase::Done;
                let msg = String::from_str("Failed to decode result: ");
                let msg = msg.concat(reason.as_str());
                ExtensionAction::Finish(Err(Error::MsgpackError(msg)))
            },
        }
    }
}

impl UriResolverWrapper {
    /// A resolver that asks the extension at `implementation_uri`.
    pub fn new(implementation_uri: Uri) -> (r: Self)
        ensures
            r.implementation_uri == implementation_uri,
    {
        UriResolverWrapper { implementation_uri }
    }

    /// Describes this resolution step for `uri`.
    pub fn get_step_description(&self, uri: &Uri) -> (r: String)
        ensures
            r@ == extension_step_description(uri.uri@),
    {
        let s = String::from_str("UriResolverWrapper - Implementation called: ");
        s.concat(uri.uri.as_str())
    }

    /// Starts resolving `uri` through this resolver's extension: the loader
    /// is first asked to resolve `uri`, under a sub-context of the caller's
    /// resolution context, to load the extension's wrapper.
    pub fn _try_resolve_uri(&self, uri: &Uri) -> (r: (ExtensionResolution, ExtensionAction))
        ensures
            r.0.uri == *uri,
            r.0.implementation_uri == self.implementation_uri,
            r.0.phase is LoadingExtension,
            r.1 == (ExtensionAction::ResolveUri { uri: *uri, context: ContextUse::SubContext }),
    {
        (
            ExtensionResolution {
                uri: uri.clone(),
                implementation_uri: self.implementation_uri.clone(),
                phase: ExtensionPhase::LoadingExtension,
            },
            ExtensionAction::ResolveUri { uri: uri.clone(), context: ContextUse::SubContext },
        )
    }
}

} // verus!
