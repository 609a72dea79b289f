use std::sync::Arc;
use vstd::prelude::*;

use crate::error::{Error, PluginError};
use crate::uri::Uri;

verus! {

/// Where an invocation of a plugin wrapper stands.
pub enum PluginPhase {
    /// The environment is being handed to the plugin module.
    SettingEnv,
    /// The plugin module is running the method.
    CallingModule,
    /// The module failed with `exception`; the arguments are being rendered
    /// as JSON for the error.
    DescribingArgs { exception: String },
    /// The invocation has ended.
    Done,
}

/// What the caller reports back after performing an action.
pub enum PluginEvent {
    /// The environment was set on the module.
    EnvSet,
    /// The module returned from the method, with its result or its exception text.
    ModuleReturned(Result<Vec<u8>, String>),
    /// The msgpack arguments, rendered as JSON text.
    ArgsDescribed(String),
}

/// What the caller is to do next.
pub enum PluginAction<I: ?Sized> {
    /// Set this msgpack environment on the module.
    SetEnv(Vec<u8>),
    /// Run `method` of the module on the msgpack `args`, handing it `invoker`
    /// for its subinvocations.
    CallModule { method: String, args: Vec<u8>, invoker: Arc<I> },
    /// Render these msgpack arguments as JSON text.
    DescribeArgs(Vec<u8>),
    /// The invocation's result.
    Finish(Result<Vec<u8>, Error>),
}

/// The state of one invocation of a plugin wrapper.
pub struct PluginInvocation<I: ?Sized> {
    pub uri: Uri,
    /// The invoker the caller handed over, for the module's subinvocations.
    pub invoker: Arc<I>,
    pub method: String,
    pub args: Vec<u8>,
    pub phase: PluginPhase,
}

/// The arguments a plugin module is called with: those given, or none.
pub open spec fn plugin_args(args: Option<Seq<u8>>) -> Seq<u8> {
    match args {
        Some(a) => a,
        None => Seq::empty(),
    }
}

/// How far an invocation has come; every step raises it.
pub open spec fn plugin_phase_rank(phase: PluginPhase) -> nat {
    match phase {
        PluginPhase::SettingEnv => 0,
        PluginPhase::CallingModule => 1,
        PluginPhase::DescribingArgs { .. } => 2,
        PluginPhase::Done => 3,
    }
}

/// Whether `e` is the invocation error of a plugin at `uri` whose `method`
/// failed on arguments rendered as `args` with `exception`.
pub open spec fn is_invocation_error(
    e: Error,
    uri: Seq<char>,
    method: Seq<char>,
    args: Seq<char>,
    exception: Seq<char>,
) -> bool {
    e matches Error::PluginError(PluginError::InvocationError { uri: u, method: m, args: a, exception: x })
        && u@ == uri && m@ == method && a@ == args && x@ == exception
}

/// Whether `action` runs the module's `method` on `args`, handing it `invoker`.
pub open spec fn calls_module<I: ?Sized>(
    action: PluginAction<I>,
    method: Seq<char>,
    args: Seq<u8>,
    invoker: Arc<I>,
) -> bool {
    action matches PluginAction::CallModule { method: m, args: a, invoker: i } && m@ == method && a@
        == args && i == invoker
}

/// Whether `action` sets the environment `env` on the module.
pub open spec fn sets_env<I: ?Sized>(action: PluginAction<I>, env: Seq<u8>) -> bool {
    action matches PluginAction::SetEnv(e) && e@ == env
}

/// Whether `action` asks for `args` to be rendered as JSON.
pub open spec fn describes_args<I: ?Sized>(action: PluginAction<I>, args: Seq<u8>) -> bool {
    action matches PluginAction::DescribeArgs(a) && a@ == args
}

/// Whether `action` ends the invocation with the result `bytes`.
pub open spec fn finishes_ok<I: ?Sized>(action: PluginAction<I>, bytes: Seq<u8>) -> bool {
    action matches PluginAction::Finish(Ok(out)) && out@ == bytes
}

/// Whether `phase` waits for the arguments of a call that failed with `exception`.
pub open spec fn describing(phase: PluginPhase, exception: Seq<char>) -> bool {
    phase matches PluginPhase::DescribingArgs { exception: x } && x@ == exception
}

/// Whether `action` ends the invocation with the invocation error for `uri`,
/// `method`, arguments rendered as `args`, and `exception`.
pub open spec fn finishes_with_invocation_error<I: ?Sized>(
    action: PluginAction<I>,
    uri: Seq<char>,
    method: Seq<char>,
    args: Seq<char>,
    exception: Seq<char>,
) -> bool {
    action matches PluginAction::Finish(Err(e)) && is_invocation_error(e, uri, method, args, exception)
}

/// One step of a plugin invocation: from `pre`, on `event`, to `post`, asking
/// for `action`. The URI, method and arguments stay as they were.
pub open spec fn plugin_step<I: ?Sized>(
    pre: PluginInvocation<I>,
    event: PluginEvent,
    post: PluginInvocation<I>,
    action: PluginAction<I>,
) -> bool {
    &&& post.uri == pre.uri
    &&& post.invoker == pre.invoker
    &&& post.method@ == pre.method@
    &&& post.args@ == pre.args@
    &&& match event {
        PluginEvent::EnvSet => post.phase is CallingModule && calls_module(
            action,
            pre.method@,
            pre.args@,
            pre.invoker,
        ),
        PluginEvent::ModuleReturned(Ok(bytes)) => post.phase is Done && finishes_ok(action, bytes@),
        PluginEvent::ModuleReturned(Err(x)) => describing(post.phase, x@) && describes_args(
            action,
            pre.args@,
        ),
        PluginEvent::ArgsDescribed(json) => post.phase is Done && match pre.phase {
            PluginPhase::DescribingArgs { exception } => finishes_with_invocation_error(
                action,
                pre.uri.uri@,
                pre.method@,
                json@,
                exception@,
            ),
            _ => false,
        },
    }
}

/// A run of a plugin invocation: `states[0]` is where it started, and each
/// `events[i]` answers `states[i]`, leading to `states[i + 1]` and the action
/// `actions[i]`.
pub open spec fn plugin_run<I: ?Sized>(
    states: Seq<PluginInvocation<I>>,
    events: Seq<PluginEvent>,
    actions: Seq<PluginAction<I>>,
) -> bool {
    &&& states.len() == events.len() + 1
    &&& actions.len() == events.len()
    &&& forall|i: int|
        0 <= i < events.len() ==> #[trigger] states[i].accepts(events[i]) && plugin_step(
            states[i],
            events[i],
            states[i + 1],
            actions[i],
        )
}

/// A step that answers the last action takes the invocation further.
pub proof fn lemma_plugin_step_progress<I: ?Sized>(
    pre: PluginInvocation<I>,
    event: PluginEvent,
    post: PluginInvocation<I>,
    action: PluginAction<I>,
)
    requires
        pre.accepts(event),
        plugin_step(pre, event, post, action),
    ensures
        plugin_phase_rank(post.phase) > plugin_phase_rank(pre.phase),
        action is Finish <==> post.phase is Done,
{
}

/// Over any run of a plugin invocation: the URI, the invoker, the method and
/// the arguments never change; the run takes at most three steps; and the result
/// is reported once, by the last action.
pub proof fn lemma_plugin_run<I: ?Sized>(
    states: Seq<PluginInvocation<I>>,
    events: Seq<PluginEvent>,
    actions: Seq<PluginAction<I>>,
)
    requires
        plugin_run(states, events, actions),
    ensures
        forall|i: int|
            0 <= i < states.len() ==> (#[trigger] states[i]).uri == states[0].uri
                && states[i].invoker == states[0].invoker && states[i].method@ == states[0].method@ && states[i].args@ == states[0].args@,
        forall|i: int| 0 <= i < states.len() ==> plugin_phase_rank(#[trigger] states[i].phase) >= i,
        events.len() <= 3,
        forall|i: int| 0 <= i < actions.len() - 1 ==> !(#[trigger] actions[i] is Finish),
    decreases events.len(),
{
    if events.len() > 0 {
        let n = events.len() - 1;
        let s = states.take(n + 1);
        let e = events.take(n);
        let a = actions.take(n);
        assert(plugin_run(s, e, a)) by {
            assert forall|i: int| 0 <= i < e.len() implies #[trigger] s[i].accepts(e[i])
                && plugin_step(s[i], e[i], s[i + 1], a[i]) by {
                assert(states[i].accepts(events[i]));
            }
        }
        lemma_plugin_run(s, e, a);
        assert(states[n].accepts(events[n]));
        lemma_plugin_step_progress(states[n], events[n], states[n + 1], actions[n]);
        assert forall|i: int| 0 <= i < states.len() implies (#[trigger] states[i]).uri
            == states[0].uri && states[i].invoker == states[0].invoker && states[i].method@ == states[0].method@ && states[i].args@
            == states[0].args@ by {
            assert(s[0] == states[0]);
            if i <= n {
                assert(s[i] == states[i]);
            } else {
                assert(s[n] == states[n]);
            }
        }
        assert forall|i: int| 0 <= i < states.len() implies plugin_phase_rank(
            #[trigger] states[i].phase,
        ) >= i by {
            if i <= n {
                assert(s[i] == states[i]);
            } else {
                assert(s[n] == states[n]);
            }
        }
        assert(plugin_phase_rank(states[n + 1].phase) <= 3);
        assert forall|i: int| 0 <= i < actions.len() - 1 implies !(#[trigger] actions[i] is Finish) by {
            assert(a[i] == actions[i]);
            if i < n - 1 {
            } else {
                assert(states[i].accepts(events[i]));
                lemma_plugin_step_progress(states[i], events[i], states[i + 1], actions[i]);
                assert(states[i + 1].accepts(events[i + 1]));
            }
        }
    }
}

/// How a plugin invocation starts: `inv` is the new state and `action` the
/// first action, for `method` of the plugin at `uri` with `invoker`, the
/// given arguments and environment. The environment, when one is given, is
/// set on the module first; the module then runs on the given arguments, or
/// on none.
pub open spec fn plugin_start<I: ?Sized>(
    inv: PluginInvocation<I>,
    action: PluginAction<I>,
    invoker: Arc<I>,
    uri: Uri,
    method: Seq<char>,
    args: Option<Seq<u8>>,
    env: Option<Seq<u8>>,
) -> bool {
    &&& inv.uri == uri
    &&& inv.invoker == invoker
    &&& inv.method@ == method
    &&& inv.args@ == plugin_args(args)
    &&& match env {
        Some(e) => inv.phase is SettingEnv && sets_env(action, e),
        None => inv.phase is CallingModule && calls_module(action, method, inv.args@, invoker),
    }
}

/// Whether two phases are the same, exception texts compared by their view.
pub open spec fn same_phase(p1: PluginPhase, p2: PluginPhase) -> bool {
    match (p1, p2) {
        (PluginPhase::SettingEnv, PluginPhase::SettingEnv) => true,
        (PluginPhase::CallingModule, PluginPhase::CallingModule) => true,
        (
            PluginPhase::DescribingArgs { exception: x1 },
            PluginPhase::DescribingArgs { exception: x2 },
        ) => x1@ == x2@,
        (PluginPhase::Done, PluginPhase::Done) => true,
        _ => false,
    }
}

/// Whether two invocations are the same but for the URI of the plugin.
pub open spec fn same_but_uri<I: ?Sized>(s1: PluginInvocation<I>, s2: PluginInvocation<I>) -> bool {
    &&& s1.invoker == s2.invoker
    &&& s1.method@ == s2.method@
    &&& s1.args@ == s2.args@
    &&& same_phase(s1.phase, s2.phase)
}

/// Whether two actions are the same but for the URI that an invocation error
/// names.
pub open spec fn same_action_but_uri<I: ?Sized>(a1: PluginAction<I>, a2: PluginAction<I>) -> bool {
    match (a1, a2) {
        (PluginAction::SetEnv(e1), PluginAction::SetEnv(e2)) => e1@ == e2@,
        (
            PluginAction::CallModule { method: m1, args: x1, invoker: i1 },
            PluginAction::CallModule { method: m2, args: x2, invoker: i2 },
        ) => m1@ == m2@ && x1@ == x2@ && i1 == i2,
        (PluginAction::DescribeArgs(x1), PluginAction::DescribeArgs(x2)) => x1@ == x2@,
        (PluginAction::Finish(Ok(b1)), PluginAction::Finish(Ok(b2))) => b1@ == b2@,
        (
            PluginAction::Finish(
                Err(
                    Error::PluginError(
                        PluginError::InvocationError { uri: _, method: m1, args: j1, exception: x1 },
                    ),
                ),
            ),
            PluginAction::Finish(
                Err(
                    Error::PluginError(
                        PluginError::InvocationError { uri: _, method: m2, args: j2, exception: x2 },
                    ),
                ),
            ),
        ) => m1@ == m2@ && j1@ == j2@ && x1@ == x2@,
        _ => false,
    }
}

/// Two invocations started with the same invoker, method, arguments and
/// environment, for plugins at different URIs, start alike.
pub proof fn lemma_plugin_start_uri_independent<I: ?Sized>(
    inv1: PluginInvocation<I>,
    action1: PluginAction<I>,
    inv2: PluginInvocation<I>,
    action2: PluginAction<I>,
    invoker: Arc<I>,
    uri1: Uri,
    uri2: Uri,
    method: Seq<char>,
    args: Option<Seq<u8>>,
    env: Option<Seq<u8>>,
)
    requires
        plugin_start(inv1, action1, invoker, uri1, method, args, env),
        plugin_start(inv2, action2, invoker, uri2, method, args, env),
    ensures
        same_but_uri(inv1, inv2),
        same_action_but_uri(action1, action2),
{
}

/// The URI of a plugin plays no part in an invocation but to be named in an
/// invocation error: two invocations that are the same but for the URI, on
/// the same event, hand the module the same calls and end alike, and an
/// invocation error names each invocation's own URI.
pub proof fn lemma_plugin_step_uri_independent<I: ?Sized>(
    s1: PluginInvocation<I>,
    s2: PluginInvocation<I>,
    event: PluginEvent,
    post1: PluginInvocation<I>,
    post2: PluginInvocation<I>,
    a1: PluginAction<I>,
    a2: PluginAction<I>,
)
    requires
        same_but_uri(s1, s2),
        s1.accepts(event),
        plugin_step(s1, event, post1, a1),
        plugin_step(s2, event, post2, a2),
    ensures
        s2.accepts(event),
        same_but_uri(post1, post2),
        same_action_but_uri(a1, a2),
        post1.uri == s1.uri,
        post2.uri == s2.uri,
{
}

/// The URI of a plugin plays no part in a whole invocation but to be named
/// in an invocation error: two invocations started alike but for the URI and
/// answered with the same events hand the module the same calls, ask for the
/// same actions and end alike, and every state keeps its own URI.
pub proof fn lemma_plugin_runs_uri_independent<I: ?Sized>(
    states1: Seq<PluginInvocation<I>>,
    actions1: Seq<PluginAction<I>>,
    first1: PluginAction<I>,
    states2: Seq<PluginInvocation<I>>,
    actions2: Seq<PluginAction<I>>,
    first2: PluginAction<I>,
    events: Seq<PluginEvent>,
    invoker: Arc<I>,
    uri1: Uri,
    uri2: Uri,
    method: Seq<char>,
    args: Option<Seq<u8>>,
    env: Option<Seq<u8>>,
)
    requires
        plugin_start(states1[0], first1, invoker, uri1, method, args, env),
        plugin_start(states2[0], first2, invoker, uri2, method, args, env),
        plugin_run(states1, events, actions1),
        plugin_run(states2, events, actions2),
    ensures
        same_action_but_uri(first1, first2),
        forall|i: int| 0 <= i < states1.len() ==> same_but_uri(#[trigger] states1[i], states2[i]),
        forall|i: int| 0 <= i < actions1.len() ==> same_action_but_uri(#[trigger] actions1[i], actions2[i]),
        forall|i: int| 0 <= i < states1.len() ==> (#[trigger] states1[i]).uri == uri1,
        forall|i: int| 0 <= i < states2.len() ==> (#[trigger] states2[i]).uri == uri2,
    decreases events.len(),
{
    lemma_plugin_start_uri_independent(
        states1[0],
        first1,
        states2[0],
        first2,
        invoker,
        uri1,
        uri2,
        method,
        args,
        env,
    );
    lemma_plugin_run(states1, events, actions1);
    lemma_plugin_run(states2, events, actions2);
    if events.len() > 0 {
        let n = events.len() - 1;
        let s1 = states1.take(n + 1);
        let s2 = states2.take(n + 1);
        let e = events.take(n);
        let a1 = actions1.take(n);
        let a2 = actions2.take(n);
        assert(plugin_run(s1, e, a1)) by {
            assert forall|i: int| 0 <= i < e.len() implies #[trigger] s1[i].accepts(e[i])
                && plugin_step(s1[i], e[i], s1[i + 1], a1[i]) by {
                assert(states1[i].accepts(events[i]));
            }
        }
        assert(plugin_run(s2, e, a2)) by {
            assert forall|i: int| 0 <= i < e.len() implies #[trigger] s2[i].accepts(e[i])
                && plugin_step(s2[i], e[i], s2[i + 1], a2[i]) by {
                assert(states2[i].accepts(events[i]));
            }
        }
        assert(s1[0] == states1[0]);
        assert(s2[0] == states2[0]);
        lemma_plugin_runs_uri_independent(
            s1,
            a1,
            first1,
            s2,
            a2,
            first2,
            e,
            invoker,
            uri1,
            uri2,
            method,
            args,
            env,
        );
        assert(s1[n] == states1[n]);
        assert(s2[n] == states2[n]);
        assert(same_but_uri(states1[n], states2[n]));
        assert(states1[n].accepts(events[n]));
        assert(states2[n].accepts(events[n]));
        lemma_plugin_step_uri_independent(
            states1[n],
            states2[n],
            events[n],
            states1[n + 1],
            states2[n + 1],
            actions1[n],
            actions2[n],
        );
        assert forall|i: int| 0 <= i < states1.len() implies same_but_uri(
            #[trigger] states1[i],
            states2[i],
        ) by {
            if i <= n {
                assert(s1[i] == states1[i]);
                assert(s2[i] == states2[i]);
            }
        }
        assert forall|i: int| 0 <= i < actions1.len() implies same_action_but_uri(
            #[trigger] actions1[i],
            actions2[i],
        ) by {
            if i < n {
                assert(a1[i] == actions1[i]);
                assert(a2[i] == actions2[i]);
            }
        }
    }
}

impl<I: ?Sized> PluginInvocation<I> {
    /// Whether `event` answers the action this invocation asked for last.
    pub open spec fn accepts(self, event: PluginEvent) -> bool {
        match self.phase {
            PluginPhase::SettingEnv => event is EnvSet,
            PluginPhase::CallingModule => event is ModuleReturned,
            PluginPhase::DescribingArgs { .. } => event is ArgsDescribed,
            PluginPhase::Done => false,
        }
    }

    /// Starts invoking `method` of the plugin at `uri`. The environment, when
    /// one is given, is set on the module first; the module then runs on the
    /// given arguments, or on none.
    pub fn start(
        invoker: Arc<I>,
        uri: &Uri,
        method: &str,
        args: Option<&[u8]>,
        env: Option<Vec<u8>>,
    ) -> (r: (
        PluginInvocation<I>,
        PluginAction<I>,
    ))
        ensures
            plugin_start(
                r.0,
                r.1,
                invoker,
                *uri,
                method@,
                match args {
                    Some(a) => Some(a@),
                    None => None,
                },
                match env {
                    Some(e) => Some(e@),
                    None => None,
                },
            ),
    {
        let args: Vec<u8> = match args {
            Some(a) => vstd::slice::slice_to_vec(a),
            None => Vec::new(),
        };
        let invocation_method = String::from_str(method);
        match env {
            Some(e) => (
                PluginInvocation {
                    uri: uri.clone(),
                    invoker,
                    method: invocation_method,
                    args,
                    phase: PluginPhase::SettingEnv,
                },
                PluginAction::SetEnv(e),
            ),
            None => {
                let action = PluginAction::CallModule {
                    method: String::from_str(method),
                    args: args.clone(),
                    invoker: invoker.clone(),
                };
                (
                    PluginInvocation {
                        uri: uri.clone(),
                        invoker,
                        method: invocation_method,
                        args,
                        phase: PluginPhase::CallingModule,
                    },
                    action,
                )
            },
        }
    }

    /// Takes the invocation one step further on `event`, the answer to the
    /// last action. The module runs once the environment is set; a result of
    /// the module is the invocation's result; an exception of the module
    /// becomes an invocation error that names the URI, the method, the
    /// arguments rendered as JSON and the exception.
    pub fn step(&mut self, event: PluginEvent) -> (action: PluginAction<I>)
        requires
            old(self).accepts(event),
        ensures
            plugin_phase_rank(final(self).phase) > plugin_phase_rank(old(self).phase),
            action is Finish <==> final(self).phase is Done,
            plugin_step(*old(self), event, *final(self), action),
    {
        match event {
            PluginEvent::EnvSet => {
                self.phase = PluginPhase::CallingModule;
                PluginAction::CallModule {
                    method: self.method.clone(),
                    args: self.args.clone(),
                    invoker: self.invoker.clone(),
                }
            },
            PluginEvent::ModuleReturned(Ok(bytes)) => {
                self.phase = PluginPhase::Done;
                PluginAction::Finish(Ok(bytes))
            },
            PluginEvent::ModuleReturned(Err(exception)) => {
                self.phase = PluginPhase::DescribingArgs { exception };
                PluginAction::DescribeArgs(self.args.clone())
            },
            PluginEvent::ArgsDescribed(json) => {
                let exception = match &self.phase {
                    PluginPhase::DescribingArgs { exception } => exception.clone(),
                    _ => String::new(),
                };
                self.phase = PluginPhase::Done;
                PluginAction::Finish(
                    Err(
                        Error::PluginError(
                            PluginError::InvocationError {
                                uri: self.uri.to_string(),
                                method: self.method.clone(),
                                args: json,
                                exception,
                            },
                        ),
                    ),
                )
            },
        }
    }
}

} // verus!
