use polywrap::error::{Error, PluginError};
use polywrap::plugin::{PluginAction, PluginEvent, PluginInvocation, PluginPhase};
use polywrap::uri::Uri;
use std::sync::Arc;

fn uri() -> Uri {
    Uri { uri: "wrap://plugin/fs".to_string(), authority: "plugin".to_string(), path: "fs".to_string() }
}

#[test]
fn plugin_with_env_sets_env_first() {
    let (mut inv, action) = PluginInvocation::start(Arc::new(7u32), &uri(), "readFile", Some(&[0x80]), Some(vec![9]));
    assert!(matches!(action, PluginAction::SetEnv(ref e) if *e == vec![9]));
    assert!(matches!(inv.phase, PluginPhase::SettingEnv));
    match inv.step(PluginEvent::EnvSet) {
        PluginAction::CallModule { method, args, invoker } => {
            assert_eq!(method, "readFile");
            assert_eq!(args, vec![0x80]);
            assert!(Arc::ptr_eq(&invoker, &inv.invoker));
        }
        _ => panic!("expected the module call"),
    }
}

#[test]
fn plugin_without_args_calls_module_with_none() {
    let (inv, action) = PluginInvocation::start(Arc::new(7u32), &uri(), "m", None, None);
    assert!(inv.args.is_empty());
    match action {
        PluginAction::CallModule { method, args, invoker } => {
            assert_eq!(*invoker, 7);
            assert_eq!(method, "m");
            assert!(args.is_empty());
        }
        _ => panic!("expected the module call"),
    }
}

#[test]
fn plugin_success_is_returned_unchanged() {
    let (mut inv, _) = PluginInvocation::start(Arc::new(7u32), &uri(), "m", Some(&[1]), None);
    match inv.step(PluginEvent::ModuleReturned(Ok(vec![4, 5]))) {
        PluginAction::Finish(Ok(bytes)) => assert_eq!(bytes, vec![4, 5]),
        _ => panic!("expected success"),
    }
    assert!(matches!(inv.phase, PluginPhase::Done));
}

#[test]
fn plugin_failure_becomes_invocation_error() {
    let (mut inv, _) = PluginInvocation::start(Arc::new(7u32), &uri(), "m", Some(&[0x80]), None);
    match inv.step(PluginEvent::ModuleReturned(Err("boom".to_string()))) {
        PluginAction::DescribeArgs(a) => assert_eq!(a, vec![0x80]),
        _ => panic!("expected the arguments to be described"),
    }
    match inv.step(PluginEvent::ArgsDescribed("{}".to_string())) {
        PluginAction::Finish(Err(e)) => assert_eq!(
            e,
            Error::PluginError(PluginError::InvocationError {
                uri: "wrap://plugin/fs".to_string(),
                method: "m".to_string(),
                args: "{}".to_string(),
                exception: "boom".to_string(),
            })
        ),
        _ => panic!("expected the invocation error"),
    }
}

#[test]
fn plugin_error_names_only_its_own_uri() {
    let other = Uri { uri: "wrap://plugin/other".to_string(), authority: "plugin".to_string(), path: "other".to_string() };
    let (mut a, _) = PluginInvocation::start(Arc::new(1u8), &uri(), "m", None, None);
    let (mut b, _) = PluginInvocation::start(Arc::new(1u8), &other, "m", None, None);
    a.step(PluginEvent::ModuleReturned(Err("x".to_string())));
    b.step(PluginEvent::ModuleReturned(Err("x".to_string())));
    let ea = a.step(PluginEvent::ArgsDescribed("null".to_string()));
    let eb = b.step(PluginEvent::ArgsDescribed("null".to_string()));
    match (ea, eb) {
        (
            PluginAction::Finish(Err(Error::PluginError(PluginError::InvocationError { uri: ua, method: ma, args: ja, exception: xa }))),
            PluginAction::Finish(Err(Error::PluginError(PluginError::InvocationError { uri: ub, method: mb, args: jb, exception: xb }))),
        ) => {
            assert_eq!(ua, "wrap://plugin/fs");
            assert_eq!(ub, "wrap://plugin/other");
            assert_eq!((ma, ja, xa), (mb, jb, xb));
        }
        _ => panic!("expected two invocation errors"),
    }
}
