# polywrap

The verified core of a polywrap client, written in Verus.

- `src/uri.rs`: wrap URIs.
- `src/error.rs`: client and plugin errors.
- `src/wrapper.rs`: the `Wrapper` trait and file options.
- `src/resolution.rs`: resolution results and the resolver that knows one wrapper.
- `src/manifest.rs`: manifests of the known formats, held as their JSON documents.
- `src/plugin.rs`: the decisions of a plugin wrapper's invocation, as a state machine.
- `src/resolver_extension.rs`: the decisions of resolving a URI through a URI
  resolver extension, as a state machine.
- `src/resolver_like.rs`: the kinds of resolver a foreign caller can hand over,
  and what each becomes in the client.

`app/` runs the two state machines against async loaders, invokers, packages and
plugin modules, and does the msgpack and JSON conversions they ask for.

Notes on the model:

- Manifests are held as their JSON documents (`serde_json::Value`) and are
  read by their `format` field; no schema of either format is checked, and
  `to_json_value` gives back the document the manifest holds.
- Msgpack encoding and decoding in `app/` goes through `rmp_serde`.
- The conversion of a foreign caller's resolver description
  (`SafeUriResolverLikeVariant`, read through raw pointers into the client's
  wasm and plugin types) is not part of this crate; only the kinds of resolver,
  `SafeUriResolverLikeType`, are.
