# elizaos-plugin-polymarket

A Polymarket plugin for elizaOS agents, with its core verified by Verus.

- `src/` is the verified library: the CLOB client's configuration, request
  URLs and error handling, trade-history pagination, EIP-712 order and API
  key signing, balance queries, real-time subscription checks, market
  search, research caching, providers and the service. Nearly every
  function carries a contract that Verus proves. Calls into `alloy`, `hex`
  and `serde_json`, and into a few parts of std (the system clock,
  `String::push`, an error's `to_string`), stand behind small trusted
  wrappers whose contracts are stated in their doc comments.
- `app/` is the plugin around it: HTTP requests with `reqwest`, JSON shapes
  with `serde`, async actions, the floating-point arithmetic of prices,
  volumes and positions, and the elizaOS provider trait.
- `tests/` exercises the library on concrete values.
