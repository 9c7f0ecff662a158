# node_template

Chain specifications and service decisions of a BABE/GRANDPA Substrate node,
written in Verus.

- `src/keys.rs`: development keys derived from `//seed` secret URIs (sr25519,
  ed25519) and the accounts of public keys.
- `src/genesis.rs`: the genesis configuration model and `testnet_genesis`.
- `src/chain_spec.rs`: test network chain specifications, the development and
  local test networks, and the laws that relate them.
- `src/service.rs`: the executor marker, the decisions of the partial service
  setup, and the BABE inherent slot.
- `app/`: the glue to the Substrate service and to the node's runtime crate.
