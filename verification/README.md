# bitcoin_capnp

A verified client for Bitcoin Core's Cap'n Proto IPC (libmultiprocess)
interface. It works with Bitcoin Core and compatible nodes, and is meant for
software that needs block templates and chain tip changes from a node.

- `src/` is the library, proved with Verus. It holds what the client decides:
  the command that a method call stands for, the request that a command leads
  to, what a response becomes, which template a monitor has, which tip changes
  are published, and how a connection is set up. `src/laws.rs` states what
  holds across these parts.
- `app/` runs the library: the actor thread, the socket, the RPC system, the
  channels. It is written against a small trait for the code that `capnpc`
  generates from the node's schemas.
- `tests/` runs the library on concrete values.
