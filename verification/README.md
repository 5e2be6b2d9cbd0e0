# ledger_transaction

Transactions of a replicated ledger, as a library verified with Verus: what a client signs, the
canonical bytes that are hashed and signed, what comes of a transaction, and the messages in which
transactions travel with the proofs that they are in the ledger.

- `src/` is the library. Every function has a contract over mathematical models of its values.
  `laws.rs` states what holds across functions: what is written is read back, bytes identify a
  transaction to the second, a list that is read is in one of its three states, and so on.
- Hash functions, the signature scheme and the verification of accumulator proofs are parameters.
  Contracts fix what they are called with and what becomes of their answers.
- Fields that repeat a message are those of the `protobuf` crate (the siblings of an accumulator
  path, which are byte strings, are a `Vec`), and lists are walked side by side with `itertools`.
  What the library takes on trust about them is stated in `proto.rs`, next to the calls;
  `argument.rs`, `time.rs` and `show.rs` hold such items for the standard library.
- The layouts are this library's own: the byte format of integers, byte strings, lists, addresses,
  keys, arguments, code and write sets; the length of an event key; the path of an accumulator
  proof; the classes of status; and the text of an argument, of code, of a write set and of
  fixed-length bytes.
- `tests/` runs the library on concrete values.
- `app/` has copies of the types that serialise with serde, print, and report errors.
