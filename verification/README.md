# pushkind_sms

An SMS bridge: JSON requests arrive on a ZeroMQ `SUB` socket, are validated,
and are published to Amazon SNS, with a bound on concurrent publishes.

- `src/` is the verified library: the request type, its validation (phone
  numbers checked with the `phonenumber` crate) and masking, the
  configuration and its number parsing, the SNS request, how a ZeroMQ
  receive result is read, and the decisions of the service loop as a state
  machine (`ServiceLoop`), with the laws that hold of them.
- `app/` is the program: it reads the environment, owns the ZeroMQ socket,
  the SNS client, the Tokio runtime, the semaphore and the signal handlers,
  decodes JSON, and carries out the actions that `ServiceLoop` asks for.
- `tests/` runs the library on concrete values.
