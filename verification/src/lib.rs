//! Control plane for registering user-supplied scripts ("lambdas") and
//! executing them inside isolation environments ("sandboxes").
//!
//! The library holds the verified execution plane: the lambda and sandbox
//! data model, script materialization (shebang handling, content-hashed
//! artifact names), launch-command construction, the in-memory catalogs,
//! and the stream-multiplexer state machine that turns the four
//! asynchronous event sources of a running child process into one ordered
//! output stream.  The surrounding process (HTTP routing, file system and
//! pipe I/O, the async runtime) consumes these functions from outside.

pub mod api;
pub mod catalog;
pub mod error;
pub mod lambda_app;
pub mod mux;
pub mod pagination;
pub mod sandbox;
