//! A minimal HTTP/1.1 server core: request parsing, routing, handlers and
//! response framing, plus the FIFO job queue that a fixed worker pool drains.
//! All protocol logic works on plain bytes; sockets, files and threads live
//! with the embedding program.

pub mod bytes;
pub mod queue;
pub mod request;
pub mod response;
pub mod router;
