//! A minimal HTTP demo server library: two fixed routes, served by a pure,
//! exact-match dispatcher. The library holds the route table, the fixed
//! response payloads, and the request-to-response logic; binding a socket and
//! moving bytes is left to the surrounding program.

pub mod content;
pub mod router;
pub mod text;
