//! A one-route JSON relay, as pure decisions.
//!
//! One exchange accepts `POST /hello` with a JSON body, hands the parsed
//! document to a fixed upstream service and answers with the upstream's JSON,
//! pretty-printed. The library decides; the caller owns the sockets: it reads
//! the request, performs each [`exchange::Step`] and reports what happened.

pub mod exchange;
pub mod gate;
pub mod json;
pub mod relay;
pub mod reply;
