//! Control surface for a single cloud compute instance: the per-request
//! pipeline that validates a request, builds the control-plane call, reads
//! the answer, frames the webhook notice and decides the HTTP reply.
pub mod control;
pub mod handler;
pub mod notify;
pub mod request;
pub mod translate;
