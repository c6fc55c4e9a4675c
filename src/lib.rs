//! A conditional, idempotent file fetcher: the decisions that tell whether a
//! download is needed, how its request is formed, how the server's answer is
//! read, and how the result is committed.

pub mod period;
pub mod dir_of;
pub mod fetch;
pub mod pipeline;
