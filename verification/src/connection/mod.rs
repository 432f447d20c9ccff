//! Per-connection concerns: admission control and the state machine that
//! sequences one connection's stages.

pub mod limiter;
pub mod machine;
