//! The state shared by the request handlers.
use std::sync::Arc;
use vstd::prelude::*;
use crate::config::AppConfig;
use crate::services::RedisService;

verus! {

/// The configuration and the store client, shared by all handlers.
pub struct AppState {
    pub config: Arc<AppConfig>,
    pub redis: Arc<RedisService>,
}

} // verus!
