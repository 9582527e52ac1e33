//! Persistence and credential-caching core of a payment router: the payment
//! intent changeset model, the decisions of the cache-backed intent store, the
//! connector access-token coordinator and the inbound webhook pipeline.

pub mod crypto;
pub mod enums;
pub mod errors;
pub mod json;
pub mod kv_store;
pub mod payment_intent;
pub mod refresh_token;
pub mod router_data;
pub mod time_util;
pub mod webhooks;
