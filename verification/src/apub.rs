//! Exchange of signed activities between independently operated servers.
//!
//! A delivery enters through `inbox`, which reads the ledger and the actor
//! cache (`store`, `fetcher`), checks the signature (`signature`) and hands
//! the activity to `dispatch`. The handlers (`handlers`) change the store,
//! whose state is the value described in `state`; what holds of them on
//! every state is proved in `laws`. Activities that this server originates
//! leave through `activities` and `activity_queue`.

pub mod activities;
pub mod activity_queue;
pub mod community;
pub mod dispatch;
pub mod extensions;
pub mod fetcher;
pub mod handlers;
pub mod inbox;
pub mod json;
pub mod laws;
pub mod model;
pub mod origin;
pub mod private_message;
pub mod puller;
pub mod signature;
pub mod state;
pub mod store;
