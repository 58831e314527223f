//! Federation engine of a link-aggregation service: servers that are run
//! independently exchange posts, comments, votes and moderation actions as
//! signed activities.
//!
//! `apub` holds the engine: the inbox gateway that takes deliveries in, the
//! dispatcher and the handlers that turn activities into changes of the
//! store, the actor cache, the activity ledger and the outbound delivery
//! queue. The engine does no input or output of its own. Where a delivery
//! cannot be answered without a document from another server, the gateway
//! says which one, and the caller delivers again with it.
//!
//! The other modules hold what the service's client API shares with the
//! engine: the rules on names, titles and filtered words (`utils`), paging
//! and search patterns (`db_utils`), the API's requests as plain data
//! (`api_structs`) and the decisions of some of its endpoints (`api`).

pub mod api;
pub mod api_structs;
pub mod apub;
pub mod db_utils;
pub mod hcaptcha;
pub mod rows;
pub mod sorted;
pub mod text;
pub mod utils;
pub mod websocket;
