//! Verified core of an algorithmic trading bot and of the WebSocket server
//! that bridges it to a broker: session bookkeeping, message routing,
//! strategy decisions and trade ledgers.
pub mod bot;
pub mod bot_messages;
pub mod chat;
pub mod db;
pub mod error;
pub mod historic;
pub mod json;
pub mod keyed;
pub mod ledger;
pub mod server_messages;
pub mod sessions;
pub mod stream;
pub mod strategy;
pub mod types;
