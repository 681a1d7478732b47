//! Ingestion pipeline of a chat bot: the long-poll cursor, the rows of the
//! event log, the bounded context window and the control loop's decisions.

pub mod chat_data;
pub mod conf;
pub mod db;
pub mod decimal;
pub mod gpt;
pub mod json;
pub mod orchestrator;
pub mod poll;
pub mod store;
pub mod tg;
pub mod update;
