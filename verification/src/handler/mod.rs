//! The request handlers, each as a state machine over Redis commands.
pub mod ws_connection;
pub mod auth;
pub mod register;
pub mod table_list;
pub mod lifecycle;
