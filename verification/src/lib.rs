//! The secure connection layer of a peer-to-peer encrypted chat, and the
//! bookkeeping of the programs built on it.
//!
//! The core: identities and keys ([`crypto`], [`identity`]), the message
//! and its encrypted envelope ([`message`]), framing of the byte stream
//! ([`frame`]), the state of a peer ([`peer`]), one encrypted connection and
//! the table of connections ([`network`]), and the session, the engine and
//! the application above them ([`session`], [`engine`], [`chat_app`]).
//!
//! Around it: settings ([`config`], [`setup`]), the users of a machine
//! ([`user_manager`], [`cli`]), the search path ([`path_manager`]), the chat
//! prompt and screen ([`command`], [`ui`]), and helpers ([`stamp`],
//! [`text`]).
//!
//! Nothing here reads a socket, a file or the keyboard: functions take what
//! was read and say what is to be written. Where the time decides, it is an
//! argument, in milliseconds since the Unix epoch.
pub mod chat_app;
pub mod cli;
pub mod command;
pub mod config;
pub mod crypto;
pub mod engine;
pub mod frame;
pub mod identity;
pub mod message;
pub mod network;
pub mod path_manager;
pub mod peer;
pub mod session;
pub mod setup;
pub mod stamp;
pub mod text;
pub mod ui;
pub mod user_manager;
