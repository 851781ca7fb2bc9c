//! The state core of a terminal client for collections of HTTP requests:
//! the application state, its text-editing primitives, the navigation and
//! focus state machine, and the key dispatcher, each with a proved contract.

pub mod app;
pub mod constants;
pub mod enums;
pub mod handler;
pub mod helpers;
pub mod model;
pub mod protocol;
pub mod request;
pub mod selection;
pub mod text;
pub mod theme;
