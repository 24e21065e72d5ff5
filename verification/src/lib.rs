//! Axel: the logic of a private API server for the KonoSuba mobile game,
//! and of the tool that points a running client at it.

pub mod api;
pub mod blob;
pub mod bool_as_int;
pub mod build_info;
pub mod call;
pub mod handler;
pub mod level;
pub mod master;
pub mod patcher;
pub mod protocol;
pub mod text;
