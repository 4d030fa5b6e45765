//! The logic of a back office for court-auction cars: forms and their
//! checks, login sessions, access paths, listing pages, the stock counts
//! board, the scraper's records, uploads and the chat room.
pub mod autocar;
pub mod cache;
pub mod chat;
pub mod forms;
pub mod ids;
pub mod paging;
pub mod path;
pub mod reptile;
pub mod rights;
pub mod session;
pub mod stock;
pub mod text;
pub mod upload;
pub mod visits;
