//! A club registry service core: fetch-level views of clubs, students,
//! contacts, classrooms and join requests, the SQL statements that load and
//! update them, and the decisions that the HTTP handlers take.

pub mod auth;
pub mod batch;
pub mod club_request;
pub mod classroom;
pub mod clubs;
pub mod common;
pub mod contacts;
pub mod date;
pub mod handlers;
pub mod health;
pub mod ids;
pub mod relations;
pub mod student;
pub mod sql;
pub mod text;
