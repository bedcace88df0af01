//! The decision core of a small to-do service.
//!
//! A to-do item is a numbered record with a title and a completion flag. The
//! service keeps its items in one table of a relational database and serves
//! five requests over it: list, create, get, update and delete. This crate
//! never calls the database. It holds what the service decides and what that
//! means:
//!
//! - [`todo`], [`statement`] and [`reply`] are the values that go in and out;
//! - [`handlers`] turn a request into statements for the table and the
//!   table's answers into the reply;
//! - [`table`] says what each statement means on a table and keeps a table
//!   in memory that is proved to behave so;
//! - [`service`] says what each request is owed and proves that the handlers
//!   deliver it;
//! - [`theorems`] are what follows for every table and every request.

pub mod handlers;
pub mod reply;
pub mod service;
pub mod statement;
pub mod table;
pub mod theorems;
pub mod todo;
