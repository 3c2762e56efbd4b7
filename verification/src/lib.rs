//! Decisions and data of a phase-based exporter for e-books that one owns:
//! the navigation state machine that drives a cloud reader page by page, the
//! reader simulator it is tested against, and the event log that records the
//! progress of each book.
pub mod text;
pub mod phase;
pub mod display;
pub mod page;
pub mod observation;
pub mod action;
pub mod book;
pub mod calibrate;
pub mod navigator;
pub mod browser;
pub mod fake;
pub mod record;
pub mod js;
pub mod cdp;
pub mod store;
pub mod workflow;
pub mod library;
