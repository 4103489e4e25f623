//! Control core of an embedded approximate-nearest-neighbour index service.
//!
//! The graph engine, the embedding provider, the command queue and the disk
//! are driven by the surrounding application. This library holds every
//! decision taken around them: what a caller may ask, which command is
//! queued, how the single-writer worker reacts to each command, which answer
//! of the engine is passed on, and how snapshot files are named and promoted.
//!
//! Vector components and distances are carried as IEEE-754 single-precision
//! bit patterns (`u32`), so that all of it can be reasoned about exactly.
//!
//! Beside the index stand the records of the application and a few of its
//! rules: how the text of an activity is framed before it is indexed, which
//! elements of a window tree are kept and which actions they tell of, which
//! screenshots are stale, and what the setup of the text recognition takes.

pub mod config;
pub mod ranking;
pub mod snapshot;
pub mod recovery;
pub mod command;
pub mod worker;
pub mod fifo;
pub mod similarity_search;
pub mod database;
pub mod activity_log_repository;
pub mod element_details;
pub mod action_detector_engine;
pub mod entity;
pub mod clean_up_engine;
pub mod active_windows;
pub mod prerequisites;
