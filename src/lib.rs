//! A personal task tracker: the task record, its rendering, and the
//! in-memory task collection with its create / read / update / delete rules.
pub mod cli;
pub mod storage;
pub mod task;
