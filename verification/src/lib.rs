pub mod text;
pub mod numbers;
pub mod names;
pub mod common;
pub mod task;
pub mod requirement;
pub mod keyed;
pub mod ids;
pub mod order;
pub mod outside;
pub mod error;
pub mod task_service;
pub mod requirement_service;
pub mod state;
pub mod query;
pub mod scope;
pub mod sync;
pub mod laws;
pub mod commands;
pub mod tools;
pub mod statistics;
pub mod update_laws;
