//! Task tracking core: the task record and its lifecycle, the task store,
//! productivity analytics, and the two-path insight and accountability
//! generator, with their contracts.

pub mod accountability;
pub mod ai_engine;
pub mod analytics;
pub mod commands;
pub mod database;
pub mod insights;
pub mod laws;
pub mod listing;
pub mod models;
pub mod notifications;
pub mod records;
pub mod remote;
pub mod scheduler;
pub mod text;
pub mod time;
