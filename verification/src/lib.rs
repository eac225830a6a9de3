pub mod task;
pub mod event_log;
pub mod materialize;
pub mod selection;
pub mod form;
pub mod app;
