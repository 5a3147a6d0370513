//! Events exchanged between the instances of a fuzzer: the configuration by
//! which instances recognise each other, the events themselves, and the
//! traits through which an event manager fires, processes and reports them.

pub mod config;
pub mod time;
pub mod event;
pub mod manager;
pub mod state;
