//! Client library for a railway information service: typed response models
//! with alias-tolerant JSON field mapping, URL construction for the two
//! upstream hosts, and the error taxonomy shared by the relay server.

pub mod client;
pub mod digits;
pub mod error;
pub mod json;
pub mod relay;
pub mod station;
pub mod station_timetable;
pub mod train;
pub mod web;
