//! Checks that expected objects exist in object-storage buckets, fresh enough
//! and large enough, and reports each check as one line-protocol line.

pub mod auth;
pub mod check;
pub mod cli;
pub mod config;
pub mod envs;
pub mod s3;
pub mod schedule;
pub mod slack;
