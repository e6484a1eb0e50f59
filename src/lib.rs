//! Multi-tenant forum backend: the status engine for topics and replies,
//! the counter protocol that keeps derived counts in step, and the like
//! ledger that makes like/unlike idempotent.

pub mod app;
pub mod auth;
pub mod base;
pub mod common;
pub mod counter;
pub mod hash;
pub mod jwt;
pub mod ledger;
pub mod listing;
pub mod manager;
pub mod reply;
pub mod service;
pub mod sql;
pub mod status;
pub mod text;
pub mod topic;
pub mod user;
pub mod validate;
pub mod views;
pub mod web;
