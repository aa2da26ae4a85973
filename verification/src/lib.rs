//! A small library that tracks GitHub repositories and the projects that
//! group them, and derives a health score for each.
//!
//! A repository carries the metrics last fetched for it (stars, forks,
//! issues, open pull requests, contributors, commits over the last thirty
//! days, watchers). Its health is a weighted blend of four factors —
//! activity, community, adoption and maintenance — each clamped to at most
//! one, scaled to the range zero to one hundred. A project owns one or more
//! repositories and carries the arithmetic mean of their health scores, or
//! one hundred while it owns none.
//!
//! All scores are exact rationals ([`score::Score`]); no rounding happens
//! anywhere. The record store ([`store::Store`]) keeps both tables and
//! maintains the save rules: a repository saved without a project gets a
//! fresh project of its own, and every repository save recomputes the owning
//! project's health.

pub mod projects;
pub mod repos;
pub mod score;
pub mod store;
