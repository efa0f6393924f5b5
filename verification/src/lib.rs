//! The page resolution pipeline of a static site builder.
//!
//! A site is described by a configuration document: its directories, a
//! global template context, and the redirects and pages that it declares.
//! This crate loads such a document into a [`SiteBuilder`], reconciles the
//! declared entries with the page files that were found on disk, and decides
//! for every entry what the template engine is given and where the rendered
//! text goes.  Reading and writing files, and running the template engine,
//! is left to the caller.
//!
//! - [`paths`]: directory and output paths.
//! - [`document`]: the configuration document and the fields read from it.
//! - [`context`]: template contexts and how two of them are merged.
//! - [`page`]: page entries, their transition when a page file is found, and
//!   their rendering.
//! - [`registry`]: the entries of a site, at most one per output path.
//! - [`declare`]: the declarations of a document and how they enter the
//!   registry.
//! - [`builder`]: the site builder itself.
//! - [`listing`]: the bookkeeping of a recursive directory listing.
//! - [`error`]: what can go wrong.

pub mod builder;
pub mod context;
pub mod declare;
pub mod document;
pub mod error;
pub mod listing;
pub mod page;
pub mod paths;
pub mod registry;

pub use crate::builder::SiteBuilder;
pub use crate::page::PageBuilder;
