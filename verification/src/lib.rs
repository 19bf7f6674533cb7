//! Verified core of PaintFE's Paint.NET project import, browser persistence
//! and modal-dialog decisions.
//!
//! - [`text`]: character-level helpers on `&str` (equality, substring search).
//! - [`pdn`]: the framing and validation of the `.pdn` reader's reply, and the
//!   assembly of an imported canvas from it.
//! - [`web_storage`]: small persisted flags in the browser's `localStorage`
//!   and the mobile-browser hint.
//! - [`modal_flow`]: the decisions behind the paste, close and exit dialogs.

pub mod text;
pub mod pdn;
pub mod web_storage;
pub mod modal_flow;
