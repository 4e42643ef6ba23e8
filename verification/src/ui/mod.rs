//! User interface texts and what the panels show and do.

pub mod i18n;
pub mod panels;
