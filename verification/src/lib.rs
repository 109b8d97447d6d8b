//! A small settings library: one process-wide boolean flag, the service
//! operations that read and write it, the form-field decoding rules for
//! submissions, and the markup rendered for the pages that show it.

pub mod form;
pub mod page;
pub mod settings;
