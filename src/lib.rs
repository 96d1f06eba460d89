//! Change classification and target resolution for plugin projects that are
//! edited in place and pushed to a remote server file by file.

pub mod text;
pub mod pattern;
pub mod paths;
pub mod inference;
pub mod expression;
pub mod classify;
pub mod template;
pub mod remote;
pub mod wizard;
pub mod gradle;
pub mod updater;
