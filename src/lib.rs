//! Verified core of a folder uploader that hands the transfer itself to an
//! external synchronisation tool: file counting, the tool's command line, and
//! the status record that the display reads.
pub mod command;
pub mod status;
pub mod text;
pub mod uploader;
pub mod walker;
