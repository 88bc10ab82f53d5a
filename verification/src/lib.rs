//! What one device keeps for a Library, and the decisions that keeping it
//! takes.
//!
//! Everything a device keeps for a Library is under one directory named after
//! it ([`library_dir`]), with a settings file that says which Library it is
//! and where on Storage it lives ([`device_settings`]). A Library comes here by
//! being joined ([`join`], [`join_flow`]) and is used by being opened
//! ([`open_flow`], [`open_library`]). Folders on this device stand for parts of
//! the Library ([`mapping`]), and each mapped folder carries a marker that says
//! which root it is ([`root_marker`]). What a run that returned `Ok` still has
//! to say is read through one view ([`findings`]), and every failure is said
//! one way to a person and another to a diagnostic event ([`error`]).
//!
//! The reading and writing of files, the prompts, and the calls to Storage are
//! the shell's; every decision they act on is made here.

pub mod device_settings;
pub mod entry_fetches;
pub mod error;
pub mod finding;
pub mod findings;
pub mod join;
pub mod join_flow;
pub mod library_dir;
pub mod library_id;
pub mod mapping;
pub mod name_defect;
pub mod open_flow;
pub mod open_library;
pub mod paths;
pub mod root_marker;
pub mod text;
