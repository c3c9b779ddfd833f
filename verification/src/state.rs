//! The run configuration and cancellation record shared between the user
//! interface and the pipeline.
//!
//! The value itself is plain; the surrounding program keeps exactly one
//! instance behind a mutual-exclusion boundary and acquires it per field
//! access, never across a blocking call.

use vstd::prelude::*;

verus! {

/// The user's choices for a run, plus the cooperative cancellation flag.
pub struct SharedState {
    /// Where the primary artifact is extracted; the secondary artifact goes
    /// into a nested subdirectory of it.
    pub extraction_dir: String,
    /// Chooses which of the two primary download links is used.
    pub is_deluxe_version: bool,
    /// Gates whether the secondary artifact is fetched and extracted at all.
    pub install_spr: bool,
    /// Set once per run attempt by the user's cancel request; polled by the
    /// pipeline at every checkpoint and never cleared mid-run.
    pub abort_requested: bool,
}

impl SharedState {
    pub fn new(extraction_dir: String) -> (r: SharedState)
        ensures
            r.extraction_dir == extraction_dir,
            r.is_deluxe_version == true,
            r.install_spr == true,
            r.abort_requested == false,
    {
        SharedState { extraction_dir, is_deluxe_version: true, install_spr: true, abort_requested: false }
    }

    pub fn get_abort_flag(&self) -> (r: bool)
        ensures
            r == self.abort_requested,
    {
        self.abort_requested
    }

    pub fn set_abort_flag(&mut self, v: bool)
        ensures
            *final(self) == (SharedState { abort_requested: v, ..*old(self) }),
    {
        self.abort_requested = v;
    }

    pub fn get_deluxe_ver_flag(&self) -> (r: bool)
        ensures
            r == self.is_deluxe_version,
    {
        self.is_deluxe_version
    }

    pub fn set_deluxe_ver_flag(&mut self, v: bool)
        ensures
            *final(self) == (SharedState { is_deluxe_version: v, ..*old(self) }),
    {
        self.is_deluxe_version = v;
    }

    pub fn get_install_spr_flag(&self) -> (r: bool)
        ensures
            r == self.install_spr,
    {
        self.install_spr
    }

    pub fn set_install_spr_flag(&mut self, v: bool)
        ensures
            *final(self) == (SharedState { install_spr: v, ..*old(self) }),
    {
        self.install_spr = v;
    }

    pub fn get_extraction_dir(&self) -> (r: &String)
        ensures
            r == self.extraction_dir,
    {
        &self.extraction_dir
    }

    pub fn set_extraction_dir(&mut self, dir: String)
        ensures
            *final(self) == (SharedState { extraction_dir: dir, ..*old(self) }),
    {
        self.extraction_dir = dir;
    }
}

} // verus!
