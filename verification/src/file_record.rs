//! The persisted record of a classified event: the event kind, the paths,
//! and what the filesystem probe reported about the file at classification
//! time. The probe itself (canonicalization, metadata) is the caller's; the
//! record is built here from its plain results, and the name, extension and
//! parent directory are derived from the canonical path.

use vstd::prelude::*;

use crate::event::EventType;
use crate::pathing::{basename, extension_of, parent_dir, spec_basename, spec_extension,
    spec_parent};

verus! {

/// What the filesystem probe reports about a path: its canonical form, the
/// size in bytes, and whether it is read-only.
#[derive(Debug, Clone)]
pub struct FileMetadata {
    pub canonical_path: String,
    pub file_size: u64,
    pub is_read_only: bool,
}

/// A record of one classified event, shaped for durable storage. Fields
/// that no probe fills yet (hashes, platform file id, permissions) stay
/// empty.
#[derive(Debug, Clone)]
pub struct File {
    pub event_type: EventType,
    pub path: String,
    pub previous_path: Option<String>,
    pub file_name: Option<String>,
    pub extension: Option<String>,
    pub file_size: Option<u64>,
    pub hash: Option<String>,
    pub previous_hash: Option<String>,
    pub file_id: Option<String>,
    pub parent_directory: Option<String>,
    pub permissions: Option<String>,
    pub is_read_only: bool,
    pub timestamp: u64,
}

impl File {
    /// Build the record for an event of kind `event_type` at `path`, from
    /// the probe's report and the caller's clock. The file name is the
    /// canonical path's basename (absent when that is empty), the extension
    /// is derived from that name, and the parent directory is the canonical
    /// path's directory prefix.
    pub fn new(event_type: EventType, path: String, meta: &FileMetadata, timestamp: u64) -> (r:
        File)
        ensures
            r.event_type == event_type,
            r.path@ == path@,
            r.previous_path is None,
            match r.file_name {
                Some(n) => n@ == spec_basename(meta.canonical_path@) && n@.len() > 0,
                None => spec_basename(meta.canonical_path@).len() == 0,
            },
            match r.extension {
                Some(e) => spec_extension(spec_basename(meta.canonical_path@)) matches Some(q)
                    && e@ == q,
                None => spec_extension(spec_basename(meta.canonical_path@)) is None,
            },
            r.file_size == Some(meta.file_size),
            r.hash is None,
            r.previous_hash is None,
            r.file_id is None,
            match r.parent_directory {
                Some(p) => spec_parent(meta.canonical_path@) matches Some(q) && p@ == q,
                None => spec_parent(meta.canonical_path@) is None,
            },
            r.permissions is None,
            r.is_read_only == meta.is_read_only,
            r.timestamp == timestamp,
    {
        let name = basename(meta.canonical_path.as_str());
        let extension = extension_of(name.as_str());
        let parent_directory = parent_dir(meta.canonical_path.as_str());
        let file_name = if name.unicode_len() > 0 {
            Some(name)
        } else {
            None
        };
        File {
            event_type,
            path,
            previous_path: None,
            file_name,
            extension,
            file_size: Some(meta.file_size),
            hash: None,
            previous_hash: None,
            file_id: None,
            parent_directory,
            permissions: None,
            is_read_only: meta.is_read_only,
            timestamp,
        }
    }

    /// The same record with the previous path filled in, as a rename or
    /// move event carries it.
    pub fn add_previous_path(self, path: String) -> (r: File)
        ensures
            r.previous_path matches Some(p) && p@ == path@,
            r.event_type == self.event_type,
            r.path == self.path,
            r.file_name == self.file_name,
            r.extension == self.extension,
            r.file_size == self.file_size,
            r.hash == self.hash,
            r.previous_hash == self.previous_hash,
            r.file_id == self.file_id,
            r.parent_directory == self.parent_directory,
            r.permissions == self.permissions,
            r.is_read_only == self.is_read_only,
            r.timestamp == self.timestamp,
    {
        File { previous_path: Some(path), ..self }
    }
}

} // verus!
