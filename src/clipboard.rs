//! The pending operation, the errors, and the two decisions: marking a file
//! and committing the pending operation.

use crate::path::{absolute, absolute_of, file_name, file_name_of};
use vstd::prelude::*;

verus! {

/// Whether a commit duplicates the source or relocates it.
#[derive(Clone, Copy, PartialEq, Eq, Debug, Structural)]
pub enum MoveOp {
    Copy,
    Move,
}

/// The one record the clipboard holds: a mode and the absolute path of the
/// marked file.
#[derive(Clone, Debug)]
pub struct PendingOperation {
    pub moveop: MoveOp,
    pub object_path: Vec<u8>,
}

/// A pending operation as a mathematical value.
pub struct Pending {
    pub moveop: MoveOp,
    pub source: Seq<u8>,
}

impl View for PendingOperation {
    type V = Pending;

    open spec fn view(&self) -> Pending {
        Pending { moveop: self.moveop, source: self.object_path@ }
    }
}

/// A transfer for the caller to perform: rename or copy `from` to `to`.
#[derive(Clone, Debug)]
pub struct Transfer {
    pub moveop: MoveOp,
    pub from: Vec<u8>,
    pub to: Vec<u8>,
}

/// A transfer as a mathematical value.
pub struct TransferPlan {
    pub moveop: MoveOp,
    pub from: Seq<u8>,
    pub to: Seq<u8>,
}

impl View for Transfer {
    type V = TransferPlan;

    open spec fn view(&self) -> TransferPlan {
        TransferPlan { moveop: self.moveop, from: self.from@, to: self.to@ }
    }
}

/// Why the clipboard could not be read.
#[derive(Clone, Copy, PartialEq, Eq, Debug, Structural)]
pub enum StoreError {
    /// Nothing was ever saved.
    Empty,
    /// The stored bytes are not a pending operation.
    Corrupt,
    /// The storage location could not be read or written.
    Io,
}

/// What a probe of a path found there.
#[derive(Clone, Copy, PartialEq, Eq, Debug, Structural)]
pub enum EntryKind {
    Missing,
    File,
    Directory,
    Other,
}

/// The failures of marking and committing.
#[derive(Clone, Copy, PartialEq, Eq, Debug, Structural)]
pub enum YankError {
    /// A commit found the clipboard empty.
    NoSourceSpecified,
    /// The path to mark, or the marked file at commit time, does not exist.
    SourceNotFound,
    /// The clipboard could not be saved or loaded.
    StoreAccessFailure,
    /// The path to mark is a directory or another kind of entry than a file.
    UnsupportedEntryKind,
    /// The destination of a commit has no absolute form.
    DestinationPathInvalid,
    /// The rename or copy failed.
    TransferFailure,
}

/// The mode a mark records: cut means move.
pub open spec fn mode_of(cut: bool) -> MoveOp {
    if cut {
        MoveOp::Move
    } else {
        MoveOp::Copy
    }
}

/// What marking `file`, seen from `cwd` and probed as `kind`, yields.
pub open spec fn mark_result(file: Seq<u8>, cut: bool, cwd: Seq<u8>, kind: EntryKind) -> Result<
    Pending,
    YankError,
> {
    match kind {
        EntryKind::Missing => Err(YankError::SourceNotFound),
        EntryKind::Directory | EntryKind::Other => Err(YankError::UnsupportedEntryKind),
        EntryKind::File => match absolute_of(cwd, file) {
            None => Err(YankError::SourceNotFound),
            Some(a) => Ok(Pending { moveop: mode_of(cut), source: a }),
        },
    }
}

/// Where a commit of the file at `source` goes: the explicit destination when
/// there is one, else the source's file name in `cwd`; both made absolute.
pub open spec fn destination_of(source: Seq<u8>, paste: Option<Seq<u8>>, cwd: Seq<u8>) -> Option<
    Seq<u8>,
> {
    match paste {
        Some(b) => absolute_of(cwd, b),
        None => match file_name_of(source) {
            Some(n) => absolute_of(cwd, n),
            None => None,
        },
    }
}

/// What committing yields, given what the store load returned, the explicit
/// destination, the working directory and whether the source still exists.
pub open spec fn commit_result(
    loaded: Result<Pending, StoreError>,
    paste: Option<Seq<u8>>,
    cwd: Seq<u8>,
    source_exists: bool,
) -> Result<TransferPlan, YankError> {
    match loaded {
        Err(StoreError::Empty) => Err(YankError::NoSourceSpecified),
        Err(_) => Err(YankError::StoreAccessFailure),
        Ok(rec) => match destination_of(rec.source, paste, cwd) {
            None => Err(YankError::DestinationPathInvalid),
            Some(to) => if source_exists {
                Ok(TransferPlan { moveop: rec.moveop, from: rec.source, to })
            } else {
                Err(YankError::SourceNotFound)
            },
        },
    }
}

pub open spec fn view_result<T: View, E>(r: Result<T, E>) -> Result<T::V, E> {
    match r {
        Ok(v) => Ok(v@),
        Err(e) => Err(e),
    }
}

pub open spec fn view_option<T: View>(o: Option<T>) -> Option<T::V> {
    match o {
        Some(v) => Some(v@),
        None => None,
    }
}

/// Marks `file` for copy, or for move when `cut` holds. `kind` is what a
/// probe found at `file`; `cwd` is the working directory. Nothing on disk
/// changes: the record is for the caller to save.
pub fn mark(file: &Vec<u8>, cut: bool, cwd: &Vec<u8>, kind: EntryKind) -> (r: Result<
    PendingOperation,
    YankError,
>)
    requires
        cwd@.len() + file@.len() < usize::MAX,
    ensures
        view_result(r) == mark_result(file@, cut, cwd@, kind),
{
    match kind {
        EntryKind::Missing => Err(YankError::SourceNotFound),
        EntryKind::Directory | EntryKind::Other => Err(YankError::UnsupportedEntryKind),
        EntryKind::File => match absolute(cwd, file) {
            None => Err(YankError::SourceNotFound),
            Some(a) => {
                let moveop = if cut {
                    MoveOp::Move
                } else {
                    MoveOp::Copy
                };
                Ok(PendingOperation { moveop, object_path: a })
            },
        },
    }
}

/// Resolves the pending operation into a transfer. `loaded` is what the
/// store load returned, `paste` the explicit destination if any, `cwd` the
/// working directory and `source_exists` whether the marked file is still
/// there. The record itself is left to the store: a commit never clears it.
pub fn commit(
    loaded: Result<PendingOperation, StoreError>,
    paste: Option<Vec<u8>>,
    cwd: &Vec<u8>,
    source_exists: bool,
) -> (r: Result<Transfer, YankError>)
    requires
        loaded matches Ok(rec) ==> cwd@.len() + rec.object_path@.len() < usize::MAX,
        paste matches Some(b) ==> cwd@.len() + b@.len() < usize::MAX,
    ensures
        view_result(r) == commit_result(view_result(loaded), view_option(paste), cwd@, source_exists),
{
    let rec = match loaded {
        Err(StoreError::Empty) => {
            return Err(YankError::NoSourceSpecified);
        },
        Err(_) => {
            return Err(YankError::StoreAccessFailure);
        },
        Ok(rec) => rec,
    };
    let dest = match paste {
        Some(b) => absolute(cwd, &b),
        None => match file_name(&rec.object_path) {
            Some(n) => {
                proof {
                    crate::path::lemma_file_name_plain(rec.object_path@);
                }
                absolute(cwd, &n)
            },
            None => None,
        },
    };
    match dest {
        None => Err(YankError::DestinationPathInvalid),
        Some(to) => if source_exists {
            Ok(Transfer { moveop: rec.moveop, from: rec.object_path, to })
        } else {
            Err(YankError::SourceNotFound)
        },
    }
}

} // verus!
