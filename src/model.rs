//! A model of the filesystem that a transfer acts on, and the laws that a
//! mark followed by commits obeys in it.

use crate::clipboard::{
    commit_result, mark_result, EntryKind, MoveOp, Pending, StoreError, TransferPlan, YankError,
};
use crate::path::{absolute_of, file_name_of, is_absolute, join, lemma_absolute_of_name};
use vstd::prelude::*;

verus! {

/// Regular files by absolute path with their contents, and directories.
pub struct FsModel {
    pub files: Map<Seq<u8>, Seq<u8>>,
    pub dirs: Set<Seq<u8>>,
}

/// Every file has an absolute path with a file name, and no path is both a
/// file and a directory.
pub open spec fn wf(fs: FsModel) -> bool {
    forall|p: Seq<u8>|
        #[trigger] fs.files.contains_key(p) ==> is_absolute(p) && file_name_of(p) is Some
            && !fs.dirs.contains(p)
}

/// What a probe of `p` finds.
pub open spec fn kind_at(fs: FsModel, p: Seq<u8>) -> EntryKind {
    if fs.files.contains_key(p) {
        EntryKind::File
    } else if fs.dirs.contains(p) {
        EntryKind::Directory
    } else {
        EntryKind::Missing
    }
}

/// Whether anything is at `p`.
pub open spec fn exists_at(fs: FsModel, p: Seq<u8>) -> bool {
    fs.files.contains_key(p) || fs.dirs.contains(p)
}

/// The filesystem after a transfer: a copy writes the source's content at
/// the destination, replacing what was there; a move renames the source.
pub open spec fn perform(fs: FsModel, t: TransferPlan) -> FsModel {
    match t.moveop {
        MoveOp::Copy => FsModel { files: fs.files.insert(t.to, fs.files[t.from]), dirs: fs.dirs },
        MoveOp::Move => FsModel {
            files: fs.files.remove(t.from).insert(t.to, fs.files[t.from]),
            dirs: fs.dirs,
        },
    }
}

/// The filesystem after the file at `p` is deleted.
pub open spec fn delete(fs: FsModel, p: Seq<u8>) -> FsModel {
    FsModel { files: fs.files.remove(p), dirs: fs.dirs }
}

/// The record that marking `file` saves in `fs`, seen from `cwd`.
pub open spec fn marked(fs: FsModel, file: Seq<u8>, cut: bool, cwd: Seq<u8>) -> Result<
    Pending,
    YankError,
> {
    mark_result(file, cut, cwd, kind_at(fs, absolute_of(cwd, file)->Some_0))
}

/// What a commit in `fs` yields once `file` was marked, the record read back
/// from the store as it was saved.
pub open spec fn committed(
    fs: FsModel,
    rec: Pending,
    paste: Option<Seq<u8>>,
    cwd: Seq<u8>,
) -> Result<TransferPlan, YankError> {
    commit_result(Ok(rec), paste, cwd, exists_at(fs, rec.source))
}

/// The destination of a commit without an explicit one: the marked file's
/// name in the working directory.
pub open spec fn default_destination(source: Seq<u8>, cwd: Seq<u8>) -> Seq<u8> {
    join(cwd, file_name_of(source)->Some_0)
}

/// A file that `file` names from `cwd` in `fs`.
pub open spec fn names_file(fs: FsModel, file: Seq<u8>, cwd: Seq<u8>) -> bool {
    absolute_of(cwd, file) matches Some(a) && fs.files.contains_key(a)
}

/// Marking a file for copy and committing with no explicit destination
/// writes a file with the source's content at the source's name in the
/// working directory, and leaves the source in place.
pub proof fn lemma_copy_round_trip(fs: FsModel, file: Seq<u8>, cwd: Seq<u8>)
    requires
        wf(fs),
        names_file(fs, file, cwd),
    ensures
        ({
            let a = absolute_of(cwd, file)->Some_0;
            let dest = default_destination(a, cwd);
            let plan = TransferPlan { moveop: MoveOp::Copy, from: a, to: dest };
            let after = perform(fs, plan);
            &&& marked(fs, file, false, cwd) == Ok::<Pending, YankError>(
                Pending { moveop: MoveOp::Copy, source: a },
            )
            &&& committed(fs, marked(fs, file, false, cwd)->Ok_0, None, cwd) == Ok::<
                TransferPlan,
                YankError,
            >(plan)
            &&& after.files.contains_key(dest)
            &&& after.files[dest] == fs.files[a]
            &&& after.files.contains_key(a)
            &&& after.files[a] == fs.files[a]
        }),
{
    let a = absolute_of(cwd, file)->Some_0;
    lemma_absolute_of_name(cwd, a);
}

/// Marking a file with cut and committing with no explicit destination puts
/// the source's content at the destination and removes the source; a second
/// commit then finds no source.
pub proof fn lemma_move_round_trip(fs: FsModel, file: Seq<u8>, cwd: Seq<u8>)
    requires
        wf(fs),
        names_file(fs, file, cwd),
        default_destination(absolute_of(cwd, file)->Some_0, cwd) != absolute_of(cwd, file)->Some_0,
    ensures
        ({
            let a = absolute_of(cwd, file)->Some_0;
            let dest = default_destination(a, cwd);
            let rec = Pending { moveop: MoveOp::Move, source: a };
            let plan = TransferPlan { moveop: MoveOp::Move, from: a, to: dest };
            let after = perform(fs, plan);
            &&& marked(fs, file, true, cwd) == Ok::<Pending, YankError>(rec)
            &&& committed(fs, rec, None, cwd) == Ok::<TransferPlan, YankError>(plan)
            &&& after.files.contains_key(dest)
            &&& after.files[dest] == fs.files[a]
            &&& !after.files.contains_key(a)
            &&& committed(after, rec, None, cwd) == Err::<TransferPlan, YankError>(
                YankError::SourceNotFound,
            )
        }),
{
    let a = absolute_of(cwd, file)->Some_0;
    lemma_absolute_of_name(cwd, a);
}

/// After one mark for copy, committing twice succeeds both times with the
/// same transfer; the second writes the same content over the first's copy
/// and leaves the filesystem as the first left it.
pub proof fn lemma_repeat_paste(fs: FsModel, file: Seq<u8>, cwd: Seq<u8>, paste: Option<Seq<u8>>)
    requires
        wf(fs),
        names_file(fs, file, cwd),
        paste matches Some(b) ==> b.len() > 0,
    ensures
        ({
            let rec = marked(fs, file, false, cwd)->Ok_0;
            let first = committed(fs, rec, paste, cwd);
            let after = perform(fs, first->Ok_0);
            &&& first is Ok
            &&& committed(after, rec, paste, cwd) == first
            &&& perform(after, first->Ok_0) == after
        }),
{
    let a = absolute_of(cwd, file)->Some_0;
    lemma_absolute_of_name(cwd, a);
    let rec = marked(fs, file, false, cwd)->Ok_0;
    let first = committed(fs, rec, paste, cwd);
    let after = perform(fs, first->Ok_0);
    assert(after.files.insert(first->Ok_0.to, after.files[a]) =~= after.files);
}

/// With nothing ever saved, a commit fails with `NoSourceSpecified`.
pub proof fn lemma_empty_store(paste: Option<Seq<u8>>, cwd: Seq<u8>, source_exists: bool)
    ensures
        commit_result(Err(StoreError::Empty), paste, cwd, source_exists) == Err::<
            TransferPlan,
            YankError,
        >(YankError::NoSourceSpecified),
{
}

/// Marking a file, deleting it, then committing fails with `SourceNotFound`.
pub proof fn lemma_deleted_source(
    fs: FsModel,
    file: Seq<u8>,
    cut: bool,
    cwd: Seq<u8>,
    paste: Option<Seq<u8>>,
)
    requires
        wf(fs),
        names_file(fs, file, cwd),
        paste matches Some(b) ==> b.len() > 0,
    ensures
        ({
            let a = absolute_of(cwd, file)->Some_0;
            committed(delete(fs, a), marked(fs, file, cut, cwd)->Ok_0, paste, cwd) == Err::<
                TransferPlan,
                YankError,
            >(YankError::SourceNotFound)
        }),
{
    let a = absolute_of(cwd, file)->Some_0;
    lemma_absolute_of_name(cwd, a);
}

/// With an explicit destination, a commit writes the source's content at
/// exactly that path made absolute, whatever the source's name.
pub proof fn lemma_explicit_destination(
    fs: FsModel,
    file: Seq<u8>,
    cut: bool,
    cwd: Seq<u8>,
    b: Seq<u8>,
)
    requires
        wf(fs),
        names_file(fs, file, cwd),
        b.len() > 0,
    ensures
        ({
            let a = absolute_of(cwd, file)->Some_0;
            let dest = absolute_of(cwd, b)->Some_0;
            let r = committed(fs, marked(fs, file, cut, cwd)->Ok_0, Some(b), cwd);
            &&& r == Ok::<TransferPlan, YankError>(
                TransferPlan { moveop: crate::clipboard::mode_of(cut), from: a, to: dest },
            )
            &&& perform(fs, r->Ok_0).files[dest] == fs.files[a]
        }),
{
}

/// Marking a directory fails with `UnsupportedEntryKind`.
pub proof fn lemma_directory_mark(fs: FsModel, file: Seq<u8>, cut: bool, cwd: Seq<u8>)
    requires
        wf(fs),
        absolute_of(cwd, file) matches Some(a) && fs.dirs.contains(a),
    ensures
        marked(fs, file, cut, cwd) == Err::<Pending, YankError>(YankError::UnsupportedEntryKind),
{
}

} // verus!
