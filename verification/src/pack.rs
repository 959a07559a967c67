//! The on-disk shape of a clickpack, as a plain value.
//!
//! The host walks the clickpack directory once, decodes each audio file,
//! and hands the engine this two-level tree: the root's own files and
//! directories, and each directory's files and immediate subdirectories.
//! A file whose decode failed carries `None` and is skipped by the loader.

use vstd::prelude::*;

use crate::sample::SoundWrapper;

verus! {

/// Cap on the number of files a pack may describe, so that every sample
/// count in the engine provably fits in `usize` arithmetic.
pub const MAX_PACK_FILES: usize = 0x100_0000;

/// One file: its name (final path component) and its decoded sound, or
/// `None` where decoding failed and the file is to be skipped.
pub struct FileEntry {
    pub name: String,
    pub sound: Option<SoundWrapper>,
}

/// A directory two levels below the root (a category directory under a
/// player directory). Only its files are ever read.
pub struct LeafDir {
    pub name: String,
    pub files: Vec<FileEntry>,
}

/// A directory directly below the root: a player directory, or a category
/// directory of a pack laid out without player folders.
pub struct TopDir {
    pub name: String,
    pub files: Vec<FileEntry>,
    pub subdirs: Vec<LeafDir>,
}

/// The clickpack root: its name (final path component of the chosen
/// directory), its own files, and its immediate subdirectories.
pub struct PackDir {
    pub name: String,
    pub files: Vec<FileEntry>,
    pub dirs: Vec<TopDir>,
}

/// The sounds of the files that decoded, in file order.
pub open spec fn ok_sounds(files: Seq<FileEntry>) -> Seq<SoundWrapper>
    decreases files.len(),
{
    if files.len() == 0 {
        Seq::empty()
    } else {
        ok_sounds(files.drop_last()) + (match files.last().sound {
            Some(s) => seq![s],
            None => Seq::empty(),
        })
    }
}

pub proof fn lemma_ok_sounds_len(files: Seq<FileEntry>)
    ensures
        ok_sounds(files).len() <= files.len(),
    decreases files.len(),
{
    if files.len() > 0 {
        lemma_ok_sounds_len(files.drop_last());
    }
}

pub open spec fn sum_leaf_files(dirs: Seq<LeafDir>) -> int
    decreases dirs.len(),
{
    if dirs.len() == 0 {
        0
    } else {
        sum_leaf_files(dirs.drop_last()) + dirs.last().files@.len()
    }
}

pub open spec fn top_dir_files(d: TopDir) -> int {
    d.files@.len() + sum_leaf_files(d.subdirs@)
}

pub open spec fn sum_top_files(dirs: Seq<TopDir>) -> int
    decreases dirs.len(),
{
    if dirs.len() == 0 {
        0
    } else {
        sum_top_files(dirs.drop_last()) + top_dir_files(dirs.last())
    }
}

impl PackDir {
    /// The number of files the pack describes, over the whole tree.
    pub open spec fn total_files(self) -> int {
        self.files@.len() + sum_top_files(self.dirs@)
    }

    /// A pack the engine accepts: small enough that no sample count can
    /// overflow.
    pub open spec fn wf(self) -> bool {
        self.total_files() <= MAX_PACK_FILES
    }
}

pub proof fn lemma_sum_leaf_nonneg(dirs: Seq<LeafDir>)
    ensures
        sum_leaf_files(dirs) >= 0,
    decreases dirs.len(),
{
    if dirs.len() > 0 {
        lemma_sum_leaf_nonneg(dirs.drop_last());
    }
}

pub proof fn lemma_sum_top_nonneg(dirs: Seq<TopDir>)
    ensures
        sum_top_files(dirs) >= 0,
    decreases dirs.len(),
{
    if dirs.len() > 0 {
        lemma_sum_top_nonneg(dirs.drop_last());
        lemma_sum_leaf_nonneg(dirs.last().subdirs@);
    }
}

/// Each leaf directory's file list is bounded by the sum over the list.
pub proof fn lemma_leaf_le_sum(dirs: Seq<LeafDir>, i: int)
    requires
        0 <= i < dirs.len(),
    ensures
        dirs[i].files@.len() <= sum_leaf_files(dirs),
    decreases dirs.len(),
{
    if i == dirs.len() - 1 {
        lemma_sum_leaf_nonneg(dirs.drop_last());
    } else {
        assert(dirs.drop_last()[i] == dirs[i]);
        lemma_leaf_le_sum(dirs.drop_last(), i);
    }
}

/// Each top directory's whole subtree is bounded by the sum over the list.
pub proof fn lemma_top_le_sum(dirs: Seq<TopDir>, i: int)
    requires
        0 <= i < dirs.len(),
    ensures
        top_dir_files(dirs[i]) <= sum_top_files(dirs),
    decreases dirs.len(),
{
    if i == dirs.len() - 1 {
        lemma_sum_top_nonneg(dirs.drop_last());
    } else {
        assert(dirs.drop_last()[i] == dirs[i]);
        lemma_top_le_sum(dirs.drop_last(), i);
        lemma_sum_leaf_nonneg(dirs.last().subdirs@);
    }
}

/// In a well-formed pack every file list, at any level, holds at most
/// `MAX_PACK_FILES` entries.
pub proof fn lemma_wf_pack_lists_bounded(pack: PackDir)
    requires
        pack.wf(),
    ensures
        pack.files@.len() <= MAX_PACK_FILES,
        forall|i: int|
            0 <= i < pack.dirs@.len() ==> #[trigger] pack.dirs@[i].files@.len()
                <= MAX_PACK_FILES,
        forall|i: int, j: int|
            0 <= i < pack.dirs@.len() && 0 <= j < pack.dirs@[i].subdirs@.len()
                ==> #[trigger] pack.dirs@[i].subdirs@[j].files@.len() <= MAX_PACK_FILES,
{
    lemma_sum_top_nonneg(pack.dirs@);
    assert forall|i: int| 0 <= i < pack.dirs@.len() implies #[trigger] pack.dirs@[i].files@.len()
        <= MAX_PACK_FILES by {
        lemma_top_le_sum(pack.dirs@, i);
        lemma_sum_leaf_nonneg(pack.dirs@[i].subdirs@);
    }
    assert forall|i: int, j: int|
        0 <= i < pack.dirs@.len() && 0 <= j < pack.dirs@[i].subdirs@.len()
            implies #[trigger] pack.dirs@[i].subdirs@[j].files@.len() <= MAX_PACK_FILES by {
        lemma_top_le_sum(pack.dirs@, i);
        lemma_leaf_le_sum(pack.dirs@[i].subdirs@, j);
    }
}

/// Collects the sounds of the files that decoded, in file order.
pub fn collect_sounds(files: &Vec<FileEntry>) -> (v: Vec<SoundWrapper>)
    ensures
        v@ == ok_sounds(files@),
{
    let mut v: Vec<SoundWrapper> = Vec::new();
    let n = files.len();
    for i in 0..n
        invariant
            n == files@.len(),
            v@ == ok_sounds(files@.take(i as int)),
    {
        proof {
            assert(files@.take(i + 1).drop_last() =~= files@.take(i as int));
            assert(files@.take(i + 1).last() == files@[i as int]);
        }
        match &files[i].sound {
            Some(s) => {
                v.push(s.clone());
            },
            None => {},
        }
        proof {
            assert(v@ =~= ok_sounds(files@.take(i + 1)));
        }
    }
    proof {
        assert(files@.take(n as int) =~= files@);
    }
    v
}

} // verus!
