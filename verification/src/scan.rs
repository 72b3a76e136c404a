//! Choosing the files to handle from what a directory walk has seen.
//!
//! The walk itself belongs to the caller. This module decides which
//! directories the walk may enter and which of the entries it met are images.

use crate::origin::texts;
use crate::paths::{extension, extension_of};
use crate::route::{Options, OptionsModel};
use vstd::prelude::*;
use vstd::string::StrSliceExecFns;

verus! {

/// What kind of thing a directory entry is.
#[derive(Clone, Copy, Debug, PartialEq, Eq, Structural)]
pub enum EntryKind {
    Directory,
    File,
    Other,
}

/// One entry met during a walk: its full path, its own name and its kind.
#[derive(Debug, PartialEq, Eq)]
pub struct Entry {
    pub path: String,
    pub name: String,
    pub kind: EntryKind,
}

/// [`Entry`] as plain values.
pub struct EntryModel {
    pub path: Seq<char>,
    pub name: Seq<char>,
    pub kind: EntryKind,
}

impl View for Entry {
    type V = EntryModel;

    open spec fn view(&self) -> EntryModel {
        EntryModel { path: self.path@, name: self.name@, kind: self.kind }
    }
}

/// The entries of a list, as plain values.
pub open spec fn entry_models(entries: Seq<Entry>) -> Seq<EntryModel> {
    Seq::new(entries.len(), |k: int| entries[k]@)
}

/// `name` is the name of one of the two destination folders.
pub open spec fn is_reserved(name: Seq<char>, options: OptionsModel) -> bool {
    name == options.comfy_dir_name || name == options.webui_dir_name
}

/// A walk goes on into an entry unless it is a directory with a reserved name.
pub open spec fn is_entered(kind: EntryKind, name: Seq<char>, options: OptionsModel) -> bool {
    !(kind == EntryKind::Directory && is_reserved(name, options))
}

/// The number of a character, with the capitals `A` to `Z` lowered.
pub open spec fn lowered(c: char) -> int {
    if 65 <= (c as int) <= 90 {
        (c as int) + 32
    } else {
        c as int
    }
}

/// `ext`, with its ASCII capitals lowered, is `word`.
pub open spec fn reads_as(ext: Seq<char>, word: Seq<char>) -> bool {
    &&& ext.len() == word.len()
    &&& forall|i: int| 0 <= i < ext.len() ==> lowered(#[trigger] ext[i]) == (word[i] as int)
}

/// `ext` is the extension of an image format that is handled.
pub open spec fn is_image_extension(ext: Seq<char>) -> bool {
    ||| reads_as(ext, "png"@)
    ||| reads_as(ext, "jpg"@)
    ||| reads_as(ext, "jpeg"@)
    ||| reads_as(ext, "webp"@)
    ||| reads_as(ext, "avif"@)
}

/// The path has an extension, and it is that of an image.
pub open spec fn has_image_extension(path: Seq<char>) -> bool {
    match extension_of(path) {
        Some(ext) => is_image_extension(ext),
        None => false,
    }
}

/// An entry is handled if it is a file with an image's extension.
pub open spec fn is_wanted(entry: EntryModel) -> bool {
    entry.kind == EntryKind::File && has_image_extension(entry.path)
}

/// The paths of the wanted entries, in the order of the entries.
pub open spec fn wanted_paths(entries: Seq<EntryModel>) -> Seq<Seq<char>>
    decreases entries.len(),
{
    if entries.len() == 0 {
        Seq::empty()
    } else if is_wanted(entries.last()) {
        wanted_paths(entries.drop_last()).push(entries.last().path)
    } else {
        wanted_paths(entries.drop_last())
    }
}

/// What an input of the run is.
#[derive(Clone, Copy, Debug, PartialEq, Eq, Structural)]
pub enum RootKind {
    /// A directory, which is walked.
    Directory,
    /// A single file.
    File,
    /// Nothing that exists, or neither a file nor a directory.
    Missing,
}

/// The files that one input adds: for a directory the wanted entries of its
/// walk, for a file the file itself whatever its extension, else nothing.
pub open spec fn root_paths(kind: RootKind, root: Seq<char>, entries: Seq<EntryModel>) -> Seq<
    Seq<char>,
> {
    match kind {
        RootKind::Directory => wanted_paths(entries),
        RootKind::File => seq![root],
        RootKind::Missing => Seq::empty(),
    }
}

/// Whether a walk may go on into an entry: it stays out of every directory
/// that bears the name of a destination folder.
pub fn enters(kind: EntryKind, name: &String, options: &Options) -> (entered: bool)
    ensures
        entered == is_entered(kind, name@, options@),
{
    match kind {
        EntryKind::Directory => !(*name == options.comfy_dir_name || *name
            == options.webui_dir_name),
        _ => true,
    }
}

fn reads_as_word(ext: &str, word: &str) -> (same: bool)
    ensures
        same == reads_as(ext@, word@),
{
    let n: usize = ext.unicode_len();
    if n != word.unicode_len() {
        return false;
    }
    let mut i: usize = 0;
    while i < n
        invariant
            i <= n,
            n == ext@.len(),
            n == word@.len(),
            forall|j: int| 0 <= j < i ==> lowered(#[trigger] ext@[j]) == (word@[j] as int),
        decreases n - i,
    {
        let code: u32 = ext.get_char(i) as u32;
        let low: u32 = if 65 <= code && code <= 90 {
            code + 32
        } else {
            code
        };
        if low != word.get_char(i) as u32 {
            assert(lowered(ext@[i as int]) != (word@[i as int] as int));
            return false;
        }
        i += 1;
    }
    true
}

/// Whether `ext` names an image format that is handled: `png`, `jpg`, `jpeg`,
/// `webp` or `avif`, in any mix of capitals and small letters.
pub fn is_supported_extension(ext: &str) -> (supported: bool)
    ensures
        supported == is_image_extension(ext@),
{
    reads_as_word(ext, "png") || reads_as_word(ext, "jpg") || reads_as_word(ext, "jpeg")
        || reads_as_word(ext, "webp") || reads_as_word(ext, "avif")
}

/// Whether the path ends in the extension of an image.
pub fn is_image_path(path: &str) -> (image: bool)
    ensures
        image == has_image_extension(path@),
{
    match extension(path) {
        Some(ext) => is_supported_extension(ext.as_str()),
        None => false,
    }
}

/// Whether an entry of a walk is handled.
pub fn is_candidate(entry: &Entry) -> (wanted: bool)
    ensures
        wanted == is_wanted(entry@),
{
    match entry.kind {
        EntryKind::File => is_image_path(entry.path.as_str()),
        _ => false,
    }
}

/// Appends the paths of the wanted entries to `found`, in their order.
pub fn collect_candidates(entries: &Vec<Entry>, found: &mut Vec<String>)
    ensures
        texts(final(found)@) == texts(old(found)@) + wanted_paths(entry_models(entries@)),
{
    let ghost before = texts(found@);
    let ghost all = entry_models(entries@);
    let mut k: usize = 0;
    assert(all.take(0) =~= Seq::<EntryModel>::empty());
    assert(texts(found@) =~= before + wanted_paths(all.take(0)));
    while k < entries.len()
        invariant
            k <= entries.len(),
            all == entry_models(entries@),
            texts(found@) == before + wanted_paths(all.take(k as int)),
        decreases entries.len() - k,
    {
        proof {
            assert(all.take(k as int + 1).drop_last() =~= all.take(k as int));
            assert(all.take(k as int + 1).last() == entries@[k as int]@);
        }
        let ghost so_far = found@;
        if is_candidate(&entries[k]) {
            found.push(entries[k].path.clone());
            assert(texts(found@) =~= texts(so_far).push(entries@[k as int]@.path));
        }
        k += 1;
        assert(texts(found@) =~= before + wanted_paths(all.take(k as int)));
    }
    assert(all.take(k as int) =~= all);
}

/// Appends to `found` the files that one input of the run adds. `entries` is
/// what the walk of a directory has seen; it is not read for another input.
pub fn gather_root(kind: RootKind, root: &String, entries: &Vec<Entry>, found: &mut Vec<String>)
    ensures
        texts(final(found)@) == texts(old(found)@) + root_paths(
            kind,
            root@,
            entry_models(entries@),
        ),
{
    let ghost before = found@;
    match kind {
        RootKind::Directory => collect_candidates(entries, found),
        RootKind::File => {
            found.push(root.clone());
            assert(texts(found@) =~= texts(before) + seq![root@]);
        },
        RootKind::Missing => {
            assert(texts(found@) =~= texts(before) + Seq::<Seq<char>>::empty());
        },
    }
}

/// A walk never enters a directory that bears the name of either
/// destination folder, so what an earlier run has sorted is not met again.
pub proof fn law_destination_folders_are_not_entered(name: Seq<char>, options: OptionsModel)
    requires
        name == options.comfy_dir_name || name == options.webui_dir_name,
    ensures
        !is_entered(EntryKind::Directory, name, options),
{
}

/// Only files with an image's extension are chosen from a walk: every path
/// that comes out belongs to a wanted entry that went in.
pub proof fn law_only_images_are_chosen(entries: Seq<EntryModel>, k: int)
    requires
        0 <= k < wanted_paths(entries).len(),
    ensures
        exists|j: int|
            0 <= j < entries.len() && is_wanted(#[trigger] entries[j]) && entries[j].path
                == wanted_paths(entries)[k],
    decreases entries.len(),
{
    if entries.len() > 0 {
        let rest = entries.drop_last();
        if k < wanted_paths(rest).len() {
            law_only_images_are_chosen(rest, k);
            let j = choose|j: int|
                0 <= j < rest.len() && is_wanted(#[trigger] rest[j]) && rest[j].path
                    == wanted_paths(rest)[k];
            assert(entries[j] == rest[j]);
        } else {
            assert(is_wanted(entries[entries.len() - 1]));
        }
    }
}

} // verus!
