//! Listing the media files that can be shown as wallpapers.

use std::cmp::Ordering;
use vstd::prelude::*;
use vstd::string::*;
use crate::types::{WallpaperInfo, WallpaperRecord};
use crate::utils::file_utils::{
    ends_in_plain_name, extension_fits, is_supported_extension, path_extension,
    supported_extensions, text_of,
};
use crate::utils::text::{lowercase_of, text_order, text_precedes};

verus! {

/// What the file system says of one path.
#[derive(Debug)]
pub struct FileEntry {
    /// The path, as text.
    pub path: String,
    /// Whether the path leads to a regular file.
    pub is_file: bool,
    /// The size in bytes; `None` where the file's metadata cannot be read.
    pub size: Option<u64>,
}

/// What a path says of the file it names.
#[derive(Debug)]
pub struct PathParts {
    /// The file name: the last component of the path, if it has one.
    pub name: Option<String>,
    /// The extension of the file name, without its dot, if it has one.
    pub extension: Option<String>,
}

/// Whether `part` stands somewhere in `whole`.
pub open spec fn is_part_of(part: Seq<char>, whole: Seq<char>) -> bool {
    exists|start: int|
        0 <= start && start + part.len() <= whole.len() && #[trigger] whole.subrange(
            start,
            start + part.len(),
        ) == part
}

/// Whether `whole` ends in `end`.
pub open spec fn ends_with(whole: Seq<char>, end: Seq<char>) -> bool {
    end.len() <= whole.len() && whole.subrange(whole.len() - end.len(), whole.len() as int) == end
}

/// What holds of the file name that is found in `path`, on every operating
/// system: it stands in the path, and where the path ends in a plain file
/// name, the path ends in the name found and the name found in the plain one.
pub open spec fn name_fits(path: Seq<char>, name: Option<Seq<char>>) -> bool {
    &&& name matches Some(text) ==> is_part_of(text, path)
    &&& forall|stem: Seq<char>, plain: Seq<char>| #[trigger]
        ends_in_plain_name(path, stem, plain) ==> name is Some && ends_with(path, name->0)
            && ends_with(name->0, stem + seq!['.'] + plain)
}

/// Whether `parts` can be what `path` says of its file.
pub open spec fn parts_fit(path: Seq<char>, parts: PathParts) -> bool {
    name_fits(path, text_of(parts.name)) && extension_fits(path, text_of(parts.extension))
}

/// `Path::file_name` gives the last component of the path, if it has one
/// that is a name. What counts as a component follows the rules of the
/// operating system, so the contract only says what holds under all of them:
/// the name stands in the path; and a path that is written with slashes
/// alone, names no drive or server and ends in `stem.extension` ends in its
/// file name, which ends in `stem.extension`.
#[verifier::external_body]
fn path_file_name(file_path: &str) -> (name: Option<String>)
    ensures
        name_fits(file_path@, text_of(name)),
{
    match std::path::Path::new(file_path).file_name() {
        Some(name) => Some(name.to_string_lossy().into_owned()),
        None => None,
    }
}

/// What `file_path` says of its file.
pub fn path_parts(file_path: &str) -> (parts: PathParts)
    ensures
        parts_fit(file_path@, parts),
{
    PathParts { name: path_file_name(file_path), extension: path_extension(file_path) }
}

/// The record of a media file, if its extension is a supported one in any
/// letter case; the record holds the extension in lowercase.
pub fn wallpaper_info(path: &str, name: &str, extension: &str, size: u64) -> (info: Option<
    WallpaperInfo,
>)
    ensures
        info is Some <==> supported_extensions().contains(lowercase_of(extension@)),
        info matches Some(record) ==> record@ == (WallpaperRecord {
            path: path@,
            name: name@,
            file_type: lowercase_of(extension@),
            size,
        }),
{
    let lowered = extension.to_lowercase();
    if is_supported_extension(lowered.as_str()) {
        Some(
            WallpaperInfo {
                path: String::from_str(path),
                name: String::from_str(name),
                file_type: lowered,
                size,
            },
        )
    } else {
        None
    }
}

/// The record of `entry`, whose path says `parts` of its file: there is one
/// if the entry is a regular file with readable metadata and an extension
/// that is supported in any letter case. It holds the path, the file name
/// (empty where the path has none), the extension in lowercase and the size.
pub open spec fn record_of(entry: FileEntry, parts: PathParts) -> Option<WallpaperRecord> {
    if entry.is_file && entry.size is Some && parts.extension is Some
        && supported_extensions().contains(lowercase_of(parts.extension->0@)) {
        Some(
            WallpaperRecord {
                path: entry.path@,
                name: match parts.name {
                    Some(name) => name@,
                    None => Seq::empty(),
                },
                file_type: lowercase_of(parts.extension->0@),
                size: entry.size->0,
            },
        )
    } else {
        None
    }
}

/// The record of `entry`, whose path says `parts` of its file, if it has one.
pub fn wallpaper_record(entry: &FileEntry, parts: &PathParts) -> (info: Option<WallpaperInfo>)
    ensures
        match info {
            Some(record) => record_of(*entry, *parts) == Some(record@),
            None => record_of(*entry, *parts) is None,
        },
{
    if !entry.is_file {
        return None;
    }
    match (entry.size, &parts.extension) {
        (Some(size), Some(extension)) => {
            let info = match &parts.name {
                Some(name) => wallpaper_info(
                    entry.path.as_str(),
                    name.as_str(),
                    extension.as_str(),
                    size,
                ),
                None => {
                    proof {
                        reveal_strlit("");
                    }
                    assert(""@ =~= Seq::<char>::empty());
                    wallpaper_info(entry.path.as_str(), "", extension.as_str(), size)
                },
            };
            info
        },
        _ => None,
    }
}

/// The records of the entries that have one, in the order of the entries;
/// `parts` holds what each entry's path says of its file.
pub open spec fn selection_of(entries: Seq<FileEntry>, parts: Seq<PathParts>) -> Seq<
    WallpaperRecord,
>
    decreases entries.len(),
{
    if entries.len() == 0 || parts.len() == 0 {
        Seq::empty()
    } else {
        let before = selection_of(entries.drop_last(), parts.drop_last());
        match record_of(entries.last(), parts.last()) {
            Some(record) => before.push(record),
            None => before,
        }
    }
}

/// What a list of records holds, as plain values.
pub open spec fn records_of(list: Seq<WallpaperInfo>) -> Seq<WallpaperRecord> {
    list.map_values(|info: WallpaperInfo| info@)
}

/// The records of those entries that are regular files with readable
/// metadata and a supported extension, in the order of the entries;
/// `parts` holds what each entry's path says of its file.
pub fn select_files(entries: &Vec<FileEntry>, parts: &Vec<PathParts>) -> (records: Vec<
    WallpaperInfo,
>)
    requires
        parts@.len() == entries@.len(),
    ensures
        records_of(records@) == selection_of(entries@, parts@),
{
    let mut records: Vec<WallpaperInfo> = Vec::new();
    let mut i: usize = 0;
    while i < entries.len()
        invariant
            i <= entries.len(),
            parts@.len() == entries@.len(),
            records_of(records@) == selection_of(entries@.take(i as int), parts@.take(i as int)),
        decreases entries.len() - i,
    {
        let ghost before = records@;
        let found = wallpaper_record(&entries[i], &parts[i]);
        match found {
            Some(record) => {
                records.push(record);
                assert(records_of(records@) =~= records_of(before).push(record@));
            },
            None => {},
        }
        proof {
            let longer = entries@.take(i + 1);
            let longer_parts = parts@.take(i + 1);
            assert(longer.drop_last() =~= entries@.take(i as int));
            assert(longer_parts.drop_last() =~= parts@.take(i as int));
            assert(longer.last() == entries@[i as int]);
            assert(longer_parts.last() == parts@[i as int]);
        }
        i += 1;
    }
    assert(entries@.take(i as int) =~= entries@);
    assert(parts@.take(i as int) =~= parts@);
    records
}

/// Whether `parts` holds, entry by entry, what the paths of `entries` can say
/// of their files.
pub open spec fn all_parts_fit(entries: Seq<FileEntry>, parts: Seq<PathParts>) -> bool {
    &&& parts.len() == entries.len()
    &&& forall|i: int| 0 <= i < entries.len() ==> parts_fit(entries[i].path@, #[trigger] parts[i])
}

/// Whether the record at place `j` of `selection` is that of the regular
/// file `entry`, with the extension `lowered`.
pub open spec fn holds_file_at(
    selection: Seq<WallpaperRecord>,
    j: int,
    entry: FileEntry,
    lowered: Seq<char>,
) -> bool {
    &&& 0 <= j < selection.len()
    &&& selection[j].path == entry.path@
    &&& selection[j].file_type == lowered
    &&& entry.size == Some(selection[j].size)
}

proof fn lemma_record_is_selected(entries: Seq<FileEntry>, parts: Seq<PathParts>, i: int)
    requires
        parts.len() == entries.len(),
        0 <= i < entries.len(),
        record_of(entries[i], parts[i]) is Some,
    ensures
        exists|j: int|
            0 <= j < selection_of(entries, parts).len() && #[trigger] selection_of(
                entries,
                parts,
            )[j] == record_of(entries[i], parts[i])->0,
    decreases entries.len(),
{
    let before = selection_of(entries.drop_last(), parts.drop_last());
    let all = selection_of(entries, parts);
    if i == entries.len() - 1 {
        assert(all[before.len() as int] == record_of(entries[i], parts[i])->0);
    } else {
        lemma_record_is_selected(entries.drop_last(), parts.drop_last(), i);
        let j = choose|j: int|
            0 <= j < before.len() && #[trigger] before[j] == record_of(
                entries.drop_last()[i],
                parts.drop_last()[i],
            )->0;
        assert(all[j] == before[j]);
    }
}

proof fn lemma_plain_file_has_a_record(
    entry: FileEntry,
    parts: PathParts,
    stem: Seq<char>,
    plain: Seq<char>,
)
    requires
        extension_fits(entry.path@, text_of(parts.extension)),
        entry.is_file,
        entry.size is Some,
        ends_in_plain_name(entry.path@, stem, plain),
        supported_extensions().contains(lowercase_of(plain)),
    ensures
        record_of(entry, parts) is Some,
        record_of(entry, parts)->0.path == entry.path@,
        record_of(entry, parts)->0.file_type == lowercase_of(plain),
        entry.size == Some(record_of(entry, parts)->0.size),
{
    assert(text_of(parts.extension) == Some(plain));
}

/// No qualifying file is left out. Every entry that is a regular file with
/// readable metadata, and whose path ends in a plain file name with an
/// extension that is supported in any letter case, has its record in the
/// selection, with that extension in lowercase.
pub proof fn law_plain_files_are_selected(
    entries: Seq<FileEntry>,
    parts: Seq<PathParts>,
    i: int,
    stem: Seq<char>,
    plain: Seq<char>,
)
    requires
        all_parts_fit(entries, parts),
        0 <= i < entries.len(),
        entries[i].is_file,
        entries[i].size is Some,
        ends_in_plain_name(entries[i].path@, stem, plain),
        supported_extensions().contains(lowercase_of(plain)),
    ensures
        exists|j: int|
            holds_file_at(selection_of(entries, parts), j, entries[i], lowercase_of(plain)),
{
    assert(parts_fit(entries[i].path@, parts[i]));
    lemma_plain_file_has_a_record(entries[i], parts[i], stem, plain);
    lemma_record_is_selected(entries, parts, i);
    let j = choose|j: int|
        0 <= j < selection_of(entries, parts).len() && #[trigger] selection_of(entries, parts)[j]
            == record_of(entries[i], parts[i])->0;
    assert(holds_file_at(selection_of(entries, parts), j, entries[i], lowercase_of(plain)));
}

/// What each entry's path says of its file.
pub fn parts_of_entries(entries: &Vec<FileEntry>) -> (parts: Vec<PathParts>)
    ensures
        all_parts_fit(entries@, parts@),
{
    let mut parts: Vec<PathParts> = Vec::new();
    let mut i: usize = 0;
    while i < entries.len()
        invariant
            i <= entries.len(),
            parts@.len() == i,
            forall|j: int| 0 <= j < i ==> parts_fit(entries@[j].path@, #[trigger] parts@[j]),
        decreases entries.len() - i,
    {
        parts.push(path_parts(entries[i].path.as_str()));
        i += 1;
    }
    parts
}

/// The records of those entries that are regular files with readable metadata
/// and a supported extension, in the order of the entries. Directories,
/// unreadable files and files of other types are left out. File name and
/// extension are what each path says of its file.
pub fn get_files_info(entries: &Vec<FileEntry>) -> (records: Vec<WallpaperInfo>)
    ensures
        exists|parts: Seq<PathParts>| #[trigger]
            all_parts_fit(entries@, parts) && records_of(records@) == selection_of(
                entries@,
                parts,
            ),
{
    let parts = parts_of_entries(entries);
    let records = select_files(entries, &parts);
    assert(all_parts_fit(entries@, parts@) && records_of(records@) == selection_of(
        entries@,
        parts@,
    ));
    records
}

/// The text by which a record is ordered: its name in lowercase.
pub open spec fn sort_key(record: WallpaperInfo) -> Seq<char> {
    lowercase_of(record.name@)
}

/// Whether `sorted` holds the records of `list` in the order of their keys,
/// records with the same key in the order that they have in `list`: `from`
/// names the place in `list` of each record of `sorted`.
pub open spec fn sorts_stably(
    sorted: Seq<WallpaperInfo>,
    list: Seq<WallpaperInfo>,
    from: Seq<int>,
) -> bool {
    &&& sorted.len() == list.len()
    &&& from.len() == list.len()
    &&& forall|i: int|
        0 <= i < sorted.len() ==> 0 <= #[trigger] from[i] < list.len() && sorted[i]
            == list[from[i]]
    &&& forall|i: int, j: int|
        0 <= i < j < sorted.len() ==> from[i] != from[j] && !text_precedes(
            sort_key(sorted[j]),
            sort_key(sorted[i]),
        ) && (sort_key(sorted[i]) == sort_key(sorted[j]) ==> from[i] < from[j])
}

/// Whether `sorted` is `list`, sorted by key and otherwise left in order.
pub open spec fn is_sorted_from(sorted: Seq<WallpaperInfo>, list: Seq<WallpaperInfo>) -> bool {
    exists|from: Seq<int>| sorts_stably(sorted, list, from)
}

/// How two records compare by their names, letter case aside.
pub fn name_order(left: &WallpaperInfo, right: &WallpaperInfo) -> (order: Ordering)
    ensures
        match order {
            Ordering::Less => text_precedes(sort_key(*left), sort_key(*right)),
            Ordering::Equal => sort_key(*left) == sort_key(*right),
            Ordering::Greater => text_precedes(sort_key(*right), sort_key(*left)),
        },
{
    let left_key = left.name.as_str().to_lowercase();
    let right_key = right.name.as_str().to_lowercase();
    text_order(left_key.as_str(), right_key.as_str())
}

/// `slice::sort_by` sorts in place by the comparison it is given, and is
/// stable: elements that compare equal keep their order. The comparison is
/// [`name_order`].
#[verifier::external_body]
fn sort_by_name(list: &mut Vec<WallpaperInfo>)
    ensures
        is_sorted_from(final(list)@, old(list)@),
{
    list.sort_by(|left, right| name_order(left, right));
}

/// The records of the entries as [`get_files_info`] selects them, ordered by
/// name without regard to letter case, records of the same name in the
/// order of their entries.
pub fn get_wallpaper_files(entries: &Vec<FileEntry>) -> (records: Vec<WallpaperInfo>)
    ensures
        exists|parts: Seq<PathParts>, selection: Seq<WallpaperInfo>| #[trigger]
            all_parts_fit(entries@, parts) && records_of(selection) == selection_of(
                entries@,
                parts,
            ) && #[trigger] is_sorted_from(records@, selection),
{
    let parts = parts_of_entries(entries);
    let mut records = select_files(entries, &parts);
    let ghost selection = records@;
    sort_by_name(&mut records);
    assert(all_parts_fit(entries@, parts@) && records_of(selection) == selection_of(
        entries@,
        parts@,
    ) && is_sorted_from(records@, selection));
    records
}

} // verus!
