//! What a sequence of parts leaves in the working directory, and under
//! which names.
use vstd::prelude::*;
use crate::session::Part;

verus! {

/// The directory after the part `part` was stored in it: a file part
/// replaces whatever was there under its name, any other part changes
/// nothing.
pub open spec fn put(files: Map<Seq<char>, Seq<u8>>, part: Part) -> Map<Seq<char>, Seq<u8>> {
    if part.is_file() {
        files.insert(part.filename->0, part.content())
    } else {
        files
    }
}

/// The directory after `parts` were stored in it one after the other.
pub open spec fn stored(files: Map<Seq<char>, Seq<u8>>, parts: Seq<Part>) -> Map<
    Seq<char>,
    Seq<u8>,
>
    decreases parts.len(),
{
    if parts.len() == 0 {
        files
    } else {
        stored(put(files, parts[0]), parts.skip(1))
    }
}

/// The name that `part` adds to the list of stored files, if any.
pub open spec fn name_of(part: Part) -> Seq<Seq<char>> {
    if part.is_file() {
        seq![part.filename->0]
    } else {
        Seq::empty()
    }
}

/// The filenames of the file parts among `parts`, in order.
pub open spec fn file_names(parts: Seq<Part>) -> Seq<Seq<char>>
    decreases parts.len(),
{
    if parts.len() == 0 {
        Seq::empty()
    } else {
        name_of(parts[0]) + file_names(parts.skip(1))
    }
}

/// Whether some file part among `parts` carries the filename `name`.
pub open spec fn names_file(parts: Seq<Part>, name: Seq<char>) -> bool {
    exists|i: int| 0 <= i < parts.len() && parts[i].is_file() && parts[i].filename == Some(name)
}

/// Whether no two file parts among `parts` carry the same filename.
pub open spec fn distinct_file_names(parts: Seq<Part>) -> bool {
    forall|i: int, j: int|
        0 <= i < j < parts.len() && parts[i].is_file() && parts[j].is_file() ==> parts[i].filename
            != parts[j].filename
}

/// The recorded names are exactly the filenames of the file parts.
pub proof fn file_names_are_the_filenames(parts: Seq<Part>, name: Seq<char>)
    ensures
        file_names(parts).contains(name) <==> names_file(parts, name),
    decreases parts.len(),
{
    if parts.len() > 0 {
        let rest = parts.skip(1);
        file_names_are_the_filenames(rest, name);
        let head = name_of(parts[0]);
        let tail = file_names(rest);
        if file_names(parts).contains(name) {
            let k = choose|k: int| 0 <= k < (head + tail).len() && (head + tail)[k] == name;
            if k < head.len() {
                assert(parts[0].is_file() && parts[0].filename == Some(name));
            } else {
                assert(tail[k - head.len()] == name);
                let i = choose|i: int|
                    0 <= i < rest.len() && rest[i].is_file() && rest[i].filename == Some(name);
                assert(parts[i + 1] == rest[i]);
            }
        }
        if names_file(parts, name) {
            let i = choose|i: int|
                0 <= i < parts.len() && parts[i].is_file() && parts[i].filename == Some(name);
            if i == 0 {
                assert((head + tail)[0] == name);
            } else {
                assert(rest[i - 1] == parts[i]);
                assert(names_file(rest, name));
                let k = choose|k: int| 0 <= k < tail.len() && tail[k] == name;
                assert((head + tail)[head.len() + k] == name);
            }
        }
    }
}

/// In a body of file parts only, every part is recorded: as many names as
/// parts, each the filename of the part in its place.
pub proof fn file_parts_are_all_recorded(parts: Seq<Part>)
    requires
        forall|i: int| 0 <= i < parts.len() ==> (#[trigger] parts[i]).is_file(),
    ensures
        file_names(parts).len() == parts.len(),
        forall|i: int|
            0 <= i < parts.len() ==> #[trigger] file_names(parts)[i] == parts[i].filename->0,
    decreases parts.len(),
{
    if parts.len() > 0 {
        let rest = parts.skip(1);
        assert(parts[0].is_file());
        assert forall|i: int| 0 <= i < rest.len() implies (#[trigger] rest[i]).is_file() by {
            assert(rest[i] == parts[i + 1]);
        }
        file_parts_are_all_recorded(rest);
        let head = name_of(parts[0]);
        let tail = file_names(rest);
        assert forall|i: int| 0 <= i < parts.len() implies #[trigger] file_names(parts)[i]
            == parts[i].filename->0 by {
            if i > 0 {
                assert((head + tail)[i] == tail[i - 1]);
                assert(rest[i - 1] == parts[i]);
            }
        }
    }
}

/// Storing parts leaves every file alone whose name none of them carries.
pub proof fn stored_keeps_other_files(
    files: Map<Seq<char>, Seq<u8>>,
    parts: Seq<Part>,
    name: Seq<char>,
)
    requires
        !names_file(parts, name),
    ensures
        stored(files, parts).dom().contains(name) == files.dom().contains(name),
        stored(files, parts)[name] == files[name],
    decreases parts.len(),
{
    if parts.len() > 0 {
        let rest = parts.skip(1);
        assert(!(parts[0].is_file() && parts[0].filename == Some(name)));
        assert forall|i: int| 0 <= i < rest.len() implies !(rest[i].is_file() && rest[i].filename
            == Some(name)) by {
            assert(rest[i] == parts[i + 1]);
        }
        stored_keeps_other_files(put(files, parts[0]), rest, name);
    }
}

/// After storing parts a file exists exactly if it existed before or one of
/// the file parts carries its name.
pub proof fn stored_files_exist(files: Map<Seq<char>, Seq<u8>>, parts: Seq<Part>, name: Seq<char>)
    ensures
        stored(files, parts).dom().contains(name) <==> files.dom().contains(name) || names_file(
            parts,
            name,
        ),
    decreases parts.len(),
{
    if parts.len() > 0 {
        let rest = parts.skip(1);
        stored_files_exist(put(files, parts[0]), rest, name);
        if names_file(rest, name) {
            let i = choose|i: int|
                0 <= i < rest.len() && rest[i].is_file() && rest[i].filename == Some(name);
            assert(parts[i + 1] == rest[i]);
        }
        if names_file(parts, name) {
            let i = choose|i: int|
                0 <= i < parts.len() && parts[i].is_file() && parts[i].filename == Some(name);
            if i > 0 {
                assert(rest[i - 1] == parts[i]);
            }
        }
    }
}

/// Where the file parts carry distinct filenames, each of them is on disk
/// afterwards, under its filename and with exactly its content.
pub proof fn distinct_files_hold_their_parts(
    files: Map<Seq<char>, Seq<u8>>,
    parts: Seq<Part>,
    i: int,
)
    requires
        distinct_file_names(parts),
        0 <= i < parts.len(),
        parts[i].is_file(),
    ensures
        stored(files, parts).dom().contains(parts[i].filename->0),
        stored(files, parts)[parts[i].filename->0] == parts[i].content(),
    decreases parts.len(),
{
    let rest = parts.skip(1);
    let name = parts[i].filename->0;
    assert forall|a: int, b: int|
        0 <= a < b < rest.len() && rest[a].is_file() && rest[b].is_file() implies rest[a].filename
        != rest[b].filename by {
        assert(rest[a] == parts[a + 1] && rest[b] == parts[b + 1]);
    }
    if i == 0 {
        assert forall|k: int| 0 <= k < rest.len() implies !(rest[k].is_file() && rest[k].filename
            == Some(name)) by {
            assert(rest[k] == parts[k + 1]);
        }
        stored_keeps_other_files(put(files, parts[0]), rest, name);
    } else {
        assert(rest[i - 1] == parts[i]);
        distinct_files_hold_their_parts(put(files, parts[0]), rest, i - 1);
    }
}

/// Distinct filenames are recorded once each.
proof fn distinct_names_recorded_once(parts: Seq<Part>)
    requires
        distinct_file_names(parts),
    ensures
        file_names(parts).no_duplicates(),
    decreases parts.len(),
{
    if parts.len() > 0 {
        let rest = parts.skip(1);
        let head = name_of(parts[0]);
        let tail = file_names(rest);
        assert forall|a: int, b: int|
            0 <= a < b < rest.len() && rest[a].is_file() && rest[b].is_file() implies rest[a].filename
            != rest[b].filename by {
            assert(rest[a] == parts[a + 1] && rest[b] == parts[b + 1]);
        }
        distinct_names_recorded_once(rest);
        if parts[0].is_file() {
            let name = parts[0].filename->0;
            file_names_are_the_filenames(rest, name);
            if names_file(rest, name) {
                let k = choose|k: int|
                    0 <= k < rest.len() && rest[k].is_file() && rest[k].filename == Some(name);
                assert(rest[k] == parts[k + 1]);
            }
            assert(!tail.contains(name));
            assert forall|a: int, b: int|
                0 <= a < (head + tail).len() && 0 <= b < (head + tail).len() && a != b implies (head
                + tail)[a] != (head + tail)[b] by {
                if a == 0 {
                    assert((head + tail)[b] == tail[b - 1]);
                } else if b == 0 {
                    assert((head + tail)[a] == tail[a - 1]);
                } else {
                    assert((head + tail)[a] == tail[a - 1]);
                    assert((head + tail)[b] == tail[b - 1]);
                }
            }
        } else {
            assert(head + tail =~= tail);
        }
    }
}

/// Where the file parts carry distinct filenames, an upload into an empty
/// directory leaves exactly as many files as it had file parts: the files
/// are those recorded, and no name is recorded twice.
pub proof fn distinct_files_are_counted(parts: Seq<Part>)
    requires
        distinct_file_names(parts),
    ensures
        file_names(parts).no_duplicates(),
        stored(Map::empty(), parts).dom() == file_names(parts).to_set(),
        stored(Map::empty(), parts).dom().finite(),
        stored(Map::empty(), parts).dom().len() == file_names(parts).len(),
    decreases parts.len(),
{
    let names = file_names(parts);
    distinct_names_recorded_once(parts);
    assert forall|name: Seq<char>|
        stored(Map::empty(), parts).dom().contains(name) <==> names.to_set().contains(name) by {
        stored_files_exist(Map::empty(), parts, name);
        file_names_are_the_filenames(parts, name);
    }
    assert(stored(Map::empty(), parts).dom() =~= names.to_set());
    names.unique_seq_to_set();
}

} // verus!
