//! What the wizard computes from texts and engine answers: the kind of an
//! input, the name of a destination folder, rows and picker states.

use crate::engine::{AddResponse, AddResponseModel, DetailsModel, TorrentDetails};
use crate::error::Failure;
use crate::rows::{FileEntry, FilePickerState, PickerModel, RowModel, TorrentRow};
pub use crate::text::cursor_to_byte_index;
use crate::text::{clean, cleaned, has_prefix, push_char, trim, trimmed};
use vstd::prelude::*;
use vstd::string::*;

verus! {

/// What an input asks to add a torrent from.
#[derive(Debug, Clone, PartialEq, Eq)]
pub enum AddInput {
    /// A magnet link or an http(s) address, without whitespace and control codes.
    Url(String),
    /// Anything else, trimmed: the path of a torrent file.
    Path(String),
}

/// What an `AddInput` holds, as mathematical values.
pub enum AddInputModel {
    Url(Seq<char>),
    Path(Seq<char>),
}

impl DeepView for AddInput {
    type V = AddInputModel;

    open spec fn deep_view(&self) -> AddInputModel {
        match self {
            AddInput::Url(url) => AddInputModel::Url(url@),
            AddInput::Path(path) => AddInputModel::Path(path@),
        }
    }
}

/// Whether `text` begins like a magnet link or an http(s) address.
pub open spec fn is_url(text: Seq<char>) -> bool {
    "magnet:"@.is_prefix_of(text) || "http://"@.is_prefix_of(text) || "https://"@.is_prefix_of(
        text,
    )
}

/// The kind of `input`: an address where its cleaned text begins like one,
/// else a path.
pub open spec fn add_input(input: Seq<char>) -> AddInputModel {
    if is_url(cleaned(trimmed(input))) {
        AddInputModel::Url(cleaned(trimmed(input)))
    } else {
        AddInputModel::Path(trimmed(input))
    }
}

/// Reads `input` as a magnet link, an address or a path.
///
/// A path still has to exist and to be read before a torrent can be added
/// from it; that is for whoever has the file system.
pub fn build_add_torrent(input: &str) -> (kind: AddInput)
    ensures
        kind.deep_view() == add_input(input@),
{
    let trimmed = trim(input);
    let cleaned = clean(trimmed.as_str());
    if has_prefix(cleaned.as_str(), "magnet:") || has_prefix(cleaned.as_str(), "http://")
        || has_prefix(cleaned.as_str(), "https://") {
        AddInput::Url(cleaned)
    } else {
        AddInput::Path(trimmed)
    }
}

/// The picker state for a probed torrent: its files with the engine's own
/// inclusion flags, and the cursor on the first.
pub open spec fn picker_for(
    magnet: Seq<char>,
    output_folder: Seq<char>,
    response: AddResponseModel,
) -> PickerModel {
    PickerModel {
        magnet,
        output_folder,
        files: match response.details.files {
            Some(files) => files,
            None => Seq::empty(),
        },
        cursor: 0,
    }
}

/// Builds the picker state for a probed torrent.
pub fn build_picker(magnet: String, output_folder: String, response: AddResponse) -> (picker:
    Result<FilePickerState, Failure>)
    ensures
        picker is Ok,
        picker->Ok_0.deep_view() == picker_for(magnet@, output_folder@, response.deep_view()),
{
    let files: Vec<FileEntry> = match response.details.files {
        Some(files) => files,
        None => Vec::new(),
    };
    let picker = FilePickerState { magnet, output_folder, files, cursor: 0 };
    assert(picker.deep_view().files =~= picker_for(
        magnet@,
        output_folder@,
        response.deep_view(),
    ).files);
    Ok(picker)
}

/// The row for a listed torrent: named by its name, or by its identity hash
/// where it has none.
pub open spec fn row_for(details: DetailsModel) -> RowModel
    recommends
        details.id is Some,
{
    RowModel {
        id: details.id->0,
        name: match details.name {
            Some(name) => name,
            None => details.info_hash,
        },
        info_hash: Some(details.info_hash),
        output_folder: details.output_folder,
        stats: details.stats,
    }
}

/// Builds the row for a listed torrent. Fails where it has no identity.
pub fn to_row(details: TorrentDetails) -> (row: Result<TorrentRow, Failure>)
    ensures
        match row {
            Ok(r) => details.id is Some && r.deep_view() == row_for(details.deep_view()),
            Err(e) => details.id is None && e == Failure::MissingTorrentId,
        },
{
    let id = match details.id {
        Some(id) => id,
        None => {
            return Err(Failure::MissingTorrentId);
        },
    };
    let name = match details.name {
        Some(name) => name,
        None => details.info_hash.clone(),
    };
    Ok(
        TorrentRow {
            id,
            name,
            info_hash: Some(details.info_hash),
            output_folder: details.output_folder,
            stats: details.stats,
        },
    )
}

/// The name to derive a destination folder from: the torrent's name, else its
/// first file's name, each trimmed and passed over where nothing is left;
/// else `download`.
pub open spec fn folder_suffix(details: DetailsModel) -> Seq<char> {
    if details.name is Some && trimmed(details.name->0).len() > 0 {
        trimmed(details.name->0)
    } else if details.files is Some && details.files->0.len() > 0 && trimmed(
        details.files->0[0].name,
    ).len() > 0 {
        trimmed(details.files->0[0].name)
    } else {
        "download"@
    }
}

/// The name to derive a destination folder from.
pub fn derive_folder_suffix(response: &AddResponse) -> (suffix: String)
    ensures
        suffix@ == folder_suffix(response.deep_view().details),
{
    if let Some(name) = &response.details.name {
        let name = trim(name.as_str());
        if name.as_str().unicode_len() > 0 {
            return name;
        }
    }
    if let Some(files) = &response.details.files {
        if files.len() > 0 {
            assert(files.deep_view()[0] == files[0].deep_view());
            let name = trim(files[0].name.as_str());
            if name.as_str().unicode_len() > 0 {
                return name;
            }
        }
    }
    "download".to_owned()
}

/// `c`, or a hyphen in place of a path separator.
pub open spec fn without_separator(c: char) -> char {
    if c == '/' || c == '\\' {
        '-'
    } else {
        c
    }
}

/// `input` as a single path component: each separator replaced by a hyphen,
/// then trimmed.
pub open spec fn sanitized(input: Seq<char>) -> Seq<char> {
    trimmed(input.map_values(|c: char| without_separator(c)))
}

/// Makes a single path component of `input`.
pub fn sanitize_path_component(input: &str) -> (out: String)
    ensures
        out@ == sanitized(input@),
{
    let mut out = String::new();
    for ch in it: input.chars()
        invariant
            it.seq() == input@,
            out@ == input@.take(it.index() as int).map_values(|c: char| without_separator(c)),
    {
        let ghost i = it.index() as int;
        if ch == '/' || ch == '\\' {
            push_char(&mut out, '-');
        } else {
            push_char(&mut out, ch);
        }
        assert(out@ =~= input@.take(i + 1).map_values(|c: char| without_separator(c)));
    }
    proof {
        assert(input@.take(input@.len() as int) =~= input@);
    }
    trim(out.as_str())
}

/// A name without separators, whitespace and control codes is a single path
/// component as it is.
pub proof fn lemma_plain_name_is_a_component(name: Seq<char>)
    requires
        crate::text::is_plain(name),
        forall|i: int| 0 <= i < name.len() ==> name[i] != '/' && name[i] != '\\',
    ensures
        sanitized(name) == name,
{
    assert(name.map_values(|c: char| without_separator(c)) =~= name);
    crate::text::lemma_plain_text_is_trimmed(name);
}

/// The name that stands in where a torrent has none is a single path
/// component as it is.
pub proof fn lemma_fallback_name_is_a_component()
    ensures
        sanitized("download"@) == "download"@,
{
    reveal_strlit("download");
    lemma_plain_name_is_a_component("download"@);
}

/// The name of the alternate destination folder: `folder_name`, a hyphen and
/// the first eight characters of the identity hash.
pub open spec fn alternate_name(folder_name: Seq<char>, info_hash: Seq<char>) -> Seq<char> {
    folder_name + "-"@ + info_hash.take(
        if info_hash.len() >= 8 {
            8
        } else {
            info_hash.len() as int
        },
    )
}

/// The name of the alternate destination folder.
pub fn alternate_folder_name(folder_name: &str, info_hash: &str) -> (name: String)
    ensures
        name@ == alternate_name(folder_name@, info_hash@),
{
    let short_hash = crate::text::take_chars(info_hash, 8);
    let mut name = folder_name.to_owned();
    name.append("-");
    name.append(short_hash.as_str());
    name
}

/// The path that the platform for which the program is built makes of
/// `base` and `leaf`, as text: what `Path::join` gives.
pub uninterp spec fn joined_path(base: Seq<char>, leaf: Seq<char>) -> Seq<char>;

/// `Path::join`, read back as text: `leaf` adjoined to `base`. How two paths
/// join depends on the platform for which the program is built, so the text
/// has a name and nothing more is claimed of it.
#[verifier::external_body]
pub(crate) fn join_path(base: &str, leaf: &str) -> (joined: String)
    ensures
        joined@ == joined_path(base@, leaf@),
{
    std::path::Path::new(base).join(leaf).to_string_lossy().into_owned()
}

} // verus!
