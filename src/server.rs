//! The file server's rules: where the shared files live and what each
//! endpoint answers, given what the disk reported.
use vstd::prelude::*;

use std::path::PathBuf;

verus! {

/// The TCP port the file server listens on.
pub const SERVER_PORT: u16 = 8081;

/// The folder, under the user's download folder, that holds the shared files.
pub const SHARED_DIR_NAME: &'static str = "AirShare_Downloads";

/// The placeholder file seeded into an empty shared folder.
pub const DEMO_FILE_NAME: &'static str = "demo.txt";

/// What the placeholder file says.
pub const DEMO_FILE_TEXT: &'static str = "Hello from AirShare!\nThis is a demo file.";

/// What `GET /health` answers.
pub const HEALTH_TEXT: &'static str = "AirShare Server OK";

/// `std::path::PathBuf`, carried as an opaque value.
#[verifier::external_type_specification]
#[verifier::external_body]
pub struct ExPathBuf(PathBuf);

/// The file server's configuration: the folder it serves and fills.
pub struct ServerState {
    pub shared_dir: PathBuf,
}

impl ServerState {
    /// The folder that the server reads from and writes uploads to.
    pub fn get_shared_dir(&self) -> (r: &PathBuf)
        ensures
            *r == self.shared_dir,
    {
        &self.shared_dir
    }
}

/// The body of a reply.
pub enum ReplyBody {
    /// Plain text.
    Text(String),
    /// Raw bytes, sent as they are.
    Bytes(Vec<u8>),
    /// A list of file names, sent as a JSON array.
    FileNames(Vec<String>),
}

/// What a reply body holds, as mathematical values.
pub enum BodyView {
    Text(Seq<char>),
    Bytes(Seq<u8>),
    FileNames(Seq<Seq<char>>),
}

impl View for ReplyBody {
    type V = BodyView;

    open spec fn view(&self) -> BodyView {
        match self {
            ReplyBody::Text(t) => BodyView::Text(t@),
            ReplyBody::Bytes(b) => BodyView::Bytes(b@),
            ReplyBody::FileNames(names) => BodyView::FileNames(names@.map_values(|n: String| n@)),
        }
    }
}

/// An HTTP status and body.
pub struct HttpReply {
    pub status: u16,
    pub body: ReplyBody,
}

impl View for HttpReply {
    type V = (u16, BodyView);

    open spec fn view(&self) -> (u16, BodyView) {
        (self.status, self.body@)
    }
}

/// What the disk said when a file was looked up.
pub enum FileLookup {
    /// No file of that name.
    Missing,
    /// The file's whole contents.
    Contents(Vec<u8>),
    /// The file exists but could not be read.
    Unreadable,
}

/// What a lookup says, as mathematical values.
pub enum LookupView {
    Missing,
    Contents(Seq<u8>),
    Unreadable,
}

impl View for FileLookup {
    type V = LookupView;

    open spec fn view(&self) -> LookupView {
        match self {
            FileLookup::Missing => LookupView::Missing,
            FileLookup::Contents(b) => LookupView::Contents(b@),
            FileLookup::Unreadable => LookupView::Unreadable,
        }
    }
}

/// The answer to `GET /file/{name}`: the contents unchanged, 404 where the
/// file is absent, 500 where it could not be read.
pub open spec fn file_reply_spec(name: Seq<char>, found: LookupView) -> (u16, BodyView) {
    match found {
        LookupView::Missing => (404u16, BodyView::Text("File not found: "@ + name)),
        LookupView::Contents(b) => (200u16, BodyView::Bytes(b)),
        LookupView::Unreadable => (500u16, BodyView::Text("Failed to read file"@)),
    }
}

/// Answers `GET /file/{filename}` from what the lookup found.
pub fn file_reply(filename: &str, found: FileLookup) -> (r: HttpReply)
    ensures
        r@ == file_reply_spec(filename@, found@),
{
    match found {
        FileLookup::Missing => {
            let mut text = String::from_str("File not found: ");
            text.append(filename);
            HttpReply { status: 404, body: ReplyBody::Text(text) }
        },
        FileLookup::Contents(bytes) => HttpReply { status: 200, body: ReplyBody::Bytes(bytes) },
        FileLookup::Unreadable => HttpReply {
            status: 500,
            body: ReplyBody::Text(String::from_str("Failed to read file")),
        },
    }
}

/// Answers `GET /health`: always 200 with a constant text.
pub fn health_reply() -> (r: HttpReply)
    ensures
        r@ == (200u16, BodyView::Text(HEALTH_TEXT@)),
{
    HttpReply { status: 200, body: ReplyBody::Text(String::from_str(HEALTH_TEXT)) }
}

/// One entry of the shared folder, as the disk reported it.
pub struct DirEntryInfo {
    /// The entry's name, where it is valid UTF-8.
    pub name: Option<String>,
    /// Whether the entry is a regular file.
    pub is_file: bool,
}

/// The names that `GET /files` lists: those of the regular files with a
/// readable name, in the order the folder gave them.
pub open spec fn listed_names(entries: Seq<DirEntryInfo>) -> Seq<Seq<char>>
    decreases entries.len(),
{
    if entries.len() == 0 {
        Seq::empty()
    } else {
        let rest = listed_names(entries.drop_last());
        let e = entries.last();
        match e.name {
            Some(n) => if e.is_file {
                rest.push(n@)
            } else {
                rest
            },
            None => rest,
        }
    }
}

/// Answers `GET /files` from the entries of the shared folder.
pub fn list_reply(entries: &Vec<DirEntryInfo>) -> (r: HttpReply)
    ensures
        r@ == (200u16, BodyView::FileNames(listed_names(entries@))),
{
    let mut names: Vec<String> = Vec::new();
    let mut i: usize = 0;
    while i < entries.len()
        invariant
            i <= entries.len(),
            names@.map_values(|n: String| n@) == listed_names(entries@.take(i as int)),
        decreases entries.len() - i,
    {
        let e = &entries[i];
        assert(entries@.take(i + 1).drop_last() == entries@.take(i as int));
        assert(entries@.take(i + 1).last() == entries@[i as int]);
        match &e.name {
            Some(n) => {
                if e.is_file {
                    names.push(n.clone());
                    assert(names@.map_values(|n: String| n@) =~= listed_names(
                        entries@.take(i as int),
                    ).push(n@));
                }
            },
            None => {},
        }
        i = i + 1;
    }
    assert(entries@.take(entries.len() as int) == entries@);
    HttpReply { status: 200, body: ReplyBody::FileNames(names) }
}

/// The name under which an upload part is stored: the client's file name
/// exactly as given (no part of it is checked or cleaned), or none for a
/// part without a file name, which is skipped.
pub fn upload_target(file_name: Option<&str>) -> (r: Option<String>)
    ensures
        match file_name {
            Some(n) => r is Some && r->0@ == n@,
            None => r is None,
        },
{
    match file_name {
        Some(n) => Some(String::from_str(n)),
        None => None,
    }
}

/// How an upload ended.
pub enum UploadOutcome {
    /// Every named part was stored.
    Saved,
    /// A part's bytes could not be received; the cause is given.
    ReadFailed(String),
    /// A part could not be written to disk; the cause is given.
    WriteFailed(String),
}

/// The answer to `POST /upload`, by how it ended.
pub open spec fn upload_reply_spec(outcome: UploadOutcome) -> (u16, BodyView) {
    match outcome {
        UploadOutcome::Saved => (200u16, BodyView::Text("Upload successful"@)),
        UploadOutcome::ReadFailed(c) => (500u16, BodyView::Text("Failed to read upload: "@ + c@)),
        UploadOutcome::WriteFailed(c) => (500u16, BodyView::Text("Failed to save file: "@ + c@)),
    }
}

/// Answers `POST /upload`.
pub fn upload_reply(outcome: UploadOutcome) -> (r: HttpReply)
    ensures
        r@ == upload_reply_spec(outcome),
{
    match outcome {
        UploadOutcome::Saved => HttpReply {
            status: 200,
            body: ReplyBody::Text(String::from_str("Upload successful")),
        },
        UploadOutcome::ReadFailed(cause) => {
            let mut text = String::from_str("Failed to read upload: ");
            text.append(cause.as_str());
            HttpReply { status: 500, body: ReplyBody::Text(text) }
        },
        UploadOutcome::WriteFailed(cause) => {
            let mut text = String::from_str("Failed to save file: ");
            text.append(cause.as_str());
            HttpReply { status: 500, body: ReplyBody::Text(text) }
        },
    }
}

/// The shared folder after one upload part is stored: a named part
/// replaces any file of that name, an unnamed one changes nothing.
pub open spec fn folder_after_part(
    folder: Map<Seq<char>, Seq<u8>>,
    file_name: Option<Seq<char>>,
    data: Seq<u8>,
) -> Map<Seq<char>, Seq<u8>> {
    match file_name {
        Some(n) => folder.insert(n, data),
        None => folder,
    }
}

/// What looking `name` up in the folder finds.
pub open spec fn lookup_in(folder: Map<Seq<char>, Seq<u8>>, name: Seq<char>) -> LookupView {
    if folder.contains_key(name) {
        LookupView::Contents(folder[name])
    } else {
        LookupView::Missing
    }
}

/// The entries describe the folder: each of its files appears as a
/// regular file under its name.
pub open spec fn entries_cover(entries: Seq<DirEntryInfo>, folder: Map<Seq<char>, Seq<u8>>) -> bool {
    forall|k: Seq<char>|
        #[trigger] folder.contains_key(k) ==> exists|i: int|
            0 <= i < entries.len() && entries[i].is_file && entries[i].name is Some
                && entries[i].name->0@ == k
}

/// Every regular file with a readable name is listed.
pub proof fn lemma_listed_includes(entries: Seq<DirEntryInfo>, i: int)
    requires
        0 <= i < entries.len(),
        entries[i].is_file,
        entries[i].name is Some,
    ensures
        listed_names(entries).contains(entries[i].name->0@),
    decreases entries.len(),
{
    let last = entries.len() - 1;
    if i < last {
        lemma_listed_includes(entries.drop_last(), i);
        let rest = listed_names(entries.drop_last());
        let w = choose|w: int| 0 <= w < rest.len() && rest[w] == entries[i].name->0@;
        if entries.last().is_file && entries.last().name is Some {
            assert(listed_names(entries)[w] == rest[w]);
        }
    } else {
        let rest = listed_names(entries.drop_last());
        assert(listed_names(entries)[rest.len() as int] == entries[i].name->0@);
    }
}

/// Once a part `name` holding `data` is stored, a listing of the folder
/// names `name` and fetching `name` gives back `data` unchanged.
pub proof fn lemma_upload_then_fetch(
    folder: Map<Seq<char>, Seq<u8>>,
    name: Seq<char>,
    data: Seq<u8>,
    entries: Seq<DirEntryInfo>,
)
    requires
        entries_cover(entries, folder_after_part(folder, Some(name), data)),
    ensures
        listed_names(entries).contains(name),
        file_reply_spec(name, lookup_in(folder_after_part(folder, Some(name), data), name)) == (
        200u16,
        BodyView::Bytes(data),
        ),
{
    let after = folder_after_part(folder, Some(name), data);
    assert(after.contains_key(name));
    let i = choose|i: int|
        0 <= i < entries.len() && entries[i].is_file && entries[i].name is Some
            && entries[i].name->0@ == name;
    lemma_listed_includes(entries, i);
}

} // verus!
