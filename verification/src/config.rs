//! Decisions of the configuration store: where the document lives, what a
//! load returns, and whether a save may touch the disk.
//!
//! The store keeps one JSON document. Reading and writing files is the
//! caller's part; the bytes that were read are judged here, and what is to be
//! written is checked here first.

use vstd::prelude::*;
use vstd::string::*;
use vstd::utf8::{
    decode_utf8, encode_utf8, encode_utf8_decode_utf8, encode_utf8_valid_utf8, valid_utf8,
};

verus! {

/// What `serde_json::from_str` finds wrong with a text read as a
/// `serde_json::Value`: `None` for a well-formed document, else the parser's
/// description of the first fault.
pub uninterp spec fn json_fault(text: Seq<char>) -> Option<Seq<char>>;

/// Parses `text` with `serde_json::from_str` into a `serde_json::Value`, drops
/// the value, and renders the error, if any, through its `Display`. Nothing is
/// proved of the parser: the contract only gives what it reports the name
/// [`json_fault`].
#[verifier::external_body]
fn parse_fault(text: &str) -> (fault: Option<String>)
    ensures
        fault matches Some(d) ==> json_fault(text@) == Some(d@),
        fault is None ==> json_fault(text@) is None,
{
    match serde_json::from_str::<serde_json::Value>(text) {
        Ok(_) => None,
        Err(e) => Some(e.to_string()),
    }
}

/// Why a save failed. Each variant carries the detail that its message ends
/// with.
#[derive(Clone, Debug, PartialEq, Eq)]
pub enum SaveError {
    /// The content is no JSON document; nothing was written.
    InvalidJson(String),
    /// The temporary file could not be written.
    TempWrite(String),
    /// The temporary file could not take the document's place.
    Replace(String),
}

impl SaveError {
    /// The text of the message.
    pub open spec fn message_text(&self) -> Seq<char> {
        match self {
            SaveError::InvalidJson(d) => "無効なJSONです: "@ + d@,
            SaveError::TempWrite(d) => "一時ファイル書き込みに失敗しました: "@ + d@,
            SaveError::Replace(d) => "保存に失敗しました: "@ + d@,
        }
    }

    /// The message shown to the user: what failed, then the detail.
    pub fn message(&self) -> (m: String)
        ensures
            m@ == self.message_text(),
    {
        match self {
            SaveError::InvalidJson(d) => String::from_str("無効なJSONです: ").concat(d.as_str()),
            SaveError::TempWrite(d) => String::from_str(
                "一時ファイル書き込みに失敗しました: ",
            ).concat(d.as_str()),
            SaveError::Replace(d) => String::from_str("保存に失敗しました: ").concat(d.as_str()),
        }
    }
}

/// The document that stands for a missing, unreadable or corrupted one.
pub open spec fn empty_document() -> Seq<char> {
    "{}"@
}

/// What a load hands back, and whether the file on disk is to be copied to its
/// backup name first.
#[derive(Clone, Debug, PartialEq, Eq)]
pub struct Loaded {
    pub content: String,
    pub backup: bool,
}

/// What reading the document's file gave.
#[derive(Clone, Debug, PartialEq, Eq)]
pub enum ReadResult {
    /// No content could be had: the file is missing or cannot be read.
    Missing,
    /// The file was read, and its bytes are no UTF-8 text.
    Undecodable,
    /// The file was read, and this is its text.
    Text(String),
}

/// What a [`ReadResult`] holds.
pub enum ReadView {
    Missing,
    Undecodable,
    Text(Seq<char>),
}

impl View for ReadResult {
    type V = ReadView;

    open spec fn view(&self) -> ReadView {
        match self {
            ReadResult::Missing => ReadView::Missing,
            ReadResult::Undecodable => ReadView::Undecodable,
            ReadResult::Text(t) => ReadView::Text(t@),
        }
    }
}

/// The content that a load returns for what reading the file gave: the text
/// itself where it is a document, else the empty document.
pub open spec fn loaded_content(read: ReadView) -> Seq<char> {
    match read {
        ReadView::Text(text) => if json_fault(text) is None {
            text
        } else {
            empty_document()
        },
        _ => empty_document(),
    }
}

/// Whether a load calls for a backup: wherever a file was read and holds no
/// document, be it no text at all or text that is no JSON.
pub open spec fn backup_needed(read: ReadView) -> bool {
    match read {
        ReadView::Missing => false,
        ReadView::Undecodable => true,
        ReadView::Text(text) => json_fault(text) is Some,
    }
}

/// Decides a save from what the parser found: accepted where there is no
/// fault, else refused with the fault as detail.
pub fn judge_save(fault: Option<String>) -> (r: Result<(), SaveError>)
    ensures
        fault is None ==> r is Ok,
        fault matches Some(d) ==> (r matches Err(SaveError::InvalidJson(t)) && t@ == d@),
{
    match fault {
        None => Ok(()),
        Some(d) => Err(SaveError::InvalidJson(d)),
    }
}

/// Checks content before a save touches any file: accepted if and only if it
/// is a JSON document.
pub fn validate_for_save(content: &str) -> (r: Result<(), SaveError>)
    ensures
        json_fault(content@) is None ==> r is Ok,
        json_fault(content@) matches Some(d) ==> (r matches Err(SaveError::InvalidJson(t)) && t@
            == d),
{
    judge_save(parse_fault(content))
}

/// Decides a load from the text that was read and whether it is a document.
pub fn judge_load(text: String, well_formed: bool) -> (r: Loaded)
    ensures
        r.content@ == (if well_formed {
            text@
        } else {
            empty_document()
        }),
        r.backup == !well_formed,
{
    if well_formed {
        Loaded { content: text, backup: false }
    } else {
        Loaded { content: String::from_str("{}"), backup: true }
    }
}

/// Decides a load from what reading the file gave. A document is returned as
/// it was read; anything else gives the empty document. A file that was read
/// and holds no document is to be backed up; a missing or unreadable file is
/// not.
pub fn load_outcome(read: ReadResult) -> (r: Loaded)
    ensures
        r.content@ == loaded_content(read@),
        r.backup == backup_needed(read@),
{
    match read {
        ReadResult::Text(text) => {
            let fault = parse_fault(text.as_str());
            judge_load(text, fault.is_none())
        },
        ReadResult::Undecodable => Loaded { content: String::from_str("{}"), backup: true },
        ReadResult::Missing => Loaded { content: String::from_str("{}"), backup: false },
    }
}

/// Decodes bytes with `String::from_utf8` of the standard library. The
/// contract says what its documentation says: the call succeeds exactly on
/// valid UTF-8, and the string it gives is made of the very bytes it was
/// given.
#[verifier::external_body]
fn decode_text(bytes: Vec<u8>) -> (r: Option<String>)
    ensures
        r is Some <==> valid_utf8(bytes@),
        r matches Some(text) ==> encode_utf8(text@) == bytes@,
{
    match String::from_utf8(bytes) {
        Ok(text) => Some(text),
        Err(_) => None,
    }
}

/// What the bytes of a file amount to: `None` stands for a file that is
/// missing or cannot be read.
pub open spec fn read_of(stored: Option<Seq<u8>>) -> ReadView {
    match stored {
        None => ReadView::Missing,
        Some(bytes) => if valid_utf8(bytes) {
            ReadView::Text(decode_utf8(bytes))
        } else {
            ReadView::Undecodable
        },
    }
}

/// The bytes of an optional buffer.
pub open spec fn bytes_of(b: Option<Vec<u8>>) -> Option<Seq<u8>> {
    match b {
        Some(v) => Some(v@),
        None => None,
    }
}

/// Sorts what reading the file gave: nothing, bytes that are no text, or text.
pub fn classify_read(bytes: Option<Vec<u8>>) -> (r: ReadResult)
    ensures
        r@ == read_of(bytes_of(bytes)),
{
    match bytes {
        None => ReadResult::Missing,
        Some(raw) => {
            match decode_text(raw) {
                Some(text) => {
                    proof {
                        encode_utf8_decode_utf8(text@);
                    }
                    ReadResult::Text(text)
                },
                None => ReadResult::Undecodable,
            }
        },
    }
}

/// Decides a load from the bytes of the file, `None` where the file is missing
/// or cannot be read.
pub fn load_from_bytes(bytes: Option<Vec<u8>>) -> (r: Loaded)
    ensures
        r.content@ == loaded_content(read_of(bytes_of(bytes))),
        r.backup == backup_needed(read_of(bytes_of(bytes))),
{
    load_outcome(classify_read(bytes))
}

/// The bytes that the file holds after a save: those of the new content where
/// it is a document, else what the file held before, since a refused save
/// touches nothing.
pub open spec fn stored_after_save(before: Option<Seq<u8>>, content: Seq<char>) -> Option<
    Seq<u8>,
> {
    if json_fault(content) is None {
        Some(encode_utf8(content))
    } else {
        before
    }
}

/// Round trip. A document that is saved is what the next load returns, with no
/// backup, whatever the file held before; and what is returned has, byte for
/// byte, the bytes that the file holds. Content that is no document leaves the
/// file as it was.
pub proof fn lemma_save_load_round_trip(before: Option<Seq<u8>>, content: Seq<char>)
    ensures
        json_fault(content) is None ==> {
            let stored = stored_after_save(before, content);
            &&& loaded_content(read_of(stored)) == content
            &&& !backup_needed(read_of(stored))
            &&& stored == Some(encode_utf8(loaded_content(read_of(stored))))
        },
        json_fault(content) is Some ==> stored_after_save(before, content) == before,
{
    encode_utf8_valid_utf8(content);
    encode_utf8_decode_utf8(content);
}

/// A corrupted file. A file that was read and holds no document, because its
/// bytes are no text or because its text is no JSON, loads as the empty
/// document and is backed up. A file that is missing or cannot be read loads
/// as the empty document with no backup.
pub proof fn lemma_corrupted_file_is_backed_up(stored: Option<Seq<u8>>)
    ensures
        (stored matches Some(bytes) && !valid_utf8(bytes)) ==> {
            &&& loaded_content(read_of(stored)) == empty_document()
            &&& backup_needed(read_of(stored))
        },
        (stored matches Some(bytes) && valid_utf8(bytes) && json_fault(decode_utf8(bytes))
            is Some) ==> {
            &&& loaded_content(read_of(stored)) == empty_document()
            &&& backup_needed(read_of(stored))
        },
        stored is None ==> {
            &&& loaded_content(read_of(stored)) == empty_document()
            &&& !backup_needed(read_of(stored))
        },
{
}

/// The view of an optional string.
pub open spec fn text_of(s: Option<String>) -> Option<Seq<char>> {
    match s {
        Some(t) => Some(t@),
        None => None,
    }
}

/// Name of the directory that holds the document.
pub open spec fn store_dir_name() -> Seq<char> {
    "MotionCast"@
}

/// The directory of the store, component by component: under the
/// application-data root where one is given, else under `.config` of the home
/// directory, else under the current directory.
pub open spec fn store_dir(appdata: Option<Seq<char>>, home: Option<Seq<char>>) -> Seq<
    Seq<char>,
> {
    match appdata {
        Some(root) => seq![root, store_dir_name()],
        None => match home {
            Some(h) => seq![h, ".config"@, store_dir_name()],
            None => seq!["."@, store_dir_name()],
        },
    }
}

/// Where the store keeps its files.
#[derive(Clone, Debug, PartialEq, Eq)]
pub struct ConfigLocation {
    /// The directory, component by component, the root first.
    pub dir: Vec<String>,
    /// Name of the document.
    pub file: String,
    /// Name of the copy that is made of a corrupted document.
    pub backup: String,
    /// Name of the file that a save writes before it replaces the document.
    pub temp: String,
}

/// The components of a directory, each by its view.
pub open spec fn components_view(dir: Seq<String>) -> Seq<Seq<char>> {
    dir.map_values(|c: String| c@)
}

/// Finds the store from the two roots that the process may have been given.
pub fn config_location(appdata: Option<String>, home: Option<String>) -> (loc: ConfigLocation)
    ensures
        components_view(loc.dir@) == store_dir(text_of(appdata), text_of(home)),
        loc.file@ == "config.json"@,
        loc.backup@ == "config.json.bak"@,
        loc.temp@ == "config.json.tmp"@,
{
    let mut dir: Vec<String> = Vec::new();
    match appdata {
        Some(root) => {
            dir.push(root);
        },
        None => match home {
            Some(h) => {
                dir.push(h);
                dir.push(String::from_str(".config"));
            },
            None => {
                dir.push(String::from_str("."));
            },
        },
    }
    dir.push(String::from_str("MotionCast"));
    assert(components_view(dir@) =~= store_dir(text_of(appdata), text_of(home)));
    ConfigLocation {
        dir,
        file: String::from_str("config.json"),
        backup: String::from_str("config.json.bak"),
        temp: String::from_str("config.json.tmp"),
    }
}

} // verus!
