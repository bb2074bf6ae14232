use vstd::prelude::*;

verus! {

/// Text encoding that a document was last read or written with.
#[derive(Clone, Copy, Debug, PartialEq, Eq, Structural)]
pub enum CharacterEncoding {
    Utf8,
    Utf8WithBom,
}

/// Logical document identifier, independent of where the document lives on disk.
#[derive(Clone, Debug)]
pub struct FileId(pub String);

impl View for FileId {
    type V = Seq<char>;

    open spec fn view(&self) -> Seq<char> {
        self.0@
    }
}

impl FileId {
    pub fn new(id: &str) -> (r: FileId)
        ensures
            r@ == id@,
    {
        FileId(id.to_owned())
    }

    pub fn as_str(&self) -> (r: &str)
        ensures
            r@ == self@,
    {
        self.0.as_str()
    }
}

/// Metadata kept for one tracked document.
#[derive(Clone, Debug)]
pub struct FileInfo {
    pub encoding: CharacterEncoding,
    pub path: String,
    pub modified_time: u64,
    pub has_changed: bool,
}

/// What a `FileInfo` says, with its path as text.
pub struct DocState {
    pub encoding: CharacterEncoding,
    pub path: Seq<char>,
    pub modified_time: u64,
    pub has_changed: bool,
}

impl View for FileInfo {
    type V = DocState;

    open spec fn view(&self) -> DocState {
        DocState {
            encoding: self.encoding,
            path: self.path@,
            modified_time: self.modified_time,
            has_changed: self.has_changed,
        }
    }
}

/// Failures of the document lifecycle operations.
#[derive(Clone, Debug)]
pub enum FileError {
    /// A read or write failed: the reason given by the file system, and the path.
    Io(String, String),
    /// The file was modified outside the manager since it was last read or written.
    HasChanged(String),
}

/// What reading a path from disk produced, handed to `FileManager::open`.
pub enum LoadOutcome {
    /// Nothing exists at the path yet.
    Missing,
    /// The file was read and decoded.
    Loaded { text: String, encoding: CharacterEncoding, modified_time: u64 },
    /// The file exists but could not be read.
    Failed(FileError),
}

} // verus!
