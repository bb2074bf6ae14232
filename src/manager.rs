use vstd::prelude::*;
use vstd::hash_map::StringHashMap;
use vstd::string::StringExecFns;

use crate::file_info::{CharacterEncoding, FileError, FileId, FileInfo, LoadOutcome};
use crate::registry::{fresh_state, lemma_operations_keep_consistency, Registry};

verus! {

/// Where documents are stored.
pub struct FileManagerConfig {
    doc_dir: String,
}

impl FileManagerConfig {
    pub closed spec fn doc_dir(&self) -> Seq<char> {
        self.doc_dir@
    }

    /// Documents live in the `doc` directory under `root`.
    pub fn new(root: &str) -> (r: Self)
        ensures
            r.doc_dir() == root@ + seq!['/', 'd', 'o', 'c'],
    {
        let doc_dir = String::from_str(root).concat("/doc");
        proof {
            reveal_strlit("/doc");
        }
        Self { doc_dir }
    }
}

/// Keeps track of the documents opened or saved on behalf of their identifiers.
pub struct FileManager {
    config: FileManagerConfig,
    open_files: StringHashMap<String>,
    file_info: StringHashMap<FileInfo>,
}

impl FileManager {
    /// The path-to-identifier map and identifier-to-metadata map, as values.
    pub closed spec fn registry(&self) -> Registry {
        Registry {
            paths: self.open_files@.map_values(|id: String| id@),
            docs: self.file_info@.map_values(|info: FileInfo| info@),
        }
    }

    pub closed spec fn doc_dir(&self) -> Seq<char> {
        self.config.doc_dir()
    }

    /// The two maps stay consistent with each other.
    pub open spec fn wf(&self) -> bool {
        self.registry().consistent()
    }

    pub fn new(config: FileManagerConfig) -> (r: Self)
        ensures
            r.registry() == Registry::empty(),
            r.doc_dir() == config.doc_dir(),
            r.wf(),
    {
        let r = Self { config, open_files: StringHashMap::new(), file_info: StringHashMap::new() };
        assert(r.registry().paths =~= Map::empty());
        assert(r.registry().docs =~= Map::empty());
        r
    }

    /// Registers a file that the caller read at `path` for `id`, and returns
    /// its text. A path with no file yet reads as empty text and changes nothing.
    pub fn open(&mut self, path: &String, id: &FileId, loaded: LoadOutcome) -> (r: Result<
        String,
        FileError,
    >)
        requires
            old(self).wf(),
        ensures
            final(self).wf(),
            final(self).doc_dir() == old(self).doc_dir(),
            match loaded {
                LoadOutcome::Missing => {
                    &&& r is Ok
                    &&& r->Ok_0@ == Seq::<char>::empty()
                    &&& final(self).registry() == old(self).registry()
                },
                LoadOutcome::Loaded { text, encoding, modified_time } => {
                    &&& r == Ok::<String, FileError>(text)
                    &&& final(self).registry() == old(self).registry().after_open(
                        path@,
                        id@,
                        encoding,
                        modified_time,
                    )
                },
                LoadOutcome::Failed(e) => {
                    &&& r == Err::<String, FileError>(e)
                    &&& final(self).registry() == old(self).registry()
                },
            },
    {
        match loaded {
            LoadOutcome::Missing => Ok(String::new()),
            LoadOutcome::Failed(e) => Err(e),
            LoadOutcome::Loaded { text, encoding, modified_time } => {
                let info = FileInfo {
                    encoding,
                    path: path.clone(),
                    modified_time,
                    has_changed: false,
                };
                self.register(path, id, info);
                proof {
                    lemma_operations_keep_consistency(
                        old(self).registry(),
                        path@,
                        id@,
                        encoding,
                        modified_time,
                    );
                }
                Ok(text)
            },
        }
    }

    /// The encoding that a save of `id` at `path` must write with, or the
    /// conflict that forbids writing at all.
    pub fn prepare_save(&self, path: &String, id: &FileId) -> (r: Result<
        CharacterEncoding,
        FileError,
    >)
        ensures
            self.registry().refuses_save(path@, id@) ==> r == Err::<CharacterEncoding, FileError>(
                FileError::HasChanged(*path),
            ),
            !self.registry().refuses_save(path@, id@) ==> r == Ok::<CharacterEncoding, FileError>(
                self.registry().save_encoding(path@, id@),
            ),
    {
        match self.file_info.get(id.as_str()) {
            None => Ok(CharacterEncoding::Utf8),
            Some(info) => {
                if !(info.path == *path) {
                    Ok(CharacterEncoding::Utf8)
                } else if info.has_changed {
                    Err(FileError::HasChanged(path.clone()))
                } else {
                    Ok(info.encoding)
                }
            },
        }
    }

    /// Records the outcome of writing `id`'s text at `path`: the file
    /// system's modification time after the write, or why the write failed.
    /// A refused save (see `prepare_save`) changes nothing.
    pub fn save(&mut self, path: &String, id: &FileId, written: Result<u64, String>) -> (r: Result<
        (),
        FileError,
    >)
        requires
            old(self).wf(),
        ensures
            final(self).wf(),
            final(self).doc_dir() == old(self).doc_dir(),
            old(self).registry().refuses_save(path@, id@) ==> {
                &&& r == Err::<(), FileError>(FileError::HasChanged(*path))
                &&& final(self).registry() == old(self).registry()
            },
            !old(self).registry().refuses_save(path@, id@) ==> match written {
                Ok(t) => {
                    &&& r is Ok
                    &&& final(self).registry() == old(self).registry().after_save(path@, id@, t)
                },
                Err(m) => {
                    &&& r == Err::<(), FileError>(FileError::Io(m, *path))
                    &&& final(self).registry() == old(self).registry()
                },
            },
    {
        let recorded = match self.file_info.get(id.as_str()) {
            Some(info) => Some(
                FileInfo {
                    encoding: info.encoding,
                    path: info.path.clone(),
                    modified_time: info.modified_time,
                    has_changed: info.has_changed,
                },
            ),
            None => None,
        };
        proof {
            if written is Ok {
                lemma_operations_keep_consistency(
                    old(self).registry(),
                    path@,
                    id@,
                    CharacterEncoding::Utf8,
                    written->Ok_0,
                );
            }
        }
        match recorded {
            Some(info) => self.save_existing(path, id, info, written),
            None => self.save_new(path, id, written),
        }
    }

    /// Drops `id` and the path it was recorded at. Unknown identifiers are ignored.
    pub fn close(&mut self, id: &FileId)
        requires
            old(self).wf(),
        ensures
            final(self).wf(),
            final(self).doc_dir() == old(self).doc_dir(),
            final(self).registry() == old(self).registry().after_close(id@),
    {
        proof {
            lemma_operations_keep_consistency(
                old(self).registry(),
                Seq::empty(),
                id@,
                CharacterEncoding::Utf8,
                0,
            );
        }
        let recorded = match self.file_info.get(id.as_str()) {
            Some(info) => Some(info.path.clone()),
            None => None,
        };
        if let Some(p) = recorded {
            self.file_info.remove(id.as_str());
            self.open_files.remove(p.as_str());
            proof {
                let expect = old(self).registry().after_close(id@);
                assert(self.registry().paths =~= expect.paths);
                assert(self.registry().docs =~= expect.docs);
            }
        }
    }

    /// Where the document named `id` lives under the document directory.
    pub fn make_file_path(&self, id: &str) -> (r: String)
        ensures
            r@ == self.doc_dir() + seq!['/'] + id@,
    {
        proof {
            reveal_strlit("/");
        }
        self.config.doc_dir.clone().concat("/").concat(id)
    }

    pub fn get_info(&self, id: &FileId) -> (r: Option<&FileInfo>)
        ensures
            match r {
                Some(info) => self.registry().tracks(id@) && info@ == self.registry().docs[id@],
                None => !self.registry().tracks(id@),
            },
    {
        self.file_info.get(id.as_str())
    }

    pub fn get_file_id(&self, path: &str) -> (r: Option<FileId>)
        ensures
            match r {
                Some(id) => self.registry().paths.contains_key(path@) && id@
                    == self.registry().paths[path@],
                None => !self.registry().paths.contains_key(path@),
            },
    {
        match self.open_files.get(path) {
            Some(id) => Some(FileId(id.clone())),
            None => None,
        }
    }

    /// Compares the modification time the file system now reports for `id`'s
    /// file against the one recorded. A difference marks the document as
    /// modified outside the manager until it is next opened or saved anew.
    /// Returns whether it is so marked; false for an unknown identifier.
    pub fn check_file(&mut self, id: &FileId, modified_time: u64) -> (r: bool)
        requires
            old(self).wf(),
        ensures
            final(self).wf(),
            final(self).doc_dir() == old(self).doc_dir(),
            r == old(self).registry().dirty_after_check(id@, modified_time),
            final(self).registry() == old(self).registry().after_check(id@, modified_time),
    {
        proof {
            lemma_operations_keep_consistency(
                old(self).registry(),
                Seq::empty(),
                id@,
                CharacterEncoding::Utf8,
                modified_time,
            );
        }
        let updated = match self.file_info.get(id.as_str()) {
            Some(info) => Some(
                FileInfo {
                    encoding: info.encoding,
                    path: info.path.clone(),
                    modified_time: info.modified_time,
                    has_changed: info.has_changed || modified_time != info.modified_time,
                },
            ),
            None => None,
        };
        match updated {
            Some(info) => {
                let dirty = info.has_changed;
                self.file_info.insert(id.0.clone(), info);
                proof {
                    let expect = old(self).registry().after_check(id@, modified_time);
                    assert(self.registry().paths =~= expect.paths);
                    assert(self.registry().docs =~= expect.docs);
                }
                dirty
            },
            None => false,
        }
    }

    /// Records `id` at `path` with `info`. The identifier's former path is
    /// released, and an identifier that `path` resolved to is no longer tracked.
    fn register(&mut self, path: &String, id: &FileId, info: FileInfo)
        ensures
            final(self).doc_dir() == old(self).doc_dir(),
            final(self).registry() == old(self).registry().register(path@, id@, info@),
    {
        let former_path = match self.file_info.get(id.as_str()) {
            Some(i) => Some(i.path.clone()),
            None => None,
        };
        let former_owner = match self.open_files.get(path.as_str()) {
            Some(o) => Some(o.clone()),
            None => None,
        };
        if let Some(q) = former_path {
            self.open_files.remove(q.as_str());
        }
        if let Some(o) = former_owner {
            if !(o == id.0) {
                self.file_info.remove(o.as_str());
            }
        }
        self.open_files.insert(path.clone(), id.0.clone());
        self.file_info.insert(id.0.clone(), info);
        proof {
            let expect = old(self).registry().register(path@, id@, info@);
            assert(self.registry().paths =~= expect.paths);
            assert(self.registry().docs =~= expect.docs);
        }
    }

    /// Writes to a path that the identifier is not yet recorded at.
    fn save_new(&mut self, path: &String, id: &FileId, written: Result<u64, String>) -> (r: Result<
        (),
        FileError,
    >)
        ensures
            final(self).doc_dir() == old(self).doc_dir(),
            match written {
                Ok(t) => {
                    &&& r is Ok
                    &&& final(self).registry() == old(self).registry().register(
                        path@,
                        id@,
                        fresh_state(CharacterEncoding::Utf8, path@, t),
                    )
                },
                Err(m) => {
                    &&& r == Err::<(), FileError>(FileError::Io(m, *path))
                    &&& final(self).registry() == old(self).registry()
                },
            },
    {
        match written {
            Err(m) => Err(FileError::Io(m, path.clone())),
            Ok(t) => {
                let info = FileInfo {
                    encoding: CharacterEncoding::Utf8,
                    path: path.clone(),
                    modified_time: t,
                    has_changed: false,
                };
                self.register(path, id, info);
                Ok(())
            },
        }
    }

    /// Writes an identifier that is already tracked: at a new path, as a
    /// save-as; at its recorded path, only if no outside change was seen.
    fn save_existing(
        &mut self,
        path: &String,
        id: &FileId,
        info: FileInfo,
        written: Result<u64, String>,
    ) -> (r: Result<(), FileError>)
        requires
            old(self).registry().tracks(id@),
            old(self).registry().docs[id@] == info@,
        ensures
            final(self).doc_dir() == old(self).doc_dir(),
            old(self).registry().refuses_save(path@, id@) ==> {
                &&& r == Err::<(), FileError>(FileError::HasChanged(*path))
                &&& final(self).registry() == old(self).registry()
            },
            !old(self).registry().refuses_save(path@, id@) ==> match written {
                Ok(t) => {
                    &&& r is Ok
                    &&& final(self).registry() == old(self).registry().after_save(path@, id@, t)
                },
                Err(m) => {
                    &&& r == Err::<(), FileError>(FileError::Io(m, *path))
                    &&& final(self).registry() == old(self).registry()
                },
            },
    {
        if !(info.path == *path) {
            self.save_new(path, id, written)
        } else if info.has_changed {
            Err(FileError::HasChanged(path.clone()))
        } else {
            match written {
                Err(m) => Err(FileError::Io(m, path.clone())),
                Ok(t) => {
                    let updated = FileInfo { modified_time: t, ..info };
                    self.file_info.insert(id.0.clone(), updated);
                    proof {
                        let expect = old(self).registry().after_save(path@, id@, t);
                        assert(self.registry().paths =~= expect.paths);
                        assert(self.registry().docs =~= expect.docs);
                    }
                    Ok(())
                },
            }
        }
    }
}

} // verus!
