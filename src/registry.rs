use vstd::prelude::*;

use crate::file_info::{CharacterEncoding, DocState};

verus! {

/// Abstract state of the document registry: which identifier each path
/// resolves to, and the metadata kept for each identifier.
pub struct Registry {
    pub paths: Map<Seq<char>, Seq<char>>,
    pub docs: Map<Seq<char>, DocState>,
}

/// Metadata recorded right after a document was written or read at `path`.
pub open spec fn fresh_state(
    encoding: CharacterEncoding,
    path: Seq<char>,
    modified_time: u64,
) -> DocState {
    DocState { encoding, path, modified_time, has_changed: false }
}

impl Registry {
    pub open spec fn empty() -> Registry {
        Registry { paths: Map::empty(), docs: Map::empty() }
    }

    pub open spec fn tracks(self, id: Seq<char>) -> bool {
        self.docs.contains_key(id)
    }

    /// Every tracked identifier's recorded path resolves back to it.
    pub open spec fn docs_resolve(self) -> bool {
        forall|id: Seq<char>|
            #[trigger] self.docs.contains_key(id) ==> {
                &&& self.paths.contains_key(self.docs[id].path)
                &&& self.paths[self.docs[id].path] == id
            }
    }

    /// Every registered path leads to a tracked identifier recorded at that path.
    pub open spec fn paths_resolve(self) -> bool {
        forall|p: Seq<char>|
            #[trigger] self.paths.contains_key(p) ==> {
                &&& self.docs.contains_key(self.paths[p])
                &&& self.docs[self.paths[p]].path == p
            }
    }

    /// The two maps describe each other exactly.
    pub open spec fn consistent(self) -> bool {
        self.docs_resolve() && self.paths_resolve()
    }

    /// Records `id` at `path` with metadata `state`. The identifier's former
    /// path no longer resolves, and an identifier that `path` resolved to
    /// before is no longer tracked.
    pub open spec fn register(self, path: Seq<char>, id: Seq<char>, state: DocState) -> Registry {
        let paths = if self.tracks(id) {
            self.paths.remove(self.docs[id].path)
        } else {
            self.paths
        };
        let docs = if self.paths.contains_key(path) && self.paths[path] != id {
            self.docs.remove(self.paths[path])
        } else {
            self.docs
        };
        Registry { paths: paths.insert(path, id), docs: docs.insert(id, state) }
    }

    /// The registry after a file was read at `path` for `id`.
    pub open spec fn after_open(
        self,
        path: Seq<char>,
        id: Seq<char>,
        encoding: CharacterEncoding,
        modified_time: u64,
    ) -> Registry {
        self.register(path, id, fresh_state(encoding, path, modified_time))
    }

    /// A save of `id` at `path` writes a new file: the identifier is untracked,
    /// or tracked at another path (save-as).
    pub open spec fn saves_as_new(self, path: Seq<char>, id: Seq<char>) -> bool {
        !self.tracks(id) || self.docs[id].path != path
    }

    /// A save of `id` at `path` is refused: it would overwrite a file that was
    /// modified outside the manager.
    pub open spec fn refuses_save(self, path: Seq<char>, id: Seq<char>) -> bool {
        self.tracks(id) && self.docs[id].path == path && self.docs[id].has_changed
    }

    /// The encoding a save of `id` at `path` writes with.
    pub open spec fn save_encoding(self, path: Seq<char>, id: Seq<char>) -> CharacterEncoding {
        if self.saves_as_new(path, id) {
            CharacterEncoding::Utf8
        } else {
            self.docs[id].encoding
        }
    }

    /// The registry after a write of `id` at `path` that the file system
    /// stamped with `modified_time`.
    pub open spec fn after_save(self, path: Seq<char>, id: Seq<char>, modified_time: u64) -> Registry {
        if self.saves_as_new(path, id) {
            self.register(path, id, fresh_state(CharacterEncoding::Utf8, path, modified_time))
        } else {
            Registry {
                paths: self.paths,
                docs: self.docs.insert(id, DocState { modified_time, ..self.docs[id] }),
            }
        }
    }

    /// The registry after `id` was closed.
    pub open spec fn after_close(self, id: Seq<char>) -> Registry {
        if self.tracks(id) {
            Registry { paths: self.paths.remove(self.docs[id].path), docs: self.docs.remove(id) }
        } else {
            self
        }
    }

    /// Whether `id` counts as modified outside the manager once the file
    /// system reports `modified_time` for it.
    pub open spec fn dirty_after_check(self, id: Seq<char>, modified_time: u64) -> bool {
        self.tracks(id) && (self.docs[id].has_changed || self.docs[id].modified_time
            != modified_time)
    }

    /// The registry after a check of `id` against `modified_time`.
    pub open spec fn after_check(self, id: Seq<char>, modified_time: u64) -> Registry {
        if self.tracks(id) {
            Registry {
                paths: self.paths,
                docs: self.docs.insert(
                    id,
                    DocState {
                        has_changed: self.dirty_after_check(id, modified_time),
                        ..self.docs[id]
                    },
                ),
            }
        } else {
            self
        }
    }
}

/// A successful save leaves the document clean: a check against the
/// modification time that the write produced reports no outside change and
/// changes nothing.
pub proof fn lemma_check_after_save_is_clean(
    reg: Registry,
    path: Seq<char>,
    id: Seq<char>,
    modified_time: u64,
)
    requires
        !reg.refuses_save(path, id),
    ensures
        !reg.after_save(path, id, modified_time).dirty_after_check(id, modified_time),
        reg.after_save(path, id, modified_time).after_check(id, modified_time) == reg.after_save(
            path,
            id,
            modified_time,
        ),
{
    let s = reg.after_save(path, id, modified_time);
    assert(s.docs.insert(id, DocState { has_changed: false, ..s.docs[id] }) =~= s.docs);
}

/// When the modification time on disk differs from the one a save recorded,
/// the next check reports the document as changed and marks it so.
pub proof fn lemma_outside_change_is_detected(
    reg: Registry,
    path: Seq<char>,
    id: Seq<char>,
    saved_time: u64,
    disk_time: u64,
)
    requires
        !reg.refuses_save(path, id),
        saved_time != disk_time,
    ensures
        reg.after_save(path, id, saved_time).dirty_after_check(id, disk_time),
        reg.after_save(path, id, saved_time).after_check(id, disk_time).docs[id].has_changed,
{
}

/// Once marked as changed, a document stays so whatever a later check sees.
pub proof fn lemma_change_mark_persists(reg: Registry, id: Seq<char>, modified_time: u64)
    requires
        reg.tracks(id),
        reg.docs[id].has_changed,
    ensures
        reg.dirty_after_check(id, modified_time),
        reg.after_check(id, modified_time) == reg,
{
    assert(reg.docs.insert(id, DocState { has_changed: true, ..reg.docs[id] }) =~= reg.docs);
}

/// After a check has seen an outside change, a save at the recorded path is
/// refused.
pub proof fn lemma_detected_change_blocks_save(reg: Registry, id: Seq<char>, modified_time: u64)
    requires
        reg.dirty_after_check(id, modified_time),
    ensures
        reg.after_check(id, modified_time).refuses_save(reg.docs[id].path, id),
{
}

/// Registering `id` at `path` moves it there: `path` resolves to it, its
/// former path no longer resolves, and whatever `path` resolved to before is
/// no longer tracked, so closing that identifier leaves `path` alone.
pub proof fn lemma_register_moves_identifier(reg: Registry, path: Seq<char>, id: Seq<char>, state: DocState)
    requires
        reg.consistent(),
    ensures
        ({
            let s = reg.register(path, id, state);
            &&& s.paths.contains_key(path) && s.paths[path] == id
            &&& s.tracks(id) && s.docs[id] == state
            &&& reg.tracks(id) && reg.docs[id].path != path ==> !s.paths.contains_key(reg.docs[id].path)
            &&& forall|p: Seq<char>| #[trigger] s.paths.contains_key(p) && p != path ==> s.paths[p] != id
            &&& reg.paths.contains_key(path) && reg.paths[path] != id ==> {
                &&& !s.tracks(reg.paths[path])
                &&& s.after_close(reg.paths[path]) == s
            }
        }),
{
}

/// Opening a tracked identifier at a new path drops its former path: only
/// the new one resolves to it, and its metadata names the new path, clean.
pub proof fn lemma_open_moves_identifier(
    reg: Registry,
    path: Seq<char>,
    id: Seq<char>,
    encoding: CharacterEncoding,
    modified_time: u64,
)
    requires
        reg.consistent(),
        reg.tracks(id),
        reg.docs[id].path != path,
    ensures
        ({
            let s = reg.after_open(path, id, encoding, modified_time);
            &&& s.paths.contains_key(path) && s.paths[path] == id
            &&& !s.paths.contains_key(reg.docs[id].path)
            &&& s.docs[id].path == path
            &&& !s.docs[id].has_changed
        }),
{
    lemma_register_moves_identifier(reg, path, id, fresh_state(encoding, path, modified_time));
}

/// A save-as moves a tracked identifier: the new path resolves to it, the old
/// one no longer resolves at all, and its metadata names the new path, clean.
pub proof fn lemma_save_as_moves_identifier(
    reg: Registry,
    path: Seq<char>,
    id: Seq<char>,
    modified_time: u64,
)
    requires
        reg.tracks(id),
        reg.docs[id].path != path,
    ensures
        ({
            let s = reg.after_save(path, id, modified_time);
            &&& !reg.refuses_save(path, id)
            &&& s.paths.contains_key(path) && s.paths[path] == id
            &&& !s.paths.contains_key(reg.docs[id].path)
            &&& s.tracks(id)
            &&& s.docs[id].path == path
            &&& !s.docs[id].has_changed
        }),
{
}

/// Closing twice is the same as closing once, and the identifier is gone;
/// in a consistent registry no path resolves to it any more.
pub proof fn lemma_close_is_idempotent(reg: Registry, id: Seq<char>)
    ensures
        reg.after_close(id).after_close(id) == reg.after_close(id),
        !reg.after_close(id).tracks(id),
        reg.consistent() ==> forall|p: Seq<char>|
            #[trigger] reg.after_close(id).paths.contains_key(p) ==> reg.after_close(id).paths[p]
                != id,
{
}

/// Registering keeps the registry consistent.
pub proof fn lemma_register_keeps_consistency(
    reg: Registry,
    path: Seq<char>,
    id: Seq<char>,
    state: DocState,
)
    requires
        reg.consistent(),
        state.path == path,
    ensures
        reg.register(path, id, state).consistent(),
{
    let s = reg.register(path, id, state);
    assert forall|x: Seq<char>| #[trigger] s.docs.contains_key(x) implies {
        &&& s.paths.contains_key(s.docs[x].path)
        &&& s.paths[s.docs[x].path] == x
    } by {
        if x != id {
            assert(reg.docs.contains_key(x));
            assert(reg.paths[reg.docs[x].path] == x);
        }
    }
    assert forall|p: Seq<char>| #[trigger] s.paths.contains_key(p) implies {
        &&& s.docs.contains_key(s.paths[p])
        &&& s.docs[s.paths[p]].path == p
    } by {
        if p != path {
            assert(reg.paths.contains_key(p));
            let x = reg.paths[p];
            assert(reg.docs.contains_key(x) && reg.docs[x].path == p);
        }
    }
}

/// Every operation keeps the registry consistent.
pub proof fn lemma_operations_keep_consistency(
    reg: Registry,
    path: Seq<char>,
    id: Seq<char>,
    encoding: CharacterEncoding,
    modified_time: u64,
)
    requires
        reg.consistent(),
    ensures
        reg.after_close(id).consistent(),
        reg.after_check(id, modified_time).consistent(),
        reg.after_open(path, id, encoding, modified_time).consistent(),
        reg.after_save(path, id, modified_time).consistent(),
{
    let c = reg.after_close(id);
    assert forall|other: Seq<char>| #[trigger] c.docs.contains_key(other) implies {
        &&& c.paths.contains_key(c.docs[other].path)
        &&& c.paths[c.docs[other].path] == other
    } by {
        assert(reg.docs.contains_key(other));
        assert(reg.paths[reg.docs[other].path] == other);
    }
    assert forall|p: Seq<char>| #[trigger] c.paths.contains_key(p) implies {
        &&& c.docs.contains_key(c.paths[p])
        &&& c.docs[c.paths[p]].path == p
    } by {
        assert(reg.paths.contains_key(p));
    }
    let k = reg.after_check(id, modified_time);
    assert forall|other: Seq<char>| #[trigger] k.docs.contains_key(other) implies {
        &&& k.paths.contains_key(k.docs[other].path)
        &&& k.paths[k.docs[other].path] == other
    } by {
        assert(reg.docs.contains_key(other));
    }
    assert forall|p: Seq<char>| #[trigger] k.paths.contains_key(p) implies {
        &&& k.docs.contains_key(k.paths[p])
        &&& k.docs[k.paths[p]].path == p
    } by {
        assert(reg.paths.contains_key(p));
    }
    lemma_register_keeps_consistency(reg, path, id, fresh_state(encoding, path, modified_time));
    if reg.saves_as_new(path, id) {
        lemma_register_keeps_consistency(
            reg,
            path,
            id,
            fresh_state(CharacterEncoding::Utf8, path, modified_time),
        );
    } else {
        let s = reg.after_save(path, id, modified_time);
        assert forall|other: Seq<char>| #[trigger] s.docs.contains_key(other) implies {
            &&& s.paths.contains_key(s.docs[other].path)
            &&& s.paths[s.docs[other].path] == other
        } by {
            assert(reg.docs.contains_key(other));
        }
        assert forall|p: Seq<char>| #[trigger] s.paths.contains_key(p) implies {
            &&& s.docs.contains_key(s.paths[p])
            &&& s.docs[s.paths[p]].path == p
        } by {
            assert(reg.paths.contains_key(p));
        }
    }
}

} // verus!
