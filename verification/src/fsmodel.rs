//! An in-memory model of the filesystem a run mutates.
//!
//! The model mirrors what the engine's actions do to a real disk: a set
//! of directories, a map from full paths to file contents, and whether a
//! repository was initialized at the project root.  Creating a directory
//! succeeds when it is new and its parent exists; writing a file
//! creates or truncates it and needs only its parent directory.  The
//! scripted runner mutates a model instead of a disk, so a whole run can
//! be executed and checked without input or output.

use vstd::prelude::*;

use crate::paths::parent_dir;
use crate::paths::parent_of;
use crate::text::str_eq;

verus! {

/// What a modelled file holds: text or opaque bytes.
pub enum FileContent {
    Text(String),
    Binary(Vec<u8>),
}

/// Mathematical image of a `FileContent`.
pub enum ContentV {
    Text(Seq<char>),
    Binary(Seq<u8>),
}

impl View for FileContent {
    type V = ContentV;

    open spec fn view(&self) -> ContentV {
        match self {
            FileContent::Text(s) => ContentV::Text(s@),
            FileContent::Binary(b) => ContentV::Binary(b@),
        }
    }
}

/// One written file: its full path and its content.  A later entry for
/// the same path supersedes an earlier one.
pub struct FileEntry {
    pub path: String,
    pub content: FileContent,
}

/// The modelled filesystem.
pub struct FsModel {
    pub dirs: Vec<String>,
    pub files: Vec<FileEntry>,
    pub repo: bool,
}

/// Mathematical image of an `FsModel`.
#[verifier::ext_equal]
pub struct FsV {
    pub dirs: Set<Seq<char>>,
    pub files: Map<Seq<char>, ContentV>,
    pub repo: bool,
}

/// The set of directory paths a directory list denotes.
pub open spec fn dirs_set(ds: Seq<String>) -> Set<Seq<char>> {
    Set::new(|p: Seq<char>| exists|i: int| 0 <= i < ds.len() && ds[i]@ == p)
}

/// The path-to-content map a file list denotes; a later entry wins.
pub open spec fn files_map(es: Seq<FileEntry>) -> Map<Seq<char>, ContentV>
    decreases es.len(),
{
    if es.len() == 0 {
        Map::empty()
    } else {
        files_map(es.drop_last()).insert(es.last().path@, es.last().content@)
    }
}

impl View for FsModel {
    type V = FsV;

    open spec fn view(&self) -> FsV {
        FsV { dirs: dirs_set(self.dirs@), files: files_map(self.files@), repo: self.repo }
    }
}

/// A fresh filesystem model: only the destination directory exists.
pub open spec fn init_fs(dest: Seq<char>) -> FsV {
    FsV { dirs: Set::empty().insert(dest), files: Map::empty(), repo: false }
}

/// Appending a directory adds exactly its path to the denoted set.
proof fn lemma_dirs_push(ds: Seq<String>, x: String)
    ensures
        dirs_set(ds.push(x)) =~= dirs_set(ds).insert(x@),
{
    assert forall|p: Seq<char>| dirs_set(ds.push(x)).contains(p) implies dirs_set(ds).insert(
        x@,
    ).contains(p) by {
        let i = choose|i: int| 0 <= i < ds.push(x).len() && ds.push(x)[i]@ == p;
        if i < ds.len() {
            assert(ds[i]@ == p);
        } else {
            assert(ds.push(x)[ds.len() as int] == x);
        }
    }
    assert forall|p: Seq<char>| dirs_set(ds).insert(x@).contains(p) implies dirs_set(
        ds.push(x),
    ).contains(p) by {
        if dirs_set(ds).contains(p) {
            let i = choose|i: int| 0 <= i < ds.len() && ds[i]@ == p;
            assert(ds.push(x)[i]@ == p);
        } else {
            assert(ds.push(x)[ds.len() as int]@ == p);
        }
    }
}

/// Appending a file entry updates the denoted map at exactly its path.
proof fn lemma_files_push(es: Seq<FileEntry>, e: FileEntry)
    ensures
        files_map(es.push(e)) == files_map(es).insert(e.path@, e.content@),
{
    assert(es.push(e).drop_last() =~= es);
    assert(es.push(e).last() == e);
}

/// The denoted map holds, at the path of an entry that no later entry
/// shadows, exactly that entry's content.
proof fn lemma_files_map_at(es: Seq<FileEntry>, j: int)
    requires
        0 <= j < es.len(),
        forall|k: int| j < k < es.len() ==> es[k].path@ != es[j].path@,
    ensures
        files_map(es).contains_key(es[j].path@),
        files_map(es)[es[j].path@] == es[j].content@,
    decreases es.len(),
{
    if j == es.len() - 1 {
    } else {
        lemma_files_map_at(es.drop_last(), j);
    }
}

/// A path no entry mentions is not in the denoted map.
proof fn lemma_files_map_absent(es: Seq<FileEntry>, p: Seq<char>)
    requires
        forall|k: int| 0 <= k < es.len() ==> es[k].path@ != p,
    ensures
        !files_map(es).contains_key(p),
    decreases es.len(),
{
    if es.len() > 0 {
        lemma_files_map_absent(es.drop_last(), p);
    }
}

impl FsModel {
    /// A fresh model in which only the destination directory exists.
    pub fn new(dest: &str) -> (r: FsModel)
        ensures
            r@ == init_fs(dest@),
    {
        let mut dirs: Vec<String> = Vec::new();
        dirs.push(dest.to_owned());
        let r = FsModel { dirs, files: Vec::new(), repo: false };
        proof {
            assert forall|p: Seq<char>| dirs_set(r.dirs@).contains(p) implies Set::empty().insert(
                dest@,
            ).contains(p) by {
                let i = choose|i: int| 0 <= i < r.dirs@.len() && r.dirs@[i]@ == p;
            }
            assert forall|p: Seq<char>|
                Set::empty().insert(dest@).contains(p) implies dirs_set(r.dirs@).contains(p) by {
                assert(r.dirs@[0]@ == p);
            }
            assert(dirs_set(r.dirs@) =~= Set::empty().insert(dest@));
            assert(r@ =~= init_fs(dest@));
        }
        r
    }

    /// Whether `p` is a directory of the model.
    pub fn has_dir(&self, p: &str) -> (b: bool)
        ensures
            b == self@.dirs.contains(p@),
    {
        let n = self.dirs.len();
        let mut i: usize = 0;
        while i < n
            invariant
                0 <= i <= n,
                n == self.dirs@.len(),
                forall|k: int| 0 <= k < i ==> self.dirs@[k]@ != p@,
            decreases n - i,
        {
            if str_eq(self.dirs[i].as_str(), p) {
                assert(self.dirs@[i as int]@ == p@);
                return true;
            }
            i = i + 1;
        }
        false
    }

    /// Create the directory `p`: succeeds when `p` is new and its parent
    /// directory exists, and fails without any change otherwise.
    pub fn create_dir(&mut self, p: &str) -> (ok: bool)
        ensures
            ok == (!old(self)@.dirs.contains(p@) && old(self)@.dirs.contains(parent_of(p@))),
            ok ==> final(self)@ == (FsV { dirs: old(self)@.dirs.insert(p@), ..old(self)@ }),
            !ok ==> final(self)@ == old(self)@,
    {
        if self.has_dir(p) {
            return false;
        }
        let parent = parent_dir(p);
        if !self.has_dir(parent.as_str()) {
            return false;
        }
        let ghost pre = self.dirs@;
        self.dirs.push(p.to_owned());
        proof {
            lemma_dirs_push(pre, self.dirs@.last());
            assert(self.dirs@ =~= pre.push(self.dirs@.last()));
            assert(dirs_set(self.dirs@) =~= dirs_set(pre).insert(p@));
            assert(self@ =~= (FsV { dirs: old(self)@.dirs.insert(p@), ..old(self)@ }));
        }
        true
    }

    /// Write text at path `p`, creating or replacing the file: succeeds
    /// exactly when the parent directory exists.
    pub fn write_text(&mut self, p: &str, body: String) -> (ok: bool)
        ensures
            ok == old(self)@.dirs.contains(parent_of(p@)),
            ok ==> final(self)@ == (FsV {
                files: old(self)@.files.insert(p@, ContentV::Text(body@)),
                ..old(self)@
            }),
            !ok ==> final(self)@ == old(self)@,
    {
        let parent = parent_dir(p);
        if !self.has_dir(parent.as_str()) {
            return false;
        }
        let ghost pre = self.files@;
        let ghost bv = body@;
        let entry = FileEntry { path: p.to_owned(), content: FileContent::Text(body) };
        let ghost epath = entry.path@;
        let ghost econt = entry.content@;
        self.files.push(entry);
        proof {
            assert(self.files@ =~= pre.push(self.files@.last()));
            lemma_files_push(pre, self.files@.last());
            assert(epath == p@ && econt == ContentV::Text(bv));
            assert(self@ =~= (FsV {
                files: old(self)@.files.insert(p@, ContentV::Text(bv)),
                ..old(self)@
            }));
        }
        true
    }

    /// Write bytes at path `p`, creating or replacing the file: succeeds
    /// exactly when the parent directory exists.
    pub fn write_binary(&mut self, p: &str, body: Vec<u8>) -> (ok: bool)
        ensures
            ok == old(self)@.dirs.contains(parent_of(p@)),
            ok ==> final(self)@ == (FsV {
                files: old(self)@.files.insert(p@, ContentV::Binary(body@)),
                ..old(self)@
            }),
            !ok ==> final(self)@ == old(self)@,
    {
        let parent = parent_dir(p);
        if !self.has_dir(parent.as_str()) {
            return false;
        }
        let ghost pre = self.files@;
        let ghost bv = body@;
        let entry = FileEntry { path: p.to_owned(), content: FileContent::Binary(body) };
        let ghost epath = entry.path@;
        let ghost econt = entry.content@;
        self.files.push(entry);
        proof {
            assert(self.files@ =~= pre.push(self.files@.last()));
            lemma_files_push(pre, self.files@.last());
            assert(epath == p@ && econt == ContentV::Binary(bv));
            assert(self@ =~= (FsV {
                files: old(self)@.files.insert(p@, ContentV::Binary(bv)),
                ..old(self)@
            }));
        }
        true
    }

    /// Mark the repository as initialized.
    pub fn init_repo(&mut self)
        ensures
            final(self)@ == (FsV { repo: true, ..old(self)@ }),
    {
        self.repo = true;
    }

    /// Whether a repository was initialized.
    pub fn repo_initialized(&self) -> (b: bool)
        ensures
            b == self@.repo,
    {
        self.repo
    }

    /// The text content of the file at `p`, if a text file stands there.
    pub fn text_of(&self, p: &str) -> (r: Option<String>)
        ensures
            match r {
                Some(s) => self@.files.contains_key(p@) && self@.files[p@] == ContentV::Text(s@),
                None => !self@.files.contains_key(p@) || !(self@.files[p@] is Text),
            },
    {
        let n = self.files.len();
        let mut i: usize = n;
        while i > 0
            invariant
                0 <= i <= n,
                n == self.files@.len(),
                forall|k: int| i <= k < n ==> self.files@[k].path@ != p@,
            decreases i,
        {
            i = i - 1;
            if str_eq(self.files[i].path.as_str(), p) {
                proof {
                    lemma_files_map_at(self.files@, i as int);
                }
                return match &self.files[i].content {
                    FileContent::Text(s) => Some(s.clone()),
                    FileContent::Binary(_) => None,
                };
            }
        }
        proof {
            lemma_files_map_absent(self.files@, p@);
        }
        None
    }

    /// The byte content of the file at `p`, if a binary file stands
    /// there.
    pub fn bytes_of(&self, p: &str) -> (r: Option<Vec<u8>>)
        ensures
            match r {
                Some(b) => self@.files.contains_key(p@) && self@.files[p@] == ContentV::Binary(b@),
                None => !self@.files.contains_key(p@) || !(self@.files[p@] is Binary),
            },
    {
        let n = self.files.len();
        let mut i: usize = n;
        while i > 0
            invariant
                0 <= i <= n,
                n == self.files@.len(),
                forall|k: int| i <= k < n ==> self.files@[k].path@ != p@,
            decreases i,
        {
            i = i - 1;
            if str_eq(self.files[i].path.as_str(), p) {
                proof {
                    lemma_files_map_at(self.files@, i as int);
                }
                return match &self.files[i].content {
                    FileContent::Binary(b) => Some(b.clone()),
                    FileContent::Text(_) => None,
                };
            }
        }
        proof {
            lemma_files_map_absent(self.files@, p@);
        }
        None
    }

    /// How many file-write entries the model holds.
    pub fn files_len(&self) -> (n: usize)
        ensures
            n == self.files@.len(),
    {
        self.files.len()
    }
}

} // verus!
