//! The sandboxed temporary root and its operations.
//!
//! A [`TmpFs`] owns a uniquely named temporary directory. Every
//! operation below works on paths joined under that root. The
//! directory and everything under it are removed when the value is
//! dropped, unless persistence was requested at creation.

use vstd::prelude::*;

use crate::assets::{copy_plan, spec_plan, AssetDir, CopyStep, StepView};
use crate::fsio;
use crate::paths::{join_str, parent_of, spec_join};
use crate::replace::replacen_str;

verus! {

/// Why a sandbox could not be constructed.
#[derive(Debug)]
pub enum SetupError {
    /// The temporary directory could not be allocated.
    Fixture(assert_fs::fixture::FixtureError),
    /// The allocated directory's path is not valid UTF-8 text.
    RootNotUtf8,
}

/// A disposable filesystem sandbox rooted at a uniquely named
/// temporary directory.
pub struct TmpFs {
    tmp_dir: assert_fs::TempDir,
    root: String,
}

impl TmpFs {
    /// The absolute path of the sandbox root.
    pub closed spec fn spec_root(&self) -> Seq<char> {
        self.root@
    }

    /// Allocates a new uniquely named directory under the platform
    /// temp location. When `persist` is set the directory survives the
    /// value's drop, for post-mortem inspection; otherwise it is
    /// removed then. Fails when the directory cannot be allocated, or
    /// when its path is not valid UTF-8 text.
    pub fn new(persist: bool) -> Result<TmpFs, SetupError> {
        let dir = match fsio::new_temp_dir() {
            Ok(d) => d,
            Err(e) => {
                return Err(SetupError::Fixture(e));
            },
        };
        let dir = fsio::into_persistent_if(dir, persist);
        match fsio::temp_dir_root(&dir) {
            Some(root) => Ok(TmpFs { tmp_dir: dir, root }),
            None => Err(SetupError::RootNotUtf8),
        }
    }

    /// The owned temporary directory.
    pub fn tmp_dir(&self) -> &assert_fs::TempDir {
        &self.tmp_dir
    }

    /// The sandbox root as text.
    pub fn root(&self) -> (r: &str)
        ensures
            r@ == self.spec_root(),
    {
        self.root.as_str()
    }

    /// The absolute path formed by joining the sandbox root with
    /// `path`: pure, no filesystem access, for every `path` whether or
    /// not it exists.
    pub fn path(&self, path: &str) -> (r: String)
        ensures
            r@ == spec_join(self.spec_root(), path@),
    {
        join_str(self.root.as_str(), path)
    }

    /// Every entry reachable by recursively walking the sandbox, the
    /// root itself included, as raw platform paths; entries that fail
    /// to be read are skipped. What comes back depends on the disk.
    pub fn dir_entries_no_uf8(&self) -> Vec<std::path::PathBuf> {
        fsio::walk_paths(self.root.as_str())
    }

    /// The same walk as [`TmpFs::dir_entries_no_uf8`], with every
    /// entry as UTF-8 text: one text path per walked entry, in
    /// traversal order; aborts on an entry whose name is not valid
    /// UTF-8.
    pub fn dir_entries(&self) -> Vec<String> {
        let raw = self.dir_entries_no_uf8();
        let mut out: Vec<String> = Vec::new();
        let mut i: usize = 0;
        while i < raw.len()
            invariant
                out@.len() == i,
            decreases raw@.len() - i,
        {
            out.push(fsio::path_to_utf8(&raw[i]));
            i = i + 1;
        }
        out
    }

    /// Creates the target's missing ancestor directories, then writes
    /// `content` there, replacing any existing file. On success the
    /// result is the absolute path written: the root joined with
    /// `path`. Whether the filesystem calls succeed depends on the
    /// disk.
    pub fn write_file(&self, path: &str, content: &str) -> (r: Result<String, std::io::Error>)
        ensures
            r matches Ok(p) ==> p@ == spec_join(self.spec_root(), path@),
    {
        let target = self.path(path);
        let parent = parent_of(target.as_str());
        if parent.as_str().unicode_len() > 0 {
            match fsio::fs_create_dir_all(parent.as_str()) {
                Ok(u) => u,
                Err(e) => {
                    return Err(e);
                },
            };
        }
        match fsio::fs_write(target.as_str(), content.as_bytes()) {
            Ok(u) => Ok(target),
            Err(e) => Err(e),
        }
    }

    /// Moves the file or directory at the root joined with `from` to
    /// the root joined with `to`.
    pub fn rename(&self, from: &str, to: &str) -> Result<(), std::io::Error> {
        let f = self.path(from);
        let t = self.path(to);
        fsio::fs_rename(f.as_str(), t.as_str())
    }

    /// Deletes the file at the root joined with `path`.
    pub fn remove_file(&self, path: &str) -> Result<(), std::io::Error> {
        let target = self.path(path);
        fsio::fs_remove_file(target.as_str())
    }

    /// Deletes the directory at the root joined with `path` and
    /// everything under it.
    pub fn remove_dir_all(&self, path: &str) -> Result<(), std::io::Error> {
        let target = self.path(path);
        fsio::fs_remove_dir_all(target.as_str())
    }

    /// Sets the access and modification timestamps of the target at
    /// the root joined with `path` to the current wall-clock time.
    pub fn set_modification_time(&self, path: &str) -> Result<(), std::io::Error> {
        let target = self.path(path);
        let now = fsio::file_time_now();
        fsio::set_file_times(target.as_str(), now)
    }

    /// Creates a symbolic link at the root joined with `to`, pointing
    /// at the root joined with `from`, with the link kind the platform
    /// needs for the target's actual kind.
    pub fn create_symbolic_link(&self, from: &str, to: &str) -> Result<(), std::io::Error> {
        let f = self.path(from);
        let t = self.path(to);
        fsio::symlink_auto(f.as_str(), t.as_str())
    }

    /// The byte content of the file at the root joined with `path`.
    pub fn read_file(&self, path: &str) -> Result<Vec<u8>, std::io::Error> {
        let target = self.path(path);
        fsio::fs_read(target.as_str())
    }

    /// Reads the file at the root joined with `file` as text, replaces
    /// the first `count` non-overlapping occurrences of `pat` with
    /// `to` — exactly as [`crate::replace::spec_replacen`] describes,
    /// so a count of zero replaces nothing — and writes the result
    /// back. Fails when the file cannot be read, is not valid UTF-8
    /// text, or cannot be written.
    pub fn replacen_file(&self, file: &str, pat: &str, to: &str, count: usize) -> Result<
        (),
        std::io::Error,
    > {
        let target = self.path(file);
        let content = match fsio::fs_read_to_string(target.as_str()) {
            Ok(c) => c,
            Err(e) => {
                return Err(e);
            },
        };
        let replaced = replacen_str(content.as_str(), pat, to, count);
        fsio::fs_write(target.as_str(), replaced.as_str().as_bytes())
    }

    /// Creates the directory at the root joined with `path` and every
    /// missing ancestor; succeeds when it already exists.
    pub fn create_dir_all(&self, path: &str) -> Result<(), std::io::Error> {
        let target = self.path(path);
        fsio::fs_create_dir_all(target.as_str())
    }

    /// Imports `tree` into the sandbox root: performs, in order, the
    /// actions of [`copy_plan`] for the tree's entries under the root,
    /// stopping at the first failure. Directories are created anew —
    /// an existing directory of the same name is a failure — while
    /// files replace any existing file of the same name. A tree with
    /// no entries asks for no action and always succeeds.
    pub fn copy_assets(&self, tree: &AssetDir) -> (r: Result<(), std::io::Error>)
        ensures
            tree.entries@.len() == 0 ==> r is Ok,
    {
        let steps = copy_plan(&tree.entries, self.root.as_str());
        proof {
            if tree.entries@.len() == 0 {
                assert(spec_plan(tree.entries@, self.spec_root()) =~= Seq::<StepView>::empty());
                assert(steps@.len() == 0);
            }
        }
        let mut i: usize = 0;
        while i < steps.len()
            invariant
                tree.entries@.len() == 0 ==> steps@.len() == 0,
            decreases steps@.len() - i,
        {
            match &steps[i] {
                CopyStep::MakeDir(p) => {
                    match fsio::fs_create_dir(p.as_str()) {
                        Ok(u) => u,
                        Err(e) => {
                            return Err(e);
                        },
                    };
                },
                CopyStep::WriteFile(p, c) => {
                    match fsio::fs_write(p.as_str(), c.as_slice()) {
                        Ok(u) => u,
                        Err(e) => {
                            return Err(e);
                        },
                    };
                },
            }
            i = i + 1;
        }
        Ok(())
    }
}

} // verus!
