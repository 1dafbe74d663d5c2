//! The resource store.
//!
//! Loading from disk is the host driver's business; the core works on
//! a store of named byte files that the driver fills, rooted at a
//! directory path. Looking a resource up and checking that shader
//! source holds no interior null byte are the core's logic and are
//! verified here.

use vstd::prelude::*;
use vstd::string::StringExecFns;

verus! {

/// Why a resource failed to load.
#[derive(Debug)]
pub enum Error {
    /// No file exists at `path`.
    IO { path: String },
    /// The file cannot become C-string shader source: it holds an
    /// interior null byte.
    FileContainsNil,
    /// The host driver could not locate the running executable to
    /// anchor the store's root path.
    UnableToLocateExe,
    /// The host driver could not decode the bytes at `path` as an image.
    UnableToLoadImage { path: String },
}

/// Join `root_dir` and the `/`-separated parts of `location` into one
/// path. The parts are joined back with the same separator, so the
/// result is the root, one separator, and the location as given.
pub fn resource_name_to_path(root_dir: &str, location: &str) -> (p: String)
    ensures
        p@ == root_dir@ + "/"@ + location@,
{
    let mut p = root_dir.to_owned();
    p.append("/");
    p.append(location);
    p
}

/// The bytes stored for `path`, if any: the first entry with that
/// path wins.
pub open spec fn lookup(files: Seq<(String, Vec<u8>)>, path: Seq<char>) -> Option<Seq<u8>>
    decreases files.len(),
{
    if files.len() == 0 {
        None
    } else if files[0].0@ == path {
        Some(files[0].1@)
    } else {
        lookup(files.drop_first(), path)
    }
}

/// If entry `i` is the first whose path matches, the lookup returns
/// its bytes.
proof fn lemma_lookup_found(files: Seq<(String, Vec<u8>)>, path: Seq<char>, i: int)
    requires
        0 <= i < files.len(),
        files[i].0@ == path,
        forall|j: int| 0 <= j < i ==> (#[trigger] files[j]).0@ != path,
    ensures
        lookup(files, path) == Some(files[i].1@),
    decreases i,
{
    if i > 0 {
        lemma_lookup_found(files.drop_first(), path, i - 1);
    }
}

/// If no entry's path matches, the lookup returns nothing.
proof fn lemma_lookup_none(files: Seq<(String, Vec<u8>)>, path: Seq<char>)
    requires
        forall|j: int| 0 <= j < files.len() ==> (#[trigger] files[j]).0@ != path,
    ensures
        lookup(files, path) is None,
    decreases files.len(),
{
    if files.len() > 0 {
        lemma_lookup_none(files.drop_first(), path);
    }
}

/// Whether the bytes hold a null, which C-string shader source may not.
pub open spec fn has_nil(b: Seq<u8>) -> bool {
    exists|i: int| 0 <= i < b.len() && b[i] == 0
}

/// A store of named byte files rooted at a directory path. The host
/// driver fills it; the core reads it.
pub struct Resources {
    root_path: String,
    files: Vec<(String, Vec<u8>)>,
}

impl Resources {
    /// The root directory path.
    pub closed spec fn root(self) -> Seq<char> {
        self.root_path@
    }

    /// The stored files, in the order they were added.
    pub closed spec fn files(self) -> Seq<(String, Vec<u8>)> {
        self.files@
    }

    /// The full path a resource name resolves to.
    pub open spec fn full_path(self, name: Seq<char>) -> Seq<char> {
        self.root() + "/"@ + name
    }

    /// Whether the store holds a file for `name`.
    pub open spec fn has_file(self, name: Seq<char>) -> bool {
        lookup(self.files(), self.full_path(name)) is Some
    }

    /// The stored bytes for `name`.
    pub open spec fn file_bytes(self, name: Seq<char>) -> Seq<u8> {
        lookup(self.files(), self.full_path(name)).unwrap()
    }

    /// Whether `name` loads as C-string text: present and free of
    /// interior null bytes.
    pub open spec fn loads_ok(self, name: Seq<char>) -> bool {
        self.has_file(name) && !has_nil(self.file_bytes(name))
    }

    /// An empty store rooted at `root_path`.
    pub fn new(root_path: String) -> (r: Resources)
        ensures
            r.root() == root_path@,
            r.files() == Seq::<(String, Vec<u8>)>::empty(),
    {
        Resources { root_path, files: Vec::new() }
    }

    /// Add one file to the store. Earlier entries shadow later ones
    /// with the same path.
    pub fn add_file(&mut self, path: String, contents: Vec<u8>)
        ensures
            final(self).root() == old(self).root(),
            final(self).files() == old(self).files().push((path, contents)),
    {
        self.files.push((path, contents));
    }

    /// Load the text file a resource name resolves to. Returns the
    /// bytes exactly when the file exists and holds no interior null
    /// byte; a missing file reports the path it was looked up under,
    /// and a null byte is a load error, not a crash.
    pub fn load_cstring(&self, resource_name: &str) -> (r: Result<Vec<u8>, Error>)
        ensures
            match r {
                Ok(b) => self.loads_ok(resource_name@) && b@ == self.file_bytes(resource_name@),
                Err(e) => match e {
                    Error::IO { path } => !self.has_file(resource_name@) && path@ == self.full_path(
                        resource_name@,
                    ),
                    Error::FileContainsNil => self.has_file(resource_name@) && has_nil(
                        self.file_bytes(resource_name@),
                    ),
                    _ => false,
                },
            },
    {
        let path = resource_name_to_path(self.root_path.as_str(), resource_name);
        let ghost target = self.full_path(resource_name@);
        let mut i: usize = 0;
        while i < self.files.len()
            invariant
                i <= self.files().len(),
                path@ == target,
                target == self.full_path(resource_name@),
                forall|j: int| 0 <= j < i as int ==> (#[trigger] self.files()[j]).0@ != target,
            decreases self.files().len() - i,
        {
            let hit = self.files[i].0.eq(&path);
            if hit {
                proof {
                    lemma_lookup_found(self.files(), target, i as int);
                }
                let contents = &self.files[i].1;
                let mut j: usize = 0;
                while j < contents.len()
                    invariant
                        j <= contents@.len(),
                        forall|k: int| 0 <= k < j as int ==> contents@[k] != 0,
                        contents@ == self.file_bytes(resource_name@),
                        self.has_file(resource_name@),
                    decreases contents@.len() - j,
                {
                    if contents[j] == 0 {
                        return Err(Error::FileContainsNil);
                    }
                    j = j + 1;
                }
                return Ok(vstd::slice::slice_to_vec(contents.as_slice()));
            }
            i = i + 1;
        }
        proof {
            lemma_lookup_none(self.files(), target);
        }
        Err(Error::IO { path })
    }
}

} // verus!
