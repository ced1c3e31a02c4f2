//! Where the mirror of the source tree lives, and where each file of the
//! source tree belongs in it.
//!
//! Nothing here touches the file system: the functions say which file is to
//! be copied where and what is to be removed, and their caller does it.
use crate::paths::{is_strictly_under, is_under, relative_to, ComponentPath};
use vstd::prelude::*;

verus! {

/// Represents the destination directory for the shadow-copy operation.
/// If `SameAsSource`, then no shadow copying is performed and
/// all operations are performed in the source directory itself.
#[derive(Debug)]
pub enum DestinationDirectory {
    SameAsSource,
    /// A directory that the user has named.
    NamedDirectory(ComponentPath),
    /// A temporary directory that was made for this run. Its owner removes
    /// it when the last user of this destination has gone.
    TempDirectory(ComponentPath),
}

/// What a `DestinationDirectory` holds.
pub enum DestinationDirectoryPath {
    SameAsSource,
    NamedDirectory(Seq<Seq<char>>),
    TempDirectory(Seq<Seq<char>>),
}

impl View for DestinationDirectory {
    type V = DestinationDirectoryPath;

    open spec fn view(&self) -> DestinationDirectoryPath {
        match self {
            DestinationDirectory::SameAsSource => DestinationDirectoryPath::SameAsSource,
            DestinationDirectory::NamedDirectory(dir) => DestinationDirectoryPath::NamedDirectory(
                dir@,
            ),
            DestinationDirectory::TempDirectory(dir) => DestinationDirectoryPath::TempDirectory(
                dir@,
            ),
        }
    }
}

impl DestinationDirectoryPath {
    /// The directory of the mirror, where there is one.
    pub open spec fn directory(self) -> Option<Seq<Seq<char>>> {
        match self {
            DestinationDirectoryPath::SameAsSource => None,
            DestinationDirectoryPath::NamedDirectory(dir) => Some(dir),
            DestinationDirectoryPath::TempDirectory(dir) => Some(dir),
        }
    }
}

impl DestinationDirectory {
    /// Returns `true` if shadow-copy operations are actually being peformed.
    /// Alternatively, if we are doing everything in the source without shadow
    /// copying, then `false` is returned.
    pub fn is_copying(&self) -> (r: bool)
        ensures
            r == self@.directory().is_some(),
    {
        match self {
            DestinationDirectory::SameAsSource => false,
            DestinationDirectory::NamedDirectory(_) => true,
            DestinationDirectory::TempDirectory(_) => true,
        }
    }

}

impl Clone for DestinationDirectory {
    fn clone(&self) -> (r: Self)
        ensures
            r@ == self@,
    {
        match self {
            DestinationDirectory::SameAsSource => DestinationDirectory::SameAsSource,
            DestinationDirectory::NamedDirectory(dir) => DestinationDirectory::NamedDirectory(
                dir.clone(),
            ),
            DestinationDirectory::TempDirectory(dir) => DestinationDirectory::TempDirectory(
                dir.clone(),
            ),
        }
    }
}

/// The directory where we (possibly) make the shadow copy and do the
/// compilations and test runs.
#[derive(Debug)]
pub struct ShadowCopyDestination {
    source_directory: ComponentPath,
    destination: DestinationDirectory,
}

/// What a `ShadowCopyDestination` holds.
pub struct DestinationPaths {
    pub source_directory: Seq<Seq<char>>,
    pub destination: DestinationDirectoryPath,
}

impl DestinationPaths {
    /// Whether the source tree has a mirror.
    pub open spec fn is_copying(self) -> bool {
        self.destination.directory().is_some()
    }

    /// The directory in which builds and tests run.
    pub open spec fn cwd(self) -> Seq<Seq<char>> {
        match self.destination.directory() {
            Some(dir) => dir,
            None => self.source_directory,
        }
    }

    /// Where the file or directory `path` of the source tree belongs in the
    /// mirror: below the mirror's directory, under the same names under which
    /// it lies below the source directory. There is no such place where
    /// there is no mirror, and for a path that does not lie below the source
    /// directory.
    pub open spec fn mirror_of(self, path: Seq<Seq<char>>) -> Option<Seq<Seq<char>>> {
        match self.destination.directory() {
            Some(dir) => if is_strictly_under(path, self.source_directory) {
                Some(dir + relative_to(path, self.source_directory))
            } else {
                None
            },
            None => None,
        }
    }

    /// Neither of the two directories lies in the other, and they are not the same.
    pub open spec fn keeps_apart(self) -> bool {
        match self.destination.directory() {
            Some(dir) => !is_under(dir, self.source_directory) && !is_under(
                self.source_directory,
                dir,
            ),
            None => true,
        }
    }
}

/// Every place in the mirror lies strictly below the mirror's directory, and
/// lies there under the names under which the file lies below the source
/// directory.
pub proof fn lemma_mirror_keeps_relative_paths(d: DestinationPaths, path: Seq<Seq<char>>)
    requires
        d.mirror_of(path).is_some(),
    ensures
        d.destination.directory().is_some(),
        is_strictly_under(d.mirror_of(path).unwrap(), d.destination.directory().unwrap()),
        relative_to(d.mirror_of(path).unwrap(), d.destination.directory().unwrap()) == relative_to(
            path,
            d.source_directory,
        ),
{
    let dir = d.destination.directory().unwrap();
    let rel = relative_to(path, d.source_directory);
    let m = d.mirror_of(path).unwrap();
    assert(m.subrange(0, dir.len() as int) =~= dir);
    assert(m.subrange(dir.len() as int, m.len() as int) =~= rel);
}

/// Two files of the source tree have the same place in the mirror only if
/// they are the same file.
pub proof fn lemma_mirror_is_injective(
    d: DestinationPaths,
    first: Seq<Seq<char>>,
    second: Seq<Seq<char>>,
)
    requires
        d.mirror_of(first).is_some(),
        d.mirror_of(first) == d.mirror_of(second),
    ensures
        first == second,
{
    lemma_mirror_keeps_relative_paths(d, first);
    lemma_mirror_keeps_relative_paths(d, second);
    let s = d.source_directory;
    assert(first =~= s + relative_to(first, s));
    assert(second =~= s + relative_to(second, s));
}

/// Where the source directory and the mirror's directory keep apart, no
/// place in the mirror lies in the source tree: what is written to the
/// mirror leaves the source tree as it is.
pub proof fn lemma_mirror_outside_source(d: DestinationPaths, path: Seq<Seq<char>>)
    requires
        d.keeps_apart(),
        d.mirror_of(path).is_some(),
    ensures
        !is_under(d.mirror_of(path).unwrap(), d.source_directory),
{
    let dir = d.destination.directory().unwrap();
    let s = d.source_directory;
    let m = d.mirror_of(path).unwrap();
    if is_under(m, s) {
        if s.len() <= dir.len() {
            assert(dir.subrange(0, s.len() as int) =~= m.subrange(0, s.len() as int));
        } else {
            assert(s.subrange(0, dir.len() as int) =~= m.subrange(0, s.len() as int).subrange(
                0,
                dir.len() as int,
            ));
            assert(m.subrange(0, s.len() as int).subrange(0, dir.len() as int) =~= dir);
        }
    }
}

/// Where the source directory and the mirror's directory keep apart, the
/// directories that lead to a place in the mirror lie outside the source
/// tree as well: making them leaves the source tree as it is.
pub proof fn lemma_mirror_directories_outside_source(
    d: DestinationPaths,
    path: Seq<Seq<char>>,
    depth: int,
)
    requires
        d.keeps_apart(),
        d.mirror_of(path).is_some(),
        0 <= depth <= d.mirror_of(path).unwrap().len(),
    ensures
        !is_under(d.mirror_of(path).unwrap().subrange(0, depth), d.source_directory),
{
    let s = d.source_directory;
    let m = d.mirror_of(path).unwrap();
    let directory = m.subrange(0, depth);
    lemma_mirror_outside_source(d, path);
    if is_under(directory, s) {
        assert(m.subrange(0, s.len() as int) =~= directory.subrange(0, s.len() as int));
    }
}

/// Where the two directories do not keep apart, some file of the source
/// tree has its place in the mirror inside the source tree.
pub proof fn lemma_mirror_inside_source(d: DestinationPaths, name: Seq<char>)
    requires
        d.is_copying(),
        !d.keeps_apart(),
    ensures
        exists|path: Seq<Seq<char>>|
            d.mirror_of(path).is_some() && is_under(
                #[trigger] d.mirror_of(path).unwrap(),
                d.source_directory,
            ),
{
    let dir = d.destination.directory().unwrap();
    let s = d.source_directory;
    if is_under(dir, s) {
        let path = s.push(name);
        assert(path.subrange(0, s.len() as int) =~= s);
        let m = d.mirror_of(path).unwrap();
        assert(m.subrange(0, s.len() as int) =~= dir.subrange(0, s.len() as int));
        assert(is_under(m, s));
    } else {
        let extra = s.subrange(dir.len() as int, s.len() as int);
        let path = s + extra.push(name);
        assert(path.subrange(0, s.len() as int) =~= s);
        assert(relative_to(path, s) =~= extra.push(name));
        let m = d.mirror_of(path).unwrap();
        assert(s =~= s.subrange(0, dir.len() as int) + extra);
        assert(m.subrange(0, s.len() as int) =~= s);
        assert(is_under(m, s));
    }
}

/// A file that is to be copied into the mirror.
#[derive(Debug)]
pub struct FileCopy {
    /// The file in the source tree.
    pub from: ComponentPath,
    /// Its place in the mirror.
    pub to: ComponentPath,
}

/// What follows an attempt to copy a file.
#[derive(Debug)]
pub enum CopyStep {
    /// Nothing more is to be done; the file was copied, or was not.
    Done(bool),
    /// The directory is to be made, with those above it, and the copy is to
    /// be tried once more.
    CreateDirectoryAndRetry(ComponentPath),
}

impl ShadowCopyDestination {
    /// A destination that is the source directory itself: nothing is mirrored.
    pub fn without_copying(source_directory: ComponentPath) -> (r: Self)
        ensures
            r@ == (DestinationPaths {
                source_directory: source_directory@,
                destination: DestinationDirectoryPath::SameAsSource,
            }),
    {
        Self { source_directory, destination: DestinationDirectory::SameAsSource }
    }

    /// A destination that mirrors the source directory into the temporary
    /// directory `temp_directory`, which the caller has made for it.
    pub fn with_temp_destination(
        source_directory: ComponentPath,
        temp_directory: ComponentPath,
    ) -> (r: Self)
        ensures
            r@ == (DestinationPaths {
                source_directory: source_directory@,
                destination: DestinationDirectoryPath::TempDirectory(temp_directory@),
            }),
    {
        Self { source_directory, destination: DestinationDirectory::TempDirectory(temp_directory) }
    }

    /// A destination that mirrors the source directory into `destination`.
    pub fn with_named_directory(source_directory: ComponentPath, destination: ComponentPath) -> (r:
        Self)
        ensures
            r@ == (DestinationPaths {
                source_directory: source_directory@,
                destination: DestinationDirectoryPath::NamedDirectory(destination@),
            }),
    {
        Self { source_directory, destination: DestinationDirectory::NamedDirectory(destination) }
    }

    /// Whether the source tree is mirrored.
    pub fn is_copying(&self) -> (r: bool)
        ensures
            r == self@.is_copying(),
    {
        self.destination.is_copying()
    }

    /// The directory of the source tree.
    pub fn source_directory(&self) -> (r: &ComponentPath)
        ensures
            r@ == self@.source_directory,
    {
        &self.source_directory
    }

    /// Returns the destination directory we are copying to.
    /// Returns `None` in the case that we are not actually doing any copying.
    pub fn destination_directory(&self) -> (r: Option<&ComponentPath>)
        ensures
            match r {
                Some(dir) => self@.destination.directory() == Some(dir@),
                None => self@.destination.directory() is None,
            },
    {
        match &self.destination {
            DestinationDirectory::SameAsSource => None,
            DestinationDirectory::NamedDirectory(dir) => Some(dir),
            DestinationDirectory::TempDirectory(dir) => Some(dir),
        }
    }

    /// Returns the effective current working directory: the mirror where
    /// there is one, and the source directory otherwise.
    pub fn cwd(&self) -> (r: &ComponentPath)
        ensures
            r@ == self@.cwd(),
    {
        match self.destination_directory() {
            Some(dir) => dir,
            None => &self.source_directory,
        }
    }

    /// Converts a source path into the corresponding path in the destination
    /// directory. There is none where nothing is mirrored, and for a path
    /// that does not lie below the source directory.
    pub fn get_path_in_destination(&self, source_path: &ComponentPath) -> (r: Option<
        ComponentPath,
    >)
        ensures
            match r {
                Some(mirror) => self@.mirror_of(source_path@) == Some(mirror@),
                None => self@.mirror_of(source_path@) is None,
            },
    {
        match self.destination_directory() {
            Some(dir) => match source_path.strip_prefix(&self.source_directory) {
                Some(relative) => if relative.len() == 0 {
                    None
                } else {
                    Some(dir.join(&relative))
                },
                None => None,
            },
            None => None,
        }
    }

    /// Says how `source_file` is copied from the source directory to the
    /// destination directory. Nothing is to be copied, and the copy counts as
    /// failed, where nothing is mirrored or the file does not lie below the
    /// source directory.
    pub fn copy_file(&self, source_file: &ComponentPath) -> (r: Option<FileCopy>)
        ensures
            match r {
                Some(copy) => copy.from@ == source_file@ && self@.mirror_of(source_file@) == Some(
                    copy.to@,
                ),
                None => self@.mirror_of(source_file@) is None,
            },
    {
        match self.get_path_in_destination(source_file) {
            Some(to) => Some(FileCopy { from: source_file.clone(), to }),
            None => None,
        }
    }

    /// Says what follows an attempt to copy a file to `to`. A copy that
    /// succeeded is done. After the first attempt has failed, the directory
    /// of `to` is to be made, which probably did not exist, and the copy is
    /// to be tried once more. When that fails too, the copy has failed.
    pub fn after_copy_attempt(to: &ComponentPath, first_attempt: bool, succeeded: bool) -> (r:
        CopyStep)
        ensures
            match r {
                CopyStep::Done(copied) => copied == succeeded && (succeeded || !first_attempt
                    || to@.len() == 0),
                CopyStep::CreateDirectoryAndRetry(dir) => !succeeded && first_attempt && to@.len()
                    > 0 && dir@ == to@.drop_last(),
            },
    {
        if succeeded {
            CopyStep::Done(true)
        } else if first_attempt {
            match to.parent() {
                Some(dir) => CopyStep::CreateDirectoryAndRetry(dir),
                None => CopyStep::Done(false),
            }
        } else {
            CopyStep::Done(false)
        }
    }

    /// Given a `source_path`, says which file or directory in the
    /// destination is to be removed: a directory with all that it holds.
    /// Nothing is to be removed, and the removal counts as failed, where
    /// nothing is mirrored or the path does not lie below the source directory.
    pub fn remove_file_or_directory(&self, source_path: &ComponentPath) -> (r: Option<
        ComponentPath,
    >)
        ensures
            match r {
                Some(mirror) => self@.mirror_of(source_path@) == Some(mirror@),
                None => self@.mirror_of(source_path@) is None,
            },
    {
        self.get_path_in_destination(source_path)
    }
}

impl Clone for ShadowCopyDestination {
    fn clone(&self) -> (r: Self)
        ensures
            r@ == self@,
    {
        Self {
            source_directory: self.source_directory.clone(),
            destination: self.destination.clone(),
        }
    }
}

impl View for ShadowCopyDestination {
    type V = DestinationPaths;

    closed spec fn view(&self) -> DestinationPaths {
        DestinationPaths {
            source_directory: self.source_directory@,
            destination: self.destination@,
        }
    }
}

} // verus!
