//! What a run is configured with: where the sources are, where their mirror
//! goes, and how builds and tests are compiled.
use crate::paths::ComponentPath;
use crate::shadow_copy_destination::{
    DestinationDirectoryPath, DestinationPaths, ShadowCopyDestination,
};
use crate::text::{ascii_lowercase, is_word_ignoring_case};
use vstd::prelude::*;
use vstd::string::*;

verus! {

/// Specifies what compilation mode should be applied.
/// At the moment we only support Debug (dev) and Release profiles.
#[derive(Debug, Clone, Copy, PartialEq, Eq, Structural)]
pub enum CompilationMode {
    /// The mode that the command line calls "none".
    Nothing,
    Debug,
    Release,
    Both,
}

/// The `BuildMode` is used to parameterise invocations
/// of cargo subprocesses - i.e. do we add "--release"?.
#[derive(Debug, Clone, Copy, PartialEq, Eq, Structural)]
pub enum BuildMode {
    Debug,
    Release,
}

/// The compilation mode that the text `name` names, whatever the case of
/// its letters.
pub open spec fn compilation_mode_named(name: Seq<u8>) -> Option<CompilationMode> {
    let word = ascii_lowercase(name);
    if word == "none".spec_bytes() {
        Some(CompilationMode::Nothing)
    } else if word == "debug".spec_bytes() {
        Some(CompilationMode::Debug)
    } else if word == "release".spec_bytes() {
        Some(CompilationMode::Release)
    } else if word == "both".spec_bytes() {
        Some(CompilationMode::Both)
    } else {
        None
    }
}

impl CompilationMode {
    /// The mode in which the commands of a job are invoked: `Release` for
    /// `Release`, and `Debug` for every other mode.
    pub open spec fn spec_build_mode(self) -> BuildMode {
        match self {
            CompilationMode::Release => BuildMode::Release,
            _ => BuildMode::Debug,
        }
    }

    /// The mode in which the commands of a job are invoked: `Release` for
    /// `Release`, and `Debug` for every other mode.
    pub fn build_mode(self) -> (r: BuildMode)
        ensures
            r == self.spec_build_mode(),
    {
        match self {
            CompilationMode::Nothing => BuildMode::Debug,
            CompilationMode::Debug => BuildMode::Debug,
            CompilationMode::Release => BuildMode::Release,
            CompilationMode::Both => BuildMode::Debug,
        }
    }

    /// The mode that `s` names: one of "none", "debug", "release" and
    /// "both", in letters of either case.
    pub fn from_str(s: &str) -> (r: Result<CompilationMode, &'static str>)
        ensures
            match r {
                Ok(mode) => compilation_mode_named(s.spec_bytes()) == Some(mode),
                Err(message) => compilation_mode_named(s.spec_bytes()) is None && message@
                    == "no matching CompilationMode"@,
            },
    {
        if is_word_ignoring_case(s, "none") {
            Ok(CompilationMode::Nothing)
        } else if is_word_ignoring_case(s, "debug") {
            Ok(CompilationMode::Debug)
        } else if is_word_ignoring_case(s, "release") {
            Ok(CompilationMode::Release)
        } else if is_word_ignoring_case(s, "both") {
            Ok(CompilationMode::Both)
        } else {
            Err("no matching CompilationMode")
        }
    }
}

/// What the command line says.
#[derive(Debug)]
pub struct CommandLineArguments {
    /// Whether the sources are mirrored before they are built.
    pub do_shadow_copy: bool,
    /// The directory of the sources.
    pub source: ComponentPath,
    /// The directory of the mirror, where the user has named one.
    pub destination: Option<ComponentPath>,
    pub build_mode: CompilationMode,
    pub test_mode: CompilationMode,
}

impl CommandLineArguments {
    /// Whether the mirror goes to a temporary directory.
    pub open spec fn spec_needs_temp_directory(&self) -> bool {
        self.do_shadow_copy && self.destination is None
    }

    /// Whether the mirror goes to a temporary directory, which has to be
    /// made before the destination can be.
    pub fn needs_temp_directory(&self) -> (r: bool)
        ensures
            r == self.spec_needs_temp_directory(),
    {
        self.do_shadow_copy && self.destination.is_none()
    }

    /// The destination that these arguments ask for, `temp_directory` being
    /// the temporary directory that was made for the mirror, if one was.
    pub open spec fn destination_paths(&self, temp_directory: Option<Seq<Seq<char>>>) -> Option<
        DestinationPaths,
    > {
        if !self.do_shadow_copy {
            Some(
                DestinationPaths {
                    source_directory: self.source@,
                    destination: DestinationDirectoryPath::SameAsSource,
                },
            )
        } else {
            match self.destination {
                Some(dir) => Some(
                    DestinationPaths {
                        source_directory: self.source@,
                        destination: DestinationDirectoryPath::NamedDirectory(dir@),
                    },
                ),
                None => match temp_directory {
                    Some(dir) => Some(
                        DestinationPaths {
                            source_directory: self.source@,
                            destination: DestinationDirectoryPath::TempDirectory(dir),
                        },
                    ),
                    None => None,
                },
            }
        }
    }

    /// Makes the destination that these arguments ask for: the source
    /// directory itself where nothing is to be mirrored, else the directory
    /// that the user has named, else `temp_directory`, the temporary
    /// directory that the caller has made for the mirror. Returns `None`
    /// where a temporary directory is needed and none is given.
    pub fn make_shadow_copy_destination(&self, temp_directory: Option<ComponentPath>) -> (r: Option<
        ShadowCopyDestination,
    >)
        ensures
            match r {
                Some(d) => self.destination_paths(
                    match temp_directory {
                        Some(dir) => Some(dir@),
                        None => None,
                    },
                ) == Some(d@),
                None => self.spec_needs_temp_directory() && temp_directory is None,
            },
    {
        if self.do_shadow_copy {
            match &self.destination {
                Some(dir) => Some(
                    ShadowCopyDestination::with_named_directory(
                        self.source.clone(),
                        dir.clone(),
                    ),
                ),
                None => match temp_directory {
                    Some(dir) => Some(
                        ShadowCopyDestination::with_temp_destination(self.source.clone(), dir),
                    ),
                    None => None,
                },
            }
        } else {
            Some(ShadowCopyDestination::without_copying(self.source.clone()))
        }
    }
}

/// The configuration of one run.
#[derive(Debug)]
pub struct InnerConfiguration {
    /// The arguments that the configuration was made from.
    pub args: CommandLineArguments,
    /// Where the mirror of the sources goes.
    pub destination: ShadowCopyDestination,
}

impl InnerConfiguration {
    /// The mode that governs builds.
    pub fn build_mode(&self) -> (r: CompilationMode)
        ensures
            r == self.args.build_mode,
    {
        self.args.build_mode
    }

    /// The mode that governs the listing and the running of tests.
    pub fn test_mode(&self) -> (r: CompilationMode)
        ensures
            r == self.args.test_mode,
    {
        self.args.test_mode
    }

    /// The directory of the sources.
    pub fn source_directory(&self) -> (r: &ComponentPath)
        ensures
            r@ == self.args.source@,
    {
        &self.args.source
    }

    /// Resets the destination directory to what the arguments ask for. Where
    /// a temporary directory is needed and none is given, the destination
    /// stays as it is and `false` is returned.
    pub fn reset_destination(&mut self, temp_directory: Option<ComponentPath>) -> (done: bool)
        ensures
            final(self).args == old(self).args,
            done == !(old(self).args.spec_needs_temp_directory() && temp_directory is None),
            done ==> old(self).args.destination_paths(
                match temp_directory {
                    Some(dir) => Some(dir@),
                    None => None,
                },
            ) == Some(final(self).destination@),
            !done ==> final(self).destination == old(self).destination,
    {
        match self.args.make_shadow_copy_destination(temp_directory) {
            Some(destination) => {
                self.destination = destination;
                true
            },
            None => false,
        }
    }
}

/// Represents the global configuration of one run. Whoever shares it
/// between threads keeps it behind a shared pointer.
#[derive(Debug)]
pub struct Configuration {
    pub inner: InnerConfiguration,
}

/// The configuration that the arguments `args` ask for, `temp_directory`
/// being the temporary directory that the caller has made for the mirror
/// where `args` need one. Returns `None` where one is needed and none is given.
pub fn new(args: CommandLineArguments, temp_directory: Option<ComponentPath>) -> (r: Option<
    Configuration,
>)
    ensures
        match r {
            Some(c) => c.inner.args == args && args.destination_paths(
                match temp_directory {
                    Some(dir) => Some(dir@),
                    None => None,
                },
            ) == Some(c.inner.destination@),
            None => args.spec_needs_temp_directory() && temp_directory is None,
        },
{
    match args.make_shadow_copy_destination(temp_directory) {
        Some(destination) => Some(
            Configuration { inner: InnerConfiguration { args, destination } },
        ),
        None => None,
    }
}

} // verus!
