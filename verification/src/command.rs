//! Descriptions of the programs that the tool starts. A description is plain
//! data: the caller resolves the places against its own directories and
//! starts the process.

use vstd::prelude::*;
use vstd::string::StringExecFns;

verus! {

/// The operating system that the caller runs on.
#[derive(Clone, Copy, PartialEq, Eq, Structural, Debug)]
pub enum Platform {
    Windows,
    MacOs,
    Other,
}

/// Where a file is to be looked for.
#[derive(Clone, PartialEq, Eq, Debug)]
pub enum Location {
    /// The path as the user wrote it.
    Given(String),
    /// A file of this name in the working directory.
    InWorkingDir(String),
    /// A file of this name in the directory for temporary files.
    InTempDir(String),
}

/// What a `Location` stands for.
pub enum Place {
    Given(Seq<char>),
    InWorkingDir(Seq<char>),
    InTempDir(Seq<char>),
}

impl View for Location {
    type V = Place;

    open spec fn view(&self) -> Place {
        match self {
            Location::Given(path) => Place::Given(path@),
            Location::InWorkingDir(name) => Place::InWorkingDir(name@),
            Location::InTempDir(name) => Place::InTempDir(name@),
        }
    }
}

/// One word of a command line.
#[derive(Clone, PartialEq, Eq, Debug)]
pub enum Arg {
    /// The text itself.
    Text(String),
    /// The path of a file.
    Path(Location),
    /// A number, written in decimal.
    Number(u32),
    /// The configured speaking speed, written as a decimal fraction.
    Speed,
    /// The path of a file between two pieces of text.
    Embedded { before: String, path: Location, after: String },
}

/// What an `Arg` stands for.
pub enum Word {
    Text(Seq<char>),
    Path(Place),
    Number(u32),
    Speed,
    Embedded { before: Seq<char>, path: Place, after: Seq<char> },
}

impl View for Arg {
    type V = Word;

    open spec fn view(&self) -> Word {
        match self {
            Arg::Text(text) => Word::Text(text@),
            Arg::Path(location) => Word::Path(location@),
            Arg::Number(n) => Word::Number(*n),
            Arg::Speed => Word::Speed,
            Arg::Embedded { before, path, after } => Word::Embedded {
                before: before@,
                path: path@,
                after: after@,
            },
        }
    }
}

/// A program and the words handed to it.
#[derive(Clone, PartialEq, Eq, Debug)]
pub struct Command {
    pub program: Arg,
    pub args: Vec<Arg>,
}

/// What a `Command` stands for.
pub struct Invocation {
    pub program: Word,
    pub args: Seq<Word>,
}

/// The meaning of each word of `args`, in order.
pub open spec fn words(args: Seq<Arg>) -> Seq<Word> {
    Seq::new(args.len(), |i: int| args[i]@)
}

impl View for Command {
    type V = Invocation;

    open spec fn view(&self) -> Invocation {
        Invocation { program: self.program@, args: words(self.args@) }
    }
}

/// The word that is `text`.
pub fn text_arg(text: &str) -> (arg: Arg)
    ensures
        arg@ == Word::Text(text@),
{
    Arg::Text(String::from_str(text))
}

/// The word that names the file `name` in the directory for temporary files.
pub fn temp_file_arg(name: &str) -> (arg: Arg)
    ensures
        arg@ == Word::Path(Place::InTempDir(name@)),
{
    Arg::Path(Location::InTempDir(String::from_str(name)))
}

/// The word that names the file at `location`.
pub fn path_arg(location: &Location) -> (arg: Arg)
    ensures
        arg@ == Word::Path(location@),
{
    Arg::Path(copy_location(location))
}

/// A second `Location` for the same place.
pub fn copy_location(location: &Location) -> (copy: Location)
    ensures
        copy@ == location@,
{
    match location {
        Location::Given(path) => Location::Given(path.clone()),
        Location::InWorkingDir(name) => Location::InWorkingDir(name.clone()),
        Location::InTempDir(name) => Location::InTempDir(name.clone()),
    }
}

} // verus!
