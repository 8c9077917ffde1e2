//! The action taken on a selected file, and the file operations it takes.
use vstd::prelude::*;

verus! {

/// What is done with each selected file.
#[derive(Debug)]
pub enum Action {
    /// Move the file into the given folder.
    Move(String),
    /// Copy the file into the given folder.
    Copy(String),
    /// Delete the file.
    Delete,
    /// Leave the file where it is.
    Keep,
}

/// One step on the file system, in the order a plan lists them.
#[derive(Debug, Clone, Copy, PartialEq, Eq, Structural)]
pub enum FileOp {
    /// Report that a file already stands at the destination; the steps after
    /// it still run.
    WarnExisting,
    /// Create the destination folder and its missing ancestors.
    CreateFolder,
    /// Rename the source file to the destination path.
    Rename,
    /// Copy the source file's bytes to the destination path.
    CopyFile,
    /// Remove the source file.
    Remove,
}

/// Why no destination can be formed for a source file.
#[derive(Debug, PartialEq, Eq, Structural)]
pub enum ActionError {
    /// The source path ends in no file name (it is empty, a root, or ends in `..`).
    NoFileName,
}

/// The last component of a path, if it is a file name.
pub uninterp spec fn file_name_of(path: Seq<char>) -> Option<Seq<char>>;

/// The path of `name` inside `folder`.
pub uninterp spec fn joined(folder: Seq<char>, name: Seq<char>) -> Seq<char>;

/// Relies on std::path::Path::file_name: the final component of the path
/// unless it is `..` or the path has none. The name of a path given as `&str`
/// is valid UTF-8, so the conversion back keeps it whole.
#[verifier::external_body]
fn path_file_name(path: &str) -> (r: Option<String>)
    ensures
        r matches Some(n) ==> file_name_of(path@) == Some(n@),
        r is None ==> file_name_of(path@) is None,
{
    std::path::Path::new(path).file_name().map(|n| n.to_string_lossy().into_owned())
}

/// Relies on std::path::Path::join: `name` appended to `folder` as a new
/// component. Both are valid UTF-8, so the result converts back whole.
#[verifier::external_body]
fn path_join(folder: &str, name: &str) -> (r: String)
    ensures
        r@ == joined(folder@, name@),
{
    std::path::Path::new(folder).join(name).to_string_lossy().into_owned()
}

impl Action {
    /// The folder a move or a copy writes into.
    pub open spec fn folder_spec(&self) -> Option<String> {
        match self {
            Action::Move(f) => Some(*f),
            Action::Copy(f) => Some(*f),
            _ => None,
        }
    }

    /// The action that the command-line flags ask for: a move before a copy,
    /// a copy before a delete, and otherwise none.
    pub fn from_flags(move_to: Option<String>, copy_to: Option<String>, delete: bool) -> (r: Action)
        ensures
            move_to matches Some(f) ==> r == Action::Move(f),
            move_to is None && copy_to is Some ==> r == Action::Copy(copy_to->0),
            move_to is None && copy_to is None && delete ==> r == Action::Delete,
            move_to is None && copy_to is None && !delete ==> r == Action::Keep,
    {
        match move_to {
            Some(f) => Action::Move(f),
            None => match copy_to {
                Some(f) => Action::Copy(f),
                None => if delete {
                    Action::Delete
                } else {
                    Action::Keep
                },
            },
        }
    }

    /// The folder a move or a copy writes into; `None` for the others.
    pub fn folder(&self) -> (r: Option<&String>)
        ensures
            r matches Some(f) ==> self.folder_spec() == Some(*f),
            r is None ==> self.folder_spec() is None,
    {
        match self {
            Action::Move(f) => Some(f),
            Action::Copy(f) => Some(f),
            _ => None,
        }
    }
}

/// The destination of a move or copy: the source's file name inside `folder`.
pub open spec fn destination_spec(source: Seq<char>, folder: Seq<char>) -> Option<Seq<char>> {
    match file_name_of(source) {
        Some(name) => Some(joined(folder, name)),
        None => None,
    }
}

/// The path a move or copy of `source` into `folder` writes, or
/// `NoFileName` where `source` names no file.
pub fn destination_of(source: &str, folder: &str) -> (r: Result<String, ActionError>)
    ensures
        r matches Ok(d) ==> destination_spec(source@, folder@) == Some(d@),
        r is Err ==> destination_spec(source@, folder@) is None
            && r == Err::<String, ActionError>(ActionError::NoFileName),
{
    match path_file_name(source) {
        Some(name) => Ok(path_join(folder, &name)),
        None => Err(ActionError::NoFileName),
    }
}

/// The steps that bring a file to a destination: a warning where a file
/// already stands there, then the folder where it is missing.
pub open spec fn preparation(destination_exists: bool, folder_exists: bool) -> Seq<FileOp> {
    (if destination_exists { seq![FileOp::WarnExisting] } else { Seq::empty() })
        + (if folder_exists { Seq::empty() } else { seq![FileOp::CreateFolder] })
}

/// The steps an action takes on one selected file, given whether the
/// destination file and its folder exist beforehand.
pub open spec fn plan_spec(action: Action, destination_exists: bool, folder_exists: bool) -> Seq<FileOp> {
    match action {
        Action::Move(_) => preparation(destination_exists, folder_exists).push(FileOp::Rename),
        Action::Copy(_) => preparation(destination_exists, folder_exists).push(FileOp::CopyFile),
        Action::Delete => seq![FileOp::Remove],
        Action::Keep => Seq::empty(),
    }
}

/// The file operations that `action` performs on one selected file, in
/// order. For a move or a copy, `destination_exists` tells whether a file
/// stands at the destination and `folder_exists` whether its folder does.
pub fn take_action(action: &Action, destination_exists: bool, folder_exists: bool) -> (r: Vec<FileOp>)
    ensures
        r@ == plan_spec(*action, destination_exists, folder_exists),
{
    let mut ops: Vec<FileOp> = Vec::new();
    match action {
        Action::Delete => {
            ops.push(FileOp::Remove);
            return ops;
        },
        Action::Keep => {
            return ops;
        },
        _ => {},
    }
    if destination_exists {
        ops.push(FileOp::WarnExisting);
    }
    if !folder_exists {
        ops.push(FileOp::CreateFolder);
    }
    match action {
        Action::Move(_) => ops.push(FileOp::Rename),
        _ => ops.push(FileOp::CopyFile),
    }
    ops
}

/// A copy into a missing folder creates the folder first and ends with the
/// copy, and no step of a copy renames or removes the source.
pub proof fn lemma_copy_plan(folder: String, destination_exists: bool, folder_exists: bool)
    ensures
        ({
            let p = plan_spec(Action::Copy(folder), destination_exists, folder_exists);
            &&& p.last() == FileOp::CopyFile
            &&& !p.contains(FileOp::Rename)
            &&& !p.contains(FileOp::Remove)
            &&& !folder_exists ==> p[p.len() - 2] == FileOp::CreateFolder
        }),
{
}

/// A move into a missing folder creates the folder first and ends with the
/// rename, and no step of a move copies the source or leaves it in place.
pub proof fn lemma_move_plan(folder: String, destination_exists: bool, folder_exists: bool)
    ensures
        ({
            let p = plan_spec(Action::Move(folder), destination_exists, folder_exists);
            &&& p.last() == FileOp::Rename
            &&& !p.contains(FileOp::CopyFile)
            &&& !folder_exists ==> p[p.len() - 2] == FileOp::CreateFolder
        }),
{
}

/// A delete takes one step, the removal of the source, whatever stands at
/// any destination.
pub proof fn lemma_delete_plan(destination_exists: bool, folder_exists: bool)
    ensures
        plan_spec(Action::Delete, destination_exists, folder_exists) == seq![FileOp::Remove],
{
}

} // verus!
