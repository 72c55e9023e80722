//! The ways a workspace operation can be refused.

use vstd::prelude::*;

verus! {

/// Why a workspace operation was refused.
#[derive(Debug, PartialEq, Eq)]
pub enum StoreError {
    /// A space of this name already exists.
    SpaceExists { space: String },
    /// No space of this name exists.
    SpaceNotFound { space: String },
    /// The space still holds projects.
    SpaceNotEmpty { space: String },
    /// The space already holds a project of this name.
    ProjectExists { project: String, space: String },
    /// No project of this name exists in the space.
    ProjectNotFound { project: String, space: String },
    /// The project still has changes in progress.
    ProjectHasChanges { project: String, space: String },
    /// The project already has a change of this name.
    ChangeExists { change: String, project: String },
    /// No such change exists.
    ChangeNotFound { change: String, project: String, space: String },
    /// The project exists but holds no change of this name.
    ChangeNotInProject { change: String, project: String, space: String },
    /// No space was named and none is active.
    NoSpaceSelected,
    /// No shell integration exists for this shell.
    UnsupportedShell { shell: String },
    /// The filesystem or an external program failed.
    Io { message: String },
}

/// The text that explains refusal `e`.
pub open spec fn error_text(e: StoreError) -> Seq<char> {
    match e {
        StoreError::SpaceExists { space } => "space '"@ + space@ + "' already exists"@,
        StoreError::SpaceNotFound { space } => "space '"@ + space@ + "' not found"@,
        StoreError::SpaceNotEmpty { space } => "space '"@ + space@ + "' still has projects — delete them first"@,
        StoreError::ProjectExists { project, space } => "project '"@ + project@ + "' already exists in space '"@
            + space@ + "'"@,
        StoreError::ProjectNotFound { project, space } => "project '"@ + project@ + "' in space '"@ + space@
            + "' not found"@,
        StoreError::ProjectHasChanges { project, space } => "project '"@ + project@
            + "' has active changes — finish them first"@,
        StoreError::ChangeExists { change, project } => "change '"@ + change@ + "' already exists in project '"@
            + project@ + "'"@,
        StoreError::ChangeNotFound { change, project, space } => "change '"@ + change@ + "' not found"@,
        StoreError::ChangeNotInProject { change, project, space } => "change '"@ + change@
            + "' not found in project '"@ + space@ + "/"@ + project@ + "'"@,
        StoreError::NoSpaceSelected => "no space specified — use --space or set one with `spacer space use <name>`"@,
        StoreError::UnsupportedShell { shell } => "unsupported shell '"@ + shell@ + "' — supported: zsh, bash, sh"@,
        StoreError::Io { message } => message@,
    }
}

/// `a`, `b` and `c` one after the other.
fn concat3(a: &str, b: &str, c: &str) -> (r: String)
    ensures
        r@ == a@ + b@ + c@,
{
    let mut r = a.to_owned();
    r.append(b);
    r.append(c);
    r
}

/// `a` to `e` one after the other.
fn concat5(a: &str, b: &str, c: &str, d: &str, e: &str) -> (r: String)
    ensures
        r@ == a@ + b@ + c@ + d@ + e@,
{
    let mut r = concat3(a, b, c);
    r.append(d);
    r.append(e);
    r
}

impl StoreError {
    /// The text that explains this refusal.
    pub fn message(&self) -> (r: String)
        ensures
            r@ == error_text(*self),
    {
        match self {
            StoreError::SpaceExists { space } => concat3("space '", space.as_str(), "' already exists"),
            StoreError::SpaceNotFound { space } => concat3("space '", space.as_str(), "' not found"),
            StoreError::SpaceNotEmpty { space } => concat3(
                "space '",
                space.as_str(),
                "' still has projects — delete them first",
            ),
            StoreError::ProjectExists { project, space } => concat5(
                "project '",
                project.as_str(),
                "' already exists in space '",
                space.as_str(),
                "'",
            ),
            StoreError::ProjectNotFound { project, space } => concat5(
                "project '",
                project.as_str(),
                "' in space '",
                space.as_str(),
                "' not found",
            ),
            StoreError::ProjectHasChanges { project, space } => concat3(
                "project '",
                project.as_str(),
                "' has active changes — finish them first",
            ),
            StoreError::ChangeExists { change, project } => concat5(
                "change '",
                change.as_str(),
                "' already exists in project '",
                project.as_str(),
                "'",
            ),
            StoreError::ChangeNotFound { change, .. } => concat3("change '", change.as_str(), "' not found"),
            StoreError::ChangeNotInProject { change, project, space } => {
                let mut r = concat5("change '", change.as_str(), "' not found in project '", space.as_str(), "/");
                r.append(project.as_str());
                r.append("'");
                r
            },
            StoreError::NoSpaceSelected => "no space specified — use --space or set one with `spacer space use <name>`".to_owned(),
            StoreError::UnsupportedShell { shell } => concat3(
                "unsupported shell '",
                shell.as_str(),
                "' — supported: zsh, bash, sh",
            ),
            StoreError::Io { message } => message.clone(),
        }
    }
}

} // verus!
