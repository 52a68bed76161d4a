//! The git panel: the branches of the first repository of a workspace,
//! listed once the repository could be read, one row per branch.
use vstd::prelude::*;
use vstd::string::*;
use crate::worktree_update::Branch;

verus! {

/// Where a panel can be docked.
#[derive(Clone, Copy, Debug, PartialEq, Eq, Structural)]
pub enum DockPosition {
    Left,
    Bottom,
    Right,
}

/// Why the panel has no branches to show.
#[derive(Debug, PartialEq)]
pub enum GitPanelError {
    /// The workspace has no indexed repository yet.
    NotIndexed,
    /// The repository could not list its branches.
    Git(String),
}

impl GitPanelError {
    /// The message of the error.
    pub fn message(&self) -> (r: String)
        ensures
            match self {
                GitPanelError::NotIndexed => r@ == "Repository was not indexed yet"@,
                GitPanelError::Git(m) => r@ == m@,
            },
    {
        match self {
            GitPanelError::NotIndexed => String::from_str("Repository was not indexed yet"),
            GitPanelError::Git(m) => m.clone(),
        }
    }
}

/// The branches of the workspace's first repository: an error when there is
/// no indexed repository (`None`) or when it could not list them.
pub fn branches(first_repo_branches: Option<Result<Vec<Branch>, String>>) -> (r: Result<Vec<Branch>, GitPanelError>)
    ensures
        match first_repo_branches {
            None => r == Err::<Vec<Branch>, GitPanelError>(GitPanelError::NotIndexed),
            Some(Err(m)) => r == Err::<Vec<Branch>, GitPanelError>(GitPanelError::Git(m)),
            Some(Ok(b)) => r == Ok::<Vec<Branch>, GitPanelError>(b),
        },
{
    match first_repo_branches {
        None => Err(GitPanelError::NotIndexed),
        Some(Err(m)) => Err(GitPanelError::Git(m)),
        Some(Ok(b)) => Ok(b),
    }
}

/// What the panel shows of a branch.
#[derive(Debug, PartialEq)]
pub struct BranchRow {
    /// The id of the row's element: `branch-` and the branch's name.
    pub element_id: String,
    pub name: String,
    /// The checked out branch is drawn on the plain background, in the plain
    /// text color; the others are muted.
    pub is_head: bool,
}

/// The git panel.
pub struct GitPanel {
    branches: Option<Vec<Branch>>,
}

impl GitPanel {
    /// The branches the panel lists; none before they were read.
    pub closed spec fn listed(&self) -> Option<Seq<Branch>> {
        match self.branches {
            Some(b) => Some(b@),
            None => None,
        }
    }

    /// A panel whose branches were not read yet.
    pub fn load() -> (r: Self)
        ensures
            r.listed() is None,
    {
        GitPanel { branches: None }
    }

    /// Whether the branches still have to be read: they are read when the
    /// panel is shown, until once it succeeded.
    pub fn needs_branches(&self) -> (r: bool)
        ensures
            r == self.listed() is None,
    {
        self.branches.is_none()
    }

    /// Takes the branches read for the panel, when it had none; a failed
    /// read leaves it without, to be read again.
    pub fn take_branches(&mut self, read: Result<Vec<Branch>, GitPanelError>)
        ensures
            match (old(self).listed(), read) {
                (None, Ok(b)) => final(self).listed() == Some(b@),
                _ => final(self).listed() == old(self).listed(),
            },
    {
        if self.branches.is_none() {
            match read {
                Ok(b) => self.branches = Some(b),
                Err(_) => {},
            }
        }
    }

    /// The row of the branch at `ix`; none when the panel has no branches or
    /// fewer.
    pub fn render_branch(&self, ix: usize) -> (r: Option<BranchRow>)
        ensures
            match self.listed() {
                Some(b) => if ix < b.len() {
                    r matches Some(row) && row.name@ == b[ix as int].name@ && row.element_id@ == "branch-"@
                        + b[ix as int].name@ && row.is_head == b[ix as int].is_head
                } else {
                    r is None
                },
                None => r is None,
            },
    {
        match &self.branches {
            Some(b) => {
                if ix < b.len() {
                    let branch = &b[ix];
                    let mut element_id = String::from_str("branch-");
                    element_id.append(branch.name.as_str());
                    Some(BranchRow { element_id, name: branch.name.clone(), is_head: branch.is_head })
                } else {
                    None
                }
            },
            None => None,
        }
    }

    /// The panel docks on the left only.
    pub fn position_is_valid(&self, position: DockPosition) -> (r: bool)
        ensures
            r == (position == DockPosition::Left),
    {
        position == DockPosition::Left
    }
}

} // verus!
