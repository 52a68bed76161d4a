use debugger::git_panel::{branches, BranchRow, DockPosition, GitPanel, GitPanelError};
use debugger::worktree_update::Branch;

fn branch(name: &str, is_head: bool) -> Branch {
    Branch { is_head, name: name.to_string(), unix_timestamp: None }
}

#[test]
fn branches_need_an_indexed_repository() {
    assert_eq!(branches(None), Err(GitPanelError::NotIndexed));
    assert_eq!(GitPanelError::NotIndexed.message(), "Repository was not indexed yet");
    assert_eq!(branches(Some(Err("bad repo".to_string()))), Err(GitPanelError::Git("bad repo".to_string())));
    assert_eq!(branches(Some(Ok(vec![branch("main", true)]))), Ok(vec![branch("main", true)]));
}

#[test]
fn branches_are_read_once_and_shown_as_rows() {
    let mut panel = GitPanel::load();
    assert!(panel.needs_branches());
    assert_eq!(panel.render_branch(0), None);
    panel.take_branches(Err(GitPanelError::NotIndexed));
    assert!(panel.needs_branches());
    panel.take_branches(Ok(vec![branch("main", true), branch("topic", false)]));
    assert!(!panel.needs_branches());
    panel.take_branches(Ok(vec![branch("other", false)]));
    assert_eq!(
        panel.render_branch(0),
        Some(BranchRow { element_id: "branch-main".to_string(), name: "main".to_string(), is_head: true })
    );
    assert_eq!(
        panel.render_branch(1),
        Some(BranchRow { element_id: "branch-topic".to_string(), name: "topic".to_string(), is_head: false })
    );
    assert_eq!(panel.render_branch(2), None);
    assert!(panel.position_is_valid(DockPosition::Left));
    assert!(!panel.position_is_valid(DockPosition::Right));
    assert!(!panel.position_is_valid(DockPosition::Bottom));
}
