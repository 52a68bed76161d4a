use debugger::path_proto::{FromProto, ToProto};
use debugger::ids::DebugSessionId;
use debugger::peer::{Nonce, PeerId};
use std::path::PathBuf;
use debugger::worktree_update::{
    split_worktree_update, split_worktree_update_with_chunk_size, Entry, RepositoryEntry,
    StatusEntry, UpdateWorktree,
};

#[test]
fn test_converting_peer_id_from_and_to_u64() {
    let peer_id = PeerId {
        owner_id: 10,
        id: 3,
    };
    assert_eq!(PeerId::from_u64(peer_id.as_u64()), peer_id);
    let peer_id = PeerId {
        owner_id: u32::MAX,
        id: 3,
    };
    assert_eq!(PeerId::from_u64(peer_id.as_u64()), peer_id);
    let peer_id = PeerId {
        owner_id: 10,
        id: u32::MAX,
    };
    assert_eq!(PeerId::from_u64(peer_id.as_u64()), peer_id);
    let peer_id = PeerId {
        owner_id: u32::MAX,
        id: u32::MAX,
    };
    assert_eq!(PeerId::from_u64(peer_id.as_u64()), peer_id);
}

#[test]
fn test_proto() {
    fn generate_proto_path(path: PathBuf) -> PathBuf {
        let proto = path.to_proto();
        PathBuf::from_proto(proto)
    }

    let path = PathBuf::from("C:\\foo\\bar");
    assert_eq!(path, generate_proto_path(path.clone()));

    let path = PathBuf::from("C:/foo/bar/");
    assert_eq!(path, generate_proto_path(path.clone()));

    let path = PathBuf::from("C:/foo\\bar\\");
    assert_eq!(path, generate_proto_path(path.clone()));
}

#[test]
fn peer_id_packs_owner_in_high_half() {
    let peer_id = PeerId { owner_id: 1, id: 2 };
    assert_eq!(peer_id.as_u64(), (1u64 << 32) | 2);
    assert_eq!(PeerId::from_u64(0x0000_0005_0000_0007), PeerId { owner_id: 5, id: 7 });
}

#[test]
fn nonce_round_trips_through_u128() {
    let n: u128 = (7u128 << 64) | 9;
    let nonce = Nonce::from_u128(n);
    assert_eq!(nonce.upper_half, 7);
    assert_eq!(nonce.lower_half, 9);
    assert_eq!(nonce.to_u128(), n);
}

fn entry(id: u64) -> Entry {
    Entry {
        id,
        is_dir: false,
        path: format!("file{}", id),
        inode: id,
        mtime: None,
        is_ignored: false,
        is_external: false,
        is_fifo: false,
        size: None,
        canonical_path: None,
    }
}

fn status(path: &str) -> StatusEntry {
    StatusEntry {
        repo_path: path.to_string(),
        simple_status: 1,
    }
}

fn update(entries: u64, removed: u64, repos: Vec<RepositoryEntry>) -> UpdateWorktree {
    UpdateWorktree {
        project_id: 1,
        worktree_id: 2,
        root_name: "root".to_string(),
        abs_path: "/root".to_string(),
        updated_entries: (0..entries).map(entry).collect(),
        removed_entries: (100..100 + removed).collect(),
        scan_id: 7,
        is_last_update: true,
        updated_repositories: repos,
        removed_repositories: vec![42],
    }
}

#[test]
fn split_worktree_update_in_chunks_of_two() {
    let chunks = split_worktree_update_with_chunk_size(update(5, 3, vec![]), 2);
    assert_eq!(chunks.len(), 3);
    assert_eq!(
        chunks.iter().map(|c| c.updated_entries.len()).collect::<Vec<_>>(),
        vec![2, 2, 1]
    );
    assert_eq!(
        chunks.iter().map(|c| c.removed_entries.len()).collect::<Vec<_>>(),
        vec![2, 1, 0]
    );
    let ids: Vec<u64> = chunks
        .iter()
        .flat_map(|c| c.updated_entries.iter().map(|e| e.id))
        .collect();
    assert_eq!(ids, vec![0, 1, 2, 3, 4]);
    assert!(!chunks[0].is_last_update);
    assert!(!chunks[1].is_last_update);
    assert!(chunks[2].is_last_update);
    assert!(chunks[0].removed_repositories.is_empty());
    assert!(chunks[1].removed_repositories.is_empty());
    assert_eq!(chunks[2].removed_repositories, vec![42]);
    for c in &chunks {
        assert_eq!(c.scan_id, 7);
        assert_eq!(c.root_name, "root");
    }
}

#[test]
fn split_worktree_update_of_empty_update_is_one_chunk() {
    let chunks = split_worktree_update(update(0, 0, vec![]));
    assert_eq!(chunks.len(), 1);
    assert!(chunks[0].is_last_update);
    assert_eq!(chunks[0].removed_repositories, vec![42]);
}

#[test]
fn split_worktree_update_spreads_repository_statuses() {
    let repo = RepositoryEntry {
        work_directory_id: 9,
        branch: Some("main".to_string()),
        branch_summary: None,
        updated_statuses: vec![status("a"), status("b"), status("c")],
        removed_statuses: vec!["x".to_string()],
        current_merge_conflicts: vec!["m".to_string()],
    };
    let chunks = split_worktree_update_with_chunk_size(update(0, 0, vec![repo]), 2);
    assert_eq!(chunks.len(), 2);
    assert_eq!(chunks[0].updated_repositories.len(), 1);
    assert_eq!(chunks[0].updated_repositories[0].updated_statuses.len(), 2);
    assert_eq!(chunks[0].updated_repositories[0].removed_statuses.len(), 1);
    assert_eq!(chunks[1].updated_repositories[0].updated_statuses.len(), 1);
    assert_eq!(
        chunks[1].updated_repositories[0].updated_statuses[0].repo_path,
        "c"
    );
    assert_eq!(chunks[1].updated_repositories[0].branch, Some("main".to_string()));
    assert_eq!(
        chunks[1].updated_repositories[0].current_merge_conflicts,
        vec!["m".to_string()]
    );
}

#[test]
fn split_worktree_update_default_chunk_size() {
    let chunks = split_worktree_update(update(300, 0, vec![]));
    assert_eq!(chunks.len(), 2);
    assert_eq!(chunks[0].updated_entries.len(), 256);
    assert_eq!(chunks[1].updated_entries.len(), 44);
}

#[test]
fn packed_peer_ids_keep_the_peer_order() {
    let peers = [
        PeerId { owner_id: 0, id: 5 },
        PeerId { owner_id: 1, id: 0 },
        PeerId { owner_id: 1, id: 7 },
        PeerId { owner_id: 2, id: u32::MAX },
    ];
    for p in peers.iter() {
        for q in peers.iter() {
            assert_eq!(p.cmp(q), p.as_u64().cmp(&q.as_u64()));
            assert_eq!(p.partial_cmp(q), Some(p.as_u64().cmp(&q.as_u64())));
        }
    }
}

#[test]
fn session_ids_order_as_their_wire_numbers() {
    let a = DebugSessionId(3);
    let b = DebugSessionId(10);
    assert_eq!(a.cmp(&b), a.to_proto().cmp(&b.to_proto()));
    assert_eq!(b.partial_cmp(&a), Some(b.to_proto().cmp(&a.to_proto())));
    assert_eq!(DebugSessionId::from_proto(42).to_proto(), 42);
}
