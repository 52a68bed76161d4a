//! Worktree update messages and their splitting into bounded chunks.
use vstd::prelude::*;
use crate::dap::clone_opt_string;
use crate::proto_conversions::clone_strings;

verus! {

/// The largest number of entries (and of statuses) that one chunk of a
/// worktree update carries.
pub const MAX_WORKTREE_UPDATE_MAX_CHUNK_SIZE: usize = 256;

/// A point in time, as seconds and nanoseconds since the Unix epoch.
#[derive(Clone, Copy, Debug, PartialEq, Eq)]
pub struct Timestamp {
    pub seconds: u64,
    pub nanos: u32,
}

/// A file or directory of a worktree.
#[derive(Debug, PartialEq)]
pub struct Entry {
    pub id: u64,
    pub is_dir: bool,
    pub path: String,
    pub inode: u64,
    pub mtime: Option<Timestamp>,
    pub is_ignored: bool,
    pub is_external: bool,
    pub is_fifo: bool,
    pub size: Option<u64>,
    pub canonical_path: Option<String>,
}

/// The git status of one path of a repository.
#[derive(Debug, PartialEq)]
pub struct StatusEntry {
    pub repo_path: String,
    pub simple_status: i32,
}

/// The branch a repository has checked out.
#[derive(Debug, PartialEq)]
pub struct Branch {
    pub is_head: bool,
    pub name: String,
    pub unix_timestamp: Option<u64>,
}

impl Clone for Branch {
    fn clone(&self) -> (r: Self)
        ensures
            r == *self,
    {
        Branch { is_head: self.is_head, name: self.name.clone(), unix_timestamp: self.unix_timestamp }
    }
}

/// What changed in one git repository of a worktree.
#[derive(Debug, PartialEq)]
pub struct RepositoryEntry {
    pub work_directory_id: u64,
    pub branch: Option<String>,
    pub branch_summary: Option<Branch>,
    pub updated_statuses: Vec<StatusEntry>,
    pub removed_statuses: Vec<String>,
    pub current_merge_conflicts: Vec<String>,
}

/// The abstract value of a repository entry.
pub struct RepoView {
    pub work_directory_id: u64,
    pub branch: Option<String>,
    pub branch_summary: Option<Branch>,
    pub updated_statuses: Seq<StatusEntry>,
    pub removed_statuses: Seq<String>,
    pub current_merge_conflicts: Seq<String>,
}

impl View for RepositoryEntry {
    type V = RepoView;

    open spec fn view(&self) -> RepoView {
        RepoView {
            work_directory_id: self.work_directory_id,
            branch: self.branch,
            branch_summary: self.branch_summary,
            updated_statuses: self.updated_statuses@,
            removed_statuses: self.removed_statuses@,
            current_merge_conflicts: self.current_merge_conflicts@,
        }
    }
}

/// An update of a worktree sent to collaborators.
#[derive(Debug, PartialEq)]
pub struct UpdateWorktree {
    pub project_id: u64,
    pub worktree_id: u64,
    pub root_name: String,
    pub abs_path: String,
    pub updated_entries: Vec<Entry>,
    pub removed_entries: Vec<u64>,
    pub scan_id: u64,
    pub is_last_update: bool,
    pub updated_repositories: Vec<RepositoryEntry>,
    pub removed_repositories: Vec<u64>,
}

/// The abstract value of a worktree update.
pub struct UpdateView {
    pub project_id: u64,
    pub worktree_id: u64,
    pub root_name: String,
    pub abs_path: String,
    pub updated_entries: Seq<Entry>,
    pub removed_entries: Seq<u64>,
    pub scan_id: u64,
    pub is_last_update: bool,
    pub updated_repositories: Seq<RepoView>,
    pub removed_repositories: Seq<u64>,
}

/// The abstract values of a sequence of repository entries.
pub open spec fn repo_views(s: Seq<RepositoryEntry>) -> Seq<RepoView> {
    s.map_values(|r: RepositoryEntry| r@)
}

impl View for UpdateWorktree {
    type V = UpdateView;

    open spec fn view(&self) -> UpdateView {
        UpdateView {
            project_id: self.project_id,
            worktree_id: self.worktree_id,
            root_name: self.root_name,
            abs_path: self.abs_path,
            updated_entries: self.updated_entries@,
            removed_entries: self.removed_entries@,
            scan_id: self.scan_id,
            is_last_update: self.is_last_update,
            updated_repositories: repo_views(self.updated_repositories@),
            removed_repositories: self.removed_repositories@,
        }
    }
}

/// The abstract values of a sequence of worktree updates.
pub open spec fn update_views(s: Seq<UpdateWorktree>) -> Seq<UpdateView> {
    s.map_values(|u: UpdateWorktree| u@)
}

/// The smaller of two naturals.
pub open spec fn min_nat(a: nat, b: nat) -> nat {
    if a <= b {
        a
    } else {
        b
    }
}

/// How many updated statuses of `repo` fit under `limit`.
pub open spec fn updated_taken(repo: RepoView, limit: nat) -> nat {
    min_nat(repo.updated_statuses.len(), limit)
}

/// How many removed statuses of `repo` fit under `limit`.
pub open spec fn removed_taken(repo: RepoView, limit: nat) -> nat {
    min_nat(repo.removed_statuses.len(), limit)
}

/// The part of `repo` that goes into the current chunk: its first statuses,
/// with the rest of the repository as it is.
pub open spec fn repo_piece(repo: RepoView, limit: nat) -> RepoView {
    RepoView {
        updated_statuses: repo.updated_statuses.take(updated_taken(repo, limit) as int),
        removed_statuses: repo.removed_statuses.take(removed_taken(repo, limit) as int),
        ..repo
    }
}

/// What stays of `repo` for later chunks.
pub open spec fn repo_left(repo: RepoView, limit: nat) -> RepoView {
    RepoView {
        updated_statuses: repo.updated_statuses.skip(updated_taken(repo, limit) as int),
        removed_statuses: repo.removed_statuses.skip(removed_taken(repo, limit) as int),
        ..repo
    }
}

/// Whether a repository has no statuses left.
pub open spec fn repo_exhausted(repo: RepoView) -> bool {
    repo.updated_statuses.len() == 0 && repo.removed_statuses.len() == 0
}

/// The status budget left after taking a piece of `repo`.
pub open spec fn limit_after(repo: RepoView, limit: nat) -> nat {
    let used = updated_taken(repo, limit) + removed_taken(repo, limit);
    if used >= limit {
        0
    } else {
        (limit - used) as nat
    }
}

/// The repositories that go into one chunk under a status budget, and the
/// repositories left for the chunks after it.
pub open spec fn take_repos(repos: Seq<RepoView>, limit: nat) -> (Seq<RepoView>, Seq<RepoView>)
    decreases repos.len(),
{
    if repos.len() == 0 || limit == 0 {
        (Seq::empty(), repos)
    } else {
        let repo = repos[0];
        let piece = repo_piece(repo, limit);
        let left = repo_left(repo, limit);
        if !repo_exhausted(left) {
            (seq![piece], repos.update(0, left))
        } else if limit_after(repo, limit) == 0 {
            (seq![piece], repos.skip(1))
        } else {
            let (more, rest) = take_repos(repos.skip(1), limit_after(repo, limit));
            (seq![piece] + more, rest)
        }
    }
}

/// Whether the chunk taken from `m` is the last one.
pub open spec fn chunk_done(m: UpdateView, max: nat) -> bool {
    &&& m.updated_entries.len() <= max
    &&& m.removed_entries.len() <= max
    &&& take_repos(m.updated_repositories, max).1.len() == 0
}

/// The next chunk of `m`.
pub open spec fn next_chunk(m: UpdateView, max: nat) -> UpdateView {
    let done = chunk_done(m, max);
    UpdateView {
        project_id: m.project_id,
        worktree_id: m.worktree_id,
        root_name: m.root_name,
        abs_path: m.abs_path,
        updated_entries: m.updated_entries.take(min_nat(m.updated_entries.len(), max) as int),
        removed_entries: m.removed_entries.take(min_nat(m.removed_entries.len(), max) as int),
        scan_id: m.scan_id,
        is_last_update: done && m.is_last_update,
        updated_repositories: take_repos(m.updated_repositories, max).0,
        removed_repositories: if done {
            m.removed_repositories
        } else {
            Seq::empty()
        },
    }
}

/// What is left of `m` once its next chunk is taken.
pub open spec fn remaining_after(m: UpdateView, max: nat) -> UpdateView {
    UpdateView {
        updated_entries: m.updated_entries.skip(min_nat(m.updated_entries.len(), max) as int),
        removed_entries: m.removed_entries.skip(min_nat(m.removed_entries.len(), max) as int),
        updated_repositories: take_repos(m.updated_repositories, max).1,
        ..m
    }
}

/// The number of repositories and statuses in a sequence of repositories.
pub open spec fn repos_weight(s: Seq<RepoView>) -> nat
    decreases s.len(),
{
    if s.len() == 0 {
        0
    } else {
        1 + s[0].updated_statuses.len() + s[0].removed_statuses.len() + repos_weight(s.skip(1))
    }
}

/// How much of an update is still to be sent.
pub open spec fn pending(m: UpdateView) -> nat {
    m.updated_entries.len() + m.removed_entries.len() + repos_weight(m.updated_repositories)
}

/// Taking repositories never leaves more behind than there was, and leaves
/// strictly less when there was any.
pub proof fn lemma_take_repos_weight(repos: Seq<RepoView>, limit: nat)
    requires
        limit > 0,
    ensures
        repos_weight(take_repos(repos, limit).1) <= repos_weight(repos),
        repos.len() > 0 ==> repos_weight(take_repos(repos, limit).1) < repos_weight(repos),
    decreases repos.len(),
{
    if repos.len() > 0 {
        let repo = repos[0];
        let left = repo_left(repo, limit);
        if !repo_exhausted(left) {
            let r2 = repos.update(0, left);
            assert(r2.skip(1) =~= repos.skip(1));
            assert(repos_weight(r2) == 1 + left.updated_statuses.len() + left.removed_statuses.len()
                + repos_weight(repos.skip(1)));
        } else if limit_after(repo, limit) > 0 {
            lemma_take_repos_weight(repos.skip(1), limit_after(repo, limit));
        }
    }
}

/// Every chunk but the last leaves strictly less to send.
pub proof fn lemma_chunk_progress(m: UpdateView, max: nat)
    requires
        max > 0,
        !chunk_done(m, max),
    ensures
        pending(remaining_after(m, max)) < pending(m),
{
    lemma_take_repos_weight(m.updated_repositories, max);
    if m.updated_repositories.len() == 0 {
        assert(take_repos(m.updated_repositories, max).1 == m.updated_repositories);
    }
}

/// The chunks into which an update is split, each with at most `max`
/// entries, in order.
pub open spec fn worktree_chunks(m: UpdateView, max: nat) -> Seq<UpdateView>
    decreases pending(m),
    when max > 0
{
    if chunk_done(m, max) {
        seq![next_chunk(m, max)]
    } else {
        proof {
            lemma_chunk_progress(m, max);
        }
        seq![next_chunk(m, max)] + worktree_chunks(remaining_after(m, max), max)
    }
}


/// Moves the first `n` items of `v` out, in order.
fn take_prefix<T>(v: &mut Vec<T>, n: usize) -> (taken: Vec<T>)
    requires
        n <= old(v).len(),
    ensures
        taken@ == old(v)@.take(n as int),
        final(v)@ == old(v)@.skip(n as int),
{
    let mut rest = v.split_off(n);
    std::mem::swap(v, &mut rest);
    rest
}

fn clone_branch(b: &Option<Branch>) -> (r: Option<Branch>)
    ensures
        r == *b,
{
    match b {
        Some(b) => Some(b.clone()),
        None => None,
    }
}

/// Takes from the front of `repos` the repositories of one chunk, with at
/// most `limit` updated and at most `limit` removed statuses in all.
fn take_repos_exec(repos: &mut Vec<RepositoryEntry>, limit: usize) -> (taken: Vec<RepositoryEntry>)
    requires
        limit > 0,
    ensures
        repo_views(taken@) == take_repos(repo_views(old(repos)@), limit as nat).0,
        repo_views(final(repos)@) == take_repos(repo_views(old(repos)@), limit as nat).1,
{
    let ghost whole = take_repos(repo_views(repos@), limit as nat);
    let mut taken: Vec<RepositoryEntry> = Vec::new();
    let mut limit = limit;
    loop
        invariant_except_break
            limit > 0,
            repo_views(taken@) + take_repos(repo_views(repos@), limit as nat).0 == whole.0,
            take_repos(repo_views(repos@), limit as nat).1 == whole.1,
        ensures
            repo_views(taken@) == whole.0,
            repo_views(repos@) == whole.1,
        decreases repos.len(),
    {
        if repos.len() == 0 {
            assert(repo_views(taken@) + Seq::<RepoView>::empty() =~= repo_views(taken@));
            break;
        }
        let ghost before = repo_views(repos@);
        let ghost old_taken = repo_views(taken@);
        let ghost lim = limit as nat;
        let mut repo = repos.remove(0);
        assert(repo@ == before[0]);
        let u: usize = if repo.updated_statuses.len() < limit {
            repo.updated_statuses.len()
        } else {
            limit
        };
        let r: usize = if repo.removed_statuses.len() < limit {
            repo.removed_statuses.len()
        } else {
            limit
        };
        let updated = take_prefix(&mut repo.updated_statuses, u);
        let removed = take_prefix(&mut repo.removed_statuses, r);
        let piece = RepositoryEntry {
            work_directory_id: repo.work_directory_id,
            branch: clone_opt_string(&repo.branch),
            branch_summary: clone_branch(&repo.branch_summary),
            updated_statuses: updated,
            removed_statuses: removed,
            current_merge_conflicts: clone_strings(&repo.current_merge_conflicts),
        };
        assert(piece@ == repo_piece(before[0], lim));
        assert(repo@ == repo_left(before[0], lim));
        taken.push(piece);
        assert(repo_views(taken@) =~= old_taken.push(repo_piece(before[0], lim)));
        let exhausted = repo.updated_statuses.len() == 0 && repo.removed_statuses.len() == 0;
        let next: usize = (limit - u).saturating_sub(r);
        assert(next == limit_after(before[0], lim));
        if !exhausted {
            repos.insert(0, repo);
            assert(repo_views(repos@) =~= before.update(0, repo_left(before[0], lim)));
            assert(repo_views(taken@) =~= whole.0);
            break;
        }
        assert(repo_views(repos@) =~= before.skip(1));
        limit = next;
        if limit == 0 {
            assert(repo_views(taken@) =~= whole.0);
            break;
        }
        assert(repo_views(taken@) + take_repos(repo_views(repos@), limit as nat).0 =~= whole.0);
    }
    taken
}


/// Takes the next chunk from `message`, and says whether it was the last.
fn next_worktree_chunk(message: &mut UpdateWorktree, max: usize) -> (res: (UpdateWorktree, bool))
    requires
        max > 0,
    ensures
        res.0@ == next_chunk(old(message)@, max as nat),
        res.1 == chunk_done(old(message)@, max as nat),
        !res.1 ==> final(message)@ == remaining_after(old(message)@, max as nat),
{
    let ghost m = message@;
    let updated_n: usize = if message.updated_entries.len() < max {
        message.updated_entries.len()
    } else {
        max
    };
    let updated_entries = take_prefix(&mut message.updated_entries, updated_n);
    let removed_n: usize = if message.removed_entries.len() < max {
        message.removed_entries.len()
    } else {
        max
    };
    let removed_entries = take_prefix(&mut message.removed_entries, removed_n);
    let updated_repositories = take_repos_exec(&mut message.updated_repositories, max);
    let done = message.updated_entries.len() == 0 && message.removed_entries.len() == 0
        && message.updated_repositories.len() == 0;
    let mut removed_repositories: Vec<u64> = Vec::new();
    if done {
        std::mem::swap(&mut removed_repositories, &mut message.removed_repositories);
    }
    let chunk = UpdateWorktree {
        project_id: message.project_id,
        worktree_id: message.worktree_id,
        root_name: message.root_name.clone(),
        abs_path: message.abs_path.clone(),
        updated_entries,
        removed_entries,
        scan_id: message.scan_id,
        is_last_update: done && message.is_last_update,
        updated_repositories,
        removed_repositories,
    };
    assert(chunk@ == next_chunk(m, max as nat));
    proof {
        if !done {
            assert(message@ == remaining_after(m, max as nat));
        }
    }
    (chunk, done)
}

/// Splits a worktree update into chunks of at most `max` entries, at most
/// `max` removed entries and at most `max` updated and `max` removed
/// statuses each, in order; the last chunk carries the removed repositories
/// and whether the update is the last one.
pub fn split_worktree_update_with_chunk_size(message: UpdateWorktree, max: usize) -> (chunks: Vec<
    UpdateWorktree,
>)
    requires
        max > 0,
    ensures
        update_views(chunks@) == worktree_chunks(message@, max as nat),
{
    let ghost whole = worktree_chunks(message@, max as nat);
    let mut message = message;
    let mut chunks: Vec<UpdateWorktree> = Vec::new();
    assert(update_views(chunks@) + worktree_chunks(message@, max as nat) =~= whole);
    loop
        invariant_except_break
            max > 0,
            update_views(chunks@) + worktree_chunks(message@, max as nat) == whole,
        ensures
            update_views(chunks@) == whole,
        decreases pending(message@),
    {
        let ghost before = message@;
        let ghost old_views = update_views(chunks@);
        let (chunk, done) = next_worktree_chunk(&mut message, max);
        chunks.push(chunk);
        assert(update_views(chunks@) =~= old_views.push(next_chunk(before, max as nat)));
        if done {
            assert(update_views(chunks@) =~= whole);
            break;
        }
        proof {
            lemma_chunk_progress(before, max as nat);
        }
        assert(update_views(chunks@) + worktree_chunks(message@, max as nat) =~= whole);
    }
    chunks
}

/// Splits a worktree update into chunks of at most
/// `MAX_WORKTREE_UPDATE_MAX_CHUNK_SIZE` entries each.
pub fn split_worktree_update(message: UpdateWorktree) -> (chunks: Vec<UpdateWorktree>)
    ensures
        update_views(chunks@) == worktree_chunks(message@, MAX_WORKTREE_UPDATE_MAX_CHUNK_SIZE as nat),
{
    split_worktree_update_with_chunk_size(message, MAX_WORKTREE_UPDATE_MAX_CHUNK_SIZE)
}


/// The updated entries of a sequence of chunks, one chunk after the other.
pub open spec fn concat_updated_entries(chunks: Seq<UpdateView>) -> Seq<Entry>
    decreases chunks.len(),
{
    if chunks.len() == 0 {
        Seq::empty()
    } else {
        chunks[0].updated_entries + concat_updated_entries(chunks.skip(1))
    }
}

/// The removed entries of a sequence of chunks, one chunk after the other.
pub open spec fn concat_removed_entries(chunks: Seq<UpdateView>) -> Seq<u64>
    decreases chunks.len(),
{
    if chunks.len() == 0 {
        Seq::empty()
    } else {
        chunks[0].removed_entries + concat_removed_entries(chunks.skip(1))
    }
}

/// The updated statuses of a sequence of repositories, one after the other.
pub open spec fn repos_updated_statuses(repos: Seq<RepoView>) -> Seq<StatusEntry>
    decreases repos.len(),
{
    if repos.len() == 0 {
        Seq::empty()
    } else {
        repos[0].updated_statuses + repos_updated_statuses(repos.skip(1))
    }
}

/// The removed statuses of a sequence of repositories, one after the other.
pub open spec fn repos_removed_statuses(repos: Seq<RepoView>) -> Seq<String>
    decreases repos.len(),
{
    if repos.len() == 0 {
        Seq::empty()
    } else {
        repos[0].removed_statuses + repos_removed_statuses(repos.skip(1))
    }
}

/// The updated statuses of a sequence of chunks, one chunk after the other.
pub open spec fn concat_updated_statuses(chunks: Seq<UpdateView>) -> Seq<StatusEntry>
    decreases chunks.len(),
{
    if chunks.len() == 0 {
        Seq::empty()
    } else {
        repos_updated_statuses(chunks[0].updated_repositories) + concat_updated_statuses(
            chunks.skip(1),
        )
    }
}

/// The removed statuses of a sequence of chunks, one chunk after the other.
pub open spec fn concat_removed_statuses(chunks: Seq<UpdateView>) -> Seq<String>
    decreases chunks.len(),
{
    if chunks.len() == 0 {
        Seq::empty()
    } else {
        repos_removed_statuses(chunks[0].updated_repositories) + concat_removed_statuses(
            chunks.skip(1),
        )
    }
}

proof fn lemma_single_repo(r: RepoView)
    ensures
        repos_updated_statuses(seq![r]) == r.updated_statuses,
        repos_removed_statuses(seq![r]) == r.removed_statuses,
{
    assert(seq![r].skip(1) =~= Seq::<RepoView>::empty());
    assert(repos_updated_statuses(seq![r]) =~= r.updated_statuses + repos_updated_statuses(
        Seq::<RepoView>::empty(),
    ));
    assert(repos_removed_statuses(seq![r]) =~= r.removed_statuses + repos_removed_statuses(
        Seq::<RepoView>::empty(),
    ));
}

proof fn lemma_single_chunk(c: UpdateView)
    ensures
        concat_updated_entries(seq![c]) == c.updated_entries,
        concat_removed_entries(seq![c]) == c.removed_entries,
        concat_updated_statuses(seq![c]) == repos_updated_statuses(c.updated_repositories),
        concat_removed_statuses(seq![c]) == repos_removed_statuses(c.updated_repositories),
{
    let e = Seq::<UpdateView>::empty();
    assert(seq![c].skip(1) =~= e);
    assert(concat_updated_entries(seq![c]) =~= c.updated_entries + concat_updated_entries(e));
    assert(concat_removed_entries(seq![c]) =~= c.removed_entries + concat_removed_entries(e));
    assert(concat_updated_statuses(seq![c]) =~= repos_updated_statuses(c.updated_repositories)
        + concat_updated_statuses(e));
    assert(concat_removed_statuses(seq![c]) =~= repos_removed_statuses(c.updated_repositories)
        + concat_removed_statuses(e));
}

/// Taking the repositories of one chunk splits their statuses in two: those
/// of the chunk, then those left, in order; and the chunk holds at most
/// `limit` updated and at most `limit` removed statuses.
pub proof fn lemma_take_repos_statuses(repos: Seq<RepoView>, limit: nat)
    requires
        limit > 0,
    ensures
        repos_updated_statuses(take_repos(repos, limit).0) + repos_updated_statuses(
            take_repos(repos, limit).1,
        ) == repos_updated_statuses(repos),
        repos_removed_statuses(take_repos(repos, limit).0) + repos_removed_statuses(
            take_repos(repos, limit).1,
        ) == repos_removed_statuses(repos),
        repos_updated_statuses(take_repos(repos, limit).0).len() <= limit,
        repos_removed_statuses(take_repos(repos, limit).0).len() <= limit,
    decreases repos.len(),
{
    let (taken, rest) = take_repos(repos, limit);
    if repos.len() == 0 {
        assert(repos_updated_statuses(taken) + repos_updated_statuses(rest) =~= repos_updated_statuses(
            repos,
        ));
        assert(repos_removed_statuses(taken) + repos_removed_statuses(rest) =~= repos_removed_statuses(
            repos,
        ));
    } else {
        let repo = repos[0];
        let piece = repo_piece(repo, limit);
        let left = repo_left(repo, limit);
        assert(seq![piece].skip(1) =~= Seq::<RepoView>::empty());
        lemma_single_repo(piece);
        assert(repo.updated_statuses =~= piece.updated_statuses + left.updated_statuses);
        assert(repo.removed_statuses =~= piece.removed_statuses + left.removed_statuses);
        if !repo_exhausted(left) {
            let r2 = repos.update(0, left);
            assert(r2.skip(1) =~= repos.skip(1));
            assert(repos_updated_statuses(taken) + repos_updated_statuses(rest) =~= repos_updated_statuses(
                repos,
            ));
            assert(repos_removed_statuses(taken) + repos_removed_statuses(rest) =~= repos_removed_statuses(
                repos,
            ));
        } else if limit_after(repo, limit) == 0 {
            assert(repos_updated_statuses(taken) + repos_updated_statuses(rest) =~= repos_updated_statuses(
                repos,
            ));
            assert(repos_removed_statuses(taken) + repos_removed_statuses(rest) =~= repos_removed_statuses(
                repos,
            ));
        } else {
            let next = limit_after(repo, limit);
            let (more, rest2) = take_repos(repos.skip(1), next);
            lemma_take_repos_statuses(repos.skip(1), next);
            assert((seq![piece] + more)[0] == piece);
            assert((seq![piece] + more).skip(1) =~= more);
            assert(repos_updated_statuses(taken) + repos_updated_statuses(rest) =~= repos_updated_statuses(
                repos,
            ));
            assert(repos_removed_statuses(taken) + repos_removed_statuses(rest) =~= repos_removed_statuses(
                repos,
            ));
        }
    }
}

/// Unfolds the chunks of an update that is not done in one chunk.
proof fn lemma_chunks_unfold(m: UpdateView, max: nat)
    requires
        max > 0,
        !chunk_done(m, max),
    ensures
        worktree_chunks(m, max).len() == 1 + worktree_chunks(remaining_after(m, max), max).len(),
        worktree_chunks(m, max)[0] == next_chunk(m, max),
        worktree_chunks(m, max).skip(1) == worktree_chunks(remaining_after(m, max), max),
        forall|i: int|
            1 <= i < worktree_chunks(m, max).len() ==> #[trigger] worktree_chunks(m, max)[i]
                == worktree_chunks(remaining_after(m, max), max)[i - 1],
{
    assert(worktree_chunks(m, max).skip(1) =~= worktree_chunks(remaining_after(m, max), max));
}

/// Splitting an update loses, adds and reorders nothing: the chunks'
/// updated entries, removed entries, updated statuses and removed statuses,
/// one chunk after the other, are those of the update.
pub proof fn lemma_split_keeps_contents(m: UpdateView, max: nat)
    requires
        max > 0,
    ensures
        concat_updated_entries(worktree_chunks(m, max)) == m.updated_entries,
        concat_removed_entries(worktree_chunks(m, max)) == m.removed_entries,
        concat_updated_statuses(worktree_chunks(m, max)) == repos_updated_statuses(
            m.updated_repositories,
        ),
        concat_removed_statuses(worktree_chunks(m, max)) == repos_removed_statuses(
            m.updated_repositories,
        ),
    decreases pending(m),
{
    let chunks = worktree_chunks(m, max);
    let c = next_chunk(m, max);
    lemma_take_repos_statuses(m.updated_repositories, max);
    if chunk_done(m, max) {
        lemma_single_chunk(c);
        assert(concat_updated_entries(chunks) =~= m.updated_entries);
        assert(concat_removed_entries(chunks) =~= m.removed_entries);
        assert(repos_updated_statuses(take_repos(m.updated_repositories, max).1) =~= Seq::empty());
        assert(repos_removed_statuses(take_repos(m.updated_repositories, max).1) =~= Seq::empty());
        assert(concat_updated_statuses(chunks) =~= repos_updated_statuses(m.updated_repositories));
        assert(concat_removed_statuses(chunks) =~= repos_removed_statuses(m.updated_repositories));
    } else {
        lemma_chunk_progress(m, max);
        let rest = remaining_after(m, max);
        lemma_split_keeps_contents(rest, max);
        lemma_chunks_unfold(m, max);
        assert(concat_updated_entries(chunks) =~= m.updated_entries);
        assert(concat_removed_entries(chunks) =~= m.removed_entries);
        assert(concat_updated_statuses(chunks) =~= repos_updated_statuses(m.updated_repositories));
        assert(concat_removed_statuses(chunks) =~= repos_removed_statuses(m.updated_repositories));
    }
}

/// Every chunk keeps the update's project, worktree, root name, path and
/// scan id, and holds at most `max` updated entries, `max` removed entries,
/// `max` updated statuses and `max` removed statuses. Only the last chunk
/// carries the removed repositories and the update's last-update flag.
pub proof fn lemma_split_chunk_shape(m: UpdateView, max: nat)
    requires
        max > 0,
    ensures
        worktree_chunks(m, max).len() >= 1,
        forall|i: int|
            0 <= i < worktree_chunks(m, max).len() ==> {
                let c = #[trigger] worktree_chunks(m, max)[i];
                &&& c.project_id == m.project_id
                &&& c.worktree_id == m.worktree_id
                &&& c.root_name == m.root_name
                &&& c.abs_path == m.abs_path
                &&& c.scan_id == m.scan_id
                &&& c.updated_entries.len() <= max
                &&& c.removed_entries.len() <= max
                &&& repos_updated_statuses(c.updated_repositories).len() <= max
                &&& repos_removed_statuses(c.updated_repositories).len() <= max
                &&& (i < worktree_chunks(m, max).len() - 1 ==> !c.is_last_update
                    && c.removed_repositories.len() == 0)
            },
        worktree_chunks(m, max).last().is_last_update == m.is_last_update,
        worktree_chunks(m, max).last().removed_repositories == m.removed_repositories,
    decreases pending(m),
{
    let chunks = worktree_chunks(m, max);
    lemma_take_repos_statuses(m.updated_repositories, max);
    if !chunk_done(m, max) {
        lemma_chunk_progress(m, max);
        let rest = remaining_after(m, max);
        lemma_split_chunk_shape(rest, max);
        lemma_chunks_unfold(m, max);
        assert(chunks.last() == worktree_chunks(rest, max).last());
    }
}


} // verus!
