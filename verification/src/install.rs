//! Downloading a debug adapter from its GitHub releases, as a sequence of
//! steps. The caller performs each step (a file-system check, a request, a
//! process) and hands back what came of it; the download decides the next
//! step, until it finishes.
use vstd::prelude::*;
use vstd::string::*;
use crate::adapters::{join, join_path, DebugAdapterDownloadKind, DebugAdapterName, GithubRepo};
use crate::panel_item::trimmed_end;

verus! {

/// Why a download failed.
#[derive(Clone, Debug, PartialEq)]
pub enum InstallError {
    /// A step failed, with what the caller reported.
    Io(String),
    /// The release archive could not be fetched.
    DownloadFailed(String),
    /// No directory named after the adapter came out of the archive.
    UnzippedDirectoryNotFound,
    /// Nothing could be downloaded and no adapter was installed before.
    InstallFailed,
    /// The adapter is not installed and there is no client to download it
    /// with.
    NoHttpClient,
    /// What a directory listing printed was not UTF-8 text.
    ListingNotText,
    /// The debugpy archive of the latest release was there already, so
    /// nothing was downloaded.
    DebugpyDownloadFailed,
}

impl InstallError {
    /// The message of the error.
    pub fn message(&self) -> (r: String)
        ensures
            match self {
                InstallError::Io(m) => r@ == m@,
                InstallError::DownloadFailed(_) => r@ == "Error downloading release"@,
                InstallError::UnzippedDirectoryNotFound => r@ == "Unzipped directory not found"@,
                InstallError::InstallFailed => r@ == "Install failed to download & counldn't preinstalled dap"@,
                InstallError::NoHttpClient => r@ == "Could not find debugpy in paths or connect to http"@,
                InstallError::ListingNotText => r@ == "The directory listing is not UTF-8 text"@,
                InstallError::DebugpyDownloadFailed => r@ == "Failed to download debugpy"@,
            },
    {
        match self {
            InstallError::Io(m) => m.clone(),
            InstallError::DownloadFailed(_) => String::from_str("Error downloading release"),
            InstallError::UnzippedDirectoryNotFound => String::from_str("Unzipped directory not found"),
            InstallError::InstallFailed => String::from_str("Install failed to download & counldn't preinstalled dap"),
            InstallError::NoHttpClient => String::from_str("Could not find debugpy in paths or connect to http"),
            InstallError::ListingNotText => String::from_str("The directory listing is not UTF-8 text"),
            InstallError::DebugpyDownloadFailed => String::from_str("Failed to download debugpy"),
        }
    }
}

/// A step for the caller to perform.
#[derive(Debug, PartialEq)]
pub enum DownloadAction {
    /// Is this path a directory? Answer with `Answer`.
    CheckIsDir(String),
    /// Is there a client to make requests with? Answer with `Answer`.
    CheckHttpClient,
    /// Does this path exist? Answer with `Answer`.
    CheckExists(String),
    /// Create this directory; answer with `Done` or `Failed`.
    CreateDir(String),
    /// Fetch the latest release of the repository `owner/name`; answer with
    /// `Release` or `Failed`.
    FetchLatestRelease(String),
    /// Can this file's metadata be read? Answer with `Answer`.
    CheckFile(String),
    /// Download `url` into the file `to`; answer with `Done` or `Failed`.
    Download { url: String, to: String },
    /// Unzip `zip` in `dir`; answer with `Done` or `Failed`.
    Unzip { dir: String, zip: String },
    /// Remove this file; answer with `Done` or `Failed`.
    RemoveFile(String),
    /// Find an entry of `dir` whose name contains `needle`; answer with
    /// `Found`.
    FindFileNameContaining { dir: String, needle: String },
    /// Rename `from` to `to`; answer with `Done` or `Failed`.
    Rename { from: String, to: String },
    /// The download is over.
    Finish(Result<(), InstallError>),
}

/// What came of a step.
#[derive(Clone, Debug, PartialEq)]
pub enum DownloadEvent {
    /// The answer to a question.
    Answer(bool),
    /// The step succeeded.
    Done,
    /// The latest release: its tag and the address of its archive.
    Release { tag_name: String, zipball_url: String },
    /// The entry found, if any.
    Found(Option<String>),
    /// The step failed, with a message.
    Failed(String),
}

/// Where a download stands: the step it waits on.
#[derive(Clone, Debug, PartialEq)]
pub enum DownloadState {
    CheckingDir,
    CheckingHttpClient,
    CheckingExists,
    CreatingDir,
    FetchingRelease,
    CheckingZip { tag_name: String, zipball_url: String },
    Downloading { tag_name: String },
    Unzipping { tag_name: String },
    RemovingZip { tag_name: String },
    Finding { tag_name: String },
    Renaming,
    Finished,
}

/// The download of one adapter's latest release into its directory under
/// `adapters_dir`.
#[derive(Clone, Debug)]
pub struct GithubDownload {
    pub adapter_name: String,
    pub repo: GithubRepo,
    pub adapters_dir: String,
    pub state: DownloadState,
}

/// The adapter's directory.
pub open spec fn adapter_dir(adapters_dir: Seq<char>, name: Seq<char>) -> Seq<char> {
    join_path(adapters_dir, name)
}

/// The name of an installed release: `<name>_<tag>`.
pub open spec fn release_dir_name(name: Seq<char>, tag: Seq<char>) -> Seq<char> {
    name + "_"@ + tag
}

/// The archive of a release: `<adapter dir>/<name>_<tag>.zip`.
pub open spec fn zip_path(adapters_dir: Seq<char>, name: Seq<char>, tag: Seq<char>) -> Seq<char> {
    join_path(adapter_dir(adapters_dir, name), release_dir_name(name, tag) + ".zip"@)
}

/// Where a release is installed: `<adapter dir>/<name>_<tag>`.
pub open spec fn install_path(adapters_dir: Seq<char>, name: Seq<char>, tag: Seq<char>) -> Seq<char> {
    join_path(adapter_dir(adapters_dir, name), release_dir_name(name, tag))
}

/// The error a failed step ends the download with.
pub open spec fn io_error(message: String) -> Result<(), InstallError> {
    Err(InstallError::Io(message))
}

/// One step of a download: from the download `m`, what came of the step
/// it waited on, `event`, gives the step `r` and the state `next`.
pub open spec fn download_step(m: GithubDownload, event: DownloadEvent, r: DownloadAction, next: DownloadState) -> bool {
    let name = m.adapter_name@;
    let base = m.adapters_dir@;
    let dir = adapter_dir(base, name);
    match (m.state, event) {
        (DownloadState::CheckingDir, DownloadEvent::Answer(true)) => r == DownloadAction::Finish(Ok(
            (),
        )) && next == DownloadState::Finished,
        (DownloadState::CheckingDir, DownloadEvent::Answer(false)) => r == DownloadAction::CheckHttpClient
            && next == DownloadState::CheckingHttpClient,
        (DownloadState::CheckingHttpClient, DownloadEvent::Answer(true)) => r matches DownloadAction::CheckExists(
            p,
        ) && p@ == dir && next == DownloadState::CheckingExists,
        (DownloadState::CheckingHttpClient, DownloadEvent::Answer(false)) => r == DownloadAction::Finish(
            Err(InstallError::InstallFailed),
        ) && next == DownloadState::Finished,
        (DownloadState::CheckingExists, DownloadEvent::Answer(true)) => r matches DownloadAction::FetchLatestRelease(
            repo,
        ) && repo@ == m.repo.repo_owner@ + "/"@ + m.repo.repo_name@ && next
            == DownloadState::FetchingRelease,
        (DownloadState::CheckingExists, DownloadEvent::Answer(false)) => r matches DownloadAction::CreateDir(
            p,
        ) && p@ == dir && next == DownloadState::CreatingDir,
        (DownloadState::CreatingDir, DownloadEvent::Done) => r matches DownloadAction::FetchLatestRelease(
            repo,
        ) && repo@ == m.repo.repo_owner@ + "/"@ + m.repo.repo_name@ && next
            == DownloadState::FetchingRelease,
        (DownloadState::FetchingRelease, DownloadEvent::Release { tag_name, zipball_url }) => r matches DownloadAction::CheckFile(
            p,
        ) && p@ == zip_path(base, name, tag_name@) && next == (DownloadState::CheckingZip {
            tag_name,
            zipball_url,
        }),
        (DownloadState::CheckingZip { .. }, DownloadEvent::Answer(true)) => r == DownloadAction::Finish(
            Err(InstallError::InstallFailed),
        ) && next == DownloadState::Finished,
        (DownloadState::CheckingZip { tag_name, zipball_url }, DownloadEvent::Answer(false)) => r matches DownloadAction::Download {
            url,
            to,
        } && url == zipball_url && to@ == zip_path(base, name, tag_name@) && next == (
        DownloadState::Downloading { tag_name }),
        (DownloadState::Downloading { .. }, DownloadEvent::Failed(msg)) => r == DownloadAction::Finish(
            Err(InstallError::DownloadFailed(msg)),
        ) && next == DownloadState::Finished,
        (DownloadState::Downloading { tag_name }, DownloadEvent::Done) => r matches DownloadAction::Unzip {
            dir: d,
            zip,
        } && d@ == dir && zip@ == zip_path(base, name, tag_name@) && next == (
        DownloadState::Unzipping { tag_name }),
        (DownloadState::Unzipping { tag_name }, DownloadEvent::Done) => r matches DownloadAction::RemoveFile(
            zip,
        ) && zip@ == zip_path(base, name, tag_name@) && next == (
        DownloadState::RemovingZip { tag_name }),
        (DownloadState::RemovingZip { tag_name }, DownloadEvent::Done) => r matches DownloadAction::FindFileNameContaining {
            dir: d,
            needle,
        } && d@ == dir && needle@ == name && next == (DownloadState::Finding { tag_name }),
        (DownloadState::Finding { .. }, DownloadEvent::Found(None)) => r == DownloadAction::Finish(
            Err(InstallError::UnzippedDirectoryNotFound),
        ) && next == DownloadState::Finished,
        (DownloadState::Finding { tag_name }, DownloadEvent::Found(Some(found))) => r matches DownloadAction::Rename {
            from,
            to,
        } && from == found && to@ == install_path(base, name, tag_name@) && next
            == DownloadState::Renaming,
        (DownloadState::Renaming, DownloadEvent::Done) => r == DownloadAction::Finish(Ok(()))
            && next == DownloadState::Finished,
        (DownloadState::Finished, _) => r == DownloadAction::Finish(Err(InstallError::InstallFailed))
            && next == DownloadState::Finished,
        (_, DownloadEvent::Failed(msg)) => r == DownloadAction::Finish(io_error(msg)) && next
            == DownloadState::Finished,
        _ => r == DownloadAction::Finish(Err(InstallError::InstallFailed)) && next
            == DownloadState::Finished,
    }
}

/// Whether a path is a directory or lies below it.
pub open spec fn within(path: Seq<char>, dir: Seq<char>) -> bool {
    path == dir || exists|rest: Seq<char>| path == join_path(dir, rest)
}

/// The paths a step creates, writes, unpacks into, removes or renames to.
pub open spec fn changed_paths(r: DownloadAction) -> Seq<Seq<char>> {
    match r {
        DownloadAction::CreateDir(p) => seq![p@],
        DownloadAction::Download { to, .. } => seq![to@],
        DownloadAction::Unzip { dir, zip } => seq![dir@, zip@],
        DownloadAction::RemoveFile(p) => seq![p@],
        DownloadAction::Rename { to, .. } => seq![to@],
        _ => Seq::empty(),
    }
}

/// A download changes nothing outside the adapter's directory: every path a
/// step creates, writes, unpacks into, removes or renames to lies in it.
pub proof fn lemma_download_stays_in_adapter_dir(
    m: GithubDownload,
    event: DownloadEvent,
    r: DownloadAction,
    next: DownloadState,
)
    requires
        download_step(m, event, r, next),
    ensures
        forall|i: int| 0 <= i < changed_paths(r).len() ==> within(#[trigger] changed_paths(r)[i], m.dir()),
{
    let name = m.adapter_name@;
    let base = m.adapters_dir@;
    match (m.state, event) {
        (DownloadState::CheckingZip { tag_name, .. }, DownloadEvent::Answer(false)) => {
            assert(within(zip_path(base, name, tag_name@), m.dir()));
        },
        (DownloadState::Downloading { tag_name }, DownloadEvent::Done) => {
            assert(within(zip_path(base, name, tag_name@), m.dir()));
        },
        (DownloadState::Unzipping { tag_name }, DownloadEvent::Done) => {
            assert(within(zip_path(base, name, tag_name@), m.dir()));
        },
        (DownloadState::Finding { tag_name }, DownloadEvent::Found(Some(_))) => {
            assert(within(install_path(base, name, tag_name@), m.dir()));
        },
        _ => {},
    }
}

/// A download ends well only when the adapter's directory was there from
/// the start, or once the unpacked release was renamed into place.
pub proof fn lemma_download_success(m: GithubDownload, event: DownloadEvent, r: DownloadAction, next: DownloadState)
    requires
        download_step(m, event, r, next),
        r == DownloadAction::Finish(Ok(())),
    ensures
        (m.state == DownloadState::CheckingDir && event == DownloadEvent::Answer(true)) || (m.state
            == DownloadState::Renaming && event == DownloadEvent::Done),
        next == DownloadState::Finished,
{
}

/// A finished download stays finished, and only ever answers that it is
/// over.
pub proof fn lemma_download_finished(m: GithubDownload, event: DownloadEvent, r: DownloadAction, next: DownloadState)
    requires
        download_step(m, event, r, next),
        m.state == DownloadState::Finished,
    ensures
        next == DownloadState::Finished,
        r is Finish,
{
}

impl GithubDownload {
    /// A download that is about to check whether the adapter is installed.
    pub fn new(adapter_name: String, repo: GithubRepo, adapters_dir: String) -> (r: Self)
        ensures
            r.adapter_name == adapter_name,
            r.repo == repo,
            r.adapters_dir == adapters_dir,
            r.state == DownloadState::CheckingDir,
    {
        GithubDownload { adapter_name, repo, adapters_dir, state: DownloadState::CheckingDir }
    }

    /// The adapter's directory.
    pub open spec fn dir(&self) -> Seq<char> {
        adapter_dir(self.adapters_dir@, self.adapter_name@)
    }

    /// The first step: whether the adapter's directory is there.
    pub fn start(&self) -> (r: DownloadAction)
        ensures
            r matches DownloadAction::CheckIsDir(p) && p@ == self.dir(),
    {
        DownloadAction::CheckIsDir(join(&self.adapters_dir, self.adapter_name.as_str()))
    }

    /// Takes what came of the last step and gives the next one. An installed
    /// adapter ends the download at once; without a client it fails; a
    /// missing directory is created; the latest release is fetched and, when
    /// its archive is not there yet, downloaded, unzipped and removed, and
    /// the directory it unpacked to is renamed to `<name>_<tag>`. A failed
    /// step ends the download with its message; an answer that does not fit
    /// the step waited on ends it as failed.
    pub fn step(&mut self, event: DownloadEvent) -> (r: DownloadAction)
        ensures
            final(self).adapter_name == old(self).adapter_name,
            final(self).repo == old(self).repo,
            final(self).adapters_dir == old(self).adapters_dir,
            download_step(*old(self), event, r, final(self).state),
    {
        let mut state = DownloadState::Finished;
        std::mem::swap(&mut state, &mut self.state);
        let (next, action) = match (state, event) {
            (DownloadState::CheckingDir, DownloadEvent::Answer(true)) => (
                DownloadState::Finished,
                DownloadAction::Finish(Ok(())),
            ),
            (DownloadState::CheckingDir, DownloadEvent::Answer(false)) => (
                DownloadState::CheckingHttpClient,
                DownloadAction::CheckHttpClient,
            ),
            (DownloadState::CheckingHttpClient, DownloadEvent::Answer(true)) => (
                DownloadState::CheckingExists,
                DownloadAction::CheckExists(join(&self.adapters_dir, self.adapter_name.as_str())),
            ),
            (DownloadState::CheckingHttpClient, DownloadEvent::Answer(false)) => (
                DownloadState::Finished,
                DownloadAction::Finish(Err(InstallError::InstallFailed)),
            ),
            (DownloadState::CheckingExists, DownloadEvent::Answer(true)) => (
                DownloadState::FetchingRelease,
                DownloadAction::FetchLatestRelease(self.repo.repo_name_with_owner()),
            ),
            (DownloadState::CheckingExists, DownloadEvent::Answer(false)) => (
                DownloadState::CreatingDir,
                DownloadAction::CreateDir(join(&self.adapters_dir, self.adapter_name.as_str())),
            ),
            (DownloadState::CreatingDir, DownloadEvent::Done) => (
                DownloadState::FetchingRelease,
                DownloadAction::FetchLatestRelease(self.repo.repo_name_with_owner()),
            ),
            (DownloadState::FetchingRelease, DownloadEvent::Release { tag_name, zipball_url }) => {
                let zip = self.zip_path_of(&tag_name);
                (DownloadState::CheckingZip { tag_name, zipball_url }, DownloadAction::CheckFile(zip))
            },
            (DownloadState::CheckingZip { .. }, DownloadEvent::Answer(true)) => (
                DownloadState::Finished,
                DownloadAction::Finish(Err(InstallError::InstallFailed)),
            ),
            (DownloadState::CheckingZip { tag_name, zipball_url }, DownloadEvent::Answer(false)) => {
                let zip = self.zip_path_of(&tag_name);
                (DownloadState::Downloading { tag_name }, DownloadAction::Download { url: zipball_url, to: zip })
            },
            (DownloadState::Downloading { .. }, DownloadEvent::Failed(m)) => (
                DownloadState::Finished,
                DownloadAction::Finish(Err(InstallError::DownloadFailed(m))),
            ),
            (DownloadState::Downloading { tag_name }, DownloadEvent::Done) => {
                let zip = self.zip_path_of(&tag_name);
                let dir = join(&self.adapters_dir, self.adapter_name.as_str());
                (DownloadState::Unzipping { tag_name }, DownloadAction::Unzip { dir, zip })
            },
            (DownloadState::Unzipping { tag_name }, DownloadEvent::Done) => {
                let zip = self.zip_path_of(&tag_name);
                (DownloadState::RemovingZip { tag_name }, DownloadAction::RemoveFile(zip))
            },
            (DownloadState::RemovingZip { tag_name }, DownloadEvent::Done) => {
                let dir = join(&self.adapters_dir, self.adapter_name.as_str());
                (
                    DownloadState::Finding { tag_name },
                    DownloadAction::FindFileNameContaining { dir, needle: self.adapter_name.clone() },
                )
            },
            (DownloadState::Finding { .. }, DownloadEvent::Found(None)) => (
                DownloadState::Finished,
                DownloadAction::Finish(Err(InstallError::UnzippedDirectoryNotFound)),
            ),
            (DownloadState::Finding { tag_name }, DownloadEvent::Found(Some(found))) => {
                let to = self.install_path_of(&tag_name);
                (DownloadState::Renaming, DownloadAction::Rename { from: found, to })
            },
            (DownloadState::Renaming, DownloadEvent::Done) => (
                DownloadState::Finished,
                DownloadAction::Finish(Ok(())),
            ),
            (DownloadState::Finished, _) => (
                DownloadState::Finished,
                DownloadAction::Finish(Err(InstallError::InstallFailed)),
            ),
            (_, DownloadEvent::Failed(m)) => (DownloadState::Finished, DownloadAction::Finish(Err(InstallError::Io(m)))),
            _ => (DownloadState::Finished, DownloadAction::Finish(Err(InstallError::InstallFailed))),
        };
        self.state = next;
        action
    }

    fn release_name(&self, tag_name: &String) -> (r: String)
        ensures
            r@ == release_dir_name(self.adapter_name@, tag_name@),
    {
        let mut r = self.adapter_name.clone();
        r.append("_");
        r.append(tag_name.as_str());
        proof {
            reveal_strlit("_");
        }
        r
    }

    fn zip_path_of(&self, tag_name: &String) -> (r: String)
        ensures
            r@ == zip_path(self.adapters_dir@, self.adapter_name@, tag_name@),
    {
        let dir = join(&self.adapters_dir, self.adapter_name.as_str());
        let mut asset = self.release_name(tag_name);
        asset.append(".zip");
        proof {
            reveal_strlit(".zip");
        }
        join(&dir, asset.as_str())
    }

    fn install_path_of(&self, tag_name: &String) -> (r: String)
        ensures
            r@ == install_path(self.adapters_dir@, self.adapter_name@, tag_name@),
    {
        let dir = join(&self.adapters_dir, self.adapter_name.as_str());
        let name = self.release_name(tag_name);
        join(&dir, name.as_str())
    }
}

/// How an adapter's binary is installed: an adapter released on GitHub is
/// downloaded from there; a custom adapter needs nothing.
pub fn install_binary(name: &DebugAdapterName, kind: DebugAdapterDownloadKind, adapters_dir: String) -> (r: Option<
    GithubDownload,
>)
    ensures
        match kind {
            DebugAdapterDownloadKind::Github(repo) => r matches Some(d) && d.adapter_name == name.0 && d.repo == repo
                && d.adapters_dir == adapters_dir && d.state == DownloadState::CheckingDir,
            DebugAdapterDownloadKind::Custom => r is None,
        },
{
    match kind {
        DebugAdapterDownloadKind::Github(repo) => Some(GithubDownload::new(name.0.clone(), repo, adapters_dir)),
        DebugAdapterDownloadKind::Custom => None,
    }
}

/// What `String::from_utf8` makes of bytes: their text, when they are UTF-8.
pub open spec fn utf8_decoded(bytes: Seq<u8>) -> Option<Seq<char>> {
    if vstd::utf8::valid_utf8(bytes) {
        Some(vstd::utf8::decode_utf8(bytes))
    } else {
        None
    }
}

/// Calls `String::from_utf8`: the bytes' text when they are valid UTF-8, as
/// std documents it, and nothing otherwise.
#[verifier::external_body]
pub(crate) fn utf8_text(bytes: Vec<u8>) -> (r: Option<String>)
    ensures
        match r {
            Some(s) => utf8_decoded(bytes@) == Some(s@),
            None => utf8_decoded(bytes@) is None,
        },
{
    String::from_utf8(bytes).ok()
}

/// How debugpy is started once installed: with `start_command`, on the
/// adapter at `path`.
#[derive(Clone, Debug, PartialEq)]
pub struct DebugpyBinary {
    pub start_command: Option<String>,
    pub path: String,
    pub arguments: Vec<String>,
    pub env: Option<Vec<(String, String)>>,
}

/// A step of installing debugpy for the caller to perform.
#[derive(Debug, PartialEq)]
pub enum DebugpyAction {
    /// Is this path a directory? Answer with `Answer`.
    CheckIsDir(String),
    /// Is there a client to make requests with? Answer with `Answer`.
    CheckHttpClient,
    /// Does this path exist? Answer with `Answer`.
    CheckExists(String),
    /// Create this directory; answer with `Done` or `Failed`.
    CreateDir(String),
    /// Fetch the latest release of the repository `owner/name`; answer with
    /// `Release` or `Failed`.
    FetchLatestRelease(String),
    /// Can this file's metadata be read? Answer with `Answer`.
    CheckFile(String),
    /// Download `url` into the file `to`; answer with `Done` or `Failed`.
    Download { url: String, to: String },
    /// Unzip `zip` in `dir`; answer with `Done` or `Failed`.
    Unzip { dir: String, zip: String },
    /// List `dir` and keep the lines holding `pattern`; answer with `Output`
    /// or `Failed`.
    ListMatching { dir: String, pattern: String },
    /// Run this shell command in `dir`; answer with `Done` or `Failed`.
    Shell { dir: String, command: String },
    /// Remove these paths of `dir`, recursively; answer with `Done` or
    /// `Failed`.
    RemoveAll { dir: String, paths: Vec<String> },
    /// The installation is over.
    Finish(Result<DebugpyBinary, InstallError>),
}

/// What came of a step of installing debugpy.
#[derive(Clone, Debug, PartialEq)]
pub enum DebugpyEvent {
    /// The answer to a question.
    Answer(bool),
    /// The step succeeded.
    Done,
    /// The latest release: its tag and the address of its archive.
    Release { tag_name: String, zipball_url: String },
    /// What a listing printed.
    Output(Vec<u8>),
    /// The step failed, with a message.
    Failed(String),
}

/// Where an installation of debugpy stands: the step it waits on.
#[derive(Clone, Debug, PartialEq)]
pub enum DebugpyState {
    CheckingAdapter,
    CheckingHttpClient,
    CheckingExists,
    CreatingDir,
    FetchingRelease,
    CheckingZip { tag_name: String, zipball_url: String },
    Downloading { tag_name: String },
    Unzipping { tag_name: String },
    Listing { tag_name: String },
    Moving { tag_name: String, unpacked: String },
    Removing,
    Finished,
}

/// Installing debugpy under `adapters_dir`, or finding it installed.
#[derive(Clone, Debug)]
pub struct DebugpyInstall {
    pub adapters_dir: String,
    pub state: DebugpyState,
}

/// debugpy's directory: `<adapters dir>/debugpy`.
pub open spec fn debugpy_dir(adapters_dir: Seq<char>) -> Seq<char> {
    join_path(adapters_dir, "debugpy"@)
}

/// The adapter of an installed debugpy: `<adapters dir>/debugpy/src/debugpy/adapter`.
pub open spec fn debugpy_adapter_path(adapters_dir: Seq<char>) -> Seq<char> {
    join_path(adapters_dir, "debugpy/src/debugpy/adapter"@)
}

/// The archive of a debugpy release: `<debugpy dir>/<tag>.zip`.
pub open spec fn debugpy_zip_path(adapters_dir: Seq<char>, tag: Seq<char>) -> Seq<char> {
    join_path(debugpy_dir(adapters_dir), tag + ".zip"@)
}

/// The installed debugpy: started with `python3`, on its adapter, with no
/// arguments and no environment.
pub open spec fn debugpy_binary_of(b: DebugpyBinary, adapters_dir: Seq<char>) -> bool {
    &&& b.start_command matches Some(c) && c@ == "python3"@
    &&& b.path@ == debugpy_adapter_path(adapters_dir)
    &&& b.arguments@.len() == 0
    &&& b.env is None
}

/// The shell command that moves what was unpacked into debugpy's directory.
pub open spec fn move_command(unpacked: Seq<char>) -> Seq<char> {
    "mv "@ + unpacked + "/* ."@
}

/// One step of installing debugpy: from `m`, what came of the step it
/// waited on, `event`, gives the step `r` and the state `next`. An adapter
/// already there is used at once; without a client the installation fails;
/// debugpy's directory is created when missing; the latest release is
/// fetched and, when its archive is not there yet, downloaded and unzipped,
/// the unpacked directory (the listing's line holding `microsoft-debugpy`,
/// without trailing whitespace) is emptied into debugpy's directory, and it
/// and the archive are removed. An archive already there fails the
/// installation; a failed step ends it with its message.
pub open spec fn debugpy_step(m: DebugpyInstall, event: DebugpyEvent, r: DebugpyAction, next: DebugpyState) -> bool {
    let base = m.adapters_dir@;
    let dir = debugpy_dir(base);
    match (m.state, event) {
        (DebugpyState::CheckingAdapter, DebugpyEvent::Answer(true)) => r matches DebugpyAction::Finish(Ok(b))
            && debugpy_binary_of(b, base) && next == DebugpyState::Finished,
        (DebugpyState::CheckingAdapter, DebugpyEvent::Answer(false)) => r == DebugpyAction::CheckHttpClient && next
            == DebugpyState::CheckingHttpClient,
        (DebugpyState::CheckingHttpClient, DebugpyEvent::Answer(true)) => r matches DebugpyAction::CheckExists(p)
            && p@ == dir && next == DebugpyState::CheckingExists,
        (DebugpyState::CheckingHttpClient, DebugpyEvent::Answer(false)) => r == DebugpyAction::Finish(
            Err(InstallError::NoHttpClient),
        ) && next == DebugpyState::Finished,
        (DebugpyState::CheckingExists, DebugpyEvent::Answer(true)) => r matches DebugpyAction::FetchLatestRelease(
            repo,
        ) && repo@ == "microsoft/debugpy"@ && next == DebugpyState::FetchingRelease,
        (DebugpyState::CheckingExists, DebugpyEvent::Answer(false)) => r matches DebugpyAction::CreateDir(p) && p@
            == dir && next == DebugpyState::CreatingDir,
        (DebugpyState::CreatingDir, DebugpyEvent::Done) => r matches DebugpyAction::FetchLatestRelease(repo)
            && repo@ == "microsoft/debugpy"@ && next == DebugpyState::FetchingRelease,
        (DebugpyState::FetchingRelease, DebugpyEvent::Release { tag_name, zipball_url }) => r matches DebugpyAction::CheckFile(
            p,
        ) && p@ == debugpy_zip_path(base, tag_name@) && next == (DebugpyState::CheckingZip { tag_name, zipball_url }),
        (DebugpyState::CheckingZip { .. }, DebugpyEvent::Answer(true)) => r == DebugpyAction::Finish(
            Err(InstallError::DebugpyDownloadFailed),
        ) && next == DebugpyState::Finished,
        (DebugpyState::CheckingZip { tag_name, zipball_url }, DebugpyEvent::Answer(false)) => r matches DebugpyAction::Download {
            url,
            to,
        } && url == zipball_url && to@ == debugpy_zip_path(base, tag_name@) && next == (DebugpyState::Downloading {
            tag_name,
        }),
        (DebugpyState::Downloading { .. }, DebugpyEvent::Failed(msg)) => r == DebugpyAction::Finish(
            Err(InstallError::DownloadFailed(msg)),
        ) && next == DebugpyState::Finished,
        (DebugpyState::Downloading { tag_name }, DebugpyEvent::Done) => r matches DebugpyAction::Unzip { dir: d, zip }
            && d@ == dir && zip@ == debugpy_zip_path(base, tag_name@) && next == (DebugpyState::Unzipping {
            tag_name,
        }),
        (DebugpyState::Unzipping { tag_name }, DebugpyEvent::Done) => r matches DebugpyAction::ListMatching {
            dir: d,
            pattern,
        } && d@ == dir && pattern@ == "microsoft-debugpy"@ && next == (DebugpyState::Listing { tag_name }),
        (DebugpyState::Listing { tag_name }, DebugpyEvent::Output(bytes)) => match utf8_decoded(bytes@) {
            None => r == DebugpyAction::Finish(Err(InstallError::ListingNotText)) && next
                == DebugpyState::Finished,
            Some(text) => {
                &&& r matches DebugpyAction::Shell { dir: d, command } && d@ == dir && command@ == move_command(
                    trimmed_end(text),
                )
                &&& next matches DebugpyState::Moving { tag_name: t, unpacked } && t == tag_name && unpacked@
                    == trimmed_end(text)
            },
        },
        (DebugpyState::Moving { tag_name, unpacked }, DebugpyEvent::Done) => r matches DebugpyAction::RemoveAll {
            dir: d,
            paths,
        } && d@ == dir && paths@.len() == 2 && paths@[0] == unpacked && paths@[1]@ == debugpy_zip_path(
            base,
            tag_name@,
        ) && next == DebugpyState::Removing,
        (DebugpyState::Removing, DebugpyEvent::Done) => r matches DebugpyAction::Finish(Ok(b)) && debugpy_binary_of(
            b,
            base,
        ) && next == DebugpyState::Finished,
        (DebugpyState::Finished, _) => r == DebugpyAction::Finish(Err(InstallError::InstallFailed)) && next
            == DebugpyState::Finished,
        (_, DebugpyEvent::Failed(msg)) => r == DebugpyAction::Finish(io_error_binary(msg)) && next
            == DebugpyState::Finished,
        _ => r == DebugpyAction::Finish(Err(InstallError::InstallFailed)) && next == DebugpyState::Finished,
    }
}

/// The error a failed step ends an installation with.
pub open spec fn io_error_binary(message: String) -> Result<DebugpyBinary, InstallError> {
    Err(InstallError::Io(message))
}

/// An installation of debugpy ends well only when its adapter was there
/// from the start, or once the unpacked release and its archive were
/// removed; either way it hands out the installed adapter.
pub proof fn lemma_debugpy_success(m: DebugpyInstall, event: DebugpyEvent, r: DebugpyAction, next: DebugpyState)
    requires
        debugpy_step(m, event, r, next),
        r matches DebugpyAction::Finish(Ok(_)),
    ensures
        (m.state == DebugpyState::CheckingAdapter && event == DebugpyEvent::Answer(true)) || (m.state
            == DebugpyState::Removing && event == DebugpyEvent::Done),
        r matches DebugpyAction::Finish(Ok(b)) && debugpy_binary_of(b, m.adapters_dir@),
        next == DebugpyState::Finished,
{
}

/// A finished installation stays finished, and only ever answers that it
/// is over.
pub proof fn lemma_debugpy_finished(m: DebugpyInstall, event: DebugpyEvent, r: DebugpyAction, next: DebugpyState)
    requires
        debugpy_step(m, event, r, next),
        m.state == DebugpyState::Finished,
    ensures
        next == DebugpyState::Finished,
        r is Finish,
{
}

impl DebugpyInstall {
    /// An installation that is about to look for an installed adapter.
    pub fn new(adapters_dir: String) -> (r: Self)
        ensures
            r.adapters_dir == adapters_dir,
            r.state == DebugpyState::CheckingAdapter,
    {
        DebugpyInstall { adapters_dir, state: DebugpyState::CheckingAdapter }
    }

    /// The first step: whether debugpy's adapter is there.
    pub fn start(&self) -> (r: DebugpyAction)
        ensures
            r matches DebugpyAction::CheckIsDir(p) && p@ == debugpy_adapter_path(self.adapters_dir@),
    {
        DebugpyAction::CheckIsDir(join(&self.adapters_dir, "debugpy/src/debugpy/adapter"))
    }

    fn binary(&self) -> (r: DebugpyBinary)
        ensures
            debugpy_binary_of(r, self.adapters_dir@),
    {
        proof {
            reveal_strlit("python3");
        }
        DebugpyBinary {
            start_command: Some(String::from_str("python3")),
            path: join(&self.adapters_dir, "debugpy/src/debugpy/adapter"),
            arguments: Vec::new(),
            env: None,
        }
    }

    fn zip_path_of(&self, tag_name: &String) -> (r: String)
        ensures
            r@ == debugpy_zip_path(self.adapters_dir@, tag_name@),
    {
        let dir = join(&self.adapters_dir, "debugpy");
        let mut asset = tag_name.clone();
        asset.append(".zip");
        proof {
            reveal_strlit(".zip");
        }
        join(&dir, asset.as_str())
    }

    /// Takes what came of the last step and gives the next one, as
    /// `debugpy_step` says.
    pub fn step(&mut self, event: DebugpyEvent) -> (r: DebugpyAction)
        ensures
            final(self).adapters_dir == old(self).adapters_dir,
            debugpy_step(*old(self), event, r, final(self).state),
    {
        let mut state = DebugpyState::Finished;
        std::mem::swap(&mut state, &mut self.state);
        let (next, action) = match (state, event) {
            (DebugpyState::CheckingAdapter, DebugpyEvent::Answer(true)) => (
                DebugpyState::Finished,
                DebugpyAction::Finish(Ok(self.binary())),
            ),
            (DebugpyState::CheckingAdapter, DebugpyEvent::Answer(false)) => (
                DebugpyState::CheckingHttpClient,
                DebugpyAction::CheckHttpClient,
            ),
            (DebugpyState::CheckingHttpClient, DebugpyEvent::Answer(true)) => (
                DebugpyState::CheckingExists,
                DebugpyAction::CheckExists(join(&self.adapters_dir, "debugpy")),
            ),
            (DebugpyState::CheckingHttpClient, DebugpyEvent::Answer(false)) => (
                DebugpyState::Finished,
                DebugpyAction::Finish(Err(InstallError::NoHttpClient)),
            ),
            (DebugpyState::CheckingExists, DebugpyEvent::Answer(true)) => {
                proof {
                    reveal_strlit("microsoft/debugpy");
                }
                (DebugpyState::FetchingRelease, DebugpyAction::FetchLatestRelease(String::from_str("microsoft/debugpy")))
            },
            (DebugpyState::CheckingExists, DebugpyEvent::Answer(false)) => (
                DebugpyState::CreatingDir,
                DebugpyAction::CreateDir(join(&self.adapters_dir, "debugpy")),
            ),
            (DebugpyState::CreatingDir, DebugpyEvent::Done) => {
                proof {
                    reveal_strlit("microsoft/debugpy");
                }
                (DebugpyState::FetchingRelease, DebugpyAction::FetchLatestRelease(String::from_str("microsoft/debugpy")))
            },
            (DebugpyState::FetchingRelease, DebugpyEvent::Release { tag_name, zipball_url }) => {
                let zip = self.zip_path_of(&tag_name);
                (DebugpyState::CheckingZip { tag_name, zipball_url }, DebugpyAction::CheckFile(zip))
            },
            (DebugpyState::CheckingZip { .. }, DebugpyEvent::Answer(true)) => (
                DebugpyState::Finished,
                DebugpyAction::Finish(Err(InstallError::DebugpyDownloadFailed)),
            ),
            (DebugpyState::CheckingZip { tag_name, zipball_url }, DebugpyEvent::Answer(false)) => {
                let zip = self.zip_path_of(&tag_name);
                (DebugpyState::Downloading { tag_name }, DebugpyAction::Download { url: zipball_url, to: zip })
            },
            (DebugpyState::Downloading { .. }, DebugpyEvent::Failed(msg)) => (
                DebugpyState::Finished,
                DebugpyAction::Finish(Err(InstallError::DownloadFailed(msg))),
            ),
            (DebugpyState::Downloading { tag_name }, DebugpyEvent::Done) => {
                let zip = self.zip_path_of(&tag_name);
                let dir = join(&self.adapters_dir, "debugpy");
                (DebugpyState::Unzipping { tag_name }, DebugpyAction::Unzip { dir, zip })
            },
            (DebugpyState::Unzipping { tag_name }, DebugpyEvent::Done) => {
                let dir = join(&self.adapters_dir, "debugpy");
                proof {
                    reveal_strlit("microsoft-debugpy");
                }
                (
                    DebugpyState::Listing { tag_name },
                    DebugpyAction::ListMatching { dir, pattern: String::from_str("microsoft-debugpy") },
                )
            },
            (DebugpyState::Listing { tag_name }, DebugpyEvent::Output(bytes)) => match utf8_text(bytes) {
                None => (DebugpyState::Finished, DebugpyAction::Finish(Err(InstallError::ListingNotText))),
                Some(text) => {
                    let unpacked = crate::panel_item::trim_end(text.as_str());
                    let mut command = String::from_str("mv ");
                    command.append(unpacked.as_str());
                    command.append("/* .");
                    proof {
                        reveal_strlit("mv ");
                        reveal_strlit("/* .");
                    }
                    let dir = join(&self.adapters_dir, "debugpy");
                    (DebugpyState::Moving { tag_name, unpacked }, DebugpyAction::Shell { dir, command })
                },
            },
            (DebugpyState::Moving { tag_name, unpacked }, DebugpyEvent::Done) => {
                let dir = join(&self.adapters_dir, "debugpy");
                let zip = self.zip_path_of(&tag_name);
                let paths = vec![unpacked, zip];
                (DebugpyState::Removing, DebugpyAction::RemoveAll { dir, paths })
            },
            (DebugpyState::Removing, DebugpyEvent::Done) => (
                DebugpyState::Finished,
                DebugpyAction::Finish(Ok(self.binary())),
            ),
            (DebugpyState::Finished, _) => (
                DebugpyState::Finished,
                DebugpyAction::Finish(Err(InstallError::InstallFailed)),
            ),
            (_, DebugpyEvent::Failed(msg)) => (
                DebugpyState::Finished,
                DebugpyAction::Finish(Err(InstallError::Io(msg))),
            ),
            _ => (DebugpyState::Finished, DebugpyAction::Finish(Err(InstallError::InstallFailed))),
        };
        self.state = next;
        action
    }
}

} // verus!
