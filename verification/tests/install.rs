use debugger::adapters::{DebugAdapterDownloadKind, DebugAdapterName, GithubRepo};
use debugger::install::{
    install_binary, DebugpyAction, DebugpyEvent, DebugpyInstall, DownloadAction, DownloadEvent,
    DownloadState, GithubDownload, InstallError,
};

fn repo() -> GithubRepo {
    GithubRepo { repo_name: "vscode-go".to_string(), repo_owner: "golang".to_string() }
}

fn download() -> GithubDownload {
    GithubDownload::new("delve".to_string(), repo(), "/data/debug_adapters".to_string())
}

#[test]
fn installed_adapter_ends_download_at_once() {
    let mut d = download();
    assert_eq!(d.start(), DownloadAction::CheckIsDir("/data/debug_adapters/delve".to_string()));
    assert_eq!(d.step(DownloadEvent::Answer(true)), DownloadAction::Finish(Ok(())));
    assert_eq!(d.state, DownloadState::Finished);
}

#[test]
fn download_runs_through_every_step() {
    let mut d = download();
    assert_eq!(d.step(DownloadEvent::Answer(false)), DownloadAction::CheckHttpClient);
    assert_eq!(
        d.step(DownloadEvent::Answer(true)),
        DownloadAction::CheckExists("/data/debug_adapters/delve".to_string())
    );
    assert_eq!(
        d.step(DownloadEvent::Answer(false)),
        DownloadAction::CreateDir("/data/debug_adapters/delve".to_string())
    );
    assert_eq!(d.step(DownloadEvent::Done), DownloadAction::FetchLatestRelease("golang/vscode-go".to_string()));
    assert_eq!(
        d.step(DownloadEvent::Release {
            tag_name: "v1.2".to_string(),
            zipball_url: "https://example.invalid/v1.2.zip".to_string(),
        }),
        DownloadAction::CheckFile("/data/debug_adapters/delve/delve_v1.2.zip".to_string())
    );
    assert_eq!(
        d.step(DownloadEvent::Answer(false)),
        DownloadAction::Download {
            url: "https://example.invalid/v1.2.zip".to_string(),
            to: "/data/debug_adapters/delve/delve_v1.2.zip".to_string(),
        }
    );
    assert_eq!(
        d.step(DownloadEvent::Done),
        DownloadAction::Unzip {
            dir: "/data/debug_adapters/delve".to_string(),
            zip: "/data/debug_adapters/delve/delve_v1.2.zip".to_string(),
        }
    );
    assert_eq!(
        d.step(DownloadEvent::Done),
        DownloadAction::RemoveFile("/data/debug_adapters/delve/delve_v1.2.zip".to_string())
    );
    assert_eq!(
        d.step(DownloadEvent::Done),
        DownloadAction::FindFileNameContaining {
            dir: "/data/debug_adapters/delve".to_string(),
            needle: "delve".to_string(),
        }
    );
    assert_eq!(
        d.step(DownloadEvent::Found(Some("/data/debug_adapters/delve/golang-delve-abc".to_string()))),
        DownloadAction::Rename {
            from: "/data/debug_adapters/delve/golang-delve-abc".to_string(),
            to: "/data/debug_adapters/delve/delve_v1.2".to_string(),
        }
    );
    assert_eq!(d.step(DownloadEvent::Done), DownloadAction::Finish(Ok(())));
    assert_eq!(d.step(DownloadEvent::Done), DownloadAction::Finish(Err(InstallError::InstallFailed)));
}

#[test]
fn download_without_client_fails() {
    let mut d = download();
    d.step(DownloadEvent::Answer(false));
    assert_eq!(d.step(DownloadEvent::Answer(false)), DownloadAction::Finish(Err(InstallError::InstallFailed)));
}

#[test]
fn existing_directory_is_not_created_again() {
    let mut d = download();
    d.step(DownloadEvent::Answer(false));
    d.step(DownloadEvent::Answer(true));
    assert_eq!(
        d.step(DownloadEvent::Answer(true)),
        DownloadAction::FetchLatestRelease("golang/vscode-go".to_string())
    );
}

#[test]
fn archive_already_there_fails_download() {
    let mut d = download();
    d.step(DownloadEvent::Answer(false));
    d.step(DownloadEvent::Answer(true));
    d.step(DownloadEvent::Answer(true));
    d.step(DownloadEvent::Release { tag_name: "v1".to_string(), zipball_url: "u".to_string() });
    assert_eq!(d.step(DownloadEvent::Answer(true)), DownloadAction::Finish(Err(InstallError::InstallFailed)));
}

#[test]
fn failed_fetch_and_failed_download_end_download() {
    let mut d = download();
    d.step(DownloadEvent::Answer(false));
    d.step(DownloadEvent::Answer(true));
    d.step(DownloadEvent::Answer(true));
    assert_eq!(
        d.step(DownloadEvent::Failed("rate limited".to_string())),
        DownloadAction::Finish(Err(InstallError::Io("rate limited".to_string())))
    );

    let mut d = download();
    d.step(DownloadEvent::Answer(false));
    d.step(DownloadEvent::Answer(true));
    d.step(DownloadEvent::Answer(true));
    d.step(DownloadEvent::Release { tag_name: "v1".to_string(), zipball_url: "u".to_string() });
    d.step(DownloadEvent::Answer(false));
    assert_eq!(
        d.step(DownloadEvent::Failed("timeout".to_string())),
        DownloadAction::Finish(Err(InstallError::DownloadFailed("timeout".to_string())))
    );
}

#[test]
fn missing_unpacked_directory_fails_download() {
    let mut d = download();
    d.step(DownloadEvent::Answer(false));
    d.step(DownloadEvent::Answer(true));
    d.step(DownloadEvent::Answer(true));
    d.step(DownloadEvent::Release { tag_name: "v1".to_string(), zipball_url: "u".to_string() });
    d.step(DownloadEvent::Answer(false));
    d.step(DownloadEvent::Done);
    d.step(DownloadEvent::Done);
    d.step(DownloadEvent::Done);
    assert_eq!(
        d.step(DownloadEvent::Found(None)),
        DownloadAction::Finish(Err(InstallError::UnzippedDirectoryNotFound))
    );
}

#[test]
fn unexpected_answer_fails_download() {
    let mut d = download();
    assert_eq!(d.step(DownloadEvent::Done), DownloadAction::Finish(Err(InstallError::InstallFailed)));
}

#[test]
fn install_binary_downloads_only_from_github() {
    let name = DebugAdapterName("delve".to_string());
    let d = install_binary(&name, DebugAdapterDownloadKind::Github(repo()), "/a".to_string()).unwrap();
    assert_eq!(d.adapter_name, "delve");
    assert_eq!(d.adapters_dir, "/a");
    assert_eq!(d.state, DownloadState::CheckingDir);
    assert!(install_binary(&name, DebugAdapterDownloadKind::Custom, "/a".to_string()).is_none());
}

#[test]
fn installed_debugpy_is_used_at_once() {
    let mut i = DebugpyInstall::new("/ad".to_string());
    assert_eq!(i.start(), DebugpyAction::CheckIsDir("/ad/debugpy/src/debugpy/adapter".to_string()));
    match i.step(DebugpyEvent::Answer(true)) {
        DebugpyAction::Finish(Ok(binary)) => {
            assert_eq!(binary.start_command, Some("python3".to_string()));
            assert_eq!(binary.path, "/ad/debugpy/src/debugpy/adapter");
            assert!(binary.arguments.is_empty());
            assert_eq!(binary.env, None);
        }
        other => panic!("unexpected step {:?}", other),
    }
}

#[test]
fn debugpy_install_runs_through_every_step() {
    let mut i = DebugpyInstall::new("/ad".to_string());
    assert_eq!(i.step(DebugpyEvent::Answer(false)), DebugpyAction::CheckHttpClient);
    assert_eq!(i.step(DebugpyEvent::Answer(true)), DebugpyAction::CheckExists("/ad/debugpy".to_string()));
    assert_eq!(i.step(DebugpyEvent::Answer(false)), DebugpyAction::CreateDir("/ad/debugpy".to_string()));
    assert_eq!(i.step(DebugpyEvent::Done), DebugpyAction::FetchLatestRelease("microsoft/debugpy".to_string()));
    assert_eq!(
        i.step(DebugpyEvent::Release { tag_name: "v1.8.0".to_string(), zipball_url: "z".to_string() }),
        DebugpyAction::CheckFile("/ad/debugpy/v1.8.0.zip".to_string())
    );
    assert_eq!(
        i.step(DebugpyEvent::Answer(false)),
        DebugpyAction::Download { url: "z".to_string(), to: "/ad/debugpy/v1.8.0.zip".to_string() }
    );
    assert_eq!(
        i.step(DebugpyEvent::Done),
        DebugpyAction::Unzip { dir: "/ad/debugpy".to_string(), zip: "/ad/debugpy/v1.8.0.zip".to_string() }
    );
    assert_eq!(
        i.step(DebugpyEvent::Done),
        DebugpyAction::ListMatching { dir: "/ad/debugpy".to_string(), pattern: "microsoft-debugpy".to_string() }
    );
    assert_eq!(
        i.step(DebugpyEvent::Output(b"microsoft-debugpy-1a2b\n".to_vec())),
        DebugpyAction::Shell { dir: "/ad/debugpy".to_string(), command: "mv microsoft-debugpy-1a2b/* .".to_string() }
    );
    assert_eq!(
        i.step(DebugpyEvent::Done),
        DebugpyAction::RemoveAll {
            dir: "/ad/debugpy".to_string(),
            paths: vec!["microsoft-debugpy-1a2b".to_string(), "/ad/debugpy/v1.8.0.zip".to_string()],
        }
    );
    assert!(matches!(i.step(DebugpyEvent::Done), DebugpyAction::Finish(Ok(_))));
}

#[test]
fn debugpy_without_client_fails() {
    let mut i = DebugpyInstall::new("/ad".to_string());
    i.step(DebugpyEvent::Answer(false));
    assert_eq!(i.step(DebugpyEvent::Answer(false)), DebugpyAction::Finish(Err(InstallError::NoHttpClient)));
}

#[test]
fn debugpy_listing_that_is_not_text_fails() {
    let mut i = DebugpyInstall::new("/ad".to_string());
    i.step(DebugpyEvent::Answer(false));
    i.step(DebugpyEvent::Answer(true));
    i.step(DebugpyEvent::Answer(true));
    i.step(DebugpyEvent::Release { tag_name: "t".to_string(), zipball_url: "z".to_string() });
    i.step(DebugpyEvent::Answer(false));
    i.step(DebugpyEvent::Done);
    i.step(DebugpyEvent::Done);
    assert_eq!(
        i.step(DebugpyEvent::Output(vec![0xff, 0xfe])),
        DebugpyAction::Finish(Err(InstallError::ListingNotText))
    );
}

#[test]
fn debugpy_archive_already_there_fails_with_its_message() {
    let mut i = DebugpyInstall::new("/ad".to_string());
    i.step(DebugpyEvent::Answer(false));
    i.step(DebugpyEvent::Answer(true));
    i.step(DebugpyEvent::Answer(true));
    i.step(DebugpyEvent::Release { tag_name: "t".to_string(), zipball_url: "z".to_string() });
    let end = i.step(DebugpyEvent::Answer(true));
    assert_eq!(end, DebugpyAction::Finish(Err(InstallError::DebugpyDownloadFailed)));
    assert_eq!(InstallError::DebugpyDownloadFailed.message(), "Failed to download debugpy");
    assert_eq!(InstallError::InstallFailed.message(), "Install failed to download & counldn't preinstalled dap");
    assert_eq!(InstallError::NoHttpClient.message(), "Could not find debugpy in paths or connect to http");
    assert_eq!(InstallError::UnzippedDirectoryNotFound.message(), "Unzipped directory not found");
    assert_eq!(InstallError::DownloadFailed("timeout".to_string()).message(), "Error downloading release");
    assert_eq!(InstallError::Io("disk full".to_string()).message(), "disk full");
}
