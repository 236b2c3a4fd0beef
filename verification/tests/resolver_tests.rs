use nextflow_ext::{
    find_asset_index, Action, Event, Outcome, Phase, Release, ReleaseAsset, ResolveError,
    Resolver,
};

const JAR: &str = "language-server-all.jar";

fn asset(name: &str, url: &str) -> ReleaseAsset {
    ReleaseAsset {
        name: name.to_string(),
        download_url: url.to_string(),
    }
}

fn release(assets: Vec<ReleaseAsset>) -> Release {
    Release {
        name: "v1.0.0".to_string(),
        assets,
    }
}

fn is_network(action: &Action) -> bool {
    matches!(
        action,
        Action::FetchLatestRelease { .. } | Action::DownloadZip { .. }
    )
}

#[test]
fn fresh_resolver_has_empty_cache() {
    let r = Resolver::new();
    assert_eq!(r.cached_jar_path, None);
    assert_eq!(r.phase, Phase::Idle);
}

#[test]
fn resolve_is_idempotent_when_artifact_on_disk() {
    // The artifact already exists under the fixed name; every file check is
    // answered positively.  Both runs must return the same path and perform
    // no network action at all.
    let mut r = Resolver::new();
    let mut paths = Vec::new();
    for _ in 0..2 {
        let a = r.start();
        assert!(!is_network(&a));
        assert!(matches!(&a, Action::CheckFile { .. }));
        match r.step(Event::FileStatus { is_file: true }) {
            Outcome::Done(Ok(p)) => paths.push(p),
            other => panic!("expected immediate success, got {:?}", other),
        }
    }
    assert_eq!(paths[0], JAR);
    assert_eq!(paths[0], paths[1]);
}

#[test]
fn stale_cache_falls_back_to_disk_check() {
    let mut r = Resolver {
        cached_jar_path: Some("old-location.jar".to_string()),
        phase: Phase::Idle,
    };
    let a = r.start();
    assert_eq!(
        a,
        Action::CheckFile {
            path: "old-location.jar".to_string()
        }
    );
    // The cached file is gone; the fixed name is checked next.
    let o = r.step(Event::FileStatus { is_file: false });
    assert_eq!(
        o,
        Outcome::Next(Action::CheckFile {
            path: JAR.to_string()
        })
    );
    // It exists on disk, left over from an earlier process.
    let o = r.step(Event::FileStatus { is_file: true });
    assert_eq!(o, Outcome::Done(Ok(JAR.to_string())));
    assert_eq!(r.cached_jar_path, Some(JAR.to_string()));
}

#[test]
fn first_install_runs_to_completion() {
    let mut r = Resolver::new();
    let a = r.start();
    assert_eq!(
        a,
        Action::CheckFile {
            path: JAR.to_string()
        }
    );
    let o = r.step(Event::FileStatus { is_file: false });
    assert_eq!(o, Outcome::Next(Action::SignalChecking));
    let o = r.step(Event::Ack);
    assert_eq!(
        o,
        Outcome::Next(Action::FetchLatestRelease {
            repo: "nextflow-io/language-server".to_string(),
            require_assets: true,
            pre_release: false,
        })
    );
    let rel = release(vec![
        asset("language-server-all.jar.sig", "https://example.test/sig"),
        asset(JAR, "https://example.test/jar.zip"),
    ]);
    let o = r.step(Event::ReleaseResult { result: Ok(rel) });
    assert_eq!(o, Outcome::Next(Action::SignalDownloading));
    let o = r.step(Event::Ack);
    assert_eq!(
        o,
        Outcome::Next(Action::CreateStagingDir {
            path: "jar-download".to_string()
        })
    );
    let o = r.step(Event::Ack);
    // The exact-name asset was picked, not the `.sig` one.
    assert_eq!(
        o,
        Outcome::Next(Action::DownloadZip {
            url: "https://example.test/jar.zip".to_string(),
            dest: "jar-download".to_string(),
        })
    );
    let o = r.step(Event::DownloadResult { result: Ok(()) });
    assert_eq!(
        o,
        Outcome::Next(Action::FindFirstFile {
            dir: "jar-download".to_string()
        })
    );
    let o = r.step(Event::FirstFile {
        file: Some("jar-download/language-server-all.jar".to_string()),
    });
    assert_eq!(
        o,
        Outcome::Next(Action::RenameFile {
            from: "jar-download/language-server-all.jar".to_string(),
            to: JAR.to_string(),
        })
    );
    let o = r.step(Event::RenameResult { result: Ok(()) });
    assert_eq!(
        o,
        Outcome::Next(Action::RemoveStagingDir {
            path: "jar-download".to_string()
        })
    );
    let o = r.step(Event::Ack);
    assert_eq!(o, Outcome::Done(Ok(JAR.to_string())));
    assert_eq!(r.cached_jar_path, Some(JAR.to_string()));
    assert_eq!(r.phase, Phase::Idle);
}

#[test]
fn stale_staging_dir_does_not_fail_a_fresh_resolve() {
    // A staging directory with leftovers from a crashed run already exists.
    // Its creation is acknowledged regardless, the scan may even report a
    // leftover file, and the run still succeeds.
    let mut r = Resolver::new();
    r.start();
    r.step(Event::FileStatus { is_file: false });
    r.step(Event::Ack);
    r.step(Event::ReleaseResult {
        result: Ok(release(vec![asset(JAR, "https://example.test/jar.zip")])),
    });
    r.step(Event::Ack);
    // "Already exists" is ignored by design: the shell acknowledges.
    let o = r.step(Event::Ack);
    assert!(matches!(o, Outcome::Next(Action::DownloadZip { .. })));
    r.step(Event::DownloadResult { result: Ok(()) });
    let o = r.step(Event::FirstFile {
        file: Some("jar-download/leftover-from-crash.bin".to_string()),
    });
    assert!(matches!(o, Outcome::Next(Action::RenameFile { .. })));
    r.step(Event::RenameResult { result: Ok(()) });
    let o = r.step(Event::Ack);
    assert_eq!(o, Outcome::Done(Ok(JAR.to_string())));
}

#[test]
fn signature_asset_does_not_match() {
    let assets = vec![asset(
        "language-server-all.jar.sig",
        "https://example.test/sig",
    )];
    assert_eq!(find_asset_index(&assets, &JAR.to_string()), None);
}

#[test]
fn exact_asset_name_matches() {
    let assets = vec![
        asset("language-server-all.jar.sig", "https://example.test/sig"),
        asset(JAR, "https://example.test/jar.zip"),
        asset(JAR, "https://example.test/duplicate.zip"),
    ];
    assert_eq!(find_asset_index(&assets, &JAR.to_string()), Some(1));
}

#[test]
fn release_without_matching_asset_is_permanent_failure() {
    let mut r = Resolver::new();
    r.start();
    r.step(Event::FileStatus { is_file: false });
    r.step(Event::Ack);
    let o = r.step(Event::ReleaseResult {
        result: Ok(release(vec![asset(
            "language-server-all.jar.sig",
            "https://example.test/sig",
        )])),
    });
    assert_eq!(o, Outcome::Done(Err(ResolveError::AssetNotFound)));
    assert_eq!(r.cached_jar_path, None);
}

#[test]
fn release_lookup_failure_surfaces() {
    let mut r = Resolver::new();
    r.start();
    r.step(Event::FileStatus { is_file: false });
    r.step(Event::Ack);
    let o = r.step(Event::ReleaseResult {
        result: Err("feed unreachable".to_string()),
    });
    assert_eq!(
        o,
        Outcome::Done(Err(ResolveError::ReleaseLookup(
            "feed unreachable".to_string()
        )))
    );
}

#[test]
fn download_failure_surfaces() {
    let mut r = Resolver::new();
    r.start();
    r.step(Event::FileStatus { is_file: false });
    r.step(Event::Ack);
    r.step(Event::ReleaseResult {
        result: Ok(release(vec![asset(JAR, "https://example.test/jar.zip")])),
    });
    r.step(Event::Ack);
    r.step(Event::Ack);
    let o = r.step(Event::DownloadResult {
        result: Err("connection reset".to_string()),
    });
    assert_eq!(
        o,
        Outcome::Done(Err(ResolveError::Download("connection reset".to_string())))
    );
}

#[test]
fn empty_staging_dir_surfaces_extraction_failure() {
    let mut r = Resolver::new();
    r.start();
    r.step(Event::FileStatus { is_file: false });
    r.step(Event::Ack);
    r.step(Event::ReleaseResult {
        result: Ok(release(vec![asset(JAR, "https://example.test/jar.zip")])),
    });
    r.step(Event::Ack);
    r.step(Event::Ack);
    r.step(Event::DownloadResult { result: Ok(()) });
    let o = r.step(Event::FirstFile { file: None });
    assert_eq!(o, Outcome::Done(Err(ResolveError::ExtractedFileNotFound)));
}

#[test]
fn rename_failure_surfaces_install_error() {
    let mut r = Resolver::new();
    r.start();
    r.step(Event::FileStatus { is_file: false });
    r.step(Event::Ack);
    r.step(Event::ReleaseResult {
        result: Ok(release(vec![asset(JAR, "https://example.test/jar.zip")])),
    });
    r.step(Event::Ack);
    r.step(Event::Ack);
    r.step(Event::DownloadResult { result: Ok(()) });
    r.step(Event::FirstFile {
        file: Some("jar-download/language-server-all.jar".to_string()),
    });
    let o = r.step(Event::RenameResult {
        result: Err("permission denied".to_string()),
    });
    assert_eq!(
        o,
        Outcome::Done(Err(ResolveError::Install("permission denied".to_string())))
    );
    // The staging directory may remain on disk; the cache stays empty.
    assert_eq!(r.cached_jar_path, None);
}

#[test]
fn error_messages_match_the_host_strings() {
    assert_eq!(
        ResolveError::ReleaseLookup("feed down".to_string()).message(),
        "feed down"
    );
    assert_eq!(
        ResolveError::AssetNotFound.message(),
        "No language-server-all.jar asset found"
    );
    assert_eq!(
        ResolveError::Download("boom".to_string()).message(),
        "failed to download jar: boom"
    );
    assert_eq!(
        ResolveError::ExtractedFileNotFound.message(),
        "downloaded jar not found"
    );
    assert_eq!(
        ResolveError::Install("denied".to_string()).message(),
        "failed to move jar: denied"
    );
}

#[test]
fn expects_matches_pending_action() {
    let mut r = Resolver::new();
    r.start();
    assert!(r.expects(&Event::FileStatus { is_file: true }));
    assert!(!r.expects(&Event::Ack));
    assert!(!r.expects(&Event::FirstFile { file: None }));
    r.step(Event::FileStatus { is_file: false });
    assert!(!r.expects(&Event::FileStatus { is_file: true }));
    assert!(r.expects(&Event::Ack));
}
