use golden_updater::cycle::{Command, Message, Progress, Status};
use golden_updater::error::Error;
use golden_updater::manifest::Manifest;
use golden_updater::reconcile::{compare_files, LocalFile};
use golden_updater::release::{Asset, Release};

fn digest(c: char) -> String {
    std::iter::repeat(c).take(64).collect()
}

fn asset(name: &str, content_type: &str, url: &str) -> Asset {
    Asset {
        name: name.to_string(),
        content_type: content_type.to_string(),
        download_url: url.to_string(),
    }
}

fn release(assets: Vec<Asset>) -> Release {
    Release { tag: "v1".to_string(), assets }
}

fn full_release() -> Release {
    release(vec![
        asset("Manifest", "text/plain", "https://host/manifest"),
        asset("golden-forgery-1.0.zip", "application/zip", "https://host/pkg.zip"),
    ])
}

fn bg_manifest(c: char) -> Manifest {
    Manifest::try_from(format!("{}  images/bg.png", digest(c))).unwrap()
}

fn comparing(rel: Release) -> Progress {
    let (mut p, cmd) = Progress::boot();
    assert_eq!(cmd, Command::Check);
    let next = p.update(Message::Checked(Ok((rel, bg_manifest('a')))));
    assert_eq!(next, Command::Compare);
    p
}

#[test]
fn missing_file_diverges() {
    let m = bg_manifest('a');
    let out = compare_files(&m, &vec![LocalFile::Missing]);
    assert_eq!(out, vec!["images/bg.png".to_string()]);
}

#[test]
fn matching_file_does_not_diverge_and_cycle_finishes() {
    let contents = b"background".to_vec();
    let h = golden_updater::hash::Hash::of_bytes(&contents).unwrap();
    let m = Manifest::try_from(format!("{}  images/bg.png", h.as_str())).unwrap();
    let local = vec![LocalFile::observe(true, Ok(contents))];
    let out = compare_files(&m, &local);
    assert!(out.is_empty());

    let (mut p, _) = Progress::boot();
    p.update(Message::Checked(Ok((full_release(), m))));
    let cmd = p.update(Message::Compared(out));
    assert_eq!(cmd, Command::Idle);
    assert!(matches!(p.status, Status::Finished));
}

#[test]
fn changed_file_diverges_then_update_rechecks() {
    let m = bg_manifest('a');
    let local = vec![LocalFile::observe(true, Ok(b"other".to_vec()))];
    let out = compare_files(&m, &local);
    assert_eq!(out, vec!["images/bg.png".to_string()]);

    let mut p = comparing(full_release());
    let cmd = p.update(Message::Compared(out));
    assert_eq!(cmd, Command::Download("https://host/pkg.zip".to_string()));
    assert!(matches!(&p.status, Status::Updating(v) if v.len() == 1));
    let cmd = p.update(Message::Updated(Ok(())));
    assert_eq!(cmd, Command::Check);
    assert!(matches!(p.status, Status::Checking));
}

#[test]
fn unreadable_file_diverges() {
    let m = bg_manifest('a');
    let local = vec![LocalFile::observe(true, Err(Error::FileReadError))];
    assert!(matches!(local[0], LocalFile::Unreadable));
    assert_eq!(compare_files(&m, &local), vec!["images/bg.png".to_string()]);
    assert!(matches!(LocalFile::observe(false, Ok(vec![])), LocalFile::Missing));
}

#[test]
fn divergence_keeps_manifest_order() {
    let h = golden_updater::hash::Hash::of_bytes(b"ok").unwrap();
    let text = format!("{}  z\n{}  a\n{}  m", digest('1'), h.as_str(), digest('2'));
    let m = Manifest::try_from(text).unwrap();
    let local = vec![
        LocalFile::Missing,
        LocalFile::observe(true, Ok(b"ok".to_vec())),
        LocalFile::Unreadable,
    ];
    let first = compare_files(&m, &local);
    assert_eq!(first, vec!["z".to_string(), "m".to_string()]);
    assert_eq!(compare_files(&m, &local), first);
}

#[test]
fn no_manifest_asset_fails_checking() {
    let rel = release(vec![asset("golden-forgery.zip", "application/zip", "u")]);
    assert_eq!(rel.manifest_url(), Err(Error::ManifestNotFound));
    let (mut p, _) = Progress::boot();
    let cmd = p.update(Message::Checked(Err(rel.manifest_url().unwrap_err())));
    assert_eq!(cmd, Command::Idle);
    match &p.status {
        Status::Error(m) => assert_eq!(m, "Could not find manifest file in latest release"),
        _ => panic!("expected an error state"),
    }
    assert_eq!(p.status.label(), "Error: Could not find manifest file in latest release");
}

#[test]
fn manifest_asset_name_is_case_insensitive_and_first_wins() {
    let rel = release(vec![
        asset("manifest.txt", "text/plain", "u0"),
        asset("MANIFEST", "text/plain", "u1"),
        asset("manifest", "text/plain", "u2"),
    ]);
    assert_eq!(rel.manifest_url(), Ok("u1".to_string()));
}

#[test]
fn zip_with_wrong_content_type_is_not_the_package() {
    let rel = release(vec![
        asset("manifest", "text/plain", "m"),
        asset("golden-forgery.zip", "application/x-zip-compressed", "z"),
    ]);
    assert_eq!(rel.package_url(), Err(Error::ReleaseZipNotFound));
    let mut p = comparing(rel);
    let cmd = p.update(Message::Compared(vec!["images/bg.png".to_string()]));
    assert_eq!(cmd, Command::Idle);
    match &p.status {
        Status::Error(m) => assert_eq!(m, &Error::ReleaseZipNotFound.message()),
        _ => panic!("expected an error state"),
    }
}

#[test]
fn package_name_must_start_with_product_name() {
    let rel = release(vec![
        asset("other-golden-forgery.zip", "application/zip", "a"),
        asset("golden-forgery-win.zip", "application/zip", "b"),
        asset("golden-forgery-linux.zip", "application/zip", "c"),
    ]);
    assert_eq!(rel.package_url(), Ok("b".to_string()));
}

#[test]
fn failed_update_stops_the_cycle() {
    let mut p = comparing(full_release());
    p.update(Message::Compared(vec!["x".to_string()]));
    let cmd = p.update(Message::Updated(Err(Error::TmpDirCreateFail)));
    assert_eq!(cmd, Command::Idle);
    assert_eq!(p.status.label(), "Error: Could not create temporary directory");
}

#[test]
fn terminal_and_stray_messages_change_nothing() {
    let (mut p, _) = Progress::boot();
    assert_eq!(p.update(Message::Compared(vec![])), Command::Idle);
    assert_eq!(p.update(Message::Updated(Ok(()))), Command::Idle);
    assert!(matches!(p.status, Status::Checking));
    let mut p = comparing(full_release());
    p.update(Message::Compared(vec![]));
    assert!(matches!(p.status, Status::Finished));
    assert_eq!(p.update(Message::Checked(Err(Error::RequestError))), Command::Idle);
    assert_eq!(p.update(Message::Updated(Ok(()))), Command::Idle);
    assert!(matches!(p.status, Status::Finished));
}

#[test]
fn labels_of_each_state() {
    let (p, _) = Progress::boot();
    assert_eq!(p.status.label(), "Checking for updates. Please wait.");
    let p = comparing(full_release());
    assert_eq!(p.status.label(), "Checking local files");
    let mut p = comparing(full_release());
    let paths: Vec<String> = (0..12).map(|i| format!("f{i}")).collect();
    p.update(Message::Compared(paths));
    assert_eq!(p.status.label(), "12 files failed to validate. Updating...");
    assert_eq!(Status::Finished.label(), "Updated! Launching Umineko: Golden Forgery");
}
