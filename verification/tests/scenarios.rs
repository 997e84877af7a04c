use std::collections::BTreeMap;
use std::io::Read;

use harmonic::action::base::fetch_and_unpack_nix::{
    FetchAndUnpackNix, FetchUrlError, Payload, Planning, Reply, Request, Step,
};
use harmonic::action::{Action, ActionError, ActionErrorKind, CustomError, HostFailure};
use harmonic::distribution::Distribution;
use harmonic::settings::UrlOrPath;
use harmonic::util::OnMissing;

/// An archive of two files, `nix/bin/nix` and `nix/README`, as a tar stream
/// compressed with xz.
const ARCHIVE: &[u8] = &[
    0xfd, 0x37, 0x7a, 0x58, 0x5a, 0x00, 0x00, 0x04, 0xe6, 0xd6, 0xb4, 0x46, 0x02, 0x00, 0x21, 0x01,
    0x1c, 0x00, 0x00, 0x00, 0x10, 0xcf, 0x58, 0xcc, 0xe0, 0x27, 0xff, 0x00, 0x96, 0x5d, 0x00, 0x37,
    0x1a, 0x4b, 0x73, 0x1f, 0x56, 0xa4, 0x1a, 0x5c, 0xa3, 0x89, 0x6a, 0xd8, 0xf2, 0xd3, 0x64, 0x51,
    0x96, 0xfc, 0xcb, 0xc2, 0x30, 0x25, 0x0d, 0xcd, 0xba, 0x8c, 0xd8, 0x4e, 0xa1, 0x47, 0xd5, 0xb1,
    0xdb, 0xb9, 0x18, 0x04, 0x1e, 0x05, 0xe3, 0x4d, 0xde, 0x1f, 0x26, 0x1b, 0xcb, 0xd9, 0x8b, 0xb6,
    0x79, 0x15, 0x6d, 0x97, 0x81, 0x98, 0xba, 0x7f, 0xcb, 0xe6, 0xc7, 0x6a, 0x9b, 0xb5, 0x24, 0x04,
    0xb6, 0xb8, 0x96, 0x32, 0x19, 0x91, 0x69, 0xf1, 0xe0, 0x67, 0x5c, 0x86, 0xa4, 0xda, 0xaf, 0x74,
    0xa4, 0xa4, 0x9c, 0x4d, 0x65, 0xcf, 0x7f, 0xb9, 0x8b, 0x16, 0x10, 0xfe, 0x2d, 0xa8, 0xfb, 0xcf,
    0x2c, 0xd9, 0x92, 0x3c, 0x30, 0x00, 0xa3, 0x67, 0xae, 0x30, 0x84, 0x40, 0xb0, 0xa3, 0x6f, 0x57,
    0x2e, 0x34, 0x7f, 0x12, 0xbf, 0xd5, 0xab, 0x62, 0x2a, 0xaa, 0xcb, 0xa1, 0x0e, 0x72, 0xfb, 0x92,
    0xfb, 0x6b, 0xf6, 0xe9, 0x91, 0x1d, 0xdc, 0x6a, 0x4f, 0x45, 0x17, 0x63, 0xf4, 0x9b, 0xa5, 0x06,
    0x94, 0xd1, 0x95, 0x5e, 0x00, 0x00, 0x00, 0x00, 0x38, 0xee, 0xbb, 0xbe, 0xd8, 0xe5, 0x51, 0x6c,
    0x00, 0x01, 0xb2, 0x01, 0x80, 0x50, 0x00, 0x00, 0x98, 0xd7, 0xd2, 0x28, 0xb1, 0xc4, 0x67, 0xfb,
    0x02, 0x00, 0x00, 0x00, 0x00, 0x04, 0x59, 0x5a,
];

/// A host that keeps its files in memory, and decompresses and reads archives
/// as the real one does.
struct Host {
    files: BTreeMap<String, Vec<u8>>,
    asked: Vec<&'static str>,
}

impl Host {
    fn new() -> Host {
        Host { files: BTreeMap::new(), asked: Vec::new() }
    }

    fn with(mut self, path: &str, contents: &[u8]) -> Host {
        self.files.insert(path.to_string(), contents.to_vec());
        self
    }

    fn below(&self, dir: &str) -> Vec<String> {
        let prefix = format!("{}/", dir);
        self.files.keys().filter(|path| path.starts_with(&prefix)).cloned().collect()
    }

    fn unpack(&mut self, payload: &[u8], dest: &str) -> std::io::Result<()> {
        let mut archive = tar::Archive::new(xz2::read::XzDecoder::new(payload));
        for entry in archive.entries()? {
            let mut entry = entry?;
            let path = format!("{}/{}", dest, entry.path()?.display());
            let mut contents = Vec::new();
            entry.read_to_end(&mut contents)?;
            self.files.insert(path, contents);
        }
        Ok(())
    }

    fn perform(&mut self, request: Request) -> Reply {
        match request {
            Request::Download { .. } => {
                self.asked.push("download");
                Reply::Downloaded(Ok(ARCHIVE.to_vec()))
            },
            Request::ReadFile { path } => {
                self.asked.push("read");
                Reply::Read(self.files.get(&path).cloned().ok_or(HostFailure {
                    message: format!("{}: no such file", path),
                }))
            },
            Request::ProbePath { path } => {
                self.asked.push("probe");
                Reply::Probed(self.files.contains_key(&path) || !self.below(&path).is_empty())
            },
            Request::RemoveTree { path, on_missing } => {
                self.asked.push("remove");
                let doomed = self.below(&path);
                if doomed.is_empty() && on_missing == OnMissing::Error {
                    return Reply::Removed(Err(HostFailure {
                        message: format!("{}: nothing to remove", path),
                    }));
                }
                for file in doomed {
                    self.files.remove(&file);
                }
                Reply::Removed(Ok(()))
            },
            Request::Unpack { payload, dest, .. } => {
                self.asked.push("unpack");
                let bytes = match &payload {
                    Payload::Embedded(bytes) => bytes.to_vec(),
                    Payload::Fetched(bytes) => bytes.clone(),
                };
                Reply::Unpacked(
                    self.unpack(&bytes, &dest)
                        .map_err(|error| HostFailure { message: error.to_string() }),
                )
            },
        }
    }
}

fn run(action: &FetchAndUnpackNix, host: &mut Host) -> Result<(), ActionError> {
    let (mut stage, mut step) = action.execute();
    loop {
        match step {
            Step::Perform(request) => {
                let reply = host.perform(request);
                (stage, step) = action.resume(stage, reply);
            },
            Step::Done(outcome) => return outcome,
            Step::Ignored => panic!("the host replied to what was not asked"),
        }
    }
}

fn planned(distribution: Distribution, url_or_path: Option<UrlOrPath>) -> FetchAndUnpackNix {
    let planning =
        FetchAndUnpackNix::plan(distribution, url_or_path, "/nix/dest".to_string(), None, None)
            .unwrap();
    match planning {
        Planning::Planned(stateful) => stateful.into_inner(),
        other => panic!("nothing was left to check, yet: {:?}", other),
    }
}

fn embedded() -> Distribution {
    Distribution::Embedded { from: "the release of May".to_string(), payload: ARCHIVE }
}

fn archive_alone() -> Vec<String> {
    vec!["/nix/dest/nix/README".to_string(), "/nix/dest/nix/bin/nix".to_string()]
}

#[test]
fn an_embedded_payload_populates_an_absent_destination() {
    let action = planned(embedded(), None);
    assert!(action.tracing_synopsis().contains("the release of May"));
    let mut host = Host::new();
    run(&action, &mut host).unwrap();
    assert_eq!(host.asked, vec!["probe", "unpack"]);
    assert_eq!(host.below("/nix/dest"), archive_alone());
    assert_eq!(host.files["/nix/dest/nix/README"], b"bundled\n".to_vec());
    assert_eq!(host.files["/nix/dest/nix/bin/nix"], b"#!/bin/sh\necho nix\n".to_vec());
}

#[test]
fn a_leftover_file_is_gone_after_execute() {
    let action = planned(embedded(), None);
    let mut host = Host::new()
        .with("/nix/dest/leftover.txt", b"from an install that failed")
        .with("/nix/dest/nix/bin/old", b"stale")
        .with("/nix/other/kept.txt", b"not ours");
    run(&action, &mut host).unwrap();
    assert_eq!(host.asked, vec!["probe", "remove", "unpack"]);
    assert!(!host.files.contains_key("/nix/dest/leftover.txt"));
    assert_eq!(host.below("/nix/dest"), archive_alone());
    assert_eq!(host.files["/nix/other/kept.txt"], b"not ours".to_vec());
}

#[test]
fn executing_twice_overwrites_rather_than_adds() {
    let action = planned(embedded(), None);
    let mut host = Host::new();
    run(&action, &mut host).unwrap();
    run(&action, &mut host).unwrap();
    assert_eq!(host.asked, vec!["probe", "unpack", "probe", "remove", "unpack"]);
    assert_eq!(host.below("/nix/dest"), archive_alone());
}

#[test]
fn a_file_that_is_read_is_unpacked() {
    let location = UrlOrPath::Path("/tmp/nix.tar.xz".to_string());
    let action = planned(Distribution::Remote { location }, None);
    let mut host = Host::new().with("/tmp/nix.tar.xz", ARCHIVE);
    run(&action, &mut host).unwrap();
    assert_eq!(host.asked, vec!["read", "probe", "unpack"]);
    assert_eq!(host.below("/nix/dest"), archive_alone());
}

#[test]
fn a_file_that_is_missing_fails_before_the_destination_is_touched() {
    let location = UrlOrPath::Path("/tmp/nix.tar.xz".to_string());
    let action = planned(Distribution::Remote { location }, None);
    let mut host = Host::new().with("/nix/dest/leftover.txt", b"still here");
    let error = run(&action, &mut host).unwrap_err();
    assert!(matches!(error.kind(), ActionErrorKind::Read(path, _) if path == "/tmp/nix.tar.xz"));
    assert_eq!(host.asked, vec!["read"]);
    assert!(host.files.contains_key("/nix/dest/leftover.txt"));
}

#[test]
fn bytes_that_are_no_archive_fail_as_unarchiving() {
    let location = UrlOrPath::Path("/tmp/nix.tar.xz".to_string());
    let action = planned(Distribution::Remote { location }, None);
    let mut host = Host::new().with("/tmp/nix.tar.xz", b"this is not xz");
    let error = run(&action, &mut host).unwrap_err();
    assert!(matches!(
        error.kind(),
        ActionErrorKind::Custom(CustomError::FetchUrl(FetchUrlError::Unarchive(_)))
    ));
    assert_eq!(host.asked, vec!["read", "probe", "unpack"]);
    assert!(host.below("/nix/dest").is_empty());
}
