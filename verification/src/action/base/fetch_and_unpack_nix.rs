//! Fetching an archive and unpacking it into a directory.
//!
//! The action is planned from what the operator configured, and planning
//! rejects what can be seen to be wrong without touching the host. Executing
//! is a conversation: the action says what the host is to do next, the host
//! does it and replies, until the action says that it is done.

use vstd::prelude::*;
use crate::action::stateful::{ActionState, StatefulAction};
use crate::action::{
    Action, ActionDescription, ActionError, ActionErrorKind, ActionTag, CustomError, HostFailure,
    TraceContext, TraceField, TraceLevel,
};
use crate::distribution::{Distribution, TarballLocation};
use crate::settings::{Url, UrlOrPath};
use crate::util::OnMissing;

verus! {

/// What can go wrong with fetching and unpacking, beyond what every action
/// can report.
#[non_exhaustive]
#[derive(Debug)]
pub enum FetchUrlError {
    /// The archive could not be decompressed or unpacked.
    Unarchive(HostFailure),
    /// The proxy's URL names a scheme that no proxy is spoken to with.
    UnknownProxyScheme,
}

impl FetchUrlError {
    /// What `message` returns for this error.
    pub open spec fn message_text(self) -> Seq<char> {
        match self {
            FetchUrlError::Unarchive(_) => "Unarchiving error"@,
            FetchUrlError::UnknownProxyScheme =>
                "Unknown proxy scheme, `https://`, `socks5://`, and `http://` supported"@,
        }
    }

    /// The error in words.
    pub fn message(&self) -> (text: String)
        ensures
            text@ == self.message_text(),
    {
        match self {
            FetchUrlError::Unarchive(_) => String::from_str("Unarchiving error"),
            FetchUrlError::UnknownProxyScheme => String::from_str(
                "Unknown proxy scheme, `https://`, `socks5://`, and `http://` supported",
            ),
        }
    }
}

impl From<FetchUrlError> for ActionErrorKind {
    fn from(val: FetchUrlError) -> (kind: ActionErrorKind) {
        ActionErrorKind::Custom(CustomError::FetchUrl(val))
    }
}

impl vstd::std_specs::convert::FromSpecImpl<FetchUrlError> for ActionErrorKind {
    open spec fn obeys_from_spec() -> bool {
        true
    }

    open spec fn from_spec(val: FetchUrlError) -> ActionErrorKind {
        ActionErrorKind::Custom(CustomError::FetchUrl(val))
    }
}

/// What a fetch-and-unpack action is planned from.
#[derive(Debug)]
pub struct FetchSettings {
    /// What is installed, and whether its archive is at hand already.
    pub distribution: Distribution,
    /// Where the operator wants the archive taken from, if anywhere.
    pub url_or_path: Option<UrlOrPath>,
    /// The directory that the archive is unpacked into.
    pub dest: String,
    /// The proxy through which to fetch, if any.
    pub proxy: Option<Url>,
    /// A file with one more root certificate to trust, if any.
    pub ssl_cert_file: Option<String>,
}

/// The schemes of a URL that an archive can be fetched from.
pub open spec fn url_scheme_supported(scheme: Seq<char>) -> bool {
    scheme == "https"@ || scheme == "http"@ || scheme == "file"@
}

/// The schemes of a URL that names a proxy.
pub open spec fn proxy_scheme_supported(scheme: Seq<char>) -> bool {
    scheme == "https"@ || scheme == "http"@ || scheme == "socks5"@
}

/// A bare path is always accepted, and so is no location at all; a URL is
/// accepted by its scheme.
pub open spec fn locator_accepted(url_or_path: Option<UrlOrPath>) -> bool {
    url_or_path matches Some(UrlOrPath::Url(url)) ==> url_scheme_supported(url.scheme@)
}

/// No proxy is always accepted; a proxy is accepted by its scheme.
pub open spec fn proxy_accepted(proxy: Option<Url>) -> bool {
    proxy matches Some(url) ==> proxy_scheme_supported(url.scheme@)
}

/// Both locations pass: the operator's, whether or not it will be used, and
/// the one that the archive will be fetched from. Embedded bytes are fetched
/// from nowhere, so that with them only the operator's location is judged.
pub open spec fn locators_accepted(
    distribution: Distribution,
    url_or_path: Option<UrlOrPath>,
) -> bool {
    &&& locator_accepted(url_or_path)
    &&& distribution.location_or(url_or_path) matches TarballLocation::UrlOrPath(
        UrlOrPath::Url(url),
    ) ==> url_scheme_supported(url.scheme@)
}

/// Everything that can be judged without touching the host passes: the
/// locations and the proxy.
pub open spec fn accepted(settings: FetchSettings) -> bool {
    &&& locators_accepted(settings.distribution, settings.url_or_path)
    &&& proxy_accepted(settings.proxy)
}

/// The tag of this action.
pub open spec fn fetch_tag() -> ActionTag {
    ActionTag("fetch_and_unpack_nix")
}

/// An error of this action with the given kind.
pub open spec fn fetch_error(kind: ActionErrorKind) -> ActionError {
    ActionError { action_tag: fetch_tag(), kind }
}

/// Fetch an archive and unpack it into a directory.
#[derive(Debug)]
pub struct FetchAndUnpackNix {
    settings: FetchSettings,
}

impl View for FetchAndUnpackNix {
    type V = FetchSettings;

    /// What the action was planned from.
    closed spec fn view(&self) -> FetchSettings {
        self.settings
    }
}

impl FetchAndUnpackNix {
    /// No action exists but of settings that planning accepted.
    #[verifier::type_invariant]
    spec fn planned(self) -> bool {
        accepted(self.settings)
    }
}

/// How far planning got without touching the host.
#[derive(Debug)]
pub enum Planning {
    /// Nothing is left to check: this is the action.
    Planned(StatefulAction<FetchAndUnpackNix>),
    /// The certificate file is still to be read and parsed by the host.
    AwaitingCertificate(CertificateCheck),
}

/// A plan that lacks only the host's word on the certificate file.
#[derive(Debug)]
pub struct CertificateCheck {
    settings: FetchSettings,
}

impl View for CertificateCheck {
    type V = FetchSettings;

    /// What the action is being planned from.
    closed spec fn view(&self) -> FetchSettings {
        self.settings
    }
}

impl CertificateCheck {
    /// All but the certificate file has been judged and has passed.
    #[verifier::type_invariant]
    spec fn checked(self) -> bool {
        accepted(self.settings)
    }

    /// The file that the host is to read and parse as a certificate.
    pub fn ssl_cert_file(&self) -> (path: Option<&String>)
        ensures
            match path {
                Some(file) => self@.ssl_cert_file == Some(*file),
                None => self@.ssl_cert_file is None,
            },
    {
        self.settings.ssl_cert_file.as_ref()
    }

    /// Ends planning with what the host found of the certificate file: the
    /// action, not yet carried out, if the file holds a usable certificate,
    /// and else the host's failure as this action's error.
    pub fn resolve(self, parsed: Result<(), HostFailure>) -> (planned: Result<
        StatefulAction<FetchAndUnpackNix>,
        ActionError,
    >)
        ensures
            match parsed {
                Ok(()) => planned matches Ok(stateful) && stateful.action()@ == self@
                    && stateful.flag() == ActionState::Uncompleted,
                Err(failure) => planned == Err::<StatefulAction<FetchAndUnpackNix>, ActionError>(
                    fetch_error(ActionErrorKind::Custom(CustomError::Certificate(failure))),
                ),
            },
    {
        proof {
            use_type_invariant(&self);
        }
        match parsed {
            Ok(()) => Ok(StatefulAction::uncompleted(FetchAndUnpackNix { settings: self.settings })),
            Err(failure) => Err(
                FetchAndUnpackNix::error(
                    ActionErrorKind::Custom(CustomError::Certificate(failure)),
                ),
            ),
        }
    }
}

impl FetchAndUnpackNix {
    /// An error of this action with the given kind.
    pub fn error(kind: ActionErrorKind) -> (error: ActionError)
        ensures
            error == fetch_error(kind),
    {
        ActionError::new(ActionTag("fetch_and_unpack_nix"), kind)
    }

    /// Checks what can be checked without touching the host: the operator's
    /// location, then the distribution's own where that is the one to fetch
    /// from, then the proxy.
    fn validate(
        distribution: &Distribution,
        url_or_path: &Option<UrlOrPath>,
        proxy: &Option<Url>,
    ) -> (checked: Result<(), ActionError>)
        ensures
            !locators_accepted(*distribution, *url_or_path) ==> checked == Err::<(), ActionError>(
                fetch_error(ActionErrorKind::UnknownUrlScheme),
            ),
            locators_accepted(*distribution, *url_or_path) && !proxy_accepted(*proxy) ==> checked
                == Err::<(), ActionError>(
                fetch_error(
                    ActionErrorKind::Custom(
                        CustomError::FetchUrl(FetchUrlError::UnknownProxyScheme),
                    ),
                ),
            ),
            locators_accepted(*distribution, *url_or_path) && proxy_accepted(*proxy)
                ==> checked is Ok,
    {
        if let Some(UrlOrPath::Url(url)) = url_or_path {
            if !Self::fetches_from(url) {
                return Err(Self::error(ActionErrorKind::UnknownUrlScheme));
            }
        }
        if let Distribution::Remote { location: UrlOrPath::Url(url) } = distribution {
            if url_or_path.is_none() && !Self::fetches_from(url) {
                return Err(Self::error(ActionErrorKind::UnknownUrlScheme));
            }
        }
        if let Some(proxy) = proxy {
            if !(proxy.has_scheme("https") || proxy.has_scheme("http") || proxy.has_scheme(
                "socks5",
            )) {
                return Err(Self::error(ActionErrorKind::from(FetchUrlError::UnknownProxyScheme)));
            }
        }
        Ok(())
    }

    /// Whether an archive can be fetched from a URL of this scheme.
    fn fetches_from(url: &Url) -> (supported: bool)
        ensures
            supported == url_scheme_supported(url.scheme@),
    {
        url.has_scheme("https") || url.has_scheme("http") || url.has_scheme("file")
    }

    /// Plans the action, as far as that goes without touching the host.
    ///
    /// A location that is a URL must have one of the schemes `https`, `http`
    /// and `file`: the operator's, and the distribution's own where the
    /// archive will be fetched from there. A proxy must have one of `https`,
    /// `http` and `socks5`. The locations are looked at first. What passes is
    /// planned at once where no certificate file is configured, and else
    /// awaits the host's word on that file.
    pub fn plan(
        distribution: Distribution,
        url_or_path: Option<UrlOrPath>,
        dest: String,
        proxy: Option<Url>,
        ssl_cert_file: Option<String>,
    ) -> (planning: Result<Planning, ActionError>)
        ensures
            !locators_accepted(distribution, url_or_path) ==> planning == Err::<
                Planning,
                ActionError,
            >(fetch_error(ActionErrorKind::UnknownUrlScheme)),
            locators_accepted(distribution, url_or_path) && !proxy_accepted(proxy) ==> planning
                == Err::<Planning, ActionError>(
                fetch_error(
                    ActionErrorKind::Custom(
                        CustomError::FetchUrl(FetchUrlError::UnknownProxyScheme),
                    ),
                ),
            ),
            locators_accepted(distribution, url_or_path) && proxy_accepted(proxy) ==> {
                let settings = FetchSettings { distribution, url_or_path, dest, proxy, ssl_cert_file };
                match ssl_cert_file {
                    None => planning matches Ok(Planning::Planned(stateful))
                        && stateful.action()@ == settings
                        && stateful.flag() == ActionState::Uncompleted,
                    Some(_) => planning matches Ok(Planning::AwaitingCertificate(check))
                        && check@ == settings,
                }
            },
    {
        match Self::validate(&distribution, &url_or_path, &proxy) {
            Err(error) => Err(error),
            Ok(_) => {
                let awaits_certificate = ssl_cert_file.is_some();
                let settings = FetchSettings { distribution, url_or_path, dest, proxy, ssl_cert_file };
                if awaits_certificate {
                    Ok(Planning::AwaitingCertificate(CertificateCheck { settings }))
                } else {
                    Ok(
                        Planning::Planned(
                            StatefulAction::uncompleted(FetchAndUnpackNix { settings }),
                        ),
                    )
                }
            },
        }
    }

    /// Takes up an action of a stored plan. The locations and the proxy are
    /// checked as `plan` checks them; the certificate file is not looked at
    /// again.
    pub fn restore(settings: FetchSettings) -> (restored: Result<FetchAndUnpackNix, ActionError>)
        ensures
            !locators_accepted(settings.distribution, settings.url_or_path) ==> restored == Err::<
                FetchAndUnpackNix,
                ActionError,
            >(fetch_error(ActionErrorKind::UnknownUrlScheme)),
            locators_accepted(settings.distribution, settings.url_or_path) && !proxy_accepted(
                settings.proxy,
            ) ==> restored == Err::<FetchAndUnpackNix, ActionError>(
                fetch_error(
                    ActionErrorKind::Custom(
                        CustomError::FetchUrl(FetchUrlError::UnknownProxyScheme),
                    ),
                ),
            ),
            accepted(settings) ==> (restored matches Ok(action) && action@ == settings),
    {
        match Self::validate(&settings.distribution, &settings.url_or_path, &settings.proxy) {
            Err(error) => Err(error),
            Ok(_) => Ok(FetchAndUnpackNix { settings }),
        }
    }

    /// What the action was planned from.
    pub fn settings(&self) -> (settings: &FetchSettings)
        ensures
            *settings == self@,
            accepted(*settings),
    {
        proof {
            use_type_invariant(self);
        }
        &self.settings
    }
}

/// The bytes of an archive.
#[derive(Debug)]
pub enum Payload {
    /// Bytes that came with the installer.
    Embedded(&'static [u8]),
    /// Bytes that the host fetched.
    Fetched(Vec<u8>),
}

/// What the host is asked to do.
#[derive(Debug)]
pub enum Request {
    /// GET the URL, through the proxy where there is one, trusting the
    /// certificate in the file besides the system's own where there is one.
    Download { url: Url, proxy: Option<Url>, ssl_cert_file: Option<String> },
    /// Read the file at the path.
    ReadFile { path: String },
    /// Say whether anything is at the path.
    ProbePath { path: String },
    /// Remove the tree at the path.
    RemoveTree { path: String, on_missing: OnMissing },
    /// Decompress the payload and unpack the archive in it into `dest`.
    Unpack {
        payload: Payload,
        dest: String,
        preserve_permissions: bool,
        preserve_mtime: bool,
        unpack_xattrs: bool,
    },
}

/// Why a download brought no bytes.
#[derive(Debug)]
pub enum DownloadFailure {
    /// The certificate file could not be read or parsed.
    Certificate(HostFailure),
    /// Connecting, TLS or HTTP failed.
    Transport(HostFailure),
}

/// What the host did, in answer to a request.
#[derive(Debug)]
pub enum Reply {
    Downloaded(Result<Vec<u8>, DownloadFailure>),
    Read(Result<Vec<u8>, HostFailure>),
    Probed(bool),
    Removed(Result<(), HostFailure>),
    Unpacked(Result<(), HostFailure>),
}

/// Where an execution stands: which reply it is waiting for.
#[derive(Debug)]
pub enum Stage {
    /// A download was requested.
    Downloading,
    /// The file at `path` was requested.
    Reading { path: String },
    /// The bytes are at hand; the host was asked whether the destination
    /// exists.
    Probing { payload: Payload },
    /// The destination exists; its removal was requested.
    Clearing { payload: Payload },
    /// Nothing is at the destination; unpacking was requested.
    Unpacking,
    /// The execution has ended.
    Finished,
}

/// What an execution says after each reply.
#[derive(Debug)]
pub enum Step {
    /// The host is to do this and to reply.
    Perform(Request),
    /// The reply answers nothing that was asked; nothing has changed.
    Ignored,
    /// The execution has ended, like this.
    Done(Result<(), ActionError>),
}

/// The request to say whether the destination exists.
pub open spec fn probe_request(settings: FetchSettings) -> Request {
    Request::ProbePath { path: settings.dest }
}

/// The request to remove the destination; that it is gone already is no
/// failure.
pub open spec fn clear_request(settings: FetchSettings) -> Request {
    Request::RemoveTree { path: settings.dest, on_missing: OnMissing::Ignore }
}

/// The request to unpack into the destination, restoring permissions,
/// modification times and extended attributes as the archive records them.
pub open spec fn unpack_request(settings: FetchSettings, payload: Payload) -> Request {
    Request::Unpack {
        payload,
        dest: settings.dest,
        preserve_permissions: true,
        preserve_mtime: true,
        unpack_xattrs: true,
    }
}

/// How an execution begins. Embedded bytes are used as they are. A URL with
/// the scheme `https` or `http` is downloaded, one with the scheme `file` has
/// its path read, and any other fails at once. A bare path is read.
pub open spec fn first_step(settings: FetchSettings) -> (Stage, Step) {
    match settings.distribution.location_or(settings.url_or_path) {
        TarballLocation::InMemory(_, bytes) => (
            Stage::Probing { payload: Payload::Embedded(bytes) },
            Step::Perform(probe_request(settings)),
        ),
        TarballLocation::UrlOrPath(UrlOrPath::Url(url)) => {
            if url.scheme@ == "https"@ || url.scheme@ == "http"@ {
                (
                    Stage::Downloading,
                    Step::Perform(
                        Request::Download {
                            url,
                            proxy: settings.proxy,
                            ssl_cert_file: settings.ssl_cert_file,
                        },
                    ),
                )
            } else if url.scheme@ == "file"@ {
                (Stage::Reading { path: url.path }, Step::Perform(Request::ReadFile { path: url.path }))
            } else {
                (Stage::Finished, Step::Done(Err(fetch_error(ActionErrorKind::UnknownUrlScheme))))
            }
        },
        TarballLocation::UrlOrPath(UrlOrPath::Path(path)) => (
            Stage::Reading { path },
            Step::Perform(Request::ReadFile { path }),
        ),
    }
}

/// How an execution goes on after a reply.
///
/// Once the bytes are at hand the destination is probed. A destination that
/// exists is removed before anything is unpacked into it. Each failure of the
/// host ends the execution with the error kind of the request that failed. A
/// reply that does not answer the request that is open is ignored.
pub open spec fn next_step(settings: FetchSettings, stage: Stage, reply: Reply) -> (Stage, Step) {
    match (stage, reply) {
        (Stage::Downloading, Reply::Downloaded(Ok(bytes))) => (
            Stage::Probing { payload: Payload::Fetched(bytes) },
            Step::Perform(probe_request(settings)),
        ),
        (Stage::Downloading, Reply::Downloaded(Err(DownloadFailure::Certificate(failure)))) => (
            Stage::Finished,
            Step::Done(
                Err(fetch_error(ActionErrorKind::Custom(CustomError::Certificate(failure)))),
            ),
        ),
        (Stage::Downloading, Reply::Downloaded(Err(DownloadFailure::Transport(failure)))) => (
            Stage::Finished,
            Step::Done(Err(fetch_error(ActionErrorKind::Reqwest(failure)))),
        ),
        (Stage::Reading { path }, Reply::Read(Ok(bytes))) => (
            Stage::Probing { payload: Payload::Fetched(bytes) },
            Step::Perform(probe_request(settings)),
        ),
        (Stage::Reading { path }, Reply::Read(Err(failure))) => (
            Stage::Finished,
            Step::Done(Err(fetch_error(ActionErrorKind::Read(path, failure)))),
        ),
        (Stage::Probing { payload }, Reply::Probed(true)) => (
            Stage::Clearing { payload },
            Step::Perform(clear_request(settings)),
        ),
        (Stage::Probing { payload }, Reply::Probed(false)) => (
            Stage::Unpacking,
            Step::Perform(unpack_request(settings, payload)),
        ),
        (Stage::Clearing { payload }, Reply::Removed(Ok(()))) => (
            Stage::Unpacking,
            Step::Perform(unpack_request(settings, payload)),
        ),
        (Stage::Clearing { payload }, Reply::Removed(Err(failure))) => (
            Stage::Finished,
            Step::Done(Err(fetch_error(ActionErrorKind::Remove(settings.dest, failure)))),
        ),
        (Stage::Unpacking, Reply::Unpacked(Ok(()))) => (Stage::Finished, Step::Done(Ok(()))),
        (Stage::Unpacking, Reply::Unpacked(Err(failure))) => (
            Stage::Finished,
            Step::Done(
                Err(
                    fetch_error(
                        ActionErrorKind::Custom(
                            CustomError::FetchUrl(FetchUrlError::Unarchive(failure)),
                        ),
                    ),
                ),
            ),
        ),
        (waiting, _) => (waiting, Step::Ignored),
    }
}

impl FetchAndUnpackNix {
    fn probe(&self) -> (request: Request)
        ensures
            request == probe_request(self@),
    {
        Request::ProbePath { path: self.settings.dest.clone() }
    }

    fn clear(&self) -> (request: Request)
        ensures
            request == clear_request(self@),
    {
        Request::RemoveTree { path: self.settings.dest.clone(), on_missing: OnMissing::Ignore }
    }

    fn unpack(&self, payload: Payload) -> (request: Request)
        ensures
            request == unpack_request(self@, payload),
    {
        Request::Unpack {
            payload,
            dest: self.settings.dest.clone(),
            preserve_permissions: true,
            preserve_mtime: true,
            unpack_xattrs: true,
        }
    }

    /// Begins an execution: says what the host is to do first, and which
    /// reply the execution then waits for. There is always something to do
    /// first: the scheme of the location was judged when the action was
    /// planned.
    pub fn execute(&self) -> (begun: (Stage, Step))
        ensures
            begun == first_step(self@),
            begun.1 is Perform,
    {
        proof {
            use_type_invariant(self);
        }
        match self.settings.distribution.tarball_location_or(&self.settings.url_or_path) {
            TarballLocation::InMemory(_, bytes) => (
                Stage::Probing { payload: Payload::Embedded(bytes) },
                Step::Perform(self.probe()),
            ),
            TarballLocation::UrlOrPath(UrlOrPath::Url(url)) => {
                if url.has_scheme("https") || url.has_scheme("http") {
                    let proxy = match &self.settings.proxy {
                        Some(proxy) => Some(proxy.clone()),
                        None => None,
                    };
                    let ssl_cert_file = match &self.settings.ssl_cert_file {
                        Some(file) => Some(file.clone()),
                        None => None,
                    };
                    (Stage::Downloading, Step::Perform(Request::Download { url, proxy, ssl_cert_file }))
                } else if url.has_scheme("file") {
                    let path = url.path.clone();
                    (Stage::Reading { path: url.path }, Step::Perform(Request::ReadFile { path }))
                } else {
                    (Stage::Finished, Step::Done(Err(Self::error(ActionErrorKind::UnknownUrlScheme))))
                }
            },
            TarballLocation::UrlOrPath(UrlOrPath::Path(path)) => {
                let asked = path.clone();
                (Stage::Reading { path }, Step::Perform(Request::ReadFile { path: asked }))
            },
        }
    }

    /// Takes the host's reply and says how the execution goes on.
    pub fn resume(&self, stage: Stage, reply: Reply) -> (next: (Stage, Step))
        ensures
            next == next_step(self@, stage, reply),
    {
        match (stage, reply) {
            (Stage::Downloading, Reply::Downloaded(Ok(bytes))) => (
                Stage::Probing { payload: Payload::Fetched(bytes) },
                Step::Perform(self.probe()),
            ),
            (Stage::Downloading, Reply::Downloaded(Err(DownloadFailure::Certificate(failure)))) => (
                Stage::Finished,
                Step::Done(
                    Err(Self::error(ActionErrorKind::Custom(CustomError::Certificate(failure)))),
                ),
            ),
            (Stage::Downloading, Reply::Downloaded(Err(DownloadFailure::Transport(failure)))) => (
                Stage::Finished,
                Step::Done(Err(Self::error(ActionErrorKind::Reqwest(failure)))),
            ),
            (Stage::Reading { path }, Reply::Read(Ok(bytes))) => (
                Stage::Probing { payload: Payload::Fetched(bytes) },
                Step::Perform(self.probe()),
            ),
            (Stage::Reading { path }, Reply::Read(Err(failure))) => (
                Stage::Finished,
                Step::Done(Err(Self::error(ActionErrorKind::Read(path, failure)))),
            ),
            (Stage::Probing { payload }, Reply::Probed(true)) => (
                Stage::Clearing { payload },
                Step::Perform(self.clear()),
            ),
            (Stage::Probing { payload }, Reply::Probed(false)) => (
                Stage::Unpacking,
                Step::Perform(self.unpack(payload)),
            ),
            (Stage::Clearing { payload }, Reply::Removed(Ok(()))) => (
                Stage::Unpacking,
                Step::Perform(self.unpack(payload)),
            ),
            (Stage::Clearing { payload }, Reply::Removed(Err(failure))) => (
                Stage::Finished,
                Step::Done(
                    Err(
                        Self::error(
                            ActionErrorKind::Remove(self.settings.dest.clone(), failure),
                        ),
                    ),
                ),
            ),
            (Stage::Unpacking, Reply::Unpacked(Ok(()))) => (Stage::Finished, Step::Done(Ok(()))),
            (Stage::Unpacking, Reply::Unpacked(Err(failure))) => (
                Stage::Finished,
                Step::Done(
                    Err(Self::error(ActionErrorKind::from(FetchUrlError::Unarchive(failure)))),
                ),
            ),
            (waiting, _) => (waiting, Step::Ignored),
        }
    }

    /// Reverting does nothing and cannot fail: what was unpacked is removed
    /// by another action of the plan. Nothing is asked of the host.
    pub fn revert(&mut self) -> (reverted: Result<(), ActionError>)
        ensures
            reverted == Ok::<(), ActionError>(()),
            *final(self) == *old(self),
    {
        Ok(())
    }
}

/// The one line that says what executing will do: where the archive is
/// fetched from, or that it is bundled and where it was taken from, and where
/// it goes.
pub open spec fn synopsis_text(settings: FetchSettings) -> Seq<char> {
    match settings.distribution.location_or(settings.url_or_path) {
        TarballLocation::UrlOrPath(location) => "Fetch `"@ + location.text() + "` to `"@
            + settings.dest@ + "`"@,
        TarballLocation::InMemory(from, _) => "Extract the bundled Nix (originally from "@ + from@
            + ") to `"@ + settings.dest@ + "`"@,
    }
}

/// The text of a location that may be absent.
pub open spec fn location_text(url_or_path: Option<UrlOrPath>) -> Option<Seq<char>> {
    match url_or_path {
        Some(location) => Some(location.text()),
        None => None,
    }
}

/// The full text of a URL that may be absent.
pub open spec fn url_text(url: Option<Url>) -> Option<Seq<char>> {
    match url {
        Some(url) => Some(url.serialization@),
        None => None,
    }
}

/// The characters of a text that may be absent.
pub open spec fn optional_text(text: Option<String>) -> Option<Seq<char>> {
    match text {
        Some(text) => Some(text@),
        None => None,
    }
}

impl Action for FetchAndUnpackNix {
    fn action_tag() -> (tag: ActionTag)
        ensures
            tag == fetch_tag(),
    {
        ActionTag("fetch_and_unpack_nix")
    }

    fn tracing_synopsis(&self) -> (synopsis: String)
        ensures
            synopsis@ == synopsis_text(self@),
    {
        match self.settings.distribution.tarball_location_or(&self.settings.url_or_path) {
            TarballLocation::UrlOrPath(location) => {
                let mut synopsis = String::from_str("Fetch `");
                synopsis.append(location.display().as_str());
                synopsis.append("` to `");
                synopsis.append(self.settings.dest.as_str());
                synopsis.append("`");
                synopsis
            },
            TarballLocation::InMemory(from, _) => {
                let mut synopsis = String::from_str("Extract the bundled Nix (originally from ");
                synopsis.append(from.as_str());
                synopsis.append(") to `");
                synopsis.append(self.settings.dest.as_str());
                synopsis.append("`");
                synopsis
            },
        }
    }

    /// The context is for debugging, is named by the action's tag and has
    /// four fields, in this order: the operator's location, the proxy, the
    /// certificate file, each absent where it is not configured, and the
    /// destination.
    fn tracing_span(&self) -> (context: TraceContext)
        ensures
            context.level == TraceLevel::Debug,
            context.name@ == "fetch_and_unpack_nix"@,
            context.fields@.len() == 4,
            context.fields@[0].shows("url_or_path"@, location_text(self@.url_or_path)),
            context.fields@[1].shows("proxy"@, url_text(self@.proxy)),
            context.fields@[2].shows("ssl_cert_file"@, optional_text(self@.ssl_cert_file)),
            context.fields@[3].shows("dest"@, Some(self@.dest@)),
    {
        let url_or_path = match &self.settings.url_or_path {
            Some(location) => Some(location.display()),
            None => None,
        };
        let proxy = match &self.settings.proxy {
            Some(proxy) => Some(proxy.serialization.clone()),
            None => None,
        };
        let ssl_cert_file = match &self.settings.ssl_cert_file {
            Some(file) => Some(file.clone()),
            None => None,
        };
        let mut fields: Vec<TraceField> = Vec::new();
        fields.push(TraceField { name: "url_or_path", value: url_or_path });
        fields.push(TraceField { name: "proxy", value: proxy });
        fields.push(TraceField { name: "ssl_cert_file", value: ssl_cert_file });
        fields.push(TraceField { name: "dest", value: Some(self.settings.dest.clone()) });
        TraceContext { level: TraceLevel::Debug, name: "fetch_and_unpack_nix", fields }
    }

    /// One description: the synopsis, with nothing to explain.
    fn execute_description(&self) -> (described: Vec<ActionDescription>)
        ensures
            described@.len() == 1,
            described@[0].description@ == synopsis_text(self@),
            described@[0].explanation@.len() == 0,
    {
        let mut described: Vec<ActionDescription> = Vec::new();
        described.push(ActionDescription::new(self.tracing_synopsis(), Vec::new()));
        described
    }

    /// Nothing: reverting this action does nothing.
    fn revert_description(&self) -> (described: Vec<ActionDescription>)
        ensures
            described@.len() == 0,
    {
        Vec::new()
    }
}

/// Nothing is unpacked into a destination that may hold something: unpacking
/// is asked for only when the host has just said that the destination does
/// not exist, or that it has removed it, and an execution never begins with
/// it.
pub proof fn lemma_unpacks_into_nothing(settings: FetchSettings, stage: Stage, reply: Reply)
    ensures
        !(first_step(settings).1 matches Step::Perform(Request::Unpack { .. })),
        next_step(settings, stage, reply).1 matches Step::Perform(Request::Unpack { .. }) ==> {
            ||| stage is Probing && reply == Reply::Probed(false)
            ||| stage is Clearing && reply == Reply::Removed(Ok(()))
        },
{
    if let Reply::Removed(Ok(done)) = reply {
        assert(done == ());
    }
}

/// A destination that exists is removed: when the host says that something is
/// at the destination, the next request is to remove that tree, with nothing
/// there being no failure, and the bytes are kept for unpacking.
pub proof fn lemma_stale_destination_is_removed(settings: FetchSettings, payload: Payload)
    ensures
        next_step(settings, Stage::Probing { payload }, Reply::Probed(true)) == (
            Stage::Clearing { payload },
            Step::Perform(
                Request::RemoveTree { path: settings.dest, on_missing: OnMissing::Ignore },
            ),
        ),
{
}

/// An execution succeeds in one way only: the host has unpacked the archive.
pub proof fn lemma_success_is_unpacked(settings: FetchSettings, stage: Stage, reply: Reply)
    ensures
        !(first_step(settings).1 matches Step::Done(Ok(_))),
        next_step(settings, stage, reply).1 matches Step::Done(Ok(_)) ==> stage is Unpacking
            && reply == Reply::Unpacked(Ok(())),
{
    if let Reply::Unpacked(Ok(done)) = reply {
        assert(done == ());
    }
}

/// How many replies an execution at this stage can still take at most.
pub open spec fn replies_left(stage: Stage) -> nat {
    match stage {
        Stage::Downloading => 4,
        Stage::Reading { .. } => 4,
        Stage::Probing { .. } => 3,
        Stage::Clearing { .. } => 2,
        Stage::Unpacking => 1,
        Stage::Finished => 0,
    }
}

/// An execution comes to its end: every reply that is not ignored leaves
/// fewer replies to take, one that is ignored leaves the stage as it was, and
/// the stage is `Finished` exactly when the step says that it is done. No
/// execution asks the host for more than four things.
pub proof fn lemma_execution_comes_to_an_end(settings: FetchSettings, stage: Stage, reply: Reply)
    ensures
        replies_left(first_step(settings).0) <= 4,
        first_step(settings).1 is Done <==> first_step(settings).0 is Finished,
        !(first_step(settings).1 is Ignored),
        ({
            let (then, step) = next_step(settings, stage, reply);
            &&& step is Ignored ==> then == stage
            &&& !(step is Ignored) ==> replies_left(then) < replies_left(stage)
            &&& step is Done ==> then is Finished
            &&& step is Perform ==> !(then is Finished)
        }),
{
}

/// An execution that has ended stays ended: every reply is ignored.
pub proof fn lemma_finished_stays_finished(settings: FetchSettings, reply: Reply)
    ensures
        next_step(settings, Stage::Finished, reply) == (Stage::Finished, Step::Ignored),
{
}

/// Embedded bytes are used without fetching: the first request is to probe
/// the destination, whatever location the operator named.
pub proof fn lemma_embedded_is_not_fetched(settings: FetchSettings)
    requires
        settings.distribution is Embedded,
    ensures
        first_step(settings) == (
            Stage::Probing { payload: Payload::Embedded(settings.distribution->payload) },
            Step::Perform(Request::ProbePath { path: settings.dest }),
        ),
{
}

/// What planning accepted is not rejected when the action executes: an
/// execution of accepted settings never ends at once, and so never with an
/// unknown scheme. It begins with a request to the host.
pub proof fn lemma_planned_location_is_fetched(settings: FetchSettings)
    requires
        locators_accepted(settings.distribution, settings.url_or_path),
    ensures
        first_step(settings).1 is Perform,
        !(first_step(settings).0 is Finished),
        first_step(settings).1 != Step::Done(
            Err(fetch_error(ActionErrorKind::UnknownUrlScheme)),
        ),
{
}

/// What planning rejects for its location is exactly what an execution would
/// end on at once: the locations pass if and only if the first step is a
/// request, given that the operator's own location passes.
pub proof fn lemma_rejected_location_would_not_be_fetched(settings: FetchSettings)
    requires
        locator_accepted(settings.url_or_path),
    ensures
        locators_accepted(settings.distribution, settings.url_or_path) <==> first_step(
            settings,
        ).1 is Perform,
{
}

} // verus!
