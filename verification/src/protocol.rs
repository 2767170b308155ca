//! Shared vocabulary of the update protocol: where an artifact is to be
//! placed, the entries of an update response, the response codes, and the
//! version-query request. The wire encoding of these values belongs to the
//! host process; the contracts here speak of the mathematical views below.

use vstd::prelude::*;

verus! {

/// Where one artifact is to be installed. `AbsolutePath` is the only
/// variant with defined semantics; the protocol reserves further variants,
/// which carry no install semantics and are rejected by the state machine.
#[derive(Debug)]
pub enum InstallLocation {
    AbsolutePath(String),
    Reserved,
}

impl Clone for InstallLocation {
    fn clone(&self) -> (r: Self)
        ensures
            r == *self,
    {
        match self {
            InstallLocation::AbsolutePath(p) => InstallLocation::AbsolutePath(p.clone()),
            InstallLocation::Reserved => InstallLocation::Reserved,
        }
    }
}

/// Mathematical view of an `InstallLocation`.
pub enum LocationModel {
    AbsolutePath(Seq<char>),
    Reserved,
}

impl View for InstallLocation {
    type V = LocationModel;

    open spec fn view(&self) -> LocationModel {
        match self {
            InstallLocation::AbsolutePath(p) => LocationModel::AbsolutePath(p@),
            InstallLocation::Reserved => LocationModel::Reserved,
        }
    }
}

/// One artifact of an update response: where to place it, and the
/// server-assigned index under which its bytes can be requested over the
/// data channel. The index is scoped to one response; it is not a stable
/// identifier across requests.
#[derive(Debug)]
pub struct ArtifactEntry {
    pub install_location: InstallLocation,
    pub download_index: u64,
}

impl Clone for ArtifactEntry {
    fn clone(&self) -> (r: Self)
        ensures
            r == *self,
    {
        ArtifactEntry {
            install_location: self.install_location.clone(),
            download_index: self.download_index,
        }
    }
}

/// Mathematical view of an `ArtifactEntry`.
pub struct EntryModel {
    pub install_location: LocationModel,
    pub download_index: u64,
}

impl View for ArtifactEntry {
    type V = EntryModel;

    open spec fn view(&self) -> EntryModel {
        EntryModel {
            install_location: self.install_location@,
            download_index: self.download_index,
        }
    }
}

/// The outcome a version query carries back. Exactly one code per
/// response; it fully determines the client's behaviour. `Unknown` stands
/// for any code this client does not recognise.
#[derive(Debug, Clone, Copy, PartialEq, Eq, Structural)]
pub enum ResponseCode {
    NoUpdate,
    Update,
    InvalidRequest,
    PluginNotFound,
    Unknown,
}

/// A version-query response. `required_files` is ordered: it is the order
/// in which artifacts are fetched and installed.
#[derive(Debug)]
pub struct UpdateResponse {
    pub code: ResponseCode,
    pub plugin_name: String,
    pub new_plugin_version: String,
    pub required_files: Vec<ArtifactEntry>,
}

/// Mathematical view of an `UpdateResponse`.
pub struct ResponseModel {
    pub code: ResponseCode,
    pub plugin_name: Seq<char>,
    pub new_plugin_version: Seq<char>,
    pub required_files: Seq<EntryModel>,
}

impl View for UpdateResponse {
    type V = ResponseModel;

    open spec fn view(&self) -> ResponseModel {
        ResponseModel {
            code: self.code,
            plugin_name: self.plugin_name@,
            new_plugin_version: self.new_plugin_version@,
            required_files: Seq::new(
                self.required_files@.len(),
                |i: int| self.required_files@[i]@,
            ),
        }
    }
}

/// A version-query request: which package, the version the client runs,
/// and whether beta releases are acceptable (absent means no).
#[derive(Debug)]
pub struct Request {
    pub plugin_name: String,
    pub plugin_version: String,
    pub beta: Option<bool>,
}

/// Mathematical view of a `Request`.
pub struct RequestModel {
    pub plugin_name: Seq<char>,
    pub plugin_version: Seq<char>,
    pub beta: Option<bool>,
}

impl View for Request {
    type V = RequestModel;

    open spec fn view(&self) -> RequestModel {
        RequestModel {
            plugin_name: self.plugin_name@,
            plugin_version: self.plugin_version@,
            beta: self.beta,
        }
    }
}

impl RequestModel {
    /// Whether the request opts in to beta releases.
    pub open spec fn beta_allowed(self) -> bool {
        self.beta == Some(true)
    }
}

impl Request {
    /// The request a client sends when checking for an update.
    pub fn new(plugin_name: &str, plugin_version: &str, allow_beta: bool) -> (r: Request)
        ensures
            r@.plugin_name == plugin_name@,
            r@.plugin_version == plugin_version@,
            r@.beta == Some(allow_beta),
    {
        Request {
            plugin_name: plugin_name.to_owned(),
            plugin_version: plugin_version.to_owned(),
            beta: Some(allow_beta),
        }
    }
}

} // verus!
