//! The server's registry of resolved packages.
//!
//! A `Plugin` is the fully materialised, in-memory record the server
//! answers queries from: its name, versions, beta flag, and every
//! artifact's bytes, loaded once per registry build. Building a registry
//! from manifest snapshots is in `build`; the data shapes and their views
//! are here.

use vstd::prelude::*;

use crate::protocol::InstallLocation;
use crate::protocol::LocationModel;

verus! {

/// One resolved artifact: its install location and its full contents.
#[derive(Debug)]
pub struct Artifact {
    pub install_location: InstallLocation,
    pub data: Vec<u8>,
}

/// Mathematical view of an `Artifact`.
pub struct ArtifactModel {
    pub install_location: LocationModel,
    pub data: Seq<u8>,
}

impl View for Artifact {
    type V = ArtifactModel;

    open spec fn view(&self) -> ArtifactModel {
        ArtifactModel { install_location: self.install_location@, data: self.data@ }
    }
}

/// Optional descriptive material of a package: display name, image
/// bytes, description text and changelog text. All of it is best-effort;
/// a missing piece stays absent and never fails a definition.
#[derive(Debug)]
pub struct Metadata {
    pub name: Option<String>,
    pub images: Option<Vec<Vec<u8>>>,
    pub description: Option<String>,
    pub changelog: Option<String>,
}

/// Mathematical view of a `Metadata`.
pub struct MetadataModel {
    pub name: Option<Seq<char>>,
    pub images: Option<Seq<Seq<u8>>>,
    pub description: Option<Seq<char>>,
    pub changelog: Option<Seq<char>>,
}

impl View for Metadata {
    type V = MetadataModel;

    open spec fn view(&self) -> MetadataModel {
        MetadataModel {
            name: (match &self.name {
                Some(n) => Some(n@),
                None => None,
            }),
            images: (match &self.images {
                Some(im) => Some(im.deep_view()),
                None => None,
            }),
            description: (match &self.description {
                Some(d) => Some(d@),
                None => None,
            }),
            changelog: (match &self.changelog {
                Some(c) => Some(c@),
                None => None,
            }),
        }
    }
}

impl Default for Metadata {
    /// All pieces absent.
    fn default() -> (r: Metadata)
        ensures
            r@.name is None,
            r@.images is None,
            r@.description is None,
            r@.changelog is None,
    {
        Metadata { name: None, images: None, description: None, changelog: None }
    }
}

/// One servable package: the record a registry build produces per
/// definition directory.
#[derive(Debug)]
pub struct Plugin {
    pub name: String,
    pub plugin_version: String,
    pub files: Vec<Artifact>,
    pub skyline_version: String,
    pub beta: bool,
    pub metadata: Metadata,
}

/// Mathematical view of a `Plugin`.
pub struct PluginModel {
    pub name: Seq<char>,
    pub plugin_version: Seq<char>,
    pub files: Seq<ArtifactModel>,
    pub skyline_version: Seq<char>,
    pub beta: bool,
    pub metadata: MetadataModel,
}

impl View for Plugin {
    type V = PluginModel;

    open spec fn view(&self) -> PluginModel {
        PluginModel {
            name: self.name@,
            plugin_version: self.plugin_version@,
            files: Seq::new(self.files@.len(), |i: int| self.files@[i]@),
            skyline_version: self.skyline_version@,
            beta: self.beta,
            metadata: self.metadata@,
        }
    }
}

/// The views of a sequence of plugins.
pub open spec fn plugins_view(ps: Seq<Plugin>) -> Seq<PluginModel> {
    Seq::new(ps.len(), |i: int| ps[i]@)
}

} // verus!
