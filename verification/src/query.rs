//! The version query protocol, server side.
//!
//! Given the registry's packages and a decoded request, decide the
//! response: `PluginNotFound` when no package bears the requested name,
//! `NoUpdate` when the server's version is not strictly newer or the
//! release is beta without the client's opt-in, and `Update` — with the
//! full ordered artifact list — otherwise. A request that could not be
//! decoded at all is answered with `InvalidRequest` by the host, which
//! builds that response through `invalid_request_response`.

use vstd::prelude::*;

use crate::protocol::ArtifactEntry;
use crate::protocol::EntryModel;
use crate::protocol::Request;
use crate::protocol::RequestModel;
use crate::protocol::ResponseCode;
use crate::protocol::UpdateResponse;
use crate::registry::Artifact;
use crate::registry::ArtifactModel;
use crate::registry::Plugin;
use crate::registry::PluginModel;
use crate::registry::plugins_view;
use crate::version::version_newer;
use crate::version::newer_version;

verus! {

/// The first package bearing `name`, if any.
pub open spec fn lookup(ps: Seq<PluginModel>, name: Seq<char>) -> Option<PluginModel>
    decreases ps.len(),
{
    if ps.len() == 0 {
        None
    } else if ps[0].name == name {
        Some(ps[0])
    } else {
        lookup(ps.drop_first(), name)
    }
}

/// The artifact entries a response lists for a package's files: one entry
/// per artifact, in the registry's order, indexed by position.
pub open spec fn entries_for(files: Seq<ArtifactModel>) -> Seq<EntryModel> {
    Seq::new(
        files.len(),
        |i: int|
            EntryModel {
                install_location: files[i].install_location,
                download_index: i as u64,
            },
    )
}

/// The response code owed to a request against a set of packages.
pub open spec fn response_code_for(ps: Seq<PluginModel>, req: RequestModel) -> ResponseCode {
    match lookup(ps, req.plugin_name) {
        None => ResponseCode::PluginNotFound,
        Some(p) => {
            if p.beta && !req.beta_allowed() {
                ResponseCode::NoUpdate
            } else if version_newer(req.plugin_version, p.plugin_version) {
                ResponseCode::Update
            } else {
                ResponseCode::NoUpdate
            }
        },
    }
}

proof fn lemma_lookup_found(ps: Seq<PluginModel>, name: Seq<char>, i: int)
    requires
        0 <= i < ps.len(),
        ps[i].name == name,
        forall|j: int| 0 <= j < i ==> ps[j].name != name,
    ensures
        lookup(ps, name) == Some(ps[i]),
    decreases i,
{
    if i > 0 {
        lemma_lookup_found(ps.drop_first(), name, i - 1);
    }
}

proof fn lemma_lookup_absent(ps: Seq<PluginModel>, name: Seq<char>)
    requires
        forall|j: int| 0 <= j < ps.len() ==> ps[j].name != name,
    ensures
        lookup(ps, name) is None,
    decreases ps.len(),
{
    if ps.len() > 0 {
        lemma_lookup_absent(ps.drop_first(), name);
    }
}

/// Law: querying a package name that no package in the registry bears
/// yields `PluginNotFound` — never `NoUpdate` and never `InvalidRequest`.
pub proof fn lemma_absent_name_not_found(ps: Seq<PluginModel>, req: RequestModel)
    requires
        forall|j: int| 0 <= j < ps.len() ==> ps[j].name != req.plugin_name,
    ensures
        response_code_for(ps, req) == ResponseCode::PluginNotFound,
{
    lemma_lookup_absent(ps, req.plugin_name);
}

/// Law: when the registry holds the requested package, the server's
/// version is strictly newer than the client's, and the release is not a
/// beta withheld from this client, the response code is `Update`.
pub proof fn lemma_newer_version_updates(ps: Seq<PluginModel>, req: RequestModel, p: PluginModel)
    requires
        lookup(ps, req.plugin_name) == Some(p),
        version_newer(req.plugin_version, p.plugin_version),
        !(p.beta && !req.beta_allowed()),
    ensures
        response_code_for(ps, req) == ResponseCode::Update,
{
}

/// The entries an `Update` response carries for a package's artifacts, in
/// the exact order the registry produced them.
fn entries_of(files: &Vec<Artifact>) -> (r: Vec<ArtifactEntry>)
    ensures
        r@.len() == files@.len(),
        forall|i: int|
            0 <= i < r@.len() ==> r@[i]@ == (EntryModel {
                install_location: files@[i]@.install_location,
                download_index: i as u64,
            }),
{
    let mut r: Vec<ArtifactEntry> = Vec::new();
    let mut i: usize = 0;
    while i < files.len()
        invariant
            0 <= i <= files@.len(),
            r@.len() == i,
            forall|j: int|
                0 <= j < i ==> r@[j]@ == (EntryModel {
                    install_location: files@[j]@.install_location,
                    download_index: j as u64,
                }),
        decreases files@.len() - i,
    {
        r.push(
            ArtifactEntry {
                install_location: files[i].install_location.clone(),
                download_index: i as u64,
            },
        );
        i = i + 1;
    }
    r
}

/// The response the host sends back when the request could not be decoded
/// at all: `InvalidRequest`, naming no package and owing no artifacts.
pub fn invalid_request_response() -> (r: UpdateResponse)
    ensures
        r@.code == ResponseCode::InvalidRequest,
        r@.required_files.len() == 0,
        r@.plugin_name.len() == 0,
{
    let r = UpdateResponse {
        code: ResponseCode::InvalidRequest,
        plugin_name: String::new(),
        new_plugin_version: String::new(),
        required_files: Vec::new(),
    };
    proof {
        assert(r@.required_files =~= Seq::<EntryModel>::empty());
    }
    r
}

/// Answer one decoded version query against the registry's packages.
///
/// The code is exactly `response_code_for`; an `Update` response carries
/// the found package's artifact entries in the registry's order and its
/// version; any other response carries no artifacts. The clause on equal
/// version texts is the protocol's promise that a client already at the
/// server's version is told `NoUpdate`.
pub fn answer_query(plugins: &Vec<Plugin>, request: &Request) -> (r: UpdateResponse)
    ensures
        r@.plugin_name == request@.plugin_name,
        r@.code == response_code_for(plugins_view(plugins@), request@),
        (match lookup(plugins_view(plugins@), request@.plugin_name) {
            Some(p) => {
                &&& (r@.code == ResponseCode::Update ==> r@.required_files == entries_for(p.files)
                    && r@.new_plugin_version == p.plugin_version)
                &&& (p.plugin_version == request@.plugin_version && !p.beta ==> r@.code
                    == ResponseCode::NoUpdate)
            },
            None => true,
        }),
        r@.code != ResponseCode::Update ==> r@.required_files.len() == 0,
{
    let ghost pv = plugins_view(plugins@);
    let mut i: usize = 0;
    while i < plugins.len()
        invariant
            pv == plugins_view(plugins@),
            0 <= i <= plugins@.len(),
            forall|j: int| 0 <= j < i ==> pv[j].name != request@.plugin_name,
        decreases plugins@.len() - i,
    {
        if plugins[i].name == request.plugin_name {
            proof {
                lemma_lookup_found(pv, request@.plugin_name, i as int);
            }
            let p = &plugins[i];
            let beta_allowed = match request.beta {
                Some(b) => b,
                None => false,
            };
            if p.beta && !beta_allowed {
                return UpdateResponse {
                    code: ResponseCode::NoUpdate,
                    plugin_name: request.plugin_name.clone(),
                    new_plugin_version: p.plugin_version.clone(),
                    required_files: Vec::new(),
                };
            }
            if newer_version(request.plugin_version.as_str(), p.plugin_version.as_str()) {
                let required_files = entries_of(&p.files);
                let r = UpdateResponse {
                    code: ResponseCode::Update,
                    plugin_name: request.plugin_name.clone(),
                    new_plugin_version: p.plugin_version.clone(),
                    required_files,
                };
                proof {
                    assert(r@.required_files =~= entries_for(pv[i as int].files));
                }
                return r;
            }
            return UpdateResponse {
                code: ResponseCode::NoUpdate,
                plugin_name: request.plugin_name.clone(),
                new_plugin_version: p.plugin_version.clone(),
                required_files: Vec::new(),
            };
        }
        i = i + 1;
    }
    proof {
        lemma_lookup_absent(pv, request@.plugin_name);
    }
    UpdateResponse {
        code: ResponseCode::PluginNotFound,
        plugin_name: request.plugin_name.clone(),
        new_plugin_version: String::new(),
        required_files: Vec::new(),
    }
}

} // verus!
