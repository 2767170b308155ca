//! Resolving manifest snapshots into servable packages.
//!
//! The host scans the registry root, parses each definition directory's
//! manifest, reads the declared files, walks the declared folders, and
//! hands the results here as plain values. This module holds every
//! decision of the build: source resolution, folder flattening with its
//! rewritten destinations and sentinel artifacts, defaults, best-effort
//! metadata, and the per-definition error taxonomy. One bad definition
//! never fails the build as a whole.

use vstd::prelude::*;

use crate::paths::rewrite_spec;
use crate::paths::rewrite_anchored;
use crate::protocol::InstallLocation;
use crate::protocol::LocationModel;
use crate::registry::Artifact;
use crate::registry::ArtifactModel;
use crate::registry::Metadata;
use crate::registry::MetadataModel;
use crate::registry::Plugin;
use crate::registry::PluginModel;
use crate::registry::plugins_view;
use crate::version::decode_version;
use crate::version::semver_canon;
use crate::version::semver_valid;

verus! {

/// One declared file of a manifest: where to install it, and its source
/// path relative to the definition's own directory (or absolute).
#[derive(Debug)]
pub struct PluginFile {
    pub install_location: InstallLocation,
    pub filename: String,
}

/// Mathematical view of a `PluginFile`.
pub struct PluginFileModel {
    pub install_location: LocationModel,
    pub filename: Seq<char>,
}

impl View for PluginFile {
    type V = PluginFileModel;

    open spec fn view(&self) -> PluginFileModel {
        PluginFileModel { install_location: self.install_location@, filename: self.filename@ }
    }
}

/// One declared folder of a manifest: a directory tree to flatten, placed
/// under an install root.
#[derive(Debug)]
pub struct PluginFolder {
    pub install_root_location: InstallLocation,
    pub root_name: String,
}

/// Mathematical view of a `PluginFolder`.
pub struct PluginFolderModel {
    pub install_root_location: LocationModel,
    pub root_name: Seq<char>,
}

impl View for PluginFolder {
    type V = PluginFolderModel;

    open spec fn view(&self) -> PluginFolderModel {
        PluginFolderModel {
            install_root_location: self.install_root_location@,
            root_name: self.root_name@,
        }
    }
}

/// The optional metadata table of a manifest: a display name, image
/// paths, a description, and a changelog path.
#[derive(Debug)]
pub struct TomlMetadata {
    pub name: Option<String>,
    pub images: Option<Vec<String>>,
    pub description: Option<String>,
    pub changelog: Option<String>,
}

/// Mathematical view of a `TomlMetadata`.
pub struct TomlMetadataModel {
    pub name: Option<Seq<char>>,
    pub images: Option<Seq<Seq<char>>>,
    pub description: Option<Seq<char>>,
    pub changelog: Option<Seq<char>>,
}

impl View for TomlMetadata {
    type V = TomlMetadataModel;

    open spec fn view(&self) -> TomlMetadataModel {
        TomlMetadataModel {
            name: (match &self.name {
                Some(n) => Some(n@),
                None => None,
            }),
            images: (match &self.images {
                Some(im) => Some(im.deep_view()),
                None => None,
            }),
            description: (match &self.description {
                Some(d) => Some(d@),
                None => None,
            }),
            changelog: (match &self.changelog {
                Some(c) => Some(c@),
                None => None,
            }),
        }
    }
}

/// A parsed package manifest, as its table stands in the definition
/// directory. `beta` defaults to false and `skyline_version` — the least
/// host version the package needs — to the lowest version when absent.
#[derive(Debug)]
pub struct PluginToml {
    pub version: String,
    pub name: String,
    pub beta: Option<bool>,
    pub files: Vec<PluginFile>,
    pub folders: Option<Vec<PluginFolder>>,
    pub skyline_version: Option<String>,
    pub metadata: Option<TomlMetadata>,
}

/// Mathematical view of a `PluginToml`.
pub struct PluginTomlModel {
    pub version: Seq<char>,
    pub name: Seq<char>,
    pub beta: Option<bool>,
    pub files: Seq<PluginFileModel>,
    pub folders: Option<Seq<PluginFolderModel>>,
    pub skyline_version: Option<Seq<char>>,
    pub metadata: Option<TomlMetadataModel>,
}

impl View for PluginToml {
    type V = PluginTomlModel;

    open spec fn view(&self) -> PluginTomlModel {
        PluginTomlModel {
            version: self.version@,
            name: self.name@,
            beta: self.beta,
            files: Seq::new(self.files@.len(), |i: int| self.files@[i]@),
            folders: (match &self.folders {
                Some(fs) => Some(Seq::new(fs@.len(), |i: int| fs@[i]@)),
                None => None,
            }),
            skyline_version: (match &self.skyline_version {
                Some(s) => Some(s@),
                None => None,
            }),
            metadata: (match &self.metadata {
                Some(m) => Some(m@),
                None => None,
            }),
        }
    }
}

/// One regular file found while walking a declared folder: its path as
/// walked, and its contents — `None` when reading it failed.
#[derive(Debug)]
pub struct WalkedFile {
    pub path: String,
    pub data: Option<Vec<u8>>,
}

/// Mathematical view of a `WalkedFile`.
pub struct WalkedModel {
    pub path: Seq<char>,
    pub data: Option<Seq<u8>>,
}

impl View for WalkedFile {
    type V = WalkedModel;

    open spec fn view(&self) -> WalkedModel {
        WalkedModel {
            path: self.path@,
            data: (match &self.data {
                Some(d) => Some(d@),
                None => None,
            }),
        }
    }
}

/// Why a definition was excluded from the servable set.
#[derive(Debug, Clone, Copy, PartialEq, Eq, Structural)]
pub enum ErrorKind {
    /// The definition directory holds no manifest.
    MissingManifest,
    /// The manifest does not parse, its version field included.
    ManifestParse,
    /// A declared or walked file could not be read.
    FileRead,
    /// A declared folder cannot be laid out: its install root is a
    /// reserved location, or a walked path misses the registry anchor.
    FolderLayout,
}

/// One definition's failure: the directory it came from and why.
#[derive(Debug)]
pub struct RegistryError {
    pub dir: String,
    pub kind: ErrorKind,
}

/// Mathematical view of a `RegistryError`.
pub struct RegistryErrorModel {
    pub dir: Seq<char>,
    pub kind: ErrorKind,
}

impl View for RegistryError {
    type V = RegistryErrorModel;

    open spec fn view(&self) -> RegistryErrorModel {
        RegistryErrorModel { dir: self.dir@, kind: self.kind }
    }
}

/// The folders of a manifest, absent meaning none.
pub open spec fn folders_seq(folders: Option<Seq<PluginFolderModel>>) -> Seq<PluginFolderModel> {
    match folders {
        Some(fs) => fs,
        None => Seq::empty(),
    }
}

/// The views of the walked-folder listings.
pub open spec fn walked_views(ff: Seq<Vec<WalkedFile>>) -> Seq<Seq<WalkedModel>> {
    Seq::new(ff.len(), |j: int| Seq::new(ff[j]@.len(), |k: int| ff[j]@[k]@))
}

/// The artifacts of the declared files alone: each install location with
/// the bytes read for it, in declaration order.
pub open spec fn base_artifacts(files: Seq<PluginFileModel>, data: Seq<Option<Seq<u8>>>) -> Seq<
    ArtifactModel,
> {
    Seq::new(
        files.len(),
        |i: int| ArtifactModel { install_location: files[i].install_location, data: data[i]->0 },
    )
}

/// A declared folder's install root path.
pub open spec fn root_of(folder: PluginFolderModel) -> Seq<char> {
    folder.install_root_location->AbsolutePath_0
}

/// The artifacts of one walked folder, in walk order: each file's path
/// rewritten under the folder's install root, with the file's bytes.
pub open spec fn folder_dests(walked: Seq<WalkedModel>, root: Seq<char>) -> Seq<ArtifactModel> {
    Seq::new(
        walked.len(),
        |k: int|
            ArtifactModel {
                install_location: LocationModel::AbsolutePath(
                    rewrite_spec(walked[k].path, "plugins"@, root)->0,
                ),
                data: walked[k].data->0,
            },
    )
}

/// A folder's sentinel artifact: its own install root with empty
/// contents, signalling that the destination root itself is to be
/// (re)created even though it carries no payload.
pub open spec fn sentinel(folder: PluginFolderModel) -> ArtifactModel {
    ArtifactModel { install_location: folder.install_root_location, data: Seq::empty() }
}

/// The artifact list after flattening the first `j` folders onto the
/// declared-file artifacts: each folder's rewritten files are placed
/// ahead of everything so far, newest walked first, and the folder's
/// sentinel is appended at the back.
pub open spec fn artifacts_after(
    base: Seq<ArtifactModel>,
    folders: Seq<PluginFolderModel>,
    walked: Seq<Seq<WalkedModel>>,
    j: int,
) -> Seq<ArtifactModel>
    decreases j,
{
    if j <= 0 {
        base
    } else {
        folder_dests(walked[j - 1], root_of(folders[j - 1])).reverse() + artifacts_after(
            base,
            folders,
            walked,
            j - 1,
        ) + seq![sentinel(folders[j - 1])]
    }
}

/// Every declared file's bytes were read.
pub open spec fn all_reads_ok(data: Seq<Option<Seq<u8>>>) -> bool {
    forall|i: int| 0 <= i < data.len() ==> data[i] is Some
}

/// The first failure among one folder's walked files: a path that cannot
/// be rewritten under the root, or contents that could not be read.
pub open spec fn walked_error(walked: Seq<WalkedModel>, root: Seq<char>) -> Option<ErrorKind>
    decreases walked.len(),
{
    if walked.len() == 0 {
        None
    } else if rewrite_spec(walked[0].path, "plugins"@, root) is None {
        Some(ErrorKind::FolderLayout)
    } else if walked[0].data is None {
        Some(ErrorKind::FileRead)
    } else {
        walked_error(walked.drop_first(), root)
    }
}

/// One folder's first failure: a reserved install root, or a walked-file
/// failure.
pub open spec fn folder_error(folder: PluginFolderModel, walked: Seq<WalkedModel>) -> Option<
    ErrorKind,
> {
    if !(folder.install_root_location is AbsolutePath) {
        Some(ErrorKind::FolderLayout)
    } else {
        walked_error(walked, root_of(folder))
    }
}

/// The first failing folder's failure, in declaration order.
pub open spec fn folders_error(
    folders: Seq<PluginFolderModel>,
    walked: Seq<Seq<WalkedModel>>,
) -> Option<ErrorKind>
    decreases folders.len(),
{
    if folders.len() == 0 {
        None
    } else if folder_error(folders[0], walked[0]) is Some {
        folder_error(folders[0], walked[0])
    } else {
        folders_error(folders.drop_first(), walked.drop_first())
    }
}

/// How resolving one parsed definition ends: `None` when it yields a
/// servable package, otherwise the first failure in resolution order —
/// the version field, then the declared files, then the folders.
pub open spec fn definition_outcome(
    version: Seq<char>,
    data: Seq<Option<Seq<u8>>>,
    folders: Seq<PluginFolderModel>,
    walked: Seq<Seq<WalkedModel>>,
) -> Option<ErrorKind> {
    if !semver_valid(version) {
        Some(ErrorKind::ManifestParse)
    } else if !all_reads_ok(data) {
        Some(ErrorKind::FileRead)
    } else {
        folders_error(folders, walked)
    }
}

/// The resolved least host version: the manifest's when it parses, the
/// lowest version otherwise or when absent.
pub open spec fn skyline_version_spec(v: Option<Seq<char>>) -> Seq<char> {
    match v {
        Some(s) => if semver_valid(s) {
            semver_canon(s)->0
        } else {
            "0.0.0"@
        },
        None => "0.0.0"@,
    }
}

/// The resolved metadata: the manifest's texts as they stand, each image
/// path's bytes (empty when unreadable), and the changelog text the host
/// could read. Absent metadata stays wholly absent.
pub open spec fn metadata_model(
    meta: Option<TomlMetadataModel>,
    image_data: Seq<Option<Seq<u8>>>,
    changelog: Option<Seq<char>>,
) -> MetadataModel {
    match meta {
        None => MetadataModel { name: None, images: None, description: None, changelog: None },
        Some(m) => MetadataModel {
            name: m.name,
            images: (match m.images {
                None => None,
                Some(_) => Some(
                    Seq::new(
                        image_data.len(),
                        |i: int|
                            match image_data[i] {
                                Some(d) => d,
                                None => Seq::empty(),
                            },
                    ),
                ),
            }),
            description: m.description,
            changelog,
        },
    }
}

/// How many walked-folder listings a manifest calls for.
pub open spec fn folder_count(folders: Option<Seq<PluginFolderModel>>) -> nat {
    folders_seq(folders).len()
}

/// How many image reads a manifest's metadata calls for.
pub open spec fn image_count(meta: Option<TomlMetadataModel>) -> nat {
    match meta {
        Some(m) => match m.images {
            Some(im) => im.len(),
            None => 0,
        },
        None => 0,
    }
}

proof fn lemma_walked_error_none(walked: Seq<WalkedModel>, root: Seq<char>)
    requires
        forall|k: int|
            0 <= k < walked.len() ==> rewrite_spec(#[trigger] walked[k].path, "plugins"@, root)
                is Some && walked[k].data is Some,
    ensures
        walked_error(walked, root) is None,
    decreases walked.len(),
{
    if walked.len() > 0 {
        lemma_walked_error_none(walked.drop_first(), root);
    }
}

proof fn lemma_walked_error_at(walked: Seq<WalkedModel>, root: Seq<char>, k: int)
    requires
        0 <= k < walked.len(),
        forall|kk: int|
            0 <= kk < k ==> rewrite_spec(#[trigger] walked[kk].path, "plugins"@, root) is Some
                && walked[kk].data is Some,
        rewrite_spec(walked[k].path, "plugins"@, root) is None || walked[k].data is None,
    ensures
        walked_error(walked, root) == (if rewrite_spec(walked[k].path, "plugins"@, root) is None {
            Some(ErrorKind::FolderLayout)
        } else {
            Some(ErrorKind::FileRead)
        }),
    decreases k,
{
    if k > 0 {
        lemma_walked_error_at(walked.drop_first(), root, k - 1);
    }
}

proof fn lemma_folders_error_none(folders: Seq<PluginFolderModel>, walked: Seq<Seq<WalkedModel>>)
    requires
        walked.len() == folders.len(),
        forall|j: int|
            0 <= j < folders.len() ==> folder_error(#[trigger] folders[j], walked[j]) is None,
    ensures
        folders_error(folders, walked) is None,
    decreases folders.len(),
{
    if folders.len() > 0 {
        lemma_folders_error_none(folders.drop_first(), walked.drop_first());
    }
}

proof fn lemma_folders_error_at(
    folders: Seq<PluginFolderModel>,
    walked: Seq<Seq<WalkedModel>>,
    j: int,
)
    requires
        walked.len() == folders.len(),
        0 <= j < folders.len(),
        forall|jj: int| 0 <= jj < j ==> folder_error(#[trigger] folders[jj], walked[jj]) is None,
        folder_error(folders[j], walked[j]) is Some,
    ensures
        folders_error(folders, walked) == folder_error(folders[j], walked[j]),
    decreases j,
{
    if j > 0 {
        lemma_folders_error_at(folders.drop_first(), walked.drop_first(), j - 1);
    }
}

/// An exact copy of a byte vector.
fn copy_bytes(v: &Vec<u8>) -> (r: Vec<u8>)
    ensures
        r@ == v@,
{
    let mut r: Vec<u8> = Vec::new();
    let mut i: usize = 0;
    while i < v.len()
        invariant
            0 <= i <= v@.len(),
            r@ == v@.subrange(0, i as int),
        decreases v@.len() - i,
    {
        r.push(v[i]);
        proof {
            assert(r@ =~= v@.subrange(0, i as int + 1));
        }
        i = i + 1;
    }
    proof {
        assert(r@ =~= v@);
    }
    r
}

/// Resolve one parsed definition into a servable package.
///
/// `file_data` holds, per declared file, the bytes the host read at the
/// source resolved by `resolve_source`; `folder_files` holds, per
/// declared folder, the regular files found walking it, in walk order;
/// `image_data` holds, per metadata image path, the bytes read for it;
/// `changelog_text` is the changelog the host could read, if any.
///
/// Succeeds exactly when the definition resolves (`definition_outcome`
/// is `None`); a failure names the definition's directory and the first
/// failure in resolution order, and excludes only this definition.
#[verifier::loop_isolation(false)]
pub fn build_package(
    dir: &str,
    manifest: &PluginToml,
    file_data: Vec<Option<Vec<u8>>>,
    folder_files: Vec<Vec<WalkedFile>>,
    image_data: Vec<Option<Vec<u8>>>,
    changelog_text: Option<String>,
) -> (r: Result<Plugin, RegistryError>)
    requires
        file_data@.len() == manifest@.files.len(),
        folder_files@.len() == folder_count(manifest@.folders),
        image_data@.len() == image_count(manifest@.metadata),
    ensures
        (r is Ok) <==> definition_outcome(
            manifest@.version,
            file_data.deep_view(),
            folders_seq(manifest@.folders),
            walked_views(folder_files@),
        ) is None,
        (match r {
            Err(e) => e@.dir == dir@ && Some(e@.kind) == definition_outcome(
                manifest@.version,
                file_data.deep_view(),
                folders_seq(manifest@.folders),
                walked_views(folder_files@),
            ),
            Ok(p) => {
                &&& p@.name == manifest@.name
                &&& Some(p@.plugin_version) == semver_canon(manifest@.version)
                &&& semver_canon(p@.plugin_version) == Some(p@.plugin_version)
                &&& p@.beta == (manifest@.beta == Some(true))
                &&& p@.skyline_version == skyline_version_spec(manifest@.skyline_version)
                &&& p@.files == artifacts_after(
                    base_artifacts(manifest@.files, file_data.deep_view()),
                    folders_seq(manifest@.folders),
                    walked_views(folder_files@),
                    folders_seq(manifest@.folders).len() as int,
                )
                &&& p@.metadata == metadata_model(
                    manifest@.metadata,
                    image_data.deep_view(),
                    (match changelog_text {
                        Some(c) => Some(c@),
                        None => None,
                    }),
                )
            },
        }),
{
    let ghost fd = file_data.deep_view();
    let ghost fseq = folders_seq(manifest@.folders);
    let ghost wseq = walked_views(folder_files@);

    let plugin_version = match decode_version(manifest.version.as_str()) {
        Some(v) => v,
        None => {
            return Err(RegistryError { dir: dir.to_owned(), kind: ErrorKind::ManifestParse });
        },
    };

    let mut arts: Vec<Artifact> = Vec::new();
    let mut i: usize = 0;
    while i < manifest.files.len()
        invariant
            fd == file_data.deep_view(),
            fd.len() == manifest@.files.len(),
            0 <= i <= manifest@.files.len(),
            arts@.len() == i,
            forall|jj: int| 0 <= jj < i ==> #[trigger] fd[jj] is Some,
            forall|jj: int|
                0 <= jj < i ==> #[trigger] arts@[jj]@ == base_artifacts(manifest@.files, fd)[jj],
        decreases manifest@.files.len() - i,
    {
        match &file_data[i] {
            None => {
                proof {
                    assert(fd[i as int] is None);
                    assert(!all_reads_ok(fd));
                }
                return Err(RegistryError { dir: dir.to_owned(), kind: ErrorKind::FileRead });
            },
            Some(d) => {
                arts.push(
                    Artifact {
                        install_location: manifest.files[i].install_location.clone(),
                        data: copy_bytes(d),
                    },
                );
                proof {
                    assert(arts@[i as int]@.data =~= base_artifacts(manifest@.files, fd)[
                        i as int
                    ].data);
                    assert(arts@[i as int]@ == base_artifacts(manifest@.files, fd)[i as int]);
                }
            },
        }
        i = i + 1;
    }
    proof {
        assert(all_reads_ok(fd));
        assert(Seq::new(arts@.len(), |k: int| arts@[k]@) =~= base_artifacts(manifest@.files, fd));
    }
    let ghost base = base_artifacts(manifest@.files, fd);

    let empty_folders: Vec<PluginFolder> = Vec::new();
    let folders: &Vec<PluginFolder> = match &manifest.folders {
        Some(fs) => fs,
        None => &empty_folders,
    };
    proof {
        assert(fseq =~= Seq::new(folders@.len(), |j: int| folders@[j]@));
    }
    let mut j: usize = 0;
    while j < folders.len()
        invariant
            fd == file_data.deep_view(),
            fseq == Seq::new(folders@.len(), |jx: int| folders@[jx]@),
            wseq == walked_views(folder_files@),
            folder_files@.len() == fseq.len(),
            fseq.len() == folders@.len(),
            0 <= j <= folders@.len(),
            all_reads_ok(fd),
            semver_valid(manifest@.version),
            forall|jj: int| 0 <= jj < j ==> folder_error(#[trigger] fseq[jj], wseq[jj]) is None,
            Seq::new(arts@.len(), |k: int| arts@[k]@) == artifacts_after(base, fseq, wseq, j as int),
        decreases folders@.len() - j,
    {
        let folder = &folders[j];
        let root = match &folder.install_root_location {
            InstallLocation::AbsolutePath(p) => p.clone(),
            InstallLocation::Reserved => {
                proof {
                    lemma_folders_error_at(fseq, wseq, j as int);
                }
                return Err(RegistryError { dir: dir.to_owned(), kind: ErrorKind::FolderLayout });
            },
        };
        let walked = &folder_files[j];
        let ghost prev = artifacts_after(base, fseq, wseq, j as int);
        let ghost w = wseq[j as int];
        proof {
            assert(w =~= Seq::new(walked@.len(), |k: int| walked@[k]@));
            assert(folder_dests(w.take(0), root@).reverse() + prev =~= prev);
        }
        let mut k: usize = 0;
        while k < walked.len()
            invariant
                w == Seq::new(walked@.len(), |kx: int| walked@[kx]@),
                w.len() == walked@.len(),
                0 <= k <= walked@.len(),
                root@ == root_of(fseq[j as int]),
                fseq[j as int].install_root_location is AbsolutePath,
                0 <= j < fseq.len(),
                wseq[j as int] == w,
                fd == file_data.deep_view(),
                all_reads_ok(fd),
                semver_valid(manifest@.version),
                walked.len() == folder_files@[j as int]@.len(),
                folder_files@.len() == fseq.len(),
                wseq == walked_views(folder_files@),
                forall|jj: int| 0 <= jj < j ==> folder_error(#[trigger] fseq[jj], wseq[jj]) is None,
                forall|kk: int|
                    0 <= kk < k ==> rewrite_spec(#[trigger] w[kk].path, "plugins"@, root@) is Some
                        && w[kk].data is Some,
                Seq::new(arts@.len(), |x: int| arts@[x]@) == folder_dests(
                    w.take(k as int),
                    root@,
                ).reverse() + prev,
            decreases walked@.len() - k,
        {
            let wf = &walked[k];
            match rewrite_anchored(wf.path.as_str(), "plugins", root.as_str()) {
                None => {
                    proof {
                        lemma_walked_error_at(w, root@, k as int);
                        lemma_folders_error_at(fseq, wseq, j as int);
                    }
                    return Err(
                        RegistryError { dir: dir.to_owned(), kind: ErrorKind::FolderLayout },
                    );
                },
                Some(dest) => {
                    match &wf.data {
                        None => {
                            proof {
                                lemma_walked_error_at(w, root@, k as int);
                                lemma_folders_error_at(fseq, wseq, j as int);
                            }
                            return Err(
                                RegistryError { dir: dir.to_owned(), kind: ErrorKind::FileRead },
                            );
                        },
                        Some(d) => {
                            let ghost varts = arts@;
                            let ghost before = Seq::new(arts@.len(), |q: int| arts@[q]@);
                            arts.insert(
                                0,
                                Artifact {
                                    install_location: InstallLocation::AbsolutePath(dest),
                                    data: copy_bytes(d),
                                },
                            );
                            proof {
                                let na = Seq::new(arts@.len(), |x: int| arts@[x]@);
                                let fdc = folder_dests(w.take(k as int), root@);
                                let fdk = folder_dests(w.take(k as int + 1), root@);
                                assert(before == fdc.reverse() + prev);
                                assert(fdk.len() == k + 1);
                                assert(na.len() == k + 1 + prev.len());
                                assert forall|x: int| 0 <= x < na.len() implies na[x] == (
                                fdk.reverse() + prev)[x] by {
                                    if x == 0 {
                                        assert(na[0] == fdk[k as int]);
                                    } else {
                                        assert(arts@[x] == varts[x - 1]);
                                        assert(na[x] == before[x - 1]);
                                        if x <= k as int {
                                            assert(before[x - 1] == fdc.reverse()[x - 1]);
                                            assert(fdc.reverse()[x - 1] == fdc[k - x]);
                                            assert(w.take(k as int + 1)[k - x] == w.take(
                                                k as int,
                                            )[k - x]);
                                            assert(fdk[k - x] == fdc[k - x]);
                                            assert(fdk.reverse()[x] == fdk[k - x]);
                                        } else {
                                            assert(before[x - 1] == prev[x - 1 - k]);
                                        }
                                    }
                                }
                                assert(na =~= fdk.reverse() + prev);
                            }
                        },
                    }
                },
            }
            k = k + 1;
        }
        let empty_bytes: Vec<u8> = Vec::new();
        proof {
            assert(empty_bytes@ =~= Seq::<u8>::empty());
        }
        arts.push(
            Artifact { install_location: folder.install_root_location.clone(), data: empty_bytes },
        );
        proof {
            assert(w.take(w.len() as int) =~= w);
            lemma_walked_error_none(w, root@);
            assert(Seq::new(arts@.len(), |x: int| arts@[x]@) =~= artifacts_after(
                base,
                fseq,
                wseq,
                j as int + 1,
            ));
        }
        j = j + 1;
    }
    proof {
        lemma_folders_error_none(fseq, wseq);
    }

    let skyline_version = match &manifest.skyline_version {
        Some(s) => match decode_version(s.as_str()) {
            Some(v) => v,
            None => "0.0.0".to_owned(),
        },
        None => "0.0.0".to_owned(),
    };

    let ghost clv: Option<Seq<char>> = match &changelog_text {
        Some(c) => Some(c@),
        None => None,
    };
    let metadata = match &manifest.metadata {
        None => Metadata::default(),
        Some(m) => {
            let images: Option<Vec<Vec<u8>>> = match &m.images {
                None => None,
                Some(_) => {
                    let mut imgs: Vec<Vec<u8>> = Vec::new();
                    let mut x: usize = 0;
                    while x < image_data.len()
                        invariant
                            0 <= x <= image_data@.len(),
                            imgs@.len() == x,
                            forall|y: int|
                                0 <= y < x ==> imgs@[y]@ == (match image_data.deep_view()[y] {
                                    Some(dd) => dd,
                                    None => Seq::<u8>::empty(),
                                }),
                        decreases image_data@.len() - x,
                    {
                        match &image_data[x] {
                            Some(d) => {
                                imgs.push(copy_bytes(d));
                                proof {
                                    assert(image_data.deep_view()[x as int] matches Some(dd)
                                        && imgs@[x as int]@ =~= dd);
                                }
                            },
                            None => {
                                imgs.push(Vec::new());
                                proof {
                                    assert(image_data.deep_view()[x as int] is None);
                                    assert(imgs@[x as int]@ =~= Seq::<u8>::empty());
                                }
                            },
                        }
                        x = x + 1;
                    }
                    Some(imgs)
                },
            };
            Metadata {
                name: (match &m.name {
                    Some(n) => Some(n.clone()),
                    None => None,
                }),
                images,
                description: (match &m.description {
                    Some(d) => Some(d.clone()),
                    None => None,
                }),
                changelog: changelog_text,
            }
        },
    };

    let beta = match manifest.beta {
        Some(b) => b,
        None => false,
    };

    let p = Plugin {
        name: manifest.name.clone(),
        plugin_version,
        files: arts,
        skyline_version,
        beta,
        metadata,
    };
    proof {
        assert(p@.files =~= artifacts_after(base, fseq, wseq, fseq.len() as int));
        let mm = metadata_model(manifest@.metadata, image_data.deep_view(), clv);
        match p@.metadata.images {
            Some(a) => {
                assert(mm.images is Some);
                assert(a =~~= mm.images->0);
            },
            None => {
            },
        }
        assert(p@.metadata == mm);
    }
    Ok(p)
}

/// Law: folder flattening never emits rewritten artifacts without their
/// folder's sentinel. After flattening the first `j` folders, the last
/// `j` artifacts are exactly the folders' sentinels — each folder's own
/// install root with empty contents — in declaration order, whatever
/// destinations the flattened files took.
pub proof fn lemma_folder_sentinels(
    base: Seq<ArtifactModel>,
    folders: Seq<PluginFolderModel>,
    walked: Seq<Seq<WalkedModel>>,
    j: int,
)
    requires
        0 <= j <= folders.len(),
    ensures
        artifacts_after(base, folders, walked, j).len() >= j,
        forall|k: int|
            0 <= k < j ==> artifacts_after(base, folders, walked, j)[artifacts_after(
                base,
                folders,
                walked,
                j,
            ).len() - j + k] == sentinel(folders[k]),
    decreases j,
{
    if j > 0 {
        lemma_folder_sentinels(base, folders, walked, j - 1);
        let prev = artifacts_after(base, folders, walked, j - 1);
        let cur = artifacts_after(base, folders, walked, j);
        let front = folder_dests(walked[j - 1], root_of(folders[j - 1])).reverse();
        assert(cur == front + prev + seq![sentinel(folders[j - 1])]);
        assert(cur.len() == front.len() + prev.len() + 1);
        assert forall|k: int| 0 <= k < j implies cur[cur.len() - j + k] == sentinel(folders[k]) by {
            if k < j - 1 {
                assert(cur[cur.len() - j + k] == prev[prev.len() - (j - 1) + k]);
            } else {
                assert(cur[cur.len() - 1] == sentinel(folders[j - 1]));
            }
        }
    }
}

/// One immediate child of the registry root, as the host's scan found it.
#[derive(Debug)]
pub enum DefinitionSource {
    /// Not a directory: contributes nothing, not even an error.
    NotADirectory,
    /// A directory without a manifest file.
    MissingManifest { dir: String },
    /// A directory whose manifest text does not parse.
    UnparsableManifest { dir: String },
    /// A parsed manifest with everything the host read for it.
    Manifest {
        dir: String,
        manifest: PluginToml,
        file_data: Vec<Option<Vec<u8>>>,
        folder_files: Vec<Vec<WalkedFile>>,
        image_data: Vec<Option<Vec<u8>>>,
        changelog_text: Option<String>,
    },
}

/// Mathematical view of a `DefinitionSource`.
pub enum DefModel {
    NotADirectory,
    MissingManifest { dir: Seq<char> },
    UnparsableManifest { dir: Seq<char> },
    Manifest {
        dir: Seq<char>,
        manifest: PluginTomlModel,
        file_data: Seq<Option<Seq<u8>>>,
        folder_files: Seq<Seq<WalkedModel>>,
        image_data: Seq<Option<Seq<u8>>>,
        changelog_text: Option<Seq<char>>,
    },
}

impl View for DefinitionSource {
    type V = DefModel;

    open spec fn view(&self) -> DefModel {
        match self {
            DefinitionSource::NotADirectory => DefModel::NotADirectory,
            DefinitionSource::MissingManifest { dir } => DefModel::MissingManifest { dir: dir@ },
            DefinitionSource::UnparsableManifest { dir } => DefModel::UnparsableManifest {
                dir: dir@,
            },
            DefinitionSource::Manifest {
                dir,
                manifest,
                file_data,
                folder_files,
                image_data,
                changelog_text,
            } => DefModel::Manifest {
                dir: dir@,
                manifest: manifest@,
                file_data: file_data.deep_view(),
                folder_files: walked_views(folder_files@),
                image_data: image_data.deep_view(),
                changelog_text: (match changelog_text {
                    Some(c) => Some(c@),
                    None => None,
                }),
            },
        }
    }
}

/// A definition snapshot is consistent: the host handed one read outcome
/// per declared file, one listing per declared folder, and one read
/// outcome per metadata image.
pub open spec fn def_wf(d: DefModel) -> bool {
    match d {
        DefModel::Manifest { manifest, file_data, folder_files, image_data, .. } => {
            &&& file_data.len() == manifest.files.len()
            &&& folder_files.len() == folder_count(manifest.folders)
            &&& image_data.len() == image_count(manifest.metadata)
        },
        _ => true,
    }
}

/// How one scanned definition resolves: `None` for a servable package.
pub open spec fn def_outcome(d: DefModel) -> Option<ErrorKind> {
    match d {
        DefModel::NotADirectory => None,
        DefModel::MissingManifest { .. } => Some(ErrorKind::MissingManifest),
        DefModel::UnparsableManifest { .. } => Some(ErrorKind::ManifestParse),
        DefModel::Manifest { manifest, file_data, folder_files, .. } => definition_outcome(
            manifest.version,
            file_data,
            folders_seq(manifest.folders),
            folder_files,
        ),
    }
}

/// The package a resolving definition yields.
pub open spec fn plugin_of(d: DefModel) -> PluginModel {
    match d {
        DefModel::Manifest { manifest, file_data, folder_files, image_data, changelog_text, .. } => {
            PluginModel {
                name: manifest.name,
                plugin_version: semver_canon(manifest.version)->0,
                files: artifacts_after(
                    base_artifacts(manifest.files, file_data),
                    folders_seq(manifest.folders),
                    folder_files,
                    folders_seq(manifest.folders).len() as int,
                ),
                skyline_version: skyline_version_spec(manifest.skyline_version),
                beta: manifest.beta == Some(true),
                metadata: metadata_model(manifest.metadata, image_data, changelog_text),
            }
        },
        _ => PluginModel {
            name: Seq::empty(),
            plugin_version: Seq::empty(),
            files: Seq::empty(),
            skyline_version: Seq::empty(),
            beta: false,
            metadata: MetadataModel { name: None, images: None, description: None, changelog: None },
        },
    }
}

/// The directory a definition came from.
pub open spec fn dir_of(d: DefModel) -> Seq<char> {
    match d {
        DefModel::NotADirectory => Seq::empty(),
        DefModel::MissingManifest { dir } => dir,
        DefModel::UnparsableManifest { dir } => dir,
        DefModel::Manifest { dir, .. } => dir,
    }
}

/// The servable packages a scan yields: one per definition that resolves,
/// in scan order.
pub open spec fn registry_plugins(defs: Seq<DefModel>) -> Seq<PluginModel>
    decreases defs.len(),
{
    if defs.len() == 0 {
        Seq::empty()
    } else {
        let rest = registry_plugins(defs.drop_first());
        if defs[0] is Manifest && def_outcome(defs[0]) is None {
            seq![plugin_of(defs[0])] + rest
        } else {
            rest
        }
    }
}

/// The per-definition errors a scan yields, in scan order.
pub open spec fn registry_errors(defs: Seq<DefModel>) -> Seq<RegistryErrorModel>
    decreases defs.len(),
{
    if defs.len() == 0 {
        Seq::empty()
    } else {
        let rest = registry_errors(defs.drop_first());
        match def_outcome(defs[0]) {
            Some(k) => seq![RegistryErrorModel { dir: dir_of(defs[0]), kind: k }] + rest,
            None => rest,
        }
    }
}

/// Build the registry from one scan of the registry root: every
/// definition that resolves becomes a servable package, every failing one
/// an error entry, each in scan order. One bad definition never fails the
/// build as a whole.
#[verifier::loop_isolation(false)]
pub fn build_registry(defs: Vec<DefinitionSource>) -> (r: (Vec<Plugin>, Vec<RegistryError>))
    requires
        forall|i: int| 0 <= i < defs@.len() ==> def_wf(#[trigger] defs@[i]@),
    ensures
        plugins_view(r.0@) == registry_plugins(Seq::new(defs@.len(), |i: int| defs@[i]@)),
        Seq::new(r.1@.len(), |i: int| r.1@[i]@) == registry_errors(
            Seq::new(defs@.len(), |i: int| defs@[i]@),
        ),
    decreases defs@.len(),
{
    let ghost dv = Seq::new(defs@.len(), |i: int| defs@[i]@);
    let mut defs = defs;
    if defs.len() == 0 {
        let r = (Vec::<Plugin>::new(), Vec::<RegistryError>::new());
        proof {
            assert(plugins_view(r.0@) =~= registry_plugins(dv));
            assert(Seq::new(r.1@.len(), |i: int| r.1@[i]@) =~= registry_errors(dv));
        }
        return r;
    }
    let d = defs.remove(0);
    proof {
        assert(Seq::new(defs@.len(), |i: int| defs@[i]@) =~= dv.drop_first());
        assert(d@ == dv[0]);
    }
    let (mut ps, mut es) = build_registry(defs);
    match d {
        DefinitionSource::NotADirectory => {
            proof {
                assert(plugins_view(ps@) =~= registry_plugins(dv));
                assert(Seq::new(es@.len(), |i: int| es@[i]@) =~= registry_errors(dv));
            }
            (ps, es)
        },
        DefinitionSource::MissingManifest { dir } => {
            es.insert(0, RegistryError { dir, kind: ErrorKind::MissingManifest });
            proof {
                assert(plugins_view(ps@) =~= registry_plugins(dv));
                assert(Seq::new(es@.len(), |i: int| es@[i]@) =~= registry_errors(dv));
            }
            (ps, es)
        },
        DefinitionSource::UnparsableManifest { dir } => {
            es.insert(0, RegistryError { dir, kind: ErrorKind::ManifestParse });
            proof {
                assert(plugins_view(ps@) =~= registry_plugins(dv));
                assert(Seq::new(es@.len(), |i: int| es@[i]@) =~= registry_errors(dv));
            }
            (ps, es)
        },
        DefinitionSource::Manifest {
            dir,
            manifest,
            file_data,
            folder_files,
            image_data,
            changelog_text,
        } => {
            match build_package(
                dir.as_str(),
                &manifest,
                file_data,
                folder_files,
                image_data,
                changelog_text,
            ) {
                Ok(p) => {
                    proof {
                        assert(p@ == plugin_of(dv[0]));
                    }
                    ps.insert(0, p);
                    proof {
                        assert(plugins_view(ps@) =~= registry_plugins(dv));
                        assert(Seq::new(es@.len(), |i: int| es@[i]@) =~= registry_errors(dv));
                    }
                    (ps, es)
                },
                Err(e) => {
                    es.insert(0, e);
                    proof {
                        assert(plugins_view(ps@) =~= registry_plugins(dv));
                        assert(Seq::new(es@.len(), |i: int| es@[i]@) =~= registry_errors(dv));
                    }
                    (ps, es)
                },
            }
        },
    }
}

} // verus!
