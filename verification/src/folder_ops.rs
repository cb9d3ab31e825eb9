//! Folder descriptors, their resolution, and the folder operations.
//!
//! A [`PCloudFolder`] addresses a folder by numeric id or by absolute path.
//! The root path `"/"` is special-cased to the fixed id `0` without any
//! network access; any other path must be absolute.  Every folder operation
//! validates its descriptors before a request plan exists, so parameter
//! mistakes surface at the call site and never cost a round trip.

use crate::pcloud_client::PCloudClient;
use crate::pcloud_model::{FileOrFolderStat, Metadata, PCloudResult};
use crate::request::{
    clone_opt_string, opt_push_text, opt_push_uint, push_flag_if, ApiOperation, HttpMethod,
    ParamKey, QueryParam, RequestPlan,
};
use vstd::prelude::*;
use vstd::string::StrSliceExecFns;

verus! {

/// The path consists of the single root separator.
pub open spec fn is_root_path(s: Seq<char>) -> bool {
    s.len() == 1 && s[0] == '/'
}

/// The path starts at the root; the service accepts only absolute paths.
pub open spec fn is_absolute_path(s: Seq<char>) -> bool {
    s.len() >= 1 && s[0] == '/'
}

/// A folder reference: by numeric id (preferred) or by absolute path.
#[derive(Debug)]
pub struct PCloudFolder {
    /// Id of the target folder.
    pub folder_id: Option<u64>,
    /// Path of the target folder.
    pub path: Option<String>,
}

impl Clone for PCloudFolder {
    fn clone(&self) -> (res: Self)
        ensures
            res == *self,
    {
        PCloudFolder { folder_id: self.folder_id, path: clone_opt_string(&self.path) }
    }
}

impl PCloudFolder {
    /// Neither an id nor a path is present, so the reference cannot resolve.
    pub open spec fn is_empty_spec(self) -> bool {
        self.folder_id is None && self.path is None
    }

    /// Whether the descriptor carries neither an id nor a path.
    pub fn is_empty(&self) -> (r: bool)
        ensures
            r == self.is_empty_spec(),
    {
        self.folder_id.is_none() && self.path.is_none()
    }

    /// References the folder with the given numeric id; never needs a lookup.
    pub fn from_folder_id(folder_id: u64) -> (r: PCloudFolder)
        ensures
            r == (PCloudFolder { folder_id: Some(folder_id), path: None }),
    {
        PCloudFolder { folder_id: Some(folder_id), path: None }
    }

    /// References a folder by path.  The root path `"/"` becomes the fixed id
    /// `0` immediately; any other path must be absolute or the reference is
    /// rejected with `InvalidPath`.
    pub fn try_from_path(path: &str) -> (r: Result<PCloudFolder, PCloudResult>)
        ensures
            is_root_path(path@) ==> r == Result::<PCloudFolder, PCloudResult>::Ok(
                PCloudFolder { folder_id: Some(0u64), path: None },
            ),
            !is_root_path(path@) && is_absolute_path(path@) ==> (r is Ok && r->Ok_0.folder_id
                is None && r->Ok_0.path is Some && r->Ok_0.path->0@ == path@),
            !is_absolute_path(path@) ==> r == Result::<PCloudFolder, PCloudResult>::Err(
                PCloudResult::InvalidPath,
            ),
    {
        let len = path.unicode_len();
        if len == 1 && path.get_char(0) == '/' {
            Ok(PCloudFolder { folder_id: Some(0), path: None })
        } else if len >= 1 && path.get_char(0) == '/' {
            Ok(PCloudFolder { folder_id: None, path: Some(path.to_owned()) })
        } else {
            Err(PCloudResult::InvalidPath)
        }
    }

    /// Extracts a folder reference from a metadata record; a file record is
    /// rejected with `InvalidFileOrFolderName`.
    pub fn try_from_metadata(metadata: &Metadata) -> (r: Result<PCloudFolder, PCloudResult>)
        ensures
            !metadata.isfolder ==> r == Result::<PCloudFolder, PCloudResult>::Err(
                PCloudResult::InvalidFileOrFolderName,
            ),
            metadata.isfolder ==> r == Result::<PCloudFolder, PCloudResult>::Ok(
                PCloudFolder { folder_id: metadata.folderid, path: None },
            ),
    {
        if !metadata.isfolder {
            Err(PCloudResult::InvalidFileOrFolderName)
        } else {
            Ok(PCloudFolder { folder_id: metadata.folderid, path: None })
        }
    }

    /// Extracts a folder reference from a stat response; anything but a
    /// successful response carrying metadata is rejected with `InvalidPath`.
    pub fn try_from_stat(stat: &FileOrFolderStat) -> (r: Result<PCloudFolder, PCloudResult>)
        ensures
            stat.result == PCloudResult::Success && stat.metadata is Some ==> (if stat.metadata->0.isfolder {
                r == Result::<PCloudFolder, PCloudResult>::Ok(
                    PCloudFolder { folder_id: stat.metadata->0.folderid, path: None },
                )
            } else {
                r == Result::<PCloudFolder, PCloudResult>::Err(
                    PCloudResult::InvalidFileOrFolderName,
                )
            }),
            !(stat.result == PCloudResult::Success && stat.metadata is Some) ==> r == Result::<
                PCloudFolder,
                PCloudResult,
            >::Err(PCloudResult::InvalidPath),
    {
        if stat.result == PCloudResult::Success {
            match &stat.metadata {
                Some(m) => PCloudFolder::try_from_metadata(m),
                None => Err(PCloudResult::InvalidPath),
            }
        } else {
            Err(PCloudResult::InvalidPath)
        }
    }
}

/// Outcome of one local folder-resolution step: either the numeric id is
/// already known, or a single metadata fetch for the path is required.
#[derive(Debug, PartialEq, Eq)]
pub enum FolderResolution {
    /// The folder id is known; no network access is needed.
    Resolved { folder_id: u64 },
    /// One stat request for this path is needed to learn the id.
    NeedsStat { path: String },
}

/// What resolving a folder descriptor does, before any network access: an id
/// resolves immediately — even when a path is also present; a path alone
/// requires a single stat round trip; an empty descriptor fails with
/// `NoFileIdOrPathProvided`.
pub open spec fn folder_resolution_spec(folder: PCloudFolder) -> Result<
    FolderResolution,
    PCloudResult,
> {
    if folder.folder_id is Some {
        Ok(FolderResolution::Resolved { folder_id: folder.folder_id->0 })
    } else if folder.path is Some {
        Ok(FolderResolution::NeedsStat { path: folder.path->0 })
    } else {
        Err(PCloudResult::NoFileIdOrPathProvided)
    }
}

/// Normalises a folder descriptor towards a numeric id without any network
/// access, exactly as [`folder_resolution_spec`] describes.
pub fn resolve_folder_step(folder: PCloudFolder) -> (r: Result<FolderResolution, PCloudResult>)
    ensures
        r == folder_resolution_spec(folder),
{
    match folder.folder_id {
        Some(id) => Ok(FolderResolution::Resolved { folder_id: id }),
        None => match folder.path {
            Some(p) => Ok(FolderResolution::NeedsStat { path: p }),
            None => Err(PCloudResult::NoFileIdOrPathProvided),
        },
    }
}

/// Builds the single metadata-fetch request that resolves a folder path to
/// its numeric id.  The request is idempotent and safely retryable.
pub fn folder_stat_request(client: &PCloudClient, path: String) -> (r: RequestPlan)
    ensures
        r.method == HttpMethod::Get,
        r.operation == ApiOperation::Stat,
        r.params@ == opt_push_text(
            opt_push_text(Seq::<QueryParam>::empty(), ParamKey::Path, Some(path)),
            ParamKey::Auth,
            client.session_token,
        ),
{
    let mut plan = RequestPlan::new(HttpMethod::Get, ApiOperation::Stat);
    plan.add_opt_text(ParamKey::Path, Some(path));
    plan.add_opt_text(ParamKey::Auth, clone_opt_string(&client.session_token));
    plan
}

/// Extracts the numeric folder id from the stat response fetched for a
/// path-only descriptor.  Fails with `NoFileIdOrPathProvided` when the
/// response carries no metadata, the object is not a folder, or the record
/// has no folder id.
pub fn folder_id_from_stat(stat: &FileOrFolderStat) -> (r: Result<u64, PCloudResult>)
    ensures
        stat.metadata is Some ==> (if stat.metadata->0.isfolder && stat.metadata->0.folderid is Some {
            r == Result::<u64, PCloudResult>::Ok(stat.metadata->0.folderid->0)
        } else {
            r == Result::<u64, PCloudResult>::Err(PCloudResult::NoFileIdOrPathProvided)
        }),
        stat.metadata is None ==> r == Result::<u64, PCloudResult>::Err(
            PCloudResult::NoFileIdOrPathProvided,
        ),
{
    match &stat.metadata {
        Some(m) => {
            if !m.isfolder {
                Err(PCloudResult::NoFileIdOrPathProvided)
            } else {
                match m.folderid {
                    Some(id) => Ok(id),
                    None => Err(PCloudResult::NoFileIdOrPathProvided),
                }
            }
        },
        None => Err(PCloudResult::NoFileIdOrPathProvided),
    }
}

/// The root path always resolves to the fixed id `0` with no network access:
/// converting `"/"` yields the descriptor `{ folder_id: 0, path: none }`
/// ([`PCloudFolder::try_from_path`]), and that descriptor's resolution is
/// already `Resolved` — never a stat request.
pub proof fn lemma_root_path_resolves_locally(f: PCloudFolder)
    requires
        f == (PCloudFolder { folder_id: Some(0u64), path: None }),
    ensures
        !f.is_empty_spec(),
        folder_resolution_spec(f) == Result::<FolderResolution, PCloudResult>::Ok(
            FolderResolution::Resolved { folder_id: 0u64 },
        ),
{
}

/// Deletes a folder, either recursively or only when it is empty.
#[derive(Debug)]
pub struct DeleteFolderRequestBuilder {
    /// Session token attached to the planned request.
    pub auth: Option<String>,
    /// Path of the folder.
    pub path: Option<String>,
    /// Id of the folder.
    pub folder_id: Option<u64>,
}

/// The builder [`DeleteFolderRequestBuilder::for_folder`] constructs: the
/// folder's addressing copied over, or `NoFileIdOrPathProvided` when the
/// descriptor is empty.
pub open spec fn delete_folder_builder_spec(client: PCloudClient, folder: PCloudFolder) -> Result<
    DeleteFolderRequestBuilder,
    PCloudResult,
> {
    if !folder.is_empty_spec() {
        Ok(
            DeleteFolderRequestBuilder {
                auth: client.session_token,
                path: folder.path,
                folder_id: folder.folder_id,
            },
        )
    } else {
        Err(PCloudResult::NoFileIdOrPathProvided)
    }
}

impl DeleteFolderRequestBuilder {
    /// Starts a delete operation for `folder`, failing immediately — before
    /// any network access — when the descriptor is empty.
    pub fn for_folder(client: &PCloudClient, folder: &PCloudFolder) -> (r: Result<
        DeleteFolderRequestBuilder,
        PCloudResult,
    >)
        ensures
            r == delete_folder_builder_spec(*client, *folder),
    {
        if folder.folder_id.is_some() || folder.path.is_some() {
            Ok(
                DeleteFolderRequestBuilder {
                    auth: clone_opt_string(&client.session_token),
                    path: clone_opt_string(&folder.path),
                    folder_id: folder.folder_id,
                },
            )
        } else {
            Err(PCloudResult::NoFileIdOrPathProvided)
        }
    }

    /// The query parameters of either delete request.
    pub open spec fn params_spec(self) -> Seq<QueryParam> {
        let s = Seq::<QueryParam>::empty();
        let s = opt_push_text(s, ParamKey::Path, self.path);
        let s = opt_push_uint(s, ParamKey::FolderId, self.folder_id);
        let s = opt_push_text(s, ParamKey::Auth, self.auth);
        s
    }

    /// Plans the recursive delete: the folder and all its contents.
    pub fn build_recursive(self) -> (r: RequestPlan)
        ensures
            r.method == HttpMethod::Get,
            r.operation == ApiOperation::DeleteFolderRecursive,
            r.params@ == self.params_spec(),
    {
        let DeleteFolderRequestBuilder { auth, path, folder_id } = self;
        let mut plan = RequestPlan::new(HttpMethod::Get, ApiOperation::DeleteFolderRecursive);
        plan.add_opt_text(ParamKey::Path, path);
        plan.add_opt_uint(ParamKey::FolderId, folder_id);
        plan.add_opt_text(ParamKey::Auth, auth);
        plan
    }

    /// Plans the delete that succeeds only on an empty folder.
    pub fn build_if_empty(self) -> (r: RequestPlan)
        ensures
            r.method == HttpMethod::Get,
            r.operation == ApiOperation::DeleteFolder,
            r.params@ == self.params_spec(),
    {
        let DeleteFolderRequestBuilder { auth, path, folder_id } = self;
        let mut plan = RequestPlan::new(HttpMethod::Get, ApiOperation::DeleteFolder);
        plan.add_opt_text(ParamKey::Path, path);
        plan.add_opt_uint(ParamKey::FolderId, folder_id);
        plan.add_opt_text(ParamKey::Auth, auth);
        plan
    }
}

/// Creates a folder inside a parent folder.
#[derive(Debug)]
pub struct CreateFolderRequestBuilder {
    /// Session token attached to the planned request.
    pub auth: Option<String>,
    /// Path of the parent folder.
    pub path: Option<String>,
    /// Id of the parent folder.
    pub folder_id: Option<u64>,
    /// Name of the folder to create.
    pub name: String,
    /// Whether an existing folder of that name is returned instead of an error.
    pub if_not_exists: bool,
}

impl CreateFolderRequestBuilder {
    /// Starts a create-folder operation under the parent folder, failing
    /// immediately when the parent descriptor is empty.  By default an
    /// existing folder of the same name is returned rather than an error.
    pub fn for_folder(client: &PCloudClient, parent: &PCloudFolder, name: &str) -> (r: Result<
        CreateFolderRequestBuilder,
        PCloudResult,
    >)
        ensures
            parent.is_empty_spec() ==> r == Result::<
                CreateFolderRequestBuilder,
                PCloudResult,
            >::Err(PCloudResult::NoFileIdOrPathProvided),
            !parent.is_empty_spec() ==> (r matches Ok(b) && b.auth == client.session_token
                && b.path == parent.path && b.folder_id == parent.folder_id && b.name@ == name@
                && b.if_not_exists == true),
    {
        if parent.folder_id.is_some() || parent.path.is_some() {
            Ok(
                CreateFolderRequestBuilder {
                    auth: clone_opt_string(&client.session_token),
                    path: clone_opt_string(&parent.path),
                    folder_id: parent.folder_id,
                    name: name.to_owned(),
                    if_not_exists: true,
                },
            )
        } else {
            Err(PCloudResult::NoFileIdOrPathProvided)
        }
    }

    /// If `true` (the default), an existing folder's metadata is returned
    /// instead of an error; if `false`, creating an existing folder fails.
    pub fn if_not_exists(self, value: bool) -> (r: CreateFolderRequestBuilder)
        ensures
            r == (CreateFolderRequestBuilder { if_not_exists: value, ..self }),
    {
        CreateFolderRequestBuilder { if_not_exists: value, ..self }
    }

    /// The query parameters of the create request.
    pub open spec fn params_spec(self) -> Seq<QueryParam> {
        let s = Seq::<QueryParam>::empty();
        let s = opt_push_text(s, ParamKey::Path, self.path);
        let s = opt_push_uint(s, ParamKey::FolderId, self.folder_id);
        let s = s.push(QueryParam { key: ParamKey::Name, value: crate::request::QueryValue::Text(self.name) });
        let s = opt_push_text(s, ParamKey::Auth, self.auth);
        s
    }

    /// Plans the create request.  The operation depends on the configured
    /// collision behaviour.
    pub fn build(self) -> (r: RequestPlan)
        ensures
            r.method == HttpMethod::Get,
            self.if_not_exists ==> r.operation == ApiOperation::CreateFolderIfNotExists,
            !self.if_not_exists ==> r.operation == ApiOperation::CreateFolder,
            r.params@ == self.params_spec(),
    {
        let CreateFolderRequestBuilder { auth, path, folder_id, name, if_not_exists } = self;
        let operation = if if_not_exists {
            ApiOperation::CreateFolderIfNotExists
        } else {
            ApiOperation::CreateFolder
        };
        let mut plan = RequestPlan::new(HttpMethod::Get, operation);
        plan.add_opt_text(ParamKey::Path, path);
        plan.add_opt_uint(ParamKey::FolderId, folder_id);
        plan.add_text(ParamKey::Name, name);
        plan.add_opt_text(ParamKey::Auth, auth);
        plan
    }
}

/// Copies a folder into a target folder.
#[derive(Debug)]
pub struct CopyFolderRequestBuilder {
    /// Session token attached to the planned request.
    pub auth: Option<String>,
    /// Source folder path.
    pub from_path: Option<String>,
    /// Source folder id.
    pub from_folder_id: Option<u64>,
    /// Destination folder path.
    pub to_path: Option<String>,
    /// Destination folder id.
    pub to_folder_id: Option<u64>,
    /// New folder name.
    pub to_name: Option<String>,
    /// Whether files of the same name are overwritten.
    pub overwrite: bool,
    /// Whether files that already exist are skipped.
    pub skipexisting: bool,
    /// Whether only the content of the source folder is copied.
    pub copycontentonly: bool,
}

/// The builder [`CopyFolderRequestBuilder::copy_folder`] constructs: both
/// descriptors copied over, or `NoFileIdOrPathProvided` when either is empty.
pub open spec fn copy_folder_builder_spec(
    client: PCloudClient,
    source: PCloudFolder,
    target: PCloudFolder,
) -> Result<CopyFolderRequestBuilder, PCloudResult> {
    if !source.is_empty_spec() && !target.is_empty_spec() {
        Ok(
            CopyFolderRequestBuilder {
                auth: client.session_token,
                from_path: source.path,
                from_folder_id: source.folder_id,
                to_path: target.path,
                to_folder_id: target.folder_id,
                to_name: None,
                overwrite: true,
                skipexisting: false,
                copycontentonly: false,
            },
        )
    } else {
        Err(PCloudResult::NoFileIdOrPathProvided)
    }
}

impl CopyFolderRequestBuilder {
    /// Starts a copy of `source` into `target`, failing immediately — before
    /// any network access — when either descriptor is empty.
    pub fn copy_folder(client: &PCloudClient, source: &PCloudFolder, target: &PCloudFolder) -> (r:
        Result<CopyFolderRequestBuilder, PCloudResult>)
        ensures
            r == copy_folder_builder_spec(*client, *source, *target),
    {
        if (source.folder_id.is_some() || source.path.is_some()) && (target.folder_id.is_some()
            || target.path.is_some()) {
            Ok(
                CopyFolderRequestBuilder {
                    auth: clone_opt_string(&client.session_token),
                    from_path: clone_opt_string(&source.path),
                    from_folder_id: source.folder_id,
                    to_path: clone_opt_string(&target.path),
                    to_folder_id: target.folder_id,
                    to_name: None,
                    overwrite: true,
                    skipexisting: false,
                    copycontentonly: false,
                },
            )
        } else {
            Err(PCloudResult::NoFileIdOrPathProvided)
        }
    }

    /// If `true` (the default), files with the same name are overwritten;
    /// otherwise the copy fails on a name collision.
    pub fn overwrite(self, value: bool) -> (r: CopyFolderRequestBuilder)
        ensures
            r == (CopyFolderRequestBuilder { overwrite: value, ..self }),
    {
        CopyFolderRequestBuilder { overwrite: value, ..self }
    }

    /// If set, files that already exist are skipped.
    pub fn skipexisting(self, value: bool) -> (r: CopyFolderRequestBuilder)
        ensures
            r == (CopyFolderRequestBuilder { skipexisting: value, ..self }),
    {
        CopyFolderRequestBuilder { skipexisting: value, ..self }
    }

    /// If set, only the content of the source folder is copied; otherwise the
    /// folder itself is copied.
    pub fn copycontentonly(self, value: bool) -> (r: CopyFolderRequestBuilder)
        ensures
            r == (CopyFolderRequestBuilder { copycontentonly: value, ..self }),
    {
        CopyFolderRequestBuilder { copycontentonly: value, ..self }
    }

    /// The query parameters of the copy request.
    pub open spec fn params_spec(self) -> Seq<QueryParam> {
        let s = Seq::<QueryParam>::empty();
        let s = opt_push_text(s, ParamKey::Path, self.from_path);
        let s = opt_push_uint(s, ParamKey::FolderId, self.from_folder_id);
        let s = opt_push_text(s, ParamKey::ToPath, self.to_path);
        let s = opt_push_uint(s, ParamKey::ToFolderId, self.to_folder_id);
        let s = opt_push_text(s, ParamKey::ToName, self.to_name);
        let s = push_flag_if(s, ParamKey::NoOver, !self.overwrite);
        let s = push_flag_if(s, ParamKey::SkipExisting, self.skipexisting);
        let s = push_flag_if(s, ParamKey::CopyContentOnly, self.copycontentonly);
        let s = opt_push_text(s, ParamKey::Auth, self.auth);
        s
    }

    /// Plans the copy request.
    pub fn build(self) -> (r: RequestPlan)
        ensures
            r.method == HttpMethod::Post,
            r.operation == ApiOperation::CopyFolder,
            r.params@ == self.params_spec(),
    {
        let CopyFolderRequestBuilder {
            auth,
            from_path,
            from_folder_id,
            to_path,
            to_folder_id,
            to_name,
            overwrite,
            skipexisting,
            copycontentonly,
        } = self;
        let mut plan = RequestPlan::new(HttpMethod::Post, ApiOperation::CopyFolder);
        plan.add_opt_text(ParamKey::Path, from_path);
        plan.add_opt_uint(ParamKey::FolderId, from_folder_id);
        plan.add_opt_text(ParamKey::ToPath, to_path);
        plan.add_opt_uint(ParamKey::ToFolderId, to_folder_id);
        plan.add_opt_text(ParamKey::ToName, to_name);
        plan.add_flag_if(ParamKey::NoOver, !overwrite);
        plan.add_flag_if(ParamKey::SkipExisting, skipexisting);
        plan.add_flag_if(ParamKey::CopyContentOnly, copycontentonly);
        plan.add_opt_text(ParamKey::Auth, auth);
        plan
    }
}

/// Renames and/or moves a folder.
#[derive(Debug)]
pub struct MoveFolderRequestBuilder {
    /// Session token attached to the planned request.
    pub auth: Option<String>,
    /// Source folder path.
    pub from_path: Option<String>,
    /// Source folder id.
    pub from_folder_id: Option<u64>,
    /// Destination folder path.
    pub to_path: Option<String>,
    /// Destination folder id.
    pub to_folder_id: Option<u64>,
    /// New folder name.
    pub to_name: Option<String>,
}

/// The builder [`MoveFolderRequestBuilder::move_folder`] constructs.
pub open spec fn move_folder_builder_spec(
    client: PCloudClient,
    source: PCloudFolder,
    target: PCloudFolder,
) -> Result<MoveFolderRequestBuilder, PCloudResult> {
    if !source.is_empty_spec() && !target.is_empty_spec() {
        Ok(
            MoveFolderRequestBuilder {
                auth: client.session_token,
                from_path: source.path,
                from_folder_id: source.folder_id,
                to_path: target.path,
                to_folder_id: target.folder_id,
                to_name: None,
            },
        )
    } else {
        Err(PCloudResult::NoFileIdOrPathProvided)
    }
}

impl MoveFolderRequestBuilder {
    /// Starts a move of `source` into `target`, failing immediately — before
    /// any network access — when either descriptor is empty.
    pub fn move_folder(client: &PCloudClient, source: &PCloudFolder, target: &PCloudFolder) -> (r:
        Result<MoveFolderRequestBuilder, PCloudResult>)
        ensures
            r == move_folder_builder_spec(*client, *source, *target),
    {
        if (source.folder_id.is_some() || source.path.is_some()) && (target.folder_id.is_some()
            || target.path.is_some()) {
            Ok(
                MoveFolderRequestBuilder {
                    auth: clone_opt_string(&client.session_token),
                    from_path: clone_opt_string(&source.path),
                    from_folder_id: source.folder_id,
                    to_path: clone_opt_string(&target.path),
                    to_folder_id: target.folder_id,
                    to_name: None,
                },
            )
        } else {
            Err(PCloudResult::NoFileIdOrPathProvided)
        }
    }

    /// Name of the destination folder; when omitted the original name is kept.
    /// The last write wins.
    pub fn with_new_name(self, value: &str) -> (r: MoveFolderRequestBuilder)
        ensures
            r.to_name matches Some(n) && n@ == value@,
            r == (MoveFolderRequestBuilder { to_name: r.to_name, ..self }),
    {
        MoveFolderRequestBuilder { to_name: Some(value.to_owned()), ..self }
    }

    /// The query parameters of the move request.
    pub open spec fn params_spec(self) -> Seq<QueryParam> {
        let s = Seq::<QueryParam>::empty();
        let s = opt_push_text(s, ParamKey::Path, self.from_path);
        let s = opt_push_uint(s, ParamKey::FolderId, self.from_folder_id);
        let s = opt_push_text(s, ParamKey::ToPath, self.to_path);
        let s = opt_push_uint(s, ParamKey::ToFolderId, self.to_folder_id);
        let s = opt_push_text(s, ParamKey::ToName, self.to_name);
        let s = opt_push_text(s, ParamKey::Auth, self.auth);
        s
    }

    /// Plans the move request.
    pub fn build(self) -> (r: RequestPlan)
        ensures
            r.method == HttpMethod::Post,
            r.operation == ApiOperation::RenameFolder,
            r.params@ == self.params_spec(),
    {
        let MoveFolderRequestBuilder {
            auth,
            from_path,
            from_folder_id,
            to_path,
            to_folder_id,
            to_name,
        } = self;
        let mut plan = RequestPlan::new(HttpMethod::Post, ApiOperation::RenameFolder);
        plan.add_opt_text(ParamKey::Path, from_path);
        plan.add_opt_uint(ParamKey::FolderId, from_folder_id);
        plan.add_opt_text(ParamKey::ToPath, to_path);
        plan.add_opt_uint(ParamKey::ToFolderId, to_folder_id);
        plan.add_opt_text(ParamKey::ToName, to_name);
        plan.add_opt_text(ParamKey::Auth, auth);
        plan
    }
}

/// Lists the content of a folder.
#[derive(Debug)]
pub struct ListFolderRequestBuilder {
    /// Session token attached to the planned request.
    pub auth: Option<String>,
    /// Path of the folder.
    pub path: Option<String>,
    /// Id of the folder.
    pub folder_id: Option<u64>,
    /// Whether the full directory tree is returned.
    pub recursive: bool,
    /// Whether deleted files and folders that can be undeleted are shown.
    pub showdeleted: bool,
    /// Whether only the folder (sub)structure is returned.
    pub nofiles: bool,
    /// Whether only the user's own folders and files are shown.
    pub noshares: bool,
}

/// The builder [`ListFolderRequestBuilder::for_folder`] constructs.
pub open spec fn list_folder_builder_spec(client: PCloudClient, folder: PCloudFolder) -> Result<
    ListFolderRequestBuilder,
    PCloudResult,
> {
    if !folder.is_empty_spec() {
        Ok(
            ListFolderRequestBuilder {
                auth: client.session_token,
                path: folder.path,
                folder_id: folder.folder_id,
                recursive: false,
                showdeleted: false,
                nofiles: false,
                noshares: false,
            },
        )
    } else {
        Err(PCloudResult::NoFileIdOrPathProvided)
    }
}

impl ListFolderRequestBuilder {
    /// Starts a listing of `folder`, failing immediately — before any network
    /// access — when the descriptor is empty.
    pub fn for_folder(client: &PCloudClient, folder: &PCloudFolder) -> (r: Result<
        ListFolderRequestBuilder,
        PCloudResult,
    >)
        ensures
            r == list_folder_builder_spec(*client, *folder),
    {
        if folder.folder_id.is_some() || folder.path.is_some() {
            Ok(
                ListFolderRequestBuilder {
                    auth: clone_opt_string(&client.session_token),
                    path: clone_opt_string(&folder.path),
                    folder_id: folder.folder_id,
                    recursive: false,
                    showdeleted: false,
                    nofiles: false,
                    noshares: false,
                },
            )
        } else {
            Err(PCloudResult::NoFileIdOrPathProvided)
        }
    }

    /// If set, the full directory tree is returned, with all directories'
    /// contents filled.
    pub fn recursive(self, value: bool) -> (r: ListFolderRequestBuilder)
        ensures
            r == (ListFolderRequestBuilder { recursive: value, ..self }),
    {
        ListFolderRequestBuilder { recursive: value, ..self }
    }

    /// If set, deleted files and folders that can be undeleted are shown.
    pub fn showdeleted(self, value: bool) -> (r: ListFolderRequestBuilder)
        ensures
            r == (ListFolderRequestBuilder { showdeleted: value, ..self }),
    {
        ListFolderRequestBuilder { showdeleted: value, ..self }
    }

    /// If set, only the folder (sub)structure is returned.
    pub fn nofiles(self, value: bool) -> (r: ListFolderRequestBuilder)
        ensures
            r == (ListFolderRequestBuilder { nofiles: value, ..self }),
    {
        ListFolderRequestBuilder { nofiles: value, ..self }
    }

    /// If set, only the user's own folders and files are shown.
    pub fn noshares(self, value: bool) -> (r: ListFolderRequestBuilder)
        ensures
            r == (ListFolderRequestBuilder { noshares: value, ..self }),
    {
        ListFolderRequestBuilder { noshares: value, ..self }
    }

    /// The query parameters of the list request.
    pub open spec fn params_spec(self) -> Seq<QueryParam> {
        let s = Seq::<QueryParam>::empty();
        let s = opt_push_text(s, ParamKey::Path, self.path);
        let s = opt_push_uint(s, ParamKey::FolderId, self.folder_id);
        let s = push_flag_if(s, ParamKey::Recursive, self.recursive);
        let s = push_flag_if(s, ParamKey::ShowDeleted, self.showdeleted);
        let s = push_flag_if(s, ParamKey::NoFiles, self.nofiles);
        let s = push_flag_if(s, ParamKey::NoShares, self.noshares);
        let s = opt_push_text(s, ParamKey::Auth, self.auth);
        s
    }

    /// Plans the list request.
    pub fn build(self) -> (r: RequestPlan)
        ensures
            r.method == HttpMethod::Get,
            r.operation == ApiOperation::ListFolder,
            r.params@ == self.params_spec(),
    {
        let ListFolderRequestBuilder {
            auth,
            path,
            folder_id,
            recursive,
            showdeleted,
            nofiles,
            noshares,
        } = self;
        let mut plan = RequestPlan::new(HttpMethod::Get, ApiOperation::ListFolder);
        plan.add_opt_text(ParamKey::Path, path);
        plan.add_opt_uint(ParamKey::FolderId, folder_id);
        plan.add_flag_if(ParamKey::Recursive, recursive);
        plan.add_flag_if(ParamKey::ShowDeleted, showdeleted);
        plan.add_flag_if(ParamKey::NoFiles, nofiles);
        plan.add_flag_if(ParamKey::NoShares, noshares);
        plan.add_opt_text(ParamKey::Auth, auth);
        plan
    }
}

} // verus!
