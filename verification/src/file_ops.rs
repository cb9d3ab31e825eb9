//! File descriptors, their resolution, and the file operations.
//!
//! A [`PCloudFile`] addresses a file by numeric id (preferred) or by path,
//! optionally pinned to a revision.  Every file operation validates its
//! descriptors before a request plan exists; resolution to a numeric id is
//! local whenever an id is present and costs exactly one stat round trip
//! otherwise.

use crate::folder_ops::PCloudFolder;
use crate::pcloud_client::PCloudClient;
use crate::pcloud_model::{
    pcloud_time_in_range, pcloud_time_of, format_date_time_for_pcloud, FileOrFolderStat, Metadata,
    PCloudResult, PublicFileLink, UploadedFile,
};
use crate::request::{
    clone_opt_string, has_param, key_count, lemma_has_param_push, lemma_key_count_opt_push_int,
    lemma_key_count_opt_push_text, lemma_key_count_opt_push_uint, lemma_key_count_push_flag_if,
    opt_push_int, opt_push_text, opt_push_uint, push_flag_if, push_uint_list, ApiOperation,
    HttpMethod, ParamKey, QueryParam, QueryValue, RequestPlan,
};
use vstd::prelude::*;
use vstd::string::StringExecFns;

verus! {

/// A file reference: by numeric id (preferred) or by path, optionally pinned
/// to a revision.
#[derive(Debug)]
pub struct PCloudFile {
    /// Id of the target file.
    pub file_id: Option<u64>,
    /// Path of the target file.
    pub path: Option<String>,
    /// File revision to address.
    pub revision: Option<u64>,
}

impl Clone for PCloudFile {
    fn clone(&self) -> (res: Self)
        ensures
            res == *self,
    {
        PCloudFile {
            file_id: self.file_id,
            path: clone_opt_string(&self.path),
            revision: self.revision,
        }
    }
}

impl PCloudFile {
    /// Neither an id nor a path is present, so the reference cannot resolve.
    pub open spec fn is_empty_spec(self) -> bool {
        self.file_id is None && self.path is None
    }

    /// Whether the descriptor carries neither an id nor a path.
    pub fn is_empty(&self) -> (r: bool)
        ensures
            r == self.is_empty_spec(),
    {
        self.file_id.is_none() && self.path.is_none()
    }

    /// References the file with the given numeric id; never needs a lookup.
    pub fn from_file_id(file_id: u64) -> (r: PCloudFile)
        ensures
            r == (PCloudFile { file_id: Some(file_id), path: None, revision: None }),
    {
        PCloudFile { file_id: Some(file_id), path: None, revision: None }
    }

    /// References a file by path.
    pub fn from_path(path: &str) -> (r: PCloudFile)
        ensures
            r.file_id is None,
            r.revision is None,
            r.path matches Some(p) && p@ == path@,
    {
        PCloudFile { file_id: None, path: Some(path.to_owned()), revision: None }
    }

    /// Pins the reference to a historical revision.  The last write wins.
    pub fn with_revision(self, revision: u64) -> (r: PCloudFile)
        ensures
            r == (PCloudFile { revision: Some(revision), ..self }),
    {
        PCloudFile { revision: Some(revision), ..self }
    }

    /// Extracts a file reference from a metadata record; a folder record is
    /// rejected with `InvalidFileOrFolderName`.
    pub fn try_from_metadata(metadata: &Metadata) -> (r: Result<PCloudFile, PCloudResult>)
        ensures
            metadata.isfolder ==> r == Result::<PCloudFile, PCloudResult>::Err(
                PCloudResult::InvalidFileOrFolderName,
            ),
            !metadata.isfolder ==> r == Result::<PCloudFile, PCloudResult>::Ok(
                PCloudFile { file_id: metadata.fileid, path: None, revision: None },
            ),
    {
        if metadata.isfolder {
            Err(PCloudResult::InvalidFileOrFolderName)
        } else {
            Ok(PCloudFile { file_id: metadata.fileid, path: None, revision: None })
        }
    }

    /// Extracts a file reference from a stat response; anything but a
    /// successful response carrying metadata is rejected with
    /// `InvalidFileOrFolderName`.
    pub fn try_from_stat(stat: &FileOrFolderStat) -> (r: Result<PCloudFile, PCloudResult>)
        ensures
            stat.result == PCloudResult::Success && stat.metadata is Some ==> (if stat.metadata->0.isfolder {
                r == Result::<PCloudFile, PCloudResult>::Err(PCloudResult::InvalidFileOrFolderName)
            } else {
                r == Result::<PCloudFile, PCloudResult>::Ok(
                    PCloudFile { file_id: stat.metadata->0.fileid, path: None, revision: None },
                )
            }),
            !(stat.result == PCloudResult::Success && stat.metadata is Some) ==> r == Result::<
                PCloudFile,
                PCloudResult,
            >::Err(PCloudResult::InvalidFileOrFolderName),
    {
        if stat.result == PCloudResult::Success {
            match &stat.metadata {
                Some(m) => PCloudFile::try_from_metadata(m),
                None => Err(PCloudResult::InvalidFileOrFolderName),
            }
        } else {
            Err(PCloudResult::InvalidFileOrFolderName)
        }
    }
}

/// What [`PCloudFile::describe`] renders: the id or path, with the pinned
/// revision appended after `@` when one is set, and a fixed marker for an
/// empty descriptor.
pub open spec fn file_describe_spec(f: PCloudFile) -> Seq<char> {
    if f.file_id is Some {
        if f.revision is Some {
            crate::pcloud_model::dec_digits(f.file_id->0 as nat) + "@"@
                + crate::pcloud_model::dec_digits(f.revision->0 as nat)
        } else {
            crate::pcloud_model::dec_digits(f.file_id->0 as nat)
        }
    } else if f.path is Some {
        if f.revision is Some {
            f.path->0@ + "@"@ + crate::pcloud_model::dec_digits(f.revision->0 as nat)
        } else {
            f.path->0@
        }
    } else {
        "[Empty pCloud file descriptor!]"@
    }
}

impl PCloudFile {
    /// Renders the descriptor for diagnostics, exactly as
    /// [`file_describe_spec`] describes: the numeric id when one is present
    /// (the path is ignored then), otherwise the path, with `@revision`
    /// appended when a revision is pinned.
    pub fn describe(&self) -> (r: String)
        ensures
            r@ == file_describe_spec(*self),
    {
        match (&self.file_id, &self.path) {
            (Some(id), _) => {
                let mut s = crate::pcloud_model::u64_to_decimal(*id);
                match self.revision {
                    Some(rev) => {
                        s.append("@");
                        s.append(crate::pcloud_model::u64_to_decimal(rev).as_str());
                        s
                    },
                    None => s,
                }
            },
            (None, Some(path)) => {
                let mut s = path.clone();
                match self.revision {
                    Some(rev) => {
                        s.append("@");
                        s.append(crate::pcloud_model::u64_to_decimal(rev).as_str());
                        s
                    },
                    None => s,
                }
            },
            (None, None) => String::from_str("[Empty pCloud file descriptor!]"),
        }
    }
}

/// Outcome of one local file-resolution step: either the numeric id is
/// already known, or a single metadata fetch for the path is required.
#[derive(Debug, PartialEq, Eq)]
pub enum FileResolution {
    /// The file id is known; no network access is needed.
    Resolved { file_id: u64, revision: Option<u64> },
    /// One stat request for this path is needed to learn the id.
    NeedsStat { path: String, revision: Option<u64> },
}

/// What resolving a file descriptor does, before any network access: an id
/// resolves immediately — even when a path is also present; a path alone
/// requires a single stat round trip; an empty descriptor fails with
/// `NoFileIdOrPathProvided`.
pub open spec fn file_resolution_spec(file: PCloudFile) -> Result<FileResolution, PCloudResult> {
    if file.file_id is Some {
        Ok(FileResolution::Resolved { file_id: file.file_id->0, revision: file.revision })
    } else if file.path is Some {
        Ok(FileResolution::NeedsStat { path: file.path->0, revision: file.revision })
    } else {
        Err(PCloudResult::NoFileIdOrPathProvided)
    }
}

/// Normalises a file descriptor towards a numeric id without any network
/// access, exactly as [`file_resolution_spec`] describes.
pub fn resolve_file_step(file: PCloudFile) -> (r: Result<FileResolution, PCloudResult>)
    ensures
        r == file_resolution_spec(file),
{
    match file.file_id {
        Some(id) => Ok(FileResolution::Resolved { file_id: id, revision: file.revision }),
        None => match file.path {
            Some(p) => Ok(FileResolution::NeedsStat { path: p, revision: file.revision }),
            None => Err(PCloudResult::NoFileIdOrPathProvided),
        },
    }
}

/// A descriptor with an id set never resolves through a stat request, even
/// when a path is also set: its resolution is already `Resolved`, carrying
/// that id and the pinned revision.
pub proof fn lemma_id_resolves_locally(f: PCloudFile)
    requires
        f.file_id is Some,
    ensures
        file_resolution_spec(f) == Result::<FileResolution, PCloudResult>::Ok(
            FileResolution::Resolved { file_id: f.file_id->0, revision: f.revision },
        ),
{
}

/// Extracts the numeric file id from the stat response fetched for a
/// path-only descriptor.  Fails with `NoFileIdOrPathProvided` when the
/// response carries no metadata, the object is a folder, or the record has no
/// file id.
pub fn file_id_from_stat(stat: &FileOrFolderStat) -> (r: Result<u64, PCloudResult>)
    ensures
        stat.metadata is Some ==> (if !stat.metadata->0.isfolder && stat.metadata->0.fileid
            is Some {
            r == Result::<u64, PCloudResult>::Ok(stat.metadata->0.fileid->0)
        } else {
            r == Result::<u64, PCloudResult>::Err(PCloudResult::NoFileIdOrPathProvided)
        }),
        stat.metadata is None ==> r == Result::<u64, PCloudResult>::Err(
            PCloudResult::NoFileIdOrPathProvided,
        ),
{
    match &stat.metadata {
        Some(m) => {
            if m.isfolder {
                Err(PCloudResult::NoFileIdOrPathProvided)
            } else {
                match m.fileid {
                    Some(id) => Ok(id),
                    None => Err(PCloudResult::NoFileIdOrPathProvided),
                }
            }
        },
        None => Err(PCloudResult::NoFileIdOrPathProvided),
    }
}

/// Copies a file into a target folder, optionally from a pinned revision.
#[derive(Debug)]
pub struct CopyFileRequestBuilder {
    /// Session token attached to the planned request.
    pub auth: Option<String>,
    /// Source file path.
    pub from_path: Option<String>,
    /// Source file id.
    pub from_file_id: Option<u64>,
    /// Destination folder path.
    pub to_path: Option<String>,
    /// Destination folder id.
    pub to_folder_id: Option<u64>,
    /// New file name.
    pub to_name: Option<String>,
    /// Whether an existing file of the same name is overwritten.
    pub overwrite: bool,
    /// File modification time to set, unix seconds.
    pub mtime: Option<i64>,
    /// File creation time to set, unix seconds; requires `mtime` to be set.
    pub ctime: Option<i64>,
    /// File revision to copy from.
    pub revision_id: Option<u64>,
}

/// The builder [`CopyFileRequestBuilder::copy_file`] constructs: both
/// descriptors copied over (the source's revision included), or
/// `NoFileIdOrPathProvided` when either is empty.
pub open spec fn copy_file_builder_spec(
    client: PCloudClient,
    source: PCloudFile,
    target: PCloudFolder,
) -> Result<CopyFileRequestBuilder, PCloudResult> {
    if !source.is_empty_spec() && !target.is_empty_spec() {
        Ok(
            CopyFileRequestBuilder {
                auth: client.session_token,
                from_path: source.path,
                from_file_id: source.file_id,
                to_path: target.path,
                to_folder_id: target.folder_id,
                to_name: None,
                overwrite: true,
                mtime: None,
                ctime: None,
                revision_id: source.revision,
            },
        )
    } else {
        Err(PCloudResult::NoFileIdOrPathProvided)
    }
}

impl CopyFileRequestBuilder {
    /// Starts a copy of `source` into `target`, failing immediately — before
    /// any network access — when either descriptor is empty.
    pub fn copy_file(client: &PCloudClient, source: &PCloudFile, target: &PCloudFolder) -> (r:
        Result<CopyFileRequestBuilder, PCloudResult>)
        ensures
            r == copy_file_builder_spec(*client, *source, *target),
    {
        if (source.file_id.is_some() || source.path.is_some()) && (target.folder_id.is_some()
            || target.path.is_some()) {
            Ok(
                CopyFileRequestBuilder {
                    auth: clone_opt_string(&client.session_token),
                    from_path: clone_opt_string(&source.path),
                    from_file_id: source.file_id,
                    to_path: clone_opt_string(&target.path),
                    to_folder_id: target.folder_id,
                    to_name: None,
                    overwrite: true,
                    mtime: None,
                    ctime: None,
                    revision_id: source.revision,
                },
            )
        } else {
            Err(PCloudResult::NoFileIdOrPathProvided)
        }
    }

    /// If `true` (the default), an existing file of the same name is
    /// overwritten; otherwise the copy fails on a name collision.
    pub fn overwrite(self, value: bool) -> (r: CopyFileRequestBuilder)
        ensures
            r == (CopyFileRequestBuilder { overwrite: value, ..self }),
    {
        CopyFileRequestBuilder { overwrite: value, ..self }
    }

    /// Sets the file modification time, in unix seconds.  The last write wins.
    pub fn mtime(self, value: i64) -> (r: CopyFileRequestBuilder)
        ensures
            r == (CopyFileRequestBuilder { mtime: Some(value), ..self }),
    {
        CopyFileRequestBuilder { mtime: Some(value), ..self }
    }

    /// Sets the file creation time, in unix seconds; the service requires
    /// `mtime` to be set as well.  The last write wins.
    pub fn ctime(self, value: i64) -> (r: CopyFileRequestBuilder)
        ensures
            r == (CopyFileRequestBuilder { ctime: Some(value), ..self }),
    {
        CopyFileRequestBuilder { ctime: Some(value), ..self }
    }

    /// Name of the destination file; when omitted the original name is kept.
    /// The last write wins.
    pub fn with_new_name(self, value: &str) -> (r: CopyFileRequestBuilder)
        ensures
            r.to_name matches Some(n) && n@ == value@,
            r == (CopyFileRequestBuilder { to_name: r.to_name, ..self }),
    {
        CopyFileRequestBuilder { to_name: Some(value.to_owned()), ..self }
    }

    /// Chooses the file revision to copy from; the latest revision is used
    /// when unset.  The last write wins.
    pub fn with_revision(self, value: u64) -> (r: CopyFileRequestBuilder)
        ensures
            r == (CopyFileRequestBuilder { revision_id: Some(value), ..self }),
    {
        CopyFileRequestBuilder { revision_id: Some(value), ..self }
    }

    /// The query parameters of the copy request.
    pub open spec fn params_spec(self) -> Seq<QueryParam> {
        let s = Seq::<QueryParam>::empty();
        let s = opt_push_text(s, ParamKey::Path, self.from_path);
        let s = opt_push_uint(s, ParamKey::FileId, self.from_file_id);
        let s = opt_push_text(s, ParamKey::ToPath, self.to_path);
        let s = opt_push_uint(s, ParamKey::ToFolderId, self.to_folder_id);
        let s = opt_push_int(s, ParamKey::Mtime, self.mtime);
        let s = opt_push_int(s, ParamKey::Ctime, self.ctime);
        let s = opt_push_text(s, ParamKey::ToName, self.to_name);
        let s = opt_push_uint(s, ParamKey::RevisionId, self.revision_id);
        let s = push_flag_if(s, ParamKey::NoOver, !self.overwrite);
        let s = opt_push_text(s, ParamKey::Auth, self.auth);
        s
    }

    /// Plans the copy request.
    pub fn build(self) -> (r: RequestPlan)
        ensures
            r.method == HttpMethod::Post,
            r.operation == ApiOperation::CopyFile,
            r.params@ == self.params_spec(),
    {
        let CopyFileRequestBuilder {
            auth,
            from_path,
            from_file_id,
            to_path,
            to_folder_id,
            to_name,
            overwrite,
            mtime,
            ctime,
            revision_id,
        } = self;
        let mut plan = RequestPlan::new(HttpMethod::Post, ApiOperation::CopyFile);
        plan.add_opt_text(ParamKey::Path, from_path);
        plan.add_opt_uint(ParamKey::FileId, from_file_id);
        plan.add_opt_text(ParamKey::ToPath, to_path);
        plan.add_opt_uint(ParamKey::ToFolderId, to_folder_id);
        plan.add_opt_int(ParamKey::Mtime, mtime);
        plan.add_opt_int(ParamKey::Ctime, ctime);
        plan.add_opt_text(ParamKey::ToName, to_name);
        plan.add_opt_uint(ParamKey::RevisionId, revision_id);
        plan.add_flag_if(ParamKey::NoOver, !overwrite);
        plan.add_opt_text(ParamKey::Auth, auth);
        plan
    }
}

/// A copy builder with a revision chosen serialises the `revisionid`
/// parameter exactly once, carrying exactly that revision.
pub proof fn lemma_revision_param_once(b: CopyFileRequestBuilder)
    requires
        b.revision_id is Some,
    ensures
        key_count(b.params_spec(), ParamKey::RevisionId) == 1,
        has_param(b.params_spec(), ParamKey::RevisionId, QueryValue::UInt(b.revision_id->0)),
{
    let k = ParamKey::RevisionId;
    let s0 = Seq::<QueryParam>::empty();
    let s1 = opt_push_text(s0, ParamKey::Path, b.from_path);
    let s2 = opt_push_uint(s1, ParamKey::FileId, b.from_file_id);
    let s3 = opt_push_text(s2, ParamKey::ToPath, b.to_path);
    let s4 = opt_push_uint(s3, ParamKey::ToFolderId, b.to_folder_id);
    let s5 = opt_push_int(s4, ParamKey::Mtime, b.mtime);
    let s6 = opt_push_int(s5, ParamKey::Ctime, b.ctime);
    let s7 = opt_push_text(s6, ParamKey::ToName, b.to_name);
    let s8 = opt_push_uint(s7, ParamKey::RevisionId, b.revision_id);
    let s9 = push_flag_if(s8, ParamKey::NoOver, !b.overwrite);
    let s10 = opt_push_text(s9, ParamKey::Auth, b.auth);
    lemma_key_count_opt_push_text(s0, ParamKey::Path, b.from_path, k);
    lemma_key_count_opt_push_uint(s1, ParamKey::FileId, b.from_file_id, k);
    lemma_key_count_opt_push_text(s2, ParamKey::ToPath, b.to_path, k);
    lemma_key_count_opt_push_uint(s3, ParamKey::ToFolderId, b.to_folder_id, k);
    lemma_key_count_opt_push_int(s4, ParamKey::Mtime, b.mtime, k);
    lemma_key_count_opt_push_int(s5, ParamKey::Ctime, b.ctime, k);
    lemma_key_count_opt_push_text(s6, ParamKey::ToName, b.to_name, k);
    lemma_key_count_opt_push_uint(s7, ParamKey::RevisionId, b.revision_id, k);
    lemma_key_count_push_flag_if(s8, ParamKey::NoOver, !b.overwrite, k);
    lemma_key_count_opt_push_text(s9, ParamKey::Auth, b.auth, k);
    let rev_param = QueryParam { key: k, value: QueryValue::UInt(b.revision_id->0) };
    assert(s8 == s7.push(rev_param));
    assert(s8[s7.len() as int] == rev_param);
    assert(has_param(s8, k, QueryValue::UInt(b.revision_id->0)));
    if !b.overwrite {
        lemma_has_param_push(
            s8,
            k,
            QueryValue::UInt(b.revision_id->0),
            QueryParam { key: ParamKey::NoOver, value: QueryValue::Flag },
        );
    }
    if b.auth is Some {
        lemma_has_param_push(
            s9,
            k,
            QueryValue::UInt(b.revision_id->0),
            QueryParam { key: ParamKey::Auth, value: QueryValue::Text(b.auth->0) },
        );
    }
    assert(b.params_spec() == s10);
}

/// Moves (renames) a file into a target folder.
#[derive(Debug)]
pub struct MoveFileRequestBuilder {
    /// Session token attached to the planned request.
    pub auth: Option<String>,
    /// Source file path.
    pub from_path: Option<String>,
    /// Source file id.
    pub from_file_id: Option<u64>,
    /// Destination folder path.
    pub to_path: Option<String>,
    /// Destination folder id.
    pub to_folder_id: Option<u64>,
    /// New file name.
    pub to_name: Option<String>,
    /// File revision to move.
    pub revision_id: Option<u64>,
}

/// The builder [`MoveFileRequestBuilder::move_file`] constructs.
pub open spec fn move_file_builder_spec(
    client: PCloudClient,
    source: PCloudFile,
    target: PCloudFolder,
) -> Result<MoveFileRequestBuilder, PCloudResult> {
    if !source.is_empty_spec() && !target.is_empty_spec() {
        Ok(
            MoveFileRequestBuilder {
                auth: client.session_token,
                from_path: source.path,
                from_file_id: source.file_id,
                to_path: target.path,
                to_folder_id: target.folder_id,
                to_name: None,
                revision_id: source.revision,
            },
        )
    } else {
        Err(PCloudResult::NoFileIdOrPathProvided)
    }
}

impl MoveFileRequestBuilder {
    /// Starts a move of `source` into `target`, failing immediately — before
    /// any network access — when either descriptor is empty.
    pub fn move_file(client: &PCloudClient, source: &PCloudFile, target: &PCloudFolder) -> (r:
        Result<MoveFileRequestBuilder, PCloudResult>)
        ensures
            r == move_file_builder_spec(*client, *source, *target),
    {
        if (source.file_id.is_some() || source.path.is_some()) && (target.folder_id.is_some()
            || target.path.is_some()) {
            Ok(
                MoveFileRequestBuilder {
                    auth: clone_opt_string(&client.session_token),
                    from_path: clone_opt_string(&source.path),
                    from_file_id: source.file_id,
                    to_path: clone_opt_string(&target.path),
                    to_folder_id: target.folder_id,
                    to_name: None,
                    revision_id: source.revision,
                },
            )
        } else {
            Err(PCloudResult::NoFileIdOrPathProvided)
        }
    }

    /// Name of the destination file; when omitted the original name is kept.
    /// The last write wins.
    pub fn with_new_name(self, value: &str) -> (r: MoveFileRequestBuilder)
        ensures
            r.to_name matches Some(n) && n@ == value@,
            r == (MoveFileRequestBuilder { to_name: r.to_name, ..self }),
    {
        MoveFileRequestBuilder { to_name: Some(value.to_owned()), ..self }
    }

    /// Chooses the file revision to move; the latest revision is used when
    /// unset.  The last write wins.
    pub fn with_revision(self, value: u64) -> (r: MoveFileRequestBuilder)
        ensures
            r == (MoveFileRequestBuilder { revision_id: Some(value), ..self }),
    {
        MoveFileRequestBuilder { revision_id: Some(value), ..self }
    }

    /// The query parameters of the move request.
    pub open spec fn params_spec(self) -> Seq<QueryParam> {
        let s = Seq::<QueryParam>::empty();
        let s = opt_push_text(s, ParamKey::Path, self.from_path);
        let s = opt_push_uint(s, ParamKey::FileId, self.from_file_id);
        let s = opt_push_text(s, ParamKey::ToPath, self.to_path);
        let s = opt_push_uint(s, ParamKey::ToFolderId, self.to_folder_id);
        let s = opt_push_text(s, ParamKey::ToName, self.to_name);
        let s = opt_push_uint(s, ParamKey::RevisionId, self.revision_id);
        let s = opt_push_text(s, ParamKey::Auth, self.auth);
        s
    }

    /// Plans the move request.
    pub fn build(self) -> (r: RequestPlan)
        ensures
            r.method == HttpMethod::Post,
            r.operation == ApiOperation::RenameFile,
            r.params@ == self.params_spec(),
    {
        let MoveFileRequestBuilder {
            auth,
            from_path,
            from_file_id,
            to_path,
            to_folder_id,
            to_name,
            revision_id,
        } = self;
        let mut plan = RequestPlan::new(HttpMethod::Post, ApiOperation::RenameFile);
        plan.add_opt_text(ParamKey::Path, from_path);
        plan.add_opt_uint(ParamKey::FileId, from_file_id);
        plan.add_opt_text(ParamKey::ToPath, to_path);
        plan.add_opt_uint(ParamKey::ToFolderId, to_folder_id);
        plan.add_opt_text(ParamKey::ToName, to_name);
        plan.add_opt_uint(ParamKey::RevisionId, revision_id);
        plan.add_opt_text(ParamKey::Auth, auth);
        plan
    }
}

/// What planning an upload yields: either the synthetic success returned when
/// nothing was attached, or one multipart request to perform.
#[derive(Debug)]
pub enum UploadOutcome {
    /// No file parts were attached: a synthetic "nothing uploaded" success,
    /// produced without any network access.
    Synthetic(UploadedFile),
    /// The multipart upload request to send, with the file names of its parts.
    Perform { plan: RequestPlan, parts: Vec<String> },
}

/// Uploads files into a folder.
#[derive(Debug)]
pub struct UploadRequestBuilder {
    /// Session token attached to the planned request.
    pub auth: Option<String>,
    /// Path of the target folder.
    pub path: Option<String>,
    /// Id of the target folder.
    pub folder_id: Option<u64>,
    /// Whether partially uploaded files are discarded.
    pub no_partial: bool,
    /// Whether an uploaded file is renamed when its name already exists.
    pub rename_if_exists: bool,
    /// File modification time to set, unix seconds.
    pub mtime: Option<i64>,
    /// File creation time to set, unix seconds; requires `mtime` to be set.
    pub ctime: Option<i64>,
    /// File names of the parts to upload.
    pub files: Vec<String>,
}

impl UploadRequestBuilder {
    /// Starts an upload into `folder`, failing immediately — before any
    /// network access — when the descriptor is empty.
    pub fn into_folder(client: &PCloudClient, folder: &PCloudFolder) -> (r: Result<
        UploadRequestBuilder,
        PCloudResult,
    >)
        ensures
            folder.is_empty_spec() ==> r == Result::<UploadRequestBuilder, PCloudResult>::Err(
                PCloudResult::NoFileIdOrPathProvided,
            ),
            !folder.is_empty_spec() ==> (r matches Ok(b) && b.auth == client.session_token
                && b.path == folder.path && b.folder_id == folder.folder_id && b.no_partial == true
                && b.rename_if_exists == false && b.mtime is None && b.ctime is None
                && b.files@ == Seq::<String>::empty()),
    {
        if folder.folder_id.is_some() || folder.path.is_some() {
            Ok(
                UploadRequestBuilder {
                    auth: clone_opt_string(&client.session_token),
                    path: clone_opt_string(&folder.path),
                    folder_id: folder.folder_id,
                    no_partial: true,
                    rename_if_exists: false,
                    mtime: None,
                    ctime: None,
                    files: Vec::new(),
                },
            )
        } else {
            Err(PCloudResult::NoFileIdOrPathProvided)
        }
    }

    /// If `true` (the default), partially uploaded files are not saved.
    pub fn no_partial(self, value: bool) -> (r: UploadRequestBuilder)
        ensures
            r == (UploadRequestBuilder { no_partial: value, ..self }),
    {
        UploadRequestBuilder { no_partial: value, ..self }
    }

    /// If set, an uploaded file is renamed when a file of the requested name
    /// already exists in the folder.
    pub fn rename_if_exists(self, value: bool) -> (r: UploadRequestBuilder)
        ensures
            r == (UploadRequestBuilder { rename_if_exists: value, ..self }),
    {
        UploadRequestBuilder { rename_if_exists: value, ..self }
    }

    /// Sets the file modification time, in unix seconds.  The last write wins.
    pub fn mtime(self, value: i64) -> (r: UploadRequestBuilder)
        ensures
            r == (UploadRequestBuilder { mtime: Some(value), ..self }),
    {
        UploadRequestBuilder { mtime: Some(value), ..self }
    }

    /// Sets the file creation time, in unix seconds; the service requires
    /// `mtime` to be set as well.  The last write wins.
    pub fn ctime(self, value: i64) -> (r: UploadRequestBuilder)
        ensures
            r == (UploadRequestBuilder { ctime: Some(value), ..self }),
    {
        UploadRequestBuilder { ctime: Some(value), ..self }
    }

    /// Attaches a file part under the given name.  Multiple files can be
    /// attached; the embedding application supplies the matching bodies in
    /// the same order.
    pub fn with_file(self, file_name: String) -> (r: UploadRequestBuilder)
        ensures
            r.files@ == self.files@.push(file_name),
            r == (UploadRequestBuilder { files: r.files, ..self }),
    {
        let mut b = self;
        b.files.push(file_name);
        b
    }

    /// The query parameters of the upload request.
    pub open spec fn params_spec(self) -> Seq<QueryParam> {
        let s = Seq::<QueryParam>::empty();
        let s = opt_push_text(s, ParamKey::Path, self.path);
        let s = opt_push_uint(s, ParamKey::FolderId, self.folder_id);
        let s = push_flag_if(s, ParamKey::NoPartial, self.no_partial);
        let s = push_flag_if(s, ParamKey::RenameIfExists, self.rename_if_exists);
        let s = opt_push_int(s, ParamKey::Mtime, self.mtime);
        let s = opt_push_int(s, ParamKey::Ctime, self.ctime);
        let s = opt_push_text(s, ParamKey::Auth, self.auth);
        s
    }

    /// Plans the upload.  With no file parts attached the outcome is a
    /// synthetic success with empty id and metadata lists, produced without
    /// any network access; otherwise it is the multipart request to send.
    pub fn build(self) -> (r: UploadOutcome)
        ensures
            self.files@.len() == 0 ==> (r matches UploadOutcome::Synthetic(u) && u.result
                == PCloudResult::Success && u.fileids@ == Seq::<u64>::empty() && u.metadata@
                == Seq::<Metadata>::empty()),
            self.files@.len() > 0 ==> (r matches UploadOutcome::Perform { plan, parts }
                && plan.method == HttpMethod::Post && plan.operation == ApiOperation::UploadFile
                && plan.params@ == self.params_spec() && parts == self.files),
    {
        if self.files.len() == 0 {
            UploadOutcome::Synthetic(
                UploadedFile { result: PCloudResult::Success, fileids: Vec::new(), metadata: Vec::new() },
            )
        } else {
            let UploadRequestBuilder {
                auth,
                path,
                folder_id,
                no_partial,
                rename_if_exists,
                mtime,
                ctime,
                files,
            } = self;
            let mut plan = RequestPlan::new(HttpMethod::Post, ApiOperation::UploadFile);
            plan.add_opt_text(ParamKey::Path, path);
            plan.add_opt_uint(ParamKey::FolderId, folder_id);
            plan.add_flag_if(ParamKey::NoPartial, no_partial);
            plan.add_flag_if(ParamKey::RenameIfExists, rename_if_exists);
            plan.add_opt_int(ParamKey::Mtime, mtime);
            plan.add_opt_int(ParamKey::Ctime, ctime);
            plan.add_opt_text(ParamKey::Auth, auth);
            UploadOutcome::Perform { plan, parts: files }
        }
    }
}

/// Requests a public link for a file.
#[derive(Debug)]
pub struct PublicFileLinkRequestBuilder {
    /// Session token attached to the planned request.
    pub auth: Option<String>,
    /// Id of the file to link.
    pub file_id: Option<u64>,
    /// Path of the file to link.
    pub path: Option<String>,
    /// Rendered time after which the link stops working.
    pub expire: Option<String>,
    /// Maximum number of downloads over this link.
    pub max_downloads: Option<u64>,
    /// Maximum traffic this link may consume, in bytes.
    pub max_traffic: Option<u64>,
    /// Whether a short link is also generated.
    pub short_link: bool,
    /// Password guarding the link.
    pub link_password: Option<String>,
    /// File revision to link.
    pub revision_id: Option<u64>,
}

/// The builder [`PublicFileLinkRequestBuilder::for_file`] constructs.
pub open spec fn public_link_builder_spec(client: PCloudClient, file: PCloudFile) -> Result<
    PublicFileLinkRequestBuilder,
    PCloudResult,
> {
    if !file.is_empty_spec() {
        Ok(
            PublicFileLinkRequestBuilder {
                auth: client.session_token,
                file_id: file.file_id,
                path: file.path,
                expire: None,
                max_downloads: None,
                max_traffic: None,
                short_link: false,
                link_password: None,
                revision_id: file.revision,
            },
        )
    } else {
        Err(PCloudResult::NoFileIdOrPathProvided)
    }
}

impl PublicFileLinkRequestBuilder {
    /// Starts a public-link request for `file`, failing immediately — before
    /// any network access — when the descriptor is empty.
    pub fn for_file(client: &PCloudClient, file: &PCloudFile) -> (r: Result<
        PublicFileLinkRequestBuilder,
        PCloudResult,
    >)
        ensures
            r == public_link_builder_spec(*client, *file),
    {
        if file.file_id.is_some() || file.path.is_some() {
            Ok(
                PublicFileLinkRequestBuilder {
                    auth: clone_opt_string(&client.session_token),
                    file_id: file.file_id,
                    path: clone_opt_string(&file.path),
                    expire: None,
                    max_downloads: None,
                    max_traffic: None,
                    short_link: false,
                    link_password: None,
                    revision_id: file.revision,
                },
            )
        } else {
            Err(PCloudResult::NoFileIdOrPathProvided)
        }
    }

    /// Time after which the link stops working, in unix seconds.  The last
    /// write wins.
    pub fn expire_link_after(self, value: i64) -> (r: PublicFileLinkRequestBuilder)
        requires
            pcloud_time_in_range(value),
        ensures
            r.expire matches Some(e) && e@ == pcloud_time_of(value as int),
            r == (PublicFileLinkRequestBuilder { expire: r.expire, ..self }),
    {
        PublicFileLinkRequestBuilder { expire: Some(format_date_time_for_pcloud(value)), ..self }
    }

    /// Maximum number of downloads for this file.  The last write wins.
    pub fn with_max_downloads(self, value: u64) -> (r: PublicFileLinkRequestBuilder)
        ensures
            r == (PublicFileLinkRequestBuilder { max_downloads: Some(value), ..self }),
    {
        PublicFileLinkRequestBuilder { max_downloads: Some(value), ..self }
    }

    /// Maximum traffic this link may consume, in bytes; started downloads are
    /// not cut off at the limit.  The last write wins.
    pub fn with_max_traffic(self, value: u64) -> (r: PublicFileLinkRequestBuilder)
        ensures
            r == (PublicFileLinkRequestBuilder { max_traffic: Some(value), ..self }),
    {
        PublicFileLinkRequestBuilder { max_traffic: Some(value), ..self }
    }

    /// If set, a short link is also generated.
    pub fn with_shortlink(self, value: bool) -> (r: PublicFileLinkRequestBuilder)
        ensures
            r == (PublicFileLinkRequestBuilder { short_link: value, ..self }),
    {
        PublicFileLinkRequestBuilder { short_link: value, ..self }
    }

    /// Sets a password for the link.  The last write wins.
    pub fn with_password(self, value: &str) -> (r: PublicFileLinkRequestBuilder)
        ensures
            r.link_password matches Some(p) && p@ == value@,
            r == (PublicFileLinkRequestBuilder { link_password: r.link_password, ..self }),
    {
        PublicFileLinkRequestBuilder { link_password: Some(value.to_owned()), ..self }
    }

    /// Chooses the file revision to link; the latest revision is used when
    /// unset.  The last write wins.
    pub fn with_revision(self, value: u64) -> (r: PublicFileLinkRequestBuilder)
        ensures
            r == (PublicFileLinkRequestBuilder { revision_id: Some(value), ..self }),
    {
        PublicFileLinkRequestBuilder { revision_id: Some(value), ..self }
    }

    /// The query parameters of the public-link request.
    pub open spec fn params_spec(self) -> Seq<QueryParam> {
        let s = Seq::<QueryParam>::empty();
        let s = opt_push_uint(s, ParamKey::FileId, self.file_id);
        let s = opt_push_text(s, ParamKey::Path, self.path);
        let s = opt_push_uint(s, ParamKey::MaxDownloads, self.max_downloads);
        let s = opt_push_text(s, ParamKey::LinkPassword, self.link_password);
        let s = opt_push_uint(s, ParamKey::MaxTraffic, self.max_traffic);
        let s = push_flag_if(s, ParamKey::ShortLink, self.short_link);
        let s = opt_push_text(s, ParamKey::Expire, self.expire);
        let s = opt_push_uint(s, ParamKey::RevisionId, self.revision_id);
        let s = opt_push_text(s, ParamKey::Auth, self.auth);
        s
    }

    /// Plans the public-link request.
    pub fn build(self) -> (r: RequestPlan)
        ensures
            r.method == HttpMethod::Get,
            r.operation == ApiOperation::GetFilePubLink,
            r.params@ == self.params_spec(),
    {
        let PublicFileLinkRequestBuilder {
            auth,
            file_id,
            path,
            expire,
            max_downloads,
            max_traffic,
            short_link,
            link_password,
            revision_id,
        } = self;
        let mut plan = RequestPlan::new(HttpMethod::Get, ApiOperation::GetFilePubLink);
        plan.add_opt_uint(ParamKey::FileId, file_id);
        plan.add_opt_text(ParamKey::Path, path);
        plan.add_opt_uint(ParamKey::MaxDownloads, max_downloads);
        plan.add_opt_text(ParamKey::LinkPassword, link_password);
        plan.add_opt_uint(ParamKey::MaxTraffic, max_traffic);
        plan.add_flag_if(ParamKey::ShortLink, short_link);
        plan.add_opt_text(ParamKey::Expire, expire);
        plan.add_opt_uint(ParamKey::RevisionId, revision_id);
        plan.add_opt_text(ParamKey::Auth, auth);
        plan
    }
}

/// Requests the download link behind a public link code.
#[derive(Debug)]
pub struct PublicFileDownloadRequestBuilder {
    /// Session token attached to the planned request.
    pub auth: Option<String>,
    /// The link's `code` or `shortcode`.
    pub code: String,
    /// File id, when the code links a folder.
    pub file_id: Option<u64>,
}

impl PublicFileDownloadRequestBuilder {
    /// Requests the download of the public file behind `code`.
    pub fn for_public_file(client: &PCloudClient, code: &str) -> (r:
        PublicFileDownloadRequestBuilder)
        ensures
            r.auth == client.session_token,
            r.code@ == code@,
            r.file_id is None,
    {
        PublicFileDownloadRequestBuilder {
            auth: clone_opt_string(&client.session_token),
            code: code.to_owned(),
            file_id: None,
        }
    }

    /// Requests the download of one file from the public folder behind
    /// `code`.
    pub fn for_file_in_public_folder(client: &PCloudClient, code: &str, file_id: u64) -> (r:
        PublicFileDownloadRequestBuilder)
        ensures
            r.auth == client.session_token,
            r.code@ == code@,
            r.file_id == Some(file_id),
    {
        PublicFileDownloadRequestBuilder {
            auth: clone_opt_string(&client.session_token),
            code: code.to_owned(),
            file_id: Some(file_id),
        }
    }

    /// Requests the download behind an already fetched public link, failing
    /// with `ProvideURL` when the link carries no code.
    pub fn for_public_file_link(client: &PCloudClient, link: &PublicFileLink) -> (r: Result<
        PublicFileDownloadRequestBuilder,
        PCloudResult,
    >)
        ensures
            link.code is Some ==> (r matches Ok(b) && b.auth == client.session_token && b.code
                == link.code->0 && b.file_id is None),
            link.code is None ==> r == Result::<PublicFileDownloadRequestBuilder, PCloudResult>::Err(
                PCloudResult::ProvideURL,
            ),
    {
        match &link.code {
            Some(code) => Ok(
                PublicFileDownloadRequestBuilder {
                    auth: clone_opt_string(&client.session_token),
                    code: code.clone(),
                    file_id: None,
                },
            ),
            None => Err(PCloudResult::ProvideURL),
        }
    }

    /// The query parameters of the download request.
    pub open spec fn params_spec(self) -> Seq<QueryParam> {
        let s = Seq::<QueryParam>::empty();
        let s = s.push(QueryParam { key: ParamKey::Code, value: QueryValue::Text(self.code) });
        let s = opt_push_uint(s, ParamKey::FileId, self.file_id);
        let s = opt_push_text(s, ParamKey::Auth, self.auth);
        s
    }

    /// Plans the download request.
    pub fn build(self) -> (r: RequestPlan)
        ensures
            r.method == HttpMethod::Get,
            r.operation == ApiOperation::GetPubLinkDownload,
            r.params@ == self.params_spec(),
    {
        let PublicFileDownloadRequestBuilder { auth, code, file_id } = self;
        let mut plan = RequestPlan::new(HttpMethod::Get, ApiOperation::GetPubLinkDownload);
        plan.add_text(ParamKey::Code, code);
        plan.add_opt_uint(ParamKey::FileId, file_id);
        plan.add_opt_text(ParamKey::Auth, auth);
        plan
    }
}

/// Lists the revisions of a file.
#[derive(Debug)]
pub struct ListRevisionsRequestBuilder {
    /// Session token attached to the planned request.
    pub auth: Option<String>,
    /// Id of the file.
    pub file_id: Option<u64>,
    /// Path of the file.
    pub path: Option<String>,
}

/// The builder [`ListRevisionsRequestBuilder::for_file`] constructs.
pub open spec fn list_revisions_builder_spec(client: PCloudClient, file: PCloudFile) -> Result<
    ListRevisionsRequestBuilder,
    PCloudResult,
> {
    if !file.is_empty_spec() {
        Ok(
            ListRevisionsRequestBuilder {
                auth: client.session_token,
                file_id: file.file_id,
                path: file.path,
            },
        )
    } else {
        Err(PCloudResult::NoFileIdOrPathProvided)
    }
}

impl ListRevisionsRequestBuilder {
    /// Starts a revision listing for `file`, failing immediately — before any
    /// network access — when the descriptor is empty.
    pub fn for_file(client: &PCloudClient, file: &PCloudFile) -> (r: Result<
        ListRevisionsRequestBuilder,
        PCloudResult,
    >)
        ensures
            r == list_revisions_builder_spec(*client, *file),
    {
        if file.file_id.is_some() || file.path.is_some() {
            Ok(
                ListRevisionsRequestBuilder {
                    auth: clone_opt_string(&client.session_token),
                    file_id: file.file_id,
                    path: clone_opt_string(&file.path),
                },
            )
        } else {
            Err(PCloudResult::NoFileIdOrPathProvided)
        }
    }

    /// The query parameters of the revision-list request.
    pub open spec fn params_spec(self) -> Seq<QueryParam> {
        let s = Seq::<QueryParam>::empty();
        let s = opt_push_uint(s, ParamKey::FileId, self.file_id);
        let s = opt_push_text(s, ParamKey::Path, self.path);
        let s = opt_push_text(s, ParamKey::Auth, self.auth);
        s
    }

    /// Plans the revision-list request.
    pub fn build(self) -> (r: RequestPlan)
        ensures
            r.method == HttpMethod::Get,
            r.operation == ApiOperation::ListRevisions,
            r.params@ == self.params_spec(),
    {
        let ListRevisionsRequestBuilder { auth, file_id, path } = self;
        let mut plan = RequestPlan::new(HttpMethod::Get, ApiOperation::ListRevisions);
        plan.add_opt_uint(ParamKey::FileId, file_id);
        plan.add_opt_text(ParamKey::Path, path);
        plan.add_opt_text(ParamKey::Auth, auth);
        plan
    }
}

/// Requests the checksums of a file.
#[derive(Debug)]
pub struct ChecksumFileRequestBuilder {
    /// Session token attached to the planned request.
    pub auth: Option<String>,
    /// Id of the file.
    pub file_id: Option<u64>,
    /// Path of the file.
    pub path: Option<String>,
    /// File revision to checksum.
    pub revision_id: Option<u64>,
}

/// The builder [`ChecksumFileRequestBuilder::for_file`] constructs.
pub open spec fn checksum_builder_spec(client: PCloudClient, file: PCloudFile) -> Result<
    ChecksumFileRequestBuilder,
    PCloudResult,
> {
    if !file.is_empty_spec() {
        Ok(
            ChecksumFileRequestBuilder {
                auth: client.session_token,
                file_id: file.file_id,
                path: file.path,
                revision_id: file.revision,
            },
        )
    } else {
        Err(PCloudResult::NoFileIdOrPathProvided)
    }
}

impl ChecksumFileRequestBuilder {
    /// Starts a checksum request for `file`, failing immediately — before any
    /// network access — when the descriptor is empty.
    pub fn for_file(client: &PCloudClient, file: &PCloudFile) -> (r: Result<
        ChecksumFileRequestBuilder,
        PCloudResult,
    >)
        ensures
            r == checksum_builder_spec(*client, *file),
    {
        if file.file_id.is_some() || file.path.is_some() {
            Ok(
                ChecksumFileRequestBuilder {
                    auth: clone_opt_string(&client.session_token),
                    file_id: file.file_id,
                    path: clone_opt_string(&file.path),
                    revision_id: file.revision,
                },
            )
        } else {
            Err(PCloudResult::NoFileIdOrPathProvided)
        }
    }

    /// Chooses the file revision to checksum; the latest revision is used
    /// when unset.  The last write wins.
    pub fn with_revision(self, value: u64) -> (r: ChecksumFileRequestBuilder)
        ensures
            r == (ChecksumFileRequestBuilder { revision_id: Some(value), ..self }),
    {
        ChecksumFileRequestBuilder { revision_id: Some(value), ..self }
    }

    /// The query parameters of the checksum request.
    pub open spec fn params_spec(self) -> Seq<QueryParam> {
        let s = Seq::<QueryParam>::empty();
        let s = opt_push_uint(s, ParamKey::FileId, self.file_id);
        let s = opt_push_text(s, ParamKey::Path, self.path);
        let s = opt_push_uint(s, ParamKey::RevisionId, self.revision_id);
        let s = opt_push_text(s, ParamKey::Auth, self.auth);
        s
    }

    /// Plans the checksum request.
    pub fn build(self) -> (r: RequestPlan)
        ensures
            r.method == HttpMethod::Get,
            r.operation == ApiOperation::ChecksumFile,
            r.params@ == self.params_spec(),
    {
        let ChecksumFileRequestBuilder { auth, file_id, path, revision_id } = self;
        let mut plan = RequestPlan::new(HttpMethod::Get, ApiOperation::ChecksumFile);
        plan.add_opt_uint(ParamKey::FileId, file_id);
        plan.add_opt_text(ParamKey::Path, path);
        plan.add_opt_uint(ParamKey::RevisionId, revision_id);
        plan.add_opt_text(ParamKey::Auth, auth);
        plan
    }
}

/// Deletes a file.
#[derive(Debug)]
pub struct FileDeleteRequestBuilder {
    /// Session token attached to the planned request.
    pub auth: Option<String>,
    /// Id of the file.
    pub file_id: Option<u64>,
    /// Path of the file.
    pub path: Option<String>,
}

/// The builder [`FileDeleteRequestBuilder::for_file`] constructs.
pub open spec fn file_delete_builder_spec(client: PCloudClient, file: PCloudFile) -> Result<
    FileDeleteRequestBuilder,
    PCloudResult,
> {
    if !file.is_empty_spec() {
        Ok(
            FileDeleteRequestBuilder {
                auth: client.session_token,
                file_id: file.file_id,
                path: file.path,
            },
        )
    } else {
        Err(PCloudResult::NoFileIdOrPathProvided)
    }
}

impl FileDeleteRequestBuilder {
    /// Starts a delete for `file`, failing immediately — before any network
    /// access — when the descriptor is empty.
    pub fn for_file(client: &PCloudClient, file: &PCloudFile) -> (r: Result<
        FileDeleteRequestBuilder,
        PCloudResult,
    >)
        ensures
            r == file_delete_builder_spec(*client, *file),
    {
        if file.file_id.is_some() || file.path.is_some() {
            Ok(
                FileDeleteRequestBuilder {
                    auth: clone_opt_string(&client.session_token),
                    file_id: file.file_id,
                    path: clone_opt_string(&file.path),
                },
            )
        } else {
            Err(PCloudResult::NoFileIdOrPathProvided)
        }
    }

    /// The query parameters of the delete request.
    pub open spec fn params_spec(self) -> Seq<QueryParam> {
        let s = Seq::<QueryParam>::empty();
        let s = opt_push_uint(s, ParamKey::FileId, self.file_id);
        let s = opt_push_text(s, ParamKey::Path, self.path);
        let s = opt_push_text(s, ParamKey::Auth, self.auth);
        s
    }

    /// Plans the delete request.
    pub fn build(self) -> (r: RequestPlan)
        ensures
            r.method == HttpMethod::Get,
            r.operation == ApiOperation::DeleteFile,
            r.params@ == self.params_spec(),
    {
        let FileDeleteRequestBuilder { auth, file_id, path } = self;
        let mut plan = RequestPlan::new(HttpMethod::Get, ApiOperation::DeleteFile);
        plan.add_opt_uint(ParamKey::FileId, file_id);
        plan.add_opt_text(ParamKey::Path, path);
        plan.add_opt_text(ParamKey::Auth, auth);
        plan
    }
}

/// Requests a download link for a file.
#[derive(Debug)]
pub struct FileDownloadRequestBuilder {
    /// Session token attached to the planned request.
    pub auth: Option<String>,
    /// Id of the file.
    pub file_id: Option<u64>,
    /// Path of the file.
    pub path: Option<String>,
    /// File revision to fetch.
    pub revision_id: Option<u64>,
}

/// The builder [`FileDownloadRequestBuilder::for_file`] constructs.
pub open spec fn file_download_builder_spec(client: PCloudClient, file: PCloudFile) -> Result<
    FileDownloadRequestBuilder,
    PCloudResult,
> {
    if !file.is_empty_spec() {
        Ok(
            FileDownloadRequestBuilder {
                auth: client.session_token,
                file_id: file.file_id,
                path: file.path,
                revision_id: file.revision,
            },
        )
    } else {
        Err(PCloudResult::NoFileIdOrPathProvided)
    }
}

impl FileDownloadRequestBuilder {
    /// Starts a download-link request for `file`, failing immediately —
    /// before any network access — when the descriptor is empty.
    pub fn for_file(client: &PCloudClient, file: &PCloudFile) -> (r: Result<
        FileDownloadRequestBuilder,
        PCloudResult,
    >)
        ensures
            r == file_download_builder_spec(*client, *file),
    {
        if file.file_id.is_some() || file.path.is_some() {
            Ok(
                FileDownloadRequestBuilder {
                    auth: clone_opt_string(&client.session_token),
                    file_id: file.file_id,
                    path: clone_opt_string(&file.path),
                    revision_id: file.revision,
                },
            )
        } else {
            Err(PCloudResult::NoFileIdOrPathProvided)
        }
    }

    /// Chooses the file revision to fetch; the latest revision is used when
    /// unset.  The last write wins.
    pub fn with_revision(self, value: u64) -> (r: FileDownloadRequestBuilder)
        ensures
            r == (FileDownloadRequestBuilder { revision_id: Some(value), ..self }),
    {
        FileDownloadRequestBuilder { revision_id: Some(value), ..self }
    }

    /// The query parameters of the download-link request.
    pub open spec fn params_spec(self) -> Seq<QueryParam> {
        let s = Seq::<QueryParam>::empty();
        let s = opt_push_uint(s, ParamKey::FileId, self.file_id);
        let s = opt_push_text(s, ParamKey::Path, self.path);
        let s = opt_push_uint(s, ParamKey::RevisionId, self.revision_id);
        let s = opt_push_text(s, ParamKey::Auth, self.auth);
        s
    }

    /// Plans the download-link request.
    pub fn build(self) -> (r: RequestPlan)
        ensures
            r.method == HttpMethod::Get,
            r.operation == ApiOperation::GetFileLink,
            r.params@ == self.params_spec(),
    {
        let FileDownloadRequestBuilder { auth, file_id, path, revision_id } = self;
        let mut plan = RequestPlan::new(HttpMethod::Get, ApiOperation::GetFileLink);
        plan.add_opt_uint(ParamKey::FileId, file_id);
        plan.add_opt_text(ParamKey::Path, path);
        plan.add_opt_uint(ParamKey::RevisionId, revision_id);
        plan.add_opt_text(ParamKey::Auth, auth);
        plan
    }
}

/// Fetches the metadata of a file.
#[derive(Debug)]
pub struct FileStatRequestBuilder {
    /// Session token attached to the planned request.
    pub auth: Option<String>,
    /// Id of the file.
    pub file_id: Option<u64>,
    /// Path of the file.
    pub path: Option<String>,
    /// File revision to stat.
    pub revision_id: Option<u64>,
}

/// The builder [`FileStatRequestBuilder::for_file`] constructs.
pub open spec fn file_stat_builder_spec(client: PCloudClient, file: PCloudFile) -> Result<
    FileStatRequestBuilder,
    PCloudResult,
> {
    if !file.is_empty_spec() {
        Ok(
            FileStatRequestBuilder {
                auth: client.session_token,
                file_id: file.file_id,
                path: file.path,
                revision_id: file.revision,
            },
        )
    } else {
        Err(PCloudResult::NoFileIdOrPathProvided)
    }
}

impl FileStatRequestBuilder {
    /// Starts a metadata fetch for `file`, failing immediately — before any
    /// network access — when the descriptor is empty.
    pub fn for_file(client: &PCloudClient, file: &PCloudFile) -> (r: Result<
        FileStatRequestBuilder,
        PCloudResult,
    >)
        ensures
            r == file_stat_builder_spec(*client, *file),
    {
        if file.file_id.is_some() || file.path.is_some() {
            Ok(
                FileStatRequestBuilder {
                    auth: clone_opt_string(&client.session_token),
                    file_id: file.file_id,
                    path: clone_opt_string(&file.path),
                    revision_id: file.revision,
                },
            )
        } else {
            Err(PCloudResult::NoFileIdOrPathProvided)
        }
    }

    /// Chooses the file revision to stat; the latest revision is used when
    /// unset.  The last write wins.
    pub fn with_revision(self, value: u64) -> (r: FileStatRequestBuilder)
        ensures
            r == (FileStatRequestBuilder { revision_id: Some(value), ..self }),
    {
        FileStatRequestBuilder { revision_id: Some(value), ..self }
    }

    /// The query parameters of the stat request.
    pub open spec fn params_spec(self) -> Seq<QueryParam> {
        let s = Seq::<QueryParam>::empty();
        let s = opt_push_uint(s, ParamKey::FileId, self.file_id);
        let s = opt_push_text(s, ParamKey::Path, self.path);
        let s = opt_push_uint(s, ParamKey::RevisionId, self.revision_id);
        let s = opt_push_text(s, ParamKey::Auth, self.auth);
        s
    }

    /// Plans the stat request.
    pub fn build(self) -> (r: RequestPlan)
        ensures
            r.method == HttpMethod::Get,
            r.operation == ApiOperation::Stat,
            r.params@ == self.params_spec(),
    {
        let FileStatRequestBuilder { auth, file_id, path, revision_id } = self;
        let mut plan = RequestPlan::new(HttpMethod::Get, ApiOperation::Stat);
        plan.add_opt_uint(ParamKey::FileId, file_id);
        plan.add_opt_text(ParamKey::Path, path);
        plan.add_opt_uint(ParamKey::RevisionId, revision_id);
        plan.add_opt_text(ParamKey::Auth, auth);
        plan
    }
}

/// A tree of already-resolved file and folder ids, used by operations that
/// work on a set of objects at once.
#[derive(Debug)]
pub struct Tree {
    /// When set, the contents of this folder appear as the root elements of
    /// the tree; the folder itself does not.
    pub folder_id: Option<u64>,
    /// Folders appearing in the root of the tree.
    pub folder_ids: Vec<u64>,
    /// Files appearing in the root of the tree.
    pub file_ids: Vec<u64>,
    /// Folders excluded from the tree.
    pub exclude_folder_ids: Vec<u64>,
    /// Files excluded from the tree.
    pub exclude_file_ids: Vec<u64>,
}

impl Tree {
    /// Creates an empty tree.
    pub fn create() -> (r: Tree)
        ensures
            r.folder_id is None,
            r.folder_ids@ == Seq::<u64>::empty(),
            r.file_ids@ == Seq::<u64>::empty(),
            r.exclude_folder_ids@ == Seq::<u64>::empty(),
            r.exclude_file_ids@ == Seq::<u64>::empty(),
    {
        Tree {
            folder_id: None,
            folder_ids: Vec::new(),
            file_ids: Vec::new(),
            exclude_folder_ids: Vec::new(),
            exclude_file_ids: Vec::new(),
        }
    }

    /// Adds a resolved file id to the root of the tree.
    pub fn with_file(self, file_id: u64) -> (r: Tree)
        ensures
            r.file_ids@ == self.file_ids@.push(file_id),
            r == (Tree { file_ids: r.file_ids, ..self }),
    {
        let mut t = self;
        t.file_ids.push(file_id);
        t
    }

    /// Excludes a resolved file id from the tree.
    pub fn without_file(self, file_id: u64) -> (r: Tree)
        ensures
            r.exclude_file_ids@ == self.exclude_file_ids@.push(file_id),
            r == (Tree { exclude_file_ids: r.exclude_file_ids, ..self }),
    {
        let mut t = self;
        t.exclude_file_ids.push(file_id);
        t
    }

    /// Adds a resolved folder id to the root of the tree.
    pub fn with_folder(self, folder_id: u64) -> (r: Tree)
        ensures
            r.folder_ids@ == self.folder_ids@.push(folder_id),
            r == (Tree { folder_ids: r.folder_ids, ..self }),
    {
        let mut t = self;
        t.folder_ids.push(folder_id);
        t
    }

    /// Excludes a resolved folder id from the tree; useful to include a
    /// folder with some of its subfolders left out.
    pub fn without_folder(self, folder_id: u64) -> (r: Tree)
        ensures
            r.exclude_folder_ids@ == self.exclude_folder_ids@.push(folder_id),
            r == (Tree { exclude_folder_ids: r.exclude_folder_ids, ..self }),
    {
        let mut t = self;
        t.exclude_folder_ids.push(folder_id);
        t
    }

    /// Makes the contents of the given folder the root elements of the tree.
    /// The last write wins.
    pub fn with_content_of_folder(self, folder_id: u64) -> (r: Tree)
        ensures
            r == (Tree { folder_id: Some(folder_id), ..self }),
    {
        Tree { folder_id: Some(folder_id), ..self }
    }

    /// Adds a file or folder from a metadata record, reading its embedded
    /// numeric id; a record without the needed id cannot be added.
    pub fn with(self, source: &Metadata) -> (r: Result<Tree, PCloudResult>)
        ensures
            source.isfolder && source.folderid is Some ==> (r matches Ok(t) && t.folder_ids@
                == self.folder_ids@.push(source.folderid->0) && t == (Tree {
                folder_ids: t.folder_ids,
                ..self
            })),
            !source.isfolder && source.fileid is Some ==> (r matches Ok(t) && t.file_ids@
                == self.file_ids@.push(source.fileid->0) && t == (Tree {
                file_ids: t.file_ids,
                ..self
            })),
            (if source.isfolder {
                source.folderid is None
            } else {
                source.fileid is None
            }) ==> r == Result::<Tree, PCloudResult>::Err(PCloudResult::NoFileIdOrPathProvided),
    {
        if source.isfolder {
            match source.folderid {
                Some(id) => Ok(self.with_folder(id)),
                None => Err(PCloudResult::NoFileIdOrPathProvided),
            }
        } else {
            match source.fileid {
                Some(id) => Ok(self.with_file(id)),
                None => Err(PCloudResult::NoFileIdOrPathProvided),
            }
        }
    }

    /// Excludes a file or folder from a metadata record, reading its embedded
    /// numeric id; a record without the needed id cannot be excluded.
    pub fn without(self, source: &Metadata) -> (r: Result<Tree, PCloudResult>)
        ensures
            source.isfolder && source.folderid is Some ==> (r matches Ok(t)
                && t.exclude_folder_ids@ == self.exclude_folder_ids@.push(source.folderid->0) && t
                == (Tree { exclude_folder_ids: t.exclude_folder_ids, ..self })),
            !source.isfolder && source.fileid is Some ==> (r matches Ok(t) && t.exclude_file_ids@
                == self.exclude_file_ids@.push(source.fileid->0) && t == (Tree {
                exclude_file_ids: t.exclude_file_ids,
                ..self
            })),
            (if source.isfolder {
                source.folderid is None
            } else {
                source.fileid is None
            }) ==> r == Result::<Tree, PCloudResult>::Err(PCloudResult::NoFileIdOrPathProvided),
    {
        if source.isfolder {
            match source.folderid {
                Some(id) => Ok(self.without_folder(id)),
                None => Err(PCloudResult::NoFileIdOrPathProvided),
            }
        } else {
            match source.fileid {
                Some(id) => Ok(self.without_file(id)),
                None => Err(PCloudResult::NoFileIdOrPathProvided),
            }
        }
    }

    /// The parameters this tree appends to a request: the root folder when
    /// set, then each non-empty id list.
    pub open spec fn tree_params_spec(self, s: Seq<QueryParam>) -> Seq<QueryParam> {
        let s = opt_push_uint(s, ParamKey::FolderId, self.folder_id);
        let s = push_uint_list(s, ParamKey::FolderIds, self.folder_ids);
        let s = push_uint_list(s, ParamKey::FileIds, self.file_ids);
        let s = push_uint_list(s, ParamKey::ExcludeFolderIds, self.exclude_folder_ids);
        let s = push_uint_list(s, ParamKey::ExcludeFileIds, self.exclude_file_ids);
        s
    }

    /// Appends this tree's parameters to a planned request.
    pub fn add_to_request(self, plan: RequestPlan) -> (r: RequestPlan)
        ensures
            r.method == plan.method,
            r.operation == plan.operation,
            r.params@ == self.tree_params_spec(plan.params@),
    {
        let Tree { folder_id, folder_ids, file_ids, exclude_folder_ids, exclude_file_ids } = self;
        let mut plan = plan;
        plan.add_opt_uint(ParamKey::FolderId, folder_id);
        plan.add_uint_list(ParamKey::FolderIds, folder_ids);
        plan.add_uint_list(ParamKey::FileIds, file_ids);
        plan.add_uint_list(ParamKey::ExcludeFolderIds, exclude_folder_ids);
        plan.add_uint_list(ParamKey::ExcludeFileIds, exclude_file_ids);
        plan
    }
}

} // verus!
