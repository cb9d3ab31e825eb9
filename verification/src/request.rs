//! Request plans: the serialized form every builder produces.
//!
//! A [`RequestPlan`] names the HTTP method, the API operation and the query
//! parameters of exactly one round trip.  Parameters use a closed vocabulary
//! of keys ([`ParamKey`]) and plain values ([`QueryValue`]); the embedding
//! application renders a plan into an actual URL and query string.

use vstd::prelude::*;

verus! {

/// HTTP method of a request plan.
#[derive(Clone, Copy, Debug, PartialEq, Eq, Structural)]
pub enum HttpMethod {
    Get,
    Post,
}

/// The API operations this crate can plan requests for.
#[derive(Clone, Copy, Debug, PartialEq, Eq, Structural)]
pub enum ApiOperation {
    CopyFile,
    RenameFile,
    UploadFile,
    GetFilePubLink,
    GetPubLinkDownload,
    ListRevisions,
    ChecksumFile,
    DeleteFile,
    GetFileLink,
    Stat,
    DeleteFolderRecursive,
    DeleteFolder,
    CreateFolder,
    CreateFolderIfNotExists,
    CopyFolder,
    RenameFolder,
    ListFolder,
    Diff,
    UserInfo,
    Logout,
    GetApiServer,
}

impl ApiOperation {
    /// The relative URL path of this operation.
    pub open spec fn path_spec(self) -> Seq<char> {
        match self {
            ApiOperation::CopyFile => "/copyfile"@,
            ApiOperation::RenameFile => "/renamefile"@,
            ApiOperation::UploadFile => "/uploadfile"@,
            ApiOperation::GetFilePubLink => "/getfilepublink"@,
            ApiOperation::GetPubLinkDownload => "/getpublinkdownload"@,
            ApiOperation::ListRevisions => "/listrevisions"@,
            ApiOperation::ChecksumFile => "/checksumfile"@,
            ApiOperation::DeleteFile => "/deletefile"@,
            ApiOperation::GetFileLink => "/getfilelink"@,
            ApiOperation::Stat => "/stat"@,
            ApiOperation::DeleteFolderRecursive => "/deletefolderrecursive"@,
            ApiOperation::DeleteFolder => "/deletefolder"@,
            ApiOperation::CreateFolder => "/createfolder"@,
            ApiOperation::CreateFolderIfNotExists => "/createfolderifnotexists"@,
            ApiOperation::CopyFolder => "/copyfolder"@,
            ApiOperation::RenameFolder => "/renamefolder"@,
            ApiOperation::ListFolder => "/listfolder"@,
            ApiOperation::Diff => "/diff"@,
            ApiOperation::UserInfo => "/userinfo"@,
            ApiOperation::Logout => "/logout"@,
            ApiOperation::GetApiServer => "/getapiserver"@,
        }
    }

    /// Returns the relative URL path of this operation.
    pub fn path(&self) -> (r: &'static str)
        ensures
            r@ == self.path_spec(),
    {
        match self {
            ApiOperation::CopyFile => "/copyfile",
            ApiOperation::RenameFile => "/renamefile",
            ApiOperation::UploadFile => "/uploadfile",
            ApiOperation::GetFilePubLink => "/getfilepublink",
            ApiOperation::GetPubLinkDownload => "/getpublinkdownload",
            ApiOperation::ListRevisions => "/listrevisions",
            ApiOperation::ChecksumFile => "/checksumfile",
            ApiOperation::DeleteFile => "/deletefile",
            ApiOperation::GetFileLink => "/getfilelink",
            ApiOperation::Stat => "/stat",
            ApiOperation::DeleteFolderRecursive => "/deletefolderrecursive",
            ApiOperation::DeleteFolder => "/deletefolder",
            ApiOperation::CreateFolder => "/createfolder",
            ApiOperation::CreateFolderIfNotExists => "/createfolderifnotexists",
            ApiOperation::CopyFolder => "/copyfolder",
            ApiOperation::RenameFolder => "/renamefolder",
            ApiOperation::ListFolder => "/listfolder",
            ApiOperation::Diff => "/diff",
            ApiOperation::UserInfo => "/userinfo",
            ApiOperation::Logout => "/logout",
            ApiOperation::GetApiServer => "/getapiserver",
        }
    }
}

/// The closed set of query-parameter names the planned operations use.
#[derive(Clone, Copy, Debug, PartialEq, Eq, Structural)]
pub enum ParamKey {
    Path,
    FileId,
    ToPath,
    ToFolderId,
    ToName,
    Mtime,
    Ctime,
    RevisionId,
    NoOver,
    FolderId,
    FolderIds,
    FileIds,
    ExcludeFolderIds,
    ExcludeFileIds,
    NoPartial,
    RenameIfExists,
    MaxDownloads,
    LinkPassword,
    MaxTraffic,
    ShortLink,
    Expire,
    Code,
    Name,
    Recursive,
    ShowDeleted,
    NoFiles,
    NoShares,
    SkipExisting,
    CopyContentOnly,
    DiffId,
    After,
    Last,
    Block,
    Limit,
    Auth,
    Username,
    Password,
    GetAuth,
}

impl ParamKey {
    /// The name of this parameter on the wire.
    pub open spec fn wire_name_spec(self) -> Seq<char> {
        match self {
            ParamKey::Path => "path"@,
            ParamKey::FileId => "fileid"@,
            ParamKey::ToPath => "topath"@,
            ParamKey::ToFolderId => "tofolderid"@,
            ParamKey::ToName => "toname"@,
            ParamKey::Mtime => "mtime"@,
            ParamKey::Ctime => "ctime"@,
            ParamKey::RevisionId => "revisionid"@,
            ParamKey::NoOver => "noover"@,
            ParamKey::FolderId => "folderid"@,
            ParamKey::FolderIds => "folderids"@,
            ParamKey::FileIds => "fileids"@,
            ParamKey::ExcludeFolderIds => "excludefolderids"@,
            ParamKey::ExcludeFileIds => "excludefileids"@,
            ParamKey::NoPartial => "nopartial"@,
            ParamKey::RenameIfExists => "renameifexists"@,
            ParamKey::MaxDownloads => "maxdownloads"@,
            ParamKey::LinkPassword => "linkpassword"@,
            ParamKey::MaxTraffic => "maxtraffic"@,
            ParamKey::ShortLink => "shortlink"@,
            ParamKey::Expire => "expire"@,
            ParamKey::Code => "code"@,
            ParamKey::Name => "name"@,
            ParamKey::Recursive => "recursive"@,
            ParamKey::ShowDeleted => "showdeleted"@,
            ParamKey::NoFiles => "nofiles"@,
            ParamKey::NoShares => "noshares"@,
            ParamKey::SkipExisting => "skipexisting"@,
            ParamKey::CopyContentOnly => "copycontentonly"@,
            ParamKey::DiffId => "diffid"@,
            ParamKey::After => "after"@,
            ParamKey::Last => "last"@,
            ParamKey::Block => "block"@,
            ParamKey::Limit => "limit"@,
            ParamKey::Auth => "auth"@,
            ParamKey::Username => "username"@,
            ParamKey::Password => "password"@,
            ParamKey::GetAuth => "getauth"@,
        }
    }

    /// Returns the name of this parameter on the wire.
    pub fn wire_name(&self) -> (r: &'static str)
        ensures
            r@ == self.wire_name_spec(),
    {
        match self {
            ParamKey::Path => "path",
            ParamKey::FileId => "fileid",
            ParamKey::ToPath => "topath",
            ParamKey::ToFolderId => "tofolderid",
            ParamKey::ToName => "toname",
            ParamKey::Mtime => "mtime",
            ParamKey::Ctime => "ctime",
            ParamKey::RevisionId => "revisionid",
            ParamKey::NoOver => "noover",
            ParamKey::FolderId => "folderid",
            ParamKey::FolderIds => "folderids",
            ParamKey::FileIds => "fileids",
            ParamKey::ExcludeFolderIds => "excludefolderids",
            ParamKey::ExcludeFileIds => "excludefileids",
            ParamKey::NoPartial => "nopartial",
            ParamKey::RenameIfExists => "renameifexists",
            ParamKey::MaxDownloads => "maxdownloads",
            ParamKey::LinkPassword => "linkpassword",
            ParamKey::MaxTraffic => "maxtraffic",
            ParamKey::ShortLink => "shortlink",
            ParamKey::Expire => "expire",
            ParamKey::Code => "code",
            ParamKey::Name => "name",
            ParamKey::Recursive => "recursive",
            ParamKey::ShowDeleted => "showdeleted",
            ParamKey::NoFiles => "nofiles",
            ParamKey::NoShares => "noshares",
            ParamKey::SkipExisting => "skipexisting",
            ParamKey::CopyContentOnly => "copycontentonly",
            ParamKey::DiffId => "diffid",
            ParamKey::After => "after",
            ParamKey::Last => "last",
            ParamKey::Block => "block",
            ParamKey::Limit => "limit",
            ParamKey::Auth => "auth",
            ParamKey::Username => "username",
            ParamKey::Password => "password",
            ParamKey::GetAuth => "getauth",
        }
    }
}

/// A query-parameter value: a plain number, a text, the literal flag value
/// `"1"`, or a comma-joined list of numeric ids.
#[derive(Clone, Debug, PartialEq, Eq)]
pub enum QueryValue {
    UInt(u64),
    Int(i64),
    Text(String),
    Flag,
    UIntList(Vec<u64>),
}

/// One query parameter of a planned request.
#[derive(Clone, Debug, PartialEq, Eq)]
pub struct QueryParam {
    pub key: ParamKey,
    pub value: QueryValue,
}

/// One fully planned request: method, operation, and query parameters in the
/// order they are sent.
#[derive(Clone, Debug)]
pub struct RequestPlan {
    pub method: HttpMethod,
    pub operation: ApiOperation,
    pub params: Vec<QueryParam>,
}

/// Appends `(key, Text(v))` when `v` is present, otherwise leaves the
/// parameter list unchanged.
pub open spec fn opt_push_text(s: Seq<QueryParam>, key: ParamKey, v: Option<String>) -> Seq<
    QueryParam,
> {
    match v {
        Option::Some(t) => s.push(QueryParam { key, value: QueryValue::Text(t) }),
        Option::None => s,
    }
}

/// Appends `(key, UInt(v))` when `v` is present.
pub open spec fn opt_push_uint(s: Seq<QueryParam>, key: ParamKey, v: Option<u64>) -> Seq<
    QueryParam,
> {
    match v {
        Option::Some(n) => s.push(QueryParam { key, value: QueryValue::UInt(n) }),
        Option::None => s,
    }
}

/// Appends `(key, Int(v))` when `v` is present.
pub open spec fn opt_push_int(s: Seq<QueryParam>, key: ParamKey, v: Option<i64>) -> Seq<
    QueryParam,
> {
    match v {
        Option::Some(n) => s.push(QueryParam { key, value: QueryValue::Int(n) }),
        Option::None => s,
    }
}

/// Appends the flag parameter `(key, "1")` when `cond` holds.
pub open spec fn push_flag_if(s: Seq<QueryParam>, key: ParamKey, cond: bool) -> Seq<QueryParam> {
    if cond {
        s.push(QueryParam { key, value: QueryValue::Flag })
    } else {
        s
    }
}

/// Appends `(key, UIntList(ids))` when `ids` is non-empty.
pub open spec fn push_uint_list(s: Seq<QueryParam>, key: ParamKey, ids: Vec<u64>) -> Seq<
    QueryParam,
> {
    if ids@.len() > 0 {
        s.push(QueryParam { key, value: QueryValue::UIntList(ids) })
    } else {
        s
    }
}

impl RequestPlan {
    /// Creates a plan with no parameters yet.
    pub fn new(method: HttpMethod, operation: ApiOperation) -> (r: RequestPlan)
        ensures
            r.method == method,
            r.operation == operation,
            r.params@ == Seq::<QueryParam>::empty(),
    {
        RequestPlan { method, operation, params: Vec::new() }
    }

    /// Appends a text parameter when the value is present.
    pub fn add_opt_text(&mut self, key: ParamKey, v: Option<String>)
        ensures
            final(self).method == old(self).method,
            final(self).operation == old(self).operation,
            final(self).params@ == opt_push_text(old(self).params@, key, v),
    {
        match v {
            Some(t) => self.params.push(QueryParam { key, value: QueryValue::Text(t) }),
            None => (),
        }
    }

    /// Appends an unsigned numeric parameter when the value is present.
    pub fn add_opt_uint(&mut self, key: ParamKey, v: Option<u64>)
        ensures
            final(self).method == old(self).method,
            final(self).operation == old(self).operation,
            final(self).params@ == opt_push_uint(old(self).params@, key, v),
    {
        match v {
            Some(n) => self.params.push(QueryParam { key, value: QueryValue::UInt(n) }),
            None => (),
        }
    }

    /// Appends a signed numeric parameter when the value is present.
    pub fn add_opt_int(&mut self, key: ParamKey, v: Option<i64>)
        ensures
            final(self).method == old(self).method,
            final(self).operation == old(self).operation,
            final(self).params@ == opt_push_int(old(self).params@, key, v),
    {
        match v {
            Some(n) => self.params.push(QueryParam { key, value: QueryValue::Int(n) }),
            None => (),
        }
    }

    /// Appends the flag parameter `key=1` when `cond` holds.
    pub fn add_flag_if(&mut self, key: ParamKey, cond: bool)
        ensures
            final(self).method == old(self).method,
            final(self).operation == old(self).operation,
            final(self).params@ == push_flag_if(old(self).params@, key, cond),
    {
        if cond {
            self.params.push(QueryParam { key, value: QueryValue::Flag });
        }
    }

    /// Appends a comma-joined id-list parameter when the list is non-empty.
    pub fn add_uint_list(&mut self, key: ParamKey, ids: Vec<u64>)
        ensures
            final(self).method == old(self).method,
            final(self).operation == old(self).operation,
            final(self).params@ == push_uint_list(old(self).params@, key, ids),
    {
        if ids.len() > 0 {
            self.params.push(QueryParam { key, value: QueryValue::UIntList(ids) });
        }
    }

    /// Appends a mandatory text parameter.
    pub fn add_text(&mut self, key: ParamKey, v: String)
        ensures
            final(self).method == old(self).method,
            final(self).operation == old(self).operation,
            final(self).params@ == old(self).params@.push(
                QueryParam { key, value: QueryValue::Text(v) },
            ),
    {
        self.params.push(QueryParam { key, value: QueryValue::Text(v) });
    }

    /// Appends a mandatory flag parameter `key=1`.
    pub fn add_flag(&mut self, key: ParamKey)
        ensures
            final(self).method == old(self).method,
            final(self).operation == old(self).operation,
            final(self).params@ == old(self).params@.push(
                QueryParam { key, value: QueryValue::Flag },
            ),
    {
        self.params.push(QueryParam { key, value: QueryValue::Flag });
    }
}

/// Duplicates an optional text value, preserving it exactly.
pub(crate) fn clone_opt_string(v: &Option<String>) -> (r: Option<String>)
    ensures
        r == *v,
{
    match v {
        Some(s) => Some(s.clone()),
        None => None,
    }
}

/// How many parameters of `s` carry the key `k`.
pub open spec fn key_count(s: Seq<QueryParam>, k: ParamKey) -> nat
    decreases s.len(),
{
    if s.len() == 0 {
        0
    } else {
        key_count(s.drop_last(), k) + if s.last().key == k {
            1nat
        } else {
            0nat
        }
    }
}

/// `s` holds the parameter `(k, v)` somewhere.
pub open spec fn has_param(s: Seq<QueryParam>, k: ParamKey, v: QueryValue) -> bool {
    exists|i: int| 0 <= i < s.len() && s[i] == (QueryParam { key: k, value: v })
}

/// Appending one parameter raises the count of its key by one and leaves
/// every other key's count unchanged.
pub proof fn lemma_key_count_push(s: Seq<QueryParam>, k: ParamKey, p: QueryParam)
    ensures
        key_count(s.push(p), k) == key_count(s, k) + if p.key == k {
            1nat
        } else {
            0nat
        },
{
    assert(s.push(p).drop_last() =~= s);
    assert(s.push(p).last() == p);
}

/// How [`opt_push_text`] changes the count of a key.
pub proof fn lemma_key_count_opt_push_text(
    s: Seq<QueryParam>,
    key: ParamKey,
    v: Option<String>,
    k: ParamKey,
)
    ensures
        key_count(opt_push_text(s, key, v), k) == key_count(s, k) + if v is Some && key == k {
            1nat
        } else {
            0nat
        },
{
    match v {
        Option::Some(t) => lemma_key_count_push(
            s,
            k,
            QueryParam { key, value: QueryValue::Text(t) },
        ),
        Option::None => {},
    }
}

/// How [`opt_push_uint`] changes the count of a key.
pub proof fn lemma_key_count_opt_push_uint(
    s: Seq<QueryParam>,
    key: ParamKey,
    v: Option<u64>,
    k: ParamKey,
)
    ensures
        key_count(opt_push_uint(s, key, v), k) == key_count(s, k) + if v is Some && key == k {
            1nat
        } else {
            0nat
        },
{
    match v {
        Option::Some(n) => lemma_key_count_push(
            s,
            k,
            QueryParam { key, value: QueryValue::UInt(n) },
        ),
        Option::None => {},
    }
}

/// How [`opt_push_int`] changes the count of a key.
pub proof fn lemma_key_count_opt_push_int(
    s: Seq<QueryParam>,
    key: ParamKey,
    v: Option<i64>,
    k: ParamKey,
)
    ensures
        key_count(opt_push_int(s, key, v), k) == key_count(s, k) + if v is Some && key == k {
            1nat
        } else {
            0nat
        },
{
    match v {
        Option::Some(n) => lemma_key_count_push(
            s,
            k,
            QueryParam { key, value: QueryValue::Int(n) },
        ),
        Option::None => {},
    }
}

/// How [`push_flag_if`] changes the count of a key.
pub proof fn lemma_key_count_push_flag_if(s: Seq<QueryParam>, key: ParamKey, cond: bool, k: ParamKey)
    ensures
        key_count(push_flag_if(s, key, cond), k) == key_count(s, k) + if cond && key == k {
            1nat
        } else {
            0nat
        },
{
    if cond {
        lemma_key_count_push(s, k, QueryParam { key, value: QueryValue::Flag });
    }
}

/// A parameter present somewhere stays present after any later append.
pub proof fn lemma_has_param_push(s: Seq<QueryParam>, k: ParamKey, v: QueryValue, p: QueryParam)
    requires
        has_param(s, k, v),
    ensures
        has_param(s.push(p), k, v),
{
    let i = choose|i: int| 0 <= i < s.len() && s[i] == (QueryParam { key: k, value: v });
    assert(s.push(p)[i] == (QueryParam { key: k, value: v }));
}

} // verus!
