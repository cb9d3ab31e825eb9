//! Status codes and decoded response models of the pCloud API.
//!
//! Every decoded response embeds exactly one [`PCloudResult`].  The result
//! normaliser [`WithPCloudResult::assert_ok`] turns a non-success code into a
//! typed error, giving a single error channel for all operations.

use vstd::prelude::*;
use vstd::string::StringExecFns;

verus! {

/// Status codes returned by the pCloud API, plus the single success value.
///
/// The numeric wire value of each variant is given by [`PCloudResult::code`];
/// [`result_from_code`] is its inverse on the codes the service defines.
#[derive(Clone, Copy, Debug, PartialEq, Eq, Structural)]
pub enum PCloudResult {
    Success,
    LogInRequired,
    NoFullPathOrNameOrFolderIdProvided,
    NoFullPathOrFolderIdProvided,
    NoFileIdOrPathProvided,
    InvalidFileDescriptor,
    DateTimeFormatNotUnderstood,
    NoFullToPathOrToNameAndToFolderIdProvided,
    InvalidFolderId,
    InvalidFileId,
    ProvidedAtLeastToPathOrToFolderIdOrToName,
    ProvideURL,
    LoginFailed,
    InvalidFileOrFolderName,
    ComponentOfTheParentDirectoryDoesNotExist,
    AccessDenied,
    DirectoryDoesNotExist,
    FolderIsNotEmpty,
    CanNotDeleteRootFolder,
    UserOverQuota,
    FileNotFound,
    InvalidPath,
    PleaseVerifyYourMailAddressToPerformThisAction,
    CannotPlaceASharedFolderIntoAnotherSharedFolder,
    YouCanOnlyShareYourOwnFilesOrFolders,
    ActiveSharesOrShareRequestsForThisFolder,
    ConnectionBroken,
    CannotRenameTheRootFolder,
    CannotMoveAFolderToASubfolderOfItself,
    TooManyLogins,
    InternalError,
    InternalUploadError,
    WriteError,
}

impl PCloudResult {
    /// The numeric status code the service uses on the wire for this variant.
    pub open spec fn code_spec(self) -> u16 {
        match self {
            PCloudResult::Success => 0,
            PCloudResult::LogInRequired => 1000,
            PCloudResult::NoFullPathOrNameOrFolderIdProvided => 1001,
            PCloudResult::NoFullPathOrFolderIdProvided => 1002,
            PCloudResult::NoFileIdOrPathProvided => 1004,
            PCloudResult::InvalidFileDescriptor => 1007,
            PCloudResult::DateTimeFormatNotUnderstood => 1013,
            PCloudResult::NoFullToPathOrToNameAndToFolderIdProvided => 1016,
            PCloudResult::InvalidFolderId => 1017,
            PCloudResult::InvalidFileId => 1018,
            PCloudResult::ProvidedAtLeastToPathOrToFolderIdOrToName => 1037,
            PCloudResult::ProvideURL => 1040,
            PCloudResult::LoginFailed => 2000,
            PCloudResult::InvalidFileOrFolderName => 2001,
            PCloudResult::ComponentOfTheParentDirectoryDoesNotExist => 2002,
            PCloudResult::AccessDenied => 2003,
            PCloudResult::DirectoryDoesNotExist => 2005,
            PCloudResult::FolderIsNotEmpty => 2006,
            PCloudResult::CanNotDeleteRootFolder => 2007,
            PCloudResult::UserOverQuota => 2008,
            PCloudResult::FileNotFound => 2009,
            PCloudResult::InvalidPath => 2010,
            PCloudResult::PleaseVerifyYourMailAddressToPerformThisAction => 2014,
            PCloudResult::CannotPlaceASharedFolderIntoAnotherSharedFolder => 2023,
            PCloudResult::YouCanOnlyShareYourOwnFilesOrFolders => 2026,
            PCloudResult::ActiveSharesOrShareRequestsForThisFolder => 2028,
            PCloudResult::ConnectionBroken => 2041,
            PCloudResult::CannotRenameTheRootFolder => 2042,
            PCloudResult::CannotMoveAFolderToASubfolderOfItself => 2043,
            PCloudResult::TooManyLogins => 4000,
            PCloudResult::InternalError => 5000,
            PCloudResult::InternalUploadError => 5001,
            PCloudResult::WriteError => 5003,
        }
    }

    /// Returns the numeric status code of this variant.
    pub fn code(&self) -> (c: u16)
        ensures
            c == self.code_spec(),
    {
        match self {
            PCloudResult::Success => 0,
            PCloudResult::LogInRequired => 1000,
            PCloudResult::NoFullPathOrNameOrFolderIdProvided => 1001,
            PCloudResult::NoFullPathOrFolderIdProvided => 1002,
            PCloudResult::NoFileIdOrPathProvided => 1004,
            PCloudResult::InvalidFileDescriptor => 1007,
            PCloudResult::DateTimeFormatNotUnderstood => 1013,
            PCloudResult::NoFullToPathOrToNameAndToFolderIdProvided => 1016,
            PCloudResult::InvalidFolderId => 1017,
            PCloudResult::InvalidFileId => 1018,
            PCloudResult::ProvidedAtLeastToPathOrToFolderIdOrToName => 1037,
            PCloudResult::ProvideURL => 1040,
            PCloudResult::LoginFailed => 2000,
            PCloudResult::InvalidFileOrFolderName => 2001,
            PCloudResult::ComponentOfTheParentDirectoryDoesNotExist => 2002,
            PCloudResult::AccessDenied => 2003,
            PCloudResult::DirectoryDoesNotExist => 2005,
            PCloudResult::FolderIsNotEmpty => 2006,
            PCloudResult::CanNotDeleteRootFolder => 2007,
            PCloudResult::UserOverQuota => 2008,
            PCloudResult::FileNotFound => 2009,
            PCloudResult::InvalidPath => 2010,
            PCloudResult::PleaseVerifyYourMailAddressToPerformThisAction => 2014,
            PCloudResult::CannotPlaceASharedFolderIntoAnotherSharedFolder => 2023,
            PCloudResult::YouCanOnlyShareYourOwnFilesOrFolders => 2026,
            PCloudResult::ActiveSharesOrShareRequestsForThisFolder => 2028,
            PCloudResult::ConnectionBroken => 2041,
            PCloudResult::CannotRenameTheRootFolder => 2042,
            PCloudResult::CannotMoveAFolderToASubfolderOfItself => 2043,
            PCloudResult::TooManyLogins => 4000,
            PCloudResult::InternalError => 5000,
            PCloudResult::InternalUploadError => 5001,
            PCloudResult::WriteError => 5003,
        }
    }
}

/// Decodes a numeric wire status code into its [`PCloudResult`] variant.
///
/// Returns `None` exactly on the codes the service does not define.
pub fn result_from_code(c: u16) -> (r: Option<PCloudResult>)
    ensures
        r matches Some(v) ==> v.code_spec() == c,
        forall|v: PCloudResult| v.code_spec() == c ==> r == Some(v),
{
    let r = match c {
        0u16 => Some(PCloudResult::Success),
        1000u16 => Some(PCloudResult::LogInRequired),
        1001u16 => Some(PCloudResult::NoFullPathOrNameOrFolderIdProvided),
        1002u16 => Some(PCloudResult::NoFullPathOrFolderIdProvided),
        1004u16 => Some(PCloudResult::NoFileIdOrPathProvided),
        1007u16 => Some(PCloudResult::InvalidFileDescriptor),
        1013u16 => Some(PCloudResult::DateTimeFormatNotUnderstood),
        1016u16 => Some(PCloudResult::NoFullToPathOrToNameAndToFolderIdProvided),
        1017u16 => Some(PCloudResult::InvalidFolderId),
        1018u16 => Some(PCloudResult::InvalidFileId),
        1037u16 => Some(PCloudResult::ProvidedAtLeastToPathOrToFolderIdOrToName),
        1040u16 => Some(PCloudResult::ProvideURL),
        2000u16 => Some(PCloudResult::LoginFailed),
        2001u16 => Some(PCloudResult::InvalidFileOrFolderName),
        2002u16 => Some(PCloudResult::ComponentOfTheParentDirectoryDoesNotExist),
        2003u16 => Some(PCloudResult::AccessDenied),
        2005u16 => Some(PCloudResult::DirectoryDoesNotExist),
        2006u16 => Some(PCloudResult::FolderIsNotEmpty),
        2007u16 => Some(PCloudResult::CanNotDeleteRootFolder),
        2008u16 => Some(PCloudResult::UserOverQuota),
        2009u16 => Some(PCloudResult::FileNotFound),
        2010u16 => Some(PCloudResult::InvalidPath),
        2014u16 => Some(PCloudResult::PleaseVerifyYourMailAddressToPerformThisAction),
        2023u16 => Some(PCloudResult::CannotPlaceASharedFolderIntoAnotherSharedFolder),
        2026u16 => Some(PCloudResult::YouCanOnlyShareYourOwnFilesOrFolders),
        2028u16 => Some(PCloudResult::ActiveSharesOrShareRequestsForThisFolder),
        2041u16 => Some(PCloudResult::ConnectionBroken),
        2042u16 => Some(PCloudResult::CannotRenameTheRootFolder),
        2043u16 => Some(PCloudResult::CannotMoveAFolderToASubfolderOfItself),
        4000u16 => Some(PCloudResult::TooManyLogins),
        5000u16 => Some(PCloudResult::InternalError),
        5001u16 => Some(PCloudResult::InternalUploadError),
        5003u16 => Some(PCloudResult::WriteError),
        _ => None,
    };
    proof {
        if r is None {
            assert(forall|v: PCloudResult| v.code_spec() != c);
        }
    }
    r
}

/// The code mapping is injective: no two distinct variants share a numeric
/// wire code, so decoding the code of any variant gives that variant back.
pub proof fn lemma_code_round_trip(v: PCloudResult)
    ensures
        forall|w: PCloudResult| w.code_spec() == v.code_spec() ==> w == v,
{
}

impl PCloudResult {
    /// The human-readable description of this status code.
    pub open spec fn message_spec(self) -> Seq<char> {
        match self {
            PCloudResult::Success => "Everything ok - no error"@,
            PCloudResult::LogInRequired => "Log in required"@,
            PCloudResult::NoFullPathOrNameOrFolderIdProvided => "No full path or name/folderid provided."@,
            PCloudResult::NoFullPathOrFolderIdProvided => "No full path or folder id provided."@,
            PCloudResult::NoFileIdOrPathProvided => "No file id or file path provided"@,
            PCloudResult::InvalidFileDescriptor => "Invalid or closed file descriptor."@,
            PCloudResult::DateTimeFormatNotUnderstood => "Date time format not understood"@,
            PCloudResult::NoFullToPathOrToNameAndToFolderIdProvided => "No full topath or toname/tofolderid provided."@,
            PCloudResult::InvalidFolderId => "Invalid 'folderid' provided."@,
            PCloudResult::InvalidFileId => "Invalid 'fileid' provided."@,
            PCloudResult::ProvidedAtLeastToPathOrToFolderIdOrToName => "Please provide at least one of 'topath', 'tofolderid' or 'toname'."@,
            PCloudResult::ProvideURL => "Provide url"@,
            PCloudResult::LoginFailed => "Log in failed"@,
            PCloudResult::InvalidFileOrFolderName => "Invalid file or folder name"@,
            PCloudResult::ComponentOfTheParentDirectoryDoesNotExist => "A component of the parent directory does not exist"@,
            PCloudResult::AccessDenied => "Access denied"@,
            PCloudResult::DirectoryDoesNotExist => "Directory does not exist"@,
            PCloudResult::FolderIsNotEmpty => "Folder is not empty"@,
            PCloudResult::CanNotDeleteRootFolder => "Cannot delete the root folder."@,
            PCloudResult::UserOverQuota => "User over quota"@,
            PCloudResult::FileNotFound => "File not found"@,
            PCloudResult::InvalidPath => "Invalid path"@,
            PCloudResult::PleaseVerifyYourMailAddressToPerformThisAction => "Please verify your mail address to perform this action"@,
            PCloudResult::CannotPlaceASharedFolderIntoAnotherSharedFolder => "You are trying to place shared folder into another shared folder."@,
            PCloudResult::YouCanOnlyShareYourOwnFilesOrFolders => "You can only share your own files or folders"@,
            PCloudResult::ActiveSharesOrShareRequestsForThisFolder => "There are active shares or sharerequests for this folder."@,
            PCloudResult::ConnectionBroken => "Connection broken"@,
            PCloudResult::CannotRenameTheRootFolder => "Cannot rename the root folder."@,
            PCloudResult::CannotMoveAFolderToASubfolderOfItself => "Cannot move a folder to a subfolder of itself."@,
            PCloudResult::TooManyLogins => "Too many logins"@,
            PCloudResult::InternalError => "Internal error"@,
            PCloudResult::InternalUploadError => "Internal upload error"@,
            PCloudResult::WriteError => "Write error. Try reopening the file."@,
        }
    }

    /// Returns the human-readable description of this status code.
    pub fn message(&self) -> (r: &'static str)
        ensures
            r@ == self.message_spec(),
    {
        match self {
            PCloudResult::Success => "Everything ok - no error",
            PCloudResult::LogInRequired => "Log in required",
            PCloudResult::NoFullPathOrNameOrFolderIdProvided => "No full path or name/folderid provided.",
            PCloudResult::NoFullPathOrFolderIdProvided => "No full path or folder id provided.",
            PCloudResult::NoFileIdOrPathProvided => "No file id or file path provided",
            PCloudResult::InvalidFileDescriptor => "Invalid or closed file descriptor.",
            PCloudResult::DateTimeFormatNotUnderstood => "Date time format not understood",
            PCloudResult::NoFullToPathOrToNameAndToFolderIdProvided => "No full topath or toname/tofolderid provided.",
            PCloudResult::InvalidFolderId => "Invalid 'folderid' provided.",
            PCloudResult::InvalidFileId => "Invalid 'fileid' provided.",
            PCloudResult::ProvidedAtLeastToPathOrToFolderIdOrToName => "Please provide at least one of 'topath', 'tofolderid' or 'toname'.",
            PCloudResult::ProvideURL => "Provide url",
            PCloudResult::LoginFailed => "Log in failed",
            PCloudResult::InvalidFileOrFolderName => "Invalid file or folder name",
            PCloudResult::ComponentOfTheParentDirectoryDoesNotExist => "A component of the parent directory does not exist",
            PCloudResult::AccessDenied => "Access denied",
            PCloudResult::DirectoryDoesNotExist => "Directory does not exist",
            PCloudResult::FolderIsNotEmpty => "Folder is not empty",
            PCloudResult::CanNotDeleteRootFolder => "Cannot delete the root folder.",
            PCloudResult::UserOverQuota => "User over quota",
            PCloudResult::FileNotFound => "File not found",
            PCloudResult::InvalidPath => "Invalid path",
            PCloudResult::PleaseVerifyYourMailAddressToPerformThisAction => "Please verify your mail address to perform this action",
            PCloudResult::CannotPlaceASharedFolderIntoAnotherSharedFolder => "You are trying to place shared folder into another shared folder.",
            PCloudResult::YouCanOnlyShareYourOwnFilesOrFolders => "You can only share your own files or folders",
            PCloudResult::ActiveSharesOrShareRequestsForThisFolder => "There are active shares or sharerequests for this folder.",
            PCloudResult::ConnectionBroken => "Connection broken",
            PCloudResult::CannotRenameTheRootFolder => "Cannot rename the root folder.",
            PCloudResult::CannotMoveAFolderToASubfolderOfItself => "Cannot move a folder to a subfolder of itself.",
            PCloudResult::TooManyLogins => "Too many logins",
            PCloudResult::InternalError => "Internal error",
            PCloudResult::InternalUploadError => "Internal upload error",
            PCloudResult::WriteError => "Write error. Try reopening the file.",
        }
    }
}

/// The character of a single decimal digit.
pub open spec fn digit_seq(d: nat) -> Seq<char> {
    if d == 0 {
        seq!['0']
    } else if d == 1 {
        seq!['1']
    } else if d == 2 {
        seq!['2']
    } else if d == 3 {
        seq!['3']
    } else if d == 4 {
        seq!['4']
    } else if d == 5 {
        seq!['5']
    } else if d == 6 {
        seq!['6']
    } else if d == 7 {
        seq!['7']
    } else if d == 8 {
        seq!['8']
    } else {
        seq!['9']
    }
}

/// The decimal rendering of a number: its leading digits followed by its last
/// digit, with no leading zeroes.
pub open spec fn dec_digits(n: nat) -> Seq<char>
    decreases n,
{
    if n < 10 {
        digit_seq(n)
    } else {
        dec_digits(n / 10) + digit_seq(n % 10)
    }
}

/// Returns the one-character text of a single decimal digit.
fn digit_str(d: u64) -> (r: &'static str)
    requires
        d < 10,
    ensures
        r@ == digit_seq(d as nat),
{
    proof {
        reveal_strlit("0");
        reveal_strlit("1");
        reveal_strlit("2");
        reveal_strlit("3");
        reveal_strlit("4");
        reveal_strlit("5");
        reveal_strlit("6");
        reveal_strlit("7");
        reveal_strlit("8");
        reveal_strlit("9");
        assert("0"@ =~= seq!['0']);
        assert("1"@ =~= seq!['1']);
        assert("2"@ =~= seq!['2']);
        assert("3"@ =~= seq!['3']);
        assert("4"@ =~= seq!['4']);
        assert("5"@ =~= seq!['5']);
        assert("6"@ =~= seq!['6']);
        assert("7"@ =~= seq!['7']);
        assert("8"@ =~= seq!['8']);
        assert("9"@ =~= seq!['9']);
    }
    if d == 0 {
        "0"
    } else if d == 1 {
        "1"
    } else if d == 2 {
        "2"
    } else if d == 3 {
        "3"
    } else if d == 4 {
        "4"
    } else if d == 5 {
        "5"
    } else if d == 6 {
        "6"
    } else if d == 7 {
        "7"
    } else if d == 8 {
        "8"
    } else {
        "9"
    }
}

/// Renders a number in decimal, exactly as [`dec_digits`] describes.
pub fn u64_to_decimal(n: u64) -> (r: String)
    ensures
        r@ == dec_digits(n as nat),
    decreases n,
{
    if n < 10 {
        digit_str(n).to_owned()
    } else {
        let mut s = u64_to_decimal(n / 10);
        s.append(digit_str(n % 10));
        s
    }
}

/// Unix-second timestamps the service's date format can carry
/// (years 0000 through 9999).
pub open spec fn pcloud_time_in_range(secs: i64) -> bool {
    -62167219200 <= secs <= 253402300799
}

/// The text chrono renders for a unix timestamp in the service's date format
/// (`%a, %d %b %Y %H:%M:%S %z`).
pub uninterp spec fn pcloud_time_of(secs: int) -> Seq<char>;

/// Renders a unix timestamp in the date format the service expects in query
/// parameters.
///
/// Relies on chrono's `DateTime::<Utc>::from_timestamp` and `format`: the
/// rendered text depends on the number of seconds alone, chrono's month and
/// weekday names are fixed English, and every timestamp admitted by
/// [`pcloud_time_in_range`] is representable, so the conversion cannot fail.
#[verifier::external_body]
pub fn format_date_time_for_pcloud(secs: i64) -> (r: String)
    requires
        pcloud_time_in_range(secs),
    ensures
        r@ == pcloud_time_of(secs as int),
{
    let dt = chrono::DateTime::<chrono::Utc>::from_timestamp(secs, 0)
        .expect("timestamp within the representable range");
    format!("{}", dt.format("%a, %d %b %Y %H:%M:%S %z"))
}

/// Implemented by every decoded response that embeds a [`PCloudResult`].
///
/// [`WithPCloudResult::assert_ok`] is the single result-normalising step: it
/// is the identity on a successful response and turns any other response into
/// an error carrying exactly the embedded status code.
pub trait WithPCloudResult: Sized {
    /// The status code embedded in this response.
    spec fn result_code(&self) -> PCloudResult;

    /// Returns the embedded status code.
    fn get_result(&self) -> (r: &PCloudResult)
        ensures
            *r == self.result_code(),
    ;

    /// Checks that the operation succeeded: the response is returned unchanged
    /// when its code is the success value, and otherwise becomes an error
    /// carrying exactly the embedded code.
    fn assert_ok(self) -> (r: Result<Self, PCloudResult>)
        ensures
            self.result_code() == PCloudResult::Success ==> r == Result::<Self, PCloudResult>::Ok(
                self,
            ),
            self.result_code() != PCloudResult::Success ==> r == Result::<Self, PCloudResult>::Err(
                self.result_code(),
            ),
    {
        match self.get_result() {
            PCloudResult::Success => Ok(self),
            e => Err(*e),
        }
    }
}

/// Category of a file, as the service classifies it.
#[derive(Clone, Copy, Debug, PartialEq, Eq, Structural)]
pub enum FileCategory {
    Uncategorized,
    Image,
    Video,
    Audio,
    Document,
    Archive,
}

impl FileCategory {
    /// The numeric wire value of this category.
    pub open spec fn code_spec(self) -> u8 {
        match self {
            FileCategory::Uncategorized => 0,
            FileCategory::Image => 1,
            FileCategory::Video => 2,
            FileCategory::Audio => 3,
            FileCategory::Document => 4,
            FileCategory::Archive => 5,
        }
    }

    /// Returns the numeric wire value of this category.
    pub fn code(&self) -> (c: u8)
        ensures
            c == self.code_spec(),
    {
        match self {
            FileCategory::Uncategorized => 0,
            FileCategory::Image => 1,
            FileCategory::Video => 2,
            FileCategory::Audio => 3,
            FileCategory::Document => 4,
            FileCategory::Archive => 5,
        }
    }
}

/// Decodes a numeric wire value into its [`FileCategory`].
pub fn category_from_code(c: u8) -> (r: Option<FileCategory>)
    ensures
        r matches Some(v) ==> v.code_spec() == c,
        forall|v: FileCategory| v.code_spec() == c ==> r == Some(v),
{
    match c {
        0u8 => Some(FileCategory::Uncategorized),
        1u8 => Some(FileCategory::Image),
        2u8 => Some(FileCategory::Video),
        3u8 => Some(FileCategory::Audio),
        4u8 => Some(FileCategory::Document),
        5u8 => Some(FileCategory::Archive),
        _ => None,
    }
}

/// Icon the service assigns to a file or folder.
#[derive(Clone, Copy, Debug, PartialEq, Eq, Structural)]
pub enum FileIcon {
    Document,
    Database,
    Archive,
    Web,
    Gis,
    Spreadsheet,
    Font,
    Presentation,
    Image,
    Diskimage,
    Package,
    Executable,
    Audio,
    Video,
    File,
    Folder,
}

impl FileIcon {
    /// The lower-case name of this icon on the wire.
    pub open spec fn wire_name_spec(self) -> Seq<char> {
        match self {
            FileIcon::Document => "document"@,
            FileIcon::Database => "database"@,
            FileIcon::Archive => "archive"@,
            FileIcon::Web => "web"@,
            FileIcon::Gis => "gis"@,
            FileIcon::Spreadsheet => "spreadsheet"@,
            FileIcon::Font => "font"@,
            FileIcon::Presentation => "presentation"@,
            FileIcon::Image => "image"@,
            FileIcon::Diskimage => "diskimage"@,
            FileIcon::Package => "package"@,
            FileIcon::Executable => "executable"@,
            FileIcon::Audio => "audio"@,
            FileIcon::Video => "video"@,
            FileIcon::File => "file"@,
            FileIcon::Folder => "folder"@,
        }
    }

    /// Returns the lower-case name of this icon on the wire.
    pub fn wire_name(&self) -> (r: &'static str)
        ensures
            r@ == self.wire_name_spec(),
    {
        match self {
            FileIcon::Document => "document",
            FileIcon::Database => "database",
            FileIcon::Archive => "archive",
            FileIcon::Web => "web",
            FileIcon::Gis => "gis",
            FileIcon::Spreadsheet => "spreadsheet",
            FileIcon::Font => "font",
            FileIcon::Presentation => "presentation",
            FileIcon::Image => "image",
            FileIcon::Diskimage => "diskimage",
            FileIcon::Package => "package",
            FileIcon::Executable => "executable",
            FileIcon::Audio => "audio",
            FileIcon::Video => "video",
            FileIcon::File => "file",
            FileIcon::Folder => "folder",
        }
    }
}

/// Metadata of a file or folder, reduced to the plain values the client logic
/// reads.  Timestamps are unix seconds.
#[derive(Debug)]
pub struct Metadata {
    /// Folder id of the containing folder.
    pub parentfolderid: Option<u64>,
    /// Whether the object is a folder (`true`) or a file (`false`).
    pub isfolder: bool,
    /// Whether the object is owned by the requesting user.
    pub ismine: bool,
    /// Whether the object is shared with other users.
    pub isshared: bool,
    /// Name of the file or folder.
    pub name: String,
    /// Unique string id: the numeric id prefixed with `d` for folders, `f` for files.
    pub id: String,
    /// For folders, the numeric folder id.
    pub folderid: Option<u64>,
    /// For files, the numeric file id.
    pub fileid: Option<u64>,
    /// Creation time, unix seconds.
    pub created: i64,
    /// Modification time, unix seconds.
    pub modified: i64,
    /// Icon to display.
    pub icon: Option<FileIcon>,
    /// Category of the file.
    pub category: Option<FileCategory>,
    /// Whether thumbnails can be created for the object.
    pub thumb: bool,
    /// Size in bytes, present for files.
    pub size: Option<u64>,
    /// Content type, present for files.
    pub contenttype: Option<String>,
    /// Hash of the file contents, present for files.
    pub hash: Option<u64>,
    /// Contents of a folder listing.
    pub contents: Vec<Metadata>,
    /// Present (and `true`) only for deleted objects.
    pub isdeleted: Option<bool>,
    /// Full path, provided when the object was requested by path.
    pub path: Option<String>,
}

/// Result of a download-link request.
#[derive(Clone, Debug)]
pub struct DownloadLink {
    pub result: PCloudResult,
    pub path: Option<String>,
    /// Link expiry time, unix seconds.
    pub expires: Option<i64>,
    /// Download hosts; the first entry is the best choice.
    pub hosts: Vec<String>,
}

impl WithPCloudResult for DownloadLink {
    open spec fn result_code(&self) -> PCloudResult {
        self.result
    }

    fn get_result(&self) -> (r: &PCloudResult) {
        &self.result
    }
}

impl DownloadLink {
    /// Turns the link into a full download URL: `https://` followed by the
    /// first host and the path.  Yields a URL exactly when the link is
    /// successful, has at least one host and carries a path.
    pub fn into_url(&self) -> (r: Option<String>)
        ensures
            r is Some <==> (self.result == PCloudResult::Success && self.hosts@.len() > 0
                && self.path is Some),
            r matches Some(u) ==> (self.path matches Some(p) && u@ == "https://"@
                + self.hosts@[0]@ + p@),
    {
        if self.result == PCloudResult::Success && self.hosts.len() > 0 && self.path.is_some() {
            let mut url = String::from_str("https://");
            url.append(self.hosts[0].as_str());
            url.append(self.path.as_ref().unwrap().as_str());
            Some(url)
        } else {
            None
        }
    }
}

/// Result of requesting a public link for a file.
#[derive(Debug)]
pub struct PublicFileLink {
    pub result: PCloudResult,
    /// Id that can be used to delete or modify this public link.
    pub linkid: Option<u64>,
    /// Code for retrieving the public link contents.
    pub code: Option<String>,
    /// Full link.
    pub link: Option<String>,
    /// Short code, usable in place of `code`.
    pub shortcode: Option<String>,
    /// Full short link.
    pub shortlink: Option<String>,
    /// Metadata of the target file.
    pub metadata: Option<Metadata>,
    /// Creation time, unix seconds.
    pub created: Option<i64>,
    /// Modification time, unix seconds.
    pub modified: Option<i64>,
    pub downloadenabled: Option<bool>,
    pub downloads: Option<u64>,
}

impl WithPCloudResult for PublicFileLink {
    open spec fn result_code(&self) -> PCloudResult {
        self.result
    }

    fn get_result(&self) -> (r: &PCloudResult) {
        &self.result
    }
}

/// Events the diff stream can report.
#[derive(Clone, Copy, Debug, PartialEq, Eq, Structural)]
pub enum DiffEvent {
    Reset,
    CreateFolder,
    DeleteFolder,
    ModifyFolder,
    CreateFile,
    ModifyFile,
    DeleteFile,
    RequestShareIn,
    AcceptedShareIn,
    DeclinedShareIn,
    DeclinedShareOut,
    CancelledShareIn,
    RemovedShareIn,
    ModifiedShareIn,
    ModifyUserInfo,
}

/// Share description attached to share events.
#[derive(Clone, Debug)]
pub struct Share {
    pub folderid: u64,
    pub sharerequestid: Option<u64>,
    pub shareid: Option<u64>,
    pub sharename: Option<String>,
    /// Creation time, unix seconds.
    pub created: Option<i64>,
    /// Expiry time, unix seconds.
    pub expires: Option<i64>,
    pub canread: Option<bool>,
    pub canmodify: Option<bool>,
    pub candelete: Option<bool>,
    pub cancreate: Option<bool>,
    pub message: Option<String>,
}

/// One entry of the diff stream.
#[derive(Debug)]
pub struct DiffEntry {
    /// Time of the event, unix seconds.
    pub time: i64,
    /// Id of the event.
    pub diffid: u64,
    pub event: DiffEvent,
    pub metadata: Option<Metadata>,
    pub share: Option<Share>,
}

/// Result of the diff operation.
#[derive(Debug)]
pub struct Diff {
    /// Last diff id listed.
    pub diffid: u64,
    pub entries: Vec<DiffEntry>,
}

/// Result of the file-history operation.
#[derive(Debug)]
pub struct FileHistory {
    pub result: PCloudResult,
    pub entries: Vec<DiffEntry>,
}

impl WithPCloudResult for FileHistory {
    open spec fn result_code(&self) -> PCloudResult {
        self.result
    }

    fn get_result(&self) -> (r: &PCloudResult) {
        &self.result
    }
}

/// Result of the endpoint-discovery operation.
#[derive(Clone, Debug)]
pub struct ApiServers {
    pub result: PCloudResult,
    /// Endpoints of the binary API; the first entry is the best choice.
    pub binapi: Vec<String>,
    /// Endpoints of the rest API; the first entry is the best choice.
    pub api: Vec<String>,
}

impl WithPCloudResult for ApiServers {
    open spec fn result_code(&self) -> PCloudResult {
        self.result
    }

    fn get_result(&self) -> (r: &PCloudResult) {
        &self.result
    }
}

/// Result of fetching the metadata of a file or folder.
#[derive(Debug)]
pub struct FileOrFolderStat {
    pub result: PCloudResult,
    pub metadata: Option<Metadata>,
}

impl WithPCloudResult for FileOrFolderStat {
    open spec fn result_code(&self) -> PCloudResult {
        self.result
    }

    fn get_result(&self) -> (r: &PCloudResult) {
        &self.result
    }
}

/// One historical revision of a file.
#[derive(Clone, Debug)]
pub struct FileRevision {
    pub revisionid: u64,
    pub size: u64,
    pub hash: u64,
    /// Creation time, unix seconds.
    pub created: i64,
}

/// Result of listing the revisions of a file.
#[derive(Debug)]
pub struct RevisionList {
    pub result: PCloudResult,
    pub metadata: Option<Metadata>,
    pub revisions: Vec<FileRevision>,
}

impl WithPCloudResult for RevisionList {
    open spec fn result_code(&self) -> PCloudResult {
        self.result
    }

    fn get_result(&self) -> (r: &PCloudResult) {
        &self.result
    }
}

/// Result of deleting a folder recursively.
#[derive(Clone, Debug)]
pub struct FolderRecursivlyDeleted {
    pub result: PCloudResult,
    pub deletedfiles: Option<u64>,
    pub deletedfolders: Option<u64>,
}

impl WithPCloudResult for FolderRecursivlyDeleted {
    open spec fn result_code(&self) -> PCloudResult {
        self.result
    }

    fn get_result(&self) -> (r: &PCloudResult) {
        &self.result
    }
}

/// Result of requesting the checksums of a file.
#[derive(Debug)]
pub struct FileChecksums {
    pub result: PCloudResult,
    pub metadata: Option<Metadata>,
    pub sha1: Option<String>,
    pub md5: Option<String>,
    pub sha256: Option<String>,
}

impl WithPCloudResult for FileChecksums {
    open spec fn result_code(&self) -> PCloudResult {
        self.result
    }

    fn get_result(&self) -> (r: &PCloudResult) {
        &self.result
    }
}

/// Result of fetching user metadata; carries the auth token after a login.
#[derive(Clone, Debug)]
pub struct UserInfo {
    pub result: PCloudResult,
    /// Authentication token, present when requested at login.
    pub auth: Option<String>,
    pub userid: Option<u64>,
    pub email: Option<String>,
    pub emailverified: Option<bool>,
    /// Registration time, unix seconds.
    pub registered: Option<i64>,
    pub language: Option<String>,
    pub premium: Option<bool>,
    pub usedquota: Option<u64>,
    pub quota: Option<u64>,
}

impl WithPCloudResult for UserInfo {
    open spec fn result_code(&self) -> PCloudResult {
        self.result
    }

    fn get_result(&self) -> (r: &PCloudResult) {
        &self.result
    }
}

/// Result of a file upload.
#[derive(Debug)]
pub struct UploadedFile {
    pub result: PCloudResult,
    pub fileids: Vec<u64>,
    pub metadata: Vec<Metadata>,
}

impl WithPCloudResult for UploadedFile {
    open spec fn result_code(&self) -> PCloudResult {
        self.result
    }

    fn get_result(&self) -> (r: &PCloudResult) {
        &self.result
    }
}

/// Result of revoking a session token.
#[derive(Clone, Debug)]
pub struct LogoutResponse {
    pub result: PCloudResult,
    /// Whether the authentication token was actually deleted.
    pub auth_deleted: Option<bool>,
}

impl WithPCloudResult for LogoutResponse {
    open spec fn result_code(&self) -> PCloudResult {
        self.result
    }

    fn get_result(&self) -> (r: &PCloudResult) {
        &self.result
    }
}

/// Result of opening a file descriptor on the server.
#[derive(Clone, Debug)]
pub struct FileOpenResponse {
    pub result: PCloudResult,
    /// Server-side file descriptor.
    pub fd: u64,
    pub fileid: u64,
}

impl WithPCloudResult for FileOpenResponse {
    open spec fn result_code(&self) -> PCloudResult {
        self.result
    }

    fn get_result(&self) -> (r: &PCloudResult) {
        &self.result
    }
}

/// Result of closing a server-side file descriptor.
#[derive(Clone, Debug)]
pub struct FileCloseResponse {
    pub result: PCloudResult,
}

impl WithPCloudResult for FileCloseResponse {
    open spec fn result_code(&self) -> PCloudResult {
        self.result
    }

    fn get_result(&self) -> (r: &PCloudResult) {
        &self.result
    }
}

/// Result of writing to a server-side file descriptor.
#[derive(Clone, Debug)]
pub struct FileWriteResponse {
    pub result: PCloudResult,
    /// Number of bytes written.
    pub bytes: Option<u64>,
}

impl WithPCloudResult for FileWriteResponse {
    open spec fn result_code(&self) -> PCloudResult {
        self.result
    }

    fn get_result(&self) -> (r: &PCloudResult) {
        &self.result
    }
}

/// Progress of a server-side zip operation.
#[derive(Clone, Debug)]
pub struct SaveZipProgressResponse {
    /// Count of the already zipped files.
    pub files: u64,
    /// Total count of files to be zipped.
    pub totalfiles: u64,
    /// Size of the already zipped files.
    pub bytes: u64,
    /// Total size of the files to be zipped.
    pub totalbytes: u64,
}

} // verus!
