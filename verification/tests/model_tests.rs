use pcloud::pcloud_model::{
    category_from_code, result_from_code, u64_to_decimal, ApiServers, DownloadLink, FileCategory,
    FileIcon, FileOrFolderStat, LogoutResponse, PCloudResult, UploadedFile, WithPCloudResult,
};

fn all_result_codes() -> Vec<PCloudResult> {
    vec![
        PCloudResult::Success,
        PCloudResult::LogInRequired,
        PCloudResult::NoFullPathOrNameOrFolderIdProvided,
        PCloudResult::NoFullPathOrFolderIdProvided,
        PCloudResult::NoFileIdOrPathProvided,
        PCloudResult::InvalidFileDescriptor,
        PCloudResult::DateTimeFormatNotUnderstood,
        PCloudResult::NoFullToPathOrToNameAndToFolderIdProvided,
        PCloudResult::InvalidFolderId,
        PCloudResult::InvalidFileId,
        PCloudResult::ProvidedAtLeastToPathOrToFolderIdOrToName,
        PCloudResult::ProvideURL,
        PCloudResult::LoginFailed,
        PCloudResult::InvalidFileOrFolderName,
        PCloudResult::ComponentOfTheParentDirectoryDoesNotExist,
        PCloudResult::AccessDenied,
        PCloudResult::DirectoryDoesNotExist,
        PCloudResult::FolderIsNotEmpty,
        PCloudResult::CanNotDeleteRootFolder,
        PCloudResult::UserOverQuota,
        PCloudResult::FileNotFound,
        PCloudResult::InvalidPath,
        PCloudResult::PleaseVerifyYourMailAddressToPerformThisAction,
        PCloudResult::CannotPlaceASharedFolderIntoAnotherSharedFolder,
        PCloudResult::YouCanOnlyShareYourOwnFilesOrFolders,
        PCloudResult::ActiveSharesOrShareRequestsForThisFolder,
        PCloudResult::ConnectionBroken,
        PCloudResult::CannotRenameTheRootFolder,
        PCloudResult::CannotMoveAFolderToASubfolderOfItself,
        PCloudResult::TooManyLogins,
        PCloudResult::InternalError,
        PCloudResult::InternalUploadError,
        PCloudResult::WriteError,
    ]
}

#[test]
fn assert_ok_is_identity_on_success() {
    let stat = FileOrFolderStat {
        result: PCloudResult::Success,
        metadata: None,
    };
    let out = stat.assert_ok().unwrap();
    assert_eq!(out.result, PCloudResult::Success);
    assert!(out.metadata.is_none());
}

#[test]
fn assert_ok_carries_original_code_for_every_code() {
    for code in all_result_codes() {
        let response = LogoutResponse {
            result: code,
            auth_deleted: Some(false),
        };
        match response.assert_ok() {
            Ok(r) => {
                assert_eq!(code, PCloudResult::Success);
                assert_eq!(r.result, PCloudResult::Success);
                assert_eq!(r.auth_deleted, Some(false));
            }
            Err(e) => {
                assert_ne!(code, PCloudResult::Success);
                assert_eq!(e, code);
            }
        }
    }
}

#[test]
fn numeric_codes_round_trip() {
    for code in all_result_codes() {
        let wire = code.code();
        assert_eq!(result_from_code(wire), Some(code));
    }
    assert_eq!(PCloudResult::Success.code(), 0);
    assert_eq!(PCloudResult::NoFileIdOrPathProvided.code(), 1004);
    assert_eq!(PCloudResult::AccessDenied.code(), 2003);
    assert_eq!(PCloudResult::TooManyLogins.code(), 4000);
    assert_eq!(result_from_code(9999), None);
    assert_eq!(result_from_code(1003), None);
}

#[test]
fn messages_describe_codes() {
    assert_eq!(
        PCloudResult::Success.message(),
        "Everything ok - no error"
    );
    assert_eq!(
        PCloudResult::NoFileIdOrPathProvided.message(),
        "No file id or file path provided"
    );
    assert_eq!(PCloudResult::AccessDenied.message(), "Access denied");
}

#[test]
fn download_link_into_url_joins_host_and_path() {
    let link = DownloadLink {
        result: PCloudResult::Success,
        path: Some(String::from("/dl/file.txt")),
        expires: None,
        hosts: vec![String::from("c1.pcloud.com"), String::from("c2.pcloud.com")],
    };
    assert_eq!(
        link.into_url(),
        Some(String::from("https://c1.pcloud.com/dl/file.txt"))
    );
}

#[test]
fn download_link_into_url_requires_success_host_and_path() {
    let failed = DownloadLink {
        result: PCloudResult::ProvideURL,
        path: Some(String::from("/dl")),
        expires: None,
        hosts: vec![String::from("h")],
    };
    assert_eq!(failed.into_url(), None);

    let no_hosts = DownloadLink {
        result: PCloudResult::Success,
        path: Some(String::from("/dl")),
        expires: None,
        hosts: Vec::new(),
    };
    assert_eq!(no_hosts.into_url(), None);

    let no_path = DownloadLink {
        result: PCloudResult::Success,
        path: None,
        expires: None,
        hosts: vec![String::from("h")],
    };
    assert_eq!(no_path.into_url(), None);
}

#[test]
fn upload_response_exposes_result() {
    let u = UploadedFile {
        result: PCloudResult::InternalUploadError,
        fileids: Vec::new(),
        metadata: Vec::new(),
    };
    assert_eq!(*u.get_result(), PCloudResult::InternalUploadError);
    let e = u.assert_ok().unwrap_err();
    assert_eq!(e, PCloudResult::InternalUploadError);
}

#[test]
fn api_servers_response_normalized_like_the_rest() {
    let d = ApiServers {
        result: PCloudResult::Success,
        binapi: Vec::new(),
        api: vec![String::from("eapi.pcloud.com")],
    };
    let d = d.assert_ok().unwrap();
    assert_eq!(d.api[0], "eapi.pcloud.com");
}

#[test]
fn file_categories_round_trip() {
    let all = [
        FileCategory::Uncategorized,
        FileCategory::Image,
        FileCategory::Video,
        FileCategory::Audio,
        FileCategory::Document,
        FileCategory::Archive,
    ];
    for c in all {
        assert_eq!(category_from_code(c.code()), Some(c));
    }
    assert_eq!(category_from_code(6), None);
}

#[test]
fn file_icons_have_lowercase_wire_names() {
    assert_eq!(FileIcon::Document.wire_name(), "document");
    assert_eq!(FileIcon::Diskimage.wire_name(), "diskimage");
    assert_eq!(FileIcon::Folder.wire_name(), "folder");
}

#[test]
fn decimal_rendering_matches_std_formatting() {
    assert_eq!(u64_to_decimal(0), "0");
    assert_eq!(u64_to_decimal(7), "7");
    assert_eq!(u64_to_decimal(10), "10");
    assert_eq!(u64_to_decimal(90210), "90210");
    assert_eq!(u64_to_decimal(u64::MAX), "18446744073709551615");
    for n in [1u64, 9, 99, 100, 101, 123456789, 1_000_000_007] {
        assert_eq!(u64_to_decimal(n), n.to_string());
    }
}
