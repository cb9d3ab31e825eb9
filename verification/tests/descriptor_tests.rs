use pcloud::file_ops::{file_id_from_stat, resolve_file_step, FileResolution, PCloudFile};
use pcloud::folder_ops::{
    folder_id_from_stat, resolve_folder_step, FolderResolution, PCloudFolder,
};
use pcloud::pcloud_model::{FileOrFolderStat, Metadata, PCloudResult};

fn plain_metadata(isfolder: bool, fileid: Option<u64>, folderid: Option<u64>) -> Metadata {
    Metadata {
        parentfolderid: Some(0),
        isfolder,
        ismine: true,
        isshared: false,
        name: String::from("object"),
        id: String::from(if isfolder { "d1" } else { "f1" }),
        folderid,
        fileid,
        created: 1_600_000_000,
        modified: 1_600_000_000,
        icon: None,
        category: None,
        thumb: false,
        size: None,
        contenttype: None,
        hash: None,
        contents: Vec::new(),
        isdeleted: None,
        path: None,
    }
}

#[test]
fn empty_file_descriptor_fails_resolution() {
    let empty = PCloudFile {
        file_id: None,
        path: None,
        revision: None,
    };
    assert!(empty.is_empty());
    let r = resolve_file_step(empty);
    assert_eq!(r.unwrap_err(), PCloudResult::NoFileIdOrPathProvided);
}

#[test]
fn empty_folder_descriptor_fails_resolution() {
    let empty = PCloudFolder {
        folder_id: None,
        path: None,
    };
    assert!(empty.is_empty());
    let r = resolve_folder_step(empty);
    assert_eq!(r.unwrap_err(), PCloudResult::NoFileIdOrPathProvided);
}

#[test]
fn id_resolves_without_stat_even_with_path() {
    let f = PCloudFile {
        file_id: Some(42),
        path: Some(String::from("/also/here.txt")),
        revision: Some(3),
    };
    match resolve_file_step(f).unwrap() {
        FileResolution::Resolved { file_id, revision } => {
            assert_eq!(file_id, 42);
            assert_eq!(revision, Some(3));
        }
        FileResolution::NeedsStat { .. } => panic!("id-bearing descriptor asked for a stat"),
    }
}

#[test]
fn folder_id_resolves_without_stat_even_with_path() {
    let f = PCloudFolder {
        folder_id: Some(7),
        path: Some(String::from("/also")),
    };
    match resolve_folder_step(f).unwrap() {
        FolderResolution::Resolved { folder_id } => assert_eq!(folder_id, 7),
        FolderResolution::NeedsStat { .. } => panic!("id-bearing descriptor asked for a stat"),
    }
}

#[test]
fn root_path_resolves_to_id_zero_locally() {
    let folder = PCloudFolder::try_from_path("/").unwrap();
    assert_eq!(folder.folder_id, Some(0));
    assert_eq!(folder.path, None);
    match resolve_folder_step(folder).unwrap() {
        FolderResolution::Resolved { folder_id } => assert_eq!(folder_id, 0),
        FolderResolution::NeedsStat { .. } => panic!("root path asked for a stat"),
    }
}

#[test]
fn absolute_path_kept_as_path_descriptor() {
    let folder = PCloudFolder::try_from_path("/Photos").unwrap();
    assert_eq!(folder.folder_id, None);
    assert_eq!(folder.path.as_deref(), Some("/Photos"));
}

#[test]
fn relative_path_rejected() {
    let r = PCloudFolder::try_from_path("Photos");
    assert_eq!(r.unwrap_err(), PCloudResult::InvalidPath);
    let r = PCloudFolder::try_from_path("");
    assert_eq!(r.unwrap_err(), PCloudResult::InvalidPath);
}

#[test]
fn file_from_folder_metadata_rejected() {
    let m = plain_metadata(true, None, Some(5));
    let r = PCloudFile::try_from_metadata(&m);
    assert_eq!(r.unwrap_err(), PCloudResult::InvalidFileOrFolderName);
}

#[test]
fn folder_from_file_metadata_rejected() {
    let m = plain_metadata(false, Some(5), None);
    let r = PCloudFolder::try_from_metadata(&m);
    assert_eq!(r.unwrap_err(), PCloudResult::InvalidFileOrFolderName);
}

#[test]
fn file_from_file_metadata_reads_id() {
    let m = plain_metadata(false, Some(5), None);
    let f = PCloudFile::try_from_metadata(&m).unwrap();
    assert_eq!(f.file_id, Some(5));
    assert_eq!(f.path, None);
    assert_eq!(f.revision, None);
}

#[test]
fn folder_from_folder_metadata_reads_id() {
    let m = plain_metadata(true, None, Some(6));
    let f = PCloudFolder::try_from_metadata(&m).unwrap();
    assert_eq!(f.folder_id, Some(6));
    assert_eq!(f.path, None);
}

#[test]
fn file_from_failed_stat_rejected() {
    let stat = FileOrFolderStat {
        result: PCloudResult::FileNotFound,
        metadata: Some(plain_metadata(false, Some(5), None)),
    };
    let r = PCloudFile::try_from_stat(&stat);
    assert_eq!(r.unwrap_err(), PCloudResult::InvalidFileOrFolderName);
}

#[test]
fn folder_from_failed_stat_rejected() {
    let stat = FileOrFolderStat {
        result: PCloudResult::DirectoryDoesNotExist,
        metadata: None,
    };
    let r = PCloudFolder::try_from_stat(&stat);
    assert_eq!(r.unwrap_err(), PCloudResult::InvalidPath);
}

#[test]
fn file_from_successful_stat_reads_id() {
    let stat = FileOrFolderStat {
        result: PCloudResult::Success,
        metadata: Some(plain_metadata(false, Some(11), None)),
    };
    let f = PCloudFile::try_from_stat(&stat).unwrap();
    assert_eq!(f.file_id, Some(11));
}

#[test]
fn file_id_from_stat_cases() {
    let good = FileOrFolderStat {
        result: PCloudResult::Success,
        metadata: Some(plain_metadata(false, Some(11), None)),
    };
    assert_eq!(file_id_from_stat(&good).unwrap(), 11);

    let folder = FileOrFolderStat {
        result: PCloudResult::Success,
        metadata: Some(plain_metadata(true, None, Some(2))),
    };
    assert_eq!(
        file_id_from_stat(&folder).unwrap_err(),
        PCloudResult::NoFileIdOrPathProvided
    );

    let missing = FileOrFolderStat {
        result: PCloudResult::Success,
        metadata: None,
    };
    assert_eq!(
        file_id_from_stat(&missing).unwrap_err(),
        PCloudResult::NoFileIdOrPathProvided
    );

    let no_id = FileOrFolderStat {
        result: PCloudResult::Success,
        metadata: Some(plain_metadata(false, None, None)),
    };
    assert_eq!(
        file_id_from_stat(&no_id).unwrap_err(),
        PCloudResult::NoFileIdOrPathProvided
    );
}

#[test]
fn folder_id_from_stat_cases() {
    let good = FileOrFolderStat {
        result: PCloudResult::Success,
        metadata: Some(plain_metadata(true, None, Some(9))),
    };
    assert_eq!(folder_id_from_stat(&good).unwrap(), 9);

    let file = FileOrFolderStat {
        result: PCloudResult::Success,
        metadata: Some(plain_metadata(false, Some(1), None)),
    };
    assert_eq!(
        folder_id_from_stat(&file).unwrap_err(),
        PCloudResult::NoFileIdOrPathProvided
    );
}

#[test]
fn descriptor_constructors() {
    let by_id = PCloudFile::from_file_id(1);
    assert_eq!(by_id.file_id, Some(1));
    assert!(!by_id.is_empty());

    let by_path = PCloudFile::from_path("/a.txt");
    assert_eq!(by_path.path.as_deref(), Some("/a.txt"));
    assert_eq!(by_path.file_id, None);

    let pinned = by_path.with_revision(4).with_revision(9);
    assert_eq!(pinned.revision, Some(9));

    let folder = PCloudFolder::from_folder_id(3);
    assert_eq!(folder.folder_id, Some(3));
}

#[test]
fn describe_renders_id_path_and_revision() {
    let by_id = PCloudFile::from_file_id(42);
    assert_eq!(by_id.describe(), "42");

    let pinned = PCloudFile::from_file_id(42).with_revision(7);
    assert_eq!(pinned.describe(), "42@7");

    let by_path = PCloudFile::from_path("/a.txt");
    assert_eq!(by_path.describe(), "/a.txt");

    let pinned_path = PCloudFile::from_path("/a.txt").with_revision(9);
    assert_eq!(pinned_path.describe(), "/a.txt@9");

    let id_wins = PCloudFile {
        file_id: Some(1),
        path: Some(String::from("/ignored")),
        revision: None,
    };
    assert_eq!(id_wins.describe(), "1");

    let empty = PCloudFile {
        file_id: None,
        path: None,
        revision: None,
    };
    assert_eq!(empty.describe(), "[Empty pCloud file descriptor!]");
}
