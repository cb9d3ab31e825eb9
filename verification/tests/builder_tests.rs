use pcloud::file_ops::{
    ChecksumFileRequestBuilder, CopyFileRequestBuilder, FileDownloadRequestBuilder,
    FileStatRequestBuilder, MoveFileRequestBuilder, PCloudFile, PublicFileDownloadRequestBuilder,
    PublicFileLinkRequestBuilder, Tree, UploadOutcome, UploadRequestBuilder,
};
use pcloud::folder_ops::{
    CopyFolderRequestBuilder, CreateFolderRequestBuilder, DeleteFolderRequestBuilder,
    ListFolderRequestBuilder, PCloudFolder,
};
use pcloud::pcloud_client::{DiffRequestBuilder, PCloudClient};
use pcloud::pcloud_model::PCloudResult;
use pcloud::request::{ApiOperation, HttpMethod, ParamKey, QueryParam, QueryValue, RequestPlan};

fn client() -> PCloudClient {
    PCloudClient::new(
        String::from("https://eapi.pcloud.com"),
        Some(String::from("tok")),
    )
}

fn count_key(plan: &RequestPlan, key: ParamKey) -> usize {
    plan.params.iter().filter(|p| p.key == key).count()
}

fn value_of(plan: &RequestPlan, key: ParamKey) -> Option<&QueryValue> {
    plan.params.iter().find(|p| p.key == key).map(|p| &p.value)
}

#[test]
fn revision_serialized_exactly_once() {
    let c = client();
    let source = PCloudFile::from_file_id(12);
    let target = pcloud::folder_ops::PCloudFolder::from_folder_id(7);
    let plan = CopyFileRequestBuilder::copy_file(&c, &source, &target)
        .unwrap()
        .with_revision(7)
        .build();
    assert_eq!(count_key(&plan, ParamKey::RevisionId), 1);
    assert_eq!(
        value_of(&plan, ParamKey::RevisionId),
        Some(&QueryValue::UInt(7))
    );
    assert_eq!(ParamKey::RevisionId.wire_name(), "revisionid");
}

#[test]
fn repeated_revision_writes_keep_last_value_once() {
    let c = client();
    let source = PCloudFile::from_file_id(12);
    let target = PCloudFolder::from_folder_id(7);
    let plan = CopyFileRequestBuilder::copy_file(&c, &source, &target)
        .unwrap()
        .with_revision(3)
        .with_revision(7)
        .build();
    assert_eq!(count_key(&plan, ParamKey::RevisionId), 1);
    assert_eq!(
        value_of(&plan, ParamKey::RevisionId),
        Some(&QueryValue::UInt(7))
    );
}

#[test]
fn copy_builder_with_empty_source_fails_before_execute() {
    let c = client();
    let empty = PCloudFile {
        file_id: None,
        path: None,
        revision: None,
    };
    let target = PCloudFolder::from_folder_id(7);
    let r = CopyFileRequestBuilder::copy_file(&c, &empty, &target);
    assert_eq!(r.unwrap_err(), PCloudResult::NoFileIdOrPathProvided);
}

#[test]
fn copy_builder_with_empty_target_fails_before_execute() {
    let c = client();
    let source = PCloudFile::from_file_id(12);
    let empty = PCloudFolder {
        folder_id: None,
        path: None,
    };
    let r = CopyFileRequestBuilder::copy_file(&c, &source, &empty);
    assert_eq!(r.unwrap_err(), PCloudResult::NoFileIdOrPathProvided);
}

#[test]
fn copy_plan_serializes_all_configured_fields_in_order() {
    let c = client();
    let source = PCloudFile::from_file_id(12).with_revision(2);
    let target = PCloudFolder::from_folder_id(7);
    let plan = CopyFileRequestBuilder::copy_file(&c, &source, &target)
        .unwrap()
        .with_new_name("copy.txt")
        .overwrite(false)
        .mtime(100)
        .ctime(50)
        .build();
    assert_eq!(plan.method, HttpMethod::Post);
    assert_eq!(plan.operation, ApiOperation::CopyFile);
    let expected = vec![
        QueryParam {
            key: ParamKey::FileId,
            value: QueryValue::UInt(12),
        },
        QueryParam {
            key: ParamKey::ToFolderId,
            value: QueryValue::UInt(7),
        },
        QueryParam {
            key: ParamKey::Mtime,
            value: QueryValue::Int(100),
        },
        QueryParam {
            key: ParamKey::Ctime,
            value: QueryValue::Int(50),
        },
        QueryParam {
            key: ParamKey::ToName,
            value: QueryValue::Text(String::from("copy.txt")),
        },
        QueryParam {
            key: ParamKey::RevisionId,
            value: QueryValue::UInt(2),
        },
        QueryParam {
            key: ParamKey::NoOver,
            value: QueryValue::Flag,
        },
        QueryParam {
            key: ParamKey::Auth,
            value: QueryValue::Text(String::from("tok")),
        },
    ];
    assert_eq!(plan.params, expected);
}

#[test]
fn move_builder_revision_once() {
    let c = client();
    let source = PCloudFile::from_path("/a.txt");
    let target = PCloudFolder::from_folder_id(1);
    let plan = MoveFileRequestBuilder::move_file(&c, &source, &target)
        .unwrap()
        .with_revision(7)
        .with_new_name("b.txt")
        .build();
    assert_eq!(plan.operation, ApiOperation::RenameFile);
    assert_eq!(count_key(&plan, ParamKey::RevisionId), 1);
    assert_eq!(
        value_of(&plan, ParamKey::Path),
        Some(&QueryValue::Text(String::from("/a.txt")))
    );
    assert_eq!(
        value_of(&plan, ParamKey::ToName),
        Some(&QueryValue::Text(String::from("b.txt")))
    );
}

#[test]
fn checksum_stat_download_builders_carry_revision_once() {
    let c = client();
    let file = PCloudFile::from_file_id(4);

    let plan = ChecksumFileRequestBuilder::for_file(&c, &file)
        .unwrap()
        .with_revision(7)
        .build();
    assert_eq!(plan.operation, ApiOperation::ChecksumFile);
    assert_eq!(count_key(&plan, ParamKey::RevisionId), 1);

    let plan = FileStatRequestBuilder::for_file(&c, &file)
        .unwrap()
        .with_revision(7)
        .build();
    assert_eq!(plan.operation, ApiOperation::Stat);
    assert_eq!(count_key(&plan, ParamKey::RevisionId), 1);

    let plan = FileDownloadRequestBuilder::for_file(&c, &file)
        .unwrap()
        .with_revision(7)
        .build();
    assert_eq!(plan.operation, ApiOperation::GetFileLink);
    assert_eq!(count_key(&plan, ParamKey::RevisionId), 1);
}

#[test]
fn upload_with_no_files_short_circuits() {
    let c = client();
    let folder = PCloudFolder::from_folder_id(0);
    let outcome = UploadRequestBuilder::into_folder(&c, &folder)
        .unwrap()
        .build();
    match outcome {
        UploadOutcome::Synthetic(u) => {
            assert_eq!(u.result, PCloudResult::Success);
            assert!(u.fileids.is_empty());
            assert!(u.metadata.is_empty());
        }
        UploadOutcome::Perform { .. } => panic!("empty upload planned a network request"),
    }
}

#[test]
fn upload_with_files_plans_multipart_request() {
    let c = client();
    let folder = PCloudFolder::from_folder_id(0);
    let outcome = UploadRequestBuilder::into_folder(&c, &folder)
        .unwrap()
        .rename_if_exists(true)
        .with_file(String::from("a.txt"))
        .with_file(String::from("b.txt"))
        .build();
    match outcome {
        UploadOutcome::Synthetic(_) => panic!("upload with parts short-circuited"),
        UploadOutcome::Perform { plan, parts } => {
            assert_eq!(plan.operation, ApiOperation::UploadFile);
            assert_eq!(plan.method, HttpMethod::Post);
            assert_eq!(parts, vec![String::from("a.txt"), String::from("b.txt")]);
            assert_eq!(count_key(&plan, ParamKey::NoPartial), 1);
            assert_eq!(count_key(&plan, ParamKey::RenameIfExists), 1);
            assert_eq!(
                value_of(&plan, ParamKey::FolderId),
                Some(&QueryValue::UInt(0))
            );
        }
    }
}

#[test]
fn public_link_builder_formats_expiry() {
    let c = client();
    let file = PCloudFile::from_file_id(4);
    let plan = PublicFileLinkRequestBuilder::for_file(&c, &file)
        .unwrap()
        .expire_link_after(0)
        .with_max_downloads(10)
        .with_shortlink(true)
        .with_password("secret")
        .build();
    assert_eq!(plan.operation, ApiOperation::GetFilePubLink);
    assert_eq!(
        value_of(&plan, ParamKey::Expire),
        Some(&QueryValue::Text(String::from(
            "Thu, 01 Jan 1970 00:00:00 +0000"
        )))
    );
    assert_eq!(
        value_of(&plan, ParamKey::MaxDownloads),
        Some(&QueryValue::UInt(10))
    );
    assert_eq!(count_key(&plan, ParamKey::ShortLink), 1);
    assert_eq!(
        value_of(&plan, ParamKey::LinkPassword),
        Some(&QueryValue::Text(String::from("secret")))
    );
}

#[test]
fn public_download_builder_carries_code() {
    let c = client();
    let plan = PublicFileDownloadRequestBuilder::for_file_in_public_folder(&c, "abc", 5).build();
    assert_eq!(plan.operation, ApiOperation::GetPubLinkDownload);
    assert_eq!(
        value_of(&plan, ParamKey::Code),
        Some(&QueryValue::Text(String::from("abc")))
    );
    assert_eq!(value_of(&plan, ParamKey::FileId), Some(&QueryValue::UInt(5)));
}

#[test]
fn list_folder_flags_serialized_only_when_set() {
    let c = client();
    let folder = PCloudFolder::from_folder_id(0);
    let plan = ListFolderRequestBuilder::for_folder(&c, &folder)
        .unwrap()
        .recursive(true)
        .nofiles(true)
        .build();
    assert_eq!(plan.operation, ApiOperation::ListFolder);
    assert_eq!(count_key(&plan, ParamKey::Recursive), 1);
    assert_eq!(count_key(&plan, ParamKey::NoFiles), 1);
    assert_eq!(count_key(&plan, ParamKey::ShowDeleted), 0);
    assert_eq!(count_key(&plan, ParamKey::NoShares), 0);
}

#[test]
fn create_folder_operation_depends_on_collision_mode() {
    let c = client();
    let parent = PCloudFolder::from_folder_id(0);
    let plan = CreateFolderRequestBuilder::for_folder(&c, &parent, "new")
        .unwrap()
        .build();
    assert_eq!(plan.operation, ApiOperation::CreateFolderIfNotExists);

    let plan = CreateFolderRequestBuilder::for_folder(&c, &parent, "new")
        .unwrap()
        .if_not_exists(false)
        .build();
    assert_eq!(plan.operation, ApiOperation::CreateFolder);
    assert_eq!(
        value_of(&plan, ParamKey::Name),
        Some(&QueryValue::Text(String::from("new")))
    );
}

#[test]
fn delete_folder_two_request_shapes() {
    let c = client();
    let folder = PCloudFolder::from_folder_id(4);
    let plan = DeleteFolderRequestBuilder::for_folder(&c, &folder)
        .unwrap()
        .build_recursive();
    assert_eq!(plan.operation, ApiOperation::DeleteFolderRecursive);

    let plan = DeleteFolderRequestBuilder::for_folder(&c, &folder)
        .unwrap()
        .build_if_empty();
    assert_eq!(plan.operation, ApiOperation::DeleteFolder);
    assert_eq!(value_of(&plan, ParamKey::FolderId), Some(&QueryValue::UInt(4)));
}

#[test]
fn copy_folder_defaults_send_no_flags() {
    let c = client();
    let a = PCloudFolder::from_folder_id(1);
    let b = PCloudFolder::from_folder_id(2);
    let plan = CopyFolderRequestBuilder::copy_folder(&c, &a, &b)
        .unwrap()
        .build();
    assert_eq!(plan.operation, ApiOperation::CopyFolder);
    // Defaults: overwrite=true, skipexisting=false, copycontentonly=false,
    // so no flag parameter is sent.
    assert_eq!(count_key(&plan, ParamKey::NoOver), 0);
    assert_eq!(count_key(&plan, ParamKey::SkipExisting), 0);
    assert_eq!(count_key(&plan, ParamKey::CopyContentOnly), 0);
}

#[test]
fn copy_folder_flags_sent_exactly_when_configured() {
    let c = client();
    let a = PCloudFolder::from_folder_id(1);
    let b = PCloudFolder::from_folder_id(2);
    let plan = CopyFolderRequestBuilder::copy_folder(&c, &a, &b)
        .unwrap()
        .overwrite(false)
        .skipexisting(true)
        .copycontentonly(true)
        .build();
    assert_eq!(count_key(&plan, ParamKey::NoOver), 1);
    assert_eq!(count_key(&plan, ParamKey::SkipExisting), 1);
    assert_eq!(count_key(&plan, ParamKey::CopyContentOnly), 1);
}

#[test]
fn diff_builder_serializes_configured_fields() {
    let c = client();
    let plan = DiffRequestBuilder::create(&c)
        .after_diff_id(100)
        .only_last(5)
        .block(true)
        .limit(50)
        .build();
    assert_eq!(plan.operation, ApiOperation::Diff);
    assert_eq!(value_of(&plan, ParamKey::DiffId), Some(&QueryValue::UInt(100)));
    assert_eq!(value_of(&plan, ParamKey::Last), Some(&QueryValue::UInt(5)));
    assert_eq!(value_of(&plan, ParamKey::Limit), Some(&QueryValue::UInt(50)));
    assert_eq!(count_key(&plan, ParamKey::Block), 1);
}

#[test]
fn tree_appends_only_non_empty_lists() {
    let tree = Tree::create()
        .with_content_of_folder(9)
        .with_file(1)
        .with_file(2)
        .without_folder(3);
    let plan = RequestPlan::new(HttpMethod::Get, ApiOperation::Stat);
    let plan = tree.add_to_request(plan);
    assert_eq!(value_of(&plan, ParamKey::FolderId), Some(&QueryValue::UInt(9)));
    assert_eq!(
        value_of(&plan, ParamKey::FileIds),
        Some(&QueryValue::UIntList(vec![1, 2]))
    );
    assert_eq!(
        value_of(&plan, ParamKey::ExcludeFolderIds),
        Some(&QueryValue::UIntList(vec![3]))
    );
    assert_eq!(count_key(&plan, ParamKey::FolderIds), 0);
    assert_eq!(count_key(&plan, ParamKey::ExcludeFileIds), 0);
}

#[test]
fn client_methods_delegate_to_builders() {
    let c = client();
    let file = PCloudFile::from_file_id(4);
    let folder = PCloudFolder::from_folder_id(7);
    assert!(c.copy_file(&file, &folder).is_ok());
    assert!(c.move_file(&file, &folder).is_ok());
    assert!(c.checksum_file(&file).is_ok());
    assert!(c.get_public_link_for_file(&file).is_ok());
    assert!(c.get_download_link_for_file(&file).is_ok());
    assert!(c.delete_file(&file).is_ok());
    assert!(c.get_file_metadata(&file).is_ok());
    assert!(c.list_file_revisions(&file).is_ok());
    assert!(c.upload_file_into_folder(&folder).is_ok());
    assert!(c.list_folder(&folder).is_ok());
    assert!(c.create_folder(&folder, "x").is_ok());
    assert!(c.delete_folder(&folder).is_ok());
    assert!(c.copy_folder(&folder, &folder).is_ok());
    assert!(c.move_folder(&folder, &folder).is_ok());
    let user_plan = c.get_user_info();
    assert_eq!(user_plan.operation, ApiOperation::UserInfo);
}

#[test]
fn tree_with_and_without_dispatch_on_metadata_kind() {
    let folder_meta = pcloud::pcloud_model::Metadata {
        parentfolderid: Some(0),
        isfolder: true,
        ismine: true,
        isshared: false,
        name: String::from("d"),
        id: String::from("d8"),
        folderid: Some(8),
        fileid: None,
        created: 0,
        modified: 0,
        icon: None,
        category: None,
        thumb: false,
        size: None,
        contenttype: None,
        hash: None,
        contents: Vec::new(),
        isdeleted: None,
        path: None,
    };
    let file_meta = pcloud::pcloud_model::Metadata {
        isfolder: false,
        fileid: Some(21),
        folderid: None,
        name: String::from("f"),
        id: String::from("f21"),
        ..folder_meta_clone(&folder_meta)
    };

    let tree = Tree::create()
        .with(&folder_meta)
        .unwrap()
        .with(&file_meta)
        .unwrap()
        .without(&file_meta)
        .unwrap();
    assert_eq!(tree.folder_ids, vec![8]);
    assert_eq!(tree.file_ids, vec![21]);
    assert_eq!(tree.exclude_file_ids, vec![21]);

    let no_id = pcloud::pcloud_model::Metadata {
        isfolder: true,
        folderid: None,
        ..folder_meta_clone(&folder_meta)
    };
    let r = Tree::create().with(&no_id);
    assert_eq!(r.unwrap_err(), PCloudResult::NoFileIdOrPathProvided);
}

fn folder_meta_clone(m: &pcloud::pcloud_model::Metadata) -> pcloud::pcloud_model::Metadata {
    pcloud::pcloud_model::Metadata {
        parentfolderid: m.parentfolderid,
        isfolder: m.isfolder,
        ismine: m.ismine,
        isshared: m.isshared,
        name: m.name.clone(),
        id: m.id.clone(),
        folderid: m.folderid,
        fileid: m.fileid,
        created: m.created,
        modified: m.modified,
        icon: m.icon,
        category: m.category,
        thumb: m.thumb,
        size: m.size,
        contenttype: m.contenttype.clone(),
        hash: m.hash,
        contents: Vec::new(),
        isdeleted: m.isdeleted,
        path: m.path.clone(),
    }
}
