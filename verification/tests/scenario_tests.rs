use pcloud::file_ops::{PCloudFile, UploadOutcome, UploadRequestBuilder};
use pcloud::folder_ops::{
    folder_id_from_stat, folder_stat_request, resolve_folder_step, FolderResolution,
    ListFolderRequestBuilder, PCloudFolder,
};
use pcloud::pcloud_client::PCloudClient;
use pcloud::pcloud_model::{FileOrFolderStat, Metadata, PCloudResult, WithPCloudResult};
use pcloud::request::{ApiOperation, ParamKey, QueryValue};

fn client() -> PCloudClient {
    PCloudClient::new(
        String::from("https://eapi.pcloud.com"),
        Some(String::from("tok")),
    )
}

fn folder_metadata(folderid: u64) -> Metadata {
    Metadata {
        parentfolderid: Some(0),
        isfolder: true,
        ismine: true,
        isshared: false,
        name: String::from("Photos"),
        id: format!("d{}", folderid),
        folderid: Some(folderid),
        fileid: None,
        created: 1_600_000_000,
        modified: 1_600_000_000,
        icon: None,
        category: None,
        thumb: false,
        size: None,
        contenttype: None,
        hash: None,
        contents: Vec::new(),
        isdeleted: None,
        path: Some(String::from("/Photos")),
    }
}

#[test]
fn folder_path_resolution_issues_one_stat_and_pins_the_id() {
    let c = client();
    let mut stat_requests = 0;

    // The caller addresses the folder by path, with no id.
    let descriptor = PCloudFolder::try_from_path("/Photos").unwrap();
    assert_eq!(descriptor.folder_id, None);

    // Local step: the path alone demands exactly one stat round trip.
    let folder_id = match resolve_folder_step(descriptor).unwrap() {
        FolderResolution::Resolved { folder_id } => folder_id,
        FolderResolution::NeedsStat { path } => {
            let plan = folder_stat_request(&c, path);
            stat_requests += 1;
            assert_eq!(plan.operation, ApiOperation::Stat);
            assert_eq!(
                plan.params[0].value,
                QueryValue::Text(String::from("/Photos"))
            );
            // The service answers with the folder's metadata.
            let response = FileOrFolderStat {
                result: PCloudResult::Success,
                metadata: Some(folder_metadata(9)),
            };
            let response = response.assert_ok().unwrap();
            folder_id_from_stat(&response).unwrap()
        }
    };
    assert_eq!(stat_requests, 1);
    assert_eq!(folder_id, 9);

    // Every later operation against the resolved descriptor uses the numeric
    // id, not the path.
    let resolved = PCloudFolder::from_folder_id(folder_id);
    let plan = ListFolderRequestBuilder::for_folder(&c, &resolved)
        .unwrap()
        .build();
    assert_eq!(
        plan.params.iter().find(|p| p.key == ParamKey::FolderId),
        Some(&pcloud::request::QueryParam {
            key: ParamKey::FolderId,
            value: QueryValue::UInt(9)
        })
    );
    assert!(plan.params.iter().all(|p| p.key != ParamKey::Path));
}

#[test]
fn upload_with_zero_files_is_synthetic_success_without_network() {
    let c = client();
    let folder = PCloudFolder::try_from_path("/").unwrap();
    let mut network_requests = 0;
    let result = match UploadRequestBuilder::into_folder(&c, &folder).unwrap().build() {
        UploadOutcome::Synthetic(u) => u,
        UploadOutcome::Perform { .. } => {
            network_requests += 1;
            panic!("upload of nothing planned a request");
        }
    };
    assert_eq!(network_requests, 0);
    assert_eq!(result.result, PCloudResult::Success);
    assert!(result.fileids.is_empty());
    assert!(result.metadata.is_empty());
    // The synthetic response passes the result normaliser like a real one.
    let normalized = result.assert_ok().unwrap();
    assert!(normalized.fileids.is_empty());
}

#[test]
fn copy_builder_with_empty_source_fails_before_any_request() {
    let c = client();
    let empty_source = PCloudFile {
        file_id: None,
        path: None,
        revision: None,
    };
    let valid_target = PCloudFolder::from_folder_id(3);
    let r = c.copy_file(&empty_source, &valid_target);
    assert_eq!(r.unwrap_err(), PCloudResult::NoFileIdOrPathProvided);
}
