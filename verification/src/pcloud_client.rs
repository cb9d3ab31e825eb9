//! The client handle, the session lifecycle, and endpoint selection.
//!
//! A [`PCloudClient`] pins the chosen API host and carries the session token
//! (if any) that every planned request attaches as its `auth` parameter.  The
//! [`SessionLifecycle`] state machine decides when the shared session token
//! must be revoked: exactly once, when the last handle is released.

use crate::pcloud_model::{ApiServers, LogoutResponse, PCloudResult, UserInfo};
use crate::request::{ApiOperation, HttpMethod, ParamKey, RequestPlan};
use vstd::prelude::*;
use vstd::string::StringExecFns;

verus! {

/// A handle on the pCloud API: the pinned API host and the session token
/// shared by all clones of the handle.
///
/// In stateless (caller-supplied bearer credential) mode `session_token` is
/// `None`: the credential travels as a default header attached by the
/// transport, and there is no session to revoke.
#[derive(Debug)]
pub struct PCloudClient {
    /// Host all requests are sent to, e.g. `https://api.pcloud.com`.
    pub api_host: String,
    /// Token of the shared login session, absent in stateless mode.
    pub session_token: Option<String>,
}

impl Clone for PCloudClient {
    /// Cloning a client shares the same endpoint and session token and never
    /// re-authenticates.
    fn clone(&self) -> (res: Self)
        ensures
            res == *self,
    {
        PCloudClient {
            api_host: self.api_host.clone(),
            session_token: crate::request::clone_opt_string(&self.session_token),
        }
    }
}

impl PCloudClient {
    /// Creates a client pinned to `api_host`, carrying `session_token` when a
    /// login session exists.
    pub fn new(api_host: String, session_token: Option<String>) -> (r: PCloudClient)
        ensures
            r == (PCloudClient { api_host, session_token }),
    {
        PCloudClient { api_host, session_token }
    }
}

/// Picks the API host to pin: the first discovered rest endpoint, as an
/// `https://` URL, when discovery succeeded and returned at least one
/// candidate; the supplied default host otherwise (including on transport
/// failure, passed as `None`).
pub fn get_best_api_server(default_host: &str, discovery: Option<&ApiServers>) -> (r: String)
    ensures
        (match discovery {
            Option::Some(d) => {
                if d.result == PCloudResult::Success && d.api@.len() > 0 {
                    r@ == "https://"@ + d.api@[0]@
                } else {
                    r@ == default_host@
                }
            },
            Option::None => r@ == default_host@,
        }),
{
    match discovery {
        Some(d) => {
            if d.result == PCloudResult::Success && d.api.len() > 0 {
                let mut url = String::from_str("https://");
                url.append(d.api[0].as_str());
                url
            } else {
                default_host.to_owned()
            }
        },
        None => default_host.to_owned(),
    }
}

/// Builds the endpoint-discovery request, with the session token attached
/// when one exists.
pub fn get_api_server_request(auth: Option<String>) -> (r: RequestPlan)
    ensures
        r.method == HttpMethod::Get,
        r.operation == ApiOperation::GetApiServer,
        r.params@ == crate::request::opt_push_text(
            Seq::<crate::request::QueryParam>::empty(),
            ParamKey::Auth,
            auth,
        ),
{
    let mut plan = RequestPlan::new(HttpMethod::Get, ApiOperation::GetApiServer);
    plan.add_opt_text(ParamKey::Auth, auth);
    plan
}

/// Builds the credential-exchange (login) request: the user-info operation
/// asked to return an auth token.
pub fn login_request(username: String, password: String) -> (r: RequestPlan)
    ensures
        r.method == HttpMethod::Get,
        r.operation == ApiOperation::UserInfo,
        r.params@ == Seq::<crate::request::QueryParam>::empty().push(
            crate::request::QueryParam {
                key: ParamKey::GetAuth,
                value: crate::request::QueryValue::Flag,
            },
        ).push(
            crate::request::QueryParam {
                key: ParamKey::Username,
                value: crate::request::QueryValue::Text(username),
            },
        ).push(
            crate::request::QueryParam {
                key: ParamKey::Password,
                value: crate::request::QueryValue::Text(password),
            },
        ),
{
    let mut plan = RequestPlan::new(HttpMethod::Get, ApiOperation::UserInfo);
    plan.add_flag(ParamKey::GetAuth);
    plan.add_text(ParamKey::Username, username);
    plan.add_text(ParamKey::Password, password);
    plan
}

/// Extracts the session token from a decoded login response.
///
/// Succeeds exactly when the response is successful and carries a token;
/// every other response is an authentication failure.
pub fn login_token_from_userinfo(userinfo: UserInfo) -> (r: Result<String, PCloudResult>)
    ensures
        userinfo.result == PCloudResult::Success && userinfo.auth is Some ==> r == Result::<
            String,
            PCloudResult,
        >::Ok(userinfo.auth->0),
        !(userinfo.result == PCloudResult::Success && userinfo.auth is Some) ==> r == Result::<
            String,
            PCloudResult,
        >::Err(PCloudResult::AccessDenied),
{
    if userinfo.result == PCloudResult::Success {
        match userinfo.auth {
            Some(token) => Ok(token),
            None => Err(PCloudResult::AccessDenied),
        }
    } else {
        Err(PCloudResult::AccessDenied)
    }
}

/// Builds the session-revocation request for `token`.
pub fn logout_request(token: String) -> (r: RequestPlan)
    ensures
        r.method == HttpMethod::Get,
        r.operation == ApiOperation::Logout,
        r.params@ == Seq::<crate::request::QueryParam>::empty().push(
            crate::request::QueryParam {
                key: ParamKey::Auth,
                value: crate::request::QueryValue::Text(token),
            },
        ),
{
    let mut plan = RequestPlan::new(HttpMethod::Get, ApiOperation::Logout);
    plan.add_text(ParamKey::Auth, token);
    plan
}

/// Whether a decoded revocation response reports that the token was deleted.
pub fn logout_succeeded(response: &LogoutResponse) -> (r: bool)
    ensures
        r == (response.result == PCloudResult::Success && response.auth_deleted == Some(true)),
{
    response.result == PCloudResult::Success && match response.auth_deleted {
        Some(b) => b,
        None => false,
    }
}

/// States of the session lifecycle.
///
/// `Stateless` is the disjoint terminal state of a client built from a
/// caller-supplied bearer credential: no session exists and nothing is ever
/// revoked.  The other states form the chain `Unauthenticated →
/// Authenticating → Active → Revoking → Revoked`.
#[derive(Debug)]
pub enum SessionState {
    /// No credential exchange has happened yet.
    Unauthenticated,
    /// A login request is in flight.
    Authenticating,
    /// A session token is held, shared by `refs` client handles.
    Active { token: String, api_host: String, refs: u64 },
    /// The last handle was released; the revoke request is in flight.
    Revoking { token: String, api_host: String },
    /// The session is over, whether or not the revoke request succeeded.
    Revoked,
    /// A caller-supplied bearer credential is used; there is no session.
    Stateless,
}

/// What the releasing caller must do after dropping its reference: nothing,
/// or synchronously issue the one revoke request for the session.
#[derive(Debug)]
pub enum ReleaseAction {
    /// Other references remain, or there is no session: nothing to do.
    NoAction,
    /// The last reference is gone: send the revoke request for this token to
    /// this host, then report the outcome with
    /// [`SessionLifecycle::finish_revoke`].
    Revoke { token: String, api_host: String },
}

/// How releasing one reference changes the state, and whether it fires the
/// revoke request (1) or not (0).  Only the last reference of an `Active`
/// session fires it; every other state is left unchanged.
pub open spec fn release_transition(s: SessionState) -> (SessionState, nat) {
    match s {
        SessionState::Active { token, api_host, refs } => {
            if refs <= 1 {
                (SessionState::Revoking { token, api_host }, 1nat)
            } else {
                (SessionState::Active { token, api_host, refs: (refs - 1) as u64 }, 0nat)
            }
        },
        _ => (s, 0nat),
    }
}

/// How many revoke requests `k` successive releases fire from state `s`.
pub open spec fn revokes_after_releases(s: SessionState, k: nat) -> nat
    decreases k,
{
    if k == 0 {
        0
    } else {
        release_transition(s).1 + revokes_after_releases(release_transition(s).0, (k - 1) as nat)
    }
}

/// Releasing all `n` references of an `Active` session shared by `n` handles
/// fires the revoke request exactly once — on the last release, regardless of
/// how many references existed.
pub proof fn lemma_release_revokes_exactly_once(token: String, api_host: String, n: u64)
    requires
        1 <= n,
    ensures
        revokes_after_releases(SessionState::Active { token, api_host, refs: n }, n as nat) == 1,
    decreases n,
{
    if n == 1 {
        assert(revokes_after_releases(SessionState::Revoking { token, api_host }, 0nat) == 0);
    } else {
        lemma_release_revokes_exactly_once(token, api_host, (n - 1) as u64);
    }
}

/// A stateless client has no session: no number of releases ever fires a
/// revoke request.
pub proof fn lemma_stateless_never_revokes(k: nat)
    ensures
        revokes_after_releases(SessionState::Stateless, k) == 0,
    decreases k,
{
    if k > 0 {
        lemma_stateless_never_revokes((k - 1) as nat);
    }
}

/// The session lifecycle manager: owns the [`SessionState`] shared by all
/// clones of a client handle and decides when the token must be revoked.
///
/// The embedding application holds one manager per login session (behind its
/// shared-ownership primitive), counts a reference on every clone, and on
/// every release performs whatever [`SessionLifecycle::release`] returns —
/// blocking until the revoke request completes before dropping the last
/// handle.
#[derive(Debug)]
pub struct SessionLifecycle {
    /// Current state of the session.
    pub state: SessionState,
}

impl SessionLifecycle {
    /// A lifecycle that has not exchanged credentials yet.
    pub fn unauthenticated() -> (r: SessionLifecycle)
        ensures
            r.state == SessionState::Unauthenticated,
    {
        SessionLifecycle { state: SessionState::Unauthenticated }
    }

    /// The lifecycle of a client built from a caller-supplied bearer
    /// credential: no session exists and nothing is ever revoked.
    pub fn stateless() -> (r: SessionLifecycle)
        ensures
            r.state == SessionState::Stateless,
    {
        SessionLifecycle { state: SessionState::Stateless }
    }

    /// Marks the credential exchange as in flight.
    pub fn begin_login(&mut self)
        requires
            old(self).state is Unauthenticated,
        ensures
            final(self).state == SessionState::Authenticating,
    {
        self.state = SessionState::Authenticating;
    }

    /// Stores the token of a successful credential exchange; the session
    /// becomes `Active` with this caller holding the only reference.
    pub fn activate(&mut self, token: String, api_host: String)
        requires
            old(self).state is Unauthenticated || old(self).state is Authenticating,
        ensures
            final(self).state == (SessionState::Active { token, api_host, refs: 1u64 }),
    {
        self.state = SessionState::Active { token, api_host, refs: 1 };
    }

    /// Records a failed credential exchange: the state returns to
    /// `Unauthenticated` and the failure surfaces as `AccessDenied`.
    pub fn login_failed(&mut self) -> (e: PCloudResult)
        requires
            old(self).state is Authenticating,
        ensures
            final(self).state == SessionState::Unauthenticated,
            e == PCloudResult::AccessDenied,
    {
        self.state = SessionState::Unauthenticated;
        PCloudResult::AccessDenied
    }

    /// Records one more handle sharing the `Active` session; cloning never
    /// re-authenticates.
    pub fn add_ref(&mut self)
        requires
            old(self).state is Active,
            old(self).state->Active_refs < 0xffff_ffff_ffff_ffffu64,
        ensures
            final(self).state == (SessionState::Active {
                token: old(self).state->Active_token,
                api_host: old(self).state->Active_api_host,
                refs: (old(self).state->Active_refs + 1) as u64,
            }),
    {
        let mut taken = SessionState::Revoked;
        core::mem::swap(&mut self.state, &mut taken);
        match taken {
            SessionState::Active { token, api_host, refs } => {
                self.state = SessionState::Active { token, api_host, refs: refs + 1 };
            },
            _ => {
                proof {
                    assert(false);
                }
            },
        }
    }

    /// Releases one reference, exactly as [`release_transition`] describes:
    /// only the release of the last reference of an `Active` session yields a
    /// revoke action, and a `Stateless` lifecycle never yields one.
    pub fn release(&mut self) -> (a: ReleaseAction)
        requires
            old(self).state is Active || old(self).state is Stateless,
            old(self).state is Active ==> old(self).state->Active_refs >= 1,
        ensures
            final(self).state == release_transition(old(self).state).0,
            a is Revoke <==> release_transition(old(self).state).1 == 1,
            a is Revoke ==> old(self).state is Active && old(self).state->Active_refs == 1
                && a->Revoke_token == old(self).state->Active_token && a->Revoke_api_host == old(
                self,
            ).state->Active_api_host,
    {
        let mut taken = SessionState::Revoked;
        core::mem::swap(&mut self.state, &mut taken);
        match taken {
            SessionState::Active { token, api_host, refs } => {
                if refs <= 1 {
                    self.state = SessionState::Revoking {
                        token: token.clone(),
                        api_host: api_host.clone(),
                    };
                    ReleaseAction::Revoke { token, api_host }
                } else {
                    self.state = SessionState::Active { token, api_host, refs: refs - 1 };
                    ReleaseAction::NoAction
                }
            },
            other => {
                self.state = other;
                ReleaseAction::NoAction
            },
        }
    }

    /// Records the outcome of the revoke request.  The session becomes
    /// `Revoked` unconditionally: a failed revocation is reported nowhere,
    /// because no caller is left to report to.
    pub fn finish_revoke(&mut self, revoke_succeeded: bool)
        requires
            old(self).state is Revoking,
        ensures
            final(self).state == SessionState::Revoked,
    {
        let _ = revoke_succeeded;
        self.state = SessionState::Revoked;
    }
}

/// Lists changes to the user's files and folders.
#[derive(Debug)]
pub struct DiffRequestBuilder {
    /// Session token attached to the planned request.
    pub auth: Option<String>,
    /// Receive only changes after this diff id.
    pub diff_id: Option<u64>,
    /// Rendered time; receive only events generated after it.
    pub after: Option<String>,
    /// Return only the last so-many events.
    pub last: Option<u64>,
    /// Whether the connection blocks until an event arrives; works only
    /// together with a diff id.
    pub block: bool,
    /// Return no more than this many entries.
    pub limit: Option<u64>,
}

impl DiffRequestBuilder {
    /// Starts a diff listing.
    pub fn create(client: &PCloudClient) -> (r: DiffRequestBuilder)
        ensures
            r == (DiffRequestBuilder {
                auth: client.session_token,
                diff_id: None,
                after: None,
                last: None,
                block: false,
                limit: None,
            }),
    {
        DiffRequestBuilder {
            auth: crate::request::clone_opt_string(&client.session_token),
            diff_id: None,
            after: None,
            last: None,
            block: false,
            limit: None,
        }
    }

    /// Receive only changes after this diff id.  The last write wins.
    pub fn after_diff_id(self, value: u64) -> (r: DiffRequestBuilder)
        ensures
            r == (DiffRequestBuilder { diff_id: Some(value), ..self }),
    {
        DiffRequestBuilder { diff_id: Some(value), ..self }
    }

    /// Receive only events generated after this time, in unix seconds.  The
    /// last write wins.
    pub fn after(self, value: i64) -> (r: DiffRequestBuilder)
        requires
            crate::pcloud_model::pcloud_time_in_range(value),
        ensures
            r.after matches Some(t) && t@ == crate::pcloud_model::pcloud_time_of(value as int),
            r == (DiffRequestBuilder { after: r.after, ..self }),
    {
        DiffRequestBuilder {
            after: Some(crate::pcloud_model::format_date_time_for_pcloud(value)),
            ..self
        }
    }

    /// Return only the last so-many events, those with the highest diff ids.
    /// The last write wins.
    pub fn only_last(self, value: u64) -> (r: DiffRequestBuilder)
        ensures
            r == (DiffRequestBuilder { last: Some(value), ..self }),
    {
        DiffRequestBuilder { last: Some(value), ..self }
    }

    /// If set, the connection blocks until an event arrives; works only
    /// together with a diff id.
    pub fn block(self, value: bool) -> (r: DiffRequestBuilder)
        ensures
            r == (DiffRequestBuilder { block: value, ..self }),
    {
        DiffRequestBuilder { block: value, ..self }
    }

    /// Return no more than this many entries.  The last write wins.
    pub fn limit(self, value: u64) -> (r: DiffRequestBuilder)
        ensures
            r == (DiffRequestBuilder { limit: Some(value), ..self }),
    {
        DiffRequestBuilder { limit: Some(value), ..self }
    }

    /// The query parameters of the diff request.
    pub open spec fn params_spec(self) -> Seq<crate::request::QueryParam> {
        let s = Seq::<crate::request::QueryParam>::empty();
        let s = crate::request::opt_push_uint(s, ParamKey::DiffId, self.diff_id);
        let s = crate::request::opt_push_uint(s, ParamKey::Last, self.last);
        let s = crate::request::opt_push_uint(s, ParamKey::Limit, self.limit);
        let s = crate::request::push_flag_if(s, ParamKey::Block, self.block);
        let s = crate::request::opt_push_text(s, ParamKey::After, self.after);
        let s = crate::request::opt_push_text(s, ParamKey::Auth, self.auth);
        s
    }

    /// Plans the diff request.
    pub fn build(self) -> (r: RequestPlan)
        ensures
            r.method == HttpMethod::Get,
            r.operation == ApiOperation::Diff,
            r.params@ == self.params_spec(),
    {
        let DiffRequestBuilder { auth, diff_id, after, last, block, limit } = self;
        let mut plan = RequestPlan::new(HttpMethod::Get, ApiOperation::Diff);
        plan.add_opt_uint(ParamKey::DiffId, diff_id);
        plan.add_opt_uint(ParamKey::Last, last);
        plan.add_opt_uint(ParamKey::Limit, limit);
        plan.add_flag_if(ParamKey::Block, block);
        plan.add_opt_text(ParamKey::After, after);
        plan.add_opt_text(ParamKey::Auth, auth);
        plan
    }
}

impl PCloudClient {
    /// Builds the user-info request, with the session token attached when one
    /// exists.
    pub fn get_user_info(&self) -> (r: RequestPlan)
        ensures
            r.method == HttpMethod::Get,
            r.operation == ApiOperation::UserInfo,
            r.params@ == crate::request::opt_push_text(
                Seq::<crate::request::QueryParam>::empty(),
                ParamKey::Auth,
                self.session_token,
            ),
    {
        let mut plan = RequestPlan::new(HttpMethod::Get, ApiOperation::UserInfo);
        plan.add_opt_text(ParamKey::Auth, crate::request::clone_opt_string(&self.session_token));
        plan
    }

    /// Starts a diff listing of the user's folders and files.
    pub fn diff(&self) -> (r: DiffRequestBuilder)
        ensures
            r == (DiffRequestBuilder {
                auth: self.session_token,
                diff_id: None,
                after: None,
                last: None,
                block: false,
                limit: None,
            }),
    {
        DiffRequestBuilder::create(self)
    }

    /// Creates an empty tree for the operations that work on a set of objects.
    pub fn create_tree(&self) -> (r: crate::file_ops::Tree)
        ensures
            r.folder_id is None,
            r.folder_ids@ == Seq::<u64>::empty(),
            r.file_ids@ == Seq::<u64>::empty(),
            r.exclude_folder_ids@ == Seq::<u64>::empty(),
            r.exclude_file_ids@ == Seq::<u64>::empty(),
    {
        crate::file_ops::Tree::create()
    }

    /// Starts a copy of `source` into `target`; see
    /// [`crate::file_ops::CopyFileRequestBuilder::copy_file`].
    pub fn copy_file(&self, source: &crate::file_ops::PCloudFile, target: &crate::folder_ops::PCloudFolder) -> (r: Result<
        crate::file_ops::CopyFileRequestBuilder,
        PCloudResult,
    >)
        ensures
            r == crate::file_ops::copy_file_builder_spec(*self, *source, *target),
    {
        crate::file_ops::CopyFileRequestBuilder::copy_file(self, source, target)
    }

    /// Starts a move of `source` into `target`; see
    /// [`crate::file_ops::MoveFileRequestBuilder::move_file`].
    pub fn move_file(&self, source: &crate::file_ops::PCloudFile, target: &crate::folder_ops::PCloudFolder) -> (r: Result<
        crate::file_ops::MoveFileRequestBuilder,
        PCloudResult,
    >)
        ensures
            r == crate::file_ops::move_file_builder_spec(*self, *source, *target),
    {
        crate::file_ops::MoveFileRequestBuilder::move_file(self, source, target)
    }

    /// Starts a checksum request; see
    /// [`crate::file_ops::ChecksumFileRequestBuilder::for_file`].
    pub fn checksum_file(&self, file: &crate::file_ops::PCloudFile) -> (r: Result<
        crate::file_ops::ChecksumFileRequestBuilder,
        PCloudResult,
    >)
        ensures
            r == crate::file_ops::checksum_builder_spec(*self, *file),
    {
        crate::file_ops::ChecksumFileRequestBuilder::for_file(self, file)
    }

    /// Starts a public-link request; see
    /// [`crate::file_ops::PublicFileLinkRequestBuilder::for_file`].
    pub fn get_public_link_for_file(&self, file: &crate::file_ops::PCloudFile) -> (r: Result<
        crate::file_ops::PublicFileLinkRequestBuilder,
        PCloudResult,
    >)
        ensures
            r == crate::file_ops::public_link_builder_spec(*self, *file),
    {
        crate::file_ops::PublicFileLinkRequestBuilder::for_file(self, file)
    }

    /// Starts a download-link request; see
    /// [`crate::file_ops::FileDownloadRequestBuilder::for_file`].
    pub fn get_download_link_for_file(&self, file: &crate::file_ops::PCloudFile) -> (r: Result<
        crate::file_ops::FileDownloadRequestBuilder,
        PCloudResult,
    >)
        ensures
            r == crate::file_ops::file_download_builder_spec(*self, *file),
    {
        crate::file_ops::FileDownloadRequestBuilder::for_file(self, file)
    }

    /// Starts a delete for a file; see
    /// [`crate::file_ops::FileDeleteRequestBuilder::for_file`].
    pub fn delete_file(&self, file: &crate::file_ops::PCloudFile) -> (r: Result<
        crate::file_ops::FileDeleteRequestBuilder,
        PCloudResult,
    >)
        ensures
            r == crate::file_ops::file_delete_builder_spec(*self, *file),
    {
        crate::file_ops::FileDeleteRequestBuilder::for_file(self, file)
    }

    /// Starts a metadata fetch for a file; see
    /// [`crate::file_ops::FileStatRequestBuilder::for_file`].
    pub fn get_file_metadata(&self, file: &crate::file_ops::PCloudFile) -> (r: Result<
        crate::file_ops::FileStatRequestBuilder,
        PCloudResult,
    >)
        ensures
            r == crate::file_ops::file_stat_builder_spec(*self, *file),
    {
        crate::file_ops::FileStatRequestBuilder::for_file(self, file)
    }

    /// Starts a revision listing for a file; see
    /// [`crate::file_ops::ListRevisionsRequestBuilder::for_file`].
    pub fn list_file_revisions(&self, file: &crate::file_ops::PCloudFile) -> (r: Result<
        crate::file_ops::ListRevisionsRequestBuilder,
        PCloudResult,
    >)
        ensures
            r == crate::file_ops::list_revisions_builder_spec(*self, *file),
    {
        crate::file_ops::ListRevisionsRequestBuilder::for_file(self, file)
    }

    /// Starts an upload into a folder; see
    /// [`crate::file_ops::UploadRequestBuilder::into_folder`].
    pub fn upload_file_into_folder(&self, folder: &crate::folder_ops::PCloudFolder) -> (r: Result<
        crate::file_ops::UploadRequestBuilder,
        PCloudResult,
    >)
        ensures
            folder.is_empty_spec() ==> r == Result::<
                crate::file_ops::UploadRequestBuilder,
                PCloudResult,
            >::Err(PCloudResult::NoFileIdOrPathProvided),
            !folder.is_empty_spec() ==> (r matches Ok(b) && b.auth == self.session_token && b.path
                == folder.path && b.folder_id == folder.folder_id && b.no_partial == true
                && b.rename_if_exists == false && b.mtime is None && b.ctime is None && b.files@
                == Seq::<String>::empty()),
    {
        crate::file_ops::UploadRequestBuilder::into_folder(self, folder)
    }

    /// Starts a listing of a folder; see
    /// [`crate::folder_ops::ListFolderRequestBuilder::for_folder`].
    pub fn list_folder(&self, folder: &crate::folder_ops::PCloudFolder) -> (r: Result<
        crate::folder_ops::ListFolderRequestBuilder,
        PCloudResult,
    >)
        ensures
            r == crate::folder_ops::list_folder_builder_spec(*self, *folder),
    {
        crate::folder_ops::ListFolderRequestBuilder::for_folder(self, folder)
    }

    /// Starts a create-folder operation; see
    /// [`crate::folder_ops::CreateFolderRequestBuilder::for_folder`].
    pub fn create_folder(&self, parent: &crate::folder_ops::PCloudFolder, name: &str) -> (r:
        Result<crate::folder_ops::CreateFolderRequestBuilder, PCloudResult>)
        ensures
            parent.is_empty_spec() ==> r == Result::<
                crate::folder_ops::CreateFolderRequestBuilder,
                PCloudResult,
            >::Err(PCloudResult::NoFileIdOrPathProvided),
            !parent.is_empty_spec() ==> (r matches Ok(b) && b.auth == self.session_token && b.path
                == parent.path && b.folder_id == parent.folder_id && b.name@ == name@
                && b.if_not_exists == true),
    {
        crate::folder_ops::CreateFolderRequestBuilder::for_folder(self, parent, name)
    }

    /// Starts a delete for a folder; see
    /// [`crate::folder_ops::DeleteFolderRequestBuilder::for_folder`].
    pub fn delete_folder(&self, folder: &crate::folder_ops::PCloudFolder) -> (r: Result<
        crate::folder_ops::DeleteFolderRequestBuilder,
        PCloudResult,
    >)
        ensures
            r == crate::folder_ops::delete_folder_builder_spec(*self, *folder),
    {
        crate::folder_ops::DeleteFolderRequestBuilder::for_folder(self, folder)
    }

    /// Starts a copy of a folder; see
    /// [`crate::folder_ops::CopyFolderRequestBuilder::copy_folder`].
    pub fn copy_folder(&self, source: &crate::folder_ops::PCloudFolder, target: &crate::folder_ops::PCloudFolder) -> (r: Result<
        crate::folder_ops::CopyFolderRequestBuilder,
        PCloudResult,
    >)
        ensures
            r == crate::folder_ops::copy_folder_builder_spec(*self, *source, *target),
    {
        crate::folder_ops::CopyFolderRequestBuilder::copy_folder(self, source, target)
    }

    /// Starts a move of a folder; see
    /// [`crate::folder_ops::MoveFolderRequestBuilder::move_folder`].
    pub fn move_folder(&self, source: &crate::folder_ops::PCloudFolder, target: &crate::folder_ops::PCloudFolder) -> (r: Result<
        crate::folder_ops::MoveFolderRequestBuilder,
        PCloudResult,
    >)
        ensures
            r == crate::folder_ops::move_folder_builder_spec(*self, *source, *target),
    {
        crate::folder_ops::MoveFolderRequestBuilder::move_folder(self, source, target)
    }
}

} // verus!
