use vstd::prelude::*;

verus! {

/// Outcome and status codes shared across the provider contract.
///
/// The flat code space mixes HTTP-style statuses with domain codes for wire
/// stability; the list is append-only. On the wire a `State` travels as its
/// `u16` code, and a code that is not in the list decodes to `InternalError`.
#[derive(Clone, Copy, PartialEq, Eq, Structural, Debug, Hash)]
pub enum State {
    OK,
    Accepted,
    BadRequest,
    Unauthorized,
    NotFound,
    MethodNotAllowed,
    Conflict,
    InternalError,
    BadConfig,
    MissingConfig,
    InvalidArgument,
    APIRedirect,
    FileAccessError,
    SerializationError,
    DeserializeError,
    DeleteRequested,
    UpdateFailed,
    DeleteFailed,
    ValidateFailed,
    Updated,
    Deleted,
    Running,
    Paused,
    Done,
    Delayed,
    Untouched,
    NotImplemented,
    InitFailed,
    CreateActionConfigFailed,
    HelmActionFailed,
    GetComponentSpecFailed,
    CreateProjectorFailed,
    K8sRemoveServiceFailed,
    K8sRemoveDeploymentFailed,
    K8sDeploymentFailed,
    ReadYamlFailed,
    ApplyYamlFailed,
    ReadResourcePropertyFailed,
    ApplyResourceFailed,
    DeleteYamlFailed,
    DeleteResourceFailed,
    CheckResourceStatusFailed,
    ApplyScriptFailed,
    RemoveScriptFailed,
    YamlResourcePropertyNotFound,
    GetHelmPropertyFailed,
    HelmChartPullFailed,
    HelmChartLoadFailed,
    HelmChartApplyFailed,
    HelmChartUninstallFailed,
    IngressApplyFailed,
    HttpNewRequestFailed,
    HttpSendRequestFailed,
    HttpErrorResponse,
    MqttPublishFailed,
    MqttApplyFailed,
    MqttApplyTimeout,
    ConfigMapApplyFailed,
    HttpBadWaitStatusCode,
    HttpNewWaitRequestFailed,
    HttpSendWaitRequestFailed,
    HttpErrorWaitResponse,
    HttpBadWaitExpression,
    ScriptExecutionFailed,
    ScriptResultParsingFailed,
    WaitToGetInstancesFailed,
    WaitToGetSitesFailed,
    WaitToGetCatalogsFailed,
    InvalidWaitObjectType,
    CatalogsGetFailed,
    InvalidInstanceCatalog,
    CreateInstanceFromCatalogFailed,
    InvalidSolutionCatalog,
    CreateSolutionFromCatalogFailed,
    InvalidTargetCatalog,
    CreateTargetFromCatalogFailed,
    InvalidCatalogCatalog,
    CreateCatalogFromCatalogFailed,
    ParentObjectMissing,
    ParentObjectCreateFailed,
    MaterializeBatchFailed,
    DeleteInstanceFailed,
    CreateInstanceFailed,
    DeploymentNotReached,
    InvalidObjectType,
    UnsupportedAction,
    SolutionGetFailed,
    TargetCandidatesNotFound,
    TargetListGetFailed,
    ObjectInstanceConversionFailed,
    TimedOut,
    TargetPropertyNotFound,
}

/// The wire code of a state.
pub open spec fn spec_state_code(s: State) -> u16 {
    match s {
        State::OK => 200,
        State::Accepted => 202,
        State::BadRequest => 400,
        State::Unauthorized => 403,
        State::NotFound => 404,
        State::MethodNotAllowed => 405,
        State::Conflict => 409,
        State::InternalError => 500,
        State::BadConfig => 1000,
        State::MissingConfig => 1001,
        State::InvalidArgument => 2000,
        State::APIRedirect => 3030,
        State::FileAccessError => 4000,
        State::SerializationError => 5000,
        State::DeserializeError => 5001,
        State::DeleteRequested => 6000,
        State::UpdateFailed => 8001,
        State::DeleteFailed => 8002,
        State::ValidateFailed => 8003,
        State::Updated => 8004,
        State::Deleted => 8005,
        State::Running => 9994,
        State::Paused => 9995,
        State::Done => 9996,
        State::Delayed => 9997,
        State::Untouched => 9998,
        State::NotImplemented => 9999,
        State::InitFailed => 10000,
        State::CreateActionConfigFailed => 10001,
        State::HelmActionFailed => 10002,
        State::GetComponentSpecFailed => 10003,
        State::CreateProjectorFailed => 10004,
        State::K8sRemoveServiceFailed => 10005,
        State::K8sRemoveDeploymentFailed => 10006,
        State::K8sDeploymentFailed => 10007,
        State::ReadYamlFailed => 10008,
        State::ApplyYamlFailed => 10009,
        State::ReadResourcePropertyFailed => 10010,
        State::ApplyResourceFailed => 10011,
        State::DeleteYamlFailed => 10012,
        State::DeleteResourceFailed => 10013,
        State::CheckResourceStatusFailed => 10014,
        State::ApplyScriptFailed => 10015,
        State::RemoveScriptFailed => 10016,
        State::YamlResourcePropertyNotFound => 10017,
        State::GetHelmPropertyFailed => 10018,
        State::HelmChartPullFailed => 10019,
        State::HelmChartLoadFailed => 10020,
        State::HelmChartApplyFailed => 10021,
        State::HelmChartUninstallFailed => 10022,
        State::IngressApplyFailed => 10023,
        State::HttpNewRequestFailed => 10024,
        State::HttpSendRequestFailed => 10025,
        State::HttpErrorResponse => 10026,
        State::MqttPublishFailed => 10027,
        State::MqttApplyFailed => 10028,
        State::MqttApplyTimeout => 10029,
        State::ConfigMapApplyFailed => 10030,
        State::HttpBadWaitStatusCode => 10031,
        State::HttpNewWaitRequestFailed => 10032,
        State::HttpSendWaitRequestFailed => 10033,
        State::HttpErrorWaitResponse => 10034,
        State::HttpBadWaitExpression => 10035,
        State::ScriptExecutionFailed => 10036,
        State::ScriptResultParsingFailed => 10037,
        State::WaitToGetInstancesFailed => 10038,
        State::WaitToGetSitesFailed => 10039,
        State::WaitToGetCatalogsFailed => 10040,
        State::InvalidWaitObjectType => 10041,
        State::CatalogsGetFailed => 10042,
        State::InvalidInstanceCatalog => 10043,
        State::CreateInstanceFromCatalogFailed => 10044,
        State::InvalidSolutionCatalog => 10045,
        State::CreateSolutionFromCatalogFailed => 10046,
        State::InvalidTargetCatalog => 10047,
        State::CreateTargetFromCatalogFailed => 10048,
        State::InvalidCatalogCatalog => 10049,
        State::CreateCatalogFromCatalogFailed => 10050,
        State::ParentObjectMissing => 10051,
        State::ParentObjectCreateFailed => 10052,
        State::MaterializeBatchFailed => 10053,
        State::DeleteInstanceFailed => 10054,
        State::CreateInstanceFailed => 10055,
        State::DeploymentNotReached => 10056,
        State::InvalidObjectType => 10057,
        State::UnsupportedAction => 10058,
        State::SolutionGetFailed => 11000,
        State::TargetCandidatesNotFound => 11001,
        State::TargetListGetFailed => 11002,
        State::ObjectInstanceConversionFailed => 11003,
        State::TimedOut => 11004,
        State::TargetPropertyNotFound => 12000,
    }
}

/// The state a wire code decodes to: the state carrying that code, or
/// `InternalError` for a code outside the list.
pub open spec fn spec_state_of_code(code: u16) -> State {
    if code == 200 {
        State::OK
    } else     if code == 202 {
        State::Accepted
    } else     if code == 400 {
        State::BadRequest
    } else     if code == 403 {
        State::Unauthorized
    } else     if code == 404 {
        State::NotFound
    } else     if code == 405 {
        State::MethodNotAllowed
    } else     if code == 409 {
        State::Conflict
    } else     if code == 500 {
        State::InternalError
    } else     if code == 1000 {
        State::BadConfig
    } else     if code == 1001 {
        State::MissingConfig
    } else     if code == 2000 {
        State::InvalidArgument
    } else     if code == 3030 {
        State::APIRedirect
    } else     if code == 4000 {
        State::FileAccessError
    } else     if code == 5000 {
        State::SerializationError
    } else     if code == 5001 {
        State::DeserializeError
    } else     if code == 6000 {
        State::DeleteRequested
    } else     if code == 8001 {
        State::UpdateFailed
    } else     if code == 8002 {
        State::DeleteFailed
    } else     if code == 8003 {
        State::ValidateFailed
    } else     if code == 8004 {
        State::Updated
    } else     if code == 8005 {
        State::Deleted
    } else     if code == 9994 {
        State::Running
    } else     if code == 9995 {
        State::Paused
    } else     if code == 9996 {
        State::Done
    } else     if code == 9997 {
        State::Delayed
    } else     if code == 9998 {
        State::Untouched
    } else     if code == 9999 {
        State::NotImplemented
    } else     if code == 10000 {
        State::InitFailed
    } else     if code == 10001 {
        State::CreateActionConfigFailed
    } else     if code == 10002 {
        State::HelmActionFailed
    } else     if code == 10003 {
        State::GetComponentSpecFailed
    } else     if code == 10004 {
        State::CreateProjectorFailed
    } else     if code == 10005 {
        State::K8sRemoveServiceFailed
    } else     if code == 10006 {
        State::K8sRemoveDeploymentFailed
    } else     if code == 10007 {
        State::K8sDeploymentFailed
    } else     if code == 10008 {
        State::ReadYamlFailed
    } else     if code == 10009 {
        State::ApplyYamlFailed
    } else     if code == 10010 {
        State::ReadResourcePropertyFailed
    } else     if code == 10011 {
        State::ApplyResourceFailed
    } else     if code == 10012 {
        State::DeleteYamlFailed
    } else     if code == 10013 {
        State::DeleteResourceFailed
    } else     if code == 10014 {
        State::CheckResourceStatusFailed
    } else     if code == 10015 {
        State::ApplyScriptFailed
    } else     if code == 10016 {
        State::RemoveScriptFailed
    } else     if code == 10017 {
        State::YamlResourcePropertyNotFound
    } else     if code == 10018 {
        State::GetHelmPropertyFailed
    } else     if code == 10019 {
        State::HelmChartPullFailed
    } else     if code == 10020 {
        State::HelmChartLoadFailed
    } else     if code == 10021 {
        State::HelmChartApplyFailed
    } else     if code == 10022 {
        State::HelmChartUninstallFailed
    } else     if code == 10023 {
        State::IngressApplyFailed
    } else     if code == 10024 {
        State::HttpNewRequestFailed
    } else     if code == 10025 {
        State::HttpSendRequestFailed
    } else     if code == 10026 {
        State::HttpErrorResponse
    } else     if code == 10027 {
        State::MqttPublishFailed
    } else     if code == 10028 {
        State::MqttApplyFailed
    } else     if code == 10029 {
        State::MqttApplyTimeout
    } else     if code == 10030 {
        State::ConfigMapApplyFailed
    } else     if code == 10031 {
        State::HttpBadWaitStatusCode
    } else     if code == 10032 {
        State::HttpNewWaitRequestFailed
    } else     if code == 10033 {
        State::HttpSendWaitRequestFailed
    } else     if code == 10034 {
        State::HttpErrorWaitResponse
    } else     if code == 10035 {
        State::HttpBadWaitExpression
    } else     if code == 10036 {
        State::ScriptExecutionFailed
    } else     if code == 10037 {
        State::ScriptResultParsingFailed
    } else     if code == 10038 {
        State::WaitToGetInstancesFailed
    } else     if code == 10039 {
        State::WaitToGetSitesFailed
    } else     if code == 10040 {
        State::WaitToGetCatalogsFailed
    } else     if code == 10041 {
        State::InvalidWaitObjectType
    } else     if code == 10042 {
        State::CatalogsGetFailed
    } else     if code == 10043 {
        State::InvalidInstanceCatalog
    } else     if code == 10044 {
        State::CreateInstanceFromCatalogFailed
    } else     if code == 10045 {
        State::InvalidSolutionCatalog
    } else     if code == 10046 {
        State::CreateSolutionFromCatalogFailed
    } else     if code == 10047 {
        State::InvalidTargetCatalog
    } else     if code == 10048 {
        State::CreateTargetFromCatalogFailed
    } else     if code == 10049 {
        State::InvalidCatalogCatalog
    } else     if code == 10050 {
        State::CreateCatalogFromCatalogFailed
    } else     if code == 10051 {
        State::ParentObjectMissing
    } else     if code == 10052 {
        State::ParentObjectCreateFailed
    } else     if code == 10053 {
        State::MaterializeBatchFailed
    } else     if code == 10054 {
        State::DeleteInstanceFailed
    } else     if code == 10055 {
        State::CreateInstanceFailed
    } else     if code == 10056 {
        State::DeploymentNotReached
    } else     if code == 10057 {
        State::InvalidObjectType
    } else     if code == 10058 {
        State::UnsupportedAction
    } else     if code == 11000 {
        State::SolutionGetFailed
    } else     if code == 11001 {
        State::TargetCandidatesNotFound
    } else     if code == 11002 {
        State::TargetListGetFailed
    } else     if code == 11003 {
        State::ObjectInstanceConversionFailed
    } else     if code == 11004 {
        State::TimedOut
    } else     if code == 12000 {
        State::TargetPropertyNotFound
    } else {
        State::InternalError
    }
}

impl State {
    /// Encodes this state as its wire code.
    pub fn into_u16(self) -> (code: u16)
        ensures
            code == spec_state_code(self),
    {
        match self {
            State::OK => 200,
            State::Accepted => 202,
            State::BadRequest => 400,
            State::Unauthorized => 403,
            State::NotFound => 404,
            State::MethodNotAllowed => 405,
            State::Conflict => 409,
            State::InternalError => 500,
            State::BadConfig => 1000,
            State::MissingConfig => 1001,
            State::InvalidArgument => 2000,
            State::APIRedirect => 3030,
            State::FileAccessError => 4000,
            State::SerializationError => 5000,
            State::DeserializeError => 5001,
            State::DeleteRequested => 6000,
            State::UpdateFailed => 8001,
            State::DeleteFailed => 8002,
            State::ValidateFailed => 8003,
            State::Updated => 8004,
            State::Deleted => 8005,
            State::Running => 9994,
            State::Paused => 9995,
            State::Done => 9996,
            State::Delayed => 9997,
            State::Untouched => 9998,
            State::NotImplemented => 9999,
            State::InitFailed => 10000,
            State::CreateActionConfigFailed => 10001,
            State::HelmActionFailed => 10002,
            State::GetComponentSpecFailed => 10003,
            State::CreateProjectorFailed => 10004,
            State::K8sRemoveServiceFailed => 10005,
            State::K8sRemoveDeploymentFailed => 10006,
            State::K8sDeploymentFailed => 10007,
            State::ReadYamlFailed => 10008,
            State::ApplyYamlFailed => 10009,
            State::ReadResourcePropertyFailed => 10010,
            State::ApplyResourceFailed => 10011,
            State::DeleteYamlFailed => 10012,
            State::DeleteResourceFailed => 10013,
            State::CheckResourceStatusFailed => 10014,
            State::ApplyScriptFailed => 10015,
            State::RemoveScriptFailed => 10016,
            State::YamlResourcePropertyNotFound => 10017,
            State::GetHelmPropertyFailed => 10018,
            State::HelmChartPullFailed => 10019,
            State::HelmChartLoadFailed => 10020,
            State::HelmChartApplyFailed => 10021,
            State::HelmChartUninstallFailed => 10022,
            State::IngressApplyFailed => 10023,
            State::HttpNewRequestFailed => 10024,
            State::HttpSendRequestFailed => 10025,
            State::HttpErrorResponse => 10026,
            State::MqttPublishFailed => 10027,
            State::MqttApplyFailed => 10028,
            State::MqttApplyTimeout => 10029,
            State::ConfigMapApplyFailed => 10030,
            State::HttpBadWaitStatusCode => 10031,
            State::HttpNewWaitRequestFailed => 10032,
            State::HttpSendWaitRequestFailed => 10033,
            State::HttpErrorWaitResponse => 10034,
            State::HttpBadWaitExpression => 10035,
            State::ScriptExecutionFailed => 10036,
            State::ScriptResultParsingFailed => 10037,
            State::WaitToGetInstancesFailed => 10038,
            State::WaitToGetSitesFailed => 10039,
            State::WaitToGetCatalogsFailed => 10040,
            State::InvalidWaitObjectType => 10041,
            State::CatalogsGetFailed => 10042,
            State::InvalidInstanceCatalog => 10043,
            State::CreateInstanceFromCatalogFailed => 10044,
            State::InvalidSolutionCatalog => 10045,
            State::CreateSolutionFromCatalogFailed => 10046,
            State::InvalidTargetCatalog => 10047,
            State::CreateTargetFromCatalogFailed => 10048,
            State::InvalidCatalogCatalog => 10049,
            State::CreateCatalogFromCatalogFailed => 10050,
            State::ParentObjectMissing => 10051,
            State::ParentObjectCreateFailed => 10052,
            State::MaterializeBatchFailed => 10053,
            State::DeleteInstanceFailed => 10054,
            State::CreateInstanceFailed => 10055,
            State::DeploymentNotReached => 10056,
            State::InvalidObjectType => 10057,
            State::UnsupportedAction => 10058,
            State::SolutionGetFailed => 11000,
            State::TargetCandidatesNotFound => 11001,
            State::TargetListGetFailed => 11002,
            State::ObjectInstanceConversionFailed => 11003,
            State::TimedOut => 11004,
            State::TargetPropertyNotFound => 12000,
        }
    }

    /// Decodes a wire code; unknown codes degrade to `InternalError`.
    pub fn from_u16(code: u16) -> (s: State)
        ensures
            s == spec_state_of_code(code),
    {
        match code {
            200 => State::OK,
            202 => State::Accepted,
            400 => State::BadRequest,
            403 => State::Unauthorized,
            404 => State::NotFound,
            405 => State::MethodNotAllowed,
            409 => State::Conflict,
            500 => State::InternalError,
            1000 => State::BadConfig,
            1001 => State::MissingConfig,
            2000 => State::InvalidArgument,
            3030 => State::APIRedirect,
            4000 => State::FileAccessError,
            5000 => State::SerializationError,
            5001 => State::DeserializeError,
            6000 => State::DeleteRequested,
            8001 => State::UpdateFailed,
            8002 => State::DeleteFailed,
            8003 => State::ValidateFailed,
            8004 => State::Updated,
            8005 => State::Deleted,
            9994 => State::Running,
            9995 => State::Paused,
            9996 => State::Done,
            9997 => State::Delayed,
            9998 => State::Untouched,
            9999 => State::NotImplemented,
            10000 => State::InitFailed,
            10001 => State::CreateActionConfigFailed,
            10002 => State::HelmActionFailed,
            10003 => State::GetComponentSpecFailed,
            10004 => State::CreateProjectorFailed,
            10005 => State::K8sRemoveServiceFailed,
            10006 => State::K8sRemoveDeploymentFailed,
            10007 => State::K8sDeploymentFailed,
            10008 => State::ReadYamlFailed,
            10009 => State::ApplyYamlFailed,
            10010 => State::ReadResourcePropertyFailed,
            10011 => State::ApplyResourceFailed,
            10012 => State::DeleteYamlFailed,
            10013 => State::DeleteResourceFailed,
            10014 => State::CheckResourceStatusFailed,
            10015 => State::ApplyScriptFailed,
            10016 => State::RemoveScriptFailed,
            10017 => State::YamlResourcePropertyNotFound,
            10018 => State::GetHelmPropertyFailed,
            10019 => State::HelmChartPullFailed,
            10020 => State::HelmChartLoadFailed,
            10021 => State::HelmChartApplyFailed,
            10022 => State::HelmChartUninstallFailed,
            10023 => State::IngressApplyFailed,
            10024 => State::HttpNewRequestFailed,
            10025 => State::HttpSendRequestFailed,
            10026 => State::HttpErrorResponse,
            10027 => State::MqttPublishFailed,
            10028 => State::MqttApplyFailed,
            10029 => State::MqttApplyTimeout,
            10030 => State::ConfigMapApplyFailed,
            10031 => State::HttpBadWaitStatusCode,
            10032 => State::HttpNewWaitRequestFailed,
            10033 => State::HttpSendWaitRequestFailed,
            10034 => State::HttpErrorWaitResponse,
            10035 => State::HttpBadWaitExpression,
            10036 => State::ScriptExecutionFailed,
            10037 => State::ScriptResultParsingFailed,
            10038 => State::WaitToGetInstancesFailed,
            10039 => State::WaitToGetSitesFailed,
            10040 => State::WaitToGetCatalogsFailed,
            10041 => State::InvalidWaitObjectType,
            10042 => State::CatalogsGetFailed,
            10043 => State::InvalidInstanceCatalog,
            10044 => State::CreateInstanceFromCatalogFailed,
            10045 => State::InvalidSolutionCatalog,
            10046 => State::CreateSolutionFromCatalogFailed,
            10047 => State::InvalidTargetCatalog,
            10048 => State::CreateTargetFromCatalogFailed,
            10049 => State::InvalidCatalogCatalog,
            10050 => State::CreateCatalogFromCatalogFailed,
            10051 => State::ParentObjectMissing,
            10052 => State::ParentObjectCreateFailed,
            10053 => State::MaterializeBatchFailed,
            10054 => State::DeleteInstanceFailed,
            10055 => State::CreateInstanceFailed,
            10056 => State::DeploymentNotReached,
            10057 => State::InvalidObjectType,
            10058 => State::UnsupportedAction,
            11000 => State::SolutionGetFailed,
            11001 => State::TargetCandidatesNotFound,
            11002 => State::TargetListGetFailed,
            11003 => State::ObjectInstanceConversionFailed,
            11004 => State::TimedOut,
            12000 => State::TargetPropertyNotFound,
            _ => State::InternalError,
        }
    }
}

/// Encoding then decoding a state yields the state again, for every state;
/// decoding never fails, since unknown codes collapse to `InternalError`.
pub proof fn lemma_state_round_trip(s: State)
    ensures
        spec_state_of_code(spec_state_code(s)) == s,
{
}

/// A code carried by no state decodes to `InternalError`: decoding never
/// fails, it degrades.
pub proof fn lemma_unknown_code_is_internal_error(code: u16)
    requires
        forall|s: State| spec_state_code(s) != code,
    ensures
        spec_state_of_code(code) == State::InternalError,
{
    assert(spec_state_code(State::OK) == 200);
    assert(spec_state_code(State::Accepted) == 202);
    assert(spec_state_code(State::BadRequest) == 400);
    assert(spec_state_code(State::Unauthorized) == 403);
    assert(spec_state_code(State::NotFound) == 404);
    assert(spec_state_code(State::MethodNotAllowed) == 405);
    assert(spec_state_code(State::Conflict) == 409);
    assert(spec_state_code(State::InternalError) == 500);
    assert(spec_state_code(State::BadConfig) == 1000);
    assert(spec_state_code(State::MissingConfig) == 1001);
    assert(spec_state_code(State::InvalidArgument) == 2000);
    assert(spec_state_code(State::APIRedirect) == 3030);
    assert(spec_state_code(State::FileAccessError) == 4000);
    assert(spec_state_code(State::SerializationError) == 5000);
    assert(spec_state_code(State::DeserializeError) == 5001);
    assert(spec_state_code(State::DeleteRequested) == 6000);
    assert(spec_state_code(State::UpdateFailed) == 8001);
    assert(spec_state_code(State::DeleteFailed) == 8002);
    assert(spec_state_code(State::ValidateFailed) == 8003);
    assert(spec_state_code(State::Updated) == 8004);
    assert(spec_state_code(State::Deleted) == 8005);
    assert(spec_state_code(State::Running) == 9994);
    assert(spec_state_code(State::Paused) == 9995);
    assert(spec_state_code(State::Done) == 9996);
    assert(spec_state_code(State::Delayed) == 9997);
    assert(spec_state_code(State::Untouched) == 9998);
    assert(spec_state_code(State::NotImplemented) == 9999);
    assert(spec_state_code(State::InitFailed) == 10000);
    assert(spec_state_code(State::CreateActionConfigFailed) == 10001);
    assert(spec_state_code(State::HelmActionFailed) == 10002);
    assert(spec_state_code(State::GetComponentSpecFailed) == 10003);
    assert(spec_state_code(State::CreateProjectorFailed) == 10004);
    assert(spec_state_code(State::K8sRemoveServiceFailed) == 10005);
    assert(spec_state_code(State::K8sRemoveDeploymentFailed) == 10006);
    assert(spec_state_code(State::K8sDeploymentFailed) == 10007);
    assert(spec_state_code(State::ReadYamlFailed) == 10008);
    assert(spec_state_code(State::ApplyYamlFailed) == 10009);
    assert(spec_state_code(State::ReadResourcePropertyFailed) == 10010);
    assert(spec_state_code(State::ApplyResourceFailed) == 10011);
    assert(spec_state_code(State::DeleteYamlFailed) == 10012);
    assert(spec_state_code(State::DeleteResourceFailed) == 10013);
    assert(spec_state_code(State::CheckResourceStatusFailed) == 10014);
    assert(spec_state_code(State::ApplyScriptFailed) == 10015);
    assert(spec_state_code(State::RemoveScriptFailed) == 10016);
    assert(spec_state_code(State::YamlResourcePropertyNotFound) == 10017);
    assert(spec_state_code(State::GetHelmPropertyFailed) == 10018);
    assert(spec_state_code(State::HelmChartPullFailed) == 10019);
    assert(spec_state_code(State::HelmChartLoadFailed) == 10020);
    assert(spec_state_code(State::HelmChartApplyFailed) == 10021);
    assert(spec_state_code(State::HelmChartUninstallFailed) == 10022);
    assert(spec_state_code(State::IngressApplyFailed) == 10023);
    assert(spec_state_code(State::HttpNewRequestFailed) == 10024);
    assert(spec_state_code(State::HttpSendRequestFailed) == 10025);
    assert(spec_state_code(State::HttpErrorResponse) == 10026);
    assert(spec_state_code(State::MqttPublishFailed) == 10027);
    assert(spec_state_code(State::MqttApplyFailed) == 10028);
    assert(spec_state_code(State::MqttApplyTimeout) == 10029);
    assert(spec_state_code(State::ConfigMapApplyFailed) == 10030);
    assert(spec_state_code(State::HttpBadWaitStatusCode) == 10031);
    assert(spec_state_code(State::HttpNewWaitRequestFailed) == 10032);
    assert(spec_state_code(State::HttpSendWaitRequestFailed) == 10033);
    assert(spec_state_code(State::HttpErrorWaitResponse) == 10034);
    assert(spec_state_code(State::HttpBadWaitExpression) == 10035);
    assert(spec_state_code(State::ScriptExecutionFailed) == 10036);
    assert(spec_state_code(State::ScriptResultParsingFailed) == 10037);
    assert(spec_state_code(State::WaitToGetInstancesFailed) == 10038);
    assert(spec_state_code(State::WaitToGetSitesFailed) == 10039);
    assert(spec_state_code(State::WaitToGetCatalogsFailed) == 10040);
    assert(spec_state_code(State::InvalidWaitObjectType) == 10041);
    assert(spec_state_code(State::CatalogsGetFailed) == 10042);
    assert(spec_state_code(State::InvalidInstanceCatalog) == 10043);
    assert(spec_state_code(State::CreateInstanceFromCatalogFailed) == 10044);
    assert(spec_state_code(State::InvalidSolutionCatalog) == 10045);
    assert(spec_state_code(State::CreateSolutionFromCatalogFailed) == 10046);
    assert(spec_state_code(State::InvalidTargetCatalog) == 10047);
    assert(spec_state_code(State::CreateTargetFromCatalogFailed) == 10048);
    assert(spec_state_code(State::InvalidCatalogCatalog) == 10049);
    assert(spec_state_code(State::CreateCatalogFromCatalogFailed) == 10050);
    assert(spec_state_code(State::ParentObjectMissing) == 10051);
    assert(spec_state_code(State::ParentObjectCreateFailed) == 10052);
    assert(spec_state_code(State::MaterializeBatchFailed) == 10053);
    assert(spec_state_code(State::DeleteInstanceFailed) == 10054);
    assert(spec_state_code(State::CreateInstanceFailed) == 10055);
    assert(spec_state_code(State::DeploymentNotReached) == 10056);
    assert(spec_state_code(State::InvalidObjectType) == 10057);
    assert(spec_state_code(State::UnsupportedAction) == 10058);
    assert(spec_state_code(State::SolutionGetFailed) == 11000);
    assert(spec_state_code(State::TargetCandidatesNotFound) == 11001);
    assert(spec_state_code(State::TargetListGetFailed) == 11002);
    assert(spec_state_code(State::ObjectInstanceConversionFailed) == 11003);
    assert(spec_state_code(State::TimedOut) == 11004);
    assert(spec_state_code(State::TargetPropertyNotFound) == 12000);
}

} // verus!
