use az_dbx_pat::error::{
    CredentialError, HeaderError, IssuanceError, PipelineError, Stage,
};
use az_dbx_pat::issuance::{check_status, DbxRequestBody};

#[test]
fn statuses_from_200_to_299_are_success() {
    for status in [200u16, 201, 204, 299] {
        assert_eq!(check_status(status), Ok(()));
    }
}

#[test]
fn other_statuses_are_rejections_that_carry_the_status() {
    for status in [0u16, 100, 199, 300, 301, 400, 401, 403, 404, 500, 503, 999, 65535] {
        assert_eq!(
            check_status(status),
            Err(IssuanceError::RequestRejected { status_code: status })
        );
    }
}

#[test]
fn request_body_takes_its_arguments_as_they_are() {
    let body = DbxRequestBody::new("x", -5);
    assert_eq!(body.comment, "x");
    assert_eq!(body.lifetime_seconds, -5);
}

#[test]
fn request_body_of_the_tool_has_the_fixed_comment() {
    let body = DbxRequestBody::for_lifetime(3600);
    assert_eq!(body.comment, "Generate Azure Databricks PAT");
    assert_eq!(body.lifetime_seconds, 3600);
    assert_eq!(DbxRequestBody::for_lifetime(i32::MAX).lifetime_seconds, i32::MAX);
    assert_eq!(DbxRequestBody::for_lifetime(0).lifetime_seconds, 0);
}

#[test]
fn rejection_message_names_the_status() {
    let error = IssuanceError::RequestRejected { status_code: 403 };
    assert_eq!(error.message(), "Failed to get PAT: HTTP 403");
    let error = IssuanceError::RequestRejected { status_code: 500 };
    assert_eq!(error.message(), "Failed to get PAT: HTTP 500");
}

#[test]
fn other_issuance_messages_are_verbatim() {
    let error = IssuanceError::Transport { message: String::from("connection refused") };
    assert_eq!(error.message(), "connection refused");
    let error = IssuanceError::DecodeFailure { message: String::from("missing field `token_value`") };
    assert_eq!(error.message(), "missing field `token_value`");
}

#[test]
fn pipeline_error_names_its_stage_and_keeps_the_message() {
    let error = PipelineError::Credential(CredentialError { message: String::from("no source") });
    assert_eq!(error.stage(), Stage::Credential);
    assert_eq!(error.stage().name(), "credential");
    assert_eq!(error.message(), "no source");

    let error = PipelineError::Header(HeaderError { message: String::from("bad value") });
    assert_eq!(error.stage(), Stage::Header);
    assert_eq!(error.stage().name(), "header");
    assert_eq!(error.message(), "bad value");

    let error = PipelineError::Issuance(IssuanceError::RequestRejected { status_code: 404 });
    assert_eq!(error.stage(), Stage::Issuance);
    assert_eq!(error.stage().name(), "issuance");
    assert_eq!(error.message(), "Failed to get PAT: HTTP 404");
}
