use az_dbx_pat::error::{CredentialError, HeaderError, IssuanceError, PipelineError};
use az_dbx_pat::report::report;

#[test]
fn token_goes_to_standard_output_with_status_zero() {
    let shown = report(Ok(String::from("dapiSECRET")));
    assert_eq!(shown.exit_code, 0);
    assert_eq!(shown.stdout, Some(String::from("dapiSECRET")));
    assert!(shown.stderr.is_empty());
}

#[test]
fn credential_failure_is_reported_twice_on_standard_error() {
    let error = PipelineError::Credential(CredentialError { message: String::from("no credential") });
    let shown = report(Err(error));
    assert_eq!(shown.exit_code, 1);
    assert_eq!(shown.stdout, None);
    assert_eq!(
        shown.stderr,
        vec![
            String::from("Failed to get Azure token: no credential"),
            String::from("Error generating PAT: no credential"),
        ]
    );
}

#[test]
fn rejection_is_reported_with_its_status() {
    let error = PipelineError::Issuance(IssuanceError::RequestRejected { status_code: 403 });
    let shown = report(Err(error));
    assert_eq!(shown.exit_code, 1);
    assert_eq!(shown.stdout, None);
    assert_eq!(
        shown.stderr,
        vec![
            String::from("Failed to get PAT: HTTP 403"),
            String::from("Error generating PAT: Failed to get PAT: HTTP 403"),
        ]
    );
}

#[test]
fn other_failures_are_reported_once() {
    let errors = vec![
        (
            PipelineError::Header(HeaderError { message: String::from("failed to parse header value") }),
            "Error generating PAT: failed to parse header value",
        ),
        (
            PipelineError::Issuance(IssuanceError::Transport { message: String::from("dns error") }),
            "Error generating PAT: dns error",
        ),
        (
            PipelineError::Issuance(IssuanceError::DecodeFailure { message: String::from("missing field") }),
            "Error generating PAT: missing field",
        ),
    ];
    for (error, line) in errors {
        let shown = report(Err(error));
        assert_eq!(shown.exit_code, 1);
        assert_eq!(shown.stdout, None);
        assert_eq!(shown.stderr, vec![String::from(line)]);
    }
}
