use ci_insights::api::{api_url, auth_header, job_path, jobs_path, workflow_path, workflows_path};
use ci_insights::num::{pad_left, to_dec, to_dec_padded, to_dec_zero_padded};
use ci_insights::vcs::Vcs;

#[test]
fn vcs_codes() {
    assert_eq!(Vcs::GitHub.code(), "gh");
    assert_eq!(Vcs::BitBucket.code(), "bb");
}

#[test]
fn vcs_parse_recognized_spellings() {
    assert_eq!(Vcs::parse("gh"), Vcs::GitHub);
    assert_eq!(Vcs::parse("GitHub"), Vcs::GitHub);
    assert_eq!(Vcs::parse("bb"), Vcs::BitBucket);
    assert_eq!(Vcs::parse("BitBucket"), Vcs::BitBucket);
}

#[test]
fn vcs_parse_falls_back_to_github() {
    assert_eq!(Vcs::parse(""), Vcs::GitHub);
    assert_eq!(Vcs::parse("gitlab"), Vcs::GitHub);
    assert_eq!(Vcs::parse("BB"), Vcs::GitHub);
}

#[test]
fn paths_have_expected_shape() {
    let vcs = Vcs::GitHub;
    assert_eq!(workflows_path(&vcs, "o/r"), "insights/gh/o/r/workflows");
    assert_eq!(workflow_path(&vcs, "o/r", "build"), "insights/gh/o/r/workflows/build");
    assert_eq!(jobs_path(&vcs, "o/r", "build"), "insights/gh/o/r/workflows/build/jobs");
    assert_eq!(
        job_path(&vcs, "o/r", "build", "test"),
        "insights/gh/o/r/workflows/build/jobs/test"
    );
    assert_eq!(
        workflows_path(&Vcs::BitBucket, "o/r"),
        "insights/bb/o/r/workflows"
    );
}

#[test]
fn api_url_prefixes_the_base() {
    assert_eq!(
        api_url("insights/gh/o/r/workflows"),
        "https://circleci.com/api/v2/insights/gh/o/r/workflows"
    );
}

#[test]
fn auth_header_encodes_token_with_trailing_colon() {
    // base64("token:") with the standard alphabet and padding.
    assert_eq!(auth_header("token"), "Basic dG9rZW46");
    // base64(":") alone, for an empty token.
    assert_eq!(auth_header(""), "Basic Og==");
}

#[test]
fn decimal_rendering() {
    assert_eq!(to_dec(0), "0");
    assert_eq!(to_dec(7), "7");
    assert_eq!(to_dec(42), "42");
    assert_eq!(to_dec(120034), "120034");
}

#[test]
fn decimal_padding() {
    assert_eq!(to_dec_padded(8, 3), "  8");
    assert_eq!(to_dec_padded(1234, 3), "1234");
    assert_eq!(to_dec_zero_padded(42, 4), "0042");
    assert_eq!(to_dec_zero_padded(0, 3), "000");
    assert_eq!(pad_left("ab", 5), "   ab");
    assert_eq!(pad_left("abcdef", 5), "abcdef");
}
