//! Building the request URLs, the insights API paths, and the
//! authorization header value.

use crate::vcs::Vcs;
use base64::Engine;
use vstd::prelude::*;
use vstd::string::StringSliceAdditionalSpecFns;

verus! {

/// What the standard base64 encoding of a byte sequence reads as.
pub uninterp spec fn base64_of(bytes: Seq<u8>) -> Seq<char>;

/// Relies on `base64::engine::general_purpose::STANDARD.encode`: the
/// standard alphabet with `=` padding. The output depends on the input
/// bytes alone, four characters for every started group of three bytes;
/// the bound keeps that length within `usize`, past which the engine
/// would abort.
#[verifier::external_body]
fn encode_base64(bytes: &[u8]) -> (r: String)
    requires
        4 * ((bytes@.len() + 2) / 3) <= usize::MAX,
    ensures
        r@ == base64_of(bytes@),
        r@.len() == 4 * ((bytes@.len() + 2) / 3),
{
    base64::engine::general_purpose::STANDARD.encode(bytes)
}

/// The Authorization header value for a token: `Basic ` followed by the
/// base64 encoding of the token with a trailing colon.
pub fn auth_header(token: &str) -> (r: String)
    requires
        4 * ((token.spec_bytes().len() + 3) / 3) <= usize::MAX,
    ensures
        r@ == "Basic "@ + base64_of(token.spec_bytes().push(58u8)),
{
    let mut bytes = token.as_bytes_vec();
    // 58 is the colon that Basic credentials place after the user part.
    bytes.push(58u8);
    let encoded = encode_base64(bytes.as_slice());
    let mut r: String = "Basic ".to_owned();
    r.append(encoded.as_str());
    r
}

/// The absolute URL of an API path.
pub fn api_url(path: &str) -> (r: String)
    ensures
        r@ == "https://circleci.com/api/v2/"@ + path@,
{
    let mut r: String = "https://circleci.com/api/v2/".to_owned();
    r.append(path);
    r
}

/// The path listing the workflow summaries of a repository.
pub fn workflows_path(vcs: &Vcs, slug: &str) -> (r: String)
    ensures
        r@ == "insights/"@ + vcs.spec_code() + "/"@ + slug@ + "/workflows"@,
{
    let mut r: String = "insights/".to_owned();
    r.append(vcs.code());
    r.append("/");
    r.append(slug);
    r.append("/workflows");
    r
}

/// The path listing the run history of one workflow.
pub fn workflow_path(vcs: &Vcs, slug: &str, workflow: &str) -> (r: String)
    ensures
        r@ == "insights/"@ + vcs.spec_code() + "/"@ + slug@ + "/workflows/"@ + workflow@,
{
    let mut r: String = "insights/".to_owned();
    r.append(vcs.code());
    r.append("/");
    r.append(slug);
    r.append("/workflows/");
    r.append(workflow);
    r
}

/// The path listing the job summaries of one workflow.
pub fn jobs_path(vcs: &Vcs, slug: &str, workflow: &str) -> (r: String)
    ensures
        r@ == "insights/"@ + vcs.spec_code() + "/"@ + slug@ + "/workflows/"@ + workflow@
            + "/jobs"@,
{
    let mut r: String = "insights/".to_owned();
    r.append(vcs.code());
    r.append("/");
    r.append(slug);
    r.append("/workflows/");
    r.append(workflow);
    r.append("/jobs");
    r
}

/// The path listing the run history of one job of a workflow.
pub fn job_path(vcs: &Vcs, slug: &str, workflow: &str, job: &str) -> (r: String)
    ensures
        r@ == "insights/"@ + vcs.spec_code() + "/"@ + slug@ + "/workflows/"@ + workflow@
            + "/jobs/"@ + job@,
{
    let mut r: String = "insights/".to_owned();
    r.append(vcs.code());
    r.append("/");
    r.append(slug);
    r.append("/workflows/");
    r.append(workflow);
    r.append("/jobs/");
    r.append(job);
    r
}

} // verus!
