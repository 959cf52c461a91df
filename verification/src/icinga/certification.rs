use vstd::prelude::*;
use crate::value::FloatBits;

verus! {

/// The parameters of the `pki::RequestCertificate` message: the ticket the master generated for
/// the requested common name, and the certificate request to sign, needed on the first request
/// only.
#[derive(Clone, Debug, PartialEq, Eq)]
pub struct RequestCertificate {
    pub ticket: String,
    pub cert_request: Option<String>,
}

/// The parameters of the `pki::UpdateCertificate` answer: a status code (0.0 on success, 1.0 on
/// failure) and the result.
#[derive(Clone, Debug, PartialEq)]
pub struct UpdateCertificate {
    pub status_code: FloatBits,
    pub result: UpdateCertificateResult,
}

/// The result of a certificate request: an error text, or the signed certificate with the
/// certificate of the authority and the fingerprint of the request.
#[derive(Clone, Debug, PartialEq)]
pub enum UpdateCertificateResult {
    Error { error: String },
    Success { cert: String, ca: String, fingerprint_request: String },
}

} // verus!
