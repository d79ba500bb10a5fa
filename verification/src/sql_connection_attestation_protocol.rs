use vstd::prelude::*;

use crate::sql_client_error::SqlClientError;
use crate::text::canon;
use crate::text::canon_str;
use crate::text::str_eq;

verus! {

/// The attestation protocol used for enclave-backed connections.
#[derive(PartialEq, Debug, Clone, Copy)]
pub enum SqlConnectionAttestationProtocol {
    /// The attestation protocol is not specified.
    NotSpecified,
    /// Attestation through Azure Attestation Service.
    AAS,
    /// No attestation.
    NoAttestation,
    /// Attestation through Host Guardian Service.
    HGS,
}

impl SqlConnectionAttestationProtocol {
    /// The display name of this value.
    pub open spec fn spec_name(&self) -> Seq<char> {
        match self {
            SqlConnectionAttestationProtocol::NotSpecified => "NotSpecified"@,
            SqlConnectionAttestationProtocol::AAS => "AAS"@,
            SqlConnectionAttestationProtocol::NoAttestation => "None"@,
            SqlConnectionAttestationProtocol::HGS => "HGS"@,
        }
    }

    /// The value a normalized (trimmed, lowercased) text denotes, if any.
    pub open spec fn spec_parse(s: Seq<char>) -> Option<SqlConnectionAttestationProtocol> {
        if s == "notspecified"@ {
            Some(SqlConnectionAttestationProtocol::NotSpecified)
        } else if s == "aas"@ {
            Some(SqlConnectionAttestationProtocol::AAS)
        } else if s == "none"@ {
            Some(SqlConnectionAttestationProtocol::NoAttestation)
        } else if s == "hgs"@ {
            Some(SqlConnectionAttestationProtocol::HGS)
        } else {
            None
        }
    }

    /// The display name of this value.
    pub fn as_str(&self) -> (r: &'static str)
        ensures
            r@ == self.spec_name(),
    {
        match self {
            SqlConnectionAttestationProtocol::NotSpecified => "NotSpecified",
            SqlConnectionAttestationProtocol::AAS => "AAS",
            SqlConnectionAttestationProtocol::NoAttestation => "None",
            SqlConnectionAttestationProtocol::HGS => "HGS",
        }
    }

    /// Parses an attestation protocol from its textual form, ignoring case
    /// and surrounding whitespace; any other text is an unsupported value.
    pub fn try_from(value: &str) -> (r: Result<
        SqlConnectionAttestationProtocol,
        SqlClientError,
    >)
        ensures
            r is Ok <==> Self::spec_parse(canon(value@)) is Some,
            r matches Ok(a) ==> Self::spec_parse(canon(value@)) == Some(a),
            r matches Err(e) ==> (e matches SqlClientError::UnsupportedValue(k, v) && k@
                == "SqlClientError"@ && v@ == value@),
    {
        let lowered = canon_str(value);
        if str_eq(lowered.as_str(), "notspecified") {
            Ok(SqlConnectionAttestationProtocol::NotSpecified)
        } else if str_eq(lowered.as_str(), "aas") {
            Ok(SqlConnectionAttestationProtocol::AAS)
        } else if str_eq(lowered.as_str(), "none") {
            Ok(SqlConnectionAttestationProtocol::NoAttestation)
        } else if str_eq(lowered.as_str(), "hgs") {
            Ok(SqlConnectionAttestationProtocol::HGS)
        } else {
            Err(SqlClientError::UnsupportedValue("SqlClientError".to_owned(), value.to_owned()))
        }
    }
}

} // verus!
