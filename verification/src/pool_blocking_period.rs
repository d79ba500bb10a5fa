use vstd::prelude::*;

use crate::sql_client_error::SqlClientError;
use crate::text::canon;
use crate::text::canon_str;
use crate::text::str_eq;

verus! {

/// Whether the connection pool blocks new connection attempts for a period
/// after a server is found unreachable.
#[derive(PartialEq, Debug)]
pub enum PoolBlockingPeriod {
    /// Blocking period off for Azure SQL servers, but on for all other SQL servers.
    Auto,
    /// Blocking period on for all SQL servers including Azure SQL servers.
    AlwaysBlock,
    /// Blocking period off for all SQL servers including Azure SQL servers.
    NeverBlock,
}

impl PoolBlockingPeriod {
    /// The display name of this value.
    pub open spec fn spec_name(&self) -> Seq<char> {
        match self {
            PoolBlockingPeriod::Auto => "Auto"@,
            PoolBlockingPeriod::AlwaysBlock => "AlwaysBlock"@,
            PoolBlockingPeriod::NeverBlock => "NeverBlock"@,
        }
    }

    /// The value a normalized (trimmed, lowercased) text denotes, if any.
    pub open spec fn spec_parse(s: Seq<char>) -> Option<PoolBlockingPeriod> {
        if s == "auto"@ {
            Some(PoolBlockingPeriod::Auto)
        } else if s == "alwaysblock"@ {
            Some(PoolBlockingPeriod::AlwaysBlock)
        } else if s == "neverblock"@ {
            Some(PoolBlockingPeriod::NeverBlock)
        } else {
            None
        }
    }

    /// The display name of this value.
    pub fn as_str(&self) -> (r: &'static str)
        ensures
            r@ == self.spec_name(),
    {
        match self {
            PoolBlockingPeriod::Auto => "Auto",
            PoolBlockingPeriod::AlwaysBlock => "AlwaysBlock",
            PoolBlockingPeriod::NeverBlock => "NeverBlock",
        }
    }

    /// Parses a pool blocking period from its textual form, ignoring case
    /// and surrounding whitespace; any other text is an unsupported value.
    pub fn try_from(value: &str) -> (r: Result<PoolBlockingPeriod, SqlClientError>)
        ensures
            r is Ok <==> Self::spec_parse(canon(value@)) is Some,
            r matches Ok(a) ==> Self::spec_parse(canon(value@)) == Some(a),
            r matches Err(e) ==> (e matches SqlClientError::UnsupportedValue(k, v) && k@
                == "Pool blocking period"@ && v@ == value@),
    {
        let lowered = canon_str(value);
        if str_eq(lowered.as_str(), "auto") {
            Ok(PoolBlockingPeriod::Auto)
        } else if str_eq(lowered.as_str(), "alwaysblock") {
            Ok(PoolBlockingPeriod::AlwaysBlock)
        } else if str_eq(lowered.as_str(), "neverblock") {
            Ok(PoolBlockingPeriod::NeverBlock)
        } else {
            Err(
                SqlClientError::UnsupportedValue(
                    "Pool blocking period".to_owned(),
                    value.to_owned(),
                ),
            )
        }
    }
}

} // verus!
