use vstd::prelude::*;

use crate::sql_client_error::SqlClientError;
use crate::text::canon;
use crate::text::canon_str;
use crate::text::str_eq;

verus! {

/// The application workload type declared when connecting to a server.
#[derive(PartialEq, Debug)]
pub enum ApplicationIntent {
    /// The application workload type when connecting to a server is read write.
    ReadWrite,
    /// The application workload type when connecting to a server is read only.
    ReadOnly,
}

impl ApplicationIntent {
    /// The display name of this value.
    pub open spec fn spec_name(&self) -> Seq<char> {
        match self {
            ApplicationIntent::ReadWrite => "ReadWrite"@,
            ApplicationIntent::ReadOnly => "ReadOnly"@,
        }
    }

    /// The value a normalized (trimmed, lowercased) text denotes, if any.
    pub open spec fn spec_parse(s: Seq<char>) -> Option<ApplicationIntent> {
        if s == "readonly"@ {
            Some(ApplicationIntent::ReadOnly)
        } else if s == "readwrite"@ {
            Some(ApplicationIntent::ReadWrite)
        } else {
            None
        }
    }

    /// The display name of this value.
    pub fn as_str(&self) -> (r: &'static str)
        ensures
            r@ == self.spec_name(),
    {
        match self {
            ApplicationIntent::ReadWrite => "ReadWrite",
            ApplicationIntent::ReadOnly => "ReadOnly",
        }
    }

    /// Parses an application intent from its textual form, ignoring case
    /// and surrounding whitespace; any other text is an unsupported value.
    pub fn try_from(value: &str) -> (r: Result<ApplicationIntent, SqlClientError>)
        ensures
            r is Ok <==> Self::spec_parse(canon(value@)) is Some,
            r matches Ok(a) ==> Self::spec_parse(canon(value@)) == Some(a),
            r matches Err(e) ==> (e matches SqlClientError::UnsupportedValue(k, v) && k@
                == "SqlClientError"@ && v@ == value@),
    {
        let lowered = canon_str(value);
        if str_eq(lowered.as_str(), "readonly") {
            Ok(ApplicationIntent::ReadOnly)
        } else if str_eq(lowered.as_str(), "readwrite") {
            Ok(ApplicationIntent::ReadWrite)
        } else {
            Err(SqlClientError::UnsupportedValue("SqlClientError".to_owned(), value.to_owned()))
        }
    }
}

} // verus!
