use vstd::prelude::*;

use crate::sql_client_error::SqlClientError;
use crate::text::canon;
use crate::text::canon_str;
use crate::text::str_eq;

verus! {

/// The SQL Server type system a connection asks for.
#[derive(PartialEq, Debug, Clone, Copy)]
pub enum TypeSystem {
    /// The SQL Server 2000 type system.
    SqlServer2000,
    /// The SQL Server 2005 type system.
    SqlServer2005,
    /// The SQL Server 2008 type system.
    SqlServer2008,
    /// The SQL Server 2012 type system.
    SqlServer2012,
}

impl TypeSystem {
    /// The display name of this value.
    pub open spec fn spec_name(&self) -> Seq<char> {
        match self {
            TypeSystem::SqlServer2000 => "SQL Server 2000"@,
            TypeSystem::SqlServer2005 => "SQL Server 2005"@,
            TypeSystem::SqlServer2008 => "SQL Server 2008"@,
            TypeSystem::SqlServer2012 => "SQL Server 2012"@,
        }
    }

    /// The value a normalized (trimmed, lowercased) text denotes, if any.
    pub open spec fn spec_parse(s: Seq<char>) -> Option<TypeSystem> {
        if s == "sql server 2000"@ {
            Some(TypeSystem::SqlServer2000)
        } else if s == "sql server 2005"@ {
            Some(TypeSystem::SqlServer2005)
        } else if s == "sql server 2008"@ {
            Some(TypeSystem::SqlServer2008)
        } else if s == "sql server 2012"@ {
            Some(TypeSystem::SqlServer2012)
        } else {
            None
        }
    }

    /// The display name of this value.
    pub fn as_str(&self) -> (r: &'static str)
        ensures
            r@ == self.spec_name(),
    {
        match self {
            TypeSystem::SqlServer2000 => "SQL Server 2000",
            TypeSystem::SqlServer2005 => "SQL Server 2005",
            TypeSystem::SqlServer2008 => "SQL Server 2008",
            TypeSystem::SqlServer2012 => "SQL Server 2012",
        }
    }

    /// Parses a type system version from its textual form, ignoring case
    /// and surrounding whitespace; any other text is an unsupported value.
    pub fn try_from(value: &str) -> (r: Result<TypeSystem, SqlClientError>)
        ensures
            r is Ok <==> Self::spec_parse(canon(value@)) is Some,
            r matches Ok(a) ==> Self::spec_parse(canon(value@)) == Some(a),
            r matches Err(e) ==> (e matches SqlClientError::UnsupportedValue(k, v) && k@
                == "Type System"@ && v@ == value@),
    {
        let lowered = canon_str(value);
        if str_eq(lowered.as_str(), "sql server 2000") {
            Ok(TypeSystem::SqlServer2000)
        } else if str_eq(lowered.as_str(), "sql server 2005") {
            Ok(TypeSystem::SqlServer2005)
        } else if str_eq(lowered.as_str(), "sql server 2008") {
            Ok(TypeSystem::SqlServer2008)
        } else if str_eq(lowered.as_str(), "sql server 2012") {
            Ok(TypeSystem::SqlServer2012)
        } else {
            Err(SqlClientError::UnsupportedValue("Type System".to_owned(), value.to_owned()))
        }
    }
}

} // verus!
