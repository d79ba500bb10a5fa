use vstd::prelude::*;

use crate::sql_client_error::SqlClientError;
use crate::text::canon;
use crate::text::canon_str;
use crate::text::str_eq;

verus! {

/// How a connection is bound to a distributed transaction.
#[derive(PartialEq, Debug, Clone, Copy)]
pub enum TransactionBinding {
    /// The connection detaches from the transaction when it ends.
    ImplicitUnbind,
    /// The connection stays attached until it is unbound explicitly.
    ExplicitUnbind,
}

impl TransactionBinding {
    /// The display name of this value.
    pub open spec fn spec_name(&self) -> Seq<char> {
        match self {
            TransactionBinding::ImplicitUnbind => "Implicit Unbind"@,
            TransactionBinding::ExplicitUnbind => "Explicit Unbind"@,
        }
    }

    /// The value a normalized (trimmed, lowercased) text denotes, if any.
    pub open spec fn spec_parse(s: Seq<char>) -> Option<TransactionBinding> {
        if s == "implicit unbind"@ {
            Some(TransactionBinding::ImplicitUnbind)
        } else if s == "explicit unbind"@ {
            Some(TransactionBinding::ExplicitUnbind)
        } else {
            None
        }
    }

    /// The display name of this value.
    pub fn as_str(&self) -> (r: &'static str)
        ensures
            r@ == self.spec_name(),
    {
        match self {
            TransactionBinding::ImplicitUnbind => "Implicit Unbind",
            TransactionBinding::ExplicitUnbind => "Explicit Unbind",
        }
    }

    /// Parses a transaction binding from its textual form, ignoring case
    /// and surrounding whitespace; any other text is an unsupported value.
    pub fn try_from(value: &str) -> (r: Result<TransactionBinding, SqlClientError>)
        ensures
            r is Ok <==> Self::spec_parse(canon(value@)) is Some,
            r matches Ok(a) ==> Self::spec_parse(canon(value@)) == Some(a),
            r matches Err(e) ==> (e matches SqlClientError::UnsupportedValue(k, v) && k@
                == "Transaction Binding"@ && v@ == value@),
    {
        let lowered = canon_str(value);
        if str_eq(lowered.as_str(), "implicit unbind") {
            Ok(TransactionBinding::ImplicitUnbind)
        } else if str_eq(lowered.as_str(), "explicit unbind") {
            Ok(TransactionBinding::ExplicitUnbind)
        } else {
            Err(
                SqlClientError::UnsupportedValue("Transaction Binding".to_owned(), value.to_owned()),
            )
        }
    }
}

} // verus!
