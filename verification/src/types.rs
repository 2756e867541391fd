//! The uniform error taxonomy shared by every component.

use vstd::prelude::*;
use vstd::std_specs::convert::FromSpecImpl;
use vstd::string::StringExecFns;

verus! {

pub type JitoResult<T, E> = Result<T, JitoError<E>>;

/// One kind per collaborator, plus the domain's terminal conditions.
#[derive(Debug, PartialEq, Eq)]
pub enum JitoError<T> {
    BundleError(T),
    TipError(T),
    BlockEngineError(T),
    ValidatorsError(T),
    TransactionsPoolError(T),
    HealthError(T),
    StatisticsError(T),
    SerializationError(T),
    Error(T),
    InsufficientBalance,
    NoArbitrageOpportunity,
}

impl<T> From<T> for JitoError<T> {
    fn from(e: T) -> (r: Self) {
        JitoError::SerializationError(e)
    }
}

impl<T> FromSpecImpl<T> for JitoError<T> {
    open spec fn obeys_from_spec() -> bool {
        true
    }

    open spec fn from_spec(e: T) -> Self {
        JitoError::SerializationError(e)
    }
}

impl<T> JitoError<T> {
    /// The text that introduces the payload when the error is shown.
    pub open spec fn prefix(self) -> Seq<char> {
        match self {
            JitoError::BundleError(_) => "Bundle error: "@,
            JitoError::TipError(_) => "Tip error: "@,
            JitoError::BlockEngineError(_) => "Block engine error: "@,
            JitoError::ValidatorsError(_) => "Validators error: "@,
            JitoError::TransactionsPoolError(_) => "Transactions pool error: "@,
            JitoError::HealthError(_) => "Health error: "@,
            JitoError::StatisticsError(_) => "Statistics error: "@,
            JitoError::SerializationError(_) => "Serialization error: "@,
            JitoError::Error(_) => "Serialization error: "@,
            JitoError::InsufficientBalance => "Insufficient balance"@,
            JitoError::NoArbitrageOpportunity => "No arbitrage opportunity found"@,
        }
    }

    /// The payload carried by the error, if its kind carries one.
    pub open spec fn payload(self) -> Option<T> {
        match self {
            JitoError::BundleError(m) => Some(m),
            JitoError::TipError(m) => Some(m),
            JitoError::BlockEngineError(m) => Some(m),
            JitoError::ValidatorsError(m) => Some(m),
            JitoError::TransactionsPoolError(m) => Some(m),
            JitoError::HealthError(m) => Some(m),
            JitoError::StatisticsError(m) => Some(m),
            JitoError::SerializationError(m) => Some(m),
            JitoError::Error(m) => Some(m),
            JitoError::InsufficientBalance => None,
            JitoError::NoArbitrageOpportunity => None,
        }
    }

    /// Whether this is the expected, high-frequency "nothing to do" condition.
    pub fn is_no_opportunity(&self) -> (r: bool)
        ensures
            r == (*self is NoArbitrageOpportunity),
    {
        match self {
            JitoError::NoArbitrageOpportunity => true,
            _ => false,
        }
    }
}

impl JitoError<String> {
    /// What the error reads as: the prefix of its kind followed by the payload, verbatim.
    pub open spec fn rendered(self) -> Seq<char> {
        match self.payload() {
            Some(m) => self.prefix() + m@,
            None => self.prefix(),
        }
    }

    /// Renders the error as text.
    pub fn to_string(&self) -> (s: String)
        ensures
            s@ == self.rendered(),
    {
        match self {
            JitoError::BundleError(m) => String::from_str("Bundle error: ").concat(m.as_str()),
            JitoError::TipError(m) => String::from_str("Tip error: ").concat(m.as_str()),
            JitoError::BlockEngineError(m) => String::from_str("Block engine error: ").concat(
                m.as_str(),
            ),
            JitoError::ValidatorsError(m) => String::from_str("Validators error: ").concat(
                m.as_str(),
            ),
            JitoError::TransactionsPoolError(m) => String::from_str(
                "Transactions pool error: ",
            ).concat(m.as_str()),
            JitoError::HealthError(m) => String::from_str("Health error: ").concat(m.as_str()),
            JitoError::StatisticsError(m) => String::from_str("Statistics error: ").concat(
                m.as_str(),
            ),
            JitoError::SerializationError(m) => String::from_str("Serialization error: ").concat(
                m.as_str(),
            ),
            JitoError::Error(m) => String::from_str("Serialization error: ").concat(m.as_str()),
            JitoError::InsufficientBalance => String::from_str("Insufficient balance"),
            JitoError::NoArbitrageOpportunity => String::from_str(
                "No arbitrage opportunity found",
            ),
        }
    }
}

} // verus!
