//! The two ways in which an action fails to become a message or a transaction.
use vstd::prelude::*;

verus! {

/// The wire codec refused the fields of a message.
#[derive(Clone, Debug, PartialEq, Eq)]
pub enum EncodeError {
    /// `detail` is the codec's own report, unchanged; `message_name` names the message that
    /// was being encoded.
    Serialization { message_name: String, detail: String },
}

/// What an [`EncodeError`] holds.
#[verifier::ext_equal]
pub enum EncodeErrorView {
    Serialization { message_name: Seq<char>, detail: Seq<char> },
}

impl View for EncodeError {
    type V = EncodeErrorView;

    open spec fn view(&self) -> EncodeErrorView {
        match self {
            EncodeError::Serialization { message_name, detail } => EncodeErrorView::Serialization {
                message_name: message_name@,
                detail: detail@,
            },
        }
    }
}

impl EncodeErrorView {
    /// The text of the error: which message failed, then the codec's report.
    pub open spec fn message(self) -> Seq<char> {
        match self {
            EncodeErrorView::Serialization { message_name, detail } => "failed to encode "@
                + message_name + ": "@ + detail,
        }
    }
}

impl EncodeError {
    /// The text of the error, for a log or a report.
    pub fn message(&self) -> (text: String)
        ensures
            text@ == self@.message(),
    {
        match self {
            EncodeError::Serialization { message_name, detail } => {
                String::from_str("failed to encode ").concat(message_name.as_str()).concat(
                    ": ",
                ).concat(detail.as_str())
            },
        }
    }
}

/// The action is not one that a transaction can carry at its top level.
#[derive(Clone, Debug, PartialEq, Eq)]
pub enum TransactionEligibilityError {
    /// `variant_name` names the confirmation that was offered as a transaction.
    NotATransactionMessage { variant_name: String },
}

/// What a [`TransactionEligibilityError`] holds.
#[verifier::ext_equal]
pub enum TransactionEligibilityErrorView {
    NotATransactionMessage { variant_name: Seq<char> },
}

impl View for TransactionEligibilityError {
    type V = TransactionEligibilityErrorView;

    open spec fn view(&self) -> TransactionEligibilityErrorView {
        match self {
            TransactionEligibilityError::NotATransactionMessage { variant_name } =>
                TransactionEligibilityErrorView::NotATransactionMessage {
                    variant_name: variant_name@,
                },
        }
    }
}

impl TransactionEligibilityErrorView {
    /// The text of the error: the variant, then where its wire form can be had instead.
    pub open spec fn message(self) -> Seq<char> {
        match self {
            TransactionEligibilityErrorView::NotATransactionMessage { variant_name } => variant_name
                + " does not represent a transaction Msg. use into_any() to get the Any representation"@,
        }
    }
}

impl TransactionEligibilityError {
    /// The text of the error, for a log or a report.
    pub fn message(&self) -> (text: String)
        ensures
            text@ == self@.message(),
    {
        match self {
            TransactionEligibilityError::NotATransactionMessage { variant_name } => {
                variant_name.clone().concat(
                    " does not represent a transaction Msg. use into_any() to get the Any representation",
                )
            },
        }
    }
}

/// Why an action did not become a transaction.
#[derive(Clone, Debug, PartialEq, Eq)]
pub enum TransactionError {
    /// The action is a confirmation. The codec was not asked.
    Eligibility(TransactionEligibilityError),
    /// The action may be a transaction, and the codec refused its fields.
    Encode(EncodeError),
}

/// What a [`TransactionError`] holds.
#[verifier::ext_equal]
pub enum TransactionErrorView {
    Eligibility(TransactionEligibilityErrorView),
    Encode(EncodeErrorView),
}

impl View for TransactionError {
    type V = TransactionErrorView;

    open spec fn view(&self) -> TransactionErrorView {
        match self {
            TransactionError::Eligibility(e) => TransactionErrorView::Eligibility(e@),
            TransactionError::Encode(e) => TransactionErrorView::Encode(e@),
        }
    }
}

impl TransactionErrorView {
    /// The text of the error that it carries.
    pub open spec fn message(self) -> Seq<char> {
        match self {
            TransactionErrorView::Eligibility(e) => e.message(),
            TransactionErrorView::Encode(e) => e.message(),
        }
    }
}

impl TransactionError {
    /// The text of the error, for a log or a report.
    pub fn message(&self) -> (text: String)
        ensures
            text@ == self@.message(),
    {
        match self {
            TransactionError::Eligibility(e) => e.message(),
            TransactionError::Encode(e) => e.message(),
        }
    }
}

} // verus!
