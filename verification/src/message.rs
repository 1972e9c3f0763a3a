//! The actions of the gravity bridge module and their way into an envelope.
use crate::envelope::{Any, AnyView, UnsignedTx};
use crate::error::{
    EncodeError, EncodeErrorView, TransactionEligibilityError, TransactionEligibilityErrorView,
    TransactionError, TransactionErrorView,
};
use vstd::prelude::*;

verus! {

/// An amount of one denomination.
#[derive(Clone, Debug, PartialEq, Eq)]
pub struct Coin {
    pub denom: String,
    pub amount: u128,
}

/// One action of the gravity bridge module, with the fields of its message.
#[derive(Clone, Debug, PartialEq, Eq)]
pub enum SommGravity<'m> {
    /// Represents a MsgSendToEthereum
    SendToEthereum { sender: &'m str, ethereum_recipient: &'m str, amount: Coin, bridge_fee: Coin },
    /// Represents a MsgCancelSendToEthereum
    CancelSendToEthereum { sender: &'m str, id: u64 },
    /// Represents a MsgRequestBatchTx
    RequestBatchTx { denom: &'m str, signer: &'m str },
    /// Represents a MsgSubmitEthereumTxConfirmation. `confirmation` is the envelope of one of
    /// the three confirmations below.
    SubmitEthereumTxConfirmation { confirmation: Any, signer: &'m str },
    /// Represents a ContractCallTxConfirmation
    ContractCallTxConfirmation {
        invalidation_scope: Vec<u8>,
        invalidation_nonce: u64,
        ethereum_signer: &'m str,
        signature: Vec<u8>,
    },
    /// Represents a BatchTxConfirmation
    BatchTxConfirmation {
        token_contract_address: &'m str,
        batch_nonce: u64,
        ethereum_signer: &'m str,
        signature: Vec<u8>,
    },
    /// Represents a SignerSetTxConfirmation
    SignerSetTxConfirmation { signer_set_nonce: u64, ethereum_signer: &'m str, signature: Vec<u8> },
    /// Represents a MsgSubmitEthereumEvent
    SubmitEthereumEvent { event: Any, signer: &'m str },
    /// Represents a MsgDelegateKeys
    SetDelegateKeys {
        validator_address: &'m str,
        orchestrator_address: &'m str,
        ethereum_address: &'m str,
        eth_signature: Vec<u8>,
    },
    /// Represents a DelegateKeysSignMsg, the message that a validator signs to prove that the
    /// keys are its own.
    DelegateKeysSignMsg { validator_address: &'m str, nonce: u64 },
    /// Represents a MsgEthereumHeightVote
    SubmitEthereumHeightVote { ethereum_height: u64, signer: &'m str },
}

/// What a codec handed back, by its contents: the bytes, or its report of the failure.
pub open spec fn encoded_view(encoded: Result<Vec<u8>, String>) -> Result<Seq<u8>, Seq<char>> {
    match encoded {
        Ok(bytes) => Ok(bytes@),
        Err(detail) => Err(detail@),
    }
}

/// An envelope or the error in its place, by their contents.
pub open spec fn any_result_view(result: Result<Any, EncodeError>) -> Result<
    AnyView,
    EncodeErrorView,
> {
    match result {
        Ok(any) => Ok(any@),
        Err(e) => Err(e@),
    }
}

/// A transaction body or the error in its place, by their contents.
pub open spec fn tx_result_view(result: Result<UnsignedTx, TransactionError>) -> Result<
    Seq<AnyView>,
    TransactionErrorView,
> {
    match result {
        Ok(tx) => Ok(tx@),
        Err(e) => Err(e@),
    }
}

impl<'m> SommGravity<'m> {
    /// The name of the variant.
    pub open spec fn spec_variant_name(&self) -> Seq<char> {
        match self {
            SommGravity::SendToEthereum { .. } => "SendToEthereum"@,
            SommGravity::CancelSendToEthereum { .. } => "CancelSendToEthereum"@,
            SommGravity::RequestBatchTx { .. } => "RequestBatchTx"@,
            SommGravity::SubmitEthereumTxConfirmation { .. } => "SubmitEthereumTxConfirmation"@,
            SommGravity::ContractCallTxConfirmation { .. } => "ContractCallTxConfirmation"@,
            SommGravity::BatchTxConfirmation { .. } => "BatchTxConfirmation"@,
            SommGravity::SignerSetTxConfirmation { .. } => "SignerSetTxConfirmation"@,
            SommGravity::SubmitEthereumEvent { .. } => "SubmitEthereumEvent"@,
            SommGravity::SetDelegateKeys { .. } => "SetDelegateKeys"@,
            SommGravity::DelegateKeysSignMsg { .. } => "DelegateKeysSignMsg"@,
            SommGravity::SubmitEthereumHeightVote { .. } => "SubmitEthereumHeightVote"@,
        }
    }

    /// The name of the message in the module's wire schema.
    pub open spec fn spec_message_name(&self) -> Seq<char> {
        match self {
            SommGravity::SendToEthereum { .. } => "MsgSendToEthereum"@,
            SommGravity::CancelSendToEthereum { .. } => "MsgCancelSendToEthereum"@,
            SommGravity::RequestBatchTx { .. } => "MsgRequestBatchTx"@,
            SommGravity::SubmitEthereumTxConfirmation { .. } => "MsgSubmitEthereumTxConfirmation"@,
            SommGravity::ContractCallTxConfirmation { .. } => "ContractCallTxConfirmation"@,
            SommGravity::BatchTxConfirmation { .. } => "BatchTxConfirmation"@,
            SommGravity::SignerSetTxConfirmation { .. } => "SignerSetTxConfirmation"@,
            SommGravity::SubmitEthereumEvent { .. } => "MsgSubmitEthereumEvent"@,
            SommGravity::SetDelegateKeys { .. } => "MsgDelegateKeys"@,
            SommGravity::DelegateKeysSignMsg { .. } => "DelegateKeysSignMsg"@,
            SommGravity::SubmitEthereumHeightVote { .. } => "MsgEthereumHeightVote"@,
        }
    }

    /// The type URL of the message: the module's namespace, then the message's name.
    pub open spec fn spec_type_url(&self) -> Seq<char> {
        "/gravity.v1."@ + self.spec_message_name()
    }

    /// Whether the action is one of the three confirmations, which travel only inside a
    /// `SubmitEthereumTxConfirmation`.
    pub open spec fn spec_is_confirmation(&self) -> bool {
        ||| self is ContractCallTxConfirmation
        ||| self is BatchTxConfirmation
        ||| self is SignerSetTxConfirmation
    }

    /// Whether `other` is of the same variant, whatever the fields of the two hold.
    pub open spec fn spec_same_variant(&self, other: &SommGravity) -> bool {
        match self {
            SommGravity::SendToEthereum { .. } => other is SendToEthereum,
            SommGravity::CancelSendToEthereum { .. } => other is CancelSendToEthereum,
            SommGravity::RequestBatchTx { .. } => other is RequestBatchTx,
            SommGravity::SubmitEthereumTxConfirmation { .. } => other
                is SubmitEthereumTxConfirmation,
            SommGravity::ContractCallTxConfirmation { .. } => other is ContractCallTxConfirmation,
            SommGravity::BatchTxConfirmation { .. } => other is BatchTxConfirmation,
            SommGravity::SignerSetTxConfirmation { .. } => other is SignerSetTxConfirmation,
            SommGravity::SubmitEthereumEvent { .. } => other is SubmitEthereumEvent,
            SommGravity::SetDelegateKeys { .. } => other is SetDelegateKeys,
            SommGravity::DelegateKeysSignMsg { .. } => other is DelegateKeysSignMsg,
            SommGravity::SubmitEthereumHeightVote { .. } => other is SubmitEthereumHeightVote,
        }
    }

    /// The envelope of the action, given what the codec made of its fields.
    pub open spec fn spec_envelope(&self, encoded: Result<Seq<u8>, Seq<char>>) -> Result<
        AnyView,
        EncodeErrorView,
    > {
        match encoded {
            Ok(bytes) => Ok(AnyView { type_url: self.spec_type_url(), value: bytes }),
            Err(detail) => Err(
                EncodeErrorView::Serialization { message_name: self.spec_message_name(), detail },
            ),
        }
    }

    /// The messages of the transaction that carries the action, given what the codec made of
    /// its fields. A confirmation is refused whatever the codec would say.
    pub open spec fn spec_transaction(&self, encoded: Result<Seq<u8>, Seq<char>>) -> Result<
        Seq<AnyView>,
        TransactionErrorView,
    > {
        if self.spec_is_confirmation() {
            Err(
                TransactionErrorView::Eligibility(
                    TransactionEligibilityErrorView::NotATransactionMessage {
                        variant_name: self.spec_variant_name(),
                    },
                ),
            )
        } else {
            match self.spec_envelope(encoded) {
                Ok(any) => Ok(seq![any]),
                Err(e) => Err(TransactionErrorView::Encode(e)),
            }
        }
    }

    /// The name of the variant.
    pub fn variant_name(&self) -> (name: &'static str)
        ensures
            name@ == self.spec_variant_name(),
    {
        match self {
            SommGravity::SendToEthereum { .. } => "SendToEthereum",
            SommGravity::CancelSendToEthereum { .. } => "CancelSendToEthereum",
            SommGravity::RequestBatchTx { .. } => "RequestBatchTx",
            SommGravity::SubmitEthereumTxConfirmation { .. } => "SubmitEthereumTxConfirmation",
            SommGravity::ContractCallTxConfirmation { .. } => "ContractCallTxConfirmation",
            SommGravity::BatchTxConfirmation { .. } => "BatchTxConfirmation",
            SommGravity::SignerSetTxConfirmation { .. } => "SignerSetTxConfirmation",
            SommGravity::SubmitEthereumEvent { .. } => "SubmitEthereumEvent",
            SommGravity::SetDelegateKeys { .. } => "SetDelegateKeys",
            SommGravity::DelegateKeysSignMsg { .. } => "DelegateKeysSignMsg",
            SommGravity::SubmitEthereumHeightVote { .. } => "SubmitEthereumHeightVote",
        }
    }

    /// The name of the message in the module's wire schema.
    pub fn message_name(&self) -> (name: &'static str)
        ensures
            name@ == self.spec_message_name(),
    {
        match self {
            SommGravity::SendToEthereum { .. } => "MsgSendToEthereum",
            SommGravity::CancelSendToEthereum { .. } => "MsgCancelSendToEthereum",
            SommGravity::RequestBatchTx { .. } => "MsgRequestBatchTx",
            SommGravity::SubmitEthereumTxConfirmation { .. } => "MsgSubmitEthereumTxConfirmation",
            SommGravity::ContractCallTxConfirmation { .. } => "ContractCallTxConfirmation",
            SommGravity::BatchTxConfirmation { .. } => "BatchTxConfirmation",
            SommGravity::SignerSetTxConfirmation { .. } => "SignerSetTxConfirmation",
            SommGravity::SubmitEthereumEvent { .. } => "MsgSubmitEthereumEvent",
            SommGravity::SetDelegateKeys { .. } => "MsgDelegateKeys",
            SommGravity::DelegateKeysSignMsg { .. } => "DelegateKeysSignMsg",
            SommGravity::SubmitEthereumHeightVote { .. } => "MsgEthereumHeightVote",
        }
    }

    /// The type URL under which the message travels.
    pub fn type_url(&self) -> (url: String)
        ensures
            url@ == self.spec_type_url(),
    {
        String::from_str("/gravity.v1.").concat(self.message_name())
    }

    /// Whether the action is one of the three confirmations.
    pub fn is_confirmation(&self) -> (yes: bool)
        ensures
            yes == self.spec_is_confirmation(),
    {
        match self {
            SommGravity::ContractCallTxConfirmation { .. } => true,
            SommGravity::BatchTxConfirmation { .. } => true,
            SommGravity::SignerSetTxConfirmation { .. } => true,
            _ => false,
        }
    }

    /// Puts what the codec made of the action's fields into the action's envelope, or its
    /// report into an error that names the message.
    pub fn envelope(&self, encoded: Result<Vec<u8>, String>) -> (out: Result<Any, EncodeError>)
        ensures
            any_result_view(out) == self.spec_envelope(encoded_view(encoded)),
    {
        match encoded {
            Ok(value) => Ok(Any { type_url: self.type_url(), value }),
            Err(detail) => Err(
                EncodeError::Serialization {
                    message_name: String::from_str(self.message_name()),
                    detail,
                },
            ),
        }
    }

    /// Refuses a confirmation as a transaction, by its variant alone.
    pub fn check_transaction_msg(&self) -> (out: Result<(), TransactionEligibilityError>)
        ensures
            match out {
                Ok(()) => !self.spec_is_confirmation(),
                Err(e) => self.spec_is_confirmation() && e@
                    == (TransactionEligibilityErrorView::NotATransactionMessage {
                    variant_name: self.spec_variant_name(),
                }),
            },
    {
        if self.is_confirmation() {
            Err(
                TransactionEligibilityError::NotATransactionMessage {
                    variant_name: String::from_str(self.variant_name()),
                },
            )
        } else {
            Ok(())
        }
    }

    /// The transaction that carries the action alone, given what the codec made of its
    /// fields. A confirmation is refused before `encoded` is looked at.
    pub fn transaction(&self, encoded: Result<Vec<u8>, String>) -> (out: Result<
        UnsignedTx,
        TransactionError,
    >)
        ensures
            tx_result_view(out) == self.spec_transaction(encoded_view(encoded)),
    {
        match self.check_transaction_msg() {
            Err(e) => Err(TransactionError::Eligibility(e)),
            Ok(()) => match self.envelope(encoded) {
                Err(e) => Err(TransactionError::Encode(e)),
                Ok(any) => {
                    let mut tx = UnsignedTx::new();
                    tx.add_msg(any);
                    Ok(tx)
                },
            },
        }
    }

    /// Converts the action into an [`Any`]: `codec` turns its fields into bytes, and the
    /// bytes travel under the type URL of its message. Every variant has an envelope, the
    /// confirmations too; the only failure is the codec's.
    pub fn into_any<F>(self, codec: F) -> (out: Result<Any, EncodeError>) where
        F: FnOnce(&SommGravity<'m>) -> Result<Vec<u8>, String>,

        requires
            call_requires(codec, (&self,)),
        ensures
            exists|encoded: Result<Vec<u8>, String>|
                call_ensures(codec, (&self,), encoded) && any_result_view(out)
                    == self.spec_envelope(encoded_view(encoded)),
    {
        let encoded = codec(&self);
        self.envelope(encoded)
    }

    /// Converts the action into an [`UnsignedTx`] that holds its message and no other. A
    /// confirmation is refused by its variant, before any encoding: nothing is asked of
    /// `codec` for one, so `codec` is not called for it.
    pub fn into_tx<F>(self, codec: F) -> (out: Result<UnsignedTx, TransactionError>) where
        F: FnOnce(&SommGravity<'m>) -> Result<Vec<u8>, String>,

        requires
            !self.spec_is_confirmation() ==> call_requires(codec, (&self,)),
        ensures
            self.spec_is_confirmation() ==> tx_result_view(out) == Err::<
                Seq<AnyView>,
                TransactionErrorView,
            >(
                TransactionErrorView::Eligibility(
                    TransactionEligibilityErrorView::NotATransactionMessage {
                        variant_name: self.spec_variant_name(),
                    },
                ),
            ),
            !self.spec_is_confirmation() ==> exists|encoded: Result<Vec<u8>, String>|
                call_ensures(codec, (&self,), encoded) && tx_result_view(out)
                    == self.spec_transaction(encoded_view(encoded)),
    {
        match self.check_transaction_msg() {
            Err(e) => Err(TransactionError::Eligibility(e)),
            Ok(()) => {
                let encoded = codec(&self);
                self.transaction(encoded)
            },
        }
    }
}

} // verus!
