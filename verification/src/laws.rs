//! What holds of every action, whatever its fields and whatever the codec makes of them.
use crate::envelope::AnyView;
use crate::error::{EncodeErrorView, TransactionEligibilityErrorView, TransactionErrorView};
use crate::message::SommGravity;
use vstd::prelude::*;

verus! {

/// Every action has an envelope once the codec has produced bytes: the bytes as they came,
/// under the type URL of the action's message. The confirmations are no exception.
pub proof fn lemma_every_action_has_an_envelope(action: SommGravity, payload: Seq<u8>)
    ensures
        action.spec_envelope(Ok(payload)) == Ok::<AnyView, EncodeErrorView>(
            AnyView { type_url: action.spec_type_url(), value: payload },
        ),
{
}

/// An action is without envelope only where the codec failed, and the error then holds the
/// codec's report unchanged beside the name of the message.
pub proof fn lemma_envelope_fails_with_the_codec_only(
    action: SommGravity,
    encoded: Result<Seq<u8>, Seq<char>>,
)
    ensures
        action.spec_envelope(encoded) is Err <==> encoded is Err,
        encoded matches Err(detail) ==> action.spec_envelope(encoded) == Err::<
            AnyView,
            EncodeErrorView,
        >(EncodeErrorView::Serialization { message_name: action.spec_message_name(), detail }),
{
}

/// An action that is no confirmation becomes a transaction of exactly one message as soon as
/// the codec has produced bytes, and that message is the action's envelope.
pub proof fn lemma_action_becomes_single_message_transaction(
    action: SommGravity,
    payload: Seq<u8>,
)
    requires
        !action.spec_is_confirmation(),
    ensures
        action.spec_transaction(Ok(payload)) == Ok::<Seq<AnyView>, TransactionErrorView>(
            seq![AnyView { type_url: action.spec_type_url(), value: payload }],
        ),
{
}

/// A confirmation is never a transaction. The error names its variant, and it is the same
/// whether the codec would have produced bytes or failed.
pub proof fn lemma_confirmation_is_never_a_transaction(
    action: SommGravity,
    encoded: Result<Seq<u8>, Seq<char>>,
)
    requires
        action.spec_is_confirmation(),
    ensures
        action.spec_transaction(encoded) == Err::<Seq<AnyView>, TransactionErrorView>(
            TransactionErrorView::Eligibility(
                TransactionEligibilityErrorView::NotATransactionMessage {
                    variant_name: action.spec_variant_name(),
                },
            ),
        ),
{
}

/// A batch confirmation is refused as a transaction whatever its fields hold, an empty
/// signature included.
pub proof fn lemma_batch_confirmation_is_refused(
    token_contract_address: &str,
    batch_nonce: u64,
    ethereum_signer: &str,
    signature: Vec<u8>,
    encoded: Result<Seq<u8>, Seq<char>>,
)
    ensures
        (SommGravity::BatchTxConfirmation {
            token_contract_address,
            batch_nonce,
            ethereum_signer,
            signature,
        }).spec_transaction(encoded) == Err::<Seq<AnyView>, TransactionErrorView>(
            TransactionErrorView::Eligibility(
                TransactionEligibilityErrorView::NotATransactionMessage {
                    variant_name: "BatchTxConfirmation"@,
                },
            ),
        ),
{
}

/// The type URL of each variant, written out.
pub proof fn lemma_type_url_of_each_variant(action: SommGravity)
    ensures
        action.spec_type_url() == match action {
            SommGravity::SendToEthereum { .. } => "/gravity.v1.MsgSendToEthereum"@,
            SommGravity::CancelSendToEthereum { .. } => "/gravity.v1.MsgCancelSendToEthereum"@,
            SommGravity::RequestBatchTx { .. } => "/gravity.v1.MsgRequestBatchTx"@,
            SommGravity::SubmitEthereumTxConfirmation { .. } =>
                "/gravity.v1.MsgSubmitEthereumTxConfirmation"@,
            SommGravity::ContractCallTxConfirmation { .. } =>
                "/gravity.v1.ContractCallTxConfirmation"@,
            SommGravity::BatchTxConfirmation { .. } => "/gravity.v1.BatchTxConfirmation"@,
            SommGravity::SignerSetTxConfirmation { .. } => "/gravity.v1.SignerSetTxConfirmation"@,
            SommGravity::SubmitEthereumEvent { .. } => "/gravity.v1.MsgSubmitEthereumEvent"@,
            SommGravity::SetDelegateKeys { .. } => "/gravity.v1.MsgDelegateKeys"@,
            SommGravity::DelegateKeysSignMsg { .. } => "/gravity.v1.DelegateKeysSignMsg"@,
            SommGravity::SubmitEthereumHeightVote { .. } => "/gravity.v1.MsgEthereumHeightVote"@,
        },
{
    reveal_strlit("/gravity.v1.");
    match action {
        SommGravity::SendToEthereum { .. } => {
            reveal_strlit("MsgSendToEthereum");
            reveal_strlit("/gravity.v1.MsgSendToEthereum");
            assert(action.spec_type_url() =~= "/gravity.v1.MsgSendToEthereum"@);
        },
        SommGravity::CancelSendToEthereum { .. } => {
            reveal_strlit("MsgCancelSendToEthereum");
            reveal_strlit("/gravity.v1.MsgCancelSendToEthereum");
            assert(action.spec_type_url() =~= "/gravity.v1.MsgCancelSendToEthereum"@);
        },
        SommGravity::RequestBatchTx { .. } => {
            reveal_strlit("MsgRequestBatchTx");
            reveal_strlit("/gravity.v1.MsgRequestBatchTx");
            assert(action.spec_type_url() =~= "/gravity.v1.MsgRequestBatchTx"@);
        },
        SommGravity::SubmitEthereumTxConfirmation { .. } => {
            reveal_strlit("MsgSubmitEthereumTxConfirmation");
            reveal_strlit("/gravity.v1.MsgSubmitEthereumTxConfirmation");
            assert(action.spec_type_url() =~= "/gravity.v1.MsgSubmitEthereumTxConfirmation"@);
        },
        SommGravity::ContractCallTxConfirmation { .. } => {
            reveal_strlit("ContractCallTxConfirmation");
            reveal_strlit("/gravity.v1.ContractCallTxConfirmation");
            assert(action.spec_type_url() =~= "/gravity.v1.ContractCallTxConfirmation"@);
        },
        SommGravity::BatchTxConfirmation { .. } => {
            reveal_strlit("BatchTxConfirmation");
            reveal_strlit("/gravity.v1.BatchTxConfirmation");
            assert(action.spec_type_url() =~= "/gravity.v1.BatchTxConfirmation"@);
        },
        SommGravity::SignerSetTxConfirmation { .. } => {
            reveal_strlit("SignerSetTxConfirmation");
            reveal_strlit("/gravity.v1.SignerSetTxConfirmation");
            assert(action.spec_type_url() =~= "/gravity.v1.SignerSetTxConfirmation"@);
        },
        SommGravity::SubmitEthereumEvent { .. } => {
            reveal_strlit("MsgSubmitEthereumEvent");
            reveal_strlit("/gravity.v1.MsgSubmitEthereumEvent");
            assert(action.spec_type_url() =~= "/gravity.v1.MsgSubmitEthereumEvent"@);
        },
        SommGravity::SetDelegateKeys { .. } => {
            reveal_strlit("MsgDelegateKeys");
            reveal_strlit("/gravity.v1.MsgDelegateKeys");
            assert(action.spec_type_url() =~= "/gravity.v1.MsgDelegateKeys"@);
        },
        SommGravity::DelegateKeysSignMsg { .. } => {
            reveal_strlit("DelegateKeysSignMsg");
            reveal_strlit("/gravity.v1.DelegateKeysSignMsg");
            assert(action.spec_type_url() =~= "/gravity.v1.DelegateKeysSignMsg"@);
        },
        SommGravity::SubmitEthereumHeightVote { .. } => {
            reveal_strlit("MsgEthereumHeightVote");
            reveal_strlit("/gravity.v1.MsgEthereumHeightVote");
            assert(action.spec_type_url() =~= "/gravity.v1.MsgEthereumHeightVote"@);
        },
    }
}

/// The type URL names the variant: two actions that travel under one type URL are of one
/// variant.
pub proof fn lemma_type_url_names_the_variant(a: SommGravity, b: SommGravity)
    requires
        a.spec_type_url() == b.spec_type_url(),
    ensures
        a.spec_same_variant(&b),
{
    reveal_strlit("/gravity.v1.");
    reveal_strlit("MsgSendToEthereum");
    reveal_strlit("MsgCancelSendToEthereum");
    reveal_strlit("MsgRequestBatchTx");
    reveal_strlit("MsgSubmitEthereumTxConfirmation");
    reveal_strlit("ContractCallTxConfirmation");
    reveal_strlit("BatchTxConfirmation");
    reveal_strlit("SignerSetTxConfirmation");
    reveal_strlit("MsgSubmitEthereumEvent");
    reveal_strlit("MsgDelegateKeys");
    reveal_strlit("DelegateKeysSignMsg");
    reveal_strlit("MsgEthereumHeightVote");
    let prefix = "/gravity.v1."@;
    let x = a.spec_message_name();
    let y = b.spec_message_name();
    assert((prefix + x).len() == 12 + x.len());
    assert((prefix + y).len() == 12 + y.len());
    assert((prefix + x)[12] == x[0]);
    assert((prefix + y)[12] == y[0]);
    assert((prefix + x)[15] == x[3]);
    assert((prefix + y)[15] == y[3]);
}

/// A confirmation inside a `SubmitEthereumTxConfirmation` does not lend it its type URL: the
/// carrier's envelope travels under the carrier's own type URL, and the carrier is a
/// transaction of that one message.
pub proof fn lemma_carrier_travels_under_its_own_type_url(
    confirmation: SommGravity,
    inner_payload: Seq<u8>,
    carrier: SommGravity,
    outer_payload: Seq<u8>,
)
    requires
        confirmation.spec_is_confirmation(),
        carrier matches SommGravity::SubmitEthereumTxConfirmation { confirmation: inner, .. }
            && Ok::<AnyView, EncodeErrorView>(inner@) == confirmation.spec_envelope(
            Ok(inner_payload),
        ),
    ensures
        carrier.spec_envelope(Ok(outer_payload)) == Ok::<AnyView, EncodeErrorView>(
            AnyView {
                type_url: "/gravity.v1.MsgSubmitEthereumTxConfirmation"@,
                value: outer_payload,
            },
        ),
        carrier.spec_type_url() != confirmation.spec_type_url(),
        carrier.spec_transaction(Ok(outer_payload)) == Ok::<Seq<AnyView>, TransactionErrorView>(
            seq![
                AnyView {
                    type_url: "/gravity.v1.MsgSubmitEthereumTxConfirmation"@,
                    value: outer_payload,
                },
            ],
        ),
{
    lemma_type_url_of_each_variant(carrier);
    if carrier.spec_type_url() == confirmation.spec_type_url() {
        lemma_type_url_names_the_variant(carrier, confirmation);
    }
}

} // verus!
