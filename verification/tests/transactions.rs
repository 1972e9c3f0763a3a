use somm_gravity::envelope::{Any, UnsignedTx};
use somm_gravity::error::{EncodeError, TransactionEligibilityError, TransactionError};
use somm_gravity::message::{Coin, SommGravity};
use std::cell::Cell;

fn not_a_transaction(name: &str) -> TransactionError {
    TransactionError::Eligibility(TransactionEligibilityError::NotATransactionMessage {
        variant_name: name.to_string(),
    })
}

fn contract_call_confirmation() -> SommGravity<'static> {
    SommGravity::ContractCallTxConfirmation {
        invalidation_scope: vec![1, 2],
        invalidation_nonce: 7,
        ethereum_signer: "0xabc",
        signature: vec![0xAA],
    }
}

fn batch_confirmation(signature: Vec<u8>) -> SommGravity<'static> {
    SommGravity::BatchTxConfirmation {
        token_contract_address: "0xtoken",
        batch_nonce: 3,
        ethereum_signer: "0xabc",
        signature,
    }
}

fn signer_set_confirmation() -> SommGravity<'static> {
    SommGravity::SignerSetTxConfirmation {
        signer_set_nonce: 5,
        ethereum_signer: "0xabc",
        signature: vec![0xCC],
    }
}

/// The actions that a transaction can carry, each with the type URL it travels under.
fn transaction_messages() -> Vec<(SommGravity<'static>, &'static str)> {
    let any = Any { type_url: "/gravity.v1.BatchTxConfirmation".to_string(), value: vec![1] };
    vec![
        (
            SommGravity::SendToEthereum {
                sender: "somm1sender",
                ethereum_recipient: "0xdead",
                amount: Coin { denom: "usomm".to_string(), amount: 100 },
                bridge_fee: Coin { denom: "usomm".to_string(), amount: 1 },
            },
            "/gravity.v1.MsgSendToEthereum",
        ),
        (
            SommGravity::CancelSendToEthereum { sender: "somm1sender", id: 9 },
            "/gravity.v1.MsgCancelSendToEthereum",
        ),
        (
            SommGravity::RequestBatchTx { denom: "usomm", signer: "somm1signer" },
            "/gravity.v1.MsgRequestBatchTx",
        ),
        (
            SommGravity::SubmitEthereumTxConfirmation {
                confirmation: any.clone(),
                signer: "somm1signer",
            },
            "/gravity.v1.MsgSubmitEthereumTxConfirmation",
        ),
        (
            SommGravity::SubmitEthereumEvent { event: any, signer: "somm1signer" },
            "/gravity.v1.MsgSubmitEthereumEvent",
        ),
        (
            SommGravity::SetDelegateKeys {
                validator_address: "sommvaloper1",
                orchestrator_address: "somm1orch",
                ethereum_address: "0xeth",
                eth_signature: vec![0xDD],
            },
            "/gravity.v1.MsgDelegateKeys",
        ),
        (
            SommGravity::SubmitEthereumHeightVote { ethereum_height: 1234, signer: "somm1signer" },
            "/gravity.v1.MsgEthereumHeightVote",
        ),
    ]
}

#[test]
fn into_tx_holds_the_one_message() {
    for (action, url) in transaction_messages() {
        let tx = action.into_tx(|_| Ok(vec![10, 20, 30])).unwrap();
        assert_eq!(
            tx,
            UnsignedTx { messages: vec![Any { type_url: url.to_string(), value: vec![10, 20, 30] }] }
        );
    }
}

#[test]
fn into_tx_refuses_each_confirmation() {
    let cases = vec![
        (contract_call_confirmation(), "ContractCallTxConfirmation"),
        (batch_confirmation(vec![0xBB]), "BatchTxConfirmation"),
        (signer_set_confirmation(), "SignerSetTxConfirmation"),
    ];
    for (action, name) in cases {
        let err = action.into_tx(|_| Ok(vec![1])).unwrap_err();
        assert_eq!(err, not_a_transaction(name));
        assert_eq!(
            err.message(),
            format!(
                "{} does not represent a transaction Msg. use into_any() to get the Any representation",
                name
            )
        );
    }
}

#[test]
fn into_tx_refuses_a_confirmation_before_the_codec_runs() {
    let cases = vec![
        (contract_call_confirmation(), "ContractCallTxConfirmation"),
        (batch_confirmation(vec![0xBB]), "BatchTxConfirmation"),
        (signer_set_confirmation(), "SignerSetTxConfirmation"),
    ];
    for (action, name) in cases {
        let called = Cell::new(false);
        let err = action
            .into_tx(|_| {
                called.set(true);
                Err("the codec always fails".to_string())
            })
            .unwrap_err();
        assert_eq!(err, not_a_transaction(name));
        assert!(!called.get());
    }
}

#[test]
fn into_tx_calls_the_codec_once_for_a_transaction_message() {
    for (action, _) in transaction_messages() {
        let calls = Cell::new(0u32);
        let tx = action
            .into_tx(|_| {
                calls.set(calls.get() + 1);
                Ok(Vec::new())
            })
            .unwrap();
        assert_eq!(calls.get(), 1);
        assert_eq!(tx.messages.len(), 1);
    }
}

#[test]
fn batch_confirmation_is_refused_whatever_its_fields() {
    let empty = SommGravity::BatchTxConfirmation {
        token_contract_address: "",
        batch_nonce: 0,
        ethereum_signer: "",
        signature: Vec::new(),
    };
    assert_eq!(empty.into_tx(|_| Ok(vec![1])).unwrap_err(), not_a_transaction("BatchTxConfirmation"));
    let large = SommGravity::BatchTxConfirmation {
        token_contract_address: "0x0000000000000000000000000000000000000001",
        batch_nonce: u64::MAX,
        ethereum_signer: "0x0000000000000000000000000000000000000002",
        signature: vec![0xFF; 65],
    };
    assert_eq!(large.into_tx(|_| Ok(vec![1])).unwrap_err(), not_a_transaction("BatchTxConfirmation"));
    assert_eq!(
        batch_confirmation(Vec::new()).transaction(Err("no".to_string())).unwrap_err(),
        not_a_transaction("BatchTxConfirmation")
    );
}

#[test]
fn into_tx_surfaces_the_codec_failure() {
    for (action, url) in transaction_messages() {
        let err = action.into_tx(|_| Err("no room".to_string())).unwrap_err();
        let name = url.trim_start_matches("/gravity.v1.");
        assert_eq!(
            err,
            TransactionError::Encode(EncodeError::Serialization {
                message_name: name.to_string(),
                detail: "no room".to_string(),
            })
        );
        assert_eq!(err.message(), format!("failed to encode {}: no room", name));
    }
}

#[test]
fn delegate_keys_sign_msg_is_not_refused() {
    let action = SommGravity::DelegateKeysSignMsg { validator_address: "sommvaloper1", nonce: 11 };
    assert!(!action.is_confirmation());
    assert_eq!(action.check_transaction_msg(), Ok(()));
    let tx = action.into_tx(|_| Ok(vec![5])).unwrap();
    assert_eq!(
        tx.messages,
        vec![Any { type_url: "/gravity.v1.DelegateKeysSignMsg".to_string(), value: vec![5] }]
    );
}

#[test]
fn check_transaction_msg_goes_by_the_variant() {
    for (action, _) in transaction_messages() {
        assert_eq!(action.check_transaction_msg(), Ok(()));
    }
    assert_eq!(
        signer_set_confirmation().check_transaction_msg(),
        Err(TransactionEligibilityError::NotATransactionMessage {
            variant_name: "SignerSetTxConfirmation".to_string(),
        })
    );
}

#[test]
fn transaction_agrees_with_into_tx() {
    for (action, _) in transaction_messages() {
        let direct = action.transaction(Ok(vec![7, 7]));
        let through_codec = action.into_tx(|_| Ok(vec![7, 7]));
        assert_eq!(direct, through_codec);
    }
    let direct = contract_call_confirmation().transaction(Ok(vec![7, 7]));
    let through_codec = contract_call_confirmation().into_tx(|_| Ok(vec![7, 7]));
    assert_eq!(direct, through_codec);
}

#[test]
fn unsigned_tx_keeps_the_order_of_its_messages() {
    let first = Any { type_url: "/gravity.v1.MsgRequestBatchTx".to_string(), value: vec![1] };
    let second = Any { type_url: "/gravity.v1.MsgDelegateKeys".to_string(), value: vec![2] };
    let mut tx = UnsignedTx::new();
    assert!(tx.messages.is_empty());
    tx.add_msg(first.clone());
    tx.add_msg(second.clone());
    assert_eq!(tx.messages, vec![first, second]);
}
