use block_payload::btc_types::{
    GetBalanceError, GetBalanceRequest, GetCurrentFeePercentilesRequest, GetUtxosError,
    GetUtxosRequest, GetUtxosResponse, Network, NetworkInRequest, OutPoint,
    SendTransactionError, SendTransactionRequest, Utxo, UtxosFilter, UtxosFilterInRequest,
};
use block_payload::text::{byte_list_string, decimal_string};

#[test]
fn both_spellings_name_the_same_network() {
    assert_eq!(Network::from(NetworkInRequest::Mainnet), Network::Mainnet);
    assert_eq!(Network::from(NetworkInRequest::mainnet), Network::Mainnet);
    assert_eq!(Network::from(NetworkInRequest::Testnet), Network::Testnet);
    assert_eq!(Network::from(NetworkInRequest::testnet), Network::Testnet);
    assert_eq!(Network::from(NetworkInRequest::Regtest), Network::Regtest);
    assert_eq!(Network::from(NetworkInRequest::regtest), Network::Regtest);
}

#[test]
fn networks_are_written_in_lower_case() {
    assert_eq!(Network::Mainnet.to_string(), "mainnet");
    assert_eq!(Network::Testnet.to_string(), "testnet");
    assert_eq!(Network::Regtest.to_string(), "regtest");
    assert_eq!(NetworkInRequest::Mainnet.to_string(), "mainnet");
    assert_eq!(NetworkInRequest::mainnet.to_string(), "mainnet");
    assert_eq!(NetworkInRequest::Testnet.to_string(), "testnet");
    assert_eq!(NetworkInRequest::testnet.to_string(), "testnet");
    assert_eq!(NetworkInRequest::Regtest.to_string(), "regtest");
    assert_eq!(NetworkInRequest::regtest.to_string(), "regtest");
}

#[test]
fn both_spellings_name_the_same_filter() {
    assert_eq!(
        UtxosFilter::from(UtxosFilterInRequest::MinConfirmations(6)),
        UtxosFilter::MinConfirmations(6)
    );
    assert_eq!(
        UtxosFilter::from(UtxosFilterInRequest::min_confirmations(6)),
        UtxosFilter::MinConfirmations(6)
    );
    assert_eq!(UtxosFilter::from(UtxosFilterInRequest::Page(vec![1, 2])), UtxosFilter::Page(vec![1, 2]));
    assert_eq!(UtxosFilter::from(UtxosFilterInRequest::page(vec![3])), UtxosFilter::Page(vec![3]));
}

#[test]
fn get_utxos_errors_tell_what_went_wrong() {
    assert_eq!(GetUtxosError::MalformedAddress.to_string(), "Malformed address.");
    assert_eq!(
        GetUtxosError::MinConfirmationsTooLarge { given: 12, max: 6 }.to_string(),
        "The requested min_confirmations is too large. Given: 12, max supported: 6"
    );
    assert_eq!(
        GetUtxosError::MinConfirmationsTooLarge { given: u32::MAX, max: 0 }.to_string(),
        "The requested min_confirmations is too large. Given: 4294967295, max supported: 0"
    );
    assert_eq!(
        GetUtxosError::UnknownTipBlockHash { tip_block_hash: vec![1, 20, 255] }.to_string(),
        "The provided tip block hash [1, 20, 255] is unknown."
    );
    assert_eq!(
        GetUtxosError::UnknownTipBlockHash { tip_block_hash: vec![] }.to_string(),
        "The provided tip block hash [] is unknown."
    );
    assert_eq!(
        GetUtxosError::MalformedPage { err: "at byte 3".to_string() }.to_string(),
        "The provided page is malformed at byte 3"
    );
}

#[test]
fn get_balance_errors_tell_what_went_wrong() {
    assert_eq!(GetBalanceError::MalformedAddress.to_string(), "Malformed address.");
    assert_eq!(
        GetBalanceError::MinConfirmationsTooLarge { given: 100, max: 99 }.to_string(),
        "The requested min_confirmations is too large. Given: 100, max supported: 99"
    );
}

#[test]
fn send_transaction_errors_tell_what_went_wrong() {
    assert_eq!(
        SendTransactionError::MalformedTransaction.to_string(),
        "Can't deserialize transaction because it's malformed."
    );
    assert_eq!(
        SendTransactionError::QueueFull.to_string(),
        "Request can not be enqueued because the queue has reached its capacity. Please retry later."
    );
}

#[test]
fn requests_and_responses_hold_their_fields() {
    let outpoint = OutPoint { txid: vec![7; 32], vout: 1 };
    let utxo = Utxo { outpoint: outpoint.clone(), value: 5_000, height: 700_000 };
    let response = GetUtxosResponse {
        utxos: vec![utxo.clone()],
        tip_block_hash: vec![9; 32],
        tip_height: 700_010,
        next_page: None,
    };
    assert_eq!(response.utxos[0].outpoint, outpoint);
    assert_eq!(response.clone(), response);
    let request = GetUtxosRequest {
        address: "bc1q".to_string(),
        network: NetworkInRequest::mainnet,
        filter: Some(UtxosFilterInRequest::min_confirmations(2)),
    };
    assert_eq!(Network::from(request.network), Network::Mainnet);
    let balance = GetBalanceRequest {
        address: "bc1q".to_string(),
        network: NetworkInRequest::Testnet,
        min_confirmations: None,
    };
    assert_eq!(balance.min_confirmations, None);
    let fees = GetCurrentFeePercentilesRequest { network: NetworkInRequest::regtest };
    assert_eq!(Network::from(fees.network), Network::Regtest);
    let send = SendTransactionRequest { transaction: vec![1, 2, 3], network: NetworkInRequest::Regtest };
    assert_eq!(send.transaction.len(), 3);
}

#[test]
fn numbers_are_written_in_decimal() {
    assert_eq!(decimal_string(0), "0");
    assert_eq!(decimal_string(7), "7");
    assert_eq!(decimal_string(10), "10");
    assert_eq!(decimal_string(1_000_000), "1000000");
    assert_eq!(decimal_string(u64::MAX), "18446744073709551615");
    for n in [9u64, 11, 99, 100, 101, 12_345, 9_876_543_210] {
        assert_eq!(decimal_string(n), format!("{}", n));
    }
}

#[test]
fn byte_lists_are_written_in_brackets() {
    assert_eq!(byte_list_string(&vec![]), "[]");
    assert_eq!(byte_list_string(&vec![0]), "[0]");
    assert_eq!(byte_list_string(&vec![1, 2, 3]), "[1, 2, 3]");
    let bytes: Vec<u8> = (0..=255).collect();
    assert_eq!(byte_list_string(&bytes), format!("{:?}", bytes));
}
