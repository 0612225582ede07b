//! Requests, responses and errors of the Bitcoin interface.

use vstd::prelude::*;
use vstd::string::StringExecFns;
use crate::text::{byte_list, byte_list_string, decimal, decimal_string};

verus! {

/// A Bitcoin address, in its textual form.
pub type Address = String;

/// An amount of bitcoin, in satoshi.
pub type Satoshi = u64;

/// A fee rate, in thousandths of a satoshi per byte.
pub type MillisatoshiPerByte = u64;

/// The hash of a block.
pub type BlockHash = Vec<u8>;

/// The height of a block in the Bitcoin chain.
pub type Height = u32;

/// An opaque marker of where the next page of a response starts.
pub type Page = Vec<u8>;

/// The Bitcoin network that a request refers to.
#[derive(Clone, Copy, Debug, PartialEq, Eq, Structural, Hash)]
pub enum Network {
    Mainnet,
    Testnet,
    Regtest,
}

/// A network as it is written in a request: the capitalised and the lower-case
/// spelling of each network are both accepted.
#[derive(Clone, Copy, Debug, PartialEq, Eq, Structural, Hash)]
pub enum NetworkInRequest {
    Mainnet,
    #[allow(non_camel_case_types)]
    mainnet,
    Testnet,
    #[allow(non_camel_case_types)]
    testnet,
    Regtest,
    #[allow(non_camel_case_types)]
    regtest,
}

impl NetworkInRequest {
    /// The network that this spelling names.
    pub open spec fn network(self) -> Network {
        match self {
            NetworkInRequest::Mainnet | NetworkInRequest::mainnet => Network::Mainnet,
            NetworkInRequest::Testnet | NetworkInRequest::testnet => Network::Testnet,
            NetworkInRequest::Regtest | NetworkInRequest::regtest => Network::Regtest,
        }
    }
}

impl From<NetworkInRequest> for Network {
    fn from(network: NetworkInRequest) -> (n: Network) {
        match network {
            NetworkInRequest::Mainnet => Network::Mainnet,
            NetworkInRequest::mainnet => Network::Mainnet,
            NetworkInRequest::Testnet => Network::Testnet,
            NetworkInRequest::testnet => Network::Testnet,
            NetworkInRequest::Regtest => Network::Regtest,
            NetworkInRequest::regtest => Network::Regtest,
        }
    }
}

impl vstd::std_specs::convert::FromSpecImpl<NetworkInRequest> for Network {
    open spec fn obeys_from_spec() -> bool {
        true
    }

    open spec fn from_spec(network: NetworkInRequest) -> Network {
        network.network()
    }
}

/// A reference to a transaction output.
#[derive(Clone, Debug, PartialEq, Eq, Hash)]
pub struct OutPoint {
    pub txid: Vec<u8>,
    pub vout: u32,
}

/// An unspent transaction output.
#[derive(Clone, Debug, PartialEq, Eq, Hash)]
pub struct Utxo {
    pub outpoint: OutPoint,
    pub value: Satoshi,
    pub height: u32,
}

/// A filter used when requesting UTXOs.
#[derive(Debug, PartialEq)]
pub enum UtxosFilter {
    MinConfirmations(u32),
    Page(Page),
}

/// A filter as it is written in a request: the capitalised and the lower-case
/// spelling of each filter are both accepted.
#[derive(Debug, PartialEq)]
pub enum UtxosFilterInRequest {
    MinConfirmations(u32),
    #[allow(non_camel_case_types)]
    min_confirmations(u32),
    Page(Page),
    #[allow(non_camel_case_types)]
    page(Page),
}

impl UtxosFilterInRequest {
    /// The filter that this spelling names.
    pub open spec fn filter(self) -> UtxosFilter {
        match self {
            UtxosFilterInRequest::MinConfirmations(x) => UtxosFilter::MinConfirmations(x),
            UtxosFilterInRequest::min_confirmations(x) => UtxosFilter::MinConfirmations(x),
            UtxosFilterInRequest::Page(p) => UtxosFilter::Page(p),
            UtxosFilterInRequest::page(p) => UtxosFilter::Page(p),
        }
    }
}

impl From<UtxosFilterInRequest> for UtxosFilter {
    fn from(filter: UtxosFilterInRequest) -> (f: UtxosFilter) {
        match filter {
            UtxosFilterInRequest::MinConfirmations(x) => UtxosFilter::MinConfirmations(x),
            UtxosFilterInRequest::min_confirmations(x) => UtxosFilter::MinConfirmations(x),
            UtxosFilterInRequest::Page(p) => UtxosFilter::Page(p),
            UtxosFilterInRequest::page(p) => UtxosFilter::Page(p),
        }
    }
}

impl vstd::std_specs::convert::FromSpecImpl<UtxosFilterInRequest> for UtxosFilter {
    open spec fn obeys_from_spec() -> bool {
        true
    }

    open spec fn from_spec(filter: UtxosFilterInRequest) -> UtxosFilter {
        filter.filter()
    }
}

/// A request for getting the UTXOs for a given address.
#[derive(Debug, PartialEq)]
pub struct GetUtxosRequest {
    pub address: Address,
    pub network: NetworkInRequest,
    pub filter: Option<UtxosFilterInRequest>,
}

/// The response returned for a request to get the UTXOs of a given address.
#[derive(Clone, Debug, PartialEq)]
pub struct GetUtxosResponse {
    pub utxos: Vec<Utxo>,
    pub tip_block_hash: BlockHash,
    pub tip_height: u32,
    pub next_page: Option<Page>,
}

/// Errors when processing a `get_utxos` request.
#[derive(Clone, Debug, PartialEq)]
pub enum GetUtxosError {
    MalformedAddress,
    MinConfirmationsTooLarge { given: u32, max: u32 },
    UnknownTipBlockHash { tip_block_hash: BlockHash },
    MalformedPage { err: String },
}

/// A request for getting the current fee percentiles.
#[derive(Debug, PartialEq)]
pub struct GetCurrentFeePercentilesRequest {
    pub network: NetworkInRequest,
}

/// A request for getting the balance of a given address.
#[derive(Debug, PartialEq)]
pub struct GetBalanceRequest {
    pub address: Address,
    pub network: NetworkInRequest,
    pub min_confirmations: Option<u32>,
}

/// Errors when processing a `get_balance` request.
#[derive(Clone, Debug, PartialEq)]
pub enum GetBalanceError {
    MalformedAddress,
    MinConfirmationsTooLarge { given: u32, max: u32 },
}

/// A request to send a transaction to the network.
#[derive(Debug, PartialEq)]
pub struct SendTransactionRequest {
    pub transaction: Vec<u8>,
    pub network: NetworkInRequest,
}

/// Errors when processing a `send_transaction` request.
#[derive(Clone, Debug, PartialEq)]
pub enum SendTransactionError {
    /// The transaction cannot be decoded.
    MalformedTransaction,
    /// The queue to the Bitcoin adapter is full.
    QueueFull,
}

/// The text that tells that a number of confirmations is too large.
pub open spec fn min_confirmations_too_large_text(given: u32, max: u32) -> Seq<char> {
    "The requested min_confirmations is too large. Given: "@ + decimal(given as nat)
        + ", max supported: "@ + decimal(max as nat)
}

/// Writes the text that tells that a number of confirmations is too large.
fn min_confirmations_too_large_string(given: u32, max: u32) -> (text: String)
    ensures
        text@ == min_confirmations_too_large_text(given, max),
{
    let mut text = String::from_str("The requested min_confirmations is too large. Given: ");
    text.append(decimal_string(given as u64).as_str());
    text.append(", max supported: ");
    text.append(decimal_string(max as u64).as_str());
    text
}

impl Network {
    /// The name of the network, in lower case.
    pub open spec fn text(self) -> Seq<char> {
        match self {
            Network::Mainnet => "mainnet"@,
            Network::Testnet => "testnet"@,
            Network::Regtest => "regtest"@,
        }
    }

    /// The name of the network, in lower case.
    pub fn to_string(&self) -> (text: String)
        ensures
            text@ == self.text(),
    {
        match self {
            Network::Mainnet => String::from_str("mainnet"),
            Network::Testnet => String::from_str("testnet"),
            Network::Regtest => String::from_str("regtest"),
        }
    }
}

impl NetworkInRequest {
    /// The name of the network, in lower case whatever the spelling.
    pub fn to_string(&self) -> (text: String)
        ensures
            text@ == self.network().text(),
    {
        match self {
            NetworkInRequest::Mainnet => String::from_str("mainnet"),
            NetworkInRequest::Testnet => String::from_str("testnet"),
            NetworkInRequest::Regtest => String::from_str("regtest"),
            NetworkInRequest::mainnet => String::from_str("mainnet"),
            NetworkInRequest::testnet => String::from_str("testnet"),
            NetworkInRequest::regtest => String::from_str("regtest"),
        }
    }
}

impl GetUtxosError {
    /// What the error tells its reader.
    pub open spec fn text(self) -> Seq<char> {
        match self {
            GetUtxosError::MalformedAddress => "Malformed address."@,
            GetUtxosError::MinConfirmationsTooLarge { given, max } => {
                min_confirmations_too_large_text(given, max)
            },
            GetUtxosError::UnknownTipBlockHash { tip_block_hash } => {
                "The provided tip block hash "@ + byte_list(tip_block_hash@) + " is unknown."@
            },
            GetUtxosError::MalformedPage { err } => "The provided page is malformed "@ + err@,
        }
    }

    /// What the error tells its reader.
    pub fn to_string(&self) -> (text: String)
        ensures
            text@ == self.text(),
    {
        match self {
            GetUtxosError::MalformedAddress => String::from_str("Malformed address."),
            GetUtxosError::MinConfirmationsTooLarge { given, max } => {
                min_confirmations_too_large_string(*given, *max)
            },
            GetUtxosError::UnknownTipBlockHash { tip_block_hash } => {
                let mut text = String::from_str("The provided tip block hash ");
                text.append(byte_list_string(tip_block_hash).as_str());
                text.append(" is unknown.");
                text
            },
            GetUtxosError::MalformedPage { err } => {
                let mut text = String::from_str("The provided page is malformed ");
                text.append(err.as_str());
                text
            },
        }
    }
}

impl GetBalanceError {
    /// What the error tells its reader.
    pub open spec fn text(self) -> Seq<char> {
        match self {
            GetBalanceError::MalformedAddress => "Malformed address."@,
            GetBalanceError::MinConfirmationsTooLarge { given, max } => {
                min_confirmations_too_large_text(given, max)
            },
        }
    }

    /// What the error tells its reader.
    pub fn to_string(&self) -> (text: String)
        ensures
            text@ == self.text(),
    {
        match self {
            GetBalanceError::MalformedAddress => String::from_str("Malformed address."),
            GetBalanceError::MinConfirmationsTooLarge { given, max } => {
                min_confirmations_too_large_string(*given, *max)
            },
        }
    }
}

impl SendTransactionError {
    /// What the error tells its reader.
    pub open spec fn text(self) -> Seq<char> {
        match self {
            SendTransactionError::MalformedTransaction => {
                "Can't deserialize transaction because it's malformed."@
            },
            SendTransactionError::QueueFull => {
                "Request can not be enqueued because the queue has reached its capacity. Please retry later."@
            },
        }
    }

    /// What the error tells its reader.
    pub fn to_string(&self) -> (text: String)
        ensures
            text@ == self.text(),
    {
        match self {
            SendTransactionError::MalformedTransaction => String::from_str(
                "Can't deserialize transaction because it's malformed.",
            ),
            SendTransactionError::QueueFull => String::from_str(
                "Request can not be enqueued because the queue has reached its capacity. Please retry later.",
            ),
        }
    }
}

} // verus!
