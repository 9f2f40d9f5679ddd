use vstd::prelude::*;

use crate::response::{Coin, CoinView};
use crate::state::ConfigView;

verus! {

/// What the contract is instantiated with.
#[derive(Debug)]
pub struct InstantiateMsg {
    /// Admin address (governance module: can pause/resume and withdraw)
    pub admin: String,
    /// Recipient address (receives GNK when tranches are released)
    pub recipient: String,
}

/// The calls that change the contract.
#[derive(Debug)]
pub enum ExecuteMsg {
    /// Release GNK for a tranche whose unlock_time has passed
    ReleaseTranche { tranche_id: u32 },
    /// Admin: pause the contract
    Pause {},
    /// Admin: resume the contract
    Resume {},
    /// Admin: update the recipient address
    UpdateRecipient { recipient: String },
    /// Admin: withdraw native tokens from the contract
    WithdrawNativeTokens { amount: u128, recipient: String },
    /// Admin: emergency withdraw of all funds
    EmergencyWithdraw { recipient: String },
}

/// The calls that read the contract.
#[derive(Clone, Copy, Debug, PartialEq, Eq, Structural)]
pub enum QueryMsg {
    /// Get the contract configuration
    Config {},
    /// Get a single tranche by id
    Tranche { tranche_id: u32 },
    /// Get all 4 tranches
    AllTranches {},
    /// Get the contract's native token balance
    NativeBalance {},
}

/// The answer to `QueryMsg::Config`.
#[derive(Debug)]
pub struct ConfigResponse {
    pub admin: String,
    pub recipient: String,
    pub native_denom: String,
    pub is_paused: bool,
    pub start_time: u64,
}

impl View for ConfigResponse {
    type V = ConfigView;

    open spec fn view(&self) -> ConfigView {
        ConfigView {
            admin: self.admin@,
            recipient: self.recipient@,
            native_denom: self.native_denom@,
            is_paused: self.is_paused,
            start_time: self.start_time,
        }
    }
}

/// The answer to `QueryMsg::Tranche`, and one entry of `AllTranchesResponse`.
#[derive(Clone, Copy, Debug, PartialEq, Eq, Structural)]
pub struct TrancheResponse {
    pub id: u32,
    pub gnk_amount: u128,
    pub unlock_time: u64,
    pub released: bool,
}

/// The answer to `QueryMsg::AllTranches`.
#[derive(Debug)]
pub struct AllTranchesResponse {
    pub tranches: Vec<TrancheResponse>,
}

/// The answer to `QueryMsg::NativeBalance`.
#[derive(Debug)]
pub struct NativeBalanceResponse {
    pub balance: Coin,
}

/// Any answer to a query.
#[derive(Debug)]
pub enum QueryResponse {
    Config(ConfigResponse),
    Tranche(TrancheResponse),
    AllTranches(AllTranchesResponse),
    NativeBalance(NativeBalanceResponse),
}

/// An answer to a query as a mathematical value.
pub enum QueryResponseView {
    Config(ConfigView),
    Tranche(TrancheResponse),
    AllTranches(Seq<TrancheResponse>),
    NativeBalance(CoinView),
}

impl View for QueryResponse {
    type V = QueryResponseView;

    open spec fn view(&self) -> QueryResponseView {
        match self {
            QueryResponse::Config(c) => QueryResponseView::Config(c@),
            QueryResponse::Tranche(t) => QueryResponseView::Tranche(*t),
            QueryResponse::AllTranches(a) => QueryResponseView::AllTranches(a.tranches@),
            QueryResponse::NativeBalance(b) => QueryResponseView::NativeBalance(b.balance@),
        }
    }
}

} // verus!
