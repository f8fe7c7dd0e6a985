//! Call inputs and outputs: the messages an external caller can submit, the
//! observed external balances a call may depend on, and the instructions a
//! call emits for the host to execute after it returns.

use vstd::prelude::*;
use crate::state::Coin;
use crate::state::Config;
use crate::state::BackerState;
use crate::state::Milestone;
use crate::state::ProjectState;

verus! {

/// The inputs of the initial call: each address optional, already validated by
/// the shell; an absent or invalid address falls back to a default.
#[derive(Debug)]
pub struct InstantiateMsg {
    pub admin: Option<String>,
    pub wefund: Option<String>,
    pub anchor_market: Option<String>,
    pub aust_token: Option<String>,
}

/// The caller of the current call and the funds attached to it.
#[derive(Debug)]
pub struct MessageInfo {
    pub sender: String,
    pub funds: Vec<Coin>,
}

/// The contract's balances as observed from the chain just before the call:
/// its native coins and its yield-token balance.
#[derive(Debug)]
pub struct ChainBalances {
    pub native: Vec<Coin>,
    pub aust_balance: u128,
}

/// Every mutating call.
#[derive(Debug)]
pub enum ExecuteMsg {
    SetConfig {
        admin: Option<String>,
        wefund: Option<String>,
        anchor_market: Option<String>,
        aust_token: Option<String>,
    },
    AddProject {
        project_name: String,
        project_createddate: String,
        project_description: String,
        project_teamdescription: String,
        project_category: String,
        project_subcategory: String,
        project_chain: String,
        project_collected: u128,
        project_deadline: String,
        project_website: String,
        project_icon: String,
        project_email: String,
        project_whitepaper: String,
        creator_wallet: String,
        project_milestones: Vec<Milestone>,
    },
    RemoveProject { project_id: u128 },
    Back2Project { project_id: u128, backer_wallet: String },
    CompleteProject { project_id: u128 },
    FailProject { project_id: u128 },
    TransferAllCoins { wallet: String },
    AddCommunitymember { wallet: String },
    RemoveCommunitymember { wallet: String },
    WeFundApprove { project_id: u128 },
    SetCommunityVote { project_id: u128, wallet: String, voted: bool },
    SetMilestoneVote { project_id: u128, wallet: String, voted: bool },
    ReleaseMilestone { project_id: u128 },
}

/// Every read-only call.
#[derive(Debug)]
pub enum QueryMsg {
    GetConfig {},
    GetAllProject {},
    GetProject { project_id: u128 },
    GetBacker { project_id: u128 },
    GetBalance { wallet: String },
    GetCommunitymembers {},
}

/// The answer to a read-only call, as plain values.
#[derive(Debug)]
pub enum QueryAnswer {
    ConfigAnswer(Config),
    AllProject(Vec<ProjectState>),
    Project(ProjectState),
    Backer(Vec<BackerState>),
    Balance(Vec<Coin>),
    Communitymembers(Vec<String>),
}

/// One external instruction emitted by a call; the host executes them in
/// order after the call returns.
#[derive(Debug)]
pub enum Instruction {
    /// Send native coins to an address.
    NativeSend { to_address: String, coins: Vec<Coin> },
    /// Deposit the attached fund into the money market.
    DepositStable { market: String, fund: Coin },
    /// Redeem the given amount of yield tokens for base currency.
    RedeemStable { aust_token: String, market: String, amount: u128 },
    /// Transfer yield tokens to a recipient.
    TokenTransfer { token: String, recipient: String, amount: u128 },
}

/// The successful outcome of a mutating call: the instructions it emits.
#[derive(Debug)]
pub struct Response {
    pub messages: Vec<Instruction>,
}

} // verus!
