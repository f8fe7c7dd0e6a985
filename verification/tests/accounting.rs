use wefund::contract::{execute, instantiate};
use wefund::error::ContractError;
use wefund::msg::{ChainBalances, ExecuteMsg, InstantiateMsg, MessageInfo, Instruction};
use wefund::state::{BackerState, Coin, Ledger, Milestone, MilestoneStatus, ProjectState, ProjectStatus};

fn s(x: &str) -> String {
    x.to_string()
}

fn info(sender: &str, funds: Vec<Coin>) -> MessageInfo {
    MessageInfo { sender: s(sender), funds }
}

fn no_balances() -> ChainBalances {
    ChainBalances { native: Vec::new(), aust_balance: 0 }
}

fn base_ledger() -> Ledger {
    let msg = InstantiateMsg {
        admin: Some(s("admin")),
        wefund: Some(s("wefund")),
        anchor_market: Some(s("market")),
        aust_token: Some(s("aust_token")),
    };
    instantiate(msg, info("admin", Vec::new()))
}

fn project(id: u128, goal: u128, status: ProjectStatus) -> ProjectState {
    ProjectState {
        project_name: s("demo"),
        project_createddate: s("20211223"),
        project_description: s(""),
        project_teamdescription: s(""),
        project_category: s(""),
        project_subcategory: s(""),
        project_chain: s(""),
        project_deadline: s(""),
        project_website: s(""),
        project_icon: s(""),
        project_email: s(""),
        project_whitepaper: s(""),
        project_id: id,
        creator_wallet: s("creator"),
        project_collected: goal,
        project_status: status,
        backerbacked_amount: 0,
        communitybacked_amount: 0,
        backer_states: Vec::new(),
        communitybacker_states: Vec::new(),
        milestone_states: Vec::new(),
        project_milestonestep: 0,
        community_votes: Vec::new(),
        teammember_states: Vec::new(),
        vesting: Vec::new(),
    }
}

fn backer(wallet: &str, amount: u128) -> BackerState {
    BackerState {
        backer_wallet: s(wallet),
        ust_amount: Coin { denom: s("uusd"), amount },
        aust_amount: Coin { denom: s("aust"), amount: 0 },
    }
}

fn milestone(step: u128, name: &str) -> Milestone {
    Milestone {
        milestone_step: step,
        milestone_name: s(name),
        milestone_description: s(""),
        milestone_startdate: s(""),
        milestone_enddate: s(""),
        milestone_amount: 100,
        milestone_status: MilestoneStatus::Voting,
        milestone_votes: Vec::new(),
    }
}

fn back(ledger: &mut Ledger, who: &str, amount: u128) -> Result<wefund::msg::Response, ContractError> {
    let funds = vec![Coin { denom: s("uusd"), amount }];
    let msg = ExecuteMsg::Back2Project { project_id: 1, backer_wallet: s(who) };
    execute(ledger, info(who, funds), &no_balances(), msg)
}

#[test]
fn fee_split_below_threshold() {
    let mut ledger = base_ledger();
    ledger.projects = vec![project(1, 300, ProjectStatus::Fundraising)];
    ledger.project_seq = 1;
    // 99 units: flat branch, net = amount - 5 units, fee = 1 unit
    let res = back(&mut ledger, "backer1", 99000000).unwrap();
    match &res.messages[0] {
        Instruction::DepositStable { fund, market } => {
            assert_eq!(market, "market");
            assert_eq!(fund.amount, 94000000);
            assert_eq!(fund.denom, "uusd");
        },
        other => panic!("unexpected instruction {:?}", other),
    }
    match &res.messages[1] {
        Instruction::NativeSend { to_address, coins } => {
            assert_eq!(to_address, "wefund");
            assert_eq!(coins.len(), 1);
            assert_eq!(coins[0].amount, 1000000);
        },
        other => panic!("unexpected instruction {:?}", other),
    }
    assert_eq!(ledger.projects[0].backerbacked_amount, 94000000);
    assert_eq!(ledger.projects[0].backer_states.len(), 1);
    assert_eq!(ledger.projects[0].backer_states[0].ust_amount.amount, 94000000);
}

#[test]
fn fee_split_at_threshold() {
    let mut ledger = base_ledger();
    ledger.projects = vec![project(1, 300, ProjectStatus::Fundraising)];
    ledger.project_seq = 1;
    // 100 units: proportional branch, net = amount * 100 / 105 truncated,
    // fee = amount * 5 / 105 - transfer cost, both truncated
    let res = back(&mut ledger, "backer1", 100000000).unwrap();
    match &res.messages[0] {
        Instruction::DepositStable { fund, .. } => assert_eq!(fund.amount, 95238095),
        other => panic!("unexpected instruction {:?}", other),
    }
    match &res.messages[1] {
        Instruction::NativeSend { coins, .. } => assert_eq!(coins[0].amount, 761904),
        other => panic!("unexpected instruction {:?}", other),
    }
    assert_eq!(ledger.projects[0].backerbacked_amount, 95238095);
}

#[test]
fn minimum_backing_enforced() {
    let mut ledger = base_ledger();
    ledger.projects = vec![project(1, 300, ProjectStatus::Fundraising)];
    ledger.project_seq = 1;
    let res = back(&mut ledger, "backer1", 5999999);
    assert_eq!(res.unwrap_err(), ContractError::InsufficientFunds);
    // and with nothing attached at all
    let msg = ExecuteMsg::Back2Project { project_id: 1, backer_wallet: s("backer1") };
    let res = execute(&mut ledger, info("backer1", Vec::new()), &no_balances(), msg);
    assert_eq!(res.unwrap_err(), ContractError::InsufficientFunds);
    assert_eq!(ledger.projects[0].backer_states.len(), 0);
}

#[test]
fn pool_cap_rejects_when_met() {
    let mut ledger = base_ledger();
    let mut p = project(1, 300, ProjectStatus::Fundraising);
    // backer pool already at its cap of 150 units
    p.backer_states = vec![backer("early", 150000000)];
    p.backerbacked_amount = 150000000;
    ledger.projects = vec![p];
    ledger.project_seq = 1;
    let res = back(&mut ledger, "late", 10000000);
    assert_eq!(res.unwrap_err(), ContractError::AlreadyCollected);
    assert_eq!(ledger.projects[0].backer_states.len(), 1);
    assert_eq!(ledger.projects[0].backerbacked_amount, 150000000);
}

#[test]
fn community_member_fills_community_pool() {
    let mut ledger = base_ledger();
    ledger.community = vec![s("member1")];
    ledger.projects = vec![project(1, 300, ProjectStatus::Fundraising)];
    ledger.project_seq = 1;
    back(&mut ledger, "member1", 10000000).unwrap();
    assert_eq!(ledger.projects[0].communitybacked_amount, 5000000);
    assert_eq!(ledger.projects[0].communitybacker_states.len(), 1);
    assert_eq!(ledger.projects[0].backerbacked_amount, 0);
    assert_eq!(ledger.projects[0].backer_states.len(), 0);
}

#[test]
fn goal_too_large_overflows() {
    let mut ledger = base_ledger();
    ledger.projects = vec![project(1, u128::MAX, ProjectStatus::Fundraising)];
    ledger.project_seq = 1;
    let res = back(&mut ledger, "backer1", 10000000);
    assert_eq!(res.unwrap_err(), ContractError::Overflow);
}

#[test]
fn filling_both_pools_materializes_milestone_votes() {
    let mut ledger = base_ledger();
    ledger.community = vec![s("member1")];
    let mut p = project(1, 300, ProjectStatus::Fundraising);
    p.milestone_states = vec![milestone(0, "m1"), milestone(1, "m2")];
    ledger.projects = vec![p];
    ledger.project_seq = 1;
    // two backers fill the backer pool: 105 units twice gives net 200 units
    back(&mut ledger, "backer1", 105000000).unwrap();
    back(&mut ledger, "backer2", 105000000).unwrap();
    assert!(ledger.projects[0].project_status == ProjectStatus::Fundraising);
    // the community member fills the community pool: net 200 units
    back(&mut ledger, "member1", 210000000).unwrap();
    let p = &ledger.projects[0];
    assert!(p.project_status == ProjectStatus::MilestoneReleasing);
    assert_eq!(p.project_milestonestep, 0);
    for m in &p.milestone_states {
        // one unvoted entry per backer-pool contributor, then the owner pre-voted
        assert_eq!(m.milestone_votes.len(), 3);
        assert_eq!(m.milestone_votes[0].wallet, "backer1");
        assert!(!m.milestone_votes[0].voted);
        assert_eq!(m.milestone_votes[1].wallet, "backer2");
        assert!(!m.milestone_votes[1].voted);
        assert_eq!(m.milestone_votes[2].wallet, "admin");
        assert!(m.milestone_votes[2].voted);
    }
}

#[test]
fn conservation_across_contributions() {
    let mut ledger = base_ledger();
    ledger.community = vec![s("member1")];
    ledger.projects = vec![project(1, 300, ProjectStatus::Fundraising)];
    ledger.project_seq = 1;
    back(&mut ledger, "backer1", 7000000).unwrap();
    back(&mut ledger, "member1", 8000000).unwrap();
    back(&mut ledger, "backer1", 105000000).unwrap();
    let p = &ledger.projects[0];
    let backer_sum: u128 = p.backer_states.iter().map(|b| b.ust_amount.amount).sum();
    let community_sum: u128 = p.communitybacker_states.iter().map(|b| b.ust_amount.amount).sum();
    assert_eq!(p.backerbacked_amount, backer_sum);
    assert_eq!(p.communitybacked_amount, community_sum);
    assert_eq!(p.backerbacked_amount + p.communitybacked_amount, backer_sum + community_sum);
}
