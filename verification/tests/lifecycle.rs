use wefund::contract::{execute, instantiate, query};
use wefund::error::ContractError;
use wefund::msg::{
    ChainBalances, ExecuteMsg, InstantiateMsg, MessageInfo, QueryAnswer, QueryMsg,
};
use wefund::state::{
    Coin, Ledger, Milestone, MilestoneStatus, ProjectState, ProjectStatus, Vote,
};

fn s(x: &str) -> String {
    x.to_string()
}

fn info(sender: &str, funds: Vec<Coin>) -> MessageInfo {
    MessageInfo { sender: s(sender), funds }
}

fn no_balances() -> ChainBalances {
    ChainBalances { native: Vec::new(), aust_balance: 0 }
}

fn base_ledger() -> Ledger {
    let msg = InstantiateMsg {
        admin: Some(s("admin")),
        wefund: Some(s("wefund")),
        anchor_market: Some(s("market")),
        aust_token: Some(s("aust_token")),
    };
    instantiate(msg, info("admin", Vec::new()))
}

fn project(id: u128, goal: u128, status: ProjectStatus) -> ProjectState {
    ProjectState {
        project_name: s("demo"),
        project_createddate: s(""),
        project_description: s(""),
        project_teamdescription: s(""),
        project_category: s(""),
        project_subcategory: s(""),
        project_chain: s(""),
        project_deadline: s(""),
        project_website: s(""),
        project_icon: s(""),
        project_email: s(""),
        project_whitepaper: s(""),
        project_id: id,
        creator_wallet: s("creator"),
        project_collected: goal,
        project_status: status,
        backerbacked_amount: 0,
        communitybacked_amount: 0,
        backer_states: Vec::new(),
        communitybacker_states: Vec::new(),
        milestone_states: Vec::new(),
        project_milestonestep: 0,
        community_votes: Vec::new(),
        teammember_states: Vec::new(),
        vesting: Vec::new(),
    }
}

fn milestone_with_votes(step: u128, votes: Vec<(&str, bool)>) -> Milestone {
    Milestone {
        milestone_step: step,
        milestone_name: s("m"),
        milestone_description: s(""),
        milestone_startdate: s(""),
        milestone_enddate: s(""),
        milestone_amount: 100,
        milestone_status: MilestoneStatus::Voting,
        milestone_votes: votes
            .into_iter()
            .map(|(w, v)| Vote { wallet: s(w), voted: v })
            .collect(),
    }
}

fn vote_milestone(ledger: &mut Ledger, who: &str, voted: bool) -> Result<wefund::msg::Response, ContractError> {
    let msg = ExecuteMsg::SetMilestoneVote { project_id: 1, wallet: s(who), voted };
    execute(ledger, info(who, Vec::new()), &no_balances(), msg)
}

#[test]
fn instantiate_defaults() {
    let msg = InstantiateMsg { admin: None, wefund: None, anchor_market: None, aust_token: None };
    let ledger = instantiate(msg, info("deployer", Vec::new()));
    assert_eq!(ledger.config.owner, "deployer");
    assert_eq!(ledger.config.wefund, "deployer");
    assert_eq!(ledger.config.anchor_market, "terra1sepfj7s0aeg5967uxnfk4thzlerrsktkpelm5s");
    assert_eq!(ledger.config.aust_token, "terra1hzh9vpxhsk8253se0vv5jj6etdvxu3nv8z07zu");
    assert_eq!(ledger.project_seq, 0);
    assert!(ledger.projects.is_empty());
    assert!(ledger.community.is_empty());
}

#[test]
fn status_gating_on_every_mutating_call() {
    let mut ledger = base_ledger();
    ledger.projects = vec![project(1, 300, ProjectStatus::PendingApproval)];
    ledger.project_seq = 1;

    // contributing to a pending project fails WrongStatus
    let msg = ExecuteMsg::Back2Project { project_id: 1, backer_wallet: s("backer1") };
    let funds = vec![Coin { denom: s("uusd"), amount: 105000000 }];
    let res = execute(&mut ledger, info("backer1", funds), &no_balances(), msg);
    assert_eq!(
        res.unwrap_err(),
        ContractError::WrongStatus {
            expected: ProjectStatus::Fundraising,
            actual: ProjectStatus::PendingApproval,
        }
    );

    // community voting before approval fails WrongStatus
    let msg = ExecuteMsg::SetCommunityVote { project_id: 1, wallet: s("member1"), voted: true };
    let res = execute(&mut ledger, info("member1", Vec::new()), &no_balances(), msg);
    assert_eq!(
        res.unwrap_err(),
        ContractError::WrongStatus {
            expected: ProjectStatus::CommunityVoting,
            actual: ProjectStatus::PendingApproval,
        }
    );

    // milestone voting before release stage fails WrongStatus
    let msg = ExecuteMsg::SetMilestoneVote { project_id: 1, wallet: s("backer1"), voted: true };
    let res = execute(&mut ledger, info("backer1", Vec::new()), &no_balances(), msg);
    assert_eq!(
        res.unwrap_err(),
        ContractError::WrongStatus {
            expected: ProjectStatus::MilestoneReleasing,
            actual: ProjectStatus::PendingApproval,
        }
    );

    // approving an already-approved project fails WrongStatus
    ledger.projects[0].project_status = ProjectStatus::CommunityVoting;
    let msg = ExecuteMsg::WeFundApprove { project_id: 1 };
    let res = execute(&mut ledger, info("admin", Vec::new()), &no_balances(), msg);
    assert_eq!(
        res.unwrap_err(),
        ContractError::WrongStatus {
            expected: ProjectStatus::PendingApproval,
            actual: ProjectStatus::CommunityVoting,
        }
    );
}

#[test]
fn milestone_unanimity() {
    let mut ledger = base_ledger();
    let mut p = project(1, 300, ProjectStatus::MilestoneReleasing);
    p.milestone_states = vec![milestone_with_votes(
        0,
        vec![("alice", false), ("bob", false), ("admin", true)],
    )];
    ledger.projects = vec![p];
    ledger.project_seq = 1;

    // an earlier true-setting call leaves the milestone in voting
    vote_milestone(&mut ledger, "alice", true).unwrap();
    assert!(ledger.projects[0].milestone_states[0].milestone_status == MilestoneStatus::Voting);
    assert_eq!(ledger.projects[0].project_milestonestep, 0);
    assert!(ledger.projects[0].project_status == ProjectStatus::MilestoneReleasing);

    // the call that sets the last outstanding false vote releases it
    vote_milestone(&mut ledger, "bob", true).unwrap();
    assert!(ledger.projects[0].milestone_states[0].milestone_status == MilestoneStatus::Released);
    assert_eq!(ledger.projects[0].project_milestonestep, 1);
    // past the last milestone the project is done
    assert!(ledger.projects[0].project_status == ProjectStatus::Done);
}

#[test]
fn milestone_vote_can_be_withdrawn() {
    let mut ledger = base_ledger();
    let mut p = project(1, 300, ProjectStatus::MilestoneReleasing);
    p.milestone_states = vec![milestone_with_votes(
        0,
        vec![("alice", false), ("bob", true), ("admin", true)],
    )];
    ledger.projects = vec![p];
    ledger.project_seq = 1;

    // bob withdraws: still not unanimous, nothing released
    vote_milestone(&mut ledger, "bob", false).unwrap();
    assert!(ledger.projects[0].milestone_states[0].milestone_status == MilestoneStatus::Voting);
    assert!(!ledger.projects[0].milestone_states[0].milestone_votes[1].voted);
    assert_eq!(ledger.projects[0].project_milestonestep, 0);
}

#[test]
fn milestone_vote_errors() {
    let mut ledger = base_ledger();
    let mut p = project(1, 300, ProjectStatus::MilestoneReleasing);
    let mut m = milestone_with_votes(0, vec![("alice", false), ("admin", true)]);
    m.milestone_status = MilestoneStatus::Released;
    p.milestone_states = vec![m];
    ledger.projects = vec![p];
    ledger.project_seq = 1;

    // the current milestone is not open for voting
    let res = vote_milestone(&mut ledger, "alice", true);
    assert_eq!(
        res.unwrap_err(),
        ContractError::WrongMilestoneStatus { step: 0, status: MilestoneStatus::Released }
    );

    // a wallet outside the vote set is rejected
    ledger.projects[0].milestone_states[0].milestone_status = MilestoneStatus::Voting;
    let res = vote_milestone(&mut ledger, "stranger", true);
    assert_eq!(res.unwrap_err(), ContractError::NotFound);

    // an unknown project is rejected
    let msg = ExecuteMsg::SetMilestoneVote { project_id: 9, wallet: s("alice"), voted: true };
    let res = execute(&mut ledger, info("alice", Vec::new()), &no_balances(), msg);
    assert_eq!(res.unwrap_err(), ContractError::NotFound);
}

#[test]
fn filling_pools_without_milestones_completes() {
    let mut ledger = base_ledger();
    // no milestones: there is nothing awaiting release once both pools fill
    ledger.projects = vec![project(1, 300, ProjectStatus::Fundraising)];
    ledger.project_seq = 1;
    let contribute = |l: &mut Ledger, who: &str, amount: u128| {
        execute(
            l,
            info(who, vec![Coin { denom: s("uusd"), amount }]),
            &no_balances(),
            ExecuteMsg::Back2Project { project_id: 1, backer_wallet: s(who) },
        )
    };
    contribute(&mut ledger, "backer1", 210000000).unwrap(); // backer pool at 200 units
    assert!(ledger.projects[0].project_status == ProjectStatus::Fundraising);
    // no community members exist, so 0 >= 150 never holds for the community
    // pool; push it over its cap through a registered member
    execute(
        &mut ledger,
        info("admin", Vec::new()),
        &no_balances(),
        ExecuteMsg::AddCommunitymember { wallet: s("member1") },
    )
    .unwrap();
    contribute(&mut ledger, "member1", 210000000).unwrap();
    assert!(ledger.projects[0].project_status == ProjectStatus::Done);
}

#[test]
fn remove_project_errors() {
    let mut ledger = base_ledger();
    ledger.projects = vec![project(1, 300, ProjectStatus::PendingApproval)];
    ledger.project_seq = 1;
    let msg = ExecuteMsg::RemoveProject { project_id: 1 };
    let res = execute(&mut ledger, info("anyone", Vec::new()), &no_balances(), msg);
    assert_eq!(res.unwrap_err(), ContractError::Unauthorized);
    let msg = ExecuteMsg::RemoveProject { project_id: 9 };
    let res = execute(&mut ledger, info("admin", Vec::new()), &no_balances(), msg);
    assert_eq!(res.unwrap_err(), ContractError::NotFound);
    let msg = ExecuteMsg::RemoveProject { project_id: 1 };
    execute(&mut ledger, info("admin", Vec::new()), &no_balances(), msg).unwrap();
    assert!(ledger.projects.is_empty());
}

#[test]
fn community_membership_admin() {
    let mut ledger = base_ledger();
    let add = |l: &mut Ledger, sender: &str, w: &str| {
        execute(
            l,
            info(sender, Vec::new()),
            &no_balances(),
            ExecuteMsg::AddCommunitymember { wallet: s(w) },
        )
    };
    let remove = |l: &mut Ledger, sender: &str, w: &str| {
        execute(
            l,
            info(sender, Vec::new()),
            &no_balances(),
            ExecuteMsg::RemoveCommunitymember { wallet: s(w) },
        )
    };
    assert_eq!(add(&mut ledger, "anyone", "m1").unwrap_err(), ContractError::Unauthorized);
    add(&mut ledger, "admin", "m1").unwrap();
    assert_eq!(add(&mut ledger, "admin", "m1").unwrap_err(), ContractError::AlreadyMember);
    add(&mut ledger, "admin", "m2").unwrap();
    assert_eq!(remove(&mut ledger, "admin", "m3").unwrap_err(), ContractError::NotMember);
    remove(&mut ledger, "admin", "m1").unwrap();
    assert_eq!(ledger.community, vec![s("m2")]);
}

#[test]
fn set_config_updates_only_given_fields() {
    let mut ledger = base_ledger();
    let msg = ExecuteMsg::SetConfig {
        admin: None,
        wefund: Some(s("treasury2")),
        anchor_market: None,
        aust_token: Some(s("token2")),
    };
    let res = execute(&mut ledger, info("anyone", Vec::new()), &no_balances(), ExecuteMsg::SetConfig {
        admin: None,
        wefund: Some(s("x")),
        anchor_market: None,
        aust_token: None,
    });
    assert_eq!(res.unwrap_err(), ContractError::Unauthorized);
    execute(&mut ledger, info("admin", Vec::new()), &no_balances(), msg).unwrap();
    assert_eq!(ledger.config.owner, "admin");
    assert_eq!(ledger.config.wefund, "treasury2");
    assert_eq!(ledger.config.anchor_market, "market");
    assert_eq!(ledger.config.aust_token, "token2");
}

#[test]
fn queries_read_the_ledger() {
    let mut ledger = base_ledger();
    ledger.community = vec![s("m1"), s("m2")];
    let mut p = project(1, 300, ProjectStatus::Fundraising);
    p.backer_states = vec![wefund::state::BackerState {
        backer_wallet: s("alice"),
        ust_amount: Coin { denom: s("uusd"), amount: 42 },
        aust_amount: Coin { denom: s("aust"), amount: 0 },
    }];
    p.backerbacked_amount = 42;
    ledger.projects = vec![p];
    ledger.project_seq = 1;

    match query(&ledger, QueryMsg::GetCommunitymembers {}, Vec::new(), 0).unwrap() {
        QueryAnswer::Communitymembers(m) => assert_eq!(m, vec![s("m1"), s("m2")]),
        other => panic!("unexpected answer {:?}", other),
    }
    match query(&ledger, QueryMsg::GetProject { project_id: 1 }, Vec::new(), 0).unwrap() {
        QueryAnswer::Project(p) => {
            assert_eq!(p.project_id, 1);
            assert_eq!(p.project_name, "demo");
        },
        other => panic!("unexpected answer {:?}", other),
    }
    let res = query(&ledger, QueryMsg::GetProject { project_id: 7 }, Vec::new(), 0);
    assert_eq!(res.unwrap_err(), ContractError::NotFound);
    match query(&ledger, QueryMsg::GetBacker { project_id: 1 }, Vec::new(), 0).unwrap() {
        QueryAnswer::Backer(b) => {
            assert_eq!(b.len(), 1);
            assert_eq!(b[0].backer_wallet, "alice");
            assert_eq!(b[0].ust_amount.amount, 42);
        },
        other => panic!("unexpected answer {:?}", other),
    }
    let bank = vec![Coin { denom: s("uusd"), amount: 9 }];
    match query(&ledger, QueryMsg::GetBalance { wallet: s("alice") }, bank, 5).unwrap() {
        QueryAnswer::Balance(coins) => {
            assert_eq!(coins.len(), 2);
            assert_eq!(coins[0].denom, "uusd");
            assert_eq!(coins[0].amount, 9);
            assert_eq!(coins[1].denom, "aust");
            assert_eq!(coins[1].amount, 5);
        },
        other => panic!("unexpected answer {:?}", other),
    }
}

#[test]
fn end_to_end_lifecycle() {
    let mut ledger = base_ledger();
    // two community members
    for w in ["member1", "member2"] {
        execute(
            &mut ledger,
            info("admin", Vec::new()),
            &no_balances(),
            ExecuteMsg::AddCommunitymember { wallet: s(w) },
        )
        .unwrap();
    }
    // create a project with goal 300 and two milestones
    let msg = ExecuteMsg::AddProject {
        project_name: s("demo"),
        project_createddate: s("20211223"),
        project_description: s("d"),
        project_teamdescription: s("t"),
        project_category: s("c"),
        project_subcategory: s("sc"),
        project_chain: s("Terra"),
        project_collected: 300,
        project_deadline: s("20220130"),
        project_website: s("w"),
        project_icon: s("i"),
        project_email: s("e"),
        project_whitepaper: s("wp"),
        creator_wallet: s("creator"),
        project_milestones: vec![
            milestone_with_votes(0, Vec::new()),
            milestone_with_votes(1, Vec::new()),
        ],
    };
    execute(&mut ledger, info("creator", Vec::new()), &no_balances(), msg).unwrap();
    assert!(ledger.projects[0].project_status == ProjectStatus::PendingApproval);
    // the community-vote set was captured at creation
    assert_eq!(ledger.projects[0].community_votes.len(), 2);

    // owner approves
    execute(
        &mut ledger,
        info("admin", Vec::new()),
        &no_balances(),
        ExecuteMsg::WeFundApprove { project_id: 1 },
    )
    .unwrap();
    assert!(ledger.projects[0].project_status == ProjectStatus::CommunityVoting);

    // both members vote true: the project enters fundraising
    for w in ["member1", "member2"] {
        execute(
            &mut ledger,
            info(w, Vec::new()),
            &no_balances(),
            ExecuteMsg::SetCommunityVote { project_id: 1, wallet: s(w), voted: true },
        )
        .unwrap();
    }
    assert!(ledger.projects[0].project_status == ProjectStatus::Fundraising);

    // two backers and one community member fill both pools to 150 units
    let contribute = |l: &mut Ledger, who: &str, amount: u128| {
        execute(
            l,
            info(who, vec![Coin { denom: s("uusd"), amount }]),
            &no_balances(),
            ExecuteMsg::Back2Project { project_id: 1, backer_wallet: s(who) },
        )
    };
    contribute(&mut ledger, "backer1", 105000000).unwrap(); // net 100 units
    contribute(&mut ledger, "backer2", 105000000).unwrap(); // net 100 units: pool at 200
    assert!(ledger.projects[0].project_status == ProjectStatus::Fundraising);
    contribute(&mut ledger, "member1", 210000000).unwrap(); // net 200 units: both pools full
    let p = &ledger.projects[0];
    assert!(p.project_status == ProjectStatus::MilestoneReleasing);
    assert_eq!(p.backerbacked_amount, 200000000);
    assert_eq!(p.communitybacked_amount, 200000000);
    for m in &p.milestone_states {
        assert_eq!(m.milestone_votes.len(), 3); // backer1, backer2, owner
        assert!(m.milestone_votes[2].voted); // the owner's entry is pre-voted
    }

    // all milestone voters approve the first milestone
    let vote = |l: &mut Ledger, who: &str| {
        execute(
            l,
            info(who, Vec::new()),
            &no_balances(),
            ExecuteMsg::SetMilestoneVote { project_id: 1, wallet: s(who), voted: true },
        )
    };
    vote(&mut ledger, "backer1").unwrap();
    assert_eq!(ledger.projects[0].project_milestonestep, 0);
    vote(&mut ledger, "backer2").unwrap();
    assert!(ledger.projects[0].milestone_states[0].milestone_status == MilestoneStatus::Released);
    assert_eq!(ledger.projects[0].project_milestonestep, 1);
    assert!(ledger.projects[0].project_status == ProjectStatus::MilestoneReleasing);

    // and the final milestone drives the project to done
    vote(&mut ledger, "backer1").unwrap();
    vote(&mut ledger, "backer2").unwrap();
    assert!(ledger.projects[0].milestone_states[1].milestone_status == MilestoneStatus::Released);
    assert_eq!(ledger.projects[0].project_milestonestep, 2);
    assert!(ledger.projects[0].project_status == ProjectStatus::Done);
}
