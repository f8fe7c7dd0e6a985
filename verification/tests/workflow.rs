use wefund::contract::{execute, instantiate, query};
use wefund::msg::{ChainBalances, ExecuteMsg, InstantiateMsg, MessageInfo, QueryAnswer, QueryMsg};
use wefund::state::{Coin, Milestone, MilestoneStatus, ProjectStatus};

fn info(sender: &str, funds: Vec<Coin>) -> MessageInfo {
    MessageInfo { sender: sender.to_string(), funds }
}

fn no_balances() -> ChainBalances {
    ChainBalances { native: Vec::new(), aust_balance: 0 }
}

#[test]
fn workflow() {
    let msg = InstantiateMsg {
        admin: Some(String::from("admin")),
        wefund: Some(String::from("Wefund")),
        anchor_market: Some(String::from("market")),
        aust_token: Some(String::from("ETH")),
    };
    let mut ledger = instantiate(msg, info("admin", Vec::new()));

    let msg = ExecuteMsg::AddCommunitymember { wallet: String::from("community1") };
    let res = execute(&mut ledger, info("admin", Vec::new()), &no_balances(), msg).unwrap();
    println!("Add community member{:?}", res);

    let msg = ExecuteMsg::AddCommunitymember { wallet: String::from("community2") };
    let res = execute(&mut ledger, info("admin", Vec::new()), &no_balances(), msg).unwrap();
    println!("Add community member{:?}", res);

    let milestone1 = Milestone {
        milestone_step: 0,
        milestone_name: String::from("milestone1"),
        milestone_description: String::from("mileston1"),
        milestone_startdate: String::from("startdate"),
        milestone_enddate: String::from("enddate"),
        milestone_amount: 100,
        milestone_status: MilestoneStatus::Voting,
        milestone_votes: Vec::new(),
    };
    let milestone2 = Milestone {
        milestone_step: 1,
        milestone_name: String::from("milestone2"),
        milestone_description: String::from("mileston2"),
        milestone_startdate: String::from("startdate"),
        milestone_enddate: String::from("enddate"),
        milestone_amount: 200,
        milestone_status: MilestoneStatus::Voting,
        milestone_votes: Vec::new(),
    };
    let milestone_states = vec![milestone1, milestone2];
    let msg = ExecuteMsg::AddProject {
        creator_wallet: String::from("terra1emwyg68n0wtglz8ex2n2728fnfzca9xkdc4aka"),
        project_description: String::from("demo1"),
        project_category: String::from("Charity"),
        project_collected: 300,
        project_chain: String::from("Terra"),
        project_email: String::from("deme1@gmail.com"),
        project_name: String::from("demo1"),
        project_website: String::from("https://demo1"),
        project_createddate: String::from("20211223"),
        project_icon: String::from("icon1"),
        project_deadline: String::from("20220130"),
        project_subcategory: String::from("gaming"),
        project_teamdescription: String::from("demo1"),
        project_whitepaper: String::from("whitepaper"),
        project_milestones: milestone_states,
    };
    let res = execute(&mut ledger, info("admin", Vec::new()), &no_balances(), msg).unwrap();
    println!("{:?}", res);

    let msg = ExecuteMsg::AddProject {
        creator_wallet: String::from("anyone"),
        project_description: String::from("demo2"),
        project_category: String::from("terra"),
        project_collected: 300,
        project_chain: String::from("Terra"),
        project_email: String::from("deme2@gmail.com"),
        project_name: String::from("demo2"),
        project_website: String::from("https://demo1"),
        project_createddate: String::from("20211223"),
        project_icon: String::from("icon2"),
        project_deadline: String::from("20220130"),
        project_subcategory: String::from("gaming"),
        project_teamdescription: String::from("demo2"),
        project_whitepaper: String::from("whitepaper"),
        project_milestones: Vec::new(),
    };
    let res = execute(&mut ledger, info("admin", Vec::new()), &no_balances(), msg).unwrap();
    println!("{:?}", res);

    let msg = ExecuteMsg::WeFundApprove { project_id: 1 };
    let res = execute(&mut ledger, info("admin", Vec::new()), &no_balances(), msg).unwrap();
    println!("WeFund Approve: {:?}", res);

    let msg = ExecuteMsg::WeFundApprove { project_id: 2 };
    let res = execute(&mut ledger, info("admin", Vec::new()), &no_balances(), msg).unwrap();
    println!("WeFund Approve: {:?}", res);

    let msg = ExecuteMsg::SetCommunityVote {
        project_id: 1,
        wallet: String::from("community1"),
        voted: true,
    };
    let res = execute(&mut ledger, info("community1", Vec::new()), &no_balances(), msg).unwrap();
    println!("Set Community vote: {:?}", res);

    let msg = ExecuteMsg::SetCommunityVote {
        project_id: 1,
        wallet: String::from("community2"),
        voted: true,
    };
    let res = execute(&mut ledger, info("community2", Vec::new()), &no_balances(), msg).unwrap();
    println!("Set Community vote: {:?}", res);

    assert!(ledger.projects[0].project_status == ProjectStatus::Fundraising);

    let msg = ExecuteMsg::Back2Project {
        project_id: 1,
        backer_wallet: String::from("backer1"),
    };
    let funds = vec![Coin { denom: String::from("uusd"), amount: 105000000 }];
    let res = execute(&mut ledger, info("backer1", funds), &no_balances(), msg).unwrap();
    println!("back2project:{:?}", res);

    let msg = ExecuteMsg::Back2Project {
        project_id: 1,
        backer_wallet: String::from("backer2"),
    };
    let funds = vec![Coin { denom: String::from("uusd"), amount: 210000000 }];
    let res = execute(&mut ledger, info("backer2", funds), &no_balances(), msg).unwrap();
    println!("back2project:{:?}", res);

    let msg = ExecuteMsg::Back2Project {
        project_id: 1,
        backer_wallet: String::from("community1"),
    };
    let funds = vec![Coin { denom: String::from("uusd"), amount: 210000000 }];
    let res = execute(&mut ledger, info("community1", funds), &no_balances(), msg).unwrap();
    println!("back2project:{:?}", res);

    let msg = QueryMsg::GetAllProject {};
    let allproject = query(&ledger, msg, Vec::new(), 0).unwrap();
    println!("allproject {:?}", allproject);

    let msg = QueryMsg::GetConfig {};
    let res = query(&ledger, msg, Vec::new(), 0).unwrap();
    match res {
        QueryAnswer::ConfigAnswer(config) => println!("Config = {:?}", config),
        other => panic!("unexpected answer {:?}", other),
    }

    let funds = vec![Coin { denom: String::from("uusd"), amount: 105000000 }];
    let msg = ExecuteMsg::RemoveProject { project_id: 1 };
    let _res = execute(&mut ledger, info("admin", funds), &no_balances(), msg).unwrap();

    let msg = QueryMsg::GetAllProject {};
    let allproject = query(&ledger, msg, Vec::new(), 0).unwrap();
    println!("allproject {:?}", allproject);
    match allproject {
        QueryAnswer::AllProject(v) => {
            assert_eq!(v.len(), 1);
            assert_eq!(v[0].project_id, 2);
        },
        other => panic!("unexpected answer {:?}", other),
    }
}
