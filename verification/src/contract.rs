//! The entry points: one handler per call, each a function from the ledger
//! and the call's inputs to the new ledger and the emitted instructions, with
//! a contract that pins the outcome for every input.

use vstd::prelude::*;
use crate::error::ContractError;
use crate::msg::ChainBalances;
use crate::msg::ExecuteMsg;
use crate::msg::InstantiateMsg;
use crate::msg::Instruction;
use crate::msg::MessageInfo;
use crate::msg::QueryAnswer;
use crate::msg::QueryMsg;
use crate::msg::Response;
use crate::state::BackerState;
use crate::state::Coin;
use crate::state::Config;
use crate::state::Ledger;
use crate::state::Milestone;
use crate::state::MilestoneStatus;
use crate::state::ProjectState;
use crate::state::ProjectStatus;
use crate::state::Vote;
use crate::state::all_voted;
use crate::state::check_all_voted;
use crate::state::clone_backers;
use crate::state::clone_members;
use crate::state::clone_votes;
use crate::state::find_member;
use crate::state::find_project;
use crate::state::find_voter;
use crate::state::has_project;
use crate::state::has_voter;
use crate::state::is_member;
use crate::state::voter_idx;
use crate::state::lemma_member_idx_is;
use crate::state::lemma_proj_idx_is;
use crate::state::lemma_remove_insert;
use crate::state::lemma_sum_backed_push;
use crate::state::lemma_total_active_prefix_bound;
use crate::state::lemma_total_active_step;
use crate::state::member_idx;
use crate::state::proj_idx;
use crate::state::project_like;
use crate::state::save_projectstate;
use crate::state::str_eq;
use crate::state::sum_backed;
use crate::state::total_backed_active;
use crate::state::wf_ledger;
use crate::state::wf_project;
use crate::state::FEE_SPLIT_THRESHOLD;
use crate::state::MIN_BACKING;
use crate::state::OPERATIONAL_RESERVE;
use crate::state::SMALL_BACK_DEDUCTION;
use crate::state::SMALL_BACK_FEE;
use crate::state::TRANSFER_COST;
use crate::state::UST;

verus! {

/// The default money-market address used when none is configured.
pub open spec fn default_anchor_market() -> Seq<char> {
    "terra1sepfj7s0aeg5967uxnfk4thzlerrsktkpelm5s"@
}

/// The default yield-token address used when none is configured.
pub open spec fn default_aust_token() -> Seq<char> {
    "terra1hzh9vpxhsk8253se0vv5jj6etdvxu3nv8z07zu"@
}

/// The projects after the call equal the projects before it with a single
/// record replaced.
pub open spec fn updated_at(
    pre: Seq<ProjectState>,
    post: Seq<ProjectState>,
    i: int,
    p: ProjectState,
) -> bool {
    &&& post.len() == pre.len()
    &&& post[i] == p
    &&& forall|j: int| 0 <= j < pre.len() && j != i ==> post[j] == pre[j]
}

/// Replacing one project record by a well-formed one with the same id keeps
/// the ledger well formed.
pub proof fn lemma_wf_update(pre: Ledger, post: Ledger, i: int, p: ProjectState)
    requires
        wf_ledger(pre),
        0 <= i < pre.projects@.len(),
        updated_at(pre.projects@, post.projects@, i, p),
        wf_project(p),
        p.project_id == pre.projects@[i].project_id,
        post.project_seq == pre.project_seq,
        post.community@ == pre.community@,
    ensures
        wf_ledger(post),
{
    assert forall|j: int| 0 <= j < post.projects@.len() implies wf_project(
        #[trigger] post.projects@[j],
    ) by {
        if j != i {
            assert(post.projects@[j] == pre.projects@[j]);
        }
        assert(wf_project(pre.projects@[j]));
    }
    assert forall|j: int|
        0 <= j < post.projects@.len() implies 1 <= (#[trigger] post.projects@[j].project_id)
        <= post.project_seq by {
        if j != i {
            assert(post.projects@[j] == pre.projects@[j]);
        }
        assert(1 <= pre.projects@[j].project_id <= pre.project_seq);
    }
    assert forall|x: int, y: int|
        0 <= x < y < post.projects@.len() implies post.projects@[x].project_id
        < post.projects@[y].project_id by {
        assert(post.projects@[x].project_id == pre.projects@[x].project_id);
        assert(post.projects@[y].project_id == pre.projects@[y].project_id);
    }
}

/// Everything outside the project ledger is untouched.
pub open spec fn only_projects_touched(pre: Ledger, post: Ledger) -> bool {
    &&& post.config == pre.config
    &&& post.project_seq == pre.project_seq
    &&& post.community == pre.community
}

/// Sets up the initial state: the configuration from the given addresses,
/// with the caller standing in for an absent owner or treasury and fixed
/// defaults standing in for an absent market or yield token; no projects, no
/// community members, the id sequence at zero.
pub fn instantiate(msg: InstantiateMsg, info: MessageInfo) -> (l: Ledger)
    ensures
        wf_ledger(l),
        l.project_seq == 0,
        l.projects@.len() == 0,
        l.community@.len() == 0,
        msg.admin matches Some(a) ==> l.config.owner == a,
        msg.admin is None ==> l.config.owner == info.sender,
        msg.wefund matches Some(a) ==> l.config.wefund == a,
        msg.wefund is None ==> l.config.wefund == info.sender,
        msg.anchor_market matches Some(a) ==> l.config.anchor_market == a,
        msg.anchor_market is None ==> l.config.anchor_market@ == default_anchor_market(),
        msg.aust_token matches Some(a) ==> l.config.aust_token == a,
        msg.aust_token is None ==> l.config.aust_token@ == default_aust_token(),
{
    let owner = match msg.admin {
        Option::Some(a) => a,
        Option::None => info.sender.clone(),
    };
    let wefund = match msg.wefund {
        Option::Some(a) => a,
        Option::None => info.sender.clone(),
    };
    let anchor_market = match msg.anchor_market {
        Option::Some(a) => a,
        Option::None => String::from_str("terra1sepfj7s0aeg5967uxnfk4thzlerrsktkpelm5s"),
    };
    let aust_token = match msg.aust_token {
        Option::Some(a) => a,
        Option::None => String::from_str("terra1hzh9vpxhsk8253se0vv5jj6etdvxu3nv8z07zu"),
    };
    Ledger {
        config: Config { owner, wefund, anchor_market, aust_token },
        project_seq: 0,
        projects: Vec::new(),
        community: Vec::new(),
    }
}

/// The outcome of the owner's approval of a pending project.
pub open spec fn wefundapprove_post(
    pre: Ledger,
    post: Ledger,
    sender: String,
    project_id: u128,
    r: Result<Response, ContractError>,
) -> bool {
    if sender@ != pre.config.owner@ {
        post == pre && (r matches Err(e) && e is Unauthorized)
    } else if !has_project(pre.projects@, project_id) {
        post == pre && (r matches Err(e) && e is NotFound)
    } else {
        let i = proj_idx(pre.projects@, project_id);
        let p = pre.projects@[i];
        if !(p.project_status is PendingApproval) {
            post == pre && (r matches Err(e) && e == (ContractError::WrongStatus {
                expected: ProjectStatus::PendingApproval,
                actual: p.project_status,
            }))
        } else {
            &&& r matches Ok(resp) && resp.messages@.len() == 0
            &&& only_projects_touched(pre, post)
            &&& updated_at(
                pre.projects@,
                post.projects@,
                i,
                (ProjectState { project_status: ProjectStatus::CommunityVoting, ..p }),
            )
        }
    }
}

/// Owner approval: moves a pending project into community voting.
pub fn try_wefundapprove(ledger: &mut Ledger, info: &MessageInfo, project_id: u128) -> (r: Result<
    Response,
    ContractError,
>)
    requires
        wf_ledger(*old(ledger)),
    ensures
        wf_ledger(*final(ledger)),
        wefundapprove_post(*old(ledger), *final(ledger), info.sender, project_id, r),
{
    if !str_eq(&info.sender, &ledger.config.owner) {
        return Err(ContractError::Unauthorized);
    }
    let i = match find_project(&ledger.projects, project_id) {
        Option::None => {
            return Err(ContractError::NotFound);
        },
        Option::Some(i) => i,
    };
    proof {
        lemma_proj_idx_is(ledger.projects@, project_id, i as int);
    }
    let actual = ledger.projects[i].project_status;
    if actual != ProjectStatus::PendingApproval {
        return Err(ContractError::WrongStatus { expected: ProjectStatus::PendingApproval, actual });
    }
    let p = ledger.projects.remove(i);
    let p2 = ProjectState { project_status: ProjectStatus::CommunityVoting, ..p };
    ledger.projects.insert(i, p2);
    proof {
        lemma_remove_insert(old(ledger).projects@, i as int, p2);
        assert(wf_project(old(ledger).projects@[i as int]));
        lemma_wf_update(*old(ledger), *ledger, i as int, p2);
    }
    Ok(Response { messages: Vec::new() })
}

/// The outcome of registering a community member.
pub open spec fn addcommunitymember_post(
    pre: Ledger,
    post: Ledger,
    sender: String,
    wallet: String,
    r: Result<Response, ContractError>,
) -> bool {
    if sender@ != pre.config.owner@ {
        post == pre && (r matches Err(e) && e is Unauthorized)
    } else if is_member(pre.community@, wallet@) {
        post == pre && (r matches Err(e) && e is AlreadyMember)
    } else {
        &&& r matches Ok(resp) && resp.messages@.len() == 0
        &&& post.config == pre.config
        &&& post.project_seq == pre.project_seq
        &&& post.projects == pre.projects
        &&& post.community@ == pre.community@.push(wallet)
    }
}

/// Registers a wallet as a community member; owner only.
pub fn try_addcommunitymember(ledger: &mut Ledger, info: &MessageInfo, wallet: String) -> (r:
    Result<Response, ContractError>)
    requires
        wf_ledger(*old(ledger)),
    ensures
        wf_ledger(*final(ledger)),
        addcommunitymember_post(*old(ledger), *final(ledger), info.sender, wallet, r),
{
    if !str_eq(&info.sender, &ledger.config.owner) {
        return Err(ContractError::Unauthorized);
    }
    if find_member(&ledger.community, &wallet).is_some() {
        return Err(ContractError::AlreadyMember);
    }
    ledger.community.push(wallet);
    Ok(Response { messages: Vec::new() })
}

/// The outcome of striking a community member.
pub open spec fn removecommunitymember_post(
    pre: Ledger,
    post: Ledger,
    sender: String,
    wallet: String,
    r: Result<Response, ContractError>,
) -> bool {
    if sender@ != pre.config.owner@ {
        post == pre && (r matches Err(e) && e is Unauthorized)
    } else if !is_member(pre.community@, wallet@) {
        post == pre && (r matches Err(e) && e is NotMember)
    } else {
        &&& r matches Ok(resp) && resp.messages@.len() == 0
        &&& post.config == pre.config
        &&& post.project_seq == pre.project_seq
        &&& post.projects == pre.projects
        &&& post.community@ == pre.community@.remove(member_idx(pre.community@, wallet@))
    }
}

/// Strikes a wallet from the community registry; owner only.
pub fn try_removecommunitymember(ledger: &mut Ledger, info: &MessageInfo, wallet: String) -> (r:
    Result<Response, ContractError>)
    requires
        wf_ledger(*old(ledger)),
    ensures
        wf_ledger(*final(ledger)),
        removecommunitymember_post(*old(ledger), *final(ledger), info.sender, wallet, r),
{
    if !str_eq(&info.sender, &ledger.config.owner) {
        return Err(ContractError::Unauthorized);
    }
    let i = match find_member(&ledger.community, &wallet) {
        Option::None => {
            return Err(ContractError::NotMember);
        },
        Option::Some(i) => i,
    };
    proof {
        lemma_member_idx_is(ledger.community@, wallet@, i as int);
    }
    ledger.community.remove(i);
    Ok(Response { messages: Vec::new() })
}

/// The outcome of an owner's configuration update: each given field replaces
/// the stored one, each absent field keeps it.
pub open spec fn setconfig_post(
    pre: Ledger,
    post: Ledger,
    sender: String,
    admin: Option<String>,
    wefund: Option<String>,
    anchor_market: Option<String>,
    aust_token: Option<String>,
    r: Result<Response, ContractError>,
) -> bool {
    if sender@ != pre.config.owner@ {
        post == pre && (r matches Err(e) && e is Unauthorized)
    } else {
        &&& r matches Ok(resp) && resp.messages@.len() == 0
        &&& post.project_seq == pre.project_seq
        &&& post.projects == pre.projects
        &&& post.community == pre.community
        &&& post.config.owner == (match admin {
            Some(a) => a,
            None => pre.config.owner,
        })
        &&& post.config.wefund == (match wefund {
            Some(a) => a,
            None => pre.config.wefund,
        })
        &&& post.config.anchor_market == (match anchor_market {
            Some(a) => a,
            None => pre.config.anchor_market,
        })
        &&& post.config.aust_token == (match aust_token {
            Some(a) => a,
            None => pre.config.aust_token,
        })
    }
}

/// Replaces the given configuration fields; owner only.
pub fn try_setconfig(
    ledger: &mut Ledger,
    info: &MessageInfo,
    admin: Option<String>,
    wefund: Option<String>,
    anchor_market: Option<String>,
    aust_token: Option<String>,
) -> (r: Result<Response, ContractError>)
    requires
        wf_ledger(*old(ledger)),
    ensures
        wf_ledger(*final(ledger)),
        setconfig_post(
            *old(ledger),
            *final(ledger),
            info.sender,
            admin,
            wefund,
            anchor_market,
            aust_token,
            r,
        ),
{
    if !str_eq(&info.sender, &ledger.config.owner) {
        return Err(ContractError::Unauthorized);
    }
    if let Option::Some(a) = admin {
        ledger.config.owner = a;
    }
    if let Option::Some(a) = wefund {
        ledger.config.wefund = a;
    }
    if let Option::Some(a) = anchor_market {
        ledger.config.anchor_market = a;
    }
    if let Option::Some(a) = aust_token {
        ledger.config.aust_token = a;
    }
    Ok(Response { messages: Vec::new() })
}

/// The outcome of a community member's vote on a project in community
/// voting: the voter's flag is set; when every flag is now true the project
/// enters fundraising.
pub open spec fn setcommunityvote_post(
    pre: Ledger,
    post: Ledger,
    project_id: u128,
    wallet: String,
    voted: bool,
    r: Result<Response, ContractError>,
) -> bool {
    if !has_project(pre.projects@, project_id) {
        post == pre && (r matches Err(e) && e is NotFound)
    } else {
        let i = proj_idx(pre.projects@, project_id);
        let p = pre.projects@[i];
        if !(p.project_status is CommunityVoting) {
            post == pre && (r matches Err(e) && e == (ContractError::WrongStatus {
                expected: ProjectStatus::CommunityVoting,
                actual: p.project_status,
            }))
        } else if !has_voter(p.community_votes@, wallet@) {
            post == pre && (r matches Err(e) && e is NotFound)
        } else {
            let vi = voter_idx(p.community_votes@, wallet@);
            let votes2 = p.community_votes@.update(
                vi,
                (Vote { voted, ..p.community_votes@[vi] }),
            );
            let status2 = if all_voted(votes2) {
                ProjectStatus::Fundraising
            } else {
                p.project_status
            };
            &&& r matches Ok(resp) && resp.messages@.len() == 0
            &&& only_projects_touched(pre, post)
            &&& post.projects@.len() == pre.projects@.len()
            &&& forall|j: int|
                0 <= j < pre.projects@.len() && j != i ==> post.projects@[j] == pre.projects@[j]
            &&& post.projects@[i].community_votes@ == votes2
            &&& post.projects@[i] == (ProjectState {
                project_status: status2,
                community_votes: post.projects@[i].community_votes,
                ..p
            })
        }
    }
}

/// Records a community vote; a unanimous set moves the project into
/// fundraising.
pub fn try_setcommunityvote(
    ledger: &mut Ledger,
    project_id: u128,
    wallet: &String,
    voted: bool,
) -> (r: Result<Response, ContractError>)
    requires
        wf_ledger(*old(ledger)),
    ensures
        wf_ledger(*final(ledger)),
        setcommunityvote_post(*old(ledger), *final(ledger), project_id, *wallet, voted, r),
{
    let i = match find_project(&ledger.projects, project_id) {
        Option::None => {
            return Err(ContractError::NotFound);
        },
        Option::Some(i) => i,
    };
    proof {
        lemma_proj_idx_is(ledger.projects@, project_id, i as int);
    }
    let actual = ledger.projects[i].project_status;
    if actual != ProjectStatus::CommunityVoting {
        return Err(ContractError::WrongStatus { expected: ProjectStatus::CommunityVoting, actual });
    }
    let vi = match find_voter(&ledger.projects[i].community_votes, wallet) {
        Option::None => {
            return Err(ContractError::NotFound);
        },
        Option::Some(vi) => vi,
    };
    let mut p = ledger.projects.remove(i);
    let ghost votes_pre = p.community_votes@;
    let v = p.community_votes.remove(vi);
    let v2 = Vote { voted, ..v };
    p.community_votes.insert(vi, v2);
    proof {
        lemma_remove_insert(votes_pre, vi as int, v2);
    }
    if check_all_voted(&p.community_votes) {
        p.project_status = ProjectStatus::Fundraising;
    }
    ledger.projects.insert(i, p);
    proof {
        lemma_remove_insert(old(ledger).projects@, i as int, ledger.projects@[i as int]);
        assert(wf_project(old(ledger).projects@[i as int]));
        lemma_wf_update(*old(ledger), *ledger, i as int, ledger.projects@[i as int]);
    }
    Ok(Response { messages: Vec::new() })
}

/// The outcome of a milestone vote on a releasing project: the voter's flag
/// in the current milestone's vote set is set; when every flag is now true
/// the milestone is released, the step advances, and a step past the last
/// milestone completes the project.
pub open spec fn setmilestonevote_post(
    pre: Ledger,
    post: Ledger,
    project_id: u128,
    wallet: String,
    voted: bool,
    r: Result<Response, ContractError>,
) -> bool {
    if !has_project(pre.projects@, project_id) {
        post == pre && (r matches Err(e) && e is NotFound)
    } else {
        let i = proj_idx(pre.projects@, project_id);
        let p = pre.projects@[i];
        let step = p.project_milestonestep as int;
        if !(p.project_status is MilestoneReleasing) {
            post == pre && (r matches Err(e) && e == (ContractError::WrongStatus {
                expected: ProjectStatus::MilestoneReleasing,
                actual: p.project_status,
            }))
        } else {
            let m = p.milestone_states@[step];
            if !(m.milestone_status is Voting) {
                post == pre && (r matches Err(e) && e == (ContractError::WrongMilestoneStatus {
                    step: p.project_milestonestep,
                    status: m.milestone_status,
                }))
            } else if !has_voter(m.milestone_votes@, wallet@) {
                post == pre && (r matches Err(e) && e is NotFound)
            } else {
                let vi = voter_idx(m.milestone_votes@, wallet@);
                let votes2 = m.milestone_votes@.update(
                    vi,
                    (Vote { voted, ..m.milestone_votes@[vi] }),
                );
                let released = all_voted(votes2);
                let mstatus2 = if released {
                    MilestoneStatus::Released
                } else {
                    m.milestone_status
                };
                let step2 = if released {
                    step + 1
                } else {
                    step
                };
                let pstatus2 = if released && step + 1 >= p.milestone_states@.len() {
                    ProjectStatus::Done
                } else {
                    p.project_status
                };
                let q = post.projects@[i];
                &&& r matches Ok(resp) && resp.messages@.len() == 0
                &&& only_projects_touched(pre, post)
                &&& post.projects@.len() == pre.projects@.len()
                &&& forall|j: int|
                    0 <= j < pre.projects@.len() && j != i ==> post.projects@[j]
                        == pre.projects@[j]
                &&& q.milestone_states@.len() == p.milestone_states@.len()
                &&& forall|k: int|
                    0 <= k < p.milestone_states@.len() && k != step ==> q.milestone_states@[k]
                        == p.milestone_states@[k]
                &&& q.milestone_states@[step].milestone_votes@ == votes2
                &&& q.milestone_states@[step] == (Milestone {
                    milestone_status: mstatus2,
                    milestone_votes: q.milestone_states@[step].milestone_votes,
                    ..m
                })
                &&& q.project_milestonestep == step2
                &&& q == (ProjectState {
                    project_status: pstatus2,
                    project_milestonestep: q.project_milestonestep,
                    milestone_states: q.milestone_states,
                    ..p
                })
            }
        }
    }
}

/// Records a milestone vote; a unanimous set releases the milestone and
/// advances the step, completing the project past the last milestone.
pub fn try_setmilestonevote(
    ledger: &mut Ledger,
    project_id: u128,
    wallet: &String,
    voted: bool,
) -> (r: Result<Response, ContractError>)
    requires
        wf_ledger(*old(ledger)),
    ensures
        wf_ledger(*final(ledger)),
        setmilestonevote_post(*old(ledger), *final(ledger), project_id, *wallet, voted, r),
{
    let i = match find_project(&ledger.projects, project_id) {
        Option::None => {
            return Err(ContractError::NotFound);
        },
        Option::Some(i) => i,
    };
    proof {
        lemma_proj_idx_is(ledger.projects@, project_id, i as int);
        assert(wf_project(ledger.projects@[i as int]));
    }
    let actual = ledger.projects[i].project_status;
    if actual != ProjectStatus::MilestoneReleasing {
        return Err(
            ContractError::WrongStatus { expected: ProjectStatus::MilestoneReleasing, actual },
        );
    }
    let step = ledger.projects[i].project_milestonestep;
    let mstatus = ledger.projects[i].milestone_states[step].milestone_status;
    if mstatus != MilestoneStatus::Voting {
        return Err(ContractError::WrongMilestoneStatus { step, status: mstatus });
    }
    let vi = match find_voter(&ledger.projects[i].milestone_states[step].milestone_votes, wallet) {
        Option::None => {
            return Err(ContractError::NotFound);
        },
        Option::Some(vi) => vi,
    };
    let mut p = ledger.projects.remove(i);
    let ghost ms_pre = p.milestone_states@;
    let mut m = p.milestone_states.remove(step);
    let ghost votes_pre = m.milestone_votes@;
    let v = m.milestone_votes.remove(vi);
    let v2 = Vote { voted, ..v };
    m.milestone_votes.insert(vi, v2);
    proof {
        lemma_remove_insert(votes_pre, vi as int, v2);
    }
    let released = check_all_voted(&m.milestone_votes);
    if released {
        m.milestone_status = MilestoneStatus::Released;
    }
    p.milestone_states.insert(step, m);
    proof {
        lemma_remove_insert(ms_pre, step as int, p.milestone_states@[step as int]);
    }
    if released {
        let n = p.milestone_states.len();
        let step2 = step + 1;
        p.project_milestonestep = step2;
        if step2 >= n {
            p.project_status = ProjectStatus::Done;
        }
    }
    ledger.projects.insert(i, p);
    proof {
        lemma_remove_insert(old(ledger).projects@, i as int, ledger.projects@[i as int]);
        lemma_wf_update(*old(ledger), *ledger, i as int, ledger.projects@[i as int]);
    }
    Ok(Response { messages: Vec::new() })
}

/// Appending a well-formed project under the next id keeps the ledger well
/// formed.
pub proof fn lemma_wf_append(pre: Ledger, post: Ledger, p: ProjectState)
    requires
        wf_ledger(pre),
        pre.project_seq < u128::MAX,
        post.projects@ == pre.projects@.push(p),
        wf_project(p),
        p.project_id == pre.project_seq + 1,
        post.project_seq == pre.project_seq + 1,
        post.community@ == pre.community@,
    ensures
        wf_ledger(post),
{
    let n = pre.projects@.len() as int;
    assert forall|j: int| 0 <= j < post.projects@.len() implies wf_project(
        #[trigger] post.projects@[j],
    ) by {
        if j < n {
            assert(post.projects@[j] == pre.projects@[j]);
            assert(wf_project(pre.projects@[j]));
        }
    }
    assert forall|j: int|
        0 <= j < post.projects@.len() implies 1 <= (#[trigger] post.projects@[j].project_id)
        <= post.project_seq by {
        if j < n {
            assert(post.projects@[j] == pre.projects@[j]);
            assert(1 <= pre.projects@[j].project_id <= pre.project_seq);
        }
    }
    assert forall|x: int, y: int|
        0 <= x < y < post.projects@.len() implies post.projects@[x].project_id
        < post.projects@[y].project_id by {
        assert(post.projects@[x] == pre.projects@[x]);
        if y < n {
            assert(post.projects@[y] == pre.projects@[y]);
        } else {
            assert(pre.projects@[x].project_id <= pre.project_seq);
        }
    }
}

/// Striking one project record keeps the ledger well formed.
pub proof fn lemma_wf_remove(pre: Ledger, post: Ledger, i: int)
    requires
        wf_ledger(pre),
        0 <= i < pre.projects@.len(),
        post.projects@ == pre.projects@.remove(i),
        post.project_seq == pre.project_seq,
        post.community@ == pre.community@,
    ensures
        wf_ledger(post),
{
    assert forall|j: int| 0 <= j < post.projects@.len() implies wf_project(
        #[trigger] post.projects@[j],
    ) by {
        if j < i {
            assert(post.projects@[j] == pre.projects@[j]);
        } else {
            assert(post.projects@[j] == pre.projects@[j + 1]);
        }
        assert(wf_project(pre.projects@[j]) && wf_project(pre.projects@[j + 1]));
    }
    assert forall|j: int|
        0 <= j < post.projects@.len() implies 1 <= (#[trigger] post.projects@[j].project_id)
        <= post.project_seq by {
        if j < i {
            assert(post.projects@[j] == pre.projects@[j]);
        } else {
            assert(post.projects@[j] == pre.projects@[j + 1]);
        }
    }
    assert forall|x: int, y: int|
        0 <= x < y < post.projects@.len() implies post.projects@[x].project_id
        < post.projects@[y].project_id by {
        if x < i {
            assert(post.projects@[x] == pre.projects@[x]);
        } else {
            assert(post.projects@[x] == pre.projects@[x + 1]);
        }
        if y < i {
            assert(post.projects@[y] == pre.projects@[y]);
        } else {
            assert(post.projects@[y] == pre.projects@[y + 1]);
        }
    }
}

/// What the record of a freshly created project holds: the given metadata,
/// the next id, pending-approval status, empty pools, the given milestone
/// schedule from step zero, and one unvoted community-vote entry per
/// registered member.
pub open spec fn new_project_ok(
    q: ProjectState,
    pre: Ledger,
    project_name: String,
    project_createddate: String,
    project_description: String,
    project_teamdescription: String,
    project_category: String,
    project_subcategory: String,
    project_chain: String,
    project_collected: u128,
    project_deadline: String,
    project_website: String,
    project_icon: String,
    project_email: String,
    project_whitepaper: String,
    creator_wallet: String,
    project_milestones: Seq<Milestone>,
) -> bool {
    &&& q.project_name == project_name
    &&& q.project_createddate == project_createddate
    &&& q.project_description == project_description
    &&& q.project_teamdescription == project_teamdescription
    &&& q.project_category == project_category
    &&& q.project_subcategory == project_subcategory
    &&& q.project_chain == project_chain
    &&& q.project_deadline == project_deadline
    &&& q.project_website == project_website
    &&& q.project_icon == project_icon
    &&& q.project_email == project_email
    &&& q.project_whitepaper == project_whitepaper
    &&& q.project_id == pre.project_seq + 1
    &&& q.creator_wallet == creator_wallet
    &&& q.project_collected == project_collected
    &&& q.project_status is PendingApproval
    &&& q.backerbacked_amount == 0
    &&& q.communitybacked_amount == 0
    &&& q.backer_states@.len() == 0
    &&& q.communitybacker_states@.len() == 0
    &&& q.milestone_states@ == project_milestones
    &&& q.project_milestonestep == 0
    &&& q.community_votes@.len() == pre.community@.len()
    &&& forall|k: int|
        0 <= k < pre.community@.len() ==> (#[trigger] q.community_votes@[k]).wallet
            == pre.community@[k] && !q.community_votes@[k].voted
    &&& q.teammember_states@.len() == 0
    &&& q.vesting@.len() == 0
}

/// The outcome of creating a project: one record appended under the next id,
/// or an exhausted id sequence reported.
pub open spec fn addproject_post(
    pre: Ledger,
    post: Ledger,
    project_name: String,
    project_createddate: String,
    project_description: String,
    project_teamdescription: String,
    project_category: String,
    project_subcategory: String,
    project_chain: String,
    project_collected: u128,
    project_deadline: String,
    project_website: String,
    project_icon: String,
    project_email: String,
    project_whitepaper: String,
    creator_wallet: String,
    project_milestones: Seq<Milestone>,
    r: Result<Response, ContractError>,
) -> bool {
    if pre.project_seq == u128::MAX {
        post == pre && (r matches Err(e) && e is Overflow)
    } else {
        &&& r matches Ok(resp) && resp.messages@.len() == 0
        &&& post.config == pre.config
        &&& post.community == pre.community
        &&& post.project_seq == pre.project_seq + 1
        &&& post.projects@.len() == pre.projects@.len() + 1
        &&& forall|j: int|
            0 <= j < pre.projects@.len() ==> post.projects@[j] == pre.projects@[j]
        &&& new_project_ok(
            post.projects@.last(),
            pre,
            project_name,
            project_createddate,
            project_description,
            project_teamdescription,
            project_category,
            project_subcategory,
            project_chain,
            project_collected,
            project_deadline,
            project_website,
            project_icon,
            project_email,
            project_whitepaper,
            creator_wallet,
            project_milestones,
        )
    }
}

/// Creates a project in pending approval, with a community-vote entry for
/// every currently registered member.
pub fn try_addproject(
    ledger: &mut Ledger,
    _info: &MessageInfo,
    project_name: String,
    project_createddate: String,
    project_description: String,
    project_teamdescription: String,
    project_category: String,
    project_subcategory: String,
    project_chain: String,
    project_collected: u128,
    project_deadline: String,
    project_website: String,
    project_icon: String,
    project_email: String,
    project_whitepaper: String,
    creator_wallet: String,
    project_milestones: Vec<Milestone>,
) -> (r: Result<Response, ContractError>)
    requires
        wf_ledger(*old(ledger)),
    ensures
        wf_ledger(*final(ledger)),
        addproject_post(
            *old(ledger),
            *final(ledger),
            project_name,
            project_createddate,
            project_description,
            project_teamdescription,
            project_category,
            project_subcategory,
            project_chain,
            project_collected,
            project_deadline,
            project_website,
            project_icon,
            project_email,
            project_whitepaper,
            creator_wallet,
            project_milestones@,
            r,
        ),
{
    let mut community_votes: Vec<Vote> = Vec::new();
    let mut k: usize = 0;
    while k < ledger.community.len()
        invariant
            k <= ledger.community@.len(),
            community_votes@.len() == k,
            forall|t: int|
                0 <= t < k ==> (#[trigger] community_votes@[t]).wallet == ledger.community@[t]
                    && !community_votes@[t].voted,
        decreases ledger.community@.len() - k,
    {
        community_votes.push(Vote { wallet: ledger.community[k].clone(), voted: false });
        k += 1;
    }
    let new_project = ProjectState {
        project_name,
        project_createddate,
        project_description,
        project_teamdescription,
        project_category,
        project_subcategory,
        project_chain,
        project_deadline,
        project_website,
        project_icon,
        project_email,
        project_whitepaper,
        project_id: 0,
        creator_wallet,
        project_collected,
        project_status: ProjectStatus::PendingApproval,
        backerbacked_amount: 0,
        communitybacked_amount: 0,
        backer_states: Vec::new(),
        communitybacker_states: Vec::new(),
        milestone_states: project_milestones,
        project_milestonestep: 0,
        community_votes,
        teammember_states: Vec::new(),
        vesting: Vec::new(),
    };
    match save_projectstate(ledger, new_project) {
        Err(e) => Err(e),
        Ok(_) => {
            proof {
                lemma_wf_append(*old(ledger), *ledger, ledger.projects@.last());
            }
            Ok(Response { messages: Vec::new() })
        },
    }
}

/// The outcome of striking a project record, id sequence untouched.
pub open spec fn remove_project_post(
    pre: Ledger,
    post: Ledger,
    project_id: u128,
    r: Result<Response, ContractError>,
) -> bool {
    if !has_project(pre.projects@, project_id) {
        post == pre && (r matches Err(e) && e is NotFound)
    } else {
        &&& r matches Ok(resp) && resp.messages@.len() == 0
        &&& only_projects_touched(pre, post)
        &&& post.projects@ == pre.projects@.remove(proj_idx(pre.projects@, project_id))
    }
}

/// Strikes a project record from the ledger.
pub fn remove_project(ledger: &mut Ledger, project_id: u128) -> (r: Result<
    Response,
    ContractError,
>)
    requires
        wf_ledger(*old(ledger)),
    ensures
        wf_ledger(*final(ledger)),
        remove_project_post(*old(ledger), *final(ledger), project_id, r),
{
    let i = match find_project(&ledger.projects, project_id) {
        Option::None => {
            return Err(ContractError::NotFound);
        },
        Option::Some(i) => i,
    };
    proof {
        lemma_proj_idx_is(ledger.projects@, project_id, i as int);
    }
    ledger.projects.remove(i);
    proof {
        lemma_wf_remove(*old(ledger), *ledger, i as int);
    }
    Ok(Response { messages: Vec::new() })
}

/// The outcome of the owner's project removal.
pub open spec fn removeproject_post(
    pre: Ledger,
    post: Ledger,
    sender: String,
    project_id: u128,
    r: Result<Response, ContractError>,
) -> bool {
    if sender@ != pre.config.owner@ {
        post == pre && (r matches Err(e) && e is Unauthorized)
    } else {
        remove_project_post(pre, post, project_id, r)
    }
}

/// Strikes a project record; owner only.
pub fn try_removeproject(ledger: &mut Ledger, info: &MessageInfo, project_id: u128) -> (r: Result<
    Response,
    ContractError,
>)
    requires
        wf_ledger(*old(ledger)),
    ensures
        wf_ledger(*final(ledger)),
        removeproject_post(*old(ledger), *final(ledger), info.sender, project_id, r),
{
    if !str_eq(&info.sender, &ledger.config.owner) {
        return Err(ContractError::Unauthorized);
    }
    remove_project(ledger, project_id)
}

/// Sums the backer pools of every non-terminal project: the shared
/// denominator of the proportional yield withdrawal, recomputed fresh within
/// the same call as the withdrawal itself.
fn total_active_backed(projects: &Vec<ProjectState>) -> (r: Result<u128, ContractError>)
    requires
        forall|i: int| 0 <= i < projects@.len() ==> #[trigger] wf_project(projects@[i]),
    ensures
        match r {
            Ok(t) => t == total_backed_active(projects@),
            Err(e) => e is Overflow && total_backed_active(projects@) > u128::MAX,
        },
{
    let mut acc: u128 = 0;
    let mut k: usize = 0;
    while k < projects.len()
        invariant
            k <= projects@.len(),
            forall|i: int| 0 <= i < projects@.len() ==> #[trigger] wf_project(projects@[i]),
            acc == total_backed_active(projects@.subrange(0, k as int)),
        decreases projects@.len() - k,
    {
        let st = projects[k].project_status;
        proof {
            lemma_total_active_step(projects@, k as int);
            assert(wf_project(projects@[k as int]));
        }
        if !(st == ProjectStatus::Done || st == ProjectStatus::Failed) {
            acc = match acc.checked_add(projects[k].backerbacked_amount) {
                Option::None => {
                    proof {
                        lemma_total_active_prefix_bound(projects@, k as int + 1);
                    }
                    return Err(ContractError::Overflow);
                },
                Option::Some(x) => x,
            };
        }
        k += 1;
    }
    proof {
        assert(projects@.subrange(0, projects@.len() as int) =~= projects@);
    }
    Ok(acc)
}

/// The outcome of the owner's forced completion of a project: the yield
/// withdrawal proportional to the project's share of all active backing is
/// redeemed, the collected backer pool is sent to the creator, and the
/// project is done.
pub open spec fn completeproject_post(
    pre: Ledger,
    post: Ledger,
    sender: String,
    project_id: u128,
    aust_balance: u128,
    r: Result<Response, ContractError>,
) -> bool {
    if sender@ != pre.config.owner@ {
        post == pre && (r matches Err(e) && e is Unauthorized)
    } else if !has_project(pre.projects@, project_id) {
        post == pre && (r matches Err(e) && e is NotFound)
    } else {
        let i = proj_idx(pre.projects@, project_id);
        let p = pre.projects@[i];
        if !(p.project_status is PendingApproval) {
            post == pre && (r matches Err(e) && e is AlreadyDoneFail)
        } else {
            let collected = sum_backed(p.backer_states@);
            let total = total_backed_active(pre.projects@);
            if total > u128::MAX {
                post == pre && (r matches Err(e) && e is Overflow)
            } else if total == 0 {
                post == pre && (r matches Err(e) && e is DivideByZero)
            } else if aust_balance * collected > u128::MAX {
                post == pre && (r matches Err(e) && e is Overflow)
            } else {
                let withdraw = aust_balance * collected / total;
                &&& r matches Ok(resp)
                &&& only_projects_touched(pre, post)
                &&& updated_at(
                    pre.projects@,
                    post.projects@,
                    i,
                    (ProjectState { project_status: ProjectStatus::Done, ..p }),
                )
                &&& resp.messages@.len() == 2
                &&& (resp.messages@[0] matches Instruction::RedeemStable {
                    aust_token,
                    market,
                    amount,
                } && aust_token@ == pre.config.aust_token@ && market@ == pre.config.anchor_market@
                    && amount == withdraw)
                &&& (resp.messages@[1] matches Instruction::NativeSend { to_address, coins }
                    && to_address@ == p.creator_wallet@ && coins@.len() == 1 && coins@[0].denom@
                    == "uusd"@ && coins@[0].amount == collected)
            }
        }
    }
}

/// The outcome of the owner's forced failure of a project: the proportional
/// yield withdrawal is redeemed and every backer is refunded their own net
/// contribution; the project is failed.
pub open spec fn failproject_post(
    pre: Ledger,
    post: Ledger,
    sender: String,
    project_id: u128,
    aust_balance: u128,
    r: Result<Response, ContractError>,
) -> bool {
    if sender@ != pre.config.owner@ {
        post == pre && (r matches Err(e) && e is Unauthorized)
    } else if !has_project(pre.projects@, project_id) {
        post == pre && (r matches Err(e) && e is NotFound)
    } else {
        let i = proj_idx(pre.projects@, project_id);
        let p = pre.projects@[i];
        if !(p.project_status is PendingApproval) {
            post == pre && (r matches Err(e) && e is AlreadyDoneFail)
        } else {
            let collected = sum_backed(p.backer_states@);
            let total = total_backed_active(pre.projects@);
            if total > u128::MAX {
                post == pre && (r matches Err(e) && e is Overflow)
            } else if total == 0 {
                post == pre && (r matches Err(e) && e is DivideByZero)
            } else if aust_balance * collected > u128::MAX {
                post == pre && (r matches Err(e) && e is Overflow)
            } else {
                let withdraw = aust_balance * collected / total;
                &&& r matches Ok(resp)
                &&& only_projects_touched(pre, post)
                &&& updated_at(
                    pre.projects@,
                    post.projects@,
                    i,
                    (ProjectState { project_status: ProjectStatus::Failed, ..p }),
                )
                &&& resp.messages@.len() == 1 + p.backer_states@.len()
                &&& (resp.messages@[0] matches Instruction::RedeemStable {
                    aust_token,
                    market,
                    amount,
                } && aust_token@ == pre.config.aust_token@ && market@ == pre.config.anchor_market@
                    && amount == withdraw)
                &&& forall|k: int|
                    0 <= k < p.backer_states@.len()
                        ==> ((#[trigger] resp.messages@[1 + k]) matches Instruction::NativeSend {
                        to_address,
                        coins,
                    } && to_address@ == p.backer_states@[k].backer_wallet@ && coins@.len() == 1
                        && coins@[0] == p.backer_states@[k].ust_amount)
            }
        }
    }
}

/// The withdraw amount and emitted redeem instruction shared by completion
/// and failure: `aust_balance * collected / total_active`, truncating.
fn compute_withdraw(
    projects: &Vec<ProjectState>,
    i: usize,
    aust_balance: u128,
) -> (r: Result<(u128, u128), ContractError>)
    requires
        forall|j: int| 0 <= j < projects@.len() ==> #[trigger] wf_project(projects@[j]),
        i < projects@.len(),
    ensures
        match r {
            Ok((collected, withdraw)) => {
                &&& collected == sum_backed(projects@[i as int].backer_states@)
                &&& total_backed_active(projects@) <= u128::MAX
                &&& total_backed_active(projects@) > 0
                &&& aust_balance * collected <= u128::MAX
                &&& withdraw == aust_balance * collected / total_backed_active(projects@)
            },
            Err(e) => {
                let collected = sum_backed(projects@[i as int].backer_states@);
                let total = total_backed_active(projects@);
                if total > u128::MAX {
                    e is Overflow
                } else if total == 0 {
                    e is DivideByZero
                } else {
                    e is Overflow && aust_balance * collected > u128::MAX
                }
            },
        },
{
    proof {
        assert(wf_project(projects@[i as int]));
    }
    let collected = projects[i].backerbacked_amount;
    let total = match total_active_backed(projects) {
        Err(e) => {
            return Err(e);
        },
        Ok(t) => t,
    };
    if total == 0 {
        return Err(ContractError::DivideByZero);
    }
    let prod = match aust_balance.checked_mul(collected) {
        Option::None => {
            return Err(ContractError::Overflow);
        },
        Option::Some(x) => x,
    };
    Ok((collected, prod / total))
}

/// Forces a pending project to completion; owner only.  Emits the
/// proportional yield redemption and the transfer of the collected backer
/// pool to the creator.
pub fn try_completeproject(
    ledger: &mut Ledger,
    info: &MessageInfo,
    project_id: u128,
    aust_balance: u128,
) -> (r: Result<Response, ContractError>)
    requires
        wf_ledger(*old(ledger)),
    ensures
        wf_ledger(*final(ledger)),
        completeproject_post(
            *old(ledger),
            *final(ledger),
            info.sender,
            project_id,
            aust_balance,
            r,
        ),
{
    if !str_eq(&info.sender, &ledger.config.owner) {
        return Err(ContractError::Unauthorized);
    }
    let i = match find_project(&ledger.projects, project_id) {
        Option::None => {
            return Err(ContractError::NotFound);
        },
        Option::Some(i) => i,
    };
    proof {
        lemma_proj_idx_is(ledger.projects@, project_id, i as int);
    }
    if ledger.projects[i].project_status != ProjectStatus::PendingApproval {
        return Err(ContractError::AlreadyDoneFail);
    }
    let (collected, withdraw) = match compute_withdraw(&ledger.projects, i, aust_balance) {
        Err(e) => {
            return Err(e);
        },
        Ok(x) => x,
    };
    let redeem = Instruction::RedeemStable {
        aust_token: ledger.config.aust_token.clone(),
        market: ledger.config.anchor_market.clone(),
        amount: withdraw,
    };
    let mut coins: Vec<Coin> = Vec::new();
    coins.push(Coin { denom: String::from_str("uusd"), amount: collected });
    let send = Instruction::NativeSend {
        to_address: ledger.projects[i].creator_wallet.clone(),
        coins,
    };
    let p = ledger.projects.remove(i);
    let p2 = ProjectState { project_status: ProjectStatus::Done, ..p };
    ledger.projects.insert(i, p2);
    proof {
        lemma_remove_insert(old(ledger).projects@, i as int, p2);
        assert(wf_project(old(ledger).projects@[i as int]));
        lemma_wf_update(*old(ledger), *ledger, i as int, p2);
    }
    let mut messages: Vec<Instruction> = Vec::new();
    messages.push(redeem);
    messages.push(send);
    Ok(Response { messages })
}

/// Forces a pending project to failure; owner only.  Emits the proportional
/// yield redemption and one refund per backer of their own net contribution;
/// nothing goes to the creator.
pub fn try_failproject(
    ledger: &mut Ledger,
    info: &MessageInfo,
    project_id: u128,
    aust_balance: u128,
) -> (r: Result<Response, ContractError>)
    requires
        wf_ledger(*old(ledger)),
    ensures
        wf_ledger(*final(ledger)),
        failproject_post(*old(ledger), *final(ledger), info.sender, project_id, aust_balance, r),
{
    if !str_eq(&info.sender, &ledger.config.owner) {
        return Err(ContractError::Unauthorized);
    }
    let i = match find_project(&ledger.projects, project_id) {
        Option::None => {
            return Err(ContractError::NotFound);
        },
        Option::Some(i) => i,
    };
    proof {
        lemma_proj_idx_is(ledger.projects@, project_id, i as int);
    }
    if ledger.projects[i].project_status != ProjectStatus::PendingApproval {
        return Err(ContractError::AlreadyDoneFail);
    }
    let (_collected, withdraw) = match compute_withdraw(&ledger.projects, i, aust_balance) {
        Err(e) => {
            return Err(e);
        },
        Ok(x) => x,
    };
    let mut messages: Vec<Instruction> = Vec::new();
    messages.push(
        Instruction::RedeemStable {
            aust_token: ledger.config.aust_token.clone(),
            market: ledger.config.anchor_market.clone(),
            amount: withdraw,
        },
    );
    let ghost backers = ledger.projects@[i as int].backer_states@;
    let mut k: usize = 0;
    while k < ledger.projects[i].backer_states.len()
        invariant
            *ledger == *old(ledger),
            wf_ledger(*ledger),
            i < ledger.projects@.len(),
            backers == ledger.projects@[i as int].backer_states@,
            k <= backers.len(),
            messages@.len() == 1 + k,
            (messages@[0] matches Instruction::RedeemStable { aust_token, market, amount }
                && aust_token@ == old(ledger).config.aust_token@ && market@ == old(
                ledger,
            ).config.anchor_market@ && amount == withdraw),
            forall|t: int|
                0 <= t < k ==> ((#[trigger] messages@[1 + t]) matches Instruction::NativeSend {
                    to_address,
                    coins,
                } && to_address@ == backers[t].backer_wallet@ && coins@.len() == 1 && coins@[0]
                    == backers[t].ust_amount),
        decreases backers.len() - k,
    {
        let b = &ledger.projects[i].backer_states[k];
        let mut coins: Vec<Coin> = Vec::new();
        coins.push(b.ust_amount.clone());
        messages.push(
            Instruction::NativeSend { to_address: b.backer_wallet.clone(), coins },
        );
        k += 1;
    }
    let p = ledger.projects.remove(i);
    let p2 = ProjectState { project_status: ProjectStatus::Failed, ..p };
    ledger.projects.insert(i, p2);
    proof {
        lemma_remove_insert(old(ledger).projects@, i as int, p2);
        assert(wf_project(old(ledger).projects@[i as int]));
        lemma_wf_update(*old(ledger), *ledger, i as int, p2);
    }
    Ok(Response { messages })
}

/// Equal to a forced completion: the explicit release path drives the same
/// proportional withdrawal and creator payout and marks the project done.
pub fn try_releasemilestone(
    ledger: &mut Ledger,
    info: &MessageInfo,
    project_id: u128,
    aust_balance: u128,
) -> (r: Result<Response, ContractError>)
    requires
        wf_ledger(*old(ledger)),
    ensures
        wf_ledger(*final(ledger)),
        completeproject_post(
            *old(ledger),
            *final(ledger),
            info.sender,
            project_id,
            aust_balance,
            r,
        ),
{
    try_completeproject(ledger, info, project_id, aust_balance)
}

/// Every base-currency coin of the contract covers the operational buffer.
pub open spec fn reserve_ok(coins: Seq<Coin>) -> bool {
    forall|i: int|
        0 <= i < coins.len() && (#[trigger] coins[i]).denom@ == "uusd"@ ==> coins[i].amount
            >= OPERATIONAL_RESERVE
}

/// The contract's native coins with the operational buffer held back from
/// the base-currency entry.
pub open spec fn adjusted_native(coins: Seq<Coin>) -> Seq<Coin> {
    Seq::new(
        coins.len(),
        |i: int|
            if coins[i].denom@ == "uusd"@ {
                (Coin { denom: coins[i].denom, amount: (coins[i].amount - OPERATIONAL_RESERVE) as u128 })
            } else {
                coins[i]
            },
    )
}

/// The outcome of the administrative sweep: all native coins above the
/// buffer and the whole yield-token balance go to the given wallet; the
/// ledger is untouched.
pub open spec fn transferallcoins_post(
    pre: Ledger,
    post: Ledger,
    sender: String,
    wallet: String,
    balances: ChainBalances,
    r: Result<Response, ContractError>,
) -> bool {
    if sender@ != pre.config.owner@ {
        post == pre && (r matches Err(e) && e is Unauthorized)
    } else if !reserve_ok(balances.native@) {
        post == pre && (r matches Err(e) && e is InsufficientReserve)
    } else {
        &&& post == pre
        &&& r matches Ok(resp)
        &&& resp.messages@.len() == 2
        &&& (resp.messages@[0] matches Instruction::NativeSend { to_address, coins }
            && to_address@ == wallet@ && coins@ == adjusted_native(balances.native@))
        &&& (resp.messages@[1] matches Instruction::TokenTransfer { token, recipient, amount }
            && token@ == pre.config.aust_token@ && recipient@ == wallet@ && amount
            == balances.aust_balance)
    }
}

/// Sweeps the contract's balances to a wallet, keeping the operational
/// base-currency buffer; owner only.
pub fn try_transferallcoins(
    ledger: &mut Ledger,
    info: &MessageInfo,
    wallet: String,
    balances: &ChainBalances,
) -> (r: Result<Response, ContractError>)
    requires
        wf_ledger(*old(ledger)),
    ensures
        wf_ledger(*final(ledger)),
        transferallcoins_post(
            *old(ledger),
            *final(ledger),
            info.sender,
            wallet,
            *balances,
            r,
        ),
{
    if !str_eq(&info.sender, &ledger.config.owner) {
        return Err(ContractError::Unauthorized);
    }
    let uusd = String::from_str("uusd");
    let mut nativecoins: Vec<Coin> = Vec::new();
    let mut k: usize = 0;
    while k < balances.native.len()
        invariant
            *ledger == *old(ledger),
            wf_ledger(*ledger),
            info.sender@ == old(ledger).config.owner@,
            k <= balances.native@.len(),
            uusd@ == "uusd"@,
            nativecoins@.len() == k,
            forall|t: int|
                0 <= t < k ==> #[trigger] nativecoins@[t] == adjusted_native(balances.native@)[t],
            forall|t: int|
                0 <= t < k && (#[trigger] balances.native@[t]).denom@ == "uusd"@
                    ==> balances.native@[t].amount >= OPERATIONAL_RESERVE,
        decreases balances.native@.len() - k,
    {
        let c = &balances.native[k];
        if str_eq(&c.denom, &uusd) {
            if c.amount < OPERATIONAL_RESERVE {
                proof {
                    assert(!reserve_ok(balances.native@)) by {
                        assert(balances.native@[k as int].denom@ == "uusd"@);
                        assert(balances.native@[k as int].amount < OPERATIONAL_RESERVE);
                    }
                }
                return Err(ContractError::InsufficientReserve);
            }
            nativecoins.push(Coin { denom: c.denom.clone(), amount: c.amount - OPERATIONAL_RESERVE });
        } else {
            nativecoins.push(c.clone());
        }
        k += 1;
    }
    proof {
        assert(nativecoins@ =~= adjusted_native(balances.native@));
    }
    let bank_native = Instruction::NativeSend { to_address: wallet.clone(), coins: nativecoins };
    let bank_aust = Instruction::TokenTransfer {
        token: ledger.config.aust_token.clone(),
        recipient: wallet,
        amount: balances.aust_balance,
    };
    let mut messages: Vec<Instruction> = Vec::new();
    messages.push(bank_native);
    messages.push(bank_aust);
    Ok(Response { messages })
}

/// The net amount routed to the money market for a contribution: the
/// proportional split above the threshold, a flat deduction below it.
pub open spec fn net_of(amount: u128) -> int {
    if amount >= FEE_SPLIT_THRESHOLD {
        amount * 100 / 105
    } else {
        amount - SMALL_BACK_DEDUCTION
    }
}

/// The platform fee sent to the treasury for a contribution.  The flat branch
/// below the threshold keeps the fee from underflowing for small amounts.
pub open spec fn fee_of(amount: u128) -> int {
    if amount >= FEE_SPLIT_THRESHOLD {
        amount * 5 / 105 - TRANSFER_COST
    } else {
        SMALL_BACK_FEE as int
    }
}

/// Each pool's cap: half the goal, in micro-units; the division truncates
/// before the scaling, as the policy fixes it.
pub open spec fn pool_cap(goal: u128) -> int {
    goal / 2 * UST
}

/// The contribution record appended for an accepted backing.
pub open spec fn backer_record_ok(
    b: BackerState,
    wallet: String,
    denom: Seq<char>,
    net: int,
) -> bool {
    &&& b.backer_wallet == wallet
    &&& b.ust_amount.denom@ == denom
    &&& b.ust_amount.amount == net
    &&& b.aust_amount.denom@ == "aust"@
    &&& b.aust_amount.amount == 0
}

/// A materialized milestone vote set: one unvoted entry per backer-pool
/// contributor, then one pre-voted entry for the owner.
pub open spec fn milestone_votes_ok(
    votes: Seq<Vote>,
    backers: Seq<BackerState>,
    owner: Seq<char>,
) -> bool {
    &&& votes.len() == backers.len() + 1
    &&& forall|k: int|
        0 <= k < backers.len() ==> (#[trigger] votes[k]).wallet@ == backers[k].backer_wallet@
            && !votes[k].voted
    &&& votes[backers.len() as int].wallet@ == owner
    &&& votes[backers.len() as int].voted
}

/// Every milestone keeps its definition and receives the materialized vote
/// set.
pub open spec fn milestones_materialized(
    post: Seq<Milestone>,
    pre: Seq<Milestone>,
    backers: Seq<BackerState>,
    owner: Seq<char>,
) -> bool {
    &&& post.len() == pre.len()
    &&& forall|k: int|
        0 <= k < pre.len() ==> (#[trigger] post[k]) == (Milestone {
            milestone_votes: post[k].milestone_votes,
            ..pre[k]
        }) && milestone_votes_ok(post[k].milestone_votes@, backers, owner)
}

/// The outcome of a contribution to a fundraising project: the fee split is
/// applied, the net amount is credited to the contributor's pool — community
/// members to the community pool, everyone else to the backer pool — a
/// deposit to the money market and the fee transfer to the treasury are
/// emitted, and filling both pools moves the project into milestone release
/// with its vote sets materialized.
pub open spec fn back2project_post(
    pre: Ledger,
    post: Ledger,
    info: MessageInfo,
    project_id: u128,
    backer_wallet: String,
    r: Result<Response, ContractError>,
) -> bool {
    if !has_project(pre.projects@, project_id) {
        post == pre && (r matches Err(e) && e is NotFound)
    } else {
        let i = proj_idx(pre.projects@, project_id);
        let p = pre.projects@[i];
        if !(p.project_status is Fundraising) {
            post == pre && (r matches Err(e) && e == (ContractError::WrongStatus {
                expected: ProjectStatus::Fundraising,
                actual: p.project_status,
            }))
        } else if info.funds@.len() == 0 || info.funds@[0].amount < MIN_BACKING {
            post == pre && (r matches Err(e) && e is InsufficientFunds)
        } else {
            let amount = info.funds@[0].amount;
            if amount >= FEE_SPLIT_THRESHOLD && amount * 100 > u128::MAX {
                post == pre && (r matches Err(e) && e is Overflow)
            } else if pool_cap(p.project_collected) > u128::MAX {
                post == pre && (r matches Err(e) && e is Overflow)
            } else {
                let net = net_of(amount);
                let comm = is_member(pre.community@, backer_wallet@);
                let pool_total = if comm {
                    p.communitybacked_amount as int
                } else {
                    p.backerbacked_amount as int
                };
                if pool_total >= pool_cap(p.project_collected) {
                    post == pre && (r matches Err(e) && e is AlreadyCollected)
                } else if pool_total + net > u128::MAX {
                    post == pre && (r matches Err(e) && e is Overflow)
                } else {
                    let q = post.projects@[i];
                    let denom = info.funds@[0].denom@;
                    let cap = pool_cap(p.project_collected);
                    let full = q.backerbacked_amount >= cap && q.communitybacked_amount >= cap;
                    &&& (r matches Ok(resp) && resp.messages@.len() == 2 && (
                        resp.messages@[0] matches Instruction::DepositStable { market, fund }
                            && market@ == pre.config.anchor_market@ && fund.denom@ == denom
                            && fund.amount == net
                    ) && (
                        resp.messages@[1] matches Instruction::NativeSend { to_address, coins }
                            && to_address@ == pre.config.wefund@ && coins@.len() == 1
                            && coins@[0].denom@ == denom && coins@[0].amount == fee_of(amount)
                    ))
                    &&& only_projects_touched(pre, post)
                    &&& post.projects@.len() == pre.projects@.len()
                    &&& forall|j: int|
                        0 <= j < pre.projects@.len() && j != i ==> post.projects@[j]
                            == pre.projects@[j]
                    &&& (if comm {
                        &&& q.backer_states@ == p.backer_states@
                        &&& q.communitybacker_states@.len() == p.communitybacker_states@.len() + 1
                        &&& forall|t: int|
                            0 <= t < p.communitybacker_states@.len()
                                ==> q.communitybacker_states@[t] == p.communitybacker_states@[t]
                        &&& backer_record_ok(
                            q.communitybacker_states@.last(),
                            backer_wallet,
                            denom,
                            net,
                        )
                        &&& q.communitybacked_amount == p.communitybacked_amount + net
                        &&& q.backerbacked_amount == p.backerbacked_amount
                    } else {
                        &&& q.communitybacker_states@ == p.communitybacker_states@
                        &&& q.backer_states@.len() == p.backer_states@.len() + 1
                        &&& forall|t: int|
                            0 <= t < p.backer_states@.len() ==> q.backer_states@[t]
                                == p.backer_states@[t]
                        &&& backer_record_ok(q.backer_states@.last(), backer_wallet, denom, net)
                        &&& q.backerbacked_amount == p.backerbacked_amount + net
                        &&& q.communitybacked_amount == p.communitybacked_amount
                    })
                    &&& q.project_status == (if full {
                        if p.milestone_states@.len() > 0 {
                            ProjectStatus::MilestoneReleasing
                        } else {
                            ProjectStatus::Done
                        }
                    } else {
                        ProjectStatus::Fundraising
                    })
                    &&& (if full {
                        milestones_materialized(
                            q.milestone_states@,
                            p.milestone_states@,
                            q.backer_states@,
                            pre.config.owner@,
                        )
                    } else {
                        q.milestone_states@ == p.milestone_states@
                    })
                    &&& q == (ProjectState {
                        project_status: q.project_status,
                        backerbacked_amount: q.backerbacked_amount,
                        communitybacked_amount: q.communitybacked_amount,
                        backer_states: q.backer_states,
                        communitybacker_states: q.communitybacker_states,
                        milestone_states: q.milestone_states,
                        ..p
                    })
                }
            }
        }
    }
}

/// Accepts a contribution into a fundraising project.
pub fn try_back2project(
    ledger: &mut Ledger,
    info: &MessageInfo,
    project_id: u128,
    backer_wallet: String,
) -> (r: Result<Response, ContractError>)
    requires
        wf_ledger(*old(ledger)),
    ensures
        wf_ledger(*final(ledger)),
        back2project_post(*old(ledger), *final(ledger), *info, project_id, backer_wallet, r),
{
    let i = match find_project(&ledger.projects, project_id) {
        Option::None => {
            return Err(ContractError::NotFound);
        },
        Option::Some(i) => i,
    };
    proof {
        lemma_proj_idx_is(ledger.projects@, project_id, i as int);
        assert(wf_project(ledger.projects@[i as int]));
    }
    let actual = ledger.projects[i].project_status;
    if actual != ProjectStatus::Fundraising {
        return Err(ContractError::WrongStatus { expected: ProjectStatus::Fundraising, actual });
    }
    if info.funds.len() == 0 {
        return Err(ContractError::InsufficientFunds);
    }
    let amount = info.funds[0].amount;
    if amount < MIN_BACKING {
        return Err(ContractError::InsufficientFunds);
    }
    let net: u128;
    let fee: u128;
    if amount >= FEE_SPLIT_THRESHOLD {
        let prod = match amount.checked_mul(100) {
            Option::None => {
                return Err(ContractError::Overflow);
            },
            Option::Some(x) => x,
        };
        net = prod / 105;
        let prod5 = amount * 5;
        let f5 = prod5 / 105;
        proof {
            vstd::arithmetic::div_mod::lemma_div_is_ordered(
                500000000 as int,
                prod5 as int,
                105 as int,
            );
        }
        fee = f5 - TRANSFER_COST;
    } else {
        net = amount - SMALL_BACK_DEDUCTION;
        fee = SMALL_BACK_FEE;
    }
    let cap = match (ledger.projects[i].project_collected / 2).checked_mul(UST) {
        Option::None => {
            return Err(ContractError::Overflow);
        },
        Option::Some(x) => x,
    };
    let comm = match find_member(&ledger.community, &backer_wallet) {
        Option::Some(_) => true,
        Option::None => false,
    };
    let pool_total = if comm {
        ledger.projects[i].communitybacked_amount
    } else {
        ledger.projects[i].backerbacked_amount
    };
    if pool_total >= cap {
        return Err(ContractError::AlreadyCollected);
    }
    let new_total = match pool_total.checked_add(net) {
        Option::None => {
            return Err(ContractError::Overflow);
        },
        Option::Some(x) => x,
    };
    let denom = info.funds[0].denom.clone();
    let mut p = ledger.projects.remove(i);
    let rec = BackerState {
        backer_wallet,
        ust_amount: Coin { denom: denom.clone(), amount: net },
        aust_amount: Coin { denom: String::from_str("aust"), amount: 0 },
    };
    if comm {
        let ghost pool_pre = p.communitybacker_states@;
        p.communitybacked_amount = new_total;
        p.communitybacker_states.push(rec);
        proof {
            lemma_sum_backed_push(pool_pre, p.communitybacker_states@.last());
        }
    } else {
        let ghost pool_pre = p.backer_states@;
        p.backerbacked_amount = new_total;
        p.backer_states.push(rec);
        proof {
            lemma_sum_backed_push(pool_pre, p.backer_states@.last());
        }
    }
    if p.backerbacked_amount >= cap && p.communitybacked_amount >= cap {
        let mut votes: Vec<Vote> = Vec::new();
        let mut k: usize = 0;
        let ghost p_snap = p;
        while k < p.backer_states.len()
            invariant
                p == p_snap,
                k <= p.backer_states@.len(),
                votes@.len() == k,
                forall|t: int|
                    0 <= t < k ==> (#[trigger] votes@[t]).wallet@
                        == p.backer_states@[t].backer_wallet@ && !votes@[t].voted,
            decreases p.backer_states@.len() - k,
        {
            votes.push(Vote { wallet: p.backer_states[k].backer_wallet.clone(), voted: false });
            k += 1;
        }
        votes.push(Vote { wallet: ledger.config.owner.clone(), voted: true });
        let ghost votes_snap = votes@;
        let ghost ms_snap = p.milestone_states@;
        let mut t: usize = 0;
        while t < p.milestone_states.len()
            invariant
                p == (ProjectState { milestone_states: p.milestone_states, ..p_snap }),
                votes@ == votes_snap,
                milestone_votes_ok(votes@, p.backer_states@, old(ledger).config.owner@),
                p.milestone_states@.len() == ms_snap.len(),
                t <= ms_snap.len(),
                forall|u: int| t <= u < ms_snap.len() ==> p.milestone_states@[u] == ms_snap[u],
                forall|u: int|
                    0 <= u < t ==> (#[trigger] p.milestone_states@[u]) == (Milestone {
                        milestone_votes: p.milestone_states@[u].milestone_votes,
                        ..ms_snap[u]
                    }) && p.milestone_states@[u].milestone_votes@ == votes_snap,
            decreases ms_snap.len() - t,
        {
            let ghost ms_pre = p.milestone_states@;
            let mut m = p.milestone_states.remove(t);
            m.milestone_votes = clone_votes(&votes);
            p.milestone_states.insert(t, m);
            proof {
                lemma_remove_insert(ms_pre, t as int, p.milestone_states@[t as int]);
            }
            t += 1;
        }
        if p.milestone_states.len() > 0 {
            p.project_status = ProjectStatus::MilestoneReleasing;
        } else {
            p.project_status = ProjectStatus::Done;
        }
    }
    ledger.projects.insert(i, p);
    proof {
        lemma_remove_insert(old(ledger).projects@, i as int, ledger.projects@[i as int]);
        lemma_wf_update(*old(ledger), *ledger, i as int, ledger.projects@[i as int]);
    }
    let deposit = Instruction::DepositStable {
        market: ledger.config.anchor_market.clone(),
        fund: Coin { denom: denom.clone(), amount: net },
    };
    let mut fee_coins: Vec<Coin> = Vec::new();
    fee_coins.push(Coin { denom, amount: fee });
    let send_fee = Instruction::NativeSend {
        to_address: ledger.config.wefund.clone(),
        coins: fee_coins,
    };
    let mut messages: Vec<Instruction> = Vec::new();
    messages.push(deposit);
    messages.push(send_fee);
    Ok(Response { messages })
}

/// Routes a mutating call to its handler.  The contract of each branch is
/// the corresponding handler's: the whole transition table stands in the
/// per-handler outcome predicates.
pub fn execute(
    ledger: &mut Ledger,
    info: MessageInfo,
    balances: &ChainBalances,
    msg: ExecuteMsg,
) -> (r: Result<Response, ContractError>)
    requires
        wf_ledger(*old(ledger)),
    ensures
        wf_ledger(*final(ledger)),
        match msg {
            ExecuteMsg::SetConfig { admin, wefund, anchor_market, aust_token } => setconfig_post(
                *old(ledger),
                *final(ledger),
                info.sender,
                admin,
                wefund,
                anchor_market,
                aust_token,
                r,
            ),
            ExecuteMsg::AddProject {
                project_name,
                project_createddate,
                project_description,
                project_teamdescription,
                project_category,
                project_subcategory,
                project_chain,
                project_collected,
                project_deadline,
                project_website,
                project_icon,
                project_email,
                project_whitepaper,
                creator_wallet,
                project_milestones,
            } => addproject_post(
                *old(ledger),
                *final(ledger),
                project_name,
                project_createddate,
                project_description,
                project_teamdescription,
                project_category,
                project_subcategory,
                project_chain,
                project_collected,
                project_deadline,
                project_website,
                project_icon,
                project_email,
                project_whitepaper,
                creator_wallet,
                project_milestones@,
                r,
            ),
            ExecuteMsg::RemoveProject { project_id } => removeproject_post(
                *old(ledger),
                *final(ledger),
                info.sender,
                project_id,
                r,
            ),
            ExecuteMsg::Back2Project { project_id, backer_wallet } => back2project_post(
                *old(ledger),
                *final(ledger),
                info,
                project_id,
                backer_wallet,
                r,
            ),
            ExecuteMsg::CompleteProject { project_id } => completeproject_post(
                *old(ledger),
                *final(ledger),
                info.sender,
                project_id,
                balances.aust_balance,
                r,
            ),
            ExecuteMsg::FailProject { project_id } => failproject_post(
                *old(ledger),
                *final(ledger),
                info.sender,
                project_id,
                balances.aust_balance,
                r,
            ),
            ExecuteMsg::TransferAllCoins { wallet } => transferallcoins_post(
                *old(ledger),
                *final(ledger),
                info.sender,
                wallet,
                *balances,
                r,
            ),
            ExecuteMsg::AddCommunitymember { wallet } => addcommunitymember_post(
                *old(ledger),
                *final(ledger),
                info.sender,
                wallet,
                r,
            ),
            ExecuteMsg::RemoveCommunitymember { wallet } => removecommunitymember_post(
                *old(ledger),
                *final(ledger),
                info.sender,
                wallet,
                r,
            ),
            ExecuteMsg::WeFundApprove { project_id } => wefundapprove_post(
                *old(ledger),
                *final(ledger),
                info.sender,
                project_id,
                r,
            ),
            ExecuteMsg::SetCommunityVote { project_id, wallet, voted } => setcommunityvote_post(
                *old(ledger),
                *final(ledger),
                project_id,
                wallet,
                voted,
                r,
            ),
            ExecuteMsg::SetMilestoneVote { project_id, wallet, voted } => setmilestonevote_post(
                *old(ledger),
                *final(ledger),
                project_id,
                wallet,
                voted,
                r,
            ),
            ExecuteMsg::ReleaseMilestone { project_id } => completeproject_post(
                *old(ledger),
                *final(ledger),
                info.sender,
                project_id,
                balances.aust_balance,
                r,
            ),
        },
{
    match msg {
        ExecuteMsg::SetConfig { admin, wefund, anchor_market, aust_token } => try_setconfig(
            ledger,
            &info,
            admin,
            wefund,
            anchor_market,
            aust_token,
        ),
        ExecuteMsg::AddProject {
            project_name,
            project_createddate,
            project_description,
            project_teamdescription,
            project_category,
            project_subcategory,
            project_chain,
            project_collected,
            project_deadline,
            project_website,
            project_icon,
            project_email,
            project_whitepaper,
            creator_wallet,
            project_milestones,
        } => try_addproject(
            ledger,
            &info,
            project_name,
            project_createddate,
            project_description,
            project_teamdescription,
            project_category,
            project_subcategory,
            project_chain,
            project_collected,
            project_deadline,
            project_website,
            project_icon,
            project_email,
            project_whitepaper,
            creator_wallet,
            project_milestones,
        ),
        ExecuteMsg::RemoveProject { project_id } => try_removeproject(ledger, &info, project_id),
        ExecuteMsg::Back2Project { project_id, backer_wallet } => try_back2project(
            ledger,
            &info,
            project_id,
            backer_wallet,
        ),
        ExecuteMsg::CompleteProject { project_id } => try_completeproject(
            ledger,
            &info,
            project_id,
            balances.aust_balance,
        ),
        ExecuteMsg::FailProject { project_id } => try_failproject(
            ledger,
            &info,
            project_id,
            balances.aust_balance,
        ),
        ExecuteMsg::TransferAllCoins { wallet } => try_transferallcoins(
            ledger,
            &info,
            wallet,
            balances,
        ),
        ExecuteMsg::AddCommunitymember { wallet } => try_addcommunitymember(ledger, &info, wallet),
        ExecuteMsg::RemoveCommunitymember { wallet } => try_removecommunitymember(
            ledger,
            &info,
            wallet,
        ),
        ExecuteMsg::WeFundApprove { project_id } => try_wefundapprove(ledger, &info, project_id),
        ExecuteMsg::SetCommunityVote { project_id, wallet, voted } => try_setcommunityvote(
            ledger,
            project_id,
            &wallet,
            voted,
        ),
        ExecuteMsg::SetMilestoneVote { project_id, wallet, voted } => try_setmilestonevote(
            ledger,
            project_id,
            &wallet,
            voted,
        ),
        ExecuteMsg::ReleaseMilestone { project_id } => try_releasemilestone(
            ledger,
            &info,
            project_id,
            balances.aust_balance,
        ),
    }
}

/// A pure read of the configuration.
fn query_getconfig(ledger: &Ledger) -> (r: Config)
    ensures
        r == ledger.config,
{
    ledger.config.clone()
}

/// All project records in creation order.
fn query_allproject(ledger: &Ledger) -> (r: Vec<ProjectState>)
    ensures
        r@.len() == ledger.projects@.len(),
        forall|i: int|
            0 <= i < ledger.projects@.len() ==> project_like(#[trigger] r@[i], ledger.projects@[i]),
{
    crate::state::clone_projects(&ledger.projects)
}

/// One project record, by id.
fn query_project(ledger: &Ledger, id: u128) -> (r: Result<ProjectState, ContractError>)
    requires
        wf_ledger(*ledger),
    ensures
        match r {
            Ok(p) => has_project(ledger.projects@, id) && project_like(
                p,
                ledger.projects@[proj_idx(ledger.projects@, id)],
            ),
            Err(e) => e is NotFound && !has_project(ledger.projects@, id),
        },
{
    match find_project(&ledger.projects, id) {
        Option::None => Err(ContractError::NotFound),
        Option::Some(i) => {
            proof {
                lemma_proj_idx_is(ledger.projects@, id, i as int);
            }
            Ok(ledger.projects[i].clone())
        },
    }
}

/// A project's backer-pool contribution records, by id.
fn query_backer(ledger: &Ledger, id: u128) -> (r: Result<Vec<BackerState>, ContractError>)
    requires
        wf_ledger(*ledger),
    ensures
        match r {
            Ok(b) => has_project(ledger.projects@, id) && b@ == ledger.projects@[proj_idx(
                ledger.projects@,
                id,
            )].backer_states@,
            Err(e) => e is NotFound && !has_project(ledger.projects@, id),
        },
{
    match find_project(&ledger.projects, id) {
        Option::None => Err(ContractError::NotFound),
        Option::Some(i) => {
            proof {
                lemma_proj_idx_is(ledger.projects@, id, i as int);
            }
            Ok(clone_backers(&ledger.projects[i].backer_states))
        },
    }
}

/// The registered community members.
fn query_communitymembers(ledger: &Ledger) -> (r: Vec<String>)
    ensures
        r@ == ledger.community@,
{
    clone_members(&ledger.community)
}

/// A wallet's balances as handed in by the shell, with its yield-token
/// balance appended as one more coin.
fn query_balance(bank: Vec<Coin>, aust_balance: u128) -> (r: Vec<Coin>)
    ensures
        r@.len() == bank@.len() + 1,
        forall|t: int| 0 <= t < bank@.len() ==> r@[t] == bank@[t],
        r@.last().denom@ == "aust"@,
        r@.last().amount == aust_balance,
{
    let mut r = bank;
    r.push(Coin { denom: String::from_str("aust"), amount: aust_balance });
    r
}

/// Routes a read-only call.  `bank` and `aust_balance` are the queried
/// wallet's balances as observed by the shell; only the balance query reads
/// them.
pub fn query(ledger: &Ledger, msg: QueryMsg, bank: Vec<Coin>, aust_balance: u128) -> (r: Result<
    QueryAnswer,
    ContractError,
>)
    requires
        wf_ledger(*ledger),
    ensures
        match msg {
            QueryMsg::GetConfig {  } => r matches Ok(a) && (a matches QueryAnswer::ConfigAnswer(c)
                && c == ledger.config),
            QueryMsg::GetAllProject {  } => r matches Ok(a) && (a matches QueryAnswer::AllProject(v)
                && v@.len() == ledger.projects@.len() && (forall|i: int|
                0 <= i < ledger.projects@.len() ==> project_like(
                    #[trigger] v@[i],
                    ledger.projects@[i],
                ))),
            QueryMsg::GetProject { project_id } => {
                if has_project(ledger.projects@, project_id) {
                    r matches Ok(a) && (a matches QueryAnswer::Project(p) && project_like(
                        p,
                        ledger.projects@[proj_idx(ledger.projects@, project_id)],
                    ))
                } else {
                    r matches Err(e) && e is NotFound
                }
            },
            QueryMsg::GetBacker { project_id } => {
                if has_project(ledger.projects@, project_id) {
                    r matches Ok(a) && (a matches QueryAnswer::Backer(b) && b@
                        == ledger.projects@[proj_idx(ledger.projects@, project_id)].backer_states@)
                } else {
                    r matches Err(e) && e is NotFound
                }
            },
            QueryMsg::GetBalance { wallet } => r matches Ok(a) && (a
                matches QueryAnswer::Balance(coins) && coins@.len() == bank@.len() + 1 && (forall|
                t: int,
            |
                0 <= t < bank@.len() ==> coins@[t] == bank@[t]) && coins@.last().denom@ == "aust"@
                && coins@.last().amount == aust_balance),
            QueryMsg::GetCommunitymembers {  } => r matches Ok(a) && (a
                matches QueryAnswer::Communitymembers(m) && m@ == ledger.community@),
        },
{
    match msg {
        QueryMsg::GetConfig {  } => Ok(QueryAnswer::ConfigAnswer(query_getconfig(ledger))),
        QueryMsg::GetAllProject {  } => Ok(QueryAnswer::AllProject(query_allproject(ledger))),
        QueryMsg::GetProject { project_id } => match query_project(ledger, project_id) {
            Ok(p) => Ok(QueryAnswer::Project(p)),
            Err(e) => Err(e),
        },
        QueryMsg::GetBacker { project_id } => match query_backer(ledger, project_id) {
            Ok(b) => Ok(QueryAnswer::Backer(b)),
            Err(e) => Err(e),
        },
        QueryMsg::GetBalance { wallet: _ } => Ok(
            QueryAnswer::Balance(query_balance(bank, aust_balance)),
        ),
        QueryMsg::GetCommunitymembers {  } => Ok(
            QueryAnswer::Communitymembers(query_communitymembers(ledger)),
        ),
    }
}

/// Fund conservation: in a well-formed ledger each project's two running
/// totals together equal the sum of the net credited amounts across both of
/// its contribution sequences.  Every handler keeps the ledger well formed,
/// so this holds at every observation point.
pub proof fn lemma_fund_conservation(l: Ledger, i: int)
    requires
        wf_ledger(l),
        0 <= i < l.projects@.len(),
    ensures
        l.projects@[i].backerbacked_amount + l.projects@[i].communitybacked_amount == sum_backed(
            l.projects@[i].backer_states@,
        ) + sum_backed(l.projects@[i].communitybacker_states@),
{
    assert(wf_project(l.projects@[i]));
}

/// Pool cap: a contribution is accepted only into a pool whose total is
/// still below half the goal, and one aimed at a pool already at its cap
/// fails with `AlreadyCollected` whenever it passes the earlier guards.
pub proof fn lemma_pool_cap(
    pre: Ledger,
    post: Ledger,
    info: MessageInfo,
    project_id: u128,
    backer_wallet: String,
    r: Result<Response, ContractError>,
)
    requires
        wf_ledger(pre),
        back2project_post(pre, post, info, project_id, backer_wallet, r),
        has_project(pre.projects@, project_id),
    ensures
        ({
            let p = pre.projects@[proj_idx(pre.projects@, project_id)];
            let cap = pool_cap(p.project_collected);
            let pool = if is_member(pre.community@, backer_wallet@) {
                p.communitybacked_amount as int
            } else {
                p.backerbacked_amount as int
            };
            &&& r is Ok ==> pool < cap
            &&& {
                &&& p.project_status is Fundraising
                &&& info.funds@.len() > 0
                &&& info.funds@[0].amount >= MIN_BACKING
                &&& !(info.funds@[0].amount >= FEE_SPLIT_THRESHOLD && info.funds@[0].amount * 100
                    > u128::MAX)
                &&& cap <= u128::MAX
                &&& pool >= cap
            } ==> (r matches Err(e) && e is AlreadyCollected)
        }),
{
}

/// Status gating, at the contribution handler: a contribution to a project
/// outside fundraising — for one, a project still pending approval — fails
/// with `WrongStatus` carrying the expected and the actual status.
pub proof fn lemma_status_gating(
    pre: Ledger,
    post: Ledger,
    info: MessageInfo,
    project_id: u128,
    backer_wallet: String,
    r: Result<Response, ContractError>,
)
    requires
        wf_ledger(pre),
        back2project_post(pre, post, info, project_id, backer_wallet, r),
        has_project(pre.projects@, project_id),
        !(pre.projects@[proj_idx(pre.projects@, project_id)].project_status is Fundraising),
    ensures
        post == pre,
        r matches Err(e) && e == (ContractError::WrongStatus {
            expected: ProjectStatus::Fundraising,
            actual: pre.projects@[proj_idx(pre.projects@, project_id)].project_status,
        }),
{
}

/// Milestone unanimity: an accepted milestone vote releases the milestone
/// and advances the step exactly when it makes the last outstanding flag
/// true; any earlier vote leaves the milestone in voting, the step in place
/// and the project releasing.
pub proof fn lemma_milestone_unanimity(
    pre: Ledger,
    post: Ledger,
    project_id: u128,
    wallet: String,
    voted: bool,
    r: Result<Response, ContractError>,
)
    requires
        wf_ledger(pre),
        setmilestonevote_post(pre, post, project_id, wallet, voted, r),
        r is Ok,
    ensures
        ({
            let i = proj_idx(pre.projects@, project_id);
            let p = pre.projects@[i];
            let step = p.project_milestonestep as int;
            let m = p.milestone_states@[step];
            let votes2 = m.milestone_votes@.update(
                voter_idx(m.milestone_votes@, wallet@),
                (Vote { voted, ..m.milestone_votes@[voter_idx(m.milestone_votes@, wallet@)] }),
            );
            let q = post.projects@[i];
            &&& all_voted(votes2) ==> q.milestone_states@[step].milestone_status is Released
                && q.project_milestonestep == step + 1
            &&& !all_voted(votes2) ==> q.milestone_states@[step].milestone_status is Voting
                && q.project_milestonestep == step && q.project_status is MilestoneReleasing
        }),
{
}

} // verus!
