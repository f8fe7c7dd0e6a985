//! The persistent state of the engine: configuration, community registry and
//! the project ledger, together with the well-formedness invariants that every
//! entry point preserves.

use vstd::prelude::*;
use crate::error::ContractError;

verus! {

/// Micro-units per unit of base currency.
pub const UST: u128 = 1000000;

/// Smallest accepted contribution: 6 units of base currency.
pub const MIN_BACKING: u128 = 6000000;

/// Contributions of at least 100 units use the proportional fee split.
pub const FEE_SPLIT_THRESHOLD: u128 = 100000000;

/// Fixed transfer cost deducted from the proportional platform fee: 4 units.
pub const TRANSFER_COST: u128 = 4000000;

/// Deduction applied to contributions below the threshold: 5 units.
pub const SMALL_BACK_DEDUCTION: u128 = 5000000;

/// Flat platform fee for contributions below the threshold: 1 unit.
pub const SMALL_BACK_FEE: u128 = 1000000;

/// Base-currency buffer kept back by the administrative sweep: 4 units.
pub const OPERATIONAL_RESERVE: u128 = 4000000;

/// A native-asset amount of a named denomination.
#[derive(Debug)]
pub struct Coin {
    pub denom: String,
    pub amount: u128,
}

impl Clone for Coin {
    fn clone(&self) -> (r: Coin)
        ensures
            r == *self,
    {
        Coin { denom: self.denom.clone(), amount: self.amount }
    }
}

/// The singleton configuration: owner, treasury and the external money-market
/// and yield-token addresses.
#[derive(Debug)]
pub struct Config {
    pub owner: String,
    pub wefund: String,
    pub anchor_market: String,
    pub aust_token: String,
}

impl Clone for Config {
    fn clone(&self) -> (r: Config)
        ensures
            r == *self,
    {
        Config {
            owner: self.owner.clone(),
            wefund: self.wefund.clone(),
            anchor_market: self.anchor_market.clone(),
            aust_token: self.aust_token.clone(),
        }
    }
}

/// The lifecycle state of a project.
#[derive(Clone, Copy, Debug, PartialEq, Eq, Structural)]
pub enum ProjectStatus {
    PendingApproval,
    CommunityVoting,
    Fundraising,
    MilestoneReleasing,
    Done,
    Failed,
}

/// The lifecycle state of a single milestone.
#[derive(Clone, Copy, Debug, PartialEq, Eq, Structural)]
pub enum MilestoneStatus {
    Voting,
    Releasing,
    Released,
}

/// One voter's entry in a vote set.
#[derive(Debug)]
pub struct Vote {
    pub wallet: String,
    pub voted: bool,
}

impl Clone for Vote {
    fn clone(&self) -> (r: Vote)
        ensures
            r == *self,
    {
        Vote { wallet: self.wallet.clone(), voted: self.voted }
    }
}

/// One contributor's record in a pool: the wallet, the net base-currency
/// amount credited, and a zero-initialized yield-receipt amount.
#[derive(Debug)]
pub struct BackerState {
    pub backer_wallet: String,
    pub ust_amount: Coin,
    pub aust_amount: Coin,
}

impl Clone for BackerState {
    fn clone(&self) -> (r: BackerState)
        ensures
            r == *self,
    {
        BackerState {
            backer_wallet: self.backer_wallet.clone(),
            ust_amount: self.ust_amount.clone(),
            aust_amount: self.aust_amount.clone(),
        }
    }
}

/// A creator-defined release tranche, gated by unanimous voter approval.
#[derive(Debug)]
pub struct Milestone {
    pub milestone_step: u128,
    pub milestone_name: String,
    pub milestone_description: String,
    pub milestone_startdate: String,
    pub milestone_enddate: String,
    pub milestone_amount: u128,
    pub milestone_status: MilestoneStatus,
    pub milestone_votes: Vec<Vote>,
}

/// A description of one member of a project's team.
#[derive(Debug)]
pub struct TeamMember {
    pub teammember_description: String,
    pub teammember_linkedin: String,
    pub teammember_role: String,
}

impl Clone for TeamMember {
    fn clone(&self) -> (r: TeamMember)
        ensures
            r == *self,
    {
        TeamMember {
            teammember_description: self.teammember_description.clone(),
            teammember_linkedin: self.teammember_linkedin.clone(),
            teammember_role: self.teammember_role.clone(),
        }
    }
}

/// One stage of a vesting schedule; opaque metadata, no core invariants.
#[derive(Debug)]
pub struct VestingParameter {
    pub stage: String,
    pub stage_price: u128,
    pub stage_amount: u128,
    pub stage_soon: u128,
    pub stage_after: u128,
    pub stage_period: u128,
}

impl Clone for VestingParameter {
    fn clone(&self) -> (r: VestingParameter)
        ensures
            r == *self,
    {
        VestingParameter {
            stage: self.stage.clone(),
            stage_price: self.stage_price,
            stage_amount: self.stage_amount,
            stage_soon: self.stage_soon,
            stage_after: self.stage_after,
            stage_period: self.stage_period,
        }
    }
}

/// One project record: identity, descriptive metadata, the two contribution
/// pools, the milestone schedule and the community vote set.
#[derive(Debug)]
pub struct ProjectState {
    pub project_name: String,
    pub project_createddate: String,
    pub project_description: String,
    pub project_teamdescription: String,
    pub project_category: String,
    pub project_subcategory: String,
    pub project_chain: String,
    pub project_deadline: String,
    pub project_website: String,
    pub project_icon: String,
    pub project_email: String,
    pub project_whitepaper: String,
    pub project_id: u128,
    pub creator_wallet: String,
    /// The collection goal, in whole units of base currency.
    pub project_collected: u128,
    pub project_status: ProjectStatus,
    pub backerbacked_amount: u128,
    pub communitybacked_amount: u128,
    pub backer_states: Vec<BackerState>,
    pub communitybacker_states: Vec<BackerState>,
    pub milestone_states: Vec<Milestone>,
    /// Index of the milestone currently awaiting release.
    pub project_milestonestep: usize,
    pub community_votes: Vec<Vote>,
    pub teammember_states: Vec<TeamMember>,
    pub vesting: Vec<VestingParameter>,
}

/// The whole persistent state: configuration, id sequence, project ledger and
/// community registry.
#[derive(Debug)]
pub struct Ledger {
    pub config: Config,
    pub project_seq: u128,
    pub projects: Vec<ProjectState>,
    pub community: Vec<String>,
}

/// Sum of the net credited amounts of a contribution sequence.
pub open spec fn sum_backed(s: Seq<BackerState>) -> int
    decreases s.len(),
{
    if s.len() == 0 {
        0
    } else {
        sum_backed(s.drop_last()) + s.last().ust_amount.amount
    }
}

pub proof fn lemma_sum_backed_push(s: Seq<BackerState>, b: BackerState)
    ensures
        sum_backed(s.push(b)) == sum_backed(s) + b.ust_amount.amount,
{
    assert(s.push(b).drop_last() =~= s);
}

pub proof fn lemma_sum_backed_nonneg(s: Seq<BackerState>)
    ensures
        sum_backed(s) >= 0,
    decreases s.len(),
{
    if s.len() > 0 {
        lemma_sum_backed_nonneg(s.drop_last());
    }
}

/// A status from which no further transition is possible.
pub open spec fn is_terminal(st: ProjectStatus) -> bool {
    st is Done || st is Failed
}

/// Sum of backer-pool contributions over every non-terminal project: the
/// shared denominator of the proportional yield withdrawal.
pub open spec fn total_backed_active(s: Seq<ProjectState>) -> int
    decreases s.len(),
{
    if s.len() == 0 {
        0
    } else {
        total_backed_active(s.drop_last()) + if is_terminal(s.last().project_status) {
            0
        } else {
            sum_backed(s.last().backer_states@)
        }
    }
}

/// The active total over a prefix one longer is the prefix total plus the
/// next project's active contribution.
pub proof fn lemma_total_active_step(s: Seq<ProjectState>, k: int)
    requires
        0 <= k < s.len(),
    ensures
        total_backed_active(s.subrange(0, k + 1)) == total_backed_active(s.subrange(0, k)) + if is_terminal(s[k].project_status) {
            0
        } else {
            sum_backed(s[k].backer_states@)
        },
{
    assert(s.subrange(0, k + 1).drop_last() =~= s.subrange(0, k));
    assert(s.subrange(0, k + 1).last() == s[k]);
}

/// A prefix of the ledger contributes no more than the whole of it.
pub proof fn lemma_total_active_prefix_bound(s: Seq<ProjectState>, k: int)
    requires
        0 <= k <= s.len(),
    ensures
        total_backed_active(s.subrange(0, k)) <= total_backed_active(s),
    decreases s.len() - k,
{
    if k == s.len() {
        assert(s.subrange(0, k) =~= s);
    } else {
        lemma_total_active_step(s, k);
        lemma_sum_backed_nonneg(s[k].backer_states@);
        lemma_total_active_prefix_bound(s, k + 1);
    }
}

/// Every entry of a vote set carries a true flag.
pub open spec fn all_voted(votes: Seq<Vote>) -> bool {
    forall|i: int| 0 <= i < votes.len() ==> votes[i].voted
}

/// Some entry of a vote set belongs to the given wallet.
pub open spec fn has_voter(votes: Seq<Vote>, w: Seq<char>) -> bool {
    exists|i: int| 0 <= i < votes.len() && votes[i].wallet@ == w
}

/// The wallet is registered as a community member.
pub open spec fn is_member(community: Seq<String>, w: Seq<char>) -> bool {
    exists|i: int| 0 <= i < community.len() && community[i]@ == w
}

/// Some project of the ledger carries the given id.
pub open spec fn has_project(s: Seq<ProjectState>, id: u128) -> bool {
    exists|i: int| 0 <= i < s.len() && s[i].project_id == id
}

/// Per-project invariant: the running totals equal the sums of their pools,
/// the milestone step stays within the schedule — strictly so while the
/// project is releasing — and no step has been taken before the project
/// reaches the releasing stage.
pub open spec fn wf_project(p: ProjectState) -> bool {
    &&& p.backerbacked_amount == sum_backed(p.backer_states@)
    &&& p.communitybacked_amount == sum_backed(p.communitybacker_states@)
    &&& p.project_milestonestep <= p.milestone_states@.len()
    &&& p.project_status is MilestoneReleasing ==> p.project_milestonestep
        < p.milestone_states@.len()
    &&& (p.project_status is PendingApproval || p.project_status is CommunityVoting
        || p.project_status is Fundraising) ==> p.project_milestonestep == 0
}

/// Ledger invariant: project ids are positive, bounded by the id sequence and
/// strictly increasing (hence unique), every project is well formed, and the
/// community registry holds no duplicate address.
pub open spec fn wf_ledger(l: Ledger) -> bool {
    &&& forall|i: int| 0 <= i < l.projects@.len() ==> #[trigger] wf_project(l.projects@[i])
    &&& forall|i: int|
        0 <= i < l.projects@.len() ==> 1 <= #[trigger] l.projects@[i].project_id <= l.project_seq
    &&& forall|i: int, j: int|
        0 <= i < j < l.projects@.len() ==> l.projects@[i].project_id < l.projects@[j].project_id
    &&& forall|i: int, j: int|
        0 <= i < j < l.community@.len() ==> l.community@[i]@ != l.community@[j]@
}

/// Address equality, decided on the character sequences.
pub fn str_eq(a: &String, b: &String) -> (r: bool)
    ensures
        r == (a@ == b@),
{
    *a == *b
}

/// Looks a project up by id; the ledger order is the creation order.
pub fn find_project(projects: &Vec<ProjectState>, id: u128) -> (r: Option<usize>)
    ensures
        match r {
            Some(i) => i < projects@.len() && projects@[i as int].project_id == id,
            None => !has_project(projects@, id),
        },
{
    let mut k: usize = 0;
    while k < projects.len()
        invariant
            k <= projects@.len(),
            forall|i: int| 0 <= i < k ==> projects@[i].project_id != id,
        decreases projects@.len() - k,
    {
        if projects[k].project_id == id {
            return Some(k);
        }
        k += 1;
    }
    None
}

/// Looks a wallet up in the community registry.
pub fn find_member(community: &Vec<String>, wallet: &String) -> (r: Option<usize>)
    ensures
        match r {
            Some(i) => i < community@.len() && community@[i as int]@ == wallet@,
            None => !is_member(community@, wallet@),
        },
{
    let mut k: usize = 0;
    while k < community.len()
        invariant
            k <= community@.len(),
            forall|i: int| 0 <= i < k ==> community@[i]@ != wallet@,
        decreases community@.len() - k,
    {
        if str_eq(&community[k], wallet) {
            return Some(k);
        }
        k += 1;
    }
    None
}

/// The first index of the given wallet in a vote set, where present.
pub open spec fn voter_idx(votes: Seq<Vote>, w: Seq<char>) -> int {
    choose|i: int|
        0 <= i < votes.len() && votes[i].wallet@ == w && (forall|j: int|
            0 <= j < i ==> votes[j].wallet@ != w)
}

/// A first matching index is the chosen one.
pub proof fn lemma_voter_idx_is(votes: Seq<Vote>, w: Seq<char>, i: int)
    requires
        0 <= i < votes.len(),
        votes[i].wallet@ == w,
        forall|j: int| 0 <= j < i ==> votes[j].wallet@ != w,
    ensures
        has_voter(votes, w),
        voter_idx(votes, w) == i,
{
    assert(has_voter(votes, w));
    let k = choose|k: int|
        0 <= k < votes.len() && votes[k].wallet@ == w && (forall|j: int|
            0 <= j < k ==> votes[j].wallet@ != w);
    assert(0 <= i < votes.len() && votes[i].wallet@ == w && (forall|j: int|
        0 <= j < i ==> votes[j].wallet@ != w));
    if k < i {
        assert(votes[k].wallet@ != w);
    }
    if i < k {
        assert(votes[i].wallet@ != w);
    }
}

/// Looks a wallet up in a vote set; the first matching entry wins.
pub fn find_voter(votes: &Vec<Vote>, wallet: &String) -> (r: Option<usize>)
    ensures
        match r {
            Some(i) => {
                &&& i < votes@.len()
                &&& votes@[i as int].wallet@ == wallet@
                &&& forall|j: int| 0 <= j < i ==> votes@[j].wallet@ != wallet@
                &&& voter_idx(votes@, wallet@) == i
            },
            None => !has_voter(votes@, wallet@),
        },
{
    let mut k: usize = 0;
    while k < votes.len()
        invariant
            k <= votes@.len(),
            forall|i: int| 0 <= i < k ==> votes@[i].wallet@ != wallet@,
        decreases votes@.len() - k,
    {
        if str_eq(&votes[k].wallet, wallet) {
            proof {
                lemma_voter_idx_is(votes@, wallet@, k as int);
            }
            return Some(k);
        }
        k += 1;
    }
    None
}

/// The index of the project with the given id, where one exists.
pub open spec fn proj_idx(s: Seq<ProjectState>, id: u128) -> int {
    choose|i: int| 0 <= i < s.len() && s[i].project_id == id
}

/// Project ids are strictly increasing along the ledger.
pub open spec fn distinct_ids(s: Seq<ProjectState>) -> bool {
    forall|i: int, j: int| 0 <= i < j < s.len() ==> s[i].project_id < s[j].project_id
}

/// With strictly increasing ids, a matching index is the chosen one.
pub proof fn lemma_proj_idx_is(s: Seq<ProjectState>, id: u128, i: int)
    requires
        distinct_ids(s),
        0 <= i < s.len(),
        s[i].project_id == id,
    ensures
        has_project(s, id),
        proj_idx(s, id) == i,
{
    assert(has_project(s, id));
    let j = proj_idx(s, id);
    if j < i {
        assert(s[j].project_id < s[i].project_id);
    }
    if i < j {
        assert(s[i].project_id < s[j].project_id);
    }
}

/// The index of the given wallet in the community registry, where present.
pub open spec fn member_idx(c: Seq<String>, w: Seq<char>) -> int {
    choose|i: int| 0 <= i < c.len() && c[i]@ == w
}

/// With no duplicate address, a matching index is the chosen one.
pub proof fn lemma_member_idx_is(c: Seq<String>, w: Seq<char>, i: int)
    requires
        forall|x: int, y: int| 0 <= x < y < c.len() ==> c[x]@ != c[y]@,
        0 <= i < c.len(),
        c[i]@ == w,
    ensures
        is_member(c, w),
        member_idx(c, w) == i,
{
    assert(is_member(c, w));
    let j = member_idx(c, w);
    if j < i {
        assert(c[j]@ != c[i]@);
    }
    if i < j {
        assert(c[i]@ != c[j]@);
    }
}

/// Removing and reinserting at one index is a pointwise update.
pub proof fn lemma_remove_insert<T>(pre: Seq<T>, i: int, v: T)
    requires
        0 <= i < pre.len(),
    ensures
        pre.remove(i).insert(i, v) =~= pre.update(i, v),
{
}

/// Checks whether every entry of a vote set carries a true flag.
pub fn check_all_voted(votes: &Vec<Vote>) -> (r: bool)
    ensures
        r == all_voted(votes@),
{
    let mut k: usize = 0;
    while k < votes.len()
        invariant
            k <= votes@.len(),
            forall|i: int| 0 <= i < k ==> votes@[i].voted,
        decreases votes@.len() - k,
    {
        if !votes[k].voted {
            return false;
        }
        k += 1;
    }
    true
}

/// Copies a vote set; the copy shows the same sequence.
pub fn clone_votes(v: &Vec<Vote>) -> (r: Vec<Vote>)
    ensures
        r@ == v@,
{
    let r = v.clone();
    proof {
        assert forall|i: int| 0 <= i < v@.len() implies r@[i] == v@[i] by {
            assert(cloned::<Vote>(v@[i], r@[i]));
        }
        assert(r@ =~= v@);
    }
    r
}

/// Copies a contribution sequence; the copy shows the same sequence.
pub fn clone_backers(v: &Vec<BackerState>) -> (r: Vec<BackerState>)
    ensures
        r@ == v@,
{
    let r = v.clone();
    proof {
        assert forall|i: int| 0 <= i < v@.len() implies r@[i] == v@[i] by {
            assert(cloned::<BackerState>(v@[i], r@[i]));
        }
        assert(r@ =~= v@);
    }
    r
}

/// Copies the community registry; the copy shows the same sequence.
pub fn clone_members(v: &Vec<String>) -> (r: Vec<String>)
    ensures
        r@ == v@,
{
    let r = v.clone();
    proof {
        assert forall|i: int| 0 <= i < v@.len() implies r@[i] == v@[i] by {
            assert(cloned::<String>(v@[i], r@[i]));
        }
        assert(r@ =~= v@);
    }
    r
}

/// Two milestones that agree on every field; the vote sets agree as
/// sequences.
pub open spec fn milestone_like(a: Milestone, b: Milestone) -> bool {
    &&& a.milestone_step == b.milestone_step
    &&& a.milestone_name == b.milestone_name
    &&& a.milestone_description == b.milestone_description
    &&& a.milestone_startdate == b.milestone_startdate
    &&& a.milestone_enddate == b.milestone_enddate
    &&& a.milestone_amount == b.milestone_amount
    &&& a.milestone_status == b.milestone_status
    &&& a.milestone_votes@ == b.milestone_votes@
}

/// Two milestone schedules that agree pointwise.
pub open spec fn milestones_like(a: Seq<Milestone>, b: Seq<Milestone>) -> bool {
    a.len() == b.len() && forall|i: int| 0 <= i < a.len() ==> milestone_like(a[i], b[i])
}

impl Clone for Milestone {
    fn clone(&self) -> (r: Milestone)
        ensures
            milestone_like(r, *self),
    {
        Milestone {
            milestone_step: self.milestone_step,
            milestone_name: self.milestone_name.clone(),
            milestone_description: self.milestone_description.clone(),
            milestone_startdate: self.milestone_startdate.clone(),
            milestone_enddate: self.milestone_enddate.clone(),
            milestone_amount: self.milestone_amount,
            milestone_status: self.milestone_status,
            milestone_votes: clone_votes(&self.milestone_votes),
        }
    }
}

/// Copies a milestone schedule; the copy agrees pointwise.
pub fn clone_milestones(v: &Vec<Milestone>) -> (r: Vec<Milestone>)
    ensures
        milestones_like(r@, v@),
{
    let r = v.clone();
    proof {
        assert forall|i: int| 0 <= i < v@.len() implies milestone_like(r@[i], v@[i]) by {
            assert(cloned::<Milestone>(v@[i], r@[i]));
        }
    }
    r
}

/// Copies a team list; the copy shows the same sequence.
pub fn clone_team(v: &Vec<TeamMember>) -> (r: Vec<TeamMember>)
    ensures
        r@ == v@,
{
    let r = v.clone();
    proof {
        assert forall|i: int| 0 <= i < v@.len() implies r@[i] == v@[i] by {
            assert(cloned::<TeamMember>(v@[i], r@[i]));
        }
        assert(r@ =~= v@);
    }
    r
}

/// Copies a vesting schedule; the copy shows the same sequence.
pub fn clone_vesting(v: &Vec<VestingParameter>) -> (r: Vec<VestingParameter>)
    ensures
        r@ == v@,
{
    let r = v.clone();
    proof {
        assert forall|i: int| 0 <= i < v@.len() implies r@[i] == v@[i] by {
            assert(cloned::<VestingParameter>(v@[i], r@[i]));
        }
        assert(r@ =~= v@);
    }
    r
}

/// Two project records that agree on every field; the nested collections
/// agree as sequences.
pub open spec fn project_like(a: ProjectState, b: ProjectState) -> bool {
    &&& a.project_name == b.project_name
    &&& a.project_createddate == b.project_createddate
    &&& a.project_description == b.project_description
    &&& a.project_teamdescription == b.project_teamdescription
    &&& a.project_category == b.project_category
    &&& a.project_subcategory == b.project_subcategory
    &&& a.project_chain == b.project_chain
    &&& a.project_deadline == b.project_deadline
    &&& a.project_website == b.project_website
    &&& a.project_icon == b.project_icon
    &&& a.project_email == b.project_email
    &&& a.project_whitepaper == b.project_whitepaper
    &&& a.project_id == b.project_id
    &&& a.creator_wallet == b.creator_wallet
    &&& a.project_collected == b.project_collected
    &&& a.project_status == b.project_status
    &&& a.backerbacked_amount == b.backerbacked_amount
    &&& a.communitybacked_amount == b.communitybacked_amount
    &&& a.backer_states@ == b.backer_states@
    &&& a.communitybacker_states@ == b.communitybacker_states@
    &&& milestones_like(a.milestone_states@, b.milestone_states@)
    &&& a.project_milestonestep == b.project_milestonestep
    &&& a.community_votes@ == b.community_votes@
    &&& a.teammember_states@ == b.teammember_states@
    &&& a.vesting@ == b.vesting@
}

impl Clone for ProjectState {
    fn clone(&self) -> (r: ProjectState)
        ensures
            project_like(r, *self),
    {
        ProjectState {
            project_name: self.project_name.clone(),
            project_createddate: self.project_createddate.clone(),
            project_description: self.project_description.clone(),
            project_teamdescription: self.project_teamdescription.clone(),
            project_category: self.project_category.clone(),
            project_subcategory: self.project_subcategory.clone(),
            project_chain: self.project_chain.clone(),
            project_deadline: self.project_deadline.clone(),
            project_website: self.project_website.clone(),
            project_icon: self.project_icon.clone(),
            project_email: self.project_email.clone(),
            project_whitepaper: self.project_whitepaper.clone(),
            project_id: self.project_id,
            creator_wallet: self.creator_wallet.clone(),
            project_collected: self.project_collected,
            project_status: self.project_status,
            backerbacked_amount: self.backerbacked_amount,
            communitybacked_amount: self.communitybacked_amount,
            backer_states: clone_backers(&self.backer_states),
            communitybacker_states: clone_backers(&self.communitybacker_states),
            milestone_states: clone_milestones(&self.milestone_states),
            project_milestonestep: self.project_milestonestep,
            community_votes: clone_votes(&self.community_votes),
            teammember_states: clone_team(&self.teammember_states),
            vesting: clone_vesting(&self.vesting),
        }
    }
}

/// Copies the ledger's project records; the copy agrees pointwise.
pub fn clone_projects(v: &Vec<ProjectState>) -> (r: Vec<ProjectState>)
    ensures
        r@.len() == v@.len(),
        forall|i: int| 0 <= i < v@.len() ==> project_like(#[trigger] r@[i], v@[i]),
{
    let r = v.clone();
    proof {
        assert forall|i: int| 0 <= i < v@.len() implies project_like(r@[i], v@[i]) by {
            assert(cloned::<ProjectState>(v@[i], r@[i]));
        }
    }
    r
}

/// Appends a project record to the ledger under the next id of the sequence.
pub fn save_projectstate(ledger: &mut Ledger, prj: ProjectState) -> (r: Result<
    (),
    ContractError,
>)
    ensures
        match r {
            Ok(_) => {
                &&& old(ledger).project_seq < u128::MAX
                &&& final(ledger).project_seq == old(ledger).project_seq + 1
                &&& final(ledger).config == old(ledger).config
                &&& final(ledger).community == old(ledger).community
                &&& final(ledger).projects@ == old(ledger).projects@.push(
                    (ProjectState { project_id: (old(ledger).project_seq + 1) as u128, ..prj }),
                )
            },
            Err(e) => {
                &&& e is Overflow
                &&& old(ledger).project_seq == u128::MAX
                &&& *final(ledger) == *old(ledger)
            },
        },
{
    let id = match ledger.project_seq.checked_add(1) {
        Option::None => {
            return Err(ContractError::Overflow);
        },
        Option::Some(x) => x,
    };
    ledger.project_seq = id;
    let p2 = ProjectState { project_id: id, ..prj };
    ledger.projects.push(p2);
    Ok(())
}

} // verus!
