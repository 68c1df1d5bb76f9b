//! Assertion A4: since when a user holds at least a given amount of LIT.
//!
//! For each network of the user and each candidate date (oldest first), the
//! data provider is asked whether one of the user's addresses held the
//! amount since that date; the first address that holds ends the questions
//! for that date.  The assertion reports the oldest date for which some
//! address holds, and the oldest candidate date when none does.  Once the
//! oldest date is reached, the remaining networks are not asked at all.
//!
//! Asking the data provider is network I/O, so the search is a state
//! machine: [`A4Search::next_step`] names the next question (or the
//! outcome), and [`A4Search::record`] takes its answer.
use vstd::prelude::*;
use crate::identity::Web3Network;
use crate::vcmp::{Assertion, ErrorDetail, VCMPError};

verus! {

/// Number of candidate dates.
pub const DATE_COUNT: usize = 14;

/// The LIT token contract on Ethereum.
pub const LIT_TOKEN_ADDRESS: &'static str = "0xb59490ab09a0f526cc7305822ac65f2ab12f9723";

/// Description of the credential subject of A4.
pub const VC_A4_SUBJECT_DESCRIPTION: &'static str =
    "The length of time a user continues to hold a particular token (with particular threshold of token amount)";

/// Type of the credential subject of A4.
pub const VC_A4_SUBJECT_TYPE: &'static str = "LIT Holding Time";

/// The candidate dates, oldest first, every half year from 2017.
pub open spec fn spec_from_date(i: int) -> Seq<char> {
    if i == 0 { "2017-01-01"@ }
    else if i == 1 { "2017-07-01"@ }
    else if i == 2 { "2018-01-01"@ }
    else if i == 3 { "2018-07-01"@ }
    else if i == 4 { "2019-01-01"@ }
    else if i == 5 { "2019-07-01"@ }
    else if i == 6 { "2020-01-01"@ }
    else if i == 7 { "2020-07-01"@ }
    else if i == 8 { "2021-01-01"@ }
    else if i == 9 { "2021-07-01"@ }
    else if i == 10 { "2022-01-01"@ }
    else if i == 11 { "2022-07-01"@ }
    else if i == 12 { "2023-01-01"@ }
    else { "2023-07-01"@ }
}

/// The candidate date with index `i`.
pub fn assertion_from_date(i: usize) -> (d: &'static str)
    requires
        i < DATE_COUNT,
    ensures
        d@ == spec_from_date(i as int),
{
    match i {
        0 => "2017-01-01",
        1 => "2017-07-01",
        2 => "2018-01-01",
        3 => "2018-07-01",
        4 => "2019-01-01",
        5 => "2019-07-01",
        6 => "2020-01-01",
        7 => "2020-07-01",
        8 => "2021-01-01",
        9 => "2021-07-01",
        10 => "2022-01-01",
        11 => "2022-07-01",
        12 => "2023-01-01",
        _ => "2023-07-01",
    }
}

/// Where the search stands: the network, date and address of the pending
/// question, the best date index found so far, whether any address holds,
/// and whether the search is over.
pub struct A4Pos {
    pub net: int,
    pub date: int,
    pub addr: int,
    pub optimal: int,
    pub is_hold: bool,
    pub done: bool,
}

/// The position before any question, for a user with `shape[n]` addresses
/// on network `n`.
pub open spec fn init_pos(shape: Seq<int>) -> A4Pos {
    norm(shape, A4Pos { net: 0, date: 0, addr: 0, optimal: usize::MAX as int, is_hold: false, done: false })
}

/// Moves past the questions that need not or cannot be asked: networks and
/// dates without addresses, the end of a network's dates, and every network
/// once the oldest date is known to hold.
pub open spec fn norm(shape: Seq<int>, s: A4Pos) -> A4Pos
    decreases shape.len() - s.net, DATE_COUNT - s.date,
{
    if s.done {
        s
    } else if s.net >= shape.len() || s.net < 0 {
        A4Pos { done: true, ..s }
    } else if s.date == 0 && s.addr == 0 && s.optimal == 0 {
        A4Pos { done: true, ..s }
    } else if s.date >= DATE_COUNT || s.date < 0 {
        norm(shape, A4Pos { net: s.net + 1, date: 0, addr: 0, ..s })
    } else if s.addr >= shape[s.net] {
        norm(shape, A4Pos { date: s.date + 1, addr: 0, ..s })
    } else {
        s
    }
}

/// The position after the pending question was answered `holds`.
pub open spec fn step(shape: Seq<int>, s: A4Pos, holds: bool) -> A4Pos {
    if holds {
        norm(
            shape,
            A4Pos {
                optimal: if s.date < s.optimal { s.date } else { s.optimal },
                is_hold: true,
                date: s.date + 1,
                addr: 0,
                ..s
            },
        )
    } else {
        norm(shape, A4Pos { addr: s.addr + 1, ..s })
    }
}

/// The date index that the assertion reports at the end.
pub open spec fn outcome_index(s: A4Pos) -> int {
    if s.is_hold { s.optimal } else { 0 }
}

/// What the assertion states: whether some address holds, the amount, and
/// the index of the oldest date since which it holds.
#[derive(Debug)]
pub struct A4Outcome {
    pub is_hold: bool,
    pub min_balance: String,
    pub from_date_index: usize,
}

impl A4Outcome {
    /// The oldest date since which the amount is held.
    pub fn from_date(&self) -> (d: &'static str)
        requires
            self.from_date_index < DATE_COUNT,
        ensures
            d@ == spec_from_date(self.from_date_index as int),
    {
        assertion_from_date(self.from_date_index)
    }
}

/// One question to the data provider: did `address` on `network` hold at
/// least `amount` of the token (`token`, or the native one) since `date`?
#[derive(Debug)]
pub struct HoldingQuery {
    pub network: Web3Network,
    pub amount: String,
    pub date: String,
    pub token: Option<String>,
    pub address: String,
}

/// What the search asks for next.
#[derive(Debug)]
pub enum A4Step {
    Query(HoldingQuery),
    Finished(A4Outcome),
}

/// The text of `bytes`, if they are valid UTF-8.
#[verifier::external_body]
fn utf8_string(bytes: &Vec<u8>) -> (s: Option<String>)
    ensures
        s is Some <==> vstd::utf8::valid_utf8(bytes@),
        s matches Some(t) ==> t@ == vstd::utf8::decode_utf8(bytes@),
{
    String::from_utf8(bytes.clone()).ok()
}

/// The lazy search of assertion A4.
pub struct A4Search {
    identities: Vec<(Web3Network, Vec<String>)>,
    min_balance_param: Vec<u8>,
    min_balance: String,
    net: usize,
    date: usize,
    addr: usize,
    optimal: usize,
    is_hold: bool,
    done: bool,
}

/// Number of addresses per network.
pub open spec fn shape_of(ids: Seq<(Web3Network, Vec<String>)>) -> Seq<int> {
    Seq::new(ids.len(), |n: int| ids[n].1.len() as int)
}

impl A4Search {
    /// The identities searched, by network.
    pub closed spec fn identities(&self) -> Seq<(Web3Network, Vec<String>)> {
        self.identities@
    }

    /// The minimum balance asked for.
    pub closed spec fn min_balance(&self) -> Seq<char> {
        self.min_balance@
    }

    /// The minimum balance as requested, in bytes.
    pub closed spec fn min_balance_param(&self) -> Vec<u8> {
        self.min_balance_param
    }

    /// Number of addresses per network.
    pub open spec fn shape(&self) -> Seq<int> {
        shape_of(self.identities())
    }

    /// Where the search stands.
    pub closed spec fn pos(&self) -> A4Pos {
        A4Pos {
            net: self.net as int,
            date: self.date as int,
            addr: self.addr as int,
            optimal: self.optimal as int,
            is_hold: self.is_hold,
            done: self.done,
        }
    }

    /// The position is one that `norm` leaves in place.
    pub open spec fn wf(&self) -> bool {
        &&& norm(self.shape(), self.pos()) == self.pos()
        &&& self.pos().net <= self.shape().len()
        &&& (self.pos().is_hold ==> 0 <= self.pos().optimal < DATE_COUNT)
        &&& (!self.pos().is_hold ==> self.pos().optimal == usize::MAX)
    }

    /// Starts a search over `identities` (addresses by network) for a
    /// holding of at least `min_balance`; when `min_balance` is not UTF-8
    /// text, the request fails with a parse error.
    pub fn new(identities: Vec<(Web3Network, Vec<String>)>, min_balance: Vec<u8>) -> (r: Result<A4Search, VCMPError>)
        ensures
            r is Err <==> !vstd::utf8::valid_utf8(min_balance@),
            r matches Err(e) ==> e == VCMPError::RequestVCFailed(Assertion::A4(min_balance), ErrorDetail::ParseError),
            r matches Ok(s) ==> {
                &&& s.wf()
                &&& s.identities() == identities@
                &&& s.min_balance() == vstd::utf8::decode_utf8(min_balance@)
                &&& s.min_balance_param() == min_balance
                &&& s.pos() == init_pos(shape_of(identities@))
            },
    {
        let q_min_balance = match utf8_string(&min_balance) {
            Some(s) => s,
            None => { return Err(VCMPError::RequestVCFailed(Assertion::A4(min_balance), ErrorDetail::ParseError)); },
        };
        let mut search = A4Search {
            identities,
            min_balance_param: min_balance,
            min_balance: q_min_balance,
            net: 0,
            date: 0,
            addr: 0,
            optimal: usize::MAX,
            is_hold: false,
            done: false,
        };
        let ghost start = search.pos();
        search.normalize();
        proof { lemma_norm_idempotent(search.shape(), start); }
        Ok(search)
    }

    /// Moves to the next question that must be asked, or ends the search.
    fn normalize(&mut self)
        requires
            old(self).pos().net <= old(self).shape().len(),
            old(self).pos().is_hold ==> 0 <= old(self).pos().optimal < DATE_COUNT,
            !old(self).pos().is_hold ==> old(self).pos().optimal == usize::MAX,
            old(self).date <= DATE_COUNT,
            !old(self).done,
        ensures
            final(self).pos() == norm(old(self).shape(), old(self).pos()),
            final(self).identities() == old(self).identities(),
            final(self).min_balance() == old(self).min_balance(),
            final(self).min_balance_param() == old(self).min_balance_param(),
            final(self).pos().net <= final(self).shape().len(),
            final(self).is_hold == old(self).is_hold,
            final(self).optimal == old(self).optimal,
    {
        let ghost shape = self.shape();
        let ghost start = self.pos();
        loop
            invariant_except_break
                !self.done,
            invariant
                shape == self.shape(),
                norm(shape, self.pos()) == norm(shape, start),
                self.identities() == old(self).identities(),
                self.min_balance() == old(self).min_balance(),
                self.min_balance_param() == old(self).min_balance_param(),
                self.net <= self.identities.len(),
                self.date <= DATE_COUNT,
                self.is_hold == old(self).is_hold,
                self.optimal == old(self).optimal,
            ensures
                self.pos() == norm(shape, start),
                self.identities() == old(self).identities(),
                self.min_balance() == old(self).min_balance(),
                self.min_balance_param() == old(self).min_balance_param(),
                self.net <= self.identities.len(),
                self.is_hold == old(self).is_hold,
                self.optimal == old(self).optimal,
            decreases self.identities.len() - self.net, DATE_COUNT - self.date,
        {
            if self.net >= self.identities.len() {
                self.done = true;
                break;
            }
            if self.date == 0 && self.addr == 0 && self.optimal == 0 {
                self.done = true;
                break;
            }
            if self.date >= DATE_COUNT {
                self.net = self.net + 1;
                self.date = 0;
                self.addr = 0;
            } else if self.addr >= self.identities[self.net].1.len() {
                self.date = self.date + 1;
                self.addr = 0;
            } else {
                break;
            }
        }
    }

    /// The next question, or the outcome once the search is over.
    pub fn next_step(&self) -> (st: A4Step)
        requires
            self.wf(),
        ensures
            self.pos().done <==> st is Finished,
            st matches A4Step::Finished(o) ==> {
                &&& o.is_hold == self.pos().is_hold
                &&& o.from_date_index == outcome_index(self.pos())
                &&& o.from_date_index < DATE_COUNT
                &&& o.min_balance@ == self.min_balance()
            },
            st matches A4Step::Query(q) ==> {
                let n = self.pos().net;
                &&& q.network == self.identities()[n].0
                &&& q.address@ == self.identities()[n].1@[self.pos().addr]@
                &&& q.date@ == spec_from_date(self.pos().date)
                &&& q.amount@ == self.min_balance()
                &&& (q.network == Web3Network::Ethereum ==> (q.token matches Some(t) && t@ == LIT_TOKEN_ADDRESS@))
                &&& (q.network != Web3Network::Ethereum ==> q.token is None)
            },
    {
        if self.done {
            let idx = if self.is_hold { self.optimal } else { 0 };
            A4Step::Finished(A4Outcome {
                is_hold: self.is_hold,
                min_balance: self.min_balance.clone(),
                from_date_index: idx,
            })
        } else {
            proof { lemma_norm_fixed_is_pending(self.shape(), self.pos()); }
            let (network, addresses) = &self.identities[self.net];
            let network = *network;
            let token = if network == Web3Network::Ethereum {
                Some(LIT_TOKEN_ADDRESS.to_owned())
            } else {
                None
            };
            A4Step::Query(HoldingQuery {
                network,
                amount: self.min_balance.clone(),
                date: assertion_from_date(self.date).to_owned(),
                token,
                address: addresses[self.addr].clone(),
            })
        }
    }

    /// The request fails with `detail` (the data provider could not be
    /// asked, or the credential could not be made).
    pub fn fail(self, detail: ErrorDetail) -> (e: VCMPError)
        ensures
            e == VCMPError::RequestVCFailed(Assertion::A4(self.min_balance_param()), detail),
    {
        VCMPError::RequestVCFailed(Assertion::A4(self.min_balance_param), detail)
    }

    /// Takes the answer to the pending question.
    pub fn record(&mut self, holds: bool)
        requires
            old(self).wf(),
            !old(self).pos().done,
        ensures
            final(self).wf(),
            final(self).pos() == step(old(self).shape(), old(self).pos(), holds),
            final(self).identities() == old(self).identities(),
            final(self).min_balance() == old(self).min_balance(),
            final(self).min_balance_param() == old(self).min_balance_param(),
    {
        proof { lemma_norm_fixed_is_pending(self.shape(), self.pos()); }
        if holds {
            if self.date < self.optimal {
                self.optimal = self.date;
            }
            self.is_hold = true;
            self.date = self.date + 1;
            self.addr = 0;
        } else {
            self.addr = self.addr + 1;
        }
        let ghost mid = self.pos();
        self.normalize();
        proof { lemma_norm_idempotent(self.shape(), mid); }
    }
}

/// `norm` reaches a position that it leaves in place.
proof fn lemma_norm_idempotent(shape: Seq<int>, s: A4Pos)
    ensures
        norm(shape, norm(shape, s)) == norm(shape, s),
    decreases shape.len() - s.net, DATE_COUNT - s.date,
{
    if s.done {
    } else if s.net >= shape.len() || s.net < 0 {
    } else if s.date == 0 && s.addr == 0 && s.optimal == 0 {
    } else if s.date >= DATE_COUNT || s.date < 0 {
        lemma_norm_idempotent(shape, A4Pos { net: s.net + 1, date: 0, addr: 0, ..s });
    } else if s.addr >= shape[s.net] {
        lemma_norm_idempotent(shape, A4Pos { date: s.date + 1, addr: 0, ..s });
    } else {
    }
}

/// `norm` only moves forward.
proof fn lemma_norm_forward(shape: Seq<int>, s: A4Pos)
    ensures
        norm(shape, s).done || norm(shape, s).net > s.net
            || (norm(shape, s).net == s.net && norm(shape, s).date >= s.date),
    decreases shape.len() - s.net, DATE_COUNT - s.date,
{
    if s.done {
    } else if s.net >= shape.len() || s.net < 0 {
    } else if s.date == 0 && s.addr == 0 && s.optimal == 0 {
    } else if s.date >= DATE_COUNT || s.date < 0 {
        lemma_norm_forward(shape, A4Pos { net: s.net + 1, date: 0, addr: 0, ..s });
    } else if s.addr >= shape[s.net] {
        lemma_norm_forward(shape, A4Pos { date: s.date + 1, addr: 0, ..s });
    } else {
    }
}

/// A position that `norm` leaves in place and that is not over has a
/// question pending.
proof fn lemma_norm_fixed_is_pending(shape: Seq<int>, s: A4Pos)
    requires
        norm(shape, s) == s,
        !s.done,
    ensures
        0 <= s.net < shape.len(),
        0 <= s.date < DATE_COUNT,
        s.addr < shape[s.net],
{
    if s.net >= shape.len() || s.net < 0 {
    } else if s.date == 0 && s.addr == 0 && s.optimal == 0 {
    } else if s.date >= DATE_COUNT || s.date < 0 {
        lemma_norm_forward(shape, A4Pos { net: s.net + 1, date: 0, addr: 0, ..s });
    } else if s.addr >= shape[s.net] {
        lemma_norm_forward(shape, A4Pos { date: s.date + 1, addr: 0, ..s });
    }
}

/// According to `t`, some address of network `m` held since date `e`
/// (`t(m, e, a)` is the answer for address `a` of network `m` and date `e`).
pub open spec fn holds_at(shape: Seq<int>, t: spec_fn(int, int, int) -> bool, m: int, e: int) -> bool {
    exists|a: int| 0 <= a < shape[m] && #[trigger] t(m, e, a)
}

/// Network `m` and date `e` lie before the position `s` in the search order.
pub open spec fn answered(s: A4Pos, m: int, e: int) -> bool {
    (0 <= m < s.net && 0 <= e < DATE_COUNT) || (m == s.net && 0 <= e < s.date)
}

/// The assertion that the answers `t` call for: whether some address holds
/// since some date, and the index of the oldest such date (0 when none).
pub open spec fn a4_correct(shape: Seq<int>, t: spec_fn(int, int, int) -> bool, is_hold: bool, idx: int) -> bool {
    &&& is_hold == (exists|m: int, e: int| 0 <= m < shape.len() && 0 <= e < DATE_COUNT && #[trigger] holds_at(shape, t, m, e))
    &&& is_hold ==> {
        &&& 0 <= idx < DATE_COUNT
        &&& exists|m: int| 0 <= m < shape.len() && #[trigger] holds_at(shape, t, m, idx)
        &&& forall|m: int, e: int| 0 <= m < shape.len() && 0 <= e < idx ==> !#[trigger] holds_at(shape, t, m, e)
    }
    &&& !is_hold ==> idx == 0
}

/// The position `s` agrees with the answers `t` for every question before it.
pub open spec fn consistent(shape: Seq<int>, t: spec_fn(int, int, int) -> bool, s: A4Pos) -> bool {
    &&& 0 <= s.net <= shape.len()
    &&& 0 <= s.date <= DATE_COUNT
    &&& 0 <= s.addr
    &&& s.is_hold == (exists|m: int, e: int| answered(s, m, e) && m < shape.len() && #[trigger] holds_at(shape, t, m, e))
    &&& s.is_hold ==> {
        &&& 0 <= s.optimal < DATE_COUNT
        &&& exists|m: int| answered(s, m, s.optimal) && m < shape.len() && #[trigger] holds_at(shape, t, m, s.optimal)
        &&& forall|m: int, e: int| answered(s, m, e) && m < shape.len() && e < s.optimal ==> !#[trigger] holds_at(shape, t, m, e)
    }
    &&& !s.is_hold ==> s.optimal == usize::MAX
    &&& (s.net < shape.len() && s.date < DATE_COUNT) ==>
        forall|a: int| 0 <= a < s.addr && a < shape[s.net] ==> !#[trigger] t(s.net, s.date, a)
    &&& s.done ==> (s.net >= shape.len() || (s.is_hold && s.optimal == 0))
}

/// Skipping questions keeps a position consistent with the answers.
proof fn lemma_norm_consistent(shape: Seq<int>, t: spec_fn(int, int, int) -> bool, s: A4Pos)
    requires
        consistent(shape, t, s),
    ensures
        consistent(shape, t, norm(shape, s)),
    decreases shape.len() - s.net, DATE_COUNT - s.date,
{
    if s.done {
    } else if s.net >= shape.len() || s.net < 0 {
    } else if s.date == 0 && s.addr == 0 && s.optimal == 0 {
    } else if s.date >= DATE_COUNT || s.date < 0 {
        let s2 = A4Pos { net: s.net + 1, date: 0, addr: 0, ..s };
        assert forall|m: int, e: int| answered(s2, m, e) <==> answered(s, m, e) by {}
        lemma_norm_consistent(shape, t, s2);
    } else if s.addr >= shape[s.net] {
        let s2 = A4Pos { date: s.date + 1, addr: 0, ..s };
        assert(!holds_at(shape, t, s.net, s.date));
        assert forall|m: int, e: int| answered(s2, m, e) <==> (answered(s, m, e) || (m == s.net && e == s.date)) by {}
        if s.is_hold {
            let m0 = choose|m: int| answered(s, m, s.optimal) && m < shape.len() && #[trigger] holds_at(shape, t, m, s.optimal);
            assert(answered(s2, m0, s.optimal));
        }
        assert(consistent(shape, t, s2));
        lemma_norm_consistent(shape, t, s2);
    } else {
    }
}

/// Law: the search starts consistent with any answers.
pub proof fn lemma_a4_start(shape: Seq<int>, t: spec_fn(int, int, int) -> bool)
    ensures
        consistent(shape, t, init_pos(shape)),
{
    let s = A4Pos { net: 0, date: 0, addr: 0, optimal: usize::MAX as int, is_hold: false, done: false };
    assert forall|m: int, e: int| !answered(s, m, e) by {}
    lemma_norm_consistent(shape, t, s);
}

/// Law: answering the pending question as `t` does keeps the search
/// consistent with `t`.
pub proof fn lemma_a4_step(shape: Seq<int>, t: spec_fn(int, int, int) -> bool, s: A4Pos)
    requires
        consistent(shape, t, s),
        norm(shape, s) == s,
        !s.done,
    ensures
        consistent(shape, t, step(shape, s, t(s.net, s.date, s.addr))),
{
    lemma_norm_fixed_is_pending(shape, s);
    if t(s.net, s.date, s.addr) {
        let s2 = A4Pos {
            optimal: if s.date < s.optimal { s.date } else { s.optimal },
            is_hold: true,
            date: s.date + 1,
            addr: 0,
            ..s
        };
        assert(holds_at(shape, t, s.net, s.date));
        assert forall|m: int, e: int| answered(s2, m, e) <==> (answered(s, m, e) || (m == s.net && e == s.date)) by {}
        if s.is_hold && s.optimal <= s.date {
            let m0 = choose|m: int| answered(s, m, s.optimal) && m < shape.len() && #[trigger] holds_at(shape, t, m, s.optimal);
            assert(answered(s2, m0, s.optimal));
        } else {
            assert(answered(s2, s.net, s.date));
            assert forall|m: int, e: int| answered(s2, m, e) && m < shape.len() && e < s2.optimal implies !#[trigger] holds_at(shape, t, m, e) by {
                if s.is_hold {
                    assert(e < s.optimal);
                } else {
                    assert(!(answered(s, m, e) && m < shape.len() && holds_at(shape, t, m, e)));
                }
            }
        }
        assert(consistent(shape, t, s2));
        lemma_norm_consistent(shape, t, s2);
    } else {
        let s2 = A4Pos { addr: s.addr + 1, ..s };
        assert(consistent(shape, t, s2));
        lemma_norm_consistent(shape, t, s2);
    }
}

/// Law: when the search is over, a search consistent with the answers `t`
/// reports the oldest date since which some address holds, as if every
/// question had been asked.
pub proof fn lemma_a4_finish(shape: Seq<int>, t: spec_fn(int, int, int) -> bool, s: A4Pos)
    requires
        consistent(shape, t, s),
        s.done,
    ensures
        a4_correct(shape, t, s.is_hold, outcome_index(s)),
{
    if s.net >= shape.len() {
        assert forall|m: int, e: int| 0 <= m < shape.len() && 0 <= e < DATE_COUNT implies answered(s, m, e) by {}
        if s.is_hold {
            let m0 = choose|m: int| answered(s, m, s.optimal) && m < shape.len() && #[trigger] holds_at(shape, t, m, s.optimal);
            assert(0 <= m0 < shape.len() && holds_at(shape, t, m0, s.optimal));
        } else {
            assert forall|m: int, e: int| 0 <= m < shape.len() && 0 <= e < DATE_COUNT implies !#[trigger] holds_at(shape, t, m, e) by {
                assert(answered(s, m, e));
            }
        }
    } else {
        let m0 = choose|m: int| answered(s, m, s.optimal) && m < shape.len() && #[trigger] holds_at(shape, t, m, s.optimal);
        assert(0 <= m0 < shape.len() && holds_at(shape, t, m0, 0));
    }
}

/// Position `s2` comes after `s1` in the order of questions.
pub open spec fn pos_after(s2: A4Pos, s1: A4Pos) -> bool {
    s2.net > s1.net || (s2.net == s1.net && s2.date > s1.date)
        || (s2.net == s1.net && s2.date == s1.date && s2.addr > s1.addr)
}

/// Law: every answer moves the search forward (or ends it), so no question
/// is asked twice and the search ends.
pub proof fn lemma_a4_step_advances(shape: Seq<int>, s: A4Pos, holds: bool)
    requires
        norm(shape, s) == s,
        !s.done,
    ensures
        step(shape, s, holds).done || pos_after(step(shape, s, holds), s),
{
    if holds {
        let s2 = A4Pos {
            optimal: if s.date < s.optimal { s.date } else { s.optimal },
            is_hold: true,
            date: s.date + 1,
            addr: 0,
            ..s
        };
        lemma_norm_forward(shape, s2);
    } else {
        lemma_norm_forward_addr(shape, A4Pos { addr: s.addr + 1, ..s });
    }
}

/// `norm` only moves forward, counting the address too.
proof fn lemma_norm_forward_addr(shape: Seq<int>, s: A4Pos)
    ensures
        norm(shape, s).done || pos_after(norm(shape, s), s) || norm(shape, s) == s,
    decreases shape.len() - s.net, DATE_COUNT - s.date,
{
    if s.done {
    } else if s.net >= shape.len() || s.net < 0 {
    } else if s.date == 0 && s.addr == 0 && s.optimal == 0 {
    } else if s.date >= DATE_COUNT || s.date < 0 {
        lemma_norm_forward(shape, A4Pos { net: s.net + 1, date: 0, addr: 0, ..s });
    } else if s.addr >= shape[s.net] {
        lemma_norm_forward(shape, A4Pos { date: s.date + 1, addr: 0, ..s });
    } else {
    }
}

} // verus!
