use vstd::prelude::*;

use crate::error::{StoreError, ValidationError};
use crate::ids::{new_id, now_millis};
use crate::rules::{sort_rules, sorted_by_order, Rule};
use crate::text::{blank, is_blank};

verus! {

/// A caller's checklist choice for one rule.
#[derive(Debug, Clone, PartialEq, Eq)]
pub struct RuleCheck {
    pub rule_id: String,
    pub checked: bool,
}

/// What a caller supplies to create or update a trade.
///
/// Quantities and amounts are integers in the smallest unit the caller
/// works in (contracts, cents, ticks); instants are UTC milliseconds.
#[derive(Debug, Clone, PartialEq, Eq)]
pub struct TradeInput {
    pub market: String,
    pub symbol: String,
    pub side: String,
    pub qty: i64,
    pub entry_time_utc: i64,
    pub exit_time_utc: i64,
    pub timezone: String,
    pub session: String,
    pub pnl_amount: i64,
    pub pnl_includes_fees: bool,
    pub fees: i64,
    pub notes: String,
    /// Optional checked state per rule id; the first entry for an id counts.
    pub rules_checked: Option<Vec<RuleCheck>>,
}

/// A stored trade, with its derived net and gross profit/loss.
#[derive(Debug, Clone, PartialEq, Eq)]
pub struct Trade {
    pub id: String,
    pub market: String,
    pub symbol: String,
    pub side: String,
    pub qty: i64,
    pub entry_time_utc: i64,
    pub exit_time_utc: i64,
    pub timezone: String,
    pub session: String,
    pub pnl_amount: i64,
    pub pnl_includes_fees: bool,
    pub fees: i64,
    pub pnl_net: i64,
    pub pnl_gross: i64,
    pub notes: String,
    pub created_at_utc: i64,
    pub updated_at_utc: i64,
}

/// Net profit/loss: the amount itself when it already includes fees,
/// otherwise the amount less the fees.
pub open spec fn net_of(amount: int, fees: int, includes_fees: bool) -> int {
    if includes_fees {
        amount
    } else {
        amount - fees
    }
}

/// Gross profit/loss: the amount plus the fees when it already includes
/// them, otherwise the amount itself.
pub open spec fn gross_of(amount: int, fees: int, includes_fees: bool) -> int {
    if includes_fees {
        amount + fees
    } else {
        amount
    }
}

pub open spec fn fits_i64(x: int) -> bool {
    i64::MIN <= x <= i64::MAX
}

/// The first rule that an input breaks, if any.
pub open spec fn first_violation(input: TradeInput) -> Option<ValidationError> {
    if is_blank(input.symbol@) {
        Some(ValidationError::BlankSymbol)
    } else if input.qty <= 0 {
        Some(ValidationError::NonPositiveQuantity)
    } else if input.exit_time_utc <= input.entry_time_utc {
        Some(ValidationError::ExitNotAfterEntry)
    } else if input.fees < 0 {
        Some(ValidationError::NegativeFees)
    } else if !fits_i64(net_of(input.pnl_amount as int, input.fees as int, input.pnl_includes_fees))
        || !fits_i64(gross_of(input.pnl_amount as int, input.fees as int, input.pnl_includes_fees)) {
        Some(ValidationError::PnlOutOfRange)
    } else {
        None
    }
}

pub open spec fn validation_result(input: TradeInput) -> Result<(), StoreError> {
    match first_violation(input) {
        None => Ok(()),
        Some(v) => Err(StoreError::Validation(v)),
    }
}

/// Computes `(net, gross)` from the raw amount, the fees and whether the
/// amount already includes them.
pub fn derive_pnl(pnl_amount: i64, fees: i64, includes_fees: bool) -> (r: (i64, i64))
    requires
        fits_i64(net_of(pnl_amount as int, fees as int, includes_fees)),
        fits_i64(gross_of(pnl_amount as int, fees as int, includes_fees)),
    ensures
        r.0 == net_of(pnl_amount as int, fees as int, includes_fees),
        r.1 == gross_of(pnl_amount as int, fees as int, includes_fees),
{
    if includes_fees {
        (pnl_amount, pnl_amount + fees)
    } else {
        (pnl_amount - fees, pnl_amount)
    }
}

/// Checks a trade input against the ledger's rules, reporting the first
/// rule broken.
pub fn validate_trade(input: &TradeInput) -> (r: Result<(), StoreError>)
    ensures
        r == validation_result(*input),
{
    if blank(input.symbol.as_str()) {
        return Err(StoreError::Validation(ValidationError::BlankSymbol));
    }
    if input.qty <= 0 {
        return Err(StoreError::Validation(ValidationError::NonPositiveQuantity));
    }
    if input.exit_time_utc <= input.entry_time_utc {
        return Err(StoreError::Validation(ValidationError::ExitNotAfterEntry));
    }
    if input.fees < 0 {
        return Err(StoreError::Validation(ValidationError::NegativeFees));
    }
    let amount = input.pnl_amount as i128;
    let fees = input.fees as i128;
    let (net, gross) = if input.pnl_includes_fees {
        (amount, amount + fees)
    } else {
        (amount - fees, amount)
    };
    if net < i64::MIN as i128 || net > i64::MAX as i128 || gross < i64::MIN as i128 || gross
        > i64::MAX as i128 {
        return Err(StoreError::Validation(ValidationError::PnlOutOfRange));
    }
    Ok(())
}


/// A trade with the full rule list and its checklist links.
#[derive(Debug, Clone, PartialEq, Eq)]
pub struct TradeWithRules {
    pub trade: Trade,
    pub rules: Vec<Rule>,
    pub checked: Vec<RuleCheck>,
}

/// A new trade together with the checklist links to store beside it.
#[derive(Debug, Clone, PartialEq, Eq)]
pub struct NewTrade {
    pub trade: Trade,
    pub checklist: Vec<RuleCheck>,
}

/// The new row of an updated trade and the checklist links to upsert.
#[derive(Debug, Clone, PartialEq, Eq)]
pub struct TradeUpdate {
    pub trade: Trade,
    pub checks: Vec<RuleCheck>,
}

/// The trade row written for `input`: its fields copied, net and gross
/// derived, under the given id and timestamps.
pub open spec fn trade_matches(t: Trade, input: TradeInput, id: Seq<char>, created: i64, updated: i64) -> bool {
    &&& t.id@ == id
    &&& t.market == input.market
    &&& t.symbol == input.symbol
    &&& t.side == input.side
    &&& t.qty == input.qty
    &&& t.entry_time_utc == input.entry_time_utc
    &&& t.exit_time_utc == input.exit_time_utc
    &&& t.timezone == input.timezone
    &&& t.session == input.session
    &&& t.pnl_amount == input.pnl_amount
    &&& t.pnl_includes_fees == input.pnl_includes_fees
    &&& t.fees == input.fees
    &&& t.pnl_net == net_of(input.pnl_amount as int, input.fees as int, input.pnl_includes_fees)
    &&& t.pnl_gross == gross_of(input.pnl_amount as int, input.fees as int, input.pnl_includes_fees)
    &&& t.notes == input.notes
    &&& t.created_at_utc == created
    &&& t.updated_at_utc == updated
}

/// The checked state of the first entry for `rule_id`, if there is one.
pub open spec fn first_check(s: Seq<RuleCheck>, rule_id: Seq<char>) -> Option<bool>
    decreases s.len(),
{
    if s.len() == 0 {
        None
    } else if s[0].rule_id@ == rule_id {
        Some(s[0].checked)
    } else {
        first_check(s.drop_first(), rule_id)
    }
}

/// The checked state a caller asked for a rule: unchecked unless given.
pub open spec fn requested_check(requested: Option<Vec<RuleCheck>>, rule_id: Seq<char>) -> bool {
    match requested {
        Some(v) => match first_check(v@, rule_id) {
            Some(b) => b,
            None => false,
        },
        None => false,
    }
}

/// One link per rule, in the order of the rules, each as requested.
pub open spec fn checklist_for(
    links: Seq<RuleCheck>,
    rule_ids: Seq<String>,
    requested: Option<Vec<RuleCheck>>,
) -> bool {
    &&& links.len() == rule_ids.len()
    &&& forall|i: int|
        0 <= i < links.len() ==> #[trigger] links[i].rule_id@ == rule_ids[i]@
            && links[i].checked == requested_check(requested, rule_ids[i]@)
}

/// The first entry for `rule_id` among `checks`, if any.
pub fn find_check(checks: &Vec<RuleCheck>, rule_id: &String) -> (r: Option<bool>)
    ensures
        r == first_check(checks@, rule_id@),
{
    let mut i: usize = 0;
    proof {
        assert(checks@.subrange(0, checks@.len() as int) =~= checks@);
    }
    while i < checks.len()
        invariant
            i <= checks.len(),
            first_check(checks@, rule_id@) == first_check(checks@.subrange(i as int, checks@.len() as int), rule_id@),
        decreases checks.len() - i,
    {
        proof {
            let rest = checks@.subrange(i as int, checks@.len() as int);
            assert(rest.drop_first() =~= checks@.subrange(i + 1, checks@.len() as int));
        }
        if checks[i].rule_id == *rule_id {
            return Some(checks[i].checked);
        }
        i = i + 1;
    }
    None
}

/// The checklist links of a new trade: one per rule, in rule order, checked
/// only where the caller asked for it.
pub fn seed_checklist(rule_ids: &Vec<String>, requested: &Option<Vec<RuleCheck>>) -> (r: Vec<RuleCheck>)
    ensures
        checklist_for(r@, rule_ids@, *requested),
{
    let mut out: Vec<RuleCheck> = Vec::new();
    let mut i: usize = 0;
    while i < rule_ids.len()
        invariant
            i <= rule_ids.len(),
            out@.len() == i,
            forall|j: int|
                0 <= j < i ==> #[trigger] out@[j].rule_id@ == rule_ids@[j]@
                    && out@[j].checked == requested_check(*requested, rule_ids@[j]@),
        decreases rule_ids.len() - i,
    {
        let checked = match requested {
            Some(v) => match find_check(v, &rule_ids[i]) {
                Some(b) => b,
                None => false,
            },
            None => false,
        };
        assert(checked == requested_check(*requested, rule_ids@[i as int]@));
        let ghost before = out@;
        out.push(RuleCheck { rule_id: rule_ids[i].clone(), checked });
        assert(forall|j: int| 0 <= j < i ==> out@[j] == before[j]);
        i = i + 1;
    }
    out
}

/// Builds the stored row of a new trade from a valid input.
pub fn new_trade(input: TradeInput, id: String, now: i64) -> (r: Result<Trade, StoreError>)
    ensures
        match first_violation(input) {
            Some(v) => r == Err::<Trade, StoreError>(StoreError::Validation(v)),
            None => r matches Ok(t) && trade_matches(t, input, id@, now, now),
        },
{
    match validate_trade(&input) {
        Err(e) => Err(e),
        Ok(()) => {
            let (pnl_net, pnl_gross) = derive_pnl(input.pnl_amount, input.fees, input.pnl_includes_fees);
            Ok(Trade {
                id,
                market: input.market,
                symbol: input.symbol,
                side: input.side,
                qty: input.qty,
                entry_time_utc: input.entry_time_utc,
                exit_time_utc: input.exit_time_utc,
                timezone: input.timezone,
                session: input.session,
                pnl_amount: input.pnl_amount,
                pnl_includes_fees: input.pnl_includes_fees,
                fees: input.fees,
                pnl_net,
                pnl_gross,
                notes: input.notes,
                created_at_utc: now,
                updated_at_utc: now,
            })
        },
    }
}


/// No two entries name the same rule.
pub open spec fn checks_distinct(s: Seq<RuleCheck>) -> bool {
    forall|i: int, j: int| 0 <= i < j < s.len() ==> s[i].rule_id@ != s[j].rule_id@
}

/// The first entry a caller gave for a rule, if any.
pub open spec fn requested_first(requested: Option<Vec<RuleCheck>>, rule_id: Seq<char>) -> Option<bool> {
    match requested {
        Some(v) => first_check(v@, rule_id),
        None => None,
    }
}

proof fn lemma_first_check_push(s: Seq<RuleCheck>, x: RuleCheck, k: Seq<char>)
    ensures
        first_check(s.push(x), k) == match first_check(s, k) {
            Some(b) => Some(b),
            None => if x.rule_id@ == k {
                Some(x.checked)
            } else {
                None
            },
        },
    decreases s.len(),
{
    if s.len() == 0 {
        assert(s.push(x).drop_first() =~= Seq::<RuleCheck>::empty());
    } else {
        assert(s.push(x).drop_first() =~= s.drop_first().push(x));
        lemma_first_check_push(s.drop_first(), x, k);
    }
}

proof fn lemma_first_check_none(s: Seq<RuleCheck>, k: Seq<char>)
    requires
        first_check(s, k) is None,
    ensures
        forall|i: int| 0 <= i < s.len() ==> s[i].rule_id@ != k,
    decreases s.len(),
{
    if s.len() > 0 {
        lemma_first_check_none(s.drop_first(), k);
        assert forall|i: int| 0 <= i < s.len() implies s[i].rule_id@ != k by {
            if i > 0 {
                assert(s[i] == s.drop_first()[i - 1]);
            }
        }
    }
}

/// Keeps the first entry for each rule, so that every rule is named once
/// and reads as the caller's first choice for it.
pub fn first_per_rule(v: &Vec<RuleCheck>) -> (r: Vec<RuleCheck>)
    ensures
        checks_distinct(r@),
        forall|k: Seq<char>| #[trigger] first_check(r@, k) == first_check(v@, k),
{
    let mut out: Vec<RuleCheck> = Vec::new();
    let mut i: usize = 0;
    while i < v.len()
        invariant
            i <= v.len(),
            checks_distinct(out@),
            forall|k: Seq<char>| #[trigger] first_check(out@, k) == first_check(v@.subrange(0, i as int), k),
        decreases v.len() - i,
    {
        let ghost prefix = v@.subrange(0, i as int);
        let ghost before = out@;
        let x = RuleCheck { rule_id: v[i].rule_id.clone(), checked: v[i].checked };
        let seen = find_check(&out, &x.rule_id);
        proof {
            assert(x == v@[i as int]);
            assert(v@.subrange(0, i + 1) =~= prefix.push(x));
        }
        if seen.is_none() {
            out.push(x);
            proof {
                lemma_first_check_none(before, x.rule_id@);
                assert forall|a: int, b: int| 0 <= a < b < out@.len() implies out@[a].rule_id@
                    != out@[b].rule_id@ by {
                    if b == before.len() {
                        assert(out@[a] == before[a]);
                    } else {
                        assert(out@[a] == before[a] && out@[b] == before[b]);
                    }
                }
                assert forall|k: Seq<char>| #[trigger] first_check(out@, k) == first_check(
                    v@.subrange(0, i + 1),
                    k,
                ) by {
                    lemma_first_check_push(prefix, x, k);
                    lemma_first_check_push(before, x, k);
                }
            }
        } else {
            proof {
                assert forall|k: Seq<char>| #[trigger] first_check(out@, k) == first_check(
                    v@.subrange(0, i + 1),
                    k,
                ) by {
                    lemma_first_check_push(prefix, x, k);
                }
            }
        }
        i = i + 1;
    }
    proof {
        assert(v@.subrange(0, v@.len() as int) =~= v@);
    }
    out
}

/// Prepares a new trade: validates the input, derives its profit/loss,
/// gives it a fresh id and the current time, and seeds one checklist link
/// for every rule in `rule_ids`.
pub fn create_trade(input: TradeInput, rule_ids: &Vec<String>) -> (r: Result<NewTrade, StoreError>)
    ensures
        match first_violation(input) {
            Some(v) => r == Err::<NewTrade, StoreError>(StoreError::Validation(v)),
            None => r matches Ok(n) && trade_matches(
                n.trade,
                input,
                n.trade.id@,
                n.trade.created_at_utc,
                n.trade.created_at_utc,
            ) && checklist_for(n.checklist@, rule_ids@, input.rules_checked),
        },
{
    if let Err(e) = validate_trade(&input) {
        return Err(e);
    }
    let checklist = seed_checklist(rule_ids, &input.rules_checked);
    let id = new_id();
    let now = now_millis();
    match new_trade(input, id, now) {
        Ok(trade) => Ok(NewTrade { trade, checklist }),
        Err(e) => Err(e),
    }
}

/// Prepares the update of a stored trade: same validation and derivation as
/// creation, keeping the id and creation time of `existing` and stamping
/// `now` as the update time. The checklist entries the caller gives are to
/// be upserted, the first one per rule as on creation; rules it does not
/// mention keep their links.
pub fn update_trade(existing: Option<Trade>, input: TradeInput, now: i64) -> (r: Result<
    TradeUpdate,
    StoreError,
>)
    ensures
        match first_violation(input) {
            Some(v) => r == Err::<TradeUpdate, StoreError>(StoreError::Validation(v)),
            None => match existing {
                None => r == Err::<TradeUpdate, StoreError>(StoreError::NotFound),
                Some(old_trade) => r matches Ok(u) && trade_matches(
                    u.trade,
                    input,
                    old_trade.id@,
                    old_trade.created_at_utc,
                    now,
                ) && checks_distinct(u.checks@) && forall|k: Seq<char>|
                    #[trigger] first_check(u.checks@, k) == requested_first(input.rules_checked, k),
            },
        },
{
    if let Err(e) = validate_trade(&input) {
        return Err(e);
    }
    match existing {
        None => Err(StoreError::NotFound),
        Some(old_trade) => {
            let checks = match &input.rules_checked {
                Some(v) => first_per_rule(v),
                None => Vec::new(),
            };
            match new_trade(input, old_trade.id, now) {
                Ok(mut trade) => {
                    trade.created_at_utc = old_trade.created_at_utc;
                    Ok(TradeUpdate { trade, checks })
                },
                Err(e) => Err(e),
            }
        },
    }
}

/// Assembles a trade with the full rule list, in display order, and its
/// checklist links; a missing trade is `NotFound`.
pub fn get_trade_with_rules(trade: Option<Trade>, rules: Vec<Rule>, checked: Vec<RuleCheck>) -> (r:
    Result<TradeWithRules, StoreError>)
    ensures
        match trade {
            None => r == Err::<TradeWithRules, StoreError>(StoreError::NotFound),
            Some(t) => r matches Ok(w) && w.trade == t && sorted_by_order(w.rules@)
                && w.rules@.to_multiset() == rules@.to_multiset() && w.checked == checked,
        },
{
    match trade {
        None => Err(StoreError::NotFound),
        Some(t) => Ok(TradeWithRules { trade: t, rules: sort_rules(rules), checked }),
    }
}

impl TradeWithRules {
    /// Whether a rule is checked for this trade; a rule with no link counts
    /// as unchecked.
    pub fn is_checked(&self, rule_id: &String) -> (r: bool)
        ensures
            r == (first_check(self.checked@, rule_id@) == Some(true)),
    {
        match find_check(&self.checked, rule_id) {
            Some(b) => b,
            None => false,
        }
    }
}


/// How many links name `rule_id`.
pub open spec fn count_links(s: Seq<RuleCheck>, rule_id: Seq<char>) -> nat
    decreases s.len(),
{
    if s.len() == 0 {
        0
    } else {
        (if s[0].rule_id@ == rule_id {
            1nat
        } else {
            0nat
        }) + count_links(s.drop_first(), rule_id)
    }
}

pub open spec fn distinct_ids(rule_ids: Seq<String>) -> bool {
    forall|i: int, j: int| 0 <= i < j < rule_ids.len() ==> rule_ids[i]@ != rule_ids[j]@
}

/// The checklist seeded for a new trade holds exactly one link for each
/// rule that existed at creation time and none for any other id; read back
/// through `first_check` (as `TradeWithRules::is_checked` does), each rule
/// is checked exactly when the caller asked for it.
pub proof fn lemma_new_checklist_complete(
    links: Seq<RuleCheck>,
    rule_ids: Seq<String>,
    requested: Option<Vec<RuleCheck>>,
)
    requires
        checklist_for(links, rule_ids, requested),
        distinct_ids(rule_ids),
    ensures
        forall|i: int|
            0 <= i < rule_ids.len() ==> count_links(links, #[trigger] rule_ids[i]@) == 1
                && first_check(links, rule_ids[i]@) == Some(requested_check(requested, rule_ids[i]@)),
        forall|k: Seq<char>|
            count_links(links, k) > 0 ==> exists|i: int| 0 <= i < rule_ids.len() && rule_ids[i]@ == k,
    decreases links.len(),
{
    if links.len() > 0 {
        let tl = links.drop_first();
        let tr = rule_ids.drop_first();
        assert forall|i: int| 0 <= i < tl.len() implies #[trigger] tl[i].rule_id@ == tr[i]@
            && tl[i].checked == requested_check(requested, tr[i]@) by {
            assert(links[i + 1].rule_id@ == rule_ids[i + 1]@);
        }
        lemma_new_checklist_complete(tl, tr, requested);
        assert(links[0].rule_id@ == rule_ids[0]@);
        assert forall|i: int| 0 <= i < rule_ids.len() implies count_links(links, #[trigger] rule_ids[i]@) == 1
            && first_check(links, rule_ids[i]@) == Some(requested_check(requested, rule_ids[i]@)) by {
            if i == 0 {
                if count_links(tl, rule_ids[0]@) > 0 {
                    let j = choose|j: int| 0 <= j < tr.len() && tr[j]@ == rule_ids[0]@;
                    assert(rule_ids[j + 1]@ == tr[j]@);
                }
            } else {
                assert(tr[i - 1]@ == rule_ids[i]@);
            }
        }
        assert forall|k: Seq<char>| count_links(links, k) > 0 implies exists|i: int|
            0 <= i < rule_ids.len() && rule_ids[i]@ == k by {
            if k != rule_ids[0]@ {
                assert(count_links(tl, k) > 0);
                let j = choose|j: int| 0 <= j < tr.len() && tr[j]@ == k;
                assert(rule_ids[j + 1]@ == k);
            }
        }
    }
}


/// Each rule of a trade input is enforced on its own: breaking any one of
/// them gets the input refused whatever the other fields hold, and when it
/// is the only rule broken the refusal names it.
pub proof fn lemma_each_rule_rejects(input: TradeInput)
    ensures
        is_blank(input.symbol@) ==> first_violation(input) == Some(ValidationError::BlankSymbol),
        input.qty <= 0 ==> first_violation(input) is Some,
        input.exit_time_utc <= input.entry_time_utc ==> first_violation(input) is Some,
        input.fees < 0 ==> first_violation(input) is Some,
        !is_blank(input.symbol@) && input.qty <= 0 ==> first_violation(input) == Some(
            ValidationError::NonPositiveQuantity,
        ),
        !is_blank(input.symbol@) && input.qty > 0 && input.exit_time_utc <= input.entry_time_utc
            ==> first_violation(input) == Some(ValidationError::ExitNotAfterEntry),
        !is_blank(input.symbol@) && input.qty > 0 && input.exit_time_utc > input.entry_time_utc
            && input.fees < 0 ==> first_violation(input) == Some(ValidationError::NegativeFees),
{
}


/// Whichever way the fees are booked, gross profit/loss exceeds net by
/// exactly the fees: with fees included, net is the raw amount and gross
/// adds the fees; otherwise gross is the raw amount and net takes them off.
pub proof fn lemma_gross_minus_net_is_fees(amount: int, fees: int, includes_fees: bool)
    ensures
        gross_of(amount, fees, includes_fees) - net_of(amount, fees, includes_fees) == fees,
        includes_fees ==> net_of(amount, fees, includes_fees) == amount,
        !includes_fees ==> gross_of(amount, fees, includes_fees) == amount,
{
}

} // verus!
