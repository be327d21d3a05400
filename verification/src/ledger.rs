//! The custodial balance ledger: currency that the engine holds on behalf of
//! a principal, the log of moves that failed, and the fee processor.

use vstd::prelude::*;
use candid::{Nat, Principal};
use crate::number::{nat_add, nat_div, nat_eq, nat_from_u64, nat_lt, nat_mul, nat_value};
use crate::principal::same_principal;
use crate::table::{as_map, lemma_lookup, lemma_missing, lemma_push, lemma_remove, lemma_update, unique_keys};
use crate::types::{MPApiError, MPApiResult, NatResult, TxLogEntry};

verus! {

/// The amount held in `currency` for `holder`: zero where the ledger has no
/// entry.
pub open spec fn held(
    m: Map<(Principal, Principal), nat>,
    currency: Principal,
    holder: Principal,
) -> nat {
    if m.contains_key((currency, holder)) {
        m[(currency, holder)]
    } else {
        0
    }
}

/// The ledger after `amount` was added to what `holder` has in `currency`.
pub open spec fn credited(
    m: Map<(Principal, Principal), nat>,
    currency: Principal,
    holder: Principal,
    amount: nat,
) -> Map<(Principal, Principal), nat> {
    m.insert((currency, holder), held(m, currency, holder) + amount)
}

/// The ledger after a withdrawal started: the holder's entry stands at zero.
pub open spec fn withdrawal_started(
    m: Map<(Principal, Principal), nat>,
    currency: Principal,
    holder: Principal,
) -> Map<(Principal, Principal), nat> {
    m.insert((currency, holder), 0)
}

/// The ledger after a withdrawal was sent: an entry that still stands at zero
/// is gone.
pub open spec fn withdrawal_sent(
    m: Map<(Principal, Principal), nat>,
    currency: Principal,
    holder: Principal,
) -> Map<(Principal, Principal), nat> {
    if held(m, currency, holder) == 0 {
        m.remove((currency, holder))
    } else {
        m
    }
}

/// The fee that a rate in parts per ten thousand takes of a price, rounded
/// down.
pub open spec fn fee_amount(price: nat, rate: nat) -> nat {
    price * rate / 10000
}

/// The sum of the fees that the lines take of a price.
pub open spec fn fees_total(price: nat, fees: Seq<(String, Principal, Nat)>) -> nat
    decreases fees.len(),
{
    if fees.len() == 0 {
        0
    } else {
        fees_total(price, fees.drop_last()) + fee_amount(price, nat_value(fees.last().2))
    }
}

/// The sum of the rates of the lines.
pub open spec fn rates_total(fees: Seq<(String, Principal, Nat)>) -> nat
    decreases fees.len(),
{
    if fees.len() == 0 {
        0
    } else {
        rates_total(fees.drop_last()) + nat_value(fees.last().2)
    }
}

/// The ledger after each line's fee was credited to its recipient, in order.
pub open spec fn fees_credited(
    m: Map<(Principal, Principal), nat>,
    currency: Principal,
    price: nat,
    fees: Seq<(String, Principal, Nat)>,
) -> Map<(Principal, Principal), nat>
    decreases fees.len(),
{
    if fees.len() == 0 {
        m
    } else {
        credited(
            fees_credited(m, currency, price, fees.drop_last()),
            currency,
            fees.last().1,
            fee_amount(price, nat_value(fees.last().2)),
        )
    }
}

/// The key of a ledger entry: currency and holder.
pub open spec fn account_key() -> spec_fn(((Principal, Principal), Nat)) -> (Principal, Principal) {
    |e: ((Principal, Principal), Nat)| e.0
}

/// The amount of a ledger entry, as a number.
pub open spec fn account_amount() -> spec_fn(((Principal, Principal), Nat)) -> nat {
    |e: ((Principal, Principal), Nat)| nat_value(e.1)
}

/// The entries held for one principal.
pub open spec fn held_by(pid: Principal) -> spec_fn(((Principal, Principal), Nat)) -> bool {
    |e: ((Principal, Principal), Nat)| e.0.1 == pid
}

/// The currency and the amount of an entry.
pub open spec fn currency_amount() -> spec_fn(((Principal, Principal), Nat)) -> (Principal, Nat) {
    |e: ((Principal, Principal), Nat)| (e.0.0, e.1)
}

/// The ledger and the log of failed moves.
pub struct Balances {
    pub(crate) balances: Vec<((Principal, Principal), Nat)>,
    pub(crate) failed_tx_log_entries: Vec<TxLogEntry>,
}

impl View for Balances {
    type V = Map<(Principal, Principal), nat>;

    /// The amount held for each (currency, holder) that has an entry.
    closed spec fn view(&self) -> Map<(Principal, Principal), nat> {
        as_map(self.balances@, account_key()).map_values(account_amount())
    }
}

impl Default for Balances {
    /// An empty ledger with an empty log.
    fn default() -> (r: Self)
        ensures
            r.wf(),
            r@ == Map::<(Principal, Principal), nat>::empty(),
            r.log() == Seq::<TxLogEntry>::empty(),
    {
        Balances::new()
    }
}

/// `format!` with a principal's text form: the diagnostic for a withdrawal
/// that could not be sent. Nothing is claimed of the text.
#[verifier::external_body]
fn withdraw_memo(caller: &Principal) -> String {
    format!("withdraw failed for user {}", caller)
}

impl Balances {
    /// No (currency, holder) has two entries.
    pub closed spec fn wf(&self) -> bool {
        unique_keys(self.balances@, account_key())
    }

    /// The failed moves recorded so far, oldest first.
    pub closed spec fn log(&self) -> Seq<TxLogEntry> {
        self.failed_tx_log_entries@
    }

    /// What the ledger holds in `currency` for `holder`.
    pub open spec fn balance(&self, currency: Principal, holder: Principal) -> nat {
        held(self@, currency, holder)
    }

    /// An empty ledger with an empty log: no entry is kept.
    pub fn new() -> (r: Self)
        ensures
            r.wf(),
            r@ == Map::<(Principal, Principal), nat>::empty(),
            r.log() == Seq::<TxLogEntry>::empty(),
            r.entry_list() == Seq::<((Principal, Principal), Nat)>::empty(),
    {
        let r = Balances { balances: Vec::new(), failed_tx_log_entries: Vec::new() };
        proof {
            lemma_empty(r.balances@);
            assert(r.entry_list() =~= Seq::<((Principal, Principal), Nat)>::empty());
        }
        r
    }

    /// The place of the entry for (currency, holder), if there is one.
    fn find(&self, currency: &Principal, holder: &Principal) -> (r: Option<usize>)
        requires
            self.wf(),
        ensures
            match r {
                Some(i) => i < self.balances@.len() && self.balances@[i as int].0 == (
                    *currency,
                    *holder,
                ) && self@.contains_key((*currency, *holder)) && self@[(*currency, *holder)]
                    == nat_value(self.balances@[i as int].1),
                None => !self@.contains_key((*currency, *holder)) && !as_map(
                    self.balances@,
                    account_key(),
                ).contains_key((*currency, *holder)),
            },
    {
        let mut i: usize = 0;
        while i < self.balances.len()
            invariant
                self.wf(),
                i <= self.balances@.len(),
                forall|j: int|
                    0 <= j < i ==> account_key()(#[trigger] self.balances@[j]) != (
                        *currency,
                        *holder,
                    ),
            decreases self.balances@.len() - i,
        {
            if same_principal(&self.balances[i].0.0, currency) && same_principal(
                &self.balances[i].0.1,
                holder,
            ) {
                proof {
                    lemma_lookup(self.balances@, account_key(), i as int);
                }
                return Some(i);
            }
            i += 1;
        }
        proof {
            lemma_missing(self.balances@, account_key(), (*currency, *holder));
        }
        None
    }

    /// What the ledger holds in `currency` for `holder`.
    pub fn get_balance(&self, currency: &Principal, holder: &Principal) -> (r: Nat)
        requires
            self.wf(),
        ensures
            nat_value(r) == self.balance(*currency, *holder),
    {
        match self.find(currency, holder) {
            Some(i) => self.balances[i].1.clone(),
            None => nat_from_u64(0),
        }
    }

    /// The failed moves recorded so far, oldest first.
    pub fn failed_log(&self) -> (r: &Vec<TxLogEntry>)
        ensures
            r@ == self.log(),
    {
        &self.failed_tx_log_entries
    }

    /// Sets what is held for (currency, holder), making an entry where there
    /// was none.
    fn put(&mut self, currency: Principal, holder: Principal, amount: Nat)
        requires
            old(self).wf(),
        ensures
            final(self).wf(),
            final(self)@ == old(self)@.insert((currency, holder), nat_value(amount)),
            final(self).log() == old(self).log(),
    {
        match self.find(&currency, &holder) {
            Some(i) => {
                proof {
                    lemma_update(
                        self.balances@,
                        account_key(),
                        i as int,
                        ((currency, holder), amount),
                    );
                }
                self.balances.set(i, ((currency, holder), amount));
            },
            None => {
                proof {
                    lemma_push(self.balances@, account_key(), ((currency, holder), amount));
                }
                self.balances.push(((currency, holder), amount));
            },
        }
        assert(self@ =~= old(self)@.insert((currency, holder), nat_value(amount)));
    }

    /// Removes the entry for (currency, holder), if there is one.
    fn drop_entry(&mut self, currency: Principal, holder: Principal)
        requires
            old(self).wf(),
        ensures
            final(self).wf(),
            final(self)@ == old(self)@.remove((currency, holder)),
            final(self).log() == old(self).log(),
    {
        match self.find(&currency, &holder) {
            Some(i) => {
                proof {
                    lemma_remove(self.balances@, account_key(), i as int);
                }
                let _ = self.balances.remove(i);
            },
            None => {},
        }
        assert(self@ =~= old(self)@.remove((currency, holder)));
    }

    /// Adds `amount` to what the ledger holds in `currency` for `holder`. An
    /// entry is made where there was none.
    pub fn credit(&mut self, currency: Principal, holder: Principal, amount: &Nat)
        requires
            old(self).wf(),
        ensures
            final(self).wf(),
            final(self)@ == credited(old(self)@, currency, holder, nat_value(*amount)),
            final(self).log() == old(self).log(),
    {
        let before = self.get_balance(&currency, &holder);
        let sum = nat_add(&before, amount);
        self.put(currency, holder, sum);
    }

    /// Appends one record to the log of failed moves.
    pub fn log_failure(&mut self, from: Principal, to: Principal, memo: String)
        requires
            old(self).wf(),
        ensures
            final(self).wf(),
            final(self)@ == old(self)@,
            final(self).log() == old(self).log().push(TxLogEntry { from, to, memo }),
    {
        self.failed_tx_log_entries.push(TxLogEntry::new(from, to, memo));
    }

    /// Sets what the ledger holds in `currency` for `user`, for a caller who
    /// controls the engine.
    pub fn fix_balance(
        &mut self,
        controller: bool,
        fungible_canister_id: Principal,
        user: Principal,
        amount: Nat,
    ) -> (r: MPApiResult)
        requires
            old(self).wf(),
        ensures
            final(self).wf(),
            final(self).log() == old(self).log(),
            !controller ==> r == Err::<(), MPApiError>(MPApiError::Unauthorized) && final(self)@
                == old(self)@,
            controller ==> r is Ok && final(self)@ == old(self)@.insert(
                (fungible_canister_id, user),
                nat_value(amount),
            ),
    {
        if !controller {
            return Err(MPApiError::Unauthorized);
        }
        self.put(fungible_canister_id, user, amount);
        Ok(())
    }

    /// Credits each line's fee on `price` to its recipient and returns the sum
    /// of the fees.
    pub fn credit_fees(
        &mut self,
        fungible_canister_id: Principal,
        price: &Nat,
        fees: &Vec<(String, Principal, Nat)>,
    ) -> (total: Nat)
        requires
            old(self).wf(),
        ensures
            final(self).wf(),
            nat_value(total) == fees_total(nat_value(*price), fees@),
            final(self)@ == fees_credited(
                old(self)@,
                fungible_canister_id,
                nat_value(*price),
                fees@,
            ),
            final(self).log() == old(self).log(),
    {
        let mut total = nat_from_u64(0);
        let scale = nat_from_u64(10000);
        let mut i: usize = 0;
        while i < fees.len()
            invariant
                i <= fees@.len(),
                self.wf(),
                nat_value(scale) == 10000,
                nat_value(total) == fees_total(nat_value(*price), fees@.take(i as int)),
                self@ == fees_credited(
                    old(self)@,
                    fungible_canister_id,
                    nat_value(*price),
                    fees@.take(i as int),
                ),
                self.log() == old(self).log(),
            decreases fees@.len() - i,
        {
            let product = nat_mul(price, &fees[i].2);
            let amount = nat_div(&product, &scale);
            total = nat_add(&total, &amount);
            self.credit(fungible_canister_id, fees[i].1, &amount);
            proof {
                let next = fees@.take(i as int + 1);
                assert(next.drop_last() =~= fees@.take(i as int));
                assert(next.last() == fees@[i as int]);
            }
            i += 1;
        }
        assert(fees@.take(i as int) =~= fees@);
        total
    }

    /// The entries in the order in which they are kept.
    pub closed spec fn entry_list(&self) -> Seq<((Principal, Principal), Nat)> {
        self.balances@
    }

    /// The kept order holds each (currency, holder) once, with the amount that
    /// the ledger holds for it.
    pub proof fn lemma_entries(&self)
        requires
            self.wf(),
        ensures
            unique_keys(self.entry_list(), account_key()),
            as_map(self.entry_list(), account_key()).map_values(account_amount()) == self@,
    {
    }

    /// Every entry of the ledger: (currency, holder) and the amount held.
    pub fn get_all_balances(&self) -> (r: &Vec<((Principal, Principal), Nat)>)
        ensures
            r@ == self.entry_list(),
    {
        &self.balances
    }

    /// What the ledger holds for one principal: each currency with its
    /// amount, in the order in which the entries are kept.
    pub fn balance_of(&self, pid: Principal) -> (r: Vec<(Principal, Nat)>)
        ensures
            r@ == self.entry_list().filter(held_by(pid)).map_values(currency_amount()),
    {
        let ghost pred = held_by(pid);
        let mut r: Vec<(Principal, Nat)> = Vec::new();
        let mut i: usize = 0;
        proof {
            reveal(Seq::filter);
            assert(r@ =~= self.balances@.take(0).filter(pred).map_values(currency_amount()));
        }
        while i < self.balances.len()
            invariant
                i <= self.balances@.len(),
                pred == held_by(pid),
                r@ == self.balances@.take(i as int).filter(pred).map_values(currency_amount()),
            decreases self.balances@.len() - i,
        {
            proof {
                reveal(Seq::filter);
                let next = self.balances@.take(i as int + 1);
                assert(next.drop_last() =~= self.balances@.take(i as int));
                assert(next.last() == self.balances@[i as int]);
            }
            if same_principal(&self.balances[i].0.1, &pid) {
                r.push((self.balances[i].0.0, self.balances[i].1.clone()));
                assert(r@ =~= self.balances@.take(i as int + 1).filter(pred).map_values(
                    currency_amount(),
                ));
            }
            i += 1;
        }
        assert(self.balances@.take(i as int) =~= self.balances@);
        r
    }

    /// Starts a withdrawal: takes everything the ledger holds in `currency`
    /// for `caller` out of the ledger, before anything is sent, and returns the
    /// amount to send. Refused when nothing is held.
    pub fn withdraw_fungible(&mut self, fungible_canister_id: Principal, caller: Principal) -> (r:
        NatResult)
        requires
            old(self).wf(),
        ensures
            final(self).wf(),
            final(self).log() == old(self).log(),
            r is Ok <==> old(self).balance(fungible_canister_id, caller) > 0,
            r is Ok ==> nat_value(r->Ok_0) == old(self).balance(fungible_canister_id, caller)
                && final(self)@ == withdrawal_started(old(self)@, fungible_canister_id, caller),
            r is Err ==> r->Err_0 == MPApiError::InsufficientFungibleBalance && final(self)@
                == old(self)@,
    {
        let balance = self.get_balance(&fungible_canister_id, &caller);
        let zero = nat_from_u64(0);
        if nat_eq(&balance, &zero) {
            return Err(MPApiError::InsufficientFungibleBalance);
        }
        self.put(fungible_canister_id, caller, zero);
        Ok(balance)
    }

    /// Ends a withdrawal of `amount`. When it was sent, an entry that is still
    /// zero is removed. When it was not, the amount goes back into the ledger
    /// and the failure is logged, from the engine to the caller.
    pub fn withdraw_settled(
        &mut self,
        self_id: Principal,
        fungible_canister_id: Principal,
        caller: Principal,
        amount: &Nat,
        sent: bool,
    ) -> (r: MPApiResult)
        requires
            old(self).wf(),
        ensures
            final(self).wf(),
            sent ==> r is Ok && final(self).log() == old(self).log(),
            sent ==> final(self)@ == withdrawal_sent(old(self)@, fungible_canister_id, caller),
            !sent ==> r == Err::<(), MPApiError>(MPApiError::TransferFungibleError),
            !sent ==> final(self)@ == credited(
                old(self)@,
                fungible_canister_id,
                caller,
                nat_value(*amount),
            ),
            !sent ==> final(self).log().len() == old(self).log().len() + 1,
            !sent ==> final(self).log().drop_last() == old(self).log(),
            !sent ==> final(self).log().last().from == self_id,
            !sent ==> final(self).log().last().to == caller,
    {
        if sent {
            let left = self.get_balance(&fungible_canister_id, &caller);
            let zero = nat_from_u64(0);
            if nat_eq(&left, &zero) {
                self.drop_entry(fungible_canister_id, caller);
            }
            Ok(())
        } else {
            self.credit(fungible_canister_id, caller, amount);
            let memo = withdraw_memo(&caller);
            self.log_failure(self_id, caller, memo);
            assert(self.log().drop_last() =~= old(self).log());
            Err(MPApiError::TransferFungibleError)
        }
    }
}

/// No entries, no map.
proof fn lemma_empty(s: Seq<((Principal, Principal), Nat)>)
    requires
        s.len() == 0,
    ensures
        unique_keys(s, account_key()),
        as_map(s, account_key()).map_values(account_amount()) =~= Map::<
            (Principal, Principal),
            nat,
        >::empty(),
{
}

/// The sum of the fees that the lines for one recipient take of a price.
pub open spec fn fees_for(
    price: nat,
    fees: Seq<(String, Principal, Nat)>,
    recipient: Principal,
) -> nat
    decreases fees.len(),
{
    if fees.len() == 0 {
        0
    } else if fees.last().1 == recipient {
        fees_for(price, fees.drop_last(), recipient) + fee_amount(
            price,
            nat_value(fees.last().2),
        )
    } else {
        fees_for(price, fees.drop_last(), recipient)
    }
}

/// Crediting the fees raises what each holder has in the currency by
/// exactly the fees of the lines that name the holder, and changes nothing
/// in any other currency.
pub proof fn lemma_fees_reach_recipients(
    m: Map<(Principal, Principal), nat>,
    currency: Principal,
    price: nat,
    fees: Seq<(String, Principal, Nat)>,
    other_currency: Principal,
    holder: Principal,
)
    ensures
        held(fees_credited(m, currency, price, fees), currency, holder) == held(
            m,
            currency,
            holder,
        ) + fees_for(price, fees, holder),
        other_currency != currency ==> held(
            fees_credited(m, currency, price, fees),
            other_currency,
            holder,
        ) == held(m, other_currency, holder),
    decreases fees.len(),
{
    if fees.len() > 0 {
        lemma_fees_reach_recipients(m, currency, price, fees.drop_last(), other_currency, holder);
    }
}

/// No recipient is credited more than the sum of all fees.
pub proof fn lemma_fees_for_within_total(
    price: nat,
    fees: Seq<(String, Principal, Nat)>,
    recipient: Principal,
)
    ensures
        fees_for(price, fees, recipient) <= fees_total(price, fees),
    decreases fees.len(),
{
    if fees.len() > 0 {
        lemma_fees_for_within_total(price, fees.drop_last(), recipient);
    }
}

/// The sum of the fees that the lines take of `price`.
pub fn sum_fees(price: &Nat, fees: &Vec<(String, Principal, Nat)>) -> (total: Nat)
    ensures
        nat_value(total) == fees_total(nat_value(*price), fees@),
{
    let mut total = nat_from_u64(0);
    let scale = nat_from_u64(10000);
    let mut i: usize = 0;
    while i < fees.len()
        invariant
            i <= fees@.len(),
            nat_value(scale) == 10000,
            nat_value(total) == fees_total(nat_value(*price), fees@.take(i as int)),
        decreases fees@.len() - i,
    {
        let product = nat_mul(price, &fees[i].2);
        let amount = nat_div(&product, &scale);
        total = nat_add(&total, &amount);
        proof {
            let next = fees@.take(i as int + 1);
            assert(next.drop_last() =~= fees@.take(i as int));
            assert(next.last() == fees@[i as int]);
        }
        i += 1;
    }
    assert(fees@.take(i as int) =~= fees@);
    total
}

/// Whether the fees that the lines take of `price` leave anything, or
/// nothing, but not less than nothing, for the seller.
pub fn fees_fit(price: &Nat, fees: &Vec<(String, Principal, Nat)>) -> (r: bool)
    ensures
        r == (fees_total(nat_value(*price), fees@) <= nat_value(*price)),
{
    let total = sum_fees(price, fees);
    !nat_lt(price, &total)
}

/// Rates that sum to no more than ten thousand take no more than the price.
pub proof fn lemma_fees_within_price(price: nat, fees: Seq<(String, Principal, Nat)>)
    requires
        rates_total(fees) <= 10000,
    ensures
        fees_total(price, fees) <= price,
{
    lemma_fees_scaled(price, fees);
    assert(fees_total(price, fees) * 10000 <= price * 10000) by (nonlinear_arith)
        requires
            fees_total(price, fees) * 10000 <= price * rates_total(fees),
            rates_total(fees) <= 10000,
    ;
}

/// Ten thousand times the fees is no more than the price times the rates.
proof fn lemma_fees_scaled(price: nat, fees: Seq<(String, Principal, Nat)>)
    ensures
        fees_total(price, fees) * 10000 <= price * rates_total(fees),
    decreases fees.len(),
{
    if fees.len() > 0 {
        lemma_fees_scaled(price, fees.drop_last());
        let rate = nat_value(fees.last().2);
        let before = fees_total(price, fees.drop_last());
        let rates = rates_total(fees.drop_last());
        assert((price * rate / 10000) * 10000 <= price * rate) by (nonlinear_arith);
        assert((before + fee_amount(price, rate)) * 10000 <= price * (rates + rate))
            by (nonlinear_arith)
            requires
                before * 10000 <= price * rates,
                fee_amount(price, rate) * 10000 <= price * rate,
        ;
    } else {
        assert(price * 0 == 0) by (nonlinear_arith);
    }
}

/// Credits each line's fee on `price` to its recipient in `balances` and
/// returns the sum of the fees.
pub fn process_fees(
    balances: &mut Balances,
    fungible_canister_id: Principal,
    price: Nat,
    fees: Vec<(String, Principal, Nat)>,
) -> (total: Nat)
    requires
        old(balances).wf(),
    ensures
        final(balances).wf(),
        nat_value(total) == fees_total(nat_value(price), fees@),
        final(balances)@ == fees_credited(
            old(balances)@,
            fungible_canister_id,
            nat_value(price),
            fees@,
        ),
        final(balances).log() == old(balances).log(),
{
    balances.credit_fees(fungible_canister_id, &price, &fees)
}

} // verus!
