use vstd::prelude::*;

use crate::address::{null_address, Address};
use crate::error::{outcome, Error};
use crate::table::{keys_of, sum_of, Table, TableKey};
use crate::uint::{max_value_spec, U256};

verus! {

/// The key of an allowance: the owner who grants it and the spender who may
/// use it. The order matters.
#[derive(Clone, Copy, Debug, PartialEq, Eq)]
pub struct AllowanceKey {
    pub owner: Address,
    pub spender: Address,
}

impl TableKey for AllowanceKey {
    fn key_eq(&self, other: &Self) -> (r: bool) {
        self.owner.same(&other.owner) && self.spender.same(&other.spender)
    }
}

/// A record of a token movement or of an approval.
#[derive(Clone, Copy, Debug, PartialEq, Eq)]
pub enum ERC20Event {
    /// Tokens moved; a null `from` marks a mint, a null `to` a burn.
    Transfer { from: Address, to: Address, value: U256 },
    /// An owner set the allowance of a spender.
    Approval { owner: Address, spender: Address, value: U256 },
}

impl ERC20Event {
    /// The event-type tag that the record is published under.
    pub fn event_type(&self) -> (r: String)
        ensures
            self is Transfer ==> r@ == "transfer"@,
            self is Approval ==> r@ == "approval"@,
    {
        match self {
            ERC20Event::Transfer { .. } => "transfer".to_string(),
            ERC20Event::Approval { .. } => "approval".to_string(),
        }
    }
}

/// The abstract state of a token: metadata, supply, balances and allowances
/// (an account that is absent holds zero), and the events recorded so far.
pub struct ERC20Model {
    pub name: Seq<char>,
    pub symbol: Seq<char>,
    pub decimals: u8,
    pub total_supply: nat,
    pub balances: Map<Address, nat>,
    pub allowances: Map<AllowanceKey, nat>,
    pub events: Seq<ERC20Event>,
}

impl ERC20Model {
    pub open spec fn balance(self, account: Address) -> nat {
        if self.balances.contains_key(account) {
            self.balances[account]
        } else {
            0
        }
    }

    pub open spec fn allowance(self, owner: Address, spender: Address) -> nat {
        let k = AllowanceKey { owner, spender };
        if self.allowances.contains_key(k) {
            self.allowances[k]
        } else {
            0
        }
    }

    pub open spec fn with_balance(self, account: Address, amount: nat) -> ERC20Model {
        ERC20Model { balances: self.balances.insert(account, amount), ..self }
    }

    pub open spec fn with_allowance(self, owner: Address, spender: Address, amount: nat) -> ERC20Model {
        ERC20Model {
            allowances: self.allowances.insert(AllowanceKey { owner, spender }, amount),
            ..self
        }
    }

    pub open spec fn with_event(self, e: ERC20Event) -> ERC20Model {
        ERC20Model { events: self.events.push(e), ..self }
    }
}

/// Moving `amount` from `from` to `to`: both must be non-null and `from` must
/// hold the amount. The movement nets to zero, also where `from == to`.
pub open spec fn transfer_spec(m: ERC20Model, from: Address, to: Address, amount: U256) -> Result<
    ERC20Model,
    Error,
> {
    if from.is_null_spec() || to.is_null_spec() {
        Err(Error::ZeroAddress)
    } else if m.balance(from) < amount.value() {
        Err(Error::InsufficientBalance)
    } else {
        let debited = m.with_balance(from, (m.balance(from) - amount.value()) as nat);
        Ok(
            debited.with_balance(to, debited.balance(to) + amount.value()).with_event(
                ERC20Event::Transfer { from, to, value: amount },
            ),
        )
    }
}

/// Creating `amount` new tokens at `to`.
pub open spec fn mint_spec(m: ERC20Model, to: Address, amount: U256) -> Result<ERC20Model, Error> {
    if to.is_null_spec() {
        Err(Error::ZeroAddress)
    } else {
        Ok(
            ERC20Model { total_supply: m.total_supply + amount.value(), ..m }.with_balance(
                to,
                m.balance(to) + amount.value(),
            ).with_event(ERC20Event::Transfer { from: null_address(), to, value: amount }),
        )
    }
}

/// Destroying `amount` tokens held by `account`.
pub open spec fn burn_spec(m: ERC20Model, account: Address, amount: U256) -> Result<ERC20Model, Error> {
    if account.is_null_spec() {
        Err(Error::ZeroAddress)
    } else if m.balance(account) < amount.value() {
        Err(Error::InsufficientBalance)
    } else {
        Ok(
            ERC20Model {
                total_supply: (m.total_supply - amount.value()) as nat,
                ..m
            }.with_balance(account, (m.balance(account) - amount.value()) as nat).with_event(
                ERC20Event::Transfer { from: account, to: null_address(), value: amount },
            ),
        )
    }
}

/// Setting the allowance of `spender` over the tokens of `owner` to `amount`
/// (an absolute value, not an increment).
pub open spec fn approve_spec(m: ERC20Model, owner: Address, spender: Address, amount: U256) -> Result<
    ERC20Model,
    Error,
> {
    if owner.is_null_spec() || spender.is_null_spec() {
        Err(Error::ZeroAddress)
    } else {
        Ok(
            m.with_allowance(owner, spender, amount.value()).with_event(
                ERC20Event::Approval { owner, spender, value: amount },
            ),
        )
    }
}

/// Using `amount` of the allowance of `spender` over the tokens of `owner`.
/// The largest value stands for an unlimited allowance and is never
/// decremented. No event is recorded.
pub open spec fn spend_allowance_spec(m: ERC20Model, owner: Address, spender: Address, amount: U256) -> Result<
    ERC20Model,
    Error,
> {
    let current = m.allowance(owner, spender);
    if current == max_value_spec() {
        Ok(m)
    } else if current < amount.value() {
        Err(Error::InsufficientAllowance)
    } else {
        Ok(m.with_allowance(owner, spender, (current - amount.value()) as nat))
    }
}

/// `spender` moving `amount` from `from` to `to`: first the allowance is
/// spent, then the tokens move; if either fails, nothing happens.
pub open spec fn transfer_from_spec(
    m: ERC20Model,
    spender: Address,
    from: Address,
    to: Address,
    amount: U256,
) -> Result<ERC20Model, Error> {
    match spend_allowance_spec(m, from, spender, amount) {
        Ok(spent) => transfer_spec(spent, from, to, amount),
        Err(e) => Err(e),
    }
}

} // verus!

verus! {

/// A fungible token: balances, allowances and total supply over an
/// in-memory store, with the log of events it recorded.
pub struct ERC20 {
    name: String,
    symbol: String,
    decimals: u8,
    total_supply: U256,
    balances: Table<Address, U256>,
    allowances: Table<AllowanceKey, U256>,
    events: Vec<ERC20Event>,
}

impl View for ERC20 {
    type V = ERC20Model;

    closed spec fn view(&self) -> ERC20Model {
        ERC20Model {
            name: self.name@,
            symbol: self.symbol@,
            decimals: self.decimals,
            total_supply: self.total_supply.value(),
            balances: self.balances@.map_values(|v: U256| v.value()),
            allowances: self.allowances@.map_values(|v: U256| v.value()),
            events: self.events@,
        }
    }
}

impl ERC20 {
    /// The names under which the host stores the token's state.
    pub const ERC20_NAME_KEY: &'static str = "name";
    pub const ERC20_SYMBOL_KEY: &'static str = "symbol";
    pub const ERC20_DECIMALS_KEY: &'static str = "decimals";
    pub const ERC20_BALANCE_KEY: &'static str = "balances";
    pub const ERC20_ALLOWANCE_KEY: &'static str = "allowances";
    pub const ERC20_TOTAL_SUPPLY_KEY: &'static str = "total_supply";

    /// The stores are well formed and the total supply is the sum of all
    /// balances.
    pub closed spec fn wf(self) -> bool {
        &&& self.balances.wf()
        &&& self.allowances.wf()
        &&& self.total_supply.value() == self.balances.total()
    }

    /// Every balance is at most the total supply, which fits in 256 bits.
    pub proof fn lemma_balance_le_supply(self, account: Address)
        requires
            self.wf(),
        ensures
            self@.balance(account) <= self@.total_supply,
            self@.total_supply <= max_value_spec(),
    {
        self.balances.lemma_total_ge(account);
        self.total_supply.lemma_bounded();
    }

    /// A token whose whole initial supply is held by `deployer`, with no
    /// allowances and no events.
    pub fn new(name: String, symbol: String, decimals: u8, initial_supply: U256, deployer: Address) -> (r: ERC20)
        ensures
            r.wf(),
            r@ == (ERC20Model {
                name: name@,
                symbol: symbol@,
                decimals,
                total_supply: initial_supply.value(),
                balances: map![deployer => initial_supply.value()],
                allowances: Map::empty(),
                events: Seq::empty(),
            }),
    {
        let mut balances = Table::new();
        proof {
            balances.lemma_total_empty();
        }
        balances.set_amount(deployer, initial_supply);
        let r = ERC20 {
            name,
            symbol,
            decimals,
            total_supply: initial_supply,
            balances,
            allowances: Table::new(),
            events: Vec::new(),
        };
        assert(r@.balances =~= map![deployer => initial_supply.value()]);
        assert(r@.allowances =~= Map::empty());
        r
    }

    pub fn name(&self) -> (r: String)
        ensures
            r@ == self@.name,
    {
        self.name.clone()
    }

    /// The name, as the `name` entry point returns it.
    pub fn ret_name(&self) -> (r: String)
        ensures
            r@ == self@.name,
    {
        self.name()
    }

    pub fn symbol(&self) -> (r: String)
        ensures
            r@ == self@.symbol,
    {
        self.symbol.clone()
    }

    /// The symbol, as the `symbol` entry point returns it.
    pub fn ret_symbol(&self) -> (r: String)
        ensures
            r@ == self@.symbol,
    {
        self.symbol()
    }

    pub fn decimals(&self) -> (r: u8)
        ensures
            r == self@.decimals,
    {
        self.decimals
    }

    /// The decimals, as the `decimals` entry point returns them.
    pub fn ret_decimals(&self) -> (r: u8)
        ensures
            r == self@.decimals,
    {
        self.decimals()
    }

    pub fn total_supply(&self) -> (r: U256)
        ensures
            r.value() == self@.total_supply,
    {
        self.total_supply
    }

    /// The total supply, as the `total_supply` entry point returns it.
    pub fn ret_total_supply(&self) -> (r: U256)
        ensures
            r.value() == self@.total_supply,
    {
        self.total_supply()
    }

    /// The balance of `account`; zero for an account that never held tokens.
    pub fn balance_of(&self, account: Address) -> (r: U256)
        requires
            self.wf(),
        ensures
            r.value() == self@.balance(account),
    {
        self.balances.amount(&account)
    }

    /// The balance, as the `balance_of` entry point returns it.
    pub fn ret_balance_of(&self, account: Address) -> (r: U256)
        requires
            self.wf(),
        ensures
            r.value() == self@.balance(account),
    {
        self.balance_of(account)
    }

    /// The allowance of `spender` over the tokens of `owner`; zero where none
    /// was granted.
    pub fn get_allowance(&self, owner: Address, spender: Address) -> (r: U256)
        requires
            self.wf(),
        ensures
            r.value() == self@.allowance(owner, spender),
    {
        self.allowances.amount(&AllowanceKey { owner, spender })
    }

    /// The allowance, as the `allowance` entry point returns it.
    pub fn ret_allowance(&self, owner: Address, spender: Address) -> (r: U256)
        requires
            self.wf(),
        ensures
            r.value() == self@.allowance(owner, spender),
    {
        self.get_allowance(owner, spender)
    }

    /// The events recorded so far, oldest first.
    pub fn events(&self) -> (r: &Vec<ERC20Event>)
        ensures
            r@ == self@.events,
    {
        &self.events
    }

    /// Records an event.
    pub fn emit(&mut self, event: ERC20Event)
        ensures
            final(self)@ == old(self)@.with_event(event),
            final(self).wf() == old(self).wf(),
    {
        self.events.push(event);
    }

    /// Writes a balance, keeping the supply's relation to the balances.
    fn write_balance(&mut self, account: Address, amount: U256)
        requires
            old(self).wf(),
        ensures
            final(self)@ == old(self)@.with_balance(account, amount.value()),
            final(self).balances.wf(),
            final(self).allowances.wf(),
            final(self).balances.total() + old(self)@.balance(account) == old(self).balances.total()
                + amount.value(),
            final(self).total_supply == old(self).total_supply,
    {
        self.balances.set_amount(account, amount);
        assert(self@.balances =~= old(self)@.balances.insert(account, amount.value()));
    }

    /// Writes an allowance.
    fn write_allowance(&mut self, owner: Address, spender: Address, amount: U256)
        requires
            old(self).wf(),
        ensures
            final(self)@ == old(self)@.with_allowance(owner, spender, amount.value()),
            final(self).wf(),
    {
        self.allowances.set_amount(AllowanceKey { owner, spender }, amount);
        assert(self@.allowances =~= old(self)@.allowances.insert(
            AllowanceKey { owner, spender },
            amount.value(),
        ));
    }
}

} // verus!

verus! {

impl ERC20 {
    /// Moves `amount` from `from` to `to`.
    pub fn _transfer(&mut self, from: Address, to: Address, amount: U256) -> (r: Result<(), Error>)
        requires
            old(self).wf(),
        ensures
            final(self).wf(),
            outcome(r, old(self)@, final(self)@, transfer_spec(old(self)@, from, to, amount)),
    {
        if from.is_null() || to.is_null() {
            return Err(Error::ZeroAddress);
        }
        let from_balance = self.balance_of(from);
        let debited = match from_balance.checked_sub(&amount) {
            Some(d) => d,
            None => return Err(Error::InsufficientBalance),
        };
        self.write_balance(from, debited);
        proof {
            self.balances.lemma_total_ge(to);
            self.total_supply.lemma_bounded();
        }
        let to_balance = self.balances.amount(&to);
        let credited = to_balance.add(&amount);
        self.balances.set_amount(to, credited);
        proof {
            assert(self@.balances =~= old(self)@.with_balance(
                from,
                debited.value(),
            ).balances.insert(to, credited.value()));
        }
        self.emit(ERC20Event::Transfer { from, to, value: amount });
        Ok(())
    }

    /// Creates `amount` new tokens at `to`.
    pub fn _mint(&mut self, to: Address, amount: U256) -> (r: Result<(), Error>)
        requires
            old(self).wf(),
            old(self)@.total_supply + amount.value() <= max_value_spec(),
        ensures
            final(self).wf(),
            outcome(r, old(self)@, final(self)@, mint_spec(old(self)@, to, amount)),
    {
        if to.is_null() {
            return Err(Error::ZeroAddress);
        }
        proof {
            self.lemma_balance_le_supply(to);
        }
        let to_balance = self.balance_of(to);
        let supply = self.total_supply.add(&amount);
        let credited = to_balance.add(&amount);
        self.total_supply = supply;
        self.balances.set_amount(to, credited);
        proof {
            assert(self@.balances =~= old(self)@.balances.insert(to, credited.value()));
        }
        let null = Address::null();
        self.emit(ERC20Event::Transfer { from: null, to, value: amount });
        Ok(())
    }

    /// Destroys `amount` tokens held by `account`.
    pub fn _burn(&mut self, account: Address, amount: U256) -> (r: Result<(), Error>)
        requires
            old(self).wf(),
        ensures
            final(self).wf(),
            outcome(r, old(self)@, final(self)@, burn_spec(old(self)@, account, amount)),
    {
        if account.is_null() {
            return Err(Error::ZeroAddress);
        }
        let balance = self.balance_of(account);
        let debited = match balance.checked_sub(&amount) {
            Some(d) => d,
            None => return Err(Error::InsufficientBalance),
        };
        proof {
            self.lemma_balance_le_supply(account);
        }
        let supply = self.total_supply.sub(&amount);
        self.total_supply = supply;
        self.balances.set_amount(account, debited);
        proof {
            assert(self@.balances =~= old(self)@.balances.insert(account, debited.value()));
        }
        let null = Address::null();
        self.emit(ERC20Event::Transfer { from: account, to: null, value: amount });
        Ok(())
    }

    /// Sets the allowance of `spender` over the tokens of `owner`.
    pub fn _approve(&mut self, owner: Address, spender: Address, amount: U256) -> (r: Result<(), Error>)
        requires
            old(self).wf(),
        ensures
            final(self).wf(),
            outcome(r, old(self)@, final(self)@, approve_spec(old(self)@, owner, spender, amount)),
    {
        if owner.is_null() || spender.is_null() {
            return Err(Error::ZeroAddress);
        }
        self.write_allowance(owner, spender, amount);
        self.emit(ERC20Event::Approval { owner, spender, value: amount });
        Ok(())
    }

    /// Uses `amount` of the allowance of `spender` over the tokens of `owner`.
    pub fn _spend_allowance(&mut self, owner: Address, spender: Address, amount: U256) -> (r: Result<(), Error>)
        requires
            old(self).wf(),
        ensures
            final(self).wf(),
            outcome(r, old(self)@, final(self)@, spend_allowance_spec(old(self)@, owner, spender, amount)),
    {
        let current = self.get_allowance(owner, spender);
        if current.is_max() {
            return Ok(());
        }
        match current.checked_sub(&amount) {
            Some(rest) => {
                self.write_allowance(owner, spender, rest);
                Ok(())
            },
            None => Err(Error::InsufficientAllowance),
        }
    }

    /// The caller sends `amount` of its tokens to `to`.
    pub fn transfer(&mut self, caller: Address, to: Address, amount: U256) -> (r: Result<(), Error>)
        requires
            old(self).wf(),
        ensures
            final(self).wf(),
            outcome(r, old(self)@, final(self)@, transfer_spec(old(self)@, caller, to, amount)),
    {
        self._transfer(caller, to, amount)
    }

    /// The caller, as spender, moves `amount` from `from` to `to` under the
    /// allowance that `from` granted it. Either both the spend and the move
    /// happen, or neither.
    pub fn transfer_from(&mut self, caller: Address, from: Address, to: Address, amount: U256) -> (r:
        Result<(), Error>)
        requires
            old(self).wf(),
        ensures
            final(self).wf(),
            outcome(
                r,
                old(self)@,
                final(self)@,
                transfer_from_spec(old(self)@, caller, from, to, amount),
            ),
    {
        let current = self.get_allowance(from, caller);
        if !current.is_max() && current.checked_sub(&amount).is_none() {
            return Err(Error::InsufficientAllowance);
        }
        if from.is_null() || to.is_null() {
            return Err(Error::ZeroAddress);
        }
        if self.balance_of(from).checked_sub(&amount).is_none() {
            return Err(Error::InsufficientBalance);
        }
        let spent = self._spend_allowance(from, caller, amount);
        assert(spent is Ok);
        self._transfer(from, to, amount)
    }

    /// The caller sets the allowance of `spender` over its tokens.
    pub fn approve(&mut self, caller: Address, spender: Address, amount: U256) -> (r: Result<(), Error>)
        requires
            old(self).wf(),
        ensures
            final(self).wf(),
            outcome(r, old(self)@, final(self)@, approve_spec(old(self)@, caller, spender, amount)),
    {
        self._approve(caller, spender, amount)
    }

    /// The caller raises the allowance of `spender` by `amount`; the new
    /// value is then set as by `approve`. The sum must fit in 256 bits.
    pub fn increase_allowance(&mut self, caller: Address, spender: Address, amount: U256) -> (r:
        Result<(), Error>)
        requires
            old(self).wf(),
            old(self)@.allowance(caller, spender) + amount.value() <= max_value_spec(),
        ensures
            final(self).wf(),
            exists|raised: U256|
                raised.value() == old(self)@.allowance(caller, spender) + amount.value()
                    && outcome(
                    r,
                    old(self)@,
                    final(self)@,
                    #[trigger] approve_spec(old(self)@, caller, spender, raised),
                ),
    {
        let current = self.get_allowance(caller, spender);
        let raised = current.add(&amount);
        let r = self._approve(caller, spender, raised);
        assert(outcome(r, old(self)@, self@, approve_spec(old(self)@, caller, spender, raised)));
        r
    }

    /// The caller lowers the allowance of `spender` by `amount`, which must
    /// not exceed it; the new value is then set as by `approve`.
    pub fn decrease_allowance(&mut self, caller: Address, spender: Address, amount: U256) -> (r:
        Result<(), Error>)
        requires
            old(self).wf(),
        ensures
            final(self).wf(),
            old(self)@.allowance(caller, spender) < amount.value() ==> r == Err::<(), Error>(
                Error::InsufficientAllowance,
            ) && final(self)@ == old(self)@,
            old(self)@.allowance(caller, spender) >= amount.value() ==> exists|lowered: U256|
                lowered.value() == old(self)@.allowance(caller, spender) - amount.value()
                    && outcome(
                    r,
                    old(self)@,
                    final(self)@,
                    #[trigger] approve_spec(old(self)@, caller, spender, lowered),
                ),
    {
        let current = self.get_allowance(caller, spender);
        match current.checked_sub(&amount) {
            Some(lowered) => {
                let r = self._approve(caller, spender, lowered);
                assert(outcome(r, old(self)@, self@, approve_spec(old(self)@, caller, spender, lowered)));
                r
            },
            None => Err(Error::InsufficientAllowance),
        }
    }
}

} // verus!

verus! {

impl ERC20 {
    /// The accounts that ever held a balance, each listed once.
    pub closed spec fn holders(self) -> Seq<Address> {
        keys_of(self.balances.entries())
    }

    /// Conservation of supply: in every well-formed state, and so after any
    /// sequence of transfers, mints and burns, the total supply is the sum of
    /// the balances of all accounts that ever held tokens; any other account
    /// holds nothing.
    pub proof fn lemma_conservation(self)
        requires
            self.wf(),
        ensures
            self@.total_supply == sum_of(self@.balances, self.holders()),
            self.holders().no_duplicates(),
            forall|a: Address| self@.balances.contains_key(a) <==> self.holders().contains(a),
    {
        self.balances.lemma_total_is_sum();
    }
}

/// A debit larger than the balance is refused with `InsufficientBalance`
/// where the addresses are valid (and, for a delegated transfer, the
/// allowance covers the amount), so no balance ever drops below zero.
pub proof fn lemma_overdraft_refused(
    m: ERC20Model,
    spender: Address,
    from: Address,
    to: Address,
    amount: U256,
)
    requires
        !from.is_null_spec(),
        !to.is_null_spec(),
        m.balance(from) < amount.value(),
    ensures
        transfer_spec(m, from, to, amount) == Err::<ERC20Model, Error>(Error::InsufficientBalance),
        burn_spec(m, from, amount) == Err::<ERC20Model, Error>(Error::InsufficientBalance),
        spend_allowance_spec(m, from, spender, amount) is Ok ==> transfer_from_spec(
            m,
            spender,
            from,
            to,
            amount,
        ) == Err::<ERC20Model, Error>(Error::InsufficientBalance),
        transfer_from_spec(m, spender, from, to, amount) is Err,
{
}

/// Transfers, approvals, mints and burns that name the null address as a
/// participant are refused with `ZeroAddress`.
pub proof fn lemma_null_participant_refused(m: ERC20Model, null: Address, other: Address, amount: U256)
    requires
        null.is_null_spec(),
    ensures
        transfer_spec(m, null, other, amount) == Err::<ERC20Model, Error>(Error::ZeroAddress),
        transfer_spec(m, other, null, amount) == Err::<ERC20Model, Error>(Error::ZeroAddress),
        approve_spec(m, null, other, amount) == Err::<ERC20Model, Error>(Error::ZeroAddress),
        approve_spec(m, other, null, amount) == Err::<ERC20Model, Error>(Error::ZeroAddress),
        mint_spec(m, null, amount) == Err::<ERC20Model, Error>(Error::ZeroAddress),
        burn_spec(m, null, amount) == Err::<ERC20Model, Error>(Error::ZeroAddress),
{
}

/// An unlimited allowance lets the spender move any amount up to the owner's
/// balance between valid addresses, and stays unlimited.
pub proof fn lemma_unlimited_allowance(
    m: ERC20Model,
    spender: Address,
    owner: Address,
    to: Address,
    amount: U256,
)
    requires
        m.allowance(owner, spender) == max_value_spec(),
        !owner.is_null_spec(),
        !to.is_null_spec(),
        amount.value() <= m.balance(owner),
    ensures
        transfer_from_spec(m, spender, owner, to, amount) is Ok,
        (transfer_from_spec(m, spender, owner, to, amount)->Ok_0).allowance(owner, spender)
            == max_value_spec(),
{
}

/// After `owner` approves `spender` for `a`, a delegated transfer of `b` from
/// `owner` that succeeds leaves `a - b`, where `a` is not the unlimited value.
pub proof fn lemma_allowance_decrement(
    m: ERC20Model,
    owner: Address,
    spender: Address,
    to: Address,
    a: U256,
    b: U256,
)
    requires
        a.value() != max_value_spec(),
        approve_spec(m, owner, spender, a) is Ok,
        transfer_from_spec(approve_spec(m, owner, spender, a)->Ok_0, spender, owner, to, b) is Ok,
    ensures
        b.value() <= a.value(),
        (transfer_from_spec(approve_spec(m, owner, spender, a)->Ok_0, spender, owner, to, b)->Ok_0).allowance(
            owner,
            spender,
        ) == a.value() - b.value(),
{
}

} // verus!
