//! The token ledger: balances, allowances, minting by the administrator and
//! burning by holders, by the burn engine or by the administrator.

use crate::primitives::Address;
use crate::table::{read, Table};
use crate::u256::{wrapped_difference, U256};
use vstd::prelude::*;

verus! {

/// Why a token operation was refused.
#[derive(Clone, Copy, Debug, PartialEq, Eq, Structural)]
pub enum TokenError {
    /// The holder has less than the amount.
    InsufficientBalance,
    /// The spender is allowed less than the amount.
    InsufficientAllowance,
    /// The caller lacks the role the operation asks for.
    Unauthorized,
    /// A null identity where none is allowed.
    InvalidAddress,
}

/// An audit record of the token ledger.
#[derive(Clone, Copy, Debug, PartialEq, Eq)]
pub enum TokenEvent {
    Transfer { from: Address, to: Address, value: U256 },
    Approval { owner: Address, spender: Address, value: U256 },
    Burn { from: Address, value: U256 },
    Mint { to: Address, value: U256 },
}

/// The token ledger as a mathematical value.
pub struct TokenView {
    pub name: Seq<char>,
    pub symbol: Seq<char>,
    pub decimals: u8,
    pub total_supply: U256,
    pub balances: Map<Address, U256>,
    /// (owner, spender) to what the spender may still move.
    pub allowances: Map<(Address, Address), U256>,
    /// The administrator.
    pub owner: Address,
    /// The burn engine, which may burn on a holder's behalf.
    pub burn_contract: Address,
    pub total_burned: U256,
    /// The audit log, oldest first.
    pub events: Seq<TokenEvent>,
}

/// The answer of an operation that reports success as `true`.
pub open spec fn reported(r: Result<(), TokenError>) -> Result<bool, TokenError> {
    match r {
        Ok(()) => Ok(true),
        Err(e) => Err(e),
    }
}

impl TokenView {
    /// What an account reads as holding.
    pub open spec fn balance_at(self, holder: Address) -> U256 {
        read(self.balances, holder, U256::zero())
    }

    /// What `spender` may still move out of `holder`'s account.
    pub open spec fn allowance_at(self, holder: Address, spender: Address) -> U256 {
        read(self.allowances, (holder, spender), U256::zero())
    }

    /// The ledger after `init`: named, with 18 decimals, administered by
    /// `caller`, who holds the whole initial supply; nothing burned; the
    /// minting and the transfer from nobody logged.
    pub open spec fn after_init(self, initial_supply: U256, caller: Address) -> TokenView {
        TokenView {
            name: "Sports Performance Protocol Token"@,
            symbol: "SPP"@,
            decimals: 18,
            owner: caller,
            total_supply: initial_supply,
            balances: self.balances.insert(caller, initial_supply),
            total_burned: U256::zero(),
            events: self.events.push(TokenEvent::Mint { to: caller, value: initial_supply }).push(
                TokenEvent::Transfer { from: Address::zero(), to: caller, value: initial_supply },
            ),
            ..self
        }
    }

    /// Whether `caller` is the administrator.
    pub open spec fn admin_result(self, caller: Address) -> Result<(), TokenError> {
        if caller != self.owner {
            Err(TokenError::Unauthorized)
        } else {
            Ok(())
        }
    }

    /// The ledger after `set_burn_contract`.
    pub open spec fn after_set_burn_contract(
        self,
        burn_contract: Address,
        caller: Address,
    ) -> TokenView {
        if self.admin_result(caller) is Err {
            self
        } else {
            TokenView { burn_contract, ..self }
        }
    }

    /// Whether `amount` can move from `from` to `to`: neither is null, and
    /// `from` holds enough.
    pub open spec fn move_result(self, from: Address, to: Address, amount: U256) -> Result<
        (),
        TokenError,
    > {
        if from == Address::zero() || to == Address::zero() {
            Err(TokenError::InvalidAddress)
        } else if self.balance_at(from)@ < amount@ {
            Err(TokenError::InsufficientBalance)
        } else {
            Ok(())
        }
    }

    /// The ledger after `amount` moved from `from` to `to`: `from` holds
    /// that much less, then `to` that much more (modulo 2^256), and the
    /// transfer is logged.
    pub open spec fn after_move(self, from: Address, to: Address, amount: U256) -> TokenView {
        if self.move_result(from, to, amount) is Err {
            self
        } else {
            let reduced = self.balances.insert(
                from,
                U256::from_nat(wrapped_difference(self.balance_at(from)@, amount@)),
            );
            TokenView {
                balances: reduced.insert(
                    to,
                    U256::from_nat(read(reduced, to, U256::zero())@ + amount@),
                ),
                events: self.events.push(TokenEvent::Transfer { from, to, value: amount }),
                ..self
            }
        }
    }

    /// What `approve` answers: the null identity cannot be a spender.
    pub open spec fn approve_result(self, spender: Address) -> Result<(), TokenError> {
        if spender == Address::zero() {
            Err(TokenError::InvalidAddress)
        } else {
            Ok(())
        }
    }

    /// The ledger after `approve`.
    pub open spec fn after_approve(self, spender: Address, amount: U256, caller: Address) -> TokenView {
        if self.approve_result(spender) is Err {
            self
        } else {
            TokenView {
                allowances: self.allowances.insert((caller, spender), amount),
                events: self.events.push(
                    TokenEvent::Approval { owner: caller, spender, value: amount },
                ),
                ..self
            }
        }
    }

    /// What `transfer_from` answers: the allowance is checked before the
    /// addresses and the balance.
    pub open spec fn transfer_from_result(
        self,
        from: Address,
        to: Address,
        amount: U256,
        caller: Address,
    ) -> Result<(), TokenError> {
        if self.allowance_at(from, caller)@ < amount@ {
            Err(TokenError::InsufficientAllowance)
        } else {
            self.move_result(from, to, amount)
        }
    }

    /// The ledger after `transfer_from`: unchanged if refused; else the
    /// caller's allowance is reduced and the amount moved.
    pub open spec fn after_transfer_from(
        self,
        from: Address,
        to: Address,
        amount: U256,
        caller: Address,
    ) -> TokenView {
        if self.transfer_from_result(from, to, amount, caller) is Err {
            self
        } else {
            TokenView {
                allowances: self.allowances.insert(
                    (from, caller),
                    U256::from_nat(wrapped_difference(self.allowance_at(from, caller)@, amount@)),
                ),
                ..self.after_move(from, to, amount)
            }
        }
    }

    /// Whether `amount` can be burned from `from`: it is not null and holds
    /// enough.
    pub open spec fn burn_result(self, from: Address, amount: U256) -> Result<(), TokenError> {
        if from == Address::zero() {
            Err(TokenError::InvalidAddress)
        } else if self.balance_at(from)@ < amount@ {
            Err(TokenError::InsufficientBalance)
        } else {
            Ok(())
        }
    }

    /// The ledger after a burn: the holder and the supply lose the amount,
    /// the burned total gains it (each modulo 2^256), and the burn and the
    /// transfer to nobody are logged.
    pub open spec fn after_burn(self, from: Address, amount: U256) -> TokenView {
        if self.burn_result(from, amount) is Err {
            self
        } else {
            TokenView {
                balances: self.balances.insert(
                    from,
                    U256::from_nat(wrapped_difference(self.balance_at(from)@, amount@)),
                ),
                total_supply: U256::from_nat(wrapped_difference(self.total_supply@, amount@)),
                total_burned: U256::from_nat(self.total_burned@ + amount@),
                events: self.events.push(TokenEvent::Burn { from, value: amount }).push(
                    TokenEvent::Transfer { from, to: Address::zero(), value: amount },
                ),
                ..self
            }
        }
    }

    /// What `burn_from` answers: the caller must be the burn engine or the
    /// administrator, then the burn must be possible.
    pub open spec fn burn_from_result(self, from: Address, amount: U256, caller: Address) -> Result<
        (),
        TokenError,
    > {
        if caller != self.burn_contract && caller != self.owner {
            Err(TokenError::Unauthorized)
        } else {
            self.burn_result(from, amount)
        }
    }

    /// The ledger after `burn_from`.
    pub open spec fn after_burn_from(self, from: Address, amount: U256, caller: Address) -> TokenView {
        if self.burn_from_result(from, amount, caller) is Err {
            self
        } else {
            self.after_burn(from, amount)
        }
    }

    /// What `mint` answers: administrator only, and not to the null
    /// identity.
    pub open spec fn mint_result(self, to: Address, caller: Address) -> Result<(), TokenError> {
        if caller != self.owner {
            Err(TokenError::Unauthorized)
        } else if to == Address::zero() {
            Err(TokenError::InvalidAddress)
        } else {
            Ok(())
        }
    }

    /// The ledger after `mint`: the supply and the recipient gain the
    /// amount (modulo 2^256), and the minting and the transfer from nobody
    /// are logged.
    pub open spec fn after_mint(self, to: Address, amount: U256, caller: Address) -> TokenView {
        if self.mint_result(to, caller) is Err {
            self
        } else {
            TokenView {
                total_supply: U256::from_nat(self.total_supply@ + amount@),
                balances: self.balances.insert(
                    to,
                    U256::from_nat(self.balance_at(to)@ + amount@),
                ),
                events: self.events.push(TokenEvent::Mint { to, value: amount }).push(
                    TokenEvent::Transfer { from: Address::zero(), to, value: amount },
                ),
                ..self
            }
        }
    }
}

/// A refused call changes nothing.
pub proof fn lemma_refused_token_calls_change_nothing(
    s: TokenView,
    from: Address,
    to: Address,
    spender: Address,
    amount: U256,
    burn_contract: Address,
    caller: Address,
)
    ensures
        s.admin_result(caller) is Err ==> s.after_set_burn_contract(burn_contract, caller) == s,
        s.move_result(from, to, amount) is Err ==> s.after_move(from, to, amount) == s,
        s.approve_result(spender) is Err ==> s.after_approve(spender, amount, caller) == s,
        s.transfer_from_result(from, to, amount, caller) is Err ==> s.after_transfer_from(
            from,
            to,
            amount,
            caller,
        ) == s,
        s.burn_result(from, amount) is Err ==> s.after_burn(from, amount) == s,
        s.burn_from_result(from, amount, caller) is Err ==> s.after_burn_from(
            from,
            amount,
            caller,
        ) == s,
        s.mint_result(to, caller) is Err ==> s.after_mint(to, amount, caller) == s,
{
}

/// The audit log only grows: what was logged before a call is the
/// beginning of what is logged after it.
pub proof fn lemma_token_log_is_append_only(
    s: TokenView,
    from: Address,
    to: Address,
    spender: Address,
    amount: U256,
    burn_contract: Address,
    caller: Address,
)
    ensures
        s.events.is_prefix_of(s.after_set_burn_contract(burn_contract, caller).events),
        s.events.is_prefix_of(s.after_move(from, to, amount).events),
        s.events.is_prefix_of(s.after_approve(spender, amount, caller).events),
        s.events.is_prefix_of(s.after_transfer_from(from, to, amount, caller).events),
        s.events.is_prefix_of(s.after_burn(from, amount).events),
        s.events.is_prefix_of(s.after_burn_from(from, amount, caller).events),
        s.events.is_prefix_of(s.after_mint(to, amount, caller).events),
{
    assert(s.events.is_prefix_of(s.after_move(from, to, amount).events));
    assert(s.events.is_prefix_of(s.after_transfer_from(from, to, amount, caller).events));
    assert(s.events.is_prefix_of(s.after_burn(from, amount).events));
    assert(s.events.is_prefix_of(s.after_mint(to, amount, caller).events));
}

/// The token ledger.
pub struct SPPToken {
    name: String,
    symbol: String,
    decimals: u8,
    total_supply: U256,
    balances: Table<Address, U256>,
    allowances: Table<(Address, Address), U256>,
    owner: Address,
    burn_contract: Address,
    total_burned: U256,
    events: Vec<TokenEvent>,
}

impl View for SPPToken {
    type V = TokenView;

    closed spec fn view(&self) -> TokenView {
        TokenView {
            name: self.name@,
            symbol: self.symbol@,
            decimals: self.decimals,
            total_supply: self.total_supply,
            balances: self.balances@,
            allowances: self.allowances@,
            owner: self.owner,
            burn_contract: self.burn_contract,
            total_burned: self.total_burned,
            events: self.events@,
        }
    }
}

impl SPPToken {
    /// The ledger before initialisation: everything zero or empty.
    pub fn new() -> (t: SPPToken)
        ensures
            t@.name == Seq::<char>::empty(),
            t@.symbol == Seq::<char>::empty(),
            t@.decimals == 0,
            t@.total_supply == U256::zero(),
            t@.balances == Map::<Address, U256>::empty(),
            t@.allowances == Map::<(Address, Address), U256>::empty(),
            t@.owner == Address::zero(),
            t@.burn_contract == Address::zero(),
            t@.total_burned == U256::zero(),
            t@.events == Seq::<TokenEvent>::empty(),
    {
        SPPToken {
            name: String::new(),
            symbol: String::new(),
            decimals: 0,
            total_supply: U256::zero(),
            balances: Table::new(),
            allowances: Table::new(),
            owner: Address::zero(),
            burn_contract: Address::zero(),
            total_burned: U256::zero(),
            events: Vec::new(),
        }
    }

    /// The ledger that holds the given values and tables, with an empty
    /// log.
    pub fn restore(
        name: String,
        symbol: String,
        decimals: u8,
        total_supply: U256,
        total_burned: U256,
        owner: Address,
        burn_contract: Address,
        balances: Table<Address, U256>,
        allowances: Table<(Address, Address), U256>,
    ) -> (t: SPPToken)
        ensures
            t@ == (TokenView {
                name: name@,
                symbol: symbol@,
                decimals,
                total_supply,
                balances: balances@,
                allowances: allowances@,
                owner,
                burn_contract,
                total_burned,
                events: Seq::<TokenEvent>::empty(),
            }),
    {
        SPPToken {
            name,
            symbol,
            decimals,
            total_supply,
            balances,
            allowances,
            owner,
            burn_contract,
            total_burned,
            events: Vec::new(),
        }
    }

    /// Names the token, makes `caller` the administrator and gives the
    /// caller the initial supply.
    pub fn init(&mut self, initial_supply: U256, caller: Address) -> (r: Result<(), TokenError>)
        ensures
            r is Ok,
            final(self)@ == old(self)@.after_init(initial_supply, caller),
    {
        self.name = "Sports Performance Protocol Token".to_string();
        self.symbol = "SPP".to_string();
        self.decimals = 18;
        self.owner = caller;
        self.total_supply = initial_supply;
        self.balances.set(caller, initial_supply);
        self.total_burned = U256::zero();
        self.events.push(TokenEvent::Mint { to: caller, value: initial_supply });
        self.events.push(
            TokenEvent::Transfer { from: Address::zero(), to: caller, value: initial_supply },
        );
        Ok(())
    }

    /// Names the burn engine; administrator only.
    pub fn set_burn_contract(&mut self, burn_contract: Address, caller: Address) -> (r: Result<
        (),
        TokenError,
    >)
        ensures
            r == old(self)@.admin_result(caller),
            final(self)@ == old(self)@.after_set_burn_contract(burn_contract, caller),
    {
        if !caller.same(&self.owner) {
            return Err(TokenError::Unauthorized);
        }
        self.burn_contract = burn_contract;
        Ok(())
    }

    /// The token's name.
    pub fn name(&self) -> (r: Result<String, TokenError>)
        ensures
            r matches Ok(s) && s@ == self@.name,
    {
        Ok(self.name.clone())
    }

    /// The token's symbol.
    pub fn symbol(&self) -> (r: Result<String, TokenError>)
        ensures
            r matches Ok(s) && s@ == self@.symbol,
    {
        Ok(self.symbol.clone())
    }

    /// Number of decimals.
    pub fn decimals(&self) -> (r: Result<u8, TokenError>)
        ensures
            r == Ok::<u8, TokenError>(self@.decimals),
    {
        Ok(self.decimals)
    }

    /// Tokens in existence.
    pub fn total_supply(&self) -> (r: Result<U256, TokenError>)
        ensures
            r == Ok::<U256, TokenError>(self@.total_supply),
    {
        Ok(self.total_supply)
    }

    /// What an account holds.
    pub fn balance_of(&self, account: Address) -> (r: Result<U256, TokenError>)
        ensures
            r == Ok::<U256, TokenError>(self@.balance_at(account)),
    {
        Ok(self.balances.get_or(&account, U256::zero()))
    }

    /// What `spender` may still move out of `owner`'s account.
    pub fn allowance(&self, owner: Address, spender: Address) -> (r: Result<U256, TokenError>)
        ensures
            r == Ok::<U256, TokenError>(self@.allowance_at(owner, spender)),
    {
        Ok(self.allowances.get_or(&(owner, spender), U256::zero()))
    }

    /// Moves `amount` from the caller to `to`.
    pub fn transfer(&mut self, to: Address, amount: U256, caller: Address) -> (r: Result<
        bool,
        TokenError,
    >)
        ensures
            r == reported(old(self)@.move_result(caller, to, amount)),
            final(self)@ == old(self)@.after_move(caller, to, amount),
    {
        match self.move_tokens(caller, to, amount) {
            Err(e) => Err(e),
            Ok(()) => Ok(true),
        }
    }

    /// Lets `spender` move up to `amount` out of the caller's account.
    pub fn approve(&mut self, spender: Address, amount: U256, caller: Address) -> (r: Result<
        bool,
        TokenError,
    >)
        ensures
            r == reported(old(self)@.approve_result(spender)),
            final(self)@ == old(self)@.after_approve(spender, amount, caller),
    {
        if spender.is_zero() {
            return Err(TokenError::InvalidAddress);
        }
        self.allowances.set((caller, spender), amount);
        self.events.push(TokenEvent::Approval { owner: caller, spender, value: amount });
        Ok(true)
    }

    /// Moves `amount` from `from` to `to` out of the caller's allowance.
    pub fn transfer_from(&mut self, from: Address, to: Address, amount: U256, caller: Address) -> (r:
        Result<bool, TokenError>)
        ensures
            r == reported(old(self)@.transfer_from_result(from, to, amount, caller)),
            final(self)@ == old(self)@.after_transfer_from(from, to, amount, caller),
    {
        let current_allowance = self.allowances.get_or(&(from, caller), U256::zero());
        if current_allowance.lt(&amount) {
            return Err(TokenError::InsufficientAllowance);
        }
        match self.move_tokens(from, to, amount) {
            Err(e) => Err(e),
            Ok(()) => {
                self.allowances.set((from, caller), current_allowance.wrapping_sub(&amount));
                Ok(true)
            },
        }
    }

    /// Burns `amount` from the caller's account.
    pub fn burn(&mut self, amount: U256, caller: Address) -> (r: Result<(), TokenError>)
        ensures
            r == old(self)@.burn_result(caller, amount),
            final(self)@ == old(self)@.after_burn(caller, amount),
    {
        self.burn_tokens(caller, amount)
    }

    /// Burns `amount` from `from`'s account; burn engine or administrator
    /// only.
    pub fn burn_from(&mut self, from: Address, amount: U256, caller: Address) -> (r: Result<
        (),
        TokenError,
    >)
        ensures
            r == old(self)@.burn_from_result(from, amount, caller),
            final(self)@ == old(self)@.after_burn_from(from, amount, caller),
    {
        if !caller.same(&self.burn_contract) && !caller.same(&self.owner) {
            return Err(TokenError::Unauthorized);
        }
        self.burn_tokens(from, amount)
    }

    /// Creates `amount` new tokens in `to`'s account; administrator only.
    pub fn mint(&mut self, to: Address, amount: U256, caller: Address) -> (r: Result<
        (),
        TokenError,
    >)
        ensures
            r == old(self)@.mint_result(to, caller),
            final(self)@ == old(self)@.after_mint(to, amount, caller),
    {
        if !caller.same(&self.owner) {
            return Err(TokenError::Unauthorized);
        }
        if to.is_zero() {
            return Err(TokenError::InvalidAddress);
        }
        self.total_supply = self.total_supply.wrapping_add(&amount);
        let recipient_balance = self.balances.get_or(&to, U256::zero());
        self.balances.set(to, recipient_balance.wrapping_add(&amount));
        self.events.push(TokenEvent::Mint { to, value: amount });
        self.events.push(TokenEvent::Transfer { from: Address::zero(), to, value: amount });
        Ok(())
    }

    /// Tokens burned so far.
    pub fn get_total_burned(&self) -> (r: Result<U256, TokenError>)
        ensures
            r == Ok::<U256, TokenError>(self@.total_burned),
    {
        Ok(self.total_burned)
    }

    /// The supply less the burned total, modulo 2^256.
    pub fn circulating_supply(&self) -> (r: Result<U256, TokenError>)
        ensures
            r == Ok::<U256, TokenError>(
                U256::from_nat(wrapped_difference(self@.total_supply@, self@.total_burned@)),
            ),
    {
        Ok(self.total_supply.wrapping_sub(&self.total_burned))
    }

    /// The administrator.
    pub fn owner(&self) -> (a: Address)
        ensures
            a == self@.owner,
    {
        self.owner
    }

    /// The burn engine.
    pub fn burn_contract(&self) -> (a: Address)
        ensures
            a == self@.burn_contract,
    {
        self.burn_contract
    }

    /// The audit log, oldest record first.
    pub fn events(&self) -> (log: &Vec<TokenEvent>)
        ensures
            log@ == self@.events,
    {
        &self.events
    }

    /// Moves `amount` from `from` to `to` without asking who calls.
    fn move_tokens(&mut self, from: Address, to: Address, amount: U256) -> (r: Result<
        (),
        TokenError,
    >)
        ensures
            r == old(self)@.move_result(from, to, amount),
            final(self)@ == old(self)@.after_move(from, to, amount),
    {
        if from.is_zero() || to.is_zero() {
            return Err(TokenError::InvalidAddress);
        }
        let from_balance = self.balances.get_or(&from, U256::zero());
        if from_balance.lt(&amount) {
            return Err(TokenError::InsufficientBalance);
        }
        self.balances.set(from, from_balance.wrapping_sub(&amount));
        let to_balance = self.balances.get_or(&to, U256::zero());
        self.balances.set(to, to_balance.wrapping_add(&amount));
        self.events.push(TokenEvent::Transfer { from, to, value: amount });
        Ok(())
    }

    /// Burns `amount` from `from` without asking who calls.
    fn burn_tokens(&mut self, from: Address, amount: U256) -> (r: Result<(), TokenError>)
        ensures
            r == old(self)@.burn_result(from, amount),
            final(self)@ == old(self)@.after_burn(from, amount),
    {
        if from.is_zero() {
            return Err(TokenError::InvalidAddress);
        }
        let from_balance = self.balances.get_or(&from, U256::zero());
        if from_balance.lt(&amount) {
            return Err(TokenError::InsufficientBalance);
        }
        self.balances.set(from, from_balance.wrapping_sub(&amount));
        self.total_supply = self.total_supply.wrapping_sub(&amount);
        self.total_burned = self.total_burned.wrapping_add(&amount);
        self.events.push(TokenEvent::Burn { from, value: amount });
        self.events.push(TokenEvent::Transfer { from, to: Address::zero(), value: amount });
        Ok(())
    }
}

} // verus!
