//! The ledger context and transfer engine.
//!
//! A [`Ledger`] owns the token record, the balance ledger, the allowance
//! ledger and the log of events awaiting the host. The four state
//! transitions — [`Ledger::issue`], [`Ledger::transfer`],
//! [`Ledger::approve`] and [`Ledger::transfer_from`] — validate every
//! precondition before touching any store, so each call either applies all
//! of its writes or none. Well-formedness ([`Ledger::wf`]) carries the
//! conservation invariant: the recorded balances always sum to the total
//! supply.

use vstd::prelude::*;

use crate::allowances::AllowanceLedger;
use crate::balances::BalanceLedger;
use crate::errors::Error;
use crate::events::Event;
use crate::store::lemma_lookup_absent;
use crate::store::lemma_lookup_le_sum;
use crate::store::lemma_two_lookups_le_sum;
use crate::token::Erc20Token;
use crate::token::MAX_NAME_LEN;
use crate::token::MAX_TICKER_LEN;

verus! {

/// The full ledger state handed around by the host.
///
/// Outside callers reach it only through the operations and read-only
/// queries below; the stores themselves accept no independent writes.
pub struct Ledger {
    token: Option<Erc20Token>,
    balances: BalanceLedger,
    allowances: AllowanceLedger,
    events: Vec<Event>,
}

/// How a successful balance move reshapes the balance view: the sender
/// drops by `value`, the receiver rises by `value`, everyone else keeps
/// their balance — and a move onto oneself changes nothing.
pub open spec fn transfer_applied(pre: Ledger, post: Ledger, from: u64, to: u64, value: u64) -> bool {
    &&& (from != to ==> post.spec_balance_of(from) == pre.spec_balance_of(from) - value
        && post.spec_balance_of(to) == pre.spec_balance_of(to) + value)
    &&& (from == to ==> post.spec_balance_of(from) == pre.spec_balance_of(from))
    &&& forall|a: u64| a != from && a != to
        ==> post.spec_balance_of(a) == pre.spec_balance_of(a)
}

/// How a successful `approve` reshapes the allowance view: the granted
/// pair rises by the delta and every other pair keeps its value.
pub open spec fn approve_applied(pre: Ledger, post: Ledger, owner: u64, spender: u64, value: u64) -> bool {
    &&& post.spec_allowance(owner, spender) == pre.spec_allowance(owner, spender) + value
    &&& forall|o: u64, s: u64| (o, s) != (owner, spender)
        ==> post.spec_allowance(o, s) == pre.spec_allowance(o, s)
}

impl Ledger {
    /// The token record, if one has been issued.
    pub closed spec fn spec_token(self) -> Option<Erc20Token> {
        self.token
    }

    /// The balance store behind the ledger.
    pub closed spec fn spec_balances(self) -> BalanceLedger {
        self.balances
    }

    /// The allowance store behind the ledger.
    pub closed spec fn spec_allowances(self) -> AllowanceLedger {
        self.allowances
    }

    /// The events emitted so far, oldest first.
    pub closed spec fn spec_events(self) -> Seq<Event> {
        self.events@
    }

    /// Whether the token has been issued.
    pub open spec fn spec_issued(self) -> bool {
        self.spec_token() is Some
    }

    /// The issued total supply; zero before issuance.
    pub open spec fn spec_total_supply(self) -> u64 {
        match self.spec_token() {
            Option::Some(t) => t.total_supply,
            Option::None => 0,
        }
    }

    /// The balance the ledger assigns to `account`; zero when unseen.
    pub open spec fn spec_balance_of(self, account: u64) -> u64 {
        self.spec_balances().spec_balance_of(account)
    }

    /// The amount `spender` may still move out of `owner`'s balance.
    pub open spec fn spec_allowance(self, owner: u64, spender: u64) -> u64 {
        self.spec_allowances().spec_allowance(owner, spender)
    }

    /// Well-formedness: the stores keep unique keys, the token record
    /// respects its size bounds, and conservation holds — the balances
    /// sum to the total supply (zero before issuance).
    pub open spec fn wf(self) -> bool {
        &&& self.spec_balances().wf()
        &&& self.spec_allowances().wf()
        &&& (match self.spec_token() {
            Option::Some(t) => t.wf(),
            Option::None => true,
        })
        &&& self.spec_balances().spec_sum() == self.spec_total_supply()
    }

    /// A fresh ledger: no token issued, every balance and allowance zero,
    /// no events pending.
    pub fn new() -> (r: Ledger)
        ensures
            r.wf(),
            !r.spec_issued(),
            r.spec_events().len() == 0,
            forall|a: u64| r.spec_balance_of(a) == 0,
            forall|o: u64, s: u64| r.spec_allowance(o, s) == 0,
    {
        Ledger {
            token: Option::None,
            balances: BalanceLedger::new(),
            allowances: AllowanceLedger::new(),
            events: Vec::new(),
        }
    }

    /// Issue the token: store its record and grant the whole supply to
    /// the caller. Succeeds exactly when the name and ticker fit their
    /// bounds and no token exists yet; a failed call mutates nothing.
    /// Re-issuance is refused — overwriting the record would reset the
    /// issuer's balance without touching other holders and so break
    /// conservation.
    pub fn issue(&mut self, caller: u64, name: Vec<u8>, ticker: Vec<u8>, total_supply: u64) -> (r: Result<(), Error>)
        requires
            old(self).wf(),
        ensures
            final(self).wf(),
            r is Ok <==> name@.len() <= MAX_NAME_LEN && ticker@.len() <= MAX_TICKER_LEN
                && !old(self).spec_issued(),
            r == Err::<(), Error>(Error::NameTooLong) <==> name@.len() > MAX_NAME_LEN,
            r == Err::<(), Error>(Error::TickerTooLong) <==> name@.len() <= MAX_NAME_LEN
                && ticker@.len() > MAX_TICKER_LEN,
            r == Err::<(), Error>(Error::AlreadyIssued) <==> name@.len() <= MAX_NAME_LEN
                && ticker@.len() <= MAX_TICKER_LEN && old(self).spec_issued(),
            r is Err ==> *final(self) == *old(self),
            r is Ok ==> {
                &&& final(self).spec_token() == Option::Some(Erc20Token { name, ticker, total_supply })
                &&& final(self).spec_balance_of(caller) == total_supply
                &&& forall|a: u64| a != caller
                    ==> final(self).spec_balance_of(a) == old(self).spec_balance_of(a)
                &&& final(self).spec_allowances() == old(self).spec_allowances()
                &&& forall|o: u64, s: u64|
                    final(self).spec_allowance(o, s) == old(self).spec_allowance(o, s)
                &&& final(self).spec_events() == old(self).spec_events()
            },
    {
        if name.len() > MAX_NAME_LEN {
            return Err(Error::NameTooLong);
        }
        if ticker.len() > MAX_TICKER_LEN {
            return Err(Error::TickerTooLong);
        }
        if self.token.is_some() {
            return Err(Error::AlreadyIssued);
        }
        proof {
            // Before issuance the balances sum to zero, so the caller's
            // balance is zero and granting the supply re-establishes
            // conservation.
            lemma_lookup_le_sum(self.balances.entries(), caller);
        }
        self.token = Option::Some(Erc20Token { name, ticker, total_supply });
        self.balances.set(caller, total_supply);
        Ok(())
    }

    /// The balance-move shared by `transfer` and `transfer_from`: debit
    /// `from`, credit `to`, emit the `Transfer` event. All checks come
    /// before any write, so a failure leaves the ledger exactly as it was.
    fn move_balance(&mut self, from: u64, to: u64, value: u64) -> (r: Result<(), Error>)
        requires
            old(self).wf(),
        ensures
            final(self).wf(),
            final(self).spec_token() == old(self).spec_token(),
            final(self).spec_allowances() == old(self).spec_allowances(),
            forall|o: u64, s: u64|
                final(self).spec_allowance(o, s) == old(self).spec_allowance(o, s),
            r is Ok <==> value <= old(self).spec_balance_of(from)
                && (from == to || old(self).spec_balance_of(to) + value <= u64::MAX),
            r == Err::<(), Error>(Error::InsufficientBalance)
                <==> old(self).spec_balance_of(from) < value,
            r == Err::<(), Error>(Error::Overflow) <==> value <= old(self).spec_balance_of(from)
                && from != to && old(self).spec_balance_of(to) + value > u64::MAX,
            r is Err ==> *final(self) == *old(self),
            r is Ok ==> transfer_applied(*old(self), *final(self), from, to, value),
            r is Ok ==> final(self).spec_events()
                == old(self).spec_events().push(Event::Transfer { from, to, value }),
    {
        let sender_balance = self.balances.balance_of(from);
        if sender_balance < value {
            return Err(Error::InsufficientBalance);
        }
        if from == to {
            // The debit and the credit cancel; the balance stays as it
            // is, and only the entry's existence is recorded.
            self.balances.set(from, sender_balance);
            self.events.push(Event::Transfer { from, to, value });
            return Ok(());
        }
        let receiver_balance = self.balances.balance_of(to);
        let updated_to = match receiver_balance.checked_add(value) {
            Option::Some(v) => v,
            Option::None => {
                return Err(Error::Overflow);
            },
        };
        self.balances.set(from, sender_balance - value);
        self.balances.set(to, updated_to);
        self.events.push(Event::Transfer { from, to, value });
        Ok(())
    }

    /// Move `value` tokens from the caller to `to`. Succeeds exactly when
    /// the caller holds at least `value` and the credit to `to` fits the
    /// integer width; a failed call mutates nothing.
    pub fn transfer(&mut self, caller: u64, to: u64, value: u64) -> (r: Result<(), Error>)
        requires
            old(self).wf(),
        ensures
            final(self).wf(),
            final(self).spec_token() == old(self).spec_token(),
            final(self).spec_allowances() == old(self).spec_allowances(),
            forall|o: u64, s: u64|
                final(self).spec_allowance(o, s) == old(self).spec_allowance(o, s),
            r is Ok <==> value <= old(self).spec_balance_of(caller)
                && (caller == to || old(self).spec_balance_of(to) + value <= u64::MAX),
            r == Err::<(), Error>(Error::InsufficientBalance)
                <==> old(self).spec_balance_of(caller) < value,
            r == Err::<(), Error>(Error::Overflow) <==> value <= old(self).spec_balance_of(caller)
                && caller != to && old(self).spec_balance_of(to) + value > u64::MAX,
            r is Err ==> *final(self) == *old(self),
            r is Ok ==> transfer_applied(*old(self), *final(self), caller, to, value),
            r is Ok ==> final(self).spec_events()
                == old(self).spec_events().push(Event::Transfer { from: caller, to, value }),
    {
        self.move_balance(caller, to, value)
    }

    /// Raise the allowance of `(owner, spender)` by `value` — an additive
    /// grant, not an overwrite — and emit `Approval` carrying the delta.
    /// Fails only when the raised allowance would not fit the integer
    /// width; a failed call mutates nothing.
    pub fn approve(&mut self, owner: u64, spender: u64, value: u64) -> (r: Result<(), Error>)
        requires
            old(self).wf(),
        ensures
            final(self).wf(),
            final(self).spec_token() == old(self).spec_token(),
            final(self).spec_balances() == old(self).spec_balances(),
            forall|a: u64| final(self).spec_balance_of(a) == old(self).spec_balance_of(a),
            r is Ok <==> old(self).spec_allowance(owner, spender) + value <= u64::MAX,
            r == Err::<(), Error>(Error::Overflow)
                <==> old(self).spec_allowance(owner, spender) + value > u64::MAX,
            r is Err ==> *final(self) == *old(self),
            r is Ok ==> approve_applied(*old(self), *final(self), owner, spender, value),
            r is Ok ==> final(self).spec_events()
                == old(self).spec_events().push(Event::Approval { owner, spender, value }),
    {
        let current = self.allowances.allowance(owner, spender);
        let updated = match current.checked_add(value) {
            Option::Some(v) => v,
            Option::None => {
                return Err(Error::Overflow);
            },
        };
        self.allowances.set(owner, spender, updated);
        self.events.push(Event::Approval { owner, spender, value });
        Ok(())
    }

    /// Spend `value` of the allowance `(from, spender)` to move `value`
    /// tokens from `from` to `to`. The allowance consumption and the
    /// balance move apply together or not at all; the `Approval` event
    /// carries the consumed delta, followed by the `Transfer` event.
    pub fn transfer_from(&mut self, spender: u64, from: u64, to: u64, value: u64) -> (r: Result<(), Error>)
        requires
            old(self).wf(),
        ensures
            final(self).wf(),
            final(self).spec_token() == old(self).spec_token(),
            r is Ok <==> value <= old(self).spec_allowance(from, spender)
                && value <= old(self).spec_balance_of(from)
                && (from == to || old(self).spec_balance_of(to) + value <= u64::MAX),
            r == Err::<(), Error>(Error::InsufficientAllowance)
                <==> old(self).spec_allowance(from, spender) < value,
            r == Err::<(), Error>(Error::InsufficientBalance)
                <==> value <= old(self).spec_allowance(from, spender)
                && old(self).spec_balance_of(from) < value,
            r == Err::<(), Error>(Error::Overflow) <==> value <= old(self).spec_allowance(from, spender)
                && value <= old(self).spec_balance_of(from)
                && from != to && old(self).spec_balance_of(to) + value > u64::MAX,
            r is Err ==> *final(self) == *old(self),
            r is Ok ==> final(self).spec_allowance(from, spender)
                == old(self).spec_allowance(from, spender) - value,
            r is Ok ==> forall|o: u64, s: u64| (o, s) != (from, spender)
                ==> final(self).spec_allowance(o, s) == old(self).spec_allowance(o, s),
            r is Ok ==> transfer_applied(*old(self), *final(self), from, to, value),
            r is Ok ==> final(self).spec_events() == old(self).spec_events()
                .push(Event::Approval { owner: from, spender, value })
                .push(Event::Transfer { from, to, value }),
    {
        let current_allowance = self.allowances.allowance(from, spender);
        if current_allowance < value {
            return Err(Error::InsufficientAllowance);
        }
        let sender_balance = self.balances.balance_of(from);
        if sender_balance < value {
            return Err(Error::InsufficientBalance);
        }
        if from != to {
            let receiver_balance = self.balances.balance_of(to);
            if receiver_balance.checked_add(value).is_none() {
                return Err(Error::Overflow);
            }
        }
        // Every check has passed: the allowance consumption and the
        // balance move now apply as one transaction.
        self.allowances.set(from, spender, current_allowance - value);
        self.events.push(Event::Approval { owner: from, spender, value });
        self.move_balance(from, to, value)
    }

    /// The token's metadata and supply: the issued record, or the empty
    /// record (empty name and ticker, zero supply) before issuance.
    pub fn token_details(&self) -> (r: Erc20Token)
        ensures
            match self.spec_token() {
                Option::Some(t) => r.name@ == t.name@ && r.ticker@ == t.ticker@
                    && r.total_supply == t.total_supply,
                Option::None => r.name@.len() == 0 && r.ticker@.len() == 0 && r.total_supply == 0,
            },
    {
        match &self.token {
            Option::Some(t) => Erc20Token {
                name: copy_bytes(&t.name),
                ticker: copy_bytes(&t.ticker),
                total_supply: t.total_supply,
            },
            Option::None => Erc20Token { name: Vec::new(), ticker: Vec::new(), total_supply: 0 },
        }
    }

    /// The balance held by `account`: zero for an unseen account. A pure
    /// read; it never fails.
    pub fn balance_of(&self, account: u64) -> (r: u64)
        ensures
            r == self.spec_balance_of(account),
    {
        self.balances.balance_of(account)
    }

    /// The allowance granted by `owner` to `spender`: zero for an unseen
    /// pair. A pure read; it never fails.
    pub fn allowance(&self, owner: u64, spender: u64) -> (r: u64)
        ensures
            r == self.spec_allowance(owner, spender),
    {
        self.allowances.allowance(owner, spender)
    }

    /// The events emitted so far, oldest first, for the host to record.
    pub fn events(&self) -> (r: &Vec<Event>)
        ensures
            r@ == self.spec_events(),
    {
        &self.events
    }

    /// Conservation: in every well-formed ledger state the recorded
    /// balances sum to the total supply.
    pub proof fn lemma_conservation(self)
        requires
            self.wf(),
        ensures
            self.spec_balances().spec_sum() == self.spec_total_supply(),
    {
    }

    /// No account ever holds more than the total supply; in particular no
    /// reachable balance exceeds the integer width the supply fits in.
    pub proof fn lemma_balance_le_supply(self, account: u64)
        requires
            self.wf(),
        ensures
            self.spec_balance_of(account) <= self.spec_total_supply(),
    {
        lemma_lookup_le_sum(self.spec_balances().entries(), account);
    }

    /// Conservation makes credits safe: when the sender covers the
    /// amount, crediting a different receiver always fits the integer
    /// width — a transfer out of a well-formed ledger never overflows.
    pub proof fn lemma_no_credit_overflow(self, from: u64, to: u64, value: u64)
        requires
            self.wf(),
            from != to,
            value <= self.spec_balance_of(from),
        ensures
            self.spec_balance_of(to) + value <= u64::MAX,
    {
        lemma_two_lookups_le_sum(self.spec_balances().entries(), from, to);
    }

    /// Reads are default-zero: an account the ledger never recorded
    /// holds zero.
    pub proof fn lemma_unseen_balance_zero(self, account: u64)
        requires
            !self.spec_balances().has_account(account),
        ensures
            self.spec_balance_of(account) == 0,
    {
        lemma_lookup_absent(self.spec_balances().entries(), account);
    }

    /// Reads are default-zero: a pair the ledger never recorded is
    /// allowed zero.
    pub proof fn lemma_unseen_allowance_zero(self, owner: u64, spender: u64)
        requires
            !self.spec_allowances().has_pair(owner, spender),
        ensures
            self.spec_allowance(owner, spender) == 0,
    {
        lemma_lookup_absent(self.spec_allowances().entries(), (owner, spender));
    }
}

/// Additive approve: two successful approvals of `x` and then `y` to the
/// same pair leave it allowed `x + y` more than before, and every other
/// pair untouched.
pub proof fn lemma_approve_additive(l0: Ledger, l1: Ledger, l2: Ledger, owner: u64, spender: u64, x: u64, y: u64)
    requires
        approve_applied(l0, l1, owner, spender, x),
        approve_applied(l1, l2, owner, spender, y),
    ensures
        l2.spec_allowance(owner, spender) == l0.spec_allowance(owner, spender) + x + y,
        forall|o: u64, s: u64| (o, s) != (owner, spender)
            ==> l2.spec_allowance(o, s) == l0.spec_allowance(o, s),
{
}

/// Copy a byte vector element by element.
fn copy_bytes(src: &Vec<u8>) -> (r: Vec<u8>)
    ensures
        r@ == src@,
{
    let mut r: Vec<u8> = Vec::new();
    let mut i: usize = 0;
    while i < src.len()
        invariant
            i <= src@.len(),
            r@ == src@.subrange(0, i as int),
        decreases src@.len() - i,
    {
        r.push(src[i]);
        proof {
            assert(src@.subrange(0, i as int).push(src@[i as int])
                =~= src@.subrange(0, i + 1 as int));
        }
        i += 1;
    }
    proof {
        assert(src@.subrange(0, src@.len() as int) =~= src@);
    }
    r
}

} // verus!
