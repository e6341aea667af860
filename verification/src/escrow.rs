//! The escrow ledger: USDC held per invoice between funding and settlement.
//!
//! `lock` takes funds from the pool; the funds leave again exactly once, to
//! the issuer, back to the pool on repayment, or back to the pool on default.
//! Every movement is appended to the invoice's history. Authorization and the
//! token transfers themselves are the host layer's: each operation returns the
//! transfer to perform.

use vstd::prelude::*;
use crate::ids::{Addr, InvoiceId};
use crate::table::Table;

verus! {

/// Minimum time, in seconds, that funds stay locked before a default can
/// return them to the pool.
pub const DEFAULT_MIN_LOCK_SECONDS: u64 = 60;

/// Errors of the escrow contract; `code` gives the contract error number.
#[derive(Clone, Copy, Debug, PartialEq, Eq, Structural)]
pub enum EscrowError {
    AlreadyInitialized,
    NotFound,
    NotAuthorized,
    AlreadyLocked,
    InvalidAmount,
    NotInitialized,
    InvalidRecipient,
    InvalidConfig,
}

impl EscrowError {
    pub open spec fn code_of(self) -> u32 {
        match self {
            EscrowError::AlreadyInitialized => 1,
            EscrowError::NotFound => 2,
            EscrowError::NotAuthorized => 3,
            EscrowError::AlreadyLocked => 4,
            EscrowError::InvalidAmount => 5,
            EscrowError::NotInitialized => 6,
            EscrowError::InvalidRecipient => 7,
            EscrowError::InvalidConfig => 8,
        }
    }

    /// The contract error number.
    pub fn code(&self) -> (c: u32)
        ensures
            c == self.code_of(),
    {
        match self {
            EscrowError::AlreadyInitialized => 1,
            EscrowError::NotFound => 2,
            EscrowError::NotAuthorized => 3,
            EscrowError::AlreadyLocked => 4,
            EscrowError::InvalidAmount => 5,
            EscrowError::NotInitialized => 6,
            EscrowError::InvalidRecipient => 7,
            EscrowError::InvalidConfig => 8,
        }
    }
}

/// Funds locked for one invoice.
#[derive(Clone, Copy, Debug, PartialEq, Eq)]
pub struct EscrowRecord {
    pub invoice_id: InvoiceId,
    pub amount: u128,
    pub locked_at: u64,
}

/// The kinds of movement recorded in an invoice's escrow history.
#[derive(Clone, Copy, Debug, PartialEq, Eq, Structural)]
pub enum EscrowAction {
    Locked,
    ReleasedToIssuer,
    ReleasedToPool,
    DefaultHandled,
}

/// One entry of an invoice's escrow history.
#[derive(Clone, Copy, Debug, PartialEq, Eq)]
pub struct EscrowEvent {
    pub invoice_id: InvoiceId,
    pub action: EscrowAction,
    pub amount: u128,
    pub timestamp: u64,
    /// Who triggered a default resolution; `None` for other actions.
    pub caller: Option<Addr>,
}

/// A token transfer the host layer must carry out.
#[derive(Clone, Copy, Debug, PartialEq, Eq)]
pub struct Transfer {
    pub token: Addr,
    pub from: Addr,
    pub to: Addr,
    pub amount: u128,
}

/// The addresses fixed at initialization.
#[derive(Clone, Copy, Debug, PartialEq, Eq)]
pub struct EscrowConfig {
    pub admin: Addr,
    pub pool: Addr,
    pub invoice_contract: Addr,
    pub usdc: Addr,
}

/// Abstract state of the escrow contract.
pub struct EscrowLedger {
    /// The escrow contract's own address.
    pub this: Addr,
    pub config: Option<EscrowConfig>,
    pub locked: Map<InvoiceId, EscrowRecord>,
    pub history: Map<InvoiceId, Seq<EscrowEvent>>,
}

/// The history of `id`, empty when nothing was recorded.
pub open spec fn history_of(h: Map<InvoiceId, Seq<EscrowEvent>>, id: InvoiceId) -> Seq<EscrowEvent> {
    if h.contains_key(id) {
        h[id]
    } else {
        Seq::empty()
    }
}

/// `h` with `ev` appended to the history of `id`.
pub open spec fn logged(
    h: Map<InvoiceId, Seq<EscrowEvent>>,
    id: InvoiceId,
    ev: EscrowEvent,
) -> Map<InvoiceId, Seq<EscrowEvent>> {
    h.insert(id, history_of(h, id).push(ev))
}

/// The state of the escrow contract.
pub struct EscrowContract {
    this: Addr,
    config: Option<EscrowConfig>,
    locked: Table<InvoiceId, EscrowRecord>,
    history: Table<InvoiceId, Vec<EscrowEvent>>,
}

impl View for EscrowContract {
    type V = EscrowLedger;

    closed spec fn view(&self) -> EscrowLedger {
        EscrowLedger {
            this: self.this,
            config: self.config,
            locked: self.locked@,
            history: self.history@.map_values(|v: Vec<EscrowEvent>| v@),
        }
    }
}

/// Whether the four configured addresses are pairwise distinct.
pub open spec fn distinct_config(admin: Addr, pool: Addr, invoice_contract: Addr, usdc: Addr) -> bool {
    &&& admin != pool && admin != invoice_contract && admin != usdc
    &&& pool != invoice_contract && pool != usdc
    &&& invoice_contract != usdc
}

/// Why `lock` fails, if it does.
pub open spec fn lock_error(l: EscrowLedger, id: InvoiceId, amount: u128) -> Option<EscrowError> {
    if l.config is None {
        Some(EscrowError::NotInitialized)
    } else if amount == 0 {
        Some(EscrowError::InvalidAmount)
    } else if l.locked.contains_key(id) {
        Some(EscrowError::AlreadyLocked)
    } else {
        None
    }
}

/// Why `release_to_issuer` fails, if it does: escrow itself, the pool and
/// the invoice contract are never valid recipients.
pub open spec fn release_to_issuer_error(l: EscrowLedger, id: InvoiceId, issuer: Addr) -> Option<
    EscrowError,
> {
    if l.config is None {
        Some(EscrowError::NotInitialized)
    } else if issuer == l.this || issuer == l.config.unwrap().pool || issuer
        == l.config.unwrap().invoice_contract {
        Some(EscrowError::InvalidRecipient)
    } else if !l.locked.contains_key(id) {
        Some(EscrowError::NotFound)
    } else {
        None
    }
}

/// Why `release_to_pool` fails, if it does.
pub open spec fn release_to_pool_error(l: EscrowLedger, id: InvoiceId, repayment_amount: u128) -> Option<
    EscrowError,
> {
    if l.config is None {
        Some(EscrowError::NotInitialized)
    } else if repayment_amount == 0 {
        Some(EscrowError::InvalidAmount)
    } else if !l.locked.contains_key(id) {
        Some(EscrowError::NotFound)
    } else {
        None
    }
}

/// Why `handle_default` fails, if it does, for an invoice with locked funds.
pub open spec fn handle_default_error(l: EscrowLedger, id: InvoiceId, caller: Addr, now: u64) -> Option<
    EscrowError,
> {
    if l.config is None {
        Some(EscrowError::NotInitialized)
    } else if caller != l.config.unwrap().admin && caller != l.config.unwrap().pool {
        Some(EscrowError::NotAuthorized)
    } else if now - l.locked[id].locked_at < DEFAULT_MIN_LOCK_SECONDS {
        Some(EscrowError::NotAuthorized)
    } else {
        None
    }
}

/// The ledger after `amount` is locked for `id` at `now`.
pub open spec fn locked_ledger(l: EscrowLedger, id: InvoiceId, amount: u128, now: u64) -> EscrowLedger {
    EscrowLedger {
        locked: l.locked.insert(id, EscrowRecord { invoice_id: id, amount, locked_at: now }),
        history: logged(
            l.history,
            id,
            EscrowEvent { invoice_id: id, action: EscrowAction::Locked, amount, timestamp: now, caller: None },
        ),
        ..l
    }
}

/// The ledger after `amount` leaves escrow for `id` with `action` at `now`.
pub open spec fn released_ledger(
    l: EscrowLedger,
    id: InvoiceId,
    action: EscrowAction,
    amount: u128,
    now: u64,
    caller: Option<Addr>,
) -> EscrowLedger {
    EscrowLedger {
        locked: l.locked.remove(id),
        history: logged(
            l.history,
            id,
            EscrowEvent { invoice_id: id, action, amount, timestamp: now, caller },
        ),
        ..l
    }
}

impl EscrowContract {
    pub closed spec fn wf(&self) -> bool {
        &&& self.locked.wf()
        &&& self.history.wf()
    }

    /// An uninitialized escrow contract deployed at `this`.
    pub fn new(this: Addr) -> (c: Self)
        ensures
            c.wf(),
            c@.this == this,
            c@.config is None,
            c@.locked == Map::<InvoiceId, EscrowRecord>::empty(),
            c@.history == Map::<InvoiceId, Seq<EscrowEvent>>::empty(),
    {
        let c = EscrowContract { this, config: None, locked: Table::new(), history: Table::new() };
        assert(c@.history =~= Map::<InvoiceId, Seq<EscrowEvent>>::empty());
        c
    }

    /// Records the admin, the pool and invoice contracts and the USDC asset;
    /// the four addresses must be pairwise distinct.
    pub fn initialize(
        &mut self,
        admin: Addr,
        pool_contract: Addr,
        invoice_contract: Addr,
        usdc_asset: Addr,
    ) -> (r: Result<(), EscrowError>)
        requires
            old(self).wf(),
        ensures
            final(self).wf(),
            match r {
                Ok(()) => old(self)@.config is None && distinct_config(
                    admin,
                    pool_contract,
                    invoice_contract,
                    usdc_asset,
                ) && final(self)@ == (EscrowLedger {
                    config: Some(
                        EscrowConfig { admin, pool: pool_contract, invoice_contract, usdc: usdc_asset },
                    ),
                    ..old(self)@
                }),
                Err(e) => final(self)@ == old(self)@ && if old(self)@.config is Some {
                    e == EscrowError::AlreadyInitialized
                } else {
                    e == EscrowError::InvalidConfig && !distinct_config(
                        admin,
                        pool_contract,
                        invoice_contract,
                        usdc_asset,
                    )
                },
            },
    {
        if self.config.is_some() {
            return Err(EscrowError::AlreadyInitialized);
        }
        if admin == pool_contract || admin == invoice_contract || admin == usdc_asset
            || pool_contract == invoice_contract || pool_contract == usdc_asset || invoice_contract
            == usdc_asset {
            return Err(EscrowError::InvalidConfig);
        }
        self.config = Some(
            EscrowConfig { admin, pool: pool_contract, invoice_contract, usdc: usdc_asset },
        );
        Ok(())
    }

    /// The configuration, if initialized.
    pub fn get_config(&self) -> (r: Option<EscrowConfig>)
        ensures
            r == self@.config,
    {
        self.config
    }

    /// The USDC asset the escrow holds.
    pub fn get_usdc_asset(&self) -> (r: Result<Addr, EscrowError>)
        ensures
            match r {
                Ok(a) => self@.config is Some && a == self@.config.unwrap().usdc,
                Err(e) => self@.config is None && e == EscrowError::NotInitialized,
            },
    {
        match self.config {
            Some(c) => Ok(c.usdc),
            None => Err(EscrowError::NotInitialized),
        }
    }

    /// Why `lock` would refuse, without changing anything.
    pub fn lock_check(&self, invoice_id: InvoiceId, amount: u128) -> (r: Option<EscrowError>)
        requires
            self.wf(),
        ensures
            r == lock_error(self@, invoice_id, amount),
    {
        if self.config.is_none() {
            Some(EscrowError::NotInitialized)
        } else if amount == 0 {
            Some(EscrowError::InvalidAmount)
        } else if self.locked.contains_key(&invoice_id) {
            Some(EscrowError::AlreadyLocked)
        } else {
            None
        }
    }

    /// Why `release_to_pool` would refuse, without changing anything.
    pub fn release_to_pool_check(&self, invoice_id: InvoiceId, repayment_amount: u128) -> (r: Option<
        EscrowError,
    >)
        requires
            self.wf(),
        ensures
            r == release_to_pool_error(self@, invoice_id, repayment_amount),
    {
        if self.config.is_none() {
            Some(EscrowError::NotInitialized)
        } else if repayment_amount == 0 {
            Some(EscrowError::InvalidAmount)
        } else if !self.locked.contains_key(&invoice_id) {
            Some(EscrowError::NotFound)
        } else {
            None
        }
    }

    /// Why `handle_default` would refuse, without changing anything; `None`
    /// also when nothing is locked for the invoice.
    pub fn handle_default_check(&self, invoice_id: InvoiceId, caller: Addr, now: u64) -> (r: Option<
        EscrowError,
    >)
        requires
            self.wf(),
            self@.locked.contains_key(invoice_id) ==> self@.locked[invoice_id].locked_at <= now,
        ensures
            r == if self@.locked.contains_key(invoice_id) {
                handle_default_error(self@, invoice_id, caller, now)
            } else {
                None
            },
    {
        let rec = match self.locked.get(&invoice_id) {
            Some(rec) => *rec,
            None => {
                return None;
            },
        };
        let c = match self.config {
            Some(c) => c,
            None => {
                return Some(EscrowError::NotInitialized);
            },
        };
        if caller != c.admin && caller != c.pool {
            return Some(EscrowError::NotAuthorized);
        }
        if now - rec.locked_at < DEFAULT_MIN_LOCK_SECONDS {
            return Some(EscrowError::NotAuthorized);
        }
        None
    }

    fn append_history(&mut self, id: InvoiceId, ev: EscrowEvent)
        requires
            old(self).wf(),
        ensures
            final(self).wf(),
            final(self)@ == (EscrowLedger { history: logged(old(self)@.history, id, ev), ..old(self)@ }),
    {
        let mut v = match self.history.remove(&id) {
            Some(v) => v,
            None => Vec::new(),
        };
        assert(v@ == history_of(old(self)@.history, id));
        v.push(ev);
        self.history.insert(id, v);
        assert(self@.history =~= logged(old(self)@.history, id, ev));
    }

    /// Locks `amount` from the pool for `invoice_id` at time `now`.
    pub fn lock(&mut self, invoice_id: InvoiceId, amount: u128, now: u64) -> (r: Result<Transfer, EscrowError>)
        requires
            old(self).wf(),
        ensures
            final(self).wf(),
            match r {
                Ok(t) => {
                    let c = old(self)@.config.unwrap();
                    &&& lock_error(old(self)@, invoice_id, amount) is None
                    &&& t == (Transfer { token: c.usdc, from: c.pool, to: old(self)@.this, amount })
                    &&& final(self)@ == (EscrowLedger {
                        locked: old(self)@.locked.insert(
                            invoice_id,
                            EscrowRecord { invoice_id, amount, locked_at: now },
                        ),
                        history: logged(
                            old(self)@.history,
                            invoice_id,
                            EscrowEvent {
                                invoice_id,
                                action: EscrowAction::Locked,
                                amount,
                                timestamp: now,
                                caller: None,
                            },
                        ),
                        ..old(self)@
                    })
                },
                Err(e) => lock_error(old(self)@, invoice_id, amount) == Some(e) && final(self)@
                    == old(self)@,
            },
    {
        let c = match self.config {
            Some(c) => c,
            None => {
                return Err(EscrowError::NotInitialized);
            },
        };
        if amount == 0 {
            return Err(EscrowError::InvalidAmount);
        }
        if self.locked.contains_key(&invoice_id) {
            return Err(EscrowError::AlreadyLocked);
        }
        self.locked.insert(invoice_id, EscrowRecord { invoice_id, amount, locked_at: now });
        self.append_history(
            invoice_id,
            EscrowEvent {
                invoice_id,
                action: EscrowAction::Locked,
                amount,
                timestamp: now,
                caller: None,
            },
        );
        Ok(Transfer { token: c.usdc, from: c.pool, to: self.this, amount })
    }

    /// Releases the funds locked for `invoice_id` to `issuer`.
    pub fn release_to_issuer(&mut self, invoice_id: InvoiceId, issuer: Addr, now: u64) -> (r: Result<
        Transfer,
        EscrowError,
    >)
        requires
            old(self).wf(),
        ensures
            final(self).wf(),
            match r {
                Ok(t) => {
                    let c = old(self)@.config.unwrap();
                    let rec = old(self)@.locked[invoice_id];
                    &&& release_to_issuer_error(old(self)@, invoice_id, issuer) is None
                    &&& t == (Transfer {
                        token: c.usdc,
                        from: old(self)@.this,
                        to: issuer,
                        amount: rec.amount,
                    })
                    &&& final(self)@ == (EscrowLedger {
                        locked: old(self)@.locked.remove(invoice_id),
                        history: logged(
                            old(self)@.history,
                            invoice_id,
                            EscrowEvent {
                                invoice_id,
                                action: EscrowAction::ReleasedToIssuer,
                                amount: rec.amount,
                                timestamp: now,
                                caller: None,
                            },
                        ),
                        ..old(self)@
                    })
                },
                Err(e) => release_to_issuer_error(old(self)@, invoice_id, issuer) == Some(e) && final(self)@ == old(self)@,
            },
    {
        let c = match self.config {
            Some(c) => c,
            None => {
                return Err(EscrowError::NotInitialized);
            },
        };
        if issuer == self.this || issuer == c.pool || issuer == c.invoice_contract {
            return Err(EscrowError::InvalidRecipient);
        }
        let amount = match self.locked.get(&invoice_id) {
            Some(rec) => rec.amount,
            None => {
                return Err(EscrowError::NotFound);
            },
        };
        self.append_history(
            invoice_id,
            EscrowEvent {
                invoice_id,
                action: EscrowAction::ReleasedToIssuer,
                amount,
                timestamp: now,
                caller: None,
            },
        );
        self.locked.remove(&invoice_id);
        Ok(Transfer { token: c.usdc, from: self.this, to: issuer, amount })
    }

    /// Sends `repayment_amount` to the pool and closes the lock of
    /// `invoice_id` (called on buyer repayment).
    pub fn release_to_pool(&mut self, invoice_id: InvoiceId, repayment_amount: u128, now: u64) -> (r:
        Result<Transfer, EscrowError>)
        requires
            old(self).wf(),
        ensures
            final(self).wf(),
            match r {
                Ok(t) => {
                    let c = old(self)@.config.unwrap();
                    &&& release_to_pool_error(old(self)@, invoice_id, repayment_amount) is None
                    &&& t == (Transfer {
                        token: c.usdc,
                        from: old(self)@.this,
                        to: c.pool,
                        amount: repayment_amount,
                    })
                    &&& final(self)@ == (EscrowLedger {
                        locked: old(self)@.locked.remove(invoice_id),
                        history: logged(
                            old(self)@.history,
                            invoice_id,
                            EscrowEvent {
                                invoice_id,
                                action: EscrowAction::ReleasedToPool,
                                amount: repayment_amount,
                                timestamp: now,
                                caller: None,
                            },
                        ),
                        ..old(self)@
                    })
                },
                Err(e) => release_to_pool_error(old(self)@, invoice_id, repayment_amount) == Some(e)
                    && final(self)@ == old(self)@,
            },
    {
        let c = match self.config {
            Some(c) => c,
            None => {
                return Err(EscrowError::NotInitialized);
            },
        };
        if repayment_amount == 0 {
            return Err(EscrowError::InvalidAmount);
        }
        if !self.locked.contains_key(&invoice_id) {
            return Err(EscrowError::NotFound);
        }
        self.append_history(
            invoice_id,
            EscrowEvent {
                invoice_id,
                action: EscrowAction::ReleasedToPool,
                amount: repayment_amount,
                timestamp: now,
                caller: None,
            },
        );
        self.locked.remove(&invoice_id);
        Ok(Transfer { token: c.usdc, from: self.this, to: c.pool, amount: repayment_amount })
    }

    /// Returns the funds locked for `invoice_id` to the pool after a default.
    /// `Ok(None)` when nothing is locked for it (nothing changes).
    pub fn handle_default(&mut self, invoice_id: InvoiceId, caller: Addr, now: u64) -> (r: Result<
        Option<Transfer>,
        EscrowError,
    >)
        requires
            old(self).wf(),
            old(self)@.locked.contains_key(invoice_id) ==> old(self)@.locked[invoice_id].locked_at
                <= now,
        ensures
            final(self).wf(),
            match r {
                Ok(None) => !old(self)@.locked.contains_key(invoice_id) && final(self)@ == old(self)@,
                Ok(Some(t)) => {
                    let c = old(self)@.config.unwrap();
                    let rec = old(self)@.locked[invoice_id];
                    &&& old(self)@.locked.contains_key(invoice_id)
                    &&& handle_default_error(old(self)@, invoice_id, caller, now) is None
                    &&& t == (Transfer {
                        token: c.usdc,
                        from: old(self)@.this,
                        to: c.pool,
                        amount: rec.amount,
                    })
                    &&& final(self)@ == (EscrowLedger {
                        locked: old(self)@.locked.remove(invoice_id),
                        history: logged(
                            old(self)@.history,
                            invoice_id,
                            EscrowEvent {
                                invoice_id,
                                action: EscrowAction::DefaultHandled,
                                amount: rec.amount,
                                timestamp: now,
                                caller: Some(caller),
                            },
                        ),
                        ..old(self)@
                    })
                },
                Err(e) => old(self)@.locked.contains_key(invoice_id) && handle_default_error(
                    old(self)@,
                    invoice_id,
                    caller,
                    now,
                ) == Some(e) && final(self)@ == old(self)@,
            },
    {
        let rec = match self.locked.get(&invoice_id) {
            Some(rec) => *rec,
            None => {
                return Ok(None);
            },
        };
        let c = match self.config {
            Some(c) => c,
            None => {
                return Err(EscrowError::NotInitialized);
            },
        };
        if caller != c.admin && caller != c.pool {
            return Err(EscrowError::NotAuthorized);
        }
        if now - rec.locked_at < DEFAULT_MIN_LOCK_SECONDS {
            return Err(EscrowError::NotAuthorized);
        }
        self.append_history(
            invoice_id,
            EscrowEvent {
                invoice_id,
                action: EscrowAction::DefaultHandled,
                amount: rec.amount,
                timestamp: now,
                caller: Some(caller),
            },
        );
        self.locked.remove(&invoice_id);
        Ok(Some(Transfer { token: c.usdc, from: self.this, to: c.pool, amount: rec.amount }))
    }

    /// The amount locked for `invoice_id`, 0 when none.
    pub fn get_locked(&self, invoice_id: InvoiceId) -> (n: u128)
        requires
            self.wf(),
        ensures
            n == if self@.locked.contains_key(invoice_id) {
                self@.locked[invoice_id].amount
            } else {
                0
            },
    {
        match self.locked.get(&invoice_id) {
            Some(rec) => rec.amount,
            None => 0,
        }
    }

    /// The time the funds for `invoice_id` were locked, 0 when none.
    pub fn get_locked_at(&self, invoice_id: InvoiceId) -> (t: u64)
        requires
            self.wf(),
        ensures
            t == if self@.locked.contains_key(invoice_id) {
                self@.locked[invoice_id].locked_at
            } else {
                0
            },
    {
        match self.locked.get(&invoice_id) {
            Some(rec) => rec.locked_at,
            None => 0,
        }
    }

    /// The escrow history of `invoice_id`, oldest first.
    pub fn get_history(&self, invoice_id: InvoiceId) -> (h: Vec<EscrowEvent>)
        requires
            self.wf(),
        ensures
            h@ == history_of(self@.history, invoice_id),
    {
        let mut out: Vec<EscrowEvent> = Vec::new();
        match self.history.get(&invoice_id) {
            Some(v) => {
                let mut i: usize = 0;
                while i < v.len()
                    invariant
                        i <= v@.len(),
                        out@ == v@.subrange(0, i as int),
                    decreases v@.len() - i,
                {
                    out.push(v[i]);
                    i = i + 1;
                    proof {
                        assert(v@.subrange(0, i as int) =~= v@.subrange(0, i - 1).push(v@[i - 1]));
                    }
                }
                assert(v@.subrange(0, v@.len() as int) =~= v@);
            },
            None => {},
        }
        out
    }
}

/// Funds are locked at most once per invoice: while locked, a second lock of
/// the same invoice is refused.
pub proof fn law_lock_cannot_repeat(
    l: EscrowLedger,
    id: InvoiceId,
    amount: u128,
    now: u64,
    history: Map<InvoiceId, Seq<EscrowEvent>>,
    amount2: u128,
)
    requires
        lock_error(l, id, amount) is None,
        amount2 > 0,
    ensures
        lock_error(
            EscrowLedger {
                locked: l.locked.insert(id, EscrowRecord { invoice_id: id, amount, locked_at: now }),
                history,
                ..l
            },
            id,
            amount2,
        ) == Some(EscrowError::AlreadyLocked),
{
}

/// Locked funds leave escrow once: after a release or a default resolution
/// nothing stays locked for the invoice, so no further release can pay it
/// out again.
pub proof fn law_funds_leave_once(
    l: EscrowLedger,
    id: InvoiceId,
    history: Map<InvoiceId, Seq<EscrowEvent>>,
    issuer: Addr,
    amount: u128,
)
    requires
        l.config is Some,
        amount > 0,
        issuer != l.this,
        issuer != l.config.unwrap().pool,
        issuer != l.config.unwrap().invoice_contract,
    ensures
        ({
            let after = EscrowLedger { locked: l.locked.remove(id), history, ..l };
            &&& !after.locked.contains_key(id)
            &&& release_to_issuer_error(after, id, issuer) == Some(EscrowError::NotFound)
            &&& release_to_pool_error(after, id, amount) == Some(EscrowError::NotFound)
        }),
{
}

/// The escrow history is append-only: recording an event keeps every
/// invoice's earlier history as a prefix and adds exactly that event to the
/// invoice it concerns.
pub proof fn law_history_append_only(
    h: Map<InvoiceId, Seq<EscrowEvent>>,
    id: InvoiceId,
    ev: EscrowEvent,
    k: InvoiceId,
)
    ensures
        history_of(h, k).is_prefix_of(history_of(logged(h, id, ev), k)),
        k == id ==> history_of(logged(h, id, ev), k) == history_of(h, k).push(ev),
        k != id ==> history_of(logged(h, id, ev), k) == history_of(h, k),
{
    if k == id {
        assert(history_of(h, k).is_prefix_of(history_of(h, k).push(ev))) by {
            assert(history_of(h, k) =~= history_of(h, k).push(ev).subrange(0, history_of(h, k).len() as int));
        }
    } else {
        assert(history_of(h, k).is_prefix_of(history_of(h, k))) by {
            assert(history_of(h, k) =~= history_of(h, k).subrange(0, history_of(h, k).len() as int));
        }
    }
}

/// The escrow accepts its flows on the plain conditions: a first lock of a
/// positive amount, a release to the pool of a positive repayment, and a
/// release to any issuer other than the escrow, the pool or the invoice
/// contract, each once the escrow is configured and, for releases, funds
/// are locked.
pub proof fn law_escrow_flows_are_accepted(l: EscrowLedger, id: InvoiceId, amount: u128, issuer: Addr)
    requires
        l.config is Some,
    ensures
        amount > 0 && !l.locked.contains_key(id) ==> lock_error(l, id, amount) is None,
        amount > 0 && l.locked.contains_key(id) ==> release_to_pool_error(l, id, amount) is None,
        l.locked.contains_key(id) && issuer != l.this && issuer != l.config.unwrap().pool && issuer
            != l.config.unwrap().invoice_contract ==> release_to_issuer_error(l, id, issuer) is None,
{
}

/// A default recovery of locked funds is accepted from the pool or the
/// admin exactly once the funds have been locked for 60 seconds, and
/// refused from anyone else.
pub proof fn law_default_recovery_waits_sixty_seconds(
    l: EscrowLedger,
    id: InvoiceId,
    caller: Addr,
    now: u64,
)
    requires
        l.config is Some,
        l.locked.contains_key(id),
        l.locked[id].locked_at <= now,
    ensures
        caller == l.config.unwrap().admin || caller == l.config.unwrap().pool ==> (handle_default_error(
            l,
            id,
            caller,
            now,
        ) is None <==> now >= l.locked[id].locked_at + 60),
        caller != l.config.unwrap().admin && caller != l.config.unwrap().pool ==> handle_default_error(
            l,
            id,
            caller,
            now,
        ) == Some(EscrowError::NotAuthorized),
{
}

} // verus!
