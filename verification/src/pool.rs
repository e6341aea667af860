//! The USDC liquidity pool with share-based LP accounting.
//!
//! LPs deposit USDC for shares; the share price is `total_deposits /
//! total_shares`. Funding an invoice deploys `face_value * (10000 -
//! discount_bps) / 10000` of the available liquidity into escrow; repayment
//! books the difference to the face value as yield (raising the share price),
//! and a default writes the funded amount off (lowering it). Authorization,
//! token transfers and cross-contract calls are the host layer's.

use vstd::prelude::*;
use crate::escrow::Transfer;
use crate::ids::{Addr, InvoiceId};
use crate::sums::{map_sum, lemma_map_sum_insert, lemma_map_sum_remove, lemma_map_sum_bounds_term,
    lemma_map_sum_nonneg, lemma_map_sum_empty};
use crate::table::Table;

verus! {

/// Default maximum utilization cap in basis points (85%).
pub const DEFAULT_MAX_UTILIZATION_BPS: u32 = 8500;

/// Smallest deposit accepted into an empty pool (1 USDC in stroops).
pub const MIN_INITIAL_DEPOSIT: u128 = 10_000_000;

/// Basis-point denominator.
pub const BPS: u128 = 10_000;

/// Errors of the pool contract; `code` gives the contract error number.
#[derive(Clone, Copy, Debug, PartialEq, Eq, Structural)]
pub enum PoolError {
    AlreadyInitialized,
    NotInitialized,
    NotAuthorized,
    InvalidAmount,
    InsufficientLiquidity,
    InvalidFundedAmount,
    InsufficientShares,
    InvoiceNotListed,
    InvalidRefund,
    InvoiceNotFound,
    AssetMismatch,
    UtilizationCapExceeded,
    MathOverflow,
    MinimumDeposit,
    InvalidConfiguration,
    AlreadyFunded,
    ActiveCountUnderflow,
}

impl PoolError {
    pub open spec fn code_of(self) -> u32 {
        match self {
            PoolError::AlreadyInitialized => 1,
            PoolError::NotInitialized => 2,
            PoolError::NotAuthorized => 3,
            PoolError::InvalidAmount => 4,
            PoolError::InsufficientLiquidity => 5,
            PoolError::InvalidFundedAmount => 6,
            PoolError::InsufficientShares => 7,
            PoolError::InvoiceNotListed => 8,
            PoolError::InvalidRefund => 9,
            PoolError::InvoiceNotFound => 10,
            PoolError::AssetMismatch => 11,
            PoolError::UtilizationCapExceeded => 12,
            PoolError::MathOverflow => 13,
            PoolError::MinimumDeposit => 14,
            PoolError::InvalidConfiguration => 15,
            PoolError::AlreadyFunded => 16,
            PoolError::ActiveCountUnderflow => 17,
        }
    }

    /// The contract error number.
    pub fn code(&self) -> (c: u32)
        ensures
            c == self.code_of(),
    {
        match self {
            PoolError::AlreadyInitialized => 1,
            PoolError::NotInitialized => 2,
            PoolError::NotAuthorized => 3,
            PoolError::InvalidAmount => 4,
            PoolError::InsufficientLiquidity => 5,
            PoolError::InvalidFundedAmount => 6,
            PoolError::InsufficientShares => 7,
            PoolError::InvoiceNotListed => 8,
            PoolError::InvalidRefund => 9,
            PoolError::InvoiceNotFound => 10,
            PoolError::AssetMismatch => 11,
            PoolError::UtilizationCapExceeded => 12,
            PoolError::MathOverflow => 13,
            PoolError::MinimumDeposit => 14,
            PoolError::InvalidConfiguration => 15,
            PoolError::AlreadyFunded => 16,
            PoolError::ActiveCountUnderflow => 17,
        }
    }
}

/// The addresses fixed at initialization.
#[derive(Clone, Copy, Debug, PartialEq, Eq)]
pub struct PoolConfig {
    pub admin: Addr,
    pub invoice_contract: Addr,
    pub escrow_contract: Addr,
    pub usdc_asset: Addr,
}

/// The bookkeeping of one liquidity provider.
#[derive(Clone, Copy, Debug, PartialEq, Eq)]
pub struct LpAccount {
    pub shares: u128,
    /// Deposits made since the account last held no shares.
    pub deposit_count: u32,
    /// Yield realised on withdrawals, kept across full withdrawals.
    pub yield_earned: u128,
    /// Principal still invested.
    pub initial_deposit: u128,
}

/// A liquidity provider's position as reported by `get_lp_position`.
#[derive(Clone, Copy, Debug, PartialEq, Eq)]
pub struct LPPosition {
    pub shares: u128,
    pub usdc_value: u128,
    pub yield_earned: u128,
    pub deposit_count: u32,
}

/// Pool-wide figures as reported by `get_stats`.
#[derive(Clone, Copy, Debug, PartialEq, Eq)]
pub struct PoolStats {
    pub total_deposits: u128,
    pub total_shares: u128,
    pub total_funded: u128,
    pub total_yield_distributed: u128,
    pub total_loss_realised: u128,
    pub active_invoice_count: u32,
    pub available_liquidity: u128,
    pub utilization_rate_bps: u32,
    pub max_utilization_bps: u32,
}

/// What funding an invoice sets in motion: `escrow` locks `amount` of
/// `asset` taken from the pool, and the invoice is marked funded.
#[derive(Clone, Copy, Debug, PartialEq, Eq)]
pub struct Funding {
    pub escrow: Addr,
    pub invoice_contract: Addr,
    pub asset: Addr,
    pub amount: u128,
}

/// Abstract state of the pool.
pub struct PoolLedger {
    /// The pool contract's own address.
    pub this: Addr,
    pub config: Option<PoolConfig>,
    pub total_shares: u128,
    pub total_deposits: u128,
    pub total_funded: u128,
    pub total_yield_distributed: u128,
    pub total_loss_realised: u128,
    pub active_invoice_count: u32,
    pub max_utilization_bps: u32,
    pub accounts: Map<Addr, LpAccount>,
    /// Funded amount of every invoice the pool has funded and not yet settled.
    pub funded: Map<InvoiceId, u128>,
}

/// Shares of an account, as a sum term.
pub open spec fn shares_term() -> spec_fn(LpAccount) -> int {
    |a: LpAccount| a.shares as int
}

/// A funded amount, as a sum term.
pub open spec fn amount_term() -> spec_fn(u128) -> int {
    |x: u128| x as int
}

/// The invariant of the pool: the share supply is the sum of the LPs'
/// shares, the deployed capital is the sum of the funded amounts and never
/// exceeds the deposits, one active invoice is counted per funded invoice,
/// and the cap is at most 100%.
pub open spec fn pool_inv(l: PoolLedger) -> bool {
    &&& l.accounts.dom().finite()
    &&& l.funded.dom().finite()
    &&& l.total_shares == map_sum(l.accounts, shares_term())
    &&& l.total_funded == map_sum(l.funded, amount_term())
    &&& l.active_invoice_count == l.funded.dom().len()
    &&& l.total_funded <= l.total_deposits
    &&& l.max_utilization_bps <= 10000
}

/// The account of `lp` (all zero when it never deposited).
pub open spec fn account_of(l: PoolLedger, lp: Addr) -> LpAccount {
    if l.accounts.contains_key(lp) {
        l.accounts[lp]
    } else {
        LpAccount { shares: 0, deposit_count: 0, yield_earned: 0, initial_deposit: 0 }
    }
}

/// Liquidity not deployed into invoices.
pub open spec fn available(l: PoolLedger) -> int {
    l.total_deposits - l.total_funded
}

/// Whether the pool is empty for share pricing (first-deposit rules apply).
pub open spec fn is_empty_pool(l: PoolLedger) -> bool {
    l.total_shares == 0 || l.total_deposits == 0
}

/// Shares minted for a deposit of `amount`: one per unit into an empty pool,
/// otherwise `amount * total_shares / total_deposits`, rounded down.
pub open spec fn minted_shares(l: PoolLedger, amount: u128) -> int {
    if is_empty_pool(l) {
        amount as int
    } else {
        amount * l.total_shares / (l.total_deposits as int)
    }
}

/// USDC value of `shares` at the current share price, rounded down.
pub open spec fn share_value(l: PoolLedger, shares: u128) -> int {
    if l.total_shares == 0 {
        0
    } else {
        shares * l.total_deposits / (l.total_shares as int)
    }
}

/// Why `deposit` fails, if it does.
pub open spec fn deposit_error(l: PoolLedger, lp: Addr, amount: u128) -> Option<PoolError> {
    let acct = account_of(l, lp);
    if l.config is None {
        Some(PoolError::NotInitialized)
    } else if amount == 0 {
        Some(PoolError::InvalidAmount)
    } else if is_empty_pool(l) && amount < MIN_INITIAL_DEPOSIT {
        Some(PoolError::InvalidAmount)
    } else if !is_empty_pool(l) && amount * l.total_shares > u128::MAX {
        Some(PoolError::MathOverflow)
    } else if minted_shares(l, amount) == 0 {
        Some(PoolError::MinimumDeposit)
    } else if l.total_shares + minted_shares(l, amount) > u128::MAX || l.total_deposits + amount
        > u128::MAX {
        Some(PoolError::MathOverflow)
    } else if acct.deposit_count == u32::MAX || acct.initial_deposit + amount > u128::MAX {
        Some(PoolError::MathOverflow)
    } else {
        None
    }
}

/// The ledger after a successful deposit of `amount` by `lp`.
pub open spec fn after_deposit(l: PoolLedger, lp: Addr, amount: u128) -> PoolLedger {
    let acct = account_of(l, lp);
    let minted = minted_shares(l, amount);
    PoolLedger {
        total_shares: (l.total_shares + minted) as u128,
        total_deposits: (l.total_deposits + amount) as u128,
        accounts: l.accounts.insert(
            lp,
            LpAccount {
                shares: (acct.shares + minted) as u128,
                deposit_count: (acct.deposit_count + 1) as u32,
                initial_deposit: (acct.initial_deposit + amount) as u128,
                ..acct
            },
        ),
        ..l
    }
}

/// Principal share of a withdrawal of `shares` out of the account's shares.
pub open spec fn principal_part(acct: LpAccount, shares: u128) -> int {
    acct.initial_deposit * shares / (acct.shares as int)
}

/// Why `withdraw` fails, if it does.
pub open spec fn withdraw_error(l: PoolLedger, lp: Addr, shares: u128) -> Option<PoolError> {
    let acct = account_of(l, lp);
    if l.config is None {
        Some(PoolError::NotInitialized)
    } else if shares == 0 {
        Some(PoolError::InvalidAmount)
    } else if shares > acct.shares {
        Some(PoolError::InsufficientShares)
    } else if shares * l.total_deposits > u128::MAX {
        Some(PoolError::MathOverflow)
    } else if share_value(l, shares) > available(l) {
        Some(PoolError::InsufficientLiquidity)
    } else if acct.initial_deposit * shares > u128::MAX {
        Some(PoolError::MathOverflow)
    } else if acct.yield_earned + (share_value(l, shares) - principal_part(acct, shares))
        > u128::MAX && share_value(l, shares) > principal_part(acct, shares) {
        Some(PoolError::MathOverflow)
    } else {
        None
    }
}

/// Yield realised by a withdrawal: what is paid out above the principal.
pub open spec fn realised_yield(l: PoolLedger, lp: Addr, shares: u128) -> int {
    let paid = share_value(l, shares);
    let principal = principal_part(account_of(l, lp), shares);
    if paid > principal {
        paid - principal
    } else {
        0
    }
}

/// The ledger after a successful withdrawal of `shares` by `lp`.
pub open spec fn after_withdraw(l: PoolLedger, lp: Addr, shares: u128) -> PoolLedger {
    let acct = account_of(l, lp);
    let paid = share_value(l, shares);
    let y = realised_yield(l, lp, shares);
    PoolLedger {
        total_shares: (l.total_shares - shares) as u128,
        total_deposits: (l.total_deposits - paid) as u128,
        accounts: l.accounts.insert(
            lp,
            if shares == acct.shares {
                LpAccount {
                    shares: 0,
                    deposit_count: 0,
                    initial_deposit: 0,
                    yield_earned: (acct.yield_earned + y) as u128,
                }
            } else {
                LpAccount {
                    shares: (acct.shares - shares) as u128,
                    initial_deposit: (acct.initial_deposit - principal_part(acct, shares)) as u128,
                    yield_earned: (acct.yield_earned + y) as u128,
                    ..acct
                }
            },
        ),
        ..l
    }
}

/// The amount funded for an invoice of `face_value` listed at `discount_bps`.
pub open spec fn funded_amount_of(face_value: u128, discount_bps: u32) -> int {
    face_value * (10000 - discount_bps) / 10000
}

/// Why `fund_invoice` fails, if it does, given the invoice's status code,
/// face value, discount and funding asset.
pub open spec fn fund_error(
    l: PoolLedger,
    id: InvoiceId,
    status: u32,
    face_value: u128,
    discount_bps: u32,
    asset: Addr,
) -> Option<PoolError> {
    if l.config is None {
        Some(PoolError::NotInitialized)
    } else if status != 1 {
        Some(PoolError::InvoiceNotListed)
    } else if asset != l.config.unwrap().usdc_asset {
        Some(PoolError::AssetMismatch)
    } else if l.funded.contains_key(id) {
        Some(PoolError::AlreadyFunded)
    } else if discount_bps > 10000 || face_value * (10000 - discount_bps) > u128::MAX {
        Some(PoolError::MathOverflow)
    } else if funded_amount_of(face_value, discount_bps) == 0 {
        Some(PoolError::InvalidFundedAmount)
    } else if funded_amount_of(face_value, discount_bps) > available(l) {
        Some(PoolError::InsufficientLiquidity)
    } else if (l.total_funded + funded_amount_of(face_value, discount_bps)) * 10000 > u128::MAX {
        Some(PoolError::MathOverflow)
    } else if (l.total_funded + funded_amount_of(face_value, discount_bps)) * 10000
        / l.total_deposits as int > l.max_utilization_bps {
        Some(PoolError::UtilizationCapExceeded)
    } else if l.active_invoice_count == u32::MAX {
        Some(PoolError::MathOverflow)
    } else {
        None
    }
}

/// The ledger after funding `id` with `amount`.
pub open spec fn after_fund(l: PoolLedger, id: InvoiceId, amount: u128) -> PoolLedger {
    PoolLedger {
        total_funded: (l.total_funded + amount) as u128,
        active_invoice_count: (l.active_invoice_count + 1) as u32,
        funded: l.funded.insert(id, amount),
        ..l
    }
}

/// Why settling the repayment of `id` with `amount` (of which `refund` goes
/// back to the buyer) fails, if it does.
pub open spec fn repayment_error(l: PoolLedger, id: InvoiceId, amount: u128, refund: u128) -> Option<
    PoolError,
> {
    if l.config is None {
        Some(PoolError::NotInitialized)
    } else if !l.funded.contains_key(id) {
        Some(PoolError::InvoiceNotFound)
    } else if amount < l.funded[id] {
        Some(PoolError::InvalidAmount)
    } else if refund > amount - l.funded[id] {
        Some(PoolError::InvalidRefund)
    } else if l.total_deposits + (amount - l.funded[id] - refund) > u128::MAX
        || l.total_yield_distributed + (amount - l.funded[id] - refund) > u128::MAX {
        Some(PoolError::MathOverflow)
    } else {
        None
    }
}

/// The ledger after the repayment of `id` books `yield_amount` as yield.
pub open spec fn after_repayment(l: PoolLedger, id: InvoiceId, yield_amount: int) -> PoolLedger {
    PoolLedger {
        total_funded: (l.total_funded - l.funded[id]) as u128,
        total_deposits: (l.total_deposits + yield_amount) as u128,
        total_yield_distributed: (l.total_yield_distributed + yield_amount) as u128,
        active_invoice_count: (l.active_invoice_count - 1) as u32,
        funded: l.funded.remove(id),
        ..l
    }
}

/// Why `handle_default` fails, if it does.
pub open spec fn default_error(l: PoolLedger, id: InvoiceId) -> Option<PoolError> {
    if l.config is None {
        Some(PoolError::NotInitialized)
    } else if !l.funded.contains_key(id) {
        Some(PoolError::InvoiceNotFound)
    } else if l.total_loss_realised + l.funded[id] > u128::MAX {
        Some(PoolError::MathOverflow)
    } else {
        None
    }
}

/// The ledger after writing off the funded amount of `id`.
pub open spec fn after_default(l: PoolLedger, id: InvoiceId) -> PoolLedger {
    PoolLedger {
        total_funded: (l.total_funded - l.funded[id]) as u128,
        total_deposits: (l.total_deposits - l.funded[id]) as u128,
        total_loss_realised: (l.total_loss_realised + l.funded[id]) as u128,
        active_invoice_count: (l.active_invoice_count - 1) as u32,
        funded: l.funded.remove(id),
        ..l
    }
}

/// Utilization in basis points: deployed over deposited capital.
pub open spec fn utilization(l: PoolLedger) -> int {
    if l.total_deposits == 0 {
        0
    } else {
        l.total_funded * 10000 / l.total_deposits as int
    }
}

/// The state of the pool contract.
pub struct PoolContract {
    this: Addr,
    config: Option<PoolConfig>,
    total_shares: u128,
    total_deposits: u128,
    total_funded: u128,
    total_yield_distributed: u128,
    total_loss_realised: u128,
    active_invoice_count: u32,
    max_utilization_bps: u32,
    accounts: Table<Addr, LpAccount>,
    funded: Table<InvoiceId, u128>,
}

impl View for PoolContract {
    type V = PoolLedger;

    closed spec fn view(&self) -> PoolLedger {
        PoolLedger {
            this: self.this,
            config: self.config,
            total_shares: self.total_shares,
            total_deposits: self.total_deposits,
            total_funded: self.total_funded,
            total_yield_distributed: self.total_yield_distributed,
            total_loss_realised: self.total_loss_realised,
            active_invoice_count: self.active_invoice_count,
            max_utilization_bps: self.max_utilization_bps,
            accounts: self.accounts@,
            funded: self.funded@,
        }
    }
}

impl PoolContract {
    pub closed spec fn wf(&self) -> bool {
        &&& self.accounts.wf()
        &&& self.funded.wf()
        &&& pool_inv(self@)
    }

    /// An uninitialized pool deployed at `this`.
    pub fn new(this: Addr) -> (c: Self)
        ensures
            c.wf(),
            c@ == (PoolLedger {
                this,
                config: None,
                total_shares: 0,
                total_deposits: 0,
                total_funded: 0,
                total_yield_distributed: 0,
                total_loss_realised: 0,
                active_invoice_count: 0,
                max_utilization_bps: DEFAULT_MAX_UTILIZATION_BPS,
                accounts: Map::empty(),
                funded: Map::empty(),
            }),
    {
        let c = PoolContract {
            this,
            config: None,
            total_shares: 0,
            total_deposits: 0,
            total_funded: 0,
            total_yield_distributed: 0,
            total_loss_realised: 0,
            active_invoice_count: 0,
            max_utilization_bps: DEFAULT_MAX_UTILIZATION_BPS,
            accounts: Table::new(),
            funded: Table::new(),
        };
        proof {
            lemma_map_sum_empty::<Addr, LpAccount>(shares_term());
            lemma_map_sum_empty::<InvoiceId, u128>(amount_term());
            assert(c@.funded.dom() =~= Set::<InvoiceId>::empty());
            assert(c@.accounts.dom() =~= Set::<Addr>::empty());
        }
        c
    }

    /// Records the admin, invoice and escrow contracts and the USDC asset;
    /// the four addresses must be pairwise distinct.
    pub fn initialize(
        &mut self,
        admin: Addr,
        invoice_contract: Addr,
        escrow_contract: Addr,
        usdc_asset: Addr,
    ) -> (r: Result<(), PoolError>)
        requires
            old(self).wf(),
        ensures
            final(self).wf(),
            match r {
                Ok(()) => {
                    &&& old(self)@.config is None
                    &&& admin != invoice_contract && admin != escrow_contract && admin != usdc_asset
                    &&& invoice_contract != escrow_contract && invoice_contract != usdc_asset
                    &&& escrow_contract != usdc_asset
                    &&& final(self)@ == (PoolLedger {
                        config: Some(
                            PoolConfig { admin, invoice_contract, escrow_contract, usdc_asset },
                        ),
                        max_utilization_bps: DEFAULT_MAX_UTILIZATION_BPS,
                        ..old(self)@
                    })
                },
                Err(e) => final(self)@ == old(self)@ && if old(self)@.config is Some {
                    e == PoolError::AlreadyInitialized
                } else {
                    e == PoolError::InvalidConfiguration && !(admin != invoice_contract && admin
                        != escrow_contract && admin != usdc_asset && invoice_contract
                        != escrow_contract && invoice_contract != usdc_asset && escrow_contract
                        != usdc_asset)
                },
            },
    {
        if self.config.is_some() {
            return Err(PoolError::AlreadyInitialized);
        }
        if admin == invoice_contract || admin == escrow_contract || admin == usdc_asset
            || invoice_contract == escrow_contract || invoice_contract == usdc_asset
            || escrow_contract == usdc_asset {
            return Err(PoolError::InvalidConfiguration);
        }
        self.config = Some(PoolConfig { admin, invoice_contract, escrow_contract, usdc_asset });
        self.max_utilization_bps = DEFAULT_MAX_UTILIZATION_BPS;
        Ok(())
    }

    /// The configuration, if initialized.
    pub fn get_config(&self) -> (r: Option<PoolConfig>)
        ensures
            r == self@.config,
    {
        self.config
    }

    /// The pool contract's own address.
    pub fn address(&self) -> (a: Addr)
        ensures
            a == self@.this,
    {
        self.this
    }

    /// The USDC asset of the pool.
    pub fn get_usdc_asset(&self) -> (r: Result<Addr, PoolError>)
        ensures
            match r {
                Ok(a) => self@.config is Some && a == self@.config.unwrap().usdc_asset,
                Err(e) => self@.config is None && e == PoolError::NotInitialized,
            },
    {
        match self.config {
            Some(c) => Ok(c.usdc_asset),
            None => Err(PoolError::NotInitialized),
        }
    }

    /// Sets the utilization cap; only the admin may.
    pub fn set_max_utilization(&mut self, caller: Addr, new_cap_bps: u32) -> (r: Result<(), PoolError>)
        requires
            old(self).wf(),
        ensures
            final(self).wf(),
            match r {
                Ok(()) => {
                    &&& old(self)@.config is Some
                    &&& caller == old(self)@.config.unwrap().admin
                    &&& new_cap_bps <= 10000
                    &&& final(self)@ == (PoolLedger { max_utilization_bps: new_cap_bps, ..old(self)@ })
                },
                Err(e) => final(self)@ == old(self)@ && if old(self)@.config is None {
                    e == PoolError::NotInitialized
                } else if caller != old(self)@.config.unwrap().admin {
                    e == PoolError::NotAuthorized
                } else {
                    new_cap_bps > 10000 && e == PoolError::InvalidAmount
                },
            },
    {
        let c = match self.config {
            Some(c) => c,
            None => {
                return Err(PoolError::NotInitialized);
            },
        };
        if caller != c.admin {
            return Err(PoolError::NotAuthorized);
        }
        if new_cap_bps > 10000 {
            return Err(PoolError::InvalidAmount);
        }
        self.max_utilization_bps = new_cap_bps;
        Ok(())
    }

    fn account(&self, lp: &Addr) -> (a: LpAccount)
        requires
            self.wf(),
        ensures
            a == account_of(self@, *lp),
    {
        match self.accounts.get(lp) {
            Some(a) => *a,
            None => LpAccount { shares: 0, deposit_count: 0, yield_earned: 0, initial_deposit: 0 },
        }
    }

    proof fn lemma_account_bounded(&self, lp: Addr)
        requires
            self.wf(),
        ensures
            account_of(self@, lp).shares <= self@.total_shares,
    {
        if self@.accounts.contains_key(lp) {
            lemma_map_sum_bounds_term(self@.accounts, shares_term(), lp);
        }
    }

    /// Deposits `usdc_amount` from `lp` for freshly minted shares; returns
    /// the shares minted (never zero) and the transfer into the pool.
    pub fn deposit(&mut self, lp: Addr, usdc_amount: u128) -> (r: Result<(u128, Transfer), PoolError>)
        requires
            old(self).wf(),
        ensures
            final(self).wf(),
            match r {
                Ok((shares, t)) => {
                    &&& deposit_error(old(self)@, lp, usdc_amount) is None
                    &&& shares == minted_shares(old(self)@, usdc_amount)
                    &&& shares > 0
                    &&& t == (Transfer {
                        token: old(self)@.config.unwrap().usdc_asset,
                        from: lp,
                        to: old(self)@.this,
                        amount: usdc_amount,
                    })
                    &&& final(self)@ == after_deposit(old(self)@, lp, usdc_amount)
                },
                Err(e) => deposit_error(old(self)@, lp, usdc_amount) == Some(e) && final(self)@
                    == old(self)@,
            },
    {
        let c = match self.config {
            Some(c) => c,
            None => {
                return Err(PoolError::NotInitialized);
            },
        };
        if usdc_amount == 0 {
            return Err(PoolError::InvalidAmount);
        }
        let empty = self.total_shares == 0 || self.total_deposits == 0;
        let minted: u128 = if empty {
            if usdc_amount < MIN_INITIAL_DEPOSIT {
                return Err(PoolError::InvalidAmount);
            }
            usdc_amount
        } else {
            match usdc_amount.checked_mul(self.total_shares) {
                Some(p) => p / self.total_deposits,
                None => {
                    return Err(PoolError::MathOverflow);
                },
            }
        };
        if minted == 0 {
            return Err(PoolError::MinimumDeposit);
        }
        let new_total_shares = match self.total_shares.checked_add(minted) {
            Some(x) => x,
            None => {
                return Err(PoolError::MathOverflow);
            },
        };
        let new_total_deposits = match self.total_deposits.checked_add(usdc_amount) {
            Some(x) => x,
            None => {
                return Err(PoolError::MathOverflow);
            },
        };
        let acct = self.account(&lp);
        if acct.deposit_count == u32::MAX {
            return Err(PoolError::MathOverflow);
        }
        let new_initial = match acct.initial_deposit.checked_add(usdc_amount) {
            Some(x) => x,
            None => {
                return Err(PoolError::MathOverflow);
            },
        };
        proof {
            self.lemma_account_bounded(lp);
        }
        let new_acct = LpAccount {
            shares: acct.shares + minted,
            deposit_count: acct.deposit_count + 1,
            initial_deposit: new_initial,
            yield_earned: acct.yield_earned,
        };
        let ghost old_accounts = self@.accounts;
        self.accounts.insert(lp, new_acct);
        self.total_shares = new_total_shares;
        self.total_deposits = new_total_deposits;
        proof {
            lemma_map_sum_insert(old_accounts, shares_term(), lp, new_acct);
            self.accounts.lemma_dom_finite();
            assert(self@ =~= after_deposit(old(self)@, lp, usdc_amount));
        }
        Ok((minted, Transfer { token: c.usdc_asset, from: lp, to: self.this, amount: usdc_amount }))
    }

    /// Redeems `shares` of `lp` at the current share price; returns the USDC
    /// paid out and the transfer out of the pool.
    pub fn withdraw(&mut self, lp: Addr, shares: u128) -> (r: Result<(u128, Transfer), PoolError>)
        requires
            old(self).wf(),
        ensures
            final(self).wf(),
            match r {
                Ok((paid, t)) => {
                    &&& withdraw_error(old(self)@, lp, shares) is None
                    &&& paid == share_value(old(self)@, shares)
                    &&& paid <= available(old(self)@)
                    &&& t == (Transfer {
                        token: old(self)@.config.unwrap().usdc_asset,
                        from: old(self)@.this,
                        to: lp,
                        amount: paid,
                    })
                    &&& final(self)@ == after_withdraw(old(self)@, lp, shares)
                },
                Err(e) => withdraw_error(old(self)@, lp, shares) == Some(e) && final(self)@ == old(self)@,
            },
    {
        let c = match self.config {
            Some(c) => c,
            None => {
                return Err(PoolError::NotInitialized);
            },
        };
        if shares == 0 {
            return Err(PoolError::InvalidAmount);
        }
        let acct = self.account(&lp);
        if shares > acct.shares {
            return Err(PoolError::InsufficientShares);
        }
        proof {
            self.lemma_account_bounded(lp);
        }
        let paid = match shares.checked_mul(self.total_deposits) {
            Some(p) => p / self.total_shares,
            None => {
                return Err(PoolError::MathOverflow);
            },
        };
        let avail = self.total_deposits - self.total_funded;
        if paid > avail {
            return Err(PoolError::InsufficientLiquidity);
        }
        let principal = match acct.initial_deposit.checked_mul(shares) {
            Some(p) => p / acct.shares,
            None => {
                return Err(PoolError::MathOverflow);
            },
        };
        let y: u128 = if paid > principal {
            paid - principal
        } else {
            0
        };
        let new_yield = match acct.yield_earned.checked_add(y) {
            Some(x) => x,
            None => {
                return Err(PoolError::MathOverflow);
            },
        };
        proof {
            assert(principal <= acct.initial_deposit) by (nonlinear_arith)
                requires
                    principal == acct.initial_deposit * shares / (acct.shares as int),
                    shares <= acct.shares,
                    acct.shares > 0,
            ;
        }
        let new_acct = if shares == acct.shares {
            LpAccount { shares: 0, deposit_count: 0, initial_deposit: 0, yield_earned: new_yield }
        } else {
            LpAccount {
                shares: acct.shares - shares,
                deposit_count: acct.deposit_count,
                initial_deposit: acct.initial_deposit - principal,
                yield_earned: new_yield,
            }
        };
        let ghost old_accounts = self@.accounts;
        self.accounts.insert(lp, new_acct);
        self.total_shares = self.total_shares - shares;
        self.total_deposits = self.total_deposits - paid;
        proof {
            lemma_map_sum_insert(old_accounts, shares_term(), lp, new_acct);
            self.accounts.lemma_dom_finite();
            assert(self@ =~= after_withdraw(old(self)@, lp, shares));
        }
        Ok((paid, Transfer { token: c.usdc_asset, from: self.this, to: lp, amount: paid }))
    }

    /// Why `fund_invoice` would refuse these terms, or the amount it would
    /// fund; nothing changes.
    pub fn fund_check(
        &self,
        invoice_id: InvoiceId,
        status: u32,
        face_value: u128,
        discount_bps: u32,
        funding_asset: Addr,
    ) -> (r: Result<u128, PoolError>)
        requires
            self.wf(),
        ensures
            match r {
                Ok(amount) => fund_error(self@, invoice_id, status, face_value, discount_bps, funding_asset)
                    is None && amount == funded_amount_of(face_value, discount_bps),
                Err(e) => fund_error(self@, invoice_id, status, face_value, discount_bps, funding_asset)
                    == Some(e),
            },
    {
        let c = match self.config {
            Some(c) => c,
            None => {
                return Err(PoolError::NotInitialized);
            },
        };
        if status != 1 {
            return Err(PoolError::InvoiceNotListed);
        }
        if funding_asset != c.usdc_asset {
            return Err(PoolError::AssetMismatch);
        }
        if self.funded.contains_key(&invoice_id) {
            return Err(PoolError::AlreadyFunded);
        }
        if discount_bps > 10000 {
            return Err(PoolError::MathOverflow);
        }
        let kept: u128 = 10000 - discount_bps as u128;
        let amount = match face_value.checked_mul(kept) {
            Some(p) => p / 10000,
            None => {
                return Err(PoolError::MathOverflow);
            },
        };
        if amount == 0 {
            return Err(PoolError::InvalidFundedAmount);
        }
        let avail = self.total_deposits - self.total_funded;
        if amount > avail {
            return Err(PoolError::InsufficientLiquidity);
        }
        let new_total_funded = self.total_funded + amount;
        let scaled = match new_total_funded.checked_mul(10000) {
            Some(x) => x,
            None => {
                return Err(PoolError::MathOverflow);
            },
        };
        if scaled / self.total_deposits > self.max_utilization_bps as u128 {
            return Err(PoolError::UtilizationCapExceeded);
        }
        if self.active_invoice_count == u32::MAX {
            return Err(PoolError::MathOverflow);
        }
        Ok(amount)
    }

    /// Why settling the repayment of `invoice_id` would be refused, without
    /// changing anything.
    pub fn repayment_check(&self, invoice_id: InvoiceId, amount: u128, refund: u128) -> (r: Option<
        PoolError,
    >)
        requires
            self.wf(),
        ensures
            r == repayment_error(self@, invoice_id, amount, refund),
    {
        if self.config.is_none() {
            return Some(PoolError::NotInitialized);
        }
        let funded = match self.funded.get(&invoice_id) {
            Some(x) => *x,
            None => {
                return Some(PoolError::InvoiceNotFound);
            },
        };
        if amount < funded {
            return Some(PoolError::InvalidAmount);
        }
        if refund > amount - funded {
            return Some(PoolError::InvalidRefund);
        }
        let yield_amount = amount - funded - refund;
        if self.total_deposits.checked_add(yield_amount).is_none()
            || self.total_yield_distributed.checked_add(yield_amount).is_none() {
            return Some(PoolError::MathOverflow);
        }
        None
    }

    /// Why `handle_default` would refuse, without changing anything.
    pub fn default_check(&self, invoice_id: InvoiceId) -> (r: Option<PoolError>)
        requires
            self.wf(),
        ensures
            r == default_error(self@, invoice_id),
    {
        if self.config.is_none() {
            return Some(PoolError::NotInitialized);
        }
        let funded = match self.funded.get(&invoice_id) {
            Some(x) => *x,
            None => {
                return Some(PoolError::InvoiceNotFound);
            },
        };
        if self.total_loss_realised.checked_add(funded).is_none() {
            return Some(PoolError::MathOverflow);
        }
        None
    }

    /// Funds the listed invoice `invoice_id`, given the invoice's status code,
    /// face value, discount and funding asset as the invoice contract reports
    /// them. Returns what the funding sets in motion.
    pub fn fund_invoice(
        &mut self,
        invoice_id: InvoiceId,
        status: u32,
        face_value: u128,
        discount_bps: u32,
        funding_asset: Addr,
    ) -> (r: Result<Funding, PoolError>)
        requires
            old(self).wf(),
        ensures
            final(self).wf(),
            match r {
                Ok(f) => {
                    let c = old(self)@.config.unwrap();
                    let amount = funded_amount_of(face_value, discount_bps);
                    &&& fund_error(old(self)@, invoice_id, status, face_value, discount_bps, funding_asset)
                        is None
                    &&& f == (Funding {
                        escrow: c.escrow_contract,
                        invoice_contract: c.invoice_contract,
                        asset: c.usdc_asset,
                        amount: amount as u128,
                    })
                    &&& final(self)@ == after_fund(old(self)@, invoice_id, amount as u128)
                },
                Err(e) => fund_error(
                    old(self)@,
                    invoice_id,
                    status,
                    face_value,
                    discount_bps,
                    funding_asset,
                ) == Some(e) && final(self)@ == old(self)@,
            },
    {
        let amount = match self.fund_check(invoice_id, status, face_value, discount_bps, funding_asset) {
            Ok(a) => a,
            Err(e) => {
                return Err(e);
            },
        };
        let c = match self.config {
            Some(c) => c,
            None => {
                return Err(PoolError::NotInitialized);
            },
        };
        let new_total_funded = self.total_funded + amount;
        let ghost old_funded = self@.funded;
        self.funded.insert(invoice_id, amount);
        self.total_funded = new_total_funded;
        self.active_invoice_count = self.active_invoice_count + 1;
        proof {
            lemma_map_sum_insert(old_funded, amount_term(), invoice_id, amount);
            self.funded.lemma_dom_finite();
            assert(self@.funded.dom() =~= old_funded.dom().insert(invoice_id));
            assert(self@ =~= after_fund(old(self)@, invoice_id, amount));
        }
        Ok(
            Funding {
                escrow: c.escrow_contract,
                invoice_contract: c.invoice_contract,
                asset: c.usdc_asset,
                amount,
            },
        )
    }

    /// Removes `id` from the funded invoices, keeping the invariant's sums.
    proof fn lemma_settle(&self, id: InvoiceId)
        requires
            self.wf(),
            self@.funded.contains_key(id),
        ensures
            self@.funded[id] <= self@.total_funded,
            self@.active_invoice_count >= 1,
            map_sum(self@.funded.remove(id), amount_term()) == self@.total_funded
                - self@.funded[id],
            self@.funded.remove(id).dom().len() == self@.active_invoice_count - 1,
    {
        lemma_map_sum_remove(self@.funded, amount_term(), id);
        lemma_map_sum_nonneg(self@.funded.remove(id), amount_term());
        vstd::set_lib::lemma_set_empty_equivalency_len(self@.funded.dom());
    }

    /// Settles the repayment of `invoice_id` with `amount`, `refund` of which
    /// goes back to `buyer`; the rest above the funded amount is yield.
    /// Returns the yield booked and the refund transfer, if any.
    pub fn receive_repayment_with_refund(
        &mut self,
        invoice_id: InvoiceId,
        amount: u128,
        refund: u128,
        buyer: Addr,
    ) -> (r: Result<(u128, Option<Transfer>), PoolError>)
        requires
            old(self).wf(),
        ensures
            final(self).wf(),
            match r {
                Ok((yield_amount, t)) => {
                    &&& repayment_error(old(self)@, invoice_id, amount, refund) is None
                    &&& yield_amount == amount - old(self)@.funded[invoice_id] - refund
                    &&& t == if refund > 0 {
                        Some(
                            Transfer {
                                token: old(self)@.config.unwrap().usdc_asset,
                                from: old(self)@.this,
                                to: buyer,
                                amount: refund,
                            },
                        )
                    } else {
                        None
                    }
                    &&& final(self)@ == after_repayment(old(self)@, invoice_id, yield_amount as int)
                },
                Err(e) => repayment_error(old(self)@, invoice_id, amount, refund) == Some(e) && final(self)@ == old(self)@,
            },
    {
        let c = match self.config {
            Some(c) => c,
            None => {
                return Err(PoolError::NotInitialized);
            },
        };
        let funded = match self.funded.get(&invoice_id) {
            Some(x) => *x,
            None => {
                return Err(PoolError::InvoiceNotFound);
            },
        };
        if amount < funded {
            return Err(PoolError::InvalidAmount);
        }
        if refund > amount - funded {
            return Err(PoolError::InvalidRefund);
        }
        let yield_amount = amount - funded - refund;
        let new_deposits = match self.total_deposits.checked_add(yield_amount) {
            Some(x) => x,
            None => {
                return Err(PoolError::MathOverflow);
            },
        };
        let new_yield_total = match self.total_yield_distributed.checked_add(yield_amount) {
            Some(x) => x,
            None => {
                return Err(PoolError::MathOverflow);
            },
        };
        proof {
            self.lemma_settle(invoice_id);
        }
        self.funded.remove(&invoice_id);
        self.total_funded = self.total_funded - funded;
        self.total_deposits = new_deposits;
        self.total_yield_distributed = new_yield_total;
        self.active_invoice_count = self.active_invoice_count - 1;
        proof {
            self.funded.lemma_dom_finite();
            assert(self@ =~= after_repayment(old(self)@, invoice_id, yield_amount as int));
        }
        let t = if refund > 0 {
            Some(Transfer { token: c.usdc_asset, from: self.this, to: buyer, amount: refund })
        } else {
            None
        };
        Ok((yield_amount, t))
    }

    /// Settles the repayment of `invoice_id` with `amount`; everything above
    /// the funded amount is yield. Returns the yield booked.
    pub fn receive_repayment(&mut self, invoice_id: InvoiceId, amount: u128) -> (r: Result<u128, PoolError>)
        requires
            old(self).wf(),
        ensures
            final(self).wf(),
            match r {
                Ok(yield_amount) => {
                    &&& repayment_error(old(self)@, invoice_id, amount, 0) is None
                    &&& yield_amount == amount - old(self)@.funded[invoice_id]
                    &&& final(self)@ == after_repayment(old(self)@, invoice_id, yield_amount as int)
                },
                Err(e) => repayment_error(old(self)@, invoice_id, amount, 0) == Some(e) && final(self)@ == old(self)@,
            },
    {
        match self.receive_repayment_with_refund(invoice_id, amount, 0, self.this) {
            Ok((y, _)) => Ok(y),
            Err(e) => Err(e),
        }
    }

    /// Writes off the funded amount of a defaulted invoice against the
    /// deposits; shares are left untouched. Returns the loss.
    pub fn handle_default(&mut self, invoice_id: InvoiceId) -> (r: Result<u128, PoolError>)
        requires
            old(self).wf(),
        ensures
            final(self).wf(),
            match r {
                Ok(loss) => {
                    &&& default_error(old(self)@, invoice_id) is None
                    &&& loss == old(self)@.funded[invoice_id]
                    &&& final(self)@ == after_default(old(self)@, invoice_id)
                },
                Err(e) => default_error(old(self)@, invoice_id) == Some(e) && final(self)@ == old(self)@,
            },
    {
        if self.config.is_none() {
            return Err(PoolError::NotInitialized);
        }
        let funded = match self.funded.get(&invoice_id) {
            Some(x) => *x,
            None => {
                return Err(PoolError::InvoiceNotFound);
            },
        };
        let new_loss = match self.total_loss_realised.checked_add(funded) {
            Some(x) => x,
            None => {
                return Err(PoolError::MathOverflow);
            },
        };
        proof {
            self.lemma_settle(invoice_id);
        }
        self.funded.remove(&invoice_id);
        self.total_funded = self.total_funded - funded;
        self.total_deposits = self.total_deposits - funded;
        self.total_loss_realised = new_loss;
        self.active_invoice_count = self.active_invoice_count - 1;
        proof {
            self.funded.lemma_dom_finite();
            assert(self@ =~= after_default(old(self)@, invoice_id));
        }
        Ok(funded)
    }

    /// Utilization in basis points.
    fn utilization_rate(&self) -> (r: Result<u32, PoolError>)
        requires
            self.wf(),
        ensures
            match r {
                Ok(u) => self@.total_funded * 10000 <= u128::MAX && u == utilization(self@) && u
                    <= 10000,
                Err(e) => self@.total_funded * 10000 > u128::MAX && e == PoolError::MathOverflow,
            },
    {
        let scaled = match self.total_funded.checked_mul(10000) {
            Some(x) => x,
            None => {
                return Err(PoolError::MathOverflow);
            },
        };
        if self.total_deposits == 0 {
            return Ok(0);
        }
        let u = scaled / self.total_deposits;
        proof {
            let f = self.total_funded as int;
            let d = self.total_deposits as int;
            assert(f * 10000 / d <= 10000) by (nonlinear_arith)
                requires
                    f <= d,
                    d > 0,
                    f >= 0,
            ;
        }
        Ok(u as u32)
    }

    /// Utilization in basis points (0 when nothing is deposited).
    pub fn get_utilization_rate(&self) -> (r: Result<u32, PoolError>)
        requires
            self.wf(),
        ensures
            match r {
                Ok(u) => self@.config is Some && self@.total_funded * 10000 <= u128::MAX && u
                    == utilization(self@),
                Err(e) => if self@.config is None {
                    e == PoolError::NotInitialized
                } else {
                    self@.total_funded * 10000 > u128::MAX && e == PoolError::MathOverflow
                },
            },
    {
        if self.config.is_none() {
            return Err(PoolError::NotInitialized);
        }
        self.utilization_rate()
    }

    /// Pool-wide figures.
    pub fn get_stats(&self) -> (r: Result<PoolStats, PoolError>)
        requires
            self.wf(),
        ensures
            match r {
                Ok(s) => {
                    &&& self@.config is Some
                    &&& self@.total_funded * 10000 <= u128::MAX
                    &&& s == (PoolStats {
                        total_deposits: self@.total_deposits,
                        total_shares: self@.total_shares,
                        total_funded: self@.total_funded,
                        total_yield_distributed: self@.total_yield_distributed,
                        total_loss_realised: self@.total_loss_realised,
                        active_invoice_count: self@.active_invoice_count,
                        available_liquidity: available(self@) as u128,
                        utilization_rate_bps: utilization(self@) as u32,
                        max_utilization_bps: self@.max_utilization_bps,
                    })
                },
                Err(e) => if self@.config is None {
                    e == PoolError::NotInitialized
                } else {
                    self@.total_funded * 10000 > u128::MAX && e == PoolError::MathOverflow
                },
            },
    {
        if self.config.is_none() {
            return Err(PoolError::NotInitialized);
        }
        let u = match self.utilization_rate() {
            Ok(u) => u,
            Err(e) => {
                return Err(e);
            },
        };
        Ok(
            PoolStats {
                total_deposits: self.total_deposits,
                total_shares: self.total_shares,
                total_funded: self.total_funded,
                total_yield_distributed: self.total_yield_distributed,
                total_loss_realised: self.total_loss_realised,
                active_invoice_count: self.active_invoice_count,
                available_liquidity: self.total_deposits - self.total_funded,
                utilization_rate_bps: u,
                max_utilization_bps: self.max_utilization_bps,
            },
        )
    }

    /// The position of `lp`: its shares, their current USDC value, realised
    /// yield and deposit count.
    pub fn get_lp_position(&self, lp: Addr) -> (r: Result<LPPosition, PoolError>)
        requires
            self.wf(),
        ensures
            match r {
                Ok(p) => {
                    let a = account_of(self@, lp);
                    &&& a.shares * self@.total_deposits <= u128::MAX
                    &&& p == (LPPosition {
                        shares: a.shares,
                        usdc_value: share_value(self@, a.shares) as u128,
                        yield_earned: a.yield_earned,
                        deposit_count: a.deposit_count,
                    })
                },
                Err(e) => account_of(self@, lp).shares * self@.total_deposits > u128::MAX && e
                    == PoolError::MathOverflow,
            },
    {
        let a = self.account(&lp);
        let scaled = match a.shares.checked_mul(self.total_deposits) {
            Some(x) => x,
            None => {
                return Err(PoolError::MathOverflow);
            },
        };
        let value = if self.total_shares == 0 {
            0
        } else {
            scaled / self.total_shares
        };
        Ok(
            LPPosition {
                shares: a.shares,
                usdc_value: value,
                yield_earned: a.yield_earned,
                deposit_count: a.deposit_count,
            },
        )
    }
}

impl PoolContract {
    /// Every reachable pool keeps its invariant: the share supply is the sum
    /// of the LPs' shares, deployed capital is the sum of the funded amounts
    /// and never exceeds the deposits, and one active invoice is counted per
    /// funded invoice.
    pub proof fn lemma_pool_invariant(&self)
        requires
            self.wf(),
        ensures
            pool_inv(self@),
    {
    }
}

/// Depositing and at once redeeming the minted shares never returns more
/// than was deposited: share pricing rounds in the pool's favour.
pub proof fn law_deposit_then_redeem_gains_nothing(l: PoolLedger, lp: Addr, amount: u128)
    requires
        pool_inv(l),
        deposit_error(l, lp, amount) is None,
        !(l.total_shares == 0 && l.total_deposits > 0),
    ensures
        share_value(after_deposit(l, lp, amount), minted_shares(l, amount) as u128) <= amount,
{
    let s = l.total_shares as int;
    let d = l.total_deposits as int;
    let a = amount as int;
    let m = minted_shares(l, amount);
    let l2 = after_deposit(l, lp, amount);
    assert(l2.total_shares == s + m);
    assert(l2.total_deposits == d + a);
    assert(m > 0);
    if is_empty_pool(l) {
        assert(m == a);
        assert(d == 0);
        assert(a * a / (s + a) <= a) by (nonlinear_arith)
            requires
                a > 0,
                s >= 0,
        ;
    } else {
        assert(m * d <= a * s) by (nonlinear_arith)
            requires
                m == a * s / d,
                d > 0,
                a >= 0,
                s >= 0,
        ;
        assert(m * (d + a) / (s + m) <= a) by (nonlinear_arith)
            requires
                m * d <= a * s,
                m > 0,
                s >= 0,
                a >= 0,
                d >= 0,
        ;
    }
}

/// A repayment never lowers the value of any holding of shares: yield raises
/// the deposits while the share supply stays the same.
pub proof fn law_repayment_never_lowers_share_value(
    l: PoolLedger,
    id: InvoiceId,
    yield_amount: int,
    shares: u128,
)
    requires
        pool_inv(l),
        l.funded.contains_key(id),
        yield_amount >= 0,
        l.total_deposits + yield_amount <= u128::MAX,
    ensures
        after_repayment(l, id, yield_amount).total_shares == l.total_shares,
        after_repayment(l, id, yield_amount).accounts == l.accounts,
        share_value(after_repayment(l, id, yield_amount), shares) >= share_value(l, shares),
{
    let l2 = after_repayment(l, id, yield_amount);
    if l.total_shares > 0 {
        let s = l.total_shares as int;
        let d = l.total_deposits as int;
        let d2 = l2.total_deposits as int;
        assert(d2 == d + yield_amount);
        assert(shares * d2 / s >= shares * d / s) by (nonlinear_arith)
            requires
                d2 >= d,
                s > 0,
                shares >= 0,
                d >= 0,
        ;
    }
}

/// A default writes the funded amount off the deposits and leaves every
/// LP's shares, and the share supply, untouched.
pub proof fn law_default_keeps_shares(l: PoolLedger, id: InvoiceId)
    requires
        pool_inv(l),
        default_error(l, id) is None,
    ensures
        after_default(l, id).total_shares == l.total_shares,
        after_default(l, id).accounts == l.accounts,
        after_default(l, id).total_deposits == l.total_deposits - l.funded[id],
        after_default(l, id).total_loss_realised == l.total_loss_realised + l.funded[id],
{
    lemma_map_sum_bounds_term(l.funded, amount_term(), id);
}

/// Funding never takes utilization above the cap, and never deploys more
/// than is deposited.
pub proof fn law_funding_respects_cap(
    l: PoolLedger,
    id: InvoiceId,
    status: u32,
    face_value: u128,
    discount_bps: u32,
    asset: Addr,
)
    requires
        pool_inv(l),
        fund_error(l, id, status, face_value, discount_bps, asset) is None,
    ensures
        utilization(after_fund(l, id, funded_amount_of(face_value, discount_bps) as u128))
            <= l.max_utilization_bps,
        after_fund(l, id, funded_amount_of(face_value, discount_bps) as u128).total_funded
            <= l.total_deposits,
{
}

/// Into an empty pool (no shares or no deposits), a first deposit must be at
/// least 10_000_000 (one USDC) and mints exactly as many shares as it
/// deposits; into a pool with deposits, a deposit mints
/// `amount * total_shares / total_deposits` shares.
pub proof fn law_deposit_minimum_and_share_price(l: PoolLedger, lp: Addr, amount: u128)
    requires
        l.config is Some,
    ensures
        (l.total_shares == 0 || l.total_deposits == 0) && 0 < amount < 10_000_000 ==> deposit_error(
            l,
            lp,
            amount,
        ) == Some(PoolError::InvalidAmount),
        (l.total_shares == 0 || l.total_deposits == 0) && amount >= 10_000_000 && l.total_shares
            + amount <= u128::MAX && l.total_deposits + amount <= u128::MAX && account_of(
            l,
            lp,
        ).deposit_count < u32::MAX && account_of(l, lp).initial_deposit + amount <= u128::MAX
            ==> deposit_error(l, lp, amount) is None,
        (l.total_shares == 0 || l.total_deposits == 0) ==> minted_shares(l, amount) == amount,
        l.total_shares > 0 && l.total_deposits > 0 ==> minted_shares(l, amount) == amount
            * l.total_shares / (l.total_deposits as int),
{
}

/// The utilization cap refuses exactly the fundings whose resulting
/// utilization, `(total_funded + advance) * 10000 / total_deposits` with the
/// advance `face_value * (10000 - discount_bps) / 10000`, exceeds the cap:
/// a funding refused for the cap is over it, and a funding that passes
/// every other check and stays within the cap is accepted.
pub proof fn law_cap_refuses_exactly_what_exceeds_it(
    l: PoolLedger,
    id: InvoiceId,
    face_value: u128,
    discount_bps: u32,
    asset: Addr,
)
    ensures
        fund_error(l, id, 1, face_value, discount_bps, asset) == Some(PoolError::UtilizationCapExceeded)
            ==> (l.total_funded + face_value * (10000 - discount_bps) / 10000) * 10000
            / (l.total_deposits as int) > l.max_utilization_bps,
        ({
            let advance = face_value * (10000 - discount_bps) / 10000;
            &&& l.config is Some
            &&& asset == l.config.unwrap().usdc_asset
            &&& !l.funded.contains_key(id)
            &&& discount_bps <= 10000
            &&& face_value * (10000 - discount_bps) <= u128::MAX
            &&& advance > 0
            &&& l.total_funded + advance <= l.total_deposits
            &&& (l.total_funded + advance) * 10000 <= u128::MAX
            &&& (l.total_funded + advance) * 10000 / (l.total_deposits as int) <= l.max_utilization_bps
            &&& l.active_invoice_count < u32::MAX
        }) ==> fund_error(l, id, 1, face_value, discount_bps, asset) is None,
{
}

/// An invoice is funded at most once: after funding it, every further
/// funding request for it is refused, whatever the invoice reports.
pub proof fn law_no_double_funding(
    l: PoolLedger,
    id: InvoiceId,
    status: u32,
    face_value: u128,
    discount_bps: u32,
    asset: Addr,
    status2: u32,
    face_value2: u128,
    discount_bps2: u32,
    asset2: Addr,
)
    requires
        pool_inv(l),
        fund_error(l, id, status, face_value, discount_bps, asset) is None,
    ensures
        fund_error(
            after_fund(l, id, funded_amount_of(face_value, discount_bps) as u128),
            id,
            status2,
            face_value2,
            discount_bps2,
            asset2,
        ) is Some,
{
}

/// An invoice is settled at most once: after its repayment or its default,
/// neither a repayment nor a default of it is accepted again.
pub proof fn law_settled_at_most_once(
    l: PoolLedger,
    id: InvoiceId,
    yield_amount: int,
    amount: u128,
    refund: u128,
)
    requires
        pool_inv(l),
        l.config is Some,
        l.funded.contains_key(id),
    ensures
        repayment_error(after_repayment(l, id, yield_amount), id, amount, refund) == Some(
            PoolError::InvoiceNotFound,
        ),
        default_error(after_repayment(l, id, yield_amount), id) == Some(PoolError::InvoiceNotFound),
        repayment_error(after_default(l, id), id, amount, refund) == Some(PoolError::InvoiceNotFound),
        default_error(after_default(l, id), id) == Some(PoolError::InvoiceNotFound),
{
}

} // verus!
