use std::collections::HashMap;
use trusttrove::escrow::{EscrowAction, Transfer};
use trusttrove::ids::{Addr, InvoiceId};
use trusttrove::invoice::{InvoiceError, InvoiceStatus};
use trusttrove::pool::{
    LPPosition, PoolContract, PoolError, PoolStats, DEFAULT_MAX_UTILIZATION_BPS, MIN_INITIAL_DEPOSIT,
};
use trusttrove::protocol::{Protocol, ProtocolError};

const DEFAULT_FACE_VALUE: u128 = 10_000_000_000;
const DEFAULT_DISCOUNT_BPS: u32 = 200;
const DEFAULT_FUNDED_AMOUNT: u128 = DEFAULT_FACE_VALUE * (10000 - DEFAULT_DISCOUNT_BPS as u128) / 10000;
const DEFAULT_YIELD_AMOUNT: u128 = DEFAULT_FACE_VALUE * DEFAULT_DISCOUNT_BPS as u128 / 10000;

/// The contract that refused a request, with its error.
type Fail = ProtocolError;

/// Registry, invoice, escrow and pool wired together as deployed, with the
/// token balances their transfers move and a ledger clock.
struct World {
    now: u64,
    p: Protocol,
    balances: HashMap<(u64, u64), i128>,
    next_addr: u64,
    admin: Addr,
    issuer: Addr,
    buyer: Addr,
    lp: Addr,
    usdc_id: Addr,
    xlm_id: Addr,
    invoice_id: Addr,
    escrow_id: Addr,
    pool_id: Addr,
}

fn enc(a: Addr) -> Vec<u8> {
    a.0.to_be_bytes().to_vec()
}

impl World {
    fn generate(&mut self) -> Addr {
        self.next_addr += 1;
        Addr(self.next_addr)
    }

    fn balance(&self, token: Addr, holder: Addr) -> i128 {
        *self.balances.get(&(token.0, holder.0)).unwrap_or(&0)
    }

    fn set_balance(&mut self, token: Addr, holder: Addr, amount: i128) {
        self.balances.insert((token.0, holder.0), amount);
    }

    fn apply(&mut self, t: &Transfer) {
        let amount = t.amount as i128;
        *self.balances.entry((t.token.0, t.from.0)).or_insert(0) -= amount;
        *self.balances.entry((t.token.0, t.to.0)).or_insert(0) += amount;
    }

    fn create_lp_with_balance(&mut self, balance: i128) -> Addr {
        let lp = self.generate();
        let usdc = self.usdc_id;
        self.set_balance(usdc, lp, balance);
        lp
    }

    fn deposit(&mut self, lp: Addr, amount: u128) -> Result<u128, Fail> {
        let (shares, t) = self.p.pool.deposit(lp, amount).map_err(Fail::Pool)?;
        self.apply(&t);
        Ok(shares)
    }

    fn withdraw(&mut self, lp: Addr, shares: u128) -> Result<u128, Fail> {
        let (paid, t) = self.p.pool.withdraw(lp, shares).map_err(Fail::Pool)?;
        self.apply(&t);
        Ok(paid)
    }

    fn stats(&self) -> PoolStats {
        self.p.pool.get_stats().unwrap()
    }

    fn position(&self, lp: Addr) -> LPPosition {
        self.p.pool.get_lp_position(lp).unwrap()
    }

    fn status(&self, id: InvoiceId) -> u32 {
        self.p.invoice.get_status(id).unwrap()
    }

    fn create(&mut self, face_value: u128, due_date: u64, asset: Addr) -> Result<InvoiceId, Fail> {
        let (issuer, buyer) = (self.issuer, self.buyer);
        self.p
            .create_invoice(issuer, buyer, face_value, due_date, asset, self.now, &enc(issuer), &enc(buyer), &enc(asset))
            .map_err(Fail::Invoice)
    }

    fn create_and_list_with_params(&mut self, asset: Addr, face_value: u128, discount_bps: u32) -> InvoiceId {
        let due_date = self.now + 86400;
        let id = self.create(face_value, due_date, asset).unwrap();
        self.p.invoice.list_for_financing(id, discount_bps, self.now).unwrap();
        id
    }

    fn create_and_list(&mut self, asset: Addr) -> InvoiceId {
        self.create_and_list_with_params(asset, DEFAULT_FACE_VALUE, DEFAULT_DISCOUNT_BPS)
    }

    /// The pool's `fund_invoice`, with the transfer into escrow carried out.
    fn fund_invoice(&mut self, id: InvoiceId) -> Result<bool, Fail> {
        let (f, t) = self.p.fund_invoice(id, self.now)?;
        assert_eq!(f.escrow, self.escrow_id);
        self.apply(&t);
        Ok(true)
    }

    fn mark_shipped(&mut self, id: InvoiceId) {
        self.p.invoice.mark_shipped(id, self.now).unwrap();
    }

    fn confirm_delivery(&mut self, id: InvoiceId, who: Addr) -> bool {
        self.p.invoice.confirm_delivery(id, who).unwrap()
    }

    /// The invoice's `repay`, with the payment into escrow, its release to
    /// the pool and the refund carried out.
    fn repay(&mut self, id: InvoiceId) -> Result<bool, Fail> {
        let x = self.p.repay(id, self.now)?;
        self.apply(&x.payment);
        self.apply(&x.release);
        if let Some(r) = x.refund {
            self.apply(&r);
        }
        Ok(true)
    }

    /// The pool's `receive_repayment`, as the invoice contract calls it.
    fn receive_repayment(&mut self, id: InvoiceId, amount: u128) -> Result<bool, Fail> {
        self.p.pool.receive_repayment(id, amount).map_err(Fail::Pool)?;
        Ok(true)
    }

    /// The pool's `handle_default`, with the funds escrow returns carried
    /// back to the pool.
    fn pool_handle_default(&mut self, id: InvoiceId) -> Result<bool, Fail> {
        let (_, t) = self.p.handle_default(id, self.now)?;
        if let Some(t) = t {
            self.apply(&t);
        }
        Ok(true)
    }

    /// The invoice's `trigger_default`.
    fn trigger_default(&mut self, id: InvoiceId) -> Result<bool, Fail> {
        let (_, t) = self.p.trigger_default(id, self.now)?;
        if let Some(t) = t {
            self.apply(&t);
        }
        Ok(true)
    }

    fn fund_and_repay_invoice(&mut self) -> InvoiceId {
        let usdc = self.usdc_id;
        let id = self.create_and_list(usdc);
        let _ = self.fund_invoice(id);
        self.mark_shipped(id);
        let (issuer, buyer) = (self.issuer, self.buyer);
        self.confirm_delivery(id, issuer);
        self.confirm_delivery(id, buyer);
        self.now += 86401;
        self.repay(id).unwrap();
        id
    }
}

fn world_with_cap(cap: Option<u32>) -> World {
    let admin = Addr(1);
    let issuer = Addr(2);
    let buyer = Addr(3);
    let lp = Addr(4);
    let registry_id = Addr(10);
    let usdc_id = Addr(11);
    let xlm_id = Addr(12);
    let invoice_id = Addr(13);
    let escrow_id = Addr(14);
    let pool_id = Addr(15);
    let mut w = World {
        now: 0,
        p: Protocol::new(escrow_id, pool_id),
        balances: HashMap::new(),
        next_addr: 1000,
        admin,
        issuer,
        buyer,
        lp,
        usdc_id,
        xlm_id,
        invoice_id,
        escrow_id,
        pool_id,
    };
    w.p.registry.initialize(admin).unwrap();
    w.p.registry.register_issuer(issuer, Vec::new(), 0).unwrap();
    w.p.registry.register_buyer(buyer, Vec::new(), 0).unwrap();
    w.p.registry.verify_profile(issuer, true).unwrap();
    w.p.registry.verify_profile(buyer, true).unwrap();
    for who in [lp, buyer] {
        w.set_balance(usdc_id, who, 100_000_000_000_000i128);
        w.set_balance(xlm_id, who, 100_000_000_000_000i128);
    }
    w.p.invoice.initialize(admin, registry_id).unwrap();
    w.p.pool.initialize(admin, invoice_id, escrow_id, usdc_id).unwrap();
    w.p.escrow.initialize(admin, pool_id, invoice_id, usdc_id).unwrap();
    w.p.invoice.add_supported_asset(usdc_id).unwrap();
    w.p.invoice.add_supported_asset(xlm_id).unwrap();
    w.p.invoice.set_pool_contract(pool_id).unwrap();
    w.p.invoice.set_escrow_contract(escrow_id).unwrap();
    if let Some(c) = cap {
        w.p.pool.set_max_utilization(admin, c).unwrap();
    }
    w
}

/// The pool test setup: everything wired, the cap raised to 100%.
fn setup() -> World {
    world_with_cap(Some(10000))
}

// ---------------------------------------------------------------- deposits

#[test]
fn test_first_deposit_issues_one_to_one_shares() {
    let mut te = setup();
    let lp = te.lp;
    let shares = te.deposit(lp, 5_000_000_000).unwrap();
    assert_eq!(shares, 5_000_000_000);
    let pos = te.position(lp);
    assert_eq!(pos.shares, 5_000_000_000);
    assert_eq!(pos.deposit_count, 1);
}

#[test]
fn test_second_deposit_issues_proportional_shares() {
    let mut te = setup();
    let lp = te.lp;
    te.deposit(lp, 10_000_000_000).unwrap();
    let shares = te.deposit(lp, 5_000_000_000).unwrap();
    assert_eq!(shares, 5_000_000_000);
    let pos = te.position(lp);
    assert_eq!(pos.shares, 15_000_000_000);
    assert_eq!(pos.deposit_count, 2);
}

#[test]
fn test_second_deposit_scales_by_share_price() {
    let mut te = setup();
    let lp = te.lp;
    te.deposit(lp, 10_000_000_000).unwrap();
    let shares = te.deposit(lp, 5_000_000_000).unwrap();
    assert_eq!(shares, 5_000_000_000);
    let pos = te.position(lp);
    assert_eq!(pos.shares, 15_000_000_000);
    assert_eq!(pos.deposit_count, 2);
}

#[test]
fn test_deposit_rejects_dust_when_zero_shares_after_yield() {
    let mut te = setup();
    let lp = te.lp;
    te.deposit(lp, 10_000_000_000).unwrap();
    te.fund_and_repay_invoice();
    let stats = te.stats();
    assert_eq!(stats.total_deposits, DEFAULT_FACE_VALUE + DEFAULT_YIELD_AMOUNT);
    assert_eq!(stats.total_shares, 10_000_000_000);
    let lp2 = te.create_lp_with_balance(10_000_000_000);
    let r = te.deposit(lp2, 1);
    assert_eq!(r, Err(Fail::Pool(PoolError::MinimumDeposit)));
    assert_eq!(r.unwrap_err().code(), 14);
}

#[test]
fn test_dust_deposit_rejection_preserves_state_and_funds() {
    let mut te = setup();
    let lp = te.lp;
    te.deposit(lp, 10_000_000_000).unwrap();
    te.fund_and_repay_invoice();
    let before = te.stats();
    let lp2 = te.create_lp_with_balance(10_000_000_000);
    let res = te.deposit(lp2, 1);
    assert!(res.is_err(), "dust deposit should be rejected");
    let after = te.stats();
    assert_eq!(after.total_deposits, before.total_deposits);
    assert_eq!(after.total_shares, before.total_shares);
    assert_eq!(te.position(lp2).shares, 0);
    assert_eq!(te.balance(te.usdc_id, lp2), 10_000_000_000);
}

#[test]
fn test_smallest_valid_deposit_after_yield_issues_at_least_one_share() {
    let mut te = setup();
    let lp = te.lp;
    te.deposit(lp, 10_000_000_000).unwrap();
    te.fund_and_repay_invoice();
    let lp2 = te.create_lp_with_balance(10_000_000_000);
    let shares = te.deposit(lp2, 2).unwrap();
    assert_eq!(shares, 1);
    let pos = te.position(lp2);
    assert_eq!(pos.shares, 1);
    assert_eq!(pos.deposit_count, 1);
}

#[test]
fn test_no_deposit_ever_receives_zero_shares() {
    let mut te = setup();
    let lp = te.lp;
    te.deposit(lp, 10_000_000_000).unwrap();
    te.fund_and_repay_invoice();
    let amounts = [1u128, 2, 3, 5, 10, 102, 1_000, 1_000_000];
    for amount in amounts {
        let lp = te.create_lp_with_balance(100_000_000_000i128);
        match te.deposit(lp, amount) {
            Ok(shares) => {
                assert!(shares >= 1, "amount {amount} accepted for 0 shares");
                assert_eq!(te.position(lp).shares, shares);
            }
            Err(_) => {
                assert_eq!(te.position(lp).shares, 0, "amount {amount} rejected but minted shares");
            }
        }
    }
}

#[test]
fn test_first_deposit_below_minimum_is_rejected() {
    let mut te = setup();
    let lp = te.lp;
    let r = te.deposit(lp, MIN_INITIAL_DEPOSIT - 1);
    assert_eq!(r, Err(Fail::Pool(PoolError::InvalidAmount)));
    assert_eq!(r.unwrap_err().code(), 4);
}

#[test]
fn test_first_deposit_at_minimum_succeeds() {
    let mut te = setup();
    let lp = te.lp;
    assert_eq!(te.deposit(lp, MIN_INITIAL_DEPOSIT).unwrap(), MIN_INITIAL_DEPOSIT);
}

#[test]
fn test_first_deposit_above_minimum_succeeds() {
    let mut te = setup();
    let lp = te.lp;
    assert_eq!(te.deposit(lp, MIN_INITIAL_DEPOSIT + 10_000_000).unwrap(), MIN_INITIAL_DEPOSIT + 10_000_000);
}

#[test]
fn test_deposit_moves_usdc_into_the_pool() {
    let mut te = setup();
    let (lp, usdc, pool) = (te.lp, te.usdc_id, te.pool_id);
    let before = te.balance(usdc, lp);
    te.deposit(lp, 7_000_000_000).unwrap();
    assert_eq!(te.balance(usdc, lp), before - 7_000_000_000);
    assert_eq!(te.balance(usdc, pool), 7_000_000_000);
}

#[test]
fn test_deposit_zero_is_rejected() {
    let mut te = setup();
    let lp = te.lp;
    assert_eq!(te.deposit(lp, 0), Err(Fail::Pool(PoolError::InvalidAmount)));
}

// ---------------------------------------------------------------- withdrawals

#[test]
fn test_withdraw_returns_correct_usdc() {
    let mut te = setup();
    let lp = te.lp;
    te.deposit(lp, 10_000_000_000).unwrap();
    assert_eq!(te.withdraw(lp, 5_000_000_000).unwrap(), 5_000_000_000);
}

#[test]
fn test_withdraw_fails_if_insufficient_liquidity() {
    let mut te = setup();
    let (lp, usdc) = (te.lp, te.usdc_id);
    te.deposit(lp, 10_000_000_000).unwrap();
    let id = te.create_and_list(usdc);
    te.fund_invoice(id).unwrap();
    let r = te.withdraw(lp, 300_000_000);
    assert_eq!(r, Err(Fail::Pool(PoolError::InsufficientLiquidity)));
    assert_eq!(r.unwrap_err().code(), 5);
}

#[test]
fn test_withdraw_updates_initial_deposit_and_yield_on_multiple_partial_withdrawals() {
    let mut te = setup();
    let lp = te.lp;
    te.deposit(lp, 10_000_000_000).unwrap();
    let first_return = te.withdraw(lp, 5_000_000_000).unwrap();
    assert_eq!(first_return, 5_000_000_000);
    let second_return = te.withdraw(lp, 5_000_000_000).unwrap();
    assert_eq!(second_return, 5_000_000_000);
    let lp_pos = te.position(lp);
    assert_eq!(lp_pos.shares, 0);
    assert_eq!(lp_pos.yield_earned, 0);
    assert_eq!(lp_pos.deposit_count, 0);
}

#[test]
fn test_withdraw_zero_shares_is_rejected() {
    let mut te = setup();
    let lp = te.lp;
    te.deposit(lp, 10_000_000_000).unwrap();
    assert_eq!(te.withdraw(lp, 0), Err(Fail::Pool(PoolError::InvalidAmount)));
}

#[test]
fn test_withdraw_more_than_owned_is_rejected() {
    let mut te = setup();
    let lp = te.lp;
    te.deposit(lp, 10_000_000_000).unwrap();
    let r = te.withdraw(lp, 20_000_000_000);
    assert_eq!(r, Err(Fail::Pool(PoolError::InsufficientShares)));
    assert_eq!(r.unwrap_err().code(), 7);
}

// ---------------------------------------------------------------- funding

#[test]
fn test_fund_invoice_rejects_zero_funded_amount() {
    let mut te = setup();
    let (lp, usdc) = (te.lp, te.usdc_id);
    te.deposit(lp, 100_000_000_000).unwrap();
    let id = te.create_and_list_with_params(usdc, 1, 5000);
    let before = te.stats();
    let result = te.fund_invoice(id);
    assert!(result.is_err(), "zero funded amount should be rejected");
    assert_eq!(result, Err(Fail::Pool(PoolError::InvalidFundedAmount)));
    let after = te.stats();
    assert_eq!(after.total_funded, before.total_funded);
    assert_eq!(after.active_invoice_count, before.active_invoice_count);
    assert_eq!(after.available_liquidity, before.available_liquidity);
    assert_eq!(te.status(id), 1);
}

#[test]
fn test_fund_invoice_allows_boundary_amount_of_one() {
    let mut te = setup();
    let (lp, usdc) = (te.lp, te.usdc_id);
    te.deposit(lp, 100_000_000_000).unwrap();
    let id = te.create_and_list_with_params(usdc, 2, 5000);
    assert!(te.fund_invoice(id).unwrap());
    let stats = te.stats();
    assert_eq!(stats.total_funded, 1);
    assert_eq!(stats.active_invoice_count, 1);
}

#[test]
fn test_fund_invoice_succeeds_for_normal_amount() {
    let mut te = setup();
    let (lp, usdc) = (te.lp, te.usdc_id);
    te.deposit(lp, 100_000_000_000).unwrap();
    let id = te.create_and_list(usdc);
    assert!(te.fund_invoice(id).unwrap());
    let stats = te.stats();
    assert_eq!(stats.total_funded, DEFAULT_FUNDED_AMOUNT);
    assert_eq!(stats.active_invoice_count, 1);
}

#[test]
fn test_fund_invoice_reduces_available_liquidity() {
    let mut te = setup();
    let (lp, usdc) = (te.lp, te.usdc_id);
    te.deposit(lp, 100_000_000_000).unwrap();
    let id = te.create_and_list(usdc);
    let before = te.stats();
    let _ = te.fund_invoice(id);
    let after = te.stats();
    assert_eq!(after.active_invoice_count, 1);
    assert!(after.total_funded > before.total_funded);
    assert!(after.available_liquidity < before.available_liquidity);
}

#[test]
fn test_fund_invoice_fails_when_insufficient_liquidity() {
    let mut te = setup();
    let usdc = te.usdc_id;
    let id = te.create_and_list(usdc);
    let r = te.fund_invoice(id);
    assert_eq!(r, Err(Fail::Pool(PoolError::InsufficientLiquidity)));
    assert_eq!(r.unwrap_err().code(), 5);
}

#[test]
fn test_fund_invoice_fails_asset_mismatch() {
    let mut te = setup();
    let (lp, xlm) = (te.lp, te.xlm_id);
    te.deposit(lp, 100_000_000_000).unwrap();
    let id = te.create_and_list(xlm);
    let r = te.fund_invoice(id);
    assert_eq!(r, Err(Fail::Pool(PoolError::AssetMismatch)));
    assert_eq!(r.unwrap_err().code(), 11);
}

#[test]
fn test_fund_invoice_nonexistent_invoice_is_rejected() {
    let mut te = setup();
    let lp = te.lp;
    te.deposit(lp, 100_000_000_000).unwrap();
    let r = te.fund_invoice(InvoiceId([0u8; 32]));
    assert_eq!(r, Err(Fail::Invoice(InvoiceError::NotFound)));
    assert_eq!(r.unwrap_err().code(), 2);
}

#[test]
fn test_fund_invoice_unlisted_invoice_is_rejected() {
    let mut te = setup();
    let (lp, usdc) = (te.lp, te.usdc_id);
    te.deposit(lp, 100_000_000_000).unwrap();
    let due = te.now + 86400;
    let id = te.create(1_000_000_000, due, usdc).unwrap();
    let r = te.fund_invoice(id);
    assert_eq!(r, Err(Fail::Pool(PoolError::InvoiceNotListed)));
    assert_eq!(r.unwrap_err().code(), 8);
}

#[test]
fn test_fund_invoice_already_funded_invoice_is_rejected() {
    let mut te = setup();
    let (lp, usdc) = (te.lp, te.usdc_id);
    te.deposit(lp, 100_000_000_000).unwrap();
    let id = te.create_and_list(usdc);
    te.fund_invoice(id).unwrap();
    assert_eq!(te.fund_invoice(id), Err(Fail::Pool(PoolError::InvoiceNotListed)));
}

#[test]
fn test_fund_invoice_locks_funds_in_escrow_and_marks_invoice_funded() {
    let mut te = setup();
    let (lp, usdc, pool, escrow) = (te.lp, te.usdc_id, te.pool_id, te.escrow_id);
    te.deposit(lp, 100_000_000_000).unwrap();
    let id = te.create_and_list(usdc);
    te.fund_invoice(id).unwrap();
    assert_eq!(te.p.escrow.get_locked(id), DEFAULT_FUNDED_AMOUNT);
    assert_eq!(te.balance(usdc, escrow), DEFAULT_FUNDED_AMOUNT as i128);
    assert_eq!(te.balance(usdc, pool), (100_000_000_000 - DEFAULT_FUNDED_AMOUNT) as i128);
    let inv = te.p.invoice.get(id).unwrap();
    assert_eq!(inv.status, InvoiceStatus::Funded);
    assert_eq!(inv.funded_amount, DEFAULT_FUNDED_AMOUNT);
    assert_eq!(inv.funding_pool, Some(pool));
}

// ---------------------------------------------------------------- stats

#[test]
fn test_get_stats_initial_state() {
    let te = setup();
    let stats = te.stats();
    assert_eq!(stats.total_deposits, 0);
    assert_eq!(stats.total_shares, 0);
    assert_eq!(stats.total_funded, 0);
    assert_eq!(stats.active_invoice_count, 0);
    assert_eq!(stats.available_liquidity, 0);
    assert_eq!(stats.utilization_rate_bps, 0);
}

#[test]
fn test_get_stats_on_uninitialized_pool_is_rejected() {
    let pool = PoolContract::new(Addr(99));
    let r = pool.get_stats();
    assert_eq!(r, Err(PoolError::NotInitialized));
    assert_eq!(r.unwrap_err().code(), 2);
}

#[test]
fn test_get_stats_after_deposit() {
    let mut te = setup();
    let lp = te.lp;
    te.deposit(lp, 100_000_000_000).unwrap();
    let stats = te.stats();
    assert_eq!(stats.total_deposits, 100_000_000_000);
    assert_eq!(stats.total_shares, 100_000_000_000);
    assert_eq!(stats.available_liquidity, 100_000_000_000);
    assert_eq!(stats.utilization_rate_bps, 0);
}

#[test]
fn test_get_stats_after_funding() {
    let mut te = setup();
    let (lp, usdc) = (te.lp, te.usdc_id);
    te.deposit(lp, 100_000_000_000).unwrap();
    let id = te.create_and_list(usdc);
    let _ = te.fund_invoice(id);
    let stats = te.stats();
    assert!(stats.total_funded > 0);
    assert!(stats.available_liquidity < 100_000_000_000);
    assert_eq!(stats.active_invoice_count, 1);
    assert!(stats.utilization_rate_bps > 0);
}

// ---------------------------------------------------------------- positions

#[test]
fn test_lp_position_empty() {
    let te = setup();
    let pos = te.position(te.lp);
    assert_eq!(pos.shares, 0);
    assert_eq!(pos.usdc_value, 0);
    assert_eq!(pos.yield_earned, 0);
    assert_eq!(pos.deposit_count, 0);
}

#[test]
fn test_lp_position_after_deposit() {
    let mut te = setup();
    let lp = te.lp;
    te.deposit(lp, 50_000_000_000).unwrap();
    let pos = te.position(lp);
    assert_eq!(pos.shares, 50_000_000_000);
    assert_eq!(pos.usdc_value, 50_000_000_000);
    assert_eq!(pos.deposit_count, 1);
}

// ---------------------------------------------------------------- utilization

#[test]
fn test_utilization_rate_zero_when_no_deposits() {
    let te = setup();
    assert_eq!(te.p.pool.get_utilization_rate(), Ok(0));
}

#[test]
fn test_utilization_rate_zero_when_no_funding() {
    let mut te = setup();
    let lp = te.lp;
    te.deposit(lp, 100_000_000_000).unwrap();
    assert_eq!(te.p.pool.get_utilization_rate(), Ok(0));
}

#[test]
fn test_utilization_rate_after_funding() {
    let mut te = setup();
    let (lp, usdc) = (te.lp, te.usdc_id);
    te.deposit(lp, 100_000_000_000).unwrap();
    let id = te.create_and_list(usdc);
    let _ = te.fund_invoice(id);
    let rate = te.p.pool.get_utilization_rate().unwrap();
    assert!(rate > 0);
    assert!(rate < 10000);
}

#[test]
fn test_utilization_rate_calculates_correctly() {
    let mut te = setup();
    let (lp, usdc, admin) = (te.lp, te.usdc_id, te.admin);
    te.deposit(lp, 10_000_000_000).unwrap();
    te.p.pool.set_max_utilization(admin, 10000).unwrap();
    let id = te.create_and_list(usdc);
    let _ = te.fund_invoice(id);
    assert_eq!(
        te.p.pool.get_utilization_rate().unwrap(),
        (DEFAULT_FUNDED_AMOUNT * 10000 / 10_000_000_000) as u32
    );
}

#[test]
fn test_default_max_utilization_in_stats() {
    let te = world_with_cap(None);
    assert_eq!(te.stats().max_utilization_bps, 8500);
    assert_eq!(DEFAULT_MAX_UTILIZATION_BPS, 8500);
}

#[test]
fn test_updated_max_utilization_reflected_in_stats() {
    let mut te = setup();
    let admin = te.admin;
    te.p.pool.set_max_utilization(admin, 9000).unwrap();
    assert_eq!(te.stats().max_utilization_bps, 9000);
}

#[test]
fn test_fund_invoice_rejects_above_cap() {
    let mut te = setup();
    let (lp, usdc, admin) = (te.lp, te.usdc_id, te.admin);
    te.p.pool.set_max_utilization(admin, 8500).unwrap();
    te.deposit(lp, 10_000_000_000).unwrap();
    let id = te.create_and_list(usdc);
    let r = te.fund_invoice(id);
    assert_eq!(r, Err(Fail::Pool(PoolError::UtilizationCapExceeded)));
    assert_eq!(r.unwrap_err().code(), 12);
}

#[test]
fn test_fund_invoice_allowed_when_below_cap() {
    let mut te = setup();
    let (lp, usdc, admin) = (te.lp, te.usdc_id, te.admin);
    te.p.pool.set_max_utilization(admin, 10000).unwrap();
    te.deposit(lp, 10_000_000_000).unwrap();
    let id = te.create_and_list(usdc);
    assert!(te.fund_invoice(id).unwrap());
}

#[test]
fn test_fund_invoice_is_permissionless() {
    let mut te = setup();
    let (lp, usdc) = (te.lp, te.usdc_id);
    te.deposit(lp, 100_000_000_000).unwrap();
    let id = te.create_and_list(usdc);
    let result = te.fund_invoice(id).unwrap();
    assert!(result, "fund_invoice should succeed (no admin auth required)");
    let stats = te.stats();
    assert_eq!(stats.total_funded, DEFAULT_FUNDED_AMOUNT);
    assert_eq!(stats.active_invoice_count, 1);
}

#[test]
fn test_set_max_utilization_above_10000_is_rejected() {
    let mut te = setup();
    let admin = te.admin;
    let r = te.p.pool.set_max_utilization(admin, 10001);
    assert_eq!(r, Err(PoolError::InvalidAmount));
    assert_eq!(te.stats().max_utilization_bps, 10000);
}

#[test]
fn test_set_max_utilization_by_non_admin_is_rejected() {
    let mut te = setup();
    let attacker = te.generate();
    let r = te.p.pool.set_max_utilization(attacker, 5000);
    assert_eq!(r, Err(PoolError::NotAuthorized));
    assert_eq!(r.unwrap_err().code(), 3);
}

#[test]
fn test_reducing_cap_mid_lifecycle_blocks_new_funding() {
    let mut te = setup();
    let (lp, usdc, admin) = (te.lp, te.usdc_id, te.admin);
    te.p.pool.set_max_utilization(admin, 8500).unwrap();
    te.deposit(lp, 100_000_000_000).unwrap();
    let id = te.create_and_list(usdc);
    te.fund_invoice(id).unwrap();
    te.p.pool.set_max_utilization(admin, 1000).unwrap();
    let id2 = te.create_and_list(usdc);
    assert_eq!(te.fund_invoice(id2), Err(Fail::Pool(PoolError::UtilizationCapExceeded)));
}

// ---------------------------------------------------------------- yield

#[test]
fn test_yield_increases_share_price_after_repayment() {
    let mut te = setup();
    let lp = te.lp;
    te.deposit(lp, 10_000_000_000).unwrap();
    te.fund_and_repay_invoice();
    let pos = te.position(lp);
    assert_eq!(pos.shares, 10_000_000_000);
    assert_eq!(pos.usdc_value, DEFAULT_FACE_VALUE + DEFAULT_YIELD_AMOUNT);
}

#[test]
fn test_two_lps_receive_proportional_yield() {
    let mut te = setup();
    let lp = te.lp;
    let lp2 = te.create_lp_with_balance(100_000_000_000_000i128);
    te.deposit(lp, 10_000_000_000).unwrap();
    te.deposit(lp2, 30_000_000_000).unwrap();
    te.fund_and_repay_invoice();
    let pos1 = te.position(lp);
    let pos2 = te.position(lp2);
    assert_eq!(pos1.shares, 10_000_000_000);
    assert_eq!(pos2.shares, 30_000_000_000);
    assert_eq!(
        pos1.usdc_value,
        10_000_000_000 + DEFAULT_YIELD_AMOUNT * 10_000_000_000 / (10_000_000_000 + 30_000_000_000)
    );
    assert_eq!(
        pos2.usdc_value,
        30_000_000_000 + DEFAULT_YIELD_AMOUNT * 30_000_000_000 / (10_000_000_000 + 30_000_000_000)
    );
}

#[test]
fn test_lp_position_reflects_current_share_price() {
    let mut te = setup();
    let (lp, usdc, issuer, buyer) = (te.lp, te.usdc_id, te.issuer, te.buyer);
    te.deposit(lp, 10_000_000_000).unwrap();
    let id = te.create_and_list(usdc);
    let _ = te.fund_invoice(id);
    te.mark_shipped(id);
    te.confirm_delivery(id, issuer);
    te.confirm_delivery(id, buyer);
    te.now += 86401;
    te.repay(id).unwrap();
    let pos = te.position(lp);
    assert_eq!(pos.usdc_value, DEFAULT_FACE_VALUE + DEFAULT_YIELD_AMOUNT);
    assert_eq!(pos.shares, 10_000_000_000);
}

#[test]
fn test_multiple_lps_can_deposit() {
    let mut te = setup();
    let lp = te.lp;
    let lp2 = te.create_lp_with_balance(100_000_000_000_000i128);
    let s1 = te.deposit(lp, 10_000_000_000).unwrap();
    let s2 = te.deposit(lp2, 20_000_000_000).unwrap();
    assert_eq!(s1, 10_000_000_000);
    assert_eq!(s2, 20_000_000_000);
    let stats = te.stats();
    assert_eq!(stats.total_shares, 30_000_000_000);
    assert_eq!(stats.total_deposits, 30_000_000_000);
}

#[test]
fn test_receive_repayment() {
    let mut te = setup();
    let (lp, usdc) = (te.lp, te.usdc_id);
    te.deposit(lp, 100_000_000_000).unwrap();
    let id = te.create_and_list(usdc);
    te.fund_invoice(id).unwrap();
    let yield_amount = DEFAULT_YIELD_AMOUNT;
    let before = te.stats();
    let position_before = te.position(lp);
    let booked = te.p.pool.receive_repayment(id, 10_000_000_000).unwrap();
    assert_eq!(booked, yield_amount);
    let after = te.stats();
    let position_after = te.position(lp);
    assert_eq!(after.total_deposits, before.total_deposits + yield_amount);
    assert_eq!(after.total_yield_distributed, yield_amount);
    assert_eq!(after.total_funded, 0);
    assert_eq!(after.active_invoice_count, 0);
    assert_eq!(position_after.usdc_value, position_before.usdc_value + yield_amount);
}

#[test]
fn test_receive_repayment_exact_funded_amount_has_no_yield() {
    let mut te = setup();
    let (lp, usdc) = (te.lp, te.usdc_id);
    te.deposit(lp, 100_000_000_000).unwrap();
    let id = te.create_and_list(usdc);
    te.fund_invoice(id).unwrap();
    let before = te.stats();
    let position_before = te.position(lp);
    te.receive_repayment(id, DEFAULT_FUNDED_AMOUNT).unwrap();
    let after = te.stats();
    let position_after = te.position(lp);
    assert_eq!(after.total_deposits, before.total_deposits);
    assert_eq!(after.total_yield_distributed, 0);
    assert_eq!(after.total_funded, 0);
    assert_eq!(position_after.usdc_value, position_before.usdc_value);
}

#[test]
fn test_receive_repayment_amount_below_funded_is_rejected() {
    let mut te = setup();
    let (lp, usdc) = (te.lp, te.usdc_id);
    te.deposit(lp, 100_000_000_000).unwrap();
    let id = te.create_and_list(usdc);
    te.fund_invoice(id).unwrap();
    let r = te.receive_repayment(id, 1_000_000_000);
    assert_eq!(r, Err(Fail::Pool(PoolError::InvalidAmount)));
    assert_eq!(te.stats().active_invoice_count, 1);
}

#[test]
fn test_receive_repayment_with_refund_pays_buyer_back() {
    let mut te = setup();
    let (lp, usdc, buyer, pool) = (te.lp, te.usdc_id, te.buyer, te.pool_id);
    te.deposit(lp, 100_000_000_000).unwrap();
    let id = te.create_and_list(usdc);
    te.fund_invoice(id).unwrap();
    let (booked, refund) = te.p.pool.receive_repayment_with_refund(id, DEFAULT_FACE_VALUE, 50_000_000, buyer).unwrap();
    assert_eq!(booked, DEFAULT_YIELD_AMOUNT - 50_000_000);
    let t = refund.unwrap();
    assert_eq!((t.from, t.to, t.amount, t.token), (pool, buyer, 50_000_000, usdc));
    let over = te.p.pool.receive_repayment_with_refund(id, DEFAULT_FACE_VALUE, 0, buyer);
    assert_eq!(over, Err(PoolError::InvoiceNotFound));
}

#[test]
fn test_receive_repayment_refund_above_yield_is_rejected() {
    let mut te = setup();
    let (lp, usdc, buyer) = (te.lp, te.usdc_id, te.buyer);
    te.deposit(lp, 100_000_000_000).unwrap();
    let id = te.create_and_list(usdc);
    te.fund_invoice(id).unwrap();
    let r = te.p.pool.receive_repayment_with_refund(id, DEFAULT_FACE_VALUE, DEFAULT_YIELD_AMOUNT + 1, buyer);
    assert_eq!(r, Err(PoolError::InvalidRefund));
    assert_eq!(r.unwrap_err().code(), 9);
}

// ---------------------------------------------------------------- defaults

#[test]
fn test_handle_default() {
    let mut te = setup();
    let (lp, usdc) = (te.lp, te.usdc_id);
    te.deposit(lp, 100_000_000_000).unwrap();
    let id = te.create_and_list(usdc);
    te.fund_invoice(id).unwrap();
    let funded_amount = DEFAULT_FUNDED_AMOUNT;
    let before = te.stats();
    let position_before = te.position(lp);
    te.now += 60;
    let loss = te.p.pool.handle_default(id).unwrap();
    assert_eq!(loss, funded_amount);
    let after = te.stats();
    let position_after = te.position(lp);
    assert_eq!(after.total_deposits, before.total_deposits - funded_amount);
    assert_eq!(after.total_funded, 0);
    assert_eq!(after.active_invoice_count, 0);
    assert_eq!(after.total_shares, before.total_shares);
    assert_eq!(after.total_loss_realised, before.total_loss_realised + funded_amount);
    assert_eq!(position_after.usdc_value, position_before.usdc_value - funded_amount);
}

#[test]
fn test_handle_default_realizes_loss_without_burning_shares() {
    let mut te = setup();
    let (lp, usdc) = (te.lp, te.usdc_id);
    te.deposit(lp, 100_000_000_000).unwrap();
    let id = te.create_and_list(usdc);
    te.fund_invoice(id).unwrap();
    te.now += 60;
    let lp_before = te.position(lp);
    let pool_before = te.stats();
    assert_eq!(pool_before.total_deposits, 100_000_000_000);
    assert_eq!(pool_before.total_shares, 100_000_000_000);
    assert_eq!(lp_before.usdc_value, 100_000_000_000);
    assert!(te.pool_handle_default(id).unwrap());
    let lp_after = te.position(lp);
    let pool_after = te.stats();
    assert_eq!(pool_after.total_deposits, pool_before.total_deposits - DEFAULT_FUNDED_AMOUNT);
    assert_eq!(pool_after.total_shares, pool_before.total_shares);
    assert_eq!(lp_after.shares, lp_before.shares);
    assert_eq!(lp_after.usdc_value, lp_before.usdc_value - DEFAULT_FUNDED_AMOUNT);
    assert_eq!(pool_after.total_funded, 0);
    assert_eq!(pool_after.active_invoice_count, 0);
    assert_eq!(pool_after.total_loss_realised, pool_before.total_loss_realised + DEFAULT_FUNDED_AMOUNT);
}

#[test]
fn test_handle_default_updates_invoice_status() {
    let mut te = setup();
    let (lp, usdc) = (te.lp, te.usdc_id);
    te.deposit(lp, 100_000_000_000).unwrap();
    let id = te.create_and_list(usdc);
    te.fund_invoice(id).unwrap();
    assert_eq!(te.status(id), 2);
    te.now += 60;
    assert!(te.pool_handle_default(id).unwrap());
    assert_eq!(te.status(id), 6);
    assert_eq!(te.p.escrow.get_locked(id), 0);
    let h = te.p.escrow.get_history(id);
    assert_eq!(h.last().unwrap().action, EscrowAction::DefaultHandled);
}

#[test]
fn test_handle_default_rejects_double_default() {
    let mut te = setup();
    let (lp, usdc) = (te.lp, te.usdc_id);
    te.deposit(lp, 100_000_000_000).unwrap();
    let id = te.create_and_list(usdc);
    te.fund_invoice(id).unwrap();
    te.now += 60;
    assert!(te.pool_handle_default(id).unwrap());
    let res = te.pool_handle_default(id);
    assert!(res.is_err());
}

#[test]
fn test_handle_default_unknown_invoice_is_rejected() {
    let mut te = setup();
    let r = te.pool_handle_default(InvoiceId([0u8; 32]));
    assert_eq!(r, Err(Fail::Pool(PoolError::InvoiceNotFound)));
    assert_eq!(r.unwrap_err().code(), 10);
}

#[test]
fn test_deposit_when_deposits_zero_but_shares_exist() {
    let mut te = setup();
    let (lp, usdc) = (te.lp, te.usdc_id);
    te.deposit(lp, DEFAULT_FUNDED_AMOUNT).unwrap();
    let id = te.create_and_list(usdc);
    te.fund_invoice(id).unwrap();
    te.now += 60;
    te.pool_handle_default(id).unwrap();
    let stats = te.stats();
    assert_eq!(stats.total_deposits, 0);
    assert!(stats.total_shares > 0);
    let lp2 = te.create_lp_with_balance(10_000_000_000);
    assert_eq!(te.deposit(lp2, 5_000_000_000).unwrap(), 5_000_000_000);
}

#[test]
fn test_deposit_after_default_share_price_recovery() {
    let mut te = setup();
    let (lp, usdc) = (te.lp, te.usdc_id);
    let shares1 = te.deposit(lp, 10_000_000_000).unwrap();
    assert_eq!(shares1, 10_000_000_000);
    let id = te.create_and_list(usdc);
    let _ = te.fund_invoice(id);
    te.now += 60;
    let _ = te.pool_handle_default(id);
    let stats_after_default = te.stats();
    assert_eq!(stats_after_default.total_deposits, DEFAULT_YIELD_AMOUNT);
    assert_eq!(stats_after_default.total_shares, 10_000_000_000);
    let lp2 = te.create_lp_with_balance(100_000_000_000);
    let shares2 = te.deposit(lp2, 10_000_000_000).unwrap();
    assert!(shares2 > 10_000_000_000, "LP2 should get more shares due to deflated share price");
    let pos1 = te.position(lp);
    let pos2 = te.position(lp2);
    assert_eq!(pos1.shares, 10_000_000_000);
    assert_eq!(pos1.usdc_value, DEFAULT_YIELD_AMOUNT);
    assert_eq!(pos2.shares, shares2);
    assert_eq!(pos2.usdc_value, 10_000_000_000);
    let final_stats = te.stats();
    assert_eq!(final_stats.total_deposits, DEFAULT_FACE_VALUE + DEFAULT_YIELD_AMOUNT);
    assert_eq!(final_stats.total_shares, 10_000_000_000 + shares2);
}

// ---------------------------------------------------------------- full withdrawals

#[test]
fn test_withdraw_all_shares_to_zero_then_redeposit() {
    let mut te = setup();
    let lp = te.lp;
    assert_eq!(te.deposit(lp, 10_000_000_000).unwrap(), 10_000_000_000);
    let stats_before = te.stats();
    assert_eq!(stats_before.total_shares, 10_000_000_000);
    assert_eq!(stats_before.total_deposits, 10_000_000_000);
    assert_eq!(te.withdraw(lp, 10_000_000_000).unwrap(), 10_000_000_000);
    let stats_after_withdraw = te.stats();
    assert_eq!(stats_after_withdraw.total_shares, 0);
    assert_eq!(stats_after_withdraw.total_deposits, 0);
    let pos = te.position(lp);
    assert_eq!(pos.shares, 0);
    assert_eq!(pos.usdc_value, 0);
    assert_eq!(te.deposit(lp, 5_000_000_000).unwrap(), 5_000_000_000);
    let stats_after_redeposit = te.stats();
    assert_eq!(stats_after_redeposit.total_shares, 5_000_000_000);
    assert_eq!(stats_after_redeposit.total_deposits, 5_000_000_000);
    let final_pos = te.position(lp);
    assert_eq!(final_pos.shares, 5_000_000_000);
    assert_eq!(final_pos.deposit_count, 1);
}

#[test]
fn test_full_withdraw_resets_lp_state() {
    let mut te = setup();
    let lp = te.lp;
    let lp2 = te.create_lp_with_balance(100_000_000_000);
    te.deposit(lp, 10_000_000_000).unwrap();
    te.deposit(lp2, 20_000_000_000).unwrap();
    te.fund_and_repay_invoice();
    let shares = te.position(lp).shares;
    assert!(shares > 0);
    te.withdraw(lp, shares).unwrap();
    let pos = te.position(lp);
    assert_eq!(pos.shares, 0);
    assert_eq!(pos.deposit_count, 0);
}

#[test]
fn test_full_withdraw_then_deposit_yield_accounting() {
    let mut te = setup();
    let lp = te.lp;
    let lp2 = te.create_lp_with_balance(100_000_000_000);
    te.deposit(lp, 10_000_000_000).unwrap();
    te.deposit(lp2, 20_000_000_000).unwrap();
    te.fund_and_repay_invoice();
    let pos_before = te.position(lp);
    let returned = te.withdraw(lp, pos_before.shares).unwrap();
    assert!(returned > 10_000_000_000);
    let pos_after = te.position(lp);
    assert_eq!(pos_after.shares, 0);
    assert!(pos_after.yield_earned > 0);
    let new_shares = te.deposit(lp, 5_000_000_000).unwrap();
    assert!(new_shares > 0);
    let final_pos = te.position(lp);
    assert_eq!(final_pos.shares, new_shares);
    assert_eq!(final_pos.deposit_count, 1);
    assert!(final_pos.yield_earned > 0);
}

#[test]
fn test_multi_lp_proportional_yield_with_mid_cycle_deposit() {
    let mut te = setup();
    let (lp, usdc) = (te.lp, te.usdc_id);
    let lp1_deposit = 10_000_000_000;
    let lp1_shares = te.deposit(lp, lp1_deposit).unwrap();
    assert_eq!(lp1_shares, lp1_deposit);
    let lp2 = te.create_lp_with_balance(100_000_000_000);
    let lp2_deposit = 20_000_000_000;
    let lp2_shares = te.deposit(lp2, lp2_deposit).unwrap();
    assert_eq!(lp2_shares, lp2_deposit);
    let id = te.create_and_list(usdc);
    let _ = te.fund_invoice(id);
    assert!(te.stats().total_funded > 0);
    let lp3 = te.create_lp_with_balance(100_000_000_000);
    let lp3_deposit = 15_000_000_000;
    let lp3_shares = te.deposit(lp3, lp3_deposit).unwrap();
    let face_value = 10_000_000_000;
    te.receive_repayment(id, face_value).unwrap();
    assert_eq!(te.stats().total_yield_distributed, DEFAULT_YIELD_AMOUNT);
    let lp1_return = te.withdraw(lp, lp1_shares).unwrap();
    let lp2_return = te.withdraw(lp2, lp2_shares).unwrap();
    assert!(lp1_return >= lp1_deposit, "LP1 should receive at least their deposit");
    assert!(lp2_return >= lp2_deposit, "LP2 should receive at least their deposit");
    let lp1_gain = lp1_return - lp1_deposit;
    let lp2_gain = lp2_return - lp2_deposit;
    assert!(lp2_gain > lp1_gain, "LP2 should have higher yield gain due to larger deposit");
    let lp3_return = te.withdraw(lp3, lp3_shares).unwrap();
    let lp3_gain = lp3_return.saturating_sub(lp3_deposit);
    assert!(lp3_gain <= lp2_gain, "LP3 should receive less yield than LP2");
}

#[test]
fn test_withdraw_all_shares_at_full_utilization_is_rejected() {
    let mut te = setup();
    let (lp, usdc) = (te.lp, te.usdc_id);
    te.deposit(lp, DEFAULT_FUNDED_AMOUNT).unwrap();
    let id = te.create_and_list(usdc);
    let _ = te.fund_invoice(id);
    let stats = te.stats();
    assert_eq!(stats.available_liquidity, 0, "pool should have zero available liquidity");
    assert_eq!(stats.total_funded, DEFAULT_FUNDED_AMOUNT);
    assert_eq!(stats.total_deposits, DEFAULT_FUNDED_AMOUNT);
    assert_eq!(te.withdraw(lp, DEFAULT_FUNDED_AMOUNT), Err(Fail::Pool(PoolError::InsufficientLiquidity)));
}

#[test]
fn test_partial_withdraw_succeeds_within_available_liquidity() {
    let mut te = setup();
    let (lp, usdc) = (te.lp, te.usdc_id);
    te.deposit(lp, 15_000_000_000).unwrap();
    let id = te.create_and_list(usdc);
    let _ = te.fund_invoice(id);
    let stats = te.stats();
    let available_liquidity = 15_000_000_000 - DEFAULT_FUNDED_AMOUNT;
    assert_eq!(stats.available_liquidity, available_liquidity);
    assert_eq!(stats.total_funded, DEFAULT_FUNDED_AMOUNT);
    let lp_balance_before = te.balance(usdc, lp);
    let returned = te.withdraw(lp, available_liquidity).unwrap();
    assert_eq!(returned, available_liquidity);
    let stats_after = te.stats();
    assert_eq!(stats_after.total_deposits, DEFAULT_FUNDED_AMOUNT);
    assert_eq!(stats_after.total_shares, DEFAULT_FUNDED_AMOUNT);
    assert_eq!(stats_after.available_liquidity, 0);
    let pos = te.position(lp);
    assert_eq!(pos.shares, DEFAULT_FUNDED_AMOUNT);
    assert_eq!(pos.usdc_value, DEFAULT_FUNDED_AMOUNT);
    assert_eq!(te.balance(usdc, lp), lp_balance_before + available_liquidity as i128);
}

#[test]
fn test_partial_withdraw_leaves_remaining_liquidity() {
    let mut te = setup();
    let (lp, usdc) = (te.lp, te.usdc_id);
    te.deposit(lp, 20_000_000_000).unwrap();
    let id = te.create_and_list(usdc);
    let _ = te.fund_invoice(id);
    let available_liquidity = 20_000_000_000 - DEFAULT_FUNDED_AMOUNT;
    assert_eq!(te.stats().available_liquidity, available_liquidity);
    assert_eq!(te.withdraw(lp, 5_000_000_000).unwrap(), 5_000_000_000);
    let stats_after = te.stats();
    assert_eq!(stats_after.available_liquidity, available_liquidity - 5_000_000_000);
    assert_eq!(stats_after.total_deposits, 15_000_000_000);
    assert_eq!(stats_after.total_shares, 15_000_000_000);
    assert_eq!(te.position(lp).shares, 15_000_000_000);
}

#[test]
fn test_withdraw_after_repayment_returns_more_than_deposited() {
    let mut te = setup();
    let lp = te.lp;
    let deposit_amount = 10_000_000_000u128;
    te.deposit(lp, deposit_amount).unwrap();
    te.fund_and_repay_invoice();
    let expected_yield = DEFAULT_YIELD_AMOUNT;
    let pos = te.position(lp);
    assert_eq!(pos.shares, deposit_amount);
    assert_eq!(pos.usdc_value, deposit_amount + expected_yield);
    let usdc_returned = te.withdraw(lp, pos.shares).unwrap();
    assert!(usdc_returned > deposit_amount);
    assert_eq!(usdc_returned, deposit_amount + expected_yield);
    assert_eq!(usdc_returned - deposit_amount, expected_yield);
    let stats = te.stats();
    assert_eq!(stats.total_shares, 0);
    assert_eq!(stats.total_deposits, 0);
    assert_eq!(te.position(lp).yield_earned, expected_yield);
}

// ---------------------------------------------------------------- initialization

#[test]
fn test_initialize_accepts_distinct_addresses() {
    let te = setup();
    let stats = te.stats();
    assert_eq!(stats.total_shares, 0);
    assert_eq!(stats.total_deposits, 0);
}

#[test]
fn test_initialize_rejects_each_pairwise_address_collision() {
    let base = [Addr(501), Addr(502), Addr(503), Addr(504)];
    let pairs = [(0, 1), (0, 2), (0, 3), (1, 2), (1, 3), (2, 3)];
    for (i, j) in pairs {
        let mut addrs = base;
        addrs[j] = addrs[i];
        let mut pool = PoolContract::new(Addr(600));
        let res = pool.initialize(addrs[0], addrs[1], addrs[2], addrs[3]);
        assert!(res.is_err(), "collision between initialize() params {i} and {j} should be rejected");
        assert_eq!(res, Err(PoolError::InvalidConfiguration));
    }
}

#[test]
fn test_double_initialize_is_rejected() {
    let mut te = setup();
    let (a, i, e, u) = (te.admin, te.invoice_id, te.escrow_id, te.usdc_id);
    let r = te.p.pool.initialize(a, i, e, u);
    assert_eq!(r, Err(PoolError::AlreadyInitialized));
    assert_eq!(r.unwrap_err().code(), 1);
}

#[test]
fn test_deposit_and_withdraw_before_initialize_are_rejected() {
    let mut pool = PoolContract::new(Addr(600));
    assert_eq!(pool.deposit(Addr(4), 10_000_000_000).map(|x| x.0), Err(PoolError::NotInitialized));
    assert_eq!(pool.withdraw(Addr(4), 1_000).map(|x| x.0), Err(PoolError::NotInitialized));
}

#[test]
fn test_fund_invoice_rejects_replay_when_funded_invoice_entry_exists() {
    let mut te = setup();
    let (lp, usdc) = (te.lp, te.usdc_id);
    te.deposit(lp, 100_000_000_000).unwrap();
    let id = te.create_and_list(usdc);
    // The pool already holds a funding entry for this invoice while the
    // invoice itself still reports `Listed`.
    te.p.pool.fund_invoice(id, 1, DEFAULT_FACE_VALUE, DEFAULT_DISCOUNT_BPS, usdc).unwrap();
    let r = te.fund_invoice(id);
    assert_eq!(r, Err(Fail::Pool(PoolError::AlreadyFunded)));
    assert_eq!(r.unwrap_err().code(), 16);
}

#[test]
fn test_fund_invoice_succeeds_when_no_prior_funded_entry() {
    let mut te = setup();
    let (lp, usdc) = (te.lp, te.usdc_id);
    te.deposit(lp, 100_000_000_000).unwrap();
    let id = te.create_and_list(usdc);
    assert!(te.fund_invoice(id).unwrap());
    assert_eq!(te.stats().total_funded, DEFAULT_FUNDED_AMOUNT);
    // A second booking is refused: the funded entry exists.
    assert_eq!(
        te.p.pool.fund_invoice(id, 1, DEFAULT_FACE_VALUE, DEFAULT_DISCOUNT_BPS, usdc),
        Err(PoolError::AlreadyFunded)
    );
}

// ---------------------------------------------------------------- cross-contract lifecycles

#[test]
fn test_full_cross_contract_lifecycle() {
    let mut te = setup();
    let (lp, usdc, issuer, buyer) = (te.lp, te.usdc_id, te.issuer, te.buyer);
    let shares = te.deposit(lp, 100_000_000_000).unwrap();
    assert_eq!(shares, 100_000_000_000);
    let stats = te.stats();
    assert_eq!(stats.total_deposits, 100_000_000_000);
    assert_eq!(stats.total_shares, 100_000_000_000);

    let id = te.create_and_list(usdc);
    assert_eq!(te.status(id), 1);
    assert!(te.fund_invoice(id).unwrap());
    let stats = te.stats();
    assert_eq!(stats.total_funded, 9_800_000_000);
    assert_eq!(stats.active_invoice_count, 1);
    assert_eq!(stats.available_liquidity, 100_000_000_000 - 9_800_000_000);
    assert_eq!(te.status(id), 2);
    assert_eq!(te.p.invoice.get_face_value(id), Ok(10_000_000_000));
    assert_eq!(te.p.invoice.get_funding_asset(id), Ok(usdc));
    assert_eq!(te.p.escrow.get_locked(id), 9_800_000_000);

    te.mark_shipped(id);
    assert_eq!(te.status(id), 3);
    assert!(te.confirm_delivery(id, issuer));
    assert_eq!(te.status(id), 3);
    assert!(te.confirm_delivery(id, buyer));
    assert_eq!(te.status(id), 4);
    let inv = te.p.invoice.get(id).unwrap();
    assert!(inv.issuer_confirmed);
    assert!(inv.buyer_confirmed);

    te.now += 86401;
    assert!(te.repay(id).unwrap());
    assert_eq!(te.status(id), 5);
    let stats = te.stats();
    assert_eq!(stats.total_funded, 0);
    assert_eq!(stats.active_invoice_count, 0);
    assert_eq!(stats.total_deposits, 100_200_000_000);
    assert_eq!(stats.total_yield_distributed, 200_000_000);
    assert_eq!(te.p.escrow.get_locked(id), 0);
    assert_eq!(te.p.escrow.get_history(id).len(), 2);
}

#[test]
fn test_lp_receives_yield_after_full_cycle() {
    let mut te = setup();
    let (lp, usdc, issuer, buyer) = (te.lp, te.usdc_id, te.issuer, te.buyer);
    te.deposit(lp, 10_000_000_000).unwrap();
    let pos_before = te.position(lp);
    assert_eq!(pos_before.shares, 10_000_000_000);
    assert_eq!(pos_before.usdc_value, 10_000_000_000);
    let id = te.create_and_list(usdc);
    te.fund_invoice(id).unwrap();
    te.mark_shipped(id);
    te.confirm_delivery(id, issuer);
    te.confirm_delivery(id, buyer);
    te.now += 86401;
    te.repay(id).unwrap();
    let pos_after = te.position(lp);
    assert_eq!(pos_after.shares, 10_000_000_000);
    assert_eq!(pos_after.usdc_value, 10_200_000_000);
}

#[test]
fn test_cross_contract_default_lifecycle() {
    let mut te = setup();
    let (lp, usdc, pool) = (te.lp, te.usdc_id, te.pool_id);
    te.deposit(lp, 100_000_000_000).unwrap();
    let id = te.create_and_list(usdc);
    te.fund_invoice(id).unwrap();
    assert_eq!(te.p.escrow.get_locked(id), 9_800_000_000);
    te.now += 86401;
    assert!(te.trigger_default(id).unwrap());
    assert_eq!(te.status(id), 6);
    let stats = te.stats();
    assert_eq!(stats.total_funded, 0);
    assert_eq!(stats.active_invoice_count, 0);
    assert_eq!(stats.total_deposits, 100_000_000_000 - 9_800_000_000);
    assert_eq!(stats.available_liquidity, 100_000_000_000 - 9_800_000_000);
    assert_eq!(te.p.escrow.get_locked(id), 0);
    // Escrow returned the locked funds to the pool.
    assert_eq!(te.balance(usdc, pool), 100_000_000_000);
}

#[test]
fn test_events_emitted_during_funding() {
    let mut te = setup();
    let (lp, usdc) = (te.lp, te.usdc_id);
    te.deposit(lp, 100_000_000_000).unwrap();
    let id = te.create_and_list(usdc);
    let history_before = te.p.escrow.get_history(id).len();
    te.fund_invoice(id).unwrap();
    let history = te.p.escrow.get_history(id);
    assert_eq!(history.len(), history_before + 1);
    assert_eq!(history[0].action, EscrowAction::Locked);
    assert_eq!(history[0].amount, DEFAULT_FUNDED_AMOUNT);
    assert_eq!(te.p.invoice.get(id).unwrap().status, InvoiceStatus::Funded);
}

#[test]
fn test_events_emitted_during_repayment() {
    let mut te = setup();
    let (lp, usdc, issuer, buyer) = (te.lp, te.usdc_id, te.issuer, te.buyer);
    te.deposit(lp, 100_000_000_000).unwrap();
    let id = te.create_and_list(usdc);
    te.fund_invoice(id).unwrap();
    te.mark_shipped(id);
    te.confirm_delivery(id, issuer);
    te.confirm_delivery(id, buyer);
    te.now += 86401;
    let history_before = te.p.escrow.get_history(id).len();
    te.repay(id).unwrap();
    let history = te.p.escrow.get_history(id);
    assert_eq!(history.len(), history_before + 1);
    assert_eq!(history.last().unwrap().action, EscrowAction::ReleasedToPool);
    assert_eq!(te.stats().total_yield_distributed, DEFAULT_YIELD_AMOUNT);
    assert_eq!(te.p.invoice.get(id).unwrap().repaid_at, Some(te.now));
}

#[test]
fn test_two_lifecycles_with_two_lps() {
    let mut te = setup();
    let (lp, usdc, issuer, buyer) = (te.lp, te.usdc_id, te.issuer, te.buyer);
    let lp2 = te.create_lp_with_balance(100_000_000_000_000i128);
    te.deposit(lp, 10_000_000_000).unwrap();
    te.deposit(lp2, 30_000_000_000).unwrap();
    let id = te.create_and_list(usdc);
    te.fund_invoice(id).unwrap();
    te.mark_shipped(id);
    te.confirm_delivery(id, issuer);
    te.confirm_delivery(id, buyer);
    te.now += 86401;
    te.repay(id).unwrap();
    let pos1 = te.position(lp);
    let pos2 = te.position(lp2);
    assert_eq!(pos1.shares, 10_000_000_000);
    assert_eq!(pos2.shares, 30_000_000_000);
    assert_eq!(pos1.usdc_value, 10_050_000_000);
    assert_eq!(pos2.usdc_value, 30_150_000_000);
}

#[test]
fn test_double_funding_rejected() {
    let mut te = setup();
    let (lp, usdc) = (te.lp, te.usdc_id);
    te.deposit(lp, 100_000_000_000).unwrap();
    let id = te.create_and_list(usdc);
    te.fund_invoice(id).unwrap();
    let result = te.fund_invoice(id);
    assert!(result.is_err());
}

#[test]
fn test_handle_default_unknown_returns_false() {
    let mut te = setup();
    let before = te.stats();
    let result = te.pool_handle_default(InvoiceId([0u8; 32]));
    // The pool refuses an invoice it never funded and changes nothing.
    assert!(!result.unwrap_or(false));
    assert_eq!(te.stats(), before);
}

#[test]
fn test_cross_contract_invoice_pool_escrow_lifecycle() {
    let mut te = world_with_cap(Some(10000));
    let (admin, issuer, buyer, lp, usdc) = (te.admin, te.issuer, te.buyer, te.lp, te.usdc_id);
    te.p.registry.verify_profile(issuer, true).unwrap();
    te.p.registry.verify_profile(buyer, true).unwrap();
    assert!(te.p.registry.is_verified(issuer));
    assert!(te.p.registry.is_verified(buyer));
    let _ = admin;

    let face_value = 1_200_000_000u128;
    let due_date = te.now + 86400 * 30;
    let id = te.create(face_value, due_date, usdc).unwrap();
    assert_eq!(te.status(id), InvoiceStatus::Created.code());
    te.p.invoice.list_for_financing(id, 1666, te.now).unwrap();

    let deposit_amount = 10_000_000_000u128;
    let shares = te.deposit(lp, deposit_amount).unwrap();
    assert!(shares > 0);
    assert!(te.fund_invoice(id).unwrap());
    assert_eq!(te.status(id), InvoiceStatus::Funded.code());
    assert!(te.receive_repayment(id, face_value).unwrap());
    let returned = te.withdraw(lp, shares).unwrap();
    assert!(returned > deposit_amount, "LP must receive yield on top of deposit");
}

#[test]
fn test_unverified_party_cannot_create_invoice() {
    let mut te = setup();
    let (issuer, usdc) = (te.issuer, te.usdc_id);
    te.p.registry.revoke(issuer).unwrap();
    let due = te.now + 86400;
    assert_eq!(te.create(DEFAULT_FACE_VALUE, due, usdc), Err(Fail::Invoice(InvoiceError::IssuerNotVerified)));
}

#[test]
fn test_early_repayment_refunds_unearned_discount() {
    let mut te = setup();
    let (lp, usdc, issuer, buyer) = (te.lp, te.usdc_id, te.issuer, te.buyer);
    te.deposit(lp, 100_000_000_000).unwrap();
    let id = te.create_and_list(usdc);
    te.fund_invoice(id).unwrap();
    te.mark_shipped(id);
    te.confirm_delivery(id, issuer);
    te.confirm_delivery(id, buyer);
    // Half the term has elapsed: the pool earned half of the discount.
    te.now += 43200;
    let rep = te.p.invoice.repay_early(id, te.now).unwrap();
    assert_eq!(rep.amount, DEFAULT_FACE_VALUE);
    assert_eq!(rep.refund, DEFAULT_YIELD_AMOUNT / 2);
    assert_eq!(te.status(id), 5);
}

// ---------------------------------------------------------------- laws on concrete values

#[test]
fn test_deposit_then_redeem_gains_nothing_at_a_raised_price() {
    let mut te = setup();
    let lp = te.lp;
    te.deposit(lp, 10_000_000_000).unwrap();
    te.fund_and_repay_invoice();
    let lp2 = te.create_lp_with_balance(10_000_000_000);
    let shares = te.deposit(lp2, 1_000).unwrap();
    assert_eq!(shares, 1_000 * 10_000_000_000 / 10_200_000_000);
    let paid = te.withdraw(lp2, shares).unwrap();
    assert!(paid <= 1_000);
    assert_eq!(paid, 999);
}

#[test]
fn test_share_supply_is_the_sum_of_positions() {
    let mut te = setup();
    let lp = te.lp;
    let lp2 = te.create_lp_with_balance(100_000_000_000);
    let lp3 = te.create_lp_with_balance(100_000_000_000);
    te.deposit(lp, 10_000_000_000).unwrap();
    te.deposit(lp2, 7_000_000_000).unwrap();
    te.fund_and_repay_invoice();
    te.deposit(lp3, 3_000_000_000).unwrap();
    te.withdraw(lp2, 2_000_000_000).unwrap();
    let total: u128 = [lp, lp2, lp3].iter().map(|a| te.position(*a).shares).sum();
    assert_eq!(te.stats().total_shares, total);
}

#[test]
fn test_repaid_invoice_cannot_be_repaid_or_defaulted_again() {
    let mut te = setup();
    let lp = te.lp;
    te.deposit(lp, 10_000_000_000).unwrap();
    let id = te.fund_and_repay_invoice();
    assert_eq!(te.repay(id), Err(Fail::Invoice(InvoiceError::InvalidStatusTransition)));
    assert_eq!(te.trigger_default(id), Err(Fail::Invoice(InvoiceError::InvalidStatusTransition)));
    assert_eq!(te.pool_handle_default(id), Err(Fail::Pool(PoolError::InvoiceNotFound)));
}

#[test]
fn test_utilization_stays_within_cap_after_funding() {
    let mut te = setup();
    let (lp, usdc, admin) = (te.lp, te.usdc_id, te.admin);
    te.p.pool.set_max_utilization(admin, 5000).unwrap();
    te.deposit(lp, 30_000_000_000).unwrap();
    let id = te.create_and_list(usdc);
    te.fund_invoice(id).unwrap();
    let s = te.stats();
    assert!(s.utilization_rate_bps <= s.max_utilization_bps);
    assert_eq!(s.utilization_rate_bps, (DEFAULT_FUNDED_AMOUNT * 10000 / 30_000_000_000) as u32);
}

#[test]
fn test_refused_flow_changes_nothing() {
    let mut te = setup();
    let (lp, usdc) = (te.lp, te.usdc_id);
    te.deposit(lp, 100_000_000_000).unwrap();
    let id = te.create_and_list(usdc);
    // Escrow already holds funds for this invoice: the whole funding is refused.
    te.p.escrow.lock(id, 5, te.now).unwrap();
    let before = te.stats();
    assert_eq!(te.fund_invoice(id), Err(Fail::Escrow(trusttrove::escrow::EscrowError::AlreadyLocked)));
    assert_eq!(te.stats(), before);
    assert_eq!(te.status(id), 1);
    assert_eq!(te.p.escrow.get_locked(id), 5);
}

#[test]
fn test_early_default_is_refused_by_escrow_grace_period() {
    let mut te = setup();
    let (lp, usdc) = (te.lp, te.usdc_id);
    te.deposit(lp, 100_000_000_000).unwrap();
    let id = te.create_and_list(usdc);
    te.fund_invoice(id).unwrap();
    te.now += 30;
    let before = te.stats();
    assert_eq!(te.pool_handle_default(id), Err(Fail::Escrow(trusttrove::escrow::EscrowError::NotAuthorized)));
    assert_eq!(te.stats(), before);
    assert_eq!(te.status(id), 2);
}
