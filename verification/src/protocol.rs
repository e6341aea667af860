//! The registry, invoice, escrow and pool contracts deployed together, and
//! the flows that cross them: funding an invoice (pool, escrow, invoice),
//! repaying it (invoice, escrow, pool) and defaulting it (invoice, pool,
//! escrow). Each flow checks every contract it involves before changing any,
//! so a refused flow leaves the whole deployment as it was, as a reverted
//! host transaction would.

use vstd::prelude::*;
use crate::escrow::{
    EscrowAction, EscrowContract, EscrowError, EscrowLedger, Transfer, handle_default_error,
    lock_error, locked_ledger, release_to_pool_error, released_ledger,
};
use crate::ids::{Addr, InvoiceId, invoice_id_of, MAX_DIGEST_INPUT};
use crate::invoice::{
    InvoiceBook, InvoiceContract, InvoiceError, Repayment, after_create, create_error,
    defaulted_book, early_discount, funded_book, is_outstanding, mark_defaulted_error,
    mark_funded_error, new_invoice, read_error, repaid_book, repay_discount, repay_early_error,
    repay_error, settlement, status_code, trigger_default_error, InvoiceStatus, sat_sub,
    law_refund_within_discount, follows_lifecycle,
};
use crate::pool::{
    Funding, PoolContract, PoolError, PoolLedger, after_default, after_fund, after_repayment,
    default_error, fund_error, funded_amount_of, repayment_error, DEFAULT_MAX_UTILIZATION_BPS,
};
use crate::registry::{RegistryContract, RegistryState, verified_of};

verus! {

/// The contract that refused a flow, with its error.
#[derive(Clone, Copy, Debug, PartialEq, Eq, Structural)]
pub enum ProtocolError {
    Invoice(InvoiceError),
    Escrow(EscrowError),
    Pool(PoolError),
}

impl ProtocolError {
    /// The refusing contract's error number.
    pub fn code(&self) -> (c: u32)
        ensures
            c == match *self {
                ProtocolError::Invoice(e) => e.code_of(),
                ProtocolError::Escrow(e) => e.code_of(),
                ProtocolError::Pool(e) => e.code_of(),
            },
    {
        match self {
            ProtocolError::Invoice(e) => e.code(),
            ProtocolError::Escrow(e) => e.code(),
            ProtocolError::Pool(e) => e.code(),
        }
    }
}

/// Abstract state of a deployment.
pub struct ProtocolState {
    pub registry: RegistryState,
    pub invoice: InvoiceBook,
    pub escrow: EscrowLedger,
    pub pool: PoolLedger,
}

/// The token movements of a repayment: the buyer's payment into escrow, its
/// release to the pool, the refund of the unearned discount if any, and the
/// yield the pool booked.
#[derive(Clone, Copy, Debug, PartialEq, Eq)]
pub struct RepaymentTransfers {
    pub payment: Transfer,
    pub release: Transfer,
    pub refund: Option<Transfer>,
    pub yield_amount: u128,
}

/// A deployment of the four contracts.
pub struct Protocol {
    pub registry: RegistryContract,
    pub invoice: InvoiceContract,
    pub escrow: EscrowContract,
    pub pool: PoolContract,
}

impl View for Protocol {
    type V = ProtocolState;

    open spec fn view(&self) -> ProtocolState {
        ProtocolState {
            registry: self.registry@,
            invoice: self.invoice@,
            escrow: self.escrow@,
            pool: self.pool@,
        }
    }
}

/// Whether the registry reports `a` as verified.
pub open spec fn registry_verified(r: RegistryState, a: Addr) -> bool {
    r.profiles.contains_key(a) && verified_of(r.profiles[a].packed_flags)
}

/// The amount a funding of `id` deploys.
pub open spec fn flow_amount(p: ProtocolState, id: InvoiceId) -> u128 {
    funded_amount_of(p.invoice.invoices[id].face_value, p.invoice.invoices[id].discount_bps) as u128
}

/// Why funding `id` fails, if it does: the invoice cannot be read, the pool
/// refuses its terms, escrow refuses the lock, or the invoice refuses to be
/// marked funded, checked in that order.
pub open spec fn fund_flow_error(p: ProtocolState, id: InvoiceId) -> Option<ProtocolError> {
    let inv = p.invoice.invoices[id];
    let amount = flow_amount(p, id);
    if read_error(p.invoice, id) is Some {
        Some(ProtocolError::Invoice(read_error(p.invoice, id).unwrap()))
    } else if fund_error(
        p.pool,
        id,
        status_code(inv.status),
        inv.face_value,
        inv.discount_bps,
        inv.funding_asset,
    ) is Some {
        Some(
            ProtocolError::Pool(
                fund_error(
                    p.pool,
                    id,
                    status_code(inv.status),
                    inv.face_value,
                    inv.discount_bps,
                    inv.funding_asset,
                ).unwrap(),
            ),
        )
    } else if lock_error(p.escrow, id, amount) is Some {
        Some(ProtocolError::Escrow(lock_error(p.escrow, id, amount).unwrap()))
    } else if mark_funded_error(p.invoice, id, p.pool.this, p.pool.config.unwrap().usdc_asset, amount)
        is Some {
        Some(
            ProtocolError::Invoice(
                mark_funded_error(
                    p.invoice,
                    id,
                    p.pool.this,
                    p.pool.config.unwrap().usdc_asset,
                    amount,
                ).unwrap(),
            ),
        )
    } else {
        None
    }
}

/// The deployment after `id` is funded at `now`.
pub open spec fn funded_state(p: ProtocolState, id: InvoiceId, now: u64) -> ProtocolState {
    let amount = flow_amount(p, id);
    ProtocolState {
        pool: after_fund(p.pool, id, amount),
        escrow: locked_ledger(p.escrow, id, amount, now),
        invoice: funded_book(p.invoice, id, p.pool.this, amount, now),
        registry: p.registry,
    }
}

/// The settlement a repayment of `id` at `now` carries out (`early` for an
/// early repayment).
pub open spec fn flow_settlement(p: ProtocolState, id: InvoiceId, now: u64, early: bool) -> Repayment {
    let inv = p.invoice.invoices[id];
    settlement(
        p.invoice,
        inv,
        if early {
            early_discount(inv)
        } else {
            repay_discount(inv)
        },
        now,
    )
}

/// Why repaying `id` at `now` fails, if it does: the invoice refuses the
/// repayment, escrow refuses to release it to the pool, or the pool refuses
/// to settle it, checked in that order.
pub open spec fn repay_flow_error(p: ProtocolState, id: InvoiceId, now: u64, early: bool) -> Option<
    ProtocolError,
> {
    let ierr = if early {
        repay_early_error(p.invoice, id, now)
    } else {
        repay_error(p.invoice, id, now)
    };
    let rep = flow_settlement(p, id, now, early);
    if ierr is Some {
        Some(ProtocolError::Invoice(ierr.unwrap()))
    } else if release_to_pool_error(p.escrow, id, rep.amount) is Some {
        Some(ProtocolError::Escrow(release_to_pool_error(p.escrow, id, rep.amount).unwrap()))
    } else if repayment_error(p.pool, id, rep.amount, rep.refund) is Some {
        Some(ProtocolError::Pool(repayment_error(p.pool, id, rep.amount, rep.refund).unwrap()))
    } else {
        None
    }
}

/// The yield the pool books for the repayment of `id`.
pub open spec fn flow_yield(p: ProtocolState, id: InvoiceId, now: u64, early: bool) -> int {
    let rep = flow_settlement(p, id, now, early);
    rep.amount - p.pool.funded[id] - rep.refund
}

/// The deployment after the repayment of `id` at `now`.
pub open spec fn repaid_state(p: ProtocolState, id: InvoiceId, now: u64, early: bool) -> ProtocolState {
    let rep = flow_settlement(p, id, now, early);
    ProtocolState {
        invoice: repaid_book(p.invoice, id, now),
        escrow: released_ledger(p.escrow, id, EscrowAction::ReleasedToPool, rep.amount, now, None),
        pool: after_repayment(p.pool, id, flow_yield(p, id, now, early)),
        registry: p.registry,
    }
}

/// Why the pool's default handling of `id` at `now` fails, if it does: the
/// pool refuses, escrow refuses to return the locked funds, or the invoice
/// refuses to be marked defaulted, checked in that order.
pub open spec fn pool_default_flow_error(p: ProtocolState, id: InvoiceId, now: u64) -> Option<
    ProtocolError,
> {
    if default_error(p.pool, id) is Some {
        Some(ProtocolError::Pool(default_error(p.pool, id).unwrap()))
    } else if p.escrow.locked.contains_key(id) && handle_default_error(p.escrow, id, p.pool.this, now)
        is Some {
        Some(ProtocolError::Escrow(handle_default_error(p.escrow, id, p.pool.this, now).unwrap()))
    } else if mark_defaulted_error(p.invoice, id) is Some {
        Some(ProtocolError::Invoice(mark_defaulted_error(p.invoice, id).unwrap()))
    } else {
        None
    }
}

/// The deployment after the pool handled the default of `id` at `now`.
pub open spec fn pool_defaulted_state(p: ProtocolState, id: InvoiceId, now: u64) -> ProtocolState {
    ProtocolState {
        pool: after_default(p.pool, id),
        escrow: if p.escrow.locked.contains_key(id) {
            released_ledger(
                p.escrow,
                id,
                EscrowAction::DefaultHandled,
                p.escrow.locked[id].amount,
                now,
                Some(p.pool.this),
            )
        } else {
            p.escrow
        },
        invoice: if is_outstanding(p.invoice.invoices[id].status) {
            defaulted_book(p.invoice, id)
        } else {
            p.invoice
        },
        registry: p.registry,
    }
}

/// The deployment after the invoice contract defaulted `id`.
pub open spec fn triggered_state(p: ProtocolState, id: InvoiceId) -> ProtocolState {
    ProtocolState { invoice: defaulted_book(p.invoice, id), ..p }
}

/// Why defaulting `id` at `now` fails, if it does: the invoice refuses the
/// default, then the pool's default handling fails.
pub open spec fn default_flow_error(p: ProtocolState, id: InvoiceId, now: u64) -> Option<ProtocolError> {
    if trigger_default_error(p.invoice, id, now) is Some {
        Some(ProtocolError::Invoice(trigger_default_error(p.invoice, id, now).unwrap()))
    } else {
        pool_default_flow_error(triggered_state(p, id), id, now)
    }
}

/// What a repayment flow returned, `r`, says of the deployment before, `p`,
/// and after, `q`.
pub open spec fn repay_outcome(
    p: ProtocolState,
    q: ProtocolState,
    id: InvoiceId,
    now: u64,
    early: bool,
    r: Result<RepaymentTransfers, ProtocolError>,
) -> bool {
    match r {
        Ok(x) => {
            let rep = flow_settlement(p, id, now, early);
            let ec = p.escrow.config.unwrap();
            &&& repay_flow_error(p, id, now, early) is None
            &&& x.payment == (Transfer {
                token: rep.asset,
                from: rep.buyer,
                to: rep.escrow,
                amount: rep.amount,
            })
            &&& x.release == (Transfer {
                token: ec.usdc,
                from: p.escrow.this,
                to: ec.pool,
                amount: rep.amount,
            })
            &&& x.refund == if rep.refund > 0 {
                Some(
                    Transfer {
                        token: p.pool.config.unwrap().usdc_asset,
                        from: p.pool.this,
                        to: rep.buyer,
                        amount: rep.refund,
                    },
                )
            } else {
                None
            }
            &&& x.yield_amount == flow_yield(p, id, now, early)
            &&& q == repaid_state(p, id, now, early)
        },
        Err(e) => repay_flow_error(p, id, now, early) == Some(e) && q == p,
    }
}

/// What the pool's default handling returned, `r`, says of the deployment
/// before, `p`, and after, `q`.
pub open spec fn pool_default_outcome(
    p: ProtocolState,
    q: ProtocolState,
    id: InvoiceId,
    now: u64,
    r: Result<(u128, Option<Transfer>), ProtocolError>,
) -> bool {
    match r {
        Ok((loss, t)) => {
            let ec = p.escrow.config.unwrap();
            &&& pool_default_flow_error(p, id, now) is None
            &&& loss == p.pool.funded[id]
            &&& t == if p.escrow.locked.contains_key(id) {
                Some(
                    Transfer {
                        token: ec.usdc,
                        from: p.escrow.this,
                        to: ec.pool,
                        amount: p.escrow.locked[id].amount,
                    },
                )
            } else {
                None
            }
            &&& q == pool_defaulted_state(p, id, now)
        },
        Err(e) => pool_default_flow_error(p, id, now) == Some(e) && q == p,
    }
}

impl Protocol {
    pub open spec fn wf(&self) -> bool {
        &&& self.registry.wf()
        &&& self.invoice.wf()
        &&& self.escrow.wf()
        &&& self.pool.wf()
    }

    /// A deployment with nothing configured: escrow at `escrow_address`, the
    /// pool at `pool_address`.
    pub fn new(escrow_address: Addr, pool_address: Addr) -> (p: Self)
        ensures
            p.wf(),
            p@.registry == (RegistryState { admin: None, profiles: Map::empty() }),
            p@.invoice == (InvoiceBook {
                admin: None,
                registry: None,
                pool: None,
                escrow: None,
                counter: None,
                expiry_window: None,
                supported: Map::empty(),
                supported_count: 0,
                invoices: Map::empty(),
                by_issuer: Map::empty(),
                by_buyer: Map::empty(),
                by_status: Map::empty(),
                counts: Map::empty(),
                fresh_ids: true,
            }),
            p@.escrow == (EscrowLedger {
                this: escrow_address,
                config: None,
                locked: Map::empty(),
                history: Map::empty(),
            }),
            p@.pool == (PoolLedger {
                this: pool_address,
                config: None,
                total_shares: 0,
                total_deposits: 0,
                total_funded: 0,
                total_yield_distributed: 0,
                total_loss_realised: 0,
                active_invoice_count: 0,
                max_utilization_bps: DEFAULT_MAX_UTILIZATION_BPS,
                accounts: Map::empty(),
                funded: Map::empty(),
            }),
    {
        Protocol {
            registry: RegistryContract::new(),
            invoice: InvoiceContract::new(),
            escrow: EscrowContract::new(escrow_address),
            pool: PoolContract::new(pool_address),
        }
    }

    /// Creates an invoice, asking the registry whether issuer and buyer are
    /// verified.
    pub fn create_invoice(
        &mut self,
        issuer: Addr,
        buyer: Addr,
        face_value: u128,
        due_date: u64,
        funding_asset: Addr,
        now: u64,
        issuer_enc: &Vec<u8>,
        buyer_enc: &Vec<u8>,
        asset_enc: &Vec<u8>,
    ) -> (r: Result<InvoiceId, InvoiceError>)
        requires
            old(self).wf(),
            issuer_enc@.len() + buyer_enc@.len() + asset_enc@.len() + 40 <= MAX_DIGEST_INPUT,
        ensures
            final(self).wf(),
            final(self)@.invoice.fresh_ids ==> follows_lifecycle(old(self)@.invoice, final(self)@.invoice),
            ({
                let p = old(self)@;
                let err = create_error(
                    p.invoice,
                    issuer,
                    buyer,
                    face_value,
                    due_date,
                    funding_asset,
                    now,
                    registry_verified(p.registry, issuer),
                    registry_verified(p.registry, buyer),
                );
                match r {
                    Ok(id) => {
                        &&& err is None
                        &&& id.0@ == invoice_id_of(
                            issuer_enc@,
                            buyer_enc@,
                            face_value,
                            due_date,
                            p.invoice.counter.unwrap(),
                            asset_enc@,
                        )
                        &&& final(self)@ == (ProtocolState {
                            invoice: after_create(
                                p.invoice,
                                id,
                                new_invoice(id, issuer, buyer, face_value, due_date, funding_asset, now),
                            ),
                            ..p
                        })
                    },
                    Err(e) => err == Some(e) && final(self)@ == p,
                }
            }),
    {
        let issuer_verified = self.registry.is_verified(issuer);
        let buyer_verified = self.registry.is_verified(buyer);
        self.invoice.create(
            issuer,
            buyer,
            face_value,
            due_date,
            funding_asset,
            now,
            issuer_verified,
            buyer_verified,
            issuer_enc,
            buyer_enc,
            asset_enc,
        )
    }

    /// Funds the listed invoice `invoice_id` from the pool at `now`: the pool
    /// books the funding, escrow locks the funds, and the invoice is marked
    /// funded by the pool. Returns the funding and the transfer into escrow.
    pub fn fund_invoice(&mut self, invoice_id: InvoiceId, now: u64) -> (r: Result<
        (Funding, Transfer),
        ProtocolError,
    >)
        requires
            old(self).wf(),
        ensures
            final(self).wf(),
            follows_lifecycle(old(self)@.invoice, final(self)@.invoice),
            match r {
                Ok((f, t)) => {
                    let p = old(self)@;
                    let amount = flow_amount(p, invoice_id);
                    let pc = p.pool.config.unwrap();
                    let ec = p.escrow.config.unwrap();
                    &&& fund_flow_error(p, invoice_id) is None
                    &&& f == (Funding {
                        escrow: pc.escrow_contract,
                        invoice_contract: pc.invoice_contract,
                        asset: pc.usdc_asset,
                        amount,
                    })
                    &&& t == (Transfer { token: ec.usdc, from: ec.pool, to: p.escrow.this, amount })
                    &&& final(self)@ == funded_state(p, invoice_id, now)
                },
                Err(e) => fund_flow_error(old(self)@, invoice_id) == Some(e) && final(self)@ == old(
                    self,
                )@,
            },
    {
        let inv = match self.invoice.get(invoice_id) {
            Ok(inv) => inv,
            Err(e) => {
                return Err(ProtocolError::Invoice(e));
            },
        };
        let status = inv.status.code();
        let amount = match self.pool.fund_check(
            invoice_id,
            status,
            inv.face_value,
            inv.discount_bps,
            inv.funding_asset,
        ) {
            Ok(a) => a,
            Err(e) => {
                return Err(ProtocolError::Pool(e));
            },
        };
        match self.escrow.lock_check(invoice_id, amount) {
            Some(e) => {
                return Err(ProtocolError::Escrow(e));
            },
            None => {},
        }
        let usdc = match self.pool.get_usdc_asset() {
            Ok(a) => a,
            Err(e) => {
                return Err(ProtocolError::Pool(e));
            },
        };
        let pool_address = self.pool.address();
        match self.invoice.mark_funded_check(invoice_id, pool_address, usdc, amount) {
            Some(e) => {
                return Err(ProtocolError::Invoice(e));
            },
            None => {},
        }
        let f = match self.pool.fund_invoice(
            invoice_id,
            status,
            inv.face_value,
            inv.discount_bps,
            inv.funding_asset,
        ) {
            Ok(f) => f,
            Err(e) => {
                return Err(ProtocolError::Pool(e));
            },
        };
        let t = match self.escrow.lock(invoice_id, amount, now) {
            Ok(t) => t,
            Err(e) => {
                return Err(ProtocolError::Escrow(e));
            },
        };
        match self.invoice.mark_funded(invoice_id, pool_address, usdc, amount, now) {
            Ok(()) => {},
            Err(e) => {
                return Err(ProtocolError::Invoice(e));
            },
        }
        Ok((f, t))
    }

    fn settle_repayment(&mut self, invoice_id: InvoiceId, now: u64, early: bool) -> (r: Result<
        RepaymentTransfers,
        ProtocolError,
    >)
        requires
            old(self).wf(),
        ensures
            final(self).wf(),
            repay_outcome(old(self)@, final(self)@, invoice_id, now, early, r),
    {
        let quote = if early {
            self.invoice.repay_early_quote(invoice_id, now)
        } else {
            self.invoice.repay_quote(invoice_id, now)
        };
        let rep = match quote {
            Ok(rep) => rep,
            Err(e) => {
                return Err(ProtocolError::Invoice(e));
            },
        };
        match self.escrow.release_to_pool_check(invoice_id, rep.amount) {
            Some(e) => {
                return Err(ProtocolError::Escrow(e));
            },
            None => {},
        }
        match self.pool.repayment_check(invoice_id, rep.amount, rep.refund) {
            Some(e) => {
                return Err(ProtocolError::Pool(e));
            },
            None => {},
        }
        let done = if early {
            self.invoice.repay_early(invoice_id, now)
        } else {
            self.invoice.repay(invoice_id, now)
        };
        match done {
            Ok(_) => {},
            Err(e) => {
                return Err(ProtocolError::Invoice(e));
            },
        }
        let release = match self.escrow.release_to_pool(invoice_id, rep.amount, now) {
            Ok(t) => t,
            Err(e) => {
                return Err(ProtocolError::Escrow(e));
            },
        };
        let (yield_amount, refund) = match self.pool.receive_repayment_with_refund(
            invoice_id,
            rep.amount,
            rep.refund,
            rep.buyer,
        ) {
            Ok(x) => x,
            Err(e) => {
                return Err(ProtocolError::Pool(e));
            },
        };
        Ok(
            RepaymentTransfers {
                payment: Transfer {
                    token: rep.asset,
                    from: rep.buyer,
                    to: rep.escrow,
                    amount: rep.amount,
                },
                release,
                refund,
                yield_amount,
            },
        )
    }

    /// Repays a confirmed invoice at `now`: the buyer pays the face value
    /// into escrow, escrow releases it to the pool, and the pool books the
    /// yield and refunds the unearned discount.
    pub fn repay(&mut self, invoice_id: InvoiceId, now: u64) -> (r: Result<
        RepaymentTransfers,
        ProtocolError,
    >)
        requires
            old(self).wf(),
        ensures
            final(self).wf(),
            follows_lifecycle(old(self)@.invoice, final(self)@.invoice),
            repay_outcome(old(self)@, final(self)@, invoice_id, now, false, r),
    {
        self.settle_repayment(invoice_id, now, false)
    }

    /// Repays a confirmed invoice before its due date, as `repay` does but
    /// refunding the unearned part of the listing discount.
    pub fn repay_early(&mut self, invoice_id: InvoiceId, now: u64) -> (r: Result<
        RepaymentTransfers,
        ProtocolError,
    >)
        requires
            old(self).wf(),
        ensures
            final(self).wf(),
            follows_lifecycle(old(self)@.invoice, final(self)@.invoice),
            repay_outcome(old(self)@, final(self)@, invoice_id, now, true, r),
    {
        self.settle_repayment(invoice_id, now, true)
    }

    /// The pool's handling of the default of `invoice_id` at `now`: the pool
    /// writes the funded amount off, escrow returns what it still holds for
    /// the invoice to the pool, and the invoice is marked defaulted. Returns
    /// the loss and the transfer out of escrow, if any.
    pub fn handle_default(&mut self, invoice_id: InvoiceId, now: u64) -> (r: Result<
        (u128, Option<Transfer>),
        ProtocolError,
    >)
        requires
            old(self).wf(),
            old(self)@.escrow.locked.contains_key(invoice_id) ==> old(self)@.escrow.locked[invoice_id].locked_at
                <= now,
        ensures
            final(self).wf(),
            follows_lifecycle(old(self)@.invoice, final(self)@.invoice),
            pool_default_outcome(old(self)@, final(self)@, invoice_id, now, r),
    {
        match self.pool.default_check(invoice_id) {
            Some(e) => {
                return Err(ProtocolError::Pool(e));
            },
            None => {},
        }
        let pool_address = self.pool.address();
        match self.escrow.handle_default_check(invoice_id, pool_address, now) {
            Some(e) => {
                return Err(ProtocolError::Escrow(e));
            },
            None => {},
        }
        match self.invoice.mark_defaulted_check(invoice_id) {
            Some(e) => {
                return Err(ProtocolError::Invoice(e));
            },
            None => {},
        }
        let loss = match self.pool.handle_default(invoice_id) {
            Ok(x) => x,
            Err(e) => {
                return Err(ProtocolError::Pool(e));
            },
        };
        let t = match self.escrow.handle_default(invoice_id, pool_address, now) {
            Ok(t) => t,
            Err(e) => {
                return Err(ProtocolError::Escrow(e));
            },
        };
        match self.invoice.mark_defaulted(invoice_id) {
            Ok(_) => {},
            Err(e) => {
                return Err(ProtocolError::Invoice(e));
            },
        }
        Ok((loss, t))
    }

    /// Defaults a past-due outstanding invoice at `now`: the invoice contract
    /// marks it defaulted and hands on to the pool's default handling.
    pub fn trigger_default(&mut self, invoice_id: InvoiceId, now: u64) -> (r: Result<
        (u128, Option<Transfer>),
        ProtocolError,
    >)
        requires
            old(self).wf(),
            old(self)@.escrow.locked.contains_key(invoice_id) ==> old(self)@.escrow.locked[invoice_id].locked_at
                <= now,
        ensures
            final(self).wf(),
            follows_lifecycle(old(self)@.invoice, final(self)@.invoice),
            match r {
                Ok(x) => trigger_default_error(old(self)@.invoice, invoice_id, now) is None
                    && pool_default_outcome(
                    triggered_state(old(self)@, invoice_id),
                    final(self)@,
                    invoice_id,
                    now,
                    Ok(x),
                ),
                Err(e) => default_flow_error(old(self)@, invoice_id, now) == Some(e) && final(self)@
                    == old(self)@,
            },
    {
        match self.invoice.trigger_default_check(invoice_id, now) {
            Some(e) => {
                return Err(ProtocolError::Invoice(e));
            },
            None => {},
        }
        match self.pool.default_check(invoice_id) {
            Some(e) => {
                return Err(ProtocolError::Pool(e));
            },
            None => {},
        }
        let pool_address = self.pool.address();
        match self.escrow.handle_default_check(invoice_id, pool_address, now) {
            Some(e) => {
                return Err(ProtocolError::Escrow(e));
            },
            None => {},
        }
        match self.invoice.trigger_default(invoice_id, now) {
            Ok(_) => {},
            Err(e) => {
                return Err(ProtocolError::Invoice(e));
            },
        }
        proof {
            let b = self@.invoice;
            assert(b.invoices.contains_key(invoice_id));
            assert(b.invoices[invoice_id].status == crate::invoice::InvoiceStatus::Defaulted);
            assert(mark_defaulted_error(b, invoice_id) is None);
        }
        self.handle_default(invoice_id, now)
    }
}

/// A funded invoice is funded consistently across the contracts: escrow
/// holds exactly what the pool deployed, which is what the invoice records as
/// funded, by this pool.
pub proof fn law_funding_agrees_across_contracts(p: ProtocolState, id: InvoiceId, now: u64)
    requires
        fund_flow_error(p, id) is None,
    ensures
        ({
            let q = funded_state(p, id, now);
            &&& q.escrow.locked[id].amount == q.pool.funded[id]
            &&& q.invoice.invoices[id].funded_amount == q.pool.funded[id]
            &&& q.pool.funded[id] == flow_amount(p, id)
            &&& q.invoice.invoices[id].funding_pool == Some(p.pool.this)
            &&& q.invoice.invoices[id].status == InvoiceStatus::Funded
        }),
{
}

/// A repayment settles the invoice everywhere: nothing stays locked in
/// escrow or deployed by the pool for it, and the invoice is repaid.
pub proof fn law_repayment_settles_everywhere(p: ProtocolState, id: InvoiceId, now: u64, early: bool)
    requires
        repay_flow_error(p, id, now, early) is None,
    ensures
        ({
            let q = repaid_state(p, id, now, early);
            &&& !q.escrow.locked.contains_key(id)
            &&& !q.pool.funded.contains_key(id)
            &&& q.invoice.invoices[id].status == InvoiceStatus::Repaid
            &&& flow_yield(p, id, now, early) >= 0
        }),
{
}

/// A default settles the invoice everywhere: nothing stays locked in escrow
/// or deployed by the pool for it, and the invoice is defaulted.
pub proof fn law_default_settles_everywhere(p: ProtocolState, id: InvoiceId, now: u64)
    requires
        default_flow_error(p, id, now) is None,
    ensures
        ({
            let q = pool_defaulted_state(triggered_state(p, id), id, now);
            &&& !q.escrow.locked.contains_key(id)
            &&& !q.pool.funded.contains_key(id)
            &&& q.invoice.invoices[id].status == InvoiceStatus::Defaulted
            &&& q.pool.total_shares == p.pool.total_shares
        }),
{
}

/// Repaid on or after its due date, an invoice earns the pool its whole
/// discount: the yield booked is the face value less the funded amount.
pub proof fn law_full_term_yield_is_the_discount(p: ProtocolState, id: InvoiceId, now: u64)
    requires
        repay_flow_error(p, id, now, false) is None,
        now >= p.invoice.invoices[id].due_date,
        p.invoice.invoices[id].funded_amount == p.pool.funded[id],
    ensures
        flow_settlement(p, id, now, false).refund == 0,
        flow_yield(p, id, now, false) == p.invoice.invoices[id].face_value - p.invoice.invoices[
            id
        ].funded_amount,
{
    let inv = p.invoice.invoices[id];
    let fa = inv.funded_at.unwrap() as int;
    let elapsed = sat_sub(now as int, fa);
    let term = sat_sub(inv.due_date as int, fa);
    law_refund_within_discount(repay_discount(inv), elapsed, term);
}

} // verus!
