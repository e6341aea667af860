//! The invoice lifecycle state machine.
//!
//! ```text
//! Created -> Listed -> Funded -> Active -> Confirmed -> Repaid
//!              |          \________\__________\______-> Defaulted
//!              +-> Expired
//! ```
//!
//! Every transition is guarded by an explicit status check. Authorization and
//! the token/cross-contract calls are performed by the host layer; the
//! operations here decide, update the book, and say which calls to make.

use vstd::prelude::*;
use crate::ids::{Addr, InvoiceId, invoice_id_of, derive_invoice_id, MAX_DIGEST_INPUT};
use crate::index::{IdIndex, ids_at, appended, lemma_appended_keeps};
use crate::table::Table;
use crate::bookkeeping::{
    status_books,
    law_books_start,
    law_books_after_create,
    law_books_after_step,
    law_books_after_update,
    law_fresh_books_pass_the_status_check,
    law_counts_are_exact,
    law_get_by_status_lists_each_once,
    in_status,
    counted_below,
    created_so_far,
};

verus! {

/// Upper bound on a face value, so that `face_value * 10_000` fits in `u128`.
pub const MAX_FACE_VALUE: u128 = 34028236692093846346337460743176821;

/// Maximum invoice lifetime in seconds (ten years of 365 days).
pub const MAX_INVOICE_LIFETIME_SECONDS: u64 = 315360000;

/// Default listing expiry window in seconds (seven days).
pub const DEFAULT_EXPIRY_WINDOW: u64 = 604800;

/// Largest admissible listing expiry window in seconds (365 days).
pub const MAX_EXPIRY_WINDOW: u64 = 31536000;

/// Largest admissible listing discount, in basis points.
pub const MAX_DISCOUNT_BPS: u32 = 5000;

/// Errors of the invoice contract; `code` gives the contract error number.
#[derive(Clone, Copy, Debug, PartialEq, Eq, Structural)]
pub enum InvoiceError {
    AlreadyInitialized,
    NotFound,
    NotAuthorized,
    InvalidStatusTransition,
    InvalidAmount,
    InvalidDiscount,
    DiscountTooHigh,
    InvalidFaceValue,
    InvalidDueDate,
    IssuerNotVerified,
    BuyerNotVerified,
    UnsupportedAsset,
    AlreadyConfirmed,
    DueDateNotPassed,
    CounterOverflow,
    InvalidParticipants,
    MathOverflow,
    InvalidExpiryWindow,
    ListingNotExpired,
    NotInitialized,
    InvalidDueDateTooFar,
}

impl InvoiceError {
    pub open spec fn code_of(self) -> u32 {
        match self {
            InvoiceError::AlreadyInitialized => 1,
            InvoiceError::NotFound => 2,
            InvoiceError::NotAuthorized => 3,
            InvoiceError::InvalidStatusTransition => 4,
            InvoiceError::InvalidAmount => 5,
            InvoiceError::InvalidDiscount => 6,
            InvoiceError::DiscountTooHigh => 7,
            InvoiceError::InvalidFaceValue => 8,
            InvoiceError::InvalidDueDate => 9,
            InvoiceError::IssuerNotVerified => 10,
            InvoiceError::BuyerNotVerified => 11,
            InvoiceError::UnsupportedAsset => 12,
            InvoiceError::AlreadyConfirmed => 13,
            InvoiceError::DueDateNotPassed => 14,
            InvoiceError::CounterOverflow => 15,
            InvoiceError::InvalidParticipants => 16,
            InvoiceError::MathOverflow => 17,
            InvoiceError::InvalidExpiryWindow => 18,
            InvoiceError::ListingNotExpired => 19,
            InvoiceError::NotInitialized => 20,
            InvoiceError::InvalidDueDateTooFar => 21,
        }
    }

    /// The contract error number.
    pub fn code(&self) -> (c: u32)
        ensures
            c == self.code_of(),
    {
        match self {
            InvoiceError::AlreadyInitialized => 1,
            InvoiceError::NotFound => 2,
            InvoiceError::NotAuthorized => 3,
            InvoiceError::InvalidStatusTransition => 4,
            InvoiceError::InvalidAmount => 5,
            InvoiceError::InvalidDiscount => 6,
            InvoiceError::DiscountTooHigh => 7,
            InvoiceError::InvalidFaceValue => 8,
            InvoiceError::InvalidDueDate => 9,
            InvoiceError::IssuerNotVerified => 10,
            InvoiceError::BuyerNotVerified => 11,
            InvoiceError::UnsupportedAsset => 12,
            InvoiceError::AlreadyConfirmed => 13,
            InvoiceError::DueDateNotPassed => 14,
            InvoiceError::CounterOverflow => 15,
            InvoiceError::InvalidParticipants => 16,
            InvoiceError::MathOverflow => 17,
            InvoiceError::InvalidExpiryWindow => 18,
            InvoiceError::ListingNotExpired => 19,
            InvoiceError::NotInitialized => 20,
            InvoiceError::InvalidDueDateTooFar => 21,
        }
    }
}

/// Lifecycle state of an invoice.
#[derive(Clone, Copy, Debug, PartialEq, Eq, Structural)]
pub enum InvoiceStatus {
    Created,
    Listed,
    Funded,
    Active,
    Confirmed,
    Repaid,
    Defaulted,
    Expired,
}

/// Numeric code of a status (its position in the lifecycle enumeration).
pub open spec fn status_code(s: InvoiceStatus) -> u32 {
    match s {
        InvoiceStatus::Created => 0,
        InvoiceStatus::Listed => 1,
        InvoiceStatus::Funded => 2,
        InvoiceStatus::Active => 3,
        InvoiceStatus::Confirmed => 4,
        InvoiceStatus::Repaid => 5,
        InvoiceStatus::Defaulted => 6,
        InvoiceStatus::Expired => 7,
    }
}

/// The status with a given code.
pub open spec fn status_of_code(c: u32) -> Option<InvoiceStatus> {
    if c == 0 {
        Some(InvoiceStatus::Created)
    } else if c == 1 {
        Some(InvoiceStatus::Listed)
    } else if c == 2 {
        Some(InvoiceStatus::Funded)
    } else if c == 3 {
        Some(InvoiceStatus::Active)
    } else if c == 4 {
        Some(InvoiceStatus::Confirmed)
    } else if c == 5 {
        Some(InvoiceStatus::Repaid)
    } else if c == 6 {
        Some(InvoiceStatus::Defaulted)
    } else if c == 7 {
        Some(InvoiceStatus::Expired)
    } else {
        None
    }
}

/// The name of a status.
pub open spec fn status_name(s: InvoiceStatus) -> Seq<char> {
    match s {
        InvoiceStatus::Created => "Created"@,
        InvoiceStatus::Listed => "Listed"@,
        InvoiceStatus::Funded => "Funded"@,
        InvoiceStatus::Active => "Active"@,
        InvoiceStatus::Confirmed => "Confirmed"@,
        InvoiceStatus::Repaid => "Repaid"@,
        InvoiceStatus::Defaulted => "Defaulted"@,
        InvoiceStatus::Expired => "Expired"@,
    }
}

impl InvoiceStatus {
    /// The status name, used as the key of `get_counts`.
    pub fn as_str(&self) -> (r: &'static str)
        ensures
            r@ == status_name(*self),
    {
        match self {
            InvoiceStatus::Created => "Created",
            InvoiceStatus::Listed => "Listed",
            InvoiceStatus::Funded => "Funded",
            InvoiceStatus::Active => "Active",
            InvoiceStatus::Confirmed => "Confirmed",
            InvoiceStatus::Repaid => "Repaid",
            InvoiceStatus::Defaulted => "Defaulted",
            InvoiceStatus::Expired => "Expired",
        }
    }

    /// The numeric status code.
    pub fn code(&self) -> (c: u32)
        ensures
            c == status_code(*self),
    {
        match self {
            InvoiceStatus::Created => 0,
            InvoiceStatus::Listed => 1,
            InvoiceStatus::Funded => 2,
            InvoiceStatus::Active => 3,
            InvoiceStatus::Confirmed => 4,
            InvoiceStatus::Repaid => 5,
            InvoiceStatus::Defaulted => 6,
            InvoiceStatus::Expired => 7,
        }
    }

    /// The status with the given code, if any.
    pub fn from_code(c: u32) -> (r: Option<InvoiceStatus>)
        ensures
            r == status_of_code(c),
    {
        if c == 0 {
            Some(InvoiceStatus::Created)
        } else if c == 1 {
            Some(InvoiceStatus::Listed)
        } else if c == 2 {
            Some(InvoiceStatus::Funded)
        } else if c == 3 {
            Some(InvoiceStatus::Active)
        } else if c == 4 {
            Some(InvoiceStatus::Confirmed)
        } else if c == 5 {
            Some(InvoiceStatus::Repaid)
        } else if c == 6 {
            Some(InvoiceStatus::Defaulted)
        } else if c == 7 {
            Some(InvoiceStatus::Expired)
        } else {
            None
        }
    }
}

/// A single invoice.
///
/// `face_value` is what the buyer owes at `due_date`; `funded_amount` what
/// the pool advanced; `discount_bps` the discount granted when listing.
#[derive(Clone, Copy, Debug, PartialEq, Eq)]
pub struct Invoice {
    pub id: InvoiceId,
    pub issuer: Addr,
    pub buyer: Addr,
    pub face_value: u128,
    pub discount_bps: u32,
    pub funded_amount: u128,
    pub due_date: u64,
    pub status: InvoiceStatus,
    pub created_at: u64,
    pub listed_at: Option<u64>,
    pub funded_at: Option<u64>,
    pub shipped_at: Option<u64>,
    pub issuer_confirmed: bool,
    pub buyer_confirmed: bool,
    pub repaid_at: Option<u64>,
    pub funding_asset: Addr,
    pub funding_pool: Option<Addr>,
}

/// Abstract state of the invoice contract.
pub struct InvoiceBook {
    pub admin: Option<Addr>,
    pub registry: Option<Addr>,
    pub pool: Option<Addr>,
    pub escrow: Option<Addr>,
    pub counter: Option<u64>,
    pub expiry_window: Option<u64>,
    pub supported: Map<Addr, bool>,
    pub supported_count: u32,
    pub invoices: Map<InvoiceId, Invoice>,
    pub by_issuer: Map<Addr, Seq<InvoiceId>>,
    pub by_buyer: Map<Addr, Seq<InvoiceId>>,
    pub by_status: Map<u32, Seq<InvoiceId>>,
    pub counts: Map<u32, u64>,
    /// Whether every creation so far derived an id that no stored invoice
    /// had; while it holds, the status bookkeeping is exact.
    pub fresh_ids: bool,
}

/// Number of invoices recorded under status code `c`.
pub open spec fn count_in(counts: Map<u32, u64>, c: u32) -> u64 {
    if counts.contains_key(c) {
        counts[c]
    } else {
        0
    }
}

/// Why moving `id` from status `from` to status `to` in the status
/// bookkeeping fails, if it does. A move to a status whose index already
/// lists `id` is a no-op and never fails.
pub open spec fn status_move_error(
    b: InvoiceBook,
    id: InvoiceId,
    from: InvoiceStatus,
    to: InvoiceStatus,
) -> Option<InvoiceError> {
    if ids_at(b.by_status, status_code(to)).contains(id) {
        None
    } else if count_in(b.counts, status_code(from)) == 0 {
        Some(InvoiceError::InvalidStatusTransition)
    } else {
        let c1 = b.counts.insert(status_code(from), (count_in(b.counts, status_code(from)) - 1) as u64);
        if count_in(c1, status_code(to)) == u64::MAX {
            Some(InvoiceError::MathOverflow)
        } else {
            None
        }
    }
}

/// The bookkeeping after moving `id` from `from` to `to`: one fewer invoice
/// counted under `from`, one more under `to`, and `id` listed under `to`.
pub open spec fn after_status_move(
    b: InvoiceBook,
    id: InvoiceId,
    from: InvoiceStatus,
    to: InvoiceStatus,
) -> InvoiceBook {
    if ids_at(b.by_status, status_code(to)).contains(id) {
        b
    } else {
        let c1 = b.counts.insert(status_code(from), (count_in(b.counts, status_code(from)) - 1) as u64);
        let c2 = c1.insert(status_code(to), (count_in(c1, status_code(to)) + 1) as u64);
        InvoiceBook { counts: c2, by_status: appended(b.by_status, status_code(to), id), ..b }
    }
}

/// `b` with the invoice `inv` stored under `id`.
pub open spec fn with_invoice(b: InvoiceBook, id: InvoiceId, inv: Invoice) -> InvoiceBook {
    InvoiceBook { invoices: b.invoices.insert(id, inv), ..b }
}

/// The state of the invoice contract.
pub struct InvoiceContract {
    admin: Option<Addr>,
    registry: Option<Addr>,
    pool: Option<Addr>,
    escrow: Option<Addr>,
    counter: Option<u64>,
    expiry_window: Option<u64>,
    supported: Table<Addr, bool>,
    supported_count: u32,
    invoices: Table<InvoiceId, Invoice>,
    by_issuer: IdIndex<Addr>,
    by_buyer: IdIndex<Addr>,
    by_status: IdIndex<u32>,
    counts: Table<u32, u64>,
    fresh_ids: Ghost<bool>,
}

impl View for InvoiceContract {
    type V = InvoiceBook;

    closed spec fn view(&self) -> InvoiceBook {
        InvoiceBook {
            admin: self.admin,
            registry: self.registry,
            pool: self.pool,
            escrow: self.escrow,
            counter: self.counter,
            expiry_window: self.expiry_window,
            supported: self.supported@,
            supported_count: self.supported_count,
            invoices: self.invoices@,
            by_issuer: self.by_issuer@,
            by_buyer: self.by_buyer@,
            by_status: self.by_status@,
            counts: self.counts@,
            fresh_ids: self.fresh_ids@,
        }
    }
}

/// The invariant of the abstract book: the supported-asset counter counts the
/// supported assets, every indexed id names a stored invoice, every stored
/// invoice carries its own id and is listed under its current status, no list
/// names an id twice, stored terms respect the bounds that `create`,
/// `list_for_financing` and `mark_funded` enforce, nothing is counted before
/// initialization, and while every created id was fresh the status counters
/// and lists are exact (`status_books`).
pub open spec fn book_inv(b: InvoiceBook) -> bool {
    &&& b.supported.dom().finite()
    &&& b.supported_count == b.supported.dom().len()
    &&& forall|k: Addr, id: InvoiceId| #[trigger]
        ids_at(b.by_issuer, k).contains(id) ==> b.invoices.contains_key(id)
    &&& forall|k: Addr, id: InvoiceId| #[trigger]
        ids_at(b.by_buyer, k).contains(id) ==> b.invoices.contains_key(id)
    &&& forall|k: u32, id: InvoiceId| #[trigger]
        ids_at(b.by_status, k).contains(id) ==> b.invoices.contains_key(id)
    &&& forall|id: InvoiceId| #[trigger]
        b.invoices.contains_key(id) ==> b.invoices[id].face_value <= MAX_FACE_VALUE
            && b.invoices[id].discount_bps <= MAX_DISCOUNT_BPS
            && b.invoices[id].funded_amount <= b.invoices[id].face_value
            && ids_at(b.by_status, status_code(b.invoices[id].status)).contains(id)
            && b.invoices[id].id == id
    &&& forall|k: Addr| #[trigger] ids_at(b.by_issuer, k).no_duplicates()
    &&& forall|k: Addr| #[trigger] ids_at(b.by_buyer, k).no_duplicates()
    &&& forall|k: u32| #[trigger] ids_at(b.by_status, k).no_duplicates()
    &&& b.admin is None ==> b.counter is None
    &&& b.fresh_ids ==> status_books(b)
}

impl InvoiceContract {
    pub closed spec fn wf(&self) -> bool {
        &&& self.supported.wf()
        &&& self.invoices.wf()
        &&& self.by_issuer.wf()
        &&& self.by_buyer.wf()
        &&& self.by_status.wf()
        &&& self.counts.wf()
        &&& book_inv(self@)
    }

    /// Every reachable book keeps its invariant.
    pub proof fn lemma_book_invariant(&self)
        requires
            self.wf(),
        ensures
            book_inv(self@),
    {
    }

    /// A contract with nothing stored (before `initialize`).
    pub fn new() -> (c: Self)
        ensures
            c.wf(),
            c@.admin is None,
            c@.registry is None,
            c@.pool is None,
            c@.escrow is None,
            c@.counter is None,
            c@.expiry_window is None,
            c@.supported == Map::<Addr, bool>::empty(),
            c@.supported_count == 0,
            c@.invoices == Map::<InvoiceId, Invoice>::empty(),
            c@.by_issuer == Map::<Addr, Seq<InvoiceId>>::empty(),
            c@.by_buyer == Map::<Addr, Seq<InvoiceId>>::empty(),
            c@.by_status == Map::<u32, Seq<InvoiceId>>::empty(),
            c@.counts == Map::<u32, u64>::empty(),
            c@.fresh_ids,
    {
        let c = InvoiceContract {
            admin: None,
            registry: None,
            pool: None,
            escrow: None,
            counter: None,
            expiry_window: None,
            supported: Table::new(),
            supported_count: 0,
            invoices: Table::new(),
            by_issuer: IdIndex::new(),
            by_buyer: IdIndex::new(),
            by_status: IdIndex::new(),
            counts: Table::new(),
            fresh_ids: Ghost(true),
        };
        assert(c@.supported.dom() =~= Set::<Addr>::empty());
        proof {
            law_books_start(c@);
        }
        c
    }

    /// Records the admin and the registry, and starts the invoice counter at 0.
    pub fn initialize(&mut self, admin: Addr, registry_contract: Addr) -> (r: Result<(), InvoiceError>)
        requires
            old(self).wf(),
        ensures
            final(self).wf(),
            follows_lifecycle(old(self)@, final(self)@),
            match r {
                Ok(()) => old(self)@.admin is None && final(self)@ == (InvoiceBook {
                    admin: Some(admin),
                    registry: Some(registry_contract),
                    counter: Some(0u64),
                    ..old(self)@
                }),
                Err(e) => old(self)@.admin is Some && e == InvoiceError::AlreadyInitialized
                    && final(self)@ == old(self)@,
            },
    {
        if self.admin.is_some() {
            return Err(InvoiceError::AlreadyInitialized);
        }
        self.admin = Some(admin);
        self.registry = Some(registry_contract);
        self.counter = Some(0);
        Ok(())
    }

    /// Sets the pool contract; returns the previous one.
    pub fn set_pool_contract(&mut self, pool_contract: Addr) -> (r: Result<Option<Addr>, InvoiceError>)
        requires
            old(self).wf(),
        ensures
            final(self).wf(),
            follows_lifecycle(old(self)@, final(self)@),
            match r {
                Ok(prev) => old(self)@.admin is Some && prev == old(self)@.pool
                    && final(self)@ == (InvoiceBook { pool: Some(pool_contract), ..old(self)@ }),
                Err(e) => old(self)@.admin is None && e == InvoiceError::NotFound
                    && final(self)@ == old(self)@,
            },
    {
        if self.admin.is_none() {
            return Err(InvoiceError::NotFound);
        }
        let prev = self.pool;
        self.pool = Some(pool_contract);
        Ok(prev)
    }

    /// Sets the escrow contract that repayments are routed through.
    pub fn set_escrow_contract(&mut self, escrow_contract: Addr) -> (r: Result<(), InvoiceError>)
        requires
            old(self).wf(),
        ensures
            final(self).wf(),
            follows_lifecycle(old(self)@, final(self)@),
            match r {
                Ok(()) => old(self)@.admin is Some && final(self)@ == (InvoiceBook {
                    escrow: Some(escrow_contract),
                    ..old(self)@
                }),
                Err(e) => old(self)@.admin is None && e == InvoiceError::NotFound
                    && final(self)@ == old(self)@,
            },
    {
        if self.admin.is_none() {
            return Err(InvoiceError::NotFound);
        }
        self.escrow = Some(escrow_contract);
        Ok(())
    }

    /// Adds `asset` to the supported funding assets (no-op if already there).
    pub fn add_supported_asset(&mut self, asset: Addr) -> (r: Result<(), InvoiceError>)
        requires
            old(self).wf(),
        ensures
            final(self).wf(),
            follows_lifecycle(old(self)@, final(self)@),
            match r {
                Ok(()) => old(self)@.admin is Some && if old(self)@.supported.contains_key(asset) {
                    final(self)@ == old(self)@
                } else {
                    old(self)@.supported_count < u32::MAX && final(self)@ == (InvoiceBook {
                        supported: old(self)@.supported.insert(asset, true),
                        supported_count: (old(self)@.supported_count + 1) as u32,
                        ..old(self)@
                    })
                },
                Err(e) => final(self)@ == old(self)@ && if old(self)@.admin is None {
                    e == InvoiceError::NotFound
                } else {
                    !old(self)@.supported.contains_key(asset) && old(self)@.supported_count
                        == u32::MAX && e == InvoiceError::MathOverflow
                },
            },
    {
        if self.admin.is_none() {
            return Err(InvoiceError::NotFound);
        }
        if self.supported.contains_key(&asset) {
            return Ok(());
        }
        if self.supported_count == u32::MAX {
            return Err(InvoiceError::MathOverflow);
        }
        self.supported.insert(asset, true);
        self.supported_count = self.supported_count + 1;
        proof {
            self.supported.lemma_dom_finite();
            assert(self.supported@.dom() =~= old(self)@.supported.dom().insert(asset));
        }
        Ok(())
    }

    /// Removes `asset` from the supported funding assets (no-op if absent).
    pub fn remove_supported_asset(&mut self, asset: Addr) -> (r: Result<(), InvoiceError>)
        requires
            old(self).wf(),
        ensures
            final(self).wf(),
            follows_lifecycle(old(self)@, final(self)@),
            match r {
                Ok(()) => old(self)@.admin is Some && if old(self)@.supported.contains_key(asset) {
                    final(self)@ == (InvoiceBook {
                        supported: old(self)@.supported.remove(asset),
                        supported_count: (old(self)@.supported_count - 1) as u32,
                        ..old(self)@
                    })
                } else {
                    final(self)@ == old(self)@
                },
                Err(e) => old(self)@.admin is None && e == InvoiceError::NotFound
                    && final(self)@ == old(self)@,
            },
    {
        if self.admin.is_none() {
            return Err(InvoiceError::NotFound);
        }
        if !self.supported.contains_key(&asset) {
            return Ok(());
        }
        proof {
            assert(self@.supported.dom().contains(asset));
            vstd::set_lib::lemma_set_empty_equivalency_len(self@.supported.dom());
        }
        self.supported.remove(&asset);
        self.supported_count = self.supported_count - 1;
        proof {
            self.supported.lemma_dom_finite();
            assert(self.supported@.dom() =~= old(self)@.supported.dom().remove(asset));
        }
        Ok(())
    }

    pub fn is_supported_asset(&self, asset: Addr) -> (b: bool)
        requires
            self.wf(),
        ensures
            b == self@.supported.contains_key(asset),
    {
        self.supported.contains_key(&asset)
    }

    pub fn get_supported_asset_count(&self) -> (n: u32)
        requires
            self.wf(),
        ensures
            n == self@.supported_count,
    {
        self.supported_count
    }

    /// The registry contract the invoice contract verifies parties against.
    pub fn get_registry_contract(&self) -> (r: Option<Addr>)
        ensures
            r == self@.registry,
    {
        self.registry
    }

    /// The pool contract, if set.
    pub fn get_pool_contract(&self) -> (r: Option<Addr>)
        ensures
            r == self@.pool,
    {
        self.pool
    }

    /// The escrow contract, if set.
    pub fn get_escrow_contract(&self) -> (r: Option<Addr>)
        ensures
            r == self@.escrow,
    {
        self.escrow
    }

    /// The admin, if initialized.
    pub fn get_admin(&self) -> (r: Option<Addr>)
        ensures
            r == self@.admin,
    {
        self.admin
    }

    /// The creation counter the next invoice will be derived with, if initialized.
    pub fn get_counter(&self) -> (r: Option<u64>)
        ensures
            r == self@.counter,
    {
        self.counter
    }

    /// Sets the listing expiry window.
    pub fn set_expiry_window(&mut self, window: u64) -> (r: Result<(), InvoiceError>)
        requires
            old(self).wf(),
        ensures
            final(self).wf(),
            follows_lifecycle(old(self)@, final(self)@),
            match r {
                Ok(()) => window <= MAX_EXPIRY_WINDOW && old(self)@.admin is Some && final(self)@
                    == (InvoiceBook { expiry_window: Some(window), ..old(self)@ }),
                Err(e) => final(self)@ == old(self)@ && if window > MAX_EXPIRY_WINDOW {
                    e == InvoiceError::InvalidExpiryWindow
                } else {
                    old(self)@.admin is None && e == InvoiceError::NotFound
                },
            },
    {
        if window > MAX_EXPIRY_WINDOW {
            return Err(InvoiceError::InvalidExpiryWindow);
        }
        if self.admin.is_none() {
            return Err(InvoiceError::NotFound);
        }
        self.expiry_window = Some(window);
        Ok(())
    }

    /// The listing expiry window, seven days when never set.
    pub fn get_expiry_window(&self) -> (w: u64)
        ensures
            w == match self@.expiry_window {
                Some(w) => w,
                None => DEFAULT_EXPIRY_WINDOW,
            },
    {
        match self.expiry_window {
            Some(w) => w,
            None => DEFAULT_EXPIRY_WINDOW,
        }
    }

    /// Hands the admin role to `new_admin`; returns the previous admin.
    pub fn transfer_ownership(&mut self, new_admin: Addr) -> (r: Result<Addr, InvoiceError>)
        requires
            old(self).wf(),
        ensures
            final(self).wf(),
            follows_lifecycle(old(self)@, final(self)@),
            match r {
                Ok(prev) => old(self)@.admin == Some(prev) && final(self)@ == (InvoiceBook {
                    admin: Some(new_admin),
                    ..old(self)@
                }),
                Err(e) => old(self)@.admin is None && e == InvoiceError::NotFound
                    && final(self)@ == old(self)@,
            },
    {
        match self.admin {
            Some(prev) => {
                self.admin = Some(new_admin);
                Ok(prev)
            },
            None => Err(InvoiceError::NotFound),
        }
    }
}


/// Why `create` rejects its arguments, if it does, in the order the checks run.
pub open spec fn create_error(
    b: InvoiceBook,
    issuer: Addr,
    buyer: Addr,
    face_value: u128,
    due_date: u64,
    funding_asset: Addr,
    now: u64,
    issuer_verified: bool,
    buyer_verified: bool,
) -> Option<InvoiceError> {
    if issuer == buyer {
        Some(InvoiceError::InvalidParticipants)
    } else if b.registry is None {
        Some(InvoiceError::NotFound)
    } else if !issuer_verified {
        Some(InvoiceError::IssuerNotVerified)
    } else if !buyer_verified {
        Some(InvoiceError::BuyerNotVerified)
    } else if !b.supported.contains_key(funding_asset) {
        Some(InvoiceError::UnsupportedAsset)
    } else if face_value == 0 {
        Some(InvoiceError::InvalidFaceValue)
    } else if face_value > MAX_FACE_VALUE {
        Some(InvoiceError::InvalidAmount)
    } else if due_date <= now {
        Some(InvoiceError::InvalidDueDate)
    } else if now + MAX_INVOICE_LIFETIME_SECONDS > u64::MAX {
        Some(InvoiceError::MathOverflow)
    } else if due_date > now + MAX_INVOICE_LIFETIME_SECONDS {
        Some(InvoiceError::InvalidDueDateTooFar)
    } else if b.counter is None {
        Some(InvoiceError::NotFound)
    } else if b.counter.unwrap() == u64::MAX {
        Some(InvoiceError::CounterOverflow)
    } else if count_in(b.counts, 0) == u64::MAX {
        Some(InvoiceError::MathOverflow)
    } else {
        None
    }
}

/// A freshly created invoice.
pub open spec fn new_invoice(
    id: InvoiceId,
    issuer: Addr,
    buyer: Addr,
    face_value: u128,
    due_date: u64,
    funding_asset: Addr,
    now: u64,
) -> Invoice {
    Invoice {
        id,
        issuer,
        buyer,
        face_value,
        discount_bps: 0,
        funded_amount: 0,
        due_date,
        status: InvoiceStatus::Created,
        created_at: now,
        listed_at: None,
        funded_at: None,
        shipped_at: None,
        issuer_confirmed: false,
        buyer_confirmed: false,
        repaid_at: None,
        funding_asset,
        funding_pool: None,
    }
}

/// The book after storing the new invoice `inv` under `id`: counter advanced,
/// the invoice indexed under its issuer, its buyer and `Created`, and counted.
pub open spec fn after_create(b: InvoiceBook, id: InvoiceId, inv: Invoice) -> InvoiceBook {
    InvoiceBook {
        counter: Some((b.counter.unwrap() + 1) as u64),
        invoices: b.invoices.insert(id, inv),
        by_issuer: appended(b.by_issuer, inv.issuer, id),
        by_buyer: appended(b.by_buyer, inv.buyer, id),
        by_status: appended(b.by_status, 0, id),
        counts: b.counts.insert(0, (count_in(b.counts, 0) + 1) as u64),
        fresh_ids: b.fresh_ids && !b.invoices.contains_key(id),
        ..b
    }
}

/// `b` with `id` updated to `inv` and moved from status `from` to `to`.
pub open spec fn transitioned(
    b: InvoiceBook,
    id: InvoiceId,
    inv: Invoice,
    from: InvoiceStatus,
    to: InvoiceStatus,
) -> InvoiceBook {
    after_status_move(with_invoice(b, id, inv), id, from, to)
}

impl InvoiceContract {
    fn count_of(&self, c: u32) -> (n: u64)
        requires
            self.wf(),
        ensures
            n == count_in(self@.counts, c),
    {
        match self.counts.get(&c) {
            Some(n) => *n,
            None => 0,
        }
    }

    fn check_status_move(&self, id: &InvoiceId, from: InvoiceStatus, to: InvoiceStatus) -> (r: Option<
        InvoiceError,
    >)
        requires
            self.wf(),
        ensures
            r == status_move_error(self@, *id, from, to),
    {
        if self.by_status.has(&to.code(), id) {
            return None;
        }
        let from_count = self.count_of(from.code());
        if from_count == 0 {
            return Some(InvoiceError::InvalidStatusTransition);
        }
        let to_count = if from.code() == to.code() {
            from_count - 1
        } else {
            self.count_of(to.code())
        };
        if to_count == u64::MAX {
            Some(InvoiceError::MathOverflow)
        } else {
            None
        }
    }

    fn apply_status_move(&mut self, id: InvoiceId, from: InvoiceStatus, to: InvoiceStatus)
        requires
            old(self).wf(),
            !old(self)@.fresh_ids,
            old(self)@.invoices.contains_key(id),
            status_move_error(old(self)@, id, from, to) is None,
        ensures
            final(self).wf(),
            final(self)@ == after_status_move(old(self)@, id, from, to),
            ids_at(final(self)@.by_status, status_code(to)).contains(id),
    {
        proof {
            lemma_appended_keeps(old(self)@.by_status, status_code(to), id);
        }
        if self.by_status.has(&to.code(), &id) {
            return;
        }
        let from_count = self.count_of(from.code());
        self.counts.insert(from.code(), from_count - 1);
        let to_count = self.count_of(to.code());
        self.counts.insert(to.code(), to_count + 1);
        self.by_status.append_unique(to.code(), id);
        proof {
            let b = self@;
            assert forall|k: u32, x: InvoiceId| #[trigger]
                ids_at(b.by_status, k).contains(x) implies b.invoices.contains_key(x) by {
                if !ids_at(old(self)@.by_status, k).contains(x) {
                    assert(k == status_code(to));
                    let s = ids_at(old(self)@.by_status, k);
                    assert(ids_at(b.by_status, k) == s.push(id));
                    let j = ids_at(b.by_status, k).index_of(x);
                    if j < s.len() {
                        assert(s[j] == x);
                    }
                }
            }
            assert(self@ =~= after_status_move(old(self)@, id, from, to));
            assert forall|k: u32| #[trigger] ids_at(b.by_status, k).no_duplicates() by {
                assert(ids_at(old(self)@.by_status, k).no_duplicates());
            }
        }
    }

    /// Stores `inv` under `id`, which must already name a stored invoice.
    fn update_invoice(&mut self, id: InvoiceId, inv: Invoice)
        requires
            old(self).wf(),
            old(self)@.invoices.contains_key(id),
            inv.face_value <= MAX_FACE_VALUE,
            inv.discount_bps <= MAX_DISCOUNT_BPS,
            inv.funded_amount <= inv.face_value,
            ids_at(old(self)@.by_status, status_code(inv.status)).contains(id),
            inv.id == id,
            old(self)@.fresh_ids ==> inv.status == old(self)@.invoices[id].status,
        ensures
            final(self).wf(),
            final(self)@ == with_invoice(old(self)@, id, inv),
    {
        self.invoices.insert(id, inv);
        assert(self@ =~= with_invoice(old(self)@, id, inv));
        proof {
            if old(self)@.fresh_ids {
                law_books_after_update(old(self)@, id, inv);
            }
        }
    }

    /// Stores `inv`, now in status `to`, under `id` and moves `id` from `from`
    /// to `to` in the status bookkeeping.
    fn apply_step(&mut self, id: InvoiceId, inv: Invoice, from: InvoiceStatus, to: InvoiceStatus)
        requires
            old(self).wf(),
            old(self)@.invoices.contains_key(id),
            old(self)@.invoices[id].status == from,
            lifecycle_edge(from, to),
            status_move_error(old(self)@, id, from, to) is None,
            inv.status == to,
            inv.id == id,
            inv.face_value <= MAX_FACE_VALUE,
            inv.discount_bps <= MAX_DISCOUNT_BPS,
            inv.funded_amount <= inv.face_value,
        ensures
            final(self).wf(),
            final(self)@ == transitioned(old(self)@, id, inv, from, to),
    {
        let ghost fresh = self.fresh_ids@;
        self.fresh_ids = Ghost(false);
        self.apply_status_move(id, from, to);
        self.update_invoice(id, inv);
        proof {
            if fresh {
                law_books_after_step(old(self)@, id, inv, from, to);
            }
        }
        self.fresh_ids = Ghost(fresh);
        assert(self@ =~= transitioned(old(self)@, id, inv, from, to));
    }

    /// Creates an invoice in status `Created` and returns its id.
    ///
    /// `issuer_verified` and `buyer_verified` are the registry's answers for
    /// the two parties; `issuer_enc`, `buyer_enc` and `asset_enc` are the
    /// canonical encodings of the three addresses, from which (with the terms
    /// and the creation counter) the id is derived.
    pub fn create(
        &mut self,
        issuer: Addr,
        buyer: Addr,
        face_value: u128,
        due_date: u64,
        funding_asset: Addr,
        now: u64,
        issuer_verified: bool,
        buyer_verified: bool,
        issuer_enc: &Vec<u8>,
        buyer_enc: &Vec<u8>,
        asset_enc: &Vec<u8>,
    ) -> (r: Result<InvoiceId, InvoiceError>)
        requires
            old(self).wf(),
            issuer_enc@.len() + buyer_enc@.len() + asset_enc@.len() + 40 <= MAX_DIGEST_INPUT,
        ensures
            final(self).wf(),
            final(self)@.fresh_ids ==> follows_lifecycle(old(self)@, final(self)@),
            match r {
                Ok(id) => {
                    &&& create_error(
                        old(self)@,
                        issuer,
                        buyer,
                        face_value,
                        due_date,
                        funding_asset,
                        now,
                        issuer_verified,
                        buyer_verified,
                    ) is None
                    &&& id.0@ == invoice_id_of(
                        issuer_enc@,
                        buyer_enc@,
                        face_value,
                        due_date,
                        old(self)@.counter.unwrap(),
                        asset_enc@,
                    )
                    &&& final(self)@ == after_create(
                        old(self)@,
                        id,
                        new_invoice(id, issuer, buyer, face_value, due_date, funding_asset, now),
                    )
                },
                Err(e) => {
                    &&& create_error(
                        old(self)@,
                        issuer,
                        buyer,
                        face_value,
                        due_date,
                        funding_asset,
                        now,
                        issuer_verified,
                        buyer_verified,
                    ) == Some(e)
                    &&& final(self)@ == old(self)@
                },
            },
    {
        if issuer == buyer {
            return Err(InvoiceError::InvalidParticipants);
        }
        if self.registry.is_none() {
            return Err(InvoiceError::NotFound);
        }
        if !issuer_verified {
            return Err(InvoiceError::IssuerNotVerified);
        }
        if !buyer_verified {
            return Err(InvoiceError::BuyerNotVerified);
        }
        if !self.supported.contains_key(&funding_asset) {
            return Err(InvoiceError::UnsupportedAsset);
        }
        if face_value == 0 {
            return Err(InvoiceError::InvalidFaceValue);
        }
        if face_value > MAX_FACE_VALUE {
            return Err(InvoiceError::InvalidAmount);
        }
        if due_date <= now {
            return Err(InvoiceError::InvalidDueDate);
        }
        let max_due_date = match now.checked_add(MAX_INVOICE_LIFETIME_SECONDS) {
            Some(d) => d,
            None => {
                return Err(InvoiceError::MathOverflow);
            },
        };
        if due_date > max_due_date {
            return Err(InvoiceError::InvalidDueDateTooFar);
        }
        let counter = match self.counter {
            Some(c) => c,
            None => {
                return Err(InvoiceError::NotFound);
            },
        };
        let next_counter = match counter.checked_add(1) {
            Some(c) => c,
            None => {
                return Err(InvoiceError::CounterOverflow);
            },
        };
        let created_count = self.count_of(0);
        if created_count == u64::MAX {
            return Err(InvoiceError::MathOverflow);
        }
        let id = derive_invoice_id(issuer_enc, buyer_enc, face_value, due_date, counter, asset_enc);
        let invoice = Invoice {
            id,
            issuer,
            buyer,
            face_value,
            discount_bps: 0,
            funded_amount: 0,
            due_date,
            status: InvoiceStatus::Created,
            created_at: now,
            listed_at: None,
            funded_at: None,
            shipped_at: None,
            issuer_confirmed: false,
            buyer_confirmed: false,
            repaid_at: None,
            funding_asset,
            funding_pool: None,
        };
        let ghost ob = self@;
        self.counter = Some(next_counter);
        let ghost still_fresh = ob.fresh_ids && !ob.invoices.contains_key(id);
        self.fresh_ids = Ghost(still_fresh);
        self.invoices.insert(id, invoice);
        self.by_issuer.append_unique(issuer, id);
        self.by_buyer.append_unique(buyer, id);
        self.by_status.append_unique(0, id);
        self.counts.insert(0, created_count + 1);
        proof {
            lemma_appended_keeps(old(self)@.by_status, 0u32, id);
            lemma_appended_keeps(old(self)@.by_issuer, issuer, id);
            lemma_appended_keeps(old(self)@.by_buyer, buyer, id);
            if self@.fresh_ids {
                law_books_after_create(old(self)@, id, invoice);
            }
            let b = self@;
            let ob = old(self)@;
            assert forall|k: Addr| #[trigger] ids_at(b.by_issuer, k).no_duplicates() by {
                assert(ids_at(ob.by_issuer, k).no_duplicates());
            }
            assert forall|k: Addr| #[trigger] ids_at(b.by_buyer, k).no_duplicates() by {
                assert(ids_at(ob.by_buyer, k).no_duplicates());
            }
            assert forall|k: u32| #[trigger] ids_at(b.by_status, k).no_duplicates() by {
                assert(ids_at(ob.by_status, k).no_duplicates());
            }
            assert forall|k: Addr, x: InvoiceId| #[trigger]
                ids_at(b.by_issuer, k).contains(x) implies b.invoices.contains_key(x) by {
                if !ids_at(ob.by_issuer, k).contains(x) {
                    let s = ids_at(ob.by_issuer, k);
                    let j = ids_at(b.by_issuer, k).index_of(x);
                    if j < s.len() {
                        assert(s[j] == x);
                    }
                }
            }
            assert forall|k: Addr, x: InvoiceId| #[trigger]
                ids_at(b.by_buyer, k).contains(x) implies b.invoices.contains_key(x) by {
                if !ids_at(ob.by_buyer, k).contains(x) {
                    let s = ids_at(ob.by_buyer, k);
                    let j = ids_at(b.by_buyer, k).index_of(x);
                    if j < s.len() {
                        assert(s[j] == x);
                    }
                }
            }
            assert forall|k: u32, x: InvoiceId| #[trigger]
                ids_at(b.by_status, k).contains(x) implies b.invoices.contains_key(x) by {
                if !ids_at(ob.by_status, k).contains(x) {
                    let s = ids_at(ob.by_status, k);
                    let j = ids_at(b.by_status, k).index_of(x);
                    if j < s.len() {
                        assert(s[j] == x);
                    }
                }
            }
            assert(self@ =~= after_create(
                old(self)@,
                id,
                new_invoice(id, issuer, buyer, face_value, due_date, funding_asset, now),
            ));
        }
        Ok(id)
    }
}

/// Why `list_for_financing` fails, if it does.
pub open spec fn list_error(b: InvoiceBook, id: InvoiceId, discount_bps: u32) -> Option<InvoiceError> {
    if !b.invoices.contains_key(id) {
        Some(InvoiceError::NotFound)
    } else if b.invoices[id].status != InvoiceStatus::Created {
        Some(InvoiceError::InvalidStatusTransition)
    } else if discount_bps == 0 {
        Some(InvoiceError::InvalidDiscount)
    } else if discount_bps > MAX_DISCOUNT_BPS {
        Some(InvoiceError::DiscountTooHigh)
    } else {
        status_move_error(b, id, InvoiceStatus::Created, InvoiceStatus::Listed)
    }
}

/// Why `mark_funded` fails, if it does.
/// Only the registered pool contract may mark an invoice funded, and never
/// with more than the face value.
pub open spec fn mark_funded_error(
    b: InvoiceBook,
    id: InvoiceId,
    pool_address: Addr,
    asset_address: Addr,
    funded_amount: u128,
) -> Option<InvoiceError> {
    if funded_amount == 0 {
        Some(InvoiceError::InvalidAmount)
    } else if b.pool != Some(pool_address) {
        Some(InvoiceError::NotAuthorized)
    } else if !b.invoices.contains_key(id) {
        Some(InvoiceError::NotFound)
    } else if b.invoices[id].status != InvoiceStatus::Listed {
        Some(InvoiceError::InvalidStatusTransition)
    } else if asset_address != b.invoices[id].funding_asset {
        Some(InvoiceError::UnsupportedAsset)
    } else if funded_amount > b.invoices[id].face_value {
        Some(InvoiceError::InvalidAmount)
    } else {
        status_move_error(b, id, InvoiceStatus::Listed, InvoiceStatus::Funded)
    }
}

/// Why `mark_shipped` fails, if it does.
pub open spec fn mark_shipped_error(b: InvoiceBook, id: InvoiceId) -> Option<InvoiceError> {
    if !b.invoices.contains_key(id) {
        Some(InvoiceError::NotFound)
    } else if b.invoices[id].status != InvoiceStatus::Funded {
        Some(InvoiceError::InvalidStatusTransition)
    } else {
        status_move_error(b, id, InvoiceStatus::Funded, InvoiceStatus::Active)
    }
}

/// `inv` with the confirmation of `confirmer` recorded.
pub open spec fn with_confirmation(inv: Invoice, confirmer: Addr) -> Invoice {
    Invoice {
        issuer_confirmed: inv.issuer_confirmed || confirmer == inv.issuer,
        buyer_confirmed: inv.buyer_confirmed || confirmer == inv.buyer,
        ..inv
    }
}

/// Why `confirm_delivery` fails, if it does.
pub open spec fn confirm_error(b: InvoiceBook, id: InvoiceId, confirmer: Addr) -> Option<InvoiceError> {
    if !b.invoices.contains_key(id) {
        Some(InvoiceError::NotFound)
    } else if b.invoices[id].status != InvoiceStatus::Active {
        Some(InvoiceError::InvalidStatusTransition)
    } else if confirmer != b.invoices[id].issuer && confirmer != b.invoices[id].buyer {
        Some(InvoiceError::NotAuthorized)
    } else if confirmer == b.invoices[id].issuer && b.invoices[id].issuer_confirmed {
        Some(InvoiceError::AlreadyConfirmed)
    } else if confirmer == b.invoices[id].buyer && b.invoices[id].buyer_confirmed {
        Some(InvoiceError::AlreadyConfirmed)
    } else {
        let inv = with_confirmation(b.invoices[id], confirmer);
        if inv.issuer_confirmed && inv.buyer_confirmed {
            status_move_error(b, id, InvoiceStatus::Active, InvoiceStatus::Confirmed)
        } else {
            None
        }
    }
}

/// Whether `s` is one of the funded states from which an invoice can be
/// defaulted.
pub open spec fn is_outstanding(s: InvoiceStatus) -> bool {
    s == InvoiceStatus::Funded || s == InvoiceStatus::Active || s == InvoiceStatus::Confirmed
}

/// Why `trigger_default` fails, if it does.
pub open spec fn trigger_default_error(b: InvoiceBook, id: InvoiceId, now: u64) -> Option<InvoiceError> {
    if !b.invoices.contains_key(id) {
        Some(InvoiceError::NotFound)
    } else if !is_outstanding(b.invoices[id].status) {
        Some(InvoiceError::InvalidStatusTransition)
    } else if now < b.invoices[id].due_date {
        Some(InvoiceError::DueDateNotPassed)
    } else if status_move_error(b, id, b.invoices[id].status, InvoiceStatus::Defaulted) is Some {
        status_move_error(b, id, b.invoices[id].status, InvoiceStatus::Defaulted)
    } else if b.invoices[id].funding_pool is None {
        Some(InvoiceError::NotFound)
    } else {
        None
    }
}

/// Why `mark_defaulted` fails, if it does.
pub open spec fn mark_defaulted_error(b: InvoiceBook, id: InvoiceId) -> Option<InvoiceError> {
    if !b.invoices.contains_key(id) {
        Some(InvoiceError::NotFound)
    } else if b.invoices[id].funding_pool is None {
        Some(InvoiceError::NotFound)
    } else if is_outstanding(b.invoices[id].status) {
        status_move_error(b, id, b.invoices[id].status, InvoiceStatus::Defaulted)
    } else if b.invoices[id].status == InvoiceStatus::Defaulted {
        None
    } else {
        Some(InvoiceError::InvalidStatusTransition)
    }
}

/// The expiry window in force.
pub open spec fn window_of(b: InvoiceBook) -> u64 {
    match b.expiry_window {
        Some(w) => w,
        None => DEFAULT_EXPIRY_WINDOW,
    }
}

/// The listing time of an invoice (0 when never recorded).
pub open spec fn listed_time(inv: Invoice) -> u64 {
    match inv.listed_at {
        Some(t) => t,
        None => 0,
    }
}

/// Why `expire_listing` fails, if it does.
pub open spec fn expire_error(b: InvoiceBook, id: InvoiceId, now: u64) -> Option<InvoiceError> {
    if !b.invoices.contains_key(id) {
        Some(InvoiceError::NotFound)
    } else if b.invoices[id].status != InvoiceStatus::Listed {
        Some(InvoiceError::InvalidStatusTransition)
    } else if b.admin is None {
        Some(InvoiceError::NotFound)
    } else if listed_time(b.invoices[id]) + window_of(b) > u64::MAX {
        Some(InvoiceError::MathOverflow)
    } else if now <= listed_time(b.invoices[id]) + window_of(b) {
        Some(InvoiceError::ListingNotExpired)
    } else {
        status_move_error(b, id, InvoiceStatus::Listed, InvoiceStatus::Expired)
    }
}

/// The book after `id` is marked funded by `pool` with `amount` at `now`.
pub open spec fn funded_book(b: InvoiceBook, id: InvoiceId, pool: Addr, amount: u128, now: u64) -> InvoiceBook {
    transitioned(
        b,
        id,
        (Invoice {
            status: InvoiceStatus::Funded,
            funded_amount: amount,
            funded_at: Some(now),
            funding_pool: Some(pool),
            ..b.invoices[id]
        }),
        InvoiceStatus::Listed,
        InvoiceStatus::Funded,
    )
}

/// The book after the outstanding invoice `id` is defaulted.
pub open spec fn defaulted_book(b: InvoiceBook, id: InvoiceId) -> InvoiceBook {
    transitioned(
        b,
        id,
        (Invoice { status: InvoiceStatus::Defaulted, ..b.invoices[id] }),
        b.invoices[id].status,
        InvoiceStatus::Defaulted,
    )
}

impl InvoiceContract {
    fn lookup(&self, id: &InvoiceId) -> (r: Option<Invoice>)
        requires
            self.wf(),
        ensures
            match r {
                Some(inv) => self@.invoices.contains_key(*id) && inv == self@.invoices[*id],
                None => !self@.invoices.contains_key(*id),
            },
    {
        match self.invoices.get(id) {
            Some(inv) => Some(*inv),
            None => None,
        }
    }

    /// Why `mark_funded` would refuse these arguments, without changing
    /// anything.
    pub fn mark_funded_check(
        &self,
        invoice_id: InvoiceId,
        pool_address: Addr,
        asset_address: Addr,
        funded_amount: u128,
    ) -> (r: Option<InvoiceError>)
        requires
            self.wf(),
        ensures
            r == mark_funded_error(self@, invoice_id, pool_address, asset_address, funded_amount),
    {
        if funded_amount == 0 {
            return Some(InvoiceError::InvalidAmount);
        }
        match self.pool {
            Some(p) => {
                if p != pool_address {
                    return Some(InvoiceError::NotAuthorized);
                }
            },
            None => {
                return Some(InvoiceError::NotAuthorized);
            },
        }
        let inv = match self.lookup(&invoice_id) {
            Some(inv) => inv,
            None => {
                return Some(InvoiceError::NotFound);
            },
        };
        if inv.status != InvoiceStatus::Listed {
            return Some(InvoiceError::InvalidStatusTransition);
        }
        if asset_address != inv.funding_asset {
            return Some(InvoiceError::UnsupportedAsset);
        }
        if funded_amount > inv.face_value {
            return Some(InvoiceError::InvalidAmount);
        }
        self.check_status_move(&invoice_id, InvoiceStatus::Listed, InvoiceStatus::Funded)
    }

    /// Why `trigger_default` would refuse, without changing anything.
    pub fn trigger_default_check(&self, invoice_id: InvoiceId, now: u64) -> (r: Option<InvoiceError>)
        requires
            self.wf(),
        ensures
            r == trigger_default_error(self@, invoice_id, now),
    {
        let inv = match self.lookup(&invoice_id) {
            Some(inv) => inv,
            None => {
                return Some(InvoiceError::NotFound);
            },
        };
        let prev = inv.status;
        if prev != InvoiceStatus::Funded && prev != InvoiceStatus::Active && prev
            != InvoiceStatus::Confirmed {
            return Some(InvoiceError::InvalidStatusTransition);
        }
        if now < inv.due_date {
            return Some(InvoiceError::DueDateNotPassed);
        }
        match self.check_status_move(&invoice_id, prev, InvoiceStatus::Defaulted) {
            Some(e) => {
                return Some(e);
            },
            None => {},
        }
        if inv.funding_pool.is_none() {
            return Some(InvoiceError::NotFound);
        }
        None
    }

    /// Why `mark_defaulted` would refuse, without changing anything.
    pub fn mark_defaulted_check(&self, invoice_id: InvoiceId) -> (r: Option<InvoiceError>)
        requires
            self.wf(),
        ensures
            r == mark_defaulted_error(self@, invoice_id),
    {
        let inv = match self.lookup(&invoice_id) {
            Some(inv) => inv,
            None => {
                return Some(InvoiceError::NotFound);
            },
        };
        if inv.funding_pool.is_none() {
            return Some(InvoiceError::NotFound);
        }
        let prev = inv.status;
        if prev == InvoiceStatus::Funded || prev == InvoiceStatus::Active || prev
            == InvoiceStatus::Confirmed {
            return self.check_status_move(&invoice_id, prev, InvoiceStatus::Defaulted);
        }
        if prev == InvoiceStatus::Defaulted {
            None
        } else {
            Some(InvoiceError::InvalidStatusTransition)
        }
    }

    /// Lists a created invoice for financing at `discount_bps`.
    pub fn list_for_financing(&mut self, invoice_id: InvoiceId, discount_bps: u32, now: u64) -> (r:
        Result<(), InvoiceError>)
        requires
            old(self).wf(),
        ensures
            final(self).wf(),
            follows_lifecycle(old(self)@, final(self)@),
            match r {
                Ok(()) => list_error(old(self)@, invoice_id, discount_bps) is None && final(self)@
                    == transitioned(
                    old(self)@,
                    invoice_id,
                    (Invoice {
                        status: InvoiceStatus::Listed,
                        discount_bps,
                        listed_at: Some(now),
                        ..old(self)@.invoices[invoice_id]
                    }),
                    InvoiceStatus::Created,
                    InvoiceStatus::Listed,
                ),
                Err(e) => list_error(old(self)@, invoice_id, discount_bps) == Some(e) && final(self)@ == old(self)@,
            },
    {
        let mut inv = match self.lookup(&invoice_id) {
            Some(inv) => inv,
            None => {
                return Err(InvoiceError::NotFound);
            },
        };
        if inv.status != InvoiceStatus::Created {
            return Err(InvoiceError::InvalidStatusTransition);
        }
        if discount_bps == 0 {
            return Err(InvoiceError::InvalidDiscount);
        }
        if discount_bps > MAX_DISCOUNT_BPS {
            return Err(InvoiceError::DiscountTooHigh);
        }
        match self.check_status_move(&invoice_id, InvoiceStatus::Created, InvoiceStatus::Listed) {
            Some(e) => {
                return Err(e);
            },
            None => {},
        }
        inv.status = InvoiceStatus::Listed;
        inv.discount_bps = discount_bps;
        inv.listed_at = Some(now);
        self.apply_step(invoice_id, inv, InvoiceStatus::Created, InvoiceStatus::Listed);
        Ok(())
    }

    /// Records that `pool_address` funded a listed invoice with
    /// `funded_amount` of `asset_address`.
    pub fn mark_funded(
        &mut self,
        invoice_id: InvoiceId,
        pool_address: Addr,
        asset_address: Addr,
        funded_amount: u128,
        now: u64,
    ) -> (r: Result<(), InvoiceError>)
        requires
            old(self).wf(),
        ensures
            final(self).wf(),
            follows_lifecycle(old(self)@, final(self)@),
            match r {
                Ok(()) => mark_funded_error(old(self)@, invoice_id, pool_address, asset_address, funded_amount)
                    is None && final(self)@ == transitioned(
                    old(self)@,
                    invoice_id,
                    (Invoice {
                        status: InvoiceStatus::Funded,
                        funded_amount,
                        funded_at: Some(now),
                        funding_pool: Some(pool_address),
                        ..old(self)@.invoices[invoice_id]
                    }),
                    InvoiceStatus::Listed,
                    InvoiceStatus::Funded,
                ),
                Err(e) => mark_funded_error(old(self)@, invoice_id, pool_address, asset_address, funded_amount)
                    == Some(e) && final(self)@ == old(self)@,
            },
    {
        match self.mark_funded_check(invoice_id, pool_address, asset_address, funded_amount) {
            Some(e) => {
                return Err(e);
            },
            None => {},
        }
        let mut inv = match self.lookup(&invoice_id) {
            Some(inv) => inv,
            None => {
                return Err(InvoiceError::NotFound);
            },
        };
        inv.status = InvoiceStatus::Funded;
        inv.funded_amount = funded_amount;
        inv.funded_at = Some(now);
        inv.funding_pool = Some(pool_address);
        self.apply_step(invoice_id, inv, InvoiceStatus::Listed, InvoiceStatus::Funded);
        Ok(())
    }

    /// Records that the issuer shipped the goods of a funded invoice.
    pub fn mark_shipped(&mut self, invoice_id: InvoiceId, now: u64) -> (r: Result<(), InvoiceError>)
        requires
            old(self).wf(),
        ensures
            final(self).wf(),
            follows_lifecycle(old(self)@, final(self)@),
            match r {
                Ok(()) => mark_shipped_error(old(self)@, invoice_id) is None && final(self)@
                    == transitioned(
                    old(self)@,
                    invoice_id,
                    (Invoice {
                        status: InvoiceStatus::Active,
                        shipped_at: Some(now),
                        ..old(self)@.invoices[invoice_id]
                    }),
                    InvoiceStatus::Funded,
                    InvoiceStatus::Active,
                ),
                Err(e) => mark_shipped_error(old(self)@, invoice_id) == Some(e) && final(self)@
                    == old(self)@,
            },
    {
        let mut inv = match self.lookup(&invoice_id) {
            Some(inv) => inv,
            None => {
                return Err(InvoiceError::NotFound);
            },
        };
        if inv.status != InvoiceStatus::Funded {
            return Err(InvoiceError::InvalidStatusTransition);
        }
        match self.check_status_move(&invoice_id, InvoiceStatus::Funded, InvoiceStatus::Active) {
            Some(e) => {
                return Err(e);
            },
            None => {},
        }
        inv.status = InvoiceStatus::Active;
        inv.shipped_at = Some(now);
        self.apply_step(invoice_id, inv, InvoiceStatus::Funded, InvoiceStatus::Active);
        Ok(())
    }

    /// Records the delivery confirmation of `confirmer` (issuer or buyer);
    /// once both parties have confirmed, the invoice moves to `Confirmed`.
    /// Returns `true` on success.
    pub fn confirm_delivery(&mut self, invoice_id: InvoiceId, confirmer: Addr) -> (r: Result<
        bool,
        InvoiceError,
    >)
        requires
            old(self).wf(),
        ensures
            final(self).wf(),
            follows_lifecycle(old(self)@, final(self)@),
            match r {
                Ok(done) => {
                    let inv = with_confirmation(old(self)@.invoices[invoice_id], confirmer);
                    &&& confirm_error(old(self)@, invoice_id, confirmer) is None
                    &&& done
                    &&& final(self)@ == if inv.issuer_confirmed && inv.buyer_confirmed {
                        transitioned(
                            old(self)@,
                            invoice_id,
                            (Invoice { status: InvoiceStatus::Confirmed, ..inv }),
                            InvoiceStatus::Active,
                            InvoiceStatus::Confirmed,
                        )
                    } else {
                        with_invoice(old(self)@, invoice_id, inv)
                    }
                },
                Err(e) => confirm_error(old(self)@, invoice_id, confirmer) == Some(e) && final(self)@ == old(self)@,
            },
    {
        let mut inv = match self.lookup(&invoice_id) {
            Some(inv) => inv,
            None => {
                return Err(InvoiceError::NotFound);
            },
        };
        if inv.status != InvoiceStatus::Active {
            return Err(InvoiceError::InvalidStatusTransition);
        }
        if confirmer != inv.issuer && confirmer != inv.buyer {
            return Err(InvoiceError::NotAuthorized);
        }
        if confirmer == inv.issuer {
            if inv.issuer_confirmed {
                return Err(InvoiceError::AlreadyConfirmed);
            }
            inv.issuer_confirmed = true;
        }
        if confirmer == inv.buyer {
            if inv.buyer_confirmed {
                return Err(InvoiceError::AlreadyConfirmed);
            }
            inv.buyer_confirmed = true;
        }
        let both = inv.issuer_confirmed && inv.buyer_confirmed;
        if both {
            match self.check_status_move(&invoice_id, InvoiceStatus::Active, InvoiceStatus::Confirmed) {
                Some(e) => {
                    return Err(e);
                },
                None => {},
            }
            inv.status = InvoiceStatus::Confirmed;
            self.apply_step(invoice_id, inv, InvoiceStatus::Active, InvoiceStatus::Confirmed);
        } else {
            self.update_invoice(invoice_id, inv);
        }
        Ok(true)
    }

    /// Defaults a past-due outstanding invoice. Returns the pool that funded
    /// it, which must then be told of the default.
    pub fn trigger_default(&mut self, invoice_id: InvoiceId, now: u64) -> (r: Result<Addr, InvoiceError>)
        requires
            old(self).wf(),
        ensures
            final(self).wf(),
            follows_lifecycle(old(self)@, final(self)@),
            match r {
                Ok(pool) => {
                    let inv = old(self)@.invoices[invoice_id];
                    &&& trigger_default_error(old(self)@, invoice_id, now) is None
                    &&& inv.funding_pool == Some(pool)
                    &&& final(self)@ == transitioned(
                        old(self)@,
                        invoice_id,
                        (Invoice { status: InvoiceStatus::Defaulted, ..inv }),
                        inv.status,
                        InvoiceStatus::Defaulted,
                    )
                },
                Err(e) => trigger_default_error(old(self)@, invoice_id, now) == Some(e) && final(self)@ == old(self)@,
            },
    {
        let mut inv = match self.lookup(&invoice_id) {
            Some(inv) => inv,
            None => {
                return Err(InvoiceError::NotFound);
            },
        };
        let prev = inv.status;
        if prev != InvoiceStatus::Funded && prev != InvoiceStatus::Active && prev
            != InvoiceStatus::Confirmed {
            return Err(InvoiceError::InvalidStatusTransition);
        }
        if now < inv.due_date {
            return Err(InvoiceError::DueDateNotPassed);
        }
        match self.check_status_move(&invoice_id, prev, InvoiceStatus::Defaulted) {
            Some(e) => {
                return Err(e);
            },
            None => {},
        }
        let pool = match inv.funding_pool {
            Some(p) => p,
            None => {
                return Err(InvoiceError::NotFound);
            },
        };
        inv.status = InvoiceStatus::Defaulted;
        self.apply_step(invoice_id, inv, prev, InvoiceStatus::Defaulted);
        Ok(pool)
    }

    /// Marks an outstanding invoice as defaulted on behalf of its funding pool.
    /// An invoice that is already defaulted is left as it is. Returns `true`
    /// on success.
    pub fn mark_defaulted(&mut self, invoice_id: InvoiceId) -> (r: Result<bool, InvoiceError>)
        requires
            old(self).wf(),
        ensures
            final(self).wf(),
            follows_lifecycle(old(self)@, final(self)@),
            match r {
                Ok(done) => {
                    let inv = old(self)@.invoices[invoice_id];
                    &&& mark_defaulted_error(old(self)@, invoice_id) is None
                    &&& done
                    &&& final(self)@ == if is_outstanding(inv.status) {
                        transitioned(
                            old(self)@,
                            invoice_id,
                            (Invoice { status: InvoiceStatus::Defaulted, ..inv }),
                            inv.status,
                            InvoiceStatus::Defaulted,
                        )
                    } else {
                        old(self)@
                    }
                },
                Err(e) => mark_defaulted_error(old(self)@, invoice_id) == Some(e) && final(self)@
                    == old(self)@,
            },
    {
        let mut inv = match self.lookup(&invoice_id) {
            Some(inv) => inv,
            None => {
                return Err(InvoiceError::NotFound);
            },
        };
        if inv.funding_pool.is_none() {
            return Err(InvoiceError::NotFound);
        }
        let prev = inv.status;
        if prev != InvoiceStatus::Funded && prev != InvoiceStatus::Active && prev
            != InvoiceStatus::Confirmed {
            if prev == InvoiceStatus::Defaulted {
                return Ok(true);
            }
            return Err(InvoiceError::InvalidStatusTransition);
        }
        match self.check_status_move(&invoice_id, prev, InvoiceStatus::Defaulted) {
            Some(e) => {
                return Err(e);
            },
            None => {},
        }
        inv.status = InvoiceStatus::Defaulted;
        self.apply_step(invoice_id, inv, prev, InvoiceStatus::Defaulted);
        Ok(true)
    }

    /// Expires a listing that has not been funded within the expiry window.
    pub fn expire_listing(&mut self, invoice_id: InvoiceId, now: u64) -> (r: Result<(), InvoiceError>)
        requires
            old(self).wf(),
        ensures
            final(self).wf(),
            follows_lifecycle(old(self)@, final(self)@),
            match r {
                Ok(()) => expire_error(old(self)@, invoice_id, now) is None && final(self)@
                    == transitioned(
                    old(self)@,
                    invoice_id,
                    (Invoice { status: InvoiceStatus::Expired, ..old(self)@.invoices[invoice_id] }),
                    InvoiceStatus::Listed,
                    InvoiceStatus::Expired,
                ),
                Err(e) => expire_error(old(self)@, invoice_id, now) == Some(e) && final(self)@
                    == old(self)@,
            },
    {
        let mut inv = match self.lookup(&invoice_id) {
            Some(inv) => inv,
            None => {
                return Err(InvoiceError::NotFound);
            },
        };
        if inv.status != InvoiceStatus::Listed {
            return Err(InvoiceError::InvalidStatusTransition);
        }
        if self.admin.is_none() {
            return Err(InvoiceError::NotFound);
        }
        let listed_at = match inv.listed_at {
            Some(t) => t,
            None => 0,
        };
        let window = self.get_expiry_window();
        let deadline = match listed_at.checked_add(window) {
            Some(d) => d,
            None => {
                return Err(InvoiceError::MathOverflow);
            },
        };
        if now <= deadline {
            return Err(InvoiceError::ListingNotExpired);
        }
        match self.check_status_move(&invoice_id, InvoiceStatus::Listed, InvoiceStatus::Expired) {
            Some(e) => {
                return Err(e);
            },
            None => {},
        }
        inv.status = InvoiceStatus::Expired;
        self.apply_step(invoice_id, inv, InvoiceStatus::Listed, InvoiceStatus::Expired);
        Ok(())
    }
}

/// What a repayment moves: `amount` of `asset` from `buyer` into `escrow`,
/// released from there to `pool`, which is told that `refund` of the
/// discount goes back to the buyer.
#[derive(Clone, Copy, Debug, PartialEq, Eq)]
pub struct Repayment {
    pub asset: Addr,
    pub buyer: Addr,
    pub escrow: Addr,
    pub pool: Addr,
    pub amount: u128,
    pub refund: u128,
}

/// `a - b`, or 0 when `b` exceeds `a`.
pub open spec fn sat_sub(a: int, b: int) -> int {
    if a >= b {
        a - b
    } else {
        0
    }
}

/// The part of `discount` the pool has earned after `elapsed` of a `term`:
/// proportional to time, all of it for a zero-length term.
pub open spec fn pool_earned(discount: int, elapsed: int, term: int) -> int {
    if term == 0 {
        discount
    } else {
        discount * elapsed / term
    }
}

/// The part of the discount returned to the buyer.
pub open spec fn buyer_refund(discount: int, elapsed: int, term: int) -> int {
    sat_sub(discount, pool_earned(discount, elapsed, term))
}

/// Whether computing `pool_earned` overflows `u128`.
pub open spec fn earned_overflows(discount: int, elapsed: int, term: int) -> bool {
    term != 0 && discount * elapsed > u128::MAX
}

/// Discount of a `repay`: face value less the recorded funded amount.
pub open spec fn repay_discount(inv: Invoice) -> int {
    sat_sub(inv.face_value as int, inv.funded_amount as int)
}

/// Discount of a `repay_early`: the listing discount of the face value.
pub open spec fn early_discount(inv: Invoice) -> int {
    sat_sub(inv.face_value as int, inv.face_value * (10000 - inv.discount_bps) / 10000)
}

/// The settlement of repaying `inv` at `now` given its discount.
pub open spec fn settlement(b: InvoiceBook, inv: Invoice, discount: int, now: u64) -> Repayment {
    let funded_at = inv.funded_at.unwrap();
    Repayment {
        asset: inv.funding_asset,
        buyer: inv.buyer,
        escrow: b.escrow.unwrap(),
        pool: inv.funding_pool.unwrap(),
        amount: inv.face_value,
        refund: buyer_refund(
            discount,
            sat_sub(now as int, funded_at as int),
            sat_sub(inv.due_date as int, funded_at as int),
        ) as u128,
    }
}

/// The book after `id` is repaid at `now`.
pub open spec fn repaid_book(b: InvoiceBook, id: InvoiceId, now: u64) -> InvoiceBook {
    let inv = b.invoices[id];
    transitioned(
        b,
        id,
        (Invoice { status: InvoiceStatus::Repaid, repaid_at: Some(now), ..inv }),
        inv.status,
        InvoiceStatus::Repaid,
    )
}

/// Why `repay` fails, if it does.
pub open spec fn repay_error(b: InvoiceBook, id: InvoiceId, now: u64) -> Option<InvoiceError> {
    if !b.invoices.contains_key(id) {
        Some(InvoiceError::NotFound)
    } else if b.invoices[id].status != InvoiceStatus::Confirmed {
        Some(InvoiceError::InvalidStatusTransition)
    } else if b.invoices[id].funding_pool is None {
        Some(InvoiceError::NotFound)
    } else if b.invoices[id].funded_at is None {
        Some(InvoiceError::NotFound)
    } else if earned_overflows(
        repay_discount(b.invoices[id]),
        sat_sub(now as int, b.invoices[id].funded_at.unwrap() as int),
        sat_sub(b.invoices[id].due_date as int, b.invoices[id].funded_at.unwrap() as int),
    ) {
        Some(InvoiceError::MathOverflow)
    } else if b.escrow is None {
        Some(InvoiceError::NotFound)
    } else {
        status_move_error(b, id, b.invoices[id].status, InvoiceStatus::Repaid)
    }
}

/// Why `repay_early` fails, if it does.
pub open spec fn repay_early_error(b: InvoiceBook, id: InvoiceId, now: u64) -> Option<InvoiceError> {
    if !b.invoices.contains_key(id) {
        Some(InvoiceError::NotFound)
    } else if b.invoices[id].status != InvoiceStatus::Confirmed {
        Some(InvoiceError::InvalidStatusTransition)
    } else if b.invoices[id].funding_pool is None {
        Some(InvoiceError::NotFound)
    } else if b.invoices[id].funded_at is None {
        Some(InvoiceError::NotFound)
    } else if now >= b.invoices[id].due_date {
        Some(InvoiceError::InvalidStatusTransition)
    } else if earned_overflows(
        early_discount(b.invoices[id]),
        sat_sub(now as int, b.invoices[id].funded_at.unwrap() as int),
        sat_sub(b.invoices[id].due_date as int, b.invoices[id].funded_at.unwrap() as int),
    ) {
        Some(InvoiceError::MathOverflow)
    } else if b.escrow is None {
        Some(InvoiceError::NotFound)
    } else {
        status_move_error(b, id, InvoiceStatus::Confirmed, InvoiceStatus::Repaid)
    }
}

/// Computes the buyer's refund, or `None` when the computation overflows.
fn compute_refund(discount: u128, now: u64, funded_at: u64, due_date: u64) -> (r: Option<u128>)
    ensures
        match r {
            Some(refund) => !earned_overflows(
                discount as int,
                sat_sub(now as int, funded_at as int),
                sat_sub(due_date as int, funded_at as int),
            ) && refund == buyer_refund(
                discount as int,
                sat_sub(now as int, funded_at as int),
                sat_sub(due_date as int, funded_at as int),
            ),
            None => earned_overflows(
                discount as int,
                sat_sub(now as int, funded_at as int),
                sat_sub(due_date as int, funded_at as int),
            ),
        },
{
    let term: u64 = due_date.saturating_sub(funded_at);
    let elapsed: u64 = now.saturating_sub(funded_at);
    let earned: u128 = if term == 0 {
        discount
    } else {
        match discount.checked_mul(elapsed as u128) {
            Some(p) => p / (term as u128),
            None => {
                return None;
            },
        }
    };
    Some(discount.saturating_sub(earned))
}

impl InvoiceContract {
    /// The settlement a `repay` of `invoice_id` at `now` would carry out,
    /// without carrying it out.
    pub fn repay_quote(&self, invoice_id: InvoiceId, now: u64) -> (r: Result<Repayment, InvoiceError>)
        requires
            self.wf(),
        ensures
            match r {
                Ok(rep) => repay_error(self@, invoice_id, now) is None && rep == settlement(
                    self@,
                    self@.invoices[invoice_id],
                    repay_discount(self@.invoices[invoice_id]),
                    now,
                ),
                Err(e) => repay_error(self@, invoice_id, now) == Some(e),
            },
    {
        let inv = match self.lookup(&invoice_id) {
            Some(inv) => inv,
            None => {
                return Err(InvoiceError::NotFound);
            },
        };
        let prev = inv.status;
        if prev != InvoiceStatus::Confirmed {
            return Err(InvoiceError::InvalidStatusTransition);
        }
        let pool = match inv.funding_pool {
            Some(p) => p,
            None => {
                return Err(InvoiceError::NotFound);
            },
        };
        let funded_at = match inv.funded_at {
            Some(t) => t,
            None => {
                return Err(InvoiceError::NotFound);
            },
        };
        let discount = inv.face_value.saturating_sub(inv.funded_amount);
        let refund = match compute_refund(discount, now, funded_at, inv.due_date) {
            Some(x) => x,
            None => {
                return Err(InvoiceError::MathOverflow);
            },
        };
        let escrow = match self.escrow {
            Some(e) => e,
            None => {
                return Err(InvoiceError::NotFound);
            },
        };
        match self.check_status_move(&invoice_id, prev, InvoiceStatus::Repaid) {
            Some(e) => {
                return Err(e);
            },
            None => {},
        }
        Ok(
            Repayment {
                asset: inv.funding_asset,
                buyer: inv.buyer,
                escrow,
                pool,
                amount: inv.face_value,
                refund,
            },
        )
    }

    /// Repays a confirmed invoice: the buyer pays the face value, which is
    /// routed through escrow to the funding pool, and the unearned part of the
    /// discount is refunded. Returns the settlement to carry out.
    pub fn repay(&mut self, invoice_id: InvoiceId, now: u64) -> (r: Result<Repayment, InvoiceError>)
        requires
            old(self).wf(),
        ensures
            final(self).wf(),
            follows_lifecycle(old(self)@, final(self)@),
            match r {
                Ok(rep) => {
                    let inv = old(self)@.invoices[invoice_id];
                    &&& repay_error(old(self)@, invoice_id, now) is None
                    &&& rep == settlement(old(self)@, inv, repay_discount(inv), now)
                    &&& final(self)@ == repaid_book(old(self)@, invoice_id, now)
                },
                Err(e) => repay_error(old(self)@, invoice_id, now) == Some(e) && final(self)@
                    == old(self)@,
            },
    {
        let rep = match self.repay_quote(invoice_id, now) {
            Ok(rep) => rep,
            Err(e) => {
                return Err(e);
            },
        };
        self.settle_repaid(invoice_id, now);
        Ok(rep)
    }

    /// Moves a confirmed invoice whose repayment was accepted to `Repaid`.
    fn settle_repaid(&mut self, invoice_id: InvoiceId, now: u64)
        requires
            old(self).wf(),
            old(self)@.invoices.contains_key(invoice_id),
            old(self)@.invoices[invoice_id].status == InvoiceStatus::Confirmed,
            status_move_error(
                old(self)@,
                invoice_id,
                old(self)@.invoices[invoice_id].status,
                InvoiceStatus::Repaid,
            ) is None,
        ensures
            final(self).wf(),
            final(self)@ == repaid_book(old(self)@, invoice_id, now),
    {
        let mut inv = match self.lookup(&invoice_id) {
            Some(inv) => inv,
            None => {
                return;
            },
        };
        let prev = inv.status;
        inv.status = InvoiceStatus::Repaid;
        inv.repaid_at = Some(now);
        self.apply_step(invoice_id, inv, prev, InvoiceStatus::Repaid);
    }

    /// The settlement a `repay_early` of `invoice_id` at `now` would carry
    /// out, without carrying it out.
    pub fn repay_early_quote(&self, invoice_id: InvoiceId, now: u64) -> (r: Result<Repayment, InvoiceError>)
        requires
            self.wf(),
        ensures
            match r {
                Ok(rep) => repay_early_error(self@, invoice_id, now) is None && rep == settlement(
                    self@,
                    self@.invoices[invoice_id],
                    early_discount(self@.invoices[invoice_id]),
                    now,
                ),
                Err(e) => repay_early_error(self@, invoice_id, now) == Some(e),
            },
    {
        let inv = match self.lookup(&invoice_id) {
            Some(inv) => inv,
            None => {
                return Err(InvoiceError::NotFound);
            },
        };
        if inv.status != InvoiceStatus::Confirmed {
            return Err(InvoiceError::InvalidStatusTransition);
        }
        let pool = match inv.funding_pool {
            Some(p) => p,
            None => {
                return Err(InvoiceError::NotFound);
            },
        };
        let face_value = inv.face_value;
        let kept_bps: u128 = 10000 - inv.discount_bps as u128;
        proof {
            assert(self@.invoices.contains_key(invoice_id));
            assert(face_value <= MAX_FACE_VALUE);
            assert(face_value * kept_bps <= MAX_FACE_VALUE * 10000) by (nonlinear_arith)
                requires
                    face_value <= MAX_FACE_VALUE,
                    kept_bps <= 10000,
            ;
        }
        let funded_amount = face_value * kept_bps / 10000;
        let discount = face_value.saturating_sub(funded_amount);
        let funded_at = match inv.funded_at {
            Some(t) => t,
            None => {
                return Err(InvoiceError::NotFound);
            },
        };
        if now >= inv.due_date {
            return Err(InvoiceError::InvalidStatusTransition);
        }
        let refund = match compute_refund(discount, now, funded_at, inv.due_date) {
            Some(x) => x,
            None => {
                return Err(InvoiceError::MathOverflow);
            },
        };
        let escrow = match self.escrow {
            Some(e) => e,
            None => {
                return Err(InvoiceError::NotFound);
            },
        };
        match self.check_status_move(&invoice_id, InvoiceStatus::Confirmed, InvoiceStatus::Repaid) {
            Some(e) => {
                return Err(e);
            },
            None => {},
        }
        Ok(
            Repayment {
                asset: inv.funding_asset,
                buyer: inv.buyer,
                escrow,
                pool,
                amount: face_value,
                refund,
            },
        )
    }

    /// Repays a confirmed invoice before its due date, refunding the part of
    /// the listing discount the pool has not yet earned. Returns the
    /// settlement to carry out.
    pub fn repay_early(&mut self, invoice_id: InvoiceId, now: u64) -> (r: Result<Repayment, InvoiceError>)
        requires
            old(self).wf(),
        ensures
            final(self).wf(),
            follows_lifecycle(old(self)@, final(self)@),
            match r {
                Ok(rep) => {
                    let inv = old(self)@.invoices[invoice_id];
                    &&& repay_early_error(old(self)@, invoice_id, now) is None
                    &&& rep == settlement(old(self)@, inv, early_discount(inv), now)
                    &&& final(self)@ == repaid_book(old(self)@, invoice_id, now)
                },
                Err(e) => repay_early_error(old(self)@, invoice_id, now) == Some(e) && final(self)@ == old(self)@,
            },
    {
        let rep = match self.repay_early_quote(invoice_id, now) {
            Ok(rep) => rep,
            Err(e) => {
                return Err(e);
            },
        };
        self.settle_repaid(invoice_id, now);
        Ok(rep)
    }
}


/// The stored invoices named by `ids`, in order.
pub open spec fn hydrate(b: InvoiceBook, ids: Seq<InvoiceId>) -> Seq<Invoice> {
    ids.map_values(|id: InvoiceId| b.invoices[id])
}

/// The invoices of `s` whose status is `st`, in order.
pub open spec fn having_status(s: Seq<Invoice>, st: InvoiceStatus) -> Seq<Invoice>
    decreases s.len(),
{
    if s.len() == 0 {
        Seq::empty()
    } else if s.last().status == st {
        having_status(s.drop_last(), st).push(s.last())
    } else {
        having_status(s.drop_last(), st)
    }
}

/// Why a read of one invoice fails, if it does.
pub open spec fn read_error(b: InvoiceBook, id: InvoiceId) -> Option<InvoiceError> {
    if b.admin is None {
        Some(InvoiceError::NotInitialized)
    } else if !b.invoices.contains_key(id) {
        Some(InvoiceError::NotFound)
    } else {
        None
    }
}

impl InvoiceContract {
    /// The full record of an invoice.
    pub fn get(&self, invoice_id: InvoiceId) -> (r: Result<Invoice, InvoiceError>)
        requires
            self.wf(),
        ensures
            match r {
                Ok(inv) => read_error(self@, invoice_id) is None && inv == self@.invoices[invoice_id],
                Err(e) => read_error(self@, invoice_id) == Some(e),
            },
    {
        if self.admin.is_none() {
            return Err(InvoiceError::NotInitialized);
        }
        match self.lookup(&invoice_id) {
            Some(inv) => Ok(inv),
            None => Err(InvoiceError::NotFound),
        }
    }

    /// The status code of an invoice.
    pub fn get_status(&self, invoice_id: InvoiceId) -> (r: Result<u32, InvoiceError>)
        requires
            self.wf(),
        ensures
            match r {
                Ok(c) => read_error(self@, invoice_id) is None && c == status_code(
                    self@.invoices[invoice_id].status,
                ),
                Err(e) => read_error(self@, invoice_id) == Some(e),
            },
    {
        match self.get(invoice_id) {
            Ok(inv) => Ok(inv.status.code()),
            Err(e) => Err(e),
        }
    }

    pub fn get_face_value(&self, invoice_id: InvoiceId) -> (r: Result<u128, InvoiceError>)
        requires
            self.wf(),
        ensures
            match r {
                Ok(v) => read_error(self@, invoice_id) is None && v
                    == self@.invoices[invoice_id].face_value,
                Err(e) => read_error(self@, invoice_id) == Some(e),
            },
    {
        match self.get(invoice_id) {
            Ok(inv) => Ok(inv.face_value),
            Err(e) => Err(e),
        }
    }

    pub fn get_discount_bps(&self, invoice_id: InvoiceId) -> (r: Result<u32, InvoiceError>)
        requires
            self.wf(),
        ensures
            match r {
                Ok(v) => read_error(self@, invoice_id) is None && v
                    == self@.invoices[invoice_id].discount_bps,
                Err(e) => read_error(self@, invoice_id) == Some(e),
            },
    {
        match self.get(invoice_id) {
            Ok(inv) => Ok(inv.discount_bps),
            Err(e) => Err(e),
        }
    }

    pub fn get_funding_asset(&self, invoice_id: InvoiceId) -> (r: Result<Addr, InvoiceError>)
        requires
            self.wf(),
        ensures
            match r {
                Ok(v) => read_error(self@, invoice_id) is None && v
                    == self@.invoices[invoice_id].funding_asset,
                Err(e) => read_error(self@, invoice_id) == Some(e),
            },
    {
        match self.get(invoice_id) {
            Ok(inv) => Ok(inv.funding_asset),
            Err(e) => Err(e),
        }
    }

    pub fn get_issuer(&self, invoice_id: InvoiceId) -> (r: Result<Addr, InvoiceError>)
        requires
            self.wf(),
        ensures
            match r {
                Ok(v) => read_error(self@, invoice_id) is None && v
                    == self@.invoices[invoice_id].issuer,
                Err(e) => read_error(self@, invoice_id) == Some(e),
            },
    {
        match self.get(invoice_id) {
            Ok(inv) => Ok(inv.issuer),
            Err(e) => Err(e),
        }
    }

    /// `(status code, face value, discount)` of an invoice in one read.
    pub fn get_funding_terms(&self, invoice_id: InvoiceId) -> (r: Result<(u32, u128, u32), InvoiceError>)
        requires
            self.wf(),
        ensures
            match r {
                Ok(t) => self@.invoices.contains_key(invoice_id) && t == (
                    status_code(self@.invoices[invoice_id].status),
                    self@.invoices[invoice_id].face_value,
                    self@.invoices[invoice_id].discount_bps,
                ),
                Err(e) => !self@.invoices.contains_key(invoice_id) && e == InvoiceError::NotFound,
            },
    {
        match self.lookup(&invoice_id) {
            Some(inv) => Ok((inv.status.code(), inv.face_value, inv.discount_bps)),
            None => Err(InvoiceError::NotFound),
        }
    }

    /// The invoices named by `ids`, which must all be stored.
    fn hydrate_ids(&self, ids: &Vec<InvoiceId>) -> (r: Vec<Invoice>)
        requires
            self.wf(),
            forall|i: int| 0 <= i < ids@.len() ==> self@.invoices.contains_key(#[trigger] ids@[i]),
        ensures
            r@ == hydrate(self@, ids@),
    {
        let mut out: Vec<Invoice> = Vec::new();
        let mut i: usize = 0;
        while i < ids.len()
            invariant
                self.wf(),
                i <= ids@.len(),
                forall|j: int| 0 <= j < ids@.len() ==> self@.invoices.contains_key(#[trigger] ids@[j]),
                out@ == hydrate(self@, ids@.subrange(0, i as int)),
            decreases ids@.len() - i,
        {
            let id = ids[i];
            match self.lookup(&id) {
                Some(inv) => {
                    out.push(inv);
                },
                None => {
                    assert(self@.invoices.contains_key(ids@[i as int]));
                },
            }
            i = i + 1;
            proof {
                assert(hydrate(self@, ids@.subrange(0, i as int)) =~= hydrate(
                    self@,
                    ids@.subrange(0, i - 1),
                ).push(self@.invoices[ids@[i - 1]]));
            }
        }
        assert(ids@.subrange(0, ids@.len() as int) =~= ids@);
        out
    }

    /// The invoices indexed under a status that are still in that status, in
    /// indexing order.
    pub fn get_by_status(&self, status: InvoiceStatus) -> (r: Vec<Invoice>)
        requires
            self.wf(),
        ensures
            r@ == having_status(hydrate(self@, ids_at(self@.by_status, status_code(status))), status),
            r@.no_duplicates(),
            forall|i: int| 0 <= i < r@.len() ==> {
                let inv = #[trigger] r@[i];
                &&& inv.status == status
                &&& self@.invoices.contains_key(inv.id)
                &&& self@.invoices[inv.id] == inv
            },
    {
        proof {
            law_get_by_status_lists_each_once(self@, status);
        }
        let ids = self.by_status.ids(&status.code());
        proof {
            assert forall|i: int| 0 <= i < ids@.len() implies self@.invoices.contains_key(
                #[trigger] ids@[i],
            ) by {
                assert(ids_at(self@.by_status, status_code(status)).contains(ids@[i]));
            }
        }
        let all = self.hydrate_ids(&ids);
        let mut out: Vec<Invoice> = Vec::new();
        let mut i: usize = 0;
        while i < all.len()
            invariant
                i <= all@.len(),
                out@ == having_status(all@.subrange(0, i as int), status),
            decreases all@.len() - i,
        {
            let inv = all[i];
            proof {
                assert(all@.subrange(0, i + 1).drop_last() =~= all@.subrange(0, i as int));
            }
            if inv.status == status {
                out.push(inv);
            }
            i = i + 1;
        }
        assert(all@.subrange(0, all@.len() as int) =~= all@);
        out
    }

    /// The invoices indexed under `issuer`, in creation order.
    pub fn get_by_issuer(&self, address: Addr) -> (r: Vec<Invoice>)
        requires
            self.wf(),
        ensures
            r@ == hydrate(self@, ids_at(self@.by_issuer, address)),
    {
        let ids = self.by_issuer.ids(&address);
        proof {
            assert forall|i: int| 0 <= i < ids@.len() implies self@.invoices.contains_key(
                #[trigger] ids@[i],
            ) by {
                assert(ids_at(self@.by_issuer, address).contains(ids@[i]));
            }
        }
        self.hydrate_ids(&ids)
    }

    /// The invoices indexed under `buyer`, in creation order.
    pub fn get_by_buyer(&self, address: Addr) -> (r: Vec<Invoice>)
        requires
            self.wf(),
        ensures
            r@ == hydrate(self@, ids_at(self@.by_buyer, address)),
    {
        let ids = self.by_buyer.ids(&address);
        proof {
            assert forall|i: int| 0 <= i < ids@.len() implies self@.invoices.contains_key(
                #[trigger] ids@[i],
            ) by {
                assert(ids_at(self@.by_buyer, address).contains(ids@[i]));
            }
        }
        self.hydrate_ids(&ids)
    }

    /// The number of invoices counted under each status, in lifecycle order.
    pub fn get_counts(&self) -> (r: Vec<(InvoiceStatus, u64)>)
        requires
            self.wf(),
        ensures
            r@.len() == 8,
            forall|i: int| 0 <= i < 8 ==> (#[trigger] r@[i]).0 == status_of_code(i as u32).unwrap()
                && r@[i].1 == count_in(self@.counts, i as u32),
            self@.fresh_ids ==> forall|i: int|
                0 <= i < 8 ==> (#[trigger] r@[i]).1 == in_status(self@.invoices, i as u32).len(),
            self@.fresh_ids ==> counted_below(self@.counts, 8) == created_so_far(self@.counter),
    {
        proof {
            if self@.fresh_ids {
                law_counts_are_exact(self@);
            }
        }
        let mut out: Vec<(InvoiceStatus, u64)> = Vec::new();
        let mut c: u32 = 0;
        while c < 8
            invariant
                self.wf(),
                c <= 8,
                out@.len() == c,
                forall|i: int| 0 <= i < c ==> (#[trigger] out@[i]).0 == status_of_code(
                    i as u32,
                ).unwrap() && out@[i].1 == count_in(self@.counts, i as u32),
            decreases 8 - c,
        {
            let st = match InvoiceStatus::from_code(c) {
                Some(st) => st,
                None => InvoiceStatus::Created,
            };
            let n = self.count_of(c);
            out.push((st, n));
            c = c + 1;
        }
        out
    }
}
/// An invoice is listed at most once: once listed, listing it again is
/// refused as an invalid status transition.
pub proof fn law_listing_cannot_repeat(
    b: InvoiceBook,
    id: InvoiceId,
    discount_bps: u32,
    now: u64,
    discount_bps2: u32,
)
    requires
        list_error(b, id, discount_bps) is None,
    ensures
        list_error(
            transitioned(
                b,
                id,
                (Invoice {
                    status: InvoiceStatus::Listed,
                    discount_bps,
                    listed_at: Some(now),
                    ..b.invoices[id]
                }),
                InvoiceStatus::Created,
                InvoiceStatus::Listed,
            ),
            id,
            discount_bps2,
        ) == Some(InvoiceError::InvalidStatusTransition),
{
}

/// An invoice is funded at most once: once marked funded, every further
/// request to mark it funded is refused.
pub proof fn law_funding_cannot_repeat(
    b: InvoiceBook,
    id: InvoiceId,
    pool: Addr,
    asset: Addr,
    amount: u128,
    now: u64,
    asset2: Addr,
    amount2: u128,
)
    requires
        mark_funded_error(b, id, pool, asset, amount) is None,
        amount2 > 0,
    ensures
        mark_funded_error(
            transitioned(
                b,
                id,
                (Invoice {
                    status: InvoiceStatus::Funded,
                    funded_amount: amount,
                    funded_at: Some(now),
                    funding_pool: Some(pool),
                    ..b.invoices[id]
                }),
                InvoiceStatus::Listed,
                InvoiceStatus::Funded,
            ),
            id,
            pool,
            asset2,
            amount2,
        ) == Some(InvoiceError::InvalidStatusTransition),
{
}

/// A single confirmation never completes delivery: with distinct issuer and
/// buyer and no confirmation yet, one party's confirmation leaves the other
/// outstanding.
pub proof fn law_delivery_needs_both_confirmations(b: InvoiceBook, id: InvoiceId, confirmer: Addr)
    requires
        confirm_error(b, id, confirmer) is None,
        b.invoices[id].issuer != b.invoices[id].buyer,
        !b.invoices[id].issuer_confirmed,
        !b.invoices[id].buyer_confirmed,
    ensures
        !(with_confirmation(b.invoices[id], confirmer).issuer_confirmed && with_confirmation(
            b.invoices[id],
            confirmer,
        ).buyer_confirmed),
{
}

/// A repaid invoice is settled: it can be neither repaid again nor defaulted.
pub proof fn law_repaid_is_final(b: InvoiceBook, id: InvoiceId, now: u64, now2: u64)
    requires
        repay_error(b, id, now) is None,
    ensures
        ({
            let inv = b.invoices[id];
            let after = transitioned(
                b,
                id,
                (Invoice { status: InvoiceStatus::Repaid, repaid_at: Some(now), ..inv }),
                inv.status,
                InvoiceStatus::Repaid,
            );
            &&& repay_error(after, id, now2) == Some(InvoiceError::InvalidStatusTransition)
            &&& repay_early_error(after, id, now2) == Some(InvoiceError::InvalidStatusTransition)
            &&& trigger_default_error(after, id, now2) == Some(InvoiceError::InvalidStatusTransition)
        }),
{
}

/// A defaulted invoice is settled: it can be neither repaid nor defaulted
/// again.
pub proof fn law_defaulted_is_final(b: InvoiceBook, id: InvoiceId, now: u64, now2: u64)
    requires
        trigger_default_error(b, id, now) is None,
    ensures
        ({
            let inv = b.invoices[id];
            let after = transitioned(
                b,
                id,
                (Invoice { status: InvoiceStatus::Defaulted, ..inv }),
                inv.status,
                InvoiceStatus::Defaulted,
            );
            &&& repay_error(after, id, now2) == Some(InvoiceError::InvalidStatusTransition)
            &&& repay_early_error(after, id, now2) == Some(InvoiceError::InvalidStatusTransition)
            &&& trigger_default_error(after, id, now2) == Some(InvoiceError::InvalidStatusTransition)
        }),
{
}

/// The buyer's refund is part of the discount, the pool keeping the rest:
/// none of it once the term has fully elapsed, all of it at the start of a
/// term.
pub proof fn law_refund_within_discount(discount: int, elapsed: int, term: int)
    requires
        discount >= 0,
        elapsed >= 0,
        term >= 0,
    ensures
        0 <= buyer_refund(discount, elapsed, term) <= discount,
        elapsed >= term ==> buyer_refund(discount, elapsed, term) == 0,
        elapsed == 0 && term > 0 ==> buyer_refund(discount, elapsed, term) == discount,
        buyer_refund(discount, elapsed, term) + pool_earned(discount, elapsed, term) == discount
            || pool_earned(discount, elapsed, term) > discount,
{
    if term > 0 {
        assert(discount * elapsed / term >= 0) by (nonlinear_arith)
            requires
                discount >= 0,
                elapsed >= 0,
                term > 0,
        ;
        if elapsed >= term {
            assert(discount * elapsed / term >= discount) by (nonlinear_arith)
                requires
                    discount >= 0,
                    elapsed >= term,
                    term > 0,
            ;
        }
        if elapsed == 0 {
            assert(discount * elapsed == 0);
        }
    }
}

/// The edges of the invoice lifecycle.
pub open spec fn lifecycle_edge(from: InvoiceStatus, to: InvoiceStatus) -> bool {
    ||| from == InvoiceStatus::Created && to == InvoiceStatus::Listed
    ||| from == InvoiceStatus::Listed && (to == InvoiceStatus::Funded || to == InvoiceStatus::Expired)
    ||| from == InvoiceStatus::Funded && to == InvoiceStatus::Active
    ||| from == InvoiceStatus::Active && to == InvoiceStatus::Confirmed
    ||| from == InvoiceStatus::Confirmed && to == InvoiceStatus::Repaid
    ||| is_outstanding(from) && to == InvoiceStatus::Defaulted
}

/// `Repaid`, `Defaulted` and `Expired` are final: no edge of the lifecycle
/// leaves them, so no accepted call moves an invoice out of them.
pub proof fn law_final_statuses_are_never_left(s: InvoiceStatus, t: InvoiceStatus)
    requires
        s == InvoiceStatus::Repaid || s == InvoiceStatus::Defaulted || s == InvoiceStatus::Expired,
    ensures
        !lifecycle_edge(s, t),
{
}

/// A funded, shipped or confirmed invoice with a funding pool can be
/// defaulted exactly from its due date on: before it, the refusal is
/// `DueDateNotPassed`; from it on, `trigger_default` succeeds (in a book
/// whose created ids were all fresh, so the bookkeeping is exact).
pub proof fn law_outstanding_invoice_defaults_from_due_date(b: InvoiceBook, id: InvoiceId, now: u64)
    requires
        book_inv(b),
        b.fresh_ids,
        b.invoices.contains_key(id),
        b.invoices[id].status == InvoiceStatus::Funded || b.invoices[id].status == InvoiceStatus::Active
            || b.invoices[id].status == InvoiceStatus::Confirmed,
        b.invoices[id].funding_pool is Some,
    ensures
        trigger_default_error(b, id, now) is None <==> now >= b.invoices[id].due_date,
        trigger_default_error(b, id, now) == Some(InvoiceError::DueDateNotPassed) <==> now
            < b.invoices[id].due_date,
{
    law_fresh_books_pass_the_status_check(b, id, InvoiceStatus::Defaulted);
}

/// Whatever the bookkeeping, a funded, shipped or confirmed invoice with a
/// funding pool, at or past its due date, is never refused by
/// `trigger_default` for its due date, and once the bookkeeping check
/// passes it is defaulted.
pub proof fn law_past_due_default_depends_only_on_bookkeeping(b: InvoiceBook, id: InvoiceId, now: u64)
    requires
        b.invoices.contains_key(id),
        b.invoices[id].status == InvoiceStatus::Funded || b.invoices[id].status == InvoiceStatus::Active
            || b.invoices[id].status == InvoiceStatus::Confirmed,
        b.invoices[id].funding_pool is Some,
        now >= b.invoices[id].due_date,
    ensures
        trigger_default_error(b, id, now) != Some(InvoiceError::DueDateNotPassed),
        status_move_error(b, id, b.invoices[id].status, InvoiceStatus::Defaulted) is None
            ==> trigger_default_error(b, id, now) is None,
{
}

/// The lifetime bound of `create` is exactly ten years (315_360_000
/// seconds): when every other check passes, the due date is refused as too
/// far exactly when it lies beyond ten years from `now`, and the invoice is
/// created otherwise.
pub proof fn law_create_accepts_due_dates_within_ten_years(
    b: InvoiceBook,
    issuer: Addr,
    buyer: Addr,
    face_value: u128,
    due_date: u64,
    funding_asset: Addr,
    now: u64,
)
    requires
        issuer != buyer,
        b.registry is Some,
        b.supported.contains_key(funding_asset),
        0 < face_value <= MAX_FACE_VALUE,
        now < due_date,
        now + 315_360_000 <= u64::MAX,
        b.counter is Some,
        b.counter.unwrap() < u64::MAX,
        count_in(b.counts, 0) < u64::MAX,
    ensures
        create_error(b, issuer, buyer, face_value, due_date, funding_asset, now, true, true)
            == Some(InvoiceError::InvalidDueDateTooFar) <==> due_date > now + 315_360_000,
        create_error(b, issuer, buyer, face_value, due_date, funding_asset, now, true, true) is None
            <==> due_date <= now + 315_360_000,
{
}

/// A listing expires exactly after the window that `get_expiry_window`
/// reports (the seven-day default, 604_800 seconds, when none was set):
/// `expire_listing` refuses with `ListingNotExpired` up to the deadline and
/// succeeds after it (in a book whose created ids were all fresh).
pub proof fn law_listing_expires_after_the_reported_window(
    b: InvoiceBook,
    id: InvoiceId,
    listed: u64,
    now: u64,
)
    requires
        book_inv(b),
        b.fresh_ids,
        b.admin is Some,
        b.invoices.contains_key(id),
        b.invoices[id].status == InvoiceStatus::Listed,
        b.invoices[id].listed_at == Some(listed),
        listed + (match b.expiry_window {
            Some(w) => w,
            None => 604_800u64,
        }) <= u64::MAX,
    ensures
        expire_error(b, id, now) == Some(InvoiceError::ListingNotExpired) <==> now <= listed + (
        match b.expiry_window {
            Some(w) => w,
            None => 604_800u64,
        }),
        expire_error(b, id, now) is None <==> now > listed + (match b.expiry_window {
            Some(w) => w,
            None => 604_800u64,
        }),
{
    law_fresh_books_pass_the_status_check(b, id, InvoiceStatus::Expired);
}

/// Listing accepts exactly the discounts from 1 to 5_000 basis points (50%)
/// on a created invoice (in a book whose created ids were all fresh).
pub proof fn law_listing_accepts_discounts_up_to_half(b: InvoiceBook, id: InvoiceId, discount_bps: u32)
    requires
        book_inv(b),
        b.fresh_ids,
        b.invoices.contains_key(id),
        b.invoices[id].status == InvoiceStatus::Created,
    ensures
        list_error(b, id, discount_bps) is None <==> 1 <= discount_bps <= 5000,
        discount_bps == 0 ==> list_error(b, id, discount_bps) == Some(InvoiceError::InvalidDiscount),
        discount_bps > 5000 ==> list_error(b, id, discount_bps) == Some(InvoiceError::DiscountTooHigh),
{
    law_fresh_books_pass_the_status_check(b, id, InvoiceStatus::Listed);
}

/// The registered pool funds a listed invoice in its own asset with any
/// amount from 1 up to the face value; any other amount is refused as
/// invalid (in a book whose created ids were all fresh).
pub proof fn law_funding_accepts_amounts_up_to_face_value(
    b: InvoiceBook,
    id: InvoiceId,
    pool: Addr,
    amount: u128,
)
    requires
        book_inv(b),
        b.fresh_ids,
        b.pool == Some(pool),
        b.invoices.contains_key(id),
        b.invoices[id].status == InvoiceStatus::Listed,
    ensures
        mark_funded_error(b, id, pool, b.invoices[id].funding_asset, amount) is None <==> 0 < amount
            <= b.invoices[id].face_value,
        !(0 < amount <= b.invoices[id].face_value) ==> mark_funded_error(
            b,
            id,
            pool,
            b.invoices[id].funding_asset,
            amount,
        ) == Some(InvoiceError::InvalidAmount),
{
    law_fresh_books_pass_the_status_check(b, id, InvoiceStatus::Funded);
}

/// A funded invoice can always be marked shipped, and a shipped one
/// confirmed once by each of its issuer and buyer (in a book whose created
/// ids were all fresh).
pub proof fn law_shipping_and_confirmation_are_accepted(b: InvoiceBook, id: InvoiceId, confirmer: Addr)
    requires
        book_inv(b),
        b.fresh_ids,
        b.invoices.contains_key(id),
    ensures
        b.invoices[id].status == InvoiceStatus::Funded ==> mark_shipped_error(b, id) is None,
        b.invoices[id].status == InvoiceStatus::Active && (confirmer == b.invoices[id].issuer
            && !b.invoices[id].issuer_confirmed || confirmer == b.invoices[id].buyer
            && !b.invoices[id].buyer_confirmed) && (confirmer != b.invoices[id].issuer
            || !b.invoices[id].issuer_confirmed) && (confirmer != b.invoices[id].buyer
            || !b.invoices[id].buyer_confirmed) ==> confirm_error(b, id, confirmer) is None,
{
    if b.invoices[id].status == InvoiceStatus::Funded {
        law_fresh_books_pass_the_status_check(b, id, InvoiceStatus::Active);
    }
    if b.invoices[id].status == InvoiceStatus::Active {
        law_fresh_books_pass_the_status_check(b, id, InvoiceStatus::Confirmed);
    }
}

/// A confirmed, funded invoice can be repaid early exactly before its due
/// date, and repaid (at or after it, or at any time) while the pool's share
/// of the discount fits the arithmetic (in a book whose created ids were all
/// fresh and with the escrow configured).
pub proof fn law_confirmed_invoices_can_be_repaid(b: InvoiceBook, id: InvoiceId, now: u64)
    requires
        book_inv(b),
        b.fresh_ids,
        b.escrow is Some,
        b.invoices.contains_key(id),
        b.invoices[id].status == InvoiceStatus::Confirmed,
        b.invoices[id].funding_pool is Some,
        b.invoices[id].funded_at is Some,
        b.invoices[id].face_value * 18446744073709551615u64 <= u128::MAX,
    ensures
        repay_error(b, id, now) is None,
        repay_early_error(b, id, now) is None <==> now < b.invoices[id].due_date,
        now >= b.invoices[id].due_date ==> repay_early_error(b, id, now) == Some(
            InvoiceError::InvalidStatusTransition,
        ),
{
    law_fresh_books_pass_the_status_check(b, id, InvoiceStatus::Repaid);
    let inv = b.invoices[id];
    let f = inv.funded_at.unwrap();
    let elapsed = sat_sub(now as int, f as int);
    assert(0 <= elapsed <= 18446744073709551615int);
    assert(0 <= repay_discount(inv) <= inv.face_value);
    assert(0 <= early_discount(inv) <= inv.face_value);
    assert(repay_discount(inv) * elapsed <= inv.face_value * 18446744073709551615int) by (nonlinear_arith)
        requires
            0 <= repay_discount(inv) <= inv.face_value,
            0 <= elapsed <= 18446744073709551615int,
    ;
    assert(early_discount(inv) * elapsed <= inv.face_value * 18446744073709551615int) by (nonlinear_arith)
        requires
            0 <= early_discount(inv) <= inv.face_value,
            0 <= elapsed <= 18446744073709551615int,
    ;
}

/// Between two books, every invoice of the first is still stored and has
/// either kept its status or moved along one edge of the lifecycle.
pub open spec fn follows_lifecycle(b0: InvoiceBook, b1: InvoiceBook) -> bool {
    forall|k: InvoiceId| #[trigger]
        b0.invoices.contains_key(k) ==> b1.invoices.contains_key(k) && (b1.invoices[k].status
            == b0.invoices[k].status || lifecycle_edge(b0.invoices[k].status, b1.invoices[k].status))
}

/// Every status change is guarded by the status it starts from: each step
/// that is accepted moves the invoice along an edge of the lifecycle, so no
/// step can be skipped.
pub proof fn law_steps_follow_the_lifecycle(
    b: InvoiceBook,
    id: InvoiceId,
    discount_bps: u32,
    pool: Addr,
    asset: Addr,
    amount: u128,
    confirmer: Addr,
    now: u64,
)
    ensures
        list_error(b, id, discount_bps) is None ==> lifecycle_edge(
            b.invoices[id].status,
            InvoiceStatus::Listed,
        ),
        mark_funded_error(b, id, pool, asset, amount) is None ==> lifecycle_edge(
            b.invoices[id].status,
            InvoiceStatus::Funded,
        ),
        mark_shipped_error(b, id) is None ==> lifecycle_edge(
            b.invoices[id].status,
            InvoiceStatus::Active,
        ),
        confirm_error(b, id, confirmer) is None && with_confirmation(
            b.invoices[id],
            confirmer,
        ).issuer_confirmed && with_confirmation(b.invoices[id], confirmer).buyer_confirmed
            ==> lifecycle_edge(b.invoices[id].status, InvoiceStatus::Confirmed),
        expire_error(b, id, now) is None ==> lifecycle_edge(
            b.invoices[id].status,
            InvoiceStatus::Expired,
        ),
        repay_error(b, id, now) is None ==> lifecycle_edge(
            b.invoices[id].status,
            InvoiceStatus::Repaid,
        ),
        repay_early_error(b, id, now) is None ==> lifecycle_edge(
            b.invoices[id].status,
            InvoiceStatus::Repaid,
        ),
        trigger_default_error(b, id, now) is None ==> lifecycle_edge(
            b.invoices[id].status,
            InvoiceStatus::Defaulted,
        ),
        mark_defaulted_error(b, id) is None && is_outstanding(b.invoices[id].status)
            ==> lifecycle_edge(b.invoices[id].status, InvoiceStatus::Defaulted),
{
}

/// The buyer's refund never grows as time passes: repaying later returns no
/// more of the discount than repaying earlier in the same term.
pub proof fn law_refund_falls_over_time(discount: int, elapsed1: int, elapsed2: int, term: int)
    requires
        discount >= 0,
        0 <= elapsed1 <= elapsed2,
        term >= 0,
    ensures
        buyer_refund(discount, elapsed2, term) <= buyer_refund(discount, elapsed1, term),
{
    if term > 0 {
        assert(discount * elapsed1 / term <= discount * elapsed2 / term) by (nonlinear_arith)
            requires
                discount >= 0,
                0 <= elapsed1 <= elapsed2,
                term > 0,
        ;
    }
}

/// Creating an invoice under a fresh id appends it to its issuer's, its
/// buyer's and the `Created` lists.
pub proof fn law_create_appends_to_lists(b: InvoiceBook, id: InvoiceId, inv: Invoice)
    requires
        book_inv(b),
        !b.invoices.contains_key(id),
    ensures
        ids_at(after_create(b, id, inv).by_issuer, inv.issuer) == ids_at(b.by_issuer, inv.issuer).push(
            id,
        ),
        ids_at(after_create(b, id, inv).by_buyer, inv.buyer) == ids_at(b.by_buyer, inv.buyer).push(id),
        ids_at(after_create(b, id, inv).by_status, 0) == ids_at(b.by_status, 0).push(id),
{
    assert(!ids_at(b.by_issuer, inv.issuer).contains(id));
    assert(!ids_at(b.by_buyer, inv.buyer).contains(id));
    assert(!ids_at(b.by_status, 0u32).contains(id));
}


/// Filtering by status keeps every invoice that has that status.
pub proof fn lemma_having_status_keeps(s: Seq<Invoice>, st: InvoiceStatus, i: int)
    requires
        0 <= i < s.len(),
        s[i].status == st,
    ensures
        having_status(s, st).contains(s[i]),
    decreases s.len(),
{
    let prev = having_status(s.drop_last(), st);
    if i == s.len() - 1 {
        assert(prev.push(s.last())[prev.len() as int] == s[i]);
    } else {
        lemma_having_status_keeps(s.drop_last(), st, i);
        assert(s.drop_last()[i] == s[i]);
        if s.last().status == st {
            let j = prev.index_of(s[i]);
            assert(prev.push(s.last())[j] == s[i]);
        }
    }
}

/// `get_by_status` misses no invoice: every stored invoice is among those
/// reported for its current status.
pub proof fn law_get_by_status_is_complete(b: InvoiceBook, id: InvoiceId)
    requires
        book_inv(b),
        b.invoices.contains_key(id),
    ensures
        having_status(
            hydrate(b, ids_at(b.by_status, status_code(b.invoices[id].status))),
            b.invoices[id].status,
        ).contains(b.invoices[id]),
{
    let st = b.invoices[id].status;
    let ids = ids_at(b.by_status, status_code(st));
    assert(ids.contains(id));
    let j = ids.index_of(id);
    let h = hydrate(b, ids);
    assert(h[j] == b.invoices[id]);
    lemma_having_status_keeps(h, st, j);
}

} // verus!
