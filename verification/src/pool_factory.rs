//! The pool factory: one pool instance per asset, recorded once.

use vstd::prelude::*;
use crate::ids::{Addr, sha256_digest, host_sha256, MAX_DIGEST_INPUT};
use crate::table::Table;

verus! {

/// Errors of the pool factory; `code` gives the contract error number.
#[derive(Clone, Copy, Debug, PartialEq, Eq, Structural)]
pub enum PoolFactoryError {
    AlreadyInitialized,
    NotInitialized,
    AssetAlreadyRegistered,
    /// The invoice contract handed to `register_asset` reports no registry.
    InvoiceNotInitialized,
}

impl PoolFactoryError {
    pub open spec fn code_of(self) -> u32 {
        match self {
            PoolFactoryError::AlreadyInitialized => 1,
            PoolFactoryError::NotInitialized => 2,
            PoolFactoryError::AssetAlreadyRegistered => 3,
            PoolFactoryError::InvoiceNotInitialized => 4,
        }
    }

    /// The contract error number.
    pub fn code(&self) -> (c: u32)
        ensures
            c == self.code_of(),
    {
        match self {
            PoolFactoryError::AlreadyInitialized => 1,
            PoolFactoryError::NotInitialized => 2,
            PoolFactoryError::AssetAlreadyRegistered => 3,
            PoolFactoryError::InvoiceNotInitialized => 4,
        }
    }
}

/// The arguments a freshly deployed pool instance is initialized with.
#[derive(Clone, Copy, Debug, PartialEq, Eq)]
pub struct PoolInit {
    pub admin: Addr,
    pub invoice_contract: Addr,
    pub escrow_contract: Addr,
    pub usdc_asset: Addr,
    pub registry_contract: Addr,
    pub treasury: Addr,
}

/// Abstract state of the factory.
pub struct FactoryState {
    pub admin: Option<Addr>,
    /// Registered assets in registration order.
    pub assets: Seq<Addr>,
    /// The pool of each registered asset.
    pub pools: Map<Addr, Addr>,
}

/// The state after recording `pool` as the pool of `asset`.
pub open spec fn recorded(s: FactoryState, asset: Addr, pool: Addr) -> FactoryState {
    FactoryState { assets: s.assets.push(asset), pools: s.pools.insert(asset, pool), ..s }
}

/// Why a registration of `asset` fails, if it does.
pub open spec fn registration_error(s: FactoryState, asset: Addr) -> Option<PoolFactoryError> {
    if s.admin is None {
        Some(PoolFactoryError::NotInitialized)
    } else if s.pools.contains_key(asset) {
        Some(PoolFactoryError::AssetAlreadyRegistered)
    } else {
        None
    }
}

/// The deployment salt of the pool of an asset with canonical encoding
/// `asset_enc`: its SHA-256 digest, so the pool address depends on the asset
/// alone.
pub fn asset_salt(asset_enc: &Vec<u8>) -> (salt: [u8; 32])
    requires
        asset_enc@.len() <= MAX_DIGEST_INPUT,
    ensures
        salt@ == sha256_digest(asset_enc@),
{
    host_sha256(asset_enc)
}

/// The state of the pool factory.
pub struct PoolFactoryContract {
    admin: Option<Addr>,
    assets: Vec<Addr>,
    pools: Table<Addr, Addr>,
}

impl View for PoolFactoryContract {
    type V = FactoryState;

    closed spec fn view(&self) -> FactoryState {
        FactoryState { admin: self.admin, assets: self.assets@, pools: self.pools@ }
    }
}

impl PoolFactoryContract {
    /// Consistency: every registered asset is listed exactly once and has a pool.
    pub closed spec fn wf(&self) -> bool {
        &&& self.pools.wf()
        &&& self.assets@.no_duplicates()
        &&& forall|a: Addr| self.assets@.contains(a) <==> self.pools@.contains_key(a)
    }

    pub fn new() -> (c: Self)
        ensures
            c.wf(),
            c@.admin is None,
            c@.assets == Seq::<Addr>::empty(),
            c@.pools == Map::<Addr, Addr>::empty(),
    {
        PoolFactoryContract { admin: None, assets: Vec::new(), pools: Table::new() }
    }

    pub fn initialize(&mut self, admin: Addr) -> (r: Result<(), PoolFactoryError>)
        requires
            old(self).wf(),
        ensures
            final(self).wf(),
            match r {
                Ok(()) => old(self)@.admin is None && final(self)@ == (FactoryState {
                    admin: Some(admin),
                    ..old(self)@
                }),
                Err(e) => old(self)@.admin is Some && e == PoolFactoryError::AlreadyInitialized
                    && final(self)@ == old(self)@,
            },
    {
        if self.admin.is_some() {
            return Err(PoolFactoryError::AlreadyInitialized);
        }
        self.admin = Some(admin);
        Ok(())
    }

    /// The admin, if initialized.
    pub fn admin(&self) -> (r: Result<Addr, PoolFactoryError>)
        ensures
            match r {
                Ok(a) => self@.admin == Some(a),
                Err(e) => self@.admin is None && e == PoolFactoryError::NotInitialized,
            },
    {
        match self.admin {
            Some(a) => Ok(a),
            None => Err(PoolFactoryError::NotInitialized),
        }
    }

    fn record_pool(&mut self, asset: Addr, pool_address: Addr)
        requires
            old(self).wf(),
            !old(self)@.pools.contains_key(asset),
        ensures
            final(self).wf(),
            final(self)@ == recorded(old(self)@, asset, pool_address),
    {
        self.assets.push(asset);
        self.pools.insert(asset, pool_address);
        proof {
            let s = self.assets@;
            let o = old(self)@.assets;
            assert forall|i: int, j: int| 0 <= i < s.len() && 0 <= j < s.len() && i != j implies s[i]
                != s[j] by {
                if i == o.len() {
                    assert(s[j] == o[j] && o.contains(o[j]));
                } else if j == o.len() {
                    assert(s[i] == o[i] && o.contains(o[i]));
                } else {
                    assert(s[i] == o[i] && s[j] == o[j]);
                }
            }
            assert forall|a: Addr| s.contains(a) <==> self.pools@.contains_key(a) by {
                if s.contains(a) && a != asset {
                    let k = s.index_of(a);
                    assert(o[k] == a);
                }
                if o.contains(a) {
                    let k = o.index_of(a);
                    assert(s[k] == a);
                }
                if a == asset {
                    assert(s[o.len() as int] == a);
                }
            }
        }
    }

    /// Registers the freshly deployed `pool_address` as the pool of `asset`.
    /// `registry_of_invoice` is the registry the invoice contract reports.
    /// Returns the arguments to initialize the new pool with.
    pub fn register_asset(
        &mut self,
        asset: Addr,
        pool_address: Addr,
        invoice_contract: Addr,
        escrow_contract: Addr,
        registry_of_invoice: Option<Addr>,
    ) -> (r: Result<PoolInit, PoolFactoryError>)
        requires
            old(self).wf(),
        ensures
            final(self).wf(),
            match r {
                Ok(init) => {
                    let admin = old(self)@.admin.unwrap();
                    &&& registration_error(old(self)@, asset) is None
                    &&& registry_of_invoice is Some
                    &&& init == (PoolInit {
                        admin,
                        invoice_contract,
                        escrow_contract,
                        usdc_asset: asset,
                        registry_contract: registry_of_invoice.unwrap(),
                        treasury: admin,
                    })
                    &&& final(self)@ == recorded(old(self)@, asset, pool_address)
                },
                Err(e) => final(self)@ == old(self)@ && match registration_error(old(self)@, asset) {
                    Some(x) => e == x,
                    None => registry_of_invoice is None && e
                        == PoolFactoryError::InvoiceNotInitialized,
                },
            },
    {
        let admin = match self.admin {
            Some(a) => a,
            None => {
                return Err(PoolFactoryError::NotInitialized);
            },
        };
        if self.pools.contains_key(&asset) {
            return Err(PoolFactoryError::AssetAlreadyRegistered);
        }
        let registry_contract = match registry_of_invoice {
            Some(r) => r,
            None => {
                return Err(PoolFactoryError::InvoiceNotInitialized);
            },
        };
        self.record_pool(asset, pool_address);
        Ok(
            PoolInit {
                admin,
                invoice_contract,
                escrow_contract,
                usdc_asset: asset,
                registry_contract,
                treasury: admin,
            },
        )
    }

    /// Registers an already deployed pool for `asset` (migration).
    pub fn register_existing_pool(&mut self, asset: Addr, pool_address: Addr) -> (r: Result<
        (),
        PoolFactoryError,
    >)
        requires
            old(self).wf(),
        ensures
            final(self).wf(),
            match r {
                Ok(()) => registration_error(old(self)@, asset) is None && final(self)@ == recorded(
                    old(self)@,
                    asset,
                    pool_address,
                ),
                Err(e) => registration_error(old(self)@, asset) == Some(e) && final(self)@ == old(self)@,
            },
    {
        if self.admin.is_none() {
            return Err(PoolFactoryError::NotInitialized);
        }
        if self.pools.contains_key(&asset) {
            return Err(PoolFactoryError::AssetAlreadyRegistered);
        }
        self.record_pool(asset, pool_address);
        Ok(())
    }

    /// The pool of `asset`, if registered.
    pub fn get_pool_for_asset(&self, asset: Addr) -> (r: Option<Addr>)
        requires
            self.wf(),
        ensures
            match r {
                Some(p) => self@.pools.contains_key(asset) && p == self@.pools[asset],
                None => !self@.pools.contains_key(asset),
            },
    {
        match self.pools.get(&asset) {
            Some(p) => Some(*p),
            None => None,
        }
    }

    /// The registered assets in registration order.
    pub fn list_assets(&self) -> (r: Vec<Addr>)
        ensures
            r@ == self@.assets,
    {
        self.assets.clone()
    }
}

/// One pool per asset: once an asset has a pool, every further registration
/// of it is refused, and the recorded pool is the one registered.
pub proof fn law_one_pool_per_asset(s: FactoryState, asset: Addr, pool: Addr)
    requires
        registration_error(s, asset) is None,
    ensures
        registration_error(recorded(s, asset, pool), asset) == Some(
            PoolFactoryError::AssetAlreadyRegistered,
        ),
        recorded(s, asset, pool).pools[asset] == pool,
        recorded(s, asset, pool).assets.last() == asset,
{
}

impl PoolFactoryContract {
    /// Every registered asset is listed exactly once, and an asset is listed
    /// exactly when it has a pool.
    pub proof fn lemma_assets_unique(&self)
        requires
            self.wf(),
        ensures
            self@.assets.no_duplicates(),
            forall|a: Addr| #[trigger] self@.assets.contains(a) <==> self@.pools.contains_key(a),
    {
    }
}

} // verus!
