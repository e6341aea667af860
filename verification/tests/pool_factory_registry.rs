use trusttrove::ids::Addr;
use trusttrove::invoice::InvoiceContract;
use trusttrove::pool::PoolContract;
use trusttrove::pool_factory::{asset_salt, PoolFactoryContract, PoolFactoryError, PoolInit};

struct Te {
    factory: PoolFactoryContract,
    admin: Addr,
    asset: Addr,
    invoice: InvoiceContract,
    invoice_id: Addr,
    escrow_id: Addr,
    registry_id: Addr,
    next: u64,
}

impl Te {
    fn generate(&mut self) -> Addr {
        self.next += 1;
        Addr(self.next)
    }
}

fn encoding(a: Addr) -> Vec<u8> {
    a.0.to_be_bytes().to_vec()
}

/// The address the deployer gives a pool deployed with the salt of `asset`.
fn deployed_address(asset: Addr) -> Addr {
    let salt = asset_salt(&encoding(asset));
    let mut b = [0u8; 8];
    b.copy_from_slice(&salt[0..8]);
    Addr(u64::from_be_bytes(b) | (1u64 << 63))
}

fn setup() -> Te {
    let admin = Addr(1);
    let asset = Addr(2);
    let registry_id = Addr(3);
    let invoice_id = Addr(4);
    let escrow_id = Addr(5);
    let mut invoice = InvoiceContract::new();
    invoice.initialize(admin, registry_id).unwrap();
    let mut factory = PoolFactoryContract::new();
    factory.initialize(admin).unwrap();
    Te { factory, admin, asset, invoice, invoice_id, escrow_id, registry_id, next: 100 }
}

/// Registers `asset` the way the factory contract does: deploys at the
/// salted address, reads the invoice contract's registry, records the pool.
fn register_asset(te: &mut Te, asset: Addr, escrow_id: Addr) -> Result<(Addr, PoolInit), PoolFactoryError> {
    let pool_address = deployed_address(asset);
    let registry = te.invoice.get_registry_contract();
    let init = te.factory.register_asset(asset, pool_address, te.invoice_id, escrow_id, registry)?;
    Ok((pool_address, init))
}

fn new_pool(address: Addr, init: &PoolInit) -> PoolContract {
    let mut pool = PoolContract::new(address);
    pool.initialize(init.admin, init.invoice_contract, init.escrow_contract, init.usdc_asset).unwrap();
    pool
}

#[test]
fn test_test_initialize() {
    let mut factory = PoolFactoryContract::new();
    let admin = Addr(7);
    factory.initialize(admin).unwrap();
    assert_eq!(factory.admin(), Ok(admin));
}

#[test]
fn test_factory_initialize_twice_is_rejected() {
    let mut factory = PoolFactoryContract::new();
    factory.initialize(Addr(7)).unwrap();
    let r = factory.initialize(Addr(7));
    assert_eq!(r, Err(PoolFactoryError::AlreadyInitialized));
    assert_eq!(r.unwrap_err().code(), 1);
}

#[test]
fn test_register_asset_deploys_and_initializes_pool() {
    let mut te = setup();
    let (asset, escrow) = (te.asset, te.escrow_id);
    let (pool_address, init) = register_asset(&mut te, asset, escrow).unwrap();

    assert_eq!(te.factory.get_pool_for_asset(te.asset), Some(pool_address));
    let assets = te.factory.list_assets();
    assert_eq!(assets.len(), 1);
    assert_eq!(assets.get(0), Some(&te.asset));

    assert_eq!(init.usdc_asset, te.asset);
    assert_eq!(init.invoice_contract, te.invoice_id);
    assert_eq!(init.escrow_contract, te.escrow_id);
    assert_eq!(init.admin, te.admin);
    assert_eq!(init.treasury, te.admin);
    assert_eq!(init.registry_contract, te.registry_id);

    let pool = new_pool(pool_address, &init);
    assert_eq!(pool.get_usdc_asset(), Ok(te.asset));
    let config = pool.get_config().unwrap();
    assert_eq!(config.invoice_contract, te.invoice_id);
    assert_eq!(config.escrow_contract, te.escrow_id);
    assert_eq!(config.admin, te.admin);
}

#[test]
fn test_register_asset_pool_address_is_deterministic() {
    let mut te = setup();
    let predicted = deployed_address(te.asset);
    assert_eq!(asset_salt(&encoding(te.asset)), asset_salt(&encoding(te.asset)));
    let (asset, escrow) = (te.asset, te.escrow_id);
    let (pool_address, _) = register_asset(&mut te, asset, escrow).unwrap();
    assert_eq!(pool_address, predicted);
}

#[test]
fn test_register_asset_gives_each_asset_its_own_pool() {
    let mut te = setup();
    let other_asset = te.generate();
    let other_escrow = te.generate();
    let (asset, escrow) = (te.asset, te.escrow_id);
    let (pool, _) = register_asset(&mut te, asset, escrow).unwrap();
    let (other_pool, other_init) = register_asset(&mut te, other_asset, other_escrow).unwrap();

    assert_ne!(pool, other_pool);
    assert_eq!(te.factory.get_pool_for_asset(te.asset), Some(pool));
    assert_eq!(te.factory.get_pool_for_asset(other_asset), Some(other_pool));
    assert_eq!(new_pool(other_pool, &other_init).get_usdc_asset(), Ok(other_asset));

    let assets = te.factory.list_assets();
    assert_eq!(assets.len(), 2);
    assert_eq!(assets.get(0), Some(&te.asset));
    assert_eq!(assets.get(1), Some(&other_asset));
}

#[test]
fn test_register_asset_duplicate_is_rejected() {
    let mut te = setup();
    let (asset, escrow) = (te.asset, te.escrow_id);
    register_asset(&mut te, asset, escrow).unwrap();
    let r = register_asset(&mut te, asset, escrow);
    assert_eq!(r.unwrap_err(), PoolFactoryError::AssetAlreadyRegistered);
    assert_eq!(PoolFactoryError::AssetAlreadyRegistered.code(), 3);
    assert_eq!(te.factory.list_assets().len(), 1);
}

#[test]
fn test_register_asset_with_uninitialized_invoice_is_rejected() {
    let mut te = setup();
    te.invoice = InvoiceContract::new();
    let (asset, escrow) = (te.asset, te.escrow_id);
    let r = register_asset(&mut te, asset, escrow);
    assert_eq!(r.unwrap_err(), PoolFactoryError::InvoiceNotInitialized);
    assert_eq!(PoolFactoryError::InvoiceNotInitialized.code(), 4);
    assert_eq!(te.factory.get_pool_for_asset(asset), None);
}

#[test]
fn test_register_existing_pool() {
    let mut factory = PoolFactoryContract::new();
    factory.initialize(Addr(1)).unwrap();
    let asset = Addr(2);
    let pool_address = Addr(3);
    factory.register_existing_pool(asset, pool_address).unwrap();
    assert_eq!(factory.get_pool_for_asset(asset), Some(pool_address));
    let assets = factory.list_assets();
    assert_eq!(assets.len(), 1);
    assert_eq!(assets[0], asset);
}

#[test]
fn test_register_existing_pool_duplicate_is_rejected() {
    let mut factory = PoolFactoryContract::new();
    factory.initialize(Addr(1)).unwrap();
    factory.register_existing_pool(Addr(2), Addr(3)).unwrap();
    assert_eq!(
        factory.register_existing_pool(Addr(2), Addr(3)),
        Err(PoolFactoryError::AssetAlreadyRegistered)
    );
}

#[test]
fn test_register_existing_pool_after_register_asset_is_rejected() {
    let mut te = setup();
    let (asset, escrow) = (te.asset, te.escrow_id);
    register_asset(&mut te, asset, escrow).unwrap();
    let other = te.generate();
    assert_eq!(
        te.factory.register_existing_pool(asset, other),
        Err(PoolFactoryError::AssetAlreadyRegistered)
    );
}

#[test]
fn test_register_before_initialize_is_rejected() {
    let mut factory = PoolFactoryContract::new();
    let r = factory.register_existing_pool(Addr(2), Addr(3));
    assert_eq!(r, Err(PoolFactoryError::NotInitialized));
    assert_eq!(r.unwrap_err().code(), 2);
    assert_eq!(factory.admin(), Err(PoolFactoryError::NotInitialized));
}

#[test]
fn test_get_pool_for_asset_returns_deployed_pool() {
    let mut te = setup();
    let (asset, escrow) = (te.asset, te.escrow_id);
    let (pool_address, _) = register_asset(&mut te, asset, escrow).unwrap();
    assert_eq!(te.factory.get_pool_for_asset(te.asset), Some(pool_address));
}

#[test]
fn test_get_pool_for_asset_returns_migrated_pool() {
    let mut te = setup();
    let existing_pool = te.generate();
    te.factory.register_existing_pool(te.asset, existing_pool).unwrap();
    assert_eq!(te.factory.get_pool_for_asset(te.asset), Some(existing_pool));
}

#[test]
fn test_get_pool_for_asset_unregistered_returns_none() {
    let mut te = setup();
    assert_eq!(te.factory.get_pool_for_asset(te.asset), None);
    let other = te.generate();
    assert_eq!(te.factory.get_pool_for_asset(other), None);
}

#[test]
fn test_get_pool_for_asset_requires_no_auth() {
    let mut te = setup();
    let (asset, escrow) = (te.asset, te.escrow_id);
    let (pool_address, _) = register_asset(&mut te, asset, escrow).unwrap();
    let reader = &te.factory;
    assert_eq!(reader.get_pool_for_asset(te.asset), Some(pool_address));
}

#[test]
fn test_list_assets_empty() {
    let factory = PoolFactoryContract::new();
    assert_eq!(factory.list_assets().len(), 0);
}

#[test]
fn test_gas_benchmark_register_existing_pool() {
    let mut factory = PoolFactoryContract::new();
    factory.initialize(Addr(1)).unwrap();
    let before = factory.list_assets().len();
    factory.register_existing_pool(Addr(2), Addr(3)).unwrap();
    assert_eq!(factory.list_assets().len(), before + 1);
}

#[test]
fn test_list_assets_single() {
    let mut factory = PoolFactoryContract::new();
    factory.initialize(Addr(1)).unwrap();
    let asset = Addr(10);
    factory.register_existing_pool(asset, Addr(20)).unwrap();
    let assets = factory.list_assets();
    assert_eq!(assets.len(), 1);
    assert_eq!(assets.get(0), Some(&asset));
}

#[test]
fn test_list_assets_multiple() {
    let mut factory = PoolFactoryContract::new();
    factory.initialize(Addr(1)).unwrap();
    let asset1 = Addr(10);
    let asset2 = Addr(11);
    let asset3 = Addr(12);
    factory.register_existing_pool(asset1, Addr(20)).unwrap();
    factory.register_existing_pool(asset2, Addr(21)).unwrap();
    factory.register_existing_pool(asset3, Addr(22)).unwrap();
    let assets = factory.list_assets();
    assert_eq!(assets.len(), 3);
    assert_eq!(assets.get(0), Some(&asset1));
    assert_eq!(assets.get(1), Some(&asset2));
    assert_eq!(assets.get(2), Some(&asset3));
}

#[test]
fn test_asset_salt_differs_between_assets() {
    let s1 = asset_salt(&encoding(Addr(2)));
    let s2 = asset_salt(&encoding(Addr(3)));
    assert_ne!(s1, s2);
    // The salt is the SHA-256 digest of the encoding, not the encoding itself.
    assert_ne!(&s1[0..8], &encoding(Addr(2))[..]);
}
