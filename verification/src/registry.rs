//! The identity registry of verified issuers and buyers.
//!
//! A profile packs its flags in one word: bit 0 is the role (0 issuer,
//! 1 buyer), bit 1 the verified flag, bit 2 the revoked flag.

use vstd::prelude::*;
use crate::ids::Addr;
use crate::table::Table;

verus! {

/// Largest number of entries `batch_register_issuers` accepts.
pub const MAX_BATCH_SIZE: usize = 50;

/// Errors of the registry contract; `code` gives the contract error number.
#[derive(Clone, Copy, Debug, PartialEq, Eq, Structural)]
pub enum RegistryError {
    AlreadyInitialized,
    AlreadyRegistered,
    NotFound,
    NotInitialized,
    BatchSizeExceeded,
    InvalidMetadata,
    NotRegistered,
    NotRevoked,
}

impl RegistryError {
    pub open spec fn code_of(self) -> u32 {
        match self {
            RegistryError::AlreadyInitialized => 1,
            RegistryError::AlreadyRegistered => 2,
            RegistryError::NotFound => 3,
            RegistryError::NotInitialized => 4,
            RegistryError::BatchSizeExceeded => 5,
            RegistryError::InvalidMetadata => 6,
            RegistryError::NotRegistered => 7,
            RegistryError::NotRevoked => 8,
        }
    }

    /// The contract error number.
    pub fn code(&self) -> (c: u32)
        ensures
            c == self.code_of(),
    {
        match self {
            RegistryError::AlreadyInitialized => 1,
            RegistryError::AlreadyRegistered => 2,
            RegistryError::NotFound => 3,
            RegistryError::NotInitialized => 4,
            RegistryError::BatchSizeExceeded => 5,
            RegistryError::InvalidMetadata => 6,
            RegistryError::NotRegistered => 7,
            RegistryError::NotRevoked => 8,
        }
    }
}

/// The role a profile was registered with.
#[derive(Clone, Copy, Debug, PartialEq, Eq, Structural)]
pub enum Role {
    Issuer,
    Buyer,
}

/// Verification state of an address as reported by `get_verification_status`.
#[derive(Clone, Copy, Debug, PartialEq, Eq, Structural)]
pub enum VerificationStatus {
    Unregistered,
    Pending,
    Verified,
    Revoked,
}

/// Free-form key/value metadata of a profile, one value per key.
pub type Metadata = Vec<(String, String)>;

/// Whether `m` holds at most one value per key, as a key/value map does.
pub open spec fn one_value_per_key(m: Seq<(String, String)>) -> bool {
    forall|i: int, j: int| 0 <= i < j < m.len() ==> (#[trigger] m[i]).0@ != (#[trigger] m[j]).0@
}

/// The role encoded in `flags`.
pub open spec fn role_of(flags: u32) -> Role {
    if flags & 1 != 0 {
        Role::Buyer
    } else {
        Role::Issuer
    }
}

/// The verified flag encoded in `flags`.
pub open spec fn verified_of(flags: u32) -> bool {
    flags & 2 != 0
}

/// The revoked flag encoded in `flags`.
pub open spec fn revoked_of(flags: u32) -> bool {
    flags & 4 != 0
}

/// The flags of a new profile.
pub open spec fn initial_flags(role: Role, verified: bool) -> u32 {
    (if role == Role::Buyer {
        1u32
    } else {
        0u32
    }) | (if verified {
        2u32
    } else {
        0u32
    })
}

/// A registered profile.
pub struct Profile {
    pub packed_flags: u32,
    pub registered_at: u64,
    pub metadata: Metadata,
}

/// The abstract value of a profile.
pub struct ProfileRec {
    pub packed_flags: u32,
    pub registered_at: u64,
    pub metadata: Seq<(String, String)>,
}

impl View for Profile {
    type V = ProfileRec;

    open spec fn view(&self) -> ProfileRec {
        ProfileRec {
            packed_flags: self.packed_flags,
            registered_at: self.registered_at,
            metadata: self.metadata@,
        }
    }
}

/// A copy of `m`.
pub fn clone_metadata(m: &Metadata) -> (r: Metadata)
    ensures
        r@ == m@,
{
    let mut out: Metadata = Vec::new();
    let mut i: usize = 0;
    while i < m.len()
        invariant
            i <= m@.len(),
            out@ == m@.subrange(0, i as int),
        decreases m@.len() - i,
    {
        let k = m[i].0.clone();
        let v = m[i].1.clone();
        out.push((k, v));
        i = i + 1;
        proof {
            assert(out@ =~= m@.subrange(0, i as int));
        }
    }
    assert(m@.subrange(0, m@.len() as int) =~= m@);
    out
}

impl Profile {
    pub fn new(role: Role, verified: bool, registered_at: u64, metadata: Metadata) -> (p: Self)
        ensures
            p@ == (ProfileRec {
                packed_flags: initial_flags(role, verified),
                registered_at,
                metadata: metadata@,
            }),
            role_of(p.packed_flags) == role,
            verified_of(p.packed_flags) == verified,
            !revoked_of(p.packed_flags),
    {
        let mut packed_flags: u32 = 0;
        if role == Role::Buyer {
            packed_flags = packed_flags | 1;
        }
        if verified {
            packed_flags = packed_flags | 2;
        }
        let b: u32 = if role == Role::Buyer {
            1
        } else {
            0
        };
        let v: u32 = if verified {
            2
        } else {
            0
        };
        assert(packed_flags == b | v) by (bit_vector)
            requires
                b == 0 || b == 1,
                v == 0 || v == 2,
                packed_flags == (if b == 1 {
                    if v == 2 {
                        (0u32 | 1u32) | 2u32
                    } else {
                        0u32 | 1u32
                    }
                } else {
                    if v == 2 {
                        0u32 | 2u32
                    } else {
                        0u32
                    }
                }),
        ;
        assert((b | v) & 1 != 0 <==> b == 1) by (bit_vector)
            requires
                b == 0 || b == 1,
                v == 0 || v == 2,
        ;
        assert((b | v) & 2 != 0 <==> v == 2) by (bit_vector)
            requires
                b == 0 || b == 1,
                v == 0 || v == 2,
        ;
        assert((b | v) & 4 == 0) by (bit_vector)
            requires
                b == 0 || b == 1,
                v == 0 || v == 2,
        ;
        Profile { packed_flags, registered_at, metadata }
    }

    pub fn role(&self) -> (r: Role)
        ensures
            r == role_of(self.packed_flags),
    {
        if (self.packed_flags & 1) != 0 {
            Role::Buyer
        } else {
            Role::Issuer
        }
    }

    pub fn verified(&self) -> (b: bool)
        ensures
            b == verified_of(self.packed_flags),
    {
        (self.packed_flags & 2) != 0
    }

    /// Sets the verified flag, leaving role and revoked flag as they are.
    pub fn set_verified(&mut self, verified: bool)
        ensures
            final(self).packed_flags == if verified {
                old(self).packed_flags | 2
            } else {
                old(self).packed_flags & !2u32
            },
            verified_of(final(self).packed_flags) == verified,
            role_of(final(self).packed_flags) == role_of(old(self).packed_flags),
            revoked_of(final(self).packed_flags) == revoked_of(old(self).packed_flags),
            final(self).registered_at == old(self).registered_at,
            final(self).metadata == old(self).metadata,
    {
        let f = self.packed_flags;
        if verified {
            self.packed_flags = f | 2;
            assert((f | 2) & 2 != 0) by (bit_vector);
            assert(((f | 2) & 1 != 0) == (f & 1 != 0)) by (bit_vector);
            assert(((f | 2) & 4 != 0) == (f & 4 != 0)) by (bit_vector);
        } else {
            self.packed_flags = f & !2u32;
            assert((f & !2u32) & 2 == 0) by (bit_vector);
            assert(((f & !2u32) & 1 != 0) == (f & 1 != 0)) by (bit_vector);
            assert(((f & !2u32) & 4 != 0) == (f & 4 != 0)) by (bit_vector);
        }
    }

    pub fn revoked(&self) -> (b: bool)
        ensures
            b == revoked_of(self.packed_flags),
    {
        (self.packed_flags & 4) != 0
    }

    /// Sets the revoked flag, leaving role and verified flag as they are.
    pub fn set_revoked(&mut self, revoked: bool)
        ensures
            final(self).packed_flags == if revoked {
                old(self).packed_flags | 4
            } else {
                old(self).packed_flags & !4u32
            },
            revoked_of(final(self).packed_flags) == revoked,
            role_of(final(self).packed_flags) == role_of(old(self).packed_flags),
            verified_of(final(self).packed_flags) == verified_of(old(self).packed_flags),
            final(self).registered_at == old(self).registered_at,
            final(self).metadata == old(self).metadata,
    {
        let f = self.packed_flags;
        if revoked {
            self.packed_flags = f | 4;
            assert((f | 4) & 4 != 0) by (bit_vector);
            assert(((f | 4) & 1 != 0) == (f & 1 != 0)) by (bit_vector);
            assert(((f | 4) & 2 != 0) == (f & 2 != 0)) by (bit_vector);
        } else {
            self.packed_flags = f & !4u32;
            assert((f & !4u32) & 4 == 0) by (bit_vector);
            assert(((f & !4u32) & 1 != 0) == (f & 1 != 0)) by (bit_vector);
            assert(((f & !4u32) & 2 != 0) == (f & 2 != 0)) by (bit_vector);
        }
    }
}

/// A decoded profile.
pub struct ProfileView {
    pub role: Role,
    pub verified: bool,
    pub revoked: bool,
    pub registered_at: u64,
    pub metadata: Metadata,
}

impl ProfileView {
    pub fn from_profile(profile: &Profile) -> (v: Self)
        ensures
            v.role == role_of(profile.packed_flags),
            v.verified == verified_of(profile.packed_flags),
            v.revoked == revoked_of(profile.packed_flags),
            v.registered_at == profile.registered_at,
            v.metadata@ == profile.metadata@,
    {
        ProfileView {
            role: profile.role(),
            verified: profile.verified(),
            revoked: profile.revoked(),
            registered_at: profile.registered_at,
            metadata: clone_metadata(&profile.metadata),
        }
    }

    pub fn role(&self) -> (r: Role)
        ensures
            r == self.role,
    {
        self.role
    }
}

/// Abstract state of the registry.
pub struct RegistryState {
    pub admin: Option<Addr>,
    pub profiles: Map<Addr, ProfileRec>,
}

/// The profile a registration stores: unverified until the admin verifies it.
pub open spec fn registered(role: Role, now: u64, metadata: Seq<(String, String)>) -> ProfileRec {
    ProfileRec { packed_flags: initial_flags(role, false), registered_at: now, metadata }
}

/// The profile a batch registration stores: a verified issuer.
pub open spec fn batch_registered(now: u64, metadata: Seq<(String, String)>) -> ProfileRec {
    ProfileRec { packed_flags: initial_flags(Role::Issuer, true), registered_at: now, metadata }
}

/// The profiles after registering, in order, each entry whose address is not
/// registered yet (earlier entries of the batch included) as a verified
/// issuer.
pub open spec fn batch_profiles(
    m: Map<Addr, ProfileRec>,
    entries: Seq<(Addr, Seq<(String, String)>)>,
    now: u64,
) -> Map<Addr, ProfileRec>
    decreases entries.len(),
{
    if entries.len() == 0 {
        m
    } else {
        let prev = batch_profiles(m, entries.drop_last(), now);
        let (a, md) = entries.last();
        if prev.contains_key(a) {
            prev
        } else {
            prev.insert(a, batch_registered(now, md))
        }
    }
}

/// The addresses of a batch that were already registered when their turn
/// came, in batch order.
pub open spec fn batch_skipped(
    m: Map<Addr, ProfileRec>,
    entries: Seq<(Addr, Seq<(String, String)>)>,
    now: u64,
) -> Seq<Addr>
    decreases entries.len(),
{
    if entries.len() == 0 {
        Seq::empty()
    } else {
        let prev = batch_profiles(m, entries.drop_last(), now);
        let skipped = batch_skipped(m, entries.drop_last(), now);
        if prev.contains_key(entries.last().0) {
            skipped.push(entries.last().0)
        } else {
            skipped
        }
    }
}

/// The abstract value of a batch.
pub open spec fn batch_view(entries: Seq<(Addr, Metadata)>) -> Seq<(Addr, Seq<(String, String)>)> {
    entries.map_values(|e: (Addr, Metadata)| (e.0, e.1@))
}

/// The status `get_verification_status` reports for a profile.
pub open spec fn status_of(b: RegistryState, address: Addr) -> VerificationStatus {
    if !b.profiles.contains_key(address) {
        VerificationStatus::Unregistered
    } else if verified_of(b.profiles[address].packed_flags) {
        VerificationStatus::Verified
    } else {
        VerificationStatus::Revoked
    }
}

/// `p` with its verified flag set to `v`.
pub open spec fn with_verified(p: ProfileRec, v: bool) -> ProfileRec {
    ProfileRec {
        packed_flags: if v {
            p.packed_flags | 2
        } else {
            p.packed_flags & !2u32
        },
        ..p
    }
}

/// The state of the registry contract.
pub struct RegistryContract {
    admin: Option<Addr>,
    profiles: Table<Addr, Profile>,
}

impl View for RegistryContract {
    type V = RegistryState;

    closed spec fn view(&self) -> RegistryState {
        RegistryState {
            admin: self.admin,
            profiles: self.profiles@.map_values(|p: Profile| p@),
        }
    }
}

impl RegistryContract {
    pub closed spec fn wf(&self) -> bool {
        self.profiles.wf()
    }

    /// An uninitialized registry.
    pub fn new() -> (c: Self)
        ensures
            c.wf(),
            c@.admin is None,
            c@.profiles == Map::<Addr, ProfileRec>::empty(),
    {
        let c = RegistryContract { admin: None, profiles: Table::new() };
        assert(c@.profiles =~= Map::<Addr, ProfileRec>::empty());
        c
    }

    /// Records the admin.
    pub fn initialize(&mut self, admin: Addr) -> (r: Result<(), RegistryError>)
        requires
            old(self).wf(),
        ensures
            final(self).wf(),
            match r {
                Ok(()) => old(self)@.admin is None && final(self)@ == (RegistryState {
                    admin: Some(admin),
                    ..old(self)@
                }),
                Err(e) => old(self)@.admin is Some && e == RegistryError::AlreadyInitialized
                    && final(self)@ == old(self)@,
            },
    {
        if self.admin.is_some() {
            return Err(RegistryError::AlreadyInitialized);
        }
        self.admin = Some(admin);
        Ok(())
    }

    fn put(&mut self, address: Addr, p: Profile)
        requires
            old(self).wf(),
        ensures
            final(self).wf(),
            final(self)@ == (RegistryState {
                profiles: old(self)@.profiles.insert(address, p@),
                ..old(self)@
            }),
    {
        let ghost pv = p@;
        self.profiles.insert(address, p);
        assert(self@.profiles =~= old(self)@.profiles.insert(address, pv));
    }

    fn register(&mut self, address: Addr, role: Role, metadata: Metadata, now: u64) -> (r: Result<
        (),
        RegistryError,
    >)
        requires
            old(self).wf(),
            one_value_per_key(metadata@),
        ensures
            final(self).wf(),
            match r {
                Ok(()) => old(self)@.admin is Some && !old(self)@.profiles.contains_key(address)
                    && final(self)@ == (RegistryState {
                    profiles: old(self)@.profiles.insert(address, registered(role, now, metadata@)),
                    ..old(self)@
                }),
                Err(e) => final(self)@ == old(self)@ && if old(self)@.admin is None {
                    e == RegistryError::NotInitialized
                } else {
                    old(self)@.profiles.contains_key(address) && e
                        == RegistryError::AlreadyRegistered
                },
            },
    {
        if self.admin.is_none() {
            return Err(RegistryError::NotInitialized);
        }
        if self.profiles.contains_key(&address) {
            return Err(RegistryError::AlreadyRegistered);
        }
        let p = Profile::new(role, false, now, metadata);
        self.put(address, p);
        Ok(())
    }

    /// Registers `address` as an issuer at time `now`; the profile stays
    /// unverified until the admin verifies it.
    pub fn register_issuer(&mut self, address: Addr, metadata: Metadata, now: u64) -> (r: Result<
        (),
        RegistryError,
    >)
        requires
            old(self).wf(),
            one_value_per_key(metadata@),
        ensures
            final(self).wf(),
            match r {
                Ok(()) => old(self)@.admin is Some && !old(self)@.profiles.contains_key(address)
                    && final(self)@ == (RegistryState {
                    profiles: old(self)@.profiles.insert(
                        address,
                        registered(Role::Issuer, now, metadata@),
                    ),
                    ..old(self)@
                }),
                Err(e) => final(self)@ == old(self)@ && if old(self)@.admin is None {
                    e == RegistryError::NotInitialized
                } else {
                    old(self)@.profiles.contains_key(address) && e
                        == RegistryError::AlreadyRegistered
                },
            },
    {
        self.register(address, Role::Issuer, metadata, now)
    }

    /// Registers `address` as a buyer at time `now`; the profile stays
    /// unverified until the admin verifies it.
    pub fn register_buyer(&mut self, address: Addr, metadata: Metadata, now: u64) -> (r: Result<
        (),
        RegistryError,
    >)
        requires
            old(self).wf(),
            one_value_per_key(metadata@),
        ensures
            final(self).wf(),
            match r {
                Ok(()) => old(self)@.admin is Some && !old(self)@.profiles.contains_key(address)
                    && final(self)@ == (RegistryState {
                    profiles: old(self)@.profiles.insert(
                        address,
                        registered(Role::Buyer, now, metadata@),
                    ),
                    ..old(self)@
                }),
                Err(e) => final(self)@ == old(self)@ && if old(self)@.admin is None {
                    e == RegistryError::NotInitialized
                } else {
                    old(self)@.profiles.contains_key(address) && e
                        == RegistryError::AlreadyRegistered
                },
            },
    {
        self.register(address, Role::Buyer, metadata, now)
    }

    /// Registers at most `MAX_BATCH_SIZE` issuers in one call, as verified
    /// issuers; returns the addresses that were skipped because they were
    /// already registered.
    pub fn batch_register_issuers(&mut self, entries: &Vec<(Addr, Metadata)>, now: u64) -> (r: Result<
        Vec<Addr>,
        RegistryError,
    >)
        requires
            old(self).wf(),
            forall|k: int| 0 <= k < entries@.len() ==> one_value_per_key(#[trigger] entries@[k].1@),
        ensures
            final(self).wf(),
            match r {
                Ok(skipped) => {
                    &&& entries@.len() <= MAX_BATCH_SIZE
                    &&& old(self)@.admin is Some
                    &&& skipped@ == batch_skipped(old(self)@.profiles, batch_view(entries@), now)
                    &&& final(self)@ == (RegistryState {
                        profiles: batch_profiles(old(self)@.profiles, batch_view(entries@), now),
                        ..old(self)@
                    })
                },
                Err(e) => final(self)@ == old(self)@ && if entries@.len() > MAX_BATCH_SIZE {
                    e == RegistryError::BatchSizeExceeded
                } else {
                    old(self)@.admin is None && e == RegistryError::NotFound
                },
            },
    {
        if entries.len() > MAX_BATCH_SIZE {
            return Err(RegistryError::BatchSizeExceeded);
        }
        if self.admin.is_none() {
            return Err(RegistryError::NotFound);
        }
        let ghost start = self@.profiles;
        let ghost bv = batch_view(entries@);
        let mut skipped: Vec<Addr> = Vec::new();
        let mut i: usize = 0;
        while i < entries.len()
            invariant
                self.wf(),
                i <= entries@.len(),
                bv == batch_view(entries@),
                self@.admin == old(self)@.admin,
                self@.profiles == batch_profiles(start, bv.subrange(0, i as int), now),
                skipped@ == batch_skipped(start, bv.subrange(0, i as int), now),
            decreases entries@.len() - i,
        {
            let address = entries[i].0;
            proof {
                assert(bv.subrange(0, i + 1).drop_last() =~= bv.subrange(0, i as int));
                assert(bv.subrange(0, i + 1).last() == bv[i as int]);
            }
            if self.profiles.contains_key(&address) {
                skipped.push(address);
            } else {
                let md = clone_metadata(&entries[i].1);
                let p = Profile::new(Role::Issuer, true, now, md);
                self.put(address, p);
            }
            i = i + 1;
        }
        assert(bv.subrange(0, entries@.len() as int) =~= bv);
        Ok(skipped)
    }

    /// Replaces the metadata of a registered profile.
    pub fn update_metadata(&mut self, address: Addr, metadata: Metadata) -> (r: Result<(), RegistryError>)
        requires
            old(self).wf(),
            one_value_per_key(metadata@),
        ensures
            final(self).wf(),
            match r {
                Ok(()) => old(self)@.profiles.contains_key(address) && final(self)@ == (RegistryState {
                    profiles: old(self)@.profiles.insert(
                        address,
                        ProfileRec { metadata: metadata@, ..old(self)@.profiles[address] },
                    ),
                    ..old(self)@
                }),
                Err(e) => !old(self)@.profiles.contains_key(address) && e == RegistryError::NotFound
                    && final(self)@ == old(self)@,
            },
    {
        match self.profiles.remove(&address) {
            Some(mut p) => {
                p.metadata = metadata;
                self.put(address, p);
                assert(self@.profiles =~= old(self)@.profiles.insert(
                    address,
                    ProfileRec { metadata: metadata@, ..old(self)@.profiles[address] },
                ));
                Ok(())
            },
            None => {
                assert(self@.profiles =~= old(self)@.profiles);
                Err(RegistryError::NotFound)
            },
        }
    }

    /// The profile of `address`.
    pub fn get_profile(&self, address: Addr) -> (r: Result<&Profile, RegistryError>)
        requires
            self.wf(),
        ensures
            match r {
                Ok(p) => self@.profiles.contains_key(address) && p@ == self@.profiles[address],
                Err(e) => !self@.profiles.contains_key(address) && e == RegistryError::NotFound,
            },
    {
        match self.profiles.get(&address) {
            Some(p) => Ok(p),
            None => Err(RegistryError::NotFound),
        }
    }

    /// Whether `address` is registered and currently verified.
    pub fn is_verified(&self, address: Addr) -> (b: bool)
        requires
            self.wf(),
        ensures
            b == (self@.profiles.contains_key(address) && verified_of(
                self@.profiles[address].packed_flags,
            )),
    {
        match self.profiles.get(&address) {
            Some(p) => p.verified(),
            None => false,
        }
    }

    /// `Unregistered`, `Verified`, or `Revoked` (registered but not verified).
    pub fn get_verification_status(&self, address: Addr) -> (s: VerificationStatus)
        requires
            self.wf(),
        ensures
            s == status_of(self@, address),
    {
        match self.profiles.get(&address) {
            None => VerificationStatus::Unregistered,
            Some(p) => if p.verified() {
                VerificationStatus::Verified
            } else {
                VerificationStatus::Revoked
            },
        }
    }

    fn set_verified_flag(&mut self, address: Addr, verify: bool) -> (r: Result<(), RegistryError>)
        requires
            old(self).wf(),
        ensures
            final(self).wf(),
            match r {
                Ok(()) => {
                    &&& old(self)@.admin is Some
                    &&& old(self)@.profiles.contains_key(address)
                    &&& final(self)@ == (RegistryState {
                        profiles: old(self)@.profiles.insert(
                            address,
                            with_verified(old(self)@.profiles[address], verify),
                        ),
                        ..old(self)@
                    })
                },
                Err(e) => e == RegistryError::NotFound && final(self)@ == old(self)@ && (old(self)@.admin is None || !old(self)@.profiles.contains_key(address)),
            },
    {
        if self.admin.is_none() {
            return Err(RegistryError::NotFound);
        }
        match self.profiles.remove(&address) {
            Some(mut p) => {
                p.set_verified(verify);
                self.put(address, p);
                assert(self@.profiles =~= old(self)@.profiles.insert(
                    address,
                    with_verified(old(self)@.profiles[address], verify),
                ));
                Ok(())
            },
            None => {
                assert(self@.profiles =~= old(self)@.profiles);
                Err(RegistryError::NotFound)
            },
        }
    }

    /// Clears the verified flag of a registered profile.
    pub fn revoke(&mut self, address: Addr) -> (r: Result<(), RegistryError>)
        requires
            old(self).wf(),
        ensures
            final(self).wf(),
            match r {
                Ok(()) => {
                    &&& old(self)@.admin is Some
                    &&& old(self)@.profiles.contains_key(address)
                    &&& final(self)@ == (RegistryState {
                        profiles: old(self)@.profiles.insert(
                            address,
                            with_verified(old(self)@.profiles[address], false),
                        ),
                        ..old(self)@
                    })
                },
                Err(e) => e == RegistryError::NotFound && final(self)@ == old(self)@ && (old(self)@.admin is None || !old(self)@.profiles.contains_key(address)),
            },
    {
        self.set_verified_flag(address, false)
    }

    /// Sets the verified flag of a registered profile to `verify`.
    pub fn verify_profile(&mut self, address: Addr, verify: bool) -> (r: Result<(), RegistryError>)
        requires
            old(self).wf(),
        ensures
            final(self).wf(),
            match r {
                Ok(()) => {
                    &&& old(self)@.admin is Some
                    &&& old(self)@.profiles.contains_key(address)
                    &&& final(self)@ == (RegistryState {
                        profiles: old(self)@.profiles.insert(
                            address,
                            with_verified(old(self)@.profiles[address], verify),
                        ),
                        ..old(self)@
                    })
                },
                Err(e) => e == RegistryError::NotFound && final(self)@ == old(self)@ && (old(self)@.admin is None || !old(self)@.profiles.contains_key(address)),
            },
    {
        self.set_verified_flag(address, verify)
    }

    /// Hands the admin role to `new_admin`; returns the previous admin.
    pub fn transfer_ownership(&mut self, new_admin: Addr) -> (r: Result<Addr, RegistryError>)
        requires
            old(self).wf(),
        ensures
            final(self).wf(),
            match r {
                Ok(prev) => old(self)@.admin == Some(prev) && final(self)@ == (RegistryState {
                    admin: Some(new_admin),
                    ..old(self)@
                }),
                Err(e) => old(self)@.admin is None && e == RegistryError::NotFound && final(self)@
                    == old(self)@,
            },
    {
        match self.admin {
            Some(prev) => {
                self.admin = Some(new_admin);
                Ok(prev)
            },
            None => Err(RegistryError::NotFound),
        }
    }

    /// The admin.
    pub fn get_admin(&self) -> (r: Result<Addr, RegistryError>)
        ensures
            match r {
                Ok(a) => self@.admin == Some(a),
                Err(e) => self@.admin is None && e == RegistryError::NotFound,
            },
    {
        match self.admin {
            Some(a) => Ok(a),
            None => Err(RegistryError::NotFound),
        }
    }
}

/// Verifying or revoking touches the verified flag alone: the role, the
/// revoked flag, the registration time and the metadata stay as they were.
pub proof fn law_verification_touches_only_the_flag(p: ProfileRec, v: bool)
    ensures
        verified_of(with_verified(p, v).packed_flags) == v,
        role_of(with_verified(p, v).packed_flags) == role_of(p.packed_flags),
        revoked_of(with_verified(p, v).packed_flags) == revoked_of(p.packed_flags),
        with_verified(p, v).registered_at == p.registered_at,
        with_verified(p, v).metadata == p.metadata,
{
    let f = p.packed_flags;
    assert((f | 2) & 2 != 0) by (bit_vector);
    assert((f & !2u32) & 2 == 0) by (bit_vector);
    assert(((f | 2) & 1 != 0) == (f & 1 != 0)) by (bit_vector);
    assert(((f & !2u32) & 1 != 0) == (f & 1 != 0)) by (bit_vector);
    assert(((f | 2) & 4 != 0) == (f & 4 != 0)) by (bit_vector);
    assert(((f & !2u32) & 4 != 0) == (f & 4 != 0)) by (bit_vector);
}

/// Re-verifying a revoked profile restores exactly the verified profile.
pub proof fn law_reverify_after_revoke(p: ProfileRec)
    ensures
        with_verified(with_verified(p, false), true) == with_verified(p, true),
        with_verified(with_verified(p, true), false) == with_verified(p, false),
{
    let f = p.packed_flags;
    assert((f & !2u32) | 2 == f | 2) by (bit_vector);
    assert((f | 2) & !2u32 == f & !2u32) by (bit_vector);
}

} // verus!
