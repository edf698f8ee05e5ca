//! Mesh node configuration: identity, key material and model state.
//!
//! The configuration lives in memory as plain values; persisting it is the
//! platform layer's concern. The logic here decides when a configuration must
//! be completed with fresh material (a missing device UUID, a missing private
//! key, a sequence number at its storage threshold) and when the running
//! sequence counter forces a write-back. Randomness is handed in by the
//! caller, so every decision is a function of its arguments.

use vstd::prelude::*;

use p256::elliptic_curve::sec1::ToSec1Point;

verus! {

/// A sequence number divisible by this threshold forces the configuration to
/// be persisted, so that at most this many sequence numbers are lost on
/// reset.
pub const SEQUENCE_THRESHOLD: u32 = 100;

/// A 128-bit device UUID, stored as its raw bytes.
#[derive(Clone, Copy, PartialEq, Eq, Debug)]
pub struct Uuid(pub [u8; 16]);

/// Sixteen random bytes stamped into an RFC 4122 version-4 UUID: byte 6
/// carries the version in its high nibble and byte 8 the variant in its two
/// high bits; every other bit is kept.
pub open spec fn v4_stamped(s: Seq<u8>) -> Seq<u8> {
    s.update(6, (s[6] & 0x0f) | 0x40).update(8, (s[8] & 0x3f) | 0x80)
}

/// Relies on uuid::Builder::from_random_bytes, which stamps the RFC 4122
/// variant into byte 8 and version 4 into byte 6 of the given bytes and
/// keeps all other bits.
#[verifier::external_body]
fn build_v4_uuid(material: [u8; 16]) -> (r: [u8; 16])
    ensures
        r@ == v4_stamped(material@),
{
    *uuid::Builder::from_random_bytes(material).into_uuid().as_bytes()
}

/// Whether 32 big-endian bytes encode a usable P-256 secret scalar: nonzero
/// and below the curve order.
pub uninterp spec fn p256_valid_scalar(sk: Seq<u8>) -> bool;

/// The SEC 1 uncompressed encoding of the P-256 public key derived from the
/// secret scalar `sk`: a function of the scalar alone.
pub uninterp spec fn p256_public_of(sk: Seq<u8>) -> Seq<u8>;

/// Relies on p256::SecretKey::from_slice, which accepts exactly the nonzero
/// scalars below the curve order, and on SecretKey::public_key with the SEC 1
/// uncompressed point encoding (65 bytes), a function of the scalar alone.
#[verifier::external_body]
fn p256_public_key_bytes(private: &[u8; 32]) -> (r: Option<Vec<u8>>)
    ensures
        r is Some <==> p256_valid_scalar(private@),
        r matches Some(p) ==> p@ == p256_public_of(private@) && p@.len() == 65,
{
    match p256::SecretKey::from_slice(private) {
        Ok(sk) => {
            let point = sk.public_key().as_affine().to_sec1_point(false);
            Some(point.as_bytes().to_vec())
        }
        Err(_) => None,
    }
}

/// A 128-bit device key.
#[derive(Clone, Copy, PartialEq, Eq, Debug)]
pub struct DeviceKey([u8; 16]);

impl DeviceKey {
    /// A device key from its raw material.
    pub fn new(material: [u8; 16]) -> (k: Self)
        ensures
            k@ == material@,
    {
        DeviceKey(material)
    }
}

impl DeviceKey {
    /// The raw key material.
    pub fn bytes(&self) -> (b: [u8; 16])
        ensures
            b@ == self@,
    {
        self.0
    }
}

impl View for DeviceKey {
    type V = Seq<u8>;

    closed spec fn view(&self) -> Seq<u8> {
        self.0@
    }
}

/// A 128-bit network key.
#[derive(Clone, Copy, PartialEq, Eq, Debug)]
pub struct NetworkKey([u8; 16]);

impl NetworkKey {
    /// A network key from its raw material.
    pub fn new(material: [u8; 16]) -> (k: Self)
        ensures
            k@ == material@,
    {
        NetworkKey(material)
    }
}

impl NetworkKey {
    /// The raw key material.
    pub fn bytes(&self) -> (b: [u8; 16])
        ensures
            b@ == self@,
    {
        self.0
    }
}

impl View for NetworkKey {
    type V = Seq<u8>;

    closed spec fn view(&self) -> Seq<u8> {
        self.0@
    }
}

/// A network key together with its index and the material derived from it.
#[derive(Clone, Copy, Debug)]
pub struct NetworkKeyDetails {
    pub network_key: NetworkKey,
    pub key_index: u16,
    pub nid: u8,
    pub encryption_key: [u8; 16],
    pub privacy_key: [u8; 16],
}

/// Whether an IV index update is in progress.
#[derive(Clone, Copy, PartialEq, Eq, Structural, Debug)]
pub enum IVUpdateFlag {
    Normal,
    InProgress,
}

/// How many network keys a node can hold.
pub const MAX_NETWORK_KEYS: usize = 10;

/// The provisioned network state of a node.
#[derive(Clone, Debug)]
pub struct NetworkInfo {
    pub network_keys: Vec<NetworkKeyDetails>,
    pub iv_update_flag: IVUpdateFlag,
    pub iv_index: u32,
    pub unicast_address: u16,
}

/// A network info respects the fixed key-table capacity.
pub open spec fn network_info_wf(n: NetworkInfo) -> bool {
    n.network_keys@.len() <= MAX_NETWORK_KEYS
}

/// The key material a node holds, all as plain bytes; deriving public keys
/// and shared secrets from them is the crypto layer's concern.
#[derive(Clone, Debug)]
pub struct Keys {
    pub random: Option<[u8; 16]>,
    pub private_key: Option<[u8; 32]>,
    pub shared_secret: Option<[u8; 32]>,
    pub provisioning_salt: Option<[u8; 16]>,
    pub device_key: Option<DeviceKey>,
    pub network: Option<NetworkInfo>,
}

impl Keys {
    /// Empty key material.
    pub fn new() -> (k: Self)
        ensures
            k.private_key is None,
            k.shared_secret is None,
            k.provisioning_salt is None,
            k.device_key is None,
            k.network is None,
            k.random is None,
    {
        Keys {
            random: None,
            private_key: None,
            shared_secret: None,
            provisioning_salt: None,
            device_key: None,
            network: None,
        }
    }

    /// The stored private-key bytes, if any.
    pub fn private_key(&self) -> (r: Option<[u8; 32]>)
        ensures
            r == self.private_key,
    {
        self.private_key
    }

    /// Store or clear the private-key bytes.
    pub fn set_private_key(&mut self, private_key: Option<[u8; 32]>)
        ensures
            *final(self) == (Keys { private_key, ..*old(self) }),
    {
        self.private_key = private_key;
    }

    /// The public key belonging to the stored private key, in the SEC 1
    /// uncompressed encoding: missing key material is a key-initialization
    /// error, and stored bytes that do not encode a usable scalar are a
    /// serialization error.
    pub fn public_key(&self) -> (r: Result<Vec<u8>, DeviceError>)
        ensures
            self.private_key is None ==> r == Result::<Vec<u8>, DeviceError>::Err(
                DeviceError::KeyInitialization,
            ),
            self.private_key matches Some(sk) ==> (if p256_valid_scalar(sk@) {
                r matches Ok(p) && p@ == p256_public_of(sk@) && p@.len() == 65
            } else {
                r == Result::<Vec<u8>, DeviceError>::Err(DeviceError::Serialization)
            }),
    {
        match &self.private_key {
            None => Err(DeviceError::KeyInitialization),
            Some(bytes) => match p256_public_key_bytes(bytes) {
                Some(p) => Ok(p),
                None => Err(DeviceError::Serialization),
            },
        }
    }

    /// The stored shared-secret bytes, if any.
    pub fn shared_secret(&self) -> (r: Option<[u8; 32]>)
        ensures
            r == self.shared_secret,
    {
        self.shared_secret
    }

    /// Store or clear the shared-secret bytes.
    pub fn set_shared_secret(&mut self, shared_secret: Option<[u8; 32]>)
        ensures
            *final(self) == (Keys { shared_secret, ..*old(self) }),
    {
        self.shared_secret = shared_secret;
    }

    /// The provisioned network state, if any.
    pub fn network(&self) -> (r: &Option<NetworkInfo>)
        ensures
            *r == self.network,
    {
        &self.network
    }

    /// Store the provisioned network state; the key table is bounded by
    /// [`MAX_NETWORK_KEYS`].
    pub fn set_network(&mut self, network: NetworkInfo)
        requires
            network_info_wf(network),
        ensures
            *final(self) == (Keys { network: Some(network), ..*old(self) }),
    {
        self.network = Some(network);
    }

    /// Store the provisioning salt.
    pub fn set_provisioning_salt(&mut self, provisioning_salt: [u8; 16])
        ensures
            *final(self) == (Keys {
                provisioning_salt: Some(provisioning_salt),
                ..*old(self)
            }),
    {
        self.provisioning_salt = Some(provisioning_salt);
    }

    /// The stored provisioning salt, if any.
    pub fn provisioning_salt(&self) -> (r: Option<[u8; 16]>)
        ensures
            r == self.provisioning_salt,
    {
        self.provisioning_salt
    }

    /// Store the device key.
    pub fn set_device_key(&mut self, key: [u8; 16])
        ensures
            final(self).device_key matches Some(k) && k@ == key@,
            final(self).random == old(self).random,
            final(self).private_key == old(self).private_key,
            final(self).shared_secret == old(self).shared_secret,
            final(self).provisioning_salt == old(self).provisioning_salt,
            final(self).network == old(self).network,
    {
        self.device_key = Some(DeviceKey::new(key));
    }
}

/// The state of the primary element's models.
#[derive(Clone, Copy, PartialEq, Eq, Structural, Debug)]
pub struct PrimaryElementModels {
    pub configuration: ConfigurationModel,
}

/// The configuration server model state of the primary element.
#[derive(Clone, Copy, PartialEq, Eq, Structural, Debug)]
pub struct ConfigurationModel {
    pub secure_beacon: bool,
    pub default_ttl: u8,
}

impl Default for ConfigurationModel {
    /// Secure beaconing on, with the largest default time-to-live.
    fn default() -> (d: Self)
        ensures
            d == (ConfigurationModel { secure_beacon: true, default_ttl: 127u8 }),
    {
        ConfigurationModel { secure_beacon: true, default_ttl: 127 }
    }
}

impl Default for PrimaryElementModels {
    fn default() -> (d: Self)
        ensures
            d == (PrimaryElementModels {
                configuration: ConfigurationModel { secure_beacon: true, default_ttl: 127u8 },
            }),
    {
        PrimaryElementModels { configuration: Default::default() }
    }
}

/// Errors of the configuration subsystem.
#[derive(Clone, Copy, PartialEq, Eq, Structural, Debug)]
pub enum DeviceError {
    Serialization,
    KeyInitialization,
    StorageInitialization,
    Storage,
}

/// The whole persisted configuration of a node.
#[derive(Clone, Debug)]
pub struct Configuration {
    pub seq: u32,
    pub uuid: Option<Uuid>,
    pub keys: Keys,
    pub primary: PrimaryElementModels,
}

/// Whether a validation pass over `c` would change it: some identity or key
/// material is missing, or the stored sequence number sits exactly at its
/// threshold.
pub open spec fn needs_validation(c: Configuration) -> bool {
    c.uuid is None || c.keys.private_key is None || c.seq % SEQUENCE_THRESHOLD == 0
}

impl Configuration {
    /// An unprovisioned configuration: nothing set, sequence number zero.
    pub fn new() -> (c: Self)
        ensures
            c.seq == 0,
            c.uuid is None,
            c.keys.private_key is None,
            c.keys.device_key is None,
            c.keys.network is None,
            c.primary == (PrimaryElementModels {
                configuration: ConfigurationModel { secure_beacon: true, default_ttl: 127u8 },
            }),
    {
        Configuration {
            seq: 0,
            uuid: None,
            keys: Keys::new(),
            primary: Default::default(),
        }
    }

    /// Complete a loaded configuration with fresh material where it is
    /// missing: a missing UUID becomes a version-4 UUID built from
    /// `uuid_material`, a missing private key takes `key_material`, and a
    /// sequence number at its threshold is advanced past it. Reports whether
    /// anything changed, in which case the caller must persist the result.
    pub fn validate(&mut self, uuid_material: [u8; 16], key_material: [u8; 32]) -> (changed: bool)
        requires
            old(self).seq % SEQUENCE_THRESHOLD == 0 ==> old(self).seq + SEQUENCE_THRESHOLD
                <= u32::MAX,
        ensures
            changed == needs_validation(*old(self)),
            old(self).uuid is Some ==> final(self).uuid == old(self).uuid,
            old(self).uuid is None ==> final(self).uuid is Some && final(self).uuid.unwrap().0@
                == v4_stamped(uuid_material@),
            final(self).keys.private_key == (if old(self).keys.private_key is None {
                Some(key_material)
            } else {
                old(self).keys.private_key
            }),
            final(self).seq == (if old(self).seq % SEQUENCE_THRESHOLD == 0 {
                (old(self).seq + SEQUENCE_THRESHOLD) as u32
            } else {
                old(self).seq
            }),
            final(self).keys.random == old(self).keys.random,
            final(self).keys.shared_secret == old(self).keys.shared_secret,
            final(self).keys.provisioning_salt == old(self).keys.provisioning_salt,
            final(self).keys.device_key == old(self).keys.device_key,
            final(self).keys.network == old(self).keys.network,
            final(self).primary == old(self).primary,
    {
        let mut changed = false;

        if self.uuid.is_none() {
            self.uuid = Some(Uuid(build_v4_uuid(uuid_material)));
            changed = true;
        }
        if self.keys.private_key.is_none() {
            self.keys.private_key = Some(key_material);
            changed = true;
        }
        if self.seq % SEQUENCE_THRESHOLD == 0 {
            self.seq = self.seq + SEQUENCE_THRESHOLD;
            changed = true;
        }
        changed
    }
}

/// Read access to the device identity, implemented by whatever owns the
/// configuration.
pub trait GeneralStorage {
    /// The established identity, if one is established.
    spec fn uuid_spec(&self) -> Option<Uuid>;

    /// The device UUID; what an implementor reports before initialization
    /// established one is its own affair.
    fn uuid(&self) -> (r: Uuid)
        ensures
            self.uuid_spec() matches Some(u) ==> r == u,
    ;
}

/// Owns the in-memory configuration and the running sequence counter, and
/// decides when the configuration must be written back; reading and writing
/// the storage medium is the platform layer's concern.
pub struct ConfigurationManager {
    config: Configuration,
    runtime_seq: u32,
    force_reset: bool,
}

impl ConfigurationManager {
    /// The current configuration.
    pub closed spec fn config_spec(&self) -> Configuration {
        self.config
    }

    /// The running sequence counter.
    pub closed spec fn runtime_seq_spec(&self) -> u32 {
        self.runtime_seq
    }

    /// Whether the next initialization discards what storage holds.
    pub closed spec fn force_reset_spec(&self) -> bool {
        self.force_reset
    }

    /// A manager holding an unprovisioned configuration.
    pub fn new(force_reset: bool) -> (m: Self)
        ensures
            m.force_reset_spec() == force_reset,
            m.runtime_seq_spec() == 0,
            m.config_spec().seq == 0,
            m.config_spec().uuid is None,
            m.config_spec().keys.private_key is None,
    {
        ConfigurationManager { config: Configuration::new(), runtime_seq: 0, force_reset }
    }

    /// Initialize from what storage handed back: on a forced reset a fresh
    /// configuration is built and must be persisted; otherwise a missing
    /// payload is a storage initialization error; otherwise the loaded
    /// configuration is validated, the running sequence counter takes its
    /// sequence number, and the result must be persisted exactly when
    /// validation changed it. Returns whether the caller must persist the
    /// configuration now held (read it back with
    /// [`ConfigurationManager::retrieve`]).
    pub fn initialize(
        &mut self,
        loaded: Option<Configuration>,
        uuid_material: [u8; 16],
        key_material: [u8; 32],
    ) -> (r: Result<bool, DeviceError>)
        requires
            loaded matches Some(c) ==> (c.seq % SEQUENCE_THRESHOLD == 0 ==> c.seq
                + SEQUENCE_THRESHOLD <= u32::MAX),
        ensures
            old(self).force_reset_spec() ==> r == Result::<bool, DeviceError>::Ok(true) && final(self).config_spec().uuid is Some && final(self).config_spec().keys.private_key is Some
                && final(self).runtime_seq_spec() == old(self).runtime_seq_spec(),
            !old(self).force_reset_spec() && loaded is None ==> r == Result::<
                bool,
                DeviceError,
            >::Err(DeviceError::StorageInitialization) && final(self).config_spec() == old(self).config_spec() && final(self).runtime_seq_spec() == old(self).runtime_seq_spec(),
            !old(self).force_reset_spec() && loaded is Some ==> r == Result::<
                bool,
                DeviceError,
            >::Ok(needs_validation(loaded.unwrap())) && final(self).runtime_seq_spec() == final(self).config_spec().seq && final(self).config_spec().uuid is Some && final(self).config_spec().keys.private_key is Some && (!needs_validation(loaded.unwrap())
                ==> final(self).config_spec() == loaded.unwrap()),
            final(self).force_reset_spec() == old(self).force_reset_spec(),
    {
        if self.force_reset {
            let mut config = Configuration::new();
            config.validate(uuid_material, key_material);
            self.config = config;
            Ok(true)
        } else {
            match loaded {
                None => Err(DeviceError::StorageInitialization),
                Some(mut config) => {
                    let changed = config.validate(uuid_material, key_material);
                    self.runtime_seq = config.seq;
                    self.config = config;
                    Ok(changed)
                }
            }
        }
    }

    /// The running sequence counter: the next number
    /// [`ConfigurationManager::next_sequence`] will hand out.
    pub fn runtime_sequence(&self) -> (r: u32)
        ensures
            r == self.runtime_seq_spec(),
    {
        self.runtime_seq
    }

    /// The current configuration, for reading or persisting.
    pub fn retrieve(&self) -> (c: &Configuration)
        ensures
            *c == self.config_spec(),
    {
        &self.config
    }

    /// The stored key material.
    pub fn retrieve_keys(&self) -> (k: &Keys)
        ensures
            *k == self.config_spec().keys,
    {
        &self.config.keys
    }

    /// Replace the stored key material; the caller persists the returned
    /// view of the configuration.
    pub fn store_keys(&mut self, keys: Keys) -> (c: &Configuration)
        ensures
            final(self).config_spec() == (Configuration { keys, ..old(self).config_spec() }),
            *c == final(self).config_spec(),
            final(self).runtime_seq_spec() == old(self).runtime_seq_spec(),
            final(self).force_reset_spec() == old(self).force_reset_spec(),
    {
        self.config.keys = keys;
        &self.config
    }

    /// The stored primary element state.
    pub fn retrieve_primary(&self) -> (p: PrimaryElementModels)
        ensures
            p == self.config_spec().primary,
    {
        self.config.primary
    }

    /// Replace the stored primary element state; the caller persists the
    /// returned view of the configuration.
    pub fn store_primary(&mut self, primary: PrimaryElementModels) -> (c: &Configuration)
        ensures
            final(self).config_spec() == (Configuration { primary, ..old(self).config_spec() }),
            *c == final(self).config_spec(),
            final(self).runtime_seq_spec() == old(self).runtime_seq_spec(),
            final(self).force_reset_spec() == old(self).force_reset_spec(),
    {
        self.config.primary = primary;
        &self.config
    }

    /// Hand out the next message sequence number and advance the running
    /// counter; every time the counter reaches a multiple of the threshold,
    /// the configuration is stamped with that counter and the caller must
    /// persist it (read it back with [`ConfigurationManager::retrieve`]).
    pub fn next_sequence(&mut self) -> (r: (u32, bool))
        requires
            old(self).runtime_seq_spec() < u32::MAX,
        ensures
            r.0 == old(self).runtime_seq_spec(),
            final(self).runtime_seq_spec() == old(self).runtime_seq_spec() + 1,
            r.1 == (final(self).runtime_seq_spec() % SEQUENCE_THRESHOLD == 0),
            final(self).runtime_seq_spec() % SEQUENCE_THRESHOLD == 0 ==> final(self).config_spec() == (Configuration {
                seq: final(self).runtime_seq_spec(),
                ..old(self).config_spec()
            }),
            final(self).runtime_seq_spec() % SEQUENCE_THRESHOLD != 0 ==> final(self).config_spec()
                == old(self).config_spec(),
            final(self).force_reset_spec() == old(self).force_reset_spec(),
    {
        let seq = self.runtime_seq;
        self.runtime_seq = self.runtime_seq + 1;
        if self.runtime_seq % SEQUENCE_THRESHOLD == 0 {
            self.config.seq = self.runtime_seq;
            (seq, true)
        } else {
            (seq, false)
        }
    }

    /// Mark the node for a forced reset at the next initialization.
    pub fn reset(&mut self)
        ensures
            final(self).force_reset_spec(),
            final(self).config_spec() == old(self).config_spec(),
            final(self).runtime_seq_spec() == old(self).runtime_seq_spec(),
    {
        self.force_reset = true;
    }

    /// The configuration an erased node must persist: everything back to its
    /// unprovisioned defaults.
    pub fn node_reset_config(&self) -> (c: Configuration)
        ensures
            c.seq == 0,
            c.uuid is None,
            c.keys.private_key is None,
    {
        Configuration::new()
    }

    /// Whether the device identity is established.
    pub fn has_uuid(&self) -> (r: bool)
        ensures
            r == self.config_spec().uuid is Some,
    {
        self.config.uuid.is_some()
    }
}

impl GeneralStorage for ConfigurationManager {
    open spec fn uuid_spec(&self) -> Option<Uuid> {
        self.config_spec().uuid
    }

    /// The device UUID; reading it before initialization established one is a
    /// defect and yields the nil identity.
    fn uuid(&self) -> (r: Uuid) {
        match self.config.uuid {
            Some(u) => u,
            None => Uuid([0; 16]),
        }
    }
}

} // verus!
