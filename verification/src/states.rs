//! State records, their capacity constants, domain seed tags, and the
//! fixed-size byte layout of the configuration record.

use vstd::prelude::*;

verus! {

// ============================================================================
// CONSTANTS
// ============================================================================

/// Maximum length of a stored name (reserved for future entity records).
pub const MAX_NAME_LEN: usize = 100;
/// Maximum length of a stored URI (reserved for future entity records).
pub const MAX_URI_LEN: usize = 200;
/// Maximum length of stored notes (reserved for future entity records).
pub const MAX_NOTES_LEN: usize = 500;
/// Maximum number of zip prefixes (reserved for future entity records).
pub const MAX_ZIP_PREFIXES: usize = 100;
/// Maximum number of payment-token mints in the configuration allowlist.
pub const MAX_ALLOWED_MINTS: usize = 50;

/// Width in bytes of an identity (a public key on the host ledger).
pub const IDENTITY_LEN: usize = 32;

/// Total byte size of the configuration record as persisted: an 8-byte
/// record-type discriminator, two 32-byte identities, the 1-byte paused
/// flag, a 4-byte allowlist length prefix, and space reserved for the
/// maximum possible allowlist, regardless of how many entries are supplied.
pub const CONFIG_RECORD_SIZE: usize = 8 + 32 + 32 + 1 + 4 + 32 * MAX_ALLOWED_MINTS;

// ============================================================================
// IDENTITIES
// ============================================================================

/// An opaque identity on the host ledger: a 32-byte public key, held as
/// plain bytes so that the record layout can be stated over them.
#[derive(Clone, PartialEq, Eq, Debug)]
pub struct Identity {
    pub bytes: Vec<u8>,
}

impl View for Identity {
    type V = Seq<u8>;

    open spec fn view(&self) -> Seq<u8> {
        self.bytes@
    }
}

impl Identity {
    /// A well-formed identity holds exactly 32 bytes.
    pub open spec fn wf(&self) -> bool {
        self@.len() == IDENTITY_LEN
    }

    /// Builds the identity whose 32 bytes all equal `b`.
    pub fn filled(b: u8) -> (r: Identity)
        ensures
            r.wf(),
            r@ == Seq::new(IDENTITY_LEN as nat, |i: int| b),
    {
        let mut bytes: Vec<u8> = Vec::new();
        let mut i: usize = 0;
        while i < IDENTITY_LEN
            invariant
                i <= IDENTITY_LEN,
                bytes@ == Seq::new(i as nat, |j: int| b),
            decreases IDENTITY_LEN - i,
        {
            bytes.push(b);
            i = i + 1;
            assert(bytes@ =~= Seq::new(i as nat, |j: int| b));
        }
        Identity { bytes }
    }
}

// ============================================================================
// DOMAIN SEED TAGS
// ============================================================================

/// The entity kinds whose records are located by seed-derived addresses.
/// Only `Config` is used in the current scope; the rest are reserved and
/// must not collide with it or with one another.
#[derive(Clone, Copy, PartialEq, Eq, Debug)]
pub enum DomainTag {
    Config,
    Warehouse,
    Farmer,
    Customer,
    WCustomer,
    Pack,
    Offer,
    Order,
    Escrow,
}

/// The seed bytes of each domain tag: the ASCII bytes of its name.
pub open spec fn seed_of(t: DomainTag) -> Seq<u8> {
    match t {
        DomainTag::Config => seq![99u8, 111u8, 110u8, 102u8, 105u8, 103u8],
        DomainTag::Warehouse => seq![
            119u8, 97u8, 114u8, 101u8, 104u8, 111u8, 117u8, 115u8, 101u8,
        ],
        DomainTag::Farmer => seq![102u8, 97u8, 114u8, 109u8, 101u8, 114u8],
        DomainTag::Customer => seq![99u8, 117u8, 115u8, 116u8, 111u8, 109u8, 101u8, 114u8],
        DomainTag::WCustomer => seq![
            119u8, 99u8, 117u8, 115u8, 116u8, 111u8, 109u8, 101u8, 114u8,
        ],
        DomainTag::Pack => seq![112u8, 97u8, 99u8, 107u8],
        DomainTag::Offer => seq![111u8, 102u8, 102u8, 101u8, 114u8],
        DomainTag::Order => seq![111u8, 114u8, 100u8, 101u8, 114u8],
        DomainTag::Escrow => seq![101u8, 115u8, 99u8, 114u8, 111u8, 119u8],
    }
}

/// The seed of the configuration singleton: the ASCII bytes of `config`.
pub open spec fn config_seed() -> Seq<u8> {
    seed_of(DomainTag::Config)
}

/// Returns the seed bytes of a domain tag.
pub fn seed_bytes(t: &DomainTag) -> (s: Vec<u8>)
    ensures
        s@ == seed_of(*t),
{
    let mut s: Vec<u8> = Vec::new();
    match t {
        DomainTag::Config => {
            s.push(99);
            s.push(111);
            s.push(110);
            s.push(102);
            s.push(105);
            s.push(103);
        },
        DomainTag::Warehouse => {
            s.push(119);
            s.push(97);
            s.push(114);
            s.push(101);
            s.push(104);
            s.push(111);
            s.push(117);
            s.push(115);
            s.push(101);
        },
        DomainTag::Farmer => {
            s.push(102);
            s.push(97);
            s.push(114);
            s.push(109);
            s.push(101);
            s.push(114);
        },
        DomainTag::Customer => {
            s.push(99);
            s.push(117);
            s.push(115);
            s.push(116);
            s.push(111);
            s.push(109);
            s.push(101);
            s.push(114);
        },
        DomainTag::WCustomer => {
            s.push(119);
            s.push(99);
            s.push(117);
            s.push(115);
            s.push(116);
            s.push(111);
            s.push(109);
            s.push(101);
            s.push(114);
        },
        DomainTag::Pack => {
            s.push(112);
            s.push(97);
            s.push(99);
            s.push(107);
        },
        DomainTag::Offer => {
            s.push(111);
            s.push(102);
            s.push(102);
            s.push(101);
            s.push(114);
        },
        DomainTag::Order => {
            s.push(111);
            s.push(114);
            s.push(100);
            s.push(101);
            s.push(114);
        },
        DomainTag::Escrow => {
            s.push(101);
            s.push(115);
            s.push(99);
            s.push(114);
            s.push(111);
            s.push(119);
        },
    }
    assert(s@ =~= seed_of(*t));
    s
}

/// Law: distinct domain tags have distinct seed bytes, so records of
/// different entity kinds can never be derived at the same seeds.
pub proof fn lemma_domain_seeds_distinct(t1: DomainTag, t2: DomainTag)
    requires
        t1 != t2,
    ensures
        seed_of(t1) != seed_of(t2),
{
    assert(seed_of(DomainTag::Config)[0] == 99 && seed_of(DomainTag::Config).len() == 6);
    assert(seed_of(DomainTag::Warehouse)[1] == 97 && seed_of(DomainTag::Warehouse).len() == 9);
    assert(seed_of(DomainTag::Farmer)[0] == 102 && seed_of(DomainTag::Farmer).len() == 6);
    assert(seed_of(DomainTag::Customer)[0] == 99 && seed_of(DomainTag::Customer).len() == 8);
    assert(seed_of(DomainTag::WCustomer)[1] == 99 && seed_of(DomainTag::WCustomer).len() == 9);
    assert(seed_of(DomainTag::Pack)[0] == 112 && seed_of(DomainTag::Pack).len() == 4);
    assert(seed_of(DomainTag::Offer)[1] == 102 && seed_of(DomainTag::Offer).len() == 5);
    assert(seed_of(DomainTag::Order)[1] == 114 && seed_of(DomainTag::Order).len() == 5);
    assert(seed_of(DomainTag::Escrow)[0] == 101 && seed_of(DomainTag::Escrow).len() == 6);
}

// ============================================================================
// THE CONFIGURATION RECORD
// ============================================================================

/// The global program configuration: the single record created by the
/// initialization entry point.
#[derive(Clone, PartialEq, Eq, Debug)]
pub struct ProgramConfig {
    /// The authority permitted to perform future privileged mutations.
    pub admin: Identity,
    /// The wallet designated to receive logistics/service fees.
    pub logistics_wallet: Identity,
    /// When true, future protocol operations must refuse to proceed.
    pub paused: bool,
    /// Allowlist of acceptable payment-token mints; insertion order kept,
    /// length bounded by `MAX_ALLOWED_MINTS`.
    pub allowed_mints: Vec<Identity>,
}

/// The mathematical value of a configuration record: every identity as its
/// byte sequence.
pub ghost struct ConfigView {
    pub admin: Seq<u8>,
    pub logistics_wallet: Seq<u8>,
    pub paused: bool,
    pub allowed_mints: Seq<Seq<u8>>,
}

/// A well-formed configuration value: identities are 32 bytes each and the
/// allowlist respects its fixed capacity.
pub open spec fn config_view_wf(v: ConfigView) -> bool {
    &&& v.admin.len() == IDENTITY_LEN
    &&& v.logistics_wallet.len() == IDENTITY_LEN
    &&& v.allowed_mints.len() <= MAX_ALLOWED_MINTS
    &&& forall|i: int|
        0 <= i < v.allowed_mints.len() ==> #[trigger] v.allowed_mints[i].len() == IDENTITY_LEN
}

impl View for ProgramConfig {
    type V = ConfigView;

    open spec fn view(&self) -> ConfigView {
        ConfigView {
            admin: self.admin@,
            logistics_wallet: self.logistics_wallet@,
            paused: self.paused,
            allowed_mints: self.allowed_mints@.map_values(|m: Identity| m@),
        }
    }
}

impl ProgramConfig {
    pub open spec fn wf(&self) -> bool {
        config_view_wf(self@)
    }
}

// ============================================================================
// BYTE LAYOUT OF THE PERSISTED RECORD
// ============================================================================

/// The 8-byte record-type discriminator that prefixes the persisted
/// configuration record and distinguishes it from other record types.
pub open spec fn config_discriminator() -> Seq<u8> {
    seq![196u8, 210u8, 90u8, 231u8, 144u8, 149u8, 140u8, 63u8]
}

/// The byte encoding a boolean flag.
pub open spec fn bool_byte(b: bool) -> u8 {
    if b {
        1u8
    } else {
        0u8
    }
}

/// The four little-endian bytes of a 32-bit length prefix.
pub open spec fn le_bytes_u32(n: u32) -> Seq<u8> {
    seq![
        (n % 256) as u8,
        ((n / 256) % 256) as u8,
        ((n / 65536) % 256) as u8,
        ((n / 16777216) % 256) as u8,
    ]
}

/// The concatenated bytes of the allowlist entries, in insertion order.
pub open spec fn mints_bytes(mints: Seq<Seq<u8>>) -> Seq<u8>
    decreases mints.len(),
{
    if mints.len() == 0 {
        Seq::empty()
    } else {
        mints_bytes(mints.drop_last()) + mints.last()
    }
}

/// The full persisted byte layout of a configuration value: discriminator,
/// admin, fee wallet, paused flag, allowlist length prefix, the allowlist
/// entries, and zero padding up to the full reserved capacity.
pub open spec fn encoded_config(v: ConfigView) -> Seq<u8> {
    config_discriminator() + v.admin + v.logistics_wallet + seq![bool_byte(v.paused)]
        + le_bytes_u32(v.allowed_mints.len() as u32) + mints_bytes(v.allowed_mints)
        + Seq::new((32 * (MAX_ALLOWED_MINTS - v.allowed_mints.len())) as nat, |i: int| 0u8)
}

/// The concatenated allowlist bytes take 32 bytes per entry.
pub proof fn lemma_mints_bytes_len(mints: Seq<Seq<u8>>)
    requires
        forall|i: int| 0 <= i < mints.len() ==> #[trigger] mints[i].len() == IDENTITY_LEN,
    ensures
        mints_bytes(mints).len() == 32 * mints.len(),
    decreases mints.len(),
{
    if mints.len() > 0 {
        lemma_mints_bytes_len(mints.drop_last());
    }
}

/// Law: the persisted record size is the same constant for every
/// well-formed configuration value, regardless of how many allowlist
/// entries were actually supplied.
pub proof fn lemma_record_size_constant(v: ConfigView)
    requires
        config_view_wf(v),
    ensures
        encoded_config(v).len() == CONFIG_RECORD_SIZE,
{
    lemma_mints_bytes_len(v.allowed_mints);
}

/// Appends the 32 bytes of an identity.
fn push_identity(out: &mut Vec<u8>, id: &Identity)
    requires
        id.wf(),
    ensures
        final(out)@ == old(out)@ + id@,
{
    let mut j: usize = 0;
    while j < IDENTITY_LEN
        invariant
            j <= IDENTITY_LEN,
            id.wf(),
            out@ == old(out)@ + id@.take(j as int),
        decreases IDENTITY_LEN - j,
    {
        out.push(id.bytes[j]);
        assert(id@.take(j + 1) =~= id@.take(j as int).push(id@[j as int]));
        j = j + 1;
    }
    assert(id@.take(IDENTITY_LEN as int) =~= id@);
}

/// Appends the four little-endian bytes of a 32-bit length prefix.
fn push_le_u32(out: &mut Vec<u8>, n: u32)
    ensures
        final(out)@ == old(out)@ + le_bytes_u32(n),
{
    out.push((n % 256) as u8);
    out.push(((n / 256) % 256) as u8);
    out.push(((n / 65536) % 256) as u8);
    out.push(((n / 16777216) % 256) as u8);
    assert(out@ =~= old(out)@ + le_bytes_u32(n));
}

/// Serializes a configuration record into exactly the persisted byte
/// layout, padded with zeros to the full reserved capacity.
pub fn encode_config(c: &ProgramConfig) -> (out: Vec<u8>)
    requires
        c.wf(),
    ensures
        out@ == encoded_config(c@),
        out@.len() == CONFIG_RECORD_SIZE,
{
    let ghost v = c@;
    let mut out: Vec<u8> = Vec::new();
    out.push(196);
    out.push(210);
    out.push(90);
    out.push(231);
    out.push(144);
    out.push(149);
    out.push(140);
    out.push(63);
    assert(out@ =~= config_discriminator());
    push_identity(&mut out, &c.admin);
    push_identity(&mut out, &c.logistics_wallet);
    out.push(if c.paused { 1 } else { 0 });
    let n: u32 = c.allowed_mints.len() as u32;
    push_le_u32(&mut out, n);
    let ghost header = config_discriminator() + v.admin + v.logistics_wallet + seq![
        bool_byte(v.paused),
    ] + le_bytes_u32(v.allowed_mints.len() as u32);
    assert(out@ =~= header);

    let mut i: usize = 0;
    while i < c.allowed_mints.len()
        invariant
            i <= c.allowed_mints.len(),
            c.wf(),
            v == c@,
            out@ == header + mints_bytes(v.allowed_mints.take(i as int)),
        decreases c.allowed_mints.len() - i,
    {
        proof {
            assert(c.allowed_mints@[i as int]@ == v.allowed_mints[i as int]);
        }
        push_identity(&mut out, &c.allowed_mints[i]);
        proof {
            let taken = v.allowed_mints.take(i + 1);
            assert(taken.drop_last() =~= v.allowed_mints.take(i as int));
            assert(taken.last() == v.allowed_mints[i as int]);
        }
        i = i + 1;
    }
    assert(v.allowed_mints.take(v.allowed_mints.len() as int) =~= v.allowed_mints);

    let pad: usize = 32 * (MAX_ALLOWED_MINTS - c.allowed_mints.len());
    let mut k: usize = 0;
    while k < pad
        invariant
            k <= pad,
            out@ == header + mints_bytes(v.allowed_mints) + Seq::new(k as nat, |i: int| 0u8),
        decreases pad - k,
    {
        out.push(0);
        assert(Seq::new((k + 1) as nat, |i: int| 0u8) =~= Seq::new(k as nat, |i: int| 0u8).push(
            0u8,
        ));
        k = k + 1;
    }
    assert(out@ =~= encoded_config(v));
    proof {
        lemma_record_size_constant(v);
    }
    out
}

} // verus!
