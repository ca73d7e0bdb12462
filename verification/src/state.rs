//! The versioned, fixed-length pool account record and its codec.
//!
//! The record is stored as one version byte followed by a fixed layout. The
//! per-coin regions (precision multipliers and token account addresses) have
//! room for the maximum coin count; only the first `coin count` slots are
//! significant, and the encoder zero-fills the unused slots so that no stale
//! data can leak into a freshly written record.

use crate::error::ProgramError;
use crate::utils::{bool_to_u8, spec_bool_to_byte, spec_byte_to_bool, u8_to_bool};
use crate::PoolParameter;
use crate::Pubkey;
use vstd::bytes::{
    lemma_auto_spec_u32_to_from_le_bytes, lemma_auto_spec_u64_to_from_le_bytes,
    spec_u32_from_le_bytes, spec_u32_to_le_bytes, spec_u64_from_le_bytes, spec_u64_to_le_bytes,
    u32_from_le_bytes, u32_to_le_bytes, u64_from_le_bytes, u64_to_le_bytes,
};
use vstd::prelude::*;
use vstd::slice::{slice_index_get, slice_subrange};

verus! {

broadcast use vstd::array::group_array_axioms;

/// Two independent feature flags of a pool. Each flag occupies exactly one
/// byte on the wire, with only 0 and 1 as valid encodings.
#[derive(Clone, Copy, Debug, PartialEq, Eq, Structural)]
pub struct AdminSettings {
    /// Whether swapping is currently permitted.
    pub swap_enabled: bool,
    /// Whether adding liquidity is currently permitted.
    pub add_liquidity_enabled: bool,
}

/// The pool account record, current layout.
#[derive(Clone, Debug, PartialEq)]
pub struct SwapV2 {
    /// Whether the pool has been initialized. Guards against
    /// re-initialization and against treating an empty account as valid.
    pub is_initialized: bool,
    /// Nonce used to derive the pool's authority address.
    pub nonce: u8,
    /// Amplification coefficient for curve computations.
    pub amplification_coefficient: u64,
    /// LP fee numerator for fee curve computations.
    pub fee_numerator: u64,
    /// Admin fee numerator.
    pub admin_fee_numerator: u64,
    /// Precision factor for curve computations.
    pub precision_factor: u64,
    /// One precision multiplier per pool coin.
    pub precision_multipliers: Vec<u64>,
    /// One token account address per pool coin.
    pub token_account_addresses: Vec<Pubkey>,
    /// The pool token mint address.
    pub pool_mint_address: Pubkey,
    /// The admin token mint address.
    pub admin_token_mint_address: Pubkey,
    /// The pool's feature flags.
    pub admin_settings: AdminSettings,
}

/// The record layout in current use; earlier layouts exist only for
/// migration.
pub type SwapState = SwapV2;

/// The mathematical value of a pool record: scalars as they are, each
/// address as its 32-byte sequence.
pub struct SwapV2View {
    /// Whether the pool has been initialized.
    pub is_initialized: bool,
    /// Nonce used to derive the pool's authority address.
    pub nonce: u8,
    /// Amplification coefficient for curve computations.
    pub amplification_coefficient: u64,
    /// LP fee numerator for fee curve computations.
    pub fee_numerator: u64,
    /// Admin fee numerator.
    pub admin_fee_numerator: u64,
    /// Precision factor for curve computations.
    pub precision_factor: u64,
    /// One precision multiplier per pool coin.
    pub precision_multipliers: Seq<u64>,
    /// One token account address per pool coin.
    pub token_account_addresses: Seq<Seq<u8>>,
    /// The pool token mint address.
    pub pool_mint_address: Seq<u8>,
    /// The admin token mint address.
    pub admin_token_mint_address: Seq<u8>,
    /// The pool's feature flags.
    pub admin_settings: AdminSettings,
}

impl View for SwapV2 {
    type V = SwapV2View;

    open spec fn view(&self) -> SwapV2View {
        SwapV2View {
            is_initialized: self.is_initialized,
            nonce: self.nonce,
            amplification_coefficient: self.amplification_coefficient,
            fee_numerator: self.fee_numerator,
            admin_fee_numerator: self.admin_fee_numerator,
            precision_factor: self.precision_factor,
            precision_multipliers: self.precision_multipliers@,
            token_account_addresses: self.token_account_addresses@.map_values(|p: Pubkey| p@),
            pool_mint_address: self.pool_mint_address@,
            admin_token_mint_address: self.admin_token_mint_address@,
            admin_settings: self.admin_settings,
        }
    }
}

/// A record the fixed layout can carry: the two per-coin sequences share one
/// length, that length is at most the maximum coin count, and every address
/// is 32 bytes wide.
pub open spec fn spec_swap_v2_wf(v: SwapV2View) -> bool {
    &&& v.precision_multipliers.len() == v.token_account_addresses.len()
    &&& v.token_account_addresses.len() <= PoolParameter::MAX_N_COINS
    &&& forall|i: int|
        0 <= i < v.token_account_addresses.len() ==> (#[trigger] v.token_account_addresses[i]).len()
            == 32
    &&& v.pool_mint_address.len() == 32
    &&& v.admin_token_mint_address.len() == 32
}

/// A sequence of `n` zero bytes.
pub open spec fn spec_zero_bytes(n: nat) -> Seq<u8> {
    Seq::new(n, |i: int| 0u8)
}

/// The concatenation of a sequence of addresses.
pub open spec fn spec_addresses_to_bytes(s: Seq<Seq<u8>>) -> Seq<u8>
    decreases s.len(),
{
    if s.len() == 0 {
        Seq::empty()
    } else {
        s[0] + spec_addresses_to_bytes(s.skip(1))
    }
}

/// A sequence of 32-byte addresses concatenates to 32 bytes per element.
pub proof fn lemma_addresses_len(s: Seq<Seq<u8>>)
    requires
        forall|i: int| 0 <= i < s.len() ==> (#[trigger] s[i]).len() == 32,
    ensures
        spec_addresses_to_bytes(s).len() == 32 * s.len(),
    decreases s.len(),
{
    if s.len() > 0 {
        lemma_addresses_len(s.skip(1));
    }
}

/// Element `i` of an address sequence occupies bytes `32*i .. 32*i + 32` of
/// its concatenation.
pub proof fn lemma_addresses_index(s: Seq<Seq<u8>>, i: int)
    requires
        forall|k: int| 0 <= k < s.len() ==> (#[trigger] s[k]).len() == 32,
        0 <= i < s.len(),
    ensures
        spec_addresses_to_bytes(s).subrange(32 * i, 32 * i + 32) == s[i],
    decreases s.len(),
{
    lemma_addresses_len(s);
    lemma_addresses_len(s.skip(1));
    if i == 0 {
        assert(spec_addresses_to_bytes(s).subrange(0, 32) =~= s[0]);
    } else {
        lemma_addresses_index(s.skip(1), i - 1);
        assert(spec_addresses_to_bytes(s).subrange(32 * i, 32 * i + 32)
            =~= spec_addresses_to_bytes(s.skip(1)).subrange(32 * (i - 1), 32 * (i - 1) + 32));
    }
}

/// Appending one 32-byte address appends its 32 bytes.
pub proof fn lemma_addresses_push(s: Seq<Seq<u8>>, x: Seq<u8>)
    ensures
        spec_addresses_to_bytes(s.push(x)) == spec_addresses_to_bytes(s) + x,
    decreases s.len(),
{
    if s.len() == 0 {
        assert(s.push(x).skip(1) =~= Seq::<Seq<u8>>::empty());
        assert(s =~= Seq::<Seq<u8>>::empty());
        assert(s.push(x)[0] == x);
        assert(spec_addresses_to_bytes(Seq::<Seq<u8>>::empty()) == Seq::<u8>::empty());
        assert(spec_addresses_to_bytes(s.push(x)) == x + spec_addresses_to_bytes(
            Seq::<Seq<u8>>::empty(),
        ));
        assert(spec_addresses_to_bytes(s.push(x)) =~= spec_addresses_to_bytes(s) + x);
    } else {
        lemma_addresses_push(s.skip(1), x);
        assert(s.push(x).skip(1) =~= s.skip(1).push(x));
        assert(s.push(x)[0] == s[0]);
        assert(spec_addresses_to_bytes(s.push(x)) == s[0] + spec_addresses_to_bytes(
            s.skip(1).push(x),
        ));
        assert(spec_addresses_to_bytes(s.push(x)) == s[0] + (spec_addresses_to_bytes(s.skip(1))
            + x));
        assert(spec_addresses_to_bytes(s.push(x)) =~= spec_addresses_to_bytes(s) + x);
    }
}

/// The fixed-layout encoding of a pool record, without the version byte:
/// 264 bytes, with the unused per-coin slots zero-filled.
pub open spec fn spec_pack_v2(v: SwapV2View) -> Seq<u8> {
    let count = v.token_account_addresses.len() as int;
    seq![spec_bool_to_byte(v.is_initialized), v.nonce] + spec_u64_to_le_bytes(
        v.amplification_coefficient,
    ) + spec_u64_to_le_bytes(v.fee_numerator) + spec_u64_to_le_bytes(v.admin_fee_numerator)
        + spec_u32_to_le_bytes(v.token_account_addresses.len() as u32) + spec_u64_to_le_bytes(
        v.precision_factor,
    ) + crate::instruction::spec_amounts_to_le_bytes(v.precision_multipliers) + spec_zero_bytes(
        (32 - 8 * count) as nat,
    ) + spec_addresses_to_bytes(v.token_account_addresses) + spec_zero_bytes(
        (128 - 32 * count) as nat,
    ) + v.pool_mint_address + v.admin_token_mint_address + seq![
        spec_bool_to_byte(v.admin_settings.swap_enabled),
        spec_bool_to_byte(v.admin_settings.add_liquidity_enabled),
    ]
}

/// The coin count a fixed-layout record buffer declares.
pub open spec fn spec_record_count(s: Seq<u8>) -> int {
    spec_u32_from_le_bytes(s.subrange(26, 30)) as int
}

/// The pool record a fixed-layout buffer (without the version byte) decodes
/// to. A buffer of the wrong length, a boolean byte other than 0 or 1, and a
/// declared coin count above the maximum all fail with `InvalidAccountData`.
/// Only the first `coin count` slots of the per-coin regions are read.
pub open spec fn spec_unpack_v2(s: Seq<u8>) -> Result<SwapV2View, ProgramError> {
    if s.len() != SwapV2::LEN {
        Err(ProgramError::InvalidAccountData)
    } else {
        match spec_byte_to_bool(s[0]) {
            Err(e) => Err(e),
            Ok(is_initialized) => {
                let count = spec_record_count(s);
                if count > PoolParameter::MAX_N_COINS {
                    Err(ProgramError::InvalidAccountData)
                } else {
                    match spec_byte_to_bool(s[262]) {
                        Err(e) => Err(e),
                        Ok(swap_enabled) => match spec_byte_to_bool(s[263]) {
                            Err(e) => Err(e),
                            Ok(add_liquidity_enabled) => Ok(
                                SwapV2View {
                                    is_initialized,
                                    nonce: s[1],
                                    amplification_coefficient: spec_u64_from_le_bytes(
                                        s.subrange(2, 10),
                                    ),
                                    fee_numerator: spec_u64_from_le_bytes(s.subrange(10, 18)),
                                    admin_fee_numerator: spec_u64_from_le_bytes(
                                        s.subrange(18, 26),
                                    ),
                                    precision_factor: spec_u64_from_le_bytes(s.subrange(30, 38)),
                                    precision_multipliers: Seq::new(
                                        count as nat,
                                        |i: int| spec_u64_from_le_bytes(
                                            s.subrange(38 + 8 * i, 38 + 8 * i + 8),
                                        ),
                                    ),
                                    token_account_addresses: Seq::new(
                                        count as nat,
                                        |i: int| s.subrange(70 + 32 * i, 70 + 32 * i + 32),
                                    ),
                                    pool_mint_address: s.subrange(198, 230),
                                    admin_token_mint_address: s.subrange(230, 262),
                                    admin_settings: AdminSettings {
                                        swap_enabled,
                                        add_liquidity_enabled,
                                    },
                                },
                            ),
                        },
                    }
                }
            },
        }
    }
}

/// Reads a 32-byte address starting at `off`.
fn read_pubkey(src: &[u8], off: usize) -> (r: Pubkey)
    requires
        off + 32 <= src@.len(),
    ensures
        r@ == src@.subrange(off as int, off as int + 32),
{
    let slen = src.len();
    let mut bytes: [u8; 32] = [0u8; 32];
    let mut i: usize = 0;
    while i < 32
        invariant
            i <= 32,
            off + 32 <= slen,
            slen == src@.len(),
            forall|j: int| 0 <= j < i ==> bytes@[j] == src@[off + j],
        decreases 32 - i,
    {
        bytes[i] = *slice_index_get(src, off + i);
        i += 1;
    }
    let r = Pubkey { bytes };
    proof {
        assert(r@ =~= src@.subrange(off as int, off as int + 32));
    }
    r
}

impl SwapV2 {
    /// The length, in bytes, of the fixed-layout record, version byte not
    /// included.
    pub const LEN: usize = 1 + 1 + 8 + 8 + 8 + 4 + 8 + PoolParameter::MAX_N_COINS * 8
        + PoolParameter::MAX_N_COINS * 32 + 32 + 32 + 2;

    /// Whether this record is marked initialized.
    pub fn is_initialized(&self) -> (r: bool)
        ensures
            r == self.is_initialized,
    {
        self.is_initialized
    }

    /// Decodes a fixed-layout record buffer (without the version byte).
    ///
    /// The buffer must be exactly [`SwapV2::LEN`] bytes; a wrong length, a
    /// boolean byte other than 0 or 1, and a declared coin count above the
    /// maximum fail with `InvalidAccountData`. Only the first `coin count`
    /// slots of the per-coin regions are read.
    pub fn unpack_from_slice(src: &[u8]) -> (r: Result<SwapV2, ProgramError>)
        ensures
            (match r {
                Ok(v) => spec_unpack_v2(src@) == Ok::<SwapV2View, ProgramError>(v@),
                Err(e) => spec_unpack_v2(src@) == Err::<SwapV2View, ProgramError>(e),
            }),
            r matches Ok(v) ==> spec_swap_v2_wf(v@),
    {
        proof {
            lemma_auto_spec_u64_to_from_le_bytes();
            lemma_auto_spec_u32_to_from_le_bytes();
        }
        if src.len() != Self::LEN {
            return Err(ProgramError::InvalidAccountData);
        }
        let is_initialized = match u8_to_bool(*slice_index_get(src, 0)) {
            Ok(b) => b,
            Err(e) => {
                return Err(e);
            },
        };
        let nonce = *slice_index_get(src, 1);
        let amplification_coefficient = u64_from_le_bytes(slice_subrange(src, 2, 10));
        let fee_numerator = u64_from_le_bytes(slice_subrange(src, 10, 18));
        let admin_fee_numerator = u64_from_le_bytes(slice_subrange(src, 18, 26));
        let count = u32_from_le_bytes(slice_subrange(src, 26, 30));
        if count as usize > PoolParameter::MAX_N_COINS {
            return Err(ProgramError::InvalidAccountData);
        }
        let precision_factor = u64_from_le_bytes(slice_subrange(src, 30, 38));
        let n = count as usize;
        let mut precision_multipliers: Vec<u64> = Vec::new();
        proof {
            assert(precision_multipliers@ =~= Seq::new(
                0nat,
                |i: int| spec_u64_from_le_bytes(src@.subrange(38 + 8 * i, 38 + 8 * i + 8)),
            ));
        }
        let mut i: usize = 0;
        while i < n
            invariant
                i <= n,
                n <= 4,
                src@.len() == 264,
                precision_multipliers@ == Seq::new(
                    i as nat,
                    |j: int| spec_u64_from_le_bytes(src@.subrange(38 + 8 * j, 38 + 8 * j + 8)),
                ),
            decreases n - i,
        {
            let m = u64_from_le_bytes(slice_subrange(src, 38 + i * 8, 38 + i * 8 + 8));
            precision_multipliers.push(m);
            proof {
                assert(precision_multipliers@ =~= Seq::new(
                    (i + 1) as nat,
                    |j: int| spec_u64_from_le_bytes(src@.subrange(38 + 8 * j, 38 + 8 * j + 8)),
                ));
            }
            i += 1;
        }
        let mut token_account_addresses: Vec<Pubkey> = Vec::new();
        let mut i: usize = 0;
        while i < n
            invariant
                i <= n,
                n <= 4,
                src@.len() == 264,
                token_account_addresses@.len() == i,
                forall|j: int|
                    0 <= j < i ==> (#[trigger] token_account_addresses@[j])@ == src@.subrange(
                        70 + 32 * j,
                        70 + 32 * j + 32,
                    ),
            decreases n - i,
        {
            let pk = read_pubkey(src, 70 + i * 32);
            token_account_addresses.push(pk);
            i += 1;
        }
        proof {
            assert(token_account_addresses@.map_values(|p: Pubkey| p@) =~= Seq::new(
                n as nat,
                |j: int| src@.subrange(70 + 32 * j, 70 + 32 * j + 32),
            ));
        }
        let pool_mint_address = read_pubkey(src, 198);
        let admin_token_mint_address = read_pubkey(src, 230);
        let swap_enabled = match u8_to_bool(*slice_index_get(src, 262)) {
            Ok(b) => b,
            Err(e) => {
                return Err(e);
            },
        };
        let add_liquidity_enabled = match u8_to_bool(*slice_index_get(src, 263)) {
            Ok(b) => b,
            Err(e) => {
                return Err(e);
            },
        };
        let result = SwapV2 {
            is_initialized,
            nonce,
            amplification_coefficient,
            fee_numerator,
            admin_fee_numerator,
            precision_factor,
            precision_multipliers,
            token_account_addresses,
            pool_mint_address,
            admin_token_mint_address,
            admin_settings: AdminSettings { swap_enabled, add_liquidity_enabled },
        };
        Ok(result)
    }
}

/// Round trip of the fixed-layout codec: every well-formed record decodes
/// from its own encoding, exactly, and the encoding is always exactly
/// [`SwapV2::LEN`] bytes long, whatever the coin count.
pub proof fn lemma_record_round_trip(v: SwapV2View)
    requires
        spec_swap_v2_wf(v),
    ensures
        spec_pack_v2(v).len() == SwapV2::LEN,
        spec_unpack_v2(spec_pack_v2(v)) == Ok::<SwapV2View, ProgramError>(v),
{
    lemma_auto_spec_u64_to_from_le_bytes();
    lemma_auto_spec_u32_to_from_le_bytes();
    crate::instruction::lemma_amounts_len(v.precision_multipliers);
    lemma_addresses_len(v.token_account_addresses);
    let s = spec_pack_v2(v);
    let count = v.token_account_addresses.len() as int;
    assert(s.len() == 264);
    assert(s[0] == spec_bool_to_byte(v.is_initialized));
    assert(s[1] == v.nonce);
    assert(s.subrange(2, 10) =~= spec_u64_to_le_bytes(v.amplification_coefficient));
    assert(s.subrange(10, 18) =~= spec_u64_to_le_bytes(v.fee_numerator));
    assert(s.subrange(18, 26) =~= spec_u64_to_le_bytes(v.admin_fee_numerator));
    assert(s.subrange(26, 30) =~= spec_u32_to_le_bytes(count as u32));
    assert(spec_record_count(s) == count);
    assert(s.subrange(30, 38) =~= spec_u64_to_le_bytes(v.precision_factor));
    assert forall|i: int| 0 <= i < count implies spec_u64_from_le_bytes(
        s.subrange(38 + 8 * i, 38 + 8 * i + 8),
    ) == v.precision_multipliers[i] by {
        crate::instruction::lemma_amounts_index(v.precision_multipliers, i);
        assert(s.subrange(38 + 8 * i, 38 + 8 * i + 8)
            =~= crate::instruction::spec_amounts_to_le_bytes(v.precision_multipliers).subrange(
            8 * i,
            8 * i + 8,
        ));
    };
    assert(Seq::new(
        count as nat,
        |i: int| spec_u64_from_le_bytes(s.subrange(38 + 8 * i, 38 + 8 * i + 8)),
    ) =~= v.precision_multipliers);
    assert forall|i: int| 0 <= i < count implies s.subrange(70 + 32 * i, 70 + 32 * i + 32)
        == v.token_account_addresses[i] by {
        lemma_addresses_index(v.token_account_addresses, i);
        assert(s.subrange(70 + 32 * i, 70 + 32 * i + 32) =~= spec_addresses_to_bytes(
            v.token_account_addresses,
        ).subrange(32 * i, 32 * i + 32));
    };
    assert(Seq::new(count as nat, |i: int| s.subrange(70 + 32 * i, 70 + 32 * i + 32))
        =~= v.token_account_addresses);
    assert(s.subrange(198, 230) =~= v.pool_mint_address);
    assert(s.subrange(230, 262) =~= v.admin_token_mint_address);
    assert(s[262] == spec_bool_to_byte(v.admin_settings.swap_enabled));
    assert(s[263] == spec_bool_to_byte(v.admin_settings.add_liquidity_enabled));
}

/// Round trip of the versioned codec: every well-formed, initialized record
/// decodes from its own versioned encoding, exactly, and that encoding is
/// always exactly [`SwapVersion::LATEST_LEN`] bytes long. An uninitialized
/// record is excluded: decoding rejects it as `UninitializedAccount`.
pub proof fn lemma_versioned_round_trip(v: SwapV2View)
    requires
        spec_swap_v2_wf(v),
        v.is_initialized,
    ensures
        spec_pack_version(v).len() == SwapVersion::LATEST_LEN,
        spec_unpack_version(spec_pack_version(v)) == Ok::<SwapV2View, ProgramError>(v),
{
    lemma_record_round_trip(v);
    let t = spec_pack_version(v);
    assert(t[0] == 2);
    assert(t.skip(1) =~= spec_pack_v2(v));
}

/// Boolean validation: a full-length record buffer whose initialized byte,
/// or (with the earlier fields valid) either admin flag byte, is neither 0
/// nor 1 is rejected with `InvalidAccountData`.
pub proof fn lemma_record_bool_validation(s: Seq<u8>)
    requires
        s.len() == SwapV2::LEN,
        s[0] >= 2 || (spec_record_count(s) <= PoolParameter::MAX_N_COINS && (s[262] >= 2 || s[263]
            >= 2)),
    ensures
        spec_unpack_v2(s) == Err::<SwapV2View, ProgramError>(ProgramError::InvalidAccountData),
{
}

/// A byte position that the declared coin count leaves without meaning: a
/// per-coin slot past the first `count` entries of either region.
pub open spec fn spec_unused_slot(count: int, j: int) -> bool {
    (38 + 8 * count <= j < 70) || (70 + 32 * count <= j < 198)
}

/// Stale-slot non-leakage, decoder side: decoding reads only the first
/// `coin count` entries of the per-coin regions. Two full-length buffers
/// that agree outside the unused slots decode to the same result, whatever
/// the unused slots hold.
pub proof fn lemma_unused_slots_ignored(s: Seq<u8>, t: Seq<u8>)
    requires
        s.len() == SwapV2::LEN,
        t.len() == SwapV2::LEN,
        spec_record_count(s) <= PoolParameter::MAX_N_COINS,
        forall|j: int|
            0 <= j < SwapV2::LEN && !spec_unused_slot(spec_record_count(s), j) ==> s[j] == t[j],
    ensures
        spec_unpack_v2(s) == spec_unpack_v2(t),
{
    let c = spec_record_count(s);
    assert(s.subrange(26, 30) =~= t.subrange(26, 30));
    assert(spec_record_count(t) == c);
    assert(s.subrange(2, 10) =~= t.subrange(2, 10));
    assert(s.subrange(10, 18) =~= t.subrange(10, 18));
    assert(s.subrange(18, 26) =~= t.subrange(18, 26));
    assert(s.subrange(30, 38) =~= t.subrange(30, 38));
    assert(s.subrange(198, 230) =~= t.subrange(198, 230));
    assert(s.subrange(230, 262) =~= t.subrange(230, 262));
    assert forall|i: int| 0 <= i < c implies #[trigger] s.subrange(38 + 8 * i, 38 + 8 * i + 8)
        == t.subrange(38 + 8 * i, 38 + 8 * i + 8) by {
        assert(s.subrange(38 + 8 * i, 38 + 8 * i + 8) =~= t.subrange(38 + 8 * i, 38 + 8 * i + 8));
    };
    assert forall|i: int| 0 <= i < c implies #[trigger] s.subrange(70 + 32 * i, 70 + 32 * i + 32)
        == t.subrange(70 + 32 * i, 70 + 32 * i + 32) by {
        assert(s.subrange(70 + 32 * i, 70 + 32 * i + 32) =~= t.subrange(
            70 + 32 * i,
            70 + 32 * i + 32,
        ));
    };
    assert(Seq::new(c as nat, |i: int| spec_u64_from_le_bytes(s.subrange(38 + 8 * i, 38 + 8 * i + 8)))
        =~= Seq::new(c as nat, |i: int| spec_u64_from_le_bytes(t.subrange(38 + 8 * i, 38 + 8 * i + 8))));
    assert(Seq::new(c as nat, |i: int| s.subrange(70 + 32 * i, 70 + 32 * i + 32)) =~= Seq::new(
        c as nat,
        |i: int| t.subrange(70 + 32 * i, 70 + 32 * i + 32),
    ));
}

/// Stale-slot non-leakage, encoder side: the encoding of a record holds a
/// zero in every unused per-coin slot, so nothing of a previously stored
/// larger record can survive an encode.
pub proof fn lemma_pack_zero_slots(v: SwapV2View, j: int)
    requires
        spec_swap_v2_wf(v),
        spec_unused_slot(v.token_account_addresses.len() as int, j),
    ensures
        spec_pack_v2(v)[j] == 0,
{
    lemma_auto_spec_u64_to_from_le_bytes();
    lemma_auto_spec_u32_to_from_le_bytes();
    crate::instruction::lemma_amounts_len(v.precision_multipliers);
    lemma_addresses_len(v.token_account_addresses);
}

/// Appends the 32 bytes of an address.
fn push_pubkey(out: &mut Vec<u8>, pk: &Pubkey)
    ensures
        final(out)@ == old(out)@ + pk@,
{
    let mut i: usize = 0;
    while i < 32
        invariant
            i <= 32,
            out@ == old(out)@ + pk@.take(i as int),
        decreases 32 - i,
    {
        out.push(pk.bytes[i]);
        proof {
            assert(old(out)@ + pk@.take(i + 1) =~= (old(out)@ + pk@.take(i as int)).push(
                pk@[i as int],
            ));
        }
        i += 1;
    }
    proof {
        assert(pk@.take(32) =~= pk@);
    }
}

/// Overwrites `bytes.len()` bytes of `dst`, starting at `off`, with `bytes`.
fn write_bytes(dst: &mut Vec<u8>, off: usize, bytes: &Vec<u8>)
    requires
        off + bytes@.len() <= old(dst)@.len(),
    ensures
        final(dst)@ == old(dst)@.subrange(0, off as int) + bytes@ + old(dst)@.skip(
            off as int + bytes@.len() as int,
        ),
{
    let m = bytes.len();
    let dlen = dst.len();
    let mut i: usize = 0;
    while i < m
        invariant
            i <= m,
            m == bytes@.len(),
            off + m <= dlen,
            dlen == dst@.len(),
            dst@.len() == old(dst)@.len(),
            forall|j: int| 0 <= j < i ==> dst@[off + j] == bytes@[j],
            forall|j: int|
                0 <= j < dst@.len() && !(off <= j < off + i) ==> dst@[j] == old(dst)@[j],
        decreases m - i,
    {
        dst[off + i] = bytes[i];
        i += 1;
    }
    proof {
        assert(dst@ =~= old(dst)@.subrange(0, off as int) + bytes@ + old(dst)@.skip(
            off as int + bytes@.len() as int,
        ));
    }
}

impl SwapV2 {
    /// The 264-byte fixed-layout encoding of this record, unused per-coin
    /// slots zero-filled.
    #[verifier::rlimit(30)]
    #[verifier::spinoff_prover]
    fn record_bytes(&self) -> (out: Vec<u8>)
        requires
            spec_swap_v2_wf(self@),
        ensures
            out@ == spec_pack_v2(self@),
            out@.len() == SwapV2::LEN,
    {
        proof {
            lemma_auto_spec_u64_to_from_le_bytes();
            lemma_auto_spec_u32_to_from_le_bytes();
        }
        let n = self.token_account_addresses.len();
        let mut out: Vec<u8> = Vec::new();
        out.push(bool_to_u8(self.is_initialized));
        out.push(self.nonce);
        let mut amp = u64_to_le_bytes(self.amplification_coefficient);
        out.append(&mut amp);
        let mut fee = u64_to_le_bytes(self.fee_numerator);
        out.append(&mut fee);
        let mut admin_fee = u64_to_le_bytes(self.admin_fee_numerator);
        out.append(&mut admin_fee);
        let mut count = u32_to_le_bytes(n as u32);
        out.append(&mut count);
        let mut precision = u64_to_le_bytes(self.precision_factor);
        out.append(&mut precision);
        let ghost multipliers_at = out@;
        let m = self.precision_multipliers.len();
        let mut i: usize = 0;
        while i < m
            invariant
                i <= m,
                m == self.precision_multipliers@.len(),
                out@ == multipliers_at + crate::instruction::spec_amounts_to_le_bytes(
                    self.precision_multipliers@.take(i as int),
                ),
            decreases m - i,
        {
            let mut amount = u64_to_le_bytes(self.precision_multipliers[i]);
            out.append(&mut amount);
            proof {
                crate::instruction::lemma_amounts_push(
                    self.precision_multipliers@.take(i as int),
                    self.precision_multipliers@[i as int],
                );
                assert(self.precision_multipliers@.take(i + 1)
                    =~= self.precision_multipliers@.take(i as int).push(
                    self.precision_multipliers@[i as int],
                ));
            }
            i += 1;
        }
        proof {
            assert(self.precision_multipliers@.take(m as int) =~= self.precision_multipliers@);
        }
        let ghost multiplier_pad_at = out@;
        let pad = (PoolParameter::MAX_N_COINS - n) * 8;
        let mut j: usize = 0;
        while j < pad
            invariant
                j <= pad,
                out@ == multiplier_pad_at + spec_zero_bytes(j as nat),
            decreases pad - j,
        {
            out.push(0);
            proof {
                assert(multiplier_pad_at + spec_zero_bytes((j + 1) as nat) =~= (multiplier_pad_at
                    + spec_zero_bytes(j as nat)).push(0u8));
            }
            j += 1;
        }
        let ghost addresses_at = out@;
        let ghost mapped = self.token_account_addresses@.map_values(|p: Pubkey| p@);
        let mut i: usize = 0;
        while i < n
            invariant
                i <= n,
                n == self.token_account_addresses@.len(),
                mapped == self.token_account_addresses@.map_values(|p: Pubkey| p@),
                out@ == addresses_at + spec_addresses_to_bytes(mapped.take(i as int)),
            decreases n - i,
        {
            let pk = self.token_account_addresses[i];
            push_pubkey(&mut out, &pk);
            proof {
                lemma_addresses_push(mapped.take(i as int), pk@);
                assert(mapped.take(i + 1) =~= mapped.take(i as int).push(pk@));
            }
            i += 1;
        }
        proof {
            assert(mapped.take(n as int) =~= mapped);
        }
        let ghost address_pad_at = out@;
        let pad2 = (PoolParameter::MAX_N_COINS - n) * 32;
        let mut j: usize = 0;
        while j < pad2
            invariant
                j <= pad2,
                out@ == address_pad_at + spec_zero_bytes(j as nat),
            decreases pad2 - j,
        {
            out.push(0);
            proof {
                assert(address_pad_at + spec_zero_bytes((j + 1) as nat) =~= (address_pad_at
                    + spec_zero_bytes(j as nat)).push(0u8));
            }
            j += 1;
        }
        push_pubkey(&mut out, &self.pool_mint_address);
        push_pubkey(&mut out, &self.admin_token_mint_address);
        out.push(bool_to_u8(self.admin_settings.swap_enabled));
        out.push(bool_to_u8(self.admin_settings.add_liquidity_enabled));
        proof {
            crate::instruction::lemma_amounts_len(self.precision_multipliers@);
            lemma_addresses_len(mapped);
            assert(out@ =~= spec_pack_v2(self@));
        }
        out
    }

    /// Encodes this record into a caller-supplied buffer of exactly
    /// [`SwapV2::LEN`] bytes, overwriting every byte: the unused per-coin
    /// slots are zero-filled, so no stale content of the buffer survives.
    pub fn pack_into_slice(&self, dst: &mut Vec<u8>)
        requires
            spec_swap_v2_wf(self@),
            old(dst)@.len() == SwapV2::LEN,
        ensures
            final(dst)@ == spec_pack_v2(self@),
    {
        let bytes = self.record_bytes();
        write_bytes(dst, 0, &bytes);
        proof {
            assert(dst@ =~= spec_pack_v2(self@));
        }
    }
}

/// The versioned pool record envelope: one version byte selects the layout
/// of the bytes that follow.
#[derive(Clone, Debug, PartialEq)]
pub enum SwapVersion {
    /// Latest version, stored under version byte 2.
    SwapV2(SwapV2),
}

/// The full encoding of a pool record: the version byte 2, then the fixed
/// 264-byte layout.
pub open spec fn spec_pack_version(v: SwapV2View) -> Seq<u8> {
    seq![2u8] + spec_pack_v2(v)
}

/// The record a versioned buffer decodes to. An empty buffer fails with
/// `InvalidAccountData`; a version byte other than 2 fails with
/// `UninitializedAccount`; so does a record whose initialized flag is false.
pub open spec fn spec_unpack_version(s: Seq<u8>) -> Result<SwapV2View, ProgramError> {
    if s.len() < 1 {
        Err(ProgramError::InvalidAccountData)
    } else if s[0] != 2 {
        Err(ProgramError::UninitializedAccount)
    } else {
        match spec_unpack_v2(s.skip(1)) {
            Err(e) => Err(e),
            Ok(v) => {
                if v.is_initialized {
                    Ok(v)
                } else {
                    Err(ProgramError::UninitializedAccount)
                }
            },
        }
    }
}

impl SwapVersion {
    /// Size of the full encoding of the latest record layout: one version
    /// byte plus the fixed layout.
    pub const LATEST_LEN: usize = 1 + SwapV2::LEN;

    /// Encodes a record, with its version byte, into a caller-supplied
    /// buffer of exactly [`SwapVersion::LATEST_LEN`] bytes. Every byte of
    /// the buffer is overwritten; the unused per-coin slots are zero-filled.
    pub fn pack(src: SwapVersion, dst: &mut Vec<u8>) -> (r: Result<(), ProgramError>)
        requires
            old(dst)@.len() == SwapVersion::LATEST_LEN,
            (src matches SwapVersion::SwapV2(v) ==> spec_swap_v2_wf(v@)),
        ensures
            r matches Ok(_),
            (src matches SwapVersion::SwapV2(v) ==> final(dst)@ == spec_pack_version(v@)),
    {
        match src {
            SwapVersion::SwapV2(swap_info) => {
                dst[0] = 2;
                let bytes = swap_info.record_bytes();
                write_bytes(dst, 1, &bytes);
                proof {
                    assert(dst@ =~= seq![2u8] + spec_pack_v2(swap_info@));
                }
                Ok(())
            },
        }
    }

    /// Decodes a versioned record buffer.
    ///
    /// The first byte must be the known version 2, else the buffer fails
    /// with `UninitializedAccount` (an empty buffer with
    /// `InvalidAccountData`); the remaining bytes must be a well-formed
    /// fixed-layout record whose initialized flag is set, else the record
    /// fails as uninitialized.
    pub fn unpack(input: &[u8]) -> (r: Result<SwapVersion, ProgramError>)
        ensures
            (match r {
                Ok(sv) => (sv matches SwapVersion::SwapV2(v) && spec_unpack_version(input@)
                    == Ok::<SwapV2View, ProgramError>(v@)),
                Err(e) => spec_unpack_version(input@) == Err::<SwapV2View, ProgramError>(e),
            }),
            r matches Ok(sv) ==> (sv matches SwapVersion::SwapV2(v) && spec_swap_v2_wf(v@)
                && v.is_initialized),
            input@.len() == 0 ==> (r matches Err(e) && e == ProgramError::InvalidAccountData),
            input@.len() >= 1 && input@[0] != 2 ==> (r matches Err(e) && e
                == ProgramError::UninitializedAccount),
    {
        if input.len() < 1 {
            return Err(ProgramError::InvalidAccountData);
        }
        let version = *slice_index_get(input, 0);
        if version != 2 {
            return Err(ProgramError::UninitializedAccount);
        }
        let rest = slice_subrange(input, 1, input.len());
        proof {
            assert(rest@ =~= input@.skip(1));
        }
        let swap_info = match SwapV2::unpack_from_slice(rest) {
            Ok(v) => v,
            Err(e) => {
                return Err(e);
            },
        };
        if swap_info.is_initialized() {
            Ok(SwapVersion::SwapV2(swap_info))
        } else {
            Err(ProgramError::UninitializedAccount)
        }
    }

    /// Reports whether a buffer holds an initialized record: attempts a full
    /// decode and collapses every failure to `false`, since an unparseable
    /// account and a not-yet-initialized one are equally safe to initialize.
    pub fn is_initialized(input: &[u8]) -> (r: bool)
        ensures
            r == (spec_unpack_version(input@) is Ok),
    {
        match Self::unpack(input) {
            Ok(swap) => match swap {
                SwapVersion::SwapV2(swapv2) => swapv2.is_initialized(),
            },
            Err(_) => false,
        }
    }
}

} // verus!
