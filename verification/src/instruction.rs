//! The tagged command protocol: commands issued by clients, their byte
//! encoding, and the builders that assemble ready-to-submit payloads.
//!
//! A command is encoded as one discriminant byte selecting the variant,
//! followed by that variant's fields in a fixed order, little-endian
//! throughout. A variable-length field is encoded as a 4-byte element count
//! immediately followed by that many 8-byte elements.

use crate::check_program_account;
use crate::error::{spec_error_code, ProgramError, SwapError};
use crate::state::AdminSettings;
use crate::Pubkey;
use crate::PROGRAM_ID_BYTES;
use crate::utils::{bool_to_u8, spec_bool_to_byte, spec_byte_to_bool, u8_to_bool};
use vstd::bytes::{
    lemma_auto_spec_u32_to_from_le_bytes, lemma_auto_spec_u64_to_from_le_bytes,
    spec_u32_from_le_bytes, spec_u32_to_le_bytes, spec_u64_from_le_bytes, spec_u64_to_le_bytes,
    u32_from_le_bytes, u32_to_le_bytes, u64_from_le_bytes, u64_to_le_bytes,
};
use vstd::prelude::*;
use vstd::slice::{slice_index_get, slice_subrange};

verus! {

/// A client-issued command of the stable swap.
#[derive(Debug, PartialEq, Clone)]
pub enum SwapInstruction {
    /// Initializes the stable swap.
    Initialize {
        /// The nonce for program address derivation.
        nonce: u8,
        /// Amplification coefficient for curve computations.
        amplification_coefficient: u64,
        /// LP fee numerator for fee curve computations.
        fee_numerator: u64,
        /// Admin fee numerator.
        admin_fee_numerator: u64,
        /// Number of coins the pool holds.
        n_coins: u8,
        /// The pool's feature flags.
        admin_settings: AdminSettings,
    },
    /// Adds liquidity to the stable swap.
    AddLiquidity {
        /// The deposit amounts, one per pool coin.
        deposit_amounts: Vec<u64>,
        /// The minimum mint amount expected by the liquidity provider.
        min_mint_amount: u64,
    },
    /// Removes liquidity from the stable swap proportionally.
    RemoveLiquidity {
        /// The amount of pool tokens to unmint.
        unmint_amount: u64,
        /// The minimum amounts expected back, one per pool coin.
        minimum_amounts: Vec<u64>,
    },
    /// Removes liquidity from the stable swap, one single token out.
    RemoveLiquidityOneToken {
        /// The amount of pool tokens to unmint.
        unmint_amount: u64,
        /// The minimum amount expected back.
        minimum_out_amount: u64,
    },
    /// Exchanges one token for another through the stable swap.
    Exchange {
        /// The amount paid in.
        in_amount: u64,
        /// The minimum amount expected out.
        minimum_out_amount: u64,
    },
    /// Reads the pool's virtual price.
    GetVirtualPrice {},
}

/// The mathematical value of a command: the same variants, with every
/// vector abstracted to a sequence.
pub enum SwapInstructionView {
    /// Initializes the stable swap.
    Initialize {
        /// The nonce for program address derivation.
        nonce: u8,
        /// Amplification coefficient for curve computations.
        amplification_coefficient: u64,
        /// LP fee numerator for fee curve computations.
        fee_numerator: u64,
        /// Admin fee numerator.
        admin_fee_numerator: u64,
        /// Number of coins the pool holds.
        n_coins: u8,
        /// The pool's feature flags.
        admin_settings: AdminSettings,
    },
    /// Adds liquidity to the stable swap.
    AddLiquidity {
        /// The deposit amounts, one per pool coin.
        deposit_amounts: Seq<u64>,
        /// The minimum mint amount expected by the liquidity provider.
        min_mint_amount: u64,
    },
    /// Removes liquidity from the stable swap proportionally.
    RemoveLiquidity {
        /// The amount of pool tokens to unmint.
        unmint_amount: u64,
        /// The minimum amounts expected back, one per pool coin.
        minimum_amounts: Seq<u64>,
    },
    /// Removes liquidity from the stable swap, one single token out.
    RemoveLiquidityOneToken {
        /// The amount of pool tokens to unmint.
        unmint_amount: u64,
        /// The minimum amount expected back.
        minimum_out_amount: u64,
    },
    /// Exchanges one token for another through the stable swap.
    Exchange {
        /// The amount paid in.
        in_amount: u64,
        /// The minimum amount expected out.
        minimum_out_amount: u64,
    },
    /// Reads the pool's virtual price.
    GetVirtualPrice,
}

impl View for SwapInstruction {
    type V = SwapInstructionView;

    open spec fn view(&self) -> SwapInstructionView {
        match self {
            SwapInstruction::Initialize {
                nonce,
                amplification_coefficient,
                fee_numerator,
                admin_fee_numerator,
                n_coins,
                admin_settings,
            } => SwapInstructionView::Initialize {
                nonce: *nonce,
                amplification_coefficient: *amplification_coefficient,
                fee_numerator: *fee_numerator,
                admin_fee_numerator: *admin_fee_numerator,
                n_coins: *n_coins,
                admin_settings: *admin_settings,
            },
            SwapInstruction::AddLiquidity { deposit_amounts, min_mint_amount } => {
                SwapInstructionView::AddLiquidity {
                    deposit_amounts: deposit_amounts@,
                    min_mint_amount: *min_mint_amount,
                }
            },
            SwapInstruction::RemoveLiquidity { unmint_amount, minimum_amounts } => {
                SwapInstructionView::RemoveLiquidity {
                    unmint_amount: *unmint_amount,
                    minimum_amounts: minimum_amounts@,
                }
            },
            SwapInstruction::RemoveLiquidityOneToken { unmint_amount, minimum_out_amount } => {
                SwapInstructionView::RemoveLiquidityOneToken {
                    unmint_amount: *unmint_amount,
                    minimum_out_amount: *minimum_out_amount,
                }
            },
            SwapInstruction::Exchange { in_amount, minimum_out_amount } => {
                SwapInstructionView::Exchange {
                    in_amount: *in_amount,
                    minimum_out_amount: *minimum_out_amount,
                }
            },
            SwapInstruction::GetVirtualPrice {  } => SwapInstructionView::GetVirtualPrice,
        }
    }
}

/// A command value the wire format can carry: the element count of a
/// variable-length field must fit in its 4-byte encoding.
pub open spec fn spec_instruction_wf(c: SwapInstructionView) -> bool {
    match c {
        SwapInstructionView::AddLiquidity { deposit_amounts, .. } => deposit_amounts.len()
            <= u32::MAX,
        SwapInstructionView::RemoveLiquidity { minimum_amounts, .. } => minimum_amounts.len()
            <= u32::MAX,
        _ => true,
    }
}

/// The malformed-command error: `InvalidInstruction`, carried as its numeric
/// code.
pub open spec fn spec_invalid_instruction() -> ProgramError {
    ProgramError::Custom(spec_error_code(SwapError::InvalidInstruction))
}

/// The concatenated little-endian encodings of a sequence of 8-byte amounts.
pub open spec fn spec_amounts_to_le_bytes(s: Seq<u64>) -> Seq<u8>
    decreases s.len(),
{
    if s.len() == 0 {
        Seq::empty()
    } else {
        spec_u64_to_le_bytes(s[0]) + spec_amounts_to_le_bytes(s.skip(1))
    }
}

/// An amount sequence encodes to 8 bytes per element.
pub proof fn lemma_amounts_len(s: Seq<u64>)
    ensures
        spec_amounts_to_le_bytes(s).len() == 8 * s.len(),
    decreases s.len(),
{
    lemma_auto_spec_u64_to_from_le_bytes();
    if s.len() > 0 {
        lemma_amounts_len(s.skip(1));
    }
}

/// Element `i` of an amount sequence occupies bytes `8*i .. 8*i + 8` of its
/// encoding.
pub proof fn lemma_amounts_index(s: Seq<u64>, i: int)
    requires
        0 <= i < s.len(),
    ensures
        spec_amounts_to_le_bytes(s).subrange(8 * i, 8 * i + 8) == spec_u64_to_le_bytes(s[i]),
    decreases s.len(),
{
    lemma_auto_spec_u64_to_from_le_bytes();
    lemma_amounts_len(s);
    lemma_amounts_len(s.skip(1));
    if i == 0 {
        assert(spec_amounts_to_le_bytes(s).subrange(0, 8) =~= spec_u64_to_le_bytes(s[0]));
    } else {
        lemma_amounts_index(s.skip(1), i - 1);
        assert(spec_amounts_to_le_bytes(s).subrange(8 * i, 8 * i + 8) =~= spec_amounts_to_le_bytes(
            s.skip(1),
        ).subrange(8 * (i - 1), 8 * (i - 1) + 8));
    }
}

/// Appending one amount appends its 8-byte encoding.
pub proof fn lemma_amounts_push(s: Seq<u64>, x: u64)
    ensures
        spec_amounts_to_le_bytes(s.push(x)) == spec_amounts_to_le_bytes(s) + spec_u64_to_le_bytes(
            x,
        ),
    decreases s.len(),
{
    lemma_auto_spec_u64_to_from_le_bytes();
    if s.len() == 0 {
        assert(s.push(x).skip(1) =~= Seq::<u64>::empty());
        assert(s =~= Seq::<u64>::empty());
        assert(s.push(x)[0] == x);
        assert(spec_amounts_to_le_bytes(Seq::<u64>::empty()) == Seq::<u8>::empty());
        assert(spec_amounts_to_le_bytes(s.push(x)) == spec_u64_to_le_bytes(x)
            + spec_amounts_to_le_bytes(Seq::<u64>::empty()));
        assert(spec_amounts_to_le_bytes(s.push(x)) =~= spec_amounts_to_le_bytes(s)
            + spec_u64_to_le_bytes(x));
    } else {
        lemma_amounts_push(s.skip(1), x);
        lemma_amounts_len(s.skip(1));
        assert(s.push(x).skip(1) =~= s.skip(1).push(x));
        assert(s.push(x)[0] == s[0]);
        assert(spec_amounts_to_le_bytes(s.push(x)) == spec_u64_to_le_bytes(s[0])
            + spec_amounts_to_le_bytes(s.skip(1).push(x)));
        assert(spec_amounts_to_le_bytes(s.push(x)) == spec_u64_to_le_bytes(s[0]) + (
        spec_amounts_to_le_bytes(s.skip(1)) + spec_u64_to_le_bytes(x)));
        assert(spec_amounts_to_le_bytes(s.push(x)) =~= spec_amounts_to_le_bytes(s)
            + spec_u64_to_le_bytes(x));
    }
}

/// The byte encoding of a command: the discriminant byte, then the variant's
/// fields in order.
pub open spec fn spec_pack_instruction(c: SwapInstructionView) -> Seq<u8> {
    match c {
        SwapInstructionView::Initialize {
            nonce,
            amplification_coefficient,
            fee_numerator,
            admin_fee_numerator,
            n_coins,
            admin_settings,
        } => seq![0u8, nonce, n_coins] + spec_u64_to_le_bytes(amplification_coefficient)
            + spec_u64_to_le_bytes(fee_numerator) + spec_u64_to_le_bytes(admin_fee_numerator)
            + seq![
            spec_bool_to_byte(admin_settings.swap_enabled),
            spec_bool_to_byte(admin_settings.add_liquidity_enabled),
        ],
        SwapInstructionView::AddLiquidity { deposit_amounts, min_mint_amount } => seq![1u8]
            + spec_u32_to_le_bytes(deposit_amounts.len() as u32) + spec_amounts_to_le_bytes(
            deposit_amounts,
        ) + spec_u64_to_le_bytes(min_mint_amount),
        SwapInstructionView::RemoveLiquidity { unmint_amount, minimum_amounts } => seq![2u8]
            + spec_u64_to_le_bytes(unmint_amount) + spec_u32_to_le_bytes(
            minimum_amounts.len() as u32,
        ) + spec_amounts_to_le_bytes(minimum_amounts),
        SwapInstructionView::RemoveLiquidityOneToken { unmint_amount, minimum_out_amount } => seq![
            3u8,
        ] + spec_u64_to_le_bytes(unmint_amount) + spec_u64_to_le_bytes(minimum_out_amount),
        SwapInstructionView::Exchange { in_amount, minimum_out_amount } => seq![4u8]
            + spec_u64_to_le_bytes(in_amount) + spec_u64_to_le_bytes(minimum_out_amount),
        SwapInstructionView::GetVirtualPrice => seq![5u8],
    }
}

/// Decoding of an `Initialize` payload (the bytes after the discriminant).
pub open spec fn spec_unpack_initialize(r: Seq<u8>) -> Result<SwapInstructionView, ProgramError> {
    if r.len() < 28 {
        Err(spec_invalid_instruction())
    } else {
        match spec_byte_to_bool(r[26]) {
            Err(e) => Err(e),
            Ok(swap_enabled) => match spec_byte_to_bool(r[27]) {
                Err(e) => Err(e),
                Ok(add_liquidity_enabled) => Ok(
                    SwapInstructionView::Initialize {
                        nonce: r[0],
                        n_coins: r[1],
                        amplification_coefficient: spec_u64_from_le_bytes(r.subrange(2, 10)),
                        fee_numerator: spec_u64_from_le_bytes(r.subrange(10, 18)),
                        admin_fee_numerator: spec_u64_from_le_bytes(r.subrange(18, 26)),
                        admin_settings: AdminSettings { swap_enabled, add_liquidity_enabled },
                    },
                ),
            },
        }
    }
}

/// Decoding of an `AddLiquidity` payload (the bytes after the discriminant).
pub open spec fn spec_unpack_add_liquidity(r: Seq<u8>) -> Result<
    SwapInstructionView,
    ProgramError,
> {
    if r.len() < 4 {
        Err(spec_invalid_instruction())
    } else {
        let count = spec_u32_from_le_bytes(r.subrange(0, 4)) as int;
        let body = r.skip(4);
        if body.len() < count * 8 + 8 {
            Err(spec_invalid_instruction())
        } else {
            Ok(
                SwapInstructionView::AddLiquidity {
                    deposit_amounts: Seq::new(
                        count as nat,
                        |i: int| spec_u64_from_le_bytes(body.subrange(8 * i, 8 * i + 8)),
                    ),
                    min_mint_amount: spec_u64_from_le_bytes(
                        body.subrange(8 * count, 8 * count + 8),
                    ),
                },
            )
        }
    }
}

/// Decoding of a `RemoveLiquidity` payload (the bytes after the
/// discriminant).
pub open spec fn spec_unpack_remove_liquidity(r: Seq<u8>) -> Result<
    SwapInstructionView,
    ProgramError,
> {
    if r.len() < 8 {
        Err(spec_invalid_instruction())
    } else {
        let unmint_amount = spec_u64_from_le_bytes(r.subrange(0, 8));
        let r2 = r.skip(8);
        if r2.len() < 4 {
            Err(spec_invalid_instruction())
        } else {
            let count = spec_u32_from_le_bytes(r2.subrange(0, 4)) as int;
            let body = r2.skip(4);
            if body.len() < count * 8 {
                Err(spec_invalid_instruction())
            } else {
                Ok(
                    SwapInstructionView::RemoveLiquidity {
                        unmint_amount,
                        minimum_amounts: Seq::new(
                            count as nat,
                            |i: int| spec_u64_from_le_bytes(body.subrange(8 * i, 8 * i + 8)),
                        ),
                    },
                )
            }
        }
    }
}

/// Decoding of a `RemoveLiquidityOneToken` payload.
pub open spec fn spec_unpack_remove_liquidity_one_token(r: Seq<u8>) -> Result<
    SwapInstructionView,
    ProgramError,
> {
    if r.len() < 16 {
        Err(spec_invalid_instruction())
    } else {
        Ok(
            SwapInstructionView::RemoveLiquidityOneToken {
                unmint_amount: spec_u64_from_le_bytes(r.subrange(0, 8)),
                minimum_out_amount: spec_u64_from_le_bytes(r.subrange(8, 16)),
            },
        )
    }
}

/// Decoding of an `Exchange` payload.
pub open spec fn spec_unpack_exchange(r: Seq<u8>) -> Result<SwapInstructionView, ProgramError> {
    if r.len() < 16 {
        Err(spec_invalid_instruction())
    } else {
        Ok(
            SwapInstructionView::Exchange {
                in_amount: spec_u64_from_le_bytes(r.subrange(0, 8)),
                minimum_out_amount: spec_u64_from_le_bytes(r.subrange(8, 16)),
            },
        )
    }
}

/// The command a byte buffer decodes to: one discriminant byte selects the
/// variant, whose fields follow in fixed order. An empty buffer and a
/// truncated payload fail with `InvalidInstruction`; a discriminant outside
/// 0 through 5 and an invalid boolean byte fail with `InvalidAccountData`.
/// Bytes past the variant's payload are ignored.
pub open spec fn spec_unpack_instruction(s: Seq<u8>) -> Result<SwapInstructionView, ProgramError> {
    if s.len() < 1 {
        Err(spec_invalid_instruction())
    } else {
        let rest = s.skip(1);
        if s[0] == 0 {
            spec_unpack_initialize(rest)
        } else if s[0] == 1 {
            spec_unpack_add_liquidity(rest)
        } else if s[0] == 2 {
            spec_unpack_remove_liquidity(rest)
        } else if s[0] == 3 {
            spec_unpack_remove_liquidity_one_token(rest)
        } else if s[0] == 4 {
            spec_unpack_exchange(rest)
        } else if s[0] == 5 {
            Ok(SwapInstructionView::GetVirtualPrice)
        } else {
            Err(ProgramError::InvalidAccountData)
        }
    }
}

/// Decoding the encoded amounts of a vector field recovers the vector: if a
/// buffer starts with the concatenated encodings of `d`, reading an 8-byte
/// integer at each slot yields `d` again.
proof fn lemma_amounts_round_trip(d: Seq<u64>, body: Seq<u8>)
    requires
        8 * d.len() <= body.len(),
        body.subrange(0, 8 * d.len() as int) == spec_amounts_to_le_bytes(d),
    ensures
        Seq::new(d.len(), |i: int| spec_u64_from_le_bytes(body.subrange(8 * i, 8 * i + 8))) == d,
{
    lemma_auto_spec_u64_to_from_le_bytes();
    lemma_amounts_len(d);
    assert forall|i: int| 0 <= i < d.len() implies spec_u64_from_le_bytes(
        body.subrange(8 * i, 8 * i + 8),
    ) == d[i] by {
        lemma_amounts_index(d, i);
        assert(body.subrange(8 * i, 8 * i + 8) =~= body.subrange(
            0,
            8 * d.len() as int,
        ).subrange(8 * i, 8 * i + 8));
    };
    assert(Seq::new(d.len(), |i: int| spec_u64_from_le_bytes(body.subrange(8 * i, 8 * i + 8)))
        =~= d);
}

/// Round trip of the command codec: every wire-representable command value
/// decodes from its own encoding, exactly.
pub proof fn lemma_instruction_round_trip(c: SwapInstructionView)
    requires
        spec_instruction_wf(c),
    ensures
        spec_unpack_instruction(spec_pack_instruction(c)) == Ok::<
            SwapInstructionView,
            ProgramError,
        >(c),
{
    lemma_auto_spec_u64_to_from_le_bytes();
    lemma_auto_spec_u32_to_from_le_bytes();
    let s = spec_pack_instruction(c);
    match c {
        SwapInstructionView::Initialize {
            nonce,
            amplification_coefficient,
            fee_numerator,
            admin_fee_numerator,
            n_coins,
            admin_settings,
        } => {
            let rest = s.skip(1);
            assert(rest.len() == 28);
            assert(rest[0] == nonce);
            assert(rest[1] == n_coins);
            assert(rest.subrange(2, 10) =~= spec_u64_to_le_bytes(amplification_coefficient));
            assert(rest.subrange(10, 18) =~= spec_u64_to_le_bytes(fee_numerator));
            assert(rest.subrange(18, 26) =~= spec_u64_to_le_bytes(admin_fee_numerator));
            assert(rest[26] == spec_bool_to_byte(admin_settings.swap_enabled));
            assert(rest[27] == spec_bool_to_byte(admin_settings.add_liquidity_enabled));
        },
        SwapInstructionView::AddLiquidity { deposit_amounts, min_mint_amount } => {
            lemma_amounts_len(deposit_amounts);
            let len = deposit_amounts.len() as int;
            let rest = s.skip(1);
            assert(rest.len() == 4 + 8 * len + 8);
            assert(rest.subrange(0, 4) =~= spec_u32_to_le_bytes(deposit_amounts.len() as u32));
            let body = rest.skip(4);
            assert(spec_u32_from_le_bytes(rest.subrange(0, 4)) == len);
            assert(body.subrange(0, 8 * len) =~= spec_amounts_to_le_bytes(deposit_amounts));
            lemma_amounts_round_trip(deposit_amounts, body);
            assert(body.subrange(8 * len, 8 * len + 8) =~= spec_u64_to_le_bytes(min_mint_amount));
        },
        SwapInstructionView::RemoveLiquidity { unmint_amount, minimum_amounts } => {
            lemma_amounts_len(minimum_amounts);
            let len = minimum_amounts.len() as int;
            let rest = s.skip(1);
            assert(rest.len() == 8 + 4 + 8 * len);
            assert(rest.subrange(0, 8) =~= spec_u64_to_le_bytes(unmint_amount));
            let r2 = rest.skip(8);
            assert(r2.subrange(0, 4) =~= spec_u32_to_le_bytes(minimum_amounts.len() as u32));
            let body = r2.skip(4);
            assert(spec_u32_from_le_bytes(r2.subrange(0, 4)) == len);
            assert(body.subrange(0, 8 * len) =~= spec_amounts_to_le_bytes(minimum_amounts));
            lemma_amounts_round_trip(minimum_amounts, body);
        },
        SwapInstructionView::RemoveLiquidityOneToken { unmint_amount, minimum_out_amount } => {
            let rest = s.skip(1);
            assert(rest.subrange(0, 8) =~= spec_u64_to_le_bytes(unmint_amount));
            assert(rest.subrange(8, 16) =~= spec_u64_to_le_bytes(minimum_out_amount));
        },
        SwapInstructionView::Exchange { in_amount, minimum_out_amount } => {
            let rest = s.skip(1);
            assert(rest.subrange(0, 8) =~= spec_u64_to_le_bytes(in_amount));
            assert(rest.subrange(8, 16) =~= spec_u64_to_le_bytes(minimum_out_amount));
        },
        SwapInstructionView::GetVirtualPrice => {
        },
    }
}

/// Truncation rejection: decoding any strict prefix of a valid encoded
/// command fails with the malformed-command error, for every variant.
pub proof fn lemma_instruction_truncation(c: SwapInstructionView, k: int)
    requires
        spec_instruction_wf(c),
        0 <= k < spec_pack_instruction(c).len(),
    ensures
        spec_unpack_instruction(spec_pack_instruction(c).take(k)) == Err::<
            SwapInstructionView,
            ProgramError,
        >(spec_invalid_instruction()),
{
    lemma_auto_spec_u64_to_from_le_bytes();
    lemma_auto_spec_u32_to_from_le_bytes();
    let s = spec_pack_instruction(c);
    let t = s.take(k);
    if k == 0 {
        return ;
    }
    assert(t[0] == s[0]);
    let rest = t.skip(1);
    match c {
        SwapInstructionView::Initialize { .. } => {
            assert(s.len() == 29);
            assert(rest.len() < 28);
        },
        SwapInstructionView::AddLiquidity { deposit_amounts, min_mint_amount } => {
            lemma_amounts_len(deposit_amounts);
            let len = deposit_amounts.len() as int;
            assert(s.len() == 1 + 4 + 8 * len + 8);
            if rest.len() >= 4 {
                assert(rest.subrange(0, 4) =~= s.skip(1).subrange(0, 4));
                assert(s.skip(1).subrange(0, 4) =~= spec_u32_to_le_bytes(
                    deposit_amounts.len() as u32,
                ));
                assert(spec_u32_from_le_bytes(rest.subrange(0, 4)) == len);
                assert(rest.skip(4).len() < len * 8 + 8);
            }
        },
        SwapInstructionView::RemoveLiquidity { unmint_amount, minimum_amounts } => {
            lemma_amounts_len(minimum_amounts);
            let len = minimum_amounts.len() as int;
            assert(s.len() == 1 + 8 + 4 + 8 * len);
            if rest.len() >= 8 {
                let r2 = rest.skip(8);
                if r2.len() >= 4 {
                    assert(r2.subrange(0, 4) =~= s.skip(1).skip(8).subrange(0, 4));
                    assert(s.skip(1).skip(8).subrange(0, 4) =~= spec_u32_to_le_bytes(
                        minimum_amounts.len() as u32,
                    ));
                    assert(spec_u32_from_le_bytes(r2.subrange(0, 4)) == len);
                    assert(r2.skip(4).len() < len * 8);
                }
            }
        },
        SwapInstructionView::RemoveLiquidityOneToken { .. } => {
            assert(s.len() == 17);
            assert(rest.len() < 16);
        },
        SwapInstructionView::Exchange { .. } => {
            assert(s.len() == 17);
            assert(rest.len() < 16);
        },
        SwapInstructionView::GetVirtualPrice => {
            assert(s.len() == 1);
        },
    }
}

/// Boolean validation: a buffer that selects `Initialize` and is long enough
/// to decode, but holds a byte other than 0 or 1 in either boolean position,
/// is rejected with `InvalidAccountData`.
pub proof fn lemma_instruction_bool_validation(s: Seq<u8>)
    requires
        s.len() >= 29,
        s[0] == 0,
        !(s[27] == 0 || s[27] == 1) || !(s[28] == 0 || s[28] == 1),
    ensures
        spec_unpack_instruction(s) == Err::<SwapInstructionView, ProgramError>(
            ProgramError::InvalidAccountData,
        ),
{
    let rest = s.skip(1);
    assert(rest[26] == s[27]);
    assert(rest[27] == s[28]);
}

/// The malformed-command error as a runtime value.
fn invalid_instruction_error() -> (r: ProgramError)
    ensures
        r == spec_invalid_instruction(),
{
    ProgramError::from(SwapError::InvalidInstruction)
}

impl SwapInstruction {
    /// Reads one byte, returning it and the bytes after it.
    fn unpack_u8(input: &[u8]) -> (r: Result<(u8, &[u8]), ProgramError>)
        ensures
            input@.len() >= 1 ==> (r matches Ok(p) && p.0 == input@[0] && p.1@ == input@.skip(1)),
            input@.len() < 1 ==> (r matches Err(e) && e == spec_invalid_instruction()),
    {
        if input.len() >= 1 {
            let b = *slice_index_get(input, 0);
            let rest = slice_subrange(input, 1, input.len());
            proof {
                assert(rest@ =~= input@.skip(1));
            }
            Ok((b, rest))
        } else {
            Err(invalid_instruction_error())
        }
    }

    /// Reads one little-endian 4-byte integer, returning it and the bytes
    /// after it.
    fn unpack_u32(input: &[u8]) -> (r: Result<(u32, &[u8]), ProgramError>)
        ensures
            input@.len() >= 4 ==> (r matches Ok(p) && p.0 == spec_u32_from_le_bytes(
                input@.subrange(0, 4),
            ) && p.1@ == input@.skip(4)),
            input@.len() < 4 ==> (r matches Err(e) && e == spec_invalid_instruction()),
    {
        if input.len() >= 4 {
            let v = u32_from_le_bytes(slice_subrange(input, 0, 4));
            let rest = slice_subrange(input, 4, input.len());
            proof {
                assert(rest@ =~= input@.skip(4));
            }
            Ok((v, rest))
        } else {
            Err(invalid_instruction_error())
        }
    }

    /// Reads one little-endian 8-byte integer, returning it and the bytes
    /// after it.
    fn unpack_u64(input: &[u8]) -> (r: Result<(u64, &[u8]), ProgramError>)
        ensures
            input@.len() >= 8 ==> (r matches Ok(p) && p.0 == spec_u64_from_le_bytes(
                input@.subrange(0, 8),
            ) && p.1@ == input@.skip(8)),
            input@.len() < 8 ==> (r matches Err(e) && e == spec_invalid_instruction()),
    {
        if input.len() >= 8 {
            let v = u64_from_le_bytes(slice_subrange(input, 0, 8));
            let rest = slice_subrange(input, 8, input.len());
            proof {
                assert(rest@ =~= input@.skip(8));
            }
            Ok((v, rest))
        } else {
            Err(invalid_instruction_error())
        }
    }

    /// Unpacks a byte buffer into a command.
    ///
    /// The first byte selects the variant; the variant's fields follow in a
    /// fixed order. An empty buffer or a truncated payload fails with the
    /// `InvalidInstruction` code; a discriminant outside 0 through 5 and a
    /// boolean byte other than 0 or 1 fail with `InvalidAccountData`. Bytes
    /// past the selected variant's payload are ignored.
    pub fn unpack(input: &[u8]) -> (r: Result<SwapInstruction, ProgramError>)
        ensures
            (match r {
                Ok(c) => spec_unpack_instruction(input@) == Ok::<
                    SwapInstructionView,
                    ProgramError,
                >(c@),
                Err(e) => spec_unpack_instruction(input@) == Err::<
                    SwapInstructionView,
                    ProgramError,
                >(e),
            }),
            r matches Ok(c) ==> spec_instruction_wf(c@),
            input@.len() == 0 ==> (r matches Err(e) && e == spec_invalid_instruction()),
            input@.len() > 0 && input@[0] > 5 ==> (r matches Err(e) && e
                == ProgramError::InvalidAccountData),
    {
        let (tag, rest) = match Self::unpack_u8(input) {
            Ok(p) => p,
            Err(e) => {
                return Err(e);
            },
        };
        match tag {
            0 => {
                let (nonce, r1) = match Self::unpack_u8(rest) {
                    Ok(p) => p,
                    Err(e) => {
                        return Err(e);
                    },
                };
                let (n_coins, r2) = match Self::unpack_u8(r1) {
                    Ok(p) => p,
                    Err(e) => {
                        return Err(e);
                    },
                };
                let (amplification_coefficient, r3) = match Self::unpack_u64(r2) {
                    Ok(p) => p,
                    Err(e) => {
                        return Err(e);
                    },
                };
                let (fee_numerator, r4) = match Self::unpack_u64(r3) {
                    Ok(p) => p,
                    Err(e) => {
                        return Err(e);
                    },
                };
                let (admin_fee_numerator, r5) = match Self::unpack_u64(r4) {
                    Ok(p) => p,
                    Err(e) => {
                        return Err(e);
                    },
                };
                let (swap_byte, r6) = match Self::unpack_u8(r5) {
                    Ok(p) => p,
                    Err(e) => {
                        return Err(e);
                    },
                };
                let (add_liquidity_byte, _r7) = match Self::unpack_u8(r6) {
                    Ok(p) => p,
                    Err(e) => {
                        return Err(e);
                    },
                };
                proof {
                    assert(rest@.subrange(2, 10) =~= r2@.subrange(0, 8));
                    assert(rest@.subrange(10, 18) =~= r3@.subrange(0, 8));
                    assert(rest@.subrange(18, 26) =~= r4@.subrange(0, 8));
                    assert(rest@[26] == r5@[0]);
                    assert(rest@[27] == r6@[0]);
                }
                let swap_enabled = match u8_to_bool(swap_byte) {
                    Ok(b) => b,
                    Err(e) => {
                        return Err(e);
                    },
                };
                let add_liquidity_enabled = match u8_to_bool(add_liquidity_byte) {
                    Ok(b) => b,
                    Err(e) => {
                        return Err(e);
                    },
                };
                Ok(
                    SwapInstruction::Initialize {
                        nonce,
                        n_coins,
                        amplification_coefficient,
                        fee_numerator,
                        admin_fee_numerator,
                        admin_settings: AdminSettings { swap_enabled, add_liquidity_enabled },
                    },
                )
            },
            1 => {
                let (count, body) = match Self::unpack_u32(rest) {
                    Ok(p) => p,
                    Err(e) => {
                        return Err(e);
                    },
                };
                let blen = body.len();
                if (blen as u64) < (count as u64) * 8 + 8 {
                    return Err(invalid_instruction_error());
                }
                let n = count as usize;
                let mut deposit_amounts: Vec<u64> = Vec::new();
                proof {
                    assert(deposit_amounts@ =~= Seq::new(
                        0nat,
                        |j: int| spec_u64_from_le_bytes(body@.subrange(8 * j, 8 * j + 8)),
                    ));
                }
                let mut i: usize = 0;
                while i < n
                    invariant
                        i <= n,
                        blen == body@.len(),
                        n * 8 + 8 <= blen,
                        deposit_amounts@ == Seq::new(
                            i as nat,
                            |j: int| spec_u64_from_le_bytes(body@.subrange(8 * j, 8 * j + 8)),
                        ),
                    decreases n - i,
                {
                    let amount = u64_from_le_bytes(slice_subrange(body, i * 8, i * 8 + 8));
                    deposit_amounts.push(amount);
                    proof {
                        assert(deposit_amounts@ =~= Seq::new(
                            (i + 1) as nat,
                            |j: int| spec_u64_from_le_bytes(body@.subrange(8 * j, 8 * j + 8)),
                        ));
                    }
                    i += 1;
                }
                let min_mint_amount = u64_from_le_bytes(slice_subrange(body, n * 8, n * 8 + 8));
                Ok(SwapInstruction::AddLiquidity { deposit_amounts, min_mint_amount })
            },
            2 => {
                let (unmint_amount, r1) = match Self::unpack_u64(rest) {
                    Ok(p) => p,
                    Err(e) => {
                        return Err(e);
                    },
                };
                let (count, body) = match Self::unpack_u32(r1) {
                    Ok(p) => p,
                    Err(e) => {
                        return Err(e);
                    },
                };
                let blen = body.len();
                if (blen as u64) < (count as u64) * 8 {
                    return Err(invalid_instruction_error());
                }
                let n = count as usize;
                let mut minimum_amounts: Vec<u64> = Vec::new();
                proof {
                    assert(minimum_amounts@ =~= Seq::new(
                        0nat,
                        |j: int| spec_u64_from_le_bytes(body@.subrange(8 * j, 8 * j + 8)),
                    ));
                }
                let mut i: usize = 0;
                while i < n
                    invariant
                        i <= n,
                        blen == body@.len(),
                        n * 8 <= blen,
                        minimum_amounts@ == Seq::new(
                            i as nat,
                            |j: int| spec_u64_from_le_bytes(body@.subrange(8 * j, 8 * j + 8)),
                        ),
                    decreases n - i,
                {
                    let amount = u64_from_le_bytes(slice_subrange(body, i * 8, i * 8 + 8));
                    minimum_amounts.push(amount);
                    proof {
                        assert(minimum_amounts@ =~= Seq::new(
                            (i + 1) as nat,
                            |j: int| spec_u64_from_le_bytes(body@.subrange(8 * j, 8 * j + 8)),
                        ));
                    }
                    i += 1;
                }
                Ok(SwapInstruction::RemoveLiquidity { unmint_amount, minimum_amounts })
            },
            3 => {
                let (unmint_amount, r1) = match Self::unpack_u64(rest) {
                    Ok(p) => p,
                    Err(e) => {
                        return Err(e);
                    },
                };
                let (minimum_out_amount, _r2) = match Self::unpack_u64(r1) {
                    Ok(p) => p,
                    Err(e) => {
                        return Err(e);
                    },
                };
                proof {
                    assert(rest@.subrange(8, 16) =~= r1@.subrange(0, 8));
                }
                Ok(SwapInstruction::RemoveLiquidityOneToken { unmint_amount, minimum_out_amount })
            },
            4 => {
                let (in_amount, r1) = match Self::unpack_u64(rest) {
                    Ok(p) => p,
                    Err(e) => {
                        return Err(e);
                    },
                };
                let (minimum_out_amount, _r2) = match Self::unpack_u64(r1) {
                    Ok(p) => p,
                    Err(e) => {
                        return Err(e);
                    },
                };
                proof {
                    assert(rest@.subrange(8, 16) =~= r1@.subrange(0, 8));
                }
                Ok(SwapInstruction::Exchange { in_amount, minimum_out_amount })
            },
            5 => Ok(SwapInstruction::GetVirtualPrice {  }),
            _ => Err(ProgramError::InvalidAccountData),
        }
    }

    /// Packs a command into a byte buffer: the discriminant byte, then the
    /// variant's fields in order, little-endian throughout.
    pub fn pack(&self) -> (r: Vec<u8>)
        requires
            spec_instruction_wf(self@),
        ensures
            r@ == spec_pack_instruction(self@),
    {
        proof {
            lemma_auto_spec_u64_to_from_le_bytes();
            lemma_auto_spec_u32_to_from_le_bytes();
        }
        let mut buf: Vec<u8> = Vec::new();
        match self {
            SwapInstruction::Initialize {
                nonce,
                amplification_coefficient,
                fee_numerator,
                admin_fee_numerator,
                n_coins,
                admin_settings,
            } => {
                buf.push(0);
                buf.push(*nonce);
                buf.push(*n_coins);
                let mut amp = u64_to_le_bytes(*amplification_coefficient);
                buf.append(&mut amp);
                let mut fee = u64_to_le_bytes(*fee_numerator);
                buf.append(&mut fee);
                let mut admin_fee = u64_to_le_bytes(*admin_fee_numerator);
                buf.append(&mut admin_fee);
                buf.push(bool_to_u8(admin_settings.swap_enabled));
                buf.push(bool_to_u8(admin_settings.add_liquidity_enabled));
                proof {
                    assert(buf@ =~= spec_pack_instruction(self@));
                }
            },
            SwapInstruction::AddLiquidity { deposit_amounts, min_mint_amount } => {
                buf.push(1);
                let mut count = u32_to_le_bytes(deposit_amounts.len() as u32);
                buf.append(&mut count);
                let ghost prefix = buf@;
                let mut i: usize = 0;
                while i < deposit_amounts.len()
                    invariant
                        i <= deposit_amounts.len(),
                        buf@ == prefix + spec_amounts_to_le_bytes(deposit_amounts@.take(i as int)),
                    decreases deposit_amounts.len() - i,
                {
                    let mut amount = u64_to_le_bytes(deposit_amounts[i]);
                    buf.append(&mut amount);
                    proof {
                        lemma_amounts_push(deposit_amounts@.take(i as int), deposit_amounts@[i as int]);
                        assert(deposit_amounts@.take(i + 1) =~= deposit_amounts@.take(
                            i as int,
                        ).push(deposit_amounts@[i as int]));
                    }
                    i += 1;
                }
                let mut min = u64_to_le_bytes(*min_mint_amount);
                buf.append(&mut min);
                proof {
                    assert(deposit_amounts@.take(deposit_amounts@.len() as int)
                        =~= deposit_amounts@);
                    assert(buf@ =~= spec_pack_instruction(self@));
                }
            },
            SwapInstruction::RemoveLiquidity { unmint_amount, minimum_amounts } => {
                buf.push(2);
                let mut unmint = u64_to_le_bytes(*unmint_amount);
                buf.append(&mut unmint);
                let mut count = u32_to_le_bytes(minimum_amounts.len() as u32);
                buf.append(&mut count);
                let ghost prefix = buf@;
                let mut i: usize = 0;
                while i < minimum_amounts.len()
                    invariant
                        i <= minimum_amounts.len(),
                        buf@ == prefix + spec_amounts_to_le_bytes(minimum_amounts@.take(i as int)),
                    decreases minimum_amounts.len() - i,
                {
                    let mut amount = u64_to_le_bytes(minimum_amounts[i]);
                    buf.append(&mut amount);
                    proof {
                        lemma_amounts_push(minimum_amounts@.take(i as int), minimum_amounts@[i as int]);
                        assert(minimum_amounts@.take(i + 1) =~= minimum_amounts@.take(
                            i as int,
                        ).push(minimum_amounts@[i as int]));
                    }
                    i += 1;
                }
                proof {
                    assert(minimum_amounts@.take(minimum_amounts@.len() as int)
                        =~= minimum_amounts@);
                    assert(buf@ =~= spec_pack_instruction(self@));
                }
            },
            SwapInstruction::RemoveLiquidityOneToken { unmint_amount, minimum_out_amount } => {
                buf.push(3);
                let mut unmint = u64_to_le_bytes(*unmint_amount);
                buf.append(&mut unmint);
                let mut min_out = u64_to_le_bytes(*minimum_out_amount);
                buf.append(&mut min_out);
                proof {
                    assert(buf@ =~= spec_pack_instruction(self@));
                }
            },
            SwapInstruction::Exchange { in_amount, minimum_out_amount } => {
                buf.push(4);
                let mut amount_in = u64_to_le_bytes(*in_amount);
                buf.append(&mut amount_in);
                let mut min_out = u64_to_le_bytes(*minimum_out_amount);
                buf.append(&mut min_out);
                proof {
                    assert(buf@ =~= spec_pack_instruction(self@));
                }
            },
            SwapInstruction::GetVirtualPrice {  } => {
                buf.push(5);
                proof {
                    assert(buf@ =~= spec_pack_instruction(self@));
                }
            },
        }
        buf
    }
}

/// One participant account of a command, with its access mode.
#[derive(Clone, Copy, Debug, PartialEq, Eq)]
pub struct AccountMeta {
    /// The account's identifier.
    pub pubkey: Pubkey,
    /// Whether the account must sign the transaction.
    pub is_signer: bool,
    /// Whether the command may write to the account.
    pub is_writable: bool,
}

impl AccountMeta {
    /// A writable account slot.
    pub fn new(pubkey: Pubkey, is_signer: bool) -> (r: AccountMeta)
        ensures
            r == (AccountMeta { pubkey, is_signer, is_writable: true }),
    {
        AccountMeta { pubkey, is_signer, is_writable: true }
    }

    /// A read-only account slot.
    pub fn new_readonly(pubkey: Pubkey, is_signer: bool) -> (r: AccountMeta)
        ensures
            r == (AccountMeta { pubkey, is_signer, is_writable: false }),
    {
        AccountMeta { pubkey, is_signer, is_writable: false }
    }
}

/// A ready-to-submit command payload: the target program, the ordered,
/// access-annotated participant accounts, and the encoded command bytes.
#[derive(Clone, Debug, PartialEq)]
pub struct Instruction {
    /// The program that executes the command.
    pub program_id: Pubkey,
    /// The ordered participant accounts.
    pub accounts: Vec<AccountMeta>,
    /// The encoded command.
    pub data: Vec<u8>,
}

/// A read-only, non-signing slot for each address, in order.
pub open spec fn spec_readonly_slots(addrs: Seq<Pubkey>) -> Seq<AccountMeta> {
    addrs.map_values(|p: Pubkey| AccountMeta { pubkey: p, is_signer: false, is_writable: false })
}

/// A writable, non-signing slot for each address, in order.
pub open spec fn spec_writable_slots(addrs: Seq<Pubkey>) -> Seq<AccountMeta> {
    addrs.map_values(|p: Pubkey| AccountMeta { pubkey: p, is_signer: false, is_writable: true })
}

/// Appends a read-only, non-signing slot for each address, in order.
fn push_readonly_slots(accounts: &mut Vec<AccountMeta>, addrs: &Vec<Pubkey>)
    ensures
        final(accounts)@ == old(accounts)@ + spec_readonly_slots(addrs@),
{
    let mut i: usize = 0;
    while i < addrs.len()
        invariant
            i <= addrs@.len(),
            accounts@ == old(accounts)@ + spec_readonly_slots(addrs@.take(i as int)),
        decreases addrs@.len() - i,
    {
        accounts.push(AccountMeta::new_readonly(addrs[i], false));
        proof {
            assert(old(accounts)@ + spec_readonly_slots(addrs@.take(i + 1)) =~= (old(accounts)@
                + spec_readonly_slots(addrs@.take(i as int))).push(
                AccountMeta {
                    pubkey: addrs@[i as int],
                    is_signer: false,
                    is_writable: false,
                },
            ));
        }
        i += 1;
    }
    proof {
        assert(addrs@.take(addrs@.len() as int) =~= addrs@);
    }
}

/// Appends a writable, non-signing slot for each address, in order.
fn push_writable_slots(accounts: &mut Vec<AccountMeta>, addrs: &Vec<Pubkey>)
    ensures
        final(accounts)@ == old(accounts)@ + spec_writable_slots(addrs@),
{
    let mut i: usize = 0;
    while i < addrs.len()
        invariant
            i <= addrs@.len(),
            accounts@ == old(accounts)@ + spec_writable_slots(addrs@.take(i as int)),
        decreases addrs@.len() - i,
    {
        accounts.push(AccountMeta::new(addrs[i], false));
        proof {
            assert(old(accounts)@ + spec_writable_slots(addrs@.take(i + 1)) =~= (old(accounts)@
                + spec_writable_slots(addrs@.take(i as int))).push(
                AccountMeta { pubkey: addrs@[i as int], is_signer: false, is_writable: true },
            ));
        }
        i += 1;
    }
    proof {
        assert(addrs@.take(addrs@.len() as int) =~= addrs@);
    }
}

/// The account list of an `Initialize` command: the new pool account
/// (writable), the pool authority, one read-only slot per coin token
/// account, one per coin mint, the pool token mint, and the admin token
/// mint.
pub open spec fn spec_initialize_accounts(
    swap_account: Pubkey,
    pool_authority: Pubkey,
    swap_token_accounts: Seq<Pubkey>,
    swap_token_mints: Seq<Pubkey>,
    pool_token_mint: Pubkey,
    admin_token_mint: Pubkey,
) -> Seq<AccountMeta> {
    seq![
        AccountMeta { pubkey: swap_account, is_signer: false, is_writable: true },
        AccountMeta { pubkey: pool_authority, is_signer: false, is_writable: false },
    ] + spec_readonly_slots(swap_token_accounts) + spec_readonly_slots(swap_token_mints) + seq![
        AccountMeta { pubkey: pool_token_mint, is_signer: false, is_writable: false },
        AccountMeta { pubkey: admin_token_mint, is_signer: false, is_writable: false },
    ]
}

/// The four read-only leading slots shared by every pool-mutating command:
/// the pool account, the token program, the pool authority, and the signing
/// user transfer authority.
pub open spec fn spec_common_accounts(
    swap_account: Pubkey,
    token_program: Pubkey,
    pool_authority: Pubkey,
    user_transfer_authority: Pubkey,
) -> Seq<AccountMeta> {
    seq![
        AccountMeta { pubkey: swap_account, is_signer: false, is_writable: false },
        AccountMeta { pubkey: token_program, is_signer: false, is_writable: false },
        AccountMeta { pubkey: pool_authority, is_signer: false, is_writable: false },
        AccountMeta { pubkey: user_transfer_authority, is_signer: true, is_writable: false },
    ]
}

/// Creates an `Initialize` command payload, or fails with
/// `IncorrectProgramId` when the program identity is not the expected one.
pub fn initialize(
    program_id: &Pubkey,
    swap_account_address: &Pubkey,
    pool_authority_address: &Pubkey,
    swap_token_accounts_addresses: &Vec<Pubkey>,
    swap_token_mint_addresses: &Vec<Pubkey>,
    pool_token_mint_address: &Pubkey,
    admin_token_mint_address: &Pubkey,
    nonce: u8,
    n_coins: u8,
    amplification_coefficient: u64,
    fee_numerator: u64,
    admin_fee_numerator: u64,
    admin_settings: AdminSettings,
) -> (r: Result<Instruction, ProgramError>)
    ensures
        program_id@ != PROGRAM_ID_BYTES@ ==> (r matches Err(e) && e
            == ProgramError::IncorrectProgramId),
        program_id@ == PROGRAM_ID_BYTES@ ==> (r matches Ok(ix) && ix.program_id == *program_id
            && ix.accounts@ == spec_initialize_accounts(
            *swap_account_address,
            *pool_authority_address,
            swap_token_accounts_addresses@,
            swap_token_mint_addresses@,
            *pool_token_mint_address,
            *admin_token_mint_address,
        ) && ix.data@ == spec_pack_instruction(
            (SwapInstructionView::Initialize {
                nonce,
                amplification_coefficient,
                fee_numerator,
                admin_fee_numerator,
                n_coins,
                admin_settings,
            }),
        )),
{
    match check_program_account(program_id) {
        Ok(_) => {},
        Err(e) => {
            return Err(e);
        },
    }
    let mut accounts: Vec<AccountMeta> = Vec::new();
    accounts.push(AccountMeta::new(*swap_account_address, false));
    accounts.push(AccountMeta::new_readonly(*pool_authority_address, false));
    push_readonly_slots(&mut accounts, swap_token_accounts_addresses);
    push_readonly_slots(&mut accounts, swap_token_mint_addresses);
    accounts.push(AccountMeta::new_readonly(*pool_token_mint_address, false));
    accounts.push(AccountMeta::new_readonly(*admin_token_mint_address, false));
    proof {
        assert(accounts@ =~= spec_initialize_accounts(
            *swap_account_address,
            *pool_authority_address,
            swap_token_accounts_addresses@,
            swap_token_mint_addresses@,
            *pool_token_mint_address,
            *admin_token_mint_address,
        ));
    }
    let instruction = SwapInstruction::Initialize {
        nonce,
        n_coins,
        amplification_coefficient,
        fee_numerator,
        admin_fee_numerator,
        admin_settings,
    };
    let data = instruction.pack();
    Ok(Instruction { program_id: *program_id, accounts, data })
}

/// Creates an `AddLiquidity` command payload, or fails with
/// `IncorrectProgramId` when the program identity is not the expected one.
pub fn add_liquidity(
    program_id: &Pubkey,
    swap_account_address: &Pubkey,
    token_program_address: &Pubkey,
    pool_authority_address: &Pubkey,
    user_transfer_authority_address: &Pubkey,
    swap_token_addresses: &Vec<Pubkey>,
    pool_token_mint_address: &Pubkey,
    source_token_addresses: &Vec<Pubkey>,
    lp_token_account_address: &Pubkey,
    deposit_amounts: Vec<u64>,
    min_mint_amount: u64,
) -> (r: Result<Instruction, ProgramError>)
    requires
        deposit_amounts@.len() <= u32::MAX,
    ensures
        program_id@ != PROGRAM_ID_BYTES@ ==> (r matches Err(e) && e
            == ProgramError::IncorrectProgramId),
        program_id@ == PROGRAM_ID_BYTES@ ==> (r matches Ok(ix) && ix.program_id == *program_id
            && ix.accounts@ == spec_common_accounts(
            *swap_account_address,
            *token_program_address,
            *pool_authority_address,
            *user_transfer_authority_address,
        ) + spec_writable_slots(swap_token_addresses@) + seq![
            (AccountMeta {
                pubkey: *pool_token_mint_address,
                is_signer: false,
                is_writable: true,
            }),
        ] + spec_writable_slots(source_token_addresses@) + seq![
            (AccountMeta {
                pubkey: *lp_token_account_address,
                is_signer: false,
                is_writable: true,
            }),
        ] && ix.data@ == spec_pack_instruction(
            (SwapInstructionView::AddLiquidity {
                deposit_amounts: deposit_amounts@,
                min_mint_amount,
            }),
        )),
{
    match check_program_account(program_id) {
        Ok(_) => {},
        Err(e) => {
            return Err(e);
        },
    }
    let mut accounts: Vec<AccountMeta> = Vec::new();
    accounts.push(AccountMeta::new_readonly(*swap_account_address, false));
    accounts.push(AccountMeta::new_readonly(*token_program_address, false));
    accounts.push(AccountMeta::new_readonly(*pool_authority_address, false));
    accounts.push(AccountMeta::new_readonly(*user_transfer_authority_address, true));
    push_writable_slots(&mut accounts, swap_token_addresses);
    accounts.push(AccountMeta::new(*pool_token_mint_address, false));
    push_writable_slots(&mut accounts, source_token_addresses);
    accounts.push(AccountMeta::new(*lp_token_account_address, false));
    proof {
        assert(accounts@ =~= spec_common_accounts(
            *swap_account_address,
            *token_program_address,
            *pool_authority_address,
            *user_transfer_authority_address,
        ) + spec_writable_slots(swap_token_addresses@) + seq![
            (AccountMeta {
                pubkey: *pool_token_mint_address,
                is_signer: false,
                is_writable: true,
            }),
        ] + spec_writable_slots(source_token_addresses@) + seq![
            (AccountMeta {
                pubkey: *lp_token_account_address,
                is_signer: false,
                is_writable: true,
            }),
        ]);
    }
    let instruction = SwapInstruction::AddLiquidity { deposit_amounts, min_mint_amount };
    let data = instruction.pack();
    Ok(Instruction { program_id: *program_id, accounts, data })
}

/// Creates a `RemoveLiquidity` command payload, or fails with
/// `IncorrectProgramId` when the program identity is not the expected one.
pub fn remove_liquidity(
    program_id: &Pubkey,
    swap_account_address: &Pubkey,
    token_program_address: &Pubkey,
    pool_authority_address: &Pubkey,
    user_transfer_authority_address: &Pubkey,
    swap_token_accounts_addresses: &Vec<Pubkey>,
    pool_mint_address: &Pubkey,
    user_destination_token_account_addresses: &Vec<Pubkey>,
    lp_token_account_address: &Pubkey,
    unmint_amount: u64,
    minimum_amounts: Vec<u64>,
) -> (r: Result<Instruction, ProgramError>)
    requires
        minimum_amounts@.len() <= u32::MAX,
    ensures
        program_id@ != PROGRAM_ID_BYTES@ ==> (r matches Err(e) && e
            == ProgramError::IncorrectProgramId),
        program_id@ == PROGRAM_ID_BYTES@ ==> (r matches Ok(ix) && ix.program_id == *program_id
            && ix.accounts@ == spec_common_accounts(
            *swap_account_address,
            *token_program_address,
            *pool_authority_address,
            *user_transfer_authority_address,
        ) + spec_writable_slots(swap_token_accounts_addresses@) + seq![
            (AccountMeta { pubkey: *pool_mint_address, is_signer: false, is_writable: true }),
        ] + spec_writable_slots(user_destination_token_account_addresses@) + seq![
            (AccountMeta {
                pubkey: *lp_token_account_address,
                is_signer: false,
                is_writable: true,
            }),
        ] && ix.data@ == spec_pack_instruction(
            (SwapInstructionView::RemoveLiquidity {
                unmint_amount,
                minimum_amounts: minimum_amounts@,
            }),
        )),
{
    match check_program_account(program_id) {
        Ok(_) => {},
        Err(e) => {
            return Err(e);
        },
    }
    let mut accounts: Vec<AccountMeta> = Vec::new();
    accounts.push(AccountMeta::new_readonly(*swap_account_address, false));
    accounts.push(AccountMeta::new_readonly(*token_program_address, false));
    accounts.push(AccountMeta::new_readonly(*pool_authority_address, false));
    accounts.push(AccountMeta::new_readonly(*user_transfer_authority_address, true));
    push_writable_slots(&mut accounts, swap_token_accounts_addresses);
    accounts.push(AccountMeta::new(*pool_mint_address, false));
    push_writable_slots(&mut accounts, user_destination_token_account_addresses);
    accounts.push(AccountMeta::new(*lp_token_account_address, false));
    proof {
        assert(accounts@ =~= spec_common_accounts(
            *swap_account_address,
            *token_program_address,
            *pool_authority_address,
            *user_transfer_authority_address,
        ) + spec_writable_slots(swap_token_accounts_addresses@) + seq![
            (AccountMeta { pubkey: *pool_mint_address, is_signer: false, is_writable: true }),
        ] + spec_writable_slots(user_destination_token_account_addresses@) + seq![
            (AccountMeta {
                pubkey: *lp_token_account_address,
                is_signer: false,
                is_writable: true,
            }),
        ]);
    }
    let instruction = SwapInstruction::RemoveLiquidity { unmint_amount, minimum_amounts };
    let data = instruction.pack();
    Ok(Instruction { program_id: *program_id, accounts, data })
}

/// Creates a `RemoveLiquidityOneToken` command payload, or fails with
/// `IncorrectProgramId` when the program identity is not the expected one.
pub fn remove_liquidity_one_token(
    program_id: &Pubkey,
    swap_account_address: &Pubkey,
    token_program_address: &Pubkey,
    pool_authority_address: &Pubkey,
    user_transfer_authority_address: &Pubkey,
    swap_token_accounts_addresses: &Vec<Pubkey>,
    pool_mint_address: &Pubkey,
    user_destination_token_account_address: &Pubkey,
    lp_token_account_address: &Pubkey,
    unmint_amount: u64,
    minimum_out_amount: u64,
) -> (r: Result<Instruction, ProgramError>)
    ensures
        program_id@ != PROGRAM_ID_BYTES@ ==> (r matches Err(e) && e
            == ProgramError::IncorrectProgramId),
        program_id@ == PROGRAM_ID_BYTES@ ==> (r matches Ok(ix) && ix.program_id == *program_id
            && ix.accounts@ == spec_common_accounts(
            *swap_account_address,
            *token_program_address,
            *pool_authority_address,
            *user_transfer_authority_address,
        ) + spec_writable_slots(swap_token_accounts_addresses@) + seq![
            (AccountMeta { pubkey: *pool_mint_address, is_signer: false, is_writable: true }),
            (AccountMeta {
                pubkey: *user_destination_token_account_address,
                is_signer: false,
                is_writable: true,
            }),
            (AccountMeta {
                pubkey: *lp_token_account_address,
                is_signer: false,
                is_writable: true,
            }),
        ] && ix.data@ == spec_pack_instruction(
            (SwapInstructionView::RemoveLiquidityOneToken { unmint_amount, minimum_out_amount }),
        )),
{
    match check_program_account(program_id) {
        Ok(_) => {},
        Err(e) => {
            return Err(e);
        },
    }
    let mut accounts: Vec<AccountMeta> = Vec::new();
    accounts.push(AccountMeta::new_readonly(*swap_account_address, false));
    accounts.push(AccountMeta::new_readonly(*token_program_address, false));
    accounts.push(AccountMeta::new_readonly(*pool_authority_address, false));
    accounts.push(AccountMeta::new_readonly(*user_transfer_authority_address, true));
    push_writable_slots(&mut accounts, swap_token_accounts_addresses);
    accounts.push(AccountMeta::new(*pool_mint_address, false));
    accounts.push(AccountMeta::new(*user_destination_token_account_address, false));
    accounts.push(AccountMeta::new(*lp_token_account_address, false));
    proof {
        assert(accounts@ =~= spec_common_accounts(
            *swap_account_address,
            *token_program_address,
            *pool_authority_address,
            *user_transfer_authority_address,
        ) + spec_writable_slots(swap_token_accounts_addresses@) + seq![
            (AccountMeta { pubkey: *pool_mint_address, is_signer: false, is_writable: true }),
            (AccountMeta {
                pubkey: *user_destination_token_account_address,
                is_signer: false,
                is_writable: true,
            }),
            (AccountMeta {
                pubkey: *lp_token_account_address,
                is_signer: false,
                is_writable: true,
            }),
        ]);
    }
    let instruction = SwapInstruction::RemoveLiquidityOneToken {
        unmint_amount,
        minimum_out_amount,
    };
    let data = instruction.pack();
    Ok(Instruction { program_id: *program_id, accounts, data })
}

/// Creates an `Exchange` command payload, or fails with
/// `IncorrectProgramId` when the program identity is not the expected one.
pub fn exchange(
    program_id: &Pubkey,
    swap_account_address: &Pubkey,
    token_program_address: &Pubkey,
    pool_authority_address: &Pubkey,
    user_transfer_authority_address: &Pubkey,
    swap_token_accounts_addresses: &Vec<Pubkey>,
    source_token_account_address: &Pubkey,
    destination_token_account_address: &Pubkey,
    in_amount: u64,
    minimum_out_amount: u64,
) -> (r: Result<Instruction, ProgramError>)
    ensures
        program_id@ != PROGRAM_ID_BYTES@ ==> (r matches Err(e) && e
            == ProgramError::IncorrectProgramId),
        program_id@ == PROGRAM_ID_BYTES@ ==> (r matches Ok(ix) && ix.program_id == *program_id
            && ix.accounts@ == spec_common_accounts(
            *swap_account_address,
            *token_program_address,
            *pool_authority_address,
            *user_transfer_authority_address,
        ) + spec_writable_slots(swap_token_accounts_addresses@) + seq![
            (AccountMeta {
                pubkey: *source_token_account_address,
                is_signer: false,
                is_writable: true,
            }),
            (AccountMeta {
                pubkey: *destination_token_account_address,
                is_signer: false,
                is_writable: true,
            }),
        ] && ix.data@ == spec_pack_instruction(
            (SwapInstructionView::Exchange { in_amount, minimum_out_amount }),
        )),
{
    match check_program_account(program_id) {
        Ok(_) => {},
        Err(e) => {
            return Err(e);
        },
    }
    let mut accounts: Vec<AccountMeta> = Vec::new();
    accounts.push(AccountMeta::new_readonly(*swap_account_address, false));
    accounts.push(AccountMeta::new_readonly(*token_program_address, false));
    accounts.push(AccountMeta::new_readonly(*pool_authority_address, false));
    accounts.push(AccountMeta::new_readonly(*user_transfer_authority_address, true));
    push_writable_slots(&mut accounts, swap_token_accounts_addresses);
    accounts.push(AccountMeta::new(*source_token_account_address, false));
    accounts.push(AccountMeta::new(*destination_token_account_address, false));
    proof {
        assert(accounts@ =~= spec_common_accounts(
            *swap_account_address,
            *token_program_address,
            *pool_authority_address,
            *user_transfer_authority_address,
        ) + spec_writable_slots(swap_token_accounts_addresses@) + seq![
            (AccountMeta {
                pubkey: *source_token_account_address,
                is_signer: false,
                is_writable: true,
            }),
            (AccountMeta {
                pubkey: *destination_token_account_address,
                is_signer: false,
                is_writable: true,
            }),
        ]);
    }
    let instruction = SwapInstruction::Exchange { in_amount, minimum_out_amount };
    let data = instruction.pack();
    Ok(Instruction { program_id: *program_id, accounts, data })
}

} // verus!
