use vstd::prelude::*;
use vstd::string::StringSliceAdditionalSpecFns;
use crate::errors::DegenError;
use crate::state::{GlobalState, Key, MAX_FEE_BPS, MAX_PAUSE_REASON_LEN};

verus! {

/// The first `N` bytes of `s`, padded with zeros.
pub open spec fn padded(s: Seq<u8>, n: nat) -> Seq<u8> {
    Seq::new(n, |i: int| if i < s.len() { s[i] } else { 0u8 })
}

/// Copies a string into a fixed-size byte array, cutting it short or
/// padding it with zeros.
pub fn str_to_bytes<const N: usize>(s: &str) -> (r: [u8; N])
    ensures
        r@ == padded(s.spec_bytes(), (N as nat)),
{
    let src = s.as_bytes();
    let mut bytes = [0u8; N];
    let mut i: usize = 0;
    while i < N
        invariant
            0 <= i <= N,
            bytes@.len() == N,
            src@ == s.spec_bytes(),
            forall|j: int| 0 <= j < i ==> bytes@[j] == padded(src@, N as nat)[j],
        decreases N - i,
    {
        if i < src.len() {
            bytes[i] = src[i];
        } else {
            bytes[i] = 0;
        }
        i = i + 1;
    }
    assert(bytes@ =~= padded(src@, N as nat));
    bytes
}

// ---------------------------------------------------------------------------
// Global configuration
// ---------------------------------------------------------------------------

#[derive(Clone, Copy, Debug)]
pub struct InitializeGlobal {
    /// The new configuration record; whatever it holds before is
    /// overwritten, but for its `bump`.
    pub global_state: GlobalState,
    /// The signer, who becomes the admin.
    pub admin: Key,
    pub fee_recipient: Key,
}

/// A pause reason with no text.
pub open spec fn blank_reason() -> Seq<u8> {
    Seq::new((MAX_PAUSE_REASON_LEN as nat), |i: int| 0u8)
}

/// The configuration as first written.
pub open spec fn is_fresh_global(
    g: GlobalState,
    c: InitializeGlobal,
    maker_fee_bps: u16,
    taker_fee_bps: u16,
) -> bool {
    &&& g.admin == c.admin
    &&& g.fee_recipient == c.fee_recipient
    &&& g.maker_fee_bps == maker_fee_bps
    &&& g.taker_fee_bps == taker_fee_bps
    &&& !g.paused
    &&& g.pause_reason@ == blank_reason()
    &&& g.paused_at == 0
    &&& g.total_markets == 0
    &&& g.total_volume == 0
    &&& g.bump == c.global_state.bump
}

/// Creates the configuration with fee rates of at most 500 basis points,
/// unpaused and with no markets. On failure nothing changes.
pub fn initialize_global(ctx: &mut InitializeGlobal, maker_fee_bps: u16, taker_fee_bps: u16) -> (r:
    Result<(), DegenError>)
    ensures
        maker_fee_bps > MAX_FEE_BPS || taker_fee_bps > MAX_FEE_BPS ==> r == Err::<(), DegenError>(
            DegenError::InvalidFeeConfig,
        ) && *final(ctx) == *old(ctx),
        maker_fee_bps <= MAX_FEE_BPS && taker_fee_bps <= MAX_FEE_BPS ==> r is Ok
            && is_fresh_global(final(ctx).global_state, *old(ctx), maker_fee_bps, taker_fee_bps)
            && final(ctx).admin == old(ctx).admin && final(ctx).fee_recipient == old(
            ctx,
        ).fee_recipient,
        r is Ok ==> final(ctx).global_state.wf(),
{
    if maker_fee_bps > MAX_FEE_BPS || taker_fee_bps > MAX_FEE_BPS {
        return Err(DegenError::InvalidFeeConfig);
    }
    let bump = ctx.global_state.bump;
    ctx.global_state = GlobalState {
        admin: ctx.admin,
        fee_recipient: ctx.fee_recipient,
        maker_fee_bps,
        taker_fee_bps,
        paused: false,
        pause_reason: [0u8; 100],
        paused_at: 0,
        total_markets: 0,
        total_volume: 0,
        bump,
    };
    assert(ctx.global_state.pause_reason@ =~= blank_reason());
    Ok(())
}

#[derive(Clone, Copy, Debug)]
pub struct PauseProtocol {
    pub global_state: GlobalState,
    /// The signer, who must be the admin.
    pub admin: Key,
}

/// Pauses the protocol at `now`, keeping a reason if one is given, or
/// resumes it and clears the pause record. Only the admin may do this.
pub fn pause_protocol(ctx: &mut PauseProtocol, now: i64, paused: bool, reason: Option<&str>) -> (r:
    Result<(), DegenError>)
    ensures
        old(ctx).admin@ != old(ctx).global_state.admin@ ==> r == Err::<(), DegenError>(
            DegenError::Unauthorized,
        ) && *final(ctx) == *old(ctx),
        old(ctx).admin@ == old(ctx).global_state.admin@ ==> r is Ok,
        r is Ok ==> {
            &&& final(ctx).admin == old(ctx).admin
            &&& final(ctx).global_state.paused == paused
            &&& final(ctx).global_state.paused_at == (if paused {
                now
            } else {
                0
            })
            &&& !paused ==> final(ctx).global_state.pause_reason@ == blank_reason()
            &&& paused && reason is None ==> final(ctx).global_state.pause_reason
                == old(ctx).global_state.pause_reason
            &&& paused && reason is Some ==> final(ctx).global_state.pause_reason@ == padded(
                reason->0.spec_bytes(),
                (MAX_PAUSE_REASON_LEN as nat),
            )
            &&& final(ctx).global_state.admin == old(ctx).global_state.admin
            &&& final(ctx).global_state.fee_recipient == old(ctx).global_state.fee_recipient
            &&& final(ctx).global_state.maker_fee_bps == old(ctx).global_state.maker_fee_bps
            &&& final(ctx).global_state.taker_fee_bps == old(ctx).global_state.taker_fee_bps
            &&& final(ctx).global_state.total_markets == old(ctx).global_state.total_markets
            &&& final(ctx).global_state.total_volume == old(ctx).global_state.total_volume
            &&& final(ctx).global_state.bump == old(ctx).global_state.bump
        },
{
    if !ctx.admin.same(&ctx.global_state.admin) {
        return Err(DegenError::Unauthorized);
    }
    ctx.global_state.paused = paused;
    if paused {
        ctx.global_state.paused_at = now;
        match reason {
            Some(s) => {
                ctx.global_state.pause_reason = str_to_bytes::<100>(s);
            },
            None => {},
        }
    } else {
        ctx.global_state.paused_at = 0;
        ctx.global_state.pause_reason = [0u8; 100];
        assert(ctx.global_state.pause_reason@ =~= blank_reason());
    }
    Ok(())
}

#[derive(Clone, Copy, Debug)]
pub struct UpdateConfig {
    pub global_state: GlobalState,
    /// The signer, who must be the admin.
    pub admin: Key,
    pub new_fee_recipient: Option<Key>,
}

pub open spec fn update_config_error(
    c: UpdateConfig,
    maker_fee_bps: Option<u16>,
    taker_fee_bps: Option<u16>,
) -> Option<DegenError> {
    if c.admin@ != c.global_state.admin@ {
        Some(DegenError::Unauthorized)
    } else if maker_fee_bps matches Some(f) && f > MAX_FEE_BPS {
        Some(DegenError::InvalidFeeConfig)
    } else if taker_fee_bps matches Some(f) && f > MAX_FEE_BPS {
        Some(DegenError::InvalidFeeConfig)
    } else {
        None
    }
}

/// The configuration with the given changes made.
pub open spec fn updated_global(
    c: UpdateConfig,
    maker_fee_bps: Option<u16>,
    taker_fee_bps: Option<u16>,
) -> GlobalState {
    GlobalState {
        maker_fee_bps: match maker_fee_bps {
            Some(f) => f,
            None => c.global_state.maker_fee_bps,
        },
        taker_fee_bps: match taker_fee_bps {
            Some(f) => f,
            None => c.global_state.taker_fee_bps,
        },
        fee_recipient: match c.new_fee_recipient {
            Some(k) => k,
            None => c.global_state.fee_recipient,
        },
        ..c.global_state
    }
}

/// Changes the fee rates and the fee recipient that are given. Only the
/// admin may do this, and no rate may pass 500 basis points.
pub fn update_config(ctx: &mut UpdateConfig, maker_fee_bps: Option<u16>, taker_fee_bps: Option<u16>) -> (r:
    Result<(), DegenError>)
    ensures
        match r {
            Ok(()) => {
                &&& update_config_error(*old(ctx), maker_fee_bps, taker_fee_bps) is None
                &&& final(ctx).global_state == updated_global(*old(ctx), maker_fee_bps, taker_fee_bps)
                &&& final(ctx).admin == old(ctx).admin
                &&& final(ctx).new_fee_recipient == old(ctx).new_fee_recipient
                &&& old(ctx).global_state.wf() ==> final(ctx).global_state.wf()
            },
            Err(e) => {
                &&& update_config_error(*old(ctx), maker_fee_bps, taker_fee_bps) == Some(e)
                &&& *final(ctx) == *old(ctx)
            },
        },
{
    if !ctx.admin.same(&ctx.global_state.admin) {
        return Err(DegenError::Unauthorized);
    }
    match maker_fee_bps {
        Some(f) => {
            if f > MAX_FEE_BPS {
                return Err(DegenError::InvalidFeeConfig);
            }
        },
        None => {},
    }
    match taker_fee_bps {
        Some(f) => {
            if f > MAX_FEE_BPS {
                return Err(DegenError::InvalidFeeConfig);
            }
        },
        None => {},
    }
    match maker_fee_bps {
        Some(f) => {
            ctx.global_state.maker_fee_bps = f;
        },
        None => {},
    }
    match taker_fee_bps {
        Some(f) => {
            ctx.global_state.taker_fee_bps = f;
        },
        None => {},
    }
    match ctx.new_fee_recipient {
        Some(k) => {
            ctx.global_state.fee_recipient = k;
        },
        None => {},
    }
    Ok(())
}

#[derive(Clone, Copy, Debug)]
pub struct TransferAdmin {
    pub global_state: GlobalState,
    /// The signer, who must be the admin.
    pub admin: Key,
    pub new_admin: Key,
}

/// Hands the admin role to `new_admin`, leaving the rest of the
/// configuration as it is. Only the admin may do this.
pub fn transfer_admin(ctx: &mut TransferAdmin) -> (r: Result<(), DegenError>)
    ensures
        old(ctx).admin@ != old(ctx).global_state.admin@ ==> r == Err::<(), DegenError>(
            DegenError::Unauthorized,
        ) && *final(ctx) == *old(ctx),
        old(ctx).admin@ == old(ctx).global_state.admin@ ==> r is Ok,
        r is Ok ==> *final(ctx) == (TransferAdmin {
            global_state: (GlobalState { admin: old(ctx).new_admin, ..old(ctx).global_state }),
            ..*old(ctx)
        }),
{
    if !ctx.admin.same(&ctx.global_state.admin) {
        return Err(DegenError::Unauthorized);
    }
    ctx.global_state.admin = ctx.new_admin;
    Ok(())
}

} // verus!
