//! Reserve and accounting ledger: mint/burn bookkeeping against a
//! bounded backing reserve, with a pause flag and a per-transaction
//! mint cap. The coordinator consults it only to authorize a mint
//! and never hands it plaintext bridge data beyond the numeric
//! amount.

use vstd::prelude::*;

verus! {

/// Business-rule rejections of the ledger. All are state-preserving.
#[derive(Clone, Copy, Debug, PartialEq, Eq, Structural)]
pub enum ErrorCode {
    BridgePaused,
    InvalidAmount,
    AmountExceedsMax,
    InsufficientReserve,
}

/// The asset whose reserve backs minted supply.
#[derive(Clone, Copy, Debug, PartialEq, Eq, Structural)]
pub enum ReserveAsset {
    BTC,
    ZEC,
}

/// The bridge ledger state: supply counters against a bounded
/// reserve, plus the admin policy knobs.
#[derive(Clone, Copy, Debug)]
pub struct Config {
    pub authority: [u8; 32],
    pub mint: [u8; 32],
    pub max_mint_per_tx: u64,
    pub paused: bool,
    pub total_minted: u64,
    pub total_burned: u64,
    pub btc_reserve: u64,
    pub zec_reserve: u64,
    pub bootstrap_btc: u64,
    pub bootstrap_zec: u64,
    pub reserve_asset: ReserveAsset,
}

/// Event emitted after a burn that asks the relayer for a swap.
#[derive(Clone, Copy, Debug)]
pub struct BurnSwapEvent {
    pub user: [u8; 32],
    pub amount: u64,
    pub timestamp: i64,
}

/// Event emitted after a burn that asks the relayer to send to a
/// withdrawal address; the address field may itself be a ciphertext
/// digest when privacy is requested.
#[derive(Clone, Debug)]
pub struct BurnToBTCEvent {
    pub user: [u8; 32],
    pub amount: u64,
    pub btc_address_hash: Vec<u8>,
    pub encrypted: bool,
    pub timestamp: i64,
}

/// The reserve that currently backs minting, per the configured
/// reserve asset.
pub open spec fn spec_available_reserve(c: Config) -> u64 {
    match c.reserve_asset {
        ReserveAsset::BTC => c.btc_reserve,
        ReserveAsset::ZEC => c.zec_reserve,
    }
}

/// Addition clamped to the counter's range.
pub open spec fn spec_saturating_add(a: u64, b: u64) -> u64 {
    if a + b <= u64::MAX {
        (a + b) as u64
    } else {
        u64::MAX
    }
}

impl Config {
    /// Initialize the ledger with its authority, mint, cap, and
    /// bootstrap reserves; supply counters start at zero and the
    /// bridge starts unpaused.
    pub fn initialize_config(
        authority: [u8; 32],
        mint: [u8; 32],
        max_mint_per_tx: u64,
        bootstrap_btc: u64,
        bootstrap_zec: u64,
        reserve_asset: ReserveAsset,
    ) -> (c: Config)
        ensures
            c.authority@ == authority@,
            c.mint@ == mint@,
            c.max_mint_per_tx == max_mint_per_tx,
            !c.paused,
            c.total_minted == 0,
            c.total_burned == 0,
            c.btc_reserve == bootstrap_btc,
            c.zec_reserve == bootstrap_zec,
            c.bootstrap_btc == bootstrap_btc,
            c.bootstrap_zec == bootstrap_zec,
            c.reserve_asset == reserve_asset,
    {
        Config {
            authority,
            mint,
            max_mint_per_tx,
            paused: false,
            total_minted: 0,
            total_burned: 0,
            btc_reserve: bootstrap_btc,
            zec_reserve: bootstrap_zec,
            bootstrap_btc,
            bootstrap_zec,
            reserve_asset,
        }
    }

    /// How much more can be minted before the reserve is exhausted.
    pub fn available_capacity(&self) -> (r: u64)
        ensures
            self.total_minted <= spec_available_reserve(*self) ==> r == spec_available_reserve(
                *self,
            ) - self.total_minted,
            self.total_minted > spec_available_reserve(*self) ==> r == 0,
    {
        let reserve = match self.reserve_asset {
            ReserveAsset::BTC => self.btc_reserve,
            ReserveAsset::ZEC => self.zec_reserve,
        };
        if self.total_minted <= reserve {
            reserve - self.total_minted
        } else {
            0
        }
    }

    /// Mint against the reserve: rejected while paused, for a zero
    /// amount, above the per-transaction cap, or when the backing
    /// reserve cannot cover the new total. On success only the
    /// minted counter moves.
    pub fn mint_zenzec(&mut self, amount: u64) -> (r: Result<(), ErrorCode>)
        ensures
            r is Ok <==> !old(self).paused && amount > 0 && amount <= old(self).max_mint_per_tx
                && old(self).total_minted + amount <= spec_available_reserve(*old(self)),
            r is Err ==> *final(self) == *old(self),
            old(self).paused ==> r == Err::<(), ErrorCode>(ErrorCode::BridgePaused),
            !old(self).paused && amount == 0 ==> r == Err::<(), ErrorCode>(ErrorCode::InvalidAmount),
            !old(self).paused && amount > 0 && amount > old(self).max_mint_per_tx ==> r == Err::<
                (),
                ErrorCode,
            >(ErrorCode::AmountExceedsMax),
            !old(self).paused && amount > 0 && amount <= old(self).max_mint_per_tx && old(
                self,
            ).total_minted + amount > spec_available_reserve(*old(self)) ==> r == Err::<
                (),
                ErrorCode,
            >(ErrorCode::InsufficientReserve),
            r is Ok ==> final(self).total_minted == old(self).total_minted + amount,
            final(self).total_burned == old(self).total_burned,
            final(self).authority@ == old(self).authority@,
            final(self).mint@ == old(self).mint@,
            final(self).max_mint_per_tx == old(self).max_mint_per_tx,
            final(self).paused == old(self).paused,
            final(self).btc_reserve == old(self).btc_reserve,
            final(self).zec_reserve == old(self).zec_reserve,
            final(self).bootstrap_btc == old(self).bootstrap_btc,
            final(self).bootstrap_zec == old(self).bootstrap_zec,
            final(self).reserve_asset == old(self).reserve_asset,
    {
        if self.paused {
            return Err(ErrorCode::BridgePaused);
        }
        if amount == 0 {
            return Err(ErrorCode::InvalidAmount);
        }
        if amount > self.max_mint_per_tx {
            return Err(ErrorCode::AmountExceedsMax);
        }
        let available_reserve = match self.reserve_asset {
            ReserveAsset::BTC => self.btc_reserve,
            ReserveAsset::ZEC => self.zec_reserve,
        };
        if self.total_minted > available_reserve || amount > available_reserve - self.total_minted {
            return Err(ErrorCode::InsufficientReserve);
        }
        self.total_minted = self.total_minted + amount;
        Ok(())
    }

    /// Burn from circulating supply: a zero amount is rejected; the
    /// burned counter moves, clamped to its range.
    pub fn burn_zenzec(&mut self, amount: u64) -> (r: Result<(), ErrorCode>)
        ensures
            r is Ok <==> amount > 0,
            r is Err ==> r == Err::<(), ErrorCode>(ErrorCode::InvalidAmount) && *final(self)
                == *old(self),
            r is Ok ==> final(self).total_burned == spec_saturating_add(
                old(self).total_burned,
                amount,
            ),
            final(self).total_minted == old(self).total_minted,
            final(self).authority@ == old(self).authority@,
            final(self).mint@ == old(self).mint@,
            final(self).max_mint_per_tx == old(self).max_mint_per_tx,
            final(self).paused == old(self).paused,
            final(self).btc_reserve == old(self).btc_reserve,
            final(self).zec_reserve == old(self).zec_reserve,
            final(self).bootstrap_btc == old(self).bootstrap_btc,
            final(self).bootstrap_zec == old(self).bootstrap_zec,
            final(self).reserve_asset == old(self).reserve_asset,
    {
        if amount == 0 {
            return Err(ErrorCode::InvalidAmount);
        }
        self.total_burned = self.total_burned.saturating_add(amount);
        Ok(())
    }

    /// Burn and hand the relayer a content-safe swap request.
    pub fn burn_and_emit(&mut self, user: [u8; 32], amount: u64, timestamp: i64) -> (r: Result<
        BurnSwapEvent,
        ErrorCode,
    >)
        ensures
            r is Ok <==> amount > 0,
            r is Err ==> r == Err::<BurnSwapEvent, ErrorCode>(ErrorCode::InvalidAmount)
                && *final(self) == *old(self),
            r matches Ok(ev) ==> ev.user@ == user@ && ev.amount == amount && ev.timestamp
                == timestamp && final(self).total_burned == spec_saturating_add(
                old(self).total_burned,
                amount,
            ),
            final(self).total_minted == old(self).total_minted,
            final(self).authority@ == old(self).authority@,
            final(self).mint@ == old(self).mint@,
            final(self).max_mint_per_tx == old(self).max_mint_per_tx,
            final(self).paused == old(self).paused,
            final(self).btc_reserve == old(self).btc_reserve,
            final(self).zec_reserve == old(self).zec_reserve,
            final(self).bootstrap_btc == old(self).bootstrap_btc,
            final(self).bootstrap_zec == old(self).bootstrap_zec,
            final(self).reserve_asset == old(self).reserve_asset,
    {
        match self.burn_zenzec(amount) {
            Ok(()) => Ok(BurnSwapEvent { user, amount, timestamp }),
            Err(e) => Err(e),
        }
    }

    /// Burn and hand the relayer a withdrawal request; rejected
    /// while paused. The address travels as given — possibly already
    /// encrypted — and is never inspected here.
    pub fn burn_for_btc(
        &mut self,
        user: [u8; 32],
        amount: u64,
        btc_address: Vec<u8>,
        use_privacy: bool,
        timestamp: i64,
    ) -> (r: Result<BurnToBTCEvent, ErrorCode>)
        ensures
            r is Ok <==> !old(self).paused && amount > 0,
            r is Err ==> *final(self) == *old(self),
            old(self).paused ==> r == Err::<BurnToBTCEvent, ErrorCode>(ErrorCode::BridgePaused),
            !old(self).paused && amount == 0 ==> r == Err::<BurnToBTCEvent, ErrorCode>(
                ErrorCode::InvalidAmount,
            ),
            r matches Ok(ev) ==> ev.user@ == user@ && ev.amount == amount && ev.btc_address_hash@
                == btc_address@ && ev.encrypted == use_privacy && ev.timestamp == timestamp
                && final(self).total_burned == spec_saturating_add(old(self).total_burned, amount),
            final(self).total_minted == old(self).total_minted,
            final(self).authority@ == old(self).authority@,
            final(self).mint@ == old(self).mint@,
            final(self).max_mint_per_tx == old(self).max_mint_per_tx,
            final(self).paused == old(self).paused,
            final(self).btc_reserve == old(self).btc_reserve,
            final(self).zec_reserve == old(self).zec_reserve,
            final(self).bootstrap_btc == old(self).bootstrap_btc,
            final(self).bootstrap_zec == old(self).bootstrap_zec,
            final(self).reserve_asset == old(self).reserve_asset,
    {
        if self.paused {
            return Err(ErrorCode::BridgePaused);
        }
        match self.burn_zenzec(amount) {
            Ok(()) => Ok(
                BurnToBTCEvent {
                    user,
                    amount,
                    btc_address_hash: btc_address,
                    encrypted: use_privacy,
                    timestamp,
                },
            ),
            Err(e) => Err(e),
        }
    }

    /// Admin: pause or resume the bridge.
    pub fn set_paused(&mut self, paused: bool)
        ensures
            final(self).paused == paused,
            final(self).total_minted == old(self).total_minted,
            final(self).total_burned == old(self).total_burned,
            final(self).authority@ == old(self).authority@,
            final(self).mint@ == old(self).mint@,
            final(self).max_mint_per_tx == old(self).max_mint_per_tx,
            final(self).btc_reserve == old(self).btc_reserve,
            final(self).zec_reserve == old(self).zec_reserve,
            final(self).bootstrap_btc == old(self).bootstrap_btc,
            final(self).bootstrap_zec == old(self).bootstrap_zec,
            final(self).reserve_asset == old(self).reserve_asset,
    {
        self.paused = paused;
    }

    /// Admin: change the per-transaction mint cap.
    pub fn set_max_mint(&mut self, max_mint_per_tx: u64)
        ensures
            final(self).max_mint_per_tx == max_mint_per_tx,
            final(self).paused == old(self).paused,
            final(self).total_minted == old(self).total_minted,
            final(self).total_burned == old(self).total_burned,
            final(self).authority@ == old(self).authority@,
            final(self).mint@ == old(self).mint@,
            final(self).btc_reserve == old(self).btc_reserve,
            final(self).zec_reserve == old(self).zec_reserve,
            final(self).bootstrap_btc == old(self).bootstrap_btc,
            final(self).bootstrap_zec == old(self).bootstrap_zec,
            final(self).reserve_asset == old(self).reserve_asset,
    {
        self.max_mint_per_tx = max_mint_per_tx;
    }

    /// Admin: record newly received backing reserve, clamped to the
    /// counter's range.
    pub fn update_btc_reserve(&mut self, amount: u64)
        ensures
            final(self).btc_reserve == spec_saturating_add(old(self).btc_reserve, amount),
            final(self).zec_reserve == old(self).zec_reserve,
            final(self).paused == old(self).paused,
            final(self).total_minted == old(self).total_minted,
            final(self).total_burned == old(self).total_burned,
            final(self).authority@ == old(self).authority@,
            final(self).mint@ == old(self).mint@,
            final(self).max_mint_per_tx == old(self).max_mint_per_tx,
            final(self).bootstrap_btc == old(self).bootstrap_btc,
            final(self).bootstrap_zec == old(self).bootstrap_zec,
            final(self).reserve_asset == old(self).reserve_asset,
    {
        self.btc_reserve = self.btc_reserve.saturating_add(amount);
    }

    /// Admin: record newly received backing reserve, clamped to the
    /// counter's range.
    pub fn update_zec_reserve(&mut self, amount: u64)
        ensures
            final(self).zec_reserve == spec_saturating_add(old(self).zec_reserve, amount),
            final(self).btc_reserve == old(self).btc_reserve,
            final(self).paused == old(self).paused,
            final(self).total_minted == old(self).total_minted,
            final(self).total_burned == old(self).total_burned,
            final(self).authority@ == old(self).authority@,
            final(self).mint@ == old(self).mint@,
            final(self).max_mint_per_tx == old(self).max_mint_per_tx,
            final(self).bootstrap_btc == old(self).bootstrap_btc,
            final(self).bootstrap_zec == old(self).bootstrap_zec,
            final(self).reserve_asset == old(self).reserve_asset,
    {
        self.zec_reserve = self.zec_reserve.saturating_add(amount);
    }

    /// Authorize a mint for the coordinator: the accounting check
    /// and counter move of a successful mint-triggering computation.
    pub fn commit_mint(&mut self, amount: u64) -> (r: Result<(), ErrorCode>)
        ensures
            r is Ok <==> !old(self).paused && amount > 0 && amount <= old(self).max_mint_per_tx
                && old(self).total_minted + amount <= spec_available_reserve(*old(self)),
            r is Err ==> *final(self) == *old(self),
            r is Ok ==> final(self).total_minted == old(self).total_minted + amount
                && final(self).total_burned == old(self).total_burned
                && final(self).paused == old(self).paused
                && final(self).btc_reserve == old(self).btc_reserve
                && final(self).zec_reserve == old(self).zec_reserve
                && final(self).reserve_asset == old(self).reserve_asset
                && final(self).max_mint_per_tx == old(self).max_mint_per_tx
                && final(self).authority@ == old(self).authority@
                && final(self).mint@ == old(self).mint@
                && final(self).bootstrap_btc == old(self).bootstrap_btc
                && final(self).bootstrap_zec == old(self).bootstrap_zec,
    {
        self.mint_zenzec(amount)
    }
}

} // verus!
