//! The two instructions of the exchange: throwing a bottle into the water
//! and retrieving one, each against the accounts it reads and writes.
//!
//! Every instruction is atomic: when it fails, no account it was handed has
//! changed.

use crate::bag::{Bag, BagError};
use vstd::prelude::*;
use vstd::utf8::encode_utf8;

verus! {

/// The longest message a bottle holds, in bytes.
pub const MAX_MESSAGE_SIZE: usize = 400;

/// Lamports in one SOL, the unit in which assets are thrown.
pub const LAMPORTS_PER_SOL: u64 = 1000000000;

/// Where a bottle is in its one-way lifecycle.
#[derive(Debug, Clone, Copy, PartialEq, Eq, Structural)]
pub enum BottleState {
    /// The bottle is drifting in the water and can be retrieved.
    Drifting,
    /// The bottle has been retrieved from the water.
    Retrieved,
}

/// Errors raised by the checks on a thrown bottle.
#[derive(Debug, Clone, Copy, PartialEq, Eq, Structural)]
pub enum BottleError {
    /// The message is longer than `MAX_MESSAGE_SIZE` bytes.
    MessageTooLong,
}

/// Why moving lamports between two accounts failed.
#[derive(Debug, Clone, Copy, PartialEq, Eq, Structural)]
pub enum TransferError {
    /// The paying account holds fewer lamports than the amount.
    InsufficientFunds,
    /// The amount, or the receiving balance after the transfer, does not
    /// fit in 64 bits.
    Overflow,
}

/// Any failure of an instruction.
#[derive(Debug, Clone, Copy, PartialEq, Eq, Structural)]
pub enum ProgramError {
    /// A check on the thrown bottle failed.
    Bottle(BottleError),
    /// A daily limit or a retrieve rule refused the operation.
    Bag(BagError),
    /// Moving lamports into or out of escrow failed.
    Transfer(TransferError),
    /// The escrow account handed in is not the one the bottle names.
    AssetAccountMismatch,
}

/// An account: its 32-byte key and its balance in lamports.
#[derive(Debug, Clone, Copy)]
pub struct Account {
    pub key: [u8; 32],
    pub lamports: u64,
}

/// One bottle record.
#[derive(Debug, Clone)]
pub struct Bottle {
    /// The id the sender gave the bottle, unique among the sender's bottles.
    pub id: u64,
    /// Who threw the bottle.
    pub sender: [u8; 32],
    /// Ledger time at which the bottle was thrown.
    pub timestamp: i64,
    /// Only a drifting bottle can be retrieved.
    pub state: BottleState,
    /// Lamports held in escrow for whoever retrieves the bottle.
    pub asset: u64,
    /// The escrow account holding `asset`; meaningful only when `asset > 0`.
    pub asset_account: [u8; 32],
    /// The nonce with which the escrow account's signing authority is derived.
    pub bump: u8,
    /// The message in the bottle.
    pub message: String,
}

/// The accounts that throwing a bottle reads and writes.
#[derive(Debug)]
pub struct ThrowABottle {
    /// Who throws the bottle and pays for its asset.
    pub sender: Account,
    /// The escrow account, derived from the sender and the bottle's id.
    pub bottle_asset: Account,
    /// The nonce with which `bottle_asset` was derived.
    pub bottle_asset_bump: u8,
    /// The freshly created record of the bottle.
    pub bottle: Bottle,
    /// The sender's bag for thrown bottles.
    pub bag: Bag,
}

/// The accounts that retrieving a bottle reads and writes.
#[derive(Debug)]
pub struct RetrieveABottle {
    /// The bottle to retrieve.
    pub bottle: Bottle,
    /// The escrow account that the bottle names.
    pub bottle_asset: Account,
    /// Who retrieves the bottle.
    pub retrievee: Account,
    /// The retrievee's bag for retrieved bottles.
    pub bag: Bag,
}

/// The size in bytes of a message with characters `m`, as `str::len`
/// counts it.
pub open spec fn message_size(m: Seq<char>) -> usize {
    encode_utf8(m).len() as usize
}

/// The key of no account, all zero bytes.
pub open spec fn zero_key() -> Seq<u8> {
    Seq::new(32, |i: int| 0u8)
}

/// The balances of payer and payee after moving `amount` lamports, or why
/// that fails.
pub open spec fn spec_transfer(from: u64, to: u64, amount: int) -> Result<(u64, u64), TransferError> {
    if amount > u64::MAX {
        Err(TransferError::Overflow)
    } else if from < amount {
        Err(TransferError::InsufficientFunds)
    } else if to + amount > u64::MAX {
        Err(TransferError::Overflow)
    } else {
        Ok(((from - amount) as u64, (to + amount) as u64))
    }
}

/// Moves `amount` lamports between two balances.
pub fn transfer_lamports(from: u64, to: u64, amount: u64) -> (r: Result<(u64, u64), TransferError>)
    ensures
        r == spec_transfer(from, to, amount as int),
{
    if from < amount {
        return Err(TransferError::InsufficientFunds);
    }
    match to.checked_add(amount) {
        None => Err(TransferError::Overflow),
        Some(credited) => Ok((from - amount, credited)),
    }
}

/// Whether two keys are the same.
pub fn same_key(a: &[u8; 32], b: &[u8; 32]) -> (r: bool)
    ensures
        r == (a@ == b@),
{
    let mut i: usize = 0;
    while i < 32
        invariant
            i <= 32,
            forall|j: int| 0 <= j < i ==> a@[j] == b@[j],
        decreases 32 - i,
    {
        if a[i] != b[i] {
            return false;
        }
        i = i + 1;
    }
    assert(a@ =~= b@);
    true
}

/// Why throwing a bottle fails, checked in order: the message's length,
/// the sender's daily limit, then the transfer of the asset into escrow.
pub open spec fn throw_error(ctx: ThrowABottle, now: i64, asset: u64, message: Seq<char>) -> Option<
    ProgramError,
> {
    if message_size(message) > MAX_MESSAGE_SIZE {
        Some(ProgramError::Bottle(BottleError::MessageTooLong))
    } else if ctx.bag.spec_refuses(now) {
        Some(ProgramError::Bag(BagError::MaxDailyBottleExceeded))
    } else if asset > 0 {
        match spec_transfer(
            ctx.sender.lamports,
            ctx.bottle_asset.lamports,
            asset * LAMPORTS_PER_SOL,
        ) {
            Err(e) => Some(ProgramError::Transfer(e)),
            Ok(_) => None,
        }
    } else {
        None
    }
}

/// The accounts `new` after `old` threw a bottle: the record is written,
/// the asset, if any, moved into escrow, and the bag counts the throw.
pub open spec fn thrown(
    old: ThrowABottle,
    new: ThrowABottle,
    now: i64,
    id: u64,
    asset: u64,
    message: Seq<char>,
) -> bool {
    &&& new.bottle.id == id
    &&& new.bottle.sender == old.sender.key
    &&& new.bottle.timestamp == now
    &&& new.bottle.state == BottleState::Drifting
    &&& new.bottle.bump == old.bottle_asset_bump
    &&& new.bottle.message@ == message
    &&& new.bag == old.bag.spec_next(now)->Ok_0
    &&& new.sender.key == old.sender.key
    &&& new.bottle_asset.key == old.bottle_asset.key
    &&& new.bottle_asset_bump == old.bottle_asset_bump
    &&& if asset > 0 {
        let lamports = asset * LAMPORTS_PER_SOL;
        &&& new.bottle.asset == lamports
        &&& new.bottle.asset_account == old.bottle_asset.key
        &&& new.sender.lamports == old.sender.lamports - lamports
        &&& new.bottle_asset.lamports == old.bottle_asset.lamports + lamports
    } else {
        &&& new.bottle.asset == 0
        &&& new.bottle.asset_account@ == zero_key()
        &&& new.sender.lamports == old.sender.lamports
        &&& new.bottle_asset.lamports == old.bottle_asset.lamports
    }
}

/// Throws a bottle with `message` and `asset` SOL in escrow, at ledger time
/// `now`, under the sender-chosen `id`.
pub fn throw_a_bottle(ctx: &mut ThrowABottle, now: i64, id: u64, asset: u64, message: String) -> (r:
    Result<(), ProgramError>)
    ensures
        r == match throw_error(*old(ctx), now, asset, message@) {
            Some(e) => Err(e),
            None => Ok(()),
        },
        r is Err ==> *final(ctx) == *old(ctx),
        r is Ok ==> thrown(*old(ctx), *final(ctx), now, id, asset, message@),
        message_size(message@) > MAX_MESSAGE_SIZE ==> r == Err::<(), ProgramError>(
            ProgramError::Bottle(BottleError::MessageTooLong),
        ),
        r is Ok && asset == 0 ==> final(ctx).bottle.asset == 0 && final(ctx).sender.lamports
            == old(ctx).sender.lamports,
{
    if message.as_str().len() > MAX_MESSAGE_SIZE {
        return Err(ProgramError::Bottle(BottleError::MessageTooLong));
    }
    let bag = match ctx.bag.next(now) {
        Ok(b) => b,
        Err(e) => {
            return Err(ProgramError::Bag(e));
        },
    };
    if asset > 0 {
        let lamports = match asset.checked_mul(LAMPORTS_PER_SOL) {
            Some(v) => v,
            None => {
                return Err(ProgramError::Transfer(TransferError::Overflow));
            },
        };
        let (paid, held) = match transfer_lamports(
            ctx.sender.lamports,
            ctx.bottle_asset.lamports,
            lamports,
        ) {
            Ok(balances) => balances,
            Err(e) => {
                return Err(ProgramError::Transfer(e));
            },
        };
        ctx.sender.lamports = paid;
        ctx.bottle_asset.lamports = held;
        ctx.bottle.asset = lamports;
        ctx.bottle.asset_account = ctx.bottle_asset.key;
    } else {
        ctx.bottle.asset = 0;
        ctx.bottle.asset_account = [0u8; 32];
        assert(ctx.bottle.asset_account@ =~= zero_key());
    }
    ctx.bottle.id = id;
    ctx.bottle.bump = ctx.bottle_asset_bump;
    ctx.bottle.sender = ctx.sender.key;
    ctx.bottle.timestamp = now;
    ctx.bottle.state = BottleState::Drifting;
    ctx.bottle.message = message;
    ctx.bag = bag;
    Ok(())
}

/// Why retrieving a bottle fails, checked in order: the retrievee's own
/// bottle, the retrievee's daily limit, a bottle no longer drifting, then
/// the release of the asset from escrow.
pub open spec fn retrieve_error(ctx: RetrieveABottle, now: i64) -> Option<ProgramError> {
    if ctx.bottle.sender@ == ctx.retrievee.key@ {
        Some(ProgramError::Bag(BagError::CannotRetrieveOwnBottle))
    } else if ctx.bag.spec_refuses(now) {
        Some(ProgramError::Bag(BagError::MaxDailyBottleExceeded))
    } else if ctx.bottle.state != BottleState::Drifting {
        Some(ProgramError::Bag(BagError::BottleAlreadyRetrieved))
    } else if ctx.bottle.asset > 0 {
        if ctx.bottle_asset.key@ != ctx.bottle.asset_account@ {
            Some(ProgramError::AssetAccountMismatch)
        } else {
            match spec_transfer(
                ctx.bottle_asset.lamports,
                ctx.retrievee.lamports,
                ctx.bottle.asset as int,
            ) {
                Err(e) => Some(ProgramError::Transfer(e)),
                Ok(_) => None,
            }
        }
    } else {
        None
    }
}

/// The accounts `new` after `old` retrieved its bottle: the bottle is
/// retrieved and otherwise as it was, the escrowed asset, if any, moved to
/// the retrievee, and the bag counts the retrieval.
pub open spec fn retrieved(old: RetrieveABottle, new: RetrieveABottle, now: i64) -> bool {
    &&& new.bottle.state == BottleState::Retrieved
    &&& new.bottle.id == old.bottle.id
    &&& new.bottle.sender == old.bottle.sender
    &&& new.bottle.timestamp == old.bottle.timestamp
    &&& new.bottle.asset == old.bottle.asset
    &&& new.bottle.asset_account == old.bottle.asset_account
    &&& new.bottle.bump == old.bottle.bump
    &&& new.bottle.message == old.bottle.message
    &&& new.bag == old.bag.spec_next(now)->Ok_0
    &&& new.bottle_asset.key == old.bottle_asset.key
    &&& new.retrievee.key == old.retrievee.key
    &&& if old.bottle.asset > 0 {
        &&& new.bottle_asset.lamports == old.bottle_asset.lamports - old.bottle.asset
        &&& new.retrievee.lamports == old.retrievee.lamports + old.bottle.asset
    } else {
        &&& new.bottle_asset.lamports == old.bottle_asset.lamports
        &&& new.retrievee.lamports == old.retrievee.lamports
    }
}

/// Retrieves the bottle at ledger time `now`, handing its escrowed asset to
/// the retrievee.
pub fn retrieve_a_bottle(ctx: &mut RetrieveABottle, now: i64) -> (r: Result<(), ProgramError>)
    ensures
        r == match retrieve_error(*old(ctx), now) {
            Some(e) => Err(e),
            None => Ok(()),
        },
        r is Err ==> *final(ctx) == *old(ctx),
        r is Ok ==> retrieved(*old(ctx), *final(ctx), now),
        old(ctx).bottle.sender@ == old(ctx).retrievee.key@ ==> r == Err::<(), ProgramError>(
            ProgramError::Bag(BagError::CannotRetrieveOwnBottle),
        ),
{
    if same_key(&ctx.bottle.sender, &ctx.retrievee.key) {
        return Err(ProgramError::Bag(BagError::CannotRetrieveOwnBottle));
    }
    let bag = match ctx.bag.next(now) {
        Ok(b) => b,
        Err(e) => {
            return Err(ProgramError::Bag(e));
        },
    };
    if ctx.bottle.state != BottleState::Drifting {
        return Err(ProgramError::Bag(BagError::BottleAlreadyRetrieved));
    }
    if ctx.bottle.asset > 0 {
        if !same_key(&ctx.bottle_asset.key, &ctx.bottle.asset_account) {
            return Err(ProgramError::AssetAccountMismatch);
        }
        let (drained, paid) = match transfer_lamports(
            ctx.bottle_asset.lamports,
            ctx.retrievee.lamports,
            ctx.bottle.asset,
        ) {
            Ok(balances) => balances,
            Err(e) => {
                return Err(ProgramError::Transfer(e));
            },
        };
        ctx.bottle_asset.lamports = drained;
        ctx.retrievee.lamports = paid;
    }
    ctx.bottle.state = BottleState::Retrieved;
    ctx.bag = bag;
    Ok(())
}

/// A bottle once retrieved cannot be retrieved again: any later retrieval
/// by someone other than its sender, whose own daily limit admits it, fails
/// with `BottleAlreadyRetrieved`, and so leaves the bottle and the asset
/// released by the first retrieval as they are.
pub proof fn lemma_second_retrieve_refused(
    first: RetrieveABottle,
    after: RetrieveABottle,
    now: i64,
    second: RetrieveABottle,
    later: i64,
)
    requires
        retrieve_error(first, now) is None,
        retrieved(first, after, now),
        second.bottle == after.bottle,
        second.retrievee.key@ != second.bottle.sender@,
        !second.bag.spec_refuses(later),
    ensures
        retrieve_error(second, later) == Some(ProgramError::Bag(BagError::BottleAlreadyRetrieved)),
{
}

} // verus!
