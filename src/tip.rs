use vstd::prelude::*;
use vstd::utf8::encode_utf8;
use crate::address::{Address, Wallet, byte_len, find_program_address, found_view, program_address_of};

verus! {

#[derive(Clone, Copy, Debug, PartialEq, Eq, Structural)]
pub enum CoffeeError {
    InvalidAmount,
    InsufficientBalance,
    MessageTooLong,
}

/// Longest tip message, in UTF-8 bytes, that a history record can hold.
pub const MAX_MESSAGE_LEN: usize = 200;

/// The record of one tip, stored at an address derived from the tipper and
/// the tip's timestamp.
#[derive(Clone, Debug)]
pub struct TipHistory {
    pub tipper: Address,
    pub amount: u64,
    pub message: String,
    pub timestamp: i64,
}

impl TipHistory {
    /// Account size: discriminator, tipper, amount, length prefix and up to
    /// 200 message bytes, timestamp.
    pub const LEN: usize = 8 + 32 + 8 + 4 + MAX_MESSAGE_LEN + 8;
}

#[derive(Clone, Copy, Debug)]
pub struct TipEvent {
    pub tipper: Address,
    pub amount: u64,
}

/// The accounts of a tip: the paying signer, the creator who receives, and
/// the history record to fill.
#[derive(Clone, Debug)]
pub struct Tip {
    pub tipper: Wallet,
    pub creator: Wallet,
    pub tip_history: TipHistory,
}

pub open spec fn tip_error(ctx: Tip, amount: u64, message: Seq<char>) -> Option<CoffeeError> {
    if amount == 0 {
        Some(CoffeeError::InvalidAmount)
    } else if ctx.tipper.lamports < amount {
        Some(CoffeeError::InsufficientBalance)
    } else if byte_len(message) > MAX_MESSAGE_LEN {
        Some(CoffeeError::MessageTooLong)
    } else {
        None
    }
}

/// Sends `amount` lamports from the tipper to the creator and records the tip;
/// a message that the record cannot hold refuses the whole tip.
/// Both balances together stay within the host's lamport supply, a `u64`.
pub fn tip(ctx: &mut Tip, amount: u64, message: String, timestamp: i64) -> (r: Result<TipEvent, CoffeeError>)
    requires
        old(ctx).tipper.lamports + old(ctx).creator.lamports <= u64::MAX,
        byte_len(message@) <= usize::MAX,
    ensures
        match tip_error(*old(ctx), amount, message@) {
            Some(e) => r == Err::<TipEvent, CoffeeError>(e) && *final(ctx) == *old(ctx),
            None => {
                &&& r matches Ok(ev)
                &&& ev.tipper == old(ctx).tipper.key
                &&& ev.amount == amount
                &&& final(ctx).tipper.key == old(ctx).tipper.key
                &&& final(ctx).tipper.lamports == old(ctx).tipper.lamports - amount
                &&& final(ctx).creator.key == old(ctx).creator.key
                &&& final(ctx).creator.lamports == old(ctx).creator.lamports + amount
                &&& final(ctx).tip_history.tipper == old(ctx).tipper.key
                &&& final(ctx).tip_history.amount == amount
                &&& final(ctx).tip_history.message@ == message@
                &&& final(ctx).tip_history.timestamp == timestamp
            },
        },
{
    if amount == 0 {
        return Err(CoffeeError::InvalidAmount);
    }
    if ctx.tipper.lamports < amount {
        return Err(CoffeeError::InsufficientBalance);
    }
    if message.as_str().len() > MAX_MESSAGE_LEN {
        return Err(CoffeeError::MessageTooLong);
    }
    ctx.tipper.lamports = ctx.tipper.lamports - amount;
    ctx.creator.lamports = ctx.creator.lamports + amount;
    ctx.tip_history.tipper = ctx.tipper.key;
    ctx.tip_history.amount = amount;
    ctx.tip_history.message = message;
    ctx.tip_history.timestamp = timestamp;
    Ok(TipEvent { tipper: ctx.tipper.key, amount })
}

/// The low `n` bytes of `u`, least significant first.
pub open spec fn le_bytes(u: u64, n: nat) -> Seq<u8> {
    Seq::new(n, |k: int| ((u >> (8 * k) as u64) & 0xff) as u8)
}

/// The stored layout of a tip record after its account tag: tipper, amount,
/// message length and bytes, timestamp; integers little-endian.
pub open spec fn tip_history_bytes(h: TipHistory) -> Seq<u8> {
    h.tipper@ + le_bytes(h.amount, 8) + le_bytes(byte_len(h.message@) as u64, 4) + encode_utf8(h.message@)
        + le_bytes(h.timestamp as u64, 8)
}

/// Appends the low `n` bytes of `u`, least significant first.
fn push_le(out: &mut Vec<u8>, u: u64, n: u64)
    requires
        n <= 8,
    ensures
        final(out)@ == old(out)@ + le_bytes(u, n as nat),
{
    let mut k: u64 = 0;
    while k < n
        invariant
            k <= n <= 8,
            out@ == old(out)@ + le_bytes(u, k as nat),
        decreases n - k,
    {
        out.push(((u >> (8 * k)) & 0xff) as u8);
        k = k + 1;
        assert(out@ =~= old(out)@ + le_bytes(u, k as nat));
    }
}

impl TipHistory {
    /// Writes the record in its stored layout.
    pub fn to_bytes(&self) -> (r: Vec<u8>)
        requires
            byte_len(self.message@) <= MAX_MESSAGE_LEN,
        ensures
            r@ == tip_history_bytes(*self),
    {
        let mut out = self.tipper.to_vec();
        push_le(&mut out, self.amount, 8);
        let text = self.message.as_str().as_bytes();
        push_le(&mut out, text.len() as u64, 4);
        let ghost before = out@;
        let mut i: usize = 0;
        while i < text.len()
            invariant
                i <= text@.len(),
                text@ == encode_utf8(self.message@),
                out@ == before + text@.subrange(0, i as int),
            decreases text@.len() - i,
        {
            out.push(text[i]);
            i = i + 1;
            assert(out@ =~= before + text@.subrange(0, i as int));
        }
        assert(text@.subrange(0, text@.len() as int) =~= text@);
        push_le(&mut out, self.timestamp as u64, 8);
        out
    }
}

/// The bytes of "tip_history".
pub open spec fn tip_history_seed() -> Seq<u8> {
    seq![116u8, 105u8, 112u8, 95u8, 104u8, 105u8, 115u8, 116u8, 111u8, 114u8, 121u8]
}

/// The big-endian two's-complement bytes of `t`.
pub open spec fn be_bytes(t: i64) -> Seq<u8> {
    let u = t as u64;
    Seq::new(8, |k: int| ((u >> (56 - 8 * k) as u64) & 0xff) as u8)
}

pub open spec fn tip_history_seeds(tipper: Seq<u8>, timestamp: i64) -> Seq<Seq<u8>> {
    seq![tip_history_seed(), tipper, be_bytes(timestamp)]
}

/// Big-endian bytes of a timestamp.
pub fn timestamp_be_bytes(t: i64) -> (r: Vec<u8>)
    ensures
        r@ == be_bytes(t),
{
    let u = t as u64;
    let mut v: Vec<u8> = Vec::new();
    let mut k: u64 = 0;
    while k < 8
        invariant
            k <= 8,
            u == t as u64,
            v@.len() == k,
            forall|j: int| 0 <= j < k ==> v@[j] == ((u >> (56 - 8 * j) as u64) & 0xff) as u8,
        decreases 8 - k,
    {
        v.push(((u >> (56 - 8 * k)) & 0xff) as u8);
        k = k + 1;
    }
    assert(v@ =~= be_bytes(t));
    v
}

/// Derives the address of the history record of a tip by `tipper` at `timestamp`.
pub fn find_tip_history_address(tipper: &Address, timestamp: i64, program_id: &Address) -> (r: Option<(Address, u8)>)
    ensures
        found_view(r) == program_address_of(tip_history_seeds(tipper@, timestamp), program_id@),
{
    let tag: Vec<u8> = vec![116u8, 105u8, 112u8, 95u8, 104u8, 105u8, 115u8, 116u8, 111u8, 114u8, 121u8];
    assert(tag@ =~= tip_history_seed());
    let mut seeds: Vec<Vec<u8>> = Vec::new();
    seeds.push(tag);
    seeds.push(tipper.to_vec());
    seeds.push(timestamp_be_bytes(timestamp));
    assert(seeds@[0].deep_view() =~= tip_history_seed());
    assert(seeds@[1].deep_view() =~= tipper@);
    assert(seeds@[2].deep_view() =~= be_bytes(timestamp));
    assert(seeds.deep_view() =~= tip_history_seeds(tipper@, timestamp));
    find_program_address(&seeds, program_id)
}

} // verus!
