use vstd::prelude::*;
use crate::address::{Address, Wallet, find_program_address, found_view, program_address_of};

verus! {

/// Why a vault instruction was refused. A refused instruction changes nothing.
#[derive(Clone, Copy, Debug, PartialEq, Eq, Structural)]
pub enum VaultError {
    InvalidAmount,
    InsufficientBalance,
    VaultLocked,
    Unauthorized,
}

/// The persisted vault record: its sole authority and the lock flag.
#[derive(Clone, Copy, Debug)]
pub struct Vault {
    pub vault_authority: Address,
    pub locked: bool,
}

/// The vault account: its derived address, its own lamport balance and its record.
#[derive(Clone, Copy, Debug)]
pub struct VaultAccount {
    pub key: Address,
    pub lamports: u64,
    pub vault: Vault,
}

/// The accounts of a deposit: the paying signer and the target vault.
#[derive(Clone, Copy, Debug)]
pub struct Deposit {
    pub user: Wallet,
    pub vault: VaultAccount,
}

/// The accounts of a withdrawal: the signer claiming authority and the vault.
#[derive(Clone, Copy, Debug)]
pub struct Withdraw {
    pub vault_authority: Wallet,
    pub vault: VaultAccount,
}

/// The accounts of a lock toggle: the signer claiming authority and the vault.
#[derive(Clone, Copy, Debug)]
pub struct ToggleLock {
    pub vault_authority: Address,
    pub vault: VaultAccount,
}

#[derive(Clone, Copy, Debug)]
pub struct DepositEvent {
    pub amount: u64,
    pub user: Address,
    pub vault: Address,
}

#[derive(Clone, Copy, Debug)]
pub struct WithdrawEvent {
    pub amount: u64,
    pub vault: Address,
    pub vault_authority: Address,
}

#[derive(Clone, Copy, Debug)]
pub struct ToggleLockEvent {
    pub vault: Address,
    pub vault_authority: Address,
    pub locked: bool,
}

/// The stored layout of a vault record: the authority's 32 bytes, then the
/// lock flag as one byte, 1 for locked and 0 for unlocked.
pub open spec fn vault_record_bytes(v: Vault) -> Seq<u8> {
    v.vault_authority@ + seq![if v.locked { 1u8 } else { 0u8 }]
}

/// Whether `data` starts with a well-formed vault record.
pub open spec fn holds_vault_record(data: Seq<u8>) -> bool {
    data.len() >= 33 && data[32] <= 1
}

impl Vault {
    /// Writes the record in its stored layout.
    pub fn to_bytes(&self) -> (r: Vec<u8>)
        ensures
            r@ == vault_record_bytes(*self),
    {
        let mut out = self.vault_authority.to_vec();
        if self.locked {
            out.push(1u8);
        } else {
            out.push(0u8);
        }
        assert(out@ =~= vault_record_bytes(*self));
        out
    }

    /// Reads a record from the start of `data`; bytes after it are ignored.
    pub fn from_bytes(data: &[u8]) -> (r: Option<Vault>)
        ensures
            r is Some <==> holds_vault_record(data@),
            r matches Some(v) ==> v.vault_authority@ == data@.subrange(0, 32) && v.locked == (data@[32]
                == 1),
    {
        if data.len() < 33 || data[32] > 1 {
            return None;
        }
        let mut bytes = [0u8; 32];
        let mut i: usize = 0;
        while i < 32
            invariant
                i <= 32,
                data@.len() >= 33,
                bytes@.len() == 32,
                forall|j: int| 0 <= j < i ==> bytes@[j] == data@[j],
            decreases 32 - i,
        {
            bytes[i] = data[i];
            i = i + 1;
        }
        assert(bytes@ =~= data@.subrange(0, 32));
        Some(Vault { vault_authority: Address::new(bytes), locked: data[32] == 1 })
    }
}

/// The namespace tag of vault addresses: the bytes of "vault".
pub open spec fn vault_seed() -> Seq<u8> {
    seq![118u8, 97u8, 117u8, 108u8, 116u8]
}

pub open spec fn vault_seeds(authority: Seq<u8>) -> Seq<Seq<u8>> {
    seq![vault_seed(), authority]
}

/// The error a deposit of `amount` meets, checked in this order, if any.
pub open spec fn deposit_error(ctx: Deposit, amount: u64) -> Option<VaultError> {
    if ctx.vault.vault.locked {
        Some(VaultError::VaultLocked)
    } else if amount == 0 {
        Some(VaultError::InvalidAmount)
    } else if ctx.user.lamports < amount {
        Some(VaultError::InsufficientBalance)
    } else {
        None
    }
}

/// The error a withdrawal of `amount` meets, checked in this order, if any.
pub open spec fn withdraw_error(ctx: Withdraw, amount: u64) -> Option<VaultError> {
    if ctx.vault_authority.key@ != ctx.vault.vault.vault_authority@ {
        Some(VaultError::Unauthorized)
    } else if ctx.vault.vault.locked {
        Some(VaultError::VaultLocked)
    } else if amount == 0 {
        Some(VaultError::InvalidAmount)
    } else if ctx.vault.lamports < amount {
        Some(VaultError::InsufficientBalance)
    } else {
        None
    }
}

pub open spec fn toggle_error(ctx: ToggleLock) -> Option<VaultError> {
    if ctx.vault_authority@ != ctx.vault.vault.vault_authority@ {
        Some(VaultError::Unauthorized)
    } else {
        None
    }
}

/// `after` is `before` with `amount` more lamports and the same record.
pub open spec fn credited(before: VaultAccount, amount: u64, after: VaultAccount) -> bool {
    &&& after.lamports == before.lamports + amount
    &&& after.key == before.key
    &&& after.vault == before.vault
}

/// `after` is `before` with `amount` fewer lamports and the same record.
pub open spec fn debited(before: VaultAccount, amount: u64, after: VaultAccount) -> bool {
    &&& after.lamports == before.lamports - amount
    &&& after.key == before.key
    &&& after.vault == before.vault
}

/// `after` is `before` with the lock flag flipped and nothing else changed.
pub open spec fn toggled(before: VaultAccount, after: VaultAccount) -> bool {
    &&& after.vault.locked == !before.vault.locked
    &&& after.vault.vault_authority == before.vault.vault_authority
    &&& after.key == before.key
    &&& after.lamports == before.lamports
}

/// Derives the vault address of `vault_authority` under `program_id`, from the
/// tag "vault" and the authority's identity.
pub fn find_vault_address(vault_authority: &Address, program_id: &Address) -> (r: Option<(Address, u8)>)
    ensures
        found_view(r) == program_address_of(vault_seeds(vault_authority@), program_id@),
{
    let mut tag: Vec<u8> = Vec::new();
    tag.push(118u8);
    tag.push(97u8);
    tag.push(117u8);
    tag.push(108u8);
    tag.push(116u8);
    assert(tag@ =~= vault_seed());
    let mut seeds: Vec<Vec<u8>> = Vec::new();
    seeds.push(tag);
    seeds.push(vault_authority.to_vec());
    assert(seeds@[0].deep_view() =~= vault_seed());
    assert(seeds@[1].deep_view() =~= vault_authority@);
    assert(seeds.deep_view() =~= vault_seeds(vault_authority@));
    find_program_address(&seeds, program_id)
}

/// Whether `account` sits at the address derived from its own authority.
pub fn at_vault_address(account: &VaultAccount, program_id: &Address) -> (r: bool)
    ensures
        r == (program_address_of(vault_seeds(account.vault.vault_authority@), program_id@) matches Some(
            (a, _),
        ) && a == account.key@),
{
    match find_vault_address(&account.vault.vault_authority, program_id) {
        Some((a, _)) => a.same_as(&account.key),
        None => false,
    }
}

/// Moves `amount` lamports from the depositing signer into an unlocked vault.
/// Both balances together stay within the host's lamport supply, a `u64`.
pub fn deposit(ctx: &mut Deposit, amount: u64) -> (r: Result<DepositEvent, VaultError>)
    requires
        old(ctx).user.lamports + old(ctx).vault.lamports <= u64::MAX,
    ensures
        match deposit_error(*old(ctx), amount) {
            Some(e) => r == Err::<DepositEvent, VaultError>(e) && *final(ctx) == *old(ctx),
            None => {
                &&& r matches Ok(ev)
                &&& ev.amount == amount
                &&& ev.user == old(ctx).user.key
                &&& ev.vault == old(ctx).vault.key
                &&& final(ctx).user.key == old(ctx).user.key
                &&& final(ctx).user.lamports == old(ctx).user.lamports - amount
                &&& credited(old(ctx).vault, amount, final(ctx).vault)
            },
        },
        old(ctx).vault.vault.locked ==> r == Err::<DepositEvent, VaultError>(VaultError::VaultLocked)
            && *final(ctx) == *old(ctx),
{
    if ctx.vault.vault.locked {
        return Err(VaultError::VaultLocked);
    }
    if amount == 0 {
        return Err(VaultError::InvalidAmount);
    }
    if ctx.user.lamports < amount {
        return Err(VaultError::InsufficientBalance);
    }
    ctx.user.lamports = ctx.user.lamports - amount;
    ctx.vault.lamports = ctx.vault.lamports + amount;
    Ok(DepositEvent { amount, user: ctx.user.key, vault: ctx.vault.key })
}

/// Moves `amount` lamports out of an unlocked vault to its authority. The vault
/// has no signing key, so both balances are adjusted here, inside one call.
/// Both balances together stay within the host's lamport supply, a `u64`.
pub fn withdraw(ctx: &mut Withdraw, amount: u64) -> (r: Result<WithdrawEvent, VaultError>)
    requires
        old(ctx).vault_authority.lamports + old(ctx).vault.lamports <= u64::MAX,
    ensures
        match withdraw_error(*old(ctx), amount) {
            Some(e) => r == Err::<WithdrawEvent, VaultError>(e) && *final(ctx) == *old(ctx),
            None => {
                &&& r matches Ok(ev)
                &&& ev.amount == amount
                &&& ev.vault == old(ctx).vault.key
                &&& ev.vault_authority == old(ctx).vault_authority.key
                &&& final(ctx).vault_authority.key == old(ctx).vault_authority.key
                &&& final(ctx).vault_authority.lamports == old(ctx).vault_authority.lamports + amount
                &&& debited(old(ctx).vault, amount, final(ctx).vault)
            },
        },
        old(ctx).vault_authority.key@ != old(ctx).vault.vault.vault_authority@ ==> r
            == Err::<WithdrawEvent, VaultError>(VaultError::Unauthorized) && *final(ctx) == *old(ctx),
{
    if !ctx.vault_authority.key.same_as(&ctx.vault.vault.vault_authority) {
        return Err(VaultError::Unauthorized);
    }
    if ctx.vault.vault.locked {
        return Err(VaultError::VaultLocked);
    }
    if amount == 0 {
        return Err(VaultError::InvalidAmount);
    }
    if ctx.vault.lamports < amount {
        return Err(VaultError::InsufficientBalance);
    }
    ctx.vault.lamports = ctx.vault.lamports - amount;
    ctx.vault_authority.lamports = ctx.vault_authority.lamports + amount;
    Ok(WithdrawEvent { amount, vault: ctx.vault.key, vault_authority: ctx.vault_authority.key })
}

/// Flips the vault's lock flag; only its authority may do so.
pub fn toggle_lock(ctx: &mut ToggleLock) -> (r: Result<ToggleLockEvent, VaultError>)
    ensures
        match toggle_error(*old(ctx)) {
            Some(e) => r == Err::<ToggleLockEvent, VaultError>(e) && *final(ctx) == *old(ctx),
            None => {
                &&& r matches Ok(ev)
                &&& ev.vault == old(ctx).vault.key
                &&& ev.vault_authority == old(ctx).vault.vault.vault_authority
                &&& ev.locked == final(ctx).vault.vault.locked
                &&& final(ctx).vault_authority == old(ctx).vault_authority
                &&& toggled(old(ctx).vault, final(ctx).vault)
            },
        },
        old(ctx).vault_authority@ != old(ctx).vault.vault.vault_authority@ ==> r
            == Err::<ToggleLockEvent, VaultError>(VaultError::Unauthorized) && *final(ctx) == *old(ctx),
{
    if !ctx.vault_authority.same_as(&ctx.vault.vault.vault_authority) {
        return Err(VaultError::Unauthorized);
    }
    ctx.vault.vault.locked = !ctx.vault.vault.locked;
    Ok(ToggleLockEvent {
        vault: ctx.vault.key,
        vault_authority: ctx.vault.vault.vault_authority,
        locked: ctx.vault.vault.locked,
    })
}

/// One successful balance change of a vault.
pub enum Movement {
    In(u64),
    Out(u64),
}

pub open spec fn moved(before: VaultAccount, m: Movement, after: VaultAccount) -> bool {
    match m {
        Movement::In(a) => credited(before, a, after),
        Movement::Out(a) => debited(before, a, after),
    }
}

/// The sum of the deposited amounts in `ms`.
pub open spec fn deposits_total(ms: Seq<Movement>) -> int
    decreases ms.len(),
{
    if ms.len() == 0 {
        0
    } else {
        deposits_total(ms.drop_last()) + match ms.last() {
            Movement::In(a) => a as int,
            Movement::Out(_) => 0,
        }
    }
}

/// The sum of the withdrawn amounts in `ms`.
pub open spec fn withdrawals_total(ms: Seq<Movement>) -> int
    decreases ms.len(),
{
    if ms.len() == 0 {
        0
    } else {
        withdrawals_total(ms.drop_last()) + match ms.last() {
            Movement::In(_) => 0,
            Movement::Out(a) => a as int,
        }
    }
}

/// Conservation: after any run of successful deposits and withdrawals, the
/// vault holds what it held before plus every deposit minus every withdrawal.
pub proof fn lemma_conservation(states: Seq<VaultAccount>, ms: Seq<Movement>)
    requires
        states.len() == ms.len() + 1,
        forall|i: int| 0 <= i < ms.len() ==> moved(#[trigger] states[i], ms[i], states[i + 1]),
    ensures
        states.last().lamports == states[0].lamports + deposits_total(ms) - withdrawals_total(ms),
    decreases ms.len(),
{
    if ms.len() > 0 {
        let n = ms.len() - 1;
        lemma_conservation(states.drop_last(), ms.drop_last());
        assert(moved(states[n], ms[n], states[n + 1]));
        assert(states.drop_last().last() == states[n]);
    }
}

/// Lock gating: while a vault is locked, a deposit, and a withdrawal by its
/// authority, is refused with `VaultLocked`.
pub proof fn lemma_locked_vault_refuses(d: Deposit, w: Withdraw, amount: u64)
    requires
        d.vault.vault.locked,
        w.vault.vault.locked,
        w.vault_authority.key@ == w.vault.vault.vault_authority@,
    ensures
        deposit_error(d, amount) == Some(VaultError::VaultLocked),
        withdraw_error(w, amount) == Some(VaultError::VaultLocked),
{
}

/// Authority gating: a caller other than the vault's authority can neither
/// withdraw nor toggle the lock.
pub proof fn lemma_only_authority(w: Withdraw, t: ToggleLock, amount: u64)
    requires
        w.vault_authority.key@ != w.vault.vault.vault_authority@,
        t.vault_authority@ != t.vault.vault.vault_authority@,
    ensures
        withdraw_error(w, amount) == Some(VaultError::Unauthorized),
        toggle_error(t) == Some(VaultError::Unauthorized),
{
}

/// Toggling the lock twice restores the original lock state.
pub proof fn lemma_toggle_twice(s0: VaultAccount, s1: VaultAccount, s2: VaultAccount)
    requires
        toggled(s0, s1),
        toggled(s1, s2),
    ensures
        s2.vault.locked == s0.vault.locked,
        s2.lamports == s0.lamports,
{
}

/// Deriving the vault address twice from the same authority under the same
/// program yields the same address and bump.
pub proof fn lemma_vault_address_idempotent(a1: Seq<u8>, a2: Seq<u8>, program_id: Seq<u8>)
    requires
        a1 == a2,
    ensures
        program_address_of(vault_seeds(a1), program_id) == program_address_of(vault_seeds(a2), program_id),
{
}

} // verus!
