//! Consolidation of the treasury.
//!
//! Fees are paid into a pool of auxiliary accounts, so that independent
//! transactions do not contend for one account. A sweep visits the pool
//! in index order and moves what each account holds above its rent-exempt
//! minimum into the main treasury; once every index has been visited, the
//! main treasury's wrapped balance is reconciled with its reserve.
//!
//! The sweep itself talks to the ledger. What stands here is every
//! decision it takes: which account to read next, what to do about what
//! was read, when to reconcile and what to report.
use crate::neon_elf::CachedElfParams;
use crate::types::address::Pubkey;
use vstd::prelude::*;

verus! {

/// What a sweep reads of an auxiliary account that exists: its balance
/// and the least balance that exempts an account of its size from rent.
#[derive(Debug, Clone, Copy, PartialEq, Eq, Structural)]
pub struct PoolBalance {
    pub lamports: u64,
    pub rent_exempt_minimum: u64,
}

/// What a sweep does about one auxiliary account.
#[derive(Debug, Clone, Copy, PartialEq, Eq, Structural)]
pub enum SweepAction {
    /// Move this many lamports from the account at this index into the
    /// main treasury.
    Collect { index: u32, lamports: u64 },
    /// Leave the account at this index alone: it holds nothing above its
    /// minimum.
    Skip { index: u32 },
    /// Warn that the account at this index does not exist, and go on.
    NotFound { index: u32 },
}

/// What a sweep asks of its driver next.
#[derive(Debug, Clone, Copy, PartialEq, Eq, Structural)]
pub enum SweepStep {
    /// Read the auxiliary account at this index and hand it to `observe`.
    Read(u32),
    /// Reconcile the main treasury, then call `synced`.
    Sync,
    /// Read the main treasury and report.
    Report,
}

/// What a sweep returns: the main treasury and its balance after the
/// sweep.
#[derive(Debug, Clone, Copy, PartialEq, Eq)]
pub struct TreasuryReport {
    pub pool_address: Pubkey,
    pub balance: u64,
}

/// The part of a balance that a sweep may take: what lies above the
/// rent-exempt minimum, and nothing where the balance is below it.
pub open spec fn collectible(balance: PoolBalance) -> nat {
    if balance.lamports > balance.rent_exempt_minimum {
        (balance.lamports - balance.rent_exempt_minimum) as nat
    } else {
        0
    }
}

/// What a sweep does about the account at `index`, given what it read.
pub open spec fn sweep_action(index: u32, account: Option<PoolBalance>) -> SweepAction {
    match account {
        Some(balance) => if collectible(balance) > 0 {
            SweepAction::Collect { index, lamports: collectible(balance) as u64 }
        } else {
            SweepAction::Skip { index }
        },
        None => SweepAction::NotFound { index },
    }
}

/// What an account holds once the action on it has been carried out.
pub open spec fn after_action(account: Option<PoolBalance>) -> Option<PoolBalance> {
    match account {
        Some(balance) => Some(
            PoolBalance {
                lamports: (balance.lamports - collectible(balance)) as u64,
                rent_exempt_minimum: balance.rent_exempt_minimum,
            },
        ),
        None => None,
    }
}

/// The actions of a whole sweep over a pool.
pub open spec fn sweep_actions(pool: Seq<Option<PoolBalance>>) -> Seq<SweepAction> {
    Seq::new(pool.len(), |i: int| sweep_action(i as u32, pool[i]))
}

/// The pool once a whole sweep has been carried out.
pub open spec fn after_sweep(pool: Seq<Option<PoolBalance>>) -> Seq<Option<PoolBalance>> {
    Seq::new(pool.len(), |i: int| after_action(pool[i]))
}

/// What the first `count` actions move into the main treasury.
pub open spec fn collected(actions: Seq<SweepAction>, count: nat) -> nat
    decreases count,
{
    if count == 0 {
        0
    } else {
        collected(actions, (count - 1) as nat) + match actions[count - 1] {
            SweepAction::Collect { lamports, .. } => lamports as nat,
            _ => 0,
        }
    }
}

/// How many of the first `count` actions are transfers.
pub open spec fn transfers(actions: Seq<SweepAction>, count: nat) -> nat
    decreases count,
{
    if count == 0 {
        0
    } else {
        transfers(actions, (count - 1) as nat) + if actions[count - 1] is Collect {
            1nat
        } else {
            0nat
        }
    }
}

/// Decides what to do about the account at `index`.
pub fn collect_decision(index: u32, account: Option<PoolBalance>) -> (action: SweepAction)
    ensures
        action == sweep_action(index, account),
{
    match account {
        Some(balance) => {
            let available_lamports = balance.lamports.saturating_sub(balance.rent_exempt_minimum);
            if available_lamports > 0 {
                SweepAction::Collect { index, lamports: available_lamports }
            } else {
                SweepAction::Skip { index }
            }
        },
        None => SweepAction::NotFound { index },
    }
}

/// Decides the actions of a whole sweep over a pool that was read in one
/// go.
pub fn plan_sweep(pool: &[Option<PoolBalance>]) -> (actions: Vec<SweepAction>)
    requires
        pool@.len() <= u32::MAX,
    ensures
        actions@ == sweep_actions(pool@),
{
    let mut actions: Vec<SweepAction> = Vec::new();
    let mut i: usize = 0;
    while i < pool.len()
        invariant
            pool@.len() <= u32::MAX,
            i <= pool@.len(),
            actions@.len() == i,
            forall|j: int| 0 <= j < i ==> actions@[j] == sweep_action(j as u32, pool@[j]),
        decreases pool@.len() - i,
    {
        actions.push(collect_decision(i as u32, pool[i]));
        i += 1;
    }
    actions
}

/// A sweep in progress: how many auxiliary accounts there are, how many
/// have been visited, and whether the main treasury has been reconciled.
#[derive(Debug, Clone, Copy, PartialEq, Eq, Structural)]
pub struct Sweep {
    pool_count: u32,
    next_index: u32,
    transfers: u32,
    synced: bool,
}

impl Sweep {
    /// Every sweep has visited no more accounts than there are, has made
    /// no more transfers than visits, and reconciles only at the end.
    pub closed spec fn wf(&self) -> bool {
        &&& self.next_index <= self.pool_count
        &&& self.transfers <= self.next_index
        &&& self.synced ==> self.next_index == self.pool_count
    }

    /// How many auxiliary accounts there are.
    pub closed spec fn pool_count(&self) -> u32 {
        self.pool_count
    }

    /// How many accounts have been visited.
    pub closed spec fn visited(&self) -> u32 {
        self.next_index
    }

    /// How many transfers have been decided.
    pub closed spec fn transfer_count(&self) -> u32 {
        self.transfers
    }

    /// Whether the main treasury has been reconciled.
    pub closed spec fn is_synced(&self) -> bool {
        self.synced
    }

    /// A sweep over `pool_count` auxiliary accounts, with none visited.
    pub fn new(pool_count: u32) -> (sweep: Sweep)
        ensures
            sweep.wf(),
            sweep.pool_count() == pool_count,
            sweep.visited() == 0,
            sweep.transfer_count() == 0,
            !sweep.is_synced(),
    {
        Sweep { pool_count, next_index: 0, transfers: 0, synced: false }
    }

    /// What the driver is to do next: read the accounts in index order,
    /// then reconcile, then report.
    pub fn next_step(&self) -> (step: SweepStep)
        requires
            self.wf(),
        ensures
            step == if self.visited() < self.pool_count() {
                SweepStep::Read(self.visited())
            } else if !self.is_synced() {
                SweepStep::Sync
            } else {
                SweepStep::Report
            },
    {
        if self.next_index < self.pool_count {
            SweepStep::Read(self.next_index)
        } else if !self.synced {
            SweepStep::Sync
        } else {
            SweepStep::Report
        }
    }

    /// Takes what was read of the next account and decides what to do
    /// about it. A missing account is no error.
    pub fn observe(&mut self, account: Option<PoolBalance>) -> (action: SweepAction)
        requires
            old(self).wf(),
            old(self).visited() < old(self).pool_count(),
        ensures
            final(self).wf(),
            action == sweep_action(old(self).visited(), account),
            final(self).pool_count() == old(self).pool_count(),
            final(self).visited() == old(self).visited() + 1,
            final(self).transfer_count() == old(self).transfer_count() + if action is Collect {
                1int
            } else {
                0int
            },
            final(self).is_synced() == old(self).is_synced(),
    {
        let action = collect_decision(self.next_index, account);
        self.next_index = self.next_index + 1;
        if let SweepAction::Collect { .. } = action {
            self.transfers = self.transfers + 1;
        }
        action
    }

    /// Records that the main treasury has been reconciled.
    pub fn synced(&mut self)
        requires
            old(self).wf(),
            old(self).visited() == old(self).pool_count(),
        ensures
            final(self).wf(),
            final(self).is_synced(),
            final(self).pool_count() == old(self).pool_count(),
            final(self).visited() == old(self).visited(),
            final(self).transfer_count() == old(self).transfer_count(),
    {
        self.synced = true;
    }

    /// How many transfers the sweep has decided so far.
    pub fn transfers_made(&self) -> (count: u32)
        ensures
            count == self.transfer_count(),
    {
        self.transfers
    }
}

/// Whether every character is a decimal digit.
pub open spec fn is_decimal(digits: Seq<char>) -> bool {
    forall|i: int| 0 <= i < digits.len() ==> '0' <= #[trigger] digits[i] <= '9'
}

/// The number that decimal digits spell.
pub open spec fn decimal_value(digits: Seq<char>) -> nat
    decreases digits.len(),
{
    if digits.len() == 0 {
        0
    } else {
        decimal_value(digits.drop_last()) * 10 + (digits.last() as nat - '0' as nat) as nat
    }
}

/// The number that a text spells: an optional `+`, then decimal digits
/// and nothing else, for a value that fits in 32 bits.
pub open spec fn parsed_u32(text: Seq<char>) -> Option<u32> {
    let digits = if text.len() > 0 && text[0] == '+' {
        text.skip(1)
    } else {
        text
    };
    if digits.len() > 0 && is_decimal(digits) && decimal_value(digits) <= u32::MAX {
        Some(decimal_value(digits) as u32)
    } else {
        None
    }
}

/// `str::parse::<u32>`: the number that the text spells in decimal, with
/// an optional `+` before the digits; nothing for any other text and for
/// a number that does not fit.
#[verifier::external_body]
fn parse_u32(text: &str) -> (r: Option<u32>)
    ensures
        r == parsed_u32(text@),
{
    text.parse::<u32>().ok()
}

/// The number of auxiliary treasury accounts that a program was deployed
/// with: its parameter `NEON_POOL_COUNT`, where that is set and spells a
/// number.
pub fn pool_count(neon_params: &CachedElfParams) -> (r: Option<u32>)
    ensures
        r == if neon_params@.contains_key("NEON_POOL_COUNT"@) {
            parsed_u32(neon_params@["NEON_POOL_COUNT"@])
        } else {
            None
        },
{
    match neon_params.get("NEON_POOL_COUNT") {
        Some(value) => parse_u32(value.as_str()),
        None => None,
    }
}

/// What a sweep reports once it has read the main treasury.
pub fn treasury_report(pool_address: Pubkey, balance: u64) -> (report: TreasuryReport)
    ensures
        report.pool_address == pool_address,
        report.balance == balance,
{
    TreasuryReport { pool_address, balance }
}

/// A sweep never takes an account below its rent-exempt minimum, and
/// leaves nothing above it.
pub proof fn lemma_collectible_is_excess(balance: PoolBalance)
    ensures
        collectible(balance) <= balance.lamports,
        balance.lamports >= balance.rent_exempt_minimum ==> balance.lamports - collectible(balance)
            == balance.rent_exempt_minimum,
        balance.lamports < balance.rent_exempt_minimum ==> collectible(balance) == 0,
{
}

/// A second sweep, with no deposit in between, moves nothing: no action
/// of it is a transfer.
pub proof fn lemma_sweep_idempotent(pool: Seq<Option<PoolBalance>>)
    ensures
        forall|i: int|
            0 <= i < pool.len() ==> !(#[trigger] sweep_actions(after_sweep(pool))[i] is Collect),
        transfers(sweep_actions(after_sweep(pool)), pool.len()) == 0,
        collected(sweep_actions(after_sweep(pool)), pool.len()) == 0,
        after_sweep(after_sweep(pool)) == after_sweep(pool),
{
    let second = sweep_actions(after_sweep(pool));
    assert forall|i: int| 0 <= i < pool.len() implies !(#[trigger] second[i] is Collect) by {
        match pool[i] {
            Some(balance) => {
                lemma_collectible_is_excess(balance);
            },
            None => {},
        }
    }
    lemma_no_collect_moves_nothing(second, pool.len());
}

/// Actions without a transfer among them move nothing.
pub proof fn lemma_no_collect_moves_nothing(actions: Seq<SweepAction>, count: nat)
    requires
        count <= actions.len(),
        forall|i: int| 0 <= i < count ==> !(#[trigger] actions[i] is Collect),
    ensures
        transfers(actions, count) == 0,
        collected(actions, count) == 0,
    decreases count,
{
    if count > 0 {
        lemma_no_collect_moves_nothing(actions, (count - 1) as nat);
    }
}

} // verus!
