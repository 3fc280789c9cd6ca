//! The storage of the IBC transfer adapters: the recovery address of the transfer
//! being sent, and, once the chain has told its sequence number, the recovery
//! address of each transfer in flight, under its source channel and sequence. An
//! error or a timeout of a transfer refunds the adapter's funds to that address.
//!
//! A message that fails leaves the storage as it was (the chain discards its
//! writes), so each operation here changes the store only when it succeeds.

use vstd::prelude::*;
use crate::asset::Coin;
use crate::error::{ContractError, StdError};
use crate::ibc::{get_ack_id, require_ibc_fee, SourceCallbackAction};
use crate::swap::check_caller;

verus! {

/// A transfer in flight: its source channel, its sequence number, and the address
/// that its funds go back to if it fails.
#[derive(Debug, Clone, PartialEq, Eq)]
pub struct AckEntry {
    pub channel_id: String,
    pub sequence: u64,
    pub recover_address: String,
}

/// The key of an entry.
pub open spec fn entry_key(e: AckEntry) -> (Seq<char>, u64) {
    (e.channel_id@, e.sequence)
}

/// No two entries have the same key.
pub open spec fn keys_distinct(s: Seq<AckEntry>) -> bool {
    forall|i: int, j: int|
        0 <= i < s.len() && 0 <= j < s.len() && i != j ==> entry_key(#[trigger] s[i]) != entry_key(#[trigger] s[j])
}

/// Some entry has the key `k`.
pub open spec fn has_key(s: Seq<AckEntry>, k: (Seq<char>, u64)) -> bool {
    exists|i: int| 0 <= i < s.len() && entry_key(#[trigger] s[i]) == k
}

/// The entries as a map from key to recovery address.
pub open spec fn entries_map(s: Seq<AckEntry>) -> Map<(Seq<char>, u64), Seq<char>> {
    Map::new(
        |k: (Seq<char>, u64)| has_key(s, k),
        |k: (Seq<char>, u64)| s[choose|i: int| 0 <= i < s.len() && entry_key(#[trigger] s[i]) == k].recover_address@,
    )
}

/// What the store holds: the recovery address and the channel of the transfer being
/// sent, and the recovery address of each transfer in flight.
pub struct RecoveryView {
    pub in_progress_recover_address: Option<Seq<char>>,
    pub in_progress_channel_id: Option<Seq<char>>,
    pub acks: Map<(Seq<char>, u64), Seq<char>>,
}

/// The storage of an IBC transfer adapter.
pub struct RecoveryStore {
    in_progress_recover_address: Option<String>,
    in_progress_channel_id: Option<String>,
    entries: Vec<AckEntry>,
}

pub open spec fn opt_view(o: Option<String>) -> Option<Seq<char>> {
    match o {
        Some(s) => Some(s@),
        None => None,
    }
}

impl View for RecoveryStore {
    type V = RecoveryView;

    closed spec fn view(&self) -> RecoveryView {
        RecoveryView {
            in_progress_recover_address: opt_view(self.in_progress_recover_address),
            in_progress_channel_id: opt_view(self.in_progress_channel_id),
            acks: entries_map(self.entries@),
        }
    }
}

/// The store after a reply that registers the transfer being sent under its channel
/// and `sequence`, or `None` when the reply fails: no transfer is being sent, or a
/// transfer in flight has that key already.
pub open spec fn spec_register_reply(v: RecoveryView, sequence: u64) -> Option<RecoveryView> {
    match (v.in_progress_recover_address, v.in_progress_channel_id) {
        (Some(a), Some(c)) => if v.acks.contains_key((c, sequence)) {
            None
        } else {
            Some(RecoveryView {
                in_progress_recover_address: None,
                in_progress_channel_id: None,
                acks: v.acks.insert((c, sequence), a),
            })
        },
        _ => None,
    }
}

/// As `spec_register_reply`, where the reply itself names the channel and only the
/// recovery address is kept while the transfer is sent.
pub open spec fn spec_register_reply_on_channel(v: RecoveryView, channel: Seq<char>, sequence: u64) -> Option<RecoveryView> {
    match v.in_progress_recover_address {
        Some(a) => if v.acks.contains_key((channel, sequence)) {
            None
        } else {
            Some(RecoveryView {
                in_progress_recover_address: None,
                in_progress_channel_id: v.in_progress_channel_id,
                acks: v.acks.insert((channel, sequence), a),
            })
        },
        None => None,
    }
}

/// The recovery address of the transfer with key `k` and the store without it, or
/// `None` when no transfer in flight has that key.
pub open spec fn spec_take(v: RecoveryView, k: (Seq<char>, u64)) -> Option<(Seq<char>, RecoveryView)> {
    if v.acks.contains_key(k) {
        Some((v.acks[k], RecoveryView { acks: v.acks.remove(k), ..v }))
    } else {
        None
    }
}

/// An entry's key is in the map, with the entry's address.
proof fn lemma_map_get(s: Seq<AckEntry>, i: int)
    requires
        keys_distinct(s),
        0 <= i < s.len(),
    ensures
        entries_map(s).contains_key(entry_key(s[i])),
        entries_map(s)[entry_key(s[i])] == s[i].recover_address@,
{
    let k = entry_key(s[i]);
    assert(has_key(s, k));
    let j = choose|j: int| 0 <= j < s.len() && entry_key(#[trigger] s[j]) == k;
    assert(j == i);
}

/// Appending an entry with a new key adds it to the map.
proof fn lemma_push(s: Seq<AckEntry>, e: AckEntry)
    requires
        keys_distinct(s),
        !has_key(s, entry_key(e)),
    ensures
        keys_distinct(s.push(e)),
        entries_map(s.push(e)) =~= entries_map(s).insert(entry_key(e), e.recover_address@),
{
    let t = s.push(e);
    assert forall|i: int, j: int| 0 <= i < t.len() && 0 <= j < t.len() && i != j implies entry_key(
        #[trigger] t[i],
    ) != entry_key(#[trigger] t[j]) by {
        if i < s.len() && j < s.len() {
            assert(t[i] == s[i] && t[j] == s[j]);
        } else if i < s.len() {
            assert(t[i] == s[i]);
        } else {
            assert(t[j] == s[j]);
        }
    }
    assert forall|k: (Seq<char>, u64)| has_key(t, k) <==> (has_key(s, k) || k == entry_key(e)) by {
        if has_key(t, k) {
            let j = choose|j: int| 0 <= j < t.len() && entry_key(#[trigger] t[j]) == k;
            if j < s.len() {
                assert(t[j] == s[j]);
            }
        }
        if has_key(s, k) {
            let j = choose|j: int| 0 <= j < s.len() && entry_key(#[trigger] s[j]) == k;
            assert(t[j] == s[j]);
        }
        if k == entry_key(e) {
            assert(t[s.len() as int] == e);
        }
    }
    assert forall|k: (Seq<char>, u64)| #[trigger] entries_map(t).contains_key(k) implies entries_map(t)[k]
        == entries_map(s).insert(entry_key(e), e.recover_address@)[k] by {
        if k == entry_key(e) {
            lemma_map_get(t, s.len() as int);
        } else {
            let j = choose|j: int| 0 <= j < s.len() && entry_key(#[trigger] s[j]) == k;
            lemma_map_get(s, j);
            assert(t[j] == s[j]);
            lemma_map_get(t, j);
        }
    }
}

/// Removing the entry at `i` removes its key from the map.
proof fn lemma_remove(s: Seq<AckEntry>, i: int)
    requires
        keys_distinct(s),
        0 <= i < s.len(),
    ensures
        keys_distinct(s.remove(i)),
        entries_map(s.remove(i)) =~= entries_map(s).remove(entry_key(s[i])),
{
    let t = s.remove(i);
    assert forall|j: int| 0 <= j < t.len() implies #[trigger] t[j] == (if j < i { s[j] } else { s[j + 1] }) by {}
    assert forall|a: int, b: int| 0 <= a < t.len() && 0 <= b < t.len() && a != b implies entry_key(
        #[trigger] t[a],
    ) != entry_key(#[trigger] t[b]) by {
        let a2 = if a < i { a } else { a + 1 };
        let b2 = if b < i { b } else { b + 1 };
        assert(t[a] == s[a2] && t[b] == s[b2]);
    }
    let ki = entry_key(s[i]);
    assert forall|k: (Seq<char>, u64)| has_key(t, k) <==> (has_key(s, k) && k != ki) by {
        if has_key(t, k) {
            let j = choose|j: int| 0 <= j < t.len() && entry_key(#[trigger] t[j]) == k;
            let j2 = if j < i { j } else { j + 1 };
            assert(t[j] == s[j2]);
        }
        if has_key(s, k) && k != ki {
            let j = choose|j: int| 0 <= j < s.len() && entry_key(#[trigger] s[j]) == k;
            if j < i {
                assert(t[j] == s[j]);
            } else {
                assert(j != i);
                assert(t[j - 1] == s[j]);
            }
        }
    }
    assert forall|k: (Seq<char>, u64)| #[trigger] entries_map(t).contains_key(k) implies entries_map(t)[k]
        == entries_map(s)[k] by {
        let j = choose|j: int| 0 <= j < t.len() && entry_key(#[trigger] t[j]) == k;
        let j2 = if j < i { j } else { j + 1 };
        assert(t[j] == s[j2]);
        lemma_map_get(t, j);
        lemma_map_get(s, j2);
    }
}

impl RecoveryStore {
    /// The entries' keys are distinct.
    pub closed spec fn wf(&self) -> bool {
        keys_distinct(self.entries@)
    }

    /// An empty store.
    pub fn new() -> (s: RecoveryStore)
        ensures
            s.wf(),
            s@.in_progress_recover_address is None,
            s@.in_progress_channel_id is None,
            s@.acks == Map::<(Seq<char>, u64), Seq<char>>::empty(),
    {
        let s = RecoveryStore { in_progress_recover_address: None, in_progress_channel_id: None, entries: Vec::new() };
        assert(s@.acks =~= Map::<(Seq<char>, u64), Seq<char>>::empty());
        s
    }

    /// The store that holds the given values, when no two entries have the same key.
    pub fn from_parts(
        in_progress_recover_address: Option<String>,
        in_progress_channel_id: Option<String>,
        entries: Vec<AckEntry>,
    ) -> (r: Option<RecoveryStore>)
        ensures
            r is Some <==> keys_distinct(entries@),
            r matches Some(s) ==> s.wf() && s@ == (RecoveryView {
                in_progress_recover_address: opt_view(in_progress_recover_address),
                in_progress_channel_id: opt_view(in_progress_channel_id),
                acks: entries_map(entries@),
            }),
    {
        let mut i: usize = 0;
        while i < entries.len()
            invariant
                0 <= i <= entries@.len(),
                forall|a: int, b: int|
                    0 <= a < i && 0 <= b < entries@.len() && a != b ==> entry_key(#[trigger] entries@[a]) != entry_key(
                        #[trigger] entries@[b],
                    ),
            decreases entries@.len() - i,
        {
            let mut j: usize = 0;
            while j < entries.len()
                invariant
                    0 <= i < entries@.len(),
                    0 <= j <= entries@.len(),
                    forall|b: int| 0 <= b < j && b != i ==> entry_key(entries@[i as int]) != entry_key(#[trigger] entries@[b]),
                decreases entries@.len() - j,
            {
                if j != i && entries[i].sequence == entries[j].sequence && entries[i].channel_id == entries[j].channel_id {
                    assert(entry_key(entries@[i as int]) == entry_key(entries@[j as int]));
                    return None;
                }
                j = j + 1;
            }
            proof {
                assert forall|a: int, b: int|
                    0 <= a < i + 1 && 0 <= b < entries@.len() && a != b implies entry_key(#[trigger] entries@[a])
                    != entry_key(#[trigger] entries@[b]) by {
                    if a == i {
                        assert(entry_key(entries@[i as int]) != entry_key(entries@[b]));
                    }
                }
            }
            i = i + 1;
        }
        Some(RecoveryStore { in_progress_recover_address, in_progress_channel_id, entries })
    }

    /// The values that the store holds, as `from_parts` takes them.
    pub fn into_parts(self) -> (r: (Option<String>, Option<String>, Vec<AckEntry>))
        requires
            self.wf(),
        ensures
            keys_distinct(r.2@),
            opt_view(r.0) == self@.in_progress_recover_address,
            opt_view(r.1) == self@.in_progress_channel_id,
            entries_map(r.2@) == self@.acks,
    {
        (self.in_progress_recover_address, self.in_progress_channel_id, self.entries)
    }

    /// Keeps the recovery address of the transfer being sent.
    pub fn save_in_progress_recover_address(&mut self, recover_address: String)
        requires
            old(self).wf(),
        ensures
            final(self).wf(),
            final(self)@ == (RecoveryView { in_progress_recover_address: Some(recover_address@), ..old(self)@ }),
    {
        self.in_progress_recover_address = Some(recover_address);
    }

    /// Keeps the source channel of the transfer being sent.
    pub fn save_in_progress_channel_id(&mut self, channel_id: String)
        requires
            old(self).wf(),
        ensures
            final(self).wf(),
            final(self)@ == (RecoveryView { in_progress_channel_id: Some(channel_id@), ..old(self)@ }),
    {
        self.in_progress_channel_id = Some(channel_id);
    }

    /// A transfer sent for the entry point contract (`sender` must be `entry_point`)
    /// on `channel`: its recovery address and channel are kept until the reply.
    pub fn begin_transfer(
        &mut self,
        sender: &str,
        entry_point: &str,
        recover_address: String,
        channel: String,
    ) -> (r: Result<(), ContractError>)
        requires
            old(self).wf(),
        ensures
            final(self).wf(),
            sender@ != entry_point@ ==> r == Err::<(), ContractError>(ContractError::Unauthorized)
                && final(self)@ == old(self)@,
            sender@ == entry_point@ ==> r is Ok && final(self)@ == (RecoveryView {
                in_progress_recover_address: Some(recover_address@),
                in_progress_channel_id: Some(channel@),
                ..old(self)@
            }),
    {
        check_caller(sender, entry_point)?;
        self.save_in_progress_recover_address(recover_address);
        self.save_in_progress_channel_id(channel);
        Ok(())
    }

    /// A transfer sent for the entry point contract on Neutron, where the IBC fees
    /// are required: they are given back to go with the transfer, and its recovery
    /// address is kept until the reply.
    pub fn begin_fee_paid_transfer<T>(
        &mut self,
        sender: &str,
        entry_point: &str,
        fee: Option<T>,
        recover_address: String,
    ) -> (r: Result<T, ContractError>)
        requires
            old(self).wf(),
        ensures
            final(self).wf(),
            sender@ != entry_point@ ==> r == Err::<T, ContractError>(ContractError::Unauthorized)
                && final(self)@ == old(self)@,
            sender@ == entry_point@ && fee is None ==> r == Err::<T, ContractError>(ContractError::IbcFeesRequired)
                && final(self)@ == old(self)@,
            sender@ == entry_point@ && fee is Some ==> r == Ok::<T, ContractError>(fee->Some_0) && final(self)@ == (
            RecoveryView { in_progress_recover_address: Some(recover_address@), ..old(self)@ }),
    {
        check_caller(sender, entry_point)?;
        let f = require_ibc_fee(fee)?;
        self.save_in_progress_recover_address(recover_address);
        Ok(f)
    }

    /// The index of the entry with key `(channel, sequence)`, if any.
    fn find(&self, channel: &String, sequence: u64) -> (r: Option<usize>)
        requires
            self.wf(),
        ensures
            match r {
                Some(i) => i < self.entries@.len() && entry_key(self.entries@[i as int]) == (channel@, sequence),
                None => !has_key(self.entries@, (channel@, sequence)),
            },
    {
        let mut i: usize = 0;
        while i < self.entries.len()
            invariant
                0 <= i <= self.entries@.len(),
                forall|j: int| 0 <= j < i ==> entry_key(#[trigger] self.entries@[j]) != (channel@, sequence),
            decreases self.entries@.len() - i,
        {
            if self.entries[i].sequence == sequence && self.entries[i].channel_id == *channel {
                return Some(i);
            }
            i = i + 1;
        }
        None
    }

    /// Whether a transfer in flight has the key `(channel, sequence)`.
    pub fn has(&self, channel: &String, sequence: u64) -> (b: bool)
        requires
            self.wf(),
        ensures
            b == self@.acks.contains_key((channel@, sequence)),
    {
        match self.find(channel, sequence) {
            Some(_) => true,
            None => false,
        }
    }

    /// The recovery address kept for the transfer `(channel, sequence)`.
    pub fn recover_address(&self, channel: &String, sequence: u64) -> (r: Result<String, ContractError>)
        requires
            self.wf(),
        ensures
            self@.acks.contains_key((channel@, sequence)) ==> (r matches Ok(a) && a@ == self@.acks[(channel@, sequence)]),
            !self@.acks.contains_key((channel@, sequence)) ==> r == Err::<String, ContractError>(
                ContractError::Std(StdError::NotFound),
            ),
    {
        match self.find(channel, sequence) {
            Some(i) => {
                proof {
                    lemma_map_get(self.entries@, i as int);
                }
                Ok(self.entries[i].recover_address.clone())
            },
            None => Err(ContractError::Std(StdError::NotFound)),
        }
    }

    /// Adds an entry under a key that no entry has.
    fn insert(&mut self, channel: String, sequence: u64, recover_address: String)
        requires
            old(self).wf(),
            !old(self)@.acks.contains_key((channel@, sequence)),
        ensures
            final(self).wf(),
            final(self)@ == (RecoveryView {
                acks: old(self)@.acks.insert((channel@, sequence), recover_address@),
                ..old(self)@
            }),
    {
        let e = AckEntry { channel_id: channel, sequence, recover_address };
        proof {
            lemma_push(self.entries@, e);
        }
        self.entries.push(e);
    }

    /// Removes the entry at `i`, giving back its recovery address.
    fn remove_at(&mut self, i: usize) -> (a: String)
        requires
            old(self).wf(),
            i < old(self).entries@.len(),
        ensures
            final(self).wf(),
            a@ == old(self)@.acks[entry_key(old(self).entries@[i as int])],
            final(self)@ == (RecoveryView {
                acks: old(self)@.acks.remove(entry_key(old(self).entries@[i as int])),
                ..old(self)@
            }),
    {
        proof {
            lemma_map_get(self.entries@, i as int);
            lemma_remove(self.entries@, i as int);
        }
        let e = self.entries.remove(i);
        e.recover_address
    }

    /// The reply to a sent transfer whose response gives its `sequence`: the
    /// recovery address and channel kept while it was sent are registered under
    /// `(channel, sequence)` and cleared. Fails when none are kept, or when a transfer
    /// in flight has that key.
    pub fn register_reply(&mut self, sequence: u64) -> (r: Result<(), ContractError>)
        requires
            old(self).wf(),
        ensures
            final(self).wf(),
            match spec_register_reply(old(self)@, sequence) {
                Some(v) => r is Ok && final(self)@ == v,
                None => r is Err && final(self)@ == old(self)@,
            },
            old(self)@.in_progress_recover_address is None || old(self)@.in_progress_channel_id is None
                ==> r == Err::<(), ContractError>(ContractError::Std(StdError::NotFound)),
            (old(self)@.in_progress_recover_address is Some && old(self)@.in_progress_channel_id is Some
                && old(self)@.acks.contains_key((old(self)@.in_progress_channel_id->Some_0, sequence))) ==> (r matches Err(
                ContractError::AckIDAlreadyExists { channel_id: ch, sequence_id: s },
            ) && ch@ == old(self)@.in_progress_channel_id->Some_0 && s == sequence),
    {
        let address = match &self.in_progress_recover_address {
            Some(a) => a.clone(),
            None => {
                return Err(ContractError::Std(StdError::NotFound));
            },
        };
        let channel = match &self.in_progress_channel_id {
            Some(c) => c.clone(),
            None => {
                return Err(ContractError::Std(StdError::NotFound));
            },
        };
        if self.has(&channel, sequence) {
            return Err(ContractError::AckIDAlreadyExists { channel_id: channel, sequence_id: sequence });
        }
        self.in_progress_recover_address = None;
        self.in_progress_channel_id = None;
        self.insert(channel, sequence, address);
        Ok(())
    }

    /// The reply to a sent transfer whose response names its `channel` and
    /// `sequence`: the recovery address kept while it was sent is registered under
    /// `(channel, sequence)` and cleared. Fails when none is kept, or when a transfer
    /// in flight has that key.
    pub fn register_reply_on_channel(&mut self, channel: String, sequence: u64) -> (r: Result<(), ContractError>)
        requires
            old(self).wf(),
        ensures
            final(self).wf(),
            match spec_register_reply_on_channel(old(self)@, channel@, sequence) {
                Some(v) => r is Ok && final(self)@ == v,
                None => r is Err && final(self)@ == old(self)@,
            },
            old(self)@.in_progress_recover_address is None ==> r == Err::<(), ContractError>(
                ContractError::Std(StdError::NotFound),
            ),
            (old(self)@.in_progress_recover_address is Some && old(self)@.acks.contains_key((channel@, sequence))) ==> (
            r matches Err(ContractError::AckIDAlreadyExists { channel_id: ch, sequence_id: s }) && ch@ == channel@
                && s == sequence),
    {
        let address = match &self.in_progress_recover_address {
            Some(a) => a.clone(),
            None => {
                return Err(ContractError::Std(StdError::NotFound));
            },
        };
        if self.has(&channel, sequence) {
            return Err(ContractError::AckIDAlreadyExists { channel_id: channel, sequence_id: sequence });
        }
        self.in_progress_recover_address = None;
        self.insert(channel, sequence, address);
        Ok(())
    }

    /// Forgets the transfer `(channel, sequence)`, if it is in flight.
    pub fn forget(&mut self, channel: &String, sequence: u64)
        requires
            old(self).wf(),
        ensures
            final(self).wf(),
            final(self)@ == (RecoveryView { acks: old(self)@.acks.remove((channel@, sequence)), ..old(self)@ }),
    {
        match self.find(channel, sequence) {
            Some(i) => {
                let _ = self.remove_at(i);
            },
            None => {
                assert(self@.acks.remove((channel@, sequence)) =~= self@.acks);
            },
        }
    }

    /// Takes the recovery address of the transfer `(channel, sequence)` out of the
    /// store; fails when no transfer in flight has that key.
    pub fn take_recover_address(&mut self, channel: &String, sequence: u64) -> (r: Result<String, ContractError>)
        requires
            old(self).wf(),
        ensures
            final(self).wf(),
            match spec_take(old(self)@, (channel@, sequence)) {
                Some((a, v)) => (r matches Ok(x) && x@ == a) && final(self)@ == v,
                None => r == Err::<String, ContractError>(ContractError::Std(StdError::NotFound))
                    && final(self)@ == old(self)@,
            },
    {
        match self.find(channel, sequence) {
            Some(i) => Ok(self.remove_at(i)),
            None => Err(ContractError::Std(StdError::NotFound)),
        }
    }
}

/// The data of the reply to a sent transfer, from which the adapter decodes the
/// transfer's sequence; the reply must carry some.
pub fn reply_data(data: Option<Vec<u8>>) -> (r: Result<Vec<u8>, ContractError>)
    ensures
        data is None ==> r == Err::<Vec<u8>, ContractError>(ContractError::MissingResponseData),
        data is Some ==> r == Ok::<Vec<u8>, ContractError>(data->Some_0),
{
    match data {
        Some(d) => Ok(d),
        None => Err(ContractError::MissingResponseData),
    }
}

/// The kind of callback that the transfer module makes for a transfer in flight.
#[derive(Debug, Clone, Copy, PartialEq, Eq)]
pub enum SudoType {
    Response,
    Error,
    Timeout,
}

/// A refund: all the adapter's balances, sent to a transfer's recovery address.
#[derive(Debug, Clone, PartialEq, Eq)]
pub struct Refund {
    pub to_address: String,
    pub amount: Vec<Coin>,
}

/// The outcome of refunding the transfer with key `k` from `balances`: the refund
/// and the store without the transfer, or the error, the store being left as it was.
pub open spec fn refund_outcome(
    old_v: RecoveryView,
    new_v: RecoveryView,
    k: (Seq<char>, u64),
    balances: Seq<Coin>,
    r: Result<Refund, ContractError>,
) -> bool {
    match spec_take(old_v, k) {
        Some((a, v)) => if balances.len() == 0 {
            r == Err::<Refund, ContractError>(ContractError::NoFundsToRefund) && new_v == old_v
        } else {
            (r matches Ok(rf) && rf.to_address@ == a && rf.amount@ == balances) && new_v == v
        },
        None => r == Err::<Refund, ContractError>(ContractError::Std(StdError::NotFound)) && new_v == old_v,
    }
}

impl RecoveryStore {
    /// Refunds the transfer `(channel, sequence)`: takes its recovery address out of
    /// the store and sends it all of `balances`, the adapter's funds; fails when no
    /// transfer in flight has that key or when there are no funds.
    fn refund_transfer(&mut self, channel: &String, sequence: u64, balances: Vec<Coin>) -> (r: Result<Refund, ContractError>)
        requires
            old(self).wf(),
        ensures
            final(self).wf(),
            refund_outcome(old(self)@, final(self)@, (channel@, sequence), balances@, r),
    {
        match self.find(channel, sequence) {
            Some(i) => {
                if balances.len() == 0 {
                    return Err(ContractError::NoFundsToRefund);
                }
                let to_address = self.remove_at(i);
                Ok(Refund { to_address, amount: balances })
            },
            None => Err(ContractError::Std(StdError::NotFound)),
        }
    }

    /// The transfer module's callback (a response, an error or a timeout) for the
    /// request sent on `source_channel` as `sequence`: the adapter's `balances` (the
    /// failed coin, unused fees and any dust) go back to the transfer's recovery
    /// address, which is forgotten.
    pub fn sudo(&mut self, source_channel: &Option<String>, sequence: Option<u64>, balances: Vec<Coin>) -> (r: Result<
        Refund,
        ContractError,
    >)
        requires
            old(self).wf(),
        ensures
            final(self).wf(),
            source_channel is None ==> r == Err::<Refund, ContractError>(ContractError::ChannelIDNotFound)
                && final(self)@ == old(self)@,
            source_channel is Some && sequence is None ==> r == Err::<Refund, ContractError>(
                ContractError::SequenceNotFound,
            ) && final(self)@ == old(self)@,
            source_channel is Some && sequence is Some ==> refund_outcome(
                old(self)@,
                final(self)@,
                (source_channel->Some_0@, sequence->Some_0),
                balances@,
                r,
            ),
    {
        let (channel, seq) = match get_ack_id(source_channel, sequence) {
            Ok(id) => id,
            Err(e) => {
                return Err(e);
            },
        };
        self.refund_transfer(&channel, seq, balances)
    }

    /// The source callback for a transfer: a successful acknowledgement forgets it
    /// and refunds nothing; an error or a timeout refunds the adapter's `balances` to
    /// its recovery address, as `sudo` does.
    pub fn source_callback(&mut self, action: SourceCallbackAction, balances: Vec<Coin>) -> (r: Result<
        Option<Refund>,
        ContractError,
    >)
        requires
            old(self).wf(),
        ensures
            final(self).wf(),
            match action {
                SourceCallbackAction::Forget { channel, sequence } => r == Ok::<Option<Refund>, ContractError>(None)
                    && final(self)@ == (RecoveryView {
                    acks: old(self)@.acks.remove((channel@, sequence)),
                    ..old(self)@
                }),
                SourceCallbackAction::Refund { channel, sequence, .. } => match r {
                    Ok(Some(rf)) => refund_outcome(
                        old(self)@,
                        final(self)@,
                        (channel@, sequence),
                        balances@,
                        Ok::<Refund, ContractError>(rf),
                    ),
                    Ok(None) => false,
                    Err(e) => refund_outcome(
                        old(self)@,
                        final(self)@,
                        (channel@, sequence),
                        balances@,
                        Err::<Refund, ContractError>(e),
                    ),
                },
            },
    {
        match action {
            SourceCallbackAction::Forget { channel, sequence } => {
                self.forget(&channel, sequence);
                Ok(None)
            },
            SourceCallbackAction::Refund { channel, sequence, reason: _ } => {
                match self.refund_transfer(&channel, sequence, balances) {
                    Ok(rf) => Ok(Some(rf)),
                    Err(e) => Err(e),
                }
            },
        }
    }
}

/// A transfer registered by its reply is refunded to the recovery address that was
/// kept while it was sent: once the reply has registered the transfer being sent
/// (recovery address `a`, channel `c`) as sequence `q`, taking `(c, q)` out of the
/// store gives back `a` and leaves every other transfer in flight as it was before.
pub proof fn lemma_reply_then_refund(v: RecoveryView, q: u64)
    requires
        v.in_progress_recover_address is Some,
        v.in_progress_channel_id is Some,
        !v.acks.contains_key((v.in_progress_channel_id->Some_0, q)),
    ensures
        spec_register_reply(v, q) is Some,
        spec_take(spec_register_reply(v, q)->Some_0, (v.in_progress_channel_id->Some_0, q)) is Some,
        spec_take(spec_register_reply(v, q)->Some_0, (v.in_progress_channel_id->Some_0, q))->Some_0.0
            == v.in_progress_recover_address->Some_0,
        spec_take(spec_register_reply(v, q)->Some_0, (v.in_progress_channel_id->Some_0, q))->Some_0.1.acks == v.acks,
{
    let c = v.in_progress_channel_id->Some_0;
    let v2 = spec_register_reply(v, q)->Some_0;
    assert(v2.acks.remove((c, q)) =~= v.acks);
}

/// The same for an adapter whose reply names the channel: once the reply has
/// registered the transfer being sent as `(c, q)`, taking `(c, q)` gives back the
/// recovery address that was kept and leaves the other transfers as they were.
pub proof fn lemma_reply_on_channel_then_refund(v: RecoveryView, c: Seq<char>, q: u64)
    requires
        v.in_progress_recover_address is Some,
        !v.acks.contains_key((c, q)),
    ensures
        spec_register_reply_on_channel(v, c, q) is Some,
        spec_take(spec_register_reply_on_channel(v, c, q)->Some_0, (c, q)) is Some,
        spec_take(spec_register_reply_on_channel(v, c, q)->Some_0, (c, q))->Some_0.0
            == v.in_progress_recover_address->Some_0,
        spec_take(spec_register_reply_on_channel(v, c, q)->Some_0, (c, q))->Some_0.1.acks == v.acks,
{
    let v2 = spec_register_reply_on_channel(v, c, q)->Some_0;
    assert(v2.acks.remove((c, q)) =~= v.acks);
}

/// A transfer is registered once: after a reply has registered `(c, q)`, the reply
/// for another transfer on `c` that claims the same sequence `q` fails, whatever
/// recovery address was kept for it.
pub proof fn lemma_sequence_registered_once(v: RecoveryView, q: u64, a2: Seq<char>)
    requires
        spec_register_reply(v, q) is Some,
    ensures
        spec_register_reply(
            RecoveryView {
                in_progress_recover_address: Some(a2),
                in_progress_channel_id: v.in_progress_channel_id,
                ..spec_register_reply(v, q)->Some_0
            },
            q,
        ) is None,
{
}

/// A successful acknowledgement ends the transfer: forgetting a transfer that the
/// reply registered leaves the transfers in flight as they were before it was sent.
pub proof fn lemma_reply_then_success(v: RecoveryView, q: u64)
    requires
        spec_register_reply(v, q) is Some,
    ensures
        spec_register_reply(v, q)->Some_0.acks.remove((v.in_progress_channel_id->Some_0, q)) == v.acks,
{
    let c = v.in_progress_channel_id->Some_0;
    assert(spec_register_reply(v, q)->Some_0.acks.remove((c, q)) =~= v.acks);
}

/// A transfer is refunded at most once: after its recovery address has been taken
/// out of the store, taking the same key again finds nothing, and taking any other
/// key gives what it gave before.
pub proof fn lemma_refund_once(v: RecoveryView, k: (Seq<char>, u64), other: (Seq<char>, u64))
    requires
        spec_take(v, k) is Some,
        other != k,
    ensures
        spec_take(spec_take(v, k)->Some_0.1, k) is None,
        spec_take(spec_take(v, k)->Some_0.1, other) is Some <==> spec_take(v, other) is Some,
        spec_take(v, other) is Some ==> spec_take(spec_take(v, k)->Some_0.1, other)->Some_0.0 == spec_take(v, other)->Some_0.0,
{
}

} // verus!
