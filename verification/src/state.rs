//! Persistent state: the configuration singleton and the reroll registry.

use vstd::prelude::*;

verus! {

use crate::order::{char_seq_lt, str_cmp, KeyCmp, lemma_char_seq_lt_asym, lemma_char_seq_lt_trans,
    lemma_char_seq_lt_irrefl};

/// Global parameters, created at initialization and changed only by the
/// configuration command.
pub struct Config {
    /// Identity allowed to change the configuration and withdraw funds.
    pub admin: String,
    /// When false, reroll requests and confirmations are rejected.
    pub enabled: bool,
    /// The collection whose tokens are eligible, and the source of
    /// confirmation callbacks.
    pub collection_address: String,
    /// Exact fee charged per reroll request.
    pub roll_fees: u128,
    /// Currency the fee is paid in.
    pub denom: String,
    /// Exponent of the fixed reward: `10^decimals` base units per
    /// confirmed reroll.
    pub decimals: u8,
}

#[verifier::ext_equal]
pub ghost struct ConfigV {
    pub admin: Seq<char>,
    pub enabled: bool,
    pub collection_address: Seq<char>,
    pub roll_fees: u128,
    pub denom: Seq<char>,
    pub decimals: u8,
}

impl ConfigV {
    /// The reward `10^decimals` must fit a 128-bit amount.
    pub open spec fn wf(self) -> bool {
        self.decimals <= 38
    }
}

impl View for Config {
    type V = ConfigV;

    open spec fn view(&self) -> ConfigV {
        ConfigV {
            admin: self.admin@,
            enabled: self.enabled,
            collection_address: self.collection_address@,
            roll_fees: self.roll_fees,
            denom: self.denom@,
            decimals: self.decimals,
        }
    }
}

/// One reroll record, keyed by its token identifier; created once, and
/// marked `rerolled` once by the confirmation callback.
#[derive(Debug)]
pub struct Reroll {
    /// The original requester: payer of the fee, recipient of the reward.
    pub sender: String,
    /// The token the request was made for.
    pub nft_id: String,
    /// True once the confirmation callback has processed the token.
    pub rerolled: bool,
    /// Creation time in seconds since epoch, from the host's block clock.
    pub timestamp: u64,
}

#[verifier::ext_equal]
pub ghost struct RerollV {
    pub sender: Seq<char>,
    pub nft_id: Seq<char>,
    pub rerolled: bool,
    pub timestamp: u64,
}

impl View for Reroll {
    type V = RerollV;

    open spec fn view(&self) -> RerollV {
        RerollV {
            sender: self.sender@,
            nft_id: self.nft_id@,
            rerolled: self.rerolled,
            timestamp: self.timestamp,
        }
    }
}

impl Clone for Reroll {
    fn clone(&self) -> (res: Self)
        ensures
            res == *self,
    {
        Reroll {
            sender: self.sender.clone(),
            nft_id: self.nft_id.clone(),
            rerolled: self.rerolled,
            timestamp: self.timestamp,
        }
    }
}

/// A registry entry paired with its key, as the full-registry query
/// reports it.
#[derive(Debug)]
pub struct RerollData {
    pub id: String,
    pub reroll: Reroll,
}

#[verifier::ext_equal]
pub ghost struct RerollDataV {
    pub id: Seq<char>,
    pub reroll: RerollV,
}

impl View for RerollData {
    type V = RerollDataV;

    open spec fn view(&self) -> RerollDataV {
        RerollDataV { id: self.id@, reroll: self.reroll@ }
    }
}

impl Clone for RerollData {
    fn clone(&self) -> (res: Self)
        ensures
            res == *self,
    {
        RerollData { id: self.id.clone(), reroll: self.reroll.clone() }
    }
}

/// Entries stand in strictly ascending key order.
pub open spec fn reg_sorted(reg: Seq<RerollDataV>) -> bool {
    forall|i: int, j: int|
        0 <= i < j < reg.len() ==> char_seq_lt(#[trigger] reg[i].id, #[trigger] reg[j].id)
}

pub open spec fn reg_contains(reg: Seq<RerollDataV>, id: Seq<char>) -> bool {
    exists|i: int| 0 <= i < reg.len() && (#[trigger] reg[i].id) == id
}

pub open spec fn reg_index_of(reg: Seq<RerollDataV>, id: Seq<char>) -> int {
    choose|i: int| 0 <= i < reg.len() && (#[trigger] reg[i].id) == id
}

/// The record under a present key.
pub open spec fn reg_get(reg: Seq<RerollDataV>, id: Seq<char>) -> RerollV {
    reg[reg_index_of(reg, id)].reroll
}

/// Where a fresh key would be inserted: before the first larger key.
pub open spec fn reg_insert_pos(reg: Seq<RerollDataV>, id: Seq<char>) -> int
    decreases reg.len(),
{
    if reg.len() == 0 {
        0
    } else if char_seq_lt(id, reg[0].id) {
        0
    } else {
        1 + reg_insert_pos(reg.drop_first(), id)
    }
}

/// The registry after inserting a record under a fresh key.
pub open spec fn reg_insert(reg: Seq<RerollDataV>, id: Seq<char>, r: RerollV) -> Seq<RerollDataV> {
    reg.insert(reg_insert_pos(reg, id), RerollDataV { id, reroll: r })
}

/// The registry after overwriting the record under a present key.
pub open spec fn reg_update(reg: Seq<RerollDataV>, id: Seq<char>, r: RerollV) -> Seq<RerollDataV> {
    reg.update(reg_index_of(reg, id), RerollDataV { id, reroll: r })
}

/// In a sorted registry a key appears at most once.
pub proof fn lemma_sorted_unique(reg: Seq<RerollDataV>, i: int, j: int)
    requires
        reg_sorted(reg),
        0 <= i < reg.len(),
        0 <= j < reg.len(),
        reg[i].id == reg[j].id,
    ensures
        i == j,
{
    if i < j || j < i {
        lemma_char_seq_lt_irrefl(reg[i].id);
    }
}

/// A present key's index is the one witness of its presence.
pub proof fn lemma_reg_get_at(reg: Seq<RerollDataV>, id: Seq<char>, i: int)
    requires
        reg_sorted(reg),
        0 <= i < reg.len(),
        reg[i].id == id,
    ensures
        reg_contains(reg, id),
        reg_index_of(reg, id) == i,
        reg_get(reg, id) == reg[i].reroll,
{
    assert(reg_contains(reg, id));
    lemma_sorted_unique(reg, i, reg_index_of(reg, id));
}

/// A search that passed every smaller key and stopped before a larger
/// one found no occurrence at all.
proof fn lemma_not_contains(reg: Seq<RerollDataV>, id: Seq<char>, i: int)
    requires
        reg_sorted(reg),
        0 <= i <= reg.len(),
        forall|j: int| 0 <= j < i ==> char_seq_lt(#[trigger] reg[j].id, id),
        i < reg.len() ==> char_seq_lt(id, reg[i].id),
    ensures
        !reg_contains(reg, id),
{
    if reg_contains(reg, id) {
        let w = reg_index_of(reg, id);
        assert(0 <= w < reg.len() && reg[w].id == id);
        if w < i {
            lemma_char_seq_lt_irrefl(id);
        } else if w == i {
            lemma_char_seq_lt_irrefl(id);
        } else {
            assert(char_seq_lt(reg[i].id, reg[w].id));
            lemma_char_seq_lt_trans(id, reg[i].id, reg[w].id);
            lemma_char_seq_lt_irrefl(id);
        }
    }
}

proof fn lemma_insert_pos_is(reg: Seq<RerollDataV>, id: Seq<char>, i: int)
    requires
        reg_sorted(reg),
        0 <= i <= reg.len(),
        forall|j: int| 0 <= j < i ==> char_seq_lt(#[trigger] reg[j].id, id),
        i < reg.len() ==> char_seq_lt(id, reg[i].id),
    ensures
        reg_insert_pos(reg, id) == i,
    decreases reg.len(),
{
    if reg.len() == 0 {
    } else if char_seq_lt(id, reg[0].id) {
        if i > 0 {
            assert(char_seq_lt(reg[0].id, id));
            lemma_char_seq_lt_asym(id, reg[0].id);
        }
    } else {
        assert(i > 0);
        let rest = reg.drop_first();
        assert(forall|j: int| 0 <= j < i - 1 ==> char_seq_lt(#[trigger] rest[j].id, id)) by {
            assert(forall|j: int| 0 <= j < i - 1 ==> rest[j] == reg[j + 1]);
        }
        assert(reg_sorted(rest)) by {
            assert(forall|p: int, q: int|
                0 <= p < q < rest.len() ==> char_seq_lt(
                    #[trigger] rest[p].id,
                    #[trigger] rest[q].id,
                )) by {
                assert(forall|p: int| 0 <= p < rest.len() ==> rest[p] == reg[p + 1]);
            }
        }
        lemma_insert_pos_is(rest, id, i - 1);
    }
}

pub proof fn lemma_insert_pos_bounds(reg: Seq<RerollDataV>, id: Seq<char>)
    ensures
        0 <= reg_insert_pos(reg, id) <= reg.len(),
    decreases reg.len(),
{
    if reg.len() > 0 && !char_seq_lt(id, reg[0].id) {
        lemma_insert_pos_bounds(reg.drop_first(), id);
    }
}

/// What an insertion leaves behind: one more entry, the new record under
/// its key, and every old key still present.
pub proof fn lemma_reg_insert_contains(reg: Seq<RerollDataV>, id: Seq<char>, r: RerollV)
    ensures
        reg_insert(reg, id, r).len() == reg.len() + 1,
        reg_insert(reg, id, r)[reg_insert_pos(reg, id)] == (RerollDataV { id, reroll: r }),
        reg_contains(reg_insert(reg, id, r), id),
        forall|k: Seq<char>| reg_contains(reg, k) ==> reg_contains(reg_insert(reg, id, r), k),
{
    lemma_insert_pos_bounds(reg, id);
    let p = reg_insert_pos(reg, id);
    let reg2 = reg_insert(reg, id, r);
    assert(reg2[p] == (RerollDataV { id, reroll: r }));
    assert(reg2[p].id == id);
    assert forall|k: Seq<char>| reg_contains(reg, k) implies reg_contains(reg2, k) by {
        let w = reg_index_of(reg, k);
        if w < p {
            assert(reg2[w] == reg[w]);
        } else {
            assert(reg2[w + 1] == reg[w]);
        }
    }
}

/// What an overwrite leaves behind: the same keys in the same order, the
/// new record under the overwritten key, every other record untouched.
pub proof fn lemma_reg_update_props(reg: Seq<RerollDataV>, id: Seq<char>, r: RerollV)
    requires
        reg_sorted(reg),
        reg_contains(reg, id),
    ensures
        reg_update(reg, id, r).len() == reg.len(),
        reg_sorted(reg_update(reg, id, r)),
        forall|k: Seq<char>|
            reg_contains(reg_update(reg, id, r), k) <==> reg_contains(reg, k),
        reg_get(reg_update(reg, id, r), id) == r,
        forall|k: Seq<char>|
            reg_contains(reg, k) && k != id ==> reg_get(reg_update(reg, id, r), k) == reg_get(
                reg,
                k,
            ),
{
    let i = reg_index_of(reg, id);
    assert(0 <= i < reg.len() && reg[i].id == id);
    let reg2 = reg_update(reg, id, r);
    assert(forall|k: int| 0 <= k < reg.len() ==> (#[trigger] reg2[k]).id == reg[k].id);
    assert forall|k: Seq<char>| reg_contains(reg2, k) <==> reg_contains(reg, k) by {
        if reg_contains(reg2, k) {
            let w = reg_index_of(reg2, k);
            assert(reg[w].id == k);
        }
        if reg_contains(reg, k) {
            let w = reg_index_of(reg, k);
            assert(reg2[w].id == k);
        }
    }
    lemma_reg_get_at(reg2, id, i);
    assert forall|k: Seq<char>|
        reg_contains(reg, k) && k != id implies reg_get(reg2, k) == reg_get(reg, k) by {
        let w = reg_index_of(reg, k);
        assert(reg[w].id == k);
        assert(w != i);
        assert(reg2[w] == reg[w]);
        lemma_reg_get_at(reg2, k, w);
        lemma_reg_get_at(reg, k, w);
    }
}

/// The reroll registry: one permanent record per token identifier, held
/// in ascending key order so that scans are deterministic.
pub struct Registry {
    entries: Vec<RerollData>,
}

impl View for Registry {
    type V = Seq<RerollDataV>;

    closed spec fn view(&self) -> Seq<RerollDataV> {
        self.entries@.map(|i: int, e: RerollData| e@)
    }
}

impl Registry {
    /// Entries stand in strictly ascending key order.
    pub open spec fn wf(&self) -> bool {
        reg_sorted(self@)
    }

    /// The empty registry.
    pub fn new() -> (r: Registry)
        ensures
            r@ =~= Seq::<RerollDataV>::empty(),
            r.wf(),
    {
        Registry { entries: Vec::new() }
    }

    /// How many records exist.
    pub fn len(&self) -> (n: usize)
        ensures
            n == self@.len(),
    {
        self.entries.len()
    }

    /// The entry at a scan position.
    pub fn entry_at(&self, i: usize) -> (e: &RerollData)
        requires
            i < self@.len(),
        ensures
            e@ == self@[i as int],
    {
        &self.entries[i]
    }

    /// Finds the key's position: `(i, true)` when the key sits at `i`;
    /// `(i, false)` when the key is absent and would be inserted at `i`.
    fn search(&self, nft_id: &str) -> (r: (usize, bool))
        requires
            self.wf(),
        ensures
            r.1 ==> r.0 < self@.len() && self@[r.0 as int].id == nft_id@,
            !r.1 ==> r.0 <= self@.len() && (forall|j: int|
                0 <= j < r.0 ==> char_seq_lt(#[trigger] self@[j].id, nft_id@)) && (r.0
                < self@.len() ==> char_seq_lt(nft_id@, self@[r.0 as int].id)),
    {
        let n = self.entries.len();
        let mut i: usize = 0;
        while i < n
            invariant
                self.wf(),
                n == self@.len(),
                0 <= i <= n,
                forall|j: int| 0 <= j < i ==> char_seq_lt(#[trigger] self@[j].id, nft_id@),
            decreases n - i,
        {
            match str_cmp(nft_id, self.entries[i].id.as_str()) {
                KeyCmp::Less => {
                    return (i, false);
                },
                KeyCmp::Equal => {
                    return (i, true);
                },
                KeyCmp::Greater => {
                    i = i + 1;
                },
            }
        }
        (i, false)
    }

    /// Looks a token's record up.
    pub fn get(&self, nft_id: &str) -> (r: Option<&Reroll>)
        requires
            self.wf(),
        ensures
            match r {
                Some(rec) => reg_contains(self@, nft_id@) && rec@ == reg_get(self@, nft_id@),
                None => !reg_contains(self@, nft_id@),
            },
    {
        let (i, found) = self.search(nft_id);
        if found {
            proof {
                lemma_reg_get_at(self@, nft_id@, i as int);
            }
            Some(&self.entries[i].reroll)
        } else {
            proof {
                lemma_not_contains(self@, nft_id@, i as int);
            }
            None
        }
    }

    /// Whether a record exists for the token.
    pub fn contains(&self, nft_id: &str) -> (r: bool)
        requires
            self.wf(),
        ensures
            r == reg_contains(self@, nft_id@),
    {
        self.get(nft_id).is_some()
    }

    /// Inserts a fresh record, or overwrites the record under an existing
    /// key; key order is kept.
    pub fn put(&mut self, nft_id: String, reroll: Reroll)
        requires
            old(self).wf(),
        ensures
            final(self).wf(),
            reg_contains(old(self)@, nft_id@) ==> final(self)@ =~= reg_update(
                old(self)@,
                nft_id@,
                reroll@,
            ),
            !reg_contains(old(self)@, nft_id@) ==> final(self)@ =~= reg_insert(
                old(self)@,
                nft_id@,
                reroll@,
            ),
    {
        let ghost reg0 = self@;
        let (i, found) = self.search(nft_id.as_str());
        let entry = RerollData { id: nft_id, reroll };
        if found {
            let _replaced = self.entries.remove(i);
            self.entries.insert(i, entry);
            proof {
                lemma_reg_get_at(reg0, nft_id@, i as int);
                assert(reg0 == old(self)@);
                assert(self@ =~= reg_update(old(self)@, nft_id@, reroll@));
                assert(forall|k: int|
                    0 <= k < self@.len() ==> (#[trigger] self@[k]).id == reg0[k].id);
            }
        } else {
            self.entries.insert(i, entry);
            proof {
                lemma_not_contains(reg0, entry.id@, i as int);
                lemma_insert_pos_is(reg0, entry.id@, i as int);
                assert(self@ =~= reg_insert(reg0, entry.id@, entry.reroll@));
                assert(reg_sorted(self@)) by {
                    let regn = self@;
                    assert forall|p: int, q: int| 0 <= p < q < regn.len() implies char_seq_lt(
                        #[trigger] regn[p].id,
                        #[trigger] regn[q].id,
                    ) by {
                        if p < i && q == i {
                            assert(regn[p].id == reg0[p].id);
                        } else if p == i && q > i {
                            assert(regn[q].id == reg0[q - 1].id);
                            if i < q - 1 {
                                lemma_char_seq_lt_trans(
                                    entry.id@,
                                    reg0[i as int].id,
                                    reg0[q - 1].id,
                                );
                            }
                        } else if p < i && q > i {
                            assert(regn[p].id == reg0[p].id);
                            assert(regn[q].id == reg0[q - 1].id);
                            if p == q - 1 {
                                assert(char_seq_lt(reg0[p].id, entry.id@));
                                assert(char_seq_lt(entry.id@, reg0[q - 1].id) || i == q - 1);
                            } else {
                                assert(char_seq_lt(reg0[p].id, reg0[q - 1].id));
                            }
                        } else if q < i {
                            assert(regn[p].id == reg0[p].id);
                            assert(regn[q].id == reg0[q].id);
                        } else if p > i {
                            assert(regn[p].id == reg0[p - 1].id);
                            assert(regn[q].id == reg0[q - 1].id);
                        }
                    }
                }
            }
        }
    }
}

/// The whole persistent state of the program.
pub struct State {
    pub config: Config,
    pub rerolls: Registry,
}

impl State {
    pub open spec fn wf(&self) -> bool {
        self.config@.wf() && self.rerolls.wf()
    }
}

} // verus!
