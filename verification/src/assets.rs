//! Assets and asset lists: native coins and CW20 tokens with amounts.
//!
//! An asset list is `cw_asset::AssetList`. Its contents are described, in order, as a sequence
//! of entries `(is_cw20, denom_or_address, amount)`.

use vstd::prelude::*;

verus! {

/// A list of assets, each with an amount: a `cw_asset::AssetList`.
#[verifier::external_body]
#[derive(Debug)]
pub struct AssetList {
    inner: cw_asset::AssetList,
}

#[verifier::external_type_specification]
#[verifier::external_body]
pub struct ExternalAssetError(cw_asset::AssetError);

/// One entry of an asset list: whether the asset is a CW20 token, its denom (native coin) or
/// contract address (CW20 token), and its amount.
pub type AssetEntry = (bool, Seq<char>, u128);

/// The entries of an asset list, in the order in which the list holds them.
pub uninterp spec fn asset_list_entries(list: AssetList) -> Seq<AssetEntry>;

/// What identifies an asset: whether it is a CW20 token, and its denom or contract address.
pub type AssetKey = (bool, Seq<char>);

/// The kind of an asset: a native coin with a denom, or a CW20 token with a contract address.
#[derive(Debug)]
pub enum AssetInfo {
    Native(String),
    Cw20(String),
}

impl AssetInfo {
    /// What identifies this asset.
    pub open spec fn key(&self) -> AssetKey {
        match self {
            AssetInfo::Native(denom) => (false, denom@),
            AssetInfo::Cw20(addr) => (true, addr@),
        }
    }

    /// Whether two asset kinds are the same kind.
    pub fn same_as(&self, other: &AssetInfo) -> (r: bool)
        ensures
            r == (self.key() == other.key()),
    {
        match (self, other) {
            (AssetInfo::Native(a), AssetInfo::Native(b)) => string_eq(a, b),
            (AssetInfo::Cw20(a), AssetInfo::Cw20(b)) => string_eq(a, b),
            _ => false,
        }
    }

    /// A copy of this asset kind.
    pub fn duplicate(&self) -> (r: AssetInfo)
        ensures
            r == *self,
    {
        match self {
            AssetInfo::Native(d) => AssetInfo::Native(d.clone()),
            AssetInfo::Cw20(a) => AssetInfo::Cw20(a.clone()),
        }
    }
}

/// Whether two strings hold the same characters.
pub fn string_eq(a: &String, b: &String) -> (r: bool)
    ensures
        r == (a@ == b@),
{
    a.eq(b)
}

/// An amount of an asset.
#[derive(Debug)]
pub struct Asset {
    pub info: AssetInfo,
    pub amount: u128,
}

impl Asset {
    /// The list entry that stands for this asset.
    pub open spec fn entry(&self) -> AssetEntry {
        (self.info.key().0, self.info.key().1, self.amount)
    }

    /// A copy of this asset.
    pub fn duplicate(&self) -> (r: Asset)
        ensures
            r == *self,
    {
        Asset { info: self.info.duplicate(), amount: self.amount }
    }
}

/// A native coin sent along with a message.
#[derive(Debug)]
pub struct Coin {
    pub denom: String,
    pub amount: u128,
}

/// The amount of the first coin of a denom among coins, or zero when there is none.
pub open spec fn coin_amount(coins: Seq<Coin>, denom: Seq<char>) -> u128
    decreases coins.len(),
{
    if coins.len() == 0 {
        0
    } else if coins[0].denom@ == denom {
        coins[0].amount
    } else {
        coin_amount(coins.drop_first(), denom)
    }
}

/// The amount of the first coin of a denom among coins, if there is one.
pub open spec fn coin_of(coins: Seq<Coin>, denom: Seq<char>) -> Option<u128>
    decreases coins.len(),
{
    if coins.len() == 0 {
        None
    } else if coins[0].denom@ == denom {
        Some(coins[0].amount)
    } else {
        coin_of(coins.drop_first(), denom)
    }
}

/// The amount of the first coin of `denom` among `coins`, if there is one.
pub fn find_coin(coins: &Vec<Coin>, denom: &String) -> (r: Option<u128>)
    ensures
        r == coin_of(coins@, denom@),
{
    let mut i: usize = 0;
    assert(coins@.skip(0) =~= coins@);
    while i < coins.len()
        invariant
            i <= coins.len(),
            coin_of(coins@, denom@) == coin_of(coins@.skip(i as int), denom@),
        decreases coins.len() - i,
    {
        assert(coins@.skip(i as int).drop_first() =~= coins@.skip(i + 1));
        if string_eq(&coins[i].denom, denom) {
            return Some(coins[i].amount);
        }
        i = i + 1;
    }
    None
}

/// The amount of the first coin of `denom` among `coins`, or zero when there is none.
pub fn find_coin_amount(coins: &Vec<Coin>, denom: &String) -> (r: u128)
    ensures
        r == coin_amount(coins@, denom@),
{
    let mut i: usize = 0;
    assert(coins@.skip(0) =~= coins@);
    while i < coins.len()
        invariant
            i <= coins.len(),
            coin_amount(coins@, denom@) == coin_amount(coins@.skip(i as int), denom@),
        decreases coins.len() - i,
    {
        assert(coins@.skip(i as int).drop_first() =~= coins@.skip(i + 1));
        if string_eq(&coins[i].denom, denom) {
            return coins[i].amount;
        }
        i = i + 1;
    }
    0
}

/// The entries standing for coins: one native entry per coin, in order.
pub open spec fn coins_entries(coins: Seq<Coin>) -> Seq<AssetEntry> {
    coins.map_values(|c: Coin| (false, c.denom@, c.amount))
}

/// What identifies the asset of an entry.
pub open spec fn entry_key(e: AssetEntry) -> AssetKey {
    (e.0, e.1)
}

/// The position of the first entry with the given key, if there is one.
pub open spec fn first_index(s: Seq<AssetEntry>, key: AssetKey) -> Option<int>
    decreases s.len(),
{
    if s.len() == 0 {
        None
    } else if entry_key(s[0]) == key {
        Some(0)
    } else {
        match first_index(s.drop_first(), key) {
            Some(i) => Some(i + 1),
            None => None,
        }
    }
}

/// The amount of the first entry with the given key, if there is one.
pub open spec fn entries_find(s: Seq<AssetEntry>, key: AssetKey) -> Option<u128> {
    match first_index(s, key) {
        Some(i) => Some(s[i].2),
        None => None,
    }
}

/// The amount held of an asset: that of its first entry, or zero.
pub open spec fn amount_of(s: Seq<AssetEntry>, key: AssetKey) -> u128 {
    match entries_find(s, key) {
        Some(a) => a,
        None => 0,
    }
}

/// Whether an entry has a non-zero amount.
pub open spec fn nonzero_entry(e: AssetEntry) -> bool {
    e.2 != 0
}

/// The entries with a non-zero amount, in order.
pub open spec fn purged(s: Seq<AssetEntry>) -> Seq<AssetEntry>
    decreases s.len(),
{
    if s.len() == 0 {
        s
    } else if nonzero_entry(s[0]) {
        seq![s[0]] + purged(s.drop_first())
    } else {
        purged(s.drop_first())
    }
}

/// Adding an asset: its first entry grows by the amount, or a new entry is appended; then the
/// entries with zero amount are dropped. `None` when the amount overflows.
pub open spec fn entries_add(s: Seq<AssetEntry>, a: AssetEntry) -> Option<Seq<AssetEntry>> {
    match first_index(s, entry_key(a)) {
        Some(i) => if s[i].2 + a.2 > u128::MAX {
            None
        } else {
            Some(purged(s.update(i, (s[i].0, s[i].1, (s[i].2 + a.2) as u128))))
        },
        None => Some(purged(s.push(a))),
    }
}

/// Why deducting from an asset list fails.
pub enum DeductFailure {
    /// The list holds no entry of the asset.
    NotFound,
    /// The list holds less of the asset than the amount.
    Insufficient,
}

/// Deducting an asset: its first entry shrinks by the amount, then the entries with zero
/// amount are dropped.
pub open spec fn entries_deduct(s: Seq<AssetEntry>, a: AssetEntry) -> Result<
    Seq<AssetEntry>,
    DeductFailure,
> {
    match first_index(s, entry_key(a)) {
        Some(i) => if s[i].2 < a.2 {
            Err(DeductFailure::Insufficient)
        } else {
            Ok(purged(s.update(i, (s[i].0, s[i].1, (s[i].2 - a.2) as u128))))
        },
        None => Err(DeductFailure::NotFound),
    }
}

/// Adding every entry of `t`, in order.
pub open spec fn entries_add_many(s: Seq<AssetEntry>, t: Seq<AssetEntry>) -> Option<
    Seq<AssetEntry>,
>
    decreases t.len(),
{
    if t.len() == 0 {
        Some(s)
    } else {
        match entries_add(s, t[0]) {
            Some(s2) => entries_add_many(s2, t.drop_first()),
            None => None,
        }
    }
}

/// Deducting every entry of `t`, in order.
pub open spec fn entries_deduct_many(s: Seq<AssetEntry>, t: Seq<AssetEntry>) -> Result<
    Seq<AssetEntry>,
    DeductFailure,
>
    decreases t.len(),
{
    if t.len() == 0 {
        Ok(s)
    } else {
        match entries_deduct(s, t[0]) {
            Ok(s2) => entries_deduct_many(s2, t.drop_first()),
            Err(e) => Err(e),
        }
    }
}

/// An entry with its amount multiplied by `rate / 10^18`, rounded down.
pub open spec fn scaled_entry(e: AssetEntry, rate: u128) -> AssetEntry {
    (e.0, e.1, crate::math::ratio(e.2 as int, rate as int, crate::math::DECIMAL_FRACTIONAL as int) as u128)
}

/// Every amount multiplied by `rate / 10^18`, rounded down.
pub open spec fn entries_scaled(s: Seq<AssetEntry>, rate: u128) -> Seq<AssetEntry> {
    s.map_values(|e: AssetEntry| scaled_entry(e, rate))
}

/// Whether scaling every amount by `rate / 10^18` stays within 128 bits.
pub open spec fn scale_fits(s: Seq<AssetEntry>, rate: u128) -> bool {
    forall|i: int|
        0 <= i < s.len() ==> crate::math::ratio(
            #[trigger] s[i].2 as int,
            rate as int,
            crate::math::DECIMAL_FRACTIONAL as int,
        ) <= u128::MAX
}

/// No two entries are of the same asset.
pub open spec fn keys_unique(s: Seq<AssetEntry>) -> bool {
    forall|i: int, j: int|
        0 <= i < s.len() && 0 <= j < s.len() && i != j ==> entry_key(#[trigger] s[i])
            != entry_key(#[trigger] s[j])
}

/// A list as the vault keeps it: no two entries of the same asset, and no zero amounts.
pub open spec fn entries_wf(s: Seq<AssetEntry>) -> bool {
    &&& keys_unique(s)
    &&& forall|i: int| 0 <= i < s.len() ==> nonzero_entry(#[trigger] s[i])
}

/// Purging a list without zero amounts changes nothing.
pub proof fn lemma_purged_without_zeros(s: Seq<AssetEntry>)
    requires
        forall|i: int| 0 <= i < s.len() ==> nonzero_entry(#[trigger] s[i]),
    ensures
        purged(s) == s,
    decreases s.len(),
{
    if s.len() > 0 {
        let rest = s.drop_first();
        assert forall|i: int| 0 <= i < rest.len() implies nonzero_entry(#[trigger] rest[i]) by {
            assert(rest[i] == s[i + 1]);
        }
        lemma_purged_without_zeros(rest);
        assert(seq![s[0]] + rest =~= s);
    }
}

/// Scaling every amount by one changes nothing.
pub proof fn lemma_scaled_by_one(s: Seq<AssetEntry>)
    ensures
        entries_scaled(s, crate::math::DECIMAL_FRACTIONAL) == s,
{
    assert forall|i: int| 0 <= i < s.len() implies #[trigger] entries_scaled(
        s,
        crate::math::DECIMAL_FRACTIONAL,
    )[i] == s[i] by {
        crate::math::lemma_ratio_cancel(s[i].2 as int, crate::math::DECIMAL_FRACTIONAL as int);
    }
    assert(entries_scaled(s, crate::math::DECIMAL_FRACTIONAL) =~= s);
}

/// Deducting, one by one, every entry of a well-kept list from the list itself empties it.
pub proof fn lemma_deduct_all(u: Seq<AssetEntry>)
    requires
        entries_wf(u),
    ensures
        entries_deduct_many(u, u) == Ok::<Seq<AssetEntry>, DeductFailure>(Seq::empty()),
    decreases u.len(),
{
    if u.len() > 0 {
        let rest = u.drop_first();
        let zeroed = u.update(0, (u[0].0, u[0].1, (u[0].2 - u[0].2) as u128));
        assert(first_index(u, entry_key(u[0])) == Some(0int));
        assert(zeroed.drop_first() =~= rest);
        assert(!nonzero_entry(zeroed[0]));
        assert(purged(zeroed) == purged(rest));
        assert forall|i: int| 0 <= i < rest.len() implies nonzero_entry(#[trigger] rest[i]) by {
            assert(rest[i] == u[i + 1]);
        }
        assert forall|i: int, j: int|
            0 <= i < rest.len() && 0 <= j < rest.len() && i != j implies entry_key(
            #[trigger] rest[i],
        ) != entry_key(#[trigger] rest[j]) by {
            assert(rest[i] == u[i + 1]);
            assert(rest[j] == u[j + 1]);
        }
        lemma_purged_without_zeros(rest);
        assert(entries_deduct(u, u[0]) == Ok::<Seq<AssetEntry>, DeductFailure>(rest));
        lemma_deduct_all(rest);
    } else {
        assert(u =~= Seq::<AssetEntry>::empty());
    }
}

/// The first entry of an asset is where `first_index` says, and no entry of it comes before;
/// when there is none, no entry is of that asset.
pub proof fn lemma_first_index(s: Seq<AssetEntry>, key: AssetKey)
    ensures
        match first_index(s, key) {
            Some(i) => 0 <= i < s.len() && entry_key(s[i]) == key && forall|j: int|
                0 <= j < i ==> entry_key(#[trigger] s[j]) != key,
            None => forall|j: int| 0 <= j < s.len() ==> entry_key(#[trigger] s[j]) != key,
        },
    decreases s.len(),
{
    if s.len() > 0 {
        let rest = s.drop_first();
        lemma_first_index(rest, key);
        if entry_key(s[0]) != key {
            match first_index(rest, key) {
                Some(i) => {
                    assert forall|j: int| 0 <= j < i + 1 implies entry_key(#[trigger] s[j]) != key by {
                        if j > 0 {
                            assert(s[j] == rest[j - 1]);
                        }
                    }
                },
                None => {
                    assert forall|j: int| 0 <= j < s.len() implies entry_key(#[trigger] s[j]) != key by {
                        if j > 0 {
                            assert(s[j] == rest[j - 1]);
                        }
                    }
                },
            }
        }
    }
}

/// Every entry that purging keeps is a non-zero entry of the list.
pub proof fn lemma_purged_from(s: Seq<AssetEntry>, k: int)
    requires
        0 <= k < purged(s).len(),
    ensures
        exists|i: int| 0 <= i < s.len() && purged(s)[k] == #[trigger] s[i],
        nonzero_entry(purged(s)[k]),
    decreases s.len(),
{
    let rest = s.drop_first();
    if nonzero_entry(s[0]) {
        if k == 0 {
            assert(purged(s)[k] == s[0]);
        } else {
            assert(purged(s)[k] == purged(rest)[k - 1]);
            lemma_purged_from(rest, k - 1);
            let i = choose|i: int| 0 <= i < rest.len() && purged(rest)[k - 1] == #[trigger] rest[i];
            assert(s[i + 1] == rest[i]);
        }
    } else {
        lemma_purged_from(rest, k);
        let i = choose|i: int| 0 <= i < rest.len() && purged(rest)[k] == #[trigger] rest[i];
        assert(s[i + 1] == rest[i]);
    }
}

/// Purging a list without two entries of one asset keeps it well kept.
pub proof fn lemma_purged_wf(s: Seq<AssetEntry>)
    requires
        keys_unique(s),
    ensures
        entries_wf(purged(s)),
    decreases s.len(),
{
    if s.len() > 0 {
        let rest = s.drop_first();
        assert forall|i: int, j: int|
            0 <= i < rest.len() && 0 <= j < rest.len() && i != j implies entry_key(
            #[trigger] rest[i],
        ) != entry_key(#[trigger] rest[j]) by {
            assert(rest[i] == s[i + 1]);
            assert(rest[j] == s[j + 1]);
        }
        lemma_purged_wf(rest);
        let p = purged(rest);
        if nonzero_entry(s[0]) {
            let q = purged(s);
            assert(q == seq![s[0]] + p);
            assert forall|k: int| 0 <= k < p.len() implies entry_key(#[trigger] p[k]) != entry_key(
                s[0],
            ) by {
                lemma_purged_from(rest, k);
                let i = choose|i: int| 0 <= i < rest.len() && p[k] == #[trigger] rest[i];
                assert(rest[i] == s[i + 1]);
            }
            assert forall|i: int, j: int|
                0 <= i < q.len() && 0 <= j < q.len() && i != j implies entry_key(#[trigger] q[i])
                != entry_key(#[trigger] q[j]) by {
                if i > 0 {
                    assert(q[i] == p[i - 1]);
                }
                if j > 0 {
                    assert(q[j] == p[j - 1]);
                }
            }
            assert forall|i: int| 0 <= i < q.len() implies nonzero_entry(#[trigger] q[i]) by {
                if i > 0 {
                    assert(q[i] == p[i - 1]);
                }
            }
        }
    }
}

/// Changing the amount of an entry keeps the keys distinct.
pub proof fn lemma_update_keeps_keys(s: Seq<AssetEntry>, i: int, amount: u128)
    requires
        keys_unique(s),
        0 <= i < s.len(),
    ensures
        keys_unique(s.update(i, (s[i].0, s[i].1, amount))),
{
    let t = s.update(i, (s[i].0, s[i].1, amount));
    assert forall|a: int, b: int|
        0 <= a < t.len() && 0 <= b < t.len() && a != b implies entry_key(#[trigger] t[a])
        != entry_key(#[trigger] t[b]) by {
        assert(entry_key(t[a]) == entry_key(s[a]));
        assert(entry_key(t[b]) == entry_key(s[b]));
    }
}

/// Adding an asset to a well-kept list keeps it well kept.
pub proof fn lemma_add_wf(s: Seq<AssetEntry>, a: AssetEntry)
    requires
        entries_wf(s),
        entries_add(s, a) is Some,
    ensures
        entries_wf(entries_add(s, a)->0),
{
    lemma_first_index(s, entry_key(a));
    match first_index(s, entry_key(a)) {
        Some(i) => {
            lemma_update_keeps_keys(s, i, (s[i].2 + a.2) as u128);
            lemma_purged_wf(s.update(i, (s[i].0, s[i].1, (s[i].2 + a.2) as u128)));
        },
        None => {
            let t = s.push(a);
            assert forall|x: int, y: int|
                0 <= x < t.len() && 0 <= y < t.len() && x != y implies entry_key(#[trigger] t[x])
                != entry_key(#[trigger] t[y]) by {
                if x < s.len() {
                    assert(t[x] == s[x]);
                }
                if y < s.len() {
                    assert(t[y] == s[y]);
                }
            }
            lemma_purged_wf(t);
        },
    }
}

/// Deducting an asset from a well-kept list keeps it well kept.
pub proof fn lemma_deduct_wf(s: Seq<AssetEntry>, a: AssetEntry)
    requires
        entries_wf(s),
        entries_deduct(s, a) is Ok,
    ensures
        entries_wf(entries_deduct(s, a)->Ok_0),
{
    lemma_first_index(s, entry_key(a));
    let i = first_index(s, entry_key(a))->0;
    lemma_update_keeps_keys(s, i, (s[i].2 - a.2) as u128);
    lemma_purged_wf(s.update(i, (s[i].0, s[i].1, (s[i].2 - a.2) as u128)));
}

/// Adding assets one by one to a well-kept list keeps it well kept.
pub proof fn lemma_add_many_wf(s: Seq<AssetEntry>, t: Seq<AssetEntry>)
    requires
        entries_wf(s),
        entries_add_many(s, t) is Some,
    ensures
        entries_wf(entries_add_many(s, t)->0),
    decreases t.len(),
{
    if t.len() > 0 {
        lemma_add_wf(s, t[0]);
        lemma_add_many_wf(entries_add(s, t[0])->0, t.drop_first());
    }
}

/// Deducting assets one by one from a well-kept list keeps it well kept.
pub proof fn lemma_deduct_many_wf(s: Seq<AssetEntry>, t: Seq<AssetEntry>)
    requires
        entries_wf(s),
        entries_deduct_many(s, t) is Ok,
    ensures
        entries_wf(entries_deduct_many(s, t)->Ok_0),
    decreases t.len(),
{
    if t.len() > 0 {
        lemma_deduct_wf(s, t[0]);
        lemma_deduct_many_wf(entries_deduct(s, t[0])->Ok_0, t.drop_first());
    }
}

/// The amount held of an asset, read from the first entry and the rest of a list.
pub proof fn lemma_amount_of_first(s: Seq<AssetEntry>, key: AssetKey)
    requires
        s.len() > 0,
    ensures
        amount_of(s, key) == if entry_key(s[0]) == key {
            s[0].2
        } else {
            amount_of(s.drop_first(), key)
        },
{
    let rest = s.drop_first();
    if entry_key(s[0]) != key {
        match first_index(rest, key) {
            Some(i) => {
                lemma_first_index(rest, key);
                assert(first_index(s, key) == Some(i + 1));
                assert(s[i + 1] == rest[i]);
            },
            None => {
                assert(first_index(s, key) == None::<int>);
            },
        }
    }
}

/// In a list without two entries of one asset, an entry holds the whole amount of its asset,
/// and an asset without an entry is held in amount zero.
pub proof fn lemma_amount_of_entry(s: Seq<AssetEntry>, i: int)
    requires
        keys_unique(s),
        0 <= i < s.len(),
    ensures
        amount_of(s, entry_key(s[i])) == s[i].2,
{
    lemma_first_index(s, entry_key(s[i]));
    let j = first_index(s, entry_key(s[i]))->0;
    if j != i {
        assert(entry_key(s[j]) != entry_key(s[i]));
    }
}

/// Purging keeps the amount held of every asset, when no two entries are of one asset.
pub proof fn lemma_amount_of_purged(s: Seq<AssetEntry>, key: AssetKey)
    requires
        keys_unique(s),
    ensures
        amount_of(purged(s), key) == amount_of(s, key),
    decreases s.len(),
{
    if s.len() > 0 {
        let rest = s.drop_first();
        assert forall|i: int, j: int|
            0 <= i < rest.len() && 0 <= j < rest.len() && i != j implies entry_key(
            #[trigger] rest[i],
        ) != entry_key(#[trigger] rest[j]) by {
            assert(rest[i] == s[i + 1]);
            assert(rest[j] == s[j + 1]);
        }
        lemma_amount_of_purged(rest, key);
        lemma_amount_of_first(s, key);
        if nonzero_entry(s[0]) {
            let q = purged(s);
            assert(q == seq![s[0]] + purged(rest));
            lemma_amount_of_first(q, key);
            assert(q.drop_first() =~= purged(rest));
        } else if entry_key(s[0]) == key {
            lemma_first_index(rest, key);
            assert forall|j: int| 0 <= j < rest.len() implies entry_key(#[trigger] rest[j]) != key by {
                assert(rest[j] == s[j + 1]);
            }
        }
    }
}

/// Changing the amount of one entry changes the amount held of its asset only, when no two
/// entries are of one asset.
pub proof fn lemma_amount_of_update(s: Seq<AssetEntry>, i: int, amount: u128, key: AssetKey)
    requires
        keys_unique(s),
        0 <= i < s.len(),
    ensures
        amount_of(s.update(i, (s[i].0, s[i].1, amount)), key) == if entry_key(s[i]) == key {
            amount
        } else {
            amount_of(s, key)
        },
{
    let t = s.update(i, (s[i].0, s[i].1, amount));
    lemma_update_keeps_keys(s, i, amount);
    lemma_first_index(s, key);
    lemma_first_index(t, key);
    if entry_key(s[i]) == key {
        lemma_amount_of_entry(t, i);
    } else {
        match first_index(s, key) {
            Some(j) => {
                assert(entry_key(t[j]) == key);
                match first_index(t, key) {
                    Some(m) => {
                        if m < j {
                            assert(entry_key(s[m]) == entry_key(t[m]));
                        } else if m > j {
                            assert(entry_key(t[j]) != key);
                        }
                    },
                    None => {},
                }
            },
            None => {
                match first_index(t, key) {
                    Some(m) => {
                        assert(entry_key(s[m]) == entry_key(t[m]));
                    },
                    None => {},
                }
            },
        }
    }
}

/// Deducting an asset held in a large enough amount from a well-kept list succeeds and lowers
/// the amount held of that asset by the amount deducted, and of no other.
pub proof fn lemma_deduct_amounts(s: Seq<AssetEntry>, a: AssetEntry)
    requires
        entries_wf(s),
        0 < a.2 <= amount_of(s, entry_key(a)),
    ensures
        entries_deduct(s, a) is Ok,
        forall|key: AssetKey| #[trigger]
            amount_of(entries_deduct(s, a)->Ok_0, key) == if key == entry_key(a) {
                amount_of(s, key) - a.2
            } else {
                amount_of(s, key) as int
            },
{
    lemma_first_index(s, entry_key(a));
    let i = first_index(s, entry_key(a))->0;
    let t = s.update(i, (s[i].0, s[i].1, (s[i].2 - a.2) as u128));
    lemma_update_keeps_keys(s, i, (s[i].2 - a.2) as u128);
    assert forall|key: AssetKey| #[trigger]
        amount_of(entries_deduct(s, a)->Ok_0, key) == if key == entry_key(a) {
            amount_of(s, key) - a.2
        } else {
            amount_of(s, key) as int
        } by {
        lemma_amount_of_purged(t, key);
        lemma_amount_of_update(s, i, (s[i].2 - a.2) as u128, key);
    }
}

/// Deducting, one by one, assets of distinct kinds with non-zero amounts, each held in a large
/// enough amount, from a well-kept list succeeds and lowers the amount held of each by the
/// amount deducted.
pub proof fn lemma_deduct_many_amounts(s: Seq<AssetEntry>, t: Seq<AssetEntry>)
    requires
        entries_wf(s),
        entries_wf(t),
        forall|j: int| 0 <= j < t.len() ==> t[j].2 <= #[trigger] amount_of(s, entry_key(t[j])),
    ensures
        entries_deduct_many(s, t) is Ok,
        forall|key: AssetKey| #[trigger]
            amount_of(entries_deduct_many(s, t)->Ok_0, key) == amount_of(s, key) - amount_of(
                t,
                key,
            ),
    decreases t.len(),
{
    if t.len() == 0 {
        assert forall|key: AssetKey| #[trigger]
            amount_of(entries_deduct_many(s, t)->Ok_0, key) == amount_of(s, key) - amount_of(
                t,
                key,
            ) by {
            lemma_first_index(t, key);
        }
    } else {
        let a = t[0];
        let rest = t.drop_first();
        assert(nonzero_entry(t[0]));
        assert(a.2 <= amount_of(s, entry_key(t[0])));
        lemma_deduct_amounts(s, a);
        lemma_deduct_wf(s, a);
        let s2 = entries_deduct(s, a)->Ok_0;
        assert forall|i: int, j: int|
            0 <= i < rest.len() && 0 <= j < rest.len() && i != j implies entry_key(
            #[trigger] rest[i],
        ) != entry_key(#[trigger] rest[j]) by {
            assert(rest[i] == t[i + 1]);
            assert(rest[j] == t[j + 1]);
        }
        assert forall|j: int| 0 <= j < rest.len() implies nonzero_entry(#[trigger] rest[j]) by {
            assert(rest[j] == t[j + 1]);
        }
        assert forall|j: int| 0 <= j < rest.len() implies rest[j].2 <= #[trigger] amount_of(
            s2,
            entry_key(rest[j]),
        ) by {
            assert(rest[j] == t[j + 1]);
            assert(entry_key(t[j + 1]) != entry_key(t[0]));
            assert(t[j + 1].2 <= amount_of(s, entry_key(t[j + 1])));
        }
        lemma_deduct_many_amounts(s2, rest);
        assert forall|key: AssetKey| #[trigger]
            amount_of(entries_deduct_many(s, t)->Ok_0, key) == amount_of(s, key) - amount_of(
                t,
                key,
            ) by {
            lemma_amount_of_first(t, key);
            if entry_key(a) == key {
                lemma_first_index(rest, key);
                assert forall|j: int| 0 <= j < rest.len() implies entry_key(#[trigger] rest[j]) != key by {
                    assert(rest[j] == t[j + 1]);
                }
            }
        }
    }
}

/// Scaling the amounts keeps the keys distinct.
pub proof fn lemma_scaled_keeps_keys(s: Seq<AssetEntry>, rate: u128)
    requires
        keys_unique(s),
    ensures
        keys_unique(entries_scaled(s, rate)),
{
    let t = entries_scaled(s, rate);
    assert forall|a: int, b: int|
        0 <= a < t.len() && 0 <= b < t.len() && a != b implies entry_key(#[trigger] t[a])
        != entry_key(#[trigger] t[b]) by {
        assert(entry_key(t[a]) == entry_key(s[a]));
        assert(entry_key(t[b]) == entry_key(s[b]));
    }
}

/// Scaling every amount keeps the assets, and scales the amount held of each.
pub proof fn lemma_scaled_amounts(s: Seq<AssetEntry>, rate: u128, key: AssetKey)
    requires
        keys_unique(s),
    ensures
        keys_unique(entries_scaled(s, rate)),
        amount_of(entries_scaled(s, rate), key) == crate::math::ratio(
            amount_of(s, key) as int,
            rate as int,
            crate::math::DECIMAL_FRACTIONAL as int,
        ) as u128,
{
    let t = entries_scaled(s, rate);
    lemma_scaled_keeps_keys(s, rate);
    lemma_first_index(s, key);
    lemma_first_index(t, key);
    match first_index(s, key) {
        Some(i) => {
            assert(entry_key(t[i]) == key);
            lemma_amount_of_entry(t, i);
            lemma_amount_of_entry(s, i);
        },
        None => {
            match first_index(t, key) {
                Some(m) => {
                    assert(entry_key(s[m]) == entry_key(t[m]));
                },
                None => {
                    assert(crate::math::ratio(0, rate as int, crate::math::DECIMAL_FRACTIONAL as int)
                        == 0);
                },
            }
        },
    }
}

/// Whether scaling every amount of a list by `rate / 10^18` stays within 128 bits.
pub fn list_scale_fits(list: &AssetList, rate: crate::math::Decimal) -> (r: bool)
    ensures
        r == scale_fits(asset_list_entries(*list), rate.atomics),
{
    let assets = list_to_assets(list);
    let ghost s = asset_list_entries(*list);
    let mut i: usize = 0;
    while i < assets.len()
        invariant
            i <= assets.len(),
            s == asset_list_entries(*list),
            assets@.map_values(|a: Asset| a.entry()) == s,
            forall|j: int|
                0 <= j < i ==> crate::math::ratio(
                    #[trigger] s[j].2 as int,
                    rate.atomics as int,
                    crate::math::DECIMAL_FRACTIONAL as int,
                ) <= u128::MAX,
        decreases assets.len() - i,
    {
        assert(s.len() == assets.len());
        assert(s[i as int] == assets@[i as int].entry());
        assert(s[i as int].2 == assets@[i as int].amount);
        if crate::math::checked_multiply_ratio(
            assets[i].amount,
            rate.atomics,
            crate::math::DECIMAL_FRACTIONAL,
        ).is_none() {
            assert(crate::math::ratio(
                s[i as int].2 as int,
                rate.atomics as int,
                crate::math::DECIMAL_FRACTIONAL as int,
            ) > u128::MAX);
            return false;
        }
        i = i + 1;
    }
    assert(s.len() == assets.len());
    true
}

impl AssetList {
    /// An empty list.
    pub fn new() -> (r: AssetList)
        ensures
            asset_list_entries(r) == Seq::<AssetEntry>::empty(),
    {
        list_new()
    }

    /// A list holding the given assets, in order.
    pub fn from_assets(assets: Vec<Asset>) -> (r: AssetList)
        ensures
            asset_list_entries(r) == assets@.map_values(|a: Asset| a.entry()),
    {
        list_from_assets(assets)
    }

    /// The assets the list holds, in order.
    pub fn to_assets(&self) -> (r: Vec<Asset>)
        ensures
            r@.map_values(|a: Asset| a.entry()) == asset_list_entries(*self),
    {
        list_to_assets(self)
    }

    /// The amount held of an asset, if the list holds it.
    pub fn find(&self, info: &AssetInfo) -> (r: Option<u128>)
        ensures
            r == entries_find(asset_list_entries(*self), info.key()),
    {
        list_find(self, info)
    }

    /// The number of assets the list holds.
    pub fn len(&self) -> (r: usize)
        ensures
            r == asset_list_entries(*self).len(),
    {
        list_len(self)
    }

    /// A copy of the list.
    pub fn duplicate(&self) -> (r: AssetList)
        ensures
            asset_list_entries(r) == asset_list_entries(*self),
    {
        list_clone(self)
    }
}

/// Calls `From<Vec<Asset>> for cw_asset::AssetList`, which holds the assets as given, in order.
#[verifier::external_body]
fn list_from_assets(assets: Vec<Asset>) -> (r: AssetList)
    ensures
        asset_list_entries(r) == assets@.map_values(|a: Asset| a.entry()),
{
    let v: Vec<cw_asset::Asset> = assets.into_iter().map(
        |a| match a.info {
            AssetInfo::Native(d) => cw_asset::Asset::native(d, a.amount),
            AssetInfo::Cw20(c) => cw_asset::Asset::cw20(cosmwasm_std::Addr::unchecked(c), a.amount),
        },
    ).collect();
    AssetList { inner: cw_asset::AssetList::from(v) }
}

/// Calls `cw_asset::AssetList::to_vec`, which returns the assets held, in order.
#[verifier::external_body]
fn list_to_assets(list: &AssetList) -> (r: Vec<Asset>)
    ensures
        r@.map_values(|a: Asset| a.entry()) == asset_list_entries(*list),
{
    list.inner.to_vec().into_iter().map(
        |a| {
            let label = a.info.inner();
            if matches!(a.info, cw_asset::AssetInfo::Cw20(_)) {
                Asset { info: AssetInfo::Cw20(label), amount: a.amount.u128() }
            } else {
                Asset { info: AssetInfo::Native(label), amount: a.amount.u128() }
            }
        },
    ).collect()
}

/// Calls `cw_asset::AssetList::new`, which makes an empty list.
#[verifier::external_body]
pub(crate) fn list_new() -> (r: AssetList)
    ensures
        asset_list_entries(r) == Seq::<AssetEntry>::empty(),
{
    AssetList { inner: cw_asset::AssetList::new() }
}

/// Calls `From<Vec<Coin>> for cw_asset::AssetList`, which makes one native entry per coin, in
/// order.
#[verifier::external_body]
pub(crate) fn list_from_coins(coins: &Vec<Coin>) -> (r: AssetList)
    ensures
        asset_list_entries(r) == coins_entries(coins@),
{
    let v: Vec<cosmwasm_std::Coin> = coins.iter().map(
        |c| cosmwasm_std::Coin::new(c.amount, c.denom.clone()),
    ).collect();
    AssetList { inner: cw_asset::AssetList::from(v) }
}

/// Calls `cw_asset::AssetList::len`, the number of entries.
#[verifier::external_body]
pub(crate) fn list_len(list: &AssetList) -> (r: usize)
    ensures
        r == asset_list_entries(*list).len(),
{
    list.inner.len()
}

/// Calls `cw_asset::AssetList::find`, which returns the first entry of the given asset.
#[verifier::external_body]
pub(crate) fn list_find(list: &AssetList, info: &AssetInfo) -> (r: Option<u128>)
    ensures
        r == entries_find(asset_list_entries(*list), info.key()),
{
    let cw_info = match info {
        AssetInfo::Native(d) => cw_asset::AssetInfo::Native(d.clone()),
        AssetInfo::Cw20(a) => cw_asset::AssetInfo::Cw20(cosmwasm_std::Addr::unchecked(a.clone())),
    };
    list.inner.find(&cw_info).map(|a| a.amount.u128())
}

/// Calls `cw_asset::AssetList::add`: the first entry of the asset grows by the amount, or the
/// asset is appended, and then zero entries are purged. It fails on overflow, leaving the list
/// unchanged.
#[verifier::external_body]
pub(crate) fn list_add(list: &mut AssetList, asset: &Asset) -> (r: Result<
    (),
    cw_asset::AssetError,
>)
    ensures
        r is Ok <==> entries_add(asset_list_entries(*old(list)), asset.entry()) is Some,
        r is Ok ==> asset_list_entries(*final(list)) == entries_add(
            asset_list_entries(*old(list)),
            asset.entry(),
        )->0,
        r is Err ==> asset_list_entries(*final(list)) == asset_list_entries(*old(list)),
{
    let cw_info = match &asset.info {
        AssetInfo::Native(d) => cw_asset::AssetInfo::Native(d.clone()),
        AssetInfo::Cw20(a) => cw_asset::AssetInfo::Cw20(cosmwasm_std::Addr::unchecked(a.clone())),
    };
    list.inner.add(&cw_asset::Asset::new(cw_info, asset.amount)).map(|_| ())
}

/// Calls `cw_asset::AssetList::deduct`: the first entry of the asset shrinks by the amount and
/// zero entries are purged. It fails when the asset is absent or held in a smaller amount,
/// leaving the list unchanged.
#[verifier::external_body]
pub(crate) fn list_deduct(list: &mut AssetList, asset: &Asset) -> (r: Result<
    (),
    cw_asset::AssetError,
>)
    ensures
        r is Ok <==> entries_deduct(asset_list_entries(*old(list)), asset.entry()) is Ok,
        r is Ok ==> asset_list_entries(*final(list)) == entries_deduct(
            asset_list_entries(*old(list)),
            asset.entry(),
        )->Ok_0,
        r is Err ==> asset_list_entries(*final(list)) == asset_list_entries(*old(list)),
{
    let cw_info = match &asset.info {
        AssetInfo::Native(d) => cw_asset::AssetInfo::Native(d.clone()),
        AssetInfo::Cw20(a) => cw_asset::AssetInfo::Cw20(cosmwasm_std::Addr::unchecked(a.clone())),
    };
    list.inner.deduct(&cw_asset::Asset::new(cw_info, asset.amount)).map(|_| ())
}

/// Calls `cw_asset::AssetList::add_many`, which adds the entries of `other` one by one, in
/// order. What the list holds after a failure is not stated.
#[verifier::external_body]
pub(crate) fn list_add_many(list: &mut AssetList, other: &AssetList) -> (r:
    Result<(), cw_asset::AssetError>)
    ensures
        r is Ok <==> entries_add_many(
            asset_list_entries(*old(list)),
            asset_list_entries(*other),
        ) is Some,
        r is Ok ==> asset_list_entries(*final(list)) == entries_add_many(
            asset_list_entries(*old(list)),
            asset_list_entries(*other),
        )->0,
{
    list.inner.add_many(&other.inner).map(|_| ())
}

/// Calls `cw_asset::AssetList::deduct_many`, which deducts the entries of `other` one by one,
/// in order. What the list holds after a failure is not stated.
#[verifier::external_body]
pub(crate) fn list_deduct_many(list: &mut AssetList, other: &AssetList) -> (r:
    Result<(), cw_asset::AssetError>)
    ensures
        r is Ok <==> entries_deduct_many(
            asset_list_entries(*old(list)),
            asset_list_entries(*other),
        ) is Ok,
        r is Ok ==> asset_list_entries(*final(list)) == entries_deduct_many(
            asset_list_entries(*old(list)),
            asset_list_entries(*other),
        )->Ok_0,
{
    list.inner.deduct_many(&other.inner).map(|_| ())
}

/// Calls `cw_asset::AssetList::purge`, which drops the entries whose amount is zero.
#[verifier::external_body]
pub(crate) fn list_purge(list: &mut AssetList)
    ensures
        asset_list_entries(*final(list)) == purged(asset_list_entries(*old(list))),
{
    list.inner.purge();
}

/// Calls `cw_asset::AssetList::apply` with a closure that multiplies each amount by `rate`,
/// rounding down.
#[verifier::external_body]
pub(crate) fn list_scale(list: &mut AssetList, rate: crate::math::Decimal)
    requires
        scale_fits(asset_list_entries(*old(list)), rate.atomics),
    ensures
        asset_list_entries(*final(list)) == entries_scaled(
            asset_list_entries(*old(list)),
            rate.atomics,
        ),
{
    list.inner.apply(
        |a| a.amount = cosmwasm_std::Uint128::new(crate::math::mul_decimal(a.amount.u128(), rate)),
    );
}

/// Calls `Display` of `cw_asset::AssetList`, which writes `[]` for an empty list and the assets
/// separated by commas otherwise.
#[verifier::external_body]
pub(crate) fn asset_list_text(list: &AssetList) -> (r: String)
    ensures
        r@ == crate::messages::list_display(asset_list_entries(*list)),
{
    list.inner.to_string()
}

/// Calls `Clone` of `cw_asset::AssetList`.
#[verifier::external_body]
pub(crate) fn list_clone(list: &AssetList) -> (r: AssetList)
    ensures
        asset_list_entries(r) == asset_list_entries(*list),
{
    AssetList { inner: list.inner.clone() }
}

} // verus!
