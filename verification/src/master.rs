//! Master data: the game's static tables. Each row is a JSON object whose values are strings;
//! a row is held here as its (key, value) pairs, in the order the object lists them.

use vstd::prelude::*;

use crate::text::{chars_of, parse_i32, parse_i64, parse_u32_chars, push_str, spec_parse_i32, spec_parse_i64, spec_parse_u32, spec_parse_usize, u64_text, nat_digits};

verus! {

/// One row of a master table.
#[derive(Debug, Clone)]
pub struct MasterRow {
    pub fields: Vec<(String, String)>,
}

pub type FieldsView = Seq<(Seq<char>, Seq<char>)>;

impl View for MasterRow {
    type V = FieldsView;

    open spec fn view(&self) -> FieldsView {
        self.fields@.map_values(|p: (String, String)| (p.0@, p.1@))
    }
}

/// The value of the first field named `key`.
pub open spec fn lookup(fs: FieldsView, key: Seq<char>) -> Option<Seq<char>>
    decreases fs.len(),
{
    if fs.len() == 0 {
        None
    } else if fs[0].0 == key {
        Some(fs[0].1)
    } else {
        lookup(fs.drop_first(), key)
    }
}

/// The field `key` read as an `i32`, as `row[key].as_str().parse::<i32>().ok()` reads it.
pub open spec fn field_i32(fs: FieldsView, key: Seq<char>) -> Option<i32> {
    match lookup(fs, key) {
        Some(v) => spec_parse_i32(v),
        None => None,
    }
}

/// The field `key` read as an `i64`.
pub open spec fn field_i64(fs: FieldsView, key: Seq<char>) -> Option<i64> {
    match lookup(fs, key) {
        Some(v) => spec_parse_i64(v),
        None => None,
    }
}

/// The field `key` read as a `usize`.
pub open spec fn field_usize(fs: FieldsView, key: Seq<char>) -> Option<usize> {
    match lookup(fs, key) {
        Some(v) => spec_parse_usize(v),
        None => None,
    }
}

/// The field `key` read as a `u32`.
pub open spec fn field_u32(fs: FieldsView, key: Seq<char>) -> Option<u32> {
    match lookup(fs, key) {
        Some(v) => spec_parse_u32(v),
        None => None,
    }
}

proof fn lemma_lookup_skip(fs: FieldsView, key: Seq<char>, i: int)
    requires
        0 <= i < fs.len(),
        fs[i].0 != key,
    ensures
        lookup(fs.skip(i), key) == lookup(fs.skip(i + 1), key),
{
    assert(fs.skip(i).drop_first() =~= fs.skip(i + 1));
}

/// `a == b` on string slices.
#[verifier::external_body]
pub(crate) fn str_eq(a: &str, b: &str) -> (r: bool)
    ensures
        r == (a@ == b@),
{
    a == b
}

impl MasterRow {
    /// `row.get(key)`: the value of the field named `key`, if the row has one.
    pub fn get(&self, key: &str) -> (r: Option<&String>)
        ensures
            match r {
                Some(v) => lookup(self@, key@) == Some(v@),
                None => lookup(self@, key@) is None,
            },
    {
        let n = self.fields.len();
        let mut i: usize = 0;
        assert(self@.skip(0) =~= self@);
        while i < n
            invariant
                n == self.fields@.len(),
                n == self@.len(),
                i <= n,
                lookup(self@, key@) == lookup(self@.skip(i as int), key@),
            decreases n - i,
        {
            assert(self@[i as int] == (self.fields@[i as int].0@, self.fields@[i as int].1@));
            if str_eq(self.fields[i].0.as_str(), key) {
                assert(self@.skip(i as int)[0] == self@[i as int]);
                return Some(&self.fields[i].1);
            }
            proof {
                lemma_lookup_skip(self@, key@, i as int);
            }
            i = i + 1;
        }
        assert(self@.skip(n as int) =~= Seq::<(Seq<char>, Seq<char>)>::empty());
        None
    }

    /// The field `key` read as an `i32`.
    pub fn get_i32(&self, key: &str) -> (r: Option<i32>)
        ensures
            r == field_i32(self@, key@),
    {
        match self.get(key) {
            Some(v) => parse_i32(v.as_str()),
            None => None,
        }
    }

    /// The field `key` read as an `i64`.
    pub fn get_i64(&self, key: &str) -> (r: Option<i64>)
        ensures
            r == field_i64(self@, key@),
    {
        match self.get(key) {
            Some(v) => parse_i64(v.as_str()),
            None => None,
        }
    }

    /// The field `key` read as a `usize`.
    pub fn get_usize(&self, key: &str) -> (r: Option<usize>)
        ensures
            r == field_usize(self@, key@),
    {
        match self.get(key) {
            Some(v) => crate::text::parse_usize(v.as_str()),
            None => None,
        }
    }

    /// The field `key` read as a `u32`.
    pub fn get_u32(&self, key: &str) -> (r: Option<u32>)
        ensures
            r == field_u32(self@, key@),
    {
        match self.get(key) {
            Some(v) => crate::text::parse_u32(v.as_str()),
            None => None,
        }
    }

    /// Whether the field `key` holds exactly `value`.
    pub fn field_is(&self, key: &str, value: &str) -> (r: bool)
        ensures
            r == (lookup(self@, key@) == Some(value@)),
    {
        match self.get(key) {
            Some(v) => str_eq(v.as_str(), value),
            None => false,
        }
    }
}

/// The rows of a table.
pub open spec fn rows_view(rows: Seq<MasterRow>) -> Seq<FieldsView> {
    rows.map_values(|r: MasterRow| r@)
}

// ------------------------------------------------------------------------------------------
// Reward items: a row lists items in numbered fields `item_type{n}`, `item_id{n}`,
// `item_num{n}` and `item_rare{n}`.
// ------------------------------------------------------------------------------------------

pub open spec fn item_type_prefix() -> Seq<char> {
    seq!['i', 't', 'e', 'm', '_', 't', 'y', 'p', 'e']
}

pub open spec fn item_id_prefix() -> Seq<char> {
    seq!['i', 't', 'e', 'm', '_', 'i', 'd']
}

pub open spec fn item_num_prefix() -> Seq<char> {
    seq!['i', 't', 'e', 'm', '_', 'n', 'u', 'm']
}

pub open spec fn item_rare_prefix() -> Seq<char> {
    seq!['i', 't', 'e', 'm', '_', 'r', 'a', 'r', 'e']
}

/// The number `n` of a key `item_type{n}`, where its suffix reads as a `u32`.
pub open spec fn item_type_key_index(key: Seq<char>) -> Option<u32> {
    if key.len() >= 9 && key.take(9) == item_type_prefix() {
        spec_parse_u32(key.skip(9))
    } else {
        None
    }
}

/// The numbers of all `item_type{n}` keys of a row.
pub open spec fn item_indices(fs: FieldsView) -> Set<u32> {
    Set::new(|v: u32| exists|j: int| 0 <= j < fs.len() && item_type_key_index(#[trigger] fs[j].0) == Some(v))
}

pub open spec fn strictly_ascending(s: Seq<u32>) -> bool {
    forall|a: int, b: int| 0 <= a < b < s.len() ==> s[a] < s[b]
}

/// An item listed in a master row.
#[derive(Debug, Clone, Copy, PartialEq, Eq)]
pub struct RewardItem {
    pub item_type: i32,
    pub item_id: i64,
    pub item_num: i32,
    pub item_rare: bool,
}

/// Item `i` of a row. `num_default` is what a missing `item_num{i}` counts as
/// (`None`: the item is skipped). Empty slots (a zero type, id or count) are skipped.
pub open spec fn reward_at(fs: FieldsView, i: u32, num_default: Option<i32>) -> Option<RewardItem> {
    let d = nat_digits(i as nat);
    match (field_i32(fs, item_type_prefix() + d), field_i64(fs, item_id_prefix() + d)) {
        (Some(t), Some(id)) => {
            let num = match lookup(fs, item_num_prefix() + d) {
                Some(v) => spec_parse_i32(v),
                None => num_default,
            };
            match (num, field_i32(fs, item_rare_prefix() + d)) {
                (Some(n), Some(rare)) => if t == 0 || id == 0 || n == 0 {
                    None
                } else {
                    Some(RewardItem { item_type: t, item_id: id, item_num: n, item_rare: rare != 0 })
                },
                _ => None,
            }
        },
        _ => None,
    }
}

/// The items at the given numbers, in that order, skipping numbers with no item.
pub open spec fn rewards_at(fs: FieldsView, idx: Seq<u32>, num_default: Option<i32>) -> Seq<RewardItem>
    decreases idx.len(),
{
    if idx.len() == 0 {
        Seq::empty()
    } else {
        let rest = rewards_at(fs, idx.drop_last(), num_default);
        match reward_at(fs, idx.last(), num_default) {
            Some(item) => rest.push(item),
            None => rest,
        }
    }
}

/// The items a row lists, in ascending order of their numbers.
pub open spec fn row_rewards(fs: FieldsView, num_default: Option<i32>, r: Seq<RewardItem>) -> bool {
    exists|idx: Seq<u32>|
        strictly_ascending(idx) && idx.to_set() == item_indices(fs) && r == #[trigger] rewards_at(fs, idx, num_default)
}

proof fn lemma_drop_last_set(a: Seq<u32>)
    requires
        strictly_ascending(a),
        a.len() > 0,
    ensures
        a.drop_last().to_set() == a.to_set().remove(a.last()),
{
    assert forall|y: u32| #[trigger] a.drop_last().to_set().contains(y) == a.to_set().remove(a.last()).contains(y) by {
        if a.drop_last().to_set().contains(y) {
            let k = choose|k: int| 0 <= k < a.drop_last().len() && a.drop_last()[k] == y;
            assert(a[k] == y);
            assert(a[k] < a[a.len() - 1]);
            assert(a.to_set().contains(y));
        }
        if a.to_set().remove(a.last()).contains(y) {
            let k = choose|k: int| 0 <= k < a.len() && a[k] == y;
            assert(k != a.len() - 1);
            assert(a.drop_last()[k] == y);
            assert(a.drop_last().to_set().contains(y));
        }
    }
    assert(a.drop_last().to_set() =~= a.to_set().remove(a.last()));
}

/// Two strictly ascending sequences with the same elements are the same sequence.
proof fn lemma_ascending_unique(a: Seq<u32>, b: Seq<u32>)
    requires
        strictly_ascending(a),
        strictly_ascending(b),
        a.to_set() == b.to_set(),
    ensures
        a == b,
    decreases a.len(),
{
    if a.len() == 0 {
        if b.len() > 0 {
            assert(b.to_set().contains(b[0]));
        }
        assert(a =~= b);
    } else {
        if b.len() == 0 {
            assert(a.to_set().contains(a[0]));
        }
        assert(a.to_set().contains(a.last()));
        assert(b.to_set().contains(b.last()));
        let i = choose|i: int| 0 <= i < a.len() && a[i] == b.last();
        let j = choose|j: int| 0 <= j < b.len() && b[j] == a.last();
        if i < a.len() - 1 {
            assert(a[i] < a[a.len() - 1]);
        }
        if j < b.len() - 1 {
            assert(b[j] < b[b.len() - 1]);
        }
        assert(a.last() == b.last());
        lemma_drop_last_set(a);
        lemma_drop_last_set(b);
        lemma_ascending_unique(a.drop_last(), b.drop_last());
        assert(a =~= a.drop_last().push(a.last()));
        assert(b =~= b.drop_last().push(b.last()));
    }
}

/// The items a row lists hold one value only.
pub proof fn lemma_row_rewards_unique(fs: FieldsView, num_default: Option<i32>, r1: Seq<RewardItem>, r2: Seq<RewardItem>)
    requires
        row_rewards(fs, num_default, r1),
        row_rewards(fs, num_default, r2),
    ensures
        r1 == r2,
{
    let a = choose|idx: Seq<u32>|
        strictly_ascending(idx) && idx.to_set() == item_indices(fs) && r1 == #[trigger] rewards_at(fs, idx, num_default);
    let b = choose|idx: Seq<u32>|
        strictly_ascending(idx) && idx.to_set() == item_indices(fs) && r2 == #[trigger] rewards_at(fs, idx, num_default);
    lemma_ascending_unique(a, b);
}

/// The items a row lists, in ascending order of their numbers.
pub open spec fn row_items(fs: FieldsView, num_default: Option<i32>) -> Seq<RewardItem> {
    choose|r: Seq<RewardItem>| row_rewards(fs, num_default, r)
}

/// An item is not empty: its type, id and count are all set.
pub open spec fn item_present(it: RewardItem) -> bool {
    it.item_type != 0 && it.item_id != 0 && it.item_num != 0
}

proof fn lemma_rewards_at_present(fs: FieldsView, idx: Seq<u32>, num_default: Option<i32>)
    ensures
        forall|k: int| 0 <= k < rewards_at(fs, idx, num_default).len() ==> item_present(#[trigger] rewards_at(fs, idx, num_default)[k]),
    decreases idx.len(),
{
    if idx.len() > 0 {
        lemma_rewards_at_present(fs, idx.drop_last(), num_default);
        let rest = rewards_at(fs, idx.drop_last(), num_default);
        match reward_at(fs, idx.last(), num_default) {
            Some(it) => {
                assert(item_present(it));
                assert(rewards_at(fs, idx, num_default) == rest.push(it));
                assert forall|k: int| 0 <= k < rest.push(it).len() implies item_present(#[trigger] rest.push(it)[k]) by {
                    if k < rest.len() {
                        assert(rest.push(it)[k] == rest[k]);
                    }
                }
            },
            None => {},
        }
    }
}

/// Empty item slots never come out: every item a row lists has a type, an id and a count.
pub proof fn law_reward_items_present(fs: FieldsView, num_default: Option<i32>, items: Seq<RewardItem>)
    requires
        row_rewards(fs, num_default, items),
    ensures
        forall|k: int| 0 <= k < items.len() ==> item_present(#[trigger] items[k]),
{
    let idx = choose|idx: Seq<u32>|
        strictly_ascending(idx) && idx.to_set() == item_indices(fs) && items == #[trigger] rewards_at(fs, idx, num_default);
    lemma_rewards_at_present(fs, idx, num_default);
}

/// Where `item_num{i}` is present for an item whose type and id read, it reads as an `i32`.
pub open spec fn reward_counts_readable(fs: FieldsView) -> bool {
    forall|i: u32| #![trigger item_indices(fs).contains(i)]
        item_indices(fs).contains(i)
        && field_i32(fs, item_type_prefix() + nat_digits(i as nat)) is Some
        && field_i64(fs, item_id_prefix() + nat_digits(i as nat)) is Some
        && lookup(fs, item_num_prefix() + nat_digits(i as nat)) is Some
        ==> field_i32(fs, item_num_prefix() + nat_digits(i as nat)) is Some
}

/// Inserts `x` into a strictly ascending vector, keeping it so.
fn insert_sorted(v: &mut Vec<u32>, x: u32)
    requires
        strictly_ascending(old(v)@),
    ensures
        strictly_ascending(final(v)@),
        final(v)@.to_set() == old(v)@.to_set().insert(x),
{
    let n = v.len();
    let mut i: usize = 0;
    while i < n && v[i] < x
        invariant
            i <= n,
            n == v@.len(),
            v@ == old(v)@,
            forall|j: int| 0 <= j < i ==> v@[j] < x,
        decreases n - i,
    {
        i = i + 1;
    }
    if i < n && v[i] == x {
        assert(v@.to_set().insert(x) =~= v@.to_set()) by {
            assert(v@.to_set().contains(v@[i as int]));
        }
        return;
    }
    let ghost before = v@;
    v.insert(i, x);
    assert(v@ =~= before.take(i as int).push(x) + before.skip(i as int));
    assert forall|a: int, b: int| 0 <= a < b < v@.len() implies v@[a] < v@[b] by {
        if b < i {
        } else if b == i {
        } else if a < i {
            assert(v@[b] == before[b - 1]);
            if i < n {
                assert(before[i as int] > x);
                if b - 1 > i {
                    assert(before[i as int] < before[b - 1]);
                }
            }
        } else if a == i {
            assert(v@[b] == before[b - 1]);
            assert(before[i as int] > x);
            if b - 1 > i {
                assert(before[i as int] < before[b - 1]);
            }
        } else {
            assert(v@[a] == before[a - 1]);
            assert(v@[b] == before[b - 1]);
        }
    }
    assert forall|y: u32| #[trigger] v@.to_set().contains(y) == before.to_set().insert(x).contains(y) by {
        if v@.to_set().contains(y) {
            let k = choose|k: int| 0 <= k < v@.len() && v@[k] == y;
            if k < i {
                assert(before[k] == y);
            } else if k > i {
                assert(before[k - 1] == y);
            }
        }
        if before.to_set().contains(y) {
            let k = choose|k: int| 0 <= k < before.len() && before[k] == y;
            if k < i {
                assert(v@[k] == y);
            } else {
                assert(v@[k + 1] == y);
            }
        }
        if y == x {
            assert(v@[i as int] == x);
        }
    }
    assert(v@.to_set() =~= before.to_set().insert(x));
}

/// The numbers of the `item_type{n}` keys of a row, ascending, each once.
pub fn item_type_indices(row: &MasterRow) -> (r: Vec<u32>)
    ensures
        strictly_ascending(r@),
        r@.to_set() == item_indices(row@),
{
    let mut out: Vec<u32> = Vec::new();
    let n = row.fields.len();
    let mut j: usize = 0;
    while j < n
        invariant
            n == row.fields@.len(),
            n == row@.len(),
            j <= n,
            strictly_ascending(out@),
            out@.to_set() == Set::new(|v: u32| exists|k: int| 0 <= k < j && item_type_key_index(#[trigger] row@[k].0) == Some(v)),
        decreases n - j,
    {
        let key = chars_of(row.fields[j].0.as_str());
        assert(row@[j as int].0 == key@);
        let mut found: Option<u32> = None;
        if key.len() >= 9 && key[0] == 'i' && key[1] == 't' && key[2] == 'e' && key[3] == 'm' && key[4] == '_'
            && key[5] == 't' && key[6] == 'y' && key[7] == 'p' && key[8] == 'e' {
            assert(key@.take(9) =~= item_type_prefix());
            found = parse_u32_chars(&key, 9);
        } else {
            assert(key@.len() >= 9 ==> key@.take(9) != item_type_prefix()) by {
                if key@.len() >= 9 && key@.take(9) == item_type_prefix() {
                    assert(key@.take(9)[0] == key@[0]);
                    assert(key@.take(9)[1] == key@[1]);
                    assert(key@.take(9)[2] == key@[2]);
                    assert(key@.take(9)[3] == key@[3]);
                    assert(key@.take(9)[4] == key@[4]);
                    assert(key@.take(9)[5] == key@[5]);
                    assert(key@.take(9)[6] == key@[6]);
                    assert(key@.take(9)[7] == key@[7]);
                    assert(key@.take(9)[8] == key@[8]);
                }
            }
        }
        assert(found == item_type_key_index(row@[j as int].0));
        let ghost prev = out@.to_set();
        match found {
            Some(x) => insert_sorted(&mut out, x),
            None => {},
        }
        assert(out@.to_set() =~= Set::new(|v: u32| exists|k: int| 0 <= k < j + 1 && item_type_key_index(#[trigger] row@[k].0) == Some(v))) by {
            assert forall|v: u32| out@.to_set().contains(v) implies (exists|k: int| 0 <= k < j + 1 && item_type_key_index(#[trigger] row@[k].0) == Some(v)) by {
                if prev.contains(v) {
                    let k = choose|k: int| 0 <= k < j && item_type_key_index(#[trigger] row@[k].0) == Some(v);
                    assert(0 <= k < j + 1);
                } else {
                    assert(item_type_key_index(row@[j as int].0) == Some(v));
                }
            }
            assert forall|v: u32| (exists|k: int| 0 <= k < j + 1 && item_type_key_index(#[trigger] row@[k].0) == Some(v)) implies out@.to_set().contains(v) by {
                let k = choose|k: int| 0 <= k < j + 1 && item_type_key_index(#[trigger] row@[k].0) == Some(v);
                if k < j {
                    assert(prev.contains(v));
                }
            }
        }
        j = j + 1;
    }
    assert(out@.to_set() =~= item_indices(row@));
    out
}

/// `prefix` followed by the decimal text of `i`: the key of a numbered field.
fn numbered_key(prefix: &str, i: u32) -> (r: String)
    ensures
        r@ == prefix@ + nat_digits(i as nat),
{
    let mut k = String::from_str(prefix);
    let d = u64_text(i as u64);
    push_str(&mut k, d.as_str());
    k
}

/// Item `i` of a row, as `reward_at` says.
fn reward_item_at(row: &MasterRow, i: u32, num_default: Option<i32>) -> (r: Option<RewardItem>)
    ensures
        r == reward_at(row@, i, num_default),
{
    let tk = numbered_key("item_type", i);
    let ik = numbered_key("item_id", i);
    let nk = numbered_key("item_num", i);
    let rk = numbered_key("item_rare", i);
    proof {
        reveal_strlit("item_type");
        reveal_strlit("item_id");
        reveal_strlit("item_num");
        reveal_strlit("item_rare");
        assert(tk@ == item_type_prefix() + nat_digits(i as nat));
        assert(ik@ == item_id_prefix() + nat_digits(i as nat));
        assert(nk@ == item_num_prefix() + nat_digits(i as nat));
        assert(rk@ == item_rare_prefix() + nat_digits(i as nat));
    }
    let t = match row.get_i32(tk.as_str()) {
        Some(t) => t,
        None => return None,
    };
    let id = match row.get_i64(ik.as_str()) {
        Some(id) => id,
        None => return None,
    };
    let num = match row.get(nk.as_str()) {
        Some(v) => parse_i32(v.as_str()),
        None => num_default,
    };
    let n = match num {
        Some(n) => n,
        None => return None,
    };
    let rare = match row.get_i32(rk.as_str()) {
        Some(rare) => rare,
        None => return None,
    };
    if t == 0 || id == 0 || n == 0 {
        None
    } else {
        Some(RewardItem { item_type: t, item_id: id, item_num: n, item_rare: rare != 0 })
    }
}

/// The items of a row at the given numbers, in order.
fn rewards_at_indices(row: &MasterRow, idx: &Vec<u32>, num_default: Option<i32>) -> (r: Vec<RewardItem>)
    ensures
        r@ == rewards_at(row@, idx@, num_default),
{
    let mut out: Vec<RewardItem> = Vec::new();
    let n = idx.len();
    let mut i: usize = 0;
    while i < n
        invariant
            n == idx@.len(),
            i <= n,
            out@ == rewards_at(row@, idx@.take(i as int), num_default),
        decreases n - i,
    {
        let item = reward_item_at(row, idx[i], num_default);
        assert(idx@.take(i + 1).drop_last() =~= idx@.take(i as int));
        assert(idx@.take(i + 1).last() == idx@[i as int]);
        match item {
            Some(it) => out.push(it),
            None => {},
        }
        i = i + 1;
    }
    assert(idx@.take(n as int) =~= idx@);
    out
}

/// The items a row lists, in ascending order of their numbers. A missing `item_num{n}`
/// counts as `num_default`, or drops the item where `num_default` is `None`.
pub fn row_reward_items(row: &MasterRow, num_default: Option<i32>) -> (r: Vec<RewardItem>)
    ensures
        row_rewards(row@, num_default, r@),
        r@ == row_items(row@, num_default),
{
    let idx = item_type_indices(row);
    let r = rewards_at_indices(row, &idx, num_default);
    assert(strictly_ascending(idx@) && idx@.to_set() == item_indices(row@) && r@ == rewards_at(row@, idx@, num_default));
    proof {
        lemma_row_rewards_unique(row@, num_default, r@, row_items(row@, num_default));
    }
    r
}


// ------------------------------------------------------------------------------------------
// Selecting rows: a handler keeps the rows whose fields pass a list of tests, checked in
// order as `&&` checks them. A test reads its field with `unwrap`: the field must be there,
// and an integer test must find an integer.
// ------------------------------------------------------------------------------------------

/// What a field is compared with.
#[derive(Debug, Clone)]
pub enum Expect {
    /// The field's text equals this.
    Text(String),
    /// The field, read as an `i32`, equals this.
    Int(i32),
}

#[derive(Debug, Clone)]
pub struct FieldTest {
    pub key: String,
    pub expect: Expect,
}

pub open spec fn test_evaluable(fs: FieldsView, t: FieldTest) -> bool {
    match t.expect {
        Expect::Text(_) => lookup(fs, t.key@) is Some,
        Expect::Int(_) => field_i32(fs, t.key@) is Some,
    }
}

pub open spec fn test_holds(fs: FieldsView, t: FieldTest) -> bool {
    match t.expect {
        Expect::Text(v) => lookup(fs, t.key@) == Some(v@),
        Expect::Int(v) => field_i32(fs, t.key@) == Some(v),
    }
}

pub open spec fn tests_pass(fs: FieldsView, tests: Seq<FieldTest>) -> bool
    decreases tests.len(),
{
    tests.len() == 0 || (test_holds(fs, tests[0]) && tests_pass(fs, tests.drop_first()))
}

/// Every test that `&&` reaches can read its field.
pub open spec fn tests_evaluable(fs: FieldsView, tests: Seq<FieldTest>) -> bool
    decreases tests.len(),
{
    tests.len() == 0 || (test_evaluable(fs, tests[0]) && (test_holds(fs, tests[0]) ==> tests_evaluable(fs, tests.drop_first())))
}

/// The positions of the rows that pass the tests, in order.
pub open spec fn selected(rows: Seq<FieldsView>, tests: Seq<FieldTest>) -> Seq<int>
    decreases rows.len(),
{
    if rows.len() == 0 {
        Seq::empty()
    } else {
        let r = selected(rows.drop_last(), tests);
        if tests_pass(rows.last(), tests) { r.push(rows.len() - 1) } else { r }
    }
}

pub open spec fn all_tests_evaluable(rows: Seq<MasterRow>, tests: Seq<FieldTest>) -> bool {
    forall|i: int| 0 <= i < rows.len() ==> tests_evaluable(#[trigger] rows[i]@, tests)
}

pub proof fn lemma_selected_bounds(rows: Seq<FieldsView>, tests: Seq<FieldTest>)
    ensures
        forall|j: int| 0 <= j < selected(rows, tests).len() ==> 0 <= #[trigger] selected(rows, tests)[j] < rows.len(),
        forall|j: int| 0 <= j < selected(rows, tests).len() ==> tests_pass(rows[#[trigger] selected(rows, tests)[j]], tests),
    decreases rows.len(),
{
    if rows.len() > 0 {
        lemma_selected_bounds(rows.drop_last(), tests);
        let r = selected(rows.drop_last(), tests);
        assert forall|j: int| 0 <= j < r.len() implies rows[r[j]] == rows.drop_last()[r[j]] by {}
    }
}

fn field_test_holds(row: &MasterRow, t: &FieldTest) -> (r: bool)
    requires
        test_evaluable(row@, *t),
    ensures
        r == test_holds(row@, *t),
{
    match &t.expect {
        Expect::Text(v) => row.field_is(t.key.as_str(), v.as_str()),
        Expect::Int(v) => {
            let x = row.get_i32(t.key.as_str());
            match x {
                Some(x) => x == *v,
                None => false,
            }
        },
    }
}

/// Whether a row passes the tests, checking them in order.
pub fn row_passes(row: &MasterRow, tests: &Vec<FieldTest>) -> (r: bool)
    requires
        tests_evaluable(row@, tests@),
    ensures
        r == tests_pass(row@, tests@),
{
    let n = tests.len();
    let mut i: usize = 0;
    assert(tests@.skip(0) =~= tests@);
    while i < n
        invariant
            n == tests@.len(),
            i <= n,
            tests_pass(row@, tests@) == tests_pass(row@, tests@.skip(i as int)),
            tests_evaluable(row@, tests@.skip(i as int)),
        decreases n - i,
    {
        assert(tests@.skip(i as int)[0] == tests@[i as int]);
        assert(tests@.skip(i as int).drop_first() =~= tests@.skip(i + 1));
        if !field_test_holds(row, &tests[i]) {
            return false;
        }
        i = i + 1;
    }
    assert(tests@.skip(n as int).len() == 0);
    true
}

/// The positions of the rows that pass the tests, in order.
pub fn select_rows(rows: &Vec<MasterRow>, tests: &Vec<FieldTest>) -> (r: Vec<usize>)
    requires
        all_tests_evaluable(rows@, tests@),
    ensures
        r@.len() == selected(rows_view(rows@), tests@).len(),
        forall|j: int| 0 <= j < r@.len() ==> r@[j] as int == #[trigger] selected(rows_view(rows@), tests@)[j],
{
    let mut out: Vec<usize> = Vec::new();
    let n = rows.len();
    let mut i: usize = 0;
    while i < n
        invariant
            n == rows@.len(),
            i <= n,
            all_tests_evaluable(rows@, tests@),
            out@.len() == selected(rows_view(rows@).take(i as int), tests@).len(),
            forall|j: int| 0 <= j < out@.len() ==> out@[j] as int == #[trigger] selected(rows_view(rows@).take(i as int), tests@)[j],
        decreases n - i,
    {
        let ghost rv = rows_view(rows@);
        assert(rv.take(i + 1).drop_last() =~= rv.take(i as int));
        assert(rv.take(i + 1).last() == rows@[i as int]@);
        if row_passes(&rows[i], tests) {
            out.push(i);
        }
        i = i + 1;
    }
    assert(rows_view(rows@).take(n as int) =~= rows_view(rows@));
    out
}

/// A test on a text field.
pub fn text_test(key: &str, value: &str) -> (r: FieldTest)
    ensures
        r.key@ == key@,
        r.expect matches Expect::Text(v) && v@ == value@,
{
    FieldTest { key: String::from_str(key), expect: Expect::Text(String::from_str(value)) }
}

/// A test on an integer field.
pub fn int_test(key: &str, value: i32) -> (r: FieldTest)
    ensures
        r.key@ == key@,
        r.expect == Expect::Int(value),
{
    FieldTest { key: String::from_str(key), expect: Expect::Int(value) }
}

/// The `i32` field `key` of each given row, in order.
pub fn rows_i32(rows: &Vec<MasterRow>, at: &Vec<usize>, key: &str) -> (r: Vec<i32>)
    requires
        forall|j: int| 0 <= j < at@.len() ==> (#[trigger] at@[j]) < rows@.len() && field_i32(rows@[at@[j] as int]@, key@) is Some,
    ensures
        r@.len() == at@.len(),
        forall|j: int| 0 <= j < at@.len() ==> Some(#[trigger] r@[j]) == field_i32(rows@[at@[j] as int]@, key@),
{
    let mut out: Vec<i32> = Vec::new();
    let n = at.len();
    let mut j: usize = 0;
    while j < n
        invariant
            n == at@.len(),
            j <= n,
            forall|k: int| 0 <= k < at@.len() ==> (#[trigger] at@[k]) < rows@.len() && field_i32(rows@[at@[k] as int]@, key@) is Some,
            out@.len() == j,
            forall|k: int| 0 <= k < j ==> Some(#[trigger] out@[k]) == field_i32(rows@[at@[k] as int]@, key@),
        decreases n - j,
    {
        let v = rows[at[j]].get_i32(key);
        match v {
            Some(v) => out.push(v),
            None => {},
        }
        j = j + 1;
    }
    out
}

/// Every row of the table: the positions 0, 1, ..., n - 1.
pub fn all_rows(rows: &Vec<MasterRow>) -> (r: Vec<usize>)
    ensures
        r@.len() == rows@.len(),
        forall|j: int| 0 <= j < r@.len() ==> r@[j] == j,
{
    let mut out: Vec<usize> = Vec::new();
    let n = rows.len();
    let mut j: usize = 0;
    while j < n
        invariant
            n == rows@.len(),
            j <= n,
            out@.len() == j,
            forall|k: int| 0 <= k < j ==> out@[k] == k,
        decreases n - j,
    {
        out.push(j);
        j = j + 1;
    }
    out
}

// ------------------------------------------------------------------------------------------
// Columns
// ------------------------------------------------------------------------------------------

/// Every row's field `key` read as an `i64`, where every row has one that reads.
pub open spec fn column_i64_spec(rows: Seq<FieldsView>, key: Seq<char>) -> Option<Seq<i64>> {
    if forall|i: int| 0 <= i < rows.len() ==> (#[trigger] field_i64(rows[i], key)) is Some {
        Some(Seq::new(rows.len(), |i: int| field_i64(rows[i], key).unwrap()))
    } else {
        None
    }
}

/// The column `key` of a table, read as `i64`s: `None` where a row lacks it or it does not read.
pub fn column_i64(rows: &Vec<MasterRow>, key: &str) -> (r: Option<Vec<i64>>)
    ensures
        r matches Some(v) ==> column_i64_spec(rows_view(rows@), key@) == Some(v@),
        r is None ==> column_i64_spec(rows_view(rows@), key@) is None,
{
    let mut out: Vec<i64> = Vec::new();
    let mut i: usize = 0;
    while i < rows.len()
        invariant
            i <= rows@.len(),
            out@.len() == i,
            forall|k: int| 0 <= k < i ==> field_i64(rows@[k]@, key@) == Some(#[trigger] out@[k]),
        decreases rows@.len() - i,
    {
        match rows[i].get_i64(key) {
            Some(v) => out.push(v),
            None => {
                assert(rows_view(rows@)[i as int] == rows@[i as int]@);
                return None;
            },
        }
        i = i + 1;
    }
    assert forall|k: int| 0 <= k < rows_view(rows@).len() implies (#[trigger] field_i64(rows_view(rows@)[k], key@)) is Some by {
        assert(rows_view(rows@)[k] == rows@[k]@);
        assert(field_i64(rows@[k]@, key@) == Some(out@[k]));
    }
    assert(out@ =~= Seq::new(rows@.len(), |i: int| field_i64(rows_view(rows@)[i], key@).unwrap())) by {
        assert forall|k: int| 0 <= k < rows@.len() implies out@[k] == field_i64(rows_view(rows@)[k], key@).unwrap() by {
            assert(rows_view(rows@)[k] == rows@[k]@);
            assert(field_i64(rows@[k]@, key@) == Some(out@[k]));
        }
    }
    Some(out)
}

/// A copy of a row.
pub fn copy_row(row: &MasterRow) -> (r: MasterRow)
    ensures
        r@ == row@,
{
    let mut fields: Vec<(String, String)> = Vec::new();
    let mut i: usize = 0;
    while i < row.fields.len()
        invariant
            i <= row.fields@.len(),
            fields@.len() == i,
            forall|k: int| 0 <= k < i ==> (#[trigger] fields@[k]).0@ == row@[k].0 && fields@[k].1@ == row@[k].1,
        decreases row.fields@.len() - i,
    {
        fields.push((row.fields[i].0.clone(), row.fields[i].1.clone()));
        i = i + 1;
    }
    let r = MasterRow { fields };
    assert(r@ =~= row@);
    r
}

/// The field `key` of every row, read as an `i32`.
pub open spec fn column_i32(rows: Seq<FieldsView>, key: Seq<char>) -> Seq<i32> {
    Seq::new(rows.len(), |i: int| field_i32(rows[i], key).unwrap())
}

/// The column `key` of a table, read as `i32`s; every row must have one that reads.
pub fn read_column_i32(rows: &Vec<MasterRow>, key: &str) -> (r: Vec<i32>)
    requires
        forall|i: int| 0 <= i < rows@.len() ==> (#[trigger] field_i32(rows_view(rows@)[i], key@)) is Some,
    ensures
        r@ == column_i32(rows_view(rows@), key@),
{
    let ghost rv = rows_view(rows@);
    let mut out: Vec<i32> = Vec::new();
    let mut i: usize = 0;
    while i < rows.len()
        invariant
            i <= rows@.len(),
            rv == rows_view(rows@),
            forall|j: int| 0 <= j < rows@.len() ==> (#[trigger] field_i32(rv[j], key@)) is Some,
            out@ == column_i32(rv.take(i as int), key@),
        decreases rows@.len() - i,
    {
        assert(rv[i as int] == rows@[i as int]@);
        assert(field_i32(rv[i as int], key@) is Some);
        let v = match rows[i].get_i32(key) {
            Some(v) => v,
            None => 0,
        };
        out.push(v);
        assert(out@ =~= column_i32(rv.take(i + 1), key@));
        i = i + 1;
    }
    assert(rv.take(rows@.len() as int) =~= rv);
    out
}

/// The field `out` of the rows whose field `key` reads as `value`, in order.
pub open spec fn values_where(rows: Seq<FieldsView>, key: Seq<char>, value: i32, out: Seq<char>) -> Seq<i32>
    decreases rows.len(),
{
    if rows.len() == 0 {
        Seq::empty()
    } else {
        let rest = values_where(rows.drop_last(), key, value, out);
        if field_i32(rows.last(), key) == Some(value) {
            rest.push(field_i32(rows.last(), out).unwrap())
        } else {
            rest
        }
    }
}

/// Every row's field `key` reads, and the rows where it reads as `value` have a field `out`
/// that reads.
pub open spec fn values_readable(rows: Seq<FieldsView>, key: Seq<char>, value: i32, out: Seq<char>) -> bool {
    forall|i: int| 0 <= i < rows.len() ==> (#[trigger] field_i32(rows[i], key)) is Some
        && (field_i32(rows[i], key) == Some(value) ==> field_i32(rows[i], out) is Some)
}

/// The field `out` of the rows whose field `key` reads as `value`, in order.
pub fn read_values_where(rows: &Vec<MasterRow>, key: &str, value: i32, out: &str) -> (r: Vec<i32>)
    requires
        values_readable(rows_view(rows@), key@, value, out@),
    ensures
        r@ == values_where(rows_view(rows@), key@, value, out@),
{
    let ghost rv = rows_view(rows@);
    let mut vals: Vec<i32> = Vec::new();
    let mut i: usize = 0;
    while i < rows.len()
        invariant
            i <= rows@.len(),
            rv == rows_view(rows@),
            values_readable(rv, key@, value, out@),
            vals@ == values_where(rv.take(i as int), key@, value, out@),
        decreases rows@.len() - i,
    {
        assert(rv[i as int] == rows@[i as int]@);
        assert(rv.take(i + 1).drop_last() =~= rv.take(i as int));
        assert(rv.take(i + 1).last() == rv[i as int]);
        assert(field_i32(rv[i as int], key@) is Some);
        if rows[i].get_i32(key) == Some(value) {
            let v = match rows[i].get_i32(out) {
                Some(v) => v,
                None => 0,
            };
            vals.push(v);
        }
        i = i + 1;
    }
    assert(rv.take(rows@.len() as int) =~= rv);
    vals
}

/// The field `out` of the rows whose field `key` holds the text, in order.
pub open spec fn values_where_text(rows: Seq<FieldsView>, key: Seq<char>, text: Seq<char>, out: Seq<char>) -> Seq<i32>
    decreases rows.len(),
{
    if rows.len() == 0 {
        Seq::empty()
    } else {
        let rest = values_where_text(rows.drop_last(), key, text, out);
        if lookup(rows.last(), key) == Some(text) {
            rest.push(field_i32(rows.last(), out).unwrap())
        } else {
            rest
        }
    }
}

/// Every row has a field `key`, and the rows where it holds the text have a field `out` that
/// reads.
pub open spec fn text_values_readable(rows: Seq<FieldsView>, key: Seq<char>, text: Seq<char>, out: Seq<char>) -> bool {
    forall|i: int| 0 <= i < rows.len() ==> (#[trigger] lookup(rows[i], key)) is Some
        && (lookup(rows[i], key) == Some(text) ==> field_i32(rows[i], out) is Some)
}

/// The field `out` of the rows whose field `key` holds the text, in order.
pub fn read_values_where_text(rows: &Vec<MasterRow>, key: &str, text: &str, out: &str) -> (r: Vec<i32>)
    requires
        text_values_readable(rows_view(rows@), key@, text@, out@),
    ensures
        r@ == values_where_text(rows_view(rows@), key@, text@, out@),
{
    let ghost rv = rows_view(rows@);
    let mut vals: Vec<i32> = Vec::new();
    let mut i: usize = 0;
    while i < rows.len()
        invariant
            i <= rows@.len(),
            rv == rows_view(rows@),
            text_values_readable(rv, key@, text@, out@),
            vals@ == values_where_text(rv.take(i as int), key@, text@, out@),
        decreases rows@.len() - i,
    {
        assert(rv[i as int] == rows@[i as int]@);
        assert(rv.take(i + 1).drop_last() =~= rv.take(i as int));
        assert(rv.take(i + 1).last() == rv[i as int]);
        if rows[i].field_is(key, text) {
            let v = match rows[i].get_i32(out) {
                Some(v) => v,
                None => 0,
            };
            vals.push(v);
        }
        i = i + 1;
    }
    assert(rv.take(rows@.len() as int) =~= rv);
    vals
}

} // verus!
