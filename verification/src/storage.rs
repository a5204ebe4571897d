//! Tables in which the services keep their state.
//!
//! A [`MapIndex`] holds one value for each of its keys and walks them in the
//! order of the keys. A [`ListIndex`] holds values at positions that count from
//! zero. An [`Entry`] holds one value or none.

use vstd::prelude::*;

use crate::crypto::{key_lt, key_order_is_total, PublicKey};

verus! {

/// Tells whether rows stand in the order of their keys, no key twice.
pub open spec fn ascending<W>(rows: Seq<(PublicKey, W)>) -> bool {
    forall|i: int, j: int|
        0 <= i < j < rows.len() ==> key_lt((#[trigger] rows[i]).0, (#[trigger] rows[j]).0)
}

/// Tells whether the row at position `i` has the given key.
pub open spec fn row_has<W>(rows: Seq<(PublicKey, W)>, key: PublicKey, i: int) -> bool {
    0 <= i < rows.len() && rows[i].0 == key
}

/// Map that a sequence of rows stands for.
pub open spec fn table<W>(rows: Seq<(PublicKey, W)>) -> Map<PublicKey, W> {
    Map::new(
        |key: PublicKey| exists|i: int| row_has(rows, key, i),
        |key: PublicKey| rows[choose|i: int| row_has(rows, key, i)].1,
    )
}

/// Rows with their values taken by their views.
pub open spec fn row_views<V: View>(rows: Seq<(PublicKey, V)>) -> Seq<(PublicKey, V::V)> {
    rows.map_values(|row: (PublicKey, V)| (row.0, row.1@))
}

/// In ascending rows a key stands at one position at most, and the map of the
/// rows has there what the row has.
pub proof fn ascending_rows_are_a_map<W>(rows: Seq<(PublicKey, W)>, i: int)
    requires
        ascending(rows),
        0 <= i < rows.len(),
    ensures
        table(rows).contains_key(rows[i].0),
        table(rows)[rows[i].0] == rows[i].1,
{
    let key = rows[i].0;
    assert(row_has(rows, key, i));
    let j = choose|j: int| row_has(rows, key, j);
    if i < j {
        key_order_is_total(rows[i].0, rows[j].0, key);
    }
    if j < i {
        key_order_is_total(rows[j].0, rows[i].0, key);
    }
}

/// Tells whether values are those of a table, in the order of their keys.
pub open spec fn in_key_order<W>(table: Map<PublicKey, W>, values: Seq<W>) -> bool {
    exists|rows: Seq<(PublicKey, W)>| #[trigger]
        ascending(rows) && self::table(rows) == table && values == rows.map_values(
            |row: (PublicKey, W)| row.1,
        )
}

/// There is one way only to walk a table in the order of its keys.
pub proof fn key_order_is_unique<W>(a: Seq<(PublicKey, W)>, b: Seq<(PublicKey, W)>)
    requires
        ascending(a),
        ascending(b),
        table(a) == table(b),
    ensures
        a == b,
    decreases a.len(),
{
    if a.len() == 0 {
        if b.len() > 0 {
            ascending_rows_are_a_map(b, 0);
        }
    } else {
        ascending_rows_are_a_map(a, 0);
        let i = choose|i: int| row_has(b, a[0].0, i);
        assert(table(b).contains_key(a[0].0));
        assert(row_has(b, a[0].0, i));
        ascending_rows_are_a_map(b, i);
        ascending_rows_are_a_map(b, 0);
        let j = choose|j: int| row_has(a, b[0].0, j);
        assert(table(a).contains_key(b[0].0));
        assert(row_has(a, b[0].0, j));
        if i > 0 {
            assert(key_lt(b[0].0, b[i].0));
            key_order_is_total(b[0].0, a[0].0, a[0].0);
            if j > 0 {
                assert(key_lt(a[0].0, a[j].0));
            }
        }
        assert(a[0] == b[0]);
        rest_of_table(a);
        rest_of_table(b);
        assert forall|x: int, y: int| 0 <= x < y < a.drop_first().len() implies key_lt(
            (#[trigger] a.drop_first()[x]).0,
            (#[trigger] a.drop_first()[y]).0,
        ) by {
            assert(key_lt(a[x + 1].0, a[y + 1].0));
        }
        assert forall|x: int, y: int| 0 <= x < y < b.drop_first().len() implies key_lt(
            (#[trigger] b.drop_first()[x]).0,
            (#[trigger] b.drop_first()[y]).0,
        ) by {
            assert(key_lt(b[x + 1].0, b[y + 1].0));
        }
        key_order_is_unique(a.drop_first(), b.drop_first());
        assert(a =~= seq![a[0]] + a.drop_first());
        assert(b =~= seq![b[0]] + b.drop_first());
    }
}

/// Rows but the first stand for the table without the key of the first.
proof fn rest_of_table<W>(rows: Seq<(PublicKey, W)>)
    requires
        ascending(rows),
        rows.len() > 0,
    ensures
        table(rows.drop_first()) == table(rows).remove(rows[0].0),
{
    let rest = rows.drop_first();
    assert forall|x: int, y: int| 0 <= x < y < rest.len() implies key_lt(
        (#[trigger] rest[x]).0,
        (#[trigger] rest[y]).0,
    ) by {
        assert(key_lt(rows[x + 1].0, rows[y + 1].0));
    }
    assert forall|key: PublicKey| #[trigger] table(rest).contains_key(key) <==> table(rows).remove(
        rows[0].0,
    ).contains_key(key) by {
        if table(rest).contains_key(key) {
            let i = choose|i: int| row_has(rest, key, i);
            assert(row_has(rows, key, i + 1));
            assert(key_lt(rows[0].0, rows[i + 1].0));
            key_order_is_total(rows[0].0, key, key);
        }
        if table(rows).remove(rows[0].0).contains_key(key) {
            let i = choose|i: int| row_has(rows, key, i);
            assert(row_has(rest, key, i - 1));
        }
    }
    assert forall|key: PublicKey| table(rest).contains_key(key) implies #[trigger] table(rest)[key]
        == table(rows).remove(rows[0].0)[key] by {
        let i = choose|i: int| row_has(rest, key, i);
        ascending_rows_are_a_map(rest, i);
        ascending_rows_are_a_map(rows, i + 1);
        assert(table(rows).remove(rows[0].0).contains_key(key));
    }
    assert(table(rest) =~= table(rows).remove(rows[0].0));
}

/// A table of rows has finitely many keys.
pub proof fn table_is_finite<W>(rows: Seq<(PublicKey, W)>)
    ensures
        table(rows).dom().finite(),
    decreases rows.len(),
{
    if rows.len() == 0 {
        assert(table(rows).dom() =~= Set::empty());
    } else {
        let rest = rows.drop_last();
        table_is_finite(rest);
        assert forall|key: PublicKey| table(rows).dom().contains(key) implies table(
            rest,
        ).dom().insert(rows.last().0).contains(key) by {
            let i = choose|i: int| row_has(rows, key, i);
            if i < rest.len() {
                assert(row_has(rest, key, i));
            }
        }
        assert(table(rows).dom().subset_of(table(rest).dom().insert(rows.last().0)));
        vstd::set_lib::lemma_len_subset(
            table(rows).dom(),
            table(rest).dom().insert(rows.last().0),
        );
    }
}

/// Table with one value for each public key in it.
#[verifier::reject_recursive_types(V)]
pub struct MapIndex<V: View> {
    rows: Vec<(PublicKey, V)>,
}

impl<V: View> View for MapIndex<V> {
    type V = Map<PublicKey, V::V>;

    open spec fn view(&self) -> Map<PublicKey, V::V> {
        table(self.rows())
    }
}

impl<V: View> MapIndex<V> {
    /// Rows of the table, in the order of their keys.
    pub closed spec fn rows(&self) -> Seq<(PublicKey, V::V)> {
        row_views(self.rows@)
    }

    #[verifier::type_invariant]
    spec fn in_order(&self) -> bool {
        ascending(self.rows@)
    }

    /// Makes an empty table.
    pub fn new() -> (index: Self)
        ensures
            index@ == Map::<PublicKey, V::V>::empty(),
    {
        let index = MapIndex { rows: Vec::new() };
        assert(index@ =~= Map::<PublicKey, V::V>::empty());
        index
    }

    /// Rows of the table, in the order of their keys.
    pub fn iter(&self) -> (rows: &Vec<(PublicKey, V)>)
        ensures
            row_views(rows@) == self.rows(),
            ascending(rows@),
            ascending(self.rows()),
    {
        proof {
            use_type_invariant(self);
            assert forall|i: int, j: int| 0 <= i < j < self.rows().len() implies key_lt(
                (#[trigger] self.rows()[i]).0,
                (#[trigger] self.rows()[j]).0,
            ) by {
                assert(key_lt(self.rows@[i].0, self.rows@[j].0));
            }
        }
        &self.rows
    }

    /// Value with the given key.
    pub fn get(&self, key: &PublicKey) -> (value: Option<&V>)
        ensures
            match value {
                Some(v) => self@.contains_key(*key) && self@[*key] == v@,
                None => !self@.contains_key(*key),
            },
    {
        let rows = self.iter();
        let mut i: usize = 0;
        while i < rows.len()
            invariant
                i <= rows@.len(),
                row_views(rows@) == self.rows(),
                ascending(self.rows()),
                forall|j: int| 0 <= j < i ==> (#[trigger] rows@[j]).0 != *key,
            decreases rows@.len() - i,
        {
            if rows[i].0 == *key {
                proof {
                    ascending_rows_are_a_map(self.rows(), i as int);
                }
                return Some(&rows[i].1);
            }
            i += 1;
        }
        assert forall|j: int| !row_has(self.rows(), *key, j) by {
            if 0 <= j < rows@.len() {
                assert(rows@[j].0 != *key);
            }
        }
        None
    }

    /// Gives the key a value, in place of the one that it had, if any.
    pub fn put(&mut self, key: PublicKey, value: V)
        ensures
            final(self)@ == old(self)@.insert(key, value@),
    {
        proof {
            use_type_invariant(&*self);
        }
        let ghost before = self.rows@;
        let ghost views = self.rows();
        let mut i: usize = 0;
        while i < self.rows.len() && self.rows[i].0.precedes(&key)
            invariant
                i <= self.rows@.len(),
                self.rows@ == before,
                forall|j: int| 0 <= j < i ==> key_lt((#[trigger] before[j]).0, key),
            decreases self.rows@.len() - i,
        {
            i += 1;
        }
        let mut rows: Vec<(PublicKey, V)> = Vec::new();
        core::mem::swap(&mut rows, &mut self.rows);
        let found = i < rows.len() && rows[i].0 == key;
        if found {
            rows.remove(i);
        }
        let ghost kept = rows@;
        rows.insert(i, (key, value));
        proof {
            let shift: int = if found { 1 } else { 0 };
            assert forall|j: int| i + shift <= j < before.len() implies key_lt(
                key,
                (#[trigger] before[j]).0,
            ) by {
                key_order_is_total(before[i as int].0, key, before[j].0);
                if i < j {
                    assert(key_lt(before[i as int].0, before[j].0));
                }
                key_order_is_total(key, before[i as int].0, before[j].0);
            }
            assert forall|j: int| 0 <= j < rows@.len() implies #[trigger] rows@[j] == (if j < i {
                before[j]
            } else if j == i {
                (key, value)
            } else {
                before[j - 1 + shift]
            }) by {}
            assert forall|j: int, k: int| 0 <= j < k < rows@.len() implies key_lt(
                (#[trigger] rows@[j]).0,
                (#[trigger] rows@[k]).0,
            ) by {
                if j < i && k > i {
                    assert(key_lt(before[j].0, before[k - 1 + shift].0));
                } else if j < i && k < i {
                    assert(key_lt(before[j].0, before[k].0));
                } else if j > i {
                    assert(key_lt(before[j - 1 + shift].0, before[k - 1 + shift].0));
                }
            }
            put_in_rows(views, row_views(rows@), key, value@, i as int, shift);
        }
        self.rows = rows;
        assert(self@ =~= old(self)@.insert(key, value@));
    }
}

/// Rows in which one key was given a value stand for the map with that value.
proof fn put_in_rows<W>(
    before: Seq<(PublicKey, W)>,
    after: Seq<(PublicKey, W)>,
    key: PublicKey,
    value: W,
    i: int,
    shift: int,
)
    requires
        ascending(before),
        ascending(after),
        shift == 0 || shift == 1,
        0 <= i <= before.len() - shift,
        shift == 1 ==> before[i].0 == key,
        after.len() == before.len() + 1 - shift,
        forall|j: int|
            0 <= j < after.len() ==> #[trigger] after[j] == (if j < i {
                before[j]
            } else if j == i {
                (key, value)
            } else {
                before[j - 1 + shift]
            }),
    ensures
        table(after) == table(before).insert(key, value),
{
    assert forall|k: PublicKey| table(after).contains_key(k) <==> #[trigger] table(before).insert(
        key,
        value,
    ).contains_key(k) by {
        if table(after).contains_key(k) {
            let j = choose|j: int| row_has(after, k, j);
            if j < i {
                assert(row_has(before, k, j));
            } else if j > i {
                assert(row_has(before, k, j - 1 + shift));
            }
        }
        if table(before).contains_key(k) {
            let j = choose|j: int| row_has(before, k, j);
            if j < i {
                assert(row_has(after, k, j));
            } else {
                assert(row_has(after, k, j + 1 - shift));
            }
        }
        assert(row_has(after, key, i));
    }
    assert forall|k: PublicKey| table(after).contains_key(k) implies #[trigger] table(after)[k]
        == table(before).insert(key, value)[k] by {
        let j = choose|j: int| row_has(after, k, j);
        ascending_rows_are_a_map(after, j);
        if j < i {
            ascending_rows_are_a_map(before, j);
        } else if j > i {
            ascending_rows_are_a_map(before, j - 1 + shift);
        }
        if j != i {
            key_order_is_total(after[i].0, after[j].0, key);
            key_order_is_total(after[j].0, after[i].0, key);
        }
    }
    assert(table(after) =~= table(before).insert(key, value));
}

/// Table of values at positions that count from zero.
pub struct ListIndex<T> {
    rows: Vec<T>,
}

impl<T: View> View for ListIndex<T> {
    type V = Seq<T::V>;

    closed spec fn view(&self) -> Seq<T::V> {
        self.rows@.map_values(|row: T| row@)
    }
}

impl<T: View> ListIndex<T> {
    /// Makes an empty table.
    pub fn new() -> (index: Self)
        ensures
            index@ == Seq::<T::V>::empty(),
    {
        let index = ListIndex { rows: Vec::new() };
        assert(index@ =~= Seq::<T::V>::empty());
        index
    }

    /// Number of values.
    pub fn len(&self) -> (len: u64)
        ensures
            len == self@.len(),
    {
        self.rows.len() as u64
    }

    /// Value at the given position.
    pub fn get(&self, index: u64) -> (value: Option<&T>)
        ensures
            match value {
                Some(v) => index < self@.len() && v@ == self@[index as int],
                None => index >= self@.len(),
            },
    {
        if index < self.rows.len() as u64 {
            Some(&self.rows[index as usize])
        } else {
            None
        }
    }

    /// Values of the table, from the first position to the last.
    pub fn iter(&self) -> (rows: &Vec<T>)
        ensures
            rows@.map_values(|row: T| row@) == self@,
    {
        &self.rows
    }

    /// Puts a value behind all others.
    pub fn push(&mut self, value: T)
        ensures
            final(self)@ == old(self)@.push(value@),
    {
        self.rows.push(value);
        assert(self@ =~= old(self)@.push(value@));
    }

    /// Puts a value in place of the one at the given position.
    pub fn set(&mut self, index: u64, value: T)
        requires
            index < old(self)@.len(),
        ensures
            final(self)@ == old(self)@.update(index as int, value@),
    {
        assert(index < self.rows.len());
        self.rows[index as usize] = value;
        assert(self@ =~= old(self)@.update(index as int, value@));
    }
}

/// Table of one value, or none.
pub struct Entry<T> {
    value: Option<T>,
}

impl<T: Copy> View for Entry<T> {
    type V = Option<T>;

    closed spec fn view(&self) -> Option<T> {
        self.value
    }
}

impl<T: Copy> Entry<T> {
    /// Makes an entry with a value or without.
    pub fn new(value: Option<T>) -> (entry: Self)
        ensures
            entry@ == value,
    {
        Entry { value }
    }

    /// Value of the entry.
    pub fn get(&self) -> (value: Option<T>)
        ensures
            value == self@,
    {
        self.value
    }

    /// Gives the entry a value, in place of the one that it had, if any.
    pub fn set(&mut self, value: T)
        ensures
            final(self)@ == Some(value),
    {
        self.value = Some(value);
    }
}

/// Ascending rows stand in the order of their keys, and their table has what the rows have and
/// nothing else.
pub proof fn tables_hold_their_rows<W>(
    rows: Seq<(PublicKey, W)>,
    key: PublicKey,
    i: int,
    j: int,
)
    requires
        ascending(rows),
    ensures
        0 <= i < j < rows.len() ==> key_lt(rows[i].0, rows[j].0),
        0 <= i < rows.len() ==> table(rows).contains_key(rows[i].0) && table(rows)[rows[i].0]
            == rows[i].1,
        table(rows).contains_key(key) ==> exists|k: int|
            0 <= k < rows.len() && (#[trigger] rows[k]).0 == key,
{
    if 0 <= i < rows.len() {
        ascending_rows_are_a_map(rows, i);
    }
    if table(rows).contains_key(key) {
        let k = choose|k: int| row_has(rows, key, k);
        assert(rows[k].0 == key);
    }
}

/// Rows taken by their views have the same keys, and the views of their values.
pub proof fn views_of_rows<V: View>(rows: Seq<(PublicKey, V)>, i: int)
    ensures
        row_views(rows).len() == rows.len(),
        0 <= i < rows.len() ==> row_views(rows)[i].0 == rows[i].0 && row_views(rows)[i].1
            == rows[i].1@,
{
}

/// A list in the order of keys has the value of each key in the table once, and those of
/// smaller keys come first.
pub proof fn listings_have_each_value_once<W>(
    table: Map<PublicKey, W>,
    values: Seq<W>,
) -> (keys: Seq<PublicKey>)
    requires
        in_key_order(table, values),
    ensures
        keys.len() == values.len(),
        forall|i: int, j: int|
            0 <= i < j < keys.len() ==> key_lt(#[trigger] keys[i], #[trigger] keys[j]),
        forall|i: int|
            0 <= i < keys.len() ==> table.contains_key(#[trigger] keys[i]) && values[i]
                == table[keys[i]],
        forall|key: PublicKey| #[trigger] table.contains_key(key) ==> keys.contains(key),
{
    let rows = choose|rows: Seq<(PublicKey, W)>| #[trigger]
        ascending(rows) && self::table(rows) == table && values == rows.map_values(
            |row: (PublicKey, W)| row.1,
        );
    let keys = rows.map_values(|row: (PublicKey, W)| row.0);
    assert forall|i: int, j: int| 0 <= i < j < keys.len() implies key_lt(
        #[trigger] keys[i],
        #[trigger] keys[j],
    ) by {
        tables_hold_their_rows(rows, keys[i], i, j);
    }
    assert forall|i: int| 0 <= i < keys.len() implies table.contains_key(#[trigger] keys[i])
        && values[i] == table[keys[i]] by {
        tables_hold_their_rows(rows, keys[i], i, i);
    }
    assert forall|key: PublicKey| #[trigger] table.contains_key(key) implies keys.contains(
        key,
    ) by {
        tables_hold_their_rows(rows, key, 0, 0);
        let k = choose|k: int| 0 <= k < rows.len() && (#[trigger] rows[k]).0 == key;
        assert(keys[k] == key);
    }
    keys
}

} // verus!
