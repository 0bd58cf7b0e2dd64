//! Putting rows in order.
//!
//! Rows are ordered by a key: two numbers, two texts compared byte by
//! byte, and a last number, the earlier part deciding before the later.
//! Rows with equal keys keep the order in which they stood.
use vstd::prelude::*;
use vstd::string::*;
use vstd::utf8::encode_utf8;

verus! {

/// What rows are ordered by.
pub struct SortKey {
    pub major: i64,
    pub minor: i64,
    pub text: Vec<u8>,
    pub tail: Vec<u8>,
    pub last: i64,
}

/// A [`SortKey`] with its texts as sequences of bytes.
pub struct SortKeyView {
    pub major: i64,
    pub minor: i64,
    pub text: Seq<u8>,
    pub tail: Seq<u8>,
    pub last: i64,
}

impl View for SortKey {
    type V = SortKeyView;

    open spec fn view(&self) -> SortKeyView {
        SortKeyView {
            major: self.major,
            minor: self.minor,
            text: self.text@,
            tail: self.tail@,
            last: self.last,
        }
    }
}

/// The views of the keys, in order.
pub open spec fn key_views(keys: Seq<SortKey>) -> Seq<SortKeyView> {
    keys.map_values(|key: SortKey| key@)
}

/// How two texts stand to each other from the byte `i` on, as in a
/// dictionary: -1 where the first comes first, 1 where the second does,
/// 0 where they are the same. A text comes before every text that it
/// begins.
pub open spec fn bytes_order(a: Seq<u8>, b: Seq<u8>, i: int) -> int
    decreases a.len() - i,
{
    if i < 0 {
        0
    } else if i >= a.len() {
        if i >= b.len() {
            0
        } else {
            -1
        }
    } else if i >= b.len() {
        1
    } else if a[i] < b[i] {
        -1
    } else if a[i] > b[i] {
        1
    } else {
        bytes_order(a, b, i + 1)
    }
}

/// Whether a row with the key `x` may stand before a row with the key
/// `y`: the parts of the keys are compared in turn, and the first that
/// differs decides.
pub open spec fn key_le(x: SortKeyView, y: SortKeyView) -> bool {
    if x.major != y.major {
        x.major < y.major
    } else if x.minor != y.minor {
        x.minor < y.minor
    } else if bytes_order(x.text, y.text, 0) != 0 {
        bytes_order(x.text, y.text, 0) < 0
    } else if bytes_order(x.tail, y.tail, 0) != 0 {
        bytes_order(x.tail, y.tail, 0) < 0
    } else {
        x.last <= y.last
    }
}

/// Turning two texts round turns their order round.
pub proof fn lemma_bytes_flip(a: Seq<u8>, b: Seq<u8>, i: int)
    requires
        0 <= i,
    ensures
        bytes_order(a, b, i) == -bytes_order(b, a, i),
    decreases a.len() - i,
{
    if i < a.len() && i < b.len() && a[i] == b[i] {
        lemma_bytes_flip(a, b, i + 1);
    }
}

/// Where a first text does not come after a second, nor the second after
/// a third, the first does not come after the third; and the first and
/// the third are the same only where all three are.
pub proof fn lemma_bytes_chain(a: Seq<u8>, b: Seq<u8>, c: Seq<u8>, i: int)
    requires
        0 <= i,
        bytes_order(a, b, i) <= 0,
        bytes_order(b, c, i) <= 0,
    ensures
        bytes_order(a, c, i) <= 0,
        bytes_order(a, c, i) == 0 ==> bytes_order(a, b, i) == 0 && bytes_order(b, c, i) == 0,
    decreases a.len() - i,
{
    if i < a.len() && i < b.len() && i < c.len() && a[i] == b[i] && b[i] == c[i] {
        lemma_bytes_chain(a, b, c, i + 1);
    }
}

/// Of two keys, one may stand before the other.
pub proof fn lemma_key_total(x: SortKeyView, y: SortKeyView)
    ensures
        key_le(x, y) || key_le(y, x),
{
    lemma_bytes_flip(x.text, y.text, 0);
    lemma_bytes_flip(x.tail, y.tail, 0);
}

/// What may stand before a second key that may stand before a third may
/// stand before the third.
pub proof fn lemma_key_chain(x: SortKeyView, y: SortKeyView, z: SortKeyView)
    requires
        key_le(x, y),
        key_le(y, z),
    ensures
        key_le(x, z),
{
    if x.major == z.major && x.minor == z.minor {
        assert(x.major == y.major && x.minor == y.minor);
        lemma_bytes_chain(x.text, y.text, z.text, 0);
        if bytes_order(x.text, z.text, 0) == 0 {
            lemma_bytes_chain(x.tail, y.tail, z.tail, 0);
        }
    }
}

/// Row numbers in order, with the row `i` put behind all rows whose keys
/// may stand before its own.
pub open spec fn insert_index(order: Seq<int>, keys: Seq<SortKeyView>, i: int) -> Seq<int>
    decreases order.len(),
{
    if order.len() == 0 {
        seq![i]
    } else if key_le(keys[order.last()], keys[i]) {
        order.push(i)
    } else {
        insert_index(order.drop_last(), keys, i).push(order.last())
    }
}

/// The numbers of the first `n` rows in the order of their keys; rows
/// with equal keys keep their order.
pub open spec fn sort_order(keys: Seq<SortKeyView>, n: nat) -> Seq<int>
    decreases n,
{
    if n == 0 {
        Seq::empty()
    } else {
        insert_index(sort_order(keys, (n - 1) as nat), keys, n - 1)
    }
}

/// The rows with the numbers `order`, in that order.
pub open spec fn arrange<T>(rows: Seq<T>, order: Seq<int>) -> Seq<T> {
    Seq::new(order.len(), |k: int| rows[order[k]])
}

/// The key of what is ordered by a name alone: the name as its bytes.
pub open spec fn name_key(name: Seq<char>) -> SortKeyView {
    SortKeyView { major: 0, minor: 0, text: encode_utf8(name), tail: Seq::empty(), last: 0 }
}

/// The key of what is ordered by a name alone.
pub fn key_of_name(name: &String) -> (r: SortKey)
    ensures
        r@ == name_key(name@),
{
    SortKey { major: 0, minor: 0, text: name.as_str().as_bytes_vec(), tail: Vec::new(), last: 0 }
}

/// The key of what is ordered by its day, the latest first: the number of
/// the day, negated.
pub open spec fn latest_day_key(day: i32) -> SortKeyView {
    SortKeyView {
        major: (-(day as int)) as i64,
        minor: 0,
        text: Seq::empty(),
        tail: Seq::empty(),
        last: 0,
    }
}

/// The key of what is ordered by its day, the latest first.
pub fn key_of_latest_day(day: i32) -> (r: SortKey)
    ensures
        r@ == latest_day_key(day),
{
    let number: i64 = day as i64;
    SortKey { major: -number, minor: 0, text: Vec::new(), tail: Vec::new(), last: 0 }
}

/// A row that has a place among others of its kind.
pub trait Sortable: Sized {
    /// What the row is ordered by.
    spec fn sort_key_spec(&self) -> SortKeyView;

    fn sort_key(&self) -> (r: SortKey)
        ensures
            r@ == self.sort_key_spec(),
    ;

    /// A copy of the row.
    fn replica(&self) -> (r: Self)
        ensures
            r == *self,
    ;
}

/// The keys of the rows, in order.
pub open spec fn keys_of<T: Sortable>(rows: Seq<T>) -> Seq<SortKeyView> {
    rows.map_values(|row: T| row.sort_key_spec())
}

/// The rows in the order of their keys; rows with equal keys keep their
/// order.
pub open spec fn sorted<T: Sortable>(rows: Seq<T>) -> Seq<T> {
    arrange(rows, sort_order(keys_of(rows), rows.len()))
}

/// Whether the rows stand in the order of their keys.
pub open spec fn is_ordered<T: Sortable>(rows: Seq<T>) -> bool {
    forall|p: int, q: int|
        0 <= p < q < rows.len() ==> key_le(rows[p].sort_key_spec(), rows[q].sort_key_spec())
}

/// Whether `order` holds the numbers of `n` rows in the order of their
/// keys: every number below `n` once, none twice, none before one whose
/// key must stand before its own, and rows with equal keys in the order
/// of their numbers.
pub open spec fn is_sort_order(order: Seq<int>, keys: Seq<SortKeyView>, n: int) -> bool {
    &&& order.len() == n
    &&& forall|p: int| 0 <= p < order.len() ==> 0 <= #[trigger] order[p] < n
    &&& forall|p: int, q: int| 0 <= p < q < order.len() ==> order[p] != order[q]
    &&& forall|p: int, q: int|
        0 <= p < q < order.len() ==> key_le(keys[order[p]], keys[order[q]])
    &&& forall|p: int, q: int|
        0 <= p < q < order.len() && key_le(keys[order[q]], keys[order[p]]) ==> order[p] < order[q]
}

/// Where a row is put among row numbers in order: behind the last whose
/// key may stand before its own.
pub proof fn lemma_insert_index(order: Seq<int>, keys: Seq<SortKeyView>, i: int, place: int)
    requires
        0 <= place <= order.len(),
        forall|q: int| place <= q < order.len() ==> !key_le(keys[order[q]], keys[i]),
        place > 0 ==> key_le(keys[order[place - 1]], keys[i]),
    ensures
        insert_index(order, keys, i) == order.insert(place, i),
    decreases order.len(),
{
    if order.len() == 0 {
        assert(seq![i] =~= order.insert(place, i));
    } else if key_le(keys[order.last()], keys[i]) {
        if place < order.len() {
            assert(!key_le(keys[order[order.len() - 1]], keys[i]));
        }
        assert(order.push(i) =~= order.insert(place, i));
    } else {
        let front = order.drop_last();
        assert(place <= front.len());
        assert forall|q: int| place <= q < front.len() implies !key_le(
            keys[front[q]],
            keys[i],
        ) by {
            assert(front[q] == order[q]);
        }
        if place > 0 {
            assert(front[place - 1] == order[place - 1]);
        }
        lemma_insert_index(front, keys, i, place);
        assert(front.insert(place, i).push(order.last()) =~= order.insert(place, i));
    }
}

/// Putting one more row in its place keeps row numbers in order.
pub proof fn lemma_insert_keeps_order(order: Seq<int>, keys: Seq<SortKeyView>, i: int, place: int)
    requires
        is_sort_order(order, keys, i),
        0 <= place <= order.len(),
        forall|q: int| place <= q < order.len() ==> !key_le(keys[order[q]], keys[i]),
        place > 0 ==> key_le(keys[order[place - 1]], keys[i]),
    ensures
        is_sort_order(order.insert(place, i), keys, i + 1),
{
    let after = order.insert(place, i);
    assert forall|p: int, q: int| 0 <= p < q < after.len() implies key_le(
        keys[after[p]],
        keys[after[q]],
    ) by {
        if q < place {
        } else if q == place {
            if p < place - 1 {
                assert(key_le(keys[order[p]], keys[order[place - 1]]));
                lemma_key_chain(keys[order[p]], keys[order[place - 1]], keys[i]);
            }
        } else if p < place {
            assert(key_le(keys[order[p]], keys[order[q - 1]]));
        } else if p == place {
            lemma_key_total(keys[order[q - 1]], keys[i]);
        } else {
            assert(key_le(keys[order[p - 1]], keys[order[q - 1]]));
        }
    }
    assert forall|p: int, q: int| 0 <= p < q < after.len() implies after[p] != after[q] by {
        if q < place {
        } else if q == place {
            assert(order[p] < i);
        } else if p < place {
            assert(order[p] != order[q - 1]);
        } else if p == place {
            assert(order[q - 1] < i);
        } else {
            assert(order[p - 1] != order[q - 1]);
        }
    }
    assert forall|p: int, q: int|
        0 <= p < q < after.len() && key_le(keys[after[q]], keys[after[p]]) implies after[p]
        < after[q] by {
        if q < place {
        } else if q == place {
            assert(order[p] < i);
        } else if p < place {
            assert(key_le(keys[order[q - 1]], keys[order[p]]) ==> order[p] < order[q - 1]);
        } else if p == place {
            assert(!key_le(keys[order[q - 1]], keys[i]));
        } else {
            assert(key_le(keys[order[q - 1]], keys[order[p - 1]]) ==> order[p - 1] < order[q
                - 1]);
        }
    }
    assert forall|p: int| 0 <= p < after.len() implies 0 <= #[trigger] after[p] < i + 1 by {
        if p < place {
            assert(after[p] == order[p]);
        } else if p > place {
            assert(after[p] == order[p - 1]);
        }
    }
}

/// How two texts stand to each other, as in a dictionary.
pub fn compare_bytes(a: &Vec<u8>, b: &Vec<u8>) -> (r: i8)
    ensures
        r == bytes_order(a@, b@, 0),
{
    let mut i: usize = 0;
    while i < a.len() && i < b.len()
        invariant
            i <= a.len(),
            i <= b.len(),
            bytes_order(a@, b@, 0) == bytes_order(a@, b@, i as int),
        decreases a.len() - i,
    {
        if a[i] < b[i] {
            return -1;
        }
        if a[i] > b[i] {
            return 1;
        }
        i += 1;
    }
    if i < b.len() {
        -1
    } else if i < a.len() {
        1
    } else {
        0
    }
}

/// Whether a row with the key `x` may stand before a row with the key `y`.
pub fn key_at_most(x: &SortKey, y: &SortKey) -> (r: bool)
    ensures
        r == key_le(x@, y@),
{
    if x.major != y.major {
        return x.major < y.major;
    }
    if x.minor != y.minor {
        return x.minor < y.minor;
    }
    let text = compare_bytes(&x.text, &y.text);
    if text != 0 {
        return text < 0;
    }
    let tail = compare_bytes(&x.tail, &y.tail);
    if tail != 0 {
        return tail < 0;
    }
    x.last <= y.last
}

/// The row numbers as integers.
pub open spec fn numbers(order: Seq<usize>) -> Seq<int> {
    order.map_values(|x: usize| x as int)
}

/// The numbers of the rows in the order of their keys; rows with equal
/// keys keep their order.
pub fn sorted_order(keys: &Vec<SortKey>) -> (r: Vec<usize>)
    ensures
        numbers(r@) == sort_order(key_views(keys@), keys@.len()),
        is_sort_order(numbers(r@), key_views(keys@), keys@.len() as int),
{
    let ghost kv = key_views(keys@);
    let n = keys.len();
    let mut order: Vec<usize> = Vec::new();
    let mut i: usize = 0;
    proof {
        assert(numbers(order@) =~= Seq::<int>::empty());
    }
    while i < n
        invariant
            i <= n,
            n == keys.len(),
            kv == key_views(keys@),
            order@.len() == i,
            numbers(order@) == sort_order(kv, i as nat),
            is_sort_order(numbers(order@), kv, i as int),
            forall|p: int| 0 <= p < order@.len() ==> order@[p] < i,
        decreases n - i,
    {
        let ghost before = numbers(order@);
        let mut place: usize = order.len();
        while place > 0 && !key_at_most(&keys[order[place - 1]], &keys[i])
            invariant
                place <= order.len(),
                i < n,
                n == keys.len(),
                kv == key_views(keys@),
                before == numbers(order@),
                is_sort_order(before, kv, i as int),
                forall|p: int| 0 <= p < order@.len() ==> order@[p] < i,
                forall|q: int| place <= q < order.len() ==> !key_le(kv[before[q]], kv[i as int]),
            decreases place,
        {
            proof {
                assert(before[place - 1] == order@[place - 1] as int);
                assert(kv[before[place - 1]] == keys@[before[place - 1]]@);
                assert(kv[i as int] == keys@[i as int]@);
            }
            place -= 1;
        }
        proof {
            if place > 0 {
                assert(before[place - 1] == order@[place - 1] as int);
                assert(kv[before[place - 1]] == keys@[before[place - 1]]@);
                assert(kv[i as int] == keys@[i as int]@);
            }
            lemma_insert_index(before, kv, i as int, place as int);
            lemma_insert_keeps_order(before, kv, i as int, place as int);
        }
        let ghost rows_before = order@;
        order.insert(place, i);
        proof {
            assert(numbers(order@) =~= before.insert(place as int, i as int));
            assert forall|p: int| 0 <= p < order@.len() implies order@[p] < i + 1 by {
                if p < place {
                    assert(order@[p] == rows_before[p]);
                } else if p > place {
                    assert(order@[p] == rows_before[p - 1]);
                }
            }
        }
        i += 1;
    }
    order
}

/// Where a row belongs among row numbers in order: behind the last whose
/// key may stand before its own.
pub open spec fn place_of(order: Seq<int>, keys: Seq<SortKeyView>, i: int) -> int
    decreases order.len(),
{
    if order.len() == 0 {
        0
    } else if key_le(keys[order.last()], keys[i]) {
        order.len() as int
    } else {
        place_of(order.drop_last(), keys, i)
    }
}

/// All rows from the place of a row on must stand behind it, and the one
/// before its place may stand before it.
pub proof fn lemma_place_of(order: Seq<int>, keys: Seq<SortKeyView>, i: int)
    ensures
        0 <= place_of(order, keys, i) <= order.len(),
        forall|q: int|
            place_of(order, keys, i) <= q < order.len() ==> !key_le(keys[order[q]], keys[i]),
        place_of(order, keys, i) > 0 ==> key_le(keys[order[place_of(order, keys, i) - 1]], keys[i]),
    decreases order.len(),
{
    if order.len() > 0 && !key_le(keys[order.last()], keys[i]) {
        let front = order.drop_last();
        lemma_place_of(front, keys, i);
        let place = place_of(front, keys, i);
        assert forall|q: int| place <= q < order.len() implies !key_le(
            keys[order[q]],
            keys[i],
        ) by {
            if q < front.len() {
                assert(front[q] == order[q]);
            }
        }
        if place > 0 {
            assert(front[place - 1] == order[place - 1]);
        }
    }
}

/// The order of rows by their keys holds every row once, puts no row
/// before one whose key must stand before its own, and keeps rows with
/// equal keys in the order in which they stood.
pub proof fn lemma_sort_order(keys: Seq<SortKeyView>, n: nat)
    ensures
        is_sort_order(sort_order(keys, n), keys, n as int),
    decreases n,
{
    if n > 0 {
        lemma_sort_order(keys, (n - 1) as nat);
        let before = sort_order(keys, (n - 1) as nat);
        lemma_place_of(before, keys, n - 1);
        let place = place_of(before, keys, n - 1);
        lemma_insert_index(before, keys, n - 1, place);
        lemma_insert_keeps_order(before, keys, n - 1, place);
    }
}

/// Rows put in order are as many as before, each of them is one of the
/// rows, and they stand in the order of their keys.
pub proof fn lemma_sorted<T: Sortable>(rows: Seq<T>)
    ensures
        sorted(rows).len() == rows.len(),
        is_ordered(sorted(rows)),
        forall|k: int|
            0 <= k < rows.len() ==> 0 <= #[trigger] sort_order(keys_of(rows), rows.len())[k]
                < rows.len(),
{
    lemma_sort_order(keys_of(rows), rows.len());
    let order = sort_order(keys_of(rows), rows.len());
    assert forall|p: int, q: int| 0 <= p < q < sorted(rows).len() implies key_le(
        sorted(rows)[p].sort_key_spec(),
        sorted(rows)[q].sort_key_spec(),
    ) by {
        assert(key_le(keys_of(rows)[order[p]], keys_of(rows)[order[q]]));
        assert(0 <= order[p] < rows.len());
        assert(0 <= order[q] < rows.len());
    }
}

/// Copies of the rows in the order of their keys; rows with equal keys
/// keep their order.
pub fn sort_rows<T: Sortable>(rows: &Vec<T>) -> (r: Vec<T>)
    ensures
        r@ == sorted(rows@),
        r@.len() == rows@.len(),
        is_ordered(r@),
{
    let mut keys: Vec<SortKey> = Vec::new();
    let mut i: usize = 0;
    while i < rows.len()
        invariant
            i <= rows.len(),
            key_views(keys@) == keys_of(rows@).take(i as int),
        decreases rows.len() - i,
    {
        let key = rows[i].sort_key();
        proof {
            assert(key_views(keys@.push(key)) =~= key_views(keys@).push(key@));
            assert(keys_of(rows@).take(i as int).push(key@) =~= keys_of(rows@).take(i as int + 1));
        }
        keys.push(key);
        i += 1;
    }
    assert(keys_of(rows@).take(i as int) =~= keys_of(rows@));
    let order = sorted_order(&keys);
    proof {
        assert(keys@.len() == key_views(keys@).len());
        lemma_sorted(rows@);
    }
    let mut found: Vec<T> = Vec::new();
    let mut k: usize = 0;
    while k < order.len()
        invariant
            k <= order.len(),
            order@.len() == rows@.len(),
            numbers(order@) == sort_order(keys_of(rows@), rows@.len()),
            forall|k: int|
                0 <= k < order@.len() ==> 0 <= #[trigger] numbers(order@)[k] < rows@.len(),
            found@ == sorted(rows@).take(k as int),
        decreases order.len() - k,
    {
        assert(numbers(order@)[k as int] == order@[k as int] as int);
        let row = rows[order[k]].replica();
        proof {
            let all = sorted(rows@);
            assert(row == all[k as int]);
            assert(all.take(k as int).push(row) =~= all.take(k as int + 1));
        }
        found.push(row);
        k += 1;
    }
    assert(sorted(rows@).take(k as int) =~= sorted(rows@));
    found
}

} // verus!
