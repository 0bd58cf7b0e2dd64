//! Tables of rows that belong to tenants.
//!
//! Every row carries the identifier of its tenant, and every look-up names
//! the tenant: a row of one tenant is never found or listed for another.
use crate::order::{is_ordered, sort_rows, sorted, Sortable};
use vstd::prelude::*;

verus! {

/// A row of a table: it belongs to a tenant and has an identifier.
pub trait Row: Sized {
    /// The tenant that the row belongs to.
    spec fn tenant_spec(&self) -> u128;

    /// The row's identifier.
    spec fn id_spec(&self) -> u128;

    fn tenant(&self) -> (r: u128)
        ensures
            r == self.tenant_spec(),
    ;

    fn id(&self) -> (r: u128)
        ensures
            r == self.id_spec(),
    ;

    /// A copy of the row.
    fn duplicate(&self) -> (r: Self)
        ensures
            r == *self,
    ;
}

/// A row that hangs on another: a line of an order, an ingredient of a
/// recipe.
pub trait Child: Sized + Copy {
    /// The identifier of the row that this one hangs on.
    spec fn parent_spec(&self) -> u128;

    fn parent(&self) -> (r: u128)
        ensures
            r == self.parent_spec(),
    ;
}

/// Whether `row` is the tenant's row `id`.
pub open spec fn is_row<T: Row>(row: T, tenant_id: u128, id: u128) -> bool {
    row.tenant_spec() == tenant_id && row.id_spec() == id
}

/// Where the tenant's row `id` stands in `rows`: the first place that
/// holds it, `None` where the tenant has no such row.
pub open spec fn find<T: Row>(rows: Seq<T>, tenant_id: u128, id: u128) -> Option<int>
    decreases rows.len(),
{
    if rows.len() == 0 {
        None
    } else {
        match find(rows.drop_last(), tenant_id, id) {
            Some(i) => Some(i),
            None => if is_row(rows.last(), tenant_id, id) {
                Some(rows.len() - 1)
            } else {
                None
            },
        }
    }
}

/// The rows of the tenant, in the order of the table.
pub open spec fn of_tenant<T: Row>(rows: Seq<T>, tenant_id: u128) -> Seq<T>
    decreases rows.len(),
{
    if rows.len() == 0 {
        Seq::empty()
    } else if rows.last().tenant_spec() == tenant_id {
        of_tenant(rows.drop_last(), tenant_id).push(rows.last())
    } else {
        of_tenant(rows.drop_last(), tenant_id)
    }
}

/// The rows that hang on `parent`, in the order of the table.
pub open spec fn children_of<T: Child>(rows: Seq<T>, parent: u128) -> Seq<T>
    decreases rows.len(),
{
    if rows.len() == 0 {
        Seq::empty()
    } else if rows.last().parent_spec() == parent {
        children_of(rows.drop_last(), parent).push(rows.last())
    } else {
        children_of(rows.drop_last(), parent)
    }
}

/// No two rows of the table share an identifier.
pub open spec fn distinct<T: Row>(rows: Seq<T>) -> bool {
    forall|i: int, j: int|
        0 <= i < j < rows.len() ==> (#[trigger] rows[i]).id_spec() != (#[trigger] rows[j]).id_spec()
}

/// Every identifier in the table is below `bound`.
pub open spec fn ids_below<T: Row>(rows: Seq<T>, bound: u128) -> bool {
    forall|i: int| 0 <= i < rows.len() ==> (#[trigger] rows[i]).id_spec() < bound
}

/// What `find` finds is the first row that fits, and it finds nothing only
/// where none fits.
pub proof fn lemma_find<T: Row>(rows: Seq<T>, tenant_id: u128, id: u128)
    ensures
        match find(rows, tenant_id, id) {
            Some(i) => {
                &&& 0 <= i < rows.len()
                &&& is_row(rows[i], tenant_id, id)
                &&& forall|j: int| 0 <= j < i ==> !is_row(rows[j], tenant_id, id)
            },
            None => forall|j: int| 0 <= j < rows.len() ==> !is_row(rows[j], tenant_id, id),
        },
    decreases rows.len(),
{
    if rows.len() > 0 {
        let front = rows.drop_last();
        lemma_find(front, tenant_id, id);
        match find(front, tenant_id, id) {
            Some(i) => {
                assert forall|j: int| 0 <= j < i implies !is_row(rows[j], tenant_id, id) by {
                    assert(front[j] == rows[j]);
                }
                assert(front[i] == rows[i]);
            },
            None => {
                assert forall|j: int| 0 <= j < front.len() implies !is_row(
                    rows[j],
                    tenant_id,
                    id,
                ) by {
                    assert(front[j] == rows[j]);
                }
            },
        }
    }
}

/// A row that fits and has none that fits before it is the one found.
pub proof fn lemma_find_is<T: Row>(rows: Seq<T>, tenant_id: u128, id: u128, i: int)
    requires
        0 <= i < rows.len(),
        is_row(rows[i], tenant_id, id),
        forall|j: int| 0 <= j < i ==> !is_row(rows[j], tenant_id, id),
    ensures
        find(rows, tenant_id, id) == Some(i),
{
    lemma_find(rows, tenant_id, id);
}

/// Where no row fits, none is found.
pub proof fn lemma_find_none<T: Row>(rows: Seq<T>, tenant_id: u128, id: u128)
    requires
        forall|j: int| 0 <= j < rows.len() ==> !is_row(rows[j], tenant_id, id),
    ensures
        find(rows, tenant_id, id) is None,
{
    lemma_find(rows, tenant_id, id);
}

/// Changing a row that keeps its tenant and identifier changes nothing
/// about where rows are found.
pub proof fn lemma_find_update<T: Row>(rows: Seq<T>, at: int, row: T, tenant_id: u128, id: u128)
    requires
        0 <= at < rows.len(),
        row.tenant_spec() == rows[at].tenant_spec(),
        row.id_spec() == rows[at].id_spec(),
    ensures
        find(rows.update(at, row), tenant_id, id) == find(rows, tenant_id, id),
{
    let changed = rows.update(at, row);
    lemma_find(rows, tenant_id, id);
    lemma_find(changed, tenant_id, id);
    assert forall|j: int| 0 <= j < rows.len() implies is_row(changed[j], tenant_id, id) == is_row(
        rows[j],
        tenant_id,
        id,
    ) by {}
    match find(rows, tenant_id, id) {
        Some(i) => {
            assert(is_row(changed[i], tenant_id, id));
            match find(changed, tenant_id, id) {
                Some(k) => {
                    assert(is_row(rows[k], tenant_id, id));
                    if k < i {
                        assert(!is_row(rows[k], tenant_id, id));
                    }
                    if i < k {
                        assert(!is_row(changed[i], tenant_id, id));
                    }
                },
                None => {
                    assert(!is_row(changed[i], tenant_id, id));
                },
            }
        },
        None => {
            match find(changed, tenant_id, id) {
                Some(k) => {
                    assert(is_row(rows[k], tenant_id, id));
                    assert(!is_row(rows[k], tenant_id, id));
                },
                None => {},
            }
        },
    }
}

/// Where the tenant's row `id` stands in the table.
pub fn position<T: Row>(rows: &Vec<T>, tenant_id: u128, id: u128) -> (r: Option<usize>)
    ensures
        match r {
            Some(i) => find(rows@, tenant_id, id) == Some(i as int) && i < rows.len(),
            None => find(rows@, tenant_id, id) is None,
        },
{
    let mut i: usize = 0;
    while i < rows.len()
        invariant
            i <= rows.len(),
            forall|j: int| 0 <= j < i ==> !is_row(rows[j], tenant_id, id),
        decreases rows.len() - i,
    {
        if rows[i].tenant() == tenant_id && rows[i].id() == id {
            proof {
                lemma_find_is(rows@, tenant_id, id, i as int);
            }
            return Some(i);
        }
        i += 1;
    }
    proof {
        lemma_find_none(rows@, tenant_id, id);
    }
    None
}

/// Copies of the tenant's rows, in the order of the table.
pub fn list<T: Row>(rows: &Vec<T>, tenant_id: u128) -> (r: Vec<T>)
    ensures
        r@ == of_tenant(rows@, tenant_id),
{
    let mut found: Vec<T> = Vec::new();
    let mut i: usize = 0;
    while i < rows.len()
        invariant
            i <= rows.len(),
            found@ == of_tenant(rows@.take(i as int), tenant_id),
        decreases rows.len() - i,
    {
        assert(rows@.take(i as int + 1).drop_last() =~= rows@.take(i as int));
        if rows[i].tenant() == tenant_id {
            found.push(rows[i].duplicate());
        }
        i += 1;
    }
    assert(rows@.take(i as int) =~= rows@);
    found
}

/// The rows that hang on `parent`, in the order of the table.
pub fn children<T: Child>(rows: &Vec<T>, parent: u128) -> (r: Vec<T>)
    ensures
        r@ == children_of(rows@, parent),
{
    let mut found: Vec<T> = Vec::new();
    let mut i: usize = 0;
    while i < rows.len()
        invariant
            i <= rows.len(),
            found@ == children_of(rows@.take(i as int), parent),
        decreases rows.len() - i,
    {
        assert(rows@.take(i as int + 1).drop_last() =~= rows@.take(i as int));
        if rows[i].parent() == parent {
            found.push(rows[i]);
        }
        i += 1;
    }
    assert(rows@.take(i as int) =~= rows@);
    found
}

/// Copies of the tenant's rows, in the order of their keys; rows with
/// equal keys in the order of the table.
pub fn list_sorted<T: Row + Sortable>(rows: &Vec<T>, tenant_id: u128) -> (r: Vec<T>)
    ensures
        r@ == sorted(of_tenant(rows@, tenant_id)),
        is_ordered(r@),
{
    let own = list(rows, tenant_id);
    sort_rows(&own)
}

/// Copies of the tenant's rows, the one that was added last first.
pub fn list_newest<T: Row>(rows: &Vec<T>, tenant_id: u128) -> (r: Vec<T>)
    ensures
        r@ == of_tenant(rows@, tenant_id).reverse(),
{
    let own = list(rows, tenant_id);
    let mut found: Vec<T> = Vec::new();
    let mut left: usize = own.len();
    while left > 0
        invariant
            left <= own.len(),
            found@.len() == own.len() - left,
            forall|j: int| 0 <= j < found@.len() ==> found@[j] == own@[own.len() - 1 - j],
        decreases left,
    {
        left -= 1;
        found.push(own[left].duplicate());
    }
    assert(found@ =~= own@.reverse());
    found
}

} // verus!
