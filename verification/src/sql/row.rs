//! Reading a result row into an entity, column by column.
use vstd::prelude::*;
use crate::base::entity::Entity;
use crate::base::error::DatabaseError;
use crate::base::param::ParamValue;
use crate::pool::datasource::{entry_views, find_entry, lookup};
use crate::util::text::{concat3, str_views};

verus! {

/// Whether the row has a cell for each of the columns `names`.
pub open spec fn row_has(cells: Seq<(String, ParamValue)>, names: Seq<Seq<char>>) -> bool {
    forall|i: int| 0 <= i < names.len() ==> #[trigger] lookup(entry_views(cells), names[i]) is Some
}

/// Whether `k` is the first of the columns `names` that the row has no
/// cell for.
pub open spec fn is_first_missing(cells: Seq<(String, ParamValue)>, names: Seq<Seq<char>>, k: int) -> bool {
    &&& 0 <= k < names.len()
    &&& lookup(entry_views(cells), names[k]) is None
    &&& forall|j: int| 0 <= j < k ==> #[trigger] lookup(entry_views(cells), names[j]) is Some
}

/// The message for a column that the row has no cell for.
pub open spec fn missing_column_error(name: Seq<char>) -> Seq<char> {
    "Column '"@ + name + "' not found in row"@
}

/// Reads a row, given as its cells by column name, into a new entity: each
/// column of the entity takes the value of the first cell of its name (read
/// back as it is where the entity accepts it), and the columns not read stay
/// empty. A column without a cell is a `RowConvertError`.
pub fn entity_from_row<E: Entity>(cells: &Vec<(String, ParamValue)>) -> (r: Result<E, DatabaseError>)
    ensures
        r is Ok <==> row_has(cells@, E::spec_column_names()),
        r matches Err(err) ==> (err matches DatabaseError::RowConvertError(m) && exists|k: int|
            #[trigger] is_first_missing(cells@, E::spec_column_names(), k) && m@ == missing_column_error(
                E::spec_column_names()[k],
            )),
        r matches Ok(e) ==> forall|c: Seq<char>|
            #![trigger e.spec_value_by_column(c)]
            (E::spec_column_names().contains(c) && E::column_accepts(c, lookup(entry_views(cells@), c)->0@)
                ==> e.spec_value_by_column(c) == lookup(entry_views(cells@), c)->0@)
            && (!E::spec_column_names().contains(c) ==> e.spec_value_by_column(c) is Null),
{
    let names = E::column_names();
    let ghost ns = E::spec_column_names();
    let ghost ev = entry_views(cells@);
    let mut e = E::new();
    let mut i: usize = 0;
    while i < names.len()
        invariant
            i <= names@.len(),
            ns == E::spec_column_names(),
            str_views(names@) == ns,
            ev == entry_views(cells@),
            forall|j: int| 0 <= j < i ==> #[trigger] lookup(ev, ns[j]) is Some,
            forall|c: Seq<char>|
                #![trigger e.spec_value_by_column(c)]
                (ns.take(i as int).contains(c) && E::column_accepts(c, lookup(ev, c)->0@)
                    ==> e.spec_value_by_column(c) == lookup(ev, c)->0@)
                && (!ns.take(i as int).contains(c) ==> e.spec_value_by_column(c) is Null),
        decreases names@.len() - i,
    {
        let col = names[i];
        proof {
            assert(ns[i as int] == col@);
        }
        let idx = match find_entry(cells, col) {
            Some(idx) => idx,
            None => {
                let m = concat3("Column '", col, "' not found in row");
                proof {
                    assert(is_first_missing(cells@, ns, i as int));
                }
                return Err(DatabaseError::RowConvertError(m));
            },
        };
        let v = cells[idx].1.clone();
        let ghost before = e;
        e.set_value_by_column_name(col, v);
        proof {
            assert(lookup(ev, col@) == Some(cells@[idx as int].1));
            assert(ns.take(i + 1) =~= ns.take(i as int).push(col@));
            let t0 = ns.take(i as int);
            let t1 = ns.take(i + 1);
            assert forall|c: Seq<char>|
                #![trigger e.spec_value_by_column(c)]
                (ns.take(i + 1).contains(c) && E::column_accepts(c, lookup(ev, c)->0@)
                    ==> e.spec_value_by_column(c) == lookup(ev, c)->0@)
                && (!ns.take(i + 1).contains(c) ==> e.spec_value_by_column(c) is Null) by {
                if c != col@ {
                    assert(e.spec_value_by_column(c) == before.spec_value_by_column(c));
                    if ns.take(i + 1).contains(c) {
                        let w = choose|w: int| 0 <= w < t1.len() && #[trigger] t1[w] == c;
                        assert(w != i);
                        assert(t0[w] == c);
                    }
                    if ns.take(i as int).contains(c) {
                        let w = choose|w: int| 0 <= w < t0.len() && #[trigger] t0[w] == c;
                        assert(t1[w] == c);
                    }
                } else {
                    assert(t1[i as int] == c);
                }
            }
        }
        i = i + 1;
    }
    proof {
        assert(ns.take(names@.len() as int) =~= ns);
        assert forall|j: int| 0 <= j < ns.len() implies #[trigger] lookup(ev, ns[j]) is Some by {}
    }
    Ok(e)
}

} // verus!
