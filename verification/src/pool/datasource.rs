//! Data sources by name: the name in use, and the kind of database each
//! registered name stands for.
use vstd::prelude::*;
use crate::base::db_type::DbType;
use crate::util::text::str_equal;

verus! {

/// The position of the first entry named `name`, if any.
pub open spec fn key_index<T>(entries: Seq<(Seq<char>, T)>, name: Seq<char>) -> Option<int>
    decreases entries.len(),
{
    if entries.len() == 0 {
        None
    } else {
        match key_index(entries.drop_last(), name) {
            Some(i) => Some(i),
            None => if entries.last().0 == name {
                Some(entries.len() - 1)
            } else {
                None
            },
        }
    }
}

/// No two entries have the same name.
pub open spec fn distinct_keys<T>(entries: Seq<(Seq<char>, T)>) -> bool {
    forall|i: int, j: int| 0 <= i < j < entries.len() ==> #[trigger] entries[i].0 != #[trigger] entries[j].0
}

/// The value of the entry named `name`, if any.
pub open spec fn lookup<T>(entries: Seq<(Seq<char>, T)>, name: Seq<char>) -> Option<T> {
    match key_index(entries, name) {
        Some(i) => Some(entries[i].1),
        None => None,
    }
}

/// What `key_index` finds is an entry of that name, and it finds one
/// exactly when there is one.
pub proof fn lemma_key_index<T>(entries: Seq<(Seq<char>, T)>, name: Seq<char>)
    ensures
        key_index(entries, name) matches Some(i) ==> 0 <= i < entries.len() && entries[i].0 == name
            && forall|j: int| 0 <= j < i ==> entries[j].0 != name,
        key_index(entries, name) is None <==> forall|j: int| 0 <= j < entries.len() ==> entries[j].0 != name,
    decreases entries.len(),
{
    if entries.len() > 0 {
        let d = entries.drop_last();
        lemma_key_index(d, name);
        assert forall|j: int| 0 <= j < d.len() implies d[j] == entries[j] by {}
        match key_index(d, name) {
            Some(i) => {
                assert(d[i] == entries[i]);
                assert forall|j: int| 0 <= j < i implies entries[j].0 != name by {
                    assert(d[j] == entries[j]);
                }
            },
            None => {
                assert forall|j: int| 0 <= j < d.len() implies entries[j].0 != name by {
                    assert(d[j] == entries[j]);
                }
                if entries.last().0 != name {
                    assert forall|j: int| 0 <= j < entries.len() implies entries[j].0 != name by {
                        if j < d.len() {
                            assert(d[j] == entries[j]);
                        }
                    }
                }
            },
        }
    }
}

/// The view of entries held with `String` names.
pub open spec fn entry_views<T>(entries: Seq<(String, T)>) -> Seq<(Seq<char>, T)> {
    entries.map_values(|e: (String, T)| (e.0@, e.1))
}

/// Finds the entry named `name`.
pub fn find_entry<T>(entries: &Vec<(String, T)>, name: &str) -> (r: Option<usize>)
    ensures
        r matches Some(i) ==> Some(i as int) == key_index(entry_views(entries@), name@) && i < entries@.len()
            && entries@[i as int].0@ == name@,
        r is None ==> key_index(entry_views(entries@), name@) is None,
{
    let ghost views = entry_views(entries@);
    let mut i: usize = 0;
    while i < entries.len()
        invariant
            i <= entries@.len(),
            views == entry_views(entries@),
            forall|j: int| 0 <= j < i ==> views[j].0 != name@,
        decreases entries@.len() - i,
    {
        if str_equal(entries[i].0.as_str(), name) {
            proof {
                lemma_key_index(views, name@);
                assert(views[i as int].0 == name@);
                if let Some(k) = key_index(views, name@) {
                    if k > i {
                        assert(views[i as int].0 != name@);
                    }
                    if k < i {
                        assert(views[k].0 != name@);
                    }
                }
            }
            return Some(i);
        }
        proof {
            assert(views[i as int].0 != name@);
        }
        i = i + 1;
    }
    proof {
        lemma_key_index(views, name@);
        if let Some(k) = key_index(views, name@) {
            assert(views[k].0 != name@);
        }
    }
    None
}

/// The name of the data source in use: the one set for the current task,
/// or "default".
pub fn get_datasource_name(current: Option<String>) -> (r: String)
    ensures
        r@ == (match current {
            Some(name) => name@,
            None => "default"@,
        }),
{
    match current {
        Some(name) => name,
        None => String::from_str("default"),
    }
}

/// The kind of database each registered data source stands for.
pub struct DatasourceTypeRegistry {
    entries: Vec<(String, DbType)>,
}

impl DatasourceTypeRegistry {
    /// The names and kinds, in the order the names were first set.
    pub closed spec fn spec_entries(&self) -> Seq<(Seq<char>, DbType)> {
        entry_views(self.entries@)
    }

    pub closed spec fn wf(&self) -> bool {
        distinct_keys(self.spec_entries())
    }

    /// No data source is known.
    pub fn new() -> (r: Self)
        ensures
            r.wf(),
            r.spec_entries().len() == 0,
    {
        DatasourceTypeRegistry { entries: Vec::new() }
    }

    /// Records that `name` stands for `data_type`, replacing what it stood
    /// for before.
    pub fn set_datasource_type(&mut self, name: String, data_type: DbType)
        requires
            old(self).wf(),
        ensures
            final(self).wf(),
            lookup(final(self).spec_entries(), name@) == Some(data_type),
            forall|n: Seq<char>| n != name@ ==> lookup(final(self).spec_entries(), n) == lookup(old(self).spec_entries(), n),
    {
        let ghost before = self.spec_entries();
        proof {
            lemma_key_index(before, name@);
        }
        match find_entry(&self.entries, name.as_str()) {
            Some(i) => {
                let ghost n = name@;
                self.entries.set(i, (name, data_type));
                proof {
                    let after = self.spec_entries();
                    assert(after =~= before.update(i as int, (n, data_type)));
                    assert forall|k: Seq<char>| #[trigger] key_index(after, k) == key_index(before, k) by {
                        lemma_key_index(after, k);
                        lemma_key_index(before, k);
                        if key_index(before, k) is None && key_index(after, k) is Some {
                            assert(after[i as int].0 == before[i as int].0);
                        }
                        if let Some(a) = key_index(after, k) {
                            if let Some(b) = key_index(before, k) {
                                if a < b {
                                    assert(before[a].0 == after[a].0);
                                } else if b < a {
                                    assert(after[b].0 == before[b].0);
                                }
                            } else {
                                assert(before[a].0 == after[a].0);
                            }
                        } else if let Some(b) = key_index(before, k) {
                            assert(after[b].0 == before[b].0);
                        }
                    }
                    assert(distinct_keys(after)) by {
                        assert forall|x: int, y: int| 0 <= x < y < after.len() implies #[trigger] after[x].0
                            != #[trigger] after[y].0 by {
                            assert(after[x].0 == before[x].0);
                            assert(after[y].0 == before[y].0);
                        }
                    }
                    assert forall|k: Seq<char>| k != n implies #[trigger] lookup(after, k) == lookup(before, k) by {
                        assert(key_index(after, k) == key_index(before, k));
                        lemma_key_index(before, k);
                        if let Some(a) = key_index(before, k) {
                            assert(a != i);
                        }
                    }
                }
            },
            None => {
                let ghost n = name@;
                self.entries.push((name, data_type));
                proof {
                    let after = self.spec_entries();
                    assert(after =~= before.push((n, data_type)));
                    assert(after.drop_last() =~= before);
                    assert forall|k: Seq<char>| k != n implies #[trigger] lookup(after, k) == lookup(before, k) by {
                        lemma_key_index(before, k);
                        if let Some(a) = key_index(before, k) {
                            assert(after[a] == before[a]);
                        }
                    }
                    assert(distinct_keys(after)) by {
                        assert forall|x: int, y: int| 0 <= x < y < after.len() implies #[trigger] after[x].0
                            != #[trigger] after[y].0 by {
                            if y == before.len() {
                                assert(after[x].0 == before[x].0);
                            }
                        }
                    }
                    lemma_key_index(after, n);
                }
            },
        }
    }

    /// The kind of database `name` stands for, if it was set.
    pub fn get_datasource_type_by_name(&self, name: &str) -> (r: Option<DbType>)
        ensures
            r == lookup(self.spec_entries(), name@),
    {
        match find_entry(&self.entries, name) {
            Some(i) => Some(self.entries[i].1),
            None => None,
        }
    }

    /// The kind of database of the data source in use (see
    /// `get_datasource_name`), if it was set.
    pub fn get_datasource_type(&self, current: Option<String>) -> (r: Option<DbType>)
        ensures
            r == lookup(
                self.spec_entries(),
                match current {
                    Some(name) => name@,
                    None => "default"@,
                },
            ),
    {
        let name = get_datasource_name(current);
        self.get_datasource_type_by_name(name.as_str())
    }
}

/// Adding an entry under a name not yet used makes the name find that
/// entry's value, and leaves what every other name finds as it was.
pub proof fn lemma_lookup_after_push<T>(entries: Seq<(Seq<char>, T)>, name: Seq<char>, value: T)
    requires
        key_index(entries, name) is None,
    ensures
        lookup(entries.push((name, value)), name) == Some(value),
        forall|n: Seq<char>| n != name ==> #[trigger] lookup(entries.push((name, value)), n) == lookup(entries, n),
{
    let after = entries.push((name, value));
    assert(after.drop_last() =~= entries);
    assert forall|n: Seq<char>| n != name implies #[trigger] lookup(after, n) == lookup(entries, n) by {
        lemma_key_index(entries, n);
        if let Some(i) = key_index(entries, n) {
            assert(after[i] == entries[i]);
        }
    }
}

/// Removing the entry of a name makes the name find nothing, and leaves
/// what every other name finds as it was.
pub proof fn lemma_lookup_after_remove<T>(entries: Seq<(Seq<char>, T)>, name: Seq<char>)
    requires
        distinct_keys(entries),
        key_index(entries, name) is Some,
    ensures
        lookup(entries.remove(key_index(entries, name)->0), name) is None,
        forall|n: Seq<char>| n != name ==> #[trigger] lookup(entries.remove(key_index(entries, name)->0), n)
            == lookup(entries, n),
{
    let i = key_index(entries, name)->0;
    let after = entries.remove(i);
    lemma_key_index(entries, name);
    lemma_key_index(after, name);
    if let Some(j) = key_index(after, name) {
        if j < i {
            assert(after[j] == entries[j]);
        } else {
            assert(after[j] == entries[j + 1]);
            assert(entries[i].0 == entries[j + 1].0);
        }
    }
    assert forall|n: Seq<char>| n != name implies #[trigger] lookup(after, n) == lookup(entries, n) by {
        lemma_key_index(entries, n);
        lemma_key_index(after, n);
        match (key_index(entries, n), key_index(after, n)) {
            (Some(a), Some(b)) => {
                assert(a != i);
                if b < i {
                    assert(after[b] == entries[b]);
                    if a < b {
                        assert(after[a] == entries[a]);
                    }
                } else {
                    assert(after[b] == entries[b + 1]);
                    if a < i {
                        assert(after[a] == entries[a]);
                    } else if a < b + 1 {
                        assert(after[a - 1] == entries[a]);
                    } else if a > b + 1 {
                        assert(entries[a].0 == entries[b + 1].0);
                    }
                }
            },
            (Some(a), None) => {
                assert(a != i);
                if a < i {
                    assert(after[a] == entries[a]);
                } else {
                    assert(after[a - 1] == entries[a]);
                }
            },
            (None, Some(b)) => {
                if b < i {
                    assert(after[b] == entries[b]);
                } else {
                    assert(after[b] == entries[b + 1]);
                }
            },
            (None, None) => {},
        }
    }
}

/// Removing the entry just added under a new name gives back the entries as
/// they were, and that name finds its entry at the end.
pub proof fn lemma_remove_undoes_push<T>(entries: Seq<(Seq<char>, T)>, name: Seq<char>, value: T)
    requires
        key_index(entries, name) is None,
    ensures
        key_index(entries.push((name, value)), name) == Some(entries.len() as int),
        entries.push((name, value)).remove(entries.len() as int) == entries,
{
    assert(entries.push((name, value)).drop_last() =~= entries);
    assert(entries.push((name, value)).remove(entries.len() as int) =~= entries);
}

} // verus!
