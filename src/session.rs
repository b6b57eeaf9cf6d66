use vstd::prelude::*;
use indexmap::IndexMap;
use crate::value::Value;

verus! {

#[verifier::external_type_specification]
#[verifier::external_body]
#[verifier::reject_recursive_types(K)]
#[verifier::reject_recursive_types(V)]
#[verifier::reject_recursive_types(S)]
pub struct ExIndexMap<K, V, S>(IndexMap<K, V, S>);

/// The entries of a session map, in their order: name and value.
pub uninterp spec fn session_entries(m: IndexMap<String, Value>) -> Seq<(Seq<char>, Value)>;

/// Every name occurs once.
pub open spec fn unique_names(es: Seq<(Seq<char>, Value)>) -> bool {
    forall|i: int, j: int| 0 <= i < es.len() && 0 <= j < es.len() && i != j ==> es[i].0 != es[j].0
}

/// The position of `name` among the entries, or -1.
pub open spec fn name_index(es: Seq<(Seq<char>, Value)>, name: Seq<char>) -> int
    decreases es.len(),
{
    if es.len() == 0 {
        -1
    } else if es.last().0 == name {
        es.len() - 1
    } else {
        name_index(es.drop_last(), name)
    }
}

/// The value bound to `name`, if any.
pub open spec fn lookup(es: Seq<(Seq<char>, Value)>, name: Seq<char>) -> Option<Value> {
    let i = name_index(es, name);
    if i >= 0 {
        Some(es[i].1)
    } else {
        None
    }
}

/// The entries after binding `name` to `v`: a known name keeps its place and
/// takes the new value, a new name goes last.
pub open spec fn bind(es: Seq<(Seq<char>, Value)>, name: Seq<char>, v: Value) -> Seq<(Seq<char>, Value)> {
    let i = name_index(es, name);
    if i >= 0 {
        es.update(i, (name, v))
    } else {
        es.push((name, v))
    }
}

/// The entries without `name`; the others keep their order.
pub open spec fn unbind(es: Seq<(Seq<char>, Value)>, name: Seq<char>) -> Seq<(Seq<char>, Value)> {
    let i = name_index(es, name);
    if i >= 0 {
        es.remove(i)
    } else {
        es
    }
}

/// Where `name_index` points: at the last entry with the name, or nowhere.
pub proof fn name_index_spec(es: Seq<(Seq<char>, Value)>, name: Seq<char>)
    ensures
        -1 <= name_index(es, name) < es.len(),
        name_index(es, name) >= 0 ==> es[name_index(es, name)].0 == name,
        forall|j: int| name_index(es, name) < j < es.len() ==> es[j].0 != name,
    decreases es.len(),
{
    if es.len() > 0 && es.last().0 != name {
        name_index_spec(es.drop_last(), name);
        assert forall|j: int| name_index(es, name) < j < es.len() implies es[j].0 != name by {
            if j < es.len() - 1 {
                assert(es[j] == es.drop_last()[j]);
            }
        }
        if name_index(es, name) >= 0 {
            assert(es[name_index(es, name)] == es.drop_last()[name_index(es, name)]);
        }
    }
}

/// An entry with the name that no later entry has is where `name_index` points.
pub proof fn name_index_at(es: Seq<(Seq<char>, Value)>, name: Seq<char>, k: int)
    requires
        -1 <= k < es.len(),
        k >= 0 ==> es[k].0 == name,
        forall|j: int| k < j < es.len() ==> es[j].0 != name,
    ensures
        name_index(es, name) == k,
    decreases es.len(),
{
    if es.len() > 0 && k < es.len() - 1 {
        assert forall|j: int| k < j < es.drop_last().len() implies es.drop_last()[j].0 != name by {
            assert(es.drop_last()[j] == es[j]);
        }
        if k >= 0 {
            assert(es.drop_last()[k] == es[k]);
        }
        name_index_at(es.drop_last(), name, k);
    }
}

/// A name is bound in the session exactly when some entry has it.
pub proof fn lookup_some(es: Seq<(Seq<char>, Value)>, name: Seq<char>)
    ensures
        lookup(es, name) is Some <==> exists|k: int| 0 <= k < es.len() && (#[trigger] es[k]).0 == name,
{
    name_index_spec(es, name);
    if name_index(es, name) >= 0 {
        let k = name_index(es, name);
        assert(es[k].0 == name);
    }
}

/// Relies on IndexMap::new: the map starts empty.
#[verifier::external_body]
pub(crate) fn map_new() -> (r: IndexMap<String, Value>)
    ensures
        session_entries(r) == Seq::<(Seq<char>, Value)>::empty(),
{
    IndexMap::new()
}

/// Relies on IndexMap::len: the number of entries.
#[verifier::external_body]
pub(crate) fn map_len(m: &IndexMap<String, Value>) -> (r: usize)
    ensures
        r == session_entries(*m).len(),
{
    m.len()
}

/// Relies on IndexMap::get_index: the entry at a position in insertion order.
#[verifier::external_body]
pub(crate) fn map_entry(m: &IndexMap<String, Value>, i: usize) -> (r: (&String, &Value))
    requires
        i < session_entries(*m).len(),
    ensures
        r.0@ == session_entries(*m)[i as int].0,
        *r.1 == session_entries(*m)[i as int].1,
{
    m.get_index(i).unwrap()
}

/// Relies on IndexMap::get: the value stored under a name.
#[verifier::external_body]
pub(crate) fn map_get<'a>(m: &'a IndexMap<String, Value>, name: &String) -> (r: Option<&'a Value>)
    ensures
        r is Some <==> lookup(session_entries(*m), name@) is Some,
        r matches Some(v) ==> lookup(session_entries(*m), name@) == Some(*v),
{
    m.get(name)
}

/// Relies on IndexMap::insert: a present name keeps its place and takes the
/// new value, a new one is appended.
#[verifier::external_body]
pub(crate) fn map_insert(m: &mut IndexMap<String, Value>, name: String, v: Value)
    ensures
        session_entries(*final(m)) == bind(session_entries(*old(m)), name@, v),
        unique_names(session_entries(*final(m))),
{
    m.insert(name, v);
}

/// Relies on IndexMap::shift_remove: the entry goes, the rest keep their order.
#[verifier::external_body]
pub(crate) fn map_remove(m: &mut IndexMap<String, Value>, name: &String)
    ensures
        session_entries(*final(m)) == unbind(session_entries(*old(m)), name@),
        unique_names(session_entries(*final(m))),
{
    m.shift_remove(name);
}

} // verus!
