//! Name-keyed tables: a list of `(name, item)` entries in which each name
//! occurs at most once, read and written as a map from names to items.
use vstd::prelude::*;
use vstd::string::StrSliceExecFns;

verus! {

/// The first index at or after `i` whose entry is named `k`, or `-1`.
pub open spec fn find_from<T>(s: Seq<(String, T)>, k: Seq<char>, i: int) -> int
    decreases s.len() - i,
{
    if i < 0 || i >= s.len() {
        -1
    } else if s[i].0@ == k {
        i
    } else {
        find_from(s, k, i + 1)
    }
}

/// The index of the entry named `k`, or `-1` when there is none.
pub open spec fn find_key<T>(s: Seq<(String, T)>, k: Seq<char>) -> int {
    find_from(s, k, 0)
}

/// The item named `k`, if any.
pub open spec fn lookup<T>(s: Seq<(String, T)>, k: Seq<char>) -> Option<T> {
    let i = find_key(s, k);
    if i >= 0 {
        Some(s[i].1)
    } else {
        None
    }
}

/// The table after binding `key` to `v`: an entry of that name keeps its place
/// and takes the new item, otherwise the entry is added at the end.
pub open spec fn insert_entry<T>(s: Seq<(String, T)>, key: String, v: T) -> Seq<(String, T)> {
    let i = find_key(s, key@);
    if i >= 0 {
        s.update(i, (s[i].0, v))
    } else {
        s.push((key, v))
    }
}

/// The table after binding each entry of `t` in turn.
pub open spec fn extend_entries<T>(s: Seq<(String, T)>, t: Seq<(String, T)>) -> Seq<(String, T)>
    decreases t.len(),
{
    if t.len() == 0 {
        s
    } else {
        extend_entries(insert_entry(s, t[0].0, t[0].1), t.drop_first())
    }
}

/// No name occurs twice.
pub open spec fn names_unique<T>(s: Seq<(String, T)>) -> bool {
    forall|i: int, j: int| 0 <= i < j < s.len() ==> s[i].0@ != s[j].0@
}

pub proof fn lemma_find_from<T>(s: Seq<(String, T)>, k: Seq<char>, i: int)
    requires
        0 <= i,
    ensures
        find_from(s, k, i) == -1 || (i <= find_from(s, k, i) < s.len() && s[find_from(s, k, i)].0@ == k),
        forall|j: int| i <= j < s.len() && (find_from(s, k, i) == -1 || j < find_from(s, k, i))
            ==> s[j].0@ != k,
    decreases s.len() - i,
{
    if i < s.len() && s[i].0@ != k {
        lemma_find_from(s, k, i + 1);
    }
}

pub proof fn lemma_find_key<T>(s: Seq<(String, T)>, k: Seq<char>)
    ensures
        find_key(s, k) == -1 || (0 <= find_key(s, k) < s.len() && s[find_key(s, k)].0@ == k),
        forall|j: int| 0 <= j < s.len() && (find_key(s, k) == -1 || j < find_key(s, k)) ==> s[j].0@ != k,
        find_key(s, k) == -1 <==> forall|j: int| 0 <= j < s.len() ==> s[j].0@ != k,
{
    lemma_find_from(s, k, 0);
}

/// Two tables whose names agree on the first table's entries find a name at
/// the same place, when the first finds it or both have the same length.
pub proof fn lemma_find_prefix<T>(s: Seq<(String, T)>, t: Seq<(String, T)>, k: Seq<char>, i: int)
    requires
        0 <= i,
        s.len() <= t.len(),
        forall|m: int| 0 <= m < s.len() ==> #[trigger] t[m].0@ == s[m].0@,
        find_from(s, k, i) >= 0 || s.len() == t.len(),
    ensures
        find_from(t, k, i) == find_from(s, k, i),
    decreases s.len() - i,
{
    if i < s.len() && s[i].0@ != k {
        assert(t[i].0@ == s[i].0@);
        lemma_find_prefix(s, t, k, i + 1);
    } else if i < s.len() {
        assert(t[i].0@ == s[i].0@);
    }
}

/// A binding is read back, and it leaves the other names as they were.
pub proof fn lemma_lookup_insert<T>(s: Seq<(String, T)>, key: String, v: T, j: Seq<char>)
    ensures
        lookup(insert_entry(s, key, v), j) == if j == key@ { Some(v) } else { lookup(s, j) },
{
    let t = insert_entry(s, key, v);
    lemma_find_key(s, key@);
    lemma_find_key(s, j);
    let i = find_key(s, key@);
    if i >= 0 {
        assert(forall|m: int| 0 <= m < s.len() ==> #[trigger] t[m].0@ == s[m].0@);
        lemma_find_prefix(s, t, j, 0);
    } else {
        assert(forall|m: int| 0 <= m < s.len() ==> #[trigger] t[m].0@ == s[m].0@);
        if find_key(s, j) >= 0 {
            lemma_find_prefix(s, t, j, 0);
        } else {
            lemma_find_key(t, j);
            if j == key@ {
                assert(t[s.len() as int].0@ == j);
                assert(find_key(t, j) == s.len());
            } else {
                assert(find_key(t, j) == -1) by {
                    if find_key(t, j) >= 0 {
                        let f = find_key(t, j);
                        if f < s.len() {
                            assert(t[f].0@ == s[f].0@);
                        }
                    }
                }
            }
        }
    }
}

/// Binding a name keeps the names of the table unique.
pub proof fn lemma_insert_unique<T>(s: Seq<(String, T)>, key: String, v: T)
    requires
        names_unique(s),
    ensures
        names_unique(insert_entry(s, key, v)),
{
    lemma_find_key(s, key@);
    let t = insert_entry(s, key, v);
    if find_key(s, key@) >= 0 {
        assert(forall|m: int| 0 <= m < s.len() ==> #[trigger] t[m].0@ == s[m].0@);
    }
}

/// The position of the entry named `name`.
pub fn find_name<T>(s: &Vec<(String, T)>, name: &String) -> (r: Option<usize>)
    ensures
        match r {
            Some(i) => i as int == find_key(s@, name@),
            None => find_key(s@, name@) == -1,
        },
{
    let mut i: usize = 0;
    while i < s.len()
        invariant
            i <= s@.len(),
            find_key(s@, name@) == find_from(s@, name@, i as int),
        decreases s@.len() - i,
    {
        if s[i].0 == *name {
            return Some(i);
        }
        i = i + 1;
    }
    None
}

/// Whether an entry is named `name`.
pub fn contains_name<T>(s: &Vec<(String, T)>, name: &String) -> (r: bool)
    ensures
        r == (find_key(s@, name@) >= 0),
        r == lookup(s@, name@) is Some,
{
    match find_name(s, name) {
        Some(_) => true,
        None => false,
    }
}

/// The item named `name`, if any.
pub fn get_name<'a, T>(s: &'a Vec<(String, T)>, name: &String) -> (r: Option<&'a T>)
    ensures
        match r {
            Some(v) => lookup(s@, name@) == Some(*v),
            None => lookup(s@, name@) is None,
        },
{
    match find_name(s, name) {
        Some(i) => {
            proof {
                lemma_find_key(s@, name@);
            }
            Some(&s[i].1)
        },
        None => None,
    }
}

/// Binds `key` to `v`, as a map insertion does.
pub fn insert_name<T>(s: &mut Vec<(String, T)>, key: String, v: T)
    ensures
        final(s)@ == insert_entry(old(s)@, key, v),
{
    match find_name(s, &key) {
        Some(i) => {
            proof {
                lemma_find_key(old(s)@, key@);
            }
            let (k, _old) = s.remove(i);
            s.insert(i, (k, v));
            proof {
                assert(s@ =~= insert_entry(old(s)@, key, v));
            }
        },
        None => {
            s.push((key, v));
        },
    }
}

/// Binds each entry of `other` in turn, as extending a map does.
pub fn extend_names<T>(s: &mut Vec<(String, T)>, other: Vec<(String, T)>)
    ensures
        final(s)@ == extend_entries(old(s)@, other@),
{
    let mut rest = other;
    while rest.len() > 0
        invariant
            extend_entries(old(s)@, other@) == extend_entries(s@, rest@),
        decreases rest@.len(),
    {
        let ghost before = rest@;
        let (k, v) = rest.remove(0);
        proof {
            assert(rest@ =~= before.drop_first());
        }
        insert_name(s, k, v);
    }
}


/// The first index at or after `i` of a `.` in `s`, or `-1`.
pub open spec fn dot_from(s: Seq<char>, i: int) -> int
    decreases s.len() - i,
{
    if i < 0 || i >= s.len() {
        -1
    } else if s[i] == '.' {
        i
    } else {
        dot_from(s, i + 1)
    }
}

/// The index of the first `.` of a name, or `-1`.
pub open spec fn first_dot(s: Seq<char>) -> int {
    dot_from(s, 0)
}

/// What comes before the first `.` of a name.
pub open spec fn before_dot(s: Seq<char>) -> Seq<char> {
    s.subrange(0, first_dot(s))
}

/// What comes after the first `.` of a name.
pub open spec fn after_dot(s: Seq<char>) -> Seq<char> {
    s.subrange(first_dot(s) + 1, s.len() as int)
}

pub proof fn lemma_dot_from(s: Seq<char>, i: int)
    requires
        0 <= i,
    ensures
        dot_from(s, i) == -1 || (i <= dot_from(s, i) < s.len() && s[dot_from(s, i)] == '.'),
        dot_from(s, i) == -1 ==> forall|j: int| i <= j < s.len() ==> s[j] != '.',
    decreases s.len() - i,
{
    if i < s.len() && s[i] != '.' {
        lemma_dot_from(s, i + 1);
    }
}

/// Splits a dotted name at its first `.`: the name before it and the rest
/// after it, or `None` when the name has no `.`.
pub fn split_first_dot(name: &String) -> (r: Option<(String, String)>)
    ensures
        match r {
            Some((a, b)) => first_dot(name@) >= 0 && a@ == before_dot(name@) && b@ == after_dot(name@),
            None => first_dot(name@) == -1,
        },
{
    let st = name.as_str();
    let n = st.unicode_len();
    let mut i: usize = 0;
    while i < n
        invariant
            st@ == name@,
            n == name@.len(),
            i <= n,
            first_dot(name@) == dot_from(name@, i as int),
        decreases n - i,
    {
        if st.get_char(i) == '.' {
            let a = st.substring_char(0, i).to_owned();
            let b = st.substring_char(i + 1, n).to_owned();
            return Some((a, b));
        }
        i = i + 1;
    }
    None
}


/// The table without the entry named `k`.
pub open spec fn remove_entry<T>(s: Seq<(String, T)>, k: Seq<char>) -> Seq<(String, T)> {
    let i = find_key(s, k);
    if i >= 0 {
        s.remove(i)
    } else {
        s
    }
}

/// Removes the entry named `name`, if any.
pub fn remove_name<T>(s: &mut Vec<(String, T)>, name: &String)
    ensures
        final(s)@ == remove_entry(old(s)@, name@),
{
    match find_name(s, name) {
        Some(i) => {
            proof {
                lemma_find_key(old(s)@, name@);
            }
            let _ = s.remove(i);
        },
        None => {},
    }
}


/// The first index at or after `i` of a pair keyed `k`, or `-1`.
pub open spec fn kfind_from<V>(s: Seq<(Seq<char>, V)>, k: Seq<char>, i: int) -> int
    decreases s.len() - i,
{
    if i < 0 || i >= s.len() {
        -1
    } else if s[i].0 == k {
        i
    } else {
        kfind_from(s, k, i + 1)
    }
}

/// The index of the pair keyed `k`, or `-1`.
pub open spec fn kfind<V>(s: Seq<(Seq<char>, V)>, k: Seq<char>) -> int {
    kfind_from(s, k, 0)
}

/// The value keyed `k`, if any.
pub open spec fn klookup<V>(s: Seq<(Seq<char>, V)>, k: Seq<char>) -> Option<V> {
    let i = kfind(s, k);
    if i >= 0 {
        Some(s[i].1)
    } else {
        None
    }
}

/// The pairs after binding `k` to `v`; a present key keeps its place.
pub open spec fn kinsert<V>(s: Seq<(Seq<char>, V)>, k: Seq<char>, v: V) -> Seq<(Seq<char>, V)> {
    let i = kfind(s, k);
    if i >= 0 {
        s.update(i, (k, v))
    } else {
        s.push((k, v))
    }
}

/// The pairs after binding each pair of `t` in turn.
pub open spec fn kextend<V>(s: Seq<(Seq<char>, V)>, t: Seq<(Seq<char>, V)>) -> Seq<(Seq<char>, V)>
    decreases t.len(),
{
    if t.len() == 0 {
        s
    } else {
        kextend(kinsert(s, t[0].0, t[0].1), t.drop_first())
    }
}

/// The pairs without the one keyed `k`.
pub open spec fn kremove<V>(s: Seq<(Seq<char>, V)>, k: Seq<char>) -> Seq<(Seq<char>, V)> {
    let i = kfind(s, k);
    if i >= 0 {
        s.remove(i)
    } else {
        s
    }
}

/// The pairs that a table stands for, each item taken through `f`.
pub open spec fn kview<T, V>(s: Seq<(String, T)>, f: spec_fn(T) -> V) -> Seq<(Seq<char>, V)> {
    s.map_values(|e: (String, T)| (e.0@, f(e.1)))
}

pub proof fn lemma_kfind_from<T, V>(s: Seq<(String, T)>, f: spec_fn(T) -> V, k: Seq<char>, i: int)
    ensures
        kfind_from(kview(s, f), k, i) == find_from(s, k, i),
    decreases s.len() - i,
{
    if 0 <= i < s.len() {
        lemma_kfind_from(s, f, k, i + 1);
    }
}

/// Looking a name up in a table and in the pairs it stands for agree.
pub proof fn lemma_kfind<T, V>(s: Seq<(String, T)>, f: spec_fn(T) -> V, k: Seq<char>)
    ensures
        kfind(kview(s, f), k) == find_key(s, k),
        klookup(kview(s, f), k) == match lookup(s, k) {
            Some(v) => Some(f(v)),
            None => None::<V>,
        },
{
    lemma_kfind_from(s, f, k, 0);
    lemma_find_key(s, k);
}

/// Binding a name in a table binds it in the pairs it stands for.
pub proof fn lemma_kview_insert<T, V>(s: Seq<(String, T)>, f: spec_fn(T) -> V, key: String, v: T)
    ensures
        kview(insert_entry(s, key, v), f) == kinsert(kview(s, f), key@, f(v)),
{
    lemma_kfind(s, f, key@);
    lemma_find_key(s, key@);
    assert(kview(insert_entry(s, key, v), f) =~= kinsert(kview(s, f), key@, f(v)));
}

/// Extending a table extends the pairs it stands for.
pub proof fn lemma_kview_extend<T, V>(s: Seq<(String, T)>, f: spec_fn(T) -> V, t: Seq<(String, T)>)
    ensures
        kview(extend_entries(s, t), f) == kextend(kview(s, f), kview(t, f)),
    decreases t.len(),
{
    if t.len() > 0 {
        lemma_kview_insert(s, f, t[0].0, t[0].1);
        lemma_kview_extend(insert_entry(s, t[0].0, t[0].1), f, t.drop_first());
        assert(kview(t.drop_first(), f) =~= kview(t, f).drop_first());
    }
}

/// Removing a name from a table removes it from the pairs it stands for.
pub proof fn lemma_kview_remove<T, V>(s: Seq<(String, T)>, f: spec_fn(T) -> V, k: Seq<char>)
    ensures
        kview(remove_entry(s, k), f) == kremove(kview(s, f), k),
{
    lemma_kfind(s, f, k);
    lemma_find_key(s, k);
    assert(kview(remove_entry(s, k), f) =~= kremove(kview(s, f), k));
}

} // verus!
