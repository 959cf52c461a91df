use vstd::prelude::*;
use crate::text::{chars_of, string_of};
use crate::value::str_eq;

verus! {

/// The names in `v`, as character sequences.
pub open spec fn names(v: Seq<String>) -> Seq<Seq<char>> {
    v.map_values(|s: String| s@)
}

/// The host names of the entries of a store, in order.
pub open spec fn hosts(entries: Seq<(String, Vec<String>)>) -> Seq<Seq<char>> {
    entries.map_values(|e: (String, Vec<String>)| e.0@)
}

/// No host occurs twice, and no service occurs twice under one host.
pub open spec fn store_wf(entries: Seq<(String, Vec<String>)>) -> bool {
    &&& hosts(entries).no_duplicates()
    &&& forall|i: int| 0 <= i < entries.len() ==> names(#[trigger] entries[i].1@).no_duplicates()
}

/// The index of the entry of the host `host`.
pub open spec fn host_index(entries: Seq<(String, Vec<String>)>, host: Seq<char>) -> int {
    choose|i: int| 0 <= i < entries.len() && entries[i].0@ == host
}

/// The known objects: each known host with the set of its known services.
pub open spec fn store_map(entries: Seq<(String, Vec<String>)>) -> Map<Seq<char>, Set<Seq<char>>> {
    Map::new(
        |h: Seq<char>| hosts(entries).contains(h),
        |h: Seq<char>| names(entries[host_index(entries, h)].1@).to_set(),
    )
}

/// The part of `name` before the first `c`, and the part after it if `c` occurs.
pub open spec fn split_on(name: Seq<char>, c: char) -> (Seq<char>, Option<Seq<char>>) {
    if name.contains(c) {
        let pos = choose|i: int| 0 <= i < name.len() && name[i] == c && forall|k: int| 0 <= k < i ==> name[k] != c;
        (name.subrange(0, pos), Some(name.subrange(pos + 1, name.len() as int)))
    } else {
        (name, None)
    }
}

/// The host part of an object name, before the first `!`, and the service part after it, if
/// there is a `!`.
pub open spec fn split_name(name: Seq<char>) -> (Seq<char>, Option<Seq<char>>) {
    split_on(name, '!')
}

/// Whether the object named `name` is known: the host, or the service of the host.
pub open spec fn object_known(m: Map<Seq<char>, Set<Seq<char>>>, name: Seq<char>) -> bool {
    match split_name(name).1 {
        None => m.contains_key(split_name(name).0),
        Some(service) => m.contains_key(split_name(name).0) && m[split_name(name).0].contains(service),
    }
}

/// The known objects after `name` became known: its host, and its service if it names one.
pub open spec fn after_insert(m: Map<Seq<char>, Set<Seq<char>>>, name: Seq<char>) -> Map<Seq<char>, Set<Seq<char>>> {
    let host = split_name(name).0;
    let services = if m.contains_key(host) {
        m[host]
    } else {
        Set::empty()
    };
    match split_name(name).1 {
        None => m.insert(host, services),
        Some(service) => m.insert(host, services.insert(service)),
    }
}

/// The known objects after `name` was deleted: a host with all its services, or one service of
/// a host.
pub open spec fn after_delete(m: Map<Seq<char>, Set<Seq<char>>>, name: Seq<char>) -> Map<Seq<char>, Set<Seq<char>>> {
    let host = split_name(name).0;
    match split_name(name).1 {
        None => m.remove(host),
        Some(service) => if m.contains_key(host) {
            m.insert(host, m[host].remove(service))
        } else {
            m
        },
    }
}

/// The objects that an icinga2 instance has announced: hosts, and services of those hosts.
pub struct IcingaObjectStore {
    store: Vec<(String, Vec<String>)>,
}

impl View for IcingaObjectStore {
    type V = Map<Seq<char>, Set<Seq<char>>>;

    closed spec fn view(&self) -> Map<Seq<char>, Set<Seq<char>>> {
        store_map(self.store@)
    }
}

/// The part of `name` before the first `split`, and the part after it if `split` occurs.
pub fn split_once_on(name: &str, split: char) -> (res: (String, Option<String>))
    ensures
        res.0@ == split_on(name@, split).0,
        match split_on(name@, split).1 {
            Some(s) => res.1 is Some && res.1->0@ == s,
            None => res.1 is None,
        },
{
    let cs = chars_of(name);
    let mut i: usize = 0;
    while i < cs.len()
        invariant
            i <= cs.len(),
            cs@ == name@,
            forall|k: int| 0 <= k < i ==> cs@[k] != split,
        decreases cs.len() - i,
    {
        if cs[i] == split {
            let mut head: Vec<char> = Vec::new();
            let mut tail: Vec<char> = Vec::new();
            let mut k: usize = 0;
            while k < i
                invariant
                    k <= i,
                    i < cs.len(),
                    head@ == cs@.subrange(0, k as int),
                decreases i - k,
            {
                head.push(cs[k]);
                assert(cs@.subrange(0, k + 1) =~= cs@.subrange(0, k as int).push(cs@[k as int]));
                k = k + 1;
            }
            let mut k: usize = i + 1;
            while k < cs.len()
                invariant
                    i + 1 <= k <= cs.len(),
                    tail@ == cs@.subrange(i + 1, k as int),
                decreases cs.len() - k,
            {
                tail.push(cs[k]);
                assert(cs@.subrange(i + 1, k + 1) =~= cs@.subrange(i + 1, k as int).push(cs@[k as int]));
                k = k + 1;
            }
            proof {
                assert(name@.contains(split)) by {
                    assert(name@[i as int] == split);
                }
                let pos = choose|p: int| 0 <= p < name@.len() && name@[p] == split && forall|q: int| 0 <= q < p ==> name@[q] != split;
                assert(pos == i) by {
                    if pos < i {
                        assert(cs@[pos] != split);
                    }
                    if pos > i {
                        assert(name@[i as int] != split);
                    }
                }
            }
            return (string_of(&head), Some(string_of(&tail)));
        }
        i = i + 1;
    }
    proof {
        assert(!name@.contains(split));
    }
    (string_of(&cs), None)
}

/// The index of the first entry of the host `host`.
fn find_host(entries: &Vec<(String, Vec<String>)>, host: &str) -> (res: Option<usize>)
    requires
        store_wf(entries@),
    ensures
        match res {
            Some(i) => i < entries@.len() && entries@[i as int].0@ == host@ && host_index(entries@, host@) == i
                && hosts(entries@).contains(host@),
            None => !hosts(entries@).contains(host@),
        },
{
    let mut i: usize = 0;
    while i < entries.len()
        invariant
            i <= entries@.len(),
            store_wf(entries@),
            forall|k: int| 0 <= k < i ==> entries@[k].0@ != host@,
        decreases entries.len() - i,
    {
        if str_eq(entries[i].0.as_str(), host) {
            proof {
                let j = host_index(entries@, host@);
                assert(hosts(entries@)[i as int] == host@);
                assert(0 <= j < entries@.len() && entries@[j].0@ == host@);
                assert(hosts(entries@)[j] == host@);
                assert(hosts(entries@).contains(host@));
            }
            return Some(i);
        }
        i = i + 1;
    }
    proof {
        if hosts(entries@).contains(host@) {
            let j = choose|j: int| 0 <= j < hosts(entries@).len() && hosts(entries@)[j] == host@;
            assert(entries@[j].0@ == host@);
        }
    }
    None
}

/// The index of `name` in `names`.
fn find_name(v: &Vec<String>, name: &str) -> (res: Option<usize>)
    ensures
        match res {
            Some(i) => i < v@.len() && v@[i as int]@ == name@,
            None => !names(v@).contains(name@),
        },
{
    let mut i: usize = 0;
    while i < v.len()
        invariant
            i <= v@.len(),
            forall|k: int| 0 <= k < i ==> v@[k]@ != name@,
        decreases v.len() - i,
    {
        if str_eq(v[i].as_str(), name) {
            return Some(i);
        }
        i = i + 1;
    }
    proof {
        if names(v@).contains(name@) {
            let j = choose|j: int| 0 <= j < names(v@).len() && names(v@)[j] == name@;
            assert(v@[j]@ == name@);
        }
    }
    None
}


proof fn lemma_host_index_unique(es: Seq<(String, Vec<String>)>, k: Seq<char>, i: int)
    requires
        hosts(es).no_duplicates(),
        0 <= i < es.len(),
        es[i].0@ == k,
    ensures
        host_index(es, k) == i,
{
    let j = host_index(es, k);
    assert(0 <= j < es.len() && es[j].0@ == k);
    assert(hosts(es)[i] == k && hosts(es)[j] == k);
}

proof fn lemma_store_push(es: Seq<(String, Vec<String>)>, e: (String, Vec<String>))
    requires
        store_wf(es),
        !hosts(es).contains(e.0@),
        names(e.1@).no_duplicates(),
    ensures
        store_wf(es.push(e)),
        store_map(es.push(e)) == store_map(es).insert(e.0@, names(e.1@).to_set()),
{
    let n = es.push(e);
    assert(hosts(n) =~= hosts(es).push(e.0@));
    assert forall|i: int, j: int| 0 <= i < hosts(n).len() && 0 <= j < hosts(n).len() && i != j implies hosts(n)[i] != hosts(n)[j] by {
        if i < es.len() && j < es.len() {
            assert(hosts(es)[i] != hosts(es)[j]);
        } else if i < es.len() {
            assert(hosts(es)[i] == hosts(n)[i]);
        } else {
            assert(hosts(es)[j] == hosts(n)[j]);
        }
    }
    assert forall|i: int| 0 <= i < n.len() implies names(#[trigger] n[i].1@).no_duplicates() by {
        if i < es.len() {
            assert(n[i] == es[i]);
        }
    }
    let m = store_map(es).insert(e.0@, names(e.1@).to_set());
    assert forall|k: Seq<char>| #[trigger] store_map(n).contains_key(k) == m.contains_key(k) by {
        if hosts(es).contains(k) {
            let i = choose|i: int| 0 <= i < hosts(es).len() && hosts(es)[i] == k;
            assert(hosts(n)[i] == k);
        }
        if hosts(n).contains(k) && k != e.0@ {
            let i = choose|i: int| 0 <= i < hosts(n).len() && hosts(n)[i] == k;
            assert(i < es.len());
            assert(hosts(es)[i] == k);
        }
        assert(hosts(n)[es.len() as int] == e.0@);
    }
    assert forall|k: Seq<char>| store_map(n).contains_key(k) implies #[trigger] store_map(n)[k] == m[k] by {
        if k == e.0@ {
            lemma_host_index_unique(n, k, es.len() as int);
        } else {
            let i = choose|i: int| 0 <= i < hosts(n).len() && hosts(n)[i] == k;
            assert(i < es.len());
            lemma_host_index_unique(n, k, i);
            lemma_host_index_unique(es, k, i);
        }
    }
    assert(store_map(n) =~= m);
}

proof fn lemma_store_update(es: Seq<(String, Vec<String>)>, i: int, e: (String, Vec<String>))
    requires
        store_wf(es),
        0 <= i < es.len(),
        es[i].0@ == e.0@,
        names(e.1@).no_duplicates(),
    ensures
        store_wf(es.update(i, e)),
        store_map(es.update(i, e)) == store_map(es).insert(e.0@, names(e.1@).to_set()),
{
    let n = es.update(i, e);
    assert(hosts(n) =~= hosts(es));
    assert forall|j: int| 0 <= j < n.len() implies names(#[trigger] n[j].1@).no_duplicates() by {
        if j != i {
            assert(n[j] == es[j]);
        }
    }
    let m = store_map(es).insert(e.0@, names(e.1@).to_set());
    assert(hosts(es)[i] == e.0@);
    assert forall|k: Seq<char>| store_map(n).contains_key(k) implies #[trigger] store_map(n)[k] == m[k] by {
        let j = choose|j: int| 0 <= j < hosts(n).len() && hosts(n)[j] == k;
        lemma_host_index_unique(n, k, j);
        lemma_host_index_unique(es, k, j);
    }
    assert(store_map(n) =~= m);
}

proof fn lemma_store_remove(es: Seq<(String, Vec<String>)>, i: int)
    requires
        store_wf(es),
        0 <= i < es.len(),
    ensures
        store_wf(es.remove(i)),
        store_map(es.remove(i)) == store_map(es).remove(es[i].0@),
{
    let n = es.remove(i);
    let h = es[i].0@;
    assert(hosts(n) =~= hosts(es).remove(i));
    assert forall|a: int, b: int| 0 <= a < hosts(n).len() && 0 <= b < hosts(n).len() && a != b implies hosts(n)[a] != hosts(n)[b] by {
        let a2 = if a < i { a } else { a + 1 };
        let b2 = if b < i { b } else { b + 1 };
        assert(hosts(n)[a] == hosts(es)[a2]);
        assert(hosts(n)[b] == hosts(es)[b2]);
    }
    assert forall|j: int| 0 <= j < n.len() implies names(#[trigger] n[j].1@).no_duplicates() by {
        let j2 = if j < i { j } else { j + 1 };
        assert(n[j] == es[j2]);
    }
    let m = store_map(es).remove(h);
    assert forall|k: Seq<char>| #[trigger] store_map(n).contains_key(k) == m.contains_key(k) by {
        if hosts(n).contains(k) {
            let j = choose|j: int| 0 <= j < hosts(n).len() && hosts(n)[j] == k;
            let j2 = if j < i { j } else { j + 1 };
            assert(hosts(es)[j2] == k);
            assert(j2 != i);
            assert(hosts(es)[i] == h);
        }
        if hosts(es).contains(k) && k != h {
            let j = choose|j: int| 0 <= j < hosts(es).len() && hosts(es)[j] == k;
            assert(j != i);
            let j1 = if j < i { j } else { j - 1 };
            assert(hosts(n)[j1] == k);
        }
    }
    assert forall|k: Seq<char>| store_map(n).contains_key(k) implies #[trigger] store_map(n)[k] == m[k] by {
        let j = choose|j: int| 0 <= j < hosts(n).len() && hosts(n)[j] == k;
        let j2 = if j < i { j } else { j + 1 };
        lemma_host_index_unique(n, k, j);
        lemma_host_index_unique(es, k, j2);
    }
    assert(store_map(n) =~= m);
}

proof fn lemma_names_push(v: Seq<String>, s: String)
    requires
        names(v).no_duplicates(),
        !names(v).contains(s@),
    ensures
        names(v.push(s)).no_duplicates(),
        names(v.push(s)).to_set() == names(v).to_set().insert(s@),
{
    assert(names(v.push(s)) =~= names(v).push(s@));
    assert forall|i: int, j: int| 0 <= i < names(v.push(s)).len() && 0 <= j < names(v.push(s)).len() && i != j implies names(v.push(s))[i] != names(v.push(s))[j] by {
        if i < v.len() && j < v.len() {
            assert(names(v)[i] != names(v)[j]);
        } else if i < v.len() {
            assert(names(v)[i] == names(v.push(s))[i]);
        } else {
            assert(names(v)[j] == names(v.push(s))[j]);
        }
    }
    assert forall|x: Seq<char>| #[trigger] names(v.push(s)).to_set().contains(x) == names(v).to_set().insert(s@).contains(x) by {
        if names(v).contains(x) {
            let k = choose|k: int| 0 <= k < names(v).len() && names(v)[k] == x;
            assert(names(v.push(s))[k] == x);
        }
        if names(v.push(s)).contains(x) && x != s@ {
            let k = choose|k: int| 0 <= k < names(v.push(s)).len() && names(v.push(s))[k] == x;
            assert(names(v)[k] == x);
        }
        assert(names(v.push(s))[v.len() as int] == s@);
    }
    assert(names(v.push(s)).to_set() =~= names(v).to_set().insert(s@));
}

proof fn lemma_names_remove(v: Seq<String>, p: int)
    requires
        names(v).no_duplicates(),
        0 <= p < v.len(),
    ensures
        names(v.remove(p)).no_duplicates(),
        names(v.remove(p)).to_set() == names(v).to_set().remove(v[p]@),
{
    let n = v.remove(p);
    assert(names(n) =~= names(v).remove(p));
    assert forall|a: int, b: int| 0 <= a < names(n).len() && 0 <= b < names(n).len() && a != b implies names(n)[a] != names(n)[b] by {
        let a2 = if a < p { a } else { a + 1 };
        let b2 = if b < p { b } else { b + 1 };
        assert(names(n)[a] == names(v)[a2]);
        assert(names(n)[b] == names(v)[b2]);
    }
    assert forall|x: Seq<char>| #[trigger] names(n).to_set().contains(x) == names(v).to_set().remove(v[p]@).contains(x) by {
        if names(n).contains(x) {
            let k = choose|k: int| 0 <= k < names(n).len() && names(n)[k] == x;
            let k2 = if k < p { k } else { k + 1 };
            assert(names(v)[k2] == x);
            assert(k2 != p);
            assert(names(v)[p] == v[p]@);
        }
        if names(v).contains(x) && x != v[p]@ {
            let k = choose|k: int| 0 <= k < names(v).len() && names(v)[k] == x;
            assert(k != p);
            let k1 = if k < p { k } else { k - 1 };
            assert(names(n)[k1] == x);
        }
    }
    assert(names(n).to_set() =~= names(v).to_set().remove(v[p]@));
}

impl IcingaObjectStore {
    #[verifier::type_invariant]
    spec fn well_formed(self) -> bool {
        store_wf(self.store@)
    }

    /// A store that knows no object.
    pub fn new() -> (res: IcingaObjectStore)
        ensures
            res@ == Map::<Seq<char>, Set<Seq<char>>>::empty(),
    {
        let res = IcingaObjectStore { store: Vec::new() };
        assert(res@ =~= Map::<Seq<char>, Set<Seq<char>>>::empty());
        res
    }

    /// Whether the object named `name` is known: a host, or `<host>!<service>` for a service of
    /// a host.
    pub fn exists_object(&self, name: &str) -> (res: bool)
        ensures
            res == object_known(self@, name@),
    {
        proof {
            use_type_invariant(self);
        }
        let (host, service) = split_once_on(name, '!');
        match find_host(&self.store, host.as_str()) {
            None => false,
            Some(i) => match service {
                None => true,
                Some(service) => {
                    let found = find_name(&self.store[i].1, service.as_str());
                    proof {
                        let set = names(self.store@[i as int].1@).to_set();
                        assert(self@.contains_key(host@));
                        assert(self@[host@] == set);
                        if let Some(j) = found {
                            assert(names(self.store@[i as int].1@)[j as int] == service@);
                        }
                    }
                    found.is_some()
                },
            },
        }
    }

    /// Whether the host `host` is known. The service name does not take part.
    pub fn exists_service(&self, host: &str, service: &str) -> (res: bool)
        ensures
            res == self@.contains_key(host@),
    {
        proof {
            use_type_invariant(self);
        }
        find_host(&self.store, host).is_some()
    }

    /// Records that the object named `name` exists: its host, and the service if `name` is
    /// `<host>!<service>`.
    pub fn insert(&mut self, name: String)
        ensures
            final(self)@ == after_insert(old(self)@, name@),
    {
        proof {
            use_type_invariant(&*self);
        }
        let (host, service) = split_once_on(name.as_str(), '!');
        let mut store: Vec<(String, Vec<String>)> = Vec::new();
        std::mem::swap(&mut store, &mut self.store);
        let ghost old_map = store_map(store@);
        match find_host(&store, host.as_str()) {
            None => {
                let mut services: Vec<String> = Vec::new();
                let ghost h = host@;
                match service {
                    Some(s) => {
                        proof {
                            lemma_names_push(services@, s);
                            assert(names(services@) =~= Seq::<Seq<char>>::empty());
                            assert(names(services@).to_set() =~= Set::<Seq<char>>::empty());
                        }
                        services.push(s);
                    },
                    None => {
                        assert(names(services@).to_set() =~= Set::<Seq<char>>::empty());
                    },
                }
                proof {
                    lemma_store_push(store@, (host, services));
                }
                store.push((host, services));
            },
            Some(i) => {
                if let Some(s) = service {
                    let found = find_name(&store[i].1, s.as_str());
                    if found.is_none() {
                        let ghost before = store@;
                        let mut entry = store.remove(i);
                        proof {
                            assert(entry == before[i as int]);
                            lemma_names_push(entry.1@, s);
                        }
                        entry.1.push(s);
                        proof {
                            lemma_store_update(before, i as int, entry);
                            assert(before.remove(i as int).insert(i as int, entry) =~= before.update(i as int, entry));
                        }
                        store.insert(i, entry);
                    } else {
                        proof {
                            let set = names(store@[i as int].1@).to_set();
                            assert(old_map[host@] == set);
                            let p = found->0;
                            assert(names(store@[i as int].1@)[p as int] == s@);
                            assert(set.contains(s@));
                            assert(set.insert(s@) =~= set);
                            assert(old_map.insert(host@, set) =~= old_map);
                        }
                    }
                } else {
                    proof {
                        assert(old_map.contains_key(host@));
                        assert(old_map.insert(host@, old_map[host@]) =~= old_map);
                    }
                }
            },
        }
        self.store = store;
    }

    /// Forgets the object named `name`: a host with all its services, or one service of a
    /// host when `name` is `<host>!<service>`.
    pub fn delete(&mut self, name: &str)
        ensures
            final(self)@ == after_delete(old(self)@, name@),
    {
        proof {
            use_type_invariant(&*self);
        }
        let (host, service) = split_once_on(name, '!');
        let mut store: Vec<(String, Vec<String>)> = Vec::new();
        std::mem::swap(&mut store, &mut self.store);
        let ghost old_map = store_map(store@);
        match service {
            None => {
                match find_host(&store, host.as_str()) {
                    Some(i) => {
                        proof {
                            lemma_store_remove(store@, i as int);
                        }
                        store.remove(i);
                    },
                    None => {
                        assert(old_map.remove(host@) =~= old_map);
                    },
                }
            },
            Some(s) => {
                match find_host(&store, host.as_str()) {
                    Some(i) => {
                        match find_name(&store[i].1, s.as_str()) {
                            Some(p) => {
                                let ghost before = store@;
                                let mut entry = store.remove(i);
                                proof {
                                    assert(entry == before[i as int]);
                                    lemma_names_remove(entry.1@, p as int);
                                }
                                entry.1.remove(p);
                                proof {
                                    lemma_store_update(before, i as int, entry);
                                    assert(before.remove(i as int).insert(i as int, entry) =~= before.update(i as int, entry));
                                }
                                store.insert(i, entry);
                            },
                            None => {
                                proof {
                                    let set = names(store@[i as int].1@).to_set();
                                    assert(old_map[host@] == set);
                                    assert(set.remove(s@) =~= set);
                                    assert(old_map.insert(host@, set) =~= old_map);
                                }
                            },
                        }
                    },
                    None => {},
                }
            },
        }
        self.store = store;
    }
}

} // verus!

verus! {

proof fn lemma_first_exists(s: Seq<char>, c: char)
    requires
        s.contains(c),
    ensures
        exists|i: int| 0 <= i < s.len() && s[i] == c && forall|k: int| 0 <= k < i ==> s[k] != c,
    decreases s.len(),
{
    if s[0] != c {
        let j = choose|j: int| 0 <= j < s.len() && s[j] == c;
        assert(s.drop_first()[j - 1] == c);
        lemma_first_exists(s.drop_first(), c);
        let i = choose|i: int| 0 <= i < s.drop_first().len() && s.drop_first()[i] == c && forall|k: int| 0 <= k < i ==> s.drop_first()[k] != c;
        assert(s[i + 1] == c);
        assert forall|k: int| 0 <= k < i + 1 implies s[k] != c by {
            if k > 0 {
                assert(s[k] == s.drop_first()[k - 1]);
            }
        }
    } else {
        assert(s[0] == c);
    }
}

proof fn lemma_split_host_plain(name: Seq<char>)
    ensures
        !split_name(name).0.contains('!'),
        split_name(split_name(name).0) == (split_name(name).0, Option::<Seq<char>>::None),
{
    if name.contains('!') {
        lemma_first_exists(name, '!');
        let pos = choose|i: int| 0 <= i < name.len() && name[i] == '!' && forall|k: int| 0 <= k < i ==> name[k] != '!';
        let h = name.subrange(0, pos);
        assert forall|i: int| 0 <= i < h.len() implies h[i] != '!' by {
            assert(h[i] == name[i]);
        }
    }
}

proof fn lemma_split_joined(host: Seq<char>, service: Seq<char>)
    requires
        !host.contains('!'),
    ensures
        split_name(host + seq!['!'] + service) == (host, Some(service)),
{
    let name = host + seq!['!'] + service;
    assert(name[host.len() as int] == '!');
    assert(name.contains('!'));
    lemma_first_exists(name, '!');
    let pos = choose|i: int| 0 <= i < name.len() && name[i] == '!' && forall|k: int| 0 <= k < i ==> name[k] != '!';
    assert(pos == host.len()) by {
        if pos < host.len() {
            assert(name[pos] == host[pos]);
        }
        if pos > host.len() {
            assert(name[host.len() as int] == '!');
        }
    }
    assert(name.subrange(0, pos) =~= host);
    assert(name.subrange(pos + 1, name.len() as int) =~= service);
}

/// Once an object is recorded, it is known.
pub proof fn law_inserted_object_is_known(m: Map<Seq<char>, Set<Seq<char>>>, name: Seq<char>)
    ensures
        object_known(after_insert(m, name), name),
{
}

/// Recording a service also makes its host known.
pub proof fn law_inserted_object_host_is_known(m: Map<Seq<char>, Set<Seq<char>>>, name: Seq<char>)
    ensures
        object_known(after_insert(m, name), split_name(name).0),
{
    lemma_split_host_plain(name);
}

/// Recording an object twice is the same as recording it once.
pub proof fn law_insert_is_idempotent(m: Map<Seq<char>, Set<Seq<char>>>, name: Seq<char>)
    ensures
        after_insert(after_insert(m, name), name) == after_insert(m, name),
{
    let once = after_insert(m, name);
    let host = split_name(name).0;
    match split_name(name).1 {
        None => {
            assert(once.insert(host, once[host]) =~= once);
        },
        Some(service) => {
            assert(once[host].insert(service) =~= once[host]);
            assert(once.insert(host, once[host]) =~= once);
        },
    }
}

/// Once an object is deleted, it is no longer known.
pub proof fn law_deleted_object_is_unknown(m: Map<Seq<char>, Set<Seq<char>>>, name: Seq<char>)
    ensures
        !object_known(after_delete(m, name), name),
{
}

/// Deleting a host forgets all of its services.
pub proof fn law_deleted_host_forgets_services(
    m: Map<Seq<char>, Set<Seq<char>>>,
    host: Seq<char>,
    service: Seq<char>,
)
    requires
        !host.contains('!'),
    ensures
        !object_known(after_delete(m, host), host + seq!['!'] + service),
{
    lemma_split_joined(host, service);
}

/// Recording or deleting an object leaves what is known of the objects of other hosts as it
/// was.
pub proof fn law_other_hosts_unchanged(m: Map<Seq<char>, Set<Seq<char>>>, name: Seq<char>, other: Seq<char>)
    requires
        split_name(other).0 != split_name(name).0,
    ensures
        object_known(after_insert(m, name), other) == object_known(m, other),
        object_known(after_delete(m, name), other) == object_known(m, other),
{
}

/// Deleting one service of a host leaves the host and its other services known.
pub proof fn law_deleted_service_keeps_host(
    m: Map<Seq<char>, Set<Seq<char>>>,
    host: Seq<char>,
    service: Seq<char>,
    other: Seq<char>,
)
    requires
        !host.contains('!'),
        other != service,
    ensures
        object_known(after_delete(m, host + seq!['!'] + service), host) == object_known(m, host),
        object_known(after_delete(m, host + seq!['!'] + service), host + seq!['!'] + other)
            == object_known(m, host + seq!['!'] + other),
{
    lemma_split_joined(host, service);
    lemma_split_joined(host, other);
    lemma_split_host_plain(host);
    assert(split_name(host).0 == host) by {
        assert(!host.contains('!'));
    }
}

/// Recording an object never forgets another: every object known before stays known, every
/// known host stays known, and the services known of a host only grow.
pub proof fn law_insert_keeps_known_objects(m: Map<Seq<char>, Set<Seq<char>>>, name: Seq<char>, other: Seq<char>)
    ensures
        object_known(m, other) ==> object_known(after_insert(m, name), other),
        forall|h: Seq<char>| #[trigger] m.contains_key(h) ==> after_insert(m, name).contains_key(h)
            && m[h].subset_of(after_insert(m, name)[h]),
{
    let after = after_insert(m, name);
    let host = split_name(name).0;
    assert forall|h: Seq<char>| #[trigger] m.contains_key(h) implies after.contains_key(h) && m[h].subset_of(after[h]) by {
        if h == host {
            match split_name(name).1 {
                None => {},
                Some(service) => {
                    assert(m[h].subset_of(m[h].insert(service)));
                },
            }
        }
    }
    if object_known(m, other) {
        let oh = split_name(other).0;
        assert(m.contains_key(oh));
        assert(after.contains_key(oh) && m[oh].subset_of(after[oh]));
    }
}

} // verus!
