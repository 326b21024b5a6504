//! Resolution of a user-class method call: the method a class answers
//! (its own or the nearest ancestor's), whether a receiver needs the
//! dynamic dispatch tower, and the tower's entries (each class id with the
//! method body it dispatches to).

use vstd::prelude::*;

use crate::class_layout::{find_class, find_class_exec, lemma_find_class, ClassInfo};
use crate::receiver_methods::name_chain_ends;
use crate::text::str_eq;

verus! {

/// The method body registered for `(class, method)` in the method table
/// (`(class, method, function)` entries), the first such entry.
pub open spec fn lookup_method(methods: Seq<(String, String, String)>, c: Seq<char>, p: Seq<char>) -> Option<Seq<char>>
    decreases methods.len(),
{
    if methods.len() == 0 {
        None
    } else if methods[0].0@ == c && methods[0].1@ == p {
        Some(methods[0].2@)
    } else {
        lookup_method(methods.drop_first(), c, p)
    }
}

/// The method body class `c` answers for `p`: its own, or else the
/// nearest ancestor's, walking `extends` through the known classes for at
/// most `fuel` steps.
pub open spec fn resolve_method_spec(
    classes: Seq<ClassInfo>,
    methods: Seq<(String, String, String)>,
    c: Seq<char>,
    p: Seq<char>,
    fuel: nat,
) -> Option<Seq<char>>
    decreases fuel,
{
    match lookup_method(methods, c, p) {
        Some(f) => Some(f),
        None => match find_class(classes, c) {
            Some(i) => match classes[i].extends {
                Some(e) => if fuel > 0 {
                    resolve_method_spec(classes, methods, e@, p, (fuel - 1) as nat)
                } else {
                    None
                },
                None => None,
            },
            None => None,
        },
    }
}

pub(crate) fn lookup_method_exec(methods: &Vec<(String, String, String)>, c: &str, p: &str) -> (res: Option<String>)
    ensures
        match res {
            Some(f) => lookup_method(methods@, c@, p@) == Some(f@),
            None => lookup_method(methods@, c@, p@) is None,
        },
{
    let mut k: usize = 0;
    assert(methods@.skip(0) =~= methods@);
    while k < methods.len()
        invariant
            k <= methods@.len(),
            lookup_method(methods@, c@, p@) == lookup_method(methods@.skip(k as int), c@, p@),
        decreases methods@.len() - k,
    {
        assert(methods@.skip(k as int).drop_first() =~= methods@.skip(k + 1));
        assert(methods@.skip(k as int)[0] == methods@[k as int]);
        if str_eq(methods[k].0.as_str(), c) && str_eq(methods[k].1.as_str(), p) {
            return Some(methods[k].2.clone());
        }
        k = k + 1;
    }
    None
}

fn resolve_method_from(
    classes: &Vec<ClassInfo>,
    methods: &Vec<(String, String, String)>,
    c: &str,
    p: &str,
    fuel: usize,
) -> (res: Option<String>)
    requires
        name_chain_ends(classes@, c@, fuel as nat),
    ensures
        match res {
            Some(f) => resolve_method_spec(classes@, methods@, c@, p@, fuel as nat) == Some(f@),
            None => resolve_method_spec(classes@, methods@, c@, p@, fuel as nat) is None,
        },
    decreases fuel,
{
    if let Some(f) = lookup_method_exec(methods, c, p) {
        return Some(f);
    }
    proof {
        lemma_find_class(classes@, c@);
    }
    match find_class_exec(classes, c) {
        Some(i) => match &classes[i].extends {
            Some(e) => if fuel > 0 {
                resolve_method_from(classes, methods, e.as_str(), p, fuel - 1)
            } else {
                None
            },
            None => None,
        },
        None => None,
    }
}

/// The method body class `c` answers for `p` (see `resolve_method_spec`,
/// with as many steps as there are classes).
pub fn resolve_method(classes: &Vec<ClassInfo>, methods: &Vec<(String, String, String)>, c: &str, p: &str) -> (res:
    Option<String>)
    requires
        name_chain_ends(classes@, c@, classes@.len()),
    ensures
        match res {
            Some(f) => resolve_method_spec(classes@, methods@, c@, p@, classes@.len()) == Some(f@),
            None => resolve_method_spec(classes@, methods@, c@, p@, classes@.len()) is None,
        },
{
    resolve_method_from(classes, methods, c, p, classes.len())
}

/// The built-in classes with a runtime method family of their own.
pub open spec fn is_builtin_receiver_class(n: Seq<char>) -> bool {
    n == "Buffer"@ || n == "Uint8Array"@ || n == "Uint8ClampedArray"@ || n == "Int8Array"@ || n == "Int16Array"@
        || n == "Uint16Array"@ || n == "Int32Array"@ || n == "Uint32Array"@ || n == "Float32Array"@
        || n == "Float64Array"@ || n == "BigInt64Array"@ || n == "BigUint64Array"@ || n == "Array"@
        || n == "ReadonlyArray"@ || n == "Map"@ || n == "ReadonlyMap"@ || n == "Set"@ || n == "ReadonlySet"@
        || n == "WeakMap"@ || n == "WeakSet"@ || n == "Promise"@ || n == "RegExp"@ || n == "Date"@
}

fn is_builtin_receiver_class_exec(n: &str) -> (res: bool)
    ensures
        res == is_builtin_receiver_class(n@),
{
    str_eq(n, "Buffer") || str_eq(n, "Uint8Array") || str_eq(n, "Uint8ClampedArray") || str_eq(n, "Int8Array")
        || str_eq(n, "Int16Array") || str_eq(n, "Uint16Array") || str_eq(n, "Int32Array") || str_eq(
        n,
        "Uint32Array",
    ) || str_eq(n, "Float32Array") || str_eq(n, "Float64Array") || str_eq(n, "BigInt64Array") || str_eq(
        n,
        "BigUint64Array",
    ) || str_eq(n, "Array") || str_eq(n, "ReadonlyArray") || str_eq(n, "Map") || str_eq(n, "ReadonlyMap")
        || str_eq(n, "Set") || str_eq(n, "ReadonlySet") || str_eq(n, "WeakMap") || str_eq(n, "WeakSet") || str_eq(
        n,
        "Promise",
    ) || str_eq(n, "RegExp") || str_eq(n, "Date")
}

/// Whether `recv.p(args)` goes through the dynamic dispatch tower: the
/// receiver is not a global, its static class (`recv_class`) is not a
/// built-in with its own method family, and that class is unknown or not
/// a class this compilation has.
pub open spec fn needs_dynamic_dispatch_spec(is_global: bool, recv_class: Option<Seq<char>>, classes: Seq<ClassInfo>) -> bool {
    !is_global && !(recv_class matches Some(n) && is_builtin_receiver_class(n)) && match recv_class {
        None => true,
        Some(n) => find_class(classes, n) is None,
    }
}

/// Whether `recv.p(args)` goes through the dynamic dispatch tower (see
/// `needs_dynamic_dispatch_spec`).
pub fn needs_dynamic_dispatch(is_global: bool, recv_class: Option<&str>, classes: &Vec<ClassInfo>) -> (res: bool)
    ensures
        res == needs_dynamic_dispatch_spec(is_global, crate::text::opt_view(recv_class), classes@),
{
    if is_global {
        return false;
    }
    match recv_class {
        None => true,
        Some(n) => !is_builtin_receiver_class_exec(n) && find_class_exec(classes, n).is_none(),
    }
}

/// The entries of the dynamic dispatch tower for method `p`: for each
/// class (with its id, in `ids` order) that answers `p`, its id and the
/// method body it answers with, each pair once.
pub open spec fn implementors_spec(
    classes: Seq<ClassInfo>,
    ids: Seq<(String, u32)>,
    methods: Seq<(String, String, String)>,
    p: Seq<char>,
) -> Seq<(u32, Seq<char>)>
    decreases ids.len(),
{
    if ids.len() == 0 {
        Seq::empty()
    } else {
        let prev = implementors_spec(classes, ids.drop_last(), methods, p);
        let (name, id) = ids.last();
        match resolve_method_spec(classes, methods, name@, p, classes.len()) {
            Some(f) => if prev.contains((id, f)) {
                prev
            } else {
                prev.push((id, f))
            },
            None => prev,
        }
    }
}

/// The views of tower entries.
pub open spec fn entries_view(v: Seq<(u32, String)>) -> Seq<(u32, Seq<char>)> {
    v.map_values(|e: (u32, String)| (e.0, e.1@))
}

fn contains_entry(v: &Vec<(u32, String)>, id: u32, f: &str) -> (res: bool)
    ensures
        res == entries_view(v@).contains((id, f@)),
{
    let mut k: usize = 0;
    while k < v.len()
        invariant
            k <= v@.len(),
            forall|j: int| 0 <= j < k ==> entries_view(v@)[j] != (id, f@),
        decreases v@.len() - k,
    {
        if v[k].0 == id && str_eq(v[k].1.as_str(), f) {
            assert(entries_view(v@)[k as int] == (id, f@));
            return true;
        }
        k = k + 1;
    }
    false
}

/// The entries of the dynamic dispatch tower for method `p` (see
/// `implementors_spec`); `ids` are the classes' names and ids.
pub fn dispatch_implementors(
    classes: &Vec<ClassInfo>,
    ids: &Vec<(String, u32)>,
    methods: &Vec<(String, String, String)>,
    p: &str,
) -> (res: Vec<(u32, String)>)
    requires
        forall|k: int| 0 <= k < ids@.len() ==> name_chain_ends(classes@, #[trigger] ids@[k].0@, classes@.len()),
    ensures
        entries_view(res@) == implementors_spec(classes@, ids@, methods@, p@),
{
    let mut out: Vec<(u32, String)> = Vec::new();
    let mut k: usize = 0;
    assert(entries_view(out@) =~= Seq::<(u32, Seq<char>)>::empty());
    while k < ids.len()
        invariant
            k <= ids@.len(),
            forall|j: int| 0 <= j < ids@.len() ==> name_chain_ends(classes@, #[trigger] ids@[j].0@, classes@.len()),
            entries_view(out@) == implementors_spec(classes@, ids@.take(k as int), methods@, p@),
        decreases ids@.len() - k,
    {
        let ghost t = ids@.take(k + 1);
        assert(t.drop_last() =~= ids@.take(k as int));
        assert(t.last() == ids@[k as int]);
        let id = ids[k].1;
        if let Some(f) = resolve_method(classes, methods, ids[k].0.as_str(), p) {
            if !contains_entry(&out, id, f.as_str()) {
                let ghost before = out@;
                out.push((id, f));
                assert(entries_view(out@) =~= entries_view(before).push(entries_view(out@).last()));
            }
        }
        k = k + 1;
    }
    assert(ids@.take(ids@.len() as int) =~= ids@);
    out
}

/// The dispatch tower holds exactly the classes that answer the method:
/// each entry is the id of some class with the body that class resolves
/// to, every class that answers the method has its entry, and no entry
/// occurs twice.
pub proof fn law_implementors_exact(
    classes: Seq<ClassInfo>,
    ids: Seq<(String, u32)>,
    methods: Seq<(String, String, String)>,
    p: Seq<char>,
)
    ensures
        ({
            let t = implementors_spec(classes, ids, methods, p);
            &&& forall|e: int| #![trigger t[e]] 0 <= e < t.len() ==> exists|k: int|
                0 <= k < ids.len() && #[trigger] ids[k].1 == t[e].0 && resolve_method_spec(
                    classes,
                    methods,
                    ids[k].0@,
                    p,
                    classes.len(),
                ) == Some(t[e].1)
            &&& forall|k: int| 0 <= k < ids.len() ==> (#[trigger] resolve_method_spec(classes, methods, ids[k].0@, p, classes.len()) matches Some(f)
                ==> t.contains((ids[k].1, f)))
            &&& forall|a: int, b: int| 0 <= a < b < t.len() ==> t[a] != t[b]
        }),
    decreases ids.len(),
{
    if ids.len() > 0 {
        let d = ids.drop_last();
        law_implementors_exact(classes, d, methods, p);
        let prev = implementors_spec(classes, d, methods, p);
        let t = implementors_spec(classes, ids, methods, p);
        assert forall|e: int| #![trigger t[e]] 0 <= e < t.len() implies exists|k: int|
            0 <= k < ids.len() && #[trigger] ids[k].1 == t[e].0 && resolve_method_spec(
                classes,
                methods,
                ids[k].0@,
                p,
                classes.len(),
            ) == Some(t[e].1) by {
            if e < prev.len() {
                assert(t[e] == prev[e]);
                let k = choose|k: int|
                    0 <= k < d.len() && #[trigger] d[k].1 == prev[e].0 && resolve_method_spec(
                        classes,
                        methods,
                        d[k].0@,
                        p,
                        classes.len(),
                    ) == Some(prev[e].1);
                assert(ids[k] == d[k]);
            } else {
                assert(ids[ids.len() - 1] == ids.last());
            }
        }
        assert forall|k: int| 0 <= k < ids.len() implies (#[trigger] resolve_method_spec(classes, methods, ids[k].0@, p, classes.len()) matches Some(f)
            ==> t.contains((ids[k].1, f))) by {
            if let Some(f) = resolve_method_spec(classes, methods, ids[k].0@, p, classes.len()) {
                if k < d.len() {
                    assert(ids[k] == d[k]);
                    assert(prev.contains((d[k].1, f)));
                    let e = choose|e: int| 0 <= e < prev.len() && prev[e] == (d[k].1, f);
                    assert(t[e] == prev[e]);
                } else {
                    assert(ids[k] == ids.last());
                    if !prev.contains((ids[k].1, f)) {
                        assert(t[t.len() - 1] == (ids[k].1, f));
                    } else {
                        let e = choose|e: int| 0 <= e < prev.len() && prev[e] == (ids[k].1, f);
                        assert(t[e] == prev[e]);
                    }
                }
            }
        }
    }
}

/// The `(class, method)` keys of `methods` are distinct, as those of the
/// map they stand for.
pub open spec fn method_keys_unique(methods: Seq<(String, String, String)>) -> bool {
    forall|i: int, j: int| 0 <= i < j < methods.len() ==> !(methods[i].0@ == methods[j].0@ && methods[i].1@ == methods[j].1@)
}

/// With distinct keys, `lookup_method` is the lookup of a map: for the key
/// of an entry it answers that entry's body (so the entries' order does
/// not matter), and for a key no entry has it answers `None`.
pub proof fn law_lookup_method_is_map_lookup(methods: Seq<(String, String, String)>, c: Seq<char>, p: Seq<char>)
    requires
        method_keys_unique(methods),
    ensures
        forall|k: int| 0 <= k < methods.len() && #[trigger] methods[k].0@ == c && methods[k].1@ == p ==> lookup_method(
            methods,
            c,
            p,
        ) == Some(methods[k].2@),
        (forall|k: int| 0 <= k < methods.len() ==> !(#[trigger] methods[k].0@ == c && methods[k].1@ == p)) ==> lookup_method(
            methods,
            c,
            p,
        ) is None,
    decreases methods.len(),
{
    if methods.len() > 0 {
        let t = methods.drop_first();
        assert forall|i: int, j: int| 0 <= i < j < t.len() implies !(t[i].0@ == t[j].0@ && t[i].1@ == t[j].1@) by {
            assert(t[i] == methods[i + 1] && t[j] == methods[j + 1]);
        }
        law_lookup_method_is_map_lookup(t, c, p);
        assert forall|k: int| 0 <= k < methods.len() && #[trigger] methods[k].0@ == c && methods[k].1@ == p implies lookup_method(
            methods,
            c,
            p,
        ) == Some(methods[k].2@) by {
            if k > 0 {
                assert(t[k - 1] == methods[k]);
            }
        }
        if forall|k: int| 0 <= k < methods.len() ==> !(#[trigger] methods[k].0@ == c && methods[k].1@ == p) {
            assert forall|k: int| 0 <= k < t.len() implies !(#[trigger] t[k].0@ == c && t[k].1@ == p) by {
                assert(t[k] == methods[k + 1]);
            }
        }
    }
}

} // verus!
