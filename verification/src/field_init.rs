//! Which classes' field initializers a constructor runs: the class's
//! inheritance chain from the root down, cut by the initialization mode
//! (all of it, its ancestors, only the class itself, up to a class, or
//! after a class).

use vstd::prelude::*;

use crate::class_layout::{find_class, find_class_exec, lemma_find_class, ClassInfo};
use crate::receiver_methods::name_chain_ends;
use crate::text::str_eq;

verus! {

/// Which part of the inheritance chain gets its field initializers run.
#[derive(Clone, Debug)]
pub enum FieldInitMode {
    /// Every class of the chain.
    All,
    /// Every ancestor, root first, without the class itself.
    AncestorsOnly,
    /// Only the class itself.
    SelfOnly,
    /// The chain from the root down to the named class, inclusive.
    UpToInclusive(String),
    /// The chain after the named class, down to the class itself.
    BetweenExclusiveTo(String),
}

/// The class names of the chain of `c`: its known ancestors from the root
/// down, then `c`; the walk stops at a name that is not a known class.
pub open spec fn root_chain(classes: Seq<ClassInfo>, c: Seq<char>, fuel: nat) -> Seq<Seq<char>>
    decreases fuel,
{
    match find_class(classes, c) {
        None => Seq::empty(),
        Some(i) => (match classes[i].extends {
            Some(p) => if fuel > 0 {
                root_chain(classes, p@, (fuel - 1) as nat)
            } else {
                Seq::empty()
            },
            None => Seq::empty(),
        }).push(c),
    }
}

/// The position of the first `s` in `chain`.
pub open spec fn first_position(chain: Seq<Seq<char>>, s: Seq<char>) -> Option<int>
    decreases chain.len(),
{
    if chain.len() == 0 {
        None
    } else if chain[0] == s {
        Some(0)
    } else {
        match first_position(chain.drop_first(), s) {
            Some(i) => Some(i + 1),
            None => None,
        }
    }
}

/// The part of `chain` (root first) a mode selects.
pub open spec fn select_chain(chain: Seq<Seq<char>>, mode: FieldInitMode) -> Seq<Seq<char>> {
    match mode {
        FieldInitMode::All => chain,
        FieldInitMode::AncestorsOnly => if chain.len() == 0 {
            Seq::empty()
        } else {
            chain.drop_last()
        },
        FieldInitMode::SelfOnly => if chain.len() == 0 {
            Seq::empty()
        } else {
            seq![chain.last()]
        },
        FieldInitMode::UpToInclusive(s) => match first_position(chain, s@) {
            Some(i) => chain.take(i + 1),
            None => Seq::empty(),
        },
        FieldInitMode::BetweenExclusiveTo(s) => match first_position(chain, s@) {
            Some(i) => chain.skip(i + 1),
            None => Seq::empty(),
        },
    }
}

/// The views of a list of strings.
pub open spec fn names_view(v: Seq<String>) -> Seq<Seq<char>> {
    v.map_values(|s: String| s@)
}

proof fn lemma_first_position(chain: Seq<Seq<char>>, s: Seq<char>)
    ensures
        match first_position(chain, s) {
            Some(i) => 0 <= i < chain.len() && chain[i] == s && forall|k: int| 0 <= k < i ==> chain[k] != s,
            None => forall|k: int| 0 <= k < chain.len() ==> chain[k] != s,
        },
    decreases chain.len(),
{
    if chain.len() > 0 {
        lemma_first_position(chain.drop_first(), s);
        if chain[0] != s {
            match first_position(chain.drop_first(), s) {
                Some(i) => {
                    assert forall|k: int| 0 <= k < i + 1 implies chain[k] != s by {
                        if k > 0 {
                            assert(chain[k] == chain.drop_first()[k - 1]);
                        }
                    }
                },
                None => {
                    assert forall|k: int| 0 <= k < chain.len() implies chain[k] != s by {
                        if k > 0 {
                            assert(chain[k] == chain.drop_first()[k - 1]);
                        }
                    }
                },
            }
        }
    }
}

fn root_chain_exec(classes: &Vec<ClassInfo>, c: &str, fuel: usize) -> (res: Vec<String>)
    requires
        name_chain_ends(classes@, c@, fuel as nat),
    ensures
        names_view(res@) == root_chain(classes@, c@, fuel as nat),
    decreases fuel,
{
    proof {
        lemma_find_class(classes@, c@);
    }
    match find_class_exec(classes, c) {
        None => {
            let v: Vec<String> = Vec::new();
            assert(names_view(v@) =~= Seq::<Seq<char>>::empty());
            v
        },
        Some(i) => {
            let mut v: Vec<String> = match &classes[i].extends {
                Some(p) => if fuel > 0 {
                    root_chain_exec(classes, p.as_str(), fuel - 1)
                } else {
                    Vec::new()
                },
                None => Vec::new(),
            };
            let ghost before = v@;
            v.push(String::from_str(c));
            proof {
                assert(names_view(v@) =~= names_view(before).push(c@));
                assert(names_view(Seq::<String>::empty()) =~= Seq::<Seq<char>>::empty());
            }
            v
        },
    }
}

fn position_exec(chain: &Vec<String>, s: &str) -> (res: Option<usize>)
    ensures
        match res {
            Some(i) => i < chain@.len() && first_position(names_view(chain@), s@) == Some(i as int),
            None => first_position(names_view(chain@), s@) is None,
        },
{
    let ghost w = names_view(chain@);
    let mut k: usize = 0;
    while k < chain.len()
        invariant
            k <= chain@.len(),
            w == names_view(chain@),
            forall|j: int| 0 <= j < k ==> w[j] != s@,
        decreases chain@.len() - k,
    {
        if str_eq(chain[k].as_str(), s) {
            proof {
                lemma_first_position(w, s@);
                assert(w[k as int] == s@);
            }
            return Some(k);
        }
        k = k + 1;
    }
    proof {
        lemma_first_position(w, s@);
    }
    None
}

fn take_names(chain: &Vec<String>, from: usize, to: usize) -> (res: Vec<String>)
    requires
        from <= to <= chain@.len(),
    ensures
        names_view(res@) == names_view(chain@).subrange(from as int, to as int),
{
    let mut v: Vec<String> = Vec::new();
    let mut k = from;
    while k < to
        invariant
            from <= k <= to <= chain@.len(),
            names_view(v@) == names_view(chain@).subrange(from as int, k as int),
        decreases to - k,
    {
        let ghost before = v@;
        v.push(chain[k].clone());
        proof {
            assert(names_view(v@) =~= names_view(before).push(chain@[k as int]@));
            assert(names_view(chain@).subrange(from as int, k + 1) =~= names_view(chain@).subrange(
                from as int,
                k as int,
            ).push(chain@[k as int]@));
        }
        k = k + 1;
    }
    v
}

/// The classes, root first, whose field initializers a constructor of
/// `class_name` runs in `mode` (see `select_chain` and `root_chain`).
pub fn field_init_chain(classes: &Vec<ClassInfo>, class_name: &str, mode: &FieldInitMode) -> (res: Vec<String>)
    requires
        name_chain_ends(classes@, class_name@, classes@.len()),
    ensures
        names_view(res@) == select_chain(root_chain(classes@, class_name@, classes@.len()), *mode),
{
    let chain = root_chain_exec(classes, class_name, classes.len());
    let ghost w = names_view(chain@);
    let n = chain.len();
    let res = match mode {
        FieldInitMode::All => take_names(&chain, 0, n),
        FieldInitMode::AncestorsOnly => if n == 0 {
            take_names(&chain, 0, 0)
        } else {
            take_names(&chain, 0, n - 1)
        },
        FieldInitMode::SelfOnly => if n == 0 {
            take_names(&chain, 0, 0)
        } else {
            take_names(&chain, n - 1, n)
        },
        FieldInitMode::UpToInclusive(s) => match position_exec(&chain, s.as_str()) {
            Some(i) => take_names(&chain, 0, i + 1),
            None => take_names(&chain, 0, 0),
        },
        FieldInitMode::BetweenExclusiveTo(s) => match position_exec(&chain, s.as_str()) {
            Some(i) => take_names(&chain, i + 1, n),
            None => take_names(&chain, 0, 0),
        },
    };
    proof {
        assert(w.subrange(0, n as int) =~= w);
        assert(w.subrange(0, 0) =~= Seq::<Seq<char>>::empty());
        if n > 1 {
            assert(w.subrange(0, 1) =~= seq![w[0]]);
        }
        if n > 0 {
            assert(w.subrange(n - 1, n as int) =~= seq![w.last()]);
        }
        match mode {
            FieldInitMode::UpToInclusive(s) => if let Some(i) = first_position(w, s@) {
                lemma_first_position(w, s@);
                assert(w.subrange(0, i + 1) =~= w.take(i + 1));
            },
            FieldInitMode::BetweenExclusiveTo(s) => if let Some(i) = first_position(w, s@) {
                lemma_first_position(w, s@);
                assert(w.subrange(i + 1, n as int) =~= w.skip(i + 1));
            },
            _ => {},
        }
    }
    res
}

/// Splitting the chain at one of its classes covers it exactly once: the
/// classes up to and including `s`, followed by those after `s`, are the
/// whole chain, so a constructor that runs the first part before a
/// `super()` call returns and the second part after runs every class's
/// field initializers once, root first.
pub proof fn law_split_chain_covers_it(chain: Seq<Seq<char>>, s: String)
    requires
        chain.contains(s@),
    ensures
        select_chain(chain, FieldInitMode::UpToInclusive(s)) + select_chain(
            chain,
            FieldInitMode::BetweenExclusiveTo(s),
        ) == chain,
{
    lemma_first_position(chain, s@);
    let k = choose|k: int| 0 <= k < chain.len() && chain[k] == s@;
    let i = first_position(chain, s@)->0;
    assert(chain.take(i + 1) + chain.skip(i + 1) =~= chain);
}

/// The whole chain of a known class ends with the class itself, and the
/// self-only mode selects exactly it.
pub proof fn law_chain_ends_with_the_class(classes: Seq<ClassInfo>, c: Seq<char>, fuel: nat)
    requires
        find_class(classes, c) is Some,
    ensures
        root_chain(classes, c, fuel).len() >= 1,
        root_chain(classes, c, fuel).last() == c,
        select_chain(root_chain(classes, c, fuel), FieldInitMode::SelfOnly) == seq![c],
{
}

} // verus!
