//! The initialization order of `new C(args)` for a user class: which
//! classes' field initializers run before the constructor body and which
//! after it, and the `Error`-like built-in a constructor-less class
//! derives from.

use vstd::prelude::*;

use crate::class_layout::{find_class, find_class_exec, inherited_ctor, inherited_ctor_class, lemma_find_class, ClassInfo};
use crate::field_init::{root_chain, select_chain, FieldInitMode};
use crate::receiver_methods::name_chain_ends;
use crate::text::str_eq;

verus! {

/// The field initializers `new` runs: the modes applied before the
/// constructor body (in order), and the one applied after it, if any.
#[derive(Clone, Debug)]
pub struct NewInitPlan {
    pub before: Vec<FieldInitMode>,
    pub after: Option<FieldInitMode>,
}

/// The name of the nearest ancestor with a constructor, for a class `i`
/// that declares no constructor but extends one.
pub open spec fn inherited_ctor_name(classes: Seq<ClassInfo>, i: int) -> Option<String> {
    if classes[i].has_ctor || classes[i].extends is None {
        None
    } else {
        match inherited_ctor(classes, i, classes.len()) {
            Some(j) => Some(classes[j].name),
            None => None,
        }
    }
}

/// The modes applied before the constructor body of class `i`: up to the
/// inherited constructor's class when there is one, else its ancestors;
/// then, for a class extending nothing, its own fields.
pub open spec fn init_before(classes: Seq<ClassInfo>, i: int) -> Seq<FieldInitMode> {
    let first = match inherited_ctor_name(classes, i) {
        Some(s) => FieldInitMode::UpToInclusive(s),
        None => FieldInitMode::AncestorsOnly,
    };
    if classes[i].extends is None {
        seq![first, FieldInitMode::SelfOnly]
    } else {
        seq![first]
    }
}

/// The mode applied after the (inherited) constructor body of class `i`:
/// for a class without its own constructor that extends one, and whose
/// constructor is not an imported one that applies the fields itself,
/// the classes after the inherited constructor's class, or else its own
/// fields.
pub open spec fn init_after(classes: Seq<ClassInfo>, i: int, imported_ctor: bool) -> Option<FieldInitMode> {
    if !classes[i].has_ctor && classes[i].extends is Some && !imported_ctor {
        Some(
            match inherited_ctor_name(classes, i) {
                Some(s) => FieldInitMode::BetweenExclusiveTo(s),
                None => FieldInitMode::SelfOnly,
            },
        )
    } else {
        None
    }
}

proof fn lemma_inherited_ctor_range(classes: Seq<ClassInfo>, i: int, fuel: nat)
    requires
        0 <= i < classes.len(),
    ensures
        inherited_ctor(classes, i, fuel) matches Some(j) ==> 0 <= j < classes.len(),
    decreases fuel,
{
    if let Some(p) = classes[i].extends {
        lemma_find_class(classes, p@);
        if let Some(j) = find_class(classes, p@) {
            if !classes[j].has_ctor && fuel > 0 {
                lemma_inherited_ctor_range(classes, j, (fuel - 1) as nat);
            }
        }
    }
}

/// The field-initialization plan of `new` of class `i`; `imported_ctor`
/// when the class's constructor is an imported one.
pub fn new_init_plan(classes: &Vec<ClassInfo>, i: usize, imported_ctor: bool) -> (res: NewInitPlan)
    requires
        i < classes@.len(),
    ensures
        res.before@ == init_before(classes@, i as int),
        res.after == init_after(classes@, i as int, imported_ctor),
{
    proof {
        lemma_inherited_ctor_range(classes@, i as int, classes@.len());
    }
    // The class count bounds the index of the inherited constructor's class.
    assert(classes@.len() == classes.len());
    let inh: Option<String> = match inherited_ctor_class(classes, i) {
        Some(j) => Some(classes[j].name.clone()),
        None => None,
    };
    let first = match &inh {
        Some(s) => FieldInitMode::UpToInclusive(s.clone()),
        None => FieldInitMode::AncestorsOnly,
    };
    let mut before = Vec::new();
    before.push(first);
    if classes[i].extends.is_none() {
        before.push(FieldInitMode::SelfOnly);
    }
    assert(before@ =~= init_before(classes@, i as int));
    let after = if !classes[i].has_ctor && classes[i].extends.is_some() && !imported_ctor {
        Some(
            match inh {
                Some(s) => FieldInitMode::BetweenExclusiveTo(s),
                None => FieldInitMode::SelfOnly,
            },
        )
    } else {
        None
    };
    NewInitPlan { before, after }
}

proof fn lemma_inherited_in_chain(classes: Seq<ClassInfo>, i: int, c: Seq<char>, fuel: nat)
    requires
        0 <= i < classes.len(),
        find_class(classes, c) == Some(i),
        name_chain_ends(classes, c, fuel),
        inherited_ctor(classes, i, fuel) is Some,
    ensures
        root_chain(classes, c, fuel).contains(classes[inherited_ctor(classes, i, fuel)->0].name@),
    decreases fuel,
{
    lemma_find_class(classes, c);
    let p = classes[i].extends->0;
    lemma_find_class(classes, p@);
    let j = find_class(classes, p@)->0;
    let rest = root_chain(classes, p@, (fuel - 1) as nat);
    if classes[j].has_ctor {
        assert(rest.last() == p@);
        assert(rest.len() > 0);
        assert(root_chain(classes, c, fuel)[rest.len() - 1] == rest[rest.len() - 1]);
    } else {
        lemma_inherited_in_chain(classes, j, p@, (fuel - 1) as nat);
        let k = choose|k: int| 0 <= k < rest.len() && rest[k] == classes[inherited_ctor(classes, j, (fuel - 1) as nat)->0].name@;
        assert(root_chain(classes, c, fuel)[k] == rest[k]);
    }
}

/// `new` of a class without a constructor of its own, whose nearest
/// ancestor with a constructor is known and whose constructor is not
/// imported, runs every class of its chain's field initializers exactly
/// once, root first: up to the inherited constructor's class before that
/// constructor's body, the rest after it.
pub proof fn law_new_inits_each_class_once(classes: Seq<ClassInfo>, i: int, imported_ctor: bool)
    requires
        0 <= i < classes.len(),
        find_class(classes, classes[i].name@) == Some(i),
        name_chain_ends(classes, classes[i].name@, classes.len()),
        !classes[i].has_ctor,
        classes[i].extends is Some,
        !imported_ctor,
        inherited_ctor(classes, i, classes.len()) is Some,
    ensures
        ({
            let chain = root_chain(classes, classes[i].name@, classes.len());
            &&& init_before(classes, i).len() == 1
            &&& init_after(classes, i, imported_ctor) is Some
            &&& select_chain(chain, init_before(classes, i)[0]) + select_chain(
                chain,
                init_after(classes, i, imported_ctor)->0,
            ) == chain
        }),
{
    let chain = root_chain(classes, classes[i].name@, classes.len());
    let j = inherited_ctor(classes, i, classes.len())->0;
    lemma_inherited_in_chain(classes, i, classes[i].name@, classes.len());
    crate::field_init::law_split_chain_covers_it(chain, classes[j].name);
}

/// Whether a name is one of the built-in `Error` classes.
pub open spec fn is_error_like(n: Seq<char>) -> bool {
    n == "Error"@ || n == "TypeError"@ || n == "RangeError"@ || n == "ReferenceError"@ || n == "SyntaxError"@
        || n == "URIError"@ || n == "EvalError"@ || n == "AggregateError"@
}

/// The first `Error`-like name met walking up from `cur` through the
/// known classes' `extends`, looking at no more than `steps` names.
pub open spec fn error_like_walk(classes: Seq<ClassInfo>, cur: Option<Seq<char>>, steps: nat) -> Option<Seq<char>>
    decreases steps,
{
    if steps == 0 {
        None
    } else {
        match cur {
            None => None,
            Some(p) => if is_error_like(p) {
                Some(p)
            } else {
                let next = match find_class(classes, p) {
                    Some(k) => match classes[k].extends {
                        Some(e) => Some(e@),
                        None => None,
                    },
                    None => None,
                };
                error_like_walk(classes, next, (steps - 1) as nat)
            },
        }
    }
}

/// The number of names the walk for an `Error`-like ancestor looks at.
pub const ERROR_WALK_LIMIT: usize = 33;

fn is_error_like_exec(n: &str) -> (res: bool)
    ensures
        res == is_error_like(n@),
{
    str_eq(n, "Error") || str_eq(n, "TypeError") || str_eq(n, "RangeError") || str_eq(n, "ReferenceError")
        || str_eq(n, "SyntaxError") || str_eq(n, "URIError") || str_eq(n, "EvalError") || str_eq(
        n,
        "AggregateError",
    )
}

fn error_like_walk_exec(classes: &Vec<ClassInfo>, cur: Option<&str>, steps: usize) -> (res: Option<String>)
    ensures
        match res {
            Some(s) => error_like_walk(classes@, crate::text::opt_view(cur), steps as nat) == Some(s@),
            None => error_like_walk(classes@, crate::text::opt_view(cur), steps as nat) is None,
        },
    decreases steps,
{
    if steps == 0 {
        return None;
    }
    let p = match cur {
        None => return None,
        Some(p) => p,
    };
    if is_error_like_exec(p) {
        return Some(String::from_str(p));
    }
    proof {
        lemma_find_class(classes@, p@);
    }
    match find_class_exec(classes, p) {
        Some(k) => match &classes[k].extends {
            Some(e) => error_like_walk_exec(classes, Some(e.as_str()), steps - 1),
            None => error_like_walk_exec(classes, None, steps - 1),
        },
        None => error_like_walk_exec(classes, None, steps - 1),
    }
}

/// The `Error`-like built-in class `i` derives from, found walking up its
/// `extends` chain through the known classes (the walk looks at no more
/// than `ERROR_WALK_LIMIT` names).
pub fn error_like_ancestor(classes: &Vec<ClassInfo>, i: usize) -> (res: Option<String>)
    requires
        i < classes@.len(),
    ensures
        match res {
            Some(s) => error_like_walk(
                classes@,
                match classes@[i as int].extends {
                    Some(e) => Some(e@),
                    None => None,
                },
                ERROR_WALK_LIMIT as nat,
            ) == Some(s@),
            None => error_like_walk(
                classes@,
                match classes@[i as int].extends {
                    Some(e) => Some(e@),
                    None => None,
                },
                ERROR_WALK_LIMIT as nat,
            ) is None,
        },
{
    match &classes[i].extends {
        Some(e) => error_like_walk_exec(classes, Some(e.as_str()), ERROR_WALK_LIMIT),
        None => error_like_walk_exec(classes, None, ERROR_WALK_LIMIT),
    }
}

} // verus!
