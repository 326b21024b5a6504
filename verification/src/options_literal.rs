//! The properties of an options argument known at compile time: an object
//! literal's, or those of an anonymous-shape class instance the front end
//! made of one (its constructor's parameters paired with the arguments).

use vstd::prelude::*;

use crate::hir::Expr;
use crate::text::{str_eq, str_starts_with};

verus! {

/// The constructor parameter names of the first entry of `shapes` (`(class,
/// parameter names)`) for class `c`.
pub open spec fn lookup_shape(shapes: Seq<(String, Vec<String>)>, c: Seq<char>) -> Option<Seq<String>>
    decreases shapes.len(),
{
    if shapes.len() == 0 {
        None
    } else if shapes[0].0@ == c {
        Some(shapes[0].1@)
    } else {
        lookup_shape(shapes.drop_first(), c)
    }
}

fn lookup_shape_exec<'a>(shapes: &'a Vec<(String, Vec<String>)>, c: &str) -> (res: Option<&'a Vec<String>>)
    ensures
        match res {
            Some(ps) => lookup_shape(shapes@, c@) == Some(ps@),
            None => lookup_shape(shapes@, c@) is None,
        },
{
    let mut i: usize = 0;
    assert(shapes@.skip(0) =~= shapes@);
    while i < shapes.len()
        invariant
            i <= shapes@.len(),
            lookup_shape(shapes@, c@) == lookup_shape(shapes@.skip(i as int), c@),
        decreases shapes@.len() - i,
    {
        assert(shapes@.skip(i as int).drop_first() =~= shapes@.skip(i + 1));
        if str_eq(shapes[i].0.as_str(), c) {
            return Some(&shapes[i].1);
        }
        i = i + 1;
    }
    None
}

/// The properties of an options argument, as `(key, value)` pairs: an
/// object literal's, in order; for `new` of an anonymous-shape class
/// (`__AnonShape_…`) whose constructor takes as many parameters as there
/// are arguments, each parameter's name with its argument. `None` for any
/// other expression. `shapes` are the constructor parameter names of the
/// classes with a constructor.
pub open spec fn options_fields(e: Expr, shapes: Seq<(String, Vec<String>)>) -> Option<Seq<(Seq<char>, Expr)>> {
    match e {
        Expr::Object(props) => Some(props@.map_values(|p: (String, Expr)| (p.0@, p.1))),
        Expr::New { class_name, args } => if "__AnonShape_"@.is_prefix_of(class_name@) {
            match lookup_shape(shapes, class_name@) {
                Some(params) => if params.len() == args@.len() {
                    Some(Seq::new(params.len(), |k: int| (params[k]@, args@[k])))
                } else {
                    None
                },
                None => None,
            }
        } else {
            None
        },
        _ => None,
    }
}

/// The views of `(key, value)` pairs that borrow their values.
pub open spec fn fields_view(fields: Seq<(String, &Expr)>) -> Seq<(Seq<char>, Expr)> {
    fields.map_values(|p: (String, &Expr)| (p.0@, *p.1))
}

/// The properties of an options argument known at compile time (see
/// `options_fields`), borrowing the values from `e`.
pub fn extract_options_fields<'a>(e: &'a Expr, shapes: &Vec<(String, Vec<String>)>) -> (res: Option<Vec<(String, &'a Expr)>>)
    ensures
        match res {
            Some(fs) => options_fields(*e, shapes@) == Some(fields_view(fs@)),
            None => options_fields(*e, shapes@) is None,
        },
{
    match e {
        Expr::Object(props) => {
            let ghost want = props@.map_values(|p: (String, Expr)| (p.0@, p.1));
            let mut out: Vec<(String, &'a Expr)> = Vec::new();
            let mut k: usize = 0;
            while k < props.len()
                invariant
                    k <= props@.len(),
                    want == props@.map_values(|p: (String, Expr)| (p.0@, p.1)),
                    fields_view(out@) == want.take(k as int),
                decreases props@.len() - k,
            {
                let ghost before = out@;
                out.push((props[k].0.clone(), &props[k].1));
                assert(fields_view(out@) =~= fields_view(before).push(want[k as int]));
                assert(want.take(k + 1) =~= want.take(k as int).push(want[k as int]));
                k = k + 1;
            }
            assert(want.take(want.len() as int) =~= want);
            Some(out)
        },
        Expr::New { class_name, args } => {
            if !str_starts_with(class_name.as_str(), "__AnonShape_") {
                return None;
            }
            let params = match lookup_shape_exec(shapes, class_name.as_str()) {
                Some(ps) => ps,
                None => return None,
            };
            if params.len() != args.len() {
                return None;
            }
            let ghost want = Seq::new(params@.len(), |j: int| (params@[j]@, args@[j]));
            let mut out: Vec<(String, &'a Expr)> = Vec::new();
            let mut k: usize = 0;
            while k < params.len()
                invariant
                    k <= params@.len(),
                    params@.len() == args@.len(),
                    want == Seq::new(params@.len(), |j: int| (params@[j]@, args@[j])),
                    fields_view(out@) == want.take(k as int),
                decreases params@.len() - k,
            {
                let ghost before = out@;
                out.push((params[k].clone(), &args[k]));
                assert(fields_view(out@) =~= fields_view(before).push(want[k as int]));
                assert(want.take(k + 1) =~= want.take(k as int).push(want[k as int]));
                k = k + 1;
            }
            assert(want.take(want.len() as int) =~= want);
            Some(out)
        },
        _ => None,
    }
}

} // verus!
