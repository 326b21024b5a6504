//! Lookup in the native stdlib dispatch table, and its projection to the
//! manifest-relevant fields.

use vstd::prelude::*;

use crate::native_table::{native_module_table, native_module_table_spec, rows_0, NativeArgKind, NativeModSig, NativeRetKind};
use crate::text::{opt_str_eq, opt_view, str_eq};

verus! {

/// The module name the table is keyed by: the npm `redis` package routes to
/// the same runtime as `ioredis`, and the table only has `ioredis` rows.
pub open spec fn normalize_module(module: Seq<char>) -> Seq<char> {
    if module == "redis"@ {
        "ioredis"@
    } else {
        module
    }
}

/// A row with a class filter that names exactly `class_name`.
pub open spec fn exact_match(
    s: NativeModSig,
    module: Seq<char>,
    has_receiver: bool,
    method: Seq<char>,
    class_name: Option<Seq<char>>,
) -> bool {
    &&& s.module@ == normalize_module(module)
    &&& s.has_receiver == has_receiver
    &&& s.method@ == method
    &&& s.class_filter is Some
    &&& opt_view(s.class_filter) == class_name
}

/// A row without a class filter.
pub open spec fn generic_match(
    s: NativeModSig,
    module: Seq<char>,
    has_receiver: bool,
    method: Seq<char>,
) -> bool {
    &&& s.module@ == normalize_module(module)
    &&& s.has_receiver == has_receiver
    &&& s.method@ == method
    &&& s.class_filter is None
}

/// The first index at or after `i` of a row that matches exactly.
pub open spec fn first_exact(
    t: Seq<NativeModSig>,
    i: int,
    module: Seq<char>,
    has_receiver: bool,
    method: Seq<char>,
    class_name: Option<Seq<char>>,
) -> Option<int>
    decreases t.len() - i,
{
    if i < 0 || i >= t.len() {
        None
    } else if exact_match(t[i], module, has_receiver, method, class_name) {
        Some(i)
    } else {
        first_exact(t, i + 1, module, has_receiver, method, class_name)
    }
}

/// The first index at or after `i` of a generic row that matches.
pub open spec fn first_generic(
    t: Seq<NativeModSig>,
    i: int,
    module: Seq<char>,
    has_receiver: bool,
    method: Seq<char>,
) -> Option<int>
    decreases t.len() - i,
{
    if i < 0 || i >= t.len() {
        None
    } else if generic_match(t[i], module, has_receiver, method) {
        Some(i)
    } else {
        first_generic(t, i + 1, module, has_receiver, method)
    }
}

/// Two passes over a table: the first row whose class filter names the
/// receiver's class, else the first row without a class filter.
pub open spec fn lookup_in(
    t: Seq<NativeModSig>,
    module: Seq<char>,
    has_receiver: bool,
    method: Seq<char>,
    class_name: Option<Seq<char>>,
) -> Option<NativeModSig> {
    match first_exact(t, 0, module, has_receiver, method, class_name) {
        Some(i) => Some(t[i]),
        None => match first_generic(t, 0, module, has_receiver, method) {
            Some(j) => Some(t[j]),
            None => None,
        },
    }
}

/// What `native_module_lookup` answers.
pub open spec fn native_module_lookup_spec(
    module: Seq<char>,
    has_receiver: bool,
    method: Seq<char>,
    class_name: Option<Seq<char>>,
) -> Option<NativeModSig> {
    lookup_in(native_module_table_spec(), module, has_receiver, method, class_name)
}

/// What `first_exact` finds: a matching row with none before it.
pub proof fn lemma_first_exact(
    t: Seq<NativeModSig>,
    i: int,
    module: Seq<char>,
    has_receiver: bool,
    method: Seq<char>,
    class_name: Option<Seq<char>>,
)
    requires
        0 <= i,
    ensures
        first_exact(t, i, module, has_receiver, method, class_name) matches Some(k) ==> {
            &&& i <= k < t.len()
            &&& exact_match(t[k], module, has_receiver, method, class_name)
            &&& forall|j: int|
                i <= j < k ==> !exact_match(#[trigger] t[j], module, has_receiver, method, class_name)
        },
        first_exact(t, i, module, has_receiver, method, class_name) is None ==> forall|j: int|
            i <= j < t.len() ==> !exact_match(#[trigger] t[j], module, has_receiver, method, class_name),
    decreases t.len() - i,
{
    if i < t.len() {
        lemma_first_exact(t, i + 1, module, has_receiver, method, class_name);
    }
}

/// What `first_generic` finds: a matching row with none before it.
pub proof fn lemma_first_generic(
    t: Seq<NativeModSig>,
    i: int,
    module: Seq<char>,
    has_receiver: bool,
    method: Seq<char>,
)
    requires
        0 <= i,
    ensures
        first_generic(t, i, module, has_receiver, method) matches Some(k) ==> {
            &&& i <= k < t.len()
            &&& generic_match(t[k], module, has_receiver, method)
            &&& forall|j: int| i <= j < k ==> !generic_match(#[trigger] t[j], module, has_receiver, method)
        },
        first_generic(t, i, module, has_receiver, method) is None ==> forall|j: int|
            i <= j < t.len() ==> !generic_match(#[trigger] t[j], module, has_receiver, method),
    decreases t.len() - i,
{
    if i < t.len() {
        lemma_first_generic(t, i + 1, module, has_receiver, method);
    }
}

/// The module key after the `redis` alias has been applied.
fn normalized_module(module: &str) -> (res: &str)
    ensures
        res@ == normalize_module(module@),
{
    if str_eq(module, "redis") {
        "ioredis"
    } else {
        module
    }
}

/// Looks a native module method up in a dispatch table. Rows with a class
/// filter only match when `class_name` names that class; they are checked
/// before the rows without one.
pub fn native_module_lookup_in(
    table: &Vec<NativeModSig>,
    module: &str,
    has_receiver: bool,
    method: &str,
    class_name: Option<&str>,
) -> (res: Option<NativeModSig>)
    ensures
        res == lookup_in(table@, module@, has_receiver, method@, opt_view(class_name)),
{
    let normalized = normalized_module(module);
    let ghost t = table@;
    let ghost cn = opt_view(class_name);
    let n = table.len();
    let mut i: usize = 0;
    // First pass: an exact class_filter match.
    while i < n
        invariant
            n == t.len(),
            t == table@,
            cn == opt_view(class_name),
            i <= n,
            normalized@ == normalize_module(module@),
            first_exact(t, 0, module@, has_receiver, method@, cn) == first_exact(
                t,
                i as int,
                module@,
                has_receiver,
                method@,
                cn,
            ),
        decreases n - i,
    {
        let s = table[i];
        let hit = s.class_filter.is_some() && s.has_receiver == has_receiver && str_eq(s.module, normalized)
            && str_eq(s.method, method) && opt_str_eq(s.class_filter, class_name);
        if hit {
            return Some(s);
        }
        i = i + 1;
    }
    // Second pass: a generic row (no class_filter).
    let mut j: usize = 0;
    while j < n
        invariant
            n == t.len(),
            t == table@,
            cn == opt_view(class_name),
            j <= n,
            i == n,
            normalized@ == normalize_module(module@),
            first_exact(t, 0, module@, has_receiver, method@, cn) is None,
            first_generic(t, 0, module@, has_receiver, method@) == first_generic(
                t,
                j as int,
                module@,
                has_receiver,
                method@,
            ),
        decreases n - j,
    {
        let s = table[j];
        if s.class_filter.is_none() && s.has_receiver == has_receiver && str_eq(s.module, normalized)
            && str_eq(s.method, method) {
            return Some(s);
        }
        j = j + 1;
    }
    None
}

/// Looks a native module method up in the static dispatch table. Entries
/// with `class_filter: Some("Pool")` only match when `class_name` is
/// `Some("Pool")`; entries without a class filter match any class name.
/// The more specific entries are checked first. The npm `redis` module is
/// looked up as `ioredis`.
pub fn native_module_lookup(
    module: &str,
    has_receiver: bool,
    method: &str,
    class_name: Option<&str>,
) -> (res: Option<NativeModSig>)
    ensures
        res == native_module_lookup_spec(module@, has_receiver, method@, opt_view(class_name)),
{
    let table = native_module_table();
    native_module_lookup_in(&table, module, has_receiver, method, class_name)
}

/// A row found by the lookup belongs to the table, answers the (normalized)
/// module, the receiver shape and the method asked for, and when it carries
/// a class filter, that filter names exactly the receiver's class.
pub proof fn law_lookup_sound(
    module: Seq<char>,
    has_receiver: bool,
    method: Seq<char>,
    class_name: Option<Seq<char>>,
)
    ensures
        native_module_lookup_spec(module, has_receiver, method, class_name) matches Some(s) ==> {
            &&& native_module_table_spec().contains(s)
            &&& s.module@ == normalize_module(module)
            &&& s.has_receiver == has_receiver
            &&& s.method@ == method
            &&& s.class_filter is Some ==> class_name == Some(s.class_filter->0@)
        },
{
    let t = native_module_table_spec();
    lemma_first_exact(t, 0, module, has_receiver, method, class_name);
    lemma_first_generic(t, 0, module, has_receiver, method);
    if let Some(i) = first_exact(t, 0, module, has_receiver, method, class_name) {
        assert(t[i] == t[i]);
        assert(t.contains(t[i]));
    } else if let Some(j) = first_generic(t, 0, module, has_receiver, method) {
        assert(t.contains(t[j]));
    }
}

/// A row with a class filter naming the receiver's class wins over every row
/// without one: the lookup only answers a generic row when no row matches
/// exactly, and it answers nothing only when no row matches at all.
pub proof fn law_lookup_prefers_class_filter(
    module: Seq<char>,
    has_receiver: bool,
    method: Seq<char>,
    class_name: Option<Seq<char>>,
)
    ensures
        native_module_lookup_spec(module, has_receiver, method, class_name) matches Some(s) && s.class_filter is None
            ==> forall|k: int| 0 <= k < native_module_table_spec().len() ==> !exact_match(
                #[trigger] native_module_table_spec()[k],
                module,
                has_receiver,
                method,
                class_name,
            ),
        native_module_lookup_spec(module, has_receiver, method, class_name) is None ==> forall|k: int|
            0 <= k < native_module_table_spec().len() ==> {
                &&& !exact_match(#[trigger] native_module_table_spec()[k], module, has_receiver, method, class_name)
                &&& !generic_match(native_module_table_spec()[k], module, has_receiver, method)
            },
{
    let t = native_module_table_spec();
    lemma_first_exact(t, 0, module, has_receiver, method, class_name);
    lemma_first_generic(t, 0, module, has_receiver, method);
}

/// Looking a method up under the npm `redis` module answers exactly what
/// looking it up under `ioredis` answers.
pub proof fn law_redis_is_ioredis(
    has_receiver: bool,
    method: Seq<char>,
    class_name: Option<Seq<char>>,
)
    ensures
        native_module_lookup_spec("redis"@, has_receiver, method, class_name)
            == native_module_lookup_spec("ioredis"@, has_receiver, method, class_name),
{
    reveal_strlit("redis");
    reveal_strlit("ioredis");
    assert(normalize_module("redis"@) == normalize_module("ioredis"@));
    lemma_same_key(native_module_table_spec(), "redis"@, "ioredis"@, has_receiver, method, class_name);
}

/// Two module names with the same normalized key get the same answer.
proof fn lemma_same_key(
    t: Seq<NativeModSig>,
    m1: Seq<char>,
    m2: Seq<char>,
    has_receiver: bool,
    method: Seq<char>,
    class_name: Option<Seq<char>>,
)
    requires
        normalize_module(m1) == normalize_module(m2),
    ensures
        lookup_in(t, m1, has_receiver, method, class_name) == lookup_in(t, m2, has_receiver, method, class_name),
{
    lemma_same_key_exact(t, 0, m1, m2, has_receiver, method, class_name);
    lemma_same_key_generic(t, 0, m1, m2, has_receiver, method);
}

proof fn lemma_same_key_exact(
    t: Seq<NativeModSig>,
    i: int,
    m1: Seq<char>,
    m2: Seq<char>,
    has_receiver: bool,
    method: Seq<char>,
    class_name: Option<Seq<char>>,
)
    requires
        normalize_module(m1) == normalize_module(m2),
    ensures
        first_exact(t, i, m1, has_receiver, method, class_name) == first_exact(t, i, m2, has_receiver, method, class_name),
    decreases t.len() - i,
{
    if 0 <= i < t.len() {
        lemma_same_key_exact(t, i + 1, m1, m2, has_receiver, method, class_name);
    }
}

proof fn lemma_same_key_generic(
    t: Seq<NativeModSig>,
    i: int,
    m1: Seq<char>,
    m2: Seq<char>,
    has_receiver: bool,
    method: Seq<char>,
)
    requires
        normalize_module(m1) == normalize_module(m2),
    ensures
        first_generic(t, i, m1, has_receiver, method) == first_generic(t, i, m2, has_receiver, method),
    decreases t.len() - i,
{
    if 0 <= i < t.len() {
        lemma_same_key_generic(t, i + 1, m1, m2, has_receiver, method);
    }
}

/// The `NA_*` tag name of an argument kind.
pub open spec fn arg_kind_tag_spec(a: NativeArgKind) -> Seq<char> {
    match a {
        NativeArgKind::F64 => "NA_F64"@,
        NativeArgKind::StrPtr => "NA_STR"@,
        NativeArgKind::PtrI64 => "NA_PTR"@,
        NativeArgKind::JsvalI64 => "NA_JSV"@,
        NativeArgKind::VarArgsAsArray => "NA_VARARGS"@,
    }
}

/// The `NR_*` tag name of a return kind.
pub open spec fn ret_kind_tag_spec(r: NativeRetKind) -> Seq<char> {
    match r {
        NativeRetKind::Ptr => "NR_PTR"@,
        NativeRetKind::Str => "NR_STR"@,
        NativeRetKind::ObjFromJsonStr => "NR_OBJ_FROM_JSON_STR"@,
        NativeRetKind::BigInt => "NR_BIGINT"@,
        NativeRetKind::F64 => "NR_F64"@,
        NativeRetKind::I32Void => "NR_I32"@,
        NativeRetKind::Void => "NR_VOID"@,
    }
}

/// The `NA_*` tag name of an argument kind.
pub fn arg_kind_tag(a: &NativeArgKind) -> (res: &'static str)
    ensures
        res@ == arg_kind_tag_spec(*a),
{
    match a {
        NativeArgKind::F64 => "NA_F64",
        NativeArgKind::StrPtr => "NA_STR",
        NativeArgKind::PtrI64 => "NA_PTR",
        NativeArgKind::JsvalI64 => "NA_JSV",
        NativeArgKind::VarArgsAsArray => "NA_VARARGS",
    }
}

/// The `NR_*` tag name of a return kind.
pub fn ret_kind_tag(r: &NativeRetKind) -> (res: &'static str)
    ensures
        res@ == ret_kind_tag_spec(*r),
{
    match r {
        NativeRetKind::Ptr => "NR_PTR",
        NativeRetKind::Str => "NR_STR",
        NativeRetKind::ObjFromJsonStr => "NR_OBJ_FROM_JSON_STR",
        NativeRetKind::BigInt => "NR_BIGINT",
        NativeRetKind::F64 => "NR_F64",
        NativeRetKind::I32Void => "NR_I32",
        NativeRetKind::Void => "NR_VOID",
    }
}

/// Maps a row's argument kinds to their `NA_*` tag names, in order.
pub fn arg_kinds_for(args: &[NativeArgKind]) -> (res: Vec<&'static str>)
    ensures
        res@.len() == args@.len(),
        forall|i: int| 0 <= i < args@.len() ==> (#[trigger] res@[i])@ == arg_kind_tag_spec(args@[i]),
{
    let mut tags: Vec<&'static str> = Vec::new();
    let mut i: usize = 0;
    while i < args.len()
        invariant
            i <= args@.len(),
            tags@.len() == i,
            forall|k: int| 0 <= k < i ==> (#[trigger] tags@[k])@ == arg_kind_tag_spec(args@[k]),
        decreases args@.len() - i,
    {
        tags.push(arg_kind_tag(&args[i]));
        i = i + 1;
    }
    tags
}

/// One dispatch-table row projected to its manifest-relevant fields:
/// module, has_receiver, method, class filter, argument tags, return tag.
pub type ManifestRow = (
    &'static str,
    bool,
    &'static str,
    Option<&'static str>,
    Vec<&'static str>,
    &'static str,
);

/// The projection of one row.
pub open spec fn manifest_row_matches(r: ManifestRow, s: NativeModSig) -> bool {
    &&& r.0 == s.module
    &&& r.1 == s.has_receiver
    &&& r.2 == s.method
    &&& r.3 == s.class_filter
    &&& r.4@.len() == s.args@.len()
    &&& forall|k: int| 0 <= k < s.args@.len() ==> (#[trigger] r.4@[k])@ == arg_kind_tag_spec(s.args@[k])
    &&& r.5@ == ret_kind_tag_spec(s.ret)
}

/// The dispatch table projected to manifest-relevant fields, in declaration
/// order, with argument and return kinds as their `NA_*` / `NR_*` tag names.
pub fn iter_native_module_table() -> (res: Vec<ManifestRow>)
    ensures
        res@.len() == native_module_table_spec().len(),
        forall|i: int|
            0 <= i < res@.len() ==> manifest_row_matches(#[trigger] res@[i], native_module_table_spec()[i]),
{
    let table = native_module_table();
    let mut out: Vec<ManifestRow> = Vec::new();
    let mut i: usize = 0;
    while i < table.len()
        invariant
            table@ == native_module_table_spec(),
            i <= table@.len(),
            out@.len() == i,
            forall|k: int| 0 <= k < i ==> manifest_row_matches(#[trigger] out@[k], table@[k]),
        decreases table@.len() - i,
    {
        let s = table[i];
        let r: ManifestRow = (
            s.module,
            s.has_receiver,
            s.method,
            s.class_filter,
            arg_kinds_for(s.args),
            ret_kind_tag(&s.ret),
        );
        out.push(r);
        i = i + 1;
    }
    out
}


/// With no receiver class, no row with a class filter matches.
proof fn lemma_no_exact_without_class(t: Seq<NativeModSig>, module: Seq<char>, has_receiver: bool, method: Seq<char>)
    ensures
        first_exact(t, 0, module, has_receiver, method, None) is None,
{
    lemma_first_exact(t, 0, module, has_receiver, method, None);
    if let Some(k) = first_exact(t, 0, module, has_receiver, method, None) {
        assert(exact_match(t[k], module, has_receiver, method, None));
    }
}



proof fn lemma_fastify_verb_get()
    ensures
        native_module_lookup_spec("fastify"@, true, "get"@, None) matches Some(s) && s.runtime@ == "js_fastify_"@ + "get"@
            && s.method@ == "get"@,
{
    let t = native_module_table_spec();
    reveal_strlit("fastify");
    reveal_strlit("redis");
    reveal_strlit("js_fastify_");
    reveal_strlit("js_fastify_get");
    reveal_strlit("get");
    lemma_no_exact_without_class(t, "fastify"@, true, "get"@);
    assert("fastify"@[0] != "redis"@[0]);
    assert(normalize_module("fastify"@) == "fastify"@);
    assert(t[0] == rows_0()[0]);
    assert(t[1] == rows_0()[1]);
    assert(!generic_match(t[0], "fastify"@, true, "get"@));
    assert(generic_match(t[1], "fastify"@, true, "get"@));
    assert(first_generic(t, 1, "fastify"@, true, "get"@) == Some(1int));
    assert(first_generic(t, 0, "fastify"@, true, "get"@) == Some(1int));
    assert("js_fastify_get"@ =~= "js_fastify_"@ + "get"@);
}

proof fn lemma_fastify_verb_post()
    ensures
        native_module_lookup_spec("fastify"@, true, "post"@, None) matches Some(s) && s.runtime@ == "js_fastify_"@ + "post"@
            && s.method@ == "post"@,
{
    let t = native_module_table_spec();
    reveal_strlit("fastify");
    reveal_strlit("redis");
    reveal_strlit("js_fastify_");
    reveal_strlit("js_fastify_post");
    reveal_strlit("get");
    reveal_strlit("post");
    lemma_no_exact_without_class(t, "fastify"@, true, "post"@);
    assert("fastify"@[0] != "redis"@[0]);
    assert(normalize_module("fastify"@) == "fastify"@);
    assert(t[0] == rows_0()[0]);
    assert(t[1] == rows_0()[1]);
    assert(t[2] == rows_0()[2]);
    assert(!generic_match(t[0], "fastify"@, true, "post"@));
    assert("get"@.len() != "post"@.len());
    assert(!generic_match(t[1], "fastify"@, true, "post"@));
    assert(generic_match(t[2], "fastify"@, true, "post"@));
    assert(first_generic(t, 2, "fastify"@, true, "post"@) == Some(2int));
    assert(first_generic(t, 1, "fastify"@, true, "post"@) == Some(2int));
    assert(first_generic(t, 0, "fastify"@, true, "post"@) == Some(2int));
    assert("js_fastify_post"@ =~= "js_fastify_"@ + "post"@);
}

proof fn lemma_fastify_verb_put()
    ensures
        native_module_lookup_spec("fastify"@, true, "put"@, None) matches Some(s) && s.runtime@ == "js_fastify_"@ + "put"@
            && s.method@ == "put"@,
{
    let t = native_module_table_spec();
    reveal_strlit("fastify");
    reveal_strlit("redis");
    reveal_strlit("js_fastify_");
    reveal_strlit("js_fastify_put");
    reveal_strlit("get");
    reveal_strlit("post");
    reveal_strlit("put");
    lemma_no_exact_without_class(t, "fastify"@, true, "put"@);
    assert("fastify"@[0] != "redis"@[0]);
    assert(normalize_module("fastify"@) == "fastify"@);
    assert(t[0] == rows_0()[0]);
    assert(t[1] == rows_0()[1]);
    assert(t[2] == rows_0()[2]);
    assert(t[3] == rows_0()[3]);
    assert(!generic_match(t[0], "fastify"@, true, "put"@));
    assert("get"@[0] != "put"@[0]);
    assert(!generic_match(t[1], "fastify"@, true, "put"@));
    assert("post"@.len() != "put"@.len());
    assert(!generic_match(t[2], "fastify"@, true, "put"@));
    assert(generic_match(t[3], "fastify"@, true, "put"@));
    assert(first_generic(t, 3, "fastify"@, true, "put"@) == Some(3int));
    assert(first_generic(t, 2, "fastify"@, true, "put"@) == Some(3int));
    assert(first_generic(t, 1, "fastify"@, true, "put"@) == Some(3int));
    assert(first_generic(t, 0, "fastify"@, true, "put"@) == Some(3int));
    assert("js_fastify_put"@ =~= "js_fastify_"@ + "put"@);
}

proof fn lemma_fastify_verb_delete()
    ensures
        native_module_lookup_spec("fastify"@, true, "delete"@, None) matches Some(s) && s.runtime@ == "js_fastify_"@ + "delete"@
            && s.method@ == "delete"@,
{
    let t = native_module_table_spec();
    reveal_strlit("fastify");
    reveal_strlit("redis");
    reveal_strlit("js_fastify_");
    reveal_strlit("js_fastify_delete");
    reveal_strlit("get");
    reveal_strlit("post");
    reveal_strlit("put");
    reveal_strlit("delete");
    lemma_no_exact_without_class(t, "fastify"@, true, "delete"@);
    assert("fastify"@[0] != "redis"@[0]);
    assert(normalize_module("fastify"@) == "fastify"@);
    assert(t[0] == rows_0()[0]);
    assert(t[1] == rows_0()[1]);
    assert(t[2] == rows_0()[2]);
    assert(t[3] == rows_0()[3]);
    assert(t[4] == rows_0()[4]);
    assert(!generic_match(t[0], "fastify"@, true, "delete"@));
    assert("get"@.len() != "delete"@.len());
    assert(!generic_match(t[1], "fastify"@, true, "delete"@));
    assert("post"@.len() != "delete"@.len());
    assert(!generic_match(t[2], "fastify"@, true, "delete"@));
    assert("put"@.len() != "delete"@.len());
    assert(!generic_match(t[3], "fastify"@, true, "delete"@));
    assert(generic_match(t[4], "fastify"@, true, "delete"@));
    assert(first_generic(t, 4, "fastify"@, true, "delete"@) == Some(4int));
    assert(first_generic(t, 3, "fastify"@, true, "delete"@) == Some(4int));
    assert(first_generic(t, 2, "fastify"@, true, "delete"@) == Some(4int));
    assert(first_generic(t, 1, "fastify"@, true, "delete"@) == Some(4int));
    assert(first_generic(t, 0, "fastify"@, true, "delete"@) == Some(4int));
    assert("js_fastify_delete"@ =~= "js_fastify_"@ + "delete"@);
}

proof fn lemma_fastify_verb_patch()
    ensures
        native_module_lookup_spec("fastify"@, true, "patch"@, None) matches Some(s) && s.runtime@ == "js_fastify_"@ + "patch"@
            && s.method@ == "patch"@,
{
    let t = native_module_table_spec();
    reveal_strlit("fastify");
    reveal_strlit("redis");
    reveal_strlit("js_fastify_");
    reveal_strlit("js_fastify_patch");
    reveal_strlit("get");
    reveal_strlit("post");
    reveal_strlit("put");
    reveal_strlit("delete");
    reveal_strlit("patch");
    lemma_no_exact_without_class(t, "fastify"@, true, "patch"@);
    assert("fastify"@[0] != "redis"@[0]);
    assert(normalize_module("fastify"@) == "fastify"@);
    assert(t[0] == rows_0()[0]);
    assert(t[1] == rows_0()[1]);
    assert(t[2] == rows_0()[2]);
    assert(t[3] == rows_0()[3]);
    assert(t[4] == rows_0()[4]);
    assert(t[5] == rows_0()[5]);
    assert(!generic_match(t[0], "fastify"@, true, "patch"@));
    assert("get"@.len() != "patch"@.len());
    assert(!generic_match(t[1], "fastify"@, true, "patch"@));
    assert("post"@.len() != "patch"@.len());
    assert(!generic_match(t[2], "fastify"@, true, "patch"@));
    assert("put"@.len() != "patch"@.len());
    assert(!generic_match(t[3], "fastify"@, true, "patch"@));
    assert("delete"@.len() != "patch"@.len());
    assert(!generic_match(t[4], "fastify"@, true, "patch"@));
    assert(generic_match(t[5], "fastify"@, true, "patch"@));
    assert(first_generic(t, 5, "fastify"@, true, "patch"@) == Some(5int));
    assert(first_generic(t, 4, "fastify"@, true, "patch"@) == Some(5int));
    assert(first_generic(t, 3, "fastify"@, true, "patch"@) == Some(5int));
    assert(first_generic(t, 2, "fastify"@, true, "patch"@) == Some(5int));
    assert(first_generic(t, 1, "fastify"@, true, "patch"@) == Some(5int));
    assert(first_generic(t, 0, "fastify"@, true, "patch"@) == Some(5int));
    assert("js_fastify_patch"@ =~= "js_fastify_"@ + "patch"@);
}

proof fn lemma_fastify_verb_head()
    ensures
        native_module_lookup_spec("fastify"@, true, "head"@, None) matches Some(s) && s.runtime@ == "js_fastify_"@ + "head"@
            && s.method@ == "head"@,
{
    let t = native_module_table_spec();
    reveal_strlit("fastify");
    reveal_strlit("redis");
    reveal_strlit("js_fastify_");
    reveal_strlit("js_fastify_head");
    reveal_strlit("get");
    reveal_strlit("post");
    reveal_strlit("put");
    reveal_strlit("delete");
    reveal_strlit("patch");
    reveal_strlit("head");
    lemma_no_exact_without_class(t, "fastify"@, true, "head"@);
    assert("fastify"@[0] != "redis"@[0]);
    assert(normalize_module("fastify"@) == "fastify"@);
    assert(t[0] == rows_0()[0]);
    assert(t[1] == rows_0()[1]);
    assert(t[2] == rows_0()[2]);
    assert(t[3] == rows_0()[3]);
    assert(t[4] == rows_0()[4]);
    assert(t[5] == rows_0()[5]);
    assert(t[6] == rows_0()[6]);
    assert(!generic_match(t[0], "fastify"@, true, "head"@));
    assert("get"@.len() != "head"@.len());
    assert(!generic_match(t[1], "fastify"@, true, "head"@));
    assert("post"@[0] != "head"@[0]);
    assert(!generic_match(t[2], "fastify"@, true, "head"@));
    assert("put"@.len() != "head"@.len());
    assert(!generic_match(t[3], "fastify"@, true, "head"@));
    assert("delete"@.len() != "head"@.len());
    assert(!generic_match(t[4], "fastify"@, true, "head"@));
    assert("patch"@.len() != "head"@.len());
    assert(!generic_match(t[5], "fastify"@, true, "head"@));
    assert(generic_match(t[6], "fastify"@, true, "head"@));
    assert(first_generic(t, 6, "fastify"@, true, "head"@) == Some(6int));
    assert(first_generic(t, 5, "fastify"@, true, "head"@) == Some(6int));
    assert(first_generic(t, 4, "fastify"@, true, "head"@) == Some(6int));
    assert(first_generic(t, 3, "fastify"@, true, "head"@) == Some(6int));
    assert(first_generic(t, 2, "fastify"@, true, "head"@) == Some(6int));
    assert(first_generic(t, 1, "fastify"@, true, "head"@) == Some(6int));
    assert(first_generic(t, 0, "fastify"@, true, "head"@) == Some(6int));
    assert("js_fastify_head"@ =~= "js_fastify_"@ + "head"@);
}

proof fn lemma_fastify_verb_options()
    ensures
        native_module_lookup_spec("fastify"@, true, "options"@, None) matches Some(s) && s.runtime@ == "js_fastify_"@ + "options"@
            && s.method@ == "options"@,
{
    let t = native_module_table_spec();
    reveal_strlit("fastify");
    reveal_strlit("redis");
    reveal_strlit("js_fastify_");
    reveal_strlit("js_fastify_options");
    reveal_strlit("get");
    reveal_strlit("post");
    reveal_strlit("put");
    reveal_strlit("delete");
    reveal_strlit("patch");
    reveal_strlit("head");
    reveal_strlit("options");
    lemma_no_exact_without_class(t, "fastify"@, true, "options"@);
    assert("fastify"@[0] != "redis"@[0]);
    assert(normalize_module("fastify"@) == "fastify"@);
    assert(t[0] == rows_0()[0]);
    assert(t[1] == rows_0()[1]);
    assert(t[2] == rows_0()[2]);
    assert(t[3] == rows_0()[3]);
    assert(t[4] == rows_0()[4]);
    assert(t[5] == rows_0()[5]);
    assert(t[6] == rows_0()[6]);
    assert(t[7] == rows_0()[7]);
    assert(!generic_match(t[0], "fastify"@, true, "options"@));
    assert("get"@.len() != "options"@.len());
    assert(!generic_match(t[1], "fastify"@, true, "options"@));
    assert("post"@.len() != "options"@.len());
    assert(!generic_match(t[2], "fastify"@, true, "options"@));
    assert("put"@.len() != "options"@.len());
    assert(!generic_match(t[3], "fastify"@, true, "options"@));
    assert("delete"@.len() != "options"@.len());
    assert(!generic_match(t[4], "fastify"@, true, "options"@));
    assert("patch"@.len() != "options"@.len());
    assert(!generic_match(t[5], "fastify"@, true, "options"@));
    assert("head"@.len() != "options"@.len());
    assert(!generic_match(t[6], "fastify"@, true, "options"@));
    assert(generic_match(t[7], "fastify"@, true, "options"@));
    assert(first_generic(t, 7, "fastify"@, true, "options"@) == Some(7int));
    assert(first_generic(t, 6, "fastify"@, true, "options"@) == Some(7int));
    assert(first_generic(t, 5, "fastify"@, true, "options"@) == Some(7int));
    assert(first_generic(t, 4, "fastify"@, true, "options"@) == Some(7int));
    assert(first_generic(t, 3, "fastify"@, true, "options"@) == Some(7int));
    assert(first_generic(t, 2, "fastify"@, true, "options"@) == Some(7int));
    assert(first_generic(t, 1, "fastify"@, true, "options"@) == Some(7int));
    assert(first_generic(t, 0, "fastify"@, true, "options"@) == Some(7int));
    assert("js_fastify_options"@ =~= "js_fastify_"@ + "options"@);
}

proof fn lemma_fastify_verb_all()
    ensures
        native_module_lookup_spec("fastify"@, true, "all"@, None) matches Some(s) && s.runtime@ == "js_fastify_"@ + "all"@
            && s.method@ == "all"@,
{
    let t = native_module_table_spec();
    reveal_strlit("fastify");
    reveal_strlit("redis");
    reveal_strlit("js_fastify_");
    reveal_strlit("js_fastify_all");
    reveal_strlit("get");
    reveal_strlit("post");
    reveal_strlit("put");
    reveal_strlit("delete");
    reveal_strlit("patch");
    reveal_strlit("head");
    reveal_strlit("options");
    reveal_strlit("all");
    lemma_no_exact_without_class(t, "fastify"@, true, "all"@);
    assert("fastify"@[0] != "redis"@[0]);
    assert(normalize_module("fastify"@) == "fastify"@);
    assert(t[0] == rows_0()[0]);
    assert(t[1] == rows_0()[1]);
    assert(t[2] == rows_0()[2]);
    assert(t[3] == rows_0()[3]);
    assert(t[4] == rows_0()[4]);
    assert(t[5] == rows_0()[5]);
    assert(t[6] == rows_0()[6]);
    assert(t[7] == rows_0()[7]);
    assert(t[8] == rows_0()[8]);
    assert(!generic_match(t[0], "fastify"@, true, "all"@));
    assert("get"@[0] != "all"@[0]);
    assert(!generic_match(t[1], "fastify"@, true, "all"@));
    assert("post"@.len() != "all"@.len());
    assert(!generic_match(t[2], "fastify"@, true, "all"@));
    assert("put"@[0] != "all"@[0]);
    assert(!generic_match(t[3], "fastify"@, true, "all"@));
    assert("delete"@.len() != "all"@.len());
    assert(!generic_match(t[4], "fastify"@, true, "all"@));
    assert("patch"@.len() != "all"@.len());
    assert(!generic_match(t[5], "fastify"@, true, "all"@));
    assert("head"@.len() != "all"@.len());
    assert(!generic_match(t[6], "fastify"@, true, "all"@));
    assert("options"@.len() != "all"@.len());
    assert(!generic_match(t[7], "fastify"@, true, "all"@));
    assert(generic_match(t[8], "fastify"@, true, "all"@));
    assert(first_generic(t, 8, "fastify"@, true, "all"@) == Some(8int));
    assert(first_generic(t, 7, "fastify"@, true, "all"@) == Some(8int));
    assert(first_generic(t, 6, "fastify"@, true, "all"@) == Some(8int));
    assert(first_generic(t, 5, "fastify"@, true, "all"@) == Some(8int));
    assert(first_generic(t, 4, "fastify"@, true, "all"@) == Some(8int));
    assert(first_generic(t, 3, "fastify"@, true, "all"@) == Some(8int));
    assert(first_generic(t, 2, "fastify"@, true, "all"@) == Some(8int));
    assert(first_generic(t, 1, "fastify"@, true, "all"@) == Some(8int));
    assert(first_generic(t, 0, "fastify"@, true, "all"@) == Some(8int));
    assert("js_fastify_all"@ =~= "js_fastify_"@ + "all"@);
}

/// The HTTP verbs a fastify app routes with.
pub open spec fn fastify_route_verb(v: Seq<char>) -> bool {
    v == "get"@ || v == "post"@ || v == "put"@ || v == "delete"@ || v == "patch"@ || v == "head"@ || v == "options"@ || v == "all"@
}

/// A fastify route registration keeps its verb: `app.<verb>(path,
/// handler)` resolves to the row of that same method, whose runtime
/// function is `js_fastify_<verb>` (a POST route is never registered as a
/// GET one, and so on for each verb).
pub proof fn law_fastify_verbs_keep_their_verb(v: Seq<char>)
    requires
        fastify_route_verb(v),
    ensures
        native_module_lookup_spec("fastify"@, true, v, None) matches Some(s) && s.runtime@ == "js_fastify_"@ + v && s.method@
            == v,
{
    if v == "get"@ {
        lemma_fastify_verb_get();
    }
    if v == "post"@ {
        lemma_fastify_verb_post();
    }
    if v == "put"@ {
        lemma_fastify_verb_put();
    }
    if v == "delete"@ {
        lemma_fastify_verb_delete();
    }
    if v == "patch"@ {
        lemma_fastify_verb_patch();
    }
    if v == "head"@ {
        lemma_fastify_verb_head();
    }
    if v == "options"@ {
        lemma_fastify_verb_options();
    }
    if v == "all"@ {
        lemma_fastify_verb_all();
    }
}

} // verus!
