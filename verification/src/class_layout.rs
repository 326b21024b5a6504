//! The object layout of `new C(...)`: the class's inheritance chain, its
//! field count (inherited fields included), the packed field-name keys the
//! allocator pre-populates, the nearest inherited constructor, and the
//! header words of an inline-allocated object.

use vstd::prelude::*;

use crate::text::str_eq;

verus! {

/// A field of a class: its name, and whether its key is computed at
/// construction time (such a field gets no inline slot).
#[derive(Clone, Debug)]
pub struct FieldInfo {
    pub name: String,
    pub computed: bool,
}

/// What object layout needs of a class.
#[derive(Clone, Debug)]
pub struct ClassInfo {
    pub name: String,
    pub fields: Vec<FieldInfo>,
    /// The name of the class it extends, if any.
    pub extends: Option<String>,
    /// The class declares its own constructor.
    pub has_ctor: bool,
}

/// The index of the first class named `name`.
pub open spec fn find_class(classes: Seq<ClassInfo>, name: Seq<char>) -> Option<int>
    decreases classes.len(),
{
    if classes.len() == 0 {
        None
    } else {
        match find_class(classes.drop_last(), name) {
            Some(i) => Some(i),
            None => if classes.last().name@ == name {
                Some(classes.len() - 1)
            } else {
                None
            },
        }
    }
}

pub proof fn lemma_find_class(classes: Seq<ClassInfo>, name: Seq<char>)
    ensures
        match find_class(classes, name) {
            Some(i) => 0 <= i < classes.len() && classes[i].name@ == name && forall|k: int|
                0 <= k < i ==> classes[k].name@ != name,
            None => forall|k: int| 0 <= k < classes.len() ==> classes[k].name@ != name,
        },
    decreases classes.len(),
{
    if classes.len() > 0 {
        let d = classes.drop_last();
        lemma_find_class(d, name);
        assert forall|k: int| 0 <= k < d.len() implies d[k] == classes[k] by {}
    }
}

/// The index of the first class named `name`.
pub fn find_class_exec(classes: &Vec<ClassInfo>, name: &str) -> (res: Option<usize>)
    ensures
        match res {
            Some(i) => find_class(classes@, name@) == Some(i as int),
            None => find_class(classes@, name@) is None,
        },
{
    proof {
        lemma_find_class(classes@, name@);
    }
    let mut i: usize = 0;
    while i < classes.len()
        invariant
            i <= classes@.len(),
            forall|k: int| 0 <= k < i ==> classes@[k].name@ != name@,
        decreases classes@.len() - i,
    {
        if str_eq(classes[i].name.as_str(), name) {
            proof {
                lemma_find_class(classes@, name@);
                match find_class(classes@, name@) {
                    Some(j) => {
                        if j < i {
                            assert(classes@[j].name@ != name@);
                        } else if j > i {
                            assert(classes@[i as int].name@ != name@);
                        }
                    },
                    None => {
                        assert(classes@[i as int].name@ != name@);
                    },
                }
            }
            return Some(i);
        }
        i = i + 1;
    }
    None
}

/// The index of the parent of class `i`, when it extends a known class.
pub open spec fn parent_of(classes: Seq<ClassInfo>, i: int) -> Option<int> {
    match classes[i].extends {
        Some(p) => find_class(classes, p@),
        None => None,
    }
}

/// Whether the chain of known ancestors of class `i` ends within `fuel`
/// steps (it does when the hierarchy has no cycle and `fuel` is the number
/// of classes).
pub open spec fn chain_ends(classes: Seq<ClassInfo>, i: int, fuel: nat) -> bool
    decreases fuel,
{
    match parent_of(classes, i) {
        None => true,
        Some(j) => fuel > 0 && chain_ends(classes, j, (fuel - 1) as nat),
    }
}

/// The number of inline slots class `i`'s own declaration contributes: its
/// fields, or 32 when it declares neither fields nor a constructor (an
/// imported class whose fields are not known).
pub open spec fn own_field_slots(c: ClassInfo) -> nat {
    if c.fields@.len() == 0 && !c.has_ctor {
        32
    } else {
        c.fields@.len()
    }
}

/// The number of fields of the known ancestors of class `i`.
pub open spec fn inherited_fields(classes: Seq<ClassInfo>, i: int, fuel: nat) -> nat
    decreases fuel,
{
    match parent_of(classes, i) {
        Some(j) => if fuel > 0 {
            classes[j].fields@.len() + inherited_fields(classes, j, (fuel - 1) as nat)
        } else {
            0
        },
        None => 0,
    }
}

/// The field count an instance of class `i` is allocated with.
pub open spec fn total_field_count(classes: Seq<ClassInfo>, i: int) -> nat {
    own_field_slots(classes[i]) + inherited_fields(classes, i, classes.len())
}

/// The number of fields of the known ancestors of class `i`.
fn inherited_fields_exec(classes: &Vec<ClassInfo>, i: usize, fuel: usize) -> (n: u64)
    requires
        i < classes@.len(),
        chain_ends(classes@, i as int, fuel as nat),
        inherited_fields(classes@, i as int, fuel as nat) <= u32::MAX,
    ensures
        n == inherited_fields(classes@, i as int, fuel as nat),
    decreases fuel,
{
    proof {
        lemma_find_class(classes@, match classes@[i as int].extends { Some(p) => p@, None => Seq::empty() });
    }
    match &classes[i].extends {
        Some(p) => match find_class_exec(classes, p.as_str()) {
            Some(j) => {
                if fuel == 0 {
                    0
                } else {
                    let rest = inherited_fields_exec(classes, j, fuel - 1);
                    classes[j].fields.len() as u64 + rest
                }
            },
            None => 0,
        },
        None => 0,
    }
}

/// The field count an instance of class `i` is allocated with: its own
/// fields (32 for a class with neither fields nor constructor) plus those
/// of every known ancestor.
pub fn total_field_count_exec(classes: &Vec<ClassInfo>, i: usize) -> (n: u32)
    requires
        i < classes@.len(),
        chain_ends(classes@, i as int, classes@.len()),
        total_field_count(classes@, i as int) <= u32::MAX,
    ensures
        n == total_field_count(classes@, i as int),
{
    let own: u64 = if classes[i].fields.len() == 0 && !classes[i].has_ctor {
        32
    } else {
        classes[i].fields.len() as u64
    };
    let inherited = inherited_fields_exec(classes, i, classes.len());
    (own + inherited) as u32
}

/// The packed keys of one class's own fields: each non-computed field's
/// name followed by a NUL, in declaration order.
pub open spec fn class_keys(fields: Seq<FieldInfo>) -> Seq<char>
    decreases fields.len(),
{
    if fields.len() == 0 {
        Seq::empty()
    } else {
        class_keys(fields.drop_last()) + if fields.last().computed {
            Seq::empty()
        } else {
            fields.last().name@ + seq!['\0']
        }
    }
}

/// The packed keys an instance of class `i` is allocated with: those of
/// its known ancestors, the deepest first, then its own.
pub open spec fn packed_keys(classes: Seq<ClassInfo>, i: int, fuel: nat) -> Seq<char>
    decreases fuel,
{
    match parent_of(classes, i) {
        Some(j) => if fuel > 0 {
            packed_keys(classes, j, (fuel - 1) as nat) + class_keys(classes[i].fields@)
        } else {
            class_keys(classes[i].fields@)
        },
        None => class_keys(classes[i].fields@),
    }
}

/// Appends the packed keys of `fields` to `out`.
fn append_class_keys(out: &mut String, fields: &Vec<FieldInfo>)
    ensures
        final(out)@ == old(out)@ + class_keys(fields@),
{
    let ghost pre = out@;
    let mut k: usize = 0;
    while k < fields.len()
        invariant
            k <= fields@.len(),
            out@ == pre + class_keys(fields@.take(k as int)),
        decreases fields@.len() - k,
    {
        if !fields[k].computed {
            out.append(fields[k].name.as_str());
            out.append("\0");
        }
        proof {
            reveal_strlit("\0");
            let t = fields@.take(k + 1);
            assert(t.drop_last() =~= fields@.take(k as int));
            assert(t.last() == fields@[k as int]);
            assert(out@ =~= pre + class_keys(t));
        }
        k = k + 1;
    }
    assert(fields@.take(fields@.len() as int) =~= fields@);
}

/// Appends the packed keys of class `i` (ancestors first) to `out`.
fn append_packed_keys(out: &mut String, classes: &Vec<ClassInfo>, i: usize, fuel: usize)
    requires
        i < classes@.len(),
    ensures
        final(out)@ == old(out)@ + packed_keys(classes@, i as int, fuel as nat),
    decreases fuel,
{
    proof {
        lemma_find_class(classes@, match classes@[i as int].extends { Some(p) => p@, None => Seq::empty() });
    }
    let ghost pre = out@;
    let parent = match &classes[i].extends {
        Some(p) => find_class_exec(classes, p.as_str()),
        None => None,
    };
    match parent {
        Some(j) => {
            if fuel > 0 {
                append_packed_keys(out, classes, j, fuel - 1);
            }
        },
        None => {},
    }
    append_class_keys(out, &classes[i].fields);
    assert(out@ =~= pre + packed_keys(classes@, i as int, fuel as nat));
}

/// The packed field-name keys an instance of class `i` is allocated with:
/// for the known ancestors, the deepest first, then the class itself, each
/// non-computed field's name followed by a NUL.
pub fn class_packed_keys(classes: &Vec<ClassInfo>, i: usize) -> (res: String)
    requires
        i < classes@.len(),
    ensures
        res@ == packed_keys(classes@, i as int, classes@.len()),
{
    let mut s = String::new();
    append_packed_keys(&mut s, classes, i, classes.len());
    assert(s@ =~= packed_keys(classes@, i as int, classes@.len()));
    s
}

/// The nearest known ancestor of class `i` that declares a constructor.
pub open spec fn inherited_ctor(classes: Seq<ClassInfo>, i: int, fuel: nat) -> Option<int>
    decreases fuel,
{
    match parent_of(classes, i) {
        Some(j) => if classes[j].has_ctor {
            Some(j)
        } else if fuel > 0 {
            inherited_ctor(classes, j, (fuel - 1) as nat)
        } else {
            None
        },
        None => None,
    }
}

/// The nearest known ancestor of class `i` that declares a constructor,
/// looked for only when the class declares none itself but extends one.
pub fn inherited_ctor_class(classes: &Vec<ClassInfo>, i: usize) -> (res: Option<usize>)
    requires
        i < classes@.len(),
    ensures
        res == (if classes@[i as int].has_ctor || classes@[i as int].extends is None {
            None
        } else {
            match inherited_ctor(classes@, i as int, classes@.len()) {
                Some(j) => Some(j as usize),
                None => None,
            }
        }),
        res matches Some(j) ==> j < classes@.len(),
{
    if classes[i].has_ctor || classes[i].extends.is_none() {
        return None;
    }
    inherited_ctor_from(classes, i, classes.len())
}

fn inherited_ctor_from(classes: &Vec<ClassInfo>, i: usize, fuel: usize) -> (res: Option<usize>)
    requires
        i < classes@.len(),
    ensures
        res == match inherited_ctor(classes@, i as int, fuel as nat) {
            Some(j) => Some(j as usize),
            None => None,
        },
        res matches Some(j) ==> j < classes@.len(),
    decreases fuel,
{
    proof {
        lemma_find_class(classes@, match classes@[i as int].extends { Some(p) => p@, None => Seq::empty() });
    }
    let parent = match &classes[i].extends {
        Some(p) => find_class_exec(classes, p.as_str()),
        None => None,
    };
    match parent {
        Some(j) => {
            if classes[j].has_ctor {
                Some(j)
            } else if fuel > 0 {
                inherited_ctor_from(classes, j, fuel - 1)
            } else {
                None
            }
        },
        None => None,
    }
}

/// The byte size of an inline-allocated object with `field_count` fields:
/// an 8-byte GC header, a 24-byte object header, and at least eight 8-byte
/// field slots.
pub open spec fn object_total_size(field_count: nat) -> nat {
    8 + 24 + 8 * (if field_count < 8 { 8 } else { field_count })
}

/// The byte size of an inline-allocated object with `field_count` fields.
pub fn object_total_size_exec(field_count: u32) -> (res: u64)
    ensures
        res == object_total_size(field_count as nat),
{
    let slots: u64 = if field_count < 8 { 8 } else { field_count as u64 };
    8 + 24 + 8 * slots
}

/// The GC header word of an inline-allocated object of `total` bytes: the
/// object type (2) in bits 0..8, the arena flag (2) in bits 8..16, and the
/// size in bits 32..64.
pub open spec fn gc_header_word(total: u64) -> int {
    2 + 2 * 0x100 + (total % 0x1_0000_0000) * 0x1_0000_0000
}

/// The GC header word of an inline-allocated object of `total` bytes.
pub fn gc_header_word_exec(total: u64) -> (res: u64)
    ensures
        res == gc_header_word(total),
{
    let res = 2u64 | (2u64 << 8u64) | (total << 32u64);
    assert(res == 2 + 2 * 0x100 + (total % 0x1_0000_0000) * 0x1_0000_0000) by (bit_vector)
        requires
            res == 2u64 | (2u64 << 8u64) | (total << 32u64),
    ;
    res
}

/// The header word `low | high << 32` of two u32 fields (the object type
/// with the class id, or the parent class id with the field count).
pub open spec fn pair_word(low: u32, high: u32) -> int {
    low + high * 0x1_0000_0000
}

/// The header word `low | high << 32`.
pub fn pair_word_exec(low: u32, high: u32) -> (res: u64)
    ensures
        res == pair_word(low, high),
{
    let l = low as u64;
    let h = high as u64;
    let res = l | (h << 32u64);
    assert(res == l + h * 0x1_0000_0000) by (bit_vector)
        requires
            res == l | (h << 32u64),
            l < 0x1_0000_0000,
            h < 0x1_0000_0000,
    ;
    res
}

/// A subclass keeps its parent's slots: the packed keys of a class whose
/// parent is known start with the parent's packed keys, so a field reached
/// through the parent's layout sits at the same slot in every subclass.
pub proof fn law_subclass_keys_extend_parent(classes: Seq<ClassInfo>, i: int, fuel: nat)
    requires
        0 <= i < classes.len(),
        parent_of(classes, i) is Some,
        fuel > 0,
    ensures
        packed_keys(classes, parent_of(classes, i)->0, (fuel - 1) as nat).is_prefix_of(packed_keys(classes, i, fuel)),
{
    let j = parent_of(classes, i)->0;
    let pk = packed_keys(classes, j, (fuel - 1) as nat);
    assert(packed_keys(classes, i, fuel) == pk + class_keys(classes[i].fields@));
    assert((pk + class_keys(classes[i].fields@)).subrange(0, pk.len() as int) =~= pk);
}

/// Every inline-allocated object takes a multiple of 8 bytes, at least 96:
/// the bump allocator's offset stays 8-aligned without an align-up step.
pub proof fn law_object_size_aligned(field_count: nat)
    ensures
        object_total_size(field_count) % 8 == 0,
        object_total_size(field_count) >= 96,
        field_count <= 8 ==> object_total_size(field_count) == 96,
{
}


proof fn lemma_inherited_fuel(classes: Seq<ClassInfo>, i: int, f: nat, g: nat)
    requires
        chain_ends(classes, i, f),
        f <= g,
    ensures
        inherited_fields(classes, i, f) == inherited_fields(classes, i, g),
        chain_ends(classes, i, g),
    decreases f,
{
    if let Some(j) = parent_of(classes, i) {
        lemma_inherited_fuel(classes, j, (f - 1) as nat, (g - 1) as nat);
    }
}

/// An instance counts the fields of its whole ancestry: the field count of
/// a class whose parent is known is its own slots plus the parent's whole
/// field count (when the parent declares its fields), so a class two
/// levels down also counts its grandparent's fields.
pub proof fn law_field_count_adds_parent_count(classes: Seq<ClassInfo>, i: int)
    requires
        0 <= i < classes.len(),
        chain_ends(classes, i, classes.len()),
        parent_of(classes, i) matches Some(j) && own_field_slots(classes[j]) == classes[j].fields@.len(),
    ensures
        total_field_count(classes, i) == own_field_slots(classes[i]) + total_field_count(classes, parent_of(classes, i)->0),
{
    let j = parent_of(classes, i)->0;
    lemma_find_class(classes, classes[i].extends->0@);
    let n = classes.len();
    lemma_inherited_fuel(classes, j, (n - 1) as nat, n);
}

/// The number of NUL characters in `s`.
pub open spec fn nul_count(s: Seq<char>) -> nat
    decreases s.len(),
{
    if s.len() == 0 {
        0
    } else {
        nul_count(s.drop_last()) + if s.last() == '\0' {
            1nat
        } else {
            0nat
        }
    }
}

proof fn lemma_nul_count_add(a: Seq<char>, b: Seq<char>)
    ensures
        nul_count(a + b) == nul_count(a) + nul_count(b),
    decreases b.len(),
{
    if b.len() > 0 {
        assert((a + b).drop_last() =~= a + b.drop_last());
        lemma_nul_count_add(a, b.drop_last());
    } else {
        assert(a + b =~= a);
    }
}

proof fn lemma_nul_count_none(s: Seq<char>)
    requires
        !s.contains('\0'),
    ensures
        nul_count(s) == 0,
    decreases s.len(),
{
    if s.len() > 0 {
        assert(!s.drop_last().contains('\0')) by {
            if s.drop_last().contains('\0') {
                let k = choose|k: int| 0 <= k < s.drop_last().len() && s.drop_last()[k] == '\0';
                assert(s[k] == '\0');
            }
        }
        lemma_nul_count_none(s.drop_last());
        assert(s[s.len() - 1] == s.last());
    }
}

/// Every field of every class has a string key without a NUL.
pub open spec fn plain_fields(classes: Seq<ClassInfo>) -> bool {
    forall|c: int, k: int|
        0 <= c < classes.len() && 0 <= k < classes[c].fields@.len() ==> !(#[trigger] classes[c].fields@[k]).computed
            && !classes[c].fields@[k].name@.contains('\0')
}

proof fn lemma_class_keys_nuls(fs: Seq<FieldInfo>)
    requires
        forall|k: int| 0 <= k < fs.len() ==> !(#[trigger] fs[k]).computed && !fs[k].name@.contains('\0'),
    ensures
        nul_count(class_keys(fs)) == fs.len(),
    decreases fs.len(),
{
    if fs.len() > 0 {
        let f = fs.last();
        assert(fs[fs.len() - 1] == f);
        lemma_class_keys_nuls(fs.drop_last());
        lemma_nul_count_none(f.name@);
        lemma_nul_count_add(f.name@, seq!['\0']);
        assert(nul_count(seq!['\0']) == 1) by {
            let z = seq!['\0'];
            assert(z.len() == 1);
            assert(z.last() == '\0');
            assert(z.drop_last() =~= Seq::<char>::empty());
            assert(nul_count(Seq::<char>::empty()) == 0);
        }
        lemma_nul_count_add(class_keys(fs.drop_last()), f.name@ + seq!['\0']);
    }
}

proof fn lemma_packed_nuls(classes: Seq<ClassInfo>, i: int, f: nat)
    requires
        0 <= i < classes.len(),
        plain_fields(classes),
    ensures
        nul_count(packed_keys(classes, i, f)) == classes[i].fields@.len() + inherited_fields(classes, i, f),
    decreases f,
{
    let fs = classes[i].fields@;
    assert forall|k: int| 0 <= k < fs.len() implies !(#[trigger] fs[k]).computed && !fs[k].name@.contains('\0') by {
        assert(classes[i].fields@[k] == fs[k]);
    }
    lemma_class_keys_nuls(fs);
    if let Some(p) = classes[i].extends {
        lemma_find_class(classes, p@);
    }
    match parent_of(classes, i) {
        Some(j) => if f > 0 {
            lemma_packed_nuls(classes, j, (f - 1) as nat);
            lemma_nul_count_add(packed_keys(classes, j, (f - 1) as nat), class_keys(fs));
        },
        None => {},
    }
}

/// The field count an instance is allocated with is the number of keys
/// in the packed keys it is allocated with: one per field of the class
/// and of each of its known ancestors (for classes whose fields all have
/// plain string keys, and a class that declares its fields).
pub proof fn law_field_count_is_key_count(classes: Seq<ClassInfo>, i: int)
    requires
        0 <= i < classes.len(),
        plain_fields(classes),
        classes[i].fields@.len() > 0 || classes[i].has_ctor,
    ensures
        total_field_count(classes, i) == nul_count(packed_keys(classes, i, classes.len())),
{
    lemma_packed_nuls(classes, i, classes.len());
}

} // verus!
