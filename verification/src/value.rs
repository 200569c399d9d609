//! The library's untyped value representation: a tree of nulls, booleans,
//! integers, strings, arrays and keyed objects. RPC parameters arrive and
//! results leave as such trees; the surrounding application converts them to
//! and from its wire format at the boundary.
//!
//! The spec-level model is `ValModel`, a pure tree over `int`, `Seq<char>`
//! and `Seq`; every contract in the crate speaks of values through it.
use vstd::prelude::*;

verus! {

broadcast use vstd::std_specs::vec::group_vec_axioms, vstd::seq::group_seq_axioms;

/// An untyped value: the boundary representation of parameters and results.
#[derive(Debug)]
pub enum Val {
    Null,
    Bool(bool),
    Int(i64),
    Str(String),
    Arr(Vec<Val>),
    Obj(Vec<(String, Val)>),
}

/// The mathematical model of a `Val`: the same tree over spec types.
pub enum ValModel {
    Null,
    Bool(bool),
    Int(int),
    Str(Seq<char>),
    Arr(Seq<ValModel>),
    Obj(Seq<(Seq<char>, ValModel)>),
}

/// The model of a value. Arrays and objects recurse through `seq_model`
/// and `fields_model` on the children.
pub open spec fn val_model(v: Val) -> ValModel
    decreases v, 1int, 0int,
{
    match v {
        Val::Null => ValModel::Null,
        Val::Bool(b) => ValModel::Bool(b),
        Val::Int(i) => ValModel::Int(i as int),
        Val::Str(s) => ValModel::Str(s@),
        Val::Arr(xs) => {
            proof {
                assert(decreases_to!(v => xs));
                assert(decreases_to!(xs => xs@));
            }
            ValModel::Arr(seq_model(xs@))
        },
        Val::Obj(fs) => {
            proof {
                assert(decreases_to!(v => fs));
                assert(decreases_to!(fs => fs@));
            }
            ValModel::Obj(fields_model(fs@))
        },
    }
}

/// The models of the first `n` elements of a value sequence.
pub open spec fn seq_model_upto(s: Seq<Val>, n: int) -> Seq<ValModel>
    decreases s, 0int, n,
{
    if n <= 0 || n > s.len() {
        Seq::empty()
    } else {
        proof {
            assert(decreases_to!(s => s[n - 1]));
        }
        seq_model_upto(s, n - 1).push(val_model(s[n - 1]))
    }
}

/// The model of a sequence of values.
pub open spec fn seq_model(s: Seq<Val>) -> Seq<ValModel>
    decreases s, 2int, 0int,
{
    seq_model_upto(s, s.len() as int)
}

/// The models of the first `n` bindings of an object's field list.
pub open spec fn fields_model_upto(s: Seq<(String, Val)>, n: int) -> Seq<(Seq<char>, ValModel)>
    decreases s, 0int, n,
{
    if n <= 0 || n > s.len() {
        Seq::empty()
    } else {
        proof {
            assert(decreases_to!(s => s[n - 1]));
            assert(decreases_to!(s[n - 1] => s[n - 1].1));
        }
        fields_model_upto(s, n - 1).push((s[n - 1].0@, val_model(s[n - 1].1)))
    }
}

/// The model of an object's field list.
pub open spec fn fields_model(s: Seq<(String, Val)>) -> Seq<(Seq<char>, ValModel)>
    decreases s, 2int, 0int,
{
    fields_model_upto(s, s.len() as int)
}

impl View for Val {
    type V = ValModel;

    open spec fn view(&self) -> ValModel {
        val_model(*self)
    }
}

proof fn lemma_seq_model_upto(s: Seq<Val>, n: int)
    requires
        0 <= n <= s.len(),
    ensures
        seq_model_upto(s, n).len() == n,
        forall|i: int| 0 <= i < n ==> seq_model_upto(s, n)[i] == s[i]@,
    decreases n,
{
    if n > 0 {
        lemma_seq_model_upto(s, n - 1);
    }
}

/// The model of a value sequence has the same length.
pub broadcast proof fn lemma_seq_model_len(s: Seq<Val>)
    ensures
        #[trigger] seq_model(s).len() == s.len(),
{
    lemma_seq_model_upto(s, s.len() as int);
}

/// The model of a value sequence is the sequence of the element models.
pub broadcast proof fn lemma_seq_model_index(s: Seq<Val>, i: int)
    requires
        0 <= i < s.len(),
    ensures
        #[trigger] seq_model(s)[i] == s[i]@,
{
    lemma_seq_model_upto(s, s.len() as int);
}

proof fn lemma_fields_model_upto(s: Seq<(String, Val)>, n: int)
    requires
        0 <= n <= s.len(),
    ensures
        fields_model_upto(s, n).len() == n,
        forall|i: int| 0 <= i < n ==> fields_model_upto(s, n)[i] == (s[i].0@, s[i].1@),
    decreases n,
{
    if n > 0 {
        lemma_fields_model_upto(s, n - 1);
    }
}

/// The model of a field list has the same length.
pub broadcast proof fn lemma_fields_model_len(s: Seq<(String, Val)>)
    ensures
        #[trigger] fields_model(s).len() == s.len(),
{
    lemma_fields_model_upto(s, s.len() as int);
}

/// The model of a field list is the list of key views and value models.
pub broadcast proof fn lemma_fields_model_index(s: Seq<(String, Val)>, i: int)
    requires
        0 <= i < s.len(),
    ensures
        #[trigger] fields_model(s)[i] == (s[i].0@, s[i].1@),
{
    lemma_fields_model_upto(s, s.len() as int);
}

/// The broadcast group tying value models to their element models.
pub broadcast group group_val_model {
    lemma_seq_model_len,
    lemma_seq_model_index,
    lemma_fields_model_len,
    lemma_fields_model_index,
}

/// The view of an `Option` value.
pub open spec fn opt_view<T: View>(o: Option<T>) -> Option<T::V> {
    match o {
        Some(t) => Some(t@),
        None => None,
    }
}

/// The value representing an optional string: the string itself, or null.
pub open spec fn spec_opt_str(o: Option<Seq<char>>) -> ValModel {
    match o {
        Some(s) => ValModel::Str(s),
        None => ValModel::Null,
    }
}

/// First-binding-wins lookup in an object's field list.
pub open spec fn obj_lookup(fields: Seq<(Seq<char>, ValModel)>, key: Seq<char>) -> Option<ValModel>
    decreases fields.len(),
{
    if fields.len() == 0 {
        None
    } else if fields[0].0 == key {
        Some(fields[0].1)
    } else {
        obj_lookup(fields.skip(1), key)
    }
}

/// The field named `key` of `m`, if `m` is an object that has it.
pub open spec fn field_of(m: ValModel, key: Seq<char>) -> Option<ValModel> {
    match m {
        ValModel::Obj(fs) => obj_lookup(fs, key),
        _ => None,
    }
}

/// The field named `key`, if present and a string.
pub open spec fn str_field(m: ValModel, key: Seq<char>) -> Option<Seq<char>> {
    match field_of(m, key) {
        Some(ValModel::Str(s)) => Some(s),
        _ => None,
    }
}

/// The field named `key`, if present and an integer that fits in `i32`.
pub open spec fn i32_field(m: ValModel, key: Seq<char>) -> Option<int> {
    match field_of(m, key) {
        Some(ValModel::Int(n)) => if i32::MIN <= n <= i32::MAX {
            Some(n)
        } else {
            None
        },
        _ => None,
    }
}

/// The field named `key`, if present and a boolean.
pub open spec fn bool_field(m: ValModel, key: Seq<char>) -> Option<bool> {
    match field_of(m, key) {
        Some(ValModel::Bool(b)) => Some(b),
        _ => None,
    }
}

/// The field named `key`, if present and an array.
pub open spec fn arr_field(m: ValModel, key: Seq<char>) -> Option<Seq<ValModel>> {
    match field_of(m, key) {
        Some(ValModel::Arr(xs)) => Some(xs),
        _ => None,
    }
}

/// The `totalCount` integer inside the object field named `key`: the shape
/// the query language uses for counters.
pub open spec fn count_field(m: ValModel, key: Seq<char>) -> Option<int> {
    match field_of(m, key) {
        Some(inner) => i32_field(inner, "totalCount"@),
        _ => None,
    }
}

/// Skipping bindings whose keys all differ from `key` leaves the lookup
/// result unchanged.
pub proof fn lemma_obj_lookup_skip(
    fs: Seq<(Seq<char>, ValModel)>,
    key: Seq<char>,
    i: int,
)
    requires
        0 <= i <= fs.len(),
        forall|j: int| 0 <= j < i ==> fs[j].0 != key,
    ensures
        obj_lookup(fs, key) == obj_lookup(fs.skip(i), key),
    decreases i,
{
    if i > 0 {
        lemma_obj_lookup_skip(fs, key, i - 1);
        assert(fs.skip(i - 1)[0] == fs[i - 1]);
        assert(fs.skip(i - 1).skip(1) =~= fs.skip(i));
    } else {
        assert(fs.skip(0) =~= fs);
    }
}

/// Two sequences differing at one index are different: the witness
/// same-length string literals need to be told apart.
pub proof fn lemma_seq_neq_at<A>(a: Seq<A>, b: Seq<A>, i: int)
    requires
        0 <= i < a.len(),
        0 <= i < b.len(),
        a[i] != b[i],
    ensures
        a != b,
{
    assert(a == b ==> a[i] == b[i]);
}

/// A value's model has the same variant as the value.
pub proof fn lemma_model_variant(v: Val)
    ensures
        (val_model(v) is Str) == (v is Str),
        (val_model(v) is Int) == (v is Int),
        (val_model(v) is Bool) == (v is Bool),
        (val_model(v) is Null) == (v is Null),
        (val_model(v) is Arr) == (v is Arr),
        (val_model(v) is Obj) == (v is Obj),
{
    match v {
        Val::Null => {},
        Val::Bool(_) => {},
        Val::Int(_) => {},
        Val::Str(_) => {},
        Val::Arr(_) => {},
        Val::Obj(_) => {},
    }
}

/// Lookup finds the first binding whose key matches.
pub proof fn lemma_obj_lookup_at(
    fs: Seq<(Seq<char>, ValModel)>,
    key: Seq<char>,
    i: int,
)
    requires
        0 <= i < fs.len(),
        fs[i].0 == key,
        forall|j: int| 0 <= j < i ==> fs[j].0 != key,
    ensures
        obj_lookup(fs, key) == Some(fs[i].1),
{
    lemma_obj_lookup_skip(fs, key, i);
    assert(fs.skip(i)[0] == fs[i]);
}

impl Val {
    /// Looks a field up in an object value; `None` for any other shape.
    pub fn get<'a>(&'a self, key: &str) -> (r: Option<&'a Val>)
        ensures
            match r {
                Some(f) => field_of(self@, key@) == Some(f@),
                None => field_of(self@, key@) is None,
            },
    {
        broadcast use group_val_model;

        match self {
            Val::Obj(fs) => {
                let ghost vm = fields_model(fs@);
                let n = fs.len();
                let mut i: usize = 0;
                while i < n
                    invariant
                        i <= n == fs@.len(),
                        forall|j: int| 0 <= j < i ==> vm[j].0 != key@,
                    decreases n - i,
                {
                    let pair = &fs[i];
                    if crate::text::str_eq(pair.0.as_str(), key) {
                        proof {
                            lemma_obj_lookup_skip(vm, key@, i as int);
                            assert(vm.skip(i as int)[0] == vm[i as int]);
                        }
                        return Some(&pair.1);
                    }
                    i = i + 1;
                }
                proof {
                    lemma_obj_lookup_skip(vm, key@, n as int);
                    assert(vm.skip(n as int) =~= Seq::empty());
                }
                None
            },
            _ => None,
        }
    }

    /// The string field named `key`, copied out.
    pub fn get_str(&self, key: &str) -> (r: Option<String>)
        ensures
            opt_view(r) == str_field(self@, key@),
    {
        match self.get(key) {
            Some(f) => match f {
                Val::Str(s) => Some(s.clone()),
                _ => None,
            },
            None => None,
        }
    }

    /// The integer field named `key`, if it fits in `i32`.
    pub fn get_i32(&self, key: &str) -> (r: Option<i32>)
        ensures
            match r {
                Some(n) => i32_field(self@, key@) == Some(n as int),
                None => i32_field(self@, key@) is None,
            },
    {
        match self.get(key) {
            Some(f) => match f {
                Val::Int(n) => if i32::MIN as i64 <= *n && *n <= i32::MAX as i64 {
                    Some(*n as i32)
                } else {
                    None
                },
                _ => None,
            },
            None => None,
        }
    }

    /// The boolean field named `key`.
    pub fn get_bool(&self, key: &str) -> (r: Option<bool>)
        ensures
            opt_view(r) == bool_field(self@, key@),
    {
        match self.get(key) {
            Some(f) => match f {
                Val::Bool(b) => Some(*b),
                _ => None,
            },
            None => None,
        }
    }

    /// The array field named `key`, borrowed.
    pub fn get_arr<'a>(&'a self, key: &str) -> (r: Option<&'a Vec<Val>>)
        ensures
            match r {
                Some(xs) => arr_field(self@, key@) == Some(seq_model(xs@)),
                None => arr_field(self@, key@) is None,
            },
    {
        match self.get(key) {
            Some(f) => match f {
                Val::Arr(xs) => Some(xs),
                _ => None,
            },
            None => None,
        }
    }

    /// The `totalCount` counter inside the object field named `key`.
    pub fn get_count(&self, key: &str) -> (r: Option<i32>)
        ensures
            match r {
                Some(n) => count_field(self@, key@) == Some(n as int),
                None => count_field(self@, key@) is None,
            },
    {
        match self.get(key) {
            Some(inner) => inner.get_i32("totalCount"),
            None => None,
        }
    }

    /// Builds a string value from a string slice.
    pub fn str_of(s: &str) -> (r: Val)
        ensures
            r@ == ValModel::Str(s@),
    {
        Val::Str(s.to_owned())
    }

    /// A string value for `Some`, a null for `None`: how absent optional
    /// strings are represented.
    pub fn opt_str_of(o: &Option<String>) -> (r: Val)
        ensures
            r@ == spec_opt_str(opt_view(*o)),
    {
        match o {
            Some(s) => Val::Str(s.clone()),
            None => Val::Null,
        }
    }
}

} // verus!
