//! A JSON value as the provider sends it, and its mathematical model.
use vstd::prelude::*;
use vstd::string::*;

verus! {

broadcast use vstd::std_specs::vec::group_vec_axioms;

/// A JSON value. Numbers keep the text they were written with: the logic
/// never computes with them, it only carries them through.
pub enum Json {
    Null,
    Bool(bool),
    Number(String),
    Str(String),
    Array(Vec<Json>),
    Object(Vec<(String, Json)>),
}

/// What a `Json` value is: strings as character sequences, arrays and
/// objects as sequences.
pub enum JsonModel {
    Null,
    Bool(bool),
    Number(Seq<char>),
    Str(Seq<char>),
    Array(Seq<JsonModel>),
    Object(Seq<(Seq<char>, JsonModel)>),
}

/// The fields of an object, in order.
pub type Fields = Seq<(Seq<char>, JsonModel)>;

impl Json {
    pub open spec fn model(self) -> JsonModel
        decreases self, 0nat,
    {
        match self {
            Json::Null => JsonModel::Null,
            Json::Bool(b) => JsonModel::Bool(b),
            Json::Number(n) => JsonModel::Number(n@),
            Json::Str(s) => JsonModel::Str(s@),
            Json::Array(v) => JsonModel::Array(models_upto(v, v.len() as nat)),
            Json::Object(f) => JsonModel::Object(fields_upto(f, f.len() as nat)),
        }
    }
}

/// The models of the first `n` items of `v`.
pub open spec fn models_upto(v: Vec<Json>, n: nat) -> Seq<JsonModel>
    decreases v, n,
{
    if n == 0 || n > v.len() {
        Seq::empty()
    } else {
        models_upto(v, (n - 1) as nat).push(v[n - 1].model())
    }
}

/// The models of the first `n` fields of `f`.
pub open spec fn fields_upto(f: Vec<(String, Json)>, n: nat) -> Fields
    decreases f, n,
{
    if n == 0 || n > f.len() {
        Seq::empty()
    } else {
        fields_upto(f, (n - 1) as nat).push((f[n - 1].0@, f[n - 1].1.model()))
    }
}

pub open spec fn models_of(v: Vec<Json>) -> Seq<JsonModel> {
    models_upto(v, v.len() as nat)
}

/// The model of an object's fields.
pub open spec fn fields_of(f: Vec<(String, Json)>) -> Fields {
    fields_upto(f, f.len() as nat)
}

pub proof fn lemma_models_upto(v: Vec<Json>, n: nat)
    requires
        n <= v.len(),
    ensures
        models_upto(v, n).len() == n,
        forall|i: int| 0 <= i < n ==> #[trigger] models_upto(v, n)[i] == v[i].model(),
    decreases n,
{
    if n > 0 {
        lemma_models_upto(v, (n - 1) as nat);
    }
}

pub proof fn lemma_fields_upto(f: Vec<(String, Json)>, n: nat)
    requires
        n <= f.len(),
    ensures
        fields_upto(f, n).len() == n,
        forall|i: int|
            0 <= i < n ==> #[trigger] fields_upto(f, n)[i] == (f[i].0@, f[i].1.model()),
    decreases n,
{
    if n > 0 {
        lemma_fields_upto(f, (n - 1) as nat);
    }
}

pub proof fn lemma_models_of(v: Vec<Json>)
    ensures
        models_of(v).len() == v.len(),
        forall|i: int| 0 <= i < v.len() ==> #[trigger] models_of(v)[i] == v[i].model(),
{
    lemma_models_upto(v, v.len() as nat);
}

pub proof fn lemma_fields_of(f: Vec<(String, Json)>)
    ensures
        fields_of(f).len() == f.len(),
        forall|i: int| 0 <= i < f.len() ==> #[trigger] fields_of(f)[i] == (f[i].0@, f[i].1.model()),
{
    lemma_fields_upto(f, f.len() as nat);
}

/// The value of the first field named `key`, if there is one.
pub open spec fn field(fs: Fields, key: Seq<char>) -> Option<JsonModel>
    decreases fs.len(),
{
    if fs.len() == 0 {
        None
    } else if fs[0].0 == key {
        Some(fs[0].1)
    } else {
        field(fs.drop_first(), key)
    }
}

/// The string held by the field `key`, where that field is a string.
pub open spec fn str_field(fs: Fields, key: Seq<char>) -> Option<Seq<char>> {
    match field(fs, key) {
        Some(JsonModel::Str(s)) => Some(s),
        _ => None,
    }
}

/// Whether two strings hold the same characters.
pub fn str_equal(a: &str, b: &str) -> (r: bool)
    ensures
        r == (a@ == b@),
{
    let n = a.unicode_len();
    if n != b.unicode_len() {
        return false;
    }
    let mut i: usize = 0;
    while i < n
        invariant
            n == a@.len(),
            n == b@.len(),
            i <= n,
            forall|j: int| 0 <= j < i ==> a@[j] == b@[j],
        decreases n - i,
    {
        if a.get_char(i) != b.get_char(i) {
            return false;
        }
        i = i + 1;
    }
    assert(a@ =~= b@);
    true
}

/// The first field of `fs` named `key`.
pub fn get_field<'a>(fs: &'a Vec<(String, Json)>, key: &str) -> (r: Option<&'a Json>)
    ensures
        match r {
            Some(j) => field(fields_of(*fs), key@) == Some(j.model()),
            None => field(fields_of(*fs), key@) is None,
        },
{
    proof {
        lemma_fields_of(*fs);
    }
    let ghost all = fields_of(*fs);
    assert(all.subrange(0, all.len() as int) =~= all);
    let mut i: usize = 0;
    while i < fs.len()
        invariant
            i <= fs.len(),
            all == fields_of(*fs),
            all.len() == fs.len(),
            forall|j: int| 0 <= j < fs.len() ==> #[trigger] all[j] == (fs[j].0@, fs[j].1.model()),
            field(all, key@) == field(all.subrange(i as int, all.len() as int), key@),
        decreases fs.len() - i,
    {
        let ghost rest = all.subrange(i as int, all.len() as int);
        assert(rest.drop_first() =~= all.subrange(i + 1, all.len() as int));
        if str_equal(fs[i].0.as_str(), key) {
            return Some(&fs[i].1);
        }
        i = i + 1;
    }
    None
}

/// The string held by the field `key`, where that field is a string.
pub fn get_str_field<'a>(fs: &'a Vec<(String, Json)>, key: &str) -> (r: Option<&'a String>)
    ensures
        match r {
            Some(s) => str_field(fields_of(*fs), key@) == Some(s@),
            None => str_field(fields_of(*fs), key@) is None,
        },
{
    match get_field(fs, key) {
        Some(Json::Str(s)) => Some(s),
        _ => None,
    }
}

impl Json {
    /// A copy of the value, all the way down.
    pub fn deep_copy(&self) -> (r: Json)
        ensures
            r.model() == self.model(),
        decreases self,
    {
        match self {
            Json::Null => Json::Null,
            Json::Bool(b) => Json::Bool(*b),
            Json::Number(n) => Json::Number(n.clone()),
            Json::Str(s) => Json::Str(s.clone()),
            Json::Array(v) => {
                let mut out: Vec<Json> = Vec::new();
                let mut i: usize = 0;
                while i < v.len()
                    invariant
                        *self == Json::Array(*v),
                        i <= v.len(),
                        out.len() == i,
                        forall|j: int| 0 <= j < i ==> #[trigger] out[j].model() == v[j].model(),
                    decreases v.len() - i,
                {
                    proof {
                        assert(decreases_to!(*self => (*self)->Array_0));
                        assert(decreases_to!(*v => v[i as int]));
                        assert(decreases_to!(*self => v[i as int]));
                    }
                    let c = v[i].deep_copy();
                    out.push(c);
                    i = i + 1;
                }
                proof {
                    lemma_models_of(out);
                    lemma_models_of(*v);
                    assert(models_of(out) =~= models_of(*v));
                }
                Json::Array(out)
            },
            Json::Object(f) => {
                let mut out: Vec<(String, Json)> = Vec::new();
                let mut i: usize = 0;
                while i < f.len()
                    invariant
                        *self == Json::Object(*f),
                        i <= f.len(),
                        out.len() == i,
                        forall|j: int|
                            0 <= j < i ==> #[trigger] out[j].0@ == f[j].0@ && out[j].1.model()
                                == f[j].1.model(),
                    decreases f.len() - i,
                {
                    proof {
                        assert(decreases_to!(*self => (*self)->Object_0));
                        assert(decreases_to!(*f => f[i as int]));
                        assert(decreases_to!(f[i as int] => f[i as int].1));
                        assert(decreases_to!(*self => f[i as int].1));
                    }
                    let c = f[i].1.deep_copy();
                    out.push((f[i].0.clone(), c));
                    i = i + 1;
                }
                proof {
                    lemma_fields_of(out);
                    lemma_fields_of(*f);
                    assert(fields_of(out) =~= fields_of(*f));
                }
                Json::Object(out)
            },
        }
    }
}

/// Appending a field to an object appends its model to the object's model.
pub proof fn lemma_fields_push(before: Vec<(String, Json)>, after: Vec<(String, Json)>, p: (String, Json))
    requires
        after@ == before@.push(p),
    ensures
        fields_of(after) == fields_of(before).push((p.0@, p.1.model())),
{
    lemma_fields_of(before);
    lemma_fields_of(after);
    assert(fields_of(after) =~= fields_of(before).push((p.0@, p.1.model())));
}

/// Appending an item to an array appends its model to the array's model.
pub proof fn lemma_models_push(before: Vec<Json>, after: Vec<Json>, x: Json)
    requires
        after@ == before@.push(x),
    ensures
        models_of(after) == models_of(before).push(x.model()),
{
    lemma_models_of(before);
    lemma_models_of(after);
    assert(models_of(after) =~= models_of(before).push(x.model()));
}

} // verus!
