//! Typed task descriptors and their canonical JSON parameter strings.
//!
//! Every task kind serialises to a flat JSON object; a field left unset
//! never appears as a key.  Parsing accepts a canonical object in any key
//! order, ignores unknown keys, and rejects a known key holding a value of
//! the wrong shape.  Hand-written builders construct each kind; a builder
//! for a kind with required fields refuses to build while one is missing.

use vstd::prelude::*;

use crate::json::doc_view;
use crate::json::doc_text;
use crate::json::text_to_doc;
use crate::json::parse_doc;
use crate::json::write_doc;
use crate::json::Json;
use crate::json::JsonV;
use crate::json::Scalar;
use crate::json::ScalarV;
use crate::json::scalars_view;
use crate::json::pairs_view;
use crate::json::jsonv_valid;
use crate::json::doc_valid;
use crate::json::lemma_doc_round_trip;

verus! {

/// Why a parameter string was rejected, or a build refused.
#[derive(Clone, Copy, Debug, PartialEq, Eq, Structural)]
pub enum TaskError {
    /// The text is not a canonical flat JSON object.
    NotCanonical,
    /// A known key holds a value of the wrong shape or range.
    WrongType,
    /// A required field is missing.
    MissingField,
}

// ---------------------------------------------------------------------------
// Key lookup in a parsed document.
// ---------------------------------------------------------------------------

/// The value of the first member with the given key, if any.
pub open spec fn doc_get(pairs: Seq<(Seq<char>, JsonV)>, k: Seq<char>) -> Option<JsonV>
    decreases pairs.len(),
{
    if pairs.len() == 0 {
        Option::None
    } else if pairs[0].0 == k {
        Option::Some(pairs[0].1)
    } else {
        doc_get(pairs.skip(1), k)
    }
}

/// Lookup distributes over concatenation, preferring the front part.
pub proof fn lemma_doc_get_concat(a: Seq<(Seq<char>, JsonV)>, b: Seq<(Seq<char>, JsonV)>, k: Seq<char>)
    ensures
        doc_get(a + b, k) == (match doc_get(a, k) {
            Option::Some(v) => Option::Some(v),
            Option::None => doc_get(b, k),
        }),
    decreases a.len(),
{
    if a.len() == 0 {
        assert(a + b =~= b);
    } else {
        assert((a + b)[0] == a[0]);
        assert((a + b).skip(1) =~= a.skip(1) + b);
        lemma_doc_get_concat(a.skip(1), b, k);
    }
}

/// Whether two string slices hold the same characters.
pub fn str_eq(a: &str, b: &str) -> (r: bool)
    ensures
        r == (a@ == b@),
{
    let n: usize = a.unicode_len();
    let m: usize = b.unicode_len();
    if n != m {
        proof {
            assert(a@ != b@);
        }
        return false;
    }
    let mut i: usize = 0;
    while i < n
        invariant
            n == a@.len(),
            n == b@.len(),
            i <= n,
            forall|j: int| 0 <= j < i ==> a@[j] == b@[j],
        decreases n - i,
    {
        if a.get_char(i) != b.get_char(i) {
            proof {
                assert(a@[i as int] != b@[i as int]);
            }
            return false;
        }
        i = i + 1;
    }
    proof {
        assert(a@ =~= b@);
    }
    true
}

/// The value of the first member with the given key, from position `i` on.
pub open spec fn doc_get_from(pairs: Seq<(Seq<char>, JsonV)>, i: int, k: Seq<char>) -> Option<JsonV>
    decreases pairs.len() - i,
{
    if !(0 <= i < pairs.len()) {
        Option::None
    } else if pairs[i].0 == k {
        Option::Some(pairs[i].1)
    } else {
        doc_get_from(pairs, i + 1, k)
    }
}

/// Lookup from the front is lookup from position zero.
pub proof fn lemma_doc_get_from(pairs: Seq<(Seq<char>, JsonV)>, i: int, k: Seq<char>)
    requires
        0 <= i <= pairs.len(),
    ensures
        doc_get_from(pairs, i, k) == doc_get(pairs.skip(i), k),
    decreases pairs.len() - i,
{
    assert(pairs.skip(i).len() == pairs.len() - i);
    if i < pairs.len() {
        assert(pairs.skip(i)[0] == pairs[i]);
        lemma_doc_get_from(pairs, i + 1, k);
        assert(pairs.skip(i).skip(1) =~= pairs.skip(i + 1));
    }
}

/// Find the first member with the given key.
fn x_doc_get(pairs: &Vec<(String, Json)>, i: usize, k: &str) -> (r: Option<Json>)
    requires
        i <= pairs@.len(),
    ensures
        match doc_get_from(doc_view(pairs@), i as int, k@) {
            Option::None => r is None,
            Option::Some(v) => r matches Option::Some(j) && j@ == v,
        },
    decreases pairs@.len() - i,
{
    if i >= pairs.len() {
        return Option::None;
    }
    proof {
        assert(doc_view(pairs@)[i as int] == (pairs@[i as int].0@, pairs@[i as int].1@));
    }
    if str_eq(pairs[i].0.as_str(), k) {
        Option::Some(pairs[i].1.clone_value())
    } else {
        x_doc_get(pairs, i + 1, k)
    }
}

impl Scalar {
    /// An equal scalar.
    pub fn clone_value(&self) -> (r: Scalar)
        ensures
            r@ == self@,
    {
        match self {
            Scalar::Bool(b) => Scalar::Bool(*b),
            Scalar::Int(i) => Scalar::Int(*i),
            Scalar::Str(s) => Scalar::Str(s.clone()),
            Scalar::Milli(m) => Scalar::Milli(*m),
        }
    }
}

impl Json {
    /// An equal value.
    pub fn clone_value(&self) -> (r: Json)
        ensures
            r@ == self@,
    {
        match self {
            Json::Sc(v) => Json::Sc(v.clone_value()),
            Json::Arr(elems) => {
                let mut out: Vec<Scalar> = Vec::new();
                let mut i: usize = 0;
                while i < elems.len()
                    invariant
                        i <= elems@.len(),
                        out@.len() == i,
                        forall|j: int| 0 <= j < i ==> out@[j]@ == elems@[j]@,
                    decreases elems@.len() - i,
                {
                    out.push(elems[i].clone_value());
                    i = i + 1;
                }
                proof {
                    assert(scalars_view(out@) =~= scalars_view(elems@));
                }
                Json::Arr(out)
            },
            Json::Obj(pairs) => {
                let mut out: Vec<(String, Scalar)> = Vec::new();
                let mut i: usize = 0;
                while i < pairs.len()
                    invariant
                        i <= pairs@.len(),
                        out@.len() == i,
                        forall|j: int| 0 <= j < i ==> out@[j].0@ == pairs@[j].0@ && out@[j].1@
                            == pairs@[j].1@,
                    decreases pairs@.len() - i,
                {
                    out.push((pairs[i].0.clone(), pairs[i].1.clone_value()));
                    i = i + 1;
                }
                proof {
                    assert(pairs_view(out@) =~= pairs_view(pairs@));
                }
                Json::Obj(out)
            },
        }
    }
}


// ---------------------------------------------------------------------------
// Field kinds.  Each task field is one of a dozen shapes; for each shape
// there is the member block it contributes to the document, a getter over a
// parsed document, executable counterparts, and the lemma that getting what
// the block wrote yields the field back.
// ---------------------------------------------------------------------------

/// The character model of an optional string field.
pub open spec fn opt_str_view(v: Option<String>) -> Option<Seq<char>> {
    match v {
        Option::None => Option::None,
        Option::Some(s) => Option::Some(s@),
    }
}

/// The character models of a string list.
pub open spec fn strs_view(v: Seq<String>) -> Seq<Seq<char>> {
    Seq::new(v.len(), |i: int| v[i]@)
}

/// The character models of a string-to-integer map.
pub open spec fn ipairs_view(v: Seq<(String, i32)>) -> Seq<(Seq<char>, i32)> {
    Seq::new(v.len(), |i: int| (v[i].0@, v[i].1))
}

/// The character models of a string-to-boolean map.
pub open spec fn bpairs_view(v: Seq<(String, bool)>) -> Seq<(Seq<char>, bool)> {
    Seq::new(v.len(), |i: int| (v[i].0@, v[i].1))
}

/// The scalar models of an integer list.
pub open spec fn jv_int_list(v: Seq<i32>) -> Seq<ScalarV> {
    Seq::new(v.len(), |i: int| ScalarV::Int(v[i] as int))
}

/// The scalar models of a string list.
pub open spec fn jv_str_list(v: Seq<Seq<char>>) -> Seq<ScalarV> {
    Seq::new(v.len(), |i: int| ScalarV::Str(v[i]))
}

/// The member models of an integer map.
pub open spec fn jv_int_map(v: Seq<(Seq<char>, i32)>) -> Seq<(Seq<char>, ScalarV)> {
    Seq::new(v.len(), |i: int| (v[i].0, ScalarV::Int(v[i].1 as int)))
}

/// The member models of a boolean map.
pub open spec fn jv_bool_map(v: Seq<(Seq<char>, bool)>) -> Seq<(Seq<char>, ScalarV)> {
    Seq::new(v.len(), |i: int| (v[i].0, ScalarV::Bool(v[i].1)))
}

/// The members an optional boolean field contributes.
pub open spec fn b_opt_bool(k: Seq<char>, v: Option<bool>) -> Seq<(Seq<char>, JsonV)> {
    match v {
        Option::None => Seq::empty(),
        Option::Some(b) => seq![(k, JsonV::Sc(ScalarV::Bool(b)))],
    }
}

/// The members an optional integer field contributes.
pub open spec fn b_opt_int(k: Seq<char>, v: Option<i32>) -> Seq<(Seq<char>, JsonV)> {
    match v {
        Option::None => Seq::empty(),
        Option::Some(i) => seq![(k, JsonV::Sc(ScalarV::Int(i as int)))],
    }
}

/// The members an optional string field contributes.
pub open spec fn b_opt_str(k: Seq<char>, v: Option<Seq<char>>) -> Seq<(Seq<char>, JsonV)> {
    match v {
        Option::None => Seq::empty(),
        Option::Some(s) => seq![(k, JsonV::Sc(ScalarV::Str(s)))],
    }
}

/// The members an optional thousandths field contributes.
pub open spec fn b_opt_milli(k: Seq<char>, v: Option<u32>) -> Seq<(Seq<char>, JsonV)> {
    match v {
        Option::None => Seq::empty(),
        Option::Some(m) => seq![(k, JsonV::Sc(ScalarV::Milli(m as nat)))],
    }
}

/// The member a required boolean field contributes.
pub open spec fn b_req_bool(k: Seq<char>, v: bool) -> Seq<(Seq<char>, JsonV)> {
    seq![(k, JsonV::Sc(ScalarV::Bool(v)))]
}

/// The member a required string field contributes.
pub open spec fn b_req_str(k: Seq<char>, v: Seq<char>) -> Seq<(Seq<char>, JsonV)> {
    seq![(k, JsonV::Sc(ScalarV::Str(v)))]
}

/// The member a required integer-list field contributes.
pub open spec fn b_int_list(k: Seq<char>, v: Seq<i32>) -> Seq<(Seq<char>, JsonV)> {
    seq![(k, JsonV::Arr(jv_int_list(v)))]
}

/// The member a required string-list field contributes.
pub open spec fn b_str_list(k: Seq<char>, v: Seq<Seq<char>>) -> Seq<(Seq<char>, JsonV)> {
    seq![(k, JsonV::Arr(jv_str_list(v)))]
}

/// The members an optional string-list field contributes.
pub open spec fn b_opt_str_list(k: Seq<char>, v: Option<Seq<Seq<char>>>) -> Seq<(Seq<char>, JsonV)> {
    match v {
        Option::None => Seq::empty(),
        Option::Some(l) => b_str_list(k, l),
    }
}

/// The members an optional integer-map field contributes.
pub open spec fn b_opt_int_map(k: Seq<char>, v: Option<Seq<(Seq<char>, i32)>>) -> Seq<(Seq<char>, JsonV)> {
    match v {
        Option::None => Seq::empty(),
        Option::Some(m) => seq![(k, JsonV::Obj(jv_int_map(m)))],
    }
}

/// The members an optional boolean-map field contributes.
pub open spec fn b_opt_bool_map(k: Seq<char>, v: Option<Seq<(Seq<char>, bool)>>) -> Seq<(Seq<char>, JsonV)> {
    match v {
        Option::None => Seq::empty(),
        Option::Some(m) => seq![(k, JsonV::Obj(jv_bool_map(m)))],
    }
}

/// The member a required scalar-map field contributes.
pub open spec fn b_scalar_map(k: Seq<char>, v: Seq<(Seq<char>, ScalarV)>) -> Seq<(Seq<char>, JsonV)> {
    seq![(k, JsonV::Obj(v))]
}

// ---------------------------------------------------------------------------
// Getters over a parsed document.
// ---------------------------------------------------------------------------

/// The integers of a scalar list, where every member is an integer in
/// machine range.
pub open spec fn ints_of(elems: Seq<ScalarV>) -> Option<Seq<i32>>
    decreases elems.len(),
{
    if elems.len() == 0 {
        Option::Some(Seq::empty())
    } else {
        match elems[0] {
            ScalarV::Int(i) => if i32::MIN <= i <= i32::MAX {
                match ints_of(elems.skip(1)) {
                    Option::Some(r) => Option::Some(seq![i as i32] + r),
                    Option::None => Option::None,
                }
            } else {
                Option::None
            },
            _ => Option::None,
        }
    }
}

/// The strings of a scalar list, where every member is a string.
pub open spec fn strs_of(elems: Seq<ScalarV>) -> Option<Seq<Seq<char>>>
    decreases elems.len(),
{
    if elems.len() == 0 {
        Option::Some(Seq::empty())
    } else {
        match elems[0] {
            ScalarV::Str(s) => match strs_of(elems.skip(1)) {
                Option::Some(r) => Option::Some(seq![s] + r),
                Option::None => Option::None,
            },
            _ => Option::None,
        }
    }
}

/// The integer members of a scalar map, where every value is an integer in
/// machine range.
pub open spec fn imap_of(pairs: Seq<(Seq<char>, ScalarV)>) -> Option<Seq<(Seq<char>, i32)>>
    decreases pairs.len(),
{
    if pairs.len() == 0 {
        Option::Some(Seq::empty())
    } else {
        match pairs[0].1 {
            ScalarV::Int(i) => if i32::MIN <= i <= i32::MAX {
                match imap_of(pairs.skip(1)) {
                    Option::Some(r) => Option::Some(seq![(pairs[0].0, i as i32)] + r),
                    Option::None => Option::None,
                }
            } else {
                Option::None
            },
            _ => Option::None,
        }
    }
}

/// The boolean members of a scalar map, where every value is a boolean.
pub open spec fn bmap_of(pairs: Seq<(Seq<char>, ScalarV)>) -> Option<Seq<(Seq<char>, bool)>>
    decreases pairs.len(),
{
    if pairs.len() == 0 {
        Option::Some(Seq::empty())
    } else {
        match pairs[0].1 {
            ScalarV::Bool(b) => match bmap_of(pairs.skip(1)) {
                Option::Some(r) => Option::Some(seq![(pairs[0].0, b)] + r),
                Option::None => Option::None,
            },
            _ => Option::None,
        }
    }
}

/// Whether no key repeats among a map-valued field's members.  The wire
/// format writes such a field as a JSON object, and an object holds each
/// key once.
pub open spec fn str_keys_unique<V>(v: Seq<(Seq<char>, V)>) -> bool {
    forall|i: int, j: int| 0 <= i < j < v.len() ==> v[i].0 != v[j].0
}

/// Get an optional boolean field.
pub open spec fn sget_opt_bool(pairs: Seq<(Seq<char>, JsonV)>, k: Seq<char>) -> Result<Option<bool>, TaskError> {
    match doc_get(pairs, k) {
        Option::None => Result::Ok(Option::None),
        Option::Some(JsonV::Sc(ScalarV::Bool(b))) => Result::Ok(Option::Some(b)),
        Option::Some(_) => Result::Err(TaskError::WrongType),
    }
}

/// Get an optional integer field.
pub open spec fn sget_opt_int(pairs: Seq<(Seq<char>, JsonV)>, k: Seq<char>) -> Result<Option<i32>, TaskError> {
    match doc_get(pairs, k) {
        Option::None => Result::Ok(Option::None),
        Option::Some(JsonV::Sc(ScalarV::Int(i))) => if i32::MIN <= i <= i32::MAX {
            Result::Ok(Option::Some(i as i32))
        } else {
            Result::Err(TaskError::WrongType)
        },
        Option::Some(_) => Result::Err(TaskError::WrongType),
    }
}

/// Get an optional string field.
pub open spec fn sget_opt_str(pairs: Seq<(Seq<char>, JsonV)>, k: Seq<char>) -> Result<Option<Seq<char>>, TaskError> {
    match doc_get(pairs, k) {
        Option::None => Result::Ok(Option::None),
        Option::Some(JsonV::Sc(ScalarV::Str(s))) => Result::Ok(Option::Some(s)),
        Option::Some(_) => Result::Err(TaskError::WrongType),
    }
}

/// Get an optional thousandths field.
pub open spec fn sget_opt_milli(pairs: Seq<(Seq<char>, JsonV)>, k: Seq<char>) -> Result<Option<u32>, TaskError> {
    match doc_get(pairs, k) {
        Option::None => Result::Ok(Option::None),
        Option::Some(JsonV::Sc(ScalarV::Milli(m))) => if m <= u32::MAX {
            Result::Ok(Option::Some(m as u32))
        } else {
            Result::Err(TaskError::WrongType)
        },
        Option::Some(_) => Result::Err(TaskError::WrongType),
    }
}

/// Get a required boolean field.
pub open spec fn sget_req_bool(pairs: Seq<(Seq<char>, JsonV)>, k: Seq<char>) -> Result<bool, TaskError> {
    match doc_get(pairs, k) {
        Option::None => Result::Err(TaskError::MissingField),
        Option::Some(JsonV::Sc(ScalarV::Bool(b))) => Result::Ok(b),
        Option::Some(_) => Result::Err(TaskError::WrongType),
    }
}

/// Get a required string field.
pub open spec fn sget_req_str(pairs: Seq<(Seq<char>, JsonV)>, k: Seq<char>) -> Result<Seq<char>, TaskError> {
    match doc_get(pairs, k) {
        Option::None => Result::Err(TaskError::MissingField),
        Option::Some(JsonV::Sc(ScalarV::Str(s))) => Result::Ok(s),
        Option::Some(_) => Result::Err(TaskError::WrongType),
    }
}

/// Get a required integer-list field.
pub open spec fn sget_int_list(pairs: Seq<(Seq<char>, JsonV)>, k: Seq<char>) -> Result<Seq<i32>, TaskError> {
    match doc_get(pairs, k) {
        Option::None => Result::Err(TaskError::MissingField),
        Option::Some(JsonV::Arr(elems)) => match ints_of(elems) {
            Option::Some(v) => Result::Ok(v),
            Option::None => Result::Err(TaskError::WrongType),
        },
        Option::Some(_) => Result::Err(TaskError::WrongType),
    }
}

/// Get a required string-list field.
pub open spec fn sget_str_list(pairs: Seq<(Seq<char>, JsonV)>, k: Seq<char>) -> Result<Seq<Seq<char>>, TaskError> {
    match doc_get(pairs, k) {
        Option::None => Result::Err(TaskError::MissingField),
        Option::Some(JsonV::Arr(elems)) => match strs_of(elems) {
            Option::Some(v) => Result::Ok(v),
            Option::None => Result::Err(TaskError::WrongType),
        },
        Option::Some(_) => Result::Err(TaskError::WrongType),
    }
}

/// Get an optional string-list field.
pub open spec fn sget_opt_str_list(pairs: Seq<(Seq<char>, JsonV)>, k: Seq<char>) -> Result<Option<Seq<Seq<char>>>, TaskError> {
    match doc_get(pairs, k) {
        Option::None => Result::Ok(Option::None),
        Option::Some(JsonV::Arr(elems)) => match strs_of(elems) {
            Option::Some(v) => Result::Ok(Option::Some(v)),
            Option::None => Result::Err(TaskError::WrongType),
        },
        Option::Some(_) => Result::Err(TaskError::WrongType),
    }
}

/// Get an optional integer-map field.
pub open spec fn sget_opt_int_map(pairs: Seq<(Seq<char>, JsonV)>, k: Seq<char>) -> Result<Option<Seq<(Seq<char>, i32)>>, TaskError> {
    match doc_get(pairs, k) {
        Option::None => Result::Ok(Option::None),
        Option::Some(JsonV::Obj(m)) => match imap_of(m) {
            Option::Some(v) => Result::Ok(Option::Some(v)),
            Option::None => Result::Err(TaskError::WrongType),
        },
        Option::Some(_) => Result::Err(TaskError::WrongType),
    }
}

/// Get an optional boolean-map field.
pub open spec fn sget_opt_bool_map(pairs: Seq<(Seq<char>, JsonV)>, k: Seq<char>) -> Result<Option<Seq<(Seq<char>, bool)>>, TaskError> {
    match doc_get(pairs, k) {
        Option::None => Result::Ok(Option::None),
        Option::Some(JsonV::Obj(m)) => match bmap_of(m) {
            Option::Some(v) => Result::Ok(Option::Some(v)),
            Option::None => Result::Err(TaskError::WrongType),
        },
        Option::Some(_) => Result::Err(TaskError::WrongType),
    }
}

/// Get a required scalar-map field.
pub open spec fn sget_scalar_map(pairs: Seq<(Seq<char>, JsonV)>, k: Seq<char>) -> Result<Seq<(Seq<char>, ScalarV)>, TaskError> {
    match doc_get(pairs, k) {
        Option::None => Result::Err(TaskError::MissingField),
        Option::Some(JsonV::Obj(m)) => Result::Ok(m),
        Option::Some(_) => Result::Err(TaskError::WrongType),
    }
}


// ---------------------------------------------------------------------------
// Executable field helpers.
// ---------------------------------------------------------------------------

/// Append one member to a document under construction.
fn push_member(out: &mut Vec<(String, Json)>, key: &str, v: Json)
    ensures
        doc_view(final(out)@) == doc_view(old(out)@) + seq![(key@, v@)],
{
    let ghost oldv = out@;
    out.push((key.to_owned(), v));
    proof {
        assert(doc_view(out@) =~= doc_view(oldv) + seq![(key@, out@[out@.len() - 1].1@)]);
    }
}

/// Append an optional boolean field.
pub fn push_opt_bool(out: &mut Vec<(String, Json)>, key: &str, v: &Option<bool>)
    ensures
        doc_view(final(out)@) == doc_view(old(out)@) + b_opt_bool(key@, *v),
{
    match v {
        Option::Some(b) => {
            push_member(out, key, Json::Sc(Scalar::Bool(*b)));
        },
        Option::None => {
            proof {
                assert(doc_view(out@) =~= doc_view(out@) + b_opt_bool(key@, *v));
            }
        },
    }
}

/// Append an optional integer field.
pub fn push_opt_int(out: &mut Vec<(String, Json)>, key: &str, v: &Option<i32>)
    ensures
        doc_view(final(out)@) == doc_view(old(out)@) + b_opt_int(key@, *v),
{
    match v {
        Option::Some(i) => {
            push_member(out, key, Json::Sc(Scalar::Int(*i as i64)));
        },
        Option::None => {
            proof {
                assert(doc_view(out@) =~= doc_view(out@) + b_opt_int(key@, *v));
            }
        },
    }
}

/// Append an optional string field.
pub fn push_opt_str(out: &mut Vec<(String, Json)>, key: &str, v: &Option<String>)
    ensures
        doc_view(final(out)@) == doc_view(old(out)@) + b_opt_str(key@, opt_str_view(*v)),
{
    match v {
        Option::Some(s) => {
            push_member(out, key, Json::Sc(Scalar::Str(s.clone())));
        },
        Option::None => {
            proof {
                assert(doc_view(out@) =~= doc_view(out@) + b_opt_str(key@, opt_str_view(*v)));
            }
        },
    }
}

/// Append an optional thousandths field.
pub fn push_opt_milli(out: &mut Vec<(String, Json)>, key: &str, v: &Option<u32>)
    ensures
        doc_view(final(out)@) == doc_view(old(out)@) + b_opt_milli(key@, *v),
{
    match v {
        Option::Some(m) => {
            push_member(out, key, Json::Sc(Scalar::Milli(*m)));
        },
        Option::None => {
            proof {
                assert(doc_view(out@) =~= doc_view(out@) + b_opt_milli(key@, *v));
            }
        },
    }
}

/// Append a required boolean field.
pub fn push_req_bool(out: &mut Vec<(String, Json)>, key: &str, v: bool)
    ensures
        doc_view(final(out)@) == doc_view(old(out)@) + b_req_bool(key@, v),
{
    push_member(out, key, Json::Sc(Scalar::Bool(v)));
}

/// Append a required string field.
pub fn push_req_str(out: &mut Vec<(String, Json)>, key: &str, v: &String)
    ensures
        doc_view(final(out)@) == doc_view(old(out)@) + b_req_str(key@, v@),
{
    push_member(out, key, Json::Sc(Scalar::Str(v.clone())));
}

/// The scalars of an integer list.
fn int_list_scalars(v: &Vec<i32>) -> (r: Vec<Scalar>)
    ensures
        scalars_view(r@) == jv_int_list(v@),
{
    let mut out: Vec<Scalar> = Vec::new();
    let mut i: usize = 0;
    while i < v.len()
        invariant
            i <= v@.len(),
            out@.len() == i,
            forall|j: int| 0 <= j < i ==> out@[j]@ == ScalarV::Int(v@[j] as int),
        decreases v@.len() - i,
    {
        out.push(Scalar::Int(v[i] as i64));
        i = i + 1;
    }
    proof {
        assert(scalars_view(out@) =~= jv_int_list(v@));
    }
    out
}

/// The scalars of a string list.
fn str_list_scalars(v: &Vec<String>) -> (r: Vec<Scalar>)
    ensures
        scalars_view(r@) == jv_str_list(strs_view(v@)),
{
    let mut out: Vec<Scalar> = Vec::new();
    let mut i: usize = 0;
    while i < v.len()
        invariant
            i <= v@.len(),
            out@.len() == i,
            forall|j: int| 0 <= j < i ==> out@[j]@ == ScalarV::Str(v@[j]@),
        decreases v@.len() - i,
    {
        out.push(Scalar::Str(v[i].clone()));
        i = i + 1;
    }
    proof {
        assert(scalars_view(out@) =~= jv_str_list(strs_view(v@)));
    }
    out
}

/// Append a required integer-list field.
pub fn push_int_list(out: &mut Vec<(String, Json)>, key: &str, v: &Vec<i32>)
    ensures
        doc_view(final(out)@) == doc_view(old(out)@) + b_int_list(key@, v@),
{
    push_member(out, key, Json::Arr(int_list_scalars(v)));
}

/// Append a required string-list field.
pub fn push_str_list(out: &mut Vec<(String, Json)>, key: &str, v: &Vec<String>)
    ensures
        doc_view(final(out)@) == doc_view(old(out)@) + b_str_list(key@, strs_view(v@)),
{
    push_member(out, key, Json::Arr(str_list_scalars(v)));
}

/// Append an optional string-list field.
pub fn push_opt_str_list(out: &mut Vec<(String, Json)>, key: &str, v: &Option<Vec<String>>)
    ensures
        doc_view(final(out)@) == doc_view(old(out)@) + b_opt_str_list(
            key@,
            match *v {
                Option::None => Option::None,
                Option::Some(l) => Option::Some(strs_view(l@)),
            },
        ),
{
    match v {
        Option::Some(l) => {
            push_str_list(out, key, l);
        },
        Option::None => {
            proof {
                assert(doc_view(out@) =~= doc_view(out@) + Seq::<(Seq<char>, JsonV)>::empty());
            }
        },
    }
}

/// Append an optional integer-map field.
pub fn push_opt_int_map(out: &mut Vec<(String, Json)>, key: &str, v: &Option<Vec<(String, i32)>>)
    ensures
        doc_view(final(out)@) == doc_view(old(out)@) + b_opt_int_map(
            key@,
            match *v {
                Option::None => Option::None,
                Option::Some(m) => Option::Some(ipairs_view(m@)),
            },
        ),
{
    match v {
        Option::Some(m) => {
            let mut obj: Vec<(String, Scalar)> = Vec::new();
            let mut i: usize = 0;
            while i < m.len()
                invariant
                    i <= m@.len(),
                    obj@.len() == i,
                    forall|j: int| 0 <= j < i ==> obj@[j].0@ == m@[j].0@ && obj@[j].1@
                        == ScalarV::Int(m@[j].1 as int),
                decreases m@.len() - i,
            {
                obj.push((m[i].0.clone(), Scalar::Int(m[i].1 as i64)));
                i = i + 1;
            }
            proof {
                assert(pairs_view(obj@) =~= jv_int_map(ipairs_view(m@)));
            }
            push_member(out, key, Json::Obj(obj));
        },
        Option::None => {
            proof {
                assert(doc_view(out@) =~= doc_view(out@) + Seq::<(Seq<char>, JsonV)>::empty());
            }
        },
    }
}

/// Append an optional boolean-map field.
pub fn push_opt_bool_map(out: &mut Vec<(String, Json)>, key: &str, v: &Option<Vec<(String, bool)>>)
    ensures
        doc_view(final(out)@) == doc_view(old(out)@) + b_opt_bool_map(
            key@,
            match *v {
                Option::None => Option::None,
                Option::Some(m) => Option::Some(bpairs_view(m@)),
            },
        ),
{
    match v {
        Option::Some(m) => {
            let mut obj: Vec<(String, Scalar)> = Vec::new();
            let mut i: usize = 0;
            while i < m.len()
                invariant
                    i <= m@.len(),
                    obj@.len() == i,
                    forall|j: int| 0 <= j < i ==> obj@[j].0@ == m@[j].0@ && obj@[j].1@
                        == ScalarV::Bool(m@[j].1),
                decreases m@.len() - i,
            {
                obj.push((m[i].0.clone(), Scalar::Bool(m[i].1)));
                i = i + 1;
            }
            proof {
                assert(pairs_view(obj@) =~= jv_bool_map(bpairs_view(m@)));
            }
            push_member(out, key, Json::Obj(obj));
        },
        Option::None => {
            proof {
                assert(doc_view(out@) =~= doc_view(out@) + Seq::<(Seq<char>, JsonV)>::empty());
            }
        },
    }
}

/// Append a required scalar-map field.
pub fn push_scalar_map(out: &mut Vec<(String, Json)>, key: &str, v: &Vec<(String, Scalar)>)
    ensures
        doc_view(final(out)@) == doc_view(old(out)@) + b_scalar_map(key@, pairs_view(v@)),
{
    let mut obj: Vec<(String, Scalar)> = Vec::new();
    let mut i: usize = 0;
    while i < v.len()
        invariant
            i <= v@.len(),
            obj@.len() == i,
            forall|j: int| 0 <= j < i ==> obj@[j].0@ == v@[j].0@ && obj@[j].1@ == v@[j].1@,
        decreases v@.len() - i,
    {
        obj.push((v[i].0.clone(), v[i].1.clone_value()));
        i = i + 1;
    }
    proof {
        assert(pairs_view(obj@) =~= pairs_view(v@));
    }
    push_member(out, key, Json::Obj(obj));
}


// ---------------------------------------------------------------------------
// Executable getters.
// ---------------------------------------------------------------------------

/// Find the value of a key, as the specification-level lookup sees it.
fn get_value(pairs: &Vec<(String, Json)>, k: &str) -> (r: Option<Json>)
    ensures
        match doc_get(doc_view(pairs@), k@) {
            Option::None => r is None,
            Option::Some(v) => r matches Option::Some(j) && j@ == v,
        },
{
    proof {
        lemma_doc_get_from(doc_view(pairs@), 0, k@);
        assert(doc_view(pairs@).skip(0) =~= doc_view(pairs@));
    }
    x_doc_get(pairs, 0, k)
}

/// Get an optional boolean field.
pub fn get_opt_bool(pairs: &Vec<(String, Json)>, k: &str) -> (r: Result<Option<bool>, TaskError>)
    ensures
        r == sget_opt_bool(doc_view(pairs@), k@),
{
    match get_value(pairs, k) {
        Option::None => Result::Ok(Option::None),
        Option::Some(j) => match j {
            Json::Sc(Scalar::Bool(b)) => Result::Ok(Option::Some(b)),
            _ => Result::Err(TaskError::WrongType),
        },
    }
}

/// Get an optional integer field.
pub fn get_opt_int(pairs: &Vec<(String, Json)>, k: &str) -> (r: Result<Option<i32>, TaskError>)
    ensures
        r == sget_opt_int(doc_view(pairs@), k@),
{
    match get_value(pairs, k) {
        Option::None => Result::Ok(Option::None),
        Option::Some(j) => match j {
            Json::Sc(Scalar::Int(i)) => {
                if i32::MIN as i64 <= i && i <= i32::MAX as i64 {
                    Result::Ok(Option::Some(i as i32))
                } else {
                    Result::Err(TaskError::WrongType)
                }
            },
            _ => Result::Err(TaskError::WrongType),
        },
    }
}

/// Get an optional string field.
pub fn get_opt_str(pairs: &Vec<(String, Json)>, k: &str) -> (r: Result<Option<String>, TaskError>)
    ensures
        match sget_opt_str(doc_view(pairs@), k@) {
            Result::Ok(o) => r matches Result::Ok(ro) && (match o {
                Option::None => ro is None,
                Option::Some(t) => ro matches Option::Some(s) && s@ == t,
            }),
            Result::Err(e) => r == Result::<Option<String>, TaskError>::Err(e),
        },
{
    match get_value(pairs, k) {
        Option::None => Result::Ok(Option::None),
        Option::Some(j) => match j {
            Json::Sc(Scalar::Str(s)) => Result::Ok(Option::Some(s)),
            _ => Result::Err(TaskError::WrongType),
        },
    }
}

/// Get an optional thousandths field.
pub fn get_opt_milli(pairs: &Vec<(String, Json)>, k: &str) -> (r: Result<Option<u32>, TaskError>)
    ensures
        r == sget_opt_milli(doc_view(pairs@), k@),
{
    match get_value(pairs, k) {
        Option::None => Result::Ok(Option::None),
        Option::Some(j) => match j {
            Json::Sc(Scalar::Milli(m)) => Result::Ok(Option::Some(m)),
            _ => Result::Err(TaskError::WrongType),
        },
    }
}

/// Get a required boolean field.
pub fn get_req_bool(pairs: &Vec<(String, Json)>, k: &str) -> (r: Result<bool, TaskError>)
    ensures
        r == sget_req_bool(doc_view(pairs@), k@),
{
    match get_value(pairs, k) {
        Option::None => Result::Err(TaskError::MissingField),
        Option::Some(j) => match j {
            Json::Sc(Scalar::Bool(b)) => Result::Ok(b),
            _ => Result::Err(TaskError::WrongType),
        },
    }
}

/// Get a required string field.
pub fn get_req_str(pairs: &Vec<(String, Json)>, k: &str) -> (r: Result<String, TaskError>)
    ensures
        match sget_req_str(doc_view(pairs@), k@) {
            Result::Ok(t) => r matches Result::Ok(s) && s@ == t,
            Result::Err(e) => r == Result::<String, TaskError>::Err(e),
        },
{
    match get_value(pairs, k) {
        Option::None => Result::Err(TaskError::MissingField),
        Option::Some(j) => match j {
            Json::Sc(Scalar::Str(s)) => Result::Ok(s),
            _ => Result::Err(TaskError::WrongType),
        },
    }
}

/// The integers of a scalar list, from the given position on.
pub open spec fn ints_from(elems: Seq<ScalarV>, i: int) -> Option<Seq<i32>>
    decreases elems.len() - i,
{
    if !(0 <= i < elems.len()) {
        Option::Some(Seq::empty())
    } else {
        match elems[i] {
            ScalarV::Int(n) => if i32::MIN <= n <= i32::MAX {
                match ints_from(elems, i + 1) {
                    Option::Some(r) => Option::Some(seq![n as i32] + r),
                    Option::None => Option::None,
                }
            } else {
                Option::None
            },
            _ => Option::None,
        }
    }
}

/// Decoding from the front decodes the whole list.
proof fn lemma_ints_from(elems: Seq<ScalarV>, i: int)
    requires
        0 <= i <= elems.len(),
    ensures
        ints_from(elems, i) == ints_of(elems.skip(i)),
    decreases elems.len() - i,
{
    assert(elems.skip(i).len() == elems.len() - i);
    if i < elems.len() {
        assert(elems.skip(i)[0] == elems[i]);
        lemma_ints_from(elems, i + 1);
        assert(elems.skip(i).skip(1) =~= elems.skip(i + 1));
    }
}

/// The integers of a scalar list.
fn x_ints(elems: &Vec<Scalar>, i: usize) -> (r: Option<Vec<i32>>)
    requires
        i <= elems@.len(),
    ensures
        match ints_from(scalars_view(elems@), i as int) {
            Option::None => r is None,
            Option::Some(v) => r matches Option::Some(w) && w@ == v,
        },
    decreases elems@.len() - i,
{
    if i >= elems.len() {
        return Option::Some(Vec::new());
    }
    proof {
        assert(scalars_view(elems@)[i as int] == elems@[i as int]@);
    }
    match &elems[i] {
        Scalar::Int(n) => {
            let n = *n;
            if i32::MIN as i64 <= n && n <= i32::MAX as i64 {
                match x_ints(elems, i + 1) {
                    Option::Some(rest) => {
                        let mut rest = rest;
                        let ghost rv = rest@;
                        rest.insert(0, n as i32);
                        proof {
                            assert(rest@ =~= seq![(n as i32)] + rv);
                        }
                        Option::Some(rest)
                    },
                    Option::None => Option::None,
                }
            } else {
                Option::None
            }
        },
        _ => Option::None,
    }
}

/// The strings of a scalar list, from the given position on.
pub open spec fn strs_from(elems: Seq<ScalarV>, i: int) -> Option<Seq<Seq<char>>>
    decreases elems.len() - i,
{
    if !(0 <= i < elems.len()) {
        Option::Some(Seq::empty())
    } else {
        match elems[i] {
            ScalarV::Str(s) => match strs_from(elems, i + 1) {
                Option::Some(r) => Option::Some(seq![s] + r),
                Option::None => Option::None,
            },
            _ => Option::None,
        }
    }
}

/// Decoding from the front decodes the whole list.
proof fn lemma_strs_from(elems: Seq<ScalarV>, i: int)
    requires
        0 <= i <= elems.len(),
    ensures
        strs_from(elems, i) == strs_of(elems.skip(i)),
    decreases elems.len() - i,
{
    assert(elems.skip(i).len() == elems.len() - i);
    if i < elems.len() {
        assert(elems.skip(i)[0] == elems[i]);
        lemma_strs_from(elems, i + 1);
        assert(elems.skip(i).skip(1) =~= elems.skip(i + 1));
    }
}

/// The strings of a scalar list.
fn x_strs(elems: &Vec<Scalar>, i: usize) -> (r: Option<Vec<String>>)
    requires
        i <= elems@.len(),
    ensures
        match strs_from(scalars_view(elems@), i as int) {
            Option::None => r is None,
            Option::Some(v) => r matches Option::Some(w) && strs_view(w@) == v,
        },
    decreases elems@.len() - i,
{
    if i >= elems.len() {
        let empty: Vec<String> = Vec::new();
        proof {
            assert(strs_view(empty@) =~= Seq::<Seq<char>>::empty());
        }
        return Option::Some(empty);
    }
    proof {
        assert(scalars_view(elems@)[i as int] == elems@[i as int]@);
    }
    match &elems[i] {
        Scalar::Str(s) => {
            let s = s.clone();
            match x_strs(elems, i + 1) {
                Option::Some(rest) => {
                    let mut rest = rest;
                    let ghost rv = rest@;
                    rest.insert(0, s);
                    proof {
                        assert(strs_view(rest@) =~= seq![rest@[0]@] + strs_view(rv));
                    }
                    Option::Some(rest)
                },
                Option::None => Option::None,
            }
        },
        _ => Option::None,
    }
}

/// Get a required integer-list field.
pub fn get_int_list(pairs: &Vec<(String, Json)>, k: &str) -> (r: Result<Vec<i32>, TaskError>)
    ensures
        match sget_int_list(doc_view(pairs@), k@) {
            Result::Ok(v) => r matches Result::Ok(w) && w@ == v,
            Result::Err(e) => r == Result::<Vec<i32>, TaskError>::Err(e),
        },
{
    match get_value(pairs, k) {
        Option::None => Result::Err(TaskError::MissingField),
        Option::Some(j) => match j {
            Json::Arr(elems) => {
                proof {
                    lemma_ints_from(scalars_view(elems@), 0);
                    assert(scalars_view(elems@).skip(0) =~= scalars_view(elems@));
                }
                match x_ints(&elems, 0) {
                    Option::Some(v) => Result::Ok(v),
                    Option::None => Result::Err(TaskError::WrongType),
                }
            },
            _ => Result::Err(TaskError::WrongType),
        },
    }
}

/// Get a required string-list field.
pub fn get_str_list(pairs: &Vec<(String, Json)>, k: &str) -> (r: Result<Vec<String>, TaskError>)
    ensures
        match sget_str_list(doc_view(pairs@), k@) {
            Result::Ok(v) => r matches Result::Ok(w) && strs_view(w@) == v,
            Result::Err(e) => r == Result::<Vec<String>, TaskError>::Err(e),
        },
{
    match get_value(pairs, k) {
        Option::None => Result::Err(TaskError::MissingField),
        Option::Some(j) => match j {
            Json::Arr(elems) => {
                proof {
                    lemma_strs_from(scalars_view(elems@), 0);
                    assert(scalars_view(elems@).skip(0) =~= scalars_view(elems@));
                }
                match x_strs(&elems, 0) {
                    Option::Some(v) => Result::Ok(v),
                    Option::None => Result::Err(TaskError::WrongType),
                }
            },
            _ => Result::Err(TaskError::WrongType),
        },
    }
}

/// Get an optional string-list field.
pub fn get_opt_str_list(pairs: &Vec<(String, Json)>, k: &str) -> (r: Result<
    Option<Vec<String>>,
    TaskError,
>)
    ensures
        match sget_opt_str_list(doc_view(pairs@), k@) {
            Result::Ok(o) => r matches Result::Ok(ro) && (match o {
                Option::None => ro is None,
                Option::Some(v) => ro matches Option::Some(w) && strs_view(w@) == v,
            }),
            Result::Err(e) => r == Result::<Option<Vec<String>>, TaskError>::Err(e),
        },
{
    match get_value(pairs, k) {
        Option::None => Result::Ok(Option::None),
        Option::Some(j) => match j {
            Json::Arr(elems) => {
                proof {
                    lemma_strs_from(scalars_view(elems@), 0);
                    assert(scalars_view(elems@).skip(0) =~= scalars_view(elems@));
                }
                match x_strs(&elems, 0) {
                    Option::Some(v) => Result::Ok(Option::Some(v)),
                    Option::None => Result::Err(TaskError::WrongType),
                }
            },
            _ => Result::Err(TaskError::WrongType),
        },
    }
}

/// The integer members of a scalar map, from the given position on.
pub open spec fn imap_from(pairs: Seq<(Seq<char>, ScalarV)>, i: int) -> Option<Seq<(Seq<char>, i32)>>
    decreases pairs.len() - i,
{
    if !(0 <= i < pairs.len()) {
        Option::Some(Seq::empty())
    } else {
        match pairs[i].1 {
            ScalarV::Int(n) => if i32::MIN <= n <= i32::MAX {
                match imap_from(pairs, i + 1) {
                    Option::Some(r) => Option::Some(seq![(pairs[i].0, n as i32)] + r),
                    Option::None => Option::None,
                }
            } else {
                Option::None
            },
            _ => Option::None,
        }
    }
}

/// Decoding from the front decodes the whole map.
proof fn lemma_imap_from(pairs: Seq<(Seq<char>, ScalarV)>, i: int)
    requires
        0 <= i <= pairs.len(),
    ensures
        imap_from(pairs, i) == imap_of(pairs.skip(i)),
    decreases pairs.len() - i,
{
    assert(pairs.skip(i).len() == pairs.len() - i);
    if i < pairs.len() {
        assert(pairs.skip(i)[0] == pairs[i]);
        lemma_imap_from(pairs, i + 1);
        assert(pairs.skip(i).skip(1) =~= pairs.skip(i + 1));
    }
}

/// The integer members of a scalar map.
fn x_imap(pairs: &Vec<(String, Scalar)>, i: usize) -> (r: Option<Vec<(String, i32)>>)
    requires
        i <= pairs@.len(),
    ensures
        match imap_from(pairs_view(pairs@), i as int) {
            Option::None => r is None,
            Option::Some(v) => r matches Option::Some(w) && ipairs_view(w@) == v,
        },
    decreases pairs@.len() - i,
{
    if i >= pairs.len() {
        let empty: Vec<(String, i32)> = Vec::new();
        proof {
            assert(ipairs_view(empty@) =~= Seq::<(Seq<char>, i32)>::empty());
        }
        return Option::Some(empty);
    }
    proof {
        assert(pairs_view(pairs@)[i as int] == (pairs@[i as int].0@, pairs@[i as int].1@));
    }
    match &pairs[i].1 {
        Scalar::Int(n) => {
            let n = *n;
            if i32::MIN as i64 <= n && n <= i32::MAX as i64 {
                match x_imap(pairs, i + 1) {
                    Option::Some(rest) => {
                        let mut rest = rest;
                        let ghost rv = rest@;
                        rest.insert(0, (pairs[i].0.clone(), n as i32));
                        proof {
                            assert(ipairs_view(rest@) =~= seq![(rest@[0].0@, rest@[0].1)]
                                + ipairs_view(rv));
                        }
                        Option::Some(rest)
                    },
                    Option::None => Option::None,
                }
            } else {
                Option::None
            }
        },
        _ => Option::None,
    }
}

/// Get an optional integer-map field.
pub fn get_opt_int_map(pairs: &Vec<(String, Json)>, k: &str) -> (r: Result<
    Option<Vec<(String, i32)>>,
    TaskError,
>)
    ensures
        match sget_opt_int_map(doc_view(pairs@), k@) {
            Result::Ok(o) => r matches Result::Ok(ro) && (match o {
                Option::None => ro is None,
                Option::Some(v) => ro matches Option::Some(w) && ipairs_view(w@) == v,
            }),
            Result::Err(e) => r == Result::<Option<Vec<(String, i32)>>, TaskError>::Err(e),
        },
{
    match get_value(pairs, k) {
        Option::None => Result::Ok(Option::None),
        Option::Some(j) => match j {
            Json::Obj(m) => {
                proof {
                    lemma_imap_from(pairs_view(m@), 0);
                    assert(pairs_view(m@).skip(0) =~= pairs_view(m@));
                }
                match x_imap(&m, 0) {
                    Option::Some(v) => Result::Ok(Option::Some(v)),
                    Option::None => Result::Err(TaskError::WrongType),
                }
            },
            _ => Result::Err(TaskError::WrongType),
        },
    }
}

/// The boolean members of a scalar map, from the given position on.
pub open spec fn bmap_from(pairs: Seq<(Seq<char>, ScalarV)>, i: int) -> Option<Seq<(Seq<char>, bool)>>
    decreases pairs.len() - i,
{
    if !(0 <= i < pairs.len()) {
        Option::Some(Seq::empty())
    } else {
        match pairs[i].1 {
            ScalarV::Bool(b) => match bmap_from(pairs, i + 1) {
                Option::Some(r) => Option::Some(seq![(pairs[i].0, b)] + r),
                Option::None => Option::None,
            },
            _ => Option::None,
        }
    }
}

/// Decoding from the front decodes the whole map.
proof fn lemma_bmap_from(pairs: Seq<(Seq<char>, ScalarV)>, i: int)
    requires
        0 <= i <= pairs.len(),
    ensures
        bmap_from(pairs, i) == bmap_of(pairs.skip(i)),
    decreases pairs.len() - i,
{
    assert(pairs.skip(i).len() == pairs.len() - i);
    if i < pairs.len() {
        assert(pairs.skip(i)[0] == pairs[i]);
        lemma_bmap_from(pairs, i + 1);
        assert(pairs.skip(i).skip(1) =~= pairs.skip(i + 1));
    }
}

/// The boolean members of a scalar map.
fn x_bmap(pairs: &Vec<(String, Scalar)>, i: usize) -> (r: Option<Vec<(String, bool)>>)
    requires
        i <= pairs@.len(),
    ensures
        match bmap_from(pairs_view(pairs@), i as int) {
            Option::None => r is None,
            Option::Some(v) => r matches Option::Some(w) && bpairs_view(w@) == v,
        },
    decreases pairs@.len() - i,
{
    if i >= pairs.len() {
        let empty: Vec<(String, bool)> = Vec::new();
        proof {
            assert(bpairs_view(empty@) =~= Seq::<(Seq<char>, bool)>::empty());
        }
        return Option::Some(empty);
    }
    proof {
        assert(pairs_view(pairs@)[i as int] == (pairs@[i as int].0@, pairs@[i as int].1@));
    }
    match &pairs[i].1 {
        Scalar::Bool(b) => {
            let b = *b;
            match x_bmap(pairs, i + 1) {
                Option::Some(rest) => {
                    let mut rest = rest;
                    let ghost rv = rest@;
                    rest.insert(0, (pairs[i].0.clone(), b));
                    proof {
                        assert(bpairs_view(rest@) =~= seq![(rest@[0].0@, rest@[0].1)]
                            + bpairs_view(rv));
                    }
                    Option::Some(rest)
                },
                Option::None => Option::None,
            }
        },
        _ => Option::None,
    }
}

/// Get an optional boolean-map field.
pub fn get_opt_bool_map(pairs: &Vec<(String, Json)>, k: &str) -> (r: Result<
    Option<Vec<(String, bool)>>,
    TaskError,
>)
    ensures
        match sget_opt_bool_map(doc_view(pairs@), k@) {
            Result::Ok(o) => r matches Result::Ok(ro) && (match o {
                Option::None => ro is None,
                Option::Some(v) => ro matches Option::Some(w) && bpairs_view(w@) == v,
            }),
            Result::Err(e) => r == Result::<Option<Vec<(String, bool)>>, TaskError>::Err(e),
        },
{
    match get_value(pairs, k) {
        Option::None => Result::Ok(Option::None),
        Option::Some(j) => match j {
            Json::Obj(m) => {
                proof {
                    lemma_bmap_from(pairs_view(m@), 0);
                    assert(pairs_view(m@).skip(0) =~= pairs_view(m@));
                }
                match x_bmap(&m, 0) {
                    Option::Some(v) => Result::Ok(Option::Some(v)),
                    Option::None => Result::Err(TaskError::WrongType),
                }
            },
            _ => Result::Err(TaskError::WrongType),
        },
    }
}

/// Get a required scalar-map field.
pub fn get_scalar_map(pairs: &Vec<(String, Json)>, k: &str) -> (r: Result<
    Vec<(String, Scalar)>,
    TaskError,
>)
    ensures
        match sget_scalar_map(doc_view(pairs@), k@) {
            Result::Ok(v) => r matches Result::Ok(w) && pairs_view(w@) == v,
            Result::Err(e) => r == Result::<Vec<(String, Scalar)>, TaskError>::Err(e),
        },
{
    match get_value(pairs, k) {
        Option::None => Result::Err(TaskError::MissingField),
        Option::Some(j) => match j {
            Json::Obj(m) => Result::Ok(m),
            _ => Result::Err(TaskError::WrongType),
        },
    }
}


// ---------------------------------------------------------------------------
// Per-kind round-trip facts: getting what a block wrote yields the field.
// ---------------------------------------------------------------------------

/// Validity joins over concatenation.
pub proof fn lemma_doc_valid_concat(a: Seq<(Seq<char>, JsonV)>, b: Seq<(Seq<char>, JsonV)>)
    requires
        doc_valid(a),
        doc_valid(b),
    ensures
        doc_valid(a + b),
{
    assert forall|k: int| 0 <= k < (a + b).len() implies jsonv_valid(#[trigger] (a + b)[k].1) by {
        if k < a.len() {
            assert((a + b)[k] == a[k]);
        } else {
            assert((a + b)[k] == b[k - a.len()]);
        }
    }
}

/// An integer-list block decodes to its integers.
proof fn lemma_ints_of_list(v: Seq<i32>)
    ensures
        ints_of(jv_int_list(v)) == Option::Some(v),
    decreases v.len(),
{
    if v.len() == 0 {
        assert(jv_int_list(v).len() == 0);
        assert(ints_of(jv_int_list(v)) == Option::Some(Seq::<i32>::empty()));
        assert(v =~= Seq::<i32>::empty());
    } else {
        lemma_ints_of_list(v.skip(1));
        assert(jv_int_list(v).skip(1) =~= jv_int_list(v.skip(1)));
        assert(jv_int_list(v)[0] == ScalarV::Int(v[0] as int));
        assert(seq![((v[0] as int) as i32)] + v.skip(1) =~= v);
    }
}

/// A string-list block decodes to its strings.
proof fn lemma_strs_of_list(v: Seq<Seq<char>>)
    ensures
        strs_of(jv_str_list(v)) == Option::Some(v),
    decreases v.len(),
{
    if v.len() == 0 {
        assert(jv_str_list(v).len() == 0);
        assert(v =~= Seq::<Seq<char>>::empty());
    } else {
        lemma_strs_of_list(v.skip(1));
        assert(jv_str_list(v).skip(1) =~= jv_str_list(v.skip(1)));
        assert(jv_str_list(v)[0] == ScalarV::Str(v[0]));
        assert(seq![v[0]] + v.skip(1) =~= v);
    }
}

/// An integer-map block decodes to its members.
proof fn lemma_imap_of_map(v: Seq<(Seq<char>, i32)>)
    ensures
        imap_of(jv_int_map(v)) == Option::Some(v),
    decreases v.len(),
{
    if v.len() == 0 {
        assert(jv_int_map(v).len() == 0);
        assert(v =~= Seq::<(Seq<char>, i32)>::empty());
    } else {
        lemma_imap_of_map(v.skip(1));
        assert(jv_int_map(v).skip(1) =~= jv_int_map(v.skip(1)));
        assert(jv_int_map(v)[0] == (v[0].0, ScalarV::Int(v[0].1 as int)));
        assert(seq![(v[0].0, ((v[0].1 as int) as i32))] + v.skip(1) =~= v);
    }
}

/// A boolean-map block decodes to its members.
proof fn lemma_bmap_of_map(v: Seq<(Seq<char>, bool)>)
    ensures
        bmap_of(jv_bool_map(v)) == Option::Some(v),
    decreases v.len(),
{
    if v.len() == 0 {
        assert(jv_bool_map(v).len() == 0);
        assert(v =~= Seq::<(Seq<char>, bool)>::empty());
    } else {
        lemma_bmap_of_map(v.skip(1));
        assert(jv_bool_map(v).skip(1) =~= jv_bool_map(v.skip(1)));
        assert(jv_bool_map(v)[0] == (v[0].0, ScalarV::Bool(v[0].1)));
        assert(seq![(v[0].0, v[0].1)] + v.skip(1) =~= v);
    }
}

/// Every block a field contributes is valid.
proof fn lemma_blocks_valid(k: Seq<char>)
    ensures
        forall|v: Option<bool>| doc_valid(#[trigger] b_opt_bool(k, v)),
        forall|v: Option<i32>| doc_valid(#[trigger] b_opt_int(k, v)),
        forall|v: Option<Seq<char>>| doc_valid(#[trigger] b_opt_str(k, v)),
        forall|v: Option<u32>| doc_valid(#[trigger] b_opt_milli(k, v)),
        forall|v: bool| doc_valid(#[trigger] b_req_bool(k, v)),
        forall|v: Seq<char>| doc_valid(#[trigger] b_req_str(k, v)),
        forall|v: Seq<i32>| doc_valid(#[trigger] b_int_list(k, v)),
        forall|v: Seq<Seq<char>>| doc_valid(#[trigger] b_str_list(k, v)),
        forall|v: Option<Seq<Seq<char>>>| doc_valid(#[trigger] b_opt_str_list(k, v)),
        forall|v: Option<Seq<(Seq<char>, i32)>>| doc_valid(#[trigger] b_opt_int_map(k, v)),
        forall|v: Option<Seq<(Seq<char>, bool)>>| doc_valid(#[trigger] b_opt_bool_map(k, v)),
        forall|v: Seq<(Seq<char>, ScalarV)>| scalar_map_valid(v) ==> doc_valid(
            #[trigger] b_scalar_map(k, v),
        ),
{
    assert forall|v: Seq<i32>| doc_valid(#[trigger] b_int_list(k, v)) by {
        assert(forall|i: int| 0 <= i < v.len() ==> #[trigger] jv_int_list(v)[i]
            == ScalarV::Int(v[i] as int));
        assert(jsonv_valid(b_int_list(k, v)[0].1));
    }
    assert forall|v: Seq<Seq<char>>| doc_valid(#[trigger] b_str_list(k, v)) by {
        assert(forall|i: int| 0 <= i < v.len() ==> #[trigger] jv_str_list(v)[i]
            == ScalarV::Str(v[i]));
        assert(jsonv_valid(b_str_list(k, v)[0].1));
    }
    assert forall|v: Option<Seq<Seq<char>>>| doc_valid(#[trigger] b_opt_str_list(k, v)) by {
        if v is Some {
            let l = v->0;
            assert(doc_valid(b_str_list(k, l)));
        }
    }
    assert forall|v: Option<Seq<(Seq<char>, i32)>>| doc_valid(#[trigger] b_opt_int_map(k, v)) by {
        if v is Some {
            let m = v->0;
            assert(forall|i: int| 0 <= i < m.len() ==> #[trigger] jv_int_map(m)[i] == (m[i].0,
            ScalarV::Int(m[i].1 as int)));
            assert(jsonv_valid(b_opt_int_map(k, v)[0].1));
        }
    }
    assert forall|v: Option<Seq<(Seq<char>, bool)>>| doc_valid(#[trigger] b_opt_bool_map(k, v)) by {
        if v is Some {
            let m = v->0;
            assert(forall|i: int| 0 <= i < m.len() ==> #[trigger] jv_bool_map(m)[i] == (m[i].0,
            ScalarV::Bool(m[i].1)));
            assert(jsonv_valid(b_opt_bool_map(k, v)[0].1));
        }
    }
    assert forall|v: Seq<(Seq<char>, ScalarV)>| scalar_map_valid(v) implies doc_valid(
        #[trigger] b_scalar_map(k, v),
    ) by {
        assert(jsonv_valid(b_scalar_map(k, v)[0].1));
    }
}

/// Whether every value of a scalar map fits the machine ranges.
pub open spec fn scalar_map_valid(v: Seq<(Seq<char>, ScalarV)>) -> bool {
    forall|i: int| 0 <= i < v.len() ==> crate::json::scalar_valid(#[trigger] v[i].1)
}

/// The model of a representable scalar map fits the machine ranges.
pub proof fn lemma_scalar_map_view_valid(v: Seq<(String, Scalar)>)
    ensures
        scalar_map_valid(pairs_view(v)),
{
    assert(forall|i: int| 0 <= i < v.len() ==> #[trigger] pairs_view(v)[i] == (v[i].0@, v[i].1@));
}


/// Lookup in a block of at most one member.
pub proof fn lemma_doc_get_block(b: Seq<(Seq<char>, JsonV)>, k: Seq<char>)
    requires
        b.len() <= 1,
    ensures
        doc_get(b, k) == (if b.len() == 1 && b[0].0 == k {
            Option::Some(b[0].1)
        } else {
            Option::<JsonV>::None
        }),
{
    if b.len() == 1 {
        assert(b.skip(1) =~= Seq::<(Seq<char>, JsonV)>::empty());
        assert(doc_get(b.skip(1), k) is None);
    }
}

// ---------------------------------------------------------------------------
// The task kinds.
// ---------------------------------------------------------------------------

/// Parameters of the StartUp task.
#[derive(Clone, Debug, PartialEq)]
pub struct StartUpTask {
    /// The optional boolean field `enable`.
    pub enable: Option<bool>,
    /// The optional string field `client_type`.
    pub client_type: Option<String>,
    /// The optional boolean field `start_game_enabled`.
    pub start_game_enabled: Option<bool>,
    /// The optional string field `account_name`.
    pub account_name: Option<String>,
}

/// The document members of a StartUp task, in writing order.
pub open spec fn start_up_pairs(t: StartUpTask) -> Seq<(Seq<char>, JsonV)> {
    b_opt_bool("enable"@, t.enable) + b_opt_str("client_type"@, opt_str_view(t.client_type)) + b_opt_bool("start_game_enabled"@, t.start_game_enabled) + b_opt_str("account_name"@, opt_str_view(t.account_name))
}

/// Whether every known key of a parsed document holds the right shape
/// for the StartUp task, with every required key present.
pub open spec fn start_up_ok(pairs: Seq<(Seq<char>, JsonV)>) -> bool {
    sget_opt_bool(pairs, "enable"@) is Ok
    && sget_opt_str(pairs, "client_type"@) is Ok
    && sget_opt_bool(pairs, "start_game_enabled"@) is Ok
    && sget_opt_str(pairs, "account_name"@) is Ok
}

/// The first field error met reading a parsed document as a StartUp task.
pub open spec fn start_up_first_err(pairs: Seq<(Seq<char>, JsonV)>) -> TaskError {
    match sget_opt_bool(pairs, "enable"@) {
        Result::Err(e) => e,
        Result::Ok(_) => match sget_opt_str(pairs, "client_type"@) {
        Result::Err(e) => e,
        Result::Ok(_) => match sget_opt_bool(pairs, "start_game_enabled"@) {
        Result::Err(e) => e,
        Result::Ok(_) => match sget_opt_str(pairs, "account_name"@) {
        Result::Err(e) => e,
        Result::Ok(_) => TaskError::WrongType,
    },
    },
    },
    }
}

impl StartUpTask {
    /// The stable type tag the engine knows the task by.
    pub fn task_type(&self) -> (r: &'static str)
        ensures
            r@ == "StartUp"@,
    {
        "StartUp"
    }

    /// The stable human-readable name of the task kind.
    pub fn task_name(&self) -> (r: &'static str)
        ensures
            r@ == "开始唤醒"@,
    {
        "开始唤醒"
    }

    /// The canonical JSON parameter string: present fields only, in
    /// declaration order.
    pub fn to_json(&self) -> (r: String)
        ensures
            r@ == doc_text(start_up_pairs(*self)),
    {
        let mut out: Vec<(String, Json)> = Vec::new();
        proof {
            assert(doc_view(out@) =~= Seq::<(Seq<char>, JsonV)>::empty());
        }
        push_opt_bool(&mut out, "enable", &self.enable);
        push_opt_str(&mut out, "client_type", &self.client_type);
        push_opt_bool(&mut out, "start_game_enabled", &self.start_game_enabled);
        push_opt_str(&mut out, "account_name", &self.account_name);
        proof {
            assert(doc_view(out@) =~= start_up_pairs(*self));
        }
        write_doc(&out)
    }

    /// Read a task back from a canonical JSON parameter string.
    pub fn from_json(s: &str) -> (r: Result<StartUpTask, TaskError>)
        ensures
            match text_to_doc(s@) {
                Option::None => r == Result::<StartUpTask, TaskError>::Err(TaskError::NotCanonical),
                Option::Some(pairs) => if start_up_ok(pairs) {
                    &&& r is Ok
                    &&& (match (r, sget_opt_bool(pairs, "enable"@)) {
                        (Result::Ok(t), Result::Ok(v)) => t.enable == v,
                        _ => false,
                    })
                    &&& (match (r, sget_opt_str(pairs, "client_type"@)) {
                        (Result::Ok(t), Result::Ok(v)) => opt_str_view(t.client_type) == v,
                        _ => false,
                    })
                    &&& (match (r, sget_opt_bool(pairs, "start_game_enabled"@)) {
                        (Result::Ok(t), Result::Ok(v)) => t.start_game_enabled == v,
                        _ => false,
                    })
                    &&& (match (r, sget_opt_str(pairs, "account_name"@)) {
                        (Result::Ok(t), Result::Ok(v)) => opt_str_view(t.account_name) == v,
                        _ => false,
                    })
                } else {
                    r == Result::<StartUpTask, TaskError>::Err(start_up_first_err(pairs))
                },
            },
    {
        let pairs = match parse_doc(s) {
            Option::Some(p) => p,
            Option::None => {
                return Result::Err(TaskError::NotCanonical);
            },
        };
        let enable = match get_opt_bool(&pairs, "enable") {
            Result::Ok(v) => v,
            Result::Err(e) => {
                return Result::Err(e);
            },
        };
        let client_type = match get_opt_str(&pairs, "client_type") {
            Result::Ok(v) => v,
            Result::Err(e) => {
                return Result::Err(e);
            },
        };
        let start_game_enabled = match get_opt_bool(&pairs, "start_game_enabled") {
            Result::Ok(v) => v,
            Result::Err(e) => {
                return Result::Err(e);
            },
        };
        let account_name = match get_opt_str(&pairs, "account_name") {
            Result::Ok(v) => v,
            Result::Err(e) => {
                return Result::Err(e);
            },
        };
        Result::Ok(StartUpTask { enable, client_type, start_game_enabled, account_name })
    }

    /// A task with no field set.
    pub fn new() -> (r: Self)
        ensures
            r.enable is None,
            r.client_type is None,
            r.start_game_enabled is None,
            r.account_name is None,
    {
        StartUpTask { enable: Option::None, client_type: Option::None, start_game_enabled: Option::None, account_name: Option::None }
    }

    /// A builder with no field set.
    pub fn builder() -> (r: StartUpTaskBuilder)
        ensures
            r.enable is None,
            r.client_type is None,
            r.start_game_enabled is None,
            r.account_name is None,
    {
        StartUpTaskBuilder { enable: Option::None, client_type: Option::None, start_game_enabled: Option::None, account_name: Option::None }
    }
}

/// Step-by-step construction of a StartUp task.
pub struct StartUpTaskBuilder {
    /// The optional boolean field `enable`, once set.
    pub enable: Option<bool>,
    /// The optional string field `client_type`, once set.
    pub client_type: Option<String>,
    /// The optional boolean field `start_game_enabled`, once set.
    pub start_game_enabled: Option<bool>,
    /// The optional string field `account_name`, once set.
    pub account_name: Option<String>,
}

impl StartUpTaskBuilder {
    /// Set the optional boolean field `enable`.
    pub fn enable(self, enable: bool) -> (r: Self)
        ensures
            r.enable == Option::Some(enable),
            r.client_type == self.client_type,
            r.start_game_enabled == self.start_game_enabled,
            r.account_name == self.account_name,
    {
        let mut this = self;
        this.enable = Option::Some(enable);
        this
    }

    /// Set the optional string field `client_type`.
    pub fn client_type(self, client_type: &str) -> (r: Self)
        ensures
            (r.client_type matches Option::Some(s) && s@ == client_type@),
            r.enable == self.enable,
            r.start_game_enabled == self.start_game_enabled,
            r.account_name == self.account_name,
    {
        let mut this = self;
        this.client_type = Option::Some(client_type.to_owned());
        this
    }

    /// Set the optional boolean field `start_game_enabled`.
    pub fn start_game_enabled(self, start_game_enabled: bool) -> (r: Self)
        ensures
            r.start_game_enabled == Option::Some(start_game_enabled),
            r.enable == self.enable,
            r.client_type == self.client_type,
            r.account_name == self.account_name,
    {
        let mut this = self;
        this.start_game_enabled = Option::Some(start_game_enabled);
        this
    }

    /// Set the optional string field `account_name`.
    pub fn account_name(self, account_name: &str) -> (r: Self)
        ensures
            (r.account_name matches Option::Some(s) && s@ == account_name@),
            r.enable == self.enable,
            r.client_type == self.client_type,
            r.start_game_enabled == self.start_game_enabled,
    {
        let mut this = self;
        this.account_name = Option::Some(account_name.to_owned());
        this
    }

    /// The finished task.
    pub fn build(self) -> (r: StartUpTask)
        ensures
            r.enable == self.enable,
            r.client_type == self.client_type,
            r.start_game_enabled == self.start_game_enabled,
            r.account_name == self.account_name,
    {
        StartUpTask { enable: self.enable, client_type: self.client_type, start_game_enabled: self.start_game_enabled, account_name: self.account_name } 
    }
}

/// What lookup of `enable` finds in the members of a StartUp task.
proof fn start_up_get_enable(t: StartUpTask)
    ensures
        doc_get(start_up_pairs(t), "enable"@) == (match t.enable { Option::None => Option::<JsonV>::None, Option::Some(b) => Option::Some(JsonV::Sc(ScalarV::Bool(b))) }),
{
    reveal_strlit("enable");
    reveal_strlit("client_type");
    reveal_strlit("start_game_enabled");
    reveal_strlit("account_name");
    assert("enable"@.len() != "client_type"@.len());
    assert("enable"@ != "client_type"@);
    assert("enable"@.len() != "start_game_enabled"@.len());
    assert("enable"@ != "start_game_enabled"@);
    assert("enable"@.len() != "account_name"@.len());
    assert("enable"@ != "account_name"@);
    let b1 = b_opt_bool("enable"@, t.enable);
    let b2 = b_opt_str("client_type"@, opt_str_view(t.client_type));
    let b3 = b_opt_bool("start_game_enabled"@, t.start_game_enabled);
    let b4 = b_opt_str("account_name"@, opt_str_view(t.account_name));
    let p1 = b1;
    let p2 = p1 + b2;
    let p3 = p2 + b3;
    let p4 = p3 + b4;
    assert(start_up_pairs(t) == p4);
    lemma_doc_get_block(b1, "enable"@);
    lemma_doc_get_block(b2, "enable"@);
    lemma_doc_get_block(b3, "enable"@);
    lemma_doc_get_block(b4, "enable"@);
    lemma_doc_get_concat(p3, b4, "enable"@);
    lemma_doc_get_concat(p2, b3, "enable"@);
    lemma_doc_get_concat(p1, b2, "enable"@);
}

/// What lookup of `client_type` finds in the members of a StartUp task.
proof fn start_up_get_client_type(t: StartUpTask)
    ensures
        doc_get(start_up_pairs(t), "client_type"@) == (match t.client_type { Option::None => Option::<JsonV>::None, Option::Some(s) => Option::Some(JsonV::Sc(ScalarV::Str(s@))) }),
{
    reveal_strlit("enable");
    reveal_strlit("client_type");
    reveal_strlit("start_game_enabled");
    reveal_strlit("account_name");
    assert("client_type"@.len() != "enable"@.len());
    assert("client_type"@ != "enable"@);
    assert("client_type"@.len() != "start_game_enabled"@.len());
    assert("client_type"@ != "start_game_enabled"@);
    assert("client_type"@.len() != "account_name"@.len());
    assert("client_type"@ != "account_name"@);
    let b1 = b_opt_bool("enable"@, t.enable);
    let b2 = b_opt_str("client_type"@, opt_str_view(t.client_type));
    let b3 = b_opt_bool("start_game_enabled"@, t.start_game_enabled);
    let b4 = b_opt_str("account_name"@, opt_str_view(t.account_name));
    let p1 = b1;
    let p2 = p1 + b2;
    let p3 = p2 + b3;
    let p4 = p3 + b4;
    assert(start_up_pairs(t) == p4);
    lemma_doc_get_block(b1, "client_type"@);
    lemma_doc_get_block(b2, "client_type"@);
    lemma_doc_get_block(b3, "client_type"@);
    lemma_doc_get_block(b4, "client_type"@);
    lemma_doc_get_concat(p3, b4, "client_type"@);
    lemma_doc_get_concat(p2, b3, "client_type"@);
    lemma_doc_get_concat(p1, b2, "client_type"@);
}

/// What lookup of `start_game_enabled` finds in the members of a StartUp task.
proof fn start_up_get_start_game_enabled(t: StartUpTask)
    ensures
        doc_get(start_up_pairs(t), "start_game_enabled"@) == (match t.start_game_enabled { Option::None => Option::<JsonV>::None, Option::Some(b) => Option::Some(JsonV::Sc(ScalarV::Bool(b))) }),
{
    reveal_strlit("enable");
    reveal_strlit("client_type");
    reveal_strlit("start_game_enabled");
    reveal_strlit("account_name");
    assert("start_game_enabled"@.len() != "enable"@.len());
    assert("start_game_enabled"@ != "enable"@);
    assert("start_game_enabled"@.len() != "client_type"@.len());
    assert("start_game_enabled"@ != "client_type"@);
    assert("start_game_enabled"@.len() != "account_name"@.len());
    assert("start_game_enabled"@ != "account_name"@);
    let b1 = b_opt_bool("enable"@, t.enable);
    let b2 = b_opt_str("client_type"@, opt_str_view(t.client_type));
    let b3 = b_opt_bool("start_game_enabled"@, t.start_game_enabled);
    let b4 = b_opt_str("account_name"@, opt_str_view(t.account_name));
    let p1 = b1;
    let p2 = p1 + b2;
    let p3 = p2 + b3;
    let p4 = p3 + b4;
    assert(start_up_pairs(t) == p4);
    lemma_doc_get_block(b1, "start_game_enabled"@);
    lemma_doc_get_block(b2, "start_game_enabled"@);
    lemma_doc_get_block(b3, "start_game_enabled"@);
    lemma_doc_get_block(b4, "start_game_enabled"@);
    lemma_doc_get_concat(p3, b4, "start_game_enabled"@);
    lemma_doc_get_concat(p2, b3, "start_game_enabled"@);
    lemma_doc_get_concat(p1, b2, "start_game_enabled"@);
}

/// What lookup of `account_name` finds in the members of a StartUp task.
proof fn start_up_get_account_name(t: StartUpTask)
    ensures
        doc_get(start_up_pairs(t), "account_name"@) == (match t.account_name { Option::None => Option::<JsonV>::None, Option::Some(s) => Option::Some(JsonV::Sc(ScalarV::Str(s@))) }),
{
    reveal_strlit("enable");
    reveal_strlit("client_type");
    reveal_strlit("start_game_enabled");
    reveal_strlit("account_name");
    assert("account_name"@.len() != "enable"@.len());
    assert("account_name"@ != "enable"@);
    assert("account_name"@.len() != "client_type"@.len());
    assert("account_name"@ != "client_type"@);
    assert("account_name"@.len() != "start_game_enabled"@.len());
    assert("account_name"@ != "start_game_enabled"@);
    let b1 = b_opt_bool("enable"@, t.enable);
    let b2 = b_opt_str("client_type"@, opt_str_view(t.client_type));
    let b3 = b_opt_bool("start_game_enabled"@, t.start_game_enabled);
    let b4 = b_opt_str("account_name"@, opt_str_view(t.account_name));
    let p1 = b1;
    let p2 = p1 + b2;
    let p3 = p2 + b3;
    let p4 = p3 + b4;
    assert(start_up_pairs(t) == p4);
    lemma_doc_get_block(b1, "account_name"@);
    lemma_doc_get_block(b2, "account_name"@);
    lemma_doc_get_block(b3, "account_name"@);
    lemma_doc_get_block(b4, "account_name"@);
    lemma_doc_get_concat(p3, b4, "account_name"@);
    lemma_doc_get_concat(p2, b3, "account_name"@);
    lemma_doc_get_concat(p1, b2, "account_name"@);
}

/// Writing a StartUp task and reading the text back yields every
/// field unchanged.
pub proof fn lemma_start_up_round_trip(t: StartUpTask)
    ensures
        text_to_doc(doc_text(start_up_pairs(t))) == Option::Some(start_up_pairs(t)),
        start_up_ok(start_up_pairs(t)),
        (match sget_opt_bool(start_up_pairs(t), "enable"@) {
            Result::Ok(v) => t.enable == v,
            Result::Err(_) => false,
        }),
        (match sget_opt_str(start_up_pairs(t), "client_type"@) {
            Result::Ok(v) => opt_str_view(t.client_type) == v,
            Result::Err(_) => false,
        }),
        (match sget_opt_bool(start_up_pairs(t), "start_game_enabled"@) {
            Result::Ok(v) => t.start_game_enabled == v,
            Result::Err(_) => false,
        }),
        (match sget_opt_str(start_up_pairs(t), "account_name"@) {
            Result::Ok(v) => opt_str_view(t.account_name) == v,
            Result::Err(_) => false,
        }),
{
    let ps = start_up_pairs(t);
    start_up_get_enable(t);
    start_up_get_client_type(t);
    start_up_get_start_game_enabled(t);
    start_up_get_account_name(t);
    lemma_blocks_valid("enable"@);
    lemma_blocks_valid("client_type"@);
    lemma_blocks_valid("start_game_enabled"@);
    lemma_blocks_valid("account_name"@);
    let b1 = b_opt_bool("enable"@, t.enable);
    let b2 = b_opt_str("client_type"@, opt_str_view(t.client_type));
    let b3 = b_opt_bool("start_game_enabled"@, t.start_game_enabled);
    let b4 = b_opt_str("account_name"@, opt_str_view(t.account_name));
    let p1 = b1;
    let p2 = p1 + b2;
    let p3 = p2 + b3;
    let p4 = p3 + b4;
    assert(doc_valid(p1));
    lemma_doc_valid_concat(p1, b2);
    lemma_doc_valid_concat(p2, b3);
    lemma_doc_valid_concat(p3, b4);
    assert(ps == p4);
    lemma_doc_round_trip(ps);
}

/// Parameters of the CloseDown task.
#[derive(Clone, Debug, PartialEq)]
pub struct CloseDownTask {
    /// The optional boolean field `enable`.
    pub enable: Option<bool>,
    /// The optional string field `client_type`.
    pub client_type: Option<String>,
}

/// The document members of a CloseDown task, in writing order.
pub open spec fn close_down_pairs(t: CloseDownTask) -> Seq<(Seq<char>, JsonV)> {
    b_opt_bool("enable"@, t.enable) + b_opt_str("client_type"@, opt_str_view(t.client_type))
}

/// Whether every known key of a parsed document holds the right shape
/// for the CloseDown task, with every required key present.
pub open spec fn close_down_ok(pairs: Seq<(Seq<char>, JsonV)>) -> bool {
    sget_opt_bool(pairs, "enable"@) is Ok
    && sget_opt_str(pairs, "client_type"@) is Ok
}

/// The first field error met reading a parsed document as a CloseDown task.
pub open spec fn close_down_first_err(pairs: Seq<(Seq<char>, JsonV)>) -> TaskError {
    match sget_opt_bool(pairs, "enable"@) {
        Result::Err(e) => e,
        Result::Ok(_) => match sget_opt_str(pairs, "client_type"@) {
        Result::Err(e) => e,
        Result::Ok(_) => TaskError::WrongType,
    },
    }
}

impl CloseDownTask {
    /// The stable type tag the engine knows the task by.
    pub fn task_type(&self) -> (r: &'static str)
        ensures
            r@ == "CloseDown"@,
    {
        "CloseDown"
    }

    /// The stable human-readable name of the task kind.
    pub fn task_name(&self) -> (r: &'static str)
        ensures
            r@ == "关闭游戏"@,
    {
        "关闭游戏"
    }

    /// The canonical JSON parameter string: present fields only, in
    /// declaration order.
    pub fn to_json(&self) -> (r: String)
        ensures
            r@ == doc_text(close_down_pairs(*self)),
    {
        let mut out: Vec<(String, Json)> = Vec::new();
        proof {
            assert(doc_view(out@) =~= Seq::<(Seq<char>, JsonV)>::empty());
        }
        push_opt_bool(&mut out, "enable", &self.enable);
        push_opt_str(&mut out, "client_type", &self.client_type);
        proof {
            assert(doc_view(out@) =~= close_down_pairs(*self));
        }
        write_doc(&out)
    }

    /// Read a task back from a canonical JSON parameter string.
    pub fn from_json(s: &str) -> (r: Result<CloseDownTask, TaskError>)
        ensures
            match text_to_doc(s@) {
                Option::None => r == Result::<CloseDownTask, TaskError>::Err(TaskError::NotCanonical),
                Option::Some(pairs) => if close_down_ok(pairs) {
                    &&& r is Ok
                    &&& (match (r, sget_opt_bool(pairs, "enable"@)) {
                        (Result::Ok(t), Result::Ok(v)) => t.enable == v,
                        _ => false,
                    })
                    &&& (match (r, sget_opt_str(pairs, "client_type"@)) {
                        (Result::Ok(t), Result::Ok(v)) => opt_str_view(t.client_type) == v,
                        _ => false,
                    })
                } else {
                    r == Result::<CloseDownTask, TaskError>::Err(close_down_first_err(pairs))
                },
            },
    {
        let pairs = match parse_doc(s) {
            Option::Some(p) => p,
            Option::None => {
                return Result::Err(TaskError::NotCanonical);
            },
        };
        let enable = match get_opt_bool(&pairs, "enable") {
            Result::Ok(v) => v,
            Result::Err(e) => {
                return Result::Err(e);
            },
        };
        let client_type = match get_opt_str(&pairs, "client_type") {
            Result::Ok(v) => v,
            Result::Err(e) => {
                return Result::Err(e);
            },
        };
        Result::Ok(CloseDownTask { enable, client_type })
    }

    /// A task with no field set.
    pub fn new() -> (r: Self)
        ensures
            r.enable is None,
            r.client_type is None,
    {
        CloseDownTask { enable: Option::None, client_type: Option::None }
    }

    /// A builder with no field set.
    pub fn builder() -> (r: CloseDownTaskBuilder)
        ensures
            r.enable is None,
            r.client_type is None,
    {
        CloseDownTaskBuilder { enable: Option::None, client_type: Option::None }
    }
}

/// Step-by-step construction of a CloseDown task.
pub struct CloseDownTaskBuilder {
    /// The optional boolean field `enable`, once set.
    pub enable: Option<bool>,
    /// The optional string field `client_type`, once set.
    pub client_type: Option<String>,
}

impl CloseDownTaskBuilder {
    /// Set the optional boolean field `enable`.
    pub fn enable(self, enable: bool) -> (r: Self)
        ensures
            r.enable == Option::Some(enable),
            r.client_type == self.client_type,
    {
        let mut this = self;
        this.enable = Option::Some(enable);
        this
    }

    /// Set the optional string field `client_type`.
    pub fn client_type(self, client_type: &str) -> (r: Self)
        ensures
            (r.client_type matches Option::Some(s) && s@ == client_type@),
            r.enable == self.enable,
    {
        let mut this = self;
        this.client_type = Option::Some(client_type.to_owned());
        this
    }

    /// The finished task.
    pub fn build(self) -> (r: CloseDownTask)
        ensures
            r.enable == self.enable,
            r.client_type == self.client_type,
    {
        CloseDownTask { enable: self.enable, client_type: self.client_type } 
    }
}

/// What lookup of `enable` finds in the members of a CloseDown task.
proof fn close_down_get_enable(t: CloseDownTask)
    ensures
        doc_get(close_down_pairs(t), "enable"@) == (match t.enable { Option::None => Option::<JsonV>::None, Option::Some(b) => Option::Some(JsonV::Sc(ScalarV::Bool(b))) }),
{
    reveal_strlit("enable");
    reveal_strlit("client_type");
    assert("enable"@.len() != "client_type"@.len());
    assert("enable"@ != "client_type"@);
    let b1 = b_opt_bool("enable"@, t.enable);
    let b2 = b_opt_str("client_type"@, opt_str_view(t.client_type));
    let p1 = b1;
    let p2 = p1 + b2;
    assert(close_down_pairs(t) == p2);
    lemma_doc_get_block(b1, "enable"@);
    lemma_doc_get_block(b2, "enable"@);
    lemma_doc_get_concat(p1, b2, "enable"@);
}

/// What lookup of `client_type` finds in the members of a CloseDown task.
proof fn close_down_get_client_type(t: CloseDownTask)
    ensures
        doc_get(close_down_pairs(t), "client_type"@) == (match t.client_type { Option::None => Option::<JsonV>::None, Option::Some(s) => Option::Some(JsonV::Sc(ScalarV::Str(s@))) }),
{
    reveal_strlit("enable");
    reveal_strlit("client_type");
    assert("client_type"@.len() != "enable"@.len());
    assert("client_type"@ != "enable"@);
    let b1 = b_opt_bool("enable"@, t.enable);
    let b2 = b_opt_str("client_type"@, opt_str_view(t.client_type));
    let p1 = b1;
    let p2 = p1 + b2;
    assert(close_down_pairs(t) == p2);
    lemma_doc_get_block(b1, "client_type"@);
    lemma_doc_get_block(b2, "client_type"@);
    lemma_doc_get_concat(p1, b2, "client_type"@);
}

/// Writing a CloseDown task and reading the text back yields every
/// field unchanged.
pub proof fn lemma_close_down_round_trip(t: CloseDownTask)
    ensures
        text_to_doc(doc_text(close_down_pairs(t))) == Option::Some(close_down_pairs(t)),
        close_down_ok(close_down_pairs(t)),
        (match sget_opt_bool(close_down_pairs(t), "enable"@) {
            Result::Ok(v) => t.enable == v,
            Result::Err(_) => false,
        }),
        (match sget_opt_str(close_down_pairs(t), "client_type"@) {
            Result::Ok(v) => opt_str_view(t.client_type) == v,
            Result::Err(_) => false,
        }),
{
    let ps = close_down_pairs(t);
    close_down_get_enable(t);
    close_down_get_client_type(t);
    lemma_blocks_valid("enable"@);
    lemma_blocks_valid("client_type"@);
    let b1 = b_opt_bool("enable"@, t.enable);
    let b2 = b_opt_str("client_type"@, opt_str_view(t.client_type));
    let p1 = b1;
    let p2 = p1 + b2;
    assert(doc_valid(p1));
    lemma_doc_valid_concat(p1, b2);
    assert(ps == p2);
    lemma_doc_round_trip(ps);
}

/// Parameters of the Fight task.
#[derive(Clone, Debug, PartialEq)]
pub struct FightTask {
    /// The optional boolean field `enable`.
    pub enable: Option<bool>,
    /// The optional string field `stage`.
    pub stage: Option<String>,
    /// The optional integer field `medicine`.
    pub medicine: Option<i32>,
    /// The optional integer field `expiring_medicine`.
    pub expiring_medicine: Option<i32>,
    /// The optional integer field `stone`.
    pub stone: Option<i32>,
    /// The optional integer field `times`.
    pub times: Option<i32>,
    /// The optional integer field `series`.
    pub series: Option<i32>,
    /// The optional integer-map field `drops`.
    pub drops: Option<Vec<(String, i32)>>,
    /// The optional boolean field `report_to_penguin`.
    pub report_to_penguin: Option<bool>,
    /// The optional string field `penguin_id`.
    pub penguin_id: Option<String>,
    /// The optional string field `server`.
    pub server: Option<String>,
    /// The optional string field `client_type`.
    pub client_type: Option<String>,
    /// The optional boolean field `dr_grandet`.
    pub dr_grandet: Option<bool>,
}

/// The document members of a Fight task, in writing order.
pub open spec fn fight_pairs(t: FightTask) -> Seq<(Seq<char>, JsonV)> {
    b_opt_bool("enable"@, t.enable) + b_opt_str("stage"@, opt_str_view(t.stage)) + b_opt_int("medicine"@, t.medicine) + b_opt_int("expiring_medicine"@, t.expiring_medicine) + b_opt_int("stone"@, t.stone) + b_opt_int("times"@, t.times) + b_opt_int("series"@, t.series) + b_opt_int_map("drops"@, (match t.drops { Option::None => Option::None, Option::Some(m) => Option::Some(ipairs_view(m@)) })) + b_opt_bool("report_to_penguin"@, t.report_to_penguin) + b_opt_str("penguin_id"@, opt_str_view(t.penguin_id)) + b_opt_str("server"@, opt_str_view(t.server)) + b_opt_str("client_type"@, opt_str_view(t.client_type)) + b_opt_bool("dr_grandet"@, t.dr_grandet)
}

/// Whether every known key of a parsed document holds the right shape
/// for the Fight task, with every required key present.
pub open spec fn fight_ok(pairs: Seq<(Seq<char>, JsonV)>) -> bool {
    sget_opt_bool(pairs, "enable"@) is Ok
    && sget_opt_str(pairs, "stage"@) is Ok
    && sget_opt_int(pairs, "medicine"@) is Ok
    && sget_opt_int(pairs, "expiring_medicine"@) is Ok
    && sget_opt_int(pairs, "stone"@) is Ok
    && sget_opt_int(pairs, "times"@) is Ok
    && sget_opt_int(pairs, "series"@) is Ok
    && sget_opt_int_map(pairs, "drops"@) is Ok
    && sget_opt_bool(pairs, "report_to_penguin"@) is Ok
    && sget_opt_str(pairs, "penguin_id"@) is Ok
    && sget_opt_str(pairs, "server"@) is Ok
    && sget_opt_str(pairs, "client_type"@) is Ok
    && sget_opt_bool(pairs, "dr_grandet"@) is Ok
}

/// The first field error met reading a parsed document as a Fight task.
pub open spec fn fight_first_err(pairs: Seq<(Seq<char>, JsonV)>) -> TaskError {
    match sget_opt_bool(pairs, "enable"@) {
        Result::Err(e) => e,
        Result::Ok(_) => match sget_opt_str(pairs, "stage"@) {
        Result::Err(e) => e,
        Result::Ok(_) => match sget_opt_int(pairs, "medicine"@) {
        Result::Err(e) => e,
        Result::Ok(_) => match sget_opt_int(pairs, "expiring_medicine"@) {
        Result::Err(e) => e,
        Result::Ok(_) => match sget_opt_int(pairs, "stone"@) {
        Result::Err(e) => e,
        Result::Ok(_) => match sget_opt_int(pairs, "times"@) {
        Result::Err(e) => e,
        Result::Ok(_) => match sget_opt_int(pairs, "series"@) {
        Result::Err(e) => e,
        Result::Ok(_) => match sget_opt_int_map(pairs, "drops"@) {
        Result::Err(e) => e,
        Result::Ok(_) => match sget_opt_bool(pairs, "report_to_penguin"@) {
        Result::Err(e) => e,
        Result::Ok(_) => match sget_opt_str(pairs, "penguin_id"@) {
        Result::Err(e) => e,
        Result::Ok(_) => match sget_opt_str(pairs, "server"@) {
        Result::Err(e) => e,
        Result::Ok(_) => match sget_opt_str(pairs, "client_type"@) {
        Result::Err(e) => e,
        Result::Ok(_) => match sget_opt_bool(pairs, "dr_grandet"@) {
        Result::Err(e) => e,
        Result::Ok(_) => TaskError::WrongType,
    },
    },
    },
    },
    },
    },
    },
    },
    },
    },
    },
    },
    }
}

impl FightTask {
    /// The stable type tag the engine knows the task by.
    pub fn task_type(&self) -> (r: &'static str)
        ensures
            r@ == "Fight"@,
    {
        "Fight"
    }

    /// The stable human-readable name of the task kind.
    pub fn task_name(&self) -> (r: &'static str)
        ensures
            r@ == "刷理智"@,
    {
        "刷理智"
    }

    /// The canonical JSON parameter string: present fields only, in
    /// declaration order.
    pub fn to_json(&self) -> (r: String)
        ensures
            r@ == doc_text(fight_pairs(*self)),
    {
        let mut out: Vec<(String, Json)> = Vec::new();
        proof {
            assert(doc_view(out@) =~= Seq::<(Seq<char>, JsonV)>::empty());
        }
        push_opt_bool(&mut out, "enable", &self.enable);
        push_opt_str(&mut out, "stage", &self.stage);
        push_opt_int(&mut out, "medicine", &self.medicine);
        push_opt_int(&mut out, "expiring_medicine", &self.expiring_medicine);
        push_opt_int(&mut out, "stone", &self.stone);
        push_opt_int(&mut out, "times", &self.times);
        push_opt_int(&mut out, "series", &self.series);
        push_opt_int_map(&mut out, "drops", &self.drops);
        push_opt_bool(&mut out, "report_to_penguin", &self.report_to_penguin);
        push_opt_str(&mut out, "penguin_id", &self.penguin_id);
        push_opt_str(&mut out, "server", &self.server);
        push_opt_str(&mut out, "client_type", &self.client_type);
        push_opt_bool(&mut out, "dr_grandet", &self.dr_grandet);
        proof {
            assert(doc_view(out@) =~= fight_pairs(*self));
        }
        write_doc(&out)
    }

    /// Read a task back from a canonical JSON parameter string.
    pub fn from_json(s: &str) -> (r: Result<FightTask, TaskError>)
        ensures
            match text_to_doc(s@) {
                Option::None => r == Result::<FightTask, TaskError>::Err(TaskError::NotCanonical),
                Option::Some(pairs) => if fight_ok(pairs) {
                    &&& r is Ok
                    &&& (match (r, sget_opt_bool(pairs, "enable"@)) {
                        (Result::Ok(t), Result::Ok(v)) => t.enable == v,
                        _ => false,
                    })
                    &&& (match (r, sget_opt_str(pairs, "stage"@)) {
                        (Result::Ok(t), Result::Ok(v)) => opt_str_view(t.stage) == v,
                        _ => false,
                    })
                    &&& (match (r, sget_opt_int(pairs, "medicine"@)) {
                        (Result::Ok(t), Result::Ok(v)) => t.medicine == v,
                        _ => false,
                    })
                    &&& (match (r, sget_opt_int(pairs, "expiring_medicine"@)) {
                        (Result::Ok(t), Result::Ok(v)) => t.expiring_medicine == v,
                        _ => false,
                    })
                    &&& (match (r, sget_opt_int(pairs, "stone"@)) {
                        (Result::Ok(t), Result::Ok(v)) => t.stone == v,
                        _ => false,
                    })
                    &&& (match (r, sget_opt_int(pairs, "times"@)) {
                        (Result::Ok(t), Result::Ok(v)) => t.times == v,
                        _ => false,
                    })
                    &&& (match (r, sget_opt_int(pairs, "series"@)) {
                        (Result::Ok(t), Result::Ok(v)) => t.series == v,
                        _ => false,
                    })
                    &&& (match (r, sget_opt_int_map(pairs, "drops"@)) {
                        (Result::Ok(t), Result::Ok(v)) => v == (match t.drops { Option::None => Option::None, Option::Some(m) => Option::Some(ipairs_view(m@)) }),
                        _ => false,
                    })
                    &&& (match (r, sget_opt_bool(pairs, "report_to_penguin"@)) {
                        (Result::Ok(t), Result::Ok(v)) => t.report_to_penguin == v,
                        _ => false,
                    })
                    &&& (match (r, sget_opt_str(pairs, "penguin_id"@)) {
                        (Result::Ok(t), Result::Ok(v)) => opt_str_view(t.penguin_id) == v,
                        _ => false,
                    })
                    &&& (match (r, sget_opt_str(pairs, "server"@)) {
                        (Result::Ok(t), Result::Ok(v)) => opt_str_view(t.server) == v,
                        _ => false,
                    })
                    &&& (match (r, sget_opt_str(pairs, "client_type"@)) {
                        (Result::Ok(t), Result::Ok(v)) => opt_str_view(t.client_type) == v,
                        _ => false,
                    })
                    &&& (match (r, sget_opt_bool(pairs, "dr_grandet"@)) {
                        (Result::Ok(t), Result::Ok(v)) => t.dr_grandet == v,
                        _ => false,
                    })
                } else {
                    r == Result::<FightTask, TaskError>::Err(fight_first_err(pairs))
                },
            },
    {
        let pairs = match parse_doc(s) {
            Option::Some(p) => p,
            Option::None => {
                return Result::Err(TaskError::NotCanonical);
            },
        };
        let enable = match get_opt_bool(&pairs, "enable") {
            Result::Ok(v) => v,
            Result::Err(e) => {
                return Result::Err(e);
            },
        };
        let stage = match get_opt_str(&pairs, "stage") {
            Result::Ok(v) => v,
            Result::Err(e) => {
                return Result::Err(e);
            },
        };
        let medicine = match get_opt_int(&pairs, "medicine") {
            Result::Ok(v) => v,
            Result::Err(e) => {
                return Result::Err(e);
            },
        };
        let expiring_medicine = match get_opt_int(&pairs, "expiring_medicine") {
            Result::Ok(v) => v,
            Result::Err(e) => {
                return Result::Err(e);
            },
        };
        let stone = match get_opt_int(&pairs, "stone") {
            Result::Ok(v) => v,
            Result::Err(e) => {
                return Result::Err(e);
            },
        };
        let times = match get_opt_int(&pairs, "times") {
            Result::Ok(v) => v,
            Result::Err(e) => {
                return Result::Err(e);
            },
        };
        let series = match get_opt_int(&pairs, "series") {
            Result::Ok(v) => v,
            Result::Err(e) => {
                return Result::Err(e);
            },
        };
        let drops = match get_opt_int_map(&pairs, "drops") {
            Result::Ok(v) => v,
            Result::Err(e) => {
                return Result::Err(e);
            },
        };
        let report_to_penguin = match get_opt_bool(&pairs, "report_to_penguin") {
            Result::Ok(v) => v,
            Result::Err(e) => {
                return Result::Err(e);
            },
        };
        let penguin_id = match get_opt_str(&pairs, "penguin_id") {
            Result::Ok(v) => v,
            Result::Err(e) => {
                return Result::Err(e);
            },
        };
        let server = match get_opt_str(&pairs, "server") {
            Result::Ok(v) => v,
            Result::Err(e) => {
                return Result::Err(e);
            },
        };
        let client_type = match get_opt_str(&pairs, "client_type") {
            Result::Ok(v) => v,
            Result::Err(e) => {
                return Result::Err(e);
            },
        };
        let dr_grandet = match get_opt_bool(&pairs, "dr_grandet") {
            Result::Ok(v) => v,
            Result::Err(e) => {
                return Result::Err(e);
            },
        };
        Result::Ok(FightTask { enable, stage, medicine, expiring_medicine, stone, times, series, drops, report_to_penguin, penguin_id, server, client_type, dr_grandet })
    }

    /// A task with no field set.
    pub fn new() -> (r: Self)
        ensures
            r.enable is None,
            r.stage is None,
            r.medicine is None,
            r.expiring_medicine is None,
            r.stone is None,
            r.times is None,
            r.series is None,
            r.drops is None,
            r.report_to_penguin is None,
            r.penguin_id is None,
            r.server is None,
            r.client_type is None,
            r.dr_grandet is None,
    {
        FightTask { enable: Option::None, stage: Option::None, medicine: Option::None, expiring_medicine: Option::None, stone: Option::None, times: Option::None, series: Option::None, drops: Option::None, report_to_penguin: Option::None, penguin_id: Option::None, server: Option::None, client_type: Option::None, dr_grandet: Option::None }
    }

    /// A builder with no field set.
    pub fn builder() -> (r: FightTaskBuilder)
        ensures
            r.enable is None,
            r.stage is None,
            r.medicine is None,
            r.expiring_medicine is None,
            r.stone is None,
            r.times is None,
            r.series is None,
            r.drops is None,
            r.report_to_penguin is None,
            r.penguin_id is None,
            r.server is None,
            r.client_type is None,
            r.dr_grandet is None,
    {
        FightTaskBuilder { enable: Option::None, stage: Option::None, medicine: Option::None, expiring_medicine: Option::None, stone: Option::None, times: Option::None, series: Option::None, drops: Option::None, report_to_penguin: Option::None, penguin_id: Option::None, server: Option::None, client_type: Option::None, dr_grandet: Option::None }
    }
}

/// Step-by-step construction of a Fight task.
pub struct FightTaskBuilder {
    /// The optional boolean field `enable`, once set.
    pub enable: Option<bool>,
    /// The optional string field `stage`, once set.
    pub stage: Option<String>,
    /// The optional integer field `medicine`, once set.
    pub medicine: Option<i32>,
    /// The optional integer field `expiring_medicine`, once set.
    pub expiring_medicine: Option<i32>,
    /// The optional integer field `stone`, once set.
    pub stone: Option<i32>,
    /// The optional integer field `times`, once set.
    pub times: Option<i32>,
    /// The optional integer field `series`, once set.
    pub series: Option<i32>,
    /// The optional integer-map field `drops`, once set.
    pub drops: Option<Vec<(String, i32)>>,
    /// The optional boolean field `report_to_penguin`, once set.
    pub report_to_penguin: Option<bool>,
    /// The optional string field `penguin_id`, once set.
    pub penguin_id: Option<String>,
    /// The optional string field `server`, once set.
    pub server: Option<String>,
    /// The optional string field `client_type`, once set.
    pub client_type: Option<String>,
    /// The optional boolean field `dr_grandet`, once set.
    pub dr_grandet: Option<bool>,
}

impl FightTaskBuilder {
    /// Set the optional boolean field `enable`.
    pub fn enable(self, enable: bool) -> (r: Self)
        ensures
            r.enable == Option::Some(enable),
            r.stage == self.stage,
            r.medicine == self.medicine,
            r.expiring_medicine == self.expiring_medicine,
            r.stone == self.stone,
            r.times == self.times,
            r.series == self.series,
            r.drops == self.drops,
            r.report_to_penguin == self.report_to_penguin,
            r.penguin_id == self.penguin_id,
            r.server == self.server,
            r.client_type == self.client_type,
            r.dr_grandet == self.dr_grandet,
    {
        let mut this = self;
        this.enable = Option::Some(enable);
        this
    }

    /// Set the optional string field `stage`.
    pub fn stage(self, stage: &str) -> (r: Self)
        ensures
            (r.stage matches Option::Some(s) && s@ == stage@),
            r.enable == self.enable,
            r.medicine == self.medicine,
            r.expiring_medicine == self.expiring_medicine,
            r.stone == self.stone,
            r.times == self.times,
            r.series == self.series,
            r.drops == self.drops,
            r.report_to_penguin == self.report_to_penguin,
            r.penguin_id == self.penguin_id,
            r.server == self.server,
            r.client_type == self.client_type,
            r.dr_grandet == self.dr_grandet,
    {
        let mut this = self;
        this.stage = Option::Some(stage.to_owned());
        this
    }

    /// Set the optional integer field `medicine`.
    pub fn medicine(self, medicine: i32) -> (r: Self)
        ensures
            r.medicine == Option::Some(medicine),
            r.enable == self.enable,
            r.stage == self.stage,
            r.expiring_medicine == self.expiring_medicine,
            r.stone == self.stone,
            r.times == self.times,
            r.series == self.series,
            r.drops == self.drops,
            r.report_to_penguin == self.report_to_penguin,
            r.penguin_id == self.penguin_id,
            r.server == self.server,
            r.client_type == self.client_type,
            r.dr_grandet == self.dr_grandet,
    {
        let mut this = self;
        this.medicine = Option::Some(medicine);
        this
    }

    /// Set the optional integer field `expiring_medicine`.
    pub fn expiring_medicine(self, expiring_medicine: i32) -> (r: Self)
        ensures
            r.expiring_medicine == Option::Some(expiring_medicine),
            r.enable == self.enable,
            r.stage == self.stage,
            r.medicine == self.medicine,
            r.stone == self.stone,
            r.times == self.times,
            r.series == self.series,
            r.drops == self.drops,
            r.report_to_penguin == self.report_to_penguin,
            r.penguin_id == self.penguin_id,
            r.server == self.server,
            r.client_type == self.client_type,
            r.dr_grandet == self.dr_grandet,
    {
        let mut this = self;
        this.expiring_medicine = Option::Some(expiring_medicine);
        this
    }

    /// Set the optional integer field `stone`.
    pub fn stone(self, stone: i32) -> (r: Self)
        ensures
            r.stone == Option::Some(stone),
            r.enable == self.enable,
            r.stage == self.stage,
            r.medicine == self.medicine,
            r.expiring_medicine == self.expiring_medicine,
            r.times == self.times,
            r.series == self.series,
            r.drops == self.drops,
            r.report_to_penguin == self.report_to_penguin,
            r.penguin_id == self.penguin_id,
            r.server == self.server,
            r.client_type == self.client_type,
            r.dr_grandet == self.dr_grandet,
    {
        let mut this = self;
        this.stone = Option::Some(stone);
        this
    }

    /// Set the optional integer field `times`.
    pub fn times(self, times: i32) -> (r: Self)
        ensures
            r.times == Option::Some(times),
            r.enable == self.enable,
            r.stage == self.stage,
            r.medicine == self.medicine,
            r.expiring_medicine == self.expiring_medicine,
            r.stone == self.stone,
            r.series == self.series,
            r.drops == self.drops,
            r.report_to_penguin == self.report_to_penguin,
            r.penguin_id == self.penguin_id,
            r.server == self.server,
            r.client_type == self.client_type,
            r.dr_grandet == self.dr_grandet,
    {
        let mut this = self;
        this.times = Option::Some(times);
        this
    }

    /// Set the optional integer field `series`.
    pub fn series(self, series: i32) -> (r: Self)
        ensures
            r.series == Option::Some(series),
            r.enable == self.enable,
            r.stage == self.stage,
            r.medicine == self.medicine,
            r.expiring_medicine == self.expiring_medicine,
            r.stone == self.stone,
            r.times == self.times,
            r.drops == self.drops,
            r.report_to_penguin == self.report_to_penguin,
            r.penguin_id == self.penguin_id,
            r.server == self.server,
            r.client_type == self.client_type,
            r.dr_grandet == self.dr_grandet,
    {
        let mut this = self;
        this.series = Option::Some(series);
        this
    }

    /// Set the optional integer-map field `drops`.
    pub fn drops(self, drops: Vec<(String, i32)>) -> (r: Self)
        ensures
            r.drops == Option::Some(drops),
            r.enable == self.enable,
            r.stage == self.stage,
            r.medicine == self.medicine,
            r.expiring_medicine == self.expiring_medicine,
            r.stone == self.stone,
            r.times == self.times,
            r.series == self.series,
            r.report_to_penguin == self.report_to_penguin,
            r.penguin_id == self.penguin_id,
            r.server == self.server,
            r.client_type == self.client_type,
            r.dr_grandet == self.dr_grandet,
    {
        let mut this = self;
        this.drops = Option::Some(drops);
        this
    }

    /// Set the optional boolean field `report_to_penguin`.
    pub fn report_to_penguin(self, report_to_penguin: bool) -> (r: Self)
        ensures
            r.report_to_penguin == Option::Some(report_to_penguin),
            r.enable == self.enable,
            r.stage == self.stage,
            r.medicine == self.medicine,
            r.expiring_medicine == self.expiring_medicine,
            r.stone == self.stone,
            r.times == self.times,
            r.series == self.series,
            r.drops == self.drops,
            r.penguin_id == self.penguin_id,
            r.server == self.server,
            r.client_type == self.client_type,
            r.dr_grandet == self.dr_grandet,
    {
        let mut this = self;
        this.report_to_penguin = Option::Some(report_to_penguin);
        this
    }

    /// Set the optional string field `penguin_id`.
    pub fn penguin_id(self, penguin_id: &str) -> (r: Self)
        ensures
            (r.penguin_id matches Option::Some(s) && s@ == penguin_id@),
            r.enable == self.enable,
            r.stage == self.stage,
            r.medicine == self.medicine,
            r.expiring_medicine == self.expiring_medicine,
            r.stone == self.stone,
            r.times == self.times,
            r.series == self.series,
            r.drops == self.drops,
            r.report_to_penguin == self.report_to_penguin,
            r.server == self.server,
            r.client_type == self.client_type,
            r.dr_grandet == self.dr_grandet,
    {
        let mut this = self;
        this.penguin_id = Option::Some(penguin_id.to_owned());
        this
    }

    /// Set the optional string field `server`.
    pub fn server(self, server: &str) -> (r: Self)
        ensures
            (r.server matches Option::Some(s) && s@ == server@),
            r.enable == self.enable,
            r.stage == self.stage,
            r.medicine == self.medicine,
            r.expiring_medicine == self.expiring_medicine,
            r.stone == self.stone,
            r.times == self.times,
            r.series == self.series,
            r.drops == self.drops,
            r.report_to_penguin == self.report_to_penguin,
            r.penguin_id == self.penguin_id,
            r.client_type == self.client_type,
            r.dr_grandet == self.dr_grandet,
    {
        let mut this = self;
        this.server = Option::Some(server.to_owned());
        this
    }

    /// Set the optional string field `client_type`.
    pub fn client_type(self, client_type: &str) -> (r: Self)
        ensures
            (r.client_type matches Option::Some(s) && s@ == client_type@),
            r.enable == self.enable,
            r.stage == self.stage,
            r.medicine == self.medicine,
            r.expiring_medicine == self.expiring_medicine,
            r.stone == self.stone,
            r.times == self.times,
            r.series == self.series,
            r.drops == self.drops,
            r.report_to_penguin == self.report_to_penguin,
            r.penguin_id == self.penguin_id,
            r.server == self.server,
            r.dr_grandet == self.dr_grandet,
    {
        let mut this = self;
        this.client_type = Option::Some(client_type.to_owned());
        this
    }

    /// Set the optional boolean field `dr_grandet`.
    pub fn dr_grandet(self, dr_grandet: bool) -> (r: Self)
        ensures
            r.dr_grandet == Option::Some(dr_grandet),
            r.enable == self.enable,
            r.stage == self.stage,
            r.medicine == self.medicine,
            r.expiring_medicine == self.expiring_medicine,
            r.stone == self.stone,
            r.times == self.times,
            r.series == self.series,
            r.drops == self.drops,
            r.report_to_penguin == self.report_to_penguin,
            r.penguin_id == self.penguin_id,
            r.server == self.server,
            r.client_type == self.client_type,
    {
        let mut this = self;
        this.dr_grandet = Option::Some(dr_grandet);
        this
    }

    /// The finished task.
    pub fn build(self) -> (r: FightTask)
        ensures
            r.enable == self.enable,
            r.stage == self.stage,
            r.medicine == self.medicine,
            r.expiring_medicine == self.expiring_medicine,
            r.stone == self.stone,
            r.times == self.times,
            r.series == self.series,
            r.drops == self.drops,
            r.report_to_penguin == self.report_to_penguin,
            r.penguin_id == self.penguin_id,
            r.server == self.server,
            r.client_type == self.client_type,
            r.dr_grandet == self.dr_grandet,
    {
        FightTask { enable: self.enable, stage: self.stage, medicine: self.medicine, expiring_medicine: self.expiring_medicine, stone: self.stone, times: self.times, series: self.series, drops: self.drops, report_to_penguin: self.report_to_penguin, penguin_id: self.penguin_id, server: self.server, client_type: self.client_type, dr_grandet: self.dr_grandet } 
    }
}

/// What lookup of `enable` finds in the members of a Fight task.
proof fn fight_get_enable(t: FightTask)
    ensures
        doc_get(fight_pairs(t), "enable"@) == (match t.enable { Option::None => Option::<JsonV>::None, Option::Some(b) => Option::Some(JsonV::Sc(ScalarV::Bool(b))) }),
{
    reveal_strlit("enable");
    reveal_strlit("stage");
    reveal_strlit("medicine");
    reveal_strlit("expiring_medicine");
    reveal_strlit("stone");
    reveal_strlit("times");
    reveal_strlit("series");
    reveal_strlit("drops");
    reveal_strlit("report_to_penguin");
    reveal_strlit("penguin_id");
    reveal_strlit("server");
    reveal_strlit("client_type");
    reveal_strlit("dr_grandet");
    assert("enable"@.len() != "stage"@.len());
    assert("enable"@ != "stage"@);
    assert("enable"@.len() != "medicine"@.len());
    assert("enable"@ != "medicine"@);
    assert("enable"@.len() != "expiring_medicine"@.len());
    assert("enable"@ != "expiring_medicine"@);
    assert("enable"@.len() != "stone"@.len());
    assert("enable"@ != "stone"@);
    assert("enable"@.len() != "times"@.len());
    assert("enable"@ != "times"@);
    assert("enable"@[0] != "series"@[0]);
    assert("enable"@ != "series"@);
    assert("enable"@.len() != "drops"@.len());
    assert("enable"@ != "drops"@);
    assert("enable"@.len() != "report_to_penguin"@.len());
    assert("enable"@ != "report_to_penguin"@);
    assert("enable"@.len() != "penguin_id"@.len());
    assert("enable"@ != "penguin_id"@);
    assert("enable"@[0] != "server"@[0]);
    assert("enable"@ != "server"@);
    assert("enable"@.len() != "client_type"@.len());
    assert("enable"@ != "client_type"@);
    assert("enable"@.len() != "dr_grandet"@.len());
    assert("enable"@ != "dr_grandet"@);
    let b1 = b_opt_bool("enable"@, t.enable);
    let b2 = b_opt_str("stage"@, opt_str_view(t.stage));
    let b3 = b_opt_int("medicine"@, t.medicine);
    let b4 = b_opt_int("expiring_medicine"@, t.expiring_medicine);
    let b5 = b_opt_int("stone"@, t.stone);
    let b6 = b_opt_int("times"@, t.times);
    let b7 = b_opt_int("series"@, t.series);
    let b8 = b_opt_int_map("drops"@, (match t.drops { Option::None => Option::None, Option::Some(m) => Option::Some(ipairs_view(m@)) }));
    let b9 = b_opt_bool("report_to_penguin"@, t.report_to_penguin);
    let b10 = b_opt_str("penguin_id"@, opt_str_view(t.penguin_id));
    let b11 = b_opt_str("server"@, opt_str_view(t.server));
    let b12 = b_opt_str("client_type"@, opt_str_view(t.client_type));
    let b13 = b_opt_bool("dr_grandet"@, t.dr_grandet);
    let p1 = b1;
    let p2 = p1 + b2;
    let p3 = p2 + b3;
    let p4 = p3 + b4;
    let p5 = p4 + b5;
    let p6 = p5 + b6;
    let p7 = p6 + b7;
    let p8 = p7 + b8;
    let p9 = p8 + b9;
    let p10 = p9 + b10;
    let p11 = p10 + b11;
    let p12 = p11 + b12;
    let p13 = p12 + b13;
    assert(fight_pairs(t) == p13);
    lemma_doc_get_block(b1, "enable"@);
    lemma_doc_get_block(b2, "enable"@);
    lemma_doc_get_block(b3, "enable"@);
    lemma_doc_get_block(b4, "enable"@);
    lemma_doc_get_block(b5, "enable"@);
    lemma_doc_get_block(b6, "enable"@);
    lemma_doc_get_block(b7, "enable"@);
    lemma_doc_get_block(b8, "enable"@);
    lemma_doc_get_block(b9, "enable"@);
    lemma_doc_get_block(b10, "enable"@);
    lemma_doc_get_block(b11, "enable"@);
    lemma_doc_get_block(b12, "enable"@);
    lemma_doc_get_block(b13, "enable"@);
    lemma_doc_get_concat(p12, b13, "enable"@);
    lemma_doc_get_concat(p11, b12, "enable"@);
    lemma_doc_get_concat(p10, b11, "enable"@);
    lemma_doc_get_concat(p9, b10, "enable"@);
    lemma_doc_get_concat(p8, b9, "enable"@);
    lemma_doc_get_concat(p7, b8, "enable"@);
    lemma_doc_get_concat(p6, b7, "enable"@);
    lemma_doc_get_concat(p5, b6, "enable"@);
    lemma_doc_get_concat(p4, b5, "enable"@);
    lemma_doc_get_concat(p3, b4, "enable"@);
    lemma_doc_get_concat(p2, b3, "enable"@);
    lemma_doc_get_concat(p1, b2, "enable"@);
}

/// What lookup of `stage` finds in the members of a Fight task.
proof fn fight_get_stage(t: FightTask)
    ensures
        doc_get(fight_pairs(t), "stage"@) == (match t.stage { Option::None => Option::<JsonV>::None, Option::Some(s) => Option::Some(JsonV::Sc(ScalarV::Str(s@))) }),
{
    reveal_strlit("enable");
    reveal_strlit("stage");
    reveal_strlit("medicine");
    reveal_strlit("expiring_medicine");
    reveal_strlit("stone");
    reveal_strlit("times");
    reveal_strlit("series");
    reveal_strlit("drops");
    reveal_strlit("report_to_penguin");
    reveal_strlit("penguin_id");
    reveal_strlit("server");
    reveal_strlit("client_type");
    reveal_strlit("dr_grandet");
    assert("stage"@.len() != "enable"@.len());
    assert("stage"@ != "enable"@);
    assert("stage"@.len() != "medicine"@.len());
    assert("stage"@ != "medicine"@);
    assert("stage"@.len() != "expiring_medicine"@.len());
    assert("stage"@ != "expiring_medicine"@);
    assert("stage"@[2] != "stone"@[2]);
    assert("stage"@ != "stone"@);
    assert("stage"@[0] != "times"@[0]);
    assert("stage"@ != "times"@);
    assert("stage"@.len() != "series"@.len());
    assert("stage"@ != "series"@);
    assert("stage"@[0] != "drops"@[0]);
    assert("stage"@ != "drops"@);
    assert("stage"@.len() != "report_to_penguin"@.len());
    assert("stage"@ != "report_to_penguin"@);
    assert("stage"@.len() != "penguin_id"@.len());
    assert("stage"@ != "penguin_id"@);
    assert("stage"@.len() != "server"@.len());
    assert("stage"@ != "server"@);
    assert("stage"@.len() != "client_type"@.len());
    assert("stage"@ != "client_type"@);
    assert("stage"@.len() != "dr_grandet"@.len());
    assert("stage"@ != "dr_grandet"@);
    let b1 = b_opt_bool("enable"@, t.enable);
    let b2 = b_opt_str("stage"@, opt_str_view(t.stage));
    let b3 = b_opt_int("medicine"@, t.medicine);
    let b4 = b_opt_int("expiring_medicine"@, t.expiring_medicine);
    let b5 = b_opt_int("stone"@, t.stone);
    let b6 = b_opt_int("times"@, t.times);
    let b7 = b_opt_int("series"@, t.series);
    let b8 = b_opt_int_map("drops"@, (match t.drops { Option::None => Option::None, Option::Some(m) => Option::Some(ipairs_view(m@)) }));
    let b9 = b_opt_bool("report_to_penguin"@, t.report_to_penguin);
    let b10 = b_opt_str("penguin_id"@, opt_str_view(t.penguin_id));
    let b11 = b_opt_str("server"@, opt_str_view(t.server));
    let b12 = b_opt_str("client_type"@, opt_str_view(t.client_type));
    let b13 = b_opt_bool("dr_grandet"@, t.dr_grandet);
    let p1 = b1;
    let p2 = p1 + b2;
    let p3 = p2 + b3;
    let p4 = p3 + b4;
    let p5 = p4 + b5;
    let p6 = p5 + b6;
    let p7 = p6 + b7;
    let p8 = p7 + b8;
    let p9 = p8 + b9;
    let p10 = p9 + b10;
    let p11 = p10 + b11;
    let p12 = p11 + b12;
    let p13 = p12 + b13;
    assert(fight_pairs(t) == p13);
    lemma_doc_get_block(b1, "stage"@);
    lemma_doc_get_block(b2, "stage"@);
    lemma_doc_get_block(b3, "stage"@);
    lemma_doc_get_block(b4, "stage"@);
    lemma_doc_get_block(b5, "stage"@);
    lemma_doc_get_block(b6, "stage"@);
    lemma_doc_get_block(b7, "stage"@);
    lemma_doc_get_block(b8, "stage"@);
    lemma_doc_get_block(b9, "stage"@);
    lemma_doc_get_block(b10, "stage"@);
    lemma_doc_get_block(b11, "stage"@);
    lemma_doc_get_block(b12, "stage"@);
    lemma_doc_get_block(b13, "stage"@);
    lemma_doc_get_concat(p12, b13, "stage"@);
    lemma_doc_get_concat(p11, b12, "stage"@);
    lemma_doc_get_concat(p10, b11, "stage"@);
    lemma_doc_get_concat(p9, b10, "stage"@);
    lemma_doc_get_concat(p8, b9, "stage"@);
    lemma_doc_get_concat(p7, b8, "stage"@);
    lemma_doc_get_concat(p6, b7, "stage"@);
    lemma_doc_get_concat(p5, b6, "stage"@);
    lemma_doc_get_concat(p4, b5, "stage"@);
    lemma_doc_get_concat(p3, b4, "stage"@);
    lemma_doc_get_concat(p2, b3, "stage"@);
    lemma_doc_get_concat(p1, b2, "stage"@);
}

/// What lookup of `medicine` finds in the members of a Fight task.
proof fn fight_get_medicine(t: FightTask)
    ensures
        doc_get(fight_pairs(t), "medicine"@) == (match t.medicine { Option::None => Option::<JsonV>::None, Option::Some(i) => Option::Some(JsonV::Sc(ScalarV::Int(i as int))) }),
{
    reveal_strlit("enable");
    reveal_strlit("stage");
    reveal_strlit("medicine");
    reveal_strlit("expiring_medicine");
    reveal_strlit("stone");
    reveal_strlit("times");
    reveal_strlit("series");
    reveal_strlit("drops");
    reveal_strlit("report_to_penguin");
    reveal_strlit("penguin_id");
    reveal_strlit("server");
    reveal_strlit("client_type");
    reveal_strlit("dr_grandet");
    assert("medicine"@.len() != "enable"@.len());
    assert("medicine"@ != "enable"@);
    assert("medicine"@.len() != "stage"@.len());
    assert("medicine"@ != "stage"@);
    assert("medicine"@.len() != "expiring_medicine"@.len());
    assert("medicine"@ != "expiring_medicine"@);
    assert("medicine"@.len() != "stone"@.len());
    assert("medicine"@ != "stone"@);
    assert("medicine"@.len() != "times"@.len());
    assert("medicine"@ != "times"@);
    assert("medicine"@.len() != "series"@.len());
    assert("medicine"@ != "series"@);
    assert("medicine"@.len() != "drops"@.len());
    assert("medicine"@ != "drops"@);
    assert("medicine"@.len() != "report_to_penguin"@.len());
    assert("medicine"@ != "report_to_penguin"@);
    assert("medicine"@.len() != "penguin_id"@.len());
    assert("medicine"@ != "penguin_id"@);
    assert("medicine"@.len() != "server"@.len());
    assert("medicine"@ != "server"@);
    assert("medicine"@.len() != "client_type"@.len());
    assert("medicine"@ != "client_type"@);
    assert("medicine"@.len() != "dr_grandet"@.len());
    assert("medicine"@ != "dr_grandet"@);
    let b1 = b_opt_bool("enable"@, t.enable);
    let b2 = b_opt_str("stage"@, opt_str_view(t.stage));
    let b3 = b_opt_int("medicine"@, t.medicine);
    let b4 = b_opt_int("expiring_medicine"@, t.expiring_medicine);
    let b5 = b_opt_int("stone"@, t.stone);
    let b6 = b_opt_int("times"@, t.times);
    let b7 = b_opt_int("series"@, t.series);
    let b8 = b_opt_int_map("drops"@, (match t.drops { Option::None => Option::None, Option::Some(m) => Option::Some(ipairs_view(m@)) }));
    let b9 = b_opt_bool("report_to_penguin"@, t.report_to_penguin);
    let b10 = b_opt_str("penguin_id"@, opt_str_view(t.penguin_id));
    let b11 = b_opt_str("server"@, opt_str_view(t.server));
    let b12 = b_opt_str("client_type"@, opt_str_view(t.client_type));
    let b13 = b_opt_bool("dr_grandet"@, t.dr_grandet);
    let p1 = b1;
    let p2 = p1 + b2;
    let p3 = p2 + b3;
    let p4 = p3 + b4;
    let p5 = p4 + b5;
    let p6 = p5 + b6;
    let p7 = p6 + b7;
    let p8 = p7 + b8;
    let p9 = p8 + b9;
    let p10 = p9 + b10;
    let p11 = p10 + b11;
    let p12 = p11 + b12;
    let p13 = p12 + b13;
    assert(fight_pairs(t) == p13);
    lemma_doc_get_block(b1, "medicine"@);
    lemma_doc_get_block(b2, "medicine"@);
    lemma_doc_get_block(b3, "medicine"@);
    lemma_doc_get_block(b4, "medicine"@);
    lemma_doc_get_block(b5, "medicine"@);
    lemma_doc_get_block(b6, "medicine"@);
    lemma_doc_get_block(b7, "medicine"@);
    lemma_doc_get_block(b8, "medicine"@);
    lemma_doc_get_block(b9, "medicine"@);
    lemma_doc_get_block(b10, "medicine"@);
    lemma_doc_get_block(b11, "medicine"@);
    lemma_doc_get_block(b12, "medicine"@);
    lemma_doc_get_block(b13, "medicine"@);
    lemma_doc_get_concat(p12, b13, "medicine"@);
    lemma_doc_get_concat(p11, b12, "medicine"@);
    lemma_doc_get_concat(p10, b11, "medicine"@);
    lemma_doc_get_concat(p9, b10, "medicine"@);
    lemma_doc_get_concat(p8, b9, "medicine"@);
    lemma_doc_get_concat(p7, b8, "medicine"@);
    lemma_doc_get_concat(p6, b7, "medicine"@);
    lemma_doc_get_concat(p5, b6, "medicine"@);
    lemma_doc_get_concat(p4, b5, "medicine"@);
    lemma_doc_get_concat(p3, b4, "medicine"@);
    lemma_doc_get_concat(p2, b3, "medicine"@);
    lemma_doc_get_concat(p1, b2, "medicine"@);
}

/// What lookup of `expiring_medicine` finds in the members of a Fight task.
proof fn fight_get_expiring_medicine(t: FightTask)
    ensures
        doc_get(fight_pairs(t), "expiring_medicine"@) == (match t.expiring_medicine { Option::None => Option::<JsonV>::None, Option::Some(i) => Option::Some(JsonV::Sc(ScalarV::Int(i as int))) }),
{
    reveal_strlit("enable");
    reveal_strlit("stage");
    reveal_strlit("medicine");
    reveal_strlit("expiring_medicine");
    reveal_strlit("stone");
    reveal_strlit("times");
    reveal_strlit("series");
    reveal_strlit("drops");
    reveal_strlit("report_to_penguin");
    reveal_strlit("penguin_id");
    reveal_strlit("server");
    reveal_strlit("client_type");
    reveal_strlit("dr_grandet");
    assert("expiring_medicine"@.len() != "enable"@.len());
    assert("expiring_medicine"@ != "enable"@);
    assert("expiring_medicine"@.len() != "stage"@.len());
    assert("expiring_medicine"@ != "stage"@);
    assert("expiring_medicine"@.len() != "medicine"@.len());
    assert("expiring_medicine"@ != "medicine"@);
    assert("expiring_medicine"@.len() != "stone"@.len());
    assert("expiring_medicine"@ != "stone"@);
    assert("expiring_medicine"@.len() != "times"@.len());
    assert("expiring_medicine"@ != "times"@);
    assert("expiring_medicine"@.len() != "series"@.len());
    assert("expiring_medicine"@ != "series"@);
    assert("expiring_medicine"@.len() != "drops"@.len());
    assert("expiring_medicine"@ != "drops"@);
    assert("expiring_medicine"@[0] != "report_to_penguin"@[0]);
    assert("expiring_medicine"@ != "report_to_penguin"@);
    assert("expiring_medicine"@.len() != "penguin_id"@.len());
    assert("expiring_medicine"@ != "penguin_id"@);
    assert("expiring_medicine"@.len() != "server"@.len());
    assert("expiring_medicine"@ != "server"@);
    assert("expiring_medicine"@.len() != "client_type"@.len());
    assert("expiring_medicine"@ != "client_type"@);
    assert("expiring_medicine"@.len() != "dr_grandet"@.len());
    assert("expiring_medicine"@ != "dr_grandet"@);
    let b1 = b_opt_bool("enable"@, t.enable);
    let b2 = b_opt_str("stage"@, opt_str_view(t.stage));
    let b3 = b_opt_int("medicine"@, t.medicine);
    let b4 = b_opt_int("expiring_medicine"@, t.expiring_medicine);
    let b5 = b_opt_int("stone"@, t.stone);
    let b6 = b_opt_int("times"@, t.times);
    let b7 = b_opt_int("series"@, t.series);
    let b8 = b_opt_int_map("drops"@, (match t.drops { Option::None => Option::None, Option::Some(m) => Option::Some(ipairs_view(m@)) }));
    let b9 = b_opt_bool("report_to_penguin"@, t.report_to_penguin);
    let b10 = b_opt_str("penguin_id"@, opt_str_view(t.penguin_id));
    let b11 = b_opt_str("server"@, opt_str_view(t.server));
    let b12 = b_opt_str("client_type"@, opt_str_view(t.client_type));
    let b13 = b_opt_bool("dr_grandet"@, t.dr_grandet);
    let p1 = b1;
    let p2 = p1 + b2;
    let p3 = p2 + b3;
    let p4 = p3 + b4;
    let p5 = p4 + b5;
    let p6 = p5 + b6;
    let p7 = p6 + b7;
    let p8 = p7 + b8;
    let p9 = p8 + b9;
    let p10 = p9 + b10;
    let p11 = p10 + b11;
    let p12 = p11 + b12;
    let p13 = p12 + b13;
    assert(fight_pairs(t) == p13);
    lemma_doc_get_block(b1, "expiring_medicine"@);
    lemma_doc_get_block(b2, "expiring_medicine"@);
    lemma_doc_get_block(b3, "expiring_medicine"@);
    lemma_doc_get_block(b4, "expiring_medicine"@);
    lemma_doc_get_block(b5, "expiring_medicine"@);
    lemma_doc_get_block(b6, "expiring_medicine"@);
    lemma_doc_get_block(b7, "expiring_medicine"@);
    lemma_doc_get_block(b8, "expiring_medicine"@);
    lemma_doc_get_block(b9, "expiring_medicine"@);
    lemma_doc_get_block(b10, "expiring_medicine"@);
    lemma_doc_get_block(b11, "expiring_medicine"@);
    lemma_doc_get_block(b12, "expiring_medicine"@);
    lemma_doc_get_block(b13, "expiring_medicine"@);
    lemma_doc_get_concat(p12, b13, "expiring_medicine"@);
    lemma_doc_get_concat(p11, b12, "expiring_medicine"@);
    lemma_doc_get_concat(p10, b11, "expiring_medicine"@);
    lemma_doc_get_concat(p9, b10, "expiring_medicine"@);
    lemma_doc_get_concat(p8, b9, "expiring_medicine"@);
    lemma_doc_get_concat(p7, b8, "expiring_medicine"@);
    lemma_doc_get_concat(p6, b7, "expiring_medicine"@);
    lemma_doc_get_concat(p5, b6, "expiring_medicine"@);
    lemma_doc_get_concat(p4, b5, "expiring_medicine"@);
    lemma_doc_get_concat(p3, b4, "expiring_medicine"@);
    lemma_doc_get_concat(p2, b3, "expiring_medicine"@);
    lemma_doc_get_concat(p1, b2, "expiring_medicine"@);
}

/// What lookup of `stone` finds in the members of a Fight task.
proof fn fight_get_stone(t: FightTask)
    ensures
        doc_get(fight_pairs(t), "stone"@) == (match t.stone { Option::None => Option::<JsonV>::None, Option::Some(i) => Option::Some(JsonV::Sc(ScalarV::Int(i as int))) }),
{
    reveal_strlit("enable");
    reveal_strlit("stage");
    reveal_strlit("medicine");
    reveal_strlit("expiring_medicine");
    reveal_strlit("stone");
    reveal_strlit("times");
    reveal_strlit("series");
    reveal_strlit("drops");
    reveal_strlit("report_to_penguin");
    reveal_strlit("penguin_id");
    reveal_strlit("server");
    reveal_strlit("client_type");
    reveal_strlit("dr_grandet");
    assert("stone"@.len() != "enable"@.len());
    assert("stone"@ != "enable"@);
    assert("stone"@[2] != "stage"@[2]);
    assert("stone"@ != "stage"@);
    assert("stone"@.len() != "medicine"@.len());
    assert("stone"@ != "medicine"@);
    assert("stone"@.len() != "expiring_medicine"@.len());
    assert("stone"@ != "expiring_medicine"@);
    assert("stone"@[0] != "times"@[0]);
    assert("stone"@ != "times"@);
    assert("stone"@.len() != "series"@.len());
    assert("stone"@ != "series"@);
    assert("stone"@[0] != "drops"@[0]);
    assert("stone"@ != "drops"@);
    assert("stone"@.len() != "report_to_penguin"@.len());
    assert("stone"@ != "report_to_penguin"@);
    assert("stone"@.len() != "penguin_id"@.len());
    assert("stone"@ != "penguin_id"@);
    assert("stone"@.len() != "server"@.len());
    assert("stone"@ != "server"@);
    assert("stone"@.len() != "client_type"@.len());
    assert("stone"@ != "client_type"@);
    assert("stone"@.len() != "dr_grandet"@.len());
    assert("stone"@ != "dr_grandet"@);
    let b1 = b_opt_bool("enable"@, t.enable);
    let b2 = b_opt_str("stage"@, opt_str_view(t.stage));
    let b3 = b_opt_int("medicine"@, t.medicine);
    let b4 = b_opt_int("expiring_medicine"@, t.expiring_medicine);
    let b5 = b_opt_int("stone"@, t.stone);
    let b6 = b_opt_int("times"@, t.times);
    let b7 = b_opt_int("series"@, t.series);
    let b8 = b_opt_int_map("drops"@, (match t.drops { Option::None => Option::None, Option::Some(m) => Option::Some(ipairs_view(m@)) }));
    let b9 = b_opt_bool("report_to_penguin"@, t.report_to_penguin);
    let b10 = b_opt_str("penguin_id"@, opt_str_view(t.penguin_id));
    let b11 = b_opt_str("server"@, opt_str_view(t.server));
    let b12 = b_opt_str("client_type"@, opt_str_view(t.client_type));
    let b13 = b_opt_bool("dr_grandet"@, t.dr_grandet);
    let p1 = b1;
    let p2 = p1 + b2;
    let p3 = p2 + b3;
    let p4 = p3 + b4;
    let p5 = p4 + b5;
    let p6 = p5 + b6;
    let p7 = p6 + b7;
    let p8 = p7 + b8;
    let p9 = p8 + b9;
    let p10 = p9 + b10;
    let p11 = p10 + b11;
    let p12 = p11 + b12;
    let p13 = p12 + b13;
    assert(fight_pairs(t) == p13);
    lemma_doc_get_block(b1, "stone"@);
    lemma_doc_get_block(b2, "stone"@);
    lemma_doc_get_block(b3, "stone"@);
    lemma_doc_get_block(b4, "stone"@);
    lemma_doc_get_block(b5, "stone"@);
    lemma_doc_get_block(b6, "stone"@);
    lemma_doc_get_block(b7, "stone"@);
    lemma_doc_get_block(b8, "stone"@);
    lemma_doc_get_block(b9, "stone"@);
    lemma_doc_get_block(b10, "stone"@);
    lemma_doc_get_block(b11, "stone"@);
    lemma_doc_get_block(b12, "stone"@);
    lemma_doc_get_block(b13, "stone"@);
    lemma_doc_get_concat(p12, b13, "stone"@);
    lemma_doc_get_concat(p11, b12, "stone"@);
    lemma_doc_get_concat(p10, b11, "stone"@);
    lemma_doc_get_concat(p9, b10, "stone"@);
    lemma_doc_get_concat(p8, b9, "stone"@);
    lemma_doc_get_concat(p7, b8, "stone"@);
    lemma_doc_get_concat(p6, b7, "stone"@);
    lemma_doc_get_concat(p5, b6, "stone"@);
    lemma_doc_get_concat(p4, b5, "stone"@);
    lemma_doc_get_concat(p3, b4, "stone"@);
    lemma_doc_get_concat(p2, b3, "stone"@);
    lemma_doc_get_concat(p1, b2, "stone"@);
}

/// What lookup of `times` finds in the members of a Fight task.
proof fn fight_get_times(t: FightTask)
    ensures
        doc_get(fight_pairs(t), "times"@) == (match t.times { Option::None => Option::<JsonV>::None, Option::Some(i) => Option::Some(JsonV::Sc(ScalarV::Int(i as int))) }),
{
    reveal_strlit("enable");
    reveal_strlit("stage");
    reveal_strlit("medicine");
    reveal_strlit("expiring_medicine");
    reveal_strlit("stone");
    reveal_strlit("times");
    reveal_strlit("series");
    reveal_strlit("drops");
    reveal_strlit("report_to_penguin");
    reveal_strlit("penguin_id");
    reveal_strlit("server");
    reveal_strlit("client_type");
    reveal_strlit("dr_grandet");
    assert("times"@.len() != "enable"@.len());
    assert("times"@ != "enable"@);
    assert("times"@[0] != "stage"@[0]);
    assert("times"@ != "stage"@);
    assert("times"@.len() != "medicine"@.len());
    assert("times"@ != "medicine"@);
    assert("times"@.len() != "expiring_medicine"@.len());
    assert("times"@ != "expiring_medicine"@);
    assert("times"@[0] != "stone"@[0]);
    assert("times"@ != "stone"@);
    assert("times"@.len() != "series"@.len());
    assert("times"@ != "series"@);
    assert("times"@[0] != "drops"@[0]);
    assert("times"@ != "drops"@);
    assert("times"@.len() != "report_to_penguin"@.len());
    assert("times"@ != "report_to_penguin"@);
    assert("times"@.len() != "penguin_id"@.len());
    assert("times"@ != "penguin_id"@);
    assert("times"@.len() != "server"@.len());
    assert("times"@ != "server"@);
    assert("times"@.len() != "client_type"@.len());
    assert("times"@ != "client_type"@);
    assert("times"@.len() != "dr_grandet"@.len());
    assert("times"@ != "dr_grandet"@);
    let b1 = b_opt_bool("enable"@, t.enable);
    let b2 = b_opt_str("stage"@, opt_str_view(t.stage));
    let b3 = b_opt_int("medicine"@, t.medicine);
    let b4 = b_opt_int("expiring_medicine"@, t.expiring_medicine);
    let b5 = b_opt_int("stone"@, t.stone);
    let b6 = b_opt_int("times"@, t.times);
    let b7 = b_opt_int("series"@, t.series);
    let b8 = b_opt_int_map("drops"@, (match t.drops { Option::None => Option::None, Option::Some(m) => Option::Some(ipairs_view(m@)) }));
    let b9 = b_opt_bool("report_to_penguin"@, t.report_to_penguin);
    let b10 = b_opt_str("penguin_id"@, opt_str_view(t.penguin_id));
    let b11 = b_opt_str("server"@, opt_str_view(t.server));
    let b12 = b_opt_str("client_type"@, opt_str_view(t.client_type));
    let b13 = b_opt_bool("dr_grandet"@, t.dr_grandet);
    let p1 = b1;
    let p2 = p1 + b2;
    let p3 = p2 + b3;
    let p4 = p3 + b4;
    let p5 = p4 + b5;
    let p6 = p5 + b6;
    let p7 = p6 + b7;
    let p8 = p7 + b8;
    let p9 = p8 + b9;
    let p10 = p9 + b10;
    let p11 = p10 + b11;
    let p12 = p11 + b12;
    let p13 = p12 + b13;
    assert(fight_pairs(t) == p13);
    lemma_doc_get_block(b1, "times"@);
    lemma_doc_get_block(b2, "times"@);
    lemma_doc_get_block(b3, "times"@);
    lemma_doc_get_block(b4, "times"@);
    lemma_doc_get_block(b5, "times"@);
    lemma_doc_get_block(b6, "times"@);
    lemma_doc_get_block(b7, "times"@);
    lemma_doc_get_block(b8, "times"@);
    lemma_doc_get_block(b9, "times"@);
    lemma_doc_get_block(b10, "times"@);
    lemma_doc_get_block(b11, "times"@);
    lemma_doc_get_block(b12, "times"@);
    lemma_doc_get_block(b13, "times"@);
    lemma_doc_get_concat(p12, b13, "times"@);
    lemma_doc_get_concat(p11, b12, "times"@);
    lemma_doc_get_concat(p10, b11, "times"@);
    lemma_doc_get_concat(p9, b10, "times"@);
    lemma_doc_get_concat(p8, b9, "times"@);
    lemma_doc_get_concat(p7, b8, "times"@);
    lemma_doc_get_concat(p6, b7, "times"@);
    lemma_doc_get_concat(p5, b6, "times"@);
    lemma_doc_get_concat(p4, b5, "times"@);
    lemma_doc_get_concat(p3, b4, "times"@);
    lemma_doc_get_concat(p2, b3, "times"@);
    lemma_doc_get_concat(p1, b2, "times"@);
}

/// What lookup of `series` finds in the members of a Fight task.
proof fn fight_get_series(t: FightTask)
    ensures
        doc_get(fight_pairs(t), "series"@) == (match t.series { Option::None => Option::<JsonV>::None, Option::Some(i) => Option::Some(JsonV::Sc(ScalarV::Int(i as int))) }),
{
    reveal_strlit("enable");
    reveal_strlit("stage");
    reveal_strlit("medicine");
    reveal_strlit("expiring_medicine");
    reveal_strlit("stone");
    reveal_strlit("times");
    reveal_strlit("series");
    reveal_strlit("drops");
    reveal_strlit("report_to_penguin");
    reveal_strlit("penguin_id");
    reveal_strlit("server");
    reveal_strlit("client_type");
    reveal_strlit("dr_grandet");
    assert("series"@[0] != "enable"@[0]);
    assert("series"@ != "enable"@);
    assert("series"@.len() != "stage"@.len());
    assert("series"@ != "stage"@);
    assert("series"@.len() != "medicine"@.len());
    assert("series"@ != "medicine"@);
    assert("series"@.len() != "expiring_medicine"@.len());
    assert("series"@ != "expiring_medicine"@);
    assert("series"@.len() != "stone"@.len());
    assert("series"@ != "stone"@);
    assert("series"@.len() != "times"@.len());
    assert("series"@ != "times"@);
    assert("series"@.len() != "drops"@.len());
    assert("series"@ != "drops"@);
    assert("series"@.len() != "report_to_penguin"@.len());
    assert("series"@ != "report_to_penguin"@);
    assert("series"@.len() != "penguin_id"@.len());
    assert("series"@ != "penguin_id"@);
    assert("series"@[3] != "server"@[3]);
    assert("series"@ != "server"@);
    assert("series"@.len() != "client_type"@.len());
    assert("series"@ != "client_type"@);
    assert("series"@.len() != "dr_grandet"@.len());
    assert("series"@ != "dr_grandet"@);
    let b1 = b_opt_bool("enable"@, t.enable);
    let b2 = b_opt_str("stage"@, opt_str_view(t.stage));
    let b3 = b_opt_int("medicine"@, t.medicine);
    let b4 = b_opt_int("expiring_medicine"@, t.expiring_medicine);
    let b5 = b_opt_int("stone"@, t.stone);
    let b6 = b_opt_int("times"@, t.times);
    let b7 = b_opt_int("series"@, t.series);
    let b8 = b_opt_int_map("drops"@, (match t.drops { Option::None => Option::None, Option::Some(m) => Option::Some(ipairs_view(m@)) }));
    let b9 = b_opt_bool("report_to_penguin"@, t.report_to_penguin);
    let b10 = b_opt_str("penguin_id"@, opt_str_view(t.penguin_id));
    let b11 = b_opt_str("server"@, opt_str_view(t.server));
    let b12 = b_opt_str("client_type"@, opt_str_view(t.client_type));
    let b13 = b_opt_bool("dr_grandet"@, t.dr_grandet);
    let p1 = b1;
    let p2 = p1 + b2;
    let p3 = p2 + b3;
    let p4 = p3 + b4;
    let p5 = p4 + b5;
    let p6 = p5 + b6;
    let p7 = p6 + b7;
    let p8 = p7 + b8;
    let p9 = p8 + b9;
    let p10 = p9 + b10;
    let p11 = p10 + b11;
    let p12 = p11 + b12;
    let p13 = p12 + b13;
    assert(fight_pairs(t) == p13);
    lemma_doc_get_block(b1, "series"@);
    lemma_doc_get_block(b2, "series"@);
    lemma_doc_get_block(b3, "series"@);
    lemma_doc_get_block(b4, "series"@);
    lemma_doc_get_block(b5, "series"@);
    lemma_doc_get_block(b6, "series"@);
    lemma_doc_get_block(b7, "series"@);
    lemma_doc_get_block(b8, "series"@);
    lemma_doc_get_block(b9, "series"@);
    lemma_doc_get_block(b10, "series"@);
    lemma_doc_get_block(b11, "series"@);
    lemma_doc_get_block(b12, "series"@);
    lemma_doc_get_block(b13, "series"@);
    lemma_doc_get_concat(p12, b13, "series"@);
    lemma_doc_get_concat(p11, b12, "series"@);
    lemma_doc_get_concat(p10, b11, "series"@);
    lemma_doc_get_concat(p9, b10, "series"@);
    lemma_doc_get_concat(p8, b9, "series"@);
    lemma_doc_get_concat(p7, b8, "series"@);
    lemma_doc_get_concat(p6, b7, "series"@);
    lemma_doc_get_concat(p5, b6, "series"@);
    lemma_doc_get_concat(p4, b5, "series"@);
    lemma_doc_get_concat(p3, b4, "series"@);
    lemma_doc_get_concat(p2, b3, "series"@);
    lemma_doc_get_concat(p1, b2, "series"@);
}

/// What lookup of `drops` finds in the members of a Fight task.
proof fn fight_get_drops(t: FightTask)
    ensures
        doc_get(fight_pairs(t), "drops"@) == (match t.drops { Option::None => Option::<JsonV>::None, Option::Some(m) => Option::Some(JsonV::Obj(jv_int_map(ipairs_view(m@)))) }),
{
    reveal_strlit("enable");
    reveal_strlit("stage");
    reveal_strlit("medicine");
    reveal_strlit("expiring_medicine");
    reveal_strlit("stone");
    reveal_strlit("times");
    reveal_strlit("series");
    reveal_strlit("drops");
    reveal_strlit("report_to_penguin");
    reveal_strlit("penguin_id");
    reveal_strlit("server");
    reveal_strlit("client_type");
    reveal_strlit("dr_grandet");
    assert("drops"@.len() != "enable"@.len());
    assert("drops"@ != "enable"@);
    assert("drops"@[0] != "stage"@[0]);
    assert("drops"@ != "stage"@);
    assert("drops"@.len() != "medicine"@.len());
    assert("drops"@ != "medicine"@);
    assert("drops"@.len() != "expiring_medicine"@.len());
    assert("drops"@ != "expiring_medicine"@);
    assert("drops"@[0] != "stone"@[0]);
    assert("drops"@ != "stone"@);
    assert("drops"@[0] != "times"@[0]);
    assert("drops"@ != "times"@);
    assert("drops"@.len() != "series"@.len());
    assert("drops"@ != "series"@);
    assert("drops"@.len() != "report_to_penguin"@.len());
    assert("drops"@ != "report_to_penguin"@);
    assert("drops"@.len() != "penguin_id"@.len());
    assert("drops"@ != "penguin_id"@);
    assert("drops"@.len() != "server"@.len());
    assert("drops"@ != "server"@);
    assert("drops"@.len() != "client_type"@.len());
    assert("drops"@ != "client_type"@);
    assert("drops"@.len() != "dr_grandet"@.len());
    assert("drops"@ != "dr_grandet"@);
    let b1 = b_opt_bool("enable"@, t.enable);
    let b2 = b_opt_str("stage"@, opt_str_view(t.stage));
    let b3 = b_opt_int("medicine"@, t.medicine);
    let b4 = b_opt_int("expiring_medicine"@, t.expiring_medicine);
    let b5 = b_opt_int("stone"@, t.stone);
    let b6 = b_opt_int("times"@, t.times);
    let b7 = b_opt_int("series"@, t.series);
    let b8 = b_opt_int_map("drops"@, (match t.drops { Option::None => Option::None, Option::Some(m) => Option::Some(ipairs_view(m@)) }));
    let b9 = b_opt_bool("report_to_penguin"@, t.report_to_penguin);
    let b10 = b_opt_str("penguin_id"@, opt_str_view(t.penguin_id));
    let b11 = b_opt_str("server"@, opt_str_view(t.server));
    let b12 = b_opt_str("client_type"@, opt_str_view(t.client_type));
    let b13 = b_opt_bool("dr_grandet"@, t.dr_grandet);
    let p1 = b1;
    let p2 = p1 + b2;
    let p3 = p2 + b3;
    let p4 = p3 + b4;
    let p5 = p4 + b5;
    let p6 = p5 + b6;
    let p7 = p6 + b7;
    let p8 = p7 + b8;
    let p9 = p8 + b9;
    let p10 = p9 + b10;
    let p11 = p10 + b11;
    let p12 = p11 + b12;
    let p13 = p12 + b13;
    assert(fight_pairs(t) == p13);
    lemma_doc_get_block(b1, "drops"@);
    lemma_doc_get_block(b2, "drops"@);
    lemma_doc_get_block(b3, "drops"@);
    lemma_doc_get_block(b4, "drops"@);
    lemma_doc_get_block(b5, "drops"@);
    lemma_doc_get_block(b6, "drops"@);
    lemma_doc_get_block(b7, "drops"@);
    lemma_doc_get_block(b8, "drops"@);
    lemma_doc_get_block(b9, "drops"@);
    lemma_doc_get_block(b10, "drops"@);
    lemma_doc_get_block(b11, "drops"@);
    lemma_doc_get_block(b12, "drops"@);
    lemma_doc_get_block(b13, "drops"@);
    lemma_doc_get_concat(p12, b13, "drops"@);
    lemma_doc_get_concat(p11, b12, "drops"@);
    lemma_doc_get_concat(p10, b11, "drops"@);
    lemma_doc_get_concat(p9, b10, "drops"@);
    lemma_doc_get_concat(p8, b9, "drops"@);
    lemma_doc_get_concat(p7, b8, "drops"@);
    lemma_doc_get_concat(p6, b7, "drops"@);
    lemma_doc_get_concat(p5, b6, "drops"@);
    lemma_doc_get_concat(p4, b5, "drops"@);
    lemma_doc_get_concat(p3, b4, "drops"@);
    lemma_doc_get_concat(p2, b3, "drops"@);
    lemma_doc_get_concat(p1, b2, "drops"@);
}

/// What lookup of `report_to_penguin` finds in the members of a Fight task.
proof fn fight_get_report_to_penguin(t: FightTask)
    ensures
        doc_get(fight_pairs(t), "report_to_penguin"@) == (match t.report_to_penguin { Option::None => Option::<JsonV>::None, Option::Some(b) => Option::Some(JsonV::Sc(ScalarV::Bool(b))) }),
{
    reveal_strlit("enable");
    reveal_strlit("stage");
    reveal_strlit("medicine");
    reveal_strlit("expiring_medicine");
    reveal_strlit("stone");
    reveal_strlit("times");
    reveal_strlit("series");
    reveal_strlit("drops");
    reveal_strlit("report_to_penguin");
    reveal_strlit("penguin_id");
    reveal_strlit("server");
    reveal_strlit("client_type");
    reveal_strlit("dr_grandet");
    assert("report_to_penguin"@.len() != "enable"@.len());
    assert("report_to_penguin"@ != "enable"@);
    assert("report_to_penguin"@.len() != "stage"@.len());
    assert("report_to_penguin"@ != "stage"@);
    assert("report_to_penguin"@.len() != "medicine"@.len());
    assert("report_to_penguin"@ != "medicine"@);
    assert("report_to_penguin"@[0] != "expiring_medicine"@[0]);
    assert("report_to_penguin"@ != "expiring_medicine"@);
    assert("report_to_penguin"@.len() != "stone"@.len());
    assert("report_to_penguin"@ != "stone"@);
    assert("report_to_penguin"@.len() != "times"@.len());
    assert("report_to_penguin"@ != "times"@);
    assert("report_to_penguin"@.len() != "series"@.len());
    assert("report_to_penguin"@ != "series"@);
    assert("report_to_penguin"@.len() != "drops"@.len());
    assert("report_to_penguin"@ != "drops"@);
    assert("report_to_penguin"@.len() != "penguin_id"@.len());
    assert("report_to_penguin"@ != "penguin_id"@);
    assert("report_to_penguin"@.len() != "server"@.len());
    assert("report_to_penguin"@ != "server"@);
    assert("report_to_penguin"@.len() != "client_type"@.len());
    assert("report_to_penguin"@ != "client_type"@);
    assert("report_to_penguin"@.len() != "dr_grandet"@.len());
    assert("report_to_penguin"@ != "dr_grandet"@);
    let b1 = b_opt_bool("enable"@, t.enable);
    let b2 = b_opt_str("stage"@, opt_str_view(t.stage));
    let b3 = b_opt_int("medicine"@, t.medicine);
    let b4 = b_opt_int("expiring_medicine"@, t.expiring_medicine);
    let b5 = b_opt_int("stone"@, t.stone);
    let b6 = b_opt_int("times"@, t.times);
    let b7 = b_opt_int("series"@, t.series);
    let b8 = b_opt_int_map("drops"@, (match t.drops { Option::None => Option::None, Option::Some(m) => Option::Some(ipairs_view(m@)) }));
    let b9 = b_opt_bool("report_to_penguin"@, t.report_to_penguin);
    let b10 = b_opt_str("penguin_id"@, opt_str_view(t.penguin_id));
    let b11 = b_opt_str("server"@, opt_str_view(t.server));
    let b12 = b_opt_str("client_type"@, opt_str_view(t.client_type));
    let b13 = b_opt_bool("dr_grandet"@, t.dr_grandet);
    let p1 = b1;
    let p2 = p1 + b2;
    let p3 = p2 + b3;
    let p4 = p3 + b4;
    let p5 = p4 + b5;
    let p6 = p5 + b6;
    let p7 = p6 + b7;
    let p8 = p7 + b8;
    let p9 = p8 + b9;
    let p10 = p9 + b10;
    let p11 = p10 + b11;
    let p12 = p11 + b12;
    let p13 = p12 + b13;
    assert(fight_pairs(t) == p13);
    lemma_doc_get_block(b1, "report_to_penguin"@);
    lemma_doc_get_block(b2, "report_to_penguin"@);
    lemma_doc_get_block(b3, "report_to_penguin"@);
    lemma_doc_get_block(b4, "report_to_penguin"@);
    lemma_doc_get_block(b5, "report_to_penguin"@);
    lemma_doc_get_block(b6, "report_to_penguin"@);
    lemma_doc_get_block(b7, "report_to_penguin"@);
    lemma_doc_get_block(b8, "report_to_penguin"@);
    lemma_doc_get_block(b9, "report_to_penguin"@);
    lemma_doc_get_block(b10, "report_to_penguin"@);
    lemma_doc_get_block(b11, "report_to_penguin"@);
    lemma_doc_get_block(b12, "report_to_penguin"@);
    lemma_doc_get_block(b13, "report_to_penguin"@);
    lemma_doc_get_concat(p12, b13, "report_to_penguin"@);
    lemma_doc_get_concat(p11, b12, "report_to_penguin"@);
    lemma_doc_get_concat(p10, b11, "report_to_penguin"@);
    lemma_doc_get_concat(p9, b10, "report_to_penguin"@);
    lemma_doc_get_concat(p8, b9, "report_to_penguin"@);
    lemma_doc_get_concat(p7, b8, "report_to_penguin"@);
    lemma_doc_get_concat(p6, b7, "report_to_penguin"@);
    lemma_doc_get_concat(p5, b6, "report_to_penguin"@);
    lemma_doc_get_concat(p4, b5, "report_to_penguin"@);
    lemma_doc_get_concat(p3, b4, "report_to_penguin"@);
    lemma_doc_get_concat(p2, b3, "report_to_penguin"@);
    lemma_doc_get_concat(p1, b2, "report_to_penguin"@);
}

/// What lookup of `penguin_id` finds in the members of a Fight task.
proof fn fight_get_penguin_id(t: FightTask)
    ensures
        doc_get(fight_pairs(t), "penguin_id"@) == (match t.penguin_id { Option::None => Option::<JsonV>::None, Option::Some(s) => Option::Some(JsonV::Sc(ScalarV::Str(s@))) }),
{
    reveal_strlit("enable");
    reveal_strlit("stage");
    reveal_strlit("medicine");
    reveal_strlit("expiring_medicine");
    reveal_strlit("stone");
    reveal_strlit("times");
    reveal_strlit("series");
    reveal_strlit("drops");
    reveal_strlit("report_to_penguin");
    reveal_strlit("penguin_id");
    reveal_strlit("server");
    reveal_strlit("client_type");
    reveal_strlit("dr_grandet");
    assert("penguin_id"@.len() != "enable"@.len());
    assert("penguin_id"@ != "enable"@);
    assert("penguin_id"@.len() != "stage"@.len());
    assert("penguin_id"@ != "stage"@);
    assert("penguin_id"@.len() != "medicine"@.len());
    assert("penguin_id"@ != "medicine"@);
    assert("penguin_id"@.len() != "expiring_medicine"@.len());
    assert("penguin_id"@ != "expiring_medicine"@);
    assert("penguin_id"@.len() != "stone"@.len());
    assert("penguin_id"@ != "stone"@);
    assert("penguin_id"@.len() != "times"@.len());
    assert("penguin_id"@ != "times"@);
    assert("penguin_id"@.len() != "series"@.len());
    assert("penguin_id"@ != "series"@);
    assert("penguin_id"@.len() != "drops"@.len());
    assert("penguin_id"@ != "drops"@);
    assert("penguin_id"@.len() != "report_to_penguin"@.len());
    assert("penguin_id"@ != "report_to_penguin"@);
    assert("penguin_id"@.len() != "server"@.len());
    assert("penguin_id"@ != "server"@);
    assert("penguin_id"@.len() != "client_type"@.len());
    assert("penguin_id"@ != "client_type"@);
    assert("penguin_id"@[0] != "dr_grandet"@[0]);
    assert("penguin_id"@ != "dr_grandet"@);
    let b1 = b_opt_bool("enable"@, t.enable);
    let b2 = b_opt_str("stage"@, opt_str_view(t.stage));
    let b3 = b_opt_int("medicine"@, t.medicine);
    let b4 = b_opt_int("expiring_medicine"@, t.expiring_medicine);
    let b5 = b_opt_int("stone"@, t.stone);
    let b6 = b_opt_int("times"@, t.times);
    let b7 = b_opt_int("series"@, t.series);
    let b8 = b_opt_int_map("drops"@, (match t.drops { Option::None => Option::None, Option::Some(m) => Option::Some(ipairs_view(m@)) }));
    let b9 = b_opt_bool("report_to_penguin"@, t.report_to_penguin);
    let b10 = b_opt_str("penguin_id"@, opt_str_view(t.penguin_id));
    let b11 = b_opt_str("server"@, opt_str_view(t.server));
    let b12 = b_opt_str("client_type"@, opt_str_view(t.client_type));
    let b13 = b_opt_bool("dr_grandet"@, t.dr_grandet);
    let p1 = b1;
    let p2 = p1 + b2;
    let p3 = p2 + b3;
    let p4 = p3 + b4;
    let p5 = p4 + b5;
    let p6 = p5 + b6;
    let p7 = p6 + b7;
    let p8 = p7 + b8;
    let p9 = p8 + b9;
    let p10 = p9 + b10;
    let p11 = p10 + b11;
    let p12 = p11 + b12;
    let p13 = p12 + b13;
    assert(fight_pairs(t) == p13);
    lemma_doc_get_block(b1, "penguin_id"@);
    lemma_doc_get_block(b2, "penguin_id"@);
    lemma_doc_get_block(b3, "penguin_id"@);
    lemma_doc_get_block(b4, "penguin_id"@);
    lemma_doc_get_block(b5, "penguin_id"@);
    lemma_doc_get_block(b6, "penguin_id"@);
    lemma_doc_get_block(b7, "penguin_id"@);
    lemma_doc_get_block(b8, "penguin_id"@);
    lemma_doc_get_block(b9, "penguin_id"@);
    lemma_doc_get_block(b10, "penguin_id"@);
    lemma_doc_get_block(b11, "penguin_id"@);
    lemma_doc_get_block(b12, "penguin_id"@);
    lemma_doc_get_block(b13, "penguin_id"@);
    lemma_doc_get_concat(p12, b13, "penguin_id"@);
    lemma_doc_get_concat(p11, b12, "penguin_id"@);
    lemma_doc_get_concat(p10, b11, "penguin_id"@);
    lemma_doc_get_concat(p9, b10, "penguin_id"@);
    lemma_doc_get_concat(p8, b9, "penguin_id"@);
    lemma_doc_get_concat(p7, b8, "penguin_id"@);
    lemma_doc_get_concat(p6, b7, "penguin_id"@);
    lemma_doc_get_concat(p5, b6, "penguin_id"@);
    lemma_doc_get_concat(p4, b5, "penguin_id"@);
    lemma_doc_get_concat(p3, b4, "penguin_id"@);
    lemma_doc_get_concat(p2, b3, "penguin_id"@);
    lemma_doc_get_concat(p1, b2, "penguin_id"@);
}

/// What lookup of `server` finds in the members of a Fight task.
proof fn fight_get_server(t: FightTask)
    ensures
        doc_get(fight_pairs(t), "server"@) == (match t.server { Option::None => Option::<JsonV>::None, Option::Some(s) => Option::Some(JsonV::Sc(ScalarV::Str(s@))) }),
{
    reveal_strlit("enable");
    reveal_strlit("stage");
    reveal_strlit("medicine");
    reveal_strlit("expiring_medicine");
    reveal_strlit("stone");
    reveal_strlit("times");
    reveal_strlit("series");
    reveal_strlit("drops");
    reveal_strlit("report_to_penguin");
    reveal_strlit("penguin_id");
    reveal_strlit("server");
    reveal_strlit("client_type");
    reveal_strlit("dr_grandet");
    assert("server"@[0] != "enable"@[0]);
    assert("server"@ != "enable"@);
    assert("server"@.len() != "stage"@.len());
    assert("server"@ != "stage"@);
    assert("server"@.len() != "medicine"@.len());
    assert("server"@ != "medicine"@);
    assert("server"@.len() != "expiring_medicine"@.len());
    assert("server"@ != "expiring_medicine"@);
    assert("server"@.len() != "stone"@.len());
    assert("server"@ != "stone"@);
    assert("server"@.len() != "times"@.len());
    assert("server"@ != "times"@);
    assert("server"@[3] != "series"@[3]);
    assert("server"@ != "series"@);
    assert("server"@.len() != "drops"@.len());
    assert("server"@ != "drops"@);
    assert("server"@.len() != "report_to_penguin"@.len());
    assert("server"@ != "report_to_penguin"@);
    assert("server"@.len() != "penguin_id"@.len());
    assert("server"@ != "penguin_id"@);
    assert("server"@.len() != "client_type"@.len());
    assert("server"@ != "client_type"@);
    assert("server"@.len() != "dr_grandet"@.len());
    assert("server"@ != "dr_grandet"@);
    let b1 = b_opt_bool("enable"@, t.enable);
    let b2 = b_opt_str("stage"@, opt_str_view(t.stage));
    let b3 = b_opt_int("medicine"@, t.medicine);
    let b4 = b_opt_int("expiring_medicine"@, t.expiring_medicine);
    let b5 = b_opt_int("stone"@, t.stone);
    let b6 = b_opt_int("times"@, t.times);
    let b7 = b_opt_int("series"@, t.series);
    let b8 = b_opt_int_map("drops"@, (match t.drops { Option::None => Option::None, Option::Some(m) => Option::Some(ipairs_view(m@)) }));
    let b9 = b_opt_bool("report_to_penguin"@, t.report_to_penguin);
    let b10 = b_opt_str("penguin_id"@, opt_str_view(t.penguin_id));
    let b11 = b_opt_str("server"@, opt_str_view(t.server));
    let b12 = b_opt_str("client_type"@, opt_str_view(t.client_type));
    let b13 = b_opt_bool("dr_grandet"@, t.dr_grandet);
    let p1 = b1;
    let p2 = p1 + b2;
    let p3 = p2 + b3;
    let p4 = p3 + b4;
    let p5 = p4 + b5;
    let p6 = p5 + b6;
    let p7 = p6 + b7;
    let p8 = p7 + b8;
    let p9 = p8 + b9;
    let p10 = p9 + b10;
    let p11 = p10 + b11;
    let p12 = p11 + b12;
    let p13 = p12 + b13;
    assert(fight_pairs(t) == p13);
    lemma_doc_get_block(b1, "server"@);
    lemma_doc_get_block(b2, "server"@);
    lemma_doc_get_block(b3, "server"@);
    lemma_doc_get_block(b4, "server"@);
    lemma_doc_get_block(b5, "server"@);
    lemma_doc_get_block(b6, "server"@);
    lemma_doc_get_block(b7, "server"@);
    lemma_doc_get_block(b8, "server"@);
    lemma_doc_get_block(b9, "server"@);
    lemma_doc_get_block(b10, "server"@);
    lemma_doc_get_block(b11, "server"@);
    lemma_doc_get_block(b12, "server"@);
    lemma_doc_get_block(b13, "server"@);
    lemma_doc_get_concat(p12, b13, "server"@);
    lemma_doc_get_concat(p11, b12, "server"@);
    lemma_doc_get_concat(p10, b11, "server"@);
    lemma_doc_get_concat(p9, b10, "server"@);
    lemma_doc_get_concat(p8, b9, "server"@);
    lemma_doc_get_concat(p7, b8, "server"@);
    lemma_doc_get_concat(p6, b7, "server"@);
    lemma_doc_get_concat(p5, b6, "server"@);
    lemma_doc_get_concat(p4, b5, "server"@);
    lemma_doc_get_concat(p3, b4, "server"@);
    lemma_doc_get_concat(p2, b3, "server"@);
    lemma_doc_get_concat(p1, b2, "server"@);
}

/// What lookup of `client_type` finds in the members of a Fight task.
proof fn fight_get_client_type(t: FightTask)
    ensures
        doc_get(fight_pairs(t), "client_type"@) == (match t.client_type { Option::None => Option::<JsonV>::None, Option::Some(s) => Option::Some(JsonV::Sc(ScalarV::Str(s@))) }),
{
    reveal_strlit("enable");
    reveal_strlit("stage");
    reveal_strlit("medicine");
    reveal_strlit("expiring_medicine");
    reveal_strlit("stone");
    reveal_strlit("times");
    reveal_strlit("series");
    reveal_strlit("drops");
    reveal_strlit("report_to_penguin");
    reveal_strlit("penguin_id");
    reveal_strlit("server");
    reveal_strlit("client_type");
    reveal_strlit("dr_grandet");
    assert("client_type"@.len() != "enable"@.len());
    assert("client_type"@ != "enable"@);
    assert("client_type"@.len() != "stage"@.len());
    assert("client_type"@ != "stage"@);
    assert("client_type"@.len() != "medicine"@.len());
    assert("client_type"@ != "medicine"@);
    assert("client_type"@.len() != "expiring_medicine"@.len());
    assert("client_type"@ != "expiring_medicine"@);
    assert("client_type"@.len() != "stone"@.len());
    assert("client_type"@ != "stone"@);
    assert("client_type"@.len() != "times"@.len());
    assert("client_type"@ != "times"@);
    assert("client_type"@.len() != "series"@.len());
    assert("client_type"@ != "series"@);
    assert("client_type"@.len() != "drops"@.len());
    assert("client_type"@ != "drops"@);
    assert("client_type"@.len() != "report_to_penguin"@.len());
    assert("client_type"@ != "report_to_penguin"@);
    assert("client_type"@.len() != "penguin_id"@.len());
    assert("client_type"@ != "penguin_id"@);
    assert("client_type"@.len() != "server"@.len());
    assert("client_type"@ != "server"@);
    assert("client_type"@.len() != "dr_grandet"@.len());
    assert("client_type"@ != "dr_grandet"@);
    let b1 = b_opt_bool("enable"@, t.enable);
    let b2 = b_opt_str("stage"@, opt_str_view(t.stage));
    let b3 = b_opt_int("medicine"@, t.medicine);
    let b4 = b_opt_int("expiring_medicine"@, t.expiring_medicine);
    let b5 = b_opt_int("stone"@, t.stone);
    let b6 = b_opt_int("times"@, t.times);
    let b7 = b_opt_int("series"@, t.series);
    let b8 = b_opt_int_map("drops"@, (match t.drops { Option::None => Option::None, Option::Some(m) => Option::Some(ipairs_view(m@)) }));
    let b9 = b_opt_bool("report_to_penguin"@, t.report_to_penguin);
    let b10 = b_opt_str("penguin_id"@, opt_str_view(t.penguin_id));
    let b11 = b_opt_str("server"@, opt_str_view(t.server));
    let b12 = b_opt_str("client_type"@, opt_str_view(t.client_type));
    let b13 = b_opt_bool("dr_grandet"@, t.dr_grandet);
    let p1 = b1;
    let p2 = p1 + b2;
    let p3 = p2 + b3;
    let p4 = p3 + b4;
    let p5 = p4 + b5;
    let p6 = p5 + b6;
    let p7 = p6 + b7;
    let p8 = p7 + b8;
    let p9 = p8 + b9;
    let p10 = p9 + b10;
    let p11 = p10 + b11;
    let p12 = p11 + b12;
    let p13 = p12 + b13;
    assert(fight_pairs(t) == p13);
    lemma_doc_get_block(b1, "client_type"@);
    lemma_doc_get_block(b2, "client_type"@);
    lemma_doc_get_block(b3, "client_type"@);
    lemma_doc_get_block(b4, "client_type"@);
    lemma_doc_get_block(b5, "client_type"@);
    lemma_doc_get_block(b6, "client_type"@);
    lemma_doc_get_block(b7, "client_type"@);
    lemma_doc_get_block(b8, "client_type"@);
    lemma_doc_get_block(b9, "client_type"@);
    lemma_doc_get_block(b10, "client_type"@);
    lemma_doc_get_block(b11, "client_type"@);
    lemma_doc_get_block(b12, "client_type"@);
    lemma_doc_get_block(b13, "client_type"@);
    lemma_doc_get_concat(p12, b13, "client_type"@);
    lemma_doc_get_concat(p11, b12, "client_type"@);
    lemma_doc_get_concat(p10, b11, "client_type"@);
    lemma_doc_get_concat(p9, b10, "client_type"@);
    lemma_doc_get_concat(p8, b9, "client_type"@);
    lemma_doc_get_concat(p7, b8, "client_type"@);
    lemma_doc_get_concat(p6, b7, "client_type"@);
    lemma_doc_get_concat(p5, b6, "client_type"@);
    lemma_doc_get_concat(p4, b5, "client_type"@);
    lemma_doc_get_concat(p3, b4, "client_type"@);
    lemma_doc_get_concat(p2, b3, "client_type"@);
    lemma_doc_get_concat(p1, b2, "client_type"@);
}

/// What lookup of `dr_grandet` finds in the members of a Fight task.
proof fn fight_get_dr_grandet(t: FightTask)
    ensures
        doc_get(fight_pairs(t), "dr_grandet"@) == (match t.dr_grandet { Option::None => Option::<JsonV>::None, Option::Some(b) => Option::Some(JsonV::Sc(ScalarV::Bool(b))) }),
{
    reveal_strlit("enable");
    reveal_strlit("stage");
    reveal_strlit("medicine");
    reveal_strlit("expiring_medicine");
    reveal_strlit("stone");
    reveal_strlit("times");
    reveal_strlit("series");
    reveal_strlit("drops");
    reveal_strlit("report_to_penguin");
    reveal_strlit("penguin_id");
    reveal_strlit("server");
    reveal_strlit("client_type");
    reveal_strlit("dr_grandet");
    assert("dr_grandet"@.len() != "enable"@.len());
    assert("dr_grandet"@ != "enable"@);
    assert("dr_grandet"@.len() != "stage"@.len());
    assert("dr_grandet"@ != "stage"@);
    assert("dr_grandet"@.len() != "medicine"@.len());
    assert("dr_grandet"@ != "medicine"@);
    assert("dr_grandet"@.len() != "expiring_medicine"@.len());
    assert("dr_grandet"@ != "expiring_medicine"@);
    assert("dr_grandet"@.len() != "stone"@.len());
    assert("dr_grandet"@ != "stone"@);
    assert("dr_grandet"@.len() != "times"@.len());
    assert("dr_grandet"@ != "times"@);
    assert("dr_grandet"@.len() != "series"@.len());
    assert("dr_grandet"@ != "series"@);
    assert("dr_grandet"@.len() != "drops"@.len());
    assert("dr_grandet"@ != "drops"@);
    assert("dr_grandet"@.len() != "report_to_penguin"@.len());
    assert("dr_grandet"@ != "report_to_penguin"@);
    assert("dr_grandet"@[0] != "penguin_id"@[0]);
    assert("dr_grandet"@ != "penguin_id"@);
    assert("dr_grandet"@.len() != "server"@.len());
    assert("dr_grandet"@ != "server"@);
    assert("dr_grandet"@.len() != "client_type"@.len());
    assert("dr_grandet"@ != "client_type"@);
    let b1 = b_opt_bool("enable"@, t.enable);
    let b2 = b_opt_str("stage"@, opt_str_view(t.stage));
    let b3 = b_opt_int("medicine"@, t.medicine);
    let b4 = b_opt_int("expiring_medicine"@, t.expiring_medicine);
    let b5 = b_opt_int("stone"@, t.stone);
    let b6 = b_opt_int("times"@, t.times);
    let b7 = b_opt_int("series"@, t.series);
    let b8 = b_opt_int_map("drops"@, (match t.drops { Option::None => Option::None, Option::Some(m) => Option::Some(ipairs_view(m@)) }));
    let b9 = b_opt_bool("report_to_penguin"@, t.report_to_penguin);
    let b10 = b_opt_str("penguin_id"@, opt_str_view(t.penguin_id));
    let b11 = b_opt_str("server"@, opt_str_view(t.server));
    let b12 = b_opt_str("client_type"@, opt_str_view(t.client_type));
    let b13 = b_opt_bool("dr_grandet"@, t.dr_grandet);
    let p1 = b1;
    let p2 = p1 + b2;
    let p3 = p2 + b3;
    let p4 = p3 + b4;
    let p5 = p4 + b5;
    let p6 = p5 + b6;
    let p7 = p6 + b7;
    let p8 = p7 + b8;
    let p9 = p8 + b9;
    let p10 = p9 + b10;
    let p11 = p10 + b11;
    let p12 = p11 + b12;
    let p13 = p12 + b13;
    assert(fight_pairs(t) == p13);
    lemma_doc_get_block(b1, "dr_grandet"@);
    lemma_doc_get_block(b2, "dr_grandet"@);
    lemma_doc_get_block(b3, "dr_grandet"@);
    lemma_doc_get_block(b4, "dr_grandet"@);
    lemma_doc_get_block(b5, "dr_grandet"@);
    lemma_doc_get_block(b6, "dr_grandet"@);
    lemma_doc_get_block(b7, "dr_grandet"@);
    lemma_doc_get_block(b8, "dr_grandet"@);
    lemma_doc_get_block(b9, "dr_grandet"@);
    lemma_doc_get_block(b10, "dr_grandet"@);
    lemma_doc_get_block(b11, "dr_grandet"@);
    lemma_doc_get_block(b12, "dr_grandet"@);
    lemma_doc_get_block(b13, "dr_grandet"@);
    lemma_doc_get_concat(p12, b13, "dr_grandet"@);
    lemma_doc_get_concat(p11, b12, "dr_grandet"@);
    lemma_doc_get_concat(p10, b11, "dr_grandet"@);
    lemma_doc_get_concat(p9, b10, "dr_grandet"@);
    lemma_doc_get_concat(p8, b9, "dr_grandet"@);
    lemma_doc_get_concat(p7, b8, "dr_grandet"@);
    lemma_doc_get_concat(p6, b7, "dr_grandet"@);
    lemma_doc_get_concat(p5, b6, "dr_grandet"@);
    lemma_doc_get_concat(p4, b5, "dr_grandet"@);
    lemma_doc_get_concat(p3, b4, "dr_grandet"@);
    lemma_doc_get_concat(p2, b3, "dr_grandet"@);
    lemma_doc_get_concat(p1, b2, "dr_grandet"@);
}

/// Writing a well-formed Fight task and reading the text back yields
/// every field unchanged.
pub proof fn lemma_fight_round_trip(t: FightTask)
    requires
        fight_well_formed(t),
    ensures
        text_to_doc(doc_text(fight_pairs(t))) == Option::Some(fight_pairs(t)),
        fight_ok(fight_pairs(t)),
        (match sget_opt_bool(fight_pairs(t), "enable"@) {
            Result::Ok(v) => t.enable == v,
            Result::Err(_) => false,
        }),
        (match sget_opt_str(fight_pairs(t), "stage"@) {
            Result::Ok(v) => opt_str_view(t.stage) == v,
            Result::Err(_) => false,
        }),
        (match sget_opt_int(fight_pairs(t), "medicine"@) {
            Result::Ok(v) => t.medicine == v,
            Result::Err(_) => false,
        }),
        (match sget_opt_int(fight_pairs(t), "expiring_medicine"@) {
            Result::Ok(v) => t.expiring_medicine == v,
            Result::Err(_) => false,
        }),
        (match sget_opt_int(fight_pairs(t), "stone"@) {
            Result::Ok(v) => t.stone == v,
            Result::Err(_) => false,
        }),
        (match sget_opt_int(fight_pairs(t), "times"@) {
            Result::Ok(v) => t.times == v,
            Result::Err(_) => false,
        }),
        (match sget_opt_int(fight_pairs(t), "series"@) {
            Result::Ok(v) => t.series == v,
            Result::Err(_) => false,
        }),
        (match sget_opt_int_map(fight_pairs(t), "drops"@) {
            Result::Ok(v) => v == (match t.drops { Option::None => Option::None, Option::Some(m) => Option::Some(ipairs_view(m@)) }),
            Result::Err(_) => false,
        }),
        (match sget_opt_bool(fight_pairs(t), "report_to_penguin"@) {
            Result::Ok(v) => t.report_to_penguin == v,
            Result::Err(_) => false,
        }),
        (match sget_opt_str(fight_pairs(t), "penguin_id"@) {
            Result::Ok(v) => opt_str_view(t.penguin_id) == v,
            Result::Err(_) => false,
        }),
        (match sget_opt_str(fight_pairs(t), "server"@) {
            Result::Ok(v) => opt_str_view(t.server) == v,
            Result::Err(_) => false,
        }),
        (match sget_opt_str(fight_pairs(t), "client_type"@) {
            Result::Ok(v) => opt_str_view(t.client_type) == v,
            Result::Err(_) => false,
        }),
        (match sget_opt_bool(fight_pairs(t), "dr_grandet"@) {
            Result::Ok(v) => t.dr_grandet == v,
            Result::Err(_) => false,
        }),
{
    let ps = fight_pairs(t);
    fight_get_enable(t);
    fight_get_stage(t);
    fight_get_medicine(t);
    fight_get_expiring_medicine(t);
    fight_get_stone(t);
    fight_get_times(t);
    fight_get_series(t);
    fight_get_drops(t);
    fight_get_report_to_penguin(t);
    fight_get_penguin_id(t);
    fight_get_server(t);
    fight_get_client_type(t);
    fight_get_dr_grandet(t);
    lemma_blocks_valid("enable"@);
    lemma_blocks_valid("stage"@);
    lemma_blocks_valid("medicine"@);
    lemma_blocks_valid("expiring_medicine"@);
    lemma_blocks_valid("stone"@);
    lemma_blocks_valid("times"@);
    lemma_blocks_valid("series"@);
    lemma_blocks_valid("drops"@);
    lemma_blocks_valid("report_to_penguin"@);
    lemma_blocks_valid("penguin_id"@);
    lemma_blocks_valid("server"@);
    lemma_blocks_valid("client_type"@);
    lemma_blocks_valid("dr_grandet"@);
    let b1 = b_opt_bool("enable"@, t.enable);
    let b2 = b_opt_str("stage"@, opt_str_view(t.stage));
    let b3 = b_opt_int("medicine"@, t.medicine);
    let b4 = b_opt_int("expiring_medicine"@, t.expiring_medicine);
    let b5 = b_opt_int("stone"@, t.stone);
    let b6 = b_opt_int("times"@, t.times);
    let b7 = b_opt_int("series"@, t.series);
    let b8 = b_opt_int_map("drops"@, (match t.drops { Option::None => Option::None, Option::Some(m) => Option::Some(ipairs_view(m@)) }));
    let b9 = b_opt_bool("report_to_penguin"@, t.report_to_penguin);
    let b10 = b_opt_str("penguin_id"@, opt_str_view(t.penguin_id));
    let b11 = b_opt_str("server"@, opt_str_view(t.server));
    let b12 = b_opt_str("client_type"@, opt_str_view(t.client_type));
    let b13 = b_opt_bool("dr_grandet"@, t.dr_grandet);
    let p1 = b1;
    let p2 = p1 + b2;
    let p3 = p2 + b3;
    let p4 = p3 + b4;
    let p5 = p4 + b5;
    let p6 = p5 + b6;
    let p7 = p6 + b7;
    let p8 = p7 + b8;
    let p9 = p8 + b9;
    let p10 = p9 + b10;
    let p11 = p10 + b11;
    let p12 = p11 + b12;
    let p13 = p12 + b13;
    assert(doc_valid(p1));
    lemma_doc_valid_concat(p1, b2);
    lemma_doc_valid_concat(p2, b3);
    lemma_doc_valid_concat(p3, b4);
    lemma_doc_valid_concat(p4, b5);
    lemma_doc_valid_concat(p5, b6);
    lemma_doc_valid_concat(p6, b7);
    lemma_doc_valid_concat(p7, b8);
    lemma_doc_valid_concat(p8, b9);
    lemma_doc_valid_concat(p9, b10);
    lemma_doc_valid_concat(p10, b11);
    lemma_doc_valid_concat(p11, b12);
    lemma_doc_valid_concat(p12, b13);
    assert(ps == p13);
    lemma_doc_round_trip(ps);
    if t.drops is Some {
        lemma_imap_of_map(ipairs_view(t.drops->0@));
    }
}

/// Parameters of the Recruit task.
#[derive(Clone, Debug, PartialEq)]
pub struct RecruitTask {
    /// The optional boolean field `enable`.
    pub enable: Option<bool>,
    /// The optional boolean field `refresh`.
    pub refresh: Option<bool>,
    /// The required integer-list field `select`.
    pub select: Vec<i32>,
    /// The required integer-list field `confirm`.
    pub confirm: Vec<i32>,
    /// The optional string-list field `first_tags`.
    pub first_tags: Option<Vec<String>>,
    /// The optional integer field `extra_tags_mode`.
    pub extra_tags_mode: Option<i32>,
    /// The optional integer field `times`.
    pub times: Option<i32>,
    /// The optional boolean field `set_time`.
    pub set_time: Option<bool>,
    /// The optional boolean field `expedite`.
    pub expedite: Option<bool>,
    /// The optional integer field `expedite_times`.
    pub expedite_times: Option<i32>,
    /// The optional boolean field `skip_robot`.
    pub skip_robot: Option<bool>,
    /// The optional integer-map field `recruitment_time`.
    pub recruitment_time: Option<Vec<(String, i32)>>,
    /// The optional boolean field `report_to_penguin`.
    pub report_to_penguin: Option<bool>,
    /// The optional string field `penguin_id`.
    pub penguin_id: Option<String>,
    /// The optional boolean field `report_to_yituliu`.
    pub report_to_yituliu: Option<bool>,
    /// The optional string field `yituliu_id`.
    pub yituliu_id: Option<String>,
    /// The optional string field `server`.
    pub server: Option<String>,
}

/// The document members of a Recruit task, in writing order.
pub open spec fn recruit_pairs(t: RecruitTask) -> Seq<(Seq<char>, JsonV)> {
    b_opt_bool("enable"@, t.enable) + b_opt_bool("refresh"@, t.refresh) + b_int_list("select"@, t.select@) + b_int_list("confirm"@, t.confirm@) + b_opt_str_list("first_tags"@, (match t.first_tags { Option::None => Option::None, Option::Some(l) => Option::Some(strs_view(l@)) })) + b_opt_int("extra_tags_mode"@, t.extra_tags_mode) + b_opt_int("times"@, t.times) + b_opt_bool("set_time"@, t.set_time) + b_opt_bool("expedite"@, t.expedite) + b_opt_int("expedite_times"@, t.expedite_times) + b_opt_bool("skip_robot"@, t.skip_robot) + b_opt_int_map("recruitment_time"@, (match t.recruitment_time { Option::None => Option::None, Option::Some(m) => Option::Some(ipairs_view(m@)) })) + b_opt_bool("report_to_penguin"@, t.report_to_penguin) + b_opt_str("penguin_id"@, opt_str_view(t.penguin_id)) + b_opt_bool("report_to_yituliu"@, t.report_to_yituliu) + b_opt_str("yituliu_id"@, opt_str_view(t.yituliu_id)) + b_opt_str("server"@, opt_str_view(t.server))
}

/// Whether every known key of a parsed document holds the right shape
/// for the Recruit task, with every required key present.
pub open spec fn recruit_ok(pairs: Seq<(Seq<char>, JsonV)>) -> bool {
    sget_opt_bool(pairs, "enable"@) is Ok
    && sget_opt_bool(pairs, "refresh"@) is Ok
    && sget_int_list(pairs, "select"@) is Ok
    && sget_int_list(pairs, "confirm"@) is Ok
    && sget_opt_str_list(pairs, "first_tags"@) is Ok
    && sget_opt_int(pairs, "extra_tags_mode"@) is Ok
    && sget_opt_int(pairs, "times"@) is Ok
    && sget_opt_bool(pairs, "set_time"@) is Ok
    && sget_opt_bool(pairs, "expedite"@) is Ok
    && sget_opt_int(pairs, "expedite_times"@) is Ok
    && sget_opt_bool(pairs, "skip_robot"@) is Ok
    && sget_opt_int_map(pairs, "recruitment_time"@) is Ok
    && sget_opt_bool(pairs, "report_to_penguin"@) is Ok
    && sget_opt_str(pairs, "penguin_id"@) is Ok
    && sget_opt_bool(pairs, "report_to_yituliu"@) is Ok
    && sget_opt_str(pairs, "yituliu_id"@) is Ok
    && sget_opt_str(pairs, "server"@) is Ok
}

/// The first field error met reading a parsed document as a Recruit task.
pub open spec fn recruit_first_err(pairs: Seq<(Seq<char>, JsonV)>) -> TaskError {
    match sget_opt_bool(pairs, "enable"@) {
        Result::Err(e) => e,
        Result::Ok(_) => match sget_opt_bool(pairs, "refresh"@) {
        Result::Err(e) => e,
        Result::Ok(_) => match sget_int_list(pairs, "select"@) {
        Result::Err(e) => e,
        Result::Ok(_) => match sget_int_list(pairs, "confirm"@) {
        Result::Err(e) => e,
        Result::Ok(_) => match sget_opt_str_list(pairs, "first_tags"@) {
        Result::Err(e) => e,
        Result::Ok(_) => match sget_opt_int(pairs, "extra_tags_mode"@) {
        Result::Err(e) => e,
        Result::Ok(_) => match sget_opt_int(pairs, "times"@) {
        Result::Err(e) => e,
        Result::Ok(_) => match sget_opt_bool(pairs, "set_time"@) {
        Result::Err(e) => e,
        Result::Ok(_) => match sget_opt_bool(pairs, "expedite"@) {
        Result::Err(e) => e,
        Result::Ok(_) => match sget_opt_int(pairs, "expedite_times"@) {
        Result::Err(e) => e,
        Result::Ok(_) => match sget_opt_bool(pairs, "skip_robot"@) {
        Result::Err(e) => e,
        Result::Ok(_) => match sget_opt_int_map(pairs, "recruitment_time"@) {
        Result::Err(e) => e,
        Result::Ok(_) => match sget_opt_bool(pairs, "report_to_penguin"@) {
        Result::Err(e) => e,
        Result::Ok(_) => match sget_opt_str(pairs, "penguin_id"@) {
        Result::Err(e) => e,
        Result::Ok(_) => match sget_opt_bool(pairs, "report_to_yituliu"@) {
        Result::Err(e) => e,
        Result::Ok(_) => match sget_opt_str(pairs, "yituliu_id"@) {
        Result::Err(e) => e,
        Result::Ok(_) => match sget_opt_str(pairs, "server"@) {
        Result::Err(e) => e,
        Result::Ok(_) => TaskError::WrongType,
    },
    },
    },
    },
    },
    },
    },
    },
    },
    },
    },
    },
    },
    },
    },
    },
    }
}

impl RecruitTask {
    /// The stable type tag the engine knows the task by.
    pub fn task_type(&self) -> (r: &'static str)
        ensures
            r@ == "Recruit"@,
    {
        "Recruit"
    }

    /// The stable human-readable name of the task kind.
    pub fn task_name(&self) -> (r: &'static str)
        ensures
            r@ == "公开招募"@,
    {
        "公开招募"
    }

    /// The canonical JSON parameter string: present fields only, in
    /// declaration order.
    pub fn to_json(&self) -> (r: String)
        ensures
            r@ == doc_text(recruit_pairs(*self)),
    {
        let mut out: Vec<(String, Json)> = Vec::new();
        proof {
            assert(doc_view(out@) =~= Seq::<(Seq<char>, JsonV)>::empty());
        }
        push_opt_bool(&mut out, "enable", &self.enable);
        push_opt_bool(&mut out, "refresh", &self.refresh);
        push_int_list(&mut out, "select", &self.select);
        push_int_list(&mut out, "confirm", &self.confirm);
        push_opt_str_list(&mut out, "first_tags", &self.first_tags);
        push_opt_int(&mut out, "extra_tags_mode", &self.extra_tags_mode);
        push_opt_int(&mut out, "times", &self.times);
        push_opt_bool(&mut out, "set_time", &self.set_time);
        push_opt_bool(&mut out, "expedite", &self.expedite);
        push_opt_int(&mut out, "expedite_times", &self.expedite_times);
        push_opt_bool(&mut out, "skip_robot", &self.skip_robot);
        push_opt_int_map(&mut out, "recruitment_time", &self.recruitment_time);
        push_opt_bool(&mut out, "report_to_penguin", &self.report_to_penguin);
        push_opt_str(&mut out, "penguin_id", &self.penguin_id);
        push_opt_bool(&mut out, "report_to_yituliu", &self.report_to_yituliu);
        push_opt_str(&mut out, "yituliu_id", &self.yituliu_id);
        push_opt_str(&mut out, "server", &self.server);
        proof {
            assert(doc_view(out@) =~= recruit_pairs(*self));
        }
        write_doc(&out)
    }

    /// Read a task back from a canonical JSON parameter string.
    pub fn from_json(s: &str) -> (r: Result<RecruitTask, TaskError>)
        ensures
            match text_to_doc(s@) {
                Option::None => r == Result::<RecruitTask, TaskError>::Err(TaskError::NotCanonical),
                Option::Some(pairs) => if recruit_ok(pairs) {
                    &&& r is Ok
                    &&& (match (r, sget_opt_bool(pairs, "enable"@)) {
                        (Result::Ok(t), Result::Ok(v)) => t.enable == v,
                        _ => false,
                    })
                    &&& (match (r, sget_opt_bool(pairs, "refresh"@)) {
                        (Result::Ok(t), Result::Ok(v)) => t.refresh == v,
                        _ => false,
                    })
                    &&& (match (r, sget_int_list(pairs, "select"@)) {
                        (Result::Ok(t), Result::Ok(v)) => t.select@ == v,
                        _ => false,
                    })
                    &&& (match (r, sget_int_list(pairs, "confirm"@)) {
                        (Result::Ok(t), Result::Ok(v)) => t.confirm@ == v,
                        _ => false,
                    })
                    &&& (match (r, sget_opt_str_list(pairs, "first_tags"@)) {
                        (Result::Ok(t), Result::Ok(v)) => v == (match t.first_tags { Option::None => Option::None, Option::Some(l) => Option::Some(strs_view(l@)) }),
                        _ => false,
                    })
                    &&& (match (r, sget_opt_int(pairs, "extra_tags_mode"@)) {
                        (Result::Ok(t), Result::Ok(v)) => t.extra_tags_mode == v,
                        _ => false,
                    })
                    &&& (match (r, sget_opt_int(pairs, "times"@)) {
                        (Result::Ok(t), Result::Ok(v)) => t.times == v,
                        _ => false,
                    })
                    &&& (match (r, sget_opt_bool(pairs, "set_time"@)) {
                        (Result::Ok(t), Result::Ok(v)) => t.set_time == v,
                        _ => false,
                    })
                    &&& (match (r, sget_opt_bool(pairs, "expedite"@)) {
                        (Result::Ok(t), Result::Ok(v)) => t.expedite == v,
                        _ => false,
                    })
                    &&& (match (r, sget_opt_int(pairs, "expedite_times"@)) {
                        (Result::Ok(t), Result::Ok(v)) => t.expedite_times == v,
                        _ => false,
                    })
                    &&& (match (r, sget_opt_bool(pairs, "skip_robot"@)) {
                        (Result::Ok(t), Result::Ok(v)) => t.skip_robot == v,
                        _ => false,
                    })
                    &&& (match (r, sget_opt_int_map(pairs, "recruitment_time"@)) {
                        (Result::Ok(t), Result::Ok(v)) => v == (match t.recruitment_time { Option::None => Option::None, Option::Some(m) => Option::Some(ipairs_view(m@)) }),
                        _ => false,
                    })
                    &&& (match (r, sget_opt_bool(pairs, "report_to_penguin"@)) {
                        (Result::Ok(t), Result::Ok(v)) => t.report_to_penguin == v,
                        _ => false,
                    })
                    &&& (match (r, sget_opt_str(pairs, "penguin_id"@)) {
                        (Result::Ok(t), Result::Ok(v)) => opt_str_view(t.penguin_id) == v,
                        _ => false,
                    })
                    &&& (match (r, sget_opt_bool(pairs, "report_to_yituliu"@)) {
                        (Result::Ok(t), Result::Ok(v)) => t.report_to_yituliu == v,
                        _ => false,
                    })
                    &&& (match (r, sget_opt_str(pairs, "yituliu_id"@)) {
                        (Result::Ok(t), Result::Ok(v)) => opt_str_view(t.yituliu_id) == v,
                        _ => false,
                    })
                    &&& (match (r, sget_opt_str(pairs, "server"@)) {
                        (Result::Ok(t), Result::Ok(v)) => opt_str_view(t.server) == v,
                        _ => false,
                    })
                } else {
                    r == Result::<RecruitTask, TaskError>::Err(recruit_first_err(pairs))
                },
            },
    {
        let pairs = match parse_doc(s) {
            Option::Some(p) => p,
            Option::None => {
                return Result::Err(TaskError::NotCanonical);
            },
        };
        let enable = match get_opt_bool(&pairs, "enable") {
            Result::Ok(v) => v,
            Result::Err(e) => {
                return Result::Err(e);
            },
        };
        let refresh = match get_opt_bool(&pairs, "refresh") {
            Result::Ok(v) => v,
            Result::Err(e) => {
                return Result::Err(e);
            },
        };
        let select = match get_int_list(&pairs, "select") {
            Result::Ok(v) => v,
            Result::Err(e) => {
                return Result::Err(e);
            },
        };
        let confirm = match get_int_list(&pairs, "confirm") {
            Result::Ok(v) => v,
            Result::Err(e) => {
                return Result::Err(e);
            },
        };
        let first_tags = match get_opt_str_list(&pairs, "first_tags") {
            Result::Ok(v) => v,
            Result::Err(e) => {
                return Result::Err(e);
            },
        };
        let extra_tags_mode = match get_opt_int(&pairs, "extra_tags_mode") {
            Result::Ok(v) => v,
            Result::Err(e) => {
                return Result::Err(e);
            },
        };
        let times = match get_opt_int(&pairs, "times") {
            Result::Ok(v) => v,
            Result::Err(e) => {
                return Result::Err(e);
            },
        };
        let set_time = match get_opt_bool(&pairs, "set_time") {
            Result::Ok(v) => v,
            Result::Err(e) => {
                return Result::Err(e);
            },
        };
        let expedite = match get_opt_bool(&pairs, "expedite") {
            Result::Ok(v) => v,
            Result::Err(e) => {
                return Result::Err(e);
            },
        };
        let expedite_times = match get_opt_int(&pairs, "expedite_times") {
            Result::Ok(v) => v,
            Result::Err(e) => {
                return Result::Err(e);
            },
        };
        let skip_robot = match get_opt_bool(&pairs, "skip_robot") {
            Result::Ok(v) => v,
            Result::Err(e) => {
                return Result::Err(e);
            },
        };
        let recruitment_time = match get_opt_int_map(&pairs, "recruitment_time") {
            Result::Ok(v) => v,
            Result::Err(e) => {
                return Result::Err(e);
            },
        };
        let report_to_penguin = match get_opt_bool(&pairs, "report_to_penguin") {
            Result::Ok(v) => v,
            Result::Err(e) => {
                return Result::Err(e);
            },
        };
        let penguin_id = match get_opt_str(&pairs, "penguin_id") {
            Result::Ok(v) => v,
            Result::Err(e) => {
                return Result::Err(e);
            },
        };
        let report_to_yituliu = match get_opt_bool(&pairs, "report_to_yituliu") {
            Result::Ok(v) => v,
            Result::Err(e) => {
                return Result::Err(e);
            },
        };
        let yituliu_id = match get_opt_str(&pairs, "yituliu_id") {
            Result::Ok(v) => v,
            Result::Err(e) => {
                return Result::Err(e);
            },
        };
        let server = match get_opt_str(&pairs, "server") {
            Result::Ok(v) => v,
            Result::Err(e) => {
                return Result::Err(e);
            },
        };
        Result::Ok(RecruitTask { enable, refresh, select, confirm, first_tags, extra_tags_mode, times, set_time, expedite, expedite_times, skip_robot, recruitment_time, report_to_penguin, penguin_id, report_to_yituliu, yituliu_id, server })
    }

    /// A builder with no field set.
    pub fn builder() -> (r: RecruitTaskBuilder)
        ensures
            r.enable is None,
            r.refresh is None,
            r.select is None,
            r.confirm is None,
            r.first_tags is None,
            r.extra_tags_mode is None,
            r.times is None,
            r.set_time is None,
            r.expedite is None,
            r.expedite_times is None,
            r.skip_robot is None,
            r.recruitment_time is None,
            r.report_to_penguin is None,
            r.penguin_id is None,
            r.report_to_yituliu is None,
            r.yituliu_id is None,
            r.server is None,
    {
        RecruitTaskBuilder { enable: Option::None, refresh: Option::None, select: Option::None, confirm: Option::None, first_tags: Option::None, extra_tags_mode: Option::None, times: Option::None, set_time: Option::None, expedite: Option::None, expedite_times: Option::None, skip_robot: Option::None, recruitment_time: Option::None, report_to_penguin: Option::None, penguin_id: Option::None, report_to_yituliu: Option::None, yituliu_id: Option::None, server: Option::None }
    }
}

/// Step-by-step construction of a Recruit task.
pub struct RecruitTaskBuilder {
    /// The optional boolean field `enable`, once set.
    pub enable: Option<bool>,
    /// The optional boolean field `refresh`, once set.
    pub refresh: Option<bool>,
    /// The required integer-list field `select`, once set.
    pub select: Option<Vec<i32>>,
    /// The required integer-list field `confirm`, once set.
    pub confirm: Option<Vec<i32>>,
    /// The optional string-list field `first_tags`, once set.
    pub first_tags: Option<Vec<String>>,
    /// The optional integer field `extra_tags_mode`, once set.
    pub extra_tags_mode: Option<i32>,
    /// The optional integer field `times`, once set.
    pub times: Option<i32>,
    /// The optional boolean field `set_time`, once set.
    pub set_time: Option<bool>,
    /// The optional boolean field `expedite`, once set.
    pub expedite: Option<bool>,
    /// The optional integer field `expedite_times`, once set.
    pub expedite_times: Option<i32>,
    /// The optional boolean field `skip_robot`, once set.
    pub skip_robot: Option<bool>,
    /// The optional integer-map field `recruitment_time`, once set.
    pub recruitment_time: Option<Vec<(String, i32)>>,
    /// The optional boolean field `report_to_penguin`, once set.
    pub report_to_penguin: Option<bool>,
    /// The optional string field `penguin_id`, once set.
    pub penguin_id: Option<String>,
    /// The optional boolean field `report_to_yituliu`, once set.
    pub report_to_yituliu: Option<bool>,
    /// The optional string field `yituliu_id`, once set.
    pub yituliu_id: Option<String>,
    /// The optional string field `server`, once set.
    pub server: Option<String>,
}

impl RecruitTaskBuilder {
    /// Set the optional boolean field `enable`.
    pub fn enable(self, enable: bool) -> (r: Self)
        ensures
            r.enable == Option::Some(enable),
            r.refresh == self.refresh,
            r.select == self.select,
            r.confirm == self.confirm,
            r.first_tags == self.first_tags,
            r.extra_tags_mode == self.extra_tags_mode,
            r.times == self.times,
            r.set_time == self.set_time,
            r.expedite == self.expedite,
            r.expedite_times == self.expedite_times,
            r.skip_robot == self.skip_robot,
            r.recruitment_time == self.recruitment_time,
            r.report_to_penguin == self.report_to_penguin,
            r.penguin_id == self.penguin_id,
            r.report_to_yituliu == self.report_to_yituliu,
            r.yituliu_id == self.yituliu_id,
            r.server == self.server,
    {
        let mut this = self;
        this.enable = Option::Some(enable);
        this
    }

    /// Set the optional boolean field `refresh`.
    pub fn refresh(self, refresh: bool) -> (r: Self)
        ensures
            r.refresh == Option::Some(refresh),
            r.enable == self.enable,
            r.select == self.select,
            r.confirm == self.confirm,
            r.first_tags == self.first_tags,
            r.extra_tags_mode == self.extra_tags_mode,
            r.times == self.times,
            r.set_time == self.set_time,
            r.expedite == self.expedite,
            r.expedite_times == self.expedite_times,
            r.skip_robot == self.skip_robot,
            r.recruitment_time == self.recruitment_time,
            r.report_to_penguin == self.report_to_penguin,
            r.penguin_id == self.penguin_id,
            r.report_to_yituliu == self.report_to_yituliu,
            r.yituliu_id == self.yituliu_id,
            r.server == self.server,
    {
        let mut this = self;
        this.refresh = Option::Some(refresh);
        this
    }

    /// Set the required integer-list field `select`.
    pub fn select(self, select: Vec<i32>) -> (r: Self)
        ensures
            r.select == Option::Some(select),
            r.enable == self.enable,
            r.refresh == self.refresh,
            r.confirm == self.confirm,
            r.first_tags == self.first_tags,
            r.extra_tags_mode == self.extra_tags_mode,
            r.times == self.times,
            r.set_time == self.set_time,
            r.expedite == self.expedite,
            r.expedite_times == self.expedite_times,
            r.skip_robot == self.skip_robot,
            r.recruitment_time == self.recruitment_time,
            r.report_to_penguin == self.report_to_penguin,
            r.penguin_id == self.penguin_id,
            r.report_to_yituliu == self.report_to_yituliu,
            r.yituliu_id == self.yituliu_id,
            r.server == self.server,
    {
        let mut this = self;
        this.select = Option::Some(select);
        this
    }

    /// Set the required integer-list field `confirm`.
    pub fn confirm(self, confirm: Vec<i32>) -> (r: Self)
        ensures
            r.confirm == Option::Some(confirm),
            r.enable == self.enable,
            r.refresh == self.refresh,
            r.select == self.select,
            r.first_tags == self.first_tags,
            r.extra_tags_mode == self.extra_tags_mode,
            r.times == self.times,
            r.set_time == self.set_time,
            r.expedite == self.expedite,
            r.expedite_times == self.expedite_times,
            r.skip_robot == self.skip_robot,
            r.recruitment_time == self.recruitment_time,
            r.report_to_penguin == self.report_to_penguin,
            r.penguin_id == self.penguin_id,
            r.report_to_yituliu == self.report_to_yituliu,
            r.yituliu_id == self.yituliu_id,
            r.server == self.server,
    {
        let mut this = self;
        this.confirm = Option::Some(confirm);
        this
    }

    /// Set the optional string-list field `first_tags`.
    pub fn first_tags(self, first_tags: Vec<String>) -> (r: Self)
        ensures
            r.first_tags == Option::Some(first_tags),
            r.enable == self.enable,
            r.refresh == self.refresh,
            r.select == self.select,
            r.confirm == self.confirm,
            r.extra_tags_mode == self.extra_tags_mode,
            r.times == self.times,
            r.set_time == self.set_time,
            r.expedite == self.expedite,
            r.expedite_times == self.expedite_times,
            r.skip_robot == self.skip_robot,
            r.recruitment_time == self.recruitment_time,
            r.report_to_penguin == self.report_to_penguin,
            r.penguin_id == self.penguin_id,
            r.report_to_yituliu == self.report_to_yituliu,
            r.yituliu_id == self.yituliu_id,
            r.server == self.server,
    {
        let mut this = self;
        this.first_tags = Option::Some(first_tags);
        this
    }

    /// Set the optional integer field `extra_tags_mode`.
    pub fn extra_tags_mode(self, extra_tags_mode: i32) -> (r: Self)
        ensures
            r.extra_tags_mode == Option::Some(extra_tags_mode),
            r.enable == self.enable,
            r.refresh == self.refresh,
            r.select == self.select,
            r.confirm == self.confirm,
            r.first_tags == self.first_tags,
            r.times == self.times,
            r.set_time == self.set_time,
            r.expedite == self.expedite,
            r.expedite_times == self.expedite_times,
            r.skip_robot == self.skip_robot,
            r.recruitment_time == self.recruitment_time,
            r.report_to_penguin == self.report_to_penguin,
            r.penguin_id == self.penguin_id,
            r.report_to_yituliu == self.report_to_yituliu,
            r.yituliu_id == self.yituliu_id,
            r.server == self.server,
    {
        let mut this = self;
        this.extra_tags_mode = Option::Some(extra_tags_mode);
        this
    }

    /// Set the optional integer field `times`.
    pub fn times(self, times: i32) -> (r: Self)
        ensures
            r.times == Option::Some(times),
            r.enable == self.enable,
            r.refresh == self.refresh,
            r.select == self.select,
            r.confirm == self.confirm,
            r.first_tags == self.first_tags,
            r.extra_tags_mode == self.extra_tags_mode,
            r.set_time == self.set_time,
            r.expedite == self.expedite,
            r.expedite_times == self.expedite_times,
            r.skip_robot == self.skip_robot,
            r.recruitment_time == self.recruitment_time,
            r.report_to_penguin == self.report_to_penguin,
            r.penguin_id == self.penguin_id,
            r.report_to_yituliu == self.report_to_yituliu,
            r.yituliu_id == self.yituliu_id,
            r.server == self.server,
    {
        let mut this = self;
        this.times = Option::Some(times);
        this
    }

    /// Set the optional boolean field `set_time`.
    pub fn set_time(self, set_time: bool) -> (r: Self)
        ensures
            r.set_time == Option::Some(set_time),
            r.enable == self.enable,
            r.refresh == self.refresh,
            r.select == self.select,
            r.confirm == self.confirm,
            r.first_tags == self.first_tags,
            r.extra_tags_mode == self.extra_tags_mode,
            r.times == self.times,
            r.expedite == self.expedite,
            r.expedite_times == self.expedite_times,
            r.skip_robot == self.skip_robot,
            r.recruitment_time == self.recruitment_time,
            r.report_to_penguin == self.report_to_penguin,
            r.penguin_id == self.penguin_id,
            r.report_to_yituliu == self.report_to_yituliu,
            r.yituliu_id == self.yituliu_id,
            r.server == self.server,
    {
        let mut this = self;
        this.set_time = Option::Some(set_time);
        this
    }

    /// Set the optional boolean field `expedite`.
    pub fn expedite(self, expedite: bool) -> (r: Self)
        ensures
            r.expedite == Option::Some(expedite),
            r.enable == self.enable,
            r.refresh == self.refresh,
            r.select == self.select,
            r.confirm == self.confirm,
            r.first_tags == self.first_tags,
            r.extra_tags_mode == self.extra_tags_mode,
            r.times == self.times,
            r.set_time == self.set_time,
            r.expedite_times == self.expedite_times,
            r.skip_robot == self.skip_robot,
            r.recruitment_time == self.recruitment_time,
            r.report_to_penguin == self.report_to_penguin,
            r.penguin_id == self.penguin_id,
            r.report_to_yituliu == self.report_to_yituliu,
            r.yituliu_id == self.yituliu_id,
            r.server == self.server,
    {
        let mut this = self;
        this.expedite = Option::Some(expedite);
        this
    }

    /// Set the optional integer field `expedite_times`.
    pub fn expedite_times(self, expedite_times: i32) -> (r: Self)
        ensures
            r.expedite_times == Option::Some(expedite_times),
            r.enable == self.enable,
            r.refresh == self.refresh,
            r.select == self.select,
            r.confirm == self.confirm,
            r.first_tags == self.first_tags,
            r.extra_tags_mode == self.extra_tags_mode,
            r.times == self.times,
            r.set_time == self.set_time,
            r.expedite == self.expedite,
            r.skip_robot == self.skip_robot,
            r.recruitment_time == self.recruitment_time,
            r.report_to_penguin == self.report_to_penguin,
            r.penguin_id == self.penguin_id,
            r.report_to_yituliu == self.report_to_yituliu,
            r.yituliu_id == self.yituliu_id,
            r.server == self.server,
    {
        let mut this = self;
        this.expedite_times = Option::Some(expedite_times);
        this
    }

    /// Set the optional boolean field `skip_robot`.
    pub fn skip_robot(self, skip_robot: bool) -> (r: Self)
        ensures
            r.skip_robot == Option::Some(skip_robot),
            r.enable == self.enable,
            r.refresh == self.refresh,
            r.select == self.select,
            r.confirm == self.confirm,
            r.first_tags == self.first_tags,
            r.extra_tags_mode == self.extra_tags_mode,
            r.times == self.times,
            r.set_time == self.set_time,
            r.expedite == self.expedite,
            r.expedite_times == self.expedite_times,
            r.recruitment_time == self.recruitment_time,
            r.report_to_penguin == self.report_to_penguin,
            r.penguin_id == self.penguin_id,
            r.report_to_yituliu == self.report_to_yituliu,
            r.yituliu_id == self.yituliu_id,
            r.server == self.server,
    {
        let mut this = self;
        this.skip_robot = Option::Some(skip_robot);
        this
    }

    /// Set the optional integer-map field `recruitment_time`.
    pub fn recruitment_time(self, recruitment_time: Vec<(String, i32)>) -> (r: Self)
        ensures
            r.recruitment_time == Option::Some(recruitment_time),
            r.enable == self.enable,
            r.refresh == self.refresh,
            r.select == self.select,
            r.confirm == self.confirm,
            r.first_tags == self.first_tags,
            r.extra_tags_mode == self.extra_tags_mode,
            r.times == self.times,
            r.set_time == self.set_time,
            r.expedite == self.expedite,
            r.expedite_times == self.expedite_times,
            r.skip_robot == self.skip_robot,
            r.report_to_penguin == self.report_to_penguin,
            r.penguin_id == self.penguin_id,
            r.report_to_yituliu == self.report_to_yituliu,
            r.yituliu_id == self.yituliu_id,
            r.server == self.server,
    {
        let mut this = self;
        this.recruitment_time = Option::Some(recruitment_time);
        this
    }

    /// Set the optional boolean field `report_to_penguin`.
    pub fn report_to_penguin(self, report_to_penguin: bool) -> (r: Self)
        ensures
            r.report_to_penguin == Option::Some(report_to_penguin),
            r.enable == self.enable,
            r.refresh == self.refresh,
            r.select == self.select,
            r.confirm == self.confirm,
            r.first_tags == self.first_tags,
            r.extra_tags_mode == self.extra_tags_mode,
            r.times == self.times,
            r.set_time == self.set_time,
            r.expedite == self.expedite,
            r.expedite_times == self.expedite_times,
            r.skip_robot == self.skip_robot,
            r.recruitment_time == self.recruitment_time,
            r.penguin_id == self.penguin_id,
            r.report_to_yituliu == self.report_to_yituliu,
            r.yituliu_id == self.yituliu_id,
            r.server == self.server,
    {
        let mut this = self;
        this.report_to_penguin = Option::Some(report_to_penguin);
        this
    }

    /// Set the optional string field `penguin_id`.
    pub fn penguin_id(self, penguin_id: &str) -> (r: Self)
        ensures
            (r.penguin_id matches Option::Some(s) && s@ == penguin_id@),
            r.enable == self.enable,
            r.refresh == self.refresh,
            r.select == self.select,
            r.confirm == self.confirm,
            r.first_tags == self.first_tags,
            r.extra_tags_mode == self.extra_tags_mode,
            r.times == self.times,
            r.set_time == self.set_time,
            r.expedite == self.expedite,
            r.expedite_times == self.expedite_times,
            r.skip_robot == self.skip_robot,
            r.recruitment_time == self.recruitment_time,
            r.report_to_penguin == self.report_to_penguin,
            r.report_to_yituliu == self.report_to_yituliu,
            r.yituliu_id == self.yituliu_id,
            r.server == self.server,
    {
        let mut this = self;
        this.penguin_id = Option::Some(penguin_id.to_owned());
        this
    }

    /// Set the optional boolean field `report_to_yituliu`.
    pub fn report_to_yituliu(self, report_to_yituliu: bool) -> (r: Self)
        ensures
            r.report_to_yituliu == Option::Some(report_to_yituliu),
            r.enable == self.enable,
            r.refresh == self.refresh,
            r.select == self.select,
            r.confirm == self.confirm,
            r.first_tags == self.first_tags,
            r.extra_tags_mode == self.extra_tags_mode,
            r.times == self.times,
            r.set_time == self.set_time,
            r.expedite == self.expedite,
            r.expedite_times == self.expedite_times,
            r.skip_robot == self.skip_robot,
            r.recruitment_time == self.recruitment_time,
            r.report_to_penguin == self.report_to_penguin,
            r.penguin_id == self.penguin_id,
            r.yituliu_id == self.yituliu_id,
            r.server == self.server,
    {
        let mut this = self;
        this.report_to_yituliu = Option::Some(report_to_yituliu);
        this
    }

    /// Set the optional string field `yituliu_id`.
    pub fn yituliu_id(self, yituliu_id: &str) -> (r: Self)
        ensures
            (r.yituliu_id matches Option::Some(s) && s@ == yituliu_id@),
            r.enable == self.enable,
            r.refresh == self.refresh,
            r.select == self.select,
            r.confirm == self.confirm,
            r.first_tags == self.first_tags,
            r.extra_tags_mode == self.extra_tags_mode,
            r.times == self.times,
            r.set_time == self.set_time,
            r.expedite == self.expedite,
            r.expedite_times == self.expedite_times,
            r.skip_robot == self.skip_robot,
            r.recruitment_time == self.recruitment_time,
            r.report_to_penguin == self.report_to_penguin,
            r.penguin_id == self.penguin_id,
            r.report_to_yituliu == self.report_to_yituliu,
            r.server == self.server,
    {
        let mut this = self;
        this.yituliu_id = Option::Some(yituliu_id.to_owned());
        this
    }

    /// Set the optional string field `server`.
    pub fn server(self, server: &str) -> (r: Self)
        ensures
            (r.server matches Option::Some(s) && s@ == server@),
            r.enable == self.enable,
            r.refresh == self.refresh,
            r.select == self.select,
            r.confirm == self.confirm,
            r.first_tags == self.first_tags,
            r.extra_tags_mode == self.extra_tags_mode,
            r.times == self.times,
            r.set_time == self.set_time,
            r.expedite == self.expedite,
            r.expedite_times == self.expedite_times,
            r.skip_robot == self.skip_robot,
            r.recruitment_time == self.recruitment_time,
            r.report_to_penguin == self.report_to_penguin,
            r.penguin_id == self.penguin_id,
            r.report_to_yituliu == self.report_to_yituliu,
            r.yituliu_id == self.yituliu_id,
    {
        let mut this = self;
        this.server = Option::Some(server.to_owned());
        this
    }

    /// The finished task; refused while a required field is missing.
    pub fn build(self) -> (r: Result<RecruitTask, TaskError>)
        ensures
            if self.select is Some && self.confirm is Some {
                &&& r is Ok
                &&& (match r { Result::Ok(t) => t.enable == self.enable, _ => false })
                &&& (match r { Result::Ok(t) => t.refresh == self.refresh, _ => false })
                &&& (match r { Result::Ok(t) => Option::Some(t.select) == self.select, _ => false })
                &&& (match r { Result::Ok(t) => Option::Some(t.confirm) == self.confirm, _ => false })
                &&& (match r { Result::Ok(t) => t.first_tags == self.first_tags, _ => false })
                &&& (match r { Result::Ok(t) => t.extra_tags_mode == self.extra_tags_mode, _ => false })
                &&& (match r { Result::Ok(t) => t.times == self.times, _ => false })
                &&& (match r { Result::Ok(t) => t.set_time == self.set_time, _ => false })
                &&& (match r { Result::Ok(t) => t.expedite == self.expedite, _ => false })
                &&& (match r { Result::Ok(t) => t.expedite_times == self.expedite_times, _ => false })
                &&& (match r { Result::Ok(t) => t.skip_robot == self.skip_robot, _ => false })
                &&& (match r { Result::Ok(t) => t.recruitment_time == self.recruitment_time, _ => false })
                &&& (match r { Result::Ok(t) => t.report_to_penguin == self.report_to_penguin, _ => false })
                &&& (match r { Result::Ok(t) => t.penguin_id == self.penguin_id, _ => false })
                &&& (match r { Result::Ok(t) => t.report_to_yituliu == self.report_to_yituliu, _ => false })
                &&& (match r { Result::Ok(t) => t.yituliu_id == self.yituliu_id, _ => false })
                &&& (match r { Result::Ok(t) => t.server == self.server, _ => false })
            } else {
                r == Result::<RecruitTask, TaskError>::Err(TaskError::MissingField)
            },
    {
        let select = match self.select {
            Option::Some(v) => v,
            Option::None => {
                return Result::Err(TaskError::MissingField);
            },
        };
        let confirm = match self.confirm {
            Option::Some(v) => v,
            Option::None => {
                return Result::Err(TaskError::MissingField);
            },
        };
        Result::Ok(RecruitTask { enable: self.enable, refresh: self.refresh, select, confirm, first_tags: self.first_tags, extra_tags_mode: self.extra_tags_mode, times: self.times, set_time: self.set_time, expedite: self.expedite, expedite_times: self.expedite_times, skip_robot: self.skip_robot, recruitment_time: self.recruitment_time, report_to_penguin: self.report_to_penguin, penguin_id: self.penguin_id, report_to_yituliu: self.report_to_yituliu, yituliu_id: self.yituliu_id, server: self.server })
    }
}

/// What lookup of `enable` finds in the members of a Recruit task.
proof fn recruit_get_enable(t: RecruitTask)
    ensures
        doc_get(recruit_pairs(t), "enable"@) == (match t.enable { Option::None => Option::<JsonV>::None, Option::Some(b) => Option::Some(JsonV::Sc(ScalarV::Bool(b))) }),
{
    reveal_strlit("enable");
    reveal_strlit("refresh");
    reveal_strlit("select");
    reveal_strlit("confirm");
    reveal_strlit("first_tags");
    reveal_strlit("extra_tags_mode");
    reveal_strlit("times");
    reveal_strlit("set_time");
    reveal_strlit("expedite");
    reveal_strlit("expedite_times");
    reveal_strlit("skip_robot");
    reveal_strlit("recruitment_time");
    reveal_strlit("report_to_penguin");
    reveal_strlit("penguin_id");
    reveal_strlit("report_to_yituliu");
    reveal_strlit("yituliu_id");
    reveal_strlit("server");
    assert("enable"@.len() != "refresh"@.len());
    assert("enable"@ != "refresh"@);
    assert("enable"@[0] != "select"@[0]);
    assert("enable"@ != "select"@);
    assert("enable"@.len() != "confirm"@.len());
    assert("enable"@ != "confirm"@);
    assert("enable"@.len() != "first_tags"@.len());
    assert("enable"@ != "first_tags"@);
    assert("enable"@.len() != "extra_tags_mode"@.len());
    assert("enable"@ != "extra_tags_mode"@);
    assert("enable"@.len() != "times"@.len());
    assert("enable"@ != "times"@);
    assert("enable"@.len() != "set_time"@.len());
    assert("enable"@ != "set_time"@);
    assert("enable"@.len() != "expedite"@.len());
    assert("enable"@ != "expedite"@);
    assert("enable"@.len() != "expedite_times"@.len());
    assert("enable"@ != "expedite_times"@);
    assert("enable"@.len() != "skip_robot"@.len());
    assert("enable"@ != "skip_robot"@);
    assert("enable"@.len() != "recruitment_time"@.len());
    assert("enable"@ != "recruitment_time"@);
    assert("enable"@.len() != "report_to_penguin"@.len());
    assert("enable"@ != "report_to_penguin"@);
    assert("enable"@.len() != "penguin_id"@.len());
    assert("enable"@ != "penguin_id"@);
    assert("enable"@.len() != "report_to_yituliu"@.len());
    assert("enable"@ != "report_to_yituliu"@);
    assert("enable"@.len() != "yituliu_id"@.len());
    assert("enable"@ != "yituliu_id"@);
    assert("enable"@[0] != "server"@[0]);
    assert("enable"@ != "server"@);
    let b1 = b_opt_bool("enable"@, t.enable);
    let b2 = b_opt_bool("refresh"@, t.refresh);
    let b3 = b_int_list("select"@, t.select@);
    let b4 = b_int_list("confirm"@, t.confirm@);
    let b5 = b_opt_str_list("first_tags"@, (match t.first_tags { Option::None => Option::None, Option::Some(l) => Option::Some(strs_view(l@)) }));
    let b6 = b_opt_int("extra_tags_mode"@, t.extra_tags_mode);
    let b7 = b_opt_int("times"@, t.times);
    let b8 = b_opt_bool("set_time"@, t.set_time);
    let b9 = b_opt_bool("expedite"@, t.expedite);
    let b10 = b_opt_int("expedite_times"@, t.expedite_times);
    let b11 = b_opt_bool("skip_robot"@, t.skip_robot);
    let b12 = b_opt_int_map("recruitment_time"@, (match t.recruitment_time { Option::None => Option::None, Option::Some(m) => Option::Some(ipairs_view(m@)) }));
    let b13 = b_opt_bool("report_to_penguin"@, t.report_to_penguin);
    let b14 = b_opt_str("penguin_id"@, opt_str_view(t.penguin_id));
    let b15 = b_opt_bool("report_to_yituliu"@, t.report_to_yituliu);
    let b16 = b_opt_str("yituliu_id"@, opt_str_view(t.yituliu_id));
    let b17 = b_opt_str("server"@, opt_str_view(t.server));
    let p1 = b1;
    let p2 = p1 + b2;
    let p3 = p2 + b3;
    let p4 = p3 + b4;
    let p5 = p4 + b5;
    let p6 = p5 + b6;
    let p7 = p6 + b7;
    let p8 = p7 + b8;
    let p9 = p8 + b9;
    let p10 = p9 + b10;
    let p11 = p10 + b11;
    let p12 = p11 + b12;
    let p13 = p12 + b13;
    let p14 = p13 + b14;
    let p15 = p14 + b15;
    let p16 = p15 + b16;
    let p17 = p16 + b17;
    assert(recruit_pairs(t) == p17);
    lemma_doc_get_block(b1, "enable"@);
    lemma_doc_get_block(b2, "enable"@);
    lemma_doc_get_block(b3, "enable"@);
    lemma_doc_get_block(b4, "enable"@);
    lemma_doc_get_block(b5, "enable"@);
    lemma_doc_get_block(b6, "enable"@);
    lemma_doc_get_block(b7, "enable"@);
    lemma_doc_get_block(b8, "enable"@);
    lemma_doc_get_block(b9, "enable"@);
    lemma_doc_get_block(b10, "enable"@);
    lemma_doc_get_block(b11, "enable"@);
    lemma_doc_get_block(b12, "enable"@);
    lemma_doc_get_block(b13, "enable"@);
    lemma_doc_get_block(b14, "enable"@);
    lemma_doc_get_block(b15, "enable"@);
    lemma_doc_get_block(b16, "enable"@);
    lemma_doc_get_block(b17, "enable"@);
    lemma_doc_get_concat(p16, b17, "enable"@);
    lemma_doc_get_concat(p15, b16, "enable"@);
    lemma_doc_get_concat(p14, b15, "enable"@);
    lemma_doc_get_concat(p13, b14, "enable"@);
    lemma_doc_get_concat(p12, b13, "enable"@);
    lemma_doc_get_concat(p11, b12, "enable"@);
    lemma_doc_get_concat(p10, b11, "enable"@);
    lemma_doc_get_concat(p9, b10, "enable"@);
    lemma_doc_get_concat(p8, b9, "enable"@);
    lemma_doc_get_concat(p7, b8, "enable"@);
    lemma_doc_get_concat(p6, b7, "enable"@);
    lemma_doc_get_concat(p5, b6, "enable"@);
    lemma_doc_get_concat(p4, b5, "enable"@);
    lemma_doc_get_concat(p3, b4, "enable"@);
    lemma_doc_get_concat(p2, b3, "enable"@);
    lemma_doc_get_concat(p1, b2, "enable"@);
}

/// What lookup of `refresh` finds in the members of a Recruit task.
proof fn recruit_get_refresh(t: RecruitTask)
    ensures
        doc_get(recruit_pairs(t), "refresh"@) == (match t.refresh { Option::None => Option::<JsonV>::None, Option::Some(b) => Option::Some(JsonV::Sc(ScalarV::Bool(b))) }),
{
    reveal_strlit("enable");
    reveal_strlit("refresh");
    reveal_strlit("select");
    reveal_strlit("confirm");
    reveal_strlit("first_tags");
    reveal_strlit("extra_tags_mode");
    reveal_strlit("times");
    reveal_strlit("set_time");
    reveal_strlit("expedite");
    reveal_strlit("expedite_times");
    reveal_strlit("skip_robot");
    reveal_strlit("recruitment_time");
    reveal_strlit("report_to_penguin");
    reveal_strlit("penguin_id");
    reveal_strlit("report_to_yituliu");
    reveal_strlit("yituliu_id");
    reveal_strlit("server");
    assert("refresh"@.len() != "enable"@.len());
    assert("refresh"@ != "enable"@);
    assert("refresh"@.len() != "select"@.len());
    assert("refresh"@ != "select"@);
    assert("refresh"@[0] != "confirm"@[0]);
    assert("refresh"@ != "confirm"@);
    assert("refresh"@.len() != "first_tags"@.len());
    assert("refresh"@ != "first_tags"@);
    assert("refresh"@.len() != "extra_tags_mode"@.len());
    assert("refresh"@ != "extra_tags_mode"@);
    assert("refresh"@.len() != "times"@.len());
    assert("refresh"@ != "times"@);
    assert("refresh"@.len() != "set_time"@.len());
    assert("refresh"@ != "set_time"@);
    assert("refresh"@.len() != "expedite"@.len());
    assert("refresh"@ != "expedite"@);
    assert("refresh"@.len() != "expedite_times"@.len());
    assert("refresh"@ != "expedite_times"@);
    assert("refresh"@.len() != "skip_robot"@.len());
    assert("refresh"@ != "skip_robot"@);
    assert("refresh"@.len() != "recruitment_time"@.len());
    assert("refresh"@ != "recruitment_time"@);
    assert("refresh"@.len() != "report_to_penguin"@.len());
    assert("refresh"@ != "report_to_penguin"@);
    assert("refresh"@.len() != "penguin_id"@.len());
    assert("refresh"@ != "penguin_id"@);
    assert("refresh"@.len() != "report_to_yituliu"@.len());
    assert("refresh"@ != "report_to_yituliu"@);
    assert("refresh"@.len() != "yituliu_id"@.len());
    assert("refresh"@ != "yituliu_id"@);
    assert("refresh"@.len() != "server"@.len());
    assert("refresh"@ != "server"@);
    let b1 = b_opt_bool("enable"@, t.enable);
    let b2 = b_opt_bool("refresh"@, t.refresh);
    let b3 = b_int_list("select"@, t.select@);
    let b4 = b_int_list("confirm"@, t.confirm@);
    let b5 = b_opt_str_list("first_tags"@, (match t.first_tags { Option::None => Option::None, Option::Some(l) => Option::Some(strs_view(l@)) }));
    let b6 = b_opt_int("extra_tags_mode"@, t.extra_tags_mode);
    let b7 = b_opt_int("times"@, t.times);
    let b8 = b_opt_bool("set_time"@, t.set_time);
    let b9 = b_opt_bool("expedite"@, t.expedite);
    let b10 = b_opt_int("expedite_times"@, t.expedite_times);
    let b11 = b_opt_bool("skip_robot"@, t.skip_robot);
    let b12 = b_opt_int_map("recruitment_time"@, (match t.recruitment_time { Option::None => Option::None, Option::Some(m) => Option::Some(ipairs_view(m@)) }));
    let b13 = b_opt_bool("report_to_penguin"@, t.report_to_penguin);
    let b14 = b_opt_str("penguin_id"@, opt_str_view(t.penguin_id));
    let b15 = b_opt_bool("report_to_yituliu"@, t.report_to_yituliu);
    let b16 = b_opt_str("yituliu_id"@, opt_str_view(t.yituliu_id));
    let b17 = b_opt_str("server"@, opt_str_view(t.server));
    let p1 = b1;
    let p2 = p1 + b2;
    let p3 = p2 + b3;
    let p4 = p3 + b4;
    let p5 = p4 + b5;
    let p6 = p5 + b6;
    let p7 = p6 + b7;
    let p8 = p7 + b8;
    let p9 = p8 + b9;
    let p10 = p9 + b10;
    let p11 = p10 + b11;
    let p12 = p11 + b12;
    let p13 = p12 + b13;
    let p14 = p13 + b14;
    let p15 = p14 + b15;
    let p16 = p15 + b16;
    let p17 = p16 + b17;
    assert(recruit_pairs(t) == p17);
    lemma_doc_get_block(b1, "refresh"@);
    lemma_doc_get_block(b2, "refresh"@);
    lemma_doc_get_block(b3, "refresh"@);
    lemma_doc_get_block(b4, "refresh"@);
    lemma_doc_get_block(b5, "refresh"@);
    lemma_doc_get_block(b6, "refresh"@);
    lemma_doc_get_block(b7, "refresh"@);
    lemma_doc_get_block(b8, "refresh"@);
    lemma_doc_get_block(b9, "refresh"@);
    lemma_doc_get_block(b10, "refresh"@);
    lemma_doc_get_block(b11, "refresh"@);
    lemma_doc_get_block(b12, "refresh"@);
    lemma_doc_get_block(b13, "refresh"@);
    lemma_doc_get_block(b14, "refresh"@);
    lemma_doc_get_block(b15, "refresh"@);
    lemma_doc_get_block(b16, "refresh"@);
    lemma_doc_get_block(b17, "refresh"@);
    lemma_doc_get_concat(p16, b17, "refresh"@);
    lemma_doc_get_concat(p15, b16, "refresh"@);
    lemma_doc_get_concat(p14, b15, "refresh"@);
    lemma_doc_get_concat(p13, b14, "refresh"@);
    lemma_doc_get_concat(p12, b13, "refresh"@);
    lemma_doc_get_concat(p11, b12, "refresh"@);
    lemma_doc_get_concat(p10, b11, "refresh"@);
    lemma_doc_get_concat(p9, b10, "refresh"@);
    lemma_doc_get_concat(p8, b9, "refresh"@);
    lemma_doc_get_concat(p7, b8, "refresh"@);
    lemma_doc_get_concat(p6, b7, "refresh"@);
    lemma_doc_get_concat(p5, b6, "refresh"@);
    lemma_doc_get_concat(p4, b5, "refresh"@);
    lemma_doc_get_concat(p3, b4, "refresh"@);
    lemma_doc_get_concat(p2, b3, "refresh"@);
    lemma_doc_get_concat(p1, b2, "refresh"@);
}

/// What lookup of `select` finds in the members of a Recruit task.
proof fn recruit_get_select(t: RecruitTask)
    ensures
        doc_get(recruit_pairs(t), "select"@) == Option::Some(JsonV::Arr(jv_int_list(t.select@))),
{
    reveal_strlit("enable");
    reveal_strlit("refresh");
    reveal_strlit("select");
    reveal_strlit("confirm");
    reveal_strlit("first_tags");
    reveal_strlit("extra_tags_mode");
    reveal_strlit("times");
    reveal_strlit("set_time");
    reveal_strlit("expedite");
    reveal_strlit("expedite_times");
    reveal_strlit("skip_robot");
    reveal_strlit("recruitment_time");
    reveal_strlit("report_to_penguin");
    reveal_strlit("penguin_id");
    reveal_strlit("report_to_yituliu");
    reveal_strlit("yituliu_id");
    reveal_strlit("server");
    assert("select"@[0] != "enable"@[0]);
    assert("select"@ != "enable"@);
    assert("select"@.len() != "refresh"@.len());
    assert("select"@ != "refresh"@);
    assert("select"@.len() != "confirm"@.len());
    assert("select"@ != "confirm"@);
    assert("select"@.len() != "first_tags"@.len());
    assert("select"@ != "first_tags"@);
    assert("select"@.len() != "extra_tags_mode"@.len());
    assert("select"@ != "extra_tags_mode"@);
    assert("select"@.len() != "times"@.len());
    assert("select"@ != "times"@);
    assert("select"@.len() != "set_time"@.len());
    assert("select"@ != "set_time"@);
    assert("select"@.len() != "expedite"@.len());
    assert("select"@ != "expedite"@);
    assert("select"@.len() != "expedite_times"@.len());
    assert("select"@ != "expedite_times"@);
    assert("select"@.len() != "skip_robot"@.len());
    assert("select"@ != "skip_robot"@);
    assert("select"@.len() != "recruitment_time"@.len());
    assert("select"@ != "recruitment_time"@);
    assert("select"@.len() != "report_to_penguin"@.len());
    assert("select"@ != "report_to_penguin"@);
    assert("select"@.len() != "penguin_id"@.len());
    assert("select"@ != "penguin_id"@);
    assert("select"@.len() != "report_to_yituliu"@.len());
    assert("select"@ != "report_to_yituliu"@);
    assert("select"@.len() != "yituliu_id"@.len());
    assert("select"@ != "yituliu_id"@);
    assert("select"@[2] != "server"@[2]);
    assert("select"@ != "server"@);
    let b1 = b_opt_bool("enable"@, t.enable);
    let b2 = b_opt_bool("refresh"@, t.refresh);
    let b3 = b_int_list("select"@, t.select@);
    let b4 = b_int_list("confirm"@, t.confirm@);
    let b5 = b_opt_str_list("first_tags"@, (match t.first_tags { Option::None => Option::None, Option::Some(l) => Option::Some(strs_view(l@)) }));
    let b6 = b_opt_int("extra_tags_mode"@, t.extra_tags_mode);
    let b7 = b_opt_int("times"@, t.times);
    let b8 = b_opt_bool("set_time"@, t.set_time);
    let b9 = b_opt_bool("expedite"@, t.expedite);
    let b10 = b_opt_int("expedite_times"@, t.expedite_times);
    let b11 = b_opt_bool("skip_robot"@, t.skip_robot);
    let b12 = b_opt_int_map("recruitment_time"@, (match t.recruitment_time { Option::None => Option::None, Option::Some(m) => Option::Some(ipairs_view(m@)) }));
    let b13 = b_opt_bool("report_to_penguin"@, t.report_to_penguin);
    let b14 = b_opt_str("penguin_id"@, opt_str_view(t.penguin_id));
    let b15 = b_opt_bool("report_to_yituliu"@, t.report_to_yituliu);
    let b16 = b_opt_str("yituliu_id"@, opt_str_view(t.yituliu_id));
    let b17 = b_opt_str("server"@, opt_str_view(t.server));
    let p1 = b1;
    let p2 = p1 + b2;
    let p3 = p2 + b3;
    let p4 = p3 + b4;
    let p5 = p4 + b5;
    let p6 = p5 + b6;
    let p7 = p6 + b7;
    let p8 = p7 + b8;
    let p9 = p8 + b9;
    let p10 = p9 + b10;
    let p11 = p10 + b11;
    let p12 = p11 + b12;
    let p13 = p12 + b13;
    let p14 = p13 + b14;
    let p15 = p14 + b15;
    let p16 = p15 + b16;
    let p17 = p16 + b17;
    assert(recruit_pairs(t) == p17);
    lemma_doc_get_block(b1, "select"@);
    lemma_doc_get_block(b2, "select"@);
    lemma_doc_get_block(b3, "select"@);
    lemma_doc_get_block(b4, "select"@);
    lemma_doc_get_block(b5, "select"@);
    lemma_doc_get_block(b6, "select"@);
    lemma_doc_get_block(b7, "select"@);
    lemma_doc_get_block(b8, "select"@);
    lemma_doc_get_block(b9, "select"@);
    lemma_doc_get_block(b10, "select"@);
    lemma_doc_get_block(b11, "select"@);
    lemma_doc_get_block(b12, "select"@);
    lemma_doc_get_block(b13, "select"@);
    lemma_doc_get_block(b14, "select"@);
    lemma_doc_get_block(b15, "select"@);
    lemma_doc_get_block(b16, "select"@);
    lemma_doc_get_block(b17, "select"@);
    lemma_doc_get_concat(p16, b17, "select"@);
    lemma_doc_get_concat(p15, b16, "select"@);
    lemma_doc_get_concat(p14, b15, "select"@);
    lemma_doc_get_concat(p13, b14, "select"@);
    lemma_doc_get_concat(p12, b13, "select"@);
    lemma_doc_get_concat(p11, b12, "select"@);
    lemma_doc_get_concat(p10, b11, "select"@);
    lemma_doc_get_concat(p9, b10, "select"@);
    lemma_doc_get_concat(p8, b9, "select"@);
    lemma_doc_get_concat(p7, b8, "select"@);
    lemma_doc_get_concat(p6, b7, "select"@);
    lemma_doc_get_concat(p5, b6, "select"@);
    lemma_doc_get_concat(p4, b5, "select"@);
    lemma_doc_get_concat(p3, b4, "select"@);
    lemma_doc_get_concat(p2, b3, "select"@);
    lemma_doc_get_concat(p1, b2, "select"@);
}

/// What lookup of `confirm` finds in the members of a Recruit task.
proof fn recruit_get_confirm(t: RecruitTask)
    ensures
        doc_get(recruit_pairs(t), "confirm"@) == Option::Some(JsonV::Arr(jv_int_list(t.confirm@))),
{
    reveal_strlit("enable");
    reveal_strlit("refresh");
    reveal_strlit("select");
    reveal_strlit("confirm");
    reveal_strlit("first_tags");
    reveal_strlit("extra_tags_mode");
    reveal_strlit("times");
    reveal_strlit("set_time");
    reveal_strlit("expedite");
    reveal_strlit("expedite_times");
    reveal_strlit("skip_robot");
    reveal_strlit("recruitment_time");
    reveal_strlit("report_to_penguin");
    reveal_strlit("penguin_id");
    reveal_strlit("report_to_yituliu");
    reveal_strlit("yituliu_id");
    reveal_strlit("server");
    assert("confirm"@.len() != "enable"@.len());
    assert("confirm"@ != "enable"@);
    assert("confirm"@[0] != "refresh"@[0]);
    assert("confirm"@ != "refresh"@);
    assert("confirm"@.len() != "select"@.len());
    assert("confirm"@ != "select"@);
    assert("confirm"@.len() != "first_tags"@.len());
    assert("confirm"@ != "first_tags"@);
    assert("confirm"@.len() != "extra_tags_mode"@.len());
    assert("confirm"@ != "extra_tags_mode"@);
    assert("confirm"@.len() != "times"@.len());
    assert("confirm"@ != "times"@);
    assert("confirm"@.len() != "set_time"@.len());
    assert("confirm"@ != "set_time"@);
    assert("confirm"@.len() != "expedite"@.len());
    assert("confirm"@ != "expedite"@);
    assert("confirm"@.len() != "expedite_times"@.len());
    assert("confirm"@ != "expedite_times"@);
    assert("confirm"@.len() != "skip_robot"@.len());
    assert("confirm"@ != "skip_robot"@);
    assert("confirm"@.len() != "recruitment_time"@.len());
    assert("confirm"@ != "recruitment_time"@);
    assert("confirm"@.len() != "report_to_penguin"@.len());
    assert("confirm"@ != "report_to_penguin"@);
    assert("confirm"@.len() != "penguin_id"@.len());
    assert("confirm"@ != "penguin_id"@);
    assert("confirm"@.len() != "report_to_yituliu"@.len());
    assert("confirm"@ != "report_to_yituliu"@);
    assert("confirm"@.len() != "yituliu_id"@.len());
    assert("confirm"@ != "yituliu_id"@);
    assert("confirm"@.len() != "server"@.len());
    assert("confirm"@ != "server"@);
    let b1 = b_opt_bool("enable"@, t.enable);
    let b2 = b_opt_bool("refresh"@, t.refresh);
    let b3 = b_int_list("select"@, t.select@);
    let b4 = b_int_list("confirm"@, t.confirm@);
    let b5 = b_opt_str_list("first_tags"@, (match t.first_tags { Option::None => Option::None, Option::Some(l) => Option::Some(strs_view(l@)) }));
    let b6 = b_opt_int("extra_tags_mode"@, t.extra_tags_mode);
    let b7 = b_opt_int("times"@, t.times);
    let b8 = b_opt_bool("set_time"@, t.set_time);
    let b9 = b_opt_bool("expedite"@, t.expedite);
    let b10 = b_opt_int("expedite_times"@, t.expedite_times);
    let b11 = b_opt_bool("skip_robot"@, t.skip_robot);
    let b12 = b_opt_int_map("recruitment_time"@, (match t.recruitment_time { Option::None => Option::None, Option::Some(m) => Option::Some(ipairs_view(m@)) }));
    let b13 = b_opt_bool("report_to_penguin"@, t.report_to_penguin);
    let b14 = b_opt_str("penguin_id"@, opt_str_view(t.penguin_id));
    let b15 = b_opt_bool("report_to_yituliu"@, t.report_to_yituliu);
    let b16 = b_opt_str("yituliu_id"@, opt_str_view(t.yituliu_id));
    let b17 = b_opt_str("server"@, opt_str_view(t.server));
    let p1 = b1;
    let p2 = p1 + b2;
    let p3 = p2 + b3;
    let p4 = p3 + b4;
    let p5 = p4 + b5;
    let p6 = p5 + b6;
    let p7 = p6 + b7;
    let p8 = p7 + b8;
    let p9 = p8 + b9;
    let p10 = p9 + b10;
    let p11 = p10 + b11;
    let p12 = p11 + b12;
    let p13 = p12 + b13;
    let p14 = p13 + b14;
    let p15 = p14 + b15;
    let p16 = p15 + b16;
    let p17 = p16 + b17;
    assert(recruit_pairs(t) == p17);
    lemma_doc_get_block(b1, "confirm"@);
    lemma_doc_get_block(b2, "confirm"@);
    lemma_doc_get_block(b3, "confirm"@);
    lemma_doc_get_block(b4, "confirm"@);
    lemma_doc_get_block(b5, "confirm"@);
    lemma_doc_get_block(b6, "confirm"@);
    lemma_doc_get_block(b7, "confirm"@);
    lemma_doc_get_block(b8, "confirm"@);
    lemma_doc_get_block(b9, "confirm"@);
    lemma_doc_get_block(b10, "confirm"@);
    lemma_doc_get_block(b11, "confirm"@);
    lemma_doc_get_block(b12, "confirm"@);
    lemma_doc_get_block(b13, "confirm"@);
    lemma_doc_get_block(b14, "confirm"@);
    lemma_doc_get_block(b15, "confirm"@);
    lemma_doc_get_block(b16, "confirm"@);
    lemma_doc_get_block(b17, "confirm"@);
    lemma_doc_get_concat(p16, b17, "confirm"@);
    lemma_doc_get_concat(p15, b16, "confirm"@);
    lemma_doc_get_concat(p14, b15, "confirm"@);
    lemma_doc_get_concat(p13, b14, "confirm"@);
    lemma_doc_get_concat(p12, b13, "confirm"@);
    lemma_doc_get_concat(p11, b12, "confirm"@);
    lemma_doc_get_concat(p10, b11, "confirm"@);
    lemma_doc_get_concat(p9, b10, "confirm"@);
    lemma_doc_get_concat(p8, b9, "confirm"@);
    lemma_doc_get_concat(p7, b8, "confirm"@);
    lemma_doc_get_concat(p6, b7, "confirm"@);
    lemma_doc_get_concat(p5, b6, "confirm"@);
    lemma_doc_get_concat(p4, b5, "confirm"@);
    lemma_doc_get_concat(p3, b4, "confirm"@);
    lemma_doc_get_concat(p2, b3, "confirm"@);
    lemma_doc_get_concat(p1, b2, "confirm"@);
}

/// What lookup of `first_tags` finds in the members of a Recruit task.
proof fn recruit_get_first_tags(t: RecruitTask)
    ensures
        doc_get(recruit_pairs(t), "first_tags"@) == (match t.first_tags { Option::None => Option::<JsonV>::None, Option::Some(l) => Option::Some(JsonV::Arr(jv_str_list(strs_view(l@)))) }),
{
    reveal_strlit("enable");
    reveal_strlit("refresh");
    reveal_strlit("select");
    reveal_strlit("confirm");
    reveal_strlit("first_tags");
    reveal_strlit("extra_tags_mode");
    reveal_strlit("times");
    reveal_strlit("set_time");
    reveal_strlit("expedite");
    reveal_strlit("expedite_times");
    reveal_strlit("skip_robot");
    reveal_strlit("recruitment_time");
    reveal_strlit("report_to_penguin");
    reveal_strlit("penguin_id");
    reveal_strlit("report_to_yituliu");
    reveal_strlit("yituliu_id");
    reveal_strlit("server");
    assert("first_tags"@.len() != "enable"@.len());
    assert("first_tags"@ != "enable"@);
    assert("first_tags"@.len() != "refresh"@.len());
    assert("first_tags"@ != "refresh"@);
    assert("first_tags"@.len() != "select"@.len());
    assert("first_tags"@ != "select"@);
    assert("first_tags"@.len() != "confirm"@.len());
    assert("first_tags"@ != "confirm"@);
    assert("first_tags"@.len() != "extra_tags_mode"@.len());
    assert("first_tags"@ != "extra_tags_mode"@);
    assert("first_tags"@.len() != "times"@.len());
    assert("first_tags"@ != "times"@);
    assert("first_tags"@.len() != "set_time"@.len());
    assert("first_tags"@ != "set_time"@);
    assert("first_tags"@.len() != "expedite"@.len());
    assert("first_tags"@ != "expedite"@);
    assert("first_tags"@.len() != "expedite_times"@.len());
    assert("first_tags"@ != "expedite_times"@);
    assert("first_tags"@[0] != "skip_robot"@[0]);
    assert("first_tags"@ != "skip_robot"@);
    assert("first_tags"@.len() != "recruitment_time"@.len());
    assert("first_tags"@ != "recruitment_time"@);
    assert("first_tags"@.len() != "report_to_penguin"@.len());
    assert("first_tags"@ != "report_to_penguin"@);
    assert("first_tags"@[0] != "penguin_id"@[0]);
    assert("first_tags"@ != "penguin_id"@);
    assert("first_tags"@.len() != "report_to_yituliu"@.len());
    assert("first_tags"@ != "report_to_yituliu"@);
    assert("first_tags"@[0] != "yituliu_id"@[0]);
    assert("first_tags"@ != "yituliu_id"@);
    assert("first_tags"@.len() != "server"@.len());
    assert("first_tags"@ != "server"@);
    let b1 = b_opt_bool("enable"@, t.enable);
    let b2 = b_opt_bool("refresh"@, t.refresh);
    let b3 = b_int_list("select"@, t.select@);
    let b4 = b_int_list("confirm"@, t.confirm@);
    let b5 = b_opt_str_list("first_tags"@, (match t.first_tags { Option::None => Option::None, Option::Some(l) => Option::Some(strs_view(l@)) }));
    let b6 = b_opt_int("extra_tags_mode"@, t.extra_tags_mode);
    let b7 = b_opt_int("times"@, t.times);
    let b8 = b_opt_bool("set_time"@, t.set_time);
    let b9 = b_opt_bool("expedite"@, t.expedite);
    let b10 = b_opt_int("expedite_times"@, t.expedite_times);
    let b11 = b_opt_bool("skip_robot"@, t.skip_robot);
    let b12 = b_opt_int_map("recruitment_time"@, (match t.recruitment_time { Option::None => Option::None, Option::Some(m) => Option::Some(ipairs_view(m@)) }));
    let b13 = b_opt_bool("report_to_penguin"@, t.report_to_penguin);
    let b14 = b_opt_str("penguin_id"@, opt_str_view(t.penguin_id));
    let b15 = b_opt_bool("report_to_yituliu"@, t.report_to_yituliu);
    let b16 = b_opt_str("yituliu_id"@, opt_str_view(t.yituliu_id));
    let b17 = b_opt_str("server"@, opt_str_view(t.server));
    let p1 = b1;
    let p2 = p1 + b2;
    let p3 = p2 + b3;
    let p4 = p3 + b4;
    let p5 = p4 + b5;
    let p6 = p5 + b6;
    let p7 = p6 + b7;
    let p8 = p7 + b8;
    let p9 = p8 + b9;
    let p10 = p9 + b10;
    let p11 = p10 + b11;
    let p12 = p11 + b12;
    let p13 = p12 + b13;
    let p14 = p13 + b14;
    let p15 = p14 + b15;
    let p16 = p15 + b16;
    let p17 = p16 + b17;
    assert(recruit_pairs(t) == p17);
    lemma_doc_get_block(b1, "first_tags"@);
    lemma_doc_get_block(b2, "first_tags"@);
    lemma_doc_get_block(b3, "first_tags"@);
    lemma_doc_get_block(b4, "first_tags"@);
    lemma_doc_get_block(b5, "first_tags"@);
    lemma_doc_get_block(b6, "first_tags"@);
    lemma_doc_get_block(b7, "first_tags"@);
    lemma_doc_get_block(b8, "first_tags"@);
    lemma_doc_get_block(b9, "first_tags"@);
    lemma_doc_get_block(b10, "first_tags"@);
    lemma_doc_get_block(b11, "first_tags"@);
    lemma_doc_get_block(b12, "first_tags"@);
    lemma_doc_get_block(b13, "first_tags"@);
    lemma_doc_get_block(b14, "first_tags"@);
    lemma_doc_get_block(b15, "first_tags"@);
    lemma_doc_get_block(b16, "first_tags"@);
    lemma_doc_get_block(b17, "first_tags"@);
    lemma_doc_get_concat(p16, b17, "first_tags"@);
    lemma_doc_get_concat(p15, b16, "first_tags"@);
    lemma_doc_get_concat(p14, b15, "first_tags"@);
    lemma_doc_get_concat(p13, b14, "first_tags"@);
    lemma_doc_get_concat(p12, b13, "first_tags"@);
    lemma_doc_get_concat(p11, b12, "first_tags"@);
    lemma_doc_get_concat(p10, b11, "first_tags"@);
    lemma_doc_get_concat(p9, b10, "first_tags"@);
    lemma_doc_get_concat(p8, b9, "first_tags"@);
    lemma_doc_get_concat(p7, b8, "first_tags"@);
    lemma_doc_get_concat(p6, b7, "first_tags"@);
    lemma_doc_get_concat(p5, b6, "first_tags"@);
    lemma_doc_get_concat(p4, b5, "first_tags"@);
    lemma_doc_get_concat(p3, b4, "first_tags"@);
    lemma_doc_get_concat(p2, b3, "first_tags"@);
    lemma_doc_get_concat(p1, b2, "first_tags"@);
}

/// What lookup of `extra_tags_mode` finds in the members of a Recruit task.
proof fn recruit_get_extra_tags_mode(t: RecruitTask)
    ensures
        doc_get(recruit_pairs(t), "extra_tags_mode"@) == (match t.extra_tags_mode { Option::None => Option::<JsonV>::None, Option::Some(i) => Option::Some(JsonV::Sc(ScalarV::Int(i as int))) }),
{
    reveal_strlit("enable");
    reveal_strlit("refresh");
    reveal_strlit("select");
    reveal_strlit("confirm");
    reveal_strlit("first_tags");
    reveal_strlit("extra_tags_mode");
    reveal_strlit("times");
    reveal_strlit("set_time");
    reveal_strlit("expedite");
    reveal_strlit("expedite_times");
    reveal_strlit("skip_robot");
    reveal_strlit("recruitment_time");
    reveal_strlit("report_to_penguin");
    reveal_strlit("penguin_id");
    reveal_strlit("report_to_yituliu");
    reveal_strlit("yituliu_id");
    reveal_strlit("server");
    assert("extra_tags_mode"@.len() != "enable"@.len());
    assert("extra_tags_mode"@ != "enable"@);
    assert("extra_tags_mode"@.len() != "refresh"@.len());
    assert("extra_tags_mode"@ != "refresh"@);
    assert("extra_tags_mode"@.len() != "select"@.len());
    assert("extra_tags_mode"@ != "select"@);
    assert("extra_tags_mode"@.len() != "confirm"@.len());
    assert("extra_tags_mode"@ != "confirm"@);
    assert("extra_tags_mode"@.len() != "first_tags"@.len());
    assert("extra_tags_mode"@ != "first_tags"@);
    assert("extra_tags_mode"@.len() != "times"@.len());
    assert("extra_tags_mode"@ != "times"@);
    assert("extra_tags_mode"@.len() != "set_time"@.len());
    assert("extra_tags_mode"@ != "set_time"@);
    assert("extra_tags_mode"@.len() != "expedite"@.len());
    assert("extra_tags_mode"@ != "expedite"@);
    assert("extra_tags_mode"@.len() != "expedite_times"@.len());
    assert("extra_tags_mode"@ != "expedite_times"@);
    assert("extra_tags_mode"@.len() != "skip_robot"@.len());
    assert("extra_tags_mode"@ != "skip_robot"@);
    assert("extra_tags_mode"@.len() != "recruitment_time"@.len());
    assert("extra_tags_mode"@ != "recruitment_time"@);
    assert("extra_tags_mode"@.len() != "report_to_penguin"@.len());
    assert("extra_tags_mode"@ != "report_to_penguin"@);
    assert("extra_tags_mode"@.len() != "penguin_id"@.len());
    assert("extra_tags_mode"@ != "penguin_id"@);
    assert("extra_tags_mode"@.len() != "report_to_yituliu"@.len());
    assert("extra_tags_mode"@ != "report_to_yituliu"@);
    assert("extra_tags_mode"@.len() != "yituliu_id"@.len());
    assert("extra_tags_mode"@ != "yituliu_id"@);
    assert("extra_tags_mode"@.len() != "server"@.len());
    assert("extra_tags_mode"@ != "server"@);
    let b1 = b_opt_bool("enable"@, t.enable);
    let b2 = b_opt_bool("refresh"@, t.refresh);
    let b3 = b_int_list("select"@, t.select@);
    let b4 = b_int_list("confirm"@, t.confirm@);
    let b5 = b_opt_str_list("first_tags"@, (match t.first_tags { Option::None => Option::None, Option::Some(l) => Option::Some(strs_view(l@)) }));
    let b6 = b_opt_int("extra_tags_mode"@, t.extra_tags_mode);
    let b7 = b_opt_int("times"@, t.times);
    let b8 = b_opt_bool("set_time"@, t.set_time);
    let b9 = b_opt_bool("expedite"@, t.expedite);
    let b10 = b_opt_int("expedite_times"@, t.expedite_times);
    let b11 = b_opt_bool("skip_robot"@, t.skip_robot);
    let b12 = b_opt_int_map("recruitment_time"@, (match t.recruitment_time { Option::None => Option::None, Option::Some(m) => Option::Some(ipairs_view(m@)) }));
    let b13 = b_opt_bool("report_to_penguin"@, t.report_to_penguin);
    let b14 = b_opt_str("penguin_id"@, opt_str_view(t.penguin_id));
    let b15 = b_opt_bool("report_to_yituliu"@, t.report_to_yituliu);
    let b16 = b_opt_str("yituliu_id"@, opt_str_view(t.yituliu_id));
    let b17 = b_opt_str("server"@, opt_str_view(t.server));
    let p1 = b1;
    let p2 = p1 + b2;
    let p3 = p2 + b3;
    let p4 = p3 + b4;
    let p5 = p4 + b5;
    let p6 = p5 + b6;
    let p7 = p6 + b7;
    let p8 = p7 + b8;
    let p9 = p8 + b9;
    let p10 = p9 + b10;
    let p11 = p10 + b11;
    let p12 = p11 + b12;
    let p13 = p12 + b13;
    let p14 = p13 + b14;
    let p15 = p14 + b15;
    let p16 = p15 + b16;
    let p17 = p16 + b17;
    assert(recruit_pairs(t) == p17);
    lemma_doc_get_block(b1, "extra_tags_mode"@);
    lemma_doc_get_block(b2, "extra_tags_mode"@);
    lemma_doc_get_block(b3, "extra_tags_mode"@);
    lemma_doc_get_block(b4, "extra_tags_mode"@);
    lemma_doc_get_block(b5, "extra_tags_mode"@);
    lemma_doc_get_block(b6, "extra_tags_mode"@);
    lemma_doc_get_block(b7, "extra_tags_mode"@);
    lemma_doc_get_block(b8, "extra_tags_mode"@);
    lemma_doc_get_block(b9, "extra_tags_mode"@);
    lemma_doc_get_block(b10, "extra_tags_mode"@);
    lemma_doc_get_block(b11, "extra_tags_mode"@);
    lemma_doc_get_block(b12, "extra_tags_mode"@);
    lemma_doc_get_block(b13, "extra_tags_mode"@);
    lemma_doc_get_block(b14, "extra_tags_mode"@);
    lemma_doc_get_block(b15, "extra_tags_mode"@);
    lemma_doc_get_block(b16, "extra_tags_mode"@);
    lemma_doc_get_block(b17, "extra_tags_mode"@);
    lemma_doc_get_concat(p16, b17, "extra_tags_mode"@);
    lemma_doc_get_concat(p15, b16, "extra_tags_mode"@);
    lemma_doc_get_concat(p14, b15, "extra_tags_mode"@);
    lemma_doc_get_concat(p13, b14, "extra_tags_mode"@);
    lemma_doc_get_concat(p12, b13, "extra_tags_mode"@);
    lemma_doc_get_concat(p11, b12, "extra_tags_mode"@);
    lemma_doc_get_concat(p10, b11, "extra_tags_mode"@);
    lemma_doc_get_concat(p9, b10, "extra_tags_mode"@);
    lemma_doc_get_concat(p8, b9, "extra_tags_mode"@);
    lemma_doc_get_concat(p7, b8, "extra_tags_mode"@);
    lemma_doc_get_concat(p6, b7, "extra_tags_mode"@);
    lemma_doc_get_concat(p5, b6, "extra_tags_mode"@);
    lemma_doc_get_concat(p4, b5, "extra_tags_mode"@);
    lemma_doc_get_concat(p3, b4, "extra_tags_mode"@);
    lemma_doc_get_concat(p2, b3, "extra_tags_mode"@);
    lemma_doc_get_concat(p1, b2, "extra_tags_mode"@);
}

/// What lookup of `times` finds in the members of a Recruit task.
proof fn recruit_get_times(t: RecruitTask)
    ensures
        doc_get(recruit_pairs(t), "times"@) == (match t.times { Option::None => Option::<JsonV>::None, Option::Some(i) => Option::Some(JsonV::Sc(ScalarV::Int(i as int))) }),
{
    reveal_strlit("enable");
    reveal_strlit("refresh");
    reveal_strlit("select");
    reveal_strlit("confirm");
    reveal_strlit("first_tags");
    reveal_strlit("extra_tags_mode");
    reveal_strlit("times");
    reveal_strlit("set_time");
    reveal_strlit("expedite");
    reveal_strlit("expedite_times");
    reveal_strlit("skip_robot");
    reveal_strlit("recruitment_time");
    reveal_strlit("report_to_penguin");
    reveal_strlit("penguin_id");
    reveal_strlit("report_to_yituliu");
    reveal_strlit("yituliu_id");
    reveal_strlit("server");
    assert("times"@.len() != "enable"@.len());
    assert("times"@ != "enable"@);
    assert("times"@.len() != "refresh"@.len());
    assert("times"@ != "refresh"@);
    assert("times"@.len() != "select"@.len());
    assert("times"@ != "select"@);
    assert("times"@.len() != "confirm"@.len());
    assert("times"@ != "confirm"@);
    assert("times"@.len() != "first_tags"@.len());
    assert("times"@ != "first_tags"@);
    assert("times"@.len() != "extra_tags_mode"@.len());
    assert("times"@ != "extra_tags_mode"@);
    assert("times"@.len() != "set_time"@.len());
    assert("times"@ != "set_time"@);
    assert("times"@.len() != "expedite"@.len());
    assert("times"@ != "expedite"@);
    assert("times"@.len() != "expedite_times"@.len());
    assert("times"@ != "expedite_times"@);
    assert("times"@.len() != "skip_robot"@.len());
    assert("times"@ != "skip_robot"@);
    assert("times"@.len() != "recruitment_time"@.len());
    assert("times"@ != "recruitment_time"@);
    assert("times"@.len() != "report_to_penguin"@.len());
    assert("times"@ != "report_to_penguin"@);
    assert("times"@.len() != "penguin_id"@.len());
    assert("times"@ != "penguin_id"@);
    assert("times"@.len() != "report_to_yituliu"@.len());
    assert("times"@ != "report_to_yituliu"@);
    assert("times"@.len() != "yituliu_id"@.len());
    assert("times"@ != "yituliu_id"@);
    assert("times"@.len() != "server"@.len());
    assert("times"@ != "server"@);
    let b1 = b_opt_bool("enable"@, t.enable);
    let b2 = b_opt_bool("refresh"@, t.refresh);
    let b3 = b_int_list("select"@, t.select@);
    let b4 = b_int_list("confirm"@, t.confirm@);
    let b5 = b_opt_str_list("first_tags"@, (match t.first_tags { Option::None => Option::None, Option::Some(l) => Option::Some(strs_view(l@)) }));
    let b6 = b_opt_int("extra_tags_mode"@, t.extra_tags_mode);
    let b7 = b_opt_int("times"@, t.times);
    let b8 = b_opt_bool("set_time"@, t.set_time);
    let b9 = b_opt_bool("expedite"@, t.expedite);
    let b10 = b_opt_int("expedite_times"@, t.expedite_times);
    let b11 = b_opt_bool("skip_robot"@, t.skip_robot);
    let b12 = b_opt_int_map("recruitment_time"@, (match t.recruitment_time { Option::None => Option::None, Option::Some(m) => Option::Some(ipairs_view(m@)) }));
    let b13 = b_opt_bool("report_to_penguin"@, t.report_to_penguin);
    let b14 = b_opt_str("penguin_id"@, opt_str_view(t.penguin_id));
    let b15 = b_opt_bool("report_to_yituliu"@, t.report_to_yituliu);
    let b16 = b_opt_str("yituliu_id"@, opt_str_view(t.yituliu_id));
    let b17 = b_opt_str("server"@, opt_str_view(t.server));
    let p1 = b1;
    let p2 = p1 + b2;
    let p3 = p2 + b3;
    let p4 = p3 + b4;
    let p5 = p4 + b5;
    let p6 = p5 + b6;
    let p7 = p6 + b7;
    let p8 = p7 + b8;
    let p9 = p8 + b9;
    let p10 = p9 + b10;
    let p11 = p10 + b11;
    let p12 = p11 + b12;
    let p13 = p12 + b13;
    let p14 = p13 + b14;
    let p15 = p14 + b15;
    let p16 = p15 + b16;
    let p17 = p16 + b17;
    assert(recruit_pairs(t) == p17);
    lemma_doc_get_block(b1, "times"@);
    lemma_doc_get_block(b2, "times"@);
    lemma_doc_get_block(b3, "times"@);
    lemma_doc_get_block(b4, "times"@);
    lemma_doc_get_block(b5, "times"@);
    lemma_doc_get_block(b6, "times"@);
    lemma_doc_get_block(b7, "times"@);
    lemma_doc_get_block(b8, "times"@);
    lemma_doc_get_block(b9, "times"@);
    lemma_doc_get_block(b10, "times"@);
    lemma_doc_get_block(b11, "times"@);
    lemma_doc_get_block(b12, "times"@);
    lemma_doc_get_block(b13, "times"@);
    lemma_doc_get_block(b14, "times"@);
    lemma_doc_get_block(b15, "times"@);
    lemma_doc_get_block(b16, "times"@);
    lemma_doc_get_block(b17, "times"@);
    lemma_doc_get_concat(p16, b17, "times"@);
    lemma_doc_get_concat(p15, b16, "times"@);
    lemma_doc_get_concat(p14, b15, "times"@);
    lemma_doc_get_concat(p13, b14, "times"@);
    lemma_doc_get_concat(p12, b13, "times"@);
    lemma_doc_get_concat(p11, b12, "times"@);
    lemma_doc_get_concat(p10, b11, "times"@);
    lemma_doc_get_concat(p9, b10, "times"@);
    lemma_doc_get_concat(p8, b9, "times"@);
    lemma_doc_get_concat(p7, b8, "times"@);
    lemma_doc_get_concat(p6, b7, "times"@);
    lemma_doc_get_concat(p5, b6, "times"@);
    lemma_doc_get_concat(p4, b5, "times"@);
    lemma_doc_get_concat(p3, b4, "times"@);
    lemma_doc_get_concat(p2, b3, "times"@);
    lemma_doc_get_concat(p1, b2, "times"@);
}

/// What lookup of `set_time` finds in the members of a Recruit task.
proof fn recruit_get_set_time(t: RecruitTask)
    ensures
        doc_get(recruit_pairs(t), "set_time"@) == (match t.set_time { Option::None => Option::<JsonV>::None, Option::Some(b) => Option::Some(JsonV::Sc(ScalarV::Bool(b))) }),
{
    reveal_strlit("enable");
    reveal_strlit("refresh");
    reveal_strlit("select");
    reveal_strlit("confirm");
    reveal_strlit("first_tags");
    reveal_strlit("extra_tags_mode");
    reveal_strlit("times");
    reveal_strlit("set_time");
    reveal_strlit("expedite");
    reveal_strlit("expedite_times");
    reveal_strlit("skip_robot");
    reveal_strlit("recruitment_time");
    reveal_strlit("report_to_penguin");
    reveal_strlit("penguin_id");
    reveal_strlit("report_to_yituliu");
    reveal_strlit("yituliu_id");
    reveal_strlit("server");
    assert("set_time"@.len() != "enable"@.len());
    assert("set_time"@ != "enable"@);
    assert("set_time"@.len() != "refresh"@.len());
    assert("set_time"@ != "refresh"@);
    assert("set_time"@.len() != "select"@.len());
    assert("set_time"@ != "select"@);
    assert("set_time"@.len() != "confirm"@.len());
    assert("set_time"@ != "confirm"@);
    assert("set_time"@.len() != "first_tags"@.len());
    assert("set_time"@ != "first_tags"@);
    assert("set_time"@.len() != "extra_tags_mode"@.len());
    assert("set_time"@ != "extra_tags_mode"@);
    assert("set_time"@.len() != "times"@.len());
    assert("set_time"@ != "times"@);
    assert("set_time"@[0] != "expedite"@[0]);
    assert("set_time"@ != "expedite"@);
    assert("set_time"@.len() != "expedite_times"@.len());
    assert("set_time"@ != "expedite_times"@);
    assert("set_time"@.len() != "skip_robot"@.len());
    assert("set_time"@ != "skip_robot"@);
    assert("set_time"@.len() != "recruitment_time"@.len());
    assert("set_time"@ != "recruitment_time"@);
    assert("set_time"@.len() != "report_to_penguin"@.len());
    assert("set_time"@ != "report_to_penguin"@);
    assert("set_time"@.len() != "penguin_id"@.len());
    assert("set_time"@ != "penguin_id"@);
    assert("set_time"@.len() != "report_to_yituliu"@.len());
    assert("set_time"@ != "report_to_yituliu"@);
    assert("set_time"@.len() != "yituliu_id"@.len());
    assert("set_time"@ != "yituliu_id"@);
    assert("set_time"@.len() != "server"@.len());
    assert("set_time"@ != "server"@);
    let b1 = b_opt_bool("enable"@, t.enable);
    let b2 = b_opt_bool("refresh"@, t.refresh);
    let b3 = b_int_list("select"@, t.select@);
    let b4 = b_int_list("confirm"@, t.confirm@);
    let b5 = b_opt_str_list("first_tags"@, (match t.first_tags { Option::None => Option::None, Option::Some(l) => Option::Some(strs_view(l@)) }));
    let b6 = b_opt_int("extra_tags_mode"@, t.extra_tags_mode);
    let b7 = b_opt_int("times"@, t.times);
    let b8 = b_opt_bool("set_time"@, t.set_time);
    let b9 = b_opt_bool("expedite"@, t.expedite);
    let b10 = b_opt_int("expedite_times"@, t.expedite_times);
    let b11 = b_opt_bool("skip_robot"@, t.skip_robot);
    let b12 = b_opt_int_map("recruitment_time"@, (match t.recruitment_time { Option::None => Option::None, Option::Some(m) => Option::Some(ipairs_view(m@)) }));
    let b13 = b_opt_bool("report_to_penguin"@, t.report_to_penguin);
    let b14 = b_opt_str("penguin_id"@, opt_str_view(t.penguin_id));
    let b15 = b_opt_bool("report_to_yituliu"@, t.report_to_yituliu);
    let b16 = b_opt_str("yituliu_id"@, opt_str_view(t.yituliu_id));
    let b17 = b_opt_str("server"@, opt_str_view(t.server));
    let p1 = b1;
    let p2 = p1 + b2;
    let p3 = p2 + b3;
    let p4 = p3 + b4;
    let p5 = p4 + b5;
    let p6 = p5 + b6;
    let p7 = p6 + b7;
    let p8 = p7 + b8;
    let p9 = p8 + b9;
    let p10 = p9 + b10;
    let p11 = p10 + b11;
    let p12 = p11 + b12;
    let p13 = p12 + b13;
    let p14 = p13 + b14;
    let p15 = p14 + b15;
    let p16 = p15 + b16;
    let p17 = p16 + b17;
    assert(recruit_pairs(t) == p17);
    lemma_doc_get_block(b1, "set_time"@);
    lemma_doc_get_block(b2, "set_time"@);
    lemma_doc_get_block(b3, "set_time"@);
    lemma_doc_get_block(b4, "set_time"@);
    lemma_doc_get_block(b5, "set_time"@);
    lemma_doc_get_block(b6, "set_time"@);
    lemma_doc_get_block(b7, "set_time"@);
    lemma_doc_get_block(b8, "set_time"@);
    lemma_doc_get_block(b9, "set_time"@);
    lemma_doc_get_block(b10, "set_time"@);
    lemma_doc_get_block(b11, "set_time"@);
    lemma_doc_get_block(b12, "set_time"@);
    lemma_doc_get_block(b13, "set_time"@);
    lemma_doc_get_block(b14, "set_time"@);
    lemma_doc_get_block(b15, "set_time"@);
    lemma_doc_get_block(b16, "set_time"@);
    lemma_doc_get_block(b17, "set_time"@);
    lemma_doc_get_concat(p16, b17, "set_time"@);
    lemma_doc_get_concat(p15, b16, "set_time"@);
    lemma_doc_get_concat(p14, b15, "set_time"@);
    lemma_doc_get_concat(p13, b14, "set_time"@);
    lemma_doc_get_concat(p12, b13, "set_time"@);
    lemma_doc_get_concat(p11, b12, "set_time"@);
    lemma_doc_get_concat(p10, b11, "set_time"@);
    lemma_doc_get_concat(p9, b10, "set_time"@);
    lemma_doc_get_concat(p8, b9, "set_time"@);
    lemma_doc_get_concat(p7, b8, "set_time"@);
    lemma_doc_get_concat(p6, b7, "set_time"@);
    lemma_doc_get_concat(p5, b6, "set_time"@);
    lemma_doc_get_concat(p4, b5, "set_time"@);
    lemma_doc_get_concat(p3, b4, "set_time"@);
    lemma_doc_get_concat(p2, b3, "set_time"@);
    lemma_doc_get_concat(p1, b2, "set_time"@);
}

/// What lookup of `expedite` finds in the members of a Recruit task.
proof fn recruit_get_expedite(t: RecruitTask)
    ensures
        doc_get(recruit_pairs(t), "expedite"@) == (match t.expedite { Option::None => Option::<JsonV>::None, Option::Some(b) => Option::Some(JsonV::Sc(ScalarV::Bool(b))) }),
{
    reveal_strlit("enable");
    reveal_strlit("refresh");
    reveal_strlit("select");
    reveal_strlit("confirm");
    reveal_strlit("first_tags");
    reveal_strlit("extra_tags_mode");
    reveal_strlit("times");
    reveal_strlit("set_time");
    reveal_strlit("expedite");
    reveal_strlit("expedite_times");
    reveal_strlit("skip_robot");
    reveal_strlit("recruitment_time");
    reveal_strlit("report_to_penguin");
    reveal_strlit("penguin_id");
    reveal_strlit("report_to_yituliu");
    reveal_strlit("yituliu_id");
    reveal_strlit("server");
    assert("expedite"@.len() != "enable"@.len());
    assert("expedite"@ != "enable"@);
    assert("expedite"@.len() != "refresh"@.len());
    assert("expedite"@ != "refresh"@);
    assert("expedite"@.len() != "select"@.len());
    assert("expedite"@ != "select"@);
    assert("expedite"@.len() != "confirm"@.len());
    assert("expedite"@ != "confirm"@);
    assert("expedite"@.len() != "first_tags"@.len());
    assert("expedite"@ != "first_tags"@);
    assert("expedite"@.len() != "extra_tags_mode"@.len());
    assert("expedite"@ != "extra_tags_mode"@);
    assert("expedite"@.len() != "times"@.len());
    assert("expedite"@ != "times"@);
    assert("expedite"@[0] != "set_time"@[0]);
    assert("expedite"@ != "set_time"@);
    assert("expedite"@.len() != "expedite_times"@.len());
    assert("expedite"@ != "expedite_times"@);
    assert("expedite"@.len() != "skip_robot"@.len());
    assert("expedite"@ != "skip_robot"@);
    assert("expedite"@.len() != "recruitment_time"@.len());
    assert("expedite"@ != "recruitment_time"@);
    assert("expedite"@.len() != "report_to_penguin"@.len());
    assert("expedite"@ != "report_to_penguin"@);
    assert("expedite"@.len() != "penguin_id"@.len());
    assert("expedite"@ != "penguin_id"@);
    assert("expedite"@.len() != "report_to_yituliu"@.len());
    assert("expedite"@ != "report_to_yituliu"@);
    assert("expedite"@.len() != "yituliu_id"@.len());
    assert("expedite"@ != "yituliu_id"@);
    assert("expedite"@.len() != "server"@.len());
    assert("expedite"@ != "server"@);
    let b1 = b_opt_bool("enable"@, t.enable);
    let b2 = b_opt_bool("refresh"@, t.refresh);
    let b3 = b_int_list("select"@, t.select@);
    let b4 = b_int_list("confirm"@, t.confirm@);
    let b5 = b_opt_str_list("first_tags"@, (match t.first_tags { Option::None => Option::None, Option::Some(l) => Option::Some(strs_view(l@)) }));
    let b6 = b_opt_int("extra_tags_mode"@, t.extra_tags_mode);
    let b7 = b_opt_int("times"@, t.times);
    let b8 = b_opt_bool("set_time"@, t.set_time);
    let b9 = b_opt_bool("expedite"@, t.expedite);
    let b10 = b_opt_int("expedite_times"@, t.expedite_times);
    let b11 = b_opt_bool("skip_robot"@, t.skip_robot);
    let b12 = b_opt_int_map("recruitment_time"@, (match t.recruitment_time { Option::None => Option::None, Option::Some(m) => Option::Some(ipairs_view(m@)) }));
    let b13 = b_opt_bool("report_to_penguin"@, t.report_to_penguin);
    let b14 = b_opt_str("penguin_id"@, opt_str_view(t.penguin_id));
    let b15 = b_opt_bool("report_to_yituliu"@, t.report_to_yituliu);
    let b16 = b_opt_str("yituliu_id"@, opt_str_view(t.yituliu_id));
    let b17 = b_opt_str("server"@, opt_str_view(t.server));
    let p1 = b1;
    let p2 = p1 + b2;
    let p3 = p2 + b3;
    let p4 = p3 + b4;
    let p5 = p4 + b5;
    let p6 = p5 + b6;
    let p7 = p6 + b7;
    let p8 = p7 + b8;
    let p9 = p8 + b9;
    let p10 = p9 + b10;
    let p11 = p10 + b11;
    let p12 = p11 + b12;
    let p13 = p12 + b13;
    let p14 = p13 + b14;
    let p15 = p14 + b15;
    let p16 = p15 + b16;
    let p17 = p16 + b17;
    assert(recruit_pairs(t) == p17);
    lemma_doc_get_block(b1, "expedite"@);
    lemma_doc_get_block(b2, "expedite"@);
    lemma_doc_get_block(b3, "expedite"@);
    lemma_doc_get_block(b4, "expedite"@);
    lemma_doc_get_block(b5, "expedite"@);
    lemma_doc_get_block(b6, "expedite"@);
    lemma_doc_get_block(b7, "expedite"@);
    lemma_doc_get_block(b8, "expedite"@);
    lemma_doc_get_block(b9, "expedite"@);
    lemma_doc_get_block(b10, "expedite"@);
    lemma_doc_get_block(b11, "expedite"@);
    lemma_doc_get_block(b12, "expedite"@);
    lemma_doc_get_block(b13, "expedite"@);
    lemma_doc_get_block(b14, "expedite"@);
    lemma_doc_get_block(b15, "expedite"@);
    lemma_doc_get_block(b16, "expedite"@);
    lemma_doc_get_block(b17, "expedite"@);
    lemma_doc_get_concat(p16, b17, "expedite"@);
    lemma_doc_get_concat(p15, b16, "expedite"@);
    lemma_doc_get_concat(p14, b15, "expedite"@);
    lemma_doc_get_concat(p13, b14, "expedite"@);
    lemma_doc_get_concat(p12, b13, "expedite"@);
    lemma_doc_get_concat(p11, b12, "expedite"@);
    lemma_doc_get_concat(p10, b11, "expedite"@);
    lemma_doc_get_concat(p9, b10, "expedite"@);
    lemma_doc_get_concat(p8, b9, "expedite"@);
    lemma_doc_get_concat(p7, b8, "expedite"@);
    lemma_doc_get_concat(p6, b7, "expedite"@);
    lemma_doc_get_concat(p5, b6, "expedite"@);
    lemma_doc_get_concat(p4, b5, "expedite"@);
    lemma_doc_get_concat(p3, b4, "expedite"@);
    lemma_doc_get_concat(p2, b3, "expedite"@);
    lemma_doc_get_concat(p1, b2, "expedite"@);
}

/// What lookup of `expedite_times` finds in the members of a Recruit task.
proof fn recruit_get_expedite_times(t: RecruitTask)
    ensures
        doc_get(recruit_pairs(t), "expedite_times"@) == (match t.expedite_times { Option::None => Option::<JsonV>::None, Option::Some(i) => Option::Some(JsonV::Sc(ScalarV::Int(i as int))) }),
{
    reveal_strlit("enable");
    reveal_strlit("refresh");
    reveal_strlit("select");
    reveal_strlit("confirm");
    reveal_strlit("first_tags");
    reveal_strlit("extra_tags_mode");
    reveal_strlit("times");
    reveal_strlit("set_time");
    reveal_strlit("expedite");
    reveal_strlit("expedite_times");
    reveal_strlit("skip_robot");
    reveal_strlit("recruitment_time");
    reveal_strlit("report_to_penguin");
    reveal_strlit("penguin_id");
    reveal_strlit("report_to_yituliu");
    reveal_strlit("yituliu_id");
    reveal_strlit("server");
    assert("expedite_times"@.len() != "enable"@.len());
    assert("expedite_times"@ != "enable"@);
    assert("expedite_times"@.len() != "refresh"@.len());
    assert("expedite_times"@ != "refresh"@);
    assert("expedite_times"@.len() != "select"@.len());
    assert("expedite_times"@ != "select"@);
    assert("expedite_times"@.len() != "confirm"@.len());
    assert("expedite_times"@ != "confirm"@);
    assert("expedite_times"@.len() != "first_tags"@.len());
    assert("expedite_times"@ != "first_tags"@);
    assert("expedite_times"@.len() != "extra_tags_mode"@.len());
    assert("expedite_times"@ != "extra_tags_mode"@);
    assert("expedite_times"@.len() != "times"@.len());
    assert("expedite_times"@ != "times"@);
    assert("expedite_times"@.len() != "set_time"@.len());
    assert("expedite_times"@ != "set_time"@);
    assert("expedite_times"@.len() != "expedite"@.len());
    assert("expedite_times"@ != "expedite"@);
    assert("expedite_times"@.len() != "skip_robot"@.len());
    assert("expedite_times"@ != "skip_robot"@);
    assert("expedite_times"@.len() != "recruitment_time"@.len());
    assert("expedite_times"@ != "recruitment_time"@);
    assert("expedite_times"@.len() != "report_to_penguin"@.len());
    assert("expedite_times"@ != "report_to_penguin"@);
    assert("expedite_times"@.len() != "penguin_id"@.len());
    assert("expedite_times"@ != "penguin_id"@);
    assert("expedite_times"@.len() != "report_to_yituliu"@.len());
    assert("expedite_times"@ != "report_to_yituliu"@);
    assert("expedite_times"@.len() != "yituliu_id"@.len());
    assert("expedite_times"@ != "yituliu_id"@);
    assert("expedite_times"@.len() != "server"@.len());
    assert("expedite_times"@ != "server"@);
    let b1 = b_opt_bool("enable"@, t.enable);
    let b2 = b_opt_bool("refresh"@, t.refresh);
    let b3 = b_int_list("select"@, t.select@);
    let b4 = b_int_list("confirm"@, t.confirm@);
    let b5 = b_opt_str_list("first_tags"@, (match t.first_tags { Option::None => Option::None, Option::Some(l) => Option::Some(strs_view(l@)) }));
    let b6 = b_opt_int("extra_tags_mode"@, t.extra_tags_mode);
    let b7 = b_opt_int("times"@, t.times);
    let b8 = b_opt_bool("set_time"@, t.set_time);
    let b9 = b_opt_bool("expedite"@, t.expedite);
    let b10 = b_opt_int("expedite_times"@, t.expedite_times);
    let b11 = b_opt_bool("skip_robot"@, t.skip_robot);
    let b12 = b_opt_int_map("recruitment_time"@, (match t.recruitment_time { Option::None => Option::None, Option::Some(m) => Option::Some(ipairs_view(m@)) }));
    let b13 = b_opt_bool("report_to_penguin"@, t.report_to_penguin);
    let b14 = b_opt_str("penguin_id"@, opt_str_view(t.penguin_id));
    let b15 = b_opt_bool("report_to_yituliu"@, t.report_to_yituliu);
    let b16 = b_opt_str("yituliu_id"@, opt_str_view(t.yituliu_id));
    let b17 = b_opt_str("server"@, opt_str_view(t.server));
    let p1 = b1;
    let p2 = p1 + b2;
    let p3 = p2 + b3;
    let p4 = p3 + b4;
    let p5 = p4 + b5;
    let p6 = p5 + b6;
    let p7 = p6 + b7;
    let p8 = p7 + b8;
    let p9 = p8 + b9;
    let p10 = p9 + b10;
    let p11 = p10 + b11;
    let p12 = p11 + b12;
    let p13 = p12 + b13;
    let p14 = p13 + b14;
    let p15 = p14 + b15;
    let p16 = p15 + b16;
    let p17 = p16 + b17;
    assert(recruit_pairs(t) == p17);
    lemma_doc_get_block(b1, "expedite_times"@);
    lemma_doc_get_block(b2, "expedite_times"@);
    lemma_doc_get_block(b3, "expedite_times"@);
    lemma_doc_get_block(b4, "expedite_times"@);
    lemma_doc_get_block(b5, "expedite_times"@);
    lemma_doc_get_block(b6, "expedite_times"@);
    lemma_doc_get_block(b7, "expedite_times"@);
    lemma_doc_get_block(b8, "expedite_times"@);
    lemma_doc_get_block(b9, "expedite_times"@);
    lemma_doc_get_block(b10, "expedite_times"@);
    lemma_doc_get_block(b11, "expedite_times"@);
    lemma_doc_get_block(b12, "expedite_times"@);
    lemma_doc_get_block(b13, "expedite_times"@);
    lemma_doc_get_block(b14, "expedite_times"@);
    lemma_doc_get_block(b15, "expedite_times"@);
    lemma_doc_get_block(b16, "expedite_times"@);
    lemma_doc_get_block(b17, "expedite_times"@);
    lemma_doc_get_concat(p16, b17, "expedite_times"@);
    lemma_doc_get_concat(p15, b16, "expedite_times"@);
    lemma_doc_get_concat(p14, b15, "expedite_times"@);
    lemma_doc_get_concat(p13, b14, "expedite_times"@);
    lemma_doc_get_concat(p12, b13, "expedite_times"@);
    lemma_doc_get_concat(p11, b12, "expedite_times"@);
    lemma_doc_get_concat(p10, b11, "expedite_times"@);
    lemma_doc_get_concat(p9, b10, "expedite_times"@);
    lemma_doc_get_concat(p8, b9, "expedite_times"@);
    lemma_doc_get_concat(p7, b8, "expedite_times"@);
    lemma_doc_get_concat(p6, b7, "expedite_times"@);
    lemma_doc_get_concat(p5, b6, "expedite_times"@);
    lemma_doc_get_concat(p4, b5, "expedite_times"@);
    lemma_doc_get_concat(p3, b4, "expedite_times"@);
    lemma_doc_get_concat(p2, b3, "expedite_times"@);
    lemma_doc_get_concat(p1, b2, "expedite_times"@);
}

/// What lookup of `skip_robot` finds in the members of a Recruit task.
proof fn recruit_get_skip_robot(t: RecruitTask)
    ensures
        doc_get(recruit_pairs(t), "skip_robot"@) == (match t.skip_robot { Option::None => Option::<JsonV>::None, Option::Some(b) => Option::Some(JsonV::Sc(ScalarV::Bool(b))) }),
{
    reveal_strlit("enable");
    reveal_strlit("refresh");
    reveal_strlit("select");
    reveal_strlit("confirm");
    reveal_strlit("first_tags");
    reveal_strlit("extra_tags_mode");
    reveal_strlit("times");
    reveal_strlit("set_time");
    reveal_strlit("expedite");
    reveal_strlit("expedite_times");
    reveal_strlit("skip_robot");
    reveal_strlit("recruitment_time");
    reveal_strlit("report_to_penguin");
    reveal_strlit("penguin_id");
    reveal_strlit("report_to_yituliu");
    reveal_strlit("yituliu_id");
    reveal_strlit("server");
    assert("skip_robot"@.len() != "enable"@.len());
    assert("skip_robot"@ != "enable"@);
    assert("skip_robot"@.len() != "refresh"@.len());
    assert("skip_robot"@ != "refresh"@);
    assert("skip_robot"@.len() != "select"@.len());
    assert("skip_robot"@ != "select"@);
    assert("skip_robot"@.len() != "confirm"@.len());
    assert("skip_robot"@ != "confirm"@);
    assert("skip_robot"@[0] != "first_tags"@[0]);
    assert("skip_robot"@ != "first_tags"@);
    assert("skip_robot"@.len() != "extra_tags_mode"@.len());
    assert("skip_robot"@ != "extra_tags_mode"@);
    assert("skip_robot"@.len() != "times"@.len());
    assert("skip_robot"@ != "times"@);
    assert("skip_robot"@.len() != "set_time"@.len());
    assert("skip_robot"@ != "set_time"@);
    assert("skip_robot"@.len() != "expedite"@.len());
    assert("skip_robot"@ != "expedite"@);
    assert("skip_robot"@.len() != "expedite_times"@.len());
    assert("skip_robot"@ != "expedite_times"@);
    assert("skip_robot"@.len() != "recruitment_time"@.len());
    assert("skip_robot"@ != "recruitment_time"@);
    assert("skip_robot"@.len() != "report_to_penguin"@.len());
    assert("skip_robot"@ != "report_to_penguin"@);
    assert("skip_robot"@[0] != "penguin_id"@[0]);
    assert("skip_robot"@ != "penguin_id"@);
    assert("skip_robot"@.len() != "report_to_yituliu"@.len());
    assert("skip_robot"@ != "report_to_yituliu"@);
    assert("skip_robot"@[0] != "yituliu_id"@[0]);
    assert("skip_robot"@ != "yituliu_id"@);
    assert("skip_robot"@.len() != "server"@.len());
    assert("skip_robot"@ != "server"@);
    let b1 = b_opt_bool("enable"@, t.enable);
    let b2 = b_opt_bool("refresh"@, t.refresh);
    let b3 = b_int_list("select"@, t.select@);
    let b4 = b_int_list("confirm"@, t.confirm@);
    let b5 = b_opt_str_list("first_tags"@, (match t.first_tags { Option::None => Option::None, Option::Some(l) => Option::Some(strs_view(l@)) }));
    let b6 = b_opt_int("extra_tags_mode"@, t.extra_tags_mode);
    let b7 = b_opt_int("times"@, t.times);
    let b8 = b_opt_bool("set_time"@, t.set_time);
    let b9 = b_opt_bool("expedite"@, t.expedite);
    let b10 = b_opt_int("expedite_times"@, t.expedite_times);
    let b11 = b_opt_bool("skip_robot"@, t.skip_robot);
    let b12 = b_opt_int_map("recruitment_time"@, (match t.recruitment_time { Option::None => Option::None, Option::Some(m) => Option::Some(ipairs_view(m@)) }));
    let b13 = b_opt_bool("report_to_penguin"@, t.report_to_penguin);
    let b14 = b_opt_str("penguin_id"@, opt_str_view(t.penguin_id));
    let b15 = b_opt_bool("report_to_yituliu"@, t.report_to_yituliu);
    let b16 = b_opt_str("yituliu_id"@, opt_str_view(t.yituliu_id));
    let b17 = b_opt_str("server"@, opt_str_view(t.server));
    let p1 = b1;
    let p2 = p1 + b2;
    let p3 = p2 + b3;
    let p4 = p3 + b4;
    let p5 = p4 + b5;
    let p6 = p5 + b6;
    let p7 = p6 + b7;
    let p8 = p7 + b8;
    let p9 = p8 + b9;
    let p10 = p9 + b10;
    let p11 = p10 + b11;
    let p12 = p11 + b12;
    let p13 = p12 + b13;
    let p14 = p13 + b14;
    let p15 = p14 + b15;
    let p16 = p15 + b16;
    let p17 = p16 + b17;
    assert(recruit_pairs(t) == p17);
    lemma_doc_get_block(b1, "skip_robot"@);
    lemma_doc_get_block(b2, "skip_robot"@);
    lemma_doc_get_block(b3, "skip_robot"@);
    lemma_doc_get_block(b4, "skip_robot"@);
    lemma_doc_get_block(b5, "skip_robot"@);
    lemma_doc_get_block(b6, "skip_robot"@);
    lemma_doc_get_block(b7, "skip_robot"@);
    lemma_doc_get_block(b8, "skip_robot"@);
    lemma_doc_get_block(b9, "skip_robot"@);
    lemma_doc_get_block(b10, "skip_robot"@);
    lemma_doc_get_block(b11, "skip_robot"@);
    lemma_doc_get_block(b12, "skip_robot"@);
    lemma_doc_get_block(b13, "skip_robot"@);
    lemma_doc_get_block(b14, "skip_robot"@);
    lemma_doc_get_block(b15, "skip_robot"@);
    lemma_doc_get_block(b16, "skip_robot"@);
    lemma_doc_get_block(b17, "skip_robot"@);
    lemma_doc_get_concat(p16, b17, "skip_robot"@);
    lemma_doc_get_concat(p15, b16, "skip_robot"@);
    lemma_doc_get_concat(p14, b15, "skip_robot"@);
    lemma_doc_get_concat(p13, b14, "skip_robot"@);
    lemma_doc_get_concat(p12, b13, "skip_robot"@);
    lemma_doc_get_concat(p11, b12, "skip_robot"@);
    lemma_doc_get_concat(p10, b11, "skip_robot"@);
    lemma_doc_get_concat(p9, b10, "skip_robot"@);
    lemma_doc_get_concat(p8, b9, "skip_robot"@);
    lemma_doc_get_concat(p7, b8, "skip_robot"@);
    lemma_doc_get_concat(p6, b7, "skip_robot"@);
    lemma_doc_get_concat(p5, b6, "skip_robot"@);
    lemma_doc_get_concat(p4, b5, "skip_robot"@);
    lemma_doc_get_concat(p3, b4, "skip_robot"@);
    lemma_doc_get_concat(p2, b3, "skip_robot"@);
    lemma_doc_get_concat(p1, b2, "skip_robot"@);
}

/// What lookup of `recruitment_time` finds in the members of a Recruit task.
proof fn recruit_get_recruitment_time(t: RecruitTask)
    ensures
        doc_get(recruit_pairs(t), "recruitment_time"@) == (match t.recruitment_time { Option::None => Option::<JsonV>::None, Option::Some(m) => Option::Some(JsonV::Obj(jv_int_map(ipairs_view(m@)))) }),
{
    reveal_strlit("enable");
    reveal_strlit("refresh");
    reveal_strlit("select");
    reveal_strlit("confirm");
    reveal_strlit("first_tags");
    reveal_strlit("extra_tags_mode");
    reveal_strlit("times");
    reveal_strlit("set_time");
    reveal_strlit("expedite");
    reveal_strlit("expedite_times");
    reveal_strlit("skip_robot");
    reveal_strlit("recruitment_time");
    reveal_strlit("report_to_penguin");
    reveal_strlit("penguin_id");
    reveal_strlit("report_to_yituliu");
    reveal_strlit("yituliu_id");
    reveal_strlit("server");
    assert("recruitment_time"@.len() != "enable"@.len());
    assert("recruitment_time"@ != "enable"@);
    assert("recruitment_time"@.len() != "refresh"@.len());
    assert("recruitment_time"@ != "refresh"@);
    assert("recruitment_time"@.len() != "select"@.len());
    assert("recruitment_time"@ != "select"@);
    assert("recruitment_time"@.len() != "confirm"@.len());
    assert("recruitment_time"@ != "confirm"@);
    assert("recruitment_time"@.len() != "first_tags"@.len());
    assert("recruitment_time"@ != "first_tags"@);
    assert("recruitment_time"@.len() != "extra_tags_mode"@.len());
    assert("recruitment_time"@ != "extra_tags_mode"@);
    assert("recruitment_time"@.len() != "times"@.len());
    assert("recruitment_time"@ != "times"@);
    assert("recruitment_time"@.len() != "set_time"@.len());
    assert("recruitment_time"@ != "set_time"@);
    assert("recruitment_time"@.len() != "expedite"@.len());
    assert("recruitment_time"@ != "expedite"@);
    assert("recruitment_time"@.len() != "expedite_times"@.len());
    assert("recruitment_time"@ != "expedite_times"@);
    assert("recruitment_time"@.len() != "skip_robot"@.len());
    assert("recruitment_time"@ != "skip_robot"@);
    assert("recruitment_time"@.len() != "report_to_penguin"@.len());
    assert("recruitment_time"@ != "report_to_penguin"@);
    assert("recruitment_time"@.len() != "penguin_id"@.len());
    assert("recruitment_time"@ != "penguin_id"@);
    assert("recruitment_time"@.len() != "report_to_yituliu"@.len());
    assert("recruitment_time"@ != "report_to_yituliu"@);
    assert("recruitment_time"@.len() != "yituliu_id"@.len());
    assert("recruitment_time"@ != "yituliu_id"@);
    assert("recruitment_time"@.len() != "server"@.len());
    assert("recruitment_time"@ != "server"@);
    let b1 = b_opt_bool("enable"@, t.enable);
    let b2 = b_opt_bool("refresh"@, t.refresh);
    let b3 = b_int_list("select"@, t.select@);
    let b4 = b_int_list("confirm"@, t.confirm@);
    let b5 = b_opt_str_list("first_tags"@, (match t.first_tags { Option::None => Option::None, Option::Some(l) => Option::Some(strs_view(l@)) }));
    let b6 = b_opt_int("extra_tags_mode"@, t.extra_tags_mode);
    let b7 = b_opt_int("times"@, t.times);
    let b8 = b_opt_bool("set_time"@, t.set_time);
    let b9 = b_opt_bool("expedite"@, t.expedite);
    let b10 = b_opt_int("expedite_times"@, t.expedite_times);
    let b11 = b_opt_bool("skip_robot"@, t.skip_robot);
    let b12 = b_opt_int_map("recruitment_time"@, (match t.recruitment_time { Option::None => Option::None, Option::Some(m) => Option::Some(ipairs_view(m@)) }));
    let b13 = b_opt_bool("report_to_penguin"@, t.report_to_penguin);
    let b14 = b_opt_str("penguin_id"@, opt_str_view(t.penguin_id));
    let b15 = b_opt_bool("report_to_yituliu"@, t.report_to_yituliu);
    let b16 = b_opt_str("yituliu_id"@, opt_str_view(t.yituliu_id));
    let b17 = b_opt_str("server"@, opt_str_view(t.server));
    let p1 = b1;
    let p2 = p1 + b2;
    let p3 = p2 + b3;
    let p4 = p3 + b4;
    let p5 = p4 + b5;
    let p6 = p5 + b6;
    let p7 = p6 + b7;
    let p8 = p7 + b8;
    let p9 = p8 + b9;
    let p10 = p9 + b10;
    let p11 = p10 + b11;
    let p12 = p11 + b12;
    let p13 = p12 + b13;
    let p14 = p13 + b14;
    let p15 = p14 + b15;
    let p16 = p15 + b16;
    let p17 = p16 + b17;
    assert(recruit_pairs(t) == p17);
    lemma_doc_get_block(b1, "recruitment_time"@);
    lemma_doc_get_block(b2, "recruitment_time"@);
    lemma_doc_get_block(b3, "recruitment_time"@);
    lemma_doc_get_block(b4, "recruitment_time"@);
    lemma_doc_get_block(b5, "recruitment_time"@);
    lemma_doc_get_block(b6, "recruitment_time"@);
    lemma_doc_get_block(b7, "recruitment_time"@);
    lemma_doc_get_block(b8, "recruitment_time"@);
    lemma_doc_get_block(b9, "recruitment_time"@);
    lemma_doc_get_block(b10, "recruitment_time"@);
    lemma_doc_get_block(b11, "recruitment_time"@);
    lemma_doc_get_block(b12, "recruitment_time"@);
    lemma_doc_get_block(b13, "recruitment_time"@);
    lemma_doc_get_block(b14, "recruitment_time"@);
    lemma_doc_get_block(b15, "recruitment_time"@);
    lemma_doc_get_block(b16, "recruitment_time"@);
    lemma_doc_get_block(b17, "recruitment_time"@);
    lemma_doc_get_concat(p16, b17, "recruitment_time"@);
    lemma_doc_get_concat(p15, b16, "recruitment_time"@);
    lemma_doc_get_concat(p14, b15, "recruitment_time"@);
    lemma_doc_get_concat(p13, b14, "recruitment_time"@);
    lemma_doc_get_concat(p12, b13, "recruitment_time"@);
    lemma_doc_get_concat(p11, b12, "recruitment_time"@);
    lemma_doc_get_concat(p10, b11, "recruitment_time"@);
    lemma_doc_get_concat(p9, b10, "recruitment_time"@);
    lemma_doc_get_concat(p8, b9, "recruitment_time"@);
    lemma_doc_get_concat(p7, b8, "recruitment_time"@);
    lemma_doc_get_concat(p6, b7, "recruitment_time"@);
    lemma_doc_get_concat(p5, b6, "recruitment_time"@);
    lemma_doc_get_concat(p4, b5, "recruitment_time"@);
    lemma_doc_get_concat(p3, b4, "recruitment_time"@);
    lemma_doc_get_concat(p2, b3, "recruitment_time"@);
    lemma_doc_get_concat(p1, b2, "recruitment_time"@);
}

/// What lookup of `report_to_penguin` finds in the members of a Recruit task.
proof fn recruit_get_report_to_penguin(t: RecruitTask)
    ensures
        doc_get(recruit_pairs(t), "report_to_penguin"@) == (match t.report_to_penguin { Option::None => Option::<JsonV>::None, Option::Some(b) => Option::Some(JsonV::Sc(ScalarV::Bool(b))) }),
{
    reveal_strlit("enable");
    reveal_strlit("refresh");
    reveal_strlit("select");
    reveal_strlit("confirm");
    reveal_strlit("first_tags");
    reveal_strlit("extra_tags_mode");
    reveal_strlit("times");
    reveal_strlit("set_time");
    reveal_strlit("expedite");
    reveal_strlit("expedite_times");
    reveal_strlit("skip_robot");
    reveal_strlit("recruitment_time");
    reveal_strlit("report_to_penguin");
    reveal_strlit("penguin_id");
    reveal_strlit("report_to_yituliu");
    reveal_strlit("yituliu_id");
    reveal_strlit("server");
    assert("report_to_penguin"@.len() != "enable"@.len());
    assert("report_to_penguin"@ != "enable"@);
    assert("report_to_penguin"@.len() != "refresh"@.len());
    assert("report_to_penguin"@ != "refresh"@);
    assert("report_to_penguin"@.len() != "select"@.len());
    assert("report_to_penguin"@ != "select"@);
    assert("report_to_penguin"@.len() != "confirm"@.len());
    assert("report_to_penguin"@ != "confirm"@);
    assert("report_to_penguin"@.len() != "first_tags"@.len());
    assert("report_to_penguin"@ != "first_tags"@);
    assert("report_to_penguin"@.len() != "extra_tags_mode"@.len());
    assert("report_to_penguin"@ != "extra_tags_mode"@);
    assert("report_to_penguin"@.len() != "times"@.len());
    assert("report_to_penguin"@ != "times"@);
    assert("report_to_penguin"@.len() != "set_time"@.len());
    assert("report_to_penguin"@ != "set_time"@);
    assert("report_to_penguin"@.len() != "expedite"@.len());
    assert("report_to_penguin"@ != "expedite"@);
    assert("report_to_penguin"@.len() != "expedite_times"@.len());
    assert("report_to_penguin"@ != "expedite_times"@);
    assert("report_to_penguin"@.len() != "skip_robot"@.len());
    assert("report_to_penguin"@ != "skip_robot"@);
    assert("report_to_penguin"@.len() != "recruitment_time"@.len());
    assert("report_to_penguin"@ != "recruitment_time"@);
    assert("report_to_penguin"@.len() != "penguin_id"@.len());
    assert("report_to_penguin"@ != "penguin_id"@);
    assert("report_to_penguin"@[10] != "report_to_yituliu"@[10]);
    assert("report_to_penguin"@ != "report_to_yituliu"@);
    assert("report_to_penguin"@.len() != "yituliu_id"@.len());
    assert("report_to_penguin"@ != "yituliu_id"@);
    assert("report_to_penguin"@.len() != "server"@.len());
    assert("report_to_penguin"@ != "server"@);
    let b1 = b_opt_bool("enable"@, t.enable);
    let b2 = b_opt_bool("refresh"@, t.refresh);
    let b3 = b_int_list("select"@, t.select@);
    let b4 = b_int_list("confirm"@, t.confirm@);
    let b5 = b_opt_str_list("first_tags"@, (match t.first_tags { Option::None => Option::None, Option::Some(l) => Option::Some(strs_view(l@)) }));
    let b6 = b_opt_int("extra_tags_mode"@, t.extra_tags_mode);
    let b7 = b_opt_int("times"@, t.times);
    let b8 = b_opt_bool("set_time"@, t.set_time);
    let b9 = b_opt_bool("expedite"@, t.expedite);
    let b10 = b_opt_int("expedite_times"@, t.expedite_times);
    let b11 = b_opt_bool("skip_robot"@, t.skip_robot);
    let b12 = b_opt_int_map("recruitment_time"@, (match t.recruitment_time { Option::None => Option::None, Option::Some(m) => Option::Some(ipairs_view(m@)) }));
    let b13 = b_opt_bool("report_to_penguin"@, t.report_to_penguin);
    let b14 = b_opt_str("penguin_id"@, opt_str_view(t.penguin_id));
    let b15 = b_opt_bool("report_to_yituliu"@, t.report_to_yituliu);
    let b16 = b_opt_str("yituliu_id"@, opt_str_view(t.yituliu_id));
    let b17 = b_opt_str("server"@, opt_str_view(t.server));
    let p1 = b1;
    let p2 = p1 + b2;
    let p3 = p2 + b3;
    let p4 = p3 + b4;
    let p5 = p4 + b5;
    let p6 = p5 + b6;
    let p7 = p6 + b7;
    let p8 = p7 + b8;
    let p9 = p8 + b9;
    let p10 = p9 + b10;
    let p11 = p10 + b11;
    let p12 = p11 + b12;
    let p13 = p12 + b13;
    let p14 = p13 + b14;
    let p15 = p14 + b15;
    let p16 = p15 + b16;
    let p17 = p16 + b17;
    assert(recruit_pairs(t) == p17);
    lemma_doc_get_block(b1, "report_to_penguin"@);
    lemma_doc_get_block(b2, "report_to_penguin"@);
    lemma_doc_get_block(b3, "report_to_penguin"@);
    lemma_doc_get_block(b4, "report_to_penguin"@);
    lemma_doc_get_block(b5, "report_to_penguin"@);
    lemma_doc_get_block(b6, "report_to_penguin"@);
    lemma_doc_get_block(b7, "report_to_penguin"@);
    lemma_doc_get_block(b8, "report_to_penguin"@);
    lemma_doc_get_block(b9, "report_to_penguin"@);
    lemma_doc_get_block(b10, "report_to_penguin"@);
    lemma_doc_get_block(b11, "report_to_penguin"@);
    lemma_doc_get_block(b12, "report_to_penguin"@);
    lemma_doc_get_block(b13, "report_to_penguin"@);
    lemma_doc_get_block(b14, "report_to_penguin"@);
    lemma_doc_get_block(b15, "report_to_penguin"@);
    lemma_doc_get_block(b16, "report_to_penguin"@);
    lemma_doc_get_block(b17, "report_to_penguin"@);
    lemma_doc_get_concat(p16, b17, "report_to_penguin"@);
    lemma_doc_get_concat(p15, b16, "report_to_penguin"@);
    lemma_doc_get_concat(p14, b15, "report_to_penguin"@);
    lemma_doc_get_concat(p13, b14, "report_to_penguin"@);
    lemma_doc_get_concat(p12, b13, "report_to_penguin"@);
    lemma_doc_get_concat(p11, b12, "report_to_penguin"@);
    lemma_doc_get_concat(p10, b11, "report_to_penguin"@);
    lemma_doc_get_concat(p9, b10, "report_to_penguin"@);
    lemma_doc_get_concat(p8, b9, "report_to_penguin"@);
    lemma_doc_get_concat(p7, b8, "report_to_penguin"@);
    lemma_doc_get_concat(p6, b7, "report_to_penguin"@);
    lemma_doc_get_concat(p5, b6, "report_to_penguin"@);
    lemma_doc_get_concat(p4, b5, "report_to_penguin"@);
    lemma_doc_get_concat(p3, b4, "report_to_penguin"@);
    lemma_doc_get_concat(p2, b3, "report_to_penguin"@);
    lemma_doc_get_concat(p1, b2, "report_to_penguin"@);
}

/// What lookup of `penguin_id` finds in the members of a Recruit task.
proof fn recruit_get_penguin_id(t: RecruitTask)
    ensures
        doc_get(recruit_pairs(t), "penguin_id"@) == (match t.penguin_id { Option::None => Option::<JsonV>::None, Option::Some(s) => Option::Some(JsonV::Sc(ScalarV::Str(s@))) }),
{
    reveal_strlit("enable");
    reveal_strlit("refresh");
    reveal_strlit("select");
    reveal_strlit("confirm");
    reveal_strlit("first_tags");
    reveal_strlit("extra_tags_mode");
    reveal_strlit("times");
    reveal_strlit("set_time");
    reveal_strlit("expedite");
    reveal_strlit("expedite_times");
    reveal_strlit("skip_robot");
    reveal_strlit("recruitment_time");
    reveal_strlit("report_to_penguin");
    reveal_strlit("penguin_id");
    reveal_strlit("report_to_yituliu");
    reveal_strlit("yituliu_id");
    reveal_strlit("server");
    assert("penguin_id"@.len() != "enable"@.len());
    assert("penguin_id"@ != "enable"@);
    assert("penguin_id"@.len() != "refresh"@.len());
    assert("penguin_id"@ != "refresh"@);
    assert("penguin_id"@.len() != "select"@.len());
    assert("penguin_id"@ != "select"@);
    assert("penguin_id"@.len() != "confirm"@.len());
    assert("penguin_id"@ != "confirm"@);
    assert("penguin_id"@[0] != "first_tags"@[0]);
    assert("penguin_id"@ != "first_tags"@);
    assert("penguin_id"@.len() != "extra_tags_mode"@.len());
    assert("penguin_id"@ != "extra_tags_mode"@);
    assert("penguin_id"@.len() != "times"@.len());
    assert("penguin_id"@ != "times"@);
    assert("penguin_id"@.len() != "set_time"@.len());
    assert("penguin_id"@ != "set_time"@);
    assert("penguin_id"@.len() != "expedite"@.len());
    assert("penguin_id"@ != "expedite"@);
    assert("penguin_id"@.len() != "expedite_times"@.len());
    assert("penguin_id"@ != "expedite_times"@);
    assert("penguin_id"@[0] != "skip_robot"@[0]);
    assert("penguin_id"@ != "skip_robot"@);
    assert("penguin_id"@.len() != "recruitment_time"@.len());
    assert("penguin_id"@ != "recruitment_time"@);
    assert("penguin_id"@.len() != "report_to_penguin"@.len());
    assert("penguin_id"@ != "report_to_penguin"@);
    assert("penguin_id"@.len() != "report_to_yituliu"@.len());
    assert("penguin_id"@ != "report_to_yituliu"@);
    assert("penguin_id"@[0] != "yituliu_id"@[0]);
    assert("penguin_id"@ != "yituliu_id"@);
    assert("penguin_id"@.len() != "server"@.len());
    assert("penguin_id"@ != "server"@);
    let b1 = b_opt_bool("enable"@, t.enable);
    let b2 = b_opt_bool("refresh"@, t.refresh);
    let b3 = b_int_list("select"@, t.select@);
    let b4 = b_int_list("confirm"@, t.confirm@);
    let b5 = b_opt_str_list("first_tags"@, (match t.first_tags { Option::None => Option::None, Option::Some(l) => Option::Some(strs_view(l@)) }));
    let b6 = b_opt_int("extra_tags_mode"@, t.extra_tags_mode);
    let b7 = b_opt_int("times"@, t.times);
    let b8 = b_opt_bool("set_time"@, t.set_time);
    let b9 = b_opt_bool("expedite"@, t.expedite);
    let b10 = b_opt_int("expedite_times"@, t.expedite_times);
    let b11 = b_opt_bool("skip_robot"@, t.skip_robot);
    let b12 = b_opt_int_map("recruitment_time"@, (match t.recruitment_time { Option::None => Option::None, Option::Some(m) => Option::Some(ipairs_view(m@)) }));
    let b13 = b_opt_bool("report_to_penguin"@, t.report_to_penguin);
    let b14 = b_opt_str("penguin_id"@, opt_str_view(t.penguin_id));
    let b15 = b_opt_bool("report_to_yituliu"@, t.report_to_yituliu);
    let b16 = b_opt_str("yituliu_id"@, opt_str_view(t.yituliu_id));
    let b17 = b_opt_str("server"@, opt_str_view(t.server));
    let p1 = b1;
    let p2 = p1 + b2;
    let p3 = p2 + b3;
    let p4 = p3 + b4;
    let p5 = p4 + b5;
    let p6 = p5 + b6;
    let p7 = p6 + b7;
    let p8 = p7 + b8;
    let p9 = p8 + b9;
    let p10 = p9 + b10;
    let p11 = p10 + b11;
    let p12 = p11 + b12;
    let p13 = p12 + b13;
    let p14 = p13 + b14;
    let p15 = p14 + b15;
    let p16 = p15 + b16;
    let p17 = p16 + b17;
    assert(recruit_pairs(t) == p17);
    lemma_doc_get_block(b1, "penguin_id"@);
    lemma_doc_get_block(b2, "penguin_id"@);
    lemma_doc_get_block(b3, "penguin_id"@);
    lemma_doc_get_block(b4, "penguin_id"@);
    lemma_doc_get_block(b5, "penguin_id"@);
    lemma_doc_get_block(b6, "penguin_id"@);
    lemma_doc_get_block(b7, "penguin_id"@);
    lemma_doc_get_block(b8, "penguin_id"@);
    lemma_doc_get_block(b9, "penguin_id"@);
    lemma_doc_get_block(b10, "penguin_id"@);
    lemma_doc_get_block(b11, "penguin_id"@);
    lemma_doc_get_block(b12, "penguin_id"@);
    lemma_doc_get_block(b13, "penguin_id"@);
    lemma_doc_get_block(b14, "penguin_id"@);
    lemma_doc_get_block(b15, "penguin_id"@);
    lemma_doc_get_block(b16, "penguin_id"@);
    lemma_doc_get_block(b17, "penguin_id"@);
    lemma_doc_get_concat(p16, b17, "penguin_id"@);
    lemma_doc_get_concat(p15, b16, "penguin_id"@);
    lemma_doc_get_concat(p14, b15, "penguin_id"@);
    lemma_doc_get_concat(p13, b14, "penguin_id"@);
    lemma_doc_get_concat(p12, b13, "penguin_id"@);
    lemma_doc_get_concat(p11, b12, "penguin_id"@);
    lemma_doc_get_concat(p10, b11, "penguin_id"@);
    lemma_doc_get_concat(p9, b10, "penguin_id"@);
    lemma_doc_get_concat(p8, b9, "penguin_id"@);
    lemma_doc_get_concat(p7, b8, "penguin_id"@);
    lemma_doc_get_concat(p6, b7, "penguin_id"@);
    lemma_doc_get_concat(p5, b6, "penguin_id"@);
    lemma_doc_get_concat(p4, b5, "penguin_id"@);
    lemma_doc_get_concat(p3, b4, "penguin_id"@);
    lemma_doc_get_concat(p2, b3, "penguin_id"@);
    lemma_doc_get_concat(p1, b2, "penguin_id"@);
}

/// What lookup of `report_to_yituliu` finds in the members of a Recruit task.
proof fn recruit_get_report_to_yituliu(t: RecruitTask)
    ensures
        doc_get(recruit_pairs(t), "report_to_yituliu"@) == (match t.report_to_yituliu { Option::None => Option::<JsonV>::None, Option::Some(b) => Option::Some(JsonV::Sc(ScalarV::Bool(b))) }),
{
    reveal_strlit("enable");
    reveal_strlit("refresh");
    reveal_strlit("select");
    reveal_strlit("confirm");
    reveal_strlit("first_tags");
    reveal_strlit("extra_tags_mode");
    reveal_strlit("times");
    reveal_strlit("set_time");
    reveal_strlit("expedite");
    reveal_strlit("expedite_times");
    reveal_strlit("skip_robot");
    reveal_strlit("recruitment_time");
    reveal_strlit("report_to_penguin");
    reveal_strlit("penguin_id");
    reveal_strlit("report_to_yituliu");
    reveal_strlit("yituliu_id");
    reveal_strlit("server");
    assert("report_to_yituliu"@.len() != "enable"@.len());
    assert("report_to_yituliu"@ != "enable"@);
    assert("report_to_yituliu"@.len() != "refresh"@.len());
    assert("report_to_yituliu"@ != "refresh"@);
    assert("report_to_yituliu"@.len() != "select"@.len());
    assert("report_to_yituliu"@ != "select"@);
    assert("report_to_yituliu"@.len() != "confirm"@.len());
    assert("report_to_yituliu"@ != "confirm"@);
    assert("report_to_yituliu"@.len() != "first_tags"@.len());
    assert("report_to_yituliu"@ != "first_tags"@);
    assert("report_to_yituliu"@.len() != "extra_tags_mode"@.len());
    assert("report_to_yituliu"@ != "extra_tags_mode"@);
    assert("report_to_yituliu"@.len() != "times"@.len());
    assert("report_to_yituliu"@ != "times"@);
    assert("report_to_yituliu"@.len() != "set_time"@.len());
    assert("report_to_yituliu"@ != "set_time"@);
    assert("report_to_yituliu"@.len() != "expedite"@.len());
    assert("report_to_yituliu"@ != "expedite"@);
    assert("report_to_yituliu"@.len() != "expedite_times"@.len());
    assert("report_to_yituliu"@ != "expedite_times"@);
    assert("report_to_yituliu"@.len() != "skip_robot"@.len());
    assert("report_to_yituliu"@ != "skip_robot"@);
    assert("report_to_yituliu"@.len() != "recruitment_time"@.len());
    assert("report_to_yituliu"@ != "recruitment_time"@);
    assert("report_to_yituliu"@[10] != "report_to_penguin"@[10]);
    assert("report_to_yituliu"@ != "report_to_penguin"@);
    assert("report_to_yituliu"@.len() != "penguin_id"@.len());
    assert("report_to_yituliu"@ != "penguin_id"@);
    assert("report_to_yituliu"@.len() != "yituliu_id"@.len());
    assert("report_to_yituliu"@ != "yituliu_id"@);
    assert("report_to_yituliu"@.len() != "server"@.len());
    assert("report_to_yituliu"@ != "server"@);
    let b1 = b_opt_bool("enable"@, t.enable);
    let b2 = b_opt_bool("refresh"@, t.refresh);
    let b3 = b_int_list("select"@, t.select@);
    let b4 = b_int_list("confirm"@, t.confirm@);
    let b5 = b_opt_str_list("first_tags"@, (match t.first_tags { Option::None => Option::None, Option::Some(l) => Option::Some(strs_view(l@)) }));
    let b6 = b_opt_int("extra_tags_mode"@, t.extra_tags_mode);
    let b7 = b_opt_int("times"@, t.times);
    let b8 = b_opt_bool("set_time"@, t.set_time);
    let b9 = b_opt_bool("expedite"@, t.expedite);
    let b10 = b_opt_int("expedite_times"@, t.expedite_times);
    let b11 = b_opt_bool("skip_robot"@, t.skip_robot);
    let b12 = b_opt_int_map("recruitment_time"@, (match t.recruitment_time { Option::None => Option::None, Option::Some(m) => Option::Some(ipairs_view(m@)) }));
    let b13 = b_opt_bool("report_to_penguin"@, t.report_to_penguin);
    let b14 = b_opt_str("penguin_id"@, opt_str_view(t.penguin_id));
    let b15 = b_opt_bool("report_to_yituliu"@, t.report_to_yituliu);
    let b16 = b_opt_str("yituliu_id"@, opt_str_view(t.yituliu_id));
    let b17 = b_opt_str("server"@, opt_str_view(t.server));
    let p1 = b1;
    let p2 = p1 + b2;
    let p3 = p2 + b3;
    let p4 = p3 + b4;
    let p5 = p4 + b5;
    let p6 = p5 + b6;
    let p7 = p6 + b7;
    let p8 = p7 + b8;
    let p9 = p8 + b9;
    let p10 = p9 + b10;
    let p11 = p10 + b11;
    let p12 = p11 + b12;
    let p13 = p12 + b13;
    let p14 = p13 + b14;
    let p15 = p14 + b15;
    let p16 = p15 + b16;
    let p17 = p16 + b17;
    assert(recruit_pairs(t) == p17);
    lemma_doc_get_block(b1, "report_to_yituliu"@);
    lemma_doc_get_block(b2, "report_to_yituliu"@);
    lemma_doc_get_block(b3, "report_to_yituliu"@);
    lemma_doc_get_block(b4, "report_to_yituliu"@);
    lemma_doc_get_block(b5, "report_to_yituliu"@);
    lemma_doc_get_block(b6, "report_to_yituliu"@);
    lemma_doc_get_block(b7, "report_to_yituliu"@);
    lemma_doc_get_block(b8, "report_to_yituliu"@);
    lemma_doc_get_block(b9, "report_to_yituliu"@);
    lemma_doc_get_block(b10, "report_to_yituliu"@);
    lemma_doc_get_block(b11, "report_to_yituliu"@);
    lemma_doc_get_block(b12, "report_to_yituliu"@);
    lemma_doc_get_block(b13, "report_to_yituliu"@);
    lemma_doc_get_block(b14, "report_to_yituliu"@);
    lemma_doc_get_block(b15, "report_to_yituliu"@);
    lemma_doc_get_block(b16, "report_to_yituliu"@);
    lemma_doc_get_block(b17, "report_to_yituliu"@);
    lemma_doc_get_concat(p16, b17, "report_to_yituliu"@);
    lemma_doc_get_concat(p15, b16, "report_to_yituliu"@);
    lemma_doc_get_concat(p14, b15, "report_to_yituliu"@);
    lemma_doc_get_concat(p13, b14, "report_to_yituliu"@);
    lemma_doc_get_concat(p12, b13, "report_to_yituliu"@);
    lemma_doc_get_concat(p11, b12, "report_to_yituliu"@);
    lemma_doc_get_concat(p10, b11, "report_to_yituliu"@);
    lemma_doc_get_concat(p9, b10, "report_to_yituliu"@);
    lemma_doc_get_concat(p8, b9, "report_to_yituliu"@);
    lemma_doc_get_concat(p7, b8, "report_to_yituliu"@);
    lemma_doc_get_concat(p6, b7, "report_to_yituliu"@);
    lemma_doc_get_concat(p5, b6, "report_to_yituliu"@);
    lemma_doc_get_concat(p4, b5, "report_to_yituliu"@);
    lemma_doc_get_concat(p3, b4, "report_to_yituliu"@);
    lemma_doc_get_concat(p2, b3, "report_to_yituliu"@);
    lemma_doc_get_concat(p1, b2, "report_to_yituliu"@);
}

/// What lookup of `yituliu_id` finds in the members of a Recruit task.
proof fn recruit_get_yituliu_id(t: RecruitTask)
    ensures
        doc_get(recruit_pairs(t), "yituliu_id"@) == (match t.yituliu_id { Option::None => Option::<JsonV>::None, Option::Some(s) => Option::Some(JsonV::Sc(ScalarV::Str(s@))) }),
{
    reveal_strlit("enable");
    reveal_strlit("refresh");
    reveal_strlit("select");
    reveal_strlit("confirm");
    reveal_strlit("first_tags");
    reveal_strlit("extra_tags_mode");
    reveal_strlit("times");
    reveal_strlit("set_time");
    reveal_strlit("expedite");
    reveal_strlit("expedite_times");
    reveal_strlit("skip_robot");
    reveal_strlit("recruitment_time");
    reveal_strlit("report_to_penguin");
    reveal_strlit("penguin_id");
    reveal_strlit("report_to_yituliu");
    reveal_strlit("yituliu_id");
    reveal_strlit("server");
    assert("yituliu_id"@.len() != "enable"@.len());
    assert("yituliu_id"@ != "enable"@);
    assert("yituliu_id"@.len() != "refresh"@.len());
    assert("yituliu_id"@ != "refresh"@);
    assert("yituliu_id"@.len() != "select"@.len());
    assert("yituliu_id"@ != "select"@);
    assert("yituliu_id"@.len() != "confirm"@.len());
    assert("yituliu_id"@ != "confirm"@);
    assert("yituliu_id"@[0] != "first_tags"@[0]);
    assert("yituliu_id"@ != "first_tags"@);
    assert("yituliu_id"@.len() != "extra_tags_mode"@.len());
    assert("yituliu_id"@ != "extra_tags_mode"@);
    assert("yituliu_id"@.len() != "times"@.len());
    assert("yituliu_id"@ != "times"@);
    assert("yituliu_id"@.len() != "set_time"@.len());
    assert("yituliu_id"@ != "set_time"@);
    assert("yituliu_id"@.len() != "expedite"@.len());
    assert("yituliu_id"@ != "expedite"@);
    assert("yituliu_id"@.len() != "expedite_times"@.len());
    assert("yituliu_id"@ != "expedite_times"@);
    assert("yituliu_id"@[0] != "skip_robot"@[0]);
    assert("yituliu_id"@ != "skip_robot"@);
    assert("yituliu_id"@.len() != "recruitment_time"@.len());
    assert("yituliu_id"@ != "recruitment_time"@);
    assert("yituliu_id"@.len() != "report_to_penguin"@.len());
    assert("yituliu_id"@ != "report_to_penguin"@);
    assert("yituliu_id"@[0] != "penguin_id"@[0]);
    assert("yituliu_id"@ != "penguin_id"@);
    assert("yituliu_id"@.len() != "report_to_yituliu"@.len());
    assert("yituliu_id"@ != "report_to_yituliu"@);
    assert("yituliu_id"@.len() != "server"@.len());
    assert("yituliu_id"@ != "server"@);
    let b1 = b_opt_bool("enable"@, t.enable);
    let b2 = b_opt_bool("refresh"@, t.refresh);
    let b3 = b_int_list("select"@, t.select@);
    let b4 = b_int_list("confirm"@, t.confirm@);
    let b5 = b_opt_str_list("first_tags"@, (match t.first_tags { Option::None => Option::None, Option::Some(l) => Option::Some(strs_view(l@)) }));
    let b6 = b_opt_int("extra_tags_mode"@, t.extra_tags_mode);
    let b7 = b_opt_int("times"@, t.times);
    let b8 = b_opt_bool("set_time"@, t.set_time);
    let b9 = b_opt_bool("expedite"@, t.expedite);
    let b10 = b_opt_int("expedite_times"@, t.expedite_times);
    let b11 = b_opt_bool("skip_robot"@, t.skip_robot);
    let b12 = b_opt_int_map("recruitment_time"@, (match t.recruitment_time { Option::None => Option::None, Option::Some(m) => Option::Some(ipairs_view(m@)) }));
    let b13 = b_opt_bool("report_to_penguin"@, t.report_to_penguin);
    let b14 = b_opt_str("penguin_id"@, opt_str_view(t.penguin_id));
    let b15 = b_opt_bool("report_to_yituliu"@, t.report_to_yituliu);
    let b16 = b_opt_str("yituliu_id"@, opt_str_view(t.yituliu_id));
    let b17 = b_opt_str("server"@, opt_str_view(t.server));
    let p1 = b1;
    let p2 = p1 + b2;
    let p3 = p2 + b3;
    let p4 = p3 + b4;
    let p5 = p4 + b5;
    let p6 = p5 + b6;
    let p7 = p6 + b7;
    let p8 = p7 + b8;
    let p9 = p8 + b9;
    let p10 = p9 + b10;
    let p11 = p10 + b11;
    let p12 = p11 + b12;
    let p13 = p12 + b13;
    let p14 = p13 + b14;
    let p15 = p14 + b15;
    let p16 = p15 + b16;
    let p17 = p16 + b17;
    assert(recruit_pairs(t) == p17);
    lemma_doc_get_block(b1, "yituliu_id"@);
    lemma_doc_get_block(b2, "yituliu_id"@);
    lemma_doc_get_block(b3, "yituliu_id"@);
    lemma_doc_get_block(b4, "yituliu_id"@);
    lemma_doc_get_block(b5, "yituliu_id"@);
    lemma_doc_get_block(b6, "yituliu_id"@);
    lemma_doc_get_block(b7, "yituliu_id"@);
    lemma_doc_get_block(b8, "yituliu_id"@);
    lemma_doc_get_block(b9, "yituliu_id"@);
    lemma_doc_get_block(b10, "yituliu_id"@);
    lemma_doc_get_block(b11, "yituliu_id"@);
    lemma_doc_get_block(b12, "yituliu_id"@);
    lemma_doc_get_block(b13, "yituliu_id"@);
    lemma_doc_get_block(b14, "yituliu_id"@);
    lemma_doc_get_block(b15, "yituliu_id"@);
    lemma_doc_get_block(b16, "yituliu_id"@);
    lemma_doc_get_block(b17, "yituliu_id"@);
    lemma_doc_get_concat(p16, b17, "yituliu_id"@);
    lemma_doc_get_concat(p15, b16, "yituliu_id"@);
    lemma_doc_get_concat(p14, b15, "yituliu_id"@);
    lemma_doc_get_concat(p13, b14, "yituliu_id"@);
    lemma_doc_get_concat(p12, b13, "yituliu_id"@);
    lemma_doc_get_concat(p11, b12, "yituliu_id"@);
    lemma_doc_get_concat(p10, b11, "yituliu_id"@);
    lemma_doc_get_concat(p9, b10, "yituliu_id"@);
    lemma_doc_get_concat(p8, b9, "yituliu_id"@);
    lemma_doc_get_concat(p7, b8, "yituliu_id"@);
    lemma_doc_get_concat(p6, b7, "yituliu_id"@);
    lemma_doc_get_concat(p5, b6, "yituliu_id"@);
    lemma_doc_get_concat(p4, b5, "yituliu_id"@);
    lemma_doc_get_concat(p3, b4, "yituliu_id"@);
    lemma_doc_get_concat(p2, b3, "yituliu_id"@);
    lemma_doc_get_concat(p1, b2, "yituliu_id"@);
}

/// What lookup of `server` finds in the members of a Recruit task.
proof fn recruit_get_server(t: RecruitTask)
    ensures
        doc_get(recruit_pairs(t), "server"@) == (match t.server { Option::None => Option::<JsonV>::None, Option::Some(s) => Option::Some(JsonV::Sc(ScalarV::Str(s@))) }),
{
    reveal_strlit("enable");
    reveal_strlit("refresh");
    reveal_strlit("select");
    reveal_strlit("confirm");
    reveal_strlit("first_tags");
    reveal_strlit("extra_tags_mode");
    reveal_strlit("times");
    reveal_strlit("set_time");
    reveal_strlit("expedite");
    reveal_strlit("expedite_times");
    reveal_strlit("skip_robot");
    reveal_strlit("recruitment_time");
    reveal_strlit("report_to_penguin");
    reveal_strlit("penguin_id");
    reveal_strlit("report_to_yituliu");
    reveal_strlit("yituliu_id");
    reveal_strlit("server");
    assert("server"@[0] != "enable"@[0]);
    assert("server"@ != "enable"@);
    assert("server"@.len() != "refresh"@.len());
    assert("server"@ != "refresh"@);
    assert("server"@[2] != "select"@[2]);
    assert("server"@ != "select"@);
    assert("server"@.len() != "confirm"@.len());
    assert("server"@ != "confirm"@);
    assert("server"@.len() != "first_tags"@.len());
    assert("server"@ != "first_tags"@);
    assert("server"@.len() != "extra_tags_mode"@.len());
    assert("server"@ != "extra_tags_mode"@);
    assert("server"@.len() != "times"@.len());
    assert("server"@ != "times"@);
    assert("server"@.len() != "set_time"@.len());
    assert("server"@ != "set_time"@);
    assert("server"@.len() != "expedite"@.len());
    assert("server"@ != "expedite"@);
    assert("server"@.len() != "expedite_times"@.len());
    assert("server"@ != "expedite_times"@);
    assert("server"@.len() != "skip_robot"@.len());
    assert("server"@ != "skip_robot"@);
    assert("server"@.len() != "recruitment_time"@.len());
    assert("server"@ != "recruitment_time"@);
    assert("server"@.len() != "report_to_penguin"@.len());
    assert("server"@ != "report_to_penguin"@);
    assert("server"@.len() != "penguin_id"@.len());
    assert("server"@ != "penguin_id"@);
    assert("server"@.len() != "report_to_yituliu"@.len());
    assert("server"@ != "report_to_yituliu"@);
    assert("server"@.len() != "yituliu_id"@.len());
    assert("server"@ != "yituliu_id"@);
    let b1 = b_opt_bool("enable"@, t.enable);
    let b2 = b_opt_bool("refresh"@, t.refresh);
    let b3 = b_int_list("select"@, t.select@);
    let b4 = b_int_list("confirm"@, t.confirm@);
    let b5 = b_opt_str_list("first_tags"@, (match t.first_tags { Option::None => Option::None, Option::Some(l) => Option::Some(strs_view(l@)) }));
    let b6 = b_opt_int("extra_tags_mode"@, t.extra_tags_mode);
    let b7 = b_opt_int("times"@, t.times);
    let b8 = b_opt_bool("set_time"@, t.set_time);
    let b9 = b_opt_bool("expedite"@, t.expedite);
    let b10 = b_opt_int("expedite_times"@, t.expedite_times);
    let b11 = b_opt_bool("skip_robot"@, t.skip_robot);
    let b12 = b_opt_int_map("recruitment_time"@, (match t.recruitment_time { Option::None => Option::None, Option::Some(m) => Option::Some(ipairs_view(m@)) }));
    let b13 = b_opt_bool("report_to_penguin"@, t.report_to_penguin);
    let b14 = b_opt_str("penguin_id"@, opt_str_view(t.penguin_id));
    let b15 = b_opt_bool("report_to_yituliu"@, t.report_to_yituliu);
    let b16 = b_opt_str("yituliu_id"@, opt_str_view(t.yituliu_id));
    let b17 = b_opt_str("server"@, opt_str_view(t.server));
    let p1 = b1;
    let p2 = p1 + b2;
    let p3 = p2 + b3;
    let p4 = p3 + b4;
    let p5 = p4 + b5;
    let p6 = p5 + b6;
    let p7 = p6 + b7;
    let p8 = p7 + b8;
    let p9 = p8 + b9;
    let p10 = p9 + b10;
    let p11 = p10 + b11;
    let p12 = p11 + b12;
    let p13 = p12 + b13;
    let p14 = p13 + b14;
    let p15 = p14 + b15;
    let p16 = p15 + b16;
    let p17 = p16 + b17;
    assert(recruit_pairs(t) == p17);
    lemma_doc_get_block(b1, "server"@);
    lemma_doc_get_block(b2, "server"@);
    lemma_doc_get_block(b3, "server"@);
    lemma_doc_get_block(b4, "server"@);
    lemma_doc_get_block(b5, "server"@);
    lemma_doc_get_block(b6, "server"@);
    lemma_doc_get_block(b7, "server"@);
    lemma_doc_get_block(b8, "server"@);
    lemma_doc_get_block(b9, "server"@);
    lemma_doc_get_block(b10, "server"@);
    lemma_doc_get_block(b11, "server"@);
    lemma_doc_get_block(b12, "server"@);
    lemma_doc_get_block(b13, "server"@);
    lemma_doc_get_block(b14, "server"@);
    lemma_doc_get_block(b15, "server"@);
    lemma_doc_get_block(b16, "server"@);
    lemma_doc_get_block(b17, "server"@);
    lemma_doc_get_concat(p16, b17, "server"@);
    lemma_doc_get_concat(p15, b16, "server"@);
    lemma_doc_get_concat(p14, b15, "server"@);
    lemma_doc_get_concat(p13, b14, "server"@);
    lemma_doc_get_concat(p12, b13, "server"@);
    lemma_doc_get_concat(p11, b12, "server"@);
    lemma_doc_get_concat(p10, b11, "server"@);
    lemma_doc_get_concat(p9, b10, "server"@);
    lemma_doc_get_concat(p8, b9, "server"@);
    lemma_doc_get_concat(p7, b8, "server"@);
    lemma_doc_get_concat(p6, b7, "server"@);
    lemma_doc_get_concat(p5, b6, "server"@);
    lemma_doc_get_concat(p4, b5, "server"@);
    lemma_doc_get_concat(p3, b4, "server"@);
    lemma_doc_get_concat(p2, b3, "server"@);
    lemma_doc_get_concat(p1, b2, "server"@);
}

/// Writing a well-formed Recruit task and reading the text back yields
/// every field unchanged.
pub proof fn lemma_recruit_round_trip(t: RecruitTask)
    requires
        recruit_well_formed(t),
    ensures
        text_to_doc(doc_text(recruit_pairs(t))) == Option::Some(recruit_pairs(t)),
        recruit_ok(recruit_pairs(t)),
        (match sget_opt_bool(recruit_pairs(t), "enable"@) {
            Result::Ok(v) => t.enable == v,
            Result::Err(_) => false,
        }),
        (match sget_opt_bool(recruit_pairs(t), "refresh"@) {
            Result::Ok(v) => t.refresh == v,
            Result::Err(_) => false,
        }),
        (match sget_int_list(recruit_pairs(t), "select"@) {
            Result::Ok(v) => t.select@ == v,
            Result::Err(_) => false,
        }),
        (match sget_int_list(recruit_pairs(t), "confirm"@) {
            Result::Ok(v) => t.confirm@ == v,
            Result::Err(_) => false,
        }),
        (match sget_opt_str_list(recruit_pairs(t), "first_tags"@) {
            Result::Ok(v) => v == (match t.first_tags { Option::None => Option::None, Option::Some(l) => Option::Some(strs_view(l@)) }),
            Result::Err(_) => false,
        }),
        (match sget_opt_int(recruit_pairs(t), "extra_tags_mode"@) {
            Result::Ok(v) => t.extra_tags_mode == v,
            Result::Err(_) => false,
        }),
        (match sget_opt_int(recruit_pairs(t), "times"@) {
            Result::Ok(v) => t.times == v,
            Result::Err(_) => false,
        }),
        (match sget_opt_bool(recruit_pairs(t), "set_time"@) {
            Result::Ok(v) => t.set_time == v,
            Result::Err(_) => false,
        }),
        (match sget_opt_bool(recruit_pairs(t), "expedite"@) {
            Result::Ok(v) => t.expedite == v,
            Result::Err(_) => false,
        }),
        (match sget_opt_int(recruit_pairs(t), "expedite_times"@) {
            Result::Ok(v) => t.expedite_times == v,
            Result::Err(_) => false,
        }),
        (match sget_opt_bool(recruit_pairs(t), "skip_robot"@) {
            Result::Ok(v) => t.skip_robot == v,
            Result::Err(_) => false,
        }),
        (match sget_opt_int_map(recruit_pairs(t), "recruitment_time"@) {
            Result::Ok(v) => v == (match t.recruitment_time { Option::None => Option::None, Option::Some(m) => Option::Some(ipairs_view(m@)) }),
            Result::Err(_) => false,
        }),
        (match sget_opt_bool(recruit_pairs(t), "report_to_penguin"@) {
            Result::Ok(v) => t.report_to_penguin == v,
            Result::Err(_) => false,
        }),
        (match sget_opt_str(recruit_pairs(t), "penguin_id"@) {
            Result::Ok(v) => opt_str_view(t.penguin_id) == v,
            Result::Err(_) => false,
        }),
        (match sget_opt_bool(recruit_pairs(t), "report_to_yituliu"@) {
            Result::Ok(v) => t.report_to_yituliu == v,
            Result::Err(_) => false,
        }),
        (match sget_opt_str(recruit_pairs(t), "yituliu_id"@) {
            Result::Ok(v) => opt_str_view(t.yituliu_id) == v,
            Result::Err(_) => false,
        }),
        (match sget_opt_str(recruit_pairs(t), "server"@) {
            Result::Ok(v) => opt_str_view(t.server) == v,
            Result::Err(_) => false,
        }),
{
    let ps = recruit_pairs(t);
    recruit_get_enable(t);
    recruit_get_refresh(t);
    recruit_get_select(t);
    recruit_get_confirm(t);
    recruit_get_first_tags(t);
    recruit_get_extra_tags_mode(t);
    recruit_get_times(t);
    recruit_get_set_time(t);
    recruit_get_expedite(t);
    recruit_get_expedite_times(t);
    recruit_get_skip_robot(t);
    recruit_get_recruitment_time(t);
    recruit_get_report_to_penguin(t);
    recruit_get_penguin_id(t);
    recruit_get_report_to_yituliu(t);
    recruit_get_yituliu_id(t);
    recruit_get_server(t);
    lemma_blocks_valid("enable"@);
    lemma_blocks_valid("refresh"@);
    lemma_blocks_valid("select"@);
    lemma_blocks_valid("confirm"@);
    lemma_blocks_valid("first_tags"@);
    lemma_blocks_valid("extra_tags_mode"@);
    lemma_blocks_valid("times"@);
    lemma_blocks_valid("set_time"@);
    lemma_blocks_valid("expedite"@);
    lemma_blocks_valid("expedite_times"@);
    lemma_blocks_valid("skip_robot"@);
    lemma_blocks_valid("recruitment_time"@);
    lemma_blocks_valid("report_to_penguin"@);
    lemma_blocks_valid("penguin_id"@);
    lemma_blocks_valid("report_to_yituliu"@);
    lemma_blocks_valid("yituliu_id"@);
    lemma_blocks_valid("server"@);
    let b1 = b_opt_bool("enable"@, t.enable);
    let b2 = b_opt_bool("refresh"@, t.refresh);
    let b3 = b_int_list("select"@, t.select@);
    let b4 = b_int_list("confirm"@, t.confirm@);
    let b5 = b_opt_str_list("first_tags"@, (match t.first_tags { Option::None => Option::None, Option::Some(l) => Option::Some(strs_view(l@)) }));
    let b6 = b_opt_int("extra_tags_mode"@, t.extra_tags_mode);
    let b7 = b_opt_int("times"@, t.times);
    let b8 = b_opt_bool("set_time"@, t.set_time);
    let b9 = b_opt_bool("expedite"@, t.expedite);
    let b10 = b_opt_int("expedite_times"@, t.expedite_times);
    let b11 = b_opt_bool("skip_robot"@, t.skip_robot);
    let b12 = b_opt_int_map("recruitment_time"@, (match t.recruitment_time { Option::None => Option::None, Option::Some(m) => Option::Some(ipairs_view(m@)) }));
    let b13 = b_opt_bool("report_to_penguin"@, t.report_to_penguin);
    let b14 = b_opt_str("penguin_id"@, opt_str_view(t.penguin_id));
    let b15 = b_opt_bool("report_to_yituliu"@, t.report_to_yituliu);
    let b16 = b_opt_str("yituliu_id"@, opt_str_view(t.yituliu_id));
    let b17 = b_opt_str("server"@, opt_str_view(t.server));
    let p1 = b1;
    let p2 = p1 + b2;
    let p3 = p2 + b3;
    let p4 = p3 + b4;
    let p5 = p4 + b5;
    let p6 = p5 + b6;
    let p7 = p6 + b7;
    let p8 = p7 + b8;
    let p9 = p8 + b9;
    let p10 = p9 + b10;
    let p11 = p10 + b11;
    let p12 = p11 + b12;
    let p13 = p12 + b13;
    let p14 = p13 + b14;
    let p15 = p14 + b15;
    let p16 = p15 + b16;
    let p17 = p16 + b17;
    assert(doc_valid(p1));
    lemma_doc_valid_concat(p1, b2);
    lemma_doc_valid_concat(p2, b3);
    lemma_doc_valid_concat(p3, b4);
    lemma_doc_valid_concat(p4, b5);
    lemma_doc_valid_concat(p5, b6);
    lemma_doc_valid_concat(p6, b7);
    lemma_doc_valid_concat(p7, b8);
    lemma_doc_valid_concat(p8, b9);
    lemma_doc_valid_concat(p9, b10);
    lemma_doc_valid_concat(p10, b11);
    lemma_doc_valid_concat(p11, b12);
    lemma_doc_valid_concat(p12, b13);
    lemma_doc_valid_concat(p13, b14);
    lemma_doc_valid_concat(p14, b15);
    lemma_doc_valid_concat(p15, b16);
    lemma_doc_valid_concat(p16, b17);
    assert(ps == p17);
    lemma_doc_round_trip(ps);
    lemma_ints_of_list(t.select@);
    lemma_ints_of_list(t.confirm@);
    if t.first_tags is Some {
        lemma_strs_of_list(strs_view(t.first_tags->0@));
    }
    if t.recruitment_time is Some {
        lemma_imap_of_map(ipairs_view(t.recruitment_time->0@));
    }
}

/// Parameters of the Infrast task.
#[derive(Clone, Debug, PartialEq)]
pub struct InfrastTask {
    /// The optional boolean field `enable`.
    pub enable: Option<bool>,
    /// The optional integer field `mode`.
    pub mode: Option<i32>,
    /// The required string-list field `facility`.
    pub facility: Vec<String>,
    /// The optional string field `drones`.
    pub drones: Option<String>,
    /// The optional thousandths field `threshold`.
    pub threshold: Option<u32>,
    /// The optional boolean field `replenish`.
    pub replenish: Option<bool>,
    /// The optional boolean field `dorm_not_stationed_enabled`.
    pub dorm_not_stationed_enabled: Option<bool>,
    /// The optional boolean field `dorm_trust_enabled`.
    pub dorm_trust_enabled: Option<bool>,
    /// The optional boolean field `reception_message_board`.
    pub reception_message_board: Option<bool>,
    /// The optional string field `filename`.
    pub filename: Option<String>,
    /// The optional integer field `plan_index`.
    pub plan_index: Option<i32>,
}

/// The document members of a Infrast task, in writing order.
pub open spec fn infrast_pairs(t: InfrastTask) -> Seq<(Seq<char>, JsonV)> {
    b_opt_bool("enable"@, t.enable) + b_opt_int("mode"@, t.mode) + b_str_list("facility"@, strs_view(t.facility@)) + b_opt_str("drones"@, opt_str_view(t.drones)) + b_opt_milli("threshold"@, t.threshold) + b_opt_bool("replenish"@, t.replenish) + b_opt_bool("dorm_not_stationed_enabled"@, t.dorm_not_stationed_enabled) + b_opt_bool("dorm_trust_enabled"@, t.dorm_trust_enabled) + b_opt_bool("reception_message_board"@, t.reception_message_board) + b_opt_str("filename"@, opt_str_view(t.filename)) + b_opt_int("plan_index"@, t.plan_index)
}

/// Whether every known key of a parsed document holds the right shape
/// for the Infrast task, with every required key present.
pub open spec fn infrast_ok(pairs: Seq<(Seq<char>, JsonV)>) -> bool {
    sget_opt_bool(pairs, "enable"@) is Ok
    && sget_opt_int(pairs, "mode"@) is Ok
    && sget_str_list(pairs, "facility"@) is Ok
    && sget_opt_str(pairs, "drones"@) is Ok
    && sget_opt_milli(pairs, "threshold"@) is Ok
    && sget_opt_bool(pairs, "replenish"@) is Ok
    && sget_opt_bool(pairs, "dorm_not_stationed_enabled"@) is Ok
    && sget_opt_bool(pairs, "dorm_trust_enabled"@) is Ok
    && sget_opt_bool(pairs, "reception_message_board"@) is Ok
    && sget_opt_str(pairs, "filename"@) is Ok
    && sget_opt_int(pairs, "plan_index"@) is Ok
}

/// The first field error met reading a parsed document as a Infrast task.
pub open spec fn infrast_first_err(pairs: Seq<(Seq<char>, JsonV)>) -> TaskError {
    match sget_opt_bool(pairs, "enable"@) {
        Result::Err(e) => e,
        Result::Ok(_) => match sget_opt_int(pairs, "mode"@) {
        Result::Err(e) => e,
        Result::Ok(_) => match sget_str_list(pairs, "facility"@) {
        Result::Err(e) => e,
        Result::Ok(_) => match sget_opt_str(pairs, "drones"@) {
        Result::Err(e) => e,
        Result::Ok(_) => match sget_opt_milli(pairs, "threshold"@) {
        Result::Err(e) => e,
        Result::Ok(_) => match sget_opt_bool(pairs, "replenish"@) {
        Result::Err(e) => e,
        Result::Ok(_) => match sget_opt_bool(pairs, "dorm_not_stationed_enabled"@) {
        Result::Err(e) => e,
        Result::Ok(_) => match sget_opt_bool(pairs, "dorm_trust_enabled"@) {
        Result::Err(e) => e,
        Result::Ok(_) => match sget_opt_bool(pairs, "reception_message_board"@) {
        Result::Err(e) => e,
        Result::Ok(_) => match sget_opt_str(pairs, "filename"@) {
        Result::Err(e) => e,
        Result::Ok(_) => match sget_opt_int(pairs, "plan_index"@) {
        Result::Err(e) => e,
        Result::Ok(_) => TaskError::WrongType,
    },
    },
    },
    },
    },
    },
    },
    },
    },
    },
    }
}

impl InfrastTask {
    /// The stable type tag the engine knows the task by.
    pub fn task_type(&self) -> (r: &'static str)
        ensures
            r@ == "Infrast"@,
    {
        "Infrast"
    }

    /// The stable human-readable name of the task kind.
    pub fn task_name(&self) -> (r: &'static str)
        ensures
            r@ == "基建换班"@,
    {
        "基建换班"
    }

    /// The canonical JSON parameter string: present fields only, in
    /// declaration order.
    pub fn to_json(&self) -> (r: String)
        ensures
            r@ == doc_text(infrast_pairs(*self)),
    {
        let mut out: Vec<(String, Json)> = Vec::new();
        proof {
            assert(doc_view(out@) =~= Seq::<(Seq<char>, JsonV)>::empty());
        }
        push_opt_bool(&mut out, "enable", &self.enable);
        push_opt_int(&mut out, "mode", &self.mode);
        push_str_list(&mut out, "facility", &self.facility);
        push_opt_str(&mut out, "drones", &self.drones);
        push_opt_milli(&mut out, "threshold", &self.threshold);
        push_opt_bool(&mut out, "replenish", &self.replenish);
        push_opt_bool(&mut out, "dorm_not_stationed_enabled", &self.dorm_not_stationed_enabled);
        push_opt_bool(&mut out, "dorm_trust_enabled", &self.dorm_trust_enabled);
        push_opt_bool(&mut out, "reception_message_board", &self.reception_message_board);
        push_opt_str(&mut out, "filename", &self.filename);
        push_opt_int(&mut out, "plan_index", &self.plan_index);
        proof {
            assert(doc_view(out@) =~= infrast_pairs(*self));
        }
        write_doc(&out)
    }

    /// Read a task back from a canonical JSON parameter string.
    pub fn from_json(s: &str) -> (r: Result<InfrastTask, TaskError>)
        ensures
            match text_to_doc(s@) {
                Option::None => r == Result::<InfrastTask, TaskError>::Err(TaskError::NotCanonical),
                Option::Some(pairs) => if infrast_ok(pairs) {
                    &&& r is Ok
                    &&& (match (r, sget_opt_bool(pairs, "enable"@)) {
                        (Result::Ok(t), Result::Ok(v)) => t.enable == v,
                        _ => false,
                    })
                    &&& (match (r, sget_opt_int(pairs, "mode"@)) {
                        (Result::Ok(t), Result::Ok(v)) => t.mode == v,
                        _ => false,
                    })
                    &&& (match (r, sget_str_list(pairs, "facility"@)) {
                        (Result::Ok(t), Result::Ok(v)) => strs_view(t.facility@) == v,
                        _ => false,
                    })
                    &&& (match (r, sget_opt_str(pairs, "drones"@)) {
                        (Result::Ok(t), Result::Ok(v)) => opt_str_view(t.drones) == v,
                        _ => false,
                    })
                    &&& (match (r, sget_opt_milli(pairs, "threshold"@)) {
                        (Result::Ok(t), Result::Ok(v)) => t.threshold == v,
                        _ => false,
                    })
                    &&& (match (r, sget_opt_bool(pairs, "replenish"@)) {
                        (Result::Ok(t), Result::Ok(v)) => t.replenish == v,
                        _ => false,
                    })
                    &&& (match (r, sget_opt_bool(pairs, "dorm_not_stationed_enabled"@)) {
                        (Result::Ok(t), Result::Ok(v)) => t.dorm_not_stationed_enabled == v,
                        _ => false,
                    })
                    &&& (match (r, sget_opt_bool(pairs, "dorm_trust_enabled"@)) {
                        (Result::Ok(t), Result::Ok(v)) => t.dorm_trust_enabled == v,
                        _ => false,
                    })
                    &&& (match (r, sget_opt_bool(pairs, "reception_message_board"@)) {
                        (Result::Ok(t), Result::Ok(v)) => t.reception_message_board == v,
                        _ => false,
                    })
                    &&& (match (r, sget_opt_str(pairs, "filename"@)) {
                        (Result::Ok(t), Result::Ok(v)) => opt_str_view(t.filename) == v,
                        _ => false,
                    })
                    &&& (match (r, sget_opt_int(pairs, "plan_index"@)) {
                        (Result::Ok(t), Result::Ok(v)) => t.plan_index == v,
                        _ => false,
                    })
                } else {
                    r == Result::<InfrastTask, TaskError>::Err(infrast_first_err(pairs))
                },
            },
    {
        let pairs = match parse_doc(s) {
            Option::Some(p) => p,
            Option::None => {
                return Result::Err(TaskError::NotCanonical);
            },
        };
        let enable = match get_opt_bool(&pairs, "enable") {
            Result::Ok(v) => v,
            Result::Err(e) => {
                return Result::Err(e);
            },
        };
        let mode = match get_opt_int(&pairs, "mode") {
            Result::Ok(v) => v,
            Result::Err(e) => {
                return Result::Err(e);
            },
        };
        let facility = match get_str_list(&pairs, "facility") {
            Result::Ok(v) => v,
            Result::Err(e) => {
                return Result::Err(e);
            },
        };
        let drones = match get_opt_str(&pairs, "drones") {
            Result::Ok(v) => v,
            Result::Err(e) => {
                return Result::Err(e);
            },
        };
        let threshold = match get_opt_milli(&pairs, "threshold") {
            Result::Ok(v) => v,
            Result::Err(e) => {
                return Result::Err(e);
            },
        };
        let replenish = match get_opt_bool(&pairs, "replenish") {
            Result::Ok(v) => v,
            Result::Err(e) => {
                return Result::Err(e);
            },
        };
        let dorm_not_stationed_enabled = match get_opt_bool(&pairs, "dorm_not_stationed_enabled") {
            Result::Ok(v) => v,
            Result::Err(e) => {
                return Result::Err(e);
            },
        };
        let dorm_trust_enabled = match get_opt_bool(&pairs, "dorm_trust_enabled") {
            Result::Ok(v) => v,
            Result::Err(e) => {
                return Result::Err(e);
            },
        };
        let reception_message_board = match get_opt_bool(&pairs, "reception_message_board") {
            Result::Ok(v) => v,
            Result::Err(e) => {
                return Result::Err(e);
            },
        };
        let filename = match get_opt_str(&pairs, "filename") {
            Result::Ok(v) => v,
            Result::Err(e) => {
                return Result::Err(e);
            },
        };
        let plan_index = match get_opt_int(&pairs, "plan_index") {
            Result::Ok(v) => v,
            Result::Err(e) => {
                return Result::Err(e);
            },
        };
        Result::Ok(InfrastTask { enable, mode, facility, drones, threshold, replenish, dorm_not_stationed_enabled, dorm_trust_enabled, reception_message_board, filename, plan_index })
    }

    /// A builder with no field set.
    pub fn builder() -> (r: InfrastTaskBuilder)
        ensures
            r.enable is None,
            r.mode is None,
            r.facility is None,
            r.drones is None,
            r.threshold is None,
            r.replenish is None,
            r.dorm_not_stationed_enabled is None,
            r.dorm_trust_enabled is None,
            r.reception_message_board is None,
            r.filename is None,
            r.plan_index is None,
    {
        InfrastTaskBuilder { enable: Option::None, mode: Option::None, facility: Option::None, drones: Option::None, threshold: Option::None, replenish: Option::None, dorm_not_stationed_enabled: Option::None, dorm_trust_enabled: Option::None, reception_message_board: Option::None, filename: Option::None, plan_index: Option::None }
    }
}

/// Step-by-step construction of a Infrast task.
pub struct InfrastTaskBuilder {
    /// The optional boolean field `enable`, once set.
    pub enable: Option<bool>,
    /// The optional integer field `mode`, once set.
    pub mode: Option<i32>,
    /// The required string-list field `facility`, once set.
    pub facility: Option<Vec<String>>,
    /// The optional string field `drones`, once set.
    pub drones: Option<String>,
    /// The optional thousandths field `threshold`, once set.
    pub threshold: Option<u32>,
    /// The optional boolean field `replenish`, once set.
    pub replenish: Option<bool>,
    /// The optional boolean field `dorm_not_stationed_enabled`, once set.
    pub dorm_not_stationed_enabled: Option<bool>,
    /// The optional boolean field `dorm_trust_enabled`, once set.
    pub dorm_trust_enabled: Option<bool>,
    /// The optional boolean field `reception_message_board`, once set.
    pub reception_message_board: Option<bool>,
    /// The optional string field `filename`, once set.
    pub filename: Option<String>,
    /// The optional integer field `plan_index`, once set.
    pub plan_index: Option<i32>,
}

impl InfrastTaskBuilder {
    /// Set the optional boolean field `enable`.
    pub fn enable(self, enable: bool) -> (r: Self)
        ensures
            r.enable == Option::Some(enable),
            r.mode == self.mode,
            r.facility == self.facility,
            r.drones == self.drones,
            r.threshold == self.threshold,
            r.replenish == self.replenish,
            r.dorm_not_stationed_enabled == self.dorm_not_stationed_enabled,
            r.dorm_trust_enabled == self.dorm_trust_enabled,
            r.reception_message_board == self.reception_message_board,
            r.filename == self.filename,
            r.plan_index == self.plan_index,
    {
        let mut this = self;
        this.enable = Option::Some(enable);
        this
    }

    /// Set the optional integer field `mode`.
    pub fn mode(self, mode: i32) -> (r: Self)
        ensures
            r.mode == Option::Some(mode),
            r.enable == self.enable,
            r.facility == self.facility,
            r.drones == self.drones,
            r.threshold == self.threshold,
            r.replenish == self.replenish,
            r.dorm_not_stationed_enabled == self.dorm_not_stationed_enabled,
            r.dorm_trust_enabled == self.dorm_trust_enabled,
            r.reception_message_board == self.reception_message_board,
            r.filename == self.filename,
            r.plan_index == self.plan_index,
    {
        let mut this = self;
        this.mode = Option::Some(mode);
        this
    }

    /// Set the required string-list field `facility`.
    pub fn facility(self, facility: Vec<String>) -> (r: Self)
        ensures
            r.facility == Option::Some(facility),
            r.enable == self.enable,
            r.mode == self.mode,
            r.drones == self.drones,
            r.threshold == self.threshold,
            r.replenish == self.replenish,
            r.dorm_not_stationed_enabled == self.dorm_not_stationed_enabled,
            r.dorm_trust_enabled == self.dorm_trust_enabled,
            r.reception_message_board == self.reception_message_board,
            r.filename == self.filename,
            r.plan_index == self.plan_index,
    {
        let mut this = self;
        this.facility = Option::Some(facility);
        this
    }

    /// Set the optional string field `drones`.
    pub fn drones(self, drones: &str) -> (r: Self)
        ensures
            (r.drones matches Option::Some(s) && s@ == drones@),
            r.enable == self.enable,
            r.mode == self.mode,
            r.facility == self.facility,
            r.threshold == self.threshold,
            r.replenish == self.replenish,
            r.dorm_not_stationed_enabled == self.dorm_not_stationed_enabled,
            r.dorm_trust_enabled == self.dorm_trust_enabled,
            r.reception_message_board == self.reception_message_board,
            r.filename == self.filename,
            r.plan_index == self.plan_index,
    {
        let mut this = self;
        this.drones = Option::Some(drones.to_owned());
        this
    }

    /// Set the optional thousandths field `threshold`.
    pub fn threshold(self, threshold: u32) -> (r: Self)
        ensures
            r.threshold == Option::Some(threshold),
            r.enable == self.enable,
            r.mode == self.mode,
            r.facility == self.facility,
            r.drones == self.drones,
            r.replenish == self.replenish,
            r.dorm_not_stationed_enabled == self.dorm_not_stationed_enabled,
            r.dorm_trust_enabled == self.dorm_trust_enabled,
            r.reception_message_board == self.reception_message_board,
            r.filename == self.filename,
            r.plan_index == self.plan_index,
    {
        let mut this = self;
        this.threshold = Option::Some(threshold);
        this
    }

    /// Set the optional boolean field `replenish`.
    pub fn replenish(self, replenish: bool) -> (r: Self)
        ensures
            r.replenish == Option::Some(replenish),
            r.enable == self.enable,
            r.mode == self.mode,
            r.facility == self.facility,
            r.drones == self.drones,
            r.threshold == self.threshold,
            r.dorm_not_stationed_enabled == self.dorm_not_stationed_enabled,
            r.dorm_trust_enabled == self.dorm_trust_enabled,
            r.reception_message_board == self.reception_message_board,
            r.filename == self.filename,
            r.plan_index == self.plan_index,
    {
        let mut this = self;
        this.replenish = Option::Some(replenish);
        this
    }

    /// Set the optional boolean field `dorm_not_stationed_enabled`.
    pub fn dorm_not_stationed_enabled(self, dorm_not_stationed_enabled: bool) -> (r: Self)
        ensures
            r.dorm_not_stationed_enabled == Option::Some(dorm_not_stationed_enabled),
            r.enable == self.enable,
            r.mode == self.mode,
            r.facility == self.facility,
            r.drones == self.drones,
            r.threshold == self.threshold,
            r.replenish == self.replenish,
            r.dorm_trust_enabled == self.dorm_trust_enabled,
            r.reception_message_board == self.reception_message_board,
            r.filename == self.filename,
            r.plan_index == self.plan_index,
    {
        let mut this = self;
        this.dorm_not_stationed_enabled = Option::Some(dorm_not_stationed_enabled);
        this
    }

    /// Set the optional boolean field `dorm_trust_enabled`.
    pub fn dorm_trust_enabled(self, dorm_trust_enabled: bool) -> (r: Self)
        ensures
            r.dorm_trust_enabled == Option::Some(dorm_trust_enabled),
            r.enable == self.enable,
            r.mode == self.mode,
            r.facility == self.facility,
            r.drones == self.drones,
            r.threshold == self.threshold,
            r.replenish == self.replenish,
            r.dorm_not_stationed_enabled == self.dorm_not_stationed_enabled,
            r.reception_message_board == self.reception_message_board,
            r.filename == self.filename,
            r.plan_index == self.plan_index,
    {
        let mut this = self;
        this.dorm_trust_enabled = Option::Some(dorm_trust_enabled);
        this
    }

    /// Set the optional boolean field `reception_message_board`.
    pub fn reception_message_board(self, reception_message_board: bool) -> (r: Self)
        ensures
            r.reception_message_board == Option::Some(reception_message_board),
            r.enable == self.enable,
            r.mode == self.mode,
            r.facility == self.facility,
            r.drones == self.drones,
            r.threshold == self.threshold,
            r.replenish == self.replenish,
            r.dorm_not_stationed_enabled == self.dorm_not_stationed_enabled,
            r.dorm_trust_enabled == self.dorm_trust_enabled,
            r.filename == self.filename,
            r.plan_index == self.plan_index,
    {
        let mut this = self;
        this.reception_message_board = Option::Some(reception_message_board);
        this
    }

    /// Set the optional string field `filename`.
    pub fn filename(self, filename: &str) -> (r: Self)
        ensures
            (r.filename matches Option::Some(s) && s@ == filename@),
            r.enable == self.enable,
            r.mode == self.mode,
            r.facility == self.facility,
            r.drones == self.drones,
            r.threshold == self.threshold,
            r.replenish == self.replenish,
            r.dorm_not_stationed_enabled == self.dorm_not_stationed_enabled,
            r.dorm_trust_enabled == self.dorm_trust_enabled,
            r.reception_message_board == self.reception_message_board,
            r.plan_index == self.plan_index,
    {
        let mut this = self;
        this.filename = Option::Some(filename.to_owned());
        this
    }

    /// Set the optional integer field `plan_index`.
    pub fn plan_index(self, plan_index: i32) -> (r: Self)
        ensures
            r.plan_index == Option::Some(plan_index),
            r.enable == self.enable,
            r.mode == self.mode,
            r.facility == self.facility,
            r.drones == self.drones,
            r.threshold == self.threshold,
            r.replenish == self.replenish,
            r.dorm_not_stationed_enabled == self.dorm_not_stationed_enabled,
            r.dorm_trust_enabled == self.dorm_trust_enabled,
            r.reception_message_board == self.reception_message_board,
            r.filename == self.filename,
    {
        let mut this = self;
        this.plan_index = Option::Some(plan_index);
        this
    }

    /// The finished task; refused while a required field is missing.
    pub fn build(self) -> (r: Result<InfrastTask, TaskError>)
        ensures
            if self.facility is Some {
                &&& r is Ok
                &&& (match r { Result::Ok(t) => t.enable == self.enable, _ => false })
                &&& (match r { Result::Ok(t) => t.mode == self.mode, _ => false })
                &&& (match r { Result::Ok(t) => Option::Some(t.facility) == self.facility, _ => false })
                &&& (match r { Result::Ok(t) => t.drones == self.drones, _ => false })
                &&& (match r { Result::Ok(t) => t.threshold == self.threshold, _ => false })
                &&& (match r { Result::Ok(t) => t.replenish == self.replenish, _ => false })
                &&& (match r { Result::Ok(t) => t.dorm_not_stationed_enabled == self.dorm_not_stationed_enabled, _ => false })
                &&& (match r { Result::Ok(t) => t.dorm_trust_enabled == self.dorm_trust_enabled, _ => false })
                &&& (match r { Result::Ok(t) => t.reception_message_board == self.reception_message_board, _ => false })
                &&& (match r { Result::Ok(t) => t.filename == self.filename, _ => false })
                &&& (match r { Result::Ok(t) => t.plan_index == self.plan_index, _ => false })
            } else {
                r == Result::<InfrastTask, TaskError>::Err(TaskError::MissingField)
            },
    {
        let facility = match self.facility {
            Option::Some(v) => v,
            Option::None => {
                return Result::Err(TaskError::MissingField);
            },
        };
        Result::Ok(InfrastTask { enable: self.enable, mode: self.mode, facility, drones: self.drones, threshold: self.threshold, replenish: self.replenish, dorm_not_stationed_enabled: self.dorm_not_stationed_enabled, dorm_trust_enabled: self.dorm_trust_enabled, reception_message_board: self.reception_message_board, filename: self.filename, plan_index: self.plan_index })
    }
}

/// What lookup of `enable` finds in the members of a Infrast task.
proof fn infrast_get_enable(t: InfrastTask)
    ensures
        doc_get(infrast_pairs(t), "enable"@) == (match t.enable { Option::None => Option::<JsonV>::None, Option::Some(b) => Option::Some(JsonV::Sc(ScalarV::Bool(b))) }),
{
    reveal_strlit("enable");
    reveal_strlit("mode");
    reveal_strlit("facility");
    reveal_strlit("drones");
    reveal_strlit("threshold");
    reveal_strlit("replenish");
    reveal_strlit("dorm_not_stationed_enabled");
    reveal_strlit("dorm_trust_enabled");
    reveal_strlit("reception_message_board");
    reveal_strlit("filename");
    reveal_strlit("plan_index");
    assert("enable"@.len() != "mode"@.len());
    assert("enable"@ != "mode"@);
    assert("enable"@.len() != "facility"@.len());
    assert("enable"@ != "facility"@);
    assert("enable"@[0] != "drones"@[0]);
    assert("enable"@ != "drones"@);
    assert("enable"@.len() != "threshold"@.len());
    assert("enable"@ != "threshold"@);
    assert("enable"@.len() != "replenish"@.len());
    assert("enable"@ != "replenish"@);
    assert("enable"@.len() != "dorm_not_stationed_enabled"@.len());
    assert("enable"@ != "dorm_not_stationed_enabled"@);
    assert("enable"@.len() != "dorm_trust_enabled"@.len());
    assert("enable"@ != "dorm_trust_enabled"@);
    assert("enable"@.len() != "reception_message_board"@.len());
    assert("enable"@ != "reception_message_board"@);
    assert("enable"@.len() != "filename"@.len());
    assert("enable"@ != "filename"@);
    assert("enable"@.len() != "plan_index"@.len());
    assert("enable"@ != "plan_index"@);
    let b1 = b_opt_bool("enable"@, t.enable);
    let b2 = b_opt_int("mode"@, t.mode);
    let b3 = b_str_list("facility"@, strs_view(t.facility@));
    let b4 = b_opt_str("drones"@, opt_str_view(t.drones));
    let b5 = b_opt_milli("threshold"@, t.threshold);
    let b6 = b_opt_bool("replenish"@, t.replenish);
    let b7 = b_opt_bool("dorm_not_stationed_enabled"@, t.dorm_not_stationed_enabled);
    let b8 = b_opt_bool("dorm_trust_enabled"@, t.dorm_trust_enabled);
    let b9 = b_opt_bool("reception_message_board"@, t.reception_message_board);
    let b10 = b_opt_str("filename"@, opt_str_view(t.filename));
    let b11 = b_opt_int("plan_index"@, t.plan_index);
    let p1 = b1;
    let p2 = p1 + b2;
    let p3 = p2 + b3;
    let p4 = p3 + b4;
    let p5 = p4 + b5;
    let p6 = p5 + b6;
    let p7 = p6 + b7;
    let p8 = p7 + b8;
    let p9 = p8 + b9;
    let p10 = p9 + b10;
    let p11 = p10 + b11;
    assert(infrast_pairs(t) == p11);
    lemma_doc_get_block(b1, "enable"@);
    lemma_doc_get_block(b2, "enable"@);
    lemma_doc_get_block(b3, "enable"@);
    lemma_doc_get_block(b4, "enable"@);
    lemma_doc_get_block(b5, "enable"@);
    lemma_doc_get_block(b6, "enable"@);
    lemma_doc_get_block(b7, "enable"@);
    lemma_doc_get_block(b8, "enable"@);
    lemma_doc_get_block(b9, "enable"@);
    lemma_doc_get_block(b10, "enable"@);
    lemma_doc_get_block(b11, "enable"@);
    lemma_doc_get_concat(p10, b11, "enable"@);
    lemma_doc_get_concat(p9, b10, "enable"@);
    lemma_doc_get_concat(p8, b9, "enable"@);
    lemma_doc_get_concat(p7, b8, "enable"@);
    lemma_doc_get_concat(p6, b7, "enable"@);
    lemma_doc_get_concat(p5, b6, "enable"@);
    lemma_doc_get_concat(p4, b5, "enable"@);
    lemma_doc_get_concat(p3, b4, "enable"@);
    lemma_doc_get_concat(p2, b3, "enable"@);
    lemma_doc_get_concat(p1, b2, "enable"@);
}

/// What lookup of `mode` finds in the members of a Infrast task.
proof fn infrast_get_mode(t: InfrastTask)
    ensures
        doc_get(infrast_pairs(t), "mode"@) == (match t.mode { Option::None => Option::<JsonV>::None, Option::Some(i) => Option::Some(JsonV::Sc(ScalarV::Int(i as int))) }),
{
    reveal_strlit("enable");
    reveal_strlit("mode");
    reveal_strlit("facility");
    reveal_strlit("drones");
    reveal_strlit("threshold");
    reveal_strlit("replenish");
    reveal_strlit("dorm_not_stationed_enabled");
    reveal_strlit("dorm_trust_enabled");
    reveal_strlit("reception_message_board");
    reveal_strlit("filename");
    reveal_strlit("plan_index");
    assert("mode"@.len() != "enable"@.len());
    assert("mode"@ != "enable"@);
    assert("mode"@.len() != "facility"@.len());
    assert("mode"@ != "facility"@);
    assert("mode"@.len() != "drones"@.len());
    assert("mode"@ != "drones"@);
    assert("mode"@.len() != "threshold"@.len());
    assert("mode"@ != "threshold"@);
    assert("mode"@.len() != "replenish"@.len());
    assert("mode"@ != "replenish"@);
    assert("mode"@.len() != "dorm_not_stationed_enabled"@.len());
    assert("mode"@ != "dorm_not_stationed_enabled"@);
    assert("mode"@.len() != "dorm_trust_enabled"@.len());
    assert("mode"@ != "dorm_trust_enabled"@);
    assert("mode"@.len() != "reception_message_board"@.len());
    assert("mode"@ != "reception_message_board"@);
    assert("mode"@.len() != "filename"@.len());
    assert("mode"@ != "filename"@);
    assert("mode"@.len() != "plan_index"@.len());
    assert("mode"@ != "plan_index"@);
    let b1 = b_opt_bool("enable"@, t.enable);
    let b2 = b_opt_int("mode"@, t.mode);
    let b3 = b_str_list("facility"@, strs_view(t.facility@));
    let b4 = b_opt_str("drones"@, opt_str_view(t.drones));
    let b5 = b_opt_milli("threshold"@, t.threshold);
    let b6 = b_opt_bool("replenish"@, t.replenish);
    let b7 = b_opt_bool("dorm_not_stationed_enabled"@, t.dorm_not_stationed_enabled);
    let b8 = b_opt_bool("dorm_trust_enabled"@, t.dorm_trust_enabled);
    let b9 = b_opt_bool("reception_message_board"@, t.reception_message_board);
    let b10 = b_opt_str("filename"@, opt_str_view(t.filename));
    let b11 = b_opt_int("plan_index"@, t.plan_index);
    let p1 = b1;
    let p2 = p1 + b2;
    let p3 = p2 + b3;
    let p4 = p3 + b4;
    let p5 = p4 + b5;
    let p6 = p5 + b6;
    let p7 = p6 + b7;
    let p8 = p7 + b8;
    let p9 = p8 + b9;
    let p10 = p9 + b10;
    let p11 = p10 + b11;
    assert(infrast_pairs(t) == p11);
    lemma_doc_get_block(b1, "mode"@);
    lemma_doc_get_block(b2, "mode"@);
    lemma_doc_get_block(b3, "mode"@);
    lemma_doc_get_block(b4, "mode"@);
    lemma_doc_get_block(b5, "mode"@);
    lemma_doc_get_block(b6, "mode"@);
    lemma_doc_get_block(b7, "mode"@);
    lemma_doc_get_block(b8, "mode"@);
    lemma_doc_get_block(b9, "mode"@);
    lemma_doc_get_block(b10, "mode"@);
    lemma_doc_get_block(b11, "mode"@);
    lemma_doc_get_concat(p10, b11, "mode"@);
    lemma_doc_get_concat(p9, b10, "mode"@);
    lemma_doc_get_concat(p8, b9, "mode"@);
    lemma_doc_get_concat(p7, b8, "mode"@);
    lemma_doc_get_concat(p6, b7, "mode"@);
    lemma_doc_get_concat(p5, b6, "mode"@);
    lemma_doc_get_concat(p4, b5, "mode"@);
    lemma_doc_get_concat(p3, b4, "mode"@);
    lemma_doc_get_concat(p2, b3, "mode"@);
    lemma_doc_get_concat(p1, b2, "mode"@);
}

/// What lookup of `facility` finds in the members of a Infrast task.
proof fn infrast_get_facility(t: InfrastTask)
    ensures
        doc_get(infrast_pairs(t), "facility"@) == Option::Some(JsonV::Arr(jv_str_list(strs_view(t.facility@)))),
{
    reveal_strlit("enable");
    reveal_strlit("mode");
    reveal_strlit("facility");
    reveal_strlit("drones");
    reveal_strlit("threshold");
    reveal_strlit("replenish");
    reveal_strlit("dorm_not_stationed_enabled");
    reveal_strlit("dorm_trust_enabled");
    reveal_strlit("reception_message_board");
    reveal_strlit("filename");
    reveal_strlit("plan_index");
    assert("facility"@.len() != "enable"@.len());
    assert("facility"@ != "enable"@);
    assert("facility"@.len() != "mode"@.len());
    assert("facility"@ != "mode"@);
    assert("facility"@.len() != "drones"@.len());
    assert("facility"@ != "drones"@);
    assert("facility"@.len() != "threshold"@.len());
    assert("facility"@ != "threshold"@);
    assert("facility"@.len() != "replenish"@.len());
    assert("facility"@ != "replenish"@);
    assert("facility"@.len() != "dorm_not_stationed_enabled"@.len());
    assert("facility"@ != "dorm_not_stationed_enabled"@);
    assert("facility"@.len() != "dorm_trust_enabled"@.len());
    assert("facility"@ != "dorm_trust_enabled"@);
    assert("facility"@.len() != "reception_message_board"@.len());
    assert("facility"@ != "reception_message_board"@);
    assert("facility"@[1] != "filename"@[1]);
    assert("facility"@ != "filename"@);
    assert("facility"@.len() != "plan_index"@.len());
    assert("facility"@ != "plan_index"@);
    let b1 = b_opt_bool("enable"@, t.enable);
    let b2 = b_opt_int("mode"@, t.mode);
    let b3 = b_str_list("facility"@, strs_view(t.facility@));
    let b4 = b_opt_str("drones"@, opt_str_view(t.drones));
    let b5 = b_opt_milli("threshold"@, t.threshold);
    let b6 = b_opt_bool("replenish"@, t.replenish);
    let b7 = b_opt_bool("dorm_not_stationed_enabled"@, t.dorm_not_stationed_enabled);
    let b8 = b_opt_bool("dorm_trust_enabled"@, t.dorm_trust_enabled);
    let b9 = b_opt_bool("reception_message_board"@, t.reception_message_board);
    let b10 = b_opt_str("filename"@, opt_str_view(t.filename));
    let b11 = b_opt_int("plan_index"@, t.plan_index);
    let p1 = b1;
    let p2 = p1 + b2;
    let p3 = p2 + b3;
    let p4 = p3 + b4;
    let p5 = p4 + b5;
    let p6 = p5 + b6;
    let p7 = p6 + b7;
    let p8 = p7 + b8;
    let p9 = p8 + b9;
    let p10 = p9 + b10;
    let p11 = p10 + b11;
    assert(infrast_pairs(t) == p11);
    lemma_doc_get_block(b1, "facility"@);
    lemma_doc_get_block(b2, "facility"@);
    lemma_doc_get_block(b3, "facility"@);
    lemma_doc_get_block(b4, "facility"@);
    lemma_doc_get_block(b5, "facility"@);
    lemma_doc_get_block(b6, "facility"@);
    lemma_doc_get_block(b7, "facility"@);
    lemma_doc_get_block(b8, "facility"@);
    lemma_doc_get_block(b9, "facility"@);
    lemma_doc_get_block(b10, "facility"@);
    lemma_doc_get_block(b11, "facility"@);
    lemma_doc_get_concat(p10, b11, "facility"@);
    lemma_doc_get_concat(p9, b10, "facility"@);
    lemma_doc_get_concat(p8, b9, "facility"@);
    lemma_doc_get_concat(p7, b8, "facility"@);
    lemma_doc_get_concat(p6, b7, "facility"@);
    lemma_doc_get_concat(p5, b6, "facility"@);
    lemma_doc_get_concat(p4, b5, "facility"@);
    lemma_doc_get_concat(p3, b4, "facility"@);
    lemma_doc_get_concat(p2, b3, "facility"@);
    lemma_doc_get_concat(p1, b2, "facility"@);
}

/// What lookup of `drones` finds in the members of a Infrast task.
proof fn infrast_get_drones(t: InfrastTask)
    ensures
        doc_get(infrast_pairs(t), "drones"@) == (match t.drones { Option::None => Option::<JsonV>::None, Option::Some(s) => Option::Some(JsonV::Sc(ScalarV::Str(s@))) }),
{
    reveal_strlit("enable");
    reveal_strlit("mode");
    reveal_strlit("facility");
    reveal_strlit("drones");
    reveal_strlit("threshold");
    reveal_strlit("replenish");
    reveal_strlit("dorm_not_stationed_enabled");
    reveal_strlit("dorm_trust_enabled");
    reveal_strlit("reception_message_board");
    reveal_strlit("filename");
    reveal_strlit("plan_index");
    assert("drones"@[0] != "enable"@[0]);
    assert("drones"@ != "enable"@);
    assert("drones"@.len() != "mode"@.len());
    assert("drones"@ != "mode"@);
    assert("drones"@.len() != "facility"@.len());
    assert("drones"@ != "facility"@);
    assert("drones"@.len() != "threshold"@.len());
    assert("drones"@ != "threshold"@);
    assert("drones"@.len() != "replenish"@.len());
    assert("drones"@ != "replenish"@);
    assert("drones"@.len() != "dorm_not_stationed_enabled"@.len());
    assert("drones"@ != "dorm_not_stationed_enabled"@);
    assert("drones"@.len() != "dorm_trust_enabled"@.len());
    assert("drones"@ != "dorm_trust_enabled"@);
    assert("drones"@.len() != "reception_message_board"@.len());
    assert("drones"@ != "reception_message_board"@);
    assert("drones"@.len() != "filename"@.len());
    assert("drones"@ != "filename"@);
    assert("drones"@.len() != "plan_index"@.len());
    assert("drones"@ != "plan_index"@);
    let b1 = b_opt_bool("enable"@, t.enable);
    let b2 = b_opt_int("mode"@, t.mode);
    let b3 = b_str_list("facility"@, strs_view(t.facility@));
    let b4 = b_opt_str("drones"@, opt_str_view(t.drones));
    let b5 = b_opt_milli("threshold"@, t.threshold);
    let b6 = b_opt_bool("replenish"@, t.replenish);
    let b7 = b_opt_bool("dorm_not_stationed_enabled"@, t.dorm_not_stationed_enabled);
    let b8 = b_opt_bool("dorm_trust_enabled"@, t.dorm_trust_enabled);
    let b9 = b_opt_bool("reception_message_board"@, t.reception_message_board);
    let b10 = b_opt_str("filename"@, opt_str_view(t.filename));
    let b11 = b_opt_int("plan_index"@, t.plan_index);
    let p1 = b1;
    let p2 = p1 + b2;
    let p3 = p2 + b3;
    let p4 = p3 + b4;
    let p5 = p4 + b5;
    let p6 = p5 + b6;
    let p7 = p6 + b7;
    let p8 = p7 + b8;
    let p9 = p8 + b9;
    let p10 = p9 + b10;
    let p11 = p10 + b11;
    assert(infrast_pairs(t) == p11);
    lemma_doc_get_block(b1, "drones"@);
    lemma_doc_get_block(b2, "drones"@);
    lemma_doc_get_block(b3, "drones"@);
    lemma_doc_get_block(b4, "drones"@);
    lemma_doc_get_block(b5, "drones"@);
    lemma_doc_get_block(b6, "drones"@);
    lemma_doc_get_block(b7, "drones"@);
    lemma_doc_get_block(b8, "drones"@);
    lemma_doc_get_block(b9, "drones"@);
    lemma_doc_get_block(b10, "drones"@);
    lemma_doc_get_block(b11, "drones"@);
    lemma_doc_get_concat(p10, b11, "drones"@);
    lemma_doc_get_concat(p9, b10, "drones"@);
    lemma_doc_get_concat(p8, b9, "drones"@);
    lemma_doc_get_concat(p7, b8, "drones"@);
    lemma_doc_get_concat(p6, b7, "drones"@);
    lemma_doc_get_concat(p5, b6, "drones"@);
    lemma_doc_get_concat(p4, b5, "drones"@);
    lemma_doc_get_concat(p3, b4, "drones"@);
    lemma_doc_get_concat(p2, b3, "drones"@);
    lemma_doc_get_concat(p1, b2, "drones"@);
}

/// What lookup of `threshold` finds in the members of a Infrast task.
proof fn infrast_get_threshold(t: InfrastTask)
    ensures
        doc_get(infrast_pairs(t), "threshold"@) == (match t.threshold { Option::None => Option::<JsonV>::None, Option::Some(m) => Option::Some(JsonV::Sc(ScalarV::Milli(m as nat))) }),
{
    reveal_strlit("enable");
    reveal_strlit("mode");
    reveal_strlit("facility");
    reveal_strlit("drones");
    reveal_strlit("threshold");
    reveal_strlit("replenish");
    reveal_strlit("dorm_not_stationed_enabled");
    reveal_strlit("dorm_trust_enabled");
    reveal_strlit("reception_message_board");
    reveal_strlit("filename");
    reveal_strlit("plan_index");
    assert("threshold"@.len() != "enable"@.len());
    assert("threshold"@ != "enable"@);
    assert("threshold"@.len() != "mode"@.len());
    assert("threshold"@ != "mode"@);
    assert("threshold"@.len() != "facility"@.len());
    assert("threshold"@ != "facility"@);
    assert("threshold"@.len() != "drones"@.len());
    assert("threshold"@ != "drones"@);
    assert("threshold"@[0] != "replenish"@[0]);
    assert("threshold"@ != "replenish"@);
    assert("threshold"@.len() != "dorm_not_stationed_enabled"@.len());
    assert("threshold"@ != "dorm_not_stationed_enabled"@);
    assert("threshold"@.len() != "dorm_trust_enabled"@.len());
    assert("threshold"@ != "dorm_trust_enabled"@);
    assert("threshold"@.len() != "reception_message_board"@.len());
    assert("threshold"@ != "reception_message_board"@);
    assert("threshold"@.len() != "filename"@.len());
    assert("threshold"@ != "filename"@);
    assert("threshold"@.len() != "plan_index"@.len());
    assert("threshold"@ != "plan_index"@);
    let b1 = b_opt_bool("enable"@, t.enable);
    let b2 = b_opt_int("mode"@, t.mode);
    let b3 = b_str_list("facility"@, strs_view(t.facility@));
    let b4 = b_opt_str("drones"@, opt_str_view(t.drones));
    let b5 = b_opt_milli("threshold"@, t.threshold);
    let b6 = b_opt_bool("replenish"@, t.replenish);
    let b7 = b_opt_bool("dorm_not_stationed_enabled"@, t.dorm_not_stationed_enabled);
    let b8 = b_opt_bool("dorm_trust_enabled"@, t.dorm_trust_enabled);
    let b9 = b_opt_bool("reception_message_board"@, t.reception_message_board);
    let b10 = b_opt_str("filename"@, opt_str_view(t.filename));
    let b11 = b_opt_int("plan_index"@, t.plan_index);
    let p1 = b1;
    let p2 = p1 + b2;
    let p3 = p2 + b3;
    let p4 = p3 + b4;
    let p5 = p4 + b5;
    let p6 = p5 + b6;
    let p7 = p6 + b7;
    let p8 = p7 + b8;
    let p9 = p8 + b9;
    let p10 = p9 + b10;
    let p11 = p10 + b11;
    assert(infrast_pairs(t) == p11);
    lemma_doc_get_block(b1, "threshold"@);
    lemma_doc_get_block(b2, "threshold"@);
    lemma_doc_get_block(b3, "threshold"@);
    lemma_doc_get_block(b4, "threshold"@);
    lemma_doc_get_block(b5, "threshold"@);
    lemma_doc_get_block(b6, "threshold"@);
    lemma_doc_get_block(b7, "threshold"@);
    lemma_doc_get_block(b8, "threshold"@);
    lemma_doc_get_block(b9, "threshold"@);
    lemma_doc_get_block(b10, "threshold"@);
    lemma_doc_get_block(b11, "threshold"@);
    lemma_doc_get_concat(p10, b11, "threshold"@);
    lemma_doc_get_concat(p9, b10, "threshold"@);
    lemma_doc_get_concat(p8, b9, "threshold"@);
    lemma_doc_get_concat(p7, b8, "threshold"@);
    lemma_doc_get_concat(p6, b7, "threshold"@);
    lemma_doc_get_concat(p5, b6, "threshold"@);
    lemma_doc_get_concat(p4, b5, "threshold"@);
    lemma_doc_get_concat(p3, b4, "threshold"@);
    lemma_doc_get_concat(p2, b3, "threshold"@);
    lemma_doc_get_concat(p1, b2, "threshold"@);
}

/// What lookup of `replenish` finds in the members of a Infrast task.
proof fn infrast_get_replenish(t: InfrastTask)
    ensures
        doc_get(infrast_pairs(t), "replenish"@) == (match t.replenish { Option::None => Option::<JsonV>::None, Option::Some(b) => Option::Some(JsonV::Sc(ScalarV::Bool(b))) }),
{
    reveal_strlit("enable");
    reveal_strlit("mode");
    reveal_strlit("facility");
    reveal_strlit("drones");
    reveal_strlit("threshold");
    reveal_strlit("replenish");
    reveal_strlit("dorm_not_stationed_enabled");
    reveal_strlit("dorm_trust_enabled");
    reveal_strlit("reception_message_board");
    reveal_strlit("filename");
    reveal_strlit("plan_index");
    assert("replenish"@.len() != "enable"@.len());
    assert("replenish"@ != "enable"@);
    assert("replenish"@.len() != "mode"@.len());
    assert("replenish"@ != "mode"@);
    assert("replenish"@.len() != "facility"@.len());
    assert("replenish"@ != "facility"@);
    assert("replenish"@.len() != "drones"@.len());
    assert("replenish"@ != "drones"@);
    assert("replenish"@[0] != "threshold"@[0]);
    assert("replenish"@ != "threshold"@);
    assert("replenish"@.len() != "dorm_not_stationed_enabled"@.len());
    assert("replenish"@ != "dorm_not_stationed_enabled"@);
    assert("replenish"@.len() != "dorm_trust_enabled"@.len());
    assert("replenish"@ != "dorm_trust_enabled"@);
    assert("replenish"@.len() != "reception_message_board"@.len());
    assert("replenish"@ != "reception_message_board"@);
    assert("replenish"@.len() != "filename"@.len());
    assert("replenish"@ != "filename"@);
    assert("replenish"@.len() != "plan_index"@.len());
    assert("replenish"@ != "plan_index"@);
    let b1 = b_opt_bool("enable"@, t.enable);
    let b2 = b_opt_int("mode"@, t.mode);
    let b3 = b_str_list("facility"@, strs_view(t.facility@));
    let b4 = b_opt_str("drones"@, opt_str_view(t.drones));
    let b5 = b_opt_milli("threshold"@, t.threshold);
    let b6 = b_opt_bool("replenish"@, t.replenish);
    let b7 = b_opt_bool("dorm_not_stationed_enabled"@, t.dorm_not_stationed_enabled);
    let b8 = b_opt_bool("dorm_trust_enabled"@, t.dorm_trust_enabled);
    let b9 = b_opt_bool("reception_message_board"@, t.reception_message_board);
    let b10 = b_opt_str("filename"@, opt_str_view(t.filename));
    let b11 = b_opt_int("plan_index"@, t.plan_index);
    let p1 = b1;
    let p2 = p1 + b2;
    let p3 = p2 + b3;
    let p4 = p3 + b4;
    let p5 = p4 + b5;
    let p6 = p5 + b6;
    let p7 = p6 + b7;
    let p8 = p7 + b8;
    let p9 = p8 + b9;
    let p10 = p9 + b10;
    let p11 = p10 + b11;
    assert(infrast_pairs(t) == p11);
    lemma_doc_get_block(b1, "replenish"@);
    lemma_doc_get_block(b2, "replenish"@);
    lemma_doc_get_block(b3, "replenish"@);
    lemma_doc_get_block(b4, "replenish"@);
    lemma_doc_get_block(b5, "replenish"@);
    lemma_doc_get_block(b6, "replenish"@);
    lemma_doc_get_block(b7, "replenish"@);
    lemma_doc_get_block(b8, "replenish"@);
    lemma_doc_get_block(b9, "replenish"@);
    lemma_doc_get_block(b10, "replenish"@);
    lemma_doc_get_block(b11, "replenish"@);
    lemma_doc_get_concat(p10, b11, "replenish"@);
    lemma_doc_get_concat(p9, b10, "replenish"@);
    lemma_doc_get_concat(p8, b9, "replenish"@);
    lemma_doc_get_concat(p7, b8, "replenish"@);
    lemma_doc_get_concat(p6, b7, "replenish"@);
    lemma_doc_get_concat(p5, b6, "replenish"@);
    lemma_doc_get_concat(p4, b5, "replenish"@);
    lemma_doc_get_concat(p3, b4, "replenish"@);
    lemma_doc_get_concat(p2, b3, "replenish"@);
    lemma_doc_get_concat(p1, b2, "replenish"@);
}

/// What lookup of `dorm_not_stationed_enabled` finds in the members of a Infrast task.
proof fn infrast_get_dorm_not_stationed_enabled(t: InfrastTask)
    ensures
        doc_get(infrast_pairs(t), "dorm_not_stationed_enabled"@) == (match t.dorm_not_stationed_enabled { Option::None => Option::<JsonV>::None, Option::Some(b) => Option::Some(JsonV::Sc(ScalarV::Bool(b))) }),
{
    reveal_strlit("enable");
    reveal_strlit("mode");
    reveal_strlit("facility");
    reveal_strlit("drones");
    reveal_strlit("threshold");
    reveal_strlit("replenish");
    reveal_strlit("dorm_not_stationed_enabled");
    reveal_strlit("dorm_trust_enabled");
    reveal_strlit("reception_message_board");
    reveal_strlit("filename");
    reveal_strlit("plan_index");
    assert("dorm_not_stationed_enabled"@.len() != "enable"@.len());
    assert("dorm_not_stationed_enabled"@ != "enable"@);
    assert("dorm_not_stationed_enabled"@.len() != "mode"@.len());
    assert("dorm_not_stationed_enabled"@ != "mode"@);
    assert("dorm_not_stationed_enabled"@.len() != "facility"@.len());
    assert("dorm_not_stationed_enabled"@ != "facility"@);
    assert("dorm_not_stationed_enabled"@.len() != "drones"@.len());
    assert("dorm_not_stationed_enabled"@ != "drones"@);
    assert("dorm_not_stationed_enabled"@.len() != "threshold"@.len());
    assert("dorm_not_stationed_enabled"@ != "threshold"@);
    assert("dorm_not_stationed_enabled"@.len() != "replenish"@.len());
    assert("dorm_not_stationed_enabled"@ != "replenish"@);
    assert("dorm_not_stationed_enabled"@.len() != "dorm_trust_enabled"@.len());
    assert("dorm_not_stationed_enabled"@ != "dorm_trust_enabled"@);
    assert("dorm_not_stationed_enabled"@.len() != "reception_message_board"@.len());
    assert("dorm_not_stationed_enabled"@ != "reception_message_board"@);
    assert("dorm_not_stationed_enabled"@.len() != "filename"@.len());
    assert("dorm_not_stationed_enabled"@ != "filename"@);
    assert("dorm_not_stationed_enabled"@.len() != "plan_index"@.len());
    assert("dorm_not_stationed_enabled"@ != "plan_index"@);
    let b1 = b_opt_bool("enable"@, t.enable);
    let b2 = b_opt_int("mode"@, t.mode);
    let b3 = b_str_list("facility"@, strs_view(t.facility@));
    let b4 = b_opt_str("drones"@, opt_str_view(t.drones));
    let b5 = b_opt_milli("threshold"@, t.threshold);
    let b6 = b_opt_bool("replenish"@, t.replenish);
    let b7 = b_opt_bool("dorm_not_stationed_enabled"@, t.dorm_not_stationed_enabled);
    let b8 = b_opt_bool("dorm_trust_enabled"@, t.dorm_trust_enabled);
    let b9 = b_opt_bool("reception_message_board"@, t.reception_message_board);
    let b10 = b_opt_str("filename"@, opt_str_view(t.filename));
    let b11 = b_opt_int("plan_index"@, t.plan_index);
    let p1 = b1;
    let p2 = p1 + b2;
    let p3 = p2 + b3;
    let p4 = p3 + b4;
    let p5 = p4 + b5;
    let p6 = p5 + b6;
    let p7 = p6 + b7;
    let p8 = p7 + b8;
    let p9 = p8 + b9;
    let p10 = p9 + b10;
    let p11 = p10 + b11;
    assert(infrast_pairs(t) == p11);
    lemma_doc_get_block(b1, "dorm_not_stationed_enabled"@);
    lemma_doc_get_block(b2, "dorm_not_stationed_enabled"@);
    lemma_doc_get_block(b3, "dorm_not_stationed_enabled"@);
    lemma_doc_get_block(b4, "dorm_not_stationed_enabled"@);
    lemma_doc_get_block(b5, "dorm_not_stationed_enabled"@);
    lemma_doc_get_block(b6, "dorm_not_stationed_enabled"@);
    lemma_doc_get_block(b7, "dorm_not_stationed_enabled"@);
    lemma_doc_get_block(b8, "dorm_not_stationed_enabled"@);
    lemma_doc_get_block(b9, "dorm_not_stationed_enabled"@);
    lemma_doc_get_block(b10, "dorm_not_stationed_enabled"@);
    lemma_doc_get_block(b11, "dorm_not_stationed_enabled"@);
    lemma_doc_get_concat(p10, b11, "dorm_not_stationed_enabled"@);
    lemma_doc_get_concat(p9, b10, "dorm_not_stationed_enabled"@);
    lemma_doc_get_concat(p8, b9, "dorm_not_stationed_enabled"@);
    lemma_doc_get_concat(p7, b8, "dorm_not_stationed_enabled"@);
    lemma_doc_get_concat(p6, b7, "dorm_not_stationed_enabled"@);
    lemma_doc_get_concat(p5, b6, "dorm_not_stationed_enabled"@);
    lemma_doc_get_concat(p4, b5, "dorm_not_stationed_enabled"@);
    lemma_doc_get_concat(p3, b4, "dorm_not_stationed_enabled"@);
    lemma_doc_get_concat(p2, b3, "dorm_not_stationed_enabled"@);
    lemma_doc_get_concat(p1, b2, "dorm_not_stationed_enabled"@);
}

/// What lookup of `dorm_trust_enabled` finds in the members of a Infrast task.
proof fn infrast_get_dorm_trust_enabled(t: InfrastTask)
    ensures
        doc_get(infrast_pairs(t), "dorm_trust_enabled"@) == (match t.dorm_trust_enabled { Option::None => Option::<JsonV>::None, Option::Some(b) => Option::Some(JsonV::Sc(ScalarV::Bool(b))) }),
{
    reveal_strlit("enable");
    reveal_strlit("mode");
    reveal_strlit("facility");
    reveal_strlit("drones");
    reveal_strlit("threshold");
    reveal_strlit("replenish");
    reveal_strlit("dorm_not_stationed_enabled");
    reveal_strlit("dorm_trust_enabled");
    reveal_strlit("reception_message_board");
    reveal_strlit("filename");
    reveal_strlit("plan_index");
    assert("dorm_trust_enabled"@.len() != "enable"@.len());
    assert("dorm_trust_enabled"@ != "enable"@);
    assert("dorm_trust_enabled"@.len() != "mode"@.len());
    assert("dorm_trust_enabled"@ != "mode"@);
    assert("dorm_trust_enabled"@.len() != "facility"@.len());
    assert("dorm_trust_enabled"@ != "facility"@);
    assert("dorm_trust_enabled"@.len() != "drones"@.len());
    assert("dorm_trust_enabled"@ != "drones"@);
    assert("dorm_trust_enabled"@.len() != "threshold"@.len());
    assert("dorm_trust_enabled"@ != "threshold"@);
    assert("dorm_trust_enabled"@.len() != "replenish"@.len());
    assert("dorm_trust_enabled"@ != "replenish"@);
    assert("dorm_trust_enabled"@.len() != "dorm_not_stationed_enabled"@.len());
    assert("dorm_trust_enabled"@ != "dorm_not_stationed_enabled"@);
    assert("dorm_trust_enabled"@.len() != "reception_message_board"@.len());
    assert("dorm_trust_enabled"@ != "reception_message_board"@);
    assert("dorm_trust_enabled"@.len() != "filename"@.len());
    assert("dorm_trust_enabled"@ != "filename"@);
    assert("dorm_trust_enabled"@.len() != "plan_index"@.len());
    assert("dorm_trust_enabled"@ != "plan_index"@);
    let b1 = b_opt_bool("enable"@, t.enable);
    let b2 = b_opt_int("mode"@, t.mode);
    let b3 = b_str_list("facility"@, strs_view(t.facility@));
    let b4 = b_opt_str("drones"@, opt_str_view(t.drones));
    let b5 = b_opt_milli("threshold"@, t.threshold);
    let b6 = b_opt_bool("replenish"@, t.replenish);
    let b7 = b_opt_bool("dorm_not_stationed_enabled"@, t.dorm_not_stationed_enabled);
    let b8 = b_opt_bool("dorm_trust_enabled"@, t.dorm_trust_enabled);
    let b9 = b_opt_bool("reception_message_board"@, t.reception_message_board);
    let b10 = b_opt_str("filename"@, opt_str_view(t.filename));
    let b11 = b_opt_int("plan_index"@, t.plan_index);
    let p1 = b1;
    let p2 = p1 + b2;
    let p3 = p2 + b3;
    let p4 = p3 + b4;
    let p5 = p4 + b5;
    let p6 = p5 + b6;
    let p7 = p6 + b7;
    let p8 = p7 + b8;
    let p9 = p8 + b9;
    let p10 = p9 + b10;
    let p11 = p10 + b11;
    assert(infrast_pairs(t) == p11);
    lemma_doc_get_block(b1, "dorm_trust_enabled"@);
    lemma_doc_get_block(b2, "dorm_trust_enabled"@);
    lemma_doc_get_block(b3, "dorm_trust_enabled"@);
    lemma_doc_get_block(b4, "dorm_trust_enabled"@);
    lemma_doc_get_block(b5, "dorm_trust_enabled"@);
    lemma_doc_get_block(b6, "dorm_trust_enabled"@);
    lemma_doc_get_block(b7, "dorm_trust_enabled"@);
    lemma_doc_get_block(b8, "dorm_trust_enabled"@);
    lemma_doc_get_block(b9, "dorm_trust_enabled"@);
    lemma_doc_get_block(b10, "dorm_trust_enabled"@);
    lemma_doc_get_block(b11, "dorm_trust_enabled"@);
    lemma_doc_get_concat(p10, b11, "dorm_trust_enabled"@);
    lemma_doc_get_concat(p9, b10, "dorm_trust_enabled"@);
    lemma_doc_get_concat(p8, b9, "dorm_trust_enabled"@);
    lemma_doc_get_concat(p7, b8, "dorm_trust_enabled"@);
    lemma_doc_get_concat(p6, b7, "dorm_trust_enabled"@);
    lemma_doc_get_concat(p5, b6, "dorm_trust_enabled"@);
    lemma_doc_get_concat(p4, b5, "dorm_trust_enabled"@);
    lemma_doc_get_concat(p3, b4, "dorm_trust_enabled"@);
    lemma_doc_get_concat(p2, b3, "dorm_trust_enabled"@);
    lemma_doc_get_concat(p1, b2, "dorm_trust_enabled"@);
}

/// What lookup of `reception_message_board` finds in the members of a Infrast task.
proof fn infrast_get_reception_message_board(t: InfrastTask)
    ensures
        doc_get(infrast_pairs(t), "reception_message_board"@) == (match t.reception_message_board { Option::None => Option::<JsonV>::None, Option::Some(b) => Option::Some(JsonV::Sc(ScalarV::Bool(b))) }),
{
    reveal_strlit("enable");
    reveal_strlit("mode");
    reveal_strlit("facility");
    reveal_strlit("drones");
    reveal_strlit("threshold");
    reveal_strlit("replenish");
    reveal_strlit("dorm_not_stationed_enabled");
    reveal_strlit("dorm_trust_enabled");
    reveal_strlit("reception_message_board");
    reveal_strlit("filename");
    reveal_strlit("plan_index");
    assert("reception_message_board"@.len() != "enable"@.len());
    assert("reception_message_board"@ != "enable"@);
    assert("reception_message_board"@.len() != "mode"@.len());
    assert("reception_message_board"@ != "mode"@);
    assert("reception_message_board"@.len() != "facility"@.len());
    assert("reception_message_board"@ != "facility"@);
    assert("reception_message_board"@.len() != "drones"@.len());
    assert("reception_message_board"@ != "drones"@);
    assert("reception_message_board"@.len() != "threshold"@.len());
    assert("reception_message_board"@ != "threshold"@);
    assert("reception_message_board"@.len() != "replenish"@.len());
    assert("reception_message_board"@ != "replenish"@);
    assert("reception_message_board"@.len() != "dorm_not_stationed_enabled"@.len());
    assert("reception_message_board"@ != "dorm_not_stationed_enabled"@);
    assert("reception_message_board"@.len() != "dorm_trust_enabled"@.len());
    assert("reception_message_board"@ != "dorm_trust_enabled"@);
    assert("reception_message_board"@.len() != "filename"@.len());
    assert("reception_message_board"@ != "filename"@);
    assert("reception_message_board"@.len() != "plan_index"@.len());
    assert("reception_message_board"@ != "plan_index"@);
    let b1 = b_opt_bool("enable"@, t.enable);
    let b2 = b_opt_int("mode"@, t.mode);
    let b3 = b_str_list("facility"@, strs_view(t.facility@));
    let b4 = b_opt_str("drones"@, opt_str_view(t.drones));
    let b5 = b_opt_milli("threshold"@, t.threshold);
    let b6 = b_opt_bool("replenish"@, t.replenish);
    let b7 = b_opt_bool("dorm_not_stationed_enabled"@, t.dorm_not_stationed_enabled);
    let b8 = b_opt_bool("dorm_trust_enabled"@, t.dorm_trust_enabled);
    let b9 = b_opt_bool("reception_message_board"@, t.reception_message_board);
    let b10 = b_opt_str("filename"@, opt_str_view(t.filename));
    let b11 = b_opt_int("plan_index"@, t.plan_index);
    let p1 = b1;
    let p2 = p1 + b2;
    let p3 = p2 + b3;
    let p4 = p3 + b4;
    let p5 = p4 + b5;
    let p6 = p5 + b6;
    let p7 = p6 + b7;
    let p8 = p7 + b8;
    let p9 = p8 + b9;
    let p10 = p9 + b10;
    let p11 = p10 + b11;
    assert(infrast_pairs(t) == p11);
    lemma_doc_get_block(b1, "reception_message_board"@);
    lemma_doc_get_block(b2, "reception_message_board"@);
    lemma_doc_get_block(b3, "reception_message_board"@);
    lemma_doc_get_block(b4, "reception_message_board"@);
    lemma_doc_get_block(b5, "reception_message_board"@);
    lemma_doc_get_block(b6, "reception_message_board"@);
    lemma_doc_get_block(b7, "reception_message_board"@);
    lemma_doc_get_block(b8, "reception_message_board"@);
    lemma_doc_get_block(b9, "reception_message_board"@);
    lemma_doc_get_block(b10, "reception_message_board"@);
    lemma_doc_get_block(b11, "reception_message_board"@);
    lemma_doc_get_concat(p10, b11, "reception_message_board"@);
    lemma_doc_get_concat(p9, b10, "reception_message_board"@);
    lemma_doc_get_concat(p8, b9, "reception_message_board"@);
    lemma_doc_get_concat(p7, b8, "reception_message_board"@);
    lemma_doc_get_concat(p6, b7, "reception_message_board"@);
    lemma_doc_get_concat(p5, b6, "reception_message_board"@);
    lemma_doc_get_concat(p4, b5, "reception_message_board"@);
    lemma_doc_get_concat(p3, b4, "reception_message_board"@);
    lemma_doc_get_concat(p2, b3, "reception_message_board"@);
    lemma_doc_get_concat(p1, b2, "reception_message_board"@);
}

/// What lookup of `filename` finds in the members of a Infrast task.
proof fn infrast_get_filename(t: InfrastTask)
    ensures
        doc_get(infrast_pairs(t), "filename"@) == (match t.filename { Option::None => Option::<JsonV>::None, Option::Some(s) => Option::Some(JsonV::Sc(ScalarV::Str(s@))) }),
{
    reveal_strlit("enable");
    reveal_strlit("mode");
    reveal_strlit("facility");
    reveal_strlit("drones");
    reveal_strlit("threshold");
    reveal_strlit("replenish");
    reveal_strlit("dorm_not_stationed_enabled");
    reveal_strlit("dorm_trust_enabled");
    reveal_strlit("reception_message_board");
    reveal_strlit("filename");
    reveal_strlit("plan_index");
    assert("filename"@.len() != "enable"@.len());
    assert("filename"@ != "enable"@);
    assert("filename"@.len() != "mode"@.len());
    assert("filename"@ != "mode"@);
    assert("filename"@[1] != "facility"@[1]);
    assert("filename"@ != "facility"@);
    assert("filename"@.len() != "drones"@.len());
    assert("filename"@ != "drones"@);
    assert("filename"@.len() != "threshold"@.len());
    assert("filename"@ != "threshold"@);
    assert("filename"@.len() != "replenish"@.len());
    assert("filename"@ != "replenish"@);
    assert("filename"@.len() != "dorm_not_stationed_enabled"@.len());
    assert("filename"@ != "dorm_not_stationed_enabled"@);
    assert("filename"@.len() != "dorm_trust_enabled"@.len());
    assert("filename"@ != "dorm_trust_enabled"@);
    assert("filename"@.len() != "reception_message_board"@.len());
    assert("filename"@ != "reception_message_board"@);
    assert("filename"@.len() != "plan_index"@.len());
    assert("filename"@ != "plan_index"@);
    let b1 = b_opt_bool("enable"@, t.enable);
    let b2 = b_opt_int("mode"@, t.mode);
    let b3 = b_str_list("facility"@, strs_view(t.facility@));
    let b4 = b_opt_str("drones"@, opt_str_view(t.drones));
    let b5 = b_opt_milli("threshold"@, t.threshold);
    let b6 = b_opt_bool("replenish"@, t.replenish);
    let b7 = b_opt_bool("dorm_not_stationed_enabled"@, t.dorm_not_stationed_enabled);
    let b8 = b_opt_bool("dorm_trust_enabled"@, t.dorm_trust_enabled);
    let b9 = b_opt_bool("reception_message_board"@, t.reception_message_board);
    let b10 = b_opt_str("filename"@, opt_str_view(t.filename));
    let b11 = b_opt_int("plan_index"@, t.plan_index);
    let p1 = b1;
    let p2 = p1 + b2;
    let p3 = p2 + b3;
    let p4 = p3 + b4;
    let p5 = p4 + b5;
    let p6 = p5 + b6;
    let p7 = p6 + b7;
    let p8 = p7 + b8;
    let p9 = p8 + b9;
    let p10 = p9 + b10;
    let p11 = p10 + b11;
    assert(infrast_pairs(t) == p11);
    lemma_doc_get_block(b1, "filename"@);
    lemma_doc_get_block(b2, "filename"@);
    lemma_doc_get_block(b3, "filename"@);
    lemma_doc_get_block(b4, "filename"@);
    lemma_doc_get_block(b5, "filename"@);
    lemma_doc_get_block(b6, "filename"@);
    lemma_doc_get_block(b7, "filename"@);
    lemma_doc_get_block(b8, "filename"@);
    lemma_doc_get_block(b9, "filename"@);
    lemma_doc_get_block(b10, "filename"@);
    lemma_doc_get_block(b11, "filename"@);
    lemma_doc_get_concat(p10, b11, "filename"@);
    lemma_doc_get_concat(p9, b10, "filename"@);
    lemma_doc_get_concat(p8, b9, "filename"@);
    lemma_doc_get_concat(p7, b8, "filename"@);
    lemma_doc_get_concat(p6, b7, "filename"@);
    lemma_doc_get_concat(p5, b6, "filename"@);
    lemma_doc_get_concat(p4, b5, "filename"@);
    lemma_doc_get_concat(p3, b4, "filename"@);
    lemma_doc_get_concat(p2, b3, "filename"@);
    lemma_doc_get_concat(p1, b2, "filename"@);
}

/// What lookup of `plan_index` finds in the members of a Infrast task.
proof fn infrast_get_plan_index(t: InfrastTask)
    ensures
        doc_get(infrast_pairs(t), "plan_index"@) == (match t.plan_index { Option::None => Option::<JsonV>::None, Option::Some(i) => Option::Some(JsonV::Sc(ScalarV::Int(i as int))) }),
{
    reveal_strlit("enable");
    reveal_strlit("mode");
    reveal_strlit("facility");
    reveal_strlit("drones");
    reveal_strlit("threshold");
    reveal_strlit("replenish");
    reveal_strlit("dorm_not_stationed_enabled");
    reveal_strlit("dorm_trust_enabled");
    reveal_strlit("reception_message_board");
    reveal_strlit("filename");
    reveal_strlit("plan_index");
    assert("plan_index"@.len() != "enable"@.len());
    assert("plan_index"@ != "enable"@);
    assert("plan_index"@.len() != "mode"@.len());
    assert("plan_index"@ != "mode"@);
    assert("plan_index"@.len() != "facility"@.len());
    assert("plan_index"@ != "facility"@);
    assert("plan_index"@.len() != "drones"@.len());
    assert("plan_index"@ != "drones"@);
    assert("plan_index"@.len() != "threshold"@.len());
    assert("plan_index"@ != "threshold"@);
    assert("plan_index"@.len() != "replenish"@.len());
    assert("plan_index"@ != "replenish"@);
    assert("plan_index"@.len() != "dorm_not_stationed_enabled"@.len());
    assert("plan_index"@ != "dorm_not_stationed_enabled"@);
    assert("plan_index"@.len() != "dorm_trust_enabled"@.len());
    assert("plan_index"@ != "dorm_trust_enabled"@);
    assert("plan_index"@.len() != "reception_message_board"@.len());
    assert("plan_index"@ != "reception_message_board"@);
    assert("plan_index"@.len() != "filename"@.len());
    assert("plan_index"@ != "filename"@);
    let b1 = b_opt_bool("enable"@, t.enable);
    let b2 = b_opt_int("mode"@, t.mode);
    let b3 = b_str_list("facility"@, strs_view(t.facility@));
    let b4 = b_opt_str("drones"@, opt_str_view(t.drones));
    let b5 = b_opt_milli("threshold"@, t.threshold);
    let b6 = b_opt_bool("replenish"@, t.replenish);
    let b7 = b_opt_bool("dorm_not_stationed_enabled"@, t.dorm_not_stationed_enabled);
    let b8 = b_opt_bool("dorm_trust_enabled"@, t.dorm_trust_enabled);
    let b9 = b_opt_bool("reception_message_board"@, t.reception_message_board);
    let b10 = b_opt_str("filename"@, opt_str_view(t.filename));
    let b11 = b_opt_int("plan_index"@, t.plan_index);
    let p1 = b1;
    let p2 = p1 + b2;
    let p3 = p2 + b3;
    let p4 = p3 + b4;
    let p5 = p4 + b5;
    let p6 = p5 + b6;
    let p7 = p6 + b7;
    let p8 = p7 + b8;
    let p9 = p8 + b9;
    let p10 = p9 + b10;
    let p11 = p10 + b11;
    assert(infrast_pairs(t) == p11);
    lemma_doc_get_block(b1, "plan_index"@);
    lemma_doc_get_block(b2, "plan_index"@);
    lemma_doc_get_block(b3, "plan_index"@);
    lemma_doc_get_block(b4, "plan_index"@);
    lemma_doc_get_block(b5, "plan_index"@);
    lemma_doc_get_block(b6, "plan_index"@);
    lemma_doc_get_block(b7, "plan_index"@);
    lemma_doc_get_block(b8, "plan_index"@);
    lemma_doc_get_block(b9, "plan_index"@);
    lemma_doc_get_block(b10, "plan_index"@);
    lemma_doc_get_block(b11, "plan_index"@);
    lemma_doc_get_concat(p10, b11, "plan_index"@);
    lemma_doc_get_concat(p9, b10, "plan_index"@);
    lemma_doc_get_concat(p8, b9, "plan_index"@);
    lemma_doc_get_concat(p7, b8, "plan_index"@);
    lemma_doc_get_concat(p6, b7, "plan_index"@);
    lemma_doc_get_concat(p5, b6, "plan_index"@);
    lemma_doc_get_concat(p4, b5, "plan_index"@);
    lemma_doc_get_concat(p3, b4, "plan_index"@);
    lemma_doc_get_concat(p2, b3, "plan_index"@);
    lemma_doc_get_concat(p1, b2, "plan_index"@);
}

/// Writing a Infrast task and reading the text back yields every
/// field unchanged.
pub proof fn lemma_infrast_round_trip(t: InfrastTask)
    ensures
        text_to_doc(doc_text(infrast_pairs(t))) == Option::Some(infrast_pairs(t)),
        infrast_ok(infrast_pairs(t)),
        (match sget_opt_bool(infrast_pairs(t), "enable"@) {
            Result::Ok(v) => t.enable == v,
            Result::Err(_) => false,
        }),
        (match sget_opt_int(infrast_pairs(t), "mode"@) {
            Result::Ok(v) => t.mode == v,
            Result::Err(_) => false,
        }),
        (match sget_str_list(infrast_pairs(t), "facility"@) {
            Result::Ok(v) => strs_view(t.facility@) == v,
            Result::Err(_) => false,
        }),
        (match sget_opt_str(infrast_pairs(t), "drones"@) {
            Result::Ok(v) => opt_str_view(t.drones) == v,
            Result::Err(_) => false,
        }),
        (match sget_opt_milli(infrast_pairs(t), "threshold"@) {
            Result::Ok(v) => t.threshold == v,
            Result::Err(_) => false,
        }),
        (match sget_opt_bool(infrast_pairs(t), "replenish"@) {
            Result::Ok(v) => t.replenish == v,
            Result::Err(_) => false,
        }),
        (match sget_opt_bool(infrast_pairs(t), "dorm_not_stationed_enabled"@) {
            Result::Ok(v) => t.dorm_not_stationed_enabled == v,
            Result::Err(_) => false,
        }),
        (match sget_opt_bool(infrast_pairs(t), "dorm_trust_enabled"@) {
            Result::Ok(v) => t.dorm_trust_enabled == v,
            Result::Err(_) => false,
        }),
        (match sget_opt_bool(infrast_pairs(t), "reception_message_board"@) {
            Result::Ok(v) => t.reception_message_board == v,
            Result::Err(_) => false,
        }),
        (match sget_opt_str(infrast_pairs(t), "filename"@) {
            Result::Ok(v) => opt_str_view(t.filename) == v,
            Result::Err(_) => false,
        }),
        (match sget_opt_int(infrast_pairs(t), "plan_index"@) {
            Result::Ok(v) => t.plan_index == v,
            Result::Err(_) => false,
        }),
{
    let ps = infrast_pairs(t);
    infrast_get_enable(t);
    infrast_get_mode(t);
    infrast_get_facility(t);
    infrast_get_drones(t);
    infrast_get_threshold(t);
    infrast_get_replenish(t);
    infrast_get_dorm_not_stationed_enabled(t);
    infrast_get_dorm_trust_enabled(t);
    infrast_get_reception_message_board(t);
    infrast_get_filename(t);
    infrast_get_plan_index(t);
    lemma_blocks_valid("enable"@);
    lemma_blocks_valid("mode"@);
    lemma_blocks_valid("facility"@);
    lemma_blocks_valid("drones"@);
    lemma_blocks_valid("threshold"@);
    lemma_blocks_valid("replenish"@);
    lemma_blocks_valid("dorm_not_stationed_enabled"@);
    lemma_blocks_valid("dorm_trust_enabled"@);
    lemma_blocks_valid("reception_message_board"@);
    lemma_blocks_valid("filename"@);
    lemma_blocks_valid("plan_index"@);
    let b1 = b_opt_bool("enable"@, t.enable);
    let b2 = b_opt_int("mode"@, t.mode);
    let b3 = b_str_list("facility"@, strs_view(t.facility@));
    let b4 = b_opt_str("drones"@, opt_str_view(t.drones));
    let b5 = b_opt_milli("threshold"@, t.threshold);
    let b6 = b_opt_bool("replenish"@, t.replenish);
    let b7 = b_opt_bool("dorm_not_stationed_enabled"@, t.dorm_not_stationed_enabled);
    let b8 = b_opt_bool("dorm_trust_enabled"@, t.dorm_trust_enabled);
    let b9 = b_opt_bool("reception_message_board"@, t.reception_message_board);
    let b10 = b_opt_str("filename"@, opt_str_view(t.filename));
    let b11 = b_opt_int("plan_index"@, t.plan_index);
    let p1 = b1;
    let p2 = p1 + b2;
    let p3 = p2 + b3;
    let p4 = p3 + b4;
    let p5 = p4 + b5;
    let p6 = p5 + b6;
    let p7 = p6 + b7;
    let p8 = p7 + b8;
    let p9 = p8 + b9;
    let p10 = p9 + b10;
    let p11 = p10 + b11;
    assert(doc_valid(p1));
    lemma_doc_valid_concat(p1, b2);
    lemma_doc_valid_concat(p2, b3);
    lemma_doc_valid_concat(p3, b4);
    lemma_doc_valid_concat(p4, b5);
    lemma_doc_valid_concat(p5, b6);
    lemma_doc_valid_concat(p6, b7);
    lemma_doc_valid_concat(p7, b8);
    lemma_doc_valid_concat(p8, b9);
    lemma_doc_valid_concat(p9, b10);
    lemma_doc_valid_concat(p10, b11);
    assert(ps == p11);
    lemma_doc_round_trip(ps);
    lemma_strs_of_list(strs_view(t.facility@));
}

/// Parameters of the Mall task.
#[derive(Clone, Debug, PartialEq)]
pub struct MallTask {
    /// The optional boolean field `enable`.
    pub enable: Option<bool>,
    /// The optional boolean field `shopping`.
    pub shopping: Option<bool>,
    /// The optional string-list field `buy_first`.
    pub buy_first: Option<Vec<String>>,
    /// The optional string-list field `blacklist`.
    pub blacklist: Option<Vec<String>>,
    /// The optional boolean field `force_shopping_if_credit_full`.
    pub force_shopping_if_credit_full: Option<bool>,
    /// The optional boolean field `only_buy_discount`.
    pub only_buy_discount: Option<bool>,
    /// The optional boolean field `reserve_max_credit`.
    pub reserve_max_credit: Option<bool>,
}

/// The document members of a Mall task, in writing order.
pub open spec fn mall_pairs(t: MallTask) -> Seq<(Seq<char>, JsonV)> {
    b_opt_bool("enable"@, t.enable) + b_opt_bool("shopping"@, t.shopping) + b_opt_str_list("buy_first"@, (match t.buy_first { Option::None => Option::None, Option::Some(l) => Option::Some(strs_view(l@)) })) + b_opt_str_list("blacklist"@, (match t.blacklist { Option::None => Option::None, Option::Some(l) => Option::Some(strs_view(l@)) })) + b_opt_bool("force_shopping_if_credit_full"@, t.force_shopping_if_credit_full) + b_opt_bool("only_buy_discount"@, t.only_buy_discount) + b_opt_bool("reserve_max_credit"@, t.reserve_max_credit)
}

/// Whether every known key of a parsed document holds the right shape
/// for the Mall task, with every required key present.
pub open spec fn mall_ok(pairs: Seq<(Seq<char>, JsonV)>) -> bool {
    sget_opt_bool(pairs, "enable"@) is Ok
    && sget_opt_bool(pairs, "shopping"@) is Ok
    && sget_opt_str_list(pairs, "buy_first"@) is Ok
    && sget_opt_str_list(pairs, "blacklist"@) is Ok
    && sget_opt_bool(pairs, "force_shopping_if_credit_full"@) is Ok
    && sget_opt_bool(pairs, "only_buy_discount"@) is Ok
    && sget_opt_bool(pairs, "reserve_max_credit"@) is Ok
}

/// The first field error met reading a parsed document as a Mall task.
pub open spec fn mall_first_err(pairs: Seq<(Seq<char>, JsonV)>) -> TaskError {
    match sget_opt_bool(pairs, "enable"@) {
        Result::Err(e) => e,
        Result::Ok(_) => match sget_opt_bool(pairs, "shopping"@) {
        Result::Err(e) => e,
        Result::Ok(_) => match sget_opt_str_list(pairs, "buy_first"@) {
        Result::Err(e) => e,
        Result::Ok(_) => match sget_opt_str_list(pairs, "blacklist"@) {
        Result::Err(e) => e,
        Result::Ok(_) => match sget_opt_bool(pairs, "force_shopping_if_credit_full"@) {
        Result::Err(e) => e,
        Result::Ok(_) => match sget_opt_bool(pairs, "only_buy_discount"@) {
        Result::Err(e) => e,
        Result::Ok(_) => match sget_opt_bool(pairs, "reserve_max_credit"@) {
        Result::Err(e) => e,
        Result::Ok(_) => TaskError::WrongType,
    },
    },
    },
    },
    },
    },
    }
}

impl MallTask {
    /// The stable type tag the engine knows the task by.
    pub fn task_type(&self) -> (r: &'static str)
        ensures
            r@ == "Mall"@,
    {
        "Mall"
    }

    /// The stable human-readable name of the task kind.
    pub fn task_name(&self) -> (r: &'static str)
        ensures
            r@ == "商店"@,
    {
        "商店"
    }

    /// The canonical JSON parameter string: present fields only, in
    /// declaration order.
    pub fn to_json(&self) -> (r: String)
        ensures
            r@ == doc_text(mall_pairs(*self)),
    {
        let mut out: Vec<(String, Json)> = Vec::new();
        proof {
            assert(doc_view(out@) =~= Seq::<(Seq<char>, JsonV)>::empty());
        }
        push_opt_bool(&mut out, "enable", &self.enable);
        push_opt_bool(&mut out, "shopping", &self.shopping);
        push_opt_str_list(&mut out, "buy_first", &self.buy_first);
        push_opt_str_list(&mut out, "blacklist", &self.blacklist);
        push_opt_bool(&mut out, "force_shopping_if_credit_full", &self.force_shopping_if_credit_full);
        push_opt_bool(&mut out, "only_buy_discount", &self.only_buy_discount);
        push_opt_bool(&mut out, "reserve_max_credit", &self.reserve_max_credit);
        proof {
            assert(doc_view(out@) =~= mall_pairs(*self));
        }
        write_doc(&out)
    }

    /// Read a task back from a canonical JSON parameter string.
    pub fn from_json(s: &str) -> (r: Result<MallTask, TaskError>)
        ensures
            match text_to_doc(s@) {
                Option::None => r == Result::<MallTask, TaskError>::Err(TaskError::NotCanonical),
                Option::Some(pairs) => if mall_ok(pairs) {
                    &&& r is Ok
                    &&& (match (r, sget_opt_bool(pairs, "enable"@)) {
                        (Result::Ok(t), Result::Ok(v)) => t.enable == v,
                        _ => false,
                    })
                    &&& (match (r, sget_opt_bool(pairs, "shopping"@)) {
                        (Result::Ok(t), Result::Ok(v)) => t.shopping == v,
                        _ => false,
                    })
                    &&& (match (r, sget_opt_str_list(pairs, "buy_first"@)) {
                        (Result::Ok(t), Result::Ok(v)) => v == (match t.buy_first { Option::None => Option::None, Option::Some(l) => Option::Some(strs_view(l@)) }),
                        _ => false,
                    })
                    &&& (match (r, sget_opt_str_list(pairs, "blacklist"@)) {
                        (Result::Ok(t), Result::Ok(v)) => v == (match t.blacklist { Option::None => Option::None, Option::Some(l) => Option::Some(strs_view(l@)) }),
                        _ => false,
                    })
                    &&& (match (r, sget_opt_bool(pairs, "force_shopping_if_credit_full"@)) {
                        (Result::Ok(t), Result::Ok(v)) => t.force_shopping_if_credit_full == v,
                        _ => false,
                    })
                    &&& (match (r, sget_opt_bool(pairs, "only_buy_discount"@)) {
                        (Result::Ok(t), Result::Ok(v)) => t.only_buy_discount == v,
                        _ => false,
                    })
                    &&& (match (r, sget_opt_bool(pairs, "reserve_max_credit"@)) {
                        (Result::Ok(t), Result::Ok(v)) => t.reserve_max_credit == v,
                        _ => false,
                    })
                } else {
                    r == Result::<MallTask, TaskError>::Err(mall_first_err(pairs))
                },
            },
    {
        let pairs = match parse_doc(s) {
            Option::Some(p) => p,
            Option::None => {
                return Result::Err(TaskError::NotCanonical);
            },
        };
        let enable = match get_opt_bool(&pairs, "enable") {
            Result::Ok(v) => v,
            Result::Err(e) => {
                return Result::Err(e);
            },
        };
        let shopping = match get_opt_bool(&pairs, "shopping") {
            Result::Ok(v) => v,
            Result::Err(e) => {
                return Result::Err(e);
            },
        };
        let buy_first = match get_opt_str_list(&pairs, "buy_first") {
            Result::Ok(v) => v,
            Result::Err(e) => {
                return Result::Err(e);
            },
        };
        let blacklist = match get_opt_str_list(&pairs, "blacklist") {
            Result::Ok(v) => v,
            Result::Err(e) => {
                return Result::Err(e);
            },
        };
        let force_shopping_if_credit_full = match get_opt_bool(&pairs, "force_shopping_if_credit_full") {
            Result::Ok(v) => v,
            Result::Err(e) => {
                return Result::Err(e);
            },
        };
        let only_buy_discount = match get_opt_bool(&pairs, "only_buy_discount") {
            Result::Ok(v) => v,
            Result::Err(e) => {
                return Result::Err(e);
            },
        };
        let reserve_max_credit = match get_opt_bool(&pairs, "reserve_max_credit") {
            Result::Ok(v) => v,
            Result::Err(e) => {
                return Result::Err(e);
            },
        };
        Result::Ok(MallTask { enable, shopping, buy_first, blacklist, force_shopping_if_credit_full, only_buy_discount, reserve_max_credit })
    }

    /// A task with no field set.
    pub fn new() -> (r: Self)
        ensures
            r.enable is None,
            r.shopping is None,
            r.buy_first is None,
            r.blacklist is None,
            r.force_shopping_if_credit_full is None,
            r.only_buy_discount is None,
            r.reserve_max_credit is None,
    {
        MallTask { enable: Option::None, shopping: Option::None, buy_first: Option::None, blacklist: Option::None, force_shopping_if_credit_full: Option::None, only_buy_discount: Option::None, reserve_max_credit: Option::None }
    }

    /// A builder with no field set.
    pub fn builder() -> (r: MallTaskBuilder)
        ensures
            r.enable is None,
            r.shopping is None,
            r.buy_first is None,
            r.blacklist is None,
            r.force_shopping_if_credit_full is None,
            r.only_buy_discount is None,
            r.reserve_max_credit is None,
    {
        MallTaskBuilder { enable: Option::None, shopping: Option::None, buy_first: Option::None, blacklist: Option::None, force_shopping_if_credit_full: Option::None, only_buy_discount: Option::None, reserve_max_credit: Option::None }
    }
}

/// Step-by-step construction of a Mall task.
pub struct MallTaskBuilder {
    /// The optional boolean field `enable`, once set.
    pub enable: Option<bool>,
    /// The optional boolean field `shopping`, once set.
    pub shopping: Option<bool>,
    /// The optional string-list field `buy_first`, once set.
    pub buy_first: Option<Vec<String>>,
    /// The optional string-list field `blacklist`, once set.
    pub blacklist: Option<Vec<String>>,
    /// The optional boolean field `force_shopping_if_credit_full`, once set.
    pub force_shopping_if_credit_full: Option<bool>,
    /// The optional boolean field `only_buy_discount`, once set.
    pub only_buy_discount: Option<bool>,
    /// The optional boolean field `reserve_max_credit`, once set.
    pub reserve_max_credit: Option<bool>,
}

impl MallTaskBuilder {
    /// Set the optional boolean field `enable`.
    pub fn enable(self, enable: bool) -> (r: Self)
        ensures
            r.enable == Option::Some(enable),
            r.shopping == self.shopping,
            r.buy_first == self.buy_first,
            r.blacklist == self.blacklist,
            r.force_shopping_if_credit_full == self.force_shopping_if_credit_full,
            r.only_buy_discount == self.only_buy_discount,
            r.reserve_max_credit == self.reserve_max_credit,
    {
        let mut this = self;
        this.enable = Option::Some(enable);
        this
    }

    /// Set the optional boolean field `shopping`.
    pub fn shopping(self, shopping: bool) -> (r: Self)
        ensures
            r.shopping == Option::Some(shopping),
            r.enable == self.enable,
            r.buy_first == self.buy_first,
            r.blacklist == self.blacklist,
            r.force_shopping_if_credit_full == self.force_shopping_if_credit_full,
            r.only_buy_discount == self.only_buy_discount,
            r.reserve_max_credit == self.reserve_max_credit,
    {
        let mut this = self;
        this.shopping = Option::Some(shopping);
        this
    }

    /// Set the optional string-list field `buy_first`.
    pub fn buy_first(self, buy_first: Vec<String>) -> (r: Self)
        ensures
            r.buy_first == Option::Some(buy_first),
            r.enable == self.enable,
            r.shopping == self.shopping,
            r.blacklist == self.blacklist,
            r.force_shopping_if_credit_full == self.force_shopping_if_credit_full,
            r.only_buy_discount == self.only_buy_discount,
            r.reserve_max_credit == self.reserve_max_credit,
    {
        let mut this = self;
        this.buy_first = Option::Some(buy_first);
        this
    }

    /// Set the optional string-list field `blacklist`.
    pub fn blacklist(self, blacklist: Vec<String>) -> (r: Self)
        ensures
            r.blacklist == Option::Some(blacklist),
            r.enable == self.enable,
            r.shopping == self.shopping,
            r.buy_first == self.buy_first,
            r.force_shopping_if_credit_full == self.force_shopping_if_credit_full,
            r.only_buy_discount == self.only_buy_discount,
            r.reserve_max_credit == self.reserve_max_credit,
    {
        let mut this = self;
        this.blacklist = Option::Some(blacklist);
        this
    }

    /// Set the optional boolean field `force_shopping_if_credit_full`.
    pub fn force_shopping_if_credit_full(self, force_shopping_if_credit_full: bool) -> (r: Self)
        ensures
            r.force_shopping_if_credit_full == Option::Some(force_shopping_if_credit_full),
            r.enable == self.enable,
            r.shopping == self.shopping,
            r.buy_first == self.buy_first,
            r.blacklist == self.blacklist,
            r.only_buy_discount == self.only_buy_discount,
            r.reserve_max_credit == self.reserve_max_credit,
    {
        let mut this = self;
        this.force_shopping_if_credit_full = Option::Some(force_shopping_if_credit_full);
        this
    }

    /// Set the optional boolean field `only_buy_discount`.
    pub fn only_buy_discount(self, only_buy_discount: bool) -> (r: Self)
        ensures
            r.only_buy_discount == Option::Some(only_buy_discount),
            r.enable == self.enable,
            r.shopping == self.shopping,
            r.buy_first == self.buy_first,
            r.blacklist == self.blacklist,
            r.force_shopping_if_credit_full == self.force_shopping_if_credit_full,
            r.reserve_max_credit == self.reserve_max_credit,
    {
        let mut this = self;
        this.only_buy_discount = Option::Some(only_buy_discount);
        this
    }

    /// Set the optional boolean field `reserve_max_credit`.
    pub fn reserve_max_credit(self, reserve_max_credit: bool) -> (r: Self)
        ensures
            r.reserve_max_credit == Option::Some(reserve_max_credit),
            r.enable == self.enable,
            r.shopping == self.shopping,
            r.buy_first == self.buy_first,
            r.blacklist == self.blacklist,
            r.force_shopping_if_credit_full == self.force_shopping_if_credit_full,
            r.only_buy_discount == self.only_buy_discount,
    {
        let mut this = self;
        this.reserve_max_credit = Option::Some(reserve_max_credit);
        this
    }

    /// The finished task.
    pub fn build(self) -> (r: MallTask)
        ensures
            r.enable == self.enable,
            r.shopping == self.shopping,
            r.buy_first == self.buy_first,
            r.blacklist == self.blacklist,
            r.force_shopping_if_credit_full == self.force_shopping_if_credit_full,
            r.only_buy_discount == self.only_buy_discount,
            r.reserve_max_credit == self.reserve_max_credit,
    {
        MallTask { enable: self.enable, shopping: self.shopping, buy_first: self.buy_first, blacklist: self.blacklist, force_shopping_if_credit_full: self.force_shopping_if_credit_full, only_buy_discount: self.only_buy_discount, reserve_max_credit: self.reserve_max_credit } 
    }
}

/// What lookup of `enable` finds in the members of a Mall task.
proof fn mall_get_enable(t: MallTask)
    ensures
        doc_get(mall_pairs(t), "enable"@) == (match t.enable { Option::None => Option::<JsonV>::None, Option::Some(b) => Option::Some(JsonV::Sc(ScalarV::Bool(b))) }),
{
    reveal_strlit("enable");
    reveal_strlit("shopping");
    reveal_strlit("buy_first");
    reveal_strlit("blacklist");
    reveal_strlit("force_shopping_if_credit_full");
    reveal_strlit("only_buy_discount");
    reveal_strlit("reserve_max_credit");
    assert("enable"@.len() != "shopping"@.len());
    assert("enable"@ != "shopping"@);
    assert("enable"@.len() != "buy_first"@.len());
    assert("enable"@ != "buy_first"@);
    assert("enable"@.len() != "blacklist"@.len());
    assert("enable"@ != "blacklist"@);
    assert("enable"@.len() != "force_shopping_if_credit_full"@.len());
    assert("enable"@ != "force_shopping_if_credit_full"@);
    assert("enable"@.len() != "only_buy_discount"@.len());
    assert("enable"@ != "only_buy_discount"@);
    assert("enable"@.len() != "reserve_max_credit"@.len());
    assert("enable"@ != "reserve_max_credit"@);
    let b1 = b_opt_bool("enable"@, t.enable);
    let b2 = b_opt_bool("shopping"@, t.shopping);
    let b3 = b_opt_str_list("buy_first"@, (match t.buy_first { Option::None => Option::None, Option::Some(l) => Option::Some(strs_view(l@)) }));
    let b4 = b_opt_str_list("blacklist"@, (match t.blacklist { Option::None => Option::None, Option::Some(l) => Option::Some(strs_view(l@)) }));
    let b5 = b_opt_bool("force_shopping_if_credit_full"@, t.force_shopping_if_credit_full);
    let b6 = b_opt_bool("only_buy_discount"@, t.only_buy_discount);
    let b7 = b_opt_bool("reserve_max_credit"@, t.reserve_max_credit);
    let p1 = b1;
    let p2 = p1 + b2;
    let p3 = p2 + b3;
    let p4 = p3 + b4;
    let p5 = p4 + b5;
    let p6 = p5 + b6;
    let p7 = p6 + b7;
    assert(mall_pairs(t) == p7);
    lemma_doc_get_block(b1, "enable"@);
    lemma_doc_get_block(b2, "enable"@);
    lemma_doc_get_block(b3, "enable"@);
    lemma_doc_get_block(b4, "enable"@);
    lemma_doc_get_block(b5, "enable"@);
    lemma_doc_get_block(b6, "enable"@);
    lemma_doc_get_block(b7, "enable"@);
    lemma_doc_get_concat(p6, b7, "enable"@);
    lemma_doc_get_concat(p5, b6, "enable"@);
    lemma_doc_get_concat(p4, b5, "enable"@);
    lemma_doc_get_concat(p3, b4, "enable"@);
    lemma_doc_get_concat(p2, b3, "enable"@);
    lemma_doc_get_concat(p1, b2, "enable"@);
}

/// What lookup of `shopping` finds in the members of a Mall task.
proof fn mall_get_shopping(t: MallTask)
    ensures
        doc_get(mall_pairs(t), "shopping"@) == (match t.shopping { Option::None => Option::<JsonV>::None, Option::Some(b) => Option::Some(JsonV::Sc(ScalarV::Bool(b))) }),
{
    reveal_strlit("enable");
    reveal_strlit("shopping");
    reveal_strlit("buy_first");
    reveal_strlit("blacklist");
    reveal_strlit("force_shopping_if_credit_full");
    reveal_strlit("only_buy_discount");
    reveal_strlit("reserve_max_credit");
    assert("shopping"@.len() != "enable"@.len());
    assert("shopping"@ != "enable"@);
    assert("shopping"@.len() != "buy_first"@.len());
    assert("shopping"@ != "buy_first"@);
    assert("shopping"@.len() != "blacklist"@.len());
    assert("shopping"@ != "blacklist"@);
    assert("shopping"@.len() != "force_shopping_if_credit_full"@.len());
    assert("shopping"@ != "force_shopping_if_credit_full"@);
    assert("shopping"@.len() != "only_buy_discount"@.len());
    assert("shopping"@ != "only_buy_discount"@);
    assert("shopping"@.len() != "reserve_max_credit"@.len());
    assert("shopping"@ != "reserve_max_credit"@);
    let b1 = b_opt_bool("enable"@, t.enable);
    let b2 = b_opt_bool("shopping"@, t.shopping);
    let b3 = b_opt_str_list("buy_first"@, (match t.buy_first { Option::None => Option::None, Option::Some(l) => Option::Some(strs_view(l@)) }));
    let b4 = b_opt_str_list("blacklist"@, (match t.blacklist { Option::None => Option::None, Option::Some(l) => Option::Some(strs_view(l@)) }));
    let b5 = b_opt_bool("force_shopping_if_credit_full"@, t.force_shopping_if_credit_full);
    let b6 = b_opt_bool("only_buy_discount"@, t.only_buy_discount);
    let b7 = b_opt_bool("reserve_max_credit"@, t.reserve_max_credit);
    let p1 = b1;
    let p2 = p1 + b2;
    let p3 = p2 + b3;
    let p4 = p3 + b4;
    let p5 = p4 + b5;
    let p6 = p5 + b6;
    let p7 = p6 + b7;
    assert(mall_pairs(t) == p7);
    lemma_doc_get_block(b1, "shopping"@);
    lemma_doc_get_block(b2, "shopping"@);
    lemma_doc_get_block(b3, "shopping"@);
    lemma_doc_get_block(b4, "shopping"@);
    lemma_doc_get_block(b5, "shopping"@);
    lemma_doc_get_block(b6, "shopping"@);
    lemma_doc_get_block(b7, "shopping"@);
    lemma_doc_get_concat(p6, b7, "shopping"@);
    lemma_doc_get_concat(p5, b6, "shopping"@);
    lemma_doc_get_concat(p4, b5, "shopping"@);
    lemma_doc_get_concat(p3, b4, "shopping"@);
    lemma_doc_get_concat(p2, b3, "shopping"@);
    lemma_doc_get_concat(p1, b2, "shopping"@);
}

/// What lookup of `buy_first` finds in the members of a Mall task.
proof fn mall_get_buy_first(t: MallTask)
    ensures
        doc_get(mall_pairs(t), "buy_first"@) == (match t.buy_first { Option::None => Option::<JsonV>::None, Option::Some(l) => Option::Some(JsonV::Arr(jv_str_list(strs_view(l@)))) }),
{
    reveal_strlit("enable");
    reveal_strlit("shopping");
    reveal_strlit("buy_first");
    reveal_strlit("blacklist");
    reveal_strlit("force_shopping_if_credit_full");
    reveal_strlit("only_buy_discount");
    reveal_strlit("reserve_max_credit");
    assert("buy_first"@.len() != "enable"@.len());
    assert("buy_first"@ != "enable"@);
    assert("buy_first"@.len() != "shopping"@.len());
    assert("buy_first"@ != "shopping"@);
    assert("buy_first"@[1] != "blacklist"@[1]);
    assert("buy_first"@ != "blacklist"@);
    assert("buy_first"@.len() != "force_shopping_if_credit_full"@.len());
    assert("buy_first"@ != "force_shopping_if_credit_full"@);
    assert("buy_first"@.len() != "only_buy_discount"@.len());
    assert("buy_first"@ != "only_buy_discount"@);
    assert("buy_first"@.len() != "reserve_max_credit"@.len());
    assert("buy_first"@ != "reserve_max_credit"@);
    let b1 = b_opt_bool("enable"@, t.enable);
    let b2 = b_opt_bool("shopping"@, t.shopping);
    let b3 = b_opt_str_list("buy_first"@, (match t.buy_first { Option::None => Option::None, Option::Some(l) => Option::Some(strs_view(l@)) }));
    let b4 = b_opt_str_list("blacklist"@, (match t.blacklist { Option::None => Option::None, Option::Some(l) => Option::Some(strs_view(l@)) }));
    let b5 = b_opt_bool("force_shopping_if_credit_full"@, t.force_shopping_if_credit_full);
    let b6 = b_opt_bool("only_buy_discount"@, t.only_buy_discount);
    let b7 = b_opt_bool("reserve_max_credit"@, t.reserve_max_credit);
    let p1 = b1;
    let p2 = p1 + b2;
    let p3 = p2 + b3;
    let p4 = p3 + b4;
    let p5 = p4 + b5;
    let p6 = p5 + b6;
    let p7 = p6 + b7;
    assert(mall_pairs(t) == p7);
    lemma_doc_get_block(b1, "buy_first"@);
    lemma_doc_get_block(b2, "buy_first"@);
    lemma_doc_get_block(b3, "buy_first"@);
    lemma_doc_get_block(b4, "buy_first"@);
    lemma_doc_get_block(b5, "buy_first"@);
    lemma_doc_get_block(b6, "buy_first"@);
    lemma_doc_get_block(b7, "buy_first"@);
    lemma_doc_get_concat(p6, b7, "buy_first"@);
    lemma_doc_get_concat(p5, b6, "buy_first"@);
    lemma_doc_get_concat(p4, b5, "buy_first"@);
    lemma_doc_get_concat(p3, b4, "buy_first"@);
    lemma_doc_get_concat(p2, b3, "buy_first"@);
    lemma_doc_get_concat(p1, b2, "buy_first"@);
}

/// What lookup of `blacklist` finds in the members of a Mall task.
proof fn mall_get_blacklist(t: MallTask)
    ensures
        doc_get(mall_pairs(t), "blacklist"@) == (match t.blacklist { Option::None => Option::<JsonV>::None, Option::Some(l) => Option::Some(JsonV::Arr(jv_str_list(strs_view(l@)))) }),
{
    reveal_strlit("enable");
    reveal_strlit("shopping");
    reveal_strlit("buy_first");
    reveal_strlit("blacklist");
    reveal_strlit("force_shopping_if_credit_full");
    reveal_strlit("only_buy_discount");
    reveal_strlit("reserve_max_credit");
    assert("blacklist"@.len() != "enable"@.len());
    assert("blacklist"@ != "enable"@);
    assert("blacklist"@.len() != "shopping"@.len());
    assert("blacklist"@ != "shopping"@);
    assert("blacklist"@[1] != "buy_first"@[1]);
    assert("blacklist"@ != "buy_first"@);
    assert("blacklist"@.len() != "force_shopping_if_credit_full"@.len());
    assert("blacklist"@ != "force_shopping_if_credit_full"@);
    assert("blacklist"@.len() != "only_buy_discount"@.len());
    assert("blacklist"@ != "only_buy_discount"@);
    assert("blacklist"@.len() != "reserve_max_credit"@.len());
    assert("blacklist"@ != "reserve_max_credit"@);
    let b1 = b_opt_bool("enable"@, t.enable);
    let b2 = b_opt_bool("shopping"@, t.shopping);
    let b3 = b_opt_str_list("buy_first"@, (match t.buy_first { Option::None => Option::None, Option::Some(l) => Option::Some(strs_view(l@)) }));
    let b4 = b_opt_str_list("blacklist"@, (match t.blacklist { Option::None => Option::None, Option::Some(l) => Option::Some(strs_view(l@)) }));
    let b5 = b_opt_bool("force_shopping_if_credit_full"@, t.force_shopping_if_credit_full);
    let b6 = b_opt_bool("only_buy_discount"@, t.only_buy_discount);
    let b7 = b_opt_bool("reserve_max_credit"@, t.reserve_max_credit);
    let p1 = b1;
    let p2 = p1 + b2;
    let p3 = p2 + b3;
    let p4 = p3 + b4;
    let p5 = p4 + b5;
    let p6 = p5 + b6;
    let p7 = p6 + b7;
    assert(mall_pairs(t) == p7);
    lemma_doc_get_block(b1, "blacklist"@);
    lemma_doc_get_block(b2, "blacklist"@);
    lemma_doc_get_block(b3, "blacklist"@);
    lemma_doc_get_block(b4, "blacklist"@);
    lemma_doc_get_block(b5, "blacklist"@);
    lemma_doc_get_block(b6, "blacklist"@);
    lemma_doc_get_block(b7, "blacklist"@);
    lemma_doc_get_concat(p6, b7, "blacklist"@);
    lemma_doc_get_concat(p5, b6, "blacklist"@);
    lemma_doc_get_concat(p4, b5, "blacklist"@);
    lemma_doc_get_concat(p3, b4, "blacklist"@);
    lemma_doc_get_concat(p2, b3, "blacklist"@);
    lemma_doc_get_concat(p1, b2, "blacklist"@);
}

/// What lookup of `force_shopping_if_credit_full` finds in the members of a Mall task.
proof fn mall_get_force_shopping_if_credit_full(t: MallTask)
    ensures
        doc_get(mall_pairs(t), "force_shopping_if_credit_full"@) == (match t.force_shopping_if_credit_full { Option::None => Option::<JsonV>::None, Option::Some(b) => Option::Some(JsonV::Sc(ScalarV::Bool(b))) }),
{
    reveal_strlit("enable");
    reveal_strlit("shopping");
    reveal_strlit("buy_first");
    reveal_strlit("blacklist");
    reveal_strlit("force_shopping_if_credit_full");
    reveal_strlit("only_buy_discount");
    reveal_strlit("reserve_max_credit");
    assert("force_shopping_if_credit_full"@.len() != "enable"@.len());
    assert("force_shopping_if_credit_full"@ != "enable"@);
    assert("force_shopping_if_credit_full"@.len() != "shopping"@.len());
    assert("force_shopping_if_credit_full"@ != "shopping"@);
    assert("force_shopping_if_credit_full"@.len() != "buy_first"@.len());
    assert("force_shopping_if_credit_full"@ != "buy_first"@);
    assert("force_shopping_if_credit_full"@.len() != "blacklist"@.len());
    assert("force_shopping_if_credit_full"@ != "blacklist"@);
    assert("force_shopping_if_credit_full"@.len() != "only_buy_discount"@.len());
    assert("force_shopping_if_credit_full"@ != "only_buy_discount"@);
    assert("force_shopping_if_credit_full"@.len() != "reserve_max_credit"@.len());
    assert("force_shopping_if_credit_full"@ != "reserve_max_credit"@);
    let b1 = b_opt_bool("enable"@, t.enable);
    let b2 = b_opt_bool("shopping"@, t.shopping);
    let b3 = b_opt_str_list("buy_first"@, (match t.buy_first { Option::None => Option::None, Option::Some(l) => Option::Some(strs_view(l@)) }));
    let b4 = b_opt_str_list("blacklist"@, (match t.blacklist { Option::None => Option::None, Option::Some(l) => Option::Some(strs_view(l@)) }));
    let b5 = b_opt_bool("force_shopping_if_credit_full"@, t.force_shopping_if_credit_full);
    let b6 = b_opt_bool("only_buy_discount"@, t.only_buy_discount);
    let b7 = b_opt_bool("reserve_max_credit"@, t.reserve_max_credit);
    let p1 = b1;
    let p2 = p1 + b2;
    let p3 = p2 + b3;
    let p4 = p3 + b4;
    let p5 = p4 + b5;
    let p6 = p5 + b6;
    let p7 = p6 + b7;
    assert(mall_pairs(t) == p7);
    lemma_doc_get_block(b1, "force_shopping_if_credit_full"@);
    lemma_doc_get_block(b2, "force_shopping_if_credit_full"@);
    lemma_doc_get_block(b3, "force_shopping_if_credit_full"@);
    lemma_doc_get_block(b4, "force_shopping_if_credit_full"@);
    lemma_doc_get_block(b5, "force_shopping_if_credit_full"@);
    lemma_doc_get_block(b6, "force_shopping_if_credit_full"@);
    lemma_doc_get_block(b7, "force_shopping_if_credit_full"@);
    lemma_doc_get_concat(p6, b7, "force_shopping_if_credit_full"@);
    lemma_doc_get_concat(p5, b6, "force_shopping_if_credit_full"@);
    lemma_doc_get_concat(p4, b5, "force_shopping_if_credit_full"@);
    lemma_doc_get_concat(p3, b4, "force_shopping_if_credit_full"@);
    lemma_doc_get_concat(p2, b3, "force_shopping_if_credit_full"@);
    lemma_doc_get_concat(p1, b2, "force_shopping_if_credit_full"@);
}

/// What lookup of `only_buy_discount` finds in the members of a Mall task.
proof fn mall_get_only_buy_discount(t: MallTask)
    ensures
        doc_get(mall_pairs(t), "only_buy_discount"@) == (match t.only_buy_discount { Option::None => Option::<JsonV>::None, Option::Some(b) => Option::Some(JsonV::Sc(ScalarV::Bool(b))) }),
{
    reveal_strlit("enable");
    reveal_strlit("shopping");
    reveal_strlit("buy_first");
    reveal_strlit("blacklist");
    reveal_strlit("force_shopping_if_credit_full");
    reveal_strlit("only_buy_discount");
    reveal_strlit("reserve_max_credit");
    assert("only_buy_discount"@.len() != "enable"@.len());
    assert("only_buy_discount"@ != "enable"@);
    assert("only_buy_discount"@.len() != "shopping"@.len());
    assert("only_buy_discount"@ != "shopping"@);
    assert("only_buy_discount"@.len() != "buy_first"@.len());
    assert("only_buy_discount"@ != "buy_first"@);
    assert("only_buy_discount"@.len() != "blacklist"@.len());
    assert("only_buy_discount"@ != "blacklist"@);
    assert("only_buy_discount"@.len() != "force_shopping_if_credit_full"@.len());
    assert("only_buy_discount"@ != "force_shopping_if_credit_full"@);
    assert("only_buy_discount"@.len() != "reserve_max_credit"@.len());
    assert("only_buy_discount"@ != "reserve_max_credit"@);
    let b1 = b_opt_bool("enable"@, t.enable);
    let b2 = b_opt_bool("shopping"@, t.shopping);
    let b3 = b_opt_str_list("buy_first"@, (match t.buy_first { Option::None => Option::None, Option::Some(l) => Option::Some(strs_view(l@)) }));
    let b4 = b_opt_str_list("blacklist"@, (match t.blacklist { Option::None => Option::None, Option::Some(l) => Option::Some(strs_view(l@)) }));
    let b5 = b_opt_bool("force_shopping_if_credit_full"@, t.force_shopping_if_credit_full);
    let b6 = b_opt_bool("only_buy_discount"@, t.only_buy_discount);
    let b7 = b_opt_bool("reserve_max_credit"@, t.reserve_max_credit);
    let p1 = b1;
    let p2 = p1 + b2;
    let p3 = p2 + b3;
    let p4 = p3 + b4;
    let p5 = p4 + b5;
    let p6 = p5 + b6;
    let p7 = p6 + b7;
    assert(mall_pairs(t) == p7);
    lemma_doc_get_block(b1, "only_buy_discount"@);
    lemma_doc_get_block(b2, "only_buy_discount"@);
    lemma_doc_get_block(b3, "only_buy_discount"@);
    lemma_doc_get_block(b4, "only_buy_discount"@);
    lemma_doc_get_block(b5, "only_buy_discount"@);
    lemma_doc_get_block(b6, "only_buy_discount"@);
    lemma_doc_get_block(b7, "only_buy_discount"@);
    lemma_doc_get_concat(p6, b7, "only_buy_discount"@);
    lemma_doc_get_concat(p5, b6, "only_buy_discount"@);
    lemma_doc_get_concat(p4, b5, "only_buy_discount"@);
    lemma_doc_get_concat(p3, b4, "only_buy_discount"@);
    lemma_doc_get_concat(p2, b3, "only_buy_discount"@);
    lemma_doc_get_concat(p1, b2, "only_buy_discount"@);
}

/// What lookup of `reserve_max_credit` finds in the members of a Mall task.
proof fn mall_get_reserve_max_credit(t: MallTask)
    ensures
        doc_get(mall_pairs(t), "reserve_max_credit"@) == (match t.reserve_max_credit { Option::None => Option::<JsonV>::None, Option::Some(b) => Option::Some(JsonV::Sc(ScalarV::Bool(b))) }),
{
    reveal_strlit("enable");
    reveal_strlit("shopping");
    reveal_strlit("buy_first");
    reveal_strlit("blacklist");
    reveal_strlit("force_shopping_if_credit_full");
    reveal_strlit("only_buy_discount");
    reveal_strlit("reserve_max_credit");
    assert("reserve_max_credit"@.len() != "enable"@.len());
    assert("reserve_max_credit"@ != "enable"@);
    assert("reserve_max_credit"@.len() != "shopping"@.len());
    assert("reserve_max_credit"@ != "shopping"@);
    assert("reserve_max_credit"@.len() != "buy_first"@.len());
    assert("reserve_max_credit"@ != "buy_first"@);
    assert("reserve_max_credit"@.len() != "blacklist"@.len());
    assert("reserve_max_credit"@ != "blacklist"@);
    assert("reserve_max_credit"@.len() != "force_shopping_if_credit_full"@.len());
    assert("reserve_max_credit"@ != "force_shopping_if_credit_full"@);
    assert("reserve_max_credit"@.len() != "only_buy_discount"@.len());
    assert("reserve_max_credit"@ != "only_buy_discount"@);
    let b1 = b_opt_bool("enable"@, t.enable);
    let b2 = b_opt_bool("shopping"@, t.shopping);
    let b3 = b_opt_str_list("buy_first"@, (match t.buy_first { Option::None => Option::None, Option::Some(l) => Option::Some(strs_view(l@)) }));
    let b4 = b_opt_str_list("blacklist"@, (match t.blacklist { Option::None => Option::None, Option::Some(l) => Option::Some(strs_view(l@)) }));
    let b5 = b_opt_bool("force_shopping_if_credit_full"@, t.force_shopping_if_credit_full);
    let b6 = b_opt_bool("only_buy_discount"@, t.only_buy_discount);
    let b7 = b_opt_bool("reserve_max_credit"@, t.reserve_max_credit);
    let p1 = b1;
    let p2 = p1 + b2;
    let p3 = p2 + b3;
    let p4 = p3 + b4;
    let p5 = p4 + b5;
    let p6 = p5 + b6;
    let p7 = p6 + b7;
    assert(mall_pairs(t) == p7);
    lemma_doc_get_block(b1, "reserve_max_credit"@);
    lemma_doc_get_block(b2, "reserve_max_credit"@);
    lemma_doc_get_block(b3, "reserve_max_credit"@);
    lemma_doc_get_block(b4, "reserve_max_credit"@);
    lemma_doc_get_block(b5, "reserve_max_credit"@);
    lemma_doc_get_block(b6, "reserve_max_credit"@);
    lemma_doc_get_block(b7, "reserve_max_credit"@);
    lemma_doc_get_concat(p6, b7, "reserve_max_credit"@);
    lemma_doc_get_concat(p5, b6, "reserve_max_credit"@);
    lemma_doc_get_concat(p4, b5, "reserve_max_credit"@);
    lemma_doc_get_concat(p3, b4, "reserve_max_credit"@);
    lemma_doc_get_concat(p2, b3, "reserve_max_credit"@);
    lemma_doc_get_concat(p1, b2, "reserve_max_credit"@);
}

/// Writing a Mall task and reading the text back yields every
/// field unchanged.
pub proof fn lemma_mall_round_trip(t: MallTask)
    ensures
        text_to_doc(doc_text(mall_pairs(t))) == Option::Some(mall_pairs(t)),
        mall_ok(mall_pairs(t)),
        (match sget_opt_bool(mall_pairs(t), "enable"@) {
            Result::Ok(v) => t.enable == v,
            Result::Err(_) => false,
        }),
        (match sget_opt_bool(mall_pairs(t), "shopping"@) {
            Result::Ok(v) => t.shopping == v,
            Result::Err(_) => false,
        }),
        (match sget_opt_str_list(mall_pairs(t), "buy_first"@) {
            Result::Ok(v) => v == (match t.buy_first { Option::None => Option::None, Option::Some(l) => Option::Some(strs_view(l@)) }),
            Result::Err(_) => false,
        }),
        (match sget_opt_str_list(mall_pairs(t), "blacklist"@) {
            Result::Ok(v) => v == (match t.blacklist { Option::None => Option::None, Option::Some(l) => Option::Some(strs_view(l@)) }),
            Result::Err(_) => false,
        }),
        (match sget_opt_bool(mall_pairs(t), "force_shopping_if_credit_full"@) {
            Result::Ok(v) => t.force_shopping_if_credit_full == v,
            Result::Err(_) => false,
        }),
        (match sget_opt_bool(mall_pairs(t), "only_buy_discount"@) {
            Result::Ok(v) => t.only_buy_discount == v,
            Result::Err(_) => false,
        }),
        (match sget_opt_bool(mall_pairs(t), "reserve_max_credit"@) {
            Result::Ok(v) => t.reserve_max_credit == v,
            Result::Err(_) => false,
        }),
{
    let ps = mall_pairs(t);
    mall_get_enable(t);
    mall_get_shopping(t);
    mall_get_buy_first(t);
    mall_get_blacklist(t);
    mall_get_force_shopping_if_credit_full(t);
    mall_get_only_buy_discount(t);
    mall_get_reserve_max_credit(t);
    lemma_blocks_valid("enable"@);
    lemma_blocks_valid("shopping"@);
    lemma_blocks_valid("buy_first"@);
    lemma_blocks_valid("blacklist"@);
    lemma_blocks_valid("force_shopping_if_credit_full"@);
    lemma_blocks_valid("only_buy_discount"@);
    lemma_blocks_valid("reserve_max_credit"@);
    let b1 = b_opt_bool("enable"@, t.enable);
    let b2 = b_opt_bool("shopping"@, t.shopping);
    let b3 = b_opt_str_list("buy_first"@, (match t.buy_first { Option::None => Option::None, Option::Some(l) => Option::Some(strs_view(l@)) }));
    let b4 = b_opt_str_list("blacklist"@, (match t.blacklist { Option::None => Option::None, Option::Some(l) => Option::Some(strs_view(l@)) }));
    let b5 = b_opt_bool("force_shopping_if_credit_full"@, t.force_shopping_if_credit_full);
    let b6 = b_opt_bool("only_buy_discount"@, t.only_buy_discount);
    let b7 = b_opt_bool("reserve_max_credit"@, t.reserve_max_credit);
    let p1 = b1;
    let p2 = p1 + b2;
    let p3 = p2 + b3;
    let p4 = p3 + b4;
    let p5 = p4 + b5;
    let p6 = p5 + b6;
    let p7 = p6 + b7;
    assert(doc_valid(p1));
    lemma_doc_valid_concat(p1, b2);
    lemma_doc_valid_concat(p2, b3);
    lemma_doc_valid_concat(p3, b4);
    lemma_doc_valid_concat(p4, b5);
    lemma_doc_valid_concat(p5, b6);
    lemma_doc_valid_concat(p6, b7);
    assert(ps == p7);
    lemma_doc_round_trip(ps);
    if t.buy_first is Some {
        lemma_strs_of_list(strs_view(t.buy_first->0@));
    }
    if t.blacklist is Some {
        lemma_strs_of_list(strs_view(t.blacklist->0@));
    }
}

/// Parameters of the Award task.
#[derive(Clone, Debug, PartialEq)]
pub struct AwardTask {
    /// The optional boolean field `enable`.
    pub enable: Option<bool>,
    /// The optional boolean field `award`.
    pub award: Option<bool>,
    /// The optional boolean field `mail`.
    pub mail: Option<bool>,
    /// The optional boolean field `recruit`.
    pub recruit: Option<bool>,
    /// The optional boolean field `orundum`.
    pub orundum: Option<bool>,
    /// The optional boolean field `mining`.
    pub mining: Option<bool>,
    /// The optional boolean field `specialaccess`.
    pub specialaccess: Option<bool>,
}

/// The document members of a Award task, in writing order.
pub open spec fn award_pairs(t: AwardTask) -> Seq<(Seq<char>, JsonV)> {
    b_opt_bool("enable"@, t.enable) + b_opt_bool("award"@, t.award) + b_opt_bool("mail"@, t.mail) + b_opt_bool("recruit"@, t.recruit) + b_opt_bool("orundum"@, t.orundum) + b_opt_bool("mining"@, t.mining) + b_opt_bool("specialaccess"@, t.specialaccess)
}

/// Whether every known key of a parsed document holds the right shape
/// for the Award task, with every required key present.
pub open spec fn award_ok(pairs: Seq<(Seq<char>, JsonV)>) -> bool {
    sget_opt_bool(pairs, "enable"@) is Ok
    && sget_opt_bool(pairs, "award"@) is Ok
    && sget_opt_bool(pairs, "mail"@) is Ok
    && sget_opt_bool(pairs, "recruit"@) is Ok
    && sget_opt_bool(pairs, "orundum"@) is Ok
    && sget_opt_bool(pairs, "mining"@) is Ok
    && sget_opt_bool(pairs, "specialaccess"@) is Ok
}

/// The first field error met reading a parsed document as a Award task.
pub open spec fn award_first_err(pairs: Seq<(Seq<char>, JsonV)>) -> TaskError {
    match sget_opt_bool(pairs, "enable"@) {
        Result::Err(e) => e,
        Result::Ok(_) => match sget_opt_bool(pairs, "award"@) {
        Result::Err(e) => e,
        Result::Ok(_) => match sget_opt_bool(pairs, "mail"@) {
        Result::Err(e) => e,
        Result::Ok(_) => match sget_opt_bool(pairs, "recruit"@) {
        Result::Err(e) => e,
        Result::Ok(_) => match sget_opt_bool(pairs, "orundum"@) {
        Result::Err(e) => e,
        Result::Ok(_) => match sget_opt_bool(pairs, "mining"@) {
        Result::Err(e) => e,
        Result::Ok(_) => match sget_opt_bool(pairs, "specialaccess"@) {
        Result::Err(e) => e,
        Result::Ok(_) => TaskError::WrongType,
    },
    },
    },
    },
    },
    },
    }
}

impl AwardTask {
    /// The stable type tag the engine knows the task by.
    pub fn task_type(&self) -> (r: &'static str)
        ensures
            r@ == "Award"@,
    {
        "Award"
    }

    /// The stable human-readable name of the task kind.
    pub fn task_name(&self) -> (r: &'static str)
        ensures
            r@ == "奖励领取"@,
    {
        "奖励领取"
    }

    /// The canonical JSON parameter string: present fields only, in
    /// declaration order.
    pub fn to_json(&self) -> (r: String)
        ensures
            r@ == doc_text(award_pairs(*self)),
    {
        let mut out: Vec<(String, Json)> = Vec::new();
        proof {
            assert(doc_view(out@) =~= Seq::<(Seq<char>, JsonV)>::empty());
        }
        push_opt_bool(&mut out, "enable", &self.enable);
        push_opt_bool(&mut out, "award", &self.award);
        push_opt_bool(&mut out, "mail", &self.mail);
        push_opt_bool(&mut out, "recruit", &self.recruit);
        push_opt_bool(&mut out, "orundum", &self.orundum);
        push_opt_bool(&mut out, "mining", &self.mining);
        push_opt_bool(&mut out, "specialaccess", &self.specialaccess);
        proof {
            assert(doc_view(out@) =~= award_pairs(*self));
        }
        write_doc(&out)
    }

    /// Read a task back from a canonical JSON parameter string.
    pub fn from_json(s: &str) -> (r: Result<AwardTask, TaskError>)
        ensures
            match text_to_doc(s@) {
                Option::None => r == Result::<AwardTask, TaskError>::Err(TaskError::NotCanonical),
                Option::Some(pairs) => if award_ok(pairs) {
                    &&& r is Ok
                    &&& (match (r, sget_opt_bool(pairs, "enable"@)) {
                        (Result::Ok(t), Result::Ok(v)) => t.enable == v,
                        _ => false,
                    })
                    &&& (match (r, sget_opt_bool(pairs, "award"@)) {
                        (Result::Ok(t), Result::Ok(v)) => t.award == v,
                        _ => false,
                    })
                    &&& (match (r, sget_opt_bool(pairs, "mail"@)) {
                        (Result::Ok(t), Result::Ok(v)) => t.mail == v,
                        _ => false,
                    })
                    &&& (match (r, sget_opt_bool(pairs, "recruit"@)) {
                        (Result::Ok(t), Result::Ok(v)) => t.recruit == v,
                        _ => false,
                    })
                    &&& (match (r, sget_opt_bool(pairs, "orundum"@)) {
                        (Result::Ok(t), Result::Ok(v)) => t.orundum == v,
                        _ => false,
                    })
                    &&& (match (r, sget_opt_bool(pairs, "mining"@)) {
                        (Result::Ok(t), Result::Ok(v)) => t.mining == v,
                        _ => false,
                    })
                    &&& (match (r, sget_opt_bool(pairs, "specialaccess"@)) {
                        (Result::Ok(t), Result::Ok(v)) => t.specialaccess == v,
                        _ => false,
                    })
                } else {
                    r == Result::<AwardTask, TaskError>::Err(award_first_err(pairs))
                },
            },
    {
        let pairs = match parse_doc(s) {
            Option::Some(p) => p,
            Option::None => {
                return Result::Err(TaskError::NotCanonical);
            },
        };
        let enable = match get_opt_bool(&pairs, "enable") {
            Result::Ok(v) => v,
            Result::Err(e) => {
                return Result::Err(e);
            },
        };
        let award = match get_opt_bool(&pairs, "award") {
            Result::Ok(v) => v,
            Result::Err(e) => {
                return Result::Err(e);
            },
        };
        let mail = match get_opt_bool(&pairs, "mail") {
            Result::Ok(v) => v,
            Result::Err(e) => {
                return Result::Err(e);
            },
        };
        let recruit = match get_opt_bool(&pairs, "recruit") {
            Result::Ok(v) => v,
            Result::Err(e) => {
                return Result::Err(e);
            },
        };
        let orundum = match get_opt_bool(&pairs, "orundum") {
            Result::Ok(v) => v,
            Result::Err(e) => {
                return Result::Err(e);
            },
        };
        let mining = match get_opt_bool(&pairs, "mining") {
            Result::Ok(v) => v,
            Result::Err(e) => {
                return Result::Err(e);
            },
        };
        let specialaccess = match get_opt_bool(&pairs, "specialaccess") {
            Result::Ok(v) => v,
            Result::Err(e) => {
                return Result::Err(e);
            },
        };
        Result::Ok(AwardTask { enable, award, mail, recruit, orundum, mining, specialaccess })
    }

    /// A task with no field set.
    pub fn new() -> (r: Self)
        ensures
            r.enable is None,
            r.award is None,
            r.mail is None,
            r.recruit is None,
            r.orundum is None,
            r.mining is None,
            r.specialaccess is None,
    {
        AwardTask { enable: Option::None, award: Option::None, mail: Option::None, recruit: Option::None, orundum: Option::None, mining: Option::None, specialaccess: Option::None }
    }

    /// A builder with no field set.
    pub fn builder() -> (r: AwardTaskBuilder)
        ensures
            r.enable is None,
            r.award is None,
            r.mail is None,
            r.recruit is None,
            r.orundum is None,
            r.mining is None,
            r.specialaccess is None,
    {
        AwardTaskBuilder { enable: Option::None, award: Option::None, mail: Option::None, recruit: Option::None, orundum: Option::None, mining: Option::None, specialaccess: Option::None }
    }
}

/// Step-by-step construction of a Award task.
pub struct AwardTaskBuilder {
    /// The optional boolean field `enable`, once set.
    pub enable: Option<bool>,
    /// The optional boolean field `award`, once set.
    pub award: Option<bool>,
    /// The optional boolean field `mail`, once set.
    pub mail: Option<bool>,
    /// The optional boolean field `recruit`, once set.
    pub recruit: Option<bool>,
    /// The optional boolean field `orundum`, once set.
    pub orundum: Option<bool>,
    /// The optional boolean field `mining`, once set.
    pub mining: Option<bool>,
    /// The optional boolean field `specialaccess`, once set.
    pub specialaccess: Option<bool>,
}

impl AwardTaskBuilder {
    /// Set the optional boolean field `enable`.
    pub fn enable(self, enable: bool) -> (r: Self)
        ensures
            r.enable == Option::Some(enable),
            r.award == self.award,
            r.mail == self.mail,
            r.recruit == self.recruit,
            r.orundum == self.orundum,
            r.mining == self.mining,
            r.specialaccess == self.specialaccess,
    {
        let mut this = self;
        this.enable = Option::Some(enable);
        this
    }

    /// Set the optional boolean field `award`.
    pub fn award(self, award: bool) -> (r: Self)
        ensures
            r.award == Option::Some(award),
            r.enable == self.enable,
            r.mail == self.mail,
            r.recruit == self.recruit,
            r.orundum == self.orundum,
            r.mining == self.mining,
            r.specialaccess == self.specialaccess,
    {
        let mut this = self;
        this.award = Option::Some(award);
        this
    }

    /// Set the optional boolean field `mail`.
    pub fn mail(self, mail: bool) -> (r: Self)
        ensures
            r.mail == Option::Some(mail),
            r.enable == self.enable,
            r.award == self.award,
            r.recruit == self.recruit,
            r.orundum == self.orundum,
            r.mining == self.mining,
            r.specialaccess == self.specialaccess,
    {
        let mut this = self;
        this.mail = Option::Some(mail);
        this
    }

    /// Set the optional boolean field `recruit`.
    pub fn recruit(self, recruit: bool) -> (r: Self)
        ensures
            r.recruit == Option::Some(recruit),
            r.enable == self.enable,
            r.award == self.award,
            r.mail == self.mail,
            r.orundum == self.orundum,
            r.mining == self.mining,
            r.specialaccess == self.specialaccess,
    {
        let mut this = self;
        this.recruit = Option::Some(recruit);
        this
    }

    /// Set the optional boolean field `orundum`.
    pub fn orundum(self, orundum: bool) -> (r: Self)
        ensures
            r.orundum == Option::Some(orundum),
            r.enable == self.enable,
            r.award == self.award,
            r.mail == self.mail,
            r.recruit == self.recruit,
            r.mining == self.mining,
            r.specialaccess == self.specialaccess,
    {
        let mut this = self;
        this.orundum = Option::Some(orundum);
        this
    }

    /// Set the optional boolean field `mining`.
    pub fn mining(self, mining: bool) -> (r: Self)
        ensures
            r.mining == Option::Some(mining),
            r.enable == self.enable,
            r.award == self.award,
            r.mail == self.mail,
            r.recruit == self.recruit,
            r.orundum == self.orundum,
            r.specialaccess == self.specialaccess,
    {
        let mut this = self;
        this.mining = Option::Some(mining);
        this
    }

    /// Set the optional boolean field `specialaccess`.
    pub fn specialaccess(self, specialaccess: bool) -> (r: Self)
        ensures
            r.specialaccess == Option::Some(specialaccess),
            r.enable == self.enable,
            r.award == self.award,
            r.mail == self.mail,
            r.recruit == self.recruit,
            r.orundum == self.orundum,
            r.mining == self.mining,
    {
        let mut this = self;
        this.specialaccess = Option::Some(specialaccess);
        this
    }

    /// The finished task.
    pub fn build(self) -> (r: AwardTask)
        ensures
            r.enable == self.enable,
            r.award == self.award,
            r.mail == self.mail,
            r.recruit == self.recruit,
            r.orundum == self.orundum,
            r.mining == self.mining,
            r.specialaccess == self.specialaccess,
    {
        AwardTask { enable: self.enable, award: self.award, mail: self.mail, recruit: self.recruit, orundum: self.orundum, mining: self.mining, specialaccess: self.specialaccess } 
    }
}

/// What lookup of `enable` finds in the members of a Award task.
proof fn award_get_enable(t: AwardTask)
    ensures
        doc_get(award_pairs(t), "enable"@) == (match t.enable { Option::None => Option::<JsonV>::None, Option::Some(b) => Option::Some(JsonV::Sc(ScalarV::Bool(b))) }),
{
    reveal_strlit("enable");
    reveal_strlit("award");
    reveal_strlit("mail");
    reveal_strlit("recruit");
    reveal_strlit("orundum");
    reveal_strlit("mining");
    reveal_strlit("specialaccess");
    assert("enable"@.len() != "award"@.len());
    assert("enable"@ != "award"@);
    assert("enable"@.len() != "mail"@.len());
    assert("enable"@ != "mail"@);
    assert("enable"@.len() != "recruit"@.len());
    assert("enable"@ != "recruit"@);
    assert("enable"@.len() != "orundum"@.len());
    assert("enable"@ != "orundum"@);
    assert("enable"@[0] != "mining"@[0]);
    assert("enable"@ != "mining"@);
    assert("enable"@.len() != "specialaccess"@.len());
    assert("enable"@ != "specialaccess"@);
    let b1 = b_opt_bool("enable"@, t.enable);
    let b2 = b_opt_bool("award"@, t.award);
    let b3 = b_opt_bool("mail"@, t.mail);
    let b4 = b_opt_bool("recruit"@, t.recruit);
    let b5 = b_opt_bool("orundum"@, t.orundum);
    let b6 = b_opt_bool("mining"@, t.mining);
    let b7 = b_opt_bool("specialaccess"@, t.specialaccess);
    let p1 = b1;
    let p2 = p1 + b2;
    let p3 = p2 + b3;
    let p4 = p3 + b4;
    let p5 = p4 + b5;
    let p6 = p5 + b6;
    let p7 = p6 + b7;
    assert(award_pairs(t) == p7);
    lemma_doc_get_block(b1, "enable"@);
    lemma_doc_get_block(b2, "enable"@);
    lemma_doc_get_block(b3, "enable"@);
    lemma_doc_get_block(b4, "enable"@);
    lemma_doc_get_block(b5, "enable"@);
    lemma_doc_get_block(b6, "enable"@);
    lemma_doc_get_block(b7, "enable"@);
    lemma_doc_get_concat(p6, b7, "enable"@);
    lemma_doc_get_concat(p5, b6, "enable"@);
    lemma_doc_get_concat(p4, b5, "enable"@);
    lemma_doc_get_concat(p3, b4, "enable"@);
    lemma_doc_get_concat(p2, b3, "enable"@);
    lemma_doc_get_concat(p1, b2, "enable"@);
}

/// What lookup of `award` finds in the members of a Award task.
proof fn award_get_award(t: AwardTask)
    ensures
        doc_get(award_pairs(t), "award"@) == (match t.award { Option::None => Option::<JsonV>::None, Option::Some(b) => Option::Some(JsonV::Sc(ScalarV::Bool(b))) }),
{
    reveal_strlit("enable");
    reveal_strlit("award");
    reveal_strlit("mail");
    reveal_strlit("recruit");
    reveal_strlit("orundum");
    reveal_strlit("mining");
    reveal_strlit("specialaccess");
    assert("award"@.len() != "enable"@.len());
    assert("award"@ != "enable"@);
    assert("award"@.len() != "mail"@.len());
    assert("award"@ != "mail"@);
    assert("award"@.len() != "recruit"@.len());
    assert("award"@ != "recruit"@);
    assert("award"@.len() != "orundum"@.len());
    assert("award"@ != "orundum"@);
    assert("award"@.len() != "mining"@.len());
    assert("award"@ != "mining"@);
    assert("award"@.len() != "specialaccess"@.len());
    assert("award"@ != "specialaccess"@);
    let b1 = b_opt_bool("enable"@, t.enable);
    let b2 = b_opt_bool("award"@, t.award);
    let b3 = b_opt_bool("mail"@, t.mail);
    let b4 = b_opt_bool("recruit"@, t.recruit);
    let b5 = b_opt_bool("orundum"@, t.orundum);
    let b6 = b_opt_bool("mining"@, t.mining);
    let b7 = b_opt_bool("specialaccess"@, t.specialaccess);
    let p1 = b1;
    let p2 = p1 + b2;
    let p3 = p2 + b3;
    let p4 = p3 + b4;
    let p5 = p4 + b5;
    let p6 = p5 + b6;
    let p7 = p6 + b7;
    assert(award_pairs(t) == p7);
    lemma_doc_get_block(b1, "award"@);
    lemma_doc_get_block(b2, "award"@);
    lemma_doc_get_block(b3, "award"@);
    lemma_doc_get_block(b4, "award"@);
    lemma_doc_get_block(b5, "award"@);
    lemma_doc_get_block(b6, "award"@);
    lemma_doc_get_block(b7, "award"@);
    lemma_doc_get_concat(p6, b7, "award"@);
    lemma_doc_get_concat(p5, b6, "award"@);
    lemma_doc_get_concat(p4, b5, "award"@);
    lemma_doc_get_concat(p3, b4, "award"@);
    lemma_doc_get_concat(p2, b3, "award"@);
    lemma_doc_get_concat(p1, b2, "award"@);
}

/// What lookup of `mail` finds in the members of a Award task.
proof fn award_get_mail(t: AwardTask)
    ensures
        doc_get(award_pairs(t), "mail"@) == (match t.mail { Option::None => Option::<JsonV>::None, Option::Some(b) => Option::Some(JsonV::Sc(ScalarV::Bool(b))) }),
{
    reveal_strlit("enable");
    reveal_strlit("award");
    reveal_strlit("mail");
    reveal_strlit("recruit");
    reveal_strlit("orundum");
    reveal_strlit("mining");
    reveal_strlit("specialaccess");
    assert("mail"@.len() != "enable"@.len());
    assert("mail"@ != "enable"@);
    assert("mail"@.len() != "award"@.len());
    assert("mail"@ != "award"@);
    assert("mail"@.len() != "recruit"@.len());
    assert("mail"@ != "recruit"@);
    assert("mail"@.len() != "orundum"@.len());
    assert("mail"@ != "orundum"@);
    assert("mail"@.len() != "mining"@.len());
    assert("mail"@ != "mining"@);
    assert("mail"@.len() != "specialaccess"@.len());
    assert("mail"@ != "specialaccess"@);
    let b1 = b_opt_bool("enable"@, t.enable);
    let b2 = b_opt_bool("award"@, t.award);
    let b3 = b_opt_bool("mail"@, t.mail);
    let b4 = b_opt_bool("recruit"@, t.recruit);
    let b5 = b_opt_bool("orundum"@, t.orundum);
    let b6 = b_opt_bool("mining"@, t.mining);
    let b7 = b_opt_bool("specialaccess"@, t.specialaccess);
    let p1 = b1;
    let p2 = p1 + b2;
    let p3 = p2 + b3;
    let p4 = p3 + b4;
    let p5 = p4 + b5;
    let p6 = p5 + b6;
    let p7 = p6 + b7;
    assert(award_pairs(t) == p7);
    lemma_doc_get_block(b1, "mail"@);
    lemma_doc_get_block(b2, "mail"@);
    lemma_doc_get_block(b3, "mail"@);
    lemma_doc_get_block(b4, "mail"@);
    lemma_doc_get_block(b5, "mail"@);
    lemma_doc_get_block(b6, "mail"@);
    lemma_doc_get_block(b7, "mail"@);
    lemma_doc_get_concat(p6, b7, "mail"@);
    lemma_doc_get_concat(p5, b6, "mail"@);
    lemma_doc_get_concat(p4, b5, "mail"@);
    lemma_doc_get_concat(p3, b4, "mail"@);
    lemma_doc_get_concat(p2, b3, "mail"@);
    lemma_doc_get_concat(p1, b2, "mail"@);
}

/// What lookup of `recruit` finds in the members of a Award task.
proof fn award_get_recruit(t: AwardTask)
    ensures
        doc_get(award_pairs(t), "recruit"@) == (match t.recruit { Option::None => Option::<JsonV>::None, Option::Some(b) => Option::Some(JsonV::Sc(ScalarV::Bool(b))) }),
{
    reveal_strlit("enable");
    reveal_strlit("award");
    reveal_strlit("mail");
    reveal_strlit("recruit");
    reveal_strlit("orundum");
    reveal_strlit("mining");
    reveal_strlit("specialaccess");
    assert("recruit"@.len() != "enable"@.len());
    assert("recruit"@ != "enable"@);
    assert("recruit"@.len() != "award"@.len());
    assert("recruit"@ != "award"@);
    assert("recruit"@.len() != "mail"@.len());
    assert("recruit"@ != "mail"@);
    assert("recruit"@[0] != "orundum"@[0]);
    assert("recruit"@ != "orundum"@);
    assert("recruit"@.len() != "mining"@.len());
    assert("recruit"@ != "mining"@);
    assert("recruit"@.len() != "specialaccess"@.len());
    assert("recruit"@ != "specialaccess"@);
    let b1 = b_opt_bool("enable"@, t.enable);
    let b2 = b_opt_bool("award"@, t.award);
    let b3 = b_opt_bool("mail"@, t.mail);
    let b4 = b_opt_bool("recruit"@, t.recruit);
    let b5 = b_opt_bool("orundum"@, t.orundum);
    let b6 = b_opt_bool("mining"@, t.mining);
    let b7 = b_opt_bool("specialaccess"@, t.specialaccess);
    let p1 = b1;
    let p2 = p1 + b2;
    let p3 = p2 + b3;
    let p4 = p3 + b4;
    let p5 = p4 + b5;
    let p6 = p5 + b6;
    let p7 = p6 + b7;
    assert(award_pairs(t) == p7);
    lemma_doc_get_block(b1, "recruit"@);
    lemma_doc_get_block(b2, "recruit"@);
    lemma_doc_get_block(b3, "recruit"@);
    lemma_doc_get_block(b4, "recruit"@);
    lemma_doc_get_block(b5, "recruit"@);
    lemma_doc_get_block(b6, "recruit"@);
    lemma_doc_get_block(b7, "recruit"@);
    lemma_doc_get_concat(p6, b7, "recruit"@);
    lemma_doc_get_concat(p5, b6, "recruit"@);
    lemma_doc_get_concat(p4, b5, "recruit"@);
    lemma_doc_get_concat(p3, b4, "recruit"@);
    lemma_doc_get_concat(p2, b3, "recruit"@);
    lemma_doc_get_concat(p1, b2, "recruit"@);
}

/// What lookup of `orundum` finds in the members of a Award task.
proof fn award_get_orundum(t: AwardTask)
    ensures
        doc_get(award_pairs(t), "orundum"@) == (match t.orundum { Option::None => Option::<JsonV>::None, Option::Some(b) => Option::Some(JsonV::Sc(ScalarV::Bool(b))) }),
{
    reveal_strlit("enable");
    reveal_strlit("award");
    reveal_strlit("mail");
    reveal_strlit("recruit");
    reveal_strlit("orundum");
    reveal_strlit("mining");
    reveal_strlit("specialaccess");
    assert("orundum"@.len() != "enable"@.len());
    assert("orundum"@ != "enable"@);
    assert("orundum"@.len() != "award"@.len());
    assert("orundum"@ != "award"@);
    assert("orundum"@.len() != "mail"@.len());
    assert("orundum"@ != "mail"@);
    assert("orundum"@[0] != "recruit"@[0]);
    assert("orundum"@ != "recruit"@);
    assert("orundum"@.len() != "mining"@.len());
    assert("orundum"@ != "mining"@);
    assert("orundum"@.len() != "specialaccess"@.len());
    assert("orundum"@ != "specialaccess"@);
    let b1 = b_opt_bool("enable"@, t.enable);
    let b2 = b_opt_bool("award"@, t.award);
    let b3 = b_opt_bool("mail"@, t.mail);
    let b4 = b_opt_bool("recruit"@, t.recruit);
    let b5 = b_opt_bool("orundum"@, t.orundum);
    let b6 = b_opt_bool("mining"@, t.mining);
    let b7 = b_opt_bool("specialaccess"@, t.specialaccess);
    let p1 = b1;
    let p2 = p1 + b2;
    let p3 = p2 + b3;
    let p4 = p3 + b4;
    let p5 = p4 + b5;
    let p6 = p5 + b6;
    let p7 = p6 + b7;
    assert(award_pairs(t) == p7);
    lemma_doc_get_block(b1, "orundum"@);
    lemma_doc_get_block(b2, "orundum"@);
    lemma_doc_get_block(b3, "orundum"@);
    lemma_doc_get_block(b4, "orundum"@);
    lemma_doc_get_block(b5, "orundum"@);
    lemma_doc_get_block(b6, "orundum"@);
    lemma_doc_get_block(b7, "orundum"@);
    lemma_doc_get_concat(p6, b7, "orundum"@);
    lemma_doc_get_concat(p5, b6, "orundum"@);
    lemma_doc_get_concat(p4, b5, "orundum"@);
    lemma_doc_get_concat(p3, b4, "orundum"@);
    lemma_doc_get_concat(p2, b3, "orundum"@);
    lemma_doc_get_concat(p1, b2, "orundum"@);
}

/// What lookup of `mining` finds in the members of a Award task.
proof fn award_get_mining(t: AwardTask)
    ensures
        doc_get(award_pairs(t), "mining"@) == (match t.mining { Option::None => Option::<JsonV>::None, Option::Some(b) => Option::Some(JsonV::Sc(ScalarV::Bool(b))) }),
{
    reveal_strlit("enable");
    reveal_strlit("award");
    reveal_strlit("mail");
    reveal_strlit("recruit");
    reveal_strlit("orundum");
    reveal_strlit("mining");
    reveal_strlit("specialaccess");
    assert("mining"@[0] != "enable"@[0]);
    assert("mining"@ != "enable"@);
    assert("mining"@.len() != "award"@.len());
    assert("mining"@ != "award"@);
    assert("mining"@.len() != "mail"@.len());
    assert("mining"@ != "mail"@);
    assert("mining"@.len() != "recruit"@.len());
    assert("mining"@ != "recruit"@);
    assert("mining"@.len() != "orundum"@.len());
    assert("mining"@ != "orundum"@);
    assert("mining"@.len() != "specialaccess"@.len());
    assert("mining"@ != "specialaccess"@);
    let b1 = b_opt_bool("enable"@, t.enable);
    let b2 = b_opt_bool("award"@, t.award);
    let b3 = b_opt_bool("mail"@, t.mail);
    let b4 = b_opt_bool("recruit"@, t.recruit);
    let b5 = b_opt_bool("orundum"@, t.orundum);
    let b6 = b_opt_bool("mining"@, t.mining);
    let b7 = b_opt_bool("specialaccess"@, t.specialaccess);
    let p1 = b1;
    let p2 = p1 + b2;
    let p3 = p2 + b3;
    let p4 = p3 + b4;
    let p5 = p4 + b5;
    let p6 = p5 + b6;
    let p7 = p6 + b7;
    assert(award_pairs(t) == p7);
    lemma_doc_get_block(b1, "mining"@);
    lemma_doc_get_block(b2, "mining"@);
    lemma_doc_get_block(b3, "mining"@);
    lemma_doc_get_block(b4, "mining"@);
    lemma_doc_get_block(b5, "mining"@);
    lemma_doc_get_block(b6, "mining"@);
    lemma_doc_get_block(b7, "mining"@);
    lemma_doc_get_concat(p6, b7, "mining"@);
    lemma_doc_get_concat(p5, b6, "mining"@);
    lemma_doc_get_concat(p4, b5, "mining"@);
    lemma_doc_get_concat(p3, b4, "mining"@);
    lemma_doc_get_concat(p2, b3, "mining"@);
    lemma_doc_get_concat(p1, b2, "mining"@);
}

/// What lookup of `specialaccess` finds in the members of a Award task.
proof fn award_get_specialaccess(t: AwardTask)
    ensures
        doc_get(award_pairs(t), "specialaccess"@) == (match t.specialaccess { Option::None => Option::<JsonV>::None, Option::Some(b) => Option::Some(JsonV::Sc(ScalarV::Bool(b))) }),
{
    reveal_strlit("enable");
    reveal_strlit("award");
    reveal_strlit("mail");
    reveal_strlit("recruit");
    reveal_strlit("orundum");
    reveal_strlit("mining");
    reveal_strlit("specialaccess");
    assert("specialaccess"@.len() != "enable"@.len());
    assert("specialaccess"@ != "enable"@);
    assert("specialaccess"@.len() != "award"@.len());
    assert("specialaccess"@ != "award"@);
    assert("specialaccess"@.len() != "mail"@.len());
    assert("specialaccess"@ != "mail"@);
    assert("specialaccess"@.len() != "recruit"@.len());
    assert("specialaccess"@ != "recruit"@);
    assert("specialaccess"@.len() != "orundum"@.len());
    assert("specialaccess"@ != "orundum"@);
    assert("specialaccess"@.len() != "mining"@.len());
    assert("specialaccess"@ != "mining"@);
    let b1 = b_opt_bool("enable"@, t.enable);
    let b2 = b_opt_bool("award"@, t.award);
    let b3 = b_opt_bool("mail"@, t.mail);
    let b4 = b_opt_bool("recruit"@, t.recruit);
    let b5 = b_opt_bool("orundum"@, t.orundum);
    let b6 = b_opt_bool("mining"@, t.mining);
    let b7 = b_opt_bool("specialaccess"@, t.specialaccess);
    let p1 = b1;
    let p2 = p1 + b2;
    let p3 = p2 + b3;
    let p4 = p3 + b4;
    let p5 = p4 + b5;
    let p6 = p5 + b6;
    let p7 = p6 + b7;
    assert(award_pairs(t) == p7);
    lemma_doc_get_block(b1, "specialaccess"@);
    lemma_doc_get_block(b2, "specialaccess"@);
    lemma_doc_get_block(b3, "specialaccess"@);
    lemma_doc_get_block(b4, "specialaccess"@);
    lemma_doc_get_block(b5, "specialaccess"@);
    lemma_doc_get_block(b6, "specialaccess"@);
    lemma_doc_get_block(b7, "specialaccess"@);
    lemma_doc_get_concat(p6, b7, "specialaccess"@);
    lemma_doc_get_concat(p5, b6, "specialaccess"@);
    lemma_doc_get_concat(p4, b5, "specialaccess"@);
    lemma_doc_get_concat(p3, b4, "specialaccess"@);
    lemma_doc_get_concat(p2, b3, "specialaccess"@);
    lemma_doc_get_concat(p1, b2, "specialaccess"@);
}

/// Writing a Award task and reading the text back yields every
/// field unchanged.
pub proof fn lemma_award_round_trip(t: AwardTask)
    ensures
        text_to_doc(doc_text(award_pairs(t))) == Option::Some(award_pairs(t)),
        award_ok(award_pairs(t)),
        (match sget_opt_bool(award_pairs(t), "enable"@) {
            Result::Ok(v) => t.enable == v,
            Result::Err(_) => false,
        }),
        (match sget_opt_bool(award_pairs(t), "award"@) {
            Result::Ok(v) => t.award == v,
            Result::Err(_) => false,
        }),
        (match sget_opt_bool(award_pairs(t), "mail"@) {
            Result::Ok(v) => t.mail == v,
            Result::Err(_) => false,
        }),
        (match sget_opt_bool(award_pairs(t), "recruit"@) {
            Result::Ok(v) => t.recruit == v,
            Result::Err(_) => false,
        }),
        (match sget_opt_bool(award_pairs(t), "orundum"@) {
            Result::Ok(v) => t.orundum == v,
            Result::Err(_) => false,
        }),
        (match sget_opt_bool(award_pairs(t), "mining"@) {
            Result::Ok(v) => t.mining == v,
            Result::Err(_) => false,
        }),
        (match sget_opt_bool(award_pairs(t), "specialaccess"@) {
            Result::Ok(v) => t.specialaccess == v,
            Result::Err(_) => false,
        }),
{
    let ps = award_pairs(t);
    award_get_enable(t);
    award_get_award(t);
    award_get_mail(t);
    award_get_recruit(t);
    award_get_orundum(t);
    award_get_mining(t);
    award_get_specialaccess(t);
    lemma_blocks_valid("enable"@);
    lemma_blocks_valid("award"@);
    lemma_blocks_valid("mail"@);
    lemma_blocks_valid("recruit"@);
    lemma_blocks_valid("orundum"@);
    lemma_blocks_valid("mining"@);
    lemma_blocks_valid("specialaccess"@);
    let b1 = b_opt_bool("enable"@, t.enable);
    let b2 = b_opt_bool("award"@, t.award);
    let b3 = b_opt_bool("mail"@, t.mail);
    let b4 = b_opt_bool("recruit"@, t.recruit);
    let b5 = b_opt_bool("orundum"@, t.orundum);
    let b6 = b_opt_bool("mining"@, t.mining);
    let b7 = b_opt_bool("specialaccess"@, t.specialaccess);
    let p1 = b1;
    let p2 = p1 + b2;
    let p3 = p2 + b3;
    let p4 = p3 + b4;
    let p5 = p4 + b5;
    let p6 = p5 + b6;
    let p7 = p6 + b7;
    assert(doc_valid(p1));
    lemma_doc_valid_concat(p1, b2);
    lemma_doc_valid_concat(p2, b3);
    lemma_doc_valid_concat(p3, b4);
    lemma_doc_valid_concat(p4, b5);
    lemma_doc_valid_concat(p5, b6);
    lemma_doc_valid_concat(p6, b7);
    assert(ps == p7);
    lemma_doc_round_trip(ps);
}

/// Parameters of the Roguelike task.
#[derive(Clone, Debug, PartialEq)]
pub struct RoguelikeTask {
    /// The optional boolean field `enable`.
    pub enable: Option<bool>,
    /// The optional string field `theme`.
    pub theme: Option<String>,
    /// The optional integer field `mode`.
    pub mode: Option<i32>,
    /// The optional string field `squad`.
    pub squad: Option<String>,
    /// The optional string field `roles`.
    pub roles: Option<String>,
    /// The optional string field `core_char`.
    pub core_char: Option<String>,
    /// The optional boolean field `use_support`.
    pub use_support: Option<bool>,
    /// The optional boolean field `use_nonfriend_support`.
    pub use_nonfriend_support: Option<bool>,
    /// The optional integer field `starts_count`.
    pub starts_count: Option<i32>,
    /// The optional integer field `difficulty`.
    pub difficulty: Option<i32>,
    /// The optional boolean field `stop_at_final_boss`.
    pub stop_at_final_boss: Option<bool>,
    /// The optional boolean field `stop_at_max_level`.
    pub stop_at_max_level: Option<bool>,
    /// The optional boolean field `investment_enabled`.
    pub investment_enabled: Option<bool>,
    /// The optional integer field `investments_count`.
    pub investments_count: Option<i32>,
    /// The optional boolean field `stop_when_investment_full`.
    pub stop_when_investment_full: Option<bool>,
    /// The optional boolean field `investment_with_more_score`.
    pub investment_with_more_score: Option<bool>,
    /// The optional boolean field `start_with_elite_two`.
    pub start_with_elite_two: Option<bool>,
    /// The optional boolean field `only_start_with_elite_two`.
    pub only_start_with_elite_two: Option<bool>,
    /// The optional boolean field `refresh_trader_with_dice`.
    pub refresh_trader_with_dice: Option<bool>,
    /// The optional string field `first_floor_foldartal`.
    pub first_floor_foldartal: Option<String>,
    /// The optional string-list field `start_foldartal_list`.
    pub start_foldartal_list: Option<Vec<String>>,
    /// The optional boolean field `start_with_two_ideas`.
    pub start_with_two_ideas: Option<bool>,
    /// The optional boolean field `use_foldartal`.
    pub use_foldartal: Option<bool>,
    /// The optional boolean field `check_collapsal_paradigms`.
    pub check_collapsal_paradigms: Option<bool>,
    /// The optional boolean field `double_check_collapsal_paradigms`.
    pub double_check_collapsal_paradigms: Option<bool>,
    /// The optional string-list field `expected_collapsal_paradigms`.
    pub expected_collapsal_paradigms: Option<Vec<String>>,
    /// The optional boolean field `monthly_squad_auto_iterate`.
    pub monthly_squad_auto_iterate: Option<bool>,
    /// The optional boolean field `monthly_squad_check_comms`.
    pub monthly_squad_check_comms: Option<bool>,
    /// The optional boolean field `deep_exploration_auto_iterate`.
    pub deep_exploration_auto_iterate: Option<bool>,
    /// The optional boolean field `collectible_mode_shopping`.
    pub collectible_mode_shopping: Option<bool>,
    /// The optional string field `collectible_mode_squad`.
    pub collectible_mode_squad: Option<String>,
    /// The optional boolean-map field `collectible_mode_start_list`.
    pub collectible_mode_start_list: Option<Vec<(String, bool)>>,
    /// The optional boolean field `start_with_seed`.
    pub start_with_seed: Option<bool>,
}

/// The document members of a Roguelike task, in writing order.
pub open spec fn roguelike_pairs(t: RoguelikeTask) -> Seq<(Seq<char>, JsonV)> {
    b_opt_bool("enable"@, t.enable) + b_opt_str("theme"@, opt_str_view(t.theme)) + b_opt_int("mode"@, t.mode) + b_opt_str("squad"@, opt_str_view(t.squad)) + b_opt_str("roles"@, opt_str_view(t.roles)) + b_opt_str("core_char"@, opt_str_view(t.core_char)) + b_opt_bool("use_support"@, t.use_support) + b_opt_bool("use_nonfriend_support"@, t.use_nonfriend_support) + b_opt_int("starts_count"@, t.starts_count) + b_opt_int("difficulty"@, t.difficulty) + b_opt_bool("stop_at_final_boss"@, t.stop_at_final_boss) + b_opt_bool("stop_at_max_level"@, t.stop_at_max_level) + b_opt_bool("investment_enabled"@, t.investment_enabled) + b_opt_int("investments_count"@, t.investments_count) + b_opt_bool("stop_when_investment_full"@, t.stop_when_investment_full) + b_opt_bool("investment_with_more_score"@, t.investment_with_more_score) + b_opt_bool("start_with_elite_two"@, t.start_with_elite_two) + b_opt_bool("only_start_with_elite_two"@, t.only_start_with_elite_two) + b_opt_bool("refresh_trader_with_dice"@, t.refresh_trader_with_dice) + b_opt_str("first_floor_foldartal"@, opt_str_view(t.first_floor_foldartal)) + b_opt_str_list("start_foldartal_list"@, (match t.start_foldartal_list { Option::None => Option::None, Option::Some(l) => Option::Some(strs_view(l@)) })) + b_opt_bool("start_with_two_ideas"@, t.start_with_two_ideas) + b_opt_bool("use_foldartal"@, t.use_foldartal) + b_opt_bool("check_collapsal_paradigms"@, t.check_collapsal_paradigms) + b_opt_bool("double_check_collapsal_paradigms"@, t.double_check_collapsal_paradigms) + b_opt_str_list("expected_collapsal_paradigms"@, (match t.expected_collapsal_paradigms { Option::None => Option::None, Option::Some(l) => Option::Some(strs_view(l@)) })) + b_opt_bool("monthly_squad_auto_iterate"@, t.monthly_squad_auto_iterate) + b_opt_bool("monthly_squad_check_comms"@, t.monthly_squad_check_comms) + b_opt_bool("deep_exploration_auto_iterate"@, t.deep_exploration_auto_iterate) + b_opt_bool("collectible_mode_shopping"@, t.collectible_mode_shopping) + b_opt_str("collectible_mode_squad"@, opt_str_view(t.collectible_mode_squad)) + b_opt_bool_map("collectible_mode_start_list"@, (match t.collectible_mode_start_list { Option::None => Option::None, Option::Some(m) => Option::Some(bpairs_view(m@)) })) + b_opt_bool("start_with_seed"@, t.start_with_seed)
}

/// Whether every known key of a parsed document holds the right shape
/// for the Roguelike task, with every required key present.
pub open spec fn roguelike_ok(pairs: Seq<(Seq<char>, JsonV)>) -> bool {
    sget_opt_bool(pairs, "enable"@) is Ok
    && sget_opt_str(pairs, "theme"@) is Ok
    && sget_opt_int(pairs, "mode"@) is Ok
    && sget_opt_str(pairs, "squad"@) is Ok
    && sget_opt_str(pairs, "roles"@) is Ok
    && sget_opt_str(pairs, "core_char"@) is Ok
    && sget_opt_bool(pairs, "use_support"@) is Ok
    && sget_opt_bool(pairs, "use_nonfriend_support"@) is Ok
    && sget_opt_int(pairs, "starts_count"@) is Ok
    && sget_opt_int(pairs, "difficulty"@) is Ok
    && sget_opt_bool(pairs, "stop_at_final_boss"@) is Ok
    && sget_opt_bool(pairs, "stop_at_max_level"@) is Ok
    && sget_opt_bool(pairs, "investment_enabled"@) is Ok
    && sget_opt_int(pairs, "investments_count"@) is Ok
    && sget_opt_bool(pairs, "stop_when_investment_full"@) is Ok
    && sget_opt_bool(pairs, "investment_with_more_score"@) is Ok
    && sget_opt_bool(pairs, "start_with_elite_two"@) is Ok
    && sget_opt_bool(pairs, "only_start_with_elite_two"@) is Ok
    && sget_opt_bool(pairs, "refresh_trader_with_dice"@) is Ok
    && sget_opt_str(pairs, "first_floor_foldartal"@) is Ok
    && sget_opt_str_list(pairs, "start_foldartal_list"@) is Ok
    && sget_opt_bool(pairs, "start_with_two_ideas"@) is Ok
    && sget_opt_bool(pairs, "use_foldartal"@) is Ok
    && sget_opt_bool(pairs, "check_collapsal_paradigms"@) is Ok
    && sget_opt_bool(pairs, "double_check_collapsal_paradigms"@) is Ok
    && sget_opt_str_list(pairs, "expected_collapsal_paradigms"@) is Ok
    && sget_opt_bool(pairs, "monthly_squad_auto_iterate"@) is Ok
    && sget_opt_bool(pairs, "monthly_squad_check_comms"@) is Ok
    && sget_opt_bool(pairs, "deep_exploration_auto_iterate"@) is Ok
    && sget_opt_bool(pairs, "collectible_mode_shopping"@) is Ok
    && sget_opt_str(pairs, "collectible_mode_squad"@) is Ok
    && sget_opt_bool_map(pairs, "collectible_mode_start_list"@) is Ok
    && sget_opt_bool(pairs, "start_with_seed"@) is Ok
}

/// The first field error met reading a parsed document as a Roguelike task.
pub open spec fn roguelike_first_err(pairs: Seq<(Seq<char>, JsonV)>) -> TaskError {
    match sget_opt_bool(pairs, "enable"@) {
        Result::Err(e) => e,
        Result::Ok(_) => match sget_opt_str(pairs, "theme"@) {
        Result::Err(e) => e,
        Result::Ok(_) => match sget_opt_int(pairs, "mode"@) {
        Result::Err(e) => e,
        Result::Ok(_) => match sget_opt_str(pairs, "squad"@) {
        Result::Err(e) => e,
        Result::Ok(_) => match sget_opt_str(pairs, "roles"@) {
        Result::Err(e) => e,
        Result::Ok(_) => match sget_opt_str(pairs, "core_char"@) {
        Result::Err(e) => e,
        Result::Ok(_) => match sget_opt_bool(pairs, "use_support"@) {
        Result::Err(e) => e,
        Result::Ok(_) => match sget_opt_bool(pairs, "use_nonfriend_support"@) {
        Result::Err(e) => e,
        Result::Ok(_) => match sget_opt_int(pairs, "starts_count"@) {
        Result::Err(e) => e,
        Result::Ok(_) => match sget_opt_int(pairs, "difficulty"@) {
        Result::Err(e) => e,
        Result::Ok(_) => match sget_opt_bool(pairs, "stop_at_final_boss"@) {
        Result::Err(e) => e,
        Result::Ok(_) => match sget_opt_bool(pairs, "stop_at_max_level"@) {
        Result::Err(e) => e,
        Result::Ok(_) => match sget_opt_bool(pairs, "investment_enabled"@) {
        Result::Err(e) => e,
        Result::Ok(_) => match sget_opt_int(pairs, "investments_count"@) {
        Result::Err(e) => e,
        Result::Ok(_) => match sget_opt_bool(pairs, "stop_when_investment_full"@) {
        Result::Err(e) => e,
        Result::Ok(_) => match sget_opt_bool(pairs, "investment_with_more_score"@) {
        Result::Err(e) => e,
        Result::Ok(_) => match sget_opt_bool(pairs, "start_with_elite_two"@) {
        Result::Err(e) => e,
        Result::Ok(_) => match sget_opt_bool(pairs, "only_start_with_elite_two"@) {
        Result::Err(e) => e,
        Result::Ok(_) => match sget_opt_bool(pairs, "refresh_trader_with_dice"@) {
        Result::Err(e) => e,
        Result::Ok(_) => match sget_opt_str(pairs, "first_floor_foldartal"@) {
        Result::Err(e) => e,
        Result::Ok(_) => match sget_opt_str_list(pairs, "start_foldartal_list"@) {
        Result::Err(e) => e,
        Result::Ok(_) => match sget_opt_bool(pairs, "start_with_two_ideas"@) {
        Result::Err(e) => e,
        Result::Ok(_) => match sget_opt_bool(pairs, "use_foldartal"@) {
        Result::Err(e) => e,
        Result::Ok(_) => match sget_opt_bool(pairs, "check_collapsal_paradigms"@) {
        Result::Err(e) => e,
        Result::Ok(_) => match sget_opt_bool(pairs, "double_check_collapsal_paradigms"@) {
        Result::Err(e) => e,
        Result::Ok(_) => match sget_opt_str_list(pairs, "expected_collapsal_paradigms"@) {
        Result::Err(e) => e,
        Result::Ok(_) => match sget_opt_bool(pairs, "monthly_squad_auto_iterate"@) {
        Result::Err(e) => e,
        Result::Ok(_) => match sget_opt_bool(pairs, "monthly_squad_check_comms"@) {
        Result::Err(e) => e,
        Result::Ok(_) => match sget_opt_bool(pairs, "deep_exploration_auto_iterate"@) {
        Result::Err(e) => e,
        Result::Ok(_) => match sget_opt_bool(pairs, "collectible_mode_shopping"@) {
        Result::Err(e) => e,
        Result::Ok(_) => match sget_opt_str(pairs, "collectible_mode_squad"@) {
        Result::Err(e) => e,
        Result::Ok(_) => match sget_opt_bool_map(pairs, "collectible_mode_start_list"@) {
        Result::Err(e) => e,
        Result::Ok(_) => match sget_opt_bool(pairs, "start_with_seed"@) {
        Result::Err(e) => e,
        Result::Ok(_) => TaskError::WrongType,
    },
    },
    },
    },
    },
    },
    },
    },
    },
    },
    },
    },
    },
    },
    },
    },
    },
    },
    },
    },
    },
    },
    },
    },
    },
    },
    },
    },
    },
    },
    },
    },
    }
}

impl RoguelikeTask {
    /// The stable type tag the engine knows the task by.
    pub fn task_type(&self) -> (r: &'static str)
        ensures
            r@ == "Roguelike"@,
    {
        "Roguelike"
    }

    /// The stable human-readable name of the task kind.
    pub fn task_name(&self) -> (r: &'static str)
        ensures
            r@ == "肉鸽"@,
    {
        "肉鸽"
    }

    /// The canonical JSON parameter string: present fields only, in
    /// declaration order.
    pub fn to_json(&self) -> (r: String)
        ensures
            r@ == doc_text(roguelike_pairs(*self)),
    {
        let mut out: Vec<(String, Json)> = Vec::new();
        proof {
            assert(doc_view(out@) =~= Seq::<(Seq<char>, JsonV)>::empty());
        }
        push_opt_bool(&mut out, "enable", &self.enable);
        push_opt_str(&mut out, "theme", &self.theme);
        push_opt_int(&mut out, "mode", &self.mode);
        push_opt_str(&mut out, "squad", &self.squad);
        push_opt_str(&mut out, "roles", &self.roles);
        push_opt_str(&mut out, "core_char", &self.core_char);
        push_opt_bool(&mut out, "use_support", &self.use_support);
        push_opt_bool(&mut out, "use_nonfriend_support", &self.use_nonfriend_support);
        push_opt_int(&mut out, "starts_count", &self.starts_count);
        push_opt_int(&mut out, "difficulty", &self.difficulty);
        push_opt_bool(&mut out, "stop_at_final_boss", &self.stop_at_final_boss);
        push_opt_bool(&mut out, "stop_at_max_level", &self.stop_at_max_level);
        push_opt_bool(&mut out, "investment_enabled", &self.investment_enabled);
        push_opt_int(&mut out, "investments_count", &self.investments_count);
        push_opt_bool(&mut out, "stop_when_investment_full", &self.stop_when_investment_full);
        push_opt_bool(&mut out, "investment_with_more_score", &self.investment_with_more_score);
        push_opt_bool(&mut out, "start_with_elite_two", &self.start_with_elite_two);
        push_opt_bool(&mut out, "only_start_with_elite_two", &self.only_start_with_elite_two);
        push_opt_bool(&mut out, "refresh_trader_with_dice", &self.refresh_trader_with_dice);
        push_opt_str(&mut out, "first_floor_foldartal", &self.first_floor_foldartal);
        push_opt_str_list(&mut out, "start_foldartal_list", &self.start_foldartal_list);
        push_opt_bool(&mut out, "start_with_two_ideas", &self.start_with_two_ideas);
        push_opt_bool(&mut out, "use_foldartal", &self.use_foldartal);
        push_opt_bool(&mut out, "check_collapsal_paradigms", &self.check_collapsal_paradigms);
        push_opt_bool(&mut out, "double_check_collapsal_paradigms", &self.double_check_collapsal_paradigms);
        push_opt_str_list(&mut out, "expected_collapsal_paradigms", &self.expected_collapsal_paradigms);
        push_opt_bool(&mut out, "monthly_squad_auto_iterate", &self.monthly_squad_auto_iterate);
        push_opt_bool(&mut out, "monthly_squad_check_comms", &self.monthly_squad_check_comms);
        push_opt_bool(&mut out, "deep_exploration_auto_iterate", &self.deep_exploration_auto_iterate);
        push_opt_bool(&mut out, "collectible_mode_shopping", &self.collectible_mode_shopping);
        push_opt_str(&mut out, "collectible_mode_squad", &self.collectible_mode_squad);
        push_opt_bool_map(&mut out, "collectible_mode_start_list", &self.collectible_mode_start_list);
        push_opt_bool(&mut out, "start_with_seed", &self.start_with_seed);
        proof {
            assert(doc_view(out@) =~= roguelike_pairs(*self));
        }
        write_doc(&out)
    }

    /// Read a task back from a canonical JSON parameter string.
    pub fn from_json(s: &str) -> (r: Result<RoguelikeTask, TaskError>)
        ensures
            match text_to_doc(s@) {
                Option::None => r == Result::<RoguelikeTask, TaskError>::Err(TaskError::NotCanonical),
                Option::Some(pairs) => if roguelike_ok(pairs) {
                    &&& r is Ok
                    &&& (match (r, sget_opt_bool(pairs, "enable"@)) {
                        (Result::Ok(t), Result::Ok(v)) => t.enable == v,
                        _ => false,
                    })
                    &&& (match (r, sget_opt_str(pairs, "theme"@)) {
                        (Result::Ok(t), Result::Ok(v)) => opt_str_view(t.theme) == v,
                        _ => false,
                    })
                    &&& (match (r, sget_opt_int(pairs, "mode"@)) {
                        (Result::Ok(t), Result::Ok(v)) => t.mode == v,
                        _ => false,
                    })
                    &&& (match (r, sget_opt_str(pairs, "squad"@)) {
                        (Result::Ok(t), Result::Ok(v)) => opt_str_view(t.squad) == v,
                        _ => false,
                    })
                    &&& (match (r, sget_opt_str(pairs, "roles"@)) {
                        (Result::Ok(t), Result::Ok(v)) => opt_str_view(t.roles) == v,
                        _ => false,
                    })
                    &&& (match (r, sget_opt_str(pairs, "core_char"@)) {
                        (Result::Ok(t), Result::Ok(v)) => opt_str_view(t.core_char) == v,
                        _ => false,
                    })
                    &&& (match (r, sget_opt_bool(pairs, "use_support"@)) {
                        (Result::Ok(t), Result::Ok(v)) => t.use_support == v,
                        _ => false,
                    })
                    &&& (match (r, sget_opt_bool(pairs, "use_nonfriend_support"@)) {
                        (Result::Ok(t), Result::Ok(v)) => t.use_nonfriend_support == v,
                        _ => false,
                    })
                    &&& (match (r, sget_opt_int(pairs, "starts_count"@)) {
                        (Result::Ok(t), Result::Ok(v)) => t.starts_count == v,
                        _ => false,
                    })
                    &&& (match (r, sget_opt_int(pairs, "difficulty"@)) {
                        (Result::Ok(t), Result::Ok(v)) => t.difficulty == v,
                        _ => false,
                    })
                    &&& (match (r, sget_opt_bool(pairs, "stop_at_final_boss"@)) {
                        (Result::Ok(t), Result::Ok(v)) => t.stop_at_final_boss == v,
                        _ => false,
                    })
                    &&& (match (r, sget_opt_bool(pairs, "stop_at_max_level"@)) {
                        (Result::Ok(t), Result::Ok(v)) => t.stop_at_max_level == v,
                        _ => false,
                    })
                    &&& (match (r, sget_opt_bool(pairs, "investment_enabled"@)) {
                        (Result::Ok(t), Result::Ok(v)) => t.investment_enabled == v,
                        _ => false,
                    })
                    &&& (match (r, sget_opt_int(pairs, "investments_count"@)) {
                        (Result::Ok(t), Result::Ok(v)) => t.investments_count == v,
                        _ => false,
                    })
                    &&& (match (r, sget_opt_bool(pairs, "stop_when_investment_full"@)) {
                        (Result::Ok(t), Result::Ok(v)) => t.stop_when_investment_full == v,
                        _ => false,
                    })
                    &&& (match (r, sget_opt_bool(pairs, "investment_with_more_score"@)) {
                        (Result::Ok(t), Result::Ok(v)) => t.investment_with_more_score == v,
                        _ => false,
                    })
                    &&& (match (r, sget_opt_bool(pairs, "start_with_elite_two"@)) {
                        (Result::Ok(t), Result::Ok(v)) => t.start_with_elite_two == v,
                        _ => false,
                    })
                    &&& (match (r, sget_opt_bool(pairs, "only_start_with_elite_two"@)) {
                        (Result::Ok(t), Result::Ok(v)) => t.only_start_with_elite_two == v,
                        _ => false,
                    })
                    &&& (match (r, sget_opt_bool(pairs, "refresh_trader_with_dice"@)) {
                        (Result::Ok(t), Result::Ok(v)) => t.refresh_trader_with_dice == v,
                        _ => false,
                    })
                    &&& (match (r, sget_opt_str(pairs, "first_floor_foldartal"@)) {
                        (Result::Ok(t), Result::Ok(v)) => opt_str_view(t.first_floor_foldartal) == v,
                        _ => false,
                    })
                    &&& (match (r, sget_opt_str_list(pairs, "start_foldartal_list"@)) {
                        (Result::Ok(t), Result::Ok(v)) => v == (match t.start_foldartal_list { Option::None => Option::None, Option::Some(l) => Option::Some(strs_view(l@)) }),
                        _ => false,
                    })
                    &&& (match (r, sget_opt_bool(pairs, "start_with_two_ideas"@)) {
                        (Result::Ok(t), Result::Ok(v)) => t.start_with_two_ideas == v,
                        _ => false,
                    })
                    &&& (match (r, sget_opt_bool(pairs, "use_foldartal"@)) {
                        (Result::Ok(t), Result::Ok(v)) => t.use_foldartal == v,
                        _ => false,
                    })
                    &&& (match (r, sget_opt_bool(pairs, "check_collapsal_paradigms"@)) {
                        (Result::Ok(t), Result::Ok(v)) => t.check_collapsal_paradigms == v,
                        _ => false,
                    })
                    &&& (match (r, sget_opt_bool(pairs, "double_check_collapsal_paradigms"@)) {
                        (Result::Ok(t), Result::Ok(v)) => t.double_check_collapsal_paradigms == v,
                        _ => false,
                    })
                    &&& (match (r, sget_opt_str_list(pairs, "expected_collapsal_paradigms"@)) {
                        (Result::Ok(t), Result::Ok(v)) => v == (match t.expected_collapsal_paradigms { Option::None => Option::None, Option::Some(l) => Option::Some(strs_view(l@)) }),
                        _ => false,
                    })
                    &&& (match (r, sget_opt_bool(pairs, "monthly_squad_auto_iterate"@)) {
                        (Result::Ok(t), Result::Ok(v)) => t.monthly_squad_auto_iterate == v,
                        _ => false,
                    })
                    &&& (match (r, sget_opt_bool(pairs, "monthly_squad_check_comms"@)) {
                        (Result::Ok(t), Result::Ok(v)) => t.monthly_squad_check_comms == v,
                        _ => false,
                    })
                    &&& (match (r, sget_opt_bool(pairs, "deep_exploration_auto_iterate"@)) {
                        (Result::Ok(t), Result::Ok(v)) => t.deep_exploration_auto_iterate == v,
                        _ => false,
                    })
                    &&& (match (r, sget_opt_bool(pairs, "collectible_mode_shopping"@)) {
                        (Result::Ok(t), Result::Ok(v)) => t.collectible_mode_shopping == v,
                        _ => false,
                    })
                    &&& (match (r, sget_opt_str(pairs, "collectible_mode_squad"@)) {
                        (Result::Ok(t), Result::Ok(v)) => opt_str_view(t.collectible_mode_squad) == v,
                        _ => false,
                    })
                    &&& (match (r, sget_opt_bool_map(pairs, "collectible_mode_start_list"@)) {
                        (Result::Ok(t), Result::Ok(v)) => v == (match t.collectible_mode_start_list { Option::None => Option::None, Option::Some(m) => Option::Some(bpairs_view(m@)) }),
                        _ => false,
                    })
                    &&& (match (r, sget_opt_bool(pairs, "start_with_seed"@)) {
                        (Result::Ok(t), Result::Ok(v)) => t.start_with_seed == v,
                        _ => false,
                    })
                } else {
                    r == Result::<RoguelikeTask, TaskError>::Err(roguelike_first_err(pairs))
                },
            },
    {
        let pairs = match parse_doc(s) {
            Option::Some(p) => p,
            Option::None => {
                return Result::Err(TaskError::NotCanonical);
            },
        };
        let enable = match get_opt_bool(&pairs, "enable") {
            Result::Ok(v) => v,
            Result::Err(e) => {
                return Result::Err(e);
            },
        };
        let theme = match get_opt_str(&pairs, "theme") {
            Result::Ok(v) => v,
            Result::Err(e) => {
                return Result::Err(e);
            },
        };
        let mode = match get_opt_int(&pairs, "mode") {
            Result::Ok(v) => v,
            Result::Err(e) => {
                return Result::Err(e);
            },
        };
        let squad = match get_opt_str(&pairs, "squad") {
            Result::Ok(v) => v,
            Result::Err(e) => {
                return Result::Err(e);
            },
        };
        let roles = match get_opt_str(&pairs, "roles") {
            Result::Ok(v) => v,
            Result::Err(e) => {
                return Result::Err(e);
            },
        };
        let core_char = match get_opt_str(&pairs, "core_char") {
            Result::Ok(v) => v,
            Result::Err(e) => {
                return Result::Err(e);
            },
        };
        let use_support = match get_opt_bool(&pairs, "use_support") {
            Result::Ok(v) => v,
            Result::Err(e) => {
                return Result::Err(e);
            },
        };
        let use_nonfriend_support = match get_opt_bool(&pairs, "use_nonfriend_support") {
            Result::Ok(v) => v,
            Result::Err(e) => {
                return Result::Err(e);
            },
        };
        let starts_count = match get_opt_int(&pairs, "starts_count") {
            Result::Ok(v) => v,
            Result::Err(e) => {
                return Result::Err(e);
            },
        };
        let difficulty = match get_opt_int(&pairs, "difficulty") {
            Result::Ok(v) => v,
            Result::Err(e) => {
                return Result::Err(e);
            },
        };
        let stop_at_final_boss = match get_opt_bool(&pairs, "stop_at_final_boss") {
            Result::Ok(v) => v,
            Result::Err(e) => {
                return Result::Err(e);
            },
        };
        let stop_at_max_level = match get_opt_bool(&pairs, "stop_at_max_level") {
            Result::Ok(v) => v,
            Result::Err(e) => {
                return Result::Err(e);
            },
        };
        let investment_enabled = match get_opt_bool(&pairs, "investment_enabled") {
            Result::Ok(v) => v,
            Result::Err(e) => {
                return Result::Err(e);
            },
        };
        let investments_count = match get_opt_int(&pairs, "investments_count") {
            Result::Ok(v) => v,
            Result::Err(e) => {
                return Result::Err(e);
            },
        };
        let stop_when_investment_full = match get_opt_bool(&pairs, "stop_when_investment_full") {
            Result::Ok(v) => v,
            Result::Err(e) => {
                return Result::Err(e);
            },
        };
        let investment_with_more_score = match get_opt_bool(&pairs, "investment_with_more_score") {
            Result::Ok(v) => v,
            Result::Err(e) => {
                return Result::Err(e);
            },
        };
        let start_with_elite_two = match get_opt_bool(&pairs, "start_with_elite_two") {
            Result::Ok(v) => v,
            Result::Err(e) => {
                return Result::Err(e);
            },
        };
        let only_start_with_elite_two = match get_opt_bool(&pairs, "only_start_with_elite_two") {
            Result::Ok(v) => v,
            Result::Err(e) => {
                return Result::Err(e);
            },
        };
        let refresh_trader_with_dice = match get_opt_bool(&pairs, "refresh_trader_with_dice") {
            Result::Ok(v) => v,
            Result::Err(e) => {
                return Result::Err(e);
            },
        };
        let first_floor_foldartal = match get_opt_str(&pairs, "first_floor_foldartal") {
            Result::Ok(v) => v,
            Result::Err(e) => {
                return Result::Err(e);
            },
        };
        let start_foldartal_list = match get_opt_str_list(&pairs, "start_foldartal_list") {
            Result::Ok(v) => v,
            Result::Err(e) => {
                return Result::Err(e);
            },
        };
        let start_with_two_ideas = match get_opt_bool(&pairs, "start_with_two_ideas") {
            Result::Ok(v) => v,
            Result::Err(e) => {
                return Result::Err(e);
            },
        };
        let use_foldartal = match get_opt_bool(&pairs, "use_foldartal") {
            Result::Ok(v) => v,
            Result::Err(e) => {
                return Result::Err(e);
            },
        };
        let check_collapsal_paradigms = match get_opt_bool(&pairs, "check_collapsal_paradigms") {
            Result::Ok(v) => v,
            Result::Err(e) => {
                return Result::Err(e);
            },
        };
        let double_check_collapsal_paradigms = match get_opt_bool(&pairs, "double_check_collapsal_paradigms") {
            Result::Ok(v) => v,
            Result::Err(e) => {
                return Result::Err(e);
            },
        };
        let expected_collapsal_paradigms = match get_opt_str_list(&pairs, "expected_collapsal_paradigms") {
            Result::Ok(v) => v,
            Result::Err(e) => {
                return Result::Err(e);
            },
        };
        let monthly_squad_auto_iterate = match get_opt_bool(&pairs, "monthly_squad_auto_iterate") {
            Result::Ok(v) => v,
            Result::Err(e) => {
                return Result::Err(e);
            },
        };
        let monthly_squad_check_comms = match get_opt_bool(&pairs, "monthly_squad_check_comms") {
            Result::Ok(v) => v,
            Result::Err(e) => {
                return Result::Err(e);
            },
        };
        let deep_exploration_auto_iterate = match get_opt_bool(&pairs, "deep_exploration_auto_iterate") {
            Result::Ok(v) => v,
            Result::Err(e) => {
                return Result::Err(e);
            },
        };
        let collectible_mode_shopping = match get_opt_bool(&pairs, "collectible_mode_shopping") {
            Result::Ok(v) => v,
            Result::Err(e) => {
                return Result::Err(e);
            },
        };
        let collectible_mode_squad = match get_opt_str(&pairs, "collectible_mode_squad") {
            Result::Ok(v) => v,
            Result::Err(e) => {
                return Result::Err(e);
            },
        };
        let collectible_mode_start_list = match get_opt_bool_map(&pairs, "collectible_mode_start_list") {
            Result::Ok(v) => v,
            Result::Err(e) => {
                return Result::Err(e);
            },
        };
        let start_with_seed = match get_opt_bool(&pairs, "start_with_seed") {
            Result::Ok(v) => v,
            Result::Err(e) => {
                return Result::Err(e);
            },
        };
        Result::Ok(RoguelikeTask { enable, theme, mode, squad, roles, core_char, use_support, use_nonfriend_support, starts_count, difficulty, stop_at_final_boss, stop_at_max_level, investment_enabled, investments_count, stop_when_investment_full, investment_with_more_score, start_with_elite_two, only_start_with_elite_two, refresh_trader_with_dice, first_floor_foldartal, start_foldartal_list, start_with_two_ideas, use_foldartal, check_collapsal_paradigms, double_check_collapsal_paradigms, expected_collapsal_paradigms, monthly_squad_auto_iterate, monthly_squad_check_comms, deep_exploration_auto_iterate, collectible_mode_shopping, collectible_mode_squad, collectible_mode_start_list, start_with_seed })
    }

    /// A task with no field set.
    pub fn new() -> (r: Self)
        ensures
            r.enable is None,
            r.theme is None,
            r.mode is None,
            r.squad is None,
            r.roles is None,
            r.core_char is None,
            r.use_support is None,
            r.use_nonfriend_support is None,
            r.starts_count is None,
            r.difficulty is None,
            r.stop_at_final_boss is None,
            r.stop_at_max_level is None,
            r.investment_enabled is None,
            r.investments_count is None,
            r.stop_when_investment_full is None,
            r.investment_with_more_score is None,
            r.start_with_elite_two is None,
            r.only_start_with_elite_two is None,
            r.refresh_trader_with_dice is None,
            r.first_floor_foldartal is None,
            r.start_foldartal_list is None,
            r.start_with_two_ideas is None,
            r.use_foldartal is None,
            r.check_collapsal_paradigms is None,
            r.double_check_collapsal_paradigms is None,
            r.expected_collapsal_paradigms is None,
            r.monthly_squad_auto_iterate is None,
            r.monthly_squad_check_comms is None,
            r.deep_exploration_auto_iterate is None,
            r.collectible_mode_shopping is None,
            r.collectible_mode_squad is None,
            r.collectible_mode_start_list is None,
            r.start_with_seed is None,
    {
        RoguelikeTask { enable: Option::None, theme: Option::None, mode: Option::None, squad: Option::None, roles: Option::None, core_char: Option::None, use_support: Option::None, use_nonfriend_support: Option::None, starts_count: Option::None, difficulty: Option::None, stop_at_final_boss: Option::None, stop_at_max_level: Option::None, investment_enabled: Option::None, investments_count: Option::None, stop_when_investment_full: Option::None, investment_with_more_score: Option::None, start_with_elite_two: Option::None, only_start_with_elite_two: Option::None, refresh_trader_with_dice: Option::None, first_floor_foldartal: Option::None, start_foldartal_list: Option::None, start_with_two_ideas: Option::None, use_foldartal: Option::None, check_collapsal_paradigms: Option::None, double_check_collapsal_paradigms: Option::None, expected_collapsal_paradigms: Option::None, monthly_squad_auto_iterate: Option::None, monthly_squad_check_comms: Option::None, deep_exploration_auto_iterate: Option::None, collectible_mode_shopping: Option::None, collectible_mode_squad: Option::None, collectible_mode_start_list: Option::None, start_with_seed: Option::None }
    }

    /// A builder with no field set.
    pub fn builder() -> (r: RoguelikeTaskBuilder)
        ensures
            r.enable is None,
            r.theme is None,
            r.mode is None,
            r.squad is None,
            r.roles is None,
            r.core_char is None,
            r.use_support is None,
            r.use_nonfriend_support is None,
            r.starts_count is None,
            r.difficulty is None,
            r.stop_at_final_boss is None,
            r.stop_at_max_level is None,
            r.investment_enabled is None,
            r.investments_count is None,
            r.stop_when_investment_full is None,
            r.investment_with_more_score is None,
            r.start_with_elite_two is None,
            r.only_start_with_elite_two is None,
            r.refresh_trader_with_dice is None,
            r.first_floor_foldartal is None,
            r.start_foldartal_list is None,
            r.start_with_two_ideas is None,
            r.use_foldartal is None,
            r.check_collapsal_paradigms is None,
            r.double_check_collapsal_paradigms is None,
            r.expected_collapsal_paradigms is None,
            r.monthly_squad_auto_iterate is None,
            r.monthly_squad_check_comms is None,
            r.deep_exploration_auto_iterate is None,
            r.collectible_mode_shopping is None,
            r.collectible_mode_squad is None,
            r.collectible_mode_start_list is None,
            r.start_with_seed is None,
    {
        RoguelikeTaskBuilder { enable: Option::None, theme: Option::None, mode: Option::None, squad: Option::None, roles: Option::None, core_char: Option::None, use_support: Option::None, use_nonfriend_support: Option::None, starts_count: Option::None, difficulty: Option::None, stop_at_final_boss: Option::None, stop_at_max_level: Option::None, investment_enabled: Option::None, investments_count: Option::None, stop_when_investment_full: Option::None, investment_with_more_score: Option::None, start_with_elite_two: Option::None, only_start_with_elite_two: Option::None, refresh_trader_with_dice: Option::None, first_floor_foldartal: Option::None, start_foldartal_list: Option::None, start_with_two_ideas: Option::None, use_foldartal: Option::None, check_collapsal_paradigms: Option::None, double_check_collapsal_paradigms: Option::None, expected_collapsal_paradigms: Option::None, monthly_squad_auto_iterate: Option::None, monthly_squad_check_comms: Option::None, deep_exploration_auto_iterate: Option::None, collectible_mode_shopping: Option::None, collectible_mode_squad: Option::None, collectible_mode_start_list: Option::None, start_with_seed: Option::None }
    }
}

/// Step-by-step construction of a Roguelike task.
pub struct RoguelikeTaskBuilder {
    /// The optional boolean field `enable`, once set.
    pub enable: Option<bool>,
    /// The optional string field `theme`, once set.
    pub theme: Option<String>,
    /// The optional integer field `mode`, once set.
    pub mode: Option<i32>,
    /// The optional string field `squad`, once set.
    pub squad: Option<String>,
    /// The optional string field `roles`, once set.
    pub roles: Option<String>,
    /// The optional string field `core_char`, once set.
    pub core_char: Option<String>,
    /// The optional boolean field `use_support`, once set.
    pub use_support: Option<bool>,
    /// The optional boolean field `use_nonfriend_support`, once set.
    pub use_nonfriend_support: Option<bool>,
    /// The optional integer field `starts_count`, once set.
    pub starts_count: Option<i32>,
    /// The optional integer field `difficulty`, once set.
    pub difficulty: Option<i32>,
    /// The optional boolean field `stop_at_final_boss`, once set.
    pub stop_at_final_boss: Option<bool>,
    /// The optional boolean field `stop_at_max_level`, once set.
    pub stop_at_max_level: Option<bool>,
    /// The optional boolean field `investment_enabled`, once set.
    pub investment_enabled: Option<bool>,
    /// The optional integer field `investments_count`, once set.
    pub investments_count: Option<i32>,
    /// The optional boolean field `stop_when_investment_full`, once set.
    pub stop_when_investment_full: Option<bool>,
    /// The optional boolean field `investment_with_more_score`, once set.
    pub investment_with_more_score: Option<bool>,
    /// The optional boolean field `start_with_elite_two`, once set.
    pub start_with_elite_two: Option<bool>,
    /// The optional boolean field `only_start_with_elite_two`, once set.
    pub only_start_with_elite_two: Option<bool>,
    /// The optional boolean field `refresh_trader_with_dice`, once set.
    pub refresh_trader_with_dice: Option<bool>,
    /// The optional string field `first_floor_foldartal`, once set.
    pub first_floor_foldartal: Option<String>,
    /// The optional string-list field `start_foldartal_list`, once set.
    pub start_foldartal_list: Option<Vec<String>>,
    /// The optional boolean field `start_with_two_ideas`, once set.
    pub start_with_two_ideas: Option<bool>,
    /// The optional boolean field `use_foldartal`, once set.
    pub use_foldartal: Option<bool>,
    /// The optional boolean field `check_collapsal_paradigms`, once set.
    pub check_collapsal_paradigms: Option<bool>,
    /// The optional boolean field `double_check_collapsal_paradigms`, once set.
    pub double_check_collapsal_paradigms: Option<bool>,
    /// The optional string-list field `expected_collapsal_paradigms`, once set.
    pub expected_collapsal_paradigms: Option<Vec<String>>,
    /// The optional boolean field `monthly_squad_auto_iterate`, once set.
    pub monthly_squad_auto_iterate: Option<bool>,
    /// The optional boolean field `monthly_squad_check_comms`, once set.
    pub monthly_squad_check_comms: Option<bool>,
    /// The optional boolean field `deep_exploration_auto_iterate`, once set.
    pub deep_exploration_auto_iterate: Option<bool>,
    /// The optional boolean field `collectible_mode_shopping`, once set.
    pub collectible_mode_shopping: Option<bool>,
    /// The optional string field `collectible_mode_squad`, once set.
    pub collectible_mode_squad: Option<String>,
    /// The optional boolean-map field `collectible_mode_start_list`, once set.
    pub collectible_mode_start_list: Option<Vec<(String, bool)>>,
    /// The optional boolean field `start_with_seed`, once set.
    pub start_with_seed: Option<bool>,
}

impl RoguelikeTaskBuilder {
    /// Set the optional boolean field `enable`.
    pub fn enable(self, enable: bool) -> (r: Self)
        ensures
            r.enable == Option::Some(enable),
            r.theme == self.theme,
            r.mode == self.mode,
            r.squad == self.squad,
            r.roles == self.roles,
            r.core_char == self.core_char,
            r.use_support == self.use_support,
            r.use_nonfriend_support == self.use_nonfriend_support,
            r.starts_count == self.starts_count,
            r.difficulty == self.difficulty,
            r.stop_at_final_boss == self.stop_at_final_boss,
            r.stop_at_max_level == self.stop_at_max_level,
            r.investment_enabled == self.investment_enabled,
            r.investments_count == self.investments_count,
            r.stop_when_investment_full == self.stop_when_investment_full,
            r.investment_with_more_score == self.investment_with_more_score,
            r.start_with_elite_two == self.start_with_elite_two,
            r.only_start_with_elite_two == self.only_start_with_elite_two,
            r.refresh_trader_with_dice == self.refresh_trader_with_dice,
            r.first_floor_foldartal == self.first_floor_foldartal,
            r.start_foldartal_list == self.start_foldartal_list,
            r.start_with_two_ideas == self.start_with_two_ideas,
            r.use_foldartal == self.use_foldartal,
            r.check_collapsal_paradigms == self.check_collapsal_paradigms,
            r.double_check_collapsal_paradigms == self.double_check_collapsal_paradigms,
            r.expected_collapsal_paradigms == self.expected_collapsal_paradigms,
            r.monthly_squad_auto_iterate == self.monthly_squad_auto_iterate,
            r.monthly_squad_check_comms == self.monthly_squad_check_comms,
            r.deep_exploration_auto_iterate == self.deep_exploration_auto_iterate,
            r.collectible_mode_shopping == self.collectible_mode_shopping,
            r.collectible_mode_squad == self.collectible_mode_squad,
            r.collectible_mode_start_list == self.collectible_mode_start_list,
            r.start_with_seed == self.start_with_seed,
    {
        let mut this = self;
        this.enable = Option::Some(enable);
        this
    }

    /// Set the optional string field `theme`.
    pub fn theme(self, theme: &str) -> (r: Self)
        ensures
            (r.theme matches Option::Some(s) && s@ == theme@),
            r.enable == self.enable,
            r.mode == self.mode,
            r.squad == self.squad,
            r.roles == self.roles,
            r.core_char == self.core_char,
            r.use_support == self.use_support,
            r.use_nonfriend_support == self.use_nonfriend_support,
            r.starts_count == self.starts_count,
            r.difficulty == self.difficulty,
            r.stop_at_final_boss == self.stop_at_final_boss,
            r.stop_at_max_level == self.stop_at_max_level,
            r.investment_enabled == self.investment_enabled,
            r.investments_count == self.investments_count,
            r.stop_when_investment_full == self.stop_when_investment_full,
            r.investment_with_more_score == self.investment_with_more_score,
            r.start_with_elite_two == self.start_with_elite_two,
            r.only_start_with_elite_two == self.only_start_with_elite_two,
            r.refresh_trader_with_dice == self.refresh_trader_with_dice,
            r.first_floor_foldartal == self.first_floor_foldartal,
            r.start_foldartal_list == self.start_foldartal_list,
            r.start_with_two_ideas == self.start_with_two_ideas,
            r.use_foldartal == self.use_foldartal,
            r.check_collapsal_paradigms == self.check_collapsal_paradigms,
            r.double_check_collapsal_paradigms == self.double_check_collapsal_paradigms,
            r.expected_collapsal_paradigms == self.expected_collapsal_paradigms,
            r.monthly_squad_auto_iterate == self.monthly_squad_auto_iterate,
            r.monthly_squad_check_comms == self.monthly_squad_check_comms,
            r.deep_exploration_auto_iterate == self.deep_exploration_auto_iterate,
            r.collectible_mode_shopping == self.collectible_mode_shopping,
            r.collectible_mode_squad == self.collectible_mode_squad,
            r.collectible_mode_start_list == self.collectible_mode_start_list,
            r.start_with_seed == self.start_with_seed,
    {
        let mut this = self;
        this.theme = Option::Some(theme.to_owned());
        this
    }

    /// Set the optional integer field `mode`.
    pub fn mode(self, mode: i32) -> (r: Self)
        ensures
            r.mode == Option::Some(mode),
            r.enable == self.enable,
            r.theme == self.theme,
            r.squad == self.squad,
            r.roles == self.roles,
            r.core_char == self.core_char,
            r.use_support == self.use_support,
            r.use_nonfriend_support == self.use_nonfriend_support,
            r.starts_count == self.starts_count,
            r.difficulty == self.difficulty,
            r.stop_at_final_boss == self.stop_at_final_boss,
            r.stop_at_max_level == self.stop_at_max_level,
            r.investment_enabled == self.investment_enabled,
            r.investments_count == self.investments_count,
            r.stop_when_investment_full == self.stop_when_investment_full,
            r.investment_with_more_score == self.investment_with_more_score,
            r.start_with_elite_two == self.start_with_elite_two,
            r.only_start_with_elite_two == self.only_start_with_elite_two,
            r.refresh_trader_with_dice == self.refresh_trader_with_dice,
            r.first_floor_foldartal == self.first_floor_foldartal,
            r.start_foldartal_list == self.start_foldartal_list,
            r.start_with_two_ideas == self.start_with_two_ideas,
            r.use_foldartal == self.use_foldartal,
            r.check_collapsal_paradigms == self.check_collapsal_paradigms,
            r.double_check_collapsal_paradigms == self.double_check_collapsal_paradigms,
            r.expected_collapsal_paradigms == self.expected_collapsal_paradigms,
            r.monthly_squad_auto_iterate == self.monthly_squad_auto_iterate,
            r.monthly_squad_check_comms == self.monthly_squad_check_comms,
            r.deep_exploration_auto_iterate == self.deep_exploration_auto_iterate,
            r.collectible_mode_shopping == self.collectible_mode_shopping,
            r.collectible_mode_squad == self.collectible_mode_squad,
            r.collectible_mode_start_list == self.collectible_mode_start_list,
            r.start_with_seed == self.start_with_seed,
    {
        let mut this = self;
        this.mode = Option::Some(mode);
        this
    }

    /// Set the optional string field `squad`.
    pub fn squad(self, squad: &str) -> (r: Self)
        ensures
            (r.squad matches Option::Some(s) && s@ == squad@),
            r.enable == self.enable,
            r.theme == self.theme,
            r.mode == self.mode,
            r.roles == self.roles,
            r.core_char == self.core_char,
            r.use_support == self.use_support,
            r.use_nonfriend_support == self.use_nonfriend_support,
            r.starts_count == self.starts_count,
            r.difficulty == self.difficulty,
            r.stop_at_final_boss == self.stop_at_final_boss,
            r.stop_at_max_level == self.stop_at_max_level,
            r.investment_enabled == self.investment_enabled,
            r.investments_count == self.investments_count,
            r.stop_when_investment_full == self.stop_when_investment_full,
            r.investment_with_more_score == self.investment_with_more_score,
            r.start_with_elite_two == self.start_with_elite_two,
            r.only_start_with_elite_two == self.only_start_with_elite_two,
            r.refresh_trader_with_dice == self.refresh_trader_with_dice,
            r.first_floor_foldartal == self.first_floor_foldartal,
            r.start_foldartal_list == self.start_foldartal_list,
            r.start_with_two_ideas == self.start_with_two_ideas,
            r.use_foldartal == self.use_foldartal,
            r.check_collapsal_paradigms == self.check_collapsal_paradigms,
            r.double_check_collapsal_paradigms == self.double_check_collapsal_paradigms,
            r.expected_collapsal_paradigms == self.expected_collapsal_paradigms,
            r.monthly_squad_auto_iterate == self.monthly_squad_auto_iterate,
            r.monthly_squad_check_comms == self.monthly_squad_check_comms,
            r.deep_exploration_auto_iterate == self.deep_exploration_auto_iterate,
            r.collectible_mode_shopping == self.collectible_mode_shopping,
            r.collectible_mode_squad == self.collectible_mode_squad,
            r.collectible_mode_start_list == self.collectible_mode_start_list,
            r.start_with_seed == self.start_with_seed,
    {
        let mut this = self;
        this.squad = Option::Some(squad.to_owned());
        this
    }

    /// Set the optional string field `roles`.
    pub fn roles(self, roles: &str) -> (r: Self)
        ensures
            (r.roles matches Option::Some(s) && s@ == roles@),
            r.enable == self.enable,
            r.theme == self.theme,
            r.mode == self.mode,
            r.squad == self.squad,
            r.core_char == self.core_char,
            r.use_support == self.use_support,
            r.use_nonfriend_support == self.use_nonfriend_support,
            r.starts_count == self.starts_count,
            r.difficulty == self.difficulty,
            r.stop_at_final_boss == self.stop_at_final_boss,
            r.stop_at_max_level == self.stop_at_max_level,
            r.investment_enabled == self.investment_enabled,
            r.investments_count == self.investments_count,
            r.stop_when_investment_full == self.stop_when_investment_full,
            r.investment_with_more_score == self.investment_with_more_score,
            r.start_with_elite_two == self.start_with_elite_two,
            r.only_start_with_elite_two == self.only_start_with_elite_two,
            r.refresh_trader_with_dice == self.refresh_trader_with_dice,
            r.first_floor_foldartal == self.first_floor_foldartal,
            r.start_foldartal_list == self.start_foldartal_list,
            r.start_with_two_ideas == self.start_with_two_ideas,
            r.use_foldartal == self.use_foldartal,
            r.check_collapsal_paradigms == self.check_collapsal_paradigms,
            r.double_check_collapsal_paradigms == self.double_check_collapsal_paradigms,
            r.expected_collapsal_paradigms == self.expected_collapsal_paradigms,
            r.monthly_squad_auto_iterate == self.monthly_squad_auto_iterate,
            r.monthly_squad_check_comms == self.monthly_squad_check_comms,
            r.deep_exploration_auto_iterate == self.deep_exploration_auto_iterate,
            r.collectible_mode_shopping == self.collectible_mode_shopping,
            r.collectible_mode_squad == self.collectible_mode_squad,
            r.collectible_mode_start_list == self.collectible_mode_start_list,
            r.start_with_seed == self.start_with_seed,
    {
        let mut this = self;
        this.roles = Option::Some(roles.to_owned());
        this
    }

    /// Set the optional string field `core_char`.
    pub fn core_char(self, core_char: &str) -> (r: Self)
        ensures
            (r.core_char matches Option::Some(s) && s@ == core_char@),
            r.enable == self.enable,
            r.theme == self.theme,
            r.mode == self.mode,
            r.squad == self.squad,
            r.roles == self.roles,
            r.use_support == self.use_support,
            r.use_nonfriend_support == self.use_nonfriend_support,
            r.starts_count == self.starts_count,
            r.difficulty == self.difficulty,
            r.stop_at_final_boss == self.stop_at_final_boss,
            r.stop_at_max_level == self.stop_at_max_level,
            r.investment_enabled == self.investment_enabled,
            r.investments_count == self.investments_count,
            r.stop_when_investment_full == self.stop_when_investment_full,
            r.investment_with_more_score == self.investment_with_more_score,
            r.start_with_elite_two == self.start_with_elite_two,
            r.only_start_with_elite_two == self.only_start_with_elite_two,
            r.refresh_trader_with_dice == self.refresh_trader_with_dice,
            r.first_floor_foldartal == self.first_floor_foldartal,
            r.start_foldartal_list == self.start_foldartal_list,
            r.start_with_two_ideas == self.start_with_two_ideas,
            r.use_foldartal == self.use_foldartal,
            r.check_collapsal_paradigms == self.check_collapsal_paradigms,
            r.double_check_collapsal_paradigms == self.double_check_collapsal_paradigms,
            r.expected_collapsal_paradigms == self.expected_collapsal_paradigms,
            r.monthly_squad_auto_iterate == self.monthly_squad_auto_iterate,
            r.monthly_squad_check_comms == self.monthly_squad_check_comms,
            r.deep_exploration_auto_iterate == self.deep_exploration_auto_iterate,
            r.collectible_mode_shopping == self.collectible_mode_shopping,
            r.collectible_mode_squad == self.collectible_mode_squad,
            r.collectible_mode_start_list == self.collectible_mode_start_list,
            r.start_with_seed == self.start_with_seed,
    {
        let mut this = self;
        this.core_char = Option::Some(core_char.to_owned());
        this
    }

    /// Set the optional boolean field `use_support`.
    pub fn use_support(self, use_support: bool) -> (r: Self)
        ensures
            r.use_support == Option::Some(use_support),
            r.enable == self.enable,
            r.theme == self.theme,
            r.mode == self.mode,
            r.squad == self.squad,
            r.roles == self.roles,
            r.core_char == self.core_char,
            r.use_nonfriend_support == self.use_nonfriend_support,
            r.starts_count == self.starts_count,
            r.difficulty == self.difficulty,
            r.stop_at_final_boss == self.stop_at_final_boss,
            r.stop_at_max_level == self.stop_at_max_level,
            r.investment_enabled == self.investment_enabled,
            r.investments_count == self.investments_count,
            r.stop_when_investment_full == self.stop_when_investment_full,
            r.investment_with_more_score == self.investment_with_more_score,
            r.start_with_elite_two == self.start_with_elite_two,
            r.only_start_with_elite_two == self.only_start_with_elite_two,
            r.refresh_trader_with_dice == self.refresh_trader_with_dice,
            r.first_floor_foldartal == self.first_floor_foldartal,
            r.start_foldartal_list == self.start_foldartal_list,
            r.start_with_two_ideas == self.start_with_two_ideas,
            r.use_foldartal == self.use_foldartal,
            r.check_collapsal_paradigms == self.check_collapsal_paradigms,
            r.double_check_collapsal_paradigms == self.double_check_collapsal_paradigms,
            r.expected_collapsal_paradigms == self.expected_collapsal_paradigms,
            r.monthly_squad_auto_iterate == self.monthly_squad_auto_iterate,
            r.monthly_squad_check_comms == self.monthly_squad_check_comms,
            r.deep_exploration_auto_iterate == self.deep_exploration_auto_iterate,
            r.collectible_mode_shopping == self.collectible_mode_shopping,
            r.collectible_mode_squad == self.collectible_mode_squad,
            r.collectible_mode_start_list == self.collectible_mode_start_list,
            r.start_with_seed == self.start_with_seed,
    {
        let mut this = self;
        this.use_support = Option::Some(use_support);
        this
    }

    /// Set the optional boolean field `use_nonfriend_support`.
    pub fn use_nonfriend_support(self, use_nonfriend_support: bool) -> (r: Self)
        ensures
            r.use_nonfriend_support == Option::Some(use_nonfriend_support),
            r.enable == self.enable,
            r.theme == self.theme,
            r.mode == self.mode,
            r.squad == self.squad,
            r.roles == self.roles,
            r.core_char == self.core_char,
            r.use_support == self.use_support,
            r.starts_count == self.starts_count,
            r.difficulty == self.difficulty,
            r.stop_at_final_boss == self.stop_at_final_boss,
            r.stop_at_max_level == self.stop_at_max_level,
            r.investment_enabled == self.investment_enabled,
            r.investments_count == self.investments_count,
            r.stop_when_investment_full == self.stop_when_investment_full,
            r.investment_with_more_score == self.investment_with_more_score,
            r.start_with_elite_two == self.start_with_elite_two,
            r.only_start_with_elite_two == self.only_start_with_elite_two,
            r.refresh_trader_with_dice == self.refresh_trader_with_dice,
            r.first_floor_foldartal == self.first_floor_foldartal,
            r.start_foldartal_list == self.start_foldartal_list,
            r.start_with_two_ideas == self.start_with_two_ideas,
            r.use_foldartal == self.use_foldartal,
            r.check_collapsal_paradigms == self.check_collapsal_paradigms,
            r.double_check_collapsal_paradigms == self.double_check_collapsal_paradigms,
            r.expected_collapsal_paradigms == self.expected_collapsal_paradigms,
            r.monthly_squad_auto_iterate == self.monthly_squad_auto_iterate,
            r.monthly_squad_check_comms == self.monthly_squad_check_comms,
            r.deep_exploration_auto_iterate == self.deep_exploration_auto_iterate,
            r.collectible_mode_shopping == self.collectible_mode_shopping,
            r.collectible_mode_squad == self.collectible_mode_squad,
            r.collectible_mode_start_list == self.collectible_mode_start_list,
            r.start_with_seed == self.start_with_seed,
    {
        let mut this = self;
        this.use_nonfriend_support = Option::Some(use_nonfriend_support);
        this
    }

    /// Set the optional integer field `starts_count`.
    pub fn starts_count(self, starts_count: i32) -> (r: Self)
        ensures
            r.starts_count == Option::Some(starts_count),
            r.enable == self.enable,
            r.theme == self.theme,
            r.mode == self.mode,
            r.squad == self.squad,
            r.roles == self.roles,
            r.core_char == self.core_char,
            r.use_support == self.use_support,
            r.use_nonfriend_support == self.use_nonfriend_support,
            r.difficulty == self.difficulty,
            r.stop_at_final_boss == self.stop_at_final_boss,
            r.stop_at_max_level == self.stop_at_max_level,
            r.investment_enabled == self.investment_enabled,
            r.investments_count == self.investments_count,
            r.stop_when_investment_full == self.stop_when_investment_full,
            r.investment_with_more_score == self.investment_with_more_score,
            r.start_with_elite_two == self.start_with_elite_two,
            r.only_start_with_elite_two == self.only_start_with_elite_two,
            r.refresh_trader_with_dice == self.refresh_trader_with_dice,
            r.first_floor_foldartal == self.first_floor_foldartal,
            r.start_foldartal_list == self.start_foldartal_list,
            r.start_with_two_ideas == self.start_with_two_ideas,
            r.use_foldartal == self.use_foldartal,
            r.check_collapsal_paradigms == self.check_collapsal_paradigms,
            r.double_check_collapsal_paradigms == self.double_check_collapsal_paradigms,
            r.expected_collapsal_paradigms == self.expected_collapsal_paradigms,
            r.monthly_squad_auto_iterate == self.monthly_squad_auto_iterate,
            r.monthly_squad_check_comms == self.monthly_squad_check_comms,
            r.deep_exploration_auto_iterate == self.deep_exploration_auto_iterate,
            r.collectible_mode_shopping == self.collectible_mode_shopping,
            r.collectible_mode_squad == self.collectible_mode_squad,
            r.collectible_mode_start_list == self.collectible_mode_start_list,
            r.start_with_seed == self.start_with_seed,
    {
        let mut this = self;
        this.starts_count = Option::Some(starts_count);
        this
    }

    /// Set the optional integer field `difficulty`.
    pub fn difficulty(self, difficulty: i32) -> (r: Self)
        ensures
            r.difficulty == Option::Some(difficulty),
            r.enable == self.enable,
            r.theme == self.theme,
            r.mode == self.mode,
            r.squad == self.squad,
            r.roles == self.roles,
            r.core_char == self.core_char,
            r.use_support == self.use_support,
            r.use_nonfriend_support == self.use_nonfriend_support,
            r.starts_count == self.starts_count,
            r.stop_at_final_boss == self.stop_at_final_boss,
            r.stop_at_max_level == self.stop_at_max_level,
            r.investment_enabled == self.investment_enabled,
            r.investments_count == self.investments_count,
            r.stop_when_investment_full == self.stop_when_investment_full,
            r.investment_with_more_score == self.investment_with_more_score,
            r.start_with_elite_two == self.start_with_elite_two,
            r.only_start_with_elite_two == self.only_start_with_elite_two,
            r.refresh_trader_with_dice == self.refresh_trader_with_dice,
            r.first_floor_foldartal == self.first_floor_foldartal,
            r.start_foldartal_list == self.start_foldartal_list,
            r.start_with_two_ideas == self.start_with_two_ideas,
            r.use_foldartal == self.use_foldartal,
            r.check_collapsal_paradigms == self.check_collapsal_paradigms,
            r.double_check_collapsal_paradigms == self.double_check_collapsal_paradigms,
            r.expected_collapsal_paradigms == self.expected_collapsal_paradigms,
            r.monthly_squad_auto_iterate == self.monthly_squad_auto_iterate,
            r.monthly_squad_check_comms == self.monthly_squad_check_comms,
            r.deep_exploration_auto_iterate == self.deep_exploration_auto_iterate,
            r.collectible_mode_shopping == self.collectible_mode_shopping,
            r.collectible_mode_squad == self.collectible_mode_squad,
            r.collectible_mode_start_list == self.collectible_mode_start_list,
            r.start_with_seed == self.start_with_seed,
    {
        let mut this = self;
        this.difficulty = Option::Some(difficulty);
        this
    }

    /// Set the optional boolean field `stop_at_final_boss`.
    pub fn stop_at_final_boss(self, stop_at_final_boss: bool) -> (r: Self)
        ensures
            r.stop_at_final_boss == Option::Some(stop_at_final_boss),
            r.enable == self.enable,
            r.theme == self.theme,
            r.mode == self.mode,
            r.squad == self.squad,
            r.roles == self.roles,
            r.core_char == self.core_char,
            r.use_support == self.use_support,
            r.use_nonfriend_support == self.use_nonfriend_support,
            r.starts_count == self.starts_count,
            r.difficulty == self.difficulty,
            r.stop_at_max_level == self.stop_at_max_level,
            r.investment_enabled == self.investment_enabled,
            r.investments_count == self.investments_count,
            r.stop_when_investment_full == self.stop_when_investment_full,
            r.investment_with_more_score == self.investment_with_more_score,
            r.start_with_elite_two == self.start_with_elite_two,
            r.only_start_with_elite_two == self.only_start_with_elite_two,
            r.refresh_trader_with_dice == self.refresh_trader_with_dice,
            r.first_floor_foldartal == self.first_floor_foldartal,
            r.start_foldartal_list == self.start_foldartal_list,
            r.start_with_two_ideas == self.start_with_two_ideas,
            r.use_foldartal == self.use_foldartal,
            r.check_collapsal_paradigms == self.check_collapsal_paradigms,
            r.double_check_collapsal_paradigms == self.double_check_collapsal_paradigms,
            r.expected_collapsal_paradigms == self.expected_collapsal_paradigms,
            r.monthly_squad_auto_iterate == self.monthly_squad_auto_iterate,
            r.monthly_squad_check_comms == self.monthly_squad_check_comms,
            r.deep_exploration_auto_iterate == self.deep_exploration_auto_iterate,
            r.collectible_mode_shopping == self.collectible_mode_shopping,
            r.collectible_mode_squad == self.collectible_mode_squad,
            r.collectible_mode_start_list == self.collectible_mode_start_list,
            r.start_with_seed == self.start_with_seed,
    {
        let mut this = self;
        this.stop_at_final_boss = Option::Some(stop_at_final_boss);
        this
    }

    /// Set the optional boolean field `stop_at_max_level`.
    pub fn stop_at_max_level(self, stop_at_max_level: bool) -> (r: Self)
        ensures
            r.stop_at_max_level == Option::Some(stop_at_max_level),
            r.enable == self.enable,
            r.theme == self.theme,
            r.mode == self.mode,
            r.squad == self.squad,
            r.roles == self.roles,
            r.core_char == self.core_char,
            r.use_support == self.use_support,
            r.use_nonfriend_support == self.use_nonfriend_support,
            r.starts_count == self.starts_count,
            r.difficulty == self.difficulty,
            r.stop_at_final_boss == self.stop_at_final_boss,
            r.investment_enabled == self.investment_enabled,
            r.investments_count == self.investments_count,
            r.stop_when_investment_full == self.stop_when_investment_full,
            r.investment_with_more_score == self.investment_with_more_score,
            r.start_with_elite_two == self.start_with_elite_two,
            r.only_start_with_elite_two == self.only_start_with_elite_two,
            r.refresh_trader_with_dice == self.refresh_trader_with_dice,
            r.first_floor_foldartal == self.first_floor_foldartal,
            r.start_foldartal_list == self.start_foldartal_list,
            r.start_with_two_ideas == self.start_with_two_ideas,
            r.use_foldartal == self.use_foldartal,
            r.check_collapsal_paradigms == self.check_collapsal_paradigms,
            r.double_check_collapsal_paradigms == self.double_check_collapsal_paradigms,
            r.expected_collapsal_paradigms == self.expected_collapsal_paradigms,
            r.monthly_squad_auto_iterate == self.monthly_squad_auto_iterate,
            r.monthly_squad_check_comms == self.monthly_squad_check_comms,
            r.deep_exploration_auto_iterate == self.deep_exploration_auto_iterate,
            r.collectible_mode_shopping == self.collectible_mode_shopping,
            r.collectible_mode_squad == self.collectible_mode_squad,
            r.collectible_mode_start_list == self.collectible_mode_start_list,
            r.start_with_seed == self.start_with_seed,
    {
        let mut this = self;
        this.stop_at_max_level = Option::Some(stop_at_max_level);
        this
    }

    /// Set the optional boolean field `investment_enabled`.
    pub fn investment_enabled(self, investment_enabled: bool) -> (r: Self)
        ensures
            r.investment_enabled == Option::Some(investment_enabled),
            r.enable == self.enable,
            r.theme == self.theme,
            r.mode == self.mode,
            r.squad == self.squad,
            r.roles == self.roles,
            r.core_char == self.core_char,
            r.use_support == self.use_support,
            r.use_nonfriend_support == self.use_nonfriend_support,
            r.starts_count == self.starts_count,
            r.difficulty == self.difficulty,
            r.stop_at_final_boss == self.stop_at_final_boss,
            r.stop_at_max_level == self.stop_at_max_level,
            r.investments_count == self.investments_count,
            r.stop_when_investment_full == self.stop_when_investment_full,
            r.investment_with_more_score == self.investment_with_more_score,
            r.start_with_elite_two == self.start_with_elite_two,
            r.only_start_with_elite_two == self.only_start_with_elite_two,
            r.refresh_trader_with_dice == self.refresh_trader_with_dice,
            r.first_floor_foldartal == self.first_floor_foldartal,
            r.start_foldartal_list == self.start_foldartal_list,
            r.start_with_two_ideas == self.start_with_two_ideas,
            r.use_foldartal == self.use_foldartal,
            r.check_collapsal_paradigms == self.check_collapsal_paradigms,
            r.double_check_collapsal_paradigms == self.double_check_collapsal_paradigms,
            r.expected_collapsal_paradigms == self.expected_collapsal_paradigms,
            r.monthly_squad_auto_iterate == self.monthly_squad_auto_iterate,
            r.monthly_squad_check_comms == self.monthly_squad_check_comms,
            r.deep_exploration_auto_iterate == self.deep_exploration_auto_iterate,
            r.collectible_mode_shopping == self.collectible_mode_shopping,
            r.collectible_mode_squad == self.collectible_mode_squad,
            r.collectible_mode_start_list == self.collectible_mode_start_list,
            r.start_with_seed == self.start_with_seed,
    {
        let mut this = self;
        this.investment_enabled = Option::Some(investment_enabled);
        this
    }

    /// Set the optional integer field `investments_count`.
    pub fn investments_count(self, investments_count: i32) -> (r: Self)
        ensures
            r.investments_count == Option::Some(investments_count),
            r.enable == self.enable,
            r.theme == self.theme,
            r.mode == self.mode,
            r.squad == self.squad,
            r.roles == self.roles,
            r.core_char == self.core_char,
            r.use_support == self.use_support,
            r.use_nonfriend_support == self.use_nonfriend_support,
            r.starts_count == self.starts_count,
            r.difficulty == self.difficulty,
            r.stop_at_final_boss == self.stop_at_final_boss,
            r.stop_at_max_level == self.stop_at_max_level,
            r.investment_enabled == self.investment_enabled,
            r.stop_when_investment_full == self.stop_when_investment_full,
            r.investment_with_more_score == self.investment_with_more_score,
            r.start_with_elite_two == self.start_with_elite_two,
            r.only_start_with_elite_two == self.only_start_with_elite_two,
            r.refresh_trader_with_dice == self.refresh_trader_with_dice,
            r.first_floor_foldartal == self.first_floor_foldartal,
            r.start_foldartal_list == self.start_foldartal_list,
            r.start_with_two_ideas == self.start_with_two_ideas,
            r.use_foldartal == self.use_foldartal,
            r.check_collapsal_paradigms == self.check_collapsal_paradigms,
            r.double_check_collapsal_paradigms == self.double_check_collapsal_paradigms,
            r.expected_collapsal_paradigms == self.expected_collapsal_paradigms,
            r.monthly_squad_auto_iterate == self.monthly_squad_auto_iterate,
            r.monthly_squad_check_comms == self.monthly_squad_check_comms,
            r.deep_exploration_auto_iterate == self.deep_exploration_auto_iterate,
            r.collectible_mode_shopping == self.collectible_mode_shopping,
            r.collectible_mode_squad == self.collectible_mode_squad,
            r.collectible_mode_start_list == self.collectible_mode_start_list,
            r.start_with_seed == self.start_with_seed,
    {
        let mut this = self;
        this.investments_count = Option::Some(investments_count);
        this
    }

    /// Set the optional boolean field `stop_when_investment_full`.
    pub fn stop_when_investment_full(self, stop_when_investment_full: bool) -> (r: Self)
        ensures
            r.stop_when_investment_full == Option::Some(stop_when_investment_full),
            r.enable == self.enable,
            r.theme == self.theme,
            r.mode == self.mode,
            r.squad == self.squad,
            r.roles == self.roles,
            r.core_char == self.core_char,
            r.use_support == self.use_support,
            r.use_nonfriend_support == self.use_nonfriend_support,
            r.starts_count == self.starts_count,
            r.difficulty == self.difficulty,
            r.stop_at_final_boss == self.stop_at_final_boss,
            r.stop_at_max_level == self.stop_at_max_level,
            r.investment_enabled == self.investment_enabled,
            r.investments_count == self.investments_count,
            r.investment_with_more_score == self.investment_with_more_score,
            r.start_with_elite_two == self.start_with_elite_two,
            r.only_start_with_elite_two == self.only_start_with_elite_two,
            r.refresh_trader_with_dice == self.refresh_trader_with_dice,
            r.first_floor_foldartal == self.first_floor_foldartal,
            r.start_foldartal_list == self.start_foldartal_list,
            r.start_with_two_ideas == self.start_with_two_ideas,
            r.use_foldartal == self.use_foldartal,
            r.check_collapsal_paradigms == self.check_collapsal_paradigms,
            r.double_check_collapsal_paradigms == self.double_check_collapsal_paradigms,
            r.expected_collapsal_paradigms == self.expected_collapsal_paradigms,
            r.monthly_squad_auto_iterate == self.monthly_squad_auto_iterate,
            r.monthly_squad_check_comms == self.monthly_squad_check_comms,
            r.deep_exploration_auto_iterate == self.deep_exploration_auto_iterate,
            r.collectible_mode_shopping == self.collectible_mode_shopping,
            r.collectible_mode_squad == self.collectible_mode_squad,
            r.collectible_mode_start_list == self.collectible_mode_start_list,
            r.start_with_seed == self.start_with_seed,
    {
        let mut this = self;
        this.stop_when_investment_full = Option::Some(stop_when_investment_full);
        this
    }

    /// Set the optional boolean field `investment_with_more_score`.
    pub fn investment_with_more_score(self, investment_with_more_score: bool) -> (r: Self)
        ensures
            r.investment_with_more_score == Option::Some(investment_with_more_score),
            r.enable == self.enable,
            r.theme == self.theme,
            r.mode == self.mode,
            r.squad == self.squad,
            r.roles == self.roles,
            r.core_char == self.core_char,
            r.use_support == self.use_support,
            r.use_nonfriend_support == self.use_nonfriend_support,
            r.starts_count == self.starts_count,
            r.difficulty == self.difficulty,
            r.stop_at_final_boss == self.stop_at_final_boss,
            r.stop_at_max_level == self.stop_at_max_level,
            r.investment_enabled == self.investment_enabled,
            r.investments_count == self.investments_count,
            r.stop_when_investment_full == self.stop_when_investment_full,
            r.start_with_elite_two == self.start_with_elite_two,
            r.only_start_with_elite_two == self.only_start_with_elite_two,
            r.refresh_trader_with_dice == self.refresh_trader_with_dice,
            r.first_floor_foldartal == self.first_floor_foldartal,
            r.start_foldartal_list == self.start_foldartal_list,
            r.start_with_two_ideas == self.start_with_two_ideas,
            r.use_foldartal == self.use_foldartal,
            r.check_collapsal_paradigms == self.check_collapsal_paradigms,
            r.double_check_collapsal_paradigms == self.double_check_collapsal_paradigms,
            r.expected_collapsal_paradigms == self.expected_collapsal_paradigms,
            r.monthly_squad_auto_iterate == self.monthly_squad_auto_iterate,
            r.monthly_squad_check_comms == self.monthly_squad_check_comms,
            r.deep_exploration_auto_iterate == self.deep_exploration_auto_iterate,
            r.collectible_mode_shopping == self.collectible_mode_shopping,
            r.collectible_mode_squad == self.collectible_mode_squad,
            r.collectible_mode_start_list == self.collectible_mode_start_list,
            r.start_with_seed == self.start_with_seed,
    {
        let mut this = self;
        this.investment_with_more_score = Option::Some(investment_with_more_score);
        this
    }

    /// Set the optional boolean field `start_with_elite_two`.
    pub fn start_with_elite_two(self, start_with_elite_two: bool) -> (r: Self)
        ensures
            r.start_with_elite_two == Option::Some(start_with_elite_two),
            r.enable == self.enable,
            r.theme == self.theme,
            r.mode == self.mode,
            r.squad == self.squad,
            r.roles == self.roles,
            r.core_char == self.core_char,
            r.use_support == self.use_support,
            r.use_nonfriend_support == self.use_nonfriend_support,
            r.starts_count == self.starts_count,
            r.difficulty == self.difficulty,
            r.stop_at_final_boss == self.stop_at_final_boss,
            r.stop_at_max_level == self.stop_at_max_level,
            r.investment_enabled == self.investment_enabled,
            r.investments_count == self.investments_count,
            r.stop_when_investment_full == self.stop_when_investment_full,
            r.investment_with_more_score == self.investment_with_more_score,
            r.only_start_with_elite_two == self.only_start_with_elite_two,
            r.refresh_trader_with_dice == self.refresh_trader_with_dice,
            r.first_floor_foldartal == self.first_floor_foldartal,
            r.start_foldartal_list == self.start_foldartal_list,
            r.start_with_two_ideas == self.start_with_two_ideas,
            r.use_foldartal == self.use_foldartal,
            r.check_collapsal_paradigms == self.check_collapsal_paradigms,
            r.double_check_collapsal_paradigms == self.double_check_collapsal_paradigms,
            r.expected_collapsal_paradigms == self.expected_collapsal_paradigms,
            r.monthly_squad_auto_iterate == self.monthly_squad_auto_iterate,
            r.monthly_squad_check_comms == self.monthly_squad_check_comms,
            r.deep_exploration_auto_iterate == self.deep_exploration_auto_iterate,
            r.collectible_mode_shopping == self.collectible_mode_shopping,
            r.collectible_mode_squad == self.collectible_mode_squad,
            r.collectible_mode_start_list == self.collectible_mode_start_list,
            r.start_with_seed == self.start_with_seed,
    {
        let mut this = self;
        this.start_with_elite_two = Option::Some(start_with_elite_two);
        this
    }

    /// Set the optional boolean field `only_start_with_elite_two`.
    pub fn only_start_with_elite_two(self, only_start_with_elite_two: bool) -> (r: Self)
        ensures
            r.only_start_with_elite_two == Option::Some(only_start_with_elite_two),
            r.enable == self.enable,
            r.theme == self.theme,
            r.mode == self.mode,
            r.squad == self.squad,
            r.roles == self.roles,
            r.core_char == self.core_char,
            r.use_support == self.use_support,
            r.use_nonfriend_support == self.use_nonfriend_support,
            r.starts_count == self.starts_count,
            r.difficulty == self.difficulty,
            r.stop_at_final_boss == self.stop_at_final_boss,
            r.stop_at_max_level == self.stop_at_max_level,
            r.investment_enabled == self.investment_enabled,
            r.investments_count == self.investments_count,
            r.stop_when_investment_full == self.stop_when_investment_full,
            r.investment_with_more_score == self.investment_with_more_score,
            r.start_with_elite_two == self.start_with_elite_two,
            r.refresh_trader_with_dice == self.refresh_trader_with_dice,
            r.first_floor_foldartal == self.first_floor_foldartal,
            r.start_foldartal_list == self.start_foldartal_list,
            r.start_with_two_ideas == self.start_with_two_ideas,
            r.use_foldartal == self.use_foldartal,
            r.check_collapsal_paradigms == self.check_collapsal_paradigms,
            r.double_check_collapsal_paradigms == self.double_check_collapsal_paradigms,
            r.expected_collapsal_paradigms == self.expected_collapsal_paradigms,
            r.monthly_squad_auto_iterate == self.monthly_squad_auto_iterate,
            r.monthly_squad_check_comms == self.monthly_squad_check_comms,
            r.deep_exploration_auto_iterate == self.deep_exploration_auto_iterate,
            r.collectible_mode_shopping == self.collectible_mode_shopping,
            r.collectible_mode_squad == self.collectible_mode_squad,
            r.collectible_mode_start_list == self.collectible_mode_start_list,
            r.start_with_seed == self.start_with_seed,
    {
        let mut this = self;
        this.only_start_with_elite_two = Option::Some(only_start_with_elite_two);
        this
    }

    /// Set the optional boolean field `refresh_trader_with_dice`.
    pub fn refresh_trader_with_dice(self, refresh_trader_with_dice: bool) -> (r: Self)
        ensures
            r.refresh_trader_with_dice == Option::Some(refresh_trader_with_dice),
            r.enable == self.enable,
            r.theme == self.theme,
            r.mode == self.mode,
            r.squad == self.squad,
            r.roles == self.roles,
            r.core_char == self.core_char,
            r.use_support == self.use_support,
            r.use_nonfriend_support == self.use_nonfriend_support,
            r.starts_count == self.starts_count,
            r.difficulty == self.difficulty,
            r.stop_at_final_boss == self.stop_at_final_boss,
            r.stop_at_max_level == self.stop_at_max_level,
            r.investment_enabled == self.investment_enabled,
            r.investments_count == self.investments_count,
            r.stop_when_investment_full == self.stop_when_investment_full,
            r.investment_with_more_score == self.investment_with_more_score,
            r.start_with_elite_two == self.start_with_elite_two,
            r.only_start_with_elite_two == self.only_start_with_elite_two,
            r.first_floor_foldartal == self.first_floor_foldartal,
            r.start_foldartal_list == self.start_foldartal_list,
            r.start_with_two_ideas == self.start_with_two_ideas,
            r.use_foldartal == self.use_foldartal,
            r.check_collapsal_paradigms == self.check_collapsal_paradigms,
            r.double_check_collapsal_paradigms == self.double_check_collapsal_paradigms,
            r.expected_collapsal_paradigms == self.expected_collapsal_paradigms,
            r.monthly_squad_auto_iterate == self.monthly_squad_auto_iterate,
            r.monthly_squad_check_comms == self.monthly_squad_check_comms,
            r.deep_exploration_auto_iterate == self.deep_exploration_auto_iterate,
            r.collectible_mode_shopping == self.collectible_mode_shopping,
            r.collectible_mode_squad == self.collectible_mode_squad,
            r.collectible_mode_start_list == self.collectible_mode_start_list,
            r.start_with_seed == self.start_with_seed,
    {
        let mut this = self;
        this.refresh_trader_with_dice = Option::Some(refresh_trader_with_dice);
        this
    }

    /// Set the optional string field `first_floor_foldartal`.
    pub fn first_floor_foldartal(self, first_floor_foldartal: &str) -> (r: Self)
        ensures
            (r.first_floor_foldartal matches Option::Some(s) && s@ == first_floor_foldartal@),
            r.enable == self.enable,
            r.theme == self.theme,
            r.mode == self.mode,
            r.squad == self.squad,
            r.roles == self.roles,
            r.core_char == self.core_char,
            r.use_support == self.use_support,
            r.use_nonfriend_support == self.use_nonfriend_support,
            r.starts_count == self.starts_count,
            r.difficulty == self.difficulty,
            r.stop_at_final_boss == self.stop_at_final_boss,
            r.stop_at_max_level == self.stop_at_max_level,
            r.investment_enabled == self.investment_enabled,
            r.investments_count == self.investments_count,
            r.stop_when_investment_full == self.stop_when_investment_full,
            r.investment_with_more_score == self.investment_with_more_score,
            r.start_with_elite_two == self.start_with_elite_two,
            r.only_start_with_elite_two == self.only_start_with_elite_two,
            r.refresh_trader_with_dice == self.refresh_trader_with_dice,
            r.start_foldartal_list == self.start_foldartal_list,
            r.start_with_two_ideas == self.start_with_two_ideas,
            r.use_foldartal == self.use_foldartal,
            r.check_collapsal_paradigms == self.check_collapsal_paradigms,
            r.double_check_collapsal_paradigms == self.double_check_collapsal_paradigms,
            r.expected_collapsal_paradigms == self.expected_collapsal_paradigms,
            r.monthly_squad_auto_iterate == self.monthly_squad_auto_iterate,
            r.monthly_squad_check_comms == self.monthly_squad_check_comms,
            r.deep_exploration_auto_iterate == self.deep_exploration_auto_iterate,
            r.collectible_mode_shopping == self.collectible_mode_shopping,
            r.collectible_mode_squad == self.collectible_mode_squad,
            r.collectible_mode_start_list == self.collectible_mode_start_list,
            r.start_with_seed == self.start_with_seed,
    {
        let mut this = self;
        this.first_floor_foldartal = Option::Some(first_floor_foldartal.to_owned());
        this
    }

    /// Set the optional string-list field `start_foldartal_list`.
    pub fn start_foldartal_list(self, start_foldartal_list: Vec<String>) -> (r: Self)
        ensures
            r.start_foldartal_list == Option::Some(start_foldartal_list),
            r.enable == self.enable,
            r.theme == self.theme,
            r.mode == self.mode,
            r.squad == self.squad,
            r.roles == self.roles,
            r.core_char == self.core_char,
            r.use_support == self.use_support,
            r.use_nonfriend_support == self.use_nonfriend_support,
            r.starts_count == self.starts_count,
            r.difficulty == self.difficulty,
            r.stop_at_final_boss == self.stop_at_final_boss,
            r.stop_at_max_level == self.stop_at_max_level,
            r.investment_enabled == self.investment_enabled,
            r.investments_count == self.investments_count,
            r.stop_when_investment_full == self.stop_when_investment_full,
            r.investment_with_more_score == self.investment_with_more_score,
            r.start_with_elite_two == self.start_with_elite_two,
            r.only_start_with_elite_two == self.only_start_with_elite_two,
            r.refresh_trader_with_dice == self.refresh_trader_with_dice,
            r.first_floor_foldartal == self.first_floor_foldartal,
            r.start_with_two_ideas == self.start_with_two_ideas,
            r.use_foldartal == self.use_foldartal,
            r.check_collapsal_paradigms == self.check_collapsal_paradigms,
            r.double_check_collapsal_paradigms == self.double_check_collapsal_paradigms,
            r.expected_collapsal_paradigms == self.expected_collapsal_paradigms,
            r.monthly_squad_auto_iterate == self.monthly_squad_auto_iterate,
            r.monthly_squad_check_comms == self.monthly_squad_check_comms,
            r.deep_exploration_auto_iterate == self.deep_exploration_auto_iterate,
            r.collectible_mode_shopping == self.collectible_mode_shopping,
            r.collectible_mode_squad == self.collectible_mode_squad,
            r.collectible_mode_start_list == self.collectible_mode_start_list,
            r.start_with_seed == self.start_with_seed,
    {
        let mut this = self;
        this.start_foldartal_list = Option::Some(start_foldartal_list);
        this
    }

    /// Set the optional boolean field `start_with_two_ideas`.
    pub fn start_with_two_ideas(self, start_with_two_ideas: bool) -> (r: Self)
        ensures
            r.start_with_two_ideas == Option::Some(start_with_two_ideas),
            r.enable == self.enable,
            r.theme == self.theme,
            r.mode == self.mode,
            r.squad == self.squad,
            r.roles == self.roles,
            r.core_char == self.core_char,
            r.use_support == self.use_support,
            r.use_nonfriend_support == self.use_nonfriend_support,
            r.starts_count == self.starts_count,
            r.difficulty == self.difficulty,
            r.stop_at_final_boss == self.stop_at_final_boss,
            r.stop_at_max_level == self.stop_at_max_level,
            r.investment_enabled == self.investment_enabled,
            r.investments_count == self.investments_count,
            r.stop_when_investment_full == self.stop_when_investment_full,
            r.investment_with_more_score == self.investment_with_more_score,
            r.start_with_elite_two == self.start_with_elite_two,
            r.only_start_with_elite_two == self.only_start_with_elite_two,
            r.refresh_trader_with_dice == self.refresh_trader_with_dice,
            r.first_floor_foldartal == self.first_floor_foldartal,
            r.start_foldartal_list == self.start_foldartal_list,
            r.use_foldartal == self.use_foldartal,
            r.check_collapsal_paradigms == self.check_collapsal_paradigms,
            r.double_check_collapsal_paradigms == self.double_check_collapsal_paradigms,
            r.expected_collapsal_paradigms == self.expected_collapsal_paradigms,
            r.monthly_squad_auto_iterate == self.monthly_squad_auto_iterate,
            r.monthly_squad_check_comms == self.monthly_squad_check_comms,
            r.deep_exploration_auto_iterate == self.deep_exploration_auto_iterate,
            r.collectible_mode_shopping == self.collectible_mode_shopping,
            r.collectible_mode_squad == self.collectible_mode_squad,
            r.collectible_mode_start_list == self.collectible_mode_start_list,
            r.start_with_seed == self.start_with_seed,
    {
        let mut this = self;
        this.start_with_two_ideas = Option::Some(start_with_two_ideas);
        this
    }

    /// Set the optional boolean field `use_foldartal`.
    pub fn use_foldartal(self, use_foldartal: bool) -> (r: Self)
        ensures
            r.use_foldartal == Option::Some(use_foldartal),
            r.enable == self.enable,
            r.theme == self.theme,
            r.mode == self.mode,
            r.squad == self.squad,
            r.roles == self.roles,
            r.core_char == self.core_char,
            r.use_support == self.use_support,
            r.use_nonfriend_support == self.use_nonfriend_support,
            r.starts_count == self.starts_count,
            r.difficulty == self.difficulty,
            r.stop_at_final_boss == self.stop_at_final_boss,
            r.stop_at_max_level == self.stop_at_max_level,
            r.investment_enabled == self.investment_enabled,
            r.investments_count == self.investments_count,
            r.stop_when_investment_full == self.stop_when_investment_full,
            r.investment_with_more_score == self.investment_with_more_score,
            r.start_with_elite_two == self.start_with_elite_two,
            r.only_start_with_elite_two == self.only_start_with_elite_two,
            r.refresh_trader_with_dice == self.refresh_trader_with_dice,
            r.first_floor_foldartal == self.first_floor_foldartal,
            r.start_foldartal_list == self.start_foldartal_list,
            r.start_with_two_ideas == self.start_with_two_ideas,
            r.check_collapsal_paradigms == self.check_collapsal_paradigms,
            r.double_check_collapsal_paradigms == self.double_check_collapsal_paradigms,
            r.expected_collapsal_paradigms == self.expected_collapsal_paradigms,
            r.monthly_squad_auto_iterate == self.monthly_squad_auto_iterate,
            r.monthly_squad_check_comms == self.monthly_squad_check_comms,
            r.deep_exploration_auto_iterate == self.deep_exploration_auto_iterate,
            r.collectible_mode_shopping == self.collectible_mode_shopping,
            r.collectible_mode_squad == self.collectible_mode_squad,
            r.collectible_mode_start_list == self.collectible_mode_start_list,
            r.start_with_seed == self.start_with_seed,
    {
        let mut this = self;
        this.use_foldartal = Option::Some(use_foldartal);
        this
    }

    /// Set the optional boolean field `check_collapsal_paradigms`.
    pub fn check_collapsal_paradigms(self, check_collapsal_paradigms: bool) -> (r: Self)
        ensures
            r.check_collapsal_paradigms == Option::Some(check_collapsal_paradigms),
            r.enable == self.enable,
            r.theme == self.theme,
            r.mode == self.mode,
            r.squad == self.squad,
            r.roles == self.roles,
            r.core_char == self.core_char,
            r.use_support == self.use_support,
            r.use_nonfriend_support == self.use_nonfriend_support,
            r.starts_count == self.starts_count,
            r.difficulty == self.difficulty,
            r.stop_at_final_boss == self.stop_at_final_boss,
            r.stop_at_max_level == self.stop_at_max_level,
            r.investment_enabled == self.investment_enabled,
            r.investments_count == self.investments_count,
            r.stop_when_investment_full == self.stop_when_investment_full,
            r.investment_with_more_score == self.investment_with_more_score,
            r.start_with_elite_two == self.start_with_elite_two,
            r.only_start_with_elite_two == self.only_start_with_elite_two,
            r.refresh_trader_with_dice == self.refresh_trader_with_dice,
            r.first_floor_foldartal == self.first_floor_foldartal,
            r.start_foldartal_list == self.start_foldartal_list,
            r.start_with_two_ideas == self.start_with_two_ideas,
            r.use_foldartal == self.use_foldartal,
            r.double_check_collapsal_paradigms == self.double_check_collapsal_paradigms,
            r.expected_collapsal_paradigms == self.expected_collapsal_paradigms,
            r.monthly_squad_auto_iterate == self.monthly_squad_auto_iterate,
            r.monthly_squad_check_comms == self.monthly_squad_check_comms,
            r.deep_exploration_auto_iterate == self.deep_exploration_auto_iterate,
            r.collectible_mode_shopping == self.collectible_mode_shopping,
            r.collectible_mode_squad == self.collectible_mode_squad,
            r.collectible_mode_start_list == self.collectible_mode_start_list,
            r.start_with_seed == self.start_with_seed,
    {
        let mut this = self;
        this.check_collapsal_paradigms = Option::Some(check_collapsal_paradigms);
        this
    }

    /// Set the optional boolean field `double_check_collapsal_paradigms`.
    pub fn double_check_collapsal_paradigms(self, double_check_collapsal_paradigms: bool) -> (r: Self)
        ensures
            r.double_check_collapsal_paradigms == Option::Some(double_check_collapsal_paradigms),
            r.enable == self.enable,
            r.theme == self.theme,
            r.mode == self.mode,
            r.squad == self.squad,
            r.roles == self.roles,
            r.core_char == self.core_char,
            r.use_support == self.use_support,
            r.use_nonfriend_support == self.use_nonfriend_support,
            r.starts_count == self.starts_count,
            r.difficulty == self.difficulty,
            r.stop_at_final_boss == self.stop_at_final_boss,
            r.stop_at_max_level == self.stop_at_max_level,
            r.investment_enabled == self.investment_enabled,
            r.investments_count == self.investments_count,
            r.stop_when_investment_full == self.stop_when_investment_full,
            r.investment_with_more_score == self.investment_with_more_score,
            r.start_with_elite_two == self.start_with_elite_two,
            r.only_start_with_elite_two == self.only_start_with_elite_two,
            r.refresh_trader_with_dice == self.refresh_trader_with_dice,
            r.first_floor_foldartal == self.first_floor_foldartal,
            r.start_foldartal_list == self.start_foldartal_list,
            r.start_with_two_ideas == self.start_with_two_ideas,
            r.use_foldartal == self.use_foldartal,
            r.check_collapsal_paradigms == self.check_collapsal_paradigms,
            r.expected_collapsal_paradigms == self.expected_collapsal_paradigms,
            r.monthly_squad_auto_iterate == self.monthly_squad_auto_iterate,
            r.monthly_squad_check_comms == self.monthly_squad_check_comms,
            r.deep_exploration_auto_iterate == self.deep_exploration_auto_iterate,
            r.collectible_mode_shopping == self.collectible_mode_shopping,
            r.collectible_mode_squad == self.collectible_mode_squad,
            r.collectible_mode_start_list == self.collectible_mode_start_list,
            r.start_with_seed == self.start_with_seed,
    {
        let mut this = self;
        this.double_check_collapsal_paradigms = Option::Some(double_check_collapsal_paradigms);
        this
    }

    /// Set the optional string-list field `expected_collapsal_paradigms`.
    pub fn expected_collapsal_paradigms(self, expected_collapsal_paradigms: Vec<String>) -> (r: Self)
        ensures
            r.expected_collapsal_paradigms == Option::Some(expected_collapsal_paradigms),
            r.enable == self.enable,
            r.theme == self.theme,
            r.mode == self.mode,
            r.squad == self.squad,
            r.roles == self.roles,
            r.core_char == self.core_char,
            r.use_support == self.use_support,
            r.use_nonfriend_support == self.use_nonfriend_support,
            r.starts_count == self.starts_count,
            r.difficulty == self.difficulty,
            r.stop_at_final_boss == self.stop_at_final_boss,
            r.stop_at_max_level == self.stop_at_max_level,
            r.investment_enabled == self.investment_enabled,
            r.investments_count == self.investments_count,
            r.stop_when_investment_full == self.stop_when_investment_full,
            r.investment_with_more_score == self.investment_with_more_score,
            r.start_with_elite_two == self.start_with_elite_two,
            r.only_start_with_elite_two == self.only_start_with_elite_two,
            r.refresh_trader_with_dice == self.refresh_trader_with_dice,
            r.first_floor_foldartal == self.first_floor_foldartal,
            r.start_foldartal_list == self.start_foldartal_list,
            r.start_with_two_ideas == self.start_with_two_ideas,
            r.use_foldartal == self.use_foldartal,
            r.check_collapsal_paradigms == self.check_collapsal_paradigms,
            r.double_check_collapsal_paradigms == self.double_check_collapsal_paradigms,
            r.monthly_squad_auto_iterate == self.monthly_squad_auto_iterate,
            r.monthly_squad_check_comms == self.monthly_squad_check_comms,
            r.deep_exploration_auto_iterate == self.deep_exploration_auto_iterate,
            r.collectible_mode_shopping == self.collectible_mode_shopping,
            r.collectible_mode_squad == self.collectible_mode_squad,
            r.collectible_mode_start_list == self.collectible_mode_start_list,
            r.start_with_seed == self.start_with_seed,
    {
        let mut this = self;
        this.expected_collapsal_paradigms = Option::Some(expected_collapsal_paradigms);
        this
    }

    /// Set the optional boolean field `monthly_squad_auto_iterate`.
    pub fn monthly_squad_auto_iterate(self, monthly_squad_auto_iterate: bool) -> (r: Self)
        ensures
            r.monthly_squad_auto_iterate == Option::Some(monthly_squad_auto_iterate),
            r.enable == self.enable,
            r.theme == self.theme,
            r.mode == self.mode,
            r.squad == self.squad,
            r.roles == self.roles,
            r.core_char == self.core_char,
            r.use_support == self.use_support,
            r.use_nonfriend_support == self.use_nonfriend_support,
            r.starts_count == self.starts_count,
            r.difficulty == self.difficulty,
            r.stop_at_final_boss == self.stop_at_final_boss,
            r.stop_at_max_level == self.stop_at_max_level,
            r.investment_enabled == self.investment_enabled,
            r.investments_count == self.investments_count,
            r.stop_when_investment_full == self.stop_when_investment_full,
            r.investment_with_more_score == self.investment_with_more_score,
            r.start_with_elite_two == self.start_with_elite_two,
            r.only_start_with_elite_two == self.only_start_with_elite_two,
            r.refresh_trader_with_dice == self.refresh_trader_with_dice,
            r.first_floor_foldartal == self.first_floor_foldartal,
            r.start_foldartal_list == self.start_foldartal_list,
            r.start_with_two_ideas == self.start_with_two_ideas,
            r.use_foldartal == self.use_foldartal,
            r.check_collapsal_paradigms == self.check_collapsal_paradigms,
            r.double_check_collapsal_paradigms == self.double_check_collapsal_paradigms,
            r.expected_collapsal_paradigms == self.expected_collapsal_paradigms,
            r.monthly_squad_check_comms == self.monthly_squad_check_comms,
            r.deep_exploration_auto_iterate == self.deep_exploration_auto_iterate,
            r.collectible_mode_shopping == self.collectible_mode_shopping,
            r.collectible_mode_squad == self.collectible_mode_squad,
            r.collectible_mode_start_list == self.collectible_mode_start_list,
            r.start_with_seed == self.start_with_seed,
    {
        let mut this = self;
        this.monthly_squad_auto_iterate = Option::Some(monthly_squad_auto_iterate);
        this
    }

    /// Set the optional boolean field `monthly_squad_check_comms`.
    pub fn monthly_squad_check_comms(self, monthly_squad_check_comms: bool) -> (r: Self)
        ensures
            r.monthly_squad_check_comms == Option::Some(monthly_squad_check_comms),
            r.enable == self.enable,
            r.theme == self.theme,
            r.mode == self.mode,
            r.squad == self.squad,
            r.roles == self.roles,
            r.core_char == self.core_char,
            r.use_support == self.use_support,
            r.use_nonfriend_support == self.use_nonfriend_support,
            r.starts_count == self.starts_count,
            r.difficulty == self.difficulty,
            r.stop_at_final_boss == self.stop_at_final_boss,
            r.stop_at_max_level == self.stop_at_max_level,
            r.investment_enabled == self.investment_enabled,
            r.investments_count == self.investments_count,
            r.stop_when_investment_full == self.stop_when_investment_full,
            r.investment_with_more_score == self.investment_with_more_score,
            r.start_with_elite_two == self.start_with_elite_two,
            r.only_start_with_elite_two == self.only_start_with_elite_two,
            r.refresh_trader_with_dice == self.refresh_trader_with_dice,
            r.first_floor_foldartal == self.first_floor_foldartal,
            r.start_foldartal_list == self.start_foldartal_list,
            r.start_with_two_ideas == self.start_with_two_ideas,
            r.use_foldartal == self.use_foldartal,
            r.check_collapsal_paradigms == self.check_collapsal_paradigms,
            r.double_check_collapsal_paradigms == self.double_check_collapsal_paradigms,
            r.expected_collapsal_paradigms == self.expected_collapsal_paradigms,
            r.monthly_squad_auto_iterate == self.monthly_squad_auto_iterate,
            r.deep_exploration_auto_iterate == self.deep_exploration_auto_iterate,
            r.collectible_mode_shopping == self.collectible_mode_shopping,
            r.collectible_mode_squad == self.collectible_mode_squad,
            r.collectible_mode_start_list == self.collectible_mode_start_list,
            r.start_with_seed == self.start_with_seed,
    {
        let mut this = self;
        this.monthly_squad_check_comms = Option::Some(monthly_squad_check_comms);
        this
    }

    /// Set the optional boolean field `deep_exploration_auto_iterate`.
    pub fn deep_exploration_auto_iterate(self, deep_exploration_auto_iterate: bool) -> (r: Self)
        ensures
            r.deep_exploration_auto_iterate == Option::Some(deep_exploration_auto_iterate),
            r.enable == self.enable,
            r.theme == self.theme,
            r.mode == self.mode,
            r.squad == self.squad,
            r.roles == self.roles,
            r.core_char == self.core_char,
            r.use_support == self.use_support,
            r.use_nonfriend_support == self.use_nonfriend_support,
            r.starts_count == self.starts_count,
            r.difficulty == self.difficulty,
            r.stop_at_final_boss == self.stop_at_final_boss,
            r.stop_at_max_level == self.stop_at_max_level,
            r.investment_enabled == self.investment_enabled,
            r.investments_count == self.investments_count,
            r.stop_when_investment_full == self.stop_when_investment_full,
            r.investment_with_more_score == self.investment_with_more_score,
            r.start_with_elite_two == self.start_with_elite_two,
            r.only_start_with_elite_two == self.only_start_with_elite_two,
            r.refresh_trader_with_dice == self.refresh_trader_with_dice,
            r.first_floor_foldartal == self.first_floor_foldartal,
            r.start_foldartal_list == self.start_foldartal_list,
            r.start_with_two_ideas == self.start_with_two_ideas,
            r.use_foldartal == self.use_foldartal,
            r.check_collapsal_paradigms == self.check_collapsal_paradigms,
            r.double_check_collapsal_paradigms == self.double_check_collapsal_paradigms,
            r.expected_collapsal_paradigms == self.expected_collapsal_paradigms,
            r.monthly_squad_auto_iterate == self.monthly_squad_auto_iterate,
            r.monthly_squad_check_comms == self.monthly_squad_check_comms,
            r.collectible_mode_shopping == self.collectible_mode_shopping,
            r.collectible_mode_squad == self.collectible_mode_squad,
            r.collectible_mode_start_list == self.collectible_mode_start_list,
            r.start_with_seed == self.start_with_seed,
    {
        let mut this = self;
        this.deep_exploration_auto_iterate = Option::Some(deep_exploration_auto_iterate);
        this
    }

    /// Set the optional boolean field `collectible_mode_shopping`.
    pub fn collectible_mode_shopping(self, collectible_mode_shopping: bool) -> (r: Self)
        ensures
            r.collectible_mode_shopping == Option::Some(collectible_mode_shopping),
            r.enable == self.enable,
            r.theme == self.theme,
            r.mode == self.mode,
            r.squad == self.squad,
            r.roles == self.roles,
            r.core_char == self.core_char,
            r.use_support == self.use_support,
            r.use_nonfriend_support == self.use_nonfriend_support,
            r.starts_count == self.starts_count,
            r.difficulty == self.difficulty,
            r.stop_at_final_boss == self.stop_at_final_boss,
            r.stop_at_max_level == self.stop_at_max_level,
            r.investment_enabled == self.investment_enabled,
            r.investments_count == self.investments_count,
            r.stop_when_investment_full == self.stop_when_investment_full,
            r.investment_with_more_score == self.investment_with_more_score,
            r.start_with_elite_two == self.start_with_elite_two,
            r.only_start_with_elite_two == self.only_start_with_elite_two,
            r.refresh_trader_with_dice == self.refresh_trader_with_dice,
            r.first_floor_foldartal == self.first_floor_foldartal,
            r.start_foldartal_list == self.start_foldartal_list,
            r.start_with_two_ideas == self.start_with_two_ideas,
            r.use_foldartal == self.use_foldartal,
            r.check_collapsal_paradigms == self.check_collapsal_paradigms,
            r.double_check_collapsal_paradigms == self.double_check_collapsal_paradigms,
            r.expected_collapsal_paradigms == self.expected_collapsal_paradigms,
            r.monthly_squad_auto_iterate == self.monthly_squad_auto_iterate,
            r.monthly_squad_check_comms == self.monthly_squad_check_comms,
            r.deep_exploration_auto_iterate == self.deep_exploration_auto_iterate,
            r.collectible_mode_squad == self.collectible_mode_squad,
            r.collectible_mode_start_list == self.collectible_mode_start_list,
            r.start_with_seed == self.start_with_seed,
    {
        let mut this = self;
        this.collectible_mode_shopping = Option::Some(collectible_mode_shopping);
        this
    }

    /// Set the optional string field `collectible_mode_squad`.
    pub fn collectible_mode_squad(self, collectible_mode_squad: &str) -> (r: Self)
        ensures
            (r.collectible_mode_squad matches Option::Some(s) && s@ == collectible_mode_squad@),
            r.enable == self.enable,
            r.theme == self.theme,
            r.mode == self.mode,
            r.squad == self.squad,
            r.roles == self.roles,
            r.core_char == self.core_char,
            r.use_support == self.use_support,
            r.use_nonfriend_support == self.use_nonfriend_support,
            r.starts_count == self.starts_count,
            r.difficulty == self.difficulty,
            r.stop_at_final_boss == self.stop_at_final_boss,
            r.stop_at_max_level == self.stop_at_max_level,
            r.investment_enabled == self.investment_enabled,
            r.investments_count == self.investments_count,
            r.stop_when_investment_full == self.stop_when_investment_full,
            r.investment_with_more_score == self.investment_with_more_score,
            r.start_with_elite_two == self.start_with_elite_two,
            r.only_start_with_elite_two == self.only_start_with_elite_two,
            r.refresh_trader_with_dice == self.refresh_trader_with_dice,
            r.first_floor_foldartal == self.first_floor_foldartal,
            r.start_foldartal_list == self.start_foldartal_list,
            r.start_with_two_ideas == self.start_with_two_ideas,
            r.use_foldartal == self.use_foldartal,
            r.check_collapsal_paradigms == self.check_collapsal_paradigms,
            r.double_check_collapsal_paradigms == self.double_check_collapsal_paradigms,
            r.expected_collapsal_paradigms == self.expected_collapsal_paradigms,
            r.monthly_squad_auto_iterate == self.monthly_squad_auto_iterate,
            r.monthly_squad_check_comms == self.monthly_squad_check_comms,
            r.deep_exploration_auto_iterate == self.deep_exploration_auto_iterate,
            r.collectible_mode_shopping == self.collectible_mode_shopping,
            r.collectible_mode_start_list == self.collectible_mode_start_list,
            r.start_with_seed == self.start_with_seed,
    {
        let mut this = self;
        this.collectible_mode_squad = Option::Some(collectible_mode_squad.to_owned());
        this
    }

    /// Set the optional boolean-map field `collectible_mode_start_list`.
    pub fn collectible_mode_start_list(self, collectible_mode_start_list: Vec<(String, bool)>) -> (r: Self)
        ensures
            r.collectible_mode_start_list == Option::Some(collectible_mode_start_list),
            r.enable == self.enable,
            r.theme == self.theme,
            r.mode == self.mode,
            r.squad == self.squad,
            r.roles == self.roles,
            r.core_char == self.core_char,
            r.use_support == self.use_support,
            r.use_nonfriend_support == self.use_nonfriend_support,
            r.starts_count == self.starts_count,
            r.difficulty == self.difficulty,
            r.stop_at_final_boss == self.stop_at_final_boss,
            r.stop_at_max_level == self.stop_at_max_level,
            r.investment_enabled == self.investment_enabled,
            r.investments_count == self.investments_count,
            r.stop_when_investment_full == self.stop_when_investment_full,
            r.investment_with_more_score == self.investment_with_more_score,
            r.start_with_elite_two == self.start_with_elite_two,
            r.only_start_with_elite_two == self.only_start_with_elite_two,
            r.refresh_trader_with_dice == self.refresh_trader_with_dice,
            r.first_floor_foldartal == self.first_floor_foldartal,
            r.start_foldartal_list == self.start_foldartal_list,
            r.start_with_two_ideas == self.start_with_two_ideas,
            r.use_foldartal == self.use_foldartal,
            r.check_collapsal_paradigms == self.check_collapsal_paradigms,
            r.double_check_collapsal_paradigms == self.double_check_collapsal_paradigms,
            r.expected_collapsal_paradigms == self.expected_collapsal_paradigms,
            r.monthly_squad_auto_iterate == self.monthly_squad_auto_iterate,
            r.monthly_squad_check_comms == self.monthly_squad_check_comms,
            r.deep_exploration_auto_iterate == self.deep_exploration_auto_iterate,
            r.collectible_mode_shopping == self.collectible_mode_shopping,
            r.collectible_mode_squad == self.collectible_mode_squad,
            r.start_with_seed == self.start_with_seed,
    {
        let mut this = self;
        this.collectible_mode_start_list = Option::Some(collectible_mode_start_list);
        this
    }

    /// Set the optional boolean field `start_with_seed`.
    pub fn start_with_seed(self, start_with_seed: bool) -> (r: Self)
        ensures
            r.start_with_seed == Option::Some(start_with_seed),
            r.enable == self.enable,
            r.theme == self.theme,
            r.mode == self.mode,
            r.squad == self.squad,
            r.roles == self.roles,
            r.core_char == self.core_char,
            r.use_support == self.use_support,
            r.use_nonfriend_support == self.use_nonfriend_support,
            r.starts_count == self.starts_count,
            r.difficulty == self.difficulty,
            r.stop_at_final_boss == self.stop_at_final_boss,
            r.stop_at_max_level == self.stop_at_max_level,
            r.investment_enabled == self.investment_enabled,
            r.investments_count == self.investments_count,
            r.stop_when_investment_full == self.stop_when_investment_full,
            r.investment_with_more_score == self.investment_with_more_score,
            r.start_with_elite_two == self.start_with_elite_two,
            r.only_start_with_elite_two == self.only_start_with_elite_two,
            r.refresh_trader_with_dice == self.refresh_trader_with_dice,
            r.first_floor_foldartal == self.first_floor_foldartal,
            r.start_foldartal_list == self.start_foldartal_list,
            r.start_with_two_ideas == self.start_with_two_ideas,
            r.use_foldartal == self.use_foldartal,
            r.check_collapsal_paradigms == self.check_collapsal_paradigms,
            r.double_check_collapsal_paradigms == self.double_check_collapsal_paradigms,
            r.expected_collapsal_paradigms == self.expected_collapsal_paradigms,
            r.monthly_squad_auto_iterate == self.monthly_squad_auto_iterate,
            r.monthly_squad_check_comms == self.monthly_squad_check_comms,
            r.deep_exploration_auto_iterate == self.deep_exploration_auto_iterate,
            r.collectible_mode_shopping == self.collectible_mode_shopping,
            r.collectible_mode_squad == self.collectible_mode_squad,
            r.collectible_mode_start_list == self.collectible_mode_start_list,
    {
        let mut this = self;
        this.start_with_seed = Option::Some(start_with_seed);
        this
    }

    /// The finished task.
    pub fn build(self) -> (r: RoguelikeTask)
        ensures
            r.enable == self.enable,
            r.theme == self.theme,
            r.mode == self.mode,
            r.squad == self.squad,
            r.roles == self.roles,
            r.core_char == self.core_char,
            r.use_support == self.use_support,
            r.use_nonfriend_support == self.use_nonfriend_support,
            r.starts_count == self.starts_count,
            r.difficulty == self.difficulty,
            r.stop_at_final_boss == self.stop_at_final_boss,
            r.stop_at_max_level == self.stop_at_max_level,
            r.investment_enabled == self.investment_enabled,
            r.investments_count == self.investments_count,
            r.stop_when_investment_full == self.stop_when_investment_full,
            r.investment_with_more_score == self.investment_with_more_score,
            r.start_with_elite_two == self.start_with_elite_two,
            r.only_start_with_elite_two == self.only_start_with_elite_two,
            r.refresh_trader_with_dice == self.refresh_trader_with_dice,
            r.first_floor_foldartal == self.first_floor_foldartal,
            r.start_foldartal_list == self.start_foldartal_list,
            r.start_with_two_ideas == self.start_with_two_ideas,
            r.use_foldartal == self.use_foldartal,
            r.check_collapsal_paradigms == self.check_collapsal_paradigms,
            r.double_check_collapsal_paradigms == self.double_check_collapsal_paradigms,
            r.expected_collapsal_paradigms == self.expected_collapsal_paradigms,
            r.monthly_squad_auto_iterate == self.monthly_squad_auto_iterate,
            r.monthly_squad_check_comms == self.monthly_squad_check_comms,
            r.deep_exploration_auto_iterate == self.deep_exploration_auto_iterate,
            r.collectible_mode_shopping == self.collectible_mode_shopping,
            r.collectible_mode_squad == self.collectible_mode_squad,
            r.collectible_mode_start_list == self.collectible_mode_start_list,
            r.start_with_seed == self.start_with_seed,
    {
        RoguelikeTask { enable: self.enable, theme: self.theme, mode: self.mode, squad: self.squad, roles: self.roles, core_char: self.core_char, use_support: self.use_support, use_nonfriend_support: self.use_nonfriend_support, starts_count: self.starts_count, difficulty: self.difficulty, stop_at_final_boss: self.stop_at_final_boss, stop_at_max_level: self.stop_at_max_level, investment_enabled: self.investment_enabled, investments_count: self.investments_count, stop_when_investment_full: self.stop_when_investment_full, investment_with_more_score: self.investment_with_more_score, start_with_elite_two: self.start_with_elite_two, only_start_with_elite_two: self.only_start_with_elite_two, refresh_trader_with_dice: self.refresh_trader_with_dice, first_floor_foldartal: self.first_floor_foldartal, start_foldartal_list: self.start_foldartal_list, start_with_two_ideas: self.start_with_two_ideas, use_foldartal: self.use_foldartal, check_collapsal_paradigms: self.check_collapsal_paradigms, double_check_collapsal_paradigms: self.double_check_collapsal_paradigms, expected_collapsal_paradigms: self.expected_collapsal_paradigms, monthly_squad_auto_iterate: self.monthly_squad_auto_iterate, monthly_squad_check_comms: self.monthly_squad_check_comms, deep_exploration_auto_iterate: self.deep_exploration_auto_iterate, collectible_mode_shopping: self.collectible_mode_shopping, collectible_mode_squad: self.collectible_mode_squad, collectible_mode_start_list: self.collectible_mode_start_list, start_with_seed: self.start_with_seed } 
    }
}

/// What lookup of `enable` finds in the members of a Roguelike task.
proof fn roguelike_get_enable(t: RoguelikeTask)
    ensures
        doc_get(roguelike_pairs(t), "enable"@) == (match t.enable { Option::None => Option::<JsonV>::None, Option::Some(b) => Option::Some(JsonV::Sc(ScalarV::Bool(b))) }),
{
    reveal_strlit("enable");
    reveal_strlit("theme");
    reveal_strlit("mode");
    reveal_strlit("squad");
    reveal_strlit("roles");
    reveal_strlit("core_char");
    reveal_strlit("use_support");
    reveal_strlit("use_nonfriend_support");
    reveal_strlit("starts_count");
    reveal_strlit("difficulty");
    reveal_strlit("stop_at_final_boss");
    reveal_strlit("stop_at_max_level");
    reveal_strlit("investment_enabled");
    reveal_strlit("investments_count");
    reveal_strlit("stop_when_investment_full");
    reveal_strlit("investment_with_more_score");
    reveal_strlit("start_with_elite_two");
    reveal_strlit("only_start_with_elite_two");
    reveal_strlit("refresh_trader_with_dice");
    reveal_strlit("first_floor_foldartal");
    reveal_strlit("start_foldartal_list");
    reveal_strlit("start_with_two_ideas");
    reveal_strlit("use_foldartal");
    reveal_strlit("check_collapsal_paradigms");
    reveal_strlit("double_check_collapsal_paradigms");
    reveal_strlit("expected_collapsal_paradigms");
    reveal_strlit("monthly_squad_auto_iterate");
    reveal_strlit("monthly_squad_check_comms");
    reveal_strlit("deep_exploration_auto_iterate");
    reveal_strlit("collectible_mode_shopping");
    reveal_strlit("collectible_mode_squad");
    reveal_strlit("collectible_mode_start_list");
    reveal_strlit("start_with_seed");
    assert("enable"@.len() != "theme"@.len());
    assert("enable"@ != "theme"@);
    assert("enable"@.len() != "mode"@.len());
    assert("enable"@ != "mode"@);
    assert("enable"@.len() != "squad"@.len());
    assert("enable"@ != "squad"@);
    assert("enable"@.len() != "roles"@.len());
    assert("enable"@ != "roles"@);
    assert("enable"@.len() != "core_char"@.len());
    assert("enable"@ != "core_char"@);
    assert("enable"@.len() != "use_support"@.len());
    assert("enable"@ != "use_support"@);
    assert("enable"@.len() != "use_nonfriend_support"@.len());
    assert("enable"@ != "use_nonfriend_support"@);
    assert("enable"@.len() != "starts_count"@.len());
    assert("enable"@ != "starts_count"@);
    assert("enable"@.len() != "difficulty"@.len());
    assert("enable"@ != "difficulty"@);
    assert("enable"@.len() != "stop_at_final_boss"@.len());
    assert("enable"@ != "stop_at_final_boss"@);
    assert("enable"@.len() != "stop_at_max_level"@.len());
    assert("enable"@ != "stop_at_max_level"@);
    assert("enable"@.len() != "investment_enabled"@.len());
    assert("enable"@ != "investment_enabled"@);
    assert("enable"@.len() != "investments_count"@.len());
    assert("enable"@ != "investments_count"@);
    assert("enable"@.len() != "stop_when_investment_full"@.len());
    assert("enable"@ != "stop_when_investment_full"@);
    assert("enable"@.len() != "investment_with_more_score"@.len());
    assert("enable"@ != "investment_with_more_score"@);
    assert("enable"@.len() != "start_with_elite_two"@.len());
    assert("enable"@ != "start_with_elite_two"@);
    assert("enable"@.len() != "only_start_with_elite_two"@.len());
    assert("enable"@ != "only_start_with_elite_two"@);
    assert("enable"@.len() != "refresh_trader_with_dice"@.len());
    assert("enable"@ != "refresh_trader_with_dice"@);
    assert("enable"@.len() != "first_floor_foldartal"@.len());
    assert("enable"@ != "first_floor_foldartal"@);
    assert("enable"@.len() != "start_foldartal_list"@.len());
    assert("enable"@ != "start_foldartal_list"@);
    assert("enable"@.len() != "start_with_two_ideas"@.len());
    assert("enable"@ != "start_with_two_ideas"@);
    assert("enable"@.len() != "use_foldartal"@.len());
    assert("enable"@ != "use_foldartal"@);
    assert("enable"@.len() != "check_collapsal_paradigms"@.len());
    assert("enable"@ != "check_collapsal_paradigms"@);
    assert("enable"@.len() != "double_check_collapsal_paradigms"@.len());
    assert("enable"@ != "double_check_collapsal_paradigms"@);
    assert("enable"@.len() != "expected_collapsal_paradigms"@.len());
    assert("enable"@ != "expected_collapsal_paradigms"@);
    assert("enable"@.len() != "monthly_squad_auto_iterate"@.len());
    assert("enable"@ != "monthly_squad_auto_iterate"@);
    assert("enable"@.len() != "monthly_squad_check_comms"@.len());
    assert("enable"@ != "monthly_squad_check_comms"@);
    assert("enable"@.len() != "deep_exploration_auto_iterate"@.len());
    assert("enable"@ != "deep_exploration_auto_iterate"@);
    assert("enable"@.len() != "collectible_mode_shopping"@.len());
    assert("enable"@ != "collectible_mode_shopping"@);
    assert("enable"@.len() != "collectible_mode_squad"@.len());
    assert("enable"@ != "collectible_mode_squad"@);
    assert("enable"@.len() != "collectible_mode_start_list"@.len());
    assert("enable"@ != "collectible_mode_start_list"@);
    assert("enable"@.len() != "start_with_seed"@.len());
    assert("enable"@ != "start_with_seed"@);
    let b1 = b_opt_bool("enable"@, t.enable);
    let b2 = b_opt_str("theme"@, opt_str_view(t.theme));
    let b3 = b_opt_int("mode"@, t.mode);
    let b4 = b_opt_str("squad"@, opt_str_view(t.squad));
    let b5 = b_opt_str("roles"@, opt_str_view(t.roles));
    let b6 = b_opt_str("core_char"@, opt_str_view(t.core_char));
    let b7 = b_opt_bool("use_support"@, t.use_support);
    let b8 = b_opt_bool("use_nonfriend_support"@, t.use_nonfriend_support);
    let b9 = b_opt_int("starts_count"@, t.starts_count);
    let b10 = b_opt_int("difficulty"@, t.difficulty);
    let b11 = b_opt_bool("stop_at_final_boss"@, t.stop_at_final_boss);
    let b12 = b_opt_bool("stop_at_max_level"@, t.stop_at_max_level);
    let b13 = b_opt_bool("investment_enabled"@, t.investment_enabled);
    let b14 = b_opt_int("investments_count"@, t.investments_count);
    let b15 = b_opt_bool("stop_when_investment_full"@, t.stop_when_investment_full);
    let b16 = b_opt_bool("investment_with_more_score"@, t.investment_with_more_score);
    let b17 = b_opt_bool("start_with_elite_two"@, t.start_with_elite_two);
    let b18 = b_opt_bool("only_start_with_elite_two"@, t.only_start_with_elite_two);
    let b19 = b_opt_bool("refresh_trader_with_dice"@, t.refresh_trader_with_dice);
    let b20 = b_opt_str("first_floor_foldartal"@, opt_str_view(t.first_floor_foldartal));
    let b21 = b_opt_str_list("start_foldartal_list"@, (match t.start_foldartal_list { Option::None => Option::None, Option::Some(l) => Option::Some(strs_view(l@)) }));
    let b22 = b_opt_bool("start_with_two_ideas"@, t.start_with_two_ideas);
    let b23 = b_opt_bool("use_foldartal"@, t.use_foldartal);
    let b24 = b_opt_bool("check_collapsal_paradigms"@, t.check_collapsal_paradigms);
    let b25 = b_opt_bool("double_check_collapsal_paradigms"@, t.double_check_collapsal_paradigms);
    let b26 = b_opt_str_list("expected_collapsal_paradigms"@, (match t.expected_collapsal_paradigms { Option::None => Option::None, Option::Some(l) => Option::Some(strs_view(l@)) }));
    let b27 = b_opt_bool("monthly_squad_auto_iterate"@, t.monthly_squad_auto_iterate);
    let b28 = b_opt_bool("monthly_squad_check_comms"@, t.monthly_squad_check_comms);
    let b29 = b_opt_bool("deep_exploration_auto_iterate"@, t.deep_exploration_auto_iterate);
    let b30 = b_opt_bool("collectible_mode_shopping"@, t.collectible_mode_shopping);
    let b31 = b_opt_str("collectible_mode_squad"@, opt_str_view(t.collectible_mode_squad));
    let b32 = b_opt_bool_map("collectible_mode_start_list"@, (match t.collectible_mode_start_list { Option::None => Option::None, Option::Some(m) => Option::Some(bpairs_view(m@)) }));
    let b33 = b_opt_bool("start_with_seed"@, t.start_with_seed);
    let p1 = b1;
    let p2 = p1 + b2;
    let p3 = p2 + b3;
    let p4 = p3 + b4;
    let p5 = p4 + b5;
    let p6 = p5 + b6;
    let p7 = p6 + b7;
    let p8 = p7 + b8;
    let p9 = p8 + b9;
    let p10 = p9 + b10;
    let p11 = p10 + b11;
    let p12 = p11 + b12;
    let p13 = p12 + b13;
    let p14 = p13 + b14;
    let p15 = p14 + b15;
    let p16 = p15 + b16;
    let p17 = p16 + b17;
    let p18 = p17 + b18;
    let p19 = p18 + b19;
    let p20 = p19 + b20;
    let p21 = p20 + b21;
    let p22 = p21 + b22;
    let p23 = p22 + b23;
    let p24 = p23 + b24;
    let p25 = p24 + b25;
    let p26 = p25 + b26;
    let p27 = p26 + b27;
    let p28 = p27 + b28;
    let p29 = p28 + b29;
    let p30 = p29 + b30;
    let p31 = p30 + b31;
    let p32 = p31 + b32;
    let p33 = p32 + b33;
    assert(roguelike_pairs(t) == p33);
    lemma_doc_get_block(b1, "enable"@);
    lemma_doc_get_block(b2, "enable"@);
    lemma_doc_get_block(b3, "enable"@);
    lemma_doc_get_block(b4, "enable"@);
    lemma_doc_get_block(b5, "enable"@);
    lemma_doc_get_block(b6, "enable"@);
    lemma_doc_get_block(b7, "enable"@);
    lemma_doc_get_block(b8, "enable"@);
    lemma_doc_get_block(b9, "enable"@);
    lemma_doc_get_block(b10, "enable"@);
    lemma_doc_get_block(b11, "enable"@);
    lemma_doc_get_block(b12, "enable"@);
    lemma_doc_get_block(b13, "enable"@);
    lemma_doc_get_block(b14, "enable"@);
    lemma_doc_get_block(b15, "enable"@);
    lemma_doc_get_block(b16, "enable"@);
    lemma_doc_get_block(b17, "enable"@);
    lemma_doc_get_block(b18, "enable"@);
    lemma_doc_get_block(b19, "enable"@);
    lemma_doc_get_block(b20, "enable"@);
    lemma_doc_get_block(b21, "enable"@);
    lemma_doc_get_block(b22, "enable"@);
    lemma_doc_get_block(b23, "enable"@);
    lemma_doc_get_block(b24, "enable"@);
    lemma_doc_get_block(b25, "enable"@);
    lemma_doc_get_block(b26, "enable"@);
    lemma_doc_get_block(b27, "enable"@);
    lemma_doc_get_block(b28, "enable"@);
    lemma_doc_get_block(b29, "enable"@);
    lemma_doc_get_block(b30, "enable"@);
    lemma_doc_get_block(b31, "enable"@);
    lemma_doc_get_block(b32, "enable"@);
    lemma_doc_get_block(b33, "enable"@);
    lemma_doc_get_concat(p32, b33, "enable"@);
    lemma_doc_get_concat(p31, b32, "enable"@);
    lemma_doc_get_concat(p30, b31, "enable"@);
    lemma_doc_get_concat(p29, b30, "enable"@);
    lemma_doc_get_concat(p28, b29, "enable"@);
    lemma_doc_get_concat(p27, b28, "enable"@);
    lemma_doc_get_concat(p26, b27, "enable"@);
    lemma_doc_get_concat(p25, b26, "enable"@);
    lemma_doc_get_concat(p24, b25, "enable"@);
    lemma_doc_get_concat(p23, b24, "enable"@);
    lemma_doc_get_concat(p22, b23, "enable"@);
    lemma_doc_get_concat(p21, b22, "enable"@);
    lemma_doc_get_concat(p20, b21, "enable"@);
    lemma_doc_get_concat(p19, b20, "enable"@);
    lemma_doc_get_concat(p18, b19, "enable"@);
    lemma_doc_get_concat(p17, b18, "enable"@);
    lemma_doc_get_concat(p16, b17, "enable"@);
    lemma_doc_get_concat(p15, b16, "enable"@);
    lemma_doc_get_concat(p14, b15, "enable"@);
    lemma_doc_get_concat(p13, b14, "enable"@);
    lemma_doc_get_concat(p12, b13, "enable"@);
    lemma_doc_get_concat(p11, b12, "enable"@);
    lemma_doc_get_concat(p10, b11, "enable"@);
    lemma_doc_get_concat(p9, b10, "enable"@);
    lemma_doc_get_concat(p8, b9, "enable"@);
    lemma_doc_get_concat(p7, b8, "enable"@);
    lemma_doc_get_concat(p6, b7, "enable"@);
    lemma_doc_get_concat(p5, b6, "enable"@);
    lemma_doc_get_concat(p4, b5, "enable"@);
    lemma_doc_get_concat(p3, b4, "enable"@);
    lemma_doc_get_concat(p2, b3, "enable"@);
    lemma_doc_get_concat(p1, b2, "enable"@);
}

/// What lookup of `theme` finds in the members of a Roguelike task.
proof fn roguelike_get_theme(t: RoguelikeTask)
    ensures
        doc_get(roguelike_pairs(t), "theme"@) == (match t.theme { Option::None => Option::<JsonV>::None, Option::Some(s) => Option::Some(JsonV::Sc(ScalarV::Str(s@))) }),
{
    reveal_strlit("enable");
    reveal_strlit("theme");
    reveal_strlit("mode");
    reveal_strlit("squad");
    reveal_strlit("roles");
    reveal_strlit("core_char");
    reveal_strlit("use_support");
    reveal_strlit("use_nonfriend_support");
    reveal_strlit("starts_count");
    reveal_strlit("difficulty");
    reveal_strlit("stop_at_final_boss");
    reveal_strlit("stop_at_max_level");
    reveal_strlit("investment_enabled");
    reveal_strlit("investments_count");
    reveal_strlit("stop_when_investment_full");
    reveal_strlit("investment_with_more_score");
    reveal_strlit("start_with_elite_two");
    reveal_strlit("only_start_with_elite_two");
    reveal_strlit("refresh_trader_with_dice");
    reveal_strlit("first_floor_foldartal");
    reveal_strlit("start_foldartal_list");
    reveal_strlit("start_with_two_ideas");
    reveal_strlit("use_foldartal");
    reveal_strlit("check_collapsal_paradigms");
    reveal_strlit("double_check_collapsal_paradigms");
    reveal_strlit("expected_collapsal_paradigms");
    reveal_strlit("monthly_squad_auto_iterate");
    reveal_strlit("monthly_squad_check_comms");
    reveal_strlit("deep_exploration_auto_iterate");
    reveal_strlit("collectible_mode_shopping");
    reveal_strlit("collectible_mode_squad");
    reveal_strlit("collectible_mode_start_list");
    reveal_strlit("start_with_seed");
    assert("theme"@.len() != "enable"@.len());
    assert("theme"@ != "enable"@);
    assert("theme"@.len() != "mode"@.len());
    assert("theme"@ != "mode"@);
    assert("theme"@[0] != "squad"@[0]);
    assert("theme"@ != "squad"@);
    assert("theme"@[0] != "roles"@[0]);
    assert("theme"@ != "roles"@);
    assert("theme"@.len() != "core_char"@.len());
    assert("theme"@ != "core_char"@);
    assert("theme"@.len() != "use_support"@.len());
    assert("theme"@ != "use_support"@);
    assert("theme"@.len() != "use_nonfriend_support"@.len());
    assert("theme"@ != "use_nonfriend_support"@);
    assert("theme"@.len() != "starts_count"@.len());
    assert("theme"@ != "starts_count"@);
    assert("theme"@.len() != "difficulty"@.len());
    assert("theme"@ != "difficulty"@);
    assert("theme"@.len() != "stop_at_final_boss"@.len());
    assert("theme"@ != "stop_at_final_boss"@);
    assert("theme"@.len() != "stop_at_max_level"@.len());
    assert("theme"@ != "stop_at_max_level"@);
    assert("theme"@.len() != "investment_enabled"@.len());
    assert("theme"@ != "investment_enabled"@);
    assert("theme"@.len() != "investments_count"@.len());
    assert("theme"@ != "investments_count"@);
    assert("theme"@.len() != "stop_when_investment_full"@.len());
    assert("theme"@ != "stop_when_investment_full"@);
    assert("theme"@.len() != "investment_with_more_score"@.len());
    assert("theme"@ != "investment_with_more_score"@);
    assert("theme"@.len() != "start_with_elite_two"@.len());
    assert("theme"@ != "start_with_elite_two"@);
    assert("theme"@.len() != "only_start_with_elite_two"@.len());
    assert("theme"@ != "only_start_with_elite_two"@);
    assert("theme"@.len() != "refresh_trader_with_dice"@.len());
    assert("theme"@ != "refresh_trader_with_dice"@);
    assert("theme"@.len() != "first_floor_foldartal"@.len());
    assert("theme"@ != "first_floor_foldartal"@);
    assert("theme"@.len() != "start_foldartal_list"@.len());
    assert("theme"@ != "start_foldartal_list"@);
    assert("theme"@.len() != "start_with_two_ideas"@.len());
    assert("theme"@ != "start_with_two_ideas"@);
    assert("theme"@.len() != "use_foldartal"@.len());
    assert("theme"@ != "use_foldartal"@);
    assert("theme"@.len() != "check_collapsal_paradigms"@.len());
    assert("theme"@ != "check_collapsal_paradigms"@);
    assert("theme"@.len() != "double_check_collapsal_paradigms"@.len());
    assert("theme"@ != "double_check_collapsal_paradigms"@);
    assert("theme"@.len() != "expected_collapsal_paradigms"@.len());
    assert("theme"@ != "expected_collapsal_paradigms"@);
    assert("theme"@.len() != "monthly_squad_auto_iterate"@.len());
    assert("theme"@ != "monthly_squad_auto_iterate"@);
    assert("theme"@.len() != "monthly_squad_check_comms"@.len());
    assert("theme"@ != "monthly_squad_check_comms"@);
    assert("theme"@.len() != "deep_exploration_auto_iterate"@.len());
    assert("theme"@ != "deep_exploration_auto_iterate"@);
    assert("theme"@.len() != "collectible_mode_shopping"@.len());
    assert("theme"@ != "collectible_mode_shopping"@);
    assert("theme"@.len() != "collectible_mode_squad"@.len());
    assert("theme"@ != "collectible_mode_squad"@);
    assert("theme"@.len() != "collectible_mode_start_list"@.len());
    assert("theme"@ != "collectible_mode_start_list"@);
    assert("theme"@.len() != "start_with_seed"@.len());
    assert("theme"@ != "start_with_seed"@);
    let b1 = b_opt_bool("enable"@, t.enable);
    let b2 = b_opt_str("theme"@, opt_str_view(t.theme));
    let b3 = b_opt_int("mode"@, t.mode);
    let b4 = b_opt_str("squad"@, opt_str_view(t.squad));
    let b5 = b_opt_str("roles"@, opt_str_view(t.roles));
    let b6 = b_opt_str("core_char"@, opt_str_view(t.core_char));
    let b7 = b_opt_bool("use_support"@, t.use_support);
    let b8 = b_opt_bool("use_nonfriend_support"@, t.use_nonfriend_support);
    let b9 = b_opt_int("starts_count"@, t.starts_count);
    let b10 = b_opt_int("difficulty"@, t.difficulty);
    let b11 = b_opt_bool("stop_at_final_boss"@, t.stop_at_final_boss);
    let b12 = b_opt_bool("stop_at_max_level"@, t.stop_at_max_level);
    let b13 = b_opt_bool("investment_enabled"@, t.investment_enabled);
    let b14 = b_opt_int("investments_count"@, t.investments_count);
    let b15 = b_opt_bool("stop_when_investment_full"@, t.stop_when_investment_full);
    let b16 = b_opt_bool("investment_with_more_score"@, t.investment_with_more_score);
    let b17 = b_opt_bool("start_with_elite_two"@, t.start_with_elite_two);
    let b18 = b_opt_bool("only_start_with_elite_two"@, t.only_start_with_elite_two);
    let b19 = b_opt_bool("refresh_trader_with_dice"@, t.refresh_trader_with_dice);
    let b20 = b_opt_str("first_floor_foldartal"@, opt_str_view(t.first_floor_foldartal));
    let b21 = b_opt_str_list("start_foldartal_list"@, (match t.start_foldartal_list { Option::None => Option::None, Option::Some(l) => Option::Some(strs_view(l@)) }));
    let b22 = b_opt_bool("start_with_two_ideas"@, t.start_with_two_ideas);
    let b23 = b_opt_bool("use_foldartal"@, t.use_foldartal);
    let b24 = b_opt_bool("check_collapsal_paradigms"@, t.check_collapsal_paradigms);
    let b25 = b_opt_bool("double_check_collapsal_paradigms"@, t.double_check_collapsal_paradigms);
    let b26 = b_opt_str_list("expected_collapsal_paradigms"@, (match t.expected_collapsal_paradigms { Option::None => Option::None, Option::Some(l) => Option::Some(strs_view(l@)) }));
    let b27 = b_opt_bool("monthly_squad_auto_iterate"@, t.monthly_squad_auto_iterate);
    let b28 = b_opt_bool("monthly_squad_check_comms"@, t.monthly_squad_check_comms);
    let b29 = b_opt_bool("deep_exploration_auto_iterate"@, t.deep_exploration_auto_iterate);
    let b30 = b_opt_bool("collectible_mode_shopping"@, t.collectible_mode_shopping);
    let b31 = b_opt_str("collectible_mode_squad"@, opt_str_view(t.collectible_mode_squad));
    let b32 = b_opt_bool_map("collectible_mode_start_list"@, (match t.collectible_mode_start_list { Option::None => Option::None, Option::Some(m) => Option::Some(bpairs_view(m@)) }));
    let b33 = b_opt_bool("start_with_seed"@, t.start_with_seed);
    let p1 = b1;
    let p2 = p1 + b2;
    let p3 = p2 + b3;
    let p4 = p3 + b4;
    let p5 = p4 + b5;
    let p6 = p5 + b6;
    let p7 = p6 + b7;
    let p8 = p7 + b8;
    let p9 = p8 + b9;
    let p10 = p9 + b10;
    let p11 = p10 + b11;
    let p12 = p11 + b12;
    let p13 = p12 + b13;
    let p14 = p13 + b14;
    let p15 = p14 + b15;
    let p16 = p15 + b16;
    let p17 = p16 + b17;
    let p18 = p17 + b18;
    let p19 = p18 + b19;
    let p20 = p19 + b20;
    let p21 = p20 + b21;
    let p22 = p21 + b22;
    let p23 = p22 + b23;
    let p24 = p23 + b24;
    let p25 = p24 + b25;
    let p26 = p25 + b26;
    let p27 = p26 + b27;
    let p28 = p27 + b28;
    let p29 = p28 + b29;
    let p30 = p29 + b30;
    let p31 = p30 + b31;
    let p32 = p31 + b32;
    let p33 = p32 + b33;
    assert(roguelike_pairs(t) == p33);
    lemma_doc_get_block(b1, "theme"@);
    lemma_doc_get_block(b2, "theme"@);
    lemma_doc_get_block(b3, "theme"@);
    lemma_doc_get_block(b4, "theme"@);
    lemma_doc_get_block(b5, "theme"@);
    lemma_doc_get_block(b6, "theme"@);
    lemma_doc_get_block(b7, "theme"@);
    lemma_doc_get_block(b8, "theme"@);
    lemma_doc_get_block(b9, "theme"@);
    lemma_doc_get_block(b10, "theme"@);
    lemma_doc_get_block(b11, "theme"@);
    lemma_doc_get_block(b12, "theme"@);
    lemma_doc_get_block(b13, "theme"@);
    lemma_doc_get_block(b14, "theme"@);
    lemma_doc_get_block(b15, "theme"@);
    lemma_doc_get_block(b16, "theme"@);
    lemma_doc_get_block(b17, "theme"@);
    lemma_doc_get_block(b18, "theme"@);
    lemma_doc_get_block(b19, "theme"@);
    lemma_doc_get_block(b20, "theme"@);
    lemma_doc_get_block(b21, "theme"@);
    lemma_doc_get_block(b22, "theme"@);
    lemma_doc_get_block(b23, "theme"@);
    lemma_doc_get_block(b24, "theme"@);
    lemma_doc_get_block(b25, "theme"@);
    lemma_doc_get_block(b26, "theme"@);
    lemma_doc_get_block(b27, "theme"@);
    lemma_doc_get_block(b28, "theme"@);
    lemma_doc_get_block(b29, "theme"@);
    lemma_doc_get_block(b30, "theme"@);
    lemma_doc_get_block(b31, "theme"@);
    lemma_doc_get_block(b32, "theme"@);
    lemma_doc_get_block(b33, "theme"@);
    lemma_doc_get_concat(p32, b33, "theme"@);
    lemma_doc_get_concat(p31, b32, "theme"@);
    lemma_doc_get_concat(p30, b31, "theme"@);
    lemma_doc_get_concat(p29, b30, "theme"@);
    lemma_doc_get_concat(p28, b29, "theme"@);
    lemma_doc_get_concat(p27, b28, "theme"@);
    lemma_doc_get_concat(p26, b27, "theme"@);
    lemma_doc_get_concat(p25, b26, "theme"@);
    lemma_doc_get_concat(p24, b25, "theme"@);
    lemma_doc_get_concat(p23, b24, "theme"@);
    lemma_doc_get_concat(p22, b23, "theme"@);
    lemma_doc_get_concat(p21, b22, "theme"@);
    lemma_doc_get_concat(p20, b21, "theme"@);
    lemma_doc_get_concat(p19, b20, "theme"@);
    lemma_doc_get_concat(p18, b19, "theme"@);
    lemma_doc_get_concat(p17, b18, "theme"@);
    lemma_doc_get_concat(p16, b17, "theme"@);
    lemma_doc_get_concat(p15, b16, "theme"@);
    lemma_doc_get_concat(p14, b15, "theme"@);
    lemma_doc_get_concat(p13, b14, "theme"@);
    lemma_doc_get_concat(p12, b13, "theme"@);
    lemma_doc_get_concat(p11, b12, "theme"@);
    lemma_doc_get_concat(p10, b11, "theme"@);
    lemma_doc_get_concat(p9, b10, "theme"@);
    lemma_doc_get_concat(p8, b9, "theme"@);
    lemma_doc_get_concat(p7, b8, "theme"@);
    lemma_doc_get_concat(p6, b7, "theme"@);
    lemma_doc_get_concat(p5, b6, "theme"@);
    lemma_doc_get_concat(p4, b5, "theme"@);
    lemma_doc_get_concat(p3, b4, "theme"@);
    lemma_doc_get_concat(p2, b3, "theme"@);
    lemma_doc_get_concat(p1, b2, "theme"@);
}

/// What lookup of `mode` finds in the members of a Roguelike task.
proof fn roguelike_get_mode(t: RoguelikeTask)
    ensures
        doc_get(roguelike_pairs(t), "mode"@) == (match t.mode { Option::None => Option::<JsonV>::None, Option::Some(i) => Option::Some(JsonV::Sc(ScalarV::Int(i as int))) }),
{
    reveal_strlit("enable");
    reveal_strlit("theme");
    reveal_strlit("mode");
    reveal_strlit("squad");
    reveal_strlit("roles");
    reveal_strlit("core_char");
    reveal_strlit("use_support");
    reveal_strlit("use_nonfriend_support");
    reveal_strlit("starts_count");
    reveal_strlit("difficulty");
    reveal_strlit("stop_at_final_boss");
    reveal_strlit("stop_at_max_level");
    reveal_strlit("investment_enabled");
    reveal_strlit("investments_count");
    reveal_strlit("stop_when_investment_full");
    reveal_strlit("investment_with_more_score");
    reveal_strlit("start_with_elite_two");
    reveal_strlit("only_start_with_elite_two");
    reveal_strlit("refresh_trader_with_dice");
    reveal_strlit("first_floor_foldartal");
    reveal_strlit("start_foldartal_list");
    reveal_strlit("start_with_two_ideas");
    reveal_strlit("use_foldartal");
    reveal_strlit("check_collapsal_paradigms");
    reveal_strlit("double_check_collapsal_paradigms");
    reveal_strlit("expected_collapsal_paradigms");
    reveal_strlit("monthly_squad_auto_iterate");
    reveal_strlit("monthly_squad_check_comms");
    reveal_strlit("deep_exploration_auto_iterate");
    reveal_strlit("collectible_mode_shopping");
    reveal_strlit("collectible_mode_squad");
    reveal_strlit("collectible_mode_start_list");
    reveal_strlit("start_with_seed");
    assert("mode"@.len() != "enable"@.len());
    assert("mode"@ != "enable"@);
    assert("mode"@.len() != "theme"@.len());
    assert("mode"@ != "theme"@);
    assert("mode"@.len() != "squad"@.len());
    assert("mode"@ != "squad"@);
    assert("mode"@.len() != "roles"@.len());
    assert("mode"@ != "roles"@);
    assert("mode"@.len() != "core_char"@.len());
    assert("mode"@ != "core_char"@);
    assert("mode"@.len() != "use_support"@.len());
    assert("mode"@ != "use_support"@);
    assert("mode"@.len() != "use_nonfriend_support"@.len());
    assert("mode"@ != "use_nonfriend_support"@);
    assert("mode"@.len() != "starts_count"@.len());
    assert("mode"@ != "starts_count"@);
    assert("mode"@.len() != "difficulty"@.len());
    assert("mode"@ != "difficulty"@);
    assert("mode"@.len() != "stop_at_final_boss"@.len());
    assert("mode"@ != "stop_at_final_boss"@);
    assert("mode"@.len() != "stop_at_max_level"@.len());
    assert("mode"@ != "stop_at_max_level"@);
    assert("mode"@.len() != "investment_enabled"@.len());
    assert("mode"@ != "investment_enabled"@);
    assert("mode"@.len() != "investments_count"@.len());
    assert("mode"@ != "investments_count"@);
    assert("mode"@.len() != "stop_when_investment_full"@.len());
    assert("mode"@ != "stop_when_investment_full"@);
    assert("mode"@.len() != "investment_with_more_score"@.len());
    assert("mode"@ != "investment_with_more_score"@);
    assert("mode"@.len() != "start_with_elite_two"@.len());
    assert("mode"@ != "start_with_elite_two"@);
    assert("mode"@.len() != "only_start_with_elite_two"@.len());
    assert("mode"@ != "only_start_with_elite_two"@);
    assert("mode"@.len() != "refresh_trader_with_dice"@.len());
    assert("mode"@ != "refresh_trader_with_dice"@);
    assert("mode"@.len() != "first_floor_foldartal"@.len());
    assert("mode"@ != "first_floor_foldartal"@);
    assert("mode"@.len() != "start_foldartal_list"@.len());
    assert("mode"@ != "start_foldartal_list"@);
    assert("mode"@.len() != "start_with_two_ideas"@.len());
    assert("mode"@ != "start_with_two_ideas"@);
    assert("mode"@.len() != "use_foldartal"@.len());
    assert("mode"@ != "use_foldartal"@);
    assert("mode"@.len() != "check_collapsal_paradigms"@.len());
    assert("mode"@ != "check_collapsal_paradigms"@);
    assert("mode"@.len() != "double_check_collapsal_paradigms"@.len());
    assert("mode"@ != "double_check_collapsal_paradigms"@);
    assert("mode"@.len() != "expected_collapsal_paradigms"@.len());
    assert("mode"@ != "expected_collapsal_paradigms"@);
    assert("mode"@.len() != "monthly_squad_auto_iterate"@.len());
    assert("mode"@ != "monthly_squad_auto_iterate"@);
    assert("mode"@.len() != "monthly_squad_check_comms"@.len());
    assert("mode"@ != "monthly_squad_check_comms"@);
    assert("mode"@.len() != "deep_exploration_auto_iterate"@.len());
    assert("mode"@ != "deep_exploration_auto_iterate"@);
    assert("mode"@.len() != "collectible_mode_shopping"@.len());
    assert("mode"@ != "collectible_mode_shopping"@);
    assert("mode"@.len() != "collectible_mode_squad"@.len());
    assert("mode"@ != "collectible_mode_squad"@);
    assert("mode"@.len() != "collectible_mode_start_list"@.len());
    assert("mode"@ != "collectible_mode_start_list"@);
    assert("mode"@.len() != "start_with_seed"@.len());
    assert("mode"@ != "start_with_seed"@);
    let b1 = b_opt_bool("enable"@, t.enable);
    let b2 = b_opt_str("theme"@, opt_str_view(t.theme));
    let b3 = b_opt_int("mode"@, t.mode);
    let b4 = b_opt_str("squad"@, opt_str_view(t.squad));
    let b5 = b_opt_str("roles"@, opt_str_view(t.roles));
    let b6 = b_opt_str("core_char"@, opt_str_view(t.core_char));
    let b7 = b_opt_bool("use_support"@, t.use_support);
    let b8 = b_opt_bool("use_nonfriend_support"@, t.use_nonfriend_support);
    let b9 = b_opt_int("starts_count"@, t.starts_count);
    let b10 = b_opt_int("difficulty"@, t.difficulty);
    let b11 = b_opt_bool("stop_at_final_boss"@, t.stop_at_final_boss);
    let b12 = b_opt_bool("stop_at_max_level"@, t.stop_at_max_level);
    let b13 = b_opt_bool("investment_enabled"@, t.investment_enabled);
    let b14 = b_opt_int("investments_count"@, t.investments_count);
    let b15 = b_opt_bool("stop_when_investment_full"@, t.stop_when_investment_full);
    let b16 = b_opt_bool("investment_with_more_score"@, t.investment_with_more_score);
    let b17 = b_opt_bool("start_with_elite_two"@, t.start_with_elite_two);
    let b18 = b_opt_bool("only_start_with_elite_two"@, t.only_start_with_elite_two);
    let b19 = b_opt_bool("refresh_trader_with_dice"@, t.refresh_trader_with_dice);
    let b20 = b_opt_str("first_floor_foldartal"@, opt_str_view(t.first_floor_foldartal));
    let b21 = b_opt_str_list("start_foldartal_list"@, (match t.start_foldartal_list { Option::None => Option::None, Option::Some(l) => Option::Some(strs_view(l@)) }));
    let b22 = b_opt_bool("start_with_two_ideas"@, t.start_with_two_ideas);
    let b23 = b_opt_bool("use_foldartal"@, t.use_foldartal);
    let b24 = b_opt_bool("check_collapsal_paradigms"@, t.check_collapsal_paradigms);
    let b25 = b_opt_bool("double_check_collapsal_paradigms"@, t.double_check_collapsal_paradigms);
    let b26 = b_opt_str_list("expected_collapsal_paradigms"@, (match t.expected_collapsal_paradigms { Option::None => Option::None, Option::Some(l) => Option::Some(strs_view(l@)) }));
    let b27 = b_opt_bool("monthly_squad_auto_iterate"@, t.monthly_squad_auto_iterate);
    let b28 = b_opt_bool("monthly_squad_check_comms"@, t.monthly_squad_check_comms);
    let b29 = b_opt_bool("deep_exploration_auto_iterate"@, t.deep_exploration_auto_iterate);
    let b30 = b_opt_bool("collectible_mode_shopping"@, t.collectible_mode_shopping);
    let b31 = b_opt_str("collectible_mode_squad"@, opt_str_view(t.collectible_mode_squad));
    let b32 = b_opt_bool_map("collectible_mode_start_list"@, (match t.collectible_mode_start_list { Option::None => Option::None, Option::Some(m) => Option::Some(bpairs_view(m@)) }));
    let b33 = b_opt_bool("start_with_seed"@, t.start_with_seed);
    let p1 = b1;
    let p2 = p1 + b2;
    let p3 = p2 + b3;
    let p4 = p3 + b4;
    let p5 = p4 + b5;
    let p6 = p5 + b6;
    let p7 = p6 + b7;
    let p8 = p7 + b8;
    let p9 = p8 + b9;
    let p10 = p9 + b10;
    let p11 = p10 + b11;
    let p12 = p11 + b12;
    let p13 = p12 + b13;
    let p14 = p13 + b14;
    let p15 = p14 + b15;
    let p16 = p15 + b16;
    let p17 = p16 + b17;
    let p18 = p17 + b18;
    let p19 = p18 + b19;
    let p20 = p19 + b20;
    let p21 = p20 + b21;
    let p22 = p21 + b22;
    let p23 = p22 + b23;
    let p24 = p23 + b24;
    let p25 = p24 + b25;
    let p26 = p25 + b26;
    let p27 = p26 + b27;
    let p28 = p27 + b28;
    let p29 = p28 + b29;
    let p30 = p29 + b30;
    let p31 = p30 + b31;
    let p32 = p31 + b32;
    let p33 = p32 + b33;
    assert(roguelike_pairs(t) == p33);
    lemma_doc_get_block(b1, "mode"@);
    lemma_doc_get_block(b2, "mode"@);
    lemma_doc_get_block(b3, "mode"@);
    lemma_doc_get_block(b4, "mode"@);
    lemma_doc_get_block(b5, "mode"@);
    lemma_doc_get_block(b6, "mode"@);
    lemma_doc_get_block(b7, "mode"@);
    lemma_doc_get_block(b8, "mode"@);
    lemma_doc_get_block(b9, "mode"@);
    lemma_doc_get_block(b10, "mode"@);
    lemma_doc_get_block(b11, "mode"@);
    lemma_doc_get_block(b12, "mode"@);
    lemma_doc_get_block(b13, "mode"@);
    lemma_doc_get_block(b14, "mode"@);
    lemma_doc_get_block(b15, "mode"@);
    lemma_doc_get_block(b16, "mode"@);
    lemma_doc_get_block(b17, "mode"@);
    lemma_doc_get_block(b18, "mode"@);
    lemma_doc_get_block(b19, "mode"@);
    lemma_doc_get_block(b20, "mode"@);
    lemma_doc_get_block(b21, "mode"@);
    lemma_doc_get_block(b22, "mode"@);
    lemma_doc_get_block(b23, "mode"@);
    lemma_doc_get_block(b24, "mode"@);
    lemma_doc_get_block(b25, "mode"@);
    lemma_doc_get_block(b26, "mode"@);
    lemma_doc_get_block(b27, "mode"@);
    lemma_doc_get_block(b28, "mode"@);
    lemma_doc_get_block(b29, "mode"@);
    lemma_doc_get_block(b30, "mode"@);
    lemma_doc_get_block(b31, "mode"@);
    lemma_doc_get_block(b32, "mode"@);
    lemma_doc_get_block(b33, "mode"@);
    lemma_doc_get_concat(p32, b33, "mode"@);
    lemma_doc_get_concat(p31, b32, "mode"@);
    lemma_doc_get_concat(p30, b31, "mode"@);
    lemma_doc_get_concat(p29, b30, "mode"@);
    lemma_doc_get_concat(p28, b29, "mode"@);
    lemma_doc_get_concat(p27, b28, "mode"@);
    lemma_doc_get_concat(p26, b27, "mode"@);
    lemma_doc_get_concat(p25, b26, "mode"@);
    lemma_doc_get_concat(p24, b25, "mode"@);
    lemma_doc_get_concat(p23, b24, "mode"@);
    lemma_doc_get_concat(p22, b23, "mode"@);
    lemma_doc_get_concat(p21, b22, "mode"@);
    lemma_doc_get_concat(p20, b21, "mode"@);
    lemma_doc_get_concat(p19, b20, "mode"@);
    lemma_doc_get_concat(p18, b19, "mode"@);
    lemma_doc_get_concat(p17, b18, "mode"@);
    lemma_doc_get_concat(p16, b17, "mode"@);
    lemma_doc_get_concat(p15, b16, "mode"@);
    lemma_doc_get_concat(p14, b15, "mode"@);
    lemma_doc_get_concat(p13, b14, "mode"@);
    lemma_doc_get_concat(p12, b13, "mode"@);
    lemma_doc_get_concat(p11, b12, "mode"@);
    lemma_doc_get_concat(p10, b11, "mode"@);
    lemma_doc_get_concat(p9, b10, "mode"@);
    lemma_doc_get_concat(p8, b9, "mode"@);
    lemma_doc_get_concat(p7, b8, "mode"@);
    lemma_doc_get_concat(p6, b7, "mode"@);
    lemma_doc_get_concat(p5, b6, "mode"@);
    lemma_doc_get_concat(p4, b5, "mode"@);
    lemma_doc_get_concat(p3, b4, "mode"@);
    lemma_doc_get_concat(p2, b3, "mode"@);
    lemma_doc_get_concat(p1, b2, "mode"@);
}

/// What lookup of `squad` finds in the members of a Roguelike task.
proof fn roguelike_get_squad(t: RoguelikeTask)
    ensures
        doc_get(roguelike_pairs(t), "squad"@) == (match t.squad { Option::None => Option::<JsonV>::None, Option::Some(s) => Option::Some(JsonV::Sc(ScalarV::Str(s@))) }),
{
    reveal_strlit("enable");
    reveal_strlit("theme");
    reveal_strlit("mode");
    reveal_strlit("squad");
    reveal_strlit("roles");
    reveal_strlit("core_char");
    reveal_strlit("use_support");
    reveal_strlit("use_nonfriend_support");
    reveal_strlit("starts_count");
    reveal_strlit("difficulty");
    reveal_strlit("stop_at_final_boss");
    reveal_strlit("stop_at_max_level");
    reveal_strlit("investment_enabled");
    reveal_strlit("investments_count");
    reveal_strlit("stop_when_investment_full");
    reveal_strlit("investment_with_more_score");
    reveal_strlit("start_with_elite_two");
    reveal_strlit("only_start_with_elite_two");
    reveal_strlit("refresh_trader_with_dice");
    reveal_strlit("first_floor_foldartal");
    reveal_strlit("start_foldartal_list");
    reveal_strlit("start_with_two_ideas");
    reveal_strlit("use_foldartal");
    reveal_strlit("check_collapsal_paradigms");
    reveal_strlit("double_check_collapsal_paradigms");
    reveal_strlit("expected_collapsal_paradigms");
    reveal_strlit("monthly_squad_auto_iterate");
    reveal_strlit("monthly_squad_check_comms");
    reveal_strlit("deep_exploration_auto_iterate");
    reveal_strlit("collectible_mode_shopping");
    reveal_strlit("collectible_mode_squad");
    reveal_strlit("collectible_mode_start_list");
    reveal_strlit("start_with_seed");
    assert("squad"@.len() != "enable"@.len());
    assert("squad"@ != "enable"@);
    assert("squad"@[0] != "theme"@[0]);
    assert("squad"@ != "theme"@);
    assert("squad"@.len() != "mode"@.len());
    assert("squad"@ != "mode"@);
    assert("squad"@[0] != "roles"@[0]);
    assert("squad"@ != "roles"@);
    assert("squad"@.len() != "core_char"@.len());
    assert("squad"@ != "core_char"@);
    assert("squad"@.len() != "use_support"@.len());
    assert("squad"@ != "use_support"@);
    assert("squad"@.len() != "use_nonfriend_support"@.len());
    assert("squad"@ != "use_nonfriend_support"@);
    assert("squad"@.len() != "starts_count"@.len());
    assert("squad"@ != "starts_count"@);
    assert("squad"@.len() != "difficulty"@.len());
    assert("squad"@ != "difficulty"@);
    assert("squad"@.len() != "stop_at_final_boss"@.len());
    assert("squad"@ != "stop_at_final_boss"@);
    assert("squad"@.len() != "stop_at_max_level"@.len());
    assert("squad"@ != "stop_at_max_level"@);
    assert("squad"@.len() != "investment_enabled"@.len());
    assert("squad"@ != "investment_enabled"@);
    assert("squad"@.len() != "investments_count"@.len());
    assert("squad"@ != "investments_count"@);
    assert("squad"@.len() != "stop_when_investment_full"@.len());
    assert("squad"@ != "stop_when_investment_full"@);
    assert("squad"@.len() != "investment_with_more_score"@.len());
    assert("squad"@ != "investment_with_more_score"@);
    assert("squad"@.len() != "start_with_elite_two"@.len());
    assert("squad"@ != "start_with_elite_two"@);
    assert("squad"@.len() != "only_start_with_elite_two"@.len());
    assert("squad"@ != "only_start_with_elite_two"@);
    assert("squad"@.len() != "refresh_trader_with_dice"@.len());
    assert("squad"@ != "refresh_trader_with_dice"@);
    assert("squad"@.len() != "first_floor_foldartal"@.len());
    assert("squad"@ != "first_floor_foldartal"@);
    assert("squad"@.len() != "start_foldartal_list"@.len());
    assert("squad"@ != "start_foldartal_list"@);
    assert("squad"@.len() != "start_with_two_ideas"@.len());
    assert("squad"@ != "start_with_two_ideas"@);
    assert("squad"@.len() != "use_foldartal"@.len());
    assert("squad"@ != "use_foldartal"@);
    assert("squad"@.len() != "check_collapsal_paradigms"@.len());
    assert("squad"@ != "check_collapsal_paradigms"@);
    assert("squad"@.len() != "double_check_collapsal_paradigms"@.len());
    assert("squad"@ != "double_check_collapsal_paradigms"@);
    assert("squad"@.len() != "expected_collapsal_paradigms"@.len());
    assert("squad"@ != "expected_collapsal_paradigms"@);
    assert("squad"@.len() != "monthly_squad_auto_iterate"@.len());
    assert("squad"@ != "monthly_squad_auto_iterate"@);
    assert("squad"@.len() != "monthly_squad_check_comms"@.len());
    assert("squad"@ != "monthly_squad_check_comms"@);
    assert("squad"@.len() != "deep_exploration_auto_iterate"@.len());
    assert("squad"@ != "deep_exploration_auto_iterate"@);
    assert("squad"@.len() != "collectible_mode_shopping"@.len());
    assert("squad"@ != "collectible_mode_shopping"@);
    assert("squad"@.len() != "collectible_mode_squad"@.len());
    assert("squad"@ != "collectible_mode_squad"@);
    assert("squad"@.len() != "collectible_mode_start_list"@.len());
    assert("squad"@ != "collectible_mode_start_list"@);
    assert("squad"@.len() != "start_with_seed"@.len());
    assert("squad"@ != "start_with_seed"@);
    let b1 = b_opt_bool("enable"@, t.enable);
    let b2 = b_opt_str("theme"@, opt_str_view(t.theme));
    let b3 = b_opt_int("mode"@, t.mode);
    let b4 = b_opt_str("squad"@, opt_str_view(t.squad));
    let b5 = b_opt_str("roles"@, opt_str_view(t.roles));
    let b6 = b_opt_str("core_char"@, opt_str_view(t.core_char));
    let b7 = b_opt_bool("use_support"@, t.use_support);
    let b8 = b_opt_bool("use_nonfriend_support"@, t.use_nonfriend_support);
    let b9 = b_opt_int("starts_count"@, t.starts_count);
    let b10 = b_opt_int("difficulty"@, t.difficulty);
    let b11 = b_opt_bool("stop_at_final_boss"@, t.stop_at_final_boss);
    let b12 = b_opt_bool("stop_at_max_level"@, t.stop_at_max_level);
    let b13 = b_opt_bool("investment_enabled"@, t.investment_enabled);
    let b14 = b_opt_int("investments_count"@, t.investments_count);
    let b15 = b_opt_bool("stop_when_investment_full"@, t.stop_when_investment_full);
    let b16 = b_opt_bool("investment_with_more_score"@, t.investment_with_more_score);
    let b17 = b_opt_bool("start_with_elite_two"@, t.start_with_elite_two);
    let b18 = b_opt_bool("only_start_with_elite_two"@, t.only_start_with_elite_two);
    let b19 = b_opt_bool("refresh_trader_with_dice"@, t.refresh_trader_with_dice);
    let b20 = b_opt_str("first_floor_foldartal"@, opt_str_view(t.first_floor_foldartal));
    let b21 = b_opt_str_list("start_foldartal_list"@, (match t.start_foldartal_list { Option::None => Option::None, Option::Some(l) => Option::Some(strs_view(l@)) }));
    let b22 = b_opt_bool("start_with_two_ideas"@, t.start_with_two_ideas);
    let b23 = b_opt_bool("use_foldartal"@, t.use_foldartal);
    let b24 = b_opt_bool("check_collapsal_paradigms"@, t.check_collapsal_paradigms);
    let b25 = b_opt_bool("double_check_collapsal_paradigms"@, t.double_check_collapsal_paradigms);
    let b26 = b_opt_str_list("expected_collapsal_paradigms"@, (match t.expected_collapsal_paradigms { Option::None => Option::None, Option::Some(l) => Option::Some(strs_view(l@)) }));
    let b27 = b_opt_bool("monthly_squad_auto_iterate"@, t.monthly_squad_auto_iterate);
    let b28 = b_opt_bool("monthly_squad_check_comms"@, t.monthly_squad_check_comms);
    let b29 = b_opt_bool("deep_exploration_auto_iterate"@, t.deep_exploration_auto_iterate);
    let b30 = b_opt_bool("collectible_mode_shopping"@, t.collectible_mode_shopping);
    let b31 = b_opt_str("collectible_mode_squad"@, opt_str_view(t.collectible_mode_squad));
    let b32 = b_opt_bool_map("collectible_mode_start_list"@, (match t.collectible_mode_start_list { Option::None => Option::None, Option::Some(m) => Option::Some(bpairs_view(m@)) }));
    let b33 = b_opt_bool("start_with_seed"@, t.start_with_seed);
    let p1 = b1;
    let p2 = p1 + b2;
    let p3 = p2 + b3;
    let p4 = p3 + b4;
    let p5 = p4 + b5;
    let p6 = p5 + b6;
    let p7 = p6 + b7;
    let p8 = p7 + b8;
    let p9 = p8 + b9;
    let p10 = p9 + b10;
    let p11 = p10 + b11;
    let p12 = p11 + b12;
    let p13 = p12 + b13;
    let p14 = p13 + b14;
    let p15 = p14 + b15;
    let p16 = p15 + b16;
    let p17 = p16 + b17;
    let p18 = p17 + b18;
    let p19 = p18 + b19;
    let p20 = p19 + b20;
    let p21 = p20 + b21;
    let p22 = p21 + b22;
    let p23 = p22 + b23;
    let p24 = p23 + b24;
    let p25 = p24 + b25;
    let p26 = p25 + b26;
    let p27 = p26 + b27;
    let p28 = p27 + b28;
    let p29 = p28 + b29;
    let p30 = p29 + b30;
    let p31 = p30 + b31;
    let p32 = p31 + b32;
    let p33 = p32 + b33;
    assert(roguelike_pairs(t) == p33);
    lemma_doc_get_block(b1, "squad"@);
    lemma_doc_get_block(b2, "squad"@);
    lemma_doc_get_block(b3, "squad"@);
    lemma_doc_get_block(b4, "squad"@);
    lemma_doc_get_block(b5, "squad"@);
    lemma_doc_get_block(b6, "squad"@);
    lemma_doc_get_block(b7, "squad"@);
    lemma_doc_get_block(b8, "squad"@);
    lemma_doc_get_block(b9, "squad"@);
    lemma_doc_get_block(b10, "squad"@);
    lemma_doc_get_block(b11, "squad"@);
    lemma_doc_get_block(b12, "squad"@);
    lemma_doc_get_block(b13, "squad"@);
    lemma_doc_get_block(b14, "squad"@);
    lemma_doc_get_block(b15, "squad"@);
    lemma_doc_get_block(b16, "squad"@);
    lemma_doc_get_block(b17, "squad"@);
    lemma_doc_get_block(b18, "squad"@);
    lemma_doc_get_block(b19, "squad"@);
    lemma_doc_get_block(b20, "squad"@);
    lemma_doc_get_block(b21, "squad"@);
    lemma_doc_get_block(b22, "squad"@);
    lemma_doc_get_block(b23, "squad"@);
    lemma_doc_get_block(b24, "squad"@);
    lemma_doc_get_block(b25, "squad"@);
    lemma_doc_get_block(b26, "squad"@);
    lemma_doc_get_block(b27, "squad"@);
    lemma_doc_get_block(b28, "squad"@);
    lemma_doc_get_block(b29, "squad"@);
    lemma_doc_get_block(b30, "squad"@);
    lemma_doc_get_block(b31, "squad"@);
    lemma_doc_get_block(b32, "squad"@);
    lemma_doc_get_block(b33, "squad"@);
    lemma_doc_get_concat(p32, b33, "squad"@);
    lemma_doc_get_concat(p31, b32, "squad"@);
    lemma_doc_get_concat(p30, b31, "squad"@);
    lemma_doc_get_concat(p29, b30, "squad"@);
    lemma_doc_get_concat(p28, b29, "squad"@);
    lemma_doc_get_concat(p27, b28, "squad"@);
    lemma_doc_get_concat(p26, b27, "squad"@);
    lemma_doc_get_concat(p25, b26, "squad"@);
    lemma_doc_get_concat(p24, b25, "squad"@);
    lemma_doc_get_concat(p23, b24, "squad"@);
    lemma_doc_get_concat(p22, b23, "squad"@);
    lemma_doc_get_concat(p21, b22, "squad"@);
    lemma_doc_get_concat(p20, b21, "squad"@);
    lemma_doc_get_concat(p19, b20, "squad"@);
    lemma_doc_get_concat(p18, b19, "squad"@);
    lemma_doc_get_concat(p17, b18, "squad"@);
    lemma_doc_get_concat(p16, b17, "squad"@);
    lemma_doc_get_concat(p15, b16, "squad"@);
    lemma_doc_get_concat(p14, b15, "squad"@);
    lemma_doc_get_concat(p13, b14, "squad"@);
    lemma_doc_get_concat(p12, b13, "squad"@);
    lemma_doc_get_concat(p11, b12, "squad"@);
    lemma_doc_get_concat(p10, b11, "squad"@);
    lemma_doc_get_concat(p9, b10, "squad"@);
    lemma_doc_get_concat(p8, b9, "squad"@);
    lemma_doc_get_concat(p7, b8, "squad"@);
    lemma_doc_get_concat(p6, b7, "squad"@);
    lemma_doc_get_concat(p5, b6, "squad"@);
    lemma_doc_get_concat(p4, b5, "squad"@);
    lemma_doc_get_concat(p3, b4, "squad"@);
    lemma_doc_get_concat(p2, b3, "squad"@);
    lemma_doc_get_concat(p1, b2, "squad"@);
}

/// What lookup of `roles` finds in the members of a Roguelike task.
proof fn roguelike_get_roles(t: RoguelikeTask)
    ensures
        doc_get(roguelike_pairs(t), "roles"@) == (match t.roles { Option::None => Option::<JsonV>::None, Option::Some(s) => Option::Some(JsonV::Sc(ScalarV::Str(s@))) }),
{
    reveal_strlit("enable");
    reveal_strlit("theme");
    reveal_strlit("mode");
    reveal_strlit("squad");
    reveal_strlit("roles");
    reveal_strlit("core_char");
    reveal_strlit("use_support");
    reveal_strlit("use_nonfriend_support");
    reveal_strlit("starts_count");
    reveal_strlit("difficulty");
    reveal_strlit("stop_at_final_boss");
    reveal_strlit("stop_at_max_level");
    reveal_strlit("investment_enabled");
    reveal_strlit("investments_count");
    reveal_strlit("stop_when_investment_full");
    reveal_strlit("investment_with_more_score");
    reveal_strlit("start_with_elite_two");
    reveal_strlit("only_start_with_elite_two");
    reveal_strlit("refresh_trader_with_dice");
    reveal_strlit("first_floor_foldartal");
    reveal_strlit("start_foldartal_list");
    reveal_strlit("start_with_two_ideas");
    reveal_strlit("use_foldartal");
    reveal_strlit("check_collapsal_paradigms");
    reveal_strlit("double_check_collapsal_paradigms");
    reveal_strlit("expected_collapsal_paradigms");
    reveal_strlit("monthly_squad_auto_iterate");
    reveal_strlit("monthly_squad_check_comms");
    reveal_strlit("deep_exploration_auto_iterate");
    reveal_strlit("collectible_mode_shopping");
    reveal_strlit("collectible_mode_squad");
    reveal_strlit("collectible_mode_start_list");
    reveal_strlit("start_with_seed");
    assert("roles"@.len() != "enable"@.len());
    assert("roles"@ != "enable"@);
    assert("roles"@[0] != "theme"@[0]);
    assert("roles"@ != "theme"@);
    assert("roles"@.len() != "mode"@.len());
    assert("roles"@ != "mode"@);
    assert("roles"@[0] != "squad"@[0]);
    assert("roles"@ != "squad"@);
    assert("roles"@.len() != "core_char"@.len());
    assert("roles"@ != "core_char"@);
    assert("roles"@.len() != "use_support"@.len());
    assert("roles"@ != "use_support"@);
    assert("roles"@.len() != "use_nonfriend_support"@.len());
    assert("roles"@ != "use_nonfriend_support"@);
    assert("roles"@.len() != "starts_count"@.len());
    assert("roles"@ != "starts_count"@);
    assert("roles"@.len() != "difficulty"@.len());
    assert("roles"@ != "difficulty"@);
    assert("roles"@.len() != "stop_at_final_boss"@.len());
    assert("roles"@ != "stop_at_final_boss"@);
    assert("roles"@.len() != "stop_at_max_level"@.len());
    assert("roles"@ != "stop_at_max_level"@);
    assert("roles"@.len() != "investment_enabled"@.len());
    assert("roles"@ != "investment_enabled"@);
    assert("roles"@.len() != "investments_count"@.len());
    assert("roles"@ != "investments_count"@);
    assert("roles"@.len() != "stop_when_investment_full"@.len());
    assert("roles"@ != "stop_when_investment_full"@);
    assert("roles"@.len() != "investment_with_more_score"@.len());
    assert("roles"@ != "investment_with_more_score"@);
    assert("roles"@.len() != "start_with_elite_two"@.len());
    assert("roles"@ != "start_with_elite_two"@);
    assert("roles"@.len() != "only_start_with_elite_two"@.len());
    assert("roles"@ != "only_start_with_elite_two"@);
    assert("roles"@.len() != "refresh_trader_with_dice"@.len());
    assert("roles"@ != "refresh_trader_with_dice"@);
    assert("roles"@.len() != "first_floor_foldartal"@.len());
    assert("roles"@ != "first_floor_foldartal"@);
    assert("roles"@.len() != "start_foldartal_list"@.len());
    assert("roles"@ != "start_foldartal_list"@);
    assert("roles"@.len() != "start_with_two_ideas"@.len());
    assert("roles"@ != "start_with_two_ideas"@);
    assert("roles"@.len() != "use_foldartal"@.len());
    assert("roles"@ != "use_foldartal"@);
    assert("roles"@.len() != "check_collapsal_paradigms"@.len());
    assert("roles"@ != "check_collapsal_paradigms"@);
    assert("roles"@.len() != "double_check_collapsal_paradigms"@.len());
    assert("roles"@ != "double_check_collapsal_paradigms"@);
    assert("roles"@.len() != "expected_collapsal_paradigms"@.len());
    assert("roles"@ != "expected_collapsal_paradigms"@);
    assert("roles"@.len() != "monthly_squad_auto_iterate"@.len());
    assert("roles"@ != "monthly_squad_auto_iterate"@);
    assert("roles"@.len() != "monthly_squad_check_comms"@.len());
    assert("roles"@ != "monthly_squad_check_comms"@);
    assert("roles"@.len() != "deep_exploration_auto_iterate"@.len());
    assert("roles"@ != "deep_exploration_auto_iterate"@);
    assert("roles"@.len() != "collectible_mode_shopping"@.len());
    assert("roles"@ != "collectible_mode_shopping"@);
    assert("roles"@.len() != "collectible_mode_squad"@.len());
    assert("roles"@ != "collectible_mode_squad"@);
    assert("roles"@.len() != "collectible_mode_start_list"@.len());
    assert("roles"@ != "collectible_mode_start_list"@);
    assert("roles"@.len() != "start_with_seed"@.len());
    assert("roles"@ != "start_with_seed"@);
    let b1 = b_opt_bool("enable"@, t.enable);
    let b2 = b_opt_str("theme"@, opt_str_view(t.theme));
    let b3 = b_opt_int("mode"@, t.mode);
    let b4 = b_opt_str("squad"@, opt_str_view(t.squad));
    let b5 = b_opt_str("roles"@, opt_str_view(t.roles));
    let b6 = b_opt_str("core_char"@, opt_str_view(t.core_char));
    let b7 = b_opt_bool("use_support"@, t.use_support);
    let b8 = b_opt_bool("use_nonfriend_support"@, t.use_nonfriend_support);
    let b9 = b_opt_int("starts_count"@, t.starts_count);
    let b10 = b_opt_int("difficulty"@, t.difficulty);
    let b11 = b_opt_bool("stop_at_final_boss"@, t.stop_at_final_boss);
    let b12 = b_opt_bool("stop_at_max_level"@, t.stop_at_max_level);
    let b13 = b_opt_bool("investment_enabled"@, t.investment_enabled);
    let b14 = b_opt_int("investments_count"@, t.investments_count);
    let b15 = b_opt_bool("stop_when_investment_full"@, t.stop_when_investment_full);
    let b16 = b_opt_bool("investment_with_more_score"@, t.investment_with_more_score);
    let b17 = b_opt_bool("start_with_elite_two"@, t.start_with_elite_two);
    let b18 = b_opt_bool("only_start_with_elite_two"@, t.only_start_with_elite_two);
    let b19 = b_opt_bool("refresh_trader_with_dice"@, t.refresh_trader_with_dice);
    let b20 = b_opt_str("first_floor_foldartal"@, opt_str_view(t.first_floor_foldartal));
    let b21 = b_opt_str_list("start_foldartal_list"@, (match t.start_foldartal_list { Option::None => Option::None, Option::Some(l) => Option::Some(strs_view(l@)) }));
    let b22 = b_opt_bool("start_with_two_ideas"@, t.start_with_two_ideas);
    let b23 = b_opt_bool("use_foldartal"@, t.use_foldartal);
    let b24 = b_opt_bool("check_collapsal_paradigms"@, t.check_collapsal_paradigms);
    let b25 = b_opt_bool("double_check_collapsal_paradigms"@, t.double_check_collapsal_paradigms);
    let b26 = b_opt_str_list("expected_collapsal_paradigms"@, (match t.expected_collapsal_paradigms { Option::None => Option::None, Option::Some(l) => Option::Some(strs_view(l@)) }));
    let b27 = b_opt_bool("monthly_squad_auto_iterate"@, t.monthly_squad_auto_iterate);
    let b28 = b_opt_bool("monthly_squad_check_comms"@, t.monthly_squad_check_comms);
    let b29 = b_opt_bool("deep_exploration_auto_iterate"@, t.deep_exploration_auto_iterate);
    let b30 = b_opt_bool("collectible_mode_shopping"@, t.collectible_mode_shopping);
    let b31 = b_opt_str("collectible_mode_squad"@, opt_str_view(t.collectible_mode_squad));
    let b32 = b_opt_bool_map("collectible_mode_start_list"@, (match t.collectible_mode_start_list { Option::None => Option::None, Option::Some(m) => Option::Some(bpairs_view(m@)) }));
    let b33 = b_opt_bool("start_with_seed"@, t.start_with_seed);
    let p1 = b1;
    let p2 = p1 + b2;
    let p3 = p2 + b3;
    let p4 = p3 + b4;
    let p5 = p4 + b5;
    let p6 = p5 + b6;
    let p7 = p6 + b7;
    let p8 = p7 + b8;
    let p9 = p8 + b9;
    let p10 = p9 + b10;
    let p11 = p10 + b11;
    let p12 = p11 + b12;
    let p13 = p12 + b13;
    let p14 = p13 + b14;
    let p15 = p14 + b15;
    let p16 = p15 + b16;
    let p17 = p16 + b17;
    let p18 = p17 + b18;
    let p19 = p18 + b19;
    let p20 = p19 + b20;
    let p21 = p20 + b21;
    let p22 = p21 + b22;
    let p23 = p22 + b23;
    let p24 = p23 + b24;
    let p25 = p24 + b25;
    let p26 = p25 + b26;
    let p27 = p26 + b27;
    let p28 = p27 + b28;
    let p29 = p28 + b29;
    let p30 = p29 + b30;
    let p31 = p30 + b31;
    let p32 = p31 + b32;
    let p33 = p32 + b33;
    assert(roguelike_pairs(t) == p33);
    lemma_doc_get_block(b1, "roles"@);
    lemma_doc_get_block(b2, "roles"@);
    lemma_doc_get_block(b3, "roles"@);
    lemma_doc_get_block(b4, "roles"@);
    lemma_doc_get_block(b5, "roles"@);
    lemma_doc_get_block(b6, "roles"@);
    lemma_doc_get_block(b7, "roles"@);
    lemma_doc_get_block(b8, "roles"@);
    lemma_doc_get_block(b9, "roles"@);
    lemma_doc_get_block(b10, "roles"@);
    lemma_doc_get_block(b11, "roles"@);
    lemma_doc_get_block(b12, "roles"@);
    lemma_doc_get_block(b13, "roles"@);
    lemma_doc_get_block(b14, "roles"@);
    lemma_doc_get_block(b15, "roles"@);
    lemma_doc_get_block(b16, "roles"@);
    lemma_doc_get_block(b17, "roles"@);
    lemma_doc_get_block(b18, "roles"@);
    lemma_doc_get_block(b19, "roles"@);
    lemma_doc_get_block(b20, "roles"@);
    lemma_doc_get_block(b21, "roles"@);
    lemma_doc_get_block(b22, "roles"@);
    lemma_doc_get_block(b23, "roles"@);
    lemma_doc_get_block(b24, "roles"@);
    lemma_doc_get_block(b25, "roles"@);
    lemma_doc_get_block(b26, "roles"@);
    lemma_doc_get_block(b27, "roles"@);
    lemma_doc_get_block(b28, "roles"@);
    lemma_doc_get_block(b29, "roles"@);
    lemma_doc_get_block(b30, "roles"@);
    lemma_doc_get_block(b31, "roles"@);
    lemma_doc_get_block(b32, "roles"@);
    lemma_doc_get_block(b33, "roles"@);
    lemma_doc_get_concat(p32, b33, "roles"@);
    lemma_doc_get_concat(p31, b32, "roles"@);
    lemma_doc_get_concat(p30, b31, "roles"@);
    lemma_doc_get_concat(p29, b30, "roles"@);
    lemma_doc_get_concat(p28, b29, "roles"@);
    lemma_doc_get_concat(p27, b28, "roles"@);
    lemma_doc_get_concat(p26, b27, "roles"@);
    lemma_doc_get_concat(p25, b26, "roles"@);
    lemma_doc_get_concat(p24, b25, "roles"@);
    lemma_doc_get_concat(p23, b24, "roles"@);
    lemma_doc_get_concat(p22, b23, "roles"@);
    lemma_doc_get_concat(p21, b22, "roles"@);
    lemma_doc_get_concat(p20, b21, "roles"@);
    lemma_doc_get_concat(p19, b20, "roles"@);
    lemma_doc_get_concat(p18, b19, "roles"@);
    lemma_doc_get_concat(p17, b18, "roles"@);
    lemma_doc_get_concat(p16, b17, "roles"@);
    lemma_doc_get_concat(p15, b16, "roles"@);
    lemma_doc_get_concat(p14, b15, "roles"@);
    lemma_doc_get_concat(p13, b14, "roles"@);
    lemma_doc_get_concat(p12, b13, "roles"@);
    lemma_doc_get_concat(p11, b12, "roles"@);
    lemma_doc_get_concat(p10, b11, "roles"@);
    lemma_doc_get_concat(p9, b10, "roles"@);
    lemma_doc_get_concat(p8, b9, "roles"@);
    lemma_doc_get_concat(p7, b8, "roles"@);
    lemma_doc_get_concat(p6, b7, "roles"@);
    lemma_doc_get_concat(p5, b6, "roles"@);
    lemma_doc_get_concat(p4, b5, "roles"@);
    lemma_doc_get_concat(p3, b4, "roles"@);
    lemma_doc_get_concat(p2, b3, "roles"@);
    lemma_doc_get_concat(p1, b2, "roles"@);
}

/// What lookup of `core_char` finds in the members of a Roguelike task.
proof fn roguelike_get_core_char(t: RoguelikeTask)
    ensures
        doc_get(roguelike_pairs(t), "core_char"@) == (match t.core_char { Option::None => Option::<JsonV>::None, Option::Some(s) => Option::Some(JsonV::Sc(ScalarV::Str(s@))) }),
{
    reveal_strlit("enable");
    reveal_strlit("theme");
    reveal_strlit("mode");
    reveal_strlit("squad");
    reveal_strlit("roles");
    reveal_strlit("core_char");
    reveal_strlit("use_support");
    reveal_strlit("use_nonfriend_support");
    reveal_strlit("starts_count");
    reveal_strlit("difficulty");
    reveal_strlit("stop_at_final_boss");
    reveal_strlit("stop_at_max_level");
    reveal_strlit("investment_enabled");
    reveal_strlit("investments_count");
    reveal_strlit("stop_when_investment_full");
    reveal_strlit("investment_with_more_score");
    reveal_strlit("start_with_elite_two");
    reveal_strlit("only_start_with_elite_two");
    reveal_strlit("refresh_trader_with_dice");
    reveal_strlit("first_floor_foldartal");
    reveal_strlit("start_foldartal_list");
    reveal_strlit("start_with_two_ideas");
    reveal_strlit("use_foldartal");
    reveal_strlit("check_collapsal_paradigms");
    reveal_strlit("double_check_collapsal_paradigms");
    reveal_strlit("expected_collapsal_paradigms");
    reveal_strlit("monthly_squad_auto_iterate");
    reveal_strlit("monthly_squad_check_comms");
    reveal_strlit("deep_exploration_auto_iterate");
    reveal_strlit("collectible_mode_shopping");
    reveal_strlit("collectible_mode_squad");
    reveal_strlit("collectible_mode_start_list");
    reveal_strlit("start_with_seed");
    assert("core_char"@.len() != "enable"@.len());
    assert("core_char"@ != "enable"@);
    assert("core_char"@.len() != "theme"@.len());
    assert("core_char"@ != "theme"@);
    assert("core_char"@.len() != "mode"@.len());
    assert("core_char"@ != "mode"@);
    assert("core_char"@.len() != "squad"@.len());
    assert("core_char"@ != "squad"@);
    assert("core_char"@.len() != "roles"@.len());
    assert("core_char"@ != "roles"@);
    assert("core_char"@.len() != "use_support"@.len());
    assert("core_char"@ != "use_support"@);
    assert("core_char"@.len() != "use_nonfriend_support"@.len());
    assert("core_char"@ != "use_nonfriend_support"@);
    assert("core_char"@.len() != "starts_count"@.len());
    assert("core_char"@ != "starts_count"@);
    assert("core_char"@.len() != "difficulty"@.len());
    assert("core_char"@ != "difficulty"@);
    assert("core_char"@.len() != "stop_at_final_boss"@.len());
    assert("core_char"@ != "stop_at_final_boss"@);
    assert("core_char"@.len() != "stop_at_max_level"@.len());
    assert("core_char"@ != "stop_at_max_level"@);
    assert("core_char"@.len() != "investment_enabled"@.len());
    assert("core_char"@ != "investment_enabled"@);
    assert("core_char"@.len() != "investments_count"@.len());
    assert("core_char"@ != "investments_count"@);
    assert("core_char"@.len() != "stop_when_investment_full"@.len());
    assert("core_char"@ != "stop_when_investment_full"@);
    assert("core_char"@.len() != "investment_with_more_score"@.len());
    assert("core_char"@ != "investment_with_more_score"@);
    assert("core_char"@.len() != "start_with_elite_two"@.len());
    assert("core_char"@ != "start_with_elite_two"@);
    assert("core_char"@.len() != "only_start_with_elite_two"@.len());
    assert("core_char"@ != "only_start_with_elite_two"@);
    assert("core_char"@.len() != "refresh_trader_with_dice"@.len());
    assert("core_char"@ != "refresh_trader_with_dice"@);
    assert("core_char"@.len() != "first_floor_foldartal"@.len());
    assert("core_char"@ != "first_floor_foldartal"@);
    assert("core_char"@.len() != "start_foldartal_list"@.len());
    assert("core_char"@ != "start_foldartal_list"@);
    assert("core_char"@.len() != "start_with_two_ideas"@.len());
    assert("core_char"@ != "start_with_two_ideas"@);
    assert("core_char"@.len() != "use_foldartal"@.len());
    assert("core_char"@ != "use_foldartal"@);
    assert("core_char"@.len() != "check_collapsal_paradigms"@.len());
    assert("core_char"@ != "check_collapsal_paradigms"@);
    assert("core_char"@.len() != "double_check_collapsal_paradigms"@.len());
    assert("core_char"@ != "double_check_collapsal_paradigms"@);
    assert("core_char"@.len() != "expected_collapsal_paradigms"@.len());
    assert("core_char"@ != "expected_collapsal_paradigms"@);
    assert("core_char"@.len() != "monthly_squad_auto_iterate"@.len());
    assert("core_char"@ != "monthly_squad_auto_iterate"@);
    assert("core_char"@.len() != "monthly_squad_check_comms"@.len());
    assert("core_char"@ != "monthly_squad_check_comms"@);
    assert("core_char"@.len() != "deep_exploration_auto_iterate"@.len());
    assert("core_char"@ != "deep_exploration_auto_iterate"@);
    assert("core_char"@.len() != "collectible_mode_shopping"@.len());
    assert("core_char"@ != "collectible_mode_shopping"@);
    assert("core_char"@.len() != "collectible_mode_squad"@.len());
    assert("core_char"@ != "collectible_mode_squad"@);
    assert("core_char"@.len() != "collectible_mode_start_list"@.len());
    assert("core_char"@ != "collectible_mode_start_list"@);
    assert("core_char"@.len() != "start_with_seed"@.len());
    assert("core_char"@ != "start_with_seed"@);
    let b1 = b_opt_bool("enable"@, t.enable);
    let b2 = b_opt_str("theme"@, opt_str_view(t.theme));
    let b3 = b_opt_int("mode"@, t.mode);
    let b4 = b_opt_str("squad"@, opt_str_view(t.squad));
    let b5 = b_opt_str("roles"@, opt_str_view(t.roles));
    let b6 = b_opt_str("core_char"@, opt_str_view(t.core_char));
    let b7 = b_opt_bool("use_support"@, t.use_support);
    let b8 = b_opt_bool("use_nonfriend_support"@, t.use_nonfriend_support);
    let b9 = b_opt_int("starts_count"@, t.starts_count);
    let b10 = b_opt_int("difficulty"@, t.difficulty);
    let b11 = b_opt_bool("stop_at_final_boss"@, t.stop_at_final_boss);
    let b12 = b_opt_bool("stop_at_max_level"@, t.stop_at_max_level);
    let b13 = b_opt_bool("investment_enabled"@, t.investment_enabled);
    let b14 = b_opt_int("investments_count"@, t.investments_count);
    let b15 = b_opt_bool("stop_when_investment_full"@, t.stop_when_investment_full);
    let b16 = b_opt_bool("investment_with_more_score"@, t.investment_with_more_score);
    let b17 = b_opt_bool("start_with_elite_two"@, t.start_with_elite_two);
    let b18 = b_opt_bool("only_start_with_elite_two"@, t.only_start_with_elite_two);
    let b19 = b_opt_bool("refresh_trader_with_dice"@, t.refresh_trader_with_dice);
    let b20 = b_opt_str("first_floor_foldartal"@, opt_str_view(t.first_floor_foldartal));
    let b21 = b_opt_str_list("start_foldartal_list"@, (match t.start_foldartal_list { Option::None => Option::None, Option::Some(l) => Option::Some(strs_view(l@)) }));
    let b22 = b_opt_bool("start_with_two_ideas"@, t.start_with_two_ideas);
    let b23 = b_opt_bool("use_foldartal"@, t.use_foldartal);
    let b24 = b_opt_bool("check_collapsal_paradigms"@, t.check_collapsal_paradigms);
    let b25 = b_opt_bool("double_check_collapsal_paradigms"@, t.double_check_collapsal_paradigms);
    let b26 = b_opt_str_list("expected_collapsal_paradigms"@, (match t.expected_collapsal_paradigms { Option::None => Option::None, Option::Some(l) => Option::Some(strs_view(l@)) }));
    let b27 = b_opt_bool("monthly_squad_auto_iterate"@, t.monthly_squad_auto_iterate);
    let b28 = b_opt_bool("monthly_squad_check_comms"@, t.monthly_squad_check_comms);
    let b29 = b_opt_bool("deep_exploration_auto_iterate"@, t.deep_exploration_auto_iterate);
    let b30 = b_opt_bool("collectible_mode_shopping"@, t.collectible_mode_shopping);
    let b31 = b_opt_str("collectible_mode_squad"@, opt_str_view(t.collectible_mode_squad));
    let b32 = b_opt_bool_map("collectible_mode_start_list"@, (match t.collectible_mode_start_list { Option::None => Option::None, Option::Some(m) => Option::Some(bpairs_view(m@)) }));
    let b33 = b_opt_bool("start_with_seed"@, t.start_with_seed);
    let p1 = b1;
    let p2 = p1 + b2;
    let p3 = p2 + b3;
    let p4 = p3 + b4;
    let p5 = p4 + b5;
    let p6 = p5 + b6;
    let p7 = p6 + b7;
    let p8 = p7 + b8;
    let p9 = p8 + b9;
    let p10 = p9 + b10;
    let p11 = p10 + b11;
    let p12 = p11 + b12;
    let p13 = p12 + b13;
    let p14 = p13 + b14;
    let p15 = p14 + b15;
    let p16 = p15 + b16;
    let p17 = p16 + b17;
    let p18 = p17 + b18;
    let p19 = p18 + b19;
    let p20 = p19 + b20;
    let p21 = p20 + b21;
    let p22 = p21 + b22;
    let p23 = p22 + b23;
    let p24 = p23 + b24;
    let p25 = p24 + b25;
    let p26 = p25 + b26;
    let p27 = p26 + b27;
    let p28 = p27 + b28;
    let p29 = p28 + b29;
    let p30 = p29 + b30;
    let p31 = p30 + b31;
    let p32 = p31 + b32;
    let p33 = p32 + b33;
    assert(roguelike_pairs(t) == p33);
    lemma_doc_get_block(b1, "core_char"@);
    lemma_doc_get_block(b2, "core_char"@);
    lemma_doc_get_block(b3, "core_char"@);
    lemma_doc_get_block(b4, "core_char"@);
    lemma_doc_get_block(b5, "core_char"@);
    lemma_doc_get_block(b6, "core_char"@);
    lemma_doc_get_block(b7, "core_char"@);
    lemma_doc_get_block(b8, "core_char"@);
    lemma_doc_get_block(b9, "core_char"@);
    lemma_doc_get_block(b10, "core_char"@);
    lemma_doc_get_block(b11, "core_char"@);
    lemma_doc_get_block(b12, "core_char"@);
    lemma_doc_get_block(b13, "core_char"@);
    lemma_doc_get_block(b14, "core_char"@);
    lemma_doc_get_block(b15, "core_char"@);
    lemma_doc_get_block(b16, "core_char"@);
    lemma_doc_get_block(b17, "core_char"@);
    lemma_doc_get_block(b18, "core_char"@);
    lemma_doc_get_block(b19, "core_char"@);
    lemma_doc_get_block(b20, "core_char"@);
    lemma_doc_get_block(b21, "core_char"@);
    lemma_doc_get_block(b22, "core_char"@);
    lemma_doc_get_block(b23, "core_char"@);
    lemma_doc_get_block(b24, "core_char"@);
    lemma_doc_get_block(b25, "core_char"@);
    lemma_doc_get_block(b26, "core_char"@);
    lemma_doc_get_block(b27, "core_char"@);
    lemma_doc_get_block(b28, "core_char"@);
    lemma_doc_get_block(b29, "core_char"@);
    lemma_doc_get_block(b30, "core_char"@);
    lemma_doc_get_block(b31, "core_char"@);
    lemma_doc_get_block(b32, "core_char"@);
    lemma_doc_get_block(b33, "core_char"@);
    lemma_doc_get_concat(p32, b33, "core_char"@);
    lemma_doc_get_concat(p31, b32, "core_char"@);
    lemma_doc_get_concat(p30, b31, "core_char"@);
    lemma_doc_get_concat(p29, b30, "core_char"@);
    lemma_doc_get_concat(p28, b29, "core_char"@);
    lemma_doc_get_concat(p27, b28, "core_char"@);
    lemma_doc_get_concat(p26, b27, "core_char"@);
    lemma_doc_get_concat(p25, b26, "core_char"@);
    lemma_doc_get_concat(p24, b25, "core_char"@);
    lemma_doc_get_concat(p23, b24, "core_char"@);
    lemma_doc_get_concat(p22, b23, "core_char"@);
    lemma_doc_get_concat(p21, b22, "core_char"@);
    lemma_doc_get_concat(p20, b21, "core_char"@);
    lemma_doc_get_concat(p19, b20, "core_char"@);
    lemma_doc_get_concat(p18, b19, "core_char"@);
    lemma_doc_get_concat(p17, b18, "core_char"@);
    lemma_doc_get_concat(p16, b17, "core_char"@);
    lemma_doc_get_concat(p15, b16, "core_char"@);
    lemma_doc_get_concat(p14, b15, "core_char"@);
    lemma_doc_get_concat(p13, b14, "core_char"@);
    lemma_doc_get_concat(p12, b13, "core_char"@);
    lemma_doc_get_concat(p11, b12, "core_char"@);
    lemma_doc_get_concat(p10, b11, "core_char"@);
    lemma_doc_get_concat(p9, b10, "core_char"@);
    lemma_doc_get_concat(p8, b9, "core_char"@);
    lemma_doc_get_concat(p7, b8, "core_char"@);
    lemma_doc_get_concat(p6, b7, "core_char"@);
    lemma_doc_get_concat(p5, b6, "core_char"@);
    lemma_doc_get_concat(p4, b5, "core_char"@);
    lemma_doc_get_concat(p3, b4, "core_char"@);
    lemma_doc_get_concat(p2, b3, "core_char"@);
    lemma_doc_get_concat(p1, b2, "core_char"@);
}

/// What lookup of `use_support` finds in the members of a Roguelike task.
proof fn roguelike_get_use_support(t: RoguelikeTask)
    ensures
        doc_get(roguelike_pairs(t), "use_support"@) == (match t.use_support { Option::None => Option::<JsonV>::None, Option::Some(b) => Option::Some(JsonV::Sc(ScalarV::Bool(b))) }),
{
    reveal_strlit("enable");
    reveal_strlit("theme");
    reveal_strlit("mode");
    reveal_strlit("squad");
    reveal_strlit("roles");
    reveal_strlit("core_char");
    reveal_strlit("use_support");
    reveal_strlit("use_nonfriend_support");
    reveal_strlit("starts_count");
    reveal_strlit("difficulty");
    reveal_strlit("stop_at_final_boss");
    reveal_strlit("stop_at_max_level");
    reveal_strlit("investment_enabled");
    reveal_strlit("investments_count");
    reveal_strlit("stop_when_investment_full");
    reveal_strlit("investment_with_more_score");
    reveal_strlit("start_with_elite_two");
    reveal_strlit("only_start_with_elite_two");
    reveal_strlit("refresh_trader_with_dice");
    reveal_strlit("first_floor_foldartal");
    reveal_strlit("start_foldartal_list");
    reveal_strlit("start_with_two_ideas");
    reveal_strlit("use_foldartal");
    reveal_strlit("check_collapsal_paradigms");
    reveal_strlit("double_check_collapsal_paradigms");
    reveal_strlit("expected_collapsal_paradigms");
    reveal_strlit("monthly_squad_auto_iterate");
    reveal_strlit("monthly_squad_check_comms");
    reveal_strlit("deep_exploration_auto_iterate");
    reveal_strlit("collectible_mode_shopping");
    reveal_strlit("collectible_mode_squad");
    reveal_strlit("collectible_mode_start_list");
    reveal_strlit("start_with_seed");
    assert("use_support"@.len() != "enable"@.len());
    assert("use_support"@ != "enable"@);
    assert("use_support"@.len() != "theme"@.len());
    assert("use_support"@ != "theme"@);
    assert("use_support"@.len() != "mode"@.len());
    assert("use_support"@ != "mode"@);
    assert("use_support"@.len() != "squad"@.len());
    assert("use_support"@ != "squad"@);
    assert("use_support"@.len() != "roles"@.len());
    assert("use_support"@ != "roles"@);
    assert("use_support"@.len() != "core_char"@.len());
    assert("use_support"@ != "core_char"@);
    assert("use_support"@.len() != "use_nonfriend_support"@.len());
    assert("use_support"@ != "use_nonfriend_support"@);
    assert("use_support"@.len() != "starts_count"@.len());
    assert("use_support"@ != "starts_count"@);
    assert("use_support"@.len() != "difficulty"@.len());
    assert("use_support"@ != "difficulty"@);
    assert("use_support"@.len() != "stop_at_final_boss"@.len());
    assert("use_support"@ != "stop_at_final_boss"@);
    assert("use_support"@.len() != "stop_at_max_level"@.len());
    assert("use_support"@ != "stop_at_max_level"@);
    assert("use_support"@.len() != "investment_enabled"@.len());
    assert("use_support"@ != "investment_enabled"@);
    assert("use_support"@.len() != "investments_count"@.len());
    assert("use_support"@ != "investments_count"@);
    assert("use_support"@.len() != "stop_when_investment_full"@.len());
    assert("use_support"@ != "stop_when_investment_full"@);
    assert("use_support"@.len() != "investment_with_more_score"@.len());
    assert("use_support"@ != "investment_with_more_score"@);
    assert("use_support"@.len() != "start_with_elite_two"@.len());
    assert("use_support"@ != "start_with_elite_two"@);
    assert("use_support"@.len() != "only_start_with_elite_two"@.len());
    assert("use_support"@ != "only_start_with_elite_two"@);
    assert("use_support"@.len() != "refresh_trader_with_dice"@.len());
    assert("use_support"@ != "refresh_trader_with_dice"@);
    assert("use_support"@.len() != "first_floor_foldartal"@.len());
    assert("use_support"@ != "first_floor_foldartal"@);
    assert("use_support"@.len() != "start_foldartal_list"@.len());
    assert("use_support"@ != "start_foldartal_list"@);
    assert("use_support"@.len() != "start_with_two_ideas"@.len());
    assert("use_support"@ != "start_with_two_ideas"@);
    assert("use_support"@.len() != "use_foldartal"@.len());
    assert("use_support"@ != "use_foldartal"@);
    assert("use_support"@.len() != "check_collapsal_paradigms"@.len());
    assert("use_support"@ != "check_collapsal_paradigms"@);
    assert("use_support"@.len() != "double_check_collapsal_paradigms"@.len());
    assert("use_support"@ != "double_check_collapsal_paradigms"@);
    assert("use_support"@.len() != "expected_collapsal_paradigms"@.len());
    assert("use_support"@ != "expected_collapsal_paradigms"@);
    assert("use_support"@.len() != "monthly_squad_auto_iterate"@.len());
    assert("use_support"@ != "monthly_squad_auto_iterate"@);
    assert("use_support"@.len() != "monthly_squad_check_comms"@.len());
    assert("use_support"@ != "monthly_squad_check_comms"@);
    assert("use_support"@.len() != "deep_exploration_auto_iterate"@.len());
    assert("use_support"@ != "deep_exploration_auto_iterate"@);
    assert("use_support"@.len() != "collectible_mode_shopping"@.len());
    assert("use_support"@ != "collectible_mode_shopping"@);
    assert("use_support"@.len() != "collectible_mode_squad"@.len());
    assert("use_support"@ != "collectible_mode_squad"@);
    assert("use_support"@.len() != "collectible_mode_start_list"@.len());
    assert("use_support"@ != "collectible_mode_start_list"@);
    assert("use_support"@.len() != "start_with_seed"@.len());
    assert("use_support"@ != "start_with_seed"@);
    let b1 = b_opt_bool("enable"@, t.enable);
    let b2 = b_opt_str("theme"@, opt_str_view(t.theme));
    let b3 = b_opt_int("mode"@, t.mode);
    let b4 = b_opt_str("squad"@, opt_str_view(t.squad));
    let b5 = b_opt_str("roles"@, opt_str_view(t.roles));
    let b6 = b_opt_str("core_char"@, opt_str_view(t.core_char));
    let b7 = b_opt_bool("use_support"@, t.use_support);
    let b8 = b_opt_bool("use_nonfriend_support"@, t.use_nonfriend_support);
    let b9 = b_opt_int("starts_count"@, t.starts_count);
    let b10 = b_opt_int("difficulty"@, t.difficulty);
    let b11 = b_opt_bool("stop_at_final_boss"@, t.stop_at_final_boss);
    let b12 = b_opt_bool("stop_at_max_level"@, t.stop_at_max_level);
    let b13 = b_opt_bool("investment_enabled"@, t.investment_enabled);
    let b14 = b_opt_int("investments_count"@, t.investments_count);
    let b15 = b_opt_bool("stop_when_investment_full"@, t.stop_when_investment_full);
    let b16 = b_opt_bool("investment_with_more_score"@, t.investment_with_more_score);
    let b17 = b_opt_bool("start_with_elite_two"@, t.start_with_elite_two);
    let b18 = b_opt_bool("only_start_with_elite_two"@, t.only_start_with_elite_two);
    let b19 = b_opt_bool("refresh_trader_with_dice"@, t.refresh_trader_with_dice);
    let b20 = b_opt_str("first_floor_foldartal"@, opt_str_view(t.first_floor_foldartal));
    let b21 = b_opt_str_list("start_foldartal_list"@, (match t.start_foldartal_list { Option::None => Option::None, Option::Some(l) => Option::Some(strs_view(l@)) }));
    let b22 = b_opt_bool("start_with_two_ideas"@, t.start_with_two_ideas);
    let b23 = b_opt_bool("use_foldartal"@, t.use_foldartal);
    let b24 = b_opt_bool("check_collapsal_paradigms"@, t.check_collapsal_paradigms);
    let b25 = b_opt_bool("double_check_collapsal_paradigms"@, t.double_check_collapsal_paradigms);
    let b26 = b_opt_str_list("expected_collapsal_paradigms"@, (match t.expected_collapsal_paradigms { Option::None => Option::None, Option::Some(l) => Option::Some(strs_view(l@)) }));
    let b27 = b_opt_bool("monthly_squad_auto_iterate"@, t.monthly_squad_auto_iterate);
    let b28 = b_opt_bool("monthly_squad_check_comms"@, t.monthly_squad_check_comms);
    let b29 = b_opt_bool("deep_exploration_auto_iterate"@, t.deep_exploration_auto_iterate);
    let b30 = b_opt_bool("collectible_mode_shopping"@, t.collectible_mode_shopping);
    let b31 = b_opt_str("collectible_mode_squad"@, opt_str_view(t.collectible_mode_squad));
    let b32 = b_opt_bool_map("collectible_mode_start_list"@, (match t.collectible_mode_start_list { Option::None => Option::None, Option::Some(m) => Option::Some(bpairs_view(m@)) }));
    let b33 = b_opt_bool("start_with_seed"@, t.start_with_seed);
    let p1 = b1;
    let p2 = p1 + b2;
    let p3 = p2 + b3;
    let p4 = p3 + b4;
    let p5 = p4 + b5;
    let p6 = p5 + b6;
    let p7 = p6 + b7;
    let p8 = p7 + b8;
    let p9 = p8 + b9;
    let p10 = p9 + b10;
    let p11 = p10 + b11;
    let p12 = p11 + b12;
    let p13 = p12 + b13;
    let p14 = p13 + b14;
    let p15 = p14 + b15;
    let p16 = p15 + b16;
    let p17 = p16 + b17;
    let p18 = p17 + b18;
    let p19 = p18 + b19;
    let p20 = p19 + b20;
    let p21 = p20 + b21;
    let p22 = p21 + b22;
    let p23 = p22 + b23;
    let p24 = p23 + b24;
    let p25 = p24 + b25;
    let p26 = p25 + b26;
    let p27 = p26 + b27;
    let p28 = p27 + b28;
    let p29 = p28 + b29;
    let p30 = p29 + b30;
    let p31 = p30 + b31;
    let p32 = p31 + b32;
    let p33 = p32 + b33;
    assert(roguelike_pairs(t) == p33);
    lemma_doc_get_block(b1, "use_support"@);
    lemma_doc_get_block(b2, "use_support"@);
    lemma_doc_get_block(b3, "use_support"@);
    lemma_doc_get_block(b4, "use_support"@);
    lemma_doc_get_block(b5, "use_support"@);
    lemma_doc_get_block(b6, "use_support"@);
    lemma_doc_get_block(b7, "use_support"@);
    lemma_doc_get_block(b8, "use_support"@);
    lemma_doc_get_block(b9, "use_support"@);
    lemma_doc_get_block(b10, "use_support"@);
    lemma_doc_get_block(b11, "use_support"@);
    lemma_doc_get_block(b12, "use_support"@);
    lemma_doc_get_block(b13, "use_support"@);
    lemma_doc_get_block(b14, "use_support"@);
    lemma_doc_get_block(b15, "use_support"@);
    lemma_doc_get_block(b16, "use_support"@);
    lemma_doc_get_block(b17, "use_support"@);
    lemma_doc_get_block(b18, "use_support"@);
    lemma_doc_get_block(b19, "use_support"@);
    lemma_doc_get_block(b20, "use_support"@);
    lemma_doc_get_block(b21, "use_support"@);
    lemma_doc_get_block(b22, "use_support"@);
    lemma_doc_get_block(b23, "use_support"@);
    lemma_doc_get_block(b24, "use_support"@);
    lemma_doc_get_block(b25, "use_support"@);
    lemma_doc_get_block(b26, "use_support"@);
    lemma_doc_get_block(b27, "use_support"@);
    lemma_doc_get_block(b28, "use_support"@);
    lemma_doc_get_block(b29, "use_support"@);
    lemma_doc_get_block(b30, "use_support"@);
    lemma_doc_get_block(b31, "use_support"@);
    lemma_doc_get_block(b32, "use_support"@);
    lemma_doc_get_block(b33, "use_support"@);
    lemma_doc_get_concat(p32, b33, "use_support"@);
    lemma_doc_get_concat(p31, b32, "use_support"@);
    lemma_doc_get_concat(p30, b31, "use_support"@);
    lemma_doc_get_concat(p29, b30, "use_support"@);
    lemma_doc_get_concat(p28, b29, "use_support"@);
    lemma_doc_get_concat(p27, b28, "use_support"@);
    lemma_doc_get_concat(p26, b27, "use_support"@);
    lemma_doc_get_concat(p25, b26, "use_support"@);
    lemma_doc_get_concat(p24, b25, "use_support"@);
    lemma_doc_get_concat(p23, b24, "use_support"@);
    lemma_doc_get_concat(p22, b23, "use_support"@);
    lemma_doc_get_concat(p21, b22, "use_support"@);
    lemma_doc_get_concat(p20, b21, "use_support"@);
    lemma_doc_get_concat(p19, b20, "use_support"@);
    lemma_doc_get_concat(p18, b19, "use_support"@);
    lemma_doc_get_concat(p17, b18, "use_support"@);
    lemma_doc_get_concat(p16, b17, "use_support"@);
    lemma_doc_get_concat(p15, b16, "use_support"@);
    lemma_doc_get_concat(p14, b15, "use_support"@);
    lemma_doc_get_concat(p13, b14, "use_support"@);
    lemma_doc_get_concat(p12, b13, "use_support"@);
    lemma_doc_get_concat(p11, b12, "use_support"@);
    lemma_doc_get_concat(p10, b11, "use_support"@);
    lemma_doc_get_concat(p9, b10, "use_support"@);
    lemma_doc_get_concat(p8, b9, "use_support"@);
    lemma_doc_get_concat(p7, b8, "use_support"@);
    lemma_doc_get_concat(p6, b7, "use_support"@);
    lemma_doc_get_concat(p5, b6, "use_support"@);
    lemma_doc_get_concat(p4, b5, "use_support"@);
    lemma_doc_get_concat(p3, b4, "use_support"@);
    lemma_doc_get_concat(p2, b3, "use_support"@);
    lemma_doc_get_concat(p1, b2, "use_support"@);
}

/// What lookup of `use_nonfriend_support` finds in the members of a Roguelike task.
proof fn roguelike_get_use_nonfriend_support(t: RoguelikeTask)
    ensures
        doc_get(roguelike_pairs(t), "use_nonfriend_support"@) == (match t.use_nonfriend_support { Option::None => Option::<JsonV>::None, Option::Some(b) => Option::Some(JsonV::Sc(ScalarV::Bool(b))) }),
{
    reveal_strlit("enable");
    reveal_strlit("theme");
    reveal_strlit("mode");
    reveal_strlit("squad");
    reveal_strlit("roles");
    reveal_strlit("core_char");
    reveal_strlit("use_support");
    reveal_strlit("use_nonfriend_support");
    reveal_strlit("starts_count");
    reveal_strlit("difficulty");
    reveal_strlit("stop_at_final_boss");
    reveal_strlit("stop_at_max_level");
    reveal_strlit("investment_enabled");
    reveal_strlit("investments_count");
    reveal_strlit("stop_when_investment_full");
    reveal_strlit("investment_with_more_score");
    reveal_strlit("start_with_elite_two");
    reveal_strlit("only_start_with_elite_two");
    reveal_strlit("refresh_trader_with_dice");
    reveal_strlit("first_floor_foldartal");
    reveal_strlit("start_foldartal_list");
    reveal_strlit("start_with_two_ideas");
    reveal_strlit("use_foldartal");
    reveal_strlit("check_collapsal_paradigms");
    reveal_strlit("double_check_collapsal_paradigms");
    reveal_strlit("expected_collapsal_paradigms");
    reveal_strlit("monthly_squad_auto_iterate");
    reveal_strlit("monthly_squad_check_comms");
    reveal_strlit("deep_exploration_auto_iterate");
    reveal_strlit("collectible_mode_shopping");
    reveal_strlit("collectible_mode_squad");
    reveal_strlit("collectible_mode_start_list");
    reveal_strlit("start_with_seed");
    assert("use_nonfriend_support"@.len() != "enable"@.len());
    assert("use_nonfriend_support"@ != "enable"@);
    assert("use_nonfriend_support"@.len() != "theme"@.len());
    assert("use_nonfriend_support"@ != "theme"@);
    assert("use_nonfriend_support"@.len() != "mode"@.len());
    assert("use_nonfriend_support"@ != "mode"@);
    assert("use_nonfriend_support"@.len() != "squad"@.len());
    assert("use_nonfriend_support"@ != "squad"@);
    assert("use_nonfriend_support"@.len() != "roles"@.len());
    assert("use_nonfriend_support"@ != "roles"@);
    assert("use_nonfriend_support"@.len() != "core_char"@.len());
    assert("use_nonfriend_support"@ != "core_char"@);
    assert("use_nonfriend_support"@.len() != "use_support"@.len());
    assert("use_nonfriend_support"@ != "use_support"@);
    assert("use_nonfriend_support"@.len() != "starts_count"@.len());
    assert("use_nonfriend_support"@ != "starts_count"@);
    assert("use_nonfriend_support"@.len() != "difficulty"@.len());
    assert("use_nonfriend_support"@ != "difficulty"@);
    assert("use_nonfriend_support"@.len() != "stop_at_final_boss"@.len());
    assert("use_nonfriend_support"@ != "stop_at_final_boss"@);
    assert("use_nonfriend_support"@.len() != "stop_at_max_level"@.len());
    assert("use_nonfriend_support"@ != "stop_at_max_level"@);
    assert("use_nonfriend_support"@.len() != "investment_enabled"@.len());
    assert("use_nonfriend_support"@ != "investment_enabled"@);
    assert("use_nonfriend_support"@.len() != "investments_count"@.len());
    assert("use_nonfriend_support"@ != "investments_count"@);
    assert("use_nonfriend_support"@.len() != "stop_when_investment_full"@.len());
    assert("use_nonfriend_support"@ != "stop_when_investment_full"@);
    assert("use_nonfriend_support"@.len() != "investment_with_more_score"@.len());
    assert("use_nonfriend_support"@ != "investment_with_more_score"@);
    assert("use_nonfriend_support"@.len() != "start_with_elite_two"@.len());
    assert("use_nonfriend_support"@ != "start_with_elite_two"@);
    assert("use_nonfriend_support"@.len() != "only_start_with_elite_two"@.len());
    assert("use_nonfriend_support"@ != "only_start_with_elite_two"@);
    assert("use_nonfriend_support"@.len() != "refresh_trader_with_dice"@.len());
    assert("use_nonfriend_support"@ != "refresh_trader_with_dice"@);
    assert("use_nonfriend_support"@[0] != "first_floor_foldartal"@[0]);
    assert("use_nonfriend_support"@ != "first_floor_foldartal"@);
    assert("use_nonfriend_support"@.len() != "start_foldartal_list"@.len());
    assert("use_nonfriend_support"@ != "start_foldartal_list"@);
    assert("use_nonfriend_support"@.len() != "start_with_two_ideas"@.len());
    assert("use_nonfriend_support"@ != "start_with_two_ideas"@);
    assert("use_nonfriend_support"@.len() != "use_foldartal"@.len());
    assert("use_nonfriend_support"@ != "use_foldartal"@);
    assert("use_nonfriend_support"@.len() != "check_collapsal_paradigms"@.len());
    assert("use_nonfriend_support"@ != "check_collapsal_paradigms"@);
    assert("use_nonfriend_support"@.len() != "double_check_collapsal_paradigms"@.len());
    assert("use_nonfriend_support"@ != "double_check_collapsal_paradigms"@);
    assert("use_nonfriend_support"@.len() != "expected_collapsal_paradigms"@.len());
    assert("use_nonfriend_support"@ != "expected_collapsal_paradigms"@);
    assert("use_nonfriend_support"@.len() != "monthly_squad_auto_iterate"@.len());
    assert("use_nonfriend_support"@ != "monthly_squad_auto_iterate"@);
    assert("use_nonfriend_support"@.len() != "monthly_squad_check_comms"@.len());
    assert("use_nonfriend_support"@ != "monthly_squad_check_comms"@);
    assert("use_nonfriend_support"@.len() != "deep_exploration_auto_iterate"@.len());
    assert("use_nonfriend_support"@ != "deep_exploration_auto_iterate"@);
    assert("use_nonfriend_support"@.len() != "collectible_mode_shopping"@.len());
    assert("use_nonfriend_support"@ != "collectible_mode_shopping"@);
    assert("use_nonfriend_support"@.len() != "collectible_mode_squad"@.len());
    assert("use_nonfriend_support"@ != "collectible_mode_squad"@);
    assert("use_nonfriend_support"@.len() != "collectible_mode_start_list"@.len());
    assert("use_nonfriend_support"@ != "collectible_mode_start_list"@);
    assert("use_nonfriend_support"@.len() != "start_with_seed"@.len());
    assert("use_nonfriend_support"@ != "start_with_seed"@);
    let b1 = b_opt_bool("enable"@, t.enable);
    let b2 = b_opt_str("theme"@, opt_str_view(t.theme));
    let b3 = b_opt_int("mode"@, t.mode);
    let b4 = b_opt_str("squad"@, opt_str_view(t.squad));
    let b5 = b_opt_str("roles"@, opt_str_view(t.roles));
    let b6 = b_opt_str("core_char"@, opt_str_view(t.core_char));
    let b7 = b_opt_bool("use_support"@, t.use_support);
    let b8 = b_opt_bool("use_nonfriend_support"@, t.use_nonfriend_support);
    let b9 = b_opt_int("starts_count"@, t.starts_count);
    let b10 = b_opt_int("difficulty"@, t.difficulty);
    let b11 = b_opt_bool("stop_at_final_boss"@, t.stop_at_final_boss);
    let b12 = b_opt_bool("stop_at_max_level"@, t.stop_at_max_level);
    let b13 = b_opt_bool("investment_enabled"@, t.investment_enabled);
    let b14 = b_opt_int("investments_count"@, t.investments_count);
    let b15 = b_opt_bool("stop_when_investment_full"@, t.stop_when_investment_full);
    let b16 = b_opt_bool("investment_with_more_score"@, t.investment_with_more_score);
    let b17 = b_opt_bool("start_with_elite_two"@, t.start_with_elite_two);
    let b18 = b_opt_bool("only_start_with_elite_two"@, t.only_start_with_elite_two);
    let b19 = b_opt_bool("refresh_trader_with_dice"@, t.refresh_trader_with_dice);
    let b20 = b_opt_str("first_floor_foldartal"@, opt_str_view(t.first_floor_foldartal));
    let b21 = b_opt_str_list("start_foldartal_list"@, (match t.start_foldartal_list { Option::None => Option::None, Option::Some(l) => Option::Some(strs_view(l@)) }));
    let b22 = b_opt_bool("start_with_two_ideas"@, t.start_with_two_ideas);
    let b23 = b_opt_bool("use_foldartal"@, t.use_foldartal);
    let b24 = b_opt_bool("check_collapsal_paradigms"@, t.check_collapsal_paradigms);
    let b25 = b_opt_bool("double_check_collapsal_paradigms"@, t.double_check_collapsal_paradigms);
    let b26 = b_opt_str_list("expected_collapsal_paradigms"@, (match t.expected_collapsal_paradigms { Option::None => Option::None, Option::Some(l) => Option::Some(strs_view(l@)) }));
    let b27 = b_opt_bool("monthly_squad_auto_iterate"@, t.monthly_squad_auto_iterate);
    let b28 = b_opt_bool("monthly_squad_check_comms"@, t.monthly_squad_check_comms);
    let b29 = b_opt_bool("deep_exploration_auto_iterate"@, t.deep_exploration_auto_iterate);
    let b30 = b_opt_bool("collectible_mode_shopping"@, t.collectible_mode_shopping);
    let b31 = b_opt_str("collectible_mode_squad"@, opt_str_view(t.collectible_mode_squad));
    let b32 = b_opt_bool_map("collectible_mode_start_list"@, (match t.collectible_mode_start_list { Option::None => Option::None, Option::Some(m) => Option::Some(bpairs_view(m@)) }));
    let b33 = b_opt_bool("start_with_seed"@, t.start_with_seed);
    let p1 = b1;
    let p2 = p1 + b2;
    let p3 = p2 + b3;
    let p4 = p3 + b4;
    let p5 = p4 + b5;
    let p6 = p5 + b6;
    let p7 = p6 + b7;
    let p8 = p7 + b8;
    let p9 = p8 + b9;
    let p10 = p9 + b10;
    let p11 = p10 + b11;
    let p12 = p11 + b12;
    let p13 = p12 + b13;
    let p14 = p13 + b14;
    let p15 = p14 + b15;
    let p16 = p15 + b16;
    let p17 = p16 + b17;
    let p18 = p17 + b18;
    let p19 = p18 + b19;
    let p20 = p19 + b20;
    let p21 = p20 + b21;
    let p22 = p21 + b22;
    let p23 = p22 + b23;
    let p24 = p23 + b24;
    let p25 = p24 + b25;
    let p26 = p25 + b26;
    let p27 = p26 + b27;
    let p28 = p27 + b28;
    let p29 = p28 + b29;
    let p30 = p29 + b30;
    let p31 = p30 + b31;
    let p32 = p31 + b32;
    let p33 = p32 + b33;
    assert(roguelike_pairs(t) == p33);
    lemma_doc_get_block(b1, "use_nonfriend_support"@);
    lemma_doc_get_block(b2, "use_nonfriend_support"@);
    lemma_doc_get_block(b3, "use_nonfriend_support"@);
    lemma_doc_get_block(b4, "use_nonfriend_support"@);
    lemma_doc_get_block(b5, "use_nonfriend_support"@);
    lemma_doc_get_block(b6, "use_nonfriend_support"@);
    lemma_doc_get_block(b7, "use_nonfriend_support"@);
    lemma_doc_get_block(b8, "use_nonfriend_support"@);
    lemma_doc_get_block(b9, "use_nonfriend_support"@);
    lemma_doc_get_block(b10, "use_nonfriend_support"@);
    lemma_doc_get_block(b11, "use_nonfriend_support"@);
    lemma_doc_get_block(b12, "use_nonfriend_support"@);
    lemma_doc_get_block(b13, "use_nonfriend_support"@);
    lemma_doc_get_block(b14, "use_nonfriend_support"@);
    lemma_doc_get_block(b15, "use_nonfriend_support"@);
    lemma_doc_get_block(b16, "use_nonfriend_support"@);
    lemma_doc_get_block(b17, "use_nonfriend_support"@);
    lemma_doc_get_block(b18, "use_nonfriend_support"@);
    lemma_doc_get_block(b19, "use_nonfriend_support"@);
    lemma_doc_get_block(b20, "use_nonfriend_support"@);
    lemma_doc_get_block(b21, "use_nonfriend_support"@);
    lemma_doc_get_block(b22, "use_nonfriend_support"@);
    lemma_doc_get_block(b23, "use_nonfriend_support"@);
    lemma_doc_get_block(b24, "use_nonfriend_support"@);
    lemma_doc_get_block(b25, "use_nonfriend_support"@);
    lemma_doc_get_block(b26, "use_nonfriend_support"@);
    lemma_doc_get_block(b27, "use_nonfriend_support"@);
    lemma_doc_get_block(b28, "use_nonfriend_support"@);
    lemma_doc_get_block(b29, "use_nonfriend_support"@);
    lemma_doc_get_block(b30, "use_nonfriend_support"@);
    lemma_doc_get_block(b31, "use_nonfriend_support"@);
    lemma_doc_get_block(b32, "use_nonfriend_support"@);
    lemma_doc_get_block(b33, "use_nonfriend_support"@);
    lemma_doc_get_concat(p32, b33, "use_nonfriend_support"@);
    lemma_doc_get_concat(p31, b32, "use_nonfriend_support"@);
    lemma_doc_get_concat(p30, b31, "use_nonfriend_support"@);
    lemma_doc_get_concat(p29, b30, "use_nonfriend_support"@);
    lemma_doc_get_concat(p28, b29, "use_nonfriend_support"@);
    lemma_doc_get_concat(p27, b28, "use_nonfriend_support"@);
    lemma_doc_get_concat(p26, b27, "use_nonfriend_support"@);
    lemma_doc_get_concat(p25, b26, "use_nonfriend_support"@);
    lemma_doc_get_concat(p24, b25, "use_nonfriend_support"@);
    lemma_doc_get_concat(p23, b24, "use_nonfriend_support"@);
    lemma_doc_get_concat(p22, b23, "use_nonfriend_support"@);
    lemma_doc_get_concat(p21, b22, "use_nonfriend_support"@);
    lemma_doc_get_concat(p20, b21, "use_nonfriend_support"@);
    lemma_doc_get_concat(p19, b20, "use_nonfriend_support"@);
    lemma_doc_get_concat(p18, b19, "use_nonfriend_support"@);
    lemma_doc_get_concat(p17, b18, "use_nonfriend_support"@);
    lemma_doc_get_concat(p16, b17, "use_nonfriend_support"@);
    lemma_doc_get_concat(p15, b16, "use_nonfriend_support"@);
    lemma_doc_get_concat(p14, b15, "use_nonfriend_support"@);
    lemma_doc_get_concat(p13, b14, "use_nonfriend_support"@);
    lemma_doc_get_concat(p12, b13, "use_nonfriend_support"@);
    lemma_doc_get_concat(p11, b12, "use_nonfriend_support"@);
    lemma_doc_get_concat(p10, b11, "use_nonfriend_support"@);
    lemma_doc_get_concat(p9, b10, "use_nonfriend_support"@);
    lemma_doc_get_concat(p8, b9, "use_nonfriend_support"@);
    lemma_doc_get_concat(p7, b8, "use_nonfriend_support"@);
    lemma_doc_get_concat(p6, b7, "use_nonfriend_support"@);
    lemma_doc_get_concat(p5, b6, "use_nonfriend_support"@);
    lemma_doc_get_concat(p4, b5, "use_nonfriend_support"@);
    lemma_doc_get_concat(p3, b4, "use_nonfriend_support"@);
    lemma_doc_get_concat(p2, b3, "use_nonfriend_support"@);
    lemma_doc_get_concat(p1, b2, "use_nonfriend_support"@);
}

/// What lookup of `starts_count` finds in the members of a Roguelike task.
proof fn roguelike_get_starts_count(t: RoguelikeTask)
    ensures
        doc_get(roguelike_pairs(t), "starts_count"@) == (match t.starts_count { Option::None => Option::<JsonV>::None, Option::Some(i) => Option::Some(JsonV::Sc(ScalarV::Int(i as int))) }),
{
    reveal_strlit("enable");
    reveal_strlit("theme");
    reveal_strlit("mode");
    reveal_strlit("squad");
    reveal_strlit("roles");
    reveal_strlit("core_char");
    reveal_strlit("use_support");
    reveal_strlit("use_nonfriend_support");
    reveal_strlit("starts_count");
    reveal_strlit("difficulty");
    reveal_strlit("stop_at_final_boss");
    reveal_strlit("stop_at_max_level");
    reveal_strlit("investment_enabled");
    reveal_strlit("investments_count");
    reveal_strlit("stop_when_investment_full");
    reveal_strlit("investment_with_more_score");
    reveal_strlit("start_with_elite_two");
    reveal_strlit("only_start_with_elite_two");
    reveal_strlit("refresh_trader_with_dice");
    reveal_strlit("first_floor_foldartal");
    reveal_strlit("start_foldartal_list");
    reveal_strlit("start_with_two_ideas");
    reveal_strlit("use_foldartal");
    reveal_strlit("check_collapsal_paradigms");
    reveal_strlit("double_check_collapsal_paradigms");
    reveal_strlit("expected_collapsal_paradigms");
    reveal_strlit("monthly_squad_auto_iterate");
    reveal_strlit("monthly_squad_check_comms");
    reveal_strlit("deep_exploration_auto_iterate");
    reveal_strlit("collectible_mode_shopping");
    reveal_strlit("collectible_mode_squad");
    reveal_strlit("collectible_mode_start_list");
    reveal_strlit("start_with_seed");
    assert("starts_count"@.len() != "enable"@.len());
    assert("starts_count"@ != "enable"@);
    assert("starts_count"@.len() != "theme"@.len());
    assert("starts_count"@ != "theme"@);
    assert("starts_count"@.len() != "mode"@.len());
    assert("starts_count"@ != "mode"@);
    assert("starts_count"@.len() != "squad"@.len());
    assert("starts_count"@ != "squad"@);
    assert("starts_count"@.len() != "roles"@.len());
    assert("starts_count"@ != "roles"@);
    assert("starts_count"@.len() != "core_char"@.len());
    assert("starts_count"@ != "core_char"@);
    assert("starts_count"@.len() != "use_support"@.len());
    assert("starts_count"@ != "use_support"@);
    assert("starts_count"@.len() != "use_nonfriend_support"@.len());
    assert("starts_count"@ != "use_nonfriend_support"@);
    assert("starts_count"@.len() != "difficulty"@.len());
    assert("starts_count"@ != "difficulty"@);
    assert("starts_count"@.len() != "stop_at_final_boss"@.len());
    assert("starts_count"@ != "stop_at_final_boss"@);
    assert("starts_count"@.len() != "stop_at_max_level"@.len());
    assert("starts_count"@ != "stop_at_max_level"@);
    assert("starts_count"@.len() != "investment_enabled"@.len());
    assert("starts_count"@ != "investment_enabled"@);
    assert("starts_count"@.len() != "investments_count"@.len());
    assert("starts_count"@ != "investments_count"@);
    assert("starts_count"@.len() != "stop_when_investment_full"@.len());
    assert("starts_count"@ != "stop_when_investment_full"@);
    assert("starts_count"@.len() != "investment_with_more_score"@.len());
    assert("starts_count"@ != "investment_with_more_score"@);
    assert("starts_count"@.len() != "start_with_elite_two"@.len());
    assert("starts_count"@ != "start_with_elite_two"@);
    assert("starts_count"@.len() != "only_start_with_elite_two"@.len());
    assert("starts_count"@ != "only_start_with_elite_two"@);
    assert("starts_count"@.len() != "refresh_trader_with_dice"@.len());
    assert("starts_count"@ != "refresh_trader_with_dice"@);
    assert("starts_count"@.len() != "first_floor_foldartal"@.len());
    assert("starts_count"@ != "first_floor_foldartal"@);
    assert("starts_count"@.len() != "start_foldartal_list"@.len());
    assert("starts_count"@ != "start_foldartal_list"@);
    assert("starts_count"@.len() != "start_with_two_ideas"@.len());
    assert("starts_count"@ != "start_with_two_ideas"@);
    assert("starts_count"@.len() != "use_foldartal"@.len());
    assert("starts_count"@ != "use_foldartal"@);
    assert("starts_count"@.len() != "check_collapsal_paradigms"@.len());
    assert("starts_count"@ != "check_collapsal_paradigms"@);
    assert("starts_count"@.len() != "double_check_collapsal_paradigms"@.len());
    assert("starts_count"@ != "double_check_collapsal_paradigms"@);
    assert("starts_count"@.len() != "expected_collapsal_paradigms"@.len());
    assert("starts_count"@ != "expected_collapsal_paradigms"@);
    assert("starts_count"@.len() != "monthly_squad_auto_iterate"@.len());
    assert("starts_count"@ != "monthly_squad_auto_iterate"@);
    assert("starts_count"@.len() != "monthly_squad_check_comms"@.len());
    assert("starts_count"@ != "monthly_squad_check_comms"@);
    assert("starts_count"@.len() != "deep_exploration_auto_iterate"@.len());
    assert("starts_count"@ != "deep_exploration_auto_iterate"@);
    assert("starts_count"@.len() != "collectible_mode_shopping"@.len());
    assert("starts_count"@ != "collectible_mode_shopping"@);
    assert("starts_count"@.len() != "collectible_mode_squad"@.len());
    assert("starts_count"@ != "collectible_mode_squad"@);
    assert("starts_count"@.len() != "collectible_mode_start_list"@.len());
    assert("starts_count"@ != "collectible_mode_start_list"@);
    assert("starts_count"@.len() != "start_with_seed"@.len());
    assert("starts_count"@ != "start_with_seed"@);
    let b1 = b_opt_bool("enable"@, t.enable);
    let b2 = b_opt_str("theme"@, opt_str_view(t.theme));
    let b3 = b_opt_int("mode"@, t.mode);
    let b4 = b_opt_str("squad"@, opt_str_view(t.squad));
    let b5 = b_opt_str("roles"@, opt_str_view(t.roles));
    let b6 = b_opt_str("core_char"@, opt_str_view(t.core_char));
    let b7 = b_opt_bool("use_support"@, t.use_support);
    let b8 = b_opt_bool("use_nonfriend_support"@, t.use_nonfriend_support);
    let b9 = b_opt_int("starts_count"@, t.starts_count);
    let b10 = b_opt_int("difficulty"@, t.difficulty);
    let b11 = b_opt_bool("stop_at_final_boss"@, t.stop_at_final_boss);
    let b12 = b_opt_bool("stop_at_max_level"@, t.stop_at_max_level);
    let b13 = b_opt_bool("investment_enabled"@, t.investment_enabled);
    let b14 = b_opt_int("investments_count"@, t.investments_count);
    let b15 = b_opt_bool("stop_when_investment_full"@, t.stop_when_investment_full);
    let b16 = b_opt_bool("investment_with_more_score"@, t.investment_with_more_score);
    let b17 = b_opt_bool("start_with_elite_two"@, t.start_with_elite_two);
    let b18 = b_opt_bool("only_start_with_elite_two"@, t.only_start_with_elite_two);
    let b19 = b_opt_bool("refresh_trader_with_dice"@, t.refresh_trader_with_dice);
    let b20 = b_opt_str("first_floor_foldartal"@, opt_str_view(t.first_floor_foldartal));
    let b21 = b_opt_str_list("start_foldartal_list"@, (match t.start_foldartal_list { Option::None => Option::None, Option::Some(l) => Option::Some(strs_view(l@)) }));
    let b22 = b_opt_bool("start_with_two_ideas"@, t.start_with_two_ideas);
    let b23 = b_opt_bool("use_foldartal"@, t.use_foldartal);
    let b24 = b_opt_bool("check_collapsal_paradigms"@, t.check_collapsal_paradigms);
    let b25 = b_opt_bool("double_check_collapsal_paradigms"@, t.double_check_collapsal_paradigms);
    let b26 = b_opt_str_list("expected_collapsal_paradigms"@, (match t.expected_collapsal_paradigms { Option::None => Option::None, Option::Some(l) => Option::Some(strs_view(l@)) }));
    let b27 = b_opt_bool("monthly_squad_auto_iterate"@, t.monthly_squad_auto_iterate);
    let b28 = b_opt_bool("monthly_squad_check_comms"@, t.monthly_squad_check_comms);
    let b29 = b_opt_bool("deep_exploration_auto_iterate"@, t.deep_exploration_auto_iterate);
    let b30 = b_opt_bool("collectible_mode_shopping"@, t.collectible_mode_shopping);
    let b31 = b_opt_str("collectible_mode_squad"@, opt_str_view(t.collectible_mode_squad));
    let b32 = b_opt_bool_map("collectible_mode_start_list"@, (match t.collectible_mode_start_list { Option::None => Option::None, Option::Some(m) => Option::Some(bpairs_view(m@)) }));
    let b33 = b_opt_bool("start_with_seed"@, t.start_with_seed);
    let p1 = b1;
    let p2 = p1 + b2;
    let p3 = p2 + b3;
    let p4 = p3 + b4;
    let p5 = p4 + b5;
    let p6 = p5 + b6;
    let p7 = p6 + b7;
    let p8 = p7 + b8;
    let p9 = p8 + b9;
    let p10 = p9 + b10;
    let p11 = p10 + b11;
    let p12 = p11 + b12;
    let p13 = p12 + b13;
    let p14 = p13 + b14;
    let p15 = p14 + b15;
    let p16 = p15 + b16;
    let p17 = p16 + b17;
    let p18 = p17 + b18;
    let p19 = p18 + b19;
    let p20 = p19 + b20;
    let p21 = p20 + b21;
    let p22 = p21 + b22;
    let p23 = p22 + b23;
    let p24 = p23 + b24;
    let p25 = p24 + b25;
    let p26 = p25 + b26;
    let p27 = p26 + b27;
    let p28 = p27 + b28;
    let p29 = p28 + b29;
    let p30 = p29 + b30;
    let p31 = p30 + b31;
    let p32 = p31 + b32;
    let p33 = p32 + b33;
    assert(roguelike_pairs(t) == p33);
    lemma_doc_get_block(b1, "starts_count"@);
    lemma_doc_get_block(b2, "starts_count"@);
    lemma_doc_get_block(b3, "starts_count"@);
    lemma_doc_get_block(b4, "starts_count"@);
    lemma_doc_get_block(b5, "starts_count"@);
    lemma_doc_get_block(b6, "starts_count"@);
    lemma_doc_get_block(b7, "starts_count"@);
    lemma_doc_get_block(b8, "starts_count"@);
    lemma_doc_get_block(b9, "starts_count"@);
    lemma_doc_get_block(b10, "starts_count"@);
    lemma_doc_get_block(b11, "starts_count"@);
    lemma_doc_get_block(b12, "starts_count"@);
    lemma_doc_get_block(b13, "starts_count"@);
    lemma_doc_get_block(b14, "starts_count"@);
    lemma_doc_get_block(b15, "starts_count"@);
    lemma_doc_get_block(b16, "starts_count"@);
    lemma_doc_get_block(b17, "starts_count"@);
    lemma_doc_get_block(b18, "starts_count"@);
    lemma_doc_get_block(b19, "starts_count"@);
    lemma_doc_get_block(b20, "starts_count"@);
    lemma_doc_get_block(b21, "starts_count"@);
    lemma_doc_get_block(b22, "starts_count"@);
    lemma_doc_get_block(b23, "starts_count"@);
    lemma_doc_get_block(b24, "starts_count"@);
    lemma_doc_get_block(b25, "starts_count"@);
    lemma_doc_get_block(b26, "starts_count"@);
    lemma_doc_get_block(b27, "starts_count"@);
    lemma_doc_get_block(b28, "starts_count"@);
    lemma_doc_get_block(b29, "starts_count"@);
    lemma_doc_get_block(b30, "starts_count"@);
    lemma_doc_get_block(b31, "starts_count"@);
    lemma_doc_get_block(b32, "starts_count"@);
    lemma_doc_get_block(b33, "starts_count"@);
    lemma_doc_get_concat(p32, b33, "starts_count"@);
    lemma_doc_get_concat(p31, b32, "starts_count"@);
    lemma_doc_get_concat(p30, b31, "starts_count"@);
    lemma_doc_get_concat(p29, b30, "starts_count"@);
    lemma_doc_get_concat(p28, b29, "starts_count"@);
    lemma_doc_get_concat(p27, b28, "starts_count"@);
    lemma_doc_get_concat(p26, b27, "starts_count"@);
    lemma_doc_get_concat(p25, b26, "starts_count"@);
    lemma_doc_get_concat(p24, b25, "starts_count"@);
    lemma_doc_get_concat(p23, b24, "starts_count"@);
    lemma_doc_get_concat(p22, b23, "starts_count"@);
    lemma_doc_get_concat(p21, b22, "starts_count"@);
    lemma_doc_get_concat(p20, b21, "starts_count"@);
    lemma_doc_get_concat(p19, b20, "starts_count"@);
    lemma_doc_get_concat(p18, b19, "starts_count"@);
    lemma_doc_get_concat(p17, b18, "starts_count"@);
    lemma_doc_get_concat(p16, b17, "starts_count"@);
    lemma_doc_get_concat(p15, b16, "starts_count"@);
    lemma_doc_get_concat(p14, b15, "starts_count"@);
    lemma_doc_get_concat(p13, b14, "starts_count"@);
    lemma_doc_get_concat(p12, b13, "starts_count"@);
    lemma_doc_get_concat(p11, b12, "starts_count"@);
    lemma_doc_get_concat(p10, b11, "starts_count"@);
    lemma_doc_get_concat(p9, b10, "starts_count"@);
    lemma_doc_get_concat(p8, b9, "starts_count"@);
    lemma_doc_get_concat(p7, b8, "starts_count"@);
    lemma_doc_get_concat(p6, b7, "starts_count"@);
    lemma_doc_get_concat(p5, b6, "starts_count"@);
    lemma_doc_get_concat(p4, b5, "starts_count"@);
    lemma_doc_get_concat(p3, b4, "starts_count"@);
    lemma_doc_get_concat(p2, b3, "starts_count"@);
    lemma_doc_get_concat(p1, b2, "starts_count"@);
}

/// What lookup of `difficulty` finds in the members of a Roguelike task.
proof fn roguelike_get_difficulty(t: RoguelikeTask)
    ensures
        doc_get(roguelike_pairs(t), "difficulty"@) == (match t.difficulty { Option::None => Option::<JsonV>::None, Option::Some(i) => Option::Some(JsonV::Sc(ScalarV::Int(i as int))) }),
{
    reveal_strlit("enable");
    reveal_strlit("theme");
    reveal_strlit("mode");
    reveal_strlit("squad");
    reveal_strlit("roles");
    reveal_strlit("core_char");
    reveal_strlit("use_support");
    reveal_strlit("use_nonfriend_support");
    reveal_strlit("starts_count");
    reveal_strlit("difficulty");
    reveal_strlit("stop_at_final_boss");
    reveal_strlit("stop_at_max_level");
    reveal_strlit("investment_enabled");
    reveal_strlit("investments_count");
    reveal_strlit("stop_when_investment_full");
    reveal_strlit("investment_with_more_score");
    reveal_strlit("start_with_elite_two");
    reveal_strlit("only_start_with_elite_two");
    reveal_strlit("refresh_trader_with_dice");
    reveal_strlit("first_floor_foldartal");
    reveal_strlit("start_foldartal_list");
    reveal_strlit("start_with_two_ideas");
    reveal_strlit("use_foldartal");
    reveal_strlit("check_collapsal_paradigms");
    reveal_strlit("double_check_collapsal_paradigms");
    reveal_strlit("expected_collapsal_paradigms");
    reveal_strlit("monthly_squad_auto_iterate");
    reveal_strlit("monthly_squad_check_comms");
    reveal_strlit("deep_exploration_auto_iterate");
    reveal_strlit("collectible_mode_shopping");
    reveal_strlit("collectible_mode_squad");
    reveal_strlit("collectible_mode_start_list");
    reveal_strlit("start_with_seed");
    assert("difficulty"@.len() != "enable"@.len());
    assert("difficulty"@ != "enable"@);
    assert("difficulty"@.len() != "theme"@.len());
    assert("difficulty"@ != "theme"@);
    assert("difficulty"@.len() != "mode"@.len());
    assert("difficulty"@ != "mode"@);
    assert("difficulty"@.len() != "squad"@.len());
    assert("difficulty"@ != "squad"@);
    assert("difficulty"@.len() != "roles"@.len());
    assert("difficulty"@ != "roles"@);
    assert("difficulty"@.len() != "core_char"@.len());
    assert("difficulty"@ != "core_char"@);
    assert("difficulty"@.len() != "use_support"@.len());
    assert("difficulty"@ != "use_support"@);
    assert("difficulty"@.len() != "use_nonfriend_support"@.len());
    assert("difficulty"@ != "use_nonfriend_support"@);
    assert("difficulty"@.len() != "starts_count"@.len());
    assert("difficulty"@ != "starts_count"@);
    assert("difficulty"@.len() != "stop_at_final_boss"@.len());
    assert("difficulty"@ != "stop_at_final_boss"@);
    assert("difficulty"@.len() != "stop_at_max_level"@.len());
    assert("difficulty"@ != "stop_at_max_level"@);
    assert("difficulty"@.len() != "investment_enabled"@.len());
    assert("difficulty"@ != "investment_enabled"@);
    assert("difficulty"@.len() != "investments_count"@.len());
    assert("difficulty"@ != "investments_count"@);
    assert("difficulty"@.len() != "stop_when_investment_full"@.len());
    assert("difficulty"@ != "stop_when_investment_full"@);
    assert("difficulty"@.len() != "investment_with_more_score"@.len());
    assert("difficulty"@ != "investment_with_more_score"@);
    assert("difficulty"@.len() != "start_with_elite_two"@.len());
    assert("difficulty"@ != "start_with_elite_two"@);
    assert("difficulty"@.len() != "only_start_with_elite_two"@.len());
    assert("difficulty"@ != "only_start_with_elite_two"@);
    assert("difficulty"@.len() != "refresh_trader_with_dice"@.len());
    assert("difficulty"@ != "refresh_trader_with_dice"@);
    assert("difficulty"@.len() != "first_floor_foldartal"@.len());
    assert("difficulty"@ != "first_floor_foldartal"@);
    assert("difficulty"@.len() != "start_foldartal_list"@.len());
    assert("difficulty"@ != "start_foldartal_list"@);
    assert("difficulty"@.len() != "start_with_two_ideas"@.len());
    assert("difficulty"@ != "start_with_two_ideas"@);
    assert("difficulty"@.len() != "use_foldartal"@.len());
    assert("difficulty"@ != "use_foldartal"@);
    assert("difficulty"@.len() != "check_collapsal_paradigms"@.len());
    assert("difficulty"@ != "check_collapsal_paradigms"@);
    assert("difficulty"@.len() != "double_check_collapsal_paradigms"@.len());
    assert("difficulty"@ != "double_check_collapsal_paradigms"@);
    assert("difficulty"@.len() != "expected_collapsal_paradigms"@.len());
    assert("difficulty"@ != "expected_collapsal_paradigms"@);
    assert("difficulty"@.len() != "monthly_squad_auto_iterate"@.len());
    assert("difficulty"@ != "monthly_squad_auto_iterate"@);
    assert("difficulty"@.len() != "monthly_squad_check_comms"@.len());
    assert("difficulty"@ != "monthly_squad_check_comms"@);
    assert("difficulty"@.len() != "deep_exploration_auto_iterate"@.len());
    assert("difficulty"@ != "deep_exploration_auto_iterate"@);
    assert("difficulty"@.len() != "collectible_mode_shopping"@.len());
    assert("difficulty"@ != "collectible_mode_shopping"@);
    assert("difficulty"@.len() != "collectible_mode_squad"@.len());
    assert("difficulty"@ != "collectible_mode_squad"@);
    assert("difficulty"@.len() != "collectible_mode_start_list"@.len());
    assert("difficulty"@ != "collectible_mode_start_list"@);
    assert("difficulty"@.len() != "start_with_seed"@.len());
    assert("difficulty"@ != "start_with_seed"@);
    let b1 = b_opt_bool("enable"@, t.enable);
    let b2 = b_opt_str("theme"@, opt_str_view(t.theme));
    let b3 = b_opt_int("mode"@, t.mode);
    let b4 = b_opt_str("squad"@, opt_str_view(t.squad));
    let b5 = b_opt_str("roles"@, opt_str_view(t.roles));
    let b6 = b_opt_str("core_char"@, opt_str_view(t.core_char));
    let b7 = b_opt_bool("use_support"@, t.use_support);
    let b8 = b_opt_bool("use_nonfriend_support"@, t.use_nonfriend_support);
    let b9 = b_opt_int("starts_count"@, t.starts_count);
    let b10 = b_opt_int("difficulty"@, t.difficulty);
    let b11 = b_opt_bool("stop_at_final_boss"@, t.stop_at_final_boss);
    let b12 = b_opt_bool("stop_at_max_level"@, t.stop_at_max_level);
    let b13 = b_opt_bool("investment_enabled"@, t.investment_enabled);
    let b14 = b_opt_int("investments_count"@, t.investments_count);
    let b15 = b_opt_bool("stop_when_investment_full"@, t.stop_when_investment_full);
    let b16 = b_opt_bool("investment_with_more_score"@, t.investment_with_more_score);
    let b17 = b_opt_bool("start_with_elite_two"@, t.start_with_elite_two);
    let b18 = b_opt_bool("only_start_with_elite_two"@, t.only_start_with_elite_two);
    let b19 = b_opt_bool("refresh_trader_with_dice"@, t.refresh_trader_with_dice);
    let b20 = b_opt_str("first_floor_foldartal"@, opt_str_view(t.first_floor_foldartal));
    let b21 = b_opt_str_list("start_foldartal_list"@, (match t.start_foldartal_list { Option::None => Option::None, Option::Some(l) => Option::Some(strs_view(l@)) }));
    let b22 = b_opt_bool("start_with_two_ideas"@, t.start_with_two_ideas);
    let b23 = b_opt_bool("use_foldartal"@, t.use_foldartal);
    let b24 = b_opt_bool("check_collapsal_paradigms"@, t.check_collapsal_paradigms);
    let b25 = b_opt_bool("double_check_collapsal_paradigms"@, t.double_check_collapsal_paradigms);
    let b26 = b_opt_str_list("expected_collapsal_paradigms"@, (match t.expected_collapsal_paradigms { Option::None => Option::None, Option::Some(l) => Option::Some(strs_view(l@)) }));
    let b27 = b_opt_bool("monthly_squad_auto_iterate"@, t.monthly_squad_auto_iterate);
    let b28 = b_opt_bool("monthly_squad_check_comms"@, t.monthly_squad_check_comms);
    let b29 = b_opt_bool("deep_exploration_auto_iterate"@, t.deep_exploration_auto_iterate);
    let b30 = b_opt_bool("collectible_mode_shopping"@, t.collectible_mode_shopping);
    let b31 = b_opt_str("collectible_mode_squad"@, opt_str_view(t.collectible_mode_squad));
    let b32 = b_opt_bool_map("collectible_mode_start_list"@, (match t.collectible_mode_start_list { Option::None => Option::None, Option::Some(m) => Option::Some(bpairs_view(m@)) }));
    let b33 = b_opt_bool("start_with_seed"@, t.start_with_seed);
    let p1 = b1;
    let p2 = p1 + b2;
    let p3 = p2 + b3;
    let p4 = p3 + b4;
    let p5 = p4 + b5;
    let p6 = p5 + b6;
    let p7 = p6 + b7;
    let p8 = p7 + b8;
    let p9 = p8 + b9;
    let p10 = p9 + b10;
    let p11 = p10 + b11;
    let p12 = p11 + b12;
    let p13 = p12 + b13;
    let p14 = p13 + b14;
    let p15 = p14 + b15;
    let p16 = p15 + b16;
    let p17 = p16 + b17;
    let p18 = p17 + b18;
    let p19 = p18 + b19;
    let p20 = p19 + b20;
    let p21 = p20 + b21;
    let p22 = p21 + b22;
    let p23 = p22 + b23;
    let p24 = p23 + b24;
    let p25 = p24 + b25;
    let p26 = p25 + b26;
    let p27 = p26 + b27;
    let p28 = p27 + b28;
    let p29 = p28 + b29;
    let p30 = p29 + b30;
    let p31 = p30 + b31;
    let p32 = p31 + b32;
    let p33 = p32 + b33;
    assert(roguelike_pairs(t) == p33);
    lemma_doc_get_block(b1, "difficulty"@);
    lemma_doc_get_block(b2, "difficulty"@);
    lemma_doc_get_block(b3, "difficulty"@);
    lemma_doc_get_block(b4, "difficulty"@);
    lemma_doc_get_block(b5, "difficulty"@);
    lemma_doc_get_block(b6, "difficulty"@);
    lemma_doc_get_block(b7, "difficulty"@);
    lemma_doc_get_block(b8, "difficulty"@);
    lemma_doc_get_block(b9, "difficulty"@);
    lemma_doc_get_block(b10, "difficulty"@);
    lemma_doc_get_block(b11, "difficulty"@);
    lemma_doc_get_block(b12, "difficulty"@);
    lemma_doc_get_block(b13, "difficulty"@);
    lemma_doc_get_block(b14, "difficulty"@);
    lemma_doc_get_block(b15, "difficulty"@);
    lemma_doc_get_block(b16, "difficulty"@);
    lemma_doc_get_block(b17, "difficulty"@);
    lemma_doc_get_block(b18, "difficulty"@);
    lemma_doc_get_block(b19, "difficulty"@);
    lemma_doc_get_block(b20, "difficulty"@);
    lemma_doc_get_block(b21, "difficulty"@);
    lemma_doc_get_block(b22, "difficulty"@);
    lemma_doc_get_block(b23, "difficulty"@);
    lemma_doc_get_block(b24, "difficulty"@);
    lemma_doc_get_block(b25, "difficulty"@);
    lemma_doc_get_block(b26, "difficulty"@);
    lemma_doc_get_block(b27, "difficulty"@);
    lemma_doc_get_block(b28, "difficulty"@);
    lemma_doc_get_block(b29, "difficulty"@);
    lemma_doc_get_block(b30, "difficulty"@);
    lemma_doc_get_block(b31, "difficulty"@);
    lemma_doc_get_block(b32, "difficulty"@);
    lemma_doc_get_block(b33, "difficulty"@);
    lemma_doc_get_concat(p32, b33, "difficulty"@);
    lemma_doc_get_concat(p31, b32, "difficulty"@);
    lemma_doc_get_concat(p30, b31, "difficulty"@);
    lemma_doc_get_concat(p29, b30, "difficulty"@);
    lemma_doc_get_concat(p28, b29, "difficulty"@);
    lemma_doc_get_concat(p27, b28, "difficulty"@);
    lemma_doc_get_concat(p26, b27, "difficulty"@);
    lemma_doc_get_concat(p25, b26, "difficulty"@);
    lemma_doc_get_concat(p24, b25, "difficulty"@);
    lemma_doc_get_concat(p23, b24, "difficulty"@);
    lemma_doc_get_concat(p22, b23, "difficulty"@);
    lemma_doc_get_concat(p21, b22, "difficulty"@);
    lemma_doc_get_concat(p20, b21, "difficulty"@);
    lemma_doc_get_concat(p19, b20, "difficulty"@);
    lemma_doc_get_concat(p18, b19, "difficulty"@);
    lemma_doc_get_concat(p17, b18, "difficulty"@);
    lemma_doc_get_concat(p16, b17, "difficulty"@);
    lemma_doc_get_concat(p15, b16, "difficulty"@);
    lemma_doc_get_concat(p14, b15, "difficulty"@);
    lemma_doc_get_concat(p13, b14, "difficulty"@);
    lemma_doc_get_concat(p12, b13, "difficulty"@);
    lemma_doc_get_concat(p11, b12, "difficulty"@);
    lemma_doc_get_concat(p10, b11, "difficulty"@);
    lemma_doc_get_concat(p9, b10, "difficulty"@);
    lemma_doc_get_concat(p8, b9, "difficulty"@);
    lemma_doc_get_concat(p7, b8, "difficulty"@);
    lemma_doc_get_concat(p6, b7, "difficulty"@);
    lemma_doc_get_concat(p5, b6, "difficulty"@);
    lemma_doc_get_concat(p4, b5, "difficulty"@);
    lemma_doc_get_concat(p3, b4, "difficulty"@);
    lemma_doc_get_concat(p2, b3, "difficulty"@);
    lemma_doc_get_concat(p1, b2, "difficulty"@);
}

/// What lookup of `stop_at_final_boss` finds in the members of a Roguelike task.
proof fn roguelike_get_stop_at_final_boss(t: RoguelikeTask)
    ensures
        doc_get(roguelike_pairs(t), "stop_at_final_boss"@) == (match t.stop_at_final_boss { Option::None => Option::<JsonV>::None, Option::Some(b) => Option::Some(JsonV::Sc(ScalarV::Bool(b))) }),
{
    reveal_strlit("enable");
    reveal_strlit("theme");
    reveal_strlit("mode");
    reveal_strlit("squad");
    reveal_strlit("roles");
    reveal_strlit("core_char");
    reveal_strlit("use_support");
    reveal_strlit("use_nonfriend_support");
    reveal_strlit("starts_count");
    reveal_strlit("difficulty");
    reveal_strlit("stop_at_final_boss");
    reveal_strlit("stop_at_max_level");
    reveal_strlit("investment_enabled");
    reveal_strlit("investments_count");
    reveal_strlit("stop_when_investment_full");
    reveal_strlit("investment_with_more_score");
    reveal_strlit("start_with_elite_two");
    reveal_strlit("only_start_with_elite_two");
    reveal_strlit("refresh_trader_with_dice");
    reveal_strlit("first_floor_foldartal");
    reveal_strlit("start_foldartal_list");
    reveal_strlit("start_with_two_ideas");
    reveal_strlit("use_foldartal");
    reveal_strlit("check_collapsal_paradigms");
    reveal_strlit("double_check_collapsal_paradigms");
    reveal_strlit("expected_collapsal_paradigms");
    reveal_strlit("monthly_squad_auto_iterate");
    reveal_strlit("monthly_squad_check_comms");
    reveal_strlit("deep_exploration_auto_iterate");
    reveal_strlit("collectible_mode_shopping");
    reveal_strlit("collectible_mode_squad");
    reveal_strlit("collectible_mode_start_list");
    reveal_strlit("start_with_seed");
    assert("stop_at_final_boss"@.len() != "enable"@.len());
    assert("stop_at_final_boss"@ != "enable"@);
    assert("stop_at_final_boss"@.len() != "theme"@.len());
    assert("stop_at_final_boss"@ != "theme"@);
    assert("stop_at_final_boss"@.len() != "mode"@.len());
    assert("stop_at_final_boss"@ != "mode"@);
    assert("stop_at_final_boss"@.len() != "squad"@.len());
    assert("stop_at_final_boss"@ != "squad"@);
    assert("stop_at_final_boss"@.len() != "roles"@.len());
    assert("stop_at_final_boss"@ != "roles"@);
    assert("stop_at_final_boss"@.len() != "core_char"@.len());
    assert("stop_at_final_boss"@ != "core_char"@);
    assert("stop_at_final_boss"@.len() != "use_support"@.len());
    assert("stop_at_final_boss"@ != "use_support"@);
    assert("stop_at_final_boss"@.len() != "use_nonfriend_support"@.len());
    assert("stop_at_final_boss"@ != "use_nonfriend_support"@);
    assert("stop_at_final_boss"@.len() != "starts_count"@.len());
    assert("stop_at_final_boss"@ != "starts_count"@);
    assert("stop_at_final_boss"@.len() != "difficulty"@.len());
    assert("stop_at_final_boss"@ != "difficulty"@);
    assert("stop_at_final_boss"@.len() != "stop_at_max_level"@.len());
    assert("stop_at_final_boss"@ != "stop_at_max_level"@);
    assert("stop_at_final_boss"@[0] != "investment_enabled"@[0]);
    assert("stop_at_final_boss"@ != "investment_enabled"@);
    assert("stop_at_final_boss"@.len() != "investments_count"@.len());
    assert("stop_at_final_boss"@ != "investments_count"@);
    assert("stop_at_final_boss"@.len() != "stop_when_investment_full"@.len());
    assert("stop_at_final_boss"@ != "stop_when_investment_full"@);
    assert("stop_at_final_boss"@.len() != "investment_with_more_score"@.len());
    assert("stop_at_final_boss"@ != "investment_with_more_score"@);
    assert("stop_at_final_boss"@.len() != "start_with_elite_two"@.len());
    assert("stop_at_final_boss"@ != "start_with_elite_two"@);
    assert("stop_at_final_boss"@.len() != "only_start_with_elite_two"@.len());
    assert("stop_at_final_boss"@ != "only_start_with_elite_two"@);
    assert("stop_at_final_boss"@.len() != "refresh_trader_with_dice"@.len());
    assert("stop_at_final_boss"@ != "refresh_trader_with_dice"@);
    assert("stop_at_final_boss"@.len() != "first_floor_foldartal"@.len());
    assert("stop_at_final_boss"@ != "first_floor_foldartal"@);
    assert("stop_at_final_boss"@.len() != "start_foldartal_list"@.len());
    assert("stop_at_final_boss"@ != "start_foldartal_list"@);
    assert("stop_at_final_boss"@.len() != "start_with_two_ideas"@.len());
    assert("stop_at_final_boss"@ != "start_with_two_ideas"@);
    assert("stop_at_final_boss"@.len() != "use_foldartal"@.len());
    assert("stop_at_final_boss"@ != "use_foldartal"@);
    assert("stop_at_final_boss"@.len() != "check_collapsal_paradigms"@.len());
    assert("stop_at_final_boss"@ != "check_collapsal_paradigms"@);
    assert("stop_at_final_boss"@.len() != "double_check_collapsal_paradigms"@.len());
    assert("stop_at_final_boss"@ != "double_check_collapsal_paradigms"@);
    assert("stop_at_final_boss"@.len() != "expected_collapsal_paradigms"@.len());
    assert("stop_at_final_boss"@ != "expected_collapsal_paradigms"@);
    assert("stop_at_final_boss"@.len() != "monthly_squad_auto_iterate"@.len());
    assert("stop_at_final_boss"@ != "monthly_squad_auto_iterate"@);
    assert("stop_at_final_boss"@.len() != "monthly_squad_check_comms"@.len());
    assert("stop_at_final_boss"@ != "monthly_squad_check_comms"@);
    assert("stop_at_final_boss"@.len() != "deep_exploration_auto_iterate"@.len());
    assert("stop_at_final_boss"@ != "deep_exploration_auto_iterate"@);
    assert("stop_at_final_boss"@.len() != "collectible_mode_shopping"@.len());
    assert("stop_at_final_boss"@ != "collectible_mode_shopping"@);
    assert("stop_at_final_boss"@.len() != "collectible_mode_squad"@.len());
    assert("stop_at_final_boss"@ != "collectible_mode_squad"@);
    assert("stop_at_final_boss"@.len() != "collectible_mode_start_list"@.len());
    assert("stop_at_final_boss"@ != "collectible_mode_start_list"@);
    assert("stop_at_final_boss"@.len() != "start_with_seed"@.len());
    assert("stop_at_final_boss"@ != "start_with_seed"@);
    let b1 = b_opt_bool("enable"@, t.enable);
    let b2 = b_opt_str("theme"@, opt_str_view(t.theme));
    let b3 = b_opt_int("mode"@, t.mode);
    let b4 = b_opt_str("squad"@, opt_str_view(t.squad));
    let b5 = b_opt_str("roles"@, opt_str_view(t.roles));
    let b6 = b_opt_str("core_char"@, opt_str_view(t.core_char));
    let b7 = b_opt_bool("use_support"@, t.use_support);
    let b8 = b_opt_bool("use_nonfriend_support"@, t.use_nonfriend_support);
    let b9 = b_opt_int("starts_count"@, t.starts_count);
    let b10 = b_opt_int("difficulty"@, t.difficulty);
    let b11 = b_opt_bool("stop_at_final_boss"@, t.stop_at_final_boss);
    let b12 = b_opt_bool("stop_at_max_level"@, t.stop_at_max_level);
    let b13 = b_opt_bool("investment_enabled"@, t.investment_enabled);
    let b14 = b_opt_int("investments_count"@, t.investments_count);
    let b15 = b_opt_bool("stop_when_investment_full"@, t.stop_when_investment_full);
    let b16 = b_opt_bool("investment_with_more_score"@, t.investment_with_more_score);
    let b17 = b_opt_bool("start_with_elite_two"@, t.start_with_elite_two);
    let b18 = b_opt_bool("only_start_with_elite_two"@, t.only_start_with_elite_two);
    let b19 = b_opt_bool("refresh_trader_with_dice"@, t.refresh_trader_with_dice);
    let b20 = b_opt_str("first_floor_foldartal"@, opt_str_view(t.first_floor_foldartal));
    let b21 = b_opt_str_list("start_foldartal_list"@, (match t.start_foldartal_list { Option::None => Option::None, Option::Some(l) => Option::Some(strs_view(l@)) }));
    let b22 = b_opt_bool("start_with_two_ideas"@, t.start_with_two_ideas);
    let b23 = b_opt_bool("use_foldartal"@, t.use_foldartal);
    let b24 = b_opt_bool("check_collapsal_paradigms"@, t.check_collapsal_paradigms);
    let b25 = b_opt_bool("double_check_collapsal_paradigms"@, t.double_check_collapsal_paradigms);
    let b26 = b_opt_str_list("expected_collapsal_paradigms"@, (match t.expected_collapsal_paradigms { Option::None => Option::None, Option::Some(l) => Option::Some(strs_view(l@)) }));
    let b27 = b_opt_bool("monthly_squad_auto_iterate"@, t.monthly_squad_auto_iterate);
    let b28 = b_opt_bool("monthly_squad_check_comms"@, t.monthly_squad_check_comms);
    let b29 = b_opt_bool("deep_exploration_auto_iterate"@, t.deep_exploration_auto_iterate);
    let b30 = b_opt_bool("collectible_mode_shopping"@, t.collectible_mode_shopping);
    let b31 = b_opt_str("collectible_mode_squad"@, opt_str_view(t.collectible_mode_squad));
    let b32 = b_opt_bool_map("collectible_mode_start_list"@, (match t.collectible_mode_start_list { Option::None => Option::None, Option::Some(m) => Option::Some(bpairs_view(m@)) }));
    let b33 = b_opt_bool("start_with_seed"@, t.start_with_seed);
    let p1 = b1;
    let p2 = p1 + b2;
    let p3 = p2 + b3;
    let p4 = p3 + b4;
    let p5 = p4 + b5;
    let p6 = p5 + b6;
    let p7 = p6 + b7;
    let p8 = p7 + b8;
    let p9 = p8 + b9;
    let p10 = p9 + b10;
    let p11 = p10 + b11;
    let p12 = p11 + b12;
    let p13 = p12 + b13;
    let p14 = p13 + b14;
    let p15 = p14 + b15;
    let p16 = p15 + b16;
    let p17 = p16 + b17;
    let p18 = p17 + b18;
    let p19 = p18 + b19;
    let p20 = p19 + b20;
    let p21 = p20 + b21;
    let p22 = p21 + b22;
    let p23 = p22 + b23;
    let p24 = p23 + b24;
    let p25 = p24 + b25;
    let p26 = p25 + b26;
    let p27 = p26 + b27;
    let p28 = p27 + b28;
    let p29 = p28 + b29;
    let p30 = p29 + b30;
    let p31 = p30 + b31;
    let p32 = p31 + b32;
    let p33 = p32 + b33;
    assert(roguelike_pairs(t) == p33);
    lemma_doc_get_block(b1, "stop_at_final_boss"@);
    lemma_doc_get_block(b2, "stop_at_final_boss"@);
    lemma_doc_get_block(b3, "stop_at_final_boss"@);
    lemma_doc_get_block(b4, "stop_at_final_boss"@);
    lemma_doc_get_block(b5, "stop_at_final_boss"@);
    lemma_doc_get_block(b6, "stop_at_final_boss"@);
    lemma_doc_get_block(b7, "stop_at_final_boss"@);
    lemma_doc_get_block(b8, "stop_at_final_boss"@);
    lemma_doc_get_block(b9, "stop_at_final_boss"@);
    lemma_doc_get_block(b10, "stop_at_final_boss"@);
    lemma_doc_get_block(b11, "stop_at_final_boss"@);
    lemma_doc_get_block(b12, "stop_at_final_boss"@);
    lemma_doc_get_block(b13, "stop_at_final_boss"@);
    lemma_doc_get_block(b14, "stop_at_final_boss"@);
    lemma_doc_get_block(b15, "stop_at_final_boss"@);
    lemma_doc_get_block(b16, "stop_at_final_boss"@);
    lemma_doc_get_block(b17, "stop_at_final_boss"@);
    lemma_doc_get_block(b18, "stop_at_final_boss"@);
    lemma_doc_get_block(b19, "stop_at_final_boss"@);
    lemma_doc_get_block(b20, "stop_at_final_boss"@);
    lemma_doc_get_block(b21, "stop_at_final_boss"@);
    lemma_doc_get_block(b22, "stop_at_final_boss"@);
    lemma_doc_get_block(b23, "stop_at_final_boss"@);
    lemma_doc_get_block(b24, "stop_at_final_boss"@);
    lemma_doc_get_block(b25, "stop_at_final_boss"@);
    lemma_doc_get_block(b26, "stop_at_final_boss"@);
    lemma_doc_get_block(b27, "stop_at_final_boss"@);
    lemma_doc_get_block(b28, "stop_at_final_boss"@);
    lemma_doc_get_block(b29, "stop_at_final_boss"@);
    lemma_doc_get_block(b30, "stop_at_final_boss"@);
    lemma_doc_get_block(b31, "stop_at_final_boss"@);
    lemma_doc_get_block(b32, "stop_at_final_boss"@);
    lemma_doc_get_block(b33, "stop_at_final_boss"@);
    lemma_doc_get_concat(p32, b33, "stop_at_final_boss"@);
    lemma_doc_get_concat(p31, b32, "stop_at_final_boss"@);
    lemma_doc_get_concat(p30, b31, "stop_at_final_boss"@);
    lemma_doc_get_concat(p29, b30, "stop_at_final_boss"@);
    lemma_doc_get_concat(p28, b29, "stop_at_final_boss"@);
    lemma_doc_get_concat(p27, b28, "stop_at_final_boss"@);
    lemma_doc_get_concat(p26, b27, "stop_at_final_boss"@);
    lemma_doc_get_concat(p25, b26, "stop_at_final_boss"@);
    lemma_doc_get_concat(p24, b25, "stop_at_final_boss"@);
    lemma_doc_get_concat(p23, b24, "stop_at_final_boss"@);
    lemma_doc_get_concat(p22, b23, "stop_at_final_boss"@);
    lemma_doc_get_concat(p21, b22, "stop_at_final_boss"@);
    lemma_doc_get_concat(p20, b21, "stop_at_final_boss"@);
    lemma_doc_get_concat(p19, b20, "stop_at_final_boss"@);
    lemma_doc_get_concat(p18, b19, "stop_at_final_boss"@);
    lemma_doc_get_concat(p17, b18, "stop_at_final_boss"@);
    lemma_doc_get_concat(p16, b17, "stop_at_final_boss"@);
    lemma_doc_get_concat(p15, b16, "stop_at_final_boss"@);
    lemma_doc_get_concat(p14, b15, "stop_at_final_boss"@);
    lemma_doc_get_concat(p13, b14, "stop_at_final_boss"@);
    lemma_doc_get_concat(p12, b13, "stop_at_final_boss"@);
    lemma_doc_get_concat(p11, b12, "stop_at_final_boss"@);
    lemma_doc_get_concat(p10, b11, "stop_at_final_boss"@);
    lemma_doc_get_concat(p9, b10, "stop_at_final_boss"@);
    lemma_doc_get_concat(p8, b9, "stop_at_final_boss"@);
    lemma_doc_get_concat(p7, b8, "stop_at_final_boss"@);
    lemma_doc_get_concat(p6, b7, "stop_at_final_boss"@);
    lemma_doc_get_concat(p5, b6, "stop_at_final_boss"@);
    lemma_doc_get_concat(p4, b5, "stop_at_final_boss"@);
    lemma_doc_get_concat(p3, b4, "stop_at_final_boss"@);
    lemma_doc_get_concat(p2, b3, "stop_at_final_boss"@);
    lemma_doc_get_concat(p1, b2, "stop_at_final_boss"@);
}

/// What lookup of `stop_at_max_level` finds in the members of a Roguelike task.
proof fn roguelike_get_stop_at_max_level(t: RoguelikeTask)
    ensures
        doc_get(roguelike_pairs(t), "stop_at_max_level"@) == (match t.stop_at_max_level { Option::None => Option::<JsonV>::None, Option::Some(b) => Option::Some(JsonV::Sc(ScalarV::Bool(b))) }),
{
    reveal_strlit("enable");
    reveal_strlit("theme");
    reveal_strlit("mode");
    reveal_strlit("squad");
    reveal_strlit("roles");
    reveal_strlit("core_char");
    reveal_strlit("use_support");
    reveal_strlit("use_nonfriend_support");
    reveal_strlit("starts_count");
    reveal_strlit("difficulty");
    reveal_strlit("stop_at_final_boss");
    reveal_strlit("stop_at_max_level");
    reveal_strlit("investment_enabled");
    reveal_strlit("investments_count");
    reveal_strlit("stop_when_investment_full");
    reveal_strlit("investment_with_more_score");
    reveal_strlit("start_with_elite_two");
    reveal_strlit("only_start_with_elite_two");
    reveal_strlit("refresh_trader_with_dice");
    reveal_strlit("first_floor_foldartal");
    reveal_strlit("start_foldartal_list");
    reveal_strlit("start_with_two_ideas");
    reveal_strlit("use_foldartal");
    reveal_strlit("check_collapsal_paradigms");
    reveal_strlit("double_check_collapsal_paradigms");
    reveal_strlit("expected_collapsal_paradigms");
    reveal_strlit("monthly_squad_auto_iterate");
    reveal_strlit("monthly_squad_check_comms");
    reveal_strlit("deep_exploration_auto_iterate");
    reveal_strlit("collectible_mode_shopping");
    reveal_strlit("collectible_mode_squad");
    reveal_strlit("collectible_mode_start_list");
    reveal_strlit("start_with_seed");
    assert("stop_at_max_level"@.len() != "enable"@.len());
    assert("stop_at_max_level"@ != "enable"@);
    assert("stop_at_max_level"@.len() != "theme"@.len());
    assert("stop_at_max_level"@ != "theme"@);
    assert("stop_at_max_level"@.len() != "mode"@.len());
    assert("stop_at_max_level"@ != "mode"@);
    assert("stop_at_max_level"@.len() != "squad"@.len());
    assert("stop_at_max_level"@ != "squad"@);
    assert("stop_at_max_level"@.len() != "roles"@.len());
    assert("stop_at_max_level"@ != "roles"@);
    assert("stop_at_max_level"@.len() != "core_char"@.len());
    assert("stop_at_max_level"@ != "core_char"@);
    assert("stop_at_max_level"@.len() != "use_support"@.len());
    assert("stop_at_max_level"@ != "use_support"@);
    assert("stop_at_max_level"@.len() != "use_nonfriend_support"@.len());
    assert("stop_at_max_level"@ != "use_nonfriend_support"@);
    assert("stop_at_max_level"@.len() != "starts_count"@.len());
    assert("stop_at_max_level"@ != "starts_count"@);
    assert("stop_at_max_level"@.len() != "difficulty"@.len());
    assert("stop_at_max_level"@ != "difficulty"@);
    assert("stop_at_max_level"@.len() != "stop_at_final_boss"@.len());
    assert("stop_at_max_level"@ != "stop_at_final_boss"@);
    assert("stop_at_max_level"@.len() != "investment_enabled"@.len());
    assert("stop_at_max_level"@ != "investment_enabled"@);
    assert("stop_at_max_level"@[0] != "investments_count"@[0]);
    assert("stop_at_max_level"@ != "investments_count"@);
    assert("stop_at_max_level"@.len() != "stop_when_investment_full"@.len());
    assert("stop_at_max_level"@ != "stop_when_investment_full"@);
    assert("stop_at_max_level"@.len() != "investment_with_more_score"@.len());
    assert("stop_at_max_level"@ != "investment_with_more_score"@);
    assert("stop_at_max_level"@.len() != "start_with_elite_two"@.len());
    assert("stop_at_max_level"@ != "start_with_elite_two"@);
    assert("stop_at_max_level"@.len() != "only_start_with_elite_two"@.len());
    assert("stop_at_max_level"@ != "only_start_with_elite_two"@);
    assert("stop_at_max_level"@.len() != "refresh_trader_with_dice"@.len());
    assert("stop_at_max_level"@ != "refresh_trader_with_dice"@);
    assert("stop_at_max_level"@.len() != "first_floor_foldartal"@.len());
    assert("stop_at_max_level"@ != "first_floor_foldartal"@);
    assert("stop_at_max_level"@.len() != "start_foldartal_list"@.len());
    assert("stop_at_max_level"@ != "start_foldartal_list"@);
    assert("stop_at_max_level"@.len() != "start_with_two_ideas"@.len());
    assert("stop_at_max_level"@ != "start_with_two_ideas"@);
    assert("stop_at_max_level"@.len() != "use_foldartal"@.len());
    assert("stop_at_max_level"@ != "use_foldartal"@);
    assert("stop_at_max_level"@.len() != "check_collapsal_paradigms"@.len());
    assert("stop_at_max_level"@ != "check_collapsal_paradigms"@);
    assert("stop_at_max_level"@.len() != "double_check_collapsal_paradigms"@.len());
    assert("stop_at_max_level"@ != "double_check_collapsal_paradigms"@);
    assert("stop_at_max_level"@.len() != "expected_collapsal_paradigms"@.len());
    assert("stop_at_max_level"@ != "expected_collapsal_paradigms"@);
    assert("stop_at_max_level"@.len() != "monthly_squad_auto_iterate"@.len());
    assert("stop_at_max_level"@ != "monthly_squad_auto_iterate"@);
    assert("stop_at_max_level"@.len() != "monthly_squad_check_comms"@.len());
    assert("stop_at_max_level"@ != "monthly_squad_check_comms"@);
    assert("stop_at_max_level"@.len() != "deep_exploration_auto_iterate"@.len());
    assert("stop_at_max_level"@ != "deep_exploration_auto_iterate"@);
    assert("stop_at_max_level"@.len() != "collectible_mode_shopping"@.len());
    assert("stop_at_max_level"@ != "collectible_mode_shopping"@);
    assert("stop_at_max_level"@.len() != "collectible_mode_squad"@.len());
    assert("stop_at_max_level"@ != "collectible_mode_squad"@);
    assert("stop_at_max_level"@.len() != "collectible_mode_start_list"@.len());
    assert("stop_at_max_level"@ != "collectible_mode_start_list"@);
    assert("stop_at_max_level"@.len() != "start_with_seed"@.len());
    assert("stop_at_max_level"@ != "start_with_seed"@);
    let b1 = b_opt_bool("enable"@, t.enable);
    let b2 = b_opt_str("theme"@, opt_str_view(t.theme));
    let b3 = b_opt_int("mode"@, t.mode);
    let b4 = b_opt_str("squad"@, opt_str_view(t.squad));
    let b5 = b_opt_str("roles"@, opt_str_view(t.roles));
    let b6 = b_opt_str("core_char"@, opt_str_view(t.core_char));
    let b7 = b_opt_bool("use_support"@, t.use_support);
    let b8 = b_opt_bool("use_nonfriend_support"@, t.use_nonfriend_support);
    let b9 = b_opt_int("starts_count"@, t.starts_count);
    let b10 = b_opt_int("difficulty"@, t.difficulty);
    let b11 = b_opt_bool("stop_at_final_boss"@, t.stop_at_final_boss);
    let b12 = b_opt_bool("stop_at_max_level"@, t.stop_at_max_level);
    let b13 = b_opt_bool("investment_enabled"@, t.investment_enabled);
    let b14 = b_opt_int("investments_count"@, t.investments_count);
    let b15 = b_opt_bool("stop_when_investment_full"@, t.stop_when_investment_full);
    let b16 = b_opt_bool("investment_with_more_score"@, t.investment_with_more_score);
    let b17 = b_opt_bool("start_with_elite_two"@, t.start_with_elite_two);
    let b18 = b_opt_bool("only_start_with_elite_two"@, t.only_start_with_elite_two);
    let b19 = b_opt_bool("refresh_trader_with_dice"@, t.refresh_trader_with_dice);
    let b20 = b_opt_str("first_floor_foldartal"@, opt_str_view(t.first_floor_foldartal));
    let b21 = b_opt_str_list("start_foldartal_list"@, (match t.start_foldartal_list { Option::None => Option::None, Option::Some(l) => Option::Some(strs_view(l@)) }));
    let b22 = b_opt_bool("start_with_two_ideas"@, t.start_with_two_ideas);
    let b23 = b_opt_bool("use_foldartal"@, t.use_foldartal);
    let b24 = b_opt_bool("check_collapsal_paradigms"@, t.check_collapsal_paradigms);
    let b25 = b_opt_bool("double_check_collapsal_paradigms"@, t.double_check_collapsal_paradigms);
    let b26 = b_opt_str_list("expected_collapsal_paradigms"@, (match t.expected_collapsal_paradigms { Option::None => Option::None, Option::Some(l) => Option::Some(strs_view(l@)) }));
    let b27 = b_opt_bool("monthly_squad_auto_iterate"@, t.monthly_squad_auto_iterate);
    let b28 = b_opt_bool("monthly_squad_check_comms"@, t.monthly_squad_check_comms);
    let b29 = b_opt_bool("deep_exploration_auto_iterate"@, t.deep_exploration_auto_iterate);
    let b30 = b_opt_bool("collectible_mode_shopping"@, t.collectible_mode_shopping);
    let b31 = b_opt_str("collectible_mode_squad"@, opt_str_view(t.collectible_mode_squad));
    let b32 = b_opt_bool_map("collectible_mode_start_list"@, (match t.collectible_mode_start_list { Option::None => Option::None, Option::Some(m) => Option::Some(bpairs_view(m@)) }));
    let b33 = b_opt_bool("start_with_seed"@, t.start_with_seed);
    let p1 = b1;
    let p2 = p1 + b2;
    let p3 = p2 + b3;
    let p4 = p3 + b4;
    let p5 = p4 + b5;
    let p6 = p5 + b6;
    let p7 = p6 + b7;
    let p8 = p7 + b8;
    let p9 = p8 + b9;
    let p10 = p9 + b10;
    let p11 = p10 + b11;
    let p12 = p11 + b12;
    let p13 = p12 + b13;
    let p14 = p13 + b14;
    let p15 = p14 + b15;
    let p16 = p15 + b16;
    let p17 = p16 + b17;
    let p18 = p17 + b18;
    let p19 = p18 + b19;
    let p20 = p19 + b20;
    let p21 = p20 + b21;
    let p22 = p21 + b22;
    let p23 = p22 + b23;
    let p24 = p23 + b24;
    let p25 = p24 + b25;
    let p26 = p25 + b26;
    let p27 = p26 + b27;
    let p28 = p27 + b28;
    let p29 = p28 + b29;
    let p30 = p29 + b30;
    let p31 = p30 + b31;
    let p32 = p31 + b32;
    let p33 = p32 + b33;
    assert(roguelike_pairs(t) == p33);
    lemma_doc_get_block(b1, "stop_at_max_level"@);
    lemma_doc_get_block(b2, "stop_at_max_level"@);
    lemma_doc_get_block(b3, "stop_at_max_level"@);
    lemma_doc_get_block(b4, "stop_at_max_level"@);
    lemma_doc_get_block(b5, "stop_at_max_level"@);
    lemma_doc_get_block(b6, "stop_at_max_level"@);
    lemma_doc_get_block(b7, "stop_at_max_level"@);
    lemma_doc_get_block(b8, "stop_at_max_level"@);
    lemma_doc_get_block(b9, "stop_at_max_level"@);
    lemma_doc_get_block(b10, "stop_at_max_level"@);
    lemma_doc_get_block(b11, "stop_at_max_level"@);
    lemma_doc_get_block(b12, "stop_at_max_level"@);
    lemma_doc_get_block(b13, "stop_at_max_level"@);
    lemma_doc_get_block(b14, "stop_at_max_level"@);
    lemma_doc_get_block(b15, "stop_at_max_level"@);
    lemma_doc_get_block(b16, "stop_at_max_level"@);
    lemma_doc_get_block(b17, "stop_at_max_level"@);
    lemma_doc_get_block(b18, "stop_at_max_level"@);
    lemma_doc_get_block(b19, "stop_at_max_level"@);
    lemma_doc_get_block(b20, "stop_at_max_level"@);
    lemma_doc_get_block(b21, "stop_at_max_level"@);
    lemma_doc_get_block(b22, "stop_at_max_level"@);
    lemma_doc_get_block(b23, "stop_at_max_level"@);
    lemma_doc_get_block(b24, "stop_at_max_level"@);
    lemma_doc_get_block(b25, "stop_at_max_level"@);
    lemma_doc_get_block(b26, "stop_at_max_level"@);
    lemma_doc_get_block(b27, "stop_at_max_level"@);
    lemma_doc_get_block(b28, "stop_at_max_level"@);
    lemma_doc_get_block(b29, "stop_at_max_level"@);
    lemma_doc_get_block(b30, "stop_at_max_level"@);
    lemma_doc_get_block(b31, "stop_at_max_level"@);
    lemma_doc_get_block(b32, "stop_at_max_level"@);
    lemma_doc_get_block(b33, "stop_at_max_level"@);
    lemma_doc_get_concat(p32, b33, "stop_at_max_level"@);
    lemma_doc_get_concat(p31, b32, "stop_at_max_level"@);
    lemma_doc_get_concat(p30, b31, "stop_at_max_level"@);
    lemma_doc_get_concat(p29, b30, "stop_at_max_level"@);
    lemma_doc_get_concat(p28, b29, "stop_at_max_level"@);
    lemma_doc_get_concat(p27, b28, "stop_at_max_level"@);
    lemma_doc_get_concat(p26, b27, "stop_at_max_level"@);
    lemma_doc_get_concat(p25, b26, "stop_at_max_level"@);
    lemma_doc_get_concat(p24, b25, "stop_at_max_level"@);
    lemma_doc_get_concat(p23, b24, "stop_at_max_level"@);
    lemma_doc_get_concat(p22, b23, "stop_at_max_level"@);
    lemma_doc_get_concat(p21, b22, "stop_at_max_level"@);
    lemma_doc_get_concat(p20, b21, "stop_at_max_level"@);
    lemma_doc_get_concat(p19, b20, "stop_at_max_level"@);
    lemma_doc_get_concat(p18, b19, "stop_at_max_level"@);
    lemma_doc_get_concat(p17, b18, "stop_at_max_level"@);
    lemma_doc_get_concat(p16, b17, "stop_at_max_level"@);
    lemma_doc_get_concat(p15, b16, "stop_at_max_level"@);
    lemma_doc_get_concat(p14, b15, "stop_at_max_level"@);
    lemma_doc_get_concat(p13, b14, "stop_at_max_level"@);
    lemma_doc_get_concat(p12, b13, "stop_at_max_level"@);
    lemma_doc_get_concat(p11, b12, "stop_at_max_level"@);
    lemma_doc_get_concat(p10, b11, "stop_at_max_level"@);
    lemma_doc_get_concat(p9, b10, "stop_at_max_level"@);
    lemma_doc_get_concat(p8, b9, "stop_at_max_level"@);
    lemma_doc_get_concat(p7, b8, "stop_at_max_level"@);
    lemma_doc_get_concat(p6, b7, "stop_at_max_level"@);
    lemma_doc_get_concat(p5, b6, "stop_at_max_level"@);
    lemma_doc_get_concat(p4, b5, "stop_at_max_level"@);
    lemma_doc_get_concat(p3, b4, "stop_at_max_level"@);
    lemma_doc_get_concat(p2, b3, "stop_at_max_level"@);
    lemma_doc_get_concat(p1, b2, "stop_at_max_level"@);
}

/// What lookup of `investment_enabled` finds in the members of a Roguelike task.
proof fn roguelike_get_investment_enabled(t: RoguelikeTask)
    ensures
        doc_get(roguelike_pairs(t), "investment_enabled"@) == (match t.investment_enabled { Option::None => Option::<JsonV>::None, Option::Some(b) => Option::Some(JsonV::Sc(ScalarV::Bool(b))) }),
{
    reveal_strlit("enable");
    reveal_strlit("theme");
    reveal_strlit("mode");
    reveal_strlit("squad");
    reveal_strlit("roles");
    reveal_strlit("core_char");
    reveal_strlit("use_support");
    reveal_strlit("use_nonfriend_support");
    reveal_strlit("starts_count");
    reveal_strlit("difficulty");
    reveal_strlit("stop_at_final_boss");
    reveal_strlit("stop_at_max_level");
    reveal_strlit("investment_enabled");
    reveal_strlit("investments_count");
    reveal_strlit("stop_when_investment_full");
    reveal_strlit("investment_with_more_score");
    reveal_strlit("start_with_elite_two");
    reveal_strlit("only_start_with_elite_two");
    reveal_strlit("refresh_trader_with_dice");
    reveal_strlit("first_floor_foldartal");
    reveal_strlit("start_foldartal_list");
    reveal_strlit("start_with_two_ideas");
    reveal_strlit("use_foldartal");
    reveal_strlit("check_collapsal_paradigms");
    reveal_strlit("double_check_collapsal_paradigms");
    reveal_strlit("expected_collapsal_paradigms");
    reveal_strlit("monthly_squad_auto_iterate");
    reveal_strlit("monthly_squad_check_comms");
    reveal_strlit("deep_exploration_auto_iterate");
    reveal_strlit("collectible_mode_shopping");
    reveal_strlit("collectible_mode_squad");
    reveal_strlit("collectible_mode_start_list");
    reveal_strlit("start_with_seed");
    assert("investment_enabled"@.len() != "enable"@.len());
    assert("investment_enabled"@ != "enable"@);
    assert("investment_enabled"@.len() != "theme"@.len());
    assert("investment_enabled"@ != "theme"@);
    assert("investment_enabled"@.len() != "mode"@.len());
    assert("investment_enabled"@ != "mode"@);
    assert("investment_enabled"@.len() != "squad"@.len());
    assert("investment_enabled"@ != "squad"@);
    assert("investment_enabled"@.len() != "roles"@.len());
    assert("investment_enabled"@ != "roles"@);
    assert("investment_enabled"@.len() != "core_char"@.len());
    assert("investment_enabled"@ != "core_char"@);
    assert("investment_enabled"@.len() != "use_support"@.len());
    assert("investment_enabled"@ != "use_support"@);
    assert("investment_enabled"@.len() != "use_nonfriend_support"@.len());
    assert("investment_enabled"@ != "use_nonfriend_support"@);
    assert("investment_enabled"@.len() != "starts_count"@.len());
    assert("investment_enabled"@ != "starts_count"@);
    assert("investment_enabled"@.len() != "difficulty"@.len());
    assert("investment_enabled"@ != "difficulty"@);
    assert("investment_enabled"@[0] != "stop_at_final_boss"@[0]);
    assert("investment_enabled"@ != "stop_at_final_boss"@);
    assert("investment_enabled"@.len() != "stop_at_max_level"@.len());
    assert("investment_enabled"@ != "stop_at_max_level"@);
    assert("investment_enabled"@.len() != "investments_count"@.len());
    assert("investment_enabled"@ != "investments_count"@);
    assert("investment_enabled"@.len() != "stop_when_investment_full"@.len());
    assert("investment_enabled"@ != "stop_when_investment_full"@);
    assert("investment_enabled"@.len() != "investment_with_more_score"@.len());
    assert("investment_enabled"@ != "investment_with_more_score"@);
    assert("investment_enabled"@.len() != "start_with_elite_two"@.len());
    assert("investment_enabled"@ != "start_with_elite_two"@);
    assert("investment_enabled"@.len() != "only_start_with_elite_two"@.len());
    assert("investment_enabled"@ != "only_start_with_elite_two"@);
    assert("investment_enabled"@.len() != "refresh_trader_with_dice"@.len());
    assert("investment_enabled"@ != "refresh_trader_with_dice"@);
    assert("investment_enabled"@.len() != "first_floor_foldartal"@.len());
    assert("investment_enabled"@ != "first_floor_foldartal"@);
    assert("investment_enabled"@.len() != "start_foldartal_list"@.len());
    assert("investment_enabled"@ != "start_foldartal_list"@);
    assert("investment_enabled"@.len() != "start_with_two_ideas"@.len());
    assert("investment_enabled"@ != "start_with_two_ideas"@);
    assert("investment_enabled"@.len() != "use_foldartal"@.len());
    assert("investment_enabled"@ != "use_foldartal"@);
    assert("investment_enabled"@.len() != "check_collapsal_paradigms"@.len());
    assert("investment_enabled"@ != "check_collapsal_paradigms"@);
    assert("investment_enabled"@.len() != "double_check_collapsal_paradigms"@.len());
    assert("investment_enabled"@ != "double_check_collapsal_paradigms"@);
    assert("investment_enabled"@.len() != "expected_collapsal_paradigms"@.len());
    assert("investment_enabled"@ != "expected_collapsal_paradigms"@);
    assert("investment_enabled"@.len() != "monthly_squad_auto_iterate"@.len());
    assert("investment_enabled"@ != "monthly_squad_auto_iterate"@);
    assert("investment_enabled"@.len() != "monthly_squad_check_comms"@.len());
    assert("investment_enabled"@ != "monthly_squad_check_comms"@);
    assert("investment_enabled"@.len() != "deep_exploration_auto_iterate"@.len());
    assert("investment_enabled"@ != "deep_exploration_auto_iterate"@);
    assert("investment_enabled"@.len() != "collectible_mode_shopping"@.len());
    assert("investment_enabled"@ != "collectible_mode_shopping"@);
    assert("investment_enabled"@.len() != "collectible_mode_squad"@.len());
    assert("investment_enabled"@ != "collectible_mode_squad"@);
    assert("investment_enabled"@.len() != "collectible_mode_start_list"@.len());
    assert("investment_enabled"@ != "collectible_mode_start_list"@);
    assert("investment_enabled"@.len() != "start_with_seed"@.len());
    assert("investment_enabled"@ != "start_with_seed"@);
    let b1 = b_opt_bool("enable"@, t.enable);
    let b2 = b_opt_str("theme"@, opt_str_view(t.theme));
    let b3 = b_opt_int("mode"@, t.mode);
    let b4 = b_opt_str("squad"@, opt_str_view(t.squad));
    let b5 = b_opt_str("roles"@, opt_str_view(t.roles));
    let b6 = b_opt_str("core_char"@, opt_str_view(t.core_char));
    let b7 = b_opt_bool("use_support"@, t.use_support);
    let b8 = b_opt_bool("use_nonfriend_support"@, t.use_nonfriend_support);
    let b9 = b_opt_int("starts_count"@, t.starts_count);
    let b10 = b_opt_int("difficulty"@, t.difficulty);
    let b11 = b_opt_bool("stop_at_final_boss"@, t.stop_at_final_boss);
    let b12 = b_opt_bool("stop_at_max_level"@, t.stop_at_max_level);
    let b13 = b_opt_bool("investment_enabled"@, t.investment_enabled);
    let b14 = b_opt_int("investments_count"@, t.investments_count);
    let b15 = b_opt_bool("stop_when_investment_full"@, t.stop_when_investment_full);
    let b16 = b_opt_bool("investment_with_more_score"@, t.investment_with_more_score);
    let b17 = b_opt_bool("start_with_elite_two"@, t.start_with_elite_two);
    let b18 = b_opt_bool("only_start_with_elite_two"@, t.only_start_with_elite_two);
    let b19 = b_opt_bool("refresh_trader_with_dice"@, t.refresh_trader_with_dice);
    let b20 = b_opt_str("first_floor_foldartal"@, opt_str_view(t.first_floor_foldartal));
    let b21 = b_opt_str_list("start_foldartal_list"@, (match t.start_foldartal_list { Option::None => Option::None, Option::Some(l) => Option::Some(strs_view(l@)) }));
    let b22 = b_opt_bool("start_with_two_ideas"@, t.start_with_two_ideas);
    let b23 = b_opt_bool("use_foldartal"@, t.use_foldartal);
    let b24 = b_opt_bool("check_collapsal_paradigms"@, t.check_collapsal_paradigms);
    let b25 = b_opt_bool("double_check_collapsal_paradigms"@, t.double_check_collapsal_paradigms);
    let b26 = b_opt_str_list("expected_collapsal_paradigms"@, (match t.expected_collapsal_paradigms { Option::None => Option::None, Option::Some(l) => Option::Some(strs_view(l@)) }));
    let b27 = b_opt_bool("monthly_squad_auto_iterate"@, t.monthly_squad_auto_iterate);
    let b28 = b_opt_bool("monthly_squad_check_comms"@, t.monthly_squad_check_comms);
    let b29 = b_opt_bool("deep_exploration_auto_iterate"@, t.deep_exploration_auto_iterate);
    let b30 = b_opt_bool("collectible_mode_shopping"@, t.collectible_mode_shopping);
    let b31 = b_opt_str("collectible_mode_squad"@, opt_str_view(t.collectible_mode_squad));
    let b32 = b_opt_bool_map("collectible_mode_start_list"@, (match t.collectible_mode_start_list { Option::None => Option::None, Option::Some(m) => Option::Some(bpairs_view(m@)) }));
    let b33 = b_opt_bool("start_with_seed"@, t.start_with_seed);
    let p1 = b1;
    let p2 = p1 + b2;
    let p3 = p2 + b3;
    let p4 = p3 + b4;
    let p5 = p4 + b5;
    let p6 = p5 + b6;
    let p7 = p6 + b7;
    let p8 = p7 + b8;
    let p9 = p8 + b9;
    let p10 = p9 + b10;
    let p11 = p10 + b11;
    let p12 = p11 + b12;
    let p13 = p12 + b13;
    let p14 = p13 + b14;
    let p15 = p14 + b15;
    let p16 = p15 + b16;
    let p17 = p16 + b17;
    let p18 = p17 + b18;
    let p19 = p18 + b19;
    let p20 = p19 + b20;
    let p21 = p20 + b21;
    let p22 = p21 + b22;
    let p23 = p22 + b23;
    let p24 = p23 + b24;
    let p25 = p24 + b25;
    let p26 = p25 + b26;
    let p27 = p26 + b27;
    let p28 = p27 + b28;
    let p29 = p28 + b29;
    let p30 = p29 + b30;
    let p31 = p30 + b31;
    let p32 = p31 + b32;
    let p33 = p32 + b33;
    assert(roguelike_pairs(t) == p33);
    lemma_doc_get_block(b1, "investment_enabled"@);
    lemma_doc_get_block(b2, "investment_enabled"@);
    lemma_doc_get_block(b3, "investment_enabled"@);
    lemma_doc_get_block(b4, "investment_enabled"@);
    lemma_doc_get_block(b5, "investment_enabled"@);
    lemma_doc_get_block(b6, "investment_enabled"@);
    lemma_doc_get_block(b7, "investment_enabled"@);
    lemma_doc_get_block(b8, "investment_enabled"@);
    lemma_doc_get_block(b9, "investment_enabled"@);
    lemma_doc_get_block(b10, "investment_enabled"@);
    lemma_doc_get_block(b11, "investment_enabled"@);
    lemma_doc_get_block(b12, "investment_enabled"@);
    lemma_doc_get_block(b13, "investment_enabled"@);
    lemma_doc_get_block(b14, "investment_enabled"@);
    lemma_doc_get_block(b15, "investment_enabled"@);
    lemma_doc_get_block(b16, "investment_enabled"@);
    lemma_doc_get_block(b17, "investment_enabled"@);
    lemma_doc_get_block(b18, "investment_enabled"@);
    lemma_doc_get_block(b19, "investment_enabled"@);
    lemma_doc_get_block(b20, "investment_enabled"@);
    lemma_doc_get_block(b21, "investment_enabled"@);
    lemma_doc_get_block(b22, "investment_enabled"@);
    lemma_doc_get_block(b23, "investment_enabled"@);
    lemma_doc_get_block(b24, "investment_enabled"@);
    lemma_doc_get_block(b25, "investment_enabled"@);
    lemma_doc_get_block(b26, "investment_enabled"@);
    lemma_doc_get_block(b27, "investment_enabled"@);
    lemma_doc_get_block(b28, "investment_enabled"@);
    lemma_doc_get_block(b29, "investment_enabled"@);
    lemma_doc_get_block(b30, "investment_enabled"@);
    lemma_doc_get_block(b31, "investment_enabled"@);
    lemma_doc_get_block(b32, "investment_enabled"@);
    lemma_doc_get_block(b33, "investment_enabled"@);
    lemma_doc_get_concat(p32, b33, "investment_enabled"@);
    lemma_doc_get_concat(p31, b32, "investment_enabled"@);
    lemma_doc_get_concat(p30, b31, "investment_enabled"@);
    lemma_doc_get_concat(p29, b30, "investment_enabled"@);
    lemma_doc_get_concat(p28, b29, "investment_enabled"@);
    lemma_doc_get_concat(p27, b28, "investment_enabled"@);
    lemma_doc_get_concat(p26, b27, "investment_enabled"@);
    lemma_doc_get_concat(p25, b26, "investment_enabled"@);
    lemma_doc_get_concat(p24, b25, "investment_enabled"@);
    lemma_doc_get_concat(p23, b24, "investment_enabled"@);
    lemma_doc_get_concat(p22, b23, "investment_enabled"@);
    lemma_doc_get_concat(p21, b22, "investment_enabled"@);
    lemma_doc_get_concat(p20, b21, "investment_enabled"@);
    lemma_doc_get_concat(p19, b20, "investment_enabled"@);
    lemma_doc_get_concat(p18, b19, "investment_enabled"@);
    lemma_doc_get_concat(p17, b18, "investment_enabled"@);
    lemma_doc_get_concat(p16, b17, "investment_enabled"@);
    lemma_doc_get_concat(p15, b16, "investment_enabled"@);
    lemma_doc_get_concat(p14, b15, "investment_enabled"@);
    lemma_doc_get_concat(p13, b14, "investment_enabled"@);
    lemma_doc_get_concat(p12, b13, "investment_enabled"@);
    lemma_doc_get_concat(p11, b12, "investment_enabled"@);
    lemma_doc_get_concat(p10, b11, "investment_enabled"@);
    lemma_doc_get_concat(p9, b10, "investment_enabled"@);
    lemma_doc_get_concat(p8, b9, "investment_enabled"@);
    lemma_doc_get_concat(p7, b8, "investment_enabled"@);
    lemma_doc_get_concat(p6, b7, "investment_enabled"@);
    lemma_doc_get_concat(p5, b6, "investment_enabled"@);
    lemma_doc_get_concat(p4, b5, "investment_enabled"@);
    lemma_doc_get_concat(p3, b4, "investment_enabled"@);
    lemma_doc_get_concat(p2, b3, "investment_enabled"@);
    lemma_doc_get_concat(p1, b2, "investment_enabled"@);
}

/// What lookup of `investments_count` finds in the members of a Roguelike task.
proof fn roguelike_get_investments_count(t: RoguelikeTask)
    ensures
        doc_get(roguelike_pairs(t), "investments_count"@) == (match t.investments_count { Option::None => Option::<JsonV>::None, Option::Some(i) => Option::Some(JsonV::Sc(ScalarV::Int(i as int))) }),
{
    reveal_strlit("enable");
    reveal_strlit("theme");
    reveal_strlit("mode");
    reveal_strlit("squad");
    reveal_strlit("roles");
    reveal_strlit("core_char");
    reveal_strlit("use_support");
    reveal_strlit("use_nonfriend_support");
    reveal_strlit("starts_count");
    reveal_strlit("difficulty");
    reveal_strlit("stop_at_final_boss");
    reveal_strlit("stop_at_max_level");
    reveal_strlit("investment_enabled");
    reveal_strlit("investments_count");
    reveal_strlit("stop_when_investment_full");
    reveal_strlit("investment_with_more_score");
    reveal_strlit("start_with_elite_two");
    reveal_strlit("only_start_with_elite_two");
    reveal_strlit("refresh_trader_with_dice");
    reveal_strlit("first_floor_foldartal");
    reveal_strlit("start_foldartal_list");
    reveal_strlit("start_with_two_ideas");
    reveal_strlit("use_foldartal");
    reveal_strlit("check_collapsal_paradigms");
    reveal_strlit("double_check_collapsal_paradigms");
    reveal_strlit("expected_collapsal_paradigms");
    reveal_strlit("monthly_squad_auto_iterate");
    reveal_strlit("monthly_squad_check_comms");
    reveal_strlit("deep_exploration_auto_iterate");
    reveal_strlit("collectible_mode_shopping");
    reveal_strlit("collectible_mode_squad");
    reveal_strlit("collectible_mode_start_list");
    reveal_strlit("start_with_seed");
    assert("investments_count"@.len() != "enable"@.len());
    assert("investments_count"@ != "enable"@);
    assert("investments_count"@.len() != "theme"@.len());
    assert("investments_count"@ != "theme"@);
    assert("investments_count"@.len() != "mode"@.len());
    assert("investments_count"@ != "mode"@);
    assert("investments_count"@.len() != "squad"@.len());
    assert("investments_count"@ != "squad"@);
    assert("investments_count"@.len() != "roles"@.len());
    assert("investments_count"@ != "roles"@);
    assert("investments_count"@.len() != "core_char"@.len());
    assert("investments_count"@ != "core_char"@);
    assert("investments_count"@.len() != "use_support"@.len());
    assert("investments_count"@ != "use_support"@);
    assert("investments_count"@.len() != "use_nonfriend_support"@.len());
    assert("investments_count"@ != "use_nonfriend_support"@);
    assert("investments_count"@.len() != "starts_count"@.len());
    assert("investments_count"@ != "starts_count"@);
    assert("investments_count"@.len() != "difficulty"@.len());
    assert("investments_count"@ != "difficulty"@);
    assert("investments_count"@.len() != "stop_at_final_boss"@.len());
    assert("investments_count"@ != "stop_at_final_boss"@);
    assert("investments_count"@[0] != "stop_at_max_level"@[0]);
    assert("investments_count"@ != "stop_at_max_level"@);
    assert("investments_count"@.len() != "investment_enabled"@.len());
    assert("investments_count"@ != "investment_enabled"@);
    assert("investments_count"@.len() != "stop_when_investment_full"@.len());
    assert("investments_count"@ != "stop_when_investment_full"@);
    assert("investments_count"@.len() != "investment_with_more_score"@.len());
    assert("investments_count"@ != "investment_with_more_score"@);
    assert("investments_count"@.len() != "start_with_elite_two"@.len());
    assert("investments_count"@ != "start_with_elite_two"@);
    assert("investments_count"@.len() != "only_start_with_elite_two"@.len());
    assert("investments_count"@ != "only_start_with_elite_two"@);
    assert("investments_count"@.len() != "refresh_trader_with_dice"@.len());
    assert("investments_count"@ != "refresh_trader_with_dice"@);
    assert("investments_count"@.len() != "first_floor_foldartal"@.len());
    assert("investments_count"@ != "first_floor_foldartal"@);
    assert("investments_count"@.len() != "start_foldartal_list"@.len());
    assert("investments_count"@ != "start_foldartal_list"@);
    assert("investments_count"@.len() != "start_with_two_ideas"@.len());
    assert("investments_count"@ != "start_with_two_ideas"@);
    assert("investments_count"@.len() != "use_foldartal"@.len());
    assert("investments_count"@ != "use_foldartal"@);
    assert("investments_count"@.len() != "check_collapsal_paradigms"@.len());
    assert("investments_count"@ != "check_collapsal_paradigms"@);
    assert("investments_count"@.len() != "double_check_collapsal_paradigms"@.len());
    assert("investments_count"@ != "double_check_collapsal_paradigms"@);
    assert("investments_count"@.len() != "expected_collapsal_paradigms"@.len());
    assert("investments_count"@ != "expected_collapsal_paradigms"@);
    assert("investments_count"@.len() != "monthly_squad_auto_iterate"@.len());
    assert("investments_count"@ != "monthly_squad_auto_iterate"@);
    assert("investments_count"@.len() != "monthly_squad_check_comms"@.len());
    assert("investments_count"@ != "monthly_squad_check_comms"@);
    assert("investments_count"@.len() != "deep_exploration_auto_iterate"@.len());
    assert("investments_count"@ != "deep_exploration_auto_iterate"@);
    assert("investments_count"@.len() != "collectible_mode_shopping"@.len());
    assert("investments_count"@ != "collectible_mode_shopping"@);
    assert("investments_count"@.len() != "collectible_mode_squad"@.len());
    assert("investments_count"@ != "collectible_mode_squad"@);
    assert("investments_count"@.len() != "collectible_mode_start_list"@.len());
    assert("investments_count"@ != "collectible_mode_start_list"@);
    assert("investments_count"@.len() != "start_with_seed"@.len());
    assert("investments_count"@ != "start_with_seed"@);
    let b1 = b_opt_bool("enable"@, t.enable);
    let b2 = b_opt_str("theme"@, opt_str_view(t.theme));
    let b3 = b_opt_int("mode"@, t.mode);
    let b4 = b_opt_str("squad"@, opt_str_view(t.squad));
    let b5 = b_opt_str("roles"@, opt_str_view(t.roles));
    let b6 = b_opt_str("core_char"@, opt_str_view(t.core_char));
    let b7 = b_opt_bool("use_support"@, t.use_support);
    let b8 = b_opt_bool("use_nonfriend_support"@, t.use_nonfriend_support);
    let b9 = b_opt_int("starts_count"@, t.starts_count);
    let b10 = b_opt_int("difficulty"@, t.difficulty);
    let b11 = b_opt_bool("stop_at_final_boss"@, t.stop_at_final_boss);
    let b12 = b_opt_bool("stop_at_max_level"@, t.stop_at_max_level);
    let b13 = b_opt_bool("investment_enabled"@, t.investment_enabled);
    let b14 = b_opt_int("investments_count"@, t.investments_count);
    let b15 = b_opt_bool("stop_when_investment_full"@, t.stop_when_investment_full);
    let b16 = b_opt_bool("investment_with_more_score"@, t.investment_with_more_score);
    let b17 = b_opt_bool("start_with_elite_two"@, t.start_with_elite_two);
    let b18 = b_opt_bool("only_start_with_elite_two"@, t.only_start_with_elite_two);
    let b19 = b_opt_bool("refresh_trader_with_dice"@, t.refresh_trader_with_dice);
    let b20 = b_opt_str("first_floor_foldartal"@, opt_str_view(t.first_floor_foldartal));
    let b21 = b_opt_str_list("start_foldartal_list"@, (match t.start_foldartal_list { Option::None => Option::None, Option::Some(l) => Option::Some(strs_view(l@)) }));
    let b22 = b_opt_bool("start_with_two_ideas"@, t.start_with_two_ideas);
    let b23 = b_opt_bool("use_foldartal"@, t.use_foldartal);
    let b24 = b_opt_bool("check_collapsal_paradigms"@, t.check_collapsal_paradigms);
    let b25 = b_opt_bool("double_check_collapsal_paradigms"@, t.double_check_collapsal_paradigms);
    let b26 = b_opt_str_list("expected_collapsal_paradigms"@, (match t.expected_collapsal_paradigms { Option::None => Option::None, Option::Some(l) => Option::Some(strs_view(l@)) }));
    let b27 = b_opt_bool("monthly_squad_auto_iterate"@, t.monthly_squad_auto_iterate);
    let b28 = b_opt_bool("monthly_squad_check_comms"@, t.monthly_squad_check_comms);
    let b29 = b_opt_bool("deep_exploration_auto_iterate"@, t.deep_exploration_auto_iterate);
    let b30 = b_opt_bool("collectible_mode_shopping"@, t.collectible_mode_shopping);
    let b31 = b_opt_str("collectible_mode_squad"@, opt_str_view(t.collectible_mode_squad));
    let b32 = b_opt_bool_map("collectible_mode_start_list"@, (match t.collectible_mode_start_list { Option::None => Option::None, Option::Some(m) => Option::Some(bpairs_view(m@)) }));
    let b33 = b_opt_bool("start_with_seed"@, t.start_with_seed);
    let p1 = b1;
    let p2 = p1 + b2;
    let p3 = p2 + b3;
    let p4 = p3 + b4;
    let p5 = p4 + b5;
    let p6 = p5 + b6;
    let p7 = p6 + b7;
    let p8 = p7 + b8;
    let p9 = p8 + b9;
    let p10 = p9 + b10;
    let p11 = p10 + b11;
    let p12 = p11 + b12;
    let p13 = p12 + b13;
    let p14 = p13 + b14;
    let p15 = p14 + b15;
    let p16 = p15 + b16;
    let p17 = p16 + b17;
    let p18 = p17 + b18;
    let p19 = p18 + b19;
    let p20 = p19 + b20;
    let p21 = p20 + b21;
    let p22 = p21 + b22;
    let p23 = p22 + b23;
    let p24 = p23 + b24;
    let p25 = p24 + b25;
    let p26 = p25 + b26;
    let p27 = p26 + b27;
    let p28 = p27 + b28;
    let p29 = p28 + b29;
    let p30 = p29 + b30;
    let p31 = p30 + b31;
    let p32 = p31 + b32;
    let p33 = p32 + b33;
    assert(roguelike_pairs(t) == p33);
    lemma_doc_get_block(b1, "investments_count"@);
    lemma_doc_get_block(b2, "investments_count"@);
    lemma_doc_get_block(b3, "investments_count"@);
    lemma_doc_get_block(b4, "investments_count"@);
    lemma_doc_get_block(b5, "investments_count"@);
    lemma_doc_get_block(b6, "investments_count"@);
    lemma_doc_get_block(b7, "investments_count"@);
    lemma_doc_get_block(b8, "investments_count"@);
    lemma_doc_get_block(b9, "investments_count"@);
    lemma_doc_get_block(b10, "investments_count"@);
    lemma_doc_get_block(b11, "investments_count"@);
    lemma_doc_get_block(b12, "investments_count"@);
    lemma_doc_get_block(b13, "investments_count"@);
    lemma_doc_get_block(b14, "investments_count"@);
    lemma_doc_get_block(b15, "investments_count"@);
    lemma_doc_get_block(b16, "investments_count"@);
    lemma_doc_get_block(b17, "investments_count"@);
    lemma_doc_get_block(b18, "investments_count"@);
    lemma_doc_get_block(b19, "investments_count"@);
    lemma_doc_get_block(b20, "investments_count"@);
    lemma_doc_get_block(b21, "investments_count"@);
    lemma_doc_get_block(b22, "investments_count"@);
    lemma_doc_get_block(b23, "investments_count"@);
    lemma_doc_get_block(b24, "investments_count"@);
    lemma_doc_get_block(b25, "investments_count"@);
    lemma_doc_get_block(b26, "investments_count"@);
    lemma_doc_get_block(b27, "investments_count"@);
    lemma_doc_get_block(b28, "investments_count"@);
    lemma_doc_get_block(b29, "investments_count"@);
    lemma_doc_get_block(b30, "investments_count"@);
    lemma_doc_get_block(b31, "investments_count"@);
    lemma_doc_get_block(b32, "investments_count"@);
    lemma_doc_get_block(b33, "investments_count"@);
    lemma_doc_get_concat(p32, b33, "investments_count"@);
    lemma_doc_get_concat(p31, b32, "investments_count"@);
    lemma_doc_get_concat(p30, b31, "investments_count"@);
    lemma_doc_get_concat(p29, b30, "investments_count"@);
    lemma_doc_get_concat(p28, b29, "investments_count"@);
    lemma_doc_get_concat(p27, b28, "investments_count"@);
    lemma_doc_get_concat(p26, b27, "investments_count"@);
    lemma_doc_get_concat(p25, b26, "investments_count"@);
    lemma_doc_get_concat(p24, b25, "investments_count"@);
    lemma_doc_get_concat(p23, b24, "investments_count"@);
    lemma_doc_get_concat(p22, b23, "investments_count"@);
    lemma_doc_get_concat(p21, b22, "investments_count"@);
    lemma_doc_get_concat(p20, b21, "investments_count"@);
    lemma_doc_get_concat(p19, b20, "investments_count"@);
    lemma_doc_get_concat(p18, b19, "investments_count"@);
    lemma_doc_get_concat(p17, b18, "investments_count"@);
    lemma_doc_get_concat(p16, b17, "investments_count"@);
    lemma_doc_get_concat(p15, b16, "investments_count"@);
    lemma_doc_get_concat(p14, b15, "investments_count"@);
    lemma_doc_get_concat(p13, b14, "investments_count"@);
    lemma_doc_get_concat(p12, b13, "investments_count"@);
    lemma_doc_get_concat(p11, b12, "investments_count"@);
    lemma_doc_get_concat(p10, b11, "investments_count"@);
    lemma_doc_get_concat(p9, b10, "investments_count"@);
    lemma_doc_get_concat(p8, b9, "investments_count"@);
    lemma_doc_get_concat(p7, b8, "investments_count"@);
    lemma_doc_get_concat(p6, b7, "investments_count"@);
    lemma_doc_get_concat(p5, b6, "investments_count"@);
    lemma_doc_get_concat(p4, b5, "investments_count"@);
    lemma_doc_get_concat(p3, b4, "investments_count"@);
    lemma_doc_get_concat(p2, b3, "investments_count"@);
    lemma_doc_get_concat(p1, b2, "investments_count"@);
}

/// What lookup of `stop_when_investment_full` finds in the members of a Roguelike task.
proof fn roguelike_get_stop_when_investment_full(t: RoguelikeTask)
    ensures
        doc_get(roguelike_pairs(t), "stop_when_investment_full"@) == (match t.stop_when_investment_full { Option::None => Option::<JsonV>::None, Option::Some(b) => Option::Some(JsonV::Sc(ScalarV::Bool(b))) }),
{
    reveal_strlit("enable");
    reveal_strlit("theme");
    reveal_strlit("mode");
    reveal_strlit("squad");
    reveal_strlit("roles");
    reveal_strlit("core_char");
    reveal_strlit("use_support");
    reveal_strlit("use_nonfriend_support");
    reveal_strlit("starts_count");
    reveal_strlit("difficulty");
    reveal_strlit("stop_at_final_boss");
    reveal_strlit("stop_at_max_level");
    reveal_strlit("investment_enabled");
    reveal_strlit("investments_count");
    reveal_strlit("stop_when_investment_full");
    reveal_strlit("investment_with_more_score");
    reveal_strlit("start_with_elite_two");
    reveal_strlit("only_start_with_elite_two");
    reveal_strlit("refresh_trader_with_dice");
    reveal_strlit("first_floor_foldartal");
    reveal_strlit("start_foldartal_list");
    reveal_strlit("start_with_two_ideas");
    reveal_strlit("use_foldartal");
    reveal_strlit("check_collapsal_paradigms");
    reveal_strlit("double_check_collapsal_paradigms");
    reveal_strlit("expected_collapsal_paradigms");
    reveal_strlit("monthly_squad_auto_iterate");
    reveal_strlit("monthly_squad_check_comms");
    reveal_strlit("deep_exploration_auto_iterate");
    reveal_strlit("collectible_mode_shopping");
    reveal_strlit("collectible_mode_squad");
    reveal_strlit("collectible_mode_start_list");
    reveal_strlit("start_with_seed");
    assert("stop_when_investment_full"@.len() != "enable"@.len());
    assert("stop_when_investment_full"@ != "enable"@);
    assert("stop_when_investment_full"@.len() != "theme"@.len());
    assert("stop_when_investment_full"@ != "theme"@);
    assert("stop_when_investment_full"@.len() != "mode"@.len());
    assert("stop_when_investment_full"@ != "mode"@);
    assert("stop_when_investment_full"@.len() != "squad"@.len());
    assert("stop_when_investment_full"@ != "squad"@);
    assert("stop_when_investment_full"@.len() != "roles"@.len());
    assert("stop_when_investment_full"@ != "roles"@);
    assert("stop_when_investment_full"@.len() != "core_char"@.len());
    assert("stop_when_investment_full"@ != "core_char"@);
    assert("stop_when_investment_full"@.len() != "use_support"@.len());
    assert("stop_when_investment_full"@ != "use_support"@);
    assert("stop_when_investment_full"@.len() != "use_nonfriend_support"@.len());
    assert("stop_when_investment_full"@ != "use_nonfriend_support"@);
    assert("stop_when_investment_full"@.len() != "starts_count"@.len());
    assert("stop_when_investment_full"@ != "starts_count"@);
    assert("stop_when_investment_full"@.len() != "difficulty"@.len());
    assert("stop_when_investment_full"@ != "difficulty"@);
    assert("stop_when_investment_full"@.len() != "stop_at_final_boss"@.len());
    assert("stop_when_investment_full"@ != "stop_at_final_boss"@);
    assert("stop_when_investment_full"@.len() != "stop_at_max_level"@.len());
    assert("stop_when_investment_full"@ != "stop_at_max_level"@);
    assert("stop_when_investment_full"@.len() != "investment_enabled"@.len());
    assert("stop_when_investment_full"@ != "investment_enabled"@);
    assert("stop_when_investment_full"@.len() != "investments_count"@.len());
    assert("stop_when_investment_full"@ != "investments_count"@);
    assert("stop_when_investment_full"@.len() != "investment_with_more_score"@.len());
    assert("stop_when_investment_full"@ != "investment_with_more_score"@);
    assert("stop_when_investment_full"@.len() != "start_with_elite_two"@.len());
    assert("stop_when_investment_full"@ != "start_with_elite_two"@);
    assert("stop_when_investment_full"@[0] != "only_start_with_elite_two"@[0]);
    assert("stop_when_investment_full"@ != "only_start_with_elite_two"@);
    assert("stop_when_investment_full"@.len() != "refresh_trader_with_dice"@.len());
    assert("stop_when_investment_full"@ != "refresh_trader_with_dice"@);
    assert("stop_when_investment_full"@.len() != "first_floor_foldartal"@.len());
    assert("stop_when_investment_full"@ != "first_floor_foldartal"@);
    assert("stop_when_investment_full"@.len() != "start_foldartal_list"@.len());
    assert("stop_when_investment_full"@ != "start_foldartal_list"@);
    assert("stop_when_investment_full"@.len() != "start_with_two_ideas"@.len());
    assert("stop_when_investment_full"@ != "start_with_two_ideas"@);
    assert("stop_when_investment_full"@.len() != "use_foldartal"@.len());
    assert("stop_when_investment_full"@ != "use_foldartal"@);
    assert("stop_when_investment_full"@[0] != "check_collapsal_paradigms"@[0]);
    assert("stop_when_investment_full"@ != "check_collapsal_paradigms"@);
    assert("stop_when_investment_full"@.len() != "double_check_collapsal_paradigms"@.len());
    assert("stop_when_investment_full"@ != "double_check_collapsal_paradigms"@);
    assert("stop_when_investment_full"@.len() != "expected_collapsal_paradigms"@.len());
    assert("stop_when_investment_full"@ != "expected_collapsal_paradigms"@);
    assert("stop_when_investment_full"@.len() != "monthly_squad_auto_iterate"@.len());
    assert("stop_when_investment_full"@ != "monthly_squad_auto_iterate"@);
    assert("stop_when_investment_full"@[0] != "monthly_squad_check_comms"@[0]);
    assert("stop_when_investment_full"@ != "monthly_squad_check_comms"@);
    assert("stop_when_investment_full"@.len() != "deep_exploration_auto_iterate"@.len());
    assert("stop_when_investment_full"@ != "deep_exploration_auto_iterate"@);
    assert("stop_when_investment_full"@[0] != "collectible_mode_shopping"@[0]);
    assert("stop_when_investment_full"@ != "collectible_mode_shopping"@);
    assert("stop_when_investment_full"@.len() != "collectible_mode_squad"@.len());
    assert("stop_when_investment_full"@ != "collectible_mode_squad"@);
    assert("stop_when_investment_full"@.len() != "collectible_mode_start_list"@.len());
    assert("stop_when_investment_full"@ != "collectible_mode_start_list"@);
    assert("stop_when_investment_full"@.len() != "start_with_seed"@.len());
    assert("stop_when_investment_full"@ != "start_with_seed"@);
    let b1 = b_opt_bool("enable"@, t.enable);
    let b2 = b_opt_str("theme"@, opt_str_view(t.theme));
    let b3 = b_opt_int("mode"@, t.mode);
    let b4 = b_opt_str("squad"@, opt_str_view(t.squad));
    let b5 = b_opt_str("roles"@, opt_str_view(t.roles));
    let b6 = b_opt_str("core_char"@, opt_str_view(t.core_char));
    let b7 = b_opt_bool("use_support"@, t.use_support);
    let b8 = b_opt_bool("use_nonfriend_support"@, t.use_nonfriend_support);
    let b9 = b_opt_int("starts_count"@, t.starts_count);
    let b10 = b_opt_int("difficulty"@, t.difficulty);
    let b11 = b_opt_bool("stop_at_final_boss"@, t.stop_at_final_boss);
    let b12 = b_opt_bool("stop_at_max_level"@, t.stop_at_max_level);
    let b13 = b_opt_bool("investment_enabled"@, t.investment_enabled);
    let b14 = b_opt_int("investments_count"@, t.investments_count);
    let b15 = b_opt_bool("stop_when_investment_full"@, t.stop_when_investment_full);
    let b16 = b_opt_bool("investment_with_more_score"@, t.investment_with_more_score);
    let b17 = b_opt_bool("start_with_elite_two"@, t.start_with_elite_two);
    let b18 = b_opt_bool("only_start_with_elite_two"@, t.only_start_with_elite_two);
    let b19 = b_opt_bool("refresh_trader_with_dice"@, t.refresh_trader_with_dice);
    let b20 = b_opt_str("first_floor_foldartal"@, opt_str_view(t.first_floor_foldartal));
    let b21 = b_opt_str_list("start_foldartal_list"@, (match t.start_foldartal_list { Option::None => Option::None, Option::Some(l) => Option::Some(strs_view(l@)) }));
    let b22 = b_opt_bool("start_with_two_ideas"@, t.start_with_two_ideas);
    let b23 = b_opt_bool("use_foldartal"@, t.use_foldartal);
    let b24 = b_opt_bool("check_collapsal_paradigms"@, t.check_collapsal_paradigms);
    let b25 = b_opt_bool("double_check_collapsal_paradigms"@, t.double_check_collapsal_paradigms);
    let b26 = b_opt_str_list("expected_collapsal_paradigms"@, (match t.expected_collapsal_paradigms { Option::None => Option::None, Option::Some(l) => Option::Some(strs_view(l@)) }));
    let b27 = b_opt_bool("monthly_squad_auto_iterate"@, t.monthly_squad_auto_iterate);
    let b28 = b_opt_bool("monthly_squad_check_comms"@, t.monthly_squad_check_comms);
    let b29 = b_opt_bool("deep_exploration_auto_iterate"@, t.deep_exploration_auto_iterate);
    let b30 = b_opt_bool("collectible_mode_shopping"@, t.collectible_mode_shopping);
    let b31 = b_opt_str("collectible_mode_squad"@, opt_str_view(t.collectible_mode_squad));
    let b32 = b_opt_bool_map("collectible_mode_start_list"@, (match t.collectible_mode_start_list { Option::None => Option::None, Option::Some(m) => Option::Some(bpairs_view(m@)) }));
    let b33 = b_opt_bool("start_with_seed"@, t.start_with_seed);
    let p1 = b1;
    let p2 = p1 + b2;
    let p3 = p2 + b3;
    let p4 = p3 + b4;
    let p5 = p4 + b5;
    let p6 = p5 + b6;
    let p7 = p6 + b7;
    let p8 = p7 + b8;
    let p9 = p8 + b9;
    let p10 = p9 + b10;
    let p11 = p10 + b11;
    let p12 = p11 + b12;
    let p13 = p12 + b13;
    let p14 = p13 + b14;
    let p15 = p14 + b15;
    let p16 = p15 + b16;
    let p17 = p16 + b17;
    let p18 = p17 + b18;
    let p19 = p18 + b19;
    let p20 = p19 + b20;
    let p21 = p20 + b21;
    let p22 = p21 + b22;
    let p23 = p22 + b23;
    let p24 = p23 + b24;
    let p25 = p24 + b25;
    let p26 = p25 + b26;
    let p27 = p26 + b27;
    let p28 = p27 + b28;
    let p29 = p28 + b29;
    let p30 = p29 + b30;
    let p31 = p30 + b31;
    let p32 = p31 + b32;
    let p33 = p32 + b33;
    assert(roguelike_pairs(t) == p33);
    lemma_doc_get_block(b1, "stop_when_investment_full"@);
    lemma_doc_get_block(b2, "stop_when_investment_full"@);
    lemma_doc_get_block(b3, "stop_when_investment_full"@);
    lemma_doc_get_block(b4, "stop_when_investment_full"@);
    lemma_doc_get_block(b5, "stop_when_investment_full"@);
    lemma_doc_get_block(b6, "stop_when_investment_full"@);
    lemma_doc_get_block(b7, "stop_when_investment_full"@);
    lemma_doc_get_block(b8, "stop_when_investment_full"@);
    lemma_doc_get_block(b9, "stop_when_investment_full"@);
    lemma_doc_get_block(b10, "stop_when_investment_full"@);
    lemma_doc_get_block(b11, "stop_when_investment_full"@);
    lemma_doc_get_block(b12, "stop_when_investment_full"@);
    lemma_doc_get_block(b13, "stop_when_investment_full"@);
    lemma_doc_get_block(b14, "stop_when_investment_full"@);
    lemma_doc_get_block(b15, "stop_when_investment_full"@);
    lemma_doc_get_block(b16, "stop_when_investment_full"@);
    lemma_doc_get_block(b17, "stop_when_investment_full"@);
    lemma_doc_get_block(b18, "stop_when_investment_full"@);
    lemma_doc_get_block(b19, "stop_when_investment_full"@);
    lemma_doc_get_block(b20, "stop_when_investment_full"@);
    lemma_doc_get_block(b21, "stop_when_investment_full"@);
    lemma_doc_get_block(b22, "stop_when_investment_full"@);
    lemma_doc_get_block(b23, "stop_when_investment_full"@);
    lemma_doc_get_block(b24, "stop_when_investment_full"@);
    lemma_doc_get_block(b25, "stop_when_investment_full"@);
    lemma_doc_get_block(b26, "stop_when_investment_full"@);
    lemma_doc_get_block(b27, "stop_when_investment_full"@);
    lemma_doc_get_block(b28, "stop_when_investment_full"@);
    lemma_doc_get_block(b29, "stop_when_investment_full"@);
    lemma_doc_get_block(b30, "stop_when_investment_full"@);
    lemma_doc_get_block(b31, "stop_when_investment_full"@);
    lemma_doc_get_block(b32, "stop_when_investment_full"@);
    lemma_doc_get_block(b33, "stop_when_investment_full"@);
    lemma_doc_get_concat(p32, b33, "stop_when_investment_full"@);
    lemma_doc_get_concat(p31, b32, "stop_when_investment_full"@);
    lemma_doc_get_concat(p30, b31, "stop_when_investment_full"@);
    lemma_doc_get_concat(p29, b30, "stop_when_investment_full"@);
    lemma_doc_get_concat(p28, b29, "stop_when_investment_full"@);
    lemma_doc_get_concat(p27, b28, "stop_when_investment_full"@);
    lemma_doc_get_concat(p26, b27, "stop_when_investment_full"@);
    lemma_doc_get_concat(p25, b26, "stop_when_investment_full"@);
    lemma_doc_get_concat(p24, b25, "stop_when_investment_full"@);
    lemma_doc_get_concat(p23, b24, "stop_when_investment_full"@);
    lemma_doc_get_concat(p22, b23, "stop_when_investment_full"@);
    lemma_doc_get_concat(p21, b22, "stop_when_investment_full"@);
    lemma_doc_get_concat(p20, b21, "stop_when_investment_full"@);
    lemma_doc_get_concat(p19, b20, "stop_when_investment_full"@);
    lemma_doc_get_concat(p18, b19, "stop_when_investment_full"@);
    lemma_doc_get_concat(p17, b18, "stop_when_investment_full"@);
    lemma_doc_get_concat(p16, b17, "stop_when_investment_full"@);
    lemma_doc_get_concat(p15, b16, "stop_when_investment_full"@);
    lemma_doc_get_concat(p14, b15, "stop_when_investment_full"@);
    lemma_doc_get_concat(p13, b14, "stop_when_investment_full"@);
    lemma_doc_get_concat(p12, b13, "stop_when_investment_full"@);
    lemma_doc_get_concat(p11, b12, "stop_when_investment_full"@);
    lemma_doc_get_concat(p10, b11, "stop_when_investment_full"@);
    lemma_doc_get_concat(p9, b10, "stop_when_investment_full"@);
    lemma_doc_get_concat(p8, b9, "stop_when_investment_full"@);
    lemma_doc_get_concat(p7, b8, "stop_when_investment_full"@);
    lemma_doc_get_concat(p6, b7, "stop_when_investment_full"@);
    lemma_doc_get_concat(p5, b6, "stop_when_investment_full"@);
    lemma_doc_get_concat(p4, b5, "stop_when_investment_full"@);
    lemma_doc_get_concat(p3, b4, "stop_when_investment_full"@);
    lemma_doc_get_concat(p2, b3, "stop_when_investment_full"@);
    lemma_doc_get_concat(p1, b2, "stop_when_investment_full"@);
}

/// What lookup of `investment_with_more_score` finds in the members of a Roguelike task.
proof fn roguelike_get_investment_with_more_score(t: RoguelikeTask)
    ensures
        doc_get(roguelike_pairs(t), "investment_with_more_score"@) == (match t.investment_with_more_score { Option::None => Option::<JsonV>::None, Option::Some(b) => Option::Some(JsonV::Sc(ScalarV::Bool(b))) }),
{
    reveal_strlit("enable");
    reveal_strlit("theme");
    reveal_strlit("mode");
    reveal_strlit("squad");
    reveal_strlit("roles");
    reveal_strlit("core_char");
    reveal_strlit("use_support");
    reveal_strlit("use_nonfriend_support");
    reveal_strlit("starts_count");
    reveal_strlit("difficulty");
    reveal_strlit("stop_at_final_boss");
    reveal_strlit("stop_at_max_level");
    reveal_strlit("investment_enabled");
    reveal_strlit("investments_count");
    reveal_strlit("stop_when_investment_full");
    reveal_strlit("investment_with_more_score");
    reveal_strlit("start_with_elite_two");
    reveal_strlit("only_start_with_elite_two");
    reveal_strlit("refresh_trader_with_dice");
    reveal_strlit("first_floor_foldartal");
    reveal_strlit("start_foldartal_list");
    reveal_strlit("start_with_two_ideas");
    reveal_strlit("use_foldartal");
    reveal_strlit("check_collapsal_paradigms");
    reveal_strlit("double_check_collapsal_paradigms");
    reveal_strlit("expected_collapsal_paradigms");
    reveal_strlit("monthly_squad_auto_iterate");
    reveal_strlit("monthly_squad_check_comms");
    reveal_strlit("deep_exploration_auto_iterate");
    reveal_strlit("collectible_mode_shopping");
    reveal_strlit("collectible_mode_squad");
    reveal_strlit("collectible_mode_start_list");
    reveal_strlit("start_with_seed");
    assert("investment_with_more_score"@.len() != "enable"@.len());
    assert("investment_with_more_score"@ != "enable"@);
    assert("investment_with_more_score"@.len() != "theme"@.len());
    assert("investment_with_more_score"@ != "theme"@);
    assert("investment_with_more_score"@.len() != "mode"@.len());
    assert("investment_with_more_score"@ != "mode"@);
    assert("investment_with_more_score"@.len() != "squad"@.len());
    assert("investment_with_more_score"@ != "squad"@);
    assert("investment_with_more_score"@.len() != "roles"@.len());
    assert("investment_with_more_score"@ != "roles"@);
    assert("investment_with_more_score"@.len() != "core_char"@.len());
    assert("investment_with_more_score"@ != "core_char"@);
    assert("investment_with_more_score"@.len() != "use_support"@.len());
    assert("investment_with_more_score"@ != "use_support"@);
    assert("investment_with_more_score"@.len() != "use_nonfriend_support"@.len());
    assert("investment_with_more_score"@ != "use_nonfriend_support"@);
    assert("investment_with_more_score"@.len() != "starts_count"@.len());
    assert("investment_with_more_score"@ != "starts_count"@);
    assert("investment_with_more_score"@.len() != "difficulty"@.len());
    assert("investment_with_more_score"@ != "difficulty"@);
    assert("investment_with_more_score"@.len() != "stop_at_final_boss"@.len());
    assert("investment_with_more_score"@ != "stop_at_final_boss"@);
    assert("investment_with_more_score"@.len() != "stop_at_max_level"@.len());
    assert("investment_with_more_score"@ != "stop_at_max_level"@);
    assert("investment_with_more_score"@.len() != "investment_enabled"@.len());
    assert("investment_with_more_score"@ != "investment_enabled"@);
    assert("investment_with_more_score"@.len() != "investments_count"@.len());
    assert("investment_with_more_score"@ != "investments_count"@);
    assert("investment_with_more_score"@.len() != "stop_when_investment_full"@.len());
    assert("investment_with_more_score"@ != "stop_when_investment_full"@);
    assert("investment_with_more_score"@.len() != "start_with_elite_two"@.len());
    assert("investment_with_more_score"@ != "start_with_elite_two"@);
    assert("investment_with_more_score"@.len() != "only_start_with_elite_two"@.len());
    assert("investment_with_more_score"@ != "only_start_with_elite_two"@);
    assert("investment_with_more_score"@.len() != "refresh_trader_with_dice"@.len());
    assert("investment_with_more_score"@ != "refresh_trader_with_dice"@);
    assert("investment_with_more_score"@.len() != "first_floor_foldartal"@.len());
    assert("investment_with_more_score"@ != "first_floor_foldartal"@);
    assert("investment_with_more_score"@.len() != "start_foldartal_list"@.len());
    assert("investment_with_more_score"@ != "start_foldartal_list"@);
    assert("investment_with_more_score"@.len() != "start_with_two_ideas"@.len());
    assert("investment_with_more_score"@ != "start_with_two_ideas"@);
    assert("investment_with_more_score"@.len() != "use_foldartal"@.len());
    assert("investment_with_more_score"@ != "use_foldartal"@);
    assert("investment_with_more_score"@.len() != "check_collapsal_paradigms"@.len());
    assert("investment_with_more_score"@ != "check_collapsal_paradigms"@);
    assert("investment_with_more_score"@.len() != "double_check_collapsal_paradigms"@.len());
    assert("investment_with_more_score"@ != "double_check_collapsal_paradigms"@);
    assert("investment_with_more_score"@.len() != "expected_collapsal_paradigms"@.len());
    assert("investment_with_more_score"@ != "expected_collapsal_paradigms"@);
    assert("investment_with_more_score"@[0] != "monthly_squad_auto_iterate"@[0]);
    assert("investment_with_more_score"@ != "monthly_squad_auto_iterate"@);
    assert("investment_with_more_score"@.len() != "monthly_squad_check_comms"@.len());
    assert("investment_with_more_score"@ != "monthly_squad_check_comms"@);
    assert("investment_with_more_score"@.len() != "deep_exploration_auto_iterate"@.len());
    assert("investment_with_more_score"@ != "deep_exploration_auto_iterate"@);
    assert("investment_with_more_score"@.len() != "collectible_mode_shopping"@.len());
    assert("investment_with_more_score"@ != "collectible_mode_shopping"@);
    assert("investment_with_more_score"@.len() != "collectible_mode_squad"@.len());
    assert("investment_with_more_score"@ != "collectible_mode_squad"@);
    assert("investment_with_more_score"@.len() != "collectible_mode_start_list"@.len());
    assert("investment_with_more_score"@ != "collectible_mode_start_list"@);
    assert("investment_with_more_score"@.len() != "start_with_seed"@.len());
    assert("investment_with_more_score"@ != "start_with_seed"@);
    let b1 = b_opt_bool("enable"@, t.enable);
    let b2 = b_opt_str("theme"@, opt_str_view(t.theme));
    let b3 = b_opt_int("mode"@, t.mode);
    let b4 = b_opt_str("squad"@, opt_str_view(t.squad));
    let b5 = b_opt_str("roles"@, opt_str_view(t.roles));
    let b6 = b_opt_str("core_char"@, opt_str_view(t.core_char));
    let b7 = b_opt_bool("use_support"@, t.use_support);
    let b8 = b_opt_bool("use_nonfriend_support"@, t.use_nonfriend_support);
    let b9 = b_opt_int("starts_count"@, t.starts_count);
    let b10 = b_opt_int("difficulty"@, t.difficulty);
    let b11 = b_opt_bool("stop_at_final_boss"@, t.stop_at_final_boss);
    let b12 = b_opt_bool("stop_at_max_level"@, t.stop_at_max_level);
    let b13 = b_opt_bool("investment_enabled"@, t.investment_enabled);
    let b14 = b_opt_int("investments_count"@, t.investments_count);
    let b15 = b_opt_bool("stop_when_investment_full"@, t.stop_when_investment_full);
    let b16 = b_opt_bool("investment_with_more_score"@, t.investment_with_more_score);
    let b17 = b_opt_bool("start_with_elite_two"@, t.start_with_elite_two);
    let b18 = b_opt_bool("only_start_with_elite_two"@, t.only_start_with_elite_two);
    let b19 = b_opt_bool("refresh_trader_with_dice"@, t.refresh_trader_with_dice);
    let b20 = b_opt_str("first_floor_foldartal"@, opt_str_view(t.first_floor_foldartal));
    let b21 = b_opt_str_list("start_foldartal_list"@, (match t.start_foldartal_list { Option::None => Option::None, Option::Some(l) => Option::Some(strs_view(l@)) }));
    let b22 = b_opt_bool("start_with_two_ideas"@, t.start_with_two_ideas);
    let b23 = b_opt_bool("use_foldartal"@, t.use_foldartal);
    let b24 = b_opt_bool("check_collapsal_paradigms"@, t.check_collapsal_paradigms);
    let b25 = b_opt_bool("double_check_collapsal_paradigms"@, t.double_check_collapsal_paradigms);
    let b26 = b_opt_str_list("expected_collapsal_paradigms"@, (match t.expected_collapsal_paradigms { Option::None => Option::None, Option::Some(l) => Option::Some(strs_view(l@)) }));
    let b27 = b_opt_bool("monthly_squad_auto_iterate"@, t.monthly_squad_auto_iterate);
    let b28 = b_opt_bool("monthly_squad_check_comms"@, t.monthly_squad_check_comms);
    let b29 = b_opt_bool("deep_exploration_auto_iterate"@, t.deep_exploration_auto_iterate);
    let b30 = b_opt_bool("collectible_mode_shopping"@, t.collectible_mode_shopping);
    let b31 = b_opt_str("collectible_mode_squad"@, opt_str_view(t.collectible_mode_squad));
    let b32 = b_opt_bool_map("collectible_mode_start_list"@, (match t.collectible_mode_start_list { Option::None => Option::None, Option::Some(m) => Option::Some(bpairs_view(m@)) }));
    let b33 = b_opt_bool("start_with_seed"@, t.start_with_seed);
    let p1 = b1;
    let p2 = p1 + b2;
    let p3 = p2 + b3;
    let p4 = p3 + b4;
    let p5 = p4 + b5;
    let p6 = p5 + b6;
    let p7 = p6 + b7;
    let p8 = p7 + b8;
    let p9 = p8 + b9;
    let p10 = p9 + b10;
    let p11 = p10 + b11;
    let p12 = p11 + b12;
    let p13 = p12 + b13;
    let p14 = p13 + b14;
    let p15 = p14 + b15;
    let p16 = p15 + b16;
    let p17 = p16 + b17;
    let p18 = p17 + b18;
    let p19 = p18 + b19;
    let p20 = p19 + b20;
    let p21 = p20 + b21;
    let p22 = p21 + b22;
    let p23 = p22 + b23;
    let p24 = p23 + b24;
    let p25 = p24 + b25;
    let p26 = p25 + b26;
    let p27 = p26 + b27;
    let p28 = p27 + b28;
    let p29 = p28 + b29;
    let p30 = p29 + b30;
    let p31 = p30 + b31;
    let p32 = p31 + b32;
    let p33 = p32 + b33;
    assert(roguelike_pairs(t) == p33);
    lemma_doc_get_block(b1, "investment_with_more_score"@);
    lemma_doc_get_block(b2, "investment_with_more_score"@);
    lemma_doc_get_block(b3, "investment_with_more_score"@);
    lemma_doc_get_block(b4, "investment_with_more_score"@);
    lemma_doc_get_block(b5, "investment_with_more_score"@);
    lemma_doc_get_block(b6, "investment_with_more_score"@);
    lemma_doc_get_block(b7, "investment_with_more_score"@);
    lemma_doc_get_block(b8, "investment_with_more_score"@);
    lemma_doc_get_block(b9, "investment_with_more_score"@);
    lemma_doc_get_block(b10, "investment_with_more_score"@);
    lemma_doc_get_block(b11, "investment_with_more_score"@);
    lemma_doc_get_block(b12, "investment_with_more_score"@);
    lemma_doc_get_block(b13, "investment_with_more_score"@);
    lemma_doc_get_block(b14, "investment_with_more_score"@);
    lemma_doc_get_block(b15, "investment_with_more_score"@);
    lemma_doc_get_block(b16, "investment_with_more_score"@);
    lemma_doc_get_block(b17, "investment_with_more_score"@);
    lemma_doc_get_block(b18, "investment_with_more_score"@);
    lemma_doc_get_block(b19, "investment_with_more_score"@);
    lemma_doc_get_block(b20, "investment_with_more_score"@);
    lemma_doc_get_block(b21, "investment_with_more_score"@);
    lemma_doc_get_block(b22, "investment_with_more_score"@);
    lemma_doc_get_block(b23, "investment_with_more_score"@);
    lemma_doc_get_block(b24, "investment_with_more_score"@);
    lemma_doc_get_block(b25, "investment_with_more_score"@);
    lemma_doc_get_block(b26, "investment_with_more_score"@);
    lemma_doc_get_block(b27, "investment_with_more_score"@);
    lemma_doc_get_block(b28, "investment_with_more_score"@);
    lemma_doc_get_block(b29, "investment_with_more_score"@);
    lemma_doc_get_block(b30, "investment_with_more_score"@);
    lemma_doc_get_block(b31, "investment_with_more_score"@);
    lemma_doc_get_block(b32, "investment_with_more_score"@);
    lemma_doc_get_block(b33, "investment_with_more_score"@);
    lemma_doc_get_concat(p32, b33, "investment_with_more_score"@);
    lemma_doc_get_concat(p31, b32, "investment_with_more_score"@);
    lemma_doc_get_concat(p30, b31, "investment_with_more_score"@);
    lemma_doc_get_concat(p29, b30, "investment_with_more_score"@);
    lemma_doc_get_concat(p28, b29, "investment_with_more_score"@);
    lemma_doc_get_concat(p27, b28, "investment_with_more_score"@);
    lemma_doc_get_concat(p26, b27, "investment_with_more_score"@);
    lemma_doc_get_concat(p25, b26, "investment_with_more_score"@);
    lemma_doc_get_concat(p24, b25, "investment_with_more_score"@);
    lemma_doc_get_concat(p23, b24, "investment_with_more_score"@);
    lemma_doc_get_concat(p22, b23, "investment_with_more_score"@);
    lemma_doc_get_concat(p21, b22, "investment_with_more_score"@);
    lemma_doc_get_concat(p20, b21, "investment_with_more_score"@);
    lemma_doc_get_concat(p19, b20, "investment_with_more_score"@);
    lemma_doc_get_concat(p18, b19, "investment_with_more_score"@);
    lemma_doc_get_concat(p17, b18, "investment_with_more_score"@);
    lemma_doc_get_concat(p16, b17, "investment_with_more_score"@);
    lemma_doc_get_concat(p15, b16, "investment_with_more_score"@);
    lemma_doc_get_concat(p14, b15, "investment_with_more_score"@);
    lemma_doc_get_concat(p13, b14, "investment_with_more_score"@);
    lemma_doc_get_concat(p12, b13, "investment_with_more_score"@);
    lemma_doc_get_concat(p11, b12, "investment_with_more_score"@);
    lemma_doc_get_concat(p10, b11, "investment_with_more_score"@);
    lemma_doc_get_concat(p9, b10, "investment_with_more_score"@);
    lemma_doc_get_concat(p8, b9, "investment_with_more_score"@);
    lemma_doc_get_concat(p7, b8, "investment_with_more_score"@);
    lemma_doc_get_concat(p6, b7, "investment_with_more_score"@);
    lemma_doc_get_concat(p5, b6, "investment_with_more_score"@);
    lemma_doc_get_concat(p4, b5, "investment_with_more_score"@);
    lemma_doc_get_concat(p3, b4, "investment_with_more_score"@);
    lemma_doc_get_concat(p2, b3, "investment_with_more_score"@);
    lemma_doc_get_concat(p1, b2, "investment_with_more_score"@);
}

/// What lookup of `start_with_elite_two` finds in the members of a Roguelike task.
proof fn roguelike_get_start_with_elite_two(t: RoguelikeTask)
    ensures
        doc_get(roguelike_pairs(t), "start_with_elite_two"@) == (match t.start_with_elite_two { Option::None => Option::<JsonV>::None, Option::Some(b) => Option::Some(JsonV::Sc(ScalarV::Bool(b))) }),
{
    reveal_strlit("enable");
    reveal_strlit("theme");
    reveal_strlit("mode");
    reveal_strlit("squad");
    reveal_strlit("roles");
    reveal_strlit("core_char");
    reveal_strlit("use_support");
    reveal_strlit("use_nonfriend_support");
    reveal_strlit("starts_count");
    reveal_strlit("difficulty");
    reveal_strlit("stop_at_final_boss");
    reveal_strlit("stop_at_max_level");
    reveal_strlit("investment_enabled");
    reveal_strlit("investments_count");
    reveal_strlit("stop_when_investment_full");
    reveal_strlit("investment_with_more_score");
    reveal_strlit("start_with_elite_two");
    reveal_strlit("only_start_with_elite_two");
    reveal_strlit("refresh_trader_with_dice");
    reveal_strlit("first_floor_foldartal");
    reveal_strlit("start_foldartal_list");
    reveal_strlit("start_with_two_ideas");
    reveal_strlit("use_foldartal");
    reveal_strlit("check_collapsal_paradigms");
    reveal_strlit("double_check_collapsal_paradigms");
    reveal_strlit("expected_collapsal_paradigms");
    reveal_strlit("monthly_squad_auto_iterate");
    reveal_strlit("monthly_squad_check_comms");
    reveal_strlit("deep_exploration_auto_iterate");
    reveal_strlit("collectible_mode_shopping");
    reveal_strlit("collectible_mode_squad");
    reveal_strlit("collectible_mode_start_list");
    reveal_strlit("start_with_seed");
    assert("start_with_elite_two"@.len() != "enable"@.len());
    assert("start_with_elite_two"@ != "enable"@);
    assert("start_with_elite_two"@.len() != "theme"@.len());
    assert("start_with_elite_two"@ != "theme"@);
    assert("start_with_elite_two"@.len() != "mode"@.len());
    assert("start_with_elite_two"@ != "mode"@);
    assert("start_with_elite_two"@.len() != "squad"@.len());
    assert("start_with_elite_two"@ != "squad"@);
    assert("start_with_elite_two"@.len() != "roles"@.len());
    assert("start_with_elite_two"@ != "roles"@);
    assert("start_with_elite_two"@.len() != "core_char"@.len());
    assert("start_with_elite_two"@ != "core_char"@);
    assert("start_with_elite_two"@.len() != "use_support"@.len());
    assert("start_with_elite_two"@ != "use_support"@);
    assert("start_with_elite_two"@.len() != "use_nonfriend_support"@.len());
    assert("start_with_elite_two"@ != "use_nonfriend_support"@);
    assert("start_with_elite_two"@.len() != "starts_count"@.len());
    assert("start_with_elite_two"@ != "starts_count"@);
    assert("start_with_elite_two"@.len() != "difficulty"@.len());
    assert("start_with_elite_two"@ != "difficulty"@);
    assert("start_with_elite_two"@.len() != "stop_at_final_boss"@.len());
    assert("start_with_elite_two"@ != "stop_at_final_boss"@);
    assert("start_with_elite_two"@.len() != "stop_at_max_level"@.len());
    assert("start_with_elite_two"@ != "stop_at_max_level"@);
    assert("start_with_elite_two"@.len() != "investment_enabled"@.len());
    assert("start_with_elite_two"@ != "investment_enabled"@);
    assert("start_with_elite_two"@.len() != "investments_count"@.len());
    assert("start_with_elite_two"@ != "investments_count"@);
    assert("start_with_elite_two"@.len() != "stop_when_investment_full"@.len());
    assert("start_with_elite_two"@ != "stop_when_investment_full"@);
    assert("start_with_elite_two"@.len() != "investment_with_more_score"@.len());
    assert("start_with_elite_two"@ != "investment_with_more_score"@);
    assert("start_with_elite_two"@.len() != "only_start_with_elite_two"@.len());
    assert("start_with_elite_two"@ != "only_start_with_elite_two"@);
    assert("start_with_elite_two"@.len() != "refresh_trader_with_dice"@.len());
    assert("start_with_elite_two"@ != "refresh_trader_with_dice"@);
    assert("start_with_elite_two"@.len() != "first_floor_foldartal"@.len());
    assert("start_with_elite_two"@ != "first_floor_foldartal"@);
    assert("start_with_elite_two"@[6] != "start_foldartal_list"@[6]);
    assert("start_with_elite_two"@ != "start_foldartal_list"@);
    assert("start_with_elite_two"@[11] != "start_with_two_ideas"@[11]);
    assert("start_with_elite_two"@ != "start_with_two_ideas"@);
    assert("start_with_elite_two"@.len() != "use_foldartal"@.len());
    assert("start_with_elite_two"@ != "use_foldartal"@);
    assert("start_with_elite_two"@.len() != "check_collapsal_paradigms"@.len());
    assert("start_with_elite_two"@ != "check_collapsal_paradigms"@);
    assert("start_with_elite_two"@.len() != "double_check_collapsal_paradigms"@.len());
    assert("start_with_elite_two"@ != "double_check_collapsal_paradigms"@);
    assert("start_with_elite_two"@.len() != "expected_collapsal_paradigms"@.len());
    assert("start_with_elite_two"@ != "expected_collapsal_paradigms"@);
    assert("start_with_elite_two"@.len() != "monthly_squad_auto_iterate"@.len());
    assert("start_with_elite_two"@ != "monthly_squad_auto_iterate"@);
    assert("start_with_elite_two"@.len() != "monthly_squad_check_comms"@.len());
    assert("start_with_elite_two"@ != "monthly_squad_check_comms"@);
    assert("start_with_elite_two"@.len() != "deep_exploration_auto_iterate"@.len());
    assert("start_with_elite_two"@ != "deep_exploration_auto_iterate"@);
    assert("start_with_elite_two"@.len() != "collectible_mode_shopping"@.len());
    assert("start_with_elite_two"@ != "collectible_mode_shopping"@);
    assert("start_with_elite_two"@.len() != "collectible_mode_squad"@.len());
    assert("start_with_elite_two"@ != "collectible_mode_squad"@);
    assert("start_with_elite_two"@.len() != "collectible_mode_start_list"@.len());
    assert("start_with_elite_two"@ != "collectible_mode_start_list"@);
    assert("start_with_elite_two"@.len() != "start_with_seed"@.len());
    assert("start_with_elite_two"@ != "start_with_seed"@);
    let b1 = b_opt_bool("enable"@, t.enable);
    let b2 = b_opt_str("theme"@, opt_str_view(t.theme));
    let b3 = b_opt_int("mode"@, t.mode);
    let b4 = b_opt_str("squad"@, opt_str_view(t.squad));
    let b5 = b_opt_str("roles"@, opt_str_view(t.roles));
    let b6 = b_opt_str("core_char"@, opt_str_view(t.core_char));
    let b7 = b_opt_bool("use_support"@, t.use_support);
    let b8 = b_opt_bool("use_nonfriend_support"@, t.use_nonfriend_support);
    let b9 = b_opt_int("starts_count"@, t.starts_count);
    let b10 = b_opt_int("difficulty"@, t.difficulty);
    let b11 = b_opt_bool("stop_at_final_boss"@, t.stop_at_final_boss);
    let b12 = b_opt_bool("stop_at_max_level"@, t.stop_at_max_level);
    let b13 = b_opt_bool("investment_enabled"@, t.investment_enabled);
    let b14 = b_opt_int("investments_count"@, t.investments_count);
    let b15 = b_opt_bool("stop_when_investment_full"@, t.stop_when_investment_full);
    let b16 = b_opt_bool("investment_with_more_score"@, t.investment_with_more_score);
    let b17 = b_opt_bool("start_with_elite_two"@, t.start_with_elite_two);
    let b18 = b_opt_bool("only_start_with_elite_two"@, t.only_start_with_elite_two);
    let b19 = b_opt_bool("refresh_trader_with_dice"@, t.refresh_trader_with_dice);
    let b20 = b_opt_str("first_floor_foldartal"@, opt_str_view(t.first_floor_foldartal));
    let b21 = b_opt_str_list("start_foldartal_list"@, (match t.start_foldartal_list { Option::None => Option::None, Option::Some(l) => Option::Some(strs_view(l@)) }));
    let b22 = b_opt_bool("start_with_two_ideas"@, t.start_with_two_ideas);
    let b23 = b_opt_bool("use_foldartal"@, t.use_foldartal);
    let b24 = b_opt_bool("check_collapsal_paradigms"@, t.check_collapsal_paradigms);
    let b25 = b_opt_bool("double_check_collapsal_paradigms"@, t.double_check_collapsal_paradigms);
    let b26 = b_opt_str_list("expected_collapsal_paradigms"@, (match t.expected_collapsal_paradigms { Option::None => Option::None, Option::Some(l) => Option::Some(strs_view(l@)) }));
    let b27 = b_opt_bool("monthly_squad_auto_iterate"@, t.monthly_squad_auto_iterate);
    let b28 = b_opt_bool("monthly_squad_check_comms"@, t.monthly_squad_check_comms);
    let b29 = b_opt_bool("deep_exploration_auto_iterate"@, t.deep_exploration_auto_iterate);
    let b30 = b_opt_bool("collectible_mode_shopping"@, t.collectible_mode_shopping);
    let b31 = b_opt_str("collectible_mode_squad"@, opt_str_view(t.collectible_mode_squad));
    let b32 = b_opt_bool_map("collectible_mode_start_list"@, (match t.collectible_mode_start_list { Option::None => Option::None, Option::Some(m) => Option::Some(bpairs_view(m@)) }));
    let b33 = b_opt_bool("start_with_seed"@, t.start_with_seed);
    let p1 = b1;
    let p2 = p1 + b2;
    let p3 = p2 + b3;
    let p4 = p3 + b4;
    let p5 = p4 + b5;
    let p6 = p5 + b6;
    let p7 = p6 + b7;
    let p8 = p7 + b8;
    let p9 = p8 + b9;
    let p10 = p9 + b10;
    let p11 = p10 + b11;
    let p12 = p11 + b12;
    let p13 = p12 + b13;
    let p14 = p13 + b14;
    let p15 = p14 + b15;
    let p16 = p15 + b16;
    let p17 = p16 + b17;
    let p18 = p17 + b18;
    let p19 = p18 + b19;
    let p20 = p19 + b20;
    let p21 = p20 + b21;
    let p22 = p21 + b22;
    let p23 = p22 + b23;
    let p24 = p23 + b24;
    let p25 = p24 + b25;
    let p26 = p25 + b26;
    let p27 = p26 + b27;
    let p28 = p27 + b28;
    let p29 = p28 + b29;
    let p30 = p29 + b30;
    let p31 = p30 + b31;
    let p32 = p31 + b32;
    let p33 = p32 + b33;
    assert(roguelike_pairs(t) == p33);
    lemma_doc_get_block(b1, "start_with_elite_two"@);
    lemma_doc_get_block(b2, "start_with_elite_two"@);
    lemma_doc_get_block(b3, "start_with_elite_two"@);
    lemma_doc_get_block(b4, "start_with_elite_two"@);
    lemma_doc_get_block(b5, "start_with_elite_two"@);
    lemma_doc_get_block(b6, "start_with_elite_two"@);
    lemma_doc_get_block(b7, "start_with_elite_two"@);
    lemma_doc_get_block(b8, "start_with_elite_two"@);
    lemma_doc_get_block(b9, "start_with_elite_two"@);
    lemma_doc_get_block(b10, "start_with_elite_two"@);
    lemma_doc_get_block(b11, "start_with_elite_two"@);
    lemma_doc_get_block(b12, "start_with_elite_two"@);
    lemma_doc_get_block(b13, "start_with_elite_two"@);
    lemma_doc_get_block(b14, "start_with_elite_two"@);
    lemma_doc_get_block(b15, "start_with_elite_two"@);
    lemma_doc_get_block(b16, "start_with_elite_two"@);
    lemma_doc_get_block(b17, "start_with_elite_two"@);
    lemma_doc_get_block(b18, "start_with_elite_two"@);
    lemma_doc_get_block(b19, "start_with_elite_two"@);
    lemma_doc_get_block(b20, "start_with_elite_two"@);
    lemma_doc_get_block(b21, "start_with_elite_two"@);
    lemma_doc_get_block(b22, "start_with_elite_two"@);
    lemma_doc_get_block(b23, "start_with_elite_two"@);
    lemma_doc_get_block(b24, "start_with_elite_two"@);
    lemma_doc_get_block(b25, "start_with_elite_two"@);
    lemma_doc_get_block(b26, "start_with_elite_two"@);
    lemma_doc_get_block(b27, "start_with_elite_two"@);
    lemma_doc_get_block(b28, "start_with_elite_two"@);
    lemma_doc_get_block(b29, "start_with_elite_two"@);
    lemma_doc_get_block(b30, "start_with_elite_two"@);
    lemma_doc_get_block(b31, "start_with_elite_two"@);
    lemma_doc_get_block(b32, "start_with_elite_two"@);
    lemma_doc_get_block(b33, "start_with_elite_two"@);
    lemma_doc_get_concat(p32, b33, "start_with_elite_two"@);
    lemma_doc_get_concat(p31, b32, "start_with_elite_two"@);
    lemma_doc_get_concat(p30, b31, "start_with_elite_two"@);
    lemma_doc_get_concat(p29, b30, "start_with_elite_two"@);
    lemma_doc_get_concat(p28, b29, "start_with_elite_two"@);
    lemma_doc_get_concat(p27, b28, "start_with_elite_two"@);
    lemma_doc_get_concat(p26, b27, "start_with_elite_two"@);
    lemma_doc_get_concat(p25, b26, "start_with_elite_two"@);
    lemma_doc_get_concat(p24, b25, "start_with_elite_two"@);
    lemma_doc_get_concat(p23, b24, "start_with_elite_two"@);
    lemma_doc_get_concat(p22, b23, "start_with_elite_two"@);
    lemma_doc_get_concat(p21, b22, "start_with_elite_two"@);
    lemma_doc_get_concat(p20, b21, "start_with_elite_two"@);
    lemma_doc_get_concat(p19, b20, "start_with_elite_two"@);
    lemma_doc_get_concat(p18, b19, "start_with_elite_two"@);
    lemma_doc_get_concat(p17, b18, "start_with_elite_two"@);
    lemma_doc_get_concat(p16, b17, "start_with_elite_two"@);
    lemma_doc_get_concat(p15, b16, "start_with_elite_two"@);
    lemma_doc_get_concat(p14, b15, "start_with_elite_two"@);
    lemma_doc_get_concat(p13, b14, "start_with_elite_two"@);
    lemma_doc_get_concat(p12, b13, "start_with_elite_two"@);
    lemma_doc_get_concat(p11, b12, "start_with_elite_two"@);
    lemma_doc_get_concat(p10, b11, "start_with_elite_two"@);
    lemma_doc_get_concat(p9, b10, "start_with_elite_two"@);
    lemma_doc_get_concat(p8, b9, "start_with_elite_two"@);
    lemma_doc_get_concat(p7, b8, "start_with_elite_two"@);
    lemma_doc_get_concat(p6, b7, "start_with_elite_two"@);
    lemma_doc_get_concat(p5, b6, "start_with_elite_two"@);
    lemma_doc_get_concat(p4, b5, "start_with_elite_two"@);
    lemma_doc_get_concat(p3, b4, "start_with_elite_two"@);
    lemma_doc_get_concat(p2, b3, "start_with_elite_two"@);
    lemma_doc_get_concat(p1, b2, "start_with_elite_two"@);
}

/// What lookup of `only_start_with_elite_two` finds in the members of a Roguelike task.
proof fn roguelike_get_only_start_with_elite_two(t: RoguelikeTask)
    ensures
        doc_get(roguelike_pairs(t), "only_start_with_elite_two"@) == (match t.only_start_with_elite_two { Option::None => Option::<JsonV>::None, Option::Some(b) => Option::Some(JsonV::Sc(ScalarV::Bool(b))) }),
{
    reveal_strlit("enable");
    reveal_strlit("theme");
    reveal_strlit("mode");
    reveal_strlit("squad");
    reveal_strlit("roles");
    reveal_strlit("core_char");
    reveal_strlit("use_support");
    reveal_strlit("use_nonfriend_support");
    reveal_strlit("starts_count");
    reveal_strlit("difficulty");
    reveal_strlit("stop_at_final_boss");
    reveal_strlit("stop_at_max_level");
    reveal_strlit("investment_enabled");
    reveal_strlit("investments_count");
    reveal_strlit("stop_when_investment_full");
    reveal_strlit("investment_with_more_score");
    reveal_strlit("start_with_elite_two");
    reveal_strlit("only_start_with_elite_two");
    reveal_strlit("refresh_trader_with_dice");
    reveal_strlit("first_floor_foldartal");
    reveal_strlit("start_foldartal_list");
    reveal_strlit("start_with_two_ideas");
    reveal_strlit("use_foldartal");
    reveal_strlit("check_collapsal_paradigms");
    reveal_strlit("double_check_collapsal_paradigms");
    reveal_strlit("expected_collapsal_paradigms");
    reveal_strlit("monthly_squad_auto_iterate");
    reveal_strlit("monthly_squad_check_comms");
    reveal_strlit("deep_exploration_auto_iterate");
    reveal_strlit("collectible_mode_shopping");
    reveal_strlit("collectible_mode_squad");
    reveal_strlit("collectible_mode_start_list");
    reveal_strlit("start_with_seed");
    assert("only_start_with_elite_two"@.len() != "enable"@.len());
    assert("only_start_with_elite_two"@ != "enable"@);
    assert("only_start_with_elite_two"@.len() != "theme"@.len());
    assert("only_start_with_elite_two"@ != "theme"@);
    assert("only_start_with_elite_two"@.len() != "mode"@.len());
    assert("only_start_with_elite_two"@ != "mode"@);
    assert("only_start_with_elite_two"@.len() != "squad"@.len());
    assert("only_start_with_elite_two"@ != "squad"@);
    assert("only_start_with_elite_two"@.len() != "roles"@.len());
    assert("only_start_with_elite_two"@ != "roles"@);
    assert("only_start_with_elite_two"@.len() != "core_char"@.len());
    assert("only_start_with_elite_two"@ != "core_char"@);
    assert("only_start_with_elite_two"@.len() != "use_support"@.len());
    assert("only_start_with_elite_two"@ != "use_support"@);
    assert("only_start_with_elite_two"@.len() != "use_nonfriend_support"@.len());
    assert("only_start_with_elite_two"@ != "use_nonfriend_support"@);
    assert("only_start_with_elite_two"@.len() != "starts_count"@.len());
    assert("only_start_with_elite_two"@ != "starts_count"@);
    assert("only_start_with_elite_two"@.len() != "difficulty"@.len());
    assert("only_start_with_elite_two"@ != "difficulty"@);
    assert("only_start_with_elite_two"@.len() != "stop_at_final_boss"@.len());
    assert("only_start_with_elite_two"@ != "stop_at_final_boss"@);
    assert("only_start_with_elite_two"@.len() != "stop_at_max_level"@.len());
    assert("only_start_with_elite_two"@ != "stop_at_max_level"@);
    assert("only_start_with_elite_two"@.len() != "investment_enabled"@.len());
    assert("only_start_with_elite_two"@ != "investment_enabled"@);
    assert("only_start_with_elite_two"@.len() != "investments_count"@.len());
    assert("only_start_with_elite_two"@ != "investments_count"@);
    assert("only_start_with_elite_two"@[0] != "stop_when_investment_full"@[0]);
    assert("only_start_with_elite_two"@ != "stop_when_investment_full"@);
    assert("only_start_with_elite_two"@.len() != "investment_with_more_score"@.len());
    assert("only_start_with_elite_two"@ != "investment_with_more_score"@);
    assert("only_start_with_elite_two"@.len() != "start_with_elite_two"@.len());
    assert("only_start_with_elite_two"@ != "start_with_elite_two"@);
    assert("only_start_with_elite_two"@.len() != "refresh_trader_with_dice"@.len());
    assert("only_start_with_elite_two"@ != "refresh_trader_with_dice"@);
    assert("only_start_with_elite_two"@.len() != "first_floor_foldartal"@.len());
    assert("only_start_with_elite_two"@ != "first_floor_foldartal"@);
    assert("only_start_with_elite_two"@.len() != "start_foldartal_list"@.len());
    assert("only_start_with_elite_two"@ != "start_foldartal_list"@);
    assert("only_start_with_elite_two"@.len() != "start_with_two_ideas"@.len());
    assert("only_start_with_elite_two"@ != "start_with_two_ideas"@);
    assert("only_start_with_elite_two"@.len() != "use_foldartal"@.len());
    assert("only_start_with_elite_two"@ != "use_foldartal"@);
    assert("only_start_with_elite_two"@[0] != "check_collapsal_paradigms"@[0]);
    assert("only_start_with_elite_two"@ != "check_collapsal_paradigms"@);
    assert("only_start_with_elite_two"@.len() != "double_check_collapsal_paradigms"@.len());
    assert("only_start_with_elite_two"@ != "double_check_collapsal_paradigms"@);
    assert("only_start_with_elite_two"@.len() != "expected_collapsal_paradigms"@.len());
    assert("only_start_with_elite_two"@ != "expected_collapsal_paradigms"@);
    assert("only_start_with_elite_two"@.len() != "monthly_squad_auto_iterate"@.len());
    assert("only_start_with_elite_two"@ != "monthly_squad_auto_iterate"@);
    assert("only_start_with_elite_two"@[0] != "monthly_squad_check_comms"@[0]);
    assert("only_start_with_elite_two"@ != "monthly_squad_check_comms"@);
    assert("only_start_with_elite_two"@.len() != "deep_exploration_auto_iterate"@.len());
    assert("only_start_with_elite_two"@ != "deep_exploration_auto_iterate"@);
    assert("only_start_with_elite_two"@[0] != "collectible_mode_shopping"@[0]);
    assert("only_start_with_elite_two"@ != "collectible_mode_shopping"@);
    assert("only_start_with_elite_two"@.len() != "collectible_mode_squad"@.len());
    assert("only_start_with_elite_two"@ != "collectible_mode_squad"@);
    assert("only_start_with_elite_two"@.len() != "collectible_mode_start_list"@.len());
    assert("only_start_with_elite_two"@ != "collectible_mode_start_list"@);
    assert("only_start_with_elite_two"@.len() != "start_with_seed"@.len());
    assert("only_start_with_elite_two"@ != "start_with_seed"@);
    let b1 = b_opt_bool("enable"@, t.enable);
    let b2 = b_opt_str("theme"@, opt_str_view(t.theme));
    let b3 = b_opt_int("mode"@, t.mode);
    let b4 = b_opt_str("squad"@, opt_str_view(t.squad));
    let b5 = b_opt_str("roles"@, opt_str_view(t.roles));
    let b6 = b_opt_str("core_char"@, opt_str_view(t.core_char));
    let b7 = b_opt_bool("use_support"@, t.use_support);
    let b8 = b_opt_bool("use_nonfriend_support"@, t.use_nonfriend_support);
    let b9 = b_opt_int("starts_count"@, t.starts_count);
    let b10 = b_opt_int("difficulty"@, t.difficulty);
    let b11 = b_opt_bool("stop_at_final_boss"@, t.stop_at_final_boss);
    let b12 = b_opt_bool("stop_at_max_level"@, t.stop_at_max_level);
    let b13 = b_opt_bool("investment_enabled"@, t.investment_enabled);
    let b14 = b_opt_int("investments_count"@, t.investments_count);
    let b15 = b_opt_bool("stop_when_investment_full"@, t.stop_when_investment_full);
    let b16 = b_opt_bool("investment_with_more_score"@, t.investment_with_more_score);
    let b17 = b_opt_bool("start_with_elite_two"@, t.start_with_elite_two);
    let b18 = b_opt_bool("only_start_with_elite_two"@, t.only_start_with_elite_two);
    let b19 = b_opt_bool("refresh_trader_with_dice"@, t.refresh_trader_with_dice);
    let b20 = b_opt_str("first_floor_foldartal"@, opt_str_view(t.first_floor_foldartal));
    let b21 = b_opt_str_list("start_foldartal_list"@, (match t.start_foldartal_list { Option::None => Option::None, Option::Some(l) => Option::Some(strs_view(l@)) }));
    let b22 = b_opt_bool("start_with_two_ideas"@, t.start_with_two_ideas);
    let b23 = b_opt_bool("use_foldartal"@, t.use_foldartal);
    let b24 = b_opt_bool("check_collapsal_paradigms"@, t.check_collapsal_paradigms);
    let b25 = b_opt_bool("double_check_collapsal_paradigms"@, t.double_check_collapsal_paradigms);
    let b26 = b_opt_str_list("expected_collapsal_paradigms"@, (match t.expected_collapsal_paradigms { Option::None => Option::None, Option::Some(l) => Option::Some(strs_view(l@)) }));
    let b27 = b_opt_bool("monthly_squad_auto_iterate"@, t.monthly_squad_auto_iterate);
    let b28 = b_opt_bool("monthly_squad_check_comms"@, t.monthly_squad_check_comms);
    let b29 = b_opt_bool("deep_exploration_auto_iterate"@, t.deep_exploration_auto_iterate);
    let b30 = b_opt_bool("collectible_mode_shopping"@, t.collectible_mode_shopping);
    let b31 = b_opt_str("collectible_mode_squad"@, opt_str_view(t.collectible_mode_squad));
    let b32 = b_opt_bool_map("collectible_mode_start_list"@, (match t.collectible_mode_start_list { Option::None => Option::None, Option::Some(m) => Option::Some(bpairs_view(m@)) }));
    let b33 = b_opt_bool("start_with_seed"@, t.start_with_seed);
    let p1 = b1;
    let p2 = p1 + b2;
    let p3 = p2 + b3;
    let p4 = p3 + b4;
    let p5 = p4 + b5;
    let p6 = p5 + b6;
    let p7 = p6 + b7;
    let p8 = p7 + b8;
    let p9 = p8 + b9;
    let p10 = p9 + b10;
    let p11 = p10 + b11;
    let p12 = p11 + b12;
    let p13 = p12 + b13;
    let p14 = p13 + b14;
    let p15 = p14 + b15;
    let p16 = p15 + b16;
    let p17 = p16 + b17;
    let p18 = p17 + b18;
    let p19 = p18 + b19;
    let p20 = p19 + b20;
    let p21 = p20 + b21;
    let p22 = p21 + b22;
    let p23 = p22 + b23;
    let p24 = p23 + b24;
    let p25 = p24 + b25;
    let p26 = p25 + b26;
    let p27 = p26 + b27;
    let p28 = p27 + b28;
    let p29 = p28 + b29;
    let p30 = p29 + b30;
    let p31 = p30 + b31;
    let p32 = p31 + b32;
    let p33 = p32 + b33;
    assert(roguelike_pairs(t) == p33);
    lemma_doc_get_block(b1, "only_start_with_elite_two"@);
    lemma_doc_get_block(b2, "only_start_with_elite_two"@);
    lemma_doc_get_block(b3, "only_start_with_elite_two"@);
    lemma_doc_get_block(b4, "only_start_with_elite_two"@);
    lemma_doc_get_block(b5, "only_start_with_elite_two"@);
    lemma_doc_get_block(b6, "only_start_with_elite_two"@);
    lemma_doc_get_block(b7, "only_start_with_elite_two"@);
    lemma_doc_get_block(b8, "only_start_with_elite_two"@);
    lemma_doc_get_block(b9, "only_start_with_elite_two"@);
    lemma_doc_get_block(b10, "only_start_with_elite_two"@);
    lemma_doc_get_block(b11, "only_start_with_elite_two"@);
    lemma_doc_get_block(b12, "only_start_with_elite_two"@);
    lemma_doc_get_block(b13, "only_start_with_elite_two"@);
    lemma_doc_get_block(b14, "only_start_with_elite_two"@);
    lemma_doc_get_block(b15, "only_start_with_elite_two"@);
    lemma_doc_get_block(b16, "only_start_with_elite_two"@);
    lemma_doc_get_block(b17, "only_start_with_elite_two"@);
    lemma_doc_get_block(b18, "only_start_with_elite_two"@);
    lemma_doc_get_block(b19, "only_start_with_elite_two"@);
    lemma_doc_get_block(b20, "only_start_with_elite_two"@);
    lemma_doc_get_block(b21, "only_start_with_elite_two"@);
    lemma_doc_get_block(b22, "only_start_with_elite_two"@);
    lemma_doc_get_block(b23, "only_start_with_elite_two"@);
    lemma_doc_get_block(b24, "only_start_with_elite_two"@);
    lemma_doc_get_block(b25, "only_start_with_elite_two"@);
    lemma_doc_get_block(b26, "only_start_with_elite_two"@);
    lemma_doc_get_block(b27, "only_start_with_elite_two"@);
    lemma_doc_get_block(b28, "only_start_with_elite_two"@);
    lemma_doc_get_block(b29, "only_start_with_elite_two"@);
    lemma_doc_get_block(b30, "only_start_with_elite_two"@);
    lemma_doc_get_block(b31, "only_start_with_elite_two"@);
    lemma_doc_get_block(b32, "only_start_with_elite_two"@);
    lemma_doc_get_block(b33, "only_start_with_elite_two"@);
    lemma_doc_get_concat(p32, b33, "only_start_with_elite_two"@);
    lemma_doc_get_concat(p31, b32, "only_start_with_elite_two"@);
    lemma_doc_get_concat(p30, b31, "only_start_with_elite_two"@);
    lemma_doc_get_concat(p29, b30, "only_start_with_elite_two"@);
    lemma_doc_get_concat(p28, b29, "only_start_with_elite_two"@);
    lemma_doc_get_concat(p27, b28, "only_start_with_elite_two"@);
    lemma_doc_get_concat(p26, b27, "only_start_with_elite_two"@);
    lemma_doc_get_concat(p25, b26, "only_start_with_elite_two"@);
    lemma_doc_get_concat(p24, b25, "only_start_with_elite_two"@);
    lemma_doc_get_concat(p23, b24, "only_start_with_elite_two"@);
    lemma_doc_get_concat(p22, b23, "only_start_with_elite_two"@);
    lemma_doc_get_concat(p21, b22, "only_start_with_elite_two"@);
    lemma_doc_get_concat(p20, b21, "only_start_with_elite_two"@);
    lemma_doc_get_concat(p19, b20, "only_start_with_elite_two"@);
    lemma_doc_get_concat(p18, b19, "only_start_with_elite_two"@);
    lemma_doc_get_concat(p17, b18, "only_start_with_elite_two"@);
    lemma_doc_get_concat(p16, b17, "only_start_with_elite_two"@);
    lemma_doc_get_concat(p15, b16, "only_start_with_elite_two"@);
    lemma_doc_get_concat(p14, b15, "only_start_with_elite_two"@);
    lemma_doc_get_concat(p13, b14, "only_start_with_elite_two"@);
    lemma_doc_get_concat(p12, b13, "only_start_with_elite_two"@);
    lemma_doc_get_concat(p11, b12, "only_start_with_elite_two"@);
    lemma_doc_get_concat(p10, b11, "only_start_with_elite_two"@);
    lemma_doc_get_concat(p9, b10, "only_start_with_elite_two"@);
    lemma_doc_get_concat(p8, b9, "only_start_with_elite_two"@);
    lemma_doc_get_concat(p7, b8, "only_start_with_elite_two"@);
    lemma_doc_get_concat(p6, b7, "only_start_with_elite_two"@);
    lemma_doc_get_concat(p5, b6, "only_start_with_elite_two"@);
    lemma_doc_get_concat(p4, b5, "only_start_with_elite_two"@);
    lemma_doc_get_concat(p3, b4, "only_start_with_elite_two"@);
    lemma_doc_get_concat(p2, b3, "only_start_with_elite_two"@);
    lemma_doc_get_concat(p1, b2, "only_start_with_elite_two"@);
}

/// What lookup of `refresh_trader_with_dice` finds in the members of a Roguelike task.
proof fn roguelike_get_refresh_trader_with_dice(t: RoguelikeTask)
    ensures
        doc_get(roguelike_pairs(t), "refresh_trader_with_dice"@) == (match t.refresh_trader_with_dice { Option::None => Option::<JsonV>::None, Option::Some(b) => Option::Some(JsonV::Sc(ScalarV::Bool(b))) }),
{
    reveal_strlit("enable");
    reveal_strlit("theme");
    reveal_strlit("mode");
    reveal_strlit("squad");
    reveal_strlit("roles");
    reveal_strlit("core_char");
    reveal_strlit("use_support");
    reveal_strlit("use_nonfriend_support");
    reveal_strlit("starts_count");
    reveal_strlit("difficulty");
    reveal_strlit("stop_at_final_boss");
    reveal_strlit("stop_at_max_level");
    reveal_strlit("investment_enabled");
    reveal_strlit("investments_count");
    reveal_strlit("stop_when_investment_full");
    reveal_strlit("investment_with_more_score");
    reveal_strlit("start_with_elite_two");
    reveal_strlit("only_start_with_elite_two");
    reveal_strlit("refresh_trader_with_dice");
    reveal_strlit("first_floor_foldartal");
    reveal_strlit("start_foldartal_list");
    reveal_strlit("start_with_two_ideas");
    reveal_strlit("use_foldartal");
    reveal_strlit("check_collapsal_paradigms");
    reveal_strlit("double_check_collapsal_paradigms");
    reveal_strlit("expected_collapsal_paradigms");
    reveal_strlit("monthly_squad_auto_iterate");
    reveal_strlit("monthly_squad_check_comms");
    reveal_strlit("deep_exploration_auto_iterate");
    reveal_strlit("collectible_mode_shopping");
    reveal_strlit("collectible_mode_squad");
    reveal_strlit("collectible_mode_start_list");
    reveal_strlit("start_with_seed");
    assert("refresh_trader_with_dice"@.len() != "enable"@.len());
    assert("refresh_trader_with_dice"@ != "enable"@);
    assert("refresh_trader_with_dice"@.len() != "theme"@.len());
    assert("refresh_trader_with_dice"@ != "theme"@);
    assert("refresh_trader_with_dice"@.len() != "mode"@.len());
    assert("refresh_trader_with_dice"@ != "mode"@);
    assert("refresh_trader_with_dice"@.len() != "squad"@.len());
    assert("refresh_trader_with_dice"@ != "squad"@);
    assert("refresh_trader_with_dice"@.len() != "roles"@.len());
    assert("refresh_trader_with_dice"@ != "roles"@);
    assert("refresh_trader_with_dice"@.len() != "core_char"@.len());
    assert("refresh_trader_with_dice"@ != "core_char"@);
    assert("refresh_trader_with_dice"@.len() != "use_support"@.len());
    assert("refresh_trader_with_dice"@ != "use_support"@);
    assert("refresh_trader_with_dice"@.len() != "use_nonfriend_support"@.len());
    assert("refresh_trader_with_dice"@ != "use_nonfriend_support"@);
    assert("refresh_trader_with_dice"@.len() != "starts_count"@.len());
    assert("refresh_trader_with_dice"@ != "starts_count"@);
    assert("refresh_trader_with_dice"@.len() != "difficulty"@.len());
    assert("refresh_trader_with_dice"@ != "difficulty"@);
    assert("refresh_trader_with_dice"@.len() != "stop_at_final_boss"@.len());
    assert("refresh_trader_with_dice"@ != "stop_at_final_boss"@);
    assert("refresh_trader_with_dice"@.len() != "stop_at_max_level"@.len());
    assert("refresh_trader_with_dice"@ != "stop_at_max_level"@);
    assert("refresh_trader_with_dice"@.len() != "investment_enabled"@.len());
    assert("refresh_trader_with_dice"@ != "investment_enabled"@);
    assert("refresh_trader_with_dice"@.len() != "investments_count"@.len());
    assert("refresh_trader_with_dice"@ != "investments_count"@);
    assert("refresh_trader_with_dice"@.len() != "stop_when_investment_full"@.len());
    assert("refresh_trader_with_dice"@ != "stop_when_investment_full"@);
    assert("refresh_trader_with_dice"@.len() != "investment_with_more_score"@.len());
    assert("refresh_trader_with_dice"@ != "investment_with_more_score"@);
    assert("refresh_trader_with_dice"@.len() != "start_with_elite_two"@.len());
    assert("refresh_trader_with_dice"@ != "start_with_elite_two"@);
    assert("refresh_trader_with_dice"@.len() != "only_start_with_elite_two"@.len());
    assert("refresh_trader_with_dice"@ != "only_start_with_elite_two"@);
    assert("refresh_trader_with_dice"@.len() != "first_floor_foldartal"@.len());
    assert("refresh_trader_with_dice"@ != "first_floor_foldartal"@);
    assert("refresh_trader_with_dice"@.len() != "start_foldartal_list"@.len());
    assert("refresh_trader_with_dice"@ != "start_foldartal_list"@);
    assert("refresh_trader_with_dice"@.len() != "start_with_two_ideas"@.len());
    assert("refresh_trader_with_dice"@ != "start_with_two_ideas"@);
    assert("refresh_trader_with_dice"@.len() != "use_foldartal"@.len());
    assert("refresh_trader_with_dice"@ != "use_foldartal"@);
    assert("refresh_trader_with_dice"@.len() != "check_collapsal_paradigms"@.len());
    assert("refresh_trader_with_dice"@ != "check_collapsal_paradigms"@);
    assert("refresh_trader_with_dice"@.len() != "double_check_collapsal_paradigms"@.len());
    assert("refresh_trader_with_dice"@ != "double_check_collapsal_paradigms"@);
    assert("refresh_trader_with_dice"@.len() != "expected_collapsal_paradigms"@.len());
    assert("refresh_trader_with_dice"@ != "expected_collapsal_paradigms"@);
    assert("refresh_trader_with_dice"@.len() != "monthly_squad_auto_iterate"@.len());
    assert("refresh_trader_with_dice"@ != "monthly_squad_auto_iterate"@);
    assert("refresh_trader_with_dice"@.len() != "monthly_squad_check_comms"@.len());
    assert("refresh_trader_with_dice"@ != "monthly_squad_check_comms"@);
    assert("refresh_trader_with_dice"@.len() != "deep_exploration_auto_iterate"@.len());
    assert("refresh_trader_with_dice"@ != "deep_exploration_auto_iterate"@);
    assert("refresh_trader_with_dice"@.len() != "collectible_mode_shopping"@.len());
    assert("refresh_trader_with_dice"@ != "collectible_mode_shopping"@);
    assert("refresh_trader_with_dice"@.len() != "collectible_mode_squad"@.len());
    assert("refresh_trader_with_dice"@ != "collectible_mode_squad"@);
    assert("refresh_trader_with_dice"@.len() != "collectible_mode_start_list"@.len());
    assert("refresh_trader_with_dice"@ != "collectible_mode_start_list"@);
    assert("refresh_trader_with_dice"@.len() != "start_with_seed"@.len());
    assert("refresh_trader_with_dice"@ != "start_with_seed"@);
    let b1 = b_opt_bool("enable"@, t.enable);
    let b2 = b_opt_str("theme"@, opt_str_view(t.theme));
    let b3 = b_opt_int("mode"@, t.mode);
    let b4 = b_opt_str("squad"@, opt_str_view(t.squad));
    let b5 = b_opt_str("roles"@, opt_str_view(t.roles));
    let b6 = b_opt_str("core_char"@, opt_str_view(t.core_char));
    let b7 = b_opt_bool("use_support"@, t.use_support);
    let b8 = b_opt_bool("use_nonfriend_support"@, t.use_nonfriend_support);
    let b9 = b_opt_int("starts_count"@, t.starts_count);
    let b10 = b_opt_int("difficulty"@, t.difficulty);
    let b11 = b_opt_bool("stop_at_final_boss"@, t.stop_at_final_boss);
    let b12 = b_opt_bool("stop_at_max_level"@, t.stop_at_max_level);
    let b13 = b_opt_bool("investment_enabled"@, t.investment_enabled);
    let b14 = b_opt_int("investments_count"@, t.investments_count);
    let b15 = b_opt_bool("stop_when_investment_full"@, t.stop_when_investment_full);
    let b16 = b_opt_bool("investment_with_more_score"@, t.investment_with_more_score);
    let b17 = b_opt_bool("start_with_elite_two"@, t.start_with_elite_two);
    let b18 = b_opt_bool("only_start_with_elite_two"@, t.only_start_with_elite_two);
    let b19 = b_opt_bool("refresh_trader_with_dice"@, t.refresh_trader_with_dice);
    let b20 = b_opt_str("first_floor_foldartal"@, opt_str_view(t.first_floor_foldartal));
    let b21 = b_opt_str_list("start_foldartal_list"@, (match t.start_foldartal_list { Option::None => Option::None, Option::Some(l) => Option::Some(strs_view(l@)) }));
    let b22 = b_opt_bool("start_with_two_ideas"@, t.start_with_two_ideas);
    let b23 = b_opt_bool("use_foldartal"@, t.use_foldartal);
    let b24 = b_opt_bool("check_collapsal_paradigms"@, t.check_collapsal_paradigms);
    let b25 = b_opt_bool("double_check_collapsal_paradigms"@, t.double_check_collapsal_paradigms);
    let b26 = b_opt_str_list("expected_collapsal_paradigms"@, (match t.expected_collapsal_paradigms { Option::None => Option::None, Option::Some(l) => Option::Some(strs_view(l@)) }));
    let b27 = b_opt_bool("monthly_squad_auto_iterate"@, t.monthly_squad_auto_iterate);
    let b28 = b_opt_bool("monthly_squad_check_comms"@, t.monthly_squad_check_comms);
    let b29 = b_opt_bool("deep_exploration_auto_iterate"@, t.deep_exploration_auto_iterate);
    let b30 = b_opt_bool("collectible_mode_shopping"@, t.collectible_mode_shopping);
    let b31 = b_opt_str("collectible_mode_squad"@, opt_str_view(t.collectible_mode_squad));
    let b32 = b_opt_bool_map("collectible_mode_start_list"@, (match t.collectible_mode_start_list { Option::None => Option::None, Option::Some(m) => Option::Some(bpairs_view(m@)) }));
    let b33 = b_opt_bool("start_with_seed"@, t.start_with_seed);
    let p1 = b1;
    let p2 = p1 + b2;
    let p3 = p2 + b3;
    let p4 = p3 + b4;
    let p5 = p4 + b5;
    let p6 = p5 + b6;
    let p7 = p6 + b7;
    let p8 = p7 + b8;
    let p9 = p8 + b9;
    let p10 = p9 + b10;
    let p11 = p10 + b11;
    let p12 = p11 + b12;
    let p13 = p12 + b13;
    let p14 = p13 + b14;
    let p15 = p14 + b15;
    let p16 = p15 + b16;
    let p17 = p16 + b17;
    let p18 = p17 + b18;
    let p19 = p18 + b19;
    let p20 = p19 + b20;
    let p21 = p20 + b21;
    let p22 = p21 + b22;
    let p23 = p22 + b23;
    let p24 = p23 + b24;
    let p25 = p24 + b25;
    let p26 = p25 + b26;
    let p27 = p26 + b27;
    let p28 = p27 + b28;
    let p29 = p28 + b29;
    let p30 = p29 + b30;
    let p31 = p30 + b31;
    let p32 = p31 + b32;
    let p33 = p32 + b33;
    assert(roguelike_pairs(t) == p33);
    lemma_doc_get_block(b1, "refresh_trader_with_dice"@);
    lemma_doc_get_block(b2, "refresh_trader_with_dice"@);
    lemma_doc_get_block(b3, "refresh_trader_with_dice"@);
    lemma_doc_get_block(b4, "refresh_trader_with_dice"@);
    lemma_doc_get_block(b5, "refresh_trader_with_dice"@);
    lemma_doc_get_block(b6, "refresh_trader_with_dice"@);
    lemma_doc_get_block(b7, "refresh_trader_with_dice"@);
    lemma_doc_get_block(b8, "refresh_trader_with_dice"@);
    lemma_doc_get_block(b9, "refresh_trader_with_dice"@);
    lemma_doc_get_block(b10, "refresh_trader_with_dice"@);
    lemma_doc_get_block(b11, "refresh_trader_with_dice"@);
    lemma_doc_get_block(b12, "refresh_trader_with_dice"@);
    lemma_doc_get_block(b13, "refresh_trader_with_dice"@);
    lemma_doc_get_block(b14, "refresh_trader_with_dice"@);
    lemma_doc_get_block(b15, "refresh_trader_with_dice"@);
    lemma_doc_get_block(b16, "refresh_trader_with_dice"@);
    lemma_doc_get_block(b17, "refresh_trader_with_dice"@);
    lemma_doc_get_block(b18, "refresh_trader_with_dice"@);
    lemma_doc_get_block(b19, "refresh_trader_with_dice"@);
    lemma_doc_get_block(b20, "refresh_trader_with_dice"@);
    lemma_doc_get_block(b21, "refresh_trader_with_dice"@);
    lemma_doc_get_block(b22, "refresh_trader_with_dice"@);
    lemma_doc_get_block(b23, "refresh_trader_with_dice"@);
    lemma_doc_get_block(b24, "refresh_trader_with_dice"@);
    lemma_doc_get_block(b25, "refresh_trader_with_dice"@);
    lemma_doc_get_block(b26, "refresh_trader_with_dice"@);
    lemma_doc_get_block(b27, "refresh_trader_with_dice"@);
    lemma_doc_get_block(b28, "refresh_trader_with_dice"@);
    lemma_doc_get_block(b29, "refresh_trader_with_dice"@);
    lemma_doc_get_block(b30, "refresh_trader_with_dice"@);
    lemma_doc_get_block(b31, "refresh_trader_with_dice"@);
    lemma_doc_get_block(b32, "refresh_trader_with_dice"@);
    lemma_doc_get_block(b33, "refresh_trader_with_dice"@);
    lemma_doc_get_concat(p32, b33, "refresh_trader_with_dice"@);
    lemma_doc_get_concat(p31, b32, "refresh_trader_with_dice"@);
    lemma_doc_get_concat(p30, b31, "refresh_trader_with_dice"@);
    lemma_doc_get_concat(p29, b30, "refresh_trader_with_dice"@);
    lemma_doc_get_concat(p28, b29, "refresh_trader_with_dice"@);
    lemma_doc_get_concat(p27, b28, "refresh_trader_with_dice"@);
    lemma_doc_get_concat(p26, b27, "refresh_trader_with_dice"@);
    lemma_doc_get_concat(p25, b26, "refresh_trader_with_dice"@);
    lemma_doc_get_concat(p24, b25, "refresh_trader_with_dice"@);
    lemma_doc_get_concat(p23, b24, "refresh_trader_with_dice"@);
    lemma_doc_get_concat(p22, b23, "refresh_trader_with_dice"@);
    lemma_doc_get_concat(p21, b22, "refresh_trader_with_dice"@);
    lemma_doc_get_concat(p20, b21, "refresh_trader_with_dice"@);
    lemma_doc_get_concat(p19, b20, "refresh_trader_with_dice"@);
    lemma_doc_get_concat(p18, b19, "refresh_trader_with_dice"@);
    lemma_doc_get_concat(p17, b18, "refresh_trader_with_dice"@);
    lemma_doc_get_concat(p16, b17, "refresh_trader_with_dice"@);
    lemma_doc_get_concat(p15, b16, "refresh_trader_with_dice"@);
    lemma_doc_get_concat(p14, b15, "refresh_trader_with_dice"@);
    lemma_doc_get_concat(p13, b14, "refresh_trader_with_dice"@);
    lemma_doc_get_concat(p12, b13, "refresh_trader_with_dice"@);
    lemma_doc_get_concat(p11, b12, "refresh_trader_with_dice"@);
    lemma_doc_get_concat(p10, b11, "refresh_trader_with_dice"@);
    lemma_doc_get_concat(p9, b10, "refresh_trader_with_dice"@);
    lemma_doc_get_concat(p8, b9, "refresh_trader_with_dice"@);
    lemma_doc_get_concat(p7, b8, "refresh_trader_with_dice"@);
    lemma_doc_get_concat(p6, b7, "refresh_trader_with_dice"@);
    lemma_doc_get_concat(p5, b6, "refresh_trader_with_dice"@);
    lemma_doc_get_concat(p4, b5, "refresh_trader_with_dice"@);
    lemma_doc_get_concat(p3, b4, "refresh_trader_with_dice"@);
    lemma_doc_get_concat(p2, b3, "refresh_trader_with_dice"@);
    lemma_doc_get_concat(p1, b2, "refresh_trader_with_dice"@);
}

/// What lookup of `first_floor_foldartal` finds in the members of a Roguelike task.
proof fn roguelike_get_first_floor_foldartal(t: RoguelikeTask)
    ensures
        doc_get(roguelike_pairs(t), "first_floor_foldartal"@) == (match t.first_floor_foldartal { Option::None => Option::<JsonV>::None, Option::Some(s) => Option::Some(JsonV::Sc(ScalarV::Str(s@))) }),
{
    reveal_strlit("enable");
    reveal_strlit("theme");
    reveal_strlit("mode");
    reveal_strlit("squad");
    reveal_strlit("roles");
    reveal_strlit("core_char");
    reveal_strlit("use_support");
    reveal_strlit("use_nonfriend_support");
    reveal_strlit("starts_count");
    reveal_strlit("difficulty");
    reveal_strlit("stop_at_final_boss");
    reveal_strlit("stop_at_max_level");
    reveal_strlit("investment_enabled");
    reveal_strlit("investments_count");
    reveal_strlit("stop_when_investment_full");
    reveal_strlit("investment_with_more_score");
    reveal_strlit("start_with_elite_two");
    reveal_strlit("only_start_with_elite_two");
    reveal_strlit("refresh_trader_with_dice");
    reveal_strlit("first_floor_foldartal");
    reveal_strlit("start_foldartal_list");
    reveal_strlit("start_with_two_ideas");
    reveal_strlit("use_foldartal");
    reveal_strlit("check_collapsal_paradigms");
    reveal_strlit("double_check_collapsal_paradigms");
    reveal_strlit("expected_collapsal_paradigms");
    reveal_strlit("monthly_squad_auto_iterate");
    reveal_strlit("monthly_squad_check_comms");
    reveal_strlit("deep_exploration_auto_iterate");
    reveal_strlit("collectible_mode_shopping");
    reveal_strlit("collectible_mode_squad");
    reveal_strlit("collectible_mode_start_list");
    reveal_strlit("start_with_seed");
    assert("first_floor_foldartal"@.len() != "enable"@.len());
    assert("first_floor_foldartal"@ != "enable"@);
    assert("first_floor_foldartal"@.len() != "theme"@.len());
    assert("first_floor_foldartal"@ != "theme"@);
    assert("first_floor_foldartal"@.len() != "mode"@.len());
    assert("first_floor_foldartal"@ != "mode"@);
    assert("first_floor_foldartal"@.len() != "squad"@.len());
    assert("first_floor_foldartal"@ != "squad"@);
    assert("first_floor_foldartal"@.len() != "roles"@.len());
    assert("first_floor_foldartal"@ != "roles"@);
    assert("first_floor_foldartal"@.len() != "core_char"@.len());
    assert("first_floor_foldartal"@ != "core_char"@);
    assert("first_floor_foldartal"@.len() != "use_support"@.len());
    assert("first_floor_foldartal"@ != "use_support"@);
    assert("first_floor_foldartal"@[0] != "use_nonfriend_support"@[0]);
    assert("first_floor_foldartal"@ != "use_nonfriend_support"@);
    assert("first_floor_foldartal"@.len() != "starts_count"@.len());
    assert("first_floor_foldartal"@ != "starts_count"@);
    assert("first_floor_foldartal"@.len() != "difficulty"@.len());
    assert("first_floor_foldartal"@ != "difficulty"@);
    assert("first_floor_foldartal"@.len() != "stop_at_final_boss"@.len());
    assert("first_floor_foldartal"@ != "stop_at_final_boss"@);
    assert("first_floor_foldartal"@.len() != "stop_at_max_level"@.len());
    assert("first_floor_foldartal"@ != "stop_at_max_level"@);
    assert("first_floor_foldartal"@.len() != "investment_enabled"@.len());
    assert("first_floor_foldartal"@ != "investment_enabled"@);
    assert("first_floor_foldartal"@.len() != "investments_count"@.len());
    assert("first_floor_foldartal"@ != "investments_count"@);
    assert("first_floor_foldartal"@.len() != "stop_when_investment_full"@.len());
    assert("first_floor_foldartal"@ != "stop_when_investment_full"@);
    assert("first_floor_foldartal"@.len() != "investment_with_more_score"@.len());
    assert("first_floor_foldartal"@ != "investment_with_more_score"@);
    assert("first_floor_foldartal"@.len() != "start_with_elite_two"@.len());
    assert("first_floor_foldartal"@ != "start_with_elite_two"@);
    assert("first_floor_foldartal"@.len() != "only_start_with_elite_two"@.len());
    assert("first_floor_foldartal"@ != "only_start_with_elite_two"@);
    assert("first_floor_foldartal"@.len() != "refresh_trader_with_dice"@.len());
    assert("first_floor_foldartal"@ != "refresh_trader_with_dice"@);
    assert("first_floor_foldartal"@.len() != "start_foldartal_list"@.len());
    assert("first_floor_foldartal"@ != "start_foldartal_list"@);
    assert("first_floor_foldartal"@.len() != "start_with_two_ideas"@.len());
    assert("first_floor_foldartal"@ != "start_with_two_ideas"@);
    assert("first_floor_foldartal"@.len() != "use_foldartal"@.len());
    assert("first_floor_foldartal"@ != "use_foldartal"@);
    assert("first_floor_foldartal"@.len() != "check_collapsal_paradigms"@.len());
    assert("first_floor_foldartal"@ != "check_collapsal_paradigms"@);
    assert("first_floor_foldartal"@.len() != "double_check_collapsal_paradigms"@.len());
    assert("first_floor_foldartal"@ != "double_check_collapsal_paradigms"@);
    assert("first_floor_foldartal"@.len() != "expected_collapsal_paradigms"@.len());
    assert("first_floor_foldartal"@ != "expected_collapsal_paradigms"@);
    assert("first_floor_foldartal"@.len() != "monthly_squad_auto_iterate"@.len());
    assert("first_floor_foldartal"@ != "monthly_squad_auto_iterate"@);
    assert("first_floor_foldartal"@.len() != "monthly_squad_check_comms"@.len());
    assert("first_floor_foldartal"@ != "monthly_squad_check_comms"@);
    assert("first_floor_foldartal"@.len() != "deep_exploration_auto_iterate"@.len());
    assert("first_floor_foldartal"@ != "deep_exploration_auto_iterate"@);
    assert("first_floor_foldartal"@.len() != "collectible_mode_shopping"@.len());
    assert("first_floor_foldartal"@ != "collectible_mode_shopping"@);
    assert("first_floor_foldartal"@.len() != "collectible_mode_squad"@.len());
    assert("first_floor_foldartal"@ != "collectible_mode_squad"@);
    assert("first_floor_foldartal"@.len() != "collectible_mode_start_list"@.len());
    assert("first_floor_foldartal"@ != "collectible_mode_start_list"@);
    assert("first_floor_foldartal"@.len() != "start_with_seed"@.len());
    assert("first_floor_foldartal"@ != "start_with_seed"@);
    let b1 = b_opt_bool("enable"@, t.enable);
    let b2 = b_opt_str("theme"@, opt_str_view(t.theme));
    let b3 = b_opt_int("mode"@, t.mode);
    let b4 = b_opt_str("squad"@, opt_str_view(t.squad));
    let b5 = b_opt_str("roles"@, opt_str_view(t.roles));
    let b6 = b_opt_str("core_char"@, opt_str_view(t.core_char));
    let b7 = b_opt_bool("use_support"@, t.use_support);
    let b8 = b_opt_bool("use_nonfriend_support"@, t.use_nonfriend_support);
    let b9 = b_opt_int("starts_count"@, t.starts_count);
    let b10 = b_opt_int("difficulty"@, t.difficulty);
    let b11 = b_opt_bool("stop_at_final_boss"@, t.stop_at_final_boss);
    let b12 = b_opt_bool("stop_at_max_level"@, t.stop_at_max_level);
    let b13 = b_opt_bool("investment_enabled"@, t.investment_enabled);
    let b14 = b_opt_int("investments_count"@, t.investments_count);
    let b15 = b_opt_bool("stop_when_investment_full"@, t.stop_when_investment_full);
    let b16 = b_opt_bool("investment_with_more_score"@, t.investment_with_more_score);
    let b17 = b_opt_bool("start_with_elite_two"@, t.start_with_elite_two);
    let b18 = b_opt_bool("only_start_with_elite_two"@, t.only_start_with_elite_two);
    let b19 = b_opt_bool("refresh_trader_with_dice"@, t.refresh_trader_with_dice);
    let b20 = b_opt_str("first_floor_foldartal"@, opt_str_view(t.first_floor_foldartal));
    let b21 = b_opt_str_list("start_foldartal_list"@, (match t.start_foldartal_list { Option::None => Option::None, Option::Some(l) => Option::Some(strs_view(l@)) }));
    let b22 = b_opt_bool("start_with_two_ideas"@, t.start_with_two_ideas);
    let b23 = b_opt_bool("use_foldartal"@, t.use_foldartal);
    let b24 = b_opt_bool("check_collapsal_paradigms"@, t.check_collapsal_paradigms);
    let b25 = b_opt_bool("double_check_collapsal_paradigms"@, t.double_check_collapsal_paradigms);
    let b26 = b_opt_str_list("expected_collapsal_paradigms"@, (match t.expected_collapsal_paradigms { Option::None => Option::None, Option::Some(l) => Option::Some(strs_view(l@)) }));
    let b27 = b_opt_bool("monthly_squad_auto_iterate"@, t.monthly_squad_auto_iterate);
    let b28 = b_opt_bool("monthly_squad_check_comms"@, t.monthly_squad_check_comms);
    let b29 = b_opt_bool("deep_exploration_auto_iterate"@, t.deep_exploration_auto_iterate);
    let b30 = b_opt_bool("collectible_mode_shopping"@, t.collectible_mode_shopping);
    let b31 = b_opt_str("collectible_mode_squad"@, opt_str_view(t.collectible_mode_squad));
    let b32 = b_opt_bool_map("collectible_mode_start_list"@, (match t.collectible_mode_start_list { Option::None => Option::None, Option::Some(m) => Option::Some(bpairs_view(m@)) }));
    let b33 = b_opt_bool("start_with_seed"@, t.start_with_seed);
    let p1 = b1;
    let p2 = p1 + b2;
    let p3 = p2 + b3;
    let p4 = p3 + b4;
    let p5 = p4 + b5;
    let p6 = p5 + b6;
    let p7 = p6 + b7;
    let p8 = p7 + b8;
    let p9 = p8 + b9;
    let p10 = p9 + b10;
    let p11 = p10 + b11;
    let p12 = p11 + b12;
    let p13 = p12 + b13;
    let p14 = p13 + b14;
    let p15 = p14 + b15;
    let p16 = p15 + b16;
    let p17 = p16 + b17;
    let p18 = p17 + b18;
    let p19 = p18 + b19;
    let p20 = p19 + b20;
    let p21 = p20 + b21;
    let p22 = p21 + b22;
    let p23 = p22 + b23;
    let p24 = p23 + b24;
    let p25 = p24 + b25;
    let p26 = p25 + b26;
    let p27 = p26 + b27;
    let p28 = p27 + b28;
    let p29 = p28 + b29;
    let p30 = p29 + b30;
    let p31 = p30 + b31;
    let p32 = p31 + b32;
    let p33 = p32 + b33;
    assert(roguelike_pairs(t) == p33);
    lemma_doc_get_block(b1, "first_floor_foldartal"@);
    lemma_doc_get_block(b2, "first_floor_foldartal"@);
    lemma_doc_get_block(b3, "first_floor_foldartal"@);
    lemma_doc_get_block(b4, "first_floor_foldartal"@);
    lemma_doc_get_block(b5, "first_floor_foldartal"@);
    lemma_doc_get_block(b6, "first_floor_foldartal"@);
    lemma_doc_get_block(b7, "first_floor_foldartal"@);
    lemma_doc_get_block(b8, "first_floor_foldartal"@);
    lemma_doc_get_block(b9, "first_floor_foldartal"@);
    lemma_doc_get_block(b10, "first_floor_foldartal"@);
    lemma_doc_get_block(b11, "first_floor_foldartal"@);
    lemma_doc_get_block(b12, "first_floor_foldartal"@);
    lemma_doc_get_block(b13, "first_floor_foldartal"@);
    lemma_doc_get_block(b14, "first_floor_foldartal"@);
    lemma_doc_get_block(b15, "first_floor_foldartal"@);
    lemma_doc_get_block(b16, "first_floor_foldartal"@);
    lemma_doc_get_block(b17, "first_floor_foldartal"@);
    lemma_doc_get_block(b18, "first_floor_foldartal"@);
    lemma_doc_get_block(b19, "first_floor_foldartal"@);
    lemma_doc_get_block(b20, "first_floor_foldartal"@);
    lemma_doc_get_block(b21, "first_floor_foldartal"@);
    lemma_doc_get_block(b22, "first_floor_foldartal"@);
    lemma_doc_get_block(b23, "first_floor_foldartal"@);
    lemma_doc_get_block(b24, "first_floor_foldartal"@);
    lemma_doc_get_block(b25, "first_floor_foldartal"@);
    lemma_doc_get_block(b26, "first_floor_foldartal"@);
    lemma_doc_get_block(b27, "first_floor_foldartal"@);
    lemma_doc_get_block(b28, "first_floor_foldartal"@);
    lemma_doc_get_block(b29, "first_floor_foldartal"@);
    lemma_doc_get_block(b30, "first_floor_foldartal"@);
    lemma_doc_get_block(b31, "first_floor_foldartal"@);
    lemma_doc_get_block(b32, "first_floor_foldartal"@);
    lemma_doc_get_block(b33, "first_floor_foldartal"@);
    lemma_doc_get_concat(p32, b33, "first_floor_foldartal"@);
    lemma_doc_get_concat(p31, b32, "first_floor_foldartal"@);
    lemma_doc_get_concat(p30, b31, "first_floor_foldartal"@);
    lemma_doc_get_concat(p29, b30, "first_floor_foldartal"@);
    lemma_doc_get_concat(p28, b29, "first_floor_foldartal"@);
    lemma_doc_get_concat(p27, b28, "first_floor_foldartal"@);
    lemma_doc_get_concat(p26, b27, "first_floor_foldartal"@);
    lemma_doc_get_concat(p25, b26, "first_floor_foldartal"@);
    lemma_doc_get_concat(p24, b25, "first_floor_foldartal"@);
    lemma_doc_get_concat(p23, b24, "first_floor_foldartal"@);
    lemma_doc_get_concat(p22, b23, "first_floor_foldartal"@);
    lemma_doc_get_concat(p21, b22, "first_floor_foldartal"@);
    lemma_doc_get_concat(p20, b21, "first_floor_foldartal"@);
    lemma_doc_get_concat(p19, b20, "first_floor_foldartal"@);
    lemma_doc_get_concat(p18, b19, "first_floor_foldartal"@);
    lemma_doc_get_concat(p17, b18, "first_floor_foldartal"@);
    lemma_doc_get_concat(p16, b17, "first_floor_foldartal"@);
    lemma_doc_get_concat(p15, b16, "first_floor_foldartal"@);
    lemma_doc_get_concat(p14, b15, "first_floor_foldartal"@);
    lemma_doc_get_concat(p13, b14, "first_floor_foldartal"@);
    lemma_doc_get_concat(p12, b13, "first_floor_foldartal"@);
    lemma_doc_get_concat(p11, b12, "first_floor_foldartal"@);
    lemma_doc_get_concat(p10, b11, "first_floor_foldartal"@);
    lemma_doc_get_concat(p9, b10, "first_floor_foldartal"@);
    lemma_doc_get_concat(p8, b9, "first_floor_foldartal"@);
    lemma_doc_get_concat(p7, b8, "first_floor_foldartal"@);
    lemma_doc_get_concat(p6, b7, "first_floor_foldartal"@);
    lemma_doc_get_concat(p5, b6, "first_floor_foldartal"@);
    lemma_doc_get_concat(p4, b5, "first_floor_foldartal"@);
    lemma_doc_get_concat(p3, b4, "first_floor_foldartal"@);
    lemma_doc_get_concat(p2, b3, "first_floor_foldartal"@);
    lemma_doc_get_concat(p1, b2, "first_floor_foldartal"@);
}

/// What lookup of `start_foldartal_list` finds in the members of a Roguelike task.
proof fn roguelike_get_start_foldartal_list(t: RoguelikeTask)
    ensures
        doc_get(roguelike_pairs(t), "start_foldartal_list"@) == (match t.start_foldartal_list { Option::None => Option::<JsonV>::None, Option::Some(l) => Option::Some(JsonV::Arr(jv_str_list(strs_view(l@)))) }),
{
    reveal_strlit("enable");
    reveal_strlit("theme");
    reveal_strlit("mode");
    reveal_strlit("squad");
    reveal_strlit("roles");
    reveal_strlit("core_char");
    reveal_strlit("use_support");
    reveal_strlit("use_nonfriend_support");
    reveal_strlit("starts_count");
    reveal_strlit("difficulty");
    reveal_strlit("stop_at_final_boss");
    reveal_strlit("stop_at_max_level");
    reveal_strlit("investment_enabled");
    reveal_strlit("investments_count");
    reveal_strlit("stop_when_investment_full");
    reveal_strlit("investment_with_more_score");
    reveal_strlit("start_with_elite_two");
    reveal_strlit("only_start_with_elite_two");
    reveal_strlit("refresh_trader_with_dice");
    reveal_strlit("first_floor_foldartal");
    reveal_strlit("start_foldartal_list");
    reveal_strlit("start_with_two_ideas");
    reveal_strlit("use_foldartal");
    reveal_strlit("check_collapsal_paradigms");
    reveal_strlit("double_check_collapsal_paradigms");
    reveal_strlit("expected_collapsal_paradigms");
    reveal_strlit("monthly_squad_auto_iterate");
    reveal_strlit("monthly_squad_check_comms");
    reveal_strlit("deep_exploration_auto_iterate");
    reveal_strlit("collectible_mode_shopping");
    reveal_strlit("collectible_mode_squad");
    reveal_strlit("collectible_mode_start_list");
    reveal_strlit("start_with_seed");
    assert("start_foldartal_list"@.len() != "enable"@.len());
    assert("start_foldartal_list"@ != "enable"@);
    assert("start_foldartal_list"@.len() != "theme"@.len());
    assert("start_foldartal_list"@ != "theme"@);
    assert("start_foldartal_list"@.len() != "mode"@.len());
    assert("start_foldartal_list"@ != "mode"@);
    assert("start_foldartal_list"@.len() != "squad"@.len());
    assert("start_foldartal_list"@ != "squad"@);
    assert("start_foldartal_list"@.len() != "roles"@.len());
    assert("start_foldartal_list"@ != "roles"@);
    assert("start_foldartal_list"@.len() != "core_char"@.len());
    assert("start_foldartal_list"@ != "core_char"@);
    assert("start_foldartal_list"@.len() != "use_support"@.len());
    assert("start_foldartal_list"@ != "use_support"@);
    assert("start_foldartal_list"@.len() != "use_nonfriend_support"@.len());
    assert("start_foldartal_list"@ != "use_nonfriend_support"@);
    assert("start_foldartal_list"@.len() != "starts_count"@.len());
    assert("start_foldartal_list"@ != "starts_count"@);
    assert("start_foldartal_list"@.len() != "difficulty"@.len());
    assert("start_foldartal_list"@ != "difficulty"@);
    assert("start_foldartal_list"@.len() != "stop_at_final_boss"@.len());
    assert("start_foldartal_list"@ != "stop_at_final_boss"@);
    assert("start_foldartal_list"@.len() != "stop_at_max_level"@.len());
    assert("start_foldartal_list"@ != "stop_at_max_level"@);
    assert("start_foldartal_list"@.len() != "investment_enabled"@.len());
    assert("start_foldartal_list"@ != "investment_enabled"@);
    assert("start_foldartal_list"@.len() != "investments_count"@.len());
    assert("start_foldartal_list"@ != "investments_count"@);
    assert("start_foldartal_list"@.len() != "stop_when_investment_full"@.len());
    assert("start_foldartal_list"@ != "stop_when_investment_full"@);
    assert("start_foldartal_list"@.len() != "investment_with_more_score"@.len());
    assert("start_foldartal_list"@ != "investment_with_more_score"@);
    assert("start_foldartal_list"@[6] != "start_with_elite_two"@[6]);
    assert("start_foldartal_list"@ != "start_with_elite_two"@);
    assert("start_foldartal_list"@.len() != "only_start_with_elite_two"@.len());
    assert("start_foldartal_list"@ != "only_start_with_elite_two"@);
    assert("start_foldartal_list"@.len() != "refresh_trader_with_dice"@.len());
    assert("start_foldartal_list"@ != "refresh_trader_with_dice"@);
    assert("start_foldartal_list"@.len() != "first_floor_foldartal"@.len());
    assert("start_foldartal_list"@ != "first_floor_foldartal"@);
    assert("start_foldartal_list"@[6] != "start_with_two_ideas"@[6]);
    assert("start_foldartal_list"@ != "start_with_two_ideas"@);
    assert("start_foldartal_list"@.len() != "use_foldartal"@.len());
    assert("start_foldartal_list"@ != "use_foldartal"@);
    assert("start_foldartal_list"@.len() != "check_collapsal_paradigms"@.len());
    assert("start_foldartal_list"@ != "check_collapsal_paradigms"@);
    assert("start_foldartal_list"@.len() != "double_check_collapsal_paradigms"@.len());
    assert("start_foldartal_list"@ != "double_check_collapsal_paradigms"@);
    assert("start_foldartal_list"@.len() != "expected_collapsal_paradigms"@.len());
    assert("start_foldartal_list"@ != "expected_collapsal_paradigms"@);
    assert("start_foldartal_list"@.len() != "monthly_squad_auto_iterate"@.len());
    assert("start_foldartal_list"@ != "monthly_squad_auto_iterate"@);
    assert("start_foldartal_list"@.len() != "monthly_squad_check_comms"@.len());
    assert("start_foldartal_list"@ != "monthly_squad_check_comms"@);
    assert("start_foldartal_list"@.len() != "deep_exploration_auto_iterate"@.len());
    assert("start_foldartal_list"@ != "deep_exploration_auto_iterate"@);
    assert("start_foldartal_list"@.len() != "collectible_mode_shopping"@.len());
    assert("start_foldartal_list"@ != "collectible_mode_shopping"@);
    assert("start_foldartal_list"@.len() != "collectible_mode_squad"@.len());
    assert("start_foldartal_list"@ != "collectible_mode_squad"@);
    assert("start_foldartal_list"@.len() != "collectible_mode_start_list"@.len());
    assert("start_foldartal_list"@ != "collectible_mode_start_list"@);
    assert("start_foldartal_list"@.len() != "start_with_seed"@.len());
    assert("start_foldartal_list"@ != "start_with_seed"@);
    let b1 = b_opt_bool("enable"@, t.enable);
    let b2 = b_opt_str("theme"@, opt_str_view(t.theme));
    let b3 = b_opt_int("mode"@, t.mode);
    let b4 = b_opt_str("squad"@, opt_str_view(t.squad));
    let b5 = b_opt_str("roles"@, opt_str_view(t.roles));
    let b6 = b_opt_str("core_char"@, opt_str_view(t.core_char));
    let b7 = b_opt_bool("use_support"@, t.use_support);
    let b8 = b_opt_bool("use_nonfriend_support"@, t.use_nonfriend_support);
    let b9 = b_opt_int("starts_count"@, t.starts_count);
    let b10 = b_opt_int("difficulty"@, t.difficulty);
    let b11 = b_opt_bool("stop_at_final_boss"@, t.stop_at_final_boss);
    let b12 = b_opt_bool("stop_at_max_level"@, t.stop_at_max_level);
    let b13 = b_opt_bool("investment_enabled"@, t.investment_enabled);
    let b14 = b_opt_int("investments_count"@, t.investments_count);
    let b15 = b_opt_bool("stop_when_investment_full"@, t.stop_when_investment_full);
    let b16 = b_opt_bool("investment_with_more_score"@, t.investment_with_more_score);
    let b17 = b_opt_bool("start_with_elite_two"@, t.start_with_elite_two);
    let b18 = b_opt_bool("only_start_with_elite_two"@, t.only_start_with_elite_two);
    let b19 = b_opt_bool("refresh_trader_with_dice"@, t.refresh_trader_with_dice);
    let b20 = b_opt_str("first_floor_foldartal"@, opt_str_view(t.first_floor_foldartal));
    let b21 = b_opt_str_list("start_foldartal_list"@, (match t.start_foldartal_list { Option::None => Option::None, Option::Some(l) => Option::Some(strs_view(l@)) }));
    let b22 = b_opt_bool("start_with_two_ideas"@, t.start_with_two_ideas);
    let b23 = b_opt_bool("use_foldartal"@, t.use_foldartal);
    let b24 = b_opt_bool("check_collapsal_paradigms"@, t.check_collapsal_paradigms);
    let b25 = b_opt_bool("double_check_collapsal_paradigms"@, t.double_check_collapsal_paradigms);
    let b26 = b_opt_str_list("expected_collapsal_paradigms"@, (match t.expected_collapsal_paradigms { Option::None => Option::None, Option::Some(l) => Option::Some(strs_view(l@)) }));
    let b27 = b_opt_bool("monthly_squad_auto_iterate"@, t.monthly_squad_auto_iterate);
    let b28 = b_opt_bool("monthly_squad_check_comms"@, t.monthly_squad_check_comms);
    let b29 = b_opt_bool("deep_exploration_auto_iterate"@, t.deep_exploration_auto_iterate);
    let b30 = b_opt_bool("collectible_mode_shopping"@, t.collectible_mode_shopping);
    let b31 = b_opt_str("collectible_mode_squad"@, opt_str_view(t.collectible_mode_squad));
    let b32 = b_opt_bool_map("collectible_mode_start_list"@, (match t.collectible_mode_start_list { Option::None => Option::None, Option::Some(m) => Option::Some(bpairs_view(m@)) }));
    let b33 = b_opt_bool("start_with_seed"@, t.start_with_seed);
    let p1 = b1;
    let p2 = p1 + b2;
    let p3 = p2 + b3;
    let p4 = p3 + b4;
    let p5 = p4 + b5;
    let p6 = p5 + b6;
    let p7 = p6 + b7;
    let p8 = p7 + b8;
    let p9 = p8 + b9;
    let p10 = p9 + b10;
    let p11 = p10 + b11;
    let p12 = p11 + b12;
    let p13 = p12 + b13;
    let p14 = p13 + b14;
    let p15 = p14 + b15;
    let p16 = p15 + b16;
    let p17 = p16 + b17;
    let p18 = p17 + b18;
    let p19 = p18 + b19;
    let p20 = p19 + b20;
    let p21 = p20 + b21;
    let p22 = p21 + b22;
    let p23 = p22 + b23;
    let p24 = p23 + b24;
    let p25 = p24 + b25;
    let p26 = p25 + b26;
    let p27 = p26 + b27;
    let p28 = p27 + b28;
    let p29 = p28 + b29;
    let p30 = p29 + b30;
    let p31 = p30 + b31;
    let p32 = p31 + b32;
    let p33 = p32 + b33;
    assert(roguelike_pairs(t) == p33);
    lemma_doc_get_block(b1, "start_foldartal_list"@);
    lemma_doc_get_block(b2, "start_foldartal_list"@);
    lemma_doc_get_block(b3, "start_foldartal_list"@);
    lemma_doc_get_block(b4, "start_foldartal_list"@);
    lemma_doc_get_block(b5, "start_foldartal_list"@);
    lemma_doc_get_block(b6, "start_foldartal_list"@);
    lemma_doc_get_block(b7, "start_foldartal_list"@);
    lemma_doc_get_block(b8, "start_foldartal_list"@);
    lemma_doc_get_block(b9, "start_foldartal_list"@);
    lemma_doc_get_block(b10, "start_foldartal_list"@);
    lemma_doc_get_block(b11, "start_foldartal_list"@);
    lemma_doc_get_block(b12, "start_foldartal_list"@);
    lemma_doc_get_block(b13, "start_foldartal_list"@);
    lemma_doc_get_block(b14, "start_foldartal_list"@);
    lemma_doc_get_block(b15, "start_foldartal_list"@);
    lemma_doc_get_block(b16, "start_foldartal_list"@);
    lemma_doc_get_block(b17, "start_foldartal_list"@);
    lemma_doc_get_block(b18, "start_foldartal_list"@);
    lemma_doc_get_block(b19, "start_foldartal_list"@);
    lemma_doc_get_block(b20, "start_foldartal_list"@);
    lemma_doc_get_block(b21, "start_foldartal_list"@);
    lemma_doc_get_block(b22, "start_foldartal_list"@);
    lemma_doc_get_block(b23, "start_foldartal_list"@);
    lemma_doc_get_block(b24, "start_foldartal_list"@);
    lemma_doc_get_block(b25, "start_foldartal_list"@);
    lemma_doc_get_block(b26, "start_foldartal_list"@);
    lemma_doc_get_block(b27, "start_foldartal_list"@);
    lemma_doc_get_block(b28, "start_foldartal_list"@);
    lemma_doc_get_block(b29, "start_foldartal_list"@);
    lemma_doc_get_block(b30, "start_foldartal_list"@);
    lemma_doc_get_block(b31, "start_foldartal_list"@);
    lemma_doc_get_block(b32, "start_foldartal_list"@);
    lemma_doc_get_block(b33, "start_foldartal_list"@);
    lemma_doc_get_concat(p32, b33, "start_foldartal_list"@);
    lemma_doc_get_concat(p31, b32, "start_foldartal_list"@);
    lemma_doc_get_concat(p30, b31, "start_foldartal_list"@);
    lemma_doc_get_concat(p29, b30, "start_foldartal_list"@);
    lemma_doc_get_concat(p28, b29, "start_foldartal_list"@);
    lemma_doc_get_concat(p27, b28, "start_foldartal_list"@);
    lemma_doc_get_concat(p26, b27, "start_foldartal_list"@);
    lemma_doc_get_concat(p25, b26, "start_foldartal_list"@);
    lemma_doc_get_concat(p24, b25, "start_foldartal_list"@);
    lemma_doc_get_concat(p23, b24, "start_foldartal_list"@);
    lemma_doc_get_concat(p22, b23, "start_foldartal_list"@);
    lemma_doc_get_concat(p21, b22, "start_foldartal_list"@);
    lemma_doc_get_concat(p20, b21, "start_foldartal_list"@);
    lemma_doc_get_concat(p19, b20, "start_foldartal_list"@);
    lemma_doc_get_concat(p18, b19, "start_foldartal_list"@);
    lemma_doc_get_concat(p17, b18, "start_foldartal_list"@);
    lemma_doc_get_concat(p16, b17, "start_foldartal_list"@);
    lemma_doc_get_concat(p15, b16, "start_foldartal_list"@);
    lemma_doc_get_concat(p14, b15, "start_foldartal_list"@);
    lemma_doc_get_concat(p13, b14, "start_foldartal_list"@);
    lemma_doc_get_concat(p12, b13, "start_foldartal_list"@);
    lemma_doc_get_concat(p11, b12, "start_foldartal_list"@);
    lemma_doc_get_concat(p10, b11, "start_foldartal_list"@);
    lemma_doc_get_concat(p9, b10, "start_foldartal_list"@);
    lemma_doc_get_concat(p8, b9, "start_foldartal_list"@);
    lemma_doc_get_concat(p7, b8, "start_foldartal_list"@);
    lemma_doc_get_concat(p6, b7, "start_foldartal_list"@);
    lemma_doc_get_concat(p5, b6, "start_foldartal_list"@);
    lemma_doc_get_concat(p4, b5, "start_foldartal_list"@);
    lemma_doc_get_concat(p3, b4, "start_foldartal_list"@);
    lemma_doc_get_concat(p2, b3, "start_foldartal_list"@);
    lemma_doc_get_concat(p1, b2, "start_foldartal_list"@);
}

/// What lookup of `start_with_two_ideas` finds in the members of a Roguelike task.
proof fn roguelike_get_start_with_two_ideas(t: RoguelikeTask)
    ensures
        doc_get(roguelike_pairs(t), "start_with_two_ideas"@) == (match t.start_with_two_ideas { Option::None => Option::<JsonV>::None, Option::Some(b) => Option::Some(JsonV::Sc(ScalarV::Bool(b))) }),
{
    reveal_strlit("enable");
    reveal_strlit("theme");
    reveal_strlit("mode");
    reveal_strlit("squad");
    reveal_strlit("roles");
    reveal_strlit("core_char");
    reveal_strlit("use_support");
    reveal_strlit("use_nonfriend_support");
    reveal_strlit("starts_count");
    reveal_strlit("difficulty");
    reveal_strlit("stop_at_final_boss");
    reveal_strlit("stop_at_max_level");
    reveal_strlit("investment_enabled");
    reveal_strlit("investments_count");
    reveal_strlit("stop_when_investment_full");
    reveal_strlit("investment_with_more_score");
    reveal_strlit("start_with_elite_two");
    reveal_strlit("only_start_with_elite_two");
    reveal_strlit("refresh_trader_with_dice");
    reveal_strlit("first_floor_foldartal");
    reveal_strlit("start_foldartal_list");
    reveal_strlit("start_with_two_ideas");
    reveal_strlit("use_foldartal");
    reveal_strlit("check_collapsal_paradigms");
    reveal_strlit("double_check_collapsal_paradigms");
    reveal_strlit("expected_collapsal_paradigms");
    reveal_strlit("monthly_squad_auto_iterate");
    reveal_strlit("monthly_squad_check_comms");
    reveal_strlit("deep_exploration_auto_iterate");
    reveal_strlit("collectible_mode_shopping");
    reveal_strlit("collectible_mode_squad");
    reveal_strlit("collectible_mode_start_list");
    reveal_strlit("start_with_seed");
    assert("start_with_two_ideas"@.len() != "enable"@.len());
    assert("start_with_two_ideas"@ != "enable"@);
    assert("start_with_two_ideas"@.len() != "theme"@.len());
    assert("start_with_two_ideas"@ != "theme"@);
    assert("start_with_two_ideas"@.len() != "mode"@.len());
    assert("start_with_two_ideas"@ != "mode"@);
    assert("start_with_two_ideas"@.len() != "squad"@.len());
    assert("start_with_two_ideas"@ != "squad"@);
    assert("start_with_two_ideas"@.len() != "roles"@.len());
    assert("start_with_two_ideas"@ != "roles"@);
    assert("start_with_two_ideas"@.len() != "core_char"@.len());
    assert("start_with_two_ideas"@ != "core_char"@);
    assert("start_with_two_ideas"@.len() != "use_support"@.len());
    assert("start_with_two_ideas"@ != "use_support"@);
    assert("start_with_two_ideas"@.len() != "use_nonfriend_support"@.len());
    assert("start_with_two_ideas"@ != "use_nonfriend_support"@);
    assert("start_with_two_ideas"@.len() != "starts_count"@.len());
    assert("start_with_two_ideas"@ != "starts_count"@);
    assert("start_with_two_ideas"@.len() != "difficulty"@.len());
    assert("start_with_two_ideas"@ != "difficulty"@);
    assert("start_with_two_ideas"@.len() != "stop_at_final_boss"@.len());
    assert("start_with_two_ideas"@ != "stop_at_final_boss"@);
    assert("start_with_two_ideas"@.len() != "stop_at_max_level"@.len());
    assert("start_with_two_ideas"@ != "stop_at_max_level"@);
    assert("start_with_two_ideas"@.len() != "investment_enabled"@.len());
    assert("start_with_two_ideas"@ != "investment_enabled"@);
    assert("start_with_two_ideas"@.len() != "investments_count"@.len());
    assert("start_with_two_ideas"@ != "investments_count"@);
    assert("start_with_two_ideas"@.len() != "stop_when_investment_full"@.len());
    assert("start_with_two_ideas"@ != "stop_when_investment_full"@);
    assert("start_with_two_ideas"@.len() != "investment_with_more_score"@.len());
    assert("start_with_two_ideas"@ != "investment_with_more_score"@);
    assert("start_with_two_ideas"@[11] != "start_with_elite_two"@[11]);
    assert("start_with_two_ideas"@ != "start_with_elite_two"@);
    assert("start_with_two_ideas"@.len() != "only_start_with_elite_two"@.len());
    assert("start_with_two_ideas"@ != "only_start_with_elite_two"@);
    assert("start_with_two_ideas"@.len() != "refresh_trader_with_dice"@.len());
    assert("start_with_two_ideas"@ != "refresh_trader_with_dice"@);
    assert("start_with_two_ideas"@.len() != "first_floor_foldartal"@.len());
    assert("start_with_two_ideas"@ != "first_floor_foldartal"@);
    assert("start_with_two_ideas"@[6] != "start_foldartal_list"@[6]);
    assert("start_with_two_ideas"@ != "start_foldartal_list"@);
    assert("start_with_two_ideas"@.len() != "use_foldartal"@.len());
    assert("start_with_two_ideas"@ != "use_foldartal"@);
    assert("start_with_two_ideas"@.len() != "check_collapsal_paradigms"@.len());
    assert("start_with_two_ideas"@ != "check_collapsal_paradigms"@);
    assert("start_with_two_ideas"@.len() != "double_check_collapsal_paradigms"@.len());
    assert("start_with_two_ideas"@ != "double_check_collapsal_paradigms"@);
    assert("start_with_two_ideas"@.len() != "expected_collapsal_paradigms"@.len());
    assert("start_with_two_ideas"@ != "expected_collapsal_paradigms"@);
    assert("start_with_two_ideas"@.len() != "monthly_squad_auto_iterate"@.len());
    assert("start_with_two_ideas"@ != "monthly_squad_auto_iterate"@);
    assert("start_with_two_ideas"@.len() != "monthly_squad_check_comms"@.len());
    assert("start_with_two_ideas"@ != "monthly_squad_check_comms"@);
    assert("start_with_two_ideas"@.len() != "deep_exploration_auto_iterate"@.len());
    assert("start_with_two_ideas"@ != "deep_exploration_auto_iterate"@);
    assert("start_with_two_ideas"@.len() != "collectible_mode_shopping"@.len());
    assert("start_with_two_ideas"@ != "collectible_mode_shopping"@);
    assert("start_with_two_ideas"@.len() != "collectible_mode_squad"@.len());
    assert("start_with_two_ideas"@ != "collectible_mode_squad"@);
    assert("start_with_two_ideas"@.len() != "collectible_mode_start_list"@.len());
    assert("start_with_two_ideas"@ != "collectible_mode_start_list"@);
    assert("start_with_two_ideas"@.len() != "start_with_seed"@.len());
    assert("start_with_two_ideas"@ != "start_with_seed"@);
    let b1 = b_opt_bool("enable"@, t.enable);
    let b2 = b_opt_str("theme"@, opt_str_view(t.theme));
    let b3 = b_opt_int("mode"@, t.mode);
    let b4 = b_opt_str("squad"@, opt_str_view(t.squad));
    let b5 = b_opt_str("roles"@, opt_str_view(t.roles));
    let b6 = b_opt_str("core_char"@, opt_str_view(t.core_char));
    let b7 = b_opt_bool("use_support"@, t.use_support);
    let b8 = b_opt_bool("use_nonfriend_support"@, t.use_nonfriend_support);
    let b9 = b_opt_int("starts_count"@, t.starts_count);
    let b10 = b_opt_int("difficulty"@, t.difficulty);
    let b11 = b_opt_bool("stop_at_final_boss"@, t.stop_at_final_boss);
    let b12 = b_opt_bool("stop_at_max_level"@, t.stop_at_max_level);
    let b13 = b_opt_bool("investment_enabled"@, t.investment_enabled);
    let b14 = b_opt_int("investments_count"@, t.investments_count);
    let b15 = b_opt_bool("stop_when_investment_full"@, t.stop_when_investment_full);
    let b16 = b_opt_bool("investment_with_more_score"@, t.investment_with_more_score);
    let b17 = b_opt_bool("start_with_elite_two"@, t.start_with_elite_two);
    let b18 = b_opt_bool("only_start_with_elite_two"@, t.only_start_with_elite_two);
    let b19 = b_opt_bool("refresh_trader_with_dice"@, t.refresh_trader_with_dice);
    let b20 = b_opt_str("first_floor_foldartal"@, opt_str_view(t.first_floor_foldartal));
    let b21 = b_opt_str_list("start_foldartal_list"@, (match t.start_foldartal_list { Option::None => Option::None, Option::Some(l) => Option::Some(strs_view(l@)) }));
    let b22 = b_opt_bool("start_with_two_ideas"@, t.start_with_two_ideas);
    let b23 = b_opt_bool("use_foldartal"@, t.use_foldartal);
    let b24 = b_opt_bool("check_collapsal_paradigms"@, t.check_collapsal_paradigms);
    let b25 = b_opt_bool("double_check_collapsal_paradigms"@, t.double_check_collapsal_paradigms);
    let b26 = b_opt_str_list("expected_collapsal_paradigms"@, (match t.expected_collapsal_paradigms { Option::None => Option::None, Option::Some(l) => Option::Some(strs_view(l@)) }));
    let b27 = b_opt_bool("monthly_squad_auto_iterate"@, t.monthly_squad_auto_iterate);
    let b28 = b_opt_bool("monthly_squad_check_comms"@, t.monthly_squad_check_comms);
    let b29 = b_opt_bool("deep_exploration_auto_iterate"@, t.deep_exploration_auto_iterate);
    let b30 = b_opt_bool("collectible_mode_shopping"@, t.collectible_mode_shopping);
    let b31 = b_opt_str("collectible_mode_squad"@, opt_str_view(t.collectible_mode_squad));
    let b32 = b_opt_bool_map("collectible_mode_start_list"@, (match t.collectible_mode_start_list { Option::None => Option::None, Option::Some(m) => Option::Some(bpairs_view(m@)) }));
    let b33 = b_opt_bool("start_with_seed"@, t.start_with_seed);
    let p1 = b1;
    let p2 = p1 + b2;
    let p3 = p2 + b3;
    let p4 = p3 + b4;
    let p5 = p4 + b5;
    let p6 = p5 + b6;
    let p7 = p6 + b7;
    let p8 = p7 + b8;
    let p9 = p8 + b9;
    let p10 = p9 + b10;
    let p11 = p10 + b11;
    let p12 = p11 + b12;
    let p13 = p12 + b13;
    let p14 = p13 + b14;
    let p15 = p14 + b15;
    let p16 = p15 + b16;
    let p17 = p16 + b17;
    let p18 = p17 + b18;
    let p19 = p18 + b19;
    let p20 = p19 + b20;
    let p21 = p20 + b21;
    let p22 = p21 + b22;
    let p23 = p22 + b23;
    let p24 = p23 + b24;
    let p25 = p24 + b25;
    let p26 = p25 + b26;
    let p27 = p26 + b27;
    let p28 = p27 + b28;
    let p29 = p28 + b29;
    let p30 = p29 + b30;
    let p31 = p30 + b31;
    let p32 = p31 + b32;
    let p33 = p32 + b33;
    assert(roguelike_pairs(t) == p33);
    lemma_doc_get_block(b1, "start_with_two_ideas"@);
    lemma_doc_get_block(b2, "start_with_two_ideas"@);
    lemma_doc_get_block(b3, "start_with_two_ideas"@);
    lemma_doc_get_block(b4, "start_with_two_ideas"@);
    lemma_doc_get_block(b5, "start_with_two_ideas"@);
    lemma_doc_get_block(b6, "start_with_two_ideas"@);
    lemma_doc_get_block(b7, "start_with_two_ideas"@);
    lemma_doc_get_block(b8, "start_with_two_ideas"@);
    lemma_doc_get_block(b9, "start_with_two_ideas"@);
    lemma_doc_get_block(b10, "start_with_two_ideas"@);
    lemma_doc_get_block(b11, "start_with_two_ideas"@);
    lemma_doc_get_block(b12, "start_with_two_ideas"@);
    lemma_doc_get_block(b13, "start_with_two_ideas"@);
    lemma_doc_get_block(b14, "start_with_two_ideas"@);
    lemma_doc_get_block(b15, "start_with_two_ideas"@);
    lemma_doc_get_block(b16, "start_with_two_ideas"@);
    lemma_doc_get_block(b17, "start_with_two_ideas"@);
    lemma_doc_get_block(b18, "start_with_two_ideas"@);
    lemma_doc_get_block(b19, "start_with_two_ideas"@);
    lemma_doc_get_block(b20, "start_with_two_ideas"@);
    lemma_doc_get_block(b21, "start_with_two_ideas"@);
    lemma_doc_get_block(b22, "start_with_two_ideas"@);
    lemma_doc_get_block(b23, "start_with_two_ideas"@);
    lemma_doc_get_block(b24, "start_with_two_ideas"@);
    lemma_doc_get_block(b25, "start_with_two_ideas"@);
    lemma_doc_get_block(b26, "start_with_two_ideas"@);
    lemma_doc_get_block(b27, "start_with_two_ideas"@);
    lemma_doc_get_block(b28, "start_with_two_ideas"@);
    lemma_doc_get_block(b29, "start_with_two_ideas"@);
    lemma_doc_get_block(b30, "start_with_two_ideas"@);
    lemma_doc_get_block(b31, "start_with_two_ideas"@);
    lemma_doc_get_block(b32, "start_with_two_ideas"@);
    lemma_doc_get_block(b33, "start_with_two_ideas"@);
    lemma_doc_get_concat(p32, b33, "start_with_two_ideas"@);
    lemma_doc_get_concat(p31, b32, "start_with_two_ideas"@);
    lemma_doc_get_concat(p30, b31, "start_with_two_ideas"@);
    lemma_doc_get_concat(p29, b30, "start_with_two_ideas"@);
    lemma_doc_get_concat(p28, b29, "start_with_two_ideas"@);
    lemma_doc_get_concat(p27, b28, "start_with_two_ideas"@);
    lemma_doc_get_concat(p26, b27, "start_with_two_ideas"@);
    lemma_doc_get_concat(p25, b26, "start_with_two_ideas"@);
    lemma_doc_get_concat(p24, b25, "start_with_two_ideas"@);
    lemma_doc_get_concat(p23, b24, "start_with_two_ideas"@);
    lemma_doc_get_concat(p22, b23, "start_with_two_ideas"@);
    lemma_doc_get_concat(p21, b22, "start_with_two_ideas"@);
    lemma_doc_get_concat(p20, b21, "start_with_two_ideas"@);
    lemma_doc_get_concat(p19, b20, "start_with_two_ideas"@);
    lemma_doc_get_concat(p18, b19, "start_with_two_ideas"@);
    lemma_doc_get_concat(p17, b18, "start_with_two_ideas"@);
    lemma_doc_get_concat(p16, b17, "start_with_two_ideas"@);
    lemma_doc_get_concat(p15, b16, "start_with_two_ideas"@);
    lemma_doc_get_concat(p14, b15, "start_with_two_ideas"@);
    lemma_doc_get_concat(p13, b14, "start_with_two_ideas"@);
    lemma_doc_get_concat(p12, b13, "start_with_two_ideas"@);
    lemma_doc_get_concat(p11, b12, "start_with_two_ideas"@);
    lemma_doc_get_concat(p10, b11, "start_with_two_ideas"@);
    lemma_doc_get_concat(p9, b10, "start_with_two_ideas"@);
    lemma_doc_get_concat(p8, b9, "start_with_two_ideas"@);
    lemma_doc_get_concat(p7, b8, "start_with_two_ideas"@);
    lemma_doc_get_concat(p6, b7, "start_with_two_ideas"@);
    lemma_doc_get_concat(p5, b6, "start_with_two_ideas"@);
    lemma_doc_get_concat(p4, b5, "start_with_two_ideas"@);
    lemma_doc_get_concat(p3, b4, "start_with_two_ideas"@);
    lemma_doc_get_concat(p2, b3, "start_with_two_ideas"@);
    lemma_doc_get_concat(p1, b2, "start_with_two_ideas"@);
}

/// What lookup of `use_foldartal` finds in the members of a Roguelike task.
proof fn roguelike_get_use_foldartal(t: RoguelikeTask)
    ensures
        doc_get(roguelike_pairs(t), "use_foldartal"@) == (match t.use_foldartal { Option::None => Option::<JsonV>::None, Option::Some(b) => Option::Some(JsonV::Sc(ScalarV::Bool(b))) }),
{
    reveal_strlit("enable");
    reveal_strlit("theme");
    reveal_strlit("mode");
    reveal_strlit("squad");
    reveal_strlit("roles");
    reveal_strlit("core_char");
    reveal_strlit("use_support");
    reveal_strlit("use_nonfriend_support");
    reveal_strlit("starts_count");
    reveal_strlit("difficulty");
    reveal_strlit("stop_at_final_boss");
    reveal_strlit("stop_at_max_level");
    reveal_strlit("investment_enabled");
    reveal_strlit("investments_count");
    reveal_strlit("stop_when_investment_full");
    reveal_strlit("investment_with_more_score");
    reveal_strlit("start_with_elite_two");
    reveal_strlit("only_start_with_elite_two");
    reveal_strlit("refresh_trader_with_dice");
    reveal_strlit("first_floor_foldartal");
    reveal_strlit("start_foldartal_list");
    reveal_strlit("start_with_two_ideas");
    reveal_strlit("use_foldartal");
    reveal_strlit("check_collapsal_paradigms");
    reveal_strlit("double_check_collapsal_paradigms");
    reveal_strlit("expected_collapsal_paradigms");
    reveal_strlit("monthly_squad_auto_iterate");
    reveal_strlit("monthly_squad_check_comms");
    reveal_strlit("deep_exploration_auto_iterate");
    reveal_strlit("collectible_mode_shopping");
    reveal_strlit("collectible_mode_squad");
    reveal_strlit("collectible_mode_start_list");
    reveal_strlit("start_with_seed");
    assert("use_foldartal"@.len() != "enable"@.len());
    assert("use_foldartal"@ != "enable"@);
    assert("use_foldartal"@.len() != "theme"@.len());
    assert("use_foldartal"@ != "theme"@);
    assert("use_foldartal"@.len() != "mode"@.len());
    assert("use_foldartal"@ != "mode"@);
    assert("use_foldartal"@.len() != "squad"@.len());
    assert("use_foldartal"@ != "squad"@);
    assert("use_foldartal"@.len() != "roles"@.len());
    assert("use_foldartal"@ != "roles"@);
    assert("use_foldartal"@.len() != "core_char"@.len());
    assert("use_foldartal"@ != "core_char"@);
    assert("use_foldartal"@.len() != "use_support"@.len());
    assert("use_foldartal"@ != "use_support"@);
    assert("use_foldartal"@.len() != "use_nonfriend_support"@.len());
    assert("use_foldartal"@ != "use_nonfriend_support"@);
    assert("use_foldartal"@.len() != "starts_count"@.len());
    assert("use_foldartal"@ != "starts_count"@);
    assert("use_foldartal"@.len() != "difficulty"@.len());
    assert("use_foldartal"@ != "difficulty"@);
    assert("use_foldartal"@.len() != "stop_at_final_boss"@.len());
    assert("use_foldartal"@ != "stop_at_final_boss"@);
    assert("use_foldartal"@.len() != "stop_at_max_level"@.len());
    assert("use_foldartal"@ != "stop_at_max_level"@);
    assert("use_foldartal"@.len() != "investment_enabled"@.len());
    assert("use_foldartal"@ != "investment_enabled"@);
    assert("use_foldartal"@.len() != "investments_count"@.len());
    assert("use_foldartal"@ != "investments_count"@);
    assert("use_foldartal"@.len() != "stop_when_investment_full"@.len());
    assert("use_foldartal"@ != "stop_when_investment_full"@);
    assert("use_foldartal"@.len() != "investment_with_more_score"@.len());
    assert("use_foldartal"@ != "investment_with_more_score"@);
    assert("use_foldartal"@.len() != "start_with_elite_two"@.len());
    assert("use_foldartal"@ != "start_with_elite_two"@);
    assert("use_foldartal"@.len() != "only_start_with_elite_two"@.len());
    assert("use_foldartal"@ != "only_start_with_elite_two"@);
    assert("use_foldartal"@.len() != "refresh_trader_with_dice"@.len());
    assert("use_foldartal"@ != "refresh_trader_with_dice"@);
    assert("use_foldartal"@.len() != "first_floor_foldartal"@.len());
    assert("use_foldartal"@ != "first_floor_foldartal"@);
    assert("use_foldartal"@.len() != "start_foldartal_list"@.len());
    assert("use_foldartal"@ != "start_foldartal_list"@);
    assert("use_foldartal"@.len() != "start_with_two_ideas"@.len());
    assert("use_foldartal"@ != "start_with_two_ideas"@);
    assert("use_foldartal"@.len() != "check_collapsal_paradigms"@.len());
    assert("use_foldartal"@ != "check_collapsal_paradigms"@);
    assert("use_foldartal"@.len() != "double_check_collapsal_paradigms"@.len());
    assert("use_foldartal"@ != "double_check_collapsal_paradigms"@);
    assert("use_foldartal"@.len() != "expected_collapsal_paradigms"@.len());
    assert("use_foldartal"@ != "expected_collapsal_paradigms"@);
    assert("use_foldartal"@.len() != "monthly_squad_auto_iterate"@.len());
    assert("use_foldartal"@ != "monthly_squad_auto_iterate"@);
    assert("use_foldartal"@.len() != "monthly_squad_check_comms"@.len());
    assert("use_foldartal"@ != "monthly_squad_check_comms"@);
    assert("use_foldartal"@.len() != "deep_exploration_auto_iterate"@.len());
    assert("use_foldartal"@ != "deep_exploration_auto_iterate"@);
    assert("use_foldartal"@.len() != "collectible_mode_shopping"@.len());
    assert("use_foldartal"@ != "collectible_mode_shopping"@);
    assert("use_foldartal"@.len() != "collectible_mode_squad"@.len());
    assert("use_foldartal"@ != "collectible_mode_squad"@);
    assert("use_foldartal"@.len() != "collectible_mode_start_list"@.len());
    assert("use_foldartal"@ != "collectible_mode_start_list"@);
    assert("use_foldartal"@.len() != "start_with_seed"@.len());
    assert("use_foldartal"@ != "start_with_seed"@);
    let b1 = b_opt_bool("enable"@, t.enable);
    let b2 = b_opt_str("theme"@, opt_str_view(t.theme));
    let b3 = b_opt_int("mode"@, t.mode);
    let b4 = b_opt_str("squad"@, opt_str_view(t.squad));
    let b5 = b_opt_str("roles"@, opt_str_view(t.roles));
    let b6 = b_opt_str("core_char"@, opt_str_view(t.core_char));
    let b7 = b_opt_bool("use_support"@, t.use_support);
    let b8 = b_opt_bool("use_nonfriend_support"@, t.use_nonfriend_support);
    let b9 = b_opt_int("starts_count"@, t.starts_count);
    let b10 = b_opt_int("difficulty"@, t.difficulty);
    let b11 = b_opt_bool("stop_at_final_boss"@, t.stop_at_final_boss);
    let b12 = b_opt_bool("stop_at_max_level"@, t.stop_at_max_level);
    let b13 = b_opt_bool("investment_enabled"@, t.investment_enabled);
    let b14 = b_opt_int("investments_count"@, t.investments_count);
    let b15 = b_opt_bool("stop_when_investment_full"@, t.stop_when_investment_full);
    let b16 = b_opt_bool("investment_with_more_score"@, t.investment_with_more_score);
    let b17 = b_opt_bool("start_with_elite_two"@, t.start_with_elite_two);
    let b18 = b_opt_bool("only_start_with_elite_two"@, t.only_start_with_elite_two);
    let b19 = b_opt_bool("refresh_trader_with_dice"@, t.refresh_trader_with_dice);
    let b20 = b_opt_str("first_floor_foldartal"@, opt_str_view(t.first_floor_foldartal));
    let b21 = b_opt_str_list("start_foldartal_list"@, (match t.start_foldartal_list { Option::None => Option::None, Option::Some(l) => Option::Some(strs_view(l@)) }));
    let b22 = b_opt_bool("start_with_two_ideas"@, t.start_with_two_ideas);
    let b23 = b_opt_bool("use_foldartal"@, t.use_foldartal);
    let b24 = b_opt_bool("check_collapsal_paradigms"@, t.check_collapsal_paradigms);
    let b25 = b_opt_bool("double_check_collapsal_paradigms"@, t.double_check_collapsal_paradigms);
    let b26 = b_opt_str_list("expected_collapsal_paradigms"@, (match t.expected_collapsal_paradigms { Option::None => Option::None, Option::Some(l) => Option::Some(strs_view(l@)) }));
    let b27 = b_opt_bool("monthly_squad_auto_iterate"@, t.monthly_squad_auto_iterate);
    let b28 = b_opt_bool("monthly_squad_check_comms"@, t.monthly_squad_check_comms);
    let b29 = b_opt_bool("deep_exploration_auto_iterate"@, t.deep_exploration_auto_iterate);
    let b30 = b_opt_bool("collectible_mode_shopping"@, t.collectible_mode_shopping);
    let b31 = b_opt_str("collectible_mode_squad"@, opt_str_view(t.collectible_mode_squad));
    let b32 = b_opt_bool_map("collectible_mode_start_list"@, (match t.collectible_mode_start_list { Option::None => Option::None, Option::Some(m) => Option::Some(bpairs_view(m@)) }));
    let b33 = b_opt_bool("start_with_seed"@, t.start_with_seed);
    let p1 = b1;
    let p2 = p1 + b2;
    let p3 = p2 + b3;
    let p4 = p3 + b4;
    let p5 = p4 + b5;
    let p6 = p5 + b6;
    let p7 = p6 + b7;
    let p8 = p7 + b8;
    let p9 = p8 + b9;
    let p10 = p9 + b10;
    let p11 = p10 + b11;
    let p12 = p11 + b12;
    let p13 = p12 + b13;
    let p14 = p13 + b14;
    let p15 = p14 + b15;
    let p16 = p15 + b16;
    let p17 = p16 + b17;
    let p18 = p17 + b18;
    let p19 = p18 + b19;
    let p20 = p19 + b20;
    let p21 = p20 + b21;
    let p22 = p21 + b22;
    let p23 = p22 + b23;
    let p24 = p23 + b24;
    let p25 = p24 + b25;
    let p26 = p25 + b26;
    let p27 = p26 + b27;
    let p28 = p27 + b28;
    let p29 = p28 + b29;
    let p30 = p29 + b30;
    let p31 = p30 + b31;
    let p32 = p31 + b32;
    let p33 = p32 + b33;
    assert(roguelike_pairs(t) == p33);
    lemma_doc_get_block(b1, "use_foldartal"@);
    lemma_doc_get_block(b2, "use_foldartal"@);
    lemma_doc_get_block(b3, "use_foldartal"@);
    lemma_doc_get_block(b4, "use_foldartal"@);
    lemma_doc_get_block(b5, "use_foldartal"@);
    lemma_doc_get_block(b6, "use_foldartal"@);
    lemma_doc_get_block(b7, "use_foldartal"@);
    lemma_doc_get_block(b8, "use_foldartal"@);
    lemma_doc_get_block(b9, "use_foldartal"@);
    lemma_doc_get_block(b10, "use_foldartal"@);
    lemma_doc_get_block(b11, "use_foldartal"@);
    lemma_doc_get_block(b12, "use_foldartal"@);
    lemma_doc_get_block(b13, "use_foldartal"@);
    lemma_doc_get_block(b14, "use_foldartal"@);
    lemma_doc_get_block(b15, "use_foldartal"@);
    lemma_doc_get_block(b16, "use_foldartal"@);
    lemma_doc_get_block(b17, "use_foldartal"@);
    lemma_doc_get_block(b18, "use_foldartal"@);
    lemma_doc_get_block(b19, "use_foldartal"@);
    lemma_doc_get_block(b20, "use_foldartal"@);
    lemma_doc_get_block(b21, "use_foldartal"@);
    lemma_doc_get_block(b22, "use_foldartal"@);
    lemma_doc_get_block(b23, "use_foldartal"@);
    lemma_doc_get_block(b24, "use_foldartal"@);
    lemma_doc_get_block(b25, "use_foldartal"@);
    lemma_doc_get_block(b26, "use_foldartal"@);
    lemma_doc_get_block(b27, "use_foldartal"@);
    lemma_doc_get_block(b28, "use_foldartal"@);
    lemma_doc_get_block(b29, "use_foldartal"@);
    lemma_doc_get_block(b30, "use_foldartal"@);
    lemma_doc_get_block(b31, "use_foldartal"@);
    lemma_doc_get_block(b32, "use_foldartal"@);
    lemma_doc_get_block(b33, "use_foldartal"@);
    lemma_doc_get_concat(p32, b33, "use_foldartal"@);
    lemma_doc_get_concat(p31, b32, "use_foldartal"@);
    lemma_doc_get_concat(p30, b31, "use_foldartal"@);
    lemma_doc_get_concat(p29, b30, "use_foldartal"@);
    lemma_doc_get_concat(p28, b29, "use_foldartal"@);
    lemma_doc_get_concat(p27, b28, "use_foldartal"@);
    lemma_doc_get_concat(p26, b27, "use_foldartal"@);
    lemma_doc_get_concat(p25, b26, "use_foldartal"@);
    lemma_doc_get_concat(p24, b25, "use_foldartal"@);
    lemma_doc_get_concat(p23, b24, "use_foldartal"@);
    lemma_doc_get_concat(p22, b23, "use_foldartal"@);
    lemma_doc_get_concat(p21, b22, "use_foldartal"@);
    lemma_doc_get_concat(p20, b21, "use_foldartal"@);
    lemma_doc_get_concat(p19, b20, "use_foldartal"@);
    lemma_doc_get_concat(p18, b19, "use_foldartal"@);
    lemma_doc_get_concat(p17, b18, "use_foldartal"@);
    lemma_doc_get_concat(p16, b17, "use_foldartal"@);
    lemma_doc_get_concat(p15, b16, "use_foldartal"@);
    lemma_doc_get_concat(p14, b15, "use_foldartal"@);
    lemma_doc_get_concat(p13, b14, "use_foldartal"@);
    lemma_doc_get_concat(p12, b13, "use_foldartal"@);
    lemma_doc_get_concat(p11, b12, "use_foldartal"@);
    lemma_doc_get_concat(p10, b11, "use_foldartal"@);
    lemma_doc_get_concat(p9, b10, "use_foldartal"@);
    lemma_doc_get_concat(p8, b9, "use_foldartal"@);
    lemma_doc_get_concat(p7, b8, "use_foldartal"@);
    lemma_doc_get_concat(p6, b7, "use_foldartal"@);
    lemma_doc_get_concat(p5, b6, "use_foldartal"@);
    lemma_doc_get_concat(p4, b5, "use_foldartal"@);
    lemma_doc_get_concat(p3, b4, "use_foldartal"@);
    lemma_doc_get_concat(p2, b3, "use_foldartal"@);
    lemma_doc_get_concat(p1, b2, "use_foldartal"@);
}

/// What lookup of `check_collapsal_paradigms` finds in the members of a Roguelike task.
proof fn roguelike_get_check_collapsal_paradigms(t: RoguelikeTask)
    ensures
        doc_get(roguelike_pairs(t), "check_collapsal_paradigms"@) == (match t.check_collapsal_paradigms { Option::None => Option::<JsonV>::None, Option::Some(b) => Option::Some(JsonV::Sc(ScalarV::Bool(b))) }),
{
    reveal_strlit("enable");
    reveal_strlit("theme");
    reveal_strlit("mode");
    reveal_strlit("squad");
    reveal_strlit("roles");
    reveal_strlit("core_char");
    reveal_strlit("use_support");
    reveal_strlit("use_nonfriend_support");
    reveal_strlit("starts_count");
    reveal_strlit("difficulty");
    reveal_strlit("stop_at_final_boss");
    reveal_strlit("stop_at_max_level");
    reveal_strlit("investment_enabled");
    reveal_strlit("investments_count");
    reveal_strlit("stop_when_investment_full");
    reveal_strlit("investment_with_more_score");
    reveal_strlit("start_with_elite_two");
    reveal_strlit("only_start_with_elite_two");
    reveal_strlit("refresh_trader_with_dice");
    reveal_strlit("first_floor_foldartal");
    reveal_strlit("start_foldartal_list");
    reveal_strlit("start_with_two_ideas");
    reveal_strlit("use_foldartal");
    reveal_strlit("check_collapsal_paradigms");
    reveal_strlit("double_check_collapsal_paradigms");
    reveal_strlit("expected_collapsal_paradigms");
    reveal_strlit("monthly_squad_auto_iterate");
    reveal_strlit("monthly_squad_check_comms");
    reveal_strlit("deep_exploration_auto_iterate");
    reveal_strlit("collectible_mode_shopping");
    reveal_strlit("collectible_mode_squad");
    reveal_strlit("collectible_mode_start_list");
    reveal_strlit("start_with_seed");
    assert("check_collapsal_paradigms"@.len() != "enable"@.len());
    assert("check_collapsal_paradigms"@ != "enable"@);
    assert("check_collapsal_paradigms"@.len() != "theme"@.len());
    assert("check_collapsal_paradigms"@ != "theme"@);
    assert("check_collapsal_paradigms"@.len() != "mode"@.len());
    assert("check_collapsal_paradigms"@ != "mode"@);
    assert("check_collapsal_paradigms"@.len() != "squad"@.len());
    assert("check_collapsal_paradigms"@ != "squad"@);
    assert("check_collapsal_paradigms"@.len() != "roles"@.len());
    assert("check_collapsal_paradigms"@ != "roles"@);
    assert("check_collapsal_paradigms"@.len() != "core_char"@.len());
    assert("check_collapsal_paradigms"@ != "core_char"@);
    assert("check_collapsal_paradigms"@.len() != "use_support"@.len());
    assert("check_collapsal_paradigms"@ != "use_support"@);
    assert("check_collapsal_paradigms"@.len() != "use_nonfriend_support"@.len());
    assert("check_collapsal_paradigms"@ != "use_nonfriend_support"@);
    assert("check_collapsal_paradigms"@.len() != "starts_count"@.len());
    assert("check_collapsal_paradigms"@ != "starts_count"@);
    assert("check_collapsal_paradigms"@.len() != "difficulty"@.len());
    assert("check_collapsal_paradigms"@ != "difficulty"@);
    assert("check_collapsal_paradigms"@.len() != "stop_at_final_boss"@.len());
    assert("check_collapsal_paradigms"@ != "stop_at_final_boss"@);
    assert("check_collapsal_paradigms"@.len() != "stop_at_max_level"@.len());
    assert("check_collapsal_paradigms"@ != "stop_at_max_level"@);
    assert("check_collapsal_paradigms"@.len() != "investment_enabled"@.len());
    assert("check_collapsal_paradigms"@ != "investment_enabled"@);
    assert("check_collapsal_paradigms"@.len() != "investments_count"@.len());
    assert("check_collapsal_paradigms"@ != "investments_count"@);
    assert("check_collapsal_paradigms"@[0] != "stop_when_investment_full"@[0]);
    assert("check_collapsal_paradigms"@ != "stop_when_investment_full"@);
    assert("check_collapsal_paradigms"@.len() != "investment_with_more_score"@.len());
    assert("check_collapsal_paradigms"@ != "investment_with_more_score"@);
    assert("check_collapsal_paradigms"@.len() != "start_with_elite_two"@.len());
    assert("check_collapsal_paradigms"@ != "start_with_elite_two"@);
    assert("check_collapsal_paradigms"@[0] != "only_start_with_elite_two"@[0]);
    assert("check_collapsal_paradigms"@ != "only_start_with_elite_two"@);
    assert("check_collapsal_paradigms"@.len() != "refresh_trader_with_dice"@.len());
    assert("check_collapsal_paradigms"@ != "refresh_trader_with_dice"@);
    assert("check_collapsal_paradigms"@.len() != "first_floor_foldartal"@.len());
    assert("check_collapsal_paradigms"@ != "first_floor_foldartal"@);
    assert("check_collapsal_paradigms"@.len() != "start_foldartal_list"@.len());
    assert("check_collapsal_paradigms"@ != "start_foldartal_list"@);
    assert("check_collapsal_paradigms"@.len() != "start_with_two_ideas"@.len());
    assert("check_collapsal_paradigms"@ != "start_with_two_ideas"@);
    assert("check_collapsal_paradigms"@.len() != "use_foldartal"@.len());
    assert("check_collapsal_paradigms"@ != "use_foldartal"@);
    assert("check_collapsal_paradigms"@.len() != "double_check_collapsal_paradigms"@.len());
    assert("check_collapsal_paradigms"@ != "double_check_collapsal_paradigms"@);
    assert("check_collapsal_paradigms"@.len() != "expected_collapsal_paradigms"@.len());
    assert("check_collapsal_paradigms"@ != "expected_collapsal_paradigms"@);
    assert("check_collapsal_paradigms"@.len() != "monthly_squad_auto_iterate"@.len());
    assert("check_collapsal_paradigms"@ != "monthly_squad_auto_iterate"@);
    assert("check_collapsal_paradigms"@[0] != "monthly_squad_check_comms"@[0]);
    assert("check_collapsal_paradigms"@ != "monthly_squad_check_comms"@);
    assert("check_collapsal_paradigms"@.len() != "deep_exploration_auto_iterate"@.len());
    assert("check_collapsal_paradigms"@ != "deep_exploration_auto_iterate"@);
    assert("check_collapsal_paradigms"@[1] != "collectible_mode_shopping"@[1]);
    assert("check_collapsal_paradigms"@ != "collectible_mode_shopping"@);
    assert("check_collapsal_paradigms"@.len() != "collectible_mode_squad"@.len());
    assert("check_collapsal_paradigms"@ != "collectible_mode_squad"@);
    assert("check_collapsal_paradigms"@.len() != "collectible_mode_start_list"@.len());
    assert("check_collapsal_paradigms"@ != "collectible_mode_start_list"@);
    assert("check_collapsal_paradigms"@.len() != "start_with_seed"@.len());
    assert("check_collapsal_paradigms"@ != "start_with_seed"@);
    let b1 = b_opt_bool("enable"@, t.enable);
    let b2 = b_opt_str("theme"@, opt_str_view(t.theme));
    let b3 = b_opt_int("mode"@, t.mode);
    let b4 = b_opt_str("squad"@, opt_str_view(t.squad));
    let b5 = b_opt_str("roles"@, opt_str_view(t.roles));
    let b6 = b_opt_str("core_char"@, opt_str_view(t.core_char));
    let b7 = b_opt_bool("use_support"@, t.use_support);
    let b8 = b_opt_bool("use_nonfriend_support"@, t.use_nonfriend_support);
    let b9 = b_opt_int("starts_count"@, t.starts_count);
    let b10 = b_opt_int("difficulty"@, t.difficulty);
    let b11 = b_opt_bool("stop_at_final_boss"@, t.stop_at_final_boss);
    let b12 = b_opt_bool("stop_at_max_level"@, t.stop_at_max_level);
    let b13 = b_opt_bool("investment_enabled"@, t.investment_enabled);
    let b14 = b_opt_int("investments_count"@, t.investments_count);
    let b15 = b_opt_bool("stop_when_investment_full"@, t.stop_when_investment_full);
    let b16 = b_opt_bool("investment_with_more_score"@, t.investment_with_more_score);
    let b17 = b_opt_bool("start_with_elite_two"@, t.start_with_elite_two);
    let b18 = b_opt_bool("only_start_with_elite_two"@, t.only_start_with_elite_two);
    let b19 = b_opt_bool("refresh_trader_with_dice"@, t.refresh_trader_with_dice);
    let b20 = b_opt_str("first_floor_foldartal"@, opt_str_view(t.first_floor_foldartal));
    let b21 = b_opt_str_list("start_foldartal_list"@, (match t.start_foldartal_list { Option::None => Option::None, Option::Some(l) => Option::Some(strs_view(l@)) }));
    let b22 = b_opt_bool("start_with_two_ideas"@, t.start_with_two_ideas);
    let b23 = b_opt_bool("use_foldartal"@, t.use_foldartal);
    let b24 = b_opt_bool("check_collapsal_paradigms"@, t.check_collapsal_paradigms);
    let b25 = b_opt_bool("double_check_collapsal_paradigms"@, t.double_check_collapsal_paradigms);
    let b26 = b_opt_str_list("expected_collapsal_paradigms"@, (match t.expected_collapsal_paradigms { Option::None => Option::None, Option::Some(l) => Option::Some(strs_view(l@)) }));
    let b27 = b_opt_bool("monthly_squad_auto_iterate"@, t.monthly_squad_auto_iterate);
    let b28 = b_opt_bool("monthly_squad_check_comms"@, t.monthly_squad_check_comms);
    let b29 = b_opt_bool("deep_exploration_auto_iterate"@, t.deep_exploration_auto_iterate);
    let b30 = b_opt_bool("collectible_mode_shopping"@, t.collectible_mode_shopping);
    let b31 = b_opt_str("collectible_mode_squad"@, opt_str_view(t.collectible_mode_squad));
    let b32 = b_opt_bool_map("collectible_mode_start_list"@, (match t.collectible_mode_start_list { Option::None => Option::None, Option::Some(m) => Option::Some(bpairs_view(m@)) }));
    let b33 = b_opt_bool("start_with_seed"@, t.start_with_seed);
    let p1 = b1;
    let p2 = p1 + b2;
    let p3 = p2 + b3;
    let p4 = p3 + b4;
    let p5 = p4 + b5;
    let p6 = p5 + b6;
    let p7 = p6 + b7;
    let p8 = p7 + b8;
    let p9 = p8 + b9;
    let p10 = p9 + b10;
    let p11 = p10 + b11;
    let p12 = p11 + b12;
    let p13 = p12 + b13;
    let p14 = p13 + b14;
    let p15 = p14 + b15;
    let p16 = p15 + b16;
    let p17 = p16 + b17;
    let p18 = p17 + b18;
    let p19 = p18 + b19;
    let p20 = p19 + b20;
    let p21 = p20 + b21;
    let p22 = p21 + b22;
    let p23 = p22 + b23;
    let p24 = p23 + b24;
    let p25 = p24 + b25;
    let p26 = p25 + b26;
    let p27 = p26 + b27;
    let p28 = p27 + b28;
    let p29 = p28 + b29;
    let p30 = p29 + b30;
    let p31 = p30 + b31;
    let p32 = p31 + b32;
    let p33 = p32 + b33;
    assert(roguelike_pairs(t) == p33);
    lemma_doc_get_block(b1, "check_collapsal_paradigms"@);
    lemma_doc_get_block(b2, "check_collapsal_paradigms"@);
    lemma_doc_get_block(b3, "check_collapsal_paradigms"@);
    lemma_doc_get_block(b4, "check_collapsal_paradigms"@);
    lemma_doc_get_block(b5, "check_collapsal_paradigms"@);
    lemma_doc_get_block(b6, "check_collapsal_paradigms"@);
    lemma_doc_get_block(b7, "check_collapsal_paradigms"@);
    lemma_doc_get_block(b8, "check_collapsal_paradigms"@);
    lemma_doc_get_block(b9, "check_collapsal_paradigms"@);
    lemma_doc_get_block(b10, "check_collapsal_paradigms"@);
    lemma_doc_get_block(b11, "check_collapsal_paradigms"@);
    lemma_doc_get_block(b12, "check_collapsal_paradigms"@);
    lemma_doc_get_block(b13, "check_collapsal_paradigms"@);
    lemma_doc_get_block(b14, "check_collapsal_paradigms"@);
    lemma_doc_get_block(b15, "check_collapsal_paradigms"@);
    lemma_doc_get_block(b16, "check_collapsal_paradigms"@);
    lemma_doc_get_block(b17, "check_collapsal_paradigms"@);
    lemma_doc_get_block(b18, "check_collapsal_paradigms"@);
    lemma_doc_get_block(b19, "check_collapsal_paradigms"@);
    lemma_doc_get_block(b20, "check_collapsal_paradigms"@);
    lemma_doc_get_block(b21, "check_collapsal_paradigms"@);
    lemma_doc_get_block(b22, "check_collapsal_paradigms"@);
    lemma_doc_get_block(b23, "check_collapsal_paradigms"@);
    lemma_doc_get_block(b24, "check_collapsal_paradigms"@);
    lemma_doc_get_block(b25, "check_collapsal_paradigms"@);
    lemma_doc_get_block(b26, "check_collapsal_paradigms"@);
    lemma_doc_get_block(b27, "check_collapsal_paradigms"@);
    lemma_doc_get_block(b28, "check_collapsal_paradigms"@);
    lemma_doc_get_block(b29, "check_collapsal_paradigms"@);
    lemma_doc_get_block(b30, "check_collapsal_paradigms"@);
    lemma_doc_get_block(b31, "check_collapsal_paradigms"@);
    lemma_doc_get_block(b32, "check_collapsal_paradigms"@);
    lemma_doc_get_block(b33, "check_collapsal_paradigms"@);
    lemma_doc_get_concat(p32, b33, "check_collapsal_paradigms"@);
    lemma_doc_get_concat(p31, b32, "check_collapsal_paradigms"@);
    lemma_doc_get_concat(p30, b31, "check_collapsal_paradigms"@);
    lemma_doc_get_concat(p29, b30, "check_collapsal_paradigms"@);
    lemma_doc_get_concat(p28, b29, "check_collapsal_paradigms"@);
    lemma_doc_get_concat(p27, b28, "check_collapsal_paradigms"@);
    lemma_doc_get_concat(p26, b27, "check_collapsal_paradigms"@);
    lemma_doc_get_concat(p25, b26, "check_collapsal_paradigms"@);
    lemma_doc_get_concat(p24, b25, "check_collapsal_paradigms"@);
    lemma_doc_get_concat(p23, b24, "check_collapsal_paradigms"@);
    lemma_doc_get_concat(p22, b23, "check_collapsal_paradigms"@);
    lemma_doc_get_concat(p21, b22, "check_collapsal_paradigms"@);
    lemma_doc_get_concat(p20, b21, "check_collapsal_paradigms"@);
    lemma_doc_get_concat(p19, b20, "check_collapsal_paradigms"@);
    lemma_doc_get_concat(p18, b19, "check_collapsal_paradigms"@);
    lemma_doc_get_concat(p17, b18, "check_collapsal_paradigms"@);
    lemma_doc_get_concat(p16, b17, "check_collapsal_paradigms"@);
    lemma_doc_get_concat(p15, b16, "check_collapsal_paradigms"@);
    lemma_doc_get_concat(p14, b15, "check_collapsal_paradigms"@);
    lemma_doc_get_concat(p13, b14, "check_collapsal_paradigms"@);
    lemma_doc_get_concat(p12, b13, "check_collapsal_paradigms"@);
    lemma_doc_get_concat(p11, b12, "check_collapsal_paradigms"@);
    lemma_doc_get_concat(p10, b11, "check_collapsal_paradigms"@);
    lemma_doc_get_concat(p9, b10, "check_collapsal_paradigms"@);
    lemma_doc_get_concat(p8, b9, "check_collapsal_paradigms"@);
    lemma_doc_get_concat(p7, b8, "check_collapsal_paradigms"@);
    lemma_doc_get_concat(p6, b7, "check_collapsal_paradigms"@);
    lemma_doc_get_concat(p5, b6, "check_collapsal_paradigms"@);
    lemma_doc_get_concat(p4, b5, "check_collapsal_paradigms"@);
    lemma_doc_get_concat(p3, b4, "check_collapsal_paradigms"@);
    lemma_doc_get_concat(p2, b3, "check_collapsal_paradigms"@);
    lemma_doc_get_concat(p1, b2, "check_collapsal_paradigms"@);
}

/// What lookup of `double_check_collapsal_paradigms` finds in the members of a Roguelike task.
proof fn roguelike_get_double_check_collapsal_paradigms(t: RoguelikeTask)
    ensures
        doc_get(roguelike_pairs(t), "double_check_collapsal_paradigms"@) == (match t.double_check_collapsal_paradigms { Option::None => Option::<JsonV>::None, Option::Some(b) => Option::Some(JsonV::Sc(ScalarV::Bool(b))) }),
{
    reveal_strlit("enable");
    reveal_strlit("theme");
    reveal_strlit("mode");
    reveal_strlit("squad");
    reveal_strlit("roles");
    reveal_strlit("core_char");
    reveal_strlit("use_support");
    reveal_strlit("use_nonfriend_support");
    reveal_strlit("starts_count");
    reveal_strlit("difficulty");
    reveal_strlit("stop_at_final_boss");
    reveal_strlit("stop_at_max_level");
    reveal_strlit("investment_enabled");
    reveal_strlit("investments_count");
    reveal_strlit("stop_when_investment_full");
    reveal_strlit("investment_with_more_score");
    reveal_strlit("start_with_elite_two");
    reveal_strlit("only_start_with_elite_two");
    reveal_strlit("refresh_trader_with_dice");
    reveal_strlit("first_floor_foldartal");
    reveal_strlit("start_foldartal_list");
    reveal_strlit("start_with_two_ideas");
    reveal_strlit("use_foldartal");
    reveal_strlit("check_collapsal_paradigms");
    reveal_strlit("double_check_collapsal_paradigms");
    reveal_strlit("expected_collapsal_paradigms");
    reveal_strlit("monthly_squad_auto_iterate");
    reveal_strlit("monthly_squad_check_comms");
    reveal_strlit("deep_exploration_auto_iterate");
    reveal_strlit("collectible_mode_shopping");
    reveal_strlit("collectible_mode_squad");
    reveal_strlit("collectible_mode_start_list");
    reveal_strlit("start_with_seed");
    assert("double_check_collapsal_paradigms"@.len() != "enable"@.len());
    assert("double_check_collapsal_paradigms"@ != "enable"@);
    assert("double_check_collapsal_paradigms"@.len() != "theme"@.len());
    assert("double_check_collapsal_paradigms"@ != "theme"@);
    assert("double_check_collapsal_paradigms"@.len() != "mode"@.len());
    assert("double_check_collapsal_paradigms"@ != "mode"@);
    assert("double_check_collapsal_paradigms"@.len() != "squad"@.len());
    assert("double_check_collapsal_paradigms"@ != "squad"@);
    assert("double_check_collapsal_paradigms"@.len() != "roles"@.len());
    assert("double_check_collapsal_paradigms"@ != "roles"@);
    assert("double_check_collapsal_paradigms"@.len() != "core_char"@.len());
    assert("double_check_collapsal_paradigms"@ != "core_char"@);
    assert("double_check_collapsal_paradigms"@.len() != "use_support"@.len());
    assert("double_check_collapsal_paradigms"@ != "use_support"@);
    assert("double_check_collapsal_paradigms"@.len() != "use_nonfriend_support"@.len());
    assert("double_check_collapsal_paradigms"@ != "use_nonfriend_support"@);
    assert("double_check_collapsal_paradigms"@.len() != "starts_count"@.len());
    assert("double_check_collapsal_paradigms"@ != "starts_count"@);
    assert("double_check_collapsal_paradigms"@.len() != "difficulty"@.len());
    assert("double_check_collapsal_paradigms"@ != "difficulty"@);
    assert("double_check_collapsal_paradigms"@.len() != "stop_at_final_boss"@.len());
    assert("double_check_collapsal_paradigms"@ != "stop_at_final_boss"@);
    assert("double_check_collapsal_paradigms"@.len() != "stop_at_max_level"@.len());
    assert("double_check_collapsal_paradigms"@ != "stop_at_max_level"@);
    assert("double_check_collapsal_paradigms"@.len() != "investment_enabled"@.len());
    assert("double_check_collapsal_paradigms"@ != "investment_enabled"@);
    assert("double_check_collapsal_paradigms"@.len() != "investments_count"@.len());
    assert("double_check_collapsal_paradigms"@ != "investments_count"@);
    assert("double_check_collapsal_paradigms"@.len() != "stop_when_investment_full"@.len());
    assert("double_check_collapsal_paradigms"@ != "stop_when_investment_full"@);
    assert("double_check_collapsal_paradigms"@.len() != "investment_with_more_score"@.len());
    assert("double_check_collapsal_paradigms"@ != "investment_with_more_score"@);
    assert("double_check_collapsal_paradigms"@.len() != "start_with_elite_two"@.len());
    assert("double_check_collapsal_paradigms"@ != "start_with_elite_two"@);
    assert("double_check_collapsal_paradigms"@.len() != "only_start_with_elite_two"@.len());
    assert("double_check_collapsal_paradigms"@ != "only_start_with_elite_two"@);
    assert("double_check_collapsal_paradigms"@.len() != "refresh_trader_with_dice"@.len());
    assert("double_check_collapsal_paradigms"@ != "refresh_trader_with_dice"@);
    assert("double_check_collapsal_paradigms"@.len() != "first_floor_foldartal"@.len());
    assert("double_check_collapsal_paradigms"@ != "first_floor_foldartal"@);
    assert("double_check_collapsal_paradigms"@.len() != "start_foldartal_list"@.len());
    assert("double_check_collapsal_paradigms"@ != "start_foldartal_list"@);
    assert("double_check_collapsal_paradigms"@.len() != "start_with_two_ideas"@.len());
    assert("double_check_collapsal_paradigms"@ != "start_with_two_ideas"@);
    assert("double_check_collapsal_paradigms"@.len() != "use_foldartal"@.len());
    assert("double_check_collapsal_paradigms"@ != "use_foldartal"@);
    assert("double_check_collapsal_paradigms"@.len() != "check_collapsal_paradigms"@.len());
    assert("double_check_collapsal_paradigms"@ != "check_collapsal_paradigms"@);
    assert("double_check_collapsal_paradigms"@.len() != "expected_collapsal_paradigms"@.len());
    assert("double_check_collapsal_paradigms"@ != "expected_collapsal_paradigms"@);
    assert("double_check_collapsal_paradigms"@.len() != "monthly_squad_auto_iterate"@.len());
    assert("double_check_collapsal_paradigms"@ != "monthly_squad_auto_iterate"@);
    assert("double_check_collapsal_paradigms"@.len() != "monthly_squad_check_comms"@.len());
    assert("double_check_collapsal_paradigms"@ != "monthly_squad_check_comms"@);
    assert("double_check_collapsal_paradigms"@.len() != "deep_exploration_auto_iterate"@.len());
    assert("double_check_collapsal_paradigms"@ != "deep_exploration_auto_iterate"@);
    assert("double_check_collapsal_paradigms"@.len() != "collectible_mode_shopping"@.len());
    assert("double_check_collapsal_paradigms"@ != "collectible_mode_shopping"@);
    assert("double_check_collapsal_paradigms"@.len() != "collectible_mode_squad"@.len());
    assert("double_check_collapsal_paradigms"@ != "collectible_mode_squad"@);
    assert("double_check_collapsal_paradigms"@.len() != "collectible_mode_start_list"@.len());
    assert("double_check_collapsal_paradigms"@ != "collectible_mode_start_list"@);
    assert("double_check_collapsal_paradigms"@.len() != "start_with_seed"@.len());
    assert("double_check_collapsal_paradigms"@ != "start_with_seed"@);
    let b1 = b_opt_bool("enable"@, t.enable);
    let b2 = b_opt_str("theme"@, opt_str_view(t.theme));
    let b3 = b_opt_int("mode"@, t.mode);
    let b4 = b_opt_str("squad"@, opt_str_view(t.squad));
    let b5 = b_opt_str("roles"@, opt_str_view(t.roles));
    let b6 = b_opt_str("core_char"@, opt_str_view(t.core_char));
    let b7 = b_opt_bool("use_support"@, t.use_support);
    let b8 = b_opt_bool("use_nonfriend_support"@, t.use_nonfriend_support);
    let b9 = b_opt_int("starts_count"@, t.starts_count);
    let b10 = b_opt_int("difficulty"@, t.difficulty);
    let b11 = b_opt_bool("stop_at_final_boss"@, t.stop_at_final_boss);
    let b12 = b_opt_bool("stop_at_max_level"@, t.stop_at_max_level);
    let b13 = b_opt_bool("investment_enabled"@, t.investment_enabled);
    let b14 = b_opt_int("investments_count"@, t.investments_count);
    let b15 = b_opt_bool("stop_when_investment_full"@, t.stop_when_investment_full);
    let b16 = b_opt_bool("investment_with_more_score"@, t.investment_with_more_score);
    let b17 = b_opt_bool("start_with_elite_two"@, t.start_with_elite_two);
    let b18 = b_opt_bool("only_start_with_elite_two"@, t.only_start_with_elite_two);
    let b19 = b_opt_bool("refresh_trader_with_dice"@, t.refresh_trader_with_dice);
    let b20 = b_opt_str("first_floor_foldartal"@, opt_str_view(t.first_floor_foldartal));
    let b21 = b_opt_str_list("start_foldartal_list"@, (match t.start_foldartal_list { Option::None => Option::None, Option::Some(l) => Option::Some(strs_view(l@)) }));
    let b22 = b_opt_bool("start_with_two_ideas"@, t.start_with_two_ideas);
    let b23 = b_opt_bool("use_foldartal"@, t.use_foldartal);
    let b24 = b_opt_bool("check_collapsal_paradigms"@, t.check_collapsal_paradigms);
    let b25 = b_opt_bool("double_check_collapsal_paradigms"@, t.double_check_collapsal_paradigms);
    let b26 = b_opt_str_list("expected_collapsal_paradigms"@, (match t.expected_collapsal_paradigms { Option::None => Option::None, Option::Some(l) => Option::Some(strs_view(l@)) }));
    let b27 = b_opt_bool("monthly_squad_auto_iterate"@, t.monthly_squad_auto_iterate);
    let b28 = b_opt_bool("monthly_squad_check_comms"@, t.monthly_squad_check_comms);
    let b29 = b_opt_bool("deep_exploration_auto_iterate"@, t.deep_exploration_auto_iterate);
    let b30 = b_opt_bool("collectible_mode_shopping"@, t.collectible_mode_shopping);
    let b31 = b_opt_str("collectible_mode_squad"@, opt_str_view(t.collectible_mode_squad));
    let b32 = b_opt_bool_map("collectible_mode_start_list"@, (match t.collectible_mode_start_list { Option::None => Option::None, Option::Some(m) => Option::Some(bpairs_view(m@)) }));
    let b33 = b_opt_bool("start_with_seed"@, t.start_with_seed);
    let p1 = b1;
    let p2 = p1 + b2;
    let p3 = p2 + b3;
    let p4 = p3 + b4;
    let p5 = p4 + b5;
    let p6 = p5 + b6;
    let p7 = p6 + b7;
    let p8 = p7 + b8;
    let p9 = p8 + b9;
    let p10 = p9 + b10;
    let p11 = p10 + b11;
    let p12 = p11 + b12;
    let p13 = p12 + b13;
    let p14 = p13 + b14;
    let p15 = p14 + b15;
    let p16 = p15 + b16;
    let p17 = p16 + b17;
    let p18 = p17 + b18;
    let p19 = p18 + b19;
    let p20 = p19 + b20;
    let p21 = p20 + b21;
    let p22 = p21 + b22;
    let p23 = p22 + b23;
    let p24 = p23 + b24;
    let p25 = p24 + b25;
    let p26 = p25 + b26;
    let p27 = p26 + b27;
    let p28 = p27 + b28;
    let p29 = p28 + b29;
    let p30 = p29 + b30;
    let p31 = p30 + b31;
    let p32 = p31 + b32;
    let p33 = p32 + b33;
    assert(roguelike_pairs(t) == p33);
    lemma_doc_get_block(b1, "double_check_collapsal_paradigms"@);
    lemma_doc_get_block(b2, "double_check_collapsal_paradigms"@);
    lemma_doc_get_block(b3, "double_check_collapsal_paradigms"@);
    lemma_doc_get_block(b4, "double_check_collapsal_paradigms"@);
    lemma_doc_get_block(b5, "double_check_collapsal_paradigms"@);
    lemma_doc_get_block(b6, "double_check_collapsal_paradigms"@);
    lemma_doc_get_block(b7, "double_check_collapsal_paradigms"@);
    lemma_doc_get_block(b8, "double_check_collapsal_paradigms"@);
    lemma_doc_get_block(b9, "double_check_collapsal_paradigms"@);
    lemma_doc_get_block(b10, "double_check_collapsal_paradigms"@);
    lemma_doc_get_block(b11, "double_check_collapsal_paradigms"@);
    lemma_doc_get_block(b12, "double_check_collapsal_paradigms"@);
    lemma_doc_get_block(b13, "double_check_collapsal_paradigms"@);
    lemma_doc_get_block(b14, "double_check_collapsal_paradigms"@);
    lemma_doc_get_block(b15, "double_check_collapsal_paradigms"@);
    lemma_doc_get_block(b16, "double_check_collapsal_paradigms"@);
    lemma_doc_get_block(b17, "double_check_collapsal_paradigms"@);
    lemma_doc_get_block(b18, "double_check_collapsal_paradigms"@);
    lemma_doc_get_block(b19, "double_check_collapsal_paradigms"@);
    lemma_doc_get_block(b20, "double_check_collapsal_paradigms"@);
    lemma_doc_get_block(b21, "double_check_collapsal_paradigms"@);
    lemma_doc_get_block(b22, "double_check_collapsal_paradigms"@);
    lemma_doc_get_block(b23, "double_check_collapsal_paradigms"@);
    lemma_doc_get_block(b24, "double_check_collapsal_paradigms"@);
    lemma_doc_get_block(b25, "double_check_collapsal_paradigms"@);
    lemma_doc_get_block(b26, "double_check_collapsal_paradigms"@);
    lemma_doc_get_block(b27, "double_check_collapsal_paradigms"@);
    lemma_doc_get_block(b28, "double_check_collapsal_paradigms"@);
    lemma_doc_get_block(b29, "double_check_collapsal_paradigms"@);
    lemma_doc_get_block(b30, "double_check_collapsal_paradigms"@);
    lemma_doc_get_block(b31, "double_check_collapsal_paradigms"@);
    lemma_doc_get_block(b32, "double_check_collapsal_paradigms"@);
    lemma_doc_get_block(b33, "double_check_collapsal_paradigms"@);
    lemma_doc_get_concat(p32, b33, "double_check_collapsal_paradigms"@);
    lemma_doc_get_concat(p31, b32, "double_check_collapsal_paradigms"@);
    lemma_doc_get_concat(p30, b31, "double_check_collapsal_paradigms"@);
    lemma_doc_get_concat(p29, b30, "double_check_collapsal_paradigms"@);
    lemma_doc_get_concat(p28, b29, "double_check_collapsal_paradigms"@);
    lemma_doc_get_concat(p27, b28, "double_check_collapsal_paradigms"@);
    lemma_doc_get_concat(p26, b27, "double_check_collapsal_paradigms"@);
    lemma_doc_get_concat(p25, b26, "double_check_collapsal_paradigms"@);
    lemma_doc_get_concat(p24, b25, "double_check_collapsal_paradigms"@);
    lemma_doc_get_concat(p23, b24, "double_check_collapsal_paradigms"@);
    lemma_doc_get_concat(p22, b23, "double_check_collapsal_paradigms"@);
    lemma_doc_get_concat(p21, b22, "double_check_collapsal_paradigms"@);
    lemma_doc_get_concat(p20, b21, "double_check_collapsal_paradigms"@);
    lemma_doc_get_concat(p19, b20, "double_check_collapsal_paradigms"@);
    lemma_doc_get_concat(p18, b19, "double_check_collapsal_paradigms"@);
    lemma_doc_get_concat(p17, b18, "double_check_collapsal_paradigms"@);
    lemma_doc_get_concat(p16, b17, "double_check_collapsal_paradigms"@);
    lemma_doc_get_concat(p15, b16, "double_check_collapsal_paradigms"@);
    lemma_doc_get_concat(p14, b15, "double_check_collapsal_paradigms"@);
    lemma_doc_get_concat(p13, b14, "double_check_collapsal_paradigms"@);
    lemma_doc_get_concat(p12, b13, "double_check_collapsal_paradigms"@);
    lemma_doc_get_concat(p11, b12, "double_check_collapsal_paradigms"@);
    lemma_doc_get_concat(p10, b11, "double_check_collapsal_paradigms"@);
    lemma_doc_get_concat(p9, b10, "double_check_collapsal_paradigms"@);
    lemma_doc_get_concat(p8, b9, "double_check_collapsal_paradigms"@);
    lemma_doc_get_concat(p7, b8, "double_check_collapsal_paradigms"@);
    lemma_doc_get_concat(p6, b7, "double_check_collapsal_paradigms"@);
    lemma_doc_get_concat(p5, b6, "double_check_collapsal_paradigms"@);
    lemma_doc_get_concat(p4, b5, "double_check_collapsal_paradigms"@);
    lemma_doc_get_concat(p3, b4, "double_check_collapsal_paradigms"@);
    lemma_doc_get_concat(p2, b3, "double_check_collapsal_paradigms"@);
    lemma_doc_get_concat(p1, b2, "double_check_collapsal_paradigms"@);
}

/// What lookup of `expected_collapsal_paradigms` finds in the members of a Roguelike task.
proof fn roguelike_get_expected_collapsal_paradigms(t: RoguelikeTask)
    ensures
        doc_get(roguelike_pairs(t), "expected_collapsal_paradigms"@) == (match t.expected_collapsal_paradigms { Option::None => Option::<JsonV>::None, Option::Some(l) => Option::Some(JsonV::Arr(jv_str_list(strs_view(l@)))) }),
{
    reveal_strlit("enable");
    reveal_strlit("theme");
    reveal_strlit("mode");
    reveal_strlit("squad");
    reveal_strlit("roles");
    reveal_strlit("core_char");
    reveal_strlit("use_support");
    reveal_strlit("use_nonfriend_support");
    reveal_strlit("starts_count");
    reveal_strlit("difficulty");
    reveal_strlit("stop_at_final_boss");
    reveal_strlit("stop_at_max_level");
    reveal_strlit("investment_enabled");
    reveal_strlit("investments_count");
    reveal_strlit("stop_when_investment_full");
    reveal_strlit("investment_with_more_score");
    reveal_strlit("start_with_elite_two");
    reveal_strlit("only_start_with_elite_two");
    reveal_strlit("refresh_trader_with_dice");
    reveal_strlit("first_floor_foldartal");
    reveal_strlit("start_foldartal_list");
    reveal_strlit("start_with_two_ideas");
    reveal_strlit("use_foldartal");
    reveal_strlit("check_collapsal_paradigms");
    reveal_strlit("double_check_collapsal_paradigms");
    reveal_strlit("expected_collapsal_paradigms");
    reveal_strlit("monthly_squad_auto_iterate");
    reveal_strlit("monthly_squad_check_comms");
    reveal_strlit("deep_exploration_auto_iterate");
    reveal_strlit("collectible_mode_shopping");
    reveal_strlit("collectible_mode_squad");
    reveal_strlit("collectible_mode_start_list");
    reveal_strlit("start_with_seed");
    assert("expected_collapsal_paradigms"@.len() != "enable"@.len());
    assert("expected_collapsal_paradigms"@ != "enable"@);
    assert("expected_collapsal_paradigms"@.len() != "theme"@.len());
    assert("expected_collapsal_paradigms"@ != "theme"@);
    assert("expected_collapsal_paradigms"@.len() != "mode"@.len());
    assert("expected_collapsal_paradigms"@ != "mode"@);
    assert("expected_collapsal_paradigms"@.len() != "squad"@.len());
    assert("expected_collapsal_paradigms"@ != "squad"@);
    assert("expected_collapsal_paradigms"@.len() != "roles"@.len());
    assert("expected_collapsal_paradigms"@ != "roles"@);
    assert("expected_collapsal_paradigms"@.len() != "core_char"@.len());
    assert("expected_collapsal_paradigms"@ != "core_char"@);
    assert("expected_collapsal_paradigms"@.len() != "use_support"@.len());
    assert("expected_collapsal_paradigms"@ != "use_support"@);
    assert("expected_collapsal_paradigms"@.len() != "use_nonfriend_support"@.len());
    assert("expected_collapsal_paradigms"@ != "use_nonfriend_support"@);
    assert("expected_collapsal_paradigms"@.len() != "starts_count"@.len());
    assert("expected_collapsal_paradigms"@ != "starts_count"@);
    assert("expected_collapsal_paradigms"@.len() != "difficulty"@.len());
    assert("expected_collapsal_paradigms"@ != "difficulty"@);
    assert("expected_collapsal_paradigms"@.len() != "stop_at_final_boss"@.len());
    assert("expected_collapsal_paradigms"@ != "stop_at_final_boss"@);
    assert("expected_collapsal_paradigms"@.len() != "stop_at_max_level"@.len());
    assert("expected_collapsal_paradigms"@ != "stop_at_max_level"@);
    assert("expected_collapsal_paradigms"@.len() != "investment_enabled"@.len());
    assert("expected_collapsal_paradigms"@ != "investment_enabled"@);
    assert("expected_collapsal_paradigms"@.len() != "investments_count"@.len());
    assert("expected_collapsal_paradigms"@ != "investments_count"@);
    assert("expected_collapsal_paradigms"@.len() != "stop_when_investment_full"@.len());
    assert("expected_collapsal_paradigms"@ != "stop_when_investment_full"@);
    assert("expected_collapsal_paradigms"@.len() != "investment_with_more_score"@.len());
    assert("expected_collapsal_paradigms"@ != "investment_with_more_score"@);
    assert("expected_collapsal_paradigms"@.len() != "start_with_elite_two"@.len());
    assert("expected_collapsal_paradigms"@ != "start_with_elite_two"@);
    assert("expected_collapsal_paradigms"@.len() != "only_start_with_elite_two"@.len());
    assert("expected_collapsal_paradigms"@ != "only_start_with_elite_two"@);
    assert("expected_collapsal_paradigms"@.len() != "refresh_trader_with_dice"@.len());
    assert("expected_collapsal_paradigms"@ != "refresh_trader_with_dice"@);
    assert("expected_collapsal_paradigms"@.len() != "first_floor_foldartal"@.len());
    assert("expected_collapsal_paradigms"@ != "first_floor_foldartal"@);
    assert("expected_collapsal_paradigms"@.len() != "start_foldartal_list"@.len());
    assert("expected_collapsal_paradigms"@ != "start_foldartal_list"@);
    assert("expected_collapsal_paradigms"@.len() != "start_with_two_ideas"@.len());
    assert("expected_collapsal_paradigms"@ != "start_with_two_ideas"@);
    assert("expected_collapsal_paradigms"@.len() != "use_foldartal"@.len());
    assert("expected_collapsal_paradigms"@ != "use_foldartal"@);
    assert("expected_collapsal_paradigms"@.len() != "check_collapsal_paradigms"@.len());
    assert("expected_collapsal_paradigms"@ != "check_collapsal_paradigms"@);
    assert("expected_collapsal_paradigms"@.len() != "double_check_collapsal_paradigms"@.len());
    assert("expected_collapsal_paradigms"@ != "double_check_collapsal_paradigms"@);
    assert("expected_collapsal_paradigms"@.len() != "monthly_squad_auto_iterate"@.len());
    assert("expected_collapsal_paradigms"@ != "monthly_squad_auto_iterate"@);
    assert("expected_collapsal_paradigms"@.len() != "monthly_squad_check_comms"@.len());
    assert("expected_collapsal_paradigms"@ != "monthly_squad_check_comms"@);
    assert("expected_collapsal_paradigms"@.len() != "deep_exploration_auto_iterate"@.len());
    assert("expected_collapsal_paradigms"@ != "deep_exploration_auto_iterate"@);
    assert("expected_collapsal_paradigms"@.len() != "collectible_mode_shopping"@.len());
    assert("expected_collapsal_paradigms"@ != "collectible_mode_shopping"@);
    assert("expected_collapsal_paradigms"@.len() != "collectible_mode_squad"@.len());
    assert("expected_collapsal_paradigms"@ != "collectible_mode_squad"@);
    assert("expected_collapsal_paradigms"@.len() != "collectible_mode_start_list"@.len());
    assert("expected_collapsal_paradigms"@ != "collectible_mode_start_list"@);
    assert("expected_collapsal_paradigms"@.len() != "start_with_seed"@.len());
    assert("expected_collapsal_paradigms"@ != "start_with_seed"@);
    let b1 = b_opt_bool("enable"@, t.enable);
    let b2 = b_opt_str("theme"@, opt_str_view(t.theme));
    let b3 = b_opt_int("mode"@, t.mode);
    let b4 = b_opt_str("squad"@, opt_str_view(t.squad));
    let b5 = b_opt_str("roles"@, opt_str_view(t.roles));
    let b6 = b_opt_str("core_char"@, opt_str_view(t.core_char));
    let b7 = b_opt_bool("use_support"@, t.use_support);
    let b8 = b_opt_bool("use_nonfriend_support"@, t.use_nonfriend_support);
    let b9 = b_opt_int("starts_count"@, t.starts_count);
    let b10 = b_opt_int("difficulty"@, t.difficulty);
    let b11 = b_opt_bool("stop_at_final_boss"@, t.stop_at_final_boss);
    let b12 = b_opt_bool("stop_at_max_level"@, t.stop_at_max_level);
    let b13 = b_opt_bool("investment_enabled"@, t.investment_enabled);
    let b14 = b_opt_int("investments_count"@, t.investments_count);
    let b15 = b_opt_bool("stop_when_investment_full"@, t.stop_when_investment_full);
    let b16 = b_opt_bool("investment_with_more_score"@, t.investment_with_more_score);
    let b17 = b_opt_bool("start_with_elite_two"@, t.start_with_elite_two);
    let b18 = b_opt_bool("only_start_with_elite_two"@, t.only_start_with_elite_two);
    let b19 = b_opt_bool("refresh_trader_with_dice"@, t.refresh_trader_with_dice);
    let b20 = b_opt_str("first_floor_foldartal"@, opt_str_view(t.first_floor_foldartal));
    let b21 = b_opt_str_list("start_foldartal_list"@, (match t.start_foldartal_list { Option::None => Option::None, Option::Some(l) => Option::Some(strs_view(l@)) }));
    let b22 = b_opt_bool("start_with_two_ideas"@, t.start_with_two_ideas);
    let b23 = b_opt_bool("use_foldartal"@, t.use_foldartal);
    let b24 = b_opt_bool("check_collapsal_paradigms"@, t.check_collapsal_paradigms);
    let b25 = b_opt_bool("double_check_collapsal_paradigms"@, t.double_check_collapsal_paradigms);
    let b26 = b_opt_str_list("expected_collapsal_paradigms"@, (match t.expected_collapsal_paradigms { Option::None => Option::None, Option::Some(l) => Option::Some(strs_view(l@)) }));
    let b27 = b_opt_bool("monthly_squad_auto_iterate"@, t.monthly_squad_auto_iterate);
    let b28 = b_opt_bool("monthly_squad_check_comms"@, t.monthly_squad_check_comms);
    let b29 = b_opt_bool("deep_exploration_auto_iterate"@, t.deep_exploration_auto_iterate);
    let b30 = b_opt_bool("collectible_mode_shopping"@, t.collectible_mode_shopping);
    let b31 = b_opt_str("collectible_mode_squad"@, opt_str_view(t.collectible_mode_squad));
    let b32 = b_opt_bool_map("collectible_mode_start_list"@, (match t.collectible_mode_start_list { Option::None => Option::None, Option::Some(m) => Option::Some(bpairs_view(m@)) }));
    let b33 = b_opt_bool("start_with_seed"@, t.start_with_seed);
    let p1 = b1;
    let p2 = p1 + b2;
    let p3 = p2 + b3;
    let p4 = p3 + b4;
    let p5 = p4 + b5;
    let p6 = p5 + b6;
    let p7 = p6 + b7;
    let p8 = p7 + b8;
    let p9 = p8 + b9;
    let p10 = p9 + b10;
    let p11 = p10 + b11;
    let p12 = p11 + b12;
    let p13 = p12 + b13;
    let p14 = p13 + b14;
    let p15 = p14 + b15;
    let p16 = p15 + b16;
    let p17 = p16 + b17;
    let p18 = p17 + b18;
    let p19 = p18 + b19;
    let p20 = p19 + b20;
    let p21 = p20 + b21;
    let p22 = p21 + b22;
    let p23 = p22 + b23;
    let p24 = p23 + b24;
    let p25 = p24 + b25;
    let p26 = p25 + b26;
    let p27 = p26 + b27;
    let p28 = p27 + b28;
    let p29 = p28 + b29;
    let p30 = p29 + b30;
    let p31 = p30 + b31;
    let p32 = p31 + b32;
    let p33 = p32 + b33;
    assert(roguelike_pairs(t) == p33);
    lemma_doc_get_block(b1, "expected_collapsal_paradigms"@);
    lemma_doc_get_block(b2, "expected_collapsal_paradigms"@);
    lemma_doc_get_block(b3, "expected_collapsal_paradigms"@);
    lemma_doc_get_block(b4, "expected_collapsal_paradigms"@);
    lemma_doc_get_block(b5, "expected_collapsal_paradigms"@);
    lemma_doc_get_block(b6, "expected_collapsal_paradigms"@);
    lemma_doc_get_block(b7, "expected_collapsal_paradigms"@);
    lemma_doc_get_block(b8, "expected_collapsal_paradigms"@);
    lemma_doc_get_block(b9, "expected_collapsal_paradigms"@);
    lemma_doc_get_block(b10, "expected_collapsal_paradigms"@);
    lemma_doc_get_block(b11, "expected_collapsal_paradigms"@);
    lemma_doc_get_block(b12, "expected_collapsal_paradigms"@);
    lemma_doc_get_block(b13, "expected_collapsal_paradigms"@);
    lemma_doc_get_block(b14, "expected_collapsal_paradigms"@);
    lemma_doc_get_block(b15, "expected_collapsal_paradigms"@);
    lemma_doc_get_block(b16, "expected_collapsal_paradigms"@);
    lemma_doc_get_block(b17, "expected_collapsal_paradigms"@);
    lemma_doc_get_block(b18, "expected_collapsal_paradigms"@);
    lemma_doc_get_block(b19, "expected_collapsal_paradigms"@);
    lemma_doc_get_block(b20, "expected_collapsal_paradigms"@);
    lemma_doc_get_block(b21, "expected_collapsal_paradigms"@);
    lemma_doc_get_block(b22, "expected_collapsal_paradigms"@);
    lemma_doc_get_block(b23, "expected_collapsal_paradigms"@);
    lemma_doc_get_block(b24, "expected_collapsal_paradigms"@);
    lemma_doc_get_block(b25, "expected_collapsal_paradigms"@);
    lemma_doc_get_block(b26, "expected_collapsal_paradigms"@);
    lemma_doc_get_block(b27, "expected_collapsal_paradigms"@);
    lemma_doc_get_block(b28, "expected_collapsal_paradigms"@);
    lemma_doc_get_block(b29, "expected_collapsal_paradigms"@);
    lemma_doc_get_block(b30, "expected_collapsal_paradigms"@);
    lemma_doc_get_block(b31, "expected_collapsal_paradigms"@);
    lemma_doc_get_block(b32, "expected_collapsal_paradigms"@);
    lemma_doc_get_block(b33, "expected_collapsal_paradigms"@);
    lemma_doc_get_concat(p32, b33, "expected_collapsal_paradigms"@);
    lemma_doc_get_concat(p31, b32, "expected_collapsal_paradigms"@);
    lemma_doc_get_concat(p30, b31, "expected_collapsal_paradigms"@);
    lemma_doc_get_concat(p29, b30, "expected_collapsal_paradigms"@);
    lemma_doc_get_concat(p28, b29, "expected_collapsal_paradigms"@);
    lemma_doc_get_concat(p27, b28, "expected_collapsal_paradigms"@);
    lemma_doc_get_concat(p26, b27, "expected_collapsal_paradigms"@);
    lemma_doc_get_concat(p25, b26, "expected_collapsal_paradigms"@);
    lemma_doc_get_concat(p24, b25, "expected_collapsal_paradigms"@);
    lemma_doc_get_concat(p23, b24, "expected_collapsal_paradigms"@);
    lemma_doc_get_concat(p22, b23, "expected_collapsal_paradigms"@);
    lemma_doc_get_concat(p21, b22, "expected_collapsal_paradigms"@);
    lemma_doc_get_concat(p20, b21, "expected_collapsal_paradigms"@);
    lemma_doc_get_concat(p19, b20, "expected_collapsal_paradigms"@);
    lemma_doc_get_concat(p18, b19, "expected_collapsal_paradigms"@);
    lemma_doc_get_concat(p17, b18, "expected_collapsal_paradigms"@);
    lemma_doc_get_concat(p16, b17, "expected_collapsal_paradigms"@);
    lemma_doc_get_concat(p15, b16, "expected_collapsal_paradigms"@);
    lemma_doc_get_concat(p14, b15, "expected_collapsal_paradigms"@);
    lemma_doc_get_concat(p13, b14, "expected_collapsal_paradigms"@);
    lemma_doc_get_concat(p12, b13, "expected_collapsal_paradigms"@);
    lemma_doc_get_concat(p11, b12, "expected_collapsal_paradigms"@);
    lemma_doc_get_concat(p10, b11, "expected_collapsal_paradigms"@);
    lemma_doc_get_concat(p9, b10, "expected_collapsal_paradigms"@);
    lemma_doc_get_concat(p8, b9, "expected_collapsal_paradigms"@);
    lemma_doc_get_concat(p7, b8, "expected_collapsal_paradigms"@);
    lemma_doc_get_concat(p6, b7, "expected_collapsal_paradigms"@);
    lemma_doc_get_concat(p5, b6, "expected_collapsal_paradigms"@);
    lemma_doc_get_concat(p4, b5, "expected_collapsal_paradigms"@);
    lemma_doc_get_concat(p3, b4, "expected_collapsal_paradigms"@);
    lemma_doc_get_concat(p2, b3, "expected_collapsal_paradigms"@);
    lemma_doc_get_concat(p1, b2, "expected_collapsal_paradigms"@);
}

/// What lookup of `monthly_squad_auto_iterate` finds in the members of a Roguelike task.
proof fn roguelike_get_monthly_squad_auto_iterate(t: RoguelikeTask)
    ensures
        doc_get(roguelike_pairs(t), "monthly_squad_auto_iterate"@) == (match t.monthly_squad_auto_iterate { Option::None => Option::<JsonV>::None, Option::Some(b) => Option::Some(JsonV::Sc(ScalarV::Bool(b))) }),
{
    reveal_strlit("enable");
    reveal_strlit("theme");
    reveal_strlit("mode");
    reveal_strlit("squad");
    reveal_strlit("roles");
    reveal_strlit("core_char");
    reveal_strlit("use_support");
    reveal_strlit("use_nonfriend_support");
    reveal_strlit("starts_count");
    reveal_strlit("difficulty");
    reveal_strlit("stop_at_final_boss");
    reveal_strlit("stop_at_max_level");
    reveal_strlit("investment_enabled");
    reveal_strlit("investments_count");
    reveal_strlit("stop_when_investment_full");
    reveal_strlit("investment_with_more_score");
    reveal_strlit("start_with_elite_two");
    reveal_strlit("only_start_with_elite_two");
    reveal_strlit("refresh_trader_with_dice");
    reveal_strlit("first_floor_foldartal");
    reveal_strlit("start_foldartal_list");
    reveal_strlit("start_with_two_ideas");
    reveal_strlit("use_foldartal");
    reveal_strlit("check_collapsal_paradigms");
    reveal_strlit("double_check_collapsal_paradigms");
    reveal_strlit("expected_collapsal_paradigms");
    reveal_strlit("monthly_squad_auto_iterate");
    reveal_strlit("monthly_squad_check_comms");
    reveal_strlit("deep_exploration_auto_iterate");
    reveal_strlit("collectible_mode_shopping");
    reveal_strlit("collectible_mode_squad");
    reveal_strlit("collectible_mode_start_list");
    reveal_strlit("start_with_seed");
    assert("monthly_squad_auto_iterate"@.len() != "enable"@.len());
    assert("monthly_squad_auto_iterate"@ != "enable"@);
    assert("monthly_squad_auto_iterate"@.len() != "theme"@.len());
    assert("monthly_squad_auto_iterate"@ != "theme"@);
    assert("monthly_squad_auto_iterate"@.len() != "mode"@.len());
    assert("monthly_squad_auto_iterate"@ != "mode"@);
    assert("monthly_squad_auto_iterate"@.len() != "squad"@.len());
    assert("monthly_squad_auto_iterate"@ != "squad"@);
    assert("monthly_squad_auto_iterate"@.len() != "roles"@.len());
    assert("monthly_squad_auto_iterate"@ != "roles"@);
    assert("monthly_squad_auto_iterate"@.len() != "core_char"@.len());
    assert("monthly_squad_auto_iterate"@ != "core_char"@);
    assert("monthly_squad_auto_iterate"@.len() != "use_support"@.len());
    assert("monthly_squad_auto_iterate"@ != "use_support"@);
    assert("monthly_squad_auto_iterate"@.len() != "use_nonfriend_support"@.len());
    assert("monthly_squad_auto_iterate"@ != "use_nonfriend_support"@);
    assert("monthly_squad_auto_iterate"@.len() != "starts_count"@.len());
    assert("monthly_squad_auto_iterate"@ != "starts_count"@);
    assert("monthly_squad_auto_iterate"@.len() != "difficulty"@.len());
    assert("monthly_squad_auto_iterate"@ != "difficulty"@);
    assert("monthly_squad_auto_iterate"@.len() != "stop_at_final_boss"@.len());
    assert("monthly_squad_auto_iterate"@ != "stop_at_final_boss"@);
    assert("monthly_squad_auto_iterate"@.len() != "stop_at_max_level"@.len());
    assert("monthly_squad_auto_iterate"@ != "stop_at_max_level"@);
    assert("monthly_squad_auto_iterate"@.len() != "investment_enabled"@.len());
    assert("monthly_squad_auto_iterate"@ != "investment_enabled"@);
    assert("monthly_squad_auto_iterate"@.len() != "investments_count"@.len());
    assert("monthly_squad_auto_iterate"@ != "investments_count"@);
    assert("monthly_squad_auto_iterate"@.len() != "stop_when_investment_full"@.len());
    assert("monthly_squad_auto_iterate"@ != "stop_when_investment_full"@);
    assert("monthly_squad_auto_iterate"@[0] != "investment_with_more_score"@[0]);
    assert("monthly_squad_auto_iterate"@ != "investment_with_more_score"@);
    assert("monthly_squad_auto_iterate"@.len() != "start_with_elite_two"@.len());
    assert("monthly_squad_auto_iterate"@ != "start_with_elite_two"@);
    assert("monthly_squad_auto_iterate"@.len() != "only_start_with_elite_two"@.len());
    assert("monthly_squad_auto_iterate"@ != "only_start_with_elite_two"@);
    assert("monthly_squad_auto_iterate"@.len() != "refresh_trader_with_dice"@.len());
    assert("monthly_squad_auto_iterate"@ != "refresh_trader_with_dice"@);
    assert("monthly_squad_auto_iterate"@.len() != "first_floor_foldartal"@.len());
    assert("monthly_squad_auto_iterate"@ != "first_floor_foldartal"@);
    assert("monthly_squad_auto_iterate"@.len() != "start_foldartal_list"@.len());
    assert("monthly_squad_auto_iterate"@ != "start_foldartal_list"@);
    assert("monthly_squad_auto_iterate"@.len() != "start_with_two_ideas"@.len());
    assert("monthly_squad_auto_iterate"@ != "start_with_two_ideas"@);
    assert("monthly_squad_auto_iterate"@.len() != "use_foldartal"@.len());
    assert("monthly_squad_auto_iterate"@ != "use_foldartal"@);
    assert("monthly_squad_auto_iterate"@.len() != "check_collapsal_paradigms"@.len());
    assert("monthly_squad_auto_iterate"@ != "check_collapsal_paradigms"@);
    assert("monthly_squad_auto_iterate"@.len() != "double_check_collapsal_paradigms"@.len());
    assert("monthly_squad_auto_iterate"@ != "double_check_collapsal_paradigms"@);
    assert("monthly_squad_auto_iterate"@.len() != "expected_collapsal_paradigms"@.len());
    assert("monthly_squad_auto_iterate"@ != "expected_collapsal_paradigms"@);
    assert("monthly_squad_auto_iterate"@.len() != "monthly_squad_check_comms"@.len());
    assert("monthly_squad_auto_iterate"@ != "monthly_squad_check_comms"@);
    assert("monthly_squad_auto_iterate"@.len() != "deep_exploration_auto_iterate"@.len());
    assert("monthly_squad_auto_iterate"@ != "deep_exploration_auto_iterate"@);
    assert("monthly_squad_auto_iterate"@.len() != "collectible_mode_shopping"@.len());
    assert("monthly_squad_auto_iterate"@ != "collectible_mode_shopping"@);
    assert("monthly_squad_auto_iterate"@.len() != "collectible_mode_squad"@.len());
    assert("monthly_squad_auto_iterate"@ != "collectible_mode_squad"@);
    assert("monthly_squad_auto_iterate"@.len() != "collectible_mode_start_list"@.len());
    assert("monthly_squad_auto_iterate"@ != "collectible_mode_start_list"@);
    assert("monthly_squad_auto_iterate"@.len() != "start_with_seed"@.len());
    assert("monthly_squad_auto_iterate"@ != "start_with_seed"@);
    let b1 = b_opt_bool("enable"@, t.enable);
    let b2 = b_opt_str("theme"@, opt_str_view(t.theme));
    let b3 = b_opt_int("mode"@, t.mode);
    let b4 = b_opt_str("squad"@, opt_str_view(t.squad));
    let b5 = b_opt_str("roles"@, opt_str_view(t.roles));
    let b6 = b_opt_str("core_char"@, opt_str_view(t.core_char));
    let b7 = b_opt_bool("use_support"@, t.use_support);
    let b8 = b_opt_bool("use_nonfriend_support"@, t.use_nonfriend_support);
    let b9 = b_opt_int("starts_count"@, t.starts_count);
    let b10 = b_opt_int("difficulty"@, t.difficulty);
    let b11 = b_opt_bool("stop_at_final_boss"@, t.stop_at_final_boss);
    let b12 = b_opt_bool("stop_at_max_level"@, t.stop_at_max_level);
    let b13 = b_opt_bool("investment_enabled"@, t.investment_enabled);
    let b14 = b_opt_int("investments_count"@, t.investments_count);
    let b15 = b_opt_bool("stop_when_investment_full"@, t.stop_when_investment_full);
    let b16 = b_opt_bool("investment_with_more_score"@, t.investment_with_more_score);
    let b17 = b_opt_bool("start_with_elite_two"@, t.start_with_elite_two);
    let b18 = b_opt_bool("only_start_with_elite_two"@, t.only_start_with_elite_two);
    let b19 = b_opt_bool("refresh_trader_with_dice"@, t.refresh_trader_with_dice);
    let b20 = b_opt_str("first_floor_foldartal"@, opt_str_view(t.first_floor_foldartal));
    let b21 = b_opt_str_list("start_foldartal_list"@, (match t.start_foldartal_list { Option::None => Option::None, Option::Some(l) => Option::Some(strs_view(l@)) }));
    let b22 = b_opt_bool("start_with_two_ideas"@, t.start_with_two_ideas);
    let b23 = b_opt_bool("use_foldartal"@, t.use_foldartal);
    let b24 = b_opt_bool("check_collapsal_paradigms"@, t.check_collapsal_paradigms);
    let b25 = b_opt_bool("double_check_collapsal_paradigms"@, t.double_check_collapsal_paradigms);
    let b26 = b_opt_str_list("expected_collapsal_paradigms"@, (match t.expected_collapsal_paradigms { Option::None => Option::None, Option::Some(l) => Option::Some(strs_view(l@)) }));
    let b27 = b_opt_bool("monthly_squad_auto_iterate"@, t.monthly_squad_auto_iterate);
    let b28 = b_opt_bool("monthly_squad_check_comms"@, t.monthly_squad_check_comms);
    let b29 = b_opt_bool("deep_exploration_auto_iterate"@, t.deep_exploration_auto_iterate);
    let b30 = b_opt_bool("collectible_mode_shopping"@, t.collectible_mode_shopping);
    let b31 = b_opt_str("collectible_mode_squad"@, opt_str_view(t.collectible_mode_squad));
    let b32 = b_opt_bool_map("collectible_mode_start_list"@, (match t.collectible_mode_start_list { Option::None => Option::None, Option::Some(m) => Option::Some(bpairs_view(m@)) }));
    let b33 = b_opt_bool("start_with_seed"@, t.start_with_seed);
    let p1 = b1;
    let p2 = p1 + b2;
    let p3 = p2 + b3;
    let p4 = p3 + b4;
    let p5 = p4 + b5;
    let p6 = p5 + b6;
    let p7 = p6 + b7;
    let p8 = p7 + b8;
    let p9 = p8 + b9;
    let p10 = p9 + b10;
    let p11 = p10 + b11;
    let p12 = p11 + b12;
    let p13 = p12 + b13;
    let p14 = p13 + b14;
    let p15 = p14 + b15;
    let p16 = p15 + b16;
    let p17 = p16 + b17;
    let p18 = p17 + b18;
    let p19 = p18 + b19;
    let p20 = p19 + b20;
    let p21 = p20 + b21;
    let p22 = p21 + b22;
    let p23 = p22 + b23;
    let p24 = p23 + b24;
    let p25 = p24 + b25;
    let p26 = p25 + b26;
    let p27 = p26 + b27;
    let p28 = p27 + b28;
    let p29 = p28 + b29;
    let p30 = p29 + b30;
    let p31 = p30 + b31;
    let p32 = p31 + b32;
    let p33 = p32 + b33;
    assert(roguelike_pairs(t) == p33);
    lemma_doc_get_block(b1, "monthly_squad_auto_iterate"@);
    lemma_doc_get_block(b2, "monthly_squad_auto_iterate"@);
    lemma_doc_get_block(b3, "monthly_squad_auto_iterate"@);
    lemma_doc_get_block(b4, "monthly_squad_auto_iterate"@);
    lemma_doc_get_block(b5, "monthly_squad_auto_iterate"@);
    lemma_doc_get_block(b6, "monthly_squad_auto_iterate"@);
    lemma_doc_get_block(b7, "monthly_squad_auto_iterate"@);
    lemma_doc_get_block(b8, "monthly_squad_auto_iterate"@);
    lemma_doc_get_block(b9, "monthly_squad_auto_iterate"@);
    lemma_doc_get_block(b10, "monthly_squad_auto_iterate"@);
    lemma_doc_get_block(b11, "monthly_squad_auto_iterate"@);
    lemma_doc_get_block(b12, "monthly_squad_auto_iterate"@);
    lemma_doc_get_block(b13, "monthly_squad_auto_iterate"@);
    lemma_doc_get_block(b14, "monthly_squad_auto_iterate"@);
    lemma_doc_get_block(b15, "monthly_squad_auto_iterate"@);
    lemma_doc_get_block(b16, "monthly_squad_auto_iterate"@);
    lemma_doc_get_block(b17, "monthly_squad_auto_iterate"@);
    lemma_doc_get_block(b18, "monthly_squad_auto_iterate"@);
    lemma_doc_get_block(b19, "monthly_squad_auto_iterate"@);
    lemma_doc_get_block(b20, "monthly_squad_auto_iterate"@);
    lemma_doc_get_block(b21, "monthly_squad_auto_iterate"@);
    lemma_doc_get_block(b22, "monthly_squad_auto_iterate"@);
    lemma_doc_get_block(b23, "monthly_squad_auto_iterate"@);
    lemma_doc_get_block(b24, "monthly_squad_auto_iterate"@);
    lemma_doc_get_block(b25, "monthly_squad_auto_iterate"@);
    lemma_doc_get_block(b26, "monthly_squad_auto_iterate"@);
    lemma_doc_get_block(b27, "monthly_squad_auto_iterate"@);
    lemma_doc_get_block(b28, "monthly_squad_auto_iterate"@);
    lemma_doc_get_block(b29, "monthly_squad_auto_iterate"@);
    lemma_doc_get_block(b30, "monthly_squad_auto_iterate"@);
    lemma_doc_get_block(b31, "monthly_squad_auto_iterate"@);
    lemma_doc_get_block(b32, "monthly_squad_auto_iterate"@);
    lemma_doc_get_block(b33, "monthly_squad_auto_iterate"@);
    lemma_doc_get_concat(p32, b33, "monthly_squad_auto_iterate"@);
    lemma_doc_get_concat(p31, b32, "monthly_squad_auto_iterate"@);
    lemma_doc_get_concat(p30, b31, "monthly_squad_auto_iterate"@);
    lemma_doc_get_concat(p29, b30, "monthly_squad_auto_iterate"@);
    lemma_doc_get_concat(p28, b29, "monthly_squad_auto_iterate"@);
    lemma_doc_get_concat(p27, b28, "monthly_squad_auto_iterate"@);
    lemma_doc_get_concat(p26, b27, "monthly_squad_auto_iterate"@);
    lemma_doc_get_concat(p25, b26, "monthly_squad_auto_iterate"@);
    lemma_doc_get_concat(p24, b25, "monthly_squad_auto_iterate"@);
    lemma_doc_get_concat(p23, b24, "monthly_squad_auto_iterate"@);
    lemma_doc_get_concat(p22, b23, "monthly_squad_auto_iterate"@);
    lemma_doc_get_concat(p21, b22, "monthly_squad_auto_iterate"@);
    lemma_doc_get_concat(p20, b21, "monthly_squad_auto_iterate"@);
    lemma_doc_get_concat(p19, b20, "monthly_squad_auto_iterate"@);
    lemma_doc_get_concat(p18, b19, "monthly_squad_auto_iterate"@);
    lemma_doc_get_concat(p17, b18, "monthly_squad_auto_iterate"@);
    lemma_doc_get_concat(p16, b17, "monthly_squad_auto_iterate"@);
    lemma_doc_get_concat(p15, b16, "monthly_squad_auto_iterate"@);
    lemma_doc_get_concat(p14, b15, "monthly_squad_auto_iterate"@);
    lemma_doc_get_concat(p13, b14, "monthly_squad_auto_iterate"@);
    lemma_doc_get_concat(p12, b13, "monthly_squad_auto_iterate"@);
    lemma_doc_get_concat(p11, b12, "monthly_squad_auto_iterate"@);
    lemma_doc_get_concat(p10, b11, "monthly_squad_auto_iterate"@);
    lemma_doc_get_concat(p9, b10, "monthly_squad_auto_iterate"@);
    lemma_doc_get_concat(p8, b9, "monthly_squad_auto_iterate"@);
    lemma_doc_get_concat(p7, b8, "monthly_squad_auto_iterate"@);
    lemma_doc_get_concat(p6, b7, "monthly_squad_auto_iterate"@);
    lemma_doc_get_concat(p5, b6, "monthly_squad_auto_iterate"@);
    lemma_doc_get_concat(p4, b5, "monthly_squad_auto_iterate"@);
    lemma_doc_get_concat(p3, b4, "monthly_squad_auto_iterate"@);
    lemma_doc_get_concat(p2, b3, "monthly_squad_auto_iterate"@);
    lemma_doc_get_concat(p1, b2, "monthly_squad_auto_iterate"@);
}

/// What lookup of `monthly_squad_check_comms` finds in the members of a Roguelike task.
proof fn roguelike_get_monthly_squad_check_comms(t: RoguelikeTask)
    ensures
        doc_get(roguelike_pairs(t), "monthly_squad_check_comms"@) == (match t.monthly_squad_check_comms { Option::None => Option::<JsonV>::None, Option::Some(b) => Option::Some(JsonV::Sc(ScalarV::Bool(b))) }),
{
    reveal_strlit("enable");
    reveal_strlit("theme");
    reveal_strlit("mode");
    reveal_strlit("squad");
    reveal_strlit("roles");
    reveal_strlit("core_char");
    reveal_strlit("use_support");
    reveal_strlit("use_nonfriend_support");
    reveal_strlit("starts_count");
    reveal_strlit("difficulty");
    reveal_strlit("stop_at_final_boss");
    reveal_strlit("stop_at_max_level");
    reveal_strlit("investment_enabled");
    reveal_strlit("investments_count");
    reveal_strlit("stop_when_investment_full");
    reveal_strlit("investment_with_more_score");
    reveal_strlit("start_with_elite_two");
    reveal_strlit("only_start_with_elite_two");
    reveal_strlit("refresh_trader_with_dice");
    reveal_strlit("first_floor_foldartal");
    reveal_strlit("start_foldartal_list");
    reveal_strlit("start_with_two_ideas");
    reveal_strlit("use_foldartal");
    reveal_strlit("check_collapsal_paradigms");
    reveal_strlit("double_check_collapsal_paradigms");
    reveal_strlit("expected_collapsal_paradigms");
    reveal_strlit("monthly_squad_auto_iterate");
    reveal_strlit("monthly_squad_check_comms");
    reveal_strlit("deep_exploration_auto_iterate");
    reveal_strlit("collectible_mode_shopping");
    reveal_strlit("collectible_mode_squad");
    reveal_strlit("collectible_mode_start_list");
    reveal_strlit("start_with_seed");
    assert("monthly_squad_check_comms"@.len() != "enable"@.len());
    assert("monthly_squad_check_comms"@ != "enable"@);
    assert("monthly_squad_check_comms"@.len() != "theme"@.len());
    assert("monthly_squad_check_comms"@ != "theme"@);
    assert("monthly_squad_check_comms"@.len() != "mode"@.len());
    assert("monthly_squad_check_comms"@ != "mode"@);
    assert("monthly_squad_check_comms"@.len() != "squad"@.len());
    assert("monthly_squad_check_comms"@ != "squad"@);
    assert("monthly_squad_check_comms"@.len() != "roles"@.len());
    assert("monthly_squad_check_comms"@ != "roles"@);
    assert("monthly_squad_check_comms"@.len() != "core_char"@.len());
    assert("monthly_squad_check_comms"@ != "core_char"@);
    assert("monthly_squad_check_comms"@.len() != "use_support"@.len());
    assert("monthly_squad_check_comms"@ != "use_support"@);
    assert("monthly_squad_check_comms"@.len() != "use_nonfriend_support"@.len());
    assert("monthly_squad_check_comms"@ != "use_nonfriend_support"@);
    assert("monthly_squad_check_comms"@.len() != "starts_count"@.len());
    assert("monthly_squad_check_comms"@ != "starts_count"@);
    assert("monthly_squad_check_comms"@.len() != "difficulty"@.len());
    assert("monthly_squad_check_comms"@ != "difficulty"@);
    assert("monthly_squad_check_comms"@.len() != "stop_at_final_boss"@.len());
    assert("monthly_squad_check_comms"@ != "stop_at_final_boss"@);
    assert("monthly_squad_check_comms"@.len() != "stop_at_max_level"@.len());
    assert("monthly_squad_check_comms"@ != "stop_at_max_level"@);
    assert("monthly_squad_check_comms"@.len() != "investment_enabled"@.len());
    assert("monthly_squad_check_comms"@ != "investment_enabled"@);
    assert("monthly_squad_check_comms"@.len() != "investments_count"@.len());
    assert("monthly_squad_check_comms"@ != "investments_count"@);
    assert("monthly_squad_check_comms"@[0] != "stop_when_investment_full"@[0]);
    assert("monthly_squad_check_comms"@ != "stop_when_investment_full"@);
    assert("monthly_squad_check_comms"@.len() != "investment_with_more_score"@.len());
    assert("monthly_squad_check_comms"@ != "investment_with_more_score"@);
    assert("monthly_squad_check_comms"@.len() != "start_with_elite_two"@.len());
    assert("monthly_squad_check_comms"@ != "start_with_elite_two"@);
    assert("monthly_squad_check_comms"@[0] != "only_start_with_elite_two"@[0]);
    assert("monthly_squad_check_comms"@ != "only_start_with_elite_two"@);
    assert("monthly_squad_check_comms"@.len() != "refresh_trader_with_dice"@.len());
    assert("monthly_squad_check_comms"@ != "refresh_trader_with_dice"@);
    assert("monthly_squad_check_comms"@.len() != "first_floor_foldartal"@.len());
    assert("monthly_squad_check_comms"@ != "first_floor_foldartal"@);
    assert("monthly_squad_check_comms"@.len() != "start_foldartal_list"@.len());
    assert("monthly_squad_check_comms"@ != "start_foldartal_list"@);
    assert("monthly_squad_check_comms"@.len() != "start_with_two_ideas"@.len());
    assert("monthly_squad_check_comms"@ != "start_with_two_ideas"@);
    assert("monthly_squad_check_comms"@.len() != "use_foldartal"@.len());
    assert("monthly_squad_check_comms"@ != "use_foldartal"@);
    assert("monthly_squad_check_comms"@[0] != "check_collapsal_paradigms"@[0]);
    assert("monthly_squad_check_comms"@ != "check_collapsal_paradigms"@);
    assert("monthly_squad_check_comms"@.len() != "double_check_collapsal_paradigms"@.len());
    assert("monthly_squad_check_comms"@ != "double_check_collapsal_paradigms"@);
    assert("monthly_squad_check_comms"@.len() != "expected_collapsal_paradigms"@.len());
    assert("monthly_squad_check_comms"@ != "expected_collapsal_paradigms"@);
    assert("monthly_squad_check_comms"@.len() != "monthly_squad_auto_iterate"@.len());
    assert("monthly_squad_check_comms"@ != "monthly_squad_auto_iterate"@);
    assert("monthly_squad_check_comms"@.len() != "deep_exploration_auto_iterate"@.len());
    assert("monthly_squad_check_comms"@ != "deep_exploration_auto_iterate"@);
    assert("monthly_squad_check_comms"@[0] != "collectible_mode_shopping"@[0]);
    assert("monthly_squad_check_comms"@ != "collectible_mode_shopping"@);
    assert("monthly_squad_check_comms"@.len() != "collectible_mode_squad"@.len());
    assert("monthly_squad_check_comms"@ != "collectible_mode_squad"@);
    assert("monthly_squad_check_comms"@.len() != "collectible_mode_start_list"@.len());
    assert("monthly_squad_check_comms"@ != "collectible_mode_start_list"@);
    assert("monthly_squad_check_comms"@.len() != "start_with_seed"@.len());
    assert("monthly_squad_check_comms"@ != "start_with_seed"@);
    let b1 = b_opt_bool("enable"@, t.enable);
    let b2 = b_opt_str("theme"@, opt_str_view(t.theme));
    let b3 = b_opt_int("mode"@, t.mode);
    let b4 = b_opt_str("squad"@, opt_str_view(t.squad));
    let b5 = b_opt_str("roles"@, opt_str_view(t.roles));
    let b6 = b_opt_str("core_char"@, opt_str_view(t.core_char));
    let b7 = b_opt_bool("use_support"@, t.use_support);
    let b8 = b_opt_bool("use_nonfriend_support"@, t.use_nonfriend_support);
    let b9 = b_opt_int("starts_count"@, t.starts_count);
    let b10 = b_opt_int("difficulty"@, t.difficulty);
    let b11 = b_opt_bool("stop_at_final_boss"@, t.stop_at_final_boss);
    let b12 = b_opt_bool("stop_at_max_level"@, t.stop_at_max_level);
    let b13 = b_opt_bool("investment_enabled"@, t.investment_enabled);
    let b14 = b_opt_int("investments_count"@, t.investments_count);
    let b15 = b_opt_bool("stop_when_investment_full"@, t.stop_when_investment_full);
    let b16 = b_opt_bool("investment_with_more_score"@, t.investment_with_more_score);
    let b17 = b_opt_bool("start_with_elite_two"@, t.start_with_elite_two);
    let b18 = b_opt_bool("only_start_with_elite_two"@, t.only_start_with_elite_two);
    let b19 = b_opt_bool("refresh_trader_with_dice"@, t.refresh_trader_with_dice);
    let b20 = b_opt_str("first_floor_foldartal"@, opt_str_view(t.first_floor_foldartal));
    let b21 = b_opt_str_list("start_foldartal_list"@, (match t.start_foldartal_list { Option::None => Option::None, Option::Some(l) => Option::Some(strs_view(l@)) }));
    let b22 = b_opt_bool("start_with_two_ideas"@, t.start_with_two_ideas);
    let b23 = b_opt_bool("use_foldartal"@, t.use_foldartal);
    let b24 = b_opt_bool("check_collapsal_paradigms"@, t.check_collapsal_paradigms);
    let b25 = b_opt_bool("double_check_collapsal_paradigms"@, t.double_check_collapsal_paradigms);
    let b26 = b_opt_str_list("expected_collapsal_paradigms"@, (match t.expected_collapsal_paradigms { Option::None => Option::None, Option::Some(l) => Option::Some(strs_view(l@)) }));
    let b27 = b_opt_bool("monthly_squad_auto_iterate"@, t.monthly_squad_auto_iterate);
    let b28 = b_opt_bool("monthly_squad_check_comms"@, t.monthly_squad_check_comms);
    let b29 = b_opt_bool("deep_exploration_auto_iterate"@, t.deep_exploration_auto_iterate);
    let b30 = b_opt_bool("collectible_mode_shopping"@, t.collectible_mode_shopping);
    let b31 = b_opt_str("collectible_mode_squad"@, opt_str_view(t.collectible_mode_squad));
    let b32 = b_opt_bool_map("collectible_mode_start_list"@, (match t.collectible_mode_start_list { Option::None => Option::None, Option::Some(m) => Option::Some(bpairs_view(m@)) }));
    let b33 = b_opt_bool("start_with_seed"@, t.start_with_seed);
    let p1 = b1;
    let p2 = p1 + b2;
    let p3 = p2 + b3;
    let p4 = p3 + b4;
    let p5 = p4 + b5;
    let p6 = p5 + b6;
    let p7 = p6 + b7;
    let p8 = p7 + b8;
    let p9 = p8 + b9;
    let p10 = p9 + b10;
    let p11 = p10 + b11;
    let p12 = p11 + b12;
    let p13 = p12 + b13;
    let p14 = p13 + b14;
    let p15 = p14 + b15;
    let p16 = p15 + b16;
    let p17 = p16 + b17;
    let p18 = p17 + b18;
    let p19 = p18 + b19;
    let p20 = p19 + b20;
    let p21 = p20 + b21;
    let p22 = p21 + b22;
    let p23 = p22 + b23;
    let p24 = p23 + b24;
    let p25 = p24 + b25;
    let p26 = p25 + b26;
    let p27 = p26 + b27;
    let p28 = p27 + b28;
    let p29 = p28 + b29;
    let p30 = p29 + b30;
    let p31 = p30 + b31;
    let p32 = p31 + b32;
    let p33 = p32 + b33;
    assert(roguelike_pairs(t) == p33);
    lemma_doc_get_block(b1, "monthly_squad_check_comms"@);
    lemma_doc_get_block(b2, "monthly_squad_check_comms"@);
    lemma_doc_get_block(b3, "monthly_squad_check_comms"@);
    lemma_doc_get_block(b4, "monthly_squad_check_comms"@);
    lemma_doc_get_block(b5, "monthly_squad_check_comms"@);
    lemma_doc_get_block(b6, "monthly_squad_check_comms"@);
    lemma_doc_get_block(b7, "monthly_squad_check_comms"@);
    lemma_doc_get_block(b8, "monthly_squad_check_comms"@);
    lemma_doc_get_block(b9, "monthly_squad_check_comms"@);
    lemma_doc_get_block(b10, "monthly_squad_check_comms"@);
    lemma_doc_get_block(b11, "monthly_squad_check_comms"@);
    lemma_doc_get_block(b12, "monthly_squad_check_comms"@);
    lemma_doc_get_block(b13, "monthly_squad_check_comms"@);
    lemma_doc_get_block(b14, "monthly_squad_check_comms"@);
    lemma_doc_get_block(b15, "monthly_squad_check_comms"@);
    lemma_doc_get_block(b16, "monthly_squad_check_comms"@);
    lemma_doc_get_block(b17, "monthly_squad_check_comms"@);
    lemma_doc_get_block(b18, "monthly_squad_check_comms"@);
    lemma_doc_get_block(b19, "monthly_squad_check_comms"@);
    lemma_doc_get_block(b20, "monthly_squad_check_comms"@);
    lemma_doc_get_block(b21, "monthly_squad_check_comms"@);
    lemma_doc_get_block(b22, "monthly_squad_check_comms"@);
    lemma_doc_get_block(b23, "monthly_squad_check_comms"@);
    lemma_doc_get_block(b24, "monthly_squad_check_comms"@);
    lemma_doc_get_block(b25, "monthly_squad_check_comms"@);
    lemma_doc_get_block(b26, "monthly_squad_check_comms"@);
    lemma_doc_get_block(b27, "monthly_squad_check_comms"@);
    lemma_doc_get_block(b28, "monthly_squad_check_comms"@);
    lemma_doc_get_block(b29, "monthly_squad_check_comms"@);
    lemma_doc_get_block(b30, "monthly_squad_check_comms"@);
    lemma_doc_get_block(b31, "monthly_squad_check_comms"@);
    lemma_doc_get_block(b32, "monthly_squad_check_comms"@);
    lemma_doc_get_block(b33, "monthly_squad_check_comms"@);
    lemma_doc_get_concat(p32, b33, "monthly_squad_check_comms"@);
    lemma_doc_get_concat(p31, b32, "monthly_squad_check_comms"@);
    lemma_doc_get_concat(p30, b31, "monthly_squad_check_comms"@);
    lemma_doc_get_concat(p29, b30, "monthly_squad_check_comms"@);
    lemma_doc_get_concat(p28, b29, "monthly_squad_check_comms"@);
    lemma_doc_get_concat(p27, b28, "monthly_squad_check_comms"@);
    lemma_doc_get_concat(p26, b27, "monthly_squad_check_comms"@);
    lemma_doc_get_concat(p25, b26, "monthly_squad_check_comms"@);
    lemma_doc_get_concat(p24, b25, "monthly_squad_check_comms"@);
    lemma_doc_get_concat(p23, b24, "monthly_squad_check_comms"@);
    lemma_doc_get_concat(p22, b23, "monthly_squad_check_comms"@);
    lemma_doc_get_concat(p21, b22, "monthly_squad_check_comms"@);
    lemma_doc_get_concat(p20, b21, "monthly_squad_check_comms"@);
    lemma_doc_get_concat(p19, b20, "monthly_squad_check_comms"@);
    lemma_doc_get_concat(p18, b19, "monthly_squad_check_comms"@);
    lemma_doc_get_concat(p17, b18, "monthly_squad_check_comms"@);
    lemma_doc_get_concat(p16, b17, "monthly_squad_check_comms"@);
    lemma_doc_get_concat(p15, b16, "monthly_squad_check_comms"@);
    lemma_doc_get_concat(p14, b15, "monthly_squad_check_comms"@);
    lemma_doc_get_concat(p13, b14, "monthly_squad_check_comms"@);
    lemma_doc_get_concat(p12, b13, "monthly_squad_check_comms"@);
    lemma_doc_get_concat(p11, b12, "monthly_squad_check_comms"@);
    lemma_doc_get_concat(p10, b11, "monthly_squad_check_comms"@);
    lemma_doc_get_concat(p9, b10, "monthly_squad_check_comms"@);
    lemma_doc_get_concat(p8, b9, "monthly_squad_check_comms"@);
    lemma_doc_get_concat(p7, b8, "monthly_squad_check_comms"@);
    lemma_doc_get_concat(p6, b7, "monthly_squad_check_comms"@);
    lemma_doc_get_concat(p5, b6, "monthly_squad_check_comms"@);
    lemma_doc_get_concat(p4, b5, "monthly_squad_check_comms"@);
    lemma_doc_get_concat(p3, b4, "monthly_squad_check_comms"@);
    lemma_doc_get_concat(p2, b3, "monthly_squad_check_comms"@);
    lemma_doc_get_concat(p1, b2, "monthly_squad_check_comms"@);
}

/// What lookup of `deep_exploration_auto_iterate` finds in the members of a Roguelike task.
proof fn roguelike_get_deep_exploration_auto_iterate(t: RoguelikeTask)
    ensures
        doc_get(roguelike_pairs(t), "deep_exploration_auto_iterate"@) == (match t.deep_exploration_auto_iterate { Option::None => Option::<JsonV>::None, Option::Some(b) => Option::Some(JsonV::Sc(ScalarV::Bool(b))) }),
{
    reveal_strlit("enable");
    reveal_strlit("theme");
    reveal_strlit("mode");
    reveal_strlit("squad");
    reveal_strlit("roles");
    reveal_strlit("core_char");
    reveal_strlit("use_support");
    reveal_strlit("use_nonfriend_support");
    reveal_strlit("starts_count");
    reveal_strlit("difficulty");
    reveal_strlit("stop_at_final_boss");
    reveal_strlit("stop_at_max_level");
    reveal_strlit("investment_enabled");
    reveal_strlit("investments_count");
    reveal_strlit("stop_when_investment_full");
    reveal_strlit("investment_with_more_score");
    reveal_strlit("start_with_elite_two");
    reveal_strlit("only_start_with_elite_two");
    reveal_strlit("refresh_trader_with_dice");
    reveal_strlit("first_floor_foldartal");
    reveal_strlit("start_foldartal_list");
    reveal_strlit("start_with_two_ideas");
    reveal_strlit("use_foldartal");
    reveal_strlit("check_collapsal_paradigms");
    reveal_strlit("double_check_collapsal_paradigms");
    reveal_strlit("expected_collapsal_paradigms");
    reveal_strlit("monthly_squad_auto_iterate");
    reveal_strlit("monthly_squad_check_comms");
    reveal_strlit("deep_exploration_auto_iterate");
    reveal_strlit("collectible_mode_shopping");
    reveal_strlit("collectible_mode_squad");
    reveal_strlit("collectible_mode_start_list");
    reveal_strlit("start_with_seed");
    assert("deep_exploration_auto_iterate"@.len() != "enable"@.len());
    assert("deep_exploration_auto_iterate"@ != "enable"@);
    assert("deep_exploration_auto_iterate"@.len() != "theme"@.len());
    assert("deep_exploration_auto_iterate"@ != "theme"@);
    assert("deep_exploration_auto_iterate"@.len() != "mode"@.len());
    assert("deep_exploration_auto_iterate"@ != "mode"@);
    assert("deep_exploration_auto_iterate"@.len() != "squad"@.len());
    assert("deep_exploration_auto_iterate"@ != "squad"@);
    assert("deep_exploration_auto_iterate"@.len() != "roles"@.len());
    assert("deep_exploration_auto_iterate"@ != "roles"@);
    assert("deep_exploration_auto_iterate"@.len() != "core_char"@.len());
    assert("deep_exploration_auto_iterate"@ != "core_char"@);
    assert("deep_exploration_auto_iterate"@.len() != "use_support"@.len());
    assert("deep_exploration_auto_iterate"@ != "use_support"@);
    assert("deep_exploration_auto_iterate"@.len() != "use_nonfriend_support"@.len());
    assert("deep_exploration_auto_iterate"@ != "use_nonfriend_support"@);
    assert("deep_exploration_auto_iterate"@.len() != "starts_count"@.len());
    assert("deep_exploration_auto_iterate"@ != "starts_count"@);
    assert("deep_exploration_auto_iterate"@.len() != "difficulty"@.len());
    assert("deep_exploration_auto_iterate"@ != "difficulty"@);
    assert("deep_exploration_auto_iterate"@.len() != "stop_at_final_boss"@.len());
    assert("deep_exploration_auto_iterate"@ != "stop_at_final_boss"@);
    assert("deep_exploration_auto_iterate"@.len() != "stop_at_max_level"@.len());
    assert("deep_exploration_auto_iterate"@ != "stop_at_max_level"@);
    assert("deep_exploration_auto_iterate"@.len() != "investment_enabled"@.len());
    assert("deep_exploration_auto_iterate"@ != "investment_enabled"@);
    assert("deep_exploration_auto_iterate"@.len() != "investments_count"@.len());
    assert("deep_exploration_auto_iterate"@ != "investments_count"@);
    assert("deep_exploration_auto_iterate"@.len() != "stop_when_investment_full"@.len());
    assert("deep_exploration_auto_iterate"@ != "stop_when_investment_full"@);
    assert("deep_exploration_auto_iterate"@.len() != "investment_with_more_score"@.len());
    assert("deep_exploration_auto_iterate"@ != "investment_with_more_score"@);
    assert("deep_exploration_auto_iterate"@.len() != "start_with_elite_two"@.len());
    assert("deep_exploration_auto_iterate"@ != "start_with_elite_two"@);
    assert("deep_exploration_auto_iterate"@.len() != "only_start_with_elite_two"@.len());
    assert("deep_exploration_auto_iterate"@ != "only_start_with_elite_two"@);
    assert("deep_exploration_auto_iterate"@.len() != "refresh_trader_with_dice"@.len());
    assert("deep_exploration_auto_iterate"@ != "refresh_trader_with_dice"@);
    assert("deep_exploration_auto_iterate"@.len() != "first_floor_foldartal"@.len());
    assert("deep_exploration_auto_iterate"@ != "first_floor_foldartal"@);
    assert("deep_exploration_auto_iterate"@.len() != "start_foldartal_list"@.len());
    assert("deep_exploration_auto_iterate"@ != "start_foldartal_list"@);
    assert("deep_exploration_auto_iterate"@.len() != "start_with_two_ideas"@.len());
    assert("deep_exploration_auto_iterate"@ != "start_with_two_ideas"@);
    assert("deep_exploration_auto_iterate"@.len() != "use_foldartal"@.len());
    assert("deep_exploration_auto_iterate"@ != "use_foldartal"@);
    assert("deep_exploration_auto_iterate"@.len() != "check_collapsal_paradigms"@.len());
    assert("deep_exploration_auto_iterate"@ != "check_collapsal_paradigms"@);
    assert("deep_exploration_auto_iterate"@.len() != "double_check_collapsal_paradigms"@.len());
    assert("deep_exploration_auto_iterate"@ != "double_check_collapsal_paradigms"@);
    assert("deep_exploration_auto_iterate"@.len() != "expected_collapsal_paradigms"@.len());
    assert("deep_exploration_auto_iterate"@ != "expected_collapsal_paradigms"@);
    assert("deep_exploration_auto_iterate"@.len() != "monthly_squad_auto_iterate"@.len());
    assert("deep_exploration_auto_iterate"@ != "monthly_squad_auto_iterate"@);
    assert("deep_exploration_auto_iterate"@.len() != "monthly_squad_check_comms"@.len());
    assert("deep_exploration_auto_iterate"@ != "monthly_squad_check_comms"@);
    assert("deep_exploration_auto_iterate"@.len() != "collectible_mode_shopping"@.len());
    assert("deep_exploration_auto_iterate"@ != "collectible_mode_shopping"@);
    assert("deep_exploration_auto_iterate"@.len() != "collectible_mode_squad"@.len());
    assert("deep_exploration_auto_iterate"@ != "collectible_mode_squad"@);
    assert("deep_exploration_auto_iterate"@.len() != "collectible_mode_start_list"@.len());
    assert("deep_exploration_auto_iterate"@ != "collectible_mode_start_list"@);
    assert("deep_exploration_auto_iterate"@.len() != "start_with_seed"@.len());
    assert("deep_exploration_auto_iterate"@ != "start_with_seed"@);
    let b1 = b_opt_bool("enable"@, t.enable);
    let b2 = b_opt_str("theme"@, opt_str_view(t.theme));
    let b3 = b_opt_int("mode"@, t.mode);
    let b4 = b_opt_str("squad"@, opt_str_view(t.squad));
    let b5 = b_opt_str("roles"@, opt_str_view(t.roles));
    let b6 = b_opt_str("core_char"@, opt_str_view(t.core_char));
    let b7 = b_opt_bool("use_support"@, t.use_support);
    let b8 = b_opt_bool("use_nonfriend_support"@, t.use_nonfriend_support);
    let b9 = b_opt_int("starts_count"@, t.starts_count);
    let b10 = b_opt_int("difficulty"@, t.difficulty);
    let b11 = b_opt_bool("stop_at_final_boss"@, t.stop_at_final_boss);
    let b12 = b_opt_bool("stop_at_max_level"@, t.stop_at_max_level);
    let b13 = b_opt_bool("investment_enabled"@, t.investment_enabled);
    let b14 = b_opt_int("investments_count"@, t.investments_count);
    let b15 = b_opt_bool("stop_when_investment_full"@, t.stop_when_investment_full);
    let b16 = b_opt_bool("investment_with_more_score"@, t.investment_with_more_score);
    let b17 = b_opt_bool("start_with_elite_two"@, t.start_with_elite_two);
    let b18 = b_opt_bool("only_start_with_elite_two"@, t.only_start_with_elite_two);
    let b19 = b_opt_bool("refresh_trader_with_dice"@, t.refresh_trader_with_dice);
    let b20 = b_opt_str("first_floor_foldartal"@, opt_str_view(t.first_floor_foldartal));
    let b21 = b_opt_str_list("start_foldartal_list"@, (match t.start_foldartal_list { Option::None => Option::None, Option::Some(l) => Option::Some(strs_view(l@)) }));
    let b22 = b_opt_bool("start_with_two_ideas"@, t.start_with_two_ideas);
    let b23 = b_opt_bool("use_foldartal"@, t.use_foldartal);
    let b24 = b_opt_bool("check_collapsal_paradigms"@, t.check_collapsal_paradigms);
    let b25 = b_opt_bool("double_check_collapsal_paradigms"@, t.double_check_collapsal_paradigms);
    let b26 = b_opt_str_list("expected_collapsal_paradigms"@, (match t.expected_collapsal_paradigms { Option::None => Option::None, Option::Some(l) => Option::Some(strs_view(l@)) }));
    let b27 = b_opt_bool("monthly_squad_auto_iterate"@, t.monthly_squad_auto_iterate);
    let b28 = b_opt_bool("monthly_squad_check_comms"@, t.monthly_squad_check_comms);
    let b29 = b_opt_bool("deep_exploration_auto_iterate"@, t.deep_exploration_auto_iterate);
    let b30 = b_opt_bool("collectible_mode_shopping"@, t.collectible_mode_shopping);
    let b31 = b_opt_str("collectible_mode_squad"@, opt_str_view(t.collectible_mode_squad));
    let b32 = b_opt_bool_map("collectible_mode_start_list"@, (match t.collectible_mode_start_list { Option::None => Option::None, Option::Some(m) => Option::Some(bpairs_view(m@)) }));
    let b33 = b_opt_bool("start_with_seed"@, t.start_with_seed);
    let p1 = b1;
    let p2 = p1 + b2;
    let p3 = p2 + b3;
    let p4 = p3 + b4;
    let p5 = p4 + b5;
    let p6 = p5 + b6;
    let p7 = p6 + b7;
    let p8 = p7 + b8;
    let p9 = p8 + b9;
    let p10 = p9 + b10;
    let p11 = p10 + b11;
    let p12 = p11 + b12;
    let p13 = p12 + b13;
    let p14 = p13 + b14;
    let p15 = p14 + b15;
    let p16 = p15 + b16;
    let p17 = p16 + b17;
    let p18 = p17 + b18;
    let p19 = p18 + b19;
    let p20 = p19 + b20;
    let p21 = p20 + b21;
    let p22 = p21 + b22;
    let p23 = p22 + b23;
    let p24 = p23 + b24;
    let p25 = p24 + b25;
    let p26 = p25 + b26;
    let p27 = p26 + b27;
    let p28 = p27 + b28;
    let p29 = p28 + b29;
    let p30 = p29 + b30;
    let p31 = p30 + b31;
    let p32 = p31 + b32;
    let p33 = p32 + b33;
    assert(roguelike_pairs(t) == p33);
    lemma_doc_get_block(b1, "deep_exploration_auto_iterate"@);
    lemma_doc_get_block(b2, "deep_exploration_auto_iterate"@);
    lemma_doc_get_block(b3, "deep_exploration_auto_iterate"@);
    lemma_doc_get_block(b4, "deep_exploration_auto_iterate"@);
    lemma_doc_get_block(b5, "deep_exploration_auto_iterate"@);
    lemma_doc_get_block(b6, "deep_exploration_auto_iterate"@);
    lemma_doc_get_block(b7, "deep_exploration_auto_iterate"@);
    lemma_doc_get_block(b8, "deep_exploration_auto_iterate"@);
    lemma_doc_get_block(b9, "deep_exploration_auto_iterate"@);
    lemma_doc_get_block(b10, "deep_exploration_auto_iterate"@);
    lemma_doc_get_block(b11, "deep_exploration_auto_iterate"@);
    lemma_doc_get_block(b12, "deep_exploration_auto_iterate"@);
    lemma_doc_get_block(b13, "deep_exploration_auto_iterate"@);
    lemma_doc_get_block(b14, "deep_exploration_auto_iterate"@);
    lemma_doc_get_block(b15, "deep_exploration_auto_iterate"@);
    lemma_doc_get_block(b16, "deep_exploration_auto_iterate"@);
    lemma_doc_get_block(b17, "deep_exploration_auto_iterate"@);
    lemma_doc_get_block(b18, "deep_exploration_auto_iterate"@);
    lemma_doc_get_block(b19, "deep_exploration_auto_iterate"@);
    lemma_doc_get_block(b20, "deep_exploration_auto_iterate"@);
    lemma_doc_get_block(b21, "deep_exploration_auto_iterate"@);
    lemma_doc_get_block(b22, "deep_exploration_auto_iterate"@);
    lemma_doc_get_block(b23, "deep_exploration_auto_iterate"@);
    lemma_doc_get_block(b24, "deep_exploration_auto_iterate"@);
    lemma_doc_get_block(b25, "deep_exploration_auto_iterate"@);
    lemma_doc_get_block(b26, "deep_exploration_auto_iterate"@);
    lemma_doc_get_block(b27, "deep_exploration_auto_iterate"@);
    lemma_doc_get_block(b28, "deep_exploration_auto_iterate"@);
    lemma_doc_get_block(b29, "deep_exploration_auto_iterate"@);
    lemma_doc_get_block(b30, "deep_exploration_auto_iterate"@);
    lemma_doc_get_block(b31, "deep_exploration_auto_iterate"@);
    lemma_doc_get_block(b32, "deep_exploration_auto_iterate"@);
    lemma_doc_get_block(b33, "deep_exploration_auto_iterate"@);
    lemma_doc_get_concat(p32, b33, "deep_exploration_auto_iterate"@);
    lemma_doc_get_concat(p31, b32, "deep_exploration_auto_iterate"@);
    lemma_doc_get_concat(p30, b31, "deep_exploration_auto_iterate"@);
    lemma_doc_get_concat(p29, b30, "deep_exploration_auto_iterate"@);
    lemma_doc_get_concat(p28, b29, "deep_exploration_auto_iterate"@);
    lemma_doc_get_concat(p27, b28, "deep_exploration_auto_iterate"@);
    lemma_doc_get_concat(p26, b27, "deep_exploration_auto_iterate"@);
    lemma_doc_get_concat(p25, b26, "deep_exploration_auto_iterate"@);
    lemma_doc_get_concat(p24, b25, "deep_exploration_auto_iterate"@);
    lemma_doc_get_concat(p23, b24, "deep_exploration_auto_iterate"@);
    lemma_doc_get_concat(p22, b23, "deep_exploration_auto_iterate"@);
    lemma_doc_get_concat(p21, b22, "deep_exploration_auto_iterate"@);
    lemma_doc_get_concat(p20, b21, "deep_exploration_auto_iterate"@);
    lemma_doc_get_concat(p19, b20, "deep_exploration_auto_iterate"@);
    lemma_doc_get_concat(p18, b19, "deep_exploration_auto_iterate"@);
    lemma_doc_get_concat(p17, b18, "deep_exploration_auto_iterate"@);
    lemma_doc_get_concat(p16, b17, "deep_exploration_auto_iterate"@);
    lemma_doc_get_concat(p15, b16, "deep_exploration_auto_iterate"@);
    lemma_doc_get_concat(p14, b15, "deep_exploration_auto_iterate"@);
    lemma_doc_get_concat(p13, b14, "deep_exploration_auto_iterate"@);
    lemma_doc_get_concat(p12, b13, "deep_exploration_auto_iterate"@);
    lemma_doc_get_concat(p11, b12, "deep_exploration_auto_iterate"@);
    lemma_doc_get_concat(p10, b11, "deep_exploration_auto_iterate"@);
    lemma_doc_get_concat(p9, b10, "deep_exploration_auto_iterate"@);
    lemma_doc_get_concat(p8, b9, "deep_exploration_auto_iterate"@);
    lemma_doc_get_concat(p7, b8, "deep_exploration_auto_iterate"@);
    lemma_doc_get_concat(p6, b7, "deep_exploration_auto_iterate"@);
    lemma_doc_get_concat(p5, b6, "deep_exploration_auto_iterate"@);
    lemma_doc_get_concat(p4, b5, "deep_exploration_auto_iterate"@);
    lemma_doc_get_concat(p3, b4, "deep_exploration_auto_iterate"@);
    lemma_doc_get_concat(p2, b3, "deep_exploration_auto_iterate"@);
    lemma_doc_get_concat(p1, b2, "deep_exploration_auto_iterate"@);
}

/// What lookup of `collectible_mode_shopping` finds in the members of a Roguelike task.
proof fn roguelike_get_collectible_mode_shopping(t: RoguelikeTask)
    ensures
        doc_get(roguelike_pairs(t), "collectible_mode_shopping"@) == (match t.collectible_mode_shopping { Option::None => Option::<JsonV>::None, Option::Some(b) => Option::Some(JsonV::Sc(ScalarV::Bool(b))) }),
{
    reveal_strlit("enable");
    reveal_strlit("theme");
    reveal_strlit("mode");
    reveal_strlit("squad");
    reveal_strlit("roles");
    reveal_strlit("core_char");
    reveal_strlit("use_support");
    reveal_strlit("use_nonfriend_support");
    reveal_strlit("starts_count");
    reveal_strlit("difficulty");
    reveal_strlit("stop_at_final_boss");
    reveal_strlit("stop_at_max_level");
    reveal_strlit("investment_enabled");
    reveal_strlit("investments_count");
    reveal_strlit("stop_when_investment_full");
    reveal_strlit("investment_with_more_score");
    reveal_strlit("start_with_elite_two");
    reveal_strlit("only_start_with_elite_two");
    reveal_strlit("refresh_trader_with_dice");
    reveal_strlit("first_floor_foldartal");
    reveal_strlit("start_foldartal_list");
    reveal_strlit("start_with_two_ideas");
    reveal_strlit("use_foldartal");
    reveal_strlit("check_collapsal_paradigms");
    reveal_strlit("double_check_collapsal_paradigms");
    reveal_strlit("expected_collapsal_paradigms");
    reveal_strlit("monthly_squad_auto_iterate");
    reveal_strlit("monthly_squad_check_comms");
    reveal_strlit("deep_exploration_auto_iterate");
    reveal_strlit("collectible_mode_shopping");
    reveal_strlit("collectible_mode_squad");
    reveal_strlit("collectible_mode_start_list");
    reveal_strlit("start_with_seed");
    assert("collectible_mode_shopping"@.len() != "enable"@.len());
    assert("collectible_mode_shopping"@ != "enable"@);
    assert("collectible_mode_shopping"@.len() != "theme"@.len());
    assert("collectible_mode_shopping"@ != "theme"@);
    assert("collectible_mode_shopping"@.len() != "mode"@.len());
    assert("collectible_mode_shopping"@ != "mode"@);
    assert("collectible_mode_shopping"@.len() != "squad"@.len());
    assert("collectible_mode_shopping"@ != "squad"@);
    assert("collectible_mode_shopping"@.len() != "roles"@.len());
    assert("collectible_mode_shopping"@ != "roles"@);
    assert("collectible_mode_shopping"@.len() != "core_char"@.len());
    assert("collectible_mode_shopping"@ != "core_char"@);
    assert("collectible_mode_shopping"@.len() != "use_support"@.len());
    assert("collectible_mode_shopping"@ != "use_support"@);
    assert("collectible_mode_shopping"@.len() != "use_nonfriend_support"@.len());
    assert("collectible_mode_shopping"@ != "use_nonfriend_support"@);
    assert("collectible_mode_shopping"@.len() != "starts_count"@.len());
    assert("collectible_mode_shopping"@ != "starts_count"@);
    assert("collectible_mode_shopping"@.len() != "difficulty"@.len());
    assert("collectible_mode_shopping"@ != "difficulty"@);
    assert("collectible_mode_shopping"@.len() != "stop_at_final_boss"@.len());
    assert("collectible_mode_shopping"@ != "stop_at_final_boss"@);
    assert("collectible_mode_shopping"@.len() != "stop_at_max_level"@.len());
    assert("collectible_mode_shopping"@ != "stop_at_max_level"@);
    assert("collectible_mode_shopping"@.len() != "investment_enabled"@.len());
    assert("collectible_mode_shopping"@ != "investment_enabled"@);
    assert("collectible_mode_shopping"@.len() != "investments_count"@.len());
    assert("collectible_mode_shopping"@ != "investments_count"@);
    assert("collectible_mode_shopping"@[0] != "stop_when_investment_full"@[0]);
    assert("collectible_mode_shopping"@ != "stop_when_investment_full"@);
    assert("collectible_mode_shopping"@.len() != "investment_with_more_score"@.len());
    assert("collectible_mode_shopping"@ != "investment_with_more_score"@);
    assert("collectible_mode_shopping"@.len() != "start_with_elite_two"@.len());
    assert("collectible_mode_shopping"@ != "start_with_elite_two"@);
    assert("collectible_mode_shopping"@[0] != "only_start_with_elite_two"@[0]);
    assert("collectible_mode_shopping"@ != "only_start_with_elite_two"@);
    assert("collectible_mode_shopping"@.len() != "refresh_trader_with_dice"@.len());
    assert("collectible_mode_shopping"@ != "refresh_trader_with_dice"@);
    assert("collectible_mode_shopping"@.len() != "first_floor_foldartal"@.len());
    assert("collectible_mode_shopping"@ != "first_floor_foldartal"@);
    assert("collectible_mode_shopping"@.len() != "start_foldartal_list"@.len());
    assert("collectible_mode_shopping"@ != "start_foldartal_list"@);
    assert("collectible_mode_shopping"@.len() != "start_with_two_ideas"@.len());
    assert("collectible_mode_shopping"@ != "start_with_two_ideas"@);
    assert("collectible_mode_shopping"@.len() != "use_foldartal"@.len());
    assert("collectible_mode_shopping"@ != "use_foldartal"@);
    assert("collectible_mode_shopping"@[1] != "check_collapsal_paradigms"@[1]);
    assert("collectible_mode_shopping"@ != "check_collapsal_paradigms"@);
    assert("collectible_mode_shopping"@.len() != "double_check_collapsal_paradigms"@.len());
    assert("collectible_mode_shopping"@ != "double_check_collapsal_paradigms"@);
    assert("collectible_mode_shopping"@.len() != "expected_collapsal_paradigms"@.len());
    assert("collectible_mode_shopping"@ != "expected_collapsal_paradigms"@);
    assert("collectible_mode_shopping"@.len() != "monthly_squad_auto_iterate"@.len());
    assert("collectible_mode_shopping"@ != "monthly_squad_auto_iterate"@);
    assert("collectible_mode_shopping"@[0] != "monthly_squad_check_comms"@[0]);
    assert("collectible_mode_shopping"@ != "monthly_squad_check_comms"@);
    assert("collectible_mode_shopping"@.len() != "deep_exploration_auto_iterate"@.len());
    assert("collectible_mode_shopping"@ != "deep_exploration_auto_iterate"@);
    assert("collectible_mode_shopping"@.len() != "collectible_mode_squad"@.len());
    assert("collectible_mode_shopping"@ != "collectible_mode_squad"@);
    assert("collectible_mode_shopping"@.len() != "collectible_mode_start_list"@.len());
    assert("collectible_mode_shopping"@ != "collectible_mode_start_list"@);
    assert("collectible_mode_shopping"@.len() != "start_with_seed"@.len());
    assert("collectible_mode_shopping"@ != "start_with_seed"@);
    let b1 = b_opt_bool("enable"@, t.enable);
    let b2 = b_opt_str("theme"@, opt_str_view(t.theme));
    let b3 = b_opt_int("mode"@, t.mode);
    let b4 = b_opt_str("squad"@, opt_str_view(t.squad));
    let b5 = b_opt_str("roles"@, opt_str_view(t.roles));
    let b6 = b_opt_str("core_char"@, opt_str_view(t.core_char));
    let b7 = b_opt_bool("use_support"@, t.use_support);
    let b8 = b_opt_bool("use_nonfriend_support"@, t.use_nonfriend_support);
    let b9 = b_opt_int("starts_count"@, t.starts_count);
    let b10 = b_opt_int("difficulty"@, t.difficulty);
    let b11 = b_opt_bool("stop_at_final_boss"@, t.stop_at_final_boss);
    let b12 = b_opt_bool("stop_at_max_level"@, t.stop_at_max_level);
    let b13 = b_opt_bool("investment_enabled"@, t.investment_enabled);
    let b14 = b_opt_int("investments_count"@, t.investments_count);
    let b15 = b_opt_bool("stop_when_investment_full"@, t.stop_when_investment_full);
    let b16 = b_opt_bool("investment_with_more_score"@, t.investment_with_more_score);
    let b17 = b_opt_bool("start_with_elite_two"@, t.start_with_elite_two);
    let b18 = b_opt_bool("only_start_with_elite_two"@, t.only_start_with_elite_two);
    let b19 = b_opt_bool("refresh_trader_with_dice"@, t.refresh_trader_with_dice);
    let b20 = b_opt_str("first_floor_foldartal"@, opt_str_view(t.first_floor_foldartal));
    let b21 = b_opt_str_list("start_foldartal_list"@, (match t.start_foldartal_list { Option::None => Option::None, Option::Some(l) => Option::Some(strs_view(l@)) }));
    let b22 = b_opt_bool("start_with_two_ideas"@, t.start_with_two_ideas);
    let b23 = b_opt_bool("use_foldartal"@, t.use_foldartal);
    let b24 = b_opt_bool("check_collapsal_paradigms"@, t.check_collapsal_paradigms);
    let b25 = b_opt_bool("double_check_collapsal_paradigms"@, t.double_check_collapsal_paradigms);
    let b26 = b_opt_str_list("expected_collapsal_paradigms"@, (match t.expected_collapsal_paradigms { Option::None => Option::None, Option::Some(l) => Option::Some(strs_view(l@)) }));
    let b27 = b_opt_bool("monthly_squad_auto_iterate"@, t.monthly_squad_auto_iterate);
    let b28 = b_opt_bool("monthly_squad_check_comms"@, t.monthly_squad_check_comms);
    let b29 = b_opt_bool("deep_exploration_auto_iterate"@, t.deep_exploration_auto_iterate);
    let b30 = b_opt_bool("collectible_mode_shopping"@, t.collectible_mode_shopping);
    let b31 = b_opt_str("collectible_mode_squad"@, opt_str_view(t.collectible_mode_squad));
    let b32 = b_opt_bool_map("collectible_mode_start_list"@, (match t.collectible_mode_start_list { Option::None => Option::None, Option::Some(m) => Option::Some(bpairs_view(m@)) }));
    let b33 = b_opt_bool("start_with_seed"@, t.start_with_seed);
    let p1 = b1;
    let p2 = p1 + b2;
    let p3 = p2 + b3;
    let p4 = p3 + b4;
    let p5 = p4 + b5;
    let p6 = p5 + b6;
    let p7 = p6 + b7;
    let p8 = p7 + b8;
    let p9 = p8 + b9;
    let p10 = p9 + b10;
    let p11 = p10 + b11;
    let p12 = p11 + b12;
    let p13 = p12 + b13;
    let p14 = p13 + b14;
    let p15 = p14 + b15;
    let p16 = p15 + b16;
    let p17 = p16 + b17;
    let p18 = p17 + b18;
    let p19 = p18 + b19;
    let p20 = p19 + b20;
    let p21 = p20 + b21;
    let p22 = p21 + b22;
    let p23 = p22 + b23;
    let p24 = p23 + b24;
    let p25 = p24 + b25;
    let p26 = p25 + b26;
    let p27 = p26 + b27;
    let p28 = p27 + b28;
    let p29 = p28 + b29;
    let p30 = p29 + b30;
    let p31 = p30 + b31;
    let p32 = p31 + b32;
    let p33 = p32 + b33;
    assert(roguelike_pairs(t) == p33);
    lemma_doc_get_block(b1, "collectible_mode_shopping"@);
    lemma_doc_get_block(b2, "collectible_mode_shopping"@);
    lemma_doc_get_block(b3, "collectible_mode_shopping"@);
    lemma_doc_get_block(b4, "collectible_mode_shopping"@);
    lemma_doc_get_block(b5, "collectible_mode_shopping"@);
    lemma_doc_get_block(b6, "collectible_mode_shopping"@);
    lemma_doc_get_block(b7, "collectible_mode_shopping"@);
    lemma_doc_get_block(b8, "collectible_mode_shopping"@);
    lemma_doc_get_block(b9, "collectible_mode_shopping"@);
    lemma_doc_get_block(b10, "collectible_mode_shopping"@);
    lemma_doc_get_block(b11, "collectible_mode_shopping"@);
    lemma_doc_get_block(b12, "collectible_mode_shopping"@);
    lemma_doc_get_block(b13, "collectible_mode_shopping"@);
    lemma_doc_get_block(b14, "collectible_mode_shopping"@);
    lemma_doc_get_block(b15, "collectible_mode_shopping"@);
    lemma_doc_get_block(b16, "collectible_mode_shopping"@);
    lemma_doc_get_block(b17, "collectible_mode_shopping"@);
    lemma_doc_get_block(b18, "collectible_mode_shopping"@);
    lemma_doc_get_block(b19, "collectible_mode_shopping"@);
    lemma_doc_get_block(b20, "collectible_mode_shopping"@);
    lemma_doc_get_block(b21, "collectible_mode_shopping"@);
    lemma_doc_get_block(b22, "collectible_mode_shopping"@);
    lemma_doc_get_block(b23, "collectible_mode_shopping"@);
    lemma_doc_get_block(b24, "collectible_mode_shopping"@);
    lemma_doc_get_block(b25, "collectible_mode_shopping"@);
    lemma_doc_get_block(b26, "collectible_mode_shopping"@);
    lemma_doc_get_block(b27, "collectible_mode_shopping"@);
    lemma_doc_get_block(b28, "collectible_mode_shopping"@);
    lemma_doc_get_block(b29, "collectible_mode_shopping"@);
    lemma_doc_get_block(b30, "collectible_mode_shopping"@);
    lemma_doc_get_block(b31, "collectible_mode_shopping"@);
    lemma_doc_get_block(b32, "collectible_mode_shopping"@);
    lemma_doc_get_block(b33, "collectible_mode_shopping"@);
    lemma_doc_get_concat(p32, b33, "collectible_mode_shopping"@);
    lemma_doc_get_concat(p31, b32, "collectible_mode_shopping"@);
    lemma_doc_get_concat(p30, b31, "collectible_mode_shopping"@);
    lemma_doc_get_concat(p29, b30, "collectible_mode_shopping"@);
    lemma_doc_get_concat(p28, b29, "collectible_mode_shopping"@);
    lemma_doc_get_concat(p27, b28, "collectible_mode_shopping"@);
    lemma_doc_get_concat(p26, b27, "collectible_mode_shopping"@);
    lemma_doc_get_concat(p25, b26, "collectible_mode_shopping"@);
    lemma_doc_get_concat(p24, b25, "collectible_mode_shopping"@);
    lemma_doc_get_concat(p23, b24, "collectible_mode_shopping"@);
    lemma_doc_get_concat(p22, b23, "collectible_mode_shopping"@);
    lemma_doc_get_concat(p21, b22, "collectible_mode_shopping"@);
    lemma_doc_get_concat(p20, b21, "collectible_mode_shopping"@);
    lemma_doc_get_concat(p19, b20, "collectible_mode_shopping"@);
    lemma_doc_get_concat(p18, b19, "collectible_mode_shopping"@);
    lemma_doc_get_concat(p17, b18, "collectible_mode_shopping"@);
    lemma_doc_get_concat(p16, b17, "collectible_mode_shopping"@);
    lemma_doc_get_concat(p15, b16, "collectible_mode_shopping"@);
    lemma_doc_get_concat(p14, b15, "collectible_mode_shopping"@);
    lemma_doc_get_concat(p13, b14, "collectible_mode_shopping"@);
    lemma_doc_get_concat(p12, b13, "collectible_mode_shopping"@);
    lemma_doc_get_concat(p11, b12, "collectible_mode_shopping"@);
    lemma_doc_get_concat(p10, b11, "collectible_mode_shopping"@);
    lemma_doc_get_concat(p9, b10, "collectible_mode_shopping"@);
    lemma_doc_get_concat(p8, b9, "collectible_mode_shopping"@);
    lemma_doc_get_concat(p7, b8, "collectible_mode_shopping"@);
    lemma_doc_get_concat(p6, b7, "collectible_mode_shopping"@);
    lemma_doc_get_concat(p5, b6, "collectible_mode_shopping"@);
    lemma_doc_get_concat(p4, b5, "collectible_mode_shopping"@);
    lemma_doc_get_concat(p3, b4, "collectible_mode_shopping"@);
    lemma_doc_get_concat(p2, b3, "collectible_mode_shopping"@);
    lemma_doc_get_concat(p1, b2, "collectible_mode_shopping"@);
}

/// What lookup of `collectible_mode_squad` finds in the members of a Roguelike task.
proof fn roguelike_get_collectible_mode_squad(t: RoguelikeTask)
    ensures
        doc_get(roguelike_pairs(t), "collectible_mode_squad"@) == (match t.collectible_mode_squad { Option::None => Option::<JsonV>::None, Option::Some(s) => Option::Some(JsonV::Sc(ScalarV::Str(s@))) }),
{
    reveal_strlit("enable");
    reveal_strlit("theme");
    reveal_strlit("mode");
    reveal_strlit("squad");
    reveal_strlit("roles");
    reveal_strlit("core_char");
    reveal_strlit("use_support");
    reveal_strlit("use_nonfriend_support");
    reveal_strlit("starts_count");
    reveal_strlit("difficulty");
    reveal_strlit("stop_at_final_boss");
    reveal_strlit("stop_at_max_level");
    reveal_strlit("investment_enabled");
    reveal_strlit("investments_count");
    reveal_strlit("stop_when_investment_full");
    reveal_strlit("investment_with_more_score");
    reveal_strlit("start_with_elite_two");
    reveal_strlit("only_start_with_elite_two");
    reveal_strlit("refresh_trader_with_dice");
    reveal_strlit("first_floor_foldartal");
    reveal_strlit("start_foldartal_list");
    reveal_strlit("start_with_two_ideas");
    reveal_strlit("use_foldartal");
    reveal_strlit("check_collapsal_paradigms");
    reveal_strlit("double_check_collapsal_paradigms");
    reveal_strlit("expected_collapsal_paradigms");
    reveal_strlit("monthly_squad_auto_iterate");
    reveal_strlit("monthly_squad_check_comms");
    reveal_strlit("deep_exploration_auto_iterate");
    reveal_strlit("collectible_mode_shopping");
    reveal_strlit("collectible_mode_squad");
    reveal_strlit("collectible_mode_start_list");
    reveal_strlit("start_with_seed");
    assert("collectible_mode_squad"@.len() != "enable"@.len());
    assert("collectible_mode_squad"@ != "enable"@);
    assert("collectible_mode_squad"@.len() != "theme"@.len());
    assert("collectible_mode_squad"@ != "theme"@);
    assert("collectible_mode_squad"@.len() != "mode"@.len());
    assert("collectible_mode_squad"@ != "mode"@);
    assert("collectible_mode_squad"@.len() != "squad"@.len());
    assert("collectible_mode_squad"@ != "squad"@);
    assert("collectible_mode_squad"@.len() != "roles"@.len());
    assert("collectible_mode_squad"@ != "roles"@);
    assert("collectible_mode_squad"@.len() != "core_char"@.len());
    assert("collectible_mode_squad"@ != "core_char"@);
    assert("collectible_mode_squad"@.len() != "use_support"@.len());
    assert("collectible_mode_squad"@ != "use_support"@);
    assert("collectible_mode_squad"@.len() != "use_nonfriend_support"@.len());
    assert("collectible_mode_squad"@ != "use_nonfriend_support"@);
    assert("collectible_mode_squad"@.len() != "starts_count"@.len());
    assert("collectible_mode_squad"@ != "starts_count"@);
    assert("collectible_mode_squad"@.len() != "difficulty"@.len());
    assert("collectible_mode_squad"@ != "difficulty"@);
    assert("collectible_mode_squad"@.len() != "stop_at_final_boss"@.len());
    assert("collectible_mode_squad"@ != "stop_at_final_boss"@);
    assert("collectible_mode_squad"@.len() != "stop_at_max_level"@.len());
    assert("collectible_mode_squad"@ != "stop_at_max_level"@);
    assert("collectible_mode_squad"@.len() != "investment_enabled"@.len());
    assert("collectible_mode_squad"@ != "investment_enabled"@);
    assert("collectible_mode_squad"@.len() != "investments_count"@.len());
    assert("collectible_mode_squad"@ != "investments_count"@);
    assert("collectible_mode_squad"@.len() != "stop_when_investment_full"@.len());
    assert("collectible_mode_squad"@ != "stop_when_investment_full"@);
    assert("collectible_mode_squad"@.len() != "investment_with_more_score"@.len());
    assert("collectible_mode_squad"@ != "investment_with_more_score"@);
    assert("collectible_mode_squad"@.len() != "start_with_elite_two"@.len());
    assert("collectible_mode_squad"@ != "start_with_elite_two"@);
    assert("collectible_mode_squad"@.len() != "only_start_with_elite_two"@.len());
    assert("collectible_mode_squad"@ != "only_start_with_elite_two"@);
    assert("collectible_mode_squad"@.len() != "refresh_trader_with_dice"@.len());
    assert("collectible_mode_squad"@ != "refresh_trader_with_dice"@);
    assert("collectible_mode_squad"@.len() != "first_floor_foldartal"@.len());
    assert("collectible_mode_squad"@ != "first_floor_foldartal"@);
    assert("collectible_mode_squad"@.len() != "start_foldartal_list"@.len());
    assert("collectible_mode_squad"@ != "start_foldartal_list"@);
    assert("collectible_mode_squad"@.len() != "start_with_two_ideas"@.len());
    assert("collectible_mode_squad"@ != "start_with_two_ideas"@);
    assert("collectible_mode_squad"@.len() != "use_foldartal"@.len());
    assert("collectible_mode_squad"@ != "use_foldartal"@);
    assert("collectible_mode_squad"@.len() != "check_collapsal_paradigms"@.len());
    assert("collectible_mode_squad"@ != "check_collapsal_paradigms"@);
    assert("collectible_mode_squad"@.len() != "double_check_collapsal_paradigms"@.len());
    assert("collectible_mode_squad"@ != "double_check_collapsal_paradigms"@);
    assert("collectible_mode_squad"@.len() != "expected_collapsal_paradigms"@.len());
    assert("collectible_mode_squad"@ != "expected_collapsal_paradigms"@);
    assert("collectible_mode_squad"@.len() != "monthly_squad_auto_iterate"@.len());
    assert("collectible_mode_squad"@ != "monthly_squad_auto_iterate"@);
    assert("collectible_mode_squad"@.len() != "monthly_squad_check_comms"@.len());
    assert("collectible_mode_squad"@ != "monthly_squad_check_comms"@);
    assert("collectible_mode_squad"@.len() != "deep_exploration_auto_iterate"@.len());
    assert("collectible_mode_squad"@ != "deep_exploration_auto_iterate"@);
    assert("collectible_mode_squad"@.len() != "collectible_mode_shopping"@.len());
    assert("collectible_mode_squad"@ != "collectible_mode_shopping"@);
    assert("collectible_mode_squad"@.len() != "collectible_mode_start_list"@.len());
    assert("collectible_mode_squad"@ != "collectible_mode_start_list"@);
    assert("collectible_mode_squad"@.len() != "start_with_seed"@.len());
    assert("collectible_mode_squad"@ != "start_with_seed"@);
    let b1 = b_opt_bool("enable"@, t.enable);
    let b2 = b_opt_str("theme"@, opt_str_view(t.theme));
    let b3 = b_opt_int("mode"@, t.mode);
    let b4 = b_opt_str("squad"@, opt_str_view(t.squad));
    let b5 = b_opt_str("roles"@, opt_str_view(t.roles));
    let b6 = b_opt_str("core_char"@, opt_str_view(t.core_char));
    let b7 = b_opt_bool("use_support"@, t.use_support);
    let b8 = b_opt_bool("use_nonfriend_support"@, t.use_nonfriend_support);
    let b9 = b_opt_int("starts_count"@, t.starts_count);
    let b10 = b_opt_int("difficulty"@, t.difficulty);
    let b11 = b_opt_bool("stop_at_final_boss"@, t.stop_at_final_boss);
    let b12 = b_opt_bool("stop_at_max_level"@, t.stop_at_max_level);
    let b13 = b_opt_bool("investment_enabled"@, t.investment_enabled);
    let b14 = b_opt_int("investments_count"@, t.investments_count);
    let b15 = b_opt_bool("stop_when_investment_full"@, t.stop_when_investment_full);
    let b16 = b_opt_bool("investment_with_more_score"@, t.investment_with_more_score);
    let b17 = b_opt_bool("start_with_elite_two"@, t.start_with_elite_two);
    let b18 = b_opt_bool("only_start_with_elite_two"@, t.only_start_with_elite_two);
    let b19 = b_opt_bool("refresh_trader_with_dice"@, t.refresh_trader_with_dice);
    let b20 = b_opt_str("first_floor_foldartal"@, opt_str_view(t.first_floor_foldartal));
    let b21 = b_opt_str_list("start_foldartal_list"@, (match t.start_foldartal_list { Option::None => Option::None, Option::Some(l) => Option::Some(strs_view(l@)) }));
    let b22 = b_opt_bool("start_with_two_ideas"@, t.start_with_two_ideas);
    let b23 = b_opt_bool("use_foldartal"@, t.use_foldartal);
    let b24 = b_opt_bool("check_collapsal_paradigms"@, t.check_collapsal_paradigms);
    let b25 = b_opt_bool("double_check_collapsal_paradigms"@, t.double_check_collapsal_paradigms);
    let b26 = b_opt_str_list("expected_collapsal_paradigms"@, (match t.expected_collapsal_paradigms { Option::None => Option::None, Option::Some(l) => Option::Some(strs_view(l@)) }));
    let b27 = b_opt_bool("monthly_squad_auto_iterate"@, t.monthly_squad_auto_iterate);
    let b28 = b_opt_bool("monthly_squad_check_comms"@, t.monthly_squad_check_comms);
    let b29 = b_opt_bool("deep_exploration_auto_iterate"@, t.deep_exploration_auto_iterate);
    let b30 = b_opt_bool("collectible_mode_shopping"@, t.collectible_mode_shopping);
    let b31 = b_opt_str("collectible_mode_squad"@, opt_str_view(t.collectible_mode_squad));
    let b32 = b_opt_bool_map("collectible_mode_start_list"@, (match t.collectible_mode_start_list { Option::None => Option::None, Option::Some(m) => Option::Some(bpairs_view(m@)) }));
    let b33 = b_opt_bool("start_with_seed"@, t.start_with_seed);
    let p1 = b1;
    let p2 = p1 + b2;
    let p3 = p2 + b3;
    let p4 = p3 + b4;
    let p5 = p4 + b5;
    let p6 = p5 + b6;
    let p7 = p6 + b7;
    let p8 = p7 + b8;
    let p9 = p8 + b9;
    let p10 = p9 + b10;
    let p11 = p10 + b11;
    let p12 = p11 + b12;
    let p13 = p12 + b13;
    let p14 = p13 + b14;
    let p15 = p14 + b15;
    let p16 = p15 + b16;
    let p17 = p16 + b17;
    let p18 = p17 + b18;
    let p19 = p18 + b19;
    let p20 = p19 + b20;
    let p21 = p20 + b21;
    let p22 = p21 + b22;
    let p23 = p22 + b23;
    let p24 = p23 + b24;
    let p25 = p24 + b25;
    let p26 = p25 + b26;
    let p27 = p26 + b27;
    let p28 = p27 + b28;
    let p29 = p28 + b29;
    let p30 = p29 + b30;
    let p31 = p30 + b31;
    let p32 = p31 + b32;
    let p33 = p32 + b33;
    assert(roguelike_pairs(t) == p33);
    lemma_doc_get_block(b1, "collectible_mode_squad"@);
    lemma_doc_get_block(b2, "collectible_mode_squad"@);
    lemma_doc_get_block(b3, "collectible_mode_squad"@);
    lemma_doc_get_block(b4, "collectible_mode_squad"@);
    lemma_doc_get_block(b5, "collectible_mode_squad"@);
    lemma_doc_get_block(b6, "collectible_mode_squad"@);
    lemma_doc_get_block(b7, "collectible_mode_squad"@);
    lemma_doc_get_block(b8, "collectible_mode_squad"@);
    lemma_doc_get_block(b9, "collectible_mode_squad"@);
    lemma_doc_get_block(b10, "collectible_mode_squad"@);
    lemma_doc_get_block(b11, "collectible_mode_squad"@);
    lemma_doc_get_block(b12, "collectible_mode_squad"@);
    lemma_doc_get_block(b13, "collectible_mode_squad"@);
    lemma_doc_get_block(b14, "collectible_mode_squad"@);
    lemma_doc_get_block(b15, "collectible_mode_squad"@);
    lemma_doc_get_block(b16, "collectible_mode_squad"@);
    lemma_doc_get_block(b17, "collectible_mode_squad"@);
    lemma_doc_get_block(b18, "collectible_mode_squad"@);
    lemma_doc_get_block(b19, "collectible_mode_squad"@);
    lemma_doc_get_block(b20, "collectible_mode_squad"@);
    lemma_doc_get_block(b21, "collectible_mode_squad"@);
    lemma_doc_get_block(b22, "collectible_mode_squad"@);
    lemma_doc_get_block(b23, "collectible_mode_squad"@);
    lemma_doc_get_block(b24, "collectible_mode_squad"@);
    lemma_doc_get_block(b25, "collectible_mode_squad"@);
    lemma_doc_get_block(b26, "collectible_mode_squad"@);
    lemma_doc_get_block(b27, "collectible_mode_squad"@);
    lemma_doc_get_block(b28, "collectible_mode_squad"@);
    lemma_doc_get_block(b29, "collectible_mode_squad"@);
    lemma_doc_get_block(b30, "collectible_mode_squad"@);
    lemma_doc_get_block(b31, "collectible_mode_squad"@);
    lemma_doc_get_block(b32, "collectible_mode_squad"@);
    lemma_doc_get_block(b33, "collectible_mode_squad"@);
    lemma_doc_get_concat(p32, b33, "collectible_mode_squad"@);
    lemma_doc_get_concat(p31, b32, "collectible_mode_squad"@);
    lemma_doc_get_concat(p30, b31, "collectible_mode_squad"@);
    lemma_doc_get_concat(p29, b30, "collectible_mode_squad"@);
    lemma_doc_get_concat(p28, b29, "collectible_mode_squad"@);
    lemma_doc_get_concat(p27, b28, "collectible_mode_squad"@);
    lemma_doc_get_concat(p26, b27, "collectible_mode_squad"@);
    lemma_doc_get_concat(p25, b26, "collectible_mode_squad"@);
    lemma_doc_get_concat(p24, b25, "collectible_mode_squad"@);
    lemma_doc_get_concat(p23, b24, "collectible_mode_squad"@);
    lemma_doc_get_concat(p22, b23, "collectible_mode_squad"@);
    lemma_doc_get_concat(p21, b22, "collectible_mode_squad"@);
    lemma_doc_get_concat(p20, b21, "collectible_mode_squad"@);
    lemma_doc_get_concat(p19, b20, "collectible_mode_squad"@);
    lemma_doc_get_concat(p18, b19, "collectible_mode_squad"@);
    lemma_doc_get_concat(p17, b18, "collectible_mode_squad"@);
    lemma_doc_get_concat(p16, b17, "collectible_mode_squad"@);
    lemma_doc_get_concat(p15, b16, "collectible_mode_squad"@);
    lemma_doc_get_concat(p14, b15, "collectible_mode_squad"@);
    lemma_doc_get_concat(p13, b14, "collectible_mode_squad"@);
    lemma_doc_get_concat(p12, b13, "collectible_mode_squad"@);
    lemma_doc_get_concat(p11, b12, "collectible_mode_squad"@);
    lemma_doc_get_concat(p10, b11, "collectible_mode_squad"@);
    lemma_doc_get_concat(p9, b10, "collectible_mode_squad"@);
    lemma_doc_get_concat(p8, b9, "collectible_mode_squad"@);
    lemma_doc_get_concat(p7, b8, "collectible_mode_squad"@);
    lemma_doc_get_concat(p6, b7, "collectible_mode_squad"@);
    lemma_doc_get_concat(p5, b6, "collectible_mode_squad"@);
    lemma_doc_get_concat(p4, b5, "collectible_mode_squad"@);
    lemma_doc_get_concat(p3, b4, "collectible_mode_squad"@);
    lemma_doc_get_concat(p2, b3, "collectible_mode_squad"@);
    lemma_doc_get_concat(p1, b2, "collectible_mode_squad"@);
}

/// What lookup of `collectible_mode_start_list` finds in the members of a Roguelike task.
proof fn roguelike_get_collectible_mode_start_list(t: RoguelikeTask)
    ensures
        doc_get(roguelike_pairs(t), "collectible_mode_start_list"@) == (match t.collectible_mode_start_list { Option::None => Option::<JsonV>::None, Option::Some(m) => Option::Some(JsonV::Obj(jv_bool_map(bpairs_view(m@)))) }),
{
    reveal_strlit("enable");
    reveal_strlit("theme");
    reveal_strlit("mode");
    reveal_strlit("squad");
    reveal_strlit("roles");
    reveal_strlit("core_char");
    reveal_strlit("use_support");
    reveal_strlit("use_nonfriend_support");
    reveal_strlit("starts_count");
    reveal_strlit("difficulty");
    reveal_strlit("stop_at_final_boss");
    reveal_strlit("stop_at_max_level");
    reveal_strlit("investment_enabled");
    reveal_strlit("investments_count");
    reveal_strlit("stop_when_investment_full");
    reveal_strlit("investment_with_more_score");
    reveal_strlit("start_with_elite_two");
    reveal_strlit("only_start_with_elite_two");
    reveal_strlit("refresh_trader_with_dice");
    reveal_strlit("first_floor_foldartal");
    reveal_strlit("start_foldartal_list");
    reveal_strlit("start_with_two_ideas");
    reveal_strlit("use_foldartal");
    reveal_strlit("check_collapsal_paradigms");
    reveal_strlit("double_check_collapsal_paradigms");
    reveal_strlit("expected_collapsal_paradigms");
    reveal_strlit("monthly_squad_auto_iterate");
    reveal_strlit("monthly_squad_check_comms");
    reveal_strlit("deep_exploration_auto_iterate");
    reveal_strlit("collectible_mode_shopping");
    reveal_strlit("collectible_mode_squad");
    reveal_strlit("collectible_mode_start_list");
    reveal_strlit("start_with_seed");
    assert("collectible_mode_start_list"@.len() != "enable"@.len());
    assert("collectible_mode_start_list"@ != "enable"@);
    assert("collectible_mode_start_list"@.len() != "theme"@.len());
    assert("collectible_mode_start_list"@ != "theme"@);
    assert("collectible_mode_start_list"@.len() != "mode"@.len());
    assert("collectible_mode_start_list"@ != "mode"@);
    assert("collectible_mode_start_list"@.len() != "squad"@.len());
    assert("collectible_mode_start_list"@ != "squad"@);
    assert("collectible_mode_start_list"@.len() != "roles"@.len());
    assert("collectible_mode_start_list"@ != "roles"@);
    assert("collectible_mode_start_list"@.len() != "core_char"@.len());
    assert("collectible_mode_start_list"@ != "core_char"@);
    assert("collectible_mode_start_list"@.len() != "use_support"@.len());
    assert("collectible_mode_start_list"@ != "use_support"@);
    assert("collectible_mode_start_list"@.len() != "use_nonfriend_support"@.len());
    assert("collectible_mode_start_list"@ != "use_nonfriend_support"@);
    assert("collectible_mode_start_list"@.len() != "starts_count"@.len());
    assert("collectible_mode_start_list"@ != "starts_count"@);
    assert("collectible_mode_start_list"@.len() != "difficulty"@.len());
    assert("collectible_mode_start_list"@ != "difficulty"@);
    assert("collectible_mode_start_list"@.len() != "stop_at_final_boss"@.len());
    assert("collectible_mode_start_list"@ != "stop_at_final_boss"@);
    assert("collectible_mode_start_list"@.len() != "stop_at_max_level"@.len());
    assert("collectible_mode_start_list"@ != "stop_at_max_level"@);
    assert("collectible_mode_start_list"@.len() != "investment_enabled"@.len());
    assert("collectible_mode_start_list"@ != "investment_enabled"@);
    assert("collectible_mode_start_list"@.len() != "investments_count"@.len());
    assert("collectible_mode_start_list"@ != "investments_count"@);
    assert("collectible_mode_start_list"@.len() != "stop_when_investment_full"@.len());
    assert("collectible_mode_start_list"@ != "stop_when_investment_full"@);
    assert("collectible_mode_start_list"@.len() != "investment_with_more_score"@.len());
    assert("collectible_mode_start_list"@ != "investment_with_more_score"@);
    assert("collectible_mode_start_list"@.len() != "start_with_elite_two"@.len());
    assert("collectible_mode_start_list"@ != "start_with_elite_two"@);
    assert("collectible_mode_start_list"@.len() != "only_start_with_elite_two"@.len());
    assert("collectible_mode_start_list"@ != "only_start_with_elite_two"@);
    assert("collectible_mode_start_list"@.len() != "refresh_trader_with_dice"@.len());
    assert("collectible_mode_start_list"@ != "refresh_trader_with_dice"@);
    assert("collectible_mode_start_list"@.len() != "first_floor_foldartal"@.len());
    assert("collectible_mode_start_list"@ != "first_floor_foldartal"@);
    assert("collectible_mode_start_list"@.len() != "start_foldartal_list"@.len());
    assert("collectible_mode_start_list"@ != "start_foldartal_list"@);
    assert("collectible_mode_start_list"@.len() != "start_with_two_ideas"@.len());
    assert("collectible_mode_start_list"@ != "start_with_two_ideas"@);
    assert("collectible_mode_start_list"@.len() != "use_foldartal"@.len());
    assert("collectible_mode_start_list"@ != "use_foldartal"@);
    assert("collectible_mode_start_list"@.len() != "check_collapsal_paradigms"@.len());
    assert("collectible_mode_start_list"@ != "check_collapsal_paradigms"@);
    assert("collectible_mode_start_list"@.len() != "double_check_collapsal_paradigms"@.len());
    assert("collectible_mode_start_list"@ != "double_check_collapsal_paradigms"@);
    assert("collectible_mode_start_list"@.len() != "expected_collapsal_paradigms"@.len());
    assert("collectible_mode_start_list"@ != "expected_collapsal_paradigms"@);
    assert("collectible_mode_start_list"@.len() != "monthly_squad_auto_iterate"@.len());
    assert("collectible_mode_start_list"@ != "monthly_squad_auto_iterate"@);
    assert("collectible_mode_start_list"@.len() != "monthly_squad_check_comms"@.len());
    assert("collectible_mode_start_list"@ != "monthly_squad_check_comms"@);
    assert("collectible_mode_start_list"@.len() != "deep_exploration_auto_iterate"@.len());
    assert("collectible_mode_start_list"@ != "deep_exploration_auto_iterate"@);
    assert("collectible_mode_start_list"@.len() != "collectible_mode_shopping"@.len());
    assert("collectible_mode_start_list"@ != "collectible_mode_shopping"@);
    assert("collectible_mode_start_list"@.len() != "collectible_mode_squad"@.len());
    assert("collectible_mode_start_list"@ != "collectible_mode_squad"@);
    assert("collectible_mode_start_list"@.len() != "start_with_seed"@.len());
    assert("collectible_mode_start_list"@ != "start_with_seed"@);
    let b1 = b_opt_bool("enable"@, t.enable);
    let b2 = b_opt_str("theme"@, opt_str_view(t.theme));
    let b3 = b_opt_int("mode"@, t.mode);
    let b4 = b_opt_str("squad"@, opt_str_view(t.squad));
    let b5 = b_opt_str("roles"@, opt_str_view(t.roles));
    let b6 = b_opt_str("core_char"@, opt_str_view(t.core_char));
    let b7 = b_opt_bool("use_support"@, t.use_support);
    let b8 = b_opt_bool("use_nonfriend_support"@, t.use_nonfriend_support);
    let b9 = b_opt_int("starts_count"@, t.starts_count);
    let b10 = b_opt_int("difficulty"@, t.difficulty);
    let b11 = b_opt_bool("stop_at_final_boss"@, t.stop_at_final_boss);
    let b12 = b_opt_bool("stop_at_max_level"@, t.stop_at_max_level);
    let b13 = b_opt_bool("investment_enabled"@, t.investment_enabled);
    let b14 = b_opt_int("investments_count"@, t.investments_count);
    let b15 = b_opt_bool("stop_when_investment_full"@, t.stop_when_investment_full);
    let b16 = b_opt_bool("investment_with_more_score"@, t.investment_with_more_score);
    let b17 = b_opt_bool("start_with_elite_two"@, t.start_with_elite_two);
    let b18 = b_opt_bool("only_start_with_elite_two"@, t.only_start_with_elite_two);
    let b19 = b_opt_bool("refresh_trader_with_dice"@, t.refresh_trader_with_dice);
    let b20 = b_opt_str("first_floor_foldartal"@, opt_str_view(t.first_floor_foldartal));
    let b21 = b_opt_str_list("start_foldartal_list"@, (match t.start_foldartal_list { Option::None => Option::None, Option::Some(l) => Option::Some(strs_view(l@)) }));
    let b22 = b_opt_bool("start_with_two_ideas"@, t.start_with_two_ideas);
    let b23 = b_opt_bool("use_foldartal"@, t.use_foldartal);
    let b24 = b_opt_bool("check_collapsal_paradigms"@, t.check_collapsal_paradigms);
    let b25 = b_opt_bool("double_check_collapsal_paradigms"@, t.double_check_collapsal_paradigms);
    let b26 = b_opt_str_list("expected_collapsal_paradigms"@, (match t.expected_collapsal_paradigms { Option::None => Option::None, Option::Some(l) => Option::Some(strs_view(l@)) }));
    let b27 = b_opt_bool("monthly_squad_auto_iterate"@, t.monthly_squad_auto_iterate);
    let b28 = b_opt_bool("monthly_squad_check_comms"@, t.monthly_squad_check_comms);
    let b29 = b_opt_bool("deep_exploration_auto_iterate"@, t.deep_exploration_auto_iterate);
    let b30 = b_opt_bool("collectible_mode_shopping"@, t.collectible_mode_shopping);
    let b31 = b_opt_str("collectible_mode_squad"@, opt_str_view(t.collectible_mode_squad));
    let b32 = b_opt_bool_map("collectible_mode_start_list"@, (match t.collectible_mode_start_list { Option::None => Option::None, Option::Some(m) => Option::Some(bpairs_view(m@)) }));
    let b33 = b_opt_bool("start_with_seed"@, t.start_with_seed);
    let p1 = b1;
    let p2 = p1 + b2;
    let p3 = p2 + b3;
    let p4 = p3 + b4;
    let p5 = p4 + b5;
    let p6 = p5 + b6;
    let p7 = p6 + b7;
    let p8 = p7 + b8;
    let p9 = p8 + b9;
    let p10 = p9 + b10;
    let p11 = p10 + b11;
    let p12 = p11 + b12;
    let p13 = p12 + b13;
    let p14 = p13 + b14;
    let p15 = p14 + b15;
    let p16 = p15 + b16;
    let p17 = p16 + b17;
    let p18 = p17 + b18;
    let p19 = p18 + b19;
    let p20 = p19 + b20;
    let p21 = p20 + b21;
    let p22 = p21 + b22;
    let p23 = p22 + b23;
    let p24 = p23 + b24;
    let p25 = p24 + b25;
    let p26 = p25 + b26;
    let p27 = p26 + b27;
    let p28 = p27 + b28;
    let p29 = p28 + b29;
    let p30 = p29 + b30;
    let p31 = p30 + b31;
    let p32 = p31 + b32;
    let p33 = p32 + b33;
    assert(roguelike_pairs(t) == p33);
    lemma_doc_get_block(b1, "collectible_mode_start_list"@);
    lemma_doc_get_block(b2, "collectible_mode_start_list"@);
    lemma_doc_get_block(b3, "collectible_mode_start_list"@);
    lemma_doc_get_block(b4, "collectible_mode_start_list"@);
    lemma_doc_get_block(b5, "collectible_mode_start_list"@);
    lemma_doc_get_block(b6, "collectible_mode_start_list"@);
    lemma_doc_get_block(b7, "collectible_mode_start_list"@);
    lemma_doc_get_block(b8, "collectible_mode_start_list"@);
    lemma_doc_get_block(b9, "collectible_mode_start_list"@);
    lemma_doc_get_block(b10, "collectible_mode_start_list"@);
    lemma_doc_get_block(b11, "collectible_mode_start_list"@);
    lemma_doc_get_block(b12, "collectible_mode_start_list"@);
    lemma_doc_get_block(b13, "collectible_mode_start_list"@);
    lemma_doc_get_block(b14, "collectible_mode_start_list"@);
    lemma_doc_get_block(b15, "collectible_mode_start_list"@);
    lemma_doc_get_block(b16, "collectible_mode_start_list"@);
    lemma_doc_get_block(b17, "collectible_mode_start_list"@);
    lemma_doc_get_block(b18, "collectible_mode_start_list"@);
    lemma_doc_get_block(b19, "collectible_mode_start_list"@);
    lemma_doc_get_block(b20, "collectible_mode_start_list"@);
    lemma_doc_get_block(b21, "collectible_mode_start_list"@);
    lemma_doc_get_block(b22, "collectible_mode_start_list"@);
    lemma_doc_get_block(b23, "collectible_mode_start_list"@);
    lemma_doc_get_block(b24, "collectible_mode_start_list"@);
    lemma_doc_get_block(b25, "collectible_mode_start_list"@);
    lemma_doc_get_block(b26, "collectible_mode_start_list"@);
    lemma_doc_get_block(b27, "collectible_mode_start_list"@);
    lemma_doc_get_block(b28, "collectible_mode_start_list"@);
    lemma_doc_get_block(b29, "collectible_mode_start_list"@);
    lemma_doc_get_block(b30, "collectible_mode_start_list"@);
    lemma_doc_get_block(b31, "collectible_mode_start_list"@);
    lemma_doc_get_block(b32, "collectible_mode_start_list"@);
    lemma_doc_get_block(b33, "collectible_mode_start_list"@);
    lemma_doc_get_concat(p32, b33, "collectible_mode_start_list"@);
    lemma_doc_get_concat(p31, b32, "collectible_mode_start_list"@);
    lemma_doc_get_concat(p30, b31, "collectible_mode_start_list"@);
    lemma_doc_get_concat(p29, b30, "collectible_mode_start_list"@);
    lemma_doc_get_concat(p28, b29, "collectible_mode_start_list"@);
    lemma_doc_get_concat(p27, b28, "collectible_mode_start_list"@);
    lemma_doc_get_concat(p26, b27, "collectible_mode_start_list"@);
    lemma_doc_get_concat(p25, b26, "collectible_mode_start_list"@);
    lemma_doc_get_concat(p24, b25, "collectible_mode_start_list"@);
    lemma_doc_get_concat(p23, b24, "collectible_mode_start_list"@);
    lemma_doc_get_concat(p22, b23, "collectible_mode_start_list"@);
    lemma_doc_get_concat(p21, b22, "collectible_mode_start_list"@);
    lemma_doc_get_concat(p20, b21, "collectible_mode_start_list"@);
    lemma_doc_get_concat(p19, b20, "collectible_mode_start_list"@);
    lemma_doc_get_concat(p18, b19, "collectible_mode_start_list"@);
    lemma_doc_get_concat(p17, b18, "collectible_mode_start_list"@);
    lemma_doc_get_concat(p16, b17, "collectible_mode_start_list"@);
    lemma_doc_get_concat(p15, b16, "collectible_mode_start_list"@);
    lemma_doc_get_concat(p14, b15, "collectible_mode_start_list"@);
    lemma_doc_get_concat(p13, b14, "collectible_mode_start_list"@);
    lemma_doc_get_concat(p12, b13, "collectible_mode_start_list"@);
    lemma_doc_get_concat(p11, b12, "collectible_mode_start_list"@);
    lemma_doc_get_concat(p10, b11, "collectible_mode_start_list"@);
    lemma_doc_get_concat(p9, b10, "collectible_mode_start_list"@);
    lemma_doc_get_concat(p8, b9, "collectible_mode_start_list"@);
    lemma_doc_get_concat(p7, b8, "collectible_mode_start_list"@);
    lemma_doc_get_concat(p6, b7, "collectible_mode_start_list"@);
    lemma_doc_get_concat(p5, b6, "collectible_mode_start_list"@);
    lemma_doc_get_concat(p4, b5, "collectible_mode_start_list"@);
    lemma_doc_get_concat(p3, b4, "collectible_mode_start_list"@);
    lemma_doc_get_concat(p2, b3, "collectible_mode_start_list"@);
    lemma_doc_get_concat(p1, b2, "collectible_mode_start_list"@);
}

/// What lookup of `start_with_seed` finds in the members of a Roguelike task.
proof fn roguelike_get_start_with_seed(t: RoguelikeTask)
    ensures
        doc_get(roguelike_pairs(t), "start_with_seed"@) == (match t.start_with_seed { Option::None => Option::<JsonV>::None, Option::Some(b) => Option::Some(JsonV::Sc(ScalarV::Bool(b))) }),
{
    reveal_strlit("enable");
    reveal_strlit("theme");
    reveal_strlit("mode");
    reveal_strlit("squad");
    reveal_strlit("roles");
    reveal_strlit("core_char");
    reveal_strlit("use_support");
    reveal_strlit("use_nonfriend_support");
    reveal_strlit("starts_count");
    reveal_strlit("difficulty");
    reveal_strlit("stop_at_final_boss");
    reveal_strlit("stop_at_max_level");
    reveal_strlit("investment_enabled");
    reveal_strlit("investments_count");
    reveal_strlit("stop_when_investment_full");
    reveal_strlit("investment_with_more_score");
    reveal_strlit("start_with_elite_two");
    reveal_strlit("only_start_with_elite_two");
    reveal_strlit("refresh_trader_with_dice");
    reveal_strlit("first_floor_foldartal");
    reveal_strlit("start_foldartal_list");
    reveal_strlit("start_with_two_ideas");
    reveal_strlit("use_foldartal");
    reveal_strlit("check_collapsal_paradigms");
    reveal_strlit("double_check_collapsal_paradigms");
    reveal_strlit("expected_collapsal_paradigms");
    reveal_strlit("monthly_squad_auto_iterate");
    reveal_strlit("monthly_squad_check_comms");
    reveal_strlit("deep_exploration_auto_iterate");
    reveal_strlit("collectible_mode_shopping");
    reveal_strlit("collectible_mode_squad");
    reveal_strlit("collectible_mode_start_list");
    reveal_strlit("start_with_seed");
    assert("start_with_seed"@.len() != "enable"@.len());
    assert("start_with_seed"@ != "enable"@);
    assert("start_with_seed"@.len() != "theme"@.len());
    assert("start_with_seed"@ != "theme"@);
    assert("start_with_seed"@.len() != "mode"@.len());
    assert("start_with_seed"@ != "mode"@);
    assert("start_with_seed"@.len() != "squad"@.len());
    assert("start_with_seed"@ != "squad"@);
    assert("start_with_seed"@.len() != "roles"@.len());
    assert("start_with_seed"@ != "roles"@);
    assert("start_with_seed"@.len() != "core_char"@.len());
    assert("start_with_seed"@ != "core_char"@);
    assert("start_with_seed"@.len() != "use_support"@.len());
    assert("start_with_seed"@ != "use_support"@);
    assert("start_with_seed"@.len() != "use_nonfriend_support"@.len());
    assert("start_with_seed"@ != "use_nonfriend_support"@);
    assert("start_with_seed"@.len() != "starts_count"@.len());
    assert("start_with_seed"@ != "starts_count"@);
    assert("start_with_seed"@.len() != "difficulty"@.len());
    assert("start_with_seed"@ != "difficulty"@);
    assert("start_with_seed"@.len() != "stop_at_final_boss"@.len());
    assert("start_with_seed"@ != "stop_at_final_boss"@);
    assert("start_with_seed"@.len() != "stop_at_max_level"@.len());
    assert("start_with_seed"@ != "stop_at_max_level"@);
    assert("start_with_seed"@.len() != "investment_enabled"@.len());
    assert("start_with_seed"@ != "investment_enabled"@);
    assert("start_with_seed"@.len() != "investments_count"@.len());
    assert("start_with_seed"@ != "investments_count"@);
    assert("start_with_seed"@.len() != "stop_when_investment_full"@.len());
    assert("start_with_seed"@ != "stop_when_investment_full"@);
    assert("start_with_seed"@.len() != "investment_with_more_score"@.len());
    assert("start_with_seed"@ != "investment_with_more_score"@);
    assert("start_with_seed"@.len() != "start_with_elite_two"@.len());
    assert("start_with_seed"@ != "start_with_elite_two"@);
    assert("start_with_seed"@.len() != "only_start_with_elite_two"@.len());
    assert("start_with_seed"@ != "only_start_with_elite_two"@);
    assert("start_with_seed"@.len() != "refresh_trader_with_dice"@.len());
    assert("start_with_seed"@ != "refresh_trader_with_dice"@);
    assert("start_with_seed"@.len() != "first_floor_foldartal"@.len());
    assert("start_with_seed"@ != "first_floor_foldartal"@);
    assert("start_with_seed"@.len() != "start_foldartal_list"@.len());
    assert("start_with_seed"@ != "start_foldartal_list"@);
    assert("start_with_seed"@.len() != "start_with_two_ideas"@.len());
    assert("start_with_seed"@ != "start_with_two_ideas"@);
    assert("start_with_seed"@.len() != "use_foldartal"@.len());
    assert("start_with_seed"@ != "use_foldartal"@);
    assert("start_with_seed"@.len() != "check_collapsal_paradigms"@.len());
    assert("start_with_seed"@ != "check_collapsal_paradigms"@);
    assert("start_with_seed"@.len() != "double_check_collapsal_paradigms"@.len());
    assert("start_with_seed"@ != "double_check_collapsal_paradigms"@);
    assert("start_with_seed"@.len() != "expected_collapsal_paradigms"@.len());
    assert("start_with_seed"@ != "expected_collapsal_paradigms"@);
    assert("start_with_seed"@.len() != "monthly_squad_auto_iterate"@.len());
    assert("start_with_seed"@ != "monthly_squad_auto_iterate"@);
    assert("start_with_seed"@.len() != "monthly_squad_check_comms"@.len());
    assert("start_with_seed"@ != "monthly_squad_check_comms"@);
    assert("start_with_seed"@.len() != "deep_exploration_auto_iterate"@.len());
    assert("start_with_seed"@ != "deep_exploration_auto_iterate"@);
    assert("start_with_seed"@.len() != "collectible_mode_shopping"@.len());
    assert("start_with_seed"@ != "collectible_mode_shopping"@);
    assert("start_with_seed"@.len() != "collectible_mode_squad"@.len());
    assert("start_with_seed"@ != "collectible_mode_squad"@);
    assert("start_with_seed"@.len() != "collectible_mode_start_list"@.len());
    assert("start_with_seed"@ != "collectible_mode_start_list"@);
    let b1 = b_opt_bool("enable"@, t.enable);
    let b2 = b_opt_str("theme"@, opt_str_view(t.theme));
    let b3 = b_opt_int("mode"@, t.mode);
    let b4 = b_opt_str("squad"@, opt_str_view(t.squad));
    let b5 = b_opt_str("roles"@, opt_str_view(t.roles));
    let b6 = b_opt_str("core_char"@, opt_str_view(t.core_char));
    let b7 = b_opt_bool("use_support"@, t.use_support);
    let b8 = b_opt_bool("use_nonfriend_support"@, t.use_nonfriend_support);
    let b9 = b_opt_int("starts_count"@, t.starts_count);
    let b10 = b_opt_int("difficulty"@, t.difficulty);
    let b11 = b_opt_bool("stop_at_final_boss"@, t.stop_at_final_boss);
    let b12 = b_opt_bool("stop_at_max_level"@, t.stop_at_max_level);
    let b13 = b_opt_bool("investment_enabled"@, t.investment_enabled);
    let b14 = b_opt_int("investments_count"@, t.investments_count);
    let b15 = b_opt_bool("stop_when_investment_full"@, t.stop_when_investment_full);
    let b16 = b_opt_bool("investment_with_more_score"@, t.investment_with_more_score);
    let b17 = b_opt_bool("start_with_elite_two"@, t.start_with_elite_two);
    let b18 = b_opt_bool("only_start_with_elite_two"@, t.only_start_with_elite_two);
    let b19 = b_opt_bool("refresh_trader_with_dice"@, t.refresh_trader_with_dice);
    let b20 = b_opt_str("first_floor_foldartal"@, opt_str_view(t.first_floor_foldartal));
    let b21 = b_opt_str_list("start_foldartal_list"@, (match t.start_foldartal_list { Option::None => Option::None, Option::Some(l) => Option::Some(strs_view(l@)) }));
    let b22 = b_opt_bool("start_with_two_ideas"@, t.start_with_two_ideas);
    let b23 = b_opt_bool("use_foldartal"@, t.use_foldartal);
    let b24 = b_opt_bool("check_collapsal_paradigms"@, t.check_collapsal_paradigms);
    let b25 = b_opt_bool("double_check_collapsal_paradigms"@, t.double_check_collapsal_paradigms);
    let b26 = b_opt_str_list("expected_collapsal_paradigms"@, (match t.expected_collapsal_paradigms { Option::None => Option::None, Option::Some(l) => Option::Some(strs_view(l@)) }));
    let b27 = b_opt_bool("monthly_squad_auto_iterate"@, t.monthly_squad_auto_iterate);
    let b28 = b_opt_bool("monthly_squad_check_comms"@, t.monthly_squad_check_comms);
    let b29 = b_opt_bool("deep_exploration_auto_iterate"@, t.deep_exploration_auto_iterate);
    let b30 = b_opt_bool("collectible_mode_shopping"@, t.collectible_mode_shopping);
    let b31 = b_opt_str("collectible_mode_squad"@, opt_str_view(t.collectible_mode_squad));
    let b32 = b_opt_bool_map("collectible_mode_start_list"@, (match t.collectible_mode_start_list { Option::None => Option::None, Option::Some(m) => Option::Some(bpairs_view(m@)) }));
    let b33 = b_opt_bool("start_with_seed"@, t.start_with_seed);
    let p1 = b1;
    let p2 = p1 + b2;
    let p3 = p2 + b3;
    let p4 = p3 + b4;
    let p5 = p4 + b5;
    let p6 = p5 + b6;
    let p7 = p6 + b7;
    let p8 = p7 + b8;
    let p9 = p8 + b9;
    let p10 = p9 + b10;
    let p11 = p10 + b11;
    let p12 = p11 + b12;
    let p13 = p12 + b13;
    let p14 = p13 + b14;
    let p15 = p14 + b15;
    let p16 = p15 + b16;
    let p17 = p16 + b17;
    let p18 = p17 + b18;
    let p19 = p18 + b19;
    let p20 = p19 + b20;
    let p21 = p20 + b21;
    let p22 = p21 + b22;
    let p23 = p22 + b23;
    let p24 = p23 + b24;
    let p25 = p24 + b25;
    let p26 = p25 + b26;
    let p27 = p26 + b27;
    let p28 = p27 + b28;
    let p29 = p28 + b29;
    let p30 = p29 + b30;
    let p31 = p30 + b31;
    let p32 = p31 + b32;
    let p33 = p32 + b33;
    assert(roguelike_pairs(t) == p33);
    lemma_doc_get_block(b1, "start_with_seed"@);
    lemma_doc_get_block(b2, "start_with_seed"@);
    lemma_doc_get_block(b3, "start_with_seed"@);
    lemma_doc_get_block(b4, "start_with_seed"@);
    lemma_doc_get_block(b5, "start_with_seed"@);
    lemma_doc_get_block(b6, "start_with_seed"@);
    lemma_doc_get_block(b7, "start_with_seed"@);
    lemma_doc_get_block(b8, "start_with_seed"@);
    lemma_doc_get_block(b9, "start_with_seed"@);
    lemma_doc_get_block(b10, "start_with_seed"@);
    lemma_doc_get_block(b11, "start_with_seed"@);
    lemma_doc_get_block(b12, "start_with_seed"@);
    lemma_doc_get_block(b13, "start_with_seed"@);
    lemma_doc_get_block(b14, "start_with_seed"@);
    lemma_doc_get_block(b15, "start_with_seed"@);
    lemma_doc_get_block(b16, "start_with_seed"@);
    lemma_doc_get_block(b17, "start_with_seed"@);
    lemma_doc_get_block(b18, "start_with_seed"@);
    lemma_doc_get_block(b19, "start_with_seed"@);
    lemma_doc_get_block(b20, "start_with_seed"@);
    lemma_doc_get_block(b21, "start_with_seed"@);
    lemma_doc_get_block(b22, "start_with_seed"@);
    lemma_doc_get_block(b23, "start_with_seed"@);
    lemma_doc_get_block(b24, "start_with_seed"@);
    lemma_doc_get_block(b25, "start_with_seed"@);
    lemma_doc_get_block(b26, "start_with_seed"@);
    lemma_doc_get_block(b27, "start_with_seed"@);
    lemma_doc_get_block(b28, "start_with_seed"@);
    lemma_doc_get_block(b29, "start_with_seed"@);
    lemma_doc_get_block(b30, "start_with_seed"@);
    lemma_doc_get_block(b31, "start_with_seed"@);
    lemma_doc_get_block(b32, "start_with_seed"@);
    lemma_doc_get_block(b33, "start_with_seed"@);
    lemma_doc_get_concat(p32, b33, "start_with_seed"@);
    lemma_doc_get_concat(p31, b32, "start_with_seed"@);
    lemma_doc_get_concat(p30, b31, "start_with_seed"@);
    lemma_doc_get_concat(p29, b30, "start_with_seed"@);
    lemma_doc_get_concat(p28, b29, "start_with_seed"@);
    lemma_doc_get_concat(p27, b28, "start_with_seed"@);
    lemma_doc_get_concat(p26, b27, "start_with_seed"@);
    lemma_doc_get_concat(p25, b26, "start_with_seed"@);
    lemma_doc_get_concat(p24, b25, "start_with_seed"@);
    lemma_doc_get_concat(p23, b24, "start_with_seed"@);
    lemma_doc_get_concat(p22, b23, "start_with_seed"@);
    lemma_doc_get_concat(p21, b22, "start_with_seed"@);
    lemma_doc_get_concat(p20, b21, "start_with_seed"@);
    lemma_doc_get_concat(p19, b20, "start_with_seed"@);
    lemma_doc_get_concat(p18, b19, "start_with_seed"@);
    lemma_doc_get_concat(p17, b18, "start_with_seed"@);
    lemma_doc_get_concat(p16, b17, "start_with_seed"@);
    lemma_doc_get_concat(p15, b16, "start_with_seed"@);
    lemma_doc_get_concat(p14, b15, "start_with_seed"@);
    lemma_doc_get_concat(p13, b14, "start_with_seed"@);
    lemma_doc_get_concat(p12, b13, "start_with_seed"@);
    lemma_doc_get_concat(p11, b12, "start_with_seed"@);
    lemma_doc_get_concat(p10, b11, "start_with_seed"@);
    lemma_doc_get_concat(p9, b10, "start_with_seed"@);
    lemma_doc_get_concat(p8, b9, "start_with_seed"@);
    lemma_doc_get_concat(p7, b8, "start_with_seed"@);
    lemma_doc_get_concat(p6, b7, "start_with_seed"@);
    lemma_doc_get_concat(p5, b6, "start_with_seed"@);
    lemma_doc_get_concat(p4, b5, "start_with_seed"@);
    lemma_doc_get_concat(p3, b4, "start_with_seed"@);
    lemma_doc_get_concat(p2, b3, "start_with_seed"@);
    lemma_doc_get_concat(p1, b2, "start_with_seed"@);
}

/// Writing a well-formed Roguelike task and reading the text back yields
/// every field unchanged.
pub proof fn lemma_roguelike_round_trip(t: RoguelikeTask)
    requires
        roguelike_well_formed(t),
    ensures
        text_to_doc(doc_text(roguelike_pairs(t))) == Option::Some(roguelike_pairs(t)),
        roguelike_ok(roguelike_pairs(t)),
        (match sget_opt_bool(roguelike_pairs(t), "enable"@) {
            Result::Ok(v) => t.enable == v,
            Result::Err(_) => false,
        }),
        (match sget_opt_str(roguelike_pairs(t), "theme"@) {
            Result::Ok(v) => opt_str_view(t.theme) == v,
            Result::Err(_) => false,
        }),
        (match sget_opt_int(roguelike_pairs(t), "mode"@) {
            Result::Ok(v) => t.mode == v,
            Result::Err(_) => false,
        }),
        (match sget_opt_str(roguelike_pairs(t), "squad"@) {
            Result::Ok(v) => opt_str_view(t.squad) == v,
            Result::Err(_) => false,
        }),
        (match sget_opt_str(roguelike_pairs(t), "roles"@) {
            Result::Ok(v) => opt_str_view(t.roles) == v,
            Result::Err(_) => false,
        }),
        (match sget_opt_str(roguelike_pairs(t), "core_char"@) {
            Result::Ok(v) => opt_str_view(t.core_char) == v,
            Result::Err(_) => false,
        }),
        (match sget_opt_bool(roguelike_pairs(t), "use_support"@) {
            Result::Ok(v) => t.use_support == v,
            Result::Err(_) => false,
        }),
        (match sget_opt_bool(roguelike_pairs(t), "use_nonfriend_support"@) {
            Result::Ok(v) => t.use_nonfriend_support == v,
            Result::Err(_) => false,
        }),
        (match sget_opt_int(roguelike_pairs(t), "starts_count"@) {
            Result::Ok(v) => t.starts_count == v,
            Result::Err(_) => false,
        }),
        (match sget_opt_int(roguelike_pairs(t), "difficulty"@) {
            Result::Ok(v) => t.difficulty == v,
            Result::Err(_) => false,
        }),
        (match sget_opt_bool(roguelike_pairs(t), "stop_at_final_boss"@) {
            Result::Ok(v) => t.stop_at_final_boss == v,
            Result::Err(_) => false,
        }),
        (match sget_opt_bool(roguelike_pairs(t), "stop_at_max_level"@) {
            Result::Ok(v) => t.stop_at_max_level == v,
            Result::Err(_) => false,
        }),
        (match sget_opt_bool(roguelike_pairs(t), "investment_enabled"@) {
            Result::Ok(v) => t.investment_enabled == v,
            Result::Err(_) => false,
        }),
        (match sget_opt_int(roguelike_pairs(t), "investments_count"@) {
            Result::Ok(v) => t.investments_count == v,
            Result::Err(_) => false,
        }),
        (match sget_opt_bool(roguelike_pairs(t), "stop_when_investment_full"@) {
            Result::Ok(v) => t.stop_when_investment_full == v,
            Result::Err(_) => false,
        }),
        (match sget_opt_bool(roguelike_pairs(t), "investment_with_more_score"@) {
            Result::Ok(v) => t.investment_with_more_score == v,
            Result::Err(_) => false,
        }),
        (match sget_opt_bool(roguelike_pairs(t), "start_with_elite_two"@) {
            Result::Ok(v) => t.start_with_elite_two == v,
            Result::Err(_) => false,
        }),
        (match sget_opt_bool(roguelike_pairs(t), "only_start_with_elite_two"@) {
            Result::Ok(v) => t.only_start_with_elite_two == v,
            Result::Err(_) => false,
        }),
        (match sget_opt_bool(roguelike_pairs(t), "refresh_trader_with_dice"@) {
            Result::Ok(v) => t.refresh_trader_with_dice == v,
            Result::Err(_) => false,
        }),
        (match sget_opt_str(roguelike_pairs(t), "first_floor_foldartal"@) {
            Result::Ok(v) => opt_str_view(t.first_floor_foldartal) == v,
            Result::Err(_) => false,
        }),
        (match sget_opt_str_list(roguelike_pairs(t), "start_foldartal_list"@) {
            Result::Ok(v) => v == (match t.start_foldartal_list { Option::None => Option::None, Option::Some(l) => Option::Some(strs_view(l@)) }),
            Result::Err(_) => false,
        }),
        (match sget_opt_bool(roguelike_pairs(t), "start_with_two_ideas"@) {
            Result::Ok(v) => t.start_with_two_ideas == v,
            Result::Err(_) => false,
        }),
        (match sget_opt_bool(roguelike_pairs(t), "use_foldartal"@) {
            Result::Ok(v) => t.use_foldartal == v,
            Result::Err(_) => false,
        }),
        (match sget_opt_bool(roguelike_pairs(t), "check_collapsal_paradigms"@) {
            Result::Ok(v) => t.check_collapsal_paradigms == v,
            Result::Err(_) => false,
        }),
        (match sget_opt_bool(roguelike_pairs(t), "double_check_collapsal_paradigms"@) {
            Result::Ok(v) => t.double_check_collapsal_paradigms == v,
            Result::Err(_) => false,
        }),
        (match sget_opt_str_list(roguelike_pairs(t), "expected_collapsal_paradigms"@) {
            Result::Ok(v) => v == (match t.expected_collapsal_paradigms { Option::None => Option::None, Option::Some(l) => Option::Some(strs_view(l@)) }),
            Result::Err(_) => false,
        }),
        (match sget_opt_bool(roguelike_pairs(t), "monthly_squad_auto_iterate"@) {
            Result::Ok(v) => t.monthly_squad_auto_iterate == v,
            Result::Err(_) => false,
        }),
        (match sget_opt_bool(roguelike_pairs(t), "monthly_squad_check_comms"@) {
            Result::Ok(v) => t.monthly_squad_check_comms == v,
            Result::Err(_) => false,
        }),
        (match sget_opt_bool(roguelike_pairs(t), "deep_exploration_auto_iterate"@) {
            Result::Ok(v) => t.deep_exploration_auto_iterate == v,
            Result::Err(_) => false,
        }),
        (match sget_opt_bool(roguelike_pairs(t), "collectible_mode_shopping"@) {
            Result::Ok(v) => t.collectible_mode_shopping == v,
            Result::Err(_) => false,
        }),
        (match sget_opt_str(roguelike_pairs(t), "collectible_mode_squad"@) {
            Result::Ok(v) => opt_str_view(t.collectible_mode_squad) == v,
            Result::Err(_) => false,
        }),
        (match sget_opt_bool_map(roguelike_pairs(t), "collectible_mode_start_list"@) {
            Result::Ok(v) => v == (match t.collectible_mode_start_list { Option::None => Option::None, Option::Some(m) => Option::Some(bpairs_view(m@)) }),
            Result::Err(_) => false,
        }),
        (match sget_opt_bool(roguelike_pairs(t), "start_with_seed"@) {
            Result::Ok(v) => t.start_with_seed == v,
            Result::Err(_) => false,
        }),
{
    let ps = roguelike_pairs(t);
    roguelike_get_enable(t);
    roguelike_get_theme(t);
    roguelike_get_mode(t);
    roguelike_get_squad(t);
    roguelike_get_roles(t);
    roguelike_get_core_char(t);
    roguelike_get_use_support(t);
    roguelike_get_use_nonfriend_support(t);
    roguelike_get_starts_count(t);
    roguelike_get_difficulty(t);
    roguelike_get_stop_at_final_boss(t);
    roguelike_get_stop_at_max_level(t);
    roguelike_get_investment_enabled(t);
    roguelike_get_investments_count(t);
    roguelike_get_stop_when_investment_full(t);
    roguelike_get_investment_with_more_score(t);
    roguelike_get_start_with_elite_two(t);
    roguelike_get_only_start_with_elite_two(t);
    roguelike_get_refresh_trader_with_dice(t);
    roguelike_get_first_floor_foldartal(t);
    roguelike_get_start_foldartal_list(t);
    roguelike_get_start_with_two_ideas(t);
    roguelike_get_use_foldartal(t);
    roguelike_get_check_collapsal_paradigms(t);
    roguelike_get_double_check_collapsal_paradigms(t);
    roguelike_get_expected_collapsal_paradigms(t);
    roguelike_get_monthly_squad_auto_iterate(t);
    roguelike_get_monthly_squad_check_comms(t);
    roguelike_get_deep_exploration_auto_iterate(t);
    roguelike_get_collectible_mode_shopping(t);
    roguelike_get_collectible_mode_squad(t);
    roguelike_get_collectible_mode_start_list(t);
    roguelike_get_start_with_seed(t);
    lemma_blocks_valid("enable"@);
    lemma_blocks_valid("theme"@);
    lemma_blocks_valid("mode"@);
    lemma_blocks_valid("squad"@);
    lemma_blocks_valid("roles"@);
    lemma_blocks_valid("core_char"@);
    lemma_blocks_valid("use_support"@);
    lemma_blocks_valid("use_nonfriend_support"@);
    lemma_blocks_valid("starts_count"@);
    lemma_blocks_valid("difficulty"@);
    lemma_blocks_valid("stop_at_final_boss"@);
    lemma_blocks_valid("stop_at_max_level"@);
    lemma_blocks_valid("investment_enabled"@);
    lemma_blocks_valid("investments_count"@);
    lemma_blocks_valid("stop_when_investment_full"@);
    lemma_blocks_valid("investment_with_more_score"@);
    lemma_blocks_valid("start_with_elite_two"@);
    lemma_blocks_valid("only_start_with_elite_two"@);
    lemma_blocks_valid("refresh_trader_with_dice"@);
    lemma_blocks_valid("first_floor_foldartal"@);
    lemma_blocks_valid("start_foldartal_list"@);
    lemma_blocks_valid("start_with_two_ideas"@);
    lemma_blocks_valid("use_foldartal"@);
    lemma_blocks_valid("check_collapsal_paradigms"@);
    lemma_blocks_valid("double_check_collapsal_paradigms"@);
    lemma_blocks_valid("expected_collapsal_paradigms"@);
    lemma_blocks_valid("monthly_squad_auto_iterate"@);
    lemma_blocks_valid("monthly_squad_check_comms"@);
    lemma_blocks_valid("deep_exploration_auto_iterate"@);
    lemma_blocks_valid("collectible_mode_shopping"@);
    lemma_blocks_valid("collectible_mode_squad"@);
    lemma_blocks_valid("collectible_mode_start_list"@);
    lemma_blocks_valid("start_with_seed"@);
    let b1 = b_opt_bool("enable"@, t.enable);
    let b2 = b_opt_str("theme"@, opt_str_view(t.theme));
    let b3 = b_opt_int("mode"@, t.mode);
    let b4 = b_opt_str("squad"@, opt_str_view(t.squad));
    let b5 = b_opt_str("roles"@, opt_str_view(t.roles));
    let b6 = b_opt_str("core_char"@, opt_str_view(t.core_char));
    let b7 = b_opt_bool("use_support"@, t.use_support);
    let b8 = b_opt_bool("use_nonfriend_support"@, t.use_nonfriend_support);
    let b9 = b_opt_int("starts_count"@, t.starts_count);
    let b10 = b_opt_int("difficulty"@, t.difficulty);
    let b11 = b_opt_bool("stop_at_final_boss"@, t.stop_at_final_boss);
    let b12 = b_opt_bool("stop_at_max_level"@, t.stop_at_max_level);
    let b13 = b_opt_bool("investment_enabled"@, t.investment_enabled);
    let b14 = b_opt_int("investments_count"@, t.investments_count);
    let b15 = b_opt_bool("stop_when_investment_full"@, t.stop_when_investment_full);
    let b16 = b_opt_bool("investment_with_more_score"@, t.investment_with_more_score);
    let b17 = b_opt_bool("start_with_elite_two"@, t.start_with_elite_two);
    let b18 = b_opt_bool("only_start_with_elite_two"@, t.only_start_with_elite_two);
    let b19 = b_opt_bool("refresh_trader_with_dice"@, t.refresh_trader_with_dice);
    let b20 = b_opt_str("first_floor_foldartal"@, opt_str_view(t.first_floor_foldartal));
    let b21 = b_opt_str_list("start_foldartal_list"@, (match t.start_foldartal_list { Option::None => Option::None, Option::Some(l) => Option::Some(strs_view(l@)) }));
    let b22 = b_opt_bool("start_with_two_ideas"@, t.start_with_two_ideas);
    let b23 = b_opt_bool("use_foldartal"@, t.use_foldartal);
    let b24 = b_opt_bool("check_collapsal_paradigms"@, t.check_collapsal_paradigms);
    let b25 = b_opt_bool("double_check_collapsal_paradigms"@, t.double_check_collapsal_paradigms);
    let b26 = b_opt_str_list("expected_collapsal_paradigms"@, (match t.expected_collapsal_paradigms { Option::None => Option::None, Option::Some(l) => Option::Some(strs_view(l@)) }));
    let b27 = b_opt_bool("monthly_squad_auto_iterate"@, t.monthly_squad_auto_iterate);
    let b28 = b_opt_bool("monthly_squad_check_comms"@, t.monthly_squad_check_comms);
    let b29 = b_opt_bool("deep_exploration_auto_iterate"@, t.deep_exploration_auto_iterate);
    let b30 = b_opt_bool("collectible_mode_shopping"@, t.collectible_mode_shopping);
    let b31 = b_opt_str("collectible_mode_squad"@, opt_str_view(t.collectible_mode_squad));
    let b32 = b_opt_bool_map("collectible_mode_start_list"@, (match t.collectible_mode_start_list { Option::None => Option::None, Option::Some(m) => Option::Some(bpairs_view(m@)) }));
    let b33 = b_opt_bool("start_with_seed"@, t.start_with_seed);
    let p1 = b1;
    let p2 = p1 + b2;
    let p3 = p2 + b3;
    let p4 = p3 + b4;
    let p5 = p4 + b5;
    let p6 = p5 + b6;
    let p7 = p6 + b7;
    let p8 = p7 + b8;
    let p9 = p8 + b9;
    let p10 = p9 + b10;
    let p11 = p10 + b11;
    let p12 = p11 + b12;
    let p13 = p12 + b13;
    let p14 = p13 + b14;
    let p15 = p14 + b15;
    let p16 = p15 + b16;
    let p17 = p16 + b17;
    let p18 = p17 + b18;
    let p19 = p18 + b19;
    let p20 = p19 + b20;
    let p21 = p20 + b21;
    let p22 = p21 + b22;
    let p23 = p22 + b23;
    let p24 = p23 + b24;
    let p25 = p24 + b25;
    let p26 = p25 + b26;
    let p27 = p26 + b27;
    let p28 = p27 + b28;
    let p29 = p28 + b29;
    let p30 = p29 + b30;
    let p31 = p30 + b31;
    let p32 = p31 + b32;
    let p33 = p32 + b33;
    assert(doc_valid(p1));
    lemma_doc_valid_concat(p1, b2);
    lemma_doc_valid_concat(p2, b3);
    lemma_doc_valid_concat(p3, b4);
    lemma_doc_valid_concat(p4, b5);
    lemma_doc_valid_concat(p5, b6);
    lemma_doc_valid_concat(p6, b7);
    lemma_doc_valid_concat(p7, b8);
    lemma_doc_valid_concat(p8, b9);
    lemma_doc_valid_concat(p9, b10);
    lemma_doc_valid_concat(p10, b11);
    lemma_doc_valid_concat(p11, b12);
    lemma_doc_valid_concat(p12, b13);
    lemma_doc_valid_concat(p13, b14);
    lemma_doc_valid_concat(p14, b15);
    lemma_doc_valid_concat(p15, b16);
    lemma_doc_valid_concat(p16, b17);
    lemma_doc_valid_concat(p17, b18);
    lemma_doc_valid_concat(p18, b19);
    lemma_doc_valid_concat(p19, b20);
    lemma_doc_valid_concat(p20, b21);
    lemma_doc_valid_concat(p21, b22);
    lemma_doc_valid_concat(p22, b23);
    lemma_doc_valid_concat(p23, b24);
    lemma_doc_valid_concat(p24, b25);
    lemma_doc_valid_concat(p25, b26);
    lemma_doc_valid_concat(p26, b27);
    lemma_doc_valid_concat(p27, b28);
    lemma_doc_valid_concat(p28, b29);
    lemma_doc_valid_concat(p29, b30);
    lemma_doc_valid_concat(p30, b31);
    lemma_doc_valid_concat(p31, b32);
    lemma_doc_valid_concat(p32, b33);
    assert(ps == p33);
    lemma_doc_round_trip(ps);
    if t.start_foldartal_list is Some {
        lemma_strs_of_list(strs_view(t.start_foldartal_list->0@));
    }
    if t.expected_collapsal_paradigms is Some {
        lemma_strs_of_list(strs_view(t.expected_collapsal_paradigms->0@));
    }
    if t.collectible_mode_start_list is Some {
        lemma_bmap_of_map(bpairs_view(t.collectible_mode_start_list->0@));
    }
}

/// Parameters of the Copilot task.
#[derive(Clone, Debug, PartialEq)]
pub struct CopilotTask {
    /// The optional boolean field `enable`.
    pub enable: Option<bool>,
    /// The optional string field `filename`.
    pub filename: Option<String>,
    /// The optional boolean field `formation`.
    pub formation: Option<bool>,
}

/// The document members of a Copilot task, in writing order.
pub open spec fn copilot_pairs(t: CopilotTask) -> Seq<(Seq<char>, JsonV)> {
    b_opt_bool("enable"@, t.enable) + b_opt_str("filename"@, opt_str_view(t.filename)) + b_opt_bool("formation"@, t.formation)
}

/// Whether every known key of a parsed document holds the right shape
/// for the Copilot task, with every required key present.
pub open spec fn copilot_ok(pairs: Seq<(Seq<char>, JsonV)>) -> bool {
    sget_opt_bool(pairs, "enable"@) is Ok
    && sget_opt_str(pairs, "filename"@) is Ok
    && sget_opt_bool(pairs, "formation"@) is Ok
}

/// The first field error met reading a parsed document as a Copilot task.
pub open spec fn copilot_first_err(pairs: Seq<(Seq<char>, JsonV)>) -> TaskError {
    match sget_opt_bool(pairs, "enable"@) {
        Result::Err(e) => e,
        Result::Ok(_) => match sget_opt_str(pairs, "filename"@) {
        Result::Err(e) => e,
        Result::Ok(_) => match sget_opt_bool(pairs, "formation"@) {
        Result::Err(e) => e,
        Result::Ok(_) => TaskError::WrongType,
    },
    },
    }
}

impl CopilotTask {
    /// The stable type tag the engine knows the task by.
    pub fn task_type(&self) -> (r: &'static str)
        ensures
            r@ == "Copilot"@,
    {
        "Copilot"
    }

    /// The stable human-readable name of the task kind.
    pub fn task_name(&self) -> (r: &'static str)
        ensures
            r@ == "自动抄作业"@,
    {
        "自动抄作业"
    }

    /// The canonical JSON parameter string: present fields only, in
    /// declaration order.
    pub fn to_json(&self) -> (r: String)
        ensures
            r@ == doc_text(copilot_pairs(*self)),
    {
        let mut out: Vec<(String, Json)> = Vec::new();
        proof {
            assert(doc_view(out@) =~= Seq::<(Seq<char>, JsonV)>::empty());
        }
        push_opt_bool(&mut out, "enable", &self.enable);
        push_opt_str(&mut out, "filename", &self.filename);
        push_opt_bool(&mut out, "formation", &self.formation);
        proof {
            assert(doc_view(out@) =~= copilot_pairs(*self));
        }
        write_doc(&out)
    }

    /// Read a task back from a canonical JSON parameter string.
    pub fn from_json(s: &str) -> (r: Result<CopilotTask, TaskError>)
        ensures
            match text_to_doc(s@) {
                Option::None => r == Result::<CopilotTask, TaskError>::Err(TaskError::NotCanonical),
                Option::Some(pairs) => if copilot_ok(pairs) {
                    &&& r is Ok
                    &&& (match (r, sget_opt_bool(pairs, "enable"@)) {
                        (Result::Ok(t), Result::Ok(v)) => t.enable == v,
                        _ => false,
                    })
                    &&& (match (r, sget_opt_str(pairs, "filename"@)) {
                        (Result::Ok(t), Result::Ok(v)) => opt_str_view(t.filename) == v,
                        _ => false,
                    })
                    &&& (match (r, sget_opt_bool(pairs, "formation"@)) {
                        (Result::Ok(t), Result::Ok(v)) => t.formation == v,
                        _ => false,
                    })
                } else {
                    r == Result::<CopilotTask, TaskError>::Err(copilot_first_err(pairs))
                },
            },
    {
        let pairs = match parse_doc(s) {
            Option::Some(p) => p,
            Option::None => {
                return Result::Err(TaskError::NotCanonical);
            },
        };
        let enable = match get_opt_bool(&pairs, "enable") {
            Result::Ok(v) => v,
            Result::Err(e) => {
                return Result::Err(e);
            },
        };
        let filename = match get_opt_str(&pairs, "filename") {
            Result::Ok(v) => v,
            Result::Err(e) => {
                return Result::Err(e);
            },
        };
        let formation = match get_opt_bool(&pairs, "formation") {
            Result::Ok(v) => v,
            Result::Err(e) => {
                return Result::Err(e);
            },
        };
        Result::Ok(CopilotTask { enable, filename, formation })
    }

    /// A task with no field set.
    pub fn new() -> (r: Self)
        ensures
            r.enable is None,
            r.filename is None,
            r.formation is None,
    {
        CopilotTask { enable: Option::None, filename: Option::None, formation: Option::None }
    }

    /// A builder with no field set.
    pub fn builder() -> (r: CopilotTaskBuilder)
        ensures
            r.enable is None,
            r.filename is None,
            r.formation is None,
    {
        CopilotTaskBuilder { enable: Option::None, filename: Option::None, formation: Option::None }
    }
}

/// Step-by-step construction of a Copilot task.
pub struct CopilotTaskBuilder {
    /// The optional boolean field `enable`, once set.
    pub enable: Option<bool>,
    /// The optional string field `filename`, once set.
    pub filename: Option<String>,
    /// The optional boolean field `formation`, once set.
    pub formation: Option<bool>,
}

impl CopilotTaskBuilder {
    /// Set the optional boolean field `enable`.
    pub fn enable(self, enable: bool) -> (r: Self)
        ensures
            r.enable == Option::Some(enable),
            r.filename == self.filename,
            r.formation == self.formation,
    {
        let mut this = self;
        this.enable = Option::Some(enable);
        this
    }

    /// Set the optional string field `filename`.
    pub fn filename(self, filename: &str) -> (r: Self)
        ensures
            (r.filename matches Option::Some(s) && s@ == filename@),
            r.enable == self.enable,
            r.formation == self.formation,
    {
        let mut this = self;
        this.filename = Option::Some(filename.to_owned());
        this
    }

    /// Set the optional boolean field `formation`.
    pub fn formation(self, formation: bool) -> (r: Self)
        ensures
            r.formation == Option::Some(formation),
            r.enable == self.enable,
            r.filename == self.filename,
    {
        let mut this = self;
        this.formation = Option::Some(formation);
        this
    }

    /// The finished task.
    pub fn build(self) -> (r: CopilotTask)
        ensures
            r.enable == self.enable,
            r.filename == self.filename,
            r.formation == self.formation,
    {
        CopilotTask { enable: self.enable, filename: self.filename, formation: self.formation } 
    }
}

/// What lookup of `enable` finds in the members of a Copilot task.
proof fn copilot_get_enable(t: CopilotTask)
    ensures
        doc_get(copilot_pairs(t), "enable"@) == (match t.enable { Option::None => Option::<JsonV>::None, Option::Some(b) => Option::Some(JsonV::Sc(ScalarV::Bool(b))) }),
{
    reveal_strlit("enable");
    reveal_strlit("filename");
    reveal_strlit("formation");
    assert("enable"@.len() != "filename"@.len());
    assert("enable"@ != "filename"@);
    assert("enable"@.len() != "formation"@.len());
    assert("enable"@ != "formation"@);
    let b1 = b_opt_bool("enable"@, t.enable);
    let b2 = b_opt_str("filename"@, opt_str_view(t.filename));
    let b3 = b_opt_bool("formation"@, t.formation);
    let p1 = b1;
    let p2 = p1 + b2;
    let p3 = p2 + b3;
    assert(copilot_pairs(t) == p3);
    lemma_doc_get_block(b1, "enable"@);
    lemma_doc_get_block(b2, "enable"@);
    lemma_doc_get_block(b3, "enable"@);
    lemma_doc_get_concat(p2, b3, "enable"@);
    lemma_doc_get_concat(p1, b2, "enable"@);
}

/// What lookup of `filename` finds in the members of a Copilot task.
proof fn copilot_get_filename(t: CopilotTask)
    ensures
        doc_get(copilot_pairs(t), "filename"@) == (match t.filename { Option::None => Option::<JsonV>::None, Option::Some(s) => Option::Some(JsonV::Sc(ScalarV::Str(s@))) }),
{
    reveal_strlit("enable");
    reveal_strlit("filename");
    reveal_strlit("formation");
    assert("filename"@.len() != "enable"@.len());
    assert("filename"@ != "enable"@);
    assert("filename"@.len() != "formation"@.len());
    assert("filename"@ != "formation"@);
    let b1 = b_opt_bool("enable"@, t.enable);
    let b2 = b_opt_str("filename"@, opt_str_view(t.filename));
    let b3 = b_opt_bool("formation"@, t.formation);
    let p1 = b1;
    let p2 = p1 + b2;
    let p3 = p2 + b3;
    assert(copilot_pairs(t) == p3);
    lemma_doc_get_block(b1, "filename"@);
    lemma_doc_get_block(b2, "filename"@);
    lemma_doc_get_block(b3, "filename"@);
    lemma_doc_get_concat(p2, b3, "filename"@);
    lemma_doc_get_concat(p1, b2, "filename"@);
}

/// What lookup of `formation` finds in the members of a Copilot task.
proof fn copilot_get_formation(t: CopilotTask)
    ensures
        doc_get(copilot_pairs(t), "formation"@) == (match t.formation { Option::None => Option::<JsonV>::None, Option::Some(b) => Option::Some(JsonV::Sc(ScalarV::Bool(b))) }),
{
    reveal_strlit("enable");
    reveal_strlit("filename");
    reveal_strlit("formation");
    assert("formation"@.len() != "enable"@.len());
    assert("formation"@ != "enable"@);
    assert("formation"@.len() != "filename"@.len());
    assert("formation"@ != "filename"@);
    let b1 = b_opt_bool("enable"@, t.enable);
    let b2 = b_opt_str("filename"@, opt_str_view(t.filename));
    let b3 = b_opt_bool("formation"@, t.formation);
    let p1 = b1;
    let p2 = p1 + b2;
    let p3 = p2 + b3;
    assert(copilot_pairs(t) == p3);
    lemma_doc_get_block(b1, "formation"@);
    lemma_doc_get_block(b2, "formation"@);
    lemma_doc_get_block(b3, "formation"@);
    lemma_doc_get_concat(p2, b3, "formation"@);
    lemma_doc_get_concat(p1, b2, "formation"@);
}

/// Writing a Copilot task and reading the text back yields every
/// field unchanged.
pub proof fn lemma_copilot_round_trip(t: CopilotTask)
    ensures
        text_to_doc(doc_text(copilot_pairs(t))) == Option::Some(copilot_pairs(t)),
        copilot_ok(copilot_pairs(t)),
        (match sget_opt_bool(copilot_pairs(t), "enable"@) {
            Result::Ok(v) => t.enable == v,
            Result::Err(_) => false,
        }),
        (match sget_opt_str(copilot_pairs(t), "filename"@) {
            Result::Ok(v) => opt_str_view(t.filename) == v,
            Result::Err(_) => false,
        }),
        (match sget_opt_bool(copilot_pairs(t), "formation"@) {
            Result::Ok(v) => t.formation == v,
            Result::Err(_) => false,
        }),
{
    let ps = copilot_pairs(t);
    copilot_get_enable(t);
    copilot_get_filename(t);
    copilot_get_formation(t);
    lemma_blocks_valid("enable"@);
    lemma_blocks_valid("filename"@);
    lemma_blocks_valid("formation"@);
    let b1 = b_opt_bool("enable"@, t.enable);
    let b2 = b_opt_str("filename"@, opt_str_view(t.filename));
    let b3 = b_opt_bool("formation"@, t.formation);
    let p1 = b1;
    let p2 = p1 + b2;
    let p3 = p2 + b3;
    assert(doc_valid(p1));
    lemma_doc_valid_concat(p1, b2);
    lemma_doc_valid_concat(p2, b3);
    assert(ps == p3);
    lemma_doc_round_trip(ps);
}

/// Parameters of the SSSCopilot task.
#[derive(Clone, Debug, PartialEq)]
pub struct SSSCopilotTask {
    /// The optional boolean field `enable`.
    pub enable: Option<bool>,
    /// The optional string field `filename`.
    pub filename: Option<String>,
    /// The optional integer field `loop_times`.
    pub loop_times: Option<i32>,
}

/// The document members of a SSSCopilot task, in writing order.
pub open spec fn ssscopilot_pairs(t: SSSCopilotTask) -> Seq<(Seq<char>, JsonV)> {
    b_opt_bool("enable"@, t.enable) + b_opt_str("filename"@, opt_str_view(t.filename)) + b_opt_int("loop_times"@, t.loop_times)
}

/// Whether every known key of a parsed document holds the right shape
/// for the SSSCopilot task, with every required key present.
pub open spec fn ssscopilot_ok(pairs: Seq<(Seq<char>, JsonV)>) -> bool {
    sget_opt_bool(pairs, "enable"@) is Ok
    && sget_opt_str(pairs, "filename"@) is Ok
    && sget_opt_int(pairs, "loop_times"@) is Ok
}

/// The first field error met reading a parsed document as a SSSCopilot task.
pub open spec fn ssscopilot_first_err(pairs: Seq<(Seq<char>, JsonV)>) -> TaskError {
    match sget_opt_bool(pairs, "enable"@) {
        Result::Err(e) => e,
        Result::Ok(_) => match sget_opt_str(pairs, "filename"@) {
        Result::Err(e) => e,
        Result::Ok(_) => match sget_opt_int(pairs, "loop_times"@) {
        Result::Err(e) => e,
        Result::Ok(_) => TaskError::WrongType,
    },
    },
    }
}

impl SSSCopilotTask {
    /// The stable type tag the engine knows the task by.
    pub fn task_type(&self) -> (r: &'static str)
        ensures
            r@ == "SSSCopilot"@,
    {
        "SSSCopilot"
    }

    /// The stable human-readable name of the task kind.
    pub fn task_name(&self) -> (r: &'static str)
        ensures
            r@ == "自动抄保全作业"@,
    {
        "自动抄保全作业"
    }

    /// The canonical JSON parameter string: present fields only, in
    /// declaration order.
    pub fn to_json(&self) -> (r: String)
        ensures
            r@ == doc_text(ssscopilot_pairs(*self)),
    {
        let mut out: Vec<(String, Json)> = Vec::new();
        proof {
            assert(doc_view(out@) =~= Seq::<(Seq<char>, JsonV)>::empty());
        }
        push_opt_bool(&mut out, "enable", &self.enable);
        push_opt_str(&mut out, "filename", &self.filename);
        push_opt_int(&mut out, "loop_times", &self.loop_times);
        proof {
            assert(doc_view(out@) =~= ssscopilot_pairs(*self));
        }
        write_doc(&out)
    }

    /// Read a task back from a canonical JSON parameter string.
    pub fn from_json(s: &str) -> (r: Result<SSSCopilotTask, TaskError>)
        ensures
            match text_to_doc(s@) {
                Option::None => r == Result::<SSSCopilotTask, TaskError>::Err(TaskError::NotCanonical),
                Option::Some(pairs) => if ssscopilot_ok(pairs) {
                    &&& r is Ok
                    &&& (match (r, sget_opt_bool(pairs, "enable"@)) {
                        (Result::Ok(t), Result::Ok(v)) => t.enable == v,
                        _ => false,
                    })
                    &&& (match (r, sget_opt_str(pairs, "filename"@)) {
                        (Result::Ok(t), Result::Ok(v)) => opt_str_view(t.filename) == v,
                        _ => false,
                    })
                    &&& (match (r, sget_opt_int(pairs, "loop_times"@)) {
                        (Result::Ok(t), Result::Ok(v)) => t.loop_times == v,
                        _ => false,
                    })
                } else {
                    r == Result::<SSSCopilotTask, TaskError>::Err(ssscopilot_first_err(pairs))
                },
            },
    {
        let pairs = match parse_doc(s) {
            Option::Some(p) => p,
            Option::None => {
                return Result::Err(TaskError::NotCanonical);
            },
        };
        let enable = match get_opt_bool(&pairs, "enable") {
            Result::Ok(v) => v,
            Result::Err(e) => {
                return Result::Err(e);
            },
        };
        let filename = match get_opt_str(&pairs, "filename") {
            Result::Ok(v) => v,
            Result::Err(e) => {
                return Result::Err(e);
            },
        };
        let loop_times = match get_opt_int(&pairs, "loop_times") {
            Result::Ok(v) => v,
            Result::Err(e) => {
                return Result::Err(e);
            },
        };
        Result::Ok(SSSCopilotTask { enable, filename, loop_times })
    }

    /// A task with no field set.
    pub fn new() -> (r: Self)
        ensures
            r.enable is None,
            r.filename is None,
            r.loop_times is None,
    {
        SSSCopilotTask { enable: Option::None, filename: Option::None, loop_times: Option::None }
    }

    /// A builder with no field set.
    pub fn builder() -> (r: SSSCopilotTaskBuilder)
        ensures
            r.enable is None,
            r.filename is None,
            r.loop_times is None,
    {
        SSSCopilotTaskBuilder { enable: Option::None, filename: Option::None, loop_times: Option::None }
    }
}

/// Step-by-step construction of a SSSCopilot task.
pub struct SSSCopilotTaskBuilder {
    /// The optional boolean field `enable`, once set.
    pub enable: Option<bool>,
    /// The optional string field `filename`, once set.
    pub filename: Option<String>,
    /// The optional integer field `loop_times`, once set.
    pub loop_times: Option<i32>,
}

impl SSSCopilotTaskBuilder {
    /// Set the optional boolean field `enable`.
    pub fn enable(self, enable: bool) -> (r: Self)
        ensures
            r.enable == Option::Some(enable),
            r.filename == self.filename,
            r.loop_times == self.loop_times,
    {
        let mut this = self;
        this.enable = Option::Some(enable);
        this
    }

    /// Set the optional string field `filename`.
    pub fn filename(self, filename: &str) -> (r: Self)
        ensures
            (r.filename matches Option::Some(s) && s@ == filename@),
            r.enable == self.enable,
            r.loop_times == self.loop_times,
    {
        let mut this = self;
        this.filename = Option::Some(filename.to_owned());
        this
    }

    /// Set the optional integer field `loop_times`.
    pub fn loop_times(self, loop_times: i32) -> (r: Self)
        ensures
            r.loop_times == Option::Some(loop_times),
            r.enable == self.enable,
            r.filename == self.filename,
    {
        let mut this = self;
        this.loop_times = Option::Some(loop_times);
        this
    }

    /// The finished task.
    pub fn build(self) -> (r: SSSCopilotTask)
        ensures
            r.enable == self.enable,
            r.filename == self.filename,
            r.loop_times == self.loop_times,
    {
        SSSCopilotTask { enable: self.enable, filename: self.filename, loop_times: self.loop_times } 
    }
}

/// What lookup of `enable` finds in the members of a SSSCopilot task.
proof fn ssscopilot_get_enable(t: SSSCopilotTask)
    ensures
        doc_get(ssscopilot_pairs(t), "enable"@) == (match t.enable { Option::None => Option::<JsonV>::None, Option::Some(b) => Option::Some(JsonV::Sc(ScalarV::Bool(b))) }),
{
    reveal_strlit("enable");
    reveal_strlit("filename");
    reveal_strlit("loop_times");
    assert("enable"@.len() != "filename"@.len());
    assert("enable"@ != "filename"@);
    assert("enable"@.len() != "loop_times"@.len());
    assert("enable"@ != "loop_times"@);
    let b1 = b_opt_bool("enable"@, t.enable);
    let b2 = b_opt_str("filename"@, opt_str_view(t.filename));
    let b3 = b_opt_int("loop_times"@, t.loop_times);
    let p1 = b1;
    let p2 = p1 + b2;
    let p3 = p2 + b3;
    assert(ssscopilot_pairs(t) == p3);
    lemma_doc_get_block(b1, "enable"@);
    lemma_doc_get_block(b2, "enable"@);
    lemma_doc_get_block(b3, "enable"@);
    lemma_doc_get_concat(p2, b3, "enable"@);
    lemma_doc_get_concat(p1, b2, "enable"@);
}

/// What lookup of `filename` finds in the members of a SSSCopilot task.
proof fn ssscopilot_get_filename(t: SSSCopilotTask)
    ensures
        doc_get(ssscopilot_pairs(t), "filename"@) == (match t.filename { Option::None => Option::<JsonV>::None, Option::Some(s) => Option::Some(JsonV::Sc(ScalarV::Str(s@))) }),
{
    reveal_strlit("enable");
    reveal_strlit("filename");
    reveal_strlit("loop_times");
    assert("filename"@.len() != "enable"@.len());
    assert("filename"@ != "enable"@);
    assert("filename"@.len() != "loop_times"@.len());
    assert("filename"@ != "loop_times"@);
    let b1 = b_opt_bool("enable"@, t.enable);
    let b2 = b_opt_str("filename"@, opt_str_view(t.filename));
    let b3 = b_opt_int("loop_times"@, t.loop_times);
    let p1 = b1;
    let p2 = p1 + b2;
    let p3 = p2 + b3;
    assert(ssscopilot_pairs(t) == p3);
    lemma_doc_get_block(b1, "filename"@);
    lemma_doc_get_block(b2, "filename"@);
    lemma_doc_get_block(b3, "filename"@);
    lemma_doc_get_concat(p2, b3, "filename"@);
    lemma_doc_get_concat(p1, b2, "filename"@);
}

/// What lookup of `loop_times` finds in the members of a SSSCopilot task.
proof fn ssscopilot_get_loop_times(t: SSSCopilotTask)
    ensures
        doc_get(ssscopilot_pairs(t), "loop_times"@) == (match t.loop_times { Option::None => Option::<JsonV>::None, Option::Some(i) => Option::Some(JsonV::Sc(ScalarV::Int(i as int))) }),
{
    reveal_strlit("enable");
    reveal_strlit("filename");
    reveal_strlit("loop_times");
    assert("loop_times"@.len() != "enable"@.len());
    assert("loop_times"@ != "enable"@);
    assert("loop_times"@.len() != "filename"@.len());
    assert("loop_times"@ != "filename"@);
    let b1 = b_opt_bool("enable"@, t.enable);
    let b2 = b_opt_str("filename"@, opt_str_view(t.filename));
    let b3 = b_opt_int("loop_times"@, t.loop_times);
    let p1 = b1;
    let p2 = p1 + b2;
    let p3 = p2 + b3;
    assert(ssscopilot_pairs(t) == p3);
    lemma_doc_get_block(b1, "loop_times"@);
    lemma_doc_get_block(b2, "loop_times"@);
    lemma_doc_get_block(b3, "loop_times"@);
    lemma_doc_get_concat(p2, b3, "loop_times"@);
    lemma_doc_get_concat(p1, b2, "loop_times"@);
}

/// Writing a SSSCopilot task and reading the text back yields every
/// field unchanged.
pub proof fn lemma_ssscopilot_round_trip(t: SSSCopilotTask)
    ensures
        text_to_doc(doc_text(ssscopilot_pairs(t))) == Option::Some(ssscopilot_pairs(t)),
        ssscopilot_ok(ssscopilot_pairs(t)),
        (match sget_opt_bool(ssscopilot_pairs(t), "enable"@) {
            Result::Ok(v) => t.enable == v,
            Result::Err(_) => false,
        }),
        (match sget_opt_str(ssscopilot_pairs(t), "filename"@) {
            Result::Ok(v) => opt_str_view(t.filename) == v,
            Result::Err(_) => false,
        }),
        (match sget_opt_int(ssscopilot_pairs(t), "loop_times"@) {
            Result::Ok(v) => t.loop_times == v,
            Result::Err(_) => false,
        }),
{
    let ps = ssscopilot_pairs(t);
    ssscopilot_get_enable(t);
    ssscopilot_get_filename(t);
    ssscopilot_get_loop_times(t);
    lemma_blocks_valid("enable"@);
    lemma_blocks_valid("filename"@);
    lemma_blocks_valid("loop_times"@);
    let b1 = b_opt_bool("enable"@, t.enable);
    let b2 = b_opt_str("filename"@, opt_str_view(t.filename));
    let b3 = b_opt_int("loop_times"@, t.loop_times);
    let p1 = b1;
    let p2 = p1 + b2;
    let p3 = p2 + b3;
    assert(doc_valid(p1));
    lemma_doc_valid_concat(p1, b2);
    lemma_doc_valid_concat(p2, b3);
    assert(ps == p3);
    lemma_doc_round_trip(ps);
}

/// Parameters of the Depot task.
#[derive(Clone, Debug, PartialEq)]
pub struct DepotTask {
    /// The optional boolean field `enable`.
    pub enable: Option<bool>,
}

/// The document members of a Depot task, in writing order.
pub open spec fn depot_pairs(t: DepotTask) -> Seq<(Seq<char>, JsonV)> {
    b_opt_bool("enable"@, t.enable)
}

/// Whether every known key of a parsed document holds the right shape
/// for the Depot task, with every required key present.
pub open spec fn depot_ok(pairs: Seq<(Seq<char>, JsonV)>) -> bool {
    sget_opt_bool(pairs, "enable"@) is Ok
}

/// The first field error met reading a parsed document as a Depot task.
pub open spec fn depot_first_err(pairs: Seq<(Seq<char>, JsonV)>) -> TaskError {
    match sget_opt_bool(pairs, "enable"@) {
        Result::Err(e) => e,
        Result::Ok(_) => TaskError::WrongType,
    }
}

impl DepotTask {
    /// The stable type tag the engine knows the task by.
    pub fn task_type(&self) -> (r: &'static str)
        ensures
            r@ == "Depot"@,
    {
        "Depot"
    }

    /// The stable human-readable name of the task kind.
    pub fn task_name(&self) -> (r: &'static str)
        ensures
            r@ == "仓库识别"@,
    {
        "仓库识别"
    }

    /// The canonical JSON parameter string: present fields only, in
    /// declaration order.
    pub fn to_json(&self) -> (r: String)
        ensures
            r@ == doc_text(depot_pairs(*self)),
    {
        let mut out: Vec<(String, Json)> = Vec::new();
        proof {
            assert(doc_view(out@) =~= Seq::<(Seq<char>, JsonV)>::empty());
        }
        push_opt_bool(&mut out, "enable", &self.enable);
        proof {
            assert(doc_view(out@) =~= depot_pairs(*self));
        }
        write_doc(&out)
    }

    /// Read a task back from a canonical JSON parameter string.
    pub fn from_json(s: &str) -> (r: Result<DepotTask, TaskError>)
        ensures
            match text_to_doc(s@) {
                Option::None => r == Result::<DepotTask, TaskError>::Err(TaskError::NotCanonical),
                Option::Some(pairs) => if depot_ok(pairs) {
                    &&& r is Ok
                    &&& (match (r, sget_opt_bool(pairs, "enable"@)) {
                        (Result::Ok(t), Result::Ok(v)) => t.enable == v,
                        _ => false,
                    })
                } else {
                    r == Result::<DepotTask, TaskError>::Err(depot_first_err(pairs))
                },
            },
    {
        let pairs = match parse_doc(s) {
            Option::Some(p) => p,
            Option::None => {
                return Result::Err(TaskError::NotCanonical);
            },
        };
        let enable = match get_opt_bool(&pairs, "enable") {
            Result::Ok(v) => v,
            Result::Err(e) => {
                return Result::Err(e);
            },
        };
        Result::Ok(DepotTask { enable })
    }

    /// A task with no field set.
    pub fn new() -> (r: Self)
        ensures
            r.enable is None,
    {
        DepotTask { enable: Option::None }
    }

    /// A builder with no field set.
    pub fn builder() -> (r: DepotTaskBuilder)
        ensures
            r.enable is None,
    {
        DepotTaskBuilder { enable: Option::None }
    }
}

/// Step-by-step construction of a Depot task.
pub struct DepotTaskBuilder {
    /// The optional boolean field `enable`, once set.
    pub enable: Option<bool>,
}

impl DepotTaskBuilder {
    /// Set the optional boolean field `enable`.
    pub fn enable(self, enable: bool) -> (r: Self)
        ensures
            r.enable == Option::Some(enable),
    {
        let mut this = self;
        this.enable = Option::Some(enable);
        this
    }

    /// The finished task.
    pub fn build(self) -> (r: DepotTask)
        ensures
            r.enable == self.enable,
    {
        DepotTask { enable: self.enable } 
    }
}

/// What lookup of `enable` finds in the members of a Depot task.
proof fn depot_get_enable(t: DepotTask)
    ensures
        doc_get(depot_pairs(t), "enable"@) == (match t.enable { Option::None => Option::<JsonV>::None, Option::Some(b) => Option::Some(JsonV::Sc(ScalarV::Bool(b))) }),
{
    reveal_strlit("enable");
    let b1 = b_opt_bool("enable"@, t.enable);
    let p1 = b1;
    assert(depot_pairs(t) == p1);
    lemma_doc_get_block(b1, "enable"@);
}

/// Writing a Depot task and reading the text back yields every
/// field unchanged.
pub proof fn lemma_depot_round_trip(t: DepotTask)
    ensures
        text_to_doc(doc_text(depot_pairs(t))) == Option::Some(depot_pairs(t)),
        depot_ok(depot_pairs(t)),
        (match sget_opt_bool(depot_pairs(t), "enable"@) {
            Result::Ok(v) => t.enable == v,
            Result::Err(_) => false,
        }),
{
    let ps = depot_pairs(t);
    depot_get_enable(t);
    lemma_blocks_valid("enable"@);
    let b1 = b_opt_bool("enable"@, t.enable);
    let p1 = b1;
    assert(doc_valid(p1));
    assert(ps == p1);
    lemma_doc_round_trip(ps);
}

/// Parameters of the OperBox task.
#[derive(Clone, Debug, PartialEq)]
pub struct OperBoxTask {
    /// The optional boolean field `enable`.
    pub enable: Option<bool>,
}

/// The document members of a OperBox task, in writing order.
pub open spec fn oper_box_pairs(t: OperBoxTask) -> Seq<(Seq<char>, JsonV)> {
    b_opt_bool("enable"@, t.enable)
}

/// Whether every known key of a parsed document holds the right shape
/// for the OperBox task, with every required key present.
pub open spec fn oper_box_ok(pairs: Seq<(Seq<char>, JsonV)>) -> bool {
    sget_opt_bool(pairs, "enable"@) is Ok
}

/// The first field error met reading a parsed document as a OperBox task.
pub open spec fn oper_box_first_err(pairs: Seq<(Seq<char>, JsonV)>) -> TaskError {
    match sget_opt_bool(pairs, "enable"@) {
        Result::Err(e) => e,
        Result::Ok(_) => TaskError::WrongType,
    }
}

impl OperBoxTask {
    /// The stable type tag the engine knows the task by.
    pub fn task_type(&self) -> (r: &'static str)
        ensures
            r@ == "OperBox"@,
    {
        "OperBox"
    }

    /// The stable human-readable name of the task kind.
    pub fn task_name(&self) -> (r: &'static str)
        ensures
            r@ == "干员 box 识别"@,
    {
        "干员 box 识别"
    }

    /// The canonical JSON parameter string: present fields only, in
    /// declaration order.
    pub fn to_json(&self) -> (r: String)
        ensures
            r@ == doc_text(oper_box_pairs(*self)),
    {
        let mut out: Vec<(String, Json)> = Vec::new();
        proof {
            assert(doc_view(out@) =~= Seq::<(Seq<char>, JsonV)>::empty());
        }
        push_opt_bool(&mut out, "enable", &self.enable);
        proof {
            assert(doc_view(out@) =~= oper_box_pairs(*self));
        }
        write_doc(&out)
    }

    /// Read a task back from a canonical JSON parameter string.
    pub fn from_json(s: &str) -> (r: Result<OperBoxTask, TaskError>)
        ensures
            match text_to_doc(s@) {
                Option::None => r == Result::<OperBoxTask, TaskError>::Err(TaskError::NotCanonical),
                Option::Some(pairs) => if oper_box_ok(pairs) {
                    &&& r is Ok
                    &&& (match (r, sget_opt_bool(pairs, "enable"@)) {
                        (Result::Ok(t), Result::Ok(v)) => t.enable == v,
                        _ => false,
                    })
                } else {
                    r == Result::<OperBoxTask, TaskError>::Err(oper_box_first_err(pairs))
                },
            },
    {
        let pairs = match parse_doc(s) {
            Option::Some(p) => p,
            Option::None => {
                return Result::Err(TaskError::NotCanonical);
            },
        };
        let enable = match get_opt_bool(&pairs, "enable") {
            Result::Ok(v) => v,
            Result::Err(e) => {
                return Result::Err(e);
            },
        };
        Result::Ok(OperBoxTask { enable })
    }

    /// A task with no field set.
    pub fn new() -> (r: Self)
        ensures
            r.enable is None,
    {
        OperBoxTask { enable: Option::None }
    }

    /// A builder with no field set.
    pub fn builder() -> (r: OperBoxTaskBuilder)
        ensures
            r.enable is None,
    {
        OperBoxTaskBuilder { enable: Option::None }
    }
}

/// Step-by-step construction of a OperBox task.
pub struct OperBoxTaskBuilder {
    /// The optional boolean field `enable`, once set.
    pub enable: Option<bool>,
}

impl OperBoxTaskBuilder {
    /// Set the optional boolean field `enable`.
    pub fn enable(self, enable: bool) -> (r: Self)
        ensures
            r.enable == Option::Some(enable),
    {
        let mut this = self;
        this.enable = Option::Some(enable);
        this
    }

    /// The finished task.
    pub fn build(self) -> (r: OperBoxTask)
        ensures
            r.enable == self.enable,
    {
        OperBoxTask { enable: self.enable } 
    }
}

/// What lookup of `enable` finds in the members of a OperBox task.
proof fn oper_box_get_enable(t: OperBoxTask)
    ensures
        doc_get(oper_box_pairs(t), "enable"@) == (match t.enable { Option::None => Option::<JsonV>::None, Option::Some(b) => Option::Some(JsonV::Sc(ScalarV::Bool(b))) }),
{
    reveal_strlit("enable");
    let b1 = b_opt_bool("enable"@, t.enable);
    let p1 = b1;
    assert(oper_box_pairs(t) == p1);
    lemma_doc_get_block(b1, "enable"@);
}

/// Writing a OperBox task and reading the text back yields every
/// field unchanged.
pub proof fn lemma_oper_box_round_trip(t: OperBoxTask)
    ensures
        text_to_doc(doc_text(oper_box_pairs(t))) == Option::Some(oper_box_pairs(t)),
        oper_box_ok(oper_box_pairs(t)),
        (match sget_opt_bool(oper_box_pairs(t), "enable"@) {
            Result::Ok(v) => t.enable == v,
            Result::Err(_) => false,
        }),
{
    let ps = oper_box_pairs(t);
    oper_box_get_enable(t);
    lemma_blocks_valid("enable"@);
    let b1 = b_opt_bool("enable"@, t.enable);
    let p1 = b1;
    assert(doc_valid(p1));
    assert(ps == p1);
    lemma_doc_round_trip(ps);
}

/// Parameters of the Reclamation task.
#[derive(Clone, Debug, PartialEq)]
pub struct ReclamationTask {
    /// The optional boolean field `enable`.
    pub enable: Option<bool>,
    /// The optional string field `theme`.
    pub theme: Option<String>,
    /// The optional integer field `mode`.
    pub mode: Option<i32>,
    /// The optional string-list field `tools_to_craft`.
    pub tools_to_craft: Option<Vec<String>>,
    /// The optional integer field `increment_mode`.
    pub increment_mode: Option<i32>,
    /// The optional integer field `num_craft_batches`.
    pub num_craft_batches: Option<i32>,
}

/// The document members of a Reclamation task, in writing order.
pub open spec fn reclamation_pairs(t: ReclamationTask) -> Seq<(Seq<char>, JsonV)> {
    b_opt_bool("enable"@, t.enable) + b_opt_str("theme"@, opt_str_view(t.theme)) + b_opt_int("mode"@, t.mode) + b_opt_str_list("tools_to_craft"@, (match t.tools_to_craft { Option::None => Option::None, Option::Some(l) => Option::Some(strs_view(l@)) })) + b_opt_int("increment_mode"@, t.increment_mode) + b_opt_int("num_craft_batches"@, t.num_craft_batches)
}

/// Whether every known key of a parsed document holds the right shape
/// for the Reclamation task, with every required key present.
pub open spec fn reclamation_ok(pairs: Seq<(Seq<char>, JsonV)>) -> bool {
    sget_opt_bool(pairs, "enable"@) is Ok
    && sget_opt_str(pairs, "theme"@) is Ok
    && sget_opt_int(pairs, "mode"@) is Ok
    && sget_opt_str_list(pairs, "tools_to_craft"@) is Ok
    && sget_opt_int(pairs, "increment_mode"@) is Ok
    && sget_opt_int(pairs, "num_craft_batches"@) is Ok
}

/// The first field error met reading a parsed document as a Reclamation task.
pub open spec fn reclamation_first_err(pairs: Seq<(Seq<char>, JsonV)>) -> TaskError {
    match sget_opt_bool(pairs, "enable"@) {
        Result::Err(e) => e,
        Result::Ok(_) => match sget_opt_str(pairs, "theme"@) {
        Result::Err(e) => e,
        Result::Ok(_) => match sget_opt_int(pairs, "mode"@) {
        Result::Err(e) => e,
        Result::Ok(_) => match sget_opt_str_list(pairs, "tools_to_craft"@) {
        Result::Err(e) => e,
        Result::Ok(_) => match sget_opt_int(pairs, "increment_mode"@) {
        Result::Err(e) => e,
        Result::Ok(_) => match sget_opt_int(pairs, "num_craft_batches"@) {
        Result::Err(e) => e,
        Result::Ok(_) => TaskError::WrongType,
    },
    },
    },
    },
    },
    }
}

impl ReclamationTask {
    /// The stable type tag the engine knows the task by.
    pub fn task_type(&self) -> (r: &'static str)
        ensures
            r@ == "Reclamation"@,
    {
        "Reclamation"
    }

    /// The stable human-readable name of the task kind.
    pub fn task_name(&self) -> (r: &'static str)
        ensures
            r@ == "生息演算"@,
    {
        "生息演算"
    }

    /// The canonical JSON parameter string: present fields only, in
    /// declaration order.
    pub fn to_json(&self) -> (r: String)
        ensures
            r@ == doc_text(reclamation_pairs(*self)),
    {
        let mut out: Vec<(String, Json)> = Vec::new();
        proof {
            assert(doc_view(out@) =~= Seq::<(Seq<char>, JsonV)>::empty());
        }
        push_opt_bool(&mut out, "enable", &self.enable);
        push_opt_str(&mut out, "theme", &self.theme);
        push_opt_int(&mut out, "mode", &self.mode);
        push_opt_str_list(&mut out, "tools_to_craft", &self.tools_to_craft);
        push_opt_int(&mut out, "increment_mode", &self.increment_mode);
        push_opt_int(&mut out, "num_craft_batches", &self.num_craft_batches);
        proof {
            assert(doc_view(out@) =~= reclamation_pairs(*self));
        }
        write_doc(&out)
    }

    /// Read a task back from a canonical JSON parameter string.
    pub fn from_json(s: &str) -> (r: Result<ReclamationTask, TaskError>)
        ensures
            match text_to_doc(s@) {
                Option::None => r == Result::<ReclamationTask, TaskError>::Err(TaskError::NotCanonical),
                Option::Some(pairs) => if reclamation_ok(pairs) {
                    &&& r is Ok
                    &&& (match (r, sget_opt_bool(pairs, "enable"@)) {
                        (Result::Ok(t), Result::Ok(v)) => t.enable == v,
                        _ => false,
                    })
                    &&& (match (r, sget_opt_str(pairs, "theme"@)) {
                        (Result::Ok(t), Result::Ok(v)) => opt_str_view(t.theme) == v,
                        _ => false,
                    })
                    &&& (match (r, sget_opt_int(pairs, "mode"@)) {
                        (Result::Ok(t), Result::Ok(v)) => t.mode == v,
                        _ => false,
                    })
                    &&& (match (r, sget_opt_str_list(pairs, "tools_to_craft"@)) {
                        (Result::Ok(t), Result::Ok(v)) => v == (match t.tools_to_craft { Option::None => Option::None, Option::Some(l) => Option::Some(strs_view(l@)) }),
                        _ => false,
                    })
                    &&& (match (r, sget_opt_int(pairs, "increment_mode"@)) {
                        (Result::Ok(t), Result::Ok(v)) => t.increment_mode == v,
                        _ => false,
                    })
                    &&& (match (r, sget_opt_int(pairs, "num_craft_batches"@)) {
                        (Result::Ok(t), Result::Ok(v)) => t.num_craft_batches == v,
                        _ => false,
                    })
                } else {
                    r == Result::<ReclamationTask, TaskError>::Err(reclamation_first_err(pairs))
                },
            },
    {
        let pairs = match parse_doc(s) {
            Option::Some(p) => p,
            Option::None => {
                return Result::Err(TaskError::NotCanonical);
            },
        };
        let enable = match get_opt_bool(&pairs, "enable") {
            Result::Ok(v) => v,
            Result::Err(e) => {
                return Result::Err(e);
            },
        };
        let theme = match get_opt_str(&pairs, "theme") {
            Result::Ok(v) => v,
            Result::Err(e) => {
                return Result::Err(e);
            },
        };
        let mode = match get_opt_int(&pairs, "mode") {
            Result::Ok(v) => v,
            Result::Err(e) => {
                return Result::Err(e);
            },
        };
        let tools_to_craft = match get_opt_str_list(&pairs, "tools_to_craft") {
            Result::Ok(v) => v,
            Result::Err(e) => {
                return Result::Err(e);
            },
        };
        let increment_mode = match get_opt_int(&pairs, "increment_mode") {
            Result::Ok(v) => v,
            Result::Err(e) => {
                return Result::Err(e);
            },
        };
        let num_craft_batches = match get_opt_int(&pairs, "num_craft_batches") {
            Result::Ok(v) => v,
            Result::Err(e) => {
                return Result::Err(e);
            },
        };
        Result::Ok(ReclamationTask { enable, theme, mode, tools_to_craft, increment_mode, num_craft_batches })
    }

    /// A task with no field set.
    pub fn new() -> (r: Self)
        ensures
            r.enable is None,
            r.theme is None,
            r.mode is None,
            r.tools_to_craft is None,
            r.increment_mode is None,
            r.num_craft_batches is None,
    {
        ReclamationTask { enable: Option::None, theme: Option::None, mode: Option::None, tools_to_craft: Option::None, increment_mode: Option::None, num_craft_batches: Option::None }
    }

    /// A builder with no field set.
    pub fn builder() -> (r: ReclamationTaskBuilder)
        ensures
            r.enable is None,
            r.theme is None,
            r.mode is None,
            r.tools_to_craft is None,
            r.increment_mode is None,
            r.num_craft_batches is None,
    {
        ReclamationTaskBuilder { enable: Option::None, theme: Option::None, mode: Option::None, tools_to_craft: Option::None, increment_mode: Option::None, num_craft_batches: Option::None }
    }
}

/// Step-by-step construction of a Reclamation task.
pub struct ReclamationTaskBuilder {
    /// The optional boolean field `enable`, once set.
    pub enable: Option<bool>,
    /// The optional string field `theme`, once set.
    pub theme: Option<String>,
    /// The optional integer field `mode`, once set.
    pub mode: Option<i32>,
    /// The optional string-list field `tools_to_craft`, once set.
    pub tools_to_craft: Option<Vec<String>>,
    /// The optional integer field `increment_mode`, once set.
    pub increment_mode: Option<i32>,
    /// The optional integer field `num_craft_batches`, once set.
    pub num_craft_batches: Option<i32>,
}

impl ReclamationTaskBuilder {
    /// Set the optional boolean field `enable`.
    pub fn enable(self, enable: bool) -> (r: Self)
        ensures
            r.enable == Option::Some(enable),
            r.theme == self.theme,
            r.mode == self.mode,
            r.tools_to_craft == self.tools_to_craft,
            r.increment_mode == self.increment_mode,
            r.num_craft_batches == self.num_craft_batches,
    {
        let mut this = self;
        this.enable = Option::Some(enable);
        this
    }

    /// Set the optional string field `theme`.
    pub fn theme(self, theme: &str) -> (r: Self)
        ensures
            (r.theme matches Option::Some(s) && s@ == theme@),
            r.enable == self.enable,
            r.mode == self.mode,
            r.tools_to_craft == self.tools_to_craft,
            r.increment_mode == self.increment_mode,
            r.num_craft_batches == self.num_craft_batches,
    {
        let mut this = self;
        this.theme = Option::Some(theme.to_owned());
        this
    }

    /// Set the optional integer field `mode`.
    pub fn mode(self, mode: i32) -> (r: Self)
        ensures
            r.mode == Option::Some(mode),
            r.enable == self.enable,
            r.theme == self.theme,
            r.tools_to_craft == self.tools_to_craft,
            r.increment_mode == self.increment_mode,
            r.num_craft_batches == self.num_craft_batches,
    {
        let mut this = self;
        this.mode = Option::Some(mode);
        this
    }

    /// Set the optional string-list field `tools_to_craft`.
    pub fn tools_to_craft(self, tools_to_craft: Vec<String>) -> (r: Self)
        ensures
            r.tools_to_craft == Option::Some(tools_to_craft),
            r.enable == self.enable,
            r.theme == self.theme,
            r.mode == self.mode,
            r.increment_mode == self.increment_mode,
            r.num_craft_batches == self.num_craft_batches,
    {
        let mut this = self;
        this.tools_to_craft = Option::Some(tools_to_craft);
        this
    }

    /// Set the optional integer field `increment_mode`.
    pub fn increment_mode(self, increment_mode: i32) -> (r: Self)
        ensures
            r.increment_mode == Option::Some(increment_mode),
            r.enable == self.enable,
            r.theme == self.theme,
            r.mode == self.mode,
            r.tools_to_craft == self.tools_to_craft,
            r.num_craft_batches == self.num_craft_batches,
    {
        let mut this = self;
        this.increment_mode = Option::Some(increment_mode);
        this
    }

    /// Set the optional integer field `num_craft_batches`.
    pub fn num_craft_batches(self, num_craft_batches: i32) -> (r: Self)
        ensures
            r.num_craft_batches == Option::Some(num_craft_batches),
            r.enable == self.enable,
            r.theme == self.theme,
            r.mode == self.mode,
            r.tools_to_craft == self.tools_to_craft,
            r.increment_mode == self.increment_mode,
    {
        let mut this = self;
        this.num_craft_batches = Option::Some(num_craft_batches);
        this
    }

    /// The finished task.
    pub fn build(self) -> (r: ReclamationTask)
        ensures
            r.enable == self.enable,
            r.theme == self.theme,
            r.mode == self.mode,
            r.tools_to_craft == self.tools_to_craft,
            r.increment_mode == self.increment_mode,
            r.num_craft_batches == self.num_craft_batches,
    {
        ReclamationTask { enable: self.enable, theme: self.theme, mode: self.mode, tools_to_craft: self.tools_to_craft, increment_mode: self.increment_mode, num_craft_batches: self.num_craft_batches } 
    }
}

/// What lookup of `enable` finds in the members of a Reclamation task.
proof fn reclamation_get_enable(t: ReclamationTask)
    ensures
        doc_get(reclamation_pairs(t), "enable"@) == (match t.enable { Option::None => Option::<JsonV>::None, Option::Some(b) => Option::Some(JsonV::Sc(ScalarV::Bool(b))) }),
{
    reveal_strlit("enable");
    reveal_strlit("theme");
    reveal_strlit("mode");
    reveal_strlit("tools_to_craft");
    reveal_strlit("increment_mode");
    reveal_strlit("num_craft_batches");
    assert("enable"@.len() != "theme"@.len());
    assert("enable"@ != "theme"@);
    assert("enable"@.len() != "mode"@.len());
    assert("enable"@ != "mode"@);
    assert("enable"@.len() != "tools_to_craft"@.len());
    assert("enable"@ != "tools_to_craft"@);
    assert("enable"@.len() != "increment_mode"@.len());
    assert("enable"@ != "increment_mode"@);
    assert("enable"@.len() != "num_craft_batches"@.len());
    assert("enable"@ != "num_craft_batches"@);
    let b1 = b_opt_bool("enable"@, t.enable);
    let b2 = b_opt_str("theme"@, opt_str_view(t.theme));
    let b3 = b_opt_int("mode"@, t.mode);
    let b4 = b_opt_str_list("tools_to_craft"@, (match t.tools_to_craft { Option::None => Option::None, Option::Some(l) => Option::Some(strs_view(l@)) }));
    let b5 = b_opt_int("increment_mode"@, t.increment_mode);
    let b6 = b_opt_int("num_craft_batches"@, t.num_craft_batches);
    let p1 = b1;
    let p2 = p1 + b2;
    let p3 = p2 + b3;
    let p4 = p3 + b4;
    let p5 = p4 + b5;
    let p6 = p5 + b6;
    assert(reclamation_pairs(t) == p6);
    lemma_doc_get_block(b1, "enable"@);
    lemma_doc_get_block(b2, "enable"@);
    lemma_doc_get_block(b3, "enable"@);
    lemma_doc_get_block(b4, "enable"@);
    lemma_doc_get_block(b5, "enable"@);
    lemma_doc_get_block(b6, "enable"@);
    lemma_doc_get_concat(p5, b6, "enable"@);
    lemma_doc_get_concat(p4, b5, "enable"@);
    lemma_doc_get_concat(p3, b4, "enable"@);
    lemma_doc_get_concat(p2, b3, "enable"@);
    lemma_doc_get_concat(p1, b2, "enable"@);
}

/// What lookup of `theme` finds in the members of a Reclamation task.
proof fn reclamation_get_theme(t: ReclamationTask)
    ensures
        doc_get(reclamation_pairs(t), "theme"@) == (match t.theme { Option::None => Option::<JsonV>::None, Option::Some(s) => Option::Some(JsonV::Sc(ScalarV::Str(s@))) }),
{
    reveal_strlit("enable");
    reveal_strlit("theme");
    reveal_strlit("mode");
    reveal_strlit("tools_to_craft");
    reveal_strlit("increment_mode");
    reveal_strlit("num_craft_batches");
    assert("theme"@.len() != "enable"@.len());
    assert("theme"@ != "enable"@);
    assert("theme"@.len() != "mode"@.len());
    assert("theme"@ != "mode"@);
    assert("theme"@.len() != "tools_to_craft"@.len());
    assert("theme"@ != "tools_to_craft"@);
    assert("theme"@.len() != "increment_mode"@.len());
    assert("theme"@ != "increment_mode"@);
    assert("theme"@.len() != "num_craft_batches"@.len());
    assert("theme"@ != "num_craft_batches"@);
    let b1 = b_opt_bool("enable"@, t.enable);
    let b2 = b_opt_str("theme"@, opt_str_view(t.theme));
    let b3 = b_opt_int("mode"@, t.mode);
    let b4 = b_opt_str_list("tools_to_craft"@, (match t.tools_to_craft { Option::None => Option::None, Option::Some(l) => Option::Some(strs_view(l@)) }));
    let b5 = b_opt_int("increment_mode"@, t.increment_mode);
    let b6 = b_opt_int("num_craft_batches"@, t.num_craft_batches);
    let p1 = b1;
    let p2 = p1 + b2;
    let p3 = p2 + b3;
    let p4 = p3 + b4;
    let p5 = p4 + b5;
    let p6 = p5 + b6;
    assert(reclamation_pairs(t) == p6);
    lemma_doc_get_block(b1, "theme"@);
    lemma_doc_get_block(b2, "theme"@);
    lemma_doc_get_block(b3, "theme"@);
    lemma_doc_get_block(b4, "theme"@);
    lemma_doc_get_block(b5, "theme"@);
    lemma_doc_get_block(b6, "theme"@);
    lemma_doc_get_concat(p5, b6, "theme"@);
    lemma_doc_get_concat(p4, b5, "theme"@);
    lemma_doc_get_concat(p3, b4, "theme"@);
    lemma_doc_get_concat(p2, b3, "theme"@);
    lemma_doc_get_concat(p1, b2, "theme"@);
}

/// What lookup of `mode` finds in the members of a Reclamation task.
proof fn reclamation_get_mode(t: ReclamationTask)
    ensures
        doc_get(reclamation_pairs(t), "mode"@) == (match t.mode { Option::None => Option::<JsonV>::None, Option::Some(i) => Option::Some(JsonV::Sc(ScalarV::Int(i as int))) }),
{
    reveal_strlit("enable");
    reveal_strlit("theme");
    reveal_strlit("mode");
    reveal_strlit("tools_to_craft");
    reveal_strlit("increment_mode");
    reveal_strlit("num_craft_batches");
    assert("mode"@.len() != "enable"@.len());
    assert("mode"@ != "enable"@);
    assert("mode"@.len() != "theme"@.len());
    assert("mode"@ != "theme"@);
    assert("mode"@.len() != "tools_to_craft"@.len());
    assert("mode"@ != "tools_to_craft"@);
    assert("mode"@.len() != "increment_mode"@.len());
    assert("mode"@ != "increment_mode"@);
    assert("mode"@.len() != "num_craft_batches"@.len());
    assert("mode"@ != "num_craft_batches"@);
    let b1 = b_opt_bool("enable"@, t.enable);
    let b2 = b_opt_str("theme"@, opt_str_view(t.theme));
    let b3 = b_opt_int("mode"@, t.mode);
    let b4 = b_opt_str_list("tools_to_craft"@, (match t.tools_to_craft { Option::None => Option::None, Option::Some(l) => Option::Some(strs_view(l@)) }));
    let b5 = b_opt_int("increment_mode"@, t.increment_mode);
    let b6 = b_opt_int("num_craft_batches"@, t.num_craft_batches);
    let p1 = b1;
    let p2 = p1 + b2;
    let p3 = p2 + b3;
    let p4 = p3 + b4;
    let p5 = p4 + b5;
    let p6 = p5 + b6;
    assert(reclamation_pairs(t) == p6);
    lemma_doc_get_block(b1, "mode"@);
    lemma_doc_get_block(b2, "mode"@);
    lemma_doc_get_block(b3, "mode"@);
    lemma_doc_get_block(b4, "mode"@);
    lemma_doc_get_block(b5, "mode"@);
    lemma_doc_get_block(b6, "mode"@);
    lemma_doc_get_concat(p5, b6, "mode"@);
    lemma_doc_get_concat(p4, b5, "mode"@);
    lemma_doc_get_concat(p3, b4, "mode"@);
    lemma_doc_get_concat(p2, b3, "mode"@);
    lemma_doc_get_concat(p1, b2, "mode"@);
}

/// What lookup of `tools_to_craft` finds in the members of a Reclamation task.
proof fn reclamation_get_tools_to_craft(t: ReclamationTask)
    ensures
        doc_get(reclamation_pairs(t), "tools_to_craft"@) == (match t.tools_to_craft { Option::None => Option::<JsonV>::None, Option::Some(l) => Option::Some(JsonV::Arr(jv_str_list(strs_view(l@)))) }),
{
    reveal_strlit("enable");
    reveal_strlit("theme");
    reveal_strlit("mode");
    reveal_strlit("tools_to_craft");
    reveal_strlit("increment_mode");
    reveal_strlit("num_craft_batches");
    assert("tools_to_craft"@.len() != "enable"@.len());
    assert("tools_to_craft"@ != "enable"@);
    assert("tools_to_craft"@.len() != "theme"@.len());
    assert("tools_to_craft"@ != "theme"@);
    assert("tools_to_craft"@.len() != "mode"@.len());
    assert("tools_to_craft"@ != "mode"@);
    assert("tools_to_craft"@[0] != "increment_mode"@[0]);
    assert("tools_to_craft"@ != "increment_mode"@);
    assert("tools_to_craft"@.len() != "num_craft_batches"@.len());
    assert("tools_to_craft"@ != "num_craft_batches"@);
    let b1 = b_opt_bool("enable"@, t.enable);
    let b2 = b_opt_str("theme"@, opt_str_view(t.theme));
    let b3 = b_opt_int("mode"@, t.mode);
    let b4 = b_opt_str_list("tools_to_craft"@, (match t.tools_to_craft { Option::None => Option::None, Option::Some(l) => Option::Some(strs_view(l@)) }));
    let b5 = b_opt_int("increment_mode"@, t.increment_mode);
    let b6 = b_opt_int("num_craft_batches"@, t.num_craft_batches);
    let p1 = b1;
    let p2 = p1 + b2;
    let p3 = p2 + b3;
    let p4 = p3 + b4;
    let p5 = p4 + b5;
    let p6 = p5 + b6;
    assert(reclamation_pairs(t) == p6);
    lemma_doc_get_block(b1, "tools_to_craft"@);
    lemma_doc_get_block(b2, "tools_to_craft"@);
    lemma_doc_get_block(b3, "tools_to_craft"@);
    lemma_doc_get_block(b4, "tools_to_craft"@);
    lemma_doc_get_block(b5, "tools_to_craft"@);
    lemma_doc_get_block(b6, "tools_to_craft"@);
    lemma_doc_get_concat(p5, b6, "tools_to_craft"@);
    lemma_doc_get_concat(p4, b5, "tools_to_craft"@);
    lemma_doc_get_concat(p3, b4, "tools_to_craft"@);
    lemma_doc_get_concat(p2, b3, "tools_to_craft"@);
    lemma_doc_get_concat(p1, b2, "tools_to_craft"@);
}

/// What lookup of `increment_mode` finds in the members of a Reclamation task.
proof fn reclamation_get_increment_mode(t: ReclamationTask)
    ensures
        doc_get(reclamation_pairs(t), "increment_mode"@) == (match t.increment_mode { Option::None => Option::<JsonV>::None, Option::Some(i) => Option::Some(JsonV::Sc(ScalarV::Int(i as int))) }),
{
    reveal_strlit("enable");
    reveal_strlit("theme");
    reveal_strlit("mode");
    reveal_strlit("tools_to_craft");
    reveal_strlit("increment_mode");
    reveal_strlit("num_craft_batches");
    assert("increment_mode"@.len() != "enable"@.len());
    assert("increment_mode"@ != "enable"@);
    assert("increment_mode"@.len() != "theme"@.len());
    assert("increment_mode"@ != "theme"@);
    assert("increment_mode"@.len() != "mode"@.len());
    assert("increment_mode"@ != "mode"@);
    assert("increment_mode"@[0] != "tools_to_craft"@[0]);
    assert("increment_mode"@ != "tools_to_craft"@);
    assert("increment_mode"@.len() != "num_craft_batches"@.len());
    assert("increment_mode"@ != "num_craft_batches"@);
    let b1 = b_opt_bool("enable"@, t.enable);
    let b2 = b_opt_str("theme"@, opt_str_view(t.theme));
    let b3 = b_opt_int("mode"@, t.mode);
    let b4 = b_opt_str_list("tools_to_craft"@, (match t.tools_to_craft { Option::None => Option::None, Option::Some(l) => Option::Some(strs_view(l@)) }));
    let b5 = b_opt_int("increment_mode"@, t.increment_mode);
    let b6 = b_opt_int("num_craft_batches"@, t.num_craft_batches);
    let p1 = b1;
    let p2 = p1 + b2;
    let p3 = p2 + b3;
    let p4 = p3 + b4;
    let p5 = p4 + b5;
    let p6 = p5 + b6;
    assert(reclamation_pairs(t) == p6);
    lemma_doc_get_block(b1, "increment_mode"@);
    lemma_doc_get_block(b2, "increment_mode"@);
    lemma_doc_get_block(b3, "increment_mode"@);
    lemma_doc_get_block(b4, "increment_mode"@);
    lemma_doc_get_block(b5, "increment_mode"@);
    lemma_doc_get_block(b6, "increment_mode"@);
    lemma_doc_get_concat(p5, b6, "increment_mode"@);
    lemma_doc_get_concat(p4, b5, "increment_mode"@);
    lemma_doc_get_concat(p3, b4, "increment_mode"@);
    lemma_doc_get_concat(p2, b3, "increment_mode"@);
    lemma_doc_get_concat(p1, b2, "increment_mode"@);
}

/// What lookup of `num_craft_batches` finds in the members of a Reclamation task.
proof fn reclamation_get_num_craft_batches(t: ReclamationTask)
    ensures
        doc_get(reclamation_pairs(t), "num_craft_batches"@) == (match t.num_craft_batches { Option::None => Option::<JsonV>::None, Option::Some(i) => Option::Some(JsonV::Sc(ScalarV::Int(i as int))) }),
{
    reveal_strlit("enable");
    reveal_strlit("theme");
    reveal_strlit("mode");
    reveal_strlit("tools_to_craft");
    reveal_strlit("increment_mode");
    reveal_strlit("num_craft_batches");
    assert("num_craft_batches"@.len() != "enable"@.len());
    assert("num_craft_batches"@ != "enable"@);
    assert("num_craft_batches"@.len() != "theme"@.len());
    assert("num_craft_batches"@ != "theme"@);
    assert("num_craft_batches"@.len() != "mode"@.len());
    assert("num_craft_batches"@ != "mode"@);
    assert("num_craft_batches"@.len() != "tools_to_craft"@.len());
    assert("num_craft_batches"@ != "tools_to_craft"@);
    assert("num_craft_batches"@.len() != "increment_mode"@.len());
    assert("num_craft_batches"@ != "increment_mode"@);
    let b1 = b_opt_bool("enable"@, t.enable);
    let b2 = b_opt_str("theme"@, opt_str_view(t.theme));
    let b3 = b_opt_int("mode"@, t.mode);
    let b4 = b_opt_str_list("tools_to_craft"@, (match t.tools_to_craft { Option::None => Option::None, Option::Some(l) => Option::Some(strs_view(l@)) }));
    let b5 = b_opt_int("increment_mode"@, t.increment_mode);
    let b6 = b_opt_int("num_craft_batches"@, t.num_craft_batches);
    let p1 = b1;
    let p2 = p1 + b2;
    let p3 = p2 + b3;
    let p4 = p3 + b4;
    let p5 = p4 + b5;
    let p6 = p5 + b6;
    assert(reclamation_pairs(t) == p6);
    lemma_doc_get_block(b1, "num_craft_batches"@);
    lemma_doc_get_block(b2, "num_craft_batches"@);
    lemma_doc_get_block(b3, "num_craft_batches"@);
    lemma_doc_get_block(b4, "num_craft_batches"@);
    lemma_doc_get_block(b5, "num_craft_batches"@);
    lemma_doc_get_block(b6, "num_craft_batches"@);
    lemma_doc_get_concat(p5, b6, "num_craft_batches"@);
    lemma_doc_get_concat(p4, b5, "num_craft_batches"@);
    lemma_doc_get_concat(p3, b4, "num_craft_batches"@);
    lemma_doc_get_concat(p2, b3, "num_craft_batches"@);
    lemma_doc_get_concat(p1, b2, "num_craft_batches"@);
}

/// Writing a Reclamation task and reading the text back yields every
/// field unchanged.
pub proof fn lemma_reclamation_round_trip(t: ReclamationTask)
    ensures
        text_to_doc(doc_text(reclamation_pairs(t))) == Option::Some(reclamation_pairs(t)),
        reclamation_ok(reclamation_pairs(t)),
        (match sget_opt_bool(reclamation_pairs(t), "enable"@) {
            Result::Ok(v) => t.enable == v,
            Result::Err(_) => false,
        }),
        (match sget_opt_str(reclamation_pairs(t), "theme"@) {
            Result::Ok(v) => opt_str_view(t.theme) == v,
            Result::Err(_) => false,
        }),
        (match sget_opt_int(reclamation_pairs(t), "mode"@) {
            Result::Ok(v) => t.mode == v,
            Result::Err(_) => false,
        }),
        (match sget_opt_str_list(reclamation_pairs(t), "tools_to_craft"@) {
            Result::Ok(v) => v == (match t.tools_to_craft { Option::None => Option::None, Option::Some(l) => Option::Some(strs_view(l@)) }),
            Result::Err(_) => false,
        }),
        (match sget_opt_int(reclamation_pairs(t), "increment_mode"@) {
            Result::Ok(v) => t.increment_mode == v,
            Result::Err(_) => false,
        }),
        (match sget_opt_int(reclamation_pairs(t), "num_craft_batches"@) {
            Result::Ok(v) => t.num_craft_batches == v,
            Result::Err(_) => false,
        }),
{
    let ps = reclamation_pairs(t);
    reclamation_get_enable(t);
    reclamation_get_theme(t);
    reclamation_get_mode(t);
    reclamation_get_tools_to_craft(t);
    reclamation_get_increment_mode(t);
    reclamation_get_num_craft_batches(t);
    lemma_blocks_valid("enable"@);
    lemma_blocks_valid("theme"@);
    lemma_blocks_valid("mode"@);
    lemma_blocks_valid("tools_to_craft"@);
    lemma_blocks_valid("increment_mode"@);
    lemma_blocks_valid("num_craft_batches"@);
    let b1 = b_opt_bool("enable"@, t.enable);
    let b2 = b_opt_str("theme"@, opt_str_view(t.theme));
    let b3 = b_opt_int("mode"@, t.mode);
    let b4 = b_opt_str_list("tools_to_craft"@, (match t.tools_to_craft { Option::None => Option::None, Option::Some(l) => Option::Some(strs_view(l@)) }));
    let b5 = b_opt_int("increment_mode"@, t.increment_mode);
    let b6 = b_opt_int("num_craft_batches"@, t.num_craft_batches);
    let p1 = b1;
    let p2 = p1 + b2;
    let p3 = p2 + b3;
    let p4 = p3 + b4;
    let p5 = p4 + b5;
    let p6 = p5 + b6;
    assert(doc_valid(p1));
    lemma_doc_valid_concat(p1, b2);
    lemma_doc_valid_concat(p2, b3);
    lemma_doc_valid_concat(p3, b4);
    lemma_doc_valid_concat(p4, b5);
    lemma_doc_valid_concat(p5, b6);
    assert(ps == p6);
    lemma_doc_round_trip(ps);
    if t.tools_to_craft is Some {
        lemma_strs_of_list(strs_view(t.tools_to_craft->0@));
    }
}

/// Parameters of the Custom task.
#[derive(Clone, Debug, PartialEq)]
pub struct CustomTask {
    /// The required boolean field `enable`.
    pub enable: bool,
    /// The required string-list field `task_names`.
    pub task_names: Vec<String>,
}

/// The document members of a Custom task, in writing order.
pub open spec fn custom_pairs(t: CustomTask) -> Seq<(Seq<char>, JsonV)> {
    b_req_bool("enable"@, t.enable) + b_str_list("task_names"@, strs_view(t.task_names@))
}

/// Whether every known key of a parsed document holds the right shape
/// for the Custom task, with every required key present.
pub open spec fn custom_ok(pairs: Seq<(Seq<char>, JsonV)>) -> bool {
    sget_req_bool(pairs, "enable"@) is Ok
    && sget_str_list(pairs, "task_names"@) is Ok
}

/// The first field error met reading a parsed document as a Custom task.
pub open spec fn custom_task_first_fault(pairs: Seq<(Seq<char>, JsonV)>) -> TaskError {
    match sget_req_bool(pairs, "enable"@) {
        Result::Err(e) => e,
        Result::Ok(_) => match sget_str_list(pairs, "task_names"@) {
        Result::Err(e) => e,
        Result::Ok(_) => TaskError::WrongType,
    },
    }
}

impl CustomTask {
    /// The stable type tag the engine knows the task by.
    pub fn task_type(&self) -> (r: &'static str)
        ensures
            r@ == "Custom"@,
    {
        "Custom"
    }

    /// The stable human-readable name of the task kind.
    pub fn task_name(&self) -> (r: &'static str)
        ensures
            r@ == "自定义"@,
    {
        "自定义"
    }

    /// The canonical JSON parameter string: present fields only, in
    /// declaration order.
    pub fn to_json(&self) -> (r: String)
        ensures
            r@ == doc_text(custom_pairs(*self)),
    {
        let mut out: Vec<(String, Json)> = Vec::new();
        proof {
            assert(doc_view(out@) =~= Seq::<(Seq<char>, JsonV)>::empty());
        }
        push_req_bool(&mut out, "enable", self.enable);
        push_str_list(&mut out, "task_names", &self.task_names);
        proof {
            assert(doc_view(out@) =~= custom_pairs(*self));
        }
        write_doc(&out)
    }

    /// Read a task back from a canonical JSON parameter string.
    pub fn from_json(s: &str) -> (r: Result<CustomTask, TaskError>)
        ensures
            match text_to_doc(s@) {
                Option::None => r == Result::<CustomTask, TaskError>::Err(TaskError::NotCanonical),
                Option::Some(pairs) => if custom_ok(pairs) {
                    &&& r is Ok
                    &&& (match (r, sget_req_bool(pairs, "enable"@)) {
                        (Result::Ok(t), Result::Ok(v)) => t.enable == v,
                        _ => false,
                    })
                    &&& (match (r, sget_str_list(pairs, "task_names"@)) {
                        (Result::Ok(t), Result::Ok(v)) => strs_view(t.task_names@) == v,
                        _ => false,
                    })
                } else {
                    r == Result::<CustomTask, TaskError>::Err(custom_task_first_fault(pairs))
                },
            },
    {
        let pairs = match parse_doc(s) {
            Option::Some(p) => p,
            Option::None => {
                return Result::Err(TaskError::NotCanonical);
            },
        };
        let enable = match get_req_bool(&pairs, "enable") {
            Result::Ok(v) => v,
            Result::Err(e) => {
                return Result::Err(e);
            },
        };
        let task_names = match get_str_list(&pairs, "task_names") {
            Result::Ok(v) => v,
            Result::Err(e) => {
                return Result::Err(e);
            },
        };
        Result::Ok(CustomTask { enable, task_names })
    }

    /// A builder with no field set.
    pub fn builder() -> (r: CustomTaskBuilder)
        ensures
            r.enable is None,
            r.task_names is None,
    {
        CustomTaskBuilder { enable: Option::None, task_names: Option::None }
    }
}

/// Step-by-step construction of a Custom task.
pub struct CustomTaskBuilder {
    /// The required boolean field `enable`, once set.
    pub enable: Option<bool>,
    /// The required string-list field `task_names`, once set.
    pub task_names: Option<Vec<String>>,
}

impl CustomTaskBuilder {
    /// Set the required boolean field `enable`.
    pub fn enable(self, enable: bool) -> (r: Self)
        ensures
            r.enable == Option::Some(enable),
            r.task_names == self.task_names,
    {
        let mut this = self;
        this.enable = Option::Some(enable);
        this
    }

    /// Set the required string-list field `task_names`.
    pub fn task_names(self, task_names: Vec<String>) -> (r: Self)
        ensures
            r.task_names == Option::Some(task_names),
            r.enable == self.enable,
    {
        let mut this = self;
        this.task_names = Option::Some(task_names);
        this
    }

    /// The finished task; refused while a required field is missing.
    pub fn build(self) -> (r: Result<CustomTask, TaskError>)
        ensures
            if self.enable is Some && self.task_names is Some {
                &&& r is Ok
                &&& (match r { Result::Ok(t) => Option::Some(t.enable) == self.enable, _ => false })
                &&& (match r { Result::Ok(t) => Option::Some(t.task_names) == self.task_names, _ => false })
            } else {
                r == Result::<CustomTask, TaskError>::Err(TaskError::MissingField)
            },
    {
        let enable = match self.enable {
            Option::Some(v) => v,
            Option::None => {
                return Result::Err(TaskError::MissingField);
            },
        };
        let task_names = match self.task_names {
            Option::Some(v) => v,
            Option::None => {
                return Result::Err(TaskError::MissingField);
            },
        };
        Result::Ok(CustomTask { enable, task_names })
    }
}

/// What lookup of `enable` finds in the members of a Custom task.
proof fn custom_get_enable(t: CustomTask)
    ensures
        doc_get(custom_pairs(t), "enable"@) == Option::Some(JsonV::Sc(ScalarV::Bool(t.enable))),
{
    reveal_strlit("enable");
    reveal_strlit("task_names");
    assert("enable"@.len() != "task_names"@.len());
    assert("enable"@ != "task_names"@);
    let b1 = b_req_bool("enable"@, t.enable);
    let b2 = b_str_list("task_names"@, strs_view(t.task_names@));
    let p1 = b1;
    let p2 = p1 + b2;
    assert(custom_pairs(t) == p2);
    lemma_doc_get_block(b1, "enable"@);
    lemma_doc_get_block(b2, "enable"@);
    lemma_doc_get_concat(p1, b2, "enable"@);
}

/// What lookup of `task_names` finds in the members of a Custom task.
proof fn custom_get_task_names(t: CustomTask)
    ensures
        doc_get(custom_pairs(t), "task_names"@) == Option::Some(JsonV::Arr(jv_str_list(strs_view(t.task_names@)))),
{
    reveal_strlit("enable");
    reveal_strlit("task_names");
    assert("task_names"@.len() != "enable"@.len());
    assert("task_names"@ != "enable"@);
    let b1 = b_req_bool("enable"@, t.enable);
    let b2 = b_str_list("task_names"@, strs_view(t.task_names@));
    let p1 = b1;
    let p2 = p1 + b2;
    assert(custom_pairs(t) == p2);
    lemma_doc_get_block(b1, "task_names"@);
    lemma_doc_get_block(b2, "task_names"@);
    lemma_doc_get_concat(p1, b2, "task_names"@);
}

/// Writing a Custom task and reading the text back yields every
/// field unchanged.
pub proof fn lemma_custom_round_trip(t: CustomTask)
    ensures
        text_to_doc(doc_text(custom_pairs(t))) == Option::Some(custom_pairs(t)),
        custom_ok(custom_pairs(t)),
        (match sget_req_bool(custom_pairs(t), "enable"@) {
            Result::Ok(v) => t.enable == v,
            Result::Err(_) => false,
        }),
        (match sget_str_list(custom_pairs(t), "task_names"@) {
            Result::Ok(v) => strs_view(t.task_names@) == v,
            Result::Err(_) => false,
        }),
{
    let ps = custom_pairs(t);
    custom_get_enable(t);
    custom_get_task_names(t);
    lemma_blocks_valid("enable"@);
    lemma_blocks_valid("task_names"@);
    let b1 = b_req_bool("enable"@, t.enable);
    let b2 = b_str_list("task_names"@, strs_view(t.task_names@));
    let p1 = b1;
    let p2 = p1 + b2;
    assert(doc_valid(p1));
    lemma_doc_valid_concat(p1, b2);
    assert(ps == p2);
    lemma_doc_round_trip(ps);
    lemma_strs_of_list(strs_view(t.task_names@));
}

/// Parameters of the SingleStep task.
#[derive(Clone, Debug, PartialEq)]
pub struct SingleStepTask {
    /// The required boolean field `enable`.
    pub enable: bool,
    /// The required string field `task_type`.
    pub task_type: String,
    /// The required string field `subtask`.
    pub subtask: String,
    /// The required detail-map field `details`.
    pub details: Vec<(String, Scalar)>,
}

/// The document members of a SingleStep task, in writing order.
pub open spec fn single_step_pairs(t: SingleStepTask) -> Seq<(Seq<char>, JsonV)> {
    b_req_bool("enable"@, t.enable) + b_req_str("task_type"@, t.task_type@) + b_req_str("subtask"@, t.subtask@) + b_scalar_map("details"@, pairs_view(t.details@))
}

/// Whether every known key of a parsed document holds the right shape
/// for the SingleStep task, with every required key present.
pub open spec fn single_step_ok(pairs: Seq<(Seq<char>, JsonV)>) -> bool {
    sget_req_bool(pairs, "enable"@) is Ok
    && sget_req_str(pairs, "task_type"@) is Ok
    && sget_req_str(pairs, "subtask"@) is Ok
    && sget_scalar_map(pairs, "details"@) is Ok
}

/// The first field error met reading a parsed document as a SingleStep task.
pub open spec fn single_step_first_err(pairs: Seq<(Seq<char>, JsonV)>) -> TaskError {
    match sget_req_bool(pairs, "enable"@) {
        Result::Err(e) => e,
        Result::Ok(_) => match sget_req_str(pairs, "task_type"@) {
        Result::Err(e) => e,
        Result::Ok(_) => match sget_req_str(pairs, "subtask"@) {
        Result::Err(e) => e,
        Result::Ok(_) => match sget_scalar_map(pairs, "details"@) {
        Result::Err(e) => e,
        Result::Ok(_) => TaskError::WrongType,
    },
    },
    },
    }
}

impl SingleStepTask {
    /// The stable type tag the engine knows the task by.
    pub fn task_type(&self) -> (r: &'static str)
        ensures
            r@ == "SingleStep"@,
    {
        "SingleStep"
    }

    /// The stable human-readable name of the task kind.
    pub fn task_name(&self) -> (r: &'static str)
        ensures
            r@ == "单步"@,
    {
        "单步"
    }

    /// The canonical JSON parameter string: present fields only, in
    /// declaration order.
    pub fn to_json(&self) -> (r: String)
        ensures
            r@ == doc_text(single_step_pairs(*self)),
    {
        let mut out: Vec<(String, Json)> = Vec::new();
        proof {
            assert(doc_view(out@) =~= Seq::<(Seq<char>, JsonV)>::empty());
        }
        push_req_bool(&mut out, "enable", self.enable);
        push_req_str(&mut out, "task_type", &self.task_type);
        push_req_str(&mut out, "subtask", &self.subtask);
        push_scalar_map(&mut out, "details", &self.details);
        proof {
            assert(doc_view(out@) =~= single_step_pairs(*self));
        }
        write_doc(&out)
    }

    /// Read a task back from a canonical JSON parameter string.
    pub fn from_json(s: &str) -> (r: Result<SingleStepTask, TaskError>)
        ensures
            match text_to_doc(s@) {
                Option::None => r == Result::<SingleStepTask, TaskError>::Err(TaskError::NotCanonical),
                Option::Some(pairs) => if single_step_ok(pairs) {
                    &&& r is Ok
                    &&& (match (r, sget_req_bool(pairs, "enable"@)) {
                        (Result::Ok(t), Result::Ok(v)) => t.enable == v,
                        _ => false,
                    })
                    &&& (match (r, sget_req_str(pairs, "task_type"@)) {
                        (Result::Ok(t), Result::Ok(v)) => t.task_type@ == v,
                        _ => false,
                    })
                    &&& (match (r, sget_req_str(pairs, "subtask"@)) {
                        (Result::Ok(t), Result::Ok(v)) => t.subtask@ == v,
                        _ => false,
                    })
                    &&& (match (r, sget_scalar_map(pairs, "details"@)) {
                        (Result::Ok(t), Result::Ok(v)) => pairs_view(t.details@) == v,
                        _ => false,
                    })
                } else {
                    r == Result::<SingleStepTask, TaskError>::Err(single_step_first_err(pairs))
                },
            },
    {
        let pairs = match parse_doc(s) {
            Option::Some(p) => p,
            Option::None => {
                return Result::Err(TaskError::NotCanonical);
            },
        };
        let enable = match get_req_bool(&pairs, "enable") {
            Result::Ok(v) => v,
            Result::Err(e) => {
                return Result::Err(e);
            },
        };
        let task_type = match get_req_str(&pairs, "task_type") {
            Result::Ok(v) => v,
            Result::Err(e) => {
                return Result::Err(e);
            },
        };
        let subtask = match get_req_str(&pairs, "subtask") {
            Result::Ok(v) => v,
            Result::Err(e) => {
                return Result::Err(e);
            },
        };
        let details = match get_scalar_map(&pairs, "details") {
            Result::Ok(v) => v,
            Result::Err(e) => {
                return Result::Err(e);
            },
        };
        Result::Ok(SingleStepTask { enable, task_type, subtask, details })
    }

    /// A builder with no field set.
    pub fn builder() -> (r: SingleStepTaskBuilder)
        ensures
            r.enable is None,
            r.task_type is None,
            r.subtask is None,
            r.details is None,
    {
        SingleStepTaskBuilder { enable: Option::None, task_type: Option::None, subtask: Option::None, details: Option::None }
    }
}

/// Step-by-step construction of a SingleStep task.
pub struct SingleStepTaskBuilder {
    /// The required boolean field `enable`, once set.
    pub enable: Option<bool>,
    /// The required string field `task_type`, once set.
    pub task_type: Option<String>,
    /// The required string field `subtask`, once set.
    pub subtask: Option<String>,
    /// The required detail-map field `details`, once set.
    pub details: Option<Vec<(String, Scalar)>>,
}

impl SingleStepTaskBuilder {
    /// Set the required boolean field `enable`.
    pub fn enable(self, enable: bool) -> (r: Self)
        ensures
            r.enable == Option::Some(enable),
            r.task_type == self.task_type,
            r.subtask == self.subtask,
            r.details == self.details,
    {
        let mut this = self;
        this.enable = Option::Some(enable);
        this
    }

    /// Set the required string field `task_type`.
    pub fn task_type(self, task_type: &str) -> (r: Self)
        ensures
            (r.task_type matches Option::Some(s) && s@ == task_type@),
            r.enable == self.enable,
            r.subtask == self.subtask,
            r.details == self.details,
    {
        let mut this = self;
        this.task_type = Option::Some(task_type.to_owned());
        this
    }

    /// Set the required string field `subtask`.
    pub fn subtask(self, subtask: &str) -> (r: Self)
        ensures
            (r.subtask matches Option::Some(s) && s@ == subtask@),
            r.enable == self.enable,
            r.task_type == self.task_type,
            r.details == self.details,
    {
        let mut this = self;
        this.subtask = Option::Some(subtask.to_owned());
        this
    }

    /// Set the required detail-map field `details`.
    pub fn details(self, details: Vec<(String, Scalar)>) -> (r: Self)
        ensures
            r.details == Option::Some(details),
            r.enable == self.enable,
            r.task_type == self.task_type,
            r.subtask == self.subtask,
    {
        let mut this = self;
        this.details = Option::Some(details);
        this
    }

    /// The finished task; refused while a required field is missing.
    pub fn build(self) -> (r: Result<SingleStepTask, TaskError>)
        ensures
            if self.enable is Some && self.task_type is Some && self.subtask is Some && self.details is Some {
                &&& r is Ok
                &&& (match r { Result::Ok(t) => Option::Some(t.enable) == self.enable, _ => false })
                &&& (match r { Result::Ok(t) => Option::Some(t.task_type) == self.task_type, _ => false })
                &&& (match r { Result::Ok(t) => Option::Some(t.subtask) == self.subtask, _ => false })
                &&& (match r { Result::Ok(t) => Option::Some(t.details) == self.details, _ => false })
            } else {
                r == Result::<SingleStepTask, TaskError>::Err(TaskError::MissingField)
            },
    {
        let enable = match self.enable {
            Option::Some(v) => v,
            Option::None => {
                return Result::Err(TaskError::MissingField);
            },
        };
        let task_type = match self.task_type {
            Option::Some(v) => v,
            Option::None => {
                return Result::Err(TaskError::MissingField);
            },
        };
        let subtask = match self.subtask {
            Option::Some(v) => v,
            Option::None => {
                return Result::Err(TaskError::MissingField);
            },
        };
        let details = match self.details {
            Option::Some(v) => v,
            Option::None => {
                return Result::Err(TaskError::MissingField);
            },
        };
        Result::Ok(SingleStepTask { enable, task_type, subtask, details })
    }
}

/// What lookup of `enable` finds in the members of a SingleStep task.
proof fn single_step_get_enable(t: SingleStepTask)
    ensures
        doc_get(single_step_pairs(t), "enable"@) == Option::Some(JsonV::Sc(ScalarV::Bool(t.enable))),
{
    reveal_strlit("enable");
    reveal_strlit("task_type");
    reveal_strlit("subtask");
    reveal_strlit("details");
    assert("enable"@.len() != "task_type"@.len());
    assert("enable"@ != "task_type"@);
    assert("enable"@.len() != "subtask"@.len());
    assert("enable"@ != "subtask"@);
    assert("enable"@.len() != "details"@.len());
    assert("enable"@ != "details"@);
    let b1 = b_req_bool("enable"@, t.enable);
    let b2 = b_req_str("task_type"@, t.task_type@);
    let b3 = b_req_str("subtask"@, t.subtask@);
    let b4 = b_scalar_map("details"@, pairs_view(t.details@));
    let p1 = b1;
    let p2 = p1 + b2;
    let p3 = p2 + b3;
    let p4 = p3 + b4;
    assert(single_step_pairs(t) == p4);
    lemma_doc_get_block(b1, "enable"@);
    lemma_doc_get_block(b2, "enable"@);
    lemma_doc_get_block(b3, "enable"@);
    lemma_doc_get_block(b4, "enable"@);
    lemma_doc_get_concat(p3, b4, "enable"@);
    lemma_doc_get_concat(p2, b3, "enable"@);
    lemma_doc_get_concat(p1, b2, "enable"@);
}

/// What lookup of `task_type` finds in the members of a SingleStep task.
proof fn single_step_get_task_type(t: SingleStepTask)
    ensures
        doc_get(single_step_pairs(t), "task_type"@) == Option::Some(JsonV::Sc(ScalarV::Str(t.task_type@))),
{
    reveal_strlit("enable");
    reveal_strlit("task_type");
    reveal_strlit("subtask");
    reveal_strlit("details");
    assert("task_type"@.len() != "enable"@.len());
    assert("task_type"@ != "enable"@);
    assert("task_type"@.len() != "subtask"@.len());
    assert("task_type"@ != "subtask"@);
    assert("task_type"@.len() != "details"@.len());
    assert("task_type"@ != "details"@);
    let b1 = b_req_bool("enable"@, t.enable);
    let b2 = b_req_str("task_type"@, t.task_type@);
    let b3 = b_req_str("subtask"@, t.subtask@);
    let b4 = b_scalar_map("details"@, pairs_view(t.details@));
    let p1 = b1;
    let p2 = p1 + b2;
    let p3 = p2 + b3;
    let p4 = p3 + b4;
    assert(single_step_pairs(t) == p4);
    lemma_doc_get_block(b1, "task_type"@);
    lemma_doc_get_block(b2, "task_type"@);
    lemma_doc_get_block(b3, "task_type"@);
    lemma_doc_get_block(b4, "task_type"@);
    lemma_doc_get_concat(p3, b4, "task_type"@);
    lemma_doc_get_concat(p2, b3, "task_type"@);
    lemma_doc_get_concat(p1, b2, "task_type"@);
}

/// What lookup of `subtask` finds in the members of a SingleStep task.
proof fn single_step_get_subtask(t: SingleStepTask)
    ensures
        doc_get(single_step_pairs(t), "subtask"@) == Option::Some(JsonV::Sc(ScalarV::Str(t.subtask@))),
{
    reveal_strlit("enable");
    reveal_strlit("task_type");
    reveal_strlit("subtask");
    reveal_strlit("details");
    assert("subtask"@.len() != "enable"@.len());
    assert("subtask"@ != "enable"@);
    assert("subtask"@.len() != "task_type"@.len());
    assert("subtask"@ != "task_type"@);
    assert("subtask"@[0] != "details"@[0]);
    assert("subtask"@ != "details"@);
    let b1 = b_req_bool("enable"@, t.enable);
    let b2 = b_req_str("task_type"@, t.task_type@);
    let b3 = b_req_str("subtask"@, t.subtask@);
    let b4 = b_scalar_map("details"@, pairs_view(t.details@));
    let p1 = b1;
    let p2 = p1 + b2;
    let p3 = p2 + b3;
    let p4 = p3 + b4;
    assert(single_step_pairs(t) == p4);
    lemma_doc_get_block(b1, "subtask"@);
    lemma_doc_get_block(b2, "subtask"@);
    lemma_doc_get_block(b3, "subtask"@);
    lemma_doc_get_block(b4, "subtask"@);
    lemma_doc_get_concat(p3, b4, "subtask"@);
    lemma_doc_get_concat(p2, b3, "subtask"@);
    lemma_doc_get_concat(p1, b2, "subtask"@);
}

/// What lookup of `details` finds in the members of a SingleStep task.
proof fn single_step_get_details(t: SingleStepTask)
    ensures
        doc_get(single_step_pairs(t), "details"@) == Option::Some(JsonV::Obj(pairs_view(t.details@))),
{
    reveal_strlit("enable");
    reveal_strlit("task_type");
    reveal_strlit("subtask");
    reveal_strlit("details");
    assert("details"@.len() != "enable"@.len());
    assert("details"@ != "enable"@);
    assert("details"@.len() != "task_type"@.len());
    assert("details"@ != "task_type"@);
    assert("details"@[0] != "subtask"@[0]);
    assert("details"@ != "subtask"@);
    let b1 = b_req_bool("enable"@, t.enable);
    let b2 = b_req_str("task_type"@, t.task_type@);
    let b3 = b_req_str("subtask"@, t.subtask@);
    let b4 = b_scalar_map("details"@, pairs_view(t.details@));
    let p1 = b1;
    let p2 = p1 + b2;
    let p3 = p2 + b3;
    let p4 = p3 + b4;
    assert(single_step_pairs(t) == p4);
    lemma_doc_get_block(b1, "details"@);
    lemma_doc_get_block(b2, "details"@);
    lemma_doc_get_block(b3, "details"@);
    lemma_doc_get_block(b4, "details"@);
    lemma_doc_get_concat(p3, b4, "details"@);
    lemma_doc_get_concat(p2, b3, "details"@);
    lemma_doc_get_concat(p1, b2, "details"@);
}

/// Writing a well-formed SingleStep task and reading the text back yields
/// every field unchanged.
pub proof fn lemma_single_step_round_trip(t: SingleStepTask)
    requires
        single_step_well_formed(t),
    ensures
        text_to_doc(doc_text(single_step_pairs(t))) == Option::Some(single_step_pairs(t)),
        single_step_ok(single_step_pairs(t)),
        (match sget_req_bool(single_step_pairs(t), "enable"@) {
            Result::Ok(v) => t.enable == v,
            Result::Err(_) => false,
        }),
        (match sget_req_str(single_step_pairs(t), "task_type"@) {
            Result::Ok(v) => t.task_type@ == v,
            Result::Err(_) => false,
        }),
        (match sget_req_str(single_step_pairs(t), "subtask"@) {
            Result::Ok(v) => t.subtask@ == v,
            Result::Err(_) => false,
        }),
        (match sget_scalar_map(single_step_pairs(t), "details"@) {
            Result::Ok(v) => pairs_view(t.details@) == v,
            Result::Err(_) => false,
        }),
{
    let ps = single_step_pairs(t);
    single_step_get_enable(t);
    single_step_get_task_type(t);
    single_step_get_subtask(t);
    single_step_get_details(t);
    lemma_blocks_valid("enable"@);
    lemma_blocks_valid("task_type"@);
    lemma_blocks_valid("subtask"@);
    lemma_blocks_valid("details"@);
    lemma_scalar_map_view_valid(t.details@);
    let b1 = b_req_bool("enable"@, t.enable);
    let b2 = b_req_str("task_type"@, t.task_type@);
    let b3 = b_req_str("subtask"@, t.subtask@);
    let b4 = b_scalar_map("details"@, pairs_view(t.details@));
    let p1 = b1;
    let p2 = p1 + b2;
    let p3 = p2 + b3;
    let p4 = p3 + b4;
    assert(doc_valid(p1));
    lemma_doc_valid_concat(p1, b2);
    lemma_doc_valid_concat(p2, b3);
    lemma_doc_valid_concat(p3, b4);
    assert(ps == p4);
    lemma_doc_round_trip(ps);
}

/// Parameters of the VideoRecognition task.
#[derive(Clone, Debug, PartialEq)]
pub struct VideoRecognitionTask {
    /// The required boolean field `enable`.
    pub enable: bool,
    /// The required string field `filename`.
    pub filename: String,
}

/// The document members of a VideoRecognition task, in writing order.
pub open spec fn video_recognition_pairs(t: VideoRecognitionTask) -> Seq<(Seq<char>, JsonV)> {
    b_req_bool("enable"@, t.enable) + b_req_str("filename"@, t.filename@)
}

/// Whether every known key of a parsed document holds the right shape
/// for the VideoRecognition task, with every required key present.
pub open spec fn video_recognition_ok(pairs: Seq<(Seq<char>, JsonV)>) -> bool {
    sget_req_bool(pairs, "enable"@) is Ok
    && sget_req_str(pairs, "filename"@) is Ok
}

/// The first field error met reading a parsed document as a VideoRecognition task.
pub open spec fn video_recognition_first_err(pairs: Seq<(Seq<char>, JsonV)>) -> TaskError {
    match sget_req_bool(pairs, "enable"@) {
        Result::Err(e) => e,
        Result::Ok(_) => match sget_req_str(pairs, "filename"@) {
        Result::Err(e) => e,
        Result::Ok(_) => TaskError::WrongType,
    },
    }
}

impl VideoRecognitionTask {
    /// The stable type tag the engine knows the task by.
    pub fn task_type(&self) -> (r: &'static str)
        ensures
            r@ == "VideoRecognition"@,
    {
        "VideoRecognition"
    }

    /// The stable human-readable name of the task kind.
    pub fn task_name(&self) -> (r: &'static str)
        ensures
            r@ == "视频识别"@,
    {
        "视频识别"
    }

    /// The canonical JSON parameter string: present fields only, in
    /// declaration order.
    pub fn to_json(&self) -> (r: String)
        ensures
            r@ == doc_text(video_recognition_pairs(*self)),
    {
        let mut out: Vec<(String, Json)> = Vec::new();
        proof {
            assert(doc_view(out@) =~= Seq::<(Seq<char>, JsonV)>::empty());
        }
        push_req_bool(&mut out, "enable", self.enable);
        push_req_str(&mut out, "filename", &self.filename);
        proof {
            assert(doc_view(out@) =~= video_recognition_pairs(*self));
        }
        write_doc(&out)
    }

    /// Read a task back from a canonical JSON parameter string.
    pub fn from_json(s: &str) -> (r: Result<VideoRecognitionTask, TaskError>)
        ensures
            match text_to_doc(s@) {
                Option::None => r == Result::<VideoRecognitionTask, TaskError>::Err(TaskError::NotCanonical),
                Option::Some(pairs) => if video_recognition_ok(pairs) {
                    &&& r is Ok
                    &&& (match (r, sget_req_bool(pairs, "enable"@)) {
                        (Result::Ok(t), Result::Ok(v)) => t.enable == v,
                        _ => false,
                    })
                    &&& (match (r, sget_req_str(pairs, "filename"@)) {
                        (Result::Ok(t), Result::Ok(v)) => t.filename@ == v,
                        _ => false,
                    })
                } else {
                    r == Result::<VideoRecognitionTask, TaskError>::Err(video_recognition_first_err(pairs))
                },
            },
    {
        let pairs = match parse_doc(s) {
            Option::Some(p) => p,
            Option::None => {
                return Result::Err(TaskError::NotCanonical);
            },
        };
        let enable = match get_req_bool(&pairs, "enable") {
            Result::Ok(v) => v,
            Result::Err(e) => {
                return Result::Err(e);
            },
        };
        let filename = match get_req_str(&pairs, "filename") {
            Result::Ok(v) => v,
            Result::Err(e) => {
                return Result::Err(e);
            },
        };
        Result::Ok(VideoRecognitionTask { enable, filename })
    }

    /// A builder with no field set.
    pub fn builder() -> (r: VideoRecognitionTaskBuilder)
        ensures
            r.enable is None,
            r.filename is None,
    {
        VideoRecognitionTaskBuilder { enable: Option::None, filename: Option::None }
    }
}

/// Step-by-step construction of a VideoRecognition task.
pub struct VideoRecognitionTaskBuilder {
    /// The required boolean field `enable`, once set.
    pub enable: Option<bool>,
    /// The required string field `filename`, once set.
    pub filename: Option<String>,
}

impl VideoRecognitionTaskBuilder {
    /// Set the required boolean field `enable`.
    pub fn enable(self, enable: bool) -> (r: Self)
        ensures
            r.enable == Option::Some(enable),
            r.filename == self.filename,
    {
        let mut this = self;
        this.enable = Option::Some(enable);
        this
    }

    /// Set the required string field `filename`.
    pub fn filename(self, filename: &str) -> (r: Self)
        ensures
            (r.filename matches Option::Some(s) && s@ == filename@),
            r.enable == self.enable,
    {
        let mut this = self;
        this.filename = Option::Some(filename.to_owned());
        this
    }

    /// The finished task; refused while a required field is missing.
    pub fn build(self) -> (r: Result<VideoRecognitionTask, TaskError>)
        ensures
            if self.enable is Some && self.filename is Some {
                &&& r is Ok
                &&& (match r { Result::Ok(t) => Option::Some(t.enable) == self.enable, _ => false })
                &&& (match r { Result::Ok(t) => Option::Some(t.filename) == self.filename, _ => false })
            } else {
                r == Result::<VideoRecognitionTask, TaskError>::Err(TaskError::MissingField)
            },
    {
        let enable = match self.enable {
            Option::Some(v) => v,
            Option::None => {
                return Result::Err(TaskError::MissingField);
            },
        };
        let filename = match self.filename {
            Option::Some(v) => v,
            Option::None => {
                return Result::Err(TaskError::MissingField);
            },
        };
        Result::Ok(VideoRecognitionTask { enable, filename })
    }
}

/// What lookup of `enable` finds in the members of a VideoRecognition task.
proof fn video_recognition_get_enable(t: VideoRecognitionTask)
    ensures
        doc_get(video_recognition_pairs(t), "enable"@) == Option::Some(JsonV::Sc(ScalarV::Bool(t.enable))),
{
    reveal_strlit("enable");
    reveal_strlit("filename");
    assert("enable"@.len() != "filename"@.len());
    assert("enable"@ != "filename"@);
    let b1 = b_req_bool("enable"@, t.enable);
    let b2 = b_req_str("filename"@, t.filename@);
    let p1 = b1;
    let p2 = p1 + b2;
    assert(video_recognition_pairs(t) == p2);
    lemma_doc_get_block(b1, "enable"@);
    lemma_doc_get_block(b2, "enable"@);
    lemma_doc_get_concat(p1, b2, "enable"@);
}

/// What lookup of `filename` finds in the members of a VideoRecognition task.
proof fn video_recognition_get_filename(t: VideoRecognitionTask)
    ensures
        doc_get(video_recognition_pairs(t), "filename"@) == Option::Some(JsonV::Sc(ScalarV::Str(t.filename@))),
{
    reveal_strlit("enable");
    reveal_strlit("filename");
    assert("filename"@.len() != "enable"@.len());
    assert("filename"@ != "enable"@);
    let b1 = b_req_bool("enable"@, t.enable);
    let b2 = b_req_str("filename"@, t.filename@);
    let p1 = b1;
    let p2 = p1 + b2;
    assert(video_recognition_pairs(t) == p2);
    lemma_doc_get_block(b1, "filename"@);
    lemma_doc_get_block(b2, "filename"@);
    lemma_doc_get_concat(p1, b2, "filename"@);
}

/// Writing a VideoRecognition task and reading the text back yields every
/// field unchanged.
pub proof fn lemma_video_recognition_round_trip(t: VideoRecognitionTask)
    ensures
        text_to_doc(doc_text(video_recognition_pairs(t))) == Option::Some(video_recognition_pairs(t)),
        video_recognition_ok(video_recognition_pairs(t)),
        (match sget_req_bool(video_recognition_pairs(t), "enable"@) {
            Result::Ok(v) => t.enable == v,
            Result::Err(_) => false,
        }),
        (match sget_req_str(video_recognition_pairs(t), "filename"@) {
            Result::Ok(v) => t.filename@ == v,
            Result::Err(_) => false,
        }),
{
    let ps = video_recognition_pairs(t);
    video_recognition_get_enable(t);
    video_recognition_get_filename(t);
    lemma_blocks_valid("enable"@);
    lemma_blocks_valid("filename"@);
    let b1 = b_req_bool("enable"@, t.enable);
    let b2 = b_req_str("filename"@, t.filename@);
    let p1 = b1;
    let p2 = p1 + b2;
    assert(doc_valid(p1));
    lemma_doc_valid_concat(p1, b2);
    assert(ps == p2);
    lemma_doc_round_trip(ps);
}


/// Whether a Fight task is well formed: each drop key at most once.
pub open spec fn fight_well_formed(t: FightTask) -> bool {
    match t.drops {
        Option::None => true,
        Option::Some(m) => str_keys_unique(ipairs_view(m@)),
    }
}

/// Whether a Recruit task is well formed: each recruitment-time key at most
/// once.
pub open spec fn recruit_well_formed(t: RecruitTask) -> bool {
    match t.recruitment_time {
        Option::None => true,
        Option::Some(m) => str_keys_unique(ipairs_view(m@)),
    }
}

/// Whether a Roguelike task is well formed: each start-list key at most
/// once.
pub open spec fn roguelike_well_formed(t: RoguelikeTask) -> bool {
    match t.collectible_mode_start_list {
        Option::None => true,
        Option::Some(m) => str_keys_unique(bpairs_view(m@)),
    }
}

/// Whether a SingleStep task is well formed: each detail key at most once.
pub open spec fn single_step_well_formed(t: SingleStepTask) -> bool {
    str_keys_unique(pairs_view(t.details@))
}

} // verus!
