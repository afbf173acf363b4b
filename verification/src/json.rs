//! The JSON documents that Slack sends, as the library reads them, and the
//! rules by which a Rust value is read out of one.
//!
//! Decoding follows the conventions of the Slack API types: a struct is read
//! from a JSON object member by member (unknown members are ignored), a member
//! that is absent reads as `null`, a member named twice reads as its last
//! value, `null` reads as `None` for an optional member, and integers must
//! fit the field's type.
use vstd::prelude::*;

verus! {

/// A JSON value.
///
/// Numbers with a fraction or an exponent carry no payload: no type of the
/// Slack API reads one.
#[derive(Debug)]
pub enum Json {
    Null,
    Bool(bool),
    Int(i128),
    Decimal,
    Str(String),
    Array(Vec<Json>),
    Object(Vec<(String, Json)>),
}

impl Json {
    pub fn is_object(&self) -> (b: bool)
        ensures
            b == (*self is Object),
    {
        match self {
            Json::Object(_) => true,
            _ => false,
        }
    }

    pub fn is_null(&self) -> (b: bool)
        ensures
            b == (*self is Null),
    {
        match self {
            Json::Null => true,
            _ => false,
        }
    }
}

/// Why a JSON value could not be read as the requested type.
#[derive(Debug)]
pub enum DecodeError {
    /// The value, or one of its members, does not have the required shape.
    Malformed,
    /// A tagged value names a variant that does not exist; the text says which.
    Unknown(String),
}

/// What a failed read reports, by the text it holds.
pub enum DecodeFailure {
    Malformed,
    Unknown(Seq<char>),
}

impl View for DecodeError {
    type V = DecodeFailure;

    open spec fn view(&self) -> DecodeFailure {
        match self {
            DecodeError::Malformed => DecodeFailure::Malformed,
            DecodeError::Unknown(m) => DecodeFailure::Unknown(m@),
        }
    }
}

/// The value of the last member named `key` among `fields`: a later member
/// of the same name overrides an earlier one.
pub open spec fn lookup(fields: Seq<(String, Json)>, key: Seq<char>) -> Option<Json>
    decreases fields.len(),
{
    if fields.len() == 0 {
        None
    } else if fields.last().0@ == key {
        Some(fields.last().1)
    } else {
        lookup(fields.drop_last(), key)
    }
}

/// The value that a struct decoder reads for member `key` of `j`: the
/// member's value, or `null` when `j` has no such member.
pub open spec fn member(j: Json, key: Seq<char>) -> Json {
    match j {
        Json::Object(fields) => match lookup(fields@, key) {
            Some(v) => v,
            None => Json::Null,
        },
        _ => Json::Null,
    }
}

/// Whether two string slices hold the same characters.
pub(crate) fn str_eq(a: &str, b: &str) -> (r: bool)
    ensures
        r == (a@ == b@),
{
    let n = a.unicode_len();
    if n != b.unicode_len() {
        return false;
    }
    let mut i: usize = 0;
    while i < n
        invariant
            n == a@.len(),
            n == b@.len(),
            i <= n,
            forall|k: int| 0 <= k < i ==> a@[k] == b@[k],
        decreases n - i,
    {
        if a.get_char(i) != b.get_char(i) {
            return false;
        }
        i = i + 1;
    }
    assert(a@ =~= b@);
    true
}

/// The value of member `key` of `j`, if `j` is an object that has one.
pub open spec fn present(j: Json, key: Seq<char>) -> Option<Json> {
    match j {
        Json::Object(fields) => lookup(fields@, key),
        _ => None,
    }
}

/// A member found by `lookup` is one of the members.
proof fn lemma_lookup_index(fields: Seq<(String, Json)>, key: Seq<char>)
    ensures
        lookup(fields, key) matches Some(v) ==> exists|i: int| 0 <= i < fields.len() && #[trigger] fields[i].1 == v,
    decreases fields.len(),
{
    if fields.len() > 0 && fields.last().0@ != key {
        lemma_lookup_index(fields.drop_last(), key);
        if lookup(fields, key) is Some {
            let i = choose|i: int| 0 <= i < fields.drop_last().len() && #[trigger] fields.drop_last()[i].1 == lookup(fields, key)->0;
            assert(fields[i].1 == fields.drop_last()[i].1);
        }
    } else if fields.len() > 0 {
        assert(fields[fields.len() - 1].1 == fields.last().1);
    }
}

/// A member of an object is smaller than the object; an absent member reads
/// as `null`.
pub proof fn lemma_present_decreases(j: Json, key: Seq<char>)
    ensures
        present(j, key) matches Some(v) ==> decreases_to!(j => v),
        member(j, key) == match present(j, key) {
            Some(v) => v,
            None => Json::Null,
        },
{
    if let Json::Object(fields) = j {
        lemma_lookup_index(fields@, key);
        if let Some(v) = lookup(fields@, key) {
            let i = choose|i: int| 0 <= i < fields@.len() && #[trigger] fields@[i].1 == v;
            broadcast use vstd::std_specs::vec::axiom_vec_decreases_to_view;
            broadcast use vstd::seq::axiom_seq_index_decreases;

            assert(decreases_to!(j => fields));
            assert(decreases_to!(fields => fields@));
            assert(decreases_to!(fields@ => fields@[i]));
            assert(decreases_to!(fields@[i] => fields@[i].1));
        }
    }
}

/// Finds member `key` of `j`, if `j` is an object that has one.
pub fn find_member<'a>(j: &'a Json, key: &str) -> (r: Option<&'a Json>)
    ensures
        match r {
            Some(v) => {
                &&& j is Object
                &&& member(*j, key@) == *v
                &&& present(*j, key@) == Some(*v)
                &&& decreases_to!(*j => *v)
            },
            None => member(*j, key@) == Json::Null && present(*j, key@) is None,
        },
{
    match j {
        Json::Object(fields) => {
            let mut i: usize = fields.len();
            assert(fields@.take(i as int) =~= fields@);
            while i > 0
                invariant
                    i <= fields.len(),
                    *j == Json::Object(*fields),
                    lookup(fields@, key@) == lookup(fields@.take(i as int), key@),
                decreases i,
            {
                let idx = i - 1;
                assert(fields@.take(i as int).drop_last() =~= fields@.take(idx as int));
                if str_eq(fields[idx].0.as_str(), key) {
                    proof {
                        broadcast use vstd::std_specs::vec::axiom_vec_decreases_to_view;
                        broadcast use vstd::seq::axiom_seq_index_decreases;

                        assert(decreases_to!(*j => j->Object_0));
                        assert(decreases_to!(*fields => fields@));
                        assert(decreases_to!(fields@ => fields@[idx as int]));
                        assert(decreases_to!(fields@[idx as int] => fields@[idx as int].1));
                    }
                    return Some(&fields[idx].1);
                }
                i = idx;
            }
            None
        },
        _ => None,
    }
}

/// A type that can be read out of a JSON value.
pub trait FromJson: Sized {
    /// `self` is the value that reading `j` yields.
    spec fn decoded_from(&self, j: Json) -> bool;

    /// What reading `j` reports when no value is read out of it.
    spec fn failure(j: Json) -> DecodeFailure;

    /// Reads a value out of `j`; fails exactly when no value is read out of
    /// `j`, and then with the error that `failure` names.
    fn from_json(j: &Json) -> (r: Result<Self, DecodeError>)
        ensures
            r matches Ok(x) ==> x.decoded_from(*j),
            r is Err ==> forall|x: Self| !x.decoded_from(*j),
            r matches Err(e) ==> e@ == Self::failure(*j),
    ;
}

impl FromJson for String {
    open spec fn decoded_from(&self, j: Json) -> bool {
        j matches Json::Str(s) && s@ == self@
    }

    open spec fn failure(j: Json) -> DecodeFailure {
        DecodeFailure::Malformed
    }

    fn from_json(j: &Json) -> (r: Result<Self, DecodeError>) {
        match j {
            Json::Str(s) => Ok(s.clone()),
            _ => Err(DecodeError::Malformed),
        }
    }
}

impl FromJson for bool {
    open spec fn decoded_from(&self, j: Json) -> bool {
        j == Json::Bool(*self)
    }

    open spec fn failure(j: Json) -> DecodeFailure {
        DecodeFailure::Malformed
    }

    fn from_json(j: &Json) -> (r: Result<Self, DecodeError>) {
        match j {
            Json::Bool(b) => Ok(*b),
            _ => Err(DecodeError::Malformed),
        }
    }
}

impl FromJson for u32 {
    open spec fn decoded_from(&self, j: Json) -> bool {
        j matches Json::Int(n) && n == *self
    }

    open spec fn failure(j: Json) -> DecodeFailure {
        DecodeFailure::Malformed
    }

    fn from_json(j: &Json) -> (r: Result<Self, DecodeError>) {
        match j {
            Json::Int(n) => {
                if 0 <= *n && *n <= 0xffff_ffff {
                    Ok(*n as u32)
                } else {
                    Err(DecodeError::Malformed)
                }
            },
            _ => Err(DecodeError::Malformed),
        }
    }
}

impl FromJson for i32 {
    open spec fn decoded_from(&self, j: Json) -> bool {
        j matches Json::Int(n) && n == *self
    }

    open spec fn failure(j: Json) -> DecodeFailure {
        DecodeFailure::Malformed
    }

    fn from_json(j: &Json) -> (r: Result<Self, DecodeError>) {
        match j {
            Json::Int(n) => {
                if -0x8000_0000 <= *n && *n <= 0x7fff_ffff {
                    Ok(*n as i32)
                } else {
                    Err(DecodeError::Malformed)
                }
            },
            _ => Err(DecodeError::Malformed),
        }
    }
}

impl FromJson for i64 {
    open spec fn decoded_from(&self, j: Json) -> bool {
        j matches Json::Int(n) && n == *self
    }

    open spec fn failure(j: Json) -> DecodeFailure {
        DecodeFailure::Malformed
    }

    fn from_json(j: &Json) -> (r: Result<Self, DecodeError>) {
        match j {
            Json::Int(n) => {
                if -0x8000_0000_0000_0000 <= *n && *n <= 0x7fff_ffff_ffff_ffff {
                    Ok(*n as i64)
                } else {
                    Err(DecodeError::Malformed)
                }
            },
            _ => Err(DecodeError::Malformed),
        }
    }
}

/// What reading the items of an array reports: the failure of the first
/// item that is not read.
pub open spec fn items_failure<T: FromJson>(items: Seq<Json>) -> DecodeFailure
    decreases items.len(),
{
    if items.len() == 0 {
        DecodeFailure::Malformed
    } else if !decodable::<T>(items[0]) {
        T::failure(items[0])
    } else {
        items_failure::<T>(items.drop_first())
    }
}

/// The first item that is not read gives the array's failure.
proof fn lemma_items_failure<T: FromJson>(items: Seq<Json>, i: int)
    requires
        0 <= i < items.len(),
        forall|k: int| 0 <= k < i ==> decodable::<T>(#[trigger] items[k]),
        !decodable::<T>(items[i]),
    ensures
        items_failure::<T>(items) == T::failure(items[i]),
    decreases i,
{
    if i > 0 {
        assert(decodable::<T>(items[0]));
        let rest = items.drop_first();
        assert forall|k: int| 0 <= k < i - 1 implies decodable::<T>(#[trigger] rest[k]) by {
            assert(rest[k] == items[k + 1]);
        }
        lemma_items_failure::<T>(rest, i - 1);
    }
}

impl<T: FromJson> FromJson for Vec<T> {
    open spec fn decoded_from(&self, j: Json) -> bool {
        &&& j matches Json::Array(items)
        &&& items@.len() == self@.len()
        &&& forall|i: int| 0 <= i < self@.len() ==> #[trigger] self@[i].decoded_from(items@[i])
    }

    open spec fn failure(j: Json) -> DecodeFailure {
        match j {
            Json::Array(items) => items_failure::<T>(items@),
            _ => DecodeFailure::Malformed,
        }
    }

    fn from_json(j: &Json) -> (r: Result<Self, DecodeError>) {
        match j {
            Json::Array(items) => {
                let mut out: Vec<T> = Vec::new();
                let mut i: usize = 0;
                while i < items.len()
                    invariant
                        i <= items.len(),
                        *j == Json::Array(*items),
                        out@.len() == i,
                        forall|k: int| 0 <= k < i ==> #[trigger] out@[k].decoded_from(items@[k]),
                    decreases items.len() - i,
                {
                    match T::from_json(&items[i]) {
                        Ok(x) => out.push(x),
                        Err(e) => {
                            assert forall|v: Vec<T>| !v.decoded_from(*j) by {
                                if v.decoded_from(*j) {
                                    assert(v@[i as int].decoded_from(items@[i as int]));
                                }
                            }
                            proof {
                                assert forall|k: int| 0 <= k < i implies decodable::<T>(#[trigger] items@[k]) by {
                                    assert(out@[k].decoded_from(items@[k]));
                                }
                                lemma_items_failure::<T>(items@, i as int);
                            }
                            return Err(e);
                        },
                    }
                    i = i + 1;
                }
                Ok(out)
            },
            _ => Err(DecodeError::Malformed),
        }
    }
}

impl<T: FromJson> FromJson for Option<T> {
    open spec fn decoded_from(&self, j: Json) -> bool {
        match self {
            None => j is Null,
            Some(x) => !(j is Null) && x.decoded_from(j),
        }
    }

    open spec fn failure(j: Json) -> DecodeFailure {
        if j is Null {
            DecodeFailure::Malformed
        } else {
            T::failure(j)
        }
    }

    fn from_json(j: &Json) -> (r: Result<Self, DecodeError>) {
        if j.is_null() {
            Ok(None)
        } else {
            let x = T::from_json(j)?;
            Ok(Some(x))
        }
    }
}

/// Plain values read out of JSON: a string from a JSON string with the same
/// text, a flag from the same JSON boolean, a number from the same JSON
/// integer, `None` from `null` alone, and a list item by item, in order.
pub proof fn lemma_plain_values<T: FromJson>(
    j: Json,
    s: String,
    b: bool,
    n: i64,
    o: Option<T>,
    v: Vec<T>,
)
    ensures
        s.decoded_from(j) <==> (j matches Json::Str(t) && t@ == s@),
        b.decoded_from(j) <==> j == Json::Bool(b),
        n.decoded_from(j) <==> j == Json::Int(n as i128),
        o is None ==> (o.decoded_from(j) <==> j is Null),
        o matches Some(x) ==> (o.decoded_from(j) <==> !(j is Null) && x.decoded_from(j)),
        v.decoded_from(j) <==> (j matches Json::Array(items) && items@.len() == v@.len() && forall|i: int|
            0 <= i < v@.len() ==> #[trigger] v@[i].decoded_from(items@[i])),
{
}

/// Some `T` is read out of `j`.
pub open spec fn decodable<T: FromJson>(j: Json) -> bool {
    exists|x: T| x.decoded_from(j)
}

/// Reads member `key` of `j` (`null` when absent) as a `T`.
pub fn read_member<T: FromJson>(j: &Json, key: &str) -> (r: Result<T, DecodeError>)
    ensures
        r matches Ok(x) ==> x.decoded_from(member(*j, key@)),
        r is Err ==> forall|x: T| !x.decoded_from(member(*j, key@)),
        r matches Err(e) ==> e@ == T::failure(member(*j, key@)),
{
    match find_member(j, key) {
        Some(v) => T::from_json(v),
        None => {
            let null = Json::Null;
            T::from_json(&null)
        },
    }
}

/// The text of member `key` of `j`, when that member is a string.
pub open spec fn member_text(j: Json, key: Seq<char>) -> Option<Seq<char>> {
    match member(j, key) {
        Json::Str(s) => Some(s@),
        _ => None,
    }
}

/// Reads member `key` of `j` when it is a string.
pub fn member_str<'a>(j: &'a Json, key: &str) -> (r: Option<&'a String>)
    ensures
        match r {
            Some(s) => member_text(*j, key@) == Some(s@),
            None => member_text(*j, key@) is None,
        },
{
    match find_member(j, key) {
        Some(v) => match v {
            Json::Str(s) => Some(s),
            _ => None,
        },
        None => None,
    }
}

} // verus!
