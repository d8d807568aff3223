//! The closed set of value variants that travel between the device and the
//! remote platform, with structural equality over their mathematical views.
//!
//! A 64-bit integer payload is carried as `i64` end to end, so the full
//! 64-bit magnitude (beyond the 2^53 exact range of double precision) is
//! preserved by construction. A double-precision payload is carried as its
//! raw IEEE-754 bit pattern (`u64`); a timestamp as milliseconds since the
//! Unix epoch (`i64`).

use vstd::prelude::*;

verus! {

/// Mathematical view of an [`AstarteType`]: every payload reduced to
/// booleans, integers and sequences.
pub enum AstarteTypeView {
    Boolean(bool),
    Integer(i32),
    LongInteger(i64),
    Double(u64),
    String(Seq<char>),
    BinaryBlob(Seq<u8>),
    Timestamp(i64),
    BooleanArray(Seq<bool>),
    IntegerArray(Seq<i32>),
    LongIntegerArray(Seq<i64>),
    DoubleArray(Seq<u64>),
    StringArray(Seq<Seq<char>>),
    BinaryBlobArray(Seq<Seq<u8>>),
    TimestampArray(Seq<i64>),
}

/// The views of a sequence of strings.
pub open spec fn str_views(s: Seq<String>) -> Seq<Seq<char>> {
    s.map_values(|x: String| x@)
}

/// The views of a sequence of binary blobs.
pub open spec fn blob_views(s: Seq<Vec<u8>>) -> Seq<Seq<u8>> {
    s.map_values(|x: Vec<u8>| x@)
}

/// A single typed value: one scalar or one array, immutable once built.
///
/// The `Double` variants hold the IEEE-754 bit pattern of the number; the
/// `Timestamp` variants hold milliseconds since the Unix epoch.
#[derive(Debug)]
pub enum AstarteType {
    Boolean(bool),
    Integer(i32),
    LongInteger(i64),
    Double(u64),
    String(String),
    BinaryBlob(Vec<u8>),
    Timestamp(i64),
    BooleanArray(Vec<bool>),
    IntegerArray(Vec<i32>),
    LongIntegerArray(Vec<i64>),
    DoubleArray(Vec<u64>),
    StringArray(Vec<String>),
    BinaryBlobArray(Vec<Vec<u8>>),
    TimestampArray(Vec<i64>),
}

impl View for AstarteType {
    type V = AstarteTypeView;

    open spec fn view(&self) -> AstarteTypeView {
        match self {
            AstarteType::Boolean(b) => AstarteTypeView::Boolean(*b),
            AstarteType::Integer(x) => AstarteTypeView::Integer(*x),
            AstarteType::LongInteger(x) => AstarteTypeView::LongInteger(*x),
            AstarteType::Double(x) => AstarteTypeView::Double(*x),
            AstarteType::String(s) => AstarteTypeView::String(s@),
            AstarteType::BinaryBlob(b) => AstarteTypeView::BinaryBlob(b@),
            AstarteType::Timestamp(t) => AstarteTypeView::Timestamp(*t),
            AstarteType::BooleanArray(v) => AstarteTypeView::BooleanArray(v@),
            AstarteType::IntegerArray(v) => AstarteTypeView::IntegerArray(v@),
            AstarteType::LongIntegerArray(v) => AstarteTypeView::LongIntegerArray(v@),
            AstarteType::DoubleArray(v) => AstarteTypeView::DoubleArray(v@),
            AstarteType::StringArray(v) => AstarteTypeView::StringArray(str_views(v@)),
            AstarteType::BinaryBlobArray(v) => AstarteTypeView::BinaryBlobArray(blob_views(v@)),
            AstarteType::TimestampArray(v) => AstarteTypeView::TimestampArray(v@),
        }
    }
}

fn eq_bool_vec(a: &Vec<bool>, b: &Vec<bool>) -> (r: bool)
    ensures
        r == (a@ == b@),
{
    if a.len() != b.len() {
        return false;
    }
    let mut i: usize = 0;
    while i < a.len()
        invariant
            a@.len() == b@.len(),
            i <= a@.len(),
            forall|j: int| 0 <= j < i ==> a@[j] == b@[j],
        decreases a@.len() - i,
    {
        if a[i] != b[i] {
            return false;
        }
        i = i + 1;
    }
    proof {
        assert(a@ =~= b@);
    }
    true
}

fn eq_i32_vec(a: &Vec<i32>, b: &Vec<i32>) -> (r: bool)
    ensures
        r == (a@ == b@),
{
    if a.len() != b.len() {
        return false;
    }
    let mut i: usize = 0;
    while i < a.len()
        invariant
            a@.len() == b@.len(),
            i <= a@.len(),
            forall|j: int| 0 <= j < i ==> a@[j] == b@[j],
        decreases a@.len() - i,
    {
        if a[i] != b[i] {
            return false;
        }
        i = i + 1;
    }
    proof {
        assert(a@ =~= b@);
    }
    true
}

fn eq_i64_vec(a: &Vec<i64>, b: &Vec<i64>) -> (r: bool)
    ensures
        r == (a@ == b@),
{
    if a.len() != b.len() {
        return false;
    }
    let mut i: usize = 0;
    while i < a.len()
        invariant
            a@.len() == b@.len(),
            i <= a@.len(),
            forall|j: int| 0 <= j < i ==> a@[j] == b@[j],
        decreases a@.len() - i,
    {
        if a[i] != b[i] {
            return false;
        }
        i = i + 1;
    }
    proof {
        assert(a@ =~= b@);
    }
    true
}

fn eq_u64_vec(a: &Vec<u64>, b: &Vec<u64>) -> (r: bool)
    ensures
        r == (a@ == b@),
{
    if a.len() != b.len() {
        return false;
    }
    let mut i: usize = 0;
    while i < a.len()
        invariant
            a@.len() == b@.len(),
            i <= a@.len(),
            forall|j: int| 0 <= j < i ==> a@[j] == b@[j],
        decreases a@.len() - i,
    {
        if a[i] != b[i] {
            return false;
        }
        i = i + 1;
    }
    proof {
        assert(a@ =~= b@);
    }
    true
}

fn eq_u8_vec(a: &Vec<u8>, b: &Vec<u8>) -> (r: bool)
    ensures
        r == (a@ == b@),
{
    if a.len() != b.len() {
        return false;
    }
    let mut i: usize = 0;
    while i < a.len()
        invariant
            a@.len() == b@.len(),
            i <= a@.len(),
            forall|j: int| 0 <= j < i ==> a@[j] == b@[j],
        decreases a@.len() - i,
    {
        if a[i] != b[i] {
            return false;
        }
        i = i + 1;
    }
    proof {
        assert(a@ =~= b@);
    }
    true
}

fn eq_string_vec(a: &Vec<String>, b: &Vec<String>) -> (r: bool)
    ensures
        r == (str_views(a@) == str_views(b@)),
{
    if a.len() != b.len() {
        proof {
            assert(str_views(a@).len() != str_views(b@).len());
        }
        return false;
    }
    let mut i: usize = 0;
    while i < a.len()
        invariant
            a@.len() == b@.len(),
            i <= a@.len(),
            forall|j: int| 0 <= j < i ==> a@[j]@ == b@[j]@,
        decreases a@.len() - i,
    {
        if !(a[i] == b[i]) {
            proof {
                assert(str_views(a@)[i as int] != str_views(b@)[i as int]);
            }
            return false;
        }
        i = i + 1;
    }
    proof {
        assert(str_views(a@) =~= str_views(b@));
    }
    true
}

fn eq_blob_vec(a: &Vec<Vec<u8>>, b: &Vec<Vec<u8>>) -> (r: bool)
    ensures
        r == (blob_views(a@) == blob_views(b@)),
{
    if a.len() != b.len() {
        proof {
            assert(blob_views(a@).len() != blob_views(b@).len());
        }
        return false;
    }
    let mut i: usize = 0;
    while i < a.len()
        invariant
            a@.len() == b@.len(),
            i <= a@.len(),
            forall|j: int| 0 <= j < i ==> a@[j]@ == b@[j]@,
        decreases a@.len() - i,
    {
        if !eq_u8_vec(&a[i], &b[i]) {
            proof {
                assert(blob_views(a@)[i as int] != blob_views(b@)[i as int]);
            }
            return false;
        }
        i = i + 1;
    }
    proof {
        assert(blob_views(a@) =~= blob_views(b@));
    }
    true
}

/// Structural, variant-exact equality: two values are equal exactly when
/// they carry the same variant and an identical payload.
pub fn type_eq(slf: &AstarteType, other: &AstarteType) -> (r: bool)
    ensures
        r == (slf@ == other@),
{
    let r = match (slf, other) {
            (AstarteType::Boolean(a), AstarteType::Boolean(b)) => *a == *b,
            (AstarteType::Integer(a), AstarteType::Integer(b)) => *a == *b,
            (AstarteType::LongInteger(a), AstarteType::LongInteger(b)) => *a == *b,
            (AstarteType::Double(a), AstarteType::Double(b)) => *a == *b,
            (AstarteType::String(a), AstarteType::String(b)) => *a == *b,
            (AstarteType::BinaryBlob(a), AstarteType::BinaryBlob(b)) => eq_u8_vec(a, b),
            (AstarteType::Timestamp(a), AstarteType::Timestamp(b)) => *a == *b,
            (AstarteType::BooleanArray(a), AstarteType::BooleanArray(b)) => eq_bool_vec(a, b),
            (AstarteType::IntegerArray(a), AstarteType::IntegerArray(b)) => eq_i32_vec(a, b),
            (AstarteType::LongIntegerArray(a), AstarteType::LongIntegerArray(b)) => eq_i64_vec(
                a,
                b,
            ),
            (AstarteType::DoubleArray(a), AstarteType::DoubleArray(b)) => eq_u64_vec(a, b),
            (AstarteType::StringArray(a), AstarteType::StringArray(b)) => eq_string_vec(a, b),
            (AstarteType::BinaryBlobArray(a), AstarteType::BinaryBlobArray(b)) => eq_blob_vec(
                a,
                b,
            ),
            (AstarteType::TimestampArray(a), AstarteType::TimestampArray(b)) => eq_i64_vec(a, b),
            _ => false,
    };
    r
}

impl PartialEq for AstarteType {
    fn eq(&self, other: &Self) -> (r: bool) {
        type_eq(self, other)
    }
}

impl vstd::std_specs::cmp::PartialEqSpecImpl for AstarteType {
    open spec fn obeys_eq_spec() -> bool {
        true
    }

    open spec fn eq_spec(&self, other: &Self) -> bool {
        self@ == other@
    }
}

impl Clone for AstarteType {
    /// A copy preserves the value's view exactly, the full 64-bit integer
    /// payloads included.
    fn clone(&self) -> (res: Self)
        ensures
            res@ == self@,
    {
        match self {
            AstarteType::Boolean(b) => AstarteType::Boolean(*b),
            AstarteType::Integer(x) => AstarteType::Integer(*x),
            AstarteType::LongInteger(x) => AstarteType::LongInteger(*x),
            AstarteType::Double(x) => AstarteType::Double(*x),
            AstarteType::String(s) => AstarteType::String(s.clone()),
            AstarteType::BinaryBlob(b) => AstarteType::BinaryBlob(clone_u8_vec(b)),
            AstarteType::Timestamp(t) => AstarteType::Timestamp(*t),
            AstarteType::BooleanArray(v) => AstarteType::BooleanArray(clone_bool_vec(v)),
            AstarteType::IntegerArray(v) => AstarteType::IntegerArray(clone_i32_vec(v)),
            AstarteType::LongIntegerArray(v) => AstarteType::LongIntegerArray(clone_i64_vec(v)),
            AstarteType::DoubleArray(v) => AstarteType::DoubleArray(clone_u64_vec(v)),
            AstarteType::StringArray(v) => AstarteType::StringArray(clone_string_vec(v)),
            AstarteType::BinaryBlobArray(v) => AstarteType::BinaryBlobArray(clone_blob_vec(v)),
            AstarteType::TimestampArray(v) => AstarteType::TimestampArray(clone_i64_vec(v)),
        }
    }
}

impl From<&str> for AstarteType {
    /// Tags the characters as a string value; no validation happens beyond
    /// the type tagging.
    fn from(s: &str) -> (r: Self)
        ensures
            r@ == AstarteTypeView::String(s@),
    {
        AstarteType::String(s.to_owned())
    }
}

impl vstd::std_specs::convert::FromSpecImpl<&str> for AstarteType {
    open spec fn obeys_from_spec() -> bool {
        false
    }

    open spec fn from_spec(v: &str) -> Self {
        arbitrary()
    }
}

fn clone_bool_vec(v: &Vec<bool>) -> (r: Vec<bool>)
    ensures
        r@ == v@,
{
    let mut r: Vec<bool> = Vec::new();
    let mut i: usize = 0;
    while i < v.len()
        invariant
            i <= v@.len(),
            r@ == v@.take(i as int),
        decreases v@.len() - i,
    {
        r.push(v[i]);
        proof {
            assert(r@ =~= v@.take(i + 1 as int));
        }
        i = i + 1;
    }
    proof {
        assert(v@.take(v@.len() as int) =~= v@);
    }
    r
}

fn clone_i32_vec(v: &Vec<i32>) -> (r: Vec<i32>)
    ensures
        r@ == v@,
{
    let mut r: Vec<i32> = Vec::new();
    let mut i: usize = 0;
    while i < v.len()
        invariant
            i <= v@.len(),
            r@ == v@.take(i as int),
        decreases v@.len() - i,
    {
        r.push(v[i]);
        proof {
            assert(r@ =~= v@.take(i + 1 as int));
        }
        i = i + 1;
    }
    proof {
        assert(v@.take(v@.len() as int) =~= v@);
    }
    r
}

fn clone_i64_vec(v: &Vec<i64>) -> (r: Vec<i64>)
    ensures
        r@ == v@,
{
    let mut r: Vec<i64> = Vec::new();
    let mut i: usize = 0;
    while i < v.len()
        invariant
            i <= v@.len(),
            r@ == v@.take(i as int),
        decreases v@.len() - i,
    {
        r.push(v[i]);
        proof {
            assert(r@ =~= v@.take(i + 1 as int));
        }
        i = i + 1;
    }
    proof {
        assert(v@.take(v@.len() as int) =~= v@);
    }
    r
}

fn clone_u64_vec(v: &Vec<u64>) -> (r: Vec<u64>)
    ensures
        r@ == v@,
{
    let mut r: Vec<u64> = Vec::new();
    let mut i: usize = 0;
    while i < v.len()
        invariant
            i <= v@.len(),
            r@ == v@.take(i as int),
        decreases v@.len() - i,
    {
        r.push(v[i]);
        proof {
            assert(r@ =~= v@.take(i + 1 as int));
        }
        i = i + 1;
    }
    proof {
        assert(v@.take(v@.len() as int) =~= v@);
    }
    r
}

fn clone_u8_vec(v: &Vec<u8>) -> (r: Vec<u8>)
    ensures
        r@ == v@,
{
    let mut r: Vec<u8> = Vec::new();
    let mut i: usize = 0;
    while i < v.len()
        invariant
            i <= v@.len(),
            r@ == v@.take(i as int),
        decreases v@.len() - i,
    {
        r.push(v[i]);
        proof {
            assert(r@ =~= v@.take(i + 1 as int));
        }
        i = i + 1;
    }
    proof {
        assert(v@.take(v@.len() as int) =~= v@);
    }
    r
}

fn clone_string_vec(v: &Vec<String>) -> (r: Vec<String>)
    ensures
        r@ == v@,
{
    let mut r: Vec<String> = Vec::new();
    let mut i: usize = 0;
    while i < v.len()
        invariant
            i <= v@.len(),
            r@ == v@.take(i as int),
        decreases v@.len() - i,
    {
        r.push(v[i].clone());
        proof {
            assert(r@ =~= v@.take(i + 1 as int));
        }
        i = i + 1;
    }
    proof {
        assert(v@.take(v@.len() as int) =~= v@);
    }
    r
}

fn clone_blob_vec(v: &Vec<Vec<u8>>) -> (r: Vec<Vec<u8>>)
    ensures
        blob_views(r@) == blob_views(v@),
{
    let mut r: Vec<Vec<u8>> = Vec::new();
    let mut i: usize = 0;
    while i < v.len()
        invariant
            i <= v@.len(),
            r@.len() == i,
            forall|j: int| 0 <= j < i ==> r@[j]@ == v@[j]@,
        decreases v@.len() - i,
    {
        r.push(clone_u8_vec(&v[i]));
        i = i + 1;
    }
    proof {
        assert(blob_views(r@) =~= blob_views(v@));
    }
    r
}

} // verus!
