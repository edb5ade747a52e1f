//! The typed record: a flat field-name -> raw-text mapping with fallible
//! typed reads.
//!
//! A record is built once from decoded tabular input and is read-only for
//! the duration of an evaluation.  Keys are unique; a missing key or an
//! unparseable value is reported at read time as an ordinary error string,
//! never as a crash.

use vstd::prelude::*;
use crate::numeric::{
    parse_millis, parse_millis_exec, trunc_of, div_trunc, lemma_parse_millis_bounds,
    MAX_ABS_MILLIS, MILLIS_PER_UNIT,
};
use crate::strutil::{contains_sub, str_contains, str_eq};

verus! {

/// Reason reported when a queried field does not exist.
pub open spec fn missing_reason() -> Seq<char> {
    "Expected value not found!"@
}

/// Reason reported when a field's text does not read as a number.
pub open spec fn not_numeric_reason() -> Seq<char> {
    "invalid float literal"@
}

/// First value stored under `key`, scanning pairs front to back.
pub open spec fn lookup(ps: Seq<(Seq<char>, Seq<char>)>, key: Seq<char>) -> Option<Seq<char>>
    decreases ps.len(),
{
    if ps.len() == 0 {
        None
    } else if ps[0].0 == key {
        Some(ps[0].1)
    } else {
        lookup(ps.drop_first(), key)
    }
}

/// No field name occurs twice.
pub open spec fn unique_keys(ps: Seq<(Seq<char>, Seq<char>)>) -> bool {
    forall|i: int, j: int|
        0 <= i < j < ps.len() ==> (#[trigger] ps[i]).0 != (#[trigger] ps[j]).0
}

pub proof fn lemma_lookup_push(
    ps: Seq<(Seq<char>, Seq<char>)>,
    p: (Seq<char>, Seq<char>),
    key: Seq<char>,
)
    ensures
        lookup(ps.push(p), key) == (if lookup(ps, key) is Some {
            lookup(ps, key)
        } else if p.0 == key {
            Some(p.1)
        } else {
            None::<Seq<char>>
        }),
    decreases ps.len(),
{
    if ps.len() == 0 {
        assert(ps.push(p)[0] == p);
        assert(ps.push(p).drop_first() =~= Seq::<(Seq<char>, Seq<char>)>::empty());
    } else {
        assert(ps.push(p)[0] == ps[0]);
        assert(ps.push(p).drop_first() =~= ps.drop_first().push(p));
        lemma_lookup_push(ps.drop_first(), p, key);
    }
}

pub proof fn lemma_lookup_none(ps: Seq<(Seq<char>, Seq<char>)>, key: Seq<char>)
    ensures
        (lookup(ps, key) is None) <==> (forall|i: int|
            0 <= i < ps.len() ==> (#[trigger] ps[i]).0 != key),
    decreases ps.len(),
{
    if ps.len() > 0 {
        lemma_lookup_none(ps.drop_first(), key);
        if lookup(ps, key) is None {
            assert forall|i: int| 0 <= i < ps.len() implies (#[trigger] ps[i]).0 != key by {
                if i > 0 {
                    assert(ps.drop_first()[i - 1] == ps[i]);
                }
            }
        } else {
            if ps[0].0 == key {
            } else {
                assert(!(forall|i: int|
                    0 <= i < ps.drop_first().len() ==> (#[trigger] ps.drop_first()[i]).0
                        != key));
                let i = choose|i: int|
                    0 <= i < ps.drop_first().len() && (#[trigger] ps.drop_first()[i]).0 == key;
                assert(ps[i + 1] == ps.drop_first()[i]);
            }
        }
    }
}

/// Result of reading a raw field: the stored text, or the missing-field
/// reason.
pub open spec fn spec_get(ps: Seq<(Seq<char>, Seq<char>)>, key: Seq<char>) -> Result<
    Seq<char>,
    Seq<char>,
> {
    match lookup(ps, key) {
        Some(v) => Ok(v),
        None => Err(missing_reason()),
    }
}

/// Result of reading a field as a fixed-point number in millis.
pub open spec fn spec_get_millis(ps: Seq<(Seq<char>, Seq<char>)>, key: Seq<char>) -> Result<
    int,
    Seq<char>,
> {
    match spec_get(ps, key) {
        Ok(v) => match parse_millis(v) {
            Some(n) => Ok(n),
            None => Err(not_numeric_reason()),
        },
        Err(e) => Err(e),
    }
}

/// How a numeric field becomes an unsigned whole number: truncation toward
/// zero, with negative values clamped to zero.
pub open spec fn millis_to_usize(n: int) -> int {
    if trunc_of(n, MILLIS_PER_UNIT as int) < 0 {
        0
    } else {
        trunc_of(n, MILLIS_PER_UNIT as int)
    }
}

/// Result of reading a field as an unsigned whole number.
pub open spec fn spec_get_usize(ps: Seq<(Seq<char>, Seq<char>)>, key: Seq<char>) -> Result<
    int,
    Seq<char>,
> {
    match spec_get_millis(ps, key) {
        Ok(n) => Ok(millis_to_usize(n)),
        Err(e) => Err(e),
    }
}

/// Some stored value contains `needle` as a substring.
pub open spec fn record_contains_sub(ps: Seq<(Seq<char>, Seq<char>)>, needle: Seq<char>) -> bool {
    exists|i: int| 0 <= i < ps.len() && contains_sub((#[trigger] ps[i]).1, needle)
}

/// One vehicle-configuration snapshot: unique field names mapped to raw
/// text values.
pub struct CarData {
    pairs: Vec<(String, String)>,
}

impl View for CarData {
    type V = Seq<(Seq<char>, Seq<char>)>;

    closed spec fn view(&self) -> Seq<(Seq<char>, Seq<char>)> {
        self.pairs.deep_view()
    }
}

/// First stored value under `key`, cloned out of the vector.
fn find_value(pairs: &Vec<(String, String)>, key: &str) -> (r: Option<String>)
    ensures
        match r {
            Some(v) => lookup(pairs.deep_view(), key@) == Some(v@),
            None => lookup(pairs.deep_view(), key@) is None,
        },
{
    let ghost ps = pairs.deep_view();
    proof {
        assert(ps.skip(0) =~= ps);
    }
    let n = pairs.len();
    let mut i: usize = 0;
    while i < n
        invariant
            n == pairs@.len(),
            ps == pairs.deep_view(),
            i <= n,
            lookup(ps, key@) == lookup(ps.skip(i as int), key@),
        decreases n - i,
    {
        proof {
            assert(ps.skip(i as int)[0] == ps[i as int]);
        }
        if str_eq(pairs[i].0.as_str(), key) {
            return Some(pairs[i].1.clone());
        }
        proof {
            assert(ps.skip(i as int).drop_first() =~= ps.skip(i as int + 1));
        }
        i += 1;
    }
    proof {
        assert(ps.skip(n as int) =~= Seq::<(Seq<char>, Seq<char>)>::empty());
    }
    None
}

impl CarData {
    /// Unique field names: established at construction, preserved by every
    /// read.
    pub open spec fn wf(&self) -> bool {
        unique_keys(self@)
    }

    /// Builds a record from decoded pairs, keeping the first occurrence of
    /// each field name.
    pub fn from_pairs(pairs: Vec<(String, String)>) -> (r: CarData)
        ensures
            r.wf(),
            forall|k: Seq<char>| #[trigger] lookup(r@, k) == lookup(pairs.deep_view(), k),
    {
        let ghost full = pairs.deep_view();
        let n = pairs.len();
        let mut kept: Vec<(String, String)> = Vec::new();
        let mut i: usize = 0;
        while i < n
            invariant
                n == pairs@.len(),
                full == pairs.deep_view(),
                i <= n,
                unique_keys(kept.deep_view()),
                forall|k: Seq<char>| #[trigger] lookup(kept.deep_view(), k) == lookup(
                    full.take(i as int),
                    k,
                ),
            decreases n - i,
        {
            let ghost old_kept = kept.deep_view();
            let ghost p = full[i as int];
            let key_known = find_value(&kept, pairs[i].0.as_str());
            if key_known.is_none() {
                let entry = (pairs[i].0.clone(), pairs[i].1.clone());
                kept.push(entry);
                proof {
                    assert(kept.deep_view() =~= old_kept.push(p));
                    lemma_lookup_none(old_kept, p.0);
                    let new_kept = kept.deep_view();
                    assert forall|a: int, b: int|
                        0 <= a < b < new_kept.len() implies (#[trigger] new_kept[a]).0 != (
                    #[trigger] new_kept[b]).0 by {
                        assert(new_kept[a] == old_kept[a]);
                        if b < old_kept.len() {
                            assert(new_kept[b] == old_kept[b]);
                        }
                    }
                }
            }
            proof {
                assert(full.take(i as int + 1) =~= full.take(i as int).push(p));
                assert forall|k: Seq<char>| #[trigger] lookup(kept.deep_view(), k) == lookup(
                    full.take(i as int + 1),
                    k,
                ) by {
                    lemma_lookup_push(full.take(i as int), p, k);
                    if key_known is None {
                        lemma_lookup_push(old_kept, p, k);
                    }
                }
            }
            i += 1;
        }
        proof {
            assert(full.take(n as int) =~= full);
        }
        CarData { pairs: kept }
    }

    /// Raw read of one field; fails with the missing-field reason when the
    /// record has no such field.
    pub fn get(&self, key: &str) -> (r: Result<String, String>)
        ensures
            match r {
                Ok(v) => spec_get(self@, key@) == Ok::<Seq<char>, Seq<char>>(v@),
                Err(m) => spec_get(self@, key@) == Err::<Seq<char>, Seq<char>>(m@)
                    && lookup(self@, key@) is None,
            },
    {
        match find_value(&self.pairs, key) {
            Some(v) => Ok(v),
            None => Err("Expected value not found!".to_owned()),
        }
    }

    /// Reads a field as a fixed-point number in millis.
    pub fn get_millis(&self, key: &str) -> (r: Result<i64, String>)
        ensures
            match r {
                Ok(n) => spec_get_millis(self@, key@) == Ok::<int, Seq<char>>(n as int)
                    && -MAX_ABS_MILLIS <= n <= MAX_ABS_MILLIS,
                Err(m) => spec_get_millis(self@, key@) == Err::<int, Seq<char>>(m@),
            },
    {
        match self.get(key) {
            Err(m) => Err(m),
            Ok(v) => match parse_millis_exec(v.as_str()) {
                Some(n) => {
                    proof {
                        lemma_parse_millis_bounds(v@);
                    }
                    Ok(n)
                },
                None => Err("invalid float literal".to_owned()),
            },
        }
    }

    /// Reads a field as an unsigned whole number: the numeric value
    /// truncated toward zero, clamped below at zero.
    pub fn get_usize(&self, key: &str) -> (r: Result<usize, String>)
        ensures
            match r {
                Ok(u) => spec_get_usize(self@, key@) == Ok::<int, Seq<char>>(u as int) && u
                    < 1_000_000_000,
                Err(m) => spec_get_usize(self@, key@) == Err::<int, Seq<char>>(m@),
            },
    {
        match self.get_millis(key) {
            Err(m) => Err(m),
            Ok(n) => {
                let t = div_trunc(n, MILLIS_PER_UNIT);
                if t < 0 {
                    Ok(0)
                } else {
                    Ok(t as usize)
                }
            },
        }
    }

    /// Sum of the two recorded total-cost fields.
    pub fn get_cost(&self) -> (r: Result<usize, String>)
        ensures
            match r {
                Ok(c) => spec_get_usize(self@, "Trim Total Costs"@) is Ok && spec_get_usize(
                    self@,
                    "Engine Total Cost"@,
                ) is Ok && c == spec_get_usize(self@, "Trim Total Costs"@)->Ok_0 + spec_get_usize(
                    self@,
                    "Engine Total Cost"@,
                )->Ok_0,
                Err(m) => spec_get_usize(self@, "Trim Total Costs"@) == Err::<int, Seq<char>>(m@)
                    || (spec_get_usize(self@, "Trim Total Costs"@) is Ok && spec_get_usize(
                    self@,
                    "Engine Total Cost"@,
                ) == Err::<int, Seq<char>>(m@)),
            },
    {
        let trim_cost = match self.get_usize("Trim Total Costs") {
            Ok(u) => u,
            Err(m) => {
                return Err(m);
            },
        };
        let engine_cost = match self.get_usize("Engine Total Cost") {
            Ok(u) => u,
            Err(m) => {
                return Err(m);
            },
        };
        Ok(trim_cost + engine_cost)
    }

    /// Case-sensitive substring scan over every stored value, used for
    /// banned-part detection.
    pub fn contains_part(&self, needle: &str) -> (r: bool)
        ensures
            r == record_contains_sub(self@, needle@),
    {
        let n = self.pairs.len();
        let mut i: usize = 0;
        while i < n
            invariant
                n == self.pairs@.len(),
                i <= n,
                self@.len() == n,
                forall|k: int| 0 <= k < i ==> !contains_sub((#[trigger] self@[k]).1, needle@),
            decreases n - i,
        {
            if str_contains(self.pairs[i].1.as_str(), needle) {
                proof {
                    assert(contains_sub((self@[i as int]).1, needle@));
                }
                return true;
            }
            i += 1;
        }
        false
    }

    /// Number of stored fields.
    pub fn len(&self) -> (r: usize)
        ensures
            r == self@.len(),
    {
        self.pairs.len()
    }

    /// Field name at position `i`, for scans over the whole record.
    pub fn key_at(&self, i: usize) -> (r: &String)
        requires
            i < self@.len(),
        ensures
            r@ == self@[i as int].0,
    {
        &self.pairs[i].0
    }

    /// Raw value at position `i`, for scans over the whole record.
    pub fn value_at(&self, i: usize) -> (r: &String)
        requires
            i < self@.len(),
        ensures
            r@ == self@[i as int].1,
    {
        &self.pairs[i].1
    }
}

/// Relies on `csv::Reader::from_reader` and `Reader::deserialize` with a
/// string-keyed map as the row type: yields the first data row of `text`
/// keyed by the header row, and a map row cannot hold one key twice.
#[verifier::external_body]
fn csv_first_row(text: &str) -> (r: Result<Vec<(String, String)>, String>)
    ensures
        match r {
            Ok(pairs) => unique_keys(pairs.deep_view()),
            Err(_) => true,
        },
{
    let mut rdr = csv::Reader::from_reader(text.as_bytes());
    let mut iter = rdr.deserialize::<std::collections::HashMap<String, String>>();
    match iter.next() {
        None => Ok(Vec::new()),
        Some(Ok(row)) => Ok(row.into_iter().collect()),
        Some(Err(e)) => Err(e.to_string()),
    }
}

/// Decodes the first data row of a tabular export into a record.
pub fn from_utf8_string(utf8: String) -> (r: Result<CarData, String>)
    ensures
        match r {
            Ok(cd) => cd.wf(),
            Err(_) => true,
        },
{
    match csv_first_row(utf8.as_str()) {
        Ok(pairs) => Ok(CarData { pairs }),
        Err(e) => Err(e),
    }
}

} // verus!
