//! Parameter values and curve-parameter definitions.

use vstd::prelude::*;
use crate::error::ValidationError;
use crate::ids::{is_uuid_text, parse_uuid};
use crate::types::CurveDataType;

verus! {

/// A parameter value supplied to a UDF.
///
/// The library never inspects a number, so its type is left to the caller.
#[derive(Debug, Clone)]
pub enum ParameterValue<N> {
    /// Curve reference by identifier.
    Curve(uuid::Uuid),
    /// Numeric value.
    Number(N),
    /// Integer value.
    Integer(i64),
    /// Text value.
    String(String),
    /// Boolean value.
    Boolean(bool),
    /// No value.
    Null,
}

impl<N> ParameterValue<N> {
    /// The value names a curve: a curve reference, or a text that is a UUID.
    pub open spec fn names_curve(&self) -> bool {
        match self {
            ParameterValue::Curve(_) => true,
            ParameterValue::String(s) => is_uuid_text(s@),
            _ => false,
        }
    }

    /// Curve identifier held by the value, if it names one.
    pub fn as_curve(&self) -> (r: Option<uuid::Uuid>)
        ensures
            r.is_some() == self.names_curve(),
            self matches ParameterValue::Curve(id) ==> r == Some(*id),
    {
        match self {
            ParameterValue::Curve(id) => Some(*id),
            ParameterValue::String(s) => parse_uuid(s.as_str()),
            _ => None,
        }
    }

    /// Integer held by the value.
    pub fn as_i64(&self) -> (r: Option<i64>)
        ensures
            r == (match self {
                ParameterValue::Integer(i) => Some(*i),
                _ => None::<i64>,
            }),
    {
        match self {
            ParameterValue::Integer(i) => Some(*i),
            _ => None,
        }
    }

    /// Text held by the value.
    pub fn as_str(&self) -> (r: Option<&str>)
        ensures
            match self {
                ParameterValue::String(s) => r.is_some() && r.unwrap()@ == s@,
                _ => r.is_none(),
            },
    {
        match self {
            ParameterValue::String(s) => Some(s.as_str()),
            _ => None,
        }
    }

    /// Boolean held by the value.
    pub fn as_bool(&self) -> (r: Option<bool>)
        ensures
            r == (match self {
                ParameterValue::Boolean(b) => Some(*b),
                _ => None::<bool>,
            }),
    {
        match self {
            ParameterValue::Boolean(b) => Some(*b),
            _ => None,
        }
    }

    /// Value of a text supplied by a caller: a curve reference when the text
    /// is a UUID, the text itself otherwise.
    pub fn from_text(s: String) -> (r: ParameterValue<N>)
        ensures
            is_uuid_text(s@) ==> r is Curve,
            !is_uuid_text(s@) ==> r == ParameterValue::<N>::String(s),
    {
        match parse_uuid(s.as_str()) {
            Some(id) => ParameterValue::Curve(id),
            None => ParameterValue::String(s),
        }
    }

    /// A copy of the value.
    pub fn duplicate(&self) -> (r: Self)
        where
            N: Copy,
        ensures
            r == *self,
    {
        match self {
            ParameterValue::Curve(id) => ParameterValue::Curve(*id),
            ParameterValue::Number(n) => ParameterValue::Number(*n),
            ParameterValue::Integer(i) => ParameterValue::Integer(*i),
            ParameterValue::String(t) => ParameterValue::String(t.clone()),
            ParameterValue::Boolean(b) => ParameterValue::Boolean(*b),
            ParameterValue::Null => ParameterValue::Null,
        }
    }

    /// Whether the value is `Null`.
    pub fn is_null(&self) -> (r: bool)
        ensures
            r == (self matches ParameterValue::Null),
    {
        match self {
            ParameterValue::Null => true,
            _ => false,
        }
    }
}

/// Display names of curve types, separated by `", "`.
pub open spec fn names_joined(ts: Seq<CurveDataType>) -> Seq<char>
    decreases ts.len(),
{
    if ts.len() == 0 {
        Seq::empty()
    } else if ts.len() == 1 {
        ts[0].spec_display_name()
    } else {
        names_joined(ts.drop_last()) + ", "@ + ts.last().spec_display_name()
    }
}

/// Curve input parameter with type constraints.
#[derive(Debug, Clone)]
pub struct CurveParameter {
    /// Parameter name.
    pub name: String,
    /// Display label.
    pub label: String,
    /// Help text.
    pub description: String,
    /// Whether a curve must be bound.
    pub required: bool,
    /// Allowed curve types; empty means any type.
    pub allowed_types: Vec<CurveDataType>,
    /// Minimum number of samples, when set.
    pub min_length: Option<usize>,
    /// Whether null samples are allowed.
    pub allow_nulls: bool,
}

impl CurveParameter {
    /// Whether a curve type passes this parameter's type restriction.
    pub open spec fn allows(&self, t: CurveDataType) -> bool {
        self.allowed_types@.len() == 0 || self.allowed_types@.contains(t)
    }

    /// Creates a required curve parameter without restrictions.
    pub fn required(name: &str, label: &str) -> (r: CurveParameter)
        ensures
            r.name@ == name@,
            r.label@ == label@,
            r.description@.len() == 0,
            r.required,
            r.allowed_types@.len() == 0,
            r.min_length.is_none(),
            r.allow_nulls,
    {
        CurveParameter {
            name: name.to_owned(),
            label: label.to_owned(),
            description: String::new(),
            required: true,
            allowed_types: Vec::new(),
            min_length: None,
            allow_nulls: true,
        }
    }

    /// Creates an optional curve parameter without restrictions.
    pub fn optional(name: &str, label: &str) -> (r: CurveParameter)
        ensures
            r.name@ == name@,
            r.label@ == label@,
            r.description@.len() == 0,
            !r.required,
            r.allowed_types@.len() == 0,
            r.min_length.is_none(),
            r.allow_nulls,
    {
        CurveParameter {
            name: name.to_owned(),
            label: label.to_owned(),
            description: String::new(),
            required: false,
            allowed_types: Vec::new(),
            min_length: None,
            allow_nulls: true,
        }
    }

    /// Sets the help text.
    pub fn with_description(self, desc: &str) -> (r: CurveParameter)
        ensures
            r.description@ == desc@,
            r.name == self.name,
            r.label == self.label,
            r.required == self.required,
            r.allowed_types == self.allowed_types,
            r.min_length == self.min_length,
            r.allow_nulls == self.allow_nulls,
    {
        CurveParameter { description: desc.to_owned(), ..self }
    }

    /// Restricts the parameter to the given curve types.
    pub fn with_allowed_types(self, types: Vec<CurveDataType>) -> (r: CurveParameter)
        ensures
            r.allowed_types == types,
            r.name == self.name,
            r.label == self.label,
            r.description == self.description,
            r.required == self.required,
            r.min_length == self.min_length,
            r.allow_nulls == self.allow_nulls,
    {
        CurveParameter { allowed_types: types, ..self }
    }

    /// Sets the minimum number of samples.
    pub fn with_min_length(self, min: usize) -> (r: CurveParameter)
        ensures
            r.min_length == Some(min),
            r.name == self.name,
            r.label == self.label,
            r.description == self.description,
            r.required == self.required,
            r.allowed_types == self.allowed_types,
            r.allow_nulls == self.allow_nulls,
    {
        CurveParameter { min_length: Some(min), ..self }
    }

    /// Disallows null samples in the bound curve.
    pub fn require_no_nulls(self) -> (r: CurveParameter)
        ensures
            !r.allow_nulls,
            r.name == self.name,
            r.label == self.label,
            r.description == self.description,
            r.required == self.required,
            r.allowed_types == self.allowed_types,
            r.min_length == self.min_length,
    {
        CurveParameter { allow_nulls: false, ..self }
    }

    /// Whether a curve type is allowed: always when no restriction is set.
    pub fn is_type_allowed(&self, curve_type: CurveDataType) -> (r: bool)
        ensures
            r == self.allows(curve_type),
    {
        let n = self.allowed_types.len();
        if n == 0 {
            return true;
        }
        let mut i: usize = 0;
        while i < n
            invariant
                n == self.allowed_types@.len(),
                i <= n,
                forall|j: int| 0 <= j < i ==> self.allowed_types@[j] != curve_type,
            decreases n - i,
        {
            if self.allowed_types[i] == curve_type {
                return true;
            }
            i = i + 1;
        }
        false
    }

    /// Allowed types for display: `"Any"`, or their names separated by `", "`.
    pub fn allowed_types_display(&self) -> (r: String)
        ensures
            self.allowed_types@.len() == 0 ==> r@ == "Any"@,
            self.allowed_types@.len() > 0 ==> r@ == names_joined(self.allowed_types@),
    {
        let n = self.allowed_types.len();
        if n == 0 {
            return "Any".to_owned();
        }
        let mut r = String::new();
        let mut i: usize = 0;
        while i < n
            invariant
                n == self.allowed_types@.len(),
                i <= n,
                r@ == names_joined(self.allowed_types@.subrange(0, i as int)),
            decreases n - i,
        {
            if i > 0 {
                r.append(", ");
            }
            let t = self.allowed_types[i];
            r.append(t.display_name());
            proof {
                let s = self.allowed_types@.subrange(0, i + 1);
                assert(s.drop_last() =~= self.allowed_types@.subrange(0, i as int));
            }
            i = i + 1;
        }
        proof {
            assert(self.allowed_types@.subrange(0, n as int) =~= self.allowed_types@);
        }
        r
    }

    /// Validates a supplied value: a required curve must be bound, and a bound
    /// value must name a curve. Type compatibility is checked once the curve
    /// is loaded.
    pub fn validate<N>(&self, value: &ParameterValue<N>) -> (r: Result<(), ValidationError>)
        ensures
            r.is_ok() == (if value is Null { !self.required } else { value.names_curve() }),
            r matches Err(e) ==> e.field@ == self.name@ && e.suggestion.is_none() && e.message@ == (
                if value is Null { "Required curve not provided"@ } else { "Value must be a valid curve UUID"@ }),
    {
        if value.is_null() {
            if self.required {
                return Err(ValidationError::new(self.name.as_str(), "Required curve not provided"));
            }
            return Ok(());
        }
        if value.as_curve().is_none() {
            return Err(ValidationError::new(self.name.as_str(), "Value must be a valid curve UUID"));
        }
        Ok(())
    }
}

} // verus!

verus! {

/// Value bound to a name: that of the last entry with the name.
pub open spec fn value_named<N>(entries: Seq<(Seq<char>, ParameterValue<N>)>, name: Seq<char>) -> Option<ParameterValue<N>>
    decreases entries.len(),
{
    if entries.len() == 0 {
        None
    } else if entries.last().0 == name {
        Some(entries.last().1)
    } else {
        value_named(entries.drop_last(), name)
    }
}

/// Names of entries.
pub open spec fn entry_names<N>(entries: Seq<(Seq<char>, ParameterValue<N>)>) -> Seq<Seq<char>> {
    entries.map_values(|e: (Seq<char>, ParameterValue<N>)| e.0)
}

/// With distinct names, the value named by an entry is that entry's.
proof fn lemma_value_named_at<N>(entries: Seq<(Seq<char>, ParameterValue<N>)>, i: int)
    requires
        0 <= i < entries.len(),
        entry_names(entries).no_duplicates(),
    ensures
        value_named(entries, entries[i].0) == Some(entries[i].1),
    decreases entries.len(),
{
    let last = entries.len() - 1;
    if i != last {
        assert(entry_names(entries)[i] != entry_names(entries)[last]);
        let d = entries.drop_last();
        assert(entry_names(d) =~= entry_names(entries).drop_last());
        lemma_value_named_at(d, i);
    }
}

/// A name that no entry has names no value.
proof fn lemma_value_named_absent<N>(entries: Seq<(Seq<char>, ParameterValue<N>)>, name: Seq<char>)
    requires
        forall|k: int| 0 <= k < entries.len() ==> (#[trigger] entries[k]).0 != name,
    ensures
        value_named(entries, name) is None,
    decreases entries.len(),
{
    if entries.len() > 0 {
        let d = entries.drop_last();
        assert(forall|k: int| 0 <= k < d.len() ==> (#[trigger] d[k]).0 != name);
        lemma_value_named_absent(d, name);
    }
}

/// The value of a name is that of the entry that has it, or none.
proof fn lemma_value_named<N>(entries: Seq<(Seq<char>, ParameterValue<N>)>, name: Seq<char>)
    requires
        entry_names(entries).no_duplicates(),
    ensures
        (exists|k: int| 0 <= k < entries.len() && (#[trigger] entries[k]).0 == name) || value_named(entries, name) is None,
        forall|k: int| 0 <= k < entries.len() && (#[trigger] entries[k]).0 == name ==> value_named(entries, name) == Some(entries[k].1),
{
    assert forall|k: int| 0 <= k < entries.len() && (#[trigger] entries[k]).0 == name implies value_named(entries, name) == Some(entries[k].1) by {
        lemma_value_named_at(entries, k);
    }
    if !(exists|k: int| 0 <= k < entries.len() && (#[trigger] entries[k]).0 == name) {
        lemma_value_named_absent(entries, name);
    }
}

/// Parameter values by name.
pub struct ParameterValues<N> {
    values: Vec<(String, ParameterValue<N>)>,
}

impl<N> ParameterValues<N> {
    /// Names and values, in insertion order.
    pub closed spec fn entries(&self) -> Seq<(Seq<char>, ParameterValue<N>)> {
        self.values@.map_values(|e: (String, ParameterValue<N>)| (e.0@, e.1))
    }

    /// Names of the entries.
    pub open spec fn names(&self) -> Seq<Seq<char>> {
        entry_names(self.entries())
    }

    /// No name occurs twice.
    pub open spec fn wf(&self) -> bool {
        self.names().no_duplicates()
    }

    /// Value bound to a name.
    pub open spec fn lookup(&self, name: Seq<char>) -> Option<ParameterValue<N>> {
        value_named(self.entries(), name)
    }

    /// An empty collection.
    pub fn new() -> (r: Self)
        ensures
            r.wf(),
            r.entries().len() == 0,
    {
        ParameterValues { values: Vec::new() }
    }

    /// Position of a name among the entries.
    fn index_of(&self, name: &str) -> (r: Option<usize>)
        ensures
            match r {
                Some(i) => i < self.entries().len() && self.entries()[i as int].0 == name@,
                None => forall|j: int| 0 <= j < self.entries().len() ==> (#[trigger] self.entries()[j]).0 != name@,
            },
    {
        let mut i: usize = 0;
        while i < self.values.len()
            invariant
                i <= self.values@.len(),
                forall|j: int| 0 <= j < i ==> (#[trigger] self.entries()[j]).0 != name@,
            decreases self.values@.len() - i,
        {
            if crate::text::same_text(self.values[i].0.as_str(), name) {
                return Some(i);
            }
            i = i + 1;
        }
        None
    }

    /// Binds a value to a name, replacing a value bound before.
    pub fn insert(&mut self, name: String, value: ParameterValue<N>)
        requires
            old(self).wf(),
        ensures
            final(self).wf(),
            final(self).lookup(name@) == Some(value),
            forall|n: Seq<char>| n != name@ ==> final(self).lookup(n) == old(self).lookup(n),
    {
        let ghost old_entries = self.entries();
        let ghost nv = name@;
        let ghost pos: int;
        match self.index_of(name.as_str()) {
            Some(i) => {
                self.values.set(i, (name, value));
                proof {
                    pos = i as int;
                    assert(self.names() =~= old(self).names());
                }
            },
            None => {
                self.values.push((name, value));
                proof {
                    pos = old_entries.len() as int;
                    assert forall|a: int, b: int| 0 <= a < b < self.names().len() implies self.names()[a] != self.names()[b] by {
                        if b == pos {
                            assert(old_entries[a].0 == self.names()[a]);
                        } else {
                            assert(old(self).names()[a] == self.names()[a]);
                            assert(old(self).names()[b] == self.names()[b]);
                        }
                    }
                }
            },
        }
        proof {
            let ne = self.entries();
            lemma_value_named_at(ne, pos);
            assert forall|n: Seq<char>| n != nv implies self.lookup(n) == old(self).lookup(n) by {
                lemma_value_named(ne, n);
                lemma_value_named(old_entries, n);
                if exists|k: int| 0 <= k < old_entries.len() && (#[trigger] old_entries[k]).0 == n {
                    let k = choose|k: int| 0 <= k < old_entries.len() && (#[trigger] old_entries[k]).0 == n;
                    assert(ne[k] == old_entries[k]);
                } else if exists|k: int| 0 <= k < ne.len() && (#[trigger] ne[k]).0 == n {
                    let k = choose|k: int| 0 <= k < ne.len() && (#[trigger] ne[k]).0 == n;
                    assert(ne[k] == old_entries[k]);
                }
            }
        }
    }

    /// Collects name-value pairs; a later pair replaces an earlier one of the
    /// same name.
    pub fn from_pairs(pairs: Vec<(String, ParameterValue<N>)>) -> (r: Self)
        ensures
            r.wf(),
            forall|n: Seq<char>| #[trigger] r.lookup(n)
                == value_named(pairs@.map_values(|e: (String, ParameterValue<N>)| (e.0@, e.1)), n),
    {
        let ghost all = pairs@.map_values(|e: (String, ParameterValue<N>)| (e.0@, e.1));
        let mut r = ParameterValues::new();
        let mut rest = pairs;
        let total = rest.len();
        let mut i: usize = 0;
        while rest.len() > 0
            invariant
                r.wf(),
                i + rest@.len() == total,
                total == all.len(),
                forall|k: int| 0 <= k < rest@.len() ==> (#[trigger] rest@[k]).0@ == all[k + i].0 && rest@[k].1 == all[k + i].1,
                forall|n: Seq<char>| #[trigger] r.lookup(n) == value_named(all.subrange(0, i as int), n),
            decreases rest@.len(),
        {
            let (name, value) = rest.remove(0);
            proof {
                assert(all.subrange(0, i + 1).drop_last() =~= all.subrange(0, i as int));
            }
            r.insert(name, value);
            i = i + 1;
        }
        proof {
            assert(all.subrange(0, total as int) =~= all);
        }
        r
    }

    /// Value bound to a name.
    pub fn get(&self, name: &str) -> (r: Option<&ParameterValue<N>>)
        requires
            self.wf(),
        ensures
            r.is_some() == self.lookup(name@).is_some(),
            r matches Some(v) ==> *v == self.lookup(name@).unwrap(),
    {
        match self.index_of(name) {
            Some(i) => {
                proof {
                    lemma_value_named_at(self.entries(), i as int);
                }
                Some(&self.values[i].1)
            },
            None => {
                proof {
                    lemma_value_named_absent(self.entries(), name@);
                }
                None
            },
        }
    }

    /// Whether a non-null value is bound to a name.
    pub fn has(&self, name: &str) -> (r: bool)
        requires
            self.wf(),
        ensures
            r == (self.lookup(name@) matches Some(v) && !(v is Null)),
    {
        match self.get(name) {
            Some(v) => !v.is_null(),
            None => false,
        }
    }

    /// Curve identifier bound to a name.
    pub fn get_curve(&self, name: &str) -> (r: Option<uuid::Uuid>)
        requires
            self.wf(),
        ensures
            r.is_some() == (self.lookup(name@) matches Some(v) && v.names_curve()),
    {
        match self.get(name) {
            Some(v) => v.as_curve(),
            None => None,
        }
    }

    /// Number bound to a name.
    pub fn get_number(&self, name: &str) -> (r: Option<&N>)
        requires
            self.wf(),
        ensures
            r.is_some() == (self.lookup(name@) matches Some(v) && v is Number),
            r matches Some(n) ==> self.lookup(name@) == Some(ParameterValue::Number(*n)),
    {
        match self.get(name) {
            Some(ParameterValue::Number(n)) => Some(n),
            _ => None,
        }
    }

    /// Integer bound to a name.
    pub fn get_i64(&self, name: &str) -> (r: Option<i64>)
        requires
            self.wf(),
        ensures
            r.is_some() == (self.lookup(name@) matches Some(v) && v is Integer),
            r matches Some(n) ==> self.lookup(name@) == Some(ParameterValue::<N>::Integer(n)),
    {
        match self.get(name) {
            Some(v) => v.as_i64(),
            None => None,
        }
    }

    /// Text bound to a name.
    pub fn get_string(&self, name: &str) -> (r: Option<&str>)
        requires
            self.wf(),
        ensures
            r.is_some() == (self.lookup(name@) matches Some(v) && v is String),
            r matches Some(s) ==> (self.lookup(name@) matches Some(ParameterValue::String(t)) && t@ == s@),
    {
        match self.get(name) {
            Some(v) => v.as_str(),
            None => None,
        }
    }

    /// Boolean bound to a name.
    pub fn get_bool(&self, name: &str) -> (r: Option<bool>)
        requires
            self.wf(),
        ensures
            r.is_some() == (self.lookup(name@) matches Some(v) && v is Boolean),
            r matches Some(b) ==> self.lookup(name@) == Some(ParameterValue::<N>::Boolean(b)),
    {
        match self.get(name) {
            Some(v) => v.as_bool(),
            None => None,
        }
    }

    /// Boolean bound to a name, or a fallback.
    pub fn get_bool_or(&self, name: &str, default: bool) -> (r: bool)
        requires
            self.wf(),
        ensures
            r == (match self.lookup(name@) {
                Some(ParameterValue::Boolean(b)) => b,
                _ => default,
            }),
    {
        match self.get_bool(name) {
            Some(b) => b,
            None => default,
        }
    }
}

} // verus!
