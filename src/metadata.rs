//! The metadata that a schema attaches to a declaration.
use vstd::prelude::*;

verus! {

/// A metadata value, as far as code generation reads it.
pub enum MetadataValue {
    /// A JSON string.
    Str(String),
    /// Any other JSON value.
    Other,
}

/// Metadata of a declaration: string keys, each with a value.
pub struct Metadata {
    pub entries: Vec<(String, MetadataValue)>,
}

/// Why a declaration cannot be generated.
#[derive(PartialEq, Eq, Structural, Clone, Copy, Debug)]
pub enum GenError {
    /// A type-name override is present but is not a non-empty string.
    MalformedOverride,
}

/// The value of the first entry under `key`.
pub open spec fn lookup(entries: Seq<(String, MetadataValue)>, key: Seq<char>) -> Option<
    MetadataValue,
>
    decreases entries.len(),
{
    if entries.len() == 0 {
        None
    } else {
        match lookup(entries.drop_last(), key) {
            Some(v) => Some(v),
            None => if entries.last().0@ == key {
                Some(entries.last().1)
            } else {
                None
            },
        }
    }
}

/// What an override under `key` asks for: `Ok(None)` where there is none,
/// the type name where it is a non-empty string, an error otherwise.
pub open spec fn override_spec(m: Metadata, key: Seq<char>) -> Result<Option<Seq<char>>, GenError> {
    match lookup(m.entries@, key) {
        None => Ok(None),
        Some(MetadataValue::Str(s)) => if s@.len() > 0 {
            Ok(Some(s@))
        } else {
            Err(GenError::MalformedOverride)
        },
        Some(MetadataValue::Other) => Err(GenError::MalformedOverride),
    }
}

impl Metadata {
    /// Metadata without entries.
    pub fn new() -> (r: Metadata)
        ensures
            r.entries@.len() == 0,
    {
        Metadata { entries: Vec::new() }
    }

    /// The value of the first entry under `key`.
    pub fn find(&self, key: &str) -> (r: Option<&MetadataValue>)
        ensures
            match r {
                Some(v) => lookup(self.entries@, key@) == Some(*v),
                None => lookup(self.entries@, key@) is None,
            },
    {
        let k = String::from_str(key);
        let mut i: usize = 0;
        while i < self.entries.len()
            invariant
                i <= self.entries.len(),
                k@ == key@,
                lookup(self.entries@.subrange(0, i as int), key@) is None,
            decreases self.entries.len() - i,
        {
            assert(self.entries@.subrange(0, i + 1).drop_last() == self.entries@.subrange(
                0,
                i as int,
            ));
            if self.entries[i].0 == k {
                assert(lookup(self.entries@, key@) == Some(self.entries@[i as int].1)) by {
                    lemma_lookup_prefix(self.entries@, key@, i + 1);
                }
                return Some(&self.entries[i].1);
            }
            i = i + 1;
        }
        assert(self.entries@.subrange(0, i as int) == self.entries@);
        None
    }

    /// The type-name override under `key`.
    pub fn type_override(&self, key: &str) -> (r: Result<Option<String>, GenError>)
        ensures
            match (r, override_spec(*self, key@)) {
                (Ok(None), Ok(None)) => true,
                (Ok(Some(t)), Ok(Some(s))) => t@ == s,
                (Err(e), Err(f)) => e == f,
                _ => false,
            },
    {
        match self.find(key) {
            None => Ok(None),
            Some(MetadataValue::Str(s)) => if s.as_str().unicode_len() > 0 {
                Ok(Some(s.clone()))
            } else {
                Err(GenError::MalformedOverride)
            },
            Some(MetadataValue::Other) => Err(GenError::MalformedOverride),
        }
    }

    /// The text under `description`, or nothing where there is no string
    /// there.
    pub fn description(&self) -> (r: String)
        ensures
            r@ == description_spec(*self),
    {
        match self.find("description") {
            Some(MetadataValue::Str(s)) => s.clone(),
            _ => String::new(),
        }
    }
}

pub open spec fn description_spec(m: Metadata) -> Seq<char> {
    match lookup(m.entries@, "description"@) {
        Some(MetadataValue::Str(s)) => s@,
        _ => seq![],
    }
}

/// A value found in a prefix is the value found in the whole.
pub proof fn lemma_lookup_prefix(entries: Seq<(String, MetadataValue)>, key: Seq<char>, n: int)
    requires
        0 <= n <= entries.len(),
        lookup(entries.subrange(0, n), key) is Some,
    ensures
        lookup(entries, key) == lookup(entries.subrange(0, n), key),
    decreases entries.len() - n,
{
    if n < entries.len() {
        assert(entries.subrange(0, n + 1).drop_last() == entries.subrange(0, n));
        lemma_lookup_prefix(entries, key, n + 1);
    } else {
        assert(entries.subrange(0, n) == entries);
    }
}

} // verus!
