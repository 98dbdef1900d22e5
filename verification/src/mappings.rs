//! The type-mapping registry: turns an abstract type name into the
//! concrete column-type expression to emit, reports the parameter arity
//! a type requires, and supplies the standard message for a name it does
//! not recognize. Lookups are by exact string key, first match first.

use vstd::prelude::*;

use crate::Error;
use crate::text::str_eq;

verus! {

/// One registry entry: an abstract type name, the concrete column-type
/// expression it maps to, and the number of parameters it requires.
pub struct MappingEntry {
    pub name: String,
    pub col_type: String,
    pub arity: usize,
}

impl View for MappingEntry {
    type V = (Seq<char>, Seq<char>, nat);

    open spec fn view(&self) -> (Seq<char>, Seq<char>, nat) {
        (self.name@, self.col_type@, self.arity as nat)
    }
}

/// The registry of recognized type names.
pub struct Mappings {
    entries: Vec<MappingEntry>,
}

impl View for Mappings {
    type V = Seq<(Seq<char>, Seq<char>, nat)>;

    closed spec fn view(&self) -> Seq<(Seq<char>, Seq<char>, nat)> {
        Seq::new(self.entries@.len(), |i: int| self.entries@[i]@)
    }
}

/// The first entry of `entries` keyed by `name`, as the pair of its
/// column-type expression and its arity.
pub open spec fn lookup_spec(entries: Seq<(Seq<char>, Seq<char>, nat)>, name: Seq<char>) -> Option<
    (Seq<char>, nat),
>
    decreases entries.len(),
{
    if entries.len() == 0 {
        None
    } else if entries[0].0 == name {
        Some((entries[0].1, entries[0].2))
    } else {
        lookup_spec(entries.drop_first(), name)
    }
}

/// The entries every registry starts from: the string family with no
/// parameters and the array family taking one element-kind parameter.
pub open spec fn seeded_mappings() -> Seq<(Seq<char>, Seq<char>, nat)> {
    seq![
        ("string"@, "StringNull"@, 0 as nat),
        ("string!"@, "String"@, 0 as nat),
        ("string^"@, "StringUniq"@, 0 as nat),
        ("array"@, "array_null"@, 1 as nat),
        ("array!"@, "array"@, 1 as nat),
        ("array^"@, "array_uniq"@, 1 as nat),
    ]
}

/// The message the registry reports for a type name it does not
/// recognize.
pub open spec fn unrecognized_message_spec(name: Seq<char>) -> Seq<char> {
    "type: `"@ + name + "` is not recognized; use a known field type."@
}

proof fn lemma_lookup_advance(
    entries: Seq<(Seq<char>, Seq<char>, nat)>,
    name: Seq<char>,
    i: int,
)
    requires
        0 <= i <= entries.len(),
        forall|j: int| 0 <= j < i ==> entries[j].0 != name,
    ensures
        lookup_spec(entries, name) == lookup_spec(entries.skip(i), name),
    decreases i,
{
    if i > 0 {
        lemma_lookup_advance(entries, name, i - 1);
        let tail = entries.skip(i - 1);
        assert(tail[0] == entries[i - 1]);
        assert(tail.drop_first() =~= entries.skip(i));
        assert(lookup_spec(tail, name) == lookup_spec(entries.skip(i), name));
    } else {
        assert(entries.skip(0) =~= entries);
    }
}

impl Mappings {
    /// Builds the message for a type name the registry does not
    /// recognize.
    pub fn error_unrecognized_default_field(&self, field: &str) -> (r: Error)
        ensures
            r@ == unrecognized_message_spec(field@),
    {
        let mut m = String::new();
        proof {
            reveal_strlit("type: `");
            reveal_strlit("` is not recognized; use a known field type.");
        }
        m.append("type: `");
        m.append(field);
        m.append("` is not recognized; use a known field type.");
        proof {
            assert(m@ =~= unrecognized_message_spec(field@));
        }
        Error::Message(m)
    }

    fn find(&self, field: &str) -> (r: Option<&MappingEntry>)
        ensures
            match r {
                Some(e) => lookup_spec(self@, field@) == Some((e.col_type@, e.arity as nat)),
                None => lookup_spec(self@, field@) is None,
            },
    {
        let mut i: usize = 0;
        while i < self.entries.len()
            invariant
                i <= self.entries.len(),
                forall|j: int| 0 <= j < i ==> self@[j].0 != field@,
            decreases self.entries.len() - i,
        {
            if str_eq(self.entries[i].name.as_str(), field) {
                proof {
                    lemma_lookup_advance(self@, field@, i as int);
                    assert(self@.skip(i as int)[0] == self@[i as int]);
                }
                return Some(&self.entries[i]);
            }
            i = i + 1;
        }
        proof {
            lemma_lookup_advance(self@, field@, self.entries.len() as int);
            assert(self@.skip(self.entries.len() as int) =~~= Seq::empty());
        }
        None
    }

    /// The concrete column-type expression for a type name, or the
    /// unrecognized-field error when the registry has no such key.
    pub fn col_type_field(&self, field: &str) -> (r: Result<String, Error>)
        ensures
            match lookup_spec(self@, field@) {
                Some(entry) => r matches Ok(ct) && ct@ == entry.0,
                None => r matches Err(e) && e@ == unrecognized_message_spec(field@),
            },
    {
        match self.find(field) {
            Some(e) => Ok(e.col_type.clone()),
            None => Err(self.error_unrecognized_default_field(field)),
        }
    }

    /// The parameter arity the registry records for a type name.
    pub fn col_type_arity(&self, field: &str) -> (r: Option<usize>)
        ensures
            match lookup_spec(self@, field@) {
                Some(entry) => r matches Some(a) && a as nat == entry.1,
                None => r is None,
            },
    {
        match self.find(field) {
            Some(e) => Some(e.arity),
            None => None,
        }
    }
}

/// Returns the registry seeded with the standard entries.
pub fn get_mappings() -> (r: Mappings)
    ensures
        r@ == seeded_mappings(),
{
    let mut entries: Vec<MappingEntry> = Vec::new();
    entries.push(
        MappingEntry { name: "string".to_owned(), col_type: "StringNull".to_owned(), arity: 0 },
    );
    entries.push(
        MappingEntry { name: "string!".to_owned(), col_type: "String".to_owned(), arity: 0 },
    );
    entries.push(
        MappingEntry { name: "string^".to_owned(), col_type: "StringUniq".to_owned(), arity: 0 },
    );
    entries.push(
        MappingEntry { name: "array".to_owned(), col_type: "array_null".to_owned(), arity: 1 },
    );
    entries.push(
        MappingEntry { name: "array!".to_owned(), col_type: "array".to_owned(), arity: 1 },
    );
    entries.push(
        MappingEntry { name: "array^".to_owned(), col_type: "array_uniq".to_owned(), arity: 1 },
    );
    let r = Mappings { entries };
    proof {
        assert(r@ =~= seeded_mappings());
    }
    r
}

} // verus!
