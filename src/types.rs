use vstd::prelude::*;
use vstd::string::{StrSliceExecFns, StringSliceAdditionalSpecFns};
use crate::expr::{Lquery, Ltree, Ltxtquery};

verus! {

/// The extension's types that the backend knows by name.
#[derive(Clone, Copy, Debug, PartialEq, Eq, Structural)]
pub enum TypeTag {
    LabelPath,
    PathPattern,
    TextPathPattern,
}

/// The name under which the backend's catalog holds each type.
pub open spec fn backend_name_of(tag: TypeTag) -> Seq<char> {
    match tag {
        TypeTag::LabelPath => seq!['l', 't', 'r', 'e', 'e'],
        TypeTag::PathPattern => seq!['l', 'q', 'u', 'e', 'r', 'y'],
        TypeTag::TextPathPattern => seq!['l', 't', 'x', 't', 'q', 'u', 'e', 'r', 'y'],
    }
}

impl TypeTag {
    /// The name under which the backend's catalog holds the type.
    pub fn backend_name(self) -> (r: &'static str)
        ensures
            r@ == backend_name_of(self),
    {
        match self {
            TypeTag::LabelPath => {
                proof { reveal_strlit("ltree"); }
                "ltree"
            },
            TypeTag::PathPattern => {
                proof { reveal_strlit("lquery"); }
                "lquery"
            },
            TypeTag::TextPathPattern => {
                proof { reveal_strlit("ltxtquery"); }
                "ltxtquery"
            },
        }
    }
}

/// The backend's identifiers of a type and of the array of that type.
#[derive(Clone, Copy, Debug, PartialEq, Eq, Structural)]
pub struct TypeMetadata {
    pub oid: u32,
    pub array_oid: u32,
}

/// The backend's catalog holds no type of the name looked up (the extension
/// is not installed).
#[derive(Clone, Debug, PartialEq, Eq)]
pub struct SchemaTypeUnavailable {
    pub missing_name: String,
}

/// The types that a backend declares: each name with its metadata, in the
/// order that the backend listed them.
pub struct TypeCatalog {
    entries: Vec<(String, TypeMetadata)>,
}

/// The index of the first of the first `n` entries whose name is `name`.
pub open spec fn first_index(
    entries: Seq<(Seq<char>, TypeMetadata)>,
    name: Seq<char>,
    n: nat,
) -> Option<int>
    decreases n,
{
    if n == 0 {
        None
    } else {
        match first_index(entries, name, (n - 1) as nat) {
            Some(i) => Some(i),
            None => if entries[n - 1].0 == name {
                Some(n - 1)
            } else {
                None
            },
        }
    }
}

/// The metadata of the first entry of the catalog named `name`, if any.
pub open spec fn resolution(entries: Seq<(Seq<char>, TypeMetadata)>, name: Seq<char>) -> Option<
    TypeMetadata,
> {
    match first_index(entries, name, entries.len()) {
        Some(i) => Some(entries[i].1),
        None => None,
    }
}

/// What a lookup of `name` in `entries` returns: the resolved metadata, or
/// the error that names the missing type.
pub open spec fn lookup_result(
    entries: Seq<(Seq<char>, TypeMetadata)>,
    name: Seq<char>,
    r: Result<TypeMetadata, SchemaTypeUnavailable>,
) -> bool {
    match r {
        Ok(m) => resolution(entries, name) == Some(m),
        Err(e) => resolution(entries, name) is None && e.missing_name@ == name,
    }
}

impl View for TypeCatalog {
    type V = Seq<(Seq<char>, TypeMetadata)>;

    closed spec fn view(&self) -> Seq<(Seq<char>, TypeMetadata)> {
        self.entries@.map_values(|e: (String, TypeMetadata)| (e.0@, e.1))
    }
}

impl TypeCatalog {
    /// A catalog with no types.
    pub fn new() -> (r: Self)
        ensures
            r@ == Seq::<(Seq<char>, TypeMetadata)>::empty(),
    {
        let r = TypeCatalog { entries: Vec::new() };
        assert(r@ =~= Seq::<(Seq<char>, TypeMetadata)>::empty());
        r
    }

    /// Appends the type `name` with its metadata.
    pub fn add(&mut self, name: &str, metadata: TypeMetadata)
        ensures
            final(self)@ == old(self)@.push((name@, metadata)),
    {
        self.entries.push((String::from_str(name), metadata));
        assert(self@ =~= old(self)@.push((name@, metadata)));
    }

    /// The metadata of the first type named `name`, or
    /// `SchemaTypeUnavailable` when the catalog has none of that name.
    pub fn lookup_type(&self, name: &str) -> (r: Result<TypeMetadata, SchemaTypeUnavailable>)
        ensures
            lookup_result(self@, name@, r),
    {
        let key = String::from_str(name);
        let ghost entries = self@;
        let mut i: usize = 0;
        while i < self.entries.len()
            invariant
                i <= self.entries.len(),
                entries == self@,
                entries.len() == self.entries@.len(),
                key@ == name@,
                first_index(entries, name@, i as nat) is None,
            decreases self.entries.len() - i,
        {
            assert(entries[i as int] == (self.entries@[i as int].0@, self.entries@[i as int].1));
            if self.entries[i].0 == key {
                assert(first_index(entries, name@, (i + 1) as nat) == Some(i as int));
                proof { lemma_first_index_stable(entries, name@, (i + 1) as nat); }
                return Ok(self.entries[i].1);
            }
            i = i + 1;
        }
        Err(SchemaTypeUnavailable { missing_name: key })
    }

    /// The metadata of the type `tag`, looked up by its backend name.
    pub fn resolve(&self, tag: TypeTag) -> (r: Result<TypeMetadata, SchemaTypeUnavailable>)
        ensures
            lookup_result(self@, backend_name_of(tag), r),
    {
        self.lookup_type(tag.backend_name())
    }
}

/// Once an index is found among the first `n` entries, looking further
/// finds the same index.
proof fn lemma_first_index_stable(entries: Seq<(Seq<char>, TypeMetadata)>, name: Seq<char>, n: nat)
    requires
        n <= entries.len(),
        first_index(entries, name, n) is Some,
    ensures
        first_index(entries, name, entries.len()) == first_index(entries, name, n),
    decreases entries.len() - n,
{
    if n < entries.len() {
        assert(first_index(entries, name, n + 1) == first_index(entries, name, n));
        lemma_first_index_stable(entries, name, n + 1);
    }
}


/// Some entry among the first `n` named `name` makes the search succeed.
proof fn lemma_first_index_found(
    entries: Seq<(Seq<char>, TypeMetadata)>,
    name: Seq<char>,
    n: nat,
    j: int,
)
    requires
        0 <= j < n <= entries.len(),
        entries[j].0 == name,
    ensures
        first_index(entries, name, n) is Some,
    decreases n,
{
    if j < n - 1 {
        lemma_first_index_found(entries, name, (n - 1) as nat, j);
    }
}

/// Registering the label-path type under `ltree` and resolving it against
/// a catalog that holds a type of that name succeeds, and resolving it
/// twice yields the same metadata.
pub proof fn lemma_label_path_round_trip(
    entries: Seq<(Seq<char>, TypeMetadata)>,
    j: int,
    first: Result<TypeMetadata, SchemaTypeUnavailable>,
    second: Result<TypeMetadata, SchemaTypeUnavailable>,
)
    requires
        0 <= j < entries.len(),
        entries[j].0 == seq!['l', 't', 'r', 'e', 'e'],
        lookup_result(entries, backend_name_of(TypeTag::LabelPath), first),
        lookup_result(entries, backend_name_of(TypeTag::LabelPath), second),
    ensures
        first is Ok,
        first == second,
{
    lemma_first_index_found(entries, backend_name_of(TypeTag::LabelPath), entries.len(), j);
}

impl Ltree {
    /// The backend's metadata of the label-path type.
    pub fn metadata(lookup: &TypeCatalog) -> (r: Result<TypeMetadata, SchemaTypeUnavailable>)
        ensures
            lookup_result(lookup@, backend_name_of(TypeTag::LabelPath), r),
    {
        lookup.resolve(TypeTag::LabelPath)
    }

    /// The bytes sent for a label path bound as a parameter: the UTF-8 text
    /// of the value, which the backend parses itself.
    pub fn to_sql(value: &str) -> (r: Vec<u8>)
        ensures
            r@ == value.spec_bytes(),
    {
        value.as_bytes_vec()
    }
}

impl Lquery {
    /// The backend's metadata of the path-pattern type.
    pub fn metadata(lookup: &TypeCatalog) -> (r: Result<TypeMetadata, SchemaTypeUnavailable>)
        ensures
            lookup_result(lookup@, backend_name_of(TypeTag::PathPattern), r),
    {
        lookup.resolve(TypeTag::PathPattern)
    }
}

impl Ltxtquery {
    /// The backend's metadata of the text-path-pattern type.
    pub fn metadata(lookup: &TypeCatalog) -> (r: Result<TypeMetadata, SchemaTypeUnavailable>)
        ensures
            lookup_result(lookup@, backend_name_of(TypeTag::TextPathPattern), r),
    {
        lookup.resolve(TypeTag::TextPathPattern)
    }
}

} // verus!
