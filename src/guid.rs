//! Storage identifiers made of an optional partition tag and a local id,
//! written as `partition:id` or `id`.

use vstd::prelude::*;
use vstd::string::*;

verus! {

/// The mathematical value of a [`Guid`].
pub struct GuidView {
    pub partition: Option<Seq<char>>,
    pub id: Seq<char>,
}

/// A partition-qualified document identifier.
pub struct Guid {
    partition: Option<String>,
    id: String,
}

impl View for Guid {
    type V = GuidView;

    closed spec fn view(&self) -> GuidView {
        GuidView {
            partition: match self.partition {
                Some(p) => Some(p@),
                None => None,
            },
            id: self.id@,
        }
    }
}

/// `k` is the position of the first colon of `s`.
pub open spec fn is_first_colon(s: Seq<char>, k: int) -> bool {
    &&& 0 <= k < s.len()
    &&& s[k] == ':'
    &&& forall|j: int| 0 <= j < k ==> s[j] != ':'
}

/// The identifier that the key `s` denotes: split at the first colon, if any.
pub open spec fn guid_of(s: Seq<char>) -> GuidView {
    if exists|k: int| is_first_colon(s, k) {
        let k = choose|k: int| is_first_colon(s, k);
        GuidView { partition: Some(s.take(k)), id: s.skip(k + 1) }
    } else {
        GuidView { partition: None, id: s }
    }
}

/// The storage key of an identifier.
pub open spec fn guid_string(g: GuidView) -> Seq<char> {
    match g.partition {
        Some(p) => p + seq![':'] + g.id,
        None => g.id,
    }
}

/// An identifier that survives a trip through its key: the partition holds
/// no colon, and without a partition neither does the id.
pub open spec fn guid_well_formed(g: GuidView) -> bool {
    match g.partition {
        Some(p) => !p.contains(':'),
        None => !g.id.contains(':'),
    }
}

proof fn lemma_first_colon_unique(s: Seq<char>, a: int, b: int)
    requires
        is_first_colon(s, a),
        is_first_colon(s, b),
    ensures
        a == b,
{
}

/// Reading a key and writing it back gives the same key, for every key.
pub proof fn lemma_key_round_trip(s: Seq<char>)
    ensures
        guid_string(guid_of(s)) == s,
{
    if exists|k: int| is_first_colon(s, k) {
        let k = choose|k: int| is_first_colon(s, k);
        assert(s.take(k) + seq![':'] + s.skip(k + 1) =~= s);
    }
}

/// Writing a well-formed identifier as a key and reading it back gives the
/// same identifier.
pub proof fn lemma_guid_round_trip(g: GuidView)
    requires
        guid_well_formed(g),
    ensures
        guid_of(guid_string(g)) == g,
{
    let s = guid_string(g);
    match g.partition {
        Some(p) => {
            let k = p.len() as int;
            assert forall|j: int| 0 <= j < k implies s[j] != ':' by {
                assert(s[j] == p[j]);
            }
            assert(is_first_colon(s, k));
            let c = choose|c: int| is_first_colon(s, c);
            lemma_first_colon_unique(s, c, k);
            assert(s.take(k) =~= p);
            assert(s.skip(k + 1) =~= g.id);
        },
        None => {
            assert forall|k: int| !is_first_colon(s, k) by {
                if is_first_colon(s, k) {
                    assert(g.id.contains(':'));
                }
            }
        },
    }
}

impl Guid {
    /// Builds an identifier from its parts.
    pub fn new(partition: Option<String>, id: String) -> (r: Guid)
        ensures
            r@ == (GuidView {
                partition: match partition {
                    Some(p) => Some(p@),
                    None => None,
                },
                id: id@,
            }),
    {
        Guid { partition, id }
    }

    /// Reads a storage key: the part before the first colon is the
    /// partition, the rest the id; a key without a colon is all id.
    pub fn parse(s: &str) -> (r: Guid)
        ensures
            r@ == guid_of(s@),
    {
        let n = s.unicode_len();
        let mut i: usize = 0;
        while i < n
            invariant
                n == s@.len(),
                i <= n,
                forall|j: int| 0 <= j < i ==> s@[j] != ':',
            decreases n - i,
        {
            if s.get_char(i) == ':' {
                assert(is_first_colon(s@, i as int));
                let partition = s.substring_char(0, i).to_owned();
                let id = s.substring_char(i + 1, n).to_owned();
                proof {
                    let k = choose|k: int| is_first_colon(s@, k);
                    lemma_first_colon_unique(s@, k, i as int);
                }
                return Guid { partition: Some(partition), id };
            }
            i = i + 1;
        }
        Guid { partition: None, id: s.to_owned() }
    }

    /// The partition tag, if any.
    pub fn partition(&self) -> (r: Option<String>)
        ensures
            r.is_some() == self@.partition.is_some(),
            r.is_some() ==> r.unwrap()@ == self@.partition.unwrap(),
    {
        match &self.partition {
            Some(p) => Some(p.clone()),
            None => None,
        }
    }

    /// The local id.
    pub fn id(&self) -> (r: &String)
        ensures
            r@ == self@.id,
    {
        &self.id
    }

    /// The storage key: `partition:id`, or `id` without a partition.
    pub fn to_string(&self) -> (r: String)
        ensures
            r@ == guid_string(self@),
    {
        match &self.partition {
            Some(p) => {
                let mut r = p.clone();
                r.append(":");
                r.append(self.id.as_str());
                proof {
                    reveal_strlit(":");
                }
                r
            },
            None => self.id.clone(),
        }
    }
}

impl<'a> From<&'a str> for Guid {
    fn from(s: &'a str) -> (r: Guid)
        ensures
            r@ == guid_of(s@),
    {
        Guid::parse(s)
    }
}

impl From<String> for Guid {
    fn from(s: String) -> (r: Guid)
        ensures
            r@ == guid_of(s@),
    {
        Guid::parse(s.as_str())
    }
}

impl vstd::std_specs::convert::FromSpecImpl<String> for Guid {
    open spec fn obeys_from_spec() -> bool {
        false
    }

    open spec fn from_spec(s: String) -> Guid {
        arbitrary()
    }
}

impl<'a> vstd::std_specs::convert::FromSpecImpl<&'a str> for Guid {
    open spec fn obeys_from_spec() -> bool {
        false
    }

    open spec fn from_spec(s: &'a str) -> Guid {
        arbitrary()
    }
}

} // verus!
