//! Permission scopes: sets of tokens written as one space-separated string.

use vstd::prelude::*;
use vstd::string::*;
use crate::error::{Error, ErrorKind};

verus! {

/// The views of a sequence of strings.
pub open spec fn views_of(v: Seq<String>) -> Seq<Seq<char>> {
    v.map_values(|t: String| t@)
}

/// Reading `s` from the left: the words completed so far and the word being
/// read.
pub open spec fn scan(s: Seq<char>) -> (Seq<Seq<char>>, Seq<char>)
    decreases s.len(),
{
    if s.len() == 0 {
        (seq![], seq![])
    } else {
        let (ws, cur) = scan(s.drop_last());
        if s.last() == ' ' {
            if cur.len() > 0 {
                (ws.push(cur), seq![])
            } else {
                (ws, seq![])
            }
        } else {
            (ws, cur.push(s.last()))
        }
    }
}

/// The space-separated words of `s`, in order, without empty ones.
pub open spec fn words(s: Seq<char>) -> Seq<Seq<char>> {
    let (ws, cur) = scan(s);
    if cur.len() > 0 {
        ws.push(cur)
    } else {
        ws
    }
}

/// The words of `s` joined by single spaces.
pub open spec fn join_words(ws: Seq<Seq<char>>) -> Seq<char>
    decreases ws.len(),
{
    if ws.len() == 0 {
        seq![]
    } else if ws.len() == 1 {
        ws[0]
    } else {
        join_words(ws.drop_last()) + seq![' '] + ws.last()
    }
}

/// A token: not empty, and without a space.
pub open spec fn is_token(t: Seq<char>) -> bool {
    t.len() > 0 && !t.contains(' ')
}

/// The tokens of all the strings of a list.
pub open spec fn words_of_all(v: Seq<Seq<char>>) -> Set<Seq<char>> {
    Set::new(|t: Seq<char>| exists|i: int| 0 <= i < v.len() && words(v[i]).contains(t))
}

/// Tokens without repeats.
pub open spec fn tokens_ok(ts: Seq<Seq<char>>) -> bool {
    &&& ts.no_duplicates()
    &&& forall|i: int| 0 <= i < ts.len() ==> is_token(#[trigger] ts[i])
}

/// Whether `t` is among `tokens`.
fn holds_token(tokens: &Vec<String>, t: &str) -> (r: bool)
    ensures
        r == views_of(tokens@).contains(t@),
{
    let wanted = t.to_owned();
    let mut i: usize = 0;
    while i < tokens.len()
        invariant
            i <= tokens@.len(),
            wanted@ == t@,
            forall|j: int| 0 <= j < i ==> tokens@[j]@ != t@,
        decreases tokens@.len() - i,
    {
        if tokens[i].eq(&wanted) {
            assert(views_of(tokens@)[i as int] == t@);
            return true;
        }
        i = i + 1;
    }
    proof {
        if views_of(tokens@).contains(t@) {
            let j = choose|j: int| 0 <= j < views_of(tokens@).len() && views_of(tokens@)[j] == t@;
            assert(tokens@[j]@ == t@);
        }
    }
    false
}

/// Adds a token, unless it is there already.
fn insert_token(tokens: &mut Vec<String>, t: &str)
    requires
        is_token(t@),
        tokens_ok(views_of(old(tokens)@)),
    ensures
        tokens_ok(views_of(final(tokens)@)),
        views_of(final(tokens)@).to_set() == views_of(old(tokens)@).to_set().insert(t@),
{
    if !holds_token(tokens, t) {
        let ghost before = views_of(tokens@);
        tokens.push(t.to_owned());
        assert(views_of(tokens@) =~= before.push(t@));
        assert(views_of(tokens@).no_duplicates()) by {
            assert forall|a: int, b: int|
                0 <= a < b < views_of(tokens@).len() implies views_of(tokens@)[a]
                != views_of(tokens@)[b] by {
                if b == before.len() {
                    assert(before[a] != t@);
                }
            }
        }
        proof { before.lemma_push_to_set_commute(t@); }
    } else {
        assert(views_of(tokens@).to_set() =~= views_of(tokens@).to_set().insert(t@));
    }
}

/// Adds the space-separated words of `s`.
fn insert_words(tokens: &mut Vec<String>, s: &str)
    requires
        tokens_ok(views_of(old(tokens)@)),
    ensures
        tokens_ok(views_of(final(tokens)@)),
        views_of(final(tokens)@).to_set() == views_of(old(tokens)@).to_set() + words(s@).to_set(),
{
    let n = s.unicode_len();
    let mut i: usize = 0;
    let mut start: usize = 0;
    let ghost base = views_of(tokens@).to_set();
    assert(s@.take(0) =~= seq![]);
    while i < n
        invariant
            n == s@.len(),
            start <= i <= n,
            tokens_ok(views_of(tokens@)),
            scan(s@.take(i as int)).1 == s@.subrange(start as int, i as int),
            views_of(tokens@).to_set() == base + scan(s@.take(i as int)).0.to_set(),
        decreases n - i,
    {
        let c = s.get_char(i);
        proof {
            assert(s@.take(i + 1).drop_last() =~= s@.take(i as int));
            assert(s@.take(i + 1).last() == c);
            lemma_scan_tokens(s@.take(i as int));
        }
        let ghost ws = scan(s@.take(i as int)).0;
        if c == ' ' {
            if start < i {
                let w = s.substring_char(start, i);
                insert_token(tokens, w);
                proof { ws.lemma_push_to_set_commute(w@); }
                assert(views_of(tokens@).to_set() =~= base + scan(s@.take(i + 1)).0.to_set());
            } else {
                assert(views_of(tokens@).to_set() =~= base + scan(s@.take(i + 1)).0.to_set());
            }
            start = i + 1;
        } else {
            assert(s@.subrange(start as int, i + 1) =~= s@.subrange(start as int, i as int).push(c));
        }
        i = i + 1;
    }
    assert(s@.take(n as int) =~= s@);
    proof {
        lemma_scan_tokens(s@);
    }
    if start < n {
        let w = s.substring_char(start, n);
        insert_token(tokens, w);
        proof { scan(s@).0.lemma_push_to_set_commute(w@); }
        assert(views_of(tokens@).to_set() =~= base + words(s@).to_set());
    } else {
        assert(views_of(tokens@).to_set() =~= base + words(s@).to_set());
    }
}

/// A set of permission tokens. Equality and matching go by the set, not by
/// the order in which the tokens were written.
#[derive(Debug)]
pub struct Scope {
    tokens: Vec<String>,
}

impl View for Scope {
    type V = Set<Seq<char>>;

    closed spec fn view(&self) -> Set<Seq<char>> {
        views_of(self.tokens@).to_set()
    }
}

proof fn lemma_scan_tokens(s: Seq<char>)
    ensures
        forall|i: int| 0 <= i < scan(s).0.len() ==> is_token(#[trigger] scan(s).0[i]),
        !scan(s).1.contains(' '),
    decreases s.len(),
{
    if s.len() > 0 {
        lemma_scan_tokens(s.drop_last());
        let (ws, cur) = scan(s.drop_last());
        if s.last() != ' ' {
            assert forall|j: int| 0 <= j < cur.push(s.last()).len() implies cur.push(s.last())[j]
                != ' ' by {
                if j < cur.len() {
                    assert(cur[j] != ' ');
                }
            }
        }
    }
}

impl Scope {
    /// The tokens in the order in which they were first written.
    pub closed spec fn tokens(&self) -> Seq<Seq<char>> {
        views_of(self.tokens@)
    }

    #[verifier::type_invariant]
    closed spec fn inv(&self) -> bool {
        tokens_ok(self.tokens())
    }

    /// The empty scope.
    pub fn empty() -> (r: Scope)
        ensures
            r@ == Set::<Seq<char>>::empty(),
            r.tokens() == Seq::<Seq<char>>::empty(),
    {
        let r = Scope { tokens: Vec::new() };
        assert(r.tokens() =~= seq![]);
        r
    }

    /// Whether the token `t` is one of this scope's.
    pub fn contains(&self, t: &str) -> (r: bool)
        ensures
            r == self@.contains(t@),
    {
        holds_token(&self.tokens, t)
    }

    /// The scope whose tokens are the space-separated words of `s`.
    pub fn parse(s: &str) -> (r: Scope)
        ensures
            r@ == words(s@).to_set(),
    {
        let mut tokens: Vec<String> = Vec::new();
        assert(views_of(tokens@) =~= seq![]);
        insert_words(&mut tokens, s);
        let r = Scope { tokens };
        assert(r@ =~= words(s@).to_set());
        r
    }

    /// The scope holding the words of every string of `v`.
    pub fn from_list(v: &Vec<&str>) -> (r: Scope)
        ensures
            r@ == words_of_all(v@.map_values(|s: &str| s@)),
    {
        let ghost all = v@.map_values(|s: &str| s@);
        let mut tokens: Vec<String> = Vec::new();
        assert(views_of(tokens@) =~= seq![]);
        let mut i: usize = 0;
        assert(words_of_all(all.take(0)) =~= Set::<Seq<char>>::empty());
        while i < v.len()
            invariant
                i <= v@.len(),
                all == v@.map_values(|s: &str| s@),
                tokens_ok(views_of(tokens@)),
                views_of(tokens@).to_set() == words_of_all(all.take(i as int)),
            decreases v@.len() - i,
        {
            insert_words(&mut tokens, v[i]);
            proof {
                assert(all.take(i + 1)[i as int] == v@[i as int]@);
                assert forall|t: Seq<char>| views_of(tokens@).to_set().contains(t) == words_of_all(all.take(i + 1)).contains(t) by {
                    if words_of_all(all.take(i + 1)).contains(t) {
                        let j = choose|j: int| #![trigger all.take(i + 1)[j]] 0 <= j < i + 1 && words(all.take(i + 1)[j]).contains(t);
                        if j < i {
                            assert(all.take(i as int)[j] == all.take(i + 1)[j]);
                        }
                    }
                    if words_of_all(all.take(i as int)).contains(t) {
                        let j = choose|j: int| #![trigger all.take(i as int)[j]] 0 <= j < i && words(all.take(i as int)[j]).contains(t);
                        assert(all.take(i as int)[j] == all.take(i + 1)[j]);
                    }
                }
                assert(views_of(tokens@).to_set() =~= words_of_all(all.take(i + 1)));
            }
            i = i + 1;
        }
        assert(all.take(v@.len() as int) =~= all);
        Scope { tokens }
    }

    /// Succeeds iff every token of this (required) scope is granted by
    /// `granted`; fails with `invalid_scope` otherwise.
    pub fn matches(&self, granted: &Scope) -> (r: Result<(), Error>)
        ensures
            r is Ok <==> self@.subset_of(granted@),
            r matches Err(e) ==> e@.kind == ErrorKind::InvalidScope,
    {
        let mut i: usize = 0;
        while i < self.tokens.len()
            invariant
                i <= self.tokens@.len(),
                forall|j: int| 0 <= j < i ==> granted@.contains(#[trigger] self.tokens()[j]),
            decreases self.tokens@.len() - i,
        {
            if !granted.contains(self.tokens[i].as_str()) {
                assert(self@.contains(self.tokens()[i as int]));
                return Err(Error::new(ErrorKind::InvalidScope, String::from_str("scope not granted")));
            }
            i = i + 1;
        }
        assert forall|t: Seq<char>| self@.contains(t) implies granted@.contains(t) by {
            let j = choose|j: int| 0 <= j < self.tokens().len() && self.tokens()[j] == t;
        }
        Ok(())
    }

    /// The tokens joined by single spaces, in the order first written.
    pub fn to_string(&self) -> (r: String)
        ensures
            r@ == join_words(self.tokens()),
    {
        let mut r = String::new();
        let mut i: usize = 0;
        while i < self.tokens.len()
            invariant
                i <= self.tokens@.len(),
                r@ == join_words(self.tokens().take(i as int)),
            decreases self.tokens@.len() - i,
        {
            assert(self.tokens().take(i + 1).drop_last() =~= self.tokens().take(i as int));
            assert(self.tokens().take(i + 1).last() == self.tokens@[i as int]@);
            if i > 0 {
                r.append(" ");
                proof {
                    reveal_strlit(" ");
                }
            } else {
                assert(r@ =~= seq![]);
            }
            r.append(self.tokens[i].as_str());
            i = i + 1;
        }
        assert(self.tokens().take(self.tokens().len() as int) =~= self.tokens());
        r
    }

    /// A copy of this scope.
    pub fn copy(&self) -> (r: Scope)
        ensures
            r@ == self@,
            r.tokens() == self.tokens(),
    {
        proof {
            use_type_invariant(self);
        }
        let r = Scope { tokens: self.tokens.clone() };
        assert(r.tokens() =~= self.tokens());
        r
    }

    /// Whether both scopes hold the same tokens.
    pub fn same_as(&self, other: &Scope) -> (r: bool)
        ensures
            r == (self@ == other@),
    {
        let a = self.matches(other).is_ok();
        let b = other.matches(self).is_ok();
        proof {
            if a && b {
                assert(self@ =~= other@);
            }
        }
        a && b
    }
}

impl Clone for Scope {
    fn clone(&self) -> (r: Scope)
        ensures
            r@ == self@,
    {
        self.copy()
    }
}

impl PartialEq for Scope {
    fn eq(&self, other: &Scope) -> (r: bool) {
        self.same_as(other)
    }
}

impl vstd::std_specs::cmp::PartialEqSpecImpl for Scope {
    open spec fn obeys_eq_spec() -> bool {
        true
    }

    open spec fn eq_spec(&self, other: &Scope) -> bool {
        self@ == other@
    }
}

impl Default for Scope {
    fn default() -> (r: Scope)
        ensures
            r@ == Set::<Seq<char>>::empty(),
    {
        Scope::empty()
    }
}

impl<'a> From<&'a str> for Scope {
    fn from(s: &'a str) -> (r: Scope)
        ensures
            r@ == words(s@).to_set(),
    {
        Scope::parse(s)
    }
}

impl<'a> vstd::std_specs::convert::FromSpecImpl<&'a str> for Scope {
    open spec fn obeys_from_spec() -> bool {
        false
    }

    open spec fn from_spec(s: &'a str) -> Scope {
        arbitrary()
    }
}

impl<'a> From<Vec<&'a str>> for Scope {
    fn from(v: Vec<&'a str>) -> (r: Scope)
        ensures
            r@ == words_of_all(v@.map_values(|s: &str| s@)),
    {
        Scope::from_list(&v)
    }
}

impl<'a> vstd::std_specs::convert::FromSpecImpl<Vec<&'a str>> for Scope {
    open spec fn obeys_from_spec() -> bool {
        false
    }

    open spec fn from_spec(v: Vec<&'a str>) -> Scope {
        arbitrary()
    }
}

} // verus!
