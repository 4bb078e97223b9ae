//! The header collection of a request descriptor: an ordered mapping from
//! lower-cased header name to value, each name kept at most once.
use vstd::prelude::*;

verus! {

/// The lower-case equivalent of a string, as `str::to_lowercase` yields it.
pub uninterp spec fn lower_of(s: Seq<char>) -> Seq<char>;

/// Relies on `str::to_lowercase`: the result depends on the characters
/// alone (the mapping is not locale-dependent), and an empty string stays
/// empty.
pub assume_specification[ str::to_lowercase ](s: &str) -> (r: String)
    ensures
        r@ == lower_of(s@),
        s@.len() == 0 ==> r@.len() == 0,
;

/// Whether the character may appear in a header name: a token character.
pub open spec fn is_token_char(c: char) -> bool {
    ||| 'a' <= c && c <= 'z'
    ||| 'A' <= c && c <= 'Z'
    ||| '0' <= c && c <= '9'
    ||| c == '!' || c == '#' || c == '$' || c == '%' || c == '&' || c == '\'' || c == '*'
        || c == '+' || c == '-' || c == '.' || c == '^' || c == '_' || c == '`' || c == '|'
        || c == '~'
}

/// Whether the string is acceptable as a header name: non-empty and made
/// of token characters only.
pub open spec fn valid_header_name(s: Seq<char>) -> bool {
    s.len() > 0 && forall|i: int| 0 <= i < s.len() ==> is_token_char(#[trigger] s[i])
}

/// Whether the character may appear in a header value: horizontal tab or
/// anything that is not a control character.
pub open spec fn is_value_char(c: char) -> bool {
    c == '\t' || (c as u32 >= 32 && c as u32 != 127)
}

/// Whether the string is acceptable as a header value.
pub open spec fn valid_header_value(s: Seq<char>) -> bool {
    forall|i: int| 0 <= i < s.len() ==> is_value_char(#[trigger] s[i])
}

/// What inserting a binding into an ordered header sequence yields: the
/// first entry carrying the same name has its value replaced in place,
/// and a new name is appended at the end.
pub open spec fn header_insert(
    s: Seq<(Seq<char>, Seq<char>)>,
    name: Seq<char>,
    value: Seq<char>,
) -> Seq<(Seq<char>, Seq<char>)>
    decreases s.len(),
{
    if s.len() == 0 {
        seq![(name, value)]
    } else if s[0].0 == name {
        seq![(name, value)] + s.drop_first()
    } else {
        seq![s[0]] + header_insert(s.drop_first(), name, value)
    }
}

/// An ordered header collection: insertion order is kept, names are
/// stored lower-cased, and each name occurs at most once.
#[derive(Debug, Clone, PartialEq, Eq)]
pub struct Headers {
    entries: Vec<(String, String)>,
}

impl View for Headers {
    type V = Seq<(Seq<char>, Seq<char>)>;

    closed spec fn view(&self) -> Seq<(Seq<char>, Seq<char>)> {
        Seq::new(self.entries@.len(), |i: int| (self.entries@[i].0@, self.entries@[i].1@))
    }
}

impl Default for Headers {
    /// An empty collection.
    fn default() -> (r: Self)
        ensures
            r@ == Seq::<(Seq<char>, Seq<char>)>::empty(),
            r.wf(),
    {
        Headers::new()
    }
}

impl Headers {
    /// Each stored name occurs exactly once.
    pub open spec fn wf(self) -> bool {
        forall|i: int, j: int| 0 <= i < j < self@.len() ==> (#[trigger] self@[i]).0 != (#[trigger] self@[j]).0
    }

    /// An empty collection.
    pub fn new() -> (r: Headers)
        ensures
            r@ == Seq::<(Seq<char>, Seq<char>)>::empty(),
            r.wf(),
    {
        let r = Headers { entries: Vec::new() };
        proof {
            assert(r@ =~= Seq::<(Seq<char>, Seq<char>)>::empty());
        }
        r
    }

    /// How many names are stored.
    pub fn len(&self) -> (r: usize)
        ensures
            r == self@.len(),
    {
        self.entries.len()
    }

    /// Stores a binding under the lower-cased name: the first entry with
    /// that name has its value replaced, a new name is appended, and names
    /// stay unique either way.
    pub fn insert(&mut self, name: &str, value: &str)
        requires
            old(self).wf(),
            valid_header_name(name@),
            valid_header_value(value@),
        ensures
            final(self).wf(),
            final(self)@ == header_insert(old(self)@, lower_of(name@), value@),
    {
        let key = name.to_lowercase();
        let val = String::from_str(value);
        let n = self.entries.len();
        let mut i: usize = 0;
        while i < n
            invariant
                0 <= i <= n,
                n == self@.len(),
                self == old(self),
                old(self).wf(),
                key@ == lower_of(name@),
                val@ == value@,
                forall|k: int| 0 <= k < i ==> (#[trigger] self@[k]).0 != key@,
            decreases n - i,
        {
            if self.entries[i].0 == key {
                proof {
                    assert(self@[i as int].0 == key@);
                    lemma_header_insert_found(self@, key@, val@, i as int);
                }
                self.entries.remove(i);
                self.entries.insert(i, (key, val));
                proof {
                    assert(self@ =~= old(self)@.update(i as int, (lower_of(name@), value@)));
                    assert forall|a: int, b: int|
                        0 <= a < b < self@.len() implies (#[trigger] self@[a]).0 != (
                    #[trigger] self@[b]).0 by {
                        assert(old(self)@[a].0 != old(self)@[b].0);
                    }
                }
                return ;
            }
            i += 1;
        }
        proof {
            lemma_header_insert_absent(self@, key@, val@);
        }
        self.entries.push((key, val));
        proof {
            assert(self@ =~= old(self)@.push((lower_of(name@), value@)));
            assert forall|a: int, b: int|
                0 <= a < b < self@.len() implies (#[trigger] self@[a]).0 != (
            #[trigger] self@[b]).0 by {
                if b < old(self)@.len() {
                    assert(old(self)@[a].0 != old(self)@[b].0);
                } else {
                    assert(self@[b].0 == lower_of(name@));
                    assert(old(self)@[a].0 != lower_of(name@));
                }
            }
        }
    }
}

/// Inserting a name that is absent appends the binding at the end.
proof fn lemma_header_insert_absent(s: Seq<(Seq<char>, Seq<char>)>, name: Seq<char>, value: Seq<char>)
    requires
        forall|k: int| 0 <= k < s.len() ==> (#[trigger] s[k]).0 != name,
    ensures
        header_insert(s, name, value) == s.push((name, value)),
    decreases s.len(),
{
    if s.len() == 0 {
        assert(header_insert(s, name, value) =~= s.push((name, value)));
    } else {
        lemma_header_insert_absent(s.drop_first(), name, value);
        assert(header_insert(s, name, value) =~= s.push((name, value)));
    }
}

/// Inserting a name that is present at `i`, and nowhere earlier, replaces
/// the value at `i` and leaves everything else in place.
proof fn lemma_header_insert_found(
    s: Seq<(Seq<char>, Seq<char>)>,
    name: Seq<char>,
    value: Seq<char>,
    i: int,
)
    requires
        0 <= i < s.len(),
        s[i].0 == name,
        forall|k: int| 0 <= k < i ==> (#[trigger] s[k]).0 != name,
    ensures
        header_insert(s, name, value) == s.update(i, (name, value)),
    decreases s.len(),
{
    if i == 0 {
        assert(header_insert(s, name, value) =~= s.update(0, (name, value)));
    } else {
        lemma_header_insert_found(s.drop_first(), name, value, i - 1);
        assert(header_insert(s, name, value) =~= s.update(i, (name, value)));
    }
}

/// Whether the string is acceptable as a header name.
pub fn is_valid_header_name(name: &str) -> (r: bool)
    ensures
        r == valid_header_name(name@),
{
    let n = name.unicode_len();
    if n == 0 {
        return false;
    }
    let mut i: usize = 0;
    while i < n
        invariant
            0 <= i <= n,
            n == name@.len(),
            forall|k: int| 0 <= k < i ==> is_token_char(#[trigger] name@[k]),
        decreases n - i,
    {
        if !token_char(name.get_char(i)) {
            return false;
        }
        i += 1;
    }
    true
}

/// Whether the string is acceptable as a header value.
pub fn is_valid_header_value(value: &str) -> (r: bool)
    ensures
        r == valid_header_value(value@),
{
    let n = value.unicode_len();
    let mut i: usize = 0;
    while i < n
        invariant
            0 <= i <= n,
            n == value@.len(),
            forall|k: int| 0 <= k < i ==> is_value_char(#[trigger] value@[k]),
        decreases n - i,
    {
        if !value_char(value.get_char(i)) {
            return false;
        }
        i += 1;
    }
    true
}

/// Whether the character is a token character.
fn token_char(c: char) -> (r: bool)
    ensures
        r == is_token_char(c),
{
    ('a' <= c && c <= 'z') || ('A' <= c && c <= 'Z') || ('0' <= c && c <= '9') || c == '!'
        || c == '#' || c == '$' || c == '%' || c == '&' || c == '\'' || c == '*' || c == '+'
        || c == '-' || c == '.' || c == '^' || c == '_' || c == '`' || c == '|' || c == '~'
}

/// Whether the character may appear in a header value.
fn value_char(c: char) -> (r: bool)
    ensures
        r == is_value_char(c),
{
    c == '\t' || (c as u32 >= 32 && c as u32 != 127)
}

} // verus!
