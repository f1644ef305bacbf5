//! Header sets: a mapping from header name to header value in which every
//! name occurs once and the case of a name is kept as it was given.

use vstd::prelude::*;
use vstd::string::*;

use crate::error::Error;
use crate::text::{find_char, is_first, texts, trimmed};

verus! {

/// One header: its name and its value.
#[derive(Debug, Clone)]
pub struct Header {
    pub name: String,
    pub value: String,
}

/// The mapping that a list of headers stands for: a later header replaces
/// an earlier one of the same name.
spec fn headers_map(entries: Seq<Header>) -> Map<Seq<char>, Seq<char>>
    decreases entries.len(),
{
    if entries.len() == 0 {
        Map::empty()
    } else {
        headers_map(entries.drop_last()).insert(entries.last().name@, entries.last().value@)
    }
}

/// No two headers of the list have the same name.
spec fn distinct_names(entries: Seq<Header>) -> bool {
    forall|i: int, j: int|
        0 <= i < j < entries.len() ==> (#[trigger] entries[i]).name@ != (#[trigger] entries[j]).name@
}

/// The names of `headers_map(entries)` are the names that occur in `entries`.
proof fn lemma_headers_map_names(entries: Seq<Header>, name: Seq<char>)
    ensures
        headers_map(entries).contains_key(name) <==> exists|i: int|
            0 <= i < entries.len() && (#[trigger] entries[i]).name@ == name,
    decreases entries.len(),
{
    if entries.len() > 0 {
        let front = entries.drop_last();
        lemma_headers_map_names(front, name);
        if headers_map(front).contains_key(name) {
            let i = choose|i: int| 0 <= i < front.len() && (#[trigger] front[i]).name@ == name;
            assert(entries[i].name@ == name);
        }
        if exists|i: int| 0 <= i < entries.len() && (#[trigger] entries[i]).name@ == name {
            let i = choose|i: int| 0 <= i < entries.len() && (#[trigger] entries[i]).name@ == name;
            if i < front.len() {
                assert(front[i].name@ == name);
            }
        }
    }
}

/// A list with distinct names has distinct names without its last header.
proof fn lemma_front_distinct(entries: Seq<Header>)
    requires
        distinct_names(entries),
        entries.len() > 0,
    ensures
        distinct_names(entries.drop_last()),
{
    let front = entries.drop_last();
    assert forall|a: int, b: int| 0 <= a < b < front.len() implies (#[trigger] front[a]).name@ != (
    #[trigger] front[b]).name@ by {
        assert(entries[a].name@ != entries[b].name@);
    }
}

/// Where names are distinct, each header of the list is what the mapping
/// holds under its name.
proof fn lemma_headers_map_entry(entries: Seq<Header>, i: int)
    requires
        distinct_names(entries),
        0 <= i < entries.len(),
    ensures
        headers_map(entries).contains_key(entries[i].name@),
        headers_map(entries)[entries[i].name@] == entries[i].value@,
    decreases entries.len(),
{
    if i < entries.len() - 1 {
        lemma_front_distinct(entries);
        lemma_headers_map_entry(entries.drop_last(), i);
        assert(entries[i].name@ != entries[entries.len() - 1].name@);
    }
}

/// Where names are distinct, the mapping has as many names as the list has
/// headers.
proof fn lemma_headers_map_len(entries: Seq<Header>)
    requires
        distinct_names(entries),
    ensures
        headers_map(entries).dom().finite(),
        headers_map(entries).dom().len() == entries.len(),
    decreases entries.len(),
{
    if entries.len() > 0 {
        let front = entries.drop_last();
        let last = entries.last().name@;
        lemma_front_distinct(entries);
        lemma_headers_map_len(front);
        lemma_headers_map_names(front, last);
        if headers_map(front).contains_key(last) {
            let i = choose|i: int| 0 <= i < front.len() && (#[trigger] front[i]).name@ == last;
            assert(entries[i].name@ != entries[entries.len() - 1].name@);
        }
    }
}

/// Two lists that agree in their names and values, place by place, stand
/// for the same mapping.
proof fn lemma_headers_map_same(a: Seq<Header>, b: Seq<Header>)
    requires
        a.len() == b.len(),
        forall|i: int|
            0 <= i < a.len() ==> (#[trigger] a[i]).name@ == b[i].name@ && a[i].value@ == b[i].value@,
    ensures
        headers_map(a) == headers_map(b),
    decreases a.len(),
{
    if a.len() > 0 {
        lemma_headers_map_same(a.drop_last(), b.drop_last());
    }
}

/// Replacing the value of one header of a list with distinct names replaces
/// the value under its name in the mapping.
proof fn lemma_headers_map_update(entries: Seq<Header>, i: int, header: Header)
    requires
        distinct_names(entries),
        0 <= i < entries.len(),
        header.name@ == entries[i].name@,
    ensures
        distinct_names(entries.update(i, header)),
        headers_map(entries.update(i, header)) == headers_map(entries).insert(
            header.name@,
            header.value@,
        ),
    decreases entries.len(),
{
    let after = entries.update(i, header);
    assert forall|a: int, b: int| 0 <= a < b < after.len() implies (#[trigger] after[a]).name@ != (
    #[trigger] after[b]).name@ by {
        assert(entries[a].name@ != entries[b].name@);
    }
    let front = entries.drop_last();
    if i == entries.len() - 1 {
        assert(after.drop_last() =~= front);
    } else {
        lemma_front_distinct(entries);
        lemma_headers_map_update(front, i, header);
        assert(after.drop_last() =~= front.update(i, header));
        assert(entries[i].name@ != entries[entries.len() - 1].name@);
    }
}

/// A set of headers. Every name occurs once; a name is kept as it was
/// written, so names that differ in case are different names.
#[derive(Debug)]
pub struct HeaderSet {
    entries: Vec<Header>,
}

impl View for HeaderSet {
    type V = Map<Seq<char>, Seq<char>>;

    closed spec fn view(&self) -> Map<Seq<char>, Seq<char>> {
        headers_map(self.entries@)
    }
}

impl Clone for HeaderSet {
    /// A set with the same headers.
    fn clone(&self) -> (copy: HeaderSet)
        ensures
            copy@ == self@,
    {
        proof {
            use_type_invariant(self);
        }
        let mut entries: Vec<Header> = Vec::new();
        let mut k: usize = 0;
        while k < self.entries.len()
            invariant
                k <= self.entries@.len(),
                entries@.len() == k,
                forall|i: int|
                    0 <= i < k ==> (#[trigger] entries@[i]).name@ == self.entries@[i].name@
                        && entries@[i].value@ == self.entries@[i].value@,
            decreases self.entries@.len() - k,
        {
            entries.push(
                Header { name: self.entries[k].name.clone(), value: self.entries[k].value.clone() },
            );
            k = k + 1;
        }
        proof {
            lemma_headers_map_same(entries@, self.entries@);
            assert forall|i: int, j: int| 0 <= i < j < entries@.len() implies (
            #[trigger] entries@[i]).name@ != (#[trigger] entries@[j]).name@ by {
                assert(self.entries@[i].name@ != self.entries@[j].name@);
            }
        }
        HeaderSet { entries }
    }
}

impl HeaderSet {
    #[verifier::type_invariant]
    spec fn names_occur_once(self) -> bool {
        distinct_names(self.entries@)
    }

    /// The set without any header.
    pub fn new() -> (set: HeaderSet)
        ensures
            set@ == Map::<Seq<char>, Seq<char>>::empty(),
    {
        HeaderSet { entries: Vec::new() }
    }

    /// The index of the header named `name`, if the set has one.
    fn position(&self, name: &str) -> (found: Option<usize>)
        ensures
            match found {
                Some(i) => i < self.entries@.len() && self.entries@[i as int].name@ == name@,
                None => forall|i: int|
                    0 <= i < self.entries@.len() ==> (#[trigger] self.entries@[i]).name@ != name@,
            },
    {
        let wanted = String::from_str(name);
        let mut i: usize = 0;
        while i < self.entries.len()
            invariant
                i <= self.entries@.len(),
                wanted@ == name@,
                forall|j: int| 0 <= j < i ==> (#[trigger] self.entries@[j]).name@ != name@,
            decreases self.entries@.len() - i,
        {
            if self.entries[i].name == wanted {
                return Some(i);
            }
            i = i + 1;
        }
        None
    }

    /// The number of headers in the set.
    pub fn len(&self) -> (n: usize)
        ensures
            self@.dom().finite(),
            n == self@.dom().len(),
    {
        proof {
            use_type_invariant(self);
            lemma_headers_map_len(self.entries@);
        }
        self.entries.len()
    }

    /// The value of the header named `name`, if the set has one.
    pub fn get(&self, name: &str) -> (value: Option<String>)
        ensures
            match value {
                Some(v) => self@.contains_key(name@) && v@ == self@[name@],
                None => !self@.contains_key(name@),
            },
    {
        proof {
            use_type_invariant(self);
            lemma_headers_map_names(self.entries@, name@);
        }
        match self.position(name) {
            Some(i) => {
                proof {
                    lemma_headers_map_entry(self.entries@, i as int);
                }
                Some(self.entries[i].value.clone())
            },
            None => None,
        }
    }

    /// Sets the header named `name` to `value`: a header of that name gets
    /// the new value, and every other header stays as it is.
    pub fn insert(&mut self, name: String, value: String)
        ensures
            final(self)@ == old(self)@.insert(name@, value@),
    {
        proof {
            use_type_invariant(&*self);
        }
        let found = self.position(name.as_str());
        let mut entries: Vec<Header> = Vec::new();
        core::mem::swap(&mut self.entries, &mut entries);
        match found {
            Some(i) => {
                proof {
                    lemma_headers_map_update(entries@, i as int, Header { name, value });
                }
                entries.set(i, Header { name, value });
            },
            None => {
                let ghost before = entries@;
                entries.push(Header { name, value });
                assert(entries@.drop_last() =~= before);
            },
        }
        core::mem::swap(&mut self.entries, &mut entries);
    }

    /// Adds the headers of `other` to the set: a header of `other` replaces
    /// the header of the same name, and every other header stays as it is.
    pub fn extend(&mut self, other: HeaderSet)
        ensures
            final(self)@ == old(self)@.union_prefer_right(other@),
    {
        let incoming = other.entries;
        let mut k: usize = 0;
        while k < incoming.len()
            invariant
                k <= incoming@.len(),
                self@ == old(self)@.union_prefer_right(headers_map(incoming@.subrange(0, k as int))),
            decreases incoming@.len() - k,
        {
            let ghost before = headers_map(incoming@.subrange(0, k as int));
            let name = incoming[k].name.clone();
            let value = incoming[k].value.clone();
            self.insert(name, value);
            proof {
                let upto = incoming@.subrange(0, k + 1);
                assert(upto.drop_last() =~= incoming@.subrange(0, k as int));
                assert(old(self)@.union_prefer_right(before).insert(name@, value@) =~= old(
                    self,
                )@.union_prefer_right(before.insert(name@, value@)));
            }
            k = k + 1;
        }
        assert(incoming@.subrange(0, k as int) =~= incoming@);
    }

    /// The headers of the set, each once, as pairs of name and value.
    pub fn entries(&self) -> (list: Vec<(String, String)>)
        ensures
            self@.dom().finite(),
            list@.len() == self@.dom().len(),
            forall|i: int|
                0 <= i < list@.len() ==> self@.contains_pair(
                    (#[trigger] list@[i]).0@,
                    list@[i].1@,
                ),
            forall|i: int, j: int|
                0 <= i < j < list@.len() ==> (#[trigger] list@[i]).0@ != (#[trigger] list@[j]).0@,
    {
        proof {
            use_type_invariant(self);
            lemma_headers_map_len(self.entries@);
        }
        let mut list: Vec<(String, String)> = Vec::new();
        let mut k: usize = 0;
        while k < self.entries.len()
            invariant
                k <= self.entries@.len(),
                distinct_names(self.entries@),
                list@.len() == k,
                forall|i: int|
                    0 <= i < k ==> (#[trigger] list@[i]).0@ == self.entries@[i].name@ && list@[i].1@
                        == self.entries@[i].value@,
            decreases self.entries@.len() - k,
        {
            list.push((self.entries[k].name.clone(), self.entries[k].value.clone()));
            k = k + 1;
        }
        proof {
            assert forall|i: int| 0 <= i < list@.len() implies self@.contains_pair(
                (#[trigger] list@[i]).0@,
                list@[i].1@,
            ) by {
                lemma_headers_map_entry(self.entries@, i);
            }
            assert forall|i: int, j: int| 0 <= i < j < list@.len() implies (#[trigger] list@[i]).0@
                != (#[trigger] list@[j]).0@ by {
                assert(self.entries@[i].name@ != self.entries@[j].name@);
            }
        }
        list
    }
}

/// The place of the first colon of a line that has one.
pub open spec fn colon_at(line: Seq<char>) -> int {
    choose|i: int| is_first(line, ':', i)
}

/// The name that a header line gives: what stands before its first colon,
/// without the white space around it.
pub open spec fn header_name(line: Seq<char>) -> Seq<char> {
    trimmed(line.subrange(0, colon_at(line)))
}

/// The value that a header line gives: what stands after its first colon,
/// without the white space around it.
pub open spec fn header_value(line: Seq<char>) -> Seq<char> {
    trimmed(line.subrange(colon_at(line) + 1, line.len() as int))
}

/// There is one first colon: whatever place is the first is `colon_at`.
pub proof fn lemma_colon_at(line: Seq<char>, i: int)
    requires
        is_first(line, ':', i),
    ensures
        colon_at(line) == i,
{
    let k = colon_at(line);
    assert(is_first(line, ':', k));
    assert(!(k < i) && !(i < k));
}

/// The mapping that a list of header lines, each with a colon, stands for:
/// a later line replaces an earlier one of the same name.
pub open spec fn lines_map(lines: Seq<Seq<char>>) -> Map<Seq<char>, Seq<char>>
    decreases lines.len(),
{
    if lines.len() == 0 {
        Map::empty()
    } else {
        lines_map(lines.drop_last()).insert(header_name(lines.last()), header_value(lines.last()))
    }
}

/// Whether line `i` is the first of `lines` that has no colon.
pub open spec fn is_first_malformed(lines: Seq<Seq<char>>, i: int) -> bool {
    &&& 0 <= i < lines.len()
    &&& !lines[i].contains(':')
    &&& forall|j: int| 0 <= j < i ==> (#[trigger] lines[j]).contains(':')
}

/// Reads one header from a line of the form `Name: Value`. A line without
/// a colon is refused.
pub fn parse_header(line: &str) -> (parsed: Result<Header, Error>)
    ensures
        match parsed {
            Ok(header) => {
                &&& line@.contains(':')
                &&& header.name@ == header_name(line@)
                &&& header.value@ == header_value(line@)
            },
            Err(e) => {
                &&& !line@.contains(':')
                &&& e matches Error::InvalidHeader(kept)
                &&& kept@ == line@
            },
        },
{
    match find_char(line, ':') {
        Some(i) => {
            proof {
                lemma_colon_at(line@, i as int);
            }
            let n: usize = line.unicode_len();
            let name = String::from_str(line.substring_char(0, i).trim());
            let value = String::from_str(line.substring_char(i + 1, n).trim());
            Ok(Header { name, value })
        },
        None => Err(Error::InvalidHeader(String::from_str(line))),
    }
}

/// Reads a header set from lines of the form `Name: Value`, in their
/// order, so that of two lines with one name the later one counts. The
/// first line without a colon is refused, and with it the whole list.
pub fn parse_headers(headers: &[String]) -> (parsed: Result<HeaderSet, Error>)
    ensures
        match parsed {
            Ok(set) => {
                &&& forall|i: int| 0 <= i < headers@.len() ==> (#[trigger] headers@[i])@.contains(':')
                &&& set@ == lines_map(texts(headers@))
            },
            Err(e) => exists|i: int|
                {
                    &&& #[trigger] is_first_malformed(texts(headers@), i)
                    &&& e matches Error::InvalidHeader(kept)
                    &&& kept@ == headers@[i]@
                },
        },
{
    let mut set = HeaderSet::new();
    let mut i: usize = 0;
    while i < headers.len()
        invariant
            i <= headers@.len(),
            forall|j: int| 0 <= j < i ==> (#[trigger] headers@[j])@.contains(':'),
            set@ == lines_map(texts(headers@).subrange(0, i as int)),
        decreases headers@.len() - i,
    {
        match parse_header(headers[i].as_str()) {
            Ok(header) => {
                set.insert(header.name, header.value);
                proof {
                    let upto = texts(headers@).subrange(0, i + 1);
                    assert(upto.drop_last() =~= texts(headers@).subrange(0, i as int));
                }
            },
            Err(e) => {
                assert(is_first_malformed(texts(headers@), i as int));
                return Err(e);
            },
        }
        i = i + 1;
    }
    assert(texts(headers@).subrange(0, i as int) =~= texts(headers@));
    Ok(set)
}

} // verus!
