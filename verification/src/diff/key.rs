use vstd::prelude::*;

use crate::text::chars_of;

verus! {

/// The key a function's statistics are stored under: its symbol, `#`, and its
/// module (empty when unknown).
pub open spec fn key_spec(symbol: Seq<char>, module: Option<Seq<char>>) -> Seq<char> {
    symbol + seq!['#'] + match module {
        Some(m) => m,
        None => Seq::empty(),
    }
}

/// The position of the first `c` in `s`.
pub open spec fn first_index_of(s: Seq<char>, c: char) -> Option<int> {
    if exists|i: int| 0 <= i < s.len() && s[i] == c {
        Some(choose|i: int| 0 <= i < s.len() && s[i] == c && forall|j: int| 0 <= j < i ==> s[j] != c)
    } else {
        None
    }
}

/// A key split at its first `#` into symbol and module (`None` when empty); a
/// key without `#` is all symbol.
pub open spec fn parse_key_spec(key: Seq<char>) -> (Seq<char>, Option<Seq<char>>) {
    match first_index_of(key, '#') {
        Some(i) => (key.take(i), if key.len() == i + 1 {
            None
        } else {
            Some(key.skip(i + 1))
        }),
        None => (key, None),
    }
}

/// The key for a function and its module.
pub fn make_key(symbol: &str, module: Option<&str>) -> (k: String)
    ensures
        k@ == key_spec(symbol@, match module {
            Some(m) => Some(m@),
            None => None,
        }),
{
    let mut k = String::from_str(symbol);
    k.append("#");
    match module {
        Some(m) => k.append(m),
        None => {},
    }
    proof {
        reveal_strlit("#");
    }
    k
}

fn first_hash(v: &Vec<char>) -> (r: Option<usize>)
    ensures
        match r {
            Some(i) => i < v@.len() && v@[i as int] == '#' && forall|j: int| 0 <= j < i ==> v@[j] != '#',
            None => forall|j: int| 0 <= j < v@.len() ==> v@[j] != '#',
        },
{
    let mut i: usize = 0;
    while i < v.len()
        invariant
            0 <= i <= v@.len(),
            forall|j: int| 0 <= j < i ==> v@[j] != '#',
        decreases v@.len() - i,
    {
        if v[i] == '#' {
            return Some(i);
        }
        i = i + 1;
    }
    None
}

proof fn lemma_first_index(s: Seq<char>, c: char, i: int)
    requires
        0 <= i < s.len(),
        s[i] == c,
        forall|j: int| 0 <= j < i ==> s[j] != c,
    ensures
        first_index_of(s, c) == Some(i),
{
    let k = choose|k: int| 0 <= k < s.len() && s[k] == c && forall|j: int| 0 <= j < k ==> s[j] != c;
    if k < i {
        assert(s[k] != c);
    } else if k > i {
        assert(s[i] != c);
    }
}

/// Splits a key back into function name and module.
pub fn parse_key(key: &str) -> (r: (String, Option<String>))
    ensures
        r.0@ == parse_key_spec(key@).0,
        match r.1 {
            Some(m) => parse_key_spec(key@).1 == Some(m@),
            None => parse_key_spec(key@).1 is None,
        },
{
    let v = chars_of(key);
    match first_hash(&v) {
        Some(i) => {
            proof {
                lemma_first_index(key@, '#', i as int);
            }
            let n = key.unicode_len();
            let name = String::from_str(key.substring_char(0, i));
            if i + 1 == n {
                (name, None)
            } else {
                (name, Some(String::from_str(key.substring_char(i + 1, n))))
            }
        },
        None => {
            assert(!exists|j: int| 0 <= j < key@.len() && key@[j] == '#');
            (String::from_str(key), None)
        },
    }
}

/// A key parses back into the function and module it was made from, provided
/// the function name holds no `#`; an empty module comes back as none.
pub proof fn law_key_round_trip(symbol: Seq<char>, module: Option<Seq<char>>)
    requires
        forall|i: int| 0 <= i < symbol.len() ==> symbol[i] != '#',
    ensures
        parse_key_spec(key_spec(symbol, module)).0 == symbol,
        parse_key_spec(key_spec(symbol, module)).1 == match module {
            Some(m) => if m.len() == 0 {
                None
            } else {
                Some(m)
            },
            None => None,
        },
{
    let k = key_spec(symbol, module);
    let m = match module {
        Some(m) => m,
        None => Seq::empty(),
    };
    assert(k =~= symbol + seq!['#'] + m);
    assert(k[symbol.len() as int] == '#');
    assert forall|j: int| 0 <= j < symbol.len() implies k[j] != '#' by {
        assert(k[j] == symbol[j]);
    }
    lemma_first_index(k, '#', symbol.len() as int);
    assert(k.take(symbol.len() as int) =~= symbol);
    assert(k.skip(symbol.len() as int + 1) =~= m);
}

} // verus!
