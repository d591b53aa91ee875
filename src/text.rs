use vstd::prelude::*;

verus! {

/// Whether `c` has Unicode's White_Space property.
pub open spec fn is_white_space(c: char) -> bool {
    let u = c as u32;
    ||| 0x9 <= u <= 0xd
    ||| u == 0x20
    ||| u == 0x85
    ||| u == 0xa0
    ||| u == 0x1680
    ||| 0x2000 <= u <= 0x200a
    ||| u == 0x2028
    ||| u == 0x2029
    ||| u == 0x202f
    ||| u == 0x205f
    ||| u == 0x3000
}

/// `s` without its leading white space.
pub open spec fn trim_start(s: Seq<char>) -> Seq<char>
    decreases s.len(),
{
    if s.len() > 0 && is_white_space(s[0]) {
        trim_start(s.drop_first())
    } else {
        s
    }
}

/// `s` without its trailing white space.
pub open spec fn trim_end(s: Seq<char>) -> Seq<char>
    decreases s.len(),
{
    if s.len() > 0 && is_white_space(s.last()) {
        trim_end(s.drop_last())
    } else {
        s
    }
}

/// `s` without its leading and trailing white space.
pub open spec fn trimmed(s: Seq<char>) -> Seq<char> {
    trim_end(trim_start(s))
}

/// Whether `c` has Unicode's White_Space property.
pub fn white_space(c: char) -> (r: bool)
    ensures
        r == is_white_space(c),
{
    let u = c as u32;
    (0x9 <= u && u <= 0xd) || u == 0x20 || u == 0x85 || u == 0xa0 || u == 0x1680
        || (0x2000 <= u && u <= 0x200a) || u == 0x2028 || u == 0x2029 || u == 0x202f
        || u == 0x205f || u == 0x3000
}

/// `s` without its leading and trailing white space.
pub fn trim_text(s: &str) -> (r: String)
    ensures
        r@ == trimmed(s@),
{
    let n = s.unicode_len();
    let mut start: usize = 0;
    assert(s@.subrange(0, n as int) =~= s@);
    while start < n && white_space(s.get_char(start))
        invariant
            start <= n,
            n == s@.len(),
            trim_start(s@) == trim_start(s@.subrange(start as int, n as int)),
        decreases n - start,
    {
        assert(s@.subrange(start as int, n as int).drop_first()
            =~= s@.subrange(start as int + 1, n as int));
        start = start + 1;
    }
    assert(trim_start(s@) == s@.subrange(start as int, n as int));
    let mut end: usize = n;
    while end > start && white_space(s.get_char(end - 1))
        invariant
            start <= end <= n,
            n == s@.len(),
            trim_end(s@.subrange(start as int, n as int)) == trim_end(
                s@.subrange(start as int, end as int),
            ),
        decreases end - start,
    {
        assert(s@.subrange(start as int, end as int).drop_last()
            =~= s@.subrange(start as int, end as int - 1));
        end = end - 1;
    }
    assert(trim_end(s@.subrange(start as int, end as int)) == s@.subrange(start as int, end as int));
    s.substring_char(start, end).to_owned()
}

/// The three texts one after the other.
pub fn concat3(a: &str, b: &str, c: &str) -> (r: String)
    ensures
        r@ == a@ + b@ + c@,
{
    let mut r = a.to_owned();
    r.append(b);
    r.append(c);
    r
}

/// Whether `i` is the first position of `keys` that holds `query`.
pub open spec fn is_first_match(keys: Seq<Seq<char>>, query: Seq<char>, i: int) -> bool {
    &&& 0 <= i < keys.len()
    &&& keys[i] == query
    &&& forall|j: int| 0 <= j < i ==> keys[j] != query
}

/// The names, each trimmed.
pub open spec fn trimmed_all(names: Seq<String>) -> Seq<Seq<char>> {
    names.map_values(|n: String| trimmed(n@))
}

/// The position of the first of `names` that, trimmed, equals `query`
/// trimmed.
pub fn find_trimmed(names: &Vec<String>, query: &str) -> (r: Option<usize>)
    ensures
        match r {
            Some(i) => is_first_match(trimmed_all(names@), trimmed(query@), i as int),
            None => forall|j: int| 0 <= j < names@.len()
                ==> trimmed((#[trigger] names@[j])@) != trimmed(query@),
        },
{
    let mut keys: Vec<String> = Vec::new();
    let mut i: usize = 0;
    while i < names.len()
        invariant
            i <= names@.len(),
            keys@.len() == i,
            forall|j: int| 0 <= j < i ==> (#[trigger] keys@[j])@ == trimmed(names@[j]@),
        decreases names@.len() - i,
    {
        keys.push(trim_text(names[i].as_str()));
        i = i + 1;
    }
    let q = trim_text(query);
    match find_first(&keys, &q) {
        Some(k) => {
            assert forall|j: int| 0 <= j < k implies trimmed_all(names@)[j] != trimmed(query@) by {
                assert(keys@[j]@ != q@);
            }
            Some(k)
        },
        None => {
            assert forall|j: int| 0 <= j < names@.len()
                implies trimmed((#[trigger] names@[j])@) != trimmed(query@) by {
                assert(keys@[j]@ != q@);
            }
            None
        },
    }
}

/// Finds the first of `keys` that equals `query`.
pub fn find_first(keys: &Vec<String>, query: &String) -> (r: Option<usize>)
    ensures
        match r {
            Some(i) => {
                &&& i < keys@.len()
                &&& keys@[i as int]@ == query@
                &&& forall|j: int| 0 <= j < i ==> (#[trigger] keys@[j])@ != query@
            },
            None => forall|j: int| 0 <= j < keys@.len() ==> keys@[j]@ != query@,
        },
{
    let mut i: usize = 0;
    while i < keys.len()
        invariant
            i <= keys@.len(),
            forall|j: int| 0 <= j < i ==> keys@[j]@ != query@,
        decreases keys@.len() - i,
    {
        if keys[i] == *query {
            return Some(i);
        }
        i = i + 1;
    }
    None
}

} // verus!
