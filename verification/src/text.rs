use vstd::prelude::*;

verus! {

/// The characters of an optional string.
pub open spec fn opt_text(o: Option<String>) -> Option<Seq<char>> {
    match o {
        Some(s) => Some(s@),
        None => None,
    }
}

/// The characters of each string of a list, in order.
pub open spec fn texts(v: Seq<String>) -> Seq<Seq<char>> {
    v.map_values(|s: String| s@)
}

/// The characters of each string of an optional list.
pub open spec fn opt_texts(o: Option<Vec<String>>) -> Option<Seq<Seq<char>>> {
    match o {
        Some(v) => Some(texts(v@)),
        None => None,
    }
}

/// The number of bytes that a text takes in UTF-8.
pub open spec fn byte_length(s: Seq<char>) -> nat {
    vstd::utf8::encode_utf8(s).len()
}

/// The bytes of all texts of a list together, with one more for each text:
/// the room that the list takes when its texts are joined by a separator.
pub open spec fn total_bytes(list: Seq<Seq<char>>) -> nat
    decreases list.len(),
{
    if list.len() == 0 {
        0
    } else {
        total_bytes(list.drop_last()) + byte_length(list.last()) + 1
    }
}

/// A prefix of a list takes no more room than the list.
pub proof fn lemma_total_bytes_prefix(list: Seq<Seq<char>>, k: int)
    requires
        0 <= k <= list.len(),
    ensures
        total_bytes(list.subrange(0, k)) <= total_bytes(list),
    decreases list.len(),
{
    if k == list.len() {
        assert(list.subrange(0, k) =~= list);
    } else {
        lemma_total_bytes_prefix(list.drop_last(), k);
        assert(list.drop_last().subrange(0, k) =~= list.subrange(0, k));
    }
}

/// The number of bytes of a text.
pub fn byte_count(s: &str) -> (n: usize)
    ensures
        n == byte_length(s@),
{
    s.as_bytes().len()
}

/// `total + n`, where that stays within `limit`.
pub fn add_within(total: usize, n: usize, limit: usize) -> (sum: Option<usize>)
    requires
        total <= limit,
    ensures
        sum == (if total + n <= limit {
            Some((total + n) as usize)
        } else {
            None::<usize>
        }),
{
    if n <= limit - total {
        Some(total + n)
    } else {
        None
    }
}

/// The room that a list of texts takes, where that stays within `limit`.
pub fn total_byte_count(list: &Vec<String>, limit: usize) -> (total: Option<usize>)
    ensures
        match total {
            Some(n) => n == total_bytes(texts(list@)) && n <= limit,
            None => total_bytes(texts(list@)) > limit,
        },
{
    let mut acc: usize = 0;
    let mut i: usize = 0;
    while i < list.len()
        invariant
            i <= list.len(),
            acc <= limit,
            acc == total_bytes(texts(list@.subrange(0, i as int))),
        decreases list.len() - i,
    {
        let n = byte_count(list[i].as_str());
        proof {
            let next = texts(list@.subrange(0, i + 1));
            assert(next.drop_last() =~= texts(list@.subrange(0, i as int)));
            assert(next.last() == list@[i as int]@);
            assert(next =~= texts(list@).subrange(0, i + 1));
            lemma_total_bytes_prefix(texts(list@), i + 1);
        }
        if n >= limit - acc {
            return None;
        }
        acc = acc + n + 1;
        i += 1;
    }
    proof {
        assert(list@.subrange(0, list.len() as int) =~= list@);
    }
    Some(acc)
}

pub fn clone_opt_text(o: &Option<String>) -> (r: Option<String>)
    ensures
        r == *o,
{
    match o {
        Some(s) => Some(s.clone()),
        None => None,
    }
}

pub fn clone_texts(v: &Vec<String>) -> (r: Vec<String>)
    ensures
        r@ == v@,
{
    let mut out: Vec<String> = Vec::new();
    let mut i: usize = 0;
    while i < v.len()
        invariant
            i <= v.len(),
            out@ == v@.subrange(0, i as int),
        decreases v.len() - i,
    {
        out.push(v[i].clone());
        proof {
            assert(out@ =~= v@.subrange(0, i + 1));
        }
        i += 1;
    }
    proof {
        assert(v@.subrange(0, v.len() as int) =~= v@);
    }
    out
}

pub fn clone_opt_texts(o: &Option<Vec<String>>) -> (r: Option<Vec<String>>)
    ensures
        opt_texts(r) == opt_texts(*o),
        r is Some ==> o is Some && r->0@ == o->0@,
        r is None <==> o is None,
{
    match o {
        Some(v) => Some(clone_texts(v)),
        None => None,
    }
}

} // verus!
