use crate::outside::{form_encode, form_encoded};
use vstd::prelude::*;
use vstd::string::*;

verus! {

/// The texts that a sequence of strings holds.
pub open spec fn texts(v: Seq<String>) -> Seq<Seq<char>> {
    v.map_values(|s: String| s@)
}

/// The parts written one after the other, with a single `/` between two neighbours.
pub open spec fn join_with_slash(parts: Seq<Seq<char>>) -> Seq<char>
    decreases parts.len(),
{
    if parts.len() == 0 {
        Seq::empty()
    } else if parts.len() == 1 {
        parts[0]
    } else {
        join_with_slash(parts.drop_last()) + seq!['/'] + parts.last()
    }
}

/// The parts that are not empty, in their order.
pub open spec fn non_empty_parts(parts: Seq<Seq<char>>) -> Seq<Seq<char>>
    decreases parts.len(),
{
    if parts.len() == 0 {
        Seq::empty()
    } else if parts.last().len() == 0 {
        non_empty_parts(parts.drop_last())
    } else {
        non_empty_parts(parts.drop_last()).push(parts.last())
    }
}

/// The path of a hierarchical URL whose path segments are `segments`.
pub open spec fn path_text(segments: Seq<Seq<char>>) -> Seq<char> {
    seq!['/'] + join_with_slash(segments)
}

/// The path after resolution: the base path unchanged without a suffix; with one,
/// the base's non-empty segments followed by the suffix as the last segment.
pub open spec fn resolved_path(segments: Seq<Seq<char>>, suffix: Option<Seq<char>>) -> Seq<char> {
    match suffix {
        None => path_text(segments),
        Some(s) => path_text(non_empty_parts(segments).push(s)),
    }
}

/// One query pair as the query string holds it.
pub open spec fn encoded_pair(key: Seq<char>, value: Seq<char>) -> Seq<char> {
    form_encoded(key) + seq!['='] + form_encoded(value)
}

/// The query after appending `pairs`, in order, to the query `query` (none when absent);
/// an `&` separates a pair from a non-empty query before it.
pub open spec fn appended_query(
    query: Option<Seq<char>>,
    pairs: Seq<(Seq<char>, Seq<char>)>,
) -> Option<Seq<char>>
    decreases pairs.len(),
{
    if pairs.len() == 0 {
        query
    } else {
        let p = encoded_pair(pairs.last().0, pairs.last().1);
        match appended_query(query, pairs.drop_last()) {
            None => Some(p),
            Some(t) => if t.len() == 0 {
                Some(p)
            } else {
                Some(t + seq!['&'] + p)
            },
        }
    }
}

/// The text of a URL from its parts.
pub open spec fn url_text(
    origin: Seq<char>,
    path: Seq<char>,
    query: Option<Seq<char>>,
    fragment: Option<Seq<char>>,
) -> Seq<char> {
    origin + path + match query {
        None => Seq::<char>::empty(),
        Some(q) => seq!['?'] + q,
    } + match fragment {
        None => Seq::<char>::empty(),
        Some(f) => seq!['#'] + f,
    }
}

/// The texts that a sequence of pairs of strings holds.
pub open spec fn pair_texts(v: Seq<(&str, &str)>) -> Seq<(Seq<char>, Seq<char>)> {
    v.map_values(|p: (&str, &str)| (p.0@, p.1@))
}

pub open spec fn opt_text(o: Option<String>) -> Option<Seq<char>> {
    match o {
        None => None,
        Some(s) => Some(s@),
    }
}

/// A hierarchical base URL held as plain parts.
pub struct Endpoint {
    /// Scheme and authority, e.g. `https://api.test`.
    pub origin: String,
    /// The path segments, as the text between the slashes of the path;
    /// the path `/v1/` has the segments `v1` and the empty one.
    pub segments: Vec<String>,
    /// The query, without its `?`.
    pub query: Option<String>,
    /// The fragment, without its `#`.
    pub fragment: Option<String>,
}

impl Endpoint {
    pub open spec fn path_spec(&self) -> Seq<char> {
        path_text(texts(self.segments@))
    }

    /// The URL after joining `suffix` onto the path and appending `pairs` to the query.
    pub open spec fn resolved_spec(
        &self,
        suffix: Option<Seq<char>>,
        pairs: Seq<(Seq<char>, Seq<char>)>,
    ) -> Seq<char> {
        url_text(
            self.origin@,
            resolved_path(texts(self.segments@), suffix),
            appended_query(opt_text(self.query), pairs),
            opt_text(self.fragment),
        )
    }

    pub fn new(
        origin: String,
        segments: Vec<String>,
        query: Option<String>,
        fragment: Option<String>,
    ) -> (r: Endpoint)
        ensures
            r.origin == origin,
            r.segments == segments,
            r.query == query,
            r.fragment == fragment,
    {
        Endpoint { origin, segments, query, fragment }
    }

    /// The path of the base URL.
    pub fn path(&self) -> (r: String)
        ensures
            r@ == self.path_spec(),
    {
        let mut r = String::from_str("/");
        proof {
            reveal_strlit("/");
        }
        let joined = join_segments(&self.segments);
        r.append(joined.as_str());
        r
    }

    /// The text of the base URL.
    pub fn as_string(&self) -> (r: String)
        ensures
            r@ == self.resolved_spec(None, Seq::empty()),
    {
        let path = self.path();
        self.assemble(path, clone_opt(&self.query))
    }

    /// The URL with `path` as its path and `query` as its query.
    fn assemble(&self, path: String, query: Option<String>) -> (r: String)
        ensures
            r@ == url_text(self.origin@, path@, opt_text(query), opt_text(self.fragment)),
    {
        let mut r = self.origin.clone();
        r.append(path.as_str());
        match query {
            None => {},
            Some(q) => {
                r.append("?");
                r.append(q.as_str());
                proof {
                    reveal_strlit("?");
                }
            },
        }
        match &self.fragment {
            None => {},
            Some(f) => {
                r.append("#");
                r.append(f.as_str());
                proof {
                    reveal_strlit("#");
                }
            },
        }
        proof {
            assert(r@ =~= url_text(self.origin@, path@, opt_text(query), opt_text(self.fragment)));
        }
        r
    }

    /// The URL that a request resolves to: the path suffix, if any, joined onto the
    /// base path, then each query pair appended in order.
    pub fn resolve(&self, suffix: Option<&str>, pairs: &Vec<(&str, &str)>) -> (r: String)
        ensures
            r@ == self.resolved_spec(
                match suffix {
                    None => None,
                    Some(s) => Some(s@),
                },
                pair_texts(pairs@),
            ),
    {
        let path = match suffix {
            None => self.path(),
            Some(s) => {
                let mut parts = keep_non_empty(&self.segments);
                parts.push(String::from_str(s));
                proof {
                    assert(texts(parts@) =~= non_empty_parts(texts(self.segments@)).push(s@));
                }
                let mut p = String::from_str("/");
                proof {
                    reveal_strlit("/");
                }
                let joined = join_segments(&parts);
                p.append(joined.as_str());
                p
            },
        };
        let query = append_pairs(clone_opt(&self.query), pairs);
        self.assemble(path, query)
    }
}

fn clone_opt(o: &Option<String>) -> (r: Option<String>)
    ensures
        opt_text(r) == opt_text(*o),
{
    match o {
        None => None,
        Some(s) => Some(s.clone()),
    }
}

/// The segments written one after the other with a `/` between neighbours.
pub fn join_segments(parts: &Vec<String>) -> (r: String)
    ensures
        r@ == join_with_slash(texts(parts@)),
{
    let mut r = String::new();
    let mut i: usize = 0;
    proof {
        reveal_strlit("/");
        assert(texts(parts@).take(0) =~= Seq::<Seq<char>>::empty());
    }
    while i < parts.len()
        invariant
            i <= parts.len(),
            r@ == join_with_slash(texts(parts@).take(i as int)),
        decreases parts.len() - i,
    {
        let ghost before = texts(parts@).take(i as int);
        let ghost after = texts(parts@).take(i as int + 1);
        proof {
            assert(after.drop_last() =~= before);
        }
        proof {
            reveal_strlit("/");
            assert(after.last() == parts@[i as int]@);
        }
        if i > 0 {
            r.append("/");
        }
        r.append(parts[i].as_str());
        i = i + 1;
        proof {
            if i == 1 {
                assert(r@ =~= after[0]);
            } else {
                assert(r@ =~= join_with_slash(before) + seq!['/'] + after.last());
            }
        }
    }
    proof {
        assert(texts(parts@).take(parts.len() as int) =~= texts(parts@));
    }
    r
}

/// The segments that are not empty, in their order.
pub fn keep_non_empty(parts: &Vec<String>) -> (r: Vec<String>)
    ensures
        texts(r@) == non_empty_parts(texts(parts@)),
{
    let mut r: Vec<String> = Vec::new();
    let mut i: usize = 0;
    proof {
        assert(texts(parts@).take(0) =~= Seq::<Seq<char>>::empty());
        assert(texts(r@) =~= Seq::<Seq<char>>::empty());
    }
    while i < parts.len()
        invariant
            i <= parts.len(),
            texts(r@) == non_empty_parts(texts(parts@).take(i as int)),
        decreases parts.len() - i,
    {
        let ghost before = texts(parts@).take(i as int);
        let ghost after = texts(parts@).take(i as int + 1);
        proof {
            assert(after.drop_last() =~= before);
        }
        proof {
            assert(after.last() == parts@[i as int]@);
        }
        if !parts[i].as_str().is_empty() {
            r.push(parts[i].clone());
            proof {
                assert(texts(r@) =~= non_empty_parts(before).push(after.last()));
            }
        }
        i = i + 1;
    }
    proof {
        assert(texts(parts@).take(parts.len() as int) =~= texts(parts@));
    }
    r
}

/// Appends the query pairs, in order, to `query`.
pub fn append_pairs(query: Option<String>, pairs: &Vec<(&str, &str)>) -> (r: Option<String>)
    ensures
        opt_text(r) == appended_query(opt_text(query), pair_texts(pairs@)),
{
    let mut q = query;
    let mut i: usize = 0;
    proof {
        assert(pair_texts(pairs@).take(0) =~= Seq::<(Seq<char>, Seq<char>)>::empty());
    }
    while i < pairs.len()
        invariant
            i <= pairs.len(),
            opt_text(q) == appended_query(opt_text(query), pair_texts(pairs@).take(i as int)),
        decreases pairs.len() - i,
    {
        let ghost before = pair_texts(pairs@).take(i as int);
        let ghost after = pair_texts(pairs@).take(i as int + 1);
        proof {
            assert(after.drop_last() =~= before);
        }
        let (k, v) = pairs[i];
        let mut p = form_encode(k);
        p.append("=");
        let ev = form_encode(v);
        p.append(ev.as_str());
        proof {
            reveal_strlit("=");
            reveal_strlit("&");
            assert(after.last() == (k@, v@));
            assert(p@ =~= encoded_pair(after.last().0, after.last().1));
        }
        q = match q {
            None => Some(p),
            Some(t) => if t.as_str().is_empty() {
                Some(p)
            } else {
                let mut t = t;
                t.append("&");
                t.append(p.as_str());
                Some(t)
            },
        };
        proof {
            assert(opt_text(q) =~= appended_query(opt_text(query), after));
        }
        i = i + 1;
    }
    proof {
        assert(pair_texts(pairs@).take(pairs.len() as int) =~= pair_texts(pairs@));
    }
    q
}

/// `k` empty path segments: what `k` trailing slashes add to a path.
pub open spec fn empty_segments(k: nat) -> Seq<Seq<char>> {
    Seq::new(k, |i: int| Seq::<char>::empty())
}

proof fn lemma_non_empty_parts_skip_empty(parts: Seq<Seq<char>>, k: nat)
    ensures
        non_empty_parts(parts + empty_segments(k)) == non_empty_parts(parts),
    decreases k,
{
    if k == 0 {
        assert(parts + empty_segments(0) =~= parts);
    } else {
        let all = parts + empty_segments(k);
        assert(all.drop_last() =~= parts + empty_segments((k - 1) as nat));
        lemma_non_empty_parts_skip_empty(parts, (k - 1) as nat);
    }
}

proof fn lemma_non_empty_parts_keep_all(parts: Seq<Seq<char>>)
    requires
        forall|i: int| 0 <= i < parts.len() ==> parts[i].len() > 0,
    ensures
        non_empty_parts(parts) == parts,
    decreases parts.len(),
{
    if parts.len() > 0 {
        lemma_non_empty_parts_keep_all(parts.drop_last());
        assert(parts.drop_last().push(parts.last()) =~= parts);
    }
}

/// Without a path suffix the resolved path is the base path, unchanged.
pub proof fn lemma_no_suffix_keeps_base_path(e: &Endpoint)
    ensures
        resolved_path(texts(e.segments@), None) == e.path_spec(),
{
}

/// A base path with non-empty segments `segments` and any number `k` of trailing
/// slashes, joined with a non-empty suffix, puts exactly one slash between the
/// base path and the suffix.
pub proof fn lemma_trailing_slashes_join_once(segments: Seq<Seq<char>>, k: nat, suffix: Seq<char>)
    requires
        forall|i: int| 0 <= i < segments.len() ==> segments[i].len() > 0,
        suffix.len() > 0,
    ensures
        resolved_path(segments + empty_segments(k), Some(suffix)) == if segments.len() == 0 {
            seq!['/'] + suffix
        } else {
            path_text(segments) + seq!['/'] + suffix
        },
{
    lemma_non_empty_parts_skip_empty(segments, k);
    lemma_non_empty_parts_keep_all(segments);
    let joined = segments.push(suffix);
    assert(joined.drop_last() =~= segments);
    if segments.len() == 0 {
        assert(join_with_slash(joined) == suffix);
    } else {
        assert(join_with_slash(joined) == join_with_slash(segments) + seq!['/'] + suffix);
        assert(seq!['/'] + (join_with_slash(segments) + seq!['/'] + suffix) =~= path_text(segments)
            + seq!['/'] + suffix);
    }
}

/// The parts written one after the other, with a single `&` between two neighbours.
pub open spec fn amp_joined(parts: Seq<Seq<char>>) -> Seq<char>
    decreases parts.len(),
{
    if parts.len() == 0 {
        Seq::empty()
    } else if parts.len() == 1 {
        parts[0]
    } else {
        amp_joined(parts.drop_last()) + seq!['&'] + parts.last()
    }
}

/// Each pair as the query string holds it.
pub open spec fn encoded_pairs(pairs: Seq<(Seq<char>, Seq<char>)>) -> Seq<Seq<char>> {
    pairs.map_values(|p: (Seq<char>, Seq<char>)| encoded_pair(p.0, p.1))
}

/// Query pairs added to a URL without a query stand in its query in the order
/// they were added, each encoded on its own, separated by `&`.
pub proof fn lemma_query_pairs_in_order(pairs: Seq<(Seq<char>, Seq<char>)>)
    requires
        pairs.len() > 0,
    ensures
        appended_query(None, pairs) == Some(amp_joined(encoded_pairs(pairs))),
    decreases pairs.len(),
{
    if pairs.len() > 1 {
        let rest = pairs.drop_last();
        lemma_query_pairs_in_order(rest);
        assert(encoded_pairs(pairs).drop_last() =~= encoded_pairs(rest));
        let t = amp_joined(encoded_pairs(rest));
        let last = encoded_pairs(rest).last();
        assert(t.len() >= last.len()) by {
            if encoded_pairs(rest).len() > 1 {
                assert(t == amp_joined(encoded_pairs(rest).drop_last()) + seq!['&'] + last);
            }
        }
        assert(last.len() > 0);
        assert(encoded_pairs(pairs).last() == encoded_pair(pairs.last().0, pairs.last().1));
    } else {
        assert(appended_query(None, pairs.drop_last()) == None::<Seq<char>>);
        assert(encoded_pairs(pairs)[0] == encoded_pair(pairs.last().0, pairs.last().1));
    }
}

} // verus!
