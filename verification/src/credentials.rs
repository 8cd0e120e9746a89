//! Where the server is and how to speak to it.

use crate::headers::{header_pairs, Header};
use crate::text::{
    decimal, decimal_digits, lemma_trim_both_has_clean_ends, trim_both, trim_char,
};
use vstd::prelude::*;

verus! {

/// What a caller knows of a server. Built once, never changed, and handed to
/// every request.
#[derive(Debug, Clone)]
pub struct MalojaCredentials {
    /// Speak `https` rather than `http`.
    pub https: bool,
    /// Accept a certificate that does not verify.
    pub skip_cert_verification: bool,
    /// The host, by name or address.
    pub ip: String,
    pub port: u16,
    /// The path under which the server lives, where it is not the root.
    pub path: Option<String>,
    /// Headers to send along with every request, as name and value, in the
    /// order in which they are offered to the transport. A name is meant to
    /// occur once: see `wf` and `with_header`.
    pub headers: Option<Vec<(String, String)>>,
    /// The key that authorises submissions.
    pub api_key: Option<String>,
}

/// The scheme of a URL, with the separator that follows it.
pub open spec fn scheme(https: bool) -> Seq<char> {
    if https {
        "https://"@
    } else {
        "http://"@
    }
}

/// The path of the base URL: nothing where the given path is absent or
/// holds slashes only, else a slash and the given path without the slashes
/// at its ends.
pub open spec fn normalized_path(path: Option<Seq<char>>) -> Seq<char> {
    match path {
        None => Seq::empty(),
        Some(given) => {
            let inner = trim_both(given, '/');
            if inner.len() == 0 {
                Seq::empty()
            } else {
                "/"@ + inner
            }
        },
    }
}

/// The base URL: scheme, host, a colon, the port in decimal and the
/// normalized path.
pub open spec fn base_url(https: bool, host: Seq<char>, port: u16, path: Option<Seq<char>>) -> Seq<
    char,
> {
    scheme(https) + host + ":"@ + decimal_digits(port as nat) + normalized_path(path)
}

/// No name occurs twice among the pairs.
pub open spec fn distinct_names(pairs: Seq<Header>) -> bool {
    forall|i: int, j: int| 0 <= i < j < pairs.len() ==> (#[trigger] pairs[i]).0 != (#[trigger] pairs[j]).0
}

/// The value that a list of pairs holds for each name: that of the last pair
/// with the name.
pub open spec fn values_by_name(pairs: Seq<Header>) -> Map<Seq<char>, Seq<char>>
    decreases pairs.len(),
{
    if pairs.len() == 0 {
        Map::empty()
    } else {
        values_by_name(pairs.drop_last()).insert(pairs.last().0, pairs.last().1)
    }
}

/// Whether a pair has another name than `name`.
pub open spec fn other_than(name: Seq<char>) -> spec_fn(Header) -> bool {
    |pair: Header| pair.0 != name
}

/// The pairs of a list whose name is not `name`, in their order.
pub open spec fn without_name(pairs: Seq<Header>, name: Seq<char>) -> Seq<Header> {
    pairs.filter(other_than(name))
}

impl MalojaCredentials {
    /// The base URL these credentials resolve to.
    pub open spec fn url(&self) -> Seq<char> {
        base_url(self.https, self.ip@, self.port, self.path.deep_view())
    }

    /// The extra headers as name and value, in order; none where the field is
    /// absent.
    pub open spec fn header_pairs(&self) -> Seq<Header> {
        header_pairs(self.headers)
    }

    /// The extra headers as a map from name to value.
    pub open spec fn header_values(&self) -> Map<Seq<char>, Seq<char>> {
        values_by_name(self.header_pairs())
    }

    /// The credentials are well formed: no header name occurs twice.
    pub open spec fn wf(&self) -> bool {
        distinct_names(self.header_pairs())
    }

    /// The same credentials with the header `name` at the value `value`. A
    /// pair that held the name before is gone, so the name occurs once
    /// afterwards, as the last. The other headers keep their values and
    /// their order, and every other field is as it was.
    pub fn with_header(self, name: String, value: String) -> (next: MalojaCredentials)
        ensures
            next.header_pairs() == without_name(self.header_pairs(), name@).push((name@, value@)),
            next.header_values() == self.header_values().insert(name@, value@),
            self.wf() ==> next.wf(),
            next.https == self.https,
            next.skip_cert_verification == self.skip_cert_verification,
            next.ip == self.ip,
            next.port == self.port,
            next.path == self.path,
            next.api_key == self.api_key,
    {
        let ghost before = self.header_pairs();
        let mut kept: Vec<(String, String)> = Vec::new();
        assert(kept.deep_view() =~= Seq::<Header>::empty());
        if let Some(pairs) = self.headers {
            for pair in it: pairs.into_iter()
                invariant
                    it.seq() == pairs@,
                    before == pairs.deep_view(),
                    kept.deep_view() == without_name(before.take(it.index() as int), name@),
            {
                let ghost done = before.take(it.index() as int);
                let ghost next = before.take(it.index() + 1);
                proof {
                    assert(next =~= done.push(pair.deep_view()));
                    lemma_filter_push(done, pair.deep_view(), name@);
                }
                if !(pair.0 == name) {
                    kept.push(pair);
                }
            }
            assert(before.take(pairs@.len() as int) =~= before);
        }
        proof {
            lemma_values_without_name(before, name@);
            lemma_without_name_is_distinct(before, name@);
        }
        let ghost held = kept.deep_view();
        kept.push((name, value));
        assert(kept.deep_view() =~= held.push((name@, value@)));
        assert(kept.deep_view().drop_last() =~= held);
        MalojaCredentials {
            https: self.https,
            skip_cert_verification: self.skip_cert_verification,
            ip: self.ip,
            port: self.port,
            path: self.path,
            headers: Some(kept),
            api_key: self.api_key,
        }
    }

    /// Resolves the base URL under which the server's endpoints live.
    pub fn get_url(&self) -> (url: String)
        ensures
            url@ == self.url(),
    {
        let protocol = if self.https {
            "https://"
        } else {
            "http://"
        };
        let url = protocol.to_owned().concat(self.ip.as_str()).concat(":").concat(
            decimal(self.port as u64).as_str(),
        );
        match &self.path {
            None => url,
            Some(given) => {
                let inner = trim_char(given.as_str(), '/');
                if inner.is_empty() {
                    url
                } else {
                    url.concat("/").concat(inner)
                }
            },
        }
    }
}

/// Filtering a list that grew by one pair: the pair is kept where its name is
/// not `name`, and left out where it is.
pub proof fn lemma_filter_push(pairs: Seq<Header>, pair: Header, name: Seq<char>)
    ensures
        without_name(pairs.push(pair), name) == if pair.0 != name {
            without_name(pairs, name).push(pair)
        } else {
            without_name(pairs, name)
        },
{
    pairs.lemma_filter_push(pair, other_than(name));
}

/// Leaving out the pairs of a name takes the name out of the map and changes
/// nothing else.
pub proof fn lemma_values_without_name(pairs: Seq<Header>, name: Seq<char>)
    ensures
        values_by_name(without_name(pairs, name)) == values_by_name(pairs).remove(name),
    decreases pairs.len(),
{
    if pairs.len() == 0 {
        assert(without_name(pairs, name) =~= Seq::<Header>::empty());
        assert(values_by_name(pairs).remove(name) =~= Map::<Seq<char>, Seq<char>>::empty());
    } else {
        let before = pairs.drop_last();
        let last = pairs.last();
        assert(pairs =~= before.push(last));
        lemma_filter_push(before, last, name);
        lemma_values_without_name(before, name);
        if last.0 != name {
            let kept = without_name(before, name).push(last);
            assert(kept.drop_last() =~= without_name(before, name));
            assert(values_by_name(kept) =~= values_by_name(pairs).remove(name));
        } else {
            assert(values_by_name(before).remove(name) =~= values_by_name(pairs).remove(name));
        }
    }
}

/// Leaving out the pairs of a name keeps the names distinct where they were,
/// and leaves no pair with the name.
pub proof fn lemma_without_name_is_distinct(pairs: Seq<Header>, name: Seq<char>)
    ensures
        forall|i: int|
            0 <= i < without_name(pairs, name).len() ==> (#[trigger] without_name(pairs, name)[i]).0
                != name,
        distinct_names(pairs) ==> distinct_names(without_name(pairs, name)),
    decreases pairs.len(),
{
    let kept = without_name(pairs, name);
    if pairs.len() == 0 {
        assert(kept =~= Seq::<Header>::empty());
    } else {
        let before = pairs.drop_last();
        let last = pairs.last();
        assert(pairs =~= before.push(last));
        lemma_filter_push(before, last, name);
        lemma_without_name_is_distinct(before, name);
        if distinct_names(pairs) {
            assert forall|i: int, j: int| 0 <= i < j < before.len() implies (#[trigger] before[i]).0
                != (#[trigger] before[j]).0 by {
                assert(before[i] == pairs[i]);
                assert(before[j] == pairs[j]);
            }
            if last.0 != name {
                let inner = without_name(before, name);
                assert forall|i: int, j: int| 0 <= i < j < kept.len() implies (#[trigger] kept[i]).0
                    != (#[trigger] kept[j]).0 by {
                    if j == kept.len() - 1 {
                        assert(kept[i] == inner[i]);
                        lemma_kept_pair_comes_from_the_list(before, name, i);
                        let k = choose|k: int| 0 <= k < before.len() && before[k] == inner[i];
                        assert(pairs[k] == before[k]);
                        assert(pairs[pairs.len() - 1] == last);
                    } else {
                        assert(kept[i] == inner[i]);
                        assert(kept[j] == inner[j]);
                    }
                }
            }
        }
    }
}

/// Every pair that is kept is a pair of the list.
pub proof fn lemma_kept_pair_comes_from_the_list(pairs: Seq<Header>, name: Seq<char>, i: int)
    requires
        0 <= i < without_name(pairs, name).len(),
    ensures
        pairs.contains(without_name(pairs, name)[i]),
{
    let kept = without_name(pairs, name);
    assert(kept.contains(kept[i]));
    pairs.lemma_filter_contains_rev(other_than(name), kept[i]);
}

/// The base URL depends on the scheme flag, the host, the port and the path,
/// and on nothing else: credentials that agree on these resolve to one URL.
pub proof fn lemma_url_is_determined(a: MalojaCredentials, b: MalojaCredentials)
    requires
        a.https == b.https,
        a.ip@ == b.ip@,
        a.port == b.port,
        a.path.deep_view() == b.path.deep_view(),
    ensures
        a.url() == b.url(),
{
}

/// The normalized path is empty, or it starts with one slash that is
/// followed by something other than a slash, and does not end with a slash.
pub proof fn lemma_normalized_path_shape(path: Option<Seq<char>>)
    ensures
        normalized_path(path).len() == 0 || {
            &&& normalized_path(path).len() >= 2
            &&& normalized_path(path)[0] == '/'
            &&& normalized_path(path)[1] != '/'
            &&& normalized_path(path).last() != '/'
        },
{
    reveal_strlit("/");
    match path {
        None => {},
        Some(given) => {
            lemma_trim_both_has_clean_ends(given, '/');
            let inner = trim_both(given, '/');
            if inner.len() > 0 {
                let whole = "/"@ + inner;
                assert(whole[0] == '/');
                assert(whole[1] == inner[0]);
                assert(whole.last() == inner.last());
            }
        },
    }
}

/// Slashes at the ends of the given path do not change the base URL, and a
/// path of slashes only is as good as none.
pub proof fn lemma_only_slashes_is_no_path(https: bool, host: Seq<char>, port: u16)
    ensures
        base_url(https, host, port, Some(Seq::empty())) == base_url(https, host, port, None),
        base_url(https, host, port, Some(seq!['/'])) == base_url(https, host, port, None),
{
    let one = seq!['/'];
    assert(one.drop_first() =~= Seq::<char>::empty());
    assert(trim_both(one, '/') =~= Seq::<char>::empty()) by {
        reveal_with_fuel(crate::text::trim_leading, 3);
        reveal_with_fuel(crate::text::trim_trailing, 3);
    }
    assert(trim_both(Seq::<char>::empty(), '/') =~= Seq::<char>::empty());
}

} // verus!
