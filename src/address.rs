//! The URL of a request: scheme, host, port, path segments and a
//! form-encoded query that ends with the cluster's credentials.

use vstd::prelude::*;
use vstd::string::StringExecFns;
use crate::instance::{Instance, InstanceView, scheme_text};

verus! {

/// One name or value, form-encoded in the way of
/// `application/x-www-form-urlencoded`.
pub uninterp spec fn form_component(s: Seq<char>) -> Seq<char>;

/// The characters that form-encoding keeps as they are.
pub open spec fn unchanged_char(c: char) -> bool {
    c == '*' || c == '-' || c == '.' || c == '_' || ('0' <= c && c <= '9') || ('A' <= c && c
        <= 'Z') || ('a' <= c && c <= 'z')
}

/// Every character of `s` is kept as it is by form-encoding.
pub open spec fn is_plain(s: Seq<char>) -> bool {
    forall|i: int| 0 <= i < s.len() ==> unchanged_char(#[trigger] s[i])
}

/// Relies on url's `form_urlencoded::byte_serialize`: the encoding of the
/// bytes of `s` depends on them alone, and a string made only of
/// `*`, `-`, `.`, `_`, ASCII digits and ASCII letters comes out unchanged.
#[verifier::external_body]
fn encode_component(s: &str) -> (r: String)
    ensures
        r@ == form_component(s@),
        is_plain(s@) ==> r@ == s@,
{
    url::form_urlencoded::byte_serialize(s.as_bytes()).collect()
}

/// One query pair as `name=value`, each side encoded by `enc`.
pub open spec fn pair_text(p: (Seq<char>, Seq<char>), enc: spec_fn(Seq<char>) -> Seq<char>) -> Seq<
    char,
> {
    enc(p.0) + seq!['='] + enc(p.1)
}

/// Query pairs as `name=value`, joined by `&`, each side encoded by `enc`.
pub open spec fn query_with(
    pairs: Seq<(Seq<char>, Seq<char>)>,
    enc: spec_fn(Seq<char>) -> Seq<char>,
) -> Seq<char>
    decreases pairs.len(),
{
    if pairs.len() == 0 {
        Seq::empty()
    } else if pairs.len() == 1 {
        pair_text(pairs[0], enc)
    } else {
        query_with(pairs.drop_last(), enc) + seq!['&'] + pair_text(pairs.last(), enc)
    }
}

/// Form-encoding of a name or a value.
pub open spec fn encoded() -> spec_fn(Seq<char>) -> Seq<char> {
    |s: Seq<char>| form_component(s)
}

/// A name or a value as it stands.
pub open spec fn verbatim() -> spec_fn(Seq<char>) -> Seq<char> {
    |s: Seq<char>| s
}

/// The query text of `pairs`, form-encoded.
pub open spec fn query_text(pairs: Seq<(Seq<char>, Seq<char>)>) -> Seq<char> {
    query_with(pairs, encoded())
}

/// Every name and value of `pairs` is kept as it is by form-encoding.
pub open spec fn all_plain(pairs: Seq<(Seq<char>, Seq<char>)>) -> bool {
    forall|i: int| 0 <= i < pairs.len() ==> is_plain(#[trigger] pairs[i].0) && is_plain(pairs[i].1)
}

/// The query text of `pairs`: `name=value` joined by `&`, each name and value
/// form-encoded. Where every name and value is plain, the text is them as
/// they stand.
pub fn encode_query(pairs: &Vec<(String, String)>) -> (r: String)
    ensures
        r@ == query_text(pair_views(pairs@)),
        all_plain(pair_views(pairs@)) ==> r@ == query_with(pair_views(pairs@), verbatim()),
{
    let mut out = String::new();
    let mut i: usize = 0;
    while i < pairs.len()
        invariant
            i <= pairs.len(),
            out@ == query_text(pair_views(pairs@.subrange(0, i as int))),
            all_plain(pair_views(pairs@.subrange(0, i as int))) ==> out@ == query_with(
                pair_views(pairs@.subrange(0, i as int)),
                verbatim(),
            ),
        decreases pairs.len() - i,
    {
        let ghost before = pair_views(pairs@.subrange(0, i as int));
        let ghost pv = pair_views(pairs@.subrange(0, i + 1));
        assert(pv =~= before.push((pairs@[i as int].0@, pairs@[i as int].1@)));
        assert(pv.drop_last() =~= before);
        let ghost old_out = out@;
        proof {
            reveal_strlit("&");
            reveal_strlit("=");
        }
        if i > 0 {
            out.append("&");
            assert(out@ =~= old_out + seq!['&']);
        }
        let ghost mid = out@;
        let name = encode_component(pairs[i].0.as_str());
        let value = encode_component(pairs[i].1.as_str());
        out.append(name.as_str());
        out.append("=");
        out.append(value.as_str());
        assert(out@ =~= mid + name@ + seq!['='] + value@);
        proof {
            assert(pv.last() == (pairs@[i as int].0@, pairs@[i as int].1@));
            assert(name@ == form_component(pairs@[i as int].0@));
            assert(value@ == form_component(pairs@[i as int].1@));
            assert(encoded()(pv.last().0) == form_component(pv.last().0));
            assert(encoded()(pv.last().1) == form_component(pv.last().1));
            assert(verbatim()(pv.last().0) == pv.last().0);
            assert(verbatim()(pv.last().1) == pv.last().1);
            if i > 0 {
                assert(out@ =~= old_out + seq!['&'] + pair_text(pv.last(), encoded()));
            } else {
                assert(out@ =~= pair_text(pv.last(), encoded()));
            }
            if all_plain(pv) {
                assert forall|k: int| 0 <= k < before.len() implies is_plain(#[trigger] before[k].0)
                    && is_plain(before[k].1) by {
                    assert(before[k] == pv[k]);
                }
                assert(is_plain(pv[i as int].0) && is_plain(pv[i as int].1));
                if i > 0 {
                    assert(out@ =~= old_out + seq!['&'] + pair_text(pv.last(), verbatim()));
                } else {
                    assert(out@ =~= pair_text(pv.last(), verbatim()));
                }
            }
        }
        i += 1;
    }
    assert(pairs@.subrange(0, pairs.len() as int) =~= pairs@);
    out
}

/// The values of query pairs.
pub open spec fn pair_views(s: Seq<(String, String)>) -> Seq<(Seq<char>, Seq<char>)> {
    s.map_values(|p: (String, String)| (p.0@, p.1@))
}

/// The values of strings.
pub open spec fn string_views(s: Seq<String>) -> Seq<Seq<char>> {
    s.map_values(|x: String| x@)
}

/// The ten decimal digits.
pub open spec fn digits() -> Seq<char> {
    seq!['0', '1', '2', '3', '4', '5', '6', '7', '8', '9']
}

/// `n` in decimal, without leading zeros.
pub open spec fn decimal(n: nat) -> Seq<char>
    decreases n,
{
    if n < 10 {
        seq![digits()[n as int]]
    } else {
        decimal(n / 10) + seq![digits()[(n % 10) as int]]
    }
}

/// Path segments joined by `/`.
pub open spec fn joined(path: Seq<Seq<char>>) -> Seq<char>
    decreases path.len(),
{
    if path.len() == 0 {
        Seq::empty()
    } else if path.len() == 1 {
        path[0]
    } else {
        joined(path.drop_last()) + seq!['/'] + path.last()
    }
}

/// `{scheme}://{host}:{port}/{path}?{query}`.
pub open spec fn url_text(i: InstanceView, path: Seq<Seq<char>>, query: Seq<char>) -> Seq<char> {
    scheme_text(i.scheme) + seq![':', '/', '/'] + i.host + seq![':'] + decimal(i.port as nat)
        + seq!['/'] + joined(path) + seq!['?'] + query
}

/// Holds of a query pair whose name is neither `u` nor `p`.
pub open spec fn not_credential() -> spec_fn((Seq<char>, Seq<char>)) -> bool {
    |p: (Seq<char>, Seq<char>)| p.0 != seq!['u'] && p.0 != seq!['p']
}

/// The query pairs of a request: the caller's, but for any named `u` or `p`,
/// then `u` with the user name, then `p` with the password. Each credential
/// thus stands once, and last.
pub open spec fn with_credentials(
    query: Seq<(Seq<char>, Seq<char>)>,
    username: Seq<char>,
    password: Seq<char>,
) -> Seq<(Seq<char>, Seq<char>)> {
    query.filter(not_credential()).push((seq!['u'], username)).push((seq!['p'], password))
}

/// Each credential stands once in a request's query, in the last two
/// places: no pair before them is named `u` or `p`.
pub proof fn lemma_credentials_once(
    query: Seq<(Seq<char>, Seq<char>)>,
    username: Seq<char>,
    password: Seq<char>,
)
    ensures
        ({
            let q = with_credentials(query, username, password);
            &&& q.len() >= 2
            &&& q[q.len() - 2] == (seq!['u'], username)
            &&& q[q.len() - 1] == (seq!['p'], password)
            &&& forall|i: int|
                0 <= i < q.len() - 2 ==> #[trigger] q[i].0 != seq!['u'] && q[i].0 != seq!['p']
        }),
{
    broadcast use vstd::seq_lib::group_filter_ensures;

    let kept = query.filter(not_credential());
    assert forall|i: int| 0 <= i < kept.len() implies #[trigger] kept[i].0 != seq!['u']
        && kept[i].0 != seq!['p'] by {
        assert(not_credential()(kept[i]));
    }
}

fn digit_str(d: u16) -> (r: &'static str)
    requires
        d < 10,
    ensures
        r@ == seq![digits()[d as int]],
{
    let r = match d {
        0 => "0",
        1 => "1",
        2 => "2",
        3 => "3",
        4 => "4",
        5 => "5",
        6 => "6",
        7 => "7",
        8 => "8",
        _ => "9",
    };
    proof {
        reveal_strlit("0");
        reveal_strlit("1");
        reveal_strlit("2");
        reveal_strlit("3");
        reveal_strlit("4");
        reveal_strlit("5");
        reveal_strlit("6");
        reveal_strlit("7");
        reveal_strlit("8");
        reveal_strlit("9");
    }
    assert(r@ =~= seq![digits()[d as int]]);
    r
}

fn push_decimal(s: &mut String, n: u16)
    ensures
        final(s)@ == old(s)@ + decimal(n as nat),
    decreases n,
{
    if n >= 10 {
        push_decimal(s, n / 10);
    }
    s.append(digit_str(n % 10));
    assert(final(s)@ =~= old(s)@ + decimal(n as nat));
}

/// `n` in decimal.
pub fn port_text(n: u16) -> (r: String)
    ensures
        r@ == decimal(n as nat),
{
    let mut s = String::new();
    push_decimal(&mut s, n);
    assert(s@ =~= decimal(n as nat));
    s
}

/// The path segments joined by `/`.
pub fn join_path(path: &Vec<String>) -> (r: String)
    ensures
        r@ == joined(string_views(path@)),
{
    let mut out = String::new();
    let mut i: usize = 0;
    while i < path.len()
        invariant
            i <= path.len(),
            out@ == joined(string_views(path@.subrange(0, i as int))),
        decreases path.len() - i,
    {
        let ghost before = string_views(path@.subrange(0, i as int));
        assert(string_views(path@.subrange(0, i + 1)) =~= before.push(path@[i as int]@));
        assert(string_views(path@.subrange(0, i + 1)).drop_last() =~= before);
        if i > 0 {
            out.append("/");
            proof {
                reveal_strlit("/");
            }
        }
        out.append(path[i].as_str());
        i += 1;
    }
    assert(path@.subrange(0, path.len() as int) =~= path@);
    out
}

/// The URL of a request to `instance` at `path`, with the query already
/// encoded.
pub fn build_url_with_query(instance: &Instance, path: &Vec<String>, encoded_query: &str) -> (r:
    String)
    ensures
        r@ == url_text(instance@, string_views(path@), encoded_query@),
{
    proof {
        reveal_strlit("://");
        reveal_strlit(":");
        reveal_strlit("/");
        reveal_strlit("?");
    }
    let mut s = String::new();
    s.append(instance.scheme.as_str());
    s.append("://");
    s.append(instance.host.as_str());
    s.append(":");
    push_decimal(&mut s, instance.port);
    s.append("/");
    let p = join_path(path);
    s.append(p.as_str());
    s.append("?");
    s.append(encoded_query);
    assert(s@ =~= url_text(instance@, string_views(path@), encoded_query@));
    s
}

/// The URL of a request to `instance` at `path` with the query pairs `query`,
/// form-encoded.
pub fn build_url(instance: &Instance, path: &Vec<String>, query: &Vec<(String, String)>) -> (r:
    String)
    ensures
        r@ == url_text(instance@, string_views(path@), query_text(pair_views(query@))),
        all_plain(pair_views(query@)) ==> r@ == url_text(
            instance@,
            string_views(path@),
            query_with(pair_views(query@), verbatim()),
        ),
{
    let encoded = encode_query(query);
    build_url_with_query(instance, path, encoded.as_str())
}

/// The caller's query pairs, or none, followed by the credentials.
pub fn credential_query(
    query: Option<Vec<(String, String)>>,
    username: &String,
    password: &String,
) -> (r: Vec<(String, String)>)
    ensures
        pair_views(r@) == with_credentials(
            match query {
                Some(q) => pair_views(q@),
                None => Seq::empty(),
            },
            username@,
            password@,
        ),
{
    proof {
        reveal_strlit("u");
        reveal_strlit("p");
    }
    let u = String::from_str("u");
    let p = String::from_str("p");
    assert(u@ =~= seq!['u']);
    assert(p@ =~= seq!['p']);
    let given = match query {
        Some(q) => q,
        None => Vec::new(),
    };
    let mut pairs: Vec<(String, String)> = Vec::new();
    let mut i: usize = 0;
    assert(pair_views(given@.subrange(0, 0)) =~= Seq::<(Seq<char>, Seq<char>)>::empty());
    assert(Seq::<(Seq<char>, Seq<char>)>::empty().filter(not_credential()) =~= Seq::<
        (Seq<char>, Seq<char>),
    >::empty()) by {
        reveal(Seq::filter);
    }
    while i < given.len()
        invariant
            i <= given.len(),
            u@ == seq!['u'],
            p@ == seq!['p'],
            pair_views(pairs@) == pair_views(given@.subrange(0, i as int)).filter(
                not_credential(),
            ),
        decreases given.len() - i,
    {
        let ghost before = pair_views(given@.subrange(0, i as int));
        let ghost item = (given@[i as int].0@, given@[i as int].1@);
        assert(pair_views(given@.subrange(0, i + 1)) =~= before.push(item));
        let ghost prev = pairs@;
        proof {
            before.lemma_filter_push(item, not_credential());
        }
        if given[i].0 != u && given[i].0 != p {
            pairs.push((given[i].0.clone(), given[i].1.clone()));
            assert(pair_views(pairs@) =~= pair_views(prev).push(item));
        }
        i += 1;
    }
    assert(given@.subrange(0, given.len() as int) =~= given@);
    let ghost kept = pairs@;
    pairs.push((u, username.clone()));
    pairs.push((p, password.clone()));
    assert(pair_views(pairs@) =~= pair_views(kept).push((seq!['u'], username@)).push(
        (seq!['p'], password@),
    ));
    pairs
}

} // verus!
