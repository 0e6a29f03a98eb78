//! A parsed URL held as plain values, together with its mathematical model.
//!
//! The query-merging algebra only ever reads a URL's scheme, host, port,
//! path and query parameters, so a URL is modelled as exactly those five
//! components. Parsing a string into components and percent-encoding a
//! component are the only operations delegated to outside code.

use vstd::prelude::*;
use vstd::string::StringExecFns;

verus! {

/// Mathematical model of a parsed URL: scheme, host, port, path, and the
/// decoded query parameters as (key, value) pairs in their original order.
#[verifier::ext_equal]
pub ghost struct UrlView {
    pub scheme: Seq<char>,
    pub host: Option<Seq<char>>,
    pub port: Option<u16>,
    pub path: Seq<char>,
    pub params: Seq<(Seq<char>, Seq<char>)>,
}

/// A parsed URL held as plain values. `params` holds the decoded query
/// parameters in the order they appear in the query string.
#[derive(Debug, PartialEq)]
pub struct UrlParts {
    pub scheme: String,
    pub host: Option<String>,
    pub port: Option<u16>,
    pub path: String,
    pub params: Vec<(String, String)>,
}

/// The view of an optional host string.
pub open spec fn host_view(h: &Option<String>) -> Option<Seq<char>> {
    match h {
        Option::Some(s) => Option::Some(s@),
        Option::None => Option::None,
    }
}

/// The view of a parameter list.
pub open spec fn params_view(ps: Seq<(String, String)>) -> Seq<(Seq<char>, Seq<char>)> {
    ps.map_values(|p: (String, String)| (p.0@, p.1@))
}

impl View for UrlParts {
    type V = UrlView;

    open spec fn view(&self) -> UrlView {
        UrlView {
            scheme: self.scheme@,
            host: host_view(&self.host),
            port: self.port,
            path: self.path@,
            params: params_view(self.params@),
        }
    }
}

/// The values of every parameter named `k`, in order.
pub open spec fn values_for(ps: Seq<(Seq<char>, Seq<char>)>, k: Seq<char>) -> Seq<Seq<char>>
    decreases ps.len(),
{
    if ps.len() == 0 {
        Seq::empty()
    } else if ps.last().0 == k {
        values_for(ps.drop_last(), k).push(ps.last().1)
    } else {
        values_for(ps.drop_last(), k)
    }
}

/// `ps` with the value of every parameter named `k` replaced by `v`;
/// parameter order and all other parameters are untouched.
pub open spec fn set_value(
    ps: Seq<(Seq<char>, Seq<char>)>,
    k: Seq<char>,
    v: Seq<char>,
) -> Seq<(Seq<char>, Seq<char>)> {
    ps.map_values(|p: (Seq<char>, Seq<char>)| if p.0 == k { (p.0, v) } else { p })
}

/// Replacing values never changes how many parameters carry a given name,
/// and afterwards every parameter named `k` carries `v`.
pub proof fn lemma_values_for_set_value(ps: Seq<(Seq<char>, Seq<char>)>, k: Seq<char>, v: Seq<char>)
    ensures
        values_for(set_value(ps, k, v), k) == Seq::new(values_for(ps, k).len(), |i: int| v),
    decreases ps.len(),
{
    if ps.len() == 0 {
        assert(set_value(ps, k, v) =~= Seq::empty());
        assert(values_for(set_value(ps, k, v), k) =~= Seq::new(values_for(ps, k).len(), |i: int| v));
    } else {
        lemma_values_for_set_value(ps.drop_last(), k, v);
        assert(set_value(ps, k, v).drop_last() =~= set_value(ps.drop_last(), k, v));
        assert(set_value(ps, k, v).last() == (if ps.last().0 == k {
            (ps.last().0, v)
        } else {
            ps.last()
        }));
        assert(values_for(set_value(ps, k, v), k) =~= Seq::new(values_for(ps, k).len(), |i: int| v));
    }
}

impl UrlParts {
    /// The values of every query parameter named `param_name`, in order.
    pub fn params(&self, param_name: &str) -> (r: Vec<String>)
        ensures
            r@.map_values(|s: String| s@) == values_for(self@.params, param_name@),
    {
        let mut r: Vec<String> = Vec::new();
        let pname: String = param_name.to_owned();
        let n = self.params.len();
        let mut i: usize = 0;
        while i < n
            invariant
                n == self.params.len(),
                i <= n,
                pname@ == param_name@,
                r@.map_values(|s: String| s@) =~= values_for(
                    params_view(self.params@).take(i as int),
                    param_name@,
                ),
            decreases n - i,
        {
            proof {
                assert(params_view(self.params@).take(i + 1).drop_last() =~= params_view(
                    self.params@,
                ).take(i as int));
            }
            let ghost prev = r@;
            if self.params[i].0 == pname {
                r.push(self.params[i].1.clone());
                proof {
                    assert(r@.map_values(|s: String| s@) =~= prev.map_values(|s: String| s@).push(
                        self.params@[i as int].1@,
                    ));
                }
            }
            i += 1;
        }
        proof {
            assert(params_view(self.params@).take(n as int) =~= params_view(self.params@));
        }
        r
    }

    /// Replaces the value of every query parameter named `param.0` with
    /// `param.1`, keeping the parameter order and every other component.
    pub fn set_param(&mut self, param: (&str, &str))
        ensures
            final(self)@ == (UrlView { params: set_value(old(self)@.params, param.0@, param.1@), ..old(self)@ }),
    {
        let mut out: Vec<(String, String)> = Vec::new();
        let key: String = param.0.to_owned();
        let val: String = param.1.to_owned();
        let n = self.params.len();
        let mut i: usize = 0;
        while i < n
            invariant
                n == self.params.len(),
                i <= n,
                key@ == param.0@,
                val@ == param.1@,
                out@.len() == i,
                params_view(out@) =~= set_value(params_view(self.params@), param.0@, param.1@).take(i as int),
            decreases n - i,
        {
            let ghost prev = out@;
            if self.params[i].0 == key {
                out.push((self.params[i].0.clone(), val.clone()));
            } else {
                out.push((self.params[i].0.clone(), self.params[i].1.clone()));
            }
            proof {
                assert(params_view(out@) =~= params_view(prev).push(
                    set_value(params_view(self.params@), param.0@, param.1@)[i as int],
                ));
                assert(params_view(out@) =~= set_value(
                    params_view(self.params@),
                    param.0@,
                    param.1@,
                ).take(i + 1));
            }
            i += 1;
        }
        self.params = out;
        proof {
            assert(set_value(params_view(old(self).params@), param.0@, param.1@).take(n as int)
                =~= set_value(params_view(old(self).params@), param.0@, param.1@));
        }
    }
}

/// Read and rewrite the query parameters of a URL-like value.
pub trait QueryParam {
    /// The (key, value) pairs this value carries, in order.
    spec fn param_pairs(&self) -> Seq<(Seq<char>, Seq<char>)>;

    /// The values of every parameter named `param_name`, in order.
    fn params(&self, param_name: &str) -> (r: Vec<String>)
        ensures
            r@.map_values(|s: String| s@) == values_for(self.param_pairs(), param_name@),
    ;

    /// Replaces the value of every parameter named `param.0` with
    /// `param.1`, keeping the parameter order.
    fn set_param(&mut self, param: (&str, &str))
        ensures
            final(self).param_pairs() == set_value(old(self).param_pairs(), param.0@, param.1@),
    ;
}

impl QueryParam for UrlParts {
    open spec fn param_pairs(&self) -> Seq<(Seq<char>, Seq<char>)> {
        self@.params
    }

    fn params(&self, param_name: &str) -> (r: Vec<String>) {
        UrlParts::params(self, param_name)
    }

    fn set_param(&mut self, param: (&str, &str)) {
        UrlParts::set_param(self, param)
    }
}

/// A copy of an optional host string with the same view.
fn clone_opt_string(h: &Option<String>) -> (r: Option<String>)
    ensures
        host_view(&r) == host_view(h),
{
    match h {
        Option::Some(s) => Option::Some(s.clone()),
        Option::None => Option::None,
    }
}

/// A copy of a parameter list with the same view.
fn clone_params(ps: &Vec<(String, String)>) -> (r: Vec<(String, String)>)
    ensures
        params_view(r@) == params_view(ps@),
{
    let mut r: Vec<(String, String)> = Vec::new();
    let n = ps.len();
    let mut i: usize = 0;
    while i < n
        invariant
            n == ps.len(),
            i <= n,
            r@.len() == i,
            params_view(r@) =~= params_view(ps@).take(i as int),
        decreases n - i,
    {
        let ghost prev = r@;
        r.push((ps[i].0.clone(), ps[i].1.clone()));
        proof {
            assert(params_view(r@) =~= params_view(prev).push(params_view(ps@)[i as int]));
            assert(params_view(r@) =~= params_view(ps@).take(i + 1));
        }
        i += 1;
    }
    proof {
        assert(params_view(ps@).take(n as int) =~= params_view(ps@));
    }
    r
}

impl Clone for UrlParts {
    /// A copy with the same view.
    fn clone(&self) -> (r: Self)
        ensures
            r@ == self@,
    {
        UrlParts {
            scheme: self.scheme.clone(),
            host: clone_opt_string(&self.host),
            port: self.port,
            path: self.path.clone(),
            params: clone_params(&self.params),
        }
    }
}

/// What `url::Url::parse` returns for a given input string: either the
/// parsed URL's scheme, host, port, path and decoded query pairs, or the
/// parse error's message.
pub uninterp spec fn parse_of(s: Seq<char>) -> Result<UrlView, Seq<char>>;

/// What the `application/x-www-form-urlencoded` byte serializer returns
/// for a given component string.
pub uninterp spec fn form_enc(s: Seq<char>) -> Seq<char>;

/// Relies on `url::Url::parse` and the accessors `scheme`, `host_str`,
/// `port`, `path` and `query_pairs`: parsing is a function of the input
/// string alone, and the accessors read the components of the parsed URL.
#[verifier::external_body]
pub(crate) fn parse_url(s: &str) -> (r: Result<UrlParts, String>)
    ensures
        match r {
            Result::Ok(p) => parse_of(s@) == Result::<UrlView, Seq<char>>::Ok(p@),
            Result::Err(m) => parse_of(s@) == Result::<UrlView, Seq<char>>::Err(m@),
        },
{
    match url::Url::parse(s) {
        Ok(u) => Ok(UrlParts {
            scheme: u.scheme().to_string(),
            host: u.host_str().map(|h| h.to_string()),
            port: u.port(),
            path: u.path().to_string(),
            params: u.query_pairs().map(|(k, v)| (k.into_owned(), v.into_owned())).collect(),
        }),
        Err(e) => Err(e.to_string()),
    }
}

/// Relies on `form_urlencoded::byte_serialize`: the
/// `application/x-www-form-urlencoded` encoding of a string depends on its
/// bytes alone.
#[verifier::external_body]
pub(crate) fn form_encode(s: &String) -> (r: String)
    ensures
        r@ == form_enc(s@),
{
    form_urlencoded::byte_serialize(s.as_bytes()).collect()
}

/// The character for a single decimal digit.
pub open spec fn digit_char(d: nat) -> char {
    if d == 0 {
        '0'
    } else if d == 1 {
        '1'
    } else if d == 2 {
        '2'
    } else if d == 3 {
        '3'
    } else if d == 4 {
        '4'
    } else if d == 5 {
        '5'
    } else if d == 6 {
        '6'
    } else if d == 7 {
        '7'
    } else if d == 8 {
        '8'
    } else {
        '9'
    }
}

/// The decimal rendering of a number, most significant digit first and
/// without leading zeros.
pub open spec fn dec_digits(n: nat) -> Seq<char>
    decreases n,
{
    if n < 10 {
        seq![digit_char(n)]
    } else {
        dec_digits(n / 10) + seq![digit_char(n % 10)]
    }
}

/// The single-character string for a decimal digit.
fn digit_str(d: u16) -> (r: String)
    requires
        d < 10,
    ensures
        r@ == seq![digit_char(d as nat)],
{
    proof {
        reveal_strlit("0");
        reveal_strlit("1");
        reveal_strlit("2");
        reveal_strlit("3");
        reveal_strlit("4");
        reveal_strlit("5");
        reveal_strlit("6");
        reveal_strlit("7");
        reveal_strlit("8");
        reveal_strlit("9");
    }
    let s: &str = if d == 0 {
        "0"
    } else if d == 1 {
        "1"
    } else if d == 2 {
        "2"
    } else if d == 3 {
        "3"
    } else if d == 4 {
        "4"
    } else if d == 5 {
        "5"
    } else if d == 6 {
        "6"
    } else if d == 7 {
        "7"
    } else if d == 8 {
        "8"
    } else {
        "9"
    };
    let r = s.to_owned();
    assert(r@ =~= seq![digit_char(d as nat)]);
    r
}

/// The decimal string for a port number.
fn u16_to_dec(n: u16) -> (r: String)
    ensures
        r@ == dec_digits(n as nat),
    decreases n,
{
    if n < 10 {
        digit_str(n)
    } else {
        let mut r = u16_to_dec(n / 10);
        let d = digit_str(n % 10);
        r.append(d.as_str());
        assert(r@ =~= dec_digits(n as nat));
        r
    }
}

/// The encoded form of one query parameter: `key=value` with both sides
/// percent-encoded.
pub open spec fn render_pair(p: (Seq<char>, Seq<char>)) -> Seq<char> {
    form_enc(p.0) + "="@ + form_enc(p.1)
}

/// The encoded query string for a parameter list, pairs separated by `&`.
pub open spec fn render_params(ps: Seq<(Seq<char>, Seq<char>)>) -> Seq<char>
    decreases ps.len(),
{
    if ps.len() == 0 {
        Seq::empty()
    } else if ps.len() == 1 {
        render_pair(ps[0])
    } else {
        render_params(ps.drop_last()) + "&"@ + render_pair(ps.last())
    }
}

/// The host-and-port part of a rendered URL: `//host`, with `:port` when a
/// port is present, and empty when there is no host.
pub open spec fn render_authority(u: UrlView) -> Seq<char> {
    match u.host {
        Option::Some(h) => "//"@ + h + (match u.port {
            Option::Some(p) => ":"@ + dec_digits(p as nat),
            Option::None => Seq::empty(),
        }),
        Option::None => Seq::empty(),
    }
}

/// The canonical string form of a URL: scheme, authority, path, and the
/// percent-encoded query string when any parameter is present.
pub open spec fn render_url(u: UrlView) -> Seq<char> {
    u.scheme + ":"@ + render_authority(u) + u.path + (if u.params.len() == 0 {
        Seq::empty()
    } else {
        "?"@ + render_params(u.params)
    })
}

impl UrlParts {
    /// The canonical string form of this URL, with the query string
    /// percent-encoded.
    pub fn to_url_string(&self) -> (r: String)
        ensures
            r@ == render_url(self@),
    {
        let mut r: String = self.scheme.clone();
        r.append(":");
        match &self.host {
            Option::Some(h) => {
                r.append("//");
                r.append(h.as_str());
                match self.port {
                    Option::Some(p) => {
                        r.append(":");
                        let ds = u16_to_dec(p);
                        r.append(ds.as_str());
                    },
                    Option::None => {},
                }
            },
            Option::None => {},
        }
        assert(r@ =~= self@.scheme + ":"@ + render_authority(self@));
        r.append(self.path.as_str());
        let n = self.params.len();
        if n > 0 {
            r.append("?");
            let ghost head = self@.scheme + ":"@ + render_authority(self@) + self@.path + "?"@;
            let mut i: usize = 0;
            while i < n
                invariant
                    n == self.params.len(),
                    0 < n,
                    i <= n,
                    r@ =~= head + render_params(self@.params.take(i as int)),
                decreases n - i,
            {
                proof {
                    assert(self@.params.take(i + 1).drop_last() =~= self@.params.take(i as int));
                }
                if i > 0 {
                    r.append("&");
                }
                let ek = form_encode(&self.params[i].0);
                r.append(ek.as_str());
                r.append("=");
                let ev = form_encode(&self.params[i].1);
                r.append(ev.as_str());
                proof {
                    assert(self@.params[i as int] == (self.params@[i as int].0@,
                    self.params@[i as int].1@));
                    assert(r@ =~= head + render_params(self@.params.take(i + 1)));
                }
                i += 1;
            }
            proof {
                assert(self@.params.take(n as int) =~= self@.params);
            }
        }
        assert(r@ =~= render_url(self@));
        r
    }
}

} // verus!
