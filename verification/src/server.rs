//! Interpretation of the service's configuration values: boolean flags, the
//! `SameSite` attribute of the session cookie, and the list of origins
//! allowed to call the service from a browser.
use vstd::prelude::*;
use crate::text::{
    ascii_lower, ascii_lower_chars, ascii_lowered, chars_of, is_space, split_chars, split_on,
    string_of, trim_back, trim_chars, trim_front, trimmed, views_of,
};

verus! {

/// The `SameSite` attribute of the session cookie.
#[derive(Debug, Clone, Copy, PartialEq, Eq, Structural)]
pub enum SameSiteMode {
    Strict,
    Lax,
    /// `SameSite=None`: the cookie is also sent on cross-site requests.
    NoRestriction,
}

/// The normalised form of a configuration value: trimmed of whitespace and
/// lower-cased (ASCII).
pub open spec fn normalized(s: Seq<char>) -> Seq<char> {
    ascii_lowered(trimmed(s))
}

fn normalize(s: &str) -> (r: Vec<char>)
    ensures
        r@ == normalized(s@),
{
    let v = chars_of(s);
    let t = trim_chars(&v);
    ascii_lower_chars(&t)
}

fn chars_eq(v: &Vec<char>, lit: &str) -> (r: bool)
    ensures
        r == (v@ == lit@),
{
    let w = chars_of(lit);
    if v.len() != w.len() {
        return false;
    }
    let mut i: usize = 0;
    while i < v.len()
        invariant
            w@ == lit@,
            v.len() == w.len(),
            i <= v.len(),
            forall|k: int| 0 <= k < i ==> v@[k] == w@[k],
        decreases v.len() - i,
    {
        if v[i] != w[i] {
            return false;
        }
        i = i + 1;
    }
    assert(v@ =~= w@);
    true
}

/// The value of a boolean flag: `true` or `1` (ignoring surrounding
/// whitespace and letter case) is on, any other value is off, and an unset
/// flag takes its default.
pub open spec fn flag_value(value: Option<Seq<char>>, default: bool) -> bool {
    match value {
        Some(v) => normalized(v) == "true"@ || normalized(v) == "1"@,
        None => default,
    }
}

/// Interprets the value of a boolean flag (`None` when it is unset).
pub fn env_bool_value(value: Option<&str>, default: bool) -> (r: bool)
    ensures
        r == flag_value(
            match value {
                Some(v) => Some(v@),
                None => None,
            },
            default,
        ),
{
    match value {
        Some(v) => {
            let n = normalize(v);
            chars_eq(&n, "true") || chars_eq(&n, "1")
        },
        None => default,
    }
}

/// The `SameSite` mode a configuration value names: `none` and `strict`
/// (ignoring surrounding whitespace and letter case) name themselves, and
/// anything else, the empty value included, means `Lax`.
pub open spec fn same_site_of(value: Seq<char>) -> SameSiteMode {
    if normalized(value) == "none"@ {
        SameSiteMode::NoRestriction
    } else if normalized(value) == "strict"@ {
        SameSiteMode::Strict
    } else {
        SameSiteMode::Lax
    }
}

/// Decides the `SameSite` attribute from its configuration value.
pub fn parse_same_site(value: &str) -> (r: SameSiteMode)
    ensures
        r == same_site_of(value@),
{
    let n = normalize(value);
    if chars_eq(&n, "none") {
        SameSiteMode::NoRestriction
    } else if chars_eq(&n, "strict") {
        SameSiteMode::Strict
    } else {
        SameSiteMode::Lax
    }
}

/// Whether `http` accepts `s` as a header value: every character is a tab,
/// or at least U+0020 and not DEL (characters beyond ASCII encode to bytes
/// that are all accepted).
pub open spec fn header_text_valid(s: Seq<char>) -> bool {
    forall|i: int|
        0 <= i < s.len() ==> ((#[trigger] s[i]) as u32 == 9 || ((s[i] as u32) >= 32 && (s[i] as u32)
            != 127))
}

/// `HeaderValue::from_str(s).is_ok()` of `http` (re-exported by axum), which
/// checks each byte of `s` with `b >= 32 && b != 127 || b == b'\t'`; the
/// contract states that test per character.
#[verifier::external_body]
fn header_value_accepted(s: &str) -> (r: bool)
    ensures
        r == header_text_valid(s@),
{
    axum::http::HeaderValue::from_str(s).is_ok()
}

/// The allowed origins among the comma-separated pieces: each trimmed, and
/// kept when it is non-empty and a valid header value.
pub open spec fn allowed_origins(pieces: Seq<Seq<char>>) -> Seq<Seq<char>>
    decreases pieces.len(),
{
    if pieces.len() == 0 {
        Seq::<Seq<char>>::empty()
    } else {
        let rest = allowed_origins(pieces.drop_last());
        let t = trimmed(pieces.last());
        if t.len() > 0 && header_text_valid(t) {
            rest.push(t)
        } else {
            rest
        }
    }
}

/// The origins a comma-separated configuration value allows, or `None` when
/// the value is unset or allows none (then cross-origin calls stay off).
pub open spec fn cors_origin_list(raw: Option<Seq<char>>) -> Option<Seq<Seq<char>>> {
    match raw {
        Some(v) => {
            let o = allowed_origins(split_on(v, ','));
            if o.len() == 0 {
                None
            } else {
                Some(o)
            }
        },
        None => None,
    }
}

/// The views of a vector of strings.
pub open spec fn string_list_views(v: Seq<String>) -> Seq<Seq<char>> {
    v.map_values(|s: String| s@)
}

/// Reads the list of allowed cross-origin callers.
pub fn cors_origins(raw: Option<&str>) -> (r: Option<Vec<String>>)
    ensures
        match r {
            Some(v) => cors_origin_list(
                match raw {
                    Some(s) => Some(s@),
                    None => None,
                },
            ) == Some(string_list_views(v@)),
            None => cors_origin_list(
                match raw {
                    Some(s) => Some(s@),
                    None => None,
                },
            ) is None,
        },
{
    let s = match raw {
        Some(s) => s,
        None => return None,
    };
    let chars = chars_of(s);
    let pieces = split_chars(&chars, ',');
    let ghost pv = views_of(pieces@);
    assert(pv == split_on(s@, ','));
    let mut out: Vec<String> = Vec::new();
    let mut i: usize = 0;
    while i < pieces.len()
        invariant
            i <= pieces@.len(),
            pv == views_of(pieces@),
            string_list_views(out@) =~= allowed_origins(pv.subrange(0, i as int)),
        decreases pieces@.len() - i,
    {
        let t = trim_chars(&pieces[i]);
        let ts = string_of(&t);
        let ghost prev = pv.subrange(0, i as int);
        proof {
            assert(pv.subrange(0, i + 1).drop_last() =~= prev);
            assert(pv.subrange(0, i + 1).last() == pieces@[i as int]@);
        }
        if t.len() > 0 && header_value_accepted(ts.as_str()) {
            out.push(ts);
            assert(string_list_views(out@) =~= string_list_views(out@.drop_last()).push(t@));
        }
        i = i + 1;
    }
    assert(pv.subrange(0, pieces@.len() as int) =~= pv);
    if out.len() == 0 {
        None
    } else {
        Some(out)
    }
}


proof fn lemma_trim_front_shape(s: Seq<char>)
    ensures
        trim_front(s).len() <= s.len(),
        trim_front(s) == s.subrange(s.len() - trim_front(s).len(), s.len() as int),
        trim_front(s).len() > 0 ==> !is_space(trim_front(s)[0]),
        forall|k: int| 0 <= k < s.len() - trim_front(s).len() ==> is_space(#[trigger] s[k]),
    decreases s.len(),
{
    if s.len() > 0 && is_space(s[0]) {
        lemma_trim_front_shape(s.drop_first());
        let r = trim_front(s.drop_first());
        assert(s.drop_first().subrange(s.drop_first().len() - r.len(), s.drop_first().len() as int)
            =~= s.subrange(s.len() - r.len(), s.len() as int));
        assert forall|k: int| 0 <= k < s.len() - r.len() implies is_space(#[trigger] s[k]) by {
            if k > 0 {
                assert(s[k] == s.drop_first()[k - 1]);
            }
        }
    } else {
        assert(s.subrange(0, s.len() as int) =~= s);
    }
}

proof fn lemma_trim_back_shape(s: Seq<char>)
    ensures
        trim_back(s).len() <= s.len(),
        trim_back(s) == s.subrange(0, trim_back(s).len() as int),
        trim_back(s).len() > 0 ==> !is_space(trim_back(s).last()),
        forall|k: int| trim_back(s).len() <= k < s.len() ==> is_space(#[trigger] s[k]),
    decreases s.len(),
{
    if s.len() > 0 && is_space(s.last()) {
        lemma_trim_back_shape(s.drop_last());
        let r = trim_back(s.drop_last());
        assert(s.drop_last().subrange(0, r.len() as int) =~= s.subrange(0, r.len() as int));
        assert forall|k: int| r.len() <= k < s.len() implies is_space(#[trigger] s[k]) by {
            if k < s.len() - 1 {
                assert(s[k] == s.drop_last()[k]);
            }
        }
    } else {
        assert(s.subrange(0, s.len() as int) =~= s);
    }
}

/// Text whose ends are not whitespace is left as it is by trimming.
proof fn lemma_trim_fixed(t: Seq<char>)
    requires
        t.len() > 0 ==> !is_space(t[0]) && !is_space(t.last()),
    ensures
        trimmed(t) == t,
{
}

/// Trimmed text has no whitespace at either end.
proof fn lemma_trimmed_ends(s: Seq<char>)
    ensures
        trimmed(s).len() > 0 ==> !is_space(trimmed(s)[0]) && !is_space(trimmed(s).last()),
{
    let f = trim_front(s);
    lemma_trim_front_shape(s);
    lemma_trim_back_shape(f);
    let t = trim_back(f);
    if t.len() > 0 {
        assert(t[0] == f[0]);
    }
}

/// ASCII lower-casing neither creates nor removes whitespace, and is
/// idempotent.
proof fn lemma_lower_char(c: char)
    ensures
        is_space(ascii_lower(c)) == is_space(c),
        ascii_lower(ascii_lower(c)) == ascii_lower(c),
{
    if 'A' <= c && c <= 'Z' {
        let u: u32 = ((c as u32) + 32) as u32;
        assert(65 <= c as u32 <= 90);
        assert((u as char) as u32 == u);
    }
}

/// Surrounding whitespace and ASCII letter case of a configuration value do
/// not matter: the value and its normalised form mean the same flag and the
/// same `SameSite` mode.
pub proof fn lemma_config_value_normalization(s: Seq<char>, default: bool)
    ensures
        normalized(normalized(s)) == normalized(s),
        flag_value(Some(normalized(s)), default) == flag_value(Some(s), default),
        same_site_of(normalized(s)) == same_site_of(s),
{
    let t = trimmed(s);
    let l = ascii_lowered(t);
    lemma_trimmed_ends(s);
    assert forall|i: int| 0 <= i < t.len() implies is_space(#[trigger] l[i]) == is_space(t[i])
        && ascii_lower(l[i]) == l[i] by {
        lemma_lower_char(t[i]);
    }
    if l.len() > 0 {
        assert(l.last() == l[l.len() - 1]);
        assert(t.last() == t[t.len() - 1]);
    }
    lemma_trim_fixed(l);
    assert(ascii_lowered(l) =~= l);
}

/// Every origin let through is non-empty, has no surrounding whitespace, and
/// is a valid header value.
pub proof fn lemma_allowed_origins_clean(pieces: Seq<Seq<char>>)
    ensures
        forall|i: int|
            0 <= i < allowed_origins(pieces).len() ==> {
                let o = #[trigger] allowed_origins(pieces)[i];
                &&& o.len() > 0
                &&& trimmed(o) == o
                &&& header_text_valid(o)
            },
    decreases pieces.len(),
{
    if pieces.len() > 0 {
        lemma_allowed_origins_clean(pieces.drop_last());
        let t = trimmed(pieces.last());
        lemma_trimmed_ends(pieces.last());
        if t.len() > 0 {
            assert(t.last() == t[t.len() - 1]);
        }
        lemma_trim_fixed(t);
        let rest = allowed_origins(pieces.drop_last());
        let all = allowed_origins(pieces);
        assert forall|i: int| 0 <= i < all.len() implies {
            let o = #[trigger] all[i];
            &&& o.len() > 0
            &&& trimmed(o) == o
            &&& header_text_valid(o)
        } by {
            if i < rest.len() {
                assert(all[i] == rest[i]);
            } else {
                assert(all[i] == t);
            }
        }
    }
}

/// Trimming removes exactly the whitespace at both ends: the result is a
/// contiguous part of the text, everything cut off before and after it is
/// whitespace, and the result neither starts nor ends with whitespace.
pub proof fn lemma_trimmed_is_core(s: Seq<char>)
    ensures
        exists|i: int, j: int|
            {
                &&& 0 <= i <= j <= s.len()
                &&& trimmed(s) == s.subrange(i, j)
                &&& forall|k: int| 0 <= k < i ==> is_space(#[trigger] s[k])
                &&& forall|k: int| j <= k < s.len() ==> is_space(#[trigger] s[k])
            },
        trimmed(s).len() > 0 ==> !is_space(trimmed(s)[0]) && !is_space(trimmed(s).last()),
{
    let f = trim_front(s);
    lemma_trim_front_shape(s);
    lemma_trim_back_shape(f);
    lemma_trimmed_ends(s);
    let t = trim_back(f);
    let i = s.len() - f.len();
    let j = i + t.len();
    assert(t =~= s.subrange(i, j));
    assert forall|k: int| j <= k < s.len() implies is_space(#[trigger] s[k]) by {
        assert(s[k] == f[k - i]);
    }
}

/// What a comma-separated list of allowed origins allows, in terms of the
/// text itself: every piece between commas that, once trimmed, is non-empty
/// and a valid header value is allowed, nothing else is, and cross-origin
/// calls stay off exactly when no piece qualifies.
pub proof fn lemma_cors_origin_list_exact(v: Seq<char>)
    ensures
        forall|i: int|
            0 <= i < split_on(v, ',').len() && trimmed(#[trigger] split_on(v, ',')[i]).len() > 0
                && header_text_valid(trimmed(split_on(v, ',')[i])) ==> (cors_origin_list(
                Some(v),
            ) matches Some(o) && o.contains(trimmed(split_on(v, ',')[i]))),
        cors_origin_list(Some(v)) matches Some(o) ==> forall|k: int|
            0 <= k < o.len() ==> exists|i: int|
                0 <= i < split_on(v, ',').len() && #[trigger] o[k] == trimmed(
                    #[trigger] split_on(v, ',')[i],
                ) && o[k].len() > 0 && header_text_valid(o[k]),
        cors_origin_list(None) is None,
{
    lemma_allowed_origins_members(split_on(v, ','));
}

proof fn lemma_allowed_origins_members(p: Seq<Seq<char>>)
    ensures
        forall|i: int|
            0 <= i < p.len() && trimmed(#[trigger] p[i]).len() > 0 && header_text_valid(
                trimmed(p[i]),
            ) ==> allowed_origins(p).contains(trimmed(p[i])),
        forall|k: int|
            0 <= k < allowed_origins(p).len() ==> exists|i: int|
                0 <= i < p.len() && #[trigger] allowed_origins(p)[k] == trimmed(#[trigger] p[i])
                    && allowed_origins(p)[k].len() > 0 && header_text_valid(allowed_origins(p)[k]),
    decreases p.len(),
{
    if p.len() > 0 {
        let d = p.drop_last();
        lemma_allowed_origins_members(d);
        let rest = allowed_origins(d);
        let a = allowed_origins(p);
        let t = trimmed(p.last());
        assert forall|i: int|
            0 <= i < p.len() && trimmed(#[trigger] p[i]).len() > 0 && header_text_valid(
                trimmed(p[i]),
            ) implies a.contains(trimmed(p[i])) by {
            if i < p.len() - 1 {
                assert(p[i] == d[i]);
                let w = choose|w: int| 0 <= w < rest.len() && rest[w] == trimmed(d[i]);
                assert(a[w] == rest[w]);
            } else {
                assert(a[a.len() - 1] == t);
            }
        }
        assert forall|k: int| 0 <= k < a.len() implies exists|i: int|
            0 <= i < p.len() && #[trigger] a[k] == trimmed(#[trigger] p[i]) && a[k].len() > 0
                && header_text_valid(a[k]) by {
            if k < rest.len() {
                assert(a[k] == rest[k]);
                let i = choose|i: int|
                    0 <= i < d.len() && #[trigger] rest[k] == trimmed(#[trigger] d[i])
                        && rest[k].len() > 0 && header_text_valid(rest[k]);
                assert(p[i] == d[i]);
            } else {
                assert(a[k] == t);
                assert(p[p.len() - 1] == p.last());
            }
        }
    }
}

} // verus!
