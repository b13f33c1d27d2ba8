//! Reading the release metadata that the activator downloads: a string
//! value by key, and the download URL of a named asset. This is a light
//! scan of the JSON text, not a JSON parser: a key is a quoted name that is
//! followed by a colon, a value is read up to the next quote, and asset
//! objects are delimited by the next `{` and `}`.

use vstd::prelude::*;
use crate::text::{chars_of, find, find_in, is_white_space, skip_white_space, string_of, trim_start};

verus! {

/// `key` in double quotes, as it is searched for in the text.
pub open spec fn key_needle(key: Seq<char>) -> Seq<char> {
    seq!['"'] + key + seq!['"']
}

/// The string value that starts a text after a colon: optional whitespace, `"`,
/// then everything up to the next `"`.
pub open spec fn string_after_colon(s: Seq<char>) -> Option<Seq<char>> {
    let after_colon = trim_start(s);
    if after_colon.len() > 0 && after_colon[0] == '"' {
        let inner = after_colon.drop_first();
        match find(inner, seq!['"']) {
            None => None,
            Some(end) => Some(inner.take(end)),
        }
    } else {
        None
    }
}

/// From index `pos` on, the first `"key"` that optional whitespace and a `:` follow
/// gives the string value after that colon; occurrences of `"key"` without a colon
/// after them (such as a value that reads like the key) are passed over.
pub open spec fn key_value_from(json: Seq<char>, key: Seq<char>, pos: int) -> Option<Seq<char>>
    decreases json.len() - pos,
{
    if pos < 0 || pos > json.len() {
        None
    } else {
        match find(json.skip(pos), key_needle(key)) {
            None => None,
            Some(o) => {
                let idx = pos + o;
                let after_key = trim_start(json.skip(idx + key_needle(key).len()));
                if after_key.len() > 0 && after_key[0] == ':' {
                    string_after_colon(after_key.drop_first())
                } else {
                    proof {
                        crate::text::lemma_find_from_found(json.skip(pos), key_needle(key), 0);
                    }
                    key_value_from(json, key, idx + 1)
                }
            },
        }
    }
}

/// The string value of `key` in `json`: the value after the first `"key"` that a
/// colon follows.
pub open spec fn spec_json_str_value(json: Seq<char>, key: Seq<char>) -> Option<Seq<char>> {
    key_value_from(json, key, 0)
}

/// Scans the asset objects of `arr` from `pos` on: each runs from the next `{` to the
/// `}` after it; the first whose `name` is `target` gives its `browser_download_url`.
pub open spec fn scan_assets(arr: Seq<char>, target: Seq<char>, pos: int) -> Option<Seq<char>>
    decreases arr.len() - pos,
{
    if pos < 0 || pos > arr.len() {
        None
    } else {
        match find(arr.skip(pos), seq!['{']) {
            None => None,
            Some(o) => {
                let start = pos + o;
                match find(arr.skip(start), seq!['}']) {
                    None => None,
                    Some(e) => {
                        let end = start + e;
                        let obj = arr.subrange(start, end + 1);
                        if spec_json_str_value(obj, "name"@) == Some(target) {
                            spec_json_str_value(obj, "browser_download_url"@)
                        } else {
                            proof {
                                crate::text::lemma_find_from_found(arr.skip(pos), seq!['{'], 0);
                                crate::text::lemma_find_from_found(arr.skip(start), seq!['}'], 0);
                            }
                            scan_assets(arr, target, end + 1)
                        }
                    },
                }
            },
        }
    }
}

/// The download URL of the asset named `target` in a release's `"assets": [...]` array.
pub open spec fn spec_find_asset_url(json: Seq<char>, target: Seq<char>) -> Option<Seq<char>> {
    match find(json, "\"assets\""@) {
        None => None,
        Some(a) => match find(json.skip(a), seq!['[']) {
            None => None,
            Some(b) => {
                let arr_start = a + b;
                match find(json.skip(arr_start), seq![']']) {
                    None => None,
                    Some(c) => {
                        let arr_end = arr_start + c;
                        scan_assets(json.subrange(arr_start, arr_end + 1), target, 0)
                    },
                }
            },
        },
    }
}

/// The string after a colon holds no double quote and stands in the text.
proof fn lemma_value_after_colon(s: Seq<char>)
    ensures
        string_after_colon(s) matches Some(v) ==> !v.contains('"') && exists|i: int|
            0 <= i && i + v.len() <= s.len() && #[trigger] s.subrange(i, i + v.len()) == v,
{
    if let Some(v) = string_after_colon(s) {
        let after_colon = trim_start(s);
        let inner = after_colon.drop_first();
        let end = find(inner, seq!['"']).unwrap();
        crate::text::lemma_find_from_found(inner, seq!['"'], 0);
        assert(v == inner.take(end));
        assert forall|m: int| 0 <= m < v.len() implies v[m] != '"' by {
            assert(!crate::text::occurs_at(inner, seq!['"'], m));
            if v[m] == '"' {
                assert(inner.subrange(m, m + 1) =~= seq!['"']);
            }
        }
        let start = s.len() - inner.len();
        lemma_trim_start_suffix(s);
        assert(s.subrange(start, start + v.len()) =~= v);
    }
}

proof fn lemma_key_value_from(json: Seq<char>, key: Seq<char>, pos: int)
    ensures
        key_value_from(json, key, pos) matches Some(v) ==> !v.contains('"') && exists|i: int|
            0 <= i && i + v.len() <= json.len() && #[trigger] json.subrange(i, i + v.len()) == v,
    decreases json.len() - pos,
{
    if 0 <= pos <= json.len() {
        let needle = key_needle(key);
        if let Some(o) = find(json.skip(pos), needle) {
            crate::text::lemma_find_from_found(json.skip(pos), needle, 0);
            let idx = pos + o;
            let rest = json.skip(idx + needle.len());
            let after_key = trim_start(rest);
            if after_key.len() > 0 && after_key[0] == ':' {
                if let Some(v) = key_value_from(json, key, pos) {
                    let s = after_key.drop_first();
                    lemma_value_after_colon(s);
                    lemma_trim_start_suffix(rest);
                    let c = json.len() - s.len();
                    assert(s =~= json.skip(c));
                    let i = choose|i: int|
                        0 <= i && i + v.len() <= s.len() && #[trigger] s.subrange(i, i + v.len())
                            == v;
                    assert(json.subrange(c + i, c + i + v.len()) =~= s.subrange(i, i + v.len()));
                }
            } else {
                lemma_key_value_from(json, key, idx + 1);
            }
        }
    }
}

/// A value read by key never holds a double quote, and it stands in the text.
pub proof fn law_json_value_is_quote_free(json: Seq<char>, key: Seq<char>)
    ensures
        spec_json_str_value(json, key) matches Some(v) ==> !v.contains('"') && exists|i: int|
            0 <= i && i + v.len() <= json.len() && #[trigger] json.subrange(i, i + v.len()) == v,
{
    lemma_key_value_from(json, key, 0);
}

/// Leading whitespace before the rest of a text is all that `trim_start` drops.
proof fn lemma_trim_start_white_prefix(w: Seq<char>, rest: Seq<char>)
    requires
        forall|i: int| 0 <= i < w.len() ==> is_white_space(#[trigger] w[i]),
    ensures
        trim_start(w + rest) == trim_start(rest),
    decreases w.len(),
{
    if w.len() == 0 {
        assert(w + rest =~= rest);
    } else {
        assert((w + rest).drop_first() =~= w.drop_first() + rest);
        lemma_trim_start_white_prefix(w.drop_first(), rest);
    }
}

/// A key and a value written as `{"key" : "value"}`, with any whitespace around
/// the colon, are read back: the value of `key` is `value`, for a key and a value
/// without double quotes.
pub proof fn law_json_reads_written_pair(key: Seq<char>, value: Seq<char>, w1: Seq<char>, w2: Seq<char>)
    requires
        !key.contains('"'),
        !value.contains('"'),
        forall|i: int| 0 <= i < w1.len() ==> is_white_space(#[trigger] w1[i]),
        forall|i: int| 0 <= i < w2.len() ==> is_white_space(#[trigger] w2[i]),
    ensures
        spec_json_str_value(
            seq!['{', '"'] + key + seq!['"'] + w1 + seq![':'] + w2 + seq!['"'] + value + seq![
                '"',
                '}',
            ],
            key,
        ) == Some(value),
{
    let tail = seq!['"'] + value + seq!['"', '}'];
    let after_colon = w2 + tail;
    let after_key = seq![':'] + after_colon;
    let json = seq!['{', '"'] + key + seq!['"'] + w1 + after_key;
    assert(json =~= seq!['{', '"'] + key + seq!['"'] + w1 + seq![':'] + w2 + seq!['"'] + value
        + seq!['"', '}']);
    let needle = key_needle(key);
    assert(json.skip(0) =~= json);
    assert(!crate::text::occurs_at(json, needle, 0)) by {
        if crate::text::occurs_at(json, needle, 0) {
            assert(json.subrange(0, needle.len() as int)[0] == needle[0]);
        }
    }
    assert(json.subrange(1, 1 + needle.len() as int) =~= needle);
    crate::text::lemma_find_from_skip(json, needle, 0, 1);
    assert(find(json, needle) == Some(1int));
    assert(json.skip(1 + needle.len() as int) =~= w1 + after_key);
    lemma_trim_start_white_prefix(w1, after_key);
    assert(trim_start(after_key) == after_key);
    assert(after_key.drop_first() =~= after_colon);
    lemma_trim_start_white_prefix(w2, tail);
    assert(trim_start(tail) == tail);
    let inner = value + seq!['"', '}'];
    assert(tail.drop_first() =~= inner);
    let q = seq!['"'];
    assert forall|k: int| 0 <= k < value.len() implies !crate::text::occurs_at(inner, q, k) by {
        if crate::text::occurs_at(inner, q, k) {
            assert(inner.subrange(k, k + 1)[0] == inner[k]);
            assert(value[k] == '"');
        }
    }
    assert(inner.subrange(value.len() as int, value.len() + 1int) =~= q);
    crate::text::lemma_find_from_skip(inner, q, 0, value.len() as int);
    assert(find(inner, q) == Some(value.len() as int));
    assert(inner.take(value.len() as int) =~= value);
}

/// `trim_start` drops a prefix: what remains is the end of the text.
proof fn lemma_trim_start_suffix(s: Seq<char>)
    ensures
        trim_start(s).len() <= s.len(),
        trim_start(s) == s.skip(s.len() - trim_start(s).len()),
    decreases s.len(),
{
    if s.len() > 0 && crate::text::is_white_space(s[0]) {
        lemma_trim_start_suffix(s.drop_first());
        assert(s.drop_first().skip(s.drop_first().len() - trim_start(s).len()) =~= s.skip(
            s.len() - trim_start(s).len(),
        ));
    } else {
        assert(s.skip(0) =~= s);
    }
}

proof fn lemma_found_bounds(s: Seq<char>, pat: Seq<char>)
    ensures
        find(s, pat) matches Some(k) ==> 0 <= k && k + pat.len() <= s.len() && s.subrange(
            k,
            k + pat.len(),
        ) == pat,
{
    crate::text::lemma_find_from_found(s, pat, 0);
}

/// Finds `pat` in `v[lo..hi]`, stated over that window.
fn find_window(v: &Vec<char>, lo: usize, hi: usize, pat: &Vec<char>) -> (r: Option<usize>)
    requires
        lo <= hi <= v.len(),
    ensures
        r matches Some(k) ==> lo <= k && k + pat@.len() <= hi && find(
            v@.subrange(lo as int, hi as int),
            pat@,
        ) == Some(k - lo),
        r is None ==> find(v@.subrange(lo as int, hi as int), pat@) is None,
{
    let r = find_in(v, lo, hi, pat);
    proof {
        lemma_found_bounds(v@.subrange(lo as int, hi as int), pat@);
    }
    r
}

/// Bounds in `v` of `string_after_colon(v[lo..hi])`.
fn string_value_in(v: &Vec<char>, lo: usize, hi: usize) -> (r: Option<(usize, usize)>)
    requires
        lo <= hi <= v.len(),
    ensures
        r matches Some(b) ==> lo <= b.0 <= b.1 <= hi && string_after_colon(
            v@.subrange(lo as int, hi as int),
        ) == Some(v@.subrange(b.0 as int, b.1 as int)),
        r is None ==> string_after_colon(v@.subrange(lo as int, hi as int)) is None,
{
    let b = skip_white_space(v, lo, hi);
    if !(b < hi && v[b] == '"') {
        return None;
    }
    assert(v@.subrange(b as int, hi as int).drop_first() =~= v@.subrange(b + 1, hi as int));
    let quote: Vec<char> = vec!['"'];
    assert(quote@ =~= seq!['"']);
    match find_window(v, b + 1, hi, &quote) {
        None => None,
        Some(e) => {
            assert(v@.subrange(b + 1, hi as int).take(e - (b + 1)) =~= v@.subrange(
                b + 1,
                e as int,
            ));
            Some((b + 1, e))
        },
    }
}

/// Bounds in `v` of `spec_json_str_value(v[lo..hi], key)`.
pub fn json_str_value_in(v: &Vec<char>, lo: usize, hi: usize, key: &Vec<char>) -> (r: Option<
    (usize, usize),
>)
    requires
        lo <= hi <= v.len(),
    ensures
        r matches Some(b) ==> lo <= b.0 <= b.1 <= hi && spec_json_str_value(
            v@.subrange(lo as int, hi as int),
            key@,
        ) == Some(v@.subrange(b.0 as int, b.1 as int)),
        r is None ==> spec_json_str_value(v@.subrange(lo as int, hi as int), key@) is None,
{
    let ghost w = v@.subrange(lo as int, hi as int);
    let mut needle: Vec<char> = Vec::new();
    needle.push('"');
    crate::text::push_all(&mut needle, key);
    needle.push('"');
    assert(needle@ =~= key_needle(key@));
    let mut pos = lo;
    while pos <= hi
        invariant
            lo <= pos <= hi <= v.len(),
            w == v@.subrange(lo as int, hi as int),
            needle@ == key_needle(key@),
            spec_json_str_value(w, key@) == key_value_from(w, key@, pos - lo),
        decreases hi - pos,
    {
        assert(w.skip(pos - lo) =~= v@.subrange(pos as int, hi as int));
        let idx = match find_window(v, pos, hi, &needle) {
            None => return None,
            Some(k) => k,
        };
        let k1 = idx + needle.len();
        assert(w.skip(k1 - lo) =~= v@.subrange(k1 as int, hi as int));
        let a = skip_white_space(v, k1, hi);
        if a < hi && v[a] == ':' {
            assert(v@.subrange(a as int, hi as int).drop_first() =~= v@.subrange(
                a + 1,
                hi as int,
            ));
            return string_value_in(v, a + 1, hi);
        }
        pos = idx + 1;
    }
    None
}

/// The string value of `key` in `json` (see `spec_json_str_value`).
pub fn json_str_value(json: &str, key: &str) -> (r: Option<String>)
    ensures
        r matches Some(s) ==> spec_json_str_value(json@, key@) == Some(s@),
        r is None ==> spec_json_str_value(json@, key@) is None,
{
    let v = chars_of(json);
    let k = chars_of(key);
    assert(v@.subrange(0, v@.len() as int) =~= v@);
    match json_str_value_in(&v, 0, v.len(), &k) {
        None => None,
        Some((a, b)) => {
            let mut out: Vec<char> = Vec::new();
            crate::text::push_range(&mut out, &v, a, b);
            assert(out@ =~= v@.subrange(a as int, b as int));
            Some(string_of(&out))
        },
    }
}

/// The `browser_download_url` of the asset named `target` (see `spec_find_asset_url`).
pub fn find_asset_url(json: &str, target: &str) -> (r: Option<String>)
    ensures
        r matches Some(s) ==> spec_find_asset_url(json@, target@) == Some(s@),
        r is None ==> spec_find_asset_url(json@, target@) is None,
{
    let v = chars_of(json);
    let t = chars_of(target);
    let n = v.len();
    assert(v@.subrange(0, n as int) =~= v@);
    let assets = chars_of("\"assets\"");
    let a = match find_window(&v, 0, n, &assets) {
        None => return None,
        Some(a) => a,
    };
    let open: Vec<char> = vec!['['];
    assert(open@ =~= seq!['[']);
    assert(v@.skip(a as int) =~= v@.subrange(a as int, n as int));
    let arr_start = match find_window(&v, a, n, &open) {
        None => return None,
        Some(b) => b,
    };
    let close: Vec<char> = vec![']'];
    assert(close@ =~= seq![']']);
    assert(v@.skip(arr_start as int) =~= v@.subrange(arr_start as int, n as int));
    let arr_end = match find_window(&v, arr_start, n, &close) {
        None => return None,
        Some(c) => c,
    };
    let lo = arr_start;
    let hi = arr_end + 1;
    let ghost arr = v@.subrange(lo as int, hi as int);
    let name_key = chars_of("name");
    let url_key = chars_of("browser_download_url");
    let obj_open: Vec<char> = vec!['{'];
    assert(obj_open@ =~= seq!['{']);
    let obj_close: Vec<char> = vec!['}'];
    assert(obj_close@ =~= seq!['}']);
    let mut pos = lo;
    while pos <= hi
        invariant
            lo <= pos <= hi + 1,
            hi <= n == v.len(),
            lo <= hi,
            arr == v@.subrange(lo as int, hi as int),
            v@ == json@,
            t@ == target@,
            spec_find_asset_url(v@, t@) == scan_assets(arr, t@, pos - lo),
            name_key@ == "name"@,
            url_key@ == "browser_download_url"@,
            obj_open@ == seq!['{'],
            obj_close@ == seq!['}'],
        decreases hi + 1 - pos,
    {
        assert(arr.skip(pos - lo) =~= v@.subrange(pos as int, hi as int));
        let start = match find_window(&v, pos, hi, &obj_open) {
            None => return None,
            Some(s) => s,
        };
        assert(arr.skip(start - lo) =~= v@.subrange(start as int, hi as int));
        let end = match find_window(&v, start, hi, &obj_close) {
            None => return None,
            Some(e) => e,
        };
        assert(arr.subrange(start - lo, end + 1 - lo) =~= v@.subrange(start as int, end + 1));
        match json_str_value_in(&v, start, end + 1, &name_key) {
            Some((x, y)) => {
                if crate::text::window_eq(&v, x, y, &t) {
                    return match json_str_value_in(&v, start, end + 1, &url_key) {
                        None => None,
                        Some((p, q)) => {
                            let mut out: Vec<char> = Vec::new();
                            crate::text::push_range(&mut out, &v, p, q);
                            assert(out@ =~= v@.subrange(p as int, q as int));
                            Some(string_of(&out))
                        },
                    };
                }
            },
            None => {},
        }
        pos = end + 1;
    }
    None
}

} // verus!
