//! Helpers of the settings editor that work on configuration text.
use vstd::prelude::*;
use crate::text::{
    chars_of, find, find_exec, join_chars, join_with, push_str, slice, string_from, trim,
    trim_chars, trim_start,
};
use crate::theme::{fields, parse_color, split_fields};

verus! {

/// A section of the bar.
#[derive(Debug, Clone, Copy, PartialEq, Eq, Structural)]
pub enum Side {
    Left,
    Center,
    Right,
}

impl Side {
    /// Position of the section, left to right.
    pub fn index(self) -> (r: usize)
        ensures
            r == match self {
                Side::Left => 0usize,
                Side::Center => 1usize,
                Side::Right => 2usize,
            },
    {
        match self {
            Side::Left => 0,
            Side::Center => 1,
            Side::Right => 2,
        }
    }
}

impl Side {
    /// The widget list of this section.
    pub fn widgets(self, cfg: &crate::config::BarConfig) -> (r: &Vec<crate::config::WidgetConfig>)
        ensures
            *r == match self {
                Side::Left => cfg.left,
                Side::Center => cfg.center,
                Side::Right => cfg.right,
            },
    {
        match self {
            Side::Left => &cfg.left,
            Side::Center => &cfg.center,
            Side::Right => &cfg.right,
        }
    }
}

/// Whether a colour text denotes a colour (`#RRGGBB` or `#RRGGBBAA`).
pub fn is_valid_hex(s: &str) -> (r: bool)
    ensures
        r == parse_color(s@) is Some,
{
    crate::theme::Color::from_hex(s).is_some()
}

fn trim_start_chars(v: &Vec<char>) -> (r: Vec<char>)
    ensures
        r@ == trim_start(v@),
{
    let n = v.len();
    let mut lo: usize = 0;
    assert(v@.subrange(0, n as int) =~= v@);
    while lo < n && crate::text::is_ws_char(v[lo])
        invariant
            lo <= n,
            n == v@.len(),
            trim_start(v@) == trim_start(v@.subrange(lo as int, n as int)),
        decreases n - lo,
    {
        assert(v@.subrange(lo as int, n as int).drop_first() =~= v@.subrange(lo + 1, n as int));
        lo += 1;
    }
    slice(v, lo, n)
}

/// What follows the first `"key"` in `json`: after white space, a colon,
/// white space and a quote, the text up to the next quote.
pub open spec fn json_string_after(json: Seq<char>, key: Seq<char>) -> Option<Seq<char>> {
    let needle = "\""@ + key + "\""@;
    match find(json, needle) {
        None => None,
        Some(i) => {
            let a = trim_start(json.subrange(i + needle.len(), json.len() as int));
            if a.len() == 0 || a[0] != ':' {
                None
            } else {
                let b = trim_start(a.drop_first());
                if b.len() == 0 || b[0] != '"' {
                    None
                } else {
                    let c = b.drop_first();
                    match find(c, "\""@) {
                        None => None,
                        Some(e) => Some(c.subrange(0, e)),
                    }
                }
            }
        },
    }
}

/// Naive key lookup in a JSON text: the first `"key": "value"` pair's value.
pub fn extract_json_string(json: &str, key: &str) -> (r: Option<String>)
    ensures
        match json_string_after(json@, key@) {
            Some(v) => r matches Some(s) && s@ == v,
            None => r is None,
        },
{
    let v = chars_of(json);
    let mut needle: Vec<char> = Vec::new();
    push_str(&mut needle, "\"");
    push_str(&mut needle, key);
    push_str(&mut needle, "\"");
    assert(needle@ =~= "\""@ + key@ + "\""@);
    let i = match find_exec(&v, &needle) {
        Some(i) => i,
        None => return None,
    };
    proof {
        let k = choose|k: int| crate::text::first_at(v@, needle@, k);
        assert(crate::text::first_at(v@, needle@, k));
        assert(crate::text::occurs_at(v@, needle@, i as int));
    }
    let n = v.len();
    let start = i + needle.len();
    let a = trim_start_chars(&slice(&v, start, n));
    if a.len() == 0 || a[0] != ':' {
        return None;
    }
    let b = trim_start_chars(&slice(&a, 1, a.len()));
    assert(a@.subrange(1, a@.len() as int) =~= a@.drop_first());
    if b.len() == 0 || b[0] != '"' {
        return None;
    }
    let c = slice(&b, 1, b.len());
    assert(c@ =~= b@.drop_first());
    let quote = chars_of("\"");
    match find_exec(&c, &quote) {
        Some(e) => {
            proof {
                let k = choose|k: int| crate::text::first_at(c@, quote@, k);
                assert(crate::text::first_at(c@, quote@, k));
                assert(crate::text::occurs_at(c@, quote@, e as int));
            }
            Some(string_from(&slice(&c, 0, e)))
        },
        None => None,
    }
}

/// The non-empty trimmed comma-separated entries of `s`, in order.
pub open spec fn entries(s: Seq<char>) -> Seq<Seq<char>> {
    fields(s).map_values(|f: Seq<char>| trim(f)).filter(|t: Seq<char>| t.len() > 0)
}

/// The entry list with `token` removed, then added at the end if `enable`.
pub open spec fn toggled(s: Seq<char>, token: Seq<char>, enable: bool) -> Seq<Seq<char>> {
    let kept = entries(s).filter(|t: Seq<char>| t != token);
    if enable {
        kept.push(token)
    } else {
        kept
    }
}

/// Add or remove one entry of a comma-separated list without touching the
/// others; the list is written back trimmed, without empty entries.
pub fn toggle_network_show(field: &mut String, token: &str, enable: bool)
    ensures
        final(field)@ == join_with(toggled(old(field)@, token@, enable), ","@),
{
    let v = chars_of(field.as_str());
    let fs = split_fields(&v);
    let ghost tr = fields(v@).map_values(|f: Seq<char>| trim(f));
    let mut parts: Vec<Vec<char>> = Vec::new();
    let mut i: usize = 0;
    while i < fs.len()
        invariant
            i <= fs@.len(),
            fs@.len() == fields(v@).len(),
            tr == fields(v@).map_values(|f: Seq<char>| trim(f)),
            forall|k: int| 0 <= k < fs@.len() ==> (#[trigger] fs@[k])@ == fields(v@)[k],
            parts@.map_values(|p: Vec<char>| p@) == tr.subrange(0, i as int).filter(
                |t: Seq<char>| t.len() > 0,
            ).filter(|t: Seq<char>| t != token@),
        decreases fs@.len() - i,
    {
        let t = trim_chars(&fs[i]);
        let ghost pre = tr.subrange(0, i as int);
        let ghost next = tr.subrange(0, i + 1);
        assert(next.drop_last() =~= pre);
        assert(next.last() == t@);
        proof {
            reveal(Seq::filter);
            let kept_now = next.filter(|t: Seq<char>| t.len() > 0);
            let kept_before = pre.filter(|t: Seq<char>| t.len() > 0);
            if t@.len() > 0 {
                assert(kept_now == kept_before.push(t@));
                assert(kept_now.drop_last() == kept_before);
            } else {
                assert(kept_now == kept_before);
            }
        }
        if t.len() > 0 && !crate::text::eq_str(&t, token) {
            let ghost before = parts@.map_values(|p: Vec<char>| p@);
            parts.push(t);
            assert(parts@.map_values(|p: Vec<char>| p@) =~= before.push(next.last()));
        }
        i += 1;
    }
    assert(tr.subrange(0, fs@.len() as int) =~= tr);
    if enable {
        let ghost before = parts@.map_values(|p: Vec<char>| p@);
        parts.push(chars_of(token));
        assert(parts@.map_values(|p: Vec<char>| p@) =~= before.push(token@));
    }
    let joined = join_chars(&parts, ",");
    *field = string_from(&joined);
}

} // verus!
