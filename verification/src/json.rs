//! Serializing a search response back to JSON for the HTTP response body.
//! The emitted text is specified exactly: `search_response_json` says,
//! character for character, what the emitter returns. String values are
//! escaped for the JSON string context; coordinates pass through as the
//! numeric text the model carries.

use vstd::prelude::*;
use crate::model::{LatLong, Listing, SearchResponse, ViewportBox};
use crate::text::{joined, lemma_joined_push, push_char};
use vstd::string::StringExecFns;

verus! {

/// The hexadecimal digit for a value below sixteen.
pub open spec fn hex_digit(n: int) -> char {
    if n == 0 {
        '0'
    } else if n == 1 {
        '1'
    } else if n == 2 {
        '2'
    } else if n == 3 {
        '3'
    } else if n == 4 {
        '4'
    } else if n == 5 {
        '5'
    } else if n == 6 {
        '6'
    } else if n == 7 {
        '7'
    } else if n == 8 {
        '8'
    } else if n == 9 {
        '9'
    } else if n == 10 {
        'a'
    } else if n == 11 {
        'b'
    } else if n == 12 {
        'c'
    } else if n == 13 {
        'd'
    } else if n == 14 {
        'e'
    } else {
        'f'
    }
}

/// How one character is rendered inside a JSON string: quote and backslash
/// get a backslash, the named control characters get their short escapes,
/// the remaining control characters a `\u00..` escape, and everything else
/// passes through.
pub open spec fn json_escaped_char(c: char) -> Seq<char> {
    if c == '"' {
        seq!['\\', '"']
    } else if c == '\\' {
        seq!['\\', '\\']
    } else if c == '\u{8}' {
        seq!['\\', 'b']
    } else if c == '\u{c}' {
        seq!['\\', 'f']
    } else if c == '\n' {
        seq!['\\', 'n']
    } else if c == '\r' {
        seq!['\\', 'r']
    } else if c == '\t' {
        seq!['\\', 't']
    } else if (c as u32) < 32 {
        seq!['\\', 'u', '0', '0', hex_digit((c as u32) as int / 16), hex_digit((c as u32) as int % 16)]
    } else {
        seq![c]
    }
}

/// A whole text rendered inside a JSON string.
pub open spec fn json_escaped(s: Seq<char>) -> Seq<char>
    decreases s.len(),
{
    if s.len() == 0 {
        Seq::empty()
    } else {
        json_escaped_char(s[0]) + json_escaped(s.skip(1))
    }
}

/// A text as a JSON string value.
pub open spec fn json_string(s: Seq<char>) -> Seq<char> {
    seq!['"'] + json_escaped(s) + seq!['"']
}

/// Escaping distributes over concatenation.
pub proof fn lemma_json_escaped_app(a: Seq<char>, b: Seq<char>)
    ensures
        json_escaped(a + b) == json_escaped(a) + json_escaped(b),
    decreases a.len(),
{
    if a.len() == 0 {
        assert(a + b =~= b);
        assert(json_escaped(a) + json_escaped(b) =~= json_escaped(b));
    } else {
        assert((a + b).skip(1) =~= a.skip(1) + b);
        lemma_json_escaped_app(a.skip(1), b);
        assert(json_escaped(a + b) =~= json_escaped(a) + json_escaped(b));
    }
}

proof fn lemma_json_escaped_snoc(s: Seq<char>, i: int)
    requires
        0 <= i < s.len(),
    ensures
        json_escaped(s.take(i + 1)) == json_escaped(s.take(i)) + json_escaped_char(s[i]),
{
    assert(s.take(i + 1) =~= s.take(i) + seq![s[i]]);
    lemma_json_escaped_app(s.take(i), seq![s[i]]);
    let one = seq![s[i]];
    assert(one.skip(1) =~= Seq::<char>::empty());
    assert(json_escaped(Seq::<char>::empty()) == Seq::<char>::empty());
    assert(json_escaped(one) == json_escaped_char(one[0]) + json_escaped(one.skip(1)));
    assert(json_escaped(one) =~= json_escaped_char(s[i]));
}

fn hex_digit_char(n: u32) -> (r: char)
    requires
        n < 16,
    ensures
        r == hex_digit(n as int),
{
    if n == 0 {
        '0'
    } else if n == 1 {
        '1'
    } else if n == 2 {
        '2'
    } else if n == 3 {
        '3'
    } else if n == 4 {
        '4'
    } else if n == 5 {
        '5'
    } else if n == 6 {
        '6'
    } else if n == 7 {
        '7'
    } else if n == 8 {
        '8'
    } else if n == 9 {
        '9'
    } else if n == 10 {
        'a'
    } else if n == 11 {
        'b'
    } else if n == 12 {
        'c'
    } else if n == 13 {
        'd'
    } else if n == 14 {
        'e'
    } else {
        'f'
    }
}

/// Appends `s` as a JSON string value, quotes around and escaped inside.
fn append_json_string(out: &mut String, s: &str)
    ensures
        final(out)@ == old(out)@ + json_string(s@),
{
    push_char(out, '"');
    let n = s.unicode_len();
    let mut i: usize = 0;
    while i < n
        invariant
            n == s@.len(),
            i <= n,
            out@ == old(out)@ + seq!['"'] + json_escaped(s@.take(i as int)),
        decreases n - i,
    {
        let c = s.get_char(i);
        if c == '"' {
            push_char(out, '\\');
            push_char(out, '"');
        } else if c == '\\' {
            push_char(out, '\\');
            push_char(out, '\\');
        } else if c == '\u{8}' {
            push_char(out, '\\');
            push_char(out, 'b');
        } else if c == '\u{c}' {
            push_char(out, '\\');
            push_char(out, 'f');
        } else if c == '\n' {
            push_char(out, '\\');
            push_char(out, 'n');
        } else if c == '\r' {
            push_char(out, '\\');
            push_char(out, 'r');
        } else if c == '\t' {
            push_char(out, '\\');
            push_char(out, 't');
        } else if (c as u32) < 32 {
            push_char(out, '\\');
            push_char(out, 'u');
            push_char(out, '0');
            push_char(out, '0');
            let hi = hex_digit_char((c as u32) / 16);
            push_char(out, hi);
            let lo = hex_digit_char((c as u32) % 16);
            push_char(out, lo);
        } else {
            push_char(out, c);
        }
        proof {
            lemma_json_escaped_snoc(s@, i as int);
            assert(out@ =~= old(out)@ + seq!['"'] + json_escaped(s@.take(i as int + 1)));
        }
        i = i + 1;
    }
    push_char(out, '"');
    proof {
        assert(s@.take(n as int) =~= s@);
        assert(out@ =~= old(out)@ + json_string(s@));
    }
}

/// A coordinate pair as a JSON object, the numeric text unquoted.
pub open spec fn latlong_json(p: LatLong) -> Seq<char> {
    "{\"lat\":"@ + p.latitude@ + ",\"lng\":"@ + p.longitude@ + seq!['}']
}

/// A viewport as a JSON object of its two corners.
pub open spec fn viewport_json(v: ViewportBox) -> Seq<char> {
    "{\"northeast\":"@ + latlong_json(v.northeast) + ",\"southwest\":"@ + latlong_json(
        v.southwest,
    ) + seq!['}']
}

/// A listing's geometry: its location and its viewport.
pub open spec fn geometry_json(l: Listing) -> Seq<char> {
    "{\"location\":"@ + latlong_json(l.location) + ",\"viewport\":"@ + viewport_json(l.viewport)
        + seq!['}']
}

/// The type names as a JSON array of strings.
pub open spec fn types_json(ts: Seq<Seq<char>>) -> Seq<char> {
    seq!['['] + joined(seq![','], ts.map_values(|t: Seq<char>| json_string(t))) + seq![']']
}

/// One listing as a JSON object, fields in the upstream shape.
pub open spec fn listing_json(l: Listing) -> Seq<char> {
    "{\"business_status\":"@ + json_string(l.business_status@) + ",\"geometry\":"@ + geometry_json(
        l,
    ) + ",\"name\":"@ + json_string(l.name@) + ",\"place_id\":"@ + json_string(l.place_id@)
        + ",\"reference\":"@ + json_string(l.reference@) + ",\"types\":"@ + types_json(
        l.types.deep_view(),
    ) + ",\"vicinity\":"@ + json_string(l.vicinity@) + seq!['}']
}

/// The whole response as a JSON object: the paging token and the listings.
pub open spec fn search_response_json(r: SearchResponse) -> Seq<char> {
    "{\"next_page_token\":"@ + json_string(r.next_page_token@) + ",\"results\":["@ + joined(
        seq![','],
        r.results@.map_values(|l: Listing| listing_json(l)),
    ) + "]}"@
}

fn append_latlong(out: &mut String, p: &LatLong)
    ensures
        final(out)@ == old(out)@ + latlong_json(*p),
{
    out.append("{\"lat\":");
    out.append(p.latitude.as_str());
    out.append(",\"lng\":");
    out.append(p.longitude.as_str());
    push_char(out, '}');
    proof {
        assert(out@ =~= old(out)@ + latlong_json(*p));
    }
}

fn append_viewport(out: &mut String, v: &ViewportBox)
    ensures
        final(out)@ == old(out)@ + viewport_json(*v),
{
    out.append("{\"northeast\":");
    append_latlong(out, &v.northeast);
    out.append(",\"southwest\":");
    append_latlong(out, &v.southwest);
    push_char(out, '}');
    proof {
        assert(out@ =~= old(out)@ + viewport_json(*v));
    }
}

fn append_types_json(out: &mut String, types: &Vec<String>)
    ensures
        final(out)@ == old(out)@ + types_json(types.deep_view()),
{
    push_char(out, '[');
    let n = types.len();
    let mut i: usize = 0;
    while i < n
        invariant
            n == types@.len(),
            i <= n,
            out@ == old(out)@ + seq!['['] + joined(
                seq![','],
                types.deep_view().take(i as int).map_values(|t: Seq<char>| json_string(t)),
            ),
        decreases n - i,
    {
        if i > 0 {
            push_char(out, ',');
        }
        append_json_string(out, types[i].as_str());
        proof {
            let tv = types.deep_view();
            let prev = tv.take(i as int).map_values(|t: Seq<char>| json_string(t));
            lemma_joined_push(seq![','], prev, json_string(tv[i as int]));
            assert(prev.push(json_string(tv[i as int])) =~= tv.take(i as int + 1).map_values(
                |t: Seq<char>| json_string(t),
            ));
            assert(tv[i as int] == types@[i as int]@);
            assert(out@ =~= old(out)@ + seq!['['] + joined(
                seq![','],
                tv.take(i as int + 1).map_values(|t: Seq<char>| json_string(t)),
            ));
        }
        i = i + 1;
    }
    push_char(out, ']');
    proof {
        assert(types.deep_view().take(n as int) =~= types.deep_view());
        assert(out@ =~= old(out)@ + types_json(types.deep_view()));
    }
}

#[verifier::rlimit(60)]
fn append_listing(out: &mut String, l: &Listing)
    ensures
        final(out)@ == old(out)@ + listing_json(*l),
{
    out.append("{\"business_status\":");
    append_json_string(out, l.business_status.as_str());
    out.append(",\"geometry\":");
    out.append("{\"location\":");
    append_latlong(out, &l.location);
    out.append(",\"viewport\":");
    append_viewport(out, &l.viewport);
    push_char(out, '}');
    out.append(",\"name\":");
    append_json_string(out, l.name.as_str());
    out.append(",\"place_id\":");
    append_json_string(out, l.place_id.as_str());
    out.append(",\"reference\":");
    append_json_string(out, l.reference.as_str());
    out.append(",\"types\":");
    append_types_json(out, &l.types);
    out.append(",\"vicinity\":");
    append_json_string(out, l.vicinity.as_str());
    push_char(out, '}');
    proof {
        assert(out@ =~= old(out)@ + listing_json(*l));
    }
}

/// Serializes the response for the HTTP body, exactly as
/// `search_response_json` states.
pub fn emit_search_response(resp: &SearchResponse) -> (r: String)
    ensures
        r@ == search_response_json(*resp),
{
    let mut out = String::from_str("{\"next_page_token\":");
    append_json_string(&mut out, resp.next_page_token.as_str());
    out.append(",\"results\":[");
    let n = resp.results.len();
    let mut i: usize = 0;
    while i < n
        invariant
            n == resp.results@.len(),
            i <= n,
            out@ == "{\"next_page_token\":"@ + json_string(resp.next_page_token@)
                + ",\"results\":["@ + joined(
                seq![','],
                resp.results@.take(i as int).map_values(|l: Listing| listing_json(l)),
            ),
        decreases n - i,
    {
        if i > 0 {
            push_char(&mut out, ',');
        }
        append_listing(&mut out, &resp.results[i]);
        proof {
            let rv = resp.results@;
            let prev = rv.take(i as int).map_values(|l: Listing| listing_json(l));
            lemma_joined_push(seq![','], prev, listing_json(rv[i as int]));
            assert(prev.push(listing_json(rv[i as int])) =~= rv.take(i as int + 1).map_values(
                |l: Listing| listing_json(l),
            ));
            assert(out@ =~= "{\"next_page_token\":"@ + json_string(resp.next_page_token@)
                + ",\"results\":["@ + joined(
                seq![','],
                rv.take(i as int + 1).map_values(|l: Listing| listing_json(l)),
            ));
        }
        i = i + 1;
    }
    out.append("]}");
    proof {
        assert(resp.results@.take(n as int) =~= resp.results@);
        assert(out@ =~= search_response_json(*resp));
    }
    out
}

} // verus!
