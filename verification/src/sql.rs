//! The bulk upsert builder: from a list of listings to one multi-row
//! `INSERT ... ON CONFLICT DO NOTHING` statement, or to nothing when there
//! is nothing to insert. The statement's text is specified exactly:
//! `insert_statement` below says, character for character, what the builder
//! returns.

use vstd::prelude::*;
use crate::model::Listing;
use crate::text::{
    sq_escaped,
    sq_unescaped,
    dq_escaped,
    dq_unescaped,
    escape_single_quotes,
    escape_double_quotes,
    push_char,
    joined,
    lemma_joined_push,
    lemma_sq_round_trip,
    lemma_dq_round_trip,
};
use vstd::string::StringExecFns;

verus! {

/// A text as a single-quoted SQL string literal: quotes doubled inside,
/// quotes around.
pub open spec fn sq_quoted(s: Seq<char>) -> Seq<char> {
    seq!['\''] + sq_escaped(s) + seq!['\'']
}

/// A text as a double-quoted array element: backslash-escaped inside,
/// double quotes around.
pub open spec fn dq_quoted(s: Seq<char>) -> Seq<char> {
    seq!['"'] + dq_escaped(s) + seq!['"']
}

/// Each type name as a double-quoted element.
pub open spec fn dq_quoted_all(ts: Seq<Seq<char>>) -> Seq<Seq<char>> {
    ts.map_values(|t: Seq<char>| dq_quoted(t))
}

/// The inner array literal for a listing's type names.
pub open spec fn types_array(ts: Seq<Seq<char>>) -> Seq<char> {
    seq!['{'] + joined(", "@, dq_quoted_all(ts)) + seq!['}']
}

/// The whole types column value: the array literal carried inside a
/// single-quoted string literal, so the two escaping contexts nest.
pub open spec fn types_field(ts: Seq<Seq<char>>) -> Seq<char> {
    seq!['\''] + sq_escaped(types_array(ts)) + seq!['\'']
}

/// One row-value tuple for a listing, fields in the table's column order:
/// the six string fields quoted and escaped, the four coordinate pairs
/// unquoted numeric text.
pub open spec fn row_tuple(l: Listing) -> Seq<char> {
    seq!['('] + sq_quoted(l.business_status@) + ", "@ + sq_quoted(l.name@) + ", "@ + sq_quoted(
        l.place_id@,
    ) + ", "@ + sq_quoted(l.reference@) + ", "@ + types_field(l.types.deep_view()) + ", "@
        + sq_quoted(l.vicinity@) + ", "@ + l.location.latitude@ + ", "@ + l.location.longitude@
        + ", "@ + l.viewport.northeast.latitude@ + ", "@ + l.viewport.northeast.longitude@ + ", "@
        + l.viewport.southwest.latitude@ + ", "@ + l.viewport.southwest.longitude@ + seq![')']
}

/// The row tuples of a list of listings, in order.
pub open spec fn row_tuples(ls: Seq<Listing>) -> Seq<Seq<char>> {
    ls.map_values(|l: Listing| row_tuple(l))
}

/// The column list and the conflict policy around the tuples.
pub open spec fn insert_prefix() -> Seq<char> {
    "INSERT INTO places (business_status, name, place_id, reference, types, vicinity, location_latitude, location_longitude, viewport_northeast_latitude, viewport_northeast_longitude, viewport_southwest_latitude, viewport_southwest_longitude) VALUES "@
}

pub open spec fn insert_suffix() -> Seq<char> {
    " ON CONFLICT DO NOTHING;"@
}

/// The full statement for a non-empty list of listings.
pub open spec fn insert_statement(ls: Seq<Listing>) -> Seq<char> {
    insert_prefix() + joined(", "@, row_tuples(ls)) + insert_suffix()
}

/// The statement for N listings carries exactly N row-value tuples, one per
/// listing and in the listings' order, between the fixed column list and
/// the fixed conflict clause.
pub proof fn lemma_statement_shape(ls: Seq<Listing>)
    ensures
        row_tuples(ls).len() == ls.len(),
        forall|i: int| 0 <= i < ls.len() ==> row_tuples(ls)[i] == row_tuple(ls[i]),
        insert_statement(ls) == insert_prefix() + joined(", "@, row_tuples(ls)) + insert_suffix(),
{
}

/// Escaping loses nothing, whatever quotes and backslashes the values
/// hold: the text between the quotes of a rendered string field parses
/// back to the original value; the body of a rendered array element parses
/// back to the original type name; and the body of the whole types field
/// parses back to the exact array literal it carries — the two nested
/// contexts undo independently.
pub proof fn lemma_quoting_round_trips(s: Seq<char>, t: Seq<char>, ts: Seq<Seq<char>>)
    ensures
        sq_quoted(s) == seq!['\''] + sq_escaped(s) + seq!['\''],
        sq_unescaped(sq_escaped(s)) == s,
        dq_quoted(t) == seq!['"'] + dq_escaped(t) + seq!['"'],
        dq_unescaped(dq_escaped(t)) == t,
        types_field(ts) == seq!['\''] + sq_escaped(types_array(ts)) + seq!['\''],
        sq_unescaped(sq_escaped(types_array(ts))) == types_array(ts),
{
    lemma_sq_round_trip(s);
    lemma_dq_round_trip(t);
    lemma_sq_round_trip(types_array(ts));
}

/// Appends `s` as a single-quoted, escaped SQL string literal.
fn append_sq_quoted(out: &mut String, s: &str)
    ensures
        final(out)@ == old(out)@ + sq_quoted(s@),
{
    push_char(out, '\'');
    let e = escape_single_quotes(s);
    out.append(e.as_str());
    push_char(out, '\'');
    proof {
        assert(out@ =~= old(out)@ + sq_quoted(s@));
    }
}

/// Renders the types column value: the array literal of double-quoted type
/// names, itself escaped into a single-quoted string literal.
fn render_types(types: &Vec<String>) -> (r: String)
    ensures
        r@ == types_field(types.deep_view()),
{
    let mut arr = String::new();
    push_char(&mut arr, '{');
    let n = types.len();
    let mut i: usize = 0;
    while i < n
        invariant
            n == types@.len(),
            i <= n,
            arr@ == seq!['{'] + joined(", "@, dq_quoted_all(types.deep_view().take(i as int))),
        decreases n - i,
    {
        if i > 0 {
            arr.append(", ");
        }
        push_char(&mut arr, '"');
        let e = escape_double_quotes(types[i].as_str());
        arr.append(e.as_str());
        push_char(&mut arr, '"');
        proof {
            let tv = types.deep_view();
            let prev = dq_quoted_all(tv.take(i as int));
            lemma_joined_push(", "@, prev, dq_quoted(tv[i as int]));
            assert(prev.push(dq_quoted(tv[i as int])) =~= dq_quoted_all(tv.take(i as int + 1)));
            assert(tv[i as int] == types@[i as int]@);
            assert(arr@ =~= seq!['{'] + joined(", "@, dq_quoted_all(tv.take(i as int + 1))));
        }
        i = i + 1;
    }
    push_char(&mut arr, '}');
    proof {
        assert(types.deep_view().take(n as int) =~= types.deep_view());
        assert(arr@ =~= types_array(types.deep_view()));
    }
    let mut out = String::new();
    push_char(&mut out, '\'');
    let e = escape_single_quotes(arr.as_str());
    out.append(e.as_str());
    push_char(&mut out, '\'');
    proof {
        assert(out@ =~= types_field(types.deep_view()));
    }
    out
}

/// Renders one listing's row-value tuple.
pub fn render_row(l: &Listing) -> (r: String)
    ensures
        r@ == row_tuple(*l),
{
    let mut out = String::new();
    push_char(&mut out, '(');
    append_sq_quoted(&mut out, l.business_status.as_str());
    out.append(", ");
    append_sq_quoted(&mut out, l.name.as_str());
    out.append(", ");
    append_sq_quoted(&mut out, l.place_id.as_str());
    out.append(", ");
    append_sq_quoted(&mut out, l.reference.as_str());
    out.append(", ");
    let tf = render_types(&l.types);
    out.append(tf.as_str());
    out.append(", ");
    append_sq_quoted(&mut out, l.vicinity.as_str());
    out.append(", ");
    out.append(l.location.latitude.as_str());
    out.append(", ");
    out.append(l.location.longitude.as_str());
    out.append(", ");
    out.append(l.viewport.northeast.latitude.as_str());
    out.append(", ");
    out.append(l.viewport.northeast.longitude.as_str());
    out.append(", ");
    out.append(l.viewport.southwest.latitude.as_str());
    out.append(", ");
    out.append(l.viewport.southwest.longitude.as_str());
    push_char(&mut out, ')');
    proof {
        assert(out@ =~= row_tuple(*l));
    }
    out
}

/// Builds the bulk insert statement for the listings, or nothing when the
/// list is empty — a statement with zero value tuples would be invalid, and
/// the caller skips the database call entirely.
pub fn build_insert(listings: &Vec<Listing>) -> (r: Option<String>)
    requires
        forall|i: int| 0 <= i < listings@.len() ==> listings@[i].valid(),
    ensures
        r is None <==> listings@.len() == 0,
        r matches Some(stmt) ==> stmt@ == insert_statement(listings@),
{
    let n = listings.len();
    if n == 0 {
        return None;
    }
    let mut out = String::from_str(
        "INSERT INTO places (business_status, name, place_id, reference, types, vicinity, location_latitude, location_longitude, viewport_northeast_latitude, viewport_northeast_longitude, viewport_southwest_latitude, viewport_southwest_longitude) VALUES ",
    );
    let mut i: usize = 0;
    while i < n
        invariant
            n == listings@.len(),
            i <= n,
            out@ == insert_prefix() + joined(", "@, row_tuples(listings@.take(i as int))),
        decreases n - i,
    {
        if i > 0 {
            out.append(", ");
        }
        let row = render_row(&listings[i]);
        out.append(row.as_str());
        proof {
            let lv = listings@;
            let prev = row_tuples(lv.take(i as int));
            lemma_joined_push(", "@, prev, row_tuple(lv[i as int]));
            assert(prev.push(row_tuple(lv[i as int])) =~= row_tuples(lv.take(i as int + 1)));
            assert(out@ =~= insert_prefix() + joined(", "@, row_tuples(lv.take(i as int + 1))));
        }
        i = i + 1;
    }
    out.append(" ON CONFLICT DO NOTHING;");
    proof {
        assert(listings@.take(n as int) =~= listings@);
        assert(out@ =~= insert_statement(listings@));
    }
    Some(out)
}

} // verus!
