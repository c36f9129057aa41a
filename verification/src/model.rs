//! The data the gateway works on: the decoded inbound request, one upstream
//! listing, and the upstream response that wraps the listings.
//!
//! Coordinates travel as decimal text. The statement builder interpolates
//! them unquoted, so their validity — every character belongs to a numeric
//! literal — is the safety condition the builder's callers establish.

use vstd::prelude::*;

verus! {

/// One character of a numeric literal: a digit, a sign, a decimal point or
/// an exponent marker. None of these can close or open a quoting context.
pub open spec fn is_numeric_char(c: char) -> bool {
    (('0' as u32) <= (c as u32) && (c as u32) <= ('9' as u32)) || c == '-' || c == '+' || c
        == '.' || c == 'e' || c == 'E'
}

/// Non-empty text made only of numeric-literal characters.
pub open spec fn is_numeric_text(s: Seq<char>) -> bool {
    s.len() > 0 && (forall|i: int| 0 <= i < s.len() ==> is_numeric_char(s[i]))
}

/// Checks that a text is a non-empty run of numeric-literal characters.
pub fn check_numeric_text(s: &str) -> (r: bool)
    ensures
        r == is_numeric_text(s@),
{
    let n = s.unicode_len();
    if n == 0 {
        return false;
    }
    let mut i: usize = 0;
    while i < n
        invariant
            n == s@.len(),
            i <= n,
            forall|j: int| 0 <= j < i ==> is_numeric_char(s@[j]),
        decreases n - i,
    {
        let c = s.get_char(i);
        let ok = (('0' as u32) <= (c as u32) && (c as u32) <= ('9' as u32)) || c == '-' || c
            == '+' || c == '.' || c == 'e' || c == 'E';
        if !ok {
            proof {
                assert(!is_numeric_char(s@[i as int]));
            }
            return false;
        }
        i = i + 1;
    }
    true
}

/// The decoded inbound request body: the coordinate to search around,
/// carried exactly as the caller supplied it.
#[derive(Debug)]
pub struct NearbySearchRequest {
    pub latitude: String,
    pub longitude: String,
}

/// A latitude/longitude pair as decimal text.
#[derive(Debug)]
pub struct LatLong {
    pub latitude: String,
    pub longitude: String,
}

impl LatLong {
    /// Both components are numeric text, safe to interpolate unquoted.
    pub open spec fn valid(self) -> bool {
        is_numeric_text(self.latitude@) && is_numeric_text(self.longitude@)
    }

    /// Runtime check of `valid`.
    pub fn validate(&self) -> (r: bool)
        ensures
            r == self.valid(),
    {
        check_numeric_text(self.latitude.as_str()) && check_numeric_text(self.longitude.as_str())
    }
}

/// The bounding box a listing was reported in: its two corners.
#[derive(Debug)]
pub struct ViewportBox {
    pub northeast: LatLong,
    pub southwest: LatLong,
}

impl ViewportBox {
    pub open spec fn valid(self) -> bool {
        self.northeast.valid() && self.southwest.valid()
    }

    pub fn validate(&self) -> (r: bool)
        ensures
            r == self.valid(),
    {
        self.northeast.validate() && self.southwest.validate()
    }
}

/// One upstream search result.
#[derive(Debug)]
pub struct Listing {
    pub business_status: String,
    pub name: String,
    pub place_id: String,
    pub reference: String,
    pub types: Vec<String>,
    pub vicinity: String,
    pub location: LatLong,
    pub viewport: ViewportBox,
}

impl Listing {
    /// All four coordinate pairs are numeric text. String fields need no
    /// condition: the builder escapes them.
    pub open spec fn valid(self) -> bool {
        self.location.valid() && self.viewport.valid()
    }

    pub fn validate(&self) -> (r: bool)
        ensures
            r == self.valid(),
    {
        self.location.validate() && self.viewport.validate()
    }
}

/// The upstream response: a pass-through paging token and the listings.
#[derive(Debug)]
pub struct SearchResponse {
    pub next_page_token: String,
    pub results: Vec<Listing>,
}

impl SearchResponse {
    pub open spec fn valid(self) -> bool {
        forall|i: int| 0 <= i < self.results@.len() ==> self.results@[i].valid()
    }

    pub fn validate(&self) -> (r: bool)
        ensures
            r == self.valid(),
    {
        let n = self.results.len();
        let mut i: usize = 0;
        while i < n
            invariant
                n == self.results@.len(),
                i <= n,
                forall|j: int| 0 <= j < i ==> self.results@[j].valid(),
            decreases n - i,
        {
            if !self.results[i].validate() {
                proof {
                    assert(!self.results@[i as int].valid());
                }
                return false;
            }
            i = i + 1;
        }
        true
    }
}

} // verus!
