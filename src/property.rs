//! Property paths and the values that the host composes for them.

use vstd::prelude::*;
use vstd::string::StringSliceAdditionalSpecFns;
use crate::wire::HostError;

verus! {

/// Whether `b` is valid UTF-8, as std's decoder decides it.
pub uninterp spec fn is_utf8(b: Seq<u8>) -> bool;

/// Relies on `std::str::from_utf8`: it accepts exactly the valid UTF-8
/// sequences, among them the empty one and every sequence of ASCII bytes.
#[verifier::external_body]
pub(crate) fn utf8_valid(b: &[u8]) -> (r: bool)
    ensures
        r == is_utf8(b@),
        b@.len() == 0 ==> r,
        (forall|i: int| 0 <= i < b@.len() ==> #[trigger] b@[i] < 128) ==> r,
{
    std::str::from_utf8(b).is_ok()
}

/// Byte-wise equality of two byte strings.
pub fn bytes_equal(a: &[u8], b: &[u8]) -> (r: bool)
    ensures
        r == (a@ == b@),
{
    if a.len() != b.len() {
        return false;
    }
    let mut i: usize = 0;
    while i < a.len()
        invariant
            a@.len() == b@.len(),
            0 <= i <= a@.len(),
            forall|j: int| 0 <= j < i ==> a@[j] == b@[j],
        decreases a@.len() - i,
    {
        if a[i] != b[i] {
            return false;
        }
        i = i + 1;
    }
    assert(a@ =~= b@);
    true
}

/// Appends `src` to `out`.
pub fn append_bytes(out: &mut Vec<u8>, src: &[u8])
    ensures
        final(out)@ == old(out)@ + src@,
{
    let mut i: usize = 0;
    while i < src.len()
        invariant
            0 <= i <= src@.len(),
            out@ == old(out)@ + src@.subrange(0, i as int),
        decreases src@.len() - i,
    {
        out.push(src[i]);
        assert(src@.subrange(0, i + 1) =~= src@.subrange(0, i as int) + seq![src@[i as int]]);
        assert(out@ =~= old(out)@ + src@.subrange(0, i + 1));
        i = i + 1;
    }
    assert(src@.subrange(0, src@.len() as int) =~= src@);
}


pub const REQUEST_COUNTRY: &'static str = "request.country";
pub const REQUEST_COUNTRY_NAME: &'static str = "request.country_name";
pub const REQUEST_CITY: &'static str = "request.city";
pub const REQUEST_ASN: &'static str = "request.asn";
pub const REQUEST_GEO_LAT: &'static str = "request.geo_lat";
pub const REQUEST_GEO_LONG: &'static str = "request.geo_long";
pub const REQUEST_REGION: &'static str = "request.region";
pub const REQUEST_CONTINENT: &'static str = "request.continent";
pub const REQUEST_URI: &'static str = "request.uri";
pub const REQUEST_SCHEME: &'static str = "request.scheme";
pub const REQUEST_HOST: &'static str = "request.host";
pub const REQUEST_PATH: &'static str = "request.path";
pub const REQUEST_X_REAL_IP: &'static str = "request.x_real_ip";
/// The request header that carries the scheme.
pub const SCHEME_HEADER: &'static str = "X-Forwarded-Proto";
/// The request header that carries the host the client asked for.
pub const REAL_HOST_HEADER: &'static str = "X-CDN-Real-Host";
/// Prefix of the host on a node whose role is `edge_shield`.
pub const SHIELD_PREFIX: &'static str = "shield_";

/// What the geo-IP service is asked for.
#[derive(Clone, Copy, Debug, PartialEq, Eq, Structural)]
pub enum GeoField {
    Country,
    CountryName,
    City,
    Asn,
    GeoLat,
    GeoLong,
    Region,
    Continent,
}

/// How a property that is not cached gets its value.
#[derive(Clone, Copy, Debug, PartialEq, Eq, Structural)]
pub enum PropertyRoute {
    /// From the geo-IP service, for the client's address.
    Geo(GeoField),
    /// Composed from the scheme, host and path properties.
    Uri,
    /// From the scheme request header.
    Scheme,
    /// From the real-host request header, else from the proxy; cached.
    Host,
    /// From the proxy; cached when it answers.
    Forward,
}

pub open spec fn spec_route(p: Seq<u8>) -> PropertyRoute {
    if p == REQUEST_COUNTRY.spec_bytes() {
        PropertyRoute::Geo(GeoField::Country)
    } else if p == REQUEST_COUNTRY_NAME.spec_bytes() {
        PropertyRoute::Geo(GeoField::CountryName)
    } else if p == REQUEST_CITY.spec_bytes() {
        PropertyRoute::Geo(GeoField::City)
    } else if p == REQUEST_ASN.spec_bytes() {
        PropertyRoute::Geo(GeoField::Asn)
    } else if p == REQUEST_GEO_LAT.spec_bytes() {
        PropertyRoute::Geo(GeoField::GeoLat)
    } else if p == REQUEST_GEO_LONG.spec_bytes() {
        PropertyRoute::Geo(GeoField::GeoLong)
    } else if p == REQUEST_REGION.spec_bytes() {
        PropertyRoute::Geo(GeoField::Region)
    } else if p == REQUEST_CONTINENT.spec_bytes() {
        PropertyRoute::Geo(GeoField::Continent)
    } else if p == REQUEST_URI.spec_bytes() {
        PropertyRoute::Uri
    } else if p == REQUEST_SCHEME.spec_bytes() {
        PropertyRoute::Scheme
    } else if p == REQUEST_HOST.spec_bytes() {
        PropertyRoute::Host
    } else {
        PropertyRoute::Forward
    }
}

/// The route a property path takes.
pub fn route(path: &[u8]) -> (r: PropertyRoute)
    ensures
        r == spec_route(path@),
{
    if bytes_equal(path, REQUEST_COUNTRY.as_bytes()) {
        PropertyRoute::Geo(GeoField::Country)
    } else if bytes_equal(path, REQUEST_COUNTRY_NAME.as_bytes()) {
        PropertyRoute::Geo(GeoField::CountryName)
    } else if bytes_equal(path, REQUEST_CITY.as_bytes()) {
        PropertyRoute::Geo(GeoField::City)
    } else if bytes_equal(path, REQUEST_ASN.as_bytes()) {
        PropertyRoute::Geo(GeoField::Asn)
    } else if bytes_equal(path, REQUEST_GEO_LAT.as_bytes()) {
        PropertyRoute::Geo(GeoField::GeoLat)
    } else if bytes_equal(path, REQUEST_GEO_LONG.as_bytes()) {
        PropertyRoute::Geo(GeoField::GeoLong)
    } else if bytes_equal(path, REQUEST_REGION.as_bytes()) {
        PropertyRoute::Geo(GeoField::Region)
    } else if bytes_equal(path, REQUEST_CONTINENT.as_bytes()) {
        PropertyRoute::Geo(GeoField::Continent)
    } else if bytes_equal(path, REQUEST_URI.as_bytes()) {
        PropertyRoute::Uri
    } else if bytes_equal(path, REQUEST_SCHEME.as_bytes()) {
        PropertyRoute::Scheme
    } else if bytes_equal(path, REQUEST_HOST.as_bytes()) {
        PropertyRoute::Host
    } else {
        PropertyRoute::Forward
    }
}

/// The request URI, `{scheme}://{host}{path}`, from its three parts; each
/// part must be valid UTF-8.
pub fn compose_uri(scheme: &[u8], host: &[u8], path: &[u8]) -> (r: Result<Vec<u8>, HostError>)
    ensures
        r is Ok <==> (is_utf8(scheme@) && is_utf8(host@) && is_utf8(path@)),
        r matches Ok(v) ==> v@ == scheme@ + "://".spec_bytes() + host@ + path@,
        r matches Err(e) ==> e == HostError::Utf8Error,
{
    if !utf8_valid(scheme) || !utf8_valid(host) || !utf8_valid(path) {
        return Err(HostError::Utf8Error);
    }
    let mut v: Vec<u8> = Vec::new();
    append_bytes(&mut v, scheme);
    append_bytes(&mut v, "://".as_bytes());
    append_bytes(&mut v, host);
    append_bytes(&mut v, path);
    Ok(v)
}

/// The host value from the real-host header: prefixed with `shield_` on an
/// edge-shield node, as it is elsewhere.
pub fn shield_host(header: &[u8], edge_shield: bool) -> (r: Vec<u8>)
    ensures
        edge_shield ==> r@ == SHIELD_PREFIX.spec_bytes() + header@,
        !edge_shield ==> r@ == header@,
{
    let mut v: Vec<u8> = Vec::new();
    if edge_shield {
        append_bytes(&mut v, SHIELD_PREFIX.as_bytes());
    }
    append_bytes(&mut v, header);
    v
}

/// The decimal digits of `n`, most significant first.
pub open spec fn decimal(n: nat) -> Seq<u8>
    decreases n,
{
    if n < 10 {
        seq![(48 + n) as u8]
    } else {
        decimal(n / 10) + seq![(48 + n % 10) as u8]
    }
}

/// Writes `n` in decimal, as the geo service's AS number is returned.
pub fn decimal_bytes(n: u32) -> (r: Vec<u8>)
    ensures
        r@ == decimal(n as nat),
    decreases n,
{
    if n < 10 {
        let v = vec![(48 + n) as u8];
        assert(v@ =~= decimal(n as nat));
        v
    } else {
        let mut v = decimal_bytes(n / 10);
        v.push((48 + n % 10) as u8);
        v
    }
}

/// The bytes of a text answer of the geo service: empty when it has none.
pub fn geo_text(value: Option<&str>) -> (r: Vec<u8>)
    ensures
        value is None ==> r@.len() == 0,
        value matches Some(s) ==> r@ == s.spec_bytes(),
{
    let mut v: Vec<u8> = Vec::new();
    match value {
        Some(s) => {
            append_bytes(&mut v, s.as_bytes());
        },
        None => {},
    }
    v
}

/// The bytes of the geo service's AS number: empty when it has none.
pub fn geo_asn(value: Option<u32>) -> (r: Vec<u8>)
    ensures
        value is None ==> r@.len() == 0,
        value matches Some(n) ==> r@ == decimal(n as nat),
{
    match value {
        Some(n) => decimal_bytes(n),
        None => Vec::new(),
    }
}

} // verus!
