//! What is known of an address from the databases of autonomous systems and
//! countries. Opening the databases and looking an address up is the caller's
//! part; what the records mean is decided here.

use crate::carrier_map::{carrier_name, resolve_carrier_name};
use crate::text::joined;
use vstd::prelude::*;

verus! {

/// What making the databases available came to.
#[derive(Debug, Clone, PartialEq, Eq)]
pub struct GeoIpEnsureResult {
    /// A database was downloaded.
    pub changed: bool,
    /// What went wrong, database by database.
    pub errors: Vec<String>,
}

/// What is known of an address.
#[derive(Debug, Clone, PartialEq, Eq)]
pub struct IpGeoInfo {
    pub asn: Option<u32>,
    pub organization: Option<String>,
    pub carrier_name: Option<String>,
    pub country_iso_code: Option<String>,
}

/// The upper-case form of a text by the rules of Unicode, which may change
/// the number of its characters. It is what `str::to_uppercase` returns.
pub uninterp spec fn unicode_uppercase(s: Seq<char>) -> Seq<char>;

/// `str::to_uppercase`: the upper-case form of the text by the rules of
/// Unicode. The result depends on the text alone.
#[verifier::external_body]
fn to_uppercase(s: &str) -> (r: String)
    ensures
        r@ == unicode_uppercase(s@),
{
    s.to_uppercase()
}

/// The country of an address: the one it lies in, or the one it is
/// registered in where the first is not known.
pub open spec fn country_of(country: Option<Seq<char>>, registered: Option<Seq<char>>) -> Option<
    Seq<char>,
> {
    match country {
        Some(code) => Some(code),
        None => registered,
    }
}

/// The country's code in upper case.
pub fn country_iso_code(country: Option<&str>, registered: Option<&str>) -> (r: Option<String>)
    ensures
        r.deep_view() == match country_of(
            match country {
                Some(code) => Some(code@),
                None => None,
            },
            match registered {
                Some(code) => Some(code@),
                None => None,
            },
        ) {
            Some(code) => Some(unicode_uppercase(code)),
            None => None,
        },
{
    match country {
        Some(code) => Some(to_uppercase(code)),
        None => match registered {
            Some(code) => Some(to_uppercase(code)),
            None => None,
        },
    }
}

/// Whether nothing at all is known.
pub open spec fn knows_nothing(
    asn: Option<u32>,
    organization: Option<Seq<char>>,
    country: Option<Seq<char>>,
) -> bool {
    asn is None && organization is None && country is None && carrier_name(asn, organization)
        is None
}

/// Puts together what the records say of an address, the country's code
/// given as it is to be shown; `None` where they say nothing.
pub fn lookup_ip(asn: Option<u32>, organization: Option<String>, country: Option<String>) -> (r:
    Option<IpGeoInfo>)
    ensures
        match r {
            Some(info) => {
                &&& !knows_nothing(asn, organization.deep_view(), country.deep_view())
                &&& info.asn == asn
                &&& info.organization.deep_view() == organization.deep_view()
                &&& info.country_iso_code.deep_view() == country.deep_view()
                &&& info.carrier_name.deep_view() == carrier_name(asn, organization.deep_view())
            },
            None => knows_nothing(asn, organization.deep_view(), country.deep_view()),
        },
{
    let carrier = match &organization {
        Some(name) => resolve_carrier_name(asn, Some(name.as_str())),
        None => resolve_carrier_name(asn, None),
    };
    let carrier_name = match carrier {
        Some(name) => Some(name.to_owned()),
        None => None,
    };
    if asn.is_none() && organization.is_none() && country.is_none() && carrier_name.is_none() {
        None
    } else {
        Some(IpGeoInfo { asn, organization, carrier_name, country_iso_code: country })
    }
}

/// Whether a database is missing.
pub fn missing_any_database(has_asn_db: bool, has_country_db: bool) -> (r: bool)
    ensures
        r == (!has_asn_db || !has_country_db),
{
    !has_asn_db || !has_country_db
}

/// The errors of the two downloads, in order: that of the systems'
/// database, then that of the countries'.
pub open spec fn download_errors(
    asn: Option<Result<bool, Seq<char>>>,
    country: Option<Result<bool, Seq<char>>>,
) -> Seq<Seq<char>> {
    (match asn {
        Some(Err(error)) => seq!["ASN db download failed: "@ + error],
        _ => Seq::empty(),
    }) + (match country {
        Some(Err(error)) => seq!["Country db download failed: "@ + error],
        _ => Seq::empty(),
    })
}

/// Whether a download brought a database.
pub open spec fn downloaded(outcome: Option<Result<bool, Seq<char>>>) -> bool {
    outcome matches Some(Ok(true))
}

/// Sums up the downloads of the two databases. A database that was there
/// already was not downloaded and has no outcome.
pub fn ensure_geoip_databases(
    asn: Option<Result<bool, String>>,
    country: Option<Result<bool, String>>,
) -> (r: GeoIpEnsureResult)
    ensures
        r.changed == (downloaded(
            match asn {
                Some(Ok(b)) => Some(Ok(b)),
                Some(Err(e)) => Some(Err(e@)),
                None => None,
            },
        ) || downloaded(
            match country {
                Some(Ok(b)) => Some(Ok(b)),
                Some(Err(e)) => Some(Err(e@)),
                None => None,
            },
        )),
        r.errors.deep_view() == download_errors(
            match asn {
                Some(Ok(b)) => Some(Ok(b)),
                Some(Err(e)) => Some(Err(e@)),
                None => None,
            },
            match country {
                Some(Ok(b)) => Some(Ok(b)),
                Some(Err(e)) => Some(Err(e@)),
                None => None,
            },
        ),
{
    let mut changed = false;
    let mut errors: Vec<String> = Vec::new();
    match asn {
        Some(Ok(downloaded)) => {
            changed = changed || downloaded;
        },
        Some(Err(error)) => {
            errors.push(joined("ASN db download failed: ", error.as_str()));
        },
        None => {},
    }
    match country {
        Some(Ok(downloaded)) => {
            changed = changed || downloaded;
        },
        Some(Err(error)) => {
            errors.push(joined("Country db download failed: ", error.as_str()));
        },
        None => {},
    }
    assert(errors.deep_view() =~= download_errors(
        match asn {
            Some(Ok(b)) => Some(Ok(b)),
            Some(Err(e)) => Some(Err(e@)),
            None => None,
        },
        match country {
            Some(Ok(b)) => Some(Ok(b)),
            Some(Err(e)) => Some(Err(e@)),
            None => None,
        },
    ));
    GeoIpEnsureResult { changed, errors }
}

} // verus!
