//! The request URL of each endpoint.
//!
//! A URL is the base path, then the endpoint's path, then the query parameters
//! in a fixed order. The parts are joined as they are given: nothing is
//! escaped here.

use crate::decimal::{decimal, decimal_text};
use vstd::prelude::*;

verus! {

/// The path under which every endpoint of the service lies.
pub const BASE_URL: &'static str = "https://modis.ornl.gov/rst/api/v1/";

/// The URL of the product catalogue.
pub open spec fn spec_products_url() -> Seq<char> {
    BASE_URL@ + "/products"@
}

/// The URL of the list of monitoring sites.
pub open spec fn spec_sites_url() -> Seq<char> {
    BASE_URL@ + "/sites"@
}

/// The URL of the dates on which `product` was observed at a point.
pub open spec fn spec_dates_url(
    product: Seq<char>,
    latitude: Seq<char>,
    longitude: Seq<char>,
) -> Seq<char> {
    BASE_URL@ + "/"@ + product + "/dates?latitude="@ + latitude + "&longitude="@ + longitude
}

/// The URL of a subset of `product`: the window of `km_above_below` by
/// `km_left_right` kilometres around a point, for one band and a range of
/// dates.
pub open spec fn spec_subset_url(
    product: Seq<char>,
    latitude: Seq<char>,
    longitude: Seq<char>,
    band: Seq<char>,
    start_date: Seq<char>,
    end_date: Seq<char>,
    km_above_below: nat,
    km_left_right: nat,
) -> Seq<char> {
    BASE_URL@ + "/"@ + product + "/subset?latitude="@ + latitude + "&longitude="@ + longitude
        + "&band="@ + band + "&startDate="@ + start_date + "&endDate="@ + end_date
        + "&kmAboveBelow="@ + decimal(km_above_below) + "&kmLeftRight="@ + decimal(
        km_left_right,
    )
}

/// The URL of the product catalogue.
pub fn products_url() -> (url: String)
    ensures
        url@ == spec_products_url(),
{
    let mut url = String::from_str(BASE_URL);
    url.append("/products");
    url
}

/// The URL of the list of monitoring sites.
pub fn sites_url() -> (url: String)
    ensures
        url@ == spec_sites_url(),
{
    let mut url = String::from_str(BASE_URL);
    url.append("/sites");
    url
}

/// The URL of the dates on which `product` was observed at the point whose
/// coordinates are written in `latitude` and `longitude`.
pub fn dates_url(product: &str, latitude: &str, longitude: &str) -> (url: String)
    ensures
        url@ == spec_dates_url(product@, latitude@, longitude@),
{
    let mut url = String::from_str(BASE_URL);
    url.append("/");
    url.append(product);
    url.append("/dates?latitude=");
    url.append(latitude);
    url.append("&longitude=");
    url.append(longitude);
    url
}

/// The URL of a subset of `product` around the point whose coordinates are
/// written in `latitude` and `longitude`.
pub fn subset_url(
    product: &str,
    latitude: &str,
    longitude: &str,
    band: &str,
    start_date: &str,
    end_date: &str,
    km_above_below: u8,
    km_left_right: u8,
) -> (url: String)
    ensures
        url@ == spec_subset_url(
            product@,
            latitude@,
            longitude@,
            band@,
            start_date@,
            end_date@,
            km_above_below as nat,
            km_left_right as nat,
        ),
{
    let mut url = String::from_str(BASE_URL);
    url.append("/");
    url.append(product);
    url.append("/subset?latitude=");
    url.append(latitude);
    url.append("&longitude=");
    url.append(longitude);
    url.append("&band=");
    url.append(band);
    url.append("&startDate=");
    url.append(start_date);
    url.append("&endDate=");
    url.append(end_date);
    url.append("&kmAboveBelow=");
    let above_below = decimal_text(km_above_below as u64);
    url.append(above_below.as_str());
    url.append("&kmLeftRight=");
    let left_right = decimal_text(km_left_right as u64);
    url.append(left_right.as_str());
    url
}

} // verus!
