use earthrs_modis::decimal::decimal_text;
use earthrs_modis::{dates_url, products_url, sites_url, subset_url, ProductType, BASE_URL};

#[test]
fn base_path_of_the_service() {
    assert_eq!(BASE_URL, "https://modis.ornl.gov/rst/api/v1/");
}

#[test]
fn products_url_is_fixed() {
    assert_eq!(products_url(), "https://modis.ornl.gov/rst/api/v1//products");
}

#[test]
fn sites_url_is_fixed() {
    assert_eq!(sites_url(), "https://modis.ornl.gov/rst/api/v1//sites");
}

#[test]
fn dates_url_places_product_and_point() {
    let url = dates_url(ProductType::MOD11A2.into(), "39.56499", "-121.55527");
    assert_eq!(
        url,
        "https://modis.ornl.gov/rst/api/v1//MOD11A2/dates?latitude=39.56499&longitude=-121.55527"
    );
}

#[test]
fn dates_url_for_otago() {
    let url = dates_url("MCD15A2H", "-45.8667", "170.6667");
    assert_eq!(
        url,
        "https://modis.ornl.gov/rst/api/v1//MCD15A2H/dates?latitude=-45.8667&longitude=170.6667"
    );
}

#[test]
fn subset_url_places_parameters_in_order() {
    let url = subset_url(
        ProductType::MOD11A2.into(),
        "39.56499",
        "-121.55527",
        "LST_Day_1km",
        "A2001001",
        "A2001001",
        1,
        1,
    );
    assert_eq!(
        url,
        "https://modis.ornl.gov/rst/api/v1//MOD11A2/subset?latitude=39.56499&longitude=-121.55527&band=LST_Day_1km&startDate=A2001001&endDate=A2001001&kmAboveBelow=1&kmLeftRight=1"
    );
}

#[test]
fn subset_url_writes_window_in_decimal() {
    let url = subset_url("MCD15A2H", "-45.8667", "170.6667", "Lai_500m", "A2024217", "A2024225", 10, 255);
    assert_eq!(
        url,
        "https://modis.ornl.gov/rst/api/v1//MCD15A2H/subset?latitude=-45.8667&longitude=170.6667&band=Lai_500m&startDate=A2024217&endDate=A2024225&kmAboveBelow=10&kmLeftRight=255"
    );
    let url = subset_url("P", "0", "0", "b", "s", "e", 0, 100);
    assert!(url.ends_with("&kmAboveBelow=0&kmLeftRight=100"));
}

#[test]
fn url_parts_are_joined_unescaped() {
    let url = dates_url("a b", "1&2", "x=y");
    assert_eq!(url, "https://modis.ornl.gov/rst/api/v1//a b/dates?latitude=1&2&longitude=x=y");
}

#[test]
fn decimal_numerals() {
    assert_eq!(decimal_text(0), "0");
    assert_eq!(decimal_text(7), "7");
    assert_eq!(decimal_text(10), "10");
    assert_eq!(decimal_text(109), "109");
    assert_eq!(decimal_text(255), "255");
    assert_eq!(decimal_text(1234567890), "1234567890");
    assert_eq!(decimal_text(u64::MAX), "18446744073709551615");
}

#[test]
fn decimal_numerals_agree_with_std() {
    for n in 0..2000u64 {
        assert_eq!(decimal_text(n), format!("{}", n));
    }
}
