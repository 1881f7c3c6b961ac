use earthrs_modis::product_type::ProductType;
use earthrs_modis::ModisError;

#[test]
fn code_of_each_product_reads_back() {
    for product in ProductType::all() {
        assert_eq!(ProductType::from_code(product.code()), Ok(product));
    }
}

#[test]
fn catalogue_holds_forty_six_distinct_products() {
    let all = ProductType::all();
    assert_eq!(all.len(), 46);
    for (i, a) in all.iter().enumerate() {
        for b in all.iter().skip(i + 1) {
            assert_ne!(a, b);
            assert_ne!(a.code(), b.code());
        }
    }
}

#[test]
fn codes_are_the_service_names() {
    assert_eq!(ProductType::Daymet.code(), "Daymet");
    assert_eq!(ProductType::ECO4ESIPTJPL.code(), "ECO4ESIPTJPL");
    assert_eq!(ProductType::GEDI04_B.code(), "GEDI04_B");
    assert_eq!(ProductType::MCD15A2H.code(), "MCD15A2H");
    assert_eq!(ProductType::MOD11A2.code(), "MOD11A2");
    assert_eq!(ProductType::MOD17A3HGF.code(), "MOD17A3HGF");
    assert_eq!(ProductType::SIF_ANN.code(), "SIF_ANN");
    assert_eq!(ProductType::SPL3SMP_E.code(), "SPL3SMP_E");
    assert_eq!(ProductType::VNP22Q2.code(), "VNP22Q2");
}

#[test]
fn known_code_names_its_product() {
    assert_eq!(ProductType::from_code("MOD11A2"), Ok(ProductType::MOD11A2));
    assert_eq!(ProductType::from_code("MCD43A"), Ok(ProductType::MCD43A));
    assert_eq!(ProductType::from_code("MCD43A1"), Ok(ProductType::MCD43A1));
    assert_eq!(ProductType::from_code("Daymet"), Ok(ProductType::Daymet));
}

#[test]
fn unknown_code_is_a_parse_error() {
    assert_eq!(ProductType::from_code("MOD99Z9"), Err(ModisError::ParseError));
    assert_eq!(ProductType::from_code(""), Err(ModisError::ParseError));
    assert_eq!(ProductType::from_code("daymet"), Err(ModisError::ParseError));
    assert_eq!(ProductType::from_code("MOD11A2 "), Err(ModisError::ParseError));
    assert_eq!(ProductType::from_code("MOD11A"), Err(ModisError::ParseError));
    assert_eq!(ProductType::from_code("MÖD11A2"), Err(ModisError::ParseError));
}

#[test]
fn product_converts_into_its_code() {
    let code: &str = ProductType::MOD11A2.into();
    assert_eq!(code, "MOD11A2");
    let code: &'static str = <&'static str>::from(ProductType::SIF005);
    assert_eq!(code, "SIF005");
}
