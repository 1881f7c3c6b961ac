//! The closed catalogue of products and the code by which the service knows
//! each of them.

use crate::error::ModisError;
use crate::text::text_eq;
use vstd::prelude::*;

verus! {

/// A product of the service.
#[allow(non_camel_case_types)]
#[derive(Debug, Clone, Copy, PartialEq, Eq, Structural, Hash)]
pub enum ProductType {
    Daymet,
    ECO4ESIPTJPL,
    ECO4WUE,
    GEDI03,
    GEDI04_B,
    MCD12Q1,
    MCD12Q2,
    MCD15A2H,
    MCD15A3H,
    MCD43A,
    MCD43A1,
    MCD43A4,
    MCD64A1,
    MOD09A1,
    MOD11A2,
    MOD13Q1,
    MOD14A2,
    MOD15A2H,
    MOD16A2,
    MOD16A2GF,
    MOD17A2H,
    MOD17A2HGF,
    MOD17A3HGF,
    MOD21A2,
    MOD44B,
    MYD09A1,
    MYD11A2,
    MYD13Q1,
    MYD14A2,
    MYD15A2H,
    MYD16A2,
    MYD16A2GF,
    MYD17A2H,
    MYD17A2HGF,
    MYD17A3HGF,
    MYD21A2,
    SIF005,
    SIF_ANN,
    SPL3SMP_E,
    SPL4CMDL,
    VNP09A1,
    VNP09H1,
    VNP13A1,
    VNP15A2H,
    VNP21A2,
    VNP22Q2,
}

impl ProductType {
    /// The code of this product, as the text that the library hands out.
    pub open spec fn spec_text(self) -> &'static str {
        match self {
            ProductType::Daymet => "Daymet",
            ProductType::ECO4ESIPTJPL => "ECO4ESIPTJPL",
            ProductType::ECO4WUE => "ECO4WUE",
            ProductType::GEDI03 => "GEDI03",
            ProductType::GEDI04_B => "GEDI04_B",
            ProductType::MCD12Q1 => "MCD12Q1",
            ProductType::MCD12Q2 => "MCD12Q2",
            ProductType::MCD15A2H => "MCD15A2H",
            ProductType::MCD15A3H => "MCD15A3H",
            ProductType::MCD43A => "MCD43A",
            ProductType::MCD43A1 => "MCD43A1",
            ProductType::MCD43A4 => "MCD43A4",
            ProductType::MCD64A1 => "MCD64A1",
            ProductType::MOD09A1 => "MOD09A1",
            ProductType::MOD11A2 => "MOD11A2",
            ProductType::MOD13Q1 => "MOD13Q1",
            ProductType::MOD14A2 => "MOD14A2",
            ProductType::MOD15A2H => "MOD15A2H",
            ProductType::MOD16A2 => "MOD16A2",
            ProductType::MOD16A2GF => "MOD16A2GF",
            ProductType::MOD17A2H => "MOD17A2H",
            ProductType::MOD17A2HGF => "MOD17A2HGF",
            ProductType::MOD17A3HGF => "MOD17A3HGF",
            ProductType::MOD21A2 => "MOD21A2",
            ProductType::MOD44B => "MOD44B",
            ProductType::MYD09A1 => "MYD09A1",
            ProductType::MYD11A2 => "MYD11A2",
            ProductType::MYD13Q1 => "MYD13Q1",
            ProductType::MYD14A2 => "MYD14A2",
            ProductType::MYD15A2H => "MYD15A2H",
            ProductType::MYD16A2 => "MYD16A2",
            ProductType::MYD16A2GF => "MYD16A2GF",
            ProductType::MYD17A2H => "MYD17A2H",
            ProductType::MYD17A2HGF => "MYD17A2HGF",
            ProductType::MYD17A3HGF => "MYD17A3HGF",
            ProductType::MYD21A2 => "MYD21A2",
            ProductType::SIF005 => "SIF005",
            ProductType::SIF_ANN => "SIF_ANN",
            ProductType::SPL3SMP_E => "SPL3SMP_E",
            ProductType::SPL4CMDL => "SPL4CMDL",
            ProductType::VNP09A1 => "VNP09A1",
            ProductType::VNP09H1 => "VNP09H1",
            ProductType::VNP13A1 => "VNP13A1",
            ProductType::VNP15A2H => "VNP15A2H",
            ProductType::VNP21A2 => "VNP21A2",
            ProductType::VNP22Q2 => "VNP22Q2",
        }
    }

    /// The code of this product: the characters that name it in a request
    /// path and in a reply.
    pub open spec fn spec_code(self) -> Seq<char> {
        self.spec_text()@
    }

    /// The product that `code` names, if it names one.
    pub open spec fn spec_from_code(code: Seq<char>) -> Option<ProductType> {
        if exists|p: ProductType| p.spec_code() == code {
            Some(choose|p: ProductType| p.spec_code() == code)
        } else {
            None
        }
    }

    /// The code of this product.
    pub fn code(self) -> (code: &'static str)
        ensures
            code == self.spec_text(),
            code@ == self.spec_code(),
    {
        match self {
            ProductType::Daymet => "Daymet",
            ProductType::ECO4ESIPTJPL => "ECO4ESIPTJPL",
            ProductType::ECO4WUE => "ECO4WUE",
            ProductType::GEDI03 => "GEDI03",
            ProductType::GEDI04_B => "GEDI04_B",
            ProductType::MCD12Q1 => "MCD12Q1",
            ProductType::MCD12Q2 => "MCD12Q2",
            ProductType::MCD15A2H => "MCD15A2H",
            ProductType::MCD15A3H => "MCD15A3H",
            ProductType::MCD43A => "MCD43A",
            ProductType::MCD43A1 => "MCD43A1",
            ProductType::MCD43A4 => "MCD43A4",
            ProductType::MCD64A1 => "MCD64A1",
            ProductType::MOD09A1 => "MOD09A1",
            ProductType::MOD11A2 => "MOD11A2",
            ProductType::MOD13Q1 => "MOD13Q1",
            ProductType::MOD14A2 => "MOD14A2",
            ProductType::MOD15A2H => "MOD15A2H",
            ProductType::MOD16A2 => "MOD16A2",
            ProductType::MOD16A2GF => "MOD16A2GF",
            ProductType::MOD17A2H => "MOD17A2H",
            ProductType::MOD17A2HGF => "MOD17A2HGF",
            ProductType::MOD17A3HGF => "MOD17A3HGF",
            ProductType::MOD21A2 => "MOD21A2",
            ProductType::MOD44B => "MOD44B",
            ProductType::MYD09A1 => "MYD09A1",
            ProductType::MYD11A2 => "MYD11A2",
            ProductType::MYD13Q1 => "MYD13Q1",
            ProductType::MYD14A2 => "MYD14A2",
            ProductType::MYD15A2H => "MYD15A2H",
            ProductType::MYD16A2 => "MYD16A2",
            ProductType::MYD16A2GF => "MYD16A2GF",
            ProductType::MYD17A2H => "MYD17A2H",
            ProductType::MYD17A2HGF => "MYD17A2HGF",
            ProductType::MYD17A3HGF => "MYD17A3HGF",
            ProductType::MYD21A2 => "MYD21A2",
            ProductType::SIF005 => "SIF005",
            ProductType::SIF_ANN => "SIF_ANN",
            ProductType::SPL3SMP_E => "SPL3SMP_E",
            ProductType::SPL4CMDL => "SPL4CMDL",
            ProductType::VNP09A1 => "VNP09A1",
            ProductType::VNP09H1 => "VNP09H1",
            ProductType::VNP13A1 => "VNP13A1",
            ProductType::VNP15A2H => "VNP15A2H",
            ProductType::VNP21A2 => "VNP21A2",
            ProductType::VNP22Q2 => "VNP22Q2",
        }
    }

    /// Every product, each exactly once.
    pub fn all() -> (list: [ProductType; 46])
        ensures
            forall|p: ProductType| list@.contains(p),
            list@.no_duplicates(),
    {
        let list = [
            ProductType::Daymet,
            ProductType::ECO4ESIPTJPL,
            ProductType::ECO4WUE,
            ProductType::GEDI03,
            ProductType::GEDI04_B,
            ProductType::MCD12Q1,
            ProductType::MCD12Q2,
            ProductType::MCD15A2H,
            ProductType::MCD15A3H,
            ProductType::MCD43A,
            ProductType::MCD43A1,
            ProductType::MCD43A4,
            ProductType::MCD64A1,
            ProductType::MOD09A1,
            ProductType::MOD11A2,
            ProductType::MOD13Q1,
            ProductType::MOD14A2,
            ProductType::MOD15A2H,
            ProductType::MOD16A2,
            ProductType::MOD16A2GF,
            ProductType::MOD17A2H,
            ProductType::MOD17A2HGF,
            ProductType::MOD17A3HGF,
            ProductType::MOD21A2,
            ProductType::MOD44B,
            ProductType::MYD09A1,
            ProductType::MYD11A2,
            ProductType::MYD13Q1,
            ProductType::MYD14A2,
            ProductType::MYD15A2H,
            ProductType::MYD16A2,
            ProductType::MYD16A2GF,
            ProductType::MYD17A2H,
            ProductType::MYD17A2HGF,
            ProductType::MYD17A3HGF,
            ProductType::MYD21A2,
            ProductType::SIF005,
            ProductType::SIF_ANN,
            ProductType::SPL3SMP_E,
            ProductType::SPL4CMDL,
            ProductType::VNP09A1,
            ProductType::VNP09H1,
            ProductType::VNP13A1,
            ProductType::VNP15A2H,
            ProductType::VNP21A2,
            ProductType::VNP22Q2,
        ];
        proof {
            assert forall|p: ProductType| list@.contains(p) by {
                match p {
                    ProductType::Daymet => assert(list@[0] == p),
                    ProductType::ECO4ESIPTJPL => assert(list@[1] == p),
                    ProductType::ECO4WUE => assert(list@[2] == p),
                    ProductType::GEDI03 => assert(list@[3] == p),
                    ProductType::GEDI04_B => assert(list@[4] == p),
                    ProductType::MCD12Q1 => assert(list@[5] == p),
                    ProductType::MCD12Q2 => assert(list@[6] == p),
                    ProductType::MCD15A2H => assert(list@[7] == p),
                    ProductType::MCD15A3H => assert(list@[8] == p),
                    ProductType::MCD43A => assert(list@[9] == p),
                    ProductType::MCD43A1 => assert(list@[10] == p),
                    ProductType::MCD43A4 => assert(list@[11] == p),
                    ProductType::MCD64A1 => assert(list@[12] == p),
                    ProductType::MOD09A1 => assert(list@[13] == p),
                    ProductType::MOD11A2 => assert(list@[14] == p),
                    ProductType::MOD13Q1 => assert(list@[15] == p),
                    ProductType::MOD14A2 => assert(list@[16] == p),
                    ProductType::MOD15A2H => assert(list@[17] == p),
                    ProductType::MOD16A2 => assert(list@[18] == p),
                    ProductType::MOD16A2GF => assert(list@[19] == p),
                    ProductType::MOD17A2H => assert(list@[20] == p),
                    ProductType::MOD17A2HGF => assert(list@[21] == p),
                    ProductType::MOD17A3HGF => assert(list@[22] == p),
                    ProductType::MOD21A2 => assert(list@[23] == p),
                    ProductType::MOD44B => assert(list@[24] == p),
                    ProductType::MYD09A1 => assert(list@[25] == p),
                    ProductType::MYD11A2 => assert(list@[26] == p),
                    ProductType::MYD13Q1 => assert(list@[27] == p),
                    ProductType::MYD14A2 => assert(list@[28] == p),
                    ProductType::MYD15A2H => assert(list@[29] == p),
                    ProductType::MYD16A2 => assert(list@[30] == p),
                    ProductType::MYD16A2GF => assert(list@[31] == p),
                    ProductType::MYD17A2H => assert(list@[32] == p),
                    ProductType::MYD17A2HGF => assert(list@[33] == p),
                    ProductType::MYD17A3HGF => assert(list@[34] == p),
                    ProductType::MYD21A2 => assert(list@[35] == p),
                    ProductType::SIF005 => assert(list@[36] == p),
                    ProductType::SIF_ANN => assert(list@[37] == p),
                    ProductType::SPL3SMP_E => assert(list@[38] == p),
                    ProductType::SPL4CMDL => assert(list@[39] == p),
                    ProductType::VNP09A1 => assert(list@[40] == p),
                    ProductType::VNP09H1 => assert(list@[41] == p),
                    ProductType::VNP13A1 => assert(list@[42] == p),
                    ProductType::VNP15A2H => assert(list@[43] == p),
                    ProductType::VNP21A2 => assert(list@[44] == p),
                    ProductType::VNP22Q2 => assert(list@[45] == p),
                }
            }
        }
        list
    }

    /// The product that `code` names; a text that names none is a reply of the
    /// wrong shape.
    pub fn from_code(code: &str) -> (found: Result<ProductType, ModisError>)
        ensures
            found == match Self::spec_from_code(code@) {
                Some(p) => Ok::<ProductType, ModisError>(p),
                None => Err(ModisError::ParseError),
            },
            forall|p: ProductType|
                #[trigger] p.spec_code() == code@ ==> found == Ok::<ProductType, ModisError>(p),
            (forall|p: ProductType| #[trigger] p.spec_code() != code@) ==> found == Err::<
                ProductType,
                ModisError,
            >(ModisError::ParseError),
    {
        let list = Self::all();
        let mut i: usize = 0;
        while i < 46
            invariant
                i <= 46,
                list@.len() == 46,
                forall|p: ProductType| list@.contains(p),
                forall|j: int| 0 <= j < i ==> list@[j].spec_code() != code@,
            decreases 46 - i,
        {
            let candidate = list[i];
            if text_eq(code, candidate.code()) {
                proof {
                    lemma_codes_distinct(candidate, choose|p: ProductType| p.spec_code() == code@);
                    assert forall|p: ProductType| #[trigger] p.spec_code() == code@ implies p
                        == candidate by {
                        lemma_codes_distinct(candidate, p);
                    }
                }
                return Ok(candidate);
            }
            i += 1;
        }
        proof {
            assert forall|p: ProductType| p.spec_code() != code@ by {
                assert(list@.contains(p));
            }
        }
        Err(ModisError::ParseError)
    }
}

impl From<ProductType> for &'static str {
    /// The code of `product`.
    fn from(product: ProductType) -> (code: &'static str) {
        product.code()
    }
}

impl vstd::std_specs::convert::FromSpecImpl<ProductType> for &'static str {
    open spec fn obeys_from_spec() -> bool {
        true
    }

    open spec fn from_spec(product: ProductType) -> &'static str {
        product.spec_text()
    }
}

/// Two products with the same code are the same product.
pub proof fn lemma_codes_distinct(p: ProductType, q: ProductType)
    requires
        p.spec_code() == q.spec_code(),
    ensures
        p == q,
{
    reveal_strlit("Daymet");
    reveal_strlit("ECO4ESIPTJPL");
    reveal_strlit("ECO4WUE");
    reveal_strlit("GEDI03");
    reveal_strlit("GEDI04_B");
    reveal_strlit("MCD12Q1");
    reveal_strlit("MCD12Q2");
    reveal_strlit("MCD15A2H");
    reveal_strlit("MCD15A3H");
    reveal_strlit("MCD43A");
    reveal_strlit("MCD43A1");
    reveal_strlit("MCD43A4");
    reveal_strlit("MCD64A1");
    reveal_strlit("MOD09A1");
    reveal_strlit("MOD11A2");
    reveal_strlit("MOD13Q1");
    reveal_strlit("MOD14A2");
    reveal_strlit("MOD15A2H");
    reveal_strlit("MOD16A2");
    reveal_strlit("MOD16A2GF");
    reveal_strlit("MOD17A2H");
    reveal_strlit("MOD17A2HGF");
    reveal_strlit("MOD17A3HGF");
    reveal_strlit("MOD21A2");
    reveal_strlit("MOD44B");
    reveal_strlit("MYD09A1");
    reveal_strlit("MYD11A2");
    reveal_strlit("MYD13Q1");
    reveal_strlit("MYD14A2");
    reveal_strlit("MYD15A2H");
    reveal_strlit("MYD16A2");
    reveal_strlit("MYD16A2GF");
    reveal_strlit("MYD17A2H");
    reveal_strlit("MYD17A2HGF");
    reveal_strlit("MYD17A3HGF");
    reveal_strlit("MYD21A2");
    reveal_strlit("SIF005");
    reveal_strlit("SIF_ANN");
    reveal_strlit("SPL3SMP_E");
    reveal_strlit("SPL4CMDL");
    reveal_strlit("VNP09A1");
    reveal_strlit("VNP09H1");
    reveal_strlit("VNP13A1");
    reveal_strlit("VNP15A2H");
    reveal_strlit("VNP21A2");
    reveal_strlit("VNP22Q2");
    let a = p.spec_code();
    let b = q.spec_code();
    assert(a.len() == b.len());
    assert(a[0] == b[0]);
    assert(a[1] == b[1]);
    assert(a[2] == b[2]);
    assert(a[3] == b[3]);
    assert(a[4] == b[4]);
    assert(a[5] == b[5]);
    assert(a[6] == b[6]);
    assert(a[7] == b[7]);
    assert(a[8] == b[8]);
    assert(a[9] == b[9]);
    assert(a[10] == b[10]);
    assert(a[11] == b[11]);
}

/// Reading back the code of a product gives that product.
pub proof fn lemma_code_round_trip(p: ProductType)
    ensures
        ProductType::spec_from_code(p.spec_code()) == Some(p),
{
    let q = choose|q: ProductType| q.spec_code() == p.spec_code();
    lemma_codes_distinct(p, q);
}

/// A text that names a product is the code of that product.
pub proof fn lemma_from_code_sound(code: Seq<char>, p: ProductType)
    requires
        ProductType::spec_from_code(code) == Some(p),
    ensures
        p.spec_code() == code,
{
}

} // verus!
