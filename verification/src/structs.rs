//! The records that the service returns.

use crate::product_type::ProductType;
use vstd::prelude::*;

verus! {

/// One date on which a product was observed.
#[derive(Debug)]
pub struct DateInfo {
    /// The date in the service's own notation.
    pub modis_date: String,
    /// The same date in the calendar's notation.
    pub calendar_date: String,
}

/// What a `DateInfo` holds.
pub struct DateInfoView {
    pub modis_date: Seq<char>,
    pub calendar_date: Seq<char>,
}

impl View for DateInfo {
    type V = DateInfoView;

    open spec fn view(&self) -> DateInfoView {
        DateInfoView { modis_date: self.modis_date@, calendar_date: self.calendar_date@ }
    }
}

impl Clone for DateInfo {
    fn clone(&self) -> (copy: DateInfo)
        ensures
            copy@ == self@,
    {
        DateInfo {
            modis_date: self.modis_date.clone(),
            calendar_date: self.calendar_date.clone(),
        }
    }
}

impl PartialEq for DateInfo {
    fn eq(&self, other: &DateInfo) -> (same: bool) {
        self.modis_date == other.modis_date && self.calendar_date == other.calendar_date
    }
}

impl vstd::std_specs::cmp::PartialEqSpecImpl for DateInfo {
    open spec fn obeys_eq_spec() -> bool {
        true
    }

    open spec fn eq_spec(&self, other: &DateInfo) -> bool {
        self@ == other@
    }
}

impl Eq for DateInfo {

}

/// The dates on which a product was observed at a point, oldest first.
#[derive(Debug)]
pub struct DatesWrapper {
    pub dates: Vec<DateInfo>,
}

impl View for DatesWrapper {
    type V = Seq<DateInfoView>;

    open spec fn view(&self) -> Seq<DateInfoView> {
        self.dates@.map_values(|d: DateInfo| d@)
    }
}

impl DatesWrapper {
    /// The most recent date: the last of the list, or `None` where the list
    /// is empty.
    pub fn latest(&self) -> (date: Option<&DateInfo>)
        ensures
            self@.len() == 0 ==> date is None,
            self@.len() > 0 ==> date == Some(&self.dates@.last()),
            date matches Some(d) ==> d@ == self@.last(),
    {
        let n = self.dates.len();
        if n == 0 {
            None
        } else {
            Some(&self.dates[n - 1])
        }
    }
}

/// One entry of the product catalogue.
#[derive(Debug)]
pub struct Product {
    pub product: ProductType,
    pub description: String,
    pub frequency: String,
    pub resolution_meters: u32,
}

/// The product catalogue.
#[derive(Debug)]
pub struct ProductsData {
    pub products: Vec<Product>,
}

/// A real number of a reply, carried by the bit pattern of its IEEE 754
/// double. The library hands it on and never computes with it.
#[derive(Debug, Clone, Copy, PartialEq, Eq, Structural)]
pub struct Real {
    pub bits: u64,
}

/// One monitoring site.
#[derive(Debug)]
pub struct Site {
    pub siteid: String,
    pub sitename: String,
    pub network: String,
    pub latitude: Real,
    pub longitude: Real,
    pub state: Option<String>,
    pub country: String,
}

/// The list of monitoring sites.
#[derive(Debug)]
pub struct Sites {
    pub sites: Vec<Site>,
}

/// One time slice of a subset: the cells of the grid on one date, row by row.
#[derive(Debug)]
pub struct Subset {
    pub modis_date: String,
    pub calendar_date: String,
    pub band: String,
    pub tile: String,
    pub proc_date: String,
    pub data: Vec<i32>,
}

/// A subset of a product: the grid's placement and size, and one `Subset` for
/// each date asked for.
#[derive(Debug)]
pub struct ModisData {
    pub xllcorner: String,
    pub yllcorner: String,
    pub cellsize: Real,
    pub nrows: i32,
    pub ncols: i32,
    pub band: String,
    pub units: String,
    pub scale: String,
    pub latitude: Real,
    pub longitude: Real,
    /// The URL of the request, as the service echoes it.
    pub header: String,
    pub subset: Vec<Subset>,
}

impl ModisData {
    /// The number of cells that each time slice must hold.
    pub open spec fn cell_count(&self) -> int {
        self.nrows * self.ncols
    }

    /// The grid has a size, and every time slice holds exactly one value for
    /// each cell.
    pub open spec fn well_formed(&self) -> bool {
        &&& 0 <= self.nrows
        &&& 0 <= self.ncols
        &&& forall|k: int|
            0 <= k < self.subset@.len() ==> (#[trigger] self.subset@[k]).data@.len()
                == self.cell_count()
    }

    /// Whether the record is well formed.
    pub fn is_well_formed(&self) -> (ok: bool)
        ensures
            ok == self.well_formed(),
    {
        if self.nrows < 0 || self.ncols < 0 {
            return false;
        }
        let rows = self.nrows as u64;
        let cols = self.ncols as u64;
        assert(rows * cols <= 0x7fff_ffff * 0x7fff_ffff) by (nonlinear_arith)
            requires
                rows <= 0x7fff_ffff,
                cols <= 0x7fff_ffff,
        ;
        let cells = rows * cols;
        let mut k: usize = 0;
        while k < self.subset.len()
            invariant
                k <= self.subset@.len(),
                0 <= self.nrows,
                0 <= self.ncols,
                cells == self.cell_count(),
                forall|j: int|
                    0 <= j < k ==> (#[trigger] self.subset@[j]).data@.len() == self.cell_count(),
            decreases self.subset@.len() - k,
        {
            if self.subset[k].data.len() as u64 != cells {
                assert(self.subset@[k as int].data@.len() != self.cell_count());
                return false;
            }
            k += 1;
        }
        true
    }
}

} // verus!
