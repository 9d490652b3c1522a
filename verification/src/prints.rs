//! Print-job reference tables and the denormalized print report row.
//!
//! The report is a flat multi-table join: each print job is joined to its
//! material (and the material's brand), its printer (and the printer's
//! brand), and the gcode file that produced it, which references the owning
//! file record.

use vstd::prelude::*;
use vstd::string::StringExecFns;

use crate::pagination::{window, window_of};
use crate::store::{
    find_by, gcode_id_pred, has_file_id, lemma_find_by_characterizes, lemma_find_by_first,
    material_brand_id_pred, material_id_pred, printer_brand_id_pred, printer_id_pred, wf, Store,
    StoreView,
};

verus! {

/// A print job row; numeric process parameters may be absent.
#[derive(Clone, Copy, PartialEq, Eq, Structural, Debug)]
pub struct PrintJob {
    pub id: u128,
    pub material_id: u128,
    pub printer_id: u128,
    pub gcode_id: u128,
    /// Micrometres; a plain-value stand-in for a fractional millimetre size.
    pub nozzle_size_microns: Option<i32>,
    pub bed_temp_celsius: Option<i32>,
    pub extruder_temp: Option<i32>,
    pub successful: bool,
}

/// A filament material, referencing its brand.
#[derive(Debug)]
pub struct Material {
    pub id: u128,
    pub material_brand_id: u128,
    pub description: String,
    pub mat_type: String,
}

/// A material brand.
#[derive(Debug)]
pub struct MaterialBrand {
    pub id: u128,
    pub full_name: String,
}

/// A printer, referencing its brand.
#[derive(Debug)]
pub struct Printer {
    pub id: u128,
    pub printer_brand_id: u128,
    pub model: String,
}

/// A printer brand.
#[derive(Debug)]
pub struct PrinterBrand {
    pub id: u128,
    pub full_name: String,
}

/// A gcode row, referencing the file record it was generated from.
#[derive(Clone, Copy, PartialEq, Eq, Structural, Debug)]
pub struct Gcode {
    pub id: u128,
    pub file_id: u128,
}

/// A denormalized print report row. The display strings are concatenations
/// of brand and model fields; each is absent when its joins do not resolve.
#[derive(Debug)]
pub struct PrintModel {
    pub id: u128,
    pub nozzle_size_microns: Option<i32>,
    pub bed_temp_celsius: Option<i32>,
    pub extruder_temp: Option<i32>,
    pub successful: bool,
    /// Material brand name, a space, and the material description.
    pub filament: Option<String>,
    pub filament_type: Option<String>,
    /// Printer brand name, a space, and the printer model.
    pub printer: Option<String>,
    pub gcode_id: u128,
}

/// The mathematical value of a [`PrintModel`]: strings as character sequences.
pub struct PrintModelView {
    pub id: u128,
    pub nozzle_size_microns: Option<i32>,
    pub bed_temp_celsius: Option<i32>,
    pub extruder_temp: Option<i32>,
    pub successful: bool,
    pub filament: Option<Seq<char>>,
    pub filament_type: Option<Seq<char>>,
    pub printer: Option<Seq<char>>,
    pub gcode_id: u128,
}

impl View for PrintModel {
    type V = PrintModelView;

    open spec fn view(&self) -> PrintModelView {
        PrintModelView {
            id: self.id,
            nozzle_size_microns: self.nozzle_size_microns,
            bed_temp_celsius: self.bed_temp_celsius,
            extruder_temp: self.extruder_temp,
            successful: self.successful,
            filament: match self.filament {
                Some(s) => Some(s@),
                None => None,
            },
            filament_type: match self.filament_type {
                Some(s) => Some(s@),
                None => None,
            },
            printer: match self.printer {
                Some(s) => Some(s@),
                None => None,
            },
            gcode_id: self.gcode_id,
        }
    }
}

impl DeepView for PrintModel {
    type V = PrintModelView;

    open spec fn deep_view(&self) -> PrintModelView {
        self@
    }
}

// ---------------------------------------------------------------------------
// Lookups over the reference tables.
// ---------------------------------------------------------------------------

/// The gcode row with this identifier, if any.
pub open spec fn find_gcode(gcodes: Seq<Gcode>, id: u128) -> Option<Gcode> {
    find_by(gcodes, gcode_id_pred(id))
}

/// The material with this identifier, if any.
pub open spec fn find_material(materials: Seq<Material>, id: u128) -> Option<Material> {
    find_by(materials, material_id_pred(id))
}

/// The material brand with this identifier, if any.
pub open spec fn find_material_brand(brands: Seq<MaterialBrand>, id: u128) -> Option<
    MaterialBrand,
> {
    find_by(brands, material_brand_id_pred(id))
}

/// The printer with this identifier, if any.
pub open spec fn find_printer(printers: Seq<Printer>, id: u128) -> Option<Printer> {
    find_by(printers, printer_id_pred(id))
}

/// The printer brand with this identifier, if any.
pub open spec fn find_printer_brand(brands: Seq<PrinterBrand>, id: u128) -> Option<PrinterBrand> {
    find_by(brands, printer_brand_id_pred(id))
}

// ---------------------------------------------------------------------------
// The report projection.
// ---------------------------------------------------------------------------

/// The filament display string: the material brand's full name, a space,
/// and the material description; absent when either join fails.
pub open spec fn filament_of(s: StoreView, material_id: u128) -> Option<Seq<char>> {
    match find_material(s.materials, material_id) {
        Some(m) => match find_material_brand(s.material_brands, m.material_brand_id) {
            Some(b) => Some(b.full_name@ + " "@ + m.description@),
            None => None,
        },
        None => None,
    }
}

/// The filament type display string: the material's type; absent when the
/// material join fails.
pub open spec fn filament_type_of(s: StoreView, material_id: u128) -> Option<Seq<char>> {
    match find_material(s.materials, material_id) {
        Some(m) => Some(m.mat_type@),
        None => None,
    }
}

/// The printer display string: the printer brand's full name, a space, and
/// the printer model; absent when either join fails.
pub open spec fn printer_of(s: StoreView, printer_id: u128) -> Option<Seq<char>> {
    match find_printer(s.printers, printer_id) {
        Some(pr) => match find_printer_brand(s.printer_brands, pr.printer_brand_id) {
            Some(b) => Some(b.full_name@ + " "@ + pr.model@),
            None => None,
        },
        None => None,
    }
}

/// The report row of one print job.
pub open spec fn print_row_view(s: StoreView, p: PrintJob) -> PrintModelView {
    PrintModelView {
        id: p.id,
        nozzle_size_microns: p.nozzle_size_microns,
        bed_temp_celsius: p.bed_temp_celsius,
        extruder_temp: p.extruder_temp,
        successful: p.successful,
        filament: filament_of(s, p.material_id),
        filament_type: filament_type_of(s, p.material_id),
        printer: printer_of(s, p.printer_id),
        gcode_id: p.gcode_id,
    }
}

/// A print job appears in the report of `file_id` iff its gcode resolves
/// and references that file, and the file record exists.
pub open spec fn print_visible(s: StoreView, p: PrintJob, file_id: u128) -> bool {
    &&& find_gcode(s.gcodes, p.gcode_id) matches Some(g) && g.file_id == file_id
    &&& has_file_id(s.files, file_id)
}

/// The report rows contributed by `prints`, in stored order.
pub open spec fn print_rows_of(s: StoreView, prints: Seq<PrintJob>, file_id: u128) -> Seq<
    PrintModelView,
>
    decreases prints.len(),
{
    if prints.len() == 0 {
        Seq::empty()
    } else {
        let rest = print_rows_of(s, prints.drop_last(), file_id);
        if print_visible(s, prints.last(), file_id) {
            rest.push(print_row_view(s, prints.last()))
        } else {
            rest
        }
    }
}

/// The full report of one file before pagination.
pub open spec fn print_rows(s: StoreView, file_id: u128) -> Seq<PrintModelView> {
    print_rows_of(s, s.prints, file_id)
}

impl Store {
    /// The gcode row stored under `id`, if any.
    fn gcode_row(&self, id: u128) -> (r: Option<Gcode>)
        ensures
            r == find_gcode(self@.gcodes, id),
    {
        let mut i: usize = 0;
        while i < self.gcodes.len()
            invariant
                i <= self.gcodes@.len(),
                forall|k: int| 0 <= k < i ==> (#[trigger] self.gcodes@[k]).id != id,
            decreases self.gcodes@.len() - i,
        {
            let g = self.gcodes[i];
            if g.id == id {
                proof {
                    lemma_find_by_first(self.gcodes@, gcode_id_pred(id), i as int);
                }
                return Some(g);
            }
            i += 1;
        }
        proof {
            lemma_find_by_characterizes(self.gcodes@, gcode_id_pred(id));
        }
        None
    }

    /// The position of the material stored under `id`, if any.
    fn material_index(&self, id: u128) -> (r: Option<usize>)
        ensures
            r matches Some(i) ==> i < self@.materials.len() && find_material(self@.materials, id)
                == Some(self@.materials[i as int]),
            r is None ==> find_material(self@.materials, id) is None,
    {
        let mut i: usize = 0;
        while i < self.materials.len()
            invariant
                i <= self.materials@.len(),
                forall|k: int| 0 <= k < i ==> (#[trigger] self.materials@[k]).id != id,
            decreases self.materials@.len() - i,
        {
            if self.materials[i].id == id {
                proof {
                    lemma_find_by_first(self.materials@, material_id_pred(id), i as int);
                }
                return Some(i);
            }
            i += 1;
        }
        proof {
            lemma_find_by_characterizes(self.materials@, material_id_pred(id));
        }
        None
    }

    /// The position of the material brand stored under `id`, if any.
    fn material_brand_index(&self, id: u128) -> (r: Option<usize>)
        ensures
            r matches Some(i) ==> i < self@.material_brands.len() && find_material_brand(
                self@.material_brands,
                id,
            ) == Some(self@.material_brands[i as int]),
            r is None ==> find_material_brand(self@.material_brands, id) is None,
    {
        let mut i: usize = 0;
        while i < self.material_brands.len()
            invariant
                i <= self.material_brands@.len(),
                forall|k: int| 0 <= k < i ==> (#[trigger] self.material_brands@[k]).id != id,
            decreases self.material_brands@.len() - i,
        {
            if self.material_brands[i].id == id {
                proof {
                    lemma_find_by_first(self.material_brands@, material_brand_id_pred(id), i as int);
                }
                return Some(i);
            }
            i += 1;
        }
        proof {
            lemma_find_by_characterizes(self.material_brands@, material_brand_id_pred(id));
        }
        None
    }

    /// The position of the printer stored under `id`, if any.
    fn printer_index(&self, id: u128) -> (r: Option<usize>)
        ensures
            r matches Some(i) ==> i < self@.printers.len() && find_printer(self@.printers, id)
                == Some(self@.printers[i as int]),
            r is None ==> find_printer(self@.printers, id) is None,
    {
        let mut i: usize = 0;
        while i < self.printers.len()
            invariant
                i <= self.printers@.len(),
                forall|k: int| 0 <= k < i ==> (#[trigger] self.printers@[k]).id != id,
            decreases self.printers@.len() - i,
        {
            if self.printers[i].id == id {
                proof {
                    lemma_find_by_first(self.printers@, printer_id_pred(id), i as int);
                }
                return Some(i);
            }
            i += 1;
        }
        proof {
            lemma_find_by_characterizes(self.printers@, printer_id_pred(id));
        }
        None
    }

    /// The position of the printer brand stored under `id`, if any.
    fn printer_brand_index(&self, id: u128) -> (r: Option<usize>)
        ensures
            r matches Some(i) ==> i < self@.printer_brands.len() && find_printer_brand(
                self@.printer_brands,
                id,
            ) == Some(self@.printer_brands[i as int]),
            r is None ==> find_printer_brand(self@.printer_brands, id) is None,
    {
        let mut i: usize = 0;
        while i < self.printer_brands.len()
            invariant
                i <= self.printer_brands@.len(),
                forall|k: int| 0 <= k < i ==> (#[trigger] self.printer_brands@[k]).id != id,
            decreases self.printer_brands@.len() - i,
        {
            if self.printer_brands[i].id == id {
                proof {
                    lemma_find_by_first(self.printer_brands@, printer_brand_id_pred(id), i as int);
                }
                return Some(i);
            }
            i += 1;
        }
        proof {
            lemma_find_by_characterizes(self.printer_brands@, printer_brand_id_pred(id));
        }
        None
    }

    /// The filament display string of a material, if its joins resolve.
    fn filament_for(&self, material_id: u128) -> (r: Option<String>)
        ensures
            match r {
                Some(t) => filament_of(self@, material_id) == Some(t@),
                None => filament_of(self@, material_id) is None,
            },
    {
        match self.material_index(material_id) {
            Some(mi) => {
                match self.material_brand_index(self.materials[mi].material_brand_id) {
                    Some(bi) => {
                        let mut t = self.material_brands[bi].full_name.clone();
                        t.append(" ");
                        t.append(self.materials[mi].description.as_str());
                        Some(t)
                    },
                    None => None,
                }
            },
            None => None,
        }
    }

    /// The printer display string of a printer, if its joins resolve.
    fn printer_for(&self, printer_id: u128) -> (r: Option<String>)
        ensures
            match r {
                Some(t) => printer_of(self@, printer_id) == Some(t@),
                None => printer_of(self@, printer_id) is None,
            },
    {
        match self.printer_index(printer_id) {
            Some(pi) => {
                match self.printer_brand_index(self.printers[pi].printer_brand_id) {
                    Some(bi) => {
                        let mut t = self.printer_brands[bi].full_name.clone();
                        t.append(" ");
                        t.append(self.printers[pi].model.as_str());
                        Some(t)
                    },
                    None => None,
                }
            },
            None => None,
        }
    }

    /// The report row of one print job.
    fn make_print_row(&self, p: &PrintJob) -> (r: PrintModel)
        ensures
            r@ == print_row_view(self@, *p),
    {
        let filament = self.filament_for(p.material_id);
        let filament_type = match self.material_index(p.material_id) {
            Some(mi) => Some(self.materials[mi].mat_type.clone()),
            None => None,
        };
        let printer = self.printer_for(p.printer_id);
        PrintModel {
            id: p.id,
            nozzle_size_microns: p.nozzle_size_microns,
            bed_temp_celsius: p.bed_temp_celsius,
            extruder_temp: p.extruder_temp,
            successful: p.successful,
            filament,
            filament_type,
            printer,
            gcode_id: p.gcode_id,
        }
    }

    /// The requested page of the print report of one file: every print job
    /// whose gcode references the file, joined to its display strings, in
    /// stored order.
    pub fn print_report(&self, file_id: u128, page: usize, limit: usize) -> (r: Vec<PrintModel>)
        requires
            page >= 1,
            limit >= 1,
        ensures
            r.deep_view() == window_of(print_rows(self@, file_id), page as int, limit as int),
    {
        let mut all: Vec<PrintModel> = Vec::new();
        let mut i: usize = 0;
        while i < self.prints.len()
            invariant
                i <= self.prints@.len(),
                all.deep_view() == print_rows_of(
                    self@,
                    self.prints@.subrange(0, i as int),
                    file_id,
                ),
            decreases self.prints@.len() - i,
        {
            let p = self.prints[i];
            let ghost before = all.deep_view();
            match self.gcode_row(p.gcode_id) {
                Some(g) => {
                    if g.file_id == file_id && self.file_index(file_id).is_some() {
                        let row = self.make_print_row(&p);
                        all.push(row);
                        proof {
                            assert(all.deep_view() =~= before.push(print_row_view(self@, p)));
                        }
                    }
                },
                None => {},
            }
            proof {
                assert(self.prints@.subrange(0, i + 1).drop_last() =~= self.prints@.subrange(
                    0,
                    i as int,
                ));
                assert(self.prints@.subrange(0, i + 1).last() == self.prints@[i as int]);
            }
            i += 1;
        }
        proof {
            assert(self.prints@.subrange(0, self.prints@.len() as int) =~= self.prints@);
        }
        let ghost full = all.deep_view();
        let r = window(all, page, limit);
        proof {
            assert(r.deep_view() =~= window_of(full, page as int, limit as int));
        }
        r
    }

    /// Inserts a print job row.
    pub fn add_print(&mut self, p: PrintJob)
        requires
            wf(old(self)@),
        ensures
            wf(final(self)@),
            final(self)@ == (StoreView { prints: old(self)@.prints.push(p), ..old(self)@ }),
    {
        self.prints.push(p);
    }

    /// Inserts a material row.
    pub fn add_material(&mut self, m: Material)
        requires
            wf(old(self)@),
        ensures
            wf(final(self)@),
            final(self)@ == (StoreView { materials: old(self)@.materials.push(m), ..old(self)@ }),
    {
        self.materials.push(m);
    }

    /// Inserts a material brand row.
    pub fn add_material_brand(&mut self, b: MaterialBrand)
        requires
            wf(old(self)@),
        ensures
            wf(final(self)@),
            final(self)@ == (StoreView {
                material_brands: old(self)@.material_brands.push(b),
                ..old(self)@
            }),
    {
        self.material_brands.push(b);
    }

    /// Inserts a printer row.
    pub fn add_printer(&mut self, p: Printer)
        requires
            wf(old(self)@),
        ensures
            wf(final(self)@),
            final(self)@ == (StoreView { printers: old(self)@.printers.push(p), ..old(self)@ }),
    {
        self.printers.push(p);
    }

    /// Inserts a printer brand row.
    pub fn add_printer_brand(&mut self, b: PrinterBrand)
        requires
            wf(old(self)@),
        ensures
            wf(final(self)@),
            final(self)@ == (StoreView {
                printer_brands: old(self)@.printer_brands.push(b),
                ..old(self)@
            }),
    {
        self.printer_brands.push(b);
    }

    /// Inserts a gcode row.
    pub fn add_gcode(&mut self, g: Gcode)
        requires
            wf(old(self)@),
        ensures
            wf(final(self)@),
            final(self)@ == (StoreView { gcodes: old(self)@.gcodes.push(g), ..old(self)@ }),
    {
        self.gcodes.push(g);
    }
}

} // verus!
