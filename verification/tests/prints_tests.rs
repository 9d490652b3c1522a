use file_visibility::model::{CreateFile, CreateUser};
use file_visibility::prints::{Gcode, Material, MaterialBrand, PrintJob, Printer, PrinterBrand};
use file_visibility::store::Store;

fn store_with_file(file_id: u128) -> Store {
    let mut st = Store::new();
    let cu = CreateUser {
        user_name: String::from("alice"),
        mail: String::from("alice@example.org"),
    };
    st.create_user_with_id(1, &cu).unwrap();
    let body = CreateFile {
        fullname: format!("file{}.stl", file_id),
        sizebytes: 10,
        owner_user_id: 1,
        is_downloadable: true,
        is_public: true,
    };
    st.create_file_with_id(file_id, 0, &body).unwrap();
    st
}

fn job(id: u128, material: u128, printer: u128, gcode: u128) -> PrintJob {
    PrintJob {
        id,
        material_id: material,
        printer_id: printer,
        gcode_id: gcode,
        nozzle_size_microns: Some(400),
        bed_temp_celsius: Some(60),
        extruder_temp: Some(210),
        successful: true,
    }
}

#[test]
fn print_report_joins_display_strings() {
    let mut st = store_with_file(10);
    st.add_material_brand(MaterialBrand {
        id: 300,
        full_name: String::from("Prusament"),
    });
    st.add_material(Material {
        id: 200,
        material_brand_id: 300,
        description: String::from("Galaxy Black"),
        mat_type: String::from("PLA"),
    });
    st.add_printer_brand(PrinterBrand {
        id: 500,
        full_name: String::from("Prusa"),
    });
    st.add_printer(Printer {
        id: 400,
        printer_brand_id: 500,
        model: String::from("MK4"),
    });
    st.add_gcode(Gcode { id: 600, file_id: 10 });
    st.add_print(job(700, 200, 400, 600));

    let rows = st.print_report(10, 1, 10);
    assert_eq!(rows.len(), 1);
    assert_eq!(rows[0].id, 700);
    assert_eq!(rows[0].gcode_id, 600);
    assert_eq!(rows[0].filament.as_deref(), Some("Prusament Galaxy Black"));
    assert_eq!(rows[0].filament_type.as_deref(), Some("PLA"));
    assert_eq!(rows[0].printer.as_deref(), Some("Prusa MK4"));
    assert_eq!(rows[0].nozzle_size_microns, Some(400));
    assert!(rows[0].successful);
}

#[test]
fn print_report_leaves_unresolvable_joins_absent() {
    let mut st = store_with_file(10);
    st.add_gcode(Gcode { id: 600, file_id: 10 });
    // The material and printer references resolve to nothing.
    st.add_print(job(700, 200, 400, 600));
    let rows = st.print_report(10, 1, 10);
    assert_eq!(rows.len(), 1);
    assert!(rows[0].filament.is_none());
    assert!(rows[0].filament_type.is_none());
    assert!(rows[0].printer.is_none());
}

#[test]
fn print_report_filters_by_owning_file() {
    let mut st = store_with_file(10);
    let body = CreateFile {
        fullname: String::from("other.stl"),
        sizebytes: 10,
        owner_user_id: 1,
        is_downloadable: true,
        is_public: true,
    };
    st.create_file_with_id(11, 0, &body).unwrap();
    st.add_gcode(Gcode { id: 600, file_id: 10 });
    st.add_gcode(Gcode { id: 601, file_id: 11 });
    st.add_print(job(700, 0, 0, 600));
    st.add_print(job(701, 0, 0, 601));
    // A job whose gcode reference resolves to nothing never appears.
    st.add_print(job(702, 0, 0, 999));

    let rows10 = st.print_report(10, 1, 10);
    assert_eq!(rows10.len(), 1);
    assert_eq!(rows10[0].id, 700);
    let rows11 = st.print_report(11, 1, 10);
    assert_eq!(rows11.len(), 1);
    assert_eq!(rows11[0].id, 701);
    // The report of an absent file is empty.
    assert!(st.print_report(99, 1, 10).is_empty());
}

#[test]
fn print_report_paginates_in_stored_order() {
    let mut st = store_with_file(10);
    st.add_gcode(Gcode { id: 600, file_id: 10 });
    for k in 0..5u32 {
        st.add_print(job(700 + k as u128, 0, 0, 600));
    }
    let rows = st.print_report(10, 2, 2);
    assert_eq!(rows.len(), 2);
    assert_eq!(rows[0].id, 702);
    assert_eq!(rows[1].id, 703);
}
