use sn_tracer::export::{export_csv, headers, join};

const HEADER: &str = "Barcode,Serial Number (HEX),Serial Number (DEC),Manufacture Date";

fn col(cells: &[&str]) -> Vec<String> {
    cells.iter().map(|s| s.to_string()).collect()
}

#[test]
fn header_names() {
    assert_eq!(
        headers(),
        col(&["Barcode", "Serial Number (HEX)", "Serial Number (DEC)", "Manufacture Date"])
    );
}

#[test]
fn join_with_separator() {
    assert_eq!(join(&col(&["a", "b", "c"]), ","), "a,b,c");
    assert_eq!(join(&col(&["solo"]), ","), "solo");
    assert_eq!(join(&Vec::new(), ","), "");
    assert_eq!(join(&col(&["x", "y"]), "\n"), "x\ny");
}

#[test]
fn three_records_with_one_missing_cell() {
    // Header line, then `A,x`, `B,y`, `C,` — the missing cell is empty.
    let out = export_csv(&col(&["A", "B", "C"]), &col(&["x", "y"]));
    assert_eq!(out, format!("{HEADER}\nA,x\nB,y\nC,"));
}

#[test]
fn device_column_may_be_the_longer_one() {
    let out = export_csv(&col(&["A"]), &col(&["x", "y"]));
    assert_eq!(out, format!("{HEADER}\nA,x\n,y"));
}

#[test]
fn no_records_exports_the_header_alone() {
    let out = export_csv(&Vec::new(), &Vec::new());
    assert_eq!(out, format!("{HEADER}\n"));
}

#[test]
fn embedded_commas_are_not_escaped() {
    // A documented limitation of the format.
    let out = export_csv(&col(&["a,b"]), &col(&["x"]));
    assert_eq!(out, format!("{HEADER}\na,b,x"));
}
