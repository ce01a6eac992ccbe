//! The record export format: a fixed header line, then one comma-joined row
//! per barcode/device-line pair.
//!
//! Building the file's contents is pure and verified here; writing them to
//! disk is I/O and is done by the embedding program. Rows are zipped
//! positionally: a column shorter than the row count contributes an empty
//! cell for each missing entry. Embedded commas are not quoted or escaped (a
//! documented limitation of the format).

use vstd::prelude::*;
use vstd::string::StringExecFns;

verus! {

/// The fixed, ordered column names of the header line.
pub open spec fn spec_headers() -> Seq<Seq<char>> {
    seq!["Barcode"@, "Serial Number (HEX)"@, "Serial Number (DEC)"@, "Manufacture Date"@]
}

/// `fields` joined by the separator `sep`.
pub open spec fn spec_join(fields: Seq<Seq<char>>, sep: Seq<char>) -> Seq<char>
    decreases fields.len(),
{
    if fields.len() == 0 {
        Seq::empty()
    } else if fields.len() == 1 {
        fields[0]
    } else {
        fields[0] + sep + spec_join(fields.drop_first(), sep)
    }
}

/// Cell `i` of a column: its entry when the column is long enough, the empty
/// string for a missing entry.
pub open spec fn spec_cell(column: Seq<Seq<char>>, i: int) -> Seq<char> {
    if 0 <= i < column.len() {
        column[i]
    } else {
        Seq::empty()
    }
}

/// Row `i` of the export: the label cell and the device cell, comma-joined.
pub open spec fn spec_row(labels: Seq<Seq<char>>, device: Seq<Seq<char>>, i: int) -> Seq<char> {
    spec_cell(labels, i) + seq![','] + spec_cell(device, i)
}

/// How many rows the export has: the longer of the two columns.
pub open spec fn spec_row_count(labels: Seq<Seq<char>>, device: Seq<Seq<char>>) -> nat {
    if labels.len() >= device.len() {
        labels.len()
    } else {
        device.len()
    }
}

/// All rows of the export, in order.
pub open spec fn spec_rows(labels: Seq<Seq<char>>, device: Seq<Seq<char>>) -> Seq<Seq<char>> {
    Seq::new(spec_row_count(labels, device), |i: int| spec_row(labels, device, i))
}

/// The whole export: the comma-joined header line, a newline, then the rows
/// joined by newlines.
pub open spec fn spec_export(labels: Seq<Seq<char>>, device: Seq<Seq<char>>) -> Seq<char> {
    spec_join(spec_headers(), seq![',']) + seq!['\n'] + spec_join(
        spec_rows(labels, device),
        seq!['\n'],
    )
}

/// Joining grows at the back: appending a field appends a separator (when
/// the sequence was non-empty) and the field.
proof fn lemma_join_push(fields: Seq<Seq<char>>, x: Seq<char>, sep: Seq<char>)
    ensures
        fields.len() == 0 ==> spec_join(fields.push(x), sep) =~= x,
        fields.len() > 0 ==> spec_join(fields.push(x), sep) =~= spec_join(fields, sep) + sep + x,
    decreases fields.len(),
{
    if fields.len() == 0 {
        assert(spec_join(fields.push(x), sep) == fields.push(x)[0]);
        assert(fields.push(x)[0] =~= x);
    } else {
        let rest = fields.drop_first();
        assert(fields.push(x).drop_first() =~= rest.push(x));
        lemma_join_push(rest, x, sep);
        if fields.len() == 1 {
            assert(spec_join(fields.push(x), sep) =~= fields[0] + sep + x);
            assert(spec_join(fields, sep) == fields[0]);
        } else {
            assert(spec_join(fields.push(x), sep) =~= fields[0] + sep + (spec_join(rest, sep)
                + sep + x));
            assert(fields[0] + sep + (spec_join(rest, sep) + sep + x) =~= (fields[0] + sep
                + spec_join(rest, sep)) + sep + x);
        }
    }
}

/// The fixed column names of the header line.
pub fn headers() -> (r: Vec<String>)
    ensures
        r.deep_view() == spec_headers(),
{
    let mut r: Vec<String> = Vec::new();
    r.push("Barcode".to_owned());
    r.push("Serial Number (HEX)".to_owned());
    r.push("Serial Number (DEC)".to_owned());
    r.push("Manufacture Date".to_owned());
    proof {
        assert(r.deep_view() =~~= spec_headers());
    }
    r
}

/// `fields` joined by the separator `sep`, as [`spec_join`] says.
pub fn join(fields: &Vec<String>, sep: &str) -> (r: String)
    ensures
        r@ == spec_join(fields.deep_view(), sep@),
{
    let ghost model = fields.deep_view();
    let mut r = String::new();
    let mut i: usize = 0;
    while i < fields.len()
        invariant
            0 <= i <= fields@.len(),
            model == fields.deep_view(),
            model.len() == fields@.len(),
            r@ == spec_join(model.take(i as int), sep@),
        decreases fields@.len() - i,
    {
        proof {
            assert(model[i as int] == fields@[i as int].deep_view());
            assert(model.take(i + 1 as int) =~= model.take(i as int).push(model[i as int]));
            lemma_join_push(model.take(i as int), model[i as int], sep@);
        }
        if i > 0 {
            r.append(sep);
        }
        r.append(fields[i].as_str());
        i = i + 1;
    }
    proof {
        assert(model.take(model.len() as int) =~= model);
    }
    r
}

/// Build the export file's contents from the barcode labels and the device
/// output lines: the header line, then `spec_row_count` rows, one record per
/// line, fields comma-joined, a missing cell left empty.
pub fn export_csv(labels: &Vec<String>, device: &Vec<String>) -> (r: String)
    ensures
        r@ == spec_export(labels.deep_view(), device.deep_view()),
{
    let ghost l = labels.deep_view();
    let ghost d = device.deep_view();
    let header_names = headers();
    let mut out = join(&header_names, ",");
    proof {
        reveal_strlit(",");
        assert(","@ =~= seq![',']);
    }
    let row_count = if labels.len() >= device.len() {
        labels.len()
    } else {
        device.len()
    };
    let mut rows: Vec<String> = Vec::new();
    let mut i: usize = 0;
    while i < row_count
        invariant
            0 <= i <= row_count,
            l == labels.deep_view(),
            d == device.deep_view(),
            l.len() == labels@.len(),
            d.len() == device@.len(),
            row_count == spec_row_count(l, d),
            rows.deep_view() == spec_rows(l, d).take(i as int),
        decreases row_count - i,
    {
        let mut row = String::new();
        if i < labels.len() {
            row.append(labels[i].as_str());
        }
        row.append(",");
        if i < device.len() {
            row.append(device[i].as_str());
        }
        proof {
            reveal_strlit(",");
            assert(","@ =~= seq![',']);
            assert(row@ =~= spec_row(l, d, i as int));
            assert(spec_rows(l, d).take(i + 1 as int) =~= spec_rows(l, d).take(i as int).push(
                spec_rows(l, d)[i as int],
            ));
            assert(rows.deep_view().push(row@) =~~= spec_rows(l, d).take(i as int).push(
                spec_row(l, d, i as int),
            ));
        }
        rows.push(row);
        i = i + 1;
    }
    proof {
        assert(spec_rows(l, d).take(spec_rows(l, d).len() as int) =~= spec_rows(l, d));
    }
    out.append("\n");
    let body = join(&rows, "\n");
    out.append(body.as_str());
    proof {
        reveal_strlit("\n");
        assert("\n"@ =~= seq!['\n']);
    }
    out
}

} // verus!
