use vstd::prelude::*;

use crate::record::{MedicationView, Medication, Patient, PatientView};

verus! {

/// The bytes that one CSV record takes, terminator included, as the `csv`
/// crate's writer lays out `fields` with its default settings (comma
/// delimiter, quotes where a field needs them, `\n` after the record).
pub uninterp spec fn csv_record(fields: Seq<Seq<char>>) -> Seq<u8>;

/// `c` is ASCII and none of the characters that make the CSV writer quote a
/// field: comma, double quote, carriage return, line feed.
pub open spec fn is_plain_char(c: char) -> bool {
    (c as u32) < 128 && c != ',' && c != '"' && c != '\r' && c != '\n'
}

/// Every character of `f` is plain.
pub open spec fn is_plain_field(f: Seq<char>) -> bool {
    forall|i: int| 0 <= i < f.len() ==> is_plain_char(#[trigger] f[i])
}

/// Every field of a record is plain.
pub open spec fn is_plain_record(fields: Seq<Seq<char>>) -> bool {
    forall|j: int| 0 <= j < fields.len() ==> is_plain_field(#[trigger] fields[j])
}

/// The bytes of an ASCII text.
pub open spec fn ascii_bytes(f: Seq<char>) -> Seq<u8> {
    f.map_values(|c: char| (c as u32) as u8)
}

/// The fields as ASCII bytes, separated by commas.
pub open spec fn comma_joined(fields: Seq<Seq<char>>) -> Seq<u8>
    decreases fields.len(),
{
    if fields.len() == 0 {
        Seq::empty()
    } else if fields.len() == 1 {
        ascii_bytes(fields[0])
    } else {
        comma_joined(fields.drop_last()).push((',' as u32) as u8) + ascii_bytes(fields.last())
    }
}

/// A record of plain fields as the CSV writer lays it out: the fields
/// unquoted, separated by commas, then a line feed.
pub open spec fn plain_record(fields: Seq<Seq<char>>) -> Seq<u8> {
    comma_joined(fields).push(('\n' as u32) as u8)
}

/// `csv::Error`, carried unopened from the CSV writer to the export.
#[verifier::external_type_specification]
#[verifier::external_body]
pub struct ExCsvError(csv::Error);

/// Relies on `csv::Writer::from_writer`, `csv::Writer::write_record` and
/// `csv::Writer::into_inner`: a fresh writer over an empty `Vec<u8>` takes
/// one record, and what it has written is handed back. Writing succeeds: the
/// field-count check only records the count on a writer's first record, and
/// a `Vec<u8>` never reports an I/O error, so neither call fails. With the
/// default settings a field that holds no comma, quote, CR or LF is copied
/// unquoted, and a record of two or more fields is never written as `""`.
#[verifier::external_body]
fn encode_record(fields: &Vec<String>) -> (r: Result<Vec<u8>, csv::Error>)
    ensures
        r is Ok,
        r matches Ok(b) ==> b@ == csv_record(fields@.map_values(|f: String| f@)),
        r matches Ok(b) ==> (fields@.len() >= 2 && is_plain_record(
            fields@.map_values(|f: String| f@),
        ) ==> b@ == plain_record(fields@.map_values(|f: String| f@))),
{
    let mut writer = csv::Writer::from_writer(Vec::new());
    writer.write_record(fields)?;
    match writer.into_inner() {
        Ok(bytes) => Ok(bytes),
        Err(e) => Err(csv::Error::from(e.into_error())),
    }
}

/// The decimal digit `d` as a character.
pub open spec fn digit_char(d: nat) -> char {
    seq!['0', '1', '2', '3', '4', '5', '6', '7', '8', '9'][d as int]
}

/// `n` written in decimal, without sign or leading zeros.
pub open spec fn decimal(n: nat) -> Seq<char>
    decreases n,
{
    if n < 10 {
        seq![digit_char(n)]
    } else {
        decimal(n / 10).push(digit_char(n % 10))
    }
}

/// One medication as the export shows it: `name (schedule)`.
pub open spec fn medication_entry(m: MedicationView) -> Seq<char> {
    m.name + seq![' ', '('] + m.schedule + seq![')']
}

/// The medications of a patient as one field: the entries joined by `; `,
/// empty when there are none.
pub open spec fn medications_field(ms: Seq<MedicationView>) -> Seq<char>
    decreases ms.len(),
{
    if ms.len() == 0 {
        Seq::empty()
    } else if ms.len() == 1 {
        medication_entry(ms[0])
    } else {
        medications_field(ms.drop_last()) + seq![';', ' '] + medication_entry(ms.last())
    }
}

/// The column names of an export.
pub open spec fn header_fields() -> Seq<Seq<char>> {
    seq!["Patient ID"@, "Name"@, "Age"@, "Gender"@, "Disease"@, "Medications"@]
}

/// The fields of the row of one patient.
pub open spec fn patient_fields(p: PatientView) -> Seq<Seq<char>> {
    seq![p.id, p.name, decimal(p.age), p.gender, p.disease, medications_field(p.medications)]
}

/// The records of an export: the header, then one row per patient in order.
pub open spec fn export_table(ps: Seq<PatientView>) -> Seq<Seq<Seq<char>>> {
    seq![header_fields()] + ps.map_values(|p: PatientView| patient_fields(p))
}

/// The bytes of an export: each record of the table encoded, one after another.
pub open spec fn csv_document(ps: Seq<PatientView>) -> Seq<u8> {
    export_table(ps).map_values(|row: Seq<Seq<char>>| csv_record(row)).flatten()
}

/// The bytes of an export whose fields are all plain: each record unquoted.
pub open spec fn plain_document(ps: Seq<PatientView>) -> Seq<u8> {
    export_table(ps).map_values(|row: Seq<Seq<char>>| plain_record(row)).flatten()
}

/// Every field of every patient's row is plain.
pub open spec fn all_rows_plain(ps: Seq<PatientView>) -> bool {
    forall|i: int| 0 <= i < ps.len() ==> is_plain_record(patient_fields(#[trigger] ps[i]))
}

/// The column names hold no character that needs quoting.
pub proof fn lemma_header_is_plain()
    ensures
        is_plain_record(header_fields()),
{
    reveal_strlit("Patient ID");
    reveal_strlit("Name");
    reveal_strlit("Age");
    reveal_strlit("Gender");
    reveal_strlit("Disease");
    reveal_strlit("Medications");
    let h = header_fields();
    assert(h[0] =~= seq!['P', 'a', 't', 'i', 'e', 'n', 't', ' ', 'I', 'D']);
    assert(h[1] =~= seq!['N', 'a', 'm', 'e']);
    assert(h[2] =~= seq!['A', 'g', 'e']);
    assert(h[3] =~= seq!['G', 'e', 'n', 'd', 'e', 'r']);
    assert(h[4] =~= seq!['D', 'i', 's', 'e', 'a', 's', 'e']);
    assert(h[5] =~= seq!['M', 'e', 'd', 'i', 'c', 'a', 't', 'i', 'o', 'n', 's']);
    assert forall|j: int| 0 <= j < h.len() implies is_plain_field(#[trigger] h[j]) by {
        assert forall|i: int| 0 <= i < h[j].len() implies is_plain_char(#[trigger] h[j][i]) by {
            assert(0 <= j < 6);
        }
    }
}

fn digit_text(d: u32) -> (r: &'static str)
    requires
        d < 10,
    ensures
        r@ == seq![digit_char(d as nat)],
{
    proof {
        reveal_strlit("0");
        reveal_strlit("1");
        reveal_strlit("2");
        reveal_strlit("3");
        reveal_strlit("4");
        reveal_strlit("5");
        reveal_strlit("6");
        reveal_strlit("7");
        reveal_strlit("8");
        reveal_strlit("9");
    }
    if d == 0 {
        assert("0"@ =~= seq![digit_char(0)]);
        "0"
    } else if d == 1 {
        assert("1"@ =~= seq![digit_char(1)]);
        "1"
    } else if d == 2 {
        assert("2"@ =~= seq![digit_char(2)]);
        "2"
    } else if d == 3 {
        assert("3"@ =~= seq![digit_char(3)]);
        "3"
    } else if d == 4 {
        assert("4"@ =~= seq![digit_char(4)]);
        "4"
    } else if d == 5 {
        assert("5"@ =~= seq![digit_char(5)]);
        "5"
    } else if d == 6 {
        assert("6"@ =~= seq![digit_char(6)]);
        "6"
    } else if d == 7 {
        assert("7"@ =~= seq![digit_char(7)]);
        "7"
    } else if d == 8 {
        assert("8"@ =~= seq![digit_char(8)]);
        "8"
    } else {
        assert("9"@ =~= seq![digit_char(9)]);
        "9"
    }
}

fn append_decimal(out: &mut String, n: u32)
    ensures
        final(out)@ == old(out)@ + decimal(n as nat),
    decreases n,
{
    if n >= 10 {
        append_decimal(out, n / 10);
    }
    out.append(digit_text(n % 10));
    assert(final(out)@ =~= old(out)@ + decimal(n as nat));
}

/// `n` as a decimal string.
pub fn decimal_text(n: u32) -> (r: String)
    ensures
        r@ == decimal(n as nat),
{
    let mut out = String::new();
    append_decimal(&mut out, n);
    assert(out@ =~= decimal(n as nat));
    out
}

/// The Medications field of a patient: each medication as `name (schedule)`,
/// joined by `; `.
pub fn medications_text(ms: &Vec<Medication>) -> (r: String)
    ensures
        r@ == medications_field(ms@.map_values(|m: Medication| m@)),
{
    let ghost view = ms@.map_values(|m: Medication| m@);
    proof {
        reveal_strlit("; ");
        reveal_strlit(" (");
        reveal_strlit(")");
        assert("; "@ =~= seq![';', ' ']);
        assert(" ("@ =~= seq![' ', '(']);
        assert(")"@ =~= seq![')']);
    }
    let mut out = String::new();
    let mut i: usize = 0;
    assert(view.take(0) =~= Seq::<MedicationView>::empty());
    while i < ms.len()
        invariant
            0 <= i <= ms@.len(),
            view == ms@.map_values(|m: Medication| m@),
            out@ == medications_field(view.take(i as int)),
            "; "@ == seq![';', ' '],
            " ("@ == seq![' ', '('],
            ")"@ == seq![')'],
        decreases ms@.len() - i,
    {
        let ghost prev = out@;
        if i > 0 {
            out.append("; ");
        }
        out.append(ms[i].name.as_str());
        out.append(" (");
        out.append(ms[i].schedule.as_str());
        out.append(")");
        proof {
            let next = view.take(i + 1);
            assert(view[i as int] == ms@[i as int]@);
            assert(next.drop_last() =~= view.take(i as int));
            assert(next.last() == view[i as int]);
            if i == 0 {
                assert(out@ =~= medication_entry(view[0]));
            } else {
                assert(out@ =~= prev + seq![';', ' '] + medication_entry(view[i as int]));
            }
        }
        i = i + 1;
    }
    assert(view.take(ms@.len() as int) =~= view);
    out
}

/// The column names of an export, as strings.
pub fn header_row() -> (r: Vec<String>)
    ensures
        r@.map_values(|f: String| f@) == header_fields(),
{
    let r = vec![
        String::from_str("Patient ID"),
        String::from_str("Name"),
        String::from_str("Age"),
        String::from_str("Gender"),
        String::from_str("Disease"),
        String::from_str("Medications"),
    ];
    assert(r@.map_values(|f: String| f@) =~= header_fields());
    r
}

/// The row of one patient: ID, name, age in decimal, gender, disease and the
/// Medications field.
pub fn patient_row(p: &Patient) -> (r: Vec<String>)
    ensures
        r@.map_values(|f: String| f@) == patient_fields(p@),
{
    let r = vec![
        p.id.clone(),
        p.name.clone(),
        decimal_text(p.age),
        p.gender.clone(),
        p.disease.clone(),
        medications_text(&p.medications),
    ];
    assert(r@.map_values(|f: String| f@) =~= patient_fields(p@));
    r
}

/// The encoded records laid end to end, in order.
pub fn join_records(records: Vec<Vec<u8>>) -> (r: Vec<u8>)
    ensures
        r@ == records@.map_values(|b: Vec<u8>| b@).flatten(),
{
    let ghost parts = records@.map_values(|b: Vec<u8>| b@);
    let mut out: Vec<u8> = Vec::new();
    let mut rest = records;
    let mut taken: Vec<Vec<u8>> = Vec::new();
    let mut i: usize = 0;
    let n = rest.len();
    assert(parts.take(0) =~= Seq::<Seq<u8>>::empty());
    while i < n
        invariant
            0 <= i <= n,
            n == parts.len(),
            rest@.len() == n,
            forall|j: int| i <= j < n ==> (#[trigger] rest@[j])@ == parts[j],
            out@ == parts.take(i as int).flatten(),
        decreases n - i,
    {
        let mut b: Vec<u8> = Vec::new();
        std::mem::swap(&mut b, &mut rest[i]);
        assert(b@ == parts[i as int]);
        out.append(&mut b);
        proof {
            assert(parts.take(i + 1) =~= parts.take(i as int).push(parts[i as int]));
            parts.take(i as int).lemma_flatten_push(parts[i as int]);
        }
        i = i + 1;
    }
    assert(parts.take(n as int) =~= parts);
    out
}

/// Encodes the patients as CSV: a header row, then one row per patient in
/// order. The bytes are those of each record as the CSV writer encodes it.
pub fn export_csv(patients: &Vec<Patient>) -> (r: Vec<u8>)
    ensures
        r@ == csv_document(patients@.map_values(|p: Patient| p@)),
        all_rows_plain(patients@.map_values(|p: Patient| p@)) ==> r@ == plain_document(
            patients@.map_values(|p: Patient| p@),
        ),
{
    let ghost ps = patients@.map_values(|p: Patient| p@);
    let ghost table = export_table(ps);
    let ghost encoded = table.map_values(|row: Seq<Seq<char>>| csv_record(row));
    let ghost plain = table.map_values(|row: Seq<Seq<char>>| plain_record(row));
    proof {
        lemma_header_is_plain();
    }
    let mut records: Vec<Vec<u8>> = Vec::new();
    match encode_record(&header_row()) {
        Ok(b) => records.push(b),
        Err(_) => {
            assert(false);
        },
    }
    let mut i: usize = 0;
    while i < patients.len()
        invariant
            0 <= i <= patients@.len(),
            ps == patients@.map_values(|p: Patient| p@),
            table == export_table(ps),
            encoded == table.map_values(|row: Seq<Seq<char>>| csv_record(row)),
            records@.map_values(|b: Vec<u8>| b@) == encoded.take(i + 1),
            plain == table.map_values(|row: Seq<Seq<char>>| plain_record(row)),
            all_rows_plain(ps) ==> encoded.take(i + 1) == plain.take(i + 1),
        decreases patients@.len() - i,
    {
        let encoded_row = encode_record(&patient_row(&patients[i]));
        let b = match encoded_row {
            Ok(b) => b,
            Err(_) => {
                assert(false);
                Vec::new()
            },
        };
        assert(table[i + 1] == patient_fields(ps[i as int]));
        assert(b@ == encoded[i + 1]);
        proof {
            if all_rows_plain(ps) {
                assert(is_plain_record(patient_fields(ps[i as int])));
                assert(encoded[i + 1] == plain[i + 1]);
                assert(encoded.take(i + 2) =~= plain.take(i + 2)) by {
                    assert(encoded.take(i + 1) == plain.take(i + 1));
                    assert forall|j: int| 0 <= j < i + 1 implies encoded[j] == plain[j] by {
                        assert(encoded.take(i + 1)[j] == plain.take(i + 1)[j]);
                    }
                }
            }
        }
        let ghost prev = records@;
        records.push(b);
        assert(records@.map_values(|b: Vec<u8>| b@) =~= prev.map_values(|b: Vec<u8>| b@).push(
            encoded[i + 1],
        ));
        assert(encoded.take(i + 2) =~= encoded.take(i + 1).push(encoded[i + 1]));
        assert(records@.map_values(|b: Vec<u8>| b@) =~= encoded.take(i + 2));
        i = i + 1;
    }
    assert(encoded.take(patients@.len() as int + 1) =~= encoded);
    assert(plain.take(patients@.len() as int + 1) =~= plain);
    join_records(records)
}

} // verus!
