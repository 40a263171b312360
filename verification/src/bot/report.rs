use crate::bot::csv_lines::{csv_line, csv_record, texts};
use crate::bot::keyboards::{service_label, service_to_str};
use crate::domain::error::Error;
use crate::numerals::{decimal, decimal_text};
use crate::time::calendar::{clock, clock_text, dotted_date, dotted_date_text};
use crate::usecases::dto::ReservationDTO;
use vstd::prelude::*;
use vstd::string::StringExecFns;

verus! {

/// The byte-order mark with which the report begins, so that spreadsheets
/// read it as UTF-8.
pub open spec fn byte_order_mark() -> Seq<u8> {
    seq![0xEFu8, 0xBBu8, 0xBFu8]
}

/// The titles of the columns of the report.
pub open spec fn header() -> Seq<Seq<char>> {
    seq![
        "#"@,
        "Начало"@,
        "Конец"@,
        "Услуга"@,
        "Telegram"@,
        "ФИО (лат)"@,
        "ФИО (кир)"@,
        "Гражданство"@,
        "Дата прибытия"@,
    ]
}

/// The fields of the row with the number `number` that shows the
/// reservation `r`: the number, start and end of the slot as times of day,
/// the label of the service, the link to the user's chat, the two names, the
/// citizenship and the day of arrival.
pub open spec fn record(number: int, r: ReservationDTO) -> Seq<Seq<char>> {
    seq![
        decimal_text(number),
        clock_text(r.slot_start.time_spec()@ / 1_000_000_000),
        clock_text(r.slot_end.time_spec()@ / 1_000_000_000),
        service_label(r.service),
        "t.me/"@ + r.username@ + "/"@,
        r.user_name_lat@,
        r.user_name_cyr@,
        r.citizenship.name(),
        dotted_date_text(r.arrival_date@),
    ]
}

/// The report of the first `n` of the reservations `rs`, as bytes: the
/// byte-order mark, the line of titles, and one line for each reservation,
/// numbered from 1.
pub open spec fn report(rs: Seq<ReservationDTO>, n: int) -> Seq<u8>
    decreases n,
{
    if n <= 0 {
        byte_order_mark() + csv_line(header())
    } else {
        report(rs, n - 1) + csv_line(record(n, rs[n - 1]))
    }
}

fn titles() -> (r: Vec<String>)
    ensures
        texts(r@) == header(),
{
    let mut fields: Vec<String> = Vec::new();
    fields.push(String::from_str("#"));
    fields.push(String::from_str("Начало"));
    fields.push(String::from_str("Конец"));
    fields.push(String::from_str("Услуга"));
    fields.push(String::from_str("Telegram"));
    fields.push(String::from_str("ФИО (лат)"));
    fields.push(String::from_str("ФИО (кир)"));
    fields.push(String::from_str("Гражданство"));
    fields.push(String::from_str("Дата прибытия"));
    proof {
        assert(texts(fields@) =~= header());
    }
    fields
}

/// The fields of the row with the number `number` that shows the reservation
/// `r`.
pub fn report_record(number: usize, r: &ReservationDTO) -> (fields: Vec<String>)
    ensures
        texts(fields@) == record(number as int, *r),
{
    proof {
        use_type_invariant(&r.arrival_date);
    }
    let mut fields: Vec<String> = Vec::new();
    fields.push(decimal(number as i128));
    fields.push(clock(r.slot_start.time().num_seconds_from_midnight()));
    fields.push(clock(r.slot_end.time().num_seconds_from_midnight()));
    fields.push(String::from_str(service_to_str(&r.service)));
    fields.push(String::from_str("t.me/").concat(r.username.as_str()).concat("/"));
    fields.push(r.user_name_lat.clone());
    fields.push(r.user_name_cyr.clone());
    fields.push(r.citizenship.as_str().to_owned());
    fields.push(dotted_date(r.arrival_date.to_epoch_days()));
    proof {
        assert(texts(fields@) =~= record(number as int, *r));
    }
    fields
}

fn append(bytes: &mut Vec<u8>, line: Vec<u8>)
    ensures
        final(bytes)@ == old(bytes)@ + line@,
{
    let mut line: Vec<u8> = line;
    bytes.append(&mut line);
}

/// The report of the reservations `rs` as a file of comma-separated values:
/// after the byte-order mark, the line of titles and one line for each
/// reservation, numbered from 1.
///
/// Always succeeds: the writer of a line writes into memory and takes any
/// fields.
pub fn generate_csv(rs: &Vec<ReservationDTO>) -> (r: Result<Vec<u8>, Error>)
    ensures
        r matches Ok(bytes) && bytes@ == report(rs@, rs@.len() as int),
{
    let mut buffer: Vec<u8> = Vec::new();
    buffer.push(0xEF);
    buffer.push(0xBB);
    buffer.push(0xBF);
    proof {
        assert(buffer@ =~= byte_order_mark());
    }
    match csv_record(&titles()) {
        Ok(line) => {
            append(&mut buffer, line);
        },
        Err(e) => {
            return Err(Error::Other(e));
        },
    }
    let mut i: usize = 0;
    while i < rs.len()
        invariant
            i <= rs@.len(),
            buffer@ == report(rs@, i as int),
        decreases rs@.len() - i,
    {
        match csv_record(&report_record(i + 1, &rs[i])) {
            Ok(line) => {
                append(&mut buffer, line);
            },
            Err(e) => {
                return Err(Error::Other(e));
            },
        }
        i += 1;
    }
    Ok(buffer)
}

} // verus!
