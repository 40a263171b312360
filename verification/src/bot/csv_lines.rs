use vstd::prelude::*;

verus! {

/// The line that the fields `fields` make in a file of comma-separated
/// values, line end included.
pub uninterp spec fn csv_line(fields: Seq<Seq<char>>) -> Seq<u8>;

/// `csv::Writer::write_record` of `fields` into a writer that
/// `Writer::from_writer` has made over an empty buffer, and the buffer as
/// `Writer::into_inner` hands it back; a failure of either comes back in
/// the words of its error.
///
/// Believed, not proved: the call succeeds, since a writer over a buffer in
/// memory that has written nothing yet takes a record of any number of
/// fields, and the bytes that come back are what `csv_line` names.
#[verifier::external_body]
pub(crate) fn csv_record(fields: &Vec<String>) -> (r: Result<Vec<u8>, String>)
    ensures
        r is Ok,
        r matches Ok(bytes) ==> bytes@ == csv_line(texts(fields@)),
{
    let mut writer = csv::Writer::from_writer(Vec::new());
    if let Err(e) = writer.write_record(fields) {
        return Err(e.to_string());
    }
    match writer.into_inner() {
        Ok(bytes) => Ok(bytes),
        Err(e) => Err(e.to_string()),
    }
}

/// The texts `fields` as sequences of characters.
pub open spec fn texts(fields: Seq<String>) -> Seq<Seq<char>> {
    fields.map_values(|field: String| field@)
}

} // verus!
