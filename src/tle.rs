use crate::enums::{classification_of_code, trim_of, trimmed, Classification};
use crate::saal::{lossy_text, padded_field, text_of, GetSetString};
use vstd::prelude::*;
use vstd::string::{is_ascii, StrSliceExecFns, StringExecFns, StringSliceAdditionalSpecFns};
use vstd::utf8::encode_utf8;

verus! {

/// Offset of the classification letter in an element set's text fields.
pub const XS_TLE_SECCLASS_0_1: usize = 0;

/// Offset of the international designator in an element set's text fields.
pub const XS_TLE_SATNAME_1_12: usize = 1;

/// Width of the international designator field.
pub const XS_TLE_SATNAME_WIDTH: usize = 12;

/// The name a title line gives: the line trimmed, without a leading `"0 "`
/// marker where it has one.
pub open spec fn name_of_title(line: Seq<char>) -> Seq<char> {
    if line.len() >= 2 && line[0] == '0' && line[1] == ' ' {
        trim_of(line.subrange(2, line.len() as int))
    } else {
        trim_of(line)
    }
}

/// The satellite name held by the title line of a three-line element set.
pub fn name_from_title_line(line: &str) -> (r: String)
    ensures
        r@ == name_of_title(line@),
{
    let n = line.unicode_len();
    if n >= 2 && line.get_char(0) == '0' && line.get_char(1) == ' ' {
        String::from_str(trimmed(line.substring_char(2, n)))
    } else {
        String::from_str(trimmed(line))
    }
}

/// The text fields the propagation library stores for an element set: the
/// classification letter followed by the designator, in a field of fixed
/// capacity.
pub fn xs_tle_text(classification: Classification, designator: &str) -> (r: String)
    ensures
        r@ == lossy_text(
            text_of(padded_field(encode_utf8(classification.spec_as_char()@ + designator@))),
        ),
{
    let mut text = String::from_str(classification.as_char());
    text.append(designator);
    let field = GetSetString::from_string(text.as_str());
    field.value()
}

/// Reads the classification and the designator back from an element set's
/// text fields.
pub fn text_fields(xs: &str) -> (r: Result<(Classification, String), String>)
    requires
        is_ascii(xs),
        xs@.len() >= XS_TLE_SATNAME_1_12 + XS_TLE_SATNAME_WIDTH,
    ensures
        match classification_of_code(trim_of(xs@.subrange(0, 1))) {
            Some(c) => r matches Ok(f) && f.0 == c && f.1@ == trim_of(xs@.subrange(1, 13)),
            None => r is Err,
        },
{
    let code = xs.substring_ascii(XS_TLE_SECCLASS_0_1, XS_TLE_SECCLASS_0_1 + 1);
    let designator = xs.substring_ascii(
        XS_TLE_SATNAME_1_12,
        XS_TLE_SATNAME_1_12 + XS_TLE_SATNAME_WIDTH,
    );
    match Classification::from_text(code) {
        Ok(c) => Ok((c, String::from_str(trimmed(designator)))),
        Err(e) => Err(e),
    }
}

} // verus!
