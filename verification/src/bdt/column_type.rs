use crate::bdt::slot::{slot_family, slot_name, SlotFamily, SLOT_COUNT};
use crate::error::BdtError;
use vstd::prelude::*;

verus! {

/// The semantic type of a column, classified from its slot reference code.
#[derive(Debug, PartialEq)]
pub enum ColumnType {
    /// The slot holds an optional calendar date.
    Date,
    /// The slot holds a string; the empty string means absent.
    Text,
    /// The slot holds an optional numeric payload.
    Num,
    /// The slot references an external codification list.
    Cdf { codificator_id: String, select_params: String },
}

impl Clone for ColumnType {
    fn clone(&self) -> (r: Self)
        ensures
            r == *self,
    {
        match self {
            ColumnType::Date => ColumnType::Date,
            ColumnType::Text => ColumnType::Text,
            ColumnType::Num => ColumnType::Num,
            ColumnType::Cdf { codificator_id, select_params } => ColumnType::Cdf {
                codificator_id: codificator_id.clone(),
                select_params: select_params.clone(),
            },
        }
    }
}

impl Default for ColumnType {
    /// Text is the column type used when none is derived.
    fn default() -> (r: Self)
        ensures
            r == ColumnType::Text,
    {
        ColumnType::Text
    }
}

/// `c` is a decimal digit.
pub open spec fn is_digit(c: char) -> bool {
    '0' as u32 <= c as u32 && c as u32 <= '9' as u32
}

/// The pattern `p` occurs in `s` starting at position `i`.
pub open spec fn contains_at(s: Seq<char>, p: Seq<char>, i: int) -> bool {
    &&& 0 <= i
    &&& i + p.len() <= s.len()
    &&& forall|k: int| 0 <= k < p.len() ==> s[i + k] == #[trigger] p[k]
}

/// The pattern `p` occurs somewhere in `s`.
pub open spec fn contains_seq(s: Seq<char>, p: Seq<char>) -> bool {
    exists|i: int| contains_at(s, p, i)
}

/// The pattern `p` occurs at `i` and is followed by at least one digit.
pub open spec fn pat_digit_at(s: Seq<char>, p: Seq<char>, i: int) -> bool {
    &&& contains_at(s, p, i)
    &&& i + p.len() < s.len()
    &&& is_digit(s[i + p.len()])
}

/// The pattern `p` occurs somewhere in `s` followed by at least one digit.
pub open spec fn contains_pat_digit(s: Seq<char>, p: Seq<char>) -> bool {
    exists|i: int| pat_digit_at(s, p, i)
}

/// `CDF` occurs at `i`, followed by exactly `k >= 1` digit characters and
/// then `_ID`.
pub open spec fn cdf_match_at(s: Seq<char>, i: int, k: int) -> bool {
    &&& contains_at(s, "CDF"@, i)
    &&& k >= 1
    &&& forall|t: int| 0 <= t < k ==> i + 3 + t < s.len() && is_digit(#[trigger] s[i + 3 + t])
    &&& contains_at(s, "_ID"@, i + 3 + k)
}

/// The reference code names a date slot: it carries `VALID_FROM` or
/// `VALID_TO`.
pub open spec fn matches_date_pattern(s: Seq<char>) -> bool {
    contains_seq(s, "VALID_FROM"@) || contains_seq(s, "VALID_TO"@)
}

/// The reference code names a numeric slot: it carries `NUM` followed by a
/// digit.
pub open spec fn matches_num_pattern(s: Seq<char>) -> bool {
    contains_pat_digit(s, "NUM"@)
}

/// The reference code names a text slot: it carries `TEXT` followed by a
/// digit.
pub open spec fn matches_text_pattern(s: Seq<char>) -> bool {
    contains_pat_digit(s, "TEXT"@)
}

/// The reference code names a codification slot: it carries `CDF`, digits,
/// then `_ID`.
pub open spec fn matches_cdf_pattern(s: Seq<char>) -> bool {
    exists|i: int, k: int| cdf_match_at(s, i, k)
}

/// The ordered classification of a reference code: the first of the four
/// slot-family patterns to match, or nothing. The order is a priority list
/// and must not be reordered.
pub open spec fn classified(s: Seq<char>) -> Option<SlotFamily> {
    if matches_date_pattern(s) {
        Some(SlotFamily::Date)
    } else if matches_num_pattern(s) {
        Some(SlotFamily::Num)
    } else if matches_text_pattern(s) {
        Some(SlotFamily::Text)
    } else if matches_cdf_pattern(s) {
        Some(SlotFamily::Cdf)
    } else {
        None
    }
}

/// `c` is a decimal digit.
fn is_digit_char(c: char) -> (r: bool)
    ensures
        r == is_digit(c),
{
    '0' as u32 <= c as u32 && c as u32 <= '9' as u32
}

/// The pattern `p` occurs in `s` at position `i`.
fn matches_at(s: &str, p: &str, i: usize) -> (r: bool)
    requires
        i + p@.len() <= s@.len(),
        s@.len() <= usize::MAX,
    ensures
        r == contains_at(s@, p@, i as int),
{
    let plen = p.unicode_len();
    for k in 0..plen
        invariant
            plen == p@.len(),
            i + plen <= s@.len() <= usize::MAX,
            forall|k2: int| 0 <= k2 < k ==> s@[i + k2] == #[trigger] p@[k2],
    {
        if s.get_char(i + k) != p.get_char(k) {
            return false;
        }
    }
    true
}

/// The pattern `p` occurs somewhere in `s`.
fn contains_pat(s: &str, p: &str) -> (r: bool)
    requires
        p@.len() >= 1,
    ensures
        r == contains_seq(s@, p@),
{
    let slen = s.unicode_len();
    let plen = p.unicode_len();
    if plen > slen {
        return false;
    }
    let count = slen - plen + 1;
    for i in 0..count
        invariant
            slen == s@.len(),
            plen == p@.len(),
            1 <= plen <= slen,
            count == slen - plen + 1,
            forall|i2: int| 0 <= i2 < i ==> !contains_at(s@, p@, i2),
    {
        if matches_at(s, p, i) {
            return true;
        }
    }
    false
}

/// The pattern `p` occurs somewhere in `s` followed by at least one digit.
fn contains_pat_then_digit(s: &str, p: &str) -> (r: bool)
    requires
        p@.len() >= 1,
    ensures
        r == contains_pat_digit(s@, p@),
{
    let slen = s.unicode_len();
    let plen = p.unicode_len();
    if plen >= slen {
        return false;
    }
    let count = slen - plen;
    for i in 0..count
        invariant
            slen == s@.len(),
            plen == p@.len(),
            plen + 1 <= slen,
            count == slen - plen,
            forall|i2: int| 0 <= i2 < i ==> !pat_digit_at(s@, p@, i2),
    {
        if matches_at(s, p, i) && is_digit_char(s.get_char(i + plen)) {
            proof {
                assert(pat_digit_at(s@, p@, i as int));
            }
            return true;
        }
    }
    false
}

/// The codification pattern `CDF<digits>_ID` occurs somewhere in `s`.
fn contains_cdf(s: &str) -> (r: bool)
    ensures
        r == matches_cdf_pattern(s@),
{
    proof {
        reveal_strlit("CDF");
        reveal_strlit("_ID");
        assert("CDF"@.len() == 3);
        assert("_ID"@.len() == 3);
        assert("_ID"@[0] == '_');
    }
    let slen = s.unicode_len();
    if slen < 3 {
        proof {
            assert forall|i: int, k: int| !cdf_match_at(s@, i, k) by {
                assert(!contains_at(s@, "CDF"@, i));
            }
        }
        return false;
    }
    let count = slen - 3 + 1;
    for i in 0..count
        invariant
            slen == s@.len(),
            3 <= slen,
            count == slen - 3 + 1,
            "CDF"@.len() == 3,
            "_ID"@.len() == 3,
            "_ID"@[0] == '_',
            forall|i2: int, k: int| 0 <= i2 < i ==> !cdf_match_at(s@, i2, k),
    {
        if matches_at(s, "CDF", i) {
            let j = i + 3;
            let mut d: usize = 0;
            loop
                invariant_except_break
                    slen == s@.len(),
                    j == i + 3,
                    j <= slen,
                    j + d <= slen,
                    forall|t: int|
                        0 <= t < d ==> i + 3 + t < s@.len() && is_digit(#[trigger] s@[i + 3 + t]),
                ensures
                    j + d <= slen,
                    forall|t: int|
                        0 <= t < d ==> i + 3 + t < s@.len() && is_digit(#[trigger] s@[i + 3 + t]),
                    j + d == slen || !is_digit(s@[j + d]),
                decreases slen - j - d,
            {
                if j + d >= slen {
                    break ;
                }
                if !is_digit_char(s.get_char(j + d)) {
                    break ;
                }
                d = d + 1;
            }
            if d >= 1 && j + d <= slen - 3 && matches_at(s, "_ID", j + d) {
                proof {
                    assert(cdf_match_at(s@, i as int, d as int));
                }
                return true;
            }
            proof {
                assert forall|k: int| !cdf_match_at(s@, i as int, k) by {
                    if 1 <= k {
                        if k < d {
                            if cdf_match_at(s@, i as int, k) {
                                assert(s@[i + 3 + k] == "_ID"@[0]);
                                assert(is_digit(s@[i + 3 + k]));
                            }
                        } else {
                            if cdf_match_at(s@, i as int, k) {
                                // the digit run would have to go on past `d`
                                assert(i + 3 + d < s@.len() && is_digit(s@[i + 3 + d]));
                            }
                        }
                    }
                }
            }
        } else {
            proof {
                assert forall|k: int| !cdf_match_at(s@, i as int, k) by {}
            }
        }
    }
    proof {
        assert forall|i2: int, k: int| !cdf_match_at(s@, i2, k) by {
            if i2 < 0 || i2 + 3 > slen {
                assert(!contains_at(s@, "CDF"@, i2));
            }
        }
    }
    false
}

/// Classifies a slot reference code into the column's semantic type.
///
/// The four slot-family patterns are tried in a fixed priority order: date,
/// numeric, text, codification. A code matching none of them is rejected as
/// an unrecognized slot pattern, which aborts classification of that column.
/// The codification parameters are carried into the result only for a
/// codification slot.
pub fn classify(ref_code: &str, codificator_id: String, select_params: String) -> (r: Result<
    ColumnType,
    BdtError,
>)
    ensures
        match classified(ref_code@) {
            Some(SlotFamily::Date) => r == Ok::<ColumnType, BdtError>(ColumnType::Date),
            Some(SlotFamily::Num) => r == Ok::<ColumnType, BdtError>(ColumnType::Num),
            Some(SlotFamily::Text) => r == Ok::<ColumnType, BdtError>(ColumnType::Text),
            Some(SlotFamily::Cdf) => r == Ok::<ColumnType, BdtError>(
                ColumnType::Cdf { codificator_id, select_params },
            ),
            None => r matches Err(BdtError::UnrecognizedSlotPattern { ref_code: rc }) && rc@
                == ref_code@,
        },
{
    proof {
        reveal_strlit("VALID_FROM");
        reveal_strlit("VALID_TO");
        reveal_strlit("NUM");
        reveal_strlit("TEXT");
        assert("VALID_FROM"@.len() == 10);
        assert("VALID_TO"@.len() == 8);
        assert("NUM"@.len() == 3);
        assert("TEXT"@.len() == 4);
    }
    if contains_pat(ref_code, "VALID_FROM") || contains_pat(ref_code, "VALID_TO") {
        Ok(ColumnType::Date)
    } else if contains_pat_then_digit(ref_code, "NUM") {
        Ok(ColumnType::Num)
    } else if contains_pat_then_digit(ref_code, "TEXT") {
        Ok(ColumnType::Text)
    } else if contains_cdf(ref_code) {
        Ok(ColumnType::Cdf { codificator_id, select_params })
    } else {
        Err(BdtError::UnrecognizedSlotPattern { ref_code: ref_code.to_owned() })
    }
}

/// Pattern precedence: classification tries the date, numeric, text and
/// codification patterns in that fixed order, so a reference code matching
/// several patterns resolves to the earliest; being a function of the
/// reference code alone, it is total and deterministic.
pub proof fn lemma_classify_precedence(s: Seq<char>)
    ensures
        matches_date_pattern(s) ==> classified(s) == Some(SlotFamily::Date),
        !matches_date_pattern(s) && matches_num_pattern(s) ==> classified(s) == Some(
            SlotFamily::Num,
        ),
        !matches_date_pattern(s) && !matches_num_pattern(s) && matches_text_pattern(s)
            ==> classified(s) == Some(SlotFamily::Text),
        !matches_date_pattern(s) && !matches_num_pattern(s) && !matches_text_pattern(s)
            && matches_cdf_pattern(s) ==> classified(s) == Some(SlotFamily::Cdf),
        classified(s) is None <==> !matches_date_pattern(s) && !matches_num_pattern(s)
            && !matches_text_pattern(s) && !matches_cdf_pattern(s),
{
}


/// Classification is total on the valid slot vocabulary: every canonical
/// slot name classifies, to exactly its slot's family.
#[verifier::rlimit(100)]
pub proof fn lemma_slot_names_classify(i: int)
    requires
        0 <= i < SLOT_COUNT,
    ensures
        classified(slot_name(i)) == Some(slot_family(i)),
{
    broadcast use vstd::string::group_string_axioms;


    reveal_strlit("VALID_FROM");
    reveal_strlit("VALID_TO");
    reveal_strlit("NUM");
    reveal_strlit("TEXT");
    reveal_strlit("CDF");
    reveal_strlit("_ID");
    reveal_strlit("NUM1");
    reveal_strlit("NUM2");
    reveal_strlit("NUM3");
    reveal_strlit("NUM4");
    reveal_strlit("NUM5");
    reveal_strlit("NUM6");
    reveal_strlit("NUM7");
    reveal_strlit("NUM8");
    reveal_strlit("NUM9");
    reveal_strlit("NUM10");
    reveal_strlit("TEXT1");
    reveal_strlit("TEXT2");
    reveal_strlit("TEXT3");
    reveal_strlit("TEXT4");
    reveal_strlit("TEXT5");
    reveal_strlit("CDF1_ID");
    reveal_strlit("CDF2_ID");
    reveal_strlit("CDF3_ID");
    reveal_strlit("CDF4_ID");
    reveal_strlit("CDF5_ID");
    reveal_strlit("CDF6_ID");
    reveal_strlit("CDF7_ID");
    reveal_strlit("CDF8_ID");
    reveal_strlit("CDF9_ID");
    reveal_strlit("CDF10_ID");
    reveal_strlit("CDF11_ID");
    reveal_strlit("CDF12_ID");
    reveal_strlit("CDF13_ID");
    reveal_strlit("CDF14_ID");
    reveal_strlit("CDF15_ID");
    assert("VALID_FROM"@.len() == 10);
    assert("VALID_FROM"@[0] == 'V');
    assert("VALID_FROM"@[1] == 'A');
    assert("VALID_FROM"@[2] == 'L');
    assert("VALID_FROM"@[3] == 'I');
    assert("VALID_FROM"@[4] == 'D');
    assert("VALID_FROM"@[5] == '_');
    assert("VALID_FROM"@[6] == 'F');
    assert("VALID_FROM"@[7] == 'R');
    assert("VALID_FROM"@[8] == 'O');
    assert("VALID_FROM"@[9] == 'M');
    assert("VALID_TO"@.len() == 8);
    assert("VALID_TO"@[0] == 'V');
    assert("VALID_TO"@[1] == 'A');
    assert("VALID_TO"@[2] == 'L');
    assert("VALID_TO"@[3] == 'I');
    assert("VALID_TO"@[4] == 'D');
    assert("VALID_TO"@[5] == '_');
    assert("VALID_TO"@[6] == 'T');
    assert("VALID_TO"@[7] == 'O');
    assert("NUM"@.len() == 3);
    assert("NUM"@[0] == 'N');
    assert("NUM"@[1] == 'U');
    assert("NUM"@[2] == 'M');
    assert("TEXT"@.len() == 4);
    assert("TEXT"@[0] == 'T');
    assert("TEXT"@[1] == 'E');
    assert("TEXT"@[2] == 'X');
    assert("TEXT"@[3] == 'T');
    assert("CDF"@.len() == 3);
    assert("CDF"@[0] == 'C');
    assert("CDF"@[1] == 'D');
    assert("CDF"@[2] == 'F');
    assert("_ID"@.len() == 3);
    assert("_ID"@[0] == '_');
    assert("_ID"@[1] == 'I');
    assert("_ID"@[2] == 'D');
    assert("NUM1"@.len() == 4);
    assert("NUM1"@[0] == 'N');
    assert("NUM1"@[1] == 'U');
    assert("NUM1"@[2] == 'M');
    assert("NUM1"@[3] == '1');
    assert("NUM2"@.len() == 4);
    assert("NUM2"@[0] == 'N');
    assert("NUM2"@[1] == 'U');
    assert("NUM2"@[2] == 'M');
    assert("NUM2"@[3] == '2');
    assert("NUM3"@.len() == 4);
    assert("NUM3"@[0] == 'N');
    assert("NUM3"@[1] == 'U');
    assert("NUM3"@[2] == 'M');
    assert("NUM3"@[3] == '3');
    assert("NUM4"@.len() == 4);
    assert("NUM4"@[0] == 'N');
    assert("NUM4"@[1] == 'U');
    assert("NUM4"@[2] == 'M');
    assert("NUM4"@[3] == '4');
    assert("NUM5"@.len() == 4);
    assert("NUM5"@[0] == 'N');
    assert("NUM5"@[1] == 'U');
    assert("NUM5"@[2] == 'M');
    assert("NUM5"@[3] == '5');
    assert("NUM6"@.len() == 4);
    assert("NUM6"@[0] == 'N');
    assert("NUM6"@[1] == 'U');
    assert("NUM6"@[2] == 'M');
    assert("NUM6"@[3] == '6');
    assert("NUM7"@.len() == 4);
    assert("NUM7"@[0] == 'N');
    assert("NUM7"@[1] == 'U');
    assert("NUM7"@[2] == 'M');
    assert("NUM7"@[3] == '7');
    assert("NUM8"@.len() == 4);
    assert("NUM8"@[0] == 'N');
    assert("NUM8"@[1] == 'U');
    assert("NUM8"@[2] == 'M');
    assert("NUM8"@[3] == '8');
    assert("NUM9"@.len() == 4);
    assert("NUM9"@[0] == 'N');
    assert("NUM9"@[1] == 'U');
    assert("NUM9"@[2] == 'M');
    assert("NUM9"@[3] == '9');
    assert("NUM10"@.len() == 5);
    assert("NUM10"@[0] == 'N');
    assert("NUM10"@[1] == 'U');
    assert("NUM10"@[2] == 'M');
    assert("NUM10"@[3] == '1');
    assert("NUM10"@[4] == '0');
    assert("TEXT1"@.len() == 5);
    assert("TEXT1"@[0] == 'T');
    assert("TEXT1"@[1] == 'E');
    assert("TEXT1"@[2] == 'X');
    assert("TEXT1"@[3] == 'T');
    assert("TEXT1"@[4] == '1');
    assert("TEXT2"@.len() == 5);
    assert("TEXT2"@[0] == 'T');
    assert("TEXT2"@[1] == 'E');
    assert("TEXT2"@[2] == 'X');
    assert("TEXT2"@[3] == 'T');
    assert("TEXT2"@[4] == '2');
    assert("TEXT3"@.len() == 5);
    assert("TEXT3"@[0] == 'T');
    assert("TEXT3"@[1] == 'E');
    assert("TEXT3"@[2] == 'X');
    assert("TEXT3"@[3] == 'T');
    assert("TEXT3"@[4] == '3');
    assert("TEXT4"@.len() == 5);
    assert("TEXT4"@[0] == 'T');
    assert("TEXT4"@[1] == 'E');
    assert("TEXT4"@[2] == 'X');
    assert("TEXT4"@[3] == 'T');
    assert("TEXT4"@[4] == '4');
    assert("TEXT5"@.len() == 5);
    assert("TEXT5"@[0] == 'T');
    assert("TEXT5"@[1] == 'E');
    assert("TEXT5"@[2] == 'X');
    assert("TEXT5"@[3] == 'T');
    assert("TEXT5"@[4] == '5');
    assert("CDF1_ID"@.len() == 7);
    assert("CDF1_ID"@[0] == 'C');
    assert("CDF1_ID"@[1] == 'D');
    assert("CDF1_ID"@[2] == 'F');
    assert("CDF1_ID"@[3] == '1');
    assert("CDF1_ID"@[4] == '_');
    assert("CDF1_ID"@[5] == 'I');
    assert("CDF1_ID"@[6] == 'D');
    assert("CDF2_ID"@.len() == 7);
    assert("CDF2_ID"@[0] == 'C');
    assert("CDF2_ID"@[1] == 'D');
    assert("CDF2_ID"@[2] == 'F');
    assert("CDF2_ID"@[3] == '2');
    assert("CDF2_ID"@[4] == '_');
    assert("CDF2_ID"@[5] == 'I');
    assert("CDF2_ID"@[6] == 'D');
    assert("CDF3_ID"@.len() == 7);
    assert("CDF3_ID"@[0] == 'C');
    assert("CDF3_ID"@[1] == 'D');
    assert("CDF3_ID"@[2] == 'F');
    assert("CDF3_ID"@[3] == '3');
    assert("CDF3_ID"@[4] == '_');
    assert("CDF3_ID"@[5] == 'I');
    assert("CDF3_ID"@[6] == 'D');
    assert("CDF4_ID"@.len() == 7);
    assert("CDF4_ID"@[0] == 'C');
    assert("CDF4_ID"@[1] == 'D');
    assert("CDF4_ID"@[2] == 'F');
    assert("CDF4_ID"@[3] == '4');
    assert("CDF4_ID"@[4] == '_');
    assert("CDF4_ID"@[5] == 'I');
    assert("CDF4_ID"@[6] == 'D');
    assert("CDF5_ID"@.len() == 7);
    assert("CDF5_ID"@[0] == 'C');
    assert("CDF5_ID"@[1] == 'D');
    assert("CDF5_ID"@[2] == 'F');
    assert("CDF5_ID"@[3] == '5');
    assert("CDF5_ID"@[4] == '_');
    assert("CDF5_ID"@[5] == 'I');
    assert("CDF5_ID"@[6] == 'D');
    assert("CDF6_ID"@.len() == 7);
    assert("CDF6_ID"@[0] == 'C');
    assert("CDF6_ID"@[1] == 'D');
    assert("CDF6_ID"@[2] == 'F');
    assert("CDF6_ID"@[3] == '6');
    assert("CDF6_ID"@[4] == '_');
    assert("CDF6_ID"@[5] == 'I');
    assert("CDF6_ID"@[6] == 'D');
    assert("CDF7_ID"@.len() == 7);
    assert("CDF7_ID"@[0] == 'C');
    assert("CDF7_ID"@[1] == 'D');
    assert("CDF7_ID"@[2] == 'F');
    assert("CDF7_ID"@[3] == '7');
    assert("CDF7_ID"@[4] == '_');
    assert("CDF7_ID"@[5] == 'I');
    assert("CDF7_ID"@[6] == 'D');
    assert("CDF8_ID"@.len() == 7);
    assert("CDF8_ID"@[0] == 'C');
    assert("CDF8_ID"@[1] == 'D');
    assert("CDF8_ID"@[2] == 'F');
    assert("CDF8_ID"@[3] == '8');
    assert("CDF8_ID"@[4] == '_');
    assert("CDF8_ID"@[5] == 'I');
    assert("CDF8_ID"@[6] == 'D');
    assert("CDF9_ID"@.len() == 7);
    assert("CDF9_ID"@[0] == 'C');
    assert("CDF9_ID"@[1] == 'D');
    assert("CDF9_ID"@[2] == 'F');
    assert("CDF9_ID"@[3] == '9');
    assert("CDF9_ID"@[4] == '_');
    assert("CDF9_ID"@[5] == 'I');
    assert("CDF9_ID"@[6] == 'D');
    assert("CDF10_ID"@.len() == 8);
    assert("CDF10_ID"@[0] == 'C');
    assert("CDF10_ID"@[1] == 'D');
    assert("CDF10_ID"@[2] == 'F');
    assert("CDF10_ID"@[3] == '1');
    assert("CDF10_ID"@[4] == '0');
    assert("CDF10_ID"@[5] == '_');
    assert("CDF10_ID"@[6] == 'I');
    assert("CDF10_ID"@[7] == 'D');
    assert("CDF11_ID"@.len() == 8);
    assert("CDF11_ID"@[0] == 'C');
    assert("CDF11_ID"@[1] == 'D');
    assert("CDF11_ID"@[2] == 'F');
    assert("CDF11_ID"@[3] == '1');
    assert("CDF11_ID"@[4] == '1');
    assert("CDF11_ID"@[5] == '_');
    assert("CDF11_ID"@[6] == 'I');
    assert("CDF11_ID"@[7] == 'D');
    assert("CDF12_ID"@.len() == 8);
    assert("CDF12_ID"@[0] == 'C');
    assert("CDF12_ID"@[1] == 'D');
    assert("CDF12_ID"@[2] == 'F');
    assert("CDF12_ID"@[3] == '1');
    assert("CDF12_ID"@[4] == '2');
    assert("CDF12_ID"@[5] == '_');
    assert("CDF12_ID"@[6] == 'I');
    assert("CDF12_ID"@[7] == 'D');
    assert("CDF13_ID"@.len() == 8);
    assert("CDF13_ID"@[0] == 'C');
    assert("CDF13_ID"@[1] == 'D');
    assert("CDF13_ID"@[2] == 'F');
    assert("CDF13_ID"@[3] == '1');
    assert("CDF13_ID"@[4] == '3');
    assert("CDF13_ID"@[5] == '_');
    assert("CDF13_ID"@[6] == 'I');
    assert("CDF13_ID"@[7] == 'D');
    assert("CDF14_ID"@.len() == 8);
    assert("CDF14_ID"@[0] == 'C');
    assert("CDF14_ID"@[1] == 'D');
    assert("CDF14_ID"@[2] == 'F');
    assert("CDF14_ID"@[3] == '1');
    assert("CDF14_ID"@[4] == '4');
    assert("CDF14_ID"@[5] == '_');
    assert("CDF14_ID"@[6] == 'I');
    assert("CDF14_ID"@[7] == 'D');
    assert("CDF15_ID"@.len() == 8);
    assert("CDF15_ID"@[0] == 'C');
    assert("CDF15_ID"@[1] == 'D');
    assert("CDF15_ID"@[2] == 'F');
    assert("CDF15_ID"@[3] == '1');
    assert("CDF15_ID"@[4] == '5');
    assert("CDF15_ID"@[5] == '_');
    assert("CDF15_ID"@[6] == 'I');
    assert("CDF15_ID"@[7] == 'D');
    if i == 0 {
        assert(contains_at("VALID_FROM"@, "VALID_FROM"@, 0));
        assert(matches_date_pattern("VALID_FROM"@));
    } else if i == 1 {
        assert(contains_at("VALID_TO"@, "VALID_TO"@, 0));
        assert(matches_date_pattern("VALID_TO"@));
    } else if i == 2 {
        assert(contains_at("NUM1"@, "NUM"@, 0));
        assert(is_digit('1'));
        assert(pat_digit_at("NUM1"@, "NUM"@, 0));
        assert(matches_num_pattern("NUM1"@));
    } else if i == 3 {
        assert(contains_at("NUM2"@, "NUM"@, 0));
        assert(is_digit('2'));
        assert(pat_digit_at("NUM2"@, "NUM"@, 0));
        assert(matches_num_pattern("NUM2"@));
    } else if i == 4 {
        assert(contains_at("NUM3"@, "NUM"@, 0));
        assert(is_digit('3'));
        assert(pat_digit_at("NUM3"@, "NUM"@, 0));
        assert(matches_num_pattern("NUM3"@));
    } else if i == 5 {
        assert(contains_at("NUM4"@, "NUM"@, 0));
        assert(is_digit('4'));
        assert(pat_digit_at("NUM4"@, "NUM"@, 0));
        assert(matches_num_pattern("NUM4"@));
    } else if i == 6 {
        assert(contains_at("NUM5"@, "NUM"@, 0));
        assert(is_digit('5'));
        assert(pat_digit_at("NUM5"@, "NUM"@, 0));
        assert(matches_num_pattern("NUM5"@));
    } else if i == 7 {
        assert(contains_at("NUM6"@, "NUM"@, 0));
        assert(is_digit('6'));
        assert(pat_digit_at("NUM6"@, "NUM"@, 0));
        assert(matches_num_pattern("NUM6"@));
    } else if i == 8 {
        assert(contains_at("NUM7"@, "NUM"@, 0));
        assert(is_digit('7'));
        assert(pat_digit_at("NUM7"@, "NUM"@, 0));
        assert(matches_num_pattern("NUM7"@));
    } else if i == 9 {
        assert(contains_at("NUM8"@, "NUM"@, 0));
        assert(is_digit('8'));
        assert(pat_digit_at("NUM8"@, "NUM"@, 0));
        assert(matches_num_pattern("NUM8"@));
    } else if i == 10 {
        assert(contains_at("NUM9"@, "NUM"@, 0));
        assert(is_digit('9'));
        assert(pat_digit_at("NUM9"@, "NUM"@, 0));
        assert(matches_num_pattern("NUM9"@));
    } else if i == 11 {
        assert(contains_at("NUM10"@, "NUM"@, 0));
        assert(is_digit('1'));
        assert(pat_digit_at("NUM10"@, "NUM"@, 0));
        assert(matches_num_pattern("NUM10"@));
    } else if i == 12 {
        assert(contains_at("TEXT1"@, "TEXT"@, 0));
        assert(is_digit('1'));
        assert(pat_digit_at("TEXT1"@, "TEXT"@, 0));
        assert(matches_text_pattern("TEXT1"@));
    } else if i == 13 {
        assert(contains_at("TEXT2"@, "TEXT"@, 0));
        assert(is_digit('2'));
        assert(pat_digit_at("TEXT2"@, "TEXT"@, 0));
        assert(matches_text_pattern("TEXT2"@));
    } else if i == 14 {
        assert(contains_at("TEXT3"@, "TEXT"@, 0));
        assert(is_digit('3'));
        assert(pat_digit_at("TEXT3"@, "TEXT"@, 0));
        assert(matches_text_pattern("TEXT3"@));
    } else if i == 15 {
        assert(contains_at("TEXT4"@, "TEXT"@, 0));
        assert(is_digit('4'));
        assert(pat_digit_at("TEXT4"@, "TEXT"@, 0));
        assert(matches_text_pattern("TEXT4"@));
    } else if i == 16 {
        assert(contains_at("TEXT5"@, "TEXT"@, 0));
        assert(is_digit('5'));
        assert(pat_digit_at("TEXT5"@, "TEXT"@, 0));
        assert(matches_text_pattern("TEXT5"@));
    } else if i == 17 {
        assert(contains_at("CDF1_ID"@, "CDF"@, 0));
        assert(contains_at("CDF1_ID"@, "_ID"@, 4));
        assert(cdf_match_at("CDF1_ID"@, 0, 1));
        assert(matches_cdf_pattern("CDF1_ID"@));
    } else if i == 18 {
        assert(contains_at("CDF2_ID"@, "CDF"@, 0));
        assert(contains_at("CDF2_ID"@, "_ID"@, 4));
        assert(cdf_match_at("CDF2_ID"@, 0, 1));
        assert(matches_cdf_pattern("CDF2_ID"@));
    } else if i == 19 {
        assert(contains_at("CDF3_ID"@, "CDF"@, 0));
        assert(contains_at("CDF3_ID"@, "_ID"@, 4));
        assert(cdf_match_at("CDF3_ID"@, 0, 1));
        assert(matches_cdf_pattern("CDF3_ID"@));
    } else if i == 20 {
        assert(contains_at("CDF4_ID"@, "CDF"@, 0));
        assert(contains_at("CDF4_ID"@, "_ID"@, 4));
        assert(cdf_match_at("CDF4_ID"@, 0, 1));
        assert(matches_cdf_pattern("CDF4_ID"@));
    } else if i == 21 {
        assert(contains_at("CDF5_ID"@, "CDF"@, 0));
        assert(contains_at("CDF5_ID"@, "_ID"@, 4));
        assert(cdf_match_at("CDF5_ID"@, 0, 1));
        assert(matches_cdf_pattern("CDF5_ID"@));
    } else if i == 22 {
        assert(contains_at("CDF6_ID"@, "CDF"@, 0));
        assert(contains_at("CDF6_ID"@, "_ID"@, 4));
        assert(cdf_match_at("CDF6_ID"@, 0, 1));
        assert(matches_cdf_pattern("CDF6_ID"@));
    } else if i == 23 {
        assert(contains_at("CDF7_ID"@, "CDF"@, 0));
        assert(contains_at("CDF7_ID"@, "_ID"@, 4));
        assert(cdf_match_at("CDF7_ID"@, 0, 1));
        assert(matches_cdf_pattern("CDF7_ID"@));
    } else if i == 24 {
        assert(contains_at("CDF8_ID"@, "CDF"@, 0));
        assert(contains_at("CDF8_ID"@, "_ID"@, 4));
        assert(cdf_match_at("CDF8_ID"@, 0, 1));
        assert(matches_cdf_pattern("CDF8_ID"@));
    } else if i == 25 {
        assert(contains_at("CDF9_ID"@, "CDF"@, 0));
        assert(contains_at("CDF9_ID"@, "_ID"@, 4));
        assert(cdf_match_at("CDF9_ID"@, 0, 1));
        assert(matches_cdf_pattern("CDF9_ID"@));
    } else if i == 26 {
        assert(contains_at("CDF10_ID"@, "CDF"@, 0));
        assert(contains_at("CDF10_ID"@, "_ID"@, 5));
        assert(cdf_match_at("CDF10_ID"@, 0, 2));
        assert(matches_cdf_pattern("CDF10_ID"@));
    } else if i == 27 {
        assert(contains_at("CDF11_ID"@, "CDF"@, 0));
        assert(contains_at("CDF11_ID"@, "_ID"@, 5));
        assert(cdf_match_at("CDF11_ID"@, 0, 2));
        assert(matches_cdf_pattern("CDF11_ID"@));
    } else if i == 28 {
        assert(contains_at("CDF12_ID"@, "CDF"@, 0));
        assert(contains_at("CDF12_ID"@, "_ID"@, 5));
        assert(cdf_match_at("CDF12_ID"@, 0, 2));
        assert(matches_cdf_pattern("CDF12_ID"@));
    } else if i == 29 {
        assert(contains_at("CDF13_ID"@, "CDF"@, 0));
        assert(contains_at("CDF13_ID"@, "_ID"@, 5));
        assert(cdf_match_at("CDF13_ID"@, 0, 2));
        assert(matches_cdf_pattern("CDF13_ID"@));
    } else if i == 30 {
        assert(contains_at("CDF14_ID"@, "CDF"@, 0));
        assert(contains_at("CDF14_ID"@, "_ID"@, 5));
        assert(cdf_match_at("CDF14_ID"@, 0, 2));
        assert(matches_cdf_pattern("CDF14_ID"@));
    } else {
        assert(contains_at("CDF15_ID"@, "CDF"@, 0));
        assert(contains_at("CDF15_ID"@, "_ID"@, 5));
        assert(cdf_match_at("CDF15_ID"@, 0, 2));
        assert(matches_cdf_pattern("CDF15_ID"@));
    }
}

} // verus!
