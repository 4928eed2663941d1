use vstd::prelude::*;

verus! {

/// The four families of generic slots in the fixed wide layout.
#[derive(Clone, Copy, Debug, PartialEq, Eq, Structural)]
pub enum SlotFamily {
    Date,
    Num,
    Text,
    Cdf,
}

/// How many generic slots the fixed wide layout has: `VALID_FROM`,
/// `VALID_TO`, `NUM1..NUM10`, `TEXT1..TEXT5` and `CDF1_ID..CDF15_ID`.
pub const SLOT_COUNT: usize = 32;

/// The reference code of slot `i` in the canonical slot order.
pub open spec fn slot_name(i: int) -> Seq<char> {
    if i == 0 {
        "VALID_FROM"@
    } else if i == 1 {
        "VALID_TO"@
    } else if i == 2 {
        "NUM1"@
    } else if i == 3 {
        "NUM2"@
    } else if i == 4 {
        "NUM3"@
    } else if i == 5 {
        "NUM4"@
    } else if i == 6 {
        "NUM5"@
    } else if i == 7 {
        "NUM6"@
    } else if i == 8 {
        "NUM7"@
    } else if i == 9 {
        "NUM8"@
    } else if i == 10 {
        "NUM9"@
    } else if i == 11 {
        "NUM10"@
    } else if i == 12 {
        "TEXT1"@
    } else if i == 13 {
        "TEXT2"@
    } else if i == 14 {
        "TEXT3"@
    } else if i == 15 {
        "TEXT4"@
    } else if i == 16 {
        "TEXT5"@
    } else if i == 17 {
        "CDF1_ID"@
    } else if i == 18 {
        "CDF2_ID"@
    } else if i == 19 {
        "CDF3_ID"@
    } else if i == 20 {
        "CDF4_ID"@
    } else if i == 21 {
        "CDF5_ID"@
    } else if i == 22 {
        "CDF6_ID"@
    } else if i == 23 {
        "CDF7_ID"@
    } else if i == 24 {
        "CDF8_ID"@
    } else if i == 25 {
        "CDF9_ID"@
    } else if i == 26 {
        "CDF10_ID"@
    } else if i == 27 {
        "CDF11_ID"@
    } else if i == 28 {
        "CDF12_ID"@
    } else if i == 29 {
        "CDF13_ID"@
    } else if i == 30 {
        "CDF14_ID"@
    } else {
        "CDF15_ID"@
    }
}

/// The family of slot `i` in the canonical slot order.
pub open spec fn slot_family(i: int) -> SlotFamily {
    if i < 2 {
        SlotFamily::Date
    } else if i < 12 {
        SlotFamily::Num
    } else if i < 17 {
        SlotFamily::Text
    } else {
        SlotFamily::Cdf
    }
}

/// The reference code of slot `i`, as an owned string.
pub fn slot_name_at(i: usize) -> (r: String)
    requires
        i < SLOT_COUNT,
    ensures
        r@ == slot_name(i as int),
{
    match i {
        0 => String::from_str("VALID_FROM"),
        1 => String::from_str("VALID_TO"),
        2 => String::from_str("NUM1"),
        3 => String::from_str("NUM2"),
        4 => String::from_str("NUM3"),
        5 => String::from_str("NUM4"),
        6 => String::from_str("NUM5"),
        7 => String::from_str("NUM6"),
        8 => String::from_str("NUM7"),
        9 => String::from_str("NUM8"),
        10 => String::from_str("NUM9"),
        11 => String::from_str("NUM10"),
        12 => String::from_str("TEXT1"),
        13 => String::from_str("TEXT2"),
        14 => String::from_str("TEXT3"),
        15 => String::from_str("TEXT4"),
        16 => String::from_str("TEXT5"),
        17 => String::from_str("CDF1_ID"),
        18 => String::from_str("CDF2_ID"),
        19 => String::from_str("CDF3_ID"),
        20 => String::from_str("CDF4_ID"),
        21 => String::from_str("CDF5_ID"),
        22 => String::from_str("CDF6_ID"),
        23 => String::from_str("CDF7_ID"),
        24 => String::from_str("CDF8_ID"),
        25 => String::from_str("CDF9_ID"),
        26 => String::from_str("CDF10_ID"),
        27 => String::from_str("CDF11_ID"),
        28 => String::from_str("CDF12_ID"),
        29 => String::from_str("CDF13_ID"),
        30 => String::from_str("CDF14_ID"),
        31 => String::from_str("CDF15_ID"),
        _ => unreached(),
    }
}

/// The family of slot `i`.
pub fn slot_family_at(i: usize) -> (f: SlotFamily)
    requires
        i < SLOT_COUNT,
    ensures
        f == slot_family(i as int),
{
    if i < 2 {
        SlotFamily::Date
    } else if i < 12 {
        SlotFamily::Num
    } else if i < 17 {
        SlotFamily::Text
    } else {
        SlotFamily::Cdf
    }
}

/// Distinct slots carry distinct reference codes: the slot name is a key.
#[verifier::rlimit(50)]
pub proof fn lemma_slot_names_distinct(i: int, j: int)
    requires
        0 <= i < SLOT_COUNT,
        0 <= j < SLOT_COUNT,
        i != j,
    ensures
        slot_name(i) != slot_name(j),
{
    broadcast use vstd::string::group_string_axioms;

    reveal_strlit("VALID_FROM");
    reveal_strlit("VALID_TO");
    reveal_strlit("NUM1");
    reveal_strlit("NUM2");
    reveal_strlit("NUM3");
    reveal_strlit("NUM4");
    reveal_strlit("NUM5");
    reveal_strlit("NUM6");
    reveal_strlit("NUM7");
    reveal_strlit("NUM8");
    reveal_strlit("NUM9");
    reveal_strlit("NUM10");
    reveal_strlit("TEXT1");
    reveal_strlit("TEXT2");
    reveal_strlit("TEXT3");
    reveal_strlit("TEXT4");
    reveal_strlit("TEXT5");
    reveal_strlit("CDF1_ID");
    reveal_strlit("CDF2_ID");
    reveal_strlit("CDF3_ID");
    reveal_strlit("CDF4_ID");
    reveal_strlit("CDF5_ID");
    reveal_strlit("CDF6_ID");
    reveal_strlit("CDF7_ID");
    reveal_strlit("CDF8_ID");
    reveal_strlit("CDF9_ID");
    reveal_strlit("CDF10_ID");
    reveal_strlit("CDF11_ID");
    reveal_strlit("CDF12_ID");
    reveal_strlit("CDF13_ID");
    reveal_strlit("CDF14_ID");
    reveal_strlit("CDF15_ID");
    assert("VALID_FROM"@.len() == 10);
    assert("VALID_FROM"@[0] == 'V');
    assert("VALID_FROM"@[3] == 'I');
    assert("VALID_FROM"@[4] == 'D');
    assert("VALID_TO"@.len() == 8);
    assert("VALID_TO"@[0] == 'V');
    assert("VALID_TO"@[3] == 'I');
    assert("VALID_TO"@[4] == 'D');
    assert("NUM1"@.len() == 4);
    assert("NUM1"@[0] == 'N');
    assert("NUM1"@[3] == '1');
    assert("NUM2"@.len() == 4);
    assert("NUM2"@[0] == 'N');
    assert("NUM2"@[3] == '2');
    assert("NUM3"@.len() == 4);
    assert("NUM3"@[0] == 'N');
    assert("NUM3"@[3] == '3');
    assert("NUM4"@.len() == 4);
    assert("NUM4"@[0] == 'N');
    assert("NUM4"@[3] == '4');
    assert("NUM5"@.len() == 4);
    assert("NUM5"@[0] == 'N');
    assert("NUM5"@[3] == '5');
    assert("NUM6"@.len() == 4);
    assert("NUM6"@[0] == 'N');
    assert("NUM6"@[3] == '6');
    assert("NUM7"@.len() == 4);
    assert("NUM7"@[0] == 'N');
    assert("NUM7"@[3] == '7');
    assert("NUM8"@.len() == 4);
    assert("NUM8"@[0] == 'N');
    assert("NUM8"@[3] == '8');
    assert("NUM9"@.len() == 4);
    assert("NUM9"@[0] == 'N');
    assert("NUM9"@[3] == '9');
    assert("NUM10"@.len() == 5);
    assert("NUM10"@[0] == 'N');
    assert("NUM10"@[3] == '1');
    assert("NUM10"@[4] == '0');
    assert("TEXT1"@.len() == 5);
    assert("TEXT1"@[0] == 'T');
    assert("TEXT1"@[3] == 'T');
    assert("TEXT1"@[4] == '1');
    assert("TEXT2"@.len() == 5);
    assert("TEXT2"@[0] == 'T');
    assert("TEXT2"@[3] == 'T');
    assert("TEXT2"@[4] == '2');
    assert("TEXT3"@.len() == 5);
    assert("TEXT3"@[0] == 'T');
    assert("TEXT3"@[3] == 'T');
    assert("TEXT3"@[4] == '3');
    assert("TEXT4"@.len() == 5);
    assert("TEXT4"@[0] == 'T');
    assert("TEXT4"@[3] == 'T');
    assert("TEXT4"@[4] == '4');
    assert("TEXT5"@.len() == 5);
    assert("TEXT5"@[0] == 'T');
    assert("TEXT5"@[3] == 'T');
    assert("TEXT5"@[4] == '5');
    assert("CDF1_ID"@.len() == 7);
    assert("CDF1_ID"@[0] == 'C');
    assert("CDF1_ID"@[3] == '1');
    assert("CDF1_ID"@[4] == '_');
    assert("CDF2_ID"@.len() == 7);
    assert("CDF2_ID"@[0] == 'C');
    assert("CDF2_ID"@[3] == '2');
    assert("CDF2_ID"@[4] == '_');
    assert("CDF3_ID"@.len() == 7);
    assert("CDF3_ID"@[0] == 'C');
    assert("CDF3_ID"@[3] == '3');
    assert("CDF3_ID"@[4] == '_');
    assert("CDF4_ID"@.len() == 7);
    assert("CDF4_ID"@[0] == 'C');
    assert("CDF4_ID"@[3] == '4');
    assert("CDF4_ID"@[4] == '_');
    assert("CDF5_ID"@.len() == 7);
    assert("CDF5_ID"@[0] == 'C');
    assert("CDF5_ID"@[3] == '5');
    assert("CDF5_ID"@[4] == '_');
    assert("CDF6_ID"@.len() == 7);
    assert("CDF6_ID"@[0] == 'C');
    assert("CDF6_ID"@[3] == '6');
    assert("CDF6_ID"@[4] == '_');
    assert("CDF7_ID"@.len() == 7);
    assert("CDF7_ID"@[0] == 'C');
    assert("CDF7_ID"@[3] == '7');
    assert("CDF7_ID"@[4] == '_');
    assert("CDF8_ID"@.len() == 7);
    assert("CDF8_ID"@[0] == 'C');
    assert("CDF8_ID"@[3] == '8');
    assert("CDF8_ID"@[4] == '_');
    assert("CDF9_ID"@.len() == 7);
    assert("CDF9_ID"@[0] == 'C');
    assert("CDF9_ID"@[3] == '9');
    assert("CDF9_ID"@[4] == '_');
    assert("CDF10_ID"@.len() == 8);
    assert("CDF10_ID"@[0] == 'C');
    assert("CDF10_ID"@[3] == '1');
    assert("CDF10_ID"@[4] == '0');
    assert("CDF11_ID"@.len() == 8);
    assert("CDF11_ID"@[0] == 'C');
    assert("CDF11_ID"@[3] == '1');
    assert("CDF11_ID"@[4] == '1');
    assert("CDF12_ID"@.len() == 8);
    assert("CDF12_ID"@[0] == 'C');
    assert("CDF12_ID"@[3] == '1');
    assert("CDF12_ID"@[4] == '2');
    assert("CDF13_ID"@.len() == 8);
    assert("CDF13_ID"@[0] == 'C');
    assert("CDF13_ID"@[3] == '1');
    assert("CDF13_ID"@[4] == '3');
    assert("CDF14_ID"@.len() == 8);
    assert("CDF14_ID"@[0] == 'C');
    assert("CDF14_ID"@[3] == '1');
    assert("CDF14_ID"@[4] == '4');
    assert("CDF15_ID"@.len() == 8);
    assert("CDF15_ID"@[0] == 'C');
    assert("CDF15_ID"@[3] == '1');
    assert("CDF15_ID"@[4] == '5');
}

} // verus!
