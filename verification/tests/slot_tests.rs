use bdt::bdt::column_type::{classify, ColumnType};
use bdt::bdt::slot::{slot_family_at, slot_name_at, SlotFamily, SLOT_COUNT};

#[test]
fn canonical_slot_order() {
    assert_eq!(SLOT_COUNT, 32);
    assert_eq!(slot_name_at(0), "VALID_FROM".to_string());
    assert_eq!(slot_name_at(1), "VALID_TO".to_string());
    assert_eq!(slot_name_at(2), "NUM1".to_string());
    assert_eq!(slot_name_at(11), "NUM10".to_string());
    assert_eq!(slot_name_at(12), "TEXT1".to_string());
    assert_eq!(slot_name_at(16), "TEXT5".to_string());
    assert_eq!(slot_name_at(17), "CDF1_ID".to_string());
    assert_eq!(slot_name_at(31), "CDF15_ID".to_string());
}

#[test]
fn slot_families_match_the_groups() {
    assert_eq!(slot_family_at(0), SlotFamily::Date);
    assert_eq!(slot_family_at(1), SlotFamily::Date);
    assert_eq!(slot_family_at(2), SlotFamily::Num);
    assert_eq!(slot_family_at(11), SlotFamily::Num);
    assert_eq!(slot_family_at(12), SlotFamily::Text);
    assert_eq!(slot_family_at(16), SlotFamily::Text);
    assert_eq!(slot_family_at(17), SlotFamily::Cdf);
    assert_eq!(slot_family_at(31), SlotFamily::Cdf);
}

#[test]
fn every_slot_name_classifies_to_its_family() {
    for i in 0..SLOT_COUNT {
        let name = slot_name_at(i);
        let got = classify(name.as_str(), "K".to_string(), "p".to_string()).unwrap();
        match slot_family_at(i) {
            SlotFamily::Date => assert_eq!(got, ColumnType::Date),
            SlotFamily::Num => assert_eq!(got, ColumnType::Num),
            SlotFamily::Text => assert_eq!(got, ColumnType::Text),
            SlotFamily::Cdf => assert_eq!(
                got,
                ColumnType::Cdf {
                    codificator_id: "K".to_string(),
                    select_params: "p".to_string(),
                }
            ),
        }
    }
}

#[test]
fn every_slot_name_is_distinct() {
    for i in 0..SLOT_COUNT {
        for j in 0..SLOT_COUNT {
            if i != j {
                assert_ne!(slot_name_at(i), slot_name_at(j));
            }
        }
    }
}
