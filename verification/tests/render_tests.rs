use bdt::bdt::table_name::NameList;
use bdt::bdt::Bdt;
use bdt::render::{filter_not_skipped, last_comma, yn_flag};

fn table(ic: &str, skip: &str) -> Bdt {
    Bdt {
        skip: skip.to_string(),
        ic: ic.to_string(),
        names: NameList::new(Vec::new()),
        valid_from: None,
        valid_to: None,
        columns: Vec::new(),
        data: Vec::new(),
    }
}

#[test]
fn rendering_leaves_out_marked_tables() {
    let tables = vec![
        table("A", ""),
        table("B", "skip"),
        table("C", "skipData"),
        table("D", "skip"),
    ];
    let kept = filter_not_skipped(tables);
    assert_eq!(kept.len(), 2);
    assert_eq!(kept[0].ic, "A".to_string());
    assert_eq!(kept[1].ic, "C".to_string());
}

#[test]
fn key_flag_renders_as_y_or_n() {
    assert_eq!(yn_flag(true), "Y".to_string());
    assert_eq!(yn_flag(false), "N".to_string());
}

#[test]
fn comma_after_every_item_but_the_last() {
    assert_eq!(last_comma(3, 0), ",".to_string());
    assert_eq!(last_comma(3, 1), ",".to_string());
    assert_eq!(last_comma(3, 2), String::new());
    assert_eq!(last_comma(0, 0), ",".to_string());
}
