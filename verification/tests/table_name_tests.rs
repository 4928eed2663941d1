use bdt::bdt::table_name::{Language, Name, NameList};

fn name(lang: Language, text: &str) -> Name {
    Name::new(
        lang,
        text.to_string(),
        format!("{} print", text),
        format!("{} short", text),
    )
}

#[test]
fn lookup_returns_none_for_language_without_entry() {
    let mut names = NameList::new(Vec::new());
    names.push(name(Language::EN, "table"));
    assert_eq!(names.get_table_name(Language::PL), None);
}

#[test]
fn lookup_returns_the_single_pushed_name() {
    let mut names = NameList::new(Vec::new());
    let lv = name(Language::LV, "tabula");
    names.push(name(Language::EN, "table"));
    names.push(lv.clone());
    assert_eq!(names.get_table_name(Language::LV), Some(lv));
}

#[test]
fn lookup_returns_the_first_of_two_entries() {
    let first = name(Language::EN, "first");
    let second = name(Language::EN, "second");
    let mut names = NameList::new(vec![first.clone(), second]);
    assert_eq!(names.get_table_name(Language::EN), Some(first.clone()));
    names.push(name(Language::EN, "third"));
    assert_eq!(names.get_table_name(Language::EN), Some(first));
}

#[test]
fn language_parses_exactly_the_known_codes() {
    assert_eq!(Language::from_code("EN"), Ok(Language::EN));
    assert_eq!(Language::from_code("LV"), Ok(Language::LV));
    assert_eq!(Language::from_code("PL"), Ok(Language::PL));
    assert_eq!(Language::from_code("LT"), Ok(Language::LT));
    assert_eq!(Language::from_code("en"), Err(()));
    assert_eq!(Language::from_code(""), Err(()));
    assert_eq!(Language::from_code("DE"), Err(()));
}

#[test]
fn english_is_the_default_language() {
    assert_eq!(Language::default(), Language::EN);
    let d = Name::default();
    assert_eq!(d.lang, Language::EN);
    assert_eq!(d.name, String::new());
    assert_eq!(d.print_name, String::new());
    assert_eq!(d.short_print_name, String::new());
}
