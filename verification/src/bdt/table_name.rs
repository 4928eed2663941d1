use vstd::prelude::*;

verus! {

/// The languages a table's display names can carry.
#[derive(Clone, Copy, Debug, PartialEq, Eq, Structural, Hash)]
pub enum Language {
    EN,
    LV,
    PL,
    LT,
}

impl Default for Language {
    /// English is the language used when none is specified.
    fn default() -> (r: Self)
        ensures
            r == Language::EN,
    {
        Language::EN
    }
}

impl Language {
    /// Parses a language code; exactly the four known codes are accepted.
    pub fn from_code(input: &str) -> (r: Result<Language, ()>)
        ensures
            r == (if input@ == "EN"@ {
                Ok::<Language, ()>(Language::EN)
            } else if input@ == "LV"@ {
                Ok::<Language, ()>(Language::LV)
            } else if input@ == "PL"@ {
                Ok::<Language, ()>(Language::PL)
            } else if input@ == "LT"@ {
                Ok::<Language, ()>(Language::LT)
            } else {
                Err::<Language, ()>(())
            }),
    {
        let owned = input.to_owned();
        if owned == String::from_str("EN") {
            Ok(Language::EN)
        } else if owned == String::from_str("LV") {
            Ok(Language::LV)
        } else if owned == String::from_str("PL") {
            Ok(Language::PL)
        } else if owned == String::from_str("LT") {
            Ok(Language::LT)
        } else {
            Err(())
        }
    }
}

/// One localized set of display names for a table.
#[derive(Debug, PartialEq)]
pub struct Name {
    pub lang: Language,
    pub name: String,
    pub print_name: String,
    pub short_print_name: String,
}

impl Clone for Name {
    fn clone(&self) -> (r: Self)
        ensures
            r == *self,
    {
        Name {
            lang: self.lang,
            name: self.name.clone(),
            print_name: self.print_name.clone(),
            short_print_name: self.short_print_name.clone(),
        }
    }
}

impl Default for Name {
    /// The empty display name set, in the default language.
    fn default() -> (r: Self)
        ensures
            r.lang == Language::EN,
            r.name@ == Seq::<char>::empty(),
            r.print_name@ == Seq::<char>::empty(),
            r.short_print_name@ == Seq::<char>::empty(),
    {
        Name {
            lang: Language::EN,
            name: String::new(),
            print_name: String::new(),
            short_print_name: String::new(),
        }
    }
}

impl Name {
    pub fn new(lang: Language, name: String, print_name: String, short_print_name: String) -> (r:
        Name)
        ensures
            r == (Name { lang, name, print_name, short_print_name }),
    {
        Name { lang, name, print_name, short_print_name }
    }
}

/// The first entry of `names` whose language is `lang`, if any.
pub open spec fn first_name_for(names: Seq<Name>, lang: Language) -> Option<Name>
    decreases names.len(),
{
    if names.len() == 0 {
        None
    } else if names[0].lang == lang {
        Some(names[0])
    } else {
        first_name_for(names.drop_first(), lang)
    }
}

/// A table's localized display names, looked up by language.
///
/// Insertion does not enforce at most one entry per language; lookup returns
/// the first entry pushed for the requested language.
#[derive(Debug, PartialEq)]
pub struct NameList {
    names: Vec<Name>,
}

impl View for NameList {
    type V = Seq<Name>;

    closed spec fn view(&self) -> Seq<Name> {
        self.names@
    }
}

impl NameList {
    pub fn new(names: Vec<Name>) -> (r: Self)
        ensures
            r@ == names@,
    {
        NameList { names }
    }

    pub fn push(&mut self, name: Name)
        ensures
            final(self)@ == old(self)@.push(name),
    {
        self.names.push(name);
    }

    /// The entries in insertion order.
    pub fn entries(&self) -> (r: &Vec<Name>)
        ensures
            r@ == self@,
    {
        &self.names
    }

    /// The first name pushed for `lang`; `None` when the language has no
    /// entry, which is a normal outcome and not an error.
    pub fn get_table_name(&self, lang: Language) -> (r: Option<Name>)
        ensures
            r == first_name_for(self@, lang),
    {
        let n = self.names.len();
        proof {
            assert(self@.subrange(0, n as int) =~= self@);
        }
        for i in 0..n
            invariant
                n == self.names.len(),
                first_name_for(self@, lang) == first_name_for(self@.subrange(i as int, n as int), lang),
        {
            proof {
                assert(self@.subrange(i as int, n as int).drop_first() =~= self@.subrange(
                    i + 1,
                    n as int,
                ));
            }
            if self.names[i].lang == lang {
                return Some(self.names[i].clone());
            }
        }
        proof {
            assert(self@.subrange(n as int, n as int) =~= Seq::<Name>::empty());
        }
        None
    }
}

/// A language with no entry is looked up as `None`.
pub proof fn lemma_lookup_absent(names: Seq<Name>, lang: Language)
    requires
        forall|i: int| 0 <= i < names.len() ==> names[i].lang != lang,
    ensures
        first_name_for(names, lang) is None,
    decreases names.len(),
{
    if names.len() > 0 {
        lemma_lookup_absent(names.drop_first(), lang);
    }
}

/// A language with exactly one entry is looked up as exactly that entry.
pub proof fn lemma_lookup_unique(names: Seq<Name>, lang: Language, i: int)
    requires
        0 <= i < names.len(),
        names[i].lang == lang,
        forall|j: int| 0 <= j < names.len() && j != i ==> names[j].lang != lang,
    ensures
        first_name_for(names, lang) == Some(names[i]),
    decreases names.len(),
{
    if i == 0 {
    } else {
        lemma_lookup_unique(names.drop_first(), lang, i - 1);
    }
}

} // verus!
