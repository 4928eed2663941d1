//! The verified decisions behind the script renderers: which tables a
//! rendering takes, and the small textual flags its templates ask for. The
//! templating itself is plain text work and lives outside this crate.

use crate::bdt::Bdt;
use crate::seqs::lemma_filter_push;
use vstd::prelude::*;

verus! {

/// A table whose skip marker reads `skip` is left out of a rendering.
pub open spec fn table_kept() -> spec_fn(Bdt) -> bool {
    |b: Bdt| b.skip@ != "skip"@
}

/// The tables a rendering takes, in their order.
pub open spec fn kept_tables(tables: Seq<Bdt>) -> Seq<Bdt> {
    tables.filter(table_kept())
}

/// Keeps exactly the tables whose skip marker does not read `skip`.
pub fn filter_not_skipped(tables: Vec<Bdt>) -> (r: Vec<Bdt>)
    ensures
        r@ == kept_tables(tables@),
{
    let ghost orig = tables@;
    let skip_marker = String::from_str("skip");
    let mut rest = tables;
    let mut result: Vec<Bdt> = Vec::new();
    let ghost mut done: Seq<Bdt> = Seq::empty();
    proof {
        assert(done.filter(table_kept()) =~= Seq::<Bdt>::empty());
        assert(done + rest@ =~= orig);
    }
    while rest.len() > 0
        invariant
            skip_marker@ == "skip"@,
            orig == done + rest@,
            result@ == done.filter(table_kept()),
        decreases rest@.len(),
    {
        let ghost prev_done = done;
        let ghost prev_rest = rest@;
        let x = rest.remove(0);
        proof {
            assert(prev_done + prev_rest =~= prev_done.push(x) + rest@);
            done = done.push(x);
            lemma_filter_push(prev_done, x, table_kept());
        }
        if !(x.skip == skip_marker) {
            result.push(x);
        }
    }
    proof {
        assert(done + rest@ =~= done);
    }
    result
}

/// The key flag as the storage layout writes it: `Y` for a key column, `N`
/// otherwise.
pub fn yn_flag(is_key: bool) -> (r: String)
    ensures
        is_key ==> r@ == "Y"@,
        !is_key ==> r@ == "N"@,
{
    if is_key {
        String::from_str("Y")
    } else {
        String::from_str("N")
    }
}

/// The separator written after list item `index` of a list of `length`
/// items: a comma after every item but the last.
pub fn last_comma(length: u64, index: u64) -> (r: String)
    requires
        index < u64::MAX,
    ensures
        length == index + 1 ==> r@ == Seq::<char>::empty(),
        length != index + 1 ==> r@ == ","@,
{
    if length != index + 1 {
        String::from_str(",")
    } else {
        String::new()
    }
}

} // verus!
