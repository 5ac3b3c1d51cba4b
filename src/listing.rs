use vstd::prelude::*;
use crate::extension::{Extension, ExtensionError};

verus! {

/// The shown line when nothing is installed.
pub const NO_EXTENSIONS: &'static str = "No extensions are currently installed.";

/// The outcome of enumerating canonical storage: the extensions that
/// loaded, and why the others were filtered out, each in walk order.
#[derive(Debug)]
pub struct Listing {
    pub installed: Vec<Extension>,
    pub filtered: Vec<ExtensionError>,
}

/// The extensions that loaded, in order.
pub open spec fn loaded_of(s: Seq<Result<Extension, ExtensionError>>) -> Seq<Extension>
    decreases s.len(),
{
    if s.len() == 0 {
        Seq::empty()
    } else {
        match s.last() {
            Ok(e) => loaded_of(s.drop_last()).push(e),
            Err(_) => loaded_of(s.drop_last()),
        }
    }
}

/// The failures, in order.
pub open spec fn refused_of(s: Seq<Result<Extension, ExtensionError>>) -> Seq<ExtensionError>
    decreases s.len(),
{
    if s.len() == 0 {
        Seq::empty()
    } else {
        match s.last() {
            Ok(_) => refused_of(s.drop_last()),
            Err(e) => refused_of(s.drop_last()).push(e),
        }
    }
}

/// Split the load results of every stored entry into the extensions to
/// list and the entries that were filtered out; one bad entry never hides
/// the others.
pub fn sort_listing(results: Vec<Result<Extension, ExtensionError>>) -> (r: Listing)
    ensures
        r.installed@ == loaded_of(results@),
        r.filtered@ == refused_of(results@),
{
    let ghost orig = results@;
    let mut rest = results;
    let mut installed: Vec<Extension> = Vec::new();
    let mut filtered: Vec<ExtensionError> = Vec::new();
    let ghost mut k: int = 0;
    while rest.len() > 0
        invariant
            0 <= k <= orig.len(),
            rest@ == orig.subrange(k, orig.len() as int),
            installed@ == loaded_of(orig.subrange(0, k)),
            filtered@ == refused_of(orig.subrange(0, k)),
        decreases rest.len(),
    {
        let item = rest.remove(0);
        proof {
            assert(orig.subrange(0, k + 1).drop_last() =~= orig.subrange(0, k));
            assert(orig.subrange(0, k + 1).last() == item);
        }
        match item {
            Ok(e) => installed.push(e),
            Err(e) => filtered.push(e),
        }
        proof {
            k = k + 1;
            assert(rest@ =~= orig.subrange(k, orig.len() as int));
        }
    }
    proof {
        assert(orig.subrange(0, k) =~= orig);
    }
    Listing { installed, filtered }
}

/// The shown line of one installed extension: its name, then its
/// description if it has one.
pub open spec fn line_of(e: Extension) -> Seq<char> {
    match e.manifest_spec().description {
        Some(d) => e.manifest_spec().name@ + "  "@ + d@,
        None => e.manifest_spec().name@,
    }
}

/// The shown line of one installed extension.
pub fn listing_line(e: &Extension) -> (r: String)
    ensures
        r@ == line_of(*e),
{
    match e.description() {
        Some(d) => String::from_str(e.name()).concat("  ").concat(d),
        None => String::from_str(e.name()),
    }
}

/// The lines that list the installed extensions; an explicit notice when
/// there are none.
pub fn listing_lines(exts: &Vec<Extension>) -> (r: Vec<String>)
    ensures
        exts@.len() == 0 ==> r@.len() == 1 && r@[0]@ == NO_EXTENSIONS@,
        exts@.len() > 0 ==> r@.len() == exts@.len() && forall|i: int|
            0 <= i < exts@.len() ==> #[trigger] r@[i]@ == line_of(exts@[i]),
{
    let mut r: Vec<String> = Vec::new();
    if exts.len() == 0 {
        r.push(String::from_str(NO_EXTENSIONS));
        return r;
    }
    let mut i: usize = 0;
    while i < exts.len()
        invariant
            i <= exts@.len(),
            r@.len() == i,
            forall|j: int| 0 <= j < i ==> #[trigger] r@[j]@ == line_of(exts@[j]),
        decreases exts.len() - i,
    {
        r.push(listing_line(&exts[i]));
        i = i + 1;
    }
    r
}

/// Enumeration keeps exactly the entries that loaded: every success is
/// listed and every failure is reported as filtered, so the two together
/// account for each stored entry.
pub proof fn lemma_listing_accounts_for_every_entry(s: Seq<Result<Extension, ExtensionError>>)
    ensures
        loaded_of(s).len() + refused_of(s).len() == s.len(),
    decreases s.len(),
{
    if s.len() > 0 {
        lemma_listing_accounts_for_every_entry(s.drop_last());
    }
}

proof fn lemma_listing_concat(
    a: Seq<Result<Extension, ExtensionError>>,
    b: Seq<Result<Extension, ExtensionError>>,
)
    ensures
        loaded_of(a + b) == loaded_of(a) + loaded_of(b),
        refused_of(a + b) == refused_of(a) + refused_of(b),
    decreases b.len(),
{
    if b.len() == 0 {
        assert(a + b =~= a);
        assert(loaded_of(a) + loaded_of(b) =~= loaded_of(a));
        assert(refused_of(a) + refused_of(b) =~= refused_of(a));
    } else {
        lemma_listing_concat(a, b.drop_last());
        assert((a + b).drop_last() =~= a + b.drop_last());
        assert((a + b).last() == b.last());
        assert(loaded_of(a) + loaded_of(b.drop_last()).push(b.last()->Ok_0) =~= (loaded_of(a)
            + loaded_of(b.drop_last())).push(b.last()->Ok_0));
        assert(refused_of(a) + refused_of(b.drop_last()).push(b.last()->Err_0) =~= (refused_of(
            a,
        ) + refused_of(b.drop_last())).push(b.last()->Err_0));
    }
}

/// One entry that failed to load (a corrupt package, or one whose manifest
/// declares another name than its directory) is reported as filtered and
/// hides nothing: the entries before and after it are listed exactly as
/// they would be without it.
pub proof fn lemma_failed_entry_hides_nothing(
    before: Seq<Result<Extension, ExtensionError>>,
    e: ExtensionError,
    after: Seq<Result<Extension, ExtensionError>>,
)
    ensures
        loaded_of(before + seq![Err(e)] + after) == loaded_of(before + after),
        refused_of(before + seq![Err(e)] + after) == refused_of(before).push(e) + refused_of(
            after,
        ),
{
    let one: Seq<Result<Extension, ExtensionError>> = seq![Err(e)];
    lemma_listing_concat(before + one, after);
    lemma_listing_concat(before, one);
    lemma_listing_concat(before, after);
    assert(one.drop_last() =~= Seq::<Result<Extension, ExtensionError>>::empty());
    assert(one.last() == Err::<Extension, ExtensionError>(e));
    assert(loaded_of(one.drop_last()) =~= Seq::<Extension>::empty());
    assert(refused_of(one.drop_last()) =~= Seq::<ExtensionError>::empty());
    assert(loaded_of(one) =~= Seq::<Extension>::empty());
    assert(refused_of(one) =~= seq![e]);
    assert(loaded_of(before) + loaded_of(one) =~= loaded_of(before));
    assert(refused_of(before) + refused_of(one) =~= refused_of(before).push(e));
}

} // verus!
