use vstd::prelude::*;
use crate::render::{declaration_document, get_content};
use crate::scan::{command_names_each, command_names_in, command_names_in_all};

verus! {

/// Collects the command names of every source text, text by text in the
/// given order and, within a text, in order of occurrence.  Repeated names
/// are kept.
pub fn collect_names(sources: &Vec<String>) -> (r: Vec<String>)
    ensures
        r.deep_view() == command_names_in_all(sources.deep_view()),
{
    let each = command_names_each(sources);
    let ghost all = sources.deep_view();
    let mut names: Vec<String> = Vec::new();
    let mut i: usize = 0;
    while i < each.len()
        invariant
            all == sources.deep_view(),
            each@.len() == sources@.len(),
            forall|j: int|
                0 <= j < sources@.len() ==> (#[trigger] each@[j]).deep_view()
                    == command_names_in(sources@[j]@),
            0 <= i <= each.len(),
            names.deep_view() == command_names_in_all(all.take(i as int)),
        decreases each.len() - i,
    {
        assert(all.take(i + 1).drop_last() =~= all.take(i as int));
        assert(all[i as int] == sources[i as int]@);
        let mut found = each[i].clone();
        let ghost before = names.deep_view();
        let ghost added = found.deep_view();
        assert(added == command_names_in(all[i as int]));
        names.append(&mut found);
        assert(names.deep_view() =~= before + added);
        i = i + 1;
    }
    assert(all.take(sources.len() as int) =~= all);
    names
}

/// Produces the declaration document for the given source texts.  The
/// document depends on the contents of the texts alone, so generating again
/// from unchanged texts gives the same document.
pub fn generate_declaration(sources: &Vec<String>) -> (r: String)
    ensures
        r@ == declaration_document(command_names_in_all(sources.deep_view())),
{
    get_content(collect_names(sources))
}

/// Scanning a list of source texts made of two parts gives the names of the
/// first part followed by those of the second: the order of the name list
/// follows the order in which the texts are visited.
pub proof fn lemma_names_follow_visit_order(first: Seq<Seq<char>>, second: Seq<Seq<char>>)
    ensures
        command_names_in_all(first + second) == command_names_in_all(first)
            + command_names_in_all(second),
    decreases second.len(),
{
    if second.len() == 0 {
        assert(first + second =~= first);
        assert(command_names_in_all(first) + command_names_in_all(second)
            =~= command_names_in_all(first));
    } else {
        let joined = first + second;
        assert(joined.drop_last() =~= first + second.drop_last());
        assert(joined.last() == second.last());
        lemma_names_follow_visit_order(first, second.drop_last());
        assert(command_names_in_all(joined) =~= command_names_in_all(first)
            + command_names_in_all(second));
    }
}

} // verus!
