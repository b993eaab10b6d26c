use vstd::prelude::*;

verus! {

/// Name of the generated declaration file inside the output directory.
pub const DECLARATION_FILE: &'static str = "invoke.d.ts";

/// Text that precedes the members of the `Commands` union.
pub const DECLARATION_HEADER: &'static str = "import * as tauri from '@tauri-apps/api/tauri';\ndeclare module '@tauri-apps/api/tauri' {\n    type Commands = \n\t\t  ";

/// Text that follows the members of the `Commands` union.
pub const DECLARATION_FOOTER: &'static str = ";\n    function invoke<T>(cmd: Commands, args?: InvokeArgs): Promise<T>;\n}";

/// Placed before every member of the union but the first.
pub const MEMBER_SEPARATOR: &'static str = "\n\t\t| ";

/// Build-system directive that asks for a rerun when the named file changes.
pub const RERUN_PREFIX: &'static str = "cargo:rerun-if-changed=";

/// A command name as a single-quoted string literal type.
pub open spec fn quoted(name: Seq<char>) -> Seq<char> {
    seq!['\''] + name + seq!['\'']
}

/// The quoted names, in order, joined by `MEMBER_SEPARATOR`.
pub open spec fn union_members(names: Seq<Seq<char>>) -> Seq<char>
    decreases names.len(),
{
    if names.len() == 0 {
        Seq::empty()
    } else if names.len() == 1 {
        quoted(names[0])
    } else {
        union_members(names.drop_last()) + MEMBER_SEPARATOR@ + quoted(names.last())
    }
}

/// The whole declaration document for an ordered list of command names.
pub open spec fn declaration_document(names: Seq<Seq<char>>) -> Seq<char> {
    DECLARATION_HEADER@ + union_members(names) + DECLARATION_FOOTER@
}

/// Renders the declaration document for `names`, keeping their order and any
/// repeated name.
pub fn get_content(names: Vec<String>) -> (r: String)
    ensures
        r@ == declaration_document(names.deep_view()),
{
    let ghost all = names.deep_view();
    let mut out = String::from_str(DECLARATION_HEADER);
    let mut i: usize = 0;
    while i < names.len()
        invariant
            all == names.deep_view(),
            0 <= i <= names.len(),
            out@ == DECLARATION_HEADER@ + union_members(all.take(i as int)),
        decreases names.len() - i,
    {
        assert(all.take(i + 1).drop_last() =~= all.take(i as int));
        assert(all[i as int] == names[i as int]@);
        if i > 0 {
            out.append(MEMBER_SEPARATOR);
        }
        out.append("'");
        out.append(names[i].as_str());
        out.append("'");
        proof {
            reveal_strlit("'");
            if i == 0 {
                assert(all.take(1) =~= seq![all[0]]);
            }
        }
        assert(out@ =~= DECLARATION_HEADER@ + union_members(all.take(i + 1)));
        i = i + 1;
    }
    assert(all.take(names.len() as int) =~= all);
    out.append(DECLARATION_FOOTER);
    out
}

/// The directive that registers `path` as an input of the generation step.
pub fn rerun_directive(path: &str) -> (r: String)
    ensures
        r@ == RERUN_PREFIX@ + path@,
{
    let mut out = String::from_str(RERUN_PREFIX);
    out.append(path);
    out
}

} // verus!
