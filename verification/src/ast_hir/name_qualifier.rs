//! Qualified names of imported items: the importing module refers to an
//! item as `Prefix'Name`, where the prefix is the imported module's last
//! path component.

use vstd::prelude::*;
use vstd::string::StringExecFns;

use crate::ast::ModulePath;

verus! {

/// The qualified form of `name` imported through `path`.
pub open spec fn qualified_name(path: ModulePath, name: Seq<char>) -> Seq<char> {
    let components = path.path_components();
    let prefix: Seq<char> = if components.len() > 0 {
        components.last()@
    } else {
        Seq::empty()
    };
    prefix + seq!['\''] + name
}

/// Qualifies `name` with the prefix of the module at `path`.
pub fn qualify(path: &ModulePath, name: &str) -> (qualified: String)
    ensures
        qualified@ == qualified_name(*path, name@),
{
    let components = match path {
        ModulePath::Internal(internal) => internal.components(),
        ModulePath::External(external) => external.components(),
    };
    let mut qualified = if components.len() > 0 {
        components[components.len() - 1].clone()
    } else {
        String::new()
    };
    qualified.append("'");
    qualified.append(name);
    proof {
        reveal_strlit("'");
        assert(("'")@ =~= seq!['\'']);
        assert(qualified@ =~= qualified_name(*path, name@));
    }
    qualified
}

} // verus!
