//! Paths as text, with `/` between the components.

use vstd::prelude::*;
use vstd::string::*;

verus! {

/// The path of `comp` below `base`: an absolute `comp` stands alone, and one
/// separator is put between the two unless `base` is empty or ends with one.
pub open spec fn join_spec(base: Seq<char>, comp: Seq<char>) -> Seq<char> {
    if comp.len() > 0 && comp[0] == '/' {
        comp
    } else if base.len() == 0 {
        comp
    } else if base[base.len() - 1] == '/' {
        base + comp
    } else {
        base + seq!['/'] + comp
    }
}

/// Joins a component to a base path.
pub fn join(base: &str, comp: &str) -> (r: String)
    ensures
        r@ == join_spec(base@, comp@),
{
    let nb = base.unicode_len();
    let nc = comp.unicode_len();
    if nc > 0 && comp.get_char(0) == '/' {
        String::from_str(comp)
    } else if nb == 0 {
        String::from_str(comp)
    } else if base.get_char(nb - 1) == '/' {
        let mut s = String::from_str(base);
        s.append(comp);
        s
    } else {
        proof {
            reveal_strlit("/");
            assert("/"@ =~= seq!['/']);
        }
        let mut s = String::from_str(base);
        s.append("/");
        s.append(comp);
        s
    }
}

} // verus!
