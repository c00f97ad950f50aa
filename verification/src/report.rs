//! Rendering a chain of error causes for display: the outermost cause first,
//! each further cause introduced on its own line, and each cause followed by
//! where it happened when that is known.

use vstd::prelude::*;
use vstd::string::StrSliceExecFns;
use vstd::string::StringExecFns;

verus! {

/// The text one cause contributes to the report: a connecting header for
/// every cause but the first, the cause itself, then either the place it
/// happened or a bare line break.
pub open spec fn spec_chain_entry(first: bool, cause: Seq<char>, place: Option<Seq<char>>) -> Seq<
    char,
> {
    (if first {
        Seq::<char>::empty()
    } else {
        "\tWhich caused the following issue:\n"@
    }) + cause + (match place {
        Option::Some(p) => if p.len() > 0 {
            "\tThis happened at "@ + p + "\n"@
        } else {
            "\n"@
        },
        Option::None => "\n"@,
    })
}

/// The report built from the first `n` causes.
pub open spec fn spec_chain(causes: Seq<Seq<char>>, places: Seq<Option<Seq<char>>>, n: int) -> Seq<
    char,
>
    decreases n,
{
    if n <= 0 {
        Seq::<char>::empty()
    } else {
        spec_chain(causes, places, n - 1) + spec_chain_entry(n == 1, causes[n - 1], places[n - 1])
    }
}

/// Render a chain of causes, given outermost first, with for each cause the
/// place it happened, where one is known.
pub fn error_chain_to_string(causes: &Vec<String>, places: &Vec<Option<String>>) -> (r: String)
    requires
        causes@.len() == places@.len(),
    ensures
        r@ == spec_chain(causes.deep_view(), places.deep_view(), causes@.len() as int),
{
    let mut r: String = String::new();
    let n: usize = causes.len();
    let mut i: usize = 0;
    while i < n
        invariant
            causes@.len() == places@.len(),
            n == causes@.len(),
            0 <= i <= n,
            r@ == spec_chain(causes.deep_view(), places.deep_view(), i as int),
        decreases n - i,
    {
        if i > 0 {
            r.append("\tWhich caused the following issue:\n");
        }
        r.append(causes[i].as_str());
        match &places[i] {
            Some(p) => {
                if p.as_str().unicode_len() > 0 {
                    r.append("\tThis happened at ");
                    r.append(p.as_str());
                    r.append("\n");
                } else {
                    r.append("\n");
                }
            },
            None => {
                r.append("\n");
            },
        }
        proof {
            assert(causes.deep_view()[i as int] == causes@[i as int]@);
            assert(places.deep_view()[i as int] == match places@[i as int] {
                Option::Some(s) => Option::Some(s@),
                Option::None => Option::<Seq<char>>::None,
            });
            assert(r@ =~= spec_chain(causes.deep_view(), places.deep_view(), i as int)
                + spec_chain_entry(
                i == 0,
                causes.deep_view()[i as int],
                places.deep_view()[i as int],
            ));
        }
        i = i + 1;
    }
    r
}

} // verus!
