//! Argument completion for the prompts whose arguments take a fixed set of values.

use vstd::prelude::*;
use crate::json::owned;
use crate::text::{ascii_lower_seq, chars_of, has_prefix, lower_ascii_chars};

verus! {

/// Whether `option` begins with `prefix`, ignoring ASCII letter case.
pub open spec fn completes(option: Seq<char>, prefix: Seq<char>) -> bool {
    has_prefix(ascii_lower_seq(option), ascii_lower_seq(prefix))
}

/// The options that `prefix` completes to, in order.
pub open spec fn completions_spec(options: Seq<Seq<char>>, prefix: Seq<char>) -> Seq<Seq<char>>
    decreases options.len(),
{
    if options.len() == 0 {
        seq![]
    } else if completes(options.last(), prefix) {
        completions_spec(options.drop_last(), prefix).push(options.last())
    } else {
        completions_spec(options.drop_last(), prefix)
    }
}

fn starts_with_ignore_case(option: &str, prefix: &str) -> (b: bool)
    ensures
        b == completes(option@, prefix@),
{
    let o = lower_ascii_chars(chars_of(option).as_slice());
    let p = lower_ascii_chars(chars_of(prefix).as_slice());
    if p.len() > o.len() {
        return false;
    }
    let mut i: usize = 0;
    while i < p.len()
        invariant
            i <= p@.len(),
            p@.len() <= o@.len(),
            o@ == ascii_lower_seq(option@),
            p@ == ascii_lower_seq(prefix@),
            forall|j: int| 0 <= j < i ==> o@[j] == p@[j],
        decreases p.len() - i,
    {
        if o[i] != p[i] {
            proof {
                assert(o@.take(p@.len() as int)[i as int] != p@[i as int]);
            }
            return false;
        }
        i = i + 1;
    }
    proof {
        assert(o@.take(p@.len() as int) =~= p@);
    }
    true
}

/// The options that `prefix` completes to (ignoring ASCII letter case), in order.
pub fn complete(options: &[&str], prefix: &str) -> (r: Vec<String>)
    ensures
        r@.map_values(|s: String| s@) == completions_spec(
            options@.map_values(|o: &str| o@),
            prefix@,
        ),
{
    let ghost ov = options@.map_values(|o: &str| o@);
    let mut r: Vec<String> = Vec::new();
    let mut i: usize = 0;
    while i < options.len()
        invariant
            i <= options@.len(),
            ov == options@.map_values(|o: &str| o@),
            r@.map_values(|s: String| s@) == completions_spec(ov.take(i as int), prefix@),
        decreases options.len() - i,
    {
        proof {
            assert(ov.take(i as int + 1).drop_last() =~= ov.take(i as int));
            assert(ov.take(i as int + 1).last() == options@[i as int]@);
        }
        if starts_with_ignore_case(options[i], prefix) {
            let ghost before = r@;
            r.push(owned(options[i]));
            proof {
                assert(r@.map_values(|s: String| s@) =~= before.map_values(|s: String| s@).push(
                    options@[i as int]@,
                ));
            }
        }
        i = i + 1;
    }
    proof {
        assert(ov.take(ov.len() as int) =~= ov);
    }
    r
}

/// Completions of the `kind` argument of the cross-reference review prompt.
pub fn complete_object_kind(prefix: &str) -> (r: Vec<String>)
    ensures
        r@.map_values(|s: String| s@) == completions_spec(
            seq!["class"@, "interface"@, "table"@, "data_entity"@, "job"@, "form"@],
            prefix@,
        ),
{
    let options: [&str; 6] = ["class", "interface", "table", "data_entity", "job", "form"];
    proof {
        assert(options@.map_values(|o: &str| o@) =~= seq![
            "class"@,
            "interface"@,
            "table"@,
            "data_entity"@,
            "job"@,
            "form"@,
        ]);
    }
    complete(&options, prefix)
}

/// Completions of the `scope` argument of the deployment impact prompt.
pub fn complete_target_scope(prefix: &str) -> (r: Vec<String>)
    ensures
        r@.map_values(|s: String| s@) == completions_spec(
            seq!["DEV"@, "UAT"@, "PRODUCTION"@],
            prefix@,
        ),
{
    let options: [&str; 3] = ["DEV", "UAT", "PRODUCTION"];
    proof {
        assert(options@.map_values(|o: &str| o@) =~= seq!["DEV"@, "UAT"@, "PRODUCTION"@]);
    }
    complete(&options, prefix)
}

/// Every completion is one of the options and begins with the prefix, ignoring
/// ASCII letter case; no option that begins with it is left out.
pub proof fn law_completions_match_prefix(options: Seq<Seq<char>>, prefix: Seq<char>)
    ensures
        forall|k: int|
            0 <= k < completions_spec(options, prefix).len() ==> options.contains(
                #[trigger] completions_spec(options, prefix)[k],
            ) && completes(completions_spec(options, prefix)[k], prefix),
        forall|j: int|
            0 <= j < options.len() && completes(#[trigger] options[j], prefix) ==> completions_spec(
                options,
                prefix,
            ).contains(options[j]),
    decreases options.len(),
{
    if options.len() > 0 {
        let init = options.drop_last();
        law_completions_match_prefix(init, prefix);
        let c = completions_spec(options, prefix);
        let ci = completions_spec(init, prefix);
        assert forall|k: int| 0 <= k < c.len() implies options.contains(#[trigger] c[k]) && completes(
            c[k],
            prefix,
        ) by {
            if k < ci.len() {
                assert(c[k] == ci[k]);
                let w = choose|w: int| 0 <= w < init.len() && init[w] == ci[k];
                assert(options[w] == init[w]);
            } else {
                assert(c[k] == options.last());
                assert(options[options.len() - 1] == options.last());
            }
        }
        assert forall|j: int| 0 <= j < options.len() && completes(#[trigger] options[j], prefix)
            implies c.contains(options[j]) by {
            if j < options.len() - 1 {
                assert(init[j] == options[j]);
                assert(ci.contains(init[j]));
                let w = choose|w: int| 0 <= w < ci.len() && ci[w] == init[j];
                assert(c[w] == ci[w]);
            } else {
                assert(c[c.len() - 1] == options.last());
            }
        }
    }
}

} // verus!
