//! Installed-model listings and the outcome of one-shot model commands.
use vstd::prelude::*;
use crate::text::{lines_of, split_lines, split_tokens, views, ws_tokens};

verus! {

/// The first whitespace-delimited token of each line that has one.
pub open spec fn first_tokens(ls: Seq<Seq<char>>) -> Seq<Seq<char>>
    decreases ls.len(),
{
    if ls.len() == 0 {
        seq![]
    } else {
        let r = first_tokens(ls.drop_last());
        let t = ws_tokens(ls.last());
        if t.len() > 0 {
            r.push(t[0])
        } else {
            r
        }
    }
}

/// Model names of a listing: the header line is skipped, and each later line
/// that is not blank contributes its first token.
pub open spec fn model_names(out: Seq<char>) -> Seq<Seq<char>> {
    let ls = lines_of(out);
    if ls.len() == 0 {
        seq![]
    } else {
        first_tokens(ls.subrange(1, ls.len() as int))
    }
}

/// Reads the model names from the standard output of a listing command.
pub fn parse_model_list(out: &str) -> (r: Vec<String>)
    ensures
        views(r@) == model_names(out@),
{
    let lines = split_lines(out);
    let ghost lv = views(lines@);
    let mut names: Vec<String> = Vec::new();
    if lines.len() == 0 {
        return names;
    }
    let mut i: usize = 1;
    assert(lv.subrange(1, 1) =~= Seq::<Seq<char>>::empty());
    assert(views(names@) =~= seq![]);
    while i < lines.len()
        invariant
            lv == views(lines@),
            lv.len() == lines@.len(),
            1 <= i <= lines.len(),
            views(names@) == first_tokens(lv.subrange(1, i as int)),
        decreases lines.len() - i,
    {
        let toks = split_tokens(lines[i].as_str());
        let ghost seg = lv.subrange(1, i + 1);
        assert(seg.drop_last() =~= lv.subrange(1, i as int));
        assert(seg.last() == lines@[i as int]@);
        if toks.len() > 0 {
            let t = toks[0].clone();
            let ghost before = names@;
            names.push(t);
            assert(views(names@) =~= views(before).push(t@));
        }
        i = i + 1;
    }
    assert(lv.subrange(1, lv.len() as int) == lv.subrange(1, i as int));
    names
}

/// The result of a listing command: its model names when it exited
/// successfully, else its error output.
pub fn listing_result(success: bool, stdout: &str, stderr: &str) -> (r: Result<Vec<String>, String>)
    ensures
        success ==> r is Ok && views(r->Ok_0@) == model_names(stdout@),
        !success ==> r is Err && r->Err_0@ == stderr@,
{
    if success {
        Ok(parse_model_list(stdout))
    } else {
        Err(stderr.to_owned())
    }
}

/// The result of a deletion command: success when it exited successfully,
/// else its error output.
pub fn deletion_result(success: bool, stderr: &str) -> (r: Result<(), String>)
    ensures
        success <==> r is Ok,
        !success ==> r->Err_0@ == stderr@,
{
    if success {
        Ok(())
    } else {
        Err(stderr.to_owned())
    }
}

/// Whether `model` is one of `names`.
pub fn is_installed(names: &Vec<String>, model: &str) -> (r: bool)
    ensures
        r == views(names@).contains(model@),
{
    let wanted = model.to_owned();
    let mut i: usize = 0;
    while i < names.len()
        invariant
            wanted@ == model@,
            i <= names.len(),
            forall|k: int| 0 <= k < i ==> names@[k]@ != model@,
        decreases names.len() - i,
    {
        if names[i] == wanted {
            assert(views(names@)[i as int] == model@);
            return true;
        }
        i = i + 1;
    }
    assert forall|k: int| 0 <= k < views(names@).len() implies views(names@)[k] != model@ by {
        assert(names@[k]@ != model@);
    }
    false
}

} // verus!
