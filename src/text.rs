use vstd::prelude::*;

verus! {

/// Relies on `String::push_str`: appends the given slice at the end.
pub assume_specification[ String::push_str ](s: &mut String, string: &str)
    ensures
        final(s)@ == old(s)@ + string@,
;

/// The pieces of `parts` joined with a newline between consecutive pieces.
pub open spec fn join_lines(parts: Seq<Seq<char>>) -> Seq<char>
    decreases parts.len(),
{
    if parts.len() == 0 {
        Seq::empty()
    } else if parts.len() == 1 {
        parts[0]
    } else {
        join_lines(parts.drop_last()) + seq!['\n'] + parts.last()
    }
}

/// Joins the strings with `'\n'` between consecutive ones.
pub fn join_with_newline(parts: &Vec<String>) -> (r: String)
    ensures
        r@ == join_lines(parts@.map_values(|p: String| p@)),
{
    let mut out = String::new();
    let mut i: usize = 0;
    while i < parts.len()
        invariant
            i <= parts.len(),
            out@ == join_lines(parts@.subrange(0, i as int).map_values(|p: String| p@)),
        decreases parts.len() - i,
    {
        proof {
            let pre = parts@.subrange(0, i as int).map_values(|p: String| p@);
            let next = parts@.subrange(0, i + 1).map_values(|p: String| p@);
            assert(next.drop_last() =~= pre);
            assert(next.last() == parts@[i as int]@);
            reveal_strlit("\n");
        }
        if i > 0 {
            out.push_str("\n");
        }
        out.push_str(parts[i].as_str());
        i = i + 1;
    }
    proof {
        assert(parts@.subrange(0, parts@.len() as int) =~= parts@);
    }
    out
}

} // verus!

verus! {

/// Copies a list of strings.
pub fn copy_strings(v: &Vec<String>) -> (r: Vec<String>)
    ensures
        r@ == v@,
{
    let mut out: Vec<String> = Vec::new();
    let mut i: usize = 0;
    while i < v.len()
        invariant
            i <= v.len(),
            out@ == v@.subrange(0, i as int),
        decreases v.len() - i,
    {
        out.push(v[i].clone());
        proof {
            assert(out@ =~= v@.subrange(0, i + 1));
        }
        i = i + 1;
    }
    assert(v@.subrange(0, v@.len() as int) =~= v@);
    out
}

pub fn copy_opt_string(o: &Option<String>) -> (r: Option<String>)
    ensures
        r == *o,
{
    match o {
        Some(s) => Some(s.clone()),
        None => None,
    }
}

} // verus!
