//! Text extraction from message content.
use vstd::prelude::*;
use crate::schema::{ContentPart, MessageContent, part_texts, content_text};
use crate::text::join_with_newline;

verus! {

fn text_parts(parts: &Vec<ContentPart>) -> (r: Vec<String>)
    ensures
        r@.map_values(|p: String| p@) == part_texts(parts@),
{
    let mut out: Vec<String> = Vec::new();
    let mut i: usize = 0;
    while i < parts.len()
        invariant
            i <= parts.len(),
            out@.map_values(|p: String| p@) == part_texts(parts@.subrange(0, i as int)),
        decreases parts.len() - i,
    {
        proof {
            assert(parts@.subrange(0, i + 1).drop_last() =~= parts@.subrange(0, i as int));
        }
        match &parts[i] {
            ContentPart::Text(t) => {
                out.push(t.clone());
                proof {
                    assert(out@.map_values(|p: String| p@) =~= part_texts(
                        parts@.subrange(0, i as int),
                    ).push(t@));
                }
            },
            ContentPart::Other => {},
        }
        i = i + 1;
    }
    assert(parts@.subrange(0, parts@.len() as int) =~= parts@);
    out
}

/// The text of a message content: a plain string as it is, the text parts
/// joined with newlines (other parts dropped).
pub fn content_to_text(c: &MessageContent) -> (r: String)
    ensures
        r@ == content_text(*c),
{
    match c {
        MessageContent::Text(t) => t.clone(),
        MessageContent::Parts(ps) => {
            let texts = text_parts(ps);
            join_with_newline(&texts)
        },
    }
}

} // verus!
