//! A report as it stands on the error stream.

use vstd::prelude::*;
use vstd::string::*;

verus! {

/// The characters that reach the stream when `lines` are written in order,
/// each followed by a newline.
pub open spec fn text(lines: Seq<Seq<char>>) -> Seq<char>
    decreases lines.len(),
{
    if lines.len() == 0 {
        Seq::empty()
    } else {
        text(lines.drop_last()) + lines.last() + seq!['\n']
    }
}

/// Writing one line gives the line and a newline.
pub proof fn lemma_text_one(line: Seq<char>)
    ensures
        text(seq![line]) == line + seq!['\n'],
{
    assert(seq![line].drop_last() =~= Seq::<Seq<char>>::empty());
    assert(text(Seq::<Seq<char>>::empty()) =~= Seq::<char>::empty());
    assert(text(seq![line]) =~= line + seq!['\n']);
}

/// Writing `a` and then `b` gives the text of `a` followed by the text of
/// `b`.
pub proof fn lemma_text_concat(a: Seq<Seq<char>>, b: Seq<Seq<char>>)
    ensures
        text(a + b) == text(a) + text(b),
    decreases b.len(),
{
    if b.len() == 0 {
        assert(a + b =~= a);
        assert(text(a) + text(b) =~= text(a));
    } else {
        lemma_text_concat(a, b.drop_last());
        assert((a + b).drop_last() =~= a + b.drop_last());
        assert((a + b).last() == b.last());
        assert(text(a + b) =~= text(a) + text(b));
    }
}

/// Joins the lines of a report into the text that is written: every line,
/// in order, each followed by a newline.
pub fn report_text(lines: &Vec<String>) -> (out: String)
    ensures
        out@ == text(lines.deep_view()),
{
    proof {
        reveal_strlit("\n");
    }
    let mut out = String::new();
    let mut i: usize = 0;
    while i < lines.len()
        invariant
            i <= lines.len(),
            "\n"@ == seq!['\n'],
            out@ == text(lines.deep_view().take(i as int)),
        decreases lines.len() - i,
    {
        out.append(lines[i].as_str());
        out.append("\n");
        proof {
            let all = lines.deep_view();
            let next = all.take(i + 1);
            assert(next.drop_last() =~= all.take(i as int));
            assert(next.last() == lines[i as int]@);
            assert(out@ =~= text(next));
        }
        i += 1;
    }
    assert(lines.deep_view().take(i as int) =~= lines.deep_view());
    out
}

} // verus!
