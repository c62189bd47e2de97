//! Text assembled from parts.

use vstd::prelude::*;
use vstd::string::StringExecFns;

verus! {

/// The concatenation of `parts`, first part first.
pub open spec fn concat(parts: Seq<Seq<char>>) -> Seq<char>
    decreases parts.len(),
{
    if parts.len() == 0 {
        Seq::empty()
    } else {
        concat(parts.drop_last()) + parts.last()
    }
}

/// The views of `texts`, in the same order.
pub open spec fn text_views(texts: Seq<String>) -> Seq<Seq<char>> {
    Seq::new(texts.len(), |i: int| texts[i]@)
}

/// Concatenating one part more appends that part.
pub proof fn lemma_concat_step(parts: Seq<Seq<char>>, i: int)
    requires
        0 <= i < parts.len(),
    ensures
        concat(parts.take(i + 1)) == concat(parts.take(i)) + parts[i],
{
    assert(parts.take(i + 1).drop_last() =~= parts.take(i));
}

/// Appends every text of `parts` to `out`, first part first.
pub fn append_all(out: &mut String, parts: &Vec<String>)
    ensures
        final(out)@ == old(out)@ + concat(text_views(parts@)),
{
    let ghost start = out@;
    let ghost views = text_views(parts@);
    let mut i: usize = 0;
    while i < parts.len()
        invariant
            i <= parts.len(),
            views == text_views(parts@),
            out@ == start + concat(views.take(i as int)),
        decreases parts.len() - i,
    {
        proof {
            lemma_concat_step(views, i as int);
            assert(start + (concat(views.take(i as int)) + views[i as int]) =~= start + concat(
                views.take(i as int),
            ) + views[i as int]);
        }
        out.append(parts[i].as_str());
        i += 1;
    }
    assert(views.take(parts.len() as int) =~= views);
}

} // verus!
