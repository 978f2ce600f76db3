//! Building text out of the pieces of a declaration.

use vstd::prelude::*;
use vstd::string::*;
use crate::model::texts_of;

verus! {

/// Every item with the separator in front of it, one after the other.
pub open spec fn prefixed_concat(items: Seq<Seq<char>>, sep: Seq<char>) -> Seq<char>
    decreases items.len(),
{
    if items.len() == 0 {
        Seq::empty()
    } else {
        prefixed_concat(items.drop_last(), sep) + sep + items.last()
    }
}

/// The items one after the other, with the separator between each two.
pub open spec fn join_texts(items: Seq<Seq<char>>, sep: Seq<char>) -> Seq<char> {
    if items.len() == 0 {
        Seq::empty()
    } else {
        items[0] + prefixed_concat(items.drop_first(), sep)
    }
}

/// The items joined by the separator and put between two brackets, or nothing
/// at all where there is no item.
pub open spec fn bracketed_unless_empty(
    open: Seq<char>,
    items: Seq<Seq<char>>,
    sep: Seq<char>,
    close: Seq<char>,
) -> Seq<char> {
    if items.len() == 0 {
        Seq::empty()
    } else {
        open + join_texts(items, sep) + close
    }
}

/// Appends to `out` the items from index `from` on, each behind a separator.
pub fn append_prefixed(out: &mut String, items: &Vec<String>, from: usize, sep: &str)
    requires
        from <= items.len(),
    ensures
        final(out)@ == old(out)@ + prefixed_concat(
            texts_of(items@).subrange(from as int, items.len() as int),
            sep@,
        ),
{
    let ghost all = texts_of(items@);
    let mut i: usize = from;
    while i < items.len()
        invariant
            from <= i <= items.len(),
            all == texts_of(items@),
            out@ == old(out)@ + prefixed_concat(all.subrange(from as int, i as int), sep@),
        decreases items.len() - i,
    {
        proof {
            let next = all.subrange(from as int, i + 1);
            assert(next.drop_last() =~= all.subrange(from as int, i as int));
            assert(next.last() == items@[i as int]@);
        }
        out.append(sep);
        out.append(items[i].as_str());
        i = i + 1;
        assert(out@ =~= old(out)@ + prefixed_concat(all.subrange(from as int, i as int), sep@));
    }
}

/// Appends to `out` the items with the separator between each two.
pub fn append_joined(out: &mut String, items: &Vec<String>, sep: &str)
    ensures
        final(out)@ == old(out)@ + join_texts(texts_of(items@), sep@),
{
    if items.len() > 0 {
        out.append(items[0].as_str());
        append_prefixed(out, items, 1, sep);
        assert(texts_of(items@).drop_first() =~= texts_of(items@).subrange(
            1,
            items.len() as int,
        ));
        assert(out@ =~= old(out)@ + join_texts(texts_of(items@), sep@));
    } else {
        assert(out@ =~= old(out)@ + join_texts(texts_of(items@), sep@));
    }
}

} // verus!
