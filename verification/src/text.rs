//! Pieces of text, laid end to end.

use vstd::prelude::*;
use vstd::string::*;

verus! {

/// The pieces of `parts`, one after the other.
pub open spec fn concat(parts: Seq<Seq<char>>) -> Seq<char>
    decreases parts.len(),
{
    if parts.len() == 0 {
        Seq::empty()
    } else {
        concat(parts.drop_last()) + parts.last()
    }
}

/// One more piece goes behind the others.
pub proof fn concat_push(parts: Seq<Seq<char>>, piece: Seq<char>)
    ensures
        concat(parts.push(piece)) == concat(parts) + piece,
{
    assert(parts.push(piece).drop_last() =~= parts);
}

/// The first `n + 1` pieces are the first `n` and the piece at `n`.
pub proof fn concat_take(parts: Seq<Seq<char>>, n: int)
    requires
        0 <= n < parts.len(),
    ensures
        concat(parts.take(n + 1)) == concat(parts.take(n)) + parts[n],
{
    assert(parts.take(n + 1).drop_last() =~= parts.take(n));
}

/// The pieces that `piece` makes of `items`, one after the other.
pub open spec fn each<T>(items: Seq<T>, piece: spec_fn(T) -> Seq<char>) -> Seq<char> {
    concat(items.map_values(piece))
}

/// Of no items there is no text.
pub proof fn each_none<T>(items: Seq<T>, piece: spec_fn(T) -> Seq<char>)
    ensures
        each(items.take(0), piece) == Seq::<char>::empty(),
{
    assert(items.take(0).map_values(piece) =~= Seq::<Seq<char>>::empty());
}

/// The text of the first `n + 1` items is that of the first `n` and the
/// piece of the item at `n`.
pub proof fn each_take<T>(items: Seq<T>, piece: spec_fn(T) -> Seq<char>, n: int)
    requires
        0 <= n < items.len(),
    ensures
        each(items.take(n + 1), piece) == each(items.take(n), piece) + piece(items[n]),
{
    assert(items.take(n + 1).map_values(piece) =~= items.take(n).map_values(piece).push(
        piece(items[n]),
    ));
    concat_push(items.take(n).map_values(piece), piece(items[n]));
}

/// The text of all items is that of the first `items.len()`.
pub proof fn each_all<T>(items: Seq<T>, piece: spec_fn(T) -> Seq<char>)
    ensures
        each(items.take(items.len() as int), piece) == each(items, piece),
{
    assert(items.take(items.len() as int) =~= items);
}

/// What `text` is in lower case.
pub uninterp spec fn lowercased(text: Seq<char>) -> Seq<char>;

/// `str::to_lowercase`: the lowercase equivalent of `text`, which Unicode
/// defines for each text.
#[verifier::external_body]
pub(crate) fn lowercase(text: &str) -> (lower: String)
    ensures
        lower@ == lowercased(text@),
{
    text.to_lowercase()
}

/// Whether `text` reads `word`.
pub(crate) fn reads(text: &String, word: &str) -> (b: bool)
    ensures
        b == (text@ == word@),
{
    let other = String::from_str(word);
    *text == other
}

/// A copy of `texts`.
pub(crate) fn copy_texts(texts: &Vec<String>) -> (copy: Vec<String>)
    ensures
        copy.deep_view() == texts.deep_view(),
{
    let mut copy: Vec<String> = Vec::new();
    let mut i: usize = 0;
    while i < texts.len()
        invariant
            i <= texts.len(),
            copy.len() == i,
            forall|j: int| 0 <= j < i ==> copy[j]@ == texts[j]@,
        decreases texts.len() - i,
    {
        copy.push(texts[i].clone());
        i = i + 1;
    }
    assert(copy.deep_view() =~= texts.deep_view());
    copy
}

} // verus!
