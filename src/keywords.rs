use vstd::prelude::*;

use crate::text::{chars_of, contains_chars, occurs_in, seqs_of, split_chars, split_on};

verus! {

/// The non-empty pieces of `pieces`, in order.
pub open spec fn drop_empty(pieces: Seq<Seq<char>>) -> Seq<Seq<char>>
    decreases pieces.len(),
{
    if pieces.len() == 0 {
        pieces
    } else {
        let kept = drop_empty(pieces.drop_last());
        if pieces.last().len() > 0 {
            kept.push(pieces.last())
        } else {
            kept
        }
    }
}

/// The keywords written in one comma-separated field. Empty pieces are no
/// keywords: an empty field, or one of commas only, holds none.
pub open spec fn keyword_list(field: Seq<char>) -> Seq<Seq<char>> {
    drop_empty(split_on(field, ','))
}

/// Some keyword of `kws` stands in `text`.
pub open spec fn any_keyword_in(kws: Seq<Seq<char>>, text: Seq<char>) -> bool {
    exists|i: int| 0 <= i < kws.len() && occurs_in(#[trigger] kws[i], text)
}

/// The keyword at `i` is the first of `kws` that stands in `text`.
pub open spec fn first_keyword_at(kws: Seq<Seq<char>>, text: Seq<char>, i: int) -> bool {
    &&& 0 <= i < kws.len()
    &&& occurs_in(kws[i], text)
    &&& forall|j: int| 0 <= j < i ==> !occurs_in(#[trigger] kws[j], text)
}

proof fn lemma_drop_empty_keeps_nonempty(pieces: Seq<Seq<char>>)
    ensures
        forall|i: int| 0 <= i < drop_empty(pieces).len() ==> #[trigger] drop_empty(pieces)[i].len() > 0,
    decreases pieces.len(),
{
    if pieces.len() > 0 {
        let kept = drop_empty(pieces.drop_last());
        lemma_drop_empty_keeps_nonempty(pieces.drop_last());
        assert forall|i: int| 0 <= i < drop_empty(pieces).len() implies #[trigger] drop_empty(
            pieces,
        )[i].len() > 0 by {
            if i < kept.len() {
                assert(drop_empty(pieces)[i] == kept[i]);
            }
        }
    }
}

/// No keyword of a field is empty, so a keyword matches only text that
/// holds at least one character of its own.
pub proof fn lemma_keywords_are_nonempty(field: Seq<char>)
    ensures
        forall|i: int| 0 <= i < keyword_list(field).len() ==> #[trigger] keyword_list(field)[i].len() > 0,
{
    lemma_drop_empty_keeps_nonempty(split_on(field, ','));
}

/// Splits a comma-separated field into its keywords.
pub fn split_keywords(field: &str) -> (r: Vec<Vec<char>>)
    ensures
        seqs_of(r@) == keyword_list(field@),
{
    let chars = chars_of(field);
    let pieces = split_chars(&chars, ',');
    let ghost all = seqs_of(pieces@);
    let mut kept: Vec<Vec<char>> = Vec::new();
    let mut i: usize = 0;
    assert(all.take(0) =~= Seq::<Seq<char>>::empty());
    assert(seqs_of(kept@) =~= drop_empty(all.take(0)));
    while i < pieces.len()
        invariant
            i <= pieces.len(),
            all == seqs_of(pieces@),
            seqs_of(kept@) == drop_empty(all.take(i as int)),
        decreases pieces.len() - i,
    {
        assert(all.take(i + 1).drop_last() == all.take(i as int));
        assert(all.take(i + 1).last() == pieces@[i as int]@);
        if pieces[i].len() > 0 {
            kept.push(pieces[i].clone());
            assert(seqs_of(kept@) =~= drop_empty(all.take(i + 1)));
        } else {
            assert(seqs_of(kept@) =~= drop_empty(all.take(i + 1)));
        }
        i += 1;
    }
    assert(all.take(pieces.len() as int) == all);
    kept
}

/// The position of the first keyword that stands in `text`, if any does.
pub fn first_keyword(kws: &Vec<Vec<char>>, text: &Vec<char>) -> (r: Option<usize>)
    ensures
        match r {
            Some(i) => first_keyword_at(seqs_of(kws@), text@, i as int),
            None => !any_keyword_in(seqs_of(kws@), text@),
        },
{
    let ghost ks = seqs_of(kws@);
    let mut i: usize = 0;
    while i < kws.len()
        invariant
            i <= kws.len(),
            ks == seqs_of(kws@),
            forall|j: int| 0 <= j < i ==> !occurs_in(#[trigger] ks[j], text@),
        decreases kws.len() - i,
    {
        if contains_chars(text, &kws[i]) {
            return Some(i);
        }
        i += 1;
    }
    None
}

/// With no keyword or a single one, the text matches exactly when it holds
/// one of the keywords literally: no false positive, no false negative.
pub proof fn lemma_short_list_matches_literally(kws: Seq<Seq<char>>, text: Seq<char>)
    requires
        kws.len() <= 1,
    ensures
        kws.len() == 0 ==> !any_keyword_in(kws, text),
        kws.len() == 1 ==> (any_keyword_in(kws, text) <==> occurs_in(kws[0], text)),
{
    if kws.len() == 1 && occurs_in(kws[0], text) {
        assert(any_keyword_in(kws, text));
    }
}

/// The order of the keywords decides which one is reported, never whether
/// the text matches: two lists with the same keywords match the same texts.
pub proof fn lemma_order_does_not_decide_match(a: Seq<Seq<char>>, b: Seq<Seq<char>>, text: Seq<char>)
    requires
        a.to_set() == b.to_set(),
    ensures
        any_keyword_in(a, text) == any_keyword_in(b, text),
{
    if any_keyword_in(a, text) {
        let i = choose|i: int| 0 <= i < a.len() && occurs_in(#[trigger] a[i], text);
        assert(a.to_set().contains(a[i]));
        assert(b.to_set().contains(a[i]));
        let j = choose|j: int| 0 <= j < b.len() && b[j] == a[i];
        assert(occurs_in(b[j], text));
    }
    if any_keyword_in(b, text) {
        let i = choose|i: int| 0 <= i < b.len() && occurs_in(#[trigger] b[i], text);
        assert(b.to_set().contains(b[i]));
        assert(a.to_set().contains(b[i]));
        let j = choose|j: int| 0 <= j < a.len() && a[j] == b[i];
        assert(occurs_in(a[j], text));
    }
}

} // verus!
