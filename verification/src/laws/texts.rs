//! Laws of texts: splitting, replacing, filling templates.

use vstd::prelude::*;
use vstd::string::*;

use crate::text::{
    chars_of, fills_view, html, join_with_sep, law_replaced_at_first_match, law_replaced_without_match,
    law_split_concat, law_split_counts, law_split_without_sep, occurs_at, replace_text, same_text,
    split_text, texts_view,
};

verus! {

/// Two texts are the same exactly if they have the same characters, and the characters of a text
/// are all of them, in order.
pub proof fn law_texts_are_their_characters(a: &str, b: &str, same: bool, chars: Vec<char>)
    requires
        call_ensures(same_text, (a, b), same),
        call_ensures(chars_of, (a,), chars),
    ensures
        same <==> a@ =~= b@,
        chars@.len() == a@.len(),
        forall|i: int| 0 <= i < a@.len() ==> #[trigger] chars@[i] == a@[i],
{
}

/// A text without a separator is split into itself.
pub proof fn law_no_separator_no_split(s: &str, sep: char, pieces: Vec<String>)
    requires
        call_ensures(split_text, (s, sep), pieces),
        !s@.contains(sep),
    ensures
        pieces@.len() == 1,
        pieces@[0]@ == s@,
{
    law_split_without_sep(s@, sep);
    assert(texts_view(pieces@).len() == 1);
    assert(texts_view(pieces@)[0] == s@);
}

/// Splitting goes through: what stands before a separator and what stands behind it are split as
/// if each stood alone.
pub proof fn law_split_at_a_separator(
    a: &str,
    b: &str,
    whole: &str,
    sep: char,
    front: Vec<String>,
    back: Vec<String>,
    pieces: Vec<String>,
)
    requires
        whole@ == a@ + seq![sep] + b@,
        call_ensures(split_text, (a, sep), front),
        call_ensures(split_text, (b, sep), back),
        call_ensures(split_text, (whole, sep), pieces),
    ensures
        pieces@.len() == front@.len() + back@.len(),
        forall|i: int| 0 <= i < front@.len() ==> (#[trigger] pieces@[i])@ == front@[i]@,
        forall|i: int|
            0 <= i < back@.len() ==> pieces@[front@.len() + i]@ == (#[trigger] back@[i])@,
{
    law_split_concat(a@, b@, sep);
    let all = texts_view(pieces@);
    assert(all == texts_view(front@) + texts_view(back@));
    assert(all.len() == pieces@.len());
    assert forall|i: int| 0 <= i < front@.len() implies (#[trigger] pieces@[i])@ == front@[i]@ by {
        assert(all[i] == texts_view(front@)[i]);
    }
    assert forall|i: int| 0 <= i < back@.len() implies pieces@[front@.len() + i]@ == (
    #[trigger] back@[i])@ by {
        assert(all[front@.len() + i] == texts_view(back@)[i]);
    }
}

/// There is one piece more than there are separators.
pub proof fn law_pieces_are_counted(s: &str, sep: char, pieces: Vec<String>)
    requires
        call_ensures(split_text, (s, sep), pieces),
    ensures
        pieces@.len() == s@.to_multiset().count(sep) + 1,
{
    law_split_counts(s@, sep);
    assert(texts_view(pieces@).len() == pieces@.len());
}

/// Joining puts one separator between each two pieces: the pieces of two lists joined are the first
/// list joined, a separator, and the second list joined.
pub proof fn law_join_concat(one: Seq<Seq<char>>, two: Seq<Seq<char>>, piece: Seq<char>, sep: char)
    requires
        one.len() > 0,
        two.len() > 0,
    ensures
        join_with_sep(seq![piece], sep) == piece,
        join_with_sep(one + two, sep) == join_with_sep(one, sep) + seq![sep] + join_with_sep(
            two,
            sep,
        ),
    decreases two.len(),
{
    let front = join_with_sep(one, sep);
    assert((one + two).last() == two.last());
    assert((one + two).drop_last() =~= one + two.drop_last());
    if two.len() == 1 {
        assert(two.drop_last() =~= Seq::<Seq<char>>::empty());
        assert(one + two.drop_last() =~= one);
        assert(join_with_sep(one + two, sep) =~= front + seq![sep] + join_with_sep(two, sep));
    } else {
        law_join_concat(one, two.drop_last(), piece, sep);
        assert(join_with_sep(one + two, sep) =~= front + seq![sep] + join_with_sep(two, sep));
    }
}

/// A text in which the pattern stands nowhere is left alone.
pub proof fn law_no_match_no_change(s: &str, pat: &str, to: &str, out: String)
    requires
        call_ensures(replace_text, (s, pat, to), out),
        pat@.len() > 0,
        forall|i: int|
            0 <= i <= s@.len() - pat@.len() ==> #[trigger] s@.subrange(i, i + pat@.len()) != pat@,
    ensures
        out@ == s@,
{
    assert forall|i: int| !occurs_at(s@, pat@, i) by {
        if 0 <= i && i + pat@.len() <= s@.len() {
            assert(s@.subrange(i, i + pat@.len()) != pat@);
        }
    }
    law_replaced_without_match(s@, pat@, to@);
}

/// The first match is replaced, what stands before it is kept, and what stands behind it is treated
/// as if it stood alone.
pub proof fn law_first_match_is_replaced(
    s: &str,
    pat: &str,
    to: &str,
    before: Seq<char>,
    behind: &str,
    out: String,
    rest: String,
)
    requires
        pat@.len() > 0,
        s@ == before + pat@ + behind@,
        forall|i: int|
            0 <= i < before.len() ==> #[trigger] s@.subrange(i, i + pat@.len()) != pat@,
        call_ensures(replace_text, (s, pat, to), out),
        call_ensures(replace_text, (behind, pat, to), rest),
    ensures
        out@ == before + to@ + rest@,
{
    let at = before.len() as int;
    assert(s@.subrange(at, at + pat@.len()) =~= pat@);
    law_replaced_at_first_match(s@, pat@, to@, at);
    assert(s@.take(at) =~= before);
    assert(s@.skip(at + pat@.len()) =~= behind@);
}

/// The empty pattern matches before, between and behind all characters.
pub proof fn law_empty_pattern_matches_everywhere(
    s: &str,
    pat: &str,
    to: &str,
    behind: &str,
    out: String,
    rest: String,
)
    requires
        pat@.len() == 0,
        call_ensures(replace_text, (s, pat, to), out),
        call_ensures(replace_text, (behind, pat, to), rest),
    ensures
        s@.len() == 0 ==> out@ == to@,
        s@.len() > 0 && behind@ == s@.skip(1) ==> out@ == to@ + seq![s@[0]] + rest@,
{
    if s@.len() > 0 && behind@ == s@.skip(1) {
        assert(out@ =~= to@ + seq![s@[0]] + rest@);
    }
}

/// A template is filled by one substitution after the other, the first of the list first, each in
/// what the ones before it made.
pub proof fn law_substitutions_follow_each_other(
    template: &str,
    some: &Vec<(String, String)>,
    all: &Vec<(String, String)>,
    before: String,
    page: String,
    begun: &str,
    placeholder: &str,
    text: &str,
    after: String,
)
    requires
        call_ensures(html, (template, some), before),
        call_ensures(html, (template, all), page),
        all@.len() == some@.len() + 1,
        forall|i: int| 0 <= i < some@.len() ==> #[trigger] all@[i] == some@[i],
        all@.last().0@ == placeholder@,
        all@.last().1@ == text@,
        begun@ == before@,
        call_ensures(replace_text, (begun, placeholder, text), after),
    ensures
        some@.len() == 0 ==> before@ == template@,
        page@ == after@,
{
    assert(fills_view(all@).drop_last() =~= fills_view(some@));
}

} // verus!
