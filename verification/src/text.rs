//! Text helpers: comparing, splitting and substituting over sequences of characters.

use vstd::prelude::*;
use vstd::string::*;

verus! {

/// The pieces of `s` between the separators: one more than there are separators in `s`.
pub open spec fn split_at_sep(s: Seq<char>, sep: char) -> Seq<Seq<char>>
    decreases s.len(),
{
    if s.len() == 0 {
        seq![Seq::<char>::empty()]
    } else {
        let before = split_at_sep(s.drop_last(), sep);
        if s.last() == sep {
            before.push(Seq::<char>::empty())
        } else {
            before.drop_last().push(before.last().push(s.last()))
        }
    }
}

/// The pieces with a separator between each two of them.
pub open spec fn join_with_sep(pieces: Seq<Seq<char>>, sep: char) -> Seq<char>
    decreases pieces.len(),
{
    if pieces.len() == 0 {
        Seq::<char>::empty()
    } else if pieces.len() == 1 {
        pieces[0]
    } else {
        join_with_sep(pieces.drop_last(), sep).push(sep) + pieces.last()
    }
}

/// `pat` stands in `s` at position `i`.
pub open spec fn occurs_at(s: Seq<char>, pat: Seq<char>, i: int) -> bool {
    0 <= i && i + pat.len() <= s.len() && s.subrange(i, i + pat.len()) == pat
}

/// `to` before, between and after all characters of `s`.
pub open spec fn interleaved(s: Seq<char>, to: Seq<char>) -> Seq<char>
    decreases s.len(),
{
    if s.len() == 0 {
        to
    } else {
        to.push(s[0]) + interleaved(s.skip(1), to)
    }
}

/// `s` with every match of `pat` replaced by `to`. Matches are taken from the left and do not
/// overlap; the empty pattern matches before, between and after all characters.
pub open spec fn replaced(s: Seq<char>, pat: Seq<char>, to: Seq<char>) -> Seq<char>
    decreases s.len(),
{
    if pat.len() == 0 {
        interleaved(s, to)
    } else if s.len() == 0 {
        s
    } else if occurs_at(s, pat, 0) {
        to + replaced(s.skip(pat.len() as int), pat, to)
    } else {
        seq![s[0]] + replaced(s.skip(1), pat, to)
    }
}

/// `template` after each substitution in turn, the first of the list first.
pub open spec fn filled(template: Seq<char>, fills: Seq<(Seq<char>, Seq<char>)>) -> Seq<char>
    decreases fills.len(),
{
    if fills.len() == 0 {
        template
    } else {
        replaced(filled(template, fills.drop_last()), fills.last().0, fills.last().1)
    }
}

/// The substitutions as sequences of characters.
pub open spec fn fills_view(fills: Seq<(String, String)>) -> Seq<(Seq<char>, Seq<char>)> {
    Seq::new(fills.len(), |i: int| (fills[i].0@, fills[i].1@))
}

/// The texts as sequences of characters.
pub open spec fn texts_view(texts: Seq<String>) -> Seq<Seq<char>> {
    Seq::new(texts.len(), |i: int| texts[i]@)
}

/// The first `i + 1` texts are the first `i` and the one behind them.
pub(crate) proof fn lemma_take_one_more(texts: Seq<Seq<char>>, i: int)
    requires
        0 <= i < texts.len(),
    ensures
        forall|text: Seq<char>| #[trigger]
            texts.take(i + 1).contains(text) <==> texts.take(i).contains(text) || text == texts[i],
{
    assert forall|text: Seq<char>| #[trigger]
        texts.take(i + 1).contains(text) <==> texts.take(i).contains(text) || text == texts[i] by {
        if texts.take(i).contains(text) {
            let k = texts.take(i).index_of(text);
            assert(texts.take(i + 1)[k] == text);
        }
        if text == texts[i] {
            assert(texts.take(i + 1)[i] == text);
        }
        if texts.take(i + 1).contains(text) {
            let k = texts.take(i + 1).index_of(text);
            if k < i {
                assert(texts.take(i)[k] == text);
            }
        }
    }
}

/// Splitting loses nothing and leaves no separator: the pieces joined again are `s`, and no piece
/// holds the separator.
pub proof fn law_split_join(s: Seq<char>, sep: char)
    ensures
        join_with_sep(split_at_sep(s, sep), sep) == s,
        split_at_sep(s, sep).len() >= 1,
        forall|k: int|
            0 <= k < split_at_sep(s, sep).len() ==> !(#[trigger] split_at_sep(s, sep)[k]).contains(
                sep,
            ),
    decreases s.len(),
{
    let pieces = split_at_sep(s, sep);
    if s.len() > 0 {
        let head = s.drop_last();
        let before = split_at_sep(head, sep);
        law_split_join(head, sep);
        if s.last() == sep {
            assert(pieces.drop_last() =~= before);
            assert(join_with_sep(pieces, sep) =~= head.push(sep));
            assert(head.push(sep) =~= s);
        } else {
            let grown = before.last().push(s.last());
            assert(pieces.drop_last() =~= before.drop_last());
            assert(pieces.last() == grown);
            assert(join_with_sep(pieces, sep) =~= join_with_sep(before, sep).push(s.last()));
            assert(head.push(s.last()) =~= s);
            assert forall|k: int| 0 <= k < pieces.len() implies !(#[trigger] pieces[k]).contains(
                sep,
            ) by {
                if k < pieces.len() - 1 {
                    assert(pieces[k] == before[k]);
                } else {
                    assert(!before[k].contains(sep));
                    if grown.contains(sep) {
                        let j = choose|j: int| 0 <= j < grown.len() && grown[j] == sep;
                        assert(j < before.last().len());
                        assert(before[k][j] == sep);
                    }
                }
            }
        }
    }
}

/// Pieces without a separator come back unchanged from joining and splitting.
pub proof fn law_join_split(pieces: Seq<Seq<char>>, sep: char)
    requires
        pieces.len() >= 1,
        forall|k: int| 0 <= k < pieces.len() ==> !(#[trigger] pieces[k]).contains(sep),
    ensures
        split_at_sep(join_with_sep(pieces, sep), sep) == pieces,
    decreases pieces.len(), pieces.last().len(),
{
    let whole = join_with_sep(pieces, sep);
    let last = pieces.last();
    if last.len() > 0 {
        let shorter = pieces.drop_last().push(last.drop_last());
        assert(!last.contains(sep));
        assert forall|k: int| 0 <= k < shorter.len() implies !(#[trigger] shorter[k]).contains(
            sep,
        ) by {
            if k == shorter.len() - 1 {
                if shorter[k].contains(sep) {
                    let j = choose|j: int| 0 <= j < shorter[k].len() && shorter[k][j] == sep;
                    assert(last[j] == sep);
                }
            } else {
                assert(shorter[k] == pieces[k]);
            }
        }
        assert(shorter.drop_last() =~= pieces.drop_last());
        law_join_split(shorter, sep);
        assert(last.drop_last().push(last.last()) =~= last);
        assert(whole.drop_last() =~= join_with_sep(shorter, sep));
        assert(whole.last() == last.last());
        assert(last[last.len() - 1] == last.last());
        assert(last.last() != sep);
        assert(split_at_sep(whole, sep) =~= pieces);
    } else if pieces.len() > 1 {
        let front = pieces.drop_last();
        assert forall|k: int| 0 <= k < front.len() implies !(#[trigger] front[k]).contains(
            sep,
        ) by {
            assert(front[k] == pieces[k]);
        }
        law_join_split(front, sep);
        assert(whole =~= join_with_sep(front, sep).push(sep));
        assert(whole.drop_last() =~= join_with_sep(front, sep));
        assert(last =~= Seq::<char>::empty());
        assert(split_at_sep(whole, sep) =~= pieces);
    } else {
        assert(last =~= Seq::<char>::empty());
        assert(pieces =~= seq![Seq::<char>::empty()]);
    }
}

/// Text without a separator is one piece.
pub proof fn law_split_without_sep(s: Seq<char>, sep: char)
    requires
        !s.contains(sep),
    ensures
        split_at_sep(s, sep) == seq![s],
{
    let pieces = seq![s];
    assert(join_with_sep(pieces, sep) == s);
    law_join_split(pieces, sep);
}

/// Splitting goes through: two texts with a separator between them have the pieces of the first
/// and then those of the second.
pub proof fn law_split_concat(a: Seq<char>, b: Seq<char>, sep: char)
    ensures
        split_at_sep(a + seq![sep] + b, sep) == split_at_sep(a, sep) + split_at_sep(b, sep),
    decreases b.len(),
{
    let whole = a + seq![sep] + b;
    let front = split_at_sep(a, sep);
    if b.len() == 0 {
        assert(whole.drop_last() =~= a);
        assert(split_at_sep(whole, sep) =~= front + split_at_sep(b, sep));
    } else {
        let shorter = b.drop_last();
        law_split_concat(a, shorter, sep);
        law_split_join(shorter, sep);
        let back = split_at_sep(shorter, sep);
        assert(whole.drop_last() =~= a + seq![sep] + shorter);
        assert(whole.last() == b.last());
        assert((front + back).last() == back.last());
        assert((front + back).drop_last() =~= front + back.drop_last());
        assert(split_at_sep(whole, sep) =~= front + split_at_sep(b, sep));
    }
}

/// There is one piece more than there are separators.
pub proof fn law_split_counts(s: Seq<char>, sep: char)
    ensures
        split_at_sep(s, sep).len() == s.to_multiset().count(sep) + 1,
    decreases s.len(),
{
    broadcast use vstd::seq_lib::group_to_multiset_ensures;

    if s.len() > 0 {
        let head = s.drop_last();
        law_split_counts(head, sep);
        law_split_join(head, sep);
        assert(head.push(s.last()) =~= s);
    }
}

/// A piece that stands between two separators, or behind the last one, comes behind the pieces of
/// what stands before it.
pub proof fn law_piece_behind(front: Seq<char>, piece: Seq<char>, rest: Seq<char>, sep: char)
    requires
        !piece.contains(sep),
        rest.len() == 0 || rest[0] == sep,
    ensures
        split_at_sep(front + seq![sep] + piece + rest, sep).len() > split_at_sep(front, sep).len(),
        split_at_sep(front + seq![sep] + piece + rest, sep)[split_at_sep(front, sep).len() as int]
            == piece,
{
    let begun = front + seq![sep] + piece;
    law_split_concat(front, piece, sep);
    law_split_without_sep(piece, sep);
    if rest.len() == 0 {
        assert(begun + rest =~= begun);
    } else {
        assert(begun + rest =~= begun + seq![sep] + rest.skip(1));
        law_split_concat(begun, rest.skip(1), sep);
    }
}

/// Replacing starts at the first match: what stands before it is kept, and the search goes on
/// behind it.
pub proof fn law_replaced_at_first_match(s: Seq<char>, pat: Seq<char>, to: Seq<char>, at: int)
    requires
        pat.len() > 0,
        occurs_at(s, pat, at),
        forall|i: int| 0 <= i < at ==> !occurs_at(s, pat, i),
    ensures
        replaced(s, pat, to) == s.take(at) + to + replaced(s.skip(at + pat.len()), pat, to),
    decreases at,
{
    if at > 0 {
        let rest = s.skip(1);
        assert(!occurs_at(s, pat, 0));
        assert(rest.subrange(at - 1, at - 1 + pat.len()) =~= s.subrange(at, at + pat.len()));
        assert forall|i: int| 0 <= i < at - 1 implies !occurs_at(rest, pat, i) by {
            if occurs_at(rest, pat, i) {
                assert(s.subrange(i + 1, i + 1 + pat.len()) =~= rest.subrange(i, i + pat.len()));
                assert(occurs_at(s, pat, i + 1));
            }
        }
        law_replaced_at_first_match(rest, pat, to, at - 1);
        assert(rest.skip(at - 1 + pat.len()) =~= s.skip(at + pat.len()));
        assert(seq![s[0]] + rest.take(at - 1) =~= s.take(at));
        assert(replaced(s, pat, to) =~= s.take(at) + to + replaced(
            s.skip(at + pat.len()),
            pat,
            to,
        ));
    } else {
        assert(s.take(0) + to =~= to);
        assert(s.skip(pat.len() as int) =~= s.skip(at + pat.len()));
    }
}

/// Text in which the pattern does not occur is left alone.
pub proof fn law_replaced_without_match(s: Seq<char>, pat: Seq<char>, to: Seq<char>)
    requires
        pat.len() > 0,
        forall|i: int| !occurs_at(s, pat, i),
    ensures
        replaced(s, pat, to) == s,
    decreases s.len(),
{
    if s.len() > 0 {
        let rest = s.skip(1);
        assert(!occurs_at(s, pat, 0));
        assert forall|i: int| !occurs_at(rest, pat, i) by {
            if occurs_at(rest, pat, i) {
                assert(s.subrange(i + 1, i + 1 + pat.len()) =~= rest.subrange(i, i + pat.len()));
                assert(occurs_at(s, pat, i + 1));
            }
        }
        law_replaced_without_match(rest, pat, to);
        assert(seq![s[0]] + rest =~= s);
    }
}

/// Whether the two texts are the same, character by character.
pub fn same_text(a: &str, b: &str) -> (same: bool)
    ensures
        same == (a@ == b@),
{
    a.to_owned() == b.to_owned()
}

/// The characters of the text.
pub fn chars_of(s: &str) -> (chars: Vec<char>)
    ensures
        chars@ == s@,
{
    let mut chars: Vec<char> = Vec::new();
    for c in it: s.chars()
        invariant
            chars@ == it.seq().take(it.index()),
            it.seq() == s@,
    {
        chars.push(c);
        assert(it.seq().take(it.index() + 1) =~= it.seq().take(it.index()).push(c));
    }
    assert(s@.take(s@.len() as int) =~= s@);
    chars
}

/// The pieces of `s` between separators, in order.
pub fn split_text(s: &str, sep: char) -> (pieces: Vec<String>)
    ensures
        texts_view(pieces@) == split_at_sep(s@, sep),
{
    let chars = chars_of(s);
    let mut pieces: Vec<String> = Vec::new();
    let mut start: usize = 0;
    let mut i: usize = 0;
    assert(s@.subrange(0, 0) =~= Seq::<char>::empty());
    assert(split_at_sep(s@.take(0), sep) =~= texts_view(pieces@).push(s@.subrange(0, 0)));
    while i < chars.len()
        invariant
            chars@ == s@,
            start <= i <= chars.len(),
            split_at_sep(s@.take(i as int), sep) == texts_view(pieces@).push(
                s@.subrange(start as int, i as int),
            ),
        decreases chars.len() - i,
    {
        let ghost before = split_at_sep(s@.take(i as int), sep);
        let ghost done = texts_view(pieces@);
        assert(s@.take(i + 1).drop_last() =~= s@.take(i as int));
        assert(s@.take(i + 1).last() == s@[i as int]);
        if chars[i] == sep {
            pieces.push(s.substring_char(start, i).to_owned());
            start = i + 1;
            assert(texts_view(pieces@) =~= before);
            assert(s@.subrange(start as int, i + 1) =~= Seq::<char>::empty());
        } else {
            assert(before.drop_last() =~= done);
            assert(s@.subrange(start as int, i as int).push(s@[i as int]) =~= s@.subrange(
                start as int,
                i + 1,
            ));
        }
        i = i + 1;
    }
    let ghost done = texts_view(pieces@);
    pieces.push(s.substring_char(start, i).to_owned());
    assert(s@.take(i as int) =~= s@);
    assert(texts_view(pieces@) =~= done.push(s@.subrange(start as int, i as int)));
    pieces
}

/// Whether `pat` stands in `chars` at position `i`.
fn matches_at(chars: &Vec<char>, pat: &Vec<char>, i: usize) -> (found: bool)
    requires
        i <= chars.len(),
    ensures
        found == occurs_at(chars@, pat@, i as int),
{
    if pat.len() > chars.len() - i {
        return false;
    }
    let mut j: usize = 0;
    while j < pat.len()
        invariant
            j <= pat.len(),
            i + pat.len() <= chars.len(),
            forall|k: int| 0 <= k < j ==> chars@[i + k] == pat@[k],
        decreases pat.len() - j,
    {
        if chars[i + j] != pat[j] {
            assert(chars@.subrange(i as int, i + pat@.len())[j as int] != pat@[j as int]);
            return false;
        }
        j = j + 1;
    }
    assert(chars@.subrange(i as int, i + pat@.len()) =~= pat@);
    true
}

/// `to` before, between and after all characters of `s`.
fn interleave(s: &str, to: &str) -> (out: String)
    ensures
        out@ == interleaved(s@, to@),
{
    let mut out: String = to.to_owned();
    let mut i: usize = 0;
    let len: usize = s.unicode_len();
    assert(s@.skip(0) =~= s@);
    assert(interleaved(s@, to@) =~= if s@.len() == 0 {
        out@
    } else {
        out@.push(s@[0]) + interleaved(s@.skip(1), to@)
    });
    while i < len
        invariant
            i <= len,
            len == s@.len(),
            interleaved(s@, to@) == if i == len {
                out@
            } else {
                out@.push(s@[i as int]) + interleaved(s@.skip(i + 1), to@)
            },
        decreases len - i,
    {
        let ghost before = out@;
        out.append(s.substring_char(i, i + 1));
        assert(out@ =~= before.push(s@[i as int]));
        let ghost with_char = out@;
        out.append(to);
        if i + 1 < len {
            assert(s@.skip(i + 1)[0] == s@[i + 1]);
            assert(s@.skip(i + 1).skip(1) =~= s@.skip(i + 2));
            assert(with_char + interleaved(s@.skip(i + 1), to@) =~= out@.push(s@[i + 1])
                + interleaved(s@.skip(i + 2), to@));
        } else {
            assert(s@.skip(i + 1).len() == 0);
        }
        i = i + 1;
    }
    out
}

/// `s` with every match of `pat` replaced by `to`.
pub fn replace_text(s: &str, pat: &str, to: &str) -> (out: String)
    ensures
        out@ == replaced(s@, pat@, to@),
{
    let needle = chars_of(pat);
    if needle.len() == 0 {
        return interleave(s, to);
    }
    let chars = chars_of(s);
    let mut out: String = String::new();
    let mut start: usize = 0;
    let mut i: usize = 0;
    assert(s@.skip(0) =~= s@);
    assert(out@ + s@.subrange(0, 0) + replaced(s@, pat@, to@) =~= replaced(s@, pat@, to@));
    while i < chars.len()
        invariant
            chars@ == s@,
            needle@ == pat@,
            needle.len() > 0,
            start <= i <= chars.len(),
            replaced(s@, pat@, to@) == out@ + s@.subrange(start as int, i as int) + replaced(
                s@.skip(i as int),
                pat@,
                to@,
            ),
        decreases chars.len() - i,
    {
        let ghost rest = s@.skip(i as int);
        let ghost kept = out@ + s@.subrange(start as int, i as int);
        let found: bool = matches_at(&chars, &needle, i);
        proof {
            if i + pat@.len() <= s@.len() {
                assert(rest.subrange(0, pat@.len() as int) =~= s@.subrange(
                    i as int,
                    i + pat@.len(),
                ));
            }
        }
        if found {
            out.append(s.substring_char(start, i));
            out.append(to);
            i = i + needle.len();
            start = i;
            assert(rest.skip(pat@.len() as int) =~= s@.skip(i as int));
            assert(out@ + s@.subrange(start as int, i as int) =~= kept + to@);
            assert(replaced(s@, pat@, to@) =~= kept + to@ + replaced(s@.skip(i as int), pat@, to@));
        } else {
            assert(rest.skip(1) =~= s@.skip(i + 1));
            assert(s@.subrange(start as int, i + 1) =~= s@.subrange(start as int, i as int).push(
                s@[i as int],
            ));
            i = i + 1;
            assert(replaced(s@, pat@, to@) =~= out@ + s@.subrange(start as int, i as int)
                + replaced(s@.skip(i as int), pat@, to@));
        }
    }
    out.append(s.substring_char(start, i));
    assert(s@.skip(i as int).len() == 0);
    assert(out@ =~= replaced(s@, pat@, to@));
    out
}

/// Fills a page template: each placeholder of the list is replaced by its text, one after the
/// other.
pub fn html(template: &str, fills: &Vec<(String, String)>) -> (page: String)
    ensures
        page@ == filled(template@, fills_view(fills@)),
{
    let mut page: String = template.to_owned();
    let mut i: usize = 0;
    let ghost all = fills_view(fills@);
    assert(all.take(0) =~= Seq::empty());
    while i < fills.len()
        invariant
            i <= fills.len(),
            all == fills_view(fills@),
            page@ == filled(template@, all.take(i as int)),
        decreases fills.len() - i,
    {
        assert(all.take(i + 1).drop_last() =~= all.take(i as int));
        page = replace_text(page.as_str(), fills[i].0.as_str(), fills[i].1.as_str());
        i = i + 1;
    }
    assert(all.take(i as int) =~= all);
    page
}

} // verus!
