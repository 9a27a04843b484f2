//! What holds of trimming, splitting, joining, cutting and numbers.
use vstd::prelude::*;

verus! {

/// An ASCII character is white space exactly where it is a space or lies between tab and
/// carriage return.
pub proof fn law_ascii_white_space(c: char)
    requires
        c as u32 <= 0x7f,
    ensures
        crate::text::is_white_space(c) <==> c == ' ' || c == '\t' || c == '\n' || c as u32 == 0xb
            || c as u32 == 0xc || c == '\r',
{
}

/// Beyond ASCII these are white space: next line, the no-break spaces, the spaces of the
/// general punctuation, the line and paragraph separators, and the ideographic space.
pub proof fn law_wide_white_space(c: char)
    requires
        c as u32 > 0x7f,
    ensures
        crate::text::is_white_space(c) <==> {
            let n = c as u32;
            n == 0x85 || n == 0xa0 || n == 0x1680 || 0x2000 <= n <= 0x200a || n == 0x2028 || n
                == 0x2029 || n == 0x202f || n == 0x205f || c == '\u{3000}'
        },
{
}

/// Cutting `s` down to the part from `from` up to `to` removes white space alone.
pub open spec fn removes_white_space(s: Seq<char>, from: int, to: int) -> bool {
    &&& 0 <= from <= to <= s.len()
    &&& forall|k: int| 0 <= k < from ==> crate::text::is_white_space(#[trigger] s[k])
    &&& forall|k: int| to <= k < s.len() ==> crate::text::is_white_space(#[trigger] s[k])
}

proof fn lemma_trim_start_from(s: Seq<char>) -> (from: int)
    ensures
        0 <= from <= s.len(),
        crate::text::trim_start(s) == s.skip(from),
        forall|k: int| 0 <= k < from ==> crate::text::is_white_space(#[trigger] s[k]),
        from < s.len() ==> !crate::text::is_white_space(s[from]),
    decreases s.len(),
{
    if s.len() > 0 && crate::text::is_white_space(s.first()) {
        let rest = s.drop_first();
        let from = lemma_trim_start_from(rest);
        assert(rest.skip(from) == s.skip(from + 1));
        assert forall|k: int| 0 <= k < from + 1 implies crate::text::is_white_space(
            #[trigger] s[k],
        ) by {
            if k > 0 {
                assert(rest[k - 1] == s[k]);
            }
        }
        if from < rest.len() {
            assert(rest[from] == s[from + 1]);
        }
        from + 1
    } else {
        assert(s.skip(0) == s);
        0
    }
}

proof fn lemma_trim_end_to(s: Seq<char>) -> (to: int)
    ensures
        0 <= to <= s.len(),
        crate::text::trim_end(s) == s.take(to),
        forall|k: int| to <= k < s.len() ==> crate::text::is_white_space(#[trigger] s[k]),
        to > 0 ==> !crate::text::is_white_space(s[to - 1]),
    decreases s.len(),
{
    if s.len() > 0 && crate::text::is_white_space(s.last()) {
        let front = s.drop_last();
        let to = lemma_trim_end_to(front);
        assert(front.take(to) == s.take(to));
        assert forall|k: int| to <= k < s.len() implies crate::text::is_white_space(
            #[trigger] s[k],
        ) by {
            if k < front.len() {
                assert(front[k] == s[k]);
            }
        }
        to
    } else {
        assert(s.take(s.len() as int) == s);
        s.len() as int
    }
}

/// Trimming removes white space at both ends and nothing else, and leaves none there.
pub proof fn law_trimming_removes_white_space_at_the_ends(s: Seq<char>)
    ensures
        exists|from: int, to: int|
            #[trigger] removes_white_space(s, from, to) && crate::text::trimmed(s) == s.subrange(
                from,
                to,
            ),
        crate::text::trimmed(s).len() > 0 ==> !crate::text::is_white_space(
            crate::text::trimmed(s)[0],
        ) && !crate::text::is_white_space(crate::text::trimmed(s).last()),
{
    let from = lemma_trim_start_from(s);
    let mid = s.skip(from);
    let to = lemma_trim_end_to(mid);
    assert(mid.take(to) == s.subrange(from, from + to));
    assert forall|k: int| from + to <= k < s.len() implies crate::text::is_white_space(
        #[trigger] s[k],
    ) by {
        assert(mid[k - from] == s[k]);
    }
    assert(removes_white_space(s, from, from + to));
    if to > 0 {
        assert(mid[0] == s[from]);
        assert(mid[to - 1] == mid.take(to).last());
    }
}

/// A text is blank after trimming exactly where it is all white space.
pub proof fn law_blank_is_all_white_space(s: Seq<char>)
    ensures
        crate::text::trimmed(s).len() == 0 <==> forall|k: int|
            0 <= k < s.len() ==> crate::text::is_white_space(#[trigger] s[k]),
{
    law_trimming_removes_white_space_at_the_ends(s);
    let (from, to) = choose|from: int, to: int|
        #[trigger] removes_white_space(s, from, to) && crate::text::trimmed(s) == s.subrange(
            from,
            to,
        );
    let t = crate::text::trimmed(s);
    if t.len() > 0 {
        assert(t[0] == s[from]);
    }
}

/// A text without white space at its ends is its own trimmed form.
pub proof fn law_trimmed_text_stays(s: Seq<char>)
    requires
        s.len() > 0,
        !crate::text::is_white_space(s[0]),
        !crate::text::is_white_space(s.last()),
    ensures
        crate::text::trimmed(s) == s,
{
    assert(s.first() == s[0]);
}

/// Removing a character at the end removes occurrences of it alone, and all there are.
pub proof fn law_trailing_character_is_removed(s: Seq<char>, c: char)
    ensures
        ({
            let t = crate::text::without_trailing(s, c);
            &&& t.len() <= s.len()
            &&& t == s.take(t.len() as int)
            &&& forall|k: int| t.len() <= k < s.len() ==> #[trigger] s[k] == c
            &&& t.len() > 0 ==> t.last() != c
        }),
    decreases s.len(),
{
    if s.len() > 0 && s.last() == c {
        law_trailing_character_is_removed(s.drop_last(), c);
        let t = crate::text::without_trailing(s, c);
        assert(s.drop_last().take(t.len() as int) == s.take(t.len() as int));
        assert forall|k: int| t.len() <= k < s.len() implies #[trigger] s[k] == c by {
            if k < s.len() - 1 {
                assert(s.drop_last()[k] == s[k]);
            }
        }
    } else {
        assert(s.take(s.len() as int) == s);
    }
}

/// One line joins to itself, two to one behind the other with the separator between, and each
/// further line goes behind the rest in the same way.
pub proof fn law_joining_puts_the_separator_between(
    lines: Seq<Seq<char>>,
    line: Seq<char>,
    sep: Seq<char>,
)
    ensures
        crate::text::joined(Seq::<Seq<char>>::empty(), sep).len() == 0,
        crate::text::joined(seq![line], sep) == line,
        lines.len() > 0 ==> crate::text::joined(lines.push(line), sep) == crate::text::joined(
            lines,
            sep,
        ) + sep + line,
{
    assert(lines.push(line).drop_last() == lines);
}

proof fn lemma_piece_grows(pieces: Seq<Seq<char>>, c: char, sep: Seq<char>)
    requires
        pieces.len() > 0,
    ensures
        crate::text::joined(pieces.drop_last().push(pieces.last().push(c)), sep)
            == crate::text::joined(pieces, sep).push(c),
{
    let more = pieces.drop_last().push(pieces.last().push(c));
    assert(more.drop_last() == pieces.drop_last());
    if pieces.len() == 1 {
        assert(more[0] == pieces[0].push(c));
    } else {
        let before = crate::text::joined(pieces.drop_last(), sep);
        assert(before + sep + pieces.last().push(c) == (before + sep + pieces.last()).push(c));
    }
}

/// Splitting loses nothing: the pieces, joined with the separator, are the text again, and no
/// piece holds the separator.
pub proof fn law_split_pieces_join_to_the_text(s: Seq<char>, sep: char)
    ensures
        crate::text::split_on(s, sep).len() > 0,
        crate::text::joined(crate::text::split_on(s, sep), seq![sep]) == s,
        forall|k: int|
            0 <= k < crate::text::split_on(s, sep).len() ==> !(#[trigger] crate::text::split_on(
                s,
                sep,
            )[k]).contains(sep),
    decreases s.len(),
{
    if s.len() == 0 {
        let pieces = crate::text::split_on(s, sep);
        assert(pieces == seq![Seq::<char>::empty()]);
        assert(crate::text::joined(pieces, seq![sep]) == s);
    } else {
        let front = s.drop_last();
        law_split_pieces_join_to_the_text(front, sep);
        let pieces = crate::text::split_on(front, sep);
        assert(front.push(s.last()) == s);
        if s.last() == sep {
            let empty = Seq::<char>::empty();
            law_joining_puts_the_separator_between(pieces, empty, seq![sep]);
            assert(crate::text::joined(pieces, seq![sep]) + seq![sep] + empty == s);
        } else {
            lemma_piece_grows(pieces, s.last(), seq![sep]);
            let more = pieces.drop_last().push(pieces.last().push(s.last()));
            assert forall|k: int| 0 <= k < more.len() implies !(#[trigger] more[k]).contains(
                sep,
            ) by {
                assert(!pieces[k].contains(sep));
                if k == more.len() - 1 {
                    let grown = pieces.last().push(s.last());
                    assert forall|i: int| 0 <= i < grown.len() implies grown[i] != sep by {
                        if i < pieces.last().len() {
                            assert(pieces.last()[i] != sep);
                        }
                    }
                } else {
                    assert(more[k] == pieces[k]);
                }
            }
        }
    }
}

proof fn lemma_split_behind(before: Seq<char>, sep: char, item: Seq<char>)
    requires
        !item.contains(sep),
    ensures
        crate::text::split_on(before.push(sep) + item, sep) == crate::text::split_on(
            before,
            sep,
        ).push(item),
    decreases item.len(),
{
    let whole = before.push(sep) + item;
    if item.len() == 0 {
        assert(whole == before.push(sep));
        assert(before.push(sep).drop_last() == before);
        assert(item == Seq::<char>::empty());
    } else {
        let front = item.drop_last();
        assert(item[item.len() - 1] == item.last());
        assert forall|i: int| 0 <= i < front.len() implies front[i] != sep by {
            assert(item[i] == front[i]);
        }
        lemma_split_behind(before, sep, front);
        assert(whole.drop_last() == before.push(sep) + front);
        let pieces = crate::text::split_on(before, sep);
        assert(pieces.push(front).drop_last() == pieces);
        assert(front.push(item.last()) == item);
    }
}

proof fn lemma_split_one(item: Seq<char>, sep: char)
    requires
        !item.contains(sep),
    ensures
        crate::text::split_on(item, sep) == seq![item],
    decreases item.len(),
{
    if item.len() == 0 {
        assert(item == Seq::<char>::empty());
    } else {
        let front = item.drop_last();
        assert(item[item.len() - 1] == item.last());
        assert forall|i: int| 0 <= i < front.len() implies front[i] != sep by {
            assert(item[i] == front[i]);
        }
        lemma_split_one(front, sep);
        assert(front.push(item.last()) == item);
        assert(seq![front].drop_last().push(seq![front].last().push(item.last())) == seq![item]);
    }
}

/// Joining loses nothing: lines that do not hold the separator are found again by splitting.
pub proof fn law_joined_lines_split_again(lines: Seq<Seq<char>>, sep: char)
    requires
        lines.len() > 0,
        forall|k: int| 0 <= k < lines.len() ==> !(#[trigger] lines[k]).contains(sep),
    ensures
        crate::text::split_on(crate::text::joined(lines, seq![sep]), sep) == lines,
    decreases lines.len(),
{
    if lines.len() == 1 {
        lemma_split_one(lines[0], sep);
        assert(seq![lines[0]] == lines);
    } else {
        let front = lines.drop_last();
        assert forall|k: int| 0 <= k < front.len() implies !(#[trigger] front[k]).contains(sep) by {
            assert(front[k] == lines[k]);
        }
        law_joined_lines_split_again(front, sep);
        assert(!lines[lines.len() - 1].contains(sep));
        let before = crate::text::joined(front, seq![sep]);
        lemma_split_behind(before, sep, lines.last());
        assert(before + seq![sep] + lines.last() == before.push(sep) + lines.last());
        assert(front.push(lines.last()) == lines);
    }
}

/// The text is not empty, as a predicate.
pub open spec fn is_filled() -> spec_fn(Seq<char>) -> bool {
    |item: Seq<char>| item.len() > 0
}

proof fn lemma_trimmed_items(pieces: Seq<Seq<char>>)
    ensures
        crate::text::trimmed_items(pieces) == pieces.map_values(
            |piece: Seq<char>| crate::text::trimmed(piece),
        ).filter(is_filled()),
    decreases pieces.len(),
{
    reveal(Seq::filter);
    let all = pieces.map_values(|piece: Seq<char>| crate::text::trimmed(piece));
    if pieces.len() > 0 {
        lemma_trimmed_items(pieces.drop_last());
        assert(all.drop_last() == pieces.drop_last().map_values(
            |piece: Seq<char>| crate::text::trimmed(piece),
        ));
    }
}

/// The items of a comma-separated list are the pieces between the commas, trimmed, in order
/// and as often as they stand there, without those that are then empty.
pub proof fn law_list_items_stand_between_commas(s: Seq<char>)
    ensures
        crate::text::comma_items(s) == crate::text::split_on(s, ',').map_values(
            |piece: Seq<char>| crate::text::trimmed(piece),
        ).filter(is_filled()),
{
    lemma_trimmed_items(crate::text::split_on(s, ','));
}

/// Lower case changes the ASCII capitals, each into its small letter, and nothing else.
pub proof fn law_lower_case_changes_capitals(s: Seq<char>, k: int)
    requires
        0 <= k < s.len(),
    ensures
        crate::text::lower(s).len() == s.len(),
        'A' <= s[k] <= 'Z' ==> 'a' <= crate::text::lower(s)[k] <= 'z' && crate::text::lower(s)[k]
            as u32 - 'a' as u32 == s[k] as u32 - 'A' as u32,
        !('A' <= s[k] <= 'Z') ==> crate::text::lower(s)[k] == s[k],
{
}

/// A text begins with another exactly where something follows that makes it whole.
pub proof fn law_beginning_is_completed(s: Seq<char>, prefix: Seq<char>)
    ensures
        crate::text::begins_with(s, prefix) <==> exists|rest: Seq<char>| s == #[trigger] (prefix
            + rest),
{
    if crate::text::begins_with(s, prefix) {
        assert(s == prefix + s.skip(prefix.len() as int));
    }
    if exists|rest: Seq<char>| s == #[trigger] (prefix + rest) {
        let rest = choose|rest: Seq<char>| s == #[trigger] (prefix + rest);
        assert((prefix + rest).take(prefix.len() as int) == prefix);
    }
}

/// The value of digits: each further one counts for itself, those before it tenfold.
pub proof fn law_digits_count_by_place(s: Seq<char>, c: char)
    requires
        '0' <= c <= '9',
    ensures
        crate::text::digits_value(Seq::<char>::empty()) == 0,
        crate::text::digits_value(s.push(c)) == 10 * crate::text::digits_value(s) + (c as int
            - '0' as int),
{
    assert(s.push(c).drop_last() == s);
}

/// The decimal text of a number is made of digits, has its value, and no zero in front.
pub proof fn law_decimal_text_has_the_value(n: nat)
    ensures
        crate::text::decimal(n).len() > 0,
        forall|k: int|
            0 <= k < crate::text::decimal(n).len() ==> '0' <= #[trigger] crate::text::decimal(n)[k]
                <= '9',
        crate::text::digits_value(crate::text::decimal(n)) == n,
        crate::text::decimal(n).len() > 1 ==> crate::text::decimal(n)[0] != '0',
    decreases n,
{
    if n < 10 {
        let d = crate::text::digit_char(n);
        assert(seq![d].drop_last() == Seq::<char>::empty());
        assert(crate::text::digits_value(Seq::<char>::empty()) == 0);
    } else {
        law_decimal_text_has_the_value(n / 10);
        let before = crate::text::decimal(n / 10);
        let d = crate::text::digit_char(n % 10);
        assert(before.push(d).drop_last() == before);
        if before.len() == 1 {
            assert(before.drop_last() == Seq::<char>::empty());
            assert(crate::text::digits_value(Seq::<char>::empty()) == 0);
        }
    }
}

/// A text without a sign is read as a number exactly where it is digits, at least one, whose
/// value is not over the limit; and then as that value.
pub proof fn law_number_is_its_digits(s: Seq<char>, max: nat, n: nat)
    requires
        s.len() > 0 ==> s[0] != '+',
    ensures
        crate::text::unsigned_value(s, max) == Some(n) <==> s.len() > 0 && (forall|k: int|
            0 <= k < s.len() ==> '0' <= #[trigger] s[k] <= '9') && crate::text::digits_value(s) == n
            && n <= max,
{
}

/// One plus sign in front of a number changes nothing; a second one makes it unreadable.
pub proof fn law_plus_sign_is_passed_over(s: Seq<char>, max: nat)
    ensures
        s.len() > 0 && s[0] == '+' ==> crate::text::unsigned_value(seq!['+'] + s, max) is None,
        !(s.len() > 0 && s[0] == '+') ==> crate::text::unsigned_value(seq!['+'] + s, max)
            == crate::text::unsigned_value(s, max),
{
    assert((seq!['+'] + s).drop_first() == s);
}

/// What a number is written as is read as that number.
pub proof fn law_written_number_is_read(n: nat, max: nat)
    ensures
        n <= max ==> crate::text::unsigned_value(crate::text::decimal(n), max) == Some(n),
        n > max ==> crate::text::unsigned_value(crate::text::decimal(n), max) is None,
{
    law_decimal_text_has_the_value(n);
    assert(crate::text::decimal(n)[0] != '+');
}

/// Cutting a text keeps it whole up to the limit, and beyond it keeps as many characters as
/// the limit says, with an ellipsis behind them.
pub proof fn law_cut_text_is_a_beginning(s: Seq<char>, max: nat)
    ensures
        s.len() <= max ==> crate::text::truncated(s, max) == s,
        s.len() > max ==> {
            let cut = crate::text::truncated(s, max);
            &&& cut.len() == max + 1
            &&& cut.last() == '…'
            &&& forall|k: int| 0 <= k < max ==> #[trigger] cut[k] == s[k]
        },
{
}

/// The views of lists and of optional texts keep every text and its place.
pub proof fn law_text_views_are_faithful(
    list: Seq<String>,
    k: int,
    owned: Option<String>,
    borrowed: Option<&str>,
)
    ensures
        crate::text::texts(list).len() == list.len(),
        0 <= k < list.len() ==> crate::text::texts(list)[k] == list[k]@,
        crate::text::opt_text(owned) is Some <==> owned is Some,
        owned matches Some(s) ==> crate::text::opt_text(owned) == Some(s@),
        crate::text::opt_str(borrowed) is Some <==> borrowed is Some,
        borrowed matches Some(s) ==> crate::text::opt_str(borrowed) == Some(s@),
{
}

} // verus!
