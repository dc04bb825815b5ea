//! The normal form of an identifier: upper case, with no white space at
//! either end.

use vstd::prelude::*;
use vstd::std_specs::iter::IteratorSpec;
use vstd::string::*;

verus! {

/// Whether a character is white space: whether it has the Unicode property
/// `White_Space`. These are the tab, the line feed, the vertical tab, the form
/// feed, the carriage return and the space; the next-line control and the
/// no-break space; and the spaces and separators beyond Latin-1.
pub open spec fn is_white_space(c: char) -> bool {
    ||| '\u{9}' <= c <= '\u{d}'
    ||| c == ' '
    ||| c == '\u{85}'
    ||| c == '\u{a0}'
    ||| c == '\u{1680}'
    ||| '\u{2000}' <= c <= '\u{200a}'
    ||| c == '\u{2028}'
    ||| c == '\u{2029}'
    ||| c == '\u{202f}'
    ||| c == '\u{205f}'
    ||| c == '\u{3000}'
}

/// `char::is_whitespace` tells whether a character has the Unicode property
/// `White_Space`.
pub assume_specification[ char::is_whitespace ](c: char) -> (b: bool)
    ensures
        b == is_white_space(c),
;

/// The text without the white space it begins with.
pub open spec fn without_leading_space(s: Seq<char>) -> Seq<char>
    decreases s.len(),
{
    if s.len() > 0 && is_white_space(s.first()) {
        without_leading_space(s.drop_first())
    } else {
        s
    }
}

/// The text without the white space it ends with.
pub open spec fn without_trailing_space(s: Seq<char>) -> Seq<char>
    decreases s.len(),
{
    if s.len() > 0 && is_white_space(s.last()) {
        without_trailing_space(s.drop_last())
    } else {
        s
    }
}

/// The text without the white space at either end. White space inside the
/// text stays.
pub open spec fn trimmed(s: Seq<char>) -> Seq<char> {
    without_trailing_space(without_leading_space(s))
}

/// Every character of the text is white space.
pub open spec fn all_white_space(s: Seq<char>) -> bool {
    forall|i: int| 0 <= i < s.len() ==> is_white_space(#[trigger] s[i])
}

/// What is left after dropping leading white space is empty or begins with a
/// character that is not white space, and is the end of the text.
pub proof fn lemma_leading_space_dropped(s: Seq<char>)
    ensures
        ({
            let rest = without_leading_space(s);
            &&& rest.len() <= s.len()
            &&& rest == s.subrange(s.len() - rest.len(), s.len() as int)
            &&& all_white_space(s.subrange(0, s.len() - rest.len()))
            &&& rest.len() > 0 ==> !is_white_space(rest.first())
        }),
    decreases s.len(),
{
    let rest = without_leading_space(s);
    if s.len() > 0 && is_white_space(s.first()) {
        let tail = s.drop_first();
        lemma_leading_space_dropped(tail);
        let cut = s.len() - rest.len();
        assert(rest =~= s.subrange(cut, s.len() as int));
        assert forall|i: int| 0 <= i < cut implies is_white_space(
            #[trigger] s.subrange(0, cut)[i],
        ) by {
            if i > 0 {
                assert(s.subrange(0, cut)[i] == tail.subrange(0, cut - 1)[i - 1]);
            }
        }
    } else {
        assert(rest =~= s.subrange(0, s.len() as int));
    }
}

/// What is left after dropping trailing white space is empty or ends with a
/// character that is not white space, and is the beginning of the text.
pub proof fn lemma_trailing_space_dropped(s: Seq<char>)
    ensures
        ({
            let rest = without_trailing_space(s);
            &&& rest.len() <= s.len()
            &&& rest == s.subrange(0, rest.len() as int)
            &&& all_white_space(s.subrange(rest.len() as int, s.len() as int))
            &&& rest.len() > 0 ==> !is_white_space(rest.last())
        }),
    decreases s.len(),
{
    let rest = without_trailing_space(s);
    if s.len() > 0 && is_white_space(s.last()) {
        let front = s.drop_last();
        lemma_trailing_space_dropped(front);
        let cut = rest.len() as int;
        assert(rest =~= s.subrange(0, cut));
        assert forall|i: int| 0 <= i < s.len() - cut implies is_white_space(
            #[trigger] s.subrange(cut, s.len() as int)[i],
        ) by {
            if i < s.len() - cut - 1 {
                assert(s.subrange(cut, s.len() as int)[i] == front.subrange(
                    cut,
                    front.len() as int,
                )[i]);
            }
        }
    } else {
        assert(rest =~= s.subrange(0, s.len() as int));
    }
}

/// Dropping leading white space leaves the text from its first character
/// that is not white space on.
pub proof fn lemma_without_leading_space(s: Seq<char>, from: int)
    requires
        0 <= from <= s.len(),
        all_white_space(s.subrange(0, from)),
        from < s.len() ==> !is_white_space(s[from]),
    ensures
        without_leading_space(s) == s.subrange(from, s.len() as int),
{
    lemma_leading_space_dropped(s);
    let rest = without_leading_space(s);
    let cut = s.len() - rest.len();
    if cut < from {
        assert(s.subrange(0, from)[cut] == rest.first());
    } else if from < cut {
        assert(s.subrange(0, cut)[from] == s[from]);
    }
}

/// Dropping trailing white space leaves the text up to its last character
/// that is not white space.
pub proof fn lemma_without_trailing_space(s: Seq<char>, to: int)
    requires
        0 <= to <= s.len(),
        all_white_space(s.subrange(to, s.len() as int)),
        0 < to ==> !is_white_space(s[to - 1]),
    ensures
        without_trailing_space(s) == s.subrange(0, to),
{
    lemma_trailing_space_dropped(s);
    let rest = without_trailing_space(s);
    let cut = rest.len() as int;
    if to < cut {
        assert(s.subrange(to, s.len() as int)[cut - 1 - to] == rest.last());
    } else if cut < to {
        assert(s.subrange(cut, s.len() as int)[to - 1 - cut] == s[to - 1]);
    }
}

/// A trimmed text is a contiguous part of the text it was taken from, with
/// nothing but white space before and after it, and it neither begins nor
/// ends with white space.
pub proof fn lemma_trimmed_part(s: Seq<char>) -> (bounds: (int, int))
    ensures
        0 <= bounds.0 <= bounds.1 <= s.len(),
        trimmed(s) == s.subrange(bounds.0, bounds.1),
        all_white_space(s.subrange(0, bounds.0)),
        all_white_space(s.subrange(bounds.1, s.len() as int)),
        trimmed(s).len() > 0 ==> !is_white_space(trimmed(s).first()) && !is_white_space(
            trimmed(s).last(),
        ),
{
    let mid = without_leading_space(s);
    let t = trimmed(s);
    lemma_leading_space_dropped(s);
    lemma_trailing_space_dropped(mid);
    let from = s.len() - mid.len();
    let to = from + t.len();
    assert(t =~= s.subrange(from, to));
    assert(s.subrange(to, s.len() as int) =~= mid.subrange(t.len() as int, mid.len() as int));
    if t.len() > 0 {
        assert(t.first() == mid.first());
    }
    (from, to)
}

/// Trimming a trimmed text changes nothing.
pub proof fn lemma_trimmed_twice(s: Seq<char>)
    ensures
        trimmed(trimmed(s)) == trimmed(s),
{
    lemma_trimmed_part(s);
}

/// The text without the white space at either end, as a slice of it.
pub fn trim(s: &str) -> (t: &str)
    ensures
        t@ == trimmed(s@),
{
    broadcast use group_string_axioms;

    let n = s.unicode_len();
    let mut rest = s.chars();
    let mut i: usize = 0;
    let mut seen = false;
    let mut start: usize = 0;
    let mut end: usize = 0;
    loop
        invariant
            n == s@.len(),
            i <= n,
            rest.obeys_prophetic_iter_laws(),
            rest.remaining() == s@.subrange(i as int, n as int),
            !seen ==> all_white_space(s@.subrange(0, i as int)),
            seen ==> start < end <= i,
            seen ==> all_white_space(s@.subrange(0, start as int)),
            seen ==> !is_white_space(s@[start as int]),
            seen ==> !is_white_space(s@[end - 1]),
            seen ==> all_white_space(s@.subrange(end as int, i as int)),
        ensures
            i == n,
        decreases n - i,
    {
        let c = match rest.next() {
            Some(c) => c,
            None => {
                break ;
            },
        };
        assert(c == s@.subrange(i as int, n as int)[0]);
        assert(rest.remaining() =~= s@.subrange(i + 1, n as int));
        if c.is_whitespace() {
            proof {
                if seen {
                    assert forall|k: int| 0 <= k < i + 1 - end implies is_white_space(
                        #[trigger] s@.subrange(end as int, i + 1)[k],
                    ) by {
                        if k < i - end {
                            assert(s@.subrange(end as int, i as int)[k] == s@[end + k]);
                        }
                    }
                } else {
                    assert forall|k: int| 0 <= k < i + 1 implies is_white_space(
                        #[trigger] s@.subrange(0, i + 1)[k],
                    ) by {
                        if k < i {
                            assert(s@.subrange(0, i as int)[k] == s@[k]);
                        }
                    }
                }
            }
        } else {
            if !seen {
                seen = true;
                start = i;
            }
            end = i + 1;
        }
        i = i + 1;
    }
    if !seen {
        proof {
            reveal_strlit("");
            lemma_without_leading_space(s@, n as int);
            assert(s@.subrange(n as int, n as int) =~= Seq::<char>::empty());
        }
        ""
    } else {
        proof {
            let solid = s@.subrange(start as int, n as int);
            lemma_without_leading_space(s@, start as int);
            assert(solid.subrange(end - start, solid.len() as int) =~= s@.subrange(
                end as int,
                n as int,
            ));
            lemma_without_trailing_space(solid, end - start);
            assert(solid.subrange(0, end - start) =~= s@.subrange(start as int, end as int));
        }
        s.substring_char(start, end)
    }
}

/// What `str::to_uppercase` makes of a text: its upper-case form by the
/// Unicode case mappings, in which one character may become several.
pub uninterp spec fn uppercased(s: Seq<char>) -> Seq<char>;

/// `str::to_uppercase` is a function of the text alone; its value is given
/// the name `uppercased`.
pub assume_specification[ str::to_uppercase ](s: &str) -> (upper: String)
    ensures
        upper@ == uppercased(s@),
;

/// The normal form of a text: its upper-case form without the white space
/// at either end.
pub open spec fn normalized(s: Seq<char>) -> Seq<char> {
    trimmed(uppercased(s))
}

/// Brings a text to its normal form.
pub fn normalize(input: &str) -> (normal: String)
    ensures
        normal@ == normalized(input@),
{
    let upper = input.to_uppercase();
    let inner = trim(upper.as_str());
    String::from_str(inner)
}

/// A normal form whose upper-case form is that text itself is its own normal
/// form: bringing it to normal form again changes nothing.
pub proof fn lemma_normalized_twice(s: Seq<char>)
    requires
        uppercased(normalized(s)) == normalized(s),
    ensures
        normalized(normalized(s)) == normalized(s),
{
    lemma_trimmed_twice(uppercased(s));
}

/// Whether upper-casing the normal form of a text leaves it as it is. Where
/// it does, bringing the normal form to normal form again changes nothing.
pub fn normal_form_is_stable(input: &str) -> (stable: bool)
    ensures
        stable == (uppercased(normalized(input@)) == normalized(input@)),
        stable ==> normalized(normalized(input@)) == normalized(input@),
{
    let normal = normalize(input);
    let again = normal.as_str().to_uppercase();
    let stable = again == normal;
    proof {
        if stable {
            lemma_normalized_twice(input@);
        }
    }
    stable
}

} // verus!
