//! Literal text substitution, and the conversions between strings and
//! sequences of characters that it needs.
use vstd::prelude::*;
use vstd::string::*;

verus! {

broadcast use vstd::string::group_string_axioms;

/// The texts of a list of strings, in order.
pub open spec fn texts(list: Seq<String>) -> Seq<Seq<char>> {
    Seq::new(list.len(), |i: int| list[i]@)
}

/// `pattern` stands in `text` at position `at`.
pub open spec fn occurs_at(text: Seq<char>, pattern: Seq<char>, at: int) -> bool {
    &&& 0 <= at
    &&& at + pattern.len() <= text.len()
    &&& text.subrange(at, at + pattern.len()) == pattern
}

/// `text` with `filler` put behind each of its characters.
pub open spec fn follow_each(text: Seq<char>, filler: Seq<char>) -> Seq<char>
    decreases text.len(),
{
    if text.len() == 0 {
        text
    } else {
        seq![text[0]] + filler + follow_each(text.skip(1), filler)
    }
}

/// `text` with every occurrence of `old_text` replaced by `new_text`.
///
/// Occurrences are found from left to right and do not overlap. An empty
/// `old_text` occurs before every character and at the end.
pub open spec fn replace_all(text: Seq<char>, old_text: Seq<char>, new_text: Seq<char>) -> Seq<
    char,
>
    decreases text.len(),
{
    if old_text.len() == 0 {
        new_text + follow_each(text, new_text)
    } else if text.len() == 0 {
        text
    } else if occurs_at(text, old_text, 0) {
        new_text + replace_all(text.skip(old_text.len() as int), old_text, new_text)
    } else {
        seq![text[0]] + replace_all(text.skip(1), old_text, new_text)
    }
}

/// `String::push` appends one character to the string.
pub assume_specification[ String::push ](s: &mut String, c: char)
    ensures
        final(s)@ == old(s)@.push(c),
;

/// The characters of `s`, in order.
pub fn chars_of(s: &str) -> (r: Vec<char>)
    ensures
        r@ == s@,
{
    let mut out: Vec<char> = Vec::new();
    for c in it: s.chars()
        invariant
            it.seq() == s@,
            out@ == s@.take(it.index()),
    {
        out.push(c);
    }
    assert(s@.take(s@.len() as int) == s@);
    out
}

/// Whether `pattern` stands in `text` at position `at`.
pub fn matches_at(text: &Vec<char>, pattern: &Vec<char>, at: usize) -> (r: bool)
    ensures
        r == occurs_at(text@, pattern@, at as int),
{
    if at > text.len() || pattern.len() > text.len() - at {
        return false;
    }
    let mut k: usize = 0;
    while k < pattern.len()
        invariant
            k <= pattern.len(),
            at + pattern.len() <= text.len(),
            forall|j: int| 0 <= j < k ==> text@[at + j] == pattern@[j],
        decreases pattern.len() - k,
    {
        if text[at + k] != pattern[k] {
            assert(text@.subrange(at as int, at + pattern.len())[k as int] != pattern@[k as int]);
            return false;
        }
        k = k + 1;
    }
    assert(text@.subrange(at as int, at + pattern.len()) =~= pattern@);
    true
}

/// Replaces every occurrence of `old_text` in `text` by `new_text`.
pub fn replace_text(text: &str, old_text: &str, new_text: &str) -> (r: String)
    ensures
        r@ == replace_all(text@, old_text@, new_text@),
{
    let source: Vec<char> = chars_of(text);
    let pattern: Vec<char> = chars_of(old_text);
    let mut out: String = String::new();
    let mut i: usize = 0;
    if pattern.len() == 0 {
        out.append(new_text);
        assert(source@.skip(0) == source@);
        while i < source.len()
            invariant
                i <= source.len(),
                new_text@ + follow_each(source@, new_text@) == out@ + follow_each(
                    source@.skip(i as int),
                    new_text@,
                ),
            decreases source.len() - i,
        {
            proof {
                let rest = source@.skip(i as int);
                assert(rest.skip(1) == source@.skip(i + 1));
                assert(out@.push(source@[i as int]) + new_text@ + follow_each(
                    rest.skip(1),
                    new_text@,
                ) =~= out@ + (seq![rest[0]] + new_text@ + follow_each(rest.skip(1), new_text@)));
            }
            out.push(source[i]);
            out.append(new_text);
            i = i + 1;
        }
        assert(out@ + follow_each(source@.skip(i as int), new_text@) =~= out@);
        return out;
    }
    assert(source@.skip(0) == source@);
    assert(out@ + replace_all(source@, pattern@, new_text@) =~= replace_all(
        source@,
        pattern@,
        new_text@,
    ));
    while i < source.len()
        invariant
            i <= source.len(),
            pattern@.len() > 0,
            replace_all(source@, pattern@, new_text@) == out@ + replace_all(
                source@.skip(i as int),
                pattern@,
                new_text@,
            ),
        decreases source.len() - i,
    {
        let ghost rest = source@.skip(i as int);
        let found = matches_at(&source, &pattern, i);
        proof {
            assert(found == occurs_at(rest, pattern@, 0)) by {
                if i + pattern@.len() <= source@.len() {
                    assert(rest.subrange(0, pattern@.len() as int) =~= source@.subrange(
                        i as int,
                        i + pattern@.len(),
                    ));
                }
            }
        }
        if found {
            proof {
                assert(rest.skip(pattern@.len() as int) == source@.skip(i + pattern@.len()));
                assert(out@ + new_text@ + replace_all(
                    rest.skip(pattern@.len() as int),
                    pattern@,
                    new_text@,
                ) =~= out@ + (new_text@ + replace_all(
                    rest.skip(pattern@.len() as int),
                    pattern@,
                    new_text@,
                )));
            }
            out.append(new_text);
            i = i + pattern.len();
        } else {
            proof {
                assert(rest.skip(1) == source@.skip(i + 1));
                assert(out@.push(source@[i as int]) + replace_all(
                    rest.skip(1),
                    pattern@,
                    new_text@,
                ) =~= out@ + (seq![rest[0]] + replace_all(rest.skip(1), pattern@, new_text@)));
            }
            out.push(source[i]);
            i = i + 1;
        }
    }
    assert(out@ + replace_all(source@.skip(i as int), pattern@, new_text@) =~= out@);
    out
}

/// A text in which `old_text` does not occur is left as it is.
pub proof fn replace_all_without_occurrence(
    text: Seq<char>,
    old_text: Seq<char>,
    new_text: Seq<char>,
)
    requires
        old_text.len() > 0,
        forall|at: int| !occurs_at(text, old_text, at),
    ensures
        replace_all(text, old_text, new_text) == text,
    decreases text.len(),
{
    if text.len() > 0 {
        let rest = text.skip(1);
        assert forall|at: int| !occurs_at(rest, old_text, at) by {
            if occurs_at(rest, old_text, at) {
                assert(text.subrange(at + 1, at + 1 + old_text.len()) =~= rest.subrange(
                    at,
                    at + old_text.len(),
                ));
                assert(occurs_at(text, old_text, at + 1));
            }
        }
        replace_all_without_occurrence(rest, old_text, new_text);
        assert(seq![text[0]] + rest =~= text);
    }
}

/// What stands before the first occurrence of `old_text` is kept, the
/// occurrence itself becomes `new_text`, and the rest of the text is treated
/// in the same way. So every occurrence is replaced, not only the first.
pub proof fn replace_all_at_first_occurrence(
    text: Seq<char>,
    old_text: Seq<char>,
    new_text: Seq<char>,
    at: int,
)
    requires
        old_text.len() > 0,
        occurs_at(text, old_text, at),
        forall|before: int| before < at ==> !occurs_at(text, old_text, before),
    ensures
        replace_all(text, old_text, new_text) == text.take(at) + new_text + replace_all(
            text.skip(at + old_text.len()),
            old_text,
            new_text,
        ),
    decreases at,
{
    if at == 0 {
        assert(text.take(0) + new_text =~= new_text);
    } else {
        let rest = text.skip(1);
        assert(!occurs_at(text, old_text, 0));
        assert(rest.subrange(at - 1, at - 1 + old_text.len()) =~= text.subrange(
            at,
            at + old_text.len(),
        ));
        assert forall|before: int| before < at - 1 implies !occurs_at(rest, old_text, before) by {
            if occurs_at(rest, old_text, before) {
                assert(text.subrange(before + 1, before + 1 + old_text.len()) =~= rest.subrange(
                    before,
                    before + old_text.len(),
                ));
                assert(occurs_at(text, old_text, before + 1));
            }
        }
        replace_all_at_first_occurrence(rest, old_text, new_text, at - 1);
        assert(rest.skip(at - 1 + old_text.len()) == text.skip(at + old_text.len()));
        assert(seq![text[0]] + rest.take(at - 1) =~= text.take(at));
        assert(seq![text[0]] + (rest.take(at - 1) + new_text + replace_all(
            text.skip(at + old_text.len()),
            old_text,
            new_text,
        )) =~= text.take(at) + new_text + replace_all(
            text.skip(at + old_text.len()),
            old_text,
            new_text,
        ));
    }
}

} // verus!
