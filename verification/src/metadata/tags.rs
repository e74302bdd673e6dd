//! What one line of a values file says, read off the capture groups that the
//! line patterns found in it.

use crate::metadata::value::{ValueMetadata, ValueView};
use crate::pattern::{found_view, groups_view, Groups};
use crate::text::{
    chars_of, opt_text, pieces_view, split_on, split_range, strip_range, stripped, text_of,
    trimmed, CharClass,
};
use vstd::prelude::*;

verus! {

/// The text of the group at `index`. A group that the pattern does not have,
/// or that took no part in the match, reads as the empty text.
pub open spec fn group_text(groups: Seq<Option<Seq<char>>>, index: int) -> Seq<char> {
    if 0 <= index < groups.len() && groups[index] is Some {
        groups[index]->0
    } else {
        Seq::empty()
    }
}

/// The text of group 1 of a match, where there is a match.
pub open spec fn first_group(found: Option<Seq<Option<Seq<char>>>>) -> Option<Seq<char>> {
    match found {
        Some(groups) => Some(group_text(groups, 1)),
        None => None,
    }
}

/// The modifiers that a bracket group lists: the text between the brackets,
/// split at the commas, each piece without the white space around it. Empty
/// brackets list nothing.
pub open spec fn modifiers_of(text: Seq<char>) -> Seq<Seq<char>> {
    let inner = stripped(text, CharClass::Bracket);
    if inner.len() == 0 {
        Seq::empty()
    } else {
        let pieces = split_on(inner, ',');
        Seq::new(pieces.len(), |i: int| trimmed(pieces[i]))
    }
}

/// The value that a matching value tag creates: group 1 names it, group 2
/// lists its modifiers where it took part in the match, group 3 describes it.
pub open spec fn param_value(groups: Seq<Option<Seq<char>>>) -> ValueView {
    ValueView::fresh(
        group_text(groups, 1),
        if 2 < groups.len() && groups[2] is Some {
            modifiers_of(groups[2]->0)
        } else {
            Seq::empty()
        },
        Some(group_text(groups, 3)),
    )
}

/// The value that a matching skip tag creates: group 1 names it, and it has
/// neither modifiers nor a description.
pub open spec fn skip_value(groups: Seq<Option<Seq<char>>>) -> ValueView {
    ValueView::fresh(group_text(groups, 1), Seq::empty(), None).skipped()
}

/// The value that a matching extra tag creates: group 1 names it, group 3
/// describes it, and it has no modifiers.
pub open spec fn extra_value(groups: Seq<Option<Seq<char>>>) -> ValueView {
    ValueView::fresh(group_text(groups, 1), Seq::empty(), Some(group_text(groups, 3))).extra()
}

/// The value that a line creates, from what the value pattern, the skip
/// pattern and the extra pattern found in it. The value pattern goes first,
/// then the skip pattern, then the extra pattern.
pub open spec fn line_value(
    param: Option<Seq<Option<Seq<char>>>>,
    skip: Option<Seq<Option<Seq<char>>>>,
    extra: Option<Seq<Option<Seq<char>>>>,
) -> Option<ValueView> {
    if param is Some {
        Some(param_value(param->0))
    } else if skip is Some {
        Some(skip_value(skip->0))
    } else if extra is Some {
        Some(extra_value(extra->0))
    } else {
        None
    }
}

/// The view of a value that may be absent.
pub open spec fn opt_value(value: Option<ValueMetadata>) -> Option<ValueView> {
    match value {
        Some(value) => Some(value@),
        None => None,
    }
}

/// The text of the group at `index`, empty where the group is missing.
pub fn text_of_group(groups: &Groups, index: usize) -> (text: String)
    ensures
        text@ == group_text(groups_view(groups@), index as int),
{
    if index < groups.len() {
        match &groups[index] {
            Some(found) => found.clone(),
            None => String::new(),
        }
    } else {
        String::new()
    }
}

/// The text of group 1 of a match, where there is a match.
pub fn text_of_first_group(found: &Option<Groups>) -> (text: Option<String>)
    ensures
        opt_text(text) == first_group(found_view(*found)),
{
    match found {
        Some(groups) => Some(text_of_group(groups, 1)),
        None => None,
    }
}

/// Reads the modifiers off a bracket group.
pub fn parse_modifiers(text: &str) -> (modifiers: Vec<String>)
    ensures
        modifiers.deep_view() == modifiers_of(text@),
{
    let chars = chars_of(text);
    proof {
        assert(chars@.subrange(0, chars@.len() as int) == chars@);
    }
    let (from, to) = strip_range(&chars, 0, chars.len(), CharClass::Bracket);
    let mut modifiers: Vec<String> = Vec::new();
    if from == to {
        assert(modifiers.deep_view() == Seq::<Seq<char>>::empty());
        return modifiers;
    }
    let pieces = split_range(&chars, from, to, ',');
    let mut i: usize = 0;
    while i < pieces.len()
        invariant
            i <= pieces.len(),
            from < to <= chars.len(),
            chars@ == text@,
            chars@.subrange(from as int, to as int) == stripped(text@, CharClass::Bracket),
            pieces_view(pieces@) == split_on(chars@.subrange(from as int, to as int), ','),
            modifiers.deep_view() == modifiers_of(text@).take(i as int),
        decreases pieces.len() - i,
    {
        let piece = &pieces[i];
        proof {
            assert(pieces_view(pieces@)[i as int] == piece@);
            assert(piece@.subrange(0, piece@.len() as int) == piece@);
        }
        let (start, end) = strip_range(piece, 0, piece.len(), CharClass::Whitespace);
        let modifier = text_of(piece, start, end);
        proof {
            let inner = stripped(text@, CharClass::Bracket);
            assert(inner.len() == to - from);
            assert(modifier@ == trimmed(split_on(inner, ',')[i as int]));
            assert(modifiers_of(text@).len() == pieces.len());
            assert(modifiers.deep_view().push(modifier@) == modifiers_of(text@).take(i + 1));
        }
        modifiers.push(modifier);
        i = i + 1;
    }
    proof {
        let inner = stripped(text@, CharClass::Bracket);
        assert(inner.len() == to - from);
        assert(modifiers_of(text@).len() == pieces.len());
        assert(modifiers_of(text@).take(i as int) == modifiers_of(text@));
    }
    modifiers
}

/// The value that a matching value tag creates.
pub fn value_from_param(groups: &Groups) -> (value: ValueMetadata)
    ensures
        value@ == param_value(groups_view(groups@)),
{
    let name = text_of_group(groups, 1);
    let modifiers = if 2 < groups.len() {
        match &groups[2] {
            Some(listed) => parse_modifiers(listed.as_str()),
            None => Vec::new(),
        }
    } else {
        Vec::new()
    };
    assert(modifiers.deep_view() == param_value(groups_view(groups@)).modifiers);
    let descr = text_of_group(groups, 3);
    ValueMetadata::new(name, modifiers, Some(descr))
}

/// The value that a matching skip tag creates.
pub fn value_from_skip(groups: &Groups) -> (value: ValueMetadata)
    ensures
        value@ == skip_value(groups_view(groups@)),
{
    let name = text_of_group(groups, 1);
    let modifiers: Vec<String> = Vec::new();
    assert(modifiers.deep_view() == Seq::<Seq<char>>::empty());
    let mut value = ValueMetadata::new(name, modifiers, None);
    value.skip();
    value
}

/// The value that a matching extra tag creates.
pub fn value_from_extra(groups: &Groups) -> (value: ValueMetadata)
    ensures
        value@ == extra_value(groups_view(groups@)),
{
    let name = text_of_group(groups, 1);
    let descr = text_of_group(groups, 3);
    let modifiers: Vec<String> = Vec::new();
    assert(modifiers.deep_view() == Seq::<Seq<char>>::empty());
    let mut value = ValueMetadata::new(name, modifiers, Some(descr));
    value.set_extra();
    value
}

} // verus!
