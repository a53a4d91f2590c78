//! Settings written as one command-line value.
//!
//! A list is written with commas between its items, an alias as
//! `context:alias`. Empty items are dropped: an empty critical name would be
//! part of every context name.

use vstd::prelude::*;
use vstd::string::*;
use crate::configuration::KubeContextAlias;
use crate::error::ConfigError;
use crate::text::chars_of;

verus! {

/// The run of characters after the last comma of `s`.
pub open spec fn open_item(s: Seq<char>) -> Seq<char>
    decreases s.len(),
{
    if s.len() == 0 || s.last() == ',' {
        Seq::empty()
    } else {
        open_item(s.drop_last()).push(s.last())
    }
}

/// `items` and after them `item`, unless it is empty.
pub open spec fn with_item(items: Seq<Seq<char>>, item: Seq<char>) -> Seq<Seq<char>> {
    if item.len() == 0 {
        items
    } else {
        items.push(item)
    }
}

/// The items of `s` that a comma ends, without the empty ones.
pub open spec fn closed_items(s: Seq<char>) -> Seq<Seq<char>>
    decreases s.len(),
{
    if s.len() == 0 {
        Seq::empty()
    } else if s.last() == ',' {
        with_item(closed_items(s.drop_last()), open_item(s.drop_last()))
    } else {
        closed_items(s.drop_last())
    }
}

/// The items of the list `s`: the runs of characters between its commas,
/// without the empty ones.
pub open spec fn list_items(s: Seq<char>) -> Seq<Seq<char>> {
    with_item(closed_items(s), open_item(s))
}

/// The position of the last colon of `s`.
pub open spec fn last_colon(s: Seq<char>) -> Option<int>
    decreases s.len(),
{
    if s.len() == 0 {
        None
    } else if s.last() == ':' {
        Some(s.len() - 1)
    } else {
        last_colon(s.drop_last())
    }
}

/// The context and the alias that `pair` is made of: what stands before and
/// after its last colon, if there is one and neither side is empty. The last
/// colon, since context names may hold colons and aliases are short.
pub open spec fn alias_parts(pair: Seq<char>) -> Option<(Seq<char>, Seq<char>)> {
    match last_colon(pair) {
        Some(i) if 0 < i && i + 1 < pair.len() => Some((pair.take(i), pair.skip(i + 1))),
        _ => None,
    }
}

/// Whether `result` is the outcome of parsing `pair` as an alias.
pub open spec fn alias_parsed(pair: Seq<char>, result: Result<KubeContextAlias, ConfigError>) -> bool {
    match alias_parts(pair) {
        Some((context, alias)) => {
            &&& result matches Ok(parsed)
            &&& parsed.context@ == context
            &&& parsed.alias@ == alias
        },
        None => {
            &&& result matches Err(ConfigError::MalformedAlias(text))
            &&& text@ == pair
        },
    }
}

/// The first item from position `from` on that is no alias.
pub open spec fn first_malformed(items: Seq<Seq<char>>, from: int) -> Option<int>
    decreases items.len() - from,
{
    if from < 0 || from >= items.len() {
        None
    } else if alias_parts(items[from]) is None {
        Some(from)
    } else {
        first_malformed(items, from + 1)
    }
}

/// Whether `result` is the outcome of parsing `list` as a list of aliases:
/// the alias of each item in order, or the error for the first item that is
/// none.
pub open spec fn aliases_parsed(
    list: Seq<char>,
    result: Result<Vec<KubeContextAlias>, ConfigError>,
) -> bool {
    let items = list_items(list);
    match first_malformed(items, 0) {
        None => {
            &&& result matches Ok(parsed)
            &&& parsed@.len() == items.len()
            &&& forall|i: int|
                0 <= i < items.len() ==> alias_parts(items[i]) == Some(
                    ((#[trigger] parsed@[i]).context@, parsed@[i].alias@),
                )
        },
        Some(i) => {
            &&& result matches Err(ConfigError::MalformedAlias(text))
            &&& text@ == items[i]
        },
    }
}

proof fn lemma_open_item(s: Seq<char>)
    ensures
        !open_item(s).contains(','),
    decreases s.len(),
{
    if s.len() == 0 || s.last() == ',' {
    } else {
        lemma_open_item(s.drop_last());
        let shorter = open_item(s.drop_last());
        assert forall|i: int| 0 <= i < open_item(s).len() implies open_item(s)[i] != ',' by {
            if i < shorter.len() {
                assert(shorter.contains(shorter[i]));
            }
        }
    }
}

proof fn lemma_closed_items(s: Seq<char>, i: int)
    requires
        0 <= i < closed_items(s).len(),
    ensures
        closed_items(s)[i].len() > 0,
        !closed_items(s)[i].contains(','),
    decreases s.len(),
{
    if s.len() > 0 {
        let before = closed_items(s.drop_last());
        if i < before.len() {
            lemma_closed_items(s.drop_last(), i);
        } else {
            lemma_open_item(s.drop_last());
        }
    }
}

/// No item of a list is empty, and none holds a comma.
pub proof fn lemma_list_items(s: Seq<char>, i: int)
    requires
        0 <= i < list_items(s).len(),
    ensures
        list_items(s)[i].len() > 0,
        !list_items(s)[i].contains(','),
{
    if i < closed_items(s).len() {
        lemma_closed_items(s, i);
    } else {
        lemma_open_item(s);
    }
}

/// Splits a comma-separated list into its items.
pub fn parse_list(list: &str) -> (items: Vec<String>)
    ensures
        items.deep_view() == list_items(list@),
{
    let chars = chars_of(list);
    let mut items: Vec<String> = Vec::new();
    let mut start: usize = 0;
    let mut i: usize = 0;
    assert(items.deep_view() =~= Seq::<Seq<char>>::empty());
    assert(list@.take(0) =~= Seq::<char>::empty());
    while i < chars.len()
        invariant
            start <= i <= chars.len(),
            chars@ == list@,
            items.deep_view() == closed_items(list@.take(i as int)),
            open_item(list@.take(i as int)) == list@.subrange(start as int, i as int),
        decreases chars.len() - i,
    {
        let ghost before = items.deep_view();
        assert(list@.take(i + 1).drop_last() =~= list@.take(i as int));
        assert(list@.take(i + 1).last() == chars@[i as int]);
        if chars[i] == ',' {
            if start < i {
                let item = String::from_str(list.substring_char(start, i));
                items.push(item);
                assert(items.deep_view() =~= before.push(item@));
            }
            start = i + 1;
            assert(list@.subrange(start as int, i + 1) =~= Seq::<char>::empty());
        } else {
            assert(list@.subrange(start as int, i + 1) =~= list@.subrange(
                start as int,
                i as int,
            ).push(chars@[i as int]));
        }
        i += 1;
    }
    assert(list@.take(i as int) =~= list@);
    if start < i {
        let ghost before = items.deep_view();
        let item = String::from_str(list.substring_char(start, i));
        items.push(item);
        assert(items.deep_view() =~= before.push(item@));
    }
    items
}

/// Parses `context:alias`. The text is cut at its last colon; it is malformed
/// if it has no colon, or nothing before or after it.
pub fn parse_alias(pair: &str) -> (r: Result<KubeContextAlias, ConfigError>)
    ensures
        alias_parsed(pair@, r),
{
    let chars = chars_of(pair);
    let mut colon: Option<usize> = None;
    let mut i: usize = 0;
    assert(pair@.take(0) =~= Seq::<char>::empty());
    while i < chars.len()
        invariant
            i <= chars.len(),
            chars@ == pair@,
            match colon {
                Some(at) => at < i && last_colon(pair@.take(i as int)) == Some(at as int),
                None => last_colon(pair@.take(i as int)) is None,
            },
        decreases chars.len() - i,
    {
        assert(pair@.take(i + 1).drop_last() =~= pair@.take(i as int));
        assert(pair@.take(i + 1).last() == chars@[i as int]);
        if chars[i] == ':' {
            colon = Some(i);
        }
        i += 1;
    }
    assert(pair@.take(i as int) =~= pair@);
    match colon {
        Some(at) if 0 < at && at + 1 < chars.len() => {
            let context = String::from_str(pair.substring_char(0, at));
            let alias = String::from_str(pair.substring_char(at + 1, chars.len()));
            Ok(KubeContextAlias { context, alias })
        },
        _ => Err(ConfigError::MalformedAlias(String::from_str(pair))),
    }
}

/// Parses a comma-separated list of `context:alias` pairs.
pub fn parse_aliases(list: &str) -> (r: Result<Vec<KubeContextAlias>, ConfigError>)
    ensures
        aliases_parsed(list@, r),
{
    let items = parse_list(list);
    let ghost texts = items.deep_view();
    let mut aliases: Vec<KubeContextAlias> = Vec::new();
    let mut i: usize = 0;
    while i < items.len()
        invariant
            i <= items.len(),
            texts == items.deep_view(),
            texts == list_items(list@),
            aliases@.len() == i,
            first_malformed(texts, 0) == first_malformed(texts, i as int),
            forall|k: int|
                0 <= k < i ==> alias_parts(texts[k]) == Some(
                    ((#[trigger] aliases@[k]).context@, aliases@[k].alias@),
                ),
        decreases items.len() - i,
    {
        assert(texts[i as int] == items@[i as int]@);
        match parse_alias(items[i].as_str()) {
            Ok(alias) => {
                aliases.push(alias);
            },
            Err(e) => {
                return Err(e);
            },
        }
        i += 1;
    }
    Ok(aliases)
}

} // verus!
