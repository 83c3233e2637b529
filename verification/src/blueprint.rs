//! The `ui_blueprint!` expansion: it scans a component's body for the actions
//! and zones that it names and generates the action enum, the zone enum and
//! the selector bookkeeping for the component.
use vstd::prelude::*;
use crate::names::{SortedNames, sorted_list, strictly_sorted, lemma_sorted_list_of, same_text};
use crate::tokens::{Token, Delimiter, ident_text, is_punct, is_ident_named, is_brace_group, group_stream, group_text, text_is};

verus! {

// ---------------------------------------------------------------------------
// Action scan
// ---------------------------------------------------------------------------

/// Words that never name an action.
pub open spec fn is_action_keyword(n: Seq<char>) -> bool {
    n == "if"@ || n == "else"@ || n == "match"@ || n == "let"@ || n == "fn"@ || n == "for"@ || n == "in"@
}

/// Directives of the layout macros that follow an `@` without naming an action.
pub open spec fn is_directive(n: Seq<char>) -> bool {
    n == "to"@ || n == "parse"@ || n == "render"@ || n == "apply"@
}

/// The name ends with `Action` (a type name, not a variant).
pub open spec fn ends_with_action(n: Seq<char>) -> bool {
    let suffix = "Action"@;
    n.len() >= suffix.len() && n.subrange(n.len() - suffix.len(), n.len() as int) == suffix
}

/// The last segment of a path `first::second::...` whose separators start at `j`.
pub open spec fn path_end(ts: Seq<Token>, j: int, name: Seq<char>) -> Seq<char>
    decreases ts.len() - j,
{
    if 0 <= j && j + 2 < ts.len() && is_punct(ts[j], ':') && is_punct(ts[j + 1], ':')
        && ts[j + 2] is Ident {
        path_end(ts, j + 3, ident_text(ts[j + 2]))
    } else {
        name
    }
}

/// The action that token `i` of the stream names, if any: a path after
/// `action:` or `toggle_action:`, or a path after `@`.
pub open spec fn action_at(ts: Seq<Token>, i: int) -> Set<Seq<char>> {
    if ts[i] is Ident && (ident_text(ts[i]) == "action"@ || ident_text(ts[i]) == "toggle_action"@)
        && i + 2 < ts.len() && is_punct(ts[i + 1], ':') && ts[i + 2] is Ident {
        let n = path_end(ts, i + 3, ident_text(ts[i + 2]));
        if !ends_with_action(n) && !is_action_keyword(n) {
            set![n]
        } else {
            Set::empty()
        }
    } else if is_punct(ts[i], '@') && i + 1 < ts.len() && ts[i + 1] is Ident && !is_directive(
        ident_text(ts[i + 1]),
    ) {
        let n = path_end(ts, i + 2, ident_text(ts[i + 1]));
        if !is_action_keyword(n) {
            set![n]
        } else {
            Set::empty()
        }
    } else {
        Set::empty()
    }
}

/// The actions named from token `i` of the stream on, groups included.
pub open spec fn actions_from(ts: Seq<Token>, i: int) -> Set<Seq<char>>
    decreases ts, ts.len() - i,
{
    if i < 0 || i >= ts.len() {
        Set::empty()
    } else {
        let here = match ts[i] {
            Token::Group { stream, .. } => {
                proof {
                    assert(decreases_to!(ts => ts[i]));
                    assert(decreases_to!(ts[i] => stream));
                    assert(decreases_to!(stream => stream@));
                }
                actions_from(stream@, 0)
            },
            _ => action_at(ts, i),
        };
        here.union(actions_from(ts, i + 1))
    }
}

/// The actions that a token stream names.
pub open spec fn stream_actions(ts: Seq<Token>) -> Set<Seq<char>> {
    actions_from(ts, 0)
}

/// Whether the name ends with `Action`.
fn name_ends_with_action(s: &String) -> (r: bool)
    ensures
        r == ends_with_action(s@),
{
    let text = s.as_str();
    let suffix = "Action";
    let n = text.unicode_len();
    let m = suffix.unicode_len();
    if n < m {
        return false;
    }
    let mut k: usize = 0;
    while k < m
        invariant
            n == s@.len(),
            m == suffix@.len(),
            suffix@ == "Action"@,
            m <= n,
            k <= m,
            text@ == s@,
            forall|t: int| 0 <= t < k ==> s@[n - m + t] == suffix@[t],
        decreases m - k,
    {
        if text.get_char(n - m + k) != suffix.get_char(k) {
            assert(s@.subrange(n - m, n as int)[k as int] != suffix@[k as int]);
            assert(s@.subrange(n - m, n as int) != suffix@);
            return false;
        }
        k = k + 1;
    }
    assert(s@.subrange(n - m, n as int) =~= suffix@);
    true
}

/// Whether the name is one of the words that never name an action.
fn name_is_action_keyword(s: &String) -> (r: bool)
    ensures
        r == is_action_keyword(s@),
{
    text_is(s, "if") || text_is(s, "else") || text_is(s, "match") || text_is(s, "let")
        || text_is(s, "fn") || text_is(s, "for") || text_is(s, "in")
}

/// Whether the name is a layout directive.
fn name_is_directive(s: &String) -> (r: bool)
    ensures
        r == is_directive(s@),
{
    text_is(s, "to") || text_is(s, "parse") || text_is(s, "render") || text_is(s, "apply")
}

/// Follows a path `a::b::c` from position `j` and gives its last segment.
fn follow_path<'a>(ts: &'a Vec<Token>, start: usize, first: &'a String) -> (r: &'a String)
    ensures
        r@ == path_end(ts@, start as int, first@),
{
    let n = ts.len();
    let mut j = start;
    let mut name = first;
    while j < n && n - j > 2
        invariant
            n == ts@.len(),
            path_end(ts@, j as int, name@) == path_end(ts@, start as int, first@),
        decreases n - j,
    {
        let sep1 = match &ts[j] {
            Token::Punct(c) => *c == ':',
            _ => false,
        };
        let sep2 = match &ts[j + 1] {
            Token::Punct(c) => *c == ':',
            _ => false,
        };
        if !(sep1 && sep2) {
            return name;
        }
        match &ts[j + 2] {
            Token::Ident(next) => {
                name = next;
            },
            _ => {
                return name;
            },
        }
        j = j + 3;
    }
    name
}

/// Adds to `actions` every action that the token stream names.
pub fn scan_for_actions(stream: &Vec<Token>, actions: &mut SortedNames)
    requires
        old(actions).wf(),
    ensures
        final(actions).wf(),
        final(actions).names() == old(actions).names().union(stream_actions(stream@)),
    decreases stream@,
{
    let n = stream.len();
    let mut i: usize = 0;
    while i < n
        invariant
            n == stream@.len(),
            i <= n,
            actions.wf(),
            actions.names().union(actions_from(stream@, i as int)) == old(actions).names().union(
                stream_actions(stream@),
            ),
        decreases n - i,
    {
        let ghost before = actions.names();
        let ghost ts = stream@;
        match &stream[i] {
            Token::Ident(s) => {
                if (text_is(s, "action") || text_is(s, "toggle_action")) && n - i > 2 {
                    let colon = match &stream[i + 1] {
                        Token::Punct(c) => *c == ':',
                        _ => false,
                    };
                    if colon {
                        match &stream[i + 2] {
                            Token::Ident(first) => {
                                let name = follow_path(stream, i + 3, first);
                                if !name_ends_with_action(name) && !name_is_action_keyword(name) {
                                    actions.insert(name.as_str());
                                }
                            },
                            _ => {},
                        }
                    }
                }
            },
            Token::Punct(c) => {
                if *c == '@' && n - i > 1 {
                    match &stream[i + 1] {
                        Token::Ident(first) => {
                            if !name_is_directive(first) {
                                let name = follow_path(stream, i + 2, first);
                                if !name_is_action_keyword(name) {
                                    actions.insert(name.as_str());
                                }
                            }
                        },
                        _ => {},
                    }
                }
            },
            Token::Group { stream: inner, .. } => {
                proof {
                    assert(decreases_to!(stream@ => stream@[i as int]));
                }
                scan_for_actions(inner, actions);
            },
            Token::Literal(_) => {},
        }
        let ghost here = match ts[i as int] {
            Token::Group { stream, .. } => actions_from(stream@, 0),
            _ => action_at(ts, i as int),
        };
        assert(actions.names() =~= before.union(here));
        assert(actions_from(ts, i as int) == here.union(actions_from(ts, i + 1)));
        assert(actions.names().union(actions_from(ts, i + 1)) =~= before.union(
            actions_from(ts, i as int),
        ));
        i = i + 1;
    }
    assert(actions_from(stream@, n as int) =~= Set::empty());
    assert(actions.names() =~= actions.names().union(actions_from(stream@, n as int)));
}

// ---------------------------------------------------------------------------
// Zone scan
// ---------------------------------------------------------------------------

/// What `char::is_uppercase` returns for `c` (the Unicode `Uppercase` property).
pub uninterp spec fn char_is_uppercase(c: char) -> bool;

/// Calls `char::is_uppercase`. The result is named, not written out: the
/// Unicode property takes tables to state. Nothing more is claimed of it here;
/// the library consults it only for characters outside ASCII.
#[verifier::external_body]
fn char_uppercase(c: char) -> (r: bool)
    ensures
        r == char_is_uppercase(c),
{
    c.is_uppercase()
}

/// Whether `c` is an uppercase character: among ASCII characters exactly `A`
/// to `Z`, elsewhere the Unicode `Uppercase` property.
pub open spec fn is_upper_char(c: char) -> bool {
    if (c as u32) < 128 {
        'A' <= c && c <= 'Z'
    } else {
        char_is_uppercase(c)
    }
}

/// Keywords that never name a zone.
pub open spec fn is_zone_keyword(n: Seq<char>) -> bool {
    n == "if"@ || n == "else"@ || n == "match"@ || n == "for"@ || n == "while"@ || n == "loop"@
        || n == "let"@ || n == "mut"@ || n == "fn"@ || n == "return"@ || n == "break"@
        || n == "continue"@
}

/// The name starts with an uppercase character.
pub open spec fn starts_upper(n: Seq<char>) -> bool {
    n.len() > 0 && is_upper_char(n[0])
}

/// The zone that token `i` of a layout body opens, if any: an uppercase name
/// followed by a braced block, that is not a field's type, not the subject of
/// an `if`, not the right side of an `=` and not a keyword.
pub open spec fn zone_name_at(ts: Seq<Token>, i: int) -> Option<Seq<char>> {
    if ts[i] is Ident && i + 1 < ts.len() && is_brace_group(ts[i + 1]) {
        let name = ident_text(ts[i]);
        let is_field_type = i > 0 && is_punct(ts[i - 1], ':');
        let is_conditional = i > 0 && is_ident_named(ts[i - 1], "if"@);
        let is_assignment = i > 0 && is_punct(ts[i - 1], '=');
        if starts_upper(name) && !is_field_type && !is_conditional && !is_assignment
            && !is_zone_keyword(name) {
            Some(name)
        } else {
            None
        }
    } else {
        None
    }
}

/// The zone that token `i` of a layout body opens, as a set.
pub open spec fn zone_at(ts: Seq<Token>, i: int) -> Set<Seq<char>> {
    match zone_name_at(ts, i) {
        Some(name) => set![name],
        None => Set::empty(),
    }
}

/// The zones opened from token `i` of a layout body on, nested groups included.
pub open spec fn layout_zones_from(ts: Seq<Token>, i: int) -> Set<Seq<char>>
    decreases ts, ts.len() - i,
{
    if i < 0 || i >= ts.len() {
        Set::empty()
    } else {
        let nested = match ts[i] {
            Token::Group { stream, .. } => {
                proof {
                    assert(decreases_to!(ts => ts[i]));
                    assert(decreases_to!(ts[i] => stream));
                    assert(decreases_to!(stream => stream@));
                }
                layout_zones_from(stream@, 0)
            },
            _ => Set::empty(),
        };
        zone_at(ts, i).union(nested).union(layout_zones_from(ts, i + 1))
    }
}

/// The zones opened in a layout body.
pub open spec fn layout_zones(ts: Seq<Token>) -> Set<Seq<char>> {
    layout_zones_from(ts, 0)
}

/// The zones of a `ui!` or `section!` invocation at token `i`, if one stands there.
pub open spec fn macro_zones_at(ts: Seq<Token>, i: int) -> Set<Seq<char>> {
    if (is_ident_named(ts[i], "ui"@) || is_ident_named(ts[i], "section"@)) && i + 2 < ts.len()
        && is_punct(ts[i + 1], '!') && ts[i + 2] is Group {
        layout_zones(group_stream(ts[i + 2]))
    } else {
        Set::empty()
    }
}

/// The zones of every layout invocation from token `i` of a stream on.
pub open spec fn zones_from(ts: Seq<Token>, i: int) -> Set<Seq<char>>
    decreases ts, ts.len() - i,
{
    if i < 0 || i >= ts.len() {
        Set::empty()
    } else {
        let nested = match ts[i] {
            Token::Group { stream, .. } => {
                proof {
                    assert(decreases_to!(ts => ts[i]));
                    assert(decreases_to!(ts[i] => stream));
                    assert(decreases_to!(stream => stream@));
                }
                zones_from(stream@, 0)
            },
            _ => Set::empty(),
        };
        macro_zones_at(ts, i).union(nested).union(zones_from(ts, i + 1))
    }
}

/// The zones that the layout invocations in a token stream open.
pub open spec fn stream_zones(ts: Seq<Token>) -> Set<Seq<char>> {
    zones_from(ts, 0)
}

/// Whether the name is a keyword that never names a zone.
fn name_is_zone_keyword(s: &String) -> (r: bool)
    ensures
        r == is_zone_keyword(s@),
{
    text_is(s, "if") || text_is(s, "else") || text_is(s, "match") || text_is(s, "for")
        || text_is(s, "while") || text_is(s, "loop") || text_is(s, "let") || text_is(s, "mut")
        || text_is(s, "fn") || text_is(s, "return") || text_is(s, "break") || text_is(
        s,
        "continue",
    )
}

/// Whether the name starts with an uppercase character.
fn name_starts_upper(s: &String) -> (r: bool)
    ensures
        r == starts_upper(s@),
{
    let text = s.as_str();
    if text.unicode_len() == 0 {
        return false;
    }
    let first = text.get_char(0);
    if (first as u32) < 128 {
        'A' <= first && first <= 'Z'
    } else {
        char_uppercase(first)
    }
}

/// The list `acc` with `name` appended, unless it holds it already.
pub open spec fn add_unique(acc: Seq<Seq<char>>, name: Seq<char>) -> Seq<Seq<char>> {
    if acc.contains(name) {
        acc
    } else {
        acc.push(name)
    }
}

/// The zone list after scanning a layout body from token `i` on: each zone
/// opened that the list does not hold yet is appended, in order of first
/// appearance; a zone's name comes before the zones nested in its block.
pub open spec fn layout_zone_list(acc: Seq<Seq<char>>, ts: Seq<Token>, i: int) -> Seq<Seq<char>>
    decreases ts, ts.len() - i,
{
    if i < 0 || i >= ts.len() {
        acc
    } else {
        let a1 = match zone_name_at(ts, i) {
            Some(name) => add_unique(acc, name),
            None => acc,
        };
        let a2 = match ts[i] {
            Token::Group { stream, .. } => {
                proof {
                    assert(decreases_to!(ts => ts[i]));
                    assert(decreases_to!(ts[i] => stream));
                    assert(decreases_to!(stream => stream@));
                }
                layout_zone_list(a1, stream@, 0)
            },
            _ => a1,
        };
        layout_zone_list(a2, ts, i + 1)
    }
}

/// The zone list after the `ui!` or `section!` invocation at token `i`, if
/// one stands there.
pub open spec fn macro_zone_list(acc: Seq<Seq<char>>, ts: Seq<Token>, i: int) -> Seq<Seq<char>> {
    if (is_ident_named(ts[i], "ui"@) || is_ident_named(ts[i], "section"@)) && i + 2 < ts.len()
        && is_punct(ts[i + 1], '!') && ts[i + 2] is Group {
        layout_zone_list(acc, group_stream(ts[i + 2]), 0)
    } else {
        acc
    }
}

/// The zone list after scanning the layout invocations of a stream from
/// token `i` on, nested groups included, in order of first appearance.
pub open spec fn zone_list(acc: Seq<Seq<char>>, ts: Seq<Token>, i: int) -> Seq<Seq<char>>
    decreases ts, ts.len() - i,
{
    if i < 0 || i >= ts.len() {
        acc
    } else {
        let a1 = macro_zone_list(acc, ts, i);
        let a2 = match ts[i] {
            Token::Group { stream, .. } => {
                proof {
                    assert(decreases_to!(ts => ts[i]));
                    assert(decreases_to!(ts[i] => stream));
                    assert(decreases_to!(stream => stream@));
                }
                zone_list(a1, stream@, 0)
            },
            _ => a1,
        };
        zone_list(a2, ts, i + 1)
    }
}

/// `r` extends `acc`: `acc` is a prefix of it, it holds a name twice only if
/// `acc` does, and it holds exactly the names of `acc` and `added`.
pub open spec fn extends_with(acc: Seq<Seq<char>>, r: Seq<Seq<char>>, added: Set<Seq<char>>) -> bool {
    &&& acc.is_prefix_of(r)
    &&& acc.no_duplicates() ==> r.no_duplicates()
    &&& r.to_set() == acc.to_set().union(added)
}

proof fn lemma_add_unique(acc: Seq<Seq<char>>, name: Seq<char>)
    ensures
        extends_with(acc, add_unique(acc, name), set![name]),
{
    let r = add_unique(acc, name);
    if acc.contains(name) {
        assert(r.to_set() =~= acc.to_set().union(set![name]));
    } else {
        assert(acc =~= r.subrange(0, acc.len() as int));
        assert(r.to_set() =~= acc.to_set().union(set![name])) by {
            assert forall|x: Seq<char>| r.to_set().contains(x) implies acc.to_set().union(
                set![name],
            ).contains(x) by {
                let k = choose|k: int| 0 <= k < r.len() && r[k] == x;
                if k < acc.len() {
                    assert(acc[k] == x);
                }
            }
            assert forall|x: Seq<char>| acc.to_set().union(set![name]).contains(x) implies r.to_set().contains(x) by {
                if x == name {
                    assert(r[acc.len() as int] == x);
                } else {
                    let k = choose|k: int| 0 <= k < acc.len() && acc[k] == x;
                    assert(r[k] == x);
                }
            }
        }
    }
}

proof fn lemma_extends_trans(
    a: Seq<Seq<char>>,
    b: Seq<Seq<char>>,
    c: Seq<Seq<char>>,
    s1: Set<Seq<char>>,
    s2: Set<Seq<char>>,
)
    requires
        extends_with(a, b, s1),
        extends_with(b, c, s2),
    ensures
        extends_with(a, c, s1.union(s2)),
{
    assert(a =~= c.subrange(0, a.len() as int)) by {
        assert forall|k: int| 0 <= k < a.len() implies a[k] == c.subrange(0, a.len() as int)[k] by {
            assert(a[k] == b.subrange(0, a.len() as int)[k]);
            assert(b[k] == c.subrange(0, b.len() as int)[k]);
        }
    }
    assert(c.to_set() =~= a.to_set().union(s1.union(s2)));
}

proof fn lemma_extends_refl(a: Seq<Seq<char>>)
    ensures
        extends_with(a, a, Set::empty()),
{
    assert(a =~= a.subrange(0, a.len() as int));
    assert(a.to_set() =~= a.to_set().union(Set::empty()));
}

/// Scanning a layout body extends the list by the zones the body opens.
pub proof fn lemma_layout_zone_list(acc: Seq<Seq<char>>, ts: Seq<Token>, i: int)
    ensures
        extends_with(acc, layout_zone_list(acc, ts, i), layout_zones_from(ts, i)),
    decreases ts, ts.len() - i,
{
    if i < 0 || i >= ts.len() {
        lemma_extends_refl(acc);
        assert(layout_zones_from(ts, i) =~= Set::empty());
    } else {
        let a1 = match zone_name_at(ts, i) {
            Some(name) => add_unique(acc, name),
            None => acc,
        };
        match zone_name_at(ts, i) {
            Some(name) => lemma_add_unique(acc, name),
            None => lemma_extends_refl(acc),
        }
        let nested = match ts[i] {
            Token::Group { stream, .. } => layout_zones_from(stream@, 0),
            _ => Set::empty(),
        };
        let a2 = match ts[i] {
            Token::Group { stream, .. } => layout_zone_list(a1, stream@, 0),
            _ => a1,
        };
        match ts[i] {
            Token::Group { stream, .. } => {
                assert(decreases_to!(ts => ts[i]));
                assert(decreases_to!(ts[i] => stream));
                assert(decreases_to!(stream => stream@));
                lemma_layout_zone_list(a1, stream@, 0);
            },
            _ => lemma_extends_refl(a1),
        }
        lemma_extends_trans(acc, a1, a2, zone_at(ts, i), nested);
        lemma_layout_zone_list(a2, ts, i + 1);
        lemma_extends_trans(
            acc,
            a2,
            layout_zone_list(a2, ts, i + 1),
            zone_at(ts, i).union(nested),
            layout_zones_from(ts, i + 1),
        );
        assert(zone_at(ts, i).union(nested).union(layout_zones_from(ts, i + 1)) == layout_zones_from(
            ts,
            i,
        ));
    }
}

/// Scanning a stream's layout invocations extends the list by their zones.
pub proof fn lemma_zone_list(acc: Seq<Seq<char>>, ts: Seq<Token>, i: int)
    ensures
        extends_with(acc, zone_list(acc, ts, i), zones_from(ts, i)),
    decreases ts, ts.len() - i,
{
    if i < 0 || i >= ts.len() {
        lemma_extends_refl(acc);
        assert(zones_from(ts, i) =~= Set::empty());
    } else {
        let a1 = macro_zone_list(acc, ts, i);
        if (is_ident_named(ts[i], "ui"@) || is_ident_named(ts[i], "section"@)) && i + 2 < ts.len()
            && is_punct(ts[i + 1], '!') && ts[i + 2] is Group {
            lemma_layout_zone_list(acc, group_stream(ts[i + 2]), 0);
        } else {
            lemma_extends_refl(acc);
        }
        let nested = match ts[i] {
            Token::Group { stream, .. } => zones_from(stream@, 0),
            _ => Set::empty(),
        };
        let a2 = match ts[i] {
            Token::Group { stream, .. } => zone_list(a1, stream@, 0),
            _ => a1,
        };
        match ts[i] {
            Token::Group { stream, .. } => {
                assert(decreases_to!(ts => ts[i]));
                assert(decreases_to!(ts[i] => stream));
                assert(decreases_to!(stream => stream@));
                lemma_zone_list(a1, stream@, 0);
            },
            _ => lemma_extends_refl(a1),
        }
        lemma_extends_trans(acc, a1, a2, macro_zones_at(ts, i), nested);
        lemma_zone_list(a2, ts, i + 1);
        lemma_extends_trans(
            acc,
            a2,
            zone_list(a2, ts, i + 1),
            macro_zones_at(ts, i).union(nested),
            zones_from(ts, i + 1),
        );
    }
}

/// Whether the list holds `name`.
fn list_contains(list: &Vec<String>, name: &str) -> (r: bool)
    ensures
        r == list.deep_view().contains(name@),
{
    let n = list.len();
    let mut i: usize = 0;
    while i < n
        invariant
            n == list@.len(),
            i <= n,
            forall|k: int| 0 <= k < i ==> list.deep_view()[k] != name@,
        decreases n - i,
    {
        if same_text(list[i].as_str(), name) {
            assert(list.deep_view()[i as int] == name@);
            return true;
        }
        i = i + 1;
    }
    proof {
        if list.deep_view().contains(name@) {
            let k = choose|k: int| 0 <= k < list.deep_view().len() && list.deep_view()[k] == name@;
            assert(list.deep_view()[k] != name@);
        }
    }
    false
}

/// Appends `name` unless the list holds it already.
fn push_unique(list: &mut Vec<String>, name: &String)
    ensures
        final(list).deep_view() == add_unique(old(list).deep_view(), name@),
{
    if !list_contains(list, name.as_str()) {
        let ghost before = list.deep_view();
        list.push(name.clone());
        assert(list.deep_view() =~= before.push(name@));
    }
}

/// Appends to `zones`, in order of first appearance, every zone that a layout
/// body opens and `zones` does not hold yet.
pub fn scan_stream_for_zones(stream: &Vec<Token>, zones: &mut Vec<String>)
    ensures
        final(zones).deep_view() == layout_zone_list(old(zones).deep_view(), stream@, 0),
        extends_with(old(zones).deep_view(), final(zones).deep_view(), layout_zones(stream@)),
    decreases stream@,
{
    proof {
        lemma_layout_zone_list(zones.deep_view(), stream@, 0);
    }
    let n = stream.len();
    let mut i: usize = 0;
    while i < n
        invariant
            n == stream@.len(),
            i <= n,
            layout_zone_list(zones.deep_view(), stream@, i as int) == layout_zone_list(
                old(zones).deep_view(),
                stream@,
                0,
            ),
        decreases n - i,
    {
        let ghost before = zones.deep_view();
        let ghost ts = stream@;
        match &stream[i] {
            Token::Ident(name) => {
                if n - i > 1 {
                    let braced = match &stream[i + 1] {
                        Token::Group { delimiter, .. } => *delimiter == Delimiter::Brace,
                        _ => false,
                    };
                    if braced {
                        let (is_field_type, is_conditional, is_assignment) = if i > 0 {
                            match &stream[i - 1] {
                                Token::Punct(c) => (*c == ':', false, *c == '='),
                                Token::Ident(prev) => (false, text_is(prev, "if"), false),
                                _ => (false, false, false),
                            }
                        } else {
                            (false, false, false)
                        };
                        if name_starts_upper(name) && !is_field_type && !is_conditional
                            && !is_assignment && !name_is_zone_keyword(name) {
                            push_unique(zones, name);
                        }
                    }
                }
            },
            _ => {},
        }
        let ghost a1 = zones.deep_view();
        assert(a1 == match zone_name_at(ts, i as int) {
            Some(name) => add_unique(before, name),
            None => before,
        });
        match &stream[i] {
            Token::Group { stream: inner, .. } => {
                proof {
                    assert(decreases_to!(stream@ => stream@[i as int]));
                }
                scan_stream_for_zones(inner, zones);
            },
            _ => {},
        }
        assert(zones.deep_view() == match ts[i as int] {
            Token::Group { stream, .. } => layout_zone_list(a1, stream@, 0),
            _ => a1,
        });
        i = i + 1;
    }
}

/// Appends to `zones`, in order of first appearance, every zone that the
/// `ui!` and `section!` invocations in a token stream open, looking into
/// nested groups.
pub fn scan_for_zones(stream: &Vec<Token>, zones: &mut Vec<String>)
    ensures
        final(zones).deep_view() == zone_list(old(zones).deep_view(), stream@, 0),
        extends_with(old(zones).deep_view(), final(zones).deep_view(), stream_zones(stream@)),
    decreases stream@,
{
    proof {
        lemma_zone_list(zones.deep_view(), stream@, 0);
    }
    let n = stream.len();
    let mut i: usize = 0;
    while i < n
        invariant
            n == stream@.len(),
            i <= n,
            zone_list(zones.deep_view(), stream@, i as int) == zone_list(old(zones).deep_view(), stream@, 0),
        decreases n - i,
    {
        let ghost before = zones.deep_view();
        let ghost ts = stream@;
        match &stream[i] {
            Token::Ident(name) => {
                if (text_is(name, "ui") || text_is(name, "section")) && n - i > 2 {
                    let bang = match &stream[i + 1] {
                        Token::Punct(c) => *c == '!',
                        _ => false,
                    };
                    if bang {
                        match &stream[i + 2] {
                            Token::Group { stream: body, .. } => {
                                scan_stream_for_zones(body, zones);
                            },
                            _ => {},
                        }
                    }
                }
            },
            _ => {},
        }
        let ghost a1 = zones.deep_view();
        assert(a1 == macro_zone_list(before, ts, i as int));
        match &stream[i] {
            Token::Group { stream: inner, .. } => {
                proof {
                    assert(decreases_to!(stream@ => stream@[i as int]));
                }
                scan_for_zones(inner, zones);
            },
            _ => {},
        }
        assert(zones.deep_view() == match ts[i as int] {
            Token::Group { stream, .. } => zone_list(a1, stream@, 0),
            _ => a1,
        });
        i = i + 1;
    }
}

// ---------------------------------------------------------------------------
// Invocation header
// ---------------------------------------------------------------------------

/// Why a `ui_blueprint!` invocation is refused.
#[derive(Clone, Copy, PartialEq, Eq, Debug, Structural)]
pub enum BlueprintError {
    /// The invocation does not start with the component's name.
    MissingComponentName,
    /// `zones` is followed by punctuation other than `:`.
    ExpectedColon,
    /// The zone enum's name is followed by punctuation other than `,`.
    ExpectedComma,
    /// No `{ ... }` body stands where it is expected.
    ExpectedBody,
}

/// The parts of an invocation `Component, zones: ZoneEnum, { body }`.
pub struct BlueprintHeader {
    pub component: String,
    pub zone_enum: Option<String>,
    /// The position of the body group in the token stream.
    pub body_index: usize,
}

/// The body stands at `k`, or the invocation is refused.
pub open spec fn body_at(ts: Seq<Token>, component: Seq<char>, zone: Option<Seq<char>>, k: int) -> Result<
    (Seq<char>, Option<Seq<char>>, int),
    BlueprintError,
> {
    if k < ts.len() && is_brace_group(ts[k]) {
        Ok((component, zone, k))
    } else {
        Err(BlueprintError::ExpectedBody)
    }
}

/// How an invocation reads: the component's name, the zone enum's name if
/// one is given, and the position of the body; or why it is refused.
pub open spec fn parse_header(ts: Seq<Token>) -> Result<(Seq<char>, Option<Seq<char>>, int), BlueprintError> {
    if ts.len() == 0 || !(ts[0] is Ident) {
        Err(BlueprintError::MissingComponentName)
    } else {
        let component = ident_text(ts[0]);
        if !(ts.len() > 1 && is_punct(ts[1], ',')) {
            body_at(ts, component, None, 1)
        } else if !(ts.len() > 2 && is_ident_named(ts[2], "zones"@)) {
            body_at(ts, component, None, 2)
        } else if ts.len() > 3 && ts[3] is Punct && !is_punct(ts[3], ':') {
            Err(BlueprintError::ExpectedColon)
        } else {
            let k = if ts.len() > 3 && ts[3] is Punct { 4int } else { 3int };
            let zone = if k < ts.len() && ts[k] is Ident { Some(ident_text(ts[k])) } else { None };
            let k2 = if zone is Some { k + 1 } else { k };
            if k2 < ts.len() && ts[k2] is Punct && !is_punct(ts[k2], ',') {
                Err(BlueprintError::ExpectedComma)
            } else {
                let k3 = if k2 < ts.len() && ts[k2] is Punct { k2 + 1 } else { k2 };
                body_at(ts, component, zone, k3)
            }
        }
    }
}

/// Reads the header of an invocation.
pub fn parse_blueprint_header(tokens: &Vec<Token>) -> (r: Result<BlueprintHeader, BlueprintError>)
    ensures
        match parse_header(tokens@) {
            Ok((component, zone, k)) => r matches Ok(h) && h.component@ == component
                && h.body_index == k && match zone {
                Some(z) => h.zone_enum matches Some(hz) && hz@ == z,
                None => h.zone_enum is None,
            },
            Err(e) => r == Err::<BlueprintHeader, BlueprintError>(e),
        },
{
    let n = tokens.len();
    let component = match tokens.get(0) {
        Some(Token::Ident(id)) => id.clone(),
        _ => {
            return Err(BlueprintError::MissingComponentName);
        },
    };
    let mut idx: usize = 1;
    let mut zone_enum: Option<String> = None;
    let comma = match tokens.get(1) {
        Some(Token::Punct(c)) => *c == ',',
        _ => false,
    };
    if comma {
        idx = 2;
        let zones_word = match tokens.get(2) {
            Some(Token::Ident(id)) => text_is(id, "zones"),
            _ => false,
        };
        if zones_word {
            idx = 3;
            match tokens.get(3) {
                Some(Token::Punct(c)) => {
                    if *c != ':' {
                        return Err(BlueprintError::ExpectedColon);
                    }
                    idx = 4;
                },
                _ => {},
            }
            match tokens.get(idx) {
                Some(Token::Ident(id)) => {
                    zone_enum = Some(id.clone());
                    idx = idx + 1;
                },
                _ => {},
            }
            match tokens.get(idx) {
                Some(Token::Punct(c)) => {
                    if *c != ',' {
                        return Err(BlueprintError::ExpectedComma);
                    }
                    idx = idx + 1;
                },
                _ => {},
            }
        }
    }
    let braced = match tokens.get(idx) {
        Some(Token::Group { delimiter, .. }) => *delimiter == Delimiter::Brace,
        _ => false,
    };
    if !braced {
        return Err(BlueprintError::ExpectedBody);
    }
    Ok(BlueprintHeader { component, zone_enum, body_index: idx })
}

// ---------------------------------------------------------------------------
// Generated code
// ---------------------------------------------------------------------------

/// The names joined with `sep` between each two of them.
pub open spec fn join(list: Seq<Seq<char>>, sep: Seq<char>) -> Seq<char>
    decreases list.len(),
{
    if list.len() == 0 {
        Seq::empty()
    } else if list.len() == 1 {
        list[0]
    } else {
        join(list.drop_last(), sep) + sep + list.last()
    }
}

pub const ZONE_ENUM_HEAD: &'static str = "#[derive(PartialEq, Eq, Debug, Clone, Copy)]\n                pub enum ";

pub const ZONE_ENUM_EMPTY: &'static str = " {}";

pub const ZONE_ENUM_OPEN: &'static str = " { ";

pub const ZONE_ENUM_CLOSE: &'static str = " }";

pub const CODE_START: &'static str = "\n        ";

pub const CODE_ACTION_ENUM: &'static str = "\n\n        #[derive(Clone, Copy, PartialEq, Eq, Debug)]\n        pub enum ";

pub const CODE_VARIANTS: &'static str = " {\n            ";

pub const CODE_SELECTOR_VARIANTS: &'static str = ",\n            ToggleSelector(&'static str),\n            CloseSelectors,\n        }\n\n        impl wgpu_ui::primitives::UiAction for ";

pub const CODE_INTERACTIVE: &'static str = " {\n            fn is_interactive(&self) -> bool {\n                !matches!(self, ";

pub const CODE_NOT_NONE: &'static str = "::None | ";

pub const CODE_NOT_DRAG: &'static str = "::Drag)\n            }\n        }\n\n        impl ";

pub const CODE_SELECTORS: &'static str = " {\n\n            // -------------------------------------------------------------\n            // SELECTOR STATE (framework-owned)\n            // -------------------------------------------------------------\n            pub fn selector_open(&self, id: &'static str) -> bool {\n                self.__open_selectors.contains(id)\n            }\n\n            pub fn toggle_selector(&mut self, id: &'static str) {\n                if self.__open_selectors.contains(id) {\n                    self.__open_selectors.remove(id);\n                } else {\n                    self.__open_selectors.clear();\n                    self.__open_selectors.insert(id);\n                }\n            }\n\n            pub fn close_selector(&mut self, id: &'static str) {\n                self.__open_selectors.remove(id);\n            }\n\n            // -------------------------------------------------------------\n            // USER LOGIC\n            // -------------------------------------------------------------\n            ";

pub const CODE_END: &'static str = "\n        }\n        ";

/// The zone enum's declaration (empty when the invocation names no zone enum).
pub open spec fn zone_enum_code(zone_enum: Option<Seq<char>>, zones: Seq<Seq<char>>) -> Seq<char> {
    match zone_enum {
        Some(name) => if zones.len() == 0 {
            ZONE_ENUM_HEAD@ + name + ZONE_ENUM_EMPTY@
        } else {
            ZONE_ENUM_HEAD@ + name + ZONE_ENUM_OPEN@ + join(zones, ", "@) + ZONE_ENUM_CLOSE@
        },
        None => Seq::empty(),
    }
}

/// The code that an invocation expands to.
pub open spec fn blueprint_code(
    component: Seq<char>,
    zone_enum: Option<Seq<char>>,
    zones: Seq<Seq<char>>,
    actions: Seq<Seq<char>>,
    body: Seq<char>,
) -> Seq<char> {
    let action_enum = component + "Action"@;
    CODE_START@ + zone_enum_code(zone_enum, zones) + CODE_ACTION_ENUM@ + action_enum + CODE_VARIANTS@
        + join(actions, ", "@) + CODE_SELECTOR_VARIANTS@ + action_enum + CODE_INTERACTIVE@
        + action_enum + CODE_NOT_NONE@ + action_enum + CODE_NOT_DRAG@ + component
        + CODE_SELECTORS@ + body + CODE_END@
}

/// The actions of a component: those its body names, and `None` and `Drag`.
pub open spec fn blueprint_actions(body: Seq<Token>) -> Set<Seq<char>> {
    stream_actions(body).insert("None"@).insert("Drag"@)
}

/// What an invocation expands to, or why it is refused.
pub open spec fn expansion(ts: Seq<Token>) -> Result<Seq<char>, BlueprintError> {
    match parse_header(ts) {
        Ok((component, zone_enum, k)) => Ok(
            blueprint_code(
                component,
                zone_enum,
                sorted_list(stream_zones(group_stream(ts[k]))),
                sorted_list(blueprint_actions(group_stream(ts[k]))),
                group_text(ts[k]),
            ),
        ),
        Err(e) => Err(e),
    }
}

/// Appends the names, separated by `sep`.
fn append_joined(out: &mut String, names: &SortedNames, sep: &str)
    requires
        names.wf(),
    ensures
        final(out)@ == old(out)@ + join(names@, sep@),
{
    let n = names.len();
    let ghost start = out@;
    let mut i: usize = 0;
    while i < n
        invariant
            n == names@.len(),
            i <= n,
            out@ == start + join(names@.take(i as int), sep@),
        decreases n - i,
    {
        let ghost prefix = names@.take(i as int);
        if i > 0 {
            out.append(sep);
        }
        out.append(names.get(i).as_str());
        assert(names@.take(i + 1).drop_last() =~= prefix);
        if i == 0 {
            assert(names@.take(1) =~= seq![names@[0]]);
            assert(join(prefix, sep@) =~= Seq::empty());
        }
        i = i + 1;
    }
    assert(names@.take(n as int) =~= names@);
}

/// Generates the code of an invocation from its parts.
pub fn generate_blueprint_code(
    component: &String,
    zone_enum: &Option<String>,
    zones: &SortedNames,
    actions: &SortedNames,
    body: &String,
) -> (code: String)
    requires
        zones.wf(),
        actions.wf(),
    ensures
        code@ == blueprint_code(
            component@,
            match zone_enum {
                Some(z) => Some(z@),
                None => None,
            },
            zones@,
            actions@,
            body@,
        ),
{
    let mut action_enum = component.clone();
    action_enum.append("Action");
    let mut code = String::new();
    code.append(CODE_START);
    match zone_enum {
        Some(name) => {
            code.append(ZONE_ENUM_HEAD);
            code.append(name.as_str());
            if zones.len() == 0 {
                code.append(ZONE_ENUM_EMPTY);
            } else {
                code.append(ZONE_ENUM_OPEN);
                append_joined(&mut code, zones, ", ");
                code.append(ZONE_ENUM_CLOSE);
            }
        },
        None => {},
    }
    code.append(CODE_ACTION_ENUM);
    code.append(action_enum.as_str());
    code.append(CODE_VARIANTS);
    append_joined(&mut code, actions, ", ");
    code.append(CODE_SELECTOR_VARIANTS);
    code.append(action_enum.as_str());
    code.append(CODE_INTERACTIVE);
    code.append(action_enum.as_str());
    code.append(CODE_NOT_NONE);
    code.append(action_enum.as_str());
    code.append(CODE_NOT_DRAG);
    code.append(component.as_str());
    code.append(CODE_SELECTORS);
    code.append(body.as_str());
    code.append(CODE_END);
    code
}

/// The names of a list, sorted and each once.
fn sorted_names_of(list: &Vec<String>) -> (r: SortedNames)
    ensures
        r.wf(),
        r.names() == list.deep_view().to_set(),
{
    let mut r = SortedNames::new();
    let n = list.len();
    let mut i: usize = 0;
    assert(r.names() =~= list.deep_view().take(0).to_set());
    while i < n
        invariant
            n == list@.len(),
            i <= n,
            r.wf(),
            r.names() == list.deep_view().take(i as int).to_set(),
        decreases n - i,
    {
        r.insert(list[i].as_str());
        assert(list.deep_view().take(i + 1) =~= list.deep_view().take(i as int).push(list[i as int]@));
        proof {
            list.deep_view().take(i as int).lemma_push_to_set_commute(list[i as int]@);
        }
        assert(list.deep_view().take(i + 1).to_set() =~= list.deep_view().take(i as int).to_set().insert(
            list[i as int]@,
        ));
        i = i + 1;
    }
    assert(list.deep_view().take(n as int) =~= list.deep_view());
    r
}

/// Expands a `ui_blueprint!` invocation: scans its body for the actions and
/// zones it names and generates the action enum (with `None` and `Drag`
/// always present), the zone enum when one is named, and the selector
/// bookkeeping around the body.
pub fn ui_blueprint(tokens: &Vec<Token>) -> (r: Result<String, BlueprintError>)
    ensures
        match expansion(tokens@) {
            Ok(code) => r matches Ok(s) && s@ == code,
            Err(e) => r == Err::<String, BlueprintError>(e),
        },
        parse_header(tokens@) matches Ok((_, _, k)) ==> {
            let body = group_stream(tokens@[k]);
            &&& strictly_sorted(sorted_list(blueprint_actions(body)))
            &&& sorted_list(blueprint_actions(body)).to_set() == blueprint_actions(body)
            &&& blueprint_actions(body).contains("None"@)
            &&& blueprint_actions(body).contains("Drag"@)
            &&& strictly_sorted(sorted_list(stream_zones(body)))
            &&& sorted_list(stream_zones(body)).to_set() == stream_zones(body)
        },
{
    let header = match parse_blueprint_header(tokens) {
        Ok(h) => h,
        Err(e) => {
            return Err(e);
        },
    };
    let ghost k = header.body_index as int;
    let (body_stream, body_text) = match &tokens[header.body_index] {
        Token::Group { stream, text, .. } => (stream, text),
        _ => {
            return Err(BlueprintError::ExpectedBody);
        },
    };
    let mut actions = SortedNames::new();
    scan_for_actions(body_stream, &mut actions);
    actions.insert("None");
    actions.insert("Drag");
    let mut zone_list: Vec<String> = Vec::new();
    scan_for_zones(body_stream, &mut zone_list);
    let zones = sorted_names_of(&zone_list);
    proof {
        assert(Seq::<Seq<char>>::empty().to_set() =~= Set::<Seq<char>>::empty());
        assert(zones.names() =~= stream_zones(body_stream@));
    }
    proof {
        assert(actions.names() =~= blueprint_actions(body_stream@));
        lemma_sorted_list_of(actions@);
        lemma_sorted_list_of(zones@);
    }
    let code = generate_blueprint_code(&header.component, &header.zone_enum, &zones, &actions, body_text);
    Ok(code)
}

} // verus!
