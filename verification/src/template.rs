//! Capture template expansion: a template string may contain placeholder
//! tokens (`$1` through `$9`) that are replaced by the text of the
//! corresponding capture group of a successful match. The template is
//! scanned once, left to right, so inserted capture text is taken verbatim
//! and is never rescanned for further placeholders.

use vstd::prelude::*;

verus! {

/// The text a template sees for capture group `idx`: the captured characters
/// when the group participated in the match, the empty string otherwise (also
/// when `idx` lies outside the group list).
pub open spec fn group_text(groups: Seq<Option<Seq<char>>>, idx: int) -> Seq<char> {
    if 0 <= idx < groups.len() {
        match groups[idx] {
            Some(s) => s,
            None => Seq::empty(),
        }
    } else {
        Seq::empty()
    }
}

/// The placeholder index a digit character denotes: `'1'` through `'9'`
/// stand for groups 1 through 9; any other character begins no placeholder.
pub open spec fn digit_index(c: char) -> int {
    if c == '1' {
        1
    } else if c == '2' {
        2
    } else if c == '3' {
        3
    } else if c == '4' {
        4
    } else if c == '5' {
        5
    } else if c == '6' {
        6
    } else if c == '7' {
        7
    } else if c == '8' {
        8
    } else if c == '9' {
        9
    } else {
        0
    }
}

/// The expanded template: one pass over `t`, left to right. A dollar sign
/// followed by a digit that is a sub-capture index of the match is replaced
/// by that group's text (empty when the group did not participate); a
/// placeholder whose index is not a group index of the match, and any other
/// character, stays as it stands. Inserted group text is never part of the
/// scan, so a captured value holding a dollar sign is carried verbatim and
/// is not re-substituted.
pub open spec fn expand_spec(t: Seq<char>, groups: Seq<Option<Seq<char>>>) -> Seq<char>
    decreases t.len(),
{
    if t.len() == 0 {
        Seq::empty()
    } else if t.len() >= 2 && t[0] == '$' && 1 <= digit_index(t[1]) < groups.len() {
        group_text(groups, digit_index(t[1])) + expand_spec(t.skip(2), groups)
    } else {
        seq![t[0]] + expand_spec(t.skip(1), groups)
    }
}

/// Law: a template that holds no dollar sign holds no placeholder, and so
/// expands to itself, whatever the capture groups are.
pub proof fn lemma_template_without_placeholders(t: Seq<char>, groups: Seq<Option<Seq<char>>>)
    requires
        forall|k: int| 0 <= k < t.len() ==> t[k] != '$',
    ensures
        expand_spec(t, groups) == t,
    decreases t.len(),
{
    if t.len() > 0 {
        assert forall|k: int| 0 <= k < t.skip(1).len() implies t.skip(1)[k] != '$' by {
            assert(t.skip(1)[k] == t[k + 1]);
        }
        lemma_template_without_placeholders(t.skip(1), groups);
        assert(seq![t[0]] + t.skip(1) =~= t);
    }
}

/// Law: inserted capture text is carried verbatim. Expanding a lone
/// placeholder yields exactly the captured text of its group, whatever
/// characters (dollar signs included) that text holds.
pub proof fn lemma_captured_text_verbatim(
    t: Seq<char>,
    groups: Seq<Option<Seq<char>>>,
    k: int,
)
    requires
        t == seq!['$', digit_index_char(k)],
        1 <= k <= 9,
        k < groups.len(),
    ensures
        expand_spec(t, groups) == group_text(groups, k),
{
    assert(expand_spec(t.skip(2), groups) == Seq::<char>::empty()) by {
        assert(t.skip(2) =~= Seq::<char>::empty());
    }
    assert(group_text(groups, k) + Seq::<char>::empty() =~= group_text(groups, k));
}

/// The digit character for a placeholder index 1 through 9.
pub open spec fn digit_index_char(k: int) -> char {
    if k == 1 {
        '1'
    } else if k == 2 {
        '2'
    } else if k == 3 {
        '3'
    } else if k == 4 {
        '4'
    } else if k == 5 {
        '5'
    } else if k == 6 {
        '6'
    } else if k == 7 {
        '7'
    } else if k == 8 {
        '8'
    } else {
        '9'
    }
}

fn digit_of(c: char) -> (r: usize)
    ensures
        r as int == digit_index(c),
{
    if c == '1' {
        1
    } else if c == '2' {
        2
    } else if c == '3' {
        3
    } else if c == '4' {
        4
    } else if c == '5' {
        5
    } else if c == '6' {
        6
    } else if c == '7' {
        7
    } else if c == '8' {
        8
    } else if c == '9' {
        9
    } else {
        0
    }
}

fn push_char_at(s: &str, pos: usize, out: &mut String)
    requires
        pos < s@.len(),
        s@.len() <= usize::MAX,
    ensures
        final(out)@ == old(out)@ + seq![s@[pos as int]],
{
    let piece = s.substring_char(pos, pos + 1);
    out.append(piece);
    proof {
        assert(out@ =~= old(out)@ + seq![s@[pos as int]]);
    }
}

/// Expands `template` against the capture groups of a match, in one pass:
/// each placeholder token whose index is a sub-capture index of the match
/// is replaced by that group's text (empty when the group did not
/// participate), everything else, a placeholder with an out-of-range index
/// included, comes through unchanged, and inserted capture text is never
/// rescanned.
pub fn replace_captures(template: &str, groups: &Vec<Option<String>>) -> (r: String)
    ensures
        r@ == expand_spec(template@, groups.deep_view()),
{
    let n = template.unicode_len();
    let glen = groups.len();
    let mut out = String::new();
    let mut pos: usize = 0;
    proof {
        assert(template@.skip(0) =~= template@);
        assert(out@ + expand_spec(template@, groups.deep_view()) =~= expand_spec(
            template@,
            groups.deep_view(),
        ));
    }
    while pos < n
        invariant
            pos <= n,
            n == template@.len(),
            glen == groups@.len(),
            expand_spec(template@, groups.deep_view()) == out@ + expand_spec(
                template@.skip(pos as int),
                groups.deep_view(),
            ),
        decreases n - pos,
    {
        let ghost gdv = groups.deep_view();
        let ghost u = template@.skip(pos as int);
        proof {
            assert(u.len() == n - pos);
            assert(u[0] == template@[pos as int]);
        }
        let c = template.get_char(pos);
        if c == '$' && pos + 1 < n {
            let d = template.get_char(pos + 1);
            let k = digit_of(d);
            if 1 <= k && k < glen {
                proof {
                    assert(u[1] == d);
                    assert(expand_spec(u, gdv) == group_text(gdv, k as int) + expand_spec(
                        u.skip(2),
                        gdv,
                    ));
                    assert(u.skip(2) =~= template@.skip(pos as int + 2));
                    assert(gdv[k as int] == groups@[k as int].deep_view());
                }
                let ghost out0 = out@;
                match &groups[k] {
                    Some(s) => {
                        out.append(s.as_str());
                    },
                    None => {},
                }
                proof {
                    assert(out@ =~= out0 + group_text(gdv, k as int));
                    assert(out@ + expand_spec(template@.skip(pos as int + 2), gdv) =~= out0
                        + expand_spec(u, gdv));
                }
                pos = pos + 2;
            } else {
                proof {
                    assert(u[1] == d);
                    assert(expand_spec(u, gdv) == seq![u[0]] + expand_spec(u.skip(1), gdv));
                    assert(u.skip(1) =~= template@.skip(pos as int + 1));
                }
                let ghost out0 = out@;
                push_char_at(template, pos, &mut out);
                proof {
                    assert(out@ + expand_spec(template@.skip(pos as int + 1), gdv) =~= out0
                        + expand_spec(u, gdv));
                }
                pos = pos + 1;
            }
        } else {
            proof {
                assert(expand_spec(u, gdv) == seq![u[0]] + expand_spec(u.skip(1), gdv));
                assert(u.skip(1) =~= template@.skip(pos as int + 1));
            }
            let ghost out0 = out@;
            push_char_at(template, pos, &mut out);
            proof {
                assert(out@ + expand_spec(template@.skip(pos as int + 1), gdv) =~= out0
                    + expand_spec(u, gdv));
            }
            pos = pos + 1;
        }
    }
    proof {
        assert(template@.skip(pos as int) =~= Seq::<char>::empty());
        assert(out@ + Seq::<char>::empty() =~= out@);
    }
    out
}

} // verus!
