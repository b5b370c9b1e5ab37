//! What the checks on texts, versions and paths accept, said of the characters
//! of the text.
use vstd::prelude::*;
use vstd::utf8::encode_utf8;

use crate::attest::same_folded;
use crate::attest_laws::{folded_texts_agree, letters_agree};
use crate::checks::{
    bounded_identifier, bounded_start_identity, bounded_text, canonical_version, forward_slashes,
    is_dot_component, lies_below, module_in_plugin, names_instance, normal_path, paths_equal, sha256_shape,
    uuid_shape, version_component,
};
use crate::identity::module_is_fixed;
use crate::outside::{uuid_text, uuid_value};
use crate::protocol::{host_named, HostKind};
use crate::text::{
    exactly, is_control_char, is_space_char, lower_char, lower_text, spaces,
    split_text, trim_text, trim_text_end, trim_text_start, words,
};

verus! {

/// Bytes 0x00 to 0x1f and 0x7f to 0x9f are the control characters, and every
/// ASCII character that separates words is white space.
pub proof fn control_and_space_characters(c: char)
    ensures
        is_control_char(c) <==> (c as u32) < 32 || 127 <= (c as u32) < 160,
        c == ' ' || c == '\t' || c == '\n' || c == '\r' ==> is_space_char(c),
        33 <= (c as u32) < 127 ==> !is_space_char(c),
        is_space_char(c) <==> {
            let n = c as u32;
            9 <= n <= 13 || n == 32 || n == 133 || n == 160 || n == 5760 || 8192 <= n <= 8202
                || n == 8232 || n == 8233 || n == 8239 || n == 8287 || n == 12288
        },
{
}

/// Only the 26 capital letters of ASCII are folded, each to its small one.
pub proof fn folding_changes_capitals_only(c: char)
    ensures
        'A' <= c <= 'Z' ==> lower_char(c) as u32 == c as u32 + 32,
        !('A' <= c <= 'Z') ==> lower_char(c) == c,
{
}

/// Bounded text is not empty, is bounded in bytes, begins and ends with
/// something visible and has no control character anywhere; and every such
/// text is accepted.
pub proof fn bounded_text_is_clean(s: Seq<char>, max_bytes: nat)
    ensures
        bounded_text(s, max_bytes) <==> {
            &&& s.len() > 0
            &&& encode_utf8(s).len() <= max_bytes
            &&& !is_space_char(s[0])
            &&& !is_space_char(s[s.len() - 1])
            &&& forall|i: int|
                0 <= i < s.len() ==> {
                    let n = (#[trigger] s[i]) as u32;
                    n >= 32 && !(127 <= n < 160)
                }
        },
{
    if bounded_text(s, max_bytes) {
        assert forall|i: int| 0 <= i < s.len() implies {
            let n = (#[trigger] s[i]) as u32;
            n >= 32 && !(127 <= n < 160)
        } by {
            assert(!is_control_char(s[i]));
        }
    }
}

/// An identifier is bounded text of ASCII letters, digits, `-`, `_` and `.`; a
/// start identity may have colons too, and has at most 256 bytes.
pub proof fn identifiers_are_plain(s: Seq<char>, max_bytes: nat)
    ensures
        bounded_identifier(s, max_bytes) <==> bounded_text(s, max_bytes) && forall|i: int|
            0 <= i < s.len() ==> {
                let c = #[trigger] s[i];
                'a' <= c <= 'z' || 'A' <= c <= 'Z' || '0' <= c <= '9' || c == '-' || c == '_' || c
                    == '.'
            },
        bounded_start_identity(s) <==> bounded_text(s, 256) && forall|i: int|
            0 <= i < s.len() ==> {
                let c = #[trigger] s[i];
                'a' <= c <= 'z' || 'A' <= c <= 'Z' || '0' <= c <= '9' || c == '-' || c == '_' || c
                    == '.' || c == ':'
            },
{
}

/// A digest is 64 digits or small letters up to `f`.
pub proof fn digests_are_lowercase(s: Seq<char>)
    ensures
        sha256_shape(s) <==> s.len() == 64 && forall|i: int|
            0 <= i < 64 ==> {
                let c = #[trigger] s[i];
                '0' <= c <= '9' || 'a' <= c <= 'f'
            },
{
}

/// A UUID is accepted in its canonical notation only, an instance identifier
/// in any; the nil UUID is neither.
pub proof fn nil_is_no_identifier(s: Seq<char>)
    ensures
        uuid_shape(s) <==> uuid_value(s) is Some && uuid_value(s)->0 != 0 && s == uuid_text(
            uuid_value(s)->0,
        ),
        names_instance(s) <==> uuid_value(s) is Some && uuid_value(s)->0 != 0,
{
}

// ---------------------------------------------------------------------------
// Parts

/// From `i` to `j` there is no separator, and the text ends there or a
/// separator stands there, at either side.
pub open spec fn is_part(s: Seq<char>, sep: spec_fn(char) -> bool, i: int, j: int) -> bool {
    &&& 0 <= i <= j <= s.len()
    &&& i > 0 ==> sep(s[i - 1])
    &&& j < s.len() ==> sep(s[j])
    &&& forall|k: int| i <= k < j ==> !sep(#[trigger] s[k])
}

/// Part `k` of the text is what stands between two separators.
proof fn part_is_between(s: Seq<char>, sep: spec_fn(char) -> bool, k: int) -> (w: (int, int))
    requires
        0 <= k < split_text(s, sep).len(),
    ensures
        is_part(s, sep, w.0, w.1),
        split_text(s, sep)[k] == s.subrange(w.0, w.1),
        k == split_text(s, sep).len() - 1 <==> w.1 == s.len(),
    decreases s.len(),
{
    if s.len() == 0 {
        assert(s.subrange(0, 0) =~= Seq::<char>::empty());
        (0, 0)
    } else {
        let t = s.drop_last();
        let parts = split_text(t, sep);
        splits(t, sep);
        if sep(s.last()) {
            if k < parts.len() {
                let w = part_is_between(t, sep, k);
                assert(t.subrange(w.0, w.1) =~= s.subrange(w.0, w.1));
                longer_text_keeps_part(s, sep, w.0, w.1);
                w
            } else {
                assert(s.subrange(s.len() as int, s.len() as int) =~= Seq::<char>::empty());
                (s.len() as int, s.len() as int)
            }
        } else {
            let w = part_is_between(t, sep, k);
            if k < parts.len() - 1 {
                assert(t.subrange(w.0, w.1) =~= s.subrange(w.0, w.1));
                longer_text_keeps_part(s, sep, w.0, w.1);
                w
            } else {
                assert forall|m: int| w.0 <= m < s.len() implies !sep(#[trigger] s[m]) by {
                    if m < t.len() {
                        assert(t[m] == s[m]);
                    }
                }
                assert(w.0 > 0 ==> t[w.0 - 1] == s[w.0 - 1]);
                assert(s.subrange(w.0, s.len() as int) =~= t.subrange(w.0, w.1).push(s.last()));
                (w.0, s.len() as int)
            }
        }
    }
}

proof fn longer_text_keeps_part(s: Seq<char>, sep: spec_fn(char) -> bool, i: int, j: int)
    requires
        s.len() > 0,
        is_part(s.drop_last(), sep, i, j),
        j == s.len() - 1 ==> sep(s.last()),
    ensures
        is_part(s, sep, i, j),
{
    let t = s.drop_last();
    assert forall|m: int| i <= m < j implies !sep(#[trigger] s[m]) by {
        assert(t[m] == s[m]);
    }
    assert(i > 0 ==> t[i - 1] == s[i - 1]);
    assert(j < t.len() ==> t[j] == s[j]);
}

proof fn splits(s: Seq<char>, sep: spec_fn(char) -> bool)
    ensures
        split_text(s, sep).len() > 0,
    decreases s.len(),
{
    if s.len() > 0 {
        splits(s.drop_last(), sep);
    }
}

/// What stands between two separators is a part of the text.
proof fn between_is_part(s: Seq<char>, sep: spec_fn(char) -> bool, i: int, j: int) -> (k: int)
    requires
        is_part(s, sep, i, j),
    ensures
        0 <= k < split_text(s, sep).len(),
        split_text(s, sep)[k] == s.subrange(i, j),
        j < s.len() ==> k < split_text(s, sep).len() - 1,
    decreases s.len(),
{
    splits(s, sep);
    if j == s.len() {
        let k = split_text(s, sep).len() - 1;
        let w = part_is_between(s, sep, k);
        if w.0 < i {
            assert(!sep(s[i - 1]));
        }
        if i < w.0 {
            assert(!sep(s[w.0 - 1]));
        }
        k
    } else {
        let t = s.drop_last();
        assert(is_part(t, sep, i, j)) by {
            assert forall|k: int| i <= k < j implies !sep(#[trigger] t[k]) by {
                assert(t[k] == s[k]);
            }
        }
        splits(t, sep);
        assert(t.subrange(i, j) =~= s.subrange(i, j));
        between_is_part(t, sep, i, j)
    }
}

/// A text is split at its separators: its parts are exactly what stands
/// between two neighbouring ones, or between one and an end of the text.
pub proof fn parts_are_what_stands_between(s: Seq<char>, sep: spec_fn(char) -> bool, part: Seq<char>)
    ensures
        split_text(s, sep).contains(part) <==> exists|i: int, j: int|
            #![trigger s.subrange(i, j)]
            is_part(s, sep, i, j) && s.subrange(i, j) == part,
{
    let parts = split_text(s, sep);
    if parts.contains(part) {
        let k = choose|k: int| 0 <= k < parts.len() && parts[k] == part;
        let w = part_is_between(s, sep, k);
        assert(s.subrange(w.0, w.1) == part);
    }
    if exists|i: int, j: int|
        #![trigger s.subrange(i, j)]
        is_part(s, sep, i, j) && s.subrange(i, j) == part {
        let (i, j) = choose|i: int, j: int|
            #![trigger s.subrange(i, j)]
            is_part(s, sep, i, j) && s.subrange(i, j) == part;
        let k = between_is_part(s, sep, i, j);
        assert(parts[k] == part);
    }
}

/// How many of the characters are the given one.
pub open spec fn occurrences(s: Seq<char>, c: char) -> nat
    decreases s.len(),
{
    if s.len() == 0 {
        0
    } else {
        occurrences(s.drop_last(), c) + if s.last() == c {
            1nat
        } else {
            0nat
        }
    }
}

proof fn one_part_more(s: Seq<char>, c: char)
    ensures
        split_text(s, exactly(c)).len() == occurrences(s, c) + 1,
    decreases s.len(),
{
    if s.len() > 0 {
        one_part_more(s.drop_last(), c);
    }
}

/// One to four digits stand from `i` to `j`, the first of which is zero only
/// where it is the only one.
pub open spec fn short_number(s: Seq<char>, i: int, j: int) -> bool {
    &&& 1 <= j - i <= 4
    &&& forall|k: int| i <= k < j ==> '0' <= #[trigger] s[k] <= '9'
    &&& s[i] == '0' ==> j == i + 1
}

/// A version is canonical exactly if it has one to three dots, and what stands
/// between dots is one to four digits, the first of which is zero only where
/// it is the only one.
pub proof fn canonical_versions_are_dotted_numbers(s: Seq<char>)
    ensures
        canonical_version(s) <==> bounded_text(s, 32) && 1 <= occurrences(s, '.') <= 3 && forall|
            i: int,
            j: int,
        | #[trigger]
            is_part(s, exactly('.'), i, j) ==> short_number(s, i, j),
{
    let sep = exactly('.');
    let parts = split_text(s, sep);
    one_part_more(s, '.');
    if canonical_version(s) {
        assert forall|i: int, j: int| #[trigger] is_part(s, sep, i, j) implies short_number(
            s,
            i,
            j,
        ) by {
            let k = between_is_part(s, sep, i, j);
            let part = s.subrange(i, j);
            assert(version_component(parts[k]));
            assert forall|k: int| i <= k < j implies '0' <= #[trigger] s[k] <= '9' by {
                assert(part[k - i] == s[k]);
            }
            assert(part[0] == s[i]);
        }
    }
    if forall|i: int, j: int| #[trigger] is_part(s, sep, i, j) ==> short_number(s, i, j) {
        assert forall|k: int| 0 <= k < parts.len() implies version_component(#[trigger] parts[k]) by {
            let w = part_is_between(s, sep, k);
            let part = s.subrange(w.0, w.1);
            assert(short_number(s, w.0, w.1));
            assert(part == parts[k]);
            assert forall|m: int| 0 <= m < part.len() implies '0' <= #[trigger] part[m] <= '9' by {
                assert(part[m] == s[w.0 + m]);
            }
            assert(part[0] == s[w.0]);
        }
    }
}

// ---------------------------------------------------------------------------
// Words

proof fn split_at_separator(a: Seq<char>, c: char, b: Seq<char>, sep: spec_fn(char) -> bool)
    requires
        sep(c),
    ensures
        split_text(a.push(c) + b, sep) == split_text(a, sep) + split_text(b, sep),
    decreases b.len(),
{
    let s = a.push(c) + b;
    if b.len() == 0 {
        assert(s =~= a.push(c));
        assert(s.drop_last() =~= a);
        assert(split_text(s, sep) =~= split_text(a, sep) + split_text(b, sep));
    } else {
        let t = b.drop_last();
        split_at_separator(a, c, t, sep);
        splits(t, sep);
        assert(s.drop_last() =~= a.push(c) + t);
        assert(s.last() == b.last());
        let left = split_text(a, sep);
        let right = split_text(t, sep);
        assert((left + right).drop_last() =~= left + right.drop_last());
        assert(split_text(s, sep) =~= left + split_text(b, sep));
    }
}

proof fn unseparated_is_one_part(s: Seq<char>, sep: spec_fn(char) -> bool)
    requires
        forall|i: int| 0 <= i < s.len() ==> !sep(#[trigger] s[i]),
    ensures
        split_text(s, sep) == seq![s],
    decreases s.len(),
{
    if s.len() > 0 {
        let t = s.drop_last();
        assert forall|i: int| 0 <= i < t.len() implies !sep(#[trigger] t[i]) by {
            assert(t[i] == s[i]);
        }
        unseparated_is_one_part(t, sep);
        assert(!sep(s[s.len() - 1]));
        assert(t.push(s.last()) =~= s);
        assert(split_text(s, sep) =~= seq![s]);
    } else {
        assert(s =~= Seq::<char>::empty());
    }
}

/// The words of a text are what white space leaves: a text without white space
/// is one word, or none where it is empty, and the words of two texts with
/// white space between them are those of the one and then those of the other.
pub proof fn words_are_separated_by_white_space(a: Seq<char>, c: char, b: Seq<char>)
    requires
        is_space_char(c),
    ensures
        words(a.push(c) + b) == words(a) + words(b),
        (forall|i: int| 0 <= i < a.len() ==> !is_space_char(#[trigger] a[i])) ==> words(a)
            == if a.len() > 0 {
            seq![a]
        } else {
            Seq::empty()
        },
{
    let kept = |part: Seq<char>| part.len() > 0;
    let sep = spaces();
    assert(sep(c));
    split_at_separator(a, c, b, sep);
    Seq::filter_distributes_over_add(split_text(a, sep), split_text(b, sep), kept);
    if forall|i: int| 0 <= i < a.len() ==> !is_space_char(#[trigger] a[i]) {
        assert forall|i: int| 0 <= i < a.len() implies !sep(#[trigger] a[i]) by {}
        unseparated_is_one_part(a, sep);
        let one = seq![a];
        assert(one.drop_last() =~= Seq::<Seq<char>>::empty());
        assert(one.last() == a);
        reveal(Seq::filter);
        assert(Seq::<Seq<char>>::empty().filter(kept) =~= Seq::<Seq<char>>::empty());
        if a.len() > 0 {
            assert(one.filter(kept) =~= seq![a]);
        } else {
            assert(one.filter(kept) =~= Seq::<Seq<char>>::empty());
        }
    }
}

// ---------------------------------------------------------------------------
// Paths

/// A slash of either kind.
pub open spec fn is_slash(c: char) -> bool {
    c == '/' || c == '\\'
}

/// Between two slashes, or a slash and the end of the path, stands a single or
/// a double dot.
pub open spec fn has_dots(s: Seq<char>) -> bool {
    exists|i: int, j: int|
        #![trigger s.subrange(i, j)]
        is_part(s, |c: char| is_slash(c), i, j) && (s.subrange(i, j) == seq!['.'] || s.subrange(
            i,
            j,
        ) == seq!['.', '.'])
}

proof fn dots_are_components(s: Seq<char>)
    ensures
        has_dots(s) <==> exists|k: int|
            0 <= k < split_text(forward_slashes(s), exactly('/')).len() && is_dot_component(
                #[trigger] split_text(forward_slashes(s), exactly('/'))[k],
            ),
{
    let n = forward_slashes(s);
    let sep = exactly('/');
    let either = |c: char| is_slash(c);
    let parts = split_text(n, sep);
    assert(n.len() == s.len());
    assert forall|i: int| 0 <= i < s.len() implies either(#[trigger] s[i]) == sep(n[i]) by {}
    if has_dots(s) {
        let (i, j) = choose|i: int, j: int|
            #![trigger s.subrange(i, j)]
            is_part(s, either, i, j) && (s.subrange(i, j) == seq!['.'] || s.subrange(i, j) == seq![
                '.',
                '.',
            ]);
        assert(is_part(n, sep, i, j)) by {
            assert forall|k: int| i <= k < j implies !sep(#[trigger] n[k]) by {
                assert(!either(s[k]));
            }
            if i > 0 {
                assert(either(s[i - 1]));
            }
            if j < s.len() {
                assert(either(s[j]));
            }
        }
        let k = between_is_part(n, sep, i, j);
        assert forall|m: int| 0 <= m < j - i implies n.subrange(i, j)[m] == s.subrange(i, j)[m] by {
            assert(!either(s[i + m]));
            assert(s[i + m] != '\\');
        }
        assert(n.subrange(i, j) =~= s.subrange(i, j));
        assert(is_dot_component(parts[k]));
    }
    if exists|k: int| 0 <= k < parts.len() && is_dot_component(#[trigger] parts[k]) {
        let k = choose|k: int| 0 <= k < parts.len() && is_dot_component(#[trigger] parts[k]);
        let (i, j) = part_is_between(n, sep, k);
        assert(is_part(s, either, i, j)) by {
            assert forall|m: int| i <= m < j implies !either(#[trigger] s[m]) by {
                assert(!sep(n[m]));
            }
            if i > 0 {
                assert(sep(n[i - 1]));
            }
            if j < s.len() {
                assert(sep(n[j]));
            }
        }
        assert forall|m: int| 0 <= m < j - i implies n.subrange(i, j)[m] == s.subrange(i, j)[m] by {
            assert(!either(s[i + m]));
            assert(s[i + m] != '\\');
        }
        assert(n.subrange(i, j) =~= s.subrange(i, j));
    }
}

proof fn trimmed(s: Seq<char>, p: spec_fn(char) -> bool)
    ensures
        ({
            let r = trim_text_end(s, p);
            &&& r.len() <= s.len()
            &&& r == s.take(r.len() as int)
            &&& forall|i: int| r.len() <= i < s.len() ==> p(#[trigger] s[i])
            &&& r.len() > 0 ==> !p(r[r.len() - 1])
        }),
    decreases s.len(),
{
    if s.len() > 0 && p(s.last()) {
        let t = s.drop_last();
        trimmed(t, p);
        let r = trim_text_end(s, p);
        assert(s.take(r.len() as int) =~= t.take(r.len() as int));
        assert forall|i: int| r.len() <= i < s.len() implies p(#[trigger] s[i]) by {
            if i < t.len() {
                assert(t[i] == s[i]);
            }
        }
    } else {
        assert(s.take(s.len() as int) =~= s);
    }
}

proof fn trimmed_at_start(s: Seq<char>, p: spec_fn(char) -> bool) -> (i: int)
    ensures
        0 <= i <= s.len(),
        trim_text_start(s, p) == s.skip(i),
        forall|k: int| 0 <= k < i ==> p(#[trigger] s[k]),
        i < s.len() ==> !p(s[i]),
    decreases s.len(),
{
    if s.len() > 0 && p(s[0]) {
        let rest = s.skip(1);
        let j = trimmed_at_start(rest, p);
        assert(rest.skip(j) =~= s.skip(j + 1));
        assert forall|k: int| 0 <= k < j + 1 implies p(#[trigger] s[k]) by {
            if k > 0 {
                assert(rest[k - 1] == s[k]);
            }
        }
        assert(j < rest.len() ==> rest[j] == s[j + 1]);
        j + 1
    } else {
        assert(s.skip(0) =~= s);
        0
    }
}

/// Trimming takes all the white space at both ends and nothing else.
pub proof fn trimming_takes_the_ends(s: Seq<char>) -> (w: (int, int))
    ensures
        0 <= w.0 <= w.1 <= s.len(),
        trim_text(s) == s.subrange(w.0, w.1),
        forall|k: int| 0 <= k < w.0 ==> is_space_char(#[trigger] s[k]),
        forall|k: int| w.1 <= k < s.len() ==> is_space_char(#[trigger] s[k]),
        w.0 < w.1 ==> !is_space_char(s[w.0]) && !is_space_char(s[w.1 - 1]),
{
    let p = spaces();
    let i = trimmed_at_start(s, p);
    let t = s.skip(i);
    trimmed(t, p);
    let r = trim_text_end(t, p);
    let j = i + r.len();
    assert(t.take(r.len() as int) =~= s.subrange(i, j));
    assert forall|k: int| 0 <= k < i implies is_space_char(#[trigger] s[k]) by {
        assert(p(s[k]));
    }
    assert forall|k: int| j <= k < s.len() implies is_space_char(#[trigger] s[k]) by {
        assert(t[k - i] == s[k]);
        assert(p(t[k - i]));
    }
    if i < j {
        assert(!p(s[i]));
        assert(r[r.len() - 1] == s[j - 1]);
    }
    (i, j)
}

/// A path has a normal form exactly if it is bounded text, begins with a slash
/// of either kind or with a drive letter, a colon and such a slash, and has no
/// component of one or two dots. The normal form is the path with every
/// backslash turned, without the slashes at its end.
pub proof fn normal_paths_are_absolute(s: Seq<char>)
    ensures
        normal_path(s) is Some <==> {
            &&& bounded_text(s, 32_768)
            &&& is_slash(s[0]) || (s.len() >= 3 && ('a' <= s[0] <= 'z' || 'A' <= s[0] <= 'Z')
                && s[1] == ':' && is_slash(s[2]))
            &&& !has_dots(s)
        },
        normal_path(s) is Some ==> {
            let n = normal_path(s)->0;
            &&& n.len() <= s.len()
            &&& forall|i: int|
                0 <= i < n.len() ==> #[trigger] n[i] == if s[i] == '\\' {
                    '/'
                } else {
                    s[i]
                }
            &&& forall|i: int| n.len() <= i < s.len() ==> is_slash(#[trigger] s[i])
            &&& n.len() > 0 ==> n[n.len() - 1] != '/'
        },
{
    let f = forward_slashes(s);
    dots_are_components(s);
    trimmed(f, exactly('/'));
    assert(f.len() == s.len());
    let parts = split_text(f, exactly('/'));
    assert((forall|i: int| 0 <= i < parts.len() ==> !is_dot_component(#[trigger] parts[i]))
        <==> !has_dots(s)) by {
        if !has_dots(s) {
            assert forall|i: int| 0 <= i < parts.len() implies !is_dot_component(
                #[trigger] parts[i],
            ) by {}
        }
    }
    if normal_path(s) is Some {
        let n = normal_path(s)->0;
        assert forall|i: int| n.len() <= i < s.len() implies is_slash(#[trigger] s[i]) by {
            assert(exactly('/')(f[i]));
        }
    }
}

/// Two texts agree but for the case of ASCII letters.
pub open spec fn agree(a: Seq<char>, b: Seq<char>) -> bool {
    a.len() == b.len() && forall|i: int| 0 <= i < a.len() ==> letters_agree(#[trigger] a[i], b[i])
}

/// Two paths are equal exactly if both have a normal form and the two forms
/// are the same; where one names a drive, the case of ASCII letters does not
/// count.
pub proof fn equal_paths_have_one_form(left: Seq<char>, right: Seq<char>)
    ensures
        paths_equal(left, right) <==> {
            let l = normal_path(left)->0;
            let r = normal_path(right)->0;
            &&& normal_path(left) is Some
            &&& normal_path(right) is Some
            &&& if (l.len() >= 2 && (l[0] as u32) < 128 && l[1] == ':') || (r.len() >= 2 && (
            r[0] as u32) < 128 && r[1] == ':') {
                agree(l, r)
            } else {
                l == r
            }
        },
{
    if normal_path(left) is Some && normal_path(right) is Some {
        let l = normal_path(left)->0;
        let r = normal_path(right)->0;
        folded_texts_agree(l, r);
        assert(same_folded(l, r) == agree(l, r));
    }
}

proof fn folded_prefix(path: Seq<char>, root: Seq<char>)
    ensures
        lies_below(lower_text(path), lower_text(root)) <==> path.len() > root.len()
            + 1 && path[root.len() as int] == '/' && agree(path.take(root.len() as int), root),
{
    let p = lower_text(path);
    let r = lower_text(root);
    let k = root.len() as int;
    assert(p.len() == path.len() && r.len() == root.len());
    if path.len() > k + 1 {
        folded_texts_agree(path.take(k), root);
        assert(lower_text(path.take(k)) =~= p.take(k));
        assert(p[k] == '/' <==> path[k] == '/');
        if p.take(k + 1) == r.push('/') {
            assert(p.take(k) =~= p.take(k + 1).take(k));
            assert(r.push('/').take(k) =~= r);
            assert(p.take(k + 1)[k] == '/');
        }
        if p.take(k) == r && p[k] == '/' {
            assert(p.take(k + 1) =~= r.push('/'));
        }
    }
}

proof fn plain_prefix(path: Seq<char>, root: Seq<char>)
    ensures
        lies_below(path, root) <==> path.len() > root.len() + 1
            && path[root.len() as int] == '/' && path.take(root.len() as int) == root,
{
    let k = root.len() as int;
    if path.len() > k + 1 {
        if path.take(k + 1) == root.push('/') {
            assert(path.take(k) =~= path.take(k + 1).take(k));
            assert(root.push('/').take(k) =~= root);
            assert(path.take(k + 1)[k] == '/');
        }
        if path.take(k) == root && path[k] == '/' {
            assert(path.take(k + 1) =~= root.push('/'));
        }
    }
}

/// A module belongs to a plugin exactly if its normal path continues that of
/// the plugin's directory behind a slash; where the directory names a drive,
/// the case of ASCII letters does not count.
pub proof fn module_continues_its_plugin(module: Seq<char>, root: Seq<char>)
    ensures
        module_in_plugin(module, root) <==> {
            let m = normal_path(module)->0;
            let r = normal_path(root)->0;
            &&& normal_path(module) is Some
            &&& normal_path(root) is Some
            &&& m.len() > r.len() + 1
            &&& m[r.len() as int] == '/'
            &&& if r.len() >= 2 && (r[0] as u32) < 128 && r[1] == ':' {
                agree(m.take(r.len() as int), r)
            } else {
                m.take(r.len() as int) == r
            }
        },
{
    if normal_path(module) is Some && normal_path(root) is Some {
        folded_prefix(normal_path(module)->0, normal_path(root)->0);
        plain_prefix(normal_path(module)->0, normal_path(root)->0);
    }
}

/// The module of a bridge is the fixed one exactly if its normal path is that
/// of the plugin's directory followed by `/dist/main.js`; where the directory
/// names a drive, the case of ASCII letters does not count.
pub proof fn fixed_module_is_dist_main(root: Seq<char>, module: Seq<char>)
    ensures
        module_is_fixed(root, module) <==> {
            let m = normal_path(module)->0;
            let r = normal_path(root)->0;
            &&& normal_path(module) is Some
            &&& normal_path(root) is Some
            &&& if r.len() >= 2 && (r[0] as u32) < 128 && r[1] == ':' {
                agree(m, r + "/dist/main.js"@)
            } else {
                m == r + "/dist/main.js"@
            }
        },
{
    let m = normal_path(module)->0;
    let r = normal_path(root)->0;
    folded_texts_agree(m, r + "/dist/main.js"@);
    reveal_strlit("/dist/main.js");
    assert(lower_text(r + "/dist/main.js"@) =~= lower_text(r) + "/dist/main.js"@);
    assert(same_folded(m, r + "/dist/main.js"@) == agree(m, r + "/dist/main.js"@));
}

// ---------------------------------------------------------------------------
// Names and numbers

/// Every host has its wire name, is found under it and under its short forms,
/// and no other text finds one.
pub proof fn hosts_go_by_their_names(name: Seq<char>)
    ensures
        HostKind::Photoshop.name() == "photoshop"@,
        HostKind::InDesign.name() == "indesign"@,
        HostKind::Premiere.name() == "premiere"@,
        HostKind::AfterEffects.name() == "after-effects"@,
        HostKind::Illustrator.name() == "illustrator"@,
        HostKind::LightroomClassic.name() == "lightroom-classic"@,
        HostKind::Acrobat.name() == "acrobat"@,
        HostKind::Animate.name() == "animate"@,
        HostKind::Cloud.name() == "cloud"@,
        host_named(name) is None <==> !(name == "photoshop"@ || name == "ps"@ || name
            == "indesign"@ || name == "id"@ || name == "premiere"@ || name == "premiere-pro"@
            || name == "pr"@ || name == "after-effects"@ || name == "aftereffects"@ || name
            == "ae"@ || name == "illustrator"@ || name == "ai"@ || name == "lightroom-classic"@
            || name == "lightroom"@ || name == "lr"@ || name == "acrobat"@ || name == "animate"@
            || name == "cloud"@ || name == "rest"@),
        name == "ps"@ ==> host_named(name) == Some(HostKind::Photoshop),
        name == "id"@ ==> host_named(name) == Some(HostKind::InDesign),
        name == "pr"@ || name == "premiere-pro"@ ==> host_named(name) == Some(HostKind::Premiere),
        name == "ae"@ || name == "aftereffects"@ ==> host_named(name) == Some(
            HostKind::AfterEffects,
        ),
        name == "ai"@ ==> host_named(name) == Some(HostKind::Illustrator),
        name == "lr"@ || name == "lightroom"@ ==> host_named(name) == Some(
            HostKind::LightroomClassic,
        ),
        name == "rest"@ ==> host_named(name) == Some(HostKind::Cloud),
{
    reveal_strlit("photoshop");
    reveal_strlit("ps");
    reveal_strlit("indesign");
    reveal_strlit("id");
    reveal_strlit("premiere");
    reveal_strlit("premiere-pro");
    reveal_strlit("pr");
    reveal_strlit("after-effects");
    reveal_strlit("aftereffects");
    reveal_strlit("ae");
    reveal_strlit("illustrator");
    reveal_strlit("ai");
    reveal_strlit("lightroom-classic");
    reveal_strlit("lightroom");
    reveal_strlit("lr");
    reveal_strlit("acrobat");
    reveal_strlit("animate");
    reveal_strlit("cloud");
    reveal_strlit("rest");
    let two = |s: Seq<char>, a: char, b: char| s.len() == 2 && s[0] == a && s[1] == b;
    assert(two("ps"@, 'p', 's') && two("id"@, 'i', 'd') && two("pr"@, 'p', 'r'));
    assert(two("ae"@, 'a', 'e') && two("ai"@, 'a', 'i') && two("lr"@, 'l', 'r'));
    if name == "premiere-pro"@ {
        assert(name.len() == 12);
    }
    if name == "aftereffects"@ {
        assert(name.len() == 12 && name[0] == 'a');
    }
    if name == "lightroom"@ {
        assert(name.len() == 9 && name[0] == 'l');
    }
    if name == "rest"@ {
        assert(name.len() == 4);
    }
    assert("photoshop"@.len() == 9 && "photoshop"@[0] == 'p');
    assert("indesign"@.len() == 8 && "premiere"@.len() == 8);
    assert("premiere-pro"@.len() == 12 && "premiere-pro"@[0] == 'p');
    assert("after-effects"@.len() == 13 && "illustrator"@.len() == 11);
    assert("aftereffects"@.len() == 12);
    assert("lightroom-classic"@.len() == 17 && "lightroom"@.len() == 9);
    assert("acrobat"@.len() == 7 && "animate"@.len() == 7 && "cloud"@.len() == 5);
}

} // verus!
