use vstd::prelude::*;
use vstd::string::*;
use crate::effects::env_views;

verus! {

/// `text` with every occurrence of `pattern` replaced by `value`, the
/// occurrences found from left to right without overlapping, as `str::replace`
/// finds them.
pub open spec fn replaced(text: Seq<char>, pattern: Seq<char>, value: Seq<char>) -> Seq<char>
    decreases text.len(),
{
    if pattern.len() == 0 || text.len() < pattern.len() {
        text
    } else if text.subrange(0, pattern.len() as int) == pattern {
        value + replaced(text.subrange(pattern.len() as int, text.len() as int), pattern, value)
    } else {
        seq![text[0]] + replaced(text.subrange(1, text.len() as int), pattern, value)
    }
}

/// How a command refers to the environment entry `key`: `${key}`.
pub open spec fn placeholder(key: Seq<char>) -> Seq<char> {
    "${"@ + key + "}"@
}

/// `text` with the placeholder of each environment entry replaced by its
/// value, one entry after the other.
pub open spec fn with_envs(text: Seq<char>, envs: Seq<(Seq<char>, Seq<char>)>) -> Seq<char>
    decreases envs.len(),
{
    if envs.len() == 0 {
        text
    } else {
        with_envs(
            replaced(text, placeholder(envs[0].0), envs[0].1),
            envs.subrange(1, envs.len() as int),
        )
    }
}

/// Replaces every occurrence of `pattern` in `text` by `value`.
pub fn replace_all(text: &String, pattern: &String, value: &String) -> (r: String)
    requires
        pattern@.len() > 0,
    ensures
        r@ == replaced(text@, pattern@, value@),
{
    let t = text.as_str();
    let n = t.unicode_len();
    let m = pattern.as_str().unicode_len();
    let mut out = String::new();
    let mut i: usize = 0;
    proof {
        assert(text@.subrange(0, n as int) =~= text@);
        assert(out@ + replaced(text@, pattern@, value@) =~= replaced(text@, pattern@, value@));
    }
    while i < n
        invariant
            t@ == text@,
            n == text@.len(),
            m == pattern@.len(),
            m > 0,
            i <= n,
            out@ + replaced(text@.subrange(i as int, n as int), pattern@, value@) == replaced(
                text@,
                pattern@,
                value@,
            ),
        decreases n - i,
    {
        let ghost rest = text@.subrange(i as int, n as int);
        let ghost before = out@;
        if m <= n - i && String::from_str(t.substring_char(i, i + m)) == *pattern {
            out.append(value.as_str());
            proof {
                assert(rest.subrange(0, m as int) =~= text@.subrange(i as int, i + m));
                assert(rest.subrange(m as int, rest.len() as int) =~= text@.subrange(
                    i + m,
                    n as int,
                ));
                assert(before + value@ + replaced(text@.subrange(i + m, n as int), pattern@, value@)
                    =~= before + (value@ + replaced(
                    text@.subrange(i + m, n as int),
                    pattern@,
                    value@,
                )));
            }
            i = i + m;
        } else {
            out.append(t.substring_char(i, i + 1));
            proof {
                let next = text@.subrange(i + 1, n as int);
                assert(rest.subrange(1, rest.len() as int) =~= next);
                assert(text@.subrange(i as int, i + 1) =~= seq![rest[0]]);
                if rest.len() >= m {
                    assert(rest.subrange(0, m as int) =~= text@.subrange(i as int, i + m));
                    assert(before + seq![rest[0]] + replaced(next, pattern@, value@) =~= before + (
                    seq![rest[0]] + replaced(next, pattern@, value@)));
                } else {
                    assert(rest =~= seq![rest[0]] + next);
                    assert(before + seq![rest[0]] + next =~= before + rest);
                }
            }
            i = i + 1;
        }
    }
    proof {
        assert(text@.subrange(n as int, n as int) =~= Seq::<char>::empty());
        assert(out@ + Seq::<char>::empty() =~= out@);
    }
    out
}

/// A command with the placeholder `${key}` of each environment entry
/// replaced by the entry's value, in the order of the entries.
pub fn apply_envs(text: String, envs: &Vec<(String, String)>) -> (r: String)
    ensures
        r@ == with_envs(text@, env_views(envs@)),
{
    let ghost all = env_views(envs@);
    let mut r = text;
    let mut k: usize = 0;
    proof {
        assert(all.subrange(0, all.len() as int) =~= all);
    }
    while k < envs.len()
        invariant
            k <= envs.len(),
            all == env_views(envs@),
            with_envs(r@, all.subrange(k as int, all.len() as int)) == with_envs(text@, all),
        decreases envs.len() - k,
    {
        let pattern = String::from_str("${").concat(envs[k].0.as_str()).concat("}");
        proof {
            reveal_strlit("${");
            assert(pattern@ == placeholder(envs@[k as int].0@));
            let tail = all.subrange(k as int, all.len() as int);
            assert(tail[0] == (envs@[k as int].0@, envs@[k as int].1@));
            assert(tail.subrange(1, tail.len() as int) =~= all.subrange(k + 1, all.len() as int));
        }
        r = replace_all(&r, &pattern, &envs[k].1);
        k = k + 1;
    }
    proof {
        assert(all.subrange(all.len() as int, all.len() as int) =~= Seq::<(Seq<char>, Seq<char>)>::empty());
    }
    r
}


/// With no environment entries a command stays as it is.
pub proof fn law_no_entries_keep_text(text: Seq<char>)
    ensures
        with_envs(text, Seq::empty()) == text,
{
}

/// A command that is just the placeholder of an entry becomes that entry's
/// value.
pub proof fn law_placeholder_becomes_value(key: Seq<char>, value: Seq<char>)
    ensures
        with_envs(placeholder(key), seq![(key, value)]) == value,
{
    let p = placeholder(key);
    reveal_strlit("${");
    assert(p.subrange(0, p.len() as int) =~= p);
    assert(p.subrange(p.len() as int, p.len() as int) =~= Seq::<char>::empty());
    assert(value + Seq::<char>::empty() =~= value);
    assert(p.len() >= 2);
    assert(replaced(Seq::<char>::empty(), p, value) == Seq::<char>::empty());
    assert(replaced(p, p, value) == value);
    let envs = seq![(key, value)];
    assert(envs.subrange(1, 1) =~= Seq::<(Seq<char>, Seq<char>)>::empty());
    assert(with_envs(value, envs.subrange(1, 1)) == value);
    assert(envs[0] == (key, value));
}

/// A text without a `$` has no placeholder, so replacing one leaves it as
/// it is.
pub proof fn law_text_without_dollar_unchanged(text: Seq<char>, key: Seq<char>, value: Seq<char>)
    requires
        !text.contains('$'),
    ensures
        replaced(text, placeholder(key), value) == text,
    decreases text.len(),
{
    let p = placeholder(key);
    reveal_strlit("${");
    assert(p[0] == '$');
    if p.len() == 0 || text.len() < p.len() {
    } else {
        if text.subrange(0, p.len() as int) == p {
            assert(text.subrange(0, p.len() as int)[0] == text[0]);
            assert(text.contains(text[0]));
        }
        let rest = text.subrange(1, text.len() as int);
        assert forall|c: char| rest.contains(c) implies text.contains(c) by {
            let j = choose|j: int| 0 <= j < rest.len() && rest[j] == c;
            assert(text[j + 1] == c);
        }
        law_text_without_dollar_unchanged(rest, key, value);
        assert(text =~= seq![text[0]] + rest);
    }
}


/// Every occurrence of a placeholder is replaced, not only the first: a
/// command that repeats the placeholder gets the value twice.
pub proof fn law_every_occurrence_replaced(key: Seq<char>, value: Seq<char>)
    ensures
        replaced(placeholder(key) + placeholder(key), placeholder(key), value) == value + value,
{
    let p = placeholder(key);
    let t = p + p;
    reveal_strlit("${");
    assert(p.len() >= 2);
    assert(t.subrange(0, p.len() as int) =~= p);
    let rest = t.subrange(p.len() as int, t.len() as int);
    assert(rest =~= p);
    assert(p.subrange(0, p.len() as int) =~= p);
    assert(p.subrange(p.len() as int, p.len() as int) =~= Seq::<char>::empty());
    assert(replaced(Seq::<char>::empty(), p, value) == Seq::<char>::empty());
    assert(replaced(p, p, value) =~= value);
}

} // verus!
