//! Path handling on plain character sequences: splitting a raw project path
//! into its name and base components, and joining a base with a name.

use vstd::prelude::*;

verus! {

/// Index of the last path separator in `s`, or -1 when `s` has none.
pub open spec fn last_sep(s: Seq<char>) -> int
    decreases s.len(),
{
    if s.len() == 0 {
        -1
    } else if s[s.len() - 1] == '/' {
        s.len() - 1
    } else {
        last_sep(s.drop_last())
    }
}

/// Extending a sequence by one character moves the last separator to the new
/// position exactly when that character is the separator.
proof fn lemma_last_sep_push(s: Seq<char>, c: char)
    ensures
        last_sep(s.push(c)) == if c == '/' {
            s.len() as int
        } else {
            last_sep(s)
        },
{
    assert(s.push(c).drop_last() =~= s);
}

/// The name component of a raw project path: what follows the last separator
/// (the whole path when it has none).
pub open spec fn name_of(s: Seq<char>) -> Seq<char> {
    s.subrange(last_sep(s) + 1, s.len() as int)
}

/// The base component of a raw project path: what precedes the last separator,
/// or `"."` when the path has none.
pub open spec fn base_of(s: Seq<char>) -> Seq<char> {
    if last_sep(s) >= 0 {
        s.subrange(0, last_sep(s))
    } else {
        "."@
    }
}

/// `base` and `name` joined into one path: a separator is put between them
/// unless `base` already ends with one.
pub open spec fn join(base: Seq<char>, name: Seq<char>) -> Seq<char> {
    if base.len() > 0 && base[base.len() - 1] == '/' {
        base + name
    } else {
        base + "/"@ + name
    }
}

/// Splits a raw project path into `(name, base)`: the name is everything after
/// the last separator, the base everything before it (`"."` when there is no
/// separator).
pub fn split_project_path(input: &String) -> (r: (String, String))
    ensures
        r.0@ == name_of(input@),
        r.1@ == base_of(input@),
{
    let s: &str = input.as_str();
    let n: usize = s.unicode_len();
    let mut i: usize = 0;
    let mut last: Option<usize> = None;
    while i < n
        invariant
            i <= n,
            n == s@.len(),
            s@ == input@,
            match last {
                Some(k) => k < i && last_sep(s@.subrange(0, i as int)) == k as int,
                None => last_sep(s@.subrange(0, i as int)) == -1,
            },
        decreases n - i,
    {
        let c = s.get_char(i);
        proof {
            assert(s@.subrange(0, i as int + 1) =~= s@.subrange(0, i as int).push(s@[i as int]));
            lemma_last_sep_push(s@.subrange(0, i as int), s@[i as int]);
        }
        if c == '/' {
            last = Some(i);
        }
        i = i + 1;
    }
    proof {
        assert(s@.subrange(0, n as int) =~= s@);
    }
    match last {
        Some(k) => {
            let name = s.substring_char(k + 1, n).to_owned();
            let base = s.substring_char(0, k).to_owned();
            (name, base)
        },
        None => {
            let name = s.to_owned();
            proof {
                assert(s@.subrange(0, s@.len() as int) =~= s@);
            }
            (name, String::from_str("."))
        },
    }
}

/// `base` and `name` joined into one path: a separator is put between them
/// unless `base` already ends with one.
pub fn join_path(base: &String, name: &str) -> (r: String)
    ensures
        r@ == join(base@, name@),
{
    let n: usize = base.as_str().unicode_len();
    if n > 0 && base.as_str().get_char(n - 1) == '/' {
        base.clone().concat(name)
    } else {
        base.clone().concat("/").concat(name)
    }
}

} // verus!
