use vstd::prelude::*;

verus! {

/// A module name with every `.` turned into the path separator `/`.
pub open spec fn dots_to_slashes(name: Seq<char>) -> Seq<char> {
    name.map_values(|c: char| if c == '.' { '/' } else { c })
}

/// `dir` joined with the relative path `rel`: the separator is added only
/// where `dir` is not empty and does not already end with one.
pub open spec fn join_path(dir: Seq<char>, rel: Seq<char>) -> Seq<char> {
    if dir.len() == 0 || dir.last() == '/' {
        dir + rel
    } else {
        dir + seq!['/'] + rel
    }
}

/// Replaces every `.` of `name` with `/`.
pub fn replace_dots(name: &str) -> (r: String)
    ensures
        r@ == dots_to_slashes(name@),
{
    let n = name.unicode_len();
    let mut r = String::new();
    let mut i: usize = 0;
    proof {
        reveal_strlit("/");
    }
    assert("/"@ =~= seq!['/']);
    while i < n
        invariant
            n == name@.len(),
            i <= n,
            "/"@ == seq!['/'],
            r@ == dots_to_slashes(name@.subrange(0, i as int)),
        decreases n - i,
    {
        let c = name.get_char(i);
        if c == '.' {
            r.append("/");
        } else {
            let one = name.substring_char(i, i + 1);
            assert(one@ =~= seq![c]);
            r.append(one);
        }
        assert(name@.subrange(0, i + 1) =~= name@.subrange(0, i as int).push(c));
        assert(dots_to_slashes(name@.subrange(0, i + 1)) =~= dots_to_slashes(
            name@.subrange(0, i as int),
        ).push(if c == '.' { '/' } else { c }));
        i = i + 1;
    }
    assert(name@.subrange(0, n as int) =~= name@);
    r
}

/// Joins `dir` and the relative path `rel` with one separator.
pub fn join(dir: &str, rel: &str) -> (r: String)
    ensures
        r@ == join_path(dir@, rel@),
{
    let n = dir.unicode_len();
    let mut r = String::from_str(dir);
    proof {
        reveal_strlit("/");
    }
    if n != 0 && dir.get_char(n - 1) != '/' {
        r.append("/");
    }
    r.append(rel);
    r
}

} // verus!
