use vstd::prelude::*;

verus! {

/// The qualified key of a mockable definition:
/// `<scope>::<owner>::<name>` for a method, `<scope>::<name>` otherwise.
pub open spec fn key_of(scope: Seq<char>, owner: Option<Seq<char>>, name: Seq<char>) -> Seq<char> {
    match owner {
        Some(o) => scope + "::"@ + o + "::"@ + name,
        None => scope + "::"@ + name,
    }
}

/// Builds the qualified key of a function (`owner` is `None`) or of a method
/// of the type named `owner`.
pub fn qualified_key(scope: &str, owner: Option<&str>, name: &str) -> (r: String)
    ensures
        r@ == key_of(scope@, match owner { Some(o) => Some(o@), None => None }, name@),
{
    let mut r = scope.to_owned();
    r.append("::");
    match owner {
        Some(o) => {
            r.append(o);
            r.append("::");
        },
        None => {},
    }
    r.append(name);
    r
}

/// `s` with every space left out.
pub open spec fn without_spaces(s: Seq<char>) -> Seq<char>
    decreases s.len(),
{
    if s.len() == 0 {
        s
    } else if s.last() == ' ' {
        without_spaces(s.drop_last())
    } else {
        without_spaces(s.drop_last()).push(s.last())
    }
}

/// The owner part of a method's key: the rendered type with its spaces left
/// out, so that `Wrapper < u8 >` and `Wrapper<u8>` give the same key.
pub fn owner_key_name(rendered: &str) -> (r: String)
    ensures
        r@ == without_spaces(rendered@),
{
    let n = rendered.unicode_len();
    let mut r = String::new();
    let mut i: usize = 0;
    while i < n
        invariant
            n == rendered@.len(),
            i <= n,
            r@ == without_spaces(rendered@.subrange(0, i as int)),
        decreases n - i,
    {
        let c = rendered.get_char(i);
        assert(rendered@.subrange(0, i + 1).drop_last() =~= rendered@.subrange(0, i as int));
        if c != ' ' {
            r.append(rendered.substring_char(i, i + 1));
            assert(rendered@.subrange(i as int, i + 1) =~= seq![c]);
        }
        i = i + 1;
    }
    assert(rendered@.subrange(0, n as int) =~= rendered@);
    r
}

} // verus!
