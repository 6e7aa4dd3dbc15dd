use vstd::prelude::*;

verus! {

/// The delimiter of a group of tokens.
#[derive(Copy, Clone, PartialEq, Eq, Structural, Debug)]
pub enum Delimiter {
    Parenthesis,
    Brace,
    Bracket,
    /// A group without visible delimiters.
    Invisible,
}

/// A token of a flattened token stream: a group is its opening marker, the
/// tokens inside it and its closing marker. Tokens that are not identifiers
/// are only carried through, by the handle the caller gave them.
pub enum Token {
    Open(Delimiter),
    Close(Delimiter),
    /// An identifier, with the caller's handle for the token itself.
    Ident { name: String, leaf: usize },
    /// Any other single token (punctuation or literal).
    Leaf(usize),
}

impl Clone for Token {
    fn clone(&self) -> (r: Self)
        ensures
            r == *self,
    {
        match self {
            Token::Open(d) => Token::Open(*d),
            Token::Close(d) => Token::Close(*d),
            Token::Ident { name, leaf } => Token::Ident { name: name.clone(), leaf: *leaf },
            Token::Leaf(l) => Token::Leaf(*l),
        }
    }
}

/// Whether `t` is the identifier `search`.
pub open spec fn is_searched(search: Seq<char>, t: Token) -> bool {
    t matches Token::Ident { name, .. } && name@ == search
}

/// What one token becomes: the replacement when it is the identifier
/// searched for, itself otherwise.
pub open spec fn replaced_token(search: Seq<char>, replacement: Seq<Token>, t: Token) -> Seq<Token> {
    if is_searched(search, t) {
        replacement
    } else {
        seq![t]
    }
}

/// The stream with every identifier equal to `search`, at any depth of
/// grouping, replaced by `replacement`.
pub open spec fn replaced(search: Seq<char>, replacement: Seq<Token>, input: Seq<Token>) -> Seq<Token>
    decreases input.len(),
{
    if input.len() == 0 {
        Seq::empty()
    } else {
        replaced(search, replacement, input.drop_last()) + replaced_token(
            search,
            replacement,
            input.last(),
        )
    }
}

/// Whether `t` is the identifier `search`.
fn token_is(t: &Token, search: &String) -> (r: bool)
    ensures
        r == is_searched(search@, *t),
{
    match t {
        Token::Ident { name, .. } => *name == *search,
        _ => false,
    }
}

/// Replaces every identifier equal to `search` in `input`, inside groups
/// too, with the tokens of `replacement`.
pub fn replace_tokens(search: &String, replacement: &Vec<Token>, input: &Vec<Token>) -> (out: Vec<
    Token,
>)
    ensures
        out@ == replaced(search@, replacement@, input@),
{
    let mut out: Vec<Token> = Vec::new();
    let mut i: usize = 0;
    while i < input.len()
        invariant
            i <= input@.len(),
            out@ == replaced(search@, replacement@, input@.take(i as int)),
        decreases input@.len() - i,
    {
        let ghost before = out@;
        proof {
            assert(input@.take(i + 1).drop_last() =~= input@.take(i as int));
            assert(input@.take(i + 1).last() == input@[i as int]);
        }
        if token_is(&input[i], search) {
            let mut k: usize = 0;
            while k < replacement.len()
                invariant
                    k <= replacement@.len(),
                    out@ == before + replacement@.take(k as int),
                decreases replacement@.len() - k,
            {
                out.push(replacement[k].clone());
                proof {
                    assert(replacement@.take(k + 1) =~= replacement@.take(k as int).push(
                        replacement@[k as int],
                    ));
                }
                k = k + 1;
            }
            proof {
                assert(replacement@.take(replacement@.len() as int) =~= replacement@);
            }
        } else {
            out.push(input[i].clone());
            proof {
                assert(seq![input@[i as int]] =~= Seq::<Token>::empty().push(input@[i as int]));
            }
        }
        i = i + 1;
    }
    proof {
        assert(input@.take(input@.len() as int) =~= input@);
    }
    out
}

/// A stream without the identifier searched for comes out unchanged.
pub proof fn law_nothing_to_replace(search: Seq<char>, replacement: Seq<Token>, input: Seq<Token>)
    requires
        forall|i: int| 0 <= i < input.len() ==> !is_searched(search, #[trigger] input[i]),
    ensures
        replaced(search, replacement, input) == input,
    decreases input.len(),
{
    if input.len() > 0 {
        law_nothing_to_replace(search, replacement, input.drop_last());
        assert(input.drop_last() + seq![input.last()] =~= input);
    }
}

/// When the replacement does not itself hold the identifier searched for,
/// no occurrence of it is left anywhere in the output.
pub proof fn law_replaces_every_occurrence(
    search: Seq<char>,
    replacement: Seq<Token>,
    input: Seq<Token>,
)
    requires
        forall|i: int| 0 <= i < replacement.len() ==> !is_searched(search, #[trigger] replacement[i]),
    ensures
        forall|i: int|
            0 <= i < replaced(search, replacement, input).len() ==> !is_searched(
                search,
                #[trigger] replaced(search, replacement, input)[i],
            ),
    decreases input.len(),
{
    if input.len() > 0 {
        law_replaces_every_occurrence(search, replacement, input.drop_last());
        let front = replaced(search, replacement, input.drop_last());
        let back = replaced_token(search, replacement, input.last());
        assert forall|i: int| 0 <= i < (front + back).len() implies !is_searched(
            search,
            #[trigger] (front + back)[i],
        ) by {
            if i >= front.len() {
                assert((front + back)[i] == back[i - front.len()]);
            } else {
                assert((front + back)[i] == front[i]);
            }
        }
    }
}

/// Replacing keeps the grouping: when the replacement holds no group
/// marker, the output has exactly the group markers of the input, in the
/// same order.
pub proof fn law_groups_kept(search: Seq<char>, replacement: Seq<Token>, input: Seq<Token>)
    requires
        forall|i: int| 0 <= i < replacement.len() ==> !is_marker(#[trigger] replacement[i]),
    ensures
        replaced(search, replacement, input).filter(|t: Token| is_marker(t)) == input.filter(
            |t: Token| is_marker(t),
        ),
    decreases input.len(),
{
    let m = |t: Token| is_marker(t);
    if input.len() > 0 {
        law_groups_kept(search, replacement, input.drop_last());
        let front = replaced(search, replacement, input.drop_last());
        let back = replaced_token(search, replacement, input.last());
        Seq::filter_distributes_over_add(front, back, m);
        Seq::filter_distributes_over_add(input.drop_last(), seq![input.last()], m);
        assert(input.drop_last() + seq![input.last()] =~= input);
        if is_searched(search, input.last()) {
            lemma_no_markers_filter(replacement);
            assert(!is_marker(input.last()));
            assert(seq![input.last()].filter(m) =~= Seq::<Token>::empty()) by {
                reveal_with_fuel(Seq::filter, 2);
            }
        }
    }
}

/// Whether `t` opens or closes a group.
pub open spec fn is_marker(t: Token) -> bool {
    t is Open || t is Close
}

proof fn lemma_no_markers_filter(s: Seq<Token>)
    requires
        forall|i: int| 0 <= i < s.len() ==> !is_marker(#[trigger] s[i]),
    ensures
        s.filter(|t: Token| is_marker(t)) == Seq::<Token>::empty(),
    decreases s.len(),
{
    reveal(Seq::filter);
    if s.len() > 0 {
        lemma_no_markers_filter(s.drop_last());
        assert(s.drop_last().filter(|t: Token| is_marker(t)) =~= Seq::<Token>::empty());
        assert(!is_marker(s.last()));
    }
    assert(s.filter(|t: Token| is_marker(t)) =~= Seq::<Token>::empty());
}

/// A single token comes out as exactly the replacement tokens, whatever
/// they hold, when it is the identifier searched for, and as itself
/// otherwise.
pub proof fn law_replace_single(search: Seq<char>, replacement: Seq<Token>, t: Token)
    ensures
        is_searched(search, t) ==> replaced(search, replacement, seq![t]) == replacement,
        !is_searched(search, t) ==> replaced(search, replacement, seq![t]) == seq![t],
{
    reveal_with_fuel(replaced, 2);
    assert(seq![t].drop_last() =~= Seq::<Token>::empty());
    assert(seq![t].last() == t);
    assert(replaced(search, replacement, Seq::<Token>::empty()) == Seq::<Token>::empty());
    assert(Seq::<Token>::empty() + replacement =~= replacement);
    assert(Seq::<Token>::empty() + seq![t] =~= seq![t]);
}

/// Replacing works token by token: the output for two streams put one
/// after the other is the output for the first followed by the output for
/// the second.
pub proof fn law_replace_concat(
    search: Seq<char>,
    replacement: Seq<Token>,
    a: Seq<Token>,
    b: Seq<Token>,
)
    ensures
        replaced(search, replacement, a + b) == replaced(search, replacement, a) + replaced(
            search,
            replacement,
            b,
        ),
    decreases b.len(),
{
    if b.len() == 0 {
        assert(a + b =~= a);
        assert(replaced(search, replacement, a) + Seq::<Token>::empty() =~= replaced(
            search,
            replacement,
            a,
        ));
    } else {
        law_replace_concat(search, replacement, a, b.drop_last());
        assert((a + b).drop_last() =~= a + b.drop_last());
        assert((a + b).last() == b.last());
        let ra = replaced(search, replacement, a);
        let rb = replaced(search, replacement, b.drop_last());
        let rt = replaced_token(search, replacement, b.last());
        assert(ra + rb + rt =~= ra + (rb + rt));
    }
}

/// Each occurrence of the identifier grows the output by the replacement's
/// length less one: the output holds the input's other tokens plus
/// `replacement.len()` tokens for each occurrence.
pub proof fn law_replace_length(search: Seq<char>, replacement: Seq<Token>, input: Seq<Token>)
    ensures
        replaced(search, replacement, input).len() == input.len() + occurrences(search, input) * (
        replacement.len() - 1),
    decreases input.len(),
{
    if input.len() > 0 {
        law_replace_length(search, replacement, input.drop_last());
        let n = occurrences(search, input.drop_last());
        let r = replacement.len() as int;
        assert(n * (r - 1) + (r - 1) == (n + 1) * (r - 1)) by (nonlinear_arith);
    }
}

/// How many tokens of `input` are the identifier `search`.
pub open spec fn occurrences(search: Seq<char>, input: Seq<Token>) -> int
    decreases input.len(),
{
    if input.len() == 0 {
        0
    } else {
        occurrences(search, input.drop_last()) + if is_searched(search, input.last()) {
            1int
        } else {
            0int
        }
    }
}

} // verus!
