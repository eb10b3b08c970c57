//! Plain-text helpers: joining argument lists and extracting the first
//! whitespace-delimited token of a command line.
use vstd::prelude::*;
use vstd::string::StringExecFns;
use vstd::string::StrSliceExecFns;

verus! {

/// The whitespace characters that delimit command tokens.
pub open spec fn is_space_char(c: char) -> bool {
    c == ' ' || c == '\t' || c == '\n' || c == '\r' || c == '\u{b}' || c == '\u{c}'
}

/// The argument list joined with single spaces, as the shell passed it.
pub open spec fn join_with_spaces(args: Seq<Seq<char>>) -> Seq<char>
    decreases args.len(),
{
    if args.len() == 0 {
        Seq::empty()
    } else if args.len() == 1 {
        args[0]
    } else {
        join_with_spaces(args.drop_last()).push(' ') + args.last()
    }
}

/// Joins the raw arguments into one command string, separated by spaces.
pub fn join_args(args: &Vec<String>) -> (r: String)
    ensures
        r@ == join_with_spaces(args.deep_view()),
{
    let mut r = String::new();
    let mut i: usize = 0;
    while i < args.len()
        invariant
            i <= args.len(),
            r@ == join_with_spaces(args.deep_view().take(i as int)),
        decreases args.len() - i,
    {
        let ghost prev = r@;
        if i > 0 {
            r.append(" ");
        }
        r.append(args[i].as_str());
        proof {
            reveal_strlit(" ");
            let dv = args.deep_view();
            assert(dv.take(i + 1).drop_last() =~= dv.take(i as int));
            assert(dv.take(i + 1).last() == dv[i as int]);
            if i == 0 {
                assert(r@ =~= dv.take(1)[0]);
            } else {
                assert(" "@ =~= seq![' ']);
                assert(r@ =~= prev.push(' ') + dv[i as int]);
                assert(r@ =~= join_with_spaces(dv.take(i + 1)));
            }
        }
        i = i + 1;
    }
    proof {
        assert(args.deep_view().take(args.len() as int) =~= args.deep_view());
    }
    r
}

/// The command with its leading whitespace removed.
pub open spec fn skip_spaces(s: Seq<char>) -> Seq<char>
    decreases s.len(),
{
    if s.len() == 0 {
        s
    } else if is_space_char(s[0]) {
        skip_spaces(s.drop_first())
    } else {
        s
    }
}

/// The maximal run of non-whitespace characters at the front of `s`.
pub open spec fn leading_token(s: Seq<char>) -> Seq<char>
    decreases s.len(),
{
    if s.len() == 0 || is_space_char(s[0]) {
        Seq::empty()
    } else {
        seq![s[0]] + leading_token(s.drop_first())
    }
}

/// The first whitespace-delimited token of a command line; when the line
/// holds no token at all, the whole line stands in for it.
pub open spec fn first_token_spec(s: Seq<char>) -> Seq<char> {
    if leading_token(skip_spaces(s)).len() == 0 {
        s
    } else {
        leading_token(skip_spaces(s))
    }
}

proof fn lemma_skip_spaces_index(s: Seq<char>, i: int)
    requires
        0 <= i <= s.len(),
        forall|k: int| 0 <= k < i ==> is_space_char(s[k]),
    ensures
        skip_spaces(s) == skip_spaces(s.subrange(i, s.len() as int)),
    decreases i,
{
    if i > 0 {
        assert(is_space_char(s[0]));
        assert(forall|k: int| 0 <= k < i - 1 ==> is_space_char(#[trigger] s.drop_first()[k]));
        lemma_skip_spaces_index(s.drop_first(), i - 1);
        assert(s.drop_first().subrange(i - 1, s.drop_first().len() as int) =~= s.subrange(
            i,
            s.len() as int,
        ));
    } else {
        assert(s.subrange(0, s.len() as int) =~= s);
    }
}

proof fn lemma_leading_token_index(s: Seq<char>, j: int)
    requires
        0 <= j <= s.len(),
        forall|k: int| 0 <= k < j ==> !is_space_char(s[k]),
        j == s.len() || is_space_char(s[j]),
    ensures
        leading_token(s) == s.subrange(0, j),
    decreases j,
{
    if j == 0 {
        assert(leading_token(s) =~= s.subrange(0, 0));
    } else {
        assert(!is_space_char(s[0]));
        lemma_leading_token_index(s.drop_first(), j - 1);
        assert(s.drop_first() =~= s.subrange(1, s.len() as int));
        assert(s.drop_first().subrange(0, j - 1) =~= s.subrange(1, j));
        assert(seq![s[0]] + s.subrange(1, j) =~= s.subrange(0, j));
    }
}

/// Extracts the first whitespace-delimited token of the command, the name
/// that is probed on the search path.
pub fn first_token(command: &str) -> (r: String)
    ensures
        r@ == first_token_spec(command@),
{
    let n = command.unicode_len();
    let mut i: usize = 0;
    while i < n && is_space(command.get_char(i))
        invariant
            n == command@.len(),
            0 <= i <= n,
            forall|k: int| 0 <= k < i ==> is_space_char(command@[k]),
        decreases n - i,
    {
        i = i + 1;
    }
    proof {
        lemma_skip_spaces_index(command@, i as int);
    }
    if i == n {
        // The line is empty or all whitespace: no token, fall back to the line.
        proof {
            assert(command@.subrange(i as int, n as int) =~= Seq::<char>::empty());
        }
        return String::from_str(command);
    }
    let mut j: usize = i;
    while j < n && !is_space(command.get_char(j))
        invariant
            n == command@.len(),
            i <= j <= n,
            forall|k: int| i <= k < j ==> !is_space_char(command@[k]),
        decreases n - j,
    {
        j = j + 1;
    }
    let token = command.substring_char(i, j);
    proof {
        let tail = command@.subrange(i as int, n as int);
        assert(!is_space_char(tail[0]));
        assert(skip_spaces(tail) == tail);
        assert(forall|k: int| 0 <= k < j - i ==> !is_space_char(tail[k]));
        assert(j == n || is_space_char(tail[j - i]));
        lemma_leading_token_index(tail, j - i);
        assert(tail.subrange(0, j - i) =~= command@.subrange(i as int, j as int));
        assert(leading_token(skip_spaces(command@)).len() > 0);
    }
    String::from_str(token)
}

fn is_space(c: char) -> (r: bool)
    ensures
        r == is_space_char(c),
{
    c == ' ' || c == '\t' || c == '\n' || c == '\r' || c == '\u{b}' || c == '\u{c}'
}

} // verus!
