//! The command line of a batch session. The remote side hands the line to a
//! shell, and the protocol has no quoting of its own, so each token is
//! escaped before the tokens are joined.

use vstd::prelude::*;
use vstd::string::StringExecFns;

verus! {

/// The text that `shell_escape::unix::escape` returns for `token`: the token
/// itself, or a quoted form of it that a POSIX shell reads as one word.
pub uninterp spec fn unix_escaped(token: Seq<char>) -> Seq<char>;

/// Calls `shell_escape::unix::escape` on `token`. The result depends on the
/// characters of the token alone, and is named [`unix_escaped`].
#[verifier::external_body]
fn escape(token: &str) -> (escaped: String)
    ensures
        escaped@ == unix_escaped(token@),
{
    shell_escape::unix::escape(std::borrow::Cow::Borrowed(token)).into_owned()
}

/// The texts of a list of strings.
pub open spec fn texts(strings: Seq<String>) -> Seq<Seq<char>> {
    strings.map_values(|string: String| string@)
}

/// `parts` in order, with one space between each two neighbours.
pub open spec fn joined(parts: Seq<Seq<char>>) -> Seq<char>
    decreases parts.len(),
{
    if parts.len() == 0 {
        Seq::empty()
    } else if parts.len() == 1 {
        parts[0]
    } else {
        joined(parts.drop_last()) + seq![' '] + parts.last()
    }
}

/// The command line for `tokens`: each token escaped, and the escaped tokens
/// joined by spaces.
pub open spec fn command_line_of(tokens: Seq<Seq<char>>) -> Seq<char> {
    joined(tokens.map_values(|token: Seq<char>| unix_escaped(token)))
}

/// Joins `parts` with one space between each two neighbours.
pub fn join_escaped(parts: &Vec<String>) -> (line: String)
    ensures
        line@ == joined(texts(parts@)),
{
    let mut line = String::new();
    let mut i: usize = 0;
    while i < parts.len()
        invariant
            i <= parts.len(),
            line@ == joined(texts(parts@).take(i as int)),
        decreases parts.len() - i,
    {
        let ghost before = texts(parts@).take(i as int);
        let ghost after = texts(parts@).take(i as int + 1);
        proof {
            assert(after.drop_last() =~= before);
            assert(after.last() == parts@[i as int]@);
        }
        if i > 0 {
            proof {
                reveal_strlit(" ");
                assert(" "@ =~= seq![' ']);
            }
            line.append(" ");
        }
        line.append(parts[i].as_str());
        proof {
            if i == 0 {
                assert(line@ =~= after[0]);
            }
        }
        i = i + 1;
    }
    proof {
        assert(texts(parts@).take(parts.len() as int) =~= texts(parts@));
    }
    line
}

/// Builds the command line of a batch session from the tokens of the
/// command: each token is escaped for a POSIX shell, and the escaped tokens
/// are joined by spaces.
pub fn command_line(tokens: &Vec<String>) -> (line: String)
    ensures
        line@ == command_line_of(texts(tokens@)),
{
    let ghost wanted = texts(tokens@).map_values(|token: Seq<char>| unix_escaped(token));
    let mut escaped: Vec<String> = Vec::new();
    let mut i: usize = 0;
    while i < tokens.len()
        invariant
            i <= tokens.len(),
            wanted == texts(tokens@).map_values(|token: Seq<char>| unix_escaped(token)),
            texts(escaped@) == wanted.take(i as int),
        decreases tokens.len() - i,
    {
        let ghost before = texts(escaped@);
        let part = escape(tokens[i].as_str());
        escaped.push(part);
        proof {
            assert(texts(escaped@) =~= before.push(part@));
            assert(wanted.take(i as int + 1) =~= wanted.take(i as int).push(wanted[i as int]));
        }
        i = i + 1;
    }
    proof {
        assert(wanted.take(tokens.len() as int) =~= wanted);
    }
    join_escaped(&escaped)
}

} // verus!
