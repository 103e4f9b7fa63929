//! Planning of shell operations.
//!
//! Nothing here starts a process. A command line is turned into the launches
//! that carry it out, and the driver performs them.
use vstd::prelude::*;
use vstd::string::StringExecFns;
use crate::text::{is_whitespace, push_char, views, whitespace};

verus! {

/// One launch of a program: its name and, if any are passed, its arguments.
///
/// `args` is `None` where the program is started without an argument list, and
/// `Some` of a list, possibly empty, where one is handed over.
#[derive(Clone, Debug, PartialEq, Eq)]
pub struct Invocation {
    pub program: String,
    pub args: Option<Vec<String>>,
}

/// The mathematical value of an [`Invocation`].
pub struct InvocationView {
    pub program: Seq<char>,
    pub args: Option<Seq<Seq<char>>>,
}

impl View for Invocation {
    type V = InvocationView;

    open spec fn view(&self) -> InvocationView {
        InvocationView {
            program: self.program@,
            args: match self.args {
                Some(args) => Some(views(args@)),
                None => None,
            },
        }
    }
}

/// The state of a left-to-right scan that cuts text at whitespace: the pieces
/// already closed, and the piece being read.
pub open spec fn scan(text: Seq<char>) -> (Seq<Seq<char>>, Seq<char>)
    decreases text.len(),
{
    if text.len() == 0 {
        (Seq::empty(), Seq::empty())
    } else {
        let (closed, open) = scan(text.drop_last());
        if is_whitespace(text.last()) {
            (closed.push(open), Seq::empty())
        } else {
            (closed, open.push(text.last()))
        }
    }
}

/// The pieces of a text between its whitespace characters, in order. Every
/// whitespace character separates two pieces, so a piece may be empty, and a
/// text with `n` whitespace characters has `n + 1` pieces.
pub open spec fn pieces(text: Seq<char>) -> Seq<Seq<char>> {
    scan(text).0.push(scan(text).1)
}

/// The launches that carry out a command line.
///
/// The first piece of the line is the program and the pieces after it are its
/// arguments. A line with exactly one argument starts the program twice: once
/// bare, then with the argument.
pub open spec fn launches(line: Seq<char>) -> Seq<InvocationView> {
    let program = pieces(line)[0];
    let args = pieces(line).skip(1);
    let full = InvocationView { program, args: Some(args) };
    if args.len() == 1 {
        seq![InvocationView { program, args: None }, full]
    } else {
        seq![full]
    }
}

/// The whitespace characters of a text, in order.
pub open spec fn separators(text: Seq<char>) -> Seq<char>
    decreases text.len(),
{
    if text.len() == 0 {
        Seq::empty()
    } else if is_whitespace(text.last()) {
        separators(text.drop_last()).push(text.last())
    } else {
        separators(text.drop_last())
    }
}

/// The text made of the parts with a separator between each two of them. There
/// is one part more than there are separators.
pub open spec fn woven(parts: Seq<Seq<char>>, between: Seq<char>) -> Seq<char>
    decreases between.len(),
{
    if parts.len() == 0 {
        Seq::empty()
    } else if between.len() == 0 {
        parts[0]
    } else {
        woven(parts.drop_last(), between.drop_last()).push(between.last()) + parts.last()
    }
}

/// Cutting loses nothing: a text has one piece more than it has whitespace
/// characters, and the pieces with those characters between them are the text
/// again.
pub proof fn lemma_pieces_make_up_the_text(text: Seq<char>)
    ensures
        pieces(text).len() == separators(text).len() + 1,
        woven(pieces(text), separators(text)) == text,
    decreases text.len(),
{
    if text.len() > 0 {
        let shorter = text.drop_last();
        lemma_pieces_make_up_the_text(shorter);
        let before = pieces(shorter);
        let between = separators(shorter);
        if is_whitespace(text.last()) {
            assert(pieces(text).drop_last() == before);
            assert(separators(text).drop_last() == between);
            assert(woven(pieces(text), separators(text)) =~= text);
        } else {
            assert(pieces(text).last() == before.last().push(text.last()));
            if between.len() == 0 {
                assert(before.last() == before[0]);
                assert(woven(before, between) == before[0]);
                assert(pieces(text)[0] == shorter.push(text.last()));
                assert(shorter.push(text.last()) =~= text);
            } else {
                let head = woven(before.drop_last(), between.drop_last()).push(between.last());
                assert(pieces(text).drop_last() =~= before.drop_last());
                assert(woven(before, between) == head + before.last());
                assert(woven(pieces(text), between) == head + pieces(text).last());
                assert(head + before.last().push(text.last()) =~= (head + before.last()).push(
                    text.last(),
                ));
                assert(shorter.push(text.last()) =~= text);
            }
        }
    } else {
        assert(woven(pieces(text), separators(text)) =~= text);
    }
}

/// No piece holds a whitespace character, and there is always a first piece.
pub proof fn lemma_pieces_hold_no_whitespace(text: Seq<char>)
    ensures
        pieces(text).len() >= 1,
        forall|i: int, j: int|
            0 <= i < pieces(text).len() && 0 <= j < pieces(text)[i].len() ==> !is_whitespace(
                #[trigger] pieces(text)[i][j],
            ),
    decreases text.len(),
{
    if text.len() > 0 {
        lemma_pieces_hold_no_whitespace(text.drop_last());
        let before = pieces(text.drop_last());
        let (closed, open) = scan(text.drop_last());
        assert forall|i: int, j: int|
            0 <= i < pieces(text).len() && 0 <= j < pieces(text)[i].len() implies !is_whitespace(
            #[trigger] pieces(text)[i][j],
        ) by {
            if is_whitespace(text.last()) {
                if i < before.len() {
                    assert(pieces(text)[i] == before[i]);
                }
            } else {
                if i < closed.len() {
                    assert(pieces(text)[i] == before[i]);
                } else if j < open.len() {
                    assert(pieces(text)[i][j] == before[i][j]);
                }
            }
        }
    }
}

/// Cuts a text at its whitespace characters.
pub fn split(text: &str) -> (parts: Vec<String>)
    ensures
        views(parts@) == pieces(text@),
        parts.len() >= 1,
{
    broadcast use vstd::string::group_string_axioms;

    let mut closed: Vec<String> = Vec::new();
    let mut open = String::new();
    assert(views(closed@) =~= scan(text@.take(0)).0);
    for c in chars: text.chars()
        invariant
            chars.seq() == text@,
            views(closed@) == scan(text@.take(chars.index() as int)).0,
            open@ == scan(text@.take(chars.index() as int)).1,
    {
        let ghost seen = text@.take(chars.index() as int);
        let ghost next = text@.take(chars.index() + 1);
        assert(next.drop_last() == seen);
        assert(next.last() == c);
        if whitespace(c) {
            let ghost before = views(closed@);
            closed.push(open);
            open = String::new();
            assert(views(closed@) =~= before.push(scan(seen).1));
        } else {
            push_char(&mut open, c);
        }
    }
    assert(text@.take(text@.len() as int) == text@);
    let ghost before = views(closed@);
    closed.push(open);
    assert(views(closed@) =~= before.push(scan(text@).1));
    closed
}

/// Describes the launch of `cmd` with the given arguments.
pub fn command(cmd: &str, args: Option<Vec<String>>) -> (invocation: Invocation)
    ensures
        invocation.program@ == cmd@,
        invocation.args == args,
{
    Invocation { program: String::from_str(cmd), args }
}

/// Plans the run of a command line: the launches to perform, in order, each
/// one waited for before the next.
pub fn run(cmd: &str) -> (plan: Vec<Invocation>)
    ensures
        views(plan@) == launches(cmd@),
{
    let mut args = split(cmd);
    let ghost all = views(args@);
    let program = args.remove(0);
    assert(views(args@) =~= all.skip(1));
    let mut plan: Vec<Invocation> = Vec::new();
    if args.len() == 1 {
        plan.push(command(program.as_str(), None));
    }
    plan.push(Invocation { program, args: Some(args) });
    assert(views(plan@) =~= launches(cmd@));
    plan
}

/// The launch that executes a script: the script itself is the program, named
/// by its path, and it is handed no argument list.
pub fn run_script(path: &str) -> (invocation: Invocation)
    ensures
        invocation@ == (InvocationView { program: path@, args: None }),
{
    command(path, None)
}

/// Whether a command line has run well, given for each of its launches, in
/// order, whether the program started and exited with success. The last
/// launch, the one that hands over every argument, decides.
pub open spec fn completed(results: Seq<bool>) -> bool {
    results.len() > 0 && results.last()
}

/// Judges the run of a command line by the results of its launches.
pub fn succeeded(results: &Vec<bool>) -> (ok: bool)
    ensures
        ok == completed(results@),
{
    results.len() > 0 && results[results.len() - 1]
}

/// Tells whether an effective user id is that of the superuser.
pub fn is_root(euid: u32) -> (root: bool)
    ensures
        root == (euid == 0),
{
    euid == 0
}

} // verus!
