//! The command that a mode runs: program, arguments and streams.

use crate::text::option_text;
use crate::text::pair_texts;
use crate::text::texts;
use vstd::prelude::*;
use vstd::string::*;

verus! {

/// Where a stream of the child is connected.
#[derive(Debug, Clone, Copy, PartialEq, Eq, Structural)]
pub enum Stream {
    /// To the stream of this process.
    Inherit,
    /// To a pipe that this process holds.
    Piped,
}

/// What the child reads on its standard input.
#[derive(Debug, Clone, PartialEq, Eq)]
pub enum Input {
    /// The standard input of this process, untouched.
    Inherit,
    /// Through a pipe, all that this process can read on its own standard
    /// input.
    OwnInput,
    /// Through a pipe, the text of the file at this path.
    File(String),
}

/// An input with its path as text.
pub enum InputView {
    Inherit,
    OwnInput,
    File(Seq<char>),
}

impl View for Input {
    type V = InputView;

    open spec fn view(&self) -> InputView {
        match *self {
            Input::Inherit => InputView::Inherit,
            Input::OwnInput => InputView::OwnInput,
            Input::File(path) => InputView::File(path@),
        }
    }
}

impl InputView {
    /// How the child's standard input is connected: piped wherever this
    /// process feeds it.
    pub open spec fn stream(self) -> Stream {
        match self {
            InputView::Inherit => Stream::Inherit,
            _ => Stream::Piped,
        }
    }
}

impl Input {
    /// How the child's standard input is to be connected.
    pub fn stream(&self) -> (r: Stream)
        ensures
            r == self@.stream(),
    {
        match self {
            Input::Inherit => Stream::Inherit,
            _ => Stream::Piped,
        }
    }
}

/// A command to run.
#[derive(Debug, Clone, PartialEq, Eq)]
pub struct Invocation {
    pub program: String,
    pub args: Vec<String>,
    pub stdin: Input,
    pub stdout: Stream,
    pub stderr: Stream,
}

/// A command with its strings as text.
pub struct InvocationView {
    pub program: Seq<char>,
    pub args: Seq<Seq<char>>,
    pub stdin: InputView,
    pub stdout: Stream,
    pub stderr: Stream,
}

impl View for Invocation {
    type V = InvocationView;

    open spec fn view(&self) -> InvocationView {
        InvocationView {
            program: self.program@,
            args: texts(self.args@),
            stdin: self.stdin@,
            stdout: self.stdout,
            stderr: self.stderr,
        }
    }
}

impl Invocation {
    /// A copy of the command.
    pub fn clone_invocation(&self) -> (r: Invocation)
        ensures
            r@ == self@,
    {
        let stdin = match &self.stdin {
            Input::Inherit => Input::Inherit,
            Input::OwnInput => Input::OwnInput,
            Input::File(path) => Input::File(path.clone()),
        };
        let mut args: Vec<String> = Vec::new();
        assert(texts(args@) =~= Seq::<Seq<char>>::empty());
        extend_args(&mut args, &self.args);
        assert(texts(args@) =~= texts(self.args@));
        Invocation {
            program: self.program.clone(),
            args,
            stdin,
            stdout: self.stdout,
            stderr: self.stderr,
        }
    }
}

/// One entry as the formatter takes it: key, equals sign, value.
pub open spec fn assignment(entry: (Seq<char>, Seq<char>)) -> Seq<char> {
    entry.0 + seq!['='] + entry.1
}

/// The arguments that hand the entries to the formatter: for each entry, in
/// order, `--config` and its assignment.
pub open spec fn config_arguments(entries: Seq<(Seq<char>, Seq<char>)>) -> Seq<Seq<char>>
    decreases entries.len(),
{
    if entries.len() == 0 {
        Seq::empty()
    } else {
        config_arguments(entries.drop_last()).push("--config"@).push(assignment(entries.last()))
    }
}

/// `flag` if `on`, else nothing.
pub open spec fn flag_if(on: bool, flag: Seq<char>) -> Seq<Seq<char>> {
    if on {
        seq![flag]
    } else {
        Seq::empty()
    }
}

/// `--edition` and the edition, where there is one.
pub open spec fn edition_arguments(edition: Option<Seq<char>>) -> Seq<Seq<char>> {
    match edition {
        Some(edition) => seq!["--edition"@, edition],
        None => Seq::empty(),
    }
}

/// Whether the arguments at `2 * i` and `2 * i + 1` are `--config` and the
/// assignment of `entry`.
pub open spec fn hands_over(args: Seq<Seq<char>>, i: int, entry: (Seq<char>, Seq<char>)) -> bool {
    args[2 * i] == "--config"@ && args[2 * i + 1] == assignment(entry)
}

/// There are two arguments for each entry, and the arguments of the entries
/// stand in the order of the entries.
pub proof fn lemma_config_arguments(entries: Seq<(Seq<char>, Seq<char>)>)
    ensures
        config_arguments(entries).len() == 2 * entries.len(),
        forall|i: int|
            0 <= i < entries.len() ==> hands_over(
                config_arguments(entries),
                i,
                #[trigger] entries[i],
            ),
    decreases entries.len(),
{
    if entries.len() > 0 {
        let front = entries.drop_last();
        lemma_config_arguments(front);
        assert forall|i: int| 0 <= i < entries.len() implies hands_over(
            config_arguments(entries),
            i,
            #[trigger] entries[i],
        ) by {
            if i < front.len() {
                assert(hands_over(config_arguments(front), i, front[i]));
            }
        }
    }
}

/// Appends copies of `items` to `args`.
pub fn extend_args(args: &mut Vec<String>, items: &Vec<String>)
    ensures
        texts(final(args)@) == texts(old(args)@) + texts(items@),
{
    let ghost before = texts(args@);
    let mut index: usize = 0;
    assert(texts(items@).take(0) =~= Seq::<Seq<char>>::empty());
    assert(before + Seq::<Seq<char>>::empty() =~= before);
    while index < items.len()
        invariant
            index <= items.len(),
            texts(args@) == before + texts(items@).take(index as int),
        decreases items.len() - index,
    {
        let ghost so_far = texts(args@);
        args.push(items[index].clone());
        assert(texts(args@) =~= so_far.push(items@[index as int]@));
        assert(texts(items@).take(index + 1) =~= texts(items@).take(index as int).push(
            items@[index as int]@,
        ));
        index += 1;
    }
    assert(texts(items@).take(index as int) =~= texts(items@));
}

/// Appends `--config` and the assignment of each entry to `args`.
pub fn extend_config_args(args: &mut Vec<String>, entries: &Vec<(String, String)>)
    ensures
        texts(final(args)@) == texts(old(args)@) + config_arguments(pair_texts(entries@)),
{
    let ghost before = texts(args@);
    let ghost all = pair_texts(entries@);
    let mut index: usize = 0;
    assert(all.take(0) =~= Seq::<(Seq<char>, Seq<char>)>::empty());
    assert(before + Seq::<Seq<char>>::empty() =~= before);
    while index < entries.len()
        invariant
            index <= entries.len(),
            all == pair_texts(entries@),
            texts(args@) == before + config_arguments(all.take(index as int)),
        decreases entries.len() - index,
    {
        let ghost so_far = texts(args@);
        let mut pair = entries[index].0.clone();
        proof {
            reveal_strlit("=");
            assert("="@ =~= seq!['=']);
        }
        pair.append("=");
        pair.append(entries[index].1.as_str());
        args.push("--config".to_owned());
        args.push(pair);
        proof {
            let next = all.take(index + 1);
            assert(next.drop_last() =~= all.take(index as int));
            assert(next.last() == all[index as int]);
            assert(pair@ =~= assignment(all[index as int]));
            assert(texts(args@) =~= so_far.push("--config"@).push(pair@));
            assert(texts(args@) =~= before + config_arguments(next));
        }
        index += 1;
    }
    assert(all.take(index as int) =~= all);
}

/// The command that formats one text with the formatter itself: `--check`
/// if asked for, the edition if there is one, the entries of the
/// configuration, then the additional arguments as they came. The formatter
/// reads `stdin` through a pipe and writes to `stdout`; its errors go where
/// those of this process go.
pub fn rustfmt_command(
    check: bool,
    edition: &Option<String>,
    entries: &Vec<(String, String)>,
    additional_args: &Vec<String>,
    stdin: Input,
    stdout: Stream,
) -> (r: Invocation)
    ensures
        r@ == rustfmt_invocation(
            check,
            option_text(*edition),
            pair_texts(entries@),
            texts(additional_args@),
            stdin@,
            stdout,
        ),
{
    let mut args: Vec<String> = Vec::new();
    assert(texts(args@) =~= Seq::<Seq<char>>::empty());
    if check {
        args.push("--check".to_owned());
        assert(texts(args@) =~= seq!["--check"@]);
    }
    let ghost flags = texts(args@);
    match edition {
        Some(edition) => {
            args.push("--edition".to_owned());
            args.push(edition.clone());
            assert(texts(args@) =~= flags + seq!["--edition"@, edition@]);
        },
        None => {
            assert(texts(args@) =~= flags + Seq::<Seq<char>>::empty());
        },
    }
    extend_config_args(&mut args, entries);
    extend_args(&mut args, additional_args);
    Invocation { program: "rustfmt".to_owned(), args, stdin, stdout, stderr: Stream::Inherit }
}

/// What `rustfmt_command` builds.
pub open spec fn rustfmt_invocation(
    check: bool,
    edition: Option<Seq<char>>,
    entries: Seq<(Seq<char>, Seq<char>)>,
    additional_args: Seq<Seq<char>>,
    stdin: InputView,
    stdout: Stream,
) -> InvocationView {
    InvocationView {
        program: "rustfmt"@,
        args: flag_if(check, "--check"@) + edition_arguments(edition) + config_arguments(entries)
            + additional_args,
        stdin,
        stdout,
        stderr: Stream::Inherit,
    }
}

} // verus!
