//! The decisions of the shell loop: what to do with each line that is read,
//! and how the working directory follows `cd`.
use vstd::prelude::*;
use crate::diagnostics::cd_failure_line;
use crate::path::{render, render_path, resolve, resolve_dir};
use crate::text::{push_chars, string_of};
use crate::tokenizer::{is_white_space, is_white_space_char, parse_command, tokenize, ParseError, MAX_COMMAND_CHARS};

verus! {

/// The line that ends the shell, with or without its newline.
pub open spec fn is_exit_line(line: Seq<char>) -> bool {
    line == "exit\n"@ || line == "exit"@
}

/// A line of white space only, or an empty one.
pub open spec fn is_blank(line: Seq<char>) -> bool {
    forall|i: int| 0 <= i < line.len() ==> is_white_space(#[trigger] line[i])
}

/// A line that is to be tokenized: neither the exit line nor blank.
pub open spec fn is_command_line(line: Seq<char>) -> bool {
    !is_exit_line(line) && !is_blank(line)
}

/// What the loop is to do with one line.
#[derive(Debug)]
pub enum Action {
    /// Stop the loop.
    Exit,
    /// Nothing to run: prompt again.
    Skip,
    /// The line was refused; report the error and prompt again.
    Rejected { error: ParseError },
    /// Change the working directory to the absolute path `target`, then tell
    /// the session whether that worked.
    ChangeDir { target: String },
    /// `cd` was given other than one argument: report a `cd` failure.
    CdFailure,
    /// Run `program` with `args` in the directory `dir`, and report how it
    /// ended.
    Run { program: String, args: Vec<String>, dir: String },
}

/// The state that the shell keeps from one line to the next: its working
/// directory, as the sequence of its path components below the root.
pub struct Session {
    pub cwd: Vec<String>,
}

impl View for Session {
    type V = Seq<Seq<char>>;

    open spec fn view(&self) -> Seq<Seq<char>> {
        self.cwd.deep_view()
    }
}

fn is_blank_line(line: &str) -> (r: bool)
    ensures
        r == is_blank(line@),
{
    for c in it: line.chars()
        invariant
            it.seq() == line@,
            forall|i: int| 0 <= i < it.index() ==> is_white_space(#[trigger] line@[i]),
    {
        if !is_white_space_char(c) {
            return false;
        }
    }
    true
}

fn same_text(a: &str, b: &str) -> (r: bool)
    ensures
        r == (a@ == b@),
{
    String::from_str(a) == String::from_str(b)
}

impl Session {
    /// A session whose working directory is the one that the path `start`
    /// names, seen from the root.
    pub fn new(start: &str) -> (r: Session)
        ensures
            r@ == resolve(Seq::empty(), start@),
    {
        let root: Vec<String> = Vec::new();
        assert(root.deep_view() =~= Seq::<Seq<char>>::empty());
        Session { cwd: resolve_dir(&root, start) }
    }

    /// The absolute path of the working directory.
    pub fn cwd_path(&self) -> (r: String)
        ensures
            r@ == render(self@),
    {
        render_path(&self.cwd)
    }

    /// What to do with the tokens of a line: `cd` with one argument moves to
    /// the directory it names, `cd` with any other number of arguments fails,
    /// and anything else runs the first token as a program with the rest as
    /// its arguments, in the working directory.
    pub fn dispatch(&self, tokens: &Vec<String>) -> (r: Action)
        requires
            tokens.len() > 0,
        ensures
            tokens.deep_view()[0] == "cd"@ && tokens.len() == 2 ==> r is ChangeDir
                && r->target@ == render(resolve(self@, tokens.deep_view()[1])),
            tokens.deep_view()[0] == "cd"@ && tokens.len() != 2 ==> r is CdFailure,
            tokens.deep_view()[0] != "cd"@ ==> r is Run && r->program@ == tokens.deep_view()[0]
                && r->args.deep_view() == tokens.deep_view().drop_first() && r->dir@ == render(
                self@,
            ),
    {
        if same_text(tokens[0].as_str(), "cd") {
            if tokens.len() == 2 {
                let target = resolve_dir(&self.cwd, tokens[1].as_str());
                Action::ChangeDir { target: render_path(&target) }
            } else {
                Action::CdFailure
            }
        } else {
            let mut args: Vec<String> = Vec::new();
            let mut i: usize = 1;
            while i < tokens.len()
                invariant
                    1 <= i <= tokens.len(),
                    args.deep_view() =~= tokens.deep_view().subrange(1, i as int),
                decreases tokens.len() - i,
            {
                let ghost before = args.deep_view();
                args.push(tokens[i].clone());
                assert(args.deep_view() =~= before.push(tokens.deep_view()[i as int]));
                i = i + 1;
            }
            Action::Run { program: tokens[0].clone(), args, dir: render_path(&self.cwd) }
        }
    }

    /// What to do with one line read from the user: stop on the exit line,
    /// skip a blank line or one without tokens, refuse one that is too long,
    /// and otherwise dispatch its tokens.
    pub fn handle_line(&self, line: &str) -> (r: Action)
        ensures
            r is Exit <==> is_exit_line(line@),
            r is Skip <==> is_command_line(line@) && line@.len() <= MAX_COMMAND_CHARS
                && tokenize(line@).len() == 0 || !is_exit_line(line@) && is_blank(line@),
            r is Rejected <==> is_command_line(line@) && line@.len() > MAX_COMMAND_CHARS,
            r is Rejected ==> r->error == ParseError::CommandTooLong,
            is_command_line(line@) && line@.len() <= MAX_COMMAND_CHARS && tokenize(line@).len()
                > 0 ==> {
                let t = tokenize(line@);
                &&& t[0] == "cd"@ && t.len() == 2 ==> r is ChangeDir && r->target@ == render(
                    resolve(self@, t[1]),
                )
                &&& t[0] == "cd"@ && t.len() != 2 ==> r is CdFailure
                &&& t[0] != "cd"@ ==> r is Run && r->program@ == t[0] && r->args.deep_view()
                    == t.drop_first() && r->dir@ == render(self@)
            },
    {
        if same_text(line, "exit\n") || same_text(line, "exit") {
            return Action::Exit;
        }
        if is_blank_line(line) {
            return Action::Skip;
        }
        match parse_command(line) {
            Err(error) => Action::Rejected { error },
            Ok(tokens) => {
                if tokens.len() == 0 {
                    Action::Skip
                } else {
                    self.dispatch(&tokens)
                }
            },
        }
    }

    /// Records how a change of directory to `target` went: on success the
    /// working directory becomes `target`, and nothing is reported; on failure
    /// it stays, and the `cd` failure line is returned for the error stream.
    pub fn cd_finished(&mut self, target: &str, succeeded: bool) -> (r: Option<String>)
        ensures
            succeeded ==> final(self)@ == resolve(old(self)@, target@) && r is None,
            !succeeded ==> final(self)@ == old(self)@ && r is Some && r->0@ == cd_failure_line(),
    {
        if succeeded {
            self.cwd = resolve_dir(&self.cwd, target);
            None
        } else {
            Some(cd_failure_message())
        }
    }
}

/// The line reported when `cd` fails.
pub fn cd_failure_message() -> (r: String)
    ensures
        r@ == cd_failure_line(),
{
    let mut out: Vec<char> = Vec::new();
    push_chars(&mut out, "error: cd failed\n");
    assert(out@ =~= cd_failure_line());
    string_of(out)
}

} // verus!
