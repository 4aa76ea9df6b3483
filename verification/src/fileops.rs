//! The file operations of the menu, and the command line each one runs.

use vstd::prelude::*;
use vstd::string::StringExecFns;

verus! {

/// A file operation chosen from the menu, with what the user typed for it.
pub enum FileOperation {
    List(String),
    Display(String),
    Create(String, String),
    Remove(String),
    Pwd,
}

/// A program and its arguments.
pub struct CommandLine {
    pub program: String,
    pub args: Vec<String>,
}

impl View for CommandLine {
    type V = (Seq<char>, Seq<Seq<char>>);

    open spec fn view(&self) -> (Seq<char>, Seq<Seq<char>>) {
        (self.program@, self.args@.map_values(|a: String| a@))
    }
}

/// The command that carries out `op`: `ls PATH`, `cat PATH`, `rm PATH`, `pwd`, and for
/// a new file a shell running `echo 'CONTENT' > PATH`.
pub open spec fn command_line_of(op: FileOperation) -> (Seq<char>, Seq<Seq<char>>) {
    match op {
        FileOperation::List(path) => ("ls"@, seq![path@]),
        FileOperation::Display(path) => ("cat"@, seq![path@]),
        FileOperation::Create(path, content) => (
            "sh"@,
            seq!["-c"@, "echo '"@ + content@ + "' > "@ + path@],
        ),
        FileOperation::Remove(path) => ("rm"@, seq![path@]),
        FileOperation::Pwd => ("pwd"@, Seq::empty()),
    }
}

fn one_arg(program: &str, arg: &String) -> (c: CommandLine)
    ensures
        c@ == (program@, seq![arg@]),
{
    let mut args: Vec<String> = Vec::new();
    args.push(arg.clone());
    let c = CommandLine { program: String::from_str(program), args };
    assert(c@.1 =~= seq![arg@]);
    c
}

/// The command line that carries out `op`.
pub fn command_for(op: &FileOperation) -> (c: CommandLine)
    ensures
        c@ == command_line_of(*op),
{
    match op {
        FileOperation::List(path) => one_arg("ls", path),
        FileOperation::Display(path) => one_arg("cat", path),
        FileOperation::Remove(path) => one_arg("rm", path),
        FileOperation::Create(path, content) => {
            let line = String::from_str("echo '").concat(content.as_str()).concat("' > ").concat(
                path.as_str(),
            );
            let mut args: Vec<String> = Vec::new();
            args.push(String::from_str("-c"));
            args.push(line);
            let c = CommandLine { program: String::from_str("sh"), args };
            assert(c@.1 =~= seq!["-c"@, "echo '"@ + content@ + "' > "@ + path@]);
            c
        },
        FileOperation::Pwd => {
            let c = CommandLine { program: String::from_str("pwd"), args: Vec::new() };
            assert(c@.1 =~= Seq::<Seq<char>>::empty());
            c
        },
    }
}

} // verus!
